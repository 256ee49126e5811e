//! Rotary encoders: a pair of keycodes per (layer, index), read and set
//! through dedicated commands, with a per-layer JSON array form.
use vstd::prelude::*;
use vstd::string::StringExecFns;
use crate::json::JsonValue;
use crate::keycodes;
use crate::keycodes::Generation;
use crate::keycodes::generation_of_spec;
use crate::keycodes::qid_name_spec;
use crate::protocol;
use crate::protocol::ProtocolError;

verus! {

/// One encoder slot: the counter-clockwise and clockwise keycodes.
#[derive(Debug, Clone, Copy, PartialEq, Eq, Structural)]
pub struct Encoder {
    pub index: u8,
    pub ccw: u16,
    pub cw: u16,
}

impl Encoder {
    /// Reads an encoder from its response: two high-byte-first 16-bit
    /// fields at the start of the payload.
    pub fn from_wire(index: u8, data: &[u8]) -> (r: Encoder)
        requires
            data@.len() >= 4,
        ensures
            r.index == index,
            r.ccw == ((data@[0] as u16) << 8) | (data@[1] as u16),
            r.cw == ((data@[2] as u16) << 8) | (data@[3] as u16),
    {
        Encoder {
            index,
            ccw: ((data[0] as u16) << 8) | (data[1] as u16),
            cw: ((data[2] as u16) << 8) | (data[3] as u16),
        }
    }

    /// The request that fetches the encoder at a layer and index.
    pub fn get_request(layer: u8, index: u8) -> (r: Vec<u8>)
        ensures
            r@ =~= seq![
                protocol::CMD_VIA_VIAL_PREFIX,
                protocol::CMD_VIAL_GET_ENCODER,
                layer,
                index,
            ],
    {
        let mut v: Vec<u8> = Vec::new();
        v.push(protocol::CMD_VIA_VIAL_PREFIX);
        v.push(protocol::CMD_VIAL_GET_ENCODER);
        v.push(layer);
        v.push(index);
        v
    }

    /// The request that sets one direction of an encoder to a keycode,
    /// high byte first.
    pub fn set_request(layer: u8, index: u8, direction: u8, value: u16) -> (r: Vec<u8>)
        ensures
            r@ =~= seq![
                protocol::CMD_VIA_VIAL_PREFIX,
                protocol::CMD_VIAL_SET_ENCODER,
                layer,
                index,
                direction,
                (value >> 8) as u8,
                (value & 0xFF) as u8,
            ],
    {
        let mut v: Vec<u8> = Vec::new();
        v.push(protocol::CMD_VIA_VIAL_PREFIX);
        v.push(protocol::CMD_VIAL_SET_ENCODER);
        v.push(layer);
        v.push(index);
        v.push(direction);
        v.push((value >> 8) as u8);
        v.push((value & 0xFF) as u8);
        v
    }
}

/// Resolution of one JSON encoder pair: a two-element array of key
/// names, indexed by its position in the layer.
pub open spec fn encoder_pair_spec(v: JsonValue, idx: u8, g: Generation) -> Option<Encoder> {
    match v {
        JsonValue::Arr(pair) => if pair@.len() != 2 {
            None
        } else {
            match (pair@[0], pair@[1]) {
                (JsonValue::Str(a), JsonValue::Str(b)) => match (
                    crate::keycodes::name_to_qid_spec(a@, g),
                    crate::keycodes::name_to_qid_spec(b@, g),
                ) {
                    (Some(ccw), Some(cw)) => Some(Encoder { index: idx, ccw, cw }),
                    _ => None,
                },
                _ => None,
            }
        },
        _ => None,
    }
}

/// Whether one JSON layer is an array whose every pair resolves.
pub open spec fn encoder_layer_ok(v: JsonValue, g: Generation) -> bool {
    v matches JsonValue::Arr(entries) && (forall|j: int|
        0 <= j < entries@.len() ==> encoder_pair_spec(
            #[trigger] entries@[j],
            (j % 256) as u8,
            g,
        ) is Some)
}

/// Parses the per-layer JSON encoder layout: an array of layers, each an
/// array of two-name arrays; a null value is an absent layout and yields
/// no layers.
pub fn load_encoders_from_json(encoders_json: &JsonValue, vial_version: u32) -> (r: Result<
    Vec<Vec<Encoder>>,
    ProtocolError,
>)
    ensures
        encoders_json is Null ==> (r is Ok && r.unwrap()@.len() == 0),
        !(encoders_json is Null) ==> (r is Ok <==> (encoders_json matches JsonValue::Arr(layers)
            && (forall|l: int|
            0 <= l < layers@.len() ==> encoder_layer_ok(
                #[trigger] layers@[l],
                generation_of_spec(vial_version),
            )))),
        r is Ok && !(encoders_json is Null) ==> (encoders_json matches JsonValue::Arr(layers)
            && r.unwrap()@.len() == layers@.len() && (forall|l: int|
            0 <= l < layers@.len() ==> ((#[trigger] layers@[l]) matches JsonValue::Arr(entries)
                && r.unwrap()@[l]@.len() == entries@.len() && (forall|j: int|
                0 <= j < entries@.len() ==> Some(r.unwrap()@[l]@[j]) == encoder_pair_spec(
                    #[trigger] entries@[j],
                    (j % 256) as u8,
                    generation_of_spec(vial_version),
                ))))),
{
    let ghost g = generation_of_spec(vial_version);
    let mut result: Vec<Vec<Encoder>> = Vec::new();
    if encoders_json.is_null() {
        return Ok(result);
    }
    let layers = match encoders_json.as_array() {
        Some(v) => v,
        None => {
            return Err(
                ProtocolError::GeneralError(
                    String::from_str("encoders should be encoded as array of arrays of arrays"),
                ),
            );
        },
    };
    let n = layers.len();
    let mut i: usize = 0;
    while i < n
        invariant
            n == layers@.len(),
            i <= n,
            result@.len() == i,
            g == generation_of_spec(vial_version),
            !(encoders_json is Null),
            *encoders_json == JsonValue::Arr(*layers),
            forall|l: int|
                0 <= l < i ==> ((#[trigger] layers@[l]) matches JsonValue::Arr(entries)
                    && result@[l]@.len() == entries@.len() && (forall|j: int|
                    0 <= j < entries@.len() ==> Some(result@[l]@[j]) == encoder_pair_spec(
                        #[trigger] entries@[j],
                        (j % 256) as u8,
                        g,
                    ))),
        decreases n - i,
    {
        let entries = match layers[i].as_array() {
            Some(v) => v,
            None => {
                return Err(
                    ProtocolError::GeneralError(
                        String::from_str("encoders should be encoded as array of arrays of arrays"),
                    ),
                );
            },
        };
        let m = entries.len();
        let mut layer_encoders: Vec<Encoder> = Vec::new();
        let mut j: usize = 0;
        while j < m
            invariant
                m == entries@.len(),
                j <= m,
                layer_encoders@.len() == j,
                g == generation_of_spec(vial_version),
                i < n,
                n == layers@.len(),
                !(encoders_json is Null),
                *encoders_json == JsonValue::Arr(*layers),
                layers@[i as int] == JsonValue::Arr(*entries),
                forall|k: int|
                    0 <= k < j ==> Some(layer_encoders@[k]) == encoder_pair_spec(
                        #[trigger] entries@[k],
                        (k % 256) as u8,
                        g,
                    ),
            decreases m - j,
        {
            let pair = match entries[j].as_array() {
                Some(v) => v,
                None => {
                    return Err(
                        ProtocolError::GeneralError(
                            String::from_str(
                                "encoder values should be and array with two elements",
                            ),
                        ),
                    );
                },
            };
            if pair.len() != 2 {
                return Err(
                    ProtocolError::GeneralError(
                        String::from_str("encoder values should be and array with two elements"),
                    ),
                );
            }
            let ccw_name = match pair[0].as_str() {
                Some(t) => t,
                None => {
                    return Err(
                        ProtocolError::GeneralError(
                            String::from_str("encoder value should be a string"),
                        ),
                    );
                },
            };
            let ccw = match keycodes::name_to_qid(ccw_name, vial_version) {
                Ok(k) => k,
                Err(e) => {
                    return Err(ProtocolError::GeneralError(e.0));
                },
            };
            let cw_name = match pair[1].as_str() {
                Some(t) => t,
                None => {
                    return Err(
                        ProtocolError::GeneralError(
                            String::from_str("encoder value should be a string"),
                        ),
                    );
                },
            };
            let cw = match keycodes::name_to_qid(cw_name, vial_version) {
                Ok(k) => k,
                Err(e) => {
                    return Err(ProtocolError::GeneralError(e.0));
                },
            };
            layer_encoders.push(Encoder { index: (j % 256) as u8, ccw, cw });
            j = j + 1;
        }
        result.push(layer_encoders);
        i = i + 1;
    }
    Ok(result)
}

/// What the rendered JSON of one encoder holds: the two keycode names.
pub open spec fn encoder_json_matches(jv: JsonValue, e: Encoder, g: Generation) -> bool {
    jv matches JsonValue::Arr(a) && a@.len() == 2 && (a@[0] matches JsonValue::Str(s1) && s1@
        == qid_name_spec(e.ccw, g)) && (a@[1] matches JsonValue::Str(s2) && s2@ == qid_name_spec(
        e.cw,
        g,
    ))
}

/// Renders the per-layer encoder layout as JSON.
pub fn encoders_to_json(layers_encoders: &Vec<Vec<Encoder>>, vial_version: u32) -> (r: Result<
    Vec<JsonValue>,
    ProtocolError,
>)
    ensures
        r is Ok,
        r.unwrap()@.len() == layers_encoders@.len(),
        forall|i: int|
            0 <= i < layers_encoders@.len() ==> (#[trigger] r.unwrap()@[i] matches JsonValue::Arr(
                layer,
            ) && layer@.len() == layers_encoders@[i]@.len() && (forall|j: int|
                0 <= j < layer@.len() ==> encoder_json_matches(
                    #[trigger] layer@[j],
                    layers_encoders@[i]@[j],
                    generation_of_spec(vial_version),
                ))),
{
    let n = layers_encoders.len();
    let mut result: Vec<JsonValue> = Vec::new();
    let mut i: usize = 0;
    while i < n
        invariant
            n == layers_encoders@.len(),
            i <= n,
            result@.len() == i,
            forall|k: int|
                0 <= k < i ==> (#[trigger] result@[k] matches JsonValue::Arr(layer) && layer@.len()
                    == layers_encoders@[k]@.len() && (forall|j: int|
                    0 <= j < layer@.len() ==> encoder_json_matches(
                        #[trigger] layer@[j],
                        layers_encoders@[k]@[j],
                        generation_of_spec(vial_version),
                    ))),
        decreases n - i,
    {
        let m = layers_encoders[i].len();
        let mut layer: Vec<JsonValue> = Vec::new();
        let mut j: usize = 0;
        while j < m
            invariant
                i < n,
                n == layers_encoders@.len(),
                m == layers_encoders@[i as int]@.len(),
                j <= m,
                layer@.len() == j,
                forall|k: int|
                    0 <= k < j ==> encoder_json_matches(
                        #[trigger] layer@[k],
                        layers_encoders@[i as int]@[k],
                        generation_of_spec(vial_version),
                    ),
            decreases m - j,
        {
            let e = &layers_encoders[i][j];
            let mut pair: Vec<JsonValue> = Vec::new();
            pair.push(JsonValue::Str(keycodes::qid_to_name(e.ccw, vial_version)));
            pair.push(JsonValue::Str(keycodes::qid_to_name(e.cw, vial_version)));
            layer.push(JsonValue::Arr(pair));
            j = j + 1;
        }
        result.push(JsonValue::Arr(layer));
        i = i + 1;
    }
    Ok(result)
}

} // verus!
