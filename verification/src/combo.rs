//! Combos: up to four trigger keys and one output, as a fixed wire record,
//! a `K1+K2=OUT` text form and a five-name JSON array.
use vstd::prelude::*;
use vstd::string::StrSliceExecFns;
use vstd::string::StringExecFns;
use crate::json::JsonValue;
use crate::keycodes;
use crate::keycodes::Generation;
use crate::keycodes::generation_of_spec;
use crate::keycodes::name_to_qid_spec;
use crate::keycodes::qid_name_spec;
use crate::protocol;
use crate::strutil::find_char;
use crate::strutil::find_char_spec;
use crate::strutil::lemma_find_char_spec;
use crate::strutil::split_char;
use crate::strutil::split_char_spec;
use crate::strutil::strings_view;

verus! {

/// Malformed combo text or JSON.
#[derive(Debug)]
pub struct ComboFormatError(pub String);

/// One combo slot: up to four trigger keycodes and the output keycode.
#[derive(Debug, Clone, Copy, PartialEq, Eq, Structural)]
pub struct Combo {
    pub index: u8,
    pub key1: u16,
    pub key2: u16,
    pub key3: u16,
    pub key4: u16,
    pub output: u16,
}

/// Resolution of a key-name list to the four trigger slots, missing slots
/// zero; more than four names resolve to nothing.
pub open spec fn combo_keys_spec(parts: Seq<Seq<char>>, g: Generation) -> Option<(u16, u16, u16, u16)> {
    if parts.len() > 4 {
        None
    } else {
        let k1 = if parts.len() > 0 { name_to_qid_spec(parts[0], g) } else { Some(0u16) };
        let k2 = if parts.len() > 1 { name_to_qid_spec(parts[1], g) } else { Some(0u16) };
        let k3 = if parts.len() > 2 { name_to_qid_spec(parts[2], g) } else { Some(0u16) };
        let k4 = if parts.len() > 3 { name_to_qid_spec(parts[3], g) } else { Some(0u16) };
        match (k1, k2, k3, k4) {
            (Some(a), Some(b), Some(c), Some(d)) => Some((a, b, c, d)),
            _ => None,
        }
    }
}

/// Resolution of `K1+K2+...=OUT` text to a combo's keycodes.
pub open spec fn combo_from_string_spec(s: Seq<char>, g: Generation) -> Option<(u16, u16, u16, u16, u16)> {
    match find_char_spec(s, '=') {
        None => None,
        Some(i) => if !(0 <= i < s.len()) {
            None
        } else {
            let out = name_to_qid_spec(s.subrange(i + 1, s.len() as int), g);
            let keys = combo_keys_spec(split_char_spec(s.subrange(0, i), '+'), g);
            match (out, keys) {
                (Some(o), Some((a, b, c, d))) => Some((a, b, c, d, o)),
                _ => None,
            }
        },
    }
}


/// Resolution of one JSON slot of a combo: every position is a key name;
/// a missing slot is zero.
pub open spec fn combo_slot_spec(items: Seq<JsonValue>, p: int, g: Generation) -> Option<u16> {
    if p >= items.len() {
        Some(0u16)
    } else {
        match items[p] {
            JsonValue::Str(t) => name_to_qid_spec(t@, g),
            _ => None,
        }
    }
}

/// Resolution of a whole JSON combo: an array of at most five key names,
/// four triggers and the output.
pub open spec fn combo_from_json_spec(index: u8, v: JsonValue, g: Generation) -> Option<Combo> {
    match v {
        JsonValue::Arr(items) => if items@.len() > 5 {
            None
        } else {
            match (
                combo_slot_spec(items@, 0, g),
                combo_slot_spec(items@, 1, g),
                combo_slot_spec(items@, 2, g),
                combo_slot_spec(items@, 3, g),
                combo_slot_spec(items@, 4, g),
            ) {
                (Some(a), Some(b), Some(c), Some(d), Some(o)) => Some(
                    Combo { index, key1: a, key2: b, key3: c, key4: d, output: o },
                ),
                _ => None,
            }
        },
        _ => None,
    }
}

impl Combo {
    /// Parses `K1+K2+...=OUT` text into an indexed combo.
    pub fn from_string(index: u8, value: &str, vial_version: u32) -> (r: Result<Combo, ComboFormatError>)
        ensures
            value.is_ascii() ==> {
                let spec_r = combo_from_string_spec(value@, generation_of_spec(vial_version));
                &&& r is Ok <==> spec_r is Some
                &&& r is Ok ==> {
                    let (a, b, c, d, o) = spec_r.unwrap();
                    r.unwrap() == (Combo {
                        index,
                        key1: a,
                        key2: b,
                        key3: c,
                        key4: d,
                        output: o,
                    })
                }
            },
    {
        if !value.is_ascii() {
            return Err(ComboFormatError(String::from_str("combo text is not ascii")));
        }
        proof {
            lemma_find_char_spec(value@, '=');
        }
        let n = value.unicode_len();
        match find_char(value, '=') {
            None => Err(
                ComboFormatError(
                    String::from_str("resulting action should be declared after ="),
                ),
            ),
            Some(i) => {
                let out_str = value.substring_ascii(i + 1, n);
                let keys_str = value.substring_ascii(0, i);
                let out = match keycodes::name_to_qid(out_str, vial_version) {
                    Ok(o) => o,
                    Err(e) => {
                        return Err(ComboFormatError(e.0));
                    },
                };
                let parts = split_char(keys_str, '+');
                if parts.len() > 4 {
                    return Err(
                        ComboFormatError(String::from_str("combo takes at most 4 trigger keys")),
                    );
                }
                let mut ks: [u16; 4] = [0u16, 0u16, 0u16, 0u16];
                let m = parts.len();
                let ghost pv = strings_view(parts@);
                let mut j: usize = 0;
                while j < m
                    invariant
                        m == parts@.len() <= 4,
                        j <= m,
                        pv == strings_view(parts@),
                        value.is_ascii(),
                        n == value@.len(),
                        0 <= i < n,
                        find_char_spec(value@, '=') == Some(i as int),
                        pv == split_char_spec(value@.subrange(0, i as int), '+'),
                        name_to_qid_spec(value@.subrange(i + 1, value@.len() as int), generation_of_spec(vial_version)) == Some(out),
                        forall|k: int| 0 <= k < m ==> vstd::utf8::is_ascii_chars(#[trigger] pv[k]),
                        forall|k: int|
                            0 <= k < j ==> name_to_qid_spec(
                                pv[k],
                                generation_of_spec(vial_version),
                            ) == Some(ks@[k]),
                        forall|k: int| j <= k < 4 ==> ks@[k] == 0u16,
                    decreases m - j,
                {
                    match keycodes::name_to_qid(parts[j].as_str(), vial_version) {
                        Ok(k) => {
                            ks[j] = k;
                        },
                        Err(e) => {
                            return Err(ComboFormatError(e.0));
                        },
                    }
                    j = j + 1;
                }
                Ok(Combo {
                    index,
                    key1: ks[0],
                    key2: ks[1],
                    key3: ks[2],
                    key4: ks[3],
                    output: out,
                })
            },
        }
    }

    /// The all-zero combo at an index.
    pub fn empty(index: u8) -> (r: Combo)
        ensures
            r == (Combo { index, key1: 0u16, key2: 0u16, key3: 0u16, key4: 0u16, output: 0u16 }),
    {
        Combo { index, key1: 0, key2: 0, key3: 0, key4: 0, output: 0 }
    }

    /// A combo is empty when it has no first trigger or no output.
    pub fn is_empty(&self) -> (r: bool)
        ensures
            r == (self.output == 0 || self.key1 == 0),
    {
        self.output == 0 || self.key1 == 0
    }

    /// Reads a combo from a dynamic-entry response: five low-byte-first
    /// 16-bit fields starting at byte 1.
    pub fn from_wire(index: u8, buff: &[u8]) -> (r: Combo)
        requires
            buff@.len() >= 11,
        ensures
            r.index == index,
            r.key1 == (buff@[1] as u16) | ((buff@[2] as u16) << 8),
            r.key2 == (buff@[3] as u16) | ((buff@[4] as u16) << 8),
            r.key3 == (buff@[5] as u16) | ((buff@[6] as u16) << 8),
            r.key4 == (buff@[7] as u16) | ((buff@[8] as u16) << 8),
            r.output == (buff@[9] as u16) | ((buff@[10] as u16) << 8),
    {
        Combo {
            index,
            key1: (buff[1] as u16) | ((buff[2] as u16) << 8),
            key2: (buff[3] as u16) | ((buff[4] as u16) << 8),
            key3: (buff[5] as u16) | ((buff[6] as u16) << 8),
            key4: (buff[7] as u16) | ((buff[8] as u16) << 8),
            output: (buff[9] as u16) | ((buff[10] as u16) << 8),
        }
    }

    /// The request that fetches the combo at an index.
    pub fn get_request(index: u8) -> (r: Vec<u8>)
        ensures
            r@ =~= seq![
                protocol::CMD_VIA_VIAL_PREFIX,
                protocol::CMD_VIAL_DYNAMIC_ENTRY_OP,
                protocol::DYNAMIC_VIAL_COMBO_GET,
                index,
            ],
    {
        let mut v: Vec<u8> = Vec::new();
        v.push(protocol::CMD_VIA_VIAL_PREFIX);
        v.push(protocol::CMD_VIAL_DYNAMIC_ENTRY_OP);
        v.push(protocol::DYNAMIC_VIAL_COMBO_GET);
        v.push(index);
        v
    }

    /// The request that writes this combo to the device, fields low byte
    /// first.
    pub fn set_request(&self) -> (r: Vec<u8>)
        ensures
            r@ =~= seq![
                protocol::CMD_VIA_VIAL_PREFIX,
                protocol::CMD_VIAL_DYNAMIC_ENTRY_OP,
                protocol::DYNAMIC_VIAL_COMBO_SET,
                self.index,
                (self.key1 & 0xFF) as u8,
                ((self.key1 >> 8) & 0xFF) as u8,
                (self.key2 & 0xFF) as u8,
                ((self.key2 >> 8) & 0xFF) as u8,
                (self.key3 & 0xFF) as u8,
                ((self.key3 >> 8) & 0xFF) as u8,
                (self.key4 & 0xFF) as u8,
                ((self.key4 >> 8) & 0xFF) as u8,
                (self.output & 0xFF) as u8,
                ((self.output >> 8) & 0xFF) as u8,
            ],
    {
        let mut v: Vec<u8> = Vec::new();
        v.push(protocol::CMD_VIA_VIAL_PREFIX);
        v.push(protocol::CMD_VIAL_DYNAMIC_ENTRY_OP);
        v.push(protocol::DYNAMIC_VIAL_COMBO_SET);
        v.push(self.index);
        v.push((self.key1 & 0xFF) as u8);
        v.push(((self.key1 >> 8) & 0xFF) as u8);
        v.push((self.key2 & 0xFF) as u8);
        v.push(((self.key2 >> 8) & 0xFF) as u8);
        v.push((self.key3 & 0xFF) as u8);
        v.push(((self.key3 >> 8) & 0xFF) as u8);
        v.push((self.key4 & 0xFF) as u8);
        v.push(((self.key4 >> 8) & 0xFF) as u8);
        v.push((self.output & 0xFF) as u8);
        v.push(((self.output >> 8) & 0xFF) as u8);
        v
    }

    /// Parses one combo from a JSON array of up to five key names: four
    /// triggers and the output.
    pub fn from_json(index: u8, combo_json: &JsonValue, vial_version: u32) -> (r: Result<
        Combo,
        ComboFormatError,
    >)
        ensures
            r is Ok <==> combo_from_json_spec(
                index,
                *combo_json,
                generation_of_spec(vial_version),
            ) is Some,
            r is Ok ==> combo_from_json_spec(index, *combo_json, generation_of_spec(vial_version))
                == Some(r.unwrap()),
    {
        let ghost g = generation_of_spec(vial_version);
        let values = match combo_json.as_array() {
            Some(v) => v,
            None => {
                return Err(
                    ComboFormatError(String::from_str("Combo should be encoded into array")),
                );
            },
        };
        if values.len() > 5 {
            return Err(
                ComboFormatError(
                    String::from_str("combo array should be strictly 5 elements long"),
                ),
            );
        }
        let mut ks: [u16; 5] = [0u16, 0u16, 0u16, 0u16, 0u16];
        let m = values.len();
        let mut j: usize = 0;
        while j < m
            invariant
                m == values@.len() <= 5,
                j <= m,
                g == generation_of_spec(vial_version),
                *combo_json == JsonValue::Arr(*values),
                forall|k: int| 0 <= k < j ==> combo_slot_spec(values@, k, g) == Some(ks@[k]),
                forall|k: int| j <= k < 5 ==> ks@[k] == 0u16,
            decreases m - j,
        {
            let name = match values[j].as_str() {
                Some(t) => t,
                None => {
                    return Err(
                        ComboFormatError(String::from_str("Combo elements should be strings")),
                    );
                },
            };
            match keycodes::name_to_qid(name, vial_version) {
                Ok(k) => {
                    ks[j] = k;
                },
                Err(e) => {
                    return Err(ComboFormatError(e.0));
                },
            }
            j = j + 1;
        }
        Ok(Combo { index, key1: ks[0], key2: ks[1], key3: ks[2], key4: ks[3], output: ks[4] })
    }
}

/// What the rendered JSON of one combo holds: the five keycode names in
/// slot order.
pub open spec fn combo_json_matches(jv: JsonValue, c: Combo, g: Generation) -> bool {
    jv matches JsonValue::Arr(a) && a@.len() == 5 && (a@[0] matches JsonValue::Str(s1) && s1@
        == qid_name_spec(c.key1, g)) && (a@[1] matches JsonValue::Str(s2) && s2@ == qid_name_spec(
        c.key2,
        g,
    )) && (a@[2] matches JsonValue::Str(s3) && s3@ == qid_name_spec(c.key3, g)) && (a@[3] matches
        JsonValue::Str(s4) && s4@ == qid_name_spec(c.key4, g)) && (a@[4] matches JsonValue::Str(s5)
        && s5@ == qid_name_spec(c.output, g))
}

/// Renders a combo list as JSON, five keycode names per combo.
pub fn combos_to_json(combos: &Vec<Combo>, vial_version: u32) -> (r: Result<Vec<JsonValue>, ComboFormatError>)
    ensures
        r is Ok,
        r.unwrap()@.len() == combos@.len(),
        forall|i: int|
            0 <= i < combos@.len() ==> combo_json_matches(
                #[trigger] r.unwrap()@[i],
                combos@[i],
                generation_of_spec(vial_version),
            ),
{
    let n = combos.len();
    let mut result: Vec<JsonValue> = Vec::new();
    let mut i: usize = 0;
    while i < n
        invariant
            n == combos@.len(),
            i <= n,
            result@.len() == i,
            forall|k: int|
                0 <= k < i ==> combo_json_matches(
                    #[trigger] result@[k],
                    combos@[k],
                    generation_of_spec(vial_version),
                ),
        decreases n - i,
    {
        let c = &combos[i];
        let mut a: Vec<JsonValue> = Vec::new();
        a.push(JsonValue::Str(keycodes::qid_to_name(c.key1, vial_version)));
        a.push(JsonValue::Str(keycodes::qid_to_name(c.key2, vial_version)));
        a.push(JsonValue::Str(keycodes::qid_to_name(c.key3, vial_version)));
        a.push(JsonValue::Str(keycodes::qid_to_name(c.key4, vial_version)));
        a.push(JsonValue::Str(keycodes::qid_to_name(c.output, vial_version)));
        result.push(JsonValue::Arr(a));
        i = i + 1;
    }
    Ok(result)
}

/// Parses a JSON array of combos, one per element, indexed in order.
pub fn load_combos_from_json(combos_json: &JsonValue, vial_version: u32) -> (r: Result<
    Vec<Combo>,
    ComboFormatError,
>)
    ensures
        r is Ok <==> (combos_json matches JsonValue::Arr(items) && (forall|i: int|
            0 <= i < items@.len() ==> combo_from_json_spec(
                (i % 256) as u8,
                #[trigger] items@[i],
                generation_of_spec(vial_version),
            ) is Some)),
        r is Ok ==> (combos_json matches JsonValue::Arr(items) && r.unwrap()@.len() == items@.len() && (
        forall|i: int|
            0 <= i < items@.len() ==> Some(r.unwrap()@[i]) == combo_from_json_spec(
                (i % 256) as u8,
                #[trigger] items@[i],
                generation_of_spec(vial_version),
            ))),
{
    let ghost g = generation_of_spec(vial_version);
    let items = match combos_json.as_array() {
        Some(v) => v,
        None => {
            return Err(
                ComboFormatError(String::from_str("Combos should be encoded as array of arrays")),
            );
        },
    };
    let n = items.len();
    let mut result: Vec<Combo> = Vec::new();
    let mut i: usize = 0;
    while i < n
        invariant
            n == items@.len(),
            i <= n,
            result@.len() == i,
            g == generation_of_spec(vial_version),
            *combos_json == JsonValue::Arr(*items),
            forall|k: int|
                0 <= k < i ==> Some(result@[k]) == combo_from_json_spec(
                    (k % 256) as u8,
                    #[trigger] items@[k],
                    g,
                ),
        decreases n - i,
    {
        match Combo::from_json((i % 256) as u8, &items[i], vial_version) {
            Ok(v) => {
                result.push(v);
            },
            Err(e) => {
                proof {
                    assert(combo_from_json_spec((i as int % 256) as u8, items@[i as int], g) is None);
                }
                return Err(e);
            },
        }
        i = i + 1;
    }
    Ok(result)
}


/// The JSON round trip preserves every wire-relevant field of a combo:
/// rendering one to JSON and reading the JSON back gives the same record,
/// whenever each keycode's printed name resolves back to it. The table
/// law and the simple-form law discharge that side condition for every
/// table id and every simple layer-switch or tap-dance id.
pub proof fn lemma_combo_json_round_trip(c: Combo, jv: JsonValue, g: Generation)
    requires
        combo_json_matches(jv, c, g),
        name_to_qid_spec(qid_name_spec(c.key1, g), g) == Some(c.key1),
        name_to_qid_spec(qid_name_spec(c.key2, g), g) == Some(c.key2),
        name_to_qid_spec(qid_name_spec(c.key3, g), g) == Some(c.key3),
        name_to_qid_spec(qid_name_spec(c.key4, g), g) == Some(c.key4),
        name_to_qid_spec(qid_name_spec(c.output, g), g) == Some(c.output),
    ensures
        combo_from_json_spec(c.index, jv, g) == Some(c),
{
    let items = jv->Arr_0;
    assert(combo_slot_spec(items@, 0, g) == Some(c.key1));
    assert(combo_slot_spec(items@, 1, g) == Some(c.key2));
    assert(combo_slot_spec(items@, 2, g) == Some(c.key3));
    assert(combo_slot_spec(items@, 3, g) == Some(c.key4));
    assert(combo_slot_spec(items@, 4, g) == Some(c.output));
}

} // verus!
