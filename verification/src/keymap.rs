//! The keymap: a layers-by-rows-by-cols grid of keycode ids, transferred
//! as a flat big-endian two-bytes-per-cell buffer in bounded chunks, plus
//! a character grid for rendering it.
use vstd::prelude::*;
use vstd::string::StrSliceExecFns;
use vstd::string::StringExecFns;
use crate::json::JsonValue;
use crate::keycodes;
use crate::protocol;
use crate::strutil::parse_hex_u16;
use crate::strutil::remove_spaces;

verus! {

/// A keymap request that cannot be served: an index out of range or
/// malformed JSON.
#[derive(Debug)]
pub struct KeymapError(pub String);

/// The full keymap of a device, two big-endian bytes per cell, layer by
/// layer, row by row.
#[derive(Debug)]
pub struct Keymap {
    pub rows: u8,
    pub cols: u8,
    pub layers: u8,
    pub keys: Vec<u8>,
}

/// The byte offset of a cell in the flat buffer.
pub open spec fn cell_offset(rows: u8, cols: u8, layer: u8, row: u8, col: u8) -> int {
    layer as int * rows as int * cols as int * 2 + row as int * cols as int * 2 + col as int * 2
}

/// A keymap whose buffer holds exactly its grid.
pub open spec fn keymap_wf(m: Keymap) -> bool {
    m.keys@.len() == m.layers as int * m.rows as int * m.cols as int * 2
}

/// The keycode id stored at a cell.
pub open spec fn cell_id(m: Keymap, layer: u8, row: u8, col: u8) -> u16 {
    (((m.keys@[cell_offset(m.rows, m.cols, layer, row, col)] as u16) << 8) | (m.keys@[cell_offset(
        m.rows,
        m.cols,
        layer,
        row,
        col,
    ) + 1] as u16)) as u16
}

impl Keymap {
    /// The full name of the key at a cell.
    pub fn get_long(&self, layer: u8, row: u8, col: u8, vial_version: u32) -> (r: Result<
        String,
        KeymapError,
    >)
        requires
            keymap_wf(*self),
        ensures
            r is Ok <==> (layer < self.layers && row < self.rows && col < self.cols),
            r is Ok ==> r.unwrap()@ == keycodes::qid_name_spec(
                cell_id(*self, layer, row, col),
                keycodes::generation_of_spec(vial_version),
            ),
    {
        if layer >= self.layers {
            return Err(KeymapError(String::from_str("non existing layer requested")));
        }
        if row >= self.rows {
            return Err(KeymapError(String::from_str("non existing row requested")));
        }
        if col >= self.cols {
            return Err(KeymapError(String::from_str("non existing col requested")));
        }
        proof {
            lemma_cell_offset_in_range(self.rows, self.cols, self.layers, layer, row, col);
            assert((layer as int) * (self.rows as int) * (self.cols as int) * 2 + (row as int) * (
            self.cols as int) * 2 + (col as int) * 2 < 0x8000000int) by (nonlinear_arith)
                requires
                    (layer as int) < 256,
                    (row as int) < 256,
                    (col as int) < 256,
                    (self.rows as int) < 256,
                    (self.cols as int) < 256,
                    0 <= layer as int,
                    0 <= row as int,
                    0 <= col as int,
                    0 <= self.rows as int,
                    0 <= self.cols as int,
            ;
            assert(0 <= (layer as int) * (self.rows as int) * (self.cols as int) * 2)
                by (nonlinear_arith)
                requires
                    0 <= layer as int,
                    0 <= self.rows as int,
                    0 <= self.cols as int,
            ;
            assert(0 <= (row as int) * (self.cols as int) * 2) by (nonlinear_arith)
                requires
                    0 <= row as int,
                    0 <= self.cols as int,
            ;
            assert((layer as int) * (self.rows as int) <= 65025 && (layer as int) * (
            self.rows as int) * (self.cols as int) <= 16581375 && (row as int) * (
            self.cols as int) <= 65025 && 0 <= (layer as int) * (self.rows as int) && 0 <= (
            layer as int) * (self.rows as int) * (self.cols as int) && 0 <= (row as int) * (
            self.cols as int)) by (nonlinear_arith)
                requires
                    (layer as int) < 256,
                    (row as int) < 256,
                    (self.rows as int) < 256,
                    (self.cols as int) < 256,
                    0 <= layer as int,
                    0 <= row as int,
                    0 <= self.rows as int,
                    0 <= self.cols as int,
            ;
        }
        let offset: usize = (layer as usize) * (self.rows as usize) * (self.cols as usize) * 2 + (
        row as usize) * (self.cols as usize) * 2 + (col as usize) * 2;
        let v1 = self.keys[offset];
        let v2 = self.keys[offset + 1];
        let kk: u16 = ((v1 as u16) << 8) | (v2 as u16);
        Ok(keycodes::qid_to_name(kk, vial_version))
    }

    /// The compact display name of the key at a cell.
    pub fn get_short(&self, layer: u8, row: u8, col: u8, vial_version: u32) -> (r: Result<
        String,
        KeymapError,
    >)
        requires
            keymap_wf(*self),
        ensures
            r is Ok <==> (layer < self.layers && row < self.rows && col < self.cols),
            r is Ok ==> r.unwrap()@ == keycodes::qid_short_spec(
                cell_id(*self, layer, row, col),
                keycodes::generation_of_spec(vial_version),
            ),
    {
        if layer >= self.layers {
            return Err(KeymapError(String::from_str("non existing layer requested")));
        }
        if row >= self.rows {
            return Err(KeymapError(String::from_str("non existing row requested")));
        }
        if col >= self.cols {
            return Err(KeymapError(String::from_str("non existing col requested")));
        }
        proof {
            lemma_cell_offset_in_range(self.rows, self.cols, self.layers, layer, row, col);
            assert((layer as int) * (self.rows as int) * (self.cols as int) * 2 + (row as int) * (
            self.cols as int) * 2 + (col as int) * 2 < 0x8000000int) by (nonlinear_arith)
                requires
                    (layer as int) < 256,
                    (row as int) < 256,
                    (col as int) < 256,
                    (self.rows as int) < 256,
                    (self.cols as int) < 256,
                    0 <= layer as int,
                    0 <= row as int,
                    0 <= col as int,
                    0 <= self.rows as int,
                    0 <= self.cols as int,
            ;
            assert(0 <= (layer as int) * (self.rows as int) * (self.cols as int) * 2)
                by (nonlinear_arith)
                requires
                    0 <= layer as int,
                    0 <= self.rows as int,
                    0 <= self.cols as int,
            ;
            assert(0 <= (row as int) * (self.cols as int) * 2) by (nonlinear_arith)
                requires
                    0 <= row as int,
                    0 <= self.cols as int,
            ;
            assert((layer as int) * (self.rows as int) <= 65025 && (layer as int) * (
            self.rows as int) * (self.cols as int) <= 16581375 && (row as int) * (
            self.cols as int) <= 65025 && 0 <= (layer as int) * (self.rows as int) && 0 <= (
            layer as int) * (self.rows as int) * (self.cols as int) && 0 <= (row as int) * (
            self.cols as int)) by (nonlinear_arith)
                requires
                    (layer as int) < 256,
                    (row as int) < 256,
                    (self.rows as int) < 256,
                    (self.cols as int) < 256,
                    0 <= layer as int,
                    0 <= row as int,
                    0 <= self.rows as int,
                    0 <= self.cols as int,
            ;
        }
        let offset: usize = (layer as usize) * (self.rows as usize) * (self.cols as usize) * 2 + (
        row as usize) * (self.cols as usize) * 2 + (col as usize) * 2;
        let v1 = self.keys[offset];
        let v2 = self.keys[offset + 1];
        let kk: u16 = ((v1 as u16) << 8) | (v2 as u16);
        Ok(keycodes::qid_to_short(kk, vial_version))
    }

    /// Builds a keymap from JSON layers: each layer an array of rows, each
    /// row an array of keycodes given as names, hex literals, or numbers,
    /// a bare number standing for no key.
    pub fn from_json(
        rows: u8,
        cols: u8,
        layers: u8,
        layers_data: &JsonValue,
        vial_version: u32,
    ) -> (r: Result<Keymap, KeymapError>)
        ensures
            r is Ok <==> (layers_data matches JsonValue::Arr(items) && layers_bytes_spec(
                items@,
                0,
                keycodes::generation_of_spec(vial_version),
            ) is Some),
            r is Ok ==> (layers_data matches JsonValue::Arr(items) && r.unwrap().rows == rows
                && r.unwrap().cols == cols && r.unwrap().layers == layers && r.unwrap().keys@
                == layers_bytes_spec(
                items@,
                0,
                keycodes::generation_of_spec(vial_version),
            ).unwrap()),
    {
        let layer_list = match layers_data.as_array() {
            Some(v) => v,
            None => {
                return Err(KeymapError(String::from_str("layout should be an array")));
            },
        };
        let keys = layers_to_bytes(layer_list, 0, vial_version)?;
        Ok(Keymap { rows, cols, layers, keys })
    }
}

/// Whether one rendered cell is the named key of the grid cell.
pub open spec fn cell_json_ok(
    v: JsonValue,
    m: Keymap,
    l: int,
    w: int,
    c: int,
    g: keycodes::Generation,
) -> bool {
    v matches JsonValue::Str(t) && t@ == keycodes::qid_name_spec(
        cell_id(m, l as u8, w as u8, c as u8),
        g,
    )
}

/// Whether one rendered row holds every column's named key.
pub open spec fn row_json_ok(v: JsonValue, m: Keymap, l: int, w: int, g: keycodes::Generation) -> bool {
    v matches JsonValue::Arr(cs) && cs@.len() == m.cols as int && (forall|c: int|
        0 <= c < cs@.len() ==> cell_json_ok(#[trigger] cs@[c], m, l, w, c, g))
}

/// Whether one rendered layer holds every row.
pub open spec fn layer_json_ok(v: JsonValue, m: Keymap, l: int, g: keycodes::Generation) -> bool {
    v matches JsonValue::Arr(rw) && rw@.len() == m.rows as int && (forall|w: int|
        0 <= w < rw@.len() ==> row_json_ok(#[trigger] rw@[w], m, l, w, g))
}

impl Keymap {
    /// Renders the keymap as JSON: one array of rows per layer, each cell
    /// the full name of its key in the given generation.
    pub fn to_json(&self, vial_version: u32) -> (r: Result<JsonValue, KeymapError>)
        requires
            keymap_wf(*self),
        ensures
            r is Ok,
            r.unwrap() matches JsonValue::Arr(ls) && ls@.len() == self.layers as int && (forall|
                l: int,
            |
                0 <= l < ls@.len() ==> layer_json_ok(
                    #[trigger] ls@[l],
                    *self,
                    l,
                    keycodes::generation_of_spec(vial_version),
                )),
    {
        let ghost g = keycodes::generation_of_spec(vial_version);
        let mut layers_json: Vec<JsonValue> = Vec::new();
        let mut l: u8 = 0;
        while l < self.layers
            invariant
                keymap_wf(*self),
                l <= self.layers,
                layers_json@.len() == l as int,
                g == keycodes::generation_of_spec(vial_version),
                forall|a: int|
                    0 <= a < l as int ==> layer_json_ok(#[trigger] layers_json@[a], *self, a, g),
            decreases self.layers - l,
        {
            let mut rows_json: Vec<JsonValue> = Vec::new();
            let mut w: u8 = 0;
            while w < self.rows
                invariant
                    keymap_wf(*self),
                    l < self.layers,
                    w <= self.rows,
                    rows_json@.len() == w as int,
                    g == keycodes::generation_of_spec(vial_version),
                    forall|b: int|
                        0 <= b < w as int ==> row_json_ok(
                            #[trigger] rows_json@[b],
                            *self,
                            l as int,
                            b,
                            g,
                        ),
                decreases self.rows - w,
            {
                let mut cells: Vec<JsonValue> = Vec::new();
                let mut c: u8 = 0;
                while c < self.cols
                    invariant
                        keymap_wf(*self),
                        l < self.layers,
                        w < self.rows,
                        c <= self.cols,
                        cells@.len() == c as int,
                        g == keycodes::generation_of_spec(vial_version),
                        forall|d: int|
                            0 <= d < c as int ==> cell_json_ok(
                                #[trigger] cells@[d],
                                *self,
                                l as int,
                                w as int,
                                d,
                                g,
                            ),
                    decreases self.cols - c,
                {
                    let name = match self.get_long(l, w, c, vial_version) {
                        Ok(n) => n,
                        Err(e) => {
                            return Err(e);
                        },
                    };
                    cells.push(JsonValue::Str(name));
                    c = c + 1;
                }
                rows_json.push(JsonValue::Arr(cells));
                w = w + 1;
            }
            layers_json.push(JsonValue::Arr(rows_json));
            l = l + 1;
        }
        Ok(JsonValue::Arr(layers_json))
    }
}

/// The keycode one JSON cell stands for: a bare number is no key, a
/// string is a spaces-ignored hex literal or a key name.
pub open spec fn keycell_spec(v: JsonValue, g: keycodes::Generation) -> Option<u16> {
    match v {
        JsonValue::UInt(_) => Some(0u16),
        JsonValue::OtherNum => Some(0u16),
        JsonValue::Str(s) => if !vstd::utf8::is_ascii_chars(s@) {
            None
        } else {
            let cleaned = crate::strutil::strip_spaces_spec(s@);
            if cleaned.len() >= 2 && cleaned[0] == '0' && cleaned[1] == 'x' {
                crate::strutil::parse_hex_u16_spec(cleaned.subrange(2, cleaned.len() as int))
            } else {
                keycodes::name_to_qid_spec(s@, g)
            }
        },
        _ => None,
    }
}

/// The big-endian bytes of one row's cells from position `i` on.
pub open spec fn row_bytes_spec(cells: Seq<JsonValue>, i: int, g: keycodes::Generation) -> Option<
    Seq<u8>,
>
    decreases cells.len() - i,
{
    if i < 0 || i > cells.len() {
        None
    } else if i == cells.len() {
        Some(Seq::empty())
    } else {
        match (keycell_spec(cells[i], g), row_bytes_spec(cells, i + 1, g)) {
            (Some(k), Some(rest)) => Some(seq![(k >> 8) as u8, (k & 0xFF) as u8] + rest),
            _ => None,
        }
    }
}

/// The bytes of one layer's rows from position `i` on; each row must be
/// an array of cells.
pub open spec fn layer_bytes_spec(rows: Seq<JsonValue>, i: int, g: keycodes::Generation) -> Option<
    Seq<u8>,
>
    decreases rows.len() - i,
{
    if i < 0 || i > rows.len() {
        None
    } else if i == rows.len() {
        Some(Seq::empty())
    } else {
        match rows[i] {
            JsonValue::Arr(cells) => match (
                row_bytes_spec(cells@, 0, g),
                layer_bytes_spec(rows, i + 1, g),
            ) {
                (Some(head), Some(rest)) => Some(head + rest),
                _ => None,
            },
            _ => None,
        }
    }
}

/// The whole flat buffer of the layers from position `i` on; each layer
/// must be an array of rows.
pub open spec fn layers_bytes_spec(
    layers: Seq<JsonValue>,
    i: int,
    g: keycodes::Generation,
) -> Option<Seq<u8>>
    decreases layers.len() - i,
{
    if i < 0 || i > layers.len() {
        None
    } else if i == layers.len() {
        Some(Seq::empty())
    } else {
        match layers[i] {
            JsonValue::Arr(rows) => match (
                layer_bytes_spec(rows@, 0, g),
                layers_bytes_spec(layers, i + 1, g),
            ) {
                (Some(head), Some(rest)) => Some(head + rest),
                _ => None,
            },
            _ => None,
        }
    }
}

fn keycell_exec(v: &JsonValue, vial_version: u32) -> (r: Result<u16, KeymapError>)
    ensures
        r is Ok <==> keycell_spec(*v, keycodes::generation_of_spec(vial_version)) is Some,
        r is Ok ==> keycell_spec(*v, keycodes::generation_of_spec(vial_version)) == Some(
            r.unwrap(),
        ),
{
    match v {
        JsonValue::UInt(_) => Ok(0u16),
        JsonValue::OtherNum => Ok(0u16),
        JsonValue::Str(value) => {
            if !value.as_str().is_ascii() {
                return Err(KeymapError(String::from_str("can't parse keycode name")));
            }
            let cleaned = remove_spaces(value.as_str());
            let cs = cleaned.as_str();
            let starts_hex = cs.unicode_len() >= 2 && cs.get_ascii(0) == 48 && cs.get_ascii(1)
                == 120;
            proof {
                if cleaned@.len() >= 2 {
                    vstd::utf8::char_u32_cast(cleaned@[0], cleaned@[0] as u32);
                    vstd::utf8::char_u32_cast(cleaned@[1], cleaned@[1] as u32);
                }
            }
            if starts_hex {
                let ln = cs.unicode_len();
                let hex = cs.substring_ascii(2, ln);
                match parse_hex_u16(hex) {
                    Some(k) => Ok(k),
                    None => Err(KeymapError(String::from_str("Incorrect hex encoding"))),
                }
            } else {
                match keycodes::name_to_qid(value.as_str(), vial_version) {
                    Ok(k) => Ok(k),
                    Err(e) => Err(KeymapError(e.0)),
                }
            }
        },
        _ => Err(KeymapError(String::from_str("keycode should be number or string"))),
    }
}

fn cells_to_bytes(cells: &Vec<JsonValue>, i: usize, vial_version: u32) -> (r: Result<
    Vec<u8>,
    KeymapError,
>)
    requires
        i <= cells@.len(),
    ensures
        r is Ok <==> row_bytes_spec(cells@, i as int, keycodes::generation_of_spec(vial_version))
            is Some,
        r is Ok ==> Some(r.unwrap()@) == row_bytes_spec(
            cells@,
            i as int,
            keycodes::generation_of_spec(vial_version),
        ),
    decreases cells@.len() - i,
{
    if i == cells.len() {
        let out: Vec<u8> = Vec::new();
        assert(out@ =~= Seq::<u8>::empty());
        return Ok(out);
    }
    let k = keycell_exec(&cells[i], vial_version)?;
    let mut out = cells_to_bytes(cells, i + 1, vial_version)?;
    let ghost rest = out@;
    out.insert(0, (k & 0xFF) as u8);
    out.insert(0, (k >> 8) as u8);
    assert(out@ =~= seq![(k >> 8) as u8, (k & 0xFF) as u8] + rest);
    Ok(out)
}

fn rows_to_bytes(rows: &Vec<JsonValue>, i: usize, vial_version: u32) -> (r: Result<
    Vec<u8>,
    KeymapError,
>)
    requires
        i <= rows@.len(),
    ensures
        r is Ok <==> layer_bytes_spec(rows@, i as int, keycodes::generation_of_spec(vial_version))
            is Some,
        r is Ok ==> Some(r.unwrap()@) == layer_bytes_spec(
            rows@,
            i as int,
            keycodes::generation_of_spec(vial_version),
        ),
    decreases rows@.len() - i,
{
    if i == rows.len() {
        let out: Vec<u8> = Vec::new();
        assert(out@ =~= Seq::<u8>::empty());
        return Ok(out);
    }
    let cells = match rows[i].as_array() {
        Some(v) => v,
        None => {
            return Err(KeymapError(String::from_str("row content should be array of keycodes")));
        },
    };
    let mut out = cells_to_bytes(cells, 0, vial_version)?;
    let ghost head = out@;
    let rest = rows_to_bytes(rows, i + 1, vial_version)?;
    let m = rest.len();
    let mut j: usize = 0;
    while j < m
        invariant
            m == rest@.len(),
            j <= m,
            out@ == head + rest@.subrange(0, j as int),
        decreases m - j,
    {
        out.push(rest[j]);
        assert(out@ =~= head + rest@.subrange(0, j + 1 as int));
        j = j + 1;
    }
    assert(rest@.subrange(0, m as int) =~= rest@);
    Ok(out)
}

fn layers_to_bytes(layers: &Vec<JsonValue>, i: usize, vial_version: u32) -> (r: Result<
    Vec<u8>,
    KeymapError,
>)
    requires
        i <= layers@.len(),
    ensures
        r is Ok <==> layers_bytes_spec(
            layers@,
            i as int,
            keycodes::generation_of_spec(vial_version),
        ) is Some,
        r is Ok ==> Some(r.unwrap()@) == layers_bytes_spec(
            layers@,
            i as int,
            keycodes::generation_of_spec(vial_version),
        ),
    decreases layers@.len() - i,
{
    if i == layers.len() {
        let out: Vec<u8> = Vec::new();
        assert(out@ =~= Seq::<u8>::empty());
        return Ok(out);
    }
    let rows = match layers[i].as_array() {
        Some(v) => v,
        None => {
            return Err(KeymapError(String::from_str("layer content should be array of rows")));
        },
    };
    let mut out = rows_to_bytes(rows, 0, vial_version)?;
    let ghost head = out@;
    let rest = layers_to_bytes(layers, i + 1, vial_version)?;
    let m = rest.len();
    let mut j: usize = 0;
    while j < m
        invariant
            m == rest@.len(),
            j <= m,
            out@ == head + rest@.subrange(0, j as int),
        decreases m - j,
    {
        out.push(rest[j]);
        assert(out@ =~= head + rest@.subrange(0, j + 1 as int));
        j = j + 1;
    }
    assert(rest@.subrange(0, m as int) =~= rest@);
    Ok(out)
}

proof fn lemma_cell_offset_in_range(rows: u8, cols: u8, layers: u8, layer: u8, row: u8, col: u8)
    requires
        layer < layers,
        row < rows,
        col < cols,
    ensures
        0 <= cell_offset(rows, cols, layer, row, col),
        cell_offset(rows, cols, layer, row, col) + 2 <= layers as int * rows as int * cols as int
            * 2,
{
    let r = rows as int;
    let c = cols as int;
    let l = layers as int;
    let la = layer as int;
    let ro = row as int;
    let co = col as int;
    assert(la * r * c * 2 + ro * c * 2 + co * 2 + 2 <= l * r * c * 2) by (nonlinear_arith)
        requires
            la < l,
            ro < r,
            co < c,
            0 <= la,
            0 <= ro,
            0 <= co,
            0 < r,
            0 < c,
            0 < l,
    ;
    assert(0 <= la * r * c * 2 + ro * c * 2 + co * 2) by (nonlinear_arith)
        requires
            0 <= la,
            0 <= ro,
            0 <= co,
            0 <= r,
            0 <= c,
    ;
}

/// The request that reads a chunk of the flat keymap buffer, offset high
/// byte first.
pub fn keymap_buffer_request(offset: u16, size: u8) -> (r: Vec<u8>)
    ensures
        r@ =~= seq![
            protocol::CMD_VIA_KEYMAP_GET_BUFFER,
            ((offset >> 8) & 0xFF) as u8,
            (offset & 0xFF) as u8,
            size,
        ],
{
    let mut v: Vec<u8> = Vec::new();
    v.push(protocol::CMD_VIA_KEYMAP_GET_BUFFER);
    v.push(((offset >> 8) & 0xFF) as u8);
    v.push((offset & 0xFF) as u8);
    v.push(size);
    v
}

/// The request that writes one key of the live keymap, keycode high byte
/// first.
pub fn set_keycode_request(layer: u8, row: u8, col: u8, keycode: u16) -> (r: Vec<u8>)
    ensures
        r@ =~= seq![
            protocol::CMD_VIA_SET_KEYCODE,
            layer,
            row,
            col,
            ((keycode >> 8) & 0xFF) as u8,
            (keycode & 0xFF) as u8,
        ],
{
    let mut v: Vec<u8> = Vec::new();
    v.push(protocol::CMD_VIA_SET_KEYCODE);
    v.push(layer);
    v.push(row);
    v.push(col);
    v.push(((keycode >> 8) & 0xFF) as u8);
    v.push((keycode & 0xFF) as u8);
    v
}

/// A growable character grid for rendering the layout, row-major with
/// space as the blank.
#[derive(Debug)]
pub struct Buffer {
    pub b: Vec<Vec<char>>,
}

impl Buffer {
    /// An empty grid.
    pub fn new() -> (r: Buffer)
        ensures
            r.b@.len() == 0,
    {
        Buffer { b: Vec::new() }
    }

    /// Puts one character at a position, growing the grid with blank
    /// space as needed: every other cell keeps its character, rows added
    /// below stay empty, and cells added to the row are blanks.
    pub fn put(&mut self, x: usize, y: usize, c: char)
        requires
            x < usize::MAX,
            y < usize::MAX,
        ensures
            final(self).b@.len() == (if old(self).b@.len() >= y + 1 {
                old(self).b@.len() as int
            } else {
                y + 1
            }),
            forall|j: int|
                0 <= j < final(self).b@.len() && j != y ==> (#[trigger] final(self).b@[j])@ == (
                if j < old(self).b@.len() {
                    old(self).b@[j]@
                } else {
                    Seq::<char>::empty()
                }),
            ({
                let oldrow: Seq<char> = if (y as int) < old(self).b@.len() {
                    old(self).b@[y as int]@
                } else {
                    Seq::empty()
                };
                let grown: Seq<char> = if oldrow.len() >= x + 1 {
                    oldrow
                } else {
                    oldrow + Seq::new((x + 1 - oldrow.len()) as nat, |k: int| ' ')
                };
                final(self).b@[y as int]@ == grown.update(x as int, c)
            }),
    {
        let ghost oldgrid = self.b@;
        while self.b.len() < y + 1
            invariant
                x < usize::MAX,
                y < usize::MAX,
                self.b@.len() >= oldgrid.len() || self.b@ == oldgrid,
                self.b@.len() <= (if oldgrid.len() >= y + 1 {
                    oldgrid.len() as int
                } else {
                    y + 1
                }),
                forall|j: int| 0 <= j < oldgrid.len() && j < self.b@.len() ==> #[trigger] self.b@[j]
                    == oldgrid[j],
                forall|j: int|
                    oldgrid.len() <= j < self.b@.len() ==> (#[trigger] self.b@[j])@.len() == 0,
            decreases y + 1 - self.b@.len(),
        {
            let v: Vec<char> = Vec::new();
            self.b.push(v);
        }
        let ghost grid1 = self.b@;
        let ghost oldrow: Seq<char> = if (y as int) < oldgrid.len() {
            oldgrid[y as int]@
        } else {
            Seq::empty()
        };
        assert(grid1[y as int]@ == oldrow);
        let mut row = self.b.remove(y);
        while row.len() < x + 1
            invariant
                x < usize::MAX,
                row@.len() >= oldrow.len() || row@ == oldrow,
                row@.len() <= (if oldrow.len() >= x + 1 {
                    oldrow.len() as int
                } else {
                    x + 1
                }),
                forall|k: int| 0 <= k < oldrow.len() && k < row@.len() ==> #[trigger] row@[k]
                    == oldrow[k],
                forall|k: int| oldrow.len() <= k < row@.len() ==> #[trigger] row@[k] == ' ',
            decreases x + 1 - row@.len(),
        {
            row.push(' ');
        }
        proof {
            let grown: Seq<char> = if oldrow.len() >= x + 1 {
                oldrow
            } else {
                oldrow + Seq::new((x + 1 - oldrow.len()) as nat, |k: int| ' ')
            };
            assert(row@ =~= grown);
        }
        row.set(x, c);
        self.b.insert(y, row);
        proof {
            assert(self.b@ =~= grid1.update(y as int, self.b@[y as int]));
        }
    }

    /// How many rows the grid has.
    pub fn height(&self) -> (r: usize)
        ensures
            r == self.b@.len(),
    {
        self.b.len()
    }

    /// One row of the grid as text.
    pub fn line(&self, y: usize) -> (r: String)
        requires
            y < self.b@.len(),
    {
        let row = &self.b[y];
        let mut s = String::new();
        let n = row.len();
        let mut i: usize = 0;
        while i < n
            invariant
                n == row@.len(),
                i <= n,
            decreases n - i,
        {
            let c = row[i];
            s.append(char_str(c).as_str());
            i = i + 1;
        }
        s
    }

    /// The first row, from the top, that holds anything but blanks; rows
    /// above it are trimmed when the grid is printed.
    pub fn first_visible_line(&self) -> (r: usize)
        ensures
            r <= self.b@.len(),
    {
        let n = self.b.len();
        let mut y: usize = 0;
        while y < n
            invariant
                n == self.b@.len(),
                y <= n,
            decreases n - y,
        {
            let row = &self.b[y];
            let m = row.len();
            let mut i: usize = 0;
            while i < m
                invariant
                    m == row@.len(),
                    i <= m,
                    y < n,
                    n == self.b@.len(),
                decreases m - i,
            {
                if row[i] != ' ' {
                    return y;
                }
                i = i + 1;
            }
            y = y + 1;
        }
        n
    }
}

/// One character as a string.
fn char_str(c: char) -> (r: String) {
    let mut v: Vec<char> = Vec::new();
    v.push(c);
    chars_to_string(&v)
}

/// Relies on `String as FromIterator<char>`: collecting characters builds
/// the string of exactly those characters.
#[verifier::external_body]
fn chars_to_string(v: &Vec<char>) -> (r: String)
    ensures
        r@ == v@,
{
    v.iter().collect()
}


/// Checks that a keymap's buffer holds exactly its grid, so the cell
/// readers may be used on it.
pub fn keymap_wf_check(m: &Keymap) -> (r: bool)
    ensures
        r == keymap_wf(*m),
{
    proof {
        assert((m.layers as int) * (m.rows as int) * (m.cols as int) * 2 < 0x8000000int && 0 <= (
        m.layers as int) * (m.rows as int) * (m.cols as int) * 2 && (m.layers as int) * (
        m.rows as int) <= 65025 && 0 <= (m.layers as int) * (m.rows as int) && (m.layers as int) * (
        m.rows as int) * (m.cols as int) <= 16581375 && 0 <= (m.layers as int) * (m.rows as int) * (
        m.cols as int)) by (nonlinear_arith)
            requires
                (m.layers as int) < 256,
                (m.rows as int) < 256,
                (m.cols as int) < 256,
                0 <= m.layers as int,
                0 <= m.rows as int,
                0 <= m.cols as int,
        ;
    }
    let expected: usize = (m.layers as usize) * (m.rows as usize) * (m.cols as usize) * 2;
    m.keys.len() == expected
}

} // verus!
