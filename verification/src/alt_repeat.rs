//! Alt-repeat keys: a keycode, its alternate, an allowed-modifier mask and
//! a flag byte, as a fixed wire record, a `key=value;` attribute text form
//! and a JSON object.
use vstd::prelude::*;
use vstd::string::StrSliceExecFns;
use vstd::string::StringExecFns;
use crate::json::JsonValue;
use crate::keycodes;
use crate::keycodes::Generation;
use crate::keycodes::generation_of_spec;
use crate::keycodes::name_to_qid_spec;
use crate::keycodes::name_to_bitmod_spec;
use crate::keycodes::qid_name_spec;
use crate::protocol;
use crate::strutil::find_char_spec;
use crate::strutil::remove_spaces;
use crate::strutil::strip_spaces_spec;
use crate::strutil::split_char;
use crate::strutil::split_char_spec;
use crate::strutil::strings_view;
use crate::strutil::str_eq;
use crate::strutil::find_char;
use crate::strutil::lemma_find_char_spec;

verus! {

/// One alt-repeat-key slot.
#[derive(Debug, Clone, Copy, PartialEq, Eq, Structural)]
pub struct AltRepeat {
    pub index: u8,
    pub keycode: u16,
    pub alt_keycode: u16,
    pub allowed_mods: u8,
    pub arep_option_default_to_this_alt_key: bool,
    pub arep_option_bidirectional: bool,
    pub arep_option_ignore_mod_handedness: bool,
    pub arep_enabled: bool,
}

/// The packed flag byte of an alt-repeat key; bit 3 is `enabled`.
pub open spec fn arep_options_spec(ar: AltRepeat) -> u8 {
    (if ar.arep_option_default_to_this_alt_key {
        1u8
    } else {
        0u8
    }) | (if ar.arep_option_bidirectional {
        2u8
    } else {
        0u8
    }) | (if ar.arep_option_ignore_mod_handedness {
        4u8
    } else {
        0u8
    }) | (if ar.arep_enabled {
        8u8
    } else {
        0u8
    })
}

/// The all-clear alt-repeat key at an index, said at the spec level.
pub open spec fn arep_empty_spec(index: u8) -> AltRepeat {
    AltRepeat {
        index,
        keycode: 0u16,
        alt_keycode: 0u16,
        allowed_mods: 0u8,
        arep_option_default_to_this_alt_key: false,
        arep_option_bidirectional: false,
        arep_option_ignore_mod_handedness: false,
        arep_enabled: false,
    }
}

impl AltRepeat {
    /// Packs the named option flags and `enabled` into the wire byte.
    pub fn options(&self) -> (r: u8)
        ensures
            r == arep_options_spec(*self),
    {
        let options: u8 = (if self.arep_option_default_to_this_alt_key {
            1u8
        } else {
            0u8
        }) | (if self.arep_option_bidirectional {
            2u8
        } else {
            0u8
        }) | (if self.arep_option_ignore_mod_handedness {
            4u8
        } else {
            0u8
        }) | (if self.arep_enabled {
            8u8
        } else {
            0u8
        });
        options
    }

    /// The all-clear alt-repeat key at an index.
    pub fn empty(index: u8) -> (r: AltRepeat)
        ensures
            r == arep_empty_spec(index),
    {
        AltRepeat {
            index,
            keycode: 0,
            alt_keycode: 0,
            allowed_mods: 0,
            arep_option_default_to_this_alt_key: false,
            arep_option_bidirectional: false,
            arep_option_ignore_mod_handedness: false,
            arep_enabled: false,
        }
    }

    /// An alt-repeat key is empty when it has no keycode and is not
    /// enabled: the explicit enabled flag alone makes it non-empty.
    pub fn is_empty(&self) -> (r: bool)
        ensures
            r == (self.keycode == 0 && !self.arep_enabled),
    {
        self.keycode == 0 && !self.arep_enabled
    }

    /// Reads an alt-repeat key from a dynamic-entry response: two
    /// low-byte-first 16-bit fields, a mask byte and the flag byte.
    pub fn from_wire(index: u8, buff: &[u8]) -> (r: AltRepeat)
        requires
            buff@.len() >= 7,
        ensures
            r.index == index,
            r.keycode == (buff@[1] as u16) | ((buff@[2] as u16) << 8),
            r.alt_keycode == (buff@[3] as u16) | ((buff@[4] as u16) << 8),
            r.allowed_mods == buff@[5],
            r.arep_option_default_to_this_alt_key == (buff@[6] & 1 == 1),
            r.arep_option_bidirectional == (buff@[6] & 2 == 2),
            r.arep_option_ignore_mod_handedness == (buff@[6] & 4 == 4),
            r.arep_enabled == (buff@[6] & 8 == 8),
    {
        AltRepeat {
            index,
            keycode: (buff[1] as u16) | ((buff[2] as u16) << 8),
            alt_keycode: (buff[3] as u16) | ((buff[4] as u16) << 8),
            allowed_mods: buff[5],
            arep_option_default_to_this_alt_key: buff[6] & 1 == 1,
            arep_option_bidirectional: buff[6] & 2 == 2,
            arep_option_ignore_mod_handedness: buff[6] & 4 == 4,
            arep_enabled: buff[6] & 8 == 8,
        }
    }

    /// The request that fetches the alt-repeat key at an index.
    pub fn get_request(index: u8) -> (r: Vec<u8>)
        ensures
            r@ =~= seq![
                protocol::CMD_VIA_VIAL_PREFIX,
                protocol::CMD_VIAL_DYNAMIC_ENTRY_OP,
                protocol::DYNAMIC_VIAL_ALT_REPEAT_KEY_GET,
                index,
            ],
    {
        let mut v: Vec<u8> = Vec::new();
        v.push(protocol::CMD_VIA_VIAL_PREFIX);
        v.push(protocol::CMD_VIAL_DYNAMIC_ENTRY_OP);
        v.push(protocol::DYNAMIC_VIAL_ALT_REPEAT_KEY_GET);
        v.push(index);
        v
    }

    /// The request that writes this alt-repeat key to the device.
    pub fn set_request(&self) -> (r: Vec<u8>)
        ensures
            r@ =~= seq![
                protocol::CMD_VIA_VIAL_PREFIX,
                protocol::CMD_VIAL_DYNAMIC_ENTRY_OP,
                protocol::DYNAMIC_VIAL_ALT_REPEAT_KEY_SET,
                self.index,
                (self.keycode & 0xFF) as u8,
                ((self.keycode >> 8) & 0xFF) as u8,
                (self.alt_keycode & 0xFF) as u8,
                ((self.alt_keycode >> 8) & 0xFF) as u8,
                self.allowed_mods,
                arep_options_spec(*self),
            ],
    {
        let mut v: Vec<u8> = Vec::new();
        v.push(protocol::CMD_VIA_VIAL_PREFIX);
        v.push(protocol::CMD_VIAL_DYNAMIC_ENTRY_OP);
        v.push(protocol::DYNAMIC_VIAL_ALT_REPEAT_KEY_SET);
        v.push(self.index);
        v.push((self.keycode & 0xFF) as u8);
        v.push(((self.keycode >> 8) & 0xFF) as u8);
        v.push((self.alt_keycode & 0xFF) as u8);
        v.push(((self.alt_keycode >> 8) & 0xFF) as u8);
        v.push(self.allowed_mods);
        v.push(self.options());
        v
    }
}

/// Which option flag an option token names: 0 to 2 for the named options,
/// 3 for `enabled`, nothing for an unknown token.
pub open spec fn arep_option_code(t: Seq<char>) -> Option<u8> {
    if t == "arep_option_default_to_this_alt_key"@ || t == "option_default_to_this_alt_key"@ || t
        == "default_to_this_alt_key"@ {
        Some(0u8)
    } else if t == "arep_option_bidirectional"@ || t == "option_bidirectional"@ || t
        == "bidirectional"@ {
        Some(1u8)
    } else if t == "arep_option_ignore_mod_handedness"@ || t == "option_ignore_mod_handedness"@
        || t == "ignore_mod_handedness"@ {
        Some(2u8)
    } else if t == "arep_enabled"@ || t == "enabled"@ {
        Some(3u8)
    } else {
        None
    }
}

/// The alt-repeat key with one option flag set.
pub open spec fn arep_set_option(ar: AltRepeat, code: u8) -> AltRepeat {
    if code == 0 {
        AltRepeat { arep_option_default_to_this_alt_key: true, ..ar }
    } else if code == 1 {
        AltRepeat { arep_option_bidirectional: true, ..ar }
    } else if code == 2 {
        AltRepeat { arep_option_ignore_mod_handedness: true, ..ar }
    } else {
        AltRepeat { arep_enabled: true, ..ar }
    }
}

/// The alt-repeat key after an `options=` list of `|`-joined flag names.
pub open spec fn arep_apply_option_tokens(ar: AltRepeat, toks: Seq<Seq<char>>, p: int) -> Option<
    AltRepeat,
>
    decreases toks.len() - p,
{
    if p < 0 || p > toks.len() {
        None
    } else if p == toks.len() {
        Some(ar)
    } else {
        match arep_option_code(toks[p]) {
            None => None,
            Some(code) => arep_apply_option_tokens(arep_set_option(ar, code), toks, p + 1),
        }
    }
}

/// The alt-repeat key after one `key=value` attribute.
pub open spec fn arep_apply_part(ar: AltRepeat, part: Seq<char>, g: Generation) -> Option<
    AltRepeat,
> {
    match find_char_spec(part, '=') {
        None => None,
        Some(i) => if !(0 <= i < part.len()) {
            None
        } else {
            let left = part.subrange(0, i);
            let right = part.subrange(i + 1, part.len() as int);
            if left == "keycode"@ || left == "k"@ {
                match name_to_qid_spec(right, g) {
                    None => None,
                    Some(k) => Some(AltRepeat { keycode: k, ..ar }),
                }
            } else if left == "alt_keycode"@ || left == "a"@ {
                match name_to_qid_spec(right, g) {
                    None => None,
                    Some(k) => Some(AltRepeat { alt_keycode: k, ..ar }),
                }
            } else if left == "allowed_mods"@ || left == "m"@ {
                match name_to_bitmod_spec(right) {
                    None => None,
                    Some(m) => Some(AltRepeat { allowed_mods: m, ..ar }),
                }
            } else if left == "options"@ || left == "option"@ || left == "opt"@ || left == "o"@ {
                arep_apply_option_tokens(ar, split_char_spec(right, '|'), 0)
            } else {
                None
            }
        },
    }
}

/// The alt-repeat key after a `;`-separated attribute list, empty pieces
/// skipped.
pub open spec fn arep_fold(ar: AltRepeat, parts: Seq<Seq<char>>, p: int, g: Generation) -> Option<
    AltRepeat,
>
    decreases parts.len() - p,
{
    if p < 0 || p > parts.len() {
        None
    } else if p == parts.len() {
        Some(ar)
    } else if parts[p].len() == 0 {
        arep_fold(ar, parts, p + 1, g)
    } else {
        match arep_apply_part(ar, parts[p], g) {
            None => None,
            Some(a2) => arep_fold(a2, parts, p + 1, g),
        }
    }
}

/// Resolution of the whole text form: spaces stripped, then the attribute
/// parts applied in order over the all-clear record.
pub open spec fn arep_from_string_spec(index: u8, s: Seq<char>, g: Generation) -> Option<
    AltRepeat,
> {
    arep_fold(arep_empty_spec(index), split_char_spec(strip_spaces_spec(s), ';'), 0, g)
}

fn arep_option_code_exec(t: &str) -> (r: Option<u8>)
    ensures
        r == arep_option_code(t@),
{
    if str_eq(t, "arep_option_default_to_this_alt_key") || str_eq(
        t,
        "option_default_to_this_alt_key",
    ) || str_eq(t, "default_to_this_alt_key") {
        Some(0u8)
    } else if str_eq(t, "arep_option_bidirectional") || str_eq(t, "option_bidirectional") || str_eq(
        t,
        "bidirectional",
    ) {
        Some(1u8)
    } else if str_eq(t, "arep_option_ignore_mod_handedness") || str_eq(
        t,
        "option_ignore_mod_handedness",
    ) || str_eq(t, "ignore_mod_handedness") {
        Some(2u8)
    } else if str_eq(t, "arep_enabled") || str_eq(t, "enabled") {
        Some(3u8)
    } else {
        None
    }
}

fn arep_set_option_exec(ar: AltRepeat, code: u8) -> (r: AltRepeat)
    ensures
        r == arep_set_option(ar, code),
{
    if code == 0 {
        AltRepeat { arep_option_default_to_this_alt_key: true, ..ar }
    } else if code == 1 {
        AltRepeat { arep_option_bidirectional: true, ..ar }
    } else if code == 2 {
        AltRepeat { arep_option_ignore_mod_handedness: true, ..ar }
    } else {
        AltRepeat { arep_enabled: true, ..ar }
    }
}

fn arep_unknown_error(prefix: &str, what: &str) -> (r: keycodes::KeyParsingError) {
    let mut m = String::from_str(prefix);
    m.append(what);
    keycodes::KeyParsingError(m)
}

fn arep_apply_part_exec(ar: AltRepeat, part: &str, vial_version: u32) -> (r: Result<
    AltRepeat,
    keycodes::KeyParsingError,
>)
    requires
        part.is_ascii(),
    ensures
        r is Ok <==> arep_apply_part(ar, part@, generation_of_spec(vial_version)) is Some,
        r is Ok ==> arep_apply_part(ar, part@, generation_of_spec(vial_version)) == Some(
            r.unwrap(),
        ),
{
    proof {
        lemma_find_char_spec(part@, '=');
    }
    let n = part.unicode_len();
    match find_char(part, '=') {
        None => Err(keycodes::KeyParsingError(String::from_str("each part should contain ="))),
        Some(i) => {
            let left = part.substring_ascii(0, i);
            let right = part.substring_ascii(i + 1, n);
            if str_eq(left, "keycode") || str_eq(left, "k") {
                match keycodes::name_to_qid(right, vial_version) {
                    Ok(k) => Ok(AltRepeat { keycode: k, ..ar }),
                    Err(e) => Err(e),
                }
            } else if str_eq(left, "alt_keycode") || str_eq(left, "a") {
                match keycodes::name_to_qid(right, vial_version) {
                    Ok(k) => Ok(AltRepeat { alt_keycode: k, ..ar }),
                    Err(e) => Err(e),
                }
            } else if str_eq(left, "allowed_mods") || str_eq(left, "m") {
                match keycodes::name_to_bitmod(right) {
                    Ok(m) => Ok(AltRepeat { allowed_mods: m, ..ar }),
                    Err(e) => Err(e),
                }
            } else if str_eq(left, "options") || str_eq(left, "option") || str_eq(left, "opt")
                || str_eq(left, "o") {
                let toks = split_char(right, '|');
                let ghost tv = strings_view(toks@);
                let m = toks.len();
                let mut cur = ar;
                let mut j: usize = 0;
                while j < m
                    invariant
                        m == toks@.len(),
                        j <= m,
                        tv == strings_view(toks@),
                        part.is_ascii(),
                        n == part@.len(),
                        0 <= i < n,
                        find_char_spec(part@, '=') == Some(i as int),
                        part@.subrange(0, i as int) == "options"@ || part@.subrange(0, i as int)
                            == "option"@ || part@.subrange(0, i as int) == "opt"@ || part@.subrange(
                            0,
                            i as int,
                        ) == "o"@,
                        !(part@.subrange(0, i as int) == "keycode"@ || part@.subrange(0, i as int)
                            == "k"@ || part@.subrange(0, i as int) == "alt_keycode"@
                            || part@.subrange(0, i as int) == "a"@ || part@.subrange(0, i as int)
                            == "allowed_mods"@ || part@.subrange(0, i as int) == "m"@),
                        tv == split_char_spec(part@.subrange(i + 1, part@.len() as int), '|'),
                        arep_apply_option_tokens(ar, tv, 0) == arep_apply_option_tokens(
                            cur,
                            tv,
                            j as int,
                        ),
                    decreases m - j,
                {
                    assert(tv[j as int] == toks@[j as int]@);
                    match arep_option_code_exec(toks[j].as_str()) {
                        Some(code) => {
                            cur = arep_set_option_exec(cur, code);
                        },
                        None => {
                            return Err(arep_unknown_error("Unknown option ", toks[j].as_str()));
                        },
                    }
                    j = j + 1;
                }
                Ok(cur)
            } else {
                Err(arep_unknown_error("Unknown setting ", left))
            }
        },
    }
}


/// The alt-repeat key after one JSON member: keycodes are given as names,
/// the mask and the options byte as numbers; an unknown member name
/// resolves to nothing.
pub open spec fn arep_json_member(ar: AltRepeat, key: Seq<char>, val: JsonValue, g: Generation) -> Option<
    AltRepeat,
> {
    if key == "keycode"@ {
        match val {
            JsonValue::Str(t) => match name_to_qid_spec(t@, g) {
                Some(k) => Some(AltRepeat { keycode: k, ..ar }),
                None => None,
            },
            _ => None,
        }
    } else if key == "alt_keycode"@ {
        match val {
            JsonValue::Str(t) => match name_to_qid_spec(t@, g) {
                Some(k) => Some(AltRepeat { alt_keycode: k, ..ar }),
                None => None,
            },
            _ => None,
        }
    } else if key == "allowed_mods"@ {
        match val {
            JsonValue::UInt(v) => Some(AltRepeat { allowed_mods: v as u8, ..ar }),
            _ => None,
        }
    } else if key == "options"@ {
        match val {
            JsonValue::UInt(v) => Some(
                AltRepeat {
                    arep_option_default_to_this_alt_key: (v as u8) & 1 == 1,
                    arep_option_bidirectional: (v as u8) & 2 == 2,
                    arep_option_ignore_mod_handedness: (v as u8) & 4 == 4,
                    arep_enabled: (v as u8) & 8 == 8,
                    ..ar
                },
            ),
            _ => None,
        }
    } else {
        None
    }
}

/// The alt-repeat key after a whole JSON object, members applied in order
/// over the all-clear record.
pub open spec fn arep_json_fold(
    ar: AltRepeat,
    members: Seq<(String, JsonValue)>,
    p: int,
    g: Generation,
) -> Option<AltRepeat>
    decreases members.len() - p,
{
    if p < 0 || p > members.len() {
        None
    } else if p == members.len() {
        Some(ar)
    } else {
        match arep_json_member(ar, members[p].0@, members[p].1, g) {
            None => None,
            Some(a2) => arep_json_fold(a2, members, p + 1, g),
        }
    }
}

/// Resolution of a whole JSON alt-repeat key.
pub open spec fn arep_from_json_spec(index: u8, v: JsonValue, g: Generation) -> Option<AltRepeat> {
    match v {
        JsonValue::Obj(members) => arep_json_fold(arep_empty_spec(index), members@, 0, g),
        _ => None,
    }
}

impl AltRepeat {
    /// Parses `key=value;`-style attribute text, with short aliases, into
    /// an indexed alt-repeat key; unnamed attributes keep their cleared
    /// values.
    pub fn from_string(index: u8, value: &str, vial_version: u32) -> (r: Result<
        AltRepeat,
        keycodes::KeyParsingError,
    >)
        ensures
            value.is_ascii() ==> {
                let spec_r = arep_from_string_spec(index, value@, generation_of_spec(vial_version));
                &&& r is Ok <==> spec_r is Some
                &&& r is Ok ==> spec_r == Some(r.unwrap())
            },
    {
        if !value.is_ascii() {
            return Err(keycodes::KeyParsingError(String::from_str("text is not ascii")));
        }
        let spaceless = remove_spaces(value);
        let parts = split_char(spaceless.as_str(), ';');
        let ghost pv = strings_view(parts@);
        let ghost g = generation_of_spec(vial_version);
        let n = parts.len();
        let mut cur = AltRepeat::empty(index);
        let mut p: usize = 0;
        while p < n
            invariant
                n == parts@.len(),
                p <= n,
                pv == strings_view(parts@),
                g == generation_of_spec(vial_version),
                pv == split_char_spec(strip_spaces_spec(value@), ';'),
                value.is_ascii(),
                forall|k: int| 0 <= k < n ==> vstd::utf8::is_ascii_chars(#[trigger] pv[k]),
                arep_fold(arep_empty_spec(index), pv, 0, g) == arep_fold(cur, pv, p as int, g),
            decreases n - p,
        {
            assert(pv[p as int] == parts@[p as int]@);
            if parts[p].as_str().unicode_len() > 0 {
                match arep_apply_part_exec(cur, parts[p].as_str(), vial_version) {
                    Ok(a2) => {
                        cur = a2;
                    },
                    Err(e) => {
                        return Err(e);
                    },
                }
            }
            p = p + 1;
        }
        Ok(cur)
    }

    /// Parses a JSON object of named fields into an indexed alt-repeat
    /// key; keycodes are given as names, the mask and options as numbers.
    pub fn from_json(index: u8, alt_repeat_json: &JsonValue, vial_version: u32) -> (r: Result<
        AltRepeat,
        keycodes::KeyParsingError,
    >)
        ensures
            r is Ok <==> arep_from_json_spec(
                index,
                *alt_repeat_json,
                generation_of_spec(vial_version),
            ) is Some,
            r is Ok ==> arep_from_json_spec(
                index,
                *alt_repeat_json,
                generation_of_spec(vial_version),
            ) == Some(r.unwrap()),
    {
        let ghost g = generation_of_spec(vial_version);
        let members = match alt_repeat_json.as_object() {
            Some(v) => v,
            None => {
                return Err(
                    keycodes::KeyParsingError(
                        String::from_str("alt_repeat element should be an object"),
                    ),
                );
            },
        };
        let n = members.len();
        let mut cur = AltRepeat::empty(index);
        let mut p: usize = 0;
        while p < n
            invariant
                n == members@.len(),
                p <= n,
                g == generation_of_spec(vial_version),
                *alt_repeat_json == JsonValue::Obj(*members),
                arep_json_fold(arep_empty_spec(index), members@, 0, g) == arep_json_fold(
                    cur,
                    members@,
                    p as int,
                    g,
                ),
            decreases n - p,
        {
            let key = &members[p].0;
            let val = &members[p].1;
            let next: AltRepeat;
            if str_eq(key.as_str(), "keycode") {
                let name = match val.as_str() {
                    Some(t) => t,
                    None => {
                        return Err(
                            keycodes::KeyParsingError(
                                String::from_str("keycode value should be string"),
                            ),
                        );
                    },
                };
                match keycodes::name_to_qid(name, vial_version) {
                    Ok(k) => {
                        next = AltRepeat { keycode: k, ..cur };
                    },
                    Err(e) => {
                        return Err(e);
                    },
                }
            } else if str_eq(key.as_str(), "alt_keycode") {
                let name = match val.as_str() {
                    Some(t) => t,
                    None => {
                        return Err(
                            keycodes::KeyParsingError(
                                String::from_str("keycode value should be string"),
                            ),
                        );
                    },
                };
                match keycodes::name_to_qid(name, vial_version) {
                    Ok(k) => {
                        next = AltRepeat { alt_keycode: k, ..cur };
                    },
                    Err(e) => {
                        return Err(e);
                    },
                }
            } else if str_eq(key.as_str(), "allowed_mods") {
                match val.as_u64() {
                    Some(v) => {
                        proof {
                            crate::strutil::lemma_u64_low8(v);
                        }
                        next = AltRepeat { allowed_mods: (v % 256) as u8, ..cur };
                    },
                    None => {
                        return Err(
                            keycodes::KeyParsingError(
                                String::from_str("allowed_mods value should be a number"),
                            ),
                        );
                    },
                }
            } else if str_eq(key.as_str(), "options") {
                match val.as_u64() {
                    Some(v) => {
                        proof {
                            crate::strutil::lemma_u64_low8(v);
                        }
                        let o: u8 = (v % 256) as u8;
                        next = AltRepeat {
                            arep_option_default_to_this_alt_key: o & 1 == 1,
                            arep_option_bidirectional: o & 2 == 2,
                            arep_option_ignore_mod_handedness: o & 4 == 4,
                            arep_enabled: o & 8 == 8,
                            ..cur
                        };
                    },
                    None => {
                        return Err(
                            keycodes::KeyParsingError(
                                String::from_str("options value should be a number"),
                            ),
                        );
                    },
                }
            } else {
                return Err(arep_unknown_error("Unknown alt_repeat key ", key.as_str()));
            }
            cur = next;
            p = p + 1;
        }
        Ok(cur)
    }
}

/// What the rendered JSON of one alt-repeat key holds: each wire-relevant
/// field under its name.
pub open spec fn arep_json_matches(jv: JsonValue, ar: AltRepeat, g: Generation) -> bool {
    jv matches JsonValue::Obj(members) && members@.len() == 4 && members@[0].0@ == "keycode"@ && (
    members@[0].1 matches JsonValue::Str(t) && t@ == qid_name_spec(ar.keycode, g))
        && members@[1].0@ == "alt_keycode"@ && (members@[1].1 matches JsonValue::Str(a) && a@
        == qid_name_spec(ar.alt_keycode, g)) && members@[2].0@ == "allowed_mods"@ && members@[2].1
        == JsonValue::UInt(ar.allowed_mods as u64) && members@[3].0@ == "options"@
        && members@[3].1 == JsonValue::UInt(arep_options_spec(ar) as u64)
}

/// Renders an alt-repeat-key list as JSON objects with named fields.
pub fn alt_repeats_to_json(alt_repeats: &Vec<AltRepeat>, vial_version: u32) -> (r: Result<
    Vec<JsonValue>,
    keycodes::KeyParsingError,
>)
    ensures
        r is Ok,
        r.unwrap()@.len() == alt_repeats@.len(),
        forall|i: int|
            0 <= i < alt_repeats@.len() ==> arep_json_matches(
                #[trigger] r.unwrap()@[i],
                alt_repeats@[i],
                generation_of_spec(vial_version),
            ),
{
    let n = alt_repeats.len();
    let mut result: Vec<JsonValue> = Vec::new();
    let mut i: usize = 0;
    while i < n
        invariant
            n == alt_repeats@.len(),
            i <= n,
            result@.len() == i,
            forall|k: int|
                0 <= k < i ==> arep_json_matches(
                    #[trigger] result@[k],
                    alt_repeats@[k],
                    generation_of_spec(vial_version),
                ),
        decreases n - i,
    {
        let ar = &alt_repeats[i];
        let mut members: Vec<(String, JsonValue)> = Vec::new();
        members.push(
            (
                String::from_str("keycode"),
                JsonValue::Str(keycodes::qid_to_name(ar.keycode, vial_version)),
            ),
        );
        members.push(
            (
                String::from_str("alt_keycode"),
                JsonValue::Str(keycodes::qid_to_name(ar.alt_keycode, vial_version)),
            ),
        );
        members.push((String::from_str("allowed_mods"), JsonValue::UInt(ar.allowed_mods as u64)));
        members.push((String::from_str("options"), JsonValue::UInt(ar.options() as u64)));
        result.push(JsonValue::Obj(members));
        i = i + 1;
    }
    Ok(result)
}

/// Parses a JSON array of alt-repeat keys, one per element, indexed in
/// order.
pub fn load_alt_repeats_from_json(alt_repeats_json: &JsonValue, vial_version: u32) -> (r: Result<
    Vec<AltRepeat>,
    keycodes::KeyParsingError,
>)
    ensures
        r is Ok <==> (alt_repeats_json matches JsonValue::Arr(items) && (forall|i: int|
            0 <= i < items@.len() ==> arep_from_json_spec(
                (i % 256) as u8,
                #[trigger] items@[i],
                generation_of_spec(vial_version),
            ) is Some)),
        r is Ok ==> (alt_repeats_json matches JsonValue::Arr(items) && r.unwrap()@.len() == items@.len() && (
        forall|i: int|
            0 <= i < items@.len() ==> Some(r.unwrap()@[i]) == arep_from_json_spec(
                (i % 256) as u8,
                #[trigger] items@[i],
                generation_of_spec(vial_version),
            ))),
{
    let ghost g = generation_of_spec(vial_version);
    let items = match alt_repeats_json.as_array() {
        Some(v) => v,
        None => {
            return Err(
                keycodes::KeyParsingError(String::from_str("alt_repeats_json should be an array")),
            );
        },
    };
    let n = items.len();
    let mut result: Vec<AltRepeat> = Vec::new();
    let mut i: usize = 0;
    while i < n
        invariant
            n == items@.len(),
            i <= n,
            result@.len() == i,
            g == generation_of_spec(vial_version),
            *alt_repeats_json == JsonValue::Arr(*items),
            forall|k: int|
                0 <= k < i ==> Some(result@[k]) == arep_from_json_spec(
                    (k % 256) as u8,
                    #[trigger] items@[k],
                    g,
                ),
        decreases n - i,
    {
        match AltRepeat::from_json((i % 256) as u8, &items[i], vial_version) {
            Ok(v) => {
                result.push(v);
            },
            Err(e) => {
                proof {
                    assert(arep_from_json_spec((i as int % 256) as u8, items@[i as int], g) is None);
                }
                return Err(e);
            },
        }
        i = i + 1;
    }
    Ok(result)
}


fn arep_bool_str(b: bool) -> (r: &'static str)
    ensures
        r@ == crate::strutil::bool_text_spec(b),
{
    if b {
        "true"
    } else {
        "false"
    }
}

/// Display text of an alt-repeat key: its index, then `EMPTY`, or each
/// field on its own line, keycodes in the current generation's names.
pub open spec fn arep_text_spec(ar: AltRepeat) -> Seq<char> {
    let s = crate::strutil::dec_str_spec(ar.index as int) + ") "@;
    if ar.keycode == 0 && !ar.arep_enabled {
        s + "EMPTY"@
    } else {
        s + "keycode = "@ + qid_name_spec(ar.keycode, Generation::Current) + "; alt_keycode = "@
            + qid_name_spec(ar.alt_keycode, Generation::Current) + "; "@ + "\n\tallowed_mods = "@
            + crate::keycodes::bitmod_to_name_spec(ar.allowed_mods)
            + ";\n\tarep_option_default_to_this_alt_key = "@ + crate::strutil::bool_text_spec(
            ar.arep_option_default_to_this_alt_key,
        ) + "\n\tarep_option_bidirectional = "@ + crate::strutil::bool_text_spec(ar.arep_option_bidirectional)
            + "\n\tarep_option_ignore_mod_handedness = "@ + crate::strutil::bool_text_spec(
            ar.arep_option_ignore_mod_handedness,
        ) + "\n\tarep_enabled = "@ + crate::strutil::bool_text_spec(ar.arep_enabled)
    }
}

impl AltRepeat {
    /// Renders the alt-repeat key for display: each field on its own
    /// line, keycodes in the current generation's names.
    pub fn to_text(&self) -> (r: String)
        ensures
            r@ == arep_text_spec(*self),
    {
        let mut m = crate::strutil::dec_string(self.index as u16);
        m.append(") ");
        if self.keycode == 0 && !self.arep_enabled {
            m.append("EMPTY");
            assert(m@ =~= arep_text_spec(*self));
            return m;
        }
        m.append("keycode = ");
        let k = crate::keycodes::qid_to_name(self.keycode, 6);
        m.append(k.as_str());
        m.append("; alt_keycode = ");
        let a = crate::keycodes::qid_to_name(self.alt_keycode, 6);
        m.append(a.as_str());
        m.append("; ");
        m.append("\n\tallowed_mods = ");
        let am = crate::keycodes::bitmod_to_name(self.allowed_mods);
        m.append(am.as_str());
        m.append(";\n\tarep_option_default_to_this_alt_key = ");
        m.append(arep_bool_str(self.arep_option_default_to_this_alt_key));
        m.append("\n\tarep_option_bidirectional = ");
        m.append(arep_bool_str(self.arep_option_bidirectional));
        m.append("\n\tarep_option_ignore_mod_handedness = ");
        m.append(arep_bool_str(self.arep_option_ignore_mod_handedness));
        m.append("\n\tarep_enabled = ");
        m.append(arep_bool_str(self.arep_enabled));
        assert(m@ =~= arep_text_spec(*self));
        m
    }
}

/// The JSON round trip preserves every wire-relevant field of an
/// alt-repeat key: rendering one to JSON and reading the JSON back gives
/// the same record, whenever each keycode's printed name resolves back
/// to it.
pub proof fn lemma_arep_json_round_trip(ar: AltRepeat, jv: JsonValue, g: Generation)
    requires
        arep_json_matches(jv, ar, g),
        name_to_qid_spec(qid_name_spec(ar.keycode, g), g) == Some(ar.keycode),
        name_to_qid_spec(qid_name_spec(ar.alt_keycode, g), g) == Some(ar.alt_keycode),
    ensures
        arep_from_json_spec(ar.index, jv, g) matches Some(r) && r.keycode == ar.keycode
            && r.alt_keycode == ar.alt_keycode && r.allowed_mods == ar.allowed_mods
            && arep_options_spec(r) == arep_options_spec(ar) && r.index == ar.index,
{
    reveal_strlit("keycode");
    reveal_strlit("alt_keycode");
    reveal_strlit("allowed_mods");
    reveal_strlit("options");
    assert("keycode"@.len() == 7);
    assert("alt_keycode"@.len() == 11);
    assert("allowed_mods"@.len() == 12);
    assert("options"@.len() == 7);
    arep_seq_ne("options"@, "keycode"@, 0);
    let members = jv->Obj_0;
    let a0 = arep_empty_spec(ar.index);
    let a1 = AltRepeat { keycode: ar.keycode, ..a0 };
    let a2 = AltRepeat { alt_keycode: ar.alt_keycode, ..a1 };
    let a3 = AltRepeat { allowed_mods: ar.allowed_mods, ..a2 };
    let o = arep_options_spec(ar);
    let a4 = AltRepeat {
        arep_option_default_to_this_alt_key: o & 1 == 1,
        arep_option_bidirectional: o & 2 == 2,
        arep_option_ignore_mod_handedness: o & 4 == 4,
        arep_enabled: o & 8 == 8,
        ..a3
    };
    assert((ar.allowed_mods as u64) as u8 == ar.allowed_mods);
    assert(arep_json_member(a0, members@[0].0@, members@[0].1, g) == Some(a1));
    assert(arep_json_member(a1, members@[1].0@, members@[1].1, g) == Some(a2));
    assert(arep_json_member(a2, members@[2].0@, members@[2].1, g) == Some(a3));
    assert(arep_json_member(a3, members@[3].0@, members@[3].1, g) == Some(a4));
    assert(arep_json_fold(a0, members@, 0, g) == arep_json_fold(a1, members@, 1, g));
    assert(arep_json_fold(a1, members@, 1, g) == arep_json_fold(a2, members@, 2, g));
    assert(arep_json_fold(a2, members@, 2, g) == arep_json_fold(a3, members@, 3, g));
    assert(arep_json_fold(a3, members@, 3, g) == arep_json_fold(a4, members@, 4, g));
    assert(arep_json_fold(a4, members@, 4, g) == Some(a4));
    let aa: u8 = if ar.arep_option_default_to_this_alt_key { 1u8 } else { 0u8 };
    let bb: u8 = if ar.arep_option_bidirectional { 2u8 } else { 0u8 };
    let cc: u8 = if ar.arep_option_ignore_mod_handedness { 4u8 } else { 0u8 };
    let dd: u8 = if ar.arep_enabled { 8u8 } else { 0u8 };
    assert(o == (aa | bb | cc | dd));
    assert(((if o & 1 == 1 { 1u8 } else { 0u8 }) | (if o & 2 == 2 { 2u8 } else { 0u8 }) | (if o & 4
        == 4 { 4u8 } else { 0u8 }) | (if o & 8 == 8 { 8u8 } else { 0u8 })) == o) by (bit_vector)
        requires
            (aa == 0 || aa == 1) && (bb == 0 || bb == 2) && (cc == 0 || cc == 4) && (dd == 0 || dd
                == 8) && o == (aa | bb | cc | dd),
    ;
}

/// Two member names differing at one position differ.
proof fn arep_seq_ne(a: Seq<char>, b: Seq<char>, i: int)
    requires
        0 <= i < a.len(),
        0 <= i < b.len(),
        a[i] != b[i],
    ensures
        a != b,
{
    if a == b {
        assert(a[i] == b[i]);
    }
}

} // verus!
