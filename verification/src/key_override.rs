//! Key overrides: trigger and replacement keycodes, a layer bitmask, three
//! modifier masks and a flag byte, as a fixed wire record, a `key=value;`
//! attribute text form and a JSON object.
use vstd::prelude::*;
use vstd::string::StrSliceExecFns;
use vstd::string::StringExecFns;
use crate::json::JsonValue;
use crate::keycodes;
use crate::keycodes::Generation;
use crate::keycodes::generation_of_spec;
use crate::keycodes::name_to_qid_spec;
use crate::keycodes::name_to_bitmod_spec;
use crate::keycodes::qid_name_spec;
use crate::protocol;
use crate::strutil::find_char_spec;
use crate::strutil::parse_u16_spec;
use crate::strutil::remove_spaces;
use crate::strutil::strip_spaces_spec;
use crate::strutil::split_char;
use crate::strutil::split_char_spec;
use crate::strutil::strings_view;
use crate::strutil::str_eq;
use crate::strutil::find_char;
use crate::strutil::lemma_find_char_spec;
use crate::strutil::parse_u16;

verus! {

/// One key-override slot.
#[derive(Debug, Clone, Copy, PartialEq, Eq, Structural)]
pub struct KeyOverride {
    pub index: u8,
    pub trigger: u16,
    pub replacement: u16,
    pub layers: u16,
    pub trigger_mods: u8,
    pub negative_mod_mask: u8,
    pub suppressed_mods: u8,
    pub ko_option_activation_trigger_down: bool,
    pub ko_option_activation_required_mod_down: bool,
    pub ko_option_activation_negative_mod_up: bool,
    pub ko_option_one_mod: bool,
    pub ko_option_no_reregister_trigger: bool,
    pub ko_option_no_unregister_on_other_key_down: bool,
    pub ko_enabled: bool,
}

/// The packed flag byte of a key override; the high bit is `enabled`.
pub open spec fn ko_options_spec(ko: KeyOverride) -> u8 {
    (if ko.ko_option_activation_trigger_down {
        1u8
    } else {
        0u8
    }) | (if ko.ko_option_activation_required_mod_down {
        2u8
    } else {
        0u8
    }) | (if ko.ko_option_activation_negative_mod_up {
        4u8
    } else {
        0u8
    }) | (if ko.ko_option_one_mod {
        8u8
    } else {
        0u8
    }) | (if ko.ko_option_no_reregister_trigger {
        16u8
    } else {
        0u8
    }) | (if ko.ko_option_no_unregister_on_other_key_down {
        32u8
    } else {
        0u8
    }) | (if ko.ko_enabled {
        128u8
    } else {
        0u8
    })
}

/// A key override with an options byte read back from the wire.
pub open spec fn ko_with_options(ko: KeyOverride, options: u8) -> KeyOverride {
    KeyOverride {
        ko_option_activation_trigger_down: options & 1 == 1,
        ko_option_activation_required_mod_down: options & 2 == 2,
        ko_option_activation_negative_mod_up: options & 4 == 4,
        ko_option_one_mod: options & 8 == 8,
        ko_option_no_reregister_trigger: options & 16 == 16,
        ko_option_no_unregister_on_other_key_down: options & 32 == 32,
        ko_enabled: options & 128 == 128,
        ..ko
    }
}

impl KeyOverride {
    /// Packs the named option flags and `enabled` into the wire byte.
    pub fn options(&self) -> (r: u8)
        ensures
            r == ko_options_spec(*self),
    {
        let options: u8 = (if self.ko_option_activation_trigger_down {
            1u8
        } else {
            0u8
        }) | (if self.ko_option_activation_required_mod_down {
            2u8
        } else {
            0u8
        }) | (if self.ko_option_activation_negative_mod_up {
            4u8
        } else {
            0u8
        }) | (if self.ko_option_one_mod {
            8u8
        } else {
            0u8
        }) | (if self.ko_option_no_reregister_trigger {
            16u8
        } else {
            0u8
        }) | (if self.ko_option_no_unregister_on_other_key_down {
            32u8
        } else {
            0u8
        }) | (if self.ko_enabled {
            128u8
        } else {
            0u8
        });
        options
    }

    /// The all-clear key override at an index.
    pub fn empty(index: u8) -> (r: KeyOverride)
        ensures
            r == ko_empty_spec(index),
    {
        KeyOverride {
            index,
            trigger: 0,
            replacement: 0,
            layers: 0,
            trigger_mods: 0,
            negative_mod_mask: 0,
            suppressed_mods: 0,
            ko_option_activation_trigger_down: false,
            ko_option_activation_required_mod_down: false,
            ko_option_activation_negative_mod_up: false,
            ko_option_one_mod: false,
            ko_option_no_reregister_trigger: false,
            ko_option_no_unregister_on_other_key_down: false,
            ko_enabled: false,
        }
    }

    /// A key override is empty when it has no trigger and is not enabled:
    /// the explicit enabled flag alone makes it non-empty.
    pub fn is_empty(&self) -> (r: bool)
        ensures
            r == (self.trigger == 0 && !self.ko_enabled),
    {
        self.trigger == 0 && !self.ko_enabled
    }

    /// Reads a key override from a dynamic-entry response: three
    /// low-byte-first 16-bit fields, three mask bytes and the flag byte.
    pub fn from_wire(index: u8, buff: &[u8]) -> (r: KeyOverride)
        requires
            buff@.len() >= 11,
        ensures
            r.index == index,
            r.trigger == (buff@[1] as u16) | ((buff@[2] as u16) << 8),
            r.replacement == (buff@[3] as u16) | ((buff@[4] as u16) << 8),
            r.layers == (buff@[5] as u16) | ((buff@[6] as u16) << 8),
            r.trigger_mods == buff@[7],
            r.negative_mod_mask == buff@[8],
            r.suppressed_mods == buff@[9],
            r == ko_with_options(
                KeyOverride {
                    index,
                    trigger: ((buff@[1] as u16) | ((buff@[2] as u16) << 8)) as u16,
                    replacement: ((buff@[3] as u16) | ((buff@[4] as u16) << 8)) as u16,
                    layers: ((buff@[5] as u16) | ((buff@[6] as u16) << 8)) as u16,
                    trigger_mods: buff@[7],
                    negative_mod_mask: buff@[8],
                    suppressed_mods: buff@[9],
                    ..ko_empty_spec(index)
                },
                buff@[10],
            ),
    {
        let base = KeyOverride {
            index,
            trigger: (buff[1] as u16) | ((buff[2] as u16) << 8),
            replacement: (buff[3] as u16) | ((buff[4] as u16) << 8),
            layers: (buff[5] as u16) | ((buff[6] as u16) << 8),
            trigger_mods: buff[7],
            negative_mod_mask: buff[8],
            suppressed_mods: buff[9],
            ko_option_activation_trigger_down: buff[10] & 1 == 1,
            ko_option_activation_required_mod_down: buff[10] & 2 == 2,
            ko_option_activation_negative_mod_up: buff[10] & 4 == 4,
            ko_option_one_mod: buff[10] & 8 == 8,
            ko_option_no_reregister_trigger: buff[10] & 16 == 16,
            ko_option_no_unregister_on_other_key_down: buff[10] & 32 == 32,
            ko_enabled: buff[10] & 128 == 128,
        };
        base
    }

    /// The request that fetches the key override at an index.
    pub fn get_request(index: u8) -> (r: Vec<u8>)
        ensures
            r@ =~= seq![
                protocol::CMD_VIA_VIAL_PREFIX,
                protocol::CMD_VIAL_DYNAMIC_ENTRY_OP,
                protocol::DYNAMIC_VIAL_KEY_OVERRIDE_GET,
                index,
            ],
    {
        let mut v: Vec<u8> = Vec::new();
        v.push(protocol::CMD_VIA_VIAL_PREFIX);
        v.push(protocol::CMD_VIAL_DYNAMIC_ENTRY_OP);
        v.push(protocol::DYNAMIC_VIAL_KEY_OVERRIDE_GET);
        v.push(index);
        v
    }

    /// The request that writes this key override to the device.
    pub fn set_request(&self) -> (r: Vec<u8>)
        ensures
            r@ =~= seq![
                protocol::CMD_VIA_VIAL_PREFIX,
                protocol::CMD_VIAL_DYNAMIC_ENTRY_OP,
                protocol::DYNAMIC_VIAL_KEY_OVERRIDE_SET,
                self.index,
                (self.trigger & 0xFF) as u8,
                ((self.trigger >> 8) & 0xFF) as u8,
                (self.replacement & 0xFF) as u8,
                ((self.replacement >> 8) & 0xFF) as u8,
                (self.layers & 0xFF) as u8,
                ((self.layers >> 8) & 0xFF) as u8,
                self.trigger_mods,
                self.negative_mod_mask,
                self.suppressed_mods,
                ko_options_spec(*self),
            ],
    {
        let mut v: Vec<u8> = Vec::new();
        v.push(protocol::CMD_VIA_VIAL_PREFIX);
        v.push(protocol::CMD_VIAL_DYNAMIC_ENTRY_OP);
        v.push(protocol::DYNAMIC_VIAL_KEY_OVERRIDE_SET);
        v.push(self.index);
        v.push((self.trigger & 0xFF) as u8);
        v.push(((self.trigger >> 8) & 0xFF) as u8);
        v.push((self.replacement & 0xFF) as u8);
        v.push(((self.replacement >> 8) & 0xFF) as u8);
        v.push((self.layers & 0xFF) as u8);
        v.push(((self.layers >> 8) & 0xFF) as u8);
        v.push(self.trigger_mods);
        v.push(self.negative_mod_mask);
        v.push(self.suppressed_mods);
        v.push(self.options());
        v
    }
}

/// The all-clear key override at an index, said at the spec level.
pub open spec fn ko_empty_spec(index: u8) -> KeyOverride {
    KeyOverride {
        index,
        trigger: 0u16,
        replacement: 0u16,
        layers: 0u16,
        trigger_mods: 0u8,
        negative_mod_mask: 0u8,
        suppressed_mods: 0u8,
        ko_option_activation_trigger_down: false,
        ko_option_activation_required_mod_down: false,
        ko_option_activation_negative_mod_up: false,
        ko_option_one_mod: false,
        ko_option_no_reregister_trigger: false,
        ko_option_no_unregister_on_other_key_down: false,
        ko_enabled: false,
    }
}

/// Which option flag an option token names: 0 to 5 for the named options,
/// 7 for `enabled`, nothing for an unknown token.
pub open spec fn ko_option_code(t: Seq<char>) -> Option<u8> {
    if t == "ko_option_activation_trigger_down"@ || t == "option_activation_trigger_down"@ || t
        == "activation_trigger_down"@ {
        Some(0u8)
    } else if t == "ko_option_activation_required_mod_down"@ || t
        == "option_activation_required_mod_down"@ || t == "activation_required_mod_down"@ {
        Some(1u8)
    } else if t == "ko_option_activation_negative_mod_up"@ || t
        == "option_activation_negative_mod_up"@ || t == "activation_negative_mod_up"@ {
        Some(2u8)
    } else if t == "ko_option_one_mod"@ || t == "option_one_mod"@ || t == "one_mod"@ {
        Some(3u8)
    } else if t == "ko_option_no_reregister_trigger"@ || t == "option_no_reregister_trigger"@ || t
        == "no_reregister_trigger"@ {
        Some(4u8)
    } else if t == "ko_option_no_unregister_on_other_key_down"@ || t
        == "option_no_unregister_on_other_key_down"@ || t == "no_unregister_on_other_key_down"@ {
        Some(5u8)
    } else if t == "ko_enabled"@ || t == "enabled"@ {
        Some(7u8)
    } else {
        None
    }
}

/// The key override with one option flag set.
pub open spec fn ko_set_option(ko: KeyOverride, code: u8) -> KeyOverride {
    if code == 0 {
        KeyOverride { ko_option_activation_trigger_down: true, ..ko }
    } else if code == 1 {
        KeyOverride { ko_option_activation_required_mod_down: true, ..ko }
    } else if code == 2 {
        KeyOverride { ko_option_activation_negative_mod_up: true, ..ko }
    } else if code == 3 {
        KeyOverride { ko_option_one_mod: true, ..ko }
    } else if code == 4 {
        KeyOverride { ko_option_no_reregister_trigger: true, ..ko }
    } else if code == 5 {
        KeyOverride { ko_option_no_unregister_on_other_key_down: true, ..ko }
    } else {
        KeyOverride { ko_enabled: true, ..ko }
    }
}

/// The key override after an `options=` list of `|`-joined flag names.
pub open spec fn ko_apply_option_tokens(ko: KeyOverride, toks: Seq<Seq<char>>, p: int) -> Option<
    KeyOverride,
>
    decreases toks.len() - p,
{
    if p < 0 || p > toks.len() {
        None
    } else if p == toks.len() {
        Some(ko)
    } else {
        match ko_option_code(toks[p]) {
            None => None,
            Some(code) => ko_apply_option_tokens(ko_set_option(ko, code), toks, p + 1),
        }
    }
}

/// The layer bitmask named by a `|`-joined list of layer numbers; a layer
/// at or above 16 has no bit and resolves to nothing.
pub open spec fn ko_layers_mask(acc: u16, toks: Seq<Seq<char>>, p: int) -> Option<u16>
    decreases toks.len() - p,
{
    if p < 0 || p > toks.len() {
        None
    } else if p == toks.len() {
        Some(acc)
    } else {
        match parse_u16_spec(toks[p]) {
            None => None,
            Some(l) => if l >= 16 {
                None
            } else {
                ko_layers_mask((acc | (1u16 << l)) as u16, toks, p + 1)
            },
        }
    }
}

/// The key override after one `key=value` attribute.
pub open spec fn ko_apply_part(ko: KeyOverride, part: Seq<char>, g: Generation) -> Option<
    KeyOverride,
> {
    match find_char_spec(part, '=') {
        None => None,
        Some(i) => if !(0 <= i < part.len()) {
            None
        } else {
            let left = part.subrange(0, i);
            let right = part.subrange(i + 1, part.len() as int);
            if left == "trigger"@ || left == "t"@ {
                match name_to_qid_spec(right, g) {
                    None => None,
                    Some(k) => Some(KeyOverride { trigger: k, ..ko }),
                }
            } else if left == "replacement"@ || left == "r"@ {
                match name_to_qid_spec(right, g) {
                    None => None,
                    Some(k) => Some(KeyOverride { replacement: k, ..ko }),
                }
            } else if left == "layers"@ || left == "l"@ {
                match ko_layers_mask(0u16, split_char_spec(right, '|'), 0) {
                    None => None,
                    Some(mask) => Some(KeyOverride { layers: mask, ..ko }),
                }
            } else if left == "trigger_mods"@ || left == "tm"@ || left == "m"@ {
                match name_to_bitmod_spec(right) {
                    None => None,
                    Some(m) => Some(KeyOverride { trigger_mods: m, ..ko }),
                }
            } else if left == "negative_mod_mask"@ || left == "nmm"@ || left == "n"@ {
                match name_to_bitmod_spec(right) {
                    None => None,
                    Some(m) => Some(KeyOverride { negative_mod_mask: m, ..ko }),
                }
            } else if left == "suppressed_mods"@ || left == "sm"@ || left == "s"@ {
                match name_to_bitmod_spec(right) {
                    None => None,
                    Some(m) => Some(KeyOverride { suppressed_mods: m, ..ko }),
                }
            } else if left == "options"@ || left == "option"@ || left == "opt"@ || left == "o"@ {
                ko_apply_option_tokens(ko, split_char_spec(right, '|'), 0)
            } else {
                None
            }
        },
    }
}

/// The key override after a `;`-separated attribute list, empty pieces
/// skipped.
pub open spec fn ko_fold(ko: KeyOverride, parts: Seq<Seq<char>>, p: int, g: Generation) -> Option<
    KeyOverride,
>
    decreases parts.len() - p,
{
    if p < 0 || p > parts.len() {
        None
    } else if p == parts.len() {
        Some(ko)
    } else if parts[p].len() == 0 {
        ko_fold(ko, parts, p + 1, g)
    } else {
        match ko_apply_part(ko, parts[p], g) {
            None => None,
            Some(k2) => ko_fold(k2, parts, p + 1, g),
        }
    }
}

/// Resolution of the whole text form: spaces stripped, then the attribute
/// parts applied in order over the all-clear record.
pub open spec fn ko_from_string_spec(index: u8, s: Seq<char>, g: Generation) -> Option<
    KeyOverride,
> {
    ko_fold(ko_empty_spec(index), split_char_spec(strip_spaces_spec(s), ';'), 0, g)
}

fn ko_option_code_exec(t: &str) -> (r: Option<u8>)
    ensures
        r == ko_option_code(t@),
{
    if str_eq(t, "ko_option_activation_trigger_down") || str_eq(t, "option_activation_trigger_down")
        || str_eq(t, "activation_trigger_down") {
        Some(0u8)
    } else if str_eq(t, "ko_option_activation_required_mod_down") || str_eq(
        t,
        "option_activation_required_mod_down",
    ) || str_eq(t, "activation_required_mod_down") {
        Some(1u8)
    } else if str_eq(t, "ko_option_activation_negative_mod_up") || str_eq(
        t,
        "option_activation_negative_mod_up",
    ) || str_eq(t, "activation_negative_mod_up") {
        Some(2u8)
    } else if str_eq(t, "ko_option_one_mod") || str_eq(t, "option_one_mod") || str_eq(
        t,
        "one_mod",
    ) {
        Some(3u8)
    } else if str_eq(t, "ko_option_no_reregister_trigger") || str_eq(
        t,
        "option_no_reregister_trigger",
    ) || str_eq(t, "no_reregister_trigger") {
        Some(4u8)
    } else if str_eq(t, "ko_option_no_unregister_on_other_key_down") || str_eq(
        t,
        "option_no_unregister_on_other_key_down",
    ) || str_eq(t, "no_unregister_on_other_key_down") {
        Some(5u8)
    } else if str_eq(t, "ko_enabled") || str_eq(t, "enabled") {
        Some(7u8)
    } else {
        None
    }
}

fn ko_set_option_exec(ko: KeyOverride, code: u8) -> (r: KeyOverride)
    ensures
        r == ko_set_option(ko, code),
{
    if code == 0 {
        KeyOverride { ko_option_activation_trigger_down: true, ..ko }
    } else if code == 1 {
        KeyOverride { ko_option_activation_required_mod_down: true, ..ko }
    } else if code == 2 {
        KeyOverride { ko_option_activation_negative_mod_up: true, ..ko }
    } else if code == 3 {
        KeyOverride { ko_option_one_mod: true, ..ko }
    } else if code == 4 {
        KeyOverride { ko_option_no_reregister_trigger: true, ..ko }
    } else if code == 5 {
        KeyOverride { ko_option_no_unregister_on_other_key_down: true, ..ko }
    } else {
        KeyOverride { ko_enabled: true, ..ko }
    }
}

fn ko_unknown_error(prefix: &str, what: &str) -> (r: keycodes::KeyParsingError) {
    let mut m = String::from_str(prefix);
    m.append(what);
    keycodes::KeyParsingError(m)
}

fn ko_apply_part_exec(ko: KeyOverride, part: &str, vial_version: u32) -> (r: Result<
    KeyOverride,
    keycodes::KeyParsingError,
>)
    requires
        part.is_ascii(),
    ensures
        r is Ok <==> ko_apply_part(ko, part@, generation_of_spec(vial_version)) is Some,
        r is Ok ==> ko_apply_part(ko, part@, generation_of_spec(vial_version)) == Some(r.unwrap()),
{
    proof {
        lemma_find_char_spec(part@, '=');
    }
    let n = part.unicode_len();
    match find_char(part, '=') {
        None => Err(keycodes::KeyParsingError(String::from_str("each part should contain ="))),
        Some(i) => {
            let left = part.substring_ascii(0, i);
            let right = part.substring_ascii(i + 1, n);
            if str_eq(left, "trigger") || str_eq(left, "t") {
                match keycodes::name_to_qid(right, vial_version) {
                    Ok(k) => Ok(KeyOverride { trigger: k, ..ko }),
                    Err(e) => Err(e),
                }
            } else if str_eq(left, "replacement") || str_eq(left, "r") {
                match keycodes::name_to_qid(right, vial_version) {
                    Ok(k) => Ok(KeyOverride { replacement: k, ..ko }),
                    Err(e) => Err(e),
                }
            } else if str_eq(left, "layers") || str_eq(left, "l") {
                let toks = split_char(right, '|');
                let ghost tv = strings_view(toks@);
                let m = toks.len();
                let mut mask: u16 = 0;
                let mut j: usize = 0;
                while j < m
                    invariant
                        m == toks@.len(),
                        j <= m,
                        tv == strings_view(toks@),
                        part.is_ascii(),
                        n == part@.len(),
                        0 <= i < n,
                        find_char_spec(part@, '=') == Some(i as int),
                        part@.subrange(0, i as int) == "layers"@ || part@.subrange(0, i as int)
                            == "l"@,
                        !(part@.subrange(0, i as int) == "trigger"@ || part@.subrange(0, i as int)
                            == "t"@ || part@.subrange(0, i as int) == "replacement"@
                            || part@.subrange(0, i as int) == "r"@),
                        tv == split_char_spec(part@.subrange(i + 1, part@.len() as int), '|'),
                        forall|k: int| 0 <= k < m ==> vstd::utf8::is_ascii_chars(#[trigger] tv[k]),
                        ko_layers_mask(0u16, tv, 0) == ko_layers_mask(mask, tv, j as int),
                    decreases m - j,
                {
                    assert(tv[j as int] == toks@[j as int]@);
                    match parse_u16(toks[j].as_str()) {
                        Some(l) => {
                            if l >= 16 {
                                return Err(
                                    keycodes::KeyParsingError(
                                        String::from_str("layer number out of range"),
                                    ),
                                );
                            }
                            mask = mask | (1u16 << l);
                        },
                        None => {
                            return Err(
                                keycodes::KeyParsingError(
                                    String::from_str("layer number should be num"),
                                ),
                            );
                        },
                    }
                    j = j + 1;
                }
                Ok(KeyOverride { layers: mask, ..ko })
            } else if str_eq(left, "trigger_mods") || str_eq(left, "tm") || str_eq(left, "m") {
                match keycodes::name_to_bitmod(right) {
                    Ok(m) => Ok(KeyOverride { trigger_mods: m, ..ko }),
                    Err(e) => Err(e),
                }
            } else if str_eq(left, "negative_mod_mask") || str_eq(left, "nmm") || str_eq(
                left,
                "n",
            ) {
                match keycodes::name_to_bitmod(right) {
                    Ok(m) => Ok(KeyOverride { negative_mod_mask: m, ..ko }),
                    Err(e) => Err(e),
                }
            } else if str_eq(left, "suppressed_mods") || str_eq(left, "sm") || str_eq(left, "s") {
                match keycodes::name_to_bitmod(right) {
                    Ok(m) => Ok(KeyOverride { suppressed_mods: m, ..ko }),
                    Err(e) => Err(e),
                }
            } else if str_eq(left, "options") || str_eq(left, "option") || str_eq(left, "opt")
                || str_eq(left, "o") {
                let toks = split_char(right, '|');
                let ghost tv = strings_view(toks@);
                let m = toks.len();
                let mut cur = ko;
                let mut j: usize = 0;
                while j < m
                    invariant
                        m == toks@.len(),
                        j <= m,
                        tv == strings_view(toks@),
                        part.is_ascii(),
                        n == part@.len(),
                        0 <= i < n,
                        find_char_spec(part@, '=') == Some(i as int),
                        part@.subrange(0, i as int) == "options"@ || part@.subrange(0, i as int)
                            == "option"@ || part@.subrange(0, i as int) == "opt"@ || part@.subrange(
                            0,
                            i as int,
                        ) == "o"@,
                        !(part@.subrange(0, i as int) == "trigger"@ || part@.subrange(0, i as int)
                            == "t"@ || part@.subrange(0, i as int) == "replacement"@
                            || part@.subrange(0, i as int) == "r"@ || part@.subrange(0, i as int)
                            == "layers"@ || part@.subrange(0, i as int) == "l"@ || part@.subrange(
                            0,
                            i as int,
                        ) == "trigger_mods"@ || part@.subrange(0, i as int) == "tm"@
                            || part@.subrange(0, i as int) == "m"@ || part@.subrange(0, i as int)
                            == "negative_mod_mask"@ || part@.subrange(0, i as int) == "nmm"@
                            || part@.subrange(0, i as int) == "n"@ || part@.subrange(0, i as int)
                            == "suppressed_mods"@ || part@.subrange(0, i as int) == "sm"@
                            || part@.subrange(0, i as int) == "s"@),
                        tv == split_char_spec(part@.subrange(i + 1, part@.len() as int), '|'),
                        ko_apply_option_tokens(ko, tv, 0) == ko_apply_option_tokens(
                            cur,
                            tv,
                            j as int,
                        ),
                    decreases m - j,
                {
                    assert(tv[j as int] == toks@[j as int]@);
                    match ko_option_code_exec(toks[j].as_str()) {
                        Some(code) => {
                            cur = ko_set_option_exec(cur, code);
                        },
                        None => {
                            return Err(ko_unknown_error("Unknown option ", toks[j].as_str()));
                        },
                    }
                    j = j + 1;
                }
                Ok(cur)
            } else {
                Err(ko_unknown_error("Unknown setting ", left))
            }
        },
    }
}


/// The key override after one JSON member: keycodes are given as names,
/// masks and the options byte as numbers; an unknown member name resolves
/// to nothing.
pub open spec fn ko_json_member(ko: KeyOverride, key: Seq<char>, val: JsonValue, g: Generation) -> Option<
    KeyOverride,
> {
    if key == "trigger"@ {
        match val {
            JsonValue::Str(t) => match name_to_qid_spec(t@, g) {
                Some(k) => Some(KeyOverride { trigger: k, ..ko }),
                None => None,
            },
            _ => None,
        }
    } else if key == "replacement"@ {
        match val {
            JsonValue::Str(t) => match name_to_qid_spec(t@, g) {
                Some(k) => Some(KeyOverride { replacement: k, ..ko }),
                None => None,
            },
            _ => None,
        }
    } else if key == "layers"@ {
        match val {
            JsonValue::UInt(v) => Some(KeyOverride { layers: v as u16, ..ko }),
            _ => None,
        }
    } else if key == "trigger_mods"@ {
        match val {
            JsonValue::UInt(v) => Some(KeyOverride { trigger_mods: v as u8, ..ko }),
            _ => None,
        }
    } else if key == "negative_mod_mask"@ {
        match val {
            JsonValue::UInt(v) => Some(KeyOverride { negative_mod_mask: v as u8, ..ko }),
            _ => None,
        }
    } else if key == "suppressed_mods"@ {
        match val {
            JsonValue::UInt(v) => Some(KeyOverride { suppressed_mods: v as u8, ..ko }),
            _ => None,
        }
    } else if key == "options"@ {
        match val {
            JsonValue::UInt(v) => Some(ko_with_options(ko, v as u8)),
            _ => None,
        }
    } else {
        None
    }
}

/// The key override after a whole JSON object, members applied in order
/// over the all-clear record.
pub open spec fn ko_json_fold(
    ko: KeyOverride,
    members: Seq<(String, JsonValue)>,
    p: int,
    g: Generation,
) -> Option<KeyOverride>
    decreases members.len() - p,
{
    if p < 0 || p > members.len() {
        None
    } else if p == members.len() {
        Some(ko)
    } else {
        match ko_json_member(ko, members[p].0@, members[p].1, g) {
            None => None,
            Some(k2) => ko_json_fold(k2, members, p + 1, g),
        }
    }
}

/// Resolution of a whole JSON key override.
pub open spec fn ko_from_json_spec(index: u8, v: JsonValue, g: Generation) -> Option<KeyOverride> {
    match v {
        JsonValue::Obj(members) => ko_json_fold(ko_empty_spec(index), members@, 0, g),
        _ => None,
    }
}

impl KeyOverride {
    /// Parses `key=value;`-style attribute text, with short aliases, into
    /// an indexed key override; unnamed attributes keep their cleared
    /// values.
    pub fn from_string(index: u8, value: &str, vial_version: u32) -> (r: Result<
        KeyOverride,
        keycodes::KeyParsingError,
    >)
        ensures
            value.is_ascii() ==> {
                let spec_r = ko_from_string_spec(index, value@, generation_of_spec(vial_version));
                &&& r is Ok <==> spec_r is Some
                &&& r is Ok ==> spec_r == Some(r.unwrap())
            },
    {
        if !value.is_ascii() {
            return Err(keycodes::KeyParsingError(String::from_str("text is not ascii")));
        }
        let spaceless = remove_spaces(value);
        let parts = split_char(spaceless.as_str(), ';');
        let ghost pv = strings_view(parts@);
        let ghost g = generation_of_spec(vial_version);
        let n = parts.len();
        let mut cur = KeyOverride::empty(index);
        let mut p: usize = 0;
        while p < n
            invariant
                n == parts@.len(),
                p <= n,
                pv == strings_view(parts@),
                g == generation_of_spec(vial_version),
                pv == split_char_spec(strip_spaces_spec(value@), ';'),
                value.is_ascii(),
                forall|k: int| 0 <= k < n ==> vstd::utf8::is_ascii_chars(#[trigger] pv[k]),
                ko_fold(ko_empty_spec(index), pv, 0, g) == ko_fold(cur, pv, p as int, g),
            decreases n - p,
        {
            assert(pv[p as int] == parts@[p as int]@);
            if parts[p].as_str().unicode_len() > 0 {
                match ko_apply_part_exec(cur, parts[p].as_str(), vial_version) {
                    Ok(k2) => {
                        cur = k2;
                    },
                    Err(e) => {
                        return Err(e);
                    },
                }
            }
            p = p + 1;
        }
        Ok(cur)
    }

    /// Parses a JSON object of named fields into an indexed key override;
    /// keycodes are given as names, masks and options as numbers.
    pub fn from_json(index: u8, key_override_json: &JsonValue, vial_version: u32) -> (r: Result<
        KeyOverride,
        keycodes::KeyParsingError,
    >)
        ensures
            r is Ok <==> ko_from_json_spec(
                index,
                *key_override_json,
                generation_of_spec(vial_version),
            ) is Some,
            r is Ok ==> ko_from_json_spec(
                index,
                *key_override_json,
                generation_of_spec(vial_version),
            ) == Some(r.unwrap()),
    {
        let ghost g = generation_of_spec(vial_version);
        let members = match key_override_json.as_object() {
            Some(v) => v,
            None => {
                return Err(
                    keycodes::KeyParsingError(
                        String::from_str("key_override element should be an object"),
                    ),
                );
            },
        };
        let n = members.len();
        let mut cur = KeyOverride::empty(index);
        let mut p: usize = 0;
        while p < n
            invariant
                n == members@.len(),
                p <= n,
                g == generation_of_spec(vial_version),
                *key_override_json == JsonValue::Obj(*members),
                ko_json_fold(ko_empty_spec(index), members@, 0, g) == ko_json_fold(
                    cur,
                    members@,
                    p as int,
                    g,
                ),
            decreases n - p,
        {
            let key = &members[p].0;
            let val = &members[p].1;
            let next: KeyOverride;
            if str_eq(key.as_str(), "trigger") {
                let name = match val.as_str() {
                    Some(t) => t,
                    None => {
                        return Err(
                            keycodes::KeyParsingError(
                                String::from_str("trigger value should be string"),
                            ),
                        );
                    },
                };
                match keycodes::name_to_qid(name, vial_version) {
                    Ok(k) => {
                        next = KeyOverride { trigger: k, ..cur };
                    },
                    Err(e) => {
                        return Err(e);
                    },
                }
            } else if str_eq(key.as_str(), "replacement") {
                let name = match val.as_str() {
                    Some(t) => t,
                    None => {
                        return Err(
                            keycodes::KeyParsingError(
                                String::from_str("replacement value should be string"),
                            ),
                        );
                    },
                };
                match keycodes::name_to_qid(name, vial_version) {
                    Ok(k) => {
                        next = KeyOverride { replacement: k, ..cur };
                    },
                    Err(e) => {
                        return Err(e);
                    },
                }
            } else if str_eq(key.as_str(), "layers") {
                match val.as_u64() {
                    Some(v) => {
                        proof {
                            crate::strutil::lemma_u64_low16(v);
                        }
                        next = KeyOverride { layers: (v % 65536) as u16, ..cur };
                    },
                    None => {
                        return Err(
                            keycodes::KeyParsingError(
                                String::from_str("layer value should be a number"),
                            ),
                        );
                    },
                }
            } else if str_eq(key.as_str(), "trigger_mods") {
                match val.as_u64() {
                    Some(v) => {
                        proof {
                            crate::strutil::lemma_u64_low8(v);
                        }
                        next = KeyOverride { trigger_mods: (v % 256) as u8, ..cur };
                    },
                    None => {
                        return Err(
                            keycodes::KeyParsingError(
                                String::from_str("trigger_mods value should be a number"),
                            ),
                        );
                    },
                }
            } else if str_eq(key.as_str(), "negative_mod_mask") {
                match val.as_u64() {
                    Some(v) => {
                        proof {
                            crate::strutil::lemma_u64_low8(v);
                        }
                        next = KeyOverride { negative_mod_mask: (v % 256) as u8, ..cur };
                    },
                    None => {
                        return Err(
                            keycodes::KeyParsingError(
                                String::from_str("negative_mod_mask value should be a number"),
                            ),
                        );
                    },
                }
            } else if str_eq(key.as_str(), "suppressed_mods") {
                match val.as_u64() {
                    Some(v) => {
                        proof {
                            crate::strutil::lemma_u64_low8(v);
                        }
                        next = KeyOverride { suppressed_mods: (v % 256) as u8, ..cur };
                    },
                    None => {
                        return Err(
                            keycodes::KeyParsingError(
                                String::from_str("suppressed_mods value should be a number"),
                            ),
                        );
                    },
                }
            } else if str_eq(key.as_str(), "options") {
                match val.as_u64() {
                    Some(v) => {
                        proof {
                            crate::strutil::lemma_u64_low8(v);
                        }
                        let o: u8 = (v % 256) as u8;
                        next = KeyOverride {
                            ko_option_activation_trigger_down: o & 1 == 1,
                            ko_option_activation_required_mod_down: o & 2 == 2,
                            ko_option_activation_negative_mod_up: o & 4 == 4,
                            ko_option_one_mod: o & 8 == 8,
                            ko_option_no_reregister_trigger: o & 16 == 16,
                            ko_option_no_unregister_on_other_key_down: o & 32 == 32,
                            ko_enabled: o & 128 == 128,
                            ..cur
                        };
                        assert(next == ko_with_options(cur, o));
                    },
                    None => {
                        return Err(
                            keycodes::KeyParsingError(
                                String::from_str("options value should be a number"),
                            ),
                        );
                    },
                }
            } else {
                return Err(ko_unknown_error("Unknown key_override key ", key.as_str()));
            }
            cur = next;
            p = p + 1;
        }
        Ok(cur)
    }
}

/// What the rendered JSON of one key override holds: each wire-relevant
/// field under its name.
/// What the rendered JSON of one key override holds: each wire-relevant
/// field under its name.
pub open spec fn ko_json_matches(jv: JsonValue, ko: KeyOverride, g: Generation) -> bool {
    jv matches JsonValue::Obj(members) && members@.len() == 7 && members@[0].0@ == "trigger"@ && (
    members@[0].1 matches JsonValue::Str(t) && t@ == qid_name_spec(ko.trigger, g))
        && members@[1].0@ == "replacement"@ && (members@[1].1 matches JsonValue::Str(rp) && rp@
        == qid_name_spec(ko.replacement, g)) && members@[2].0@ == "layers"@ && members@[2].1
        == JsonValue::UInt(ko.layers as u64) && members@[3].0@ == "trigger_mods"@ && members@[3].1
        == JsonValue::UInt(ko.trigger_mods as u64) && members@[4].0@ == "negative_mod_mask"@
        && members@[4].1 == JsonValue::UInt(ko.negative_mod_mask as u64) && members@[5].0@
        == "suppressed_mods"@ && members@[5].1 == JsonValue::UInt(ko.suppressed_mods as u64)
        && members@[6].0@ == "options"@ && members@[6].1 == JsonValue::UInt(
        ko_options_spec(ko) as u64,
    )
}

/// Renders a key-override list as JSON objects with named fields.
pub fn key_overrides_to_json(key_overrides: &Vec<KeyOverride>, vial_version: u32) -> (r: Result<
    Vec<JsonValue>,
    keycodes::KeyParsingError,
>)
    ensures
        r is Ok,
        r.unwrap()@.len() == key_overrides@.len(),
        forall|i: int|
            0 <= i < key_overrides@.len() ==> ko_json_matches(
                #[trigger] r.unwrap()@[i],
                key_overrides@[i],
                generation_of_spec(vial_version),
            ),
{
    let n = key_overrides.len();
    let mut result: Vec<JsonValue> = Vec::new();
    let mut i: usize = 0;
    while i < n
        invariant
            n == key_overrides@.len(),
            i <= n,
            result@.len() == i,
            forall|k: int|
                0 <= k < i ==> ko_json_matches(
                    #[trigger] result@[k],
                    key_overrides@[k],
                    generation_of_spec(vial_version),
                ),
        decreases n - i,
    {
        let ko = &key_overrides[i];
        let mut members: Vec<(String, JsonValue)> = Vec::new();
        members.push(
            (
                String::from_str("trigger"),
                JsonValue::Str(keycodes::qid_to_name(ko.trigger, vial_version)),
            ),
        );
        members.push(
            (
                String::from_str("replacement"),
                JsonValue::Str(keycodes::qid_to_name(ko.replacement, vial_version)),
            ),
        );
        members.push((String::from_str("layers"), JsonValue::UInt(ko.layers as u64)));
        members.push((String::from_str("trigger_mods"), JsonValue::UInt(ko.trigger_mods as u64)));
        members.push(
            (String::from_str("negative_mod_mask"), JsonValue::UInt(ko.negative_mod_mask as u64)),
        );
        members.push(
            (String::from_str("suppressed_mods"), JsonValue::UInt(ko.suppressed_mods as u64)),
        );
        members.push((String::from_str("options"), JsonValue::UInt(ko.options() as u64)));
        result.push(JsonValue::Obj(members));
        i = i + 1;
    }
    Ok(result)
}

/// Parses a JSON array of key overrides, one per element, indexed in
/// order.
pub fn load_key_overrides_from_json(key_overrides_json: &JsonValue, vial_version: u32) -> (r: Result<
    Vec<KeyOverride>,
    keycodes::KeyParsingError,
>)
    ensures
        r is Ok <==> (key_overrides_json matches JsonValue::Arr(items) && (forall|i: int|
            0 <= i < items@.len() ==> ko_from_json_spec(
                (i % 256) as u8,
                #[trigger] items@[i],
                generation_of_spec(vial_version),
            ) is Some)),
        r is Ok ==> (key_overrides_json matches JsonValue::Arr(items) && r.unwrap()@.len() == items@.len() && (
        forall|i: int|
            0 <= i < items@.len() ==> Some(r.unwrap()@[i]) == ko_from_json_spec(
                (i % 256) as u8,
                #[trigger] items@[i],
                generation_of_spec(vial_version),
            ))),
{
    let ghost g = generation_of_spec(vial_version);
    let items = match key_overrides_json.as_array() {
        Some(v) => v,
        None => {
            return Err(
                keycodes::KeyParsingError(String::from_str("key_override should be an array")),
            );
        },
    };
    let n = items.len();
    let mut result: Vec<KeyOverride> = Vec::new();
    let mut i: usize = 0;
    while i < n
        invariant
            n == items@.len(),
            i <= n,
            result@.len() == i,
            g == generation_of_spec(vial_version),
            *key_overrides_json == JsonValue::Arr(*items),
            forall|k: int|
                0 <= k < i ==> Some(result@[k]) == ko_from_json_spec(
                    (k % 256) as u8,
                    #[trigger] items@[k],
                    g,
                ),
        decreases n - i,
    {
        match KeyOverride::from_json((i % 256) as u8, &items[i], vial_version) {
            Ok(v) => {
                result.push(v);
            },
            Err(e) => {
                proof {
                    assert(ko_from_json_spec((i as int % 256) as u8, items@[i as int], g) is None);
                }
                return Err(e);
            },
        }
        i = i + 1;
    }
    Ok(result)
}


fn bool_str(b: bool) -> (r: &'static str)
    ensures
        r@ == crate::strutil::bool_text_spec(b),
{
    if b {
        "true"
    } else {
        "false"
    }
}

/// Display text of the `|`-joined list of set layer numbers, scanning
/// bits `l` and up; `first` says whether no number has been printed yet.
pub open spec fn ko_layers_text(layers: u16, l: int, first: bool) -> Seq<char>
    decreases 16 - l,
{
    if l < 0 || l >= 16 {
        Seq::empty()
    } else {
        let bit = layers & ((1u16 << (l as u16)) as u16) != 0;
        if bit {
            (if first {
                Seq::<char>::empty()
            } else {
                "|"@
            }) + crate::strutil::dec_str_spec(l) + ko_layers_text(layers, l + 1, false)
        } else {
            ko_layers_text(layers, l + 1, first)
        }
    }
}

/// Display text of a key override: its index, then `EMPTY`, or each field
/// on its own line, keycodes in the current generation's names, the layer
/// mask as `|`-joined layer numbers.
pub open spec fn ko_text_spec(ko: KeyOverride) -> Seq<char> {
    let s = crate::strutil::dec_str_spec(ko.index as int) + ") "@;
    if ko.trigger == 0 && !ko.ko_enabled {
        s + "EMPTY"@
    } else {
        s + "trigger = "@ + qid_name_spec(ko.trigger, Generation::Current) + "; replacement = "@
            + qid_name_spec(ko.replacement, Generation::Current) + "; layers = "@ + ko_layers_text(
            ko.layers,
            0,
            true,
        ) + ";"@ + "\n\ttrigger_mods = "@ + crate::keycodes::bitmod_to_name_spec(ko.trigger_mods)
            + ";\n\tnegative_mod_mask = "@ + crate::keycodes::bitmod_to_name_spec(
            ko.negative_mod_mask,
        ) + ";\n\tsuppressed_mods = "@ + crate::keycodes::bitmod_to_name_spec(ko.suppressed_mods)
            + ";\n\tko_option_activation_trigger_down = "@ + crate::strutil::bool_text_spec(
            ko.ko_option_activation_trigger_down,
        ) + "\n\tko_option_activation_required_mod_down = "@ + crate::strutil::bool_text_spec(
            ko.ko_option_activation_required_mod_down,
        ) + "\n\tko_option_activation_negative_mod_up = "@ + crate::strutil::bool_text_spec(
            ko.ko_option_activation_negative_mod_up,
        ) + "\n\tko_option_one_mod = "@ + crate::strutil::bool_text_spec(ko.ko_option_one_mod)
            + "\n\tko_option_no_reregister_trigger = "@ + crate::strutil::bool_text_spec(
            ko.ko_option_no_reregister_trigger,
        ) + "\n\tko_option_no_unregister_on_other_key_down = "@
            + crate::strutil::bool_text_spec(ko.ko_option_no_unregister_on_other_key_down)
            + "\n\tko_enabled = "@ + crate::strutil::bool_text_spec(ko.ko_enabled)
    }
}

impl KeyOverride {
    /// Renders the key override for display: each field on its own line,
    /// keycodes in the current generation's names, the layer mask as
    /// `|`-joined layer numbers.
    pub fn to_text(&self) -> (r: String)
        ensures
            r@ == ko_text_spec(*self),
    {
        let mut m = crate::strutil::dec_string(self.index as u16);
        m.append(") ");
        if self.trigger == 0 && !self.ko_enabled {
            m.append("EMPTY");
            assert(m@ =~= ko_text_spec(*self));
            return m;
        }
        m.append("trigger = ");
        let t = crate::keycodes::qid_to_name(self.trigger, 6);
        m.append(t.as_str());
        m.append("; replacement = ");
        let rp = crate::keycodes::qid_to_name(self.replacement, 6);
        m.append(rp.as_str());
        m.append("; layers = ");
        let ghost base = m@;
        let mut first = true;
        let mut l: u8 = 0;
        while l < 16
            invariant
                l <= 16,
                base + ko_layers_text(self.layers, 0, true) == m@ + ko_layers_text(
                    self.layers,
                    l as int,
                    first,
                ),
            decreases 16 - l,
        {
            let ghost pre = m@;
            let ghost pre_first = first;
            if self.layers & (1u16 << (l as u16)) != 0 {
                if !first {
                    m.append("|");
                }
                let d = crate::strutil::dec_string(l as u16);
                m.append(d.as_str());
                first = false;
                proof {
                    let sep: Seq<char> = if pre_first {
                        Seq::<char>::empty()
                    } else {
                        "|"@
                    };
                    assert(m@ =~= pre + sep + crate::strutil::dec_str_spec(l as int));
                    assert(ko_layers_text(self.layers, l as int, pre_first) == sep
                        + crate::strutil::dec_str_spec(l as int) + ko_layers_text(
                        self.layers,
                        l + 1,
                        false,
                    ));
                    assert(pre + (sep + crate::strutil::dec_str_spec(l as int) + ko_layers_text(
                        self.layers,
                        l + 1,
                        false,
                    )) =~= (pre + sep + crate::strutil::dec_str_spec(l as int)) + ko_layers_text(
                        self.layers,
                        l + 1,
                        false,
                    ));
                }
            }
            l = l + 1;
        }
        proof {
            assert(ko_layers_text(self.layers, 16, first) =~= Seq::<char>::empty());
            assert(m@ + Seq::<char>::empty() =~= m@);
            assert(m@ =~= base + ko_layers_text(self.layers, 0, true));
        }
        m.append(";");
        m.append("\n\ttrigger_mods = ");
        let tm = crate::keycodes::bitmod_to_name(self.trigger_mods);
        m.append(tm.as_str());
        m.append(";\n\tnegative_mod_mask = ");
        let nm = crate::keycodes::bitmod_to_name(self.negative_mod_mask);
        m.append(nm.as_str());
        m.append(";\n\tsuppressed_mods = ");
        let sm = crate::keycodes::bitmod_to_name(self.suppressed_mods);
        m.append(sm.as_str());
        m.append(";\n\tko_option_activation_trigger_down = ");
        m.append(bool_str(self.ko_option_activation_trigger_down));
        m.append("\n\tko_option_activation_required_mod_down = ");
        m.append(bool_str(self.ko_option_activation_required_mod_down));
        m.append("\n\tko_option_activation_negative_mod_up = ");
        m.append(bool_str(self.ko_option_activation_negative_mod_up));
        m.append("\n\tko_option_one_mod = ");
        m.append(bool_str(self.ko_option_one_mod));
        m.append("\n\tko_option_no_reregister_trigger = ");
        m.append(bool_str(self.ko_option_no_reregister_trigger));
        m.append("\n\tko_option_no_unregister_on_other_key_down = ");
        m.append(bool_str(self.ko_option_no_unregister_on_other_key_down));
        m.append("\n\tko_enabled = ");
        m.append(bool_str(self.ko_enabled));
        assert(m@ =~= ko_text_spec(*self));
        m
    }
}


/// The JSON round trip preserves every wire-relevant field of a key
/// override: rendering one to JSON and reading the JSON back gives the
/// same record, whenever each keycode's printed name resolves back to it.
pub proof fn lemma_ko_json_round_trip(ko: KeyOverride, jv: JsonValue, g: Generation)
    requires
        ko_json_matches(jv, ko, g),
        name_to_qid_spec(qid_name_spec(ko.trigger, g), g) == Some(ko.trigger),
        name_to_qid_spec(qid_name_spec(ko.replacement, g), g) == Some(ko.replacement),
    ensures
        ko_from_json_spec(ko.index, jv, g) matches Some(r) && r.trigger == ko.trigger
            && r.replacement == ko.replacement && r.layers == ko.layers && r.trigger_mods
            == ko.trigger_mods && r.negative_mod_mask == ko.negative_mod_mask && r.suppressed_mods
            == ko.suppressed_mods && ko_options_spec(r) == ko_options_spec(ko) && r.index
            == ko.index,
{
    reveal_strlit("trigger");
    reveal_strlit("replacement");
    reveal_strlit("layers");
    reveal_strlit("trigger_mods");
    reveal_strlit("negative_mod_mask");
    reveal_strlit("suppressed_mods");
    reveal_strlit("options");
    assert("trigger"@.len() == 7);
    assert("replacement"@.len() == 11);
    assert("layers"@.len() == 6);
    assert("trigger_mods"@.len() == 12);
    assert("negative_mod_mask"@.len() == 17);
    assert("suppressed_mods"@.len() == 15);
    assert("options"@.len() == 7);
    seq_ne_obj("options"@, "trigger"@, 0);
    let members = jv->Obj_0;
    let k0 = ko_empty_spec(ko.index);
    let k1 = KeyOverride { trigger: ko.trigger, ..k0 };
    let k2 = KeyOverride { replacement: ko.replacement, ..k1 };
    let k3 = KeyOverride { layers: ko.layers, ..k2 };
    let k4 = KeyOverride { trigger_mods: ko.trigger_mods, ..k3 };
    let k5 = KeyOverride { negative_mod_mask: ko.negative_mod_mask, ..k4 };
    let k6 = KeyOverride { suppressed_mods: ko.suppressed_mods, ..k5 };
    let k7 = ko_with_options(k6, ko_options_spec(ko));
    assert((ko.layers as u64) as u16 == ko.layers);
    assert((ko.trigger_mods as u64) as u8 == ko.trigger_mods);
    assert(ko_json_member(k0, members@[0].0@, members@[0].1, g) == Some(k1));
    assert(ko_json_member(k1, members@[1].0@, members@[1].1, g) == Some(k2));
    assert(ko_json_member(k2, members@[2].0@, members@[2].1, g) == Some(k3));
    assert(ko_json_member(k3, members@[3].0@, members@[3].1, g) == Some(k4));
    assert(ko_json_member(k4, members@[4].0@, members@[4].1, g) == Some(k5));
    assert(ko_json_member(k5, members@[5].0@, members@[5].1, g) == Some(k6));
    assert(ko_json_member(k6, members@[6].0@, members@[6].1, g) == Some(k7));
    assert(ko_json_fold(k0, members@, 0, g) == ko_json_fold(k1, members@, 1, g));
    assert(ko_json_fold(k1, members@, 1, g) == ko_json_fold(k2, members@, 2, g));
    assert(ko_json_fold(k2, members@, 2, g) == ko_json_fold(k3, members@, 3, g));
    assert(ko_json_fold(k3, members@, 3, g) == ko_json_fold(k4, members@, 4, g));
    assert(ko_json_fold(k4, members@, 4, g) == ko_json_fold(k5, members@, 5, g));
    assert(ko_json_fold(k5, members@, 5, g) == ko_json_fold(k6, members@, 6, g));
    assert(ko_json_fold(k6, members@, 6, g) == ko_json_fold(k7, members@, 7, g));
    assert(ko_json_fold(k7, members@, 7, g) == Some(k7));
    assert(ko_json_fold(k0, members@, 0, g) == Some(k7));
    lemma_options_bits(ko, k7);
}

/// Reading back the packed options byte restores each flag.
proof fn lemma_options_bits(ko: KeyOverride, r: KeyOverride)
    requires
        r.ko_option_activation_trigger_down == (ko_options_spec(ko) & 1 == 1),
        r.ko_option_activation_required_mod_down == (ko_options_spec(ko) & 2 == 2),
        r.ko_option_activation_negative_mod_up == (ko_options_spec(ko) & 4 == 4),
        r.ko_option_one_mod == (ko_options_spec(ko) & 8 == 8),
        r.ko_option_no_reregister_trigger == (ko_options_spec(ko) & 16 == 16),
        r.ko_option_no_unregister_on_other_key_down == (ko_options_spec(ko) & 32 == 32),
        r.ko_enabled == (ko_options_spec(ko) & 128 == 128),
    ensures
        ko_options_spec(r) == ko_options_spec(ko),
{
    let a: u8 = if ko.ko_option_activation_trigger_down { 1u8 } else { 0u8 };
    let b: u8 = if ko.ko_option_activation_required_mod_down { 2u8 } else { 0u8 };
    let c: u8 = if ko.ko_option_activation_negative_mod_up { 4u8 } else { 0u8 };
    let d: u8 = if ko.ko_option_one_mod { 8u8 } else { 0u8 };
    let e: u8 = if ko.ko_option_no_reregister_trigger { 16u8 } else { 0u8 };
    let f: u8 = if ko.ko_option_no_unregister_on_other_key_down { 32u8 } else { 0u8 };
    let h: u8 = if ko.ko_enabled { 128u8 } else { 0u8 };
    let o = a | b | c | d | e | f | h;
    assert(ko_options_spec(ko) == o);
    assert(((if o & 1 == 1 { 1u8 } else { 0u8 }) | (if o & 2 == 2 { 2u8 } else { 0u8 }) | (if o & 4
        == 4 { 4u8 } else { 0u8 }) | (if o & 8 == 8 { 8u8 } else { 0u8 }) | (if o & 16 == 16 { 16u8
     } else { 0u8 }) | (if o & 32 == 32 { 32u8 } else { 0u8 }) | (if o & 128 == 128 { 128u8 } else {
        0u8
    })) == o) by (bit_vector)
        requires
            (a == 0 || a == 1) && (b == 0 || b == 2) && (c == 0 || c == 4) && (d == 0 || d == 8) && (
            e == 0 || e == 16) && (f == 0 || f == 32) && (h == 0 || h == 128) && o == (a | b | c | d
                | e | f | h),
    ;
}

/// Two member names differing at one position differ.
proof fn seq_ne_obj(a: Seq<char>, b: Seq<char>, i: int)
    requires
        0 <= i < a.len(),
        0 <= i < b.len(),
        a[i] != b[i],
    ensures
        a != b,
{
    if a == b {
        assert(a[i] == b[i]);
    }
}

} // verus!
