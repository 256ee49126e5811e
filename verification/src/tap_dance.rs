//! Tap dances: four keycode slots and a tapping term, as a fixed wire
//! record, a `K1+K2~TERM` text form and a five-element JSON array.
use vstd::prelude::*;
use vstd::string::StrSliceExecFns;
use vstd::string::StringExecFns;
use crate::json::JsonValue;
use crate::keycodes;
use crate::keycodes::Generation;
use crate::keycodes::generation_of_spec;
use crate::keycodes::name_to_qid_spec;
use crate::keycodes::qid_name_spec;
use crate::protocol;
use crate::strutil::find_char;
use crate::strutil::find_char_spec;
use crate::strutil::lemma_find_char_spec;
use crate::strutil::parse_u16;
use crate::strutil::parse_u16_spec;
use crate::strutil::remove_spaces;
use crate::strutil::strip_spaces_spec;
use crate::strutil::split_char;
use crate::strutil::split_char_spec;
use crate::strutil::strings_view;

verus! {

/// Malformed tap-dance text or JSON.
#[derive(Debug)]
pub struct TapDanceFormatError(pub String);

/// One tap-dance slot: the four action keycodes and the tapping term in
/// milliseconds.
#[derive(Debug, Clone, Copy, PartialEq, Eq, Structural)]
pub struct TapDance {
    pub index: u8,
    pub tap: u16,
    pub hold: u16,
    pub double_tap: u16,
    pub tap_hold: u16,
    pub tapping_term: u16,
}

/// Resolution of a key-name list to the four action slots, missing slots
/// zero; more than four names resolve to nothing.
pub open spec fn td_keys_spec(parts: Seq<Seq<char>>, g: Generation) -> Option<
    (u16, u16, u16, u16),
> {
    if parts.len() > 4 {
        None
    } else {
        let k1 = if parts.len() > 0 {
            name_to_qid_spec(parts[0], g)
        } else {
            Some(0u16)
        };
        let k2 = if parts.len() > 1 {
            name_to_qid_spec(parts[1], g)
        } else {
            Some(0u16)
        };
        let k3 = if parts.len() > 2 {
            name_to_qid_spec(parts[2], g)
        } else {
            Some(0u16)
        };
        let k4 = if parts.len() > 3 {
            name_to_qid_spec(parts[3], g)
        } else {
            Some(0u16)
        };
        match (k1, k2, k3, k4) {
            (Some(a), Some(b), Some(c), Some(d)) => Some((a, b, c, d)),
            _ => None,
        }
    }
}

/// Resolution of `K1+K2+...~TERM` text to a tap dance's fields.
pub open spec fn td_from_string_spec(s: Seq<char>, g: Generation) -> Option<
    (u16, u16, u16, u16, u16),
> {
    match find_char_spec(s, '~') {
        None => None,
        Some(i) => if !(0 <= i < s.len()) {
            None
        } else {
            let term = parse_u16_spec(strip_spaces_spec(s.subrange(i + 1, s.len() as int)));
            let keys = td_keys_spec(split_char_spec(s.subrange(0, i), '+'), g);
            match (term, keys) {
                (Some(t), Some((a, b, c, d))) => Some((a, b, c, d, t)),
                _ => None,
            }
        },
    }
}


/// Resolution of one JSON slot: positions 0 to 3 are key names, position
/// 4 is the tapping term as a number; a missing slot is zero.
pub open spec fn td_slot_spec(items: Seq<JsonValue>, p: int, g: Generation) -> Option<u16> {
    if p >= items.len() {
        Some(0u16)
    } else if p <= 3 {
        match items[p] {
            JsonValue::Str(t) => name_to_qid_spec(t@, g),
            _ => None,
        }
    } else {
        match items[p] {
            JsonValue::UInt(u) => Some(u as u16),
            _ => None,
        }
    }
}

/// Resolution of a whole JSON tap dance: an array of at most five slots.
pub open spec fn td_from_json_spec(index: u8, v: JsonValue, g: Generation) -> Option<TapDance> {
    match v {
        JsonValue::Arr(items) => if items@.len() > 5 {
            None
        } else {
            match (
                td_slot_spec(items@, 0, g),
                td_slot_spec(items@, 1, g),
                td_slot_spec(items@, 2, g),
                td_slot_spec(items@, 3, g),
                td_slot_spec(items@, 4, g),
            ) {
                (Some(a), Some(b), Some(c), Some(d), Some(t)) => Some(
                    TapDance {
                        index,
                        tap: a,
                        hold: b,
                        double_tap: c,
                        tap_hold: d,
                        tapping_term: t,
                    },
                ),
                _ => None,
            }
        },
        _ => None,
    }
}

impl TapDance {
    /// Parses `K1+K2+...~TERM` text into an indexed tap dance.
    pub fn from_string(index: u8, value: &str, vial_version: u32) -> (r: Result<
        TapDance,
        TapDanceFormatError,
    >)
        ensures
            value.is_ascii() ==> {
                let spec_r = td_from_string_spec(value@, generation_of_spec(vial_version));
                &&& r is Ok <==> spec_r is Some
                &&& r is Ok ==> {
                    let (a, b, c, d, t) = spec_r.unwrap();
                    r.unwrap() == (TapDance {
                        index,
                        tap: a,
                        hold: b,
                        double_tap: c,
                        tap_hold: d,
                        tapping_term: t,
                    })
                }
            },
    {
        if !value.is_ascii() {
            return Err(TapDanceFormatError(String::from_str("tap dance text is not ascii")));
        }
        proof {
            lemma_find_char_spec(value@, '~');
        }
        let n = value.unicode_len();
        match find_char(value, '~') {
            None => Err(
                TapDanceFormatError(
                    String::from_str("tapping term in ms should be passed after ~"),
                ),
            ),
            Some(i) => {
                let term_str = value.substring_ascii(i + 1, n);
                let keys_str = value.substring_ascii(0, i);
                let cleaned = remove_spaces(term_str);
                let term = match parse_u16(cleaned.as_str()) {
                    Some(t) => t,
                    None => {
                        return Err(
                            TapDanceFormatError(
                                String::from_str("tapping term should be a number"),
                            ),
                        );
                    },
                };
                let parts = split_char(keys_str, '+');
                if parts.len() > 4 {
                    return Err(
                        TapDanceFormatError(String::from_str("tap dance takes at most 4 keys")),
                    );
                }
                let mut ks: [u16; 4] = [0u16, 0u16, 0u16, 0u16];
                let m = parts.len();
                let ghost pv = strings_view(parts@);
                let mut j: usize = 0;
                while j < m
                    invariant
                        m == parts@.len() <= 4,
                        j <= m,
                        pv == strings_view(parts@),
                        value.is_ascii(),
                        n == value@.len(),
                        0 <= i < n,
                        find_char_spec(value@, '~') == Some(i as int),
                        pv == split_char_spec(value@.subrange(0, i as int), '+'),
                        parse_u16_spec(strip_spaces_spec(value@.subrange(i + 1, value@.len() as int))) == Some(term),
                        forall|k: int| 0 <= k < m ==> vstd::utf8::is_ascii_chars(#[trigger] pv[k]),
                        forall|k: int|
                            0 <= k < j ==> name_to_qid_spec(
                                pv[k],
                                generation_of_spec(vial_version),
                            ) == Some(ks@[k]),
                        forall|k: int| j <= k < 4 ==> ks@[k] == 0u16,
                    decreases m - j,
                {
                    match keycodes::name_to_qid(parts[j].as_str(), vial_version) {
                        Ok(k) => {
                            ks[j] = k;
                        },
                        Err(e) => {
                            return Err(TapDanceFormatError(e.0));
                        },
                    }
                    j = j + 1;
                }
                Ok(TapDance {
                    index,
                    tap: ks[0],
                    hold: ks[1],
                    double_tap: ks[2],
                    tap_hold: ks[3],
                    tapping_term: term,
                })
            },
        }
    }

    /// The all-zero tap dance at an index.
    pub fn empty(index: u8) -> (r: TapDance)
        ensures
            r == (TapDance {
                index,
                tap: 0u16,
                hold: 0u16,
                double_tap: 0u16,
                tap_hold: 0u16,
                tapping_term: 0u16,
            }),
    {
        TapDance { index, tap: 0, hold: 0, double_tap: 0, tap_hold: 0, tapping_term: 0 }
    }

    /// A tap dance is empty when all four action slots are zero; the
    /// tapping term alone does not count.
    pub fn is_empty(&self) -> (r: bool)
        ensures
            r == (self.tap == 0 && self.hold == 0 && self.double_tap == 0 && self.tap_hold == 0),
    {
        self.tap == 0 && self.hold == 0 && self.double_tap == 0 && self.tap_hold == 0
    }

    /// Reads a tap dance from a dynamic-entry response: five low-byte-first
    /// 16-bit fields starting at byte 1.
    pub fn from_wire(index: u8, buff: &[u8]) -> (r: TapDance)
        requires
            buff@.len() >= 11,
        ensures
            r.index == index,
            r.tap == (buff@[1] as u16) | ((buff@[2] as u16) << 8),
            r.hold == (buff@[3] as u16) | ((buff@[4] as u16) << 8),
            r.double_tap == (buff@[5] as u16) | ((buff@[6] as u16) << 8),
            r.tap_hold == (buff@[7] as u16) | ((buff@[8] as u16) << 8),
            r.tapping_term == (buff@[9] as u16) | ((buff@[10] as u16) << 8),
    {
        TapDance {
            index,
            tap: (buff[1] as u16) | ((buff[2] as u16) << 8),
            hold: (buff[3] as u16) | ((buff[4] as u16) << 8),
            double_tap: (buff[5] as u16) | ((buff[6] as u16) << 8),
            tap_hold: (buff[7] as u16) | ((buff[8] as u16) << 8),
            tapping_term: (buff[9] as u16) | ((buff[10] as u16) << 8),
        }
    }

    /// The request that fetches the tap dance at an index.
    pub fn get_request(index: u8) -> (r: Vec<u8>)
        ensures
            r@ =~= seq![
                protocol::CMD_VIA_VIAL_PREFIX,
                protocol::CMD_VIAL_DYNAMIC_ENTRY_OP,
                protocol::DYNAMIC_VIAL_TAP_DANCE_GET,
                index,
            ],
    {
        let mut v: Vec<u8> = Vec::new();
        v.push(protocol::CMD_VIA_VIAL_PREFIX);
        v.push(protocol::CMD_VIAL_DYNAMIC_ENTRY_OP);
        v.push(protocol::DYNAMIC_VIAL_TAP_DANCE_GET);
        v.push(index);
        v
    }

    /// The request that writes this tap dance to the device, fields low
    /// byte first.
    pub fn set_request(&self) -> (r: Vec<u8>)
        ensures
            r@ =~= seq![
                protocol::CMD_VIA_VIAL_PREFIX,
                protocol::CMD_VIAL_DYNAMIC_ENTRY_OP,
                protocol::DYNAMIC_VIAL_TAP_DANCE_SET,
                self.index,
                (self.tap & 0xFF) as u8,
                ((self.tap >> 8) & 0xFF) as u8,
                (self.hold & 0xFF) as u8,
                ((self.hold >> 8) & 0xFF) as u8,
                (self.double_tap & 0xFF) as u8,
                ((self.double_tap >> 8) & 0xFF) as u8,
                (self.tap_hold & 0xFF) as u8,
                ((self.tap_hold >> 8) & 0xFF) as u8,
                (self.tapping_term & 0xFF) as u8,
                ((self.tapping_term >> 8) & 0xFF) as u8,
            ],
    {
        let mut v: Vec<u8> = Vec::new();
        v.push(protocol::CMD_VIA_VIAL_PREFIX);
        v.push(protocol::CMD_VIAL_DYNAMIC_ENTRY_OP);
        v.push(protocol::DYNAMIC_VIAL_TAP_DANCE_SET);
        v.push(self.index);
        v.push((self.tap & 0xFF) as u8);
        v.push(((self.tap >> 8) & 0xFF) as u8);
        v.push((self.hold & 0xFF) as u8);
        v.push(((self.hold >> 8) & 0xFF) as u8);
        v.push((self.double_tap & 0xFF) as u8);
        v.push(((self.double_tap >> 8) & 0xFF) as u8);
        v.push((self.tap_hold & 0xFF) as u8);
        v.push(((self.tap_hold >> 8) & 0xFF) as u8);
        v.push((self.tapping_term & 0xFF) as u8);
        v.push(((self.tapping_term >> 8) & 0xFF) as u8);
        v
    }

    /// Parses one tap dance from a JSON array: up to four key names and
    /// the tapping term as a number.
    pub fn from_json(index: u8, tap_dances_json: &JsonValue, vial_version: u32) -> (r: Result<
        TapDance,
        TapDanceFormatError,
    >)
        ensures
            r is Ok <==> td_from_json_spec(
                index,
                *tap_dances_json,
                generation_of_spec(vial_version),
            ) is Some,
            r is Ok ==> td_from_json_spec(index, *tap_dances_json, generation_of_spec(vial_version))
                == Some(r.unwrap()),
    {
        let ghost g = generation_of_spec(vial_version);
        let values = match tap_dances_json.as_array() {
            Some(v) => v,
            None => {
                return Err(
                    TapDanceFormatError(String::from_str("TapDances should be encoded into array")),
                );
            },
        };
        if values.len() > 5 {
            return Err(
                TapDanceFormatError(
                    String::from_str("TapDance array should be strictly 5 elements long"),
                ),
            );
        }
        let mut ks: [u16; 5] = [0u16, 0u16, 0u16, 0u16, 0u16];
        let m = values.len();
        let mut j: usize = 0;
        while j < m
            invariant
                m == values@.len() <= 5,
                j <= m,
                g == generation_of_spec(vial_version),
                *tap_dances_json == JsonValue::Arr(*values),
                forall|k: int| 0 <= k < j ==> td_slot_spec(values@, k, g) == Some(ks@[k]),
                forall|k: int| j <= k < 5 ==> ks@[k] == 0u16,
            decreases m - j,
        {
            if j <= 3 {
                let name = match values[j].as_str() {
                    Some(t) => t,
                    None => {
                        return Err(
                            TapDanceFormatError(
                                String::from_str("TapDance elements 0-3 should be strings"),
                            ),
                        );
                    },
                };
                match keycodes::name_to_qid(name, vial_version) {
                    Ok(k) => {
                        ks[j] = k;
                    },
                    Err(e) => {
                        return Err(TapDanceFormatError(e.0));
                    },
                }
            } else {
                let v = match values[j].as_u64() {
                    Some(v) => v,
                    None => {
                        return Err(
                            TapDanceFormatError(
                                String::from_str("TapDance 3th element should be positive number"),
                            ),
                        );
                    },
                };
                proof {
                    crate::strutil::lemma_u64_low16(v);
                }
                ks[j] = (v % 65536) as u16;
            }
            j = j + 1;
        }
        Ok(TapDance {
            index,
            tap: ks[0],
            hold: ks[1],
            double_tap: ks[2],
            tap_hold: ks[3],
            tapping_term: ks[4],
        })
    }
}

/// What the rendered JSON of one tap dance holds: four keycode names and
/// the tapping term, in slot order.
pub open spec fn td_json_matches(jv: JsonValue, t: TapDance, g: Generation) -> bool {
    jv matches JsonValue::Arr(a) && a@.len() == 5 && (a@[0] matches JsonValue::Str(s1) && s1@
        == qid_name_spec(t.tap, g)) && (a@[1] matches JsonValue::Str(s2) && s2@ == qid_name_spec(
        t.hold,
        g,
    )) && (a@[2] matches JsonValue::Str(s3) && s3@ == qid_name_spec(t.double_tap, g)) && (a@[3]
        matches JsonValue::Str(s4) && s4@ == qid_name_spec(t.tap_hold, g)) && a@[4]
        == JsonValue::UInt(t.tapping_term as u64)
}

/// Renders a tap-dance list as JSON, four keycode names and the term per
/// entry.
pub fn tap_dances_to_json(tap_dances: &Vec<TapDance>, vial_version: u32) -> (r: Result<
    Vec<JsonValue>,
    TapDanceFormatError,
>)
    ensures
        r is Ok,
        r.unwrap()@.len() == tap_dances@.len(),
        forall|i: int|
            0 <= i < tap_dances@.len() ==> td_json_matches(
                #[trigger] r.unwrap()@[i],
                tap_dances@[i],
                generation_of_spec(vial_version),
            ),
{
    let n = tap_dances.len();
    let mut result: Vec<JsonValue> = Vec::new();
    let mut i: usize = 0;
    while i < n
        invariant
            n == tap_dances@.len(),
            i <= n,
            result@.len() == i,
            forall|k: int|
                0 <= k < i ==> td_json_matches(
                    #[trigger] result@[k],
                    tap_dances@[k],
                    generation_of_spec(vial_version),
                ),
        decreases n - i,
    {
        let t = &tap_dances[i];
        let mut a: Vec<JsonValue> = Vec::new();
        a.push(JsonValue::Str(keycodes::qid_to_name(t.tap, vial_version)));
        a.push(JsonValue::Str(keycodes::qid_to_name(t.hold, vial_version)));
        a.push(JsonValue::Str(keycodes::qid_to_name(t.double_tap, vial_version)));
        a.push(JsonValue::Str(keycodes::qid_to_name(t.tap_hold, vial_version)));
        a.push(JsonValue::UInt(t.tapping_term as u64));
        result.push(JsonValue::Arr(a));
        i = i + 1;
    }
    Ok(result)
}

/// Parses a JSON array of tap dances, one per element, indexed in order.
pub fn load_tap_dances_from_json(tap_dances_json: &JsonValue, vial_version: u32) -> (r: Result<
    Vec<TapDance>,
    TapDanceFormatError,
>)
    ensures
        r is Ok <==> (tap_dances_json matches JsonValue::Arr(items) && (forall|i: int|
            0 <= i < items@.len() ==> td_from_json_spec(
                (i % 256) as u8,
                #[trigger] items@[i],
                generation_of_spec(vial_version),
            ) is Some)),
        r is Ok ==> (tap_dances_json matches JsonValue::Arr(items) && r.unwrap()@.len() == items@.len() && (
        forall|i: int|
            0 <= i < items@.len() ==> Some(r.unwrap()@[i]) == td_from_json_spec(
                (i % 256) as u8,
                #[trigger] items@[i],
                generation_of_spec(vial_version),
            ))),
{
    let ghost g = generation_of_spec(vial_version);
    let items = match tap_dances_json.as_array() {
        Some(v) => v,
        None => {
            return Err(
                TapDanceFormatError(String::from_str("TapDances should be encoded as array")),
            );
        },
    };
    let n = items.len();
    let mut result: Vec<TapDance> = Vec::new();
    let mut i: usize = 0;
    while i < n
        invariant
            n == items@.len(),
            i <= n,
            result@.len() == i,
            g == generation_of_spec(vial_version),
            *tap_dances_json == JsonValue::Arr(*items),
            forall|k: int|
                0 <= k < i ==> Some(result@[k]) == td_from_json_spec(
                    (k % 256) as u8,
                    #[trigger] items@[k],
                    g,
                ),
        decreases n - i,
    {
        match TapDance::from_json((i % 256) as u8, &items[i], vial_version) {
            Ok(v) => {
                result.push(v);
            },
            Err(e) => {
                proof {
                    assert(td_from_json_spec((i as int % 256) as u8, items@[i as int], g) is None);
                }
                return Err(e);
            },
        }
        i = i + 1;
    }
    Ok(result)
}


/// Display text of a tap dance: its index, then `EMPTY`, or each nonzero
/// action slot with its label and the tapping term, keycodes in the
/// current generation's names.
pub open spec fn td_text_spec(t: TapDance) -> Seq<char> {
    let s = crate::strutil::dec_str_spec(t.index as int) + ") "@;
    if t.tap == 0 && t.hold == 0 && t.double_tap == 0 && t.tap_hold == 0 {
        s + "EMPTY"@
    } else {
        let s = s + (if t.tap != 0 {
            "On tap: "@ + qid_name_spec(t.tap, Generation::Current) + ", "@
        } else {
            Seq::<char>::empty()
        });
        let s = s + (if t.hold != 0 {
            "On hold: "@ + qid_name_spec(t.hold, Generation::Current) + ", "@
        } else {
            Seq::<char>::empty()
        });
        let s = s + (if t.double_tap != 0 {
            "On double tap: "@ + qid_name_spec(t.double_tap, Generation::Current) + ", "@
        } else {
            Seq::<char>::empty()
        });
        let s = s + (if t.tap_hold != 0 {
            "On tap + hold: "@ + qid_name_spec(t.tap_hold, Generation::Current) + ", "@
        } else {
            Seq::<char>::empty()
        });
        s + "Tapping term (ms) = "@ + crate::strutil::dec_str_spec(t.tapping_term as int)
    }
}

impl TapDance {
    /// Renders the tap dance for display, slot labels in the current
    /// generation's names.
    pub fn to_text(&self) -> (r: String)
        ensures
            r@ == td_text_spec(*self),
    {
        let mut m = crate::strutil::dec_string(self.index as u16);
        m.append(") ");
        let ghost mut acc: Seq<char> = crate::strutil::dec_str_spec(self.index as int) + ") "@;
        assert(m@ =~= acc);
        if self.tap == 0 && self.hold == 0 && self.double_tap == 0 && self.tap_hold == 0 {
            m.append("EMPTY");
            assert(m@ =~= td_text_spec(*self));
            return m;
        }
        proof {
            acc = acc + (if self.tap != 0 {
                "On tap: "@ + qid_name_spec(self.tap, Generation::Current) + ", "@
            } else {
                Seq::<char>::empty()
            });
        }
        if self.tap != 0 {
            m.append("On tap: ");
            let name = crate::keycodes::qid_to_name(self.tap, 6);
            m.append(name.as_str());
            m.append(", ");
        }
        assert(m@ =~= acc);
        proof {
            acc = acc + (if self.hold != 0 {
                "On hold: "@ + qid_name_spec(self.hold, Generation::Current) + ", "@
            } else {
                Seq::<char>::empty()
            });
        }
        if self.hold != 0 {
            m.append("On hold: ");
            let name = crate::keycodes::qid_to_name(self.hold, 6);
            m.append(name.as_str());
            m.append(", ");
        }
        assert(m@ =~= acc);
        proof {
            acc = acc + (if self.double_tap != 0 {
                "On double tap: "@ + qid_name_spec(self.double_tap, Generation::Current) + ", "@
            } else {
                Seq::<char>::empty()
            });
        }
        if self.double_tap != 0 {
            m.append("On double tap: ");
            let name = crate::keycodes::qid_to_name(self.double_tap, 6);
            m.append(name.as_str());
            m.append(", ");
        }
        assert(m@ =~= acc);
        proof {
            acc = acc + (if self.tap_hold != 0 {
                "On tap + hold: "@ + qid_name_spec(self.tap_hold, Generation::Current) + ", "@
            } else {
                Seq::<char>::empty()
            });
        }
        if self.tap_hold != 0 {
            m.append("On tap + hold: ");
            let name = crate::keycodes::qid_to_name(self.tap_hold, 6);
            m.append(name.as_str());
            m.append(", ");
        }
        assert(m@ =~= acc);
        m.append("Tapping term (ms) = ");
        let term = crate::strutil::dec_string(self.tapping_term);
        m.append(term.as_str());
        assert(m@ =~= acc + "Tapping term (ms) = "@ + crate::strutil::dec_str_spec(
            self.tapping_term as int,
        ));
        assert(m@ == td_text_spec(*self));
        m
    }
}


/// The JSON round trip preserves every wire-relevant field of a tap
/// dance: rendering one to JSON and reading the JSON back gives the same
/// record, whenever each keycode's printed name resolves back to it; the
/// simple-form law discharges that side condition for the layer-switch
/// and tap-dance ids.
pub proof fn lemma_td_json_round_trip(td: TapDance, jv: JsonValue, g: Generation)
    requires
        td_json_matches(jv, td, g),
        name_to_qid_spec(qid_name_spec(td.tap, g), g) == Some(td.tap),
        name_to_qid_spec(qid_name_spec(td.hold, g), g) == Some(td.hold),
        name_to_qid_spec(qid_name_spec(td.double_tap, g), g) == Some(td.double_tap),
        name_to_qid_spec(qid_name_spec(td.tap_hold, g), g) == Some(td.tap_hold),
    ensures
        td_from_json_spec(td.index, jv, g) == Some(td),
{
    let items = jv->Arr_0;
    assert(td_slot_spec(items@, 0, g) == Some(td.tap));
    assert(td_slot_spec(items@, 1, g) == Some(td.hold));
    assert(td_slot_spec(items@, 2, g) == Some(td.double_tap));
    assert(td_slot_spec(items@, 3, g) == Some(td.tap_hold));
    assert(td_slot_spec(items@, 4, g) == Some(td.tapping_term)) by {
        assert(items@[4] == JsonValue::UInt(td.tapping_term as u64));
        assert((td.tapping_term as u64) as u16 == td.tapping_term);
    }
}

} // verus!
