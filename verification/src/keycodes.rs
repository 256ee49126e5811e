//! Keycode codec: translation between symbolic key names and the 16-bit
//! ids the device speaks, in two incompatible numbering generations.
use vstd::prelude::*;
use vstd::string::StrSliceExecFns;
use vstd::string::StringExecFns;
use crate::strutil::find_char;
use crate::strutil::find_char_spec;
use crate::strutil::lemma_find_char_spec;
use crate::strutil::parse_hex_u16;
use crate::strutil::parse_hex_u16_spec;
use crate::strutil::parse_u16;
use crate::strutil::parse_u16_spec;
use crate::strutil::remove_spaces;
use crate::strutil::str_eq;
use crate::strutil::strip_spaces_spec;
use crate::strutil::dec_string;
use crate::strutil::dec_str_spec;

pub mod names;
pub mod laws;

verus! {

/// Failure to interpret a key name, a modifier list or a numeric argument.
/// The field holds a message naming the offending token.
#[derive(Debug)]
pub struct KeyParsingError(pub String);

/// The two keycode numbering generations a device may speak.
#[derive(Clone, Copy, PartialEq, Eq, Structural, Debug)]
pub enum Generation {
    Legacy,
    Current,
}

/// Which numbering generation a given vial protocol version selects.
pub open spec fn generation_of_spec(vial_version: u32) -> Generation {
    if vial_version >= 6 {
        Generation::Current
    } else {
        Generation::Legacy
    }
}

/// Selects the keycode generation for a vial protocol version.
pub fn generation_of(vial_version: u32) -> (g: Generation)
    ensures
        g == generation_of_spec(vial_version),
{
    if vial_version >= 6 {
        Generation::Current
    } else {
        Generation::Legacy
    }
}

// ---------------------------------------------------------------------------
// 5-bit "mod" values carried inside composite keycodes (left/right flagged).
// ---------------------------------------------------------------------------
/// Value of one modifier token of the 5-bit kind, None for an unknown token.
pub open spec fn mod_token_val(t: Seq<char>) -> Option<u8> {
    if t == "MOD_LCTL"@ || t == "LCTL"@ || t == "CTL"@ || t == "C"@ {
        Some(0x01u8)
    } else if t == "MOD_LSFT"@ || t == "LSFT"@ || t == "SFT"@ || t == "S"@ {
        Some(0x02u8)
    } else if t == "MOD_LALT"@ || t == "LALT"@ || t == "ALT"@ || t == "A"@ {
        Some(0x04u8)
    } else if t == "MOD_LGUI"@ || t == "LGUI"@ || t == "GUI"@ || t == "G"@ {
        Some(0x08u8)
    } else if t == "MOD_RCTL"@ || t == "RCTL"@ {
        Some(0x11u8)
    } else if t == "MOD_RSFT"@ || t == "RSFT"@ {
        Some(0x12u8)
    } else if t == "MOD_RALT"@ || t == "RALT"@ {
        Some(0x14u8)
    } else if t == "MOD_RGUI"@ || t == "RGUI"@ {
        Some(0x18u8)
    } else {
        None
    }
}

/// Value of a `|`-joined list of 5-bit modifier tokens.
pub open spec fn name_to_mod_spec(s: Seq<char>) -> Option<u8>
    decreases s.len(),
{
    match find_char_spec(s, '|') {
        None => mod_token_val(s),
        Some(i) => if 0 <= i < s.len() {
            match mod_token_val(s.subrange(0, i)) {
                None => None,
                Some(a) => match name_to_mod_spec(s.subrange(i + 1, s.len() as int)) {
                    None => None,
                    Some(b) => Some(a | b),
                },
            }
        } else {
            None
        },
    }
}

fn mod_token_lookup(t: &str) -> (r: Option<u8>)
    ensures
        r == mod_token_val(t@),
{
    if str_eq(t, "MOD_LCTL") || str_eq(t, "LCTL") || str_eq(t, "CTL") || str_eq(t, "C") {
        Some(0x01u8)
    } else if str_eq(t, "MOD_LSFT") || str_eq(t, "LSFT") || str_eq(t, "SFT") || str_eq(t, "S") {
        Some(0x02u8)
    } else if str_eq(t, "MOD_LALT") || str_eq(t, "LALT") || str_eq(t, "ALT") || str_eq(t, "A") {
        Some(0x04u8)
    } else if str_eq(t, "MOD_LGUI") || str_eq(t, "LGUI") || str_eq(t, "GUI") || str_eq(t, "G") {
        Some(0x08u8)
    } else if str_eq(t, "MOD_RCTL") || str_eq(t, "RCTL") {
        Some(0x11u8)
    } else if str_eq(t, "MOD_RSFT") || str_eq(t, "RSFT") {
        Some(0x12u8)
    } else if str_eq(t, "MOD_RALT") || str_eq(t, "RALT") {
        Some(0x14u8)
    } else if str_eq(t, "MOD_RGUI") || str_eq(t, "RGUI") {
        Some(0x18u8)
    } else {
        None
    }
}

fn mod_parse_error(token: &str) -> (r: KeyParsingError) {
    let mut m = String::from_str("can't parse mod ");
    m.append(token);
    KeyParsingError(m)
}

/// Reads a `|`-joined modifier list into the 5-bit left/right-flagged value
/// that composite keycodes embed.
pub fn name_to_mod(mods: &str) -> (r: Result<u8, KeyParsingError>)
    requires
        mods.is_ascii(),
    ensures
        r is Ok <==> name_to_mod_spec(mods@) is Some,
        r is Ok ==> name_to_mod_spec(mods@) == Some(r.unwrap()),
    decreases mods@.len(),
{
    proof {
        lemma_find_char_spec(mods@, '|');
    }
    match find_char(mods, '|') {
        None => match mod_token_lookup(mods) {
            Some(v) => Ok(v),
            None => Err(mod_parse_error(mods)),
        },
        Some(i) => {
            let n = mods.unicode_len();
            let head = mods.substring_ascii(0, i);
            let tail = mods.substring_ascii(i + 1, n);
            match mod_token_lookup(head) {
                None => Err(mod_parse_error(head)),
                Some(a) => match name_to_mod(tail) {
                    Err(e) => Err(e),
                    Ok(b) => Ok(a | b),
                },
            }
        },
    }
}

/// Canonical token list for a 5-bit modifier value, each flagged side
/// preferred over the bare left form, as the device convention has it.
pub open spec fn mod_tokens(m: u8) -> Seq<Seq<char>> {
    let ctl: Seq<Seq<char>> = if m & 0x11u8 == 0x11u8 {
        seq!["MOD_RCTL"@]
    } else if m & 0x01u8 == 0x01u8 {
        seq!["MOD_LCTL"@]
    } else {
        seq![]
    };
    let sft: Seq<Seq<char>> = if m & 0x12u8 == 0x12u8 {
        seq!["MOD_RSFT"@]
    } else if m & 0x02u8 == 0x02u8 {
        seq!["MOD_LSFT"@]
    } else {
        seq![]
    };
    let alt: Seq<Seq<char>> = if m & 0x14u8 == 0x14u8 {
        seq!["MOD_RALT"@]
    } else if m & 0x04u8 == 0x04u8 {
        seq!["MOD_LALT"@]
    } else {
        seq![]
    };
    let gui: Seq<Seq<char>> = if m & 0x18u8 == 0x18u8 {
        seq!["MOD_RGUI"@]
    } else if m & 0x08u8 == 0x08u8 {
        seq!["MOD_LGUI"@]
    } else {
        seq![]
    };
    ctl + sft + alt + gui
}

/// Tokens joined with `|`.
pub open spec fn join_tokens(ts: Seq<Seq<char>>) -> Seq<char>
    decreases ts.len(),
{
    if ts.len() == 0 {
        Seq::empty()
    } else if ts.len() == 1 {
        ts[0]
    } else {
        ts[0] + "|"@ + join_tokens(ts.drop_first())
    }
}

/// Text for a 5-bit modifier value; `KC_NO` when no modifier is present.
pub open spec fn mod_to_name_spec(m: u8) -> Seq<char> {
    if mod_tokens(m).len() == 0 {
        "KC_NO"@
    } else {
        join_tokens(mod_tokens(m))
    }
}

fn push_join(dest: &mut String, any: bool, tok: &str)
    ensures
        any ==> final(dest)@ == old(dest)@ + "|"@ + tok@,
        !any ==> final(dest)@ == old(dest)@ + tok@,
{
    if any {
        dest.append("|");
        dest.append(tok);
        assert(dest@ =~= old(dest)@ + "|"@ + tok@);
    } else {
        dest.append(tok);
    }
}

/// Renders a 5-bit modifier value as a `|`-joined list of modifier names.
#[verifier::rlimit(60)]
pub fn mod_to_name(modcode: u8) -> (r: String)
    ensures
        r@ == mod_to_name_spec(modcode),
{
    let mut dest = String::new();
    let mut any = false;
    let ghost mut done: Seq<Seq<char>> = seq![];
    if modcode & 0x11u8 == 0x11u8 {
        proof {
            if done.len() > 0 {
                lemma_join_snoc(done, "MOD_RCTL"@);
            } else {
                assert(done.push("MOD_RCTL"@) =~= seq!["MOD_RCTL"@]);
            }
        }
        push_join(&mut dest, any, "MOD_RCTL");
        any = true;
        proof {
            done = done.push("MOD_RCTL"@);
            assert(dest@ == join_tokens(done));
        }
    } else if modcode & 0x01u8 == 0x01u8 {
        proof {
            if done.len() > 0 {
                lemma_join_snoc(done, "MOD_LCTL"@);
            } else {
                assert(done.push("MOD_LCTL"@) =~= seq!["MOD_LCTL"@]);
            }
        }
        push_join(&mut dest, any, "MOD_LCTL");
        any = true;
        proof {
            done = done.push("MOD_LCTL"@);
            assert(dest@ == join_tokens(done));
        }
    }
    if modcode & 0x12u8 == 0x12u8 {
        proof {
            if done.len() > 0 {
                lemma_join_snoc(done, "MOD_RSFT"@);
            } else {
                assert(done.push("MOD_RSFT"@) =~= seq!["MOD_RSFT"@]);
            }
        }
        push_join(&mut dest, any, "MOD_RSFT");
        any = true;
        proof {
            done = done.push("MOD_RSFT"@);
            assert(dest@ == join_tokens(done));
        }
    } else if modcode & 0x02u8 == 0x02u8 {
        proof {
            if done.len() > 0 {
                lemma_join_snoc(done, "MOD_LSFT"@);
            } else {
                assert(done.push("MOD_LSFT"@) =~= seq!["MOD_LSFT"@]);
            }
        }
        push_join(&mut dest, any, "MOD_LSFT");
        any = true;
        proof {
            done = done.push("MOD_LSFT"@);
            assert(dest@ == join_tokens(done));
        }
    }
    if modcode & 0x14u8 == 0x14u8 {
        proof {
            if done.len() > 0 {
                lemma_join_snoc(done, "MOD_RALT"@);
            } else {
                assert(done.push("MOD_RALT"@) =~= seq!["MOD_RALT"@]);
            }
        }
        push_join(&mut dest, any, "MOD_RALT");
        any = true;
        proof {
            done = done.push("MOD_RALT"@);
            assert(dest@ == join_tokens(done));
        }
    } else if modcode & 0x04u8 == 0x04u8 {
        proof {
            if done.len() > 0 {
                lemma_join_snoc(done, "MOD_LALT"@);
            } else {
                assert(done.push("MOD_LALT"@) =~= seq!["MOD_LALT"@]);
            }
        }
        push_join(&mut dest, any, "MOD_LALT");
        any = true;
        proof {
            done = done.push("MOD_LALT"@);
            assert(dest@ == join_tokens(done));
        }
    }
    if modcode & 0x18u8 == 0x18u8 {
        proof {
            if done.len() > 0 {
                lemma_join_snoc(done, "MOD_RGUI"@);
            } else {
                assert(done.push("MOD_RGUI"@) =~= seq!["MOD_RGUI"@]);
            }
        }
        push_join(&mut dest, any, "MOD_RGUI");
        any = true;
        proof {
            done = done.push("MOD_RGUI"@);
            assert(dest@ == join_tokens(done));
        }
    } else if modcode & 0x08u8 == 0x08u8 {
        proof {
            if done.len() > 0 {
                lemma_join_snoc(done, "MOD_LGUI"@);
            } else {
                assert(done.push("MOD_LGUI"@) =~= seq!["MOD_LGUI"@]);
            }
        }
        push_join(&mut dest, any, "MOD_LGUI");
        any = true;
        proof {
            done = done.push("MOD_LGUI"@);
            assert(dest@ == join_tokens(done));
        }
    }
    proof {
        assert(done =~= mod_tokens(modcode));
    }
    if !any {
        dest.append("KC_NO");
        assert(dest@ =~= "KC_NO"@);
    }
    dest
}

/// Joining tokens left to right, one append at a time, gives `join_tokens`.
proof fn lemma_join_snoc(ts: Seq<Seq<char>>, t: Seq<char>)
    requires
        ts.len() >= 1,
    ensures
        join_tokens(ts.push(t)) == join_tokens(ts) + "|"@ + t,
    decreases ts.len(),
{
    if ts.len() == 1 {
        assert(ts.push(t).drop_first() =~= seq![t]);
        assert(ts.push(t)[0] == ts[0]);
        assert(join_tokens(seq![t]) == t);
        assert(join_tokens(ts.push(t)) == ts[0] + "|"@ + t);
    } else {
        lemma_join_snoc(ts.drop_first(), t);
        assert(ts.push(t).drop_first() =~= ts.drop_first().push(t));
        assert(join_tokens(ts.push(t)) == ts[0] + "|"@ + join_tokens(ts.drop_first().push(t)));
        assert(ts[0] + "|"@ + (join_tokens(ts.drop_first()) + "|"@ + t) =~= (ts[0] + "|"@
            + join_tokens(ts.drop_first())) + "|"@ + t);
    }
}

proof fn lemma_join_snoc_all(ts: Seq<Seq<char>>)
    ensures
        forall|i: int| 0 < i < ts.len() ==> join_tokens(#[trigger] ts.subrange(0, i + 1))
            == join_tokens(ts.subrange(0, i)) + "|"@ + ts[i],
        ts.len() >= 1 ==> join_tokens(ts.subrange(0, 1)) == ts[0],
{
    assert forall|i: int| 0 < i < ts.len() implies join_tokens(#[trigger] ts.subrange(0, i + 1))
        == join_tokens(ts.subrange(0, i)) + "|"@ + ts[i] by {
        assert(ts.subrange(0, i + 1) =~= ts.subrange(0, i).push(ts[i]));
        lemma_join_snoc(ts.subrange(0, i), ts[i]);
    }
    if ts.len() >= 1 {
        assert(ts.subrange(0, 1) =~= seq![ts[0]]);
    }
}

// ---------------------------------------------------------------------------
// 8-bit one-bit-per-modifier masks, used by key overrides and alt-repeat keys.
// ---------------------------------------------------------------------------
/// Value of one modifier token of the one-bit-per-modifier kind.
pub open spec fn bit_token_val(t: Seq<char>) -> Option<u8> {
    if t == "MOD_BIT_LCTRL"@ || t == "MOD_LCTL"@ || t == "LCTL"@ || t == "LC"@ || t == "CTL"@ || t
        == "C"@ {
        Some(0x01u8)
    } else if t == "MOD_BIT_LSHIFT"@ || t == "MOD_LSFT"@ || t == "LSFT"@ || t == "LS"@ || t
        == "SFT"@ || t == "S"@ {
        Some(0x02u8)
    } else if t == "MOD_BIT_LALT"@ || t == "MOD_LALT"@ || t == "LALT"@ || t == "LA"@ || t == "ALT"@
        || t == "A"@ {
        Some(0x04u8)
    } else if t == "MOD_BIT_LGUI"@ || t == "MOD_LGUI"@ || t == "LGUI"@ || t == "LG"@ || t == "GUI"@
        || t == "G"@ {
        Some(0x08u8)
    } else if t == "MOD_BIT_RCTRL"@ || t == "MOD_RCTL"@ || t == "RCTL"@ || t == "RC"@ {
        Some(0x10u8)
    } else if t == "MOD_BIT_RSHIFT"@ || t == "MOD_RSFT"@ || t == "RSFT"@ || t == "RS"@ {
        Some(0x20u8)
    } else if t == "MOD_BIT_RALT"@ || t == "MOD_RALT"@ || t == "RALT"@ || t == "RA"@ {
        Some(0x40u8)
    } else if t == "MOD_BIT_RGUI"@ || t == "MOD_RGUI"@ || t == "RGUI"@ || t == "RG"@ {
        Some(0x80u8)
    } else {
        None
    }
}

/// Value of a `|`-joined list of one-bit-per-modifier tokens.
pub open spec fn name_to_bitmod_spec(s: Seq<char>) -> Option<u8>
    decreases s.len(),
{
    match find_char_spec(s, '|') {
        None => bit_token_val(s),
        Some(i) => if 0 <= i < s.len() {
            match bit_token_val(s.subrange(0, i)) {
                None => None,
                Some(a) => match name_to_bitmod_spec(s.subrange(i + 1, s.len() as int)) {
                    None => None,
                    Some(b) => Some(a | b),
                },
            }
        } else {
            None
        },
    }
}

fn bit_token_lookup(t: &str) -> (r: Option<u8>)
    ensures
        r == bit_token_val(t@),
{
    if str_eq(t, "MOD_BIT_LCTRL") || str_eq(t, "MOD_LCTL") || str_eq(t, "LCTL") || str_eq(t, "LC")
        || str_eq(t, "CTL") || str_eq(t, "C") {
        Some(0x01u8)
    } else if str_eq(t, "MOD_BIT_LSHIFT") || str_eq(t, "MOD_LSFT") || str_eq(t, "LSFT") || str_eq(
        t,
        "LS",
    ) || str_eq(t, "SFT") || str_eq(t, "S") {
        Some(0x02u8)
    } else if str_eq(t, "MOD_BIT_LALT") || str_eq(t, "MOD_LALT") || str_eq(t, "LALT") || str_eq(
        t,
        "LA",
    ) || str_eq(t, "ALT") || str_eq(t, "A") {
        Some(0x04u8)
    } else if str_eq(t, "MOD_BIT_LGUI") || str_eq(t, "MOD_LGUI") || str_eq(t, "LGUI") || str_eq(
        t,
        "LG",
    ) || str_eq(t, "GUI") || str_eq(t, "G") {
        Some(0x08u8)
    } else if str_eq(t, "MOD_BIT_RCTRL") || str_eq(t, "MOD_RCTL") || str_eq(t, "RCTL") || str_eq(
        t,
        "RC",
    ) {
        Some(0x10u8)
    } else if str_eq(t, "MOD_BIT_RSHIFT") || str_eq(t, "MOD_RSFT") || str_eq(t, "RSFT") || str_eq(
        t,
        "RS",
    ) {
        Some(0x20u8)
    } else if str_eq(t, "MOD_BIT_RALT") || str_eq(t, "MOD_RALT") || str_eq(t, "RALT") || str_eq(
        t,
        "RA",
    ) {
        Some(0x40u8)
    } else if str_eq(t, "MOD_BIT_RGUI") || str_eq(t, "MOD_RGUI") || str_eq(t, "RGUI") || str_eq(
        t,
        "RG",
    ) {
        Some(0x80u8)
    } else {
        None
    }
}

/// Reads a `|`-joined modifier list into an 8-bit one-bit-per-modifier mask.
pub fn name_to_bitmod(mods: &str) -> (r: Result<u8, KeyParsingError>)
    ensures
        mods.is_ascii() ==> (r is Ok <==> name_to_bitmod_spec(mods@) is Some),
        mods.is_ascii() && r is Ok ==> name_to_bitmod_spec(mods@) == Some(r.unwrap()),
{
    if !mods.is_ascii() {
        return Err(mod_parse_error(mods));
    }
    name_to_bitmod_ascii(mods)
}

fn name_to_bitmod_ascii(mods: &str) -> (r: Result<u8, KeyParsingError>)
    requires
        mods.is_ascii(),
    ensures
        r is Ok <==> name_to_bitmod_spec(mods@) is Some,
        r is Ok ==> name_to_bitmod_spec(mods@) == Some(r.unwrap()),
    decreases mods@.len(),
{
    proof {
        lemma_find_char_spec(mods@, '|');
    }
    match find_char(mods, '|') {
        None => match bit_token_lookup(mods) {
            Some(v) => Ok(v),
            None => Err(mod_parse_error(mods)),
        },
        Some(i) => {
            let n = mods.unicode_len();
            let head = mods.substring_ascii(0, i);
            let tail = mods.substring_ascii(i + 1, n);
            match bit_token_lookup(head) {
                None => Err(mod_parse_error(head)),
                Some(a) => match name_to_bitmod_ascii(tail) {
                    Err(e) => Err(e),
                    Ok(b) => Ok(a | b),
                },
            }
        },
    }
}

/// Canonical token list for an 8-bit modifier mask, right before left per
/// modifier, control, shift, alt, then gui.
pub open spec fn bitmod_tokens(m: u8) -> Seq<Seq<char>> {
    let t: Seq<Seq<char>> = Seq::empty();
    let t: Seq<Seq<char>> = if m & 0x10u8 == 0x10u8 {
        t.push("MOD_BIT_RCTRL"@)
    } else {
        t
    };
    let t: Seq<Seq<char>> = if m & 0x01u8 == 0x01u8 {
        t.push("MOD_BIT_LCTRL"@)
    } else {
        t
    };
    let t: Seq<Seq<char>> = if m & 0x20u8 == 0x20u8 {
        t.push("MOD_BIT_RSHIFT"@)
    } else {
        t
    };
    let t: Seq<Seq<char>> = if m & 0x02u8 == 0x02u8 {
        t.push("MOD_BIT_LSHIFT"@)
    } else {
        t
    };
    let t: Seq<Seq<char>> = if m & 0x40u8 == 0x40u8 {
        t.push("MOD_BIT_RALT"@)
    } else {
        t
    };
    let t: Seq<Seq<char>> = if m & 0x04u8 == 0x04u8 {
        t.push("MOD_BIT_LALT"@)
    } else {
        t
    };
    let t: Seq<Seq<char>> = if m & 0x80u8 == 0x80u8 {
        t.push("MOD_BIT_RGUI"@)
    } else {
        t
    };
    let t: Seq<Seq<char>> = if m & 0x08u8 == 0x08u8 {
        t.push("MOD_BIT_LGUI"@)
    } else {
        t
    };
    t
}

/// Text for an 8-bit modifier mask; `KC_NO` when the mask is zero.
pub open spec fn bitmod_to_name_spec(m: u8) -> Seq<char> {
    if bitmod_tokens(m).len() == 0 {
        "KC_NO"@
    } else {
        join_tokens(bitmod_tokens(m))
    }
}

/// Renders an 8-bit modifier mask as a `|`-joined list of `MOD_BIT` names.
#[verifier::rlimit(60)]
pub fn bitmod_to_name(modcode: u8) -> (r: String)
    ensures
        r@ == bitmod_to_name_spec(modcode),
{
    let mut dest = String::new();
    let mut any = false;
    let ghost mut done: Seq<Seq<char>> = seq![];
    if modcode & 0x10u8 == 0x10u8 {
        proof {
            if done.len() > 0 {
                lemma_join_snoc(done, "MOD_BIT_RCTRL"@);
            } else {
                assert(done.push("MOD_BIT_RCTRL"@) =~= seq!["MOD_BIT_RCTRL"@]);
            }
        }
        push_join(&mut dest, any, "MOD_BIT_RCTRL");
        any = true;
        proof {
            done = done.push("MOD_BIT_RCTRL"@);
            assert(dest@ == join_tokens(done));
        }
    }
    if modcode & 0x01u8 == 0x01u8 {
        proof {
            if done.len() > 0 {
                lemma_join_snoc(done, "MOD_BIT_LCTRL"@);
            } else {
                assert(done.push("MOD_BIT_LCTRL"@) =~= seq!["MOD_BIT_LCTRL"@]);
            }
        }
        push_join(&mut dest, any, "MOD_BIT_LCTRL");
        any = true;
        proof {
            done = done.push("MOD_BIT_LCTRL"@);
            assert(dest@ == join_tokens(done));
        }
    }
    if modcode & 0x20u8 == 0x20u8 {
        proof {
            if done.len() > 0 {
                lemma_join_snoc(done, "MOD_BIT_RSHIFT"@);
            } else {
                assert(done.push("MOD_BIT_RSHIFT"@) =~= seq!["MOD_BIT_RSHIFT"@]);
            }
        }
        push_join(&mut dest, any, "MOD_BIT_RSHIFT");
        any = true;
        proof {
            done = done.push("MOD_BIT_RSHIFT"@);
            assert(dest@ == join_tokens(done));
        }
    }
    if modcode & 0x02u8 == 0x02u8 {
        proof {
            if done.len() > 0 {
                lemma_join_snoc(done, "MOD_BIT_LSHIFT"@);
            } else {
                assert(done.push("MOD_BIT_LSHIFT"@) =~= seq!["MOD_BIT_LSHIFT"@]);
            }
        }
        push_join(&mut dest, any, "MOD_BIT_LSHIFT");
        any = true;
        proof {
            done = done.push("MOD_BIT_LSHIFT"@);
            assert(dest@ == join_tokens(done));
        }
    }
    if modcode & 0x40u8 == 0x40u8 {
        proof {
            if done.len() > 0 {
                lemma_join_snoc(done, "MOD_BIT_RALT"@);
            } else {
                assert(done.push("MOD_BIT_RALT"@) =~= seq!["MOD_BIT_RALT"@]);
            }
        }
        push_join(&mut dest, any, "MOD_BIT_RALT");
        any = true;
        proof {
            done = done.push("MOD_BIT_RALT"@);
            assert(dest@ == join_tokens(done));
        }
    }
    if modcode & 0x04u8 == 0x04u8 {
        proof {
            if done.len() > 0 {
                lemma_join_snoc(done, "MOD_BIT_LALT"@);
            } else {
                assert(done.push("MOD_BIT_LALT"@) =~= seq!["MOD_BIT_LALT"@]);
            }
        }
        push_join(&mut dest, any, "MOD_BIT_LALT");
        any = true;
        proof {
            done = done.push("MOD_BIT_LALT"@);
            assert(dest@ == join_tokens(done));
        }
    }
    if modcode & 0x80u8 == 0x80u8 {
        proof {
            if done.len() > 0 {
                lemma_join_snoc(done, "MOD_BIT_RGUI"@);
            } else {
                assert(done.push("MOD_BIT_RGUI"@) =~= seq!["MOD_BIT_RGUI"@]);
            }
        }
        push_join(&mut dest, any, "MOD_BIT_RGUI");
        any = true;
        proof {
            done = done.push("MOD_BIT_RGUI"@);
            assert(dest@ == join_tokens(done));
        }
    }
    if modcode & 0x08u8 == 0x08u8 {
        proof {
            if done.len() > 0 {
                lemma_join_snoc(done, "MOD_BIT_LGUI"@);
            } else {
                assert(done.push("MOD_BIT_LGUI"@) =~= seq!["MOD_BIT_LGUI"@]);
            }
        }
        push_join(&mut dest, any, "MOD_BIT_LGUI");
        any = true;
        proof {
            done = done.push("MOD_BIT_LGUI"@);
            assert(dest@ == join_tokens(done));
        }
    }
    proof {
        assert(done == bitmod_tokens(modcode));
    }
    if !any {
        dest.append("KC_NO");
        assert(dest@ =~= "KC_NO"@);
    }
    dest
}

// ---------------------------------------------------------------------------
// Numeric arguments.
// ---------------------------------------------------------------------------
/// Parses a layer number given as a decimal string.
pub fn parse_layer(layer: &str) -> (r: Result<u16, KeyParsingError>)
    ensures
        layer.is_ascii() ==> (r is Ok <==> parse_u16_spec(layer@) is Some),
        layer.is_ascii() && r is Ok ==> parse_u16_spec(layer@) == Some(r.unwrap()),
{
    if layer.is_ascii() {
        if let Some(v) = parse_u16(layer) {
            return Ok(v);
        }
    }
    let mut m = String::from_str("can't parse layer ");
    m.append(layer);
    m.append(" should be num");
    Err(KeyParsingError(m))
}

/// Parses a plain decimal argument.
pub fn parse_num(num: &str) -> (r: Result<u16, KeyParsingError>)
    ensures
        num.is_ascii() ==> (r is Ok <==> parse_u16_spec(num@) is Some),
        num.is_ascii() && r is Ok ==> parse_u16_spec(num@) == Some(r.unwrap()),
{
    if num.is_ascii() {
        if let Some(v) = parse_u16(num) {
            return Ok(v);
        }
    }
    let mut m = String::from_str("can't parse argument ");
    m.append(num);
    m.append(" should be num");
    Err(KeyParsingError(m))
}

// ---------------------------------------------------------------------------
// Composite-form dispatch tables.
// ---------------------------------------------------------------------------
/// High-bit pattern OR-ed in by a single- or multi-modifier wrapper form.
pub open spec fn mod_wrap_base(f: Seq<char>) -> Option<u16> {
    if f == "QK_LCTL"@ || f == "LCTL"@ || f == "C"@ {
        Some(0x0100u16)
    } else if f == "QK_LSFT"@ || f == "LSFT"@ || f == "S"@ {
        Some(0x0200u16)
    } else if f == "QK_LALT"@ || f == "LALT"@ || f == "LOPT"@ || f == "A"@ {
        Some(0x0400u16)
    } else if f == "QK_LGUI"@ || f == "LGUI"@ || f == "LCMD"@ || f == "LWIN"@ || f == "G"@ {
        Some(0x0800u16)
    } else if f == "QK_RCTL"@ || f == "RCTL"@ {
        Some(0x1100u16)
    } else if f == "QK_RSFT"@ || f == "RSFT"@ {
        Some(0x1200u16)
    } else if f == "QK_RALT"@ || f == "RALT"@ || f == "ALGR"@ || f == "ROPT"@ {
        Some(0x1400u16)
    } else if f == "QK_RGUI"@ || f == "RGUI"@ || f == "RCMD"@ || f == "RWIN"@ {
        Some(0x1800u16)
    } else if f == "HYPR"@ {
        Some(0x0F00u16)
    } else if f == "MEH"@ {
        Some(0x0700u16)
    } else if f == "LCAG"@ {
        Some(0x0D00u16)
    } else if f == "LSG"@ || f == "SGUI"@ || f == "SCMD"@ || f == "SWIN"@ {
        Some(0x0A00u16)
    } else if f == "LAG"@ {
        Some(0x0C00u16)
    } else if f == "RSG"@ {
        Some(0x1A00u16)
    } else if f == "RAG"@ {
        Some(0x1C00u16)
    } else if f == "LCA"@ {
        Some(0x0500u16)
    } else if f == "LSA"@ {
        Some(0x0600u16)
    } else if f == "RSA"@ || f == "SAGR"@ {
        Some(0x1600u16)
    } else if f == "RCS"@ {
        Some(0x1300u16)
    } else {
        None
    }
}

fn mod_wrap_lookup(f: &str) -> (r: Option<u16>)
    ensures
        r == mod_wrap_base(f@),
{
    if str_eq(f, "QK_LCTL") || str_eq(f, "LCTL") || str_eq(f, "C") {
        Some(0x0100u16)
    } else if str_eq(f, "QK_LSFT") || str_eq(f, "LSFT") || str_eq(f, "S") {
        Some(0x0200u16)
    } else if str_eq(f, "QK_LALT") || str_eq(f, "LALT") || str_eq(f, "LOPT") || str_eq(f, "A") {
        Some(0x0400u16)
    } else if str_eq(f, "QK_LGUI") || str_eq(f, "LGUI") || str_eq(f, "LCMD") || str_eq(f, "LWIN")
        || str_eq(f, "G") {
        Some(0x0800u16)
    } else if str_eq(f, "QK_RCTL") || str_eq(f, "RCTL") {
        Some(0x1100u16)
    } else if str_eq(f, "QK_RSFT") || str_eq(f, "RSFT") {
        Some(0x1200u16)
    } else if str_eq(f, "QK_RALT") || str_eq(f, "RALT") || str_eq(f, "ALGR") || str_eq(f, "ROPT") {
        Some(0x1400u16)
    } else if str_eq(f, "QK_RGUI") || str_eq(f, "RGUI") || str_eq(f, "RCMD") || str_eq(f, "RWIN") {
        Some(0x1800u16)
    } else if str_eq(f, "HYPR") {
        Some(0x0F00u16)
    } else if str_eq(f, "MEH") {
        Some(0x0700u16)
    } else if str_eq(f, "LCAG") {
        Some(0x0D00u16)
    } else if str_eq(f, "LSG") || str_eq(f, "SGUI") || str_eq(f, "SCMD") || str_eq(f, "SWIN") {
        Some(0x0A00u16)
    } else if str_eq(f, "LAG") {
        Some(0x0C00u16)
    } else if str_eq(f, "RSG") {
        Some(0x1A00u16)
    } else if str_eq(f, "RAG") {
        Some(0x1C00u16)
    } else if str_eq(f, "LCA") {
        Some(0x0500u16)
    } else if str_eq(f, "LSA") {
        Some(0x0600u16)
    } else if str_eq(f, "RSA") || str_eq(f, "SAGR") {
        Some(0x1600u16)
    } else if str_eq(f, "RCS") {
        Some(0x1300u16)
    } else {
        None
    }
}

/// Base id and layer mask for the simple layer-switch forms.
pub open spec fn layer_form_base(f: Seq<char>, g: Generation) -> Option<(u16, u16)> {
    if g == Generation::Current {
        if f == "TO"@ {
            Some((0x5200u16, 0x1Fu16))
        } else if f == "MO"@ {
            Some((0x5220u16, 0x1Fu16))
        } else if f == "DF"@ {
            Some((0x5240u16, 0x1Fu16))
        } else if f == "PDF"@ {
            Some((0x52E0u16, 0x1Fu16))
        } else if f == "TG"@ {
            Some((0x5260u16, 0x1Fu16))
        } else if f == "OSL"@ {
            Some((0x5280u16, 0x1Fu16))
        } else if f == "TT"@ {
            Some((0x52C0u16, 0x1Fu16))
        } else {
            None
        }
    } else {
        if f == "TO"@ {
            Some((0x5010u16, 0x0Fu16))
        } else if f == "MO"@ {
            Some((0x5100u16, 0x1Fu16))
        } else if f == "DF"@ {
            Some((0x5200u16, 0x1Fu16))
        } else if f == "TG"@ {
            Some((0x5300u16, 0x1Fu16))
        } else if f == "OSL"@ {
            Some((0x5400u16, 0x1Fu16))
        } else if f == "TT"@ {
            Some((0x5800u16, 0x1Fu16))
        } else {
            None
        }
    }
}

fn layer_form_lookup(f: &str, g: Generation) -> (r: Option<(u16, u16)>)
    ensures
        r == layer_form_base(f@, g),
{
    if g == Generation::Current {
        if str_eq(f, "TO") {
            Some((0x5200u16, 0x1Fu16))
        } else if str_eq(f, "MO") {
            Some((0x5220u16, 0x1Fu16))
        } else if str_eq(f, "DF") {
            Some((0x5240u16, 0x1Fu16))
        } else if str_eq(f, "PDF") {
            Some((0x52E0u16, 0x1Fu16))
        } else if str_eq(f, "TG") {
            Some((0x5260u16, 0x1Fu16))
        } else if str_eq(f, "OSL") {
            Some((0x5280u16, 0x1Fu16))
        } else if str_eq(f, "TT") {
            Some((0x52C0u16, 0x1Fu16))
        } else {
            None
        }
    } else {
        if str_eq(f, "TO") {
            Some((0x5010u16, 0x0Fu16))
        } else if str_eq(f, "MO") {
            Some((0x5100u16, 0x1Fu16))
        } else if str_eq(f, "DF") {
            Some((0x5200u16, 0x1Fu16))
        } else if str_eq(f, "TG") {
            Some((0x5300u16, 0x1Fu16))
        } else if str_eq(f, "OSL") {
            Some((0x5400u16, 0x1Fu16))
        } else if str_eq(f, "TT") {
            Some((0x5800u16, 0x1Fu16))
        } else {
            None
        }
    }
}

/// Fixed 5-bit modifier operand of one of the mod-tap alias forms.
pub open spec fn mt_alias_mod(f: Seq<char>) -> Option<u8> {
    if f == "LCTL_T"@ || f == "CTL_T"@ {
        Some(0x01u8)
    } else if f == "RCTL_T"@ {
        Some(0x11u8)
    } else if f == "LSFT_T"@ || f == "SFT_T"@ {
        Some(0x02u8)
    } else if f == "RSFT_T"@ {
        Some(0x12u8)
    } else if f == "LALT_T"@ || f == "ALT_T"@ || f == "LOPT_T"@ || f == "OPT_T"@ {
        Some(0x04u8)
    } else if f == "RALT_T"@ || f == "ROPT_T"@ || f == "ALGR_T"@ {
        Some(0x14u8)
    } else if f == "LGUI_T"@ || f == "GUI_T"@ || f == "LCMD_T"@ || f == "CMD_T"@ || f == "LWIN_T"@
        || f == "WIN_T"@ {
        Some(0x08u8)
    } else if f == "RGUI_T"@ || f == "RCMD_T"@ || f == "RWIN_T"@ {
        Some(0x18u8)
    } else if f == "C_S_T"@ {
        Some(0x03u8)
    } else if f == "MEH_T"@ {
        Some(0x07u8)
    } else if f == "LCAG_T"@ {
        Some(0x0Du8)
    } else if f == "RCAG_T"@ {
        Some(0x1Du8)
    } else if f == "HYPR_T"@ || f == "ALL_T"@ {
        Some(0x0Fu8)
    } else if f == "LSG_T"@ || f == "SGUI_T"@ || f == "SCMD_T"@ || f == "SWIN_T"@ {
        Some(0x0Au8)
    } else if f == "LAG_T"@ {
        Some(0x0Cu8)
    } else if f == "RSG_T"@ {
        Some(0x1Au8)
    } else if f == "RAG_T"@ {
        Some(0x1Cu8)
    } else if f == "LCA_T"@ {
        Some(0x05u8)
    } else if f == "LSA_T"@ {
        Some(0x06u8)
    } else if f == "RSA_T"@ || f == "SAGR_T"@ {
        Some(0x16u8)
    } else if f == "RCS_T"@ {
        Some(0x13u8)
    } else {
        None
    }
}

fn mt_alias_lookup(f: &str) -> (r: Option<u8>)
    ensures
        r == mt_alias_mod(f@),
{
    if str_eq(f, "LCTL_T") || str_eq(f, "CTL_T") {
        Some(0x01u8)
    } else if str_eq(f, "RCTL_T") {
        Some(0x11u8)
    } else if str_eq(f, "LSFT_T") || str_eq(f, "SFT_T") {
        Some(0x02u8)
    } else if str_eq(f, "RSFT_T") {
        Some(0x12u8)
    } else if str_eq(f, "LALT_T") || str_eq(f, "ALT_T") || str_eq(f, "LOPT_T") || str_eq(
        f,
        "OPT_T",
    ) {
        Some(0x04u8)
    } else if str_eq(f, "RALT_T") || str_eq(f, "ROPT_T") || str_eq(f, "ALGR_T") {
        Some(0x14u8)
    } else if str_eq(f, "LGUI_T") || str_eq(f, "GUI_T") || str_eq(f, "LCMD_T") || str_eq(f, "CMD_T")
        || str_eq(f, "LWIN_T") || str_eq(f, "WIN_T") {
        Some(0x08u8)
    } else if str_eq(f, "RGUI_T") || str_eq(f, "RCMD_T") || str_eq(f, "RWIN_T") {
        Some(0x18u8)
    } else if str_eq(f, "C_S_T") {
        Some(0x03u8)
    } else if str_eq(f, "MEH_T") {
        Some(0x07u8)
    } else if str_eq(f, "LCAG_T") {
        Some(0x0Du8)
    } else if str_eq(f, "RCAG_T") {
        Some(0x1Du8)
    } else if str_eq(f, "HYPR_T") || str_eq(f, "ALL_T") {
        Some(0x0Fu8)
    } else if str_eq(f, "LSG_T") || str_eq(f, "SGUI_T") || str_eq(f, "SCMD_T") || str_eq(
        f,
        "SWIN_T",
    ) {
        Some(0x0Au8)
    } else if str_eq(f, "LAG_T") {
        Some(0x0Cu8)
    } else if str_eq(f, "RSG_T") {
        Some(0x1Au8)
    } else if str_eq(f, "RAG_T") {
        Some(0x1Cu8)
    } else if str_eq(f, "LCA_T") {
        Some(0x05u8)
    } else if str_eq(f, "LSA_T") {
        Some(0x06u8)
    } else if str_eq(f, "RSA_T") || str_eq(f, "SAGR_T") {
        Some(0x16u8)
    } else if str_eq(f, "RCS_T") {
        Some(0x13u8)
    } else {
        None
    }
}

/// Base id of the one-shot-modifier form.
pub open spec fn osm_base(g: Generation) -> u16 {
    if g == Generation::Current {
        0x52A0u16
    } else {
        0x5500u16
    }
}

/// Base id of the mod-tap form.
pub open spec fn mt_base(g: Generation) -> u16 {
    if g == Generation::Current {
        0x2000u16
    } else {
        0x6000u16
    }
}

// ---------------------------------------------------------------------------
// Full name lookup over the fixed tables.
// ---------------------------------------------------------------------------
/// Canonical name of a table keycode in the given generation.
pub open spec fn canonical_name_of(k: u16, g: Generation) -> Option<Seq<char>> {
    let extra = if g == Generation::Current {
        names::extra_cur_name_of(k)
    } else {
        names::extra_leg_name_of(k)
    };
    if extra is Some {
        extra
    } else if names::letter_name_of(k) is Some {
        names::letter_name_of(k)
    } else if names::digit_name_of(k) is Some {
        names::digit_name_of(k)
    } else if names::named_name_of(k) is Some {
        names::named_name_of(k)
    } else if names::fkey_name_of(k) is Some {
        names::fkey_name_of(k)
    } else {
        names::modkey_name_of(k)
    }
}

/// Id a plain name resolves to in the given generation, canonical names
/// first, then the alias spellings.
pub open spec fn table_id_of(n: Seq<char>, g: Generation) -> Option<u16> {
    let extra = if g == Generation::Current {
        names::extra_cur_id_of(n)
    } else {
        names::extra_leg_id_of(n)
    };
    if extra is Some {
        extra
    } else if names::letter_id_of(n) is Some {
        names::letter_id_of(n)
    } else if names::digit_id_of(n) is Some {
        names::digit_id_of(n)
    } else if names::named_id_of(n) is Some {
        names::named_id_of(n)
    } else if names::fkey_id_of(n) is Some {
        names::fkey_id_of(n)
    } else if names::modkey_id_of(n) is Some {
        names::modkey_id_of(n)
    } else {
        names::alias_id_of(n)
    }
}

fn canonical_name_lookup(k: u16, g: Generation) -> (r: Option<&'static str>)
    ensures
        match r {
            Some(s) => canonical_name_of(k, g) == Some(s@) && s.is_ascii(),
            None => canonical_name_of(k, g) is None,
        },
{
    let extra = if g == Generation::Current {
        names::extra_cur_name_str(k)
    } else {
        names::extra_leg_name_str(k)
    };
    if extra.is_some() {
        extra
    } else if let Some(s) = names::letter_name_str(k) {
        Some(s)
    } else if let Some(s) = names::digit_name_str(k) {
        Some(s)
    } else if let Some(s) = names::named_name_str(k) {
        Some(s)
    } else if let Some(s) = names::fkey_name_str(k) {
        Some(s)
    } else if let Some(s) = names::modkey_name_str(k) {
        Some(s)
    } else {
        None
    }
}

fn table_lookup(n: &str, g: Generation) -> (r: Option<u16>)
    ensures
        r == table_id_of(n@, g),
{
    let extra = if g == Generation::Current {
        names::extra_cur_id_lookup(n)
    } else {
        names::extra_leg_id_lookup(n)
    };
    if extra.is_some() {
        extra
    } else if let Some(k) = names::letter_id_lookup(n) {
        Some(k)
    } else if let Some(k) = names::digit_id_lookup(n) {
        Some(k)
    } else if let Some(k) = names::named_id_lookup(n) {
        Some(k)
    } else if let Some(k) = names::fkey_id_lookup(n) {
        Some(k)
    } else if let Some(k) = names::modkey_id_lookup(n) {
        Some(k)
    } else {
        names::alias_id_lookup(n)
    }
}

// ---------------------------------------------------------------------------
// Name to id.
// ---------------------------------------------------------------------------
/// Resolution of a space-free name to a keycode id, following the shape
/// `FUNCTION(ARG[,ARG2])`, a hex literal in the current generation, or a
/// plain table name.
pub open spec fn nq_step(n: Seq<char>, g: Generation) -> Option<u16>
    decreases n.len(), 0int,
{
    if g == Generation::Current && n.len() >= 2 && n[0] == '0' && n[1] == 'x' {
        parse_hex_u16_spec(n.subrange(2, n.len() as int))
    } else {
        match find_char_spec(n, '(') {
            None => table_id_of(n, g),
            Some(i) => if i <= 0 || i >= n.len() {
                None
            } else {
                let f = n.subrange(0, i);
                let rest = n.subrange(i + 1, n.len() as int);
                let arg = if rest.len() == 0 {
                    rest
                } else {
                    rest.drop_last()
                };
                apply_form(f, arg, g)
            },
        }
    }
}

/// Resolution of one composite form applied to its raw argument text.
pub open spec fn apply_form(f: Seq<char>, arg: Seq<char>, g: Generation) -> Option<u16>
    decreases arg.len(), 1int,
{
    if mod_wrap_base(f) is Some {
        match nq_step(arg, g) {
            None => None,
            Some(v) => Some(mod_wrap_base(f).unwrap() | v),
        }
    } else if layer_form_base(f, g) is Some {
        let (base, mask) = layer_form_base(f, g).unwrap();
        match parse_u16_spec(arg) {
            None => None,
            Some(l) => Some(base | (l & mask)),
        }
    } else if f == "LM"@ {
        match find_char_spec(arg, ',') {
            None => None,
            Some(j) => if !(0 <= j < arg.len()) {
                None
            } else {
                match parse_u16_spec(arg.subrange(0, j)) {
                    None => None,
                    Some(l) => match name_to_mod_spec(arg.subrange(j + 1, arg.len() as int)) {
                        None => None,
                        Some(m) => if g == Generation::Current {
                            Some(0x5000u16 | (((l & 0xF) as u16) << 5) | ((m as u16) & 0x1F))
                        } else {
                            Some(0x5900u16 | (((l & 0xF) as u16) << 4) | ((m as u16) & 0xF))
                        },
                    },
                }
            },
        }
    } else if f == "OSM"@ {
        match name_to_mod_spec(arg) {
            None => None,
            Some(m) => Some(osm_base(g) | ((m as u16) & 0x1F)),
        }
    } else if f == "TT"@ {
        // unreachable: TT is handled as a layer form
        None
    } else if f == "LT"@ {
        match find_char_spec(arg, ',') {
            None => None,
            Some(j) => if !(0 <= j < arg.len()) {
                None
            } else {
                match parse_u16_spec(arg.subrange(0, j)) {
                    None => None,
                    Some(l) => match nq_step(arg.subrange(j + 1, arg.len() as int), g) {
                        None => None,
                        Some(k) => Some(0x4000u16 | (((l & 0x0F) as u16) << 8) | (k & 0xFF)),
                    },
                }
            },
        }
    } else if f == "MT"@ {
        match find_char_spec(arg, ',') {
            None => None,
            Some(j) => if !(0 <= j < arg.len()) {
                None
            } else {
                match name_to_mod_spec(arg.subrange(0, j)) {
                    None => None,
                    Some(m) => match nq_step(arg.subrange(j + 1, arg.len() as int), g) {
                        None => None,
                        Some(k) => Some(mt_base(g) | ((((m & 0x1F) as u16)) << 8) | (k & 0xFF)),
                    },
                }
            },
        }
    } else if mt_alias_mod(f) is Some {
        let m = mt_alias_mod(f).unwrap();
        match nq_step(arg, g) {
            None => None,
            Some(k) => Some(mt_base(g) | ((((m & 0x1F) as u16)) << 8) | (k & 0xFF)),
        }
    } else if f == "TD"@ {
        match parse_u16_spec(arg) {
            None => None,
            Some(i) => Some(0x5700u16 | (i & 0xFF)),
        }
    } else {
        None
    }
}

/// Resolution of a full name: spaces are stripped first; a name that is
/// not ASCII resolves to nothing.
pub open spec fn name_to_qid_spec(s: Seq<char>, g: Generation) -> Option<u16> {
    if !vstd::utf8::is_ascii_chars(s) {
        None
    } else {
        nq_step(strip_spaces_spec(s), g)
    }
}

fn key_not_found_error(n: &str) -> (r: KeyParsingError) {
    let mut m = String::from_str("can't find key ");
    m.append(n);
    KeyParsingError(m)
}

fn nq_exec(n: &str, g: Generation) -> (r: Result<u16, KeyParsingError>)
    requires
        n.is_ascii(),
    ensures
        r is Ok <==> nq_step(n@, g) is Some,
        r is Ok ==> nq_step(n@, g) == Some(r.unwrap()),
    decreases n@.len(), 0int,
{
    let len = n.unicode_len();
    if g == Generation::Current && len >= 2 && n.get_ascii(0) == 48 && n.get_ascii(1) == 120 {
        proof {
            vstd::utf8::char_u32_cast(n@[0], n@[0] as u32);
            vstd::utf8::char_u32_cast(n@[1], n@[1] as u32);
        }
        let hex = n.substring_ascii(2, len);
        match parse_hex_u16(hex) {
            Some(v) => Ok(v),
            None => Err(key_not_found_error(n)),
        }
    } else {
        proof {
            if n@.len() >= 2 {
                vstd::utf8::char_u32_cast(n@[0], n@[0] as u32);
                vstd::utf8::char_u32_cast(n@[1], n@[1] as u32);
            }
            lemma_find_char_spec(n@, '(');
        }
        match find_char(n, '(') {
            None => match table_lookup(n, g) {
                Some(k) => Ok(k),
                None => Err(key_not_found_error(n)),
            },
            Some(i) => {
                if i == 0 {
                    return Err(key_not_found_error(n));
                }
                let f = n.substring_ascii(0, i);
                let rest = n.substring_ascii(i + 1, len);
                let arg = if rest.len() == 0 {
                    rest
                } else {
                    let rl = rest.unicode_len();
                    rest.substring_ascii(0, rl - 1)
                };
                assert(arg@ =~= {
                    let restv = n@.subrange(i + 1, n@.len() as int);
                    if restv.len() == 0 {
                        restv
                    } else {
                        restv.drop_last()
                    }
                });
                apply_form_exec(f, arg, g)
            },
        }
    }
}

fn unknown_macro_error(f: &str) -> (r: KeyParsingError) {
    let mut m = String::from_str("can't find macro ");
    m.append(f);
    KeyParsingError(m)
}

fn two_args_error(f: &str, arg: &str) -> (r: KeyParsingError) {
    let mut m = String::from_str(f);
    m.append(" should have strictly two arguments ");
    m.append(arg);
    m.append(" doesn't match");
    KeyParsingError(m)
}

fn apply_form_exec(f: &str, arg: &str, g: Generation) -> (r: Result<u16, KeyParsingError>)
    requires
        f.is_ascii(),
        arg.is_ascii(),
    ensures
        r is Ok <==> apply_form(f@, arg@, g) is Some,
        r is Ok ==> apply_form(f@, arg@, g) == Some(r.unwrap()),
    decreases arg@.len(), 1int,
{
    let arg_len = arg.unicode_len();
    if let Some(base) = mod_wrap_lookup(f) {
        match nq_exec(arg, g) {
            Err(e) => Err(e),
            Ok(v) => Ok(base | v),
        }
    } else if let Some((base, mask)) = layer_form_lookup(f, g) {
        match parse_layer(arg) {
            Err(e) => Err(e),
            Ok(l) => Ok(base | (l & mask)),
        }
    } else if str_eq(f, "LM") {
        proof {
            lemma_find_char_spec(arg@, ',');
        }
        match find_char(arg, ',') {
            None => Err(two_args_error("LM", arg)),
            Some(j) => {
                let left = arg.substring_ascii(0, j);
                let right = arg.substring_ascii(j + 1, arg_len);
                match parse_layer(left) {
                    Err(e) => Err(e),
                    Ok(l) => match name_to_mod(right) {
                        Err(e) => Err(e),
                        Ok(m) => if g == Generation::Current {
                            Ok(0x5000u16 | (((l & 0xF) as u16) << 5) | ((m as u16) & 0x1F))
                        } else {
                            Ok(0x5900u16 | (((l & 0xF) as u16) << 4) | ((m as u16) & 0xF))
                        },
                    },
                }
            },
        }
    } else if str_eq(f, "OSM") {
        match name_to_mod(arg) {
            Err(e) => Err(e),
            Ok(m) => Ok(
                if g == Generation::Current {
                    0x52A0u16 | ((m as u16) & 0x1F)
                } else {
                    0x5500u16 | ((m as u16) & 0x1F)
                },
            ),
        }
    } else if str_eq(f, "TT") {
        Err(unknown_macro_error(f))
    } else if str_eq(f, "LT") {
        proof {
            lemma_find_char_spec(arg@, ',');
        }
        match find_char(arg, ',') {
            None => Err(two_args_error("LT", arg)),
            Some(j) => {
                let left = arg.substring_ascii(0, j);
                let right = arg.substring_ascii(j + 1, arg_len);
                match parse_layer(left) {
                    Err(e) => Err(e),
                    Ok(l) => match nq_exec(right, g) {
                        Err(e) => Err(e),
                        Ok(k) => Ok(0x4000u16 | (((l & 0x0F) as u16) << 8) | (k & 0xFF)),
                    },
                }
            },
        }
    } else if str_eq(f, "MT") {
        proof {
            lemma_find_char_spec(arg@, ',');
        }
        match find_char(arg, ',') {
            None => Err(two_args_error("MT", arg)),
            Some(j) => {
                let left = arg.substring_ascii(0, j);
                let right = arg.substring_ascii(j + 1, arg_len);
                match name_to_mod(left) {
                    Err(e) => Err(e),
                    Ok(m) => match nq_exec(right, g) {
                        Err(e) => Err(e),
                        Ok(k) => {
                            let base = if g == Generation::Current {
                                0x2000u16
                            } else {
                                0x6000u16
                            };
                            Ok(base | ((((m & 0x1F) as u16)) << 8) | (k & 0xFF))
                        },
                    },
                }
            },
        }
    } else if let Some(m) = mt_alias_lookup(f) {
        match nq_exec(arg, g) {
            Err(e) => Err(e),
            Ok(k) => {
                let base = if g == Generation::Current {
                    0x2000u16
                } else {
                    0x6000u16
                };
                Ok(base | ((((m & 0x1F) as u16)) << 8) | (k & 0xFF))
            },
        }
    } else if str_eq(f, "TD") {
        match parse_num(arg) {
            Err(e) => Err(e),
            Ok(i) => Ok(0x5700u16 | (i & 0xFF)),
        }
    } else {
        Err(unknown_macro_error(f))
    }
}

/// Translates a symbolic key name to its 16-bit id, in the generation the
/// vial protocol version selects. Spaces anywhere in the name are ignored;
/// the current generation also accepts a leading `0x` hex literal.
pub fn name_to_qid(name: &str, vial_version: u32) -> (r: Result<u16, KeyParsingError>)
    ensures
        r is Ok <==> name_to_qid_spec(name@, generation_of_spec(vial_version)) is Some,
        r is Ok ==> name_to_qid_spec(name@, generation_of_spec(vial_version)) == Some(r.unwrap()),
{
    let g = generation_of(vial_version);
    if !name.is_ascii() {
        return Err(key_not_found_error(name));
    }
    let cleaned = remove_spaces(name);
    nq_exec(cleaned.as_str(), g)
}


// ---------------------------------------------------------------------------
// Id to name.
// ---------------------------------------------------------------------------
/// The character for a hexadecimal digit value below sixteen, lower case.
pub open spec fn hex_digit_char(d: int) -> char {
    if d < 10 {
        crate::strutil::digit_char(d)
    } else if d == 10 {
        'a'
    } else if d == 11 {
        'b'
    } else if d == 12 {
        'c'
    } else if d == 13 {
        'd'
    } else if d == 14 {
        'e'
    } else {
        'f'
    }
}

/// Hexadecimal rendering without leading zeros, most significant first.
pub open spec fn hex_str_spec(n: int) -> Seq<char>
    decreases n,
{
    if n <= 15 {
        seq![hex_digit_char(n)]
    } else {
        hex_str_spec(n / 16).push(hex_digit_char(n % 16))
    }
}

/// The hex literal the current generation prints for an id that is in no
/// table: `0x` and at least two hex digits.
pub open spec fn hex_literal_spec(k: u16) -> Seq<char> {
    if k < 16 {
        "0x0"@ + hex_str_spec(k as int)
    } else {
        "0x"@ + hex_str_spec(k as int)
    }
}

fn hex_digit_str(d: u16) -> (r: &'static str)
    requires
        d <= 15,
    ensures
        r@ =~= seq![hex_digit_char(d as int)],
        r.is_ascii(),
{
    let s = match d {
        0 => "0",
        1 => "1",
        2 => "2",
        3 => "3",
        4 => "4",
        5 => "5",
        6 => "6",
        7 => "7",
        8 => "8",
        9 => "9",
        10 => "a",
        11 => "b",
        12 => "c",
        13 => "d",
        14 => "e",
        _ => "f",
    };
    proof {
        reveal_strlit("0");
        reveal_strlit("1");
        reveal_strlit("2");
        reveal_strlit("3");
        reveal_strlit("4");
        reveal_strlit("5");
        reveal_strlit("6");
        reveal_strlit("7");
        reveal_strlit("8");
        reveal_strlit("9");
        reveal_strlit("a");
        reveal_strlit("b");
        reveal_strlit("c");
        reveal_strlit("d");
        reveal_strlit("e");
        reveal_strlit("f");
    }
    s
}

fn hex_string(n: u16) -> (r: String)
    ensures
        r@ == hex_str_spec(n as int),
    decreases n,
{
    if n <= 15 {
        let mut s = String::new();
        s.append(hex_digit_str(n));
        assert(s@ =~= hex_str_spec(n as int));
        s
    } else {
        let mut s = hex_string(n / 16);
        s.append(hex_digit_str(n % 16));
        assert(s@ =~= hex_str_spec(n as int));
        s
    }
}

fn hex_literal(k: u16) -> (r: String)
    ensures
        r@ == hex_literal_spec(k),
{
    let mut s = if k < 16 {
        String::from_str("0x0")
    } else {
        String::from_str("0x")
    };
    let digits = hex_string(k);
    s.append(digits.as_str());
    s
}

/// Name printed for an id that no composite range claims: the table name,
/// else a hex literal in the current generation and a placeholder in the
/// legacy one — an accepted generation asymmetry.
pub open spec fn base_key_name(k: u16, g: Generation) -> Seq<char> {
    match canonical_name_of(k, g) {
        Some(n) => n,
        None => if g == Generation::Current {
            hex_literal_spec(k)
        } else {
            "UNKNOWN"@
        },
    }
}

fn base_key_name_exec(k: u16, g: Generation) -> (r: String)
    ensures
        r@ == base_key_name(k, g),
{
    match canonical_name_lookup(k, g) {
        Some(s) => String::from_str(s),
        None => if g == Generation::Current {
            hex_literal(k)
        } else {
            String::from_str("UNKNOWN")
        },
    }
}

/// `F(INNER)`.
pub open spec fn wrap_name(f: Seq<char>, inner: Seq<char>) -> Seq<char> {
    f + "("@ + inner + ")"@
}

fn wrap_str(f: &str, inner: &str) -> (r: String)
    ensures
        r@ == wrap_name(f@, inner@),
{
    let mut s = String::from_str(f);
    s.append("(");
    s.append(inner);
    s.append(")");
    assert(s@ =~= wrap_name(f@, inner@));
    s
}

fn wrap_two(f: &str, left: &str, right: &str) -> (r: String)
    ensures
        r@ == f@ + "("@ + left@ + ","@ + right@ + ")"@,
{
    let mut s = String::from_str(f);
    s.append("(");
    s.append(left);
    s.append(",");
    s.append(right);
    s.append(")");
    assert(s@ =~= f@ + "("@ + left@ + ","@ + right@ + ")"@);
    s
}

/// Which single- or multi-modifier wrapper range an id falls in, with the
/// canonical function name the printer uses for it.
pub open spec fn wrap_form_name(k: u16) -> Option<Seq<char>> {
    let hi = k & 0xFF00u16;
    if hi == 0x0100u16 {
        Some("LCTL"@)
    } else if hi == 0x0200u16 {
        Some("LSFT"@)
    } else if hi == 0x0400u16 {
        Some("LALT"@)
    } else if hi == 0x0800u16 {
        Some("LGUI"@)
    } else if hi == 0x1100u16 {
        Some("RCTL"@)
    } else if hi == 0x1200u16 {
        Some("RSFT"@)
    } else if hi == 0x1400u16 {
        Some("RALT"@)
    } else if hi == 0x1800u16 {
        Some("RGUI"@)
    } else if hi == 0x0F00u16 {
        Some("HYPR"@)
    } else if hi == 0x0700u16 {
        Some("MEH"@)
    } else if hi == 0x0D00u16 {
        Some("LCAG"@)
    } else if hi == 0x0A00u16 {
        Some("LSG"@)
    } else if hi == 0x0C00u16 {
        Some("LAG"@)
    } else if hi == 0x1A00u16 {
        Some("RSG"@)
    } else if hi == 0x1C00u16 {
        Some("RAG"@)
    } else if hi == 0x0500u16 {
        Some("LCA"@)
    } else if hi == 0x0600u16 {
        Some("LSA"@)
    } else if hi == 0x1600u16 {
        Some("RSA"@)
    } else if hi == 0x1300u16 {
        Some("RCS"@)
    } else {
        None
    }
}

fn wrap_form_name_exec(k: u16) -> (r: Option<&'static str>)
    ensures
        match r {
            Some(s) => wrap_form_name(k) == Some(s@),
            None => wrap_form_name(k) is None,
        },
{
    let hi = k & 0xFF00u16;
    if hi == 0x0100u16 {
        Some("LCTL")
    } else if hi == 0x0200u16 {
        Some("LSFT")
    } else if hi == 0x0400u16 {
        Some("LALT")
    } else if hi == 0x0800u16 {
        Some("LGUI")
    } else if hi == 0x1100u16 {
        Some("RCTL")
    } else if hi == 0x1200u16 {
        Some("RSFT")
    } else if hi == 0x1400u16 {
        Some("RALT")
    } else if hi == 0x1800u16 {
        Some("RGUI")
    } else if hi == 0x0F00u16 {
        Some("HYPR")
    } else if hi == 0x0700u16 {
        Some("MEH")
    } else if hi == 0x0D00u16 {
        Some("LCAG")
    } else if hi == 0x0A00u16 {
        Some("LSG")
    } else if hi == 0x0C00u16 {
        Some("LAG")
    } else if hi == 0x1A00u16 {
        Some("RSG")
    } else if hi == 0x1C00u16 {
        Some("RAG")
    } else if hi == 0x0500u16 {
        Some("LCA")
    } else if hi == 0x0600u16 {
        Some("LSA")
    } else if hi == 0x1600u16 {
        Some("RSA")
    } else if hi == 0x1300u16 {
        Some("RCS")
    } else {
        None
    }
}

/// Canonical text for a keycode id in the given generation: a composite
/// `FORM(...)` for the composite ranges, else the plain table name with
/// the generation's fallback.
pub open spec fn qid_name_spec(k: u16, g: Generation) -> Seq<char> {
    if wrap_form_name(k) is Some {
        wrap_name(wrap_form_name(k).unwrap(), base_key_name(k & 0xFF, g))
    } else if g == Generation::Current {
        if 0x5200u16 <= k <= 0x521Fu16 {
            wrap_name("TO"@, dec_str_spec((k & 0x1F) as int))
        } else if 0x5220u16 <= k <= 0x523Fu16 {
            wrap_name("MO"@, dec_str_spec((k & 0x1F) as int))
        } else if 0x5240u16 <= k <= 0x525Fu16 {
            wrap_name("DF"@, dec_str_spec((k & 0x1F) as int))
        } else if 0x52E0u16 <= k <= 0x52FFu16 {
            wrap_name("PDF"@, dec_str_spec((k & 0x1F) as int))
        } else if 0x5260u16 <= k <= 0x527Fu16 {
            wrap_name("TG"@, dec_str_spec((k & 0x1F) as int))
        } else if 0x5280u16 <= k <= 0x529Fu16 {
            wrap_name("OSL"@, dec_str_spec((k & 0x1F) as int))
        } else if 0x5000u16 <= k <= 0x51FFu16 {
            "LM"@ + "("@ + dec_str_spec(((k >> 5) & 0xF) as int) + ","@ + mod_to_name_spec(
                (k & 0x1F) as u8,
            ) + ")"@
        } else if 0x52A0u16 <= k <= 0x52BFu16 {
            wrap_name("OSM"@, mod_to_name_spec((k & 0x1F) as u8))
        } else if 0x52C0u16 <= k <= 0x52DFu16 {
            wrap_name("TT"@, dec_str_spec((k & 0x1F) as int))
        } else if 0x4000u16 <= k <= 0x4FFFu16 {
            "LT"@ + "("@ + dec_str_spec(((k >> 8) & 0xF) as int) + ","@ + base_key_name(k & 0xFF, g)
                + ")"@
        } else if 0x2000u16 <= k <= 0x3FFFu16 {
            "MT"@ + "("@ + mod_to_name_spec(((k >> 8) & 0x1F) as u8) + ","@ + base_key_name(k & 0xFF, g)
                + ")"@
        } else if 0x5700u16 <= k <= 0x57FFu16 {
            wrap_name("TD"@, dec_str_spec((k & 0xFF) as int))
        } else {
            base_key_name(k, g)
        }
    } else {
        if 0x5010u16 <= k <= 0x501Fu16 {
            wrap_name("TO"@, dec_str_spec((k & 0x0F) as int))
        } else if 0x5100u16 <= k <= 0x511Fu16 {
            wrap_name("MO"@, dec_str_spec((k & 0x1F) as int))
        } else if 0x5200u16 <= k <= 0x521Fu16 {
            wrap_name("DF"@, dec_str_spec((k & 0x1F) as int))
        } else if 0x5300u16 <= k <= 0x531Fu16 {
            wrap_name("TG"@, dec_str_spec((k & 0x1F) as int))
        } else if 0x5400u16 <= k <= 0x541Fu16 {
            wrap_name("OSL"@, dec_str_spec((k & 0x1F) as int))
        } else if 0x5500u16 <= k <= 0x551Fu16 {
            wrap_name("OSM"@, mod_to_name_spec((k & 0x1F) as u8))
        } else if 0x5800u16 <= k <= 0x581Fu16 {
            wrap_name("TT"@, dec_str_spec((k & 0x1F) as int))
        } else if 0x5900u16 <= k <= 0x59FFu16 {
            "LM"@ + "("@ + dec_str_spec(((k >> 4) & 0xF) as int) + ","@ + mod_to_name_spec(
                (k & 0x0F) as u8,
            ) + ")"@
        } else if 0x4000u16 <= k <= 0x4FFFu16 {
            "LT"@ + "("@ + dec_str_spec(((k >> 8) & 0xF) as int) + ","@ + base_key_name(k & 0xFF, g)
                + ")"@
        } else if 0x6000u16 <= k <= 0x7FFFu16 {
            "MT"@ + "("@ + mod_to_name_spec(((k >> 8) & 0x1F) as u8) + ","@ + base_key_name(k & 0xFF, g)
                + ")"@
        } else if 0x5700u16 <= k <= 0x57FFu16 {
            wrap_name("TD"@, dec_str_spec((k & 0xFF) as int))
        } else {
            base_key_name(k, g)
        }
    }
}

fn qid_name_exec(k: u16, g: Generation) -> (r: String)
    ensures
        r@ == qid_name_spec(k, g),
{
    if let Some(f) = wrap_form_name_exec(k) {
        let inner = base_key_name_exec(k & 0xFF, g);
        wrap_str(f, inner.as_str())
    } else if g == Generation::Current {
        if 0x5200u16 <= k && k <= 0x521Fu16 {
            let d = dec_string(k & 0x1F);
            wrap_str("TO", d.as_str())
        } else if 0x5220u16 <= k && k <= 0x523Fu16 {
            let d = dec_string(k & 0x1F);
            wrap_str("MO", d.as_str())
        } else if 0x5240u16 <= k && k <= 0x525Fu16 {
            let d = dec_string(k & 0x1F);
            wrap_str("DF", d.as_str())
        } else if 0x52E0u16 <= k && k <= 0x52FFu16 {
            let d = dec_string(k & 0x1F);
            wrap_str("PDF", d.as_str())
        } else if 0x5260u16 <= k && k <= 0x527Fu16 {
            let d = dec_string(k & 0x1F);
            wrap_str("TG", d.as_str())
        } else if 0x5280u16 <= k && k <= 0x529Fu16 {
            let d = dec_string(k & 0x1F);
            wrap_str("OSL", d.as_str())
        } else if 0x5000u16 <= k && k <= 0x51FFu16 {
            let d = dec_string((k >> 5) & 0xF);
            let m = mod_to_name((k & 0x1F) as u8);
            wrap_two("LM", d.as_str(), m.as_str())
        } else if 0x52A0u16 <= k && k <= 0x52BFu16 {
            let m = mod_to_name((k & 0x1F) as u8);
            wrap_str("OSM", m.as_str())
        } else if 0x52C0u16 <= k && k <= 0x52DFu16 {
            let d = dec_string(k & 0x1F);
            wrap_str("TT", d.as_str())
        } else if 0x4000u16 <= k && k <= 0x4FFFu16 {
            let d = dec_string((k >> 8) & 0xF);
            let inner = base_key_name_exec(k & 0xFF, g);
            wrap_two("LT", d.as_str(), inner.as_str())
        } else if 0x2000u16 <= k && k <= 0x3FFFu16 {
            let m = mod_to_name(((k >> 8) & 0x1F) as u8);
            let inner = base_key_name_exec(k & 0xFF, g);
            wrap_two("MT", m.as_str(), inner.as_str())
        } else if 0x5700u16 <= k && k <= 0x57FFu16 {
            let d = dec_string(k & 0xFF);
            wrap_str("TD", d.as_str())
        } else {
            base_key_name_exec(k, g)
        }
    } else {
        if 0x5010u16 <= k && k <= 0x501Fu16 {
            let d = dec_string(k & 0x0F);
            wrap_str("TO", d.as_str())
        } else if 0x5100u16 <= k && k <= 0x511Fu16 {
            let d = dec_string(k & 0x1F);
            wrap_str("MO", d.as_str())
        } else if 0x5200u16 <= k && k <= 0x521Fu16 {
            let d = dec_string(k & 0x1F);
            wrap_str("DF", d.as_str())
        } else if 0x5300u16 <= k && k <= 0x531Fu16 {
            let d = dec_string(k & 0x1F);
            wrap_str("TG", d.as_str())
        } else if 0x5400u16 <= k && k <= 0x541Fu16 {
            let d = dec_string(k & 0x1F);
            wrap_str("OSL", d.as_str())
        } else if 0x5500u16 <= k && k <= 0x551Fu16 {
            let m = mod_to_name((k & 0x1F) as u8);
            wrap_str("OSM", m.as_str())
        } else if 0x5800u16 <= k && k <= 0x581Fu16 {
            let d = dec_string(k & 0x1F);
            wrap_str("TT", d.as_str())
        } else if 0x5900u16 <= k && k <= 0x59FFu16 {
            let d = dec_string((k >> 4) & 0xF);
            let m = mod_to_name((k & 0x0F) as u8);
            wrap_two("LM", d.as_str(), m.as_str())
        } else if 0x4000u16 <= k && k <= 0x4FFFu16 {
            let d = dec_string((k >> 8) & 0xF);
            let inner = base_key_name_exec(k & 0xFF, g);
            wrap_two("LT", d.as_str(), inner.as_str())
        } else if 0x6000u16 <= k && k <= 0x7FFFu16 {
            let m = mod_to_name(((k >> 8) & 0x1F) as u8);
            let inner = base_key_name_exec(k & 0xFF, g);
            wrap_two("MT", m.as_str(), inner.as_str())
        } else if 0x5700u16 <= k && k <= 0x57FFu16 {
            let d = dec_string(k & 0xFF);
            wrap_str("TD", d.as_str())
        } else {
            base_key_name_exec(k, g)
        }
    }
}

/// Renders a keycode id as its canonical symbolic name, in the generation
/// the vial protocol version selects.
pub fn qid_to_name(keycode: u16, vial_version: u32) -> (r: String)
    ensures
        r@ == qid_name_spec(keycode, generation_of_spec(vial_version)),
{
    let g = generation_of(vial_version);
    qid_name_exec(keycode, g)
}

// ---------------------------------------------------------------------------
// Id to short display name.
// ---------------------------------------------------------------------------
/// Compact display aliases for a few ids, per generation.
pub open spec fn short_name_of(k: u16, g: Generation) -> Option<Seq<char>> {
    if g == Generation::Current {
        if k == 0x7C77u16 {
            Some("Fn1,Fn3"@)
        } else if k == 0x7C78u16 {
            Some("Fn2,Fn3"@)
        } else {
            None
        }
    } else {
        if k == 0x5F10u16 {
            Some("Fn1,Fn3"@)
        } else if k == 0x5F11u16 {
            Some("Fn2,Fn3"@)
        } else {
            None
        }
    }
}

fn short_name_lookup(k: u16, g: Generation) -> (r: Option<&'static str>)
    ensures
        match r {
            Some(s) => short_name_of(k, g) == Some(s@),
            None => short_name_of(k, g) is None,
        },
{
    if g == Generation::Current {
        if k == 0x7C77u16 {
            Some("Fn1,Fn3")
        } else if k == 0x7C78u16 {
            Some("Fn2,Fn3")
        } else {
            None
        }
    } else {
        if k == 0x5F10u16 {
            Some("Fn1,Fn3")
        } else if k == 0x5F11u16 {
            Some("Fn2,Fn3")
        } else {
            None
        }
    }
}

/// Short text for an id outside the specially shortened ranges.
pub open spec fn short_base(k: u16, g: Generation) -> Seq<char> {
    match short_name_of(k, g) {
        Some(n) => n,
        None => qid_name_spec(k, g),
    }
}

/// Compact display text for a keycode id: shift wraps and the plain layer
/// switches are abbreviated, everything else prints as the full name.
pub open spec fn qid_short_spec(k: u16, g: Generation) -> Seq<char> {
    if 0x0200u16 <= k <= 0x02FFu16 {
        "L\u{21e7},"@ + short_base(k & 0xFF, g)
    } else if 0x1200u16 <= k <= 0x12FFu16 {
        "R\u{21e7},"@ + short_base(k & 0xFF, g)
    } else if g == Generation::Current && 0x5200u16 <= k <= 0x521Fu16 {
        "TO,"@ + dec_str_spec((k & 0x1F) as int)
    } else if g == Generation::Current && 0x5220u16 <= k <= 0x523Fu16 {
        "MO,"@ + dec_str_spec((k & 0x1F) as int)
    } else if g == Generation::Current && 0x5260u16 <= k <= 0x527Fu16 {
        "TG,"@ + dec_str_spec((k & 0x1F) as int)
    } else if g == Generation::Legacy && 0x5010u16 <= k <= 0x501Fu16 {
        "TO,"@ + dec_str_spec((k & 0x0F) as int)
    } else if g == Generation::Legacy && 0x5100u16 <= k <= 0x511Fu16 {
        "MO,"@ + dec_str_spec((k & 0x1F) as int)
    } else if g == Generation::Legacy && 0x5300u16 <= k <= 0x531Fu16 {
        "TG,"@ + dec_str_spec((k & 0x1F) as int)
    } else {
        short_base(k, g)
    }
}

fn short_base_exec(k: u16, g: Generation) -> (r: String)
    ensures
        r@ == short_base(k, g),
{
    match short_name_lookup(k, g) {
        Some(s) => String::from_str(s),
        None => qid_name_exec(k, g),
    }
}

fn prefix_join(prefix: &str, tail: &str) -> (r: String)
    ensures
        r@ == prefix@ + tail@,
{
    let mut s = String::from_str(prefix);
    s.append(tail);
    s
}

/// Renders a keycode id as its compact display text, in the generation the
/// vial protocol version selects.
pub fn qid_to_short(keycode: u16, vial_version: u32) -> (r: String)
    ensures
        r@ == qid_short_spec(keycode, generation_of_spec(vial_version)),
{
    let g = generation_of(vial_version);
    let k = keycode;
    if 0x0200u16 <= k && k <= 0x02FFu16 {
        let t = short_base_exec(k & 0xFF, g);
        prefix_join("L\u{21e7},", t.as_str())
    } else if 0x1200u16 <= k && k <= 0x12FFu16 {
        let t = short_base_exec(k & 0xFF, g);
        prefix_join("R\u{21e7},", t.as_str())
    } else if g == Generation::Current && 0x5200u16 <= k && k <= 0x521Fu16 {
        let d = dec_string(k & 0x1F);
        prefix_join("TO,", d.as_str())
    } else if g == Generation::Current && 0x5220u16 <= k && k <= 0x523Fu16 {
        let d = dec_string(k & 0x1F);
        prefix_join("MO,", d.as_str())
    } else if g == Generation::Current && 0x5260u16 <= k && k <= 0x527Fu16 {
        let d = dec_string(k & 0x1F);
        prefix_join("TG,", d.as_str())
    } else if g == Generation::Legacy && 0x5010u16 <= k && k <= 0x501Fu16 {
        let d = dec_string(k & 0x0F);
        prefix_join("TO,", d.as_str())
    } else if g == Generation::Legacy && 0x5100u16 <= k && k <= 0x511Fu16 {
        let d = dec_string(k & 0x1F);
        prefix_join("MO,", d.as_str())
    } else if g == Generation::Legacy && 0x5300u16 <= k && k <= 0x531Fu16 {
        let d = dec_string(k & 0x1F);
        prefix_join("TG,", d.as_str())
    } else {
        short_base_exec(k, g)
    }
}

} // verus!
