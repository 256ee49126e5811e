//! Fixed name tables of the keycode codec: canonical names shared by
//! both generations, the per-generation special entries, and the
//! accepted alias spellings.
use vstd::prelude::*;

verus! {

pub open spec fn letter_name_of(k: u16) -> Option<Seq<char>> {
    if k == 0x0004u16 {
        Some("KC_A"@)
    } else if k == 0x0005u16 {
        Some("KC_B"@)
    } else if k == 0x0006u16 {
        Some("KC_C"@)
    } else if k == 0x0007u16 {
        Some("KC_D"@)
    } else if k == 0x0008u16 {
        Some("KC_E"@)
    } else if k == 0x0009u16 {
        Some("KC_F"@)
    } else if k == 0x000Au16 {
        Some("KC_G"@)
    } else if k == 0x000Bu16 {
        Some("KC_H"@)
    } else if k == 0x000Cu16 {
        Some("KC_I"@)
    } else if k == 0x000Du16 {
        Some("KC_J"@)
    } else if k == 0x000Eu16 {
        Some("KC_K"@)
    } else if k == 0x000Fu16 {
        Some("KC_L"@)
    } else if k == 0x0010u16 {
        Some("KC_M"@)
    } else if k == 0x0011u16 {
        Some("KC_N"@)
    } else if k == 0x0012u16 {
        Some("KC_O"@)
    } else if k == 0x0013u16 {
        Some("KC_P"@)
    } else if k == 0x0014u16 {
        Some("KC_Q"@)
    } else if k == 0x0015u16 {
        Some("KC_R"@)
    } else if k == 0x0016u16 {
        Some("KC_S"@)
    } else if k == 0x0017u16 {
        Some("KC_T"@)
    } else if k == 0x0018u16 {
        Some("KC_U"@)
    } else if k == 0x0019u16 {
        Some("KC_V"@)
    } else if k == 0x001Au16 {
        Some("KC_W"@)
    } else if k == 0x001Bu16 {
        Some("KC_X"@)
    } else if k == 0x001Cu16 {
        Some("KC_Y"@)
    } else if k == 0x001Du16 {
        Some("KC_Z"@)
    } else {
        None
    }
}

pub fn letter_name_str(k: u16) -> (r: Option<&'static str>)
    ensures
        match r {
            Some(s) => letter_name_of(k) == Some(s@) && s.is_ascii(),
            None => letter_name_of(k) is None,
        },
{
    if k == 0x0004u16 {
        proof {
            reveal_strlit("KC_A");
        }
        Some("KC_A")
    } else if k == 0x0005u16 {
        proof {
            reveal_strlit("KC_B");
        }
        Some("KC_B")
    } else if k == 0x0006u16 {
        proof {
            reveal_strlit("KC_C");
        }
        Some("KC_C")
    } else if k == 0x0007u16 {
        proof {
            reveal_strlit("KC_D");
        }
        Some("KC_D")
    } else if k == 0x0008u16 {
        proof {
            reveal_strlit("KC_E");
        }
        Some("KC_E")
    } else if k == 0x0009u16 {
        proof {
            reveal_strlit("KC_F");
        }
        Some("KC_F")
    } else if k == 0x000Au16 {
        proof {
            reveal_strlit("KC_G");
        }
        Some("KC_G")
    } else if k == 0x000Bu16 {
        proof {
            reveal_strlit("KC_H");
        }
        Some("KC_H")
    } else if k == 0x000Cu16 {
        proof {
            reveal_strlit("KC_I");
        }
        Some("KC_I")
    } else if k == 0x000Du16 {
        proof {
            reveal_strlit("KC_J");
        }
        Some("KC_J")
    } else if k == 0x000Eu16 {
        proof {
            reveal_strlit("KC_K");
        }
        Some("KC_K")
    } else if k == 0x000Fu16 {
        proof {
            reveal_strlit("KC_L");
        }
        Some("KC_L")
    } else if k == 0x0010u16 {
        proof {
            reveal_strlit("KC_M");
        }
        Some("KC_M")
    } else if k == 0x0011u16 {
        proof {
            reveal_strlit("KC_N");
        }
        Some("KC_N")
    } else if k == 0x0012u16 {
        proof {
            reveal_strlit("KC_O");
        }
        Some("KC_O")
    } else if k == 0x0013u16 {
        proof {
            reveal_strlit("KC_P");
        }
        Some("KC_P")
    } else if k == 0x0014u16 {
        proof {
            reveal_strlit("KC_Q");
        }
        Some("KC_Q")
    } else if k == 0x0015u16 {
        proof {
            reveal_strlit("KC_R");
        }
        Some("KC_R")
    } else if k == 0x0016u16 {
        proof {
            reveal_strlit("KC_S");
        }
        Some("KC_S")
    } else if k == 0x0017u16 {
        proof {
            reveal_strlit("KC_T");
        }
        Some("KC_T")
    } else if k == 0x0018u16 {
        proof {
            reveal_strlit("KC_U");
        }
        Some("KC_U")
    } else if k == 0x0019u16 {
        proof {
            reveal_strlit("KC_V");
        }
        Some("KC_V")
    } else if k == 0x001Au16 {
        proof {
            reveal_strlit("KC_W");
        }
        Some("KC_W")
    } else if k == 0x001Bu16 {
        proof {
            reveal_strlit("KC_X");
        }
        Some("KC_X")
    } else if k == 0x001Cu16 {
        proof {
            reveal_strlit("KC_Y");
        }
        Some("KC_Y")
    } else if k == 0x001Du16 {
        proof {
            reveal_strlit("KC_Z");
        }
        Some("KC_Z")
    } else {
        None
    }
}

pub open spec fn letter_id_of(n: Seq<char>) -> Option<u16> {
    if n == "KC_A"@ {
        Some(0x0004u16)
    } else if n == "KC_B"@ {
        Some(0x0005u16)
    } else if n == "KC_C"@ {
        Some(0x0006u16)
    } else if n == "KC_D"@ {
        Some(0x0007u16)
    } else if n == "KC_E"@ {
        Some(0x0008u16)
    } else if n == "KC_F"@ {
        Some(0x0009u16)
    } else if n == "KC_G"@ {
        Some(0x000Au16)
    } else if n == "KC_H"@ {
        Some(0x000Bu16)
    } else if n == "KC_I"@ {
        Some(0x000Cu16)
    } else if n == "KC_J"@ {
        Some(0x000Du16)
    } else if n == "KC_K"@ {
        Some(0x000Eu16)
    } else if n == "KC_L"@ {
        Some(0x000Fu16)
    } else if n == "KC_M"@ {
        Some(0x0010u16)
    } else if n == "KC_N"@ {
        Some(0x0011u16)
    } else if n == "KC_O"@ {
        Some(0x0012u16)
    } else if n == "KC_P"@ {
        Some(0x0013u16)
    } else if n == "KC_Q"@ {
        Some(0x0014u16)
    } else if n == "KC_R"@ {
        Some(0x0015u16)
    } else if n == "KC_S"@ {
        Some(0x0016u16)
    } else if n == "KC_T"@ {
        Some(0x0017u16)
    } else if n == "KC_U"@ {
        Some(0x0018u16)
    } else if n == "KC_V"@ {
        Some(0x0019u16)
    } else if n == "KC_W"@ {
        Some(0x001Au16)
    } else if n == "KC_X"@ {
        Some(0x001Bu16)
    } else if n == "KC_Y"@ {
        Some(0x001Cu16)
    } else if n == "KC_Z"@ {
        Some(0x001Du16)
    } else {
        None
    }
}

pub fn letter_id_lookup(n: &str) -> (r: Option<u16>)
    ensures
        r == letter_id_of(n@),
{
    if crate::strutil::str_eq(n, "KC_A") {
        Some(0x0004u16)
    } else if crate::strutil::str_eq(n, "KC_B") {
        Some(0x0005u16)
    } else if crate::strutil::str_eq(n, "KC_C") {
        Some(0x0006u16)
    } else if crate::strutil::str_eq(n, "KC_D") {
        Some(0x0007u16)
    } else if crate::strutil::str_eq(n, "KC_E") {
        Some(0x0008u16)
    } else if crate::strutil::str_eq(n, "KC_F") {
        Some(0x0009u16)
    } else if crate::strutil::str_eq(n, "KC_G") {
        Some(0x000Au16)
    } else if crate::strutil::str_eq(n, "KC_H") {
        Some(0x000Bu16)
    } else if crate::strutil::str_eq(n, "KC_I") {
        Some(0x000Cu16)
    } else if crate::strutil::str_eq(n, "KC_J") {
        Some(0x000Du16)
    } else if crate::strutil::str_eq(n, "KC_K") {
        Some(0x000Eu16)
    } else if crate::strutil::str_eq(n, "KC_L") {
        Some(0x000Fu16)
    } else if crate::strutil::str_eq(n, "KC_M") {
        Some(0x0010u16)
    } else if crate::strutil::str_eq(n, "KC_N") {
        Some(0x0011u16)
    } else if crate::strutil::str_eq(n, "KC_O") {
        Some(0x0012u16)
    } else if crate::strutil::str_eq(n, "KC_P") {
        Some(0x0013u16)
    } else if crate::strutil::str_eq(n, "KC_Q") {
        Some(0x0014u16)
    } else if crate::strutil::str_eq(n, "KC_R") {
        Some(0x0015u16)
    } else if crate::strutil::str_eq(n, "KC_S") {
        Some(0x0016u16)
    } else if crate::strutil::str_eq(n, "KC_T") {
        Some(0x0017u16)
    } else if crate::strutil::str_eq(n, "KC_U") {
        Some(0x0018u16)
    } else if crate::strutil::str_eq(n, "KC_V") {
        Some(0x0019u16)
    } else if crate::strutil::str_eq(n, "KC_W") {
        Some(0x001Au16)
    } else if crate::strutil::str_eq(n, "KC_X") {
        Some(0x001Bu16)
    } else if crate::strutil::str_eq(n, "KC_Y") {
        Some(0x001Cu16)
    } else if crate::strutil::str_eq(n, "KC_Z") {
        Some(0x001Du16)
    } else {
        None
    }
}

pub open spec fn digit_name_of(k: u16) -> Option<Seq<char>> {
    if k == 0x001Eu16 {
        Some("KC_1"@)
    } else if k == 0x001Fu16 {
        Some("KC_2"@)
    } else if k == 0x0020u16 {
        Some("KC_3"@)
    } else if k == 0x0021u16 {
        Some("KC_4"@)
    } else if k == 0x0022u16 {
        Some("KC_5"@)
    } else if k == 0x0023u16 {
        Some("KC_6"@)
    } else if k == 0x0024u16 {
        Some("KC_7"@)
    } else if k == 0x0025u16 {
        Some("KC_8"@)
    } else if k == 0x0026u16 {
        Some("KC_9"@)
    } else if k == 0x0027u16 {
        Some("KC_0"@)
    } else {
        None
    }
}

pub fn digit_name_str(k: u16) -> (r: Option<&'static str>)
    ensures
        match r {
            Some(s) => digit_name_of(k) == Some(s@) && s.is_ascii(),
            None => digit_name_of(k) is None,
        },
{
    if k == 0x001Eu16 {
        proof {
            reveal_strlit("KC_1");
        }
        Some("KC_1")
    } else if k == 0x001Fu16 {
        proof {
            reveal_strlit("KC_2");
        }
        Some("KC_2")
    } else if k == 0x0020u16 {
        proof {
            reveal_strlit("KC_3");
        }
        Some("KC_3")
    } else if k == 0x0021u16 {
        proof {
            reveal_strlit("KC_4");
        }
        Some("KC_4")
    } else if k == 0x0022u16 {
        proof {
            reveal_strlit("KC_5");
        }
        Some("KC_5")
    } else if k == 0x0023u16 {
        proof {
            reveal_strlit("KC_6");
        }
        Some("KC_6")
    } else if k == 0x0024u16 {
        proof {
            reveal_strlit("KC_7");
        }
        Some("KC_7")
    } else if k == 0x0025u16 {
        proof {
            reveal_strlit("KC_8");
        }
        Some("KC_8")
    } else if k == 0x0026u16 {
        proof {
            reveal_strlit("KC_9");
        }
        Some("KC_9")
    } else if k == 0x0027u16 {
        proof {
            reveal_strlit("KC_0");
        }
        Some("KC_0")
    } else {
        None
    }
}

pub open spec fn digit_id_of(n: Seq<char>) -> Option<u16> {
    if n == "KC_1"@ {
        Some(0x001Eu16)
    } else if n == "KC_2"@ {
        Some(0x001Fu16)
    } else if n == "KC_3"@ {
        Some(0x0020u16)
    } else if n == "KC_4"@ {
        Some(0x0021u16)
    } else if n == "KC_5"@ {
        Some(0x0022u16)
    } else if n == "KC_6"@ {
        Some(0x0023u16)
    } else if n == "KC_7"@ {
        Some(0x0024u16)
    } else if n == "KC_8"@ {
        Some(0x0025u16)
    } else if n == "KC_9"@ {
        Some(0x0026u16)
    } else if n == "KC_0"@ {
        Some(0x0027u16)
    } else {
        None
    }
}

pub fn digit_id_lookup(n: &str) -> (r: Option<u16>)
    ensures
        r == digit_id_of(n@),
{
    if crate::strutil::str_eq(n, "KC_1") {
        Some(0x001Eu16)
    } else if crate::strutil::str_eq(n, "KC_2") {
        Some(0x001Fu16)
    } else if crate::strutil::str_eq(n, "KC_3") {
        Some(0x0020u16)
    } else if crate::strutil::str_eq(n, "KC_4") {
        Some(0x0021u16)
    } else if crate::strutil::str_eq(n, "KC_5") {
        Some(0x0022u16)
    } else if crate::strutil::str_eq(n, "KC_6") {
        Some(0x0023u16)
    } else if crate::strutil::str_eq(n, "KC_7") {
        Some(0x0024u16)
    } else if crate::strutil::str_eq(n, "KC_8") {
        Some(0x0025u16)
    } else if crate::strutil::str_eq(n, "KC_9") {
        Some(0x0026u16)
    } else if crate::strutil::str_eq(n, "KC_0") {
        Some(0x0027u16)
    } else {
        None
    }
}

pub open spec fn named_name_of(k: u16) -> Option<Seq<char>> {
    if k == 0x0000u16 {
        Some("KC_NO"@)
    } else if k == 0x0001u16 {
        Some("KC_TRNS"@)
    } else if k == 0x0028u16 {
        Some("KC_ENTER"@)
    } else if k == 0x0029u16 {
        Some("KC_ESCAPE"@)
    } else if k == 0x002Au16 {
        Some("KC_BACKSPACE"@)
    } else if k == 0x002Bu16 {
        Some("KC_TAB"@)
    } else if k == 0x002Cu16 {
        Some("KC_SPACE"@)
    } else if k == 0x002Du16 {
        Some("KC_MINUS"@)
    } else if k == 0x002Eu16 {
        Some("KC_EQUAL"@)
    } else if k == 0x002Fu16 {
        Some("KC_LEFT_BRACKET"@)
    } else if k == 0x0030u16 {
        Some("KC_RIGHT_BRACKET"@)
    } else if k == 0x0031u16 {
        Some("KC_BACKSLASH"@)
    } else if k == 0x0033u16 {
        Some("KC_SEMICOLON"@)
    } else if k == 0x0034u16 {
        Some("KC_QUOTE"@)
    } else if k == 0x0035u16 {
        Some("KC_GRAVE"@)
    } else if k == 0x0036u16 {
        Some("KC_COMMA"@)
    } else if k == 0x0037u16 {
        Some("KC_DOT"@)
    } else if k == 0x0038u16 {
        Some("KC_SLASH"@)
    } else if k == 0x0039u16 {
        Some("KC_CAPS_LOCK"@)
    } else if k == 0x0049u16 {
        Some("KC_INSERT"@)
    } else if k == 0x004Au16 {
        Some("KC_HOME"@)
    } else if k == 0x004Bu16 {
        Some("KC_PAGE_UP"@)
    } else if k == 0x004Cu16 {
        Some("KC_DELETE"@)
    } else if k == 0x004Du16 {
        Some("KC_END"@)
    } else if k == 0x004Eu16 {
        Some("KC_PAGE_DOWN"@)
    } else if k == 0x004Fu16 {
        Some("KC_RIGHT"@)
    } else if k == 0x0050u16 {
        Some("KC_LEFT"@)
    } else if k == 0x0051u16 {
        Some("KC_DOWN"@)
    } else if k == 0x0052u16 {
        Some("KC_UP"@)
    } else {
        None
    }
}

pub fn named_name_str(k: u16) -> (r: Option<&'static str>)
    ensures
        match r {
            Some(s) => named_name_of(k) == Some(s@) && s.is_ascii(),
            None => named_name_of(k) is None,
        },
{
    if k == 0x0000u16 {
        proof {
            reveal_strlit("KC_NO");
        }
        Some("KC_NO")
    } else if k == 0x0001u16 {
        proof {
            reveal_strlit("KC_TRNS");
        }
        Some("KC_TRNS")
    } else if k == 0x0028u16 {
        proof {
            reveal_strlit("KC_ENTER");
        }
        Some("KC_ENTER")
    } else if k == 0x0029u16 {
        proof {
            reveal_strlit("KC_ESCAPE");
        }
        Some("KC_ESCAPE")
    } else if k == 0x002Au16 {
        proof {
            reveal_strlit("KC_BACKSPACE");
        }
        Some("KC_BACKSPACE")
    } else if k == 0x002Bu16 {
        proof {
            reveal_strlit("KC_TAB");
        }
        Some("KC_TAB")
    } else if k == 0x002Cu16 {
        proof {
            reveal_strlit("KC_SPACE");
        }
        Some("KC_SPACE")
    } else if k == 0x002Du16 {
        proof {
            reveal_strlit("KC_MINUS");
        }
        Some("KC_MINUS")
    } else if k == 0x002Eu16 {
        proof {
            reveal_strlit("KC_EQUAL");
        }
        Some("KC_EQUAL")
    } else if k == 0x002Fu16 {
        proof {
            reveal_strlit("KC_LEFT_BRACKET");
        }
        Some("KC_LEFT_BRACKET")
    } else if k == 0x0030u16 {
        proof {
            reveal_strlit("KC_RIGHT_BRACKET");
        }
        Some("KC_RIGHT_BRACKET")
    } else if k == 0x0031u16 {
        proof {
            reveal_strlit("KC_BACKSLASH");
        }
        Some("KC_BACKSLASH")
    } else if k == 0x0033u16 {
        proof {
            reveal_strlit("KC_SEMICOLON");
        }
        Some("KC_SEMICOLON")
    } else if k == 0x0034u16 {
        proof {
            reveal_strlit("KC_QUOTE");
        }
        Some("KC_QUOTE")
    } else if k == 0x0035u16 {
        proof {
            reveal_strlit("KC_GRAVE");
        }
        Some("KC_GRAVE")
    } else if k == 0x0036u16 {
        proof {
            reveal_strlit("KC_COMMA");
        }
        Some("KC_COMMA")
    } else if k == 0x0037u16 {
        proof {
            reveal_strlit("KC_DOT");
        }
        Some("KC_DOT")
    } else if k == 0x0038u16 {
        proof {
            reveal_strlit("KC_SLASH");
        }
        Some("KC_SLASH")
    } else if k == 0x0039u16 {
        proof {
            reveal_strlit("KC_CAPS_LOCK");
        }
        Some("KC_CAPS_LOCK")
    } else if k == 0x0049u16 {
        proof {
            reveal_strlit("KC_INSERT");
        }
        Some("KC_INSERT")
    } else if k == 0x004Au16 {
        proof {
            reveal_strlit("KC_HOME");
        }
        Some("KC_HOME")
    } else if k == 0x004Bu16 {
        proof {
            reveal_strlit("KC_PAGE_UP");
        }
        Some("KC_PAGE_UP")
    } else if k == 0x004Cu16 {
        proof {
            reveal_strlit("KC_DELETE");
        }
        Some("KC_DELETE")
    } else if k == 0x004Du16 {
        proof {
            reveal_strlit("KC_END");
        }
        Some("KC_END")
    } else if k == 0x004Eu16 {
        proof {
            reveal_strlit("KC_PAGE_DOWN");
        }
        Some("KC_PAGE_DOWN")
    } else if k == 0x004Fu16 {
        proof {
            reveal_strlit("KC_RIGHT");
        }
        Some("KC_RIGHT")
    } else if k == 0x0050u16 {
        proof {
            reveal_strlit("KC_LEFT");
        }
        Some("KC_LEFT")
    } else if k == 0x0051u16 {
        proof {
            reveal_strlit("KC_DOWN");
        }
        Some("KC_DOWN")
    } else if k == 0x0052u16 {
        proof {
            reveal_strlit("KC_UP");
        }
        Some("KC_UP")
    } else {
        None
    }
}

pub open spec fn named_id_of(n: Seq<char>) -> Option<u16> {
    if n == "KC_NO"@ {
        Some(0x0000u16)
    } else if n == "KC_TRNS"@ {
        Some(0x0001u16)
    } else if n == "KC_ENTER"@ {
        Some(0x0028u16)
    } else if n == "KC_ESCAPE"@ {
        Some(0x0029u16)
    } else if n == "KC_BACKSPACE"@ {
        Some(0x002Au16)
    } else if n == "KC_TAB"@ {
        Some(0x002Bu16)
    } else if n == "KC_SPACE"@ {
        Some(0x002Cu16)
    } else if n == "KC_MINUS"@ {
        Some(0x002Du16)
    } else if n == "KC_EQUAL"@ {
        Some(0x002Eu16)
    } else if n == "KC_LEFT_BRACKET"@ {
        Some(0x002Fu16)
    } else if n == "KC_RIGHT_BRACKET"@ {
        Some(0x0030u16)
    } else if n == "KC_BACKSLASH"@ {
        Some(0x0031u16)
    } else if n == "KC_SEMICOLON"@ {
        Some(0x0033u16)
    } else if n == "KC_QUOTE"@ {
        Some(0x0034u16)
    } else if n == "KC_GRAVE"@ {
        Some(0x0035u16)
    } else if n == "KC_COMMA"@ {
        Some(0x0036u16)
    } else if n == "KC_DOT"@ {
        Some(0x0037u16)
    } else if n == "KC_SLASH"@ {
        Some(0x0038u16)
    } else if n == "KC_CAPS_LOCK"@ {
        Some(0x0039u16)
    } else if n == "KC_INSERT"@ {
        Some(0x0049u16)
    } else if n == "KC_HOME"@ {
        Some(0x004Au16)
    } else if n == "KC_PAGE_UP"@ {
        Some(0x004Bu16)
    } else if n == "KC_DELETE"@ {
        Some(0x004Cu16)
    } else if n == "KC_END"@ {
        Some(0x004Du16)
    } else if n == "KC_PAGE_DOWN"@ {
        Some(0x004Eu16)
    } else if n == "KC_RIGHT"@ {
        Some(0x004Fu16)
    } else if n == "KC_LEFT"@ {
        Some(0x0050u16)
    } else if n == "KC_DOWN"@ {
        Some(0x0051u16)
    } else if n == "KC_UP"@ {
        Some(0x0052u16)
    } else {
        None
    }
}

pub fn named_id_lookup(n: &str) -> (r: Option<u16>)
    ensures
        r == named_id_of(n@),
{
    if crate::strutil::str_eq(n, "KC_NO") {
        Some(0x0000u16)
    } else if crate::strutil::str_eq(n, "KC_TRNS") {
        Some(0x0001u16)
    } else if crate::strutil::str_eq(n, "KC_ENTER") {
        Some(0x0028u16)
    } else if crate::strutil::str_eq(n, "KC_ESCAPE") {
        Some(0x0029u16)
    } else if crate::strutil::str_eq(n, "KC_BACKSPACE") {
        Some(0x002Au16)
    } else if crate::strutil::str_eq(n, "KC_TAB") {
        Some(0x002Bu16)
    } else if crate::strutil::str_eq(n, "KC_SPACE") {
        Some(0x002Cu16)
    } else if crate::strutil::str_eq(n, "KC_MINUS") {
        Some(0x002Du16)
    } else if crate::strutil::str_eq(n, "KC_EQUAL") {
        Some(0x002Eu16)
    } else if crate::strutil::str_eq(n, "KC_LEFT_BRACKET") {
        Some(0x002Fu16)
    } else if crate::strutil::str_eq(n, "KC_RIGHT_BRACKET") {
        Some(0x0030u16)
    } else if crate::strutil::str_eq(n, "KC_BACKSLASH") {
        Some(0x0031u16)
    } else if crate::strutil::str_eq(n, "KC_SEMICOLON") {
        Some(0x0033u16)
    } else if crate::strutil::str_eq(n, "KC_QUOTE") {
        Some(0x0034u16)
    } else if crate::strutil::str_eq(n, "KC_GRAVE") {
        Some(0x0035u16)
    } else if crate::strutil::str_eq(n, "KC_COMMA") {
        Some(0x0036u16)
    } else if crate::strutil::str_eq(n, "KC_DOT") {
        Some(0x0037u16)
    } else if crate::strutil::str_eq(n, "KC_SLASH") {
        Some(0x0038u16)
    } else if crate::strutil::str_eq(n, "KC_CAPS_LOCK") {
        Some(0x0039u16)
    } else if crate::strutil::str_eq(n, "KC_INSERT") {
        Some(0x0049u16)
    } else if crate::strutil::str_eq(n, "KC_HOME") {
        Some(0x004Au16)
    } else if crate::strutil::str_eq(n, "KC_PAGE_UP") {
        Some(0x004Bu16)
    } else if crate::strutil::str_eq(n, "KC_DELETE") {
        Some(0x004Cu16)
    } else if crate::strutil::str_eq(n, "KC_END") {
        Some(0x004Du16)
    } else if crate::strutil::str_eq(n, "KC_PAGE_DOWN") {
        Some(0x004Eu16)
    } else if crate::strutil::str_eq(n, "KC_RIGHT") {
        Some(0x004Fu16)
    } else if crate::strutil::str_eq(n, "KC_LEFT") {
        Some(0x0050u16)
    } else if crate::strutil::str_eq(n, "KC_DOWN") {
        Some(0x0051u16)
    } else if crate::strutil::str_eq(n, "KC_UP") {
        Some(0x0052u16)
    } else {
        None
    }
}

pub open spec fn fkey_name_of(k: u16) -> Option<Seq<char>> {
    if k == 0x003Au16 {
        Some("KC_F1"@)
    } else if k == 0x003Bu16 {
        Some("KC_F2"@)
    } else if k == 0x003Cu16 {
        Some("KC_F3"@)
    } else if k == 0x003Du16 {
        Some("KC_F4"@)
    } else if k == 0x003Eu16 {
        Some("KC_F5"@)
    } else if k == 0x003Fu16 {
        Some("KC_F6"@)
    } else if k == 0x0040u16 {
        Some("KC_F7"@)
    } else if k == 0x0041u16 {
        Some("KC_F8"@)
    } else if k == 0x0042u16 {
        Some("KC_F9"@)
    } else if k == 0x0043u16 {
        Some("KC_F10"@)
    } else if k == 0x0044u16 {
        Some("KC_F11"@)
    } else if k == 0x0045u16 {
        Some("KC_F12"@)
    } else {
        None
    }
}

pub fn fkey_name_str(k: u16) -> (r: Option<&'static str>)
    ensures
        match r {
            Some(s) => fkey_name_of(k) == Some(s@) && s.is_ascii(),
            None => fkey_name_of(k) is None,
        },
{
    if k == 0x003Au16 {
        proof {
            reveal_strlit("KC_F1");
        }
        Some("KC_F1")
    } else if k == 0x003Bu16 {
        proof {
            reveal_strlit("KC_F2");
        }
        Some("KC_F2")
    } else if k == 0x003Cu16 {
        proof {
            reveal_strlit("KC_F3");
        }
        Some("KC_F3")
    } else if k == 0x003Du16 {
        proof {
            reveal_strlit("KC_F4");
        }
        Some("KC_F4")
    } else if k == 0x003Eu16 {
        proof {
            reveal_strlit("KC_F5");
        }
        Some("KC_F5")
    } else if k == 0x003Fu16 {
        proof {
            reveal_strlit("KC_F6");
        }
        Some("KC_F6")
    } else if k == 0x0040u16 {
        proof {
            reveal_strlit("KC_F7");
        }
        Some("KC_F7")
    } else if k == 0x0041u16 {
        proof {
            reveal_strlit("KC_F8");
        }
        Some("KC_F8")
    } else if k == 0x0042u16 {
        proof {
            reveal_strlit("KC_F9");
        }
        Some("KC_F9")
    } else if k == 0x0043u16 {
        proof {
            reveal_strlit("KC_F10");
        }
        Some("KC_F10")
    } else if k == 0x0044u16 {
        proof {
            reveal_strlit("KC_F11");
        }
        Some("KC_F11")
    } else if k == 0x0045u16 {
        proof {
            reveal_strlit("KC_F12");
        }
        Some("KC_F12")
    } else {
        None
    }
}

pub open spec fn fkey_id_of(n: Seq<char>) -> Option<u16> {
    if n == "KC_F1"@ {
        Some(0x003Au16)
    } else if n == "KC_F2"@ {
        Some(0x003Bu16)
    } else if n == "KC_F3"@ {
        Some(0x003Cu16)
    } else if n == "KC_F4"@ {
        Some(0x003Du16)
    } else if n == "KC_F5"@ {
        Some(0x003Eu16)
    } else if n == "KC_F6"@ {
        Some(0x003Fu16)
    } else if n == "KC_F7"@ {
        Some(0x0040u16)
    } else if n == "KC_F8"@ {
        Some(0x0041u16)
    } else if n == "KC_F9"@ {
        Some(0x0042u16)
    } else if n == "KC_F10"@ {
        Some(0x0043u16)
    } else if n == "KC_F11"@ {
        Some(0x0044u16)
    } else if n == "KC_F12"@ {
        Some(0x0045u16)
    } else {
        None
    }
}

pub fn fkey_id_lookup(n: &str) -> (r: Option<u16>)
    ensures
        r == fkey_id_of(n@),
{
    if crate::strutil::str_eq(n, "KC_F1") {
        Some(0x003Au16)
    } else if crate::strutil::str_eq(n, "KC_F2") {
        Some(0x003Bu16)
    } else if crate::strutil::str_eq(n, "KC_F3") {
        Some(0x003Cu16)
    } else if crate::strutil::str_eq(n, "KC_F4") {
        Some(0x003Du16)
    } else if crate::strutil::str_eq(n, "KC_F5") {
        Some(0x003Eu16)
    } else if crate::strutil::str_eq(n, "KC_F6") {
        Some(0x003Fu16)
    } else if crate::strutil::str_eq(n, "KC_F7") {
        Some(0x0040u16)
    } else if crate::strutil::str_eq(n, "KC_F8") {
        Some(0x0041u16)
    } else if crate::strutil::str_eq(n, "KC_F9") {
        Some(0x0042u16)
    } else if crate::strutil::str_eq(n, "KC_F10") {
        Some(0x0043u16)
    } else if crate::strutil::str_eq(n, "KC_F11") {
        Some(0x0044u16)
    } else if crate::strutil::str_eq(n, "KC_F12") {
        Some(0x0045u16)
    } else {
        None
    }
}

pub open spec fn modkey_name_of(k: u16) -> Option<Seq<char>> {
    if k == 0x00E0u16 {
        Some("KC_LEFT_CTRL"@)
    } else if k == 0x00E1u16 {
        Some("KC_LEFT_SHIFT"@)
    } else if k == 0x00E2u16 {
        Some("KC_LEFT_ALT"@)
    } else if k == 0x00E3u16 {
        Some("KC_LEFT_GUI"@)
    } else if k == 0x00E4u16 {
        Some("KC_RIGHT_CTRL"@)
    } else if k == 0x00E5u16 {
        Some("KC_RIGHT_SHIFT"@)
    } else if k == 0x00E6u16 {
        Some("KC_RIGHT_ALT"@)
    } else if k == 0x00E7u16 {
        Some("KC_RIGHT_GUI"@)
    } else {
        None
    }
}

pub fn modkey_name_str(k: u16) -> (r: Option<&'static str>)
    ensures
        match r {
            Some(s) => modkey_name_of(k) == Some(s@) && s.is_ascii(),
            None => modkey_name_of(k) is None,
        },
{
    if k == 0x00E0u16 {
        proof {
            reveal_strlit("KC_LEFT_CTRL");
        }
        Some("KC_LEFT_CTRL")
    } else if k == 0x00E1u16 {
        proof {
            reveal_strlit("KC_LEFT_SHIFT");
        }
        Some("KC_LEFT_SHIFT")
    } else if k == 0x00E2u16 {
        proof {
            reveal_strlit("KC_LEFT_ALT");
        }
        Some("KC_LEFT_ALT")
    } else if k == 0x00E3u16 {
        proof {
            reveal_strlit("KC_LEFT_GUI");
        }
        Some("KC_LEFT_GUI")
    } else if k == 0x00E4u16 {
        proof {
            reveal_strlit("KC_RIGHT_CTRL");
        }
        Some("KC_RIGHT_CTRL")
    } else if k == 0x00E5u16 {
        proof {
            reveal_strlit("KC_RIGHT_SHIFT");
        }
        Some("KC_RIGHT_SHIFT")
    } else if k == 0x00E6u16 {
        proof {
            reveal_strlit("KC_RIGHT_ALT");
        }
        Some("KC_RIGHT_ALT")
    } else if k == 0x00E7u16 {
        proof {
            reveal_strlit("KC_RIGHT_GUI");
        }
        Some("KC_RIGHT_GUI")
    } else {
        None
    }
}

pub open spec fn modkey_id_of(n: Seq<char>) -> Option<u16> {
    if n == "KC_LEFT_CTRL"@ {
        Some(0x00E0u16)
    } else if n == "KC_LEFT_SHIFT"@ {
        Some(0x00E1u16)
    } else if n == "KC_LEFT_ALT"@ {
        Some(0x00E2u16)
    } else if n == "KC_LEFT_GUI"@ {
        Some(0x00E3u16)
    } else if n == "KC_RIGHT_CTRL"@ {
        Some(0x00E4u16)
    } else if n == "KC_RIGHT_SHIFT"@ {
        Some(0x00E5u16)
    } else if n == "KC_RIGHT_ALT"@ {
        Some(0x00E6u16)
    } else if n == "KC_RIGHT_GUI"@ {
        Some(0x00E7u16)
    } else {
        None
    }
}

pub fn modkey_id_lookup(n: &str) -> (r: Option<u16>)
    ensures
        r == modkey_id_of(n@),
{
    if crate::strutil::str_eq(n, "KC_LEFT_CTRL") {
        Some(0x00E0u16)
    } else if crate::strutil::str_eq(n, "KC_LEFT_SHIFT") {
        Some(0x00E1u16)
    } else if crate::strutil::str_eq(n, "KC_LEFT_ALT") {
        Some(0x00E2u16)
    } else if crate::strutil::str_eq(n, "KC_LEFT_GUI") {
        Some(0x00E3u16)
    } else if crate::strutil::str_eq(n, "KC_RIGHT_CTRL") {
        Some(0x00E4u16)
    } else if crate::strutil::str_eq(n, "KC_RIGHT_SHIFT") {
        Some(0x00E5u16)
    } else if crate::strutil::str_eq(n, "KC_RIGHT_ALT") {
        Some(0x00E6u16)
    } else if crate::strutil::str_eq(n, "KC_RIGHT_GUI") {
        Some(0x00E7u16)
    } else {
        None
    }
}

pub open spec fn extra_cur_name_of(k: u16) -> Option<Seq<char>> {
    if k == 0x7013u16 {
        Some("QK_MAGIC_TOGGLE_NKRO"@)
    } else if k == 0x7C77u16 {
        Some("QK_TRI_LAYER_LOWER"@)
    } else if k == 0x7C78u16 {
        Some("QK_TRI_LAYER_UPPER"@)
    } else if k == 0x7700u16 {
        Some("QK_MACRO_0"@)
    } else if k == 0x7701u16 {
        Some("QK_MACRO_1"@)
    } else if k == 0x7702u16 {
        Some("QK_MACRO_2"@)
    } else if k == 0x7703u16 {
        Some("QK_MACRO_3"@)
    } else if k == 0x7704u16 {
        Some("QK_MACRO_4"@)
    } else if k == 0x7705u16 {
        Some("QK_MACRO_5"@)
    } else if k == 0x7706u16 {
        Some("QK_MACRO_6"@)
    } else if k == 0x7707u16 {
        Some("QK_MACRO_7"@)
    } else if k == 0x7708u16 {
        Some("QK_MACRO_8"@)
    } else if k == 0x7709u16 {
        Some("QK_MACRO_9"@)
    } else if k == 0x770Au16 {
        Some("QK_MACRO_10"@)
    } else if k == 0x770Bu16 {
        Some("QK_MACRO_11"@)
    } else if k == 0x770Cu16 {
        Some("QK_MACRO_12"@)
    } else if k == 0x770Du16 {
        Some("QK_MACRO_13"@)
    } else if k == 0x770Eu16 {
        Some("QK_MACRO_14"@)
    } else if k == 0x770Fu16 {
        Some("QK_MACRO_15"@)
    } else {
        None
    }
}

pub fn extra_cur_name_str(k: u16) -> (r: Option<&'static str>)
    ensures
        match r {
            Some(s) => extra_cur_name_of(k) == Some(s@) && s.is_ascii(),
            None => extra_cur_name_of(k) is None,
        },
{
    if k == 0x7013u16 {
        proof {
            reveal_strlit("QK_MAGIC_TOGGLE_NKRO");
        }
        Some("QK_MAGIC_TOGGLE_NKRO")
    } else if k == 0x7C77u16 {
        proof {
            reveal_strlit("QK_TRI_LAYER_LOWER");
        }
        Some("QK_TRI_LAYER_LOWER")
    } else if k == 0x7C78u16 {
        proof {
            reveal_strlit("QK_TRI_LAYER_UPPER");
        }
        Some("QK_TRI_LAYER_UPPER")
    } else if k == 0x7700u16 {
        proof {
            reveal_strlit("QK_MACRO_0");
        }
        Some("QK_MACRO_0")
    } else if k == 0x7701u16 {
        proof {
            reveal_strlit("QK_MACRO_1");
        }
        Some("QK_MACRO_1")
    } else if k == 0x7702u16 {
        proof {
            reveal_strlit("QK_MACRO_2");
        }
        Some("QK_MACRO_2")
    } else if k == 0x7703u16 {
        proof {
            reveal_strlit("QK_MACRO_3");
        }
        Some("QK_MACRO_3")
    } else if k == 0x7704u16 {
        proof {
            reveal_strlit("QK_MACRO_4");
        }
        Some("QK_MACRO_4")
    } else if k == 0x7705u16 {
        proof {
            reveal_strlit("QK_MACRO_5");
        }
        Some("QK_MACRO_5")
    } else if k == 0x7706u16 {
        proof {
            reveal_strlit("QK_MACRO_6");
        }
        Some("QK_MACRO_6")
    } else if k == 0x7707u16 {
        proof {
            reveal_strlit("QK_MACRO_7");
        }
        Some("QK_MACRO_7")
    } else if k == 0x7708u16 {
        proof {
            reveal_strlit("QK_MACRO_8");
        }
        Some("QK_MACRO_8")
    } else if k == 0x7709u16 {
        proof {
            reveal_strlit("QK_MACRO_9");
        }
        Some("QK_MACRO_9")
    } else if k == 0x770Au16 {
        proof {
            reveal_strlit("QK_MACRO_10");
        }
        Some("QK_MACRO_10")
    } else if k == 0x770Bu16 {
        proof {
            reveal_strlit("QK_MACRO_11");
        }
        Some("QK_MACRO_11")
    } else if k == 0x770Cu16 {
        proof {
            reveal_strlit("QK_MACRO_12");
        }
        Some("QK_MACRO_12")
    } else if k == 0x770Du16 {
        proof {
            reveal_strlit("QK_MACRO_13");
        }
        Some("QK_MACRO_13")
    } else if k == 0x770Eu16 {
        proof {
            reveal_strlit("QK_MACRO_14");
        }
        Some("QK_MACRO_14")
    } else if k == 0x770Fu16 {
        proof {
            reveal_strlit("QK_MACRO_15");
        }
        Some("QK_MACRO_15")
    } else {
        None
    }
}

pub open spec fn extra_cur_id_of(n: Seq<char>) -> Option<u16> {
    if n == "QK_MAGIC_TOGGLE_NKRO"@ {
        Some(0x7013u16)
    } else if n == "QK_TRI_LAYER_LOWER"@ {
        Some(0x7C77u16)
    } else if n == "QK_TRI_LAYER_UPPER"@ {
        Some(0x7C78u16)
    } else if n == "QK_MACRO_0"@ {
        Some(0x7700u16)
    } else if n == "QK_MACRO_1"@ {
        Some(0x7701u16)
    } else if n == "QK_MACRO_2"@ {
        Some(0x7702u16)
    } else if n == "QK_MACRO_3"@ {
        Some(0x7703u16)
    } else if n == "QK_MACRO_4"@ {
        Some(0x7704u16)
    } else if n == "QK_MACRO_5"@ {
        Some(0x7705u16)
    } else if n == "QK_MACRO_6"@ {
        Some(0x7706u16)
    } else if n == "QK_MACRO_7"@ {
        Some(0x7707u16)
    } else if n == "QK_MACRO_8"@ {
        Some(0x7708u16)
    } else if n == "QK_MACRO_9"@ {
        Some(0x7709u16)
    } else if n == "QK_MACRO_10"@ {
        Some(0x770Au16)
    } else if n == "QK_MACRO_11"@ {
        Some(0x770Bu16)
    } else if n == "QK_MACRO_12"@ {
        Some(0x770Cu16)
    } else if n == "QK_MACRO_13"@ {
        Some(0x770Du16)
    } else if n == "QK_MACRO_14"@ {
        Some(0x770Eu16)
    } else if n == "QK_MACRO_15"@ {
        Some(0x770Fu16)
    } else {
        None
    }
}

pub fn extra_cur_id_lookup(n: &str) -> (r: Option<u16>)
    ensures
        r == extra_cur_id_of(n@),
{
    if crate::strutil::str_eq(n, "QK_MAGIC_TOGGLE_NKRO") {
        Some(0x7013u16)
    } else if crate::strutil::str_eq(n, "QK_TRI_LAYER_LOWER") {
        Some(0x7C77u16)
    } else if crate::strutil::str_eq(n, "QK_TRI_LAYER_UPPER") {
        Some(0x7C78u16)
    } else if crate::strutil::str_eq(n, "QK_MACRO_0") {
        Some(0x7700u16)
    } else if crate::strutil::str_eq(n, "QK_MACRO_1") {
        Some(0x7701u16)
    } else if crate::strutil::str_eq(n, "QK_MACRO_2") {
        Some(0x7702u16)
    } else if crate::strutil::str_eq(n, "QK_MACRO_3") {
        Some(0x7703u16)
    } else if crate::strutil::str_eq(n, "QK_MACRO_4") {
        Some(0x7704u16)
    } else if crate::strutil::str_eq(n, "QK_MACRO_5") {
        Some(0x7705u16)
    } else if crate::strutil::str_eq(n, "QK_MACRO_6") {
        Some(0x7706u16)
    } else if crate::strutil::str_eq(n, "QK_MACRO_7") {
        Some(0x7707u16)
    } else if crate::strutil::str_eq(n, "QK_MACRO_8") {
        Some(0x7708u16)
    } else if crate::strutil::str_eq(n, "QK_MACRO_9") {
        Some(0x7709u16)
    } else if crate::strutil::str_eq(n, "QK_MACRO_10") {
        Some(0x770Au16)
    } else if crate::strutil::str_eq(n, "QK_MACRO_11") {
        Some(0x770Bu16)
    } else if crate::strutil::str_eq(n, "QK_MACRO_12") {
        Some(0x770Cu16)
    } else if crate::strutil::str_eq(n, "QK_MACRO_13") {
        Some(0x770Du16)
    } else if crate::strutil::str_eq(n, "QK_MACRO_14") {
        Some(0x770Eu16)
    } else if crate::strutil::str_eq(n, "QK_MACRO_15") {
        Some(0x770Fu16)
    } else {
        None
    }
}

pub open spec fn extra_leg_name_of(k: u16) -> Option<Seq<char>> {
    if k == 0x5C14u16 {
        Some("QK_MAGIC_TOGGLE_NKRO"@)
    } else if k == 0x5F10u16 {
        Some("QK_TRI_LAYER_LOWER"@)
    } else if k == 0x5F11u16 {
        Some("QK_TRI_LAYER_UPPER"@)
    } else if k == 0x5F12u16 {
        Some("QK_MACRO_0"@)
    } else if k == 0x5F13u16 {
        Some("QK_MACRO_1"@)
    } else if k == 0x5F14u16 {
        Some("QK_MACRO_2"@)
    } else if k == 0x5F15u16 {
        Some("QK_MACRO_3"@)
    } else if k == 0x5F16u16 {
        Some("QK_MACRO_4"@)
    } else if k == 0x5F17u16 {
        Some("QK_MACRO_5"@)
    } else if k == 0x5F18u16 {
        Some("QK_MACRO_6"@)
    } else if k == 0x5F19u16 {
        Some("QK_MACRO_7"@)
    } else if k == 0x5F1Au16 {
        Some("QK_MACRO_8"@)
    } else if k == 0x5F1Bu16 {
        Some("QK_MACRO_9"@)
    } else if k == 0x5F1Cu16 {
        Some("QK_MACRO_10"@)
    } else if k == 0x5F1Du16 {
        Some("QK_MACRO_11"@)
    } else if k == 0x5F1Eu16 {
        Some("QK_MACRO_12"@)
    } else if k == 0x5F1Fu16 {
        Some("QK_MACRO_13"@)
    } else if k == 0x5F20u16 {
        Some("QK_MACRO_14"@)
    } else if k == 0x5F21u16 {
        Some("QK_MACRO_15"@)
    } else {
        None
    }
}

pub fn extra_leg_name_str(k: u16) -> (r: Option<&'static str>)
    ensures
        match r {
            Some(s) => extra_leg_name_of(k) == Some(s@) && s.is_ascii(),
            None => extra_leg_name_of(k) is None,
        },
{
    if k == 0x5C14u16 {
        proof {
            reveal_strlit("QK_MAGIC_TOGGLE_NKRO");
        }
        Some("QK_MAGIC_TOGGLE_NKRO")
    } else if k == 0x5F10u16 {
        proof {
            reveal_strlit("QK_TRI_LAYER_LOWER");
        }
        Some("QK_TRI_LAYER_LOWER")
    } else if k == 0x5F11u16 {
        proof {
            reveal_strlit("QK_TRI_LAYER_UPPER");
        }
        Some("QK_TRI_LAYER_UPPER")
    } else if k == 0x5F12u16 {
        proof {
            reveal_strlit("QK_MACRO_0");
        }
        Some("QK_MACRO_0")
    } else if k == 0x5F13u16 {
        proof {
            reveal_strlit("QK_MACRO_1");
        }
        Some("QK_MACRO_1")
    } else if k == 0x5F14u16 {
        proof {
            reveal_strlit("QK_MACRO_2");
        }
        Some("QK_MACRO_2")
    } else if k == 0x5F15u16 {
        proof {
            reveal_strlit("QK_MACRO_3");
        }
        Some("QK_MACRO_3")
    } else if k == 0x5F16u16 {
        proof {
            reveal_strlit("QK_MACRO_4");
        }
        Some("QK_MACRO_4")
    } else if k == 0x5F17u16 {
        proof {
            reveal_strlit("QK_MACRO_5");
        }
        Some("QK_MACRO_5")
    } else if k == 0x5F18u16 {
        proof {
            reveal_strlit("QK_MACRO_6");
        }
        Some("QK_MACRO_6")
    } else if k == 0x5F19u16 {
        proof {
            reveal_strlit("QK_MACRO_7");
        }
        Some("QK_MACRO_7")
    } else if k == 0x5F1Au16 {
        proof {
            reveal_strlit("QK_MACRO_8");
        }
        Some("QK_MACRO_8")
    } else if k == 0x5F1Bu16 {
        proof {
            reveal_strlit("QK_MACRO_9");
        }
        Some("QK_MACRO_9")
    } else if k == 0x5F1Cu16 {
        proof {
            reveal_strlit("QK_MACRO_10");
        }
        Some("QK_MACRO_10")
    } else if k == 0x5F1Du16 {
        proof {
            reveal_strlit("QK_MACRO_11");
        }
        Some("QK_MACRO_11")
    } else if k == 0x5F1Eu16 {
        proof {
            reveal_strlit("QK_MACRO_12");
        }
        Some("QK_MACRO_12")
    } else if k == 0x5F1Fu16 {
        proof {
            reveal_strlit("QK_MACRO_13");
        }
        Some("QK_MACRO_13")
    } else if k == 0x5F20u16 {
        proof {
            reveal_strlit("QK_MACRO_14");
        }
        Some("QK_MACRO_14")
    } else if k == 0x5F21u16 {
        proof {
            reveal_strlit("QK_MACRO_15");
        }
        Some("QK_MACRO_15")
    } else {
        None
    }
}

pub open spec fn extra_leg_id_of(n: Seq<char>) -> Option<u16> {
    if n == "QK_MAGIC_TOGGLE_NKRO"@ {
        Some(0x5C14u16)
    } else if n == "QK_TRI_LAYER_LOWER"@ {
        Some(0x5F10u16)
    } else if n == "QK_TRI_LAYER_UPPER"@ {
        Some(0x5F11u16)
    } else if n == "QK_MACRO_0"@ {
        Some(0x5F12u16)
    } else if n == "QK_MACRO_1"@ {
        Some(0x5F13u16)
    } else if n == "QK_MACRO_2"@ {
        Some(0x5F14u16)
    } else if n == "QK_MACRO_3"@ {
        Some(0x5F15u16)
    } else if n == "QK_MACRO_4"@ {
        Some(0x5F16u16)
    } else if n == "QK_MACRO_5"@ {
        Some(0x5F17u16)
    } else if n == "QK_MACRO_6"@ {
        Some(0x5F18u16)
    } else if n == "QK_MACRO_7"@ {
        Some(0x5F19u16)
    } else if n == "QK_MACRO_8"@ {
        Some(0x5F1Au16)
    } else if n == "QK_MACRO_9"@ {
        Some(0x5F1Bu16)
    } else if n == "QK_MACRO_10"@ {
        Some(0x5F1Cu16)
    } else if n == "QK_MACRO_11"@ {
        Some(0x5F1Du16)
    } else if n == "QK_MACRO_12"@ {
        Some(0x5F1Eu16)
    } else if n == "QK_MACRO_13"@ {
        Some(0x5F1Fu16)
    } else if n == "QK_MACRO_14"@ {
        Some(0x5F20u16)
    } else if n == "QK_MACRO_15"@ {
        Some(0x5F21u16)
    } else {
        None
    }
}

pub fn extra_leg_id_lookup(n: &str) -> (r: Option<u16>)
    ensures
        r == extra_leg_id_of(n@),
{
    if crate::strutil::str_eq(n, "QK_MAGIC_TOGGLE_NKRO") {
        Some(0x5C14u16)
    } else if crate::strutil::str_eq(n, "QK_TRI_LAYER_LOWER") {
        Some(0x5F10u16)
    } else if crate::strutil::str_eq(n, "QK_TRI_LAYER_UPPER") {
        Some(0x5F11u16)
    } else if crate::strutil::str_eq(n, "QK_MACRO_0") {
        Some(0x5F12u16)
    } else if crate::strutil::str_eq(n, "QK_MACRO_1") {
        Some(0x5F13u16)
    } else if crate::strutil::str_eq(n, "QK_MACRO_2") {
        Some(0x5F14u16)
    } else if crate::strutil::str_eq(n, "QK_MACRO_3") {
        Some(0x5F15u16)
    } else if crate::strutil::str_eq(n, "QK_MACRO_4") {
        Some(0x5F16u16)
    } else if crate::strutil::str_eq(n, "QK_MACRO_5") {
        Some(0x5F17u16)
    } else if crate::strutil::str_eq(n, "QK_MACRO_6") {
        Some(0x5F18u16)
    } else if crate::strutil::str_eq(n, "QK_MACRO_7") {
        Some(0x5F19u16)
    } else if crate::strutil::str_eq(n, "QK_MACRO_8") {
        Some(0x5F1Au16)
    } else if crate::strutil::str_eq(n, "QK_MACRO_9") {
        Some(0x5F1Bu16)
    } else if crate::strutil::str_eq(n, "QK_MACRO_10") {
        Some(0x5F1Cu16)
    } else if crate::strutil::str_eq(n, "QK_MACRO_11") {
        Some(0x5F1Du16)
    } else if crate::strutil::str_eq(n, "QK_MACRO_12") {
        Some(0x5F1Eu16)
    } else if crate::strutil::str_eq(n, "QK_MACRO_13") {
        Some(0x5F1Fu16)
    } else if crate::strutil::str_eq(n, "QK_MACRO_14") {
        Some(0x5F20u16)
    } else if crate::strutil::str_eq(n, "QK_MACRO_15") {
        Some(0x5F21u16)
    } else {
        None
    }
}

pub open spec fn alias_id_of(n: Seq<char>) -> Option<u16> {
    if n == "KC_TRANSPARENT"@ {
        Some(0x0001u16)
    } else if n == "KC_ENT"@ {
        Some(0x0028u16)
    } else if n == "KC_ESC"@ {
        Some(0x0029u16)
    } else if n == "KC_BSPC"@ {
        Some(0x002Au16)
    } else if n == "KC_SPC"@ {
        Some(0x002Cu16)
    } else if n == "KC_MINS"@ {
        Some(0x002Du16)
    } else if n == "KC_EQL"@ {
        Some(0x002Eu16)
    } else if n == "KC_LBRC"@ {
        Some(0x002Fu16)
    } else if n == "KC_RBRC"@ {
        Some(0x0030u16)
    } else if n == "KC_BSLS"@ {
        Some(0x0031u16)
    } else if n == "KC_SCLN"@ {
        Some(0x0033u16)
    } else if n == "KC_QUOT"@ {
        Some(0x0034u16)
    } else if n == "KC_GRV"@ {
        Some(0x0035u16)
    } else if n == "KC_COMM"@ {
        Some(0x0036u16)
    } else if n == "KC_SLSH"@ {
        Some(0x0038u16)
    } else if n == "KC_CAPS"@ {
        Some(0x0039u16)
    } else if n == "KC_INS"@ {
        Some(0x0049u16)
    } else if n == "KC_PGUP"@ {
        Some(0x004Bu16)
    } else if n == "KC_DEL"@ {
        Some(0x004Cu16)
    } else if n == "KC_PGDN"@ {
        Some(0x004Eu16)
    } else if n == "KC_RGHT"@ {
        Some(0x004Fu16)
    } else if n == "KC_LCTL"@ {
        Some(0x00E0u16)
    } else if n == "KC_LSFT"@ {
        Some(0x00E1u16)
    } else if n == "KC_LALT"@ {
        Some(0x00E2u16)
    } else if n == "KC_LGUI"@ {
        Some(0x00E3u16)
    } else if n == "KC_RCTL"@ {
        Some(0x00E4u16)
    } else if n == "KC_RSFT"@ {
        Some(0x00E5u16)
    } else if n == "KC_RALT"@ {
        Some(0x00E6u16)
    } else if n == "KC_RGUI"@ {
        Some(0x00E7u16)
    } else {
        None
    }
}

pub fn alias_id_lookup(n: &str) -> (r: Option<u16>)
    ensures
        r == alias_id_of(n@),
{
    if crate::strutil::str_eq(n, "KC_TRANSPARENT") {
        Some(0x0001u16)
    } else if crate::strutil::str_eq(n, "KC_ENT") {
        Some(0x0028u16)
    } else if crate::strutil::str_eq(n, "KC_ESC") {
        Some(0x0029u16)
    } else if crate::strutil::str_eq(n, "KC_BSPC") {
        Some(0x002Au16)
    } else if crate::strutil::str_eq(n, "KC_SPC") {
        Some(0x002Cu16)
    } else if crate::strutil::str_eq(n, "KC_MINS") {
        Some(0x002Du16)
    } else if crate::strutil::str_eq(n, "KC_EQL") {
        Some(0x002Eu16)
    } else if crate::strutil::str_eq(n, "KC_LBRC") {
        Some(0x002Fu16)
    } else if crate::strutil::str_eq(n, "KC_RBRC") {
        Some(0x0030u16)
    } else if crate::strutil::str_eq(n, "KC_BSLS") {
        Some(0x0031u16)
    } else if crate::strutil::str_eq(n, "KC_SCLN") {
        Some(0x0033u16)
    } else if crate::strutil::str_eq(n, "KC_QUOT") {
        Some(0x0034u16)
    } else if crate::strutil::str_eq(n, "KC_GRV") {
        Some(0x0035u16)
    } else if crate::strutil::str_eq(n, "KC_COMM") {
        Some(0x0036u16)
    } else if crate::strutil::str_eq(n, "KC_SLSH") {
        Some(0x0038u16)
    } else if crate::strutil::str_eq(n, "KC_CAPS") {
        Some(0x0039u16)
    } else if crate::strutil::str_eq(n, "KC_INS") {
        Some(0x0049u16)
    } else if crate::strutil::str_eq(n, "KC_PGUP") {
        Some(0x004Bu16)
    } else if crate::strutil::str_eq(n, "KC_DEL") {
        Some(0x004Cu16)
    } else if crate::strutil::str_eq(n, "KC_PGDN") {
        Some(0x004Eu16)
    } else if crate::strutil::str_eq(n, "KC_RGHT") {
        Some(0x004Fu16)
    } else if crate::strutil::str_eq(n, "KC_LCTL") {
        Some(0x00E0u16)
    } else if crate::strutil::str_eq(n, "KC_LSFT") {
        Some(0x00E1u16)
    } else if crate::strutil::str_eq(n, "KC_LALT") {
        Some(0x00E2u16)
    } else if crate::strutil::str_eq(n, "KC_LGUI") {
        Some(0x00E3u16)
    } else if crate::strutil::str_eq(n, "KC_RCTL") {
        Some(0x00E4u16)
    } else if crate::strutil::str_eq(n, "KC_RSFT") {
        Some(0x00E5u16)
    } else if crate::strutil::str_eq(n, "KC_RALT") {
        Some(0x00E6u16)
    } else if crate::strutil::str_eq(n, "KC_RGUI") {
        Some(0x00E7u16)
    } else {
        None
    }
}

} // verus!
