//! Small verified helpers over ASCII strings: comparison, searching,
//! space stripping, and decimal / hexadecimal conversion in both directions.
use vstd::prelude::*;
use vstd::string::StrSliceExecFns;
use vstd::string::StringExecFns;
use vstd::string::StringSliceAdditionalSpecFns;

verus! {

/// Compares two strings for character-sequence equality.
pub fn str_eq(a: &str, b: &str) -> (r: bool)
    ensures
        r == (a@ == b@),
{
    let ab = a.as_bytes();
    let bb = b.as_bytes();
    proof {
        vstd::utf8::encode_utf8_decode_utf8(a@);
        vstd::utf8::encode_utf8_decode_utf8(b@);
    }
    if ab.len() != bb.len() {
        return false;
    }
    let n = ab.len();
    let mut i: usize = 0;
    while i < n
        invariant
            n == ab@.len() == bb@.len(),
            i <= n,
            ab@ == a.spec_bytes(),
            bb@ == b.spec_bytes(),
            forall|j: int| 0 <= j < i ==> ab@[j] == bb@[j],
        decreases n - i,
    {
        if ab[i] != bb[i] {
            assert(a.spec_bytes() != b.spec_bytes());
            assert(a@ != b@);
            return false;
        }
        i = i + 1;
    }
    assert(a.spec_bytes() =~= b.spec_bytes());
    assert(a@ == vstd::utf8::decode_utf8(a.spec_bytes()));
    true
}

/// First index of `c` in `s`, scanning left to right.
pub open spec fn find_char_spec(s: Seq<char>, c: char) -> Option<int>
    decreases s.len(),
{
    if s.len() == 0 {
        None
    } else if s[0] == c {
        Some(0)
    } else {
        match find_char_spec(s.drop_first(), c) {
            None => None,
            Some(i) => Some(i + 1),
        }
    }
}

/// What `find_char_spec` returns, said with quantifiers.
pub proof fn lemma_find_char_spec(s: Seq<char>, c: char)
    ensures
        match find_char_spec(s, c) {
            Some(i) => 0 <= i < s.len() && s[i] == c && forall|j: int| 0 <= j < i ==> s[j] != c,
            None => forall|j: int| 0 <= j < s.len() ==> s[j] != c,
        },
    decreases s.len(),
{
    if s.len() == 0 {
    } else if s[0] == c {
    } else {
        lemma_find_char_spec(s.drop_first(), c);
        assert forall|j: int| 1 <= j < s.len() implies s[j] == s.drop_first()[j - 1] by {}
    }
}

/// Finds the first occurrence of an ASCII character in an ASCII string.
pub fn find_char(s: &str, c: char) -> (r: Option<usize>)
    requires
        s.is_ascii(),
    ensures
        match r {
            Some(i) => find_char_spec(s@, c) == Some(i as int),
            None => find_char_spec(s@, c) is None,
        },
{
    proof {
        lemma_find_char_spec(s@, c);
    }
    let n = s.unicode_len();
    let mut i: usize = 0;
    while i < n
        invariant
            s.is_ascii(),
            n == s@.len(),
            i <= n,
            forall|j: int| 0 <= j < i ==> s@[j] != c,
            match find_char_spec(s@, c) {
                Some(k) => 0 <= k < s@.len() && s@[k] == c && forall|j: int| 0 <= j < k ==> s@[j]
                    != c,
                None => forall|j: int| 0 <= j < s@.len() ==> s@[j] != c,
            },
        decreases n - i,
    {
        if s.get_char(i) == c {
            assert(find_char_spec(s@, c) == Some(i as int)) by {
                match find_char_spec(s@, c) {
                    Some(k) => {
                        if k < i {
                            assert(false);
                        }
                        if k > i {
                            assert(s@[i as int] != c);
                            assert(false);
                        }
                    },
                    None => {
                        assert(s@[i as int] != c);
                        assert(false);
                    },
                }
            }
            return Some(i);
        }
        i = i + 1;
    }
    None
}

/// The characters of `s` with every space removed, kept in order.
pub open spec fn strip_spaces_spec(s: Seq<char>) -> Seq<char>
    decreases s.len(),
{
    if s.len() == 0 {
        Seq::empty()
    } else if s.last() == ' ' {
        strip_spaces_spec(s.drop_last())
    } else {
        strip_spaces_spec(s.drop_last()).push(s.last())
    }
}

pub proof fn lemma_strip_spaces_ascii(s: Seq<char>)
    requires
        vstd::utf8::is_ascii_chars(s),
    ensures
        vstd::utf8::is_ascii_chars(strip_spaces_spec(s)),
        strip_spaces_spec(s).len() <= s.len(),
        forall|j: int| 0 <= j < strip_spaces_spec(s).len() ==> #[trigger] strip_spaces_spec(s)[j]
            != ' ',
    decreases s.len(),
{
    if s.len() > 0 {
        assert(vstd::utf8::is_ascii_chars(s.drop_last()));
        lemma_strip_spaces_ascii(s.drop_last());
    }
}

/// Copies `s` leaving every space out.
pub fn remove_spaces(s: &str) -> (r: String)
    requires
        s.is_ascii(),
    ensures
        r@ == strip_spaces_spec(s@),
        r.is_ascii(),
{
    proof {
        lemma_strip_spaces_ascii(s@);
    }
    let n = s.unicode_len();
    let mut out = String::new();
    let mut i: usize = 0;
    while i < n
        invariant
            s.is_ascii(),
            n == s@.len(),
            i <= n,
            out@ == strip_spaces_spec(s@.subrange(0, i as int)),
            vstd::utf8::is_ascii_chars(out@),
        decreases n - i,
    {
        let ghost pre = s@.subrange(0, i as int);
        let ghost cur = s@.subrange(0, i + 1 as int);
        assert(cur.drop_last() =~= pre);
        assert(cur.last() == s@[i as int]);
        let c = s.substring_ascii(i, i + 1);
        assert(c@ =~= seq![s@[i as int]]);
        if !(c.get_ascii(0) == 32u8) {
            assert(s@[i as int] != ' ');
            out.append(c);
            assert(out@ =~= strip_spaces_spec(cur));
        } else {
            assert(s@[i as int] == ' ') by {
                assert(c@[0] as u8 == 32u8);
                assert(c@[0] <= '\u{7f}');
                vstd::utf8::char_u32_cast(c@[0], c@[0] as u32);
            }
        }
        i = i + 1;
    }
    assert(s@.subrange(0, n as int) =~= s@);
    out
}

/// Numeric value of a decimal digit character, 10 for anything else.
pub open spec fn digit_val(c: char) -> int {
    if '0' <= c <= '9' {
        c as int - '0' as int
    } else {
        10
    }
}

/// Value of an all-digit string; None if any character is not a digit.
pub open spec fn dec_val(s: Seq<char>) -> Option<int>
    decreases s.len(),
{
    if s.len() == 0 {
        Some(0)
    } else if digit_val(s.last()) >= 10 {
        None
    } else {
        match dec_val(s.drop_last()) {
            None => None,
            Some(v) => Some(v * 10 + digit_val(s.last())),
        }
    }
}

/// What `"…".parse::<u16>()` accepts here: one or more digits whose value
/// fits in 16 bits.
pub open spec fn parse_u16_spec(s: Seq<char>) -> Option<u16> {
    match dec_val(s) {
        None => None,
        Some(v) => if s.len() > 0 && v <= 0xFFFF {
            Some(v as u16)
        } else {
            None
        },
    }
}

pub proof fn lemma_dec_val_bounds(s: Seq<char>)
    ensures
        match dec_val(s) {
            Some(v) => v >= 0,
            None => true,
        },
    decreases s.len(),
{
    if s.len() > 0 && digit_val(s.last()) < 10 {
        lemma_dec_val_bounds(s.drop_last());
    }
}

proof fn lemma_dec_val_prefix_grows(s: Seq<char>, i: int)
    requires
        0 <= i <= s.len(),
        dec_val(s) is Some,
    ensures
        dec_val(s.subrange(0, i)) is Some,
        dec_val(s.subrange(0, i)).unwrap() <= dec_val(s).unwrap(),
    decreases s.len() - i,
{
    lemma_dec_val_bounds(s);
    if i == s.len() {
        assert(s.subrange(0, i) =~= s);
    } else {
        lemma_dec_val_prefix_grows(s, i + 1);
        let p = s.subrange(0, i + 1);
        assert(p.drop_last() =~= s.subrange(0, i));
        assert(dec_val(p) is Some);
        lemma_dec_val_bounds(s.subrange(0, i));
        lemma_dec_val_bounds(p);
    }
}

/// Parses an unsigned decimal number with the same accept set as the
/// standard `u16` parser, aside from an explicit sign, which is refused.
pub fn parse_u16(s: &str) -> (r: Option<u16>)
    requires
        s.is_ascii(),
    ensures
        r == parse_u16_spec(s@),
{
    let n = s.unicode_len();
    if n == 0 {
        return None;
    }
    let mut acc: u32 = 0;
    let mut i: usize = 0;
    while i < n
        invariant
            s.is_ascii(),
            n == s@.len(),
            0 < n,
            i <= n,
            acc <= 0xFFFF,
            dec_val(s@.subrange(0, i as int)) == Some(acc as int),
        decreases n - i,
    {
        let ghost pre = s@.subrange(0, i as int);
        let ghost cur = s@.subrange(0, i + 1 as int);
        assert(cur.drop_last() =~= pre);
        let b = s.get_ascii(i);
        proof {
            vstd::utf8::char_u32_cast(s@[i as int], s@[i as int] as u32);
        }
        if b < 48 || b > 57 {
            assert(digit_val(s@[i as int]) >= 10);
            assert(dec_val(cur) is None);
            proof {
                if dec_val(s@) is Some {
                    lemma_dec_val_prefix_grows(s@, i + 1);
                }
            }
            return None;
        }
        let d: u32 = (b - 48) as u32;
        assert(digit_val(s@[i as int]) == d as int);
        let next: u32 = acc * 10 + d;
        if next > 0xFFFF {
            assert(dec_val(cur) == Some(next as int));
            proof {
                if parse_u16_spec(s@) is Some {
                    lemma_dec_val_prefix_grows(s@, i + 1);
                }
            }
            return None;
        }
        acc = next;
        i = i + 1;
    }
    assert(s@.subrange(0, n as int) =~= s@);
    Some(acc as u16)
}

/// Numeric value of a hexadecimal digit character, 16 for anything else.
pub open spec fn hex_digit_val(c: char) -> int {
    if '0' <= c <= '9' {
        c as int - '0' as int
    } else if 'a' <= c <= 'f' {
        c as int - 'a' as int + 10
    } else if 'A' <= c <= 'F' {
        c as int - 'A' as int + 10
    } else {
        16
    }
}

/// Value of an all-hex-digit string; None if any character is not one.
pub open spec fn hex_val(s: Seq<char>) -> Option<int>
    decreases s.len(),
{
    if s.len() == 0 {
        Some(0)
    } else if hex_digit_val(s.last()) >= 16 {
        None
    } else {
        match hex_val(s.drop_last()) {
            None => None,
            Some(v) => Some(v * 16 + hex_digit_val(s.last())),
        }
    }
}

/// What hexadecimal `u16` parsing accepts: one or more hex digits, any
/// case, whose value fits in 16 bits.
pub open spec fn parse_hex_u16_spec(s: Seq<char>) -> Option<u16> {
    match hex_val(s) {
        None => None,
        Some(v) => if s.len() > 0 && v <= 0xFFFF {
            Some(v as u16)
        } else {
            None
        },
    }
}

pub proof fn lemma_hex_val_bounds(s: Seq<char>)
    ensures
        match hex_val(s) {
            Some(v) => v >= 0,
            None => true,
        },
    decreases s.len(),
{
    if s.len() > 0 && hex_digit_val(s.last()) < 16 {
        lemma_hex_val_bounds(s.drop_last());
    }
}

proof fn lemma_hex_val_prefix_grows(s: Seq<char>, i: int)
    requires
        0 <= i <= s.len(),
        hex_val(s) is Some,
    ensures
        hex_val(s.subrange(0, i)) is Some,
        hex_val(s.subrange(0, i)).unwrap() <= hex_val(s).unwrap(),
    decreases s.len() - i,
{
    lemma_hex_val_bounds(s);
    if i == s.len() {
        assert(s.subrange(0, i) =~= s);
    } else {
        lemma_hex_val_prefix_grows(s, i + 1);
        let p = s.subrange(0, i + 1);
        assert(p.drop_last() =~= s.subrange(0, i));
        lemma_hex_val_bounds(s.subrange(0, i));
        lemma_hex_val_bounds(p);
    }
}

/// Parses an unsigned hexadecimal number that fits in 16 bits.
pub fn parse_hex_u16(s: &str) -> (r: Option<u16>)
    requires
        s.is_ascii(),
    ensures
        r == parse_hex_u16_spec(s@),
{
    let n = s.unicode_len();
    if n == 0 {
        return None;
    }
    let mut acc: u32 = 0;
    let mut i: usize = 0;
    while i < n
        invariant
            s.is_ascii(),
            n == s@.len(),
            0 < n,
            i <= n,
            acc <= 0xFFFF,
            hex_val(s@.subrange(0, i as int)) == Some(acc as int),
        decreases n - i,
    {
        let ghost pre = s@.subrange(0, i as int);
        let ghost cur = s@.subrange(0, i + 1 as int);
        assert(cur.drop_last() =~= pre);
        let b = s.get_ascii(i);
        proof {
            vstd::utf8::char_u32_cast(s@[i as int], s@[i as int] as u32);
        }
        let d: u32 = if b >= 48 && b <= 57 {
            (b - 48) as u32
        } else if b >= 97 && b <= 102 {
            (b - 97 + 10) as u32
        } else if b >= 65 && b <= 70 {
            (b - 65 + 10) as u32
        } else {
            assert(hex_digit_val(s@[i as int]) >= 16);
            assert(hex_val(cur) is None);
            proof {
                if hex_val(s@) is Some {
                    lemma_hex_val_prefix_grows(s@, i + 1);
                }
            }
            return None;
        };
        assert(hex_digit_val(s@[i as int]) == d as int);
        let next: u32 = acc * 16 + d;
        if next > 0xFFFF {
            assert(hex_val(cur) == Some(next as int));
            proof {
                if parse_hex_u16_spec(s@) is Some {
                    lemma_hex_val_prefix_grows(s@, i + 1);
                }
            }
            return None;
        }
        acc = next;
        i = i + 1;
    }
    assert(s@.subrange(0, n as int) =~= s@);
    Some(acc as u16)
}

/// The character for a digit value below ten.
pub open spec fn digit_char(d: int) -> char {
    if d == 0 {
        '0'
    } else if d == 1 {
        '1'
    } else if d == 2 {
        '2'
    } else if d == 3 {
        '3'
    } else if d == 4 {
        '4'
    } else if d == 5 {
        '5'
    } else if d == 6 {
        '6'
    } else if d == 7 {
        '7'
    } else if d == 8 {
        '8'
    } else {
        '9'
    }
}

/// Decimal rendering of a number, most significant digit first.
pub open spec fn dec_str_spec(n: int) -> Seq<char>
    decreases n,
{
    if n <= 9 {
        seq![digit_char(n)]
    } else {
        dec_str_spec(n / 10).push(digit_char(n % 10))
    }
}

fn digit_str(d: u16) -> (r: &'static str)
    requires
        d <= 9,
    ensures
        r@ =~= seq![digit_char(d as int)],
        r.is_ascii(),
{
    let s = match d {
        0 => "0",
        1 => "1",
        2 => "2",
        3 => "3",
        4 => "4",
        5 => "5",
        6 => "6",
        7 => "7",
        8 => "8",
        _ => "9",
    };
    proof {
        reveal_strlit("0");
        reveal_strlit("1");
        reveal_strlit("2");
        reveal_strlit("3");
        reveal_strlit("4");
        reveal_strlit("5");
        reveal_strlit("6");
        reveal_strlit("7");
        reveal_strlit("8");
        reveal_strlit("9");
    }
    s
}

/// Renders a number in decimal, as the standard formatter does.
pub fn dec_string(n: u16) -> (r: String)
    ensures
        r@ == dec_str_spec(n as int),
        r.is_ascii(),
    decreases n,
{
    if n <= 9 {
        let mut s = String::new();
        s.append(digit_str(n));
        assert(s@ =~= dec_str_spec(n as int));
        s
    } else {
        let mut s = dec_string(n / 10);
        s.append(digit_str(n % 10));
        assert(s@ =~= dec_str_spec(n as int));
        s
    }
}

/// Every character of a decimal rendering is a digit.
pub proof fn lemma_dec_str_digits(n: int)
    requires
        n >= 0,
    ensures
        forall|j: int| 0 <= j < dec_str_spec(n).len() ==> digit_val(
            #[trigger] dec_str_spec(n)[j],
        ) <= 9,
        dec_str_spec(n).len() >= 1,
        vstd::utf8::is_ascii_chars(dec_str_spec(n)),
    decreases n,
{
    if n > 9 {
        lemma_dec_str_digits(n / 10);
    }
}

/// Reading a decimal rendering back gives the number.
pub proof fn lemma_dec_round_trip(n: int)
    requires
        0 <= n <= 0xFFFF,
    ensures
        parse_u16_spec(dec_str_spec(n)) == Some(n as u16),
{
    lemma_dec_val_of_dec_str(n);
}

proof fn lemma_dec_val_of_dec_str(n: int)
    requires
        n >= 0,
    ensures
        dec_val(dec_str_spec(n)) == Some(n),
    decreases n,
{
    lemma_dec_str_digits(n);
    if n <= 9 {
        let s = dec_str_spec(n);
        assert(s.drop_last() =~= Seq::<char>::empty());
        assert(s.last() == digit_char(n));
        assert(digit_val(digit_char(n)) == n);
        assert(dec_val(s.drop_last()) == Some(0int));
        assert(dec_val(s) == Some(0 * 10 + digit_val(digit_char(n))));
    } else {
        lemma_dec_val_of_dec_str(n / 10);
        let s = dec_str_spec(n);
        assert(s.drop_last() =~= dec_str_spec(n / 10));
        assert(dec_val(s) == Some((n / 10) * 10 + digit_val(digit_char(n % 10))));
        assert((n / 10) * 10 + n % 10 == n) by (nonlinear_arith);
    }
}


/// First index of byte `b` in `s`, scanning left to right.
pub open spec fn find_byte_spec(s: Seq<u8>, b: u8) -> Option<int>
    decreases s.len(),
{
    if s.len() == 0 {
        None
    } else if s[0] == b {
        Some(0)
    } else {
        match find_byte_spec(s.drop_first(), b) {
            None => None,
            Some(i) => Some(i + 1),
        }
    }
}

/// What `find_byte_spec` returns, said with quantifiers.
pub proof fn lemma_find_byte_spec(s: Seq<u8>, b: u8)
    ensures
        match find_byte_spec(s, b) {
            Some(i) => 0 <= i < s.len() && s[i] == b && forall|j: int| 0 <= j < i ==> s[j] != b,
            None => forall|j: int| 0 <= j < s.len() ==> s[j] != b,
        },
    decreases s.len(),
{
    if s.len() == 0 {
    } else if s[0] == b {
    } else {
        lemma_find_byte_spec(s.drop_first(), b);
        assert forall|j: int| 1 <= j < s.len() implies s[j] == s.drop_first()[j - 1] by {}
    }
}

/// A position and its prefix determine `find_byte_spec`.
pub proof fn lemma_find_byte_at(s: Seq<u8>, b: u8, i: int)
    requires
        0 <= i < s.len(),
        s[i] == b,
        forall|j: int| 0 <= j < i ==> s[j] != b,
    ensures
        find_byte_spec(s, b) == Some(i),
{
    lemma_find_byte_spec(s, b);
    match find_byte_spec(s, b) {
        Some(k) => {
            if k < i {
            } else if k > i {
                assert(s[i] != b);
            }
        },
        None => {
            assert(s[i] != b);
        },
    }
}

/// Relies on `core::str::from_utf8`: it accepts exactly the valid UTF-8
/// byte strings and yields their decoding.
#[verifier::external_body]
pub fn bytes_to_string(v: &[u8]) -> (r: Option<String>)
    ensures
        r is Some <==> vstd::utf8::valid_utf8(v@),
        r is Some ==> r.unwrap()@ == vstd::utf8::decode_utf8(v@),
{
    match core::str::from_utf8(v) {
        Ok(s) => Some(s.to_owned()),
        Err(_) => None,
    }
}

/// Leading and trailing spaces of `s` removed.
pub open spec fn trim_spec(s: Seq<char>) -> Seq<char>
    decreases s.len(),
{
    if s.len() == 0 {
        s
    } else if s[0] == ' ' {
        trim_spec(s.drop_first())
    } else if s.last() == ' ' {
        trim_spec(s.drop_last())
    } else {
        s
    }
}

/// The trimmed middle is what `trim_spec` keeps.
proof fn lemma_trim_range(s: Seq<char>, a: int, b: int)
    requires
        0 <= a <= b <= s.len(),
        forall|j: int| 0 <= j < a ==> s[j] == ' ',
        forall|j: int| b <= j < s.len() ==> s[j] == ' ',
        a < b ==> s[a] != ' ' && s[b - 1] != ' ',
        a == b ==> a == 0 || b == s.len(),
    ensures
        trim_spec(s) == s.subrange(a, b),
    decreases s.len(),
{
    if s.len() == 0 {
        assert(s.subrange(a, b) =~= s);
    } else if a > 0 {
        assert(s[0] == ' ');
        let t = s.drop_first();
        assert forall|j: int| 0 <= j < a - 1 implies t[j] == ' ' by {}
        assert forall|j: int| b - 1 <= j < t.len() implies t[j] == ' ' by {}
        lemma_trim_range(t, a - 1, b - 1);
        assert(t.subrange(a - 1, b - 1) =~= s.subrange(a, b));
    } else if b < s.len() {
        assert(s[0] != ' ' || b == 0);
        assert(s.last() == ' ');
        if b == 0 {
            // all of s is spaces
            let t = s.drop_last();
            assert forall|j: int| 0 <= j < t.len() implies t[j] == ' ' by {}
            if s[0] == ' ' {
                let u = s.drop_first();
                assert forall|j: int| 0 <= j < u.len() implies u[j] == ' ' by {}
                lemma_trim_range(u, 0, 0);
                assert(u.subrange(0, 0) =~= s.subrange(0, 0));
            }
        } else {
            let t = s.drop_last();
            assert forall|j: int| b <= j < t.len() implies t[j] == ' ' by {}
            lemma_trim_range(t, a, b);
            assert(t.subrange(a, b) =~= s.subrange(a, b));
        }
    } else {
        // a == 0 and b == s.len()
        if a < b {
            assert(s[0] != ' ');
            assert(s.last() != ' ');
            assert(s.subrange(0, s.len() as int) =~= s);
        } else {
            assert(s.subrange(a, b) =~= s.subrange(0, s.len() as int) || a == b);
            assert(b == s.len() && a == 0 && s.len() == 0 || true);
            assert(s.subrange(a, b) =~= s);
        }
    }
}

/// Copies `s` with leading and trailing spaces removed.
pub fn trim_ascii(s: &str) -> (r: String)
    requires
        s.is_ascii(),
    ensures
        r@ == trim_spec(s@),
        r.is_ascii(),
{
    let n = s.unicode_len();
    let mut a: usize = 0;
    while a < n && s.get_ascii(a) == 32
        invariant
            s.is_ascii(),
            n == s@.len(),
            a <= n,
            forall|j: int| 0 <= j < a ==> s@[j] == ' ',
        decreases n - a,
    {
        proof {
            vstd::utf8::char_u32_cast(s@[a as int], s@[a as int] as u32);
        }
        assert(s@[a as int] == ' ');
        a = a + 1;
    }
    proof {
        if a < n {
            vstd::utf8::char_u32_cast(s@[a as int], s@[a as int] as u32);
        }
    }
    let mut b: usize = n;
    while b > a && s.get_ascii(b - 1) == 32
        invariant
            s.is_ascii(),
            n == s@.len(),
            a <= b <= n,
            forall|j: int| 0 <= j < a ==> s@[j] == ' ',
            forall|j: int| b <= j < n ==> s@[j] == ' ',
        decreases b,
    {
        proof {
            vstd::utf8::char_u32_cast(s@[b - 1], s@[b - 1] as u32);
        }
        assert(s@[b - 1] == ' ');
        b = b - 1;
    }
    proof {
        if b > a {
            vstd::utf8::char_u32_cast(s@[b - 1], s@[b - 1] as u32);
            assert(s@[b - 1] != ' ');
        }
        if a < n {
            assert(s@[a as int] != ' ');
        }
        if a == b && a != 0 && b != n {
            assert(s@[a as int] != ' ');
            assert(s@[b - 1] == ' ');
            assert(false);
        }
        lemma_trim_range(s@, a as int, b as int);
    }
    let r = s.substring_ascii(a, b);
    String::from_str(r)
}


/// The pieces of `s` split at every occurrence of `c`; a string without
/// `c` is one piece, and empty pieces are kept.
pub open spec fn split_char_spec(s: Seq<char>, c: char) -> Seq<Seq<char>>
    decreases s.len(),
{
    match find_char_spec(s, c) {
        None => seq![s],
        Some(i) => if 0 <= i < s.len() {
            seq![s.subrange(0, i)] + split_char_spec(s.subrange(i + 1, s.len() as int), c)
        } else {
            seq![s]
        },
    }
}

/// The views of a string list.
pub open spec fn strings_view(v: Seq<String>) -> Seq<Seq<char>> {
    v.map(|i: int, s: String| s@)
}

/// Splits an ASCII string at every occurrence of an ASCII character.
pub fn split_char(s: &str, c: char) -> (r: Vec<String>)
    requires
        s.is_ascii(),
    ensures
        strings_view(r@) == split_char_spec(s@, c),
        forall|i: int| 0 <= i < r@.len() ==> vstd::utf8::is_ascii_chars(#[trigger] r@[i]@),
    decreases s@.len(),
{
    proof {
        lemma_find_char_spec(s@, c);
    }
    let n = s.unicode_len();
    match find_char(s, c) {
        None => {
            let mut r: Vec<String> = Vec::new();
            r.push(String::from_str(s));
            assert(strings_view(r@) =~= seq![s@]);
            r
        },
        Some(i) => {
            let head = s.substring_ascii(0, i);
            let tail = s.substring_ascii(i + 1, n);
            let mut rest = split_char(tail, c);
            let ghost rest0 = rest@;
            rest.insert(0, String::from_str(head));
            assert(strings_view(rest@) =~= seq![head@] + strings_view(rest0));
            rest
        },
    }
}


/// A position and a clear prefix determine `find_char_spec`.
pub proof fn lemma_find_char_at(s: Seq<char>, c: char, i: int)
    requires
        0 <= i < s.len(),
        s[i] == c,
        forall|j: int| 0 <= j < i ==> s[j] != c,
    ensures
        find_char_spec(s, c) == Some(i),
{
    lemma_find_char_spec(s, c);
    match find_char_spec(s, c) {
        Some(k) => {
            if k < i {
            } else if k > i {
                assert(s[i] != c);
            }
        },
        None => {
            assert(s[i] != c);
        },
    }
}


/// The text of a flag value.
pub open spec fn bool_text_spec(b: bool) -> Seq<char> {
    if b {
        "true"@
    } else {
        "false"@
    }
}


/// Truncating a number to 16 bits is taking it modulo 65536.
pub proof fn lemma_u64_low16(v: u64)
    ensures
        (v % 65536) as u16 == v as u16,
{
    assert((v % 65536) as u16 == v as u16) by (bit_vector);
}

/// Truncating a number to 8 bits is taking it modulo 256.
pub proof fn lemma_u64_low8(v: u64)
    ensures
        (v % 256) as u8 == v as u8,
{
    assert((v % 256) as u8 == v as u8) by (bit_vector);
}

} // verus!
