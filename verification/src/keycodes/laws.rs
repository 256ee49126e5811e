//! The table law: every canonical name resolves, and the id it
//! resolves to prints back as exactly that name.
use vstd::prelude::*;
use vstd::utf8::is_ascii_chars;
use crate::keycodes::names;
use crate::keycodes::Generation;
use crate::keycodes::base_key_name;
use crate::keycodes::canonical_name_of;
use crate::keycodes::table_id_of;
use crate::keycodes::name_to_qid_spec;
use crate::keycodes::nq_step;
use crate::keycodes::qid_name_spec;
use crate::keycodes::wrap_form_name;
use crate::strutil::find_char_spec;
use crate::strutil::lemma_find_char_spec;
use crate::strutil::strip_spaces_spec;

verus! {

/// A name the plain-name lookup can be reached with: printable ASCII,
/// nonempty, without spaces or parentheses, and not a hex literal.
pub open spec fn plain_name(s: Seq<char>) -> bool {
    &&& is_ascii_chars(s)
    &&& s.len() > 0
    &&& forall|j: int| 0 <= j < s.len() ==> #[trigger] s[j] != ' ' && s[j] != '('
    &&& s[0] != '0'
}

/// Stripping spaces from a name without spaces changes nothing.
proof fn lemma_strip_spaceless(s: Seq<char>)
    requires
        forall|j: int| 0 <= j < s.len() ==> #[trigger] s[j] != ' ',
    ensures
        strip_spaces_spec(s) == s,
    decreases s.len(),
{
    if s.len() > 0 {
        lemma_strip_spaceless(s.drop_last());
        assert(strip_spaces_spec(s) =~= s);
    } else {
        assert(strip_spaces_spec(s) =~= s);
    }
}

proof fn lemma_letter_names_plain(k: u16)
    requires
        names::letter_name_of(k) is Some,
    ensures
        plain_name(names::letter_name_of(k).unwrap()),
{
    reveal_strlit("KC_A");
    reveal_strlit("KC_B");
    reveal_strlit("KC_C");
    reveal_strlit("KC_D");
    reveal_strlit("KC_E");
    reveal_strlit("KC_F");
    reveal_strlit("KC_G");
    reveal_strlit("KC_H");
    reveal_strlit("KC_I");
    reveal_strlit("KC_J");
    reveal_strlit("KC_K");
    reveal_strlit("KC_L");
    reveal_strlit("KC_M");
    reveal_strlit("KC_N");
    reveal_strlit("KC_O");
    reveal_strlit("KC_P");
    reveal_strlit("KC_Q");
    reveal_strlit("KC_R");
    reveal_strlit("KC_S");
    reveal_strlit("KC_T");
    reveal_strlit("KC_U");
    reveal_strlit("KC_V");
    reveal_strlit("KC_W");
    reveal_strlit("KC_X");
    reveal_strlit("KC_Y");
    reveal_strlit("KC_Z");
}

proof fn lemma_digit_names_plain(k: u16)
    requires
        names::digit_name_of(k) is Some,
    ensures
        plain_name(names::digit_name_of(k).unwrap()),
{
    reveal_strlit("KC_1");
    reveal_strlit("KC_2");
    reveal_strlit("KC_3");
    reveal_strlit("KC_4");
    reveal_strlit("KC_5");
    reveal_strlit("KC_6");
    reveal_strlit("KC_7");
    reveal_strlit("KC_8");
    reveal_strlit("KC_9");
    reveal_strlit("KC_0");
}

proof fn lemma_named_names_plain(k: u16)
    requires
        names::named_name_of(k) is Some,
    ensures
        plain_name(names::named_name_of(k).unwrap()),
{
    reveal_strlit("KC_NO");
    reveal_strlit("KC_TRNS");
    reveal_strlit("KC_ENTER");
    reveal_strlit("KC_ESCAPE");
    reveal_strlit("KC_BACKSPACE");
    reveal_strlit("KC_TAB");
    reveal_strlit("KC_SPACE");
    reveal_strlit("KC_MINUS");
    reveal_strlit("KC_EQUAL");
    reveal_strlit("KC_LEFT_BRACKET");
    reveal_strlit("KC_RIGHT_BRACKET");
    reveal_strlit("KC_BACKSLASH");
    reveal_strlit("KC_SEMICOLON");
    reveal_strlit("KC_QUOTE");
    reveal_strlit("KC_GRAVE");
    reveal_strlit("KC_COMMA");
    reveal_strlit("KC_DOT");
    reveal_strlit("KC_SLASH");
    reveal_strlit("KC_CAPS_LOCK");
    reveal_strlit("KC_INSERT");
    reveal_strlit("KC_HOME");
    reveal_strlit("KC_PAGE_UP");
    reveal_strlit("KC_DELETE");
    reveal_strlit("KC_END");
    reveal_strlit("KC_PAGE_DOWN");
    reveal_strlit("KC_RIGHT");
    reveal_strlit("KC_LEFT");
    reveal_strlit("KC_DOWN");
    reveal_strlit("KC_UP");
}

proof fn lemma_fkey_names_plain(k: u16)
    requires
        names::fkey_name_of(k) is Some,
    ensures
        plain_name(names::fkey_name_of(k).unwrap()),
{
    reveal_strlit("KC_F1");
    reveal_strlit("KC_F2");
    reveal_strlit("KC_F3");
    reveal_strlit("KC_F4");
    reveal_strlit("KC_F5");
    reveal_strlit("KC_F6");
    reveal_strlit("KC_F7");
    reveal_strlit("KC_F8");
    reveal_strlit("KC_F9");
    reveal_strlit("KC_F10");
    reveal_strlit("KC_F11");
    reveal_strlit("KC_F12");
}

proof fn lemma_modkey_names_plain(k: u16)
    requires
        names::modkey_name_of(k) is Some,
    ensures
        plain_name(names::modkey_name_of(k).unwrap()),
{
    reveal_strlit("KC_LEFT_CTRL");
    reveal_strlit("KC_LEFT_SHIFT");
    reveal_strlit("KC_LEFT_ALT");
    reveal_strlit("KC_LEFT_GUI");
    reveal_strlit("KC_RIGHT_CTRL");
    reveal_strlit("KC_RIGHT_SHIFT");
    reveal_strlit("KC_RIGHT_ALT");
    reveal_strlit("KC_RIGHT_GUI");
}

proof fn lemma_extra_cur_names_plain(k: u16)
    requires
        names::extra_cur_name_of(k) is Some,
    ensures
        plain_name(names::extra_cur_name_of(k).unwrap()),
{
    reveal_strlit("QK_MAGIC_TOGGLE_NKRO");
    reveal_strlit("QK_TRI_LAYER_LOWER");
    reveal_strlit("QK_TRI_LAYER_UPPER");
    reveal_strlit("QK_MACRO_0");
    reveal_strlit("QK_MACRO_1");
    reveal_strlit("QK_MACRO_2");
    reveal_strlit("QK_MACRO_3");
    reveal_strlit("QK_MACRO_4");
    reveal_strlit("QK_MACRO_5");
    reveal_strlit("QK_MACRO_6");
    reveal_strlit("QK_MACRO_7");
    reveal_strlit("QK_MACRO_8");
    reveal_strlit("QK_MACRO_9");
    reveal_strlit("QK_MACRO_10");
    reveal_strlit("QK_MACRO_11");
    reveal_strlit("QK_MACRO_12");
    reveal_strlit("QK_MACRO_13");
    reveal_strlit("QK_MACRO_14");
    reveal_strlit("QK_MACRO_15");
}

proof fn lemma_extra_leg_names_plain(k: u16)
    requires
        names::extra_leg_name_of(k) is Some,
    ensures
        plain_name(names::extra_leg_name_of(k).unwrap()),
{
    reveal_strlit("QK_MAGIC_TOGGLE_NKRO");
    reveal_strlit("QK_TRI_LAYER_LOWER");
    reveal_strlit("QK_TRI_LAYER_UPPER");
    reveal_strlit("QK_MACRO_0");
    reveal_strlit("QK_MACRO_1");
    reveal_strlit("QK_MACRO_2");
    reveal_strlit("QK_MACRO_3");
    reveal_strlit("QK_MACRO_4");
    reveal_strlit("QK_MACRO_5");
    reveal_strlit("QK_MACRO_6");
    reveal_strlit("QK_MACRO_7");
    reveal_strlit("QK_MACRO_8");
    reveal_strlit("QK_MACRO_9");
    reveal_strlit("QK_MACRO_10");
    reveal_strlit("QK_MACRO_11");
    reveal_strlit("QK_MACRO_12");
    reveal_strlit("QK_MACRO_13");
    reveal_strlit("QK_MACRO_14");
    reveal_strlit("QK_MACRO_15");
}

/// A table id sits in none of the composite printer ranges, so the
/// printer gives it its plain table name.
proof fn lemma_table_id_prints_plain(g: Generation, k: u16)
    requires
        canonical_name_of(k, g) is Some,
    ensures
        qid_name_spec(k, g) == canonical_name_of(k, g).unwrap(),
        wrap_form_name(k) is None,
{
    let n = canonical_name_of(k, g).unwrap();
    let in_extra = if g == Generation::Current {
        names::extra_cur_name_of(k) is Some
    } else {
        names::extra_leg_name_of(k) is Some
    };
    if in_extra {
        assert(k == 0x7013 || (0x7700 <= k <= 0x770F) || k == 0x7C77 || k == 0x7C78 || k == 0x5C14
            || (0x5F10 <= k <= 0x5F21));
        assert(wrap_form_name(k) is None) by {
            assert((k & 0xFF00u16) == 0x7000 || (k & 0xFF00u16) == 0x7700 || (k & 0xFF00u16)
                == 0x7C00 || (k & 0xFF00u16) == 0x5C00 || (k & 0xFF00u16) == 0x5F00)
                by (bit_vector)
                requires
                    k == 0x7013 || (0x7700 <= k <= 0x770F) || k == 0x7C77 || k == 0x7C78 || k
                        == 0x5C14 || (0x5F10 <= k <= 0x5F21),
            ;
        }
    } else {
        assert(k <= 0xFF);
        assert(wrap_form_name(k) is None) by {
            assert((k & 0xFF00u16) == 0) by (bit_vector)
                requires
                    k <= 0xFF,
            ;
        }
    }
}

/// Every canonical name is plain.
proof fn lemma_canonical_plain(g: Generation, k: u16)
    requires
        canonical_name_of(k, g) is Some,
    ensures
        plain_name(canonical_name_of(k, g).unwrap()),
{
    let n = canonical_name_of(k, g).unwrap();
    if g == Generation::Current && names::extra_cur_name_of(k) == Some(n) {
        lemma_extra_cur_names_plain(k);
    } else if g == Generation::Legacy && names::extra_leg_name_of(k) == Some(n) {
        lemma_extra_leg_names_plain(k);
    } else if names::letter_name_of(k) == Some(n) {
        lemma_letter_names_plain(k);
    } else if names::digit_name_of(k) == Some(n) {
        lemma_digit_names_plain(k);
    } else if names::named_name_of(k) == Some(n) {
        lemma_named_names_plain(k);
    } else if names::fkey_name_of(k) == Some(n) {
        lemma_fkey_names_plain(k);
    } else {
        lemma_modkey_names_plain(k);
    }
}

/// A plain name resolves through the table lookup alone.
proof fn lemma_plain_resolution(n: Seq<char>, g: Generation)
    requires
        plain_name(n),
    ensures
        name_to_qid_spec(n, g) == table_id_of(n, g),
        nq_step(n, g) == table_id_of(n, g),
{
    lemma_strip_spaceless(n);
    lemma_find_char_spec(n, '(');
    match find_char_spec(n, '(') {
        Some(i) => {
            assert(n[i] == '(');
            assert(false);
        },
        None => {},
    }
    if g == Generation::Current && n.len() >= 2 && n[0] == '0' && n[1] == 'x' {
        assert(false);
    }
    assert(nq_step(n, g) == table_id_of(n, g));
}

/// Two texts differing at one position differ.
proof fn seq_ne_at(a: Seq<char>, b: Seq<char>, i: int)
    requires
        0 <= i < a.len(),
        0 <= i < b.len(),
        a[i] != b[i],
    ensures
        a != b,
{
    if a == b {
        assert(a[i] == b[i]);
    }
}

/// Whether the printer renders an id as a simple layer-switch or
/// tap-dance form in a generation.
pub open spec fn simple_form_id(k: u16, g: Generation) -> bool {
    if g == Generation::Current {
        (0x5200 <= k <= 0x529F) || (0x52C0 <= k <= 0x52DF) || (0x52E0 <= k <= 0x52FF) || (0x5700
            <= k <= 0x57FF)
    } else {
        (0x5010 <= k <= 0x501F) || (0x5100 <= k <= 0x511F) || (0x5200 <= k <= 0x521F) || (0x5300
            <= k <= 0x531F) || (0x5400 <= k <= 0x541F) || (0x5800 <= k <= 0x581F) || (0x5700 <= k
            <= 0x57FF)
    }
}

/// The simple layer-switch and tap-dance forms round-trip: the printed
/// `FORM(n)` text of such an id resolves back to exactly that id.
#[verifier::rlimit(100)]
#[verifier::spinoff_prover]
pub proof fn lemma_simple_form_round_trip(g: Generation, k: u16)
    requires
        simple_form_id(k, g),
    ensures
        name_to_qid_spec(qid_name_spec(k, g), g) == Some(k),
{
    reveal_strlit("TO");
    reveal_strlit("MO");
    reveal_strlit("DF");
    reveal_strlit("TG");
    reveal_strlit("TT");
    reveal_strlit("TD");
    reveal_strlit("PDF");
    reveal_strlit("OSL");
    reveal_strlit("OSM");
    reveal_strlit("LM");
    reveal_strlit("LT");
    reveal_strlit("MT");
    reveal_strlit("QK_LCTL");
    reveal_strlit("LCTL");
    reveal_strlit("C");
    reveal_strlit("QK_LSFT");
    reveal_strlit("LSFT");
    reveal_strlit("S");
    reveal_strlit("QK_LALT");
    reveal_strlit("LALT");
    reveal_strlit("LOPT");
    reveal_strlit("A");
    reveal_strlit("QK_LGUI");
    reveal_strlit("LGUI");
    reveal_strlit("LCMD");
    reveal_strlit("LWIN");
    reveal_strlit("G");
    reveal_strlit("QK_RCTL");
    reveal_strlit("RCTL");
    reveal_strlit("QK_RSFT");
    reveal_strlit("RSFT");
    reveal_strlit("QK_RALT");
    reveal_strlit("RALT");
    reveal_strlit("ALGR");
    reveal_strlit("ROPT");
    reveal_strlit("QK_RGUI");
    reveal_strlit("RGUI");
    reveal_strlit("RCMD");
    reveal_strlit("RWIN");
    reveal_strlit("HYPR");
    reveal_strlit("MEH");
    reveal_strlit("LCAG");
    reveal_strlit("LSG");
    reveal_strlit("SGUI");
    reveal_strlit("SCMD");
    reveal_strlit("SWIN");
    reveal_strlit("LAG");
    reveal_strlit("RSG");
    reveal_strlit("RAG");
    reveal_strlit("LCA");
    reveal_strlit("LSA");
    reveal_strlit("RSA");
    reveal_strlit("SAGR");
    reveal_strlit("RCS");
    reveal_strlit("(");
    reveal_strlit(")");
    reveal_strlit("LCTL_T");
    reveal_strlit("CTL_T");
    reveal_strlit("RCTL_T");
    reveal_strlit("LSFT_T");
    reveal_strlit("SFT_T");
    reveal_strlit("RSFT_T");
    reveal_strlit("LALT_T");
    reveal_strlit("ALT_T");
    reveal_strlit("LOPT_T");
    reveal_strlit("OPT_T");
    reveal_strlit("RALT_T");
    reveal_strlit("ROPT_T");
    reveal_strlit("ALGR_T");
    reveal_strlit("LGUI_T");
    reveal_strlit("GUI_T");
    reveal_strlit("LCMD_T");
    reveal_strlit("CMD_T");
    reveal_strlit("LWIN_T");
    reveal_strlit("WIN_T");
    reveal_strlit("RGUI_T");
    reveal_strlit("RCMD_T");
    reveal_strlit("RWIN_T");
    reveal_strlit("C_S_T");
    reveal_strlit("MEH_T");
    reveal_strlit("LCAG_T");
    reveal_strlit("RCAG_T");
    reveal_strlit("HYPR_T");
    reveal_strlit("ALL_T");
    reveal_strlit("LSG_T");
    reveal_strlit("SGUI_T");
    reveal_strlit("SCMD_T");
    reveal_strlit("SWIN_T");
    reveal_strlit("LAG_T");
    reveal_strlit("RSG_T");
    reveal_strlit("RAG_T");
    reveal_strlit("LCA_T");
    reveal_strlit("LSA_T");
    reveal_strlit("RSA_T");
    reveal_strlit("SAGR_T");
    reveal_strlit("RCS_T");

    // the two length-3 form names differ from every length-3 wrapper name
    seq_ne_at("PDF"@, "MEH"@, 0);
    seq_ne_at("PDF"@, "LSG"@, 0);
    seq_ne_at("PDF"@, "LAG"@, 0);
    seq_ne_at("PDF"@, "RSG"@, 0);
    seq_ne_at("PDF"@, "RAG"@, 0);
    seq_ne_at("PDF"@, "LCA"@, 0);
    seq_ne_at("PDF"@, "LSA"@, 0);
    seq_ne_at("PDF"@, "RSA"@, 0);
    seq_ne_at("PDF"@, "RCS"@, 0);
    seq_ne_at("OSL"@, "MEH"@, 0);
    seq_ne_at("OSL"@, "LSG"@, 0);
    seq_ne_at("OSL"@, "LAG"@, 0);
    seq_ne_at("OSL"@, "RSG"@, 0);
    seq_ne_at("OSL"@, "RAG"@, 0);
    seq_ne_at("OSL"@, "LCA"@, 0);
    seq_ne_at("OSL"@, "LSA"@, 0);
    seq_ne_at("OSL"@, "RSA"@, 0);
    seq_ne_at("OSL"@, "RCS"@, 0);
    // the length-2 form names are pairwise distinct
    seq_ne_at("TO"@, "MO"@, 0);
    seq_ne_at("TO"@, "DF"@, 0);
    seq_ne_at("TO"@, "TG"@, 1);
    seq_ne_at("TO"@, "TT"@, 1);
    seq_ne_at("TO"@, "TD"@, 1);
    seq_ne_at("TO"@, "LM"@, 0);
    seq_ne_at("TO"@, "LT"@, 0);
    seq_ne_at("TO"@, "MT"@, 0);
    seq_ne_at("MO"@, "DF"@, 0);
    seq_ne_at("MO"@, "TG"@, 0);
    seq_ne_at("MO"@, "TT"@, 0);
    seq_ne_at("MO"@, "TD"@, 0);
    seq_ne_at("MO"@, "LM"@, 0);
    seq_ne_at("MO"@, "LT"@, 0);
    seq_ne_at("MO"@, "MT"@, 1);
    seq_ne_at("DF"@, "TG"@, 0);
    seq_ne_at("DF"@, "TT"@, 0);
    seq_ne_at("DF"@, "TD"@, 0);
    seq_ne_at("DF"@, "LM"@, 0);
    seq_ne_at("DF"@, "LT"@, 0);
    seq_ne_at("DF"@, "MT"@, 0);
    seq_ne_at("TG"@, "TT"@, 1);
    seq_ne_at("TG"@, "TD"@, 1);
    seq_ne_at("TG"@, "LM"@, 0);
    seq_ne_at("TG"@, "LT"@, 0);
    seq_ne_at("TG"@, "MT"@, 0);
    seq_ne_at("TT"@, "TD"@, 1);
    seq_ne_at("TT"@, "LM"@, 0);
    seq_ne_at("TT"@, "LT"@, 0);
    seq_ne_at("TT"@, "MT"@, 0);
    seq_ne_at("TD"@, "LM"@, 0);
    seq_ne_at("TD"@, "LT"@, 0);
    seq_ne_at("TD"@, "MT"@, 0);
    seq_ne_at("OSL"@, "PDF"@, 0);
    seq_ne_at("OSL"@, "OSM"@, 2);
    let (fname, low): (Seq<char>, u16) = if g == Generation::Current {
        if 0x5200 <= k && k <= 0x521F {
            ("TO"@, (k & 0x1F) as u16)
        } else if 0x5220 <= k && k <= 0x523F {
            ("MO"@, (k & 0x1F) as u16)
        } else if 0x5240 <= k && k <= 0x525F {
            ("DF"@, (k & 0x1F) as u16)
        } else if 0x52E0 <= k && k <= 0x52FF {
            ("PDF"@, (k & 0x1F) as u16)
        } else if 0x5260 <= k && k <= 0x527F {
            ("TG"@, (k & 0x1F) as u16)
        } else if 0x5280 <= k && k <= 0x529F {
            ("OSL"@, (k & 0x1F) as u16)
        } else if 0x52C0 <= k && k <= 0x52DF {
            ("TT"@, (k & 0x1F) as u16)
        } else {
            ("TD"@, (k & 0xFF) as u16)
        }
    } else {
        if 0x5010 <= k && k <= 0x501F {
            ("TO"@, (k & 0x0F) as u16)
        } else if 0x5100 <= k && k <= 0x511F {
            ("MO"@, (k & 0x1F) as u16)
        } else if 0x5200 <= k && k <= 0x521F {
            ("DF"@, (k & 0x1F) as u16)
        } else if 0x5300 <= k && k <= 0x531F {
            ("TG"@, (k & 0x1F) as u16)
        } else if 0x5400 <= k && k <= 0x541F {
            ("OSL"@, (k & 0x1F) as u16)
        } else if 0x5800 <= k && k <= 0x581F {
            ("TT"@, (k & 0x1F) as u16)
        } else {
            ("TD"@, (k & 0xFF) as u16)
        }
    };
    assert(wrap_form_name(k) is None) by {
        assert((k & 0xFF00u16) == 0x5000 || (k & 0xFF00u16) == 0x5100 || (k & 0xFF00u16) == 0x5200
            || (k & 0xFF00u16) == 0x5300 || (k & 0xFF00u16) == 0x5400 || (k & 0xFF00u16) == 0x5700
            || (k & 0xFF00u16) == 0x5800) by (bit_vector)
            requires
                (0x5200 <= k && k <= 0x529F) || (0x52C0 <= k && k <= 0x52FF) || (0x5700 <= k && k
                    <= 0x57FF) || (0x5010 <= k && k <= 0x501F) || (0x5100 <= k && k <= 0x511F) || (
                0x5300 <= k && k <= 0x531F) || (0x5400 <= k && k <= 0x541F) || (0x5800 <= k && k
                    <= 0x581F),
        ;
    }
    let n = qid_name_spec(k, g);
    let d = crate::strutil::dec_str_spec(low as int);
    assert(n == fname + "("@ + d + ")"@);
    crate::strutil::lemma_dec_str_digits(low as int);
    crate::strutil::lemma_dec_round_trip(low as int);
    // the printed text is plain ascii with its one parenthesis pair
    assert(vstd::utf8::is_ascii_chars(n)) by {
        assert forall|j: int| 0 <= j < n.len() implies '\0' <= #[trigger] n[j] <= '\u{7f}' by {
            if j < fname.len() {
                assert(n[j] == fname[j]);
            } else if j < fname.len() + 1 {
                assert(n[j] == '(');
            } else if j < fname.len() + 1 + d.len() {
                assert(n[j] == d[j - fname.len() - 1]);
                assert(crate::strutil::digit_val(d[j - fname.len() - 1]) <= 9);
            } else {
                assert(n[j] == ')');
            }
        }
    }
    assert(forall|j: int| 0 <= j < n.len() ==> #[trigger] n[j] != ' ') by {
        assert forall|j: int| 0 <= j < n.len() implies #[trigger] n[j] != ' ' by {
            if j < fname.len() {
                assert(n[j] == fname[j]);
            } else if j < fname.len() + 1 {
                assert(n[j] == '(');
            } else if j < fname.len() + 1 + d.len() {
                assert(n[j] == d[j - fname.len() - 1]);
                assert(crate::strutil::digit_val(d[j - fname.len() - 1]) <= 9);
            } else {
                assert(n[j] == ')');
            }
        }
    }
    lemma_strip_spaceless(n);
    assert(n[0] == fname[0]);
    assert(n[0] != '0');
    crate::strutil::lemma_find_char_at(n, '(', fname.len() as int);
    let i = fname.len() as int;
    assert(n.subrange(0, i) =~= fname);
    let rest = n.subrange(i + 1, n.len() as int);
    assert(rest =~= d + ")"@);
    assert(rest.len() > 0);
    assert(rest.drop_last() =~= d);
    assert(crate::keycodes::mod_wrap_base(fname) is None);
    assert(nq_step(n, g) == crate::keycodes::apply_form(fname, d, g));
    if fname == "TD"@ {
        assert(crate::keycodes::layer_form_base(fname, g) is None);
        assert(crate::keycodes::mt_alias_mod(fname) is None) by {
            assert(fname.len() == 2);
        }
        assert(crate::keycodes::apply_form(fname, d, g) == Some((0x5700u16 | (low & 0xFF)) as u16));
        assert((0x5700u16 | ((k & 0xFF) & 0xFF)) == k) by (bit_vector)
            requires
                0x5700 <= k && k <= 0x57FF,
        ;
    } else {
        let (base, mask) = crate::keycodes::layer_form_base(fname, g).unwrap();
        assert(crate::keycodes::apply_form(fname, d, g) == Some((base | (low & mask)) as u16));
        if g == Generation::Current {
            assert(((0x5200u16 | (((k & 0x1F) as u16) & 0x1F)) == k || !(0x5200 <= k && k
                <= 0x521F)) && ((0x5220u16 | (((k & 0x1F) as u16) & 0x1F)) == k || !(0x5220 <= k
                && k <= 0x523F)) && ((0x5240u16 | (((k & 0x1F) as u16) & 0x1F)) == k || !(0x5240
                <= k && k <= 0x525F)) && ((0x52E0u16 | (((k & 0x1F) as u16) & 0x1F)) == k || !(
            0x52E0 <= k && k <= 0x52FF)) && ((0x5260u16 | (((k & 0x1F) as u16) & 0x1F)) == k || !(
            0x5260 <= k && k <= 0x527F)) && ((0x5280u16 | (((k & 0x1F) as u16) & 0x1F)) == k || !(
            0x5280 <= k && k <= 0x529F)) && ((0x52C0u16 | (((k & 0x1F) as u16) & 0x1F)) == k || !(
            0x52C0 <= k && k <= 0x52DF))) by (bit_vector);
        } else {
            assert(((0x5010u16 | (((k & 0x0F) as u16) & 0x0F)) == k || !(0x5010 <= k && k
                <= 0x501F)) && ((0x5100u16 | (((k & 0x1F) as u16) & 0x1F)) == k || !(0x5100 <= k
                && k <= 0x511F)) && ((0x5200u16 | (((k & 0x1F) as u16) & 0x1F)) == k || !(0x5200
                <= k && k <= 0x521F)) && ((0x5300u16 | (((k & 0x1F) as u16) & 0x1F)) == k || !(
            0x5300 <= k && k <= 0x531F)) && ((0x5400u16 | (((k & 0x1F) as u16) & 0x1F)) == k || !(
            0x5400 <= k && k <= 0x541F)) && ((0x5800u16 | (((k & 0x1F) as u16) & 0x1F)) == k || !(
            0x5800 <= k && k <= 0x581F))) by (bit_vector);
        }
    }
}


// ---------------------------------------------------------------------------
// Exact resolution: every canonical name resolves to its own id, since
// canonical names are pairwise distinct.
// ---------------------------------------------------------------------------
#[verifier::rlimit(100)]
#[verifier::spinoff_prover]
proof fn lemma_exact_letter_current(k: u16)
    requires
        names::letter_name_of(k) is Some,
    ensures
        table_id_of(names::letter_name_of(k).unwrap(), Generation::Current) == Some(k),
{
    reveal_strlit("KC_A");
    reveal_strlit("KC_B");
    reveal_strlit("KC_C");
    reveal_strlit("KC_D");
    reveal_strlit("KC_E");
    reveal_strlit("KC_F");
    reveal_strlit("KC_G");
    reveal_strlit("KC_H");
    reveal_strlit("KC_I");
    reveal_strlit("KC_J");
    reveal_strlit("KC_K");
    reveal_strlit("KC_L");
    reveal_strlit("KC_M");
    reveal_strlit("KC_N");
    reveal_strlit("KC_O");
    reveal_strlit("KC_P");
    reveal_strlit("KC_Q");
    reveal_strlit("KC_R");
    reveal_strlit("KC_S");
    reveal_strlit("KC_T");
    reveal_strlit("KC_U");
    reveal_strlit("KC_V");
    reveal_strlit("KC_W");
    reveal_strlit("KC_X");
    reveal_strlit("KC_Y");
    reveal_strlit("KC_Z");
    reveal_strlit("QK_MACRO_0");
    reveal_strlit("QK_MACRO_1");
    reveal_strlit("QK_MACRO_10");
    reveal_strlit("QK_MACRO_11");
    reveal_strlit("QK_MACRO_12");
    reveal_strlit("QK_MACRO_13");
    reveal_strlit("QK_MACRO_14");
    reveal_strlit("QK_MACRO_15");
    reveal_strlit("QK_MACRO_2");
    reveal_strlit("QK_MACRO_3");
    reveal_strlit("QK_MACRO_4");
    reveal_strlit("QK_MACRO_5");
    reveal_strlit("QK_MACRO_6");
    reveal_strlit("QK_MACRO_7");
    reveal_strlit("QK_MACRO_8");
    reveal_strlit("QK_MACRO_9");
    reveal_strlit("QK_MAGIC_TOGGLE_NKRO");
    reveal_strlit("QK_TRI_LAYER_LOWER");
    reveal_strlit("QK_TRI_LAYER_UPPER");
    assert("KC_A"@.len() == 4);
    assert("KC_B"@.len() == 4);
    assert("KC_C"@.len() == 4);
    assert("KC_D"@.len() == 4);
    assert("KC_E"@.len() == 4);
    assert("KC_F"@.len() == 4);
    assert("KC_G"@.len() == 4);
    assert("KC_H"@.len() == 4);
    assert("KC_I"@.len() == 4);
    assert("KC_J"@.len() == 4);
    assert("KC_K"@.len() == 4);
    assert("KC_L"@.len() == 4);
    assert("KC_M"@.len() == 4);
    assert("KC_N"@.len() == 4);
    assert("KC_O"@.len() == 4);
    assert("KC_P"@.len() == 4);
    assert("KC_Q"@.len() == 4);
    assert("KC_R"@.len() == 4);
    assert("KC_S"@.len() == 4);
    assert("KC_T"@.len() == 4);
    assert("KC_U"@.len() == 4);
    assert("KC_V"@.len() == 4);
    assert("KC_W"@.len() == 4);
    assert("KC_X"@.len() == 4);
    assert("KC_Y"@.len() == 4);
    assert("KC_Z"@.len() == 4);
    assert("QK_MACRO_0"@.len() == 10);
    assert("QK_MACRO_1"@.len() == 10);
    assert("QK_MACRO_10"@.len() == 11);
    assert("QK_MACRO_11"@.len() == 11);
    assert("QK_MACRO_12"@.len() == 11);
    assert("QK_MACRO_13"@.len() == 11);
    assert("QK_MACRO_14"@.len() == 11);
    assert("QK_MACRO_15"@.len() == 11);
    assert("QK_MACRO_2"@.len() == 10);
    assert("QK_MACRO_3"@.len() == 10);
    assert("QK_MACRO_4"@.len() == 10);
    assert("QK_MACRO_5"@.len() == 10);
    assert("QK_MACRO_6"@.len() == 10);
    assert("QK_MACRO_7"@.len() == 10);
    assert("QK_MACRO_8"@.len() == 10);
    assert("QK_MACRO_9"@.len() == 10);
    assert("QK_MAGIC_TOGGLE_NKRO"@.len() == 20);
    assert("QK_TRI_LAYER_LOWER"@.len() == 18);
    assert("QK_TRI_LAYER_UPPER"@.len() == 18);
    seq_ne_at("KC_A"@, "KC_B"@, 3);
    seq_ne_at("KC_A"@, "KC_C"@, 3);
    seq_ne_at("KC_A"@, "KC_D"@, 3);
    seq_ne_at("KC_A"@, "KC_E"@, 3);
    seq_ne_at("KC_A"@, "KC_F"@, 3);
    seq_ne_at("KC_A"@, "KC_G"@, 3);
    seq_ne_at("KC_A"@, "KC_H"@, 3);
    seq_ne_at("KC_A"@, "KC_I"@, 3);
    seq_ne_at("KC_A"@, "KC_J"@, 3);
    seq_ne_at("KC_A"@, "KC_K"@, 3);
    seq_ne_at("KC_A"@, "KC_L"@, 3);
    seq_ne_at("KC_A"@, "KC_M"@, 3);
    seq_ne_at("KC_A"@, "KC_N"@, 3);
    seq_ne_at("KC_A"@, "KC_O"@, 3);
    seq_ne_at("KC_A"@, "KC_P"@, 3);
    seq_ne_at("KC_A"@, "KC_Q"@, 3);
    seq_ne_at("KC_A"@, "KC_R"@, 3);
    seq_ne_at("KC_A"@, "KC_S"@, 3);
    seq_ne_at("KC_A"@, "KC_T"@, 3);
    seq_ne_at("KC_A"@, "KC_U"@, 3);
    seq_ne_at("KC_A"@, "KC_V"@, 3);
    seq_ne_at("KC_A"@, "KC_W"@, 3);
    seq_ne_at("KC_A"@, "KC_X"@, 3);
    seq_ne_at("KC_A"@, "KC_Y"@, 3);
    seq_ne_at("KC_A"@, "KC_Z"@, 3);
    seq_ne_at("KC_B"@, "KC_C"@, 3);
    seq_ne_at("KC_B"@, "KC_D"@, 3);
    seq_ne_at("KC_B"@, "KC_E"@, 3);
    seq_ne_at("KC_B"@, "KC_F"@, 3);
    seq_ne_at("KC_B"@, "KC_G"@, 3);
    seq_ne_at("KC_B"@, "KC_H"@, 3);
    seq_ne_at("KC_B"@, "KC_I"@, 3);
    seq_ne_at("KC_B"@, "KC_J"@, 3);
    seq_ne_at("KC_B"@, "KC_K"@, 3);
    seq_ne_at("KC_B"@, "KC_L"@, 3);
    seq_ne_at("KC_B"@, "KC_M"@, 3);
    seq_ne_at("KC_B"@, "KC_N"@, 3);
    seq_ne_at("KC_B"@, "KC_O"@, 3);
    seq_ne_at("KC_B"@, "KC_P"@, 3);
    seq_ne_at("KC_B"@, "KC_Q"@, 3);
    seq_ne_at("KC_B"@, "KC_R"@, 3);
    seq_ne_at("KC_B"@, "KC_S"@, 3);
    seq_ne_at("KC_B"@, "KC_T"@, 3);
    seq_ne_at("KC_B"@, "KC_U"@, 3);
    seq_ne_at("KC_B"@, "KC_V"@, 3);
    seq_ne_at("KC_B"@, "KC_W"@, 3);
    seq_ne_at("KC_B"@, "KC_X"@, 3);
    seq_ne_at("KC_B"@, "KC_Y"@, 3);
    seq_ne_at("KC_B"@, "KC_Z"@, 3);
    seq_ne_at("KC_C"@, "KC_D"@, 3);
    seq_ne_at("KC_C"@, "KC_E"@, 3);
    seq_ne_at("KC_C"@, "KC_F"@, 3);
    seq_ne_at("KC_C"@, "KC_G"@, 3);
    seq_ne_at("KC_C"@, "KC_H"@, 3);
    seq_ne_at("KC_C"@, "KC_I"@, 3);
    seq_ne_at("KC_C"@, "KC_J"@, 3);
    seq_ne_at("KC_C"@, "KC_K"@, 3);
    seq_ne_at("KC_C"@, "KC_L"@, 3);
    seq_ne_at("KC_C"@, "KC_M"@, 3);
    seq_ne_at("KC_C"@, "KC_N"@, 3);
    seq_ne_at("KC_C"@, "KC_O"@, 3);
    seq_ne_at("KC_C"@, "KC_P"@, 3);
    seq_ne_at("KC_C"@, "KC_Q"@, 3);
    seq_ne_at("KC_C"@, "KC_R"@, 3);
    seq_ne_at("KC_C"@, "KC_S"@, 3);
    seq_ne_at("KC_C"@, "KC_T"@, 3);
    seq_ne_at("KC_C"@, "KC_U"@, 3);
    seq_ne_at("KC_C"@, "KC_V"@, 3);
    seq_ne_at("KC_C"@, "KC_W"@, 3);
    seq_ne_at("KC_C"@, "KC_X"@, 3);
    seq_ne_at("KC_C"@, "KC_Y"@, 3);
    seq_ne_at("KC_C"@, "KC_Z"@, 3);
    seq_ne_at("KC_D"@, "KC_E"@, 3);
    seq_ne_at("KC_D"@, "KC_F"@, 3);
    seq_ne_at("KC_D"@, "KC_G"@, 3);
    seq_ne_at("KC_D"@, "KC_H"@, 3);
    seq_ne_at("KC_D"@, "KC_I"@, 3);
    seq_ne_at("KC_D"@, "KC_J"@, 3);
    seq_ne_at("KC_D"@, "KC_K"@, 3);
    seq_ne_at("KC_D"@, "KC_L"@, 3);
    seq_ne_at("KC_D"@, "KC_M"@, 3);
    seq_ne_at("KC_D"@, "KC_N"@, 3);
    seq_ne_at("KC_D"@, "KC_O"@, 3);
    seq_ne_at("KC_D"@, "KC_P"@, 3);
    seq_ne_at("KC_D"@, "KC_Q"@, 3);
    seq_ne_at("KC_D"@, "KC_R"@, 3);
    seq_ne_at("KC_D"@, "KC_S"@, 3);
    seq_ne_at("KC_D"@, "KC_T"@, 3);
    seq_ne_at("KC_D"@, "KC_U"@, 3);
    seq_ne_at("KC_D"@, "KC_V"@, 3);
    seq_ne_at("KC_D"@, "KC_W"@, 3);
    seq_ne_at("KC_D"@, "KC_X"@, 3);
    seq_ne_at("KC_D"@, "KC_Y"@, 3);
    seq_ne_at("KC_D"@, "KC_Z"@, 3);
    seq_ne_at("KC_E"@, "KC_F"@, 3);
    seq_ne_at("KC_E"@, "KC_G"@, 3);
    seq_ne_at("KC_E"@, "KC_H"@, 3);
    seq_ne_at("KC_E"@, "KC_I"@, 3);
    seq_ne_at("KC_E"@, "KC_J"@, 3);
    seq_ne_at("KC_E"@, "KC_K"@, 3);
    seq_ne_at("KC_E"@, "KC_L"@, 3);
    seq_ne_at("KC_E"@, "KC_M"@, 3);
    seq_ne_at("KC_E"@, "KC_N"@, 3);
    seq_ne_at("KC_E"@, "KC_O"@, 3);
    seq_ne_at("KC_E"@, "KC_P"@, 3);
    seq_ne_at("KC_E"@, "KC_Q"@, 3);
    seq_ne_at("KC_E"@, "KC_R"@, 3);
    seq_ne_at("KC_E"@, "KC_S"@, 3);
    seq_ne_at("KC_E"@, "KC_T"@, 3);
    seq_ne_at("KC_E"@, "KC_U"@, 3);
    seq_ne_at("KC_E"@, "KC_V"@, 3);
    seq_ne_at("KC_E"@, "KC_W"@, 3);
    seq_ne_at("KC_E"@, "KC_X"@, 3);
    seq_ne_at("KC_E"@, "KC_Y"@, 3);
    seq_ne_at("KC_E"@, "KC_Z"@, 3);
    seq_ne_at("KC_F"@, "KC_G"@, 3);
    seq_ne_at("KC_F"@, "KC_H"@, 3);
    seq_ne_at("KC_F"@, "KC_I"@, 3);
    seq_ne_at("KC_F"@, "KC_J"@, 3);
    seq_ne_at("KC_F"@, "KC_K"@, 3);
    seq_ne_at("KC_F"@, "KC_L"@, 3);
    seq_ne_at("KC_F"@, "KC_M"@, 3);
    seq_ne_at("KC_F"@, "KC_N"@, 3);
    seq_ne_at("KC_F"@, "KC_O"@, 3);
    seq_ne_at("KC_F"@, "KC_P"@, 3);
    seq_ne_at("KC_F"@, "KC_Q"@, 3);
    seq_ne_at("KC_F"@, "KC_R"@, 3);
    seq_ne_at("KC_F"@, "KC_S"@, 3);
    seq_ne_at("KC_F"@, "KC_T"@, 3);
    seq_ne_at("KC_F"@, "KC_U"@, 3);
    seq_ne_at("KC_F"@, "KC_V"@, 3);
    seq_ne_at("KC_F"@, "KC_W"@, 3);
    seq_ne_at("KC_F"@, "KC_X"@, 3);
    seq_ne_at("KC_F"@, "KC_Y"@, 3);
    seq_ne_at("KC_F"@, "KC_Z"@, 3);
    seq_ne_at("KC_G"@, "KC_H"@, 3);
    seq_ne_at("KC_G"@, "KC_I"@, 3);
    seq_ne_at("KC_G"@, "KC_J"@, 3);
    seq_ne_at("KC_G"@, "KC_K"@, 3);
    seq_ne_at("KC_G"@, "KC_L"@, 3);
    seq_ne_at("KC_G"@, "KC_M"@, 3);
    seq_ne_at("KC_G"@, "KC_N"@, 3);
    seq_ne_at("KC_G"@, "KC_O"@, 3);
    seq_ne_at("KC_G"@, "KC_P"@, 3);
    seq_ne_at("KC_G"@, "KC_Q"@, 3);
    seq_ne_at("KC_G"@, "KC_R"@, 3);
    seq_ne_at("KC_G"@, "KC_S"@, 3);
    seq_ne_at("KC_G"@, "KC_T"@, 3);
    seq_ne_at("KC_G"@, "KC_U"@, 3);
    seq_ne_at("KC_G"@, "KC_V"@, 3);
    seq_ne_at("KC_G"@, "KC_W"@, 3);
    seq_ne_at("KC_G"@, "KC_X"@, 3);
    seq_ne_at("KC_G"@, "KC_Y"@, 3);
    seq_ne_at("KC_G"@, "KC_Z"@, 3);
    seq_ne_at("KC_H"@, "KC_I"@, 3);
    seq_ne_at("KC_H"@, "KC_J"@, 3);
    seq_ne_at("KC_H"@, "KC_K"@, 3);
    seq_ne_at("KC_H"@, "KC_L"@, 3);
    seq_ne_at("KC_H"@, "KC_M"@, 3);
    seq_ne_at("KC_H"@, "KC_N"@, 3);
    seq_ne_at("KC_H"@, "KC_O"@, 3);
    seq_ne_at("KC_H"@, "KC_P"@, 3);
    seq_ne_at("KC_H"@, "KC_Q"@, 3);
    seq_ne_at("KC_H"@, "KC_R"@, 3);
    seq_ne_at("KC_H"@, "KC_S"@, 3);
    seq_ne_at("KC_H"@, "KC_T"@, 3);
    seq_ne_at("KC_H"@, "KC_U"@, 3);
    seq_ne_at("KC_H"@, "KC_V"@, 3);
    seq_ne_at("KC_H"@, "KC_W"@, 3);
    seq_ne_at("KC_H"@, "KC_X"@, 3);
    seq_ne_at("KC_H"@, "KC_Y"@, 3);
    seq_ne_at("KC_H"@, "KC_Z"@, 3);
    seq_ne_at("KC_I"@, "KC_J"@, 3);
    seq_ne_at("KC_I"@, "KC_K"@, 3);
    seq_ne_at("KC_I"@, "KC_L"@, 3);
    seq_ne_at("KC_I"@, "KC_M"@, 3);
    seq_ne_at("KC_I"@, "KC_N"@, 3);
    seq_ne_at("KC_I"@, "KC_O"@, 3);
    seq_ne_at("KC_I"@, "KC_P"@, 3);
    seq_ne_at("KC_I"@, "KC_Q"@, 3);
    seq_ne_at("KC_I"@, "KC_R"@, 3);
    seq_ne_at("KC_I"@, "KC_S"@, 3);
    seq_ne_at("KC_I"@, "KC_T"@, 3);
    seq_ne_at("KC_I"@, "KC_U"@, 3);
    seq_ne_at("KC_I"@, "KC_V"@, 3);
    seq_ne_at("KC_I"@, "KC_W"@, 3);
    seq_ne_at("KC_I"@, "KC_X"@, 3);
    seq_ne_at("KC_I"@, "KC_Y"@, 3);
    seq_ne_at("KC_I"@, "KC_Z"@, 3);
    seq_ne_at("KC_J"@, "KC_K"@, 3);
    seq_ne_at("KC_J"@, "KC_L"@, 3);
    seq_ne_at("KC_J"@, "KC_M"@, 3);
    seq_ne_at("KC_J"@, "KC_N"@, 3);
    seq_ne_at("KC_J"@, "KC_O"@, 3);
    seq_ne_at("KC_J"@, "KC_P"@, 3);
    seq_ne_at("KC_J"@, "KC_Q"@, 3);
    seq_ne_at("KC_J"@, "KC_R"@, 3);
    seq_ne_at("KC_J"@, "KC_S"@, 3);
    seq_ne_at("KC_J"@, "KC_T"@, 3);
    seq_ne_at("KC_J"@, "KC_U"@, 3);
    seq_ne_at("KC_J"@, "KC_V"@, 3);
    seq_ne_at("KC_J"@, "KC_W"@, 3);
    seq_ne_at("KC_J"@, "KC_X"@, 3);
    seq_ne_at("KC_J"@, "KC_Y"@, 3);
    seq_ne_at("KC_J"@, "KC_Z"@, 3);
    seq_ne_at("KC_K"@, "KC_L"@, 3);
    seq_ne_at("KC_K"@, "KC_M"@, 3);
    seq_ne_at("KC_K"@, "KC_N"@, 3);
    seq_ne_at("KC_K"@, "KC_O"@, 3);
    seq_ne_at("KC_K"@, "KC_P"@, 3);
    seq_ne_at("KC_K"@, "KC_Q"@, 3);
    seq_ne_at("KC_K"@, "KC_R"@, 3);
    seq_ne_at("KC_K"@, "KC_S"@, 3);
    seq_ne_at("KC_K"@, "KC_T"@, 3);
    seq_ne_at("KC_K"@, "KC_U"@, 3);
    seq_ne_at("KC_K"@, "KC_V"@, 3);
    seq_ne_at("KC_K"@, "KC_W"@, 3);
    seq_ne_at("KC_K"@, "KC_X"@, 3);
    seq_ne_at("KC_K"@, "KC_Y"@, 3);
    seq_ne_at("KC_K"@, "KC_Z"@, 3);
    seq_ne_at("KC_L"@, "KC_M"@, 3);
    seq_ne_at("KC_L"@, "KC_N"@, 3);
    seq_ne_at("KC_L"@, "KC_O"@, 3);
    seq_ne_at("KC_L"@, "KC_P"@, 3);
    seq_ne_at("KC_L"@, "KC_Q"@, 3);
    seq_ne_at("KC_L"@, "KC_R"@, 3);
    seq_ne_at("KC_L"@, "KC_S"@, 3);
    seq_ne_at("KC_L"@, "KC_T"@, 3);
    seq_ne_at("KC_L"@, "KC_U"@, 3);
    seq_ne_at("KC_L"@, "KC_V"@, 3);
    seq_ne_at("KC_L"@, "KC_W"@, 3);
    seq_ne_at("KC_L"@, "KC_X"@, 3);
    seq_ne_at("KC_L"@, "KC_Y"@, 3);
    seq_ne_at("KC_L"@, "KC_Z"@, 3);
    seq_ne_at("KC_M"@, "KC_N"@, 3);
    seq_ne_at("KC_M"@, "KC_O"@, 3);
    seq_ne_at("KC_M"@, "KC_P"@, 3);
    seq_ne_at("KC_M"@, "KC_Q"@, 3);
    seq_ne_at("KC_M"@, "KC_R"@, 3);
    seq_ne_at("KC_M"@, "KC_S"@, 3);
    seq_ne_at("KC_M"@, "KC_T"@, 3);
    seq_ne_at("KC_M"@, "KC_U"@, 3);
    seq_ne_at("KC_M"@, "KC_V"@, 3);
    seq_ne_at("KC_M"@, "KC_W"@, 3);
    seq_ne_at("KC_M"@, "KC_X"@, 3);
    seq_ne_at("KC_M"@, "KC_Y"@, 3);
    seq_ne_at("KC_M"@, "KC_Z"@, 3);
    seq_ne_at("KC_N"@, "KC_O"@, 3);
    seq_ne_at("KC_N"@, "KC_P"@, 3);
    seq_ne_at("KC_N"@, "KC_Q"@, 3);
    seq_ne_at("KC_N"@, "KC_R"@, 3);
    seq_ne_at("KC_N"@, "KC_S"@, 3);
    seq_ne_at("KC_N"@, "KC_T"@, 3);
    seq_ne_at("KC_N"@, "KC_U"@, 3);
    seq_ne_at("KC_N"@, "KC_V"@, 3);
    seq_ne_at("KC_N"@, "KC_W"@, 3);
    seq_ne_at("KC_N"@, "KC_X"@, 3);
    seq_ne_at("KC_N"@, "KC_Y"@, 3);
    seq_ne_at("KC_N"@, "KC_Z"@, 3);
    seq_ne_at("KC_O"@, "KC_P"@, 3);
    seq_ne_at("KC_O"@, "KC_Q"@, 3);
    seq_ne_at("KC_O"@, "KC_R"@, 3);
    seq_ne_at("KC_O"@, "KC_S"@, 3);
    seq_ne_at("KC_O"@, "KC_T"@, 3);
    seq_ne_at("KC_O"@, "KC_U"@, 3);
    seq_ne_at("KC_O"@, "KC_V"@, 3);
    seq_ne_at("KC_O"@, "KC_W"@, 3);
    seq_ne_at("KC_O"@, "KC_X"@, 3);
    seq_ne_at("KC_O"@, "KC_Y"@, 3);
    seq_ne_at("KC_O"@, "KC_Z"@, 3);
    seq_ne_at("KC_P"@, "KC_Q"@, 3);
    seq_ne_at("KC_P"@, "KC_R"@, 3);
    seq_ne_at("KC_P"@, "KC_S"@, 3);
    seq_ne_at("KC_P"@, "KC_T"@, 3);
    seq_ne_at("KC_P"@, "KC_U"@, 3);
    seq_ne_at("KC_P"@, "KC_V"@, 3);
    seq_ne_at("KC_P"@, "KC_W"@, 3);
    seq_ne_at("KC_P"@, "KC_X"@, 3);
    seq_ne_at("KC_P"@, "KC_Y"@, 3);
    seq_ne_at("KC_P"@, "KC_Z"@, 3);
    seq_ne_at("KC_Q"@, "KC_R"@, 3);
    seq_ne_at("KC_Q"@, "KC_S"@, 3);
    seq_ne_at("KC_Q"@, "KC_T"@, 3);
    seq_ne_at("KC_Q"@, "KC_U"@, 3);
    seq_ne_at("KC_Q"@, "KC_V"@, 3);
    seq_ne_at("KC_Q"@, "KC_W"@, 3);
    seq_ne_at("KC_Q"@, "KC_X"@, 3);
    seq_ne_at("KC_Q"@, "KC_Y"@, 3);
    seq_ne_at("KC_Q"@, "KC_Z"@, 3);
    seq_ne_at("KC_R"@, "KC_S"@, 3);
    seq_ne_at("KC_R"@, "KC_T"@, 3);
    seq_ne_at("KC_R"@, "KC_U"@, 3);
    seq_ne_at("KC_R"@, "KC_V"@, 3);
    seq_ne_at("KC_R"@, "KC_W"@, 3);
    seq_ne_at("KC_R"@, "KC_X"@, 3);
    seq_ne_at("KC_R"@, "KC_Y"@, 3);
    seq_ne_at("KC_R"@, "KC_Z"@, 3);
    seq_ne_at("KC_S"@, "KC_T"@, 3);
    seq_ne_at("KC_S"@, "KC_U"@, 3);
    seq_ne_at("KC_S"@, "KC_V"@, 3);
    seq_ne_at("KC_S"@, "KC_W"@, 3);
    seq_ne_at("KC_S"@, "KC_X"@, 3);
    seq_ne_at("KC_S"@, "KC_Y"@, 3);
    seq_ne_at("KC_S"@, "KC_Z"@, 3);
    seq_ne_at("KC_T"@, "KC_U"@, 3);
    seq_ne_at("KC_T"@, "KC_V"@, 3);
    seq_ne_at("KC_T"@, "KC_W"@, 3);
    seq_ne_at("KC_T"@, "KC_X"@, 3);
    seq_ne_at("KC_T"@, "KC_Y"@, 3);
    seq_ne_at("KC_T"@, "KC_Z"@, 3);
    seq_ne_at("KC_U"@, "KC_V"@, 3);
    seq_ne_at("KC_U"@, "KC_W"@, 3);
    seq_ne_at("KC_U"@, "KC_X"@, 3);
    seq_ne_at("KC_U"@, "KC_Y"@, 3);
    seq_ne_at("KC_U"@, "KC_Z"@, 3);
    seq_ne_at("KC_V"@, "KC_W"@, 3);
    seq_ne_at("KC_V"@, "KC_X"@, 3);
    seq_ne_at("KC_V"@, "KC_Y"@, 3);
    seq_ne_at("KC_V"@, "KC_Z"@, 3);
    seq_ne_at("KC_W"@, "KC_X"@, 3);
    seq_ne_at("KC_W"@, "KC_Y"@, 3);
    seq_ne_at("KC_W"@, "KC_Z"@, 3);
    seq_ne_at("KC_X"@, "KC_Y"@, 3);
    seq_ne_at("KC_X"@, "KC_Z"@, 3);
    seq_ne_at("KC_Y"@, "KC_Z"@, 3);
}

#[verifier::rlimit(100)]
#[verifier::spinoff_prover]
proof fn lemma_exact_letter_legacy(k: u16)
    requires
        names::letter_name_of(k) is Some,
    ensures
        table_id_of(names::letter_name_of(k).unwrap(), Generation::Legacy) == Some(k),
{
    reveal_strlit("KC_A");
    reveal_strlit("KC_B");
    reveal_strlit("KC_C");
    reveal_strlit("KC_D");
    reveal_strlit("KC_E");
    reveal_strlit("KC_F");
    reveal_strlit("KC_G");
    reveal_strlit("KC_H");
    reveal_strlit("KC_I");
    reveal_strlit("KC_J");
    reveal_strlit("KC_K");
    reveal_strlit("KC_L");
    reveal_strlit("KC_M");
    reveal_strlit("KC_N");
    reveal_strlit("KC_O");
    reveal_strlit("KC_P");
    reveal_strlit("KC_Q");
    reveal_strlit("KC_R");
    reveal_strlit("KC_S");
    reveal_strlit("KC_T");
    reveal_strlit("KC_U");
    reveal_strlit("KC_V");
    reveal_strlit("KC_W");
    reveal_strlit("KC_X");
    reveal_strlit("KC_Y");
    reveal_strlit("KC_Z");
    reveal_strlit("QK_MACRO_0");
    reveal_strlit("QK_MACRO_1");
    reveal_strlit("QK_MACRO_10");
    reveal_strlit("QK_MACRO_11");
    reveal_strlit("QK_MACRO_12");
    reveal_strlit("QK_MACRO_13");
    reveal_strlit("QK_MACRO_14");
    reveal_strlit("QK_MACRO_15");
    reveal_strlit("QK_MACRO_2");
    reveal_strlit("QK_MACRO_3");
    reveal_strlit("QK_MACRO_4");
    reveal_strlit("QK_MACRO_5");
    reveal_strlit("QK_MACRO_6");
    reveal_strlit("QK_MACRO_7");
    reveal_strlit("QK_MACRO_8");
    reveal_strlit("QK_MACRO_9");
    reveal_strlit("QK_MAGIC_TOGGLE_NKRO");
    reveal_strlit("QK_TRI_LAYER_LOWER");
    reveal_strlit("QK_TRI_LAYER_UPPER");
    assert("KC_A"@.len() == 4);
    assert("KC_B"@.len() == 4);
    assert("KC_C"@.len() == 4);
    assert("KC_D"@.len() == 4);
    assert("KC_E"@.len() == 4);
    assert("KC_F"@.len() == 4);
    assert("KC_G"@.len() == 4);
    assert("KC_H"@.len() == 4);
    assert("KC_I"@.len() == 4);
    assert("KC_J"@.len() == 4);
    assert("KC_K"@.len() == 4);
    assert("KC_L"@.len() == 4);
    assert("KC_M"@.len() == 4);
    assert("KC_N"@.len() == 4);
    assert("KC_O"@.len() == 4);
    assert("KC_P"@.len() == 4);
    assert("KC_Q"@.len() == 4);
    assert("KC_R"@.len() == 4);
    assert("KC_S"@.len() == 4);
    assert("KC_T"@.len() == 4);
    assert("KC_U"@.len() == 4);
    assert("KC_V"@.len() == 4);
    assert("KC_W"@.len() == 4);
    assert("KC_X"@.len() == 4);
    assert("KC_Y"@.len() == 4);
    assert("KC_Z"@.len() == 4);
    assert("QK_MACRO_0"@.len() == 10);
    assert("QK_MACRO_1"@.len() == 10);
    assert("QK_MACRO_10"@.len() == 11);
    assert("QK_MACRO_11"@.len() == 11);
    assert("QK_MACRO_12"@.len() == 11);
    assert("QK_MACRO_13"@.len() == 11);
    assert("QK_MACRO_14"@.len() == 11);
    assert("QK_MACRO_15"@.len() == 11);
    assert("QK_MACRO_2"@.len() == 10);
    assert("QK_MACRO_3"@.len() == 10);
    assert("QK_MACRO_4"@.len() == 10);
    assert("QK_MACRO_5"@.len() == 10);
    assert("QK_MACRO_6"@.len() == 10);
    assert("QK_MACRO_7"@.len() == 10);
    assert("QK_MACRO_8"@.len() == 10);
    assert("QK_MACRO_9"@.len() == 10);
    assert("QK_MAGIC_TOGGLE_NKRO"@.len() == 20);
    assert("QK_TRI_LAYER_LOWER"@.len() == 18);
    assert("QK_TRI_LAYER_UPPER"@.len() == 18);
    seq_ne_at("KC_A"@, "KC_B"@, 3);
    seq_ne_at("KC_A"@, "KC_C"@, 3);
    seq_ne_at("KC_A"@, "KC_D"@, 3);
    seq_ne_at("KC_A"@, "KC_E"@, 3);
    seq_ne_at("KC_A"@, "KC_F"@, 3);
    seq_ne_at("KC_A"@, "KC_G"@, 3);
    seq_ne_at("KC_A"@, "KC_H"@, 3);
    seq_ne_at("KC_A"@, "KC_I"@, 3);
    seq_ne_at("KC_A"@, "KC_J"@, 3);
    seq_ne_at("KC_A"@, "KC_K"@, 3);
    seq_ne_at("KC_A"@, "KC_L"@, 3);
    seq_ne_at("KC_A"@, "KC_M"@, 3);
    seq_ne_at("KC_A"@, "KC_N"@, 3);
    seq_ne_at("KC_A"@, "KC_O"@, 3);
    seq_ne_at("KC_A"@, "KC_P"@, 3);
    seq_ne_at("KC_A"@, "KC_Q"@, 3);
    seq_ne_at("KC_A"@, "KC_R"@, 3);
    seq_ne_at("KC_A"@, "KC_S"@, 3);
    seq_ne_at("KC_A"@, "KC_T"@, 3);
    seq_ne_at("KC_A"@, "KC_U"@, 3);
    seq_ne_at("KC_A"@, "KC_V"@, 3);
    seq_ne_at("KC_A"@, "KC_W"@, 3);
    seq_ne_at("KC_A"@, "KC_X"@, 3);
    seq_ne_at("KC_A"@, "KC_Y"@, 3);
    seq_ne_at("KC_A"@, "KC_Z"@, 3);
    seq_ne_at("KC_B"@, "KC_C"@, 3);
    seq_ne_at("KC_B"@, "KC_D"@, 3);
    seq_ne_at("KC_B"@, "KC_E"@, 3);
    seq_ne_at("KC_B"@, "KC_F"@, 3);
    seq_ne_at("KC_B"@, "KC_G"@, 3);
    seq_ne_at("KC_B"@, "KC_H"@, 3);
    seq_ne_at("KC_B"@, "KC_I"@, 3);
    seq_ne_at("KC_B"@, "KC_J"@, 3);
    seq_ne_at("KC_B"@, "KC_K"@, 3);
    seq_ne_at("KC_B"@, "KC_L"@, 3);
    seq_ne_at("KC_B"@, "KC_M"@, 3);
    seq_ne_at("KC_B"@, "KC_N"@, 3);
    seq_ne_at("KC_B"@, "KC_O"@, 3);
    seq_ne_at("KC_B"@, "KC_P"@, 3);
    seq_ne_at("KC_B"@, "KC_Q"@, 3);
    seq_ne_at("KC_B"@, "KC_R"@, 3);
    seq_ne_at("KC_B"@, "KC_S"@, 3);
    seq_ne_at("KC_B"@, "KC_T"@, 3);
    seq_ne_at("KC_B"@, "KC_U"@, 3);
    seq_ne_at("KC_B"@, "KC_V"@, 3);
    seq_ne_at("KC_B"@, "KC_W"@, 3);
    seq_ne_at("KC_B"@, "KC_X"@, 3);
    seq_ne_at("KC_B"@, "KC_Y"@, 3);
    seq_ne_at("KC_B"@, "KC_Z"@, 3);
    seq_ne_at("KC_C"@, "KC_D"@, 3);
    seq_ne_at("KC_C"@, "KC_E"@, 3);
    seq_ne_at("KC_C"@, "KC_F"@, 3);
    seq_ne_at("KC_C"@, "KC_G"@, 3);
    seq_ne_at("KC_C"@, "KC_H"@, 3);
    seq_ne_at("KC_C"@, "KC_I"@, 3);
    seq_ne_at("KC_C"@, "KC_J"@, 3);
    seq_ne_at("KC_C"@, "KC_K"@, 3);
    seq_ne_at("KC_C"@, "KC_L"@, 3);
    seq_ne_at("KC_C"@, "KC_M"@, 3);
    seq_ne_at("KC_C"@, "KC_N"@, 3);
    seq_ne_at("KC_C"@, "KC_O"@, 3);
    seq_ne_at("KC_C"@, "KC_P"@, 3);
    seq_ne_at("KC_C"@, "KC_Q"@, 3);
    seq_ne_at("KC_C"@, "KC_R"@, 3);
    seq_ne_at("KC_C"@, "KC_S"@, 3);
    seq_ne_at("KC_C"@, "KC_T"@, 3);
    seq_ne_at("KC_C"@, "KC_U"@, 3);
    seq_ne_at("KC_C"@, "KC_V"@, 3);
    seq_ne_at("KC_C"@, "KC_W"@, 3);
    seq_ne_at("KC_C"@, "KC_X"@, 3);
    seq_ne_at("KC_C"@, "KC_Y"@, 3);
    seq_ne_at("KC_C"@, "KC_Z"@, 3);
    seq_ne_at("KC_D"@, "KC_E"@, 3);
    seq_ne_at("KC_D"@, "KC_F"@, 3);
    seq_ne_at("KC_D"@, "KC_G"@, 3);
    seq_ne_at("KC_D"@, "KC_H"@, 3);
    seq_ne_at("KC_D"@, "KC_I"@, 3);
    seq_ne_at("KC_D"@, "KC_J"@, 3);
    seq_ne_at("KC_D"@, "KC_K"@, 3);
    seq_ne_at("KC_D"@, "KC_L"@, 3);
    seq_ne_at("KC_D"@, "KC_M"@, 3);
    seq_ne_at("KC_D"@, "KC_N"@, 3);
    seq_ne_at("KC_D"@, "KC_O"@, 3);
    seq_ne_at("KC_D"@, "KC_P"@, 3);
    seq_ne_at("KC_D"@, "KC_Q"@, 3);
    seq_ne_at("KC_D"@, "KC_R"@, 3);
    seq_ne_at("KC_D"@, "KC_S"@, 3);
    seq_ne_at("KC_D"@, "KC_T"@, 3);
    seq_ne_at("KC_D"@, "KC_U"@, 3);
    seq_ne_at("KC_D"@, "KC_V"@, 3);
    seq_ne_at("KC_D"@, "KC_W"@, 3);
    seq_ne_at("KC_D"@, "KC_X"@, 3);
    seq_ne_at("KC_D"@, "KC_Y"@, 3);
    seq_ne_at("KC_D"@, "KC_Z"@, 3);
    seq_ne_at("KC_E"@, "KC_F"@, 3);
    seq_ne_at("KC_E"@, "KC_G"@, 3);
    seq_ne_at("KC_E"@, "KC_H"@, 3);
    seq_ne_at("KC_E"@, "KC_I"@, 3);
    seq_ne_at("KC_E"@, "KC_J"@, 3);
    seq_ne_at("KC_E"@, "KC_K"@, 3);
    seq_ne_at("KC_E"@, "KC_L"@, 3);
    seq_ne_at("KC_E"@, "KC_M"@, 3);
    seq_ne_at("KC_E"@, "KC_N"@, 3);
    seq_ne_at("KC_E"@, "KC_O"@, 3);
    seq_ne_at("KC_E"@, "KC_P"@, 3);
    seq_ne_at("KC_E"@, "KC_Q"@, 3);
    seq_ne_at("KC_E"@, "KC_R"@, 3);
    seq_ne_at("KC_E"@, "KC_S"@, 3);
    seq_ne_at("KC_E"@, "KC_T"@, 3);
    seq_ne_at("KC_E"@, "KC_U"@, 3);
    seq_ne_at("KC_E"@, "KC_V"@, 3);
    seq_ne_at("KC_E"@, "KC_W"@, 3);
    seq_ne_at("KC_E"@, "KC_X"@, 3);
    seq_ne_at("KC_E"@, "KC_Y"@, 3);
    seq_ne_at("KC_E"@, "KC_Z"@, 3);
    seq_ne_at("KC_F"@, "KC_G"@, 3);
    seq_ne_at("KC_F"@, "KC_H"@, 3);
    seq_ne_at("KC_F"@, "KC_I"@, 3);
    seq_ne_at("KC_F"@, "KC_J"@, 3);
    seq_ne_at("KC_F"@, "KC_K"@, 3);
    seq_ne_at("KC_F"@, "KC_L"@, 3);
    seq_ne_at("KC_F"@, "KC_M"@, 3);
    seq_ne_at("KC_F"@, "KC_N"@, 3);
    seq_ne_at("KC_F"@, "KC_O"@, 3);
    seq_ne_at("KC_F"@, "KC_P"@, 3);
    seq_ne_at("KC_F"@, "KC_Q"@, 3);
    seq_ne_at("KC_F"@, "KC_R"@, 3);
    seq_ne_at("KC_F"@, "KC_S"@, 3);
    seq_ne_at("KC_F"@, "KC_T"@, 3);
    seq_ne_at("KC_F"@, "KC_U"@, 3);
    seq_ne_at("KC_F"@, "KC_V"@, 3);
    seq_ne_at("KC_F"@, "KC_W"@, 3);
    seq_ne_at("KC_F"@, "KC_X"@, 3);
    seq_ne_at("KC_F"@, "KC_Y"@, 3);
    seq_ne_at("KC_F"@, "KC_Z"@, 3);
    seq_ne_at("KC_G"@, "KC_H"@, 3);
    seq_ne_at("KC_G"@, "KC_I"@, 3);
    seq_ne_at("KC_G"@, "KC_J"@, 3);
    seq_ne_at("KC_G"@, "KC_K"@, 3);
    seq_ne_at("KC_G"@, "KC_L"@, 3);
    seq_ne_at("KC_G"@, "KC_M"@, 3);
    seq_ne_at("KC_G"@, "KC_N"@, 3);
    seq_ne_at("KC_G"@, "KC_O"@, 3);
    seq_ne_at("KC_G"@, "KC_P"@, 3);
    seq_ne_at("KC_G"@, "KC_Q"@, 3);
    seq_ne_at("KC_G"@, "KC_R"@, 3);
    seq_ne_at("KC_G"@, "KC_S"@, 3);
    seq_ne_at("KC_G"@, "KC_T"@, 3);
    seq_ne_at("KC_G"@, "KC_U"@, 3);
    seq_ne_at("KC_G"@, "KC_V"@, 3);
    seq_ne_at("KC_G"@, "KC_W"@, 3);
    seq_ne_at("KC_G"@, "KC_X"@, 3);
    seq_ne_at("KC_G"@, "KC_Y"@, 3);
    seq_ne_at("KC_G"@, "KC_Z"@, 3);
    seq_ne_at("KC_H"@, "KC_I"@, 3);
    seq_ne_at("KC_H"@, "KC_J"@, 3);
    seq_ne_at("KC_H"@, "KC_K"@, 3);
    seq_ne_at("KC_H"@, "KC_L"@, 3);
    seq_ne_at("KC_H"@, "KC_M"@, 3);
    seq_ne_at("KC_H"@, "KC_N"@, 3);
    seq_ne_at("KC_H"@, "KC_O"@, 3);
    seq_ne_at("KC_H"@, "KC_P"@, 3);
    seq_ne_at("KC_H"@, "KC_Q"@, 3);
    seq_ne_at("KC_H"@, "KC_R"@, 3);
    seq_ne_at("KC_H"@, "KC_S"@, 3);
    seq_ne_at("KC_H"@, "KC_T"@, 3);
    seq_ne_at("KC_H"@, "KC_U"@, 3);
    seq_ne_at("KC_H"@, "KC_V"@, 3);
    seq_ne_at("KC_H"@, "KC_W"@, 3);
    seq_ne_at("KC_H"@, "KC_X"@, 3);
    seq_ne_at("KC_H"@, "KC_Y"@, 3);
    seq_ne_at("KC_H"@, "KC_Z"@, 3);
    seq_ne_at("KC_I"@, "KC_J"@, 3);
    seq_ne_at("KC_I"@, "KC_K"@, 3);
    seq_ne_at("KC_I"@, "KC_L"@, 3);
    seq_ne_at("KC_I"@, "KC_M"@, 3);
    seq_ne_at("KC_I"@, "KC_N"@, 3);
    seq_ne_at("KC_I"@, "KC_O"@, 3);
    seq_ne_at("KC_I"@, "KC_P"@, 3);
    seq_ne_at("KC_I"@, "KC_Q"@, 3);
    seq_ne_at("KC_I"@, "KC_R"@, 3);
    seq_ne_at("KC_I"@, "KC_S"@, 3);
    seq_ne_at("KC_I"@, "KC_T"@, 3);
    seq_ne_at("KC_I"@, "KC_U"@, 3);
    seq_ne_at("KC_I"@, "KC_V"@, 3);
    seq_ne_at("KC_I"@, "KC_W"@, 3);
    seq_ne_at("KC_I"@, "KC_X"@, 3);
    seq_ne_at("KC_I"@, "KC_Y"@, 3);
    seq_ne_at("KC_I"@, "KC_Z"@, 3);
    seq_ne_at("KC_J"@, "KC_K"@, 3);
    seq_ne_at("KC_J"@, "KC_L"@, 3);
    seq_ne_at("KC_J"@, "KC_M"@, 3);
    seq_ne_at("KC_J"@, "KC_N"@, 3);
    seq_ne_at("KC_J"@, "KC_O"@, 3);
    seq_ne_at("KC_J"@, "KC_P"@, 3);
    seq_ne_at("KC_J"@, "KC_Q"@, 3);
    seq_ne_at("KC_J"@, "KC_R"@, 3);
    seq_ne_at("KC_J"@, "KC_S"@, 3);
    seq_ne_at("KC_J"@, "KC_T"@, 3);
    seq_ne_at("KC_J"@, "KC_U"@, 3);
    seq_ne_at("KC_J"@, "KC_V"@, 3);
    seq_ne_at("KC_J"@, "KC_W"@, 3);
    seq_ne_at("KC_J"@, "KC_X"@, 3);
    seq_ne_at("KC_J"@, "KC_Y"@, 3);
    seq_ne_at("KC_J"@, "KC_Z"@, 3);
    seq_ne_at("KC_K"@, "KC_L"@, 3);
    seq_ne_at("KC_K"@, "KC_M"@, 3);
    seq_ne_at("KC_K"@, "KC_N"@, 3);
    seq_ne_at("KC_K"@, "KC_O"@, 3);
    seq_ne_at("KC_K"@, "KC_P"@, 3);
    seq_ne_at("KC_K"@, "KC_Q"@, 3);
    seq_ne_at("KC_K"@, "KC_R"@, 3);
    seq_ne_at("KC_K"@, "KC_S"@, 3);
    seq_ne_at("KC_K"@, "KC_T"@, 3);
    seq_ne_at("KC_K"@, "KC_U"@, 3);
    seq_ne_at("KC_K"@, "KC_V"@, 3);
    seq_ne_at("KC_K"@, "KC_W"@, 3);
    seq_ne_at("KC_K"@, "KC_X"@, 3);
    seq_ne_at("KC_K"@, "KC_Y"@, 3);
    seq_ne_at("KC_K"@, "KC_Z"@, 3);
    seq_ne_at("KC_L"@, "KC_M"@, 3);
    seq_ne_at("KC_L"@, "KC_N"@, 3);
    seq_ne_at("KC_L"@, "KC_O"@, 3);
    seq_ne_at("KC_L"@, "KC_P"@, 3);
    seq_ne_at("KC_L"@, "KC_Q"@, 3);
    seq_ne_at("KC_L"@, "KC_R"@, 3);
    seq_ne_at("KC_L"@, "KC_S"@, 3);
    seq_ne_at("KC_L"@, "KC_T"@, 3);
    seq_ne_at("KC_L"@, "KC_U"@, 3);
    seq_ne_at("KC_L"@, "KC_V"@, 3);
    seq_ne_at("KC_L"@, "KC_W"@, 3);
    seq_ne_at("KC_L"@, "KC_X"@, 3);
    seq_ne_at("KC_L"@, "KC_Y"@, 3);
    seq_ne_at("KC_L"@, "KC_Z"@, 3);
    seq_ne_at("KC_M"@, "KC_N"@, 3);
    seq_ne_at("KC_M"@, "KC_O"@, 3);
    seq_ne_at("KC_M"@, "KC_P"@, 3);
    seq_ne_at("KC_M"@, "KC_Q"@, 3);
    seq_ne_at("KC_M"@, "KC_R"@, 3);
    seq_ne_at("KC_M"@, "KC_S"@, 3);
    seq_ne_at("KC_M"@, "KC_T"@, 3);
    seq_ne_at("KC_M"@, "KC_U"@, 3);
    seq_ne_at("KC_M"@, "KC_V"@, 3);
    seq_ne_at("KC_M"@, "KC_W"@, 3);
    seq_ne_at("KC_M"@, "KC_X"@, 3);
    seq_ne_at("KC_M"@, "KC_Y"@, 3);
    seq_ne_at("KC_M"@, "KC_Z"@, 3);
    seq_ne_at("KC_N"@, "KC_O"@, 3);
    seq_ne_at("KC_N"@, "KC_P"@, 3);
    seq_ne_at("KC_N"@, "KC_Q"@, 3);
    seq_ne_at("KC_N"@, "KC_R"@, 3);
    seq_ne_at("KC_N"@, "KC_S"@, 3);
    seq_ne_at("KC_N"@, "KC_T"@, 3);
    seq_ne_at("KC_N"@, "KC_U"@, 3);
    seq_ne_at("KC_N"@, "KC_V"@, 3);
    seq_ne_at("KC_N"@, "KC_W"@, 3);
    seq_ne_at("KC_N"@, "KC_X"@, 3);
    seq_ne_at("KC_N"@, "KC_Y"@, 3);
    seq_ne_at("KC_N"@, "KC_Z"@, 3);
    seq_ne_at("KC_O"@, "KC_P"@, 3);
    seq_ne_at("KC_O"@, "KC_Q"@, 3);
    seq_ne_at("KC_O"@, "KC_R"@, 3);
    seq_ne_at("KC_O"@, "KC_S"@, 3);
    seq_ne_at("KC_O"@, "KC_T"@, 3);
    seq_ne_at("KC_O"@, "KC_U"@, 3);
    seq_ne_at("KC_O"@, "KC_V"@, 3);
    seq_ne_at("KC_O"@, "KC_W"@, 3);
    seq_ne_at("KC_O"@, "KC_X"@, 3);
    seq_ne_at("KC_O"@, "KC_Y"@, 3);
    seq_ne_at("KC_O"@, "KC_Z"@, 3);
    seq_ne_at("KC_P"@, "KC_Q"@, 3);
    seq_ne_at("KC_P"@, "KC_R"@, 3);
    seq_ne_at("KC_P"@, "KC_S"@, 3);
    seq_ne_at("KC_P"@, "KC_T"@, 3);
    seq_ne_at("KC_P"@, "KC_U"@, 3);
    seq_ne_at("KC_P"@, "KC_V"@, 3);
    seq_ne_at("KC_P"@, "KC_W"@, 3);
    seq_ne_at("KC_P"@, "KC_X"@, 3);
    seq_ne_at("KC_P"@, "KC_Y"@, 3);
    seq_ne_at("KC_P"@, "KC_Z"@, 3);
    seq_ne_at("KC_Q"@, "KC_R"@, 3);
    seq_ne_at("KC_Q"@, "KC_S"@, 3);
    seq_ne_at("KC_Q"@, "KC_T"@, 3);
    seq_ne_at("KC_Q"@, "KC_U"@, 3);
    seq_ne_at("KC_Q"@, "KC_V"@, 3);
    seq_ne_at("KC_Q"@, "KC_W"@, 3);
    seq_ne_at("KC_Q"@, "KC_X"@, 3);
    seq_ne_at("KC_Q"@, "KC_Y"@, 3);
    seq_ne_at("KC_Q"@, "KC_Z"@, 3);
    seq_ne_at("KC_R"@, "KC_S"@, 3);
    seq_ne_at("KC_R"@, "KC_T"@, 3);
    seq_ne_at("KC_R"@, "KC_U"@, 3);
    seq_ne_at("KC_R"@, "KC_V"@, 3);
    seq_ne_at("KC_R"@, "KC_W"@, 3);
    seq_ne_at("KC_R"@, "KC_X"@, 3);
    seq_ne_at("KC_R"@, "KC_Y"@, 3);
    seq_ne_at("KC_R"@, "KC_Z"@, 3);
    seq_ne_at("KC_S"@, "KC_T"@, 3);
    seq_ne_at("KC_S"@, "KC_U"@, 3);
    seq_ne_at("KC_S"@, "KC_V"@, 3);
    seq_ne_at("KC_S"@, "KC_W"@, 3);
    seq_ne_at("KC_S"@, "KC_X"@, 3);
    seq_ne_at("KC_S"@, "KC_Y"@, 3);
    seq_ne_at("KC_S"@, "KC_Z"@, 3);
    seq_ne_at("KC_T"@, "KC_U"@, 3);
    seq_ne_at("KC_T"@, "KC_V"@, 3);
    seq_ne_at("KC_T"@, "KC_W"@, 3);
    seq_ne_at("KC_T"@, "KC_X"@, 3);
    seq_ne_at("KC_T"@, "KC_Y"@, 3);
    seq_ne_at("KC_T"@, "KC_Z"@, 3);
    seq_ne_at("KC_U"@, "KC_V"@, 3);
    seq_ne_at("KC_U"@, "KC_W"@, 3);
    seq_ne_at("KC_U"@, "KC_X"@, 3);
    seq_ne_at("KC_U"@, "KC_Y"@, 3);
    seq_ne_at("KC_U"@, "KC_Z"@, 3);
    seq_ne_at("KC_V"@, "KC_W"@, 3);
    seq_ne_at("KC_V"@, "KC_X"@, 3);
    seq_ne_at("KC_V"@, "KC_Y"@, 3);
    seq_ne_at("KC_V"@, "KC_Z"@, 3);
    seq_ne_at("KC_W"@, "KC_X"@, 3);
    seq_ne_at("KC_W"@, "KC_Y"@, 3);
    seq_ne_at("KC_W"@, "KC_Z"@, 3);
    seq_ne_at("KC_X"@, "KC_Y"@, 3);
    seq_ne_at("KC_X"@, "KC_Z"@, 3);
    seq_ne_at("KC_Y"@, "KC_Z"@, 3);
}

#[verifier::rlimit(100)]
#[verifier::spinoff_prover]
proof fn lemma_exact_digit_current(k: u16)
    requires
        names::digit_name_of(k) is Some,
    ensures
        table_id_of(names::digit_name_of(k).unwrap(), Generation::Current) == Some(k),
{
    reveal_strlit("KC_0");
    reveal_strlit("KC_1");
    reveal_strlit("KC_2");
    reveal_strlit("KC_3");
    reveal_strlit("KC_4");
    reveal_strlit("KC_5");
    reveal_strlit("KC_6");
    reveal_strlit("KC_7");
    reveal_strlit("KC_8");
    reveal_strlit("KC_9");
    reveal_strlit("KC_A");
    reveal_strlit("KC_B");
    reveal_strlit("KC_C");
    reveal_strlit("KC_D");
    reveal_strlit("KC_E");
    reveal_strlit("KC_F");
    reveal_strlit("KC_G");
    reveal_strlit("KC_H");
    reveal_strlit("KC_I");
    reveal_strlit("KC_J");
    reveal_strlit("KC_K");
    reveal_strlit("KC_L");
    reveal_strlit("KC_M");
    reveal_strlit("KC_N");
    reveal_strlit("KC_O");
    reveal_strlit("KC_P");
    reveal_strlit("KC_Q");
    reveal_strlit("KC_R");
    reveal_strlit("KC_S");
    reveal_strlit("KC_T");
    reveal_strlit("KC_U");
    reveal_strlit("KC_V");
    reveal_strlit("KC_W");
    reveal_strlit("KC_X");
    reveal_strlit("KC_Y");
    reveal_strlit("KC_Z");
    reveal_strlit("QK_MACRO_0");
    reveal_strlit("QK_MACRO_1");
    reveal_strlit("QK_MACRO_10");
    reveal_strlit("QK_MACRO_11");
    reveal_strlit("QK_MACRO_12");
    reveal_strlit("QK_MACRO_13");
    reveal_strlit("QK_MACRO_14");
    reveal_strlit("QK_MACRO_15");
    reveal_strlit("QK_MACRO_2");
    reveal_strlit("QK_MACRO_3");
    reveal_strlit("QK_MACRO_4");
    reveal_strlit("QK_MACRO_5");
    reveal_strlit("QK_MACRO_6");
    reveal_strlit("QK_MACRO_7");
    reveal_strlit("QK_MACRO_8");
    reveal_strlit("QK_MACRO_9");
    reveal_strlit("QK_MAGIC_TOGGLE_NKRO");
    reveal_strlit("QK_TRI_LAYER_LOWER");
    reveal_strlit("QK_TRI_LAYER_UPPER");
    assert("KC_0"@.len() == 4);
    assert("KC_1"@.len() == 4);
    assert("KC_2"@.len() == 4);
    assert("KC_3"@.len() == 4);
    assert("KC_4"@.len() == 4);
    assert("KC_5"@.len() == 4);
    assert("KC_6"@.len() == 4);
    assert("KC_7"@.len() == 4);
    assert("KC_8"@.len() == 4);
    assert("KC_9"@.len() == 4);
    assert("KC_A"@.len() == 4);
    assert("KC_B"@.len() == 4);
    assert("KC_C"@.len() == 4);
    assert("KC_D"@.len() == 4);
    assert("KC_E"@.len() == 4);
    assert("KC_F"@.len() == 4);
    assert("KC_G"@.len() == 4);
    assert("KC_H"@.len() == 4);
    assert("KC_I"@.len() == 4);
    assert("KC_J"@.len() == 4);
    assert("KC_K"@.len() == 4);
    assert("KC_L"@.len() == 4);
    assert("KC_M"@.len() == 4);
    assert("KC_N"@.len() == 4);
    assert("KC_O"@.len() == 4);
    assert("KC_P"@.len() == 4);
    assert("KC_Q"@.len() == 4);
    assert("KC_R"@.len() == 4);
    assert("KC_S"@.len() == 4);
    assert("KC_T"@.len() == 4);
    assert("KC_U"@.len() == 4);
    assert("KC_V"@.len() == 4);
    assert("KC_W"@.len() == 4);
    assert("KC_X"@.len() == 4);
    assert("KC_Y"@.len() == 4);
    assert("KC_Z"@.len() == 4);
    assert("QK_MACRO_0"@.len() == 10);
    assert("QK_MACRO_1"@.len() == 10);
    assert("QK_MACRO_10"@.len() == 11);
    assert("QK_MACRO_11"@.len() == 11);
    assert("QK_MACRO_12"@.len() == 11);
    assert("QK_MACRO_13"@.len() == 11);
    assert("QK_MACRO_14"@.len() == 11);
    assert("QK_MACRO_15"@.len() == 11);
    assert("QK_MACRO_2"@.len() == 10);
    assert("QK_MACRO_3"@.len() == 10);
    assert("QK_MACRO_4"@.len() == 10);
    assert("QK_MACRO_5"@.len() == 10);
    assert("QK_MACRO_6"@.len() == 10);
    assert("QK_MACRO_7"@.len() == 10);
    assert("QK_MACRO_8"@.len() == 10);
    assert("QK_MACRO_9"@.len() == 10);
    assert("QK_MAGIC_TOGGLE_NKRO"@.len() == 20);
    assert("QK_TRI_LAYER_LOWER"@.len() == 18);
    assert("QK_TRI_LAYER_UPPER"@.len() == 18);
    seq_ne_at("KC_0"@, "KC_1"@, 3);
    seq_ne_at("KC_0"@, "KC_2"@, 3);
    seq_ne_at("KC_0"@, "KC_3"@, 3);
    seq_ne_at("KC_0"@, "KC_4"@, 3);
    seq_ne_at("KC_0"@, "KC_5"@, 3);
    seq_ne_at("KC_0"@, "KC_6"@, 3);
    seq_ne_at("KC_0"@, "KC_7"@, 3);
    seq_ne_at("KC_0"@, "KC_8"@, 3);
    seq_ne_at("KC_0"@, "KC_9"@, 3);
    seq_ne_at("KC_0"@, "KC_A"@, 3);
    seq_ne_at("KC_0"@, "KC_B"@, 3);
    seq_ne_at("KC_0"@, "KC_C"@, 3);
    seq_ne_at("KC_0"@, "KC_D"@, 3);
    seq_ne_at("KC_0"@, "KC_E"@, 3);
    seq_ne_at("KC_0"@, "KC_F"@, 3);
    seq_ne_at("KC_0"@, "KC_G"@, 3);
    seq_ne_at("KC_0"@, "KC_H"@, 3);
    seq_ne_at("KC_0"@, "KC_I"@, 3);
    seq_ne_at("KC_0"@, "KC_J"@, 3);
    seq_ne_at("KC_0"@, "KC_K"@, 3);
    seq_ne_at("KC_0"@, "KC_L"@, 3);
    seq_ne_at("KC_0"@, "KC_M"@, 3);
    seq_ne_at("KC_0"@, "KC_N"@, 3);
    seq_ne_at("KC_0"@, "KC_O"@, 3);
    seq_ne_at("KC_0"@, "KC_P"@, 3);
    seq_ne_at("KC_0"@, "KC_Q"@, 3);
    seq_ne_at("KC_0"@, "KC_R"@, 3);
    seq_ne_at("KC_0"@, "KC_S"@, 3);
    seq_ne_at("KC_0"@, "KC_T"@, 3);
    seq_ne_at("KC_0"@, "KC_U"@, 3);
    seq_ne_at("KC_0"@, "KC_V"@, 3);
    seq_ne_at("KC_0"@, "KC_W"@, 3);
    seq_ne_at("KC_0"@, "KC_X"@, 3);
    seq_ne_at("KC_0"@, "KC_Y"@, 3);
    seq_ne_at("KC_0"@, "KC_Z"@, 3);
    seq_ne_at("KC_1"@, "KC_2"@, 3);
    seq_ne_at("KC_1"@, "KC_3"@, 3);
    seq_ne_at("KC_1"@, "KC_4"@, 3);
    seq_ne_at("KC_1"@, "KC_5"@, 3);
    seq_ne_at("KC_1"@, "KC_6"@, 3);
    seq_ne_at("KC_1"@, "KC_7"@, 3);
    seq_ne_at("KC_1"@, "KC_8"@, 3);
    seq_ne_at("KC_1"@, "KC_9"@, 3);
    seq_ne_at("KC_1"@, "KC_A"@, 3);
    seq_ne_at("KC_1"@, "KC_B"@, 3);
    seq_ne_at("KC_1"@, "KC_C"@, 3);
    seq_ne_at("KC_1"@, "KC_D"@, 3);
    seq_ne_at("KC_1"@, "KC_E"@, 3);
    seq_ne_at("KC_1"@, "KC_F"@, 3);
    seq_ne_at("KC_1"@, "KC_G"@, 3);
    seq_ne_at("KC_1"@, "KC_H"@, 3);
    seq_ne_at("KC_1"@, "KC_I"@, 3);
    seq_ne_at("KC_1"@, "KC_J"@, 3);
    seq_ne_at("KC_1"@, "KC_K"@, 3);
    seq_ne_at("KC_1"@, "KC_L"@, 3);
    seq_ne_at("KC_1"@, "KC_M"@, 3);
    seq_ne_at("KC_1"@, "KC_N"@, 3);
    seq_ne_at("KC_1"@, "KC_O"@, 3);
    seq_ne_at("KC_1"@, "KC_P"@, 3);
    seq_ne_at("KC_1"@, "KC_Q"@, 3);
    seq_ne_at("KC_1"@, "KC_R"@, 3);
    seq_ne_at("KC_1"@, "KC_S"@, 3);
    seq_ne_at("KC_1"@, "KC_T"@, 3);
    seq_ne_at("KC_1"@, "KC_U"@, 3);
    seq_ne_at("KC_1"@, "KC_V"@, 3);
    seq_ne_at("KC_1"@, "KC_W"@, 3);
    seq_ne_at("KC_1"@, "KC_X"@, 3);
    seq_ne_at("KC_1"@, "KC_Y"@, 3);
    seq_ne_at("KC_1"@, "KC_Z"@, 3);
    seq_ne_at("KC_2"@, "KC_3"@, 3);
    seq_ne_at("KC_2"@, "KC_4"@, 3);
    seq_ne_at("KC_2"@, "KC_5"@, 3);
    seq_ne_at("KC_2"@, "KC_6"@, 3);
    seq_ne_at("KC_2"@, "KC_7"@, 3);
    seq_ne_at("KC_2"@, "KC_8"@, 3);
    seq_ne_at("KC_2"@, "KC_9"@, 3);
    seq_ne_at("KC_2"@, "KC_A"@, 3);
    seq_ne_at("KC_2"@, "KC_B"@, 3);
    seq_ne_at("KC_2"@, "KC_C"@, 3);
    seq_ne_at("KC_2"@, "KC_D"@, 3);
    seq_ne_at("KC_2"@, "KC_E"@, 3);
    seq_ne_at("KC_2"@, "KC_F"@, 3);
    seq_ne_at("KC_2"@, "KC_G"@, 3);
    seq_ne_at("KC_2"@, "KC_H"@, 3);
    seq_ne_at("KC_2"@, "KC_I"@, 3);
    seq_ne_at("KC_2"@, "KC_J"@, 3);
    seq_ne_at("KC_2"@, "KC_K"@, 3);
    seq_ne_at("KC_2"@, "KC_L"@, 3);
    seq_ne_at("KC_2"@, "KC_M"@, 3);
    seq_ne_at("KC_2"@, "KC_N"@, 3);
    seq_ne_at("KC_2"@, "KC_O"@, 3);
    seq_ne_at("KC_2"@, "KC_P"@, 3);
    seq_ne_at("KC_2"@, "KC_Q"@, 3);
    seq_ne_at("KC_2"@, "KC_R"@, 3);
    seq_ne_at("KC_2"@, "KC_S"@, 3);
    seq_ne_at("KC_2"@, "KC_T"@, 3);
    seq_ne_at("KC_2"@, "KC_U"@, 3);
    seq_ne_at("KC_2"@, "KC_V"@, 3);
    seq_ne_at("KC_2"@, "KC_W"@, 3);
    seq_ne_at("KC_2"@, "KC_X"@, 3);
    seq_ne_at("KC_2"@, "KC_Y"@, 3);
    seq_ne_at("KC_2"@, "KC_Z"@, 3);
    seq_ne_at("KC_3"@, "KC_4"@, 3);
    seq_ne_at("KC_3"@, "KC_5"@, 3);
    seq_ne_at("KC_3"@, "KC_6"@, 3);
    seq_ne_at("KC_3"@, "KC_7"@, 3);
    seq_ne_at("KC_3"@, "KC_8"@, 3);
    seq_ne_at("KC_3"@, "KC_9"@, 3);
    seq_ne_at("KC_3"@, "KC_A"@, 3);
    seq_ne_at("KC_3"@, "KC_B"@, 3);
    seq_ne_at("KC_3"@, "KC_C"@, 3);
    seq_ne_at("KC_3"@, "KC_D"@, 3);
    seq_ne_at("KC_3"@, "KC_E"@, 3);
    seq_ne_at("KC_3"@, "KC_F"@, 3);
    seq_ne_at("KC_3"@, "KC_G"@, 3);
    seq_ne_at("KC_3"@, "KC_H"@, 3);
    seq_ne_at("KC_3"@, "KC_I"@, 3);
    seq_ne_at("KC_3"@, "KC_J"@, 3);
    seq_ne_at("KC_3"@, "KC_K"@, 3);
    seq_ne_at("KC_3"@, "KC_L"@, 3);
    seq_ne_at("KC_3"@, "KC_M"@, 3);
    seq_ne_at("KC_3"@, "KC_N"@, 3);
    seq_ne_at("KC_3"@, "KC_O"@, 3);
    seq_ne_at("KC_3"@, "KC_P"@, 3);
    seq_ne_at("KC_3"@, "KC_Q"@, 3);
    seq_ne_at("KC_3"@, "KC_R"@, 3);
    seq_ne_at("KC_3"@, "KC_S"@, 3);
    seq_ne_at("KC_3"@, "KC_T"@, 3);
    seq_ne_at("KC_3"@, "KC_U"@, 3);
    seq_ne_at("KC_3"@, "KC_V"@, 3);
    seq_ne_at("KC_3"@, "KC_W"@, 3);
    seq_ne_at("KC_3"@, "KC_X"@, 3);
    seq_ne_at("KC_3"@, "KC_Y"@, 3);
    seq_ne_at("KC_3"@, "KC_Z"@, 3);
    seq_ne_at("KC_4"@, "KC_5"@, 3);
    seq_ne_at("KC_4"@, "KC_6"@, 3);
    seq_ne_at("KC_4"@, "KC_7"@, 3);
    seq_ne_at("KC_4"@, "KC_8"@, 3);
    seq_ne_at("KC_4"@, "KC_9"@, 3);
    seq_ne_at("KC_4"@, "KC_A"@, 3);
    seq_ne_at("KC_4"@, "KC_B"@, 3);
    seq_ne_at("KC_4"@, "KC_C"@, 3);
    seq_ne_at("KC_4"@, "KC_D"@, 3);
    seq_ne_at("KC_4"@, "KC_E"@, 3);
    seq_ne_at("KC_4"@, "KC_F"@, 3);
    seq_ne_at("KC_4"@, "KC_G"@, 3);
    seq_ne_at("KC_4"@, "KC_H"@, 3);
    seq_ne_at("KC_4"@, "KC_I"@, 3);
    seq_ne_at("KC_4"@, "KC_J"@, 3);
    seq_ne_at("KC_4"@, "KC_K"@, 3);
    seq_ne_at("KC_4"@, "KC_L"@, 3);
    seq_ne_at("KC_4"@, "KC_M"@, 3);
    seq_ne_at("KC_4"@, "KC_N"@, 3);
    seq_ne_at("KC_4"@, "KC_O"@, 3);
    seq_ne_at("KC_4"@, "KC_P"@, 3);
    seq_ne_at("KC_4"@, "KC_Q"@, 3);
    seq_ne_at("KC_4"@, "KC_R"@, 3);
    seq_ne_at("KC_4"@, "KC_S"@, 3);
    seq_ne_at("KC_4"@, "KC_T"@, 3);
    seq_ne_at("KC_4"@, "KC_U"@, 3);
    seq_ne_at("KC_4"@, "KC_V"@, 3);
    seq_ne_at("KC_4"@, "KC_W"@, 3);
    seq_ne_at("KC_4"@, "KC_X"@, 3);
    seq_ne_at("KC_4"@, "KC_Y"@, 3);
    seq_ne_at("KC_4"@, "KC_Z"@, 3);
    seq_ne_at("KC_5"@, "KC_6"@, 3);
    seq_ne_at("KC_5"@, "KC_7"@, 3);
    seq_ne_at("KC_5"@, "KC_8"@, 3);
    seq_ne_at("KC_5"@, "KC_9"@, 3);
    seq_ne_at("KC_5"@, "KC_A"@, 3);
    seq_ne_at("KC_5"@, "KC_B"@, 3);
    seq_ne_at("KC_5"@, "KC_C"@, 3);
    seq_ne_at("KC_5"@, "KC_D"@, 3);
    seq_ne_at("KC_5"@, "KC_E"@, 3);
    seq_ne_at("KC_5"@, "KC_F"@, 3);
    seq_ne_at("KC_5"@, "KC_G"@, 3);
    seq_ne_at("KC_5"@, "KC_H"@, 3);
    seq_ne_at("KC_5"@, "KC_I"@, 3);
    seq_ne_at("KC_5"@, "KC_J"@, 3);
    seq_ne_at("KC_5"@, "KC_K"@, 3);
    seq_ne_at("KC_5"@, "KC_L"@, 3);
    seq_ne_at("KC_5"@, "KC_M"@, 3);
    seq_ne_at("KC_5"@, "KC_N"@, 3);
    seq_ne_at("KC_5"@, "KC_O"@, 3);
    seq_ne_at("KC_5"@, "KC_P"@, 3);
    seq_ne_at("KC_5"@, "KC_Q"@, 3);
    seq_ne_at("KC_5"@, "KC_R"@, 3);
    seq_ne_at("KC_5"@, "KC_S"@, 3);
    seq_ne_at("KC_5"@, "KC_T"@, 3);
    seq_ne_at("KC_5"@, "KC_U"@, 3);
    seq_ne_at("KC_5"@, "KC_V"@, 3);
    seq_ne_at("KC_5"@, "KC_W"@, 3);
    seq_ne_at("KC_5"@, "KC_X"@, 3);
    seq_ne_at("KC_5"@, "KC_Y"@, 3);
    seq_ne_at("KC_5"@, "KC_Z"@, 3);
    seq_ne_at("KC_6"@, "KC_7"@, 3);
    seq_ne_at("KC_6"@, "KC_8"@, 3);
    seq_ne_at("KC_6"@, "KC_9"@, 3);
    seq_ne_at("KC_6"@, "KC_A"@, 3);
    seq_ne_at("KC_6"@, "KC_B"@, 3);
    seq_ne_at("KC_6"@, "KC_C"@, 3);
    seq_ne_at("KC_6"@, "KC_D"@, 3);
    seq_ne_at("KC_6"@, "KC_E"@, 3);
    seq_ne_at("KC_6"@, "KC_F"@, 3);
    seq_ne_at("KC_6"@, "KC_G"@, 3);
    seq_ne_at("KC_6"@, "KC_H"@, 3);
    seq_ne_at("KC_6"@, "KC_I"@, 3);
    seq_ne_at("KC_6"@, "KC_J"@, 3);
    seq_ne_at("KC_6"@, "KC_K"@, 3);
    seq_ne_at("KC_6"@, "KC_L"@, 3);
    seq_ne_at("KC_6"@, "KC_M"@, 3);
    seq_ne_at("KC_6"@, "KC_N"@, 3);
    seq_ne_at("KC_6"@, "KC_O"@, 3);
    seq_ne_at("KC_6"@, "KC_P"@, 3);
    seq_ne_at("KC_6"@, "KC_Q"@, 3);
    seq_ne_at("KC_6"@, "KC_R"@, 3);
    seq_ne_at("KC_6"@, "KC_S"@, 3);
    seq_ne_at("KC_6"@, "KC_T"@, 3);
    seq_ne_at("KC_6"@, "KC_U"@, 3);
    seq_ne_at("KC_6"@, "KC_V"@, 3);
    seq_ne_at("KC_6"@, "KC_W"@, 3);
    seq_ne_at("KC_6"@, "KC_X"@, 3);
    seq_ne_at("KC_6"@, "KC_Y"@, 3);
    seq_ne_at("KC_6"@, "KC_Z"@, 3);
    seq_ne_at("KC_7"@, "KC_8"@, 3);
    seq_ne_at("KC_7"@, "KC_9"@, 3);
    seq_ne_at("KC_7"@, "KC_A"@, 3);
    seq_ne_at("KC_7"@, "KC_B"@, 3);
    seq_ne_at("KC_7"@, "KC_C"@, 3);
    seq_ne_at("KC_7"@, "KC_D"@, 3);
    seq_ne_at("KC_7"@, "KC_E"@, 3);
    seq_ne_at("KC_7"@, "KC_F"@, 3);
    seq_ne_at("KC_7"@, "KC_G"@, 3);
    seq_ne_at("KC_7"@, "KC_H"@, 3);
    seq_ne_at("KC_7"@, "KC_I"@, 3);
    seq_ne_at("KC_7"@, "KC_J"@, 3);
    seq_ne_at("KC_7"@, "KC_K"@, 3);
    seq_ne_at("KC_7"@, "KC_L"@, 3);
    seq_ne_at("KC_7"@, "KC_M"@, 3);
    seq_ne_at("KC_7"@, "KC_N"@, 3);
    seq_ne_at("KC_7"@, "KC_O"@, 3);
    seq_ne_at("KC_7"@, "KC_P"@, 3);
    seq_ne_at("KC_7"@, "KC_Q"@, 3);
    seq_ne_at("KC_7"@, "KC_R"@, 3);
    seq_ne_at("KC_7"@, "KC_S"@, 3);
    seq_ne_at("KC_7"@, "KC_T"@, 3);
    seq_ne_at("KC_7"@, "KC_U"@, 3);
    seq_ne_at("KC_7"@, "KC_V"@, 3);
    seq_ne_at("KC_7"@, "KC_W"@, 3);
    seq_ne_at("KC_7"@, "KC_X"@, 3);
    seq_ne_at("KC_7"@, "KC_Y"@, 3);
    seq_ne_at("KC_7"@, "KC_Z"@, 3);
    seq_ne_at("KC_8"@, "KC_9"@, 3);
    seq_ne_at("KC_8"@, "KC_A"@, 3);
    seq_ne_at("KC_8"@, "KC_B"@, 3);
    seq_ne_at("KC_8"@, "KC_C"@, 3);
    seq_ne_at("KC_8"@, "KC_D"@, 3);
    seq_ne_at("KC_8"@, "KC_E"@, 3);
    seq_ne_at("KC_8"@, "KC_F"@, 3);
    seq_ne_at("KC_8"@, "KC_G"@, 3);
    seq_ne_at("KC_8"@, "KC_H"@, 3);
    seq_ne_at("KC_8"@, "KC_I"@, 3);
    seq_ne_at("KC_8"@, "KC_J"@, 3);
    seq_ne_at("KC_8"@, "KC_K"@, 3);
    seq_ne_at("KC_8"@, "KC_L"@, 3);
    seq_ne_at("KC_8"@, "KC_M"@, 3);
    seq_ne_at("KC_8"@, "KC_N"@, 3);
    seq_ne_at("KC_8"@, "KC_O"@, 3);
    seq_ne_at("KC_8"@, "KC_P"@, 3);
    seq_ne_at("KC_8"@, "KC_Q"@, 3);
    seq_ne_at("KC_8"@, "KC_R"@, 3);
    seq_ne_at("KC_8"@, "KC_S"@, 3);
    seq_ne_at("KC_8"@, "KC_T"@, 3);
    seq_ne_at("KC_8"@, "KC_U"@, 3);
    seq_ne_at("KC_8"@, "KC_V"@, 3);
    seq_ne_at("KC_8"@, "KC_W"@, 3);
    seq_ne_at("KC_8"@, "KC_X"@, 3);
    seq_ne_at("KC_8"@, "KC_Y"@, 3);
    seq_ne_at("KC_8"@, "KC_Z"@, 3);
    seq_ne_at("KC_9"@, "KC_A"@, 3);
    seq_ne_at("KC_9"@, "KC_B"@, 3);
    seq_ne_at("KC_9"@, "KC_C"@, 3);
    seq_ne_at("KC_9"@, "KC_D"@, 3);
    seq_ne_at("KC_9"@, "KC_E"@, 3);
    seq_ne_at("KC_9"@, "KC_F"@, 3);
    seq_ne_at("KC_9"@, "KC_G"@, 3);
    seq_ne_at("KC_9"@, "KC_H"@, 3);
    seq_ne_at("KC_9"@, "KC_I"@, 3);
    seq_ne_at("KC_9"@, "KC_J"@, 3);
    seq_ne_at("KC_9"@, "KC_K"@, 3);
    seq_ne_at("KC_9"@, "KC_L"@, 3);
    seq_ne_at("KC_9"@, "KC_M"@, 3);
    seq_ne_at("KC_9"@, "KC_N"@, 3);
    seq_ne_at("KC_9"@, "KC_O"@, 3);
    seq_ne_at("KC_9"@, "KC_P"@, 3);
    seq_ne_at("KC_9"@, "KC_Q"@, 3);
    seq_ne_at("KC_9"@, "KC_R"@, 3);
    seq_ne_at("KC_9"@, "KC_S"@, 3);
    seq_ne_at("KC_9"@, "KC_T"@, 3);
    seq_ne_at("KC_9"@, "KC_U"@, 3);
    seq_ne_at("KC_9"@, "KC_V"@, 3);
    seq_ne_at("KC_9"@, "KC_W"@, 3);
    seq_ne_at("KC_9"@, "KC_X"@, 3);
    seq_ne_at("KC_9"@, "KC_Y"@, 3);
    seq_ne_at("KC_9"@, "KC_Z"@, 3);
}

#[verifier::rlimit(100)]
#[verifier::spinoff_prover]
proof fn lemma_exact_digit_legacy(k: u16)
    requires
        names::digit_name_of(k) is Some,
    ensures
        table_id_of(names::digit_name_of(k).unwrap(), Generation::Legacy) == Some(k),
{
    reveal_strlit("KC_0");
    reveal_strlit("KC_1");
    reveal_strlit("KC_2");
    reveal_strlit("KC_3");
    reveal_strlit("KC_4");
    reveal_strlit("KC_5");
    reveal_strlit("KC_6");
    reveal_strlit("KC_7");
    reveal_strlit("KC_8");
    reveal_strlit("KC_9");
    reveal_strlit("KC_A");
    reveal_strlit("KC_B");
    reveal_strlit("KC_C");
    reveal_strlit("KC_D");
    reveal_strlit("KC_E");
    reveal_strlit("KC_F");
    reveal_strlit("KC_G");
    reveal_strlit("KC_H");
    reveal_strlit("KC_I");
    reveal_strlit("KC_J");
    reveal_strlit("KC_K");
    reveal_strlit("KC_L");
    reveal_strlit("KC_M");
    reveal_strlit("KC_N");
    reveal_strlit("KC_O");
    reveal_strlit("KC_P");
    reveal_strlit("KC_Q");
    reveal_strlit("KC_R");
    reveal_strlit("KC_S");
    reveal_strlit("KC_T");
    reveal_strlit("KC_U");
    reveal_strlit("KC_V");
    reveal_strlit("KC_W");
    reveal_strlit("KC_X");
    reveal_strlit("KC_Y");
    reveal_strlit("KC_Z");
    reveal_strlit("QK_MACRO_0");
    reveal_strlit("QK_MACRO_1");
    reveal_strlit("QK_MACRO_10");
    reveal_strlit("QK_MACRO_11");
    reveal_strlit("QK_MACRO_12");
    reveal_strlit("QK_MACRO_13");
    reveal_strlit("QK_MACRO_14");
    reveal_strlit("QK_MACRO_15");
    reveal_strlit("QK_MACRO_2");
    reveal_strlit("QK_MACRO_3");
    reveal_strlit("QK_MACRO_4");
    reveal_strlit("QK_MACRO_5");
    reveal_strlit("QK_MACRO_6");
    reveal_strlit("QK_MACRO_7");
    reveal_strlit("QK_MACRO_8");
    reveal_strlit("QK_MACRO_9");
    reveal_strlit("QK_MAGIC_TOGGLE_NKRO");
    reveal_strlit("QK_TRI_LAYER_LOWER");
    reveal_strlit("QK_TRI_LAYER_UPPER");
    assert("KC_0"@.len() == 4);
    assert("KC_1"@.len() == 4);
    assert("KC_2"@.len() == 4);
    assert("KC_3"@.len() == 4);
    assert("KC_4"@.len() == 4);
    assert("KC_5"@.len() == 4);
    assert("KC_6"@.len() == 4);
    assert("KC_7"@.len() == 4);
    assert("KC_8"@.len() == 4);
    assert("KC_9"@.len() == 4);
    assert("KC_A"@.len() == 4);
    assert("KC_B"@.len() == 4);
    assert("KC_C"@.len() == 4);
    assert("KC_D"@.len() == 4);
    assert("KC_E"@.len() == 4);
    assert("KC_F"@.len() == 4);
    assert("KC_G"@.len() == 4);
    assert("KC_H"@.len() == 4);
    assert("KC_I"@.len() == 4);
    assert("KC_J"@.len() == 4);
    assert("KC_K"@.len() == 4);
    assert("KC_L"@.len() == 4);
    assert("KC_M"@.len() == 4);
    assert("KC_N"@.len() == 4);
    assert("KC_O"@.len() == 4);
    assert("KC_P"@.len() == 4);
    assert("KC_Q"@.len() == 4);
    assert("KC_R"@.len() == 4);
    assert("KC_S"@.len() == 4);
    assert("KC_T"@.len() == 4);
    assert("KC_U"@.len() == 4);
    assert("KC_V"@.len() == 4);
    assert("KC_W"@.len() == 4);
    assert("KC_X"@.len() == 4);
    assert("KC_Y"@.len() == 4);
    assert("KC_Z"@.len() == 4);
    assert("QK_MACRO_0"@.len() == 10);
    assert("QK_MACRO_1"@.len() == 10);
    assert("QK_MACRO_10"@.len() == 11);
    assert("QK_MACRO_11"@.len() == 11);
    assert("QK_MACRO_12"@.len() == 11);
    assert("QK_MACRO_13"@.len() == 11);
    assert("QK_MACRO_14"@.len() == 11);
    assert("QK_MACRO_15"@.len() == 11);
    assert("QK_MACRO_2"@.len() == 10);
    assert("QK_MACRO_3"@.len() == 10);
    assert("QK_MACRO_4"@.len() == 10);
    assert("QK_MACRO_5"@.len() == 10);
    assert("QK_MACRO_6"@.len() == 10);
    assert("QK_MACRO_7"@.len() == 10);
    assert("QK_MACRO_8"@.len() == 10);
    assert("QK_MACRO_9"@.len() == 10);
    assert("QK_MAGIC_TOGGLE_NKRO"@.len() == 20);
    assert("QK_TRI_LAYER_LOWER"@.len() == 18);
    assert("QK_TRI_LAYER_UPPER"@.len() == 18);
    seq_ne_at("KC_0"@, "KC_1"@, 3);
    seq_ne_at("KC_0"@, "KC_2"@, 3);
    seq_ne_at("KC_0"@, "KC_3"@, 3);
    seq_ne_at("KC_0"@, "KC_4"@, 3);
    seq_ne_at("KC_0"@, "KC_5"@, 3);
    seq_ne_at("KC_0"@, "KC_6"@, 3);
    seq_ne_at("KC_0"@, "KC_7"@, 3);
    seq_ne_at("KC_0"@, "KC_8"@, 3);
    seq_ne_at("KC_0"@, "KC_9"@, 3);
    seq_ne_at("KC_0"@, "KC_A"@, 3);
    seq_ne_at("KC_0"@, "KC_B"@, 3);
    seq_ne_at("KC_0"@, "KC_C"@, 3);
    seq_ne_at("KC_0"@, "KC_D"@, 3);
    seq_ne_at("KC_0"@, "KC_E"@, 3);
    seq_ne_at("KC_0"@, "KC_F"@, 3);
    seq_ne_at("KC_0"@, "KC_G"@, 3);
    seq_ne_at("KC_0"@, "KC_H"@, 3);
    seq_ne_at("KC_0"@, "KC_I"@, 3);
    seq_ne_at("KC_0"@, "KC_J"@, 3);
    seq_ne_at("KC_0"@, "KC_K"@, 3);
    seq_ne_at("KC_0"@, "KC_L"@, 3);
    seq_ne_at("KC_0"@, "KC_M"@, 3);
    seq_ne_at("KC_0"@, "KC_N"@, 3);
    seq_ne_at("KC_0"@, "KC_O"@, 3);
    seq_ne_at("KC_0"@, "KC_P"@, 3);
    seq_ne_at("KC_0"@, "KC_Q"@, 3);
    seq_ne_at("KC_0"@, "KC_R"@, 3);
    seq_ne_at("KC_0"@, "KC_S"@, 3);
    seq_ne_at("KC_0"@, "KC_T"@, 3);
    seq_ne_at("KC_0"@, "KC_U"@, 3);
    seq_ne_at("KC_0"@, "KC_V"@, 3);
    seq_ne_at("KC_0"@, "KC_W"@, 3);
    seq_ne_at("KC_0"@, "KC_X"@, 3);
    seq_ne_at("KC_0"@, "KC_Y"@, 3);
    seq_ne_at("KC_0"@, "KC_Z"@, 3);
    seq_ne_at("KC_1"@, "KC_2"@, 3);
    seq_ne_at("KC_1"@, "KC_3"@, 3);
    seq_ne_at("KC_1"@, "KC_4"@, 3);
    seq_ne_at("KC_1"@, "KC_5"@, 3);
    seq_ne_at("KC_1"@, "KC_6"@, 3);
    seq_ne_at("KC_1"@, "KC_7"@, 3);
    seq_ne_at("KC_1"@, "KC_8"@, 3);
    seq_ne_at("KC_1"@, "KC_9"@, 3);
    seq_ne_at("KC_1"@, "KC_A"@, 3);
    seq_ne_at("KC_1"@, "KC_B"@, 3);
    seq_ne_at("KC_1"@, "KC_C"@, 3);
    seq_ne_at("KC_1"@, "KC_D"@, 3);
    seq_ne_at("KC_1"@, "KC_E"@, 3);
    seq_ne_at("KC_1"@, "KC_F"@, 3);
    seq_ne_at("KC_1"@, "KC_G"@, 3);
    seq_ne_at("KC_1"@, "KC_H"@, 3);
    seq_ne_at("KC_1"@, "KC_I"@, 3);
    seq_ne_at("KC_1"@, "KC_J"@, 3);
    seq_ne_at("KC_1"@, "KC_K"@, 3);
    seq_ne_at("KC_1"@, "KC_L"@, 3);
    seq_ne_at("KC_1"@, "KC_M"@, 3);
    seq_ne_at("KC_1"@, "KC_N"@, 3);
    seq_ne_at("KC_1"@, "KC_O"@, 3);
    seq_ne_at("KC_1"@, "KC_P"@, 3);
    seq_ne_at("KC_1"@, "KC_Q"@, 3);
    seq_ne_at("KC_1"@, "KC_R"@, 3);
    seq_ne_at("KC_1"@, "KC_S"@, 3);
    seq_ne_at("KC_1"@, "KC_T"@, 3);
    seq_ne_at("KC_1"@, "KC_U"@, 3);
    seq_ne_at("KC_1"@, "KC_V"@, 3);
    seq_ne_at("KC_1"@, "KC_W"@, 3);
    seq_ne_at("KC_1"@, "KC_X"@, 3);
    seq_ne_at("KC_1"@, "KC_Y"@, 3);
    seq_ne_at("KC_1"@, "KC_Z"@, 3);
    seq_ne_at("KC_2"@, "KC_3"@, 3);
    seq_ne_at("KC_2"@, "KC_4"@, 3);
    seq_ne_at("KC_2"@, "KC_5"@, 3);
    seq_ne_at("KC_2"@, "KC_6"@, 3);
    seq_ne_at("KC_2"@, "KC_7"@, 3);
    seq_ne_at("KC_2"@, "KC_8"@, 3);
    seq_ne_at("KC_2"@, "KC_9"@, 3);
    seq_ne_at("KC_2"@, "KC_A"@, 3);
    seq_ne_at("KC_2"@, "KC_B"@, 3);
    seq_ne_at("KC_2"@, "KC_C"@, 3);
    seq_ne_at("KC_2"@, "KC_D"@, 3);
    seq_ne_at("KC_2"@, "KC_E"@, 3);
    seq_ne_at("KC_2"@, "KC_F"@, 3);
    seq_ne_at("KC_2"@, "KC_G"@, 3);
    seq_ne_at("KC_2"@, "KC_H"@, 3);
    seq_ne_at("KC_2"@, "KC_I"@, 3);
    seq_ne_at("KC_2"@, "KC_J"@, 3);
    seq_ne_at("KC_2"@, "KC_K"@, 3);
    seq_ne_at("KC_2"@, "KC_L"@, 3);
    seq_ne_at("KC_2"@, "KC_M"@, 3);
    seq_ne_at("KC_2"@, "KC_N"@, 3);
    seq_ne_at("KC_2"@, "KC_O"@, 3);
    seq_ne_at("KC_2"@, "KC_P"@, 3);
    seq_ne_at("KC_2"@, "KC_Q"@, 3);
    seq_ne_at("KC_2"@, "KC_R"@, 3);
    seq_ne_at("KC_2"@, "KC_S"@, 3);
    seq_ne_at("KC_2"@, "KC_T"@, 3);
    seq_ne_at("KC_2"@, "KC_U"@, 3);
    seq_ne_at("KC_2"@, "KC_V"@, 3);
    seq_ne_at("KC_2"@, "KC_W"@, 3);
    seq_ne_at("KC_2"@, "KC_X"@, 3);
    seq_ne_at("KC_2"@, "KC_Y"@, 3);
    seq_ne_at("KC_2"@, "KC_Z"@, 3);
    seq_ne_at("KC_3"@, "KC_4"@, 3);
    seq_ne_at("KC_3"@, "KC_5"@, 3);
    seq_ne_at("KC_3"@, "KC_6"@, 3);
    seq_ne_at("KC_3"@, "KC_7"@, 3);
    seq_ne_at("KC_3"@, "KC_8"@, 3);
    seq_ne_at("KC_3"@, "KC_9"@, 3);
    seq_ne_at("KC_3"@, "KC_A"@, 3);
    seq_ne_at("KC_3"@, "KC_B"@, 3);
    seq_ne_at("KC_3"@, "KC_C"@, 3);
    seq_ne_at("KC_3"@, "KC_D"@, 3);
    seq_ne_at("KC_3"@, "KC_E"@, 3);
    seq_ne_at("KC_3"@, "KC_F"@, 3);
    seq_ne_at("KC_3"@, "KC_G"@, 3);
    seq_ne_at("KC_3"@, "KC_H"@, 3);
    seq_ne_at("KC_3"@, "KC_I"@, 3);
    seq_ne_at("KC_3"@, "KC_J"@, 3);
    seq_ne_at("KC_3"@, "KC_K"@, 3);
    seq_ne_at("KC_3"@, "KC_L"@, 3);
    seq_ne_at("KC_3"@, "KC_M"@, 3);
    seq_ne_at("KC_3"@, "KC_N"@, 3);
    seq_ne_at("KC_3"@, "KC_O"@, 3);
    seq_ne_at("KC_3"@, "KC_P"@, 3);
    seq_ne_at("KC_3"@, "KC_Q"@, 3);
    seq_ne_at("KC_3"@, "KC_R"@, 3);
    seq_ne_at("KC_3"@, "KC_S"@, 3);
    seq_ne_at("KC_3"@, "KC_T"@, 3);
    seq_ne_at("KC_3"@, "KC_U"@, 3);
    seq_ne_at("KC_3"@, "KC_V"@, 3);
    seq_ne_at("KC_3"@, "KC_W"@, 3);
    seq_ne_at("KC_3"@, "KC_X"@, 3);
    seq_ne_at("KC_3"@, "KC_Y"@, 3);
    seq_ne_at("KC_3"@, "KC_Z"@, 3);
    seq_ne_at("KC_4"@, "KC_5"@, 3);
    seq_ne_at("KC_4"@, "KC_6"@, 3);
    seq_ne_at("KC_4"@, "KC_7"@, 3);
    seq_ne_at("KC_4"@, "KC_8"@, 3);
    seq_ne_at("KC_4"@, "KC_9"@, 3);
    seq_ne_at("KC_4"@, "KC_A"@, 3);
    seq_ne_at("KC_4"@, "KC_B"@, 3);
    seq_ne_at("KC_4"@, "KC_C"@, 3);
    seq_ne_at("KC_4"@, "KC_D"@, 3);
    seq_ne_at("KC_4"@, "KC_E"@, 3);
    seq_ne_at("KC_4"@, "KC_F"@, 3);
    seq_ne_at("KC_4"@, "KC_G"@, 3);
    seq_ne_at("KC_4"@, "KC_H"@, 3);
    seq_ne_at("KC_4"@, "KC_I"@, 3);
    seq_ne_at("KC_4"@, "KC_J"@, 3);
    seq_ne_at("KC_4"@, "KC_K"@, 3);
    seq_ne_at("KC_4"@, "KC_L"@, 3);
    seq_ne_at("KC_4"@, "KC_M"@, 3);
    seq_ne_at("KC_4"@, "KC_N"@, 3);
    seq_ne_at("KC_4"@, "KC_O"@, 3);
    seq_ne_at("KC_4"@, "KC_P"@, 3);
    seq_ne_at("KC_4"@, "KC_Q"@, 3);
    seq_ne_at("KC_4"@, "KC_R"@, 3);
    seq_ne_at("KC_4"@, "KC_S"@, 3);
    seq_ne_at("KC_4"@, "KC_T"@, 3);
    seq_ne_at("KC_4"@, "KC_U"@, 3);
    seq_ne_at("KC_4"@, "KC_V"@, 3);
    seq_ne_at("KC_4"@, "KC_W"@, 3);
    seq_ne_at("KC_4"@, "KC_X"@, 3);
    seq_ne_at("KC_4"@, "KC_Y"@, 3);
    seq_ne_at("KC_4"@, "KC_Z"@, 3);
    seq_ne_at("KC_5"@, "KC_6"@, 3);
    seq_ne_at("KC_5"@, "KC_7"@, 3);
    seq_ne_at("KC_5"@, "KC_8"@, 3);
    seq_ne_at("KC_5"@, "KC_9"@, 3);
    seq_ne_at("KC_5"@, "KC_A"@, 3);
    seq_ne_at("KC_5"@, "KC_B"@, 3);
    seq_ne_at("KC_5"@, "KC_C"@, 3);
    seq_ne_at("KC_5"@, "KC_D"@, 3);
    seq_ne_at("KC_5"@, "KC_E"@, 3);
    seq_ne_at("KC_5"@, "KC_F"@, 3);
    seq_ne_at("KC_5"@, "KC_G"@, 3);
    seq_ne_at("KC_5"@, "KC_H"@, 3);
    seq_ne_at("KC_5"@, "KC_I"@, 3);
    seq_ne_at("KC_5"@, "KC_J"@, 3);
    seq_ne_at("KC_5"@, "KC_K"@, 3);
    seq_ne_at("KC_5"@, "KC_L"@, 3);
    seq_ne_at("KC_5"@, "KC_M"@, 3);
    seq_ne_at("KC_5"@, "KC_N"@, 3);
    seq_ne_at("KC_5"@, "KC_O"@, 3);
    seq_ne_at("KC_5"@, "KC_P"@, 3);
    seq_ne_at("KC_5"@, "KC_Q"@, 3);
    seq_ne_at("KC_5"@, "KC_R"@, 3);
    seq_ne_at("KC_5"@, "KC_S"@, 3);
    seq_ne_at("KC_5"@, "KC_T"@, 3);
    seq_ne_at("KC_5"@, "KC_U"@, 3);
    seq_ne_at("KC_5"@, "KC_V"@, 3);
    seq_ne_at("KC_5"@, "KC_W"@, 3);
    seq_ne_at("KC_5"@, "KC_X"@, 3);
    seq_ne_at("KC_5"@, "KC_Y"@, 3);
    seq_ne_at("KC_5"@, "KC_Z"@, 3);
    seq_ne_at("KC_6"@, "KC_7"@, 3);
    seq_ne_at("KC_6"@, "KC_8"@, 3);
    seq_ne_at("KC_6"@, "KC_9"@, 3);
    seq_ne_at("KC_6"@, "KC_A"@, 3);
    seq_ne_at("KC_6"@, "KC_B"@, 3);
    seq_ne_at("KC_6"@, "KC_C"@, 3);
    seq_ne_at("KC_6"@, "KC_D"@, 3);
    seq_ne_at("KC_6"@, "KC_E"@, 3);
    seq_ne_at("KC_6"@, "KC_F"@, 3);
    seq_ne_at("KC_6"@, "KC_G"@, 3);
    seq_ne_at("KC_6"@, "KC_H"@, 3);
    seq_ne_at("KC_6"@, "KC_I"@, 3);
    seq_ne_at("KC_6"@, "KC_J"@, 3);
    seq_ne_at("KC_6"@, "KC_K"@, 3);
    seq_ne_at("KC_6"@, "KC_L"@, 3);
    seq_ne_at("KC_6"@, "KC_M"@, 3);
    seq_ne_at("KC_6"@, "KC_N"@, 3);
    seq_ne_at("KC_6"@, "KC_O"@, 3);
    seq_ne_at("KC_6"@, "KC_P"@, 3);
    seq_ne_at("KC_6"@, "KC_Q"@, 3);
    seq_ne_at("KC_6"@, "KC_R"@, 3);
    seq_ne_at("KC_6"@, "KC_S"@, 3);
    seq_ne_at("KC_6"@, "KC_T"@, 3);
    seq_ne_at("KC_6"@, "KC_U"@, 3);
    seq_ne_at("KC_6"@, "KC_V"@, 3);
    seq_ne_at("KC_6"@, "KC_W"@, 3);
    seq_ne_at("KC_6"@, "KC_X"@, 3);
    seq_ne_at("KC_6"@, "KC_Y"@, 3);
    seq_ne_at("KC_6"@, "KC_Z"@, 3);
    seq_ne_at("KC_7"@, "KC_8"@, 3);
    seq_ne_at("KC_7"@, "KC_9"@, 3);
    seq_ne_at("KC_7"@, "KC_A"@, 3);
    seq_ne_at("KC_7"@, "KC_B"@, 3);
    seq_ne_at("KC_7"@, "KC_C"@, 3);
    seq_ne_at("KC_7"@, "KC_D"@, 3);
    seq_ne_at("KC_7"@, "KC_E"@, 3);
    seq_ne_at("KC_7"@, "KC_F"@, 3);
    seq_ne_at("KC_7"@, "KC_G"@, 3);
    seq_ne_at("KC_7"@, "KC_H"@, 3);
    seq_ne_at("KC_7"@, "KC_I"@, 3);
    seq_ne_at("KC_7"@, "KC_J"@, 3);
    seq_ne_at("KC_7"@, "KC_K"@, 3);
    seq_ne_at("KC_7"@, "KC_L"@, 3);
    seq_ne_at("KC_7"@, "KC_M"@, 3);
    seq_ne_at("KC_7"@, "KC_N"@, 3);
    seq_ne_at("KC_7"@, "KC_O"@, 3);
    seq_ne_at("KC_7"@, "KC_P"@, 3);
    seq_ne_at("KC_7"@, "KC_Q"@, 3);
    seq_ne_at("KC_7"@, "KC_R"@, 3);
    seq_ne_at("KC_7"@, "KC_S"@, 3);
    seq_ne_at("KC_7"@, "KC_T"@, 3);
    seq_ne_at("KC_7"@, "KC_U"@, 3);
    seq_ne_at("KC_7"@, "KC_V"@, 3);
    seq_ne_at("KC_7"@, "KC_W"@, 3);
    seq_ne_at("KC_7"@, "KC_X"@, 3);
    seq_ne_at("KC_7"@, "KC_Y"@, 3);
    seq_ne_at("KC_7"@, "KC_Z"@, 3);
    seq_ne_at("KC_8"@, "KC_9"@, 3);
    seq_ne_at("KC_8"@, "KC_A"@, 3);
    seq_ne_at("KC_8"@, "KC_B"@, 3);
    seq_ne_at("KC_8"@, "KC_C"@, 3);
    seq_ne_at("KC_8"@, "KC_D"@, 3);
    seq_ne_at("KC_8"@, "KC_E"@, 3);
    seq_ne_at("KC_8"@, "KC_F"@, 3);
    seq_ne_at("KC_8"@, "KC_G"@, 3);
    seq_ne_at("KC_8"@, "KC_H"@, 3);
    seq_ne_at("KC_8"@, "KC_I"@, 3);
    seq_ne_at("KC_8"@, "KC_J"@, 3);
    seq_ne_at("KC_8"@, "KC_K"@, 3);
    seq_ne_at("KC_8"@, "KC_L"@, 3);
    seq_ne_at("KC_8"@, "KC_M"@, 3);
    seq_ne_at("KC_8"@, "KC_N"@, 3);
    seq_ne_at("KC_8"@, "KC_O"@, 3);
    seq_ne_at("KC_8"@, "KC_P"@, 3);
    seq_ne_at("KC_8"@, "KC_Q"@, 3);
    seq_ne_at("KC_8"@, "KC_R"@, 3);
    seq_ne_at("KC_8"@, "KC_S"@, 3);
    seq_ne_at("KC_8"@, "KC_T"@, 3);
    seq_ne_at("KC_8"@, "KC_U"@, 3);
    seq_ne_at("KC_8"@, "KC_V"@, 3);
    seq_ne_at("KC_8"@, "KC_W"@, 3);
    seq_ne_at("KC_8"@, "KC_X"@, 3);
    seq_ne_at("KC_8"@, "KC_Y"@, 3);
    seq_ne_at("KC_8"@, "KC_Z"@, 3);
    seq_ne_at("KC_9"@, "KC_A"@, 3);
    seq_ne_at("KC_9"@, "KC_B"@, 3);
    seq_ne_at("KC_9"@, "KC_C"@, 3);
    seq_ne_at("KC_9"@, "KC_D"@, 3);
    seq_ne_at("KC_9"@, "KC_E"@, 3);
    seq_ne_at("KC_9"@, "KC_F"@, 3);
    seq_ne_at("KC_9"@, "KC_G"@, 3);
    seq_ne_at("KC_9"@, "KC_H"@, 3);
    seq_ne_at("KC_9"@, "KC_I"@, 3);
    seq_ne_at("KC_9"@, "KC_J"@, 3);
    seq_ne_at("KC_9"@, "KC_K"@, 3);
    seq_ne_at("KC_9"@, "KC_L"@, 3);
    seq_ne_at("KC_9"@, "KC_M"@, 3);
    seq_ne_at("KC_9"@, "KC_N"@, 3);
    seq_ne_at("KC_9"@, "KC_O"@, 3);
    seq_ne_at("KC_9"@, "KC_P"@, 3);
    seq_ne_at("KC_9"@, "KC_Q"@, 3);
    seq_ne_at("KC_9"@, "KC_R"@, 3);
    seq_ne_at("KC_9"@, "KC_S"@, 3);
    seq_ne_at("KC_9"@, "KC_T"@, 3);
    seq_ne_at("KC_9"@, "KC_U"@, 3);
    seq_ne_at("KC_9"@, "KC_V"@, 3);
    seq_ne_at("KC_9"@, "KC_W"@, 3);
    seq_ne_at("KC_9"@, "KC_X"@, 3);
    seq_ne_at("KC_9"@, "KC_Y"@, 3);
    seq_ne_at("KC_9"@, "KC_Z"@, 3);
}

#[verifier::rlimit(100)]
#[verifier::spinoff_prover]
proof fn lemma_exact_named_current(k: u16)
    requires
        names::named_name_of(k) is Some,
    ensures
        table_id_of(names::named_name_of(k).unwrap(), Generation::Current) == Some(k),
{
    reveal_strlit("KC_0");
    reveal_strlit("KC_1");
    reveal_strlit("KC_2");
    reveal_strlit("KC_3");
    reveal_strlit("KC_4");
    reveal_strlit("KC_5");
    reveal_strlit("KC_6");
    reveal_strlit("KC_7");
    reveal_strlit("KC_8");
    reveal_strlit("KC_9");
    reveal_strlit("KC_A");
    reveal_strlit("KC_B");
    reveal_strlit("KC_BACKSLASH");
    reveal_strlit("KC_BACKSPACE");
    reveal_strlit("KC_C");
    reveal_strlit("KC_CAPS_LOCK");
    reveal_strlit("KC_COMMA");
    reveal_strlit("KC_D");
    reveal_strlit("KC_DELETE");
    reveal_strlit("KC_DOT");
    reveal_strlit("KC_DOWN");
    reveal_strlit("KC_E");
    reveal_strlit("KC_END");
    reveal_strlit("KC_ENTER");
    reveal_strlit("KC_EQUAL");
    reveal_strlit("KC_ESCAPE");
    reveal_strlit("KC_F");
    reveal_strlit("KC_G");
    reveal_strlit("KC_GRAVE");
    reveal_strlit("KC_H");
    reveal_strlit("KC_HOME");
    reveal_strlit("KC_I");
    reveal_strlit("KC_INSERT");
    reveal_strlit("KC_J");
    reveal_strlit("KC_K");
    reveal_strlit("KC_L");
    reveal_strlit("KC_LEFT");
    reveal_strlit("KC_LEFT_BRACKET");
    reveal_strlit("KC_M");
    reveal_strlit("KC_MINUS");
    reveal_strlit("KC_N");
    reveal_strlit("KC_NO");
    reveal_strlit("KC_O");
    reveal_strlit("KC_P");
    reveal_strlit("KC_PAGE_DOWN");
    reveal_strlit("KC_PAGE_UP");
    reveal_strlit("KC_Q");
    reveal_strlit("KC_QUOTE");
    reveal_strlit("KC_R");
    reveal_strlit("KC_RIGHT");
    reveal_strlit("KC_RIGHT_BRACKET");
    reveal_strlit("KC_S");
    reveal_strlit("KC_SEMICOLON");
    reveal_strlit("KC_SLASH");
    reveal_strlit("KC_SPACE");
    reveal_strlit("KC_T");
    reveal_strlit("KC_TAB");
    reveal_strlit("KC_TRNS");
    reveal_strlit("KC_U");
    reveal_strlit("KC_UP");
    reveal_strlit("KC_V");
    reveal_strlit("KC_W");
    reveal_strlit("KC_X");
    reveal_strlit("KC_Y");
    reveal_strlit("KC_Z");
    reveal_strlit("QK_MACRO_0");
    reveal_strlit("QK_MACRO_1");
    reveal_strlit("QK_MACRO_10");
    reveal_strlit("QK_MACRO_11");
    reveal_strlit("QK_MACRO_12");
    reveal_strlit("QK_MACRO_13");
    reveal_strlit("QK_MACRO_14");
    reveal_strlit("QK_MACRO_15");
    reveal_strlit("QK_MACRO_2");
    reveal_strlit("QK_MACRO_3");
    reveal_strlit("QK_MACRO_4");
    reveal_strlit("QK_MACRO_5");
    reveal_strlit("QK_MACRO_6");
    reveal_strlit("QK_MACRO_7");
    reveal_strlit("QK_MACRO_8");
    reveal_strlit("QK_MACRO_9");
    reveal_strlit("QK_MAGIC_TOGGLE_NKRO");
    reveal_strlit("QK_TRI_LAYER_LOWER");
    reveal_strlit("QK_TRI_LAYER_UPPER");
    assert("KC_0"@.len() == 4);
    assert("KC_1"@.len() == 4);
    assert("KC_2"@.len() == 4);
    assert("KC_3"@.len() == 4);
    assert("KC_4"@.len() == 4);
    assert("KC_5"@.len() == 4);
    assert("KC_6"@.len() == 4);
    assert("KC_7"@.len() == 4);
    assert("KC_8"@.len() == 4);
    assert("KC_9"@.len() == 4);
    assert("KC_A"@.len() == 4);
    assert("KC_B"@.len() == 4);
    assert("KC_BACKSLASH"@.len() == 12);
    assert("KC_BACKSPACE"@.len() == 12);
    assert("KC_C"@.len() == 4);
    assert("KC_CAPS_LOCK"@.len() == 12);
    assert("KC_COMMA"@.len() == 8);
    assert("KC_D"@.len() == 4);
    assert("KC_DELETE"@.len() == 9);
    assert("KC_DOT"@.len() == 6);
    assert("KC_DOWN"@.len() == 7);
    assert("KC_E"@.len() == 4);
    assert("KC_END"@.len() == 6);
    assert("KC_ENTER"@.len() == 8);
    assert("KC_EQUAL"@.len() == 8);
    assert("KC_ESCAPE"@.len() == 9);
    assert("KC_F"@.len() == 4);
    assert("KC_G"@.len() == 4);
    assert("KC_GRAVE"@.len() == 8);
    assert("KC_H"@.len() == 4);
    assert("KC_HOME"@.len() == 7);
    assert("KC_I"@.len() == 4);
    assert("KC_INSERT"@.len() == 9);
    assert("KC_J"@.len() == 4);
    assert("KC_K"@.len() == 4);
    assert("KC_L"@.len() == 4);
    assert("KC_LEFT"@.len() == 7);
    assert("KC_LEFT_BRACKET"@.len() == 15);
    assert("KC_M"@.len() == 4);
    assert("KC_MINUS"@.len() == 8);
    assert("KC_N"@.len() == 4);
    assert("KC_NO"@.len() == 5);
    assert("KC_O"@.len() == 4);
    assert("KC_P"@.len() == 4);
    assert("KC_PAGE_DOWN"@.len() == 12);
    assert("KC_PAGE_UP"@.len() == 10);
    assert("KC_Q"@.len() == 4);
    assert("KC_QUOTE"@.len() == 8);
    assert("KC_R"@.len() == 4);
    assert("KC_RIGHT"@.len() == 8);
    assert("KC_RIGHT_BRACKET"@.len() == 16);
    assert("KC_S"@.len() == 4);
    assert("KC_SEMICOLON"@.len() == 12);
    assert("KC_SLASH"@.len() == 8);
    assert("KC_SPACE"@.len() == 8);
    assert("KC_T"@.len() == 4);
    assert("KC_TAB"@.len() == 6);
    assert("KC_TRNS"@.len() == 7);
    assert("KC_U"@.len() == 4);
    assert("KC_UP"@.len() == 5);
    assert("KC_V"@.len() == 4);
    assert("KC_W"@.len() == 4);
    assert("KC_X"@.len() == 4);
    assert("KC_Y"@.len() == 4);
    assert("KC_Z"@.len() == 4);
    assert("QK_MACRO_0"@.len() == 10);
    assert("QK_MACRO_1"@.len() == 10);
    assert("QK_MACRO_10"@.len() == 11);
    assert("QK_MACRO_11"@.len() == 11);
    assert("QK_MACRO_12"@.len() == 11);
    assert("QK_MACRO_13"@.len() == 11);
    assert("QK_MACRO_14"@.len() == 11);
    assert("QK_MACRO_15"@.len() == 11);
    assert("QK_MACRO_2"@.len() == 10);
    assert("QK_MACRO_3"@.len() == 10);
    assert("QK_MACRO_4"@.len() == 10);
    assert("QK_MACRO_5"@.len() == 10);
    assert("QK_MACRO_6"@.len() == 10);
    assert("QK_MACRO_7"@.len() == 10);
    assert("QK_MACRO_8"@.len() == 10);
    assert("QK_MACRO_9"@.len() == 10);
    assert("QK_MAGIC_TOGGLE_NKRO"@.len() == 20);
    assert("QK_TRI_LAYER_LOWER"@.len() == 18);
    assert("QK_TRI_LAYER_UPPER"@.len() == 18);
    seq_ne_at("KC_BACKSLASH"@, "KC_BACKSPACE"@, 8);
    seq_ne_at("KC_BACKSLASH"@, "KC_CAPS_LOCK"@, 3);
    seq_ne_at("KC_BACKSLASH"@, "KC_PAGE_DOWN"@, 3);
    seq_ne_at("KC_BACKSLASH"@, "KC_SEMICOLON"@, 3);
    seq_ne_at("KC_BACKSPACE"@, "KC_CAPS_LOCK"@, 3);
    seq_ne_at("KC_BACKSPACE"@, "KC_PAGE_DOWN"@, 3);
    seq_ne_at("KC_BACKSPACE"@, "KC_SEMICOLON"@, 3);
    seq_ne_at("KC_CAPS_LOCK"@, "KC_PAGE_DOWN"@, 3);
    seq_ne_at("KC_CAPS_LOCK"@, "KC_SEMICOLON"@, 3);
    seq_ne_at("KC_COMMA"@, "KC_ENTER"@, 3);
    seq_ne_at("KC_COMMA"@, "KC_EQUAL"@, 3);
    seq_ne_at("KC_COMMA"@, "KC_GRAVE"@, 3);
    seq_ne_at("KC_COMMA"@, "KC_MINUS"@, 3);
    seq_ne_at("KC_COMMA"@, "KC_QUOTE"@, 3);
    seq_ne_at("KC_COMMA"@, "KC_RIGHT"@, 3);
    seq_ne_at("KC_COMMA"@, "KC_SLASH"@, 3);
    seq_ne_at("KC_COMMA"@, "KC_SPACE"@, 3);
    seq_ne_at("KC_DELETE"@, "KC_ESCAPE"@, 3);
    seq_ne_at("KC_DELETE"@, "KC_INSERT"@, 3);
    seq_ne_at("KC_DOT"@, "KC_END"@, 3);
    seq_ne_at("KC_DOT"@, "KC_TAB"@, 3);
    seq_ne_at("KC_DOWN"@, "KC_HOME"@, 3);
    seq_ne_at("KC_DOWN"@, "KC_LEFT"@, 3);
    seq_ne_at("KC_DOWN"@, "KC_TRNS"@, 3);
    seq_ne_at("KC_END"@, "KC_TAB"@, 3);
    seq_ne_at("KC_ENTER"@, "KC_EQUAL"@, 4);
    seq_ne_at("KC_ENTER"@, "KC_GRAVE"@, 3);
    seq_ne_at("KC_ENTER"@, "KC_MINUS"@, 3);
    seq_ne_at("KC_ENTER"@, "KC_QUOTE"@, 3);
    seq_ne_at("KC_ENTER"@, "KC_RIGHT"@, 3);
    seq_ne_at("KC_ENTER"@, "KC_SLASH"@, 3);
    seq_ne_at("KC_ENTER"@, "KC_SPACE"@, 3);
    seq_ne_at("KC_EQUAL"@, "KC_GRAVE"@, 3);
    seq_ne_at("KC_EQUAL"@, "KC_MINUS"@, 3);
    seq_ne_at("KC_EQUAL"@, "KC_QUOTE"@, 3);
    seq_ne_at("KC_EQUAL"@, "KC_RIGHT"@, 3);
    seq_ne_at("KC_EQUAL"@, "KC_SLASH"@, 3);
    seq_ne_at("KC_EQUAL"@, "KC_SPACE"@, 3);
    seq_ne_at("KC_ESCAPE"@, "KC_INSERT"@, 3);
    seq_ne_at("KC_GRAVE"@, "KC_MINUS"@, 3);
    seq_ne_at("KC_GRAVE"@, "KC_QUOTE"@, 3);
    seq_ne_at("KC_GRAVE"@, "KC_RIGHT"@, 3);
    seq_ne_at("KC_GRAVE"@, "KC_SLASH"@, 3);
    seq_ne_at("KC_GRAVE"@, "KC_SPACE"@, 3);
    seq_ne_at("KC_HOME"@, "KC_LEFT"@, 3);
    seq_ne_at("KC_HOME"@, "KC_TRNS"@, 3);
    seq_ne_at("KC_LEFT"@, "KC_TRNS"@, 3);
    seq_ne_at("KC_MINUS"@, "KC_QUOTE"@, 3);
    seq_ne_at("KC_MINUS"@, "KC_RIGHT"@, 3);
    seq_ne_at("KC_MINUS"@, "KC_SLASH"@, 3);
    seq_ne_at("KC_MINUS"@, "KC_SPACE"@, 3);
    seq_ne_at("KC_NO"@, "KC_UP"@, 3);
    seq_ne_at("KC_PAGE_DOWN"@, "KC_SEMICOLON"@, 3);
    seq_ne_at("KC_PAGE_UP"@, "QK_MACRO_0"@, 0);
    seq_ne_at("KC_PAGE_UP"@, "QK_MACRO_1"@, 0);
    seq_ne_at("KC_PAGE_UP"@, "QK_MACRO_2"@, 0);
    seq_ne_at("KC_PAGE_UP"@, "QK_MACRO_3"@, 0);
    seq_ne_at("KC_PAGE_UP"@, "QK_MACRO_4"@, 0);
    seq_ne_at("KC_PAGE_UP"@, "QK_MACRO_5"@, 0);
    seq_ne_at("KC_PAGE_UP"@, "QK_MACRO_6"@, 0);
    seq_ne_at("KC_PAGE_UP"@, "QK_MACRO_7"@, 0);
    seq_ne_at("KC_PAGE_UP"@, "QK_MACRO_8"@, 0);
    seq_ne_at("KC_PAGE_UP"@, "QK_MACRO_9"@, 0);
    seq_ne_at("KC_QUOTE"@, "KC_RIGHT"@, 3);
    seq_ne_at("KC_QUOTE"@, "KC_SLASH"@, 3);
    seq_ne_at("KC_QUOTE"@, "KC_SPACE"@, 3);
    seq_ne_at("KC_RIGHT"@, "KC_SLASH"@, 3);
    seq_ne_at("KC_RIGHT"@, "KC_SPACE"@, 3);
    seq_ne_at("KC_SLASH"@, "KC_SPACE"@, 4);
}

#[verifier::rlimit(100)]
#[verifier::spinoff_prover]
proof fn lemma_exact_named_legacy(k: u16)
    requires
        names::named_name_of(k) is Some,
    ensures
        table_id_of(names::named_name_of(k).unwrap(), Generation::Legacy) == Some(k),
{
    reveal_strlit("KC_0");
    reveal_strlit("KC_1");
    reveal_strlit("KC_2");
    reveal_strlit("KC_3");
    reveal_strlit("KC_4");
    reveal_strlit("KC_5");
    reveal_strlit("KC_6");
    reveal_strlit("KC_7");
    reveal_strlit("KC_8");
    reveal_strlit("KC_9");
    reveal_strlit("KC_A");
    reveal_strlit("KC_B");
    reveal_strlit("KC_BACKSLASH");
    reveal_strlit("KC_BACKSPACE");
    reveal_strlit("KC_C");
    reveal_strlit("KC_CAPS_LOCK");
    reveal_strlit("KC_COMMA");
    reveal_strlit("KC_D");
    reveal_strlit("KC_DELETE");
    reveal_strlit("KC_DOT");
    reveal_strlit("KC_DOWN");
    reveal_strlit("KC_E");
    reveal_strlit("KC_END");
    reveal_strlit("KC_ENTER");
    reveal_strlit("KC_EQUAL");
    reveal_strlit("KC_ESCAPE");
    reveal_strlit("KC_F");
    reveal_strlit("KC_G");
    reveal_strlit("KC_GRAVE");
    reveal_strlit("KC_H");
    reveal_strlit("KC_HOME");
    reveal_strlit("KC_I");
    reveal_strlit("KC_INSERT");
    reveal_strlit("KC_J");
    reveal_strlit("KC_K");
    reveal_strlit("KC_L");
    reveal_strlit("KC_LEFT");
    reveal_strlit("KC_LEFT_BRACKET");
    reveal_strlit("KC_M");
    reveal_strlit("KC_MINUS");
    reveal_strlit("KC_N");
    reveal_strlit("KC_NO");
    reveal_strlit("KC_O");
    reveal_strlit("KC_P");
    reveal_strlit("KC_PAGE_DOWN");
    reveal_strlit("KC_PAGE_UP");
    reveal_strlit("KC_Q");
    reveal_strlit("KC_QUOTE");
    reveal_strlit("KC_R");
    reveal_strlit("KC_RIGHT");
    reveal_strlit("KC_RIGHT_BRACKET");
    reveal_strlit("KC_S");
    reveal_strlit("KC_SEMICOLON");
    reveal_strlit("KC_SLASH");
    reveal_strlit("KC_SPACE");
    reveal_strlit("KC_T");
    reveal_strlit("KC_TAB");
    reveal_strlit("KC_TRNS");
    reveal_strlit("KC_U");
    reveal_strlit("KC_UP");
    reveal_strlit("KC_V");
    reveal_strlit("KC_W");
    reveal_strlit("KC_X");
    reveal_strlit("KC_Y");
    reveal_strlit("KC_Z");
    reveal_strlit("QK_MACRO_0");
    reveal_strlit("QK_MACRO_1");
    reveal_strlit("QK_MACRO_10");
    reveal_strlit("QK_MACRO_11");
    reveal_strlit("QK_MACRO_12");
    reveal_strlit("QK_MACRO_13");
    reveal_strlit("QK_MACRO_14");
    reveal_strlit("QK_MACRO_15");
    reveal_strlit("QK_MACRO_2");
    reveal_strlit("QK_MACRO_3");
    reveal_strlit("QK_MACRO_4");
    reveal_strlit("QK_MACRO_5");
    reveal_strlit("QK_MACRO_6");
    reveal_strlit("QK_MACRO_7");
    reveal_strlit("QK_MACRO_8");
    reveal_strlit("QK_MACRO_9");
    reveal_strlit("QK_MAGIC_TOGGLE_NKRO");
    reveal_strlit("QK_TRI_LAYER_LOWER");
    reveal_strlit("QK_TRI_LAYER_UPPER");
    assert("KC_0"@.len() == 4);
    assert("KC_1"@.len() == 4);
    assert("KC_2"@.len() == 4);
    assert("KC_3"@.len() == 4);
    assert("KC_4"@.len() == 4);
    assert("KC_5"@.len() == 4);
    assert("KC_6"@.len() == 4);
    assert("KC_7"@.len() == 4);
    assert("KC_8"@.len() == 4);
    assert("KC_9"@.len() == 4);
    assert("KC_A"@.len() == 4);
    assert("KC_B"@.len() == 4);
    assert("KC_BACKSLASH"@.len() == 12);
    assert("KC_BACKSPACE"@.len() == 12);
    assert("KC_C"@.len() == 4);
    assert("KC_CAPS_LOCK"@.len() == 12);
    assert("KC_COMMA"@.len() == 8);
    assert("KC_D"@.len() == 4);
    assert("KC_DELETE"@.len() == 9);
    assert("KC_DOT"@.len() == 6);
    assert("KC_DOWN"@.len() == 7);
    assert("KC_E"@.len() == 4);
    assert("KC_END"@.len() == 6);
    assert("KC_ENTER"@.len() == 8);
    assert("KC_EQUAL"@.len() == 8);
    assert("KC_ESCAPE"@.len() == 9);
    assert("KC_F"@.len() == 4);
    assert("KC_G"@.len() == 4);
    assert("KC_GRAVE"@.len() == 8);
    assert("KC_H"@.len() == 4);
    assert("KC_HOME"@.len() == 7);
    assert("KC_I"@.len() == 4);
    assert("KC_INSERT"@.len() == 9);
    assert("KC_J"@.len() == 4);
    assert("KC_K"@.len() == 4);
    assert("KC_L"@.len() == 4);
    assert("KC_LEFT"@.len() == 7);
    assert("KC_LEFT_BRACKET"@.len() == 15);
    assert("KC_M"@.len() == 4);
    assert("KC_MINUS"@.len() == 8);
    assert("KC_N"@.len() == 4);
    assert("KC_NO"@.len() == 5);
    assert("KC_O"@.len() == 4);
    assert("KC_P"@.len() == 4);
    assert("KC_PAGE_DOWN"@.len() == 12);
    assert("KC_PAGE_UP"@.len() == 10);
    assert("KC_Q"@.len() == 4);
    assert("KC_QUOTE"@.len() == 8);
    assert("KC_R"@.len() == 4);
    assert("KC_RIGHT"@.len() == 8);
    assert("KC_RIGHT_BRACKET"@.len() == 16);
    assert("KC_S"@.len() == 4);
    assert("KC_SEMICOLON"@.len() == 12);
    assert("KC_SLASH"@.len() == 8);
    assert("KC_SPACE"@.len() == 8);
    assert("KC_T"@.len() == 4);
    assert("KC_TAB"@.len() == 6);
    assert("KC_TRNS"@.len() == 7);
    assert("KC_U"@.len() == 4);
    assert("KC_UP"@.len() == 5);
    assert("KC_V"@.len() == 4);
    assert("KC_W"@.len() == 4);
    assert("KC_X"@.len() == 4);
    assert("KC_Y"@.len() == 4);
    assert("KC_Z"@.len() == 4);
    assert("QK_MACRO_0"@.len() == 10);
    assert("QK_MACRO_1"@.len() == 10);
    assert("QK_MACRO_10"@.len() == 11);
    assert("QK_MACRO_11"@.len() == 11);
    assert("QK_MACRO_12"@.len() == 11);
    assert("QK_MACRO_13"@.len() == 11);
    assert("QK_MACRO_14"@.len() == 11);
    assert("QK_MACRO_15"@.len() == 11);
    assert("QK_MACRO_2"@.len() == 10);
    assert("QK_MACRO_3"@.len() == 10);
    assert("QK_MACRO_4"@.len() == 10);
    assert("QK_MACRO_5"@.len() == 10);
    assert("QK_MACRO_6"@.len() == 10);
    assert("QK_MACRO_7"@.len() == 10);
    assert("QK_MACRO_8"@.len() == 10);
    assert("QK_MACRO_9"@.len() == 10);
    assert("QK_MAGIC_TOGGLE_NKRO"@.len() == 20);
    assert("QK_TRI_LAYER_LOWER"@.len() == 18);
    assert("QK_TRI_LAYER_UPPER"@.len() == 18);
    seq_ne_at("KC_BACKSLASH"@, "KC_BACKSPACE"@, 8);
    seq_ne_at("KC_BACKSLASH"@, "KC_CAPS_LOCK"@, 3);
    seq_ne_at("KC_BACKSLASH"@, "KC_PAGE_DOWN"@, 3);
    seq_ne_at("KC_BACKSLASH"@, "KC_SEMICOLON"@, 3);
    seq_ne_at("KC_BACKSPACE"@, "KC_CAPS_LOCK"@, 3);
    seq_ne_at("KC_BACKSPACE"@, "KC_PAGE_DOWN"@, 3);
    seq_ne_at("KC_BACKSPACE"@, "KC_SEMICOLON"@, 3);
    seq_ne_at("KC_CAPS_LOCK"@, "KC_PAGE_DOWN"@, 3);
    seq_ne_at("KC_CAPS_LOCK"@, "KC_SEMICOLON"@, 3);
    seq_ne_at("KC_COMMA"@, "KC_ENTER"@, 3);
    seq_ne_at("KC_COMMA"@, "KC_EQUAL"@, 3);
    seq_ne_at("KC_COMMA"@, "KC_GRAVE"@, 3);
    seq_ne_at("KC_COMMA"@, "KC_MINUS"@, 3);
    seq_ne_at("KC_COMMA"@, "KC_QUOTE"@, 3);
    seq_ne_at("KC_COMMA"@, "KC_RIGHT"@, 3);
    seq_ne_at("KC_COMMA"@, "KC_SLASH"@, 3);
    seq_ne_at("KC_COMMA"@, "KC_SPACE"@, 3);
    seq_ne_at("KC_DELETE"@, "KC_ESCAPE"@, 3);
    seq_ne_at("KC_DELETE"@, "KC_INSERT"@, 3);
    seq_ne_at("KC_DOT"@, "KC_END"@, 3);
    seq_ne_at("KC_DOT"@, "KC_TAB"@, 3);
    seq_ne_at("KC_DOWN"@, "KC_HOME"@, 3);
    seq_ne_at("KC_DOWN"@, "KC_LEFT"@, 3);
    seq_ne_at("KC_DOWN"@, "KC_TRNS"@, 3);
    seq_ne_at("KC_END"@, "KC_TAB"@, 3);
    seq_ne_at("KC_ENTER"@, "KC_EQUAL"@, 4);
    seq_ne_at("KC_ENTER"@, "KC_GRAVE"@, 3);
    seq_ne_at("KC_ENTER"@, "KC_MINUS"@, 3);
    seq_ne_at("KC_ENTER"@, "KC_QUOTE"@, 3);
    seq_ne_at("KC_ENTER"@, "KC_RIGHT"@, 3);
    seq_ne_at("KC_ENTER"@, "KC_SLASH"@, 3);
    seq_ne_at("KC_ENTER"@, "KC_SPACE"@, 3);
    seq_ne_at("KC_EQUAL"@, "KC_GRAVE"@, 3);
    seq_ne_at("KC_EQUAL"@, "KC_MINUS"@, 3);
    seq_ne_at("KC_EQUAL"@, "KC_QUOTE"@, 3);
    seq_ne_at("KC_EQUAL"@, "KC_RIGHT"@, 3);
    seq_ne_at("KC_EQUAL"@, "KC_SLASH"@, 3);
    seq_ne_at("KC_EQUAL"@, "KC_SPACE"@, 3);
    seq_ne_at("KC_ESCAPE"@, "KC_INSERT"@, 3);
    seq_ne_at("KC_GRAVE"@, "KC_MINUS"@, 3);
    seq_ne_at("KC_GRAVE"@, "KC_QUOTE"@, 3);
    seq_ne_at("KC_GRAVE"@, "KC_RIGHT"@, 3);
    seq_ne_at("KC_GRAVE"@, "KC_SLASH"@, 3);
    seq_ne_at("KC_GRAVE"@, "KC_SPACE"@, 3);
    seq_ne_at("KC_HOME"@, "KC_LEFT"@, 3);
    seq_ne_at("KC_HOME"@, "KC_TRNS"@, 3);
    seq_ne_at("KC_LEFT"@, "KC_TRNS"@, 3);
    seq_ne_at("KC_MINUS"@, "KC_QUOTE"@, 3);
    seq_ne_at("KC_MINUS"@, "KC_RIGHT"@, 3);
    seq_ne_at("KC_MINUS"@, "KC_SLASH"@, 3);
    seq_ne_at("KC_MINUS"@, "KC_SPACE"@, 3);
    seq_ne_at("KC_NO"@, "KC_UP"@, 3);
    seq_ne_at("KC_PAGE_DOWN"@, "KC_SEMICOLON"@, 3);
    seq_ne_at("KC_PAGE_UP"@, "QK_MACRO_0"@, 0);
    seq_ne_at("KC_PAGE_UP"@, "QK_MACRO_1"@, 0);
    seq_ne_at("KC_PAGE_UP"@, "QK_MACRO_2"@, 0);
    seq_ne_at("KC_PAGE_UP"@, "QK_MACRO_3"@, 0);
    seq_ne_at("KC_PAGE_UP"@, "QK_MACRO_4"@, 0);
    seq_ne_at("KC_PAGE_UP"@, "QK_MACRO_5"@, 0);
    seq_ne_at("KC_PAGE_UP"@, "QK_MACRO_6"@, 0);
    seq_ne_at("KC_PAGE_UP"@, "QK_MACRO_7"@, 0);
    seq_ne_at("KC_PAGE_UP"@, "QK_MACRO_8"@, 0);
    seq_ne_at("KC_PAGE_UP"@, "QK_MACRO_9"@, 0);
    seq_ne_at("KC_QUOTE"@, "KC_RIGHT"@, 3);
    seq_ne_at("KC_QUOTE"@, "KC_SLASH"@, 3);
    seq_ne_at("KC_QUOTE"@, "KC_SPACE"@, 3);
    seq_ne_at("KC_RIGHT"@, "KC_SLASH"@, 3);
    seq_ne_at("KC_RIGHT"@, "KC_SPACE"@, 3);
    seq_ne_at("KC_SLASH"@, "KC_SPACE"@, 4);
}

#[verifier::rlimit(100)]
#[verifier::spinoff_prover]
proof fn lemma_exact_fkey_current(k: u16)
    requires
        names::fkey_name_of(k) is Some,
    ensures
        table_id_of(names::fkey_name_of(k).unwrap(), Generation::Current) == Some(k),
{
    reveal_strlit("KC_0");
    reveal_strlit("KC_1");
    reveal_strlit("KC_2");
    reveal_strlit("KC_3");
    reveal_strlit("KC_4");
    reveal_strlit("KC_5");
    reveal_strlit("KC_6");
    reveal_strlit("KC_7");
    reveal_strlit("KC_8");
    reveal_strlit("KC_9");
    reveal_strlit("KC_A");
    reveal_strlit("KC_B");
    reveal_strlit("KC_BACKSLASH");
    reveal_strlit("KC_BACKSPACE");
    reveal_strlit("KC_C");
    reveal_strlit("KC_CAPS_LOCK");
    reveal_strlit("KC_COMMA");
    reveal_strlit("KC_D");
    reveal_strlit("KC_DELETE");
    reveal_strlit("KC_DOT");
    reveal_strlit("KC_DOWN");
    reveal_strlit("KC_E");
    reveal_strlit("KC_END");
    reveal_strlit("KC_ENTER");
    reveal_strlit("KC_EQUAL");
    reveal_strlit("KC_ESCAPE");
    reveal_strlit("KC_F");
    reveal_strlit("KC_F1");
    reveal_strlit("KC_F10");
    reveal_strlit("KC_F11");
    reveal_strlit("KC_F12");
    reveal_strlit("KC_F2");
    reveal_strlit("KC_F3");
    reveal_strlit("KC_F4");
    reveal_strlit("KC_F5");
    reveal_strlit("KC_F6");
    reveal_strlit("KC_F7");
    reveal_strlit("KC_F8");
    reveal_strlit("KC_F9");
    reveal_strlit("KC_G");
    reveal_strlit("KC_GRAVE");
    reveal_strlit("KC_H");
    reveal_strlit("KC_HOME");
    reveal_strlit("KC_I");
    reveal_strlit("KC_INSERT");
    reveal_strlit("KC_J");
    reveal_strlit("KC_K");
    reveal_strlit("KC_L");
    reveal_strlit("KC_LEFT");
    reveal_strlit("KC_LEFT_BRACKET");
    reveal_strlit("KC_M");
    reveal_strlit("KC_MINUS");
    reveal_strlit("KC_N");
    reveal_strlit("KC_NO");
    reveal_strlit("KC_O");
    reveal_strlit("KC_P");
    reveal_strlit("KC_PAGE_DOWN");
    reveal_strlit("KC_PAGE_UP");
    reveal_strlit("KC_Q");
    reveal_strlit("KC_QUOTE");
    reveal_strlit("KC_R");
    reveal_strlit("KC_RIGHT");
    reveal_strlit("KC_RIGHT_BRACKET");
    reveal_strlit("KC_S");
    reveal_strlit("KC_SEMICOLON");
    reveal_strlit("KC_SLASH");
    reveal_strlit("KC_SPACE");
    reveal_strlit("KC_T");
    reveal_strlit("KC_TAB");
    reveal_strlit("KC_TRNS");
    reveal_strlit("KC_U");
    reveal_strlit("KC_UP");
    reveal_strlit("KC_V");
    reveal_strlit("KC_W");
    reveal_strlit("KC_X");
    reveal_strlit("KC_Y");
    reveal_strlit("KC_Z");
    reveal_strlit("QK_MACRO_0");
    reveal_strlit("QK_MACRO_1");
    reveal_strlit("QK_MACRO_10");
    reveal_strlit("QK_MACRO_11");
    reveal_strlit("QK_MACRO_12");
    reveal_strlit("QK_MACRO_13");
    reveal_strlit("QK_MACRO_14");
    reveal_strlit("QK_MACRO_15");
    reveal_strlit("QK_MACRO_2");
    reveal_strlit("QK_MACRO_3");
    reveal_strlit("QK_MACRO_4");
    reveal_strlit("QK_MACRO_5");
    reveal_strlit("QK_MACRO_6");
    reveal_strlit("QK_MACRO_7");
    reveal_strlit("QK_MACRO_8");
    reveal_strlit("QK_MACRO_9");
    reveal_strlit("QK_MAGIC_TOGGLE_NKRO");
    reveal_strlit("QK_TRI_LAYER_LOWER");
    reveal_strlit("QK_TRI_LAYER_UPPER");
    assert("KC_0"@.len() == 4);
    assert("KC_1"@.len() == 4);
    assert("KC_2"@.len() == 4);
    assert("KC_3"@.len() == 4);
    assert("KC_4"@.len() == 4);
    assert("KC_5"@.len() == 4);
    assert("KC_6"@.len() == 4);
    assert("KC_7"@.len() == 4);
    assert("KC_8"@.len() == 4);
    assert("KC_9"@.len() == 4);
    assert("KC_A"@.len() == 4);
    assert("KC_B"@.len() == 4);
    assert("KC_BACKSLASH"@.len() == 12);
    assert("KC_BACKSPACE"@.len() == 12);
    assert("KC_C"@.len() == 4);
    assert("KC_CAPS_LOCK"@.len() == 12);
    assert("KC_COMMA"@.len() == 8);
    assert("KC_D"@.len() == 4);
    assert("KC_DELETE"@.len() == 9);
    assert("KC_DOT"@.len() == 6);
    assert("KC_DOWN"@.len() == 7);
    assert("KC_E"@.len() == 4);
    assert("KC_END"@.len() == 6);
    assert("KC_ENTER"@.len() == 8);
    assert("KC_EQUAL"@.len() == 8);
    assert("KC_ESCAPE"@.len() == 9);
    assert("KC_F"@.len() == 4);
    assert("KC_F1"@.len() == 5);
    assert("KC_F10"@.len() == 6);
    assert("KC_F11"@.len() == 6);
    assert("KC_F12"@.len() == 6);
    assert("KC_F2"@.len() == 5);
    assert("KC_F3"@.len() == 5);
    assert("KC_F4"@.len() == 5);
    assert("KC_F5"@.len() == 5);
    assert("KC_F6"@.len() == 5);
    assert("KC_F7"@.len() == 5);
    assert("KC_F8"@.len() == 5);
    assert("KC_F9"@.len() == 5);
    assert("KC_G"@.len() == 4);
    assert("KC_GRAVE"@.len() == 8);
    assert("KC_H"@.len() == 4);
    assert("KC_HOME"@.len() == 7);
    assert("KC_I"@.len() == 4);
    assert("KC_INSERT"@.len() == 9);
    assert("KC_J"@.len() == 4);
    assert("KC_K"@.len() == 4);
    assert("KC_L"@.len() == 4);
    assert("KC_LEFT"@.len() == 7);
    assert("KC_LEFT_BRACKET"@.len() == 15);
    assert("KC_M"@.len() == 4);
    assert("KC_MINUS"@.len() == 8);
    assert("KC_N"@.len() == 4);
    assert("KC_NO"@.len() == 5);
    assert("KC_O"@.len() == 4);
    assert("KC_P"@.len() == 4);
    assert("KC_PAGE_DOWN"@.len() == 12);
    assert("KC_PAGE_UP"@.len() == 10);
    assert("KC_Q"@.len() == 4);
    assert("KC_QUOTE"@.len() == 8);
    assert("KC_R"@.len() == 4);
    assert("KC_RIGHT"@.len() == 8);
    assert("KC_RIGHT_BRACKET"@.len() == 16);
    assert("KC_S"@.len() == 4);
    assert("KC_SEMICOLON"@.len() == 12);
    assert("KC_SLASH"@.len() == 8);
    assert("KC_SPACE"@.len() == 8);
    assert("KC_T"@.len() == 4);
    assert("KC_TAB"@.len() == 6);
    assert("KC_TRNS"@.len() == 7);
    assert("KC_U"@.len() == 4);
    assert("KC_UP"@.len() == 5);
    assert("KC_V"@.len() == 4);
    assert("KC_W"@.len() == 4);
    assert("KC_X"@.len() == 4);
    assert("KC_Y"@.len() == 4);
    assert("KC_Z"@.len() == 4);
    assert("QK_MACRO_0"@.len() == 10);
    assert("QK_MACRO_1"@.len() == 10);
    assert("QK_MACRO_10"@.len() == 11);
    assert("QK_MACRO_11"@.len() == 11);
    assert("QK_MACRO_12"@.len() == 11);
    assert("QK_MACRO_13"@.len() == 11);
    assert("QK_MACRO_14"@.len() == 11);
    assert("QK_MACRO_15"@.len() == 11);
    assert("QK_MACRO_2"@.len() == 10);
    assert("QK_MACRO_3"@.len() == 10);
    assert("QK_MACRO_4"@.len() == 10);
    assert("QK_MACRO_5"@.len() == 10);
    assert("QK_MACRO_6"@.len() == 10);
    assert("QK_MACRO_7"@.len() == 10);
    assert("QK_MACRO_8"@.len() == 10);
    assert("QK_MACRO_9"@.len() == 10);
    assert("QK_MAGIC_TOGGLE_NKRO"@.len() == 20);
    assert("QK_TRI_LAYER_LOWER"@.len() == 18);
    assert("QK_TRI_LAYER_UPPER"@.len() == 18);
    seq_ne_at("KC_DOT"@, "KC_F10"@, 3);
    seq_ne_at("KC_DOT"@, "KC_F11"@, 3);
    seq_ne_at("KC_DOT"@, "KC_F12"@, 3);
    seq_ne_at("KC_END"@, "KC_F10"@, 3);
    seq_ne_at("KC_END"@, "KC_F11"@, 3);
    seq_ne_at("KC_END"@, "KC_F12"@, 3);
    seq_ne_at("KC_F1"@, "KC_F2"@, 4);
    seq_ne_at("KC_F1"@, "KC_F3"@, 4);
    seq_ne_at("KC_F1"@, "KC_F4"@, 4);
    seq_ne_at("KC_F1"@, "KC_F5"@, 4);
    seq_ne_at("KC_F1"@, "KC_F6"@, 4);
    seq_ne_at("KC_F1"@, "KC_F7"@, 4);
    seq_ne_at("KC_F1"@, "KC_F8"@, 4);
    seq_ne_at("KC_F1"@, "KC_F9"@, 4);
    seq_ne_at("KC_F1"@, "KC_NO"@, 3);
    seq_ne_at("KC_F1"@, "KC_UP"@, 3);
    seq_ne_at("KC_F10"@, "KC_F11"@, 5);
    seq_ne_at("KC_F10"@, "KC_F12"@, 5);
    seq_ne_at("KC_F10"@, "KC_TAB"@, 3);
    seq_ne_at("KC_F11"@, "KC_F12"@, 5);
    seq_ne_at("KC_F11"@, "KC_TAB"@, 3);
    seq_ne_at("KC_F12"@, "KC_TAB"@, 3);
    seq_ne_at("KC_F2"@, "KC_F3"@, 4);
    seq_ne_at("KC_F2"@, "KC_F4"@, 4);
    seq_ne_at("KC_F2"@, "KC_F5"@, 4);
    seq_ne_at("KC_F2"@, "KC_F6"@, 4);
    seq_ne_at("KC_F2"@, "KC_F7"@, 4);
    seq_ne_at("KC_F2"@, "KC_F8"@, 4);
    seq_ne_at("KC_F2"@, "KC_F9"@, 4);
    seq_ne_at("KC_F2"@, "KC_NO"@, 3);
    seq_ne_at("KC_F2"@, "KC_UP"@, 3);
    seq_ne_at("KC_F3"@, "KC_F4"@, 4);
    seq_ne_at("KC_F3"@, "KC_F5"@, 4);
    seq_ne_at("KC_F3"@, "KC_F6"@, 4);
    seq_ne_at("KC_F3"@, "KC_F7"@, 4);
    seq_ne_at("KC_F3"@, "KC_F8"@, 4);
    seq_ne_at("KC_F3"@, "KC_F9"@, 4);
    seq_ne_at("KC_F3"@, "KC_NO"@, 3);
    seq_ne_at("KC_F3"@, "KC_UP"@, 3);
    seq_ne_at("KC_F4"@, "KC_F5"@, 4);
    seq_ne_at("KC_F4"@, "KC_F6"@, 4);
    seq_ne_at("KC_F4"@, "KC_F7"@, 4);
    seq_ne_at("KC_F4"@, "KC_F8"@, 4);
    seq_ne_at("KC_F4"@, "KC_F9"@, 4);
    seq_ne_at("KC_F4"@, "KC_NO"@, 3);
    seq_ne_at("KC_F4"@, "KC_UP"@, 3);
    seq_ne_at("KC_F5"@, "KC_F6"@, 4);
    seq_ne_at("KC_F5"@, "KC_F7"@, 4);
    seq_ne_at("KC_F5"@, "KC_F8"@, 4);
    seq_ne_at("KC_F5"@, "KC_F9"@, 4);
    seq_ne_at("KC_F5"@, "KC_NO"@, 3);
    seq_ne_at("KC_F5"@, "KC_UP"@, 3);
    seq_ne_at("KC_F6"@, "KC_F7"@, 4);
    seq_ne_at("KC_F6"@, "KC_F8"@, 4);
    seq_ne_at("KC_F6"@, "KC_F9"@, 4);
    seq_ne_at("KC_F6"@, "KC_NO"@, 3);
    seq_ne_at("KC_F6"@, "KC_UP"@, 3);
    seq_ne_at("KC_F7"@, "KC_F8"@, 4);
    seq_ne_at("KC_F7"@, "KC_F9"@, 4);
    seq_ne_at("KC_F7"@, "KC_NO"@, 3);
    seq_ne_at("KC_F7"@, "KC_UP"@, 3);
    seq_ne_at("KC_F8"@, "KC_F9"@, 4);
    seq_ne_at("KC_F8"@, "KC_NO"@, 3);
    seq_ne_at("KC_F8"@, "KC_UP"@, 3);
    seq_ne_at("KC_F9"@, "KC_NO"@, 3);
    seq_ne_at("KC_F9"@, "KC_UP"@, 3);
}

#[verifier::rlimit(100)]
#[verifier::spinoff_prover]
proof fn lemma_exact_fkey_legacy(k: u16)
    requires
        names::fkey_name_of(k) is Some,
    ensures
        table_id_of(names::fkey_name_of(k).unwrap(), Generation::Legacy) == Some(k),
{
    reveal_strlit("KC_0");
    reveal_strlit("KC_1");
    reveal_strlit("KC_2");
    reveal_strlit("KC_3");
    reveal_strlit("KC_4");
    reveal_strlit("KC_5");
    reveal_strlit("KC_6");
    reveal_strlit("KC_7");
    reveal_strlit("KC_8");
    reveal_strlit("KC_9");
    reveal_strlit("KC_A");
    reveal_strlit("KC_B");
    reveal_strlit("KC_BACKSLASH");
    reveal_strlit("KC_BACKSPACE");
    reveal_strlit("KC_C");
    reveal_strlit("KC_CAPS_LOCK");
    reveal_strlit("KC_COMMA");
    reveal_strlit("KC_D");
    reveal_strlit("KC_DELETE");
    reveal_strlit("KC_DOT");
    reveal_strlit("KC_DOWN");
    reveal_strlit("KC_E");
    reveal_strlit("KC_END");
    reveal_strlit("KC_ENTER");
    reveal_strlit("KC_EQUAL");
    reveal_strlit("KC_ESCAPE");
    reveal_strlit("KC_F");
    reveal_strlit("KC_F1");
    reveal_strlit("KC_F10");
    reveal_strlit("KC_F11");
    reveal_strlit("KC_F12");
    reveal_strlit("KC_F2");
    reveal_strlit("KC_F3");
    reveal_strlit("KC_F4");
    reveal_strlit("KC_F5");
    reveal_strlit("KC_F6");
    reveal_strlit("KC_F7");
    reveal_strlit("KC_F8");
    reveal_strlit("KC_F9");
    reveal_strlit("KC_G");
    reveal_strlit("KC_GRAVE");
    reveal_strlit("KC_H");
    reveal_strlit("KC_HOME");
    reveal_strlit("KC_I");
    reveal_strlit("KC_INSERT");
    reveal_strlit("KC_J");
    reveal_strlit("KC_K");
    reveal_strlit("KC_L");
    reveal_strlit("KC_LEFT");
    reveal_strlit("KC_LEFT_BRACKET");
    reveal_strlit("KC_M");
    reveal_strlit("KC_MINUS");
    reveal_strlit("KC_N");
    reveal_strlit("KC_NO");
    reveal_strlit("KC_O");
    reveal_strlit("KC_P");
    reveal_strlit("KC_PAGE_DOWN");
    reveal_strlit("KC_PAGE_UP");
    reveal_strlit("KC_Q");
    reveal_strlit("KC_QUOTE");
    reveal_strlit("KC_R");
    reveal_strlit("KC_RIGHT");
    reveal_strlit("KC_RIGHT_BRACKET");
    reveal_strlit("KC_S");
    reveal_strlit("KC_SEMICOLON");
    reveal_strlit("KC_SLASH");
    reveal_strlit("KC_SPACE");
    reveal_strlit("KC_T");
    reveal_strlit("KC_TAB");
    reveal_strlit("KC_TRNS");
    reveal_strlit("KC_U");
    reveal_strlit("KC_UP");
    reveal_strlit("KC_V");
    reveal_strlit("KC_W");
    reveal_strlit("KC_X");
    reveal_strlit("KC_Y");
    reveal_strlit("KC_Z");
    reveal_strlit("QK_MACRO_0");
    reveal_strlit("QK_MACRO_1");
    reveal_strlit("QK_MACRO_10");
    reveal_strlit("QK_MACRO_11");
    reveal_strlit("QK_MACRO_12");
    reveal_strlit("QK_MACRO_13");
    reveal_strlit("QK_MACRO_14");
    reveal_strlit("QK_MACRO_15");
    reveal_strlit("QK_MACRO_2");
    reveal_strlit("QK_MACRO_3");
    reveal_strlit("QK_MACRO_4");
    reveal_strlit("QK_MACRO_5");
    reveal_strlit("QK_MACRO_6");
    reveal_strlit("QK_MACRO_7");
    reveal_strlit("QK_MACRO_8");
    reveal_strlit("QK_MACRO_9");
    reveal_strlit("QK_MAGIC_TOGGLE_NKRO");
    reveal_strlit("QK_TRI_LAYER_LOWER");
    reveal_strlit("QK_TRI_LAYER_UPPER");
    assert("KC_0"@.len() == 4);
    assert("KC_1"@.len() == 4);
    assert("KC_2"@.len() == 4);
    assert("KC_3"@.len() == 4);
    assert("KC_4"@.len() == 4);
    assert("KC_5"@.len() == 4);
    assert("KC_6"@.len() == 4);
    assert("KC_7"@.len() == 4);
    assert("KC_8"@.len() == 4);
    assert("KC_9"@.len() == 4);
    assert("KC_A"@.len() == 4);
    assert("KC_B"@.len() == 4);
    assert("KC_BACKSLASH"@.len() == 12);
    assert("KC_BACKSPACE"@.len() == 12);
    assert("KC_C"@.len() == 4);
    assert("KC_CAPS_LOCK"@.len() == 12);
    assert("KC_COMMA"@.len() == 8);
    assert("KC_D"@.len() == 4);
    assert("KC_DELETE"@.len() == 9);
    assert("KC_DOT"@.len() == 6);
    assert("KC_DOWN"@.len() == 7);
    assert("KC_E"@.len() == 4);
    assert("KC_END"@.len() == 6);
    assert("KC_ENTER"@.len() == 8);
    assert("KC_EQUAL"@.len() == 8);
    assert("KC_ESCAPE"@.len() == 9);
    assert("KC_F"@.len() == 4);
    assert("KC_F1"@.len() == 5);
    assert("KC_F10"@.len() == 6);
    assert("KC_F11"@.len() == 6);
    assert("KC_F12"@.len() == 6);
    assert("KC_F2"@.len() == 5);
    assert("KC_F3"@.len() == 5);
    assert("KC_F4"@.len() == 5);
    assert("KC_F5"@.len() == 5);
    assert("KC_F6"@.len() == 5);
    assert("KC_F7"@.len() == 5);
    assert("KC_F8"@.len() == 5);
    assert("KC_F9"@.len() == 5);
    assert("KC_G"@.len() == 4);
    assert("KC_GRAVE"@.len() == 8);
    assert("KC_H"@.len() == 4);
    assert("KC_HOME"@.len() == 7);
    assert("KC_I"@.len() == 4);
    assert("KC_INSERT"@.len() == 9);
    assert("KC_J"@.len() == 4);
    assert("KC_K"@.len() == 4);
    assert("KC_L"@.len() == 4);
    assert("KC_LEFT"@.len() == 7);
    assert("KC_LEFT_BRACKET"@.len() == 15);
    assert("KC_M"@.len() == 4);
    assert("KC_MINUS"@.len() == 8);
    assert("KC_N"@.len() == 4);
    assert("KC_NO"@.len() == 5);
    assert("KC_O"@.len() == 4);
    assert("KC_P"@.len() == 4);
    assert("KC_PAGE_DOWN"@.len() == 12);
    assert("KC_PAGE_UP"@.len() == 10);
    assert("KC_Q"@.len() == 4);
    assert("KC_QUOTE"@.len() == 8);
    assert("KC_R"@.len() == 4);
    assert("KC_RIGHT"@.len() == 8);
    assert("KC_RIGHT_BRACKET"@.len() == 16);
    assert("KC_S"@.len() == 4);
    assert("KC_SEMICOLON"@.len() == 12);
    assert("KC_SLASH"@.len() == 8);
    assert("KC_SPACE"@.len() == 8);
    assert("KC_T"@.len() == 4);
    assert("KC_TAB"@.len() == 6);
    assert("KC_TRNS"@.len() == 7);
    assert("KC_U"@.len() == 4);
    assert("KC_UP"@.len() == 5);
    assert("KC_V"@.len() == 4);
    assert("KC_W"@.len() == 4);
    assert("KC_X"@.len() == 4);
    assert("KC_Y"@.len() == 4);
    assert("KC_Z"@.len() == 4);
    assert("QK_MACRO_0"@.len() == 10);
    assert("QK_MACRO_1"@.len() == 10);
    assert("QK_MACRO_10"@.len() == 11);
    assert("QK_MACRO_11"@.len() == 11);
    assert("QK_MACRO_12"@.len() == 11);
    assert("QK_MACRO_13"@.len() == 11);
    assert("QK_MACRO_14"@.len() == 11);
    assert("QK_MACRO_15"@.len() == 11);
    assert("QK_MACRO_2"@.len() == 10);
    assert("QK_MACRO_3"@.len() == 10);
    assert("QK_MACRO_4"@.len() == 10);
    assert("QK_MACRO_5"@.len() == 10);
    assert("QK_MACRO_6"@.len() == 10);
    assert("QK_MACRO_7"@.len() == 10);
    assert("QK_MACRO_8"@.len() == 10);
    assert("QK_MACRO_9"@.len() == 10);
    assert("QK_MAGIC_TOGGLE_NKRO"@.len() == 20);
    assert("QK_TRI_LAYER_LOWER"@.len() == 18);
    assert("QK_TRI_LAYER_UPPER"@.len() == 18);
    seq_ne_at("KC_DOT"@, "KC_F10"@, 3);
    seq_ne_at("KC_DOT"@, "KC_F11"@, 3);
    seq_ne_at("KC_DOT"@, "KC_F12"@, 3);
    seq_ne_at("KC_END"@, "KC_F10"@, 3);
    seq_ne_at("KC_END"@, "KC_F11"@, 3);
    seq_ne_at("KC_END"@, "KC_F12"@, 3);
    seq_ne_at("KC_F1"@, "KC_F2"@, 4);
    seq_ne_at("KC_F1"@, "KC_F3"@, 4);
    seq_ne_at("KC_F1"@, "KC_F4"@, 4);
    seq_ne_at("KC_F1"@, "KC_F5"@, 4);
    seq_ne_at("KC_F1"@, "KC_F6"@, 4);
    seq_ne_at("KC_F1"@, "KC_F7"@, 4);
    seq_ne_at("KC_F1"@, "KC_F8"@, 4);
    seq_ne_at("KC_F1"@, "KC_F9"@, 4);
    seq_ne_at("KC_F1"@, "KC_NO"@, 3);
    seq_ne_at("KC_F1"@, "KC_UP"@, 3);
    seq_ne_at("KC_F10"@, "KC_F11"@, 5);
    seq_ne_at("KC_F10"@, "KC_F12"@, 5);
    seq_ne_at("KC_F10"@, "KC_TAB"@, 3);
    seq_ne_at("KC_F11"@, "KC_F12"@, 5);
    seq_ne_at("KC_F11"@, "KC_TAB"@, 3);
    seq_ne_at("KC_F12"@, "KC_TAB"@, 3);
    seq_ne_at("KC_F2"@, "KC_F3"@, 4);
    seq_ne_at("KC_F2"@, "KC_F4"@, 4);
    seq_ne_at("KC_F2"@, "KC_F5"@, 4);
    seq_ne_at("KC_F2"@, "KC_F6"@, 4);
    seq_ne_at("KC_F2"@, "KC_F7"@, 4);
    seq_ne_at("KC_F2"@, "KC_F8"@, 4);
    seq_ne_at("KC_F2"@, "KC_F9"@, 4);
    seq_ne_at("KC_F2"@, "KC_NO"@, 3);
    seq_ne_at("KC_F2"@, "KC_UP"@, 3);
    seq_ne_at("KC_F3"@, "KC_F4"@, 4);
    seq_ne_at("KC_F3"@, "KC_F5"@, 4);
    seq_ne_at("KC_F3"@, "KC_F6"@, 4);
    seq_ne_at("KC_F3"@, "KC_F7"@, 4);
    seq_ne_at("KC_F3"@, "KC_F8"@, 4);
    seq_ne_at("KC_F3"@, "KC_F9"@, 4);
    seq_ne_at("KC_F3"@, "KC_NO"@, 3);
    seq_ne_at("KC_F3"@, "KC_UP"@, 3);
    seq_ne_at("KC_F4"@, "KC_F5"@, 4);
    seq_ne_at("KC_F4"@, "KC_F6"@, 4);
    seq_ne_at("KC_F4"@, "KC_F7"@, 4);
    seq_ne_at("KC_F4"@, "KC_F8"@, 4);
    seq_ne_at("KC_F4"@, "KC_F9"@, 4);
    seq_ne_at("KC_F4"@, "KC_NO"@, 3);
    seq_ne_at("KC_F4"@, "KC_UP"@, 3);
    seq_ne_at("KC_F5"@, "KC_F6"@, 4);
    seq_ne_at("KC_F5"@, "KC_F7"@, 4);
    seq_ne_at("KC_F5"@, "KC_F8"@, 4);
    seq_ne_at("KC_F5"@, "KC_F9"@, 4);
    seq_ne_at("KC_F5"@, "KC_NO"@, 3);
    seq_ne_at("KC_F5"@, "KC_UP"@, 3);
    seq_ne_at("KC_F6"@, "KC_F7"@, 4);
    seq_ne_at("KC_F6"@, "KC_F8"@, 4);
    seq_ne_at("KC_F6"@, "KC_F9"@, 4);
    seq_ne_at("KC_F6"@, "KC_NO"@, 3);
    seq_ne_at("KC_F6"@, "KC_UP"@, 3);
    seq_ne_at("KC_F7"@, "KC_F8"@, 4);
    seq_ne_at("KC_F7"@, "KC_F9"@, 4);
    seq_ne_at("KC_F7"@, "KC_NO"@, 3);
    seq_ne_at("KC_F7"@, "KC_UP"@, 3);
    seq_ne_at("KC_F8"@, "KC_F9"@, 4);
    seq_ne_at("KC_F8"@, "KC_NO"@, 3);
    seq_ne_at("KC_F8"@, "KC_UP"@, 3);
    seq_ne_at("KC_F9"@, "KC_NO"@, 3);
    seq_ne_at("KC_F9"@, "KC_UP"@, 3);
}

#[verifier::rlimit(100)]
#[verifier::spinoff_prover]
proof fn lemma_exact_modkey_current(k: u16)
    requires
        names::modkey_name_of(k) is Some,
    ensures
        table_id_of(names::modkey_name_of(k).unwrap(), Generation::Current) == Some(k),
{
    reveal_strlit("KC_0");
    reveal_strlit("KC_1");
    reveal_strlit("KC_2");
    reveal_strlit("KC_3");
    reveal_strlit("KC_4");
    reveal_strlit("KC_5");
    reveal_strlit("KC_6");
    reveal_strlit("KC_7");
    reveal_strlit("KC_8");
    reveal_strlit("KC_9");
    reveal_strlit("KC_A");
    reveal_strlit("KC_B");
    reveal_strlit("KC_BACKSLASH");
    reveal_strlit("KC_BACKSPACE");
    reveal_strlit("KC_C");
    reveal_strlit("KC_CAPS_LOCK");
    reveal_strlit("KC_COMMA");
    reveal_strlit("KC_D");
    reveal_strlit("KC_DELETE");
    reveal_strlit("KC_DOT");
    reveal_strlit("KC_DOWN");
    reveal_strlit("KC_E");
    reveal_strlit("KC_END");
    reveal_strlit("KC_ENTER");
    reveal_strlit("KC_EQUAL");
    reveal_strlit("KC_ESCAPE");
    reveal_strlit("KC_F");
    reveal_strlit("KC_F1");
    reveal_strlit("KC_F10");
    reveal_strlit("KC_F11");
    reveal_strlit("KC_F12");
    reveal_strlit("KC_F2");
    reveal_strlit("KC_F3");
    reveal_strlit("KC_F4");
    reveal_strlit("KC_F5");
    reveal_strlit("KC_F6");
    reveal_strlit("KC_F7");
    reveal_strlit("KC_F8");
    reveal_strlit("KC_F9");
    reveal_strlit("KC_G");
    reveal_strlit("KC_GRAVE");
    reveal_strlit("KC_H");
    reveal_strlit("KC_HOME");
    reveal_strlit("KC_I");
    reveal_strlit("KC_INSERT");
    reveal_strlit("KC_J");
    reveal_strlit("KC_K");
    reveal_strlit("KC_L");
    reveal_strlit("KC_LEFT");
    reveal_strlit("KC_LEFT_ALT");
    reveal_strlit("KC_LEFT_BRACKET");
    reveal_strlit("KC_LEFT_CTRL");
    reveal_strlit("KC_LEFT_GUI");
    reveal_strlit("KC_LEFT_SHIFT");
    reveal_strlit("KC_M");
    reveal_strlit("KC_MINUS");
    reveal_strlit("KC_N");
    reveal_strlit("KC_NO");
    reveal_strlit("KC_O");
    reveal_strlit("KC_P");
    reveal_strlit("KC_PAGE_DOWN");
    reveal_strlit("KC_PAGE_UP");
    reveal_strlit("KC_Q");
    reveal_strlit("KC_QUOTE");
    reveal_strlit("KC_R");
    reveal_strlit("KC_RIGHT");
    reveal_strlit("KC_RIGHT_ALT");
    reveal_strlit("KC_RIGHT_BRACKET");
    reveal_strlit("KC_RIGHT_CTRL");
    reveal_strlit("KC_RIGHT_GUI");
    reveal_strlit("KC_RIGHT_SHIFT");
    reveal_strlit("KC_S");
    reveal_strlit("KC_SEMICOLON");
    reveal_strlit("KC_SLASH");
    reveal_strlit("KC_SPACE");
    reveal_strlit("KC_T");
    reveal_strlit("KC_TAB");
    reveal_strlit("KC_TRNS");
    reveal_strlit("KC_U");
    reveal_strlit("KC_UP");
    reveal_strlit("KC_V");
    reveal_strlit("KC_W");
    reveal_strlit("KC_X");
    reveal_strlit("KC_Y");
    reveal_strlit("KC_Z");
    reveal_strlit("QK_MACRO_0");
    reveal_strlit("QK_MACRO_1");
    reveal_strlit("QK_MACRO_10");
    reveal_strlit("QK_MACRO_11");
    reveal_strlit("QK_MACRO_12");
    reveal_strlit("QK_MACRO_13");
    reveal_strlit("QK_MACRO_14");
    reveal_strlit("QK_MACRO_15");
    reveal_strlit("QK_MACRO_2");
    reveal_strlit("QK_MACRO_3");
    reveal_strlit("QK_MACRO_4");
    reveal_strlit("QK_MACRO_5");
    reveal_strlit("QK_MACRO_6");
    reveal_strlit("QK_MACRO_7");
    reveal_strlit("QK_MACRO_8");
    reveal_strlit("QK_MACRO_9");
    reveal_strlit("QK_MAGIC_TOGGLE_NKRO");
    reveal_strlit("QK_TRI_LAYER_LOWER");
    reveal_strlit("QK_TRI_LAYER_UPPER");
    assert("KC_0"@.len() == 4);
    assert("KC_1"@.len() == 4);
    assert("KC_2"@.len() == 4);
    assert("KC_3"@.len() == 4);
    assert("KC_4"@.len() == 4);
    assert("KC_5"@.len() == 4);
    assert("KC_6"@.len() == 4);
    assert("KC_7"@.len() == 4);
    assert("KC_8"@.len() == 4);
    assert("KC_9"@.len() == 4);
    assert("KC_A"@.len() == 4);
    assert("KC_B"@.len() == 4);
    assert("KC_BACKSLASH"@.len() == 12);
    assert("KC_BACKSPACE"@.len() == 12);
    assert("KC_C"@.len() == 4);
    assert("KC_CAPS_LOCK"@.len() == 12);
    assert("KC_COMMA"@.len() == 8);
    assert("KC_D"@.len() == 4);
    assert("KC_DELETE"@.len() == 9);
    assert("KC_DOT"@.len() == 6);
    assert("KC_DOWN"@.len() == 7);
    assert("KC_E"@.len() == 4);
    assert("KC_END"@.len() == 6);
    assert("KC_ENTER"@.len() == 8);
    assert("KC_EQUAL"@.len() == 8);
    assert("KC_ESCAPE"@.len() == 9);
    assert("KC_F"@.len() == 4);
    assert("KC_F1"@.len() == 5);
    assert("KC_F10"@.len() == 6);
    assert("KC_F11"@.len() == 6);
    assert("KC_F12"@.len() == 6);
    assert("KC_F2"@.len() == 5);
    assert("KC_F3"@.len() == 5);
    assert("KC_F4"@.len() == 5);
    assert("KC_F5"@.len() == 5);
    assert("KC_F6"@.len() == 5);
    assert("KC_F7"@.len() == 5);
    assert("KC_F8"@.len() == 5);
    assert("KC_F9"@.len() == 5);
    assert("KC_G"@.len() == 4);
    assert("KC_GRAVE"@.len() == 8);
    assert("KC_H"@.len() == 4);
    assert("KC_HOME"@.len() == 7);
    assert("KC_I"@.len() == 4);
    assert("KC_INSERT"@.len() == 9);
    assert("KC_J"@.len() == 4);
    assert("KC_K"@.len() == 4);
    assert("KC_L"@.len() == 4);
    assert("KC_LEFT"@.len() == 7);
    assert("KC_LEFT_ALT"@.len() == 11);
    assert("KC_LEFT_BRACKET"@.len() == 15);
    assert("KC_LEFT_CTRL"@.len() == 12);
    assert("KC_LEFT_GUI"@.len() == 11);
    assert("KC_LEFT_SHIFT"@.len() == 13);
    assert("KC_M"@.len() == 4);
    assert("KC_MINUS"@.len() == 8);
    assert("KC_N"@.len() == 4);
    assert("KC_NO"@.len() == 5);
    assert("KC_O"@.len() == 4);
    assert("KC_P"@.len() == 4);
    assert("KC_PAGE_DOWN"@.len() == 12);
    assert("KC_PAGE_UP"@.len() == 10);
    assert("KC_Q"@.len() == 4);
    assert("KC_QUOTE"@.len() == 8);
    assert("KC_R"@.len() == 4);
    assert("KC_RIGHT"@.len() == 8);
    assert("KC_RIGHT_ALT"@.len() == 12);
    assert("KC_RIGHT_BRACKET"@.len() == 16);
    assert("KC_RIGHT_CTRL"@.len() == 13);
    assert("KC_RIGHT_GUI"@.len() == 12);
    assert("KC_RIGHT_SHIFT"@.len() == 14);
    assert("KC_S"@.len() == 4);
    assert("KC_SEMICOLON"@.len() == 12);
    assert("KC_SLASH"@.len() == 8);
    assert("KC_SPACE"@.len() == 8);
    assert("KC_T"@.len() == 4);
    assert("KC_TAB"@.len() == 6);
    assert("KC_TRNS"@.len() == 7);
    assert("KC_U"@.len() == 4);
    assert("KC_UP"@.len() == 5);
    assert("KC_V"@.len() == 4);
    assert("KC_W"@.len() == 4);
    assert("KC_X"@.len() == 4);
    assert("KC_Y"@.len() == 4);
    assert("KC_Z"@.len() == 4);
    assert("QK_MACRO_0"@.len() == 10);
    assert("QK_MACRO_1"@.len() == 10);
    assert("QK_MACRO_10"@.len() == 11);
    assert("QK_MACRO_11"@.len() == 11);
    assert("QK_MACRO_12"@.len() == 11);
    assert("QK_MACRO_13"@.len() == 11);
    assert("QK_MACRO_14"@.len() == 11);
    assert("QK_MACRO_15"@.len() == 11);
    assert("QK_MACRO_2"@.len() == 10);
    assert("QK_MACRO_3"@.len() == 10);
    assert("QK_MACRO_4"@.len() == 10);
    assert("QK_MACRO_5"@.len() == 10);
    assert("QK_MACRO_6"@.len() == 10);
    assert("QK_MACRO_7"@.len() == 10);
    assert("QK_MACRO_8"@.len() == 10);
    assert("QK_MACRO_9"@.len() == 10);
    assert("QK_MAGIC_TOGGLE_NKRO"@.len() == 20);
    assert("QK_TRI_LAYER_LOWER"@.len() == 18);
    assert("QK_TRI_LAYER_UPPER"@.len() == 18);
    seq_ne_at("KC_BACKSLASH"@, "KC_LEFT_CTRL"@, 3);
    seq_ne_at("KC_BACKSLASH"@, "KC_RIGHT_ALT"@, 3);
    seq_ne_at("KC_BACKSLASH"@, "KC_RIGHT_GUI"@, 3);
    seq_ne_at("KC_BACKSPACE"@, "KC_LEFT_CTRL"@, 3);
    seq_ne_at("KC_BACKSPACE"@, "KC_RIGHT_ALT"@, 3);
    seq_ne_at("KC_BACKSPACE"@, "KC_RIGHT_GUI"@, 3);
    seq_ne_at("KC_CAPS_LOCK"@, "KC_LEFT_CTRL"@, 3);
    seq_ne_at("KC_CAPS_LOCK"@, "KC_RIGHT_ALT"@, 3);
    seq_ne_at("KC_CAPS_LOCK"@, "KC_RIGHT_GUI"@, 3);
    seq_ne_at("KC_LEFT_ALT"@, "KC_LEFT_GUI"@, 8);
    seq_ne_at("KC_LEFT_ALT"@, "QK_MACRO_10"@, 0);
    seq_ne_at("KC_LEFT_ALT"@, "QK_MACRO_11"@, 0);
    seq_ne_at("KC_LEFT_ALT"@, "QK_MACRO_12"@, 0);
    seq_ne_at("KC_LEFT_ALT"@, "QK_MACRO_13"@, 0);
    seq_ne_at("KC_LEFT_ALT"@, "QK_MACRO_14"@, 0);
    seq_ne_at("KC_LEFT_ALT"@, "QK_MACRO_15"@, 0);
    seq_ne_at("KC_LEFT_CTRL"@, "KC_PAGE_DOWN"@, 3);
    seq_ne_at("KC_LEFT_CTRL"@, "KC_RIGHT_ALT"@, 3);
    seq_ne_at("KC_LEFT_CTRL"@, "KC_RIGHT_GUI"@, 3);
    seq_ne_at("KC_LEFT_CTRL"@, "KC_SEMICOLON"@, 3);
    seq_ne_at("KC_LEFT_GUI"@, "QK_MACRO_10"@, 0);
    seq_ne_at("KC_LEFT_GUI"@, "QK_MACRO_11"@, 0);
    seq_ne_at("KC_LEFT_GUI"@, "QK_MACRO_12"@, 0);
    seq_ne_at("KC_LEFT_GUI"@, "QK_MACRO_13"@, 0);
    seq_ne_at("KC_LEFT_GUI"@, "QK_MACRO_14"@, 0);
    seq_ne_at("KC_LEFT_GUI"@, "QK_MACRO_15"@, 0);
    seq_ne_at("KC_LEFT_SHIFT"@, "KC_RIGHT_CTRL"@, 3);
    seq_ne_at("KC_PAGE_DOWN"@, "KC_RIGHT_ALT"@, 3);
    seq_ne_at("KC_PAGE_DOWN"@, "KC_RIGHT_GUI"@, 3);
    seq_ne_at("KC_RIGHT_ALT"@, "KC_RIGHT_GUI"@, 9);
    seq_ne_at("KC_RIGHT_ALT"@, "KC_SEMICOLON"@, 3);
    seq_ne_at("KC_RIGHT_GUI"@, "KC_SEMICOLON"@, 3);
}

#[verifier::rlimit(100)]
#[verifier::spinoff_prover]
proof fn lemma_exact_modkey_legacy(k: u16)
    requires
        names::modkey_name_of(k) is Some,
    ensures
        table_id_of(names::modkey_name_of(k).unwrap(), Generation::Legacy) == Some(k),
{
    reveal_strlit("KC_0");
    reveal_strlit("KC_1");
    reveal_strlit("KC_2");
    reveal_strlit("KC_3");
    reveal_strlit("KC_4");
    reveal_strlit("KC_5");
    reveal_strlit("KC_6");
    reveal_strlit("KC_7");
    reveal_strlit("KC_8");
    reveal_strlit("KC_9");
    reveal_strlit("KC_A");
    reveal_strlit("KC_B");
    reveal_strlit("KC_BACKSLASH");
    reveal_strlit("KC_BACKSPACE");
    reveal_strlit("KC_C");
    reveal_strlit("KC_CAPS_LOCK");
    reveal_strlit("KC_COMMA");
    reveal_strlit("KC_D");
    reveal_strlit("KC_DELETE");
    reveal_strlit("KC_DOT");
    reveal_strlit("KC_DOWN");
    reveal_strlit("KC_E");
    reveal_strlit("KC_END");
    reveal_strlit("KC_ENTER");
    reveal_strlit("KC_EQUAL");
    reveal_strlit("KC_ESCAPE");
    reveal_strlit("KC_F");
    reveal_strlit("KC_F1");
    reveal_strlit("KC_F10");
    reveal_strlit("KC_F11");
    reveal_strlit("KC_F12");
    reveal_strlit("KC_F2");
    reveal_strlit("KC_F3");
    reveal_strlit("KC_F4");
    reveal_strlit("KC_F5");
    reveal_strlit("KC_F6");
    reveal_strlit("KC_F7");
    reveal_strlit("KC_F8");
    reveal_strlit("KC_F9");
    reveal_strlit("KC_G");
    reveal_strlit("KC_GRAVE");
    reveal_strlit("KC_H");
    reveal_strlit("KC_HOME");
    reveal_strlit("KC_I");
    reveal_strlit("KC_INSERT");
    reveal_strlit("KC_J");
    reveal_strlit("KC_K");
    reveal_strlit("KC_L");
    reveal_strlit("KC_LEFT");
    reveal_strlit("KC_LEFT_ALT");
    reveal_strlit("KC_LEFT_BRACKET");
    reveal_strlit("KC_LEFT_CTRL");
    reveal_strlit("KC_LEFT_GUI");
    reveal_strlit("KC_LEFT_SHIFT");
    reveal_strlit("KC_M");
    reveal_strlit("KC_MINUS");
    reveal_strlit("KC_N");
    reveal_strlit("KC_NO");
    reveal_strlit("KC_O");
    reveal_strlit("KC_P");
    reveal_strlit("KC_PAGE_DOWN");
    reveal_strlit("KC_PAGE_UP");
    reveal_strlit("KC_Q");
    reveal_strlit("KC_QUOTE");
    reveal_strlit("KC_R");
    reveal_strlit("KC_RIGHT");
    reveal_strlit("KC_RIGHT_ALT");
    reveal_strlit("KC_RIGHT_BRACKET");
    reveal_strlit("KC_RIGHT_CTRL");
    reveal_strlit("KC_RIGHT_GUI");
    reveal_strlit("KC_RIGHT_SHIFT");
    reveal_strlit("KC_S");
    reveal_strlit("KC_SEMICOLON");
    reveal_strlit("KC_SLASH");
    reveal_strlit("KC_SPACE");
    reveal_strlit("KC_T");
    reveal_strlit("KC_TAB");
    reveal_strlit("KC_TRNS");
    reveal_strlit("KC_U");
    reveal_strlit("KC_UP");
    reveal_strlit("KC_V");
    reveal_strlit("KC_W");
    reveal_strlit("KC_X");
    reveal_strlit("KC_Y");
    reveal_strlit("KC_Z");
    reveal_strlit("QK_MACRO_0");
    reveal_strlit("QK_MACRO_1");
    reveal_strlit("QK_MACRO_10");
    reveal_strlit("QK_MACRO_11");
    reveal_strlit("QK_MACRO_12");
    reveal_strlit("QK_MACRO_13");
    reveal_strlit("QK_MACRO_14");
    reveal_strlit("QK_MACRO_15");
    reveal_strlit("QK_MACRO_2");
    reveal_strlit("QK_MACRO_3");
    reveal_strlit("QK_MACRO_4");
    reveal_strlit("QK_MACRO_5");
    reveal_strlit("QK_MACRO_6");
    reveal_strlit("QK_MACRO_7");
    reveal_strlit("QK_MACRO_8");
    reveal_strlit("QK_MACRO_9");
    reveal_strlit("QK_MAGIC_TOGGLE_NKRO");
    reveal_strlit("QK_TRI_LAYER_LOWER");
    reveal_strlit("QK_TRI_LAYER_UPPER");
    assert("KC_0"@.len() == 4);
    assert("KC_1"@.len() == 4);
    assert("KC_2"@.len() == 4);
    assert("KC_3"@.len() == 4);
    assert("KC_4"@.len() == 4);
    assert("KC_5"@.len() == 4);
    assert("KC_6"@.len() == 4);
    assert("KC_7"@.len() == 4);
    assert("KC_8"@.len() == 4);
    assert("KC_9"@.len() == 4);
    assert("KC_A"@.len() == 4);
    assert("KC_B"@.len() == 4);
    assert("KC_BACKSLASH"@.len() == 12);
    assert("KC_BACKSPACE"@.len() == 12);
    assert("KC_C"@.len() == 4);
    assert("KC_CAPS_LOCK"@.len() == 12);
    assert("KC_COMMA"@.len() == 8);
    assert("KC_D"@.len() == 4);
    assert("KC_DELETE"@.len() == 9);
    assert("KC_DOT"@.len() == 6);
    assert("KC_DOWN"@.len() == 7);
    assert("KC_E"@.len() == 4);
    assert("KC_END"@.len() == 6);
    assert("KC_ENTER"@.len() == 8);
    assert("KC_EQUAL"@.len() == 8);
    assert("KC_ESCAPE"@.len() == 9);
    assert("KC_F"@.len() == 4);
    assert("KC_F1"@.len() == 5);
    assert("KC_F10"@.len() == 6);
    assert("KC_F11"@.len() == 6);
    assert("KC_F12"@.len() == 6);
    assert("KC_F2"@.len() == 5);
    assert("KC_F3"@.len() == 5);
    assert("KC_F4"@.len() == 5);
    assert("KC_F5"@.len() == 5);
    assert("KC_F6"@.len() == 5);
    assert("KC_F7"@.len() == 5);
    assert("KC_F8"@.len() == 5);
    assert("KC_F9"@.len() == 5);
    assert("KC_G"@.len() == 4);
    assert("KC_GRAVE"@.len() == 8);
    assert("KC_H"@.len() == 4);
    assert("KC_HOME"@.len() == 7);
    assert("KC_I"@.len() == 4);
    assert("KC_INSERT"@.len() == 9);
    assert("KC_J"@.len() == 4);
    assert("KC_K"@.len() == 4);
    assert("KC_L"@.len() == 4);
    assert("KC_LEFT"@.len() == 7);
    assert("KC_LEFT_ALT"@.len() == 11);
    assert("KC_LEFT_BRACKET"@.len() == 15);
    assert("KC_LEFT_CTRL"@.len() == 12);
    assert("KC_LEFT_GUI"@.len() == 11);
    assert("KC_LEFT_SHIFT"@.len() == 13);
    assert("KC_M"@.len() == 4);
    assert("KC_MINUS"@.len() == 8);
    assert("KC_N"@.len() == 4);
    assert("KC_NO"@.len() == 5);
    assert("KC_O"@.len() == 4);
    assert("KC_P"@.len() == 4);
    assert("KC_PAGE_DOWN"@.len() == 12);
    assert("KC_PAGE_UP"@.len() == 10);
    assert("KC_Q"@.len() == 4);
    assert("KC_QUOTE"@.len() == 8);
    assert("KC_R"@.len() == 4);
    assert("KC_RIGHT"@.len() == 8);
    assert("KC_RIGHT_ALT"@.len() == 12);
    assert("KC_RIGHT_BRACKET"@.len() == 16);
    assert("KC_RIGHT_CTRL"@.len() == 13);
    assert("KC_RIGHT_GUI"@.len() == 12);
    assert("KC_RIGHT_SHIFT"@.len() == 14);
    assert("KC_S"@.len() == 4);
    assert("KC_SEMICOLON"@.len() == 12);
    assert("KC_SLASH"@.len() == 8);
    assert("KC_SPACE"@.len() == 8);
    assert("KC_T"@.len() == 4);
    assert("KC_TAB"@.len() == 6);
    assert("KC_TRNS"@.len() == 7);
    assert("KC_U"@.len() == 4);
    assert("KC_UP"@.len() == 5);
    assert("KC_V"@.len() == 4);
    assert("KC_W"@.len() == 4);
    assert("KC_X"@.len() == 4);
    assert("KC_Y"@.len() == 4);
    assert("KC_Z"@.len() == 4);
    assert("QK_MACRO_0"@.len() == 10);
    assert("QK_MACRO_1"@.len() == 10);
    assert("QK_MACRO_10"@.len() == 11);
    assert("QK_MACRO_11"@.len() == 11);
    assert("QK_MACRO_12"@.len() == 11);
    assert("QK_MACRO_13"@.len() == 11);
    assert("QK_MACRO_14"@.len() == 11);
    assert("QK_MACRO_15"@.len() == 11);
    assert("QK_MACRO_2"@.len() == 10);
    assert("QK_MACRO_3"@.len() == 10);
    assert("QK_MACRO_4"@.len() == 10);
    assert("QK_MACRO_5"@.len() == 10);
    assert("QK_MACRO_6"@.len() == 10);
    assert("QK_MACRO_7"@.len() == 10);
    assert("QK_MACRO_8"@.len() == 10);
    assert("QK_MACRO_9"@.len() == 10);
    assert("QK_MAGIC_TOGGLE_NKRO"@.len() == 20);
    assert("QK_TRI_LAYER_LOWER"@.len() == 18);
    assert("QK_TRI_LAYER_UPPER"@.len() == 18);
    seq_ne_at("KC_BACKSLASH"@, "KC_LEFT_CTRL"@, 3);
    seq_ne_at("KC_BACKSLASH"@, "KC_RIGHT_ALT"@, 3);
    seq_ne_at("KC_BACKSLASH"@, "KC_RIGHT_GUI"@, 3);
    seq_ne_at("KC_BACKSPACE"@, "KC_LEFT_CTRL"@, 3);
    seq_ne_at("KC_BACKSPACE"@, "KC_RIGHT_ALT"@, 3);
    seq_ne_at("KC_BACKSPACE"@, "KC_RIGHT_GUI"@, 3);
    seq_ne_at("KC_CAPS_LOCK"@, "KC_LEFT_CTRL"@, 3);
    seq_ne_at("KC_CAPS_LOCK"@, "KC_RIGHT_ALT"@, 3);
    seq_ne_at("KC_CAPS_LOCK"@, "KC_RIGHT_GUI"@, 3);
    seq_ne_at("KC_LEFT_ALT"@, "KC_LEFT_GUI"@, 8);
    seq_ne_at("KC_LEFT_ALT"@, "QK_MACRO_10"@, 0);
    seq_ne_at("KC_LEFT_ALT"@, "QK_MACRO_11"@, 0);
    seq_ne_at("KC_LEFT_ALT"@, "QK_MACRO_12"@, 0);
    seq_ne_at("KC_LEFT_ALT"@, "QK_MACRO_13"@, 0);
    seq_ne_at("KC_LEFT_ALT"@, "QK_MACRO_14"@, 0);
    seq_ne_at("KC_LEFT_ALT"@, "QK_MACRO_15"@, 0);
    seq_ne_at("KC_LEFT_CTRL"@, "KC_PAGE_DOWN"@, 3);
    seq_ne_at("KC_LEFT_CTRL"@, "KC_RIGHT_ALT"@, 3);
    seq_ne_at("KC_LEFT_CTRL"@, "KC_RIGHT_GUI"@, 3);
    seq_ne_at("KC_LEFT_CTRL"@, "KC_SEMICOLON"@, 3);
    seq_ne_at("KC_LEFT_GUI"@, "QK_MACRO_10"@, 0);
    seq_ne_at("KC_LEFT_GUI"@, "QK_MACRO_11"@, 0);
    seq_ne_at("KC_LEFT_GUI"@, "QK_MACRO_12"@, 0);
    seq_ne_at("KC_LEFT_GUI"@, "QK_MACRO_13"@, 0);
    seq_ne_at("KC_LEFT_GUI"@, "QK_MACRO_14"@, 0);
    seq_ne_at("KC_LEFT_GUI"@, "QK_MACRO_15"@, 0);
    seq_ne_at("KC_LEFT_SHIFT"@, "KC_RIGHT_CTRL"@, 3);
    seq_ne_at("KC_PAGE_DOWN"@, "KC_RIGHT_ALT"@, 3);
    seq_ne_at("KC_PAGE_DOWN"@, "KC_RIGHT_GUI"@, 3);
    seq_ne_at("KC_RIGHT_ALT"@, "KC_RIGHT_GUI"@, 9);
    seq_ne_at("KC_RIGHT_ALT"@, "KC_SEMICOLON"@, 3);
    seq_ne_at("KC_RIGHT_GUI"@, "KC_SEMICOLON"@, 3);
}

#[verifier::rlimit(100)]
#[verifier::spinoff_prover]
proof fn lemma_exact_extra_current(k: u16)
    requires
        names::extra_cur_name_of(k) is Some,
    ensures
        table_id_of(names::extra_cur_name_of(k).unwrap(), Generation::Current) == Some(k),
{
    reveal_strlit("QK_MACRO_0");
    reveal_strlit("QK_MACRO_1");
    reveal_strlit("QK_MACRO_10");
    reveal_strlit("QK_MACRO_11");
    reveal_strlit("QK_MACRO_12");
    reveal_strlit("QK_MACRO_13");
    reveal_strlit("QK_MACRO_14");
    reveal_strlit("QK_MACRO_15");
    reveal_strlit("QK_MACRO_2");
    reveal_strlit("QK_MACRO_3");
    reveal_strlit("QK_MACRO_4");
    reveal_strlit("QK_MACRO_5");
    reveal_strlit("QK_MACRO_6");
    reveal_strlit("QK_MACRO_7");
    reveal_strlit("QK_MACRO_8");
    reveal_strlit("QK_MACRO_9");
    reveal_strlit("QK_MAGIC_TOGGLE_NKRO");
    reveal_strlit("QK_TRI_LAYER_LOWER");
    reveal_strlit("QK_TRI_LAYER_UPPER");
    assert("QK_MACRO_0"@.len() == 10);
    assert("QK_MACRO_1"@.len() == 10);
    assert("QK_MACRO_10"@.len() == 11);
    assert("QK_MACRO_11"@.len() == 11);
    assert("QK_MACRO_12"@.len() == 11);
    assert("QK_MACRO_13"@.len() == 11);
    assert("QK_MACRO_14"@.len() == 11);
    assert("QK_MACRO_15"@.len() == 11);
    assert("QK_MACRO_2"@.len() == 10);
    assert("QK_MACRO_3"@.len() == 10);
    assert("QK_MACRO_4"@.len() == 10);
    assert("QK_MACRO_5"@.len() == 10);
    assert("QK_MACRO_6"@.len() == 10);
    assert("QK_MACRO_7"@.len() == 10);
    assert("QK_MACRO_8"@.len() == 10);
    assert("QK_MACRO_9"@.len() == 10);
    assert("QK_MAGIC_TOGGLE_NKRO"@.len() == 20);
    assert("QK_TRI_LAYER_LOWER"@.len() == 18);
    assert("QK_TRI_LAYER_UPPER"@.len() == 18);
    seq_ne_at("QK_MACRO_0"@, "QK_MACRO_1"@, 9);
    seq_ne_at("QK_MACRO_0"@, "QK_MACRO_2"@, 9);
    seq_ne_at("QK_MACRO_0"@, "QK_MACRO_3"@, 9);
    seq_ne_at("QK_MACRO_0"@, "QK_MACRO_4"@, 9);
    seq_ne_at("QK_MACRO_0"@, "QK_MACRO_5"@, 9);
    seq_ne_at("QK_MACRO_0"@, "QK_MACRO_6"@, 9);
    seq_ne_at("QK_MACRO_0"@, "QK_MACRO_7"@, 9);
    seq_ne_at("QK_MACRO_0"@, "QK_MACRO_8"@, 9);
    seq_ne_at("QK_MACRO_0"@, "QK_MACRO_9"@, 9);
    seq_ne_at("QK_MACRO_1"@, "QK_MACRO_2"@, 9);
    seq_ne_at("QK_MACRO_1"@, "QK_MACRO_3"@, 9);
    seq_ne_at("QK_MACRO_1"@, "QK_MACRO_4"@, 9);
    seq_ne_at("QK_MACRO_1"@, "QK_MACRO_5"@, 9);
    seq_ne_at("QK_MACRO_1"@, "QK_MACRO_6"@, 9);
    seq_ne_at("QK_MACRO_1"@, "QK_MACRO_7"@, 9);
    seq_ne_at("QK_MACRO_1"@, "QK_MACRO_8"@, 9);
    seq_ne_at("QK_MACRO_1"@, "QK_MACRO_9"@, 9);
    seq_ne_at("QK_MACRO_10"@, "QK_MACRO_11"@, 10);
    seq_ne_at("QK_MACRO_10"@, "QK_MACRO_12"@, 10);
    seq_ne_at("QK_MACRO_10"@, "QK_MACRO_13"@, 10);
    seq_ne_at("QK_MACRO_10"@, "QK_MACRO_14"@, 10);
    seq_ne_at("QK_MACRO_10"@, "QK_MACRO_15"@, 10);
    seq_ne_at("QK_MACRO_11"@, "QK_MACRO_12"@, 10);
    seq_ne_at("QK_MACRO_11"@, "QK_MACRO_13"@, 10);
    seq_ne_at("QK_MACRO_11"@, "QK_MACRO_14"@, 10);
    seq_ne_at("QK_MACRO_11"@, "QK_MACRO_15"@, 10);
    seq_ne_at("QK_MACRO_12"@, "QK_MACRO_13"@, 10);
    seq_ne_at("QK_MACRO_12"@, "QK_MACRO_14"@, 10);
    seq_ne_at("QK_MACRO_12"@, "QK_MACRO_15"@, 10);
    seq_ne_at("QK_MACRO_13"@, "QK_MACRO_14"@, 10);
    seq_ne_at("QK_MACRO_13"@, "QK_MACRO_15"@, 10);
    seq_ne_at("QK_MACRO_14"@, "QK_MACRO_15"@, 10);
    seq_ne_at("QK_MACRO_2"@, "QK_MACRO_3"@, 9);
    seq_ne_at("QK_MACRO_2"@, "QK_MACRO_4"@, 9);
    seq_ne_at("QK_MACRO_2"@, "QK_MACRO_5"@, 9);
    seq_ne_at("QK_MACRO_2"@, "QK_MACRO_6"@, 9);
    seq_ne_at("QK_MACRO_2"@, "QK_MACRO_7"@, 9);
    seq_ne_at("QK_MACRO_2"@, "QK_MACRO_8"@, 9);
    seq_ne_at("QK_MACRO_2"@, "QK_MACRO_9"@, 9);
    seq_ne_at("QK_MACRO_3"@, "QK_MACRO_4"@, 9);
    seq_ne_at("QK_MACRO_3"@, "QK_MACRO_5"@, 9);
    seq_ne_at("QK_MACRO_3"@, "QK_MACRO_6"@, 9);
    seq_ne_at("QK_MACRO_3"@, "QK_MACRO_7"@, 9);
    seq_ne_at("QK_MACRO_3"@, "QK_MACRO_8"@, 9);
    seq_ne_at("QK_MACRO_3"@, "QK_MACRO_9"@, 9);
    seq_ne_at("QK_MACRO_4"@, "QK_MACRO_5"@, 9);
    seq_ne_at("QK_MACRO_4"@, "QK_MACRO_6"@, 9);
    seq_ne_at("QK_MACRO_4"@, "QK_MACRO_7"@, 9);
    seq_ne_at("QK_MACRO_4"@, "QK_MACRO_8"@, 9);
    seq_ne_at("QK_MACRO_4"@, "QK_MACRO_9"@, 9);
    seq_ne_at("QK_MACRO_5"@, "QK_MACRO_6"@, 9);
    seq_ne_at("QK_MACRO_5"@, "QK_MACRO_7"@, 9);
    seq_ne_at("QK_MACRO_5"@, "QK_MACRO_8"@, 9);
    seq_ne_at("QK_MACRO_5"@, "QK_MACRO_9"@, 9);
    seq_ne_at("QK_MACRO_6"@, "QK_MACRO_7"@, 9);
    seq_ne_at("QK_MACRO_6"@, "QK_MACRO_8"@, 9);
    seq_ne_at("QK_MACRO_6"@, "QK_MACRO_9"@, 9);
    seq_ne_at("QK_MACRO_7"@, "QK_MACRO_8"@, 9);
    seq_ne_at("QK_MACRO_7"@, "QK_MACRO_9"@, 9);
    seq_ne_at("QK_MACRO_8"@, "QK_MACRO_9"@, 9);
    seq_ne_at("QK_TRI_LAYER_LOWER"@, "QK_TRI_LAYER_UPPER"@, 13);
}

#[verifier::rlimit(100)]
#[verifier::spinoff_prover]
proof fn lemma_exact_extra_legacy(k: u16)
    requires
        names::extra_leg_name_of(k) is Some,
    ensures
        table_id_of(names::extra_leg_name_of(k).unwrap(), Generation::Legacy) == Some(k),
{
    reveal_strlit("QK_MACRO_0");
    reveal_strlit("QK_MACRO_1");
    reveal_strlit("QK_MACRO_10");
    reveal_strlit("QK_MACRO_11");
    reveal_strlit("QK_MACRO_12");
    reveal_strlit("QK_MACRO_13");
    reveal_strlit("QK_MACRO_14");
    reveal_strlit("QK_MACRO_15");
    reveal_strlit("QK_MACRO_2");
    reveal_strlit("QK_MACRO_3");
    reveal_strlit("QK_MACRO_4");
    reveal_strlit("QK_MACRO_5");
    reveal_strlit("QK_MACRO_6");
    reveal_strlit("QK_MACRO_7");
    reveal_strlit("QK_MACRO_8");
    reveal_strlit("QK_MACRO_9");
    reveal_strlit("QK_MAGIC_TOGGLE_NKRO");
    reveal_strlit("QK_TRI_LAYER_LOWER");
    reveal_strlit("QK_TRI_LAYER_UPPER");
    assert("QK_MACRO_0"@.len() == 10);
    assert("QK_MACRO_1"@.len() == 10);
    assert("QK_MACRO_10"@.len() == 11);
    assert("QK_MACRO_11"@.len() == 11);
    assert("QK_MACRO_12"@.len() == 11);
    assert("QK_MACRO_13"@.len() == 11);
    assert("QK_MACRO_14"@.len() == 11);
    assert("QK_MACRO_15"@.len() == 11);
    assert("QK_MACRO_2"@.len() == 10);
    assert("QK_MACRO_3"@.len() == 10);
    assert("QK_MACRO_4"@.len() == 10);
    assert("QK_MACRO_5"@.len() == 10);
    assert("QK_MACRO_6"@.len() == 10);
    assert("QK_MACRO_7"@.len() == 10);
    assert("QK_MACRO_8"@.len() == 10);
    assert("QK_MACRO_9"@.len() == 10);
    assert("QK_MAGIC_TOGGLE_NKRO"@.len() == 20);
    assert("QK_TRI_LAYER_LOWER"@.len() == 18);
    assert("QK_TRI_LAYER_UPPER"@.len() == 18);
    seq_ne_at("QK_MACRO_0"@, "QK_MACRO_1"@, 9);
    seq_ne_at("QK_MACRO_0"@, "QK_MACRO_2"@, 9);
    seq_ne_at("QK_MACRO_0"@, "QK_MACRO_3"@, 9);
    seq_ne_at("QK_MACRO_0"@, "QK_MACRO_4"@, 9);
    seq_ne_at("QK_MACRO_0"@, "QK_MACRO_5"@, 9);
    seq_ne_at("QK_MACRO_0"@, "QK_MACRO_6"@, 9);
    seq_ne_at("QK_MACRO_0"@, "QK_MACRO_7"@, 9);
    seq_ne_at("QK_MACRO_0"@, "QK_MACRO_8"@, 9);
    seq_ne_at("QK_MACRO_0"@, "QK_MACRO_9"@, 9);
    seq_ne_at("QK_MACRO_1"@, "QK_MACRO_2"@, 9);
    seq_ne_at("QK_MACRO_1"@, "QK_MACRO_3"@, 9);
    seq_ne_at("QK_MACRO_1"@, "QK_MACRO_4"@, 9);
    seq_ne_at("QK_MACRO_1"@, "QK_MACRO_5"@, 9);
    seq_ne_at("QK_MACRO_1"@, "QK_MACRO_6"@, 9);
    seq_ne_at("QK_MACRO_1"@, "QK_MACRO_7"@, 9);
    seq_ne_at("QK_MACRO_1"@, "QK_MACRO_8"@, 9);
    seq_ne_at("QK_MACRO_1"@, "QK_MACRO_9"@, 9);
    seq_ne_at("QK_MACRO_10"@, "QK_MACRO_11"@, 10);
    seq_ne_at("QK_MACRO_10"@, "QK_MACRO_12"@, 10);
    seq_ne_at("QK_MACRO_10"@, "QK_MACRO_13"@, 10);
    seq_ne_at("QK_MACRO_10"@, "QK_MACRO_14"@, 10);
    seq_ne_at("QK_MACRO_10"@, "QK_MACRO_15"@, 10);
    seq_ne_at("QK_MACRO_11"@, "QK_MACRO_12"@, 10);
    seq_ne_at("QK_MACRO_11"@, "QK_MACRO_13"@, 10);
    seq_ne_at("QK_MACRO_11"@, "QK_MACRO_14"@, 10);
    seq_ne_at("QK_MACRO_11"@, "QK_MACRO_15"@, 10);
    seq_ne_at("QK_MACRO_12"@, "QK_MACRO_13"@, 10);
    seq_ne_at("QK_MACRO_12"@, "QK_MACRO_14"@, 10);
    seq_ne_at("QK_MACRO_12"@, "QK_MACRO_15"@, 10);
    seq_ne_at("QK_MACRO_13"@, "QK_MACRO_14"@, 10);
    seq_ne_at("QK_MACRO_13"@, "QK_MACRO_15"@, 10);
    seq_ne_at("QK_MACRO_14"@, "QK_MACRO_15"@, 10);
    seq_ne_at("QK_MACRO_2"@, "QK_MACRO_3"@, 9);
    seq_ne_at("QK_MACRO_2"@, "QK_MACRO_4"@, 9);
    seq_ne_at("QK_MACRO_2"@, "QK_MACRO_5"@, 9);
    seq_ne_at("QK_MACRO_2"@, "QK_MACRO_6"@, 9);
    seq_ne_at("QK_MACRO_2"@, "QK_MACRO_7"@, 9);
    seq_ne_at("QK_MACRO_2"@, "QK_MACRO_8"@, 9);
    seq_ne_at("QK_MACRO_2"@, "QK_MACRO_9"@, 9);
    seq_ne_at("QK_MACRO_3"@, "QK_MACRO_4"@, 9);
    seq_ne_at("QK_MACRO_3"@, "QK_MACRO_5"@, 9);
    seq_ne_at("QK_MACRO_3"@, "QK_MACRO_6"@, 9);
    seq_ne_at("QK_MACRO_3"@, "QK_MACRO_7"@, 9);
    seq_ne_at("QK_MACRO_3"@, "QK_MACRO_8"@, 9);
    seq_ne_at("QK_MACRO_3"@, "QK_MACRO_9"@, 9);
    seq_ne_at("QK_MACRO_4"@, "QK_MACRO_5"@, 9);
    seq_ne_at("QK_MACRO_4"@, "QK_MACRO_6"@, 9);
    seq_ne_at("QK_MACRO_4"@, "QK_MACRO_7"@, 9);
    seq_ne_at("QK_MACRO_4"@, "QK_MACRO_8"@, 9);
    seq_ne_at("QK_MACRO_4"@, "QK_MACRO_9"@, 9);
    seq_ne_at("QK_MACRO_5"@, "QK_MACRO_6"@, 9);
    seq_ne_at("QK_MACRO_5"@, "QK_MACRO_7"@, 9);
    seq_ne_at("QK_MACRO_5"@, "QK_MACRO_8"@, 9);
    seq_ne_at("QK_MACRO_5"@, "QK_MACRO_9"@, 9);
    seq_ne_at("QK_MACRO_6"@, "QK_MACRO_7"@, 9);
    seq_ne_at("QK_MACRO_6"@, "QK_MACRO_8"@, 9);
    seq_ne_at("QK_MACRO_6"@, "QK_MACRO_9"@, 9);
    seq_ne_at("QK_MACRO_7"@, "QK_MACRO_8"@, 9);
    seq_ne_at("QK_MACRO_7"@, "QK_MACRO_9"@, 9);
    seq_ne_at("QK_MACRO_8"@, "QK_MACRO_9"@, 9);
    seq_ne_at("QK_TRI_LAYER_LOWER"@, "QK_TRI_LAYER_UPPER"@, 13);
}

/// Every canonical name resolves to exactly its own id: the printed name
/// of a table id parses back to the same id, in either generation.
pub proof fn lemma_table_exact_round_trip(g: Generation, k: u16)
    requires
        canonical_name_of(k, g) is Some,
    ensures
        qid_name_spec(k, g) == canonical_name_of(k, g).unwrap(),
        name_to_qid_spec(qid_name_spec(k, g), g) == Some(k),
{
    lemma_table_id_prints_plain(g, k);
    lemma_canonical_plain(g, k);
    let n = canonical_name_of(k, g).unwrap();
    lemma_plain_resolution(n, g);
    if g == Generation::Current {
        if names::extra_cur_name_of(k) is Some {
            lemma_exact_extra_current(k);
        } else if names::letter_name_of(k) is Some {
            lemma_exact_letter_current(k);
        } else if names::digit_name_of(k) is Some {
            lemma_exact_digit_current(k);
        } else if names::named_name_of(k) is Some {
            lemma_exact_named_current(k);
        } else if names::fkey_name_of(k) is Some {
            lemma_exact_fkey_current(k);
        } else {
            lemma_exact_modkey_current(k);
        }
    } else {
        if names::extra_leg_name_of(k) is Some {
            lemma_exact_extra_legacy(k);
        } else if names::letter_name_of(k) is Some {
            lemma_exact_letter_legacy(k);
        } else if names::digit_name_of(k) is Some {
            lemma_exact_digit_legacy(k);
        } else if names::named_name_of(k) is Some {
            lemma_exact_named_legacy(k);
        } else if names::fkey_name_of(k) is Some {
            lemma_exact_fkey_legacy(k);
        } else {
            lemma_exact_modkey_legacy(k);
        }
    }
}


/// The single- and multi-modifier wrapper forms round-trip whenever the
/// wrapped key is a table key: the printed `FORM(KEY)` text of such an
/// id resolves back to exactly that id.
#[verifier::rlimit(100)]
#[verifier::spinoff_prover]
pub proof fn lemma_mod_wrap_round_trip(g: Generation, k: u16)
    requires
        wrap_form_name(k) is Some,
        canonical_name_of((k & 0xFF) as u16, g) is Some,
    ensures
        name_to_qid_spec(qid_name_spec(k, g), g) == Some(k),
{
    reveal_strlit("A");
    reveal_strlit("ALGR");
    reveal_strlit("C");
    reveal_strlit("G");
    reveal_strlit("HYPR");
    reveal_strlit("LAG");
    reveal_strlit("LALT");
    reveal_strlit("LCA");
    reveal_strlit("LCAG");
    reveal_strlit("LCMD");
    reveal_strlit("LCTL");
    reveal_strlit("LGUI");
    reveal_strlit("LOPT");
    reveal_strlit("LSA");
    reveal_strlit("LSFT");
    reveal_strlit("LSG");
    reveal_strlit("LWIN");
    reveal_strlit("MEH");
    reveal_strlit("QK_LALT");
    reveal_strlit("QK_LCTL");
    reveal_strlit("QK_LGUI");
    reveal_strlit("QK_LSFT");
    reveal_strlit("QK_RALT");
    reveal_strlit("QK_RCTL");
    reveal_strlit("QK_RGUI");
    reveal_strlit("QK_RSFT");
    reveal_strlit("RAG");
    reveal_strlit("RALT");
    reveal_strlit("RCMD");
    reveal_strlit("RCS");
    reveal_strlit("RCTL");
    reveal_strlit("RGUI");
    reveal_strlit("ROPT");
    reveal_strlit("RSA");
    reveal_strlit("RSFT");
    reveal_strlit("RSG");
    reveal_strlit("RWIN");
    reveal_strlit("S");
    reveal_strlit("SAGR");
    reveal_strlit("SCMD");
    reveal_strlit("SGUI");
    reveal_strlit("SWIN");
    reveal_strlit("(");
    reveal_strlit(")");
    assert("A"@.len() == 1);
    assert("ALGR"@.len() == 4);
    assert("C"@.len() == 1);
    assert("G"@.len() == 1);
    assert("HYPR"@.len() == 4);
    assert("LAG"@.len() == 3);
    assert("LALT"@.len() == 4);
    assert("LCA"@.len() == 3);
    assert("LCAG"@.len() == 4);
    assert("LCMD"@.len() == 4);
    assert("LCTL"@.len() == 4);
    assert("LGUI"@.len() == 4);
    assert("LOPT"@.len() == 4);
    assert("LSA"@.len() == 3);
    assert("LSFT"@.len() == 4);
    assert("LSG"@.len() == 3);
    assert("LWIN"@.len() == 4);
    assert("MEH"@.len() == 3);
    assert("QK_LALT"@.len() == 7);
    assert("QK_LCTL"@.len() == 7);
    assert("QK_LGUI"@.len() == 7);
    assert("QK_LSFT"@.len() == 7);
    assert("QK_RALT"@.len() == 7);
    assert("QK_RCTL"@.len() == 7);
    assert("QK_RGUI"@.len() == 7);
    assert("QK_RSFT"@.len() == 7);
    assert("RAG"@.len() == 3);
    assert("RALT"@.len() == 4);
    assert("RCMD"@.len() == 4);
    assert("RCS"@.len() == 3);
    assert("RCTL"@.len() == 4);
    assert("RGUI"@.len() == 4);
    assert("ROPT"@.len() == 4);
    assert("RSA"@.len() == 3);
    assert("RSFT"@.len() == 4);
    assert("RSG"@.len() == 3);
    assert("RWIN"@.len() == 4);
    assert("S"@.len() == 1);
    assert("SAGR"@.len() == 4);
    assert("SCMD"@.len() == 4);
    assert("SGUI"@.len() == 4);
    assert("SWIN"@.len() == 4);
    seq_ne_at("ALGR"@, "HYPR"@, 0);
    seq_ne_at("ALGR"@, "LALT"@, 0);
    seq_ne_at("ALGR"@, "LCAG"@, 0);
    seq_ne_at("ALGR"@, "LCTL"@, 0);
    seq_ne_at("ALGR"@, "LGUI"@, 0);
    seq_ne_at("ALGR"@, "LSFT"@, 0);
    seq_ne_at("ALGR"@, "RALT"@, 0);
    seq_ne_at("ALGR"@, "RCTL"@, 0);
    seq_ne_at("ALGR"@, "RGUI"@, 0);
    seq_ne_at("ALGR"@, "RSFT"@, 0);
    seq_ne_at("HYPR"@, "LALT"@, 0);
    seq_ne_at("HYPR"@, "LCAG"@, 0);
    seq_ne_at("HYPR"@, "LCMD"@, 0);
    seq_ne_at("HYPR"@, "LCTL"@, 0);
    seq_ne_at("HYPR"@, "LGUI"@, 0);
    seq_ne_at("HYPR"@, "LOPT"@, 0);
    seq_ne_at("HYPR"@, "LSFT"@, 0);
    seq_ne_at("HYPR"@, "LWIN"@, 0);
    seq_ne_at("HYPR"@, "RALT"@, 0);
    seq_ne_at("HYPR"@, "RCMD"@, 0);
    seq_ne_at("HYPR"@, "RCTL"@, 0);
    seq_ne_at("HYPR"@, "RGUI"@, 0);
    seq_ne_at("HYPR"@, "ROPT"@, 0);
    seq_ne_at("HYPR"@, "RSFT"@, 0);
    seq_ne_at("HYPR"@, "RWIN"@, 0);
    seq_ne_at("HYPR"@, "SAGR"@, 0);
    seq_ne_at("HYPR"@, "SCMD"@, 0);
    seq_ne_at("HYPR"@, "SGUI"@, 0);
    seq_ne_at("HYPR"@, "SWIN"@, 0);
    seq_ne_at("LAG"@, "LCA"@, 1);
    seq_ne_at("LAG"@, "LSA"@, 1);
    seq_ne_at("LAG"@, "LSG"@, 1);
    seq_ne_at("LAG"@, "MEH"@, 0);
    seq_ne_at("LAG"@, "RAG"@, 0);
    seq_ne_at("LAG"@, "RCS"@, 0);
    seq_ne_at("LAG"@, "RSA"@, 0);
    seq_ne_at("LAG"@, "RSG"@, 0);
    seq_ne_at("LALT"@, "LCAG"@, 1);
    seq_ne_at("LALT"@, "LCMD"@, 1);
    seq_ne_at("LALT"@, "LCTL"@, 1);
    seq_ne_at("LALT"@, "LGUI"@, 1);
    seq_ne_at("LALT"@, "LOPT"@, 1);
    seq_ne_at("LALT"@, "LSFT"@, 1);
    seq_ne_at("LALT"@, "LWIN"@, 1);
    seq_ne_at("LALT"@, "RALT"@, 0);
    seq_ne_at("LALT"@, "RCMD"@, 0);
    seq_ne_at("LALT"@, "RCTL"@, 0);
    seq_ne_at("LALT"@, "RGUI"@, 0);
    seq_ne_at("LALT"@, "ROPT"@, 0);
    seq_ne_at("LALT"@, "RSFT"@, 0);
    seq_ne_at("LALT"@, "RWIN"@, 0);
    seq_ne_at("LALT"@, "SAGR"@, 0);
    seq_ne_at("LALT"@, "SCMD"@, 0);
    seq_ne_at("LALT"@, "SGUI"@, 0);
    seq_ne_at("LALT"@, "SWIN"@, 0);
    seq_ne_at("LCA"@, "LSA"@, 1);
    seq_ne_at("LCA"@, "LSG"@, 1);
    seq_ne_at("LCA"@, "MEH"@, 0);
    seq_ne_at("LCA"@, "RAG"@, 0);
    seq_ne_at("LCA"@, "RCS"@, 0);
    seq_ne_at("LCA"@, "RSA"@, 0);
    seq_ne_at("LCA"@, "RSG"@, 0);
    seq_ne_at("LCAG"@, "LCMD"@, 2);
    seq_ne_at("LCAG"@, "LCTL"@, 2);
    seq_ne_at("LCAG"@, "LGUI"@, 1);
    seq_ne_at("LCAG"@, "LOPT"@, 1);
    seq_ne_at("LCAG"@, "LSFT"@, 1);
    seq_ne_at("LCAG"@, "LWIN"@, 1);
    seq_ne_at("LCAG"@, "RALT"@, 0);
    seq_ne_at("LCAG"@, "RCMD"@, 0);
    seq_ne_at("LCAG"@, "RCTL"@, 0);
    seq_ne_at("LCAG"@, "RGUI"@, 0);
    seq_ne_at("LCAG"@, "ROPT"@, 0);
    seq_ne_at("LCAG"@, "RSFT"@, 0);
    seq_ne_at("LCAG"@, "RWIN"@, 0);
    seq_ne_at("LCAG"@, "SAGR"@, 0);
    seq_ne_at("LCAG"@, "SCMD"@, 0);
    seq_ne_at("LCAG"@, "SGUI"@, 0);
    seq_ne_at("LCAG"@, "SWIN"@, 0);
    seq_ne_at("LCMD"@, "LCTL"@, 2);
    seq_ne_at("LCMD"@, "LGUI"@, 1);
    seq_ne_at("LCMD"@, "LSFT"@, 1);
    seq_ne_at("LCMD"@, "RALT"@, 0);
    seq_ne_at("LCMD"@, "RCTL"@, 0);
    seq_ne_at("LCMD"@, "RGUI"@, 0);
    seq_ne_at("LCMD"@, "RSFT"@, 0);
    seq_ne_at("LCTL"@, "LGUI"@, 1);
    seq_ne_at("LCTL"@, "LOPT"@, 1);
    seq_ne_at("LCTL"@, "LSFT"@, 1);
    seq_ne_at("LCTL"@, "LWIN"@, 1);
    seq_ne_at("LCTL"@, "RALT"@, 0);
    seq_ne_at("LCTL"@, "RCMD"@, 0);
    seq_ne_at("LCTL"@, "RCTL"@, 0);
    seq_ne_at("LCTL"@, "RGUI"@, 0);
    seq_ne_at("LCTL"@, "ROPT"@, 0);
    seq_ne_at("LCTL"@, "RSFT"@, 0);
    seq_ne_at("LCTL"@, "RWIN"@, 0);
    seq_ne_at("LCTL"@, "SAGR"@, 0);
    seq_ne_at("LCTL"@, "SCMD"@, 0);
    seq_ne_at("LCTL"@, "SGUI"@, 0);
    seq_ne_at("LCTL"@, "SWIN"@, 0);
    seq_ne_at("LGUI"@, "LOPT"@, 1);
    seq_ne_at("LGUI"@, "LSFT"@, 1);
    seq_ne_at("LGUI"@, "LWIN"@, 1);
    seq_ne_at("LGUI"@, "RALT"@, 0);
    seq_ne_at("LGUI"@, "RCMD"@, 0);
    seq_ne_at("LGUI"@, "RCTL"@, 0);
    seq_ne_at("LGUI"@, "RGUI"@, 0);
    seq_ne_at("LGUI"@, "ROPT"@, 0);
    seq_ne_at("LGUI"@, "RSFT"@, 0);
    seq_ne_at("LGUI"@, "RWIN"@, 0);
    seq_ne_at("LGUI"@, "SAGR"@, 0);
    seq_ne_at("LGUI"@, "SCMD"@, 0);
    seq_ne_at("LGUI"@, "SGUI"@, 0);
    seq_ne_at("LGUI"@, "SWIN"@, 0);
    seq_ne_at("LOPT"@, "LSFT"@, 1);
    seq_ne_at("LOPT"@, "RALT"@, 0);
    seq_ne_at("LOPT"@, "RCTL"@, 0);
    seq_ne_at("LOPT"@, "RGUI"@, 0);
    seq_ne_at("LOPT"@, "RSFT"@, 0);
    seq_ne_at("LSA"@, "LSG"@, 2);
    seq_ne_at("LSA"@, "MEH"@, 0);
    seq_ne_at("LSA"@, "RAG"@, 0);
    seq_ne_at("LSA"@, "RCS"@, 0);
    seq_ne_at("LSA"@, "RSA"@, 0);
    seq_ne_at("LSA"@, "RSG"@, 0);
    seq_ne_at("LSFT"@, "LWIN"@, 1);
    seq_ne_at("LSFT"@, "RALT"@, 0);
    seq_ne_at("LSFT"@, "RCMD"@, 0);
    seq_ne_at("LSFT"@, "RCTL"@, 0);
    seq_ne_at("LSFT"@, "RGUI"@, 0);
    seq_ne_at("LSFT"@, "ROPT"@, 0);
    seq_ne_at("LSFT"@, "RSFT"@, 0);
    seq_ne_at("LSFT"@, "RWIN"@, 0);
    seq_ne_at("LSFT"@, "SAGR"@, 0);
    seq_ne_at("LSFT"@, "SCMD"@, 0);
    seq_ne_at("LSFT"@, "SGUI"@, 0);
    seq_ne_at("LSFT"@, "SWIN"@, 0);
    seq_ne_at("LSG"@, "MEH"@, 0);
    seq_ne_at("LSG"@, "RAG"@, 0);
    seq_ne_at("LSG"@, "RCS"@, 0);
    seq_ne_at("LSG"@, "RSA"@, 0);
    seq_ne_at("LSG"@, "RSG"@, 0);
    seq_ne_at("LWIN"@, "RALT"@, 0);
    seq_ne_at("LWIN"@, "RCTL"@, 0);
    seq_ne_at("LWIN"@, "RGUI"@, 0);
    seq_ne_at("LWIN"@, "RSFT"@, 0);
    seq_ne_at("MEH"@, "RAG"@, 0);
    seq_ne_at("MEH"@, "RCS"@, 0);
    seq_ne_at("MEH"@, "RSA"@, 0);
    seq_ne_at("MEH"@, "RSG"@, 0);
    seq_ne_at("RAG"@, "RCS"@, 1);
    seq_ne_at("RAG"@, "RSA"@, 1);
    seq_ne_at("RAG"@, "RSG"@, 1);
    seq_ne_at("RALT"@, "RCMD"@, 1);
    seq_ne_at("RALT"@, "RCTL"@, 1);
    seq_ne_at("RALT"@, "RGUI"@, 1);
    seq_ne_at("RALT"@, "ROPT"@, 1);
    seq_ne_at("RALT"@, "RSFT"@, 1);
    seq_ne_at("RALT"@, "RWIN"@, 1);
    seq_ne_at("RALT"@, "SAGR"@, 0);
    seq_ne_at("RALT"@, "SCMD"@, 0);
    seq_ne_at("RALT"@, "SGUI"@, 0);
    seq_ne_at("RALT"@, "SWIN"@, 0);
    seq_ne_at("RCMD"@, "RCTL"@, 2);
    seq_ne_at("RCMD"@, "RGUI"@, 1);
    seq_ne_at("RCMD"@, "RSFT"@, 1);
    seq_ne_at("RCS"@, "RSA"@, 1);
    seq_ne_at("RCS"@, "RSG"@, 1);
    seq_ne_at("RCTL"@, "RGUI"@, 1);
    seq_ne_at("RCTL"@, "ROPT"@, 1);
    seq_ne_at("RCTL"@, "RSFT"@, 1);
    seq_ne_at("RCTL"@, "RWIN"@, 1);
    seq_ne_at("RCTL"@, "SAGR"@, 0);
    seq_ne_at("RCTL"@, "SCMD"@, 0);
    seq_ne_at("RCTL"@, "SGUI"@, 0);
    seq_ne_at("RCTL"@, "SWIN"@, 0);
    seq_ne_at("RGUI"@, "ROPT"@, 1);
    seq_ne_at("RGUI"@, "RSFT"@, 1);
    seq_ne_at("RGUI"@, "RWIN"@, 1);
    seq_ne_at("RGUI"@, "SAGR"@, 0);
    seq_ne_at("RGUI"@, "SCMD"@, 0);
    seq_ne_at("RGUI"@, "SGUI"@, 0);
    seq_ne_at("RGUI"@, "SWIN"@, 0);
    seq_ne_at("ROPT"@, "RSFT"@, 1);
    seq_ne_at("RSA"@, "RSG"@, 2);
    seq_ne_at("RSFT"@, "RWIN"@, 1);
    seq_ne_at("RSFT"@, "SAGR"@, 0);
    seq_ne_at("RSFT"@, "SCMD"@, 0);
    seq_ne_at("RSFT"@, "SGUI"@, 0);
    seq_ne_at("RSFT"@, "SWIN"@, 0);
    let low: u16 = (k & 0xFF) as u16;
    let fname = wrap_form_name(k).unwrap();
    lemma_table_id_prints_plain(g, low);
    lemma_canonical_plain(g, low);
    let inner = canonical_name_of(low, g).unwrap();
    assert(base_key_name(low, g) == inner);
    let n = qid_name_spec(k, g);
    assert(n == fname + "("@ + inner + ")"@);
    // the printed text is plain ascii with its one top-level parenthesis
    assert(vstd::utf8::is_ascii_chars(n) && (forall|j: int|
        0 <= j < n.len() ==> #[trigger] n[j] != ' ') && n[0] != '0' && (forall|j: int|
        0 <= j < fname.len() ==> n[j] != '(') && n[fname.len() as int] == '(') by {
        assert forall|j: int| 0 <= j < n.len() implies '\0' <= #[trigger] n[j] <= '\u{7f}' && n[j]
            != ' ' by {
            if j < fname.len() {
                assert(n[j] == fname[j]);
            } else if j < fname.len() + 1 {
                assert(n[j] == '(');
            } else if j < fname.len() + 1 + inner.len() {
                assert(n[j] == inner[j - fname.len() - 1]);
            } else {
                assert(n[j] == ')');
            }
        }
        assert forall|j: int| 0 <= j < fname.len() implies n[j] != '(' by {
            assert(n[j] == fname[j]);
        }
        assert(n[0] == fname[0]);
    }
    lemma_strip_spaceless(n);
    crate::strutil::lemma_find_char_at(n, '(', fname.len() as int);
    let i = fname.len() as int;
    assert(n.subrange(0, i) =~= fname);
    let rest = n.subrange(i + 1, n.len() as int);
    assert(rest =~= inner + ")"@);
    assert(rest.len() > 0);
    assert(rest.drop_last() =~= inner);
    assert(nq_step(n, g) == crate::keycodes::apply_form(fname, inner, g));
    let base = crate::keycodes::mod_wrap_base(fname).unwrap();
    assert(base == (k & 0xFF00u16)) by (bit_vector)
        requires
            base == (if (k & 0xFF00u16) == 0x0100 { 0x0100u16 } else if (k & 0xFF00u16) == 0x0200 {
                0x0200u16
            } else if (k & 0xFF00u16) == 0x0400 { 0x0400u16 } else if (k & 0xFF00u16) == 0x0800 {
                0x0800u16
            } else if (k & 0xFF00u16) == 0x1100 { 0x1100u16 } else if (k & 0xFF00u16) == 0x1200 {
                0x1200u16
            } else if (k & 0xFF00u16) == 0x1400 { 0x1400u16 } else if (k & 0xFF00u16) == 0x1800 {
                0x1800u16
            } else if (k & 0xFF00u16) == 0x0F00 { 0x0F00u16 } else if (k & 0xFF00u16) == 0x0700 {
                0x0700u16
            } else if (k & 0xFF00u16) == 0x0D00 { 0x0D00u16 } else if (k & 0xFF00u16) == 0x0A00 {
                0x0A00u16
            } else if (k & 0xFF00u16) == 0x0C00 { 0x0C00u16 } else if (k & 0xFF00u16) == 0x1A00 {
                0x1A00u16
            } else if (k & 0xFF00u16) == 0x1C00 { 0x1C00u16 } else if (k & 0xFF00u16) == 0x0500 {
                0x0500u16
            } else if (k & 0xFF00u16) == 0x0600 { 0x0600u16 } else if (k & 0xFF00u16) == 0x1600 {
                0x1600u16
            } else { 0x1300u16 }),
            (k & 0xFF00u16) == 0x0100 || (k & 0xFF00u16) == 0x0200 || (k & 0xFF00u16) == 0x0400
                || (k & 0xFF00u16) == 0x0800 || (k & 0xFF00u16) == 0x1100 || (k & 0xFF00u16)
                == 0x1200 || (k & 0xFF00u16) == 0x1400 || (k & 0xFF00u16) == 0x1800 || (k
                & 0xFF00u16) == 0x0F00 || (k & 0xFF00u16) == 0x0700 || (k & 0xFF00u16) == 0x0D00
                || (k & 0xFF00u16) == 0x0A00 || (k & 0xFF00u16) == 0x0C00 || (k & 0xFF00u16)
                == 0x1A00 || (k & 0xFF00u16) == 0x1C00 || (k & 0xFF00u16) == 0x0500 || (k
                & 0xFF00u16) == 0x0600 || (k & 0xFF00u16) == 0x1600 || (k & 0xFF00u16) == 0x1300,
    ;
    lemma_plain_resolution(inner, g);
    if g == Generation::Current {
        if names::extra_cur_name_of(low) is Some {
            lemma_exact_extra_current(low);
        } else if names::letter_name_of(low) is Some {
            lemma_exact_letter_current(low);
        } else if names::digit_name_of(low) is Some {
            lemma_exact_digit_current(low);
        } else if names::named_name_of(low) is Some {
            lemma_exact_named_current(low);
        } else if names::fkey_name_of(low) is Some {
            lemma_exact_fkey_current(low);
        } else {
            lemma_exact_modkey_current(low);
        }
    } else {
        if names::extra_leg_name_of(low) is Some {
            lemma_exact_extra_legacy(low);
        } else if names::letter_name_of(low) is Some {
            lemma_exact_letter_legacy(low);
        } else if names::digit_name_of(low) is Some {
            lemma_exact_digit_legacy(low);
        } else if names::named_name_of(low) is Some {
            lemma_exact_named_legacy(low);
        } else if names::fkey_name_of(low) is Some {
            lemma_exact_fkey_legacy(low);
        } else {
            lemma_exact_modkey_legacy(low);
        }
    }
    assert(name_to_qid_spec(inner, g) == Some(low));
    assert(crate::keycodes::apply_form(fname, inner, g) == Some((base | low) as u16));
    assert(((k & 0xFF00u16) | ((k & 0xFFu16) as u16)) == k) by (bit_vector);
}


// ---------------------------------------------------------------------------
// The modifier list round trip: a printed 5-bit modifier list parses back
// to the value it was printed from.
// ---------------------------------------------------------------------------
/// OR with zero on either side changes nothing.
proof fn lemma_or_identity(x: u8)
    ensures
        (0u8 | x) == x,
        (x | 0u8) == x,
{
    assert((0u8 | x) == x && (x | 0u8) == x) by (bit_vector);
}

/// The OR of the token values from position `i` on.
pub open spec fn or_tokens(ts: Seq<Seq<char>>, i: int) -> Option<u8>
    decreases ts.len() - i,
{
    if i < 0 || i > ts.len() {
        None
    } else if i == ts.len() {
        Some(0u8)
    } else {
        match (crate::keycodes::mod_token_val(ts[i]), or_tokens(ts, i + 1)) {
            (Some(v), Some(r)) => Some(v | r),
            _ => None,
        }
    }
}

/// Whether a token is printable inside a joined list and a composite
/// form: nonempty ASCII, free of the separator and of the characters the
/// surrounding grammar reserves, and a known modifier token.
pub open spec fn mod_token_printable(t: Seq<char>) -> bool {
    &&& t.len() > 0
    &&& is_ascii_chars(t)
    &&& forall|j: int|
        0 <= j < t.len() ==> #[trigger] t[j] != '|' && t[j] != '(' && t[j] != ')' && t[j] != ','
            && t[j] != ' '
    &&& crate::keycodes::mod_token_val(t) is Some
}

/// The eight canonical modifier tokens are printable and carry their
/// values.
#[verifier::rlimit(100)]
#[verifier::spinoff_prover]
proof fn lemma_mod_token_props()
    ensures
        mod_token_printable("MOD_LCTL"@) && crate::keycodes::mod_token_val("MOD_LCTL"@) == Some(
            0x01u8,
        ),
        mod_token_printable("MOD_LSFT"@) && crate::keycodes::mod_token_val("MOD_LSFT"@) == Some(
            0x02u8,
        ),
        mod_token_printable("MOD_LALT"@) && crate::keycodes::mod_token_val("MOD_LALT"@) == Some(
            0x04u8,
        ),
        mod_token_printable("MOD_LGUI"@) && crate::keycodes::mod_token_val("MOD_LGUI"@) == Some(
            0x08u8,
        ),
        mod_token_printable("MOD_RCTL"@) && crate::keycodes::mod_token_val("MOD_RCTL"@) == Some(
            0x11u8,
        ),
        mod_token_printable("MOD_RSFT"@) && crate::keycodes::mod_token_val("MOD_RSFT"@) == Some(
            0x12u8,
        ),
        mod_token_printable("MOD_RALT"@) && crate::keycodes::mod_token_val("MOD_RALT"@) == Some(
            0x14u8,
        ),
        mod_token_printable("MOD_RGUI"@) && crate::keycodes::mod_token_val("MOD_RGUI"@) == Some(
            0x18u8,
        ),
{
    reveal_strlit("MOD_LCTL");
    reveal_strlit("MOD_LSFT");
    reveal_strlit("MOD_LALT");
    reveal_strlit("MOD_LGUI");
    reveal_strlit("MOD_RCTL");
    reveal_strlit("MOD_RSFT");
    reveal_strlit("MOD_RALT");
    reveal_strlit("MOD_RGUI");
    reveal_strlit("LCTL");
    reveal_strlit("CTL");
    reveal_strlit("C");
    reveal_strlit("LSFT");
    reveal_strlit("SFT");
    reveal_strlit("S");
    reveal_strlit("LALT");
    reveal_strlit("ALT");
    reveal_strlit("A");
    reveal_strlit("LGUI");
    reveal_strlit("GUI");
    reveal_strlit("G");
    reveal_strlit("RCTL");
    reveal_strlit("RSFT");
    reveal_strlit("RALT");
    reveal_strlit("RGUI");
    seq_ne_at("MOD_LCTL"@, "MOD_LSFT"@, 5);
    seq_ne_at("MOD_LCTL"@, "MOD_LALT"@, 5);
    seq_ne_at("MOD_LCTL"@, "MOD_LGUI"@, 5);
    seq_ne_at("MOD_LCTL"@, "MOD_RCTL"@, 4);
    seq_ne_at("MOD_LCTL"@, "MOD_RSFT"@, 4);
    seq_ne_at("MOD_LCTL"@, "MOD_RALT"@, 4);
    seq_ne_at("MOD_LCTL"@, "MOD_RGUI"@, 4);
    seq_ne_at("MOD_LSFT"@, "MOD_LALT"@, 5);
    seq_ne_at("MOD_LSFT"@, "MOD_LGUI"@, 5);
    seq_ne_at("MOD_LSFT"@, "MOD_RCTL"@, 4);
    seq_ne_at("MOD_LSFT"@, "MOD_RSFT"@, 4);
    seq_ne_at("MOD_LSFT"@, "MOD_RALT"@, 4);
    seq_ne_at("MOD_LSFT"@, "MOD_RGUI"@, 4);
    seq_ne_at("MOD_LALT"@, "MOD_LGUI"@, 5);
    seq_ne_at("MOD_LALT"@, "MOD_RCTL"@, 4);
    seq_ne_at("MOD_LALT"@, "MOD_RSFT"@, 4);
    seq_ne_at("MOD_LALT"@, "MOD_RALT"@, 4);
    seq_ne_at("MOD_LALT"@, "MOD_RGUI"@, 4);
    seq_ne_at("MOD_LGUI"@, "MOD_RCTL"@, 4);
    seq_ne_at("MOD_LGUI"@, "MOD_RSFT"@, 4);
    seq_ne_at("MOD_LGUI"@, "MOD_RALT"@, 4);
    seq_ne_at("MOD_LGUI"@, "MOD_RGUI"@, 4);
    seq_ne_at("MOD_RCTL"@, "MOD_RSFT"@, 5);
    seq_ne_at("MOD_RCTL"@, "MOD_RALT"@, 5);
    seq_ne_at("MOD_RCTL"@, "MOD_RGUI"@, 5);
    seq_ne_at("MOD_RSFT"@, "MOD_RALT"@, 5);
    seq_ne_at("MOD_RSFT"@, "MOD_RGUI"@, 5);
    seq_ne_at("MOD_RALT"@, "MOD_RGUI"@, 5);
    assert("MOD_LCTL"@.len() == 8);
    assert forall|j: int| 0 <= j < "MOD_LCTL"@.len() implies "MOD_LCTL"@[j] != '|' && "MOD_LCTL"@[j]
        != '(' && "MOD_LCTL"@[j] != ')' && "MOD_LCTL"@[j] != ',' && "MOD_LCTL"@[j] != ' ' && '\0' <= "MOD_LCTL"@[j]
        <= '\u{7f}' by {}
    assert(crate::keycodes::mod_token_val("MOD_LCTL"@) == Some(0x01u8));
    assert("MOD_LSFT"@.len() == 8);
    assert forall|j: int| 0 <= j < "MOD_LSFT"@.len() implies "MOD_LSFT"@[j] != '|' && "MOD_LSFT"@[j]
        != '(' && "MOD_LSFT"@[j] != ')' && "MOD_LSFT"@[j] != ',' && "MOD_LSFT"@[j] != ' ' && '\0' <= "MOD_LSFT"@[j]
        <= '\u{7f}' by {}
    assert(crate::keycodes::mod_token_val("MOD_LSFT"@) == Some(0x02u8));
    assert("MOD_LALT"@.len() == 8);
    assert forall|j: int| 0 <= j < "MOD_LALT"@.len() implies "MOD_LALT"@[j] != '|' && "MOD_LALT"@[j]
        != '(' && "MOD_LALT"@[j] != ')' && "MOD_LALT"@[j] != ',' && "MOD_LALT"@[j] != ' ' && '\0' <= "MOD_LALT"@[j]
        <= '\u{7f}' by {}
    assert(crate::keycodes::mod_token_val("MOD_LALT"@) == Some(0x04u8));
    assert("MOD_LGUI"@.len() == 8);
    assert forall|j: int| 0 <= j < "MOD_LGUI"@.len() implies "MOD_LGUI"@[j] != '|' && "MOD_LGUI"@[j]
        != '(' && "MOD_LGUI"@[j] != ')' && "MOD_LGUI"@[j] != ',' && "MOD_LGUI"@[j] != ' ' && '\0' <= "MOD_LGUI"@[j]
        <= '\u{7f}' by {}
    assert(crate::keycodes::mod_token_val("MOD_LGUI"@) == Some(0x08u8));
    assert("MOD_RCTL"@.len() == 8);
    assert forall|j: int| 0 <= j < "MOD_RCTL"@.len() implies "MOD_RCTL"@[j] != '|' && "MOD_RCTL"@[j]
        != '(' && "MOD_RCTL"@[j] != ')' && "MOD_RCTL"@[j] != ',' && "MOD_RCTL"@[j] != ' ' && '\0' <= "MOD_RCTL"@[j]
        <= '\u{7f}' by {}
    assert(crate::keycodes::mod_token_val("MOD_RCTL"@) == Some(0x11u8));
    assert("MOD_RSFT"@.len() == 8);
    assert forall|j: int| 0 <= j < "MOD_RSFT"@.len() implies "MOD_RSFT"@[j] != '|' && "MOD_RSFT"@[j]
        != '(' && "MOD_RSFT"@[j] != ')' && "MOD_RSFT"@[j] != ',' && "MOD_RSFT"@[j] != ' ' && '\0' <= "MOD_RSFT"@[j]
        <= '\u{7f}' by {}
    assert(crate::keycodes::mod_token_val("MOD_RSFT"@) == Some(0x12u8));
    assert("MOD_RALT"@.len() == 8);
    assert forall|j: int| 0 <= j < "MOD_RALT"@.len() implies "MOD_RALT"@[j] != '|' && "MOD_RALT"@[j]
        != '(' && "MOD_RALT"@[j] != ')' && "MOD_RALT"@[j] != ',' && "MOD_RALT"@[j] != ' ' && '\0' <= "MOD_RALT"@[j]
        <= '\u{7f}' by {}
    assert(crate::keycodes::mod_token_val("MOD_RALT"@) == Some(0x14u8));
    assert("MOD_RGUI"@.len() == 8);
    assert forall|j: int| 0 <= j < "MOD_RGUI"@.len() implies "MOD_RGUI"@[j] != '|' && "MOD_RGUI"@[j]
        != '(' && "MOD_RGUI"@[j] != ')' && "MOD_RGUI"@[j] != ',' && "MOD_RGUI"@[j] != ' ' && '\0' <= "MOD_RGUI"@[j]
        <= '\u{7f}' by {}
    assert(crate::keycodes::mod_token_val("MOD_RGUI"@) == Some(0x18u8));
}

/// Parsing a joined token list ORs the token values.
proof fn lemma_parse_join(ts: Seq<Seq<char>>, i: int)
    requires
        0 <= i < ts.len(),
        forall|t: int| 0 <= t < ts.len() ==> mod_token_printable(#[trigger] ts[t]),
    ensures
        crate::keycodes::name_to_mod_spec(
            crate::keycodes::join_tokens(ts.subrange(i, ts.len() as int)),
        ) == or_tokens(ts, i),
    decreases ts.len() - i,
{
    reveal_strlit("|");
    let sub = ts.subrange(i, ts.len() as int);
    let v = crate::keycodes::mod_token_val(ts[i]).unwrap();
    if i == ts.len() - 1 {
        assert(sub =~= seq![ts[i]]);
        assert(crate::keycodes::join_tokens(sub) == ts[i]);
        crate::strutil::lemma_find_char_spec(ts[i], '|');
        match crate::strutil::find_char_spec(ts[i], '|') {
            Some(k) => {
                assert(ts[i][k] == '|');
                assert(false);
            },
            None => {},
        }
        assert(crate::keycodes::name_to_mod_spec(ts[i]) == Some(v));
        lemma_or_identity(v);
    } else {
        lemma_parse_join(ts, i + 1);
        let rest = ts.subrange(i + 1, ts.len() as int);
        assert(sub.drop_first() =~= rest);
        assert(sub[0] == ts[i]);
        let joined = crate::keycodes::join_tokens(sub);
        let restj = crate::keycodes::join_tokens(rest);
        assert(joined == ts[i] + "|"@ + restj);
        assert("|"@.len() == 1);
        assert(joined[ts[i].len() as int] == '|') by {
            assert((ts[i] + "|"@ + restj)[ts[i].len() as int] == "|"@[0]);
        }
        assert forall|j: int| 0 <= j < ts[i].len() implies joined[j] != '|' by {
            assert(joined[j] == ts[i][j]);
        }
        crate::strutil::lemma_find_char_at(joined, '|', ts[i].len() as int);
        assert(joined.subrange(0, ts[i].len() as int) =~= ts[i]);
        assert(joined.subrange(ts[i].len() as int + 1, joined.len() as int) =~= restj);
        assert(crate::keycodes::name_to_mod_spec(joined) == (match or_tokens(ts, i + 1) {
            Some(r) => Some((v | r) as u8),
            None => None,
        }));
    }
}

/// A printed 5-bit modifier list parses back to the value it was printed
/// from, whenever some base modifier is present; a value naming only a
/// right-hand flag (or nothing) prints as a placeholder no list names.
pub proof fn lemma_mod_name_round_trip(m: u8)
    requires
        m < 0x20,
        m & 0x0F != 0,
    ensures
        crate::keycodes::name_to_mod_spec(crate::keycodes::mod_to_name_spec(m)) == Some(m),
{
    lemma_mod_token_props();
    let ts = crate::keycodes::mod_tokens(m);
    assert((((m & 0x11 == 0x11) || (m & 0x01 == 0x01)) || ((m & 0x12 == 0x12) || (m & 0x02
        == 0x02)) || ((m & 0x14 == 0x14) || (m & 0x04 == 0x04)) || ((m & 0x18 == 0x18) || (m & 0x08
        == 0x08))) && ((m & 1 == 1) ==> ((m & 0x11 == 0x11) || (m & 0x01 == 0x01))) && ((m & 2 == 2)
        ==> ((m & 0x12 == 0x12) || (m & 0x02 == 0x02))) && ((m & 4 == 4) ==> ((m & 0x14 == 0x14) || (
    m & 0x04 == 0x04))) && ((m & 8 == 8) ==> ((m & 0x18 == 0x18) || (m & 0x08 == 0x08))))
        by (bit_vector)
        requires
            m & 0x0F != 0,
    ;
    assert(ts.len() >= 1);
    assert(forall|t: int| 0 <= t < ts.len() ==> mod_token_printable(#[trigger] ts[t]));
    lemma_parse_join(ts, 0);
    assert(ts.subrange(0, ts.len() as int) =~= ts);
    assert(crate::keycodes::mod_to_name_spec(m) == crate::keycodes::join_tokens(ts));
    let c1: u8 = if m & 0x11 == 0x11 {
        0x11u8
    } else if m & 0x01 == 0x01 {
        0x01u8
    } else {
        0u8
    };
    let c2: u8 = if m & 0x12 == 0x12 {
        0x12u8
    } else if m & 0x02 == 0x02 {
        0x02u8
    } else {
        0u8
    };
    let c3: u8 = if m & 0x14 == 0x14 {
        0x14u8
    } else if m & 0x04 == 0x04 {
        0x04u8
    } else {
        0u8
    };
    let c4: u8 = if m & 0x18 == 0x18 {
        0x18u8
    } else if m & 0x08 == 0x08 {
        0x08u8
    } else {
        0u8
    };
    assert((c1 | (c2 | (c3 | (c4 | 0u8)))) == m) by (bit_vector)
        requires
            m < 0x20,
            m & 0x0F != 0,
            c1 == (if m & 0x11 == 0x11 {
                0x11u8
            } else if m & 0x01 == 0x01 {
                0x01u8
            } else {
                0u8
            }),
            c2 == (if m & 0x12 == 0x12 {
                0x12u8
            } else if m & 0x02 == 0x02 {
                0x02u8
            } else {
                0u8
            }),
            c3 == (if m & 0x14 == 0x14 {
                0x14u8
            } else if m & 0x04 == 0x04 {
                0x04u8
            } else {
                0u8
            }),
            c4 == (if m & 0x18 == 0x18 {
                0x18u8
            } else if m & 0x08 == 0x08 {
                0x08u8
            } else {
                0u8
            }),
    ;
    assert(or_tokens(ts, 0) == Some(m)) by {
        lemma_or_tokens_value(m, c1, c2, c3, c4);
    }
}

/// Skipping a leading token shifts the OR scan by one.
proof fn lemma_or_shift(t: Seq<char>, b: Seq<Seq<char>>, i: int)
    requires
        0 <= i <= b.len(),
    ensures
        or_tokens(seq![t] + b, i + 1) == or_tokens(b, i),
    decreases b.len() - i,
{
    assert((seq![t] + b).len() == 1 + b.len());
    if i < b.len() {
        assert((seq![t] + b)[i + 1] == b[i]);
        lemma_or_shift(t, b, i + 1);
    }
}

/// The OR over a token put in front.
proof fn lemma_or_cons(t: Seq<char>, b: Seq<Seq<char>>)
    requires
        crate::keycodes::mod_token_val(t) is Some,
        or_tokens(b, 0) is Some,
    ensures
        or_tokens(seq![t] + b, 0) == Some(
            (crate::keycodes::mod_token_val(t).unwrap() | or_tokens(b, 0).unwrap()) as u8,
        ),
{
    assert((seq![t] + b)[0] == t);
    lemma_or_shift(t, b, 0);
}

/// The OR over a value's token list is the value itself: each fired group
/// contributes its flags, and every flag of the value is contributed.
proof fn lemma_or_tokens_value(m: u8, c1: u8, c2: u8, c3: u8, c4: u8)
    requires
        m < 0x20,
        m & 0x0F != 0,
        c1 == (if m & 0x11 == 0x11 {
            0x11u8
        } else if m & 0x01 == 0x01 {
            0x01u8
        } else {
            0u8
        }),
        c2 == (if m & 0x12 == 0x12 {
            0x12u8
        } else if m & 0x02 == 0x02 {
            0x02u8
        } else {
            0u8
        }),
        c3 == (if m & 0x14 == 0x14 {
            0x14u8
        } else if m & 0x04 == 0x04 {
            0x04u8
        } else {
            0u8
        }),
        c4 == (if m & 0x18 == 0x18 {
            0x18u8
        } else if m & 0x08 == 0x08 {
            0x08u8
        } else {
            0u8
        }),
        (c1 | (c2 | (c3 | (c4 | 0u8)))) == m,
    ensures
        or_tokens(crate::keycodes::mod_tokens(m), 0) == Some(m),
{
    lemma_mod_token_props();
    let ts = crate::keycodes::mod_tokens(m);
    let ctl: Seq<Seq<char>> = if m & 0x11u8 == 0x11u8 {
        seq!["MOD_RCTL"@]
    } else if m & 0x01u8 == 0x01u8 {
        seq!["MOD_LCTL"@]
    } else {
        seq![]
    };
    let sft: Seq<Seq<char>> = if m & 0x12u8 == 0x12u8 {
        seq!["MOD_RSFT"@]
    } else if m & 0x02u8 == 0x02u8 {
        seq!["MOD_LSFT"@]
    } else {
        seq![]
    };
    let alt: Seq<Seq<char>> = if m & 0x14u8 == 0x14u8 {
        seq!["MOD_RALT"@]
    } else if m & 0x04u8 == 0x04u8 {
        seq!["MOD_LALT"@]
    } else {
        seq![]
    };
    let gui: Seq<Seq<char>> = if m & 0x18u8 == 0x18u8 {
        seq!["MOD_RGUI"@]
    } else if m & 0x08u8 == 0x08u8 {
        seq!["MOD_LGUI"@]
    } else {
        seq![]
    };
    assert(ts =~= ctl + (sft + (alt + gui)));
    let t4 = gui;
    let t34 = alt + gui;
    let t234 = sft + t34;
    // gui level
    assert(or_tokens(t4, 0) == Some((c4 | 0u8) as u8)) by {
        if gui.len() == 0 {
            assert(c4 == 0u8);
            lemma_or_identity(0u8);
        } else {
            assert(gui =~= seq![gui[0]] + Seq::<Seq<char>>::empty());
            lemma_or_cons(gui[0], Seq::<Seq<char>>::empty());
        }
    }
    // alt level
    assert(or_tokens(t34, 0) == Some((c3 | (c4 | 0u8)) as u8)) by {
        if alt.len() == 0 {
            assert(t34 =~= gui);
            assert(c3 == 0u8);
            let x = (c4 | 0u8) as u8;
            lemma_or_identity(x);
        } else {
            assert(t34 =~= seq![alt[0]] + gui);
            lemma_or_cons(alt[0], gui);
        }
    }
    // sft level
    assert(or_tokens(t234, 0) == Some((c2 | (c3 | (c4 | 0u8))) as u8)) by {
        if sft.len() == 0 {
            assert(t234 =~= t34);
            assert(c2 == 0u8);
            let x = (c3 | (c4 | 0u8)) as u8;
            lemma_or_identity(x);
        } else {
            assert(t234 =~= seq![sft[0]] + t34);
            lemma_or_cons(sft[0], t34);
        }
    }
    // ctl level
    assert(or_tokens(ts, 0) == Some((c1 | (c2 | (c3 | (c4 | 0u8)))) as u8)) by {
        if ctl.len() == 0 {
            assert(ts =~= t234);
            assert(c1 == 0u8);
            let x = (c2 | (c3 | (c4 | 0u8))) as u8;
            lemma_or_identity(x);
        } else {
            assert(ts =~= seq![ctl[0]] + t234);
            lemma_or_cons(ctl[0], t234);
        }
    }
}


/// Every character of a joined printable token list is a token character
/// or the separator: ASCII and none of the reserved grammar characters.
proof fn lemma_join_chars(ts: Seq<Seq<char>>)
    requires
        forall|t: int| 0 <= t < ts.len() ==> mod_token_printable(#[trigger] ts[t]),
    ensures
        is_ascii_chars(crate::keycodes::join_tokens(ts)),
        forall|j: int|
            0 <= j < crate::keycodes::join_tokens(ts).len() ==> #[trigger] crate::keycodes::join_tokens(
                ts,
            )[j] != '(' && crate::keycodes::join_tokens(ts)[j] != ')'
                && crate::keycodes::join_tokens(ts)[j] != ',' && crate::keycodes::join_tokens(ts)[j]
                != ' ',
    decreases ts.len(),
{
    reveal_strlit("|");
    assert("|"@.len() == 1);
    assert("|"@[0] == '|');
    if ts.len() == 0 {
    } else if ts.len() == 1 {
        assert(crate::keycodes::join_tokens(ts) == ts[0]);
        assert(mod_token_printable(ts[0]));
    } else {
        let rest = ts.drop_first();
        assert(forall|t: int| 0 <= t < rest.len() ==> rest[t] == ts[t + 1]);
        lemma_join_chars(rest);
        let joined = crate::keycodes::join_tokens(ts);
        let restj = crate::keycodes::join_tokens(rest);
        assert(joined == ts[0] + "|"@ + restj);
        assert(mod_token_printable(ts[0]));
        assert forall|j: int| 0 <= j < joined.len() implies #[trigger] joined[j] != '('
            && joined[j] != ')' && joined[j] != ',' && joined[j] != ' ' && '\0' <= joined[j]
            <= '\u{7f}' by {
            if j < ts[0].len() {
                assert(joined[j] == ts[0][j]);
            } else if j == ts[0].len() {
                assert(joined[j] == '|');
            } else {
                assert(joined[j] == restj[j - ts[0].len() - 1]);
            }
        }
    }
}

/// The one-shot-modifier form round-trips: the printed `OSM(mods)` text
/// of such an id resolves back to exactly that id, whenever the embedded
/// modifier value names some base modifier.
#[verifier::rlimit(100)]
#[verifier::spinoff_prover]
pub proof fn lemma_osm_round_trip(g: Generation, k: u16)
    requires
        g == Generation::Current ==> 0x52A0 <= k <= 0x52BF,
        g == Generation::Legacy ==> 0x5500 <= k <= 0x551F,
        (k & 0x1F) & 0x0F != 0,
    ensures
        name_to_qid_spec(qid_name_spec(k, g), g) == Some(k),
{
    reveal_strlit("OSM");
    reveal_strlit("OSL");
    reveal_strlit("PDF");
    reveal_strlit("TO");
    reveal_strlit("MO");
    reveal_strlit("DF");
    reveal_strlit("TG");
    reveal_strlit("TT");
    reveal_strlit("LM");
    reveal_strlit("LT");
    reveal_strlit("MT");
    reveal_strlit("TD");
    reveal_strlit("MEH");
    reveal_strlit("LSG");
    reveal_strlit("LAG");
    reveal_strlit("RSG");
    reveal_strlit("RAG");
    reveal_strlit("LCA");
    reveal_strlit("LSA");
    reveal_strlit("RSA");
    reveal_strlit("RCS");
    reveal_strlit("CTL");
    reveal_strlit("SFT");
    reveal_strlit("ALT");
    reveal_strlit("GUI");
    reveal_strlit("(");
    reveal_strlit(")");
    reveal_strlit("QK_LCTL");
    reveal_strlit("LCTL");
    reveal_strlit("C");
    reveal_strlit("QK_LSFT");
    reveal_strlit("LSFT");
    reveal_strlit("S");
    reveal_strlit("QK_LALT");
    reveal_strlit("LALT");
    reveal_strlit("LOPT");
    reveal_strlit("A");
    reveal_strlit("QK_LGUI");
    reveal_strlit("LGUI");
    reveal_strlit("LCMD");
    reveal_strlit("LWIN");
    reveal_strlit("G");
    reveal_strlit("QK_RCTL");
    reveal_strlit("RCTL");
    reveal_strlit("QK_RSFT");
    reveal_strlit("RSFT");
    reveal_strlit("QK_RALT");
    reveal_strlit("RALT");
    reveal_strlit("ALGR");
    reveal_strlit("ROPT");
    reveal_strlit("QK_RGUI");
    reveal_strlit("RGUI");
    reveal_strlit("RCMD");
    reveal_strlit("RWIN");
    reveal_strlit("HYPR");
    reveal_strlit("LCAG");
    reveal_strlit("SGUI");
    reveal_strlit("SCMD");
    reveal_strlit("SWIN");
    reveal_strlit("SAGR");
    assert("QK_LCTL"@.len() == 7);
    assert("LCTL"@.len() == 4);
    assert("C"@.len() == 1);
    assert("QK_LSFT"@.len() == 7);
    assert("LSFT"@.len() == 4);
    assert("S"@.len() == 1);
    assert("QK_LALT"@.len() == 7);
    assert("LALT"@.len() == 4);
    assert("LOPT"@.len() == 4);
    assert("A"@.len() == 1);
    assert("QK_LGUI"@.len() == 7);
    assert("LGUI"@.len() == 4);
    assert("LCMD"@.len() == 4);
    assert("LWIN"@.len() == 4);
    assert("G"@.len() == 1);
    assert("QK_RCTL"@.len() == 7);
    assert("RCTL"@.len() == 4);
    assert("QK_RSFT"@.len() == 7);
    assert("RSFT"@.len() == 4);
    assert("QK_RALT"@.len() == 7);
    assert("RALT"@.len() == 4);
    assert("ALGR"@.len() == 4);
    assert("ROPT"@.len() == 4);
    assert("QK_RGUI"@.len() == 7);
    assert("RGUI"@.len() == 4);
    assert("RCMD"@.len() == 4);
    assert("RWIN"@.len() == 4);
    assert("HYPR"@.len() == 4);
    assert("LCAG"@.len() == 4);
    assert("SGUI"@.len() == 4);
    assert("SCMD"@.len() == 4);
    assert("SWIN"@.len() == 4);
    assert("SAGR"@.len() == 4);
    assert("OSM"@.len() == 3);
    seq_ne_at("OSM"@, "MEH"@, 0);
    seq_ne_at("OSM"@, "LSG"@, 0);
    seq_ne_at("OSM"@, "LAG"@, 0);
    seq_ne_at("OSM"@, "RSG"@, 0);
    seq_ne_at("OSM"@, "RAG"@, 0);
    seq_ne_at("OSM"@, "LCA"@, 0);
    seq_ne_at("OSM"@, "LSA"@, 0);
    seq_ne_at("OSM"@, "RSA"@, 0);
    seq_ne_at("OSM"@, "RCS"@, 0);
    seq_ne_at("OSM"@, "PDF"@, 0);
    seq_ne_at("OSM"@, "OSL"@, 2);
    seq_ne_at("OSM"@, "CTL"@, 0);
    seq_ne_at("OSM"@, "SFT"@, 0);
    seq_ne_at("OSM"@, "ALT"@, 0);
    seq_ne_at("OSM"@, "GUI"@, 0);
    let m: u8 = (k & 0x1F) as u8;
    assert(m < 0x20 && m & 0x0F != 0) by (bit_vector)
        requires
            m == (k & 0x1F) as u8,
            (k & 0x1F) & 0x0F != 0,
    ;
    lemma_mod_token_props();
    let fname = "OSM"@;
    let modtext = crate::keycodes::mod_to_name_spec(m);
    let ts = crate::keycodes::mod_tokens(m);
    assert((((m & 0x11 == 0x11) || (m & 0x01 == 0x01)) || ((m & 0x12 == 0x12) || (m & 0x02
        == 0x02)) || ((m & 0x14 == 0x14) || (m & 0x04 == 0x04)) || ((m & 0x18 == 0x18) || (m & 0x08
        == 0x08))) && ((m & 1 == 1) ==> ((m & 0x11 == 0x11) || (m & 0x01 == 0x01))) && ((m & 2 == 2)
        ==> ((m & 0x12 == 0x12) || (m & 0x02 == 0x02))) && ((m & 4 == 4) ==> ((m & 0x14 == 0x14) || (
    m & 0x04 == 0x04))) && ((m & 8 == 8) ==> ((m & 0x18 == 0x18) || (m & 0x08 == 0x08))))
        by (bit_vector)
        requires
            m & 0x0F != 0,
    ;
    assert(ts.len() >= 1);
    assert(forall|t: int| 0 <= t < ts.len() ==> mod_token_printable(#[trigger] ts[t]));
    lemma_join_chars(ts);
    assert(modtext == crate::keycodes::join_tokens(ts));
    let n = qid_name_spec(k, g);
    assert(wrap_form_name(k) is None) by {
        assert((k & 0xFF00u16) == 0x5200 || (k & 0xFF00u16) == 0x5500) by (bit_vector)
            requires
                (0x52A0 <= k && k <= 0x52BF) || (0x5500 <= k && k <= 0x551F),
        ;
    }
    assert(n == fname + "("@ + modtext + ")"@);
    assert(vstd::utf8::is_ascii_chars(n) && (forall|j: int|
        0 <= j < n.len() ==> #[trigger] n[j] != ' ') && n[0] != '0' && (forall|j: int|
        0 <= j < fname.len() ==> n[j] != '(') && n[fname.len() as int] == '(') by {
        assert forall|j: int| 0 <= j < n.len() implies '\0' <= #[trigger] n[j] <= '\u{7f}' && n[j]
            != ' ' by {
            if j < fname.len() {
                assert(n[j] == fname[j]);
            } else if j < fname.len() + 1 {
                assert(n[j] == '(');
            } else if j < fname.len() + 1 + modtext.len() {
                assert(n[j] == modtext[j - fname.len() - 1]);
            } else {
                assert(n[j] == ')');
            }
        }
        assert forall|j: int| 0 <= j < fname.len() implies n[j] != '(' by {
            assert(n[j] == fname[j]);
        }
        assert(n[0] == fname[0]);
    }
    lemma_strip_spaceless(n);
    crate::strutil::lemma_find_char_at(n, '(', fname.len() as int);
    let i = fname.len() as int;
    assert(n.subrange(0, i) =~= fname);
    let rest = n.subrange(i + 1, n.len() as int);
    assert(rest =~= modtext + ")"@);
    assert(rest.len() > 0);
    assert(rest.drop_last() =~= modtext);
    assert(crate::keycodes::mod_wrap_base(fname) is None);
    assert(crate::keycodes::layer_form_base(fname, g) is None);
    assert(nq_step(n, g) == crate::keycodes::apply_form(fname, modtext, g));
    lemma_mod_name_round_trip(m);
    assert(crate::keycodes::apply_form(fname, modtext, g) == Some(
        (crate::keycodes::osm_base(g) | ((m as u16) & 0x1F)) as u16,
    ));
    if g == Generation::Current {
        assert((0x52A0u16 | ((((k & 0x1F) as u8) as u16) & 0x1F)) == k) by (bit_vector)
            requires
                0x52A0 <= k && k <= 0x52BF,
        ;
    } else {
        assert((0x5500u16 | ((((k & 0x1F) as u8) as u16) & 0x1F)) == k) by (bit_vector)
            requires
                0x5500 <= k && k <= 0x551F,
        ;
    }
}


/// The mod-tap form round-trips: the printed `MT(mods,KEY)` text of such
/// an id resolves back to exactly that id, whenever the embedded modifier
/// value names some base modifier and the tapped key is a table key.
#[verifier::rlimit(100)]
#[verifier::spinoff_prover]
pub proof fn lemma_mt_round_trip(g: Generation, k: u16)
    requires
        g == Generation::Current ==> 0x2000 <= k <= 0x3FFF,
        g == Generation::Legacy ==> 0x6000 <= k <= 0x7FFF,
        ((k >> 8) & 0x1F) & 0x0F != 0,
        canonical_name_of((k & 0xFF) as u16, g) is Some,
    ensures
        name_to_qid_spec(qid_name_spec(k, g), g) == Some(k),
{
    reveal_strlit("A");
    reveal_strlit("ALGR");
    reveal_strlit("C");
    reveal_strlit("DF");
    reveal_strlit("G");
    reveal_strlit("HYPR");
    reveal_strlit("LAG");
    reveal_strlit("LALT");
    reveal_strlit("LCA");
    reveal_strlit("LCAG");
    reveal_strlit("LCMD");
    reveal_strlit("LCTL");
    reveal_strlit("LGUI");
    reveal_strlit("LM");
    reveal_strlit("LOPT");
    reveal_strlit("LSA");
    reveal_strlit("LSFT");
    reveal_strlit("LSG");
    reveal_strlit("LT");
    reveal_strlit("LWIN");
    reveal_strlit("MEH");
    reveal_strlit("MO");
    reveal_strlit("MT");
    reveal_strlit("OSL");
    reveal_strlit("OSM");
    reveal_strlit("PDF");
    reveal_strlit("QK_LALT");
    reveal_strlit("QK_LCTL");
    reveal_strlit("QK_LGUI");
    reveal_strlit("QK_LSFT");
    reveal_strlit("QK_RALT");
    reveal_strlit("QK_RCTL");
    reveal_strlit("QK_RGUI");
    reveal_strlit("QK_RSFT");
    reveal_strlit("RAG");
    reveal_strlit("RALT");
    reveal_strlit("RCMD");
    reveal_strlit("RCS");
    reveal_strlit("RCTL");
    reveal_strlit("RGUI");
    reveal_strlit("ROPT");
    reveal_strlit("RSA");
    reveal_strlit("RSFT");
    reveal_strlit("RSG");
    reveal_strlit("RWIN");
    reveal_strlit("S");
    reveal_strlit("SAGR");
    reveal_strlit("SCMD");
    reveal_strlit("SGUI");
    reveal_strlit("SWIN");
    reveal_strlit("TD");
    reveal_strlit("TG");
    reveal_strlit("TO");
    reveal_strlit("TT");
    reveal_strlit("(");
    reveal_strlit(")");
    reveal_strlit(",");
    assert("A"@.len() == 1);
    assert("ALGR"@.len() == 4);
    assert("C"@.len() == 1);
    assert("DF"@.len() == 2);
    assert("G"@.len() == 1);
    assert("HYPR"@.len() == 4);
    assert("LAG"@.len() == 3);
    assert("LALT"@.len() == 4);
    assert("LCA"@.len() == 3);
    assert("LCAG"@.len() == 4);
    assert("LCMD"@.len() == 4);
    assert("LCTL"@.len() == 4);
    assert("LGUI"@.len() == 4);
    assert("LM"@.len() == 2);
    assert("LOPT"@.len() == 4);
    assert("LSA"@.len() == 3);
    assert("LSFT"@.len() == 4);
    assert("LSG"@.len() == 3);
    assert("LT"@.len() == 2);
    assert("LWIN"@.len() == 4);
    assert("MEH"@.len() == 3);
    assert("MO"@.len() == 2);
    assert("MT"@.len() == 2);
    assert("OSL"@.len() == 3);
    assert("OSM"@.len() == 3);
    assert("PDF"@.len() == 3);
    assert("QK_LALT"@.len() == 7);
    assert("QK_LCTL"@.len() == 7);
    assert("QK_LGUI"@.len() == 7);
    assert("QK_LSFT"@.len() == 7);
    assert("QK_RALT"@.len() == 7);
    assert("QK_RCTL"@.len() == 7);
    assert("QK_RGUI"@.len() == 7);
    assert("QK_RSFT"@.len() == 7);
    assert("RAG"@.len() == 3);
    assert("RALT"@.len() == 4);
    assert("RCMD"@.len() == 4);
    assert("RCS"@.len() == 3);
    assert("RCTL"@.len() == 4);
    assert("RGUI"@.len() == 4);
    assert("ROPT"@.len() == 4);
    assert("RSA"@.len() == 3);
    assert("RSFT"@.len() == 4);
    assert("RSG"@.len() == 3);
    assert("RWIN"@.len() == 4);
    assert("S"@.len() == 1);
    assert("SAGR"@.len() == 4);
    assert("SCMD"@.len() == 4);
    assert("SGUI"@.len() == 4);
    assert("SWIN"@.len() == 4);
    assert("TD"@.len() == 2);
    assert("TG"@.len() == 2);
    assert("TO"@.len() == 2);
    assert("TT"@.len() == 2);
    seq_ne_at("MT"@, "TO"@, 0);
    seq_ne_at("MT"@, "MO"@, 1);
    seq_ne_at("MT"@, "DF"@, 0);
    seq_ne_at("MT"@, "TG"@, 0);
    seq_ne_at("MT"@, "TT"@, 0);
    seq_ne_at("MT"@, "LM"@, 0);
    seq_ne_at("MT"@, "LT"@, 0);
    let m: u8 = ((k >> 8) & 0x1F) as u8;
    assert(m < 0x20 && m & 0x0F != 0) by (bit_vector)
        requires
            m == ((k >> 8) & 0x1F) as u8,
            ((k >> 8) & 0x1F) & 0x0F != 0,
    ;
    let low: u16 = (k & 0xFF) as u16;
    lemma_mod_token_props();
    let fname = "MT"@;
    let modtext = crate::keycodes::mod_to_name_spec(m);
    let ts = crate::keycodes::mod_tokens(m);
    assert((((m & 0x11 == 0x11) || (m & 0x01 == 0x01)) || ((m & 0x12 == 0x12) || (m & 0x02
        == 0x02)) || ((m & 0x14 == 0x14) || (m & 0x04 == 0x04)) || ((m & 0x18 == 0x18) || (m & 0x08
        == 0x08))) && ((m & 1 == 1) ==> ((m & 0x11 == 0x11) || (m & 0x01 == 0x01))) && ((m & 2 == 2)
        ==> ((m & 0x12 == 0x12) || (m & 0x02 == 0x02))) && ((m & 4 == 4) ==> ((m & 0x14 == 0x14) || (
    m & 0x04 == 0x04))) && ((m & 8 == 8) ==> ((m & 0x18 == 0x18) || (m & 0x08 == 0x08))))
        by (bit_vector)
        requires
            m & 0x0F != 0,
    ;
    assert(ts.len() >= 1);
    assert(forall|t: int| 0 <= t < ts.len() ==> mod_token_printable(#[trigger] ts[t]));
    lemma_join_chars(ts);
    assert(modtext == crate::keycodes::join_tokens(ts));
    assert(modtext.len() > 0) by {
        if ts.len() == 1 {
            assert(modtext == ts[0]);
        }
    }
    lemma_table_id_prints_plain(g, low);
    lemma_canonical_plain(g, low);
    let inner = canonical_name_of(low, g).unwrap();
    assert(base_key_name(low, g) == inner);
    let n = qid_name_spec(k, g);
    assert(wrap_form_name(k) is None) by {
        assert(!((k & 0xFF00u16) == 0x0100 || (k & 0xFF00u16) == 0x0200 || (k & 0xFF00u16)
            == 0x0400 || (k & 0xFF00u16) == 0x0800 || (k & 0xFF00u16) == 0x1100 || (k & 0xFF00u16)
            == 0x1200 || (k & 0xFF00u16) == 0x1400 || (k & 0xFF00u16) == 0x1800 || (k & 0xFF00u16)
            == 0x0F00 || (k & 0xFF00u16) == 0x0700 || (k & 0xFF00u16) == 0x0D00 || (k & 0xFF00u16)
            == 0x0A00 || (k & 0xFF00u16) == 0x0C00 || (k & 0xFF00u16) == 0x1A00 || (k & 0xFF00u16)
            == 0x1C00 || (k & 0xFF00u16) == 0x0500 || (k & 0xFF00u16) == 0x0600 || (k & 0xFF00u16)
            == 0x1600 || (k & 0xFF00u16) == 0x1300)) by (bit_vector)
            requires
                (0x2000 <= k && k <= 0x3FFF) || (0x6000 <= k && k <= 0x7FFF),
        ;
    }
    let arg = modtext + ","@ + inner;
    assert(n == fname + "("@ + arg + ")"@) by {
        assert(n == "MT"@ + "("@ + modtext + ","@ + inner + ")"@);
        assert("MT"@ + "("@ + modtext + ","@ + inner + ")"@ =~= fname + "("@ + (modtext + ","@
            + inner) + ")"@);
    }
    assert(vstd::utf8::is_ascii_chars(n) && (forall|j: int|
        0 <= j < n.len() ==> #[trigger] n[j] != ' ') && n[0] != '0' && (forall|j: int|
        0 <= j < fname.len() ==> n[j] != '(') && n[fname.len() as int] == '(') by {
        assert forall|j: int| 0 <= j < n.len() implies '\0' <= #[trigger] n[j] <= '\u{7f}' && n[j]
            != ' ' by {
            if j < fname.len() {
                assert(n[j] == fname[j]);
            } else if j < fname.len() + 1 {
                assert(n[j] == '(');
            } else if j < fname.len() + 1 + modtext.len() {
                assert(n[j] == modtext[j - fname.len() - 1]);
            } else if j < fname.len() + 2 + modtext.len() {
                assert(n[j] == ',');
            } else if j < fname.len() + 2 + modtext.len() + inner.len() {
                assert(n[j] == inner[j - fname.len() - 2 - modtext.len()]);
            } else {
                assert(n[j] == ')');
            }
        }
        assert forall|j: int| 0 <= j < fname.len() implies n[j] != '(' by {
            assert(n[j] == fname[j]);
        }
        assert(n[0] == fname[0]);
    }
    lemma_strip_spaceless(n);
    crate::strutil::lemma_find_char_at(n, '(', fname.len() as int);
    let i = fname.len() as int;
    assert(n.subrange(0, i) =~= fname);
    let rest = n.subrange(i + 1, n.len() as int);
    assert(rest =~= arg + ")"@);
    assert(rest.len() > 0);
    assert(rest.drop_last() =~= arg);
    assert(nq_step(n, g) == crate::keycodes::apply_form(fname, arg, g));
    assert(crate::keycodes::mod_wrap_base(fname) is None);
    assert(crate::keycodes::layer_form_base(fname, g) is None);
    // the first comma sits right after the modifier list
    assert(arg[modtext.len() as int] == ',') by {
        assert((modtext + ","@ + inner)[modtext.len() as int] == ","@[0]);
    }
    assert forall|j: int| 0 <= j < modtext.len() implies arg[j] != ',' by {
        assert(arg[j] == modtext[j]);
    }
    crate::strutil::lemma_find_char_at(arg, ',', modtext.len() as int);
    assert(arg.subrange(0, modtext.len() as int) =~= modtext);
    assert(arg.subrange(modtext.len() as int + 1, arg.len() as int) =~= inner);
    lemma_mod_name_round_trip(m);
    lemma_plain_resolution(inner, g);
    if g == Generation::Current {
        if names::extra_cur_name_of(low) is Some {
            lemma_exact_extra_current(low);
        } else if names::letter_name_of(low) is Some {
            lemma_exact_letter_current(low);
        } else if names::digit_name_of(low) is Some {
            lemma_exact_digit_current(low);
        } else if names::named_name_of(low) is Some {
            lemma_exact_named_current(low);
        } else if names::fkey_name_of(low) is Some {
            lemma_exact_fkey_current(low);
        } else {
            lemma_exact_modkey_current(low);
        }
    } else {
        if names::extra_leg_name_of(low) is Some {
            lemma_exact_extra_legacy(low);
        } else if names::letter_name_of(low) is Some {
            lemma_exact_letter_legacy(low);
        } else if names::digit_name_of(low) is Some {
            lemma_exact_digit_legacy(low);
        } else if names::named_name_of(low) is Some {
            lemma_exact_named_legacy(low);
        } else if names::fkey_name_of(low) is Some {
            lemma_exact_fkey_legacy(low);
        } else {
            lemma_exact_modkey_legacy(low);
        }
    }
    assert(nq_step(inner, g) == Some(low));
    assert(crate::keycodes::apply_form(fname, arg, g) == Some(
        (crate::keycodes::mt_base(g) | ((((m & 0x1F) as u16)) << 8) | (low & 0xFF)) as u16,
    ));
    if g == Generation::Current {
        assert((0x2000u16 | (((((((k >> 8) & 0x1F) as u8) & 0x1F) as u16)) << 8) | (((k
            & 0xFF) as u16) & 0xFF)) == k) by (bit_vector)
            requires
                0x2000 <= k && k <= 0x3FFF,
        ;
    } else {
        assert((0x6000u16 | (((((((k >> 8) & 0x1F) as u8) & 0x1F) as u16)) << 8) | (((k
            & 0xFF) as u16) & 0xFF)) == k) by (bit_vector)
            requires
                0x6000 <= k && k <= 0x7FFF,
        ;
    }
}


/// The layer-tap form round-trips: the printed `LT(layer,KEY)` text of
/// such an id resolves back to exactly that id, whenever the tapped key
/// is a table key.
#[verifier::rlimit(100)]
#[verifier::spinoff_prover]
pub proof fn lemma_lt_round_trip(g: Generation, k: u16)
    requires
        0x4000 <= k <= 0x4FFF,
        canonical_name_of((k & 0xFF) as u16, g) is Some,
    ensures
        name_to_qid_spec(qid_name_spec(k, g), g) == Some(k),
{
    reveal_strlit("A");
    reveal_strlit("ALGR");
    reveal_strlit("C");
    reveal_strlit("DF");
    reveal_strlit("G");
    reveal_strlit("HYPR");
    reveal_strlit("LAG");
    reveal_strlit("LALT");
    reveal_strlit("LCA");
    reveal_strlit("LCAG");
    reveal_strlit("LCMD");
    reveal_strlit("LCTL");
    reveal_strlit("LGUI");
    reveal_strlit("LM");
    reveal_strlit("LOPT");
    reveal_strlit("LSA");
    reveal_strlit("LSFT");
    reveal_strlit("LSG");
    reveal_strlit("LT");
    reveal_strlit("LWIN");
    reveal_strlit("MEH");
    reveal_strlit("MO");
    reveal_strlit("MT");
    reveal_strlit("OSL");
    reveal_strlit("OSM");
    reveal_strlit("PDF");
    reveal_strlit("QK_LALT");
    reveal_strlit("QK_LCTL");
    reveal_strlit("QK_LGUI");
    reveal_strlit("QK_LSFT");
    reveal_strlit("QK_RALT");
    reveal_strlit("QK_RCTL");
    reveal_strlit("QK_RGUI");
    reveal_strlit("QK_RSFT");
    reveal_strlit("RAG");
    reveal_strlit("RALT");
    reveal_strlit("RCMD");
    reveal_strlit("RCS");
    reveal_strlit("RCTL");
    reveal_strlit("RGUI");
    reveal_strlit("ROPT");
    reveal_strlit("RSA");
    reveal_strlit("RSFT");
    reveal_strlit("RSG");
    reveal_strlit("RWIN");
    reveal_strlit("S");
    reveal_strlit("SAGR");
    reveal_strlit("SCMD");
    reveal_strlit("SGUI");
    reveal_strlit("SWIN");
    reveal_strlit("TD");
    reveal_strlit("TG");
    reveal_strlit("TO");
    reveal_strlit("TT");
    reveal_strlit("(");
    reveal_strlit(")");
    reveal_strlit(",");
    assert("A"@.len() == 1);
    assert("ALGR"@.len() == 4);
    assert("C"@.len() == 1);
    assert("DF"@.len() == 2);
    assert("G"@.len() == 1);
    assert("HYPR"@.len() == 4);
    assert("LAG"@.len() == 3);
    assert("LALT"@.len() == 4);
    assert("LCA"@.len() == 3);
    assert("LCAG"@.len() == 4);
    assert("LCMD"@.len() == 4);
    assert("LCTL"@.len() == 4);
    assert("LGUI"@.len() == 4);
    assert("LM"@.len() == 2);
    assert("LOPT"@.len() == 4);
    assert("LSA"@.len() == 3);
    assert("LSFT"@.len() == 4);
    assert("LSG"@.len() == 3);
    assert("LT"@.len() == 2);
    assert("LWIN"@.len() == 4);
    assert("MEH"@.len() == 3);
    assert("MO"@.len() == 2);
    assert("MT"@.len() == 2);
    assert("OSL"@.len() == 3);
    assert("OSM"@.len() == 3);
    assert("PDF"@.len() == 3);
    assert("QK_LALT"@.len() == 7);
    assert("QK_LCTL"@.len() == 7);
    assert("QK_LGUI"@.len() == 7);
    assert("QK_LSFT"@.len() == 7);
    assert("QK_RALT"@.len() == 7);
    assert("QK_RCTL"@.len() == 7);
    assert("QK_RGUI"@.len() == 7);
    assert("QK_RSFT"@.len() == 7);
    assert("RAG"@.len() == 3);
    assert("RALT"@.len() == 4);
    assert("RCMD"@.len() == 4);
    assert("RCS"@.len() == 3);
    assert("RCTL"@.len() == 4);
    assert("RGUI"@.len() == 4);
    assert("ROPT"@.len() == 4);
    assert("RSA"@.len() == 3);
    assert("RSFT"@.len() == 4);
    assert("RSG"@.len() == 3);
    assert("RWIN"@.len() == 4);
    assert("S"@.len() == 1);
    assert("SAGR"@.len() == 4);
    assert("SCMD"@.len() == 4);
    assert("SGUI"@.len() == 4);
    assert("SWIN"@.len() == 4);
    assert("TD"@.len() == 2);
    assert("TG"@.len() == 2);
    assert("TO"@.len() == 2);
    assert("TT"@.len() == 2);
    seq_ne_at("LT"@, "TO"@, 0);
    seq_ne_at("LT"@, "MO"@, 0);
    seq_ne_at("LT"@, "DF"@, 0);
    seq_ne_at("LT"@, "TG"@, 0);
    seq_ne_at("LT"@, "TT"@, 0);
    seq_ne_at("LT"@, "LM"@, 1);
    let low: u16 = (k & 0xFF) as u16;
    let layer: u16 = ((k >> 8) & 0x0F) as u16;
    let fname = "LT"@;
    let d = crate::strutil::dec_str_spec(layer as int);
    crate::strutil::lemma_dec_str_digits(layer as int);
    crate::strutil::lemma_dec_round_trip(layer as int);
    lemma_table_id_prints_plain(g, low);
    lemma_canonical_plain(g, low);
    let inner = canonical_name_of(low, g).unwrap();
    assert(base_key_name(low, g) == inner);
    let n = qid_name_spec(k, g);
    assert(wrap_form_name(k) is None) by {
        assert((k & 0xFF00u16) == 0x4000 || (k & 0xFF00u16) == 0x4100 || (k & 0xFF00u16) == 0x4200
            || (k & 0xFF00u16) == 0x4300 || (k & 0xFF00u16) == 0x4400 || (k & 0xFF00u16) == 0x4500
            || (k & 0xFF00u16) == 0x4600 || (k & 0xFF00u16) == 0x4700 || (k & 0xFF00u16) == 0x4800
            || (k & 0xFF00u16) == 0x4900 || (k & 0xFF00u16) == 0x4A00 || (k & 0xFF00u16) == 0x4B00
            || (k & 0xFF00u16) == 0x4C00 || (k & 0xFF00u16) == 0x4D00 || (k & 0xFF00u16) == 0x4E00
            || (k & 0xFF00u16) == 0x4F00) by (bit_vector)
            requires
                0x4000 <= k && k <= 0x4FFF,
        ;
    }
    let arg = d + ","@ + inner;
    assert(n == fname + "("@ + arg + ")"@) by {
        assert(n == "LT"@ + "("@ + d + ","@ + inner + ")"@);
        assert("LT"@ + "("@ + d + ","@ + inner + ")"@ =~= fname + "("@ + (d + ","@ + inner)
            + ")"@);
    }
    assert(vstd::utf8::is_ascii_chars(n) && (forall|j: int|
        0 <= j < n.len() ==> #[trigger] n[j] != ' ') && n[0] != '0' && (forall|j: int|
        0 <= j < fname.len() ==> n[j] != '(') && n[fname.len() as int] == '(') by {
        assert forall|j: int| 0 <= j < n.len() implies '\0' <= #[trigger] n[j] <= '\u{7f}' && n[j]
            != ' ' by {
            if j < fname.len() {
                assert(n[j] == fname[j]);
            } else if j < fname.len() + 1 {
                assert(n[j] == '(');
            } else if j < fname.len() + 1 + d.len() {
                assert(n[j] == d[j - fname.len() - 1]);
                assert(crate::strutil::digit_val(d[j - fname.len() - 1]) <= 9);
            } else if j < fname.len() + 2 + d.len() {
                assert(n[j] == ',');
            } else if j < fname.len() + 2 + d.len() + inner.len() {
                assert(n[j] == inner[j - fname.len() - 2 - d.len()]);
            } else {
                assert(n[j] == ')');
            }
        }
        assert forall|j: int| 0 <= j < fname.len() implies n[j] != '(' by {
            assert(n[j] == fname[j]);
        }
        assert(n[0] == fname[0]);
    }
    lemma_strip_spaceless(n);
    crate::strutil::lemma_find_char_at(n, '(', fname.len() as int);
    let i = fname.len() as int;
    assert(n.subrange(0, i) =~= fname);
    let rest = n.subrange(i + 1, n.len() as int);
    assert(rest =~= arg + ")"@);
    assert(rest.len() > 0);
    assert(rest.drop_last() =~= arg);
    assert(nq_step(n, g) == crate::keycodes::apply_form(fname, arg, g));
    assert(crate::keycodes::mod_wrap_base(fname) is None);
    assert(crate::keycodes::layer_form_base(fname, g) is None);
    assert(arg[d.len() as int] == ',') by {
        assert((d + ","@ + inner)[d.len() as int] == ","@[0]);
    }
    assert forall|j: int| 0 <= j < d.len() implies arg[j] != ',' by {
        assert(arg[j] == d[j]);
        assert(crate::strutil::digit_val(d[j]) <= 9);
    }
    crate::strutil::lemma_find_char_at(arg, ',', d.len() as int);
    assert(arg.subrange(0, d.len() as int) =~= d);
    assert(arg.subrange(d.len() as int + 1, arg.len() as int) =~= inner);
    lemma_plain_resolution(inner, g);
    if g == Generation::Current {
        if names::extra_cur_name_of(low) is Some {
            lemma_exact_extra_current(low);
        } else if names::letter_name_of(low) is Some {
            lemma_exact_letter_current(low);
        } else if names::digit_name_of(low) is Some {
            lemma_exact_digit_current(low);
        } else if names::named_name_of(low) is Some {
            lemma_exact_named_current(low);
        } else if names::fkey_name_of(low) is Some {
            lemma_exact_fkey_current(low);
        } else {
            lemma_exact_modkey_current(low);
        }
    } else {
        if names::extra_leg_name_of(low) is Some {
            lemma_exact_extra_legacy(low);
        } else if names::letter_name_of(low) is Some {
            lemma_exact_letter_legacy(low);
        } else if names::digit_name_of(low) is Some {
            lemma_exact_digit_legacy(low);
        } else if names::named_name_of(low) is Some {
            lemma_exact_named_legacy(low);
        } else if names::fkey_name_of(low) is Some {
            lemma_exact_fkey_legacy(low);
        } else {
            lemma_exact_modkey_legacy(low);
        }
    }
    assert(nq_step(inner, g) == Some(low));
    assert(crate::keycodes::apply_form(fname, arg, g) == Some(
        (0x4000u16 | (((layer & 0x0F) as u16) << 8) | (low & 0xFF)) as u16,
    ));
    assert((0x4000u16 | ((((((k >> 8) & 0x0F) as u16) & 0x0F) as u16) << 8) | (((k
        & 0xFF) as u16) & 0xFF)) == k) by (bit_vector)
        requires
            0x4000 <= k && k <= 0x4FFF,
    ;
}


/// The layer-mod form round-trips: the printed `LM(layer,mods)` text of
/// such an id resolves back to exactly that id, whenever the embedded
/// modifier value names some base modifier.
#[verifier::rlimit(100)]
#[verifier::spinoff_prover]
pub proof fn lemma_lm_round_trip(g: Generation, k: u16)
    requires
        g == Generation::Current ==> 0x5000 <= k <= 0x51FF && (k & 0x1F) & 0x0F != 0,
        g == Generation::Legacy ==> 0x5900 <= k <= 0x59FF && (k & 0x0F) != 0,
    ensures
        name_to_qid_spec(qid_name_spec(k, g), g) == Some(k),
{
    reveal_strlit("A");
    reveal_strlit("ALGR");
    reveal_strlit("C");
    reveal_strlit("DF");
    reveal_strlit("G");
    reveal_strlit("HYPR");
    reveal_strlit("LAG");
    reveal_strlit("LALT");
    reveal_strlit("LCA");
    reveal_strlit("LCAG");
    reveal_strlit("LCMD");
    reveal_strlit("LCTL");
    reveal_strlit("LGUI");
    reveal_strlit("LM");
    reveal_strlit("LOPT");
    reveal_strlit("LSA");
    reveal_strlit("LSFT");
    reveal_strlit("LSG");
    reveal_strlit("LT");
    reveal_strlit("LWIN");
    reveal_strlit("MEH");
    reveal_strlit("MO");
    reveal_strlit("MT");
    reveal_strlit("OSL");
    reveal_strlit("OSM");
    reveal_strlit("PDF");
    reveal_strlit("QK_LALT");
    reveal_strlit("QK_LCTL");
    reveal_strlit("QK_LGUI");
    reveal_strlit("QK_LSFT");
    reveal_strlit("QK_RALT");
    reveal_strlit("QK_RCTL");
    reveal_strlit("QK_RGUI");
    reveal_strlit("QK_RSFT");
    reveal_strlit("RAG");
    reveal_strlit("RALT");
    reveal_strlit("RCMD");
    reveal_strlit("RCS");
    reveal_strlit("RCTL");
    reveal_strlit("RGUI");
    reveal_strlit("ROPT");
    reveal_strlit("RSA");
    reveal_strlit("RSFT");
    reveal_strlit("RSG");
    reveal_strlit("RWIN");
    reveal_strlit("S");
    reveal_strlit("SAGR");
    reveal_strlit("SCMD");
    reveal_strlit("SGUI");
    reveal_strlit("SWIN");
    reveal_strlit("TD");
    reveal_strlit("TG");
    reveal_strlit("TO");
    reveal_strlit("TT");
    reveal_strlit("(");
    reveal_strlit(")");
    reveal_strlit(",");
    assert("A"@.len() == 1);
    assert("ALGR"@.len() == 4);
    assert("C"@.len() == 1);
    assert("DF"@.len() == 2);
    assert("G"@.len() == 1);
    assert("HYPR"@.len() == 4);
    assert("LAG"@.len() == 3);
    assert("LALT"@.len() == 4);
    assert("LCA"@.len() == 3);
    assert("LCAG"@.len() == 4);
    assert("LCMD"@.len() == 4);
    assert("LCTL"@.len() == 4);
    assert("LGUI"@.len() == 4);
    assert("LM"@.len() == 2);
    assert("LOPT"@.len() == 4);
    assert("LSA"@.len() == 3);
    assert("LSFT"@.len() == 4);
    assert("LSG"@.len() == 3);
    assert("LT"@.len() == 2);
    assert("LWIN"@.len() == 4);
    assert("MEH"@.len() == 3);
    assert("MO"@.len() == 2);
    assert("MT"@.len() == 2);
    assert("OSL"@.len() == 3);
    assert("OSM"@.len() == 3);
    assert("PDF"@.len() == 3);
    assert("QK_LALT"@.len() == 7);
    assert("QK_LCTL"@.len() == 7);
    assert("QK_LGUI"@.len() == 7);
    assert("QK_LSFT"@.len() == 7);
    assert("QK_RALT"@.len() == 7);
    assert("QK_RCTL"@.len() == 7);
    assert("QK_RGUI"@.len() == 7);
    assert("QK_RSFT"@.len() == 7);
    assert("RAG"@.len() == 3);
    assert("RALT"@.len() == 4);
    assert("RCMD"@.len() == 4);
    assert("RCS"@.len() == 3);
    assert("RCTL"@.len() == 4);
    assert("RGUI"@.len() == 4);
    assert("ROPT"@.len() == 4);
    assert("RSA"@.len() == 3);
    assert("RSFT"@.len() == 4);
    assert("RSG"@.len() == 3);
    assert("RWIN"@.len() == 4);
    assert("S"@.len() == 1);
    assert("SAGR"@.len() == 4);
    assert("SCMD"@.len() == 4);
    assert("SGUI"@.len() == 4);
    assert("SWIN"@.len() == 4);
    assert("TD"@.len() == 2);
    assert("TG"@.len() == 2);
    assert("TO"@.len() == 2);
    assert("TT"@.len() == 2);
    seq_ne_at("LM"@, "TO"@, 0);
    seq_ne_at("LM"@, "MO"@, 0);
    seq_ne_at("LM"@, "DF"@, 0);
    seq_ne_at("LM"@, "TG"@, 0);
    seq_ne_at("LM"@, "TT"@, 0);
    let m: u8 = if g == Generation::Current {
        (k & 0x1F) as u8
    } else {
        (k & 0x0F) as u8
    };
    let layer: u16 = if g == Generation::Current {
        ((k >> 5) & 0x0F) as u16
    } else {
        ((k >> 4) & 0x0F) as u16
    };
    assert(m < 0x20 && m & 0x0F != 0) by (bit_vector)
        requires
            (m == (k & 0x1F) as u8 && (k & 0x1F) & 0x0F != 0) || (m == (k & 0x0F) as u8 && (k
                & 0x0F) != 0),
    ;
    let fname = "LM"@;
    let d = crate::strutil::dec_str_spec(layer as int);
    crate::strutil::lemma_dec_str_digits(layer as int);
    crate::strutil::lemma_dec_round_trip(layer as int);
    lemma_mod_token_props();
    let modtext = crate::keycodes::mod_to_name_spec(m);
    let ts = crate::keycodes::mod_tokens(m);
    assert((((m & 0x11 == 0x11) || (m & 0x01 == 0x01)) || ((m & 0x12 == 0x12) || (m & 0x02
        == 0x02)) || ((m & 0x14 == 0x14) || (m & 0x04 == 0x04)) || ((m & 0x18 == 0x18) || (m & 0x08
        == 0x08))) && ((m & 1 == 1) ==> ((m & 0x11 == 0x11) || (m & 0x01 == 0x01))) && ((m & 2 == 2)
        ==> ((m & 0x12 == 0x12) || (m & 0x02 == 0x02))) && ((m & 4 == 4) ==> ((m & 0x14 == 0x14) || (
    m & 0x04 == 0x04))) && ((m & 8 == 8) ==> ((m & 0x18 == 0x18) || (m & 0x08 == 0x08))))
        by (bit_vector)
        requires
            m & 0x0F != 0,
    ;
    assert(ts.len() >= 1);
    assert(forall|t: int| 0 <= t < ts.len() ==> mod_token_printable(#[trigger] ts[t]));
    lemma_join_chars(ts);
    assert(modtext == crate::keycodes::join_tokens(ts));
    let n = qid_name_spec(k, g);
    assert(wrap_form_name(k) is None) by {
        assert((k & 0xFF00u16) == 0x5000 || (k & 0xFF00u16) == 0x5100 || (k & 0xFF00u16) == 0x5900)
            by (bit_vector)
            requires
                (0x5000 <= k && k <= 0x51FF) || (0x5900 <= k && k <= 0x59FF),
        ;
    }
    let arg = d + ","@ + modtext;
    assert(n == fname + "("@ + arg + ")"@) by {
        assert(n == "LM"@ + "("@ + d + ","@ + modtext + ")"@);
        assert("LM"@ + "("@ + d + ","@ + modtext + ")"@ =~= fname + "("@ + (d + ","@ + modtext)
            + ")"@);
    }
    assert(vstd::utf8::is_ascii_chars(n) && (forall|j: int|
        0 <= j < n.len() ==> #[trigger] n[j] != ' ') && n[0] != '0' && (forall|j: int|
        0 <= j < fname.len() ==> n[j] != '(') && n[fname.len() as int] == '(') by {
        assert forall|j: int| 0 <= j < n.len() implies '\0' <= #[trigger] n[j] <= '\u{7f}' && n[j]
            != ' ' by {
            if j < fname.len() {
                assert(n[j] == fname[j]);
            } else if j < fname.len() + 1 {
                assert(n[j] == '(');
            } else if j < fname.len() + 1 + d.len() {
                assert(n[j] == d[j - fname.len() - 1]);
                assert(crate::strutil::digit_val(d[j - fname.len() - 1]) <= 9);
            } else if j < fname.len() + 2 + d.len() {
                assert(n[j] == ',');
            } else if j < fname.len() + 2 + d.len() + modtext.len() {
                assert(n[j] == modtext[j - fname.len() - 2 - d.len()]);
            } else {
                assert(n[j] == ')');
            }
        }
        assert forall|j: int| 0 <= j < fname.len() implies n[j] != '(' by {
            assert(n[j] == fname[j]);
        }
        assert(n[0] == fname[0]);
    }
    lemma_strip_spaceless(n);
    crate::strutil::lemma_find_char_at(n, '(', fname.len() as int);
    let i = fname.len() as int;
    assert(n.subrange(0, i) =~= fname);
    let rest = n.subrange(i + 1, n.len() as int);
    assert(rest =~= arg + ")"@);
    assert(rest.len() > 0);
    assert(rest.drop_last() =~= arg);
    assert(nq_step(n, g) == crate::keycodes::apply_form(fname, arg, g));
    assert(crate::keycodes::mod_wrap_base(fname) is None);
    assert(crate::keycodes::layer_form_base(fname, g) is None);
    assert(arg[d.len() as int] == ',') by {
        assert((d + ","@ + modtext)[d.len() as int] == ","@[0]);
    }
    assert forall|j: int| 0 <= j < d.len() implies arg[j] != ',' by {
        assert(arg[j] == d[j]);
        assert(crate::strutil::digit_val(d[j]) <= 9);
    }
    crate::strutil::lemma_find_char_at(arg, ',', d.len() as int);
    assert(arg.subrange(0, d.len() as int) =~= d);
    assert(arg.subrange(d.len() as int + 1, arg.len() as int) =~= modtext);
    lemma_mod_name_round_trip(m);
    if g == Generation::Current {
        assert(crate::keycodes::apply_form(fname, arg, g) == Some(
            (0x5000u16 | (((layer & 0xF) as u16) << 5) | ((m as u16) & 0x1F)) as u16,
        ));
        assert((0x5000u16 | ((((((k >> 5) & 0x0F) as u16) & 0xF) as u16) << 5) | ((((k
            & 0x1F) as u8) as u16) & 0x1F)) == k) by (bit_vector)
            requires
                0x5000 <= k && k <= 0x51FF,
        ;
    } else {
        assert(crate::keycodes::apply_form(fname, arg, g) == Some(
            (0x5900u16 | (((layer & 0xF) as u16) << 4) | ((m as u16) & 0xF)) as u16,
        ));
        assert((0x5900u16 | ((((((k >> 4) & 0x0F) as u16) & 0xF) as u16) << 4) | ((((k
            & 0x0F) as u8) as u16) & 0xF)) == k) by (bit_vector)
            requires
                0x5900 <= k && k <= 0x59FF,
        ;
    }
}

} // verus!