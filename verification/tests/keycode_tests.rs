use vialtool::keycodes::{bitmod_to_name, name_to_bitmod, name_to_qid, qid_to_name, qid_to_short};

#[test]
fn test_5_to_name() {
    assert_eq!(qid_to_name(0x7228, 5), "MT(MOD_RSFT,KC_ENTER)");
    assert_eq!(qid_to_name(0x5f10, 5), "QK_TRI_LAYER_LOWER");
    assert_eq!(qid_to_name(0x5f11, 5), "QK_TRI_LAYER_UPPER");
    assert_eq!(qid_to_name(0x5f1c, 5), "QK_MACRO_10");
    assert_eq!(qid_to_name(0x5c14, 5), "QK_MAGIC_TOGGLE_NKRO");
}

#[test]
fn test_5_to_short() {
    assert_eq!(qid_to_short(0x7228, 5), "MT(MOD_RSFT,KC_ENTER)");
    assert_eq!(qid_to_short(0x5f10, 5), "Fn1,Fn3");
    assert_eq!(qid_to_short(0x5f11, 5), "Fn2,Fn3");
    assert_eq!(qid_to_short(0x5f1c, 5), "QK_MACRO_10");
}

#[test]
fn test_5_to_code() {
    assert_eq!(name_to_qid("MT(MOD_RSFT,KC_ENTER)", 5).unwrap(), 0x7228);
    assert_eq!(name_to_qid("QK_TRI_LAYER_LOWER", 5).unwrap(), 0x5f10);
    assert_eq!(name_to_qid("QK_TRI_LAYER_UPPER", 5).unwrap(), 0x5f11);
    assert_eq!(name_to_qid("QK_MACRO_10", 5).unwrap(), 0x5f1c);
    assert_eq!(name_to_qid("QK_MAGIC_TOGGLE_NKRO", 5).unwrap(), 0x5c14);
}

#[test]
fn test_6_to_name() {
    assert_eq!(qid_to_name(0x3228, 6), "MT(MOD_RSFT,KC_ENTER)");
    assert_eq!(qid_to_name(0x7C77, 6), "QK_TRI_LAYER_LOWER");
    assert_eq!(qid_to_name(0x7C78, 6), "QK_TRI_LAYER_UPPER");
    assert_eq!(qid_to_name(0x770A, 6), "QK_MACRO_10");
    assert_eq!(qid_to_name(0x7013, 6), "QK_MAGIC_TOGGLE_NKRO");
}

#[test]
fn test_6_to_short() {
    assert_eq!(qid_to_short(0x3228, 6), "MT(MOD_RSFT,KC_ENTER)");
    assert_eq!(qid_to_short(0x7C77, 6), "Fn1,Fn3");
    assert_eq!(qid_to_short(0x7C78, 6), "Fn2,Fn3");
    assert_eq!(qid_to_short(0x770A, 6), "QK_MACRO_10");
}

#[test]
fn test_6_to_code() {
    assert_eq!(name_to_qid("MT(MOD_RSFT,KC_ENTER)", 6).unwrap(), 0x3228);
    assert_eq!(name_to_qid("QK_TRI_LAYER_LOWER", 6).unwrap(), 0x7C77);
    assert_eq!(name_to_qid("QK_TRI_LAYER_UPPER", 6).unwrap(), 0x7C78);
    assert_eq!(name_to_qid("QK_MACRO_10", 6).unwrap(), 0x770A);
    assert_eq!(name_to_qid("QK_MAGIC_TOGGLE_NKRO", 6).unwrap(), 0x7013);
}

#[test]
fn test_composite_forms_round_trip() {
    // one example of each documented composite shape, both directions
    let forms = [
        "LCTL(KC_1)",
        "LSFT(KC_A)",
        "LALT(KC_B)",
        "LGUI(KC_C)",
        "RCTL(KC_D)",
        "RSFT(KC_E)",
        "RALT(KC_F)",
        "RGUI(KC_G)",
        "HYPR(KC_H)",
        "MEH(KC_I)",
        "LCAG(KC_J)",
        "LSG(KC_K)",
        "LAG(KC_L)",
        "RSG(KC_M)",
        "RAG(KC_N)",
        "LCA(KC_O)",
        "LSA(KC_P)",
        "RSA(KC_Q)",
        "RCS(KC_R)",
        "TO(1)",
        "MO(2)",
        "DF(3)",
        "PDF(4)",
        "TG(2)",
        "OSL(5)",
        "TT(6)",
        "OSM(MOD_LSFT)",
        "LM(1,MOD_LCTL)",
        "LT(1,KC_D)",
        "MT(MOD_LSFT,KC_2)",
        "TD(1)",
    ];
    for name in forms {
        let id = name_to_qid(name, 6).unwrap();
        assert_eq!(qid_to_name(id, 6), *name, "current generation: {}", name);
        let id2 = name_to_qid(&qid_to_name(id, 6), 6).unwrap();
        assert_eq!(id2, id, "current generation id: {}", name);
    }
    let legacy_forms = [
        "LCTL(KC_1)",
        "TO(1)",
        "MO(2)",
        "DF(3)",
        "TG(2)",
        "OSL(5)",
        "TT(6)",
        "OSM(MOD_LSFT)",
        "LT(1,KC_D)",
        "MT(MOD_LSFT,KC_2)",
        "TD(1)",
    ];
    for name in legacy_forms {
        let id = name_to_qid(name, 5).unwrap();
        assert_eq!(qid_to_name(id, 5), *name, "legacy generation: {}", name);
    }
}

#[test]
fn test_mod_tap_alias_forms() {
    // the _T aliases carry a fixed modifier operand into the mod-tap form
    assert_eq!(
        name_to_qid("LCTL_T(KC_A)", 6).unwrap(),
        name_to_qid("MT(MOD_LCTL,KC_A)", 6).unwrap()
    );
    assert_eq!(
        name_to_qid("HYPR_T(KC_B)", 6).unwrap(),
        name_to_qid("MT(MOD_LCTL|MOD_LSFT|MOD_LALT|MOD_LGUI,KC_B)", 6).unwrap()
    );
    assert_eq!(
        name_to_qid("RSFT_T(KC_ENTER)", 6).unwrap(),
        name_to_qid("MT(MOD_RSFT,KC_ENTER)", 6).unwrap()
    );
    assert_eq!(name_to_qid("RSFT_T(KC_ENTER)", 6).unwrap(), 0x3228);
    assert_eq!(name_to_qid("RSFT_T(KC_ENTER)", 5).unwrap(), 0x7228);
}

#[test]
fn test_mod_wrap_scenario() {
    // a single-modifier wrapper ORs its fixed high-bit range into the key
    assert_eq!(
        name_to_qid("LCTL(KC_1)", 6).unwrap(),
        0x0100 | name_to_qid("KC_1", 6).unwrap()
    );
    assert_eq!(qid_to_name(name_to_qid("LCTL(KC_1)", 6).unwrap(), 6), "LCTL(KC_1)");
}

#[test]
fn test_hex_literal_current_only() {
    assert_eq!(name_to_qid("0x1234", 6).unwrap(), 0x1234);
    assert_eq!(name_to_qid("0x00ab", 6).unwrap(), 0xab);
    assert!(name_to_qid("0x1234", 5).is_err());
    // an id in no table prints as a hex literal in the current generation
    assert_eq!(qid_to_name(0x00FB, 6), "0xfb");
    // and as a placeholder in the legacy one
    assert_eq!(qid_to_name(0x00FB, 5), "UNKNOWN");
}

#[test]
fn test_spaces_ignored() {
    assert_eq!(
        name_to_qid("MT( MOD_RSFT , KC_ENTER )", 6).unwrap(),
        name_to_qid("MT(MOD_RSFT,KC_ENTER)", 6).unwrap()
    );
}

#[test]
fn test_unknown_names_fail() {
    assert!(name_to_qid("KC_BOGUS", 6).is_err());
    assert!(name_to_qid("NOPE(KC_A)", 6).is_err());
    assert!(name_to_qid("LT(1)", 6).is_err());
    assert!(name_to_qid("MT(MOD_LSFT)", 6).is_err());
    assert!(name_to_qid("TO(x)", 6).is_err());
}

#[test]
fn test_table_round_trip_samples() {
    // every canonical table name resolves and prints back unchanged
    let names = [
        "KC_NO",
        "KC_TRNS",
        "KC_A",
        "KC_Z",
        "KC_1",
        "KC_0",
        "KC_ENTER",
        "KC_SPACE",
        "KC_F1",
        "KC_F12",
        "KC_LEFT_CTRL",
        "KC_RIGHT_GUI",
        "KC_PAGE_DOWN",
        "KC_CAPS_LOCK",
    ];
    for n in names {
        let v5 = name_to_qid(n, 5).unwrap();
        assert_eq!(qid_to_name(v5, 5), *n);
        let v6 = name_to_qid(n, 6).unwrap();
        assert_eq!(qid_to_name(v6, 6), *n);
    }
    // aliases resolve to the id of the canonical spelling
    assert_eq!(
        name_to_qid("KC_LCTL", 6).unwrap(),
        name_to_qid("KC_LEFT_CTRL", 6).unwrap()
    );
    assert_eq!(name_to_qid("KC_ENT", 6).unwrap(), name_to_qid("KC_ENTER", 6).unwrap());
}

#[test]
fn test_bitmod_round_trip() {
    assert_eq!(name_to_bitmod("LCTL").unwrap(), 0x01);
    assert_eq!(name_to_bitmod("MOD_BIT_RGUI").unwrap(), 0x80);
    assert_eq!(name_to_bitmod("LCTL|RSFT").unwrap(), 0x21);
    assert!(name_to_bitmod("WHAT").is_err());
    assert_eq!(bitmod_to_name(0x00), "KC_NO");
    assert_eq!(bitmod_to_name(0x01), "MOD_BIT_LCTRL");
    assert_eq!(bitmod_to_name(0x21), "MOD_BIT_LCTRL|MOD_BIT_RSHIFT");
    let m = 0xB5u8;
    assert_eq!(name_to_bitmod(&bitmod_to_name(m)).unwrap(), m);
}
