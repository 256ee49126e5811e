use vialtool::alt_repeat::{alt_repeats_to_json, load_alt_repeats_from_json, AltRepeat};
use vialtool::json::JsonValue;
use vialtool::keycodes::{name_to_qid, qid_to_name};

fn obj(pairs: Vec<(&str, JsonValue)>) -> JsonValue {
    JsonValue::Obj(pairs.into_iter().map(|(k, v)| (k.to_string(), v)).collect())
}

#[test]
fn test_from_string_two_buttons() {
    let altrepeat = AltRepeat::from_string(
        3,
        &"keycode = KC_3; alt_keycode= KC_5; options= arep_enabled;".to_string(),
        6,
    )
    .unwrap();
    assert_eq!(altrepeat.index, 3);
    assert_eq!(qid_to_name(altrepeat.keycode, 6), "KC_3");
    assert_eq!(qid_to_name(altrepeat.alt_keycode, 6), "KC_5");
    assert_eq!(altrepeat.allowed_mods, 0);
    assert_eq!(altrepeat.arep_enabled, true);
}

#[test]
fn alt_repeat_test_from_string_full() {
    let ar = AltRepeat::from_string(
        0,
        &"k=KC_A; a=KC_B; m=LCTL; o=enabled|bidirectional".to_string(),
        6,
    )
    .unwrap();
    assert_eq!(qid_to_name(ar.keycode, 6), "KC_A");
    assert_eq!(qid_to_name(ar.alt_keycode, 6), "KC_B");
    assert_eq!(ar.allowed_mods, 0b00000001);
    assert!(ar.arep_enabled);
    assert!(ar.arep_option_bidirectional);
    assert!(!ar.arep_option_ignore_mod_handedness);
}

#[test]
fn alt_repeat_test_from_string_errors() {
    assert!(AltRepeat::from_string(0, &"k=KC_A; a".to_string(), 6).is_err(), "Missing =");
    assert!(AltRepeat::from_string(0, &"foo=bar".to_string(), 6).is_err(), "Unknown key");
    assert!(
        AltRepeat::from_string(0, &"o=invalid_option".to_string(), 6).is_err(),
        "Unknown option"
    );
    assert!(
        AltRepeat::from_string(0, &"k=INVALID".to_string(), 6).is_err(),
        "Invalid keycode"
    );
}

#[test]
fn alt_repeat_test_from_json_valid() {
    let json = obj(vec![
        ("keycode", JsonValue::Str("KC_A".to_string())),
        ("alt_keycode", JsonValue::Str("KC_B".to_string())),
        ("allowed_mods", JsonValue::UInt(1)),
        ("options", JsonValue::UInt(10)),
    ]);
    let ar = AltRepeat::from_json(0, &json, 6).unwrap();
    assert_eq!(qid_to_name(ar.keycode, 6), "KC_A");
    assert_eq!(qid_to_name(ar.alt_keycode, 6), "KC_B");
    assert_eq!(ar.allowed_mods, 1);
    assert!(!ar.arep_option_default_to_this_alt_key);
    assert!(ar.arep_option_bidirectional);
    assert!(!ar.arep_option_ignore_mod_handedness);
    assert!(ar.arep_enabled);
}

#[test]
fn alt_repeat_test_from_json_errors() {
    assert!(AltRepeat::from_json(0, &JsonValue::Str("not an object".to_string()), 6).is_err());
    assert!(AltRepeat::from_json(0, &obj(vec![("keycode", JsonValue::UInt(123))]), 6).is_err());
    assert!(
        AltRepeat::from_json(
            0,
            &obj(vec![("allowed_mods", JsonValue::Str("string".to_string()))]),
            6
        )
        .is_err()
    );
    assert!(
        AltRepeat::from_json(0, &obj(vec![("options", JsonValue::Str("string".to_string()))]), 6)
            .is_err()
    );
    assert!(
        AltRepeat::from_json(
            0,
            &obj(vec![("unknown_key", JsonValue::Str("KC_A".to_string()))]),
            6
        )
        .is_err()
    );
}

#[test]
fn alt_repeat_test_options_bitmask() {
    let mut ar = AltRepeat::empty(0);
    assert_eq!(ar.options(), 0);
    ar.arep_enabled = true;
    assert_eq!(ar.options(), 8);
    ar.arep_option_bidirectional = true;
    assert_eq!(ar.options(), 10);
    ar.arep_option_ignore_mod_handedness = true;
    assert_eq!(ar.options(), 14);
    ar.arep_option_default_to_this_alt_key = true;
    assert_eq!(ar.options(), 15);
}

#[test]
fn alt_repeat_test_empty_and_is_empty() {
    let empty_ar = AltRepeat::empty(0);
    assert!(empty_ar.is_empty());

    let mut non_empty = AltRepeat::empty(1);
    non_empty.keycode = name_to_qid(&"KC_A".to_string(), 6).unwrap();
    assert!(!non_empty.is_empty());

    let mut non_empty2 = AltRepeat::empty(2);
    non_empty2.arep_enabled = true;
    assert!(!non_empty2.is_empty());
}

#[test]
fn alt_repeat_test_display() {
    let empty_ar = AltRepeat::empty(0);
    assert_eq!(empty_ar.to_text(), "0) EMPTY");

    let mut ar = AltRepeat::empty(1);
    ar.keycode = name_to_qid(&"KC_A".to_string(), 6).unwrap();
    ar.alt_keycode = name_to_qid(&"KC_B".to_string(), 6).unwrap();
    ar.arep_enabled = true;
    let display_str = ar.to_text();
    assert!(display_str.contains("keycode = KC_A;"));
    assert!(display_str.contains("alt_keycode = KC_B;"));
    assert!(display_str.contains("\n\tarep_enabled = true"));
}

#[test]
fn alt_repeat_test_json_round_trip() {
    let mut ar1 = AltRepeat::empty(0);
    ar1.keycode = name_to_qid(&"KC_A".to_string(), 6).unwrap();
    ar1.arep_enabled = true;
    ar1.arep_option_bidirectional = true;

    let mut ar2 = AltRepeat::empty(1);
    ar2.keycode = name_to_qid(&"KC_X".to_string(), 6).unwrap();
    ar2.alt_keycode = name_to_qid(&"KC_Y".to_string(), 6).unwrap();
    ar2.allowed_mods = 1;

    let alt_repeats = vec![ar1, ar2];

    let json_val = alt_repeats_to_json(&alt_repeats, 6).unwrap();
    let loaded_ars = load_alt_repeats_from_json(&JsonValue::Arr(json_val), 6).unwrap();

    assert_eq!(alt_repeats.len(), loaded_ars.len());
    assert_eq!(alt_repeats[0].keycode, loaded_ars[0].keycode);
    assert_eq!(alt_repeats[0].options(), loaded_ars[0].options());
    assert_eq!(alt_repeats[1].keycode, loaded_ars[1].keycode);
    assert_eq!(alt_repeats[1].alt_keycode, loaded_ars[1].alt_keycode);
    assert_eq!(alt_repeats[1].allowed_mods, loaded_ars[1].allowed_mods);
    assert_eq!(alt_repeats[1].options(), loaded_ars[1].options());
    assert_eq!(alt_repeats[0], loaded_ars[0]);
    assert_eq!(alt_repeats[1], loaded_ars[1]);
}

#[test]
fn test_alt_repeat_emptiness_scenario() {
    // a cleared record with keycode zero is empty; setting only the
    // explicit enabled flag makes the same record non-empty
    let mut ar = AltRepeat::empty(0);
    assert_eq!(ar.keycode, 0);
    assert!(ar.is_empty());
    ar.arep_enabled = true;
    assert!(!ar.is_empty());
}

#[test]
fn test_alt_repeat_wire_round_trip() {
    let ar = AltRepeat::from_string(5, "k=KC_A;a=KC_B;m=LCTL|RSFT;o=enabled|bidirectional", 6)
        .unwrap();
    let msg = ar.set_request();
    let decoded = AltRepeat::from_wire(5, &msg[3..]);
    assert_eq!(decoded, ar);
}
