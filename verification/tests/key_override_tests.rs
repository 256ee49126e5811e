use vialtool::json::JsonValue;
use vialtool::key_override::{key_overrides_to_json, load_key_overrides_from_json, KeyOverride};
use vialtool::keycodes::{name_to_qid, qid_to_name};

fn obj(pairs: Vec<(&str, JsonValue)>) -> JsonValue {
    JsonValue::Obj(pairs.into_iter().map(|(k, v)| (k.to_string(), v)).collect())
}

#[test]
fn test_positive() {
    let keyoverride = KeyOverride::from_string(
        9,
        &"trigger=KC_1; replacement=KC_2; layers=1; options=ko_enabled|ko_option_no_reregister_trigger;".to_string(),
        6,
    )
    .unwrap();
    assert_eq!(keyoverride.index, 9);
    assert_eq!(qid_to_name(keyoverride.trigger, 6), "KC_1");
    assert_eq!(qid_to_name(keyoverride.replacement, 6), "KC_2");
    assert_eq!(keyoverride.layers, 2);
    assert_eq!(keyoverride.ko_enabled, true);
    assert_eq!(keyoverride.ko_option_no_reregister_trigger, true);
}

#[test]
fn key_override_test_from_string_full() {
    let s = "t=KC_A; r=KC_B; l=1|3; tm=LCTL; nmm=RCTL; sm=LALT; o=enabled|one_mod".to_string();
    let ko = KeyOverride::from_string(0, &s, 6).unwrap();
    assert_eq!(qid_to_name(ko.trigger, 6), "KC_A");
    assert_eq!(qid_to_name(ko.replacement, 6), "KC_B");
    assert_eq!(ko.layers, (1 << 1) | (1 << 3));
    assert_eq!(ko.trigger_mods, 1);
    assert_eq!(ko.negative_mod_mask, 16);
    assert_eq!(ko.suppressed_mods, 4);
    assert!(ko.ko_enabled);
    assert!(ko.ko_option_one_mod);
}

#[test]
fn key_override_test_from_string_errors() {
    assert!(
        KeyOverride::from_string(0, &"t=KC_A; r".to_string(), 6).is_err(),
        "Missing ="
    );
    assert!(
        KeyOverride::from_string(0, &"foo=bar".to_string(), 6).is_err(),
        "Unknown key"
    );
    assert!(
        KeyOverride::from_string(0, &"t=INVALID".to_string(), 6).is_err(),
        "Invalid keycode"
    );
    assert!(
        KeyOverride::from_string(0, &"l=abc".to_string(), 6).is_err(),
        "Invalid layer"
    );
    assert!(
        KeyOverride::from_string(0, &"o=invalid_option".to_string(), 6).is_err(),
        "Unknown option"
    );
}

#[test]
fn key_override_test_from_json_valid() {
    let json = obj(vec![
        ("trigger", JsonValue::Str("KC_A".to_string())),
        ("replacement", JsonValue::Str("KC_B".to_string())),
        ("layers", JsonValue::UInt(5)),
        ("trigger_mods", JsonValue::UInt(1)),
        ("negative_mod_mask", JsonValue::UInt(2)),
        ("suppressed_mods", JsonValue::UInt(4)),
        ("options", JsonValue::UInt(129)),
    ]);
    let ko = KeyOverride::from_json(0, &json, 6).unwrap();
    assert_eq!(qid_to_name(ko.trigger, 6), "KC_A");
    assert_eq!(qid_to_name(ko.replacement, 6), "KC_B");
    assert_eq!(ko.layers, 5);
    assert_eq!(ko.trigger_mods, 1);
    assert_eq!(ko.negative_mod_mask, 2);
    assert_eq!(ko.suppressed_mods, 4);
    assert!(ko.ko_enabled);
    assert!(ko.ko_option_activation_trigger_down);
}

#[test]
fn key_override_test_from_json_errors() {
    assert!(KeyOverride::from_json(0, &JsonValue::Str("not an object".to_string()), 6).is_err());
    assert!(KeyOverride::from_json(0, &obj(vec![("trigger", JsonValue::UInt(123))]), 6).is_err());
    assert!(
        KeyOverride::from_json(0, &obj(vec![("layers", JsonValue::Str("abc".to_string()))]), 6)
            .is_err()
    );
    assert!(
        KeyOverride::from_json(
            0,
            &obj(vec![("unknown_key", JsonValue::Str("KC_A".to_string()))]),
            6
        )
        .is_err()
    );
}

#[test]
fn key_override_test_options_bitmask() {
    let mut ko = KeyOverride::empty(0);
    assert_eq!(ko.options(), 0);
    ko.ko_enabled = true;
    assert_eq!(ko.options(), 128);
    ko.ko_option_one_mod = true;
    assert_eq!(ko.options(), 136);
    ko.ko_option_no_unregister_on_other_key_down = true;
    assert_eq!(ko.options(), 168);
}

#[test]
fn key_override_test_empty_and_is_empty() {
    let empty_ko = KeyOverride::empty(0);
    assert!(empty_ko.is_empty());

    let mut non_empty = KeyOverride::empty(1);
    non_empty.trigger = name_to_qid(&"KC_A".to_string(), 6).unwrap();
    assert!(!non_empty.is_empty());

    let mut non_empty2 = KeyOverride::empty(2);
    non_empty2.ko_enabled = true;
    assert!(!non_empty2.is_empty());
}

#[test]
fn key_override_test_display() {
    let empty_ko = KeyOverride::empty(0);
    assert_eq!(empty_ko.to_text(), "0) EMPTY");

    let ko = KeyOverride::from_string(1, &"t=KC_A;r=KC_B;l=2|4;tm=LCTL;o=enabled".to_string(), 6)
        .unwrap();
    let display_str = ko.to_text();
    assert!(display_str.contains("trigger = KC_A;"));
    assert!(display_str.contains("replacement = KC_B;"));
    assert!(display_str.contains("layers = 2|4;"));
    assert!(display_str.contains("\n\ttrigger_mods = MOD_BIT_LCTRL;"));
    assert!(display_str.contains("\n\tko_enabled = true"));
}

#[test]
fn key_override_test_json_round_trip() {
    let mut ko1 = KeyOverride::empty(0);
    ko1.trigger = name_to_qid(&"KC_A".to_string(), 6).unwrap();
    ko1.replacement = name_to_qid(&"KC_B".to_string(), 6).unwrap();
    ko1.layers = 1;
    ko1.ko_enabled = true;

    let key_overrides = vec![ko1];
    let json_val = key_overrides_to_json(&key_overrides, 6).unwrap();
    let loaded_kos = load_key_overrides_from_json(&JsonValue::Arr(json_val), 6).unwrap();

    assert_eq!(key_overrides.len(), loaded_kos.len());
    assert_eq!(key_overrides[0].trigger, loaded_kos[0].trigger);
    assert_eq!(key_overrides[0].replacement, loaded_kos[0].replacement);
    assert_eq!(key_overrides[0].layers, loaded_kos[0].layers);
    assert_eq!(key_overrides[0].options(), loaded_kos[0].options());
    assert_eq!(key_overrides[0], loaded_kos[0]);
}

#[test]
fn test_key_override_wire_round_trip() {
    let ko = KeyOverride::from_string(
        2,
        "t=KC_A;r=KC_B;l=2|4;tm=LCTL;nmm=RSFT;sm=LALT;o=enabled|one_mod",
        6,
    )
    .unwrap();
    let msg = ko.set_request();
    let decoded = KeyOverride::from_wire(2, &msg[3..]);
    assert_eq!(decoded, ko);
}
