use vialtool::json::JsonValue;
use vialtool::keycodes::qid_to_name;
use vialtool::tap_dance::{load_tap_dances_from_json, tap_dances_to_json, TapDance};

#[test]
fn test_tap_hold() {
    let tapdance = TapDance::from_string(7, &"KC_V + KC_B ~ 50".to_string(), 6).unwrap();
    assert_eq!(tapdance.index, 7);
    assert_eq!(qid_to_name(tapdance.tap, 6), "KC_V");
    assert_eq!(qid_to_name(tapdance.hold, 6), "KC_B");
    assert_eq!(tapdance.double_tap, 0);
    assert_eq!(tapdance.tap_hold, 0);
    assert_eq!(tapdance.tapping_term, 50);
}

#[test]
fn test_from_string_one_key() {
    let td = TapDance::from_string(0, &"KC_A ~ 100".to_string(), 6).unwrap();
    assert_eq!(qid_to_name(td.tap, 6), "KC_A");
    assert_eq!(td.hold, 0);
    assert_eq!(td.tapping_term, 100);
}

#[test]
fn test_from_string_four_keys() {
    let td = TapDance::from_string(1, &"KC_A+KC_B+KC_C+KC_D ~ 200".to_string(), 6).unwrap();
    assert_eq!(qid_to_name(td.tap, 6), "KC_A");
    assert_eq!(qid_to_name(td.hold, 6), "KC_B");
    assert_eq!(qid_to_name(td.double_tap, 6), "KC_C");
    assert_eq!(qid_to_name(td.tap_hold, 6), "KC_D");
    assert_eq!(td.tapping_term, 200);
}

#[test]
fn tap_dance_test_from_string_errors() {
    assert!(TapDance::from_string(0, &"KC_A".to_string(), 6).is_err(), "Missing ~");
    assert!(
        TapDance::from_string(0, &"KC_A ~ abc".to_string(), 6).is_err(),
        "Invalid tapping term"
    );
    assert!(
        TapDance::from_string(0, &"INVALID ~ 100".to_string(), 6).is_err(),
        "Invalid keycode"
    );
}

#[test]
fn tap_dance_test_from_json_valid() {
    let json = JsonValue::Arr(vec![
        JsonValue::Str("KC_A".to_string()),
        JsonValue::Str("KC_B".to_string()),
        JsonValue::Str("KC_C".to_string()),
        JsonValue::Str("KC_D".to_string()),
        JsonValue::UInt(250),
    ]);
    let td = TapDance::from_json(0, &json, 6).unwrap();
    assert_eq!(qid_to_name(td.tap, 6), "KC_A");
    assert_eq!(qid_to_name(td.hold, 6), "KC_B");
    assert_eq!(qid_to_name(td.double_tap, 6), "KC_C");
    assert_eq!(qid_to_name(td.tap_hold, 6), "KC_D");
    assert_eq!(td.tapping_term, 250);
}

#[test]
fn tap_dance_test_from_json_errors() {
    assert!(
        TapDance::from_json(0, &JsonValue::Str("KC_A".to_string()), 6).is_err(),
        "Not an array"
    );

    // A short array is not an error, it just fills with KC_NO
    let td = TapDance::from_json(0, &JsonValue::Arr(vec![JsonValue::Str("KC_A".to_string())]), 6)
        .unwrap();
    assert_eq!(qid_to_name(td.tap, 6), "KC_A");
    assert_eq!(td.hold, 0);

    let too_long = JsonValue::Arr(vec![
        JsonValue::Str("KC_A".to_string()),
        JsonValue::Str("KC_B".to_string()),
        JsonValue::Str("KC_C".to_string()),
        JsonValue::Str("KC_D".to_string()),
        JsonValue::UInt(200),
        JsonValue::Str("KC_E".to_string()),
    ]);
    assert!(TapDance::from_json(0, &too_long, 6).is_err(), "Array too long");

    let term_not_number = JsonValue::Arr(vec![
        JsonValue::Str("KC_A".to_string()),
        JsonValue::Str("KC_B".to_string()),
        JsonValue::Str("KC_C".to_string()),
        JsonValue::Str("KC_D".to_string()),
        JsonValue::Str("KC_E".to_string()),
    ]);
    assert!(
        TapDance::from_json(0, &term_not_number, 6).is_err(),
        "Tapping term not a number"
    );

    let keycode_not_string = JsonValue::Arr(vec![
        JsonValue::UInt(1),
        JsonValue::UInt(2),
        JsonValue::UInt(3),
        JsonValue::UInt(4),
        JsonValue::UInt(100),
    ]);
    assert!(
        TapDance::from_json(0, &keycode_not_string, 6).is_err(),
        "Keycode not a string"
    );

    let invalid_keycode = JsonValue::Arr(vec![
        JsonValue::Str("INVALID".to_string()),
        JsonValue::Str("KC_B".to_string()),
        JsonValue::Str("KC_C".to_string()),
        JsonValue::Str("KC_D".to_string()),
        JsonValue::UInt(100),
    ]);
    assert!(TapDance::from_json(0, &invalid_keycode, 6).is_err(), "Invalid keycode");
}

#[test]
fn tap_dance_test_empty_and_is_empty() {
    let empty_td = TapDance::empty(0);
    assert!(empty_td.is_empty());
    assert_eq!(empty_td.tapping_term, 0);

    let non_empty_td = TapDance::from_string(1, &"KC_A ~ 100".to_string(), 6).unwrap();
    assert!(!non_empty_td.is_empty());
}

#[test]
fn tap_dance_test_display() {
    let empty_td = TapDance::empty(0);
    assert_eq!(empty_td.to_text(), "0) EMPTY");

    let full_td = TapDance::from_string(1, &"KC_A + KC_B + KC_C + KC_D ~ 200".to_string(), 6)
        .unwrap();
    assert_eq!(
        full_td.to_text(),
        "1) On tap: KC_A, On hold: KC_B, On double tap: KC_C, On tap + hold: KC_D, Tapping term (ms) = 200"
    );

    let partial_td = TapDance::from_string(2, &"KC_A + KC_NO ~ 150".to_string(), 6).unwrap();
    assert_eq!(partial_td.to_text(), "2) On tap: KC_A, Tapping term (ms) = 150");
}

#[test]
fn tap_dance_test_json_round_trip() {
    let td1 = TapDance::from_string(0, &"KC_A + KC_B ~ 100".to_string(), 6).unwrap();
    let td2 = TapDance::from_string(1, &"KC_C + KC_D + KC_E ~ 200".to_string(), 6).unwrap();
    let tap_dances = vec![td1, td2];

    let json_val = tap_dances_to_json(&tap_dances, 6).unwrap();
    let loaded_tap_dances = load_tap_dances_from_json(&JsonValue::Arr(json_val), 6).unwrap();

    assert_eq!(tap_dances.len(), loaded_tap_dances.len());
    assert_eq!(tap_dances[0].to_text(), loaded_tap_dances[0].to_text());
    assert_eq!(tap_dances[1].to_text(), loaded_tap_dances[1].to_text());
    assert_eq!(tap_dances[0], loaded_tap_dances[0]);
    assert_eq!(tap_dances[1], loaded_tap_dances[1]);
}

#[test]
fn test_tap_dance_wire_round_trip() {
    let td = TapDance::from_string(4, "KC_A + KC_B ~ 321", 6).unwrap();
    let msg = td.set_request();
    let decoded = TapDance::from_wire(4, &msg[3..]);
    assert_eq!(decoded, td);
}
