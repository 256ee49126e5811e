use vialtool::combo::{combos_to_json, load_combos_from_json, Combo};
use vialtool::json::JsonValue;
use vialtool::keycodes::qid_to_name;

fn json_strings(v: &JsonValue) -> Vec<String> {
    match v {
        JsonValue::Arr(items) => items
            .iter()
            .map(|e| match e {
                JsonValue::Str(s) => s.clone(),
                _ => panic!("expected a string element"),
            })
            .collect(),
        _ => panic!("expected an array"),
    }
}

#[test]
fn combo_test_from_string_two_buttons() {
    let combo = Combo::from_string(0, &"KC_V + KC_B = KC_Z".to_string(), 6).unwrap();
    assert_eq!(combo.index, 0);
    assert_eq!(qid_to_name(combo.key1, 6), "KC_V");
    assert_eq!(qid_to_name(combo.key2, 6), "KC_B");
    assert_eq!(combo.key3, 0);
    assert_eq!(combo.key4, 0);
    assert_eq!(qid_to_name(combo.output, 6), "KC_Z");
}

#[test]
fn test_from_string_one_button() {
    let combo = Combo::from_string(0, &"KC_A = KC_B".to_string(), 6).unwrap();
    assert_eq!(qid_to_name(combo.key1, 6), "KC_A");
    assert_eq!(combo.key2, 0);
    assert_eq!(qid_to_name(combo.output, 6), "KC_B");
}

#[test]
fn test_from_string_three_buttons() {
    let combo = Combo::from_string(0, &"KC_A + KC_B + KC_C = KC_D".to_string(), 6).unwrap();
    assert_eq!(qid_to_name(combo.key1, 6), "KC_A");
    assert_eq!(qid_to_name(combo.key2, 6), "KC_B");
    assert_eq!(qid_to_name(combo.key3, 6), "KC_C");
    assert_eq!(combo.key4, 0);
    assert_eq!(qid_to_name(combo.output, 6), "KC_D");
}

#[test]
fn test_from_string_four_buttons() {
    let combo = Combo::from_string(0, &"KC_A + KC_B + KC_C + KC_D = KC_E".to_string(), 6).unwrap();
    assert_eq!(qid_to_name(combo.key1, 6), "KC_A");
    assert_eq!(qid_to_name(combo.key2, 6), "KC_B");
    assert_eq!(qid_to_name(combo.key3, 6), "KC_C");
    assert_eq!(qid_to_name(combo.key4, 6), "KC_D");
    assert_eq!(qid_to_name(combo.output, 6), "KC_E");
}

#[test]
fn test_from_string_invalid_format() {
    let result = Combo::from_string(0, &"KC_A + KC_B KC_Z".to_string(), 6);
    assert!(result.is_err());
    assert_eq!(
        result.unwrap_err().0,
        "resulting action should be declared after ="
    );
}

#[test]
fn test_from_string_invalid_keycode() {
    let result = Combo::from_string(0, &"KC_A + INVALID_KEY = KC_Z".to_string(), 6);
    assert!(result.is_err());
}

#[test]
fn test_empty_combo() {
    let combo = Combo::empty(5);
    assert_eq!(combo.index, 5);
    assert_eq!(combo.key1, 0);
    assert_eq!(combo.key2, 0);
    assert_eq!(combo.key3, 0);
    assert_eq!(combo.key4, 0);
    assert_eq!(combo.output, 0);
    assert!(combo.is_empty());
}

#[test]
fn test_is_empty() {
    let empty_combo = Combo::empty(0);
    assert!(empty_combo.is_empty());

    let non_empty_combo = Combo::from_string(0, &"KC_A = KC_B".to_string(), 6).unwrap();
    assert!(!non_empty_combo.is_empty());
}

#[test]
fn combo_test_from_json_valid() {
    let combo_json = JsonValue::Arr(vec![
        JsonValue::Str("KC_A".to_string()),
        JsonValue::Str("KC_B".to_string()),
        JsonValue::Str("KC_C".to_string()),
        JsonValue::Str("KC_D".to_string()),
        JsonValue::Str("KC_E".to_string()),
    ]);
    let combo = Combo::from_json(0, &combo_json, 6).unwrap();
    assert_eq!(qid_to_name(combo.key1, 6), "KC_A");
    assert_eq!(qid_to_name(combo.key2, 6), "KC_B");
    assert_eq!(qid_to_name(combo.key3, 6), "KC_C");
    assert_eq!(qid_to_name(combo.key4, 6), "KC_D");
    assert_eq!(qid_to_name(combo.output, 6), "KC_E");

    let combo_json_less_keys = JsonValue::Arr(vec![
        JsonValue::Str("KC_A".to_string()),
        JsonValue::Str("KC_NO".to_string()),
        JsonValue::Str("KC_NO".to_string()),
        JsonValue::Str("KC_NO".to_string()),
        JsonValue::Str("KC_B".to_string()),
    ]);
    let combo_less = Combo::from_json(0, &combo_json_less_keys, 6).unwrap();
    assert_eq!(qid_to_name(combo_less.key1, 6), "KC_A");
    assert_eq!(qid_to_name(combo_less.output, 6), "KC_B");
}

#[test]
fn test_from_json_invalid_length_too_long() {
    let combo_json = JsonValue::Arr(vec![
        JsonValue::Str("KC_A".to_string()),
        JsonValue::Str("KC_B".to_string()),
        JsonValue::Str("KC_C".to_string()),
        JsonValue::Str("KC_D".to_string()),
        JsonValue::Str("KC_E".to_string()),
        JsonValue::Str("KC_F".to_string()),
    ]);
    let result = Combo::from_json(0, &combo_json, 6);
    assert!(result.is_err());
    assert_eq!(
        result.unwrap_err().0,
        "combo array should be strictly 5 elements long"
    );
}

#[test]
fn test_from_json_non_string_elements() {
    let combo_json = JsonValue::Arr(vec![
        JsonValue::Str("KC_A".to_string()),
        JsonValue::UInt(123),
        JsonValue::Str("KC_C".to_string()),
        JsonValue::Str("KC_D".to_string()),
        JsonValue::Str("KC_E".to_string()),
    ]);
    let result = Combo::from_json(0, &combo_json, 6);
    assert!(result.is_err());
    assert_eq!(result.unwrap_err().0, "Combo elements should be strings");
}

#[test]
fn test_combos_to_json_empty() {
    let combos = vec![];
    let json_values = combos_to_json(&combos, 6).unwrap();
    assert!(json_values.is_empty());
}

#[test]
fn test_combos_to_json_single_combo() {
    let combo = Combo::from_string(0, &"KC_V = KC_Z".to_string(), 6).unwrap();
    let combos = vec![combo];
    let json_values = combos_to_json(&combos, 6).unwrap();
    assert_eq!(json_values.len(), 1);
    assert_eq!(
        json_strings(&json_values[0]),
        vec!["KC_V", "KC_NO", "KC_NO", "KC_NO", "KC_Z"]
    );
}

#[test]
fn test_combos_to_json_multiple_combos() {
    let combo1 = Combo::from_string(0, &"KC_A = KC_B".to_string(), 6).unwrap();
    let combo2 = Combo::from_string(1, &"KC_C + KC_D = KC_E".to_string(), 6).unwrap();
    let combos = vec![combo1, combo2];
    let json_values = combos_to_json(&combos, 6).unwrap();
    assert_eq!(json_values.len(), 2);
    assert_eq!(
        json_strings(&json_values[0]),
        vec!["KC_A", "KC_NO", "KC_NO", "KC_NO", "KC_B"]
    );
    assert_eq!(
        json_strings(&json_values[1]),
        vec!["KC_C", "KC_D", "KC_NO", "KC_NO", "KC_E"]
    );
}

#[test]
fn test_combo_json_round_trip() {
    // JSON round trip keeps every wire-relevant field
    let c1 = Combo::from_string(0, "KC_A + KC_B = KC_C", 6).unwrap();
    let c2 = Combo::from_string(1, "KC_V = KC_Z", 6).unwrap();
    let json = combos_to_json(&vec![c1, c2], 6).unwrap();
    let back = load_combos_from_json(&JsonValue::Arr(json), 6).unwrap();
    assert_eq!(back.len(), 2);
    assert_eq!(back[0], c1);
    assert_eq!(back[1], c2);
}

#[test]
fn test_combo_wire_round_trip() {
    let c = Combo::from_string(3, "KC_A + KC_B = KC_C", 6).unwrap();
    let msg = c.set_request();
    // the set message carries the fields low byte first after the header
    let decoded = Combo::from_wire(3, &msg[3..]);
    assert_eq!(decoded, c);
}
