use vialtool::json::JsonValue;
use vialtool::keycodes::name_to_qid;
use vialtool::macros::{
    deserialize, deserialize_single, load_macros_from_json, macros_to_json, macros_update_payload,
    serialize, Macro, MacroStep,
};

#[test]
fn test_serde1() {
    let b1: &[u8] = &[1, 2, 14, 1, 2, 206, 1, 3, 206, 116, 101, 115, 116, 0];
    assert_eq!(b1, serialize(&deserialize(b1.to_vec()).unwrap()));
}

#[test]
fn test_serde2() {
    let b1: &[u8] = &[
        1, 4, 6, 1, 1, 4, 236, 4, 0, 116, 101, 115, 116, 0, 1, 2, 30, 0, 1, 3, 30, 0, 1, 1, 30, 0,
        84, 69, 83, 84, 1, 4, 101, 1, 0, 1, 5, 126, 255, 0,
    ];
    assert_eq!(b1, serialize(&deserialize(b1.to_vec()).unwrap()));
}

#[test]
fn test_from_string() -> Result<(), vialtool::macros::MacroParsingError> {
    let m = Macro::from_string(12, &"Text(example); Tap(KC_1)".to_string(), 6)?;
    assert_eq!(12, m.index);
    assert_eq!(2, m.steps.len());
    Ok(())
}

fn step_round_trip(step: MacroStep) {
    let m = Macro { index: 0, steps: vec![step] };
    let serialized = m.serialize();
    let deserialized = deserialize_single(0, &serialized).unwrap();
    assert_eq!(m.steps.len(), deserialized.steps.len());
    assert_eq!(m.to_text(), deserialized.to_text());
}

#[test]
fn test_step_serde_round_trip() {
    step_round_trip(MacroStep::Tap(name_to_qid(&"KC_A".to_string(), 6).unwrap()));
    step_round_trip(MacroStep::Down(name_to_qid(&"KC_B".to_string(), 6).unwrap()));
    step_round_trip(MacroStep::Up(name_to_qid(&"KC_C".to_string(), 6).unwrap()));
    step_round_trip(MacroStep::Tap(name_to_qid(&"KC_LCTL".to_string(), 6).unwrap()));
    step_round_trip(MacroStep::Tap(name_to_qid(&"LCTL(KC_C)".to_string(), 6).unwrap()));
    step_round_trip(MacroStep::Delay(100));
    step_round_trip(MacroStep::Text("Hello".to_string()));
}

#[test]
fn test_macrostep_from_string_invalid() {
    assert!(
        MacroStep::from_string("Tap(KC_A", 6).is_err(),
        "Missing closing parenthesis"
    );
    assert!(
        MacroStep::from_string("Unknown(KC_A)", 6).is_err(),
        "Unknown macro type"
    );
    assert!(MacroStep::from_string("Delay(abc)", 6).is_err(), "Non-numeric delay");
}

#[test]
fn test_macrostep_from_json_invalid() {
    let not_array = JsonValue::Str("tap".to_string());
    assert!(MacroStep::from_json(&not_array, 6).is_err(), "Not an array");
    let too_short = JsonValue::Arr(vec![JsonValue::Str("tap".to_string())]);
    assert!(MacroStep::from_json(&too_short, 6).is_err(), "Array too short");
    let action_not_string = JsonValue::Arr(vec![
        JsonValue::UInt(123),
        JsonValue::Str("KC_A".to_string()),
    ]);
    assert!(
        MacroStep::from_json(&action_not_string, 6).is_err(),
        "Action not a string"
    );
    let unknown_action = JsonValue::Arr(vec![
        JsonValue::Str("unknown".to_string()),
        JsonValue::Str("KC_A".to_string()),
    ]);
    assert!(MacroStep::from_json(&unknown_action, 6).is_err(), "Unknown action");
    let delay_not_number = JsonValue::Arr(vec![
        JsonValue::Str("delay".to_string()),
        JsonValue::Str("abc".to_string()),
    ]);
    assert!(
        MacroStep::from_json(&delay_not_number, 6).is_err(),
        "Delay arg not a number"
    );
    let text_not_string = JsonValue::Arr(vec![
        JsonValue::Str("text".to_string()),
        JsonValue::UInt(123),
    ]);
    assert!(
        MacroStep::from_json(&text_not_string, 6).is_err(),
        "Text arg not a string"
    );
    let invalid_keycode = JsonValue::Arr(vec![
        JsonValue::Str("tap".to_string()),
        JsonValue::Str("INVALID".to_string()),
    ]);
    assert!(MacroStep::from_json(&invalid_keycode, 6).is_err(), "Invalid keycode");
}

#[test]
fn test_display_macro_step() {
    assert_eq!(
        MacroStep::Tap(name_to_qid(&"KC_A".to_string(), 6).unwrap()).to_text(),
        "Tap(KC_A)"
    );
    assert_eq!(MacroStep::Delay(100).to_text(), "Delay(100)");
    assert_eq!(MacroStep::Text("hello".to_string()).to_text(), "Text(hello)");
}

#[test]
fn test_display_macro() {
    let m = Macro::from_string(0, &"Tap(KC_A); Delay(100)".to_string(), 6).unwrap();
    assert_eq!(m.to_text(), "0) Tap(KC_A); Delay(100)");
}

#[test]
fn test_macro_from_string_round_trip() {
    let macro_str = "Tap(KC_A); Down(KC_LEFT_CTRL); Text(hello); Up(KC_LEFT_CTRL)".to_string();
    let m1 = Macro::from_string(0, &macro_str, 6).unwrap();
    let ser = serialize(&vec![m1]);
    let m2 = deserialize(ser).unwrap();
    assert_eq!(m2.len(), 1);
    assert_eq!(m2[0].to_text(), format!("0) {}", macro_str));
}

#[test]
fn test_deserialize_edge_cases() {
    assert!(deserialize(vec![]).unwrap().is_empty(), "Empty input");
    assert!(deserialize(vec![0]).unwrap().is_empty(), "Single zero byte");
    let m = deserialize(vec![1, 1, 4, 0, 1, 1, 5, 0]).unwrap();
    assert_eq!(m.len(), 2, "Two macros");
    assert_eq!(m[0].to_text(), "0) Tap(KC_A)");
    assert_eq!(m[1].to_text(), "1) Tap(KC_B)");
}

#[test]
fn macro_test_json_round_trip() -> Result<(), vialtool::macros::MacroParsingError> {
    let original_macro = Macro::from_string(0, &"Tap(KC_A); Delay(100); Text(test)".to_string(), 6)?;
    let macros_vec = vec![original_macro];
    let json_val = macros_to_json(&macros_vec, 6)?;
    let loaded_macros = load_macros_from_json(&JsonValue::Arr(json_val), 6)?;
    assert_eq!(loaded_macros.len(), 1);
    assert_eq!(loaded_macros[0].to_text(), macros_vec[0].to_text());
    Ok(())
}

#[test]
fn test_load_macros_from_json() {
    let json = JsonValue::Arr(vec![
        JsonValue::Arr(vec![
            JsonValue::Arr(vec![
                JsonValue::Str("tap".to_string()),
                JsonValue::Str("KC_A".to_string()),
                JsonValue::Str("KC_B".to_string()),
            ]),
            JsonValue::Arr(vec![JsonValue::Str("delay".to_string()), JsonValue::UInt(100)]),
            JsonValue::Arr(vec![
                JsonValue::Str("text".to_string()),
                JsonValue::Str("hello".to_string()),
            ]),
        ]),
        JsonValue::Arr(vec![
            JsonValue::Arr(vec![
                JsonValue::Str("down".to_string()),
                JsonValue::Str("KC_LCTL".to_string()),
            ]),
            JsonValue::Arr(vec![
                JsonValue::Str("tap".to_string()),
                JsonValue::Str("KC_C".to_string()),
            ]),
            JsonValue::Arr(vec![
                JsonValue::Str("up".to_string()),
                JsonValue::Str("KC_LCTL".to_string()),
            ]),
        ]),
    ]);
    let macros = load_macros_from_json(&json, 6).unwrap();
    assert_eq!(macros.len(), 2);
    assert_eq!(macros[0].steps.len(), 4);
    assert_eq!(macros[1].steps.len(), 3);
    assert_eq!(macros[0].to_text(), "0) Tap(KC_A); Tap(KC_B); Delay(100); Text(hello)");
}

#[test]
fn test_dsl_wire_scenario() {
    // the documented three-step serialization, byte for byte
    let m = Macro::from_string(0, "Tap(KC_A); Delay(100); Text(hi)", 6).unwrap();
    let bytes = m.serialize();
    let id = name_to_qid("KC_A", 6).unwrap();
    assert!(id < 256);
    // prefix, short-tap command, keycode; then the biased delay triple; then the text bytes
    assert_eq!(
        bytes,
        vec![1u8, 1, id as u8, 1, 4, 100 % 255 + 1, 100 / 255 + 1, b'h', b'i']
    );
    let back = deserialize_single(0, &bytes).unwrap();
    assert_eq!(back.to_text(), "0) Tap(KC_A); Delay(100); Text(hi)");
}

#[test]
fn test_capacity_check_fails_closed() {
    // forty macro bytes against a 32-byte buffer must fail before any write
    let mut steps = Vec::new();
    for _ in 0..10 {
        steps.push(MacroStep::Tap(4));
    }
    let m = Macro { index: 0, steps };
    assert_eq!(m.serialize().len() + 1, 31);
    let too_long = Macro {
        index: 0,
        steps: (0..13).map(|_| MacroStep::Tap(4)).collect(),
    };
    assert_eq!(too_long.serialize().len() + 1, 40);
    let err = macros_update_payload(&vec![too_long], 16, 32);
    assert!(err.is_err());
    let ok = macros_update_payload(&vec![m], 16, 32);
    assert_eq!(ok.unwrap().len(), 31);
}

#[test]
fn test_capacity_count_bound() {
    let macros: Vec<Macro> = (0..3)
        .map(|i| Macro { index: i as u8, steps: vec![MacroStep::Tap(4)] })
        .collect();
    assert!(macros_update_payload(&macros, 2, 1024).is_err());
    assert!(macros_update_payload(&macros, 3, 1024).is_ok());
    // and the serialized image must fit the buffer exactly as reported
    assert_eq!(macros_update_payload(&macros, 3, 12).unwrap().len(), 12);
    assert!(macros_update_payload(&macros, 3, 11).is_err());
}
