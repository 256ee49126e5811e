use vialtool::json::JsonValue;
use vialtool::qmk_settings::{
    load_qmk_settings_from_json, qmk_settings_to_json, qsids_page_from_response, QmkValue,
};

fn obj(pairs: Vec<(&str, JsonValue)>) -> JsonValue {
    JsonValue::Obj(pairs.into_iter().map(|(k, v)| (k.to_string(), v)).collect())
}

#[test]
fn test_qmk_value_getters() {
    let qv = QmkValue { value: 5 };
    assert_eq!(qv.get(), 5);
    assert!(qv.get_bool(0));
    assert!(!qv.get_bool(1));
    assert!(qv.get_bool(2));
    assert!(!qv.get_bool(3));

    let qv_zero = QmkValue { value: 0 };
    assert_eq!(qv_zero.get(), 0);
    assert!(!qv_zero.get_bool(0));
    assert!(!qv_zero.get_bool(31));
}

#[test]
fn test_load_qmk_settings_from_json_valid() {
    let json_input = obj(vec![
        ("100", JsonValue::UInt(12345)),
        ("200", JsonValue::UInt(67890)),
    ]);
    let settings = load_qmk_settings_from_json(&json_input).unwrap();
    assert_eq!(settings.len(), 2);
    assert_eq!(settings.get(100).unwrap().get(), 12345);
    assert_eq!(settings.get(200).unwrap().get(), 67890);

    let empty_json = obj(vec![]);
    let empty_settings = load_qmk_settings_from_json(&empty_json).unwrap();
    assert!(empty_settings.is_empty());
}

#[test]
fn test_load_qmk_settings_from_json_invalid() {
    let not_an_object = JsonValue::Arr(vec![
        JsonValue::Str("100".to_string()),
        JsonValue::UInt(12345),
    ]);
    assert!(
        load_qmk_settings_from_json(&not_an_object).is_err(),
        "Should error for non-object input"
    );

    let invalid_key = obj(vec![("abc", JsonValue::UInt(12345))]);
    assert!(
        load_qmk_settings_from_json(&invalid_key).is_err(),
        "Should error for non-numeric string key"
    );

    let invalid_value = obj(vec![("100", JsonValue::Str("not_a_number".to_string()))]);
    assert!(
        load_qmk_settings_from_json(&invalid_value).is_err(),
        "Should error for non-numeric value"
    );

    let invalid_float_value = obj(vec![("100", JsonValue::OtherNum)]);
    assert!(
        load_qmk_settings_from_json(&invalid_float_value).is_err(),
        "Should error for float value"
    );
}

#[test]
fn test_qmk_settings_to_json_valid() {
    let mut input = vialtool::qmk_settings::QmkSettings::new();
    input.put(200, QmkValue { value: 67890 });
    input.put(100, QmkValue { value: 12345 });

    let json_output = qmk_settings_to_json(&input).unwrap();
    match &json_output {
        JsonValue::Obj(members) => {
            assert_eq!(members.len(), 2);
            // keys come out in ascending qsid order
            assert_eq!(members[0].0, "100");
            assert!(matches!(members[0].1, JsonValue::UInt(12345)));
            assert_eq!(members[1].0, "200");
            assert!(matches!(members[1].1, JsonValue::UInt(67890)));
        }
        _ => panic!("settings should render as an object"),
    }

    let empty = vialtool::qmk_settings::QmkSettings::new();
    match qmk_settings_to_json(&empty).unwrap() {
        JsonValue::Obj(members) => assert!(members.is_empty()),
        _ => panic!("settings should render as an object"),
    }
}

#[test]
fn test_qmk_settings_json_round_trip() {
    let json_input = obj(vec![
        ("7", JsonValue::UInt(3)),
        ("2", JsonValue::UInt(9)),
        ("2", JsonValue::UInt(11)),
    ]);
    let settings = load_qmk_settings_from_json(&json_input).unwrap();
    // the repeated key keeps the last value
    assert_eq!(settings.len(), 2);
    assert_eq!(settings.get(2).unwrap().get(), 11);
    let out = qmk_settings_to_json(&settings).unwrap();
    let back = load_qmk_settings_from_json(&out).unwrap();
    assert_eq!(back.len(), 2);
    assert_eq!(back.get(2).unwrap().get(), 11);
    assert_eq!(back.get(7).unwrap().get(), 3);
}

#[test]
fn test_qsid_scan_page() {
    // a page of three qsids then the terminal sentinel
    let mut data = [0u8; 32];
    data[0] = 5;
    data[1] = 0;
    data[2] = 9;
    data[3] = 0;
    data[4] = 2;
    data[5] = 1;  // 0x0102
    data[6] = 0xFF;
    data[7] = 0xFF;
    let (qsids, cur, done) = qsids_page_from_response(&data, 0);
    assert_eq!(qsids, vec![5, 9, 0x0102]);
    assert!(done);
    // the cursor advances to the page maximum, which includes the sentinel
    // as observed in the wire convention
    assert_eq!(cur, 0xFFFF);

    // a full page without the sentinel asks for another page
    let mut data2 = [0u8; 32];
    for i in 0..16 {
        data2[i * 2] = (i + 1) as u8;
    }
    let (qsids2, cur2, done2) = qsids_page_from_response(&data2, 0);
    assert_eq!(qsids2.len(), 16);
    assert!(!done2);
    assert_eq!(cur2, 16);
}

#[test]
fn test_qmk_value_read_widths() {
    let mut data = [0u8; 32];
    data[0] = 0;
    data[1] = 0x11;
    data[2] = 0x22;
    data[3] = 0x33;
    data[4] = 0x44;
    assert_eq!(
        vialtool::qmk_settings::qmk_value_from_response(&data, 1).unwrap().get(),
        0x11
    );
    assert_eq!(
        vialtool::qmk_settings::qmk_value_from_response(&data, 2).unwrap().get(),
        0x2211
    );
    assert_eq!(
        vialtool::qmk_settings::qmk_value_from_response(&data, 4).unwrap().get(),
        0x44332211
    );
    // any other width reads one byte
    assert_eq!(
        vialtool::qmk_settings::qmk_value_from_response(&data, 3).unwrap().get(),
        0x11
    );
    data[0] = 1;
    assert!(vialtool::qmk_settings::qmk_value_from_response(&data, 1).is_err());
}
