use vialtool::json::JsonValue;
use vialtool::keymap::{keymap_buffer_request, set_keycode_request, Buffer, Keymap};

#[test]
fn test_keymap_from_json_and_lookup() {
    // one layer, one row, two columns: a name and a hex literal
    let layers_data = JsonValue::Arr(vec![JsonValue::Arr(vec![JsonValue::Arr(vec![
        JsonValue::Str("KC_A".to_string()),
        JsonValue::Str("0x3228".to_string()),
    ])])]);
    let km = Keymap::from_json(1, 2, 1, &layers_data, 6).unwrap();
    assert_eq!(km.keys, vec![0x00, 0x04, 0x32, 0x28]);
    assert_eq!(km.get_long(0, 0, 0, 6).unwrap(), "KC_A");
    assert_eq!(km.get_long(0, 0, 1, 6).unwrap(), "MT(MOD_RSFT,KC_ENTER)");
    assert_eq!(km.get_short(0, 0, 0, 6).unwrap(), "KC_A");
    assert!(km.get_long(1, 0, 0, 6).is_err());
    assert!(km.get_long(0, 1, 0, 6).is_err());
    assert!(km.get_long(0, 0, 2, 6).is_err());
}

#[test]
fn test_keymap_from_json_number_is_blank() {
    let layers_data = JsonValue::Arr(vec![JsonValue::Arr(vec![JsonValue::Arr(vec![
        JsonValue::UInt(7),
    ])])]);
    let km = Keymap::from_json(1, 1, 1, &layers_data, 6).unwrap();
    assert_eq!(km.keys, vec![0, 0]);
    assert_eq!(km.get_long(0, 0, 0, 6).unwrap(), "KC_NO");
}

#[test]
fn test_keymap_requests() {
    assert_eq!(keymap_buffer_request(0x0102, 28), vec![0x12, 0x01, 0x02, 28]);
    assert_eq!(
        set_keycode_request(1, 2, 3, 0x3228),
        vec![0x05, 1, 2, 3, 0x32, 0x28]
    );
}

#[test]
fn test_render_buffer() {
    let mut b = Buffer::new();
    b.put(2, 1, 'x');
    b.put(0, 1, 'y');
    assert_eq!(b.height(), 2);
    assert_eq!(b.line(1), "y x");
    assert_eq!(b.line(0), "");
    assert_eq!(b.first_visible_line(), 1);
}

#[test]
fn test_rgb_effect_names() {
    assert_eq!(vialtool::rgb::RGBInfo::effect_name(0).unwrap(), "Disable");
    assert_eq!(vialtool::rgb::RGBInfo::effect_name(44).unwrap(), "Pixel Fractal");
    assert!(vialtool::rgb::RGBInfo::effect_name(45).is_err());
}

#[test]
fn test_encoder_wire_and_json() {
    let data = [0x01u8, 0x04, 0x00, 0x05];
    let e = vialtool::encoder::Encoder::from_wire(2, &data);
    assert_eq!(e.ccw, 0x0104);
    assert_eq!(e.cw, 0x0005);
    assert_eq!(
        vialtool::encoder::Encoder::get_request(1, 2),
        vec![0xFE, 0x03, 1, 2]
    );
    assert_eq!(
        vialtool::encoder::Encoder::set_request(1, 2, 0, 0x3228),
        vec![0xFE, 0x04, 1, 2, 0, 0x32, 0x28]
    );

    let enc_json = JsonValue::Arr(vec![JsonValue::Arr(vec![JsonValue::Arr(vec![
        JsonValue::Str("KC_A".to_string()),
        JsonValue::Str("KC_B".to_string()),
    ])])]);
    let layers = vialtool::encoder::load_encoders_from_json(&enc_json, 6).unwrap();
    assert_eq!(layers.len(), 1);
    assert_eq!(layers[0].len(), 1);
    assert_eq!(layers[0][0].ccw, 4);
    assert_eq!(layers[0][0].cw, 5);
    let back = vialtool::encoder::encoders_to_json(&layers, 6).unwrap();
    let reload = vialtool::encoder::load_encoders_from_json(&JsonValue::Arr(back), 6).unwrap();
    assert_eq!(reload[0][0], layers[0][0]);

    assert!(vialtool::encoder::load_encoders_from_json(&JsonValue::Null, 6)
        .unwrap()
        .is_empty());
}

#[test]
fn test_macro_stream_end_scan() {
    // three complete runs; the scan stops after the requested count
    let data = vec![1u8, 1, 4, 0, 5, 5, 0, 7, 0];
    assert_eq!(vialtool::macros::macro_stream_end(&data, 2), Some(7));
    assert_eq!(vialtool::macros::macro_stream_end(&data, 3), Some(9));
    assert_eq!(vialtool::macros::macro_stream_end(&data, 9), None);
    // a second consecutive zero ends the scan just before itself
    let padded = vec![1u8, 1, 4, 0, 0, 0];
    assert_eq!(vialtool::macros::macro_stream_end(&padded, 9), Some(4));
}

#[test]
fn test_render_buffer_preserves_cells() {
    let mut b = Buffer::new();
    b.put(0, 0, 'a');
    b.put(4, 0, 'b');
    b.put(1, 2, 'c');
    // earlier cells keep their characters through later writes and growth
    assert_eq!(b.line(0), "a   b");
    assert_eq!(b.line(1), "");
    assert_eq!(b.line(2), " c");
    assert_eq!(b.first_visible_line(), 0);
}

#[test]
fn test_keymap_json_round_trip() {
    let layers_data = JsonValue::Arr(vec![JsonValue::Arr(vec![JsonValue::Arr(vec![
        JsonValue::Str("KC_A".to_string()),
        JsonValue::Str("LCTL(KC_1)".to_string()),
    ])])]);
    let km = Keymap::from_json(1, 2, 1, &layers_data, 6).unwrap();
    let rendered = km.to_json(6).unwrap();
    let back = Keymap::from_json(1, 2, 1, &rendered, 6).unwrap();
    assert_eq!(back.keys, km.keys);
}
