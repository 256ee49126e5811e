use vialtool::json::JsonValue;
use vialtool::layout::{LayoutGroup, LayoutOptions};

fn two_group_descriptor(state: u32) -> LayoutOptions {
    // labels: [["split", "no", "yes", "wide"], "caps"] — a 3-variant group
    // over the boolean group, the last-declared group in the lowest bits
    let labels = JsonValue::Arr(vec![
        JsonValue::Arr(vec![
            JsonValue::Str("split".to_string()),
            JsonValue::Str("no".to_string()),
            JsonValue::Str("yes".to_string()),
            JsonValue::Str("wide".to_string()),
        ]),
        JsonValue::Str("caps".to_string()),
    ]);
    LayoutOptions::from_json(state, &labels).unwrap()
}

#[test]
fn test_layout_from_json_groups() {
    let lo = two_group_descriptor(0);
    assert_eq!(lo.options.len(), 2);
    assert_eq!(lo.options[0].name, "split");
    assert_eq!(lo.options[0].variants.len(), 3);
    assert_eq!(lo.options[0].start_bit, 1);
    assert_eq!(lo.options[1].name, "caps");
    assert_eq!(lo.options[1].variants, vec!["false", "true"]);
    assert_eq!(lo.options[1].start_bit, 0);
    assert!(!lo.is_empty());
    assert!(LayoutOptions::empty().is_empty());
    let null_case = LayoutOptions::from_json(7, &JsonValue::Null).unwrap();
    assert!(null_case.is_empty());
}

#[test]
fn test_layout_encode_decode_scenario() {
    // encode (group0 = 1, group1 = 2) over prior bits, then decode: the
    // report must be exactly those selections, the other group untouched
    let mut lo = two_group_descriptor(0xFFFF_FF00);
    lo.set_via_options(vec![(1, 1)]).unwrap();
    lo.set_via_options(vec![(0, 2)]).unwrap();
    let sel = lo.via_options();
    assert_eq!(sel, vec![(0, 2), (1, 1)]);

    // flipping one group leaves the other's decoded variant alone
    lo.set_via_options(vec![(1, 0)]).unwrap();
    assert_eq!(lo.via_options(), vec![(0, 2), (1, 0)]);
    lo.set_via_options(vec![(0, 0)]).unwrap();
    assert_eq!(lo.via_options(), vec![(0, 0), (1, 0)]);
}

#[test]
fn test_layout_bit_packing_exact() {
    // the 3-variant group spans bits 1..3, the boolean group bit 0
    let mut lo = two_group_descriptor(0);
    lo.set_via_options(vec![(0, 2), (1, 1)]).unwrap();
    assert_eq!(lo.state, 0b101);
    lo.set_via_options(vec![(0, 1)]).unwrap();
    assert_eq!(lo.state, 0b011);
    lo.set_via_options(vec![(0, 0), (1, 0)]).unwrap();
    assert_eq!(lo.state, 0);
}

#[test]
fn test_layout_decode_default_plus_one_hot() {
    // field value zero selects variant 0; a one-hot value selects the
    // variant above its bit
    let lo = two_group_descriptor(0b100);
    assert_eq!(lo.via_options(), vec![(0, 2), (1, 0)]);
    let lo2 = two_group_descriptor(0b011);
    assert_eq!(lo2.via_options(), vec![(0, 1), (1, 1)]);
}

#[test]
fn test_layout_requests() {
    let get = vialtool::layout::layout_options_get_request();
    assert_eq!(get, vec![0x02, 0x02]);
    let set = vialtool::layout::layout_options_set_request(0x01020304);
    assert_eq!(set, vec![0x03, 0x02, 0x01, 0x02, 0x03, 0x04]);
    let mut resp = [0u8; 32];
    resp[2] = 0x0A;
    resp[3] = 0x0B;
    resp[4] = 0x0C;
    resp[5] = 0x0D;
    assert_eq!(
        vialtool::layout::layout_options_from_response(&resp).unwrap(),
        0x0A0B0C0D
    );
    resp[0] = 0xFF;
    assert!(vialtool::layout::layout_options_from_response(&resp).is_none());
}

#[test]
fn test_layout_group_struct_direct() {
    let g = LayoutGroup {
        name: "tilt".to_string(),
        variants: vec!["flat".to_string(), "raised".to_string()],
        start_bit: 3,
    };
    let mut lo = LayoutOptions { state: 0, options: vec![g] };
    lo.set_via_options(vec![(0, 1)]).unwrap();
    assert_eq!(lo.state, 0b1000);
    assert_eq!(lo.via_options(), vec![(0, 1)]);
}

#[test]
fn test_layout_from_json_shapes() {
    // a malformed label fails the whole build
    let bad = JsonValue::Arr(vec![JsonValue::UInt(3)]);
    assert!(LayoutOptions::from_json(0, &bad).is_err());
    let short_tuple = JsonValue::Arr(vec![JsonValue::Arr(vec![JsonValue::Str(
        "lonely".to_string(),
    )])]);
    assert!(LayoutOptions::from_json(0, &short_tuple).is_err());
    // names and variant lists carry over exactly
    let labels = JsonValue::Arr(vec![
        JsonValue::Str("top".to_string()),
        JsonValue::Arr(vec![
            JsonValue::Str("mid".to_string()),
            JsonValue::Str("a".to_string()),
            JsonValue::Str("b".to_string()),
        ]),
        JsonValue::Str("low".to_string()),
    ]);
    let lo = LayoutOptions::from_json(9, &labels).unwrap();
    assert_eq!(lo.state, 9);
    assert_eq!(lo.options.len(), 3);
    assert_eq!(lo.options[0].name, "top");
    assert_eq!(lo.options[0].start_bit, 2); // one variant-span and one bool below it
    assert_eq!(lo.options[1].name, "mid");
    assert_eq!(lo.options[1].variants, vec!["a", "b"]);
    assert_eq!(lo.options[1].start_bit, 1);
    assert_eq!(lo.options[2].name, "low");
    assert_eq!(lo.options[2].start_bit, 0);
}
