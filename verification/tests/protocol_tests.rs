use vialtool::protocol::{
    decompress_definition, frame_output_report, negotiation_feed, negotiation_probe,
    negotiation_start, trailing_empty_start, Capabilities, NegotiationState, RetryBudget,
};

fn resp(bytes: &[(usize, u8)]) -> [u8; 32] {
    let mut r = [0u8; 32];
    for (i, b) in bytes {
        r[*i] = *b;
    }
    r
}

#[test]
fn test_framing_pads_to_report_size() {
    let framed = frame_output_report(&vec![0x01, 0x02]);
    assert_eq!(framed.len(), 33);
    assert_eq!(framed[0], 0);
    assert_eq!(framed[1], 0x01);
    assert_eq!(framed[2], 0x02);
    assert!(framed[3..].iter().all(|b| *b == 0));
}

#[test]
fn test_retry_budget() {
    let b = RetryBudget::start();
    assert_eq!(b.attempts_left, 5);
    let b = b.after_recv_failure().unwrap();
    let b = b.after_recv_failure().unwrap();
    let b = b.after_recv_failure().unwrap();
    let b = b.after_recv_failure().unwrap();
    assert_eq!(b.attempts_left, 1);
    assert!(b.after_recv_failure().is_none());
}

fn run_negotiation(responses: &[[u8; 32]]) -> NegotiationState {
    let mut st = negotiation_start();
    for r in responses {
        assert!(negotiation_probe(&st).is_some(), "a probe is owed in every live state");
        st = negotiation_feed(st, r);
    }
    st
}

#[test]
fn test_negotiation_full_device() {
    let responses = [
        resp(&[(2, 9)]),                                  // via version 9
        resp(&[(0, 6), (1, 0), (2, 0), (3, 0)]),          // vial version 6
        resp(&[(0, 0x91), (1, 2)]),                       // companion version 2
        resp(&[(1, 4)]),                                  // four layers
        resp(&[(1, 16)]),                                 // sixteen macros
        resp(&[(1, 1), (2, 0)]),                          // buffer size 0x0100
        resp(&[(0, 8), (1, 10), (2, 12), (3, 14), (31, 3)]),
    ];
    let st = run_negotiation(&responses);
    match st {
        NegotiationState::Done { caps } => {
            assert_eq!(
                caps,
                Capabilities {
                    via_version: 9,
                    vial_version: 6,
                    companion_hid_version: 2,
                    layer_count: 4,
                    macro_count: 16,
                    macro_buffer_size: 256,
                    tap_dance_count: 8,
                    combo_count: 10,
                    key_override_count: 12,
                    alt_repeat_key_count: 14,
                    caps_word: true,
                    layer_lock: true,
                }
            );
        }
        other => panic!("negotiation should be done, was {:?}", other),
    }
}

#[test]
fn test_negotiation_absent_vial_scenario() {
    // the vial keyboard id probe answers unhandled: vial version zero,
    // every dynamic-entry count zero, and the dynamic probe never issued
    let responses = [
        resp(&[(2, 2)]),          // via version 2
        resp(&[(0, 0xFF)]),       // vial id unhandled
        resp(&[]),                // no companion
        resp(&[(1, 4)]),          // four layers
        resp(&[(1, 8)]),          // eight macros
        resp(&[(1, 0), (2, 32)]), // buffer size 32
    ];
    let mut st = negotiation_start();
    let mut dynamic_probe_seen = false;
    for r in &responses {
        if let Some(probe) = negotiation_probe(&st) {
            if probe == vec![0xFE, 0x0D, 0x00] {
                dynamic_probe_seen = true;
            }
        }
        st = negotiation_feed(st, r);
    }
    assert!(!dynamic_probe_seen, "the dynamic-entry probe must never be issued");
    assert!(negotiation_probe(&st).is_none(), "a finished negotiation sends nothing");
    match st {
        NegotiationState::Done { caps } => {
            assert_eq!(caps.vial_version, 0);
            assert_eq!(caps.tap_dance_count, 0);
            assert_eq!(caps.combo_count, 0);
            assert_eq!(caps.key_override_count, 0);
            assert_eq!(caps.alt_repeat_key_count, 0);
            assert!(!caps.caps_word);
            assert!(!caps.layer_lock);
            assert_eq!(caps.macro_buffer_size, 32);
        }
        other => panic!("negotiation should be done, was {:?}", other),
    }
}

#[test]
fn test_negotiation_skips_layer_probe_without_via() {
    let responses = [
        resp(&[(2, 0)]),    // via version zero
        resp(&[(0, 0xFF)]), // vial unhandled
        resp(&[]),          // no companion
    ];
    let st = run_negotiation(&responses);
    // the next probe asks for the macro count, not the layer count
    assert_eq!(negotiation_probe(&st).unwrap(), vec![0x0C]);
    match st {
        NegotiationState::ExpectMacroCount { layer_count, .. } => assert_eq!(layer_count, 0),
        other => panic!("expected the macro count probe, was {:?}", other),
    }
}

#[test]
fn test_negotiation_dynamic_unhandled_fails() {
    let responses = [
        resp(&[(2, 9)]),
        resp(&[(0, 5)]),
        resp(&[]),
        resp(&[(1, 4)]),
        resp(&[(1, 8)]),
        resp(&[(1, 0), (2, 32)]),
        resp(&[(0, 0xFF)]),
    ];
    let st = run_negotiation(&responses);
    assert!(matches!(st, NegotiationState::Failed));
}

#[test]
fn test_trailing_empty_start() {
    assert_eq!(trailing_empty_start(&vec![]), 0);
    assert_eq!(trailing_empty_start(&vec![true, true]), 0);
    assert_eq!(trailing_empty_start(&vec![false, true, true]), 1);
    assert_eq!(trailing_empty_start(&vec![false, true, false, true, true]), 3);
    assert_eq!(trailing_empty_start(&vec![false, false]), 2);
}

#[test]
fn test_lock_status_parsing() {
    let mut data = [255u8; 32];
    data[0] = 0;
    data[1] = 1;
    data[2] = 3;
    data[3] = 4;
    data[4] = 5;
    data[5] = 6;
    let st = vialtool::protocol::locked_status_from_response(&data);
    assert!(st.locked);
    assert!(st.unlock_in_progress);
    assert_eq!(st.unlock_buttons, vec![(3, 4), (5, 6)]);

    let mut data2 = [255u8; 32];
    data2[0] = 1;
    data2[1] = 0;
    let st2 = vialtool::protocol::locked_status_from_response(&data2);
    assert!(!st2.locked);
    assert!(!st2.unlock_in_progress);
    assert!(st2.unlock_buttons.is_empty());
}

#[test]
fn test_uid_parsing() {
    let mut data = [0u8; 32];
    for i in 0..8 {
        data[4 + i] = (i + 1) as u8;
    }
    assert_eq!(
        vialtool::protocol::uid_from_response(&data),
        u64::from_le_bytes([1, 2, 3, 4, 5, 6, 7, 8])
    );
}

#[test]
fn test_definition_decompression() {
    // a round trip through the compressor proves the wrapper hands back
    // the decompressed stream, not its argument
    let original = b"layout definition payload, compressed for the wire".to_vec();
    let compressed = lzma::compress(&original, 6).unwrap();
    assert_ne!(compressed, original);
    let unpacked = decompress_definition(&compressed).unwrap();
    assert_eq!(unpacked, original);
    assert!(decompress_definition(&vec![1, 2, 3]).is_err());
}

#[test]
fn test_definition_size_parsing() {
    let mut data = [0u8; 32];
    data[0] = 0x10;
    data[1] = 0x20;
    assert_eq!(
        vialtool::protocol::definition_size_from_response(&data).unwrap(),
        0x2010
    );
    data[0] = 0xFF;
    data[1] = 0;
    data[2] = 0;
    data[3] = 0;
    assert!(vialtool::protocol::definition_size_from_response(&data).is_none());
}

#[test]
fn test_lock_status_list_exact() {
    // the pair list is exactly the non-filler slots, in slot order
    let mut data = [255u8; 32];
    data[0] = 0;
    data[1] = 0;
    data[2] = 1;
    data[3] = 2;
    // slot 1 left as filler, slot 2 set
    data[6] = 3;
    data[7] = 4;
    let st = vialtool::protocol::locked_status_from_response(&data);
    assert_eq!(st.unlock_buttons, vec![(1, 2), (3, 4)]);
}
