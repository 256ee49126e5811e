//! Wire-level protocol: command bytes, report framing, the retry budget,
//! capability negotiation, and the small fixed-format exchanges.
use vstd::prelude::*;

verus! {

pub const USAGE_PAGE: u16 = 0xFF60;

pub const USAGE_ID: u16 = 0x61;

/// Payload size of one HID report, each direction.
pub const MESSAGE_LENGTH: usize = 32;

/// Leading response byte that signals an unimplemented command.
pub const VIA_UNHANDLED: u8 = 0xFF;

pub const VIAL_PROTOCOL_DYNAMIC: u32 = 4;

pub const VIAL_PROTOCOL_QMK_SETTINGS: u32 = 4;

pub const CMD_VIA_GET_PROTOCOL_VERSION: u8 = 0x01;

pub const CMD_VIA_VIAL_PREFIX: u8 = 0xFE;

pub const CMD_VIAL_GET_KEYBOARD_ID: u8 = 0x00;

pub const CMD_VIAL_GET_SIZE: u8 = 0x01;

pub const CMD_VIAL_GET_DEFINITION: u8 = 0x02;

pub const CMD_VIA_SET_KEYCODE: u8 = 0x05;

pub const CMD_VIA_GET_LAYER_COUNT: u8 = 0x11;

pub const CMD_VIA_KEYMAP_GET_BUFFER: u8 = 0x12;

pub const CMD_VIAL_DYNAMIC_ENTRY_OP: u8 = 0x0D;

pub const DYNAMIC_VIAL_GET_NUMBER_OF_ENTRIES: u8 = 0x00;

pub const DYNAMIC_VIAL_TAP_DANCE_GET: u8 = 0x01;

pub const DYNAMIC_VIAL_TAP_DANCE_SET: u8 = 0x02;

pub const DYNAMIC_VIAL_COMBO_GET: u8 = 0x03;

pub const DYNAMIC_VIAL_COMBO_SET: u8 = 0x04;

pub const DYNAMIC_VIAL_KEY_OVERRIDE_GET: u8 = 0x05;

pub const DYNAMIC_VIAL_KEY_OVERRIDE_SET: u8 = 0x06;

pub const DYNAMIC_VIAL_ALT_REPEAT_KEY_GET: u8 = 0x07;

pub const DYNAMIC_VIAL_ALT_REPEAT_KEY_SET: u8 = 0x08;

pub const CMD_VIAL_QMK_SETTINGS_QUERY: u8 = 0x09;

pub const CMD_VIAL_QMK_SETTINGS_GET: u8 = 0x0A;

pub const CMD_VIAL_QMK_SETTINGS_SET: u8 = 0x0B;

pub const CMD_VIAL_QMK_SETTINGS_RESET: u8 = 0x0C;

pub const CMD_VIA_MACRO_GET_COUNT: u8 = 0x0C;

pub const CMD_VIA_MACRO_GET_BUFFER_SIZE: u8 = 0x0D;

pub const CMD_VIA_MACRO_GET_BUFFER: u8 = 0x0E;

pub const CMD_VIA_MACRO_SET_BUFFER: u8 = 0x0F;

pub const CMD_VIAL_GET_UNLOCK_STATUS: u8 = 0x05;

pub const CMD_VIAL_UNLOCK_START: u8 = 0x06;

pub const CMD_VIAL_UNLOCK_POLL: u8 = 0x07;

pub const CMD_VIAL_GET_ENCODER: u8 = 0x03;

pub const CMD_VIAL_SET_ENCODER: u8 = 0x04;

pub const CMD_VIA_GET_KEYBOARD_VALUE: u8 = 0x02;

pub const CMD_VIA_SET_KEYBOARD_VALUE: u8 = 0x03;

pub const VIA_LAYOUT_OPTIONS: u8 = 0x02;

pub const BUFFER_FETCH_CHUNK: u8 = 28;

/// A protocol-level failure that carries no transport error: the device
/// answered that the command is unhandled, or a reply had an unexpected
/// shape.
#[derive(Debug)]
pub enum ProtocolError {
    ViaUnhandledError,
    GeneralError(String),
}

/// Pads a request to the fixed report size and prepends the zero report
/// id, producing the exact byte buffer written to the device.
pub fn frame_output_report(data: &Vec<u8>) -> (r: Vec<u8>)
    requires
        data@.len() <= MESSAGE_LENGTH,
    ensures
        r@.len() == MESSAGE_LENGTH + 1,
        r@[0] == 0u8,
        forall|i: int| 0 <= i < data@.len() ==> r@[i + 1] == data@[i],
        forall|i: int| data@.len() < i <= MESSAGE_LENGTH ==> r@[i] == 0u8,
{
    let mut buff: Vec<u8> = Vec::new();
    let mut i: usize = 0;
    while i < MESSAGE_LENGTH + 1
        invariant
            i <= MESSAGE_LENGTH + 1,
            buff@.len() == i,
            forall|j: int| 0 <= j < i ==> buff@[j] == 0u8,
        decreases MESSAGE_LENGTH + 1 - i,
    {
        buff.push(0u8);
        i = i + 1;
    }
    let mut k: usize = 0;
    while k < data.len()
        invariant
            k <= data@.len(),
            data@.len() <= MESSAGE_LENGTH,
            buff@.len() == MESSAGE_LENGTH + 1,
            forall|j: int| 0 <= j < k ==> buff@[j + 1] == data@[j],
            buff@[0] == 0u8,
            forall|j: int| k < j <= MESSAGE_LENGTH ==> buff@[j] == 0u8,
        decreases data@.len() - k,
    {
        buff.set(k + 1, data[k]);
        k = k + 1;
    }
    buff
}

/// How many receive attempts one request is given before it fails.
pub const RECV_ATTEMPTS: u8 = 5;

/// The retry budget of one request: receive failures are retried until
/// the budget is spent; a send failure is never retried.
#[derive(Clone, Copy, PartialEq, Eq, Structural, Debug)]
pub struct RetryBudget {
    pub attempts_left: u8,
}

impl RetryBudget {
    /// A fresh budget for one request.
    pub fn start() -> (r: RetryBudget)
        ensures
            r.attempts_left == RECV_ATTEMPTS,
    {
        RetryBudget { attempts_left: RECV_ATTEMPTS }
    }

    /// Spends one failed receive attempt: the budget that is left, or
    /// None when the attempts are used up and the request fails.
    pub fn after_recv_failure(self) -> (r: Option<RetryBudget>)
        ensures
            self.attempts_left > 1 ==> r == Some(
                RetryBudget { attempts_left: (self.attempts_left - 1) as u8 },
            ),
            self.attempts_left <= 1 ==> r is None,
    {
        if self.attempts_left > 1 {
            Some(RetryBudget { attempts_left: self.attempts_left - 1 })
        } else {
            None
        }
    }
}


pub const HID_LAYERS_IN: u8 = 0x88;

pub const GET_VERSION: u8 = 0x00;

pub const HID_LAYERS_OUT_VERSION: u8 = 0x91;

/// The per-session capability record, computed once by negotiation and
/// immutable thereafter.
#[derive(Clone, Copy, PartialEq, Eq, Structural, Debug)]
pub struct Capabilities {
    pub via_version: u8,
    pub vial_version: u32,
    pub companion_hid_version: u8,
    pub layer_count: u8,
    pub tap_dance_count: u8,
    pub combo_count: u8,
    pub key_override_count: u8,
    pub alt_repeat_key_count: u8,
    pub macro_count: u8,
    pub macro_buffer_size: u16,
    pub caps_word: bool,
    pub layer_lock: bool,
}

/// Where the capability negotiation stands: which probe's response is
/// expected next, with what has been learned so far. The layer-count probe
/// is skipped when the via probe reported version zero; the dynamic-entry
/// probe is reached only when the vial version supports dynamic entries.
#[derive(Clone, Copy, PartialEq, Eq, Structural, Debug)]
pub enum NegotiationState {
    ExpectViaVersion,
    ExpectVialId { via_version: u8 },
    ExpectCompanion { via_version: u8, vial_version: u32 },
    ExpectLayerCount { via_version: u8, vial_version: u32, companion_hid_version: u8 },
    ExpectMacroCount {
        via_version: u8,
        vial_version: u32,
        companion_hid_version: u8,
        layer_count: u8,
    },
    ExpectMacroBufferSize {
        via_version: u8,
        vial_version: u32,
        companion_hid_version: u8,
        layer_count: u8,
        macro_count: u8,
    },
    ExpectDynamicEntries {
        via_version: u8,
        vial_version: u32,
        companion_hid_version: u8,
        layer_count: u8,
        macro_count: u8,
        macro_buffer_size: u16,
    },
    Done { caps: Capabilities },
    Failed,
}

/// The state negotiation starts in.
pub fn negotiation_start() -> (r: NegotiationState)
    ensures
        r == NegotiationState::ExpectViaVersion,
{
    NegotiationState::ExpectViaVersion
}

/// The request to send for the probe a state expects, None once the
/// negotiation has ended. In particular no request is ever issued from
/// `Done`: a device without dynamic entries is never sent the
/// dynamic-entry-count probe.
pub fn negotiation_probe(state: &NegotiationState) -> (r: Option<Vec<u8>>)
    ensures
        match *state {
            NegotiationState::ExpectViaVersion => r is Some && r.unwrap()@ =~= seq![
                CMD_VIA_GET_PROTOCOL_VERSION,
            ],
            NegotiationState::ExpectVialId { .. } => r is Some && r.unwrap()@ =~= seq![
                CMD_VIA_VIAL_PREFIX,
                CMD_VIAL_GET_KEYBOARD_ID,
            ],
            NegotiationState::ExpectCompanion { .. } => r is Some && r.unwrap()@ =~= seq![
                HID_LAYERS_IN,
                GET_VERSION,
            ],
            NegotiationState::ExpectLayerCount { .. } => r is Some && r.unwrap()@ =~= seq![
                CMD_VIA_GET_LAYER_COUNT,
            ],
            NegotiationState::ExpectMacroCount { .. } => r is Some && r.unwrap()@ =~= seq![
                CMD_VIA_MACRO_GET_COUNT,
            ],
            NegotiationState::ExpectMacroBufferSize { .. } => r is Some && r.unwrap()@ =~= seq![
                CMD_VIA_MACRO_GET_BUFFER_SIZE,
            ],
            NegotiationState::ExpectDynamicEntries { .. } => r is Some && r.unwrap()@ =~= seq![
                CMD_VIA_VIAL_PREFIX,
                CMD_VIAL_DYNAMIC_ENTRY_OP,
                DYNAMIC_VIAL_GET_NUMBER_OF_ENTRIES,
            ],
            NegotiationState::Done { .. } => r is None,
            NegotiationState::Failed => r is None,
        },
{
    let mut v: Vec<u8> = Vec::new();
    match state {
        NegotiationState::ExpectViaVersion => {
            v.push(CMD_VIA_GET_PROTOCOL_VERSION);
            Some(v)
        },
        NegotiationState::ExpectVialId { .. } => {
            v.push(CMD_VIA_VIAL_PREFIX);
            v.push(CMD_VIAL_GET_KEYBOARD_ID);
            Some(v)
        },
        NegotiationState::ExpectCompanion { .. } => {
            v.push(HID_LAYERS_IN);
            v.push(GET_VERSION);
            Some(v)
        },
        NegotiationState::ExpectLayerCount { .. } => {
            v.push(CMD_VIA_GET_LAYER_COUNT);
            Some(v)
        },
        NegotiationState::ExpectMacroCount { .. } => {
            v.push(CMD_VIA_MACRO_GET_COUNT);
            Some(v)
        },
        NegotiationState::ExpectMacroBufferSize { .. } => {
            v.push(CMD_VIA_MACRO_GET_BUFFER_SIZE);
            Some(v)
        },
        NegotiationState::ExpectDynamicEntries { .. } => {
            v.push(CMD_VIA_VIAL_PREFIX);
            v.push(CMD_VIAL_DYNAMIC_ENTRY_OP);
            v.push(DYNAMIC_VIAL_GET_NUMBER_OF_ENTRIES);
            Some(v)
        },
        NegotiationState::Done { .. } => None,
        NegotiationState::Failed => None,
    }
}

/// The next state after one probe's response, as `negotiation_feed`
/// computes it. A leading `0xFF` means the probed feature is absent, not
/// an error, except at the dynamic-entry probe, where it fails the
/// negotiation.
pub open spec fn negotiation_feed_spec(state: NegotiationState, resp: Seq<u8>) -> NegotiationState {
    if resp.len() < 32 {
        state
    } else {
        match state {
            NegotiationState::ExpectViaVersion => NegotiationState::ExpectVialId {
                via_version: resp[2],
            },
            NegotiationState::ExpectVialId { via_version } => NegotiationState::ExpectCompanion {
                via_version,
                vial_version: if resp[0] != VIA_UNHANDLED {
                    (((resp[3] as u32) << 24) | ((resp[2] as u32) << 16) | ((resp[1] as u32) << 8)
                        | (resp[0] as u32)) as u32
                } else {
                    0u32
                },
            },
            NegotiationState::ExpectCompanion { via_version, vial_version } => {
                let companion_hid_version = if resp[0] == HID_LAYERS_OUT_VERSION {
                    resp[1]
                } else {
                    0u8
                };
                if via_version == 0 {
                    NegotiationState::ExpectMacroCount {
                        via_version,
                        vial_version,
                        companion_hid_version,
                        layer_count: 0u8,
                    }
                } else {
                    NegotiationState::ExpectLayerCount {
                        via_version,
                        vial_version,
                        companion_hid_version,
                    }
                }
            },
            NegotiationState::ExpectLayerCount {
                via_version,
                vial_version,
                companion_hid_version,
            } => NegotiationState::ExpectMacroCount {
                via_version,
                vial_version,
                companion_hid_version,
                layer_count: if resp[0] != VIA_UNHANDLED {
                    resp[1]
                } else {
                    0u8
                },
            },
            NegotiationState::ExpectMacroCount {
                via_version,
                vial_version,
                companion_hid_version,
                layer_count,
            } => NegotiationState::ExpectMacroBufferSize {
                via_version,
                vial_version,
                companion_hid_version,
                layer_count,
                macro_count: if resp[0] != VIA_UNHANDLED {
                    resp[1]
                } else {
                    0u8
                },
            },
            NegotiationState::ExpectMacroBufferSize {
                via_version,
                vial_version,
                companion_hid_version,
                layer_count,
                macro_count,
            } => {
                let macro_buffer_size: u16 = if resp[0] != VIA_UNHANDLED {
                    (((resp[1] as u16) << 8) | (resp[2] as u16)) as u16
                } else {
                    0u16
                };
                if vial_version < VIAL_PROTOCOL_DYNAMIC {
                    NegotiationState::Done {
                        caps: Capabilities {
                            via_version,
                            vial_version,
                            companion_hid_version,
                            layer_count,
                            macro_count,
                            macro_buffer_size,
                            tap_dance_count: 0u8,
                            combo_count: 0u8,
                            key_override_count: 0u8,
                            alt_repeat_key_count: 0u8,
                            caps_word: false,
                            layer_lock: false,
                        },
                    }
                } else {
                    NegotiationState::ExpectDynamicEntries {
                        via_version,
                        vial_version,
                        companion_hid_version,
                        layer_count,
                        macro_count,
                        macro_buffer_size,
                    }
                }
            },
            NegotiationState::ExpectDynamicEntries {
                via_version,
                vial_version,
                companion_hid_version,
                layer_count,
                macro_count,
                macro_buffer_size,
            } => {
                if resp[0] != VIA_UNHANDLED {
                    NegotiationState::Done {
                        caps: Capabilities {
                            via_version,
                            vial_version,
                            companion_hid_version,
                            layer_count,
                            macro_count,
                            macro_buffer_size,
                            tap_dance_count: resp[0],
                            combo_count: resp[1],
                            key_override_count: resp[2],
                            alt_repeat_key_count: resp[3],
                            caps_word: resp[31] & 1 != 0,
                            layer_lock: resp[31] & 2 != 0,
                        },
                    }
                } else {
                    NegotiationState::Failed
                }
            },
            NegotiationState::Done { caps } => NegotiationState::Done { caps },
            NegotiationState::Failed => NegotiationState::Failed,
        }
    }
}

/// Advances the negotiation by one probe response.
pub fn negotiation_feed(state: NegotiationState, resp: &[u8]) -> (r: NegotiationState)
    ensures
        r == negotiation_feed_spec(state, resp@),
{
    if resp.len() < 32 {
        return state;
    }
    match state {
        NegotiationState::ExpectViaVersion => NegotiationState::ExpectVialId {
            via_version: resp[2],
        },
        NegotiationState::ExpectVialId { via_version } => NegotiationState::ExpectCompanion {
            via_version,
            vial_version: if resp[0] != VIA_UNHANDLED {
                ((resp[3] as u32) << 24) | ((resp[2] as u32) << 16) | ((resp[1] as u32) << 8) | (
                resp[0] as u32)
            } else {
                0u32
            },
        },
        NegotiationState::ExpectCompanion { via_version, vial_version } => {
            let companion_hid_version = if resp[0] == HID_LAYERS_OUT_VERSION {
                resp[1]
            } else {
                0u8
            };
            if via_version == 0 {
                NegotiationState::ExpectMacroCount {
                    via_version,
                    vial_version,
                    companion_hid_version,
                    layer_count: 0u8,
                }
            } else {
                NegotiationState::ExpectLayerCount {
                    via_version,
                    vial_version,
                    companion_hid_version,
                }
            }
        },
        NegotiationState::ExpectLayerCount {
            via_version,
            vial_version,
            companion_hid_version,
        } => NegotiationState::ExpectMacroCount {
            via_version,
            vial_version,
            companion_hid_version,
            layer_count: if resp[0] != VIA_UNHANDLED {
                resp[1]
            } else {
                0u8
            },
        },
        NegotiationState::ExpectMacroCount {
            via_version,
            vial_version,
            companion_hid_version,
            layer_count,
        } => NegotiationState::ExpectMacroBufferSize {
            via_version,
            vial_version,
            companion_hid_version,
            layer_count,
            macro_count: if resp[0] != VIA_UNHANDLED {
                resp[1]
            } else {
                0u8
            },
        },
        NegotiationState::ExpectMacroBufferSize {
            via_version,
            vial_version,
            companion_hid_version,
            layer_count,
            macro_count,
        } => {
            let macro_buffer_size: u16 = if resp[0] != VIA_UNHANDLED {
                ((resp[1] as u16) << 8) | (resp[2] as u16)
            } else {
                0u16
            };
            if vial_version < VIAL_PROTOCOL_DYNAMIC {
                NegotiationState::Done {
                    caps: Capabilities {
                        via_version,
                        vial_version,
                        companion_hid_version,
                        layer_count,
                        macro_count,
                        macro_buffer_size,
                        tap_dance_count: 0,
                        combo_count: 0,
                        key_override_count: 0,
                        alt_repeat_key_count: 0,
                        caps_word: false,
                        layer_lock: false,
                    },
                }
            } else {
                NegotiationState::ExpectDynamicEntries {
                    via_version,
                    vial_version,
                    companion_hid_version,
                    layer_count,
                    macro_count,
                    macro_buffer_size,
                }
            }
        },
        NegotiationState::ExpectDynamicEntries {
            via_version,
            vial_version,
            companion_hid_version,
            layer_count,
            macro_count,
            macro_buffer_size,
        } => {
            if resp[0] != VIA_UNHANDLED {
                NegotiationState::Done {
                    caps: Capabilities {
                        via_version,
                        vial_version,
                        companion_hid_version,
                        layer_count,
                        macro_count,
                        macro_buffer_size,
                        tap_dance_count: resp[0],
                        combo_count: resp[1],
                        key_override_count: resp[2],
                        alt_repeat_key_count: resp[3],
                        caps_word: resp[31] & 1 != 0,
                        layer_lock: resp[31] & 2 != 0,
                    },
                }
            } else {
                NegotiationState::Failed
            }
        },
        NegotiationState::Done { caps } => NegotiationState::Done { caps },
        NegotiationState::Failed => NegotiationState::Failed,
    }
}

/// An absent vial keyboard id is a supported lesser-capability device, not
/// an error: the vial version becomes zero, so dynamic entries are never
/// probed and their counts and flags stay cleared in the finished record.
pub proof fn lemma_absent_vial_never_probes_dynamic(
    st: NegotiationState,
    r_vial: Seq<u8>,
    resps: Seq<Seq<u8>>,
)
    requires
        st matches NegotiationState::ExpectVialId { .. },
        r_vial.len() >= 32,
        r_vial[0] == VIA_UNHANDLED,
    ensures
        negotiation_run(negotiation_feed_spec(st, r_vial), resps) matches NegotiationState::Done {
            caps,
        } ==> caps.vial_version == 0 && caps.tap_dance_count == 0 && caps.combo_count == 0
            && caps.key_override_count == 0 && caps.alt_repeat_key_count == 0 && !caps.caps_word
            && !caps.layer_lock,
        forall|i: int|
            0 <= i <= resps.len() ==> !((#[trigger] negotiation_run(
                negotiation_feed_spec(st, r_vial),
                resps.subrange(0, i),
            )) matches NegotiationState::ExpectDynamicEntries { .. }),
{
    let st2 = negotiation_feed_spec(st, r_vial);
    assert(vial_version_of(st2) == Some(0u32));
    lemma_low_vial_stays_low(st2, resps);
    assert forall|i: int| 0 <= i <= resps.len() implies !((#[trigger] negotiation_run(
        st2,
        resps.subrange(0, i),
    )) matches NegotiationState::ExpectDynamicEntries { .. }) by {
        lemma_low_vial_stays_low(st2, resps.subrange(0, i));
    }
}

/// The vial version a state carries, when it carries one.
pub open spec fn vial_version_of(st: NegotiationState) -> Option<u32> {
    match st {
        NegotiationState::ExpectCompanion { vial_version, .. } => Some(vial_version),
        NegotiationState::ExpectLayerCount { vial_version, .. } => Some(vial_version),
        NegotiationState::ExpectMacroCount { vial_version, .. } => Some(vial_version),
        NegotiationState::ExpectMacroBufferSize { vial_version, .. } => Some(vial_version),
        NegotiationState::ExpectDynamicEntries { vial_version, .. } => Some(vial_version),
        NegotiationState::Done { caps } => Some(caps.vial_version),
        _ => None,
    }
}

/// The state after a whole list of responses is fed in order.
pub open spec fn negotiation_run(st: NegotiationState, resps: Seq<Seq<u8>>) -> NegotiationState
    decreases resps.len(),
{
    if resps.len() == 0 {
        st
    } else {
        negotiation_run(negotiation_feed_spec(st, resps[0]), resps.drop_first())
    }
}

/// A state below the dynamic-entry threshold never reaches the
/// dynamic-entry probe, and any record it finishes with has the dynamic
/// counts and flags cleared.
proof fn lemma_low_vial_stays_low(st: NegotiationState, resps: Seq<Seq<u8>>)
    requires
        vial_version_of(st) matches Some(v) && v < VIAL_PROTOCOL_DYNAMIC,
        !(st matches NegotiationState::ExpectDynamicEntries { .. }),
        st matches NegotiationState::Done { caps } ==> caps.tap_dance_count == 0
            && caps.combo_count == 0 && caps.key_override_count == 0 && caps.alt_repeat_key_count
            == 0 && !caps.caps_word && !caps.layer_lock,
    ensures
        !(negotiation_run(st, resps) matches NegotiationState::ExpectDynamicEntries { .. }),
        vial_version_of(negotiation_run(st, resps)) == vial_version_of(st),
        negotiation_run(st, resps) matches NegotiationState::Done { caps }
            ==> caps.tap_dance_count == 0 && caps.combo_count == 0 && caps.key_override_count == 0
            && caps.alt_repeat_key_count == 0 && !caps.caps_word && !caps.layer_lock,
    decreases resps.len(),
{
    if resps.len() > 0 {
        lemma_low_vial_stays_low(negotiation_feed_spec(st, resps[0]), resps.drop_first());
    }
}

// ---------------------------------------------------------------------------
// Small fixed exchanges: lock status, unlock, device uid, the compressed
// definition blob.
// ---------------------------------------------------------------------------
/// Whether the device is locked and which keys unlock it.
#[derive(Debug)]
pub struct LockedStatus {
    pub locked: bool,
    pub unlock_in_progress: bool,
    pub unlock_buttons: Vec<(u8, u8)>,
}

/// The unlock key pairs carried in slots `i` to 14 of a status reply, in
/// slot order: bytes 2 and 3 of each slot, leaving out the (255, 255)
/// filler.
pub open spec fn unlock_pairs_spec(data: Seq<u8>, i: int) -> Seq<(u8, u8)>
    decreases 15 - i,
{
    if i < 0 || i >= 15 {
        Seq::empty()
    } else {
        let row = data[2 + i * 2];
        let col = data[3 + i * 2];
        let head: Seq<(u8, u8)> = if row == 255 && col == 255 {
            Seq::empty()
        } else {
            seq![(row, col)]
        };
        head + unlock_pairs_spec(data, i + 1)
    }
}

/// Reads the unlock status reply: byte 0 is zero when locked, byte 1 one
/// while an unlock is in progress, then up to fifteen (row, col) pairs,
/// (255, 255) marking an absent pair.
pub fn locked_status_from_response(data: &[u8]) -> (r: LockedStatus)
    requires
        data@.len() >= 32,
    ensures
        r.locked == (data@[0] == 0u8),
        r.unlock_in_progress == (data@[1] == 1u8),
        r.unlock_buttons@ == unlock_pairs_spec(data@, 0),
{
    let locked = data[0] == 0;
    let unlock_in_progress = data[1] == 1;
    let mut unlock_buttons: Vec<(u8, u8)> = Vec::new();
    let mut i: usize = 0;
    while i < 15
        invariant
            data@.len() >= 32,
            i <= 15,
            unlock_pairs_spec(data@, 0) == unlock_buttons@ + unlock_pairs_spec(data@, i as int),
        decreases 15 - i,
    {
        let ghost pre = unlock_buttons@;
        let row = data[2 + i * 2];
        let col = data[3 + i * 2];
        if !(row == 255 && col == 255) {
            unlock_buttons.push((row, col));
            assert(unlock_buttons@ =~= pre + seq![(row, col)]);
        }
        proof {
            assert(unlock_pairs_spec(data@, 0) =~= unlock_buttons@ + unlock_pairs_spec(
                data@,
                i + 1,
            ));
        }
        i = i + 1;
    }
    proof {
        assert(unlock_pairs_spec(data@, 15) =~= Seq::<(u8, u8)>::empty());
        assert(unlock_buttons@ =~= unlock_buttons@ + unlock_pairs_spec(data@, 15));
    }
    LockedStatus { locked, unlock_in_progress, unlock_buttons }
}

/// The request that reads the unlock status.
pub fn unlock_status_request() -> (r: Vec<u8>)
    ensures
        r@ =~= seq![CMD_VIA_VIAL_PREFIX, CMD_VIAL_GET_UNLOCK_STATUS],
{
    let mut v: Vec<u8> = Vec::new();
    v.push(CMD_VIA_VIAL_PREFIX);
    v.push(CMD_VIAL_GET_UNLOCK_STATUS);
    v
}

/// The request that starts the unlock handshake.
pub fn unlock_start_request() -> (r: Vec<u8>)
    ensures
        r@ =~= seq![CMD_VIA_VIAL_PREFIX, CMD_VIAL_UNLOCK_START],
{
    let mut v: Vec<u8> = Vec::new();
    v.push(CMD_VIA_VIAL_PREFIX);
    v.push(CMD_VIAL_UNLOCK_START);
    v
}

/// The request that polls the unlock countdown.
pub fn unlock_poll_request() -> (r: Vec<u8>)
    ensures
        r@ =~= seq![CMD_VIA_VIAL_PREFIX, CMD_VIAL_UNLOCK_POLL],
{
    let mut v: Vec<u8> = Vec::new();
    v.push(CMD_VIA_VIAL_PREFIX);
    v.push(CMD_VIAL_UNLOCK_POLL);
    v
}

/// Reads an unlock poll reply: whether the device unlocked, and the
/// seconds the countdown still has.
pub fn unlock_poll_from_response(data: &[u8]) -> (r: (bool, u8))
    requires
        data@.len() >= 3,
    ensures
        r.0 == (data@[0] == 1u8),
        r.1 == data@[2],
{
    (data[0] == 1, data[2])
}

/// Reads the device uid out of its reply: eight bytes from offset 4, low
/// byte first.
pub fn uid_from_response(data: &[u8]) -> (r: u64)
    requires
        data@.len() >= 12,
    ensures
        r == ((data@[4] as u64) | ((data@[5] as u64) << 8) | ((data@[6] as u64) << 16) | ((
        data@[7] as u64) << 24) | ((data@[8] as u64) << 32) | ((data@[9] as u64) << 40) | ((
        data@[10] as u64) << 48) | ((data@[11] as u64) << 56)),
{
    (data[4] as u64) | ((data[5] as u64) << 8) | ((data[6] as u64) << 16) | ((data[7] as u64)
        << 24) | ((data[8] as u64) << 32) | ((data[9] as u64) << 40) | ((data[10] as u64) << 48)
        | ((data[11] as u64) << 56)
}

/// The request that reads the device uid.
pub fn uid_request() -> (r: Vec<u8>)
    ensures
        r@ =~= seq![CMD_VIA_VIAL_PREFIX],
{
    let mut v: Vec<u8> = Vec::new();
    v.push(CMD_VIA_VIAL_PREFIX);
    v
}

/// The request that reads the size of the compressed definition blob.
pub fn definition_size_request() -> (r: Vec<u8>)
    ensures
        r@ =~= seq![CMD_VIA_VIAL_PREFIX, CMD_VIAL_GET_SIZE],
{
    let mut v: Vec<u8> = Vec::new();
    v.push(CMD_VIA_VIAL_PREFIX);
    v.push(CMD_VIAL_GET_SIZE);
    v
}

/// The blob size carried in the size reply, low byte first; None when the
/// device answered unhandled.
pub fn definition_size_from_response(data: &[u8]) -> (r: Option<u32>)
    requires
        data@.len() >= 4,
    ensures
        data@[0] == VIA_UNHANDLED <==> r is None,
        r is Some ==> r.unwrap() == (((data@[3] as u32) << 24) | ((data@[2] as u32) << 16) | ((
        data@[1] as u32) << 8) | (data@[0] as u32)),
{
    if data[0] == VIA_UNHANDLED {
        None
    } else {
        Some(
            ((data[3] as u32) << 24) | ((data[2] as u32) << 16) | ((data[1] as u32) << 8) | (
            data[0] as u32),
        )
    }
}

/// The request that fetches one 32-byte block of the definition blob, the
/// block number split low byte first.
pub fn definition_block_request(block: u32) -> (r: Vec<u8>)
    ensures
        r@ =~= seq![
            CMD_VIA_VIAL_PREFIX,
            CMD_VIAL_GET_DEFINITION,
            (block & 0xFF) as u8,
            ((block >> 8) & 0xFF) as u8,
            ((block >> 16) & 0xFF) as u8,
            ((block >> 24) & 0xFF) as u8,
        ],
{
    let mut v: Vec<u8> = Vec::new();
    v.push(CMD_VIA_VIAL_PREFIX);
    v.push(CMD_VIAL_GET_DEFINITION);
    v.push((block & 0xFF) as u8);
    v.push(((block >> 8) & 0xFF) as u8);
    v.push(((block >> 16) & 0xFF) as u8);
    v.push(((block >> 24) & 0xFF) as u8);
    v
}

/// What the definition blob decompresses to, a function of the compressed
/// bytes alone.
pub uninterp spec fn lzma_unpacked(raw: Seq<u8>) -> Seq<u8>;

/// Relies on `lzma::decompress` of the rust-lzma crate: decompression is
/// deterministic in its input, and fails on input that is not a valid
/// compressed stream.
#[verifier::external_body]
pub fn decompress_definition(raw: &Vec<u8>) -> (r: Result<Vec<u8>, ProtocolError>)
    ensures
        r is Ok ==> r.unwrap()@ == lzma_unpacked(raw@),
{
    match lzma::decompress(raw.as_slice()) {
        Ok(out) => Ok(out),
        Err(_) => Err(
            ProtocolError::GeneralError(
                std::string::String::from("definition blob is not a valid compressed stream"),
            ),
        ),
    }
}


/// Where the trailing run of empty slots begins in a list of per-slot
/// emptiness flags: the least index from which every later slot is empty.
/// A list display prints the slots before it and reports the rest as one
/// empty range.
pub fn trailing_empty_start(flags: &Vec<bool>) -> (r: usize)
    ensures
        r <= flags@.len(),
        forall|j: int| r <= j < flags@.len() ==> flags@[j],
        r > 0 ==> !flags@[r - 1],
{
    let n = flags.len();
    let mut r: usize = n;
    while r > 0
        invariant
            n == flags@.len(),
            r <= n,
            forall|j: int| r <= j < n ==> flags@[j],
        decreases r,
    {
        if !flags[r - 1] {
            return r;
        }
        r = r - 1;
    }
    0
}

} // verus!
