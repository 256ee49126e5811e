//! Macro byte-stream codec: ordered step sequences against the firmware's
//! escape-sequence wire format, plus the textual and JSON forms.
use vstd::prelude::*;
use vstd::string::StrSliceExecFns;
use vstd::string::StringExecFns;
use vstd::utf8::encode_utf8;
use vstd::utf8::valid_utf8;
use crate::json::JsonValue;
use crate::keycodes;
use crate::keycodes::Generation;
use crate::keycodes::generation_of_spec;
use crate::strutil::bytes_to_string;
use crate::strutil::dec_string;
use crate::strutil::dec_str_spec;
use crate::strutil::find_byte_spec;
use crate::strutil::lemma_find_byte_at;
use crate::strutil::lemma_find_byte_spec;
use crate::strutil::find_char;
use crate::strutil::find_char_spec;
use crate::strutil::lemma_find_char_spec;
use crate::strutil::parse_u16;
use crate::strutil::parse_u16_spec;
use crate::strutil::str_eq;
use crate::strutil::trim_ascii;
use crate::strutil::trim_spec;

verus! {

/// The escape byte that starts every non-text wire command.
pub const SS_QMK_PREFIX: u8 = 1;

pub const SS_TAP_CODE: u8 = 1;

pub const SS_DOWN_CODE: u8 = 2;

pub const SS_UP_CODE: u8 = 3;

pub const SS_DELAY_CODE: u8 = 4;

pub const VIAL_MACRO_EXT_TAP: u8 = 5;

pub const VIAL_MACRO_EXT_DOWN: u8 = 6;

pub const VIAL_MACRO_EXT_UP: u8 = 7;

/// Malformed macro text, JSON or wire bytes.
#[derive(Debug)]
pub struct MacroParsingError(pub String);

/// A macro set that does not fit the device's bounds.
#[derive(Debug)]
pub struct MacroSavingError(pub String);

/// One step of a macro.
#[derive(Debug)]
pub enum MacroStep {
    Tap(u16),
    Down(u16),
    Up(u16),
    Delay(u16),
    Text(String),
}

/// One indexed macro: an ordered step sequence.
#[derive(Debug)]
pub struct Macro {
    pub index: u8,
    pub steps: Vec<MacroStep>,
}

/// The mathematical shape of a step: text carried as its UTF-8 bytes.
pub enum StepModel {
    Tap(u16),
    Down(u16),
    Up(u16),
    Delay(u16),
    Text(Seq<u8>),
}

/// The model of an executable step.
pub open spec fn step_model(s: MacroStep) -> StepModel {
    match s {
        MacroStep::Tap(k) => StepModel::Tap(k),
        MacroStep::Down(k) => StepModel::Down(k),
        MacroStep::Up(k) => StepModel::Up(k),
        MacroStep::Delay(ms) => StepModel::Delay(ms),
        MacroStep::Text(t) => StepModel::Text(encode_utf8(t@)),
    }
}

/// The models of a step sequence.
pub open spec fn steps_model(s: Seq<MacroStep>) -> Seq<StepModel> {
    s.map(|i: int, st: MacroStep| step_model(st))
}

// ---------------------------------------------------------------------------
// Encoding.
// ---------------------------------------------------------------------------
/// The extended-keycode substitution: a keycode at or above 256 whose low
/// byte is zero is unrepresentable, since zero terminates the run, and is
/// carried as `0xFF00 | (id >> 8)` instead.
pub open spec fn ext_code(kc: u16) -> u16 {
    if kc % 256 == 0 {
        0xFF00u16 | (kc >> 8)
    } else {
        kc
    }
}

/// Wire bytes of one step.
pub open spec fn step_bytes(s: StepModel) -> Seq<u8> {
    match s {
        StepModel::Delay(ms) => seq![
            SS_QMK_PREFIX,
            SS_DELAY_CODE,
            (ms % 255 + 1) as u8,
            ((ms / 255 + 1) % 256) as u8,
        ],
        StepModel::Text(b) => b,
        StepModel::Tap(kc) => if kc < 256 {
            seq![SS_QMK_PREFIX, SS_TAP_CODE, kc as u8]
        } else {
            seq![SS_QMK_PREFIX, VIAL_MACRO_EXT_TAP, (ext_code(kc) & 0xFF) as u8, (ext_code(kc) >> 8) as u8]
        },
        StepModel::Down(kc) => if kc < 256 {
            seq![SS_QMK_PREFIX, SS_DOWN_CODE, kc as u8]
        } else {
            seq![SS_QMK_PREFIX, VIAL_MACRO_EXT_DOWN, (ext_code(kc) & 0xFF) as u8, (ext_code(kc) >> 8) as u8]
        },
        StepModel::Up(kc) => if kc < 256 {
            seq![SS_QMK_PREFIX, SS_UP_CODE, kc as u8]
        } else {
            seq![SS_QMK_PREFIX, VIAL_MACRO_EXT_UP, (ext_code(kc) & 0xFF) as u8, (ext_code(kc) >> 8) as u8]
        },
    }
}

/// Wire bytes of a step sequence, in order.
pub open spec fn macro_bytes(steps: Seq<StepModel>) -> Seq<u8>
    decreases steps.len(),
{
    if steps.len() == 0 {
        Seq::empty()
    } else {
        macro_bytes(steps.drop_last()) + step_bytes(steps.last())
    }
}

impl MacroStep {
    /// Serializes one step to its wire bytes.
    pub fn serialize(&self) -> (r: Vec<u8>)
        ensures
            r@ == step_bytes(step_model(*self)),
    {
        let mut result: Vec<u8> = Vec::new();
        match self {
            MacroStep::Delay(ms) => {
                result.push(SS_QMK_PREFIX);
                result.push(SS_DELAY_CODE);
                let d1: u16 = *ms % 255 + 1;
                let d2: u16 = (*ms / 255 + 1) % 256;
                result.push(d1 as u8);
                result.push(d2 as u8);
                assert(result@ =~= step_bytes(step_model(*self)));
            },
            MacroStep::Text(txt) => {
                let b = txt.as_str().as_bytes_vec();
                let n = b.len();
                let mut i: usize = 0;
                while i < n
                    invariant
                        n == b@.len(),
                        i <= n,
                        result@ == b@.subrange(0, i as int),
                    decreases n - i,
                {
                    result.push(b[i]);
                    assert(result@ =~= b@.subrange(0, i + 1 as int));
                    i = i + 1;
                }
                assert(b@.subrange(0, n as int) =~= b@);
            },
            MacroStep::Tap(kc) => {
                result = serialize_key(SS_TAP_CODE, VIAL_MACRO_EXT_TAP, *kc);
            },
            MacroStep::Down(kc) => {
                result = serialize_key(SS_DOWN_CODE, VIAL_MACRO_EXT_DOWN, *kc);
            },
            MacroStep::Up(kc) => {
                result = serialize_key(SS_UP_CODE, VIAL_MACRO_EXT_UP, *kc);
            },
        }
        result
    }
}

fn serialize_key(short_cmd: u8, ext_cmd: u8, kc: u16) -> (r: Vec<u8>)
    ensures
        kc < 256 ==> r@ =~= seq![SS_QMK_PREFIX, short_cmd, kc as u8],
        kc >= 256 ==> r@ =~= seq![
            SS_QMK_PREFIX,
            ext_cmd,
            (ext_code(kc) & 0xFF) as u8,
            (ext_code(kc) >> 8) as u8,
        ],
{
    let mut result: Vec<u8> = Vec::new();
    result.push(SS_QMK_PREFIX);
    if kc < 256 {
        result.push(short_cmd);
        result.push(kc as u8);
    } else {
        result.push(ext_cmd);
        let c: u16 = if kc % 256 == 0 {
            0xFF00u16 | (kc >> 8)
        } else {
            kc
        };
        result.push((c & 0xFF) as u8);
        result.push((c >> 8) as u8);
    }
    result
}

impl Macro {
    /// Serializes the whole step sequence to its wire bytes, without the
    /// terminating zero.
    pub fn serialize(&self) -> (r: Vec<u8>)
        ensures
            r@ == macro_bytes(steps_model(self.steps@)),
    {
        let mut result: Vec<u8> = Vec::new();
        let n = self.steps.len();
        let mut i: usize = 0;
        while i < n
            invariant
                n == self.steps@.len(),
                i <= n,
                result@ == macro_bytes(steps_model(self.steps@.subrange(0, i as int))),
            decreases n - i,
        {
            let step_b = self.steps[i].serialize();
            let m = step_b.len();
            let mut j: usize = 0;
            while j < m
                invariant
                    m == step_b@.len(),
                    j <= m,
                    result@ == macro_bytes(
                        steps_model(self.steps@.subrange(0, i as int)),
                    ) + step_b@.subrange(0, j as int),
                    i < n,
                    n == self.steps@.len(),
                    step_b@ == step_bytes(step_model(self.steps@[i as int])),
                decreases m - j,
            {
                result.push(step_b[j]);
                assert(result@ =~= macro_bytes(steps_model(self.steps@.subrange(0, i as int)))
                    + step_b@.subrange(0, j + 1 as int));
                j = j + 1;
            }
            proof {
                let pre = self.steps@.subrange(0, i as int);
                let cur = self.steps@.subrange(0, i + 1 as int);
                assert(cur.drop_last() =~= pre);
                assert(steps_model(cur).drop_last() =~= steps_model(pre));
                assert(steps_model(cur).last() == step_model(self.steps@[i as int]));
                assert(step_b@.subrange(0, m as int) =~= step_b@);
                assert(macro_bytes(steps_model(cur)) == macro_bytes(steps_model(pre))
                    + step_bytes(step_model(self.steps@[i as int])));
            }
            i = i + 1;
        }
        assert(self.steps@.subrange(0, n as int) =~= self.steps@);
        result
    }

    /// Whether the macro has no steps.
    pub fn is_empty(&self) -> (r: bool)
        ensures
            r == (self.steps@.len() == 0),
    {
        self.steps.len() == 0
    }
}

// ---------------------------------------------------------------------------
// Decoding: an explicit state machine driven one byte at a time.
// ---------------------------------------------------------------------------
/// Decoder state between two bytes of a macro run.
pub enum DecState {
    Start,
    InText(int),
    NextCommand,
    Command(u8),
    CommandArg(u8, u8),
}

/// The decoder, one byte at a time from position `i`: a literal byte in
/// `Start` begins text; the prefix byte flushes pending text and expects a
/// command; delay and extended commands take one more byte; the other
/// commands complete on the next byte. At end of input a dangling text run
/// flushes; any other dangling state is a truncation error (None).
pub open spec fn decode_sm(data: Seq<u8>, i: int, st: DecState, acc: Seq<StepModel>) -> Option<
    Seq<StepModel>,
>
    decreases data.len() - i,
{
    if i < 0 || i > data.len() {
        None
    } else if i == data.len() {
        match st {
            DecState::Start => Some(acc),
            DecState::InText(s) => if 0 <= s <= i {
                Some(acc.push(StepModel::Text(data.subrange(s, i))))
            } else {
                None
            },
            _ => None,
        }
    } else {
        let b = data[i];
        match st {
            DecState::Start => if b == SS_QMK_PREFIX {
                decode_sm(data, i + 1, DecState::NextCommand, acc)
            } else {
                decode_sm(data, i + 1, DecState::InText(i), acc)
            },
            DecState::InText(s) => if b == SS_QMK_PREFIX {
                if 0 <= s <= i {
                    decode_sm(
                        data,
                        i + 1,
                        DecState::NextCommand,
                        acc.push(StepModel::Text(data.subrange(s, i))),
                    )
                } else {
                    None
                }
            } else {
                decode_sm(data, i + 1, DecState::InText(s), acc)
            },
            DecState::NextCommand => decode_sm(data, i + 1, DecState::Command(b), acc),
            DecState::Command(cmd) => if cmd == SS_DELAY_CODE || cmd == VIAL_MACRO_EXT_TAP || cmd
                == VIAL_MACRO_EXT_DOWN || cmd == VIAL_MACRO_EXT_UP {
                decode_sm(data, i + 1, DecState::CommandArg(cmd, b), acc)
            } else if cmd == SS_TAP_CODE {
                decode_sm(data, i + 1, DecState::Start, acc.push(StepModel::Tap(b as u16)))
            } else if cmd == SS_DOWN_CODE {
                decode_sm(data, i + 1, DecState::Start, acc.push(StepModel::Down(b as u16)))
            } else if cmd == SS_UP_CODE {
                decode_sm(data, i + 1, DecState::Start, acc.push(StepModel::Up(b as u16)))
            } else {
                None
            },
            DecState::CommandArg(cmd, a1) => {
                let kc0 = (a1 as u16) | (((b as u16) << 8) as u16);
                let kc = if kc0 > 0xFF00 {
                    ((kc0 & 0xFF) << 8) as u16
                } else {
                    kc0
                };
                if cmd == SS_DELAY_CODE {
                    if a1 >= 1 && b >= 1 {
                        decode_sm(
                            data,
                            i + 1,
                            DecState::Start,
                            acc.push(
                                StepModel::Delay(
                                    (((b - 1) as u16) * 255 + ((a1 - 1) as u16)) as u16,
                                ),
                            ),
                        )
                    } else {
                        None
                    }
                } else if cmd == VIAL_MACRO_EXT_TAP {
                    decode_sm(data, i + 1, DecState::Start, acc.push(StepModel::Tap(kc)))
                } else if cmd == VIAL_MACRO_EXT_DOWN {
                    decode_sm(data, i + 1, DecState::Start, acc.push(StepModel::Down(kc)))
                } else {
                    decode_sm(data, i + 1, DecState::Start, acc.push(StepModel::Up(kc)))
                }
            },
        }
    }
}

/// The full decode of one zero-free macro run.
pub open spec fn decode_single_spec(data: Seq<u8>) -> Option<Seq<StepModel>> {
    decode_sm(data, 0, DecState::Start, Seq::empty())
}

/// Whether every text chunk of a decoded run is valid UTF-8, so that it
/// can be held as a string.
pub open spec fn texts_valid(ms: Seq<StepModel>) -> bool {
    forall|i: int| 0 <= i < ms.len() ==> (#[trigger] ms[i] matches StepModel::Text(b) ==> valid_utf8(b))
}

/// Whatever the decoder later returns keeps what is already accumulated.
proof fn lemma_decode_sm_extends(data: Seq<u8>, i: int, st: DecState, acc: Seq<StepModel>)
    ensures
        decode_sm(data, i, st, acc) matches Some(r) ==> r.len() >= acc.len() && forall|j: int|
            0 <= j < acc.len() ==> r[j] == acc[j],
    decreases data.len() - i,
{
    if i < 0 || i > data.len() {
    } else if i == data.len() {
    } else {
        let b = data[i];
        match st {
            DecState::Start => {
                if b == SS_QMK_PREFIX {
                    lemma_decode_sm_extends(data, i + 1, DecState::NextCommand, acc);
                } else {
                    lemma_decode_sm_extends(data, i + 1, DecState::InText(i), acc);
                }
            },
            DecState::InText(st0) => {
                if b == SS_QMK_PREFIX {
                    if 0 <= st0 <= i {
                        lemma_decode_sm_extends(
                            data,
                            i + 1,
                            DecState::NextCommand,
                            acc.push(StepModel::Text(data.subrange(st0, i))),
                        );
                    }
                } else {
                    lemma_decode_sm_extends(data, i + 1, DecState::InText(st0), acc);
                }
            },
            DecState::NextCommand => {
                lemma_decode_sm_extends(data, i + 1, DecState::Command(b), acc);
            },
            DecState::Command(cmd) => {
                if cmd == SS_DELAY_CODE || cmd == VIAL_MACRO_EXT_TAP || cmd == VIAL_MACRO_EXT_DOWN
                    || cmd == VIAL_MACRO_EXT_UP {
                    lemma_decode_sm_extends(data, i + 1, DecState::CommandArg(cmd, b), acc);
                } else if cmd == SS_TAP_CODE {
                    lemma_decode_sm_extends(
                        data,
                        i + 1,
                        DecState::Start,
                        acc.push(StepModel::Tap(b as u16)),
                    );
                } else if cmd == SS_DOWN_CODE {
                    lemma_decode_sm_extends(
                        data,
                        i + 1,
                        DecState::Start,
                        acc.push(StepModel::Down(b as u16)),
                    );
                } else if cmd == SS_UP_CODE {
                    lemma_decode_sm_extends(
                        data,
                        i + 1,
                        DecState::Start,
                        acc.push(StepModel::Up(b as u16)),
                    );
                }
            },
            DecState::CommandArg(cmd, a1) => {
                let kc0 = (a1 as u16) | (((b as u16) << 8) as u16);
                let kc = if kc0 > 0xFF00 {
                    ((kc0 & 0xFF) << 8) as u16
                } else {
                    kc0
                };
                if cmd == SS_DELAY_CODE {
                    if a1 >= 1 && b >= 1 {
                        lemma_decode_sm_extends(
                            data,
                            i + 1,
                            DecState::Start,
                            acc.push(
                                StepModel::Delay(
                                    (((b - 1) as u16) * 255 + ((a1 - 1) as u16)) as u16,
                                ),
                            ),
                        );
                    }
                } else if cmd == VIAL_MACRO_EXT_TAP {
                    lemma_decode_sm_extends(data, i + 1, DecState::Start, acc.push(StepModel::Tap(kc)));
                } else if cmd == VIAL_MACRO_EXT_DOWN {
                    lemma_decode_sm_extends(data, i + 1, DecState::Start, acc.push(StepModel::Down(kc)));
                } else {
                    lemma_decode_sm_extends(data, i + 1, DecState::Start, acc.push(StepModel::Up(kc)));
                }
            },
        }
    }
}

enum ExecState {
    Start,
    InText(usize),
    NextCommand,
    Command(u8),
    CommandArg(u8, u8),
}

spec fn exec_state_model(st: ExecState) -> DecState {
    match st {
        ExecState::Start => DecState::Start,
        ExecState::InText(s) => DecState::InText(s as int),
        ExecState::NextCommand => DecState::NextCommand,
        ExecState::Command(c) => DecState::Command(c),
        ExecState::CommandArg(c, a) => DecState::CommandArg(c, a),
    }
}

fn truncation_error() -> (r: MacroParsingError) {
    MacroParsingError(String::from_str("Unexpected state after last byte"))
}

/// Decodes one zero-free macro run into its steps.
pub fn deserialize_single(index: u8, data: &[u8]) -> (r: Result<Macro, MacroParsingError>)
    ensures
        r is Ok <==> (decode_single_spec(data@) is Some && texts_valid(
            decode_single_spec(data@).unwrap(),
        )),
        r is Ok ==> steps_model(r.unwrap().steps@) == decode_single_spec(data@).unwrap()
            && r.unwrap().index == index,
{
    let n = data.len();
    let mut steps: Vec<MacroStep> = Vec::new();
    let mut st = ExecState::Start;
    let mut i: usize = 0;
    assert(steps_model(steps@) =~= Seq::<StepModel>::empty());
    while i < n
        invariant
            n == data@.len(),
            i <= n,
            decode_sm(data@, i as int, exec_state_model(st), steps_model(steps@))
                == decode_single_spec(data@),
            texts_valid(steps_model(steps@)),
            st matches ExecState::InText(s) ==> s < i,
        decreases n - i,
    {
        let b = data[i];
        let ghost pre_steps = steps_model(steps@);
        match st {
            ExecState::Start => {
                if b == SS_QMK_PREFIX {
                    st = ExecState::NextCommand;
                } else {
                    st = ExecState::InText(i);
                }
            },
            ExecState::InText(s) => {
                if b == SS_QMK_PREFIX {
                    let chunk = vstd::slice::slice_subrange(data, s, i);
                    match bytes_to_string(chunk) {
                        Some(t) => {
                            proof {
                                vstd::utf8::decode_utf8_encode_utf8(chunk@);
                            }
                            steps.push(MacroStep::Text(t));
                            assert(steps_model(steps@) =~= pre_steps.push(
                                StepModel::Text(data@.subrange(s as int, i as int)),
                            ));
                            st = ExecState::NextCommand;
                        },
                        None => {
                            proof {
                                let acc2 = steps_model(steps@).push(
                                    StepModel::Text(data@.subrange(s as int, i as int)),
                                );
                                lemma_decode_sm_extends(
                                    data@,
                                    i + 1,
                                    DecState::NextCommand,
                                    acc2,
                                );
                                if decode_single_spec(data@) is Some {
                                    let r = decode_single_spec(data@).unwrap();
                                    assert(r[steps_model(steps@).len() as int] == StepModel::Text(
                                        data@.subrange(s as int, i as int),
                                    ));
                                    assert(!texts_valid(r));
                                }
                            }
                            return Err(
                                MacroParsingError(String::from_str("macro text is not valid utf8")),
                            );
                        },
                    }
                }
            },
            ExecState::NextCommand => {
                st = ExecState::Command(b);
            },
            ExecState::Command(cmd) => {
                if cmd == SS_DELAY_CODE || cmd == VIAL_MACRO_EXT_TAP || cmd == VIAL_MACRO_EXT_DOWN
                    || cmd == VIAL_MACRO_EXT_UP {
                    st = ExecState::CommandArg(cmd, b);
                } else if cmd == SS_TAP_CODE {
                    steps.push(MacroStep::Tap(b as u16));
                    assert(steps_model(steps@) =~= pre_steps.push(StepModel::Tap(b as u16)));
                    st = ExecState::Start;
                } else if cmd == SS_DOWN_CODE {
                    steps.push(MacroStep::Down(b as u16));
                    assert(steps_model(steps@) =~= pre_steps.push(StepModel::Down(b as u16)));
                    st = ExecState::Start;
                } else if cmd == SS_UP_CODE {
                    steps.push(MacroStep::Up(b as u16));
                    assert(steps_model(steps@) =~= pre_steps.push(StepModel::Up(b as u16)));
                    st = ExecState::Start;
                } else {
                    let mut m = String::from_str("Unknown command ");
                    let d = dec_string(cmd as u16);
                    m.append(d.as_str());
                    return Err(MacroParsingError(m));
                }
            },
            ExecState::CommandArg(cmd, a1) => {
                let kc0: u16 = (a1 as u16) | ((b as u16) << 8);
                let kc: u16 = if kc0 > 0xFF00 {
                    (kc0 & 0xFF) << 8
                } else {
                    kc0
                };
                if cmd == SS_DELAY_CODE {
                    if a1 >= 1 && b >= 1 {
                        let ms: u16 = ((b - 1) as u16) * 255 + ((a1 - 1) as u16);
                        steps.push(MacroStep::Delay(ms));
                        assert(steps_model(steps@) =~= pre_steps.push(StepModel::Delay(ms)));
                        st = ExecState::Start;
                    } else {
                        return Err(
                            MacroParsingError(String::from_str("delay bytes must be nonzero")),
                        );
                    }
                } else if cmd == VIAL_MACRO_EXT_TAP {
                    steps.push(MacroStep::Tap(kc));
                    assert(steps_model(steps@) =~= pre_steps.push(StepModel::Tap(kc)));
                    st = ExecState::Start;
                } else if cmd == VIAL_MACRO_EXT_DOWN {
                    steps.push(MacroStep::Down(kc));
                    assert(steps_model(steps@) =~= pre_steps.push(StepModel::Down(kc)));
                    st = ExecState::Start;
                } else {
                    steps.push(MacroStep::Up(kc));
                    assert(steps_model(steps@) =~= pre_steps.push(StepModel::Up(kc)));
                    st = ExecState::Start;
                }
            },
        }
        i = i + 1;
    }
    match st {
        ExecState::Start => Ok(Macro { index, steps }),
        ExecState::InText(s) => {
            let chunk = vstd::slice::slice_subrange(data, s, n);
            match bytes_to_string(chunk) {
                Some(t) => {
                    proof {
                        vstd::utf8::decode_utf8_encode_utf8(chunk@);
                    }
                    let ghost pre_steps = steps_model(steps@);
                    steps.push(MacroStep::Text(t));
                    assert(steps_model(steps@) =~= pre_steps.push(
                        StepModel::Text(data@.subrange(s as int, n as int)),
                    ));
                    Ok(Macro { index, steps })
                },
                None => {
                    proof {
                        if decode_single_spec(data@) is Some {
                            let r = decode_single_spec(data@).unwrap();
                            assert(r == steps_model(steps@).push(
                                StepModel::Text(data@.subrange(s as int, n as int)),
                            ));
                            assert(r[steps_model(steps@).len() as int] == StepModel::Text(
                                data@.subrange(s as int, n as int),
                            ));
                            assert(!texts_valid(r));
                        }
                    }
                    Err(MacroParsingError(String::from_str("macro text is not valid utf8")))
                },
            }
        },
        _ => Err(truncation_error()),
    }
}


// ---------------------------------------------------------------------------
// The concatenated multi-macro stream.
// ---------------------------------------------------------------------------
/// The zero-terminated runs of a stream, in order; bytes after the last
/// zero do not form a run.
pub open spec fn segments(data: Seq<u8>) -> Seq<Seq<u8>>
    decreases data.len(),
{
    match find_byte_spec(data, 0u8) {
        None => Seq::empty(),
        Some(i) => if 0 <= i < data.len() {
            seq![data.subrange(0, i)] + segments(data.subrange(i + 1, data.len() as int))
        } else {
            Seq::empty()
        },
    }
}

/// The runs a stream decodes to, when every run and every text chunk is
/// well formed. An empty stream, or a single zero byte, holds no macros.
pub open spec fn stream_runs(data: Seq<u8>) -> Seq<Seq<u8>> {
    if data.len() == 0 || data =~= seq![0u8] {
        Seq::empty()
    } else {
        segments(data)
    }
}

/// Decodes a whole macro buffer into its macros, one per zero-terminated
/// run, indexed in order.
pub fn deserialize(data: Vec<u8>) -> (r: Result<Vec<Macro>, MacroParsingError>)
    ensures
        r is Ok ==> {
            let runs = stream_runs(data@);
            let ms = r.unwrap()@;
            &&& ms.len() == runs.len()
            &&& forall|j: int|
                0 <= j < runs.len() ==> decode_single_spec(#[trigger] runs[j]) is Some
                    && steps_model(ms[j].steps@) == decode_single_spec(runs[j]).unwrap()
                    && ms[j].index == (j % 256) as u8
        },
        r is Err ==> exists|j: int|
            0 <= j < stream_runs(data@).len() && !(decode_single_spec(
                #[trigger] stream_runs(data@)[j],
            ) is Some && texts_valid(decode_single_spec(stream_runs(data@)[j]).unwrap())),
{
    let mut macroses: Vec<Macro> = Vec::new();
    let n = data.len();
    if n == 0 || (n == 1 && data[0] == 0) {
        proof {
            if n == 1 && data@[0] == 0u8 {
                assert(data@ =~= seq![0u8]);
            }
        }
        return Ok(macroses);
    }
    let ghost runs = stream_runs(data@);
    let mut start: usize = 0;
    let mut i: usize = 0;
    let mut pos: usize = 0;
    proof {
        assert(data@.subrange(0, n as int) =~= data@);
        assert(runs.subrange(0, 0) =~= Seq::<Seq<u8>>::empty());
        assert(runs =~= runs.subrange(0, 0) + segments(data@.subrange(0, n as int)));
    }
    while i < n
        invariant
            n == data@.len(),
            start <= i <= n,
            pos <= i,
            runs == stream_runs(data@),
            pos == macroses@.len(),
            pos <= runs.len(),
            forall|j: int| start <= j < i ==> data@[j] != 0u8,
            runs =~= runs.subrange(0, pos as int) + segments(
                data@.subrange(start as int, n as int),
            ),
            forall|j: int|
                0 <= j < pos ==> decode_single_spec(#[trigger] runs[j]) is Some && steps_model(
                    macroses@[j].steps@,
                ) == decode_single_spec(runs[j]).unwrap() && macroses@[j].index == (j % 256) as u8,
        decreases n - i,
    {
        if data[i] == 0 {
            let seg = vstd::slice::slice_subrange(data.as_slice(), start, i);
            proof {
                let tail = data@.subrange(start as int, n as int);
                lemma_find_byte_at(tail, 0u8, i - start);
                assert(tail.subrange(0, i - start) =~= data@.subrange(start as int, i as int));
                assert(tail.subrange(i - start + 1, tail.len() as int) =~= data@.subrange(
                    i + 1,
                    n as int,
                ));
                assert(segments(tail) == seq![data@.subrange(start as int, i as int)] + segments(
                    data@.subrange(i + 1, n as int),
                ));
                assert(segments(tail).len() >= 1);
                assert(pos < runs.len());
                assert(runs[pos as int] == segments(tail)[0]);
                assert(runs[pos as int] == data@.subrange(start as int, i as int));
                assert(seg@ == runs[pos as int]);
            }
            match deserialize_single((pos % 256) as u8, seg) {
                Ok(m) => {
                    macroses.push(m);
                },
                Err(e) => {
                    proof {
                        assert(0 <= pos < runs.len() && !(decode_single_spec(runs[pos as int])
                            is Some && texts_valid(
                            decode_single_spec(runs[pos as int]).unwrap(),
                        )));
                    }
                    return Err(e);
                },
            }
            proof {
                assert(runs.subrange(0, pos + 1 as int) =~= runs.subrange(0, pos as int).push(
                    runs[pos as int],
                ));
                assert(runs =~= runs.subrange(0, pos + 1 as int) + segments(
                    data@.subrange(i + 1, n as int),
                ));
            }
            pos = pos + 1;
            start = i + 1;
        }
        i = i + 1;
    }
    proof {
        let tail = data@.subrange(start as int, n as int);
        crate::strutil::lemma_find_byte_spec(tail, 0u8);
        match find_byte_spec(tail, 0u8) {
            Some(k) => {
                assert(tail[k] == 0u8);
                assert(data@[start + k] == 0u8);
                assert(false);
            },
            None => {},
        }
        assert(segments(tail) =~= Seq::<Seq<u8>>::empty());
        assert(runs =~= runs.subrange(0, pos as int));
        assert(runs.len() == pos);
    }
    Ok(macroses)
}

/// Wire bytes of a whole macro list: each macro's bytes and a terminating
/// zero, concatenated in order.
pub open spec fn stream_bytes(ms: Seq<Seq<StepModel>>) -> Seq<u8>
    decreases ms.len(),
{
    if ms.len() == 0 {
        Seq::empty()
    } else {
        stream_bytes(ms.drop_last()) + macro_bytes(ms.last()) + seq![0u8]
    }
}

/// The step models of each macro in a list.
pub open spec fn macro_list_model(ms: Seq<Macro>) -> Seq<Seq<StepModel>> {
    ms.map(|i: int, m: Macro| steps_model(m.steps@))
}

/// Serializes a macro list to the device buffer image: each macro's bytes
/// followed by a zero.
pub fn serialize(macros: &Vec<Macro>) -> (r: Vec<u8>)
    ensures
        r@ == stream_bytes(macro_list_model(macros@)),
{
    let mut result: Vec<u8> = Vec::new();
    let n = macros.len();
    let mut i: usize = 0;
    assert(result@ =~= stream_bytes(macro_list_model(macros@.subrange(0, 0))));
    while i < n
        invariant
            n == macros@.len(),
            i <= n,
            result@ == stream_bytes(macro_list_model(macros@.subrange(0, i as int))),
        decreases n - i,
    {
        let mb = macros[i].serialize();
        let m = mb.len();
        let mut j: usize = 0;
        while j < m
            invariant
                m == mb@.len(),
                j <= m,
                i < n,
                n == macros@.len(),
                mb@ == macro_bytes(steps_model(macros@[i as int].steps@)),
                result@ == stream_bytes(macro_list_model(macros@.subrange(0, i as int)))
                    + mb@.subrange(0, j as int),
            decreases m - j,
        {
            result.push(mb[j]);
            assert(result@ =~= stream_bytes(macro_list_model(macros@.subrange(0, i as int)))
                + mb@.subrange(0, j + 1 as int));
            j = j + 1;
        }
        result.push(0u8);
        proof {
            let pre = macros@.subrange(0, i as int);
            let cur = macros@.subrange(0, i + 1 as int);
            assert(cur.drop_last() =~= pre);
            assert(macro_list_model(cur).drop_last() =~= macro_list_model(pre));
            assert(macro_list_model(cur).last() == steps_model(macros@[i as int].steps@));
            assert(mb@.subrange(0, m as int) =~= mb@);
            assert(result@ =~= stream_bytes(macro_list_model(cur)));
        }
        i = i + 1;
    }
    assert(macros@.subrange(0, n as int) =~= macros@);
    result
}

/// Checks a macro list against the device's bounds and returns the buffer
/// image to write: the serialized bytes fit `macro_buffer_size` and the
/// macro count fits `macro_count`, or the call fails and nothing may be
/// written.
pub fn macros_update_payload(
    macros: &Vec<Macro>,
    macro_count: u8,
    macro_buffer_size: u16,
) -> (r: Result<Vec<u8>, MacroSavingError>)
    ensures
        r is Ok <==> macros@.len() <= macro_count && stream_bytes(macro_list_model(macros@)).len()
            <= macro_buffer_size,
        r is Ok ==> r.unwrap()@ == stream_bytes(macro_list_model(macros@)),
{
    if macros.len() > macro_count as usize {
        let mut m = String::from_str(
            "Not enough macro buffer size: macro count exceeds allowed macro count",
        );
        return Err(MacroSavingError(m));
    }
    let data = serialize(macros);
    if data.len() > macro_buffer_size as usize {
        let mut m = String::from_str(
            "Not enough macro buffer size: macros length exceeds allowed buffer size",
        );
        return Err(MacroSavingError(m));
    }
    Ok(data)
}

/// How far a fetched macro buffer already reaches: Some(end) once `count`
/// zero-terminated runs are complete at `end` bytes, or a second
/// consecutive zero ends the scan early, just before it.
pub open spec fn stream_end_spec(data: Seq<u8>, count: u8, i: int, zeros: int, last_zero: bool) -> Option<int>
    decreases data.len() - i,
{
    if i < 0 || i >= data.len() {
        None
    } else if data[i] == 0 {
        if last_zero {
            Some(i)
        } else if zeros + 1 == count {
            Some(i + 1)
        } else {
            stream_end_spec(data, count, i + 1, zeros + 1, true)
        }
    } else {
        stream_end_spec(data, count, i + 1, zeros, false)
    }
}

/// Scans a fetched macro buffer for its end: after `count` complete runs,
/// or just before a second consecutive zero.
pub fn macro_stream_end(data: &Vec<u8>, count: u8) -> (r: Option<usize>)
    ensures
        match r {
            Some(e) => stream_end_spec(data@, count, 0, 0, false) == Some(e as int) && e
                <= data@.len(),
            None => stream_end_spec(data@, count, 0, 0, false) is None,
        },
{
    let n = data.len();
    let mut i: usize = 0;
    let mut zeros: usize = 0;
    let mut last_zero = false;
    while i < n
        invariant
            n == data@.len(),
            i <= n,
            zeros <= i,
            stream_end_spec(data@, count, i as int, zeros as int, last_zero) == stream_end_spec(
                data@,
                count,
                0,
                0,
                false,
            ),
        decreases n - i,
    {
        if data[i] == 0 {
            if last_zero {
                return Some(i);
            }
            if zeros + 1 == count as usize {
                return Some(i + 1);
            }
            zeros = zeros + 1;
            last_zero = true;
        } else {
            last_zero = false;
        }
        i = i + 1;
    }
    None
}


// ---------------------------------------------------------------------------
// Round trip: decoding an encoded step sequence gives it back.
// ---------------------------------------------------------------------------
/// A step the wire format can carry faithfully: text runs are nonempty and
/// free of the prefix byte and of the zero terminator; a short keycode is
/// nonzero; an extended keycode avoids the narrow band above `0xFF00` that
/// the substitution reserves; a delay fits the biased two-byte form.
pub open spec fn wf_step(st: StepModel) -> bool {
    match st {
        StepModel::Text(b) => b.len() > 0 && forall|j: int|
            0 <= j < b.len() ==> #[trigger] b[j] != SS_QMK_PREFIX && b[j] != 0u8,
        StepModel::Tap(kc) => kc != 0 && (kc <= 0xFF00 || kc % 256 == 0),
        StepModel::Down(kc) => kc != 0 && (kc <= 0xFF00 || kc % 256 == 0),
        StepModel::Up(kc) => kc != 0 && (kc <= 0xFF00 || kc % 256 == 0),
        StepModel::Delay(ms) => ms <= 65024,
    }
}

/// A step sequence the wire format can carry faithfully: each step well
/// formed, and no two text runs adjacent, since adjacent runs would merge.
pub open spec fn wf_steps(steps: Seq<StepModel>) -> bool {
    &&& forall|j: int| 0 <= j < steps.len() ==> wf_step(#[trigger] steps[j])
    &&& forall|j: int|
        0 <= j < steps.len() - 1 ==> !((#[trigger] steps[j]) is Text && steps[j + 1] is Text)
}

proof fn lemma_macro_bytes_first(steps: Seq<StepModel>)
    requires
        steps.len() > 0,
    ensures
        macro_bytes(steps) == step_bytes(steps[0]) + macro_bytes(steps.drop_first()),
    decreases steps.len(),
{
    if steps.len() == 1 {
        assert(steps.drop_last() =~= Seq::<StepModel>::empty());
        assert(steps.drop_first() =~= Seq::<StepModel>::empty());
        assert(macro_bytes(steps) =~= step_bytes(steps[0]) + macro_bytes(steps.drop_first()));
    } else {
        lemma_macro_bytes_first(steps.drop_last());
        let d = steps.drop_last();
        assert(d[0] == steps[0]);
        assert(d.drop_first() =~= steps.drop_first().drop_last());
        assert(steps.drop_first().last() == steps.last());
        assert(macro_bytes(steps) == macro_bytes(d) + step_bytes(steps.last()));
        assert(macro_bytes(d) == step_bytes(steps[0]) + macro_bytes(d.drop_first()));
        assert(macro_bytes(steps.drop_first()) == macro_bytes(steps.drop_first().drop_last())
            + step_bytes(steps.drop_first().last()));
        assert(macro_bytes(steps) =~= step_bytes(steps[0]) + macro_bytes(steps.drop_first()));
    }
}

proof fn lemma_march_text(data: Seq<u8>, s: int, i: int, j: int, acc: Seq<StepModel>)
    requires
        0 <= s <= i <= j <= data.len(),
        forall|k: int| i <= k < j ==> #[trigger] data[k] != SS_QMK_PREFIX,
    ensures
        decode_sm(data, i, DecState::InText(s), acc) == decode_sm(data, j, DecState::InText(s), acc),
    decreases j - i,
{
    if i < j {
        assert(data[i] != SS_QMK_PREFIX);
        lemma_march_text(data, s, i + 1, j, acc);
    }
}

/// Consuming the bytes of one well-formed step advances the decoder by
/// exactly that step, as long as any text run is delimited by the prefix
/// byte or the end of input.
proof fn lemma_consume_step(data: Seq<u8>, i: int, st: StepModel, acc: Seq<StepModel>)
    requires
        0 <= i,
        i + step_bytes(st).len() <= data.len(),
        data.subrange(i, i + step_bytes(st).len() as int) == step_bytes(st),
        wf_step(st),
        st is Text ==> (i + step_bytes(st).len() == data.len() || data[i + step_bytes(st).len()]
            == SS_QMK_PREFIX),
    ensures
        decode_sm(data, i, DecState::Start, acc) == decode_sm(
            data,
            i + step_bytes(st).len(),
            DecState::Start,
            acc.push(st),
        ),
{
    let sb = step_bytes(st);
    let e = i + sb.len();
    assert(forall|k: int| 0 <= k < sb.len() ==> data[i + k] == sb[k]) by {
        assert(forall|k: int|
            0 <= k < sb.len() ==> data.subrange(i, e)[k] == #[trigger] data[i + k]);
    }
    match st {
        StepModel::Delay(ms) => {
            let d1 = (ms % 255 + 1) as u8;
            let d2 = ((ms / 255 + 1) % 256) as u8;
            assert(data[i] == SS_QMK_PREFIX);
            assert(data[i + 1] == SS_DELAY_CODE);
            assert(data[i + 2] == d1);
            assert(data[i + 3] == d2);
            assert(d1 >= 1 && d2 >= 1);
            assert((((d2 - 1) as u16) * 255 + ((d1 - 1) as u16)) as u16 == ms) by (nonlinear_arith)
                requires
                    ms <= 65024,
                    d1 == (ms % 255 + 1) as u8,
                    d2 == ((ms / 255 + 1) % 256) as u8,
            ;
            assert(decode_sm(data, i, DecState::Start, acc) == decode_sm(
                data,
                i + 1,
                DecState::NextCommand,
                acc,
            ));
            assert(decode_sm(data, i + 1, DecState::NextCommand, acc) == decode_sm(
                data,
                i + 2,
                DecState::Command(SS_DELAY_CODE),
                acc,
            ));
            assert(decode_sm(data, i + 2, DecState::Command(SS_DELAY_CODE), acc) == decode_sm(
                data,
                i + 3,
                DecState::CommandArg(SS_DELAY_CODE, d1),
                acc,
            ));
            assert(decode_sm(data, i + 3, DecState::CommandArg(SS_DELAY_CODE, d1), acc)
                == decode_sm(
                data,
                i + 4,
                DecState::Start,
                acc.push(StepModel::Delay((((d2 - 1) as u16) * 255 + ((d1 - 1) as u16)) as u16)),
            ));
        },
        StepModel::Tap(kc) => {
            lemma_consume_key(data, i, kc, acc);
        },
        StepModel::Down(kc) => {
            lemma_consume_key(data, i, kc, acc);
        },
        StepModel::Up(kc) => {
            lemma_consume_key(data, i, kc, acc);
        },
        StepModel::Text(b) => {
            assert(b.len() > 0);
            assert(data[i] == b[0]);
            assert(data[i] != SS_QMK_PREFIX);
            assert(decode_sm(data, i, DecState::Start, acc) == decode_sm(
                data,
                i + 1,
                DecState::InText(i),
                acc,
            ));
            assert forall|k: int| i <= k < e implies #[trigger] data[k] != SS_QMK_PREFIX by {
                assert(data[i + (k - i)] == b[k - i]);
            }
            lemma_march_text(data, i, i + 1, e, acc);
            assert(data.subrange(i, e) =~= b);
            if e == data.len() {
                assert(decode_sm(data, e, DecState::InText(i), acc) == Some(
                    acc.push(StepModel::Text(b)),
                ));
                assert(decode_sm(data, e, DecState::Start, acc.push(st)) == Some(acc.push(st)));
            } else {
                assert(data[e] == SS_QMK_PREFIX);
                assert(decode_sm(data, e, DecState::InText(i), acc) == decode_sm(
                    data,
                    e + 1,
                    DecState::NextCommand,
                    acc.push(StepModel::Text(b)),
                ));
                assert(decode_sm(data, e, DecState::Start, acc.push(st)) == decode_sm(
                    data,
                    e + 1,
                    DecState::NextCommand,
                    acc.push(st),
                ));
            }
        },
    }
}

proof fn lemma_consume_key(data: Seq<u8>, i: int, kc: u16, acc: Seq<StepModel>)
    requires
        0 <= i,
        kc != 0,
        kc <= 0xFF00 || kc % 256 == 0,
    ensures
        kc < 256 && i + 3 <= data.len() && data[i] == SS_QMK_PREFIX && data[i + 1] == SS_TAP_CODE
            && data[i + 2] == kc as u8 ==> decode_sm(data, i, DecState::Start, acc) == decode_sm(
            data,
            i + 3,
            DecState::Start,
            acc.push(StepModel::Tap(kc)),
        ),
        kc < 256 && i + 3 <= data.len() && data[i] == SS_QMK_PREFIX && data[i + 1] == SS_DOWN_CODE
            && data[i + 2] == kc as u8 ==> decode_sm(data, i, DecState::Start, acc) == decode_sm(
            data,
            i + 3,
            DecState::Start,
            acc.push(StepModel::Down(kc)),
        ),
        kc < 256 && i + 3 <= data.len() && data[i] == SS_QMK_PREFIX && data[i + 1] == SS_UP_CODE
            && data[i + 2] == kc as u8 ==> decode_sm(data, i, DecState::Start, acc) == decode_sm(
            data,
            i + 3,
            DecState::Start,
            acc.push(StepModel::Up(kc)),
        ),
        kc >= 256 && i + 4 <= data.len() && data[i] == SS_QMK_PREFIX && data[i + 1]
            == VIAL_MACRO_EXT_TAP && data[i + 2] == (ext_code(kc) & 0xFF) as u8 && data[i + 3] == (
        ext_code(kc) >> 8) as u8 ==> decode_sm(data, i, DecState::Start, acc) == decode_sm(
            data,
            i + 4,
            DecState::Start,
            acc.push(StepModel::Tap(kc)),
        ),
        kc >= 256 && i + 4 <= data.len() && data[i] == SS_QMK_PREFIX && data[i + 1]
            == VIAL_MACRO_EXT_DOWN && data[i + 2] == (ext_code(kc) & 0xFF) as u8 && data[i + 3] == (
        ext_code(kc) >> 8) as u8 ==> decode_sm(data, i, DecState::Start, acc) == decode_sm(
            data,
            i + 4,
            DecState::Start,
            acc.push(StepModel::Down(kc)),
        ),
        kc >= 256 && i + 4 <= data.len() && data[i] == SS_QMK_PREFIX && data[i + 1]
            == VIAL_MACRO_EXT_UP && data[i + 2] == (ext_code(kc) & 0xFF) as u8 && data[i + 3] == (
        ext_code(kc) >> 8) as u8 ==> decode_sm(data, i, DecState::Start, acc) == decode_sm(
            data,
            i + 4,
            DecState::Start,
            acc.push(StepModel::Up(kc)),
        ),
{
    if kc < 256 {
        if i + 3 <= data.len() && data[i] == SS_QMK_PREFIX && data[i + 2] == kc as u8 {
            assert((kc as u8) as u16 == kc);
            assert(decode_sm(data, i, DecState::Start, acc) == decode_sm(
                data,
                i + 1,
                DecState::NextCommand,
                acc,
            ));
            assert(decode_sm(data, i + 1, DecState::NextCommand, acc) == decode_sm(
                data,
                i + 2,
                DecState::Command(data[i + 1]),
                acc,
            ));
            if data[i + 1] == SS_TAP_CODE {
                assert(decode_sm(data, i + 2, DecState::Command(SS_TAP_CODE), acc) == decode_sm(
                    data,
                    i + 3,
                    DecState::Start,
                    acc.push(StepModel::Tap(data[i + 2] as u16)),
                ));
            }
            if data[i + 1] == SS_DOWN_CODE {
                assert(decode_sm(data, i + 2, DecState::Command(SS_DOWN_CODE), acc) == decode_sm(
                    data,
                    i + 3,
                    DecState::Start,
                    acc.push(StepModel::Down(data[i + 2] as u16)),
                ));
            }
            if data[i + 1] == SS_UP_CODE {
                assert(decode_sm(data, i + 2, DecState::Command(SS_UP_CODE), acc) == decode_sm(
                    data,
                    i + 3,
                    DecState::Start,
                    acc.push(StepModel::Up(data[i + 2] as u16)),
                ));
            }
        }
    } else {
        let c = ext_code(kc);
        let lo = (c & 0xFF) as u8;
        let hi = (c >> 8) as u8;
        if kc % 256 == 0 {
            assert(c == (0xFF00u16 | (kc >> 8)));
            assert({
                let kc0 = (lo as u16) | (((hi as u16) << 8) as u16);
                kc0 > 0xFF00 && ((kc0 & 0xFF) << 8) as u16 == kc
            }) by (bit_vector)
                requires
                    lo == (c & 0xFF) as u8,
                    hi == (c >> 8) as u8,
                    c == (0xFF00u16 | (kc >> 8)),
                    kc >= 256,
                    kc % 256 == 0,
            ;
        } else {
            assert(c == kc);
            assert({
                let kc0 = (lo as u16) | (((hi as u16) << 8) as u16);
                kc0 == kc && !(kc0 > 0xFF00)
            }) by (bit_vector)
                requires
                    lo == (c & 0xFF) as u8,
                    hi == (c >> 8) as u8,
                    c == kc,
                    kc <= 0xFF00,
            ;
        }
        if i + 4 <= data.len() && data[i] == SS_QMK_PREFIX && data[i + 2] == lo && data[i + 3]
            == hi {
            assert(decode_sm(data, i, DecState::Start, acc) == decode_sm(
                data,
                i + 1,
                DecState::NextCommand,
                acc,
            ));
            assert(decode_sm(data, i + 1, DecState::NextCommand, acc) == decode_sm(
                data,
                i + 2,
                DecState::Command(data[i + 1]),
                acc,
            ));
            if data[i + 1] == VIAL_MACRO_EXT_TAP {
                assert(decode_sm(data, i + 2, DecState::Command(VIAL_MACRO_EXT_TAP), acc)
                    == decode_sm(data, i + 3, DecState::CommandArg(VIAL_MACRO_EXT_TAP, lo), acc));
                assert(decode_sm(data, i + 3, DecState::CommandArg(VIAL_MACRO_EXT_TAP, lo), acc)
                    == decode_sm(data, i + 4, DecState::Start, acc.push(StepModel::Tap(kc))));
            }
            if data[i + 1] == VIAL_MACRO_EXT_DOWN {
                assert(decode_sm(data, i + 2, DecState::Command(VIAL_MACRO_EXT_DOWN), acc)
                    == decode_sm(data, i + 3, DecState::CommandArg(VIAL_MACRO_EXT_DOWN, lo), acc));
                assert(decode_sm(data, i + 3, DecState::CommandArg(VIAL_MACRO_EXT_DOWN, lo), acc)
                    == decode_sm(data, i + 4, DecState::Start, acc.push(StepModel::Down(kc))));
            }
            if data[i + 1] == VIAL_MACRO_EXT_UP {
                assert(decode_sm(data, i + 2, DecState::Command(VIAL_MACRO_EXT_UP), acc)
                    == decode_sm(data, i + 3, DecState::CommandArg(VIAL_MACRO_EXT_UP, lo), acc));
                assert(decode_sm(data, i + 3, DecState::CommandArg(VIAL_MACRO_EXT_UP, lo), acc)
                    == decode_sm(data, i + 4, DecState::Start, acc.push(StepModel::Up(kc))));
            }
        }
    }
}

/// Decoding the bytes of a well-formed step sequence, from any starting
/// accumulation, appends exactly those steps.
proof fn lemma_decode_bytes(data: Seq<u8>, i: int, steps: Seq<StepModel>, acc: Seq<StepModel>)
    requires
        0 <= i,
        i + macro_bytes(steps).len() == data.len(),
        data.subrange(i, data.len() as int) == macro_bytes(steps),
        wf_steps(steps),
    ensures
        decode_sm(data, i, DecState::Start, acc) == Some(acc + steps),
    decreases steps.len(),
{
    if steps.len() == 0 {
        assert(decode_sm(data, i, DecState::Start, acc) == Some(acc));
        assert(acc + steps =~= acc);
    } else {
        let st = steps[0];
        let rest = steps.drop_first();
        lemma_macro_bytes_first(steps);
        let sb = step_bytes(st);
        let e = i + sb.len();
        assert(data.subrange(i, data.len() as int) == sb + macro_bytes(rest));
        assert(data.subrange(i, e) =~= sb) by {
            assert(forall|k: int|
                0 <= k < sb.len() ==> data.subrange(i, data.len() as int)[k] == (sb + macro_bytes(
                    rest,
                ))[k]);
            assert(forall|k: int|
                0 <= k < sb.len() ==> #[trigger] data.subrange(i, e)[k] == data.subrange(
                    i,
                    data.len() as int,
                )[k]);
        }
        assert(data.subrange(e, data.len() as int) =~= macro_bytes(rest)) by {
            assert(forall|k: int|
                0 <= k < macro_bytes(rest).len() ==> #[trigger] data.subrange(
                    e,
                    data.len() as int,
                )[k] == data.subrange(i, data.len() as int)[sb.len() + k]);
        }
        assert(wf_step(st));
        assert(wf_steps(rest)) by {
            assert(forall|j: int| 0 <= j < rest.len() ==> rest[j] == steps[j + 1]);
        }
        if st is Text {
            if rest.len() == 0 {
                assert(macro_bytes(rest) =~= Seq::<u8>::empty());
                assert(e == data.len());
            } else {
                assert(!(rest[0] is Text));
                lemma_macro_bytes_first(rest);
                assert(step_bytes(rest[0])[0] == SS_QMK_PREFIX);
                assert(step_bytes(rest[0]).len() > 0);
                assert(data[e] == macro_bytes(rest)[0]);
                assert(macro_bytes(rest)[0] == (step_bytes(rest[0]) + macro_bytes(
                    rest.drop_first(),
                ))[0]);
            }
        }
        lemma_consume_step(data, i, st, acc);
        lemma_decode_bytes(data, e, rest, acc.push(st));
        assert(acc.push(st) + rest =~= acc + steps);
    }
}

/// Decoding an encoded well-formed step sequence yields it back, step for
/// step and in order.
pub proof fn lemma_macro_round_trip(steps: Seq<StepModel>)
    requires
        wf_steps(steps),
    ensures
        decode_single_spec(macro_bytes(steps)) == Some(steps),
{
    let data = macro_bytes(steps);
    assert(data.subrange(0, data.len() as int) =~= data);
    lemma_decode_bytes(data, 0, steps, Seq::empty());
    assert(Seq::<StepModel>::empty() + steps =~= steps);
}


// ---------------------------------------------------------------------------
// Textual DSL and JSON forms.
// ---------------------------------------------------------------------------
/// Resolution of one `Kind(arg)` step text, spaces significant only inside
/// key names, in the given generation.
pub open spec fn step_from_string_spec(s: Seq<char>, g: Generation) -> Option<StepModel> {
    match find_char_spec(s, '(') {
        None => None,
        Some(i) => if !(0 <= i < s.len()) {
            None
        } else {
            let f = s.subrange(0, i);
            let rest = s.subrange(i + 1, s.len() as int);
            let arg = if rest.len() == 0 {
                rest
            } else {
                rest.drop_last()
            };
            if f == "Delay"@ {
                match parse_u16_spec(arg) {
                    None => None,
                    Some(ms) => Some(StepModel::Delay(ms)),
                }
            } else if f == "Text"@ {
                Some(StepModel::Text(encode_utf8(arg)))
            } else if f == "Tap"@ {
                match crate::keycodes::name_to_qid_spec(arg, g) {
                    None => None,
                    Some(k) => Some(StepModel::Tap(k)),
                }
            } else if f == "Down"@ {
                match crate::keycodes::name_to_qid_spec(arg, g) {
                    None => None,
                    Some(k) => Some(StepModel::Down(k)),
                }
            } else if f == "Up"@ {
                match crate::keycodes::name_to_qid_spec(arg, g) {
                    None => None,
                    Some(k) => Some(StepModel::Up(k)),
                }
            } else {
                None
            }
        },
    }
}

impl MacroStep {
    /// Parses one `Tap(KEY)`, `Down(KEY)`, `Up(KEY)`, `Delay(ms)` or
    /// `Text(literal)` step.
    pub fn from_string(step: &str, vial_version: u32) -> (r: Result<MacroStep, MacroParsingError>)
        ensures
            step.is_ascii() ==> {
                let spec_r = step_from_string_spec(step@, generation_of_spec(vial_version));
                &&& r is Ok <==> spec_r is Some
                &&& r is Ok ==> step_model(r.unwrap()) == spec_r.unwrap()
            },
    {
        if !step.is_ascii() {
            return Err(MacroParsingError(String::from_str("macro step is not ascii")));
        }
        let g = crate::keycodes::generation_of(vial_version);
        proof {
            lemma_find_char_spec(step@, '(');
        }
        let n = step.unicode_len();
        match find_char(step, '(') {
            None => Err(MacroParsingError(String::from_str("Lack of parenthesis"))),
            Some(i) => {
                let f = step.substring_ascii(0, i);
                let rest = step.substring_ascii(i + 1, n);
                let arg = if rest.unicode_len() == 0 {
                    rest
                } else {
                    let rl = rest.unicode_len();
                    rest.substring_ascii(0, rl - 1)
                };
                assert(arg@ =~= {
                    let restv = step@.subrange(i + 1, step@.len() as int);
                    if restv.len() == 0 {
                        restv
                    } else {
                        restv.drop_last()
                    }
                });
                if str_eq(f, "Delay") {
                    match parse_u16(arg) {
                        Some(ms) => Ok(MacroStep::Delay(ms)),
                        None => Err(
                            MacroParsingError(String::from_str("delay argument should be num")),
                        ),
                    }
                } else if str_eq(f, "Text") {
                    let t = String::from_str(arg);
                    Ok(MacroStep::Text(t))
                } else if str_eq(f, "Tap") {
                    match crate::keycodes::name_to_qid(arg, vial_version) {
                        Ok(k) => Ok(MacroStep::Tap(k)),
                        Err(e) => Err(MacroParsingError(e.0)),
                    }
                } else if str_eq(f, "Down") {
                    match crate::keycodes::name_to_qid(arg, vial_version) {
                        Ok(k) => Ok(MacroStep::Down(k)),
                        Err(e) => Err(MacroParsingError(e.0)),
                    }
                } else if str_eq(f, "Up") {
                    match crate::keycodes::name_to_qid(arg, vial_version) {
                        Ok(k) => Ok(MacroStep::Up(k)),
                        Err(e) => Err(MacroParsingError(e.0)),
                    }
                } else {
                    let mut m = String::from_str("Unknown macro step ");
                    m.append(arg);
                    Err(MacroParsingError(m))
                }
            },
        }
    }

    /// Canonical display text of a step; keycodes print in the current
    /// generation's names, as the display convention has it.
    pub fn to_text(&self) -> (r: String)
        ensures
            r@ == step_text_spec(*self),
    {
        match self {
            MacroStep::Tap(kc) => {
                let name = crate::keycodes::qid_to_name(*kc, 6);
                let mut m = String::from_str("Tap(");
                m.append(name.as_str());
                m.append(")");
                assert(m@ =~= step_text_spec(*self));
                m
            },
            MacroStep::Down(kc) => {
                let name = crate::keycodes::qid_to_name(*kc, 6);
                let mut m = String::from_str("Down(");
                m.append(name.as_str());
                m.append(")");
                assert(m@ =~= step_text_spec(*self));
                m
            },
            MacroStep::Up(kc) => {
                let name = crate::keycodes::qid_to_name(*kc, 6);
                let mut m = String::from_str("Up(");
                m.append(name.as_str());
                m.append(")");
                assert(m@ =~= step_text_spec(*self));
                m
            },
            MacroStep::Delay(ms) => {
                let d = dec_string(*ms);
                let mut m = String::from_str("Delay(");
                m.append(d.as_str());
                m.append(")");
                assert(m@ =~= step_text_spec(*self));
                m
            },
            MacroStep::Text(t) => {
                let mut m = String::from_str("Text(");
                m.append(t.as_str());
                m.append(")");
                assert(m@ =~= step_text_spec(*self));
                m
            },
        }
    }
}

/// Display text of one step.
pub open spec fn step_text_spec(st: MacroStep) -> Seq<char> {
    match st {
        MacroStep::Tap(kc) => "Tap("@ + crate::keycodes::qid_name_spec(
            kc,
            Generation::Current,
        ) + ")"@,
        MacroStep::Down(kc) => "Down("@ + crate::keycodes::qid_name_spec(
            kc,
            Generation::Current,
        ) + ")"@,
        MacroStep::Up(kc) => "Up("@ + crate::keycodes::qid_name_spec(
            kc,
            Generation::Current,
        ) + ")"@,
        MacroStep::Delay(ms) => "Delay("@ + dec_str_spec(ms as int) + ")"@,
        MacroStep::Text(t) => "Text("@ + t@ + ")"@,
    }
}

/// Resolution of a whole `;`-separated step list, each piece trimmed and
/// empty pieces skipped.
pub open spec fn macro_from_string_spec(s: Seq<char>, g: Generation) -> Option<Seq<StepModel>>
    decreases s.len(),
{
    match find_char_spec(s, ';') {
        None => {
            let piece = trim_spec(s);
            if piece.len() == 0 {
                Some(Seq::empty())
            } else {
                match step_from_string_spec(piece, g) {
                    None => None,
                    Some(st) => Some(seq![st]),
                }
            }
        },
        Some(i) => if !(0 <= i < s.len()) {
            None
        } else {
            let piece = trim_spec(s.subrange(0, i));
            let restr = macro_from_string_spec(s.subrange(i + 1, s.len() as int), g);
            if piece.len() == 0 {
                restr
            } else {
                match (step_from_string_spec(piece, g), restr) {
                    (Some(st), Some(rest)) => Some(seq![st] + rest),
                    _ => None,
                }
            }
        },
    }
}

fn macro_steps_from_string(value: &str, vial_version: u32) -> (r: Result<
    Vec<MacroStep>,
    MacroParsingError,
>)
    requires
        value.is_ascii(),
    ensures
        r is Ok <==> macro_from_string_spec(value@, generation_of_spec(vial_version)) is Some,
        r is Ok ==> steps_model(r.unwrap()@) == macro_from_string_spec(
            value@,
            generation_of_spec(vial_version),
        ).unwrap(),
    decreases value@.len(),
{
    proof {
        lemma_find_char_spec(value@, ';');
    }
    let n = value.unicode_len();
    match find_char(value, ';') {
        None => {
            let piece = trim_ascii(value);
            if piece.as_str().unicode_len() == 0 {
                let r: Vec<MacroStep> = Vec::new();
                assert(steps_model(r@) =~= Seq::<StepModel>::empty());
                Ok(r)
            } else {
                match MacroStep::from_string(piece.as_str(), vial_version) {
                    Ok(st) => {
                        let mut r: Vec<MacroStep> = Vec::new();
                        r.push(st);
                        assert(steps_model(r@) =~= seq![step_model(st)]);
                        Ok(r)
                    },
                    Err(e) => Err(e),
                }
            }
        },
        Some(i) => {
            let head = value.substring_ascii(0, i);
            let tail = value.substring_ascii(i + 1, n);
            let piece = trim_ascii(head);
            let restr = macro_steps_from_string(tail, vial_version);
            if piece.as_str().unicode_len() == 0 {
                restr
            } else {
                match (MacroStep::from_string(piece.as_str(), vial_version), restr) {
                    (Ok(st), Ok(rest)) => {
                        let ghost old_rest = rest@;
                        let mut r = rest;
                        r.insert(0, st);
                        assert(steps_model(r@) =~= seq![step_model(st)] + steps_model(old_rest));
                        Ok(r)
                    },
                    (Err(e), _) => Err(e),
                    (_, Err(e)) => Err(e),
                }
            }
        },
    }
}

impl Macro {
    /// Parses a `;`-separated step list into an indexed macro.
    pub fn from_string(index: u8, value: &str, vial_version: u32) -> (r: Result<
        Macro,
        MacroParsingError,
    >)
        ensures
            value.is_ascii() ==> {
                let spec_r = macro_from_string_spec(value@, generation_of_spec(vial_version));
                &&& r is Ok <==> spec_r is Some
                &&& r is Ok ==> steps_model(r.unwrap().steps@) == spec_r.unwrap()
                    && r.unwrap().index == index
            },
    {
        if !value.is_ascii() {
            return Err(MacroParsingError(String::from_str("macro text is not ascii")));
        }
        match macro_steps_from_string(value, vial_version) {
            Ok(steps) => Ok(Macro { index, steps }),
            Err(e) => Err(e),
        }
    }

    /// Display text of the whole macro: its index, then the steps joined
    /// with `; `, or `EMPTY` when there are none.
    pub fn to_text(&self) -> (r: String)
        ensures
            r@ == macro_text_spec(*self),
    {
        let ghost base = crate::strutil::dec_str_spec(self.index as int) + ") "@;
        let mut m = dec_string(self.index as u16);
        m.append(") ");
        assert(m@ =~= base);
        if self.steps.len() == 0 {
            m.append("EMPTY");
            assert(m@ =~= macro_text_spec(*self));
            return m;
        }
        let n = self.steps.len();
        let mut i: usize = 0;
        while i < n
            invariant
                n == self.steps@.len(),
                0 < n,
                i <= n,
                base == crate::strutil::dec_str_spec(self.index as int) + ") "@,
                base + steps_text_spec(self.steps@, 0) == m@ + steps_text_spec(
                    self.steps@,
                    i as int,
                ),
            decreases n - i,
        {
            let ghost pre = m@;
            if i > 0 {
                m.append("; ");
            }
            let t = self.steps[i].to_text();
            m.append(t.as_str());
            proof {
                let sep: Seq<char> = if i > 0 {
                    "; "@
                } else {
                    Seq::empty()
                };
                assert(m@ =~= pre + sep + step_text_spec(self.steps@[i as int]));
                assert(steps_text_spec(self.steps@, i as int) == sep + step_text_spec(
                    self.steps@[i as int],
                ) + steps_text_spec(self.steps@, i + 1));
                assert(pre + (sep + step_text_spec(self.steps@[i as int]) + steps_text_spec(
                    self.steps@,
                    i + 1,
                )) =~= (pre + sep + step_text_spec(self.steps@[i as int])) + steps_text_spec(
                    self.steps@,
                    i + 1,
                ));
            }
            i = i + 1;
        }
        proof {
            assert(steps_text_spec(self.steps@, n as int) =~= Seq::<char>::empty());
            assert(m@ + Seq::<char>::empty() =~= m@);
            assert(base + steps_text_spec(self.steps@, 0) =~= m@);
            assert(macro_text_spec(*self) == base + steps_text_spec(self.steps@, 0));
        }
        m
    }
}

/// Display text of a step list from position `i`: the steps' texts joined
/// with `; `.
pub open spec fn steps_text_spec(steps: Seq<MacroStep>, i: int) -> Seq<char>
    decreases steps.len() - i,
{
    if i < 0 || i >= steps.len() {
        Seq::empty()
    } else {
        let sep: Seq<char> = if i > 0 {
            "; "@
        } else {
            Seq::empty()
        };
        sep + step_text_spec(steps[i]) + steps_text_spec(steps, i + 1)
    }
}

/// Display text of a whole macro: its index, then `EMPTY` or the joined
/// step texts.
pub open spec fn macro_text_spec(m: Macro) -> Seq<char> {
    let s = crate::strutil::dec_str_spec(m.index as int) + ") "@;
    if m.steps@.len() == 0 {
        s + "EMPTY"@
    } else {
        s + steps_text_spec(m.steps@, 0)
    }
}

/// Resolution of the arguments of one JSON step tuple, from position `p`:
/// kind 1, 2 and 3 are taps, downs and ups given as key names, kind 4 is a
/// delay given as a number, kind 5 is a text literal.
pub open spec fn json_args_spec(args: Seq<JsonValue>, p: int, kind: u8, g: Generation) -> Option<
    Seq<StepModel>,
>
    decreases args.len() - p,
{
    if p < 1 || p > args.len() {
        None
    } else if p == args.len() {
        Some(Seq::empty())
    } else {
        let head: Option<StepModel> = match args[p] {
            JsonValue::UInt(v) => if kind == 4 {
                Some(StepModel::Delay(v as u16))
            } else {
                None
            },
            JsonValue::Str(t) => if kind == 5 {
                Some(StepModel::Text(encode_utf8(t@)))
            } else if kind == 1 || kind == 2 || kind == 3 {
                match crate::keycodes::name_to_qid_spec(t@, g) {
                    None => None,
                    Some(k) => if kind == 1 {
                        Some(StepModel::Tap(k))
                    } else if kind == 2 {
                        Some(StepModel::Down(k))
                    } else {
                        Some(StepModel::Up(k))
                    },
                }
            } else {
                None
            },
            _ => None,
        };
        match (head, json_args_spec(args, p + 1, kind, g)) {
            (Some(st), Some(rest)) => Some(seq![st] + rest),
            _ => None,
        }
    }
}

/// Resolution of one JSON step tuple `[action, args...]`; one tuple may
/// expand to several steps.
pub open spec fn step_from_json_spec(v: JsonValue, g: Generation) -> Option<Seq<StepModel>> {
    match v {
        JsonValue::Arr(items) => if items@.len() < 2 {
            None
        } else {
            match items@[0] {
                JsonValue::Str(a) => if a@ == "delay"@ {
                    json_args_spec(items@, 1, 4, g)
                } else if a@ == "text"@ {
                    json_args_spec(items@, 1, 5, g)
                } else if a@ == "tap"@ {
                    json_args_spec(items@, 1, 1, g)
                } else if a@ == "down"@ {
                    json_args_spec(items@, 1, 2, g)
                } else if a@ == "up"@ {
                    json_args_spec(items@, 1, 3, g)
                } else {
                    None
                },
                _ => None,
            }
        },
        _ => None,
    }
}

fn json_args_exec(args: &Vec<JsonValue>, kind: u8, vial_version: u32) -> (r: Result<
    Vec<MacroStep>,
    MacroParsingError,
>)
    requires
        1 <= args@.len(),
        kind == 1 || kind == 2 || kind == 3 || kind == 4 || kind == 5,
    ensures
        r is Ok <==> json_args_spec(args@, 1, kind, generation_of_spec(vial_version)) is Some,
        r is Ok ==> steps_model(r.unwrap()@) == json_args_spec(
            args@,
            1,
            kind,
            generation_of_spec(vial_version),
        ).unwrap(),
{
    let ghost g = generation_of_spec(vial_version);
    let n = args.len();
    let mut out: Vec<MacroStep> = Vec::new();
    let mut p: usize = 1;
    assert(steps_model(out@) =~= Seq::<StepModel>::empty());
    while p < n
        invariant
            n == args@.len(),
            1 <= p <= n,
            g == generation_of_spec(vial_version),
            kind == 1 || kind == 2 || kind == 3 || kind == 4 || kind == 5,
            json_args_spec(args@, 1, kind, g) is Some <==> json_args_spec(args@, p as int, kind, g)
                is Some,
            json_args_spec(args@, 1, kind, g) is Some ==> json_args_spec(
                args@,
                1,
                kind,
                g,
            ).unwrap() =~= steps_model(out@) + json_args_spec(args@, p as int, kind, g).unwrap(),
        decreases n - p,
    {
        let ghost pre = steps_model(out@);
        let step: MacroStep = match &args[p] {
            JsonValue::UInt(v) => {
                if kind == 4 {
                    proof {
                        crate::strutil::lemma_u64_low16(*v);
                    }
                    MacroStep::Delay((*v % 65536) as u16)
                } else {
                    proof {
                        lemma_json_args_none(args@, 1, p as int, kind, g);
                    }
                    return Err(
                        MacroParsingError(String::from_str("macro step argument has a wrong type")),
                    );
                }
            },
            JsonValue::Str(t) => {
                if kind == 5 {
                    let c = t.clone();
                    MacroStep::Text(c)
                } else if kind == 4 {
                    proof {
                        lemma_json_args_none(args@, 1, p as int, kind, g);
                    }
                    return Err(
                        MacroParsingError(String::from_str("delay argument should be number")),
                    );
                } else {
                    match crate::keycodes::name_to_qid(t.as_str(), vial_version) {
                        Ok(k) => if kind == 1 {
                            MacroStep::Tap(k)
                        } else if kind == 2 {
                            MacroStep::Down(k)
                        } else {
                            MacroStep::Up(k)
                        },
                        Err(e) => {
                            proof {
                                lemma_json_args_none(args@, 1, p as int, kind, g);
                            }
                            return Err(MacroParsingError(e.0));
                        },
                    }
                }
            },
            _ => {
                proof {
                    lemma_json_args_none(args@, 1, p as int, kind, g);
                }
                return Err(
                    MacroParsingError(String::from_str("macro step argument has a wrong type")),
                );
            },
        };
        out.push(step);
        proof {
            assert(steps_model(out@) =~= pre.push(step_model(step)));
            lemma_json_args_some_step(args@, p as int, kind, g, step_model(step));
        }
        p = p + 1;
    }
    assert(json_args_spec(args@, n as int, kind, g) == Some(Seq::<StepModel>::empty()));
    proof {
        if json_args_spec(args@, 1, kind, g) is Some {
            assert(json_args_spec(args@, 1, kind, g).unwrap() =~= steps_model(out@));
        }
    }
    Ok(out)
}

/// When the argument at `p` resolves to `st`, the suffix from `p` resolves
/// exactly when the suffix from `p + 1` does, with `st` in front.
proof fn lemma_json_args_some_step(
    args: Seq<JsonValue>,
    p: int,
    kind: u8,
    g: Generation,
    st: StepModel,
)
    requires
        1 <= p < args.len(),
        match args[p] {
            JsonValue::UInt(v) => kind == 4 && st == StepModel::Delay(v as u16),
            JsonValue::Str(t) => if kind == 5 {
                st == StepModel::Text(encode_utf8(t@))
            } else {
                (kind == 1 || kind == 2 || kind == 3) && match crate::keycodes::name_to_qid_spec(
                    t@,
                    g,
                ) {
                    Some(k) => st == if kind == 1 {
                        StepModel::Tap(k)
                    } else if kind == 2 {
                        StepModel::Down(k)
                    } else {
                        StepModel::Up(k)
                    },
                    None => false,
                }
            },
            _ => false,
        },
    ensures
        json_args_spec(args, p, kind, g) is Some <==> json_args_spec(args, p + 1, kind, g) is Some,
        json_args_spec(args, p, kind, g) is Some ==> json_args_spec(args, p, kind, g).unwrap()
            == seq![st] + json_args_spec(args, p + 1, kind, g).unwrap(),
{
}

/// When the argument at `p` resolves to nothing, neither does any prefix
/// suffix containing it.
proof fn lemma_json_args_none(args: Seq<JsonValue>, q: int, p: int, kind: u8, g: Generation)
    requires
        1 <= q <= p < args.len(),
        match args[p] {
            JsonValue::UInt(v) => kind != 4,
            JsonValue::Str(t) => kind != 5 && (kind == 4 || ((kind == 1 || kind == 2 || kind == 3)
                && crate::keycodes::name_to_qid_spec(t@, g) is None)),
            _ => true,
        },
    ensures
        json_args_spec(args, q, kind, g) is None,
    decreases p - q,
{
    if q == p {
    } else {
        lemma_json_args_none(args, q + 1, p, kind, g);
    }
}

impl MacroStep {
    /// Parses one JSON step tuple, which may expand to several steps.
    pub fn from_json(step_json: &JsonValue, vial_version: u32) -> (r: Result<
        Vec<MacroStep>,
        MacroParsingError,
    >)
        ensures
            r is Ok <==> step_from_json_spec(*step_json, generation_of_spec(vial_version)) is Some,
            r is Ok ==> steps_model(r.unwrap()@) == step_from_json_spec(
                *step_json,
                generation_of_spec(vial_version),
            ).unwrap(),
    {
        let items = match step_json.as_array() {
            Some(v) => v,
            None => {
                return Err(MacroParsingError(String::from_str("macro step should be an array")));
            },
        };
        if items.len() < 2 {
            return Err(
                MacroParsingError(
                    String::from_str("macro step array should be at least 2 elements long"),
                ),
            );
        }
        let action = match items[0].as_str() {
            Some(a) => a,
            None => {
                return Err(MacroParsingError(String::from_str("action should be string")));
            },
        };
        if str_eq(action, "delay") {
            json_args_exec(items, 4, vial_version)
        } else if str_eq(action, "text") {
            json_args_exec(items, 5, vial_version)
        } else if str_eq(action, "tap") {
            json_args_exec(items, 1, vial_version)
        } else if str_eq(action, "down") {
            json_args_exec(items, 2, vial_version)
        } else if str_eq(action, "up") {
            json_args_exec(items, 3, vial_version)
        } else {
            let mut m = String::from_str("Unknown macro step ");
            m.append(action);
            Err(MacroParsingError(m))
        }
    }
}


/// Resolution of one whole macro's JSON: an array of step tuples, each of
/// which may expand to several steps, concatenated in order.
pub open spec fn macro_from_json_spec(items: Seq<JsonValue>, p: int, g: Generation) -> Option<
    Seq<StepModel>,
>
    decreases items.len() - p,
{
    if p < 0 || p > items.len() {
        None
    } else if p == items.len() {
        Some(Seq::empty())
    } else {
        match (step_from_json_spec(items[p], g), macro_from_json_spec(items, p + 1, g)) {
            (Some(st), Some(rest)) => Some(st + rest),
            _ => None,
        }
    }
}

impl Macro {
    /// Parses one macro from its JSON array of step tuples.
    pub fn from_json(index: u8, steps_json: &JsonValue, vial_version: u32) -> (r: Result<
        Macro,
        MacroParsingError,
    >)
        ensures
            r is Ok <==> (steps_json is Arr && macro_from_json_spec(
                steps_json->Arr_0@,
                0,
                generation_of_spec(vial_version),
            ) is Some),
            r is Ok ==> steps_json is Arr && steps_model(r.unwrap().steps@)
                == macro_from_json_spec(
                steps_json->Arr_0@,
                0,
                generation_of_spec(vial_version),
            ).unwrap() && r.unwrap().index == index,
    {
        let ghost g = generation_of_spec(vial_version);
        let items = match steps_json.as_array() {
            Some(v) => v,
            None => {
                return Err(
                    MacroParsingError(
                        String::from_str("macro should be defined as array of macro steps"),
                    ),
                );
            },
        };
        let n = items.len();
        let mut steps: Vec<MacroStep> = Vec::new();
        let mut p: usize = 0;
        assert(steps_model(steps@) =~= Seq::<StepModel>::empty());
        while p < n
            invariant
                n == items@.len(),
                p <= n,
                g == generation_of_spec(vial_version),
                *steps_json == JsonValue::Arr(*items),
                macro_from_json_spec(items@, 0, g) is Some <==> macro_from_json_spec(
                    items@,
                    p as int,
                    g,
                ) is Some,
                macro_from_json_spec(items@, 0, g) is Some ==> macro_from_json_spec(
                    items@,
                    0,
                    g,
                ).unwrap() =~= steps_model(steps@) + macro_from_json_spec(
                    items@,
                    p as int,
                    g,
                ).unwrap(),
            decreases n - p,
        {
            let ghost pre = steps_model(steps@);
            match MacroStep::from_json(&items[p], vial_version) {
                Ok(mut more) => {
                    let m = more.len();
                    let ghost more0 = more@;
                    let mut j: usize = 0;
                    while j < m
                        invariant
                            m == more0.len(),
                            j <= m,
                            more@ =~= more0.subrange(j as int, m as int),
                            steps_model(steps@) =~= pre + steps_model(more0.subrange(0, j as int)),
                        decreases m - j,
                    {
                        let st = more.remove(0);
                        assert(st == more0[j as int]);
                        steps.push(st);
                        proof {
                            assert(more0.subrange(0, j + 1 as int) =~= more0.subrange(
                                0,
                                j as int,
                            ).push(st));
                            assert(steps_model(more0.subrange(0, j + 1 as int)) =~= steps_model(
                                more0.subrange(0, j as int),
                            ).push(step_model(st)));
                            assert(steps_model(steps@) =~= (pre + steps_model(
                                more0.subrange(0, j as int),
                            )).push(step_model(st)));
                            assert((pre + steps_model(more0.subrange(0, j as int))).push(
                                step_model(st),
                            ) =~= pre + steps_model(more0.subrange(0, j as int)).push(
                                step_model(st),
                            ));
                            assert(steps_model(steps@) =~= pre + steps_model(
                                more0.subrange(0, j + 1 as int),
                            ));
                            assert(more@ =~= more0.subrange(j + 1 as int, m as int));
                        }
                        j = j + 1;
                    }
                    proof {
                        assert(more0.subrange(0, m as int) =~= more0);
                        lemma_macro_json_step(items@, p as int, g);
                    }
                },
                Err(e) => {
                    proof {
                        assert(step_from_json_spec(items@[p as int], g) is None);
                        lemma_macro_json_none(items@, 0, p as int, g);
                        assert(macro_from_json_spec(items@, 0, g) is None);
                    }
                    return Err(e);
                },
            }
            p = p + 1;
        }
        proof {
            if macro_from_json_spec(items@, 0, g) is Some {
                assert(macro_from_json_spec(items@, 0, g).unwrap() =~= steps_model(steps@));
            }
        }
        Ok(Macro { index, steps })
    }
}

proof fn lemma_macro_json_step(items: Seq<JsonValue>, p: int, g: Generation)
    requires
        0 <= p < items.len(),
    ensures
        macro_from_json_spec(items, p, g) is Some <==> (step_from_json_spec(items[p], g) is Some
            && macro_from_json_spec(items, p + 1, g) is Some),
        macro_from_json_spec(items, p, g) is Some ==> macro_from_json_spec(items, p, g).unwrap()
            == step_from_json_spec(items[p], g).unwrap() + macro_from_json_spec(
            items,
            p + 1,
            g,
        ).unwrap(),
{
}

proof fn lemma_macro_json_none(items: Seq<JsonValue>, q: int, p: int, g: Generation)
    requires
        0 <= q <= p < items.len(),
        step_from_json_spec(items[p], g) is None,
    ensures
        macro_from_json_spec(items, q, g) is None,
    decreases p - q,
{
    if q < p {
        lemma_macro_json_none(items, q + 1, p, g);
    }
}

/// Resolution of one whole macro's JSON value: the array of its step
/// tuples, or nothing for any other shape.
pub open spec fn macro_json_spec(v: JsonValue, g: Generation) -> Option<Seq<StepModel>> {
    match v {
        JsonValue::Arr(items) => macro_from_json_spec(items@, 0, g),
        _ => None,
    }
}

/// Parses a whole JSON macro list, one macro per element, indexed in
/// order.
pub fn load_macros_from_json(macros_json: &JsonValue, vial_version: u32) -> (r: Result<
    Vec<Macro>,
    MacroParsingError,
>)
    ensures
        r is Ok <==> (macros_json matches JsonValue::Arr(items) && (forall|i: int|
            0 <= i < items@.len() ==> macro_json_spec(
                #[trigger] items@[i],
                generation_of_spec(vial_version),
            ) is Some)),
        r is Ok ==> (macros_json matches JsonValue::Arr(items) && r.unwrap()@.len()
            == items@.len() && (forall|i: int|
            0 <= i < items@.len() ==> steps_model(r.unwrap()@[i].steps@) == macro_json_spec(
                #[trigger] items@[i],
                generation_of_spec(vial_version),
            ).unwrap() && r.unwrap()@[i].index == (i % 256) as u8)),
{
    let ghost g = generation_of_spec(vial_version);
    let items = match macros_json.as_array() {
        Some(v) => v,
        None => {
            return Err(MacroParsingError(String::from_str("macro value should be an array")));
        },
    };
    let n = items.len();
    let mut result: Vec<Macro> = Vec::new();
    let mut i: usize = 0;
    while i < n
        invariant
            n == items@.len(),
            i <= n,
            result@.len() == i,
            g == generation_of_spec(vial_version),
            *macros_json == JsonValue::Arr(*items),
            forall|k: int|
                0 <= k < i ==> steps_model(result@[k].steps@) == macro_json_spec(
                    #[trigger] items@[k],
                    g,
                ).unwrap() && result@[k].index == (k % 256) as u8 && macro_json_spec(
                    items@[k],
                    g,
                ) is Some,
        decreases n - i,
    {
        match Macro::from_json((i % 256) as u8, &items[i], vial_version) {
            Ok(m) => {
                result.push(m);
            },
            Err(e) => {
                proof {
                    assert(macro_json_spec(items@[i as int], g) is None);
                }
                return Err(e);
            },
        }
        i = i + 1;
    }
    Ok(result)
}

/// What one rendered step tuple holds for a given step.
pub open spec fn step_json_matches(jv: JsonValue, st: MacroStep, g: Generation) -> bool {
    match st {
        MacroStep::Tap(kc) => jv matches JsonValue::Arr(a) && a@.len() == 2 && (a@[0] matches
            JsonValue::Str(t) && t@ == "tap"@) && (a@[1] matches JsonValue::Str(n) && n@
            == crate::keycodes::qid_name_spec(kc, g)),
        MacroStep::Down(kc) => jv matches JsonValue::Arr(a) && a@.len() == 2 && (a@[0] matches
            JsonValue::Str(t) && t@ == "down"@) && (a@[1] matches JsonValue::Str(n) && n@
            == crate::keycodes::qid_name_spec(kc, g)),
        MacroStep::Up(kc) => jv matches JsonValue::Arr(a) && a@.len() == 2 && (a@[0] matches
            JsonValue::Str(t) && t@ == "up"@) && (a@[1] matches JsonValue::Str(n) && n@
            == crate::keycodes::qid_name_spec(kc, g)),
        MacroStep::Delay(ms) => jv matches JsonValue::Arr(a) && a@.len() == 2 && (a@[0] matches
            JsonValue::Str(t) && t@ == "delay"@) && a@[1] == JsonValue::UInt(ms as u64),
        MacroStep::Text(txt) => jv matches JsonValue::Arr(a) && a@.len() == 2 && (a@[0] matches
            JsonValue::Str(t) && t@ == "text"@) && (a@[1] matches JsonValue::Str(n) && n@ == txt@),
    }
}

fn step_to_json(st: &MacroStep, vial_version: u32) -> (r: JsonValue)
    ensures
        step_json_matches(r, *st, generation_of_spec(vial_version)),
{
    let mut pair: Vec<JsonValue> = Vec::new();
    match st {
        MacroStep::Tap(kc) => {
            pair.push(JsonValue::Str(String::from_str("tap")));
            pair.push(JsonValue::Str(crate::keycodes::qid_to_name(*kc, vial_version)));
        },
        MacroStep::Down(kc) => {
            pair.push(JsonValue::Str(String::from_str("down")));
            pair.push(JsonValue::Str(crate::keycodes::qid_to_name(*kc, vial_version)));
        },
        MacroStep::Up(kc) => {
            pair.push(JsonValue::Str(String::from_str("up")));
            pair.push(JsonValue::Str(crate::keycodes::qid_to_name(*kc, vial_version)));
        },
        MacroStep::Delay(ms) => {
            pair.push(JsonValue::Str(String::from_str("delay")));
            pair.push(JsonValue::UInt(*ms as u64));
        },
        MacroStep::Text(txt) => {
            pair.push(JsonValue::Str(String::from_str("text")));
            pair.push(JsonValue::Str(txt.clone()));
        },
    }
    JsonValue::Arr(pair)
}

/// Renders a macro list as JSON: one array of `[action, argument]` tuples
/// per macro, in step order.
pub fn macros_to_json(macros: &Vec<Macro>, vial_version: u32) -> (r: Result<
    Vec<JsonValue>,
    MacroParsingError,
>)
    ensures
        r is Ok,
        r.unwrap()@.len() == macros@.len(),
        forall|i: int|
            0 <= i < macros@.len() ==> (#[trigger] r.unwrap()@[i] matches JsonValue::Arr(steps)
                && steps@.len() == macros@[i].steps@.len() && (forall|j: int|
                0 <= j < steps@.len() ==> step_json_matches(
                    #[trigger] steps@[j],
                    macros@[i].steps@[j],
                    generation_of_spec(vial_version),
                ))),
{
    let n = macros.len();
    let mut result: Vec<JsonValue> = Vec::new();
    let mut i: usize = 0;
    while i < n
        invariant
            n == macros@.len(),
            i <= n,
            result@.len() == i,
            forall|k: int|
                0 <= k < i ==> (#[trigger] result@[k] matches JsonValue::Arr(steps)
                    && steps@.len() == macros@[k].steps@.len() && (forall|j: int|
                    0 <= j < steps@.len() ==> step_json_matches(
                        #[trigger] steps@[j],
                        macros@[k].steps@[j],
                        generation_of_spec(vial_version),
                    ))),
        decreases n - i,
    {
        let m = macros[i].steps.len();
        let mut steps_json: Vec<JsonValue> = Vec::new();
        let mut j: usize = 0;
        while j < m
            invariant
                i < n,
                n == macros@.len(),
                m == macros@[i as int].steps@.len(),
                j <= m,
                steps_json@.len() == j,
                forall|k: int|
                    0 <= k < j ==> step_json_matches(
                        #[trigger] steps_json@[k],
                        macros@[i as int].steps@[k],
                        generation_of_spec(vial_version),
                    ),
            decreases m - j,
        {
            let jv = step_to_json(&macros[i].steps[j], vial_version);
            steps_json.push(jv);
            j = j + 1;
        }
        result.push(JsonValue::Arr(steps_json));
        i = i + 1;
    }
    Ok(result)
}

} // verus!
