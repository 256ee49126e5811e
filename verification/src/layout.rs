//! Layout options: named variant groups packed into sub-fields of one
//! 32-bit device state word, default-plus-one-hot encoded.
use vstd::prelude::*;
use vstd::string::StringExecFns;
use crate::json::JsonValue;
use crate::protocol;
use crate::protocol::ProtocolError;

verus! {

/// One variant group: its name, its variant labels, and the lowest bit of
/// its span in the state word. A group with `n` variants spans `n - 1`
/// bits.
#[derive(Debug)]
pub struct LayoutGroup {
    pub name: String,
    pub variants: Vec<String>,
    pub start_bit: u8,
}

/// The layout-option state of a device: the raw 32-bit word and the
/// ordered groups that interpret it, the last-declared group in the
/// lowest bits.
#[derive(Debug)]
pub struct LayoutOptions {
    pub state: u32,
    pub options: Vec<LayoutGroup>,
}

/// The bit span of a group: one bit fewer than it has variants.
pub open spec fn group_span(len: int) -> int {
    len - 1
}

/// The field a group reads from a state word: its span's bits, shifted
/// down to the low end.
pub open spec fn group_field(state: u32, sb: int, len: int) -> u32 {
    if 0 <= sb < 32 {
        let shifted = state >> (sb as u32);
        if group_span(len) >= 32 {
            shifted
        } else if group_span(len) <= 0 {
            0u32
        } else {
            shifted & (((1u32 << (group_span(len) as u32)) - 1) as u32)
        }
    } else {
        0u32
    }
}

/// The selected variant for a field value: zero selects variant 0, and a
/// value whose highest set bit is `v - 1` selects variant `v`; any other
/// value selects nothing.
pub open spec fn sel_of_field(f: u32, v: int, len: int) -> Option<int>
    decreases len - v,
{
    if v < 0 || v >= len {
        None
    } else if f == 0 && v == 0 {
        Some(0)
    } else if v > 0 && v <= 32 && (f >> ((v - 1) as u32)) == 1u32 {
        Some(v)
    } else {
        sel_of_field(f, v + 1, len)
    }
}

/// The selections a whole descriptor reads from a state word, in group
/// order; a group whose field selects nothing contributes no pair.
pub open spec fn via_options_spec(state: u32, groups: Seq<LayoutGroup>, i: int) -> Seq<(u8, u8)>
    decreases groups.len() - i,
{
    if i < 0 || i >= groups.len() {
        Seq::empty()
    } else {
        let head: Seq<(u8, u8)> = match sel_of_field(
            group_field(state, groups[i].start_bit as int, groups[i].variants@.len() as int),
            0,
            groups[i].variants@.len() as int,
        ) {
            Some(v) => seq![((i % 256) as u8, (v % 256) as u8)],
            None => Seq::empty(),
        };
        head + via_options_spec(state, groups, i + 1)
    }
}

/// The state word after one group's span is cleared and a variant encoded
/// into it: 0 for the default variant, else the single bit `v - 1` of the
/// span.
pub open spec fn set_group_spec(state: u32, sb: int, len: int, v: int) -> u32 {
    if 0 <= sb < 32 && 1 <= group_span(len) && sb + group_span(len) <= 32 && 0 <= v < len {
        let mask: u32 = if group_span(len) == 32 {
            0xFFFFFFFFu32
        } else {
            (((1u32 << (group_span(len) as u32)) - 1) as u32) << (sb as u32)
        };
        let cleared: u32 = state & !mask;
        if v == 0 {
            cleared
        } else {
            (cleared | (1u32 << ((v - 1 + sb) as u32))) as u32
        }
    } else {
        state
    }
}

/// The state word after a list of (group, variant) choices is applied in
/// group order; choices that name no group or no variant leave the word
/// unchanged.
pub open spec fn apply_choices_spec(
    state: u32,
    groups: Seq<LayoutGroup>,
    i: int,
    choices: Seq<(u8, u8)>,
) -> u32
    decreases groups.len() - i,
{
    if i < 0 || i >= groups.len() {
        state
    } else {
        let after = apply_choice_list(state, groups[i], i, choices, 0);
        apply_choices_spec(after, groups, i + 1, choices)
    }
}

/// One group's state after every choice naming it is applied in list
/// order.
pub open spec fn apply_choice_list(
    state: u32,
    group: LayoutGroup,
    gi: int,
    choices: Seq<(u8, u8)>,
    p: int,
) -> u32
    decreases choices.len() - p,
{
    if p < 0 || p >= choices.len() {
        state
    } else {
        let next = if choices[p].0 as int == gi {
            set_group_spec(
                state,
                group.start_bit as int,
                group.variants@.len() as int,
                choices[p].1 as int,
            )
        } else {
            state
        };
        apply_choice_list(next, group, gi, choices, p + 1)
    }
}

impl LayoutOptions {
    /// A descriptor with no groups and a zero state.
    pub fn empty() -> (r: LayoutOptions)
        ensures
            r.state == 0u32,
            r.options@.len() == 0,
    {
        LayoutOptions { state: 0, options: Vec::new() }
    }

    /// Whether the descriptor has no groups.
    pub fn is_empty(&self) -> (r: bool)
        ensures
            r == (self.options@.len() == 0),
    {
        self.options.len() == 0
    }

    /// Reads the current (group, variant) selections out of the state
    /// word, one pair per group whose field is readable.
    pub fn via_options(&self) -> (r: Vec<(u8, u8)>)
        ensures
            r@ == via_options_spec(self.state, self.options@, 0),
    {
        let n = self.options.len();
        let mut result: Vec<(u8, u8)> = Vec::new();
        let mut i: usize = 0;
        while i < n
            invariant
                n == self.options@.len(),
                i <= n,
                via_options_spec(self.state, self.options@, 0) == result@ + via_options_spec(
                    self.state,
                    self.options@,
                    i as int,
                ),
            decreases n - i,
        {
            let ghost pre = result@;
            let g = &self.options[i];
            let sb = g.start_bit;
            let len = g.variants.len();
            let field: u32 = if sb < 32 {
                let shifted = self.state >> (sb as u32);
                if len >= 33 {
                    shifted
                } else if len <= 1 {
                    0u32
                } else {
                    proof {
                        let sh = (len - 1) as u32;
                        assert(1u32 << sh >= 1u32) by (bit_vector)
                            requires
                                sh < 32,
                        ;
                    }
                    shifted & ((1u32 << ((len - 1) as u32)) - 1)
                }
            } else {
                0u32
            };
            assert(field == group_field(self.state, sb as int, len as int));
            let mut v: usize = 0;
            let mut found: Option<u8> = None;
            while v < len
                invariant
                    len == g.variants@.len(),
                    v <= len,
                    field == group_field(self.state, sb as int, len as int),
                    match found {
                        Some(fv) => sel_of_field(field, 0, len as int) == Some(fv as int) && fv
                            == (fv as int % 256) as u8,
                        None => sel_of_field(field, 0, len as int) == sel_of_field(
                            field,
                            v as int,
                            len as int,
                        ),
                    },
                decreases len - v,
            {
                if found.is_none() {
                    if field == 0 && v == 0 {
                        found = Some(0u8);
                        assert(sel_of_field(field, 0, len as int) == Some(0int));
                    } else if v > 0 && v <= 32 && (field >> ((v - 1) as u32)) == 1u32 {
                        found = Some((v % 256) as u8);
                        assert(sel_of_field(field, v as int, len as int) == Some(v as int));
                        proof {
                            if v < 256 {
                                assert((v as int % 256) as u8 == (v % 256) as u8);
                            }
                        }
                    }
                }
                v = v + 1;
            }
            match found {
                Some(fv) => {
                    result.push(((i % 256) as u8, fv));
                    proof {
                        assert(via_options_spec(self.state, self.options@, i as int) == seq![
                            ((i as int % 256) as u8, fv),
                        ] + via_options_spec(self.state, self.options@, i + 1));
                        assert(result@ =~= pre + seq![((i as int % 256) as u8, fv)]);
                        assert(result@ + via_options_spec(self.state, self.options@, i + 1) =~= pre
                            + via_options_spec(self.state, self.options@, i as int));
                    }
                },
                None => {
                    proof {
                        assert(sel_of_field(field, len as int, len as int) is None);
                        assert(via_options_spec(self.state, self.options@, i as int)
                            =~= via_options_spec(self.state, self.options@, i + 1));
                    }
                },
            }
            i = i + 1;
        }
        proof {
            assert(via_options_spec(self.state, self.options@, n as int) =~= Seq::<(
                u8,
                u8,
            )>::empty());
        }
        result
    }

    /// Writes a list of (group, variant) choices into the state word,
    /// clearing each chosen group's span and encoding the variant; a
    /// choice out of range leaves the word unchanged.
    pub fn set_via_options(&mut self, options: Vec<(u8, u8)>) -> (r: Result<(), ProtocolError>)
        ensures
            r is Ok,
            final(self).state == apply_choices_spec(
                old(self).state,
                old(self).options@,
                0,
                options@,
            ),
            final(self).options == old(self).options,
    {
        let n = self.options.len();
        let m = options.len();
        let mut i: usize = 0;
        while i < n
            invariant
                n == self.options@.len(),
                m == options@.len(),
                i <= n,
                self.options == old(self).options,
                apply_choices_spec(old(self).state, old(self).options@, 0, options@)
                    == apply_choices_spec(self.state, self.options@, i as int, options@),
            decreases n - i,
        {
            let ghost s0 = self.state;
            let sb = self.options[i].start_bit;
            let len = self.options[i].variants.len();
            let mut p: usize = 0;
            while p < m
                invariant
                    n == self.options@.len(),
                    m == options@.len(),
                    i < n,
                    p <= m,
                    self.options == old(self).options,
                    sb == self.options@[i as int].start_bit,
                    len == self.options@[i as int].variants@.len(),
                    apply_choice_list(s0, self.options@[i as int], i as int, options@, 0)
                        == apply_choice_list(
                        self.state,
                        self.options@[i as int],
                        i as int,
                        options@,
                        p as int,
                    ),
                decreases m - p,
            {
                let (no, nv) = options[p];
                if no as usize == i {
                    self.state = set_group(self.state, sb, len, nv as usize);
                }
                p = p + 1;
            }
            proof {
                assert(apply_choice_list(s0, self.options@[i as int], i as int, options@, 0)
                    == self.state);
            }
            i = i + 1;
        }
        Ok(())
    }
}

/// Encodes one variant choice into one group's span of a state word.
fn set_group(state: u32, sb: u8, len: usize, v: usize) -> (r: u32)
    ensures
        r == set_group_spec(state, sb as int, len as int, v as int),
{
    if sb < 32 && len >= 2 && len - 1 <= 32 - (sb as usize) && v < len {
        let span: u32 = (len - 1) as u32;
        proof {
            let sp = span;
            assert(sp < 32 ==> 1u32 << sp >= 1u32) by (bit_vector);
        }
        let mask: u32 = if span == 32 {
            0xFFFFFFFFu32
        } else {
            ((1u32 << span) - 1) << (sb as u32)
        };
        let cleared: u32 = state & !mask;
        if v == 0 {
            cleared
        } else {
            cleared | (1u32 << ((v - 1 + sb as usize) as u32))
        }
    } else {
        state
    }
}

/// The request that reads the 32-bit layout state, which the reply carries
/// high byte first in bytes 2 to 5.
pub fn layout_options_get_request() -> (r: Vec<u8>)
    ensures
        r@ =~= seq![protocol::CMD_VIA_GET_KEYBOARD_VALUE, protocol::VIA_LAYOUT_OPTIONS],
{
    let mut v: Vec<u8> = Vec::new();
    v.push(protocol::CMD_VIA_GET_KEYBOARD_VALUE);
    v.push(protocol::VIA_LAYOUT_OPTIONS);
    v
}

/// The 32-bit layout state carried in a get reply, bytes 2 to 5 high byte
/// first; None when the device answered unhandled.
pub fn layout_options_from_response(data: &[u8]) -> (r: Option<u32>)
    requires
        data@.len() >= 6,
    ensures
        data@[0] == protocol::VIA_UNHANDLED <==> r is None,
        r is Some ==> r.unwrap() == (((data@[2] as u32) << 24) | ((data@[3] as u32) << 16) | ((
        data@[4] as u32) << 8) | (data@[5] as u32)),
{
    if data[0] == protocol::VIA_UNHANDLED {
        None
    } else {
        Some(
            ((data[2] as u32) << 24) | ((data[3] as u32) << 16) | ((data[4] as u32) << 8) | (
            data[5] as u32),
        )
    }
}

/// The request that writes the 32-bit layout state, high byte first.
pub fn layout_options_set_request(options: u32) -> (r: Vec<u8>)
    ensures
        r@ =~= seq![
            protocol::CMD_VIA_SET_KEYBOARD_VALUE,
            protocol::VIA_LAYOUT_OPTIONS,
            ((options >> 24) & 0xFF) as u8,
            ((options >> 16) & 0xFF) as u8,
            ((options >> 8) & 0xFF) as u8,
            (options & 0xFF) as u8,
        ],
{
    let mut v: Vec<u8> = Vec::new();
    v.push(protocol::CMD_VIA_SET_KEYBOARD_VALUE);
    v.push(protocol::VIA_LAYOUT_OPTIONS);
    v.push(((options >> 24) & 0xFF) as u8);
    v.push(((options >> 16) & 0xFF) as u8);
    v.push(((options >> 8) & 0xFF) as u8);
    v.push((options & 0xFF) as u8);
    v
}


/// Whether one label has a shape the descriptor accepts: a plain string,
/// or a list of at least a name and one variant, all strings.
pub open spec fn label_ok(v: JsonValue) -> bool {
    match v {
        JsonValue::Str(_) => true,
        JsonValue::Arr(tuple) => tuple@.len() >= 2 && tuple@[0] is Str && (forall|j: int|
            1 <= j < tuple@.len() ==> (#[trigger] tuple@[j]) is Str),
        _ => false,
    }
}

/// How many state bits one label's group occupies: one for a boolean
/// group, one fewer than its variant count for a list group.
pub open spec fn label_span(v: JsonValue) -> int {
    match v {
        JsonValue::Str(_) => 1,
        JsonValue::Arr(tuple) => tuple@.len() - 2,
        _ => 0,
    }
}

/// The bits occupied by the groups from label `i` on; the last-declared
/// group takes the lowest bits, so this is also group `i - 1`'s start bit.
pub open spec fn spans_after(items: Seq<JsonValue>, i: int) -> int
    decreases items.len() - i,
{
    if i < 0 || i >= items.len() {
        0
    } else {
        label_span(items[i]) + spans_after(items, i + 1)
    }
}

/// The group name one label declares.
pub open spec fn label_name(v: JsonValue) -> Seq<char> {
    match v {
        JsonValue::Str(s) => s@,
        JsonValue::Arr(tuple) => match tuple@[0] {
            JsonValue::Str(s) => s@,
            _ => Seq::empty(),
        },
        _ => Seq::empty(),
    }
}

/// The variant labels one label declares: `["false", "true"]` for a
/// boolean group, the list's tail for a list group.
pub open spec fn label_variants(v: JsonValue) -> Seq<Seq<char>> {
    match v {
        JsonValue::Str(_) => seq!["false"@, "true"@],
        JsonValue::Arr(tuple) => tuple@.subrange(1, tuple@.len() as int).map(
            |j: int, e: JsonValue|
                match e {
                    JsonValue::Str(s) => s@,
                    _ => Seq::<char>::empty(),
                },
        ),
        _ => Seq::empty(),
    }
}

/// Whether one built group carries a label's name, variants, and start
/// bit.
pub open spec fn group_matches(g: LayoutGroup, v: JsonValue, sb: int) -> bool {
    &&& g.name@ == label_name(v)
    &&& crate::strutil::strings_view(g.variants@) == label_variants(v)
    &&& g.start_bit as int == sb
}

/// Well-formed labels occupy a non-negative, weakly shrinking tail of
/// bits.
proof fn lemma_spans_mono(items: Seq<JsonValue>, i: int, j: int)
    requires
        0 <= i <= j <= items.len(),
        forall|t: int| 0 <= t < items.len() ==> label_ok(#[trigger] items[t]),
    ensures
        spans_after(items, i) >= spans_after(items, j),
    decreases j - i,
{
    if i < j {
        assert(label_ok(items[i]));
        assert(label_span(items[i]) >= 0);
        lemma_spans_mono(items, i + 1, j);
    }
}

impl LayoutOptions {
    /// Builds the descriptor from the device JSON `layouts.labels` list and
    /// a state word: a plain string is a boolean group of one bit; a
    /// `[name, variant...]` list is an N-way group of N - 1 bits; the
    /// last-declared group takes the lowest bits; a null list is an absent
    /// descriptor. The build fails exactly on a label of any other shape,
    /// or when the groups outgrow the start-bit byte.
    pub fn from_json(state: u32, labels: &JsonValue) -> (r: Result<LayoutOptions, ProtocolError>)
        ensures
            labels is Null ==> (r is Ok && r.unwrap().options@.len() == 0 && r.unwrap().state
                == 0u32),
            !(labels is Null) ==> (r is Ok <==> (labels matches JsonValue::Arr(items) && (forall|
                i: int,
            |
                0 <= i < items@.len() ==> label_ok(#[trigger] items@[i])) && spans_after(items@, 0)
                <= 255)),
            r is Ok && !(labels is Null) ==> (labels matches JsonValue::Arr(items)
                && r.unwrap().state == state && r.unwrap().options@.len() == items@.len() && (
            forall|i: int|
                0 <= i < items@.len() ==> group_matches(
                    r.unwrap().options@[i],
                    #[trigger] items@[i],
                    spans_after(items@, i + 1),
                ))),
    {
        if labels.is_null() {
            return Ok(LayoutOptions::empty());
        }
        let items = match labels.as_array() {
            Some(v) => v,
            None => {
                return Err(
                    ProtocolError::GeneralError(
                        String::from_str("layout/labels should be an array"),
                    ),
                );
            },
        };
        let n = items.len();
        let mut rev: Vec<LayoutGroup> = Vec::new();
        let mut start_bit: u8 = 0;
        let mut k: usize = n;
        while k > 0
            invariant
                n == items@.len(),
                k <= n,
                rev@.len() == n - k,
                !(labels is Null),
                *labels == JsonValue::Arr(*items),
                start_bit as int == spans_after(items@, k as int),
                forall|j: int| k <= j < n ==> label_ok(#[trigger] items@[j]),
                forall|t: int|
                    0 <= t < rev@.len() ==> group_matches(
                        #[trigger] rev@[t],
                        items@[n - 1 - t],
                        spans_after(items@, n - t),
                    ),
            decreases k,
        {
            let label = &items[k - 1];
            let ghost pre_rev = rev@;
            match label {
                JsonValue::Str(name) => {
                    if start_bit >= 255 {
                        proof {
                            if forall|t: int| 0 <= t < items@.len() ==> label_ok(
                                #[trigger] items@[t],
                            ) {
                                lemma_spans_mono(items@, 0, k - 1);
                                assert(spans_after(items@, k - 1) == 1 + spans_after(
                                    items@,
                                    k as int,
                                ));
                            }
                        }
                        return Err(
                            ProtocolError::GeneralError(
                                String::from_str("layout options exceed the state word"),
                            ),
                        );
                    }
                    let mut vars: Vec<String> = Vec::new();
                    vars.push(String::from_str("false"));
                    vars.push(String::from_str("true"));
                    assert(crate::strutil::strings_view(vars@) =~= seq!["false"@, "true"@]);
                    rev.push(LayoutGroup { name: name.clone(), variants: vars, start_bit });
                    start_bit = start_bit + 1;
                },
                JsonValue::Arr(tuple) => {
                    if tuple.len() < 2 {
                        return Err(
                            ProtocolError::GeneralError(
                                String::from_str(
                                    "array layout/labels should name at least one variant",
                                ),
                            ),
                        );
                    }
                    let name = match tuple[0].as_str() {
                        Some(t) => t,
                        None => {
                            return Err(
                                ProtocolError::GeneralError(
                                    String::from_str("layout/label name should be string"),
                                ),
                            );
                        },
                    };
                    let m = tuple.len();
                    let mut vars: Vec<String> = Vec::new();
                    let mut j: usize = 1;
                    while j < m
                        invariant
                            m == tuple@.len(),
                            1 <= j <= m,
                            vars@.len() == j - 1,
                            !(labels is Null),
                            *labels == JsonValue::Arr(*items),
                            k >= 1,
                            n == items@.len(),
                            k <= n,
                            items@[k - 1] == JsonValue::Arr(*tuple),
                            forall|t: int|
                                1 <= t < j ==> (#[trigger] tuple@[t]) is Str && vars@[t - 1]@
                                    == tuple@[t]->Str_0@,
                        decreases m - j,
                    {
                        let v = match tuple[j].as_str() {
                            Some(t) => t,
                            None => {
                                return Err(
                                    ProtocolError::GeneralError(
                                        String::from_str(
                                            "array layout/labels should be array of strings",
                                        ),
                                    ),
                                );
                            },
                        };
                        vars.push(String::from_str(v));
                        j = j + 1;
                    }
                    if m - 2 > 255 - (start_bit as usize) {
                        proof {
                            if forall|t: int| 0 <= t < items@.len() ==> label_ok(
                                #[trigger] items@[t],
                            ) {
                                lemma_spans_mono(items@, 0, k - 1);
                                assert(spans_after(items@, k - 1) == (m - 2) + spans_after(
                                    items@,
                                    k as int,
                                ));
                            }
                        }
                        return Err(
                            ProtocolError::GeneralError(
                                String::from_str("layout options exceed the state word"),
                            ),
                        );
                    }
                    let g = LayoutGroup {
                        name: String::from_str(name),
                        variants: vars,
                        start_bit,
                    };
                    proof {
                        assert(label_ok(items@[k - 1]));
                        assert(crate::strutil::strings_view(g.variants@) =~= label_variants(
                            items@[k - 1],
                        ));
                    }
                    rev.push(g);
                    start_bit = start_bit + ((m - 2) as u8);
                },
                _ => {
                    return Err(
                        ProtocolError::GeneralError(
                            String::from_str("labels should be string or array of strings"),
                        ),
                    );
                },
            }
            proof {
                assert(spans_after(items@, k - 1) == label_span(items@[k - 1]) + spans_after(
                    items@,
                    k as int,
                ));
                assert(rev@[rev@.len() - 1] == rev@.last());
                assert forall|t: int| 0 <= t < rev@.len() implies group_matches(
                    #[trigger] rev@[t],
                    items@[n - 1 - t],
                    spans_after(items@, n - t),
                ) by {
                    if t < pre_rev.len() {
                        assert(rev@[t] == pre_rev[t]);
                    }
                }
            }
            k = k - 1;
        }
        let ghost rev0 = rev@;
        let mut options: Vec<LayoutGroup> = Vec::new();
        let mut t: usize = rev.len();
        while t > 0
            invariant
                t == rev@.len(),
                t <= n,
                options@.len() == n - t,
                rev@ =~= rev0.subrange(0, t as int),
                rev0.len() == n,
                forall|u: int| 0 <= u < options@.len() ==> #[trigger] options@[u] == rev0[n - 1 - u],
            decreases t,
        {
            let g = rev.pop().unwrap();
            options.push(g);
            t = t - 1;
        }
        proof {
            assert forall|i: int| 0 <= i < n implies group_matches(
                options@[i],
                #[trigger] items@[i],
                spans_after(items@, i + 1),
            ) by {
                assert(options@[i] == rev0[n - 1 - i]);
                assert(group_matches(rev0[n - 1 - i], items@[i], spans_after(items@, i + 1)));
            }
        }
        Ok(LayoutOptions { state, options })
    }
}



/// A group the 32-bit word can hold: at least two variants, and a span
/// that fits above its start bit.
pub open spec fn group_wf(sb: int, len: int) -> bool {
    &&& 0 <= sb < 32
    &&& 2 <= len
    &&& sb + group_span(len) <= 32
}

/// Two groups whose bit spans do not overlap.
pub open spec fn groups_disjoint(sb1: int, len1: int, sb2: int, len2: int) -> bool {
    sb1 + group_span(len1) <= sb2 || sb2 + group_span(len2) <= sb1
}

proof fn lemma_field_after_set_bv(s: u32, sbu: u32, spu: u32, vu: u32)
    requires
        sbu < 32,
        1 <= spu,
        sbu + spu <= 32,
        vu <= spu,
    ensures
        ({
            let mask: u32 = if spu == 32 {
                0xFFFFFFFFu32
            } else {
                (((1u32 << spu) - 1) as u32) << sbu
            };
            let cleared: u32 = s & !mask;
            let enc: u32 = if vu == 0 {
                cleared
            } else {
                (cleared | (1u32 << ((vu - 1 + sbu) as u32))) as u32
            };
            let shifted: u32 = enc >> sbu;
            let field: u32 = if spu >= 32 {
                shifted
            } else {
                shifted & (((1u32 << spu) - 1) as u32)
            };
            field == (if vu == 0 {
                0u32
            } else {
                (1u32 << ((vu - 1) as u32)) as u32
            })
        }),
{
    assert(({
        let mask: u32 = if spu == 32 {
            0xFFFFFFFFu32
        } else {
            (((1u32 << spu) - 1) as u32) << sbu
        };
        let cleared: u32 = s & !mask;
        let enc: u32 = if vu == 0 {
            cleared
        } else {
            (cleared | (1u32 << ((vu - 1 + sbu) as u32))) as u32
        };
        let shifted: u32 = enc >> sbu;
        let field: u32 = if spu >= 32 {
            shifted
        } else {
            shifted & (((1u32 << spu) - 1) as u32)
        };
        field == (if vu == 0 {
            0u32
        } else {
            (1u32 << ((vu - 1) as u32)) as u32
        })
    })) by (bit_vector)
        requires
            sbu < 32,
            1 <= spu,
            sbu + spu <= 32,
            vu <= spu,
    ;
}

proof fn lemma_field_other_group_bv(s: u32, sbu: u32, spu: u32, vu: u32, sb2: u32, sp2: u32)
    requires
        sbu < 32,
        1 <= spu,
        sbu + spu <= 32,
        vu <= spu,
        sb2 < 32,
        1 <= sp2,
        sb2 + sp2 <= 32,
        sbu + spu <= sb2 || sb2 + sp2 <= sbu,
    ensures
        ({
            let mask: u32 = if spu == 32 {
                0xFFFFFFFFu32
            } else {
                (((1u32 << spu) - 1) as u32) << sbu
            };
            let cleared: u32 = s & !mask;
            let enc: u32 = if vu == 0 {
                cleared
            } else {
                (cleared | (1u32 << ((vu - 1 + sbu) as u32))) as u32
            };
            let f1: u32 = if sp2 >= 32 {
                (enc >> sb2) as u32
            } else {
                ((enc >> sb2) & (((1u32 << sp2) - 1) as u32)) as u32
            };
            let f0: u32 = if sp2 >= 32 {
                (s >> sb2) as u32
            } else {
                ((s >> sb2) & (((1u32 << sp2) - 1) as u32)) as u32
            };
            f1 == f0
        }),
{
    assert(({
        let mask: u32 = if spu == 32 {
            0xFFFFFFFFu32
        } else {
            (((1u32 << spu) - 1) as u32) << sbu
        };
        let cleared: u32 = s & !mask;
        let enc: u32 = if vu == 0 {
            cleared
        } else {
            (cleared | (1u32 << ((vu - 1 + sbu) as u32))) as u32
        };
        let f1: u32 = if sp2 >= 32 {
            (enc >> sb2) as u32
        } else {
            ((enc >> sb2) & (((1u32 << sp2) - 1) as u32)) as u32
        };
        let f0: u32 = if sp2 >= 32 {
            (s >> sb2) as u32
        } else {
            ((s >> sb2) & (((1u32 << sp2) - 1) as u32)) as u32
        };
        f1 == f0
    })) by (bit_vector)
        requires
            sbu < 32,
            1 <= spu,
            sbu + spu <= 32,
            vu <= spu,
            sb2 < 32,
            1 <= sp2,
            sb2 + sp2 <= 32,
            sbu + spu <= sb2 || sb2 + sp2 <= sbu,
    ;
}

proof fn lemma_sel_scan(f: u32, v: int, w: int, len: int)
    requires
        1 <= v < len,
        v <= 32,
        f == (1u32 << ((v - 1) as u32)) as u32,
        0 <= w <= v,
    ensures
        sel_of_field(f, w, len) == Some(v),
    decreases v - w,
{
    let vm: u32 = (v - 1) as u32;
    assert(f != 0u32) by (bit_vector)
        requires
            f == (1u32 << vm),
            vm < 32,
    ;
    if w == v {
        assert((f >> vm) == 1u32) by (bit_vector)
            requires
                f == (1u32 << vm),
                vm < 32,
        ;
        assert(sel_of_field(f, w, len) == Some(v));
    } else {
        if w > 0 {
            let wm: u32 = (w - 1) as u32;
            assert((f >> wm) != 1u32) by (bit_vector)
                requires
                    f == (1u32 << vm),
                    vm < 32,
                    wm < vm,
            ;
        }
        lemma_sel_scan(f, v, w + 1, len);
    }
}

/// Encoding a variant into a well-formed group and decoding that group
/// reads the same variant back, and the field of any disjoint group is
/// untouched — whatever bits the word held before.
pub proof fn lemma_group_round_trip(
    state: u32,
    sb: int,
    len: int,
    v: int,
    sb2: int,
    len2: int,
)
    requires
        group_wf(sb, len),
        0 <= v < len,
        group_wf(sb2, len2),
        groups_disjoint(sb, len, sb2, len2) || (sb == sb2 && len == len2),
    ensures
        sel_of_field(
            group_field(set_group_spec(state, sb, len, v), sb, len),
            0,
            len,
        ) == Some(v),
        groups_disjoint(sb, len, sb2, len2) ==> group_field(
            set_group_spec(state, sb, len, v),
            sb2,
            len2,
        ) == group_field(state, sb2, len2),
{
    let sbu = sb as u32;
    let spu = (len - 1) as u32;
    let vu = v as u32;
    lemma_field_after_set_bv(state, sbu, spu, vu);
    if groups_disjoint(sb, len, sb2, len2) {
        lemma_field_other_group_bv(state, sbu, spu, vu, sb2 as u32, (len2 - 1) as u32);
    }
    let f = group_field(set_group_spec(state, sb, len, v), sb, len);
    if v == 0 {
        assert(f == 0u32);
        assert(sel_of_field(f, 0, len) == Some(0int));
    } else {
        assert(f == (1u32 << ((v - 1) as u32)) as u32);
        assert(v <= 32);
        lemma_sel_scan(f, v, 0, len);
    }
}


/// A whole descriptor the 32-bit word can hold: every group well formed,
/// spans pairwise disjoint, and at most 256 groups so indices fit a byte.
pub open spec fn descriptor_wf(groups: Seq<LayoutGroup>) -> bool {
    &&& groups.len() <= 256
    &&& forall|i: int|
        0 <= i < groups.len() ==> group_wf(
            (#[trigger] groups[i]).start_bit as int,
            groups[i].variants@.len() as int,
        )
    &&& forall|i: int, j: int|
        0 <= i < groups.len() && 0 <= j < groups.len() && i != j ==> groups_disjoint(
            (#[trigger] groups[i]).start_bit as int,
            groups[i].variants@.len() as int,
            (#[trigger] groups[j]).start_bit as int,
            groups[j].variants@.len() as int,
        )
}

/// One choice per group, in group order, each naming a variant the group
/// has.
pub open spec fn selection_wf(groups: Seq<LayoutGroup>, sel: Seq<(u8, u8)>) -> bool {
    &&& sel.len() == groups.len()
    &&& forall|i: int|
        0 <= i < sel.len() ==> (#[trigger] sel[i]).0 == (i % 256) as u8 && (sel[i].1 as int)
            < groups[i].variants@.len()
}

/// The decoded variant of a cleared-or-one-hot field.
proof fn lemma_sel_of_encoded(f: u32, v: int, len: int)
    requires
        2 <= len,
        group_span(len) <= 32,
        0 <= v < len,
        f == (if v == 0 {
            0u32
        } else {
            (1u32 << ((v - 1) as u32)) as u32
        }),
    ensures
        sel_of_field(f, 0, len) == Some(v),
{
    if v == 0 {
        assert(sel_of_field(f, 0, len) == Some(0int));
    } else {
        assert(v <= 32);
        lemma_sel_scan(f, v, 0, len);
    }
}

/// With one choice per group, a group's choice pass applies exactly its
/// own choice.
proof fn lemma_choice_list_single(
    state: u32,
    groups: Seq<LayoutGroup>,
    gi: int,
    sel: Seq<(u8, u8)>,
    p: int,
)
    requires
        selection_wf(groups, sel),
        groups.len() <= 256,
        0 <= gi < groups.len(),
        0 <= p <= sel.len(),
    ensures
        apply_choice_list(state, groups[gi], gi, sel, p) == (if p <= gi {
            set_group_spec(
                state,
                groups[gi].start_bit as int,
                groups[gi].variants@.len() as int,
                sel[gi].1 as int,
            )
        } else {
            state
        }),
    decreases sel.len() - p,
{
    if p < sel.len() {
        assert(sel[p].0 == (p % 256) as u8);
        if p == gi {
            let next = set_group_spec(
                state,
                groups[gi].start_bit as int,
                groups[gi].variants@.len() as int,
                sel[gi].1 as int,
            );
            lemma_choice_list_single(next, groups, gi, sel, p + 1);
        } else {
            assert(sel[p].0 as int != gi) by {
                assert(p % 256 == p && gi % 256 == gi);
            }
            lemma_choice_list_single(state, groups, gi, sel, p + 1);
        }
    }
}

/// Folding the choices for groups `j` on leaves every earlier group's
/// field alone.
proof fn lemma_fold_preserves(
    state: u32,
    groups: Seq<LayoutGroup>,
    j: int,
    sel: Seq<(u8, u8)>,
    i: int,
)
    requires
        descriptor_wf(groups),
        selection_wf(groups, sel),
        0 <= i < j <= groups.len(),
    ensures
        group_field(
            apply_choices_spec(state, groups, j, sel),
            groups[i].start_bit as int,
            groups[i].variants@.len() as int,
        ) == group_field(state, groups[i].start_bit as int, groups[i].variants@.len() as int),
    decreases groups.len() - j,
{
    if j < groups.len() {
        lemma_choice_list_single(state, groups, j, sel, 0);
        let after = set_group_spec(
            state,
            groups[j].start_bit as int,
            groups[j].variants@.len() as int,
            sel[j].1 as int,
        );
        lemma_group_round_trip(
            state,
            groups[j].start_bit as int,
            groups[j].variants@.len() as int,
            sel[j].1 as int,
            groups[i].start_bit as int,
            groups[i].variants@.len() as int,
        );
        lemma_fold_preserves(after, groups, j + 1, sel, i);
    }
}

/// After the whole fold, every group's field encodes its chosen variant.
proof fn lemma_fold_fields(state: u32, groups: Seq<LayoutGroup>, j: int, sel: Seq<(u8, u8)>)
    requires
        descriptor_wf(groups),
        selection_wf(groups, sel),
        0 <= j <= groups.len(),
    ensures
        forall|i: int|
            j <= i < groups.len() ==> sel_of_field(
                group_field(
                    apply_choices_spec(state, groups, j, sel),
                    (#[trigger] groups[i]).start_bit as int,
                    groups[i].variants@.len() as int,
                ),
                0,
                groups[i].variants@.len() as int,
            ) == Some(sel[i].1 as int),
    decreases groups.len() - j,
{
    if j < groups.len() {
        lemma_choice_list_single(state, groups, j, sel, 0);
        let after = set_group_spec(
            state,
            groups[j].start_bit as int,
            groups[j].variants@.len() as int,
            sel[j].1 as int,
        );
        lemma_fold_fields(after, groups, j + 1, sel);
        // group j's own field survives the later passes and decodes back
        let other: int = if j + 1 < groups.len() {
            j + 1
        } else if j > 0 {
            j - 1
        } else {
            j
        };
        if groups.len() >= 2 {
            lemma_group_round_trip(
                state,
                groups[j].start_bit as int,
                groups[j].variants@.len() as int,
                sel[j].1 as int,
                groups[other].start_bit as int,
                groups[other].variants@.len() as int,
            );
        } else {
            lemma_group_round_trip(
                state,
                groups[j].start_bit as int,
                groups[j].variants@.len() as int,
                sel[j].1 as int,
                groups[j].start_bit as int,
                groups[j].variants@.len() as int,
            );
        }
        lemma_fold_preserves(after, groups, j + 1, sel, j);
    }
}

/// The whole-descriptor law: over a well-formed, non-overlapping
/// descriptor, writing one choice per group and reading the selections
/// back reports exactly those choices, whatever bits the word held
/// before.
pub proof fn lemma_descriptor_round_trip(state: u32, groups: Seq<LayoutGroup>, sel: Seq<(u8, u8)>)
    requires
        descriptor_wf(groups),
        selection_wf(groups, sel),
    ensures
        via_options_spec(apply_choices_spec(state, groups, 0, sel), groups, 0) == sel,
{
    let fin = apply_choices_spec(state, groups, 0, sel);
    lemma_fold_fields(state, groups, 0, sel);
    lemma_via_options_matches(fin, groups, sel, 0);
    assert(via_options_spec(fin, groups, 0) =~= sel.subrange(0, sel.len() as int));
    assert(sel.subrange(0, sel.len() as int) =~= sel);
}

/// When every group's field decodes to its chosen variant, the selection
/// read-out from position `i` is the selection's tail.
proof fn lemma_via_options_matches(
    fin: u32,
    groups: Seq<LayoutGroup>,
    sel: Seq<(u8, u8)>,
    i: int,
)
    requires
        descriptor_wf(groups),
        selection_wf(groups, sel),
        0 <= i <= groups.len(),
        forall|k: int|
            0 <= k < groups.len() ==> sel_of_field(
                group_field(
                    fin,
                    (#[trigger] groups[k]).start_bit as int,
                    groups[k].variants@.len() as int,
                ),
                0,
                groups[k].variants@.len() as int,
            ) == Some(sel[k].1 as int),
    ensures
        via_options_spec(fin, groups, i) =~= sel.subrange(i, sel.len() as int),
    decreases groups.len() - i,
{
    if i < groups.len() {
        lemma_via_options_matches(fin, groups, sel, i + 1);
        assert(sel[i] == ((i % 256) as u8, (sel[i].1 as int % 256) as u8)) by {
            assert(sel[i].0 == (i % 256) as u8);
            assert(sel[i].1 as int % 256 == sel[i].1 as int);
        }
        assert(via_options_spec(fin, groups, i) == seq![
            ((i % 256) as u8, (sel[i].1 as int % 256) as u8),
        ] + via_options_spec(fin, groups, i + 1));
        assert(sel.subrange(i, sel.len() as int) =~= seq![sel[i]] + sel.subrange(
            i + 1,
            sel.len() as int,
        ));
    }
}

} // verus!
