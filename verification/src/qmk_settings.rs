//! QMK settings: width-tagged numeric values keyed by qsid, the paginated
//! presence scan, and the JSON form of a settings map.
use vstd::prelude::*;
use vstd::string::StrSliceExecFns;
use vstd::string::StringExecFns;
use crate::json::JsonValue;
use crate::protocol;
use crate::protocol::ProtocolError;
use crate::strutil::dec_string;
use crate::strutil::dec_str_spec;
use crate::strutil::parse_u16;
use crate::strutil::parse_u16_spec;

verus! {

/// One setting's value, as wide as the catalog says it is.
#[derive(Debug, Clone, Copy, PartialEq, Eq, Structural)]
pub struct QmkValue {
    pub value: u32,
}

impl QmkValue {
    /// The whole numeric value.
    pub fn get(&self) -> (r: u32)
        ensures
            r == self.value,
    {
        self.value
    }

    /// One bit of the value, for boolean settings packed into a wider
    /// field.
    pub fn get_bool(&self, bit: u8) -> (r: bool)
        requires
            bit < 32,
        ensures
            r == (self.value & (1u32 << (bit as u32)) != 0),
    {
        self.value & (1u32 << (bit as u32)) != 0
    }
}

/// A settings map: qsid keys strictly ascending, so each key is unique.
#[derive(Debug)]
pub struct QmkSettings {
    pub entries: Vec<(u16, QmkValue)>,
}

/// Keys strictly ascending.
pub open spec fn qmk_sorted(entries: Seq<(u16, QmkValue)>) -> bool {
    forall|i: int, j: int| 0 <= i < j < entries.len() ==> (#[trigger] entries[i]).0 < (
    #[trigger] entries[j]).0
}

/// The value stored under a qsid: the first entry bearing it, which in a
/// sorted map is the only one.
pub open spec fn qmk_lookup(entries: Seq<(u16, QmkValue)>, q: u16) -> Option<QmkValue>
    decreases entries.len(),
{
    if entries.len() == 0 {
        None
    } else if entries[0].0 == q {
        Some(entries[0].1)
    } else {
        qmk_lookup(entries.drop_first(), q)
    }
}

/// Looking up from the whole map is looking up from any clear prefix.
proof fn lemma_qmk_lookup_prefix(entries: Seq<(u16, QmkValue)>, q: u16, i: int)
    requires
        0 <= i <= entries.len(),
    ensures
        i == 0 ==> qmk_lookup(entries, q) == qmk_lookup(
            entries.subrange(i, entries.len() as int),
            q,
        ),
{
    if i == 0 {
        assert(entries.subrange(0, entries.len() as int) =~= entries);
    }
}

/// In a sorted map, looking a qsid up finds a value exactly when the map
/// holds that pair.
pub proof fn lemma_qmk_lookup_iff(entries: Seq<(u16, QmkValue)>, q: u16, v: QmkValue)
    requires
        qmk_sorted(entries),
    ensures
        qmk_lookup(entries, q) == Some(v) <==> exists|i: int|
            0 <= i < entries.len() && #[trigger] entries[i] == (q, v),
        qmk_lookup(entries, q) is None <==> forall|i: int|
            0 <= i < entries.len() ==> (#[trigger] entries[i]).0 != q,
    decreases entries.len(),
{
    if entries.len() == 0 {
    } else {
        let tail = entries.drop_first();
        assert(qmk_sorted(tail)) by {
            assert(forall|a: int, b: int|
                0 <= a < b < tail.len() ==> tail[a] == entries[a + 1] && tail[b] == entries[b
                    + 1]);
        }
        lemma_qmk_lookup_iff(tail, q, v);
        assert(forall|i: int| 1 <= i < entries.len() ==> #[trigger] entries[i] == tail[i - 1]);
        if entries[0].0 == q {
            // later keys are strictly larger, so index 0 is the only match
            assert(forall|i: int| 1 <= i < entries.len() ==> (#[trigger] entries[i]).0 != q);
        }
    }
}

impl QmkSettings {
    /// An empty map.
    pub fn new() -> (r: QmkSettings)
        ensures
            r.entries@.len() == 0,
            qmk_sorted(r.entries@),
    {
        QmkSettings { entries: Vec::new() }
    }

    /// How many settings the map holds.
    pub fn len(&self) -> (r: usize)
        ensures
            r == self.entries@.len(),
    {
        self.entries.len()
    }

    /// Whether the map holds no settings.
    pub fn is_empty(&self) -> (r: bool)
        ensures
            r == (self.entries@.len() == 0),
    {
        self.entries.len() == 0
    }

    /// The value stored under a qsid, if any.
    pub fn get(&self, qsid: u16) -> (r: Option<QmkValue>)
        ensures
            r == qmk_lookup(self.entries@, qsid),
            match r {
                Some(v) => exists|i: int|
                    0 <= i < self.entries@.len() && self.entries@[i] == (qsid, v),
                None => forall|i: int|
                    0 <= i < self.entries@.len() ==> (#[trigger] self.entries@[i]).0 != qsid,
            },
    {
        proof {
            lemma_qmk_lookup_prefix(self.entries@, qsid, 0);
        }
        let n = self.entries.len();
        let mut i: usize = 0;
        while i < n
            invariant
                n == self.entries@.len(),
                i <= n,
                forall|k: int| 0 <= k < i ==> (#[trigger] self.entries@[k]).0 != qsid,
                qmk_lookup(self.entries@, qsid) == qmk_lookup(
                    self.entries@.subrange(i as int, n as int),
                    qsid,
                ),
            decreases n - i,
        {
            let ghost tail = self.entries@.subrange(i as int, n as int);
            assert(tail[0] == self.entries@[i as int]);
            assert(tail.drop_first() =~= self.entries@.subrange(i + 1, n as int));
            if self.entries[i].0 == qsid {
                return Some(self.entries[i].1);
            }
            i = i + 1;
        }
        proof {
            assert(self.entries@.subrange(n as int, n as int) =~= Seq::<(u16, QmkValue)>::empty());
        }
        None
    }

    /// Stores a value under a qsid, replacing any previous value and
    /// keeping the keys sorted: the stored qsid reads back as the new
    /// value, and every other qsid keeps its old one.
    pub fn put(&mut self, qsid: u16, value: QmkValue)
        requires
            qmk_sorted(old(self).entries@),
        ensures
            qmk_sorted(final(self).entries@),
            qmk_lookup(final(self).entries@, qsid) == Some(value),
            forall|q: u16|
                q != qsid ==> #[trigger] qmk_lookup(final(self).entries@, q) == qmk_lookup(
                    old(self).entries@,
                    q,
                ),
    {
        let n = self.entries.len();
        let mut i: usize = 0;
        while i < n
            invariant
                n == self.entries@.len(),
                i <= n,
                self.entries@ == old(self).entries@,
                qmk_sorted(self.entries@),
                forall|k: int| 0 <= k < i ==> (#[trigger] self.entries@[k]).0 < qsid,
            decreases n - i,
        {
            if self.entries[i].0 == qsid {
                let ghost pre = self.entries@;
                self.entries.set(i, (qsid, value));
                proof {
                    let sq = self.entries@;
                    assert(sq[i as int] == (qsid, value));
                    assert forall|a: int, b: int| 0 <= a < b < sq.len() implies (
                    #[trigger] sq[a]).0 < (#[trigger] sq[b]).0 by {
                        assert(pre[a].0 < pre[b].0);
                        if a != i {
                            assert(sq[a] == pre[a]);
                        }
                        if b != i {
                            assert(sq[b] == pre[b]);
                        }
                        assert(sq[i as int].0 == pre[i as int].0);
                    }
                    lemma_qmk_lookup_iff(sq, qsid, value);
                    assert(qmk_lookup(sq, qsid) == Some(value));
                    assert forall|q: u16| q != qsid implies #[trigger] qmk_lookup(sq, q)
                        == qmk_lookup(pre, q) by {
                        match qmk_lookup(pre, q) {
                            Some(v) => {
                                lemma_qmk_lookup_iff(pre, q, v);
                                let i0 = choose|i0: int|
                                    0 <= i0 < pre.len() && #[trigger] pre[i0] == (q, v);
                                assert(sq[i0] == (q, v));
                                lemma_qmk_lookup_iff(sq, q, v);
                            },
                            None => {
                                lemma_qmk_lookup_iff(pre, q, value);
                                assert(forall|a: int|
                                    0 <= a < sq.len() ==> (#[trigger] sq[a]).0 != q);
                                lemma_qmk_lookup_iff(sq, q, value);
                            },
                        }
                    }
                }
                return ;
            }
            if self.entries[i].0 > qsid {
                let ghost pre = self.entries@;
                self.entries.insert(i, (qsid, value));
                proof {
                    let sq = self.entries@;
                    assert(sq[i as int] == (qsid, value));
                    assert forall|a: int, b: int| 0 <= a < b < sq.len() implies (
                    #[trigger] sq[a]).0 < (#[trigger] sq[b]).0 by {
                        if a < i && b < i {
                            assert(sq[a] == pre[a]);
                            assert(sq[b] == pre[b]);
                        } else if a < i && b == i {
                            assert(sq[a] == pre[a]);
                            assert(pre[a].0 < qsid);
                        } else if a < i && b > i {
                            assert(sq[a] == pre[a]);
                            assert(sq[b] == pre[b - 1]);
                            assert(pre[a].0 < pre[b - 1].0 || a == b - 1);
                            assert(pre[a].0 < qsid);
                            assert(qsid < pre[i as int].0);
                            assert(pre[i as int].0 <= pre[b - 1].0);
                        } else if a == i {
                            assert(sq[b] == pre[b - 1]);
                            assert(qsid < pre[i as int].0);
                            assert(pre[i as int].0 <= pre[b - 1].0);
                        } else {
                            assert(sq[a] == pre[a - 1]);
                            assert(sq[b] == pre[b - 1]);
                            assert(pre[a - 1].0 < pre[b - 1].0);
                        }
                    }
                    lemma_qmk_lookup_iff(sq, qsid, value);
                    assert(qmk_lookup(sq, qsid) == Some(value));
                    assert forall|q: u16| q != qsid implies #[trigger] qmk_lookup(sq, q)
                        == qmk_lookup(pre, q) by {
                        match qmk_lookup(pre, q) {
                            Some(v) => {
                                lemma_qmk_lookup_iff(pre, q, v);
                                let i0 = choose|i0: int|
                                    0 <= i0 < pre.len() && #[trigger] pre[i0] == (q, v);
                                assert(sq[if i0 < i { i0 } else { i0 + 1 }] == (q, v));
                                lemma_qmk_lookup_iff(sq, q, v);
                            },
                            None => {
                                lemma_qmk_lookup_iff(pre, q, value);
                                assert(forall|a: int|
                                    0 <= a < sq.len() ==> (#[trigger] sq[a]).0 != q);
                                lemma_qmk_lookup_iff(sq, q, value);
                            },
                        }
                    }
                }
                return ;
            }
            i = i + 1;
        }
        let ghost pre = self.entries@;
        self.entries.push((qsid, value));
        proof {
            let sq = self.entries@;
            assert(sq[sq.len() - 1] == (qsid, value));
            assert forall|a: int, b: int| 0 <= a < b < sq.len() implies (#[trigger] sq[a]).0 < (
            #[trigger] sq[b]).0 by {
                if b < sq.len() - 1 {
                    assert(sq[a] == pre[a]);
                    assert(sq[b] == pre[b]);
                } else {
                    assert(sq[a] == pre[a]);
                    assert(pre[a].0 < qsid);
                }
            }
                    lemma_qmk_lookup_iff(sq, qsid, value);
                    assert(qmk_lookup(sq, qsid) == Some(value));
                    assert forall|q: u16| q != qsid implies #[trigger] qmk_lookup(sq, q)
                        == qmk_lookup(pre, q) by {
                        match qmk_lookup(pre, q) {
                            Some(v) => {
                                lemma_qmk_lookup_iff(pre, q, v);
                                let i0 = choose|i0: int|
                                    0 <= i0 < pre.len() && #[trigger] pre[i0] == (q, v);
                                assert(sq[i0] == (q, v));
                                lemma_qmk_lookup_iff(sq, q, v);
                            },
                            None => {
                                lemma_qmk_lookup_iff(pre, q, value);
                                assert(forall|a: int|
                                    0 <= a < sq.len() ==> (#[trigger] sq[a]).0 != q);
                                lemma_qmk_lookup_iff(sq, q, value);
                            },
                        }
                    }
        }
    }
}

/// The request that reads one page of present qsids from a cursor, low
/// byte first.
pub fn qsids_query_request(cur: u16) -> (r: Vec<u8>)
    ensures
        r@ =~= seq![
            protocol::CMD_VIA_VIAL_PREFIX,
            protocol::CMD_VIAL_QMK_SETTINGS_QUERY,
            (cur & 0xFF) as u8,
            ((cur >> 8) & 0xFF) as u8,
        ],
{
    let mut v: Vec<u8> = Vec::new();
    v.push(protocol::CMD_VIA_VIAL_PREFIX);
    v.push(protocol::CMD_VIAL_QMK_SETTINGS_QUERY);
    v.push((cur & 0xFF) as u8);
    v.push(((cur >> 8) & 0xFF) as u8);
    v
}

/// One u16 of a qsid page, low byte first.
pub open spec fn page_qsid(data: Seq<u8>, i: int) -> u16 {
    ((data[2 * i] as u16) | (((data[2 * i + 1] as u16) << 8) as u16)) as u16
}

/// The cursor after one page: the maximum of the cursor and every qsid
/// delivered up to and including the terminal sentinel, as the observed
/// wire convention advances it.
pub open spec fn page_cursor_spec(data: Seq<u8>, cur: u16, i: int) -> u16
    decreases 16 - i,
{
    if i < 0 || i >= 16 {
        cur
    } else {
        let q = page_qsid(data, i);
        let c2: u16 = if q > cur {
            q
        } else {
            cur
        };
        if q == 0xFFFF {
            c2
        } else {
            page_cursor_spec(data, c2, i + 1)
        }
    }
}

/// Reads one page of the presence scan: up to sixteen qsids, stopping at
/// the `0xFFFF` sentinel; the cursor advances to the highest value seen
/// in the page, the sentinel slot included, and the scan is done once the
/// sentinel appears.
pub fn qsids_page_from_response(data: &[u8], cur: u16) -> (r: (Vec<u16>, u16, bool))
    requires
        data@.len() >= 32,
    ensures
        r.1 == page_cursor_spec(data@, cur, 0),
        r.0@.len() <= 16,
        forall|k: int| 0 <= k < r.0@.len() ==> #[trigger] r.0@[k] != 0xFFFFu16,
        forall|k: int| 0 <= k < r.0@.len() ==> #[trigger] r.0@[k] == page_qsid(data@, k),
        !r.2 ==> r.0@.len() == 16,
        r.2 ==> (exists|k: int|
            0 <= k < 16 && page_qsid(data@, k) == 0xFFFFu16 && r.0@.len() == k),
{
    let mut qsids: Vec<u16> = Vec::new();
    let mut c = cur;
    let mut i: usize = 0;
    while i < 16
        invariant
            data@.len() >= 32,
            i <= 16,
            qsids@.len() == i,
            page_cursor_spec(data@, cur, 0) == page_cursor_spec(data@, c, i as int),
            forall|k: int| 0 <= k < i ==> #[trigger] qsids@[k] != 0xFFFFu16,
            forall|k: int| 0 <= k < i ==> #[trigger] qsids@[k] == page_qsid(data@, k),
        decreases 16 - i,
    {
        let qsid: u16 = (data[i * 2] as u16) | ((data[i * 2 + 1] as u16) << 8);
        assert(qsid == page_qsid(data@, i as int));
        if qsid > c {
            c = qsid;
        }
        if qsid == 0xFFFF {
            return (qsids, c, true);
        }
        qsids.push(qsid);
        i = i + 1;
    }
    (qsids, c, false)
}

/// The request that reads one setting's raw value.
pub fn qmk_get_request(qsid: u16) -> (r: Vec<u8>)
    ensures
        r@ =~= seq![
            protocol::CMD_VIA_VIAL_PREFIX,
            protocol::CMD_VIAL_QMK_SETTINGS_GET,
            (qsid & 0xFF) as u8,
            ((qsid >> 8) & 0xFF) as u8,
        ],
{
    let mut v: Vec<u8> = Vec::new();
    v.push(protocol::CMD_VIA_VIAL_PREFIX);
    v.push(protocol::CMD_VIAL_QMK_SETTINGS_GET);
    v.push((qsid & 0xFF) as u8);
    v.push(((qsid >> 8) & 0xFF) as u8);
    v
}

/// Reads a get reply: a leading nonzero byte means the setting is
/// unhandled; otherwise the value follows little-endian in the requested
/// width, any other width reading one byte.
pub fn qmk_value_from_response(data: &[u8], width: u8) -> (r: Result<QmkValue, ProtocolError>)
    requires
        data@.len() >= 5,
    ensures
        r is Ok <==> data@[0] == 0u8,
        r is Ok ==> r.unwrap().value == (if width == 2 {
            ((data@[1] as u32) | ((data@[2] as u32) << 8)) as u32
        } else if width == 4 {
            ((data@[1] as u32) | ((data@[2] as u32) << 8) | ((data@[3] as u32) << 16) | ((
            data@[4] as u32) << 24)) as u32
        } else {
            data@[1] as u32
        }),
{
    if data[0] != 0 {
        return Err(ProtocolError::ViaUnhandledError);
    }
    let value: u32 = if width == 2 {
        (data[1] as u32) | ((data[2] as u32) << 8)
    } else if width == 4 {
        (data[1] as u32) | ((data[2] as u32) << 8) | ((data[3] as u32) << 16) | ((data[4] as u32)
            << 24)
    } else {
        data[1] as u32
    };
    Ok(QmkValue { value })
}

/// The request that writes one setting, always as a 4-byte value, low
/// byte first.
pub fn qmk_set_request(qsid: u16, value: u32) -> (r: Vec<u8>)
    ensures
        r@ =~= seq![
            protocol::CMD_VIA_VIAL_PREFIX,
            protocol::CMD_VIAL_QMK_SETTINGS_SET,
            (qsid & 0xFF) as u8,
            ((qsid >> 8) & 0xFF) as u8,
            (value & 0xFF) as u8,
            ((value >> 8) & 0xFF) as u8,
            ((value >> 16) & 0xFF) as u8,
            ((value >> 24) & 0xFF) as u8,
        ],
{
    let mut v: Vec<u8> = Vec::new();
    v.push(protocol::CMD_VIA_VIAL_PREFIX);
    v.push(protocol::CMD_VIAL_QMK_SETTINGS_SET);
    v.push((qsid & 0xFF) as u8);
    v.push(((qsid >> 8) & 0xFF) as u8);
    v.push((value & 0xFF) as u8);
    v.push(((value >> 8) & 0xFF) as u8);
    v.push(((value >> 16) & 0xFF) as u8);
    v.push(((value >> 24) & 0xFF) as u8);
    v
}

/// The fire-and-forget request that restores every setting to its
/// default.
pub fn qmk_reset_request() -> (r: Vec<u8>)
    ensures
        r@ =~= seq![protocol::CMD_VIA_VIAL_PREFIX, protocol::CMD_VIAL_QMK_SETTINGS_RESET],
{
    let mut v: Vec<u8> = Vec::new();
    v.push(protocol::CMD_VIA_VIAL_PREFIX);
    v.push(protocol::CMD_VIAL_QMK_SETTINGS_RESET);
    v
}

/// The (qsid, value) pair one JSON member names: a decimal u16 key and a
/// number that fits 32 bits; anything else names nothing.
pub open spec fn member_setting(kv: (String, JsonValue)) -> Option<(u16, u32)> {
    if !vstd::utf8::is_ascii_chars(kv.0@) {
        None
    } else {
        match parse_u16_spec(kv.0@) {
            None => None,
            Some(q) => match kv.1 {
                JsonValue::UInt(v) => if v <= 0xFFFFFFFF {
                    Some((q, v as u32))
                } else {
                    None
                },
                _ => None,
            },
        }
    }
}

/// The value the first `i` JSON members leave under a qsid: the last
/// member naming it wins.
pub open spec fn json_setting(members: Seq<(String, JsonValue)>, i: int, q: u16) -> Option<u32>
    decreases i,
{
    if i <= 0 || i > members.len() {
        None
    } else {
        match member_setting(members[i - 1]) {
            Some((q2, v)) => if q2 == q {
                Some(v)
            } else {
                json_setting(members, i - 1, q)
            },
            None => json_setting(members, i - 1, q),
        }
    }
}

/// The raw value stored under a qsid, if any.
pub open spec fn lookup_val(entries: Seq<(u16, QmkValue)>, q: u16) -> Option<u32> {
    match qmk_lookup(entries, q) {
        Some(v) => Some(v.value),
        None => None,
    }
}

/// Parses a JSON object whose keys are decimal qsids and whose values are
/// numbers into a settings map; a repeated key keeps the last value.
pub fn load_qmk_settings_from_json(settings_json: &JsonValue) -> (r: Result<
    QmkSettings,
    ProtocolError,
>)
    ensures
        r is Ok <==> (settings_json matches JsonValue::Obj(members) && (forall|i: int|
            0 <= i < members@.len() ==> member_setting(#[trigger] members@[i]) is Some)),
        r is Ok ==> (settings_json matches JsonValue::Obj(members) && qmk_sorted(
            r.unwrap().entries@,
        ) && (forall|q: u16|
            #[trigger] lookup_val(r.unwrap().entries@, q) == json_setting(
                members@,
                members@.len() as int,
                q,
            ))),
{
    let members = match settings_json.as_object() {
        Some(v) => v,
        None => {
            return Err(
                ProtocolError::GeneralError(String::from_str("Settings should be an object")),
            );
        },
    };
    let n = members.len();
    let mut out = QmkSettings::new();
    let mut i: usize = 0;
    proof {
        assert forall|q: u16| #[trigger] lookup_val(out.entries@, q) == json_setting(
            members@,
            0,
            q,
        ) by {
            lemma_qmk_lookup_iff(out.entries@, q, QmkValue { value: 0 });
        }
    }
    while i < n
        invariant
            n == members@.len(),
            i <= n,
            qmk_sorted(out.entries@),
            *settings_json == JsonValue::Obj(*members),
            forall|k: int| 0 <= k < i ==> member_setting(#[trigger] members@[k]) is Some,
            forall|q: u16|
                #[trigger] lookup_val(out.entries@, q) == json_setting(members@, i as int, q),
        decreases n - i,
    {
        let key = &members[i].0;
        if !key.as_str().is_ascii() {
            return Err(
                ProtocolError::GeneralError(String::from_str("qsid key should be a number")),
            );
        }
        let qsid = match parse_u16(key.as_str()) {
            Some(q) => q,
            None => {
                return Err(
                    ProtocolError::GeneralError(String::from_str("qsid key should be a number")),
                );
            },
        };
        let value = match members[i].1.as_u64() {
            Some(v) => v,
            None => {
                return Err(ProtocolError::GeneralError(String::from_str("value shoudld be u32")));
            },
        };
        if value > 0xFFFFFFFF {
            return Err(ProtocolError::GeneralError(String::from_str("value shoudld be u32")));
        }
        let ghost pre = out.entries@;
        out.put(qsid, QmkValue { value: value as u32 });
        proof {
            assert(member_setting(members@[i as int]) == Some((qsid, value as u32)));
            assert forall|q: u16| #[trigger] lookup_val(out.entries@, q) == json_setting(
                members@,
                i + 1,
                q,
            ) by {
                if q == qsid {
                    assert(qmk_lookup(out.entries@, q) == Some(QmkValue { value: value as u32 }));
                } else {
                    assert(qmk_lookup(out.entries@, q) == qmk_lookup(pre, q));
                    assert(lookup_val(pre, q) == json_setting(members@, i as int, q));
                }
            }
        }
        i = i + 1;
    }
    Ok(out)
}

/// Renders a settings map as a JSON object, keys in ascending qsid order
/// as decimal strings.
pub fn qmk_settings_to_json(values: &QmkSettings) -> (r: Result<JsonValue, ProtocolError>)
    ensures
        r is Ok,
        r.unwrap() matches JsonValue::Obj(members) ==> members@.len() == values.entries@.len(),
        r.unwrap() is Obj,
        forall|i: int|
            0 <= i < values.entries@.len() ==> (#[trigger] r.unwrap()->Obj_0@[i]).0@ == dec_str_spec(
                (values.entries@[i]).0 as int,
            ) && r.unwrap()->Obj_0@[i].1 == JsonValue::UInt((values.entries@[i]).1.value as u64),
{
    let n = values.entries.len();
    let mut members: Vec<(String, JsonValue)> = Vec::new();
    let mut i: usize = 0;
    while i < n
        invariant
            n == values.entries@.len(),
            i <= n,
            members@.len() == i,
            forall|k: int|
                0 <= k < i ==> (#[trigger] members@[k]).0@ == dec_str_spec(
                    (values.entries@[k]).0 as int,
                ) && members@[k].1 == JsonValue::UInt((values.entries@[k]).1.value as u64),
        decreases n - i,
    {
        let key = dec_string(values.entries[i].0);
        members.push((key, JsonValue::UInt(values.entries[i].1.value as u64)));
        i = i + 1;
    }
    Ok(JsonValue::Obj(members))
}

} // verus!
