//! Event records produced by the kernel-side BPF programs, and their decoding
//! from the raw bytes that the ring buffers hand out.
//!
//! The kernel side writes C structures (`struct sigwait_event`,
//! `struct schedstat_event`); the fields are laid out in declaration order with
//! the C alignment rules and stored little-endian.

use vstd::prelude::*;

verus! {

/// Size in bytes of the C `struct sigwait_event`
/// (4 + 4 + 8 + 1 bytes of fields, padded to the 8-byte alignment).
pub const SIGWAIT_EVENT_SIZE: usize = 24;

/// Size in bytes of the C `struct schedstat_event` (4 + 4 + 8 + 8 + 8 bytes).
pub const SCHEDSTAT_EVENT_SIZE: usize = 32;

/// The unsigned value of the four bytes of `b` at `off`, little-endian.
pub open spec fn le_u32_at(b: Seq<u8>, off: int) -> u32 {
    (b[off] + 0x100 * b[off + 1] + 0x1_0000 * b[off + 2] + 0x100_0000 * b[off + 3]) as u32
}

/// The unsigned value of the eight bytes of `b` at `off`, little-endian.
pub open spec fn le_u64_at(b: Seq<u8>, off: int) -> u64 {
    (le_u32_at(b, off) + 0x1_0000_0000 * le_u32_at(b, off + 4)) as u64
}

/// The signed value of the four bytes of `b` at `off`, little-endian
/// two's complement.
pub open spec fn le_i32_at(b: Seq<u8>, off: int) -> i32 {
    le_u32_at(b, off) as i32
}

/// Reads four bytes little-endian.
fn read_u32_le(data: &[u8], off: usize) -> (v: u32)
    requires
        off + 4 <= data.len(),
    ensures
        v == le_u32_at(data@, off as int),
{
    let b0 = data[off] as u32;
    let b1 = data[off + 1] as u32;
    let b2 = data[off + 2] as u32;
    let b3 = data[off + 3] as u32;
    b0 + 0x100 * b1 + 0x1_0000 * b2 + 0x100_0000 * b3
}

/// Reads eight bytes little-endian.
fn read_u64_le(data: &[u8], off: usize) -> (v: u64)
    requires
        off + 8 <= data.len(),
    ensures
        v == le_u64_at(data@, off as int),
{
    let lo = read_u32_le(data, off) as u64;
    let hi = read_u32_le(data, off + 4) as u64;
    lo + 0x1_0000_0000 * hi
}

/// Sigwait event from BPF (the C `struct sigwait_event`).
#[derive(Debug, Clone, Copy)]
pub struct SigwaitEvent {
    pub pid: i32,
    pub tgid: i32,
    pub timestamp: u64,
    /// 1 when the task entered `sigwait`, 0 when it left it.
    pub enter: u8,
}

/// Schedstat event from BPF (the C `struct schedstat_event`).
#[derive(Debug, Clone, Copy)]
pub struct SchedstatEvent {
    pub pid: i32,
    pub cpu: i32,
    pub ts_wakeup: u64,
    pub ts_start: u64,
    pub ts_stop: u64,
}

/// What `SigwaitEvent::from_bytes` makes of `b`: nothing when `b` is shorter
/// than the C structure, else the fields read at their C offsets
/// (pid at 0, tgid at 4, timestamp at 8, enter at 16). Bytes past the
/// structure are ignored.
pub open spec fn parse_sigwait(b: Seq<u8>) -> Option<SigwaitEvent> {
    if b.len() < SIGWAIT_EVENT_SIZE {
        None
    } else {
        Some(
            SigwaitEvent {
                pid: le_i32_at(b, 0),
                tgid: le_i32_at(b, 4),
                timestamp: le_u64_at(b, 8),
                enter: b[16],
            },
        )
    }
}

/// What `SchedstatEvent::from_bytes` makes of `b`: nothing when `b` is shorter
/// than the C structure, else the fields read at their C offsets
/// (pid at 0, cpu at 4, ts_wakeup at 8, ts_start at 16, ts_stop at 24).
pub open spec fn parse_schedstat(b: Seq<u8>) -> Option<SchedstatEvent> {
    if b.len() < SCHEDSTAT_EVENT_SIZE {
        None
    } else {
        Some(
            SchedstatEvent {
                pid: le_i32_at(b, 0),
                cpu: le_i32_at(b, 4),
                ts_wakeup: le_u64_at(b, 8),
                ts_start: le_u64_at(b, 16),
                ts_stop: le_u64_at(b, 24),
            },
        )
    }
}

/// What a monitoring client runs on each sigwait event.
pub type SigwaitCallback = std::sync::Arc<dyn Fn(SigwaitEvent) + Send + Sync>;

/// What a monitoring client runs on each schedstat event.
pub type SchedstatCallback = std::sync::Arc<dyn Fn(SchedstatEvent) + Send + Sync>;

impl SigwaitEvent {
    /// Parse event from raw bytes.
    pub fn from_bytes(data: &[u8]) -> (r: Option<Self>)
        ensures
            r == parse_sigwait(data@),
    {
        if data.len() < SIGWAIT_EVENT_SIZE {
            return None;
        }
        let pid = read_u32_le(data, 0) as i32;
        let tgid = read_u32_le(data, 4) as i32;
        let timestamp = read_u64_le(data, 8);
        let enter = data[16];
        Some(SigwaitEvent { pid, tgid, timestamp, enter })
    }
}

impl SchedstatEvent {
    /// Parse event from raw bytes.
    pub fn from_bytes(data: &[u8]) -> (r: Option<Self>)
        ensures
            r == parse_schedstat(data@),
    {
        if data.len() < SCHEDSTAT_EVENT_SIZE {
            return None;
        }
        let pid = read_u32_le(data, 0) as i32;
        let cpu = read_u32_le(data, 4) as i32;
        let ts_wakeup = read_u64_le(data, 8);
        let ts_start = read_u64_le(data, 16);
        let ts_stop = read_u64_le(data, 24);
        Some(SchedstatEvent { pid, cpu, ts_wakeup, ts_start, ts_stop })
    }
}

/// The four bytes of `x`, least significant first.
pub open spec fn u32_le_bytes(x: u32) -> Seq<u8> {
    seq![
        (x & 0xff) as u8,
        ((x >> 8) & 0xff) as u8,
        ((x >> 16) & 0xff) as u8,
        ((x >> 24) & 0xff) as u8,
    ]
}

/// The eight bytes of `x`, least significant first.
pub open spec fn u64_le_bytes(x: u64) -> Seq<u8> {
    u32_le_bytes((x & 0xffff_ffff) as u32) + u32_le_bytes((x >> 32) as u32)
}

/// The bytes that the kernel writes for the fields of a sigwait event, in
/// C declaration order (17 bytes; the structure's tail padding follows).
pub open spec fn sigwait_fields_bytes(e: SigwaitEvent) -> Seq<u8> {
    u32_le_bytes(e.pid as u32) + u32_le_bytes(e.tgid as u32) + u64_le_bytes(e.timestamp) + seq![
        e.enter,
    ]
}

/// The bytes that the kernel writes for a schedstat event (32 bytes, no padding).
pub open spec fn schedstat_fields_bytes(e: SchedstatEvent) -> Seq<u8> {
    u32_le_bytes(e.pid as u32) + u32_le_bytes(e.cpu as u32) + u64_le_bytes(e.ts_wakeup)
        + u64_le_bytes(e.ts_start) + u64_le_bytes(e.ts_stop)
}

proof fn lemma_u32_le_bytes_value(x: u32)
    ensures
        le_u32_at(u32_le_bytes(x), 0) == x,
{
    let b = u32_le_bytes(x);
    assert(((x & 0xff) as u8) + 0x100 * (((x >> 8) & 0xff) as u8) + 0x1_0000 * (((x >> 16)
        & 0xff) as u8) + 0x100_0000 * (((x >> 24) & 0xff) as u8) == x) by (bit_vector);
}

proof fn lemma_u64_le_bytes_value(x: u64)
    ensures
        le_u64_at(u64_le_bytes(x), 0) == x,
{
    let lo = (x & 0xffff_ffff) as u32;
    let hi = (x >> 32) as u32;
    lemma_u32_le_bytes_value(lo);
    lemma_u32_le_bytes_value(hi);
    let b = u64_le_bytes(x);
    assert(le_u32_at(b, 0) == le_u32_at(u32_le_bytes(lo), 0));
    assert(le_u32_at(b, 4) == le_u32_at(u32_le_bytes(hi), 0));
    assert(((x & 0xffff_ffff) as u32) + 0x1_0000_0000 * ((x >> 32) as u32) == x) by (bit_vector);
}

proof fn lemma_i32_as_u32_roundtrip(x: i32)
    ensures
        (x as u32) as i32 == x,
{
    assert((x as u32) as i32 == x) by (bit_vector);
}

/// Reading a little-endian word out of a longer sequence only looks at the
/// bytes of that word.
proof fn lemma_le_at_concat(p: Seq<u8>, q: Seq<u8>)
    requires
        p.len() >= 8,
    ensures
        le_u32_at(p + q, 0) == le_u32_at(p, 0),
        le_u64_at(p + q, 0) == le_u64_at(p, 0),
        q.len() >= 4 ==> le_u32_at(p + q, p.len() as int) == le_u32_at(q, 0),
        q.len() >= 8 ==> le_u64_at(p + q, p.len() as int) == le_u64_at(q, 0),
{
    let n = p.len() as int;
    if q.len() >= 8 {
        assert(le_u32_at(p + q, n + 4) == le_u32_at(q, 4));
    }
}

/// The same for a four-byte prefix.
proof fn lemma_le_at_concat4(p: Seq<u8>, q: Seq<u8>)
    requires
        p.len() == 4,
    ensures
        le_u32_at(p + q, 0) == le_u32_at(p, 0),
        q.len() >= 4 ==> le_u32_at(p + q, 4) == le_u32_at(q, 0),
        q.len() >= 8 ==> le_u64_at(p + q, 4) == le_u64_at(q, 0),
{
    if q.len() >= 8 {
        assert(le_u32_at(p + q, 8) == le_u32_at(q, 4));
    }
}

/// The decoding matches the C layout: whatever padding or trailing bytes
/// follow the fields, parsing the bytes that the kernel writes for a sigwait
/// event gives that event back.
pub proof fn lemma_sigwait_layout_roundtrip(e: SigwaitEvent, padding: Seq<u8>)
    requires
        17 + padding.len() >= SIGWAIT_EVENT_SIZE,
    ensures
        parse_sigwait(sigwait_fields_bytes(e) + padding) == Some(e),
{
    let a = u32_le_bytes(e.pid as u32);
    let b = u32_le_bytes(e.tgid as u32);
    let c = u64_le_bytes(e.timestamp);
    let d = seq![e.enter];
    let r3 = d + padding;
    let r2 = c + r3;
    let r1 = b + r2;
    let whole = sigwait_fields_bytes(e) + padding;
    assert(whole =~= a + r1);
    assert(whole =~= (a + b) + r2);
    lemma_u32_le_bytes_value(e.pid as u32);
    lemma_u32_le_bytes_value(e.tgid as u32);
    lemma_u64_le_bytes_value(e.timestamp);
    lemma_i32_as_u32_roundtrip(e.pid);
    lemma_i32_as_u32_roundtrip(e.tgid);
    lemma_le_at_concat4(a, r1);
    lemma_le_at_concat4(b, r2);
    lemma_le_at_concat(a + b, r2);
    lemma_le_at_concat(c, r3);
    assert(whole[16] == e.enter);
}

/// The decoding matches the C layout: parsing the bytes that the kernel
/// writes for a schedstat event, followed by anything, gives that event back.
#[verifier::rlimit(30)]
pub proof fn lemma_schedstat_layout_roundtrip(e: SchedstatEvent, trailing: Seq<u8>)
    ensures
        parse_schedstat(schedstat_fields_bytes(e) + trailing) == Some(e),
{
    let a = u32_le_bytes(e.pid as u32);
    let b = u32_le_bytes(e.cpu as u32);
    let c = u64_le_bytes(e.ts_wakeup);
    let d = u64_le_bytes(e.ts_start);
    let f = u64_le_bytes(e.ts_stop);
    let r4 = f + trailing;
    let r3 = d + r4;
    let r2 = c + r3;
    let r1 = b + r2;
    let whole = schedstat_fields_bytes(e) + trailing;
    assert(whole =~= a + r1);
    assert(whole =~= (a + b) + r2);
    assert(whole =~= (a + b + c) + r3);
    assert(whole =~= (a + b + c + d) + r4);
    lemma_u32_le_bytes_value(e.pid as u32);
    lemma_u32_le_bytes_value(e.cpu as u32);
    lemma_u64_le_bytes_value(e.ts_wakeup);
    lemma_u64_le_bytes_value(e.ts_start);
    lemma_u64_le_bytes_value(e.ts_stop);
    lemma_i32_as_u32_roundtrip(e.pid);
    lemma_i32_as_u32_roundtrip(e.cpu);
    lemma_le_at_concat4(a, r1);
    lemma_le_at_concat4(b, r2);
    lemma_le_at_concat(a + b, r2);
    lemma_le_at_concat(c, r3);
    lemma_le_at_concat(a + b + c, r3);
    lemma_le_at_concat(d, r4);
    lemma_le_at_concat(a + b + c + d, r4);
    lemma_le_at_concat(f, trailing);
}

/// Only the bytes of the structure matter: two buffers that agree on their
/// first `SIGWAIT_EVENT_SIZE` bytes parse to the same sigwait event.
pub proof fn lemma_sigwait_ignores_trailing(b1: Seq<u8>, b2: Seq<u8>)
    requires
        b1.len() >= SIGWAIT_EVENT_SIZE,
        b2.len() >= SIGWAIT_EVENT_SIZE,
        b1.take(SIGWAIT_EVENT_SIZE as int) == b2.take(SIGWAIT_EVENT_SIZE as int),
    ensures
        parse_sigwait(b1) == parse_sigwait(b2),
{
    let n = SIGWAIT_EVENT_SIZE as int;
    assert forall|i: int| 0 <= i < n implies b1[i] == b2[i] by {
        assert(b1.take(n)[i] == b1[i]);
        assert(b2.take(n)[i] == b2[i]);
    }
}

/// Only the bytes of the structure matter: two buffers that agree on their
/// first `SCHEDSTAT_EVENT_SIZE` bytes parse to the same schedstat event.
pub proof fn lemma_schedstat_ignores_trailing(b1: Seq<u8>, b2: Seq<u8>)
    requires
        b1.len() >= SCHEDSTAT_EVENT_SIZE,
        b2.len() >= SCHEDSTAT_EVENT_SIZE,
        b1.take(SCHEDSTAT_EVENT_SIZE as int) == b2.take(SCHEDSTAT_EVENT_SIZE as int),
    ensures
        parse_schedstat(b1) == parse_schedstat(b2),
{
    let n = SCHEDSTAT_EVENT_SIZE as int;
    assert forall|i: int| 0 <= i < n implies b1[i] == b2[i] by {
        assert(b1.take(n)[i] == b1[i]);
        assert(b2.take(n)[i] == b2[i]);
    }
}

} // verus!
