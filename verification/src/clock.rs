//! Calibration of the BPF clock.
//!
//! BPF stamps events with CLOCK_MONOTONIC, while the rest of the system works
//! with CLOCK_REALTIME. The offset between the two clocks is estimated from
//! samples, each taken as a realtime reading, a monotonic reading and a second
//! realtime reading: the sample with the smallest realtime delta (the fastest
//! measurement, least disturbed by jitter and context switches) wins, and its
//! offset is the midpoint of its realtime readings minus its monotonic reading.
//! A sample during which the realtime clock stepped backwards measures
//! nothing and is never chosen.

use vstd::prelude::*;

verus! {

/// Number of calibration samples to take.
pub const CALIBRATION_SAMPLES: usize = 20;

/// One calibration sample, in nanoseconds: CLOCK_REALTIME, then
/// CLOCK_MONOTONIC, then CLOCK_REALTIME again.
#[derive(Debug, Clone, Copy)]
pub struct ClockSample {
    pub realtime_before: u64,
    pub monotonic: u64,
    pub realtime_after: u64,
}

/// The realtime clock did not step backwards during the sample.
pub open spec fn sample_ordered(s: ClockSample) -> bool {
    s.realtime_before <= s.realtime_after
}

/// How long the sample took to measure, by the realtime clock.
pub open spec fn sample_delta(s: ClockSample) -> int {
    s.realtime_after - s.realtime_before
}

/// The sample's estimate of "now" on the realtime clock: the midpoint of its
/// two realtime readings.
pub open spec fn sample_midpoint(s: ClockSample) -> int {
    (s.realtime_before + s.realtime_after) / 2
}

/// The offset that the sample gives, computed on the readings taken as signed
/// 64-bit nanosecond counts.
pub open spec fn sample_offset(s: ClockSample) -> int {
    ((sample_midpoint(s) as u64) as i64) - ((s.monotonic as i64) as int)
}

/// The best `(delta, offset)` pair after looking at `samples` in order: an
/// ordered sample replaces the best so far only if its delta is strictly
/// smaller; other samples are skipped. Before any sample the best delta is
/// `u64::MAX` and the offset 0.
pub open spec fn calibration_best(samples: Seq<ClockSample>) -> (u64, i64)
    decreases samples.len(),
{
    if samples.len() == 0 {
        (u64::MAX, 0)
    } else {
        let best = calibration_best(samples.drop_last());
        let s = samples.last();
        if sample_ordered(s) && sample_delta(s) < best.0 {
            (sample_delta(s) as u64, sample_offset(s) as i64)
        } else {
            best
        }
    }
}

/// The sample at `i` can be processed without arithmetic overflow: if its
/// realtime readings are ordered, their sum fits, and, if it becomes the best
/// sample so far, its offset fits in an `i64`.
pub open spec fn calibration_sample_fits(samples: Seq<ClockSample>, i: int) -> bool {
    let s = samples[i];
    sample_ordered(s) ==> {
        &&& s.realtime_before + s.realtime_after <= u64::MAX
        &&& sample_delta(s) < calibration_best(samples.take(i)).0 ==> i64::MIN <= sample_offset(
            s,
        ) <= i64::MAX
    }
}

/// Calibrate the BPF time offset from clock samples.
///
/// Returns the offset (nanoseconds to add to a BPF monotonic timestamp) of the
/// ordered sample with the smallest realtime delta, the first one among
/// equals; 0 if no ordered sample has a delta below `u64::MAX`.
pub fn calibrate_time_offset(samples: &[ClockSample]) -> (offset: i64)
    requires
        forall|i: int| 0 <= i < samples@.len() ==> calibration_sample_fits(samples@, i),
    ensures
        offset == calibration_best(samples@).1,
        // the first of the fastest samples with ordered realtime readings gives the offset
        forall|i: int|
            #![trigger samples@[i]]
            {
                &&& 0 <= i < samples@.len()
                &&& samples@[i].realtime_before <= samples@[i].realtime_after
                &&& samples@[i].realtime_after - samples@[i].realtime_before < u64::MAX
                &&& forall|j: int|
                    0 <= j < samples@.len() && samples@[j].realtime_before
                        <= samples@[j].realtime_after ==> samples@[i].realtime_after
                        - samples@[i].realtime_before <= #[trigger] samples@[j].realtime_after
                        - samples@[j].realtime_before
                &&& forall|j: int|
                    0 <= j < i && samples@[j].realtime_before <= samples@[j].realtime_after
                        ==> #[trigger] samples@[j].realtime_after - samples@[j].realtime_before
                        > samples@[i].realtime_after - samples@[i].realtime_before
            } ==> offset == (((((samples@[i].realtime_before + samples@[i].realtime_after) / 2)
                as u64) as i64) - (samples@[i].monotonic as i64)) as i64,
        // without any usable sample the offset stays 0
        (forall|j: int|
            0 <= j < samples@.len() && samples@[j].realtime_before <= samples@[j].realtime_after
                ==> #[trigger] samples@[j].realtime_after - samples@[j].realtime_before >= u64::MAX)
            ==> offset == 0,
{
    let mut best_delta: u64 = u64::MAX;
    let mut best_offset: i64 = 0;
    let mut i: usize = 0;
    while i < samples.len()
        invariant
            0 <= i <= samples@.len(),
            forall|k: int| 0 <= k < samples@.len() ==> calibration_sample_fits(samples@, k),
            (best_delta, best_offset) == calibration_best(samples@.take(i as int)),
        decreases samples@.len() - i,
    {
        let s = samples[i];
        assert(calibration_sample_fits(samples@, i as int));
        let t1 = s.realtime_before;
        let t2 = s.monotonic;
        let t3 = s.realtime_after;
        if t1 <= t3 {
            let delta = t3 - t1;
            let ts = (t3 + t1) / 2;
            if delta < best_delta {
                best_delta = delta;
                best_offset = ts as i64 - t2 as i64;
            }
        }
        assert(samples@.take(i + 1).drop_last() =~= samples@.take(i as int));
        i = i + 1;
    }
    assert(samples@.take(samples@.len() as int) =~= samples@);
    proof {
        assert forall|i: int|
            #![trigger samples@[i]]
            {
                &&& 0 <= i < samples@.len()
                &&& samples@[i].realtime_before <= samples@[i].realtime_after
                &&& samples@[i].realtime_after - samples@[i].realtime_before < u64::MAX
                &&& forall|j: int|
                    0 <= j < samples@.len() && samples@[j].realtime_before
                        <= samples@[j].realtime_after ==> samples@[i].realtime_after
                        - samples@[i].realtime_before <= #[trigger] samples@[j].realtime_after
                        - samples@[j].realtime_before
                &&& forall|j: int|
                    0 <= j < i && samples@[j].realtime_before <= samples@[j].realtime_after
                        ==> #[trigger] samples@[j].realtime_after - samples@[j].realtime_before
                        > samples@[i].realtime_after - samples@[i].realtime_before
            } implies best_offset == (((((samples@[i].realtime_before
            + samples@[i].realtime_after) / 2) as u64) as i64) - (samples@[i].monotonic as i64))
            as i64 by {
            lemma_calibration_keeps_first_fastest_sample(samples@, i);
        }
        if forall|j: int|
            0 <= j < samples@.len() && samples@[j].realtime_before <= samples@[j].realtime_after
                ==> #[trigger] samples@[j].realtime_after - samples@[j].realtime_before
                >= u64::MAX {
            lemma_calibration_without_usable_samples(samples@);
        }
    }
    best_offset
}

/// Whether `calibrate_time_offset` can process `samples` without arithmetic
/// overflow (its precondition), checked the way the calibration walks them.
pub fn calibration_samples_fit(samples: &[ClockSample]) -> (fits: bool)
    ensures
        fits == forall|i: int| 0 <= i < samples@.len() ==> calibration_sample_fits(samples@, i),
{
    let mut best_delta: u64 = u64::MAX;
    let mut best_offset: i64 = 0;
    let mut i: usize = 0;
    while i < samples.len()
        invariant
            0 <= i <= samples@.len(),
            forall|k: int| 0 <= k < i ==> calibration_sample_fits(samples@, k),
            (best_delta, best_offset) == calibration_best(samples@.take(i as int)),
        decreases samples@.len() - i,
    {
        let s = samples[i];
        let t1 = s.realtime_before;
        let t2 = s.monotonic;
        let t3 = s.realtime_after;
        if t1 <= t3 {
            if t1 > u64::MAX - t3 {
                assert(!calibration_sample_fits(samples@, i as int));
                return false;
            }
            let delta = t3 - t1;
            let ts = (t3 + t1) / 2;
            if delta < best_delta {
                let wide: i128 = (ts as i64) as i128 - (t2 as i64) as i128;
                if wide < i64::MIN as i128 || wide > i64::MAX as i128 {
                    assert(!calibration_sample_fits(samples@, i as int));
                    return false;
                }
                best_delta = delta;
                best_offset = wide as i64;
            }
        }
        assert(calibration_sample_fits(samples@, i as int));
        assert(samples@.take(i + 1).drop_last() =~= samples@.take(i as int));
        i = i + 1;
    }
    true
}

/// What `bpf_ktime_to_realtime` gives: the timestamp taken as a signed count,
/// moved by the offset, and read back as an unsigned count.
pub open spec fn ktime_to_realtime(bpf_ts: u64, offset: i64) -> u64 {
    (((bpf_ts as i64) + offset) as i64) as u64
}

/// Convert BPF monotonic timestamp to realtime timestamp, given the
/// calibrated offset.
pub fn bpf_ktime_to_realtime(bpf_ts: u64, offset: i64) -> (rt: u64)
    requires
        i64::MIN <= (bpf_ts as i64) + offset <= i64::MAX,
    ensures
        rt == ktime_to_realtime(bpf_ts, offset),
{
    (bpf_ts as i64 + offset) as u64
}

/// Calibration uses the fastest sample: when some ordered sample has a delta
/// below `u64::MAX`, the offset is that of an ordered sample whose delta is
/// the smallest of all ordered samples and strictly smaller than the deltas
/// of the ordered samples before it; otherwise the offset stays 0. Samples
/// during which the realtime clock stepped backwards are never chosen.
pub proof fn lemma_calibration_uses_fastest_sample(samples: Seq<ClockSample>)
    ensures
        (forall|i: int|
            0 <= i < samples.len() && sample_ordered(#[trigger] samples[i]) ==> sample_delta(
                samples[i],
            ) >= u64::MAX) ==> calibration_best(samples) == (u64::MAX, 0i64),
        (exists|i: int|
            0 <= i < samples.len() && sample_ordered(#[trigger] samples[i]) && sample_delta(
                samples[i],
            ) < u64::MAX) ==> exists|i: int| fastest_at(samples, i),
    decreases samples.len(),
{
    if samples.len() > 0 {
        let init = samples.drop_last();
        let n = samples.len() - 1;
        lemma_calibration_uses_fastest_sample(init);
        let last = samples.last();
        assert(samples[n] == last);
        assert forall|j: int| 0 <= j < n implies #[trigger] samples[j] == init[j] by {}
        if exists|i: int|
            0 <= i < init.len() && sample_ordered(#[trigger] init[i]) && sample_delta(init[i])
                < u64::MAX {
            let k = choose|k: int| fastest_at(init, k);
            if sample_ordered(last) && sample_delta(last) < sample_delta(init[k]) {
                assert(fastest_at(samples, n));
            } else {
                assert(fastest_at(samples, k));
            }
        } else {
            if sample_ordered(last) && sample_delta(last) < u64::MAX {
                assert(fastest_at(samples, n));
            }
        }
    }
}

/// Calibration keeps the first fastest sample: if the sample at `i` has
/// ordered realtime readings, a delta below `u64::MAX`, no ordered sample is
/// faster and every ordered sample before it is slower, the offset is that
/// sample's realtime midpoint minus its monotonic reading, whatever the
/// size of its delta.
pub proof fn lemma_calibration_keeps_first_fastest_sample(samples: Seq<ClockSample>, i: int)
    requires
        0 <= i < samples.len(),
        samples[i].realtime_before <= samples[i].realtime_after,
        samples[i].realtime_after - samples[i].realtime_before < u64::MAX,
        forall|j: int|
            0 <= j < samples.len() && samples[j].realtime_before <= samples[j].realtime_after
                ==> samples[i].realtime_after - samples[i].realtime_before
                <= #[trigger] samples[j].realtime_after - samples[j].realtime_before,
        forall|j: int|
            0 <= j < i && samples[j].realtime_before <= samples[j].realtime_after
                ==> #[trigger] samples[j].realtime_after - samples[j].realtime_before
                > samples[i].realtime_after - samples[i].realtime_before,
    ensures
        calibration_best(samples).1 == (((((samples[i].realtime_before
            + samples[i].realtime_after) / 2) as u64) as i64) - (samples[i].monotonic as i64)) as i64,
{
    assert(sample_ordered(samples[i]) && sample_delta(samples[i]) < u64::MAX);
    lemma_calibration_uses_fastest_sample(samples);
    let k = choose|k: int| fastest_at(samples, k);
    assert(fastest_at(samples, k));
    if k < i {
        assert(samples[k].realtime_after - samples[k].realtime_before > samples[i].realtime_after
            - samples[i].realtime_before);
        assert(sample_delta(samples[k]) <= sample_delta(samples[i]));
    } else if k > i {
        assert(sample_delta(samples[i]) > sample_delta(samples[k]));
        assert(samples[i].realtime_after - samples[i].realtime_before <= samples[k].realtime_after
            - samples[k].realtime_before);
    }
}

/// Without any sample whose realtime readings are ordered and differ by less
/// than `u64::MAX`, nothing is calibrated: the offset is 0.
pub proof fn lemma_calibration_without_usable_samples(samples: Seq<ClockSample>)
    requires
        forall|j: int|
            0 <= j < samples.len() && samples[j].realtime_before <= samples[j].realtime_after
                ==> #[trigger] samples[j].realtime_after - samples[j].realtime_before >= u64::MAX,
    ensures
        calibration_best(samples).1 == 0,
{
    assert forall|j: int|
        0 <= j < samples.len() && sample_ordered(#[trigger] samples[j]) implies sample_delta(
        samples[j],
    ) >= u64::MAX by {
        assert(samples[j].realtime_after - samples[j].realtime_before >= u64::MAX);
    }
    lemma_calibration_uses_fastest_sample(samples);
}

/// A single sample with ordered realtime readings calibrates to its realtime
/// midpoint minus its monotonic reading, however slow the clock reads were
/// (any delta below `u64::MAX`).
pub proof fn lemma_single_sample_calibration(s: ClockSample)
    requires
        s.realtime_before <= s.realtime_after,
        s.realtime_after - s.realtime_before < u64::MAX,
    ensures
        calibration_best(seq![s]).1 == (((((s.realtime_before + s.realtime_after) / 2) as u64)
            as i64) - (s.monotonic as i64)) as i64,
{
    let samples = seq![s];
    assert(samples[0] == s);
    lemma_calibration_keeps_first_fastest_sample(samples, 0);
}

/// The sample at `i` is the one calibration keeps: it is ordered, the result
/// is its delta and offset, no ordered sample is faster, and the ordered
/// samples before it are all slower.
pub open spec fn fastest_at(samples: Seq<ClockSample>, i: int) -> bool {
    &&& 0 <= i < samples.len()
    &&& sample_ordered(samples[i])
    &&& calibration_best(samples).1 == sample_offset(samples[i]) as i64
    &&& calibration_best(samples).0 == sample_delta(samples[i])
    &&& forall|j: int|
        0 <= j < samples.len() && sample_ordered(#[trigger] samples[j]) ==> sample_delta(samples[i])
            <= sample_delta(samples[j])
    &&& forall|j: int|
        0 <= j < i && sample_ordered(#[trigger] samples[j]) ==> sample_delta(samples[j])
            > sample_delta(samples[i])
}

/// Converting a sample's own monotonic reading with the offset it gives yields
/// the sample's realtime midpoint (for readings that fit in an `i64`).
pub proof fn lemma_sample_converts_to_its_midpoint(s: ClockSample)
    requires
        s.realtime_before <= i64::MAX,
        s.realtime_after <= i64::MAX,
        s.monotonic <= i64::MAX,
    ensures
        ktime_to_realtime(s.monotonic, sample_offset(s) as i64) == sample_midpoint(s),
{
}

} // verus!
