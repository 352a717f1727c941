//! Timing decisions of the real-time loop: when the task timers first fire,
//! what a timer does after each activation signal, and the hyperperiod cycle
//! bookkeeping.

use vstd::prelude::*;

use crate::error::{TimpaniError, TimpaniResult};

verus! {

/// Delay before the first timer fire when no sync barrier is used, or when
/// the barrier's start time has already passed (5 ms).
pub const TIMER_START_DELAY_NS: u64 = 5_000_000;

/// Nanoseconds per second.
pub const NSEC_PER_SEC: u64 = 1_000_000_000;

/// The CLOCK_REALTIME moment at which all nodes of a workload start their
/// timers, as agreed at the sync barrier.
#[derive(Debug, Clone, Copy)]
pub struct SyncStartTime {
    pub sec: i64,
    pub nsec: i32,
}

/// A `timespec` reading as nanoseconds: seconds and nanoseconds both taken as
/// unsigned counts.
pub open spec fn timespec_ns_spec(sec: i64, nsec: i64) -> int {
    (sec as u64) * NSEC_PER_SEC + (nsec as u64)
}

/// Converts a `timespec` reading (seconds, nanoseconds) of a clock to
/// nanoseconds.
pub fn timespec_ns(sec: i64, nsec: i64) -> (ns: u64)
    requires
        timespec_ns_spec(sec, nsec) <= u64::MAX,
    ensures
        ns == timespec_ns_spec(sec, nsec),
{
    sec as u64 * NSEC_PER_SEC + nsec as u64
}

/// The barrier's start moment in CLOCK_REALTIME nanoseconds.
pub open spec fn sync_realtime_ns(s: SyncStartTime) -> int {
    (s.sec as u64) * NSEC_PER_SEC + ((s.nsec as u32) as u64)
}

/// How far the barrier's start lies ahead of `now_realtime_ns`, on the
/// nanosecond counts taken as signed 64-bit values.
pub open spec fn sync_lead_ns(s: SyncStartTime, now_realtime_ns: u64) -> int {
    ((sync_realtime_ns(s) as u64) as i64) - ((now_realtime_ns as i64) as int)
}

/// The start delay can be computed without arithmetic overflow.
pub open spec fn start_delay_fits(sync_start: Option<SyncStartTime>, now_realtime_ns: u64) -> bool {
    match sync_start {
        None => true,
        Some(s) => sync_realtime_ns(s) <= u64::MAX && i64::MIN <= sync_lead_ns(s, now_realtime_ns)
            <= i64::MAX,
    }
}

/// The delay from now to the first timer fire.
pub open spec fn start_delay_spec(sync_start: Option<SyncStartTime>, now_realtime_ns: u64) -> u64 {
    match sync_start {
        Some(s) => if sync_lead_ns(s, now_realtime_ns) > 0 {
            sync_lead_ns(s, now_realtime_ns) as u64
        } else {
            TIMER_START_DELAY_NS
        },
        None => TIMER_START_DELAY_NS,
    }
}

/// How long from now (in nanoseconds) all task timers should wait before
/// their first tick.
///
/// With a sync barrier, the timers start at the barrier's realtime moment, so
/// the delay is the time left until then (`now_realtime_ns` is the current
/// CLOCK_REALTIME reading); if that moment is not in the future, or without a
/// barrier, the delay is `TIMER_START_DELAY_NS`, so that the first fire is
/// always in the future.
pub fn start_delay_ns(sync_start: Option<&SyncStartTime>, now_realtime_ns: u64) -> (delay: u64)
    requires
        start_delay_fits(
            match sync_start {
                Some(s) => Some(*s),
                None => None,
            },
            now_realtime_ns,
        ),
    ensures
        delay == start_delay_spec(
            match sync_start {
                Some(s) => Some(*s),
                None => None,
            },
            now_realtime_ns,
        ),
        delay > 0,
        sync_start is None ==> delay == 5_000_000,
        sync_start matches Some(s) ==> (0 <= s.sec && 0 <= s.nsec && s.sec * 1_000_000_000 + s.nsec
            <= i64::MAX && now_realtime_ns <= i64::MAX ==> delay == if s.sec * 1_000_000_000
            + s.nsec > now_realtime_ns {
            s.sec * 1_000_000_000 + s.nsec - now_realtime_ns
        } else {
            5_000_000
        }),
{
        proof {
            if let Some(s) = sync_start {
                if 0 <= s.sec && 0 <= s.nsec && s.sec * 1_000_000_000 + s.nsec <= i64::MAX
                    && now_realtime_ns <= i64::MAX {
                    lemma_start_delay_waits_for_the_barrier(*s, now_realtime_ns);
                }
            }
        }
    match sync_start {
        Some(s) => {
            let sync_ns = s.sec as u64 * NSEC_PER_SEC + s.nsec as u32 as u64;
            let delta_ns = sync_ns as i64 - now_realtime_ns as i64;
            if delta_ns > 0 {
                delta_ns as u64
            } else {
                TIMER_START_DELAY_NS
            }
        },
        None => TIMER_START_DELAY_NS,
    }
}

/// The timers wait for the barrier: with a sync start whose nanosecond time
/// `sec * 1e9 + nsec` lies after now, the delay is exactly the time left until
/// it, even when both lie within the same second; a barrier that is now or in
/// the past gives the fixed 5 ms delay. (Stated for non-negative fields and
/// times that fit in an `i64`.)
pub proof fn lemma_start_delay_waits_for_the_barrier(s: SyncStartTime, now_realtime_ns: u64)
    requires
        0 <= s.sec,
        0 <= s.nsec,
        s.sec * 1_000_000_000 + s.nsec <= i64::MAX,
        now_realtime_ns <= i64::MAX,
    ensures
        start_delay_spec(Some(s), now_realtime_ns) == if s.sec * 1_000_000_000 + s.nsec
            > now_realtime_ns {
            s.sec * 1_000_000_000 + s.nsec - now_realtime_ns
        } else {
            5_000_000
        },
{
    assert((s.sec as u64) == s.sec);
    assert(((s.nsec as u32) as u64) == s.nsec);
    assert(sync_realtime_ns(s) == s.sec * 1_000_000_000 + s.nsec);
}

/// Without a sync barrier the delay is the fixed 5 ms.
pub proof fn lemma_start_delay_without_barrier(now_realtime_ns: u64)
    ensures
        start_delay_spec(None, now_realtime_ns) == 5_000_000,
{
}

/// What a task timer does after trying to send its activation signal.
#[derive(Debug, Clone, Copy, PartialEq, Eq, Structural)]
pub enum TimerStep {
    /// The signal went out: record this fire time and wait for the next tick.
    Fired,
    /// The signal failed for another reason: wait for the next tick and retry.
    Retry,
    /// The task's process is gone: stop this timer.
    Stop,
}

/// The task timer's decision after a signal attempt: a process that is gone
/// (`TimpaniError::Signal`) stops the timer, any other failure is retried at
/// the next tick.
pub fn task_timer_step(send_result: TimpaniResult<()>) -> (step: TimerStep)
    ensures
        send_result is Ok ==> step == TimerStep::Fired,
        send_result == Err::<(), TimpaniError>(TimpaniError::Signal) ==> step == TimerStep::Stop,
        send_result matches Err(e) && e != TimpaniError::Signal ==> step == TimerStep::Retry,
{
    match send_result {
        Ok(()) => TimerStep::Fired,
        Err(TimpaniError::Signal) => TimerStep::Stop,
        Err(_) => TimerStep::Retry,
    }
}

/// Whether a task with this period gets a running timer: a zero period
/// would fire without pause, so such a task is skipped.
pub fn task_timer_enabled(period_us: u32) -> (enabled: bool)
    ensures
        enabled == (period_us > 0),
{
    period_us > 0
}

/// Whether the hyperperiod cycle task is started: only for a positive
/// hyperperiod.
pub fn cycle_task_enabled(hyperperiod_us: u64) -> (enabled: bool)
    ensures
        enabled == (hyperperiod_us > 0),
{
    hyperperiod_us > 0
}

/// The cycle task reports statistics once per this many completed cycles.
pub const STATS_LOG_INTERVAL_CYCLES: u64 = 100;

/// Whether the cycle task reports statistics after the cycle that brought the
/// count of completed cycles to `completed_cycles`: every
/// `STATS_LOG_INTERVAL_CYCLES` cycles.
pub fn should_log_cycle(completed_cycles: u64) -> (log: bool)
    ensures
        log == (completed_cycles % STATS_LOG_INTERVAL_CYCLES == 0),
{
    completed_cycles % STATS_LOG_INTERVAL_CYCLES == 0
}

/// Deadline-miss bookkeeping over the hyperperiods of a workload.
pub struct HyperperiodManager {
    pub workload_id: String,
    pub hyperperiod_us: u64,
    pub tasks_in_hyperperiod: u32,
    pub current_cycle: u64,
    pub completed_cycles: u64,
    pub total_deadline_misses: u64,
    pub cycle_deadline_misses: u64,
}

/// The figures reported for a workload's hyperperiods.
#[derive(Debug, Clone, Copy)]
pub struct CycleStatistics {
    pub completed_cycles: u64,
    pub total_deadline_misses: u64,
    /// Deadline misses per thousand completed cycles; 0 before the first
    /// cycle completes.
    pub misses_per_thousand_cycles: u128,
}

impl HyperperiodManager {
    pub fn init(workload_id: &str, hyperperiod_us: u64, tasks_in_hyperperiod: u32) -> (hp: Self)
        ensures
            hp.workload_id@ == workload_id@,
            hp.hyperperiod_us == hyperperiod_us,
            hp.tasks_in_hyperperiod == tasks_in_hyperperiod,
            hp.current_cycle == 0,
            hp.completed_cycles == 0,
            hp.total_deadline_misses == 0,
            hp.cycle_deadline_misses == 0,
    {
        HyperperiodManager {
            workload_id: workload_id.to_owned(),
            hyperperiod_us,
            tasks_in_hyperperiod,
            current_cycle: 0,
            completed_cycles: 0,
            total_deadline_misses: 0,
            cycle_deadline_misses: 0,
        }
    }

    /// A hyperperiod has ended: the cycle counters advance and the per-cycle
    /// miss count starts again from zero; the total is kept.
    pub fn on_cycle_complete(&mut self)
        requires
            old(self).completed_cycles < u64::MAX,
            old(self).current_cycle < u64::MAX,
        ensures
            final(self).completed_cycles == old(self).completed_cycles + 1,
            final(self).current_cycle == old(self).current_cycle + 1,
            final(self).cycle_deadline_misses == 0,
            final(self).total_deadline_misses == old(self).total_deadline_misses,
            final(self).workload_id == old(self).workload_id,
            final(self).hyperperiod_us == old(self).hyperperiod_us,
            final(self).tasks_in_hyperperiod == old(self).tasks_in_hyperperiod,
    {
        self.completed_cycles = self.completed_cycles + 1;
        self.current_cycle = self.current_cycle + 1;
        self.cycle_deadline_misses = 0;
    }

    /// A task missed its deadline in the current hyperperiod.
    pub fn record_deadline_miss(&mut self)
        requires
            old(self).total_deadline_misses < u64::MAX,
            old(self).cycle_deadline_misses < u64::MAX,
        ensures
            final(self).total_deadline_misses == old(self).total_deadline_misses + 1,
            final(self).cycle_deadline_misses == old(self).cycle_deadline_misses + 1,
            final(self).completed_cycles == old(self).completed_cycles,
            final(self).current_cycle == old(self).current_cycle,
            final(self).workload_id == old(self).workload_id,
            final(self).hyperperiod_us == old(self).hyperperiod_us,
            final(self).tasks_in_hyperperiod == old(self).tasks_in_hyperperiod,
    {
        self.total_deadline_misses = self.total_deadline_misses + 1;
        self.cycle_deadline_misses = self.cycle_deadline_misses + 1;
    }

    /// The statistics to report, with the miss rate guarded against the
    /// case of no completed cycle.
    pub fn log_statistics(&self) -> (stats: CycleStatistics)
        ensures
            stats.completed_cycles == self.completed_cycles,
            stats.total_deadline_misses == self.total_deadline_misses,
            stats.misses_per_thousand_cycles == if self.completed_cycles == 0 {
                0
            } else {
                (self.total_deadline_misses * 1000) as nat / self.completed_cycles as nat
            },
    {
        let rate: u128 = if self.completed_cycles == 0 {
            0
        } else {
            (self.total_deadline_misses as u128) * 1000 / (self.completed_cycles as u128)
        };
        CycleStatistics {
            completed_cycles: self.completed_cycles,
            total_deadline_misses: self.total_deadline_misses,
            misses_per_thousand_cycles: rate,
        }
    }
}

} // verus!
