//! Lifecycle of the BPF programs and their PID filters.
//!
//! A `BpfManager` owns the running programs: the sigwait program (the core
//! of deadline monitoring) and, optionally, the schedstat program. Starting a
//! program (loading, attaching and polling its ring buffer), stopping it and
//! talking to its kernel PID filter map are done by the caller, step by step:
//! the manager says what to do next and records the outcome of each step.
//! Failures degrade gracefully: the operations always report success.
//!
//! For maps that live in the library (`PidFilterMap`), `add_pid` and
//! `del_pid` run the steps themselves.

use vstd::prelude::*;

use crate::error::TimpaniResult;
use crate::pid_filter::{
    answered, apply_change, filter_request, filter_request_spec, FilterRequest, PidChange,
    PidFilterMap,
};

verus! {

/// Ring buffer poll timeout in milliseconds.
pub const RB_TIMEOUT_MS: u64 = 100;

/// How one poll of a program's ring buffer ended.
#[derive(Debug, Clone, Copy, PartialEq, Eq, Structural)]
pub enum PollOutcome {
    /// The poll returned (with or without events).
    Polled,
    /// The poll was interrupted by a signal.
    Interrupted,
    /// The poll failed.
    Failed,
}

/// Whether a program's polling loop goes on after a poll: an interrupted poll
/// is simply retried, a failed one ends the loop.
pub fn keep_polling(outcome: PollOutcome) -> (go_on: bool)
    ensures
        go_on <==> outcome != PollOutcome::Failed,
{
    match outcome {
        PollOutcome::Polled => true,
        PollOutcome::Interrupted => true,
        PollOutcome::Failed => false,
    }
}

/// The two BPF programs.
#[derive(Debug, Clone, Copy, PartialEq, Eq, Structural)]
pub enum ProgramKind {
    Sigwait,
    Schedstat,
}

/// What the manager knows of a program's PID filter map: the PIDs the map
/// confirmed since the program started, and every change it was asked for,
/// oldest first, with whether the map accepted it.
pub ghost struct FilterRecord {
    pub confirmed: Set<i32>,
    pub answers: Seq<(PidChange, bool)>,
}

/// The record of a freshly started program.
pub open spec fn fresh_record() -> FilterRecord {
    FilterRecord { confirmed: Set::empty(), answers: Seq::empty() }
}

/// The record once the map answered `change` with `ok`.
pub open spec fn record_answer(rec: FilterRecord, change: PidChange, ok: bool) -> FilterRecord {
    FilterRecord {
        confirmed: if ok {
            apply_change(rec.confirmed, change)
        } else {
            rec.confirmed
        },
        answers: rec.answers.push((change, ok)),
    }
}

/// BPF Manager - Handles lifecycle of BPF programs and their PID filters.
pub struct BpfManager<M> {
    sigwait: Option<M>,
    schedstat: Option<M>,
    sigwait_record: Ghost<FilterRecord>,
    schedstat_record: Ghost<FilterRecord>,
}

impl<M> BpfManager<M> {
    /// The running sigwait program, if any.
    pub closed spec fn sigwait_program(&self) -> Option<M> {
        self.sigwait
    }

    /// The running schedstat program, if any.
    pub closed spec fn schedstat_program(&self) -> Option<M> {
        self.schedstat
    }

    /// What the manager knows of the sigwait program's filter map.
    pub closed spec fn sigwait_record(&self) -> FilterRecord {
        self.sigwait_record@
    }

    /// What the manager knows of the schedstat program's filter map.
    pub closed spec fn schedstat_record(&self) -> FilterRecord {
        self.schedstat_record@
    }

    pub open spec fn program_of(&self, kind: ProgramKind) -> Option<M> {
        match kind {
            ProgramKind::Sigwait => self.sigwait_program(),
            ProgramKind::Schedstat => self.schedstat_program(),
        }
    }

    pub open spec fn record_of(&self, kind: ProgramKind) -> FilterRecord {
        match kind {
            ProgramKind::Sigwait => self.sigwait_record(),
            ProgramKind::Schedstat => self.schedstat_record(),
        }
    }

    /// Whether monitoring is on: the sigwait program runs.
    pub open spec fn monitoring(&self) -> bool {
        self.sigwait_program() is Some
    }

    /// Both sides of `after` are those of `before`.
    pub open spec fn unchanged(before: Self, after: Self) -> bool {
        &&& after.sigwait_program() == before.sigwait_program()
        &&& after.schedstat_program() == before.schedstat_program()
        &&& after.sigwait_record() == before.sigwait_record()
        &&& after.schedstat_record() == before.schedstat_record()
    }

    /// The request that starts a PID change, if any.
    pub open spec fn first_request(&self, change: PidChange) -> Option<(ProgramKind, FilterRequest)> {
        if self.monitoring() {
            Some((ProgramKind::Sigwait, filter_request_spec(change)))
        } else {
            None
        }
    }

    /// The request that follows the answer `ok` of `kind`'s map to `change`:
    /// the schedstat map is asked only after the sigwait map accepted, and
    /// only while the schedstat program runs.
    pub open spec fn next_request(&self, change: PidChange, kind: ProgramKind, ok: bool) -> Option<
        (ProgramKind, FilterRequest),
    > {
        if kind == ProgramKind::Sigwait && ok && self.schedstat_program() is Some {
            Some((ProgramKind::Schedstat, filter_request_spec(change)))
        } else {
            None
        }
    }

    /// Create a new BPF manager (does not start programs yet).
    pub fn new() -> (m: Self)
        ensures
            m.sigwait_program() is None,
            m.schedstat_program() is None,
    {
        BpfManager {
            sigwait: None,
            schedstat: None,
            sigwait_record: Ghost(fresh_record()),
            schedstat_record: Ghost(fresh_record()),
        }
    }

    /// Initialize and start BPF monitoring, first step: records the outcome
    /// of starting the sigwait program and says whether the schedstat program
    /// is to be started next (exactly when sigwait started).
    ///
    /// A failed start leaves the manager as it was (graceful degradation: the
    /// caller carries on without monitoring).
    pub fn bpf_on(&mut self, sigwait_start: TimpaniResult<M>) -> (start_schedstat: bool)
        ensures
            start_schedstat == sigwait_start is Ok,
            match sigwait_start {
                Ok(p) => {
                    &&& final(self).sigwait_program() == Some(p)
                    &&& final(self).sigwait_record() == fresh_record()
                    &&& final(self).schedstat_program() == old(self).schedstat_program()
                    &&& final(self).schedstat_record() == old(self).schedstat_record()
                },
                Err(_) => Self::unchanged(*old(self), *final(self)),
            },
    {
        match sigwait_start {
            Ok(p) => {
                self.sigwait = Some(p);
                self.sigwait_record = Ghost(fresh_record());
                true
            },
            Err(_) => false,
        }
    }

    /// Initialize and start BPF monitoring, second step: records the outcome
    /// of starting the schedstat program. A failed start leaves the manager
    /// as it was; sigwait monitoring goes on either way.
    pub fn schedstat_on(&mut self, schedstat_start: TimpaniResult<M>)
        requires
            old(self).monitoring(),
        ensures
            match schedstat_start {
                Ok(q) => {
                    &&& final(self).schedstat_program() == Some(q)
                    &&& final(self).schedstat_record() == fresh_record()
                    &&& final(self).sigwait_program() == old(self).sigwait_program()
                    &&& final(self).sigwait_record() == old(self).sigwait_record()
                },
                Err(_) => Self::unchanged(*old(self), *final(self)),
            },
    {
        match schedstat_start {
            Ok(q) => {
                self.schedstat = Some(q);
                self.schedstat_record = Ghost(fresh_record());
            },
            Err(_) => {},
        }
    }

    /// Stop BPF monitoring: no program runs afterwards. Hands back the
    /// programs that were running, for the caller to stop their polling.
    pub fn bpf_off(&mut self) -> (stopped: (Option<M>, Option<M>))
        ensures
            final(self).sigwait_program() is None,
            final(self).schedstat_program() is None,
            stopped.0 == old(self).sigwait_program(),
            stopped.1 == old(self).schedstat_program(),
    {
        let sigwait = self.sigwait.take();
        let schedstat = self.schedstat.take();
        (sigwait, schedstat)
    }

    /// A PID change (add or remove), first step: the request to send, and to
    /// which program's map. Without monitoring there is none: the change is
    /// then done.
    pub fn begin_pid_change(&self, change: PidChange) -> (next: Option<(ProgramKind, FilterRequest)>)
        ensures
            next == self.first_request(change),
            self.sigwait_program() is Some ==> next == Some(
                (
                    ProgramKind::Sigwait,
                    match change {
                        PidChange::Add(p) => FilterRequest::Update { key: p, value: 1u8 },
                        PidChange::Remove(p) => FilterRequest::Delete { key: p },
                    },
                ),
            ),
            self.sigwait_program() is None ==> next is None,
    {
        if self.sigwait.is_some() {
            Some((ProgramKind::Sigwait, filter_request(change)))
        } else {
            None
        }
    }

    /// A PID change, next step: records that `kind`'s map answered the
    /// request for `change` with `ok`, and gives the following request, if
    /// any. A refusal is not reported further (graceful degradation).
    pub fn pid_change_answered(&mut self, change: PidChange, kind: ProgramKind, ok: bool) -> (next:
        Option<(ProgramKind, FilterRequest)>)
        requires
            old(self).program_of(kind) is Some,
        ensures
            next == old(self).next_request(change, kind, ok),
            kind == ProgramKind::Sigwait && ok && old(self).schedstat_program() is Some ==> next
                == Some(
                (
                    ProgramKind::Schedstat,
                    match change {
                        PidChange::Add(p) => FilterRequest::Update { key: p, value: 1u8 },
                        PidChange::Remove(p) => FilterRequest::Delete { key: p },
                    },
                ),
            ),
            !(kind == ProgramKind::Sigwait && ok && old(self).schedstat_program() is Some)
                ==> next is None,
            final(self).sigwait_program() == old(self).sigwait_program(),
            final(self).schedstat_program() == old(self).schedstat_program(),
            final(self).record_of(kind) == record_answer(old(self).record_of(kind), change, ok),
            kind == ProgramKind::Sigwait ==> final(self).schedstat_record()
                == old(self).schedstat_record(),
            kind == ProgramKind::Schedstat ==> final(self).sigwait_record()
                == old(self).sigwait_record(),
    {
        match kind {
            ProgramKind::Sigwait => {
                self.sigwait_record = Ghost(record_answer(self.sigwait_record@, change, ok));
                if ok && self.schedstat.is_some() {
                    Some((ProgramKind::Schedstat, filter_request(change)))
                } else {
                    None
                }
            },
            ProgramKind::Schedstat => {
                self.schedstat_record = Ghost(record_answer(self.schedstat_record@, change, ok));
                None
            },
        }
    }

    /// The program of that kind, if it runs, for the caller to send it a
    /// request.
    pub fn program(&self, kind: ProgramKind) -> (r: Option<&M>)
        ensures
            r matches Some(m) ==> self.program_of(kind) == Some(*m),
            r is None <==> self.program_of(kind) is None,
    {
        match kind {
            ProgramKind::Sigwait => self.sigwait.as_ref(),
            ProgramKind::Schedstat => self.schedstat.as_ref(),
        }
    }
}

impl<M: PidFilterMap> BpfManager<M> {
    /// How a PID change takes `before` to `after`. Without monitoring nothing
    /// changes. Otherwise the sigwait map answers the change (its history and
    /// the manager's record of it grow by that request and its outcome); only
    /// if it accepted and the schedstat program runs does the schedstat map
    /// answer it too, else the schedstat side is untouched. No program starts
    /// or stops.
    pub open spec fn pid_change(before: Self, after: Self, change: PidChange) -> bool {
        if !before.monitoring() {
            Self::unchanged(before, after)
        } else {
            let sig_after = after.sigwait_program()->0;
            let ok = sig_after.history().last().1;
            &&& after.sigwait_program() is Some
            &&& answered(before.sigwait_program()->0, sig_after, change)
            &&& after.sigwait_record() == record_answer(before.sigwait_record(), change, ok)
            &&& if ok && before.schedstat_program() is Some {
                let sched_after = after.schedstat_program()->0;
                &&& after.schedstat_program() is Some
                &&& answered(before.schedstat_program()->0, sched_after, change)
                &&& after.schedstat_record() == record_answer(
                    before.schedstat_record(),
                    change,
                    sched_after.history().last().1,
                )
            } else {
                &&& after.schedstat_program() == before.schedstat_program()
                &&& after.schedstat_record() == before.schedstat_record()
            }
        }
    }

    /// Sends `req` to `kind`'s map and tells whether it was accepted.
    fn send(&mut self, kind: ProgramKind, req: FilterRequest) -> (ok: bool)
        requires
            old(self).program_of(kind) is Some,
        ensures
            final(self).sigwait_record() == old(self).sigwait_record(),
            final(self).schedstat_record() == old(self).schedstat_record(),
            final(self).program_of(kind) is Some,
            final(self).program_of(kind)->0.history() == old(self).program_of(kind)->0.history().push(
                (
                    match req {
                        FilterRequest::Update { key, .. } => PidChange::Add(key),
                        FilterRequest::Delete { key } => PidChange::Remove(key),
                    },
                    ok,
                ),
            ),
            final(self).program_of(kind)->0.filtered_pids() == if ok {
                apply_change(
                    old(self).program_of(kind)->0.filtered_pids(),
                    match req {
                        FilterRequest::Update { key, .. } => PidChange::Add(key),
                        FilterRequest::Delete { key } => PidChange::Remove(key),
                    },
                )
            } else {
                old(self).program_of(kind)->0.filtered_pids()
            },
            kind == ProgramKind::Sigwait ==> final(self).schedstat_program()
                == old(self).schedstat_program(),
            kind == ProgramKind::Schedstat ==> final(self).sigwait_program()
                == old(self).sigwait_program(),
    {
        let slot = match kind {
            ProgramKind::Sigwait => self.sigwait.take(),
            ProgramKind::Schedstat => self.schedstat.take(),
        };
        let mut m = match slot {
            Some(m) => m,
            None => {
                assert(false);
                return false;
            },
        };
        let res = match req {
            FilterRequest::Update { key, .. } => m.update_pid(key),
            FilterRequest::Delete { key } => m.delete_pid(key),
        };
        match kind {
            ProgramKind::Sigwait => {
                self.sigwait = Some(m);
            },
            ProgramKind::Schedstat => {
                self.schedstat = Some(m);
            },
        }
        res.is_ok()
    }

    /// Runs a PID change through the maps, step by step.
    fn change_pid(&mut self, change: PidChange)
        ensures
            Self::pid_change(*old(self), *final(self), change),
    {
        let first = self.begin_pid_change(change);
        let (kind, req) = match first {
            Some(step) => step,
            None => {
                return;
            },
        };
        let ghost sig_before = self.sigwait_program()->0;
        let ok = self.send(kind, req);
        assert(self.sigwait_program()->0.history().drop_last() =~= sig_before.history());
        let next = self.pid_change_answered(change, kind, ok);
        let (kind2, req2) = match next {
            Some(step) => step,
            None => {
                return;
            },
        };
        let ghost sched_before = self.schedstat_program()->0;
        let ok2 = self.send(kind2, req2);
        assert(self.schedstat_program()->0.history().drop_last() =~= sched_before.history());
        let _ = self.pid_change_answered(change, kind2, ok2);
    }

    /// Add a PID to the BPF filter maps.
    ///
    /// Without monitoring nothing changes. Otherwise the sigwait map is
    /// updated first; when that fails the schedstat map is left alone, else
    /// the schedstat map (if its program runs) is updated too. Failures are
    /// not reported: the result is always `Ok`.
    pub fn add_pid(&mut self, pid: i32) -> (r: TimpaniResult<()>)
        ensures
            r is Ok,
            Self::pid_change(*old(self), *final(self), PidChange::Add(pid)),
    {
        self.change_pid(PidChange::Add(pid));
        Ok(())
    }

    /// Remove a PID from the BPF filter maps.
    ///
    /// Without monitoring nothing changes. Otherwise the sigwait map is
    /// updated first; when that fails the schedstat map is left alone, else
    /// the schedstat map (if its program runs) is updated too. Failures are
    /// not reported: the result is always `Ok`.
    pub fn del_pid(&mut self, pid: i32) -> (r: TimpaniResult<()>)
        ensures
            r is Ok,
            Self::pid_change(*old(self), *final(self), PidChange::Remove(pid)),
    {
        self.change_pid(PidChange::Remove(pid));
        Ok(())
    }
}

impl<M> Default for BpfManager<M> {
    fn default() -> (m: Self)
        ensures
            m.sigwait_program() is None,
            m.schedstat_program() is None,
    {
        Self::new()
    }
}

/// A stopped manager ignores PID changes: once monitoring is off (as after
/// `bpf_off`, or before any successful `bpf_on`), adding or removing a PID
/// leaves every program and record as it was.
pub proof fn lemma_stopped_manager_ignores_pid_changes<M: PidFilterMap>(
    before: BpfManager<M>,
    after: BpfManager<M>,
    change: PidChange,
)
    requires
        !before.monitoring(),
        BpfManager::pid_change(before, after, change),
    ensures
        BpfManager::unchanged(before, after),
        !after.monitoring(),
{
}

/// A PID change never starts or stops a program: the manager monitors after
/// `add_pid` or `del_pid` exactly when it did before, and the schedstat
/// program runs afterwards exactly when it ran before.
pub proof fn lemma_pid_change_keeps_programs<M: PidFilterMap>(
    before: BpfManager<M>,
    after: BpfManager<M>,
    change: PidChange,
)
    requires
        BpfManager::pid_change(before, after, change),
    ensures
        after.monitoring() == before.monitoring(),
        after.schedstat_program() is Some <==> before.schedstat_program() is Some,
{
}

/// A PID change reaches the schedstat map only through the sigwait map:
/// whenever the schedstat map was asked, the sigwait map had accepted the
/// change and its filter took it.
pub proof fn lemma_schedstat_follows_sigwait<M: PidFilterMap>(
    before: BpfManager<M>,
    after: BpfManager<M>,
    change: PidChange,
)
    requires
        before.monitoring(),
        before.schedstat_program() is Some,
        BpfManager::pid_change(before, after, change),
    ensures
        after.schedstat_program()->0.history().len() > before.schedstat_program()->0.history().len()
            ==> {
            &&& after.sigwait_program()->0.history().last().1
            &&& after.sigwait_program()->0.filtered_pids() == apply_change(
                before.sigwait_program()->0.filtered_pids(),
                change,
            )
        },
{
}

/// Every request of a PID change carries that change (an add writes the
/// PID's entry, a remove deletes it), the first one goes to the sigwait map,
/// and a change takes at most two requests: nothing follows the schedstat
/// map's answer.
pub proof fn lemma_pid_change_requests<M>(m: BpfManager<M>, change: PidChange, ok: bool)
    ensures
        m.first_request(change) matches Some((kind, req)) ==> kind == ProgramKind::Sigwait && req
            == filter_request_spec(change),
        m.next_request(change, ProgramKind::Sigwait, ok) matches Some((kind, req)) ==> kind
            == ProgramKind::Schedstat && req == filter_request_spec(change),
        m.next_request(change, ProgramKind::Schedstat, ok) is None,
{
}

/// A PID change starts at the sigwait map whenever the sigwait program runs,
/// whatever the schedstat program's state and whatever the PID: an addition
/// writes the PID's entry with value 1, a removal deletes it. Without the
/// sigwait program no request is sent.
pub proof fn lemma_pid_change_starts_at_sigwait<M>(m: BpfManager<M>, change: PidChange)
    ensures
        m.sigwait_program() is Some ==> m.first_request(change) == Some(
            (
                ProgramKind::Sigwait,
                match change {
                    PidChange::Add(p) => FilterRequest::Update { key: p, value: 1u8 },
                    PidChange::Remove(p) => FilterRequest::Delete { key: p },
                },
            ),
        ),
        m.sigwait_program() is None ==> m.first_request(change) is None,
{
}

/// Once the sigwait map accepted a change, the same change goes to the
/// schedstat map exactly when the schedstat program runs, for additions and
/// removals alike and for every PID. A refusal by the sigwait map, or the
/// schedstat map's answer, ends the change.
pub proof fn lemma_schedstat_request_follows_acceptance<M>(
    m: BpfManager<M>,
    change: PidChange,
    kind: ProgramKind,
    ok: bool,
)
    ensures
        kind == ProgramKind::Sigwait && ok && m.schedstat_program() is Some ==> m.next_request(
            change,
            kind,
            ok,
        ) == Some(
            (
                ProgramKind::Schedstat,
                match change {
                    PidChange::Add(p) => FilterRequest::Update { key: p, value: 1u8 },
                    PidChange::Remove(p) => FilterRequest::Delete { key: p },
                },
            ),
        ),
        !(kind == ProgramKind::Sigwait && ok && m.schedstat_program() is Some) ==> m.next_request(
            change,
            kind,
            ok,
        ) is None,
{
}

} // verus!
