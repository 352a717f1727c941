//! PID filter maps: the kernel-side sets of PIDs whose events the BPF
//! programs report, an in-memory map with the same behaviour that can be
//! made to fail on demand, and the requests that kernel maps are sent.

use std::collections::HashSet;
use vstd::prelude::*;

use crate::error::{TimpaniError, TimpaniResult};

verus! {

broadcast use vstd::std_specs::hash::group_hash_axioms;

/// A change requested of a PID filter map.
#[derive(Debug, Clone, Copy, PartialEq, Eq, Structural)]
pub enum PidChange {
    Add(i32),
    Remove(i32),
}

/// The filter after `change` was carried out on `pids`.
pub open spec fn apply_change(pids: Set<i32>, change: PidChange) -> Set<i32> {
    match change {
        PidChange::Add(pid) => pids.insert(pid),
        PidChange::Remove(pid) => pids.remove(pid),
    }
}

/// PID filter map operations: the BPF programs only report events of the
/// PIDs in the map.
///
/// Besides its filter, a map is seen through the history of the requests
/// handed to it, each with whether it succeeded.
pub trait PidFilterMap {
    /// The PIDs that the map currently lets through.
    spec fn filtered_pids(&self) -> Set<i32>;

    /// Every request handed to this map, oldest first, with its success.
    spec fn history(&self) -> Seq<(PidChange, bool)>;

    /// Lets `pid` through. On failure the map is left as it was.
    fn update_pid(&mut self, pid: i32) -> (r: TimpaniResult<()>)
        ensures
            final(self).history() == old(self).history().push((PidChange::Add(pid), r is Ok)),
            final(self).filtered_pids() == if r is Ok {
                old(self).filtered_pids().insert(pid)
            } else {
                old(self).filtered_pids()
            },
    ;

    /// Stops letting `pid` through. On failure the map is left as it was.
    fn delete_pid(&mut self, pid: i32) -> (r: TimpaniResult<()>)
        ensures
            final(self).history() == old(self).history().push((PidChange::Remove(pid), r is Ok)),
            final(self).filtered_pids() == if r is Ok {
                old(self).filtered_pids().remove(pid)
            } else {
                old(self).filtered_pids()
            },
    ;
}

/// `after` is `before` once it answered `change`: one more request in its
/// history, and its filter changed by it exactly when it succeeded.
pub open spec fn answered<M: PidFilterMap>(before: M, after: M, change: PidChange) -> bool {
    &&& after.history().len() == before.history().len() + 1
    &&& after.history().drop_last() == before.history()
    &&& after.history().last().0 == change
    &&& after.filtered_pids() == if after.history().last().1 {
        apply_change(before.filtered_pids(), change)
    } else {
        before.filtered_pids()
    }
}

/// An in-memory PID filter map, for running without BPF permissions.
/// While `should_fail` is set, every update and delete fails with
/// `TimpaniError::Bpf` and leaves the set alone.
pub struct MockPidFilterMap {
    pids: HashSet<i32>,
    should_fail: bool,
    requests: Ghost<Seq<(PidChange, bool)>>,
}

impl View for MockPidFilterMap {
    type V = Set<i32>;

    closed spec fn view(&self) -> Set<i32> {
        self.pids@
    }
}

impl MockPidFilterMap {
    #[verifier::type_invariant]
    closed spec fn wf(self) -> bool {
        self.pids@.finite()
    }

    /// Whether updates and deletes currently fail.
    pub closed spec fn fails(&self) -> bool {
        self.should_fail
    }

    pub closed spec fn requests(&self) -> Seq<(PidChange, bool)> {
        self.requests@
    }

    pub fn new() -> (m: Self)
        ensures
            m@ == Set::<i32>::empty(),
            !m.fails(),
            m.requests() == Seq::<(PidChange, bool)>::empty(),
    {
        MockPidFilterMap { pids: HashSet::new(), should_fail: false, requests: Ghost(Seq::empty()) }
    }

    /// Makes the following updates and deletes fail (`true`) or work (`false`).
    pub fn set_should_fail(&mut self, fail: bool)
        ensures
            final(self)@ == old(self)@,
            final(self).fails() == fail,
            final(self).requests() == old(self).requests(),
    {
        proof {
            use_type_invariant(&*self);
        }
        self.should_fail = fail;
    }

    pub fn contains(&self, pid: i32) -> (r: bool)
        ensures
            r == self@.contains(pid),
    {
        self.pids.contains(&pid)
    }

    pub fn len(&self) -> (n: usize)
        ensures
            n == self@.len(),
    {
        self.pids.len()
    }
}

impl PidFilterMap for MockPidFilterMap {
    open spec fn filtered_pids(&self) -> Set<i32> {
        self@
    }

    open spec fn history(&self) -> Seq<(PidChange, bool)> {
        self.requests()
    }

    fn update_pid(&mut self, pid: i32) -> (r: TimpaniResult<()>)
        ensures
            r is Err <==> old(self).fails(),
            r matches Err(e) ==> e == TimpaniError::Bpf,
            final(self).fails() == old(self).fails(),
            r is Ok ==> final(self)@.len() == old(self)@.len() + if old(self)@.contains(pid) {
                0int
            } else {
                1int
            },
    {
        proof {
            use_type_invariant(&*self);
        }
        let mut taken = MockPidFilterMap::new();
        std::mem::swap(self, &mut taken);
        proof {
            use_type_invariant(&taken);
        }
        let MockPidFilterMap { mut pids, should_fail, requests } = taken;
        if should_fail {
            *self = MockPidFilterMap {
                pids,
                should_fail,
                requests: Ghost(requests@.push((PidChange::Add(pid), false))),
            };
            return Err(TimpaniError::Bpf);
        }
        pids.insert(pid);
        *self = MockPidFilterMap {
            pids,
            should_fail,
            requests: Ghost(requests@.push((PidChange::Add(pid), true))),
        };
        Ok(())
    }

    fn delete_pid(&mut self, pid: i32) -> (r: TimpaniResult<()>)
        ensures
            r is Err <==> old(self).fails(),
            r matches Err(e) ==> e == TimpaniError::Bpf,
            final(self).fails() == old(self).fails(),
            r is Ok ==> final(self)@.len() == old(self)@.len() - if old(self)@.contains(pid) {
                1int
            } else {
                0int
            },
    {
        proof {
            use_type_invariant(&*self);
        }
        let mut taken = MockPidFilterMap::new();
        std::mem::swap(self, &mut taken);
        proof {
            use_type_invariant(&taken);
        }
        let MockPidFilterMap { mut pids, should_fail, requests } = taken;
        if should_fail {
            *self = MockPidFilterMap {
                pids,
                should_fail,
                requests: Ghost(requests@.push((PidChange::Remove(pid), false))),
            };
            return Err(TimpaniError::Bpf);
        }
        pids.remove(&pid);
        *self = MockPidFilterMap {
            pids,
            should_fail,
            requests: Ghost(requests@.push((PidChange::Remove(pid), true))),
        };
        Ok(())
    }
}

/// The value stored for a PID in a kernel PID filter map: present means
/// "report this PID".
pub const PID_FILTER_VALUE: u8 = 1;

/// A request to a kernel PID filter map, keyed by PID.
#[derive(Debug, Clone, Copy, PartialEq, Eq, Structural)]
pub enum FilterRequest {
    /// Insert or overwrite the entry `key` with `value`.
    Update { key: i32, value: u8 },
    /// Remove the entry `key`.
    Delete { key: i32 },
}

/// The request that carries out `change` on a kernel PID filter map.
pub open spec fn filter_request_spec(change: PidChange) -> FilterRequest {
    match change {
        PidChange::Add(pid) => FilterRequest::Update { key: pid, value: PID_FILTER_VALUE },
        PidChange::Remove(pid) => FilterRequest::Delete { key: pid },
    }
}

/// The request that carries out `change` on a kernel PID filter map: an
/// add writes the PID's entry, a remove deletes it.
pub fn filter_request(change: PidChange) -> (req: FilterRequest)
    ensures
        req == filter_request_spec(change),
{
    match change {
        PidChange::Add(pid) => FilterRequest::Update { key: pid, value: PID_FILTER_VALUE },
        PidChange::Remove(pid) => FilterRequest::Delete { key: pid },
    }
}

} // verus!
