use timpani_n::error::{TimpaniError, TimpaniResult};
use timpani_n::manager::{keep_polling, BpfManager, PollOutcome, ProgramKind, RB_TIMEOUT_MS};
use timpani_n::pid_filter::{
    filter_request, FilterRequest, MockPidFilterMap, PidChange, PID_FILTER_VALUE,
};

type Manager = BpfManager<MockPidFilterMap>;

fn start_ok() -> TimpaniResult<MockPidFilterMap> {
    Ok(MockPidFilterMap::new())
}

fn start_fail() -> TimpaniResult<MockPidFilterMap> {
    Err(TimpaniError::Bpf)
}

/// Starts monitoring the way a caller does: sigwait first, schedstat only
/// when sigwait started.
fn bpf_on(
    manager: &mut Manager,
    sigwait: impl FnOnce() -> TimpaniResult<MockPidFilterMap>,
    schedstat: impl FnOnce() -> TimpaniResult<MockPidFilterMap>,
) -> TimpaniResult<()> {
    if manager.bpf_on(sigwait()) {
        manager.schedstat_on(schedstat());
    }
    Ok(())
}

fn contains(manager: &Manager, kind: ProgramKind, pid: i32) -> bool {
    manager.program(kind).unwrap().contains(pid)
}

#[test]
fn test_bpf_manager_creation() {
    let manager: Manager = BpfManager::new();
    drop(manager);
}

#[test]
fn test_bpf_manager_default_trait() {
    let manager: Manager = BpfManager::default();
    drop(manager);
}

#[test]
fn test_bpf_manager_add_del_pid_without_start() {
    let mut manager: Manager = BpfManager::new();
    assert!(manager.add_pid(1234).is_ok());
    assert!(manager.del_pid(1234).is_ok());
}

#[test]
fn test_bpf_manager_multiple_pid_operations() {
    let mut manager: Manager = BpfManager::new();
    for pid in 1000..1010 {
        assert!(manager.add_pid(pid).is_ok());
    }
    for pid in 1000..1010 {
        assert!(manager.del_pid(pid).is_ok());
    }
}

#[test]
fn test_bpf_manager_bpf_off_without_start() {
    let mut manager: Manager = BpfManager::new();
    manager.bpf_off();
}

#[test]
fn test_bpf_manager_drop_cleanup() {
    let manager: Manager = BpfManager::new();
    drop(manager);
}

#[test]
fn test_bpf_on_graceful_degradation() {
    let mut manager: Manager = BpfManager::new();
    // Loading fails (as without root), yet monitoring start reports success.
    let result = bpf_on(&mut manager, start_fail, start_fail);
    assert!(
        result.is_ok(),
        "bpf_on should succeed with graceful degradation"
    );
    assert!(manager.program(ProgramKind::Sigwait).is_none());
}

#[test]
fn test_bpf_manager_lifecycle() {
    let mut manager: Manager = BpfManager::new();

    let _ = bpf_on(&mut manager, start_ok, start_ok);

    let _ = manager.add_pid(1234);
    let _ = manager.add_pid(5678);

    manager.bpf_off();

    let _ = bpf_on(&mut manager, start_ok, start_ok);

    manager.bpf_off();
}

#[test]
fn test_bpf_manager_add_pid_zero() {
    let mut manager: Manager = BpfManager::new();
    assert!(manager.add_pid(0).is_ok());
    assert!(manager.del_pid(0).is_ok());
}

#[test]
fn test_bpf_manager_add_pid_negative() {
    let mut manager: Manager = BpfManager::new();
    assert!(manager.add_pid(-1).is_ok());
    assert!(manager.del_pid(-1).is_ok());
}

#[test]
fn test_bpf_manager_repeated_operations() {
    let mut manager: Manager = BpfManager::new();
    assert!(manager.add_pid(9999).is_ok());
    assert!(manager.add_pid(9999).is_ok());
    assert!(manager.del_pid(9999).is_ok());
    assert!(manager.del_pid(9999).is_ok());
}

#[test]
fn test_bpf_manager_pid_lifecycle_with_callbacks() {
    let mut manager: Manager = BpfManager::new();
    let self_pid: i32 = 31337;

    let _ = bpf_on(&mut manager, start_fail, start_fail);

    assert!(manager.add_pid(self_pid).is_ok());
    let ppid: i32 = 1;
    assert!(manager.add_pid(ppid).is_ok());

    assert!(manager.del_pid(self_pid).is_ok());
    assert!(manager.del_pid(ppid).is_ok());

    manager.bpf_off();
}

#[test]
fn test_bpf_timeout_constant() {
    assert_eq!(RB_TIMEOUT_MS, 100);
}

// ── further cases ────────────────────────────────────────────────────────

#[test]
fn running_manager_filters_pids_in_both_programs() {
    let mut manager: Manager = BpfManager::new();
    assert!(bpf_on(&mut manager, start_ok, start_ok).is_ok());
    assert!(manager.add_pid(42).is_ok());
    assert!(contains(&manager, ProgramKind::Sigwait, 42));
    assert!(contains(&manager, ProgramKind::Schedstat, 42));
    assert!(manager.del_pid(42).is_ok());
    assert!(!contains(&manager, ProgramKind::Sigwait, 42));
    assert!(!contains(&manager, ProgramKind::Schedstat, 42));
}

#[test]
fn schedstat_failure_keeps_sigwait_running() {
    let mut manager: Manager = BpfManager::new();
    assert!(bpf_on(&mut manager, start_ok, start_fail).is_ok());
    assert!(manager.program(ProgramKind::Sigwait).is_some());
    assert!(manager.program(ProgramKind::Schedstat).is_none());
    assert!(manager.add_pid(5).is_ok());
    assert!(contains(&manager, ProgramKind::Sigwait, 5));
}

#[test]
fn bpf_on_asks_for_schedstat_only_after_sigwait_started() {
    let mut manager: Manager = BpfManager::new();
    assert!(!manager.bpf_on(start_fail()));
    assert!(manager.program(ProgramKind::Sigwait).is_none());
    assert!(manager.bpf_on(start_ok()));
    assert!(manager.program(ProgramKind::Sigwait).is_some());
}

#[test]
fn failing_sigwait_map_stops_the_change_before_schedstat() {
    let mut manager: Manager = BpfManager::new();
    let mut refusing = MockPidFilterMap::new();
    refusing.set_should_fail(true);
    assert!(manager.bpf_on(Ok(refusing)));
    manager.schedstat_on(start_ok());
    assert!(manager.add_pid(3).is_ok());
    assert!(!contains(&manager, ProgramKind::Sigwait, 3));
    assert!(!contains(&manager, ProgramKind::Schedstat, 3));
}

#[test]
fn bpf_off_hands_back_running_programs_and_stops_filtering() {
    let mut manager: Manager = BpfManager::new();
    assert!(bpf_on(&mut manager, start_ok, start_ok).is_ok());
    assert!(manager.add_pid(11).is_ok());
    let (sigwait, schedstat) = manager.bpf_off();
    assert!(sigwait.unwrap().contains(11));
    assert!(schedstat.unwrap().contains(11));
    assert!(manager.program(ProgramKind::Sigwait).is_none());
    // A stopped manager ignores PID changes.
    assert!(manager.add_pid(12).is_ok());
    assert!(manager.begin_pid_change(PidChange::Add(12)).is_none());
    let (again_sigwait, again_schedstat) = manager.bpf_off();
    assert!(again_sigwait.is_none());
    assert!(again_schedstat.is_none());
}

#[test]
fn poll_loop_decisions() {
    assert!(keep_polling(PollOutcome::Polled));
    assert!(keep_polling(PollOutcome::Interrupted));
    assert!(!keep_polling(PollOutcome::Failed));
}

#[test]
fn filter_requests_carry_the_change() {
    assert_eq!(
        filter_request(PidChange::Add(7)),
        FilterRequest::Update {
            key: 7,
            value: PID_FILTER_VALUE
        }
    );
    assert_eq!(PID_FILTER_VALUE, 1);
    assert_eq!(
        filter_request(PidChange::Remove(-3)),
        FilterRequest::Delete { key: -3 }
    );
}

/// A map kept by the caller, standing for a kernel map that refuses every
/// second request.
struct FlakyMap {
    pids: Vec<i32>,
    sent: Vec<FilterRequest>,
}

impl FlakyMap {
    fn new() -> Self {
        FlakyMap {
            pids: Vec::new(),
            sent: Vec::new(),
        }
    }

    fn perform(&mut self, req: FilterRequest) -> TimpaniResult<()> {
        self.sent.push(req);
        if self.sent.len() % 2 == 0 {
            return Err(TimpaniError::Bpf);
        }
        match req {
            FilterRequest::Update { key, .. } => {
                if !self.pids.contains(&key) {
                    self.pids.push(key);
                }
            }
            FilterRequest::Delete { key } => self.pids.retain(|p| *p != key),
        }
        Ok(())
    }
}

/// Runs a PID change through caller-kept maps, step by step.
fn run_change(manager: &mut BpfManager<FlakyMap>, maps: &mut [FlakyMap; 2], change: PidChange) {
    let mut next = manager.begin_pid_change(change);
    while let Some((kind, req)) = next {
        let index = match kind {
            ProgramKind::Sigwait => 0,
            ProgramKind::Schedstat => 1,
        };
        assert!(manager.program(kind).is_some());
        let ok = maps[index].perform(req).is_ok();
        next = manager.pid_change_answered(change, kind, ok);
    }
}

#[test]
fn caller_kept_maps_follow_the_steps() {
    let mut manager: BpfManager<FlakyMap> = BpfManager::new();
    let mut maps = [FlakyMap::new(), FlakyMap::new()];
    assert!(manager.bpf_on(Ok(FlakyMap::new())));
    manager.schedstat_on(Ok(FlakyMap::new()));
    // first change: both maps accept
    run_change(&mut manager, &mut maps, PidChange::Add(1));
    // second change: the sigwait map refuses, the schedstat map is not asked
    run_change(&mut manager, &mut maps, PidChange::Add(2));
    assert_eq!(maps[0].pids, vec![1]);
    assert_eq!(maps[1].pids, vec![1]);
    assert_eq!(maps[1].sent.len(), 1);
    // third change: the sigwait map accepts, the schedstat map refuses
    run_change(&mut manager, &mut maps, PidChange::Remove(1));
    assert_eq!(maps[0].pids, Vec::<i32>::new());
    assert_eq!(maps[1].pids, vec![1]);
    assert_eq!(
        maps[0].sent,
        vec![
            FilterRequest::Update { key: 1, value: 1 },
            FilterRequest::Update { key: 2, value: 1 },
            FilterRequest::Delete { key: 1 },
        ]
    );
}
