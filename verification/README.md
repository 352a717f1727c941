# timpani-n core

The verified core of the timpani node agent's BPF monitoring, written in
Verus.

- `src/events.rs` — the sigwait and schedstat event records and their
  decoding from ring-buffer bytes, with the C layout stated and proved.
- `src/pid_filter.rs` — PID filter maps: the contract that every map meets,
  an in-memory map, and the requests that kernel maps are sent.
- `src/manager.rs` — which BPF programs run and where PID changes go, with
  graceful degradation on every failure. Starting programs and talking to
  kernel maps are done by the caller step by step: the manager hands out
  the next request and records each answer.
- `src/clock.rs` — the CLOCK_MONOTONIC → CLOCK_REALTIME calibration and the
  timestamp conversion.
- `src/rt.rs` — the real-time loop's timing decisions and the hyperperiod
  bookkeeping.
- `app/` — the runtime around it: clock reads, loading the BPF objects (from
  a directory given to `BpfMonitor::new`) and polling their ring buffers, and
  the tokio timer tasks.

The filter-map operations and the manager's PID operations take `&mut self`:
Verus checks exclusive access rather than interior mutability, so callers
that share a manager or a map between threads put it behind a lock.
