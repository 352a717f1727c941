//! Verified core of the timpani node agent's BPF monitoring: event decoding
//! from ring-buffer bytes, PID filter maps, the BPF program lifecycle, the
//! monotonic-to-realtime clock calibration and the real-time loop's timing
//! decisions.

pub mod clock;
pub mod error;
pub mod events;
pub mod manager;
pub mod pid_filter;
pub mod rt;

pub use events::{SchedstatCallback, SchedstatEvent, SigwaitCallback, SigwaitEvent};
pub use manager::BpfManager;
