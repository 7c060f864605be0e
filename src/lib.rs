//! Core of an interactive process monitor: usage arithmetic, the process
//! records and their filtered view, the selection state machine, snapshot
//! holders and the process controller.

pub mod columns;
pub mod control;
pub mod cpu;
pub mod model;
pub mod selection;
pub mod snapshot;
pub mod tabs;
pub mod usage;

pub use control::{
    change_priority, kill_process, killall, resume_process, suspend_process, terminate_process,
    ControlError,
};
pub use model::{CpuCoreUsage, DiskStats, MemoryStats, ProbeError, ProcessRecord};
pub use selection::{App, AppState};
pub use tabs::SelectedTab;
