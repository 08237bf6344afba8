//! Verified core of the IdleScreen daemon and its saver runtime: the
//! shared-memory cell layout, the daemon/saver control protocol, the cell
//! renderer's data and resource decisions, the daemon's configuration
//! commands and presentation policy, and the D-Bus inhibitor bookkeeping.
pub mod auth;
pub mod bounds;
pub mod cell;
pub mod completion;
pub mod controller;
pub mod gpu_cells;
pub mod inhibit_watch;
pub mod pacing;
pub mod presentation;
pub mod protocol;
pub mod render_plan;
pub mod self_update;
pub mod text;

pub use bounds::MonitorCellBounds;
pub use cell::{compute_shm_size, FfiTerminalCell, SharedMemoryHeader, TerminalCell, SHM_MAGIC};
pub use protocol::{IpcCommand, IpcResponse};
