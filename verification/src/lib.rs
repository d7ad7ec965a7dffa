//! Client-side transport layer for a kernel-resident virtual game-controller
//! bus: wire formats for the control requests exchanged with the bus driver,
//! bit-packed input report payloads for the two supported controller kinds,
//! slot bookkeeping for plugged-in targets, and the timing heuristic used to
//! decide when a freshly plugged device is ready for input updates.

pub mod client;
pub mod ds4;
pub mod errors;
pub mod ioctl;
pub mod readiness;
pub mod registry;
pub mod target;
pub mod workers;
pub mod x360;

pub use client::ClientBuilder;
pub use errors::{BusError, ClientError, OsError};
pub use ioctl::ctl_code;
pub use readiness::{PollOutcome, ReadyState, TimedEvent};
pub use registry::TargetRegistry;
pub use target::{DualShock4, Target, TargetType, Xbox360};
pub use x360::{X360Notification, X360Report};
