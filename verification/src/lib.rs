//! Register-access layer for a battery management unit that speaks Modbus RTU
//! over a shared RS-485 line.
//!
//! The crate holds the protocol knowledge: which holding register carries
//! which physical quantity, how the returned words are laid out, how they are
//! scaled, and in which order a full snapshot is collected. It performs no
//! I/O itself. A caller executes each [`Request`] on the bus, under exclusive
//! access to the port, and hands the outcome back.

pub mod battery;
pub mod bus;
pub mod device;
pub mod error;
pub mod reading;
pub mod register;
pub mod snapshot;
pub mod word;

pub use battery::{Battery, Outcome, Reply, Request};
pub use bus::BusOp;
pub use error::{Error, OpenFailure, OpenFailureKind};
pub use reading::Reading;
pub use register::{Quantity, Register, Scale};
pub use snapshot::{BatteryState, Progress, ReadAll};
