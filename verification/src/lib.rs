//! Protocol layer for the RA8835A dot-matrix LCD controller on an 8080-style
//! 8-bit parallel bus.
//!
//! The crate computes what has to travel over the wires and leaves the wires
//! themselves to the caller: every operation of the driver returns the exact
//! sequence of protocol transfers, or of electrical signals, that carries it
//! out. An executor walks such a sequence and drives its pins, its bus and its
//! timer accordingly.

pub mod bus;
pub mod chip;
pub mod command;
pub mod drawing;
pub mod driver;
pub mod geometry;
pub mod signal;

pub use bus::ParallelBus;
pub use command::Command;
pub use driver::RA8835A;
pub use geometry::{Config, GeometryError};
pub use signal::{after_signal, Line, Signal, Timing, Transfer};
