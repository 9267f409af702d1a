//! The bus capability that an executor of signals drives.

use vstd::prelude::*;

verus! {

/// An 8-bit bidirectional parallel port.
pub trait ParallelBus {
    /// What a failed read reports.
    type Error;

    /// Puts a byte on the bus. The bus is in output direction.
    fn write(&mut self, value: u8);

    /// Takes the byte that is on the bus. The bus is in input direction.
    fn read(&mut self) -> Result<u8, Self::Error>;

    /// Turns the bus to input.
    fn set_input(&mut self);

    /// Turns the bus to output.
    fn set_output(&mut self);
}

} // verus!
