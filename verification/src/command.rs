//! The controller's command set.

use vstd::prelude::*;

verus! {

/// The op-codes that the controller understands.
#[derive(Debug, Clone, Copy, PartialEq, Eq, Structural)]
pub enum Command {
    /// Initialize device and display.
    SystemSet,
    /// Enter standby mode.
    SleepIn,
    /// Display off.
    DisplayOff,
    /// Display on.
    DisplayOn,
    /// Set display start address and display memory regions.
    Scroll,
    /// Set cursor type.
    CsrForm,
    /// Set start address of character generator RAM.
    CgRamAdr,
    /// Cursor moves right after each transfer.
    CsrDirRight,
    /// Cursor moves left after each transfer.
    CsrDirLeft,
    /// Cursor moves up after each transfer.
    CsrDirUp,
    /// Cursor moves down after each transfer.
    CsrDirDown,
    /// Set horizontal scroll position.
    HdotScr,
    /// Set display overlay format.
    Ovlay,
    /// Set cursor address.
    Csrw,
    /// Read cursor address.
    Csrr,
    /// Write to display memory.
    Mwrite,
    /// Read from display memory.
    Mread,
}

impl Command {
    /// The byte that the datasheet assigns to the command.
    pub open spec fn opcode(self) -> u8 {
        match self {
            Command::SystemSet => 0x40,
            Command::SleepIn => 0x53,
            Command::DisplayOff => 0x58,
            Command::DisplayOn => 0x59,
            Command::Scroll => 0x44,
            Command::CsrForm => 0x5D,
            Command::CgRamAdr => 0x5C,
            Command::CsrDirRight => 0x4C,
            Command::CsrDirLeft => 0x4D,
            Command::CsrDirUp => 0x4E,
            Command::CsrDirDown => 0x4F,
            Command::HdotScr => 0x5A,
            Command::Ovlay => 0x5B,
            Command::Csrw => 0x46,
            Command::Csrr => 0x47,
            Command::Mwrite => 0x42,
            Command::Mread => 0x43,
        }
    }

    /// The command's op-code, as it is put on the bus.
    pub fn code(self) -> (byte: u8)
        ensures
            byte == self.opcode(),
    {
        match self {
            Command::SystemSet => 0x40,
            Command::SleepIn => 0x53,
            Command::DisplayOff => 0x58,
            Command::DisplayOn => 0x59,
            Command::Scroll => 0x44,
            Command::CsrForm => 0x5D,
            Command::CgRamAdr => 0x5C,
            Command::CsrDirRight => 0x4C,
            Command::CsrDirLeft => 0x4D,
            Command::CsrDirUp => 0x4E,
            Command::CsrDirDown => 0x4F,
            Command::HdotScr => 0x5A,
            Command::Ovlay => 0x5B,
            Command::Csrw => 0x46,
            Command::Csrr => 0x47,
            Command::Mwrite => 0x42,
            Command::Mread => 0x43,
        }
    }

    /// The command that a byte stands for, if it stands for one.
    pub fn from_code(byte: u8) -> (found: Option<Command>)
        ensures
            match found {
                Some(command) => command.opcode() == byte,
                None => forall|command: Command| command.opcode() != byte,
            },
    {
        match byte {
            0x40 => Some(Command::SystemSet),
            0x53 => Some(Command::SleepIn),
            0x58 => Some(Command::DisplayOff),
            0x59 => Some(Command::DisplayOn),
            0x44 => Some(Command::Scroll),
            0x5D => Some(Command::CsrForm),
            0x5C => Some(Command::CgRamAdr),
            0x4C => Some(Command::CsrDirRight),
            0x4D => Some(Command::CsrDirLeft),
            0x4E => Some(Command::CsrDirUp),
            0x4F => Some(Command::CsrDirDown),
            0x5A => Some(Command::HdotScr),
            0x5B => Some(Command::Ovlay),
            0x46 => Some(Command::Csrw),
            0x47 => Some(Command::Csrr),
            0x42 => Some(Command::Mwrite),
            0x43 => Some(Command::Mread),
            _ => None,
        }
    }
}

} // verus!
