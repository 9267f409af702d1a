//! What travels over the wires: electrical signals, and the protocol
//! transfers that they make up.

use vstd::prelude::*;
use crate::command::Command;

verus! {

/// Least nanoseconds between presenting a byte and asserting the write
/// strobe.
pub const WRITE_SETUP_NS: u32 = 10;

/// Least nanoseconds for which the write strobe stays asserted.
pub const WRITE_HOLD_NS: u32 = 150;

/// Least nanoseconds between asserting the read strobe and sampling the
/// bus.
pub const READ_SETUP_NS: u32 = 30;

/// Least nanoseconds between sampling the bus and releasing the read
/// strobe.
pub const READ_HOLD_NS: u32 = 30;

/// Milliseconds for which the reset line is held low.
pub const RESET_HOLD_MS: u32 = 10;

/// Milliseconds that the controller needs to settle after a reset.
pub const RESET_SETTLE_MS: u32 = 3;

/// The digital outputs that gate the bus.
#[derive(Debug, Clone, Copy, PartialEq, Eq, Structural)]
pub enum Line {
    /// Active-low chip select.
    ChipSelect,
    /// Active-low hardware reset.
    Reset,
    /// Tells the controller whether the byte on the bus is an op-code.
    RegisterSelect,
    /// Active-low write strobe.
    WriteStrobe,
    /// Active-low read strobe.
    ReadStrobe,
}

/// One action on a pin, on the bus or on the timer.
#[derive(Debug, Clone, Copy, PartialEq, Eq, Structural)]
pub enum Signal {
    /// Drive a control line high.
    High(Line),
    /// Drive a control line low.
    Low(Line),
    /// Put a byte on the bus.
    Present(u8),
    /// Turn the bus to input.
    BusInput,
    /// Turn the bus to output.
    BusOutput,
    /// Read the byte that is on the bus.
    Sample,
    /// Block for at least so many nanoseconds.
    DelayNs(u32),
    /// Block for at least so many milliseconds.
    DelayMs(u32),
}

/// One byte handed to the controller, or taken from it.
#[derive(Debug, Clone, Copy, PartialEq, Eq, Structural)]
pub enum Transfer {
    /// An op-code.
    Command(Command),
    /// A parameter or a byte of display memory.
    Data(u8),
    /// A byte of display memory, read at the cursor.
    Read,
}

/// The delays of the bus cycles, in nanoseconds.
#[derive(Debug, Clone, Copy, PartialEq, Eq, Structural)]
pub struct Timing {
    /// Between presenting a byte and asserting the write strobe.
    pub write_setup_ns: u32,
    /// For which the write strobe stays asserted.
    pub write_hold_ns: u32,
    /// Between asserting the read strobe and sampling the bus.
    pub read_setup_ns: u32,
    /// Between sampling the bus and releasing the read strobe.
    pub read_hold_ns: u32,
}

impl Timing {
    /// No delay is shorter than the controller needs.
    pub open spec fn sufficient(self) -> bool {
        &&& self.write_setup_ns >= WRITE_SETUP_NS
        &&& self.write_hold_ns >= WRITE_HOLD_NS
        &&& self.read_setup_ns >= READ_SETUP_NS
        &&& self.read_hold_ns >= READ_HOLD_NS
    }

    /// The shortest delays that the controller accepts.
    pub open spec fn shortest() -> Timing {
        Timing {
            write_setup_ns: WRITE_SETUP_NS,
            write_hold_ns: WRITE_HOLD_NS,
            read_setup_ns: READ_SETUP_NS,
            read_hold_ns: READ_HOLD_NS,
        }
    }

    /// The shortest delays that the controller accepts.
    pub fn minimum() -> (timing: Timing)
        ensures
            timing == Timing::shortest(),
            timing.sufficient(),
    {
        Timing {
            write_setup_ns: WRITE_SETUP_NS,
            write_hold_ns: WRITE_HOLD_NS,
            read_setup_ns: READ_SETUP_NS,
            read_hold_ns: READ_HOLD_NS,
        }
    }

    /// Whether no delay is shorter than the controller needs.
    pub fn is_sufficient(&self) -> (yes: bool)
        ensures
            yes == self.sufficient(),
    {
        self.write_setup_ns >= WRITE_SETUP_NS && self.write_hold_ns >= WRITE_HOLD_NS
            && self.read_setup_ns >= READ_SETUP_NS && self.read_hold_ns >= READ_HOLD_NS
    }
}

/// The signals that hand one byte to the controller: the register-select
/// level, the byte, the setup time, and the write strobe held for the hold
/// time.
pub open spec fn write_cycle(timing: Timing, select_high: bool, byte: u8) -> Seq<Signal> {
    seq![
        if select_high {
            Signal::High(Line::RegisterSelect)
        } else {
            Signal::Low(Line::RegisterSelect)
        },
        Signal::Present(byte),
        Signal::DelayNs(timing.write_setup_ns),
        Signal::Low(Line::WriteStrobe),
        Signal::DelayNs(timing.write_hold_ns),
        Signal::High(Line::WriteStrobe),
    ]
}

/// The signals of a command transfer: register select is high.
pub open spec fn command_cycle(timing: Timing, command: Command) -> Seq<Signal> {
    write_cycle(timing, true, command.opcode())
}

/// The signals of a data transfer: register select is low.
pub open spec fn data_cycle(timing: Timing, byte: u8) -> Seq<Signal> {
    write_cycle(timing, false, byte)
}

/// The signals that take one byte from the controller. Register select
/// is low, as for a data transfer. The bus is turned to input before the
/// strobe and back to output behind it, whatever the sample gave.
pub open spec fn read_cycle(timing: Timing) -> Seq<Signal> {
    seq![
        Signal::BusInput,
        Signal::Low(Line::RegisterSelect),
        Signal::Low(Line::ReadStrobe),
        Signal::DelayNs(timing.read_setup_ns),
        Signal::Sample,
        Signal::DelayNs(timing.read_hold_ns),
        Signal::High(Line::ReadStrobe),
        Signal::BusOutput,
    ]
}

/// The signals of one transfer.
pub open spec fn transfer_cycle(timing: Timing, transfer: Transfer) -> Seq<Signal> {
    match transfer {
        Transfer::Command(command) => command_cycle(timing, command),
        Transfer::Data(byte) => data_cycle(timing, byte),
        Transfer::Read => read_cycle(timing),
    }
}

/// The signals of a program: the cycle of each transfer, in order.
pub open spec fn program_signals(timing: Timing, program: Seq<Transfer>) -> Seq<Signal>
    decreases program.len(),
{
    if program.len() == 0 {
        Seq::empty()
    } else {
        program_signals(timing, program.drop_last()) + transfer_cycle(timing, program.last())
    }
}

/// What a cycle has come to after one more of its signals: the first
/// failure stays; short of a failure, the byte sampled last stays.
pub open spec fn outcome_after<E>(
    outcome: Result<Option<u8>, E>,
    event: Result<Option<u8>, E>,
) -> Result<Option<u8>, E> {
    match outcome {
        Err(failure) => outcome,
        Ok(kept) => match event {
            Err(failure) => event,
            Ok(Some(byte)) => event,
            Ok(None) => outcome,
        },
    }
}

/// What a cycle comes to whose signals gave `events`, in order.
pub open spec fn cycle_outcome<E>(events: Seq<Result<Option<u8>, E>>) -> Result<Option<u8>, E>
    decreases events.len(),
{
    if events.len() == 0 {
        Ok(None)
    } else {
        outcome_after(cycle_outcome(events.drop_last()), events.last())
    }
}

/// Takes what one signal of a cycle gave into account: `outcome` is what
/// the cycle had come to before it, `event` what the signal gave. Every
/// signal of a cycle is performed, whatever the ones before it gave, so
/// that a read releases its strobe and the bus after a failed sample too;
/// of several failures the first is kept.
pub fn after_signal<E>(outcome: Result<Option<u8>, E>, event: Result<Option<u8>, E>) -> (next:
    Result<Option<u8>, E>)
    ensures
        next == outcome_after(outcome, event),
        outcome is Err ==> next == outcome,
        outcome is Ok && event is Err ==> next == event,
        outcome is Ok && event is Ok && event->Ok_0 is Some ==> next == event,
        outcome is Ok && event is Ok && event->Ok_0 is None ==> next == outcome,
{
    match outcome {
        Err(failure) => Err(failure),
        Ok(kept) => match event {
            Err(failure) => Err(failure),
            Ok(Some(byte)) => Ok(Some(byte)),
            Ok(None) => Ok(kept),
        },
    }
}

/// A read cycle hands back what its sample gave. Where the sample is the
/// only signal that gives anything, the cycle comes to the sampled byte,
/// or to the sample's failure, and the signals behind the sample, which
/// release the strobe and the bus, have been performed either way.
pub proof fn lemma_read_cycle_reports_sample<E>(
    timing: Timing,
    events: Seq<Result<Option<u8>, E>>,
    sampled: Result<u8, E>,
)
    requires
        events.len() == read_cycle(timing).len(),
        forall|k: int|
            0 <= k < events.len() && read_cycle(timing)[k] != Signal::Sample ==> events[k] == Ok::<
                Option<u8>,
                E,
            >(None),
        forall|k: int|
            0 <= k < events.len() && read_cycle(timing)[k] == Signal::Sample ==> events[k]
                == match sampled {
                Ok(byte) => Ok::<Option<u8>, E>(Some(byte)),
                Err(failure) => Err::<Option<u8>, E>(failure),
            },
    ensures
        cycle_outcome(events) == match sampled {
            Ok(byte) => Ok::<Option<u8>, E>(Some(byte)),
            Err(failure) => Err::<Option<u8>, E>(failure),
        },
        read_cycle(timing).last() == Signal::BusOutput,
{
    let cycle = read_cycle(timing);
    assert(cycle.len() == 8);
    assert(cycle[4] == Signal::Sample);
    assert(cycle[0] != Signal::Sample && cycle[1] != Signal::Sample && cycle[2] != Signal::Sample
        && cycle[3] != Signal::Sample && cycle[5] != Signal::Sample && cycle[6] != Signal::Sample
        && cycle[7] != Signal::Sample);
    let e7 = events;
    let e6 = e7.drop_last();
    let e5 = e6.drop_last();
    let e4 = e5.drop_last();
    let e3 = e4.drop_last();
    let e2 = e3.drop_last();
    let e1 = e2.drop_last();
    let e0 = e1.drop_last();
    let none = e0.drop_last();
    assert(none.len() == 0);
    assert(e0.last() == events[0] && e1.last() == events[1] && e2.last() == events[2] && e3.last()
        == events[3] && e4.last() == events[4] && e5.last() == events[5] && e6.last() == events[6]
        && e7.last() == events[7]);
    reveal_with_fuel(cycle_outcome, 10);
}

/// The signals that select the chip and reset it: chip select low, the bus
/// turned to output, then the reset line low for the hold time and high
/// for the settle time.
pub open spec fn reset_signals() -> Seq<Signal> {
    seq![
        Signal::Low(Line::ChipSelect),
        Signal::BusOutput,
        Signal::Low(Line::Reset),
        Signal::DelayMs(RESET_HOLD_MS),
        Signal::High(Line::Reset),
        Signal::DelayMs(RESET_SETTLE_MS),
    ]
}

/// The low eight bits of a 16-bit value.
pub open spec fn low_byte(value: u16) -> u8 {
    (value & 0xFF) as u8
}

/// The high eight bits of a 16-bit value.
pub open spec fn high_byte(value: u16) -> u8 {
    (value >> 8) as u8
}

/// The low eight bits of `value`.
pub fn low_byte_of(value: u16) -> (byte: u8)
    ensures
        byte == low_byte(value),
        byte == value & 0xFF,
        byte == value % 256,
{
    assert(value & 0xFF <= 0xFF && value & 0xFF == value % 256) by (bit_vector);
    (value & 0xFF) as u8
}

/// The high eight bits of `value`.
pub fn high_byte_of(value: u16) -> (byte: u8)
    ensures
        byte == high_byte(value),
        byte == value >> 8,
        byte == value / 256,
{
    assert(value >> 8 <= 0xFF && value >> 8 == value / 256) by (bit_vector);
    (value >> 8) as u8
}

} // verus!
