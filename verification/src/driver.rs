//! The driver: every display operation as the transfers that carry it out.

use vstd::prelude::*;
use vstd::string::StringSliceAdditionalSpecFns;
use crate::command::Command;
use crate::geometry::Config;
use crate::signal::{
    command_cycle, data_cycle, high_byte, high_byte_of, low_byte, low_byte_of, read_cycle,
    program_signals, reset_signals, transfer_cycle, Line, Signal, Timing, Transfer, RESET_HOLD_MS,
    RESET_SETTLE_MS,
};

verus! {

/// Fixed first parameter of the system-set command.
pub const SYSTEM_CONTROL: u8 = 0x30;

/// What the text control register holds above the column register.
pub const TEXT_CONTROL_MARGIN: u8 = 4;

/// Memory spans of the size of one bit plane that a clear writes zero to.
pub const CLEARED_PLANES: u64 = 3;

/// Parameter of display-off: both layers enabled, cursor flashing.
pub const DISPLAY_ATTRIBUTES: u8 = 0x3F;

/// First parameter of cursor-form: the cursor's width in pixels, less one.
pub const CURSOR_WIDTH: u8 = 0x05;

/// Bit of the second parameter of cursor-form that asks for a block cursor.
pub const BLOCK_CURSOR: u8 = 0x80;

/// The transfers that move the cursor: the cursor-write command, then the
/// address, low byte first.
pub open spec fn cursor_program(address: u16) -> Seq<Transfer> {
    seq![
        Transfer::Command(Command::Csrw),
        Transfer::Data(low_byte(address)),
        Transfer::Data(high_byte(address)),
    ]
}

/// The system-set command with its eight parameters.
pub open spec fn system_set_program(config: Config) -> Seq<Transfer> {
    let columns = config.spec_column_register() as u8;
    seq![
        Transfer::Command(Command::SystemSet),
        Transfer::Data(SYSTEM_CONTROL),
        Transfer::Data((config.font_width - 1) as u8),
        Transfer::Data((config.font_height - 1) as u8),
        Transfer::Data(columns),
        Transfer::Data((columns + TEXT_CONTROL_MARGIN) as u8),
        Transfer::Data(low_byte((config.screen_height - 1) as u16)),
        Transfer::Data(columns),
        Transfer::Data(columns),
    ]
}

/// The scroll command, which lays out the two layers: for the text layer
/// and then for the graphics layer the start address, low byte first, and
/// the height in lines.
pub open spec fn layers_program(config: Config) -> Seq<Transfer> {
    seq![
        Transfer::Command(Command::Scroll),
        Transfer::Data(low_byte(config.text_layer_start)),
        Transfer::Data(high_byte(config.text_layer_start)),
        Transfer::Data(low_byte(config.screen_height)),
        Transfer::Data(low_byte(config.graphics_layer_start)),
        Transfer::Data(high_byte(config.graphics_layer_start)),
        Transfer::Data(low_byte(config.screen_height)),
    ]
}

/// Bytes in one line of a bit plane.
pub open spec fn bytes_per_line(config: Config) -> int {
    config.screen_width as int / 8
}

/// Bytes that a clear writes zero to.
pub open spec fn cleared_bytes(config: Config) -> int {
    bytes_per_line(config) * config.screen_height * CLEARED_PLANES
}

/// The transfers that zero the display memory: cursor to address zero,
/// cursor direction right, memory write, and one zero byte for each byte
/// to clear.
pub open spec fn clear_program(config: Config) -> Seq<Transfer> {
    cursor_program(0) + seq![
        Transfer::Command(Command::CsrDirRight),
        Transfer::Command(Command::Mwrite),
    ] + Seq::new(cleared_bytes(config) as nat, |i: int| Transfer::Data(0))
}

/// The transfers that switch the display on: no horizontal scroll, the
/// layers and the cursor's flashing, the cursor at address zero, a block
/// cursor of the font's height, no overlay, display on.
pub open spec fn enable_program(config: Config) -> Seq<Transfer> {
    seq![
        Transfer::Command(Command::HdotScr),
        Transfer::Data(0),
        Transfer::Command(Command::DisplayOff),
        Transfer::Data(DISPLAY_ATTRIBUTES),
        Transfer::Command(Command::Csrw),
        Transfer::Data(0),
        Transfer::Data(0),
        Transfer::Command(Command::CsrForm),
        Transfer::Data(CURSOR_WIDTH),
        Transfer::Data((BLOCK_CURSOR + config.font_height) as u8),
        Transfer::Command(Command::Ovlay),
        Transfer::Data(0),
        Transfer::Command(Command::DisplayOn),
    ]
}

/// Everything that is sent to a chip fresh out of reset, in order: system
/// set, layer configuration, clear, enable.
pub open spec fn startup_program(config: Config) -> Seq<Transfer> {
    system_set_program(config) + layers_program(config) + clear_program(config) + enable_program(
        config,
    )
}

/// Every signal that brings the chip from power-up to a cleared, visible
/// display: first the reset, then the cycles of the start-up program.
pub open spec fn startup_signals(timing: Timing, config: Config) -> Seq<Signal> {
    reset_signals() + program_signals(timing, startup_program(config))
}

/// The transfers that write bytes at the cursor: memory write, then each
/// byte in turn.
pub open spec fn text_program(bytes: Seq<u8>) -> Seq<Transfer> {
    seq![Transfer::Command(Command::Mwrite)] + Seq::new(
        bytes.len(),
        |i: int| Transfer::Data(bytes[i]),
    )
}

/// Address of the character cell that holds the pixel `(x, y)`.
pub open spec fn text_address(config: Config, x: u16, y: u16) -> int {
    config.text_layer_start + (y as int / config.font_height as int) * config.spec_chars_per_line()
        + x as int / config.font_width as int
}

/// Address of the byte of the graphics layer that holds the pixel `(x, y)`.
pub open spec fn pixel_address(config: Config, x: u16, y: u16) -> int {
    config.graphics_layer_start + y * bytes_per_line(config) + x as int / config.font_width as int
}

/// Position of the pixel's bit in its byte, counted from the lowest bit:
/// the leftmost pixel of a column is the highest bit.
pub open spec fn pixel_bit(config: Config, x: u16) -> int {
    7 - x as int % config.font_width as int
}

/// The byte with only the bit at `bit` set.
pub open spec fn bit_mask(bit: u8) -> u8 {
    1u8 << bit
}

/// A byte of the graphics layer with the bit under `mask` set or cleared.
pub open spec fn pixel_byte(current: u8, mask: u8, color: bool) -> u8 {
    if color {
        current | mask
    } else {
        current & !mask
    }
}

/// The transfers that read the byte of the pixel `(x, y)`: cursor to the
/// byte, memory read, one read.
pub open spec fn pixel_fetch_program(config: Config, x: u16, y: u16) -> Seq<Transfer> {
    cursor_program(pixel_address(config, x, y) as u16) + seq![
        Transfer::Command(Command::Mread),
        Transfer::Read,
    ]
}

/// The transfers that write the byte of the pixel `(x, y)` back, with the
/// pixel's bit set or cleared in `current`: cursor to the byte again,
/// memory write, the new byte.
pub open spec fn pixel_store_program(
    config: Config,
    x: u16,
    y: u16,
    color: bool,
    current: u8,
) -> Seq<Transfer> {
    cursor_program(pixel_address(config, x, y) as u16) + seq![
        Transfer::Command(Command::Mwrite),
        Transfer::Data(pixel_byte(current, bit_mask(pixel_bit(config, x) as u8), color)),
    ]
}

/// The driver of one display.
#[derive(Debug, Clone, Copy)]
pub struct RA8835A {
    pub config: Config,
    pub timing: Timing,
}

/// Every pixel of the screen has its bit in the address space if the
/// font is at most a byte wide and the byte of the screen's last pixel
/// has an address.
pub proof fn lemma_screen_is_addressable(display: RA8835A, x: u16, y: u16)
    requires
        display.config.valid(),
        display.config.font_width <= 8,
        x < display.config.screen_width,
        y < display.config.screen_height,
        pixel_address(
            display.config,
            (display.config.screen_width - 1) as u16,
            (display.config.screen_height - 1) as u16,
        ) <= u16::MAX,
    ensures
        display.addressable(x, y),
{
    let config = display.config;
    let line = bytes_per_line(config);
    let width = config.font_width as int;
    assert(y * line <= (config.screen_height - 1) * line) by (nonlinear_arith)
        requires
            0 <= y <= config.screen_height - 1,
            0 <= line,
    ;
    assert(x as int / width <= (config.screen_width - 1) / width) by (nonlinear_arith)
        requires
            0 <= x <= config.screen_width - 1,
            width > 0,
    ;
}

impl RA8835A {
    /// The geometry can be driven, and no delay is shorter than the
    /// controller needs.
    pub open spec fn wf(&self) -> bool {
        &&& RA8835A::drivable(self.config)
        &&& self.timing.sufficient()
    }

    /// The geometry is valid, the screen has a line, and the font's
    /// height leaves room for the block cursor's bit.
    pub open spec fn drivable(config: Config) -> bool {
        &&& config.valid()
        &&& config.screen_height > 0
        &&& config.font_height < BLOCK_CURSOR
    }

    /// The pixel `(x, y)` has a bit in a byte of the address space.
    pub open spec fn addressable(&self, x: u16, y: u16) -> bool {
        &&& pixel_bit(self.config, x) >= 0
        &&& pixel_address(self.config, x, y) <= u16::MAX
    }

    /// The character cell of the pixel `(x, y)` has an address in the
    /// address space.
    pub open spec fn text_addressable(&self, x: u16, y: u16) -> bool {
        text_address(self.config, x, y) <= u16::MAX
    }

    /// Whether `config` can be driven: what `new` asks of it.
    pub fn supports(config: &Config) -> (yes: bool)
        ensures
            yes == RA8835A::drivable(*config),
    {
        config.is_valid() && config.screen_height > 0 && config.font_height < BLOCK_CURSOR
    }

    /// Whether the pixel `(x, y)` has a bit in a byte of the address space.
    pub fn can_address(&self, x: u16, y: u16) -> (yes: bool)
        requires
            self.config.valid(),
        ensures
            yes == self.addressable(x, y),
    {
        let offset: u16 = x % (self.config.font_width as u16);
        if offset > 7 {
            return false;
        }
        let line_bytes: u64 = (self.config.screen_width / 8) as u64;
        let column: u64 = (x / (self.config.font_width as u16)) as u64;
        assert(0 <= y as int * line_bytes as int <= 0xFFFF * 0x1FFF) by (nonlinear_arith)
            requires
                0 <= y <= 0xFFFF,
                0 <= line_bytes <= 0x1FFF,
        ;
        let address: u64 = self.config.graphics_layer_start as u64 + (y as u64) * line_bytes
            + column;
        address <= 0xFFFF
    }

    /// Whether the character cell of the pixel `(x, y)` has an address in
    /// the address space.
    pub fn can_address_text(&self, x: u16, y: u16) -> (yes: bool)
        requires
            self.config.valid(),
        ensures
            yes == self.text_addressable(x, y),
    {
        let cells: u64 = self.config.chars_per_line() as u64;
        let column: u64 = (x / (self.config.font_width as u16)) as u64;
        let row: u64 = (y / (self.config.font_height as u16)) as u64;
        assert(0 <= row as int * cells as int <= 0xFFFF * 0xFFFF) by (nonlinear_arith)
            requires
                0 <= row <= 0xFFFF,
                0 <= cells <= 0xFFFF,
        ;
        let address: u64 = self.config.text_layer_start as u64 + row * cells + column;
        address <= 0xFFFF
    }

    /// A driver for the display that `config` describes, with the shortest
    /// delays that the controller accepts, and the signals that bring the
    /// chip from power-up to a cleared, visible display.
    pub fn new(config: Config) -> (made: (RA8835A, Vec<Signal>))
        requires
            RA8835A::drivable(config),
        ensures
            made.0.config == config,
            made.0.timing == Timing::shortest(),
            made.0.wf(),
            made.1@ == startup_signals(Timing::shortest(), config),
    {
        RA8835A::with_timing(config, Timing::minimum())
    }

    /// A driver for the display that `config` describes, with delays of
    /// the caller's choice, and the signals that bring the chip from
    /// power-up to a cleared, visible display.
    pub fn with_timing(config: Config, timing: Timing) -> (made: (RA8835A, Vec<Signal>))
        requires
            RA8835A::drivable(config),
            timing.sufficient(),
        ensures
            made.0.config == config,
            made.0.timing == timing,
            made.0.wf(),
            made.1@ == startup_signals(timing, config),
    {
        let display = RA8835A { config, timing };
        let signals = display.startup();
        (display, signals)
    }

    /// The transfers that program a chip fresh out of reset, clear its
    /// memory and switch the display on.
    pub fn startup_program(&self) -> (program: Vec<Transfer>)
        requires
            RA8835A::drivable(self.config),
        ensures
            program@ == startup_program(self.config),
    {
        let mut program = self.initialize();
        let mut layers = self.configure_layers();
        let mut clear = self.clear_display();
        let mut enable = self.enable_display();
        program.append(&mut layers);
        program.append(&mut clear);
        program.append(&mut enable);
        program
    }

    /// Every signal that brings the chip from power-up to a cleared,
    /// visible display: the reset first, then the start-up program.
    pub fn startup(&self) -> (signals: Vec<Signal>)
        requires
            self.wf(),
        ensures
            signals@ == startup_signals(self.timing, self.config),
    {
        let mut signals = self.hardware_reset();
        let program = self.startup_program();
        let mut cycles = self.signals(&program);
        signals.append(&mut cycles);
        signals
    }

    /// The signals of a program: the cycle of each transfer, in order.
    pub fn signals(&self, program: &Vec<Transfer>) -> (signals: Vec<Signal>)
        requires
            self.timing.sufficient(),
        ensures
            signals@ == program_signals(self.timing, program@),
    {
        let mut signals: Vec<Signal> = Vec::new();
        let mut done: usize = 0;
        while done < program.len()
            invariant
                done <= program@.len(),
                self.timing.sufficient(),
                signals@ == program_signals(self.timing, program@.take(done as int)),
            decreases program@.len() - done,
        {
            let mut cycle = self.transfer(program[done]);
            signals.append(&mut cycle);
            assert(program@.take(done + 1).drop_last() =~= program@.take(done as int));
            done = done + 1;
        }
        assert(program@.take(done as int) =~= program@);
        signals
    }

    /// The signals that select the chip and reset it.
    pub fn hardware_reset(&self) -> (signals: Vec<Signal>)
        ensures
            signals@ == reset_signals(),
    {
        let mut signals: Vec<Signal> = Vec::new();
        signals.push(Signal::Low(Line::ChipSelect));
        signals.push(Signal::BusOutput);
        signals.push(Signal::Low(Line::Reset));
        signals.push(Signal::DelayMs(RESET_HOLD_MS));
        signals.push(Signal::High(Line::Reset));
        signals.push(Signal::DelayMs(RESET_SETTLE_MS));
        assert(signals@ =~= reset_signals());
        signals
    }

    /// The system-set command with the parameters of this geometry.
    pub fn initialize(&self) -> (program: Vec<Transfer>)
        requires
            self.config.valid(),
            self.config.screen_height > 0,
        ensures
            program@ == system_set_program(self.config),
    {
        let columns: u8 = self.config.column_register();
        let lines: u16 = self.config.screen_height - 1;
        let mut program: Vec<Transfer> = Vec::new();
        program.push(Transfer::Command(Command::SystemSet));
        program.push(Transfer::Data(SYSTEM_CONTROL));
        program.push(Transfer::Data(self.config.font_width - 1));
        program.push(Transfer::Data(self.config.font_height - 1));
        program.push(Transfer::Data(columns));
        program.push(Transfer::Data(columns + TEXT_CONTROL_MARGIN));
        program.push(Transfer::Data(low_byte_of(lines)));
        program.push(Transfer::Data(columns));
        program.push(Transfer::Data(columns));
        assert(program@ =~= system_set_program(self.config));
        program
    }

    /// The scroll command, which lays out the text and the graphics layer.
    pub fn configure_layers(&self) -> (program: Vec<Transfer>)
        ensures
            program@ == layers_program(self.config),
    {
        let mut program: Vec<Transfer> = Vec::new();
        program.push(Transfer::Command(Command::Scroll));
        program.push(Transfer::Data(low_byte_of(self.config.text_layer_start)));
        program.push(Transfer::Data(high_byte_of(self.config.text_layer_start)));
        program.push(Transfer::Data(low_byte_of(self.config.screen_height)));
        program.push(Transfer::Data(low_byte_of(self.config.graphics_layer_start)));
        program.push(Transfer::Data(high_byte_of(self.config.graphics_layer_start)));
        program.push(Transfer::Data(low_byte_of(self.config.screen_height)));
        assert(program@ =~= layers_program(self.config));
        program
    }

    /// The transfers that zero the display memory from address zero on.
    pub fn clear_display(&self) -> (program: Vec<Transfer>)
        ensures
            program@ == clear_program(self.config),
    {
        let line_bytes: u64 = (self.config.screen_width / 8) as u64;
        let height: u64 = self.config.screen_height as u64;
        assert(line_bytes * height <= 0x1FFF * 0xFFFF) by (nonlinear_arith)
            requires
                0 <= line_bytes <= 0x1FFF,
                0 <= height <= 0xFFFF,
        ;
        let total: u64 = line_bytes * height * CLEARED_PLANES;
        let mut program: Vec<Transfer> = self.set_cursor_address(0);
        program.push(Transfer::Command(Command::CsrDirRight));
        program.push(Transfer::Command(Command::Mwrite));
        let ghost head = program@;
        let mut written: u64 = 0;
        while written < total
            invariant
                written <= total,
                program@ == head + Seq::new(written as nat, |i: int| Transfer::Data(0)),
            decreases total - written,
        {
            program.push(Transfer::Data(0));
            written = written + 1;
            assert(program@ =~= head + Seq::new(written as nat, |i: int| Transfer::Data(0)));
        }
        assert(program@ =~= clear_program(self.config));
        program
    }

    /// The transfers that switch the display on.
    pub fn enable_display(&self) -> (program: Vec<Transfer>)
        requires
            self.config.font_height < BLOCK_CURSOR,
        ensures
            program@ == enable_program(self.config),
    {
        let mut program: Vec<Transfer> = Vec::new();
        program.push(Transfer::Command(Command::HdotScr));
        program.push(Transfer::Data(0));
        program.push(Transfer::Command(Command::DisplayOff));
        program.push(Transfer::Data(DISPLAY_ATTRIBUTES));
        program.push(Transfer::Command(Command::Csrw));
        program.push(Transfer::Data(0));
        program.push(Transfer::Data(0));
        program.push(Transfer::Command(Command::CsrForm));
        program.push(Transfer::Data(CURSOR_WIDTH));
        program.push(Transfer::Data(BLOCK_CURSOR + self.config.font_height));
        program.push(Transfer::Command(Command::Ovlay));
        program.push(Transfer::Data(0));
        program.push(Transfer::Command(Command::DisplayOn));
        assert(program@ =~= enable_program(self.config));
        program
    }

    /// The transfers that write `text` at the cursor, one byte for each
    /// character cell.
    pub fn write_text(&self, text: &str) -> (program: Vec<Transfer>)
        ensures
            program@ == text_program(text.spec_bytes()),
    {
        let bytes = text.as_bytes();
        let mut program: Vec<Transfer> = Vec::new();
        program.push(Transfer::Command(Command::Mwrite));
        let ghost head = program@;
        let mut sent: usize = 0;
        while sent < bytes.len()
            invariant
                sent <= bytes@.len(),
                head == seq![Transfer::Command(Command::Mwrite)],
                program@ == head + Seq::new(sent as nat, |i: int| Transfer::Data(bytes@[i])),
            decreases bytes@.len() - sent,
        {
            program.push(Transfer::Data(bytes[sent]));
            sent = sent + 1;
            assert(program@ =~= head + Seq::new(sent as nat, |i: int| Transfer::Data(bytes@[i])));
        }
        assert(program@ =~= text_program(text.spec_bytes()));
        program
    }

    /// The transfers that write one character code at the cursor.
    pub fn write_char(&self, character: u8) -> (program: Vec<Transfer>)
        ensures
            program@ == text_program(seq![character]),
    {
        let mut program: Vec<Transfer> = Vec::new();
        program.push(Transfer::Command(Command::Mwrite));
        program.push(Transfer::Data(character));
        assert(program@ =~= text_program(seq![character]));
        program
    }

    /// The transfers that write `text` from the character cell that holds
    /// the pixel `(x, y)`: cursor to the cell, then the text.
    pub fn write_text_at(&self, text: &str, x: u16, y: u16) -> (program: Vec<Transfer>)
        requires
            self.config.valid(),
            self.text_addressable(x, y),
        ensures
            program@ == cursor_program(text_address(self.config, x, y) as u16) + text_program(
                text.spec_bytes(),
            ),
    {
        let cells: u16 = self.config.chars_per_line();
        let column: u16 = x / (self.config.font_width as u16);
        let row: u16 = y / (self.config.font_height as u16);
        assert(0 <= row as int * cells as int) by (nonlinear_arith)
            requires
                row >= 0,
                cells >= 0,
        ;
        let address: u16 = self.config.text_layer_start + row * cells + column;
        let mut program = self.set_cursor_address(address);
        let mut tail = self.write_text(text);
        program.append(&mut tail);
        program
    }

    /// Address of the byte of the graphics layer that holds the pixel
    /// `(x, y)`.
    pub fn pixel_address(&self, x: u16, y: u16) -> (address: u16)
        requires
            self.config.valid(),
            pixel_address(self.config, x, y) <= u16::MAX,
        ensures
            address == pixel_address(self.config, x, y),
    {
        let line_bytes: u16 = self.config.screen_width / 8;
        let column: u16 = x / (self.config.font_width as u16);
        assert(0 <= y as int * line_bytes as int) by (nonlinear_arith)
            requires
                y >= 0,
                line_bytes >= 0,
        ;
        self.config.graphics_layer_start + y * line_bytes + column
    }

    /// The byte with only the bit of the pixel column `x` set.
    pub fn pixel_mask(&self, x: u16) -> (mask: u8)
        requires
            self.config.valid(),
            pixel_bit(self.config, x) >= 0,
        ensures
            mask == bit_mask(pixel_bit(self.config, x) as u8),
    {
        let offset: u16 = x % (self.config.font_width as u16);
        let bit: u8 = 7 - (offset as u8);
        1u8 << bit
    }

    /// The transfers that read the byte of the pixel `(x, y)` from the
    /// graphics layer. What the read gives goes to `set_pixel`.
    pub fn fetch_pixel(&self, x: u16, y: u16) -> (program: Vec<Transfer>)
        requires
            self.config.valid(),
            self.addressable(x, y),
        ensures
            program@ == pixel_fetch_program(self.config, x, y),
    {
        let address = self.pixel_address(x, y);
        let mut program = self.set_cursor_address(address);
        program.push(Transfer::Command(Command::Mread));
        program.push(Transfer::Read);
        program
    }

    /// Draws the pixel `(x, y)` if `color` is set and erases it if not,
    /// given what reading the pixel's byte gave. A failed read is handed
    /// back and nothing is written; else the transfers write the byte
    /// back with the pixel's bit changed and every other bit kept.
    pub fn set_pixel<E>(&self, x: u16, y: u16, color: bool, sampled: Result<u8, E>) -> (program:
        Result<Vec<Transfer>, E>)
        requires
            self.config.valid(),
            self.addressable(x, y),
        ensures
            match sampled {
                Ok(current) => program is Ok && program->Ok_0@ == pixel_store_program(
                    self.config,
                    x,
                    y,
                    color,
                    current,
                ),
                Err(failure) => program is Err && program->Err_0 == failure,
            },
    {
        match sampled {
            Ok(current) => {
                let mask: u8 = self.pixel_mask(x);
                let byte: u8 = if color {
                    current | mask
                } else {
                    current & !mask
                };
                let address = self.pixel_address(x, y);
                let mut program = self.set_cursor_address(address);
                program.push(Transfer::Command(Command::Mwrite));
                program.push(Transfer::Data(byte));
                Ok(program)
            },
            Err(failure) => Err(failure),
        }
    }

    /// The signals that hand a command to the controller. The byte is on
    /// the bus for the setup time before the strobe, and the strobe is
    /// held for the hold time.
    pub fn write_command(&self, cmd: Command) -> (signals: Vec<Signal>)
        requires
            self.timing.sufficient(),
        ensures
            signals@ == command_cycle(self.timing, cmd),
    {
        let mut signals: Vec<Signal> = Vec::new();
        signals.push(Signal::High(Line::RegisterSelect));
        signals.push(Signal::Present(cmd.code()));
        signals.push(Signal::DelayNs(self.timing.write_setup_ns));
        signals.push(Signal::Low(Line::WriteStrobe));
        signals.push(Signal::DelayNs(self.timing.write_hold_ns));
        signals.push(Signal::High(Line::WriteStrobe));
        assert(signals@ =~= command_cycle(self.timing, cmd));
        signals
    }

    /// The signals that hand a data byte to the controller.
    pub fn write_data(&self, data: u8) -> (signals: Vec<Signal>)
        requires
            self.timing.sufficient(),
        ensures
            signals@ == data_cycle(self.timing, data),
    {
        let mut signals: Vec<Signal> = Vec::new();
        signals.push(Signal::Low(Line::RegisterSelect));
        signals.push(Signal::Present(data));
        signals.push(Signal::DelayNs(self.timing.write_setup_ns));
        signals.push(Signal::Low(Line::WriteStrobe));
        signals.push(Signal::DelayNs(self.timing.write_hold_ns));
        signals.push(Signal::High(Line::WriteStrobe));
        assert(signals@ =~= data_cycle(self.timing, data));
        signals
    }

    /// The signals that take a data byte from the controller. The read's
    /// result is what the one `Sample` among them gives; the signals
    /// behind it release the strobe and the bus whatever it gave.
    pub fn read_data(&self) -> (signals: Vec<Signal>)
        requires
            self.timing.sufficient(),
        ensures
            signals@ == read_cycle(self.timing),
    {
        let mut signals: Vec<Signal> = Vec::new();
        signals.push(Signal::BusInput);
        signals.push(Signal::Low(Line::RegisterSelect));
        signals.push(Signal::Low(Line::ReadStrobe));
        signals.push(Signal::DelayNs(self.timing.read_setup_ns));
        signals.push(Signal::Sample);
        signals.push(Signal::DelayNs(self.timing.read_hold_ns));
        signals.push(Signal::High(Line::ReadStrobe));
        signals.push(Signal::BusOutput);
        assert(signals@ =~= read_cycle(self.timing));
        signals
    }

    /// The signals that carry out one transfer.
    pub fn transfer(&self, transfer: Transfer) -> (signals: Vec<Signal>)
        requires
            self.timing.sufficient(),
        ensures
            signals@ == transfer_cycle(self.timing, transfer),
    {
        match transfer {
            Transfer::Command(command) => self.write_command(command),
            Transfer::Data(byte) => self.write_data(byte),
            Transfer::Read => self.read_data(),
        }
    }

    /// The transfers that move the cursor to `address`: the cursor-write
    /// command, the address's low byte, its high byte.
    pub fn set_cursor_address(&self, address: u16) -> (program: Vec<Transfer>)
        ensures
            program@ == cursor_program(address),
            program@.len() == 3,
            program@[0] == Transfer::Command(Command::Csrw),
            program@[1] == Transfer::Data((address & 0xFF) as u8),
            program@[2] == Transfer::Data((address >> 8) as u8),
    {
        let mut program: Vec<Transfer> = Vec::new();
        program.push(Transfer::Command(Command::Csrw));
        program.push(Transfer::Data(low_byte_of(address)));
        program.push(Transfer::Data(high_byte_of(address)));
        assert(program@ =~= cursor_program(address));
        program
    }
}

} // verus!
