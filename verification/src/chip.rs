//! A model of the controller's cursor and display memory, and what the
//! driver's programs do to it.

use vstd::prelude::*;
use crate::command::Command;
use crate::driver::{
    bit_mask, cleared_bytes, clear_program, cursor_program, pixel_address, pixel_bit, pixel_byte,
    pixel_fetch_program, pixel_store_program, RA8835A,
};
use crate::geometry::Config;
use crate::signal::{high_byte, low_byte, Transfer};

verus! {

/// The part of the controller's state that memory accesses go through.
pub struct Chip {
    /// The byte at each address of the display memory.
    pub memory: Map<int, u8>,
    /// The address that the next memory access goes to.
    pub cursor: int,
    /// How far a memory access moves the cursor.
    pub stride: int,
    /// Addresses from one display line to the next.
    pub pitch: int,
    /// The command that was written last.
    pub command: Option<Command>,
    /// Data bytes written since that command.
    pub received: nat,
    /// What the last read gave.
    pub sampled: Option<u8>,
}

/// Where the cursor is after a memory access: one stride on, within the
/// 16-bit address space.
pub open spec fn cursor_moved(chip: Chip) -> int {
    (chip.cursor + chip.stride) % 0x1_0000
}

/// The chip after one transfer. A command opens a new parameter list,
/// and a cursor direction command sets the stride. Of the data bytes
/// behind cursor-write the first replaces the cursor's low byte and the
/// second its high byte; each data byte behind memory-write is stored at
/// the cursor, which then moves on. A read behind memory-read gives the
/// byte at the cursor, which then moves on.
pub open spec fn chip_step(chip: Chip, transfer: Transfer) -> Chip {
    match transfer {
        Transfer::Command(command) => Chip {
            command: Some(command),
            received: 0,
            stride: match command {
                Command::CsrDirRight => 1,
                Command::CsrDirLeft => -1,
                Command::CsrDirUp => -chip.pitch,
                Command::CsrDirDown => chip.pitch,
                _ => chip.stride,
            },
            ..chip
        },
        Transfer::Data(byte) => match chip.command {
            Some(Command::Csrw) => Chip {
                cursor: if chip.received == 0 {
                    chip.cursor / 256 * 256 + byte
                } else if chip.received == 1 {
                    chip.cursor % 256 + 256 * byte
                } else {
                    chip.cursor
                },
                received: chip.received + 1,
                ..chip
            },
            Some(Command::Mwrite) => Chip {
                memory: chip.memory.insert(chip.cursor, byte),
                cursor: cursor_moved(chip),
                received: chip.received + 1,
                ..chip
            },
            _ => Chip { received: chip.received + 1, ..chip },
        },
        Transfer::Read => match chip.command {
            Some(Command::Mread) => Chip {
                sampled: Some(chip.memory[chip.cursor]),
                cursor: cursor_moved(chip),
                ..chip
            },
            _ => chip,
        },
    }
}

/// The chip after the first `count` transfers of `program`.
pub open spec fn chip_after(chip: Chip, program: Seq<Transfer>, count: nat) -> Chip
    decreases count,
{
    if count == 0 {
        chip
    } else {
        chip_step(chip_after(chip, program, (count - 1) as nat), program[count - 1])
    }
}

/// The chip after all of `program`.
pub open spec fn chip_run(chip: Chip, program: Seq<Transfer>) -> Chip {
    chip_after(chip, program, program.len())
}

/// A 16-bit value is its low byte plus 256 times its high byte.
pub proof fn lemma_bytes_make_address(address: u16)
    ensures
        low_byte(address) + 256 * high_byte(address) == address,
{
    assert((address & 0xFF) <= 0xFF && (address >> 8) <= 0xFF && (address & 0xFF) + 256 * (address
        >> 8) == address) by (bit_vector);
}

/// Moving the cursor leaves the memory as it is and puts the cursor at
/// the address, wherever it was.
pub proof fn lemma_cursor_program_moves_cursor(chip: Chip, address: u16)
    ensures
        chip_run(chip, cursor_program(address)).cursor == address,
        chip_run(chip, cursor_program(address)).memory == chip.memory,
        chip_run(chip, cursor_program(address)).stride == chip.stride,
        chip_run(chip, cursor_program(address)).sampled == chip.sampled,
{
    lemma_bytes_make_address(address);
    reveal_with_fuel(chip_after, 4);
    let first = chip_step(chip, Transfer::Command(Command::Csrw));
    let second = chip_step(first, Transfer::Data(low_byte(address)));
    let third = chip_step(second, Transfer::Data(high_byte(address)));
    assert(chip_run(chip, cursor_program(address)) == third);
    assert(second.cursor % 256 == low_byte(address)) by (nonlinear_arith)
        requires
            second.cursor == chip.cursor / 256 * 256 + low_byte(address),
            0 <= low_byte(address) < 256,
    ;
}

/// The byte of a pixel with the pixel's bit set or cleared has that bit
/// as asked and every other bit as before.
pub proof fn lemma_pixel_byte_changes_one_bit(current: u8, bit: u8, color: bool)
    requires
        bit <= 7,
    ensures
        color ==> pixel_byte(current, bit_mask(bit), color) & bit_mask(bit) == bit_mask(bit),
        !color ==> pixel_byte(current, bit_mask(bit), color) & bit_mask(bit) == 0,
        pixel_byte(current, bit_mask(bit), color) & !bit_mask(bit) == current & !bit_mask(bit),
        bit_mask(bit) != 0,
{
    assert((current | (1u8 << bit)) & (1u8 << bit) == (1u8 << bit)) by (bit_vector);
    assert((current & !(1u8 << bit)) & (1u8 << bit) == 0) by (bit_vector);
    assert((current | (1u8 << bit)) & !(1u8 << bit) == current & !(1u8 << bit)) by (bit_vector);
    assert((current & !(1u8 << bit)) & !(1u8 << bit) == current & !(1u8 << bit)) by (bit_vector);
    assert((1u8 << bit) != 0) by (bit_vector)
        requires
            bit <= 7,
    ;
}

/// Setting a pixel and reading its byte back. On any chip, the transfers
/// that store the pixel change the memory at the pixel's address alone,
/// and the transfers that fetch the pixel then sample the byte that was
/// stored: the byte that was read before, with the pixel's bit set for a
/// drawn pixel and cleared for an erased one, and every other bit kept.
pub proof fn lemma_pixel_round_trip(
    chip: Chip,
    display: RA8835A,
    x: u16,
    y: u16,
    color: bool,
    current: u8,
)
    requires
        display.config.valid(),
        display.addressable(x, y),
    ensures
        ({
            let mask = bit_mask(pixel_bit(display.config, x) as u8);
            let byte = pixel_byte(current, mask, color);
            let stored = chip_run(chip, pixel_store_program(display.config, x, y, color, current));
            let fetched = chip_run(stored, pixel_fetch_program(display.config, x, y));
            &&& stored.memory == chip.memory.insert(pixel_address(display.config, x, y), byte)
            &&& fetched.sampled == Some(byte)
            &&& fetched.memory == stored.memory
            &&& color ==> byte & mask == mask
            &&& !color ==> byte & mask == 0
            &&& byte & !mask == current & !mask
        }),
{
    let address = pixel_address(display.config, x, y) as u16;
    let bit = pixel_bit(display.config, x) as u8;
    let byte = pixel_byte(current, bit_mask(bit), color);
    lemma_pixel_byte_changes_one_bit(current, bit, color);

    let store = pixel_store_program(display.config, x, y, color, current);
    let moved = chip_run(chip, cursor_program(address));
    lemma_cursor_program_moves_cursor(chip, address);
    lemma_run_prefix(chip, store, cursor_program(address), 3);
    assert(chip_after(chip, store, 3) == moved);
    reveal_with_fuel(chip_after, 3);
    let stored = chip_run(chip, store);
    assert(store.len() == 5);
    assert(store[3] == Transfer::Command(Command::Mwrite));
    assert(store[4] == Transfer::Data(byte));
    assert(stored == chip_step(chip_step(moved, store[3]), store[4]));

    let fetch = pixel_fetch_program(display.config, x, y);
    let again = chip_run(stored, cursor_program(address));
    lemma_cursor_program_moves_cursor(stored, address);
    lemma_run_prefix(stored, fetch, cursor_program(address), 3);
    assert(chip_after(stored, fetch, 3) == again);
    assert(fetch.len() == 5);
    assert(fetch[3] == Transfer::Command(Command::Mread));
    assert(fetch[4] == Transfer::Read);
    assert(chip_run(stored, fetch) == chip_step(chip_step(again, fetch[3]), fetch[4]));
}

/// Clearing the display. On any chip, the transfers of a clear leave a
/// zero at every address below the number of bytes cleared, and every
/// other byte as it was.
pub proof fn lemma_clear_zeroes_memory(chip: Chip, config: Config)
    ensures
        forall|address: int|
            0 <= address < 0x1_0000 ==> #[trigger] chip_run(
                chip,
                clear_program(config),
            ).memory[address] == if address < cleared_bytes(config) {
                0u8
            } else {
                chip.memory[address]
            },
{
    lemma_cleared_bytes_counted(config);
    lemma_clear_progress(chip, config, cleared_bytes(config) as nat);
}

/// A clear writes to no fewer than zero bytes, and its program is five
/// transfers longer than that.
proof fn lemma_cleared_bytes_counted(config: Config)
    ensures
        cleared_bytes(config) >= 0,
        clear_program(config).len() == 5 + cleared_bytes(config),
{
    let line_bytes = config.screen_width as int / 8;
    assert(line_bytes * config.screen_height * 3 >= 0) by (nonlinear_arith)
        requires
            line_bytes >= 0,
            config.screen_height >= 0,
    ;
}

/// The chip after the head of a clear and the first `written` of its
/// zero bytes.
proof fn lemma_clear_progress(chip: Chip, config: Config, written: nat)
    requires
        written <= cleared_bytes(config),
    ensures
        ({
            let reached = chip_after(chip, clear_program(config), 5 + written);
            &&& reached.command == Some(Command::Mwrite)
            &&& reached.stride == 1
            &&& reached.cursor == written % 0x1_0000
            &&& forall|address: int|
                0 <= address < 0x1_0000 ==> #[trigger] reached.memory[address] == if address
                    < written {
                    0u8
                } else {
                    chip.memory[address]
                }
        }),
    decreases written,
{
    let program = clear_program(config);
    lemma_cleared_bytes_counted(config);
    if written == 0 {
        lemma_cursor_program_moves_cursor(chip, 0);
        lemma_run_prefix(chip, program, cursor_program(0), 3);
        let moved = chip_after(chip, program, 3);
        assert(moved == chip_run(chip, cursor_program(0)));
        assert(program[3] == Transfer::Command(Command::CsrDirRight));
        assert(program[4] == Transfer::Command(Command::Mwrite));
        reveal_with_fuel(chip_after, 3);
        assert(chip_after(chip, program, 5) == chip_step(
            chip_step(moved, program[3]),
            program[4],
        ));
    } else {
        let before = chip_after(chip, program, (5 + written - 1) as nat);
        lemma_clear_progress(chip, config, (written - 1) as nat);
        assert(program[5 + written - 1] == Transfer::Data(0));
        let reached = chip_after(chip, program, 5 + written);
        assert(reached == chip_step(before, Transfer::Data(0)));
        assert(before.cursor == (written - 1) % 0x1_0000);
        assert(reached.cursor == written % 0x1_0000) by {
            if (written - 1) % 0x1_0000 == 0xFFFF {
                assert(written % 0x1_0000 == 0);
            } else {
                assert(written % 0x1_0000 == (written - 1) % 0x1_0000 + 1);
            }
        }
        assert forall|address: int| 0 <= address < 0x1_0000 implies #[trigger] reached.memory[address]
            == if address < written {
            0u8
        } else {
            chip.memory[address]
        } by {
            if address != before.cursor {
                assert(reached.memory[address] == before.memory[address]);
            }
        }
    }
}

/// Running the first transfers of a program is running a program that
/// begins alike.
proof fn lemma_run_prefix(chip: Chip, program: Seq<Transfer>, head: Seq<Transfer>, count: nat)
    requires
        count <= head.len() <= program.len(),
        forall|k: int| 0 <= k < head.len() ==> head[k] == program[k],
    ensures
        chip_after(chip, program, count) == chip_after(chip, head, count),
    decreases count,
{
    if count > 0 {
        lemma_run_prefix(chip, program, head, (count - 1) as nat);
    }
}

} // verus!
