use ra8835a::signal::{high_byte_of, low_byte_of};
use ra8835a::{after_signal, Command, Config, Line, Signal, Timing, Transfer, RA8835A};

fn display() -> RA8835A {
    RA8835A::new(Config::new(8, 8, 320, 240).unwrap()).0
}

fn data(bytes: &[u8]) -> Vec<Transfer> {
    bytes.iter().map(|byte| Transfer::Data(*byte)).collect()
}

#[test]
fn command_write_strobes_with_register_select_high() {
    assert_eq!(
        display().write_command(Command::Mwrite),
        vec![
            Signal::High(Line::RegisterSelect),
            Signal::Present(0x42),
            Signal::DelayNs(10),
            Signal::Low(Line::WriteStrobe),
            Signal::DelayNs(150),
            Signal::High(Line::WriteStrobe),
        ]
    );
}

#[test]
fn data_write_strobes_with_register_select_low() {
    assert_eq!(
        display().write_data(0xA5),
        vec![
            Signal::Low(Line::RegisterSelect),
            Signal::Present(0xA5),
            Signal::DelayNs(10),
            Signal::Low(Line::WriteStrobe),
            Signal::DelayNs(150),
            Signal::High(Line::WriteStrobe),
        ]
    );
}

#[test]
fn read_turns_the_bus_round_and_back() {
    let signals = display().read_data();
    assert_eq!(
        signals,
        vec![
            Signal::BusInput,
            Signal::Low(Line::RegisterSelect),
            Signal::Low(Line::ReadStrobe),
            Signal::DelayNs(30),
            Signal::Sample,
            Signal::DelayNs(30),
            Signal::High(Line::ReadStrobe),
            Signal::BusOutput,
        ]
    );
    assert_eq!(signals.iter().filter(|s| **s == Signal::Sample).count(), 1);
    assert_eq!(signals.last(), Some(&Signal::BusOutput));
    // Register select is at the level of a data write.
    assert_eq!(signals[1], display().write_data(0)[0]);
    assert_ne!(signals[1], display().write_command(Command::Mread)[0]);
}

#[test]
fn bytes_of_an_address() {
    assert_eq!(low_byte_of(0x1234), 0x34);
    assert_eq!(high_byte_of(0x1234), 0x12);
    assert_eq!(low_byte_of(0xFFFF), 0xFF);
    assert_eq!(high_byte_of(0x00FF), 0x00);
    assert_eq!(high_byte_of(0x0100), 0x01);
}

#[test]
fn cursor_address_goes_low_byte_first() {
    assert_eq!(
        display().set_cursor_address(0x1234),
        vec![
            Transfer::Command(Command::Csrw),
            Transfer::Data(0x34),
            Transfer::Data(0x12),
        ]
    );
    for address in [0u16, 1, 0xFF, 0x100, 0x04B0, 0xFFFF] {
        let program = display().set_cursor_address(address);
        assert_eq!(program.len(), 3);
        assert_eq!(program[0], Transfer::Command(Command::Csrw));
        assert_eq!(program[1], Transfer::Data((address & 0xFF) as u8));
        assert_eq!(program[2], Transfer::Data((address >> 8) as u8));
    }
}

#[test]
fn reset_selects_the_chip_and_pulses_the_reset_line() {
    assert_eq!(
        display().hardware_reset(),
        vec![
            Signal::Low(Line::ChipSelect),
            Signal::BusOutput,
            Signal::Low(Line::Reset),
            Signal::DelayMs(10),
            Signal::High(Line::Reset),
            Signal::DelayMs(3),
        ]
    );
}

#[test]
fn system_set_carries_eight_parameters() {
    let mut expected = vec![Transfer::Command(Command::SystemSet)];
    expected.extend(data(&[0x30, 7, 7, 40, 44, 239, 40, 40]));
    assert_eq!(display().initialize(), expected);
}

#[test]
fn system_set_of_a_tall_screen_keeps_the_low_byte_of_the_line_count() {
    let tall = RA8835A::new(Config::new(6, 10, 240, 300).unwrap()).0;
    let mut expected = vec![Transfer::Command(Command::SystemSet)];
    expected.extend(data(&[0x30, 5, 9, 40, 44, 43, 40, 40]));
    assert_eq!(tall.initialize(), expected);
}

#[test]
fn scroll_lays_out_both_layers() {
    let mut expected = vec![Transfer::Command(Command::Scroll)];
    expected.extend(data(&[0x00, 0x00, 240, 0xB0, 0x04, 240]));
    assert_eq!(display().configure_layers(), expected);
}

#[test]
fn clear_streams_zeroes_from_address_zero() {
    let program = display().clear_display();
    assert_eq!(program.len(), 5 + 40 * 240 * 3);
    assert_eq!(
        program[..5],
        [
            Transfer::Command(Command::Csrw),
            Transfer::Data(0),
            Transfer::Data(0),
            Transfer::Command(Command::CsrDirRight),
            Transfer::Command(Command::Mwrite),
        ]
    );
    assert!(program[5..].iter().all(|t| *t == Transfer::Data(0)));
}

#[test]
fn clear_of_an_empty_screen_streams_nothing() {
    let mut config = Config::new(8, 8, 7, 240).unwrap();
    assert_eq!(config.graphics_layer_start, 0);
    let timing = Timing::minimum();
    assert_eq!(RA8835A { config, timing }.clear_display().len(), 5);
    config = Config::new(8, 8, 16, 2).unwrap();
    assert_eq!(
        RA8835A { config, timing }.clear_display().len(),
        5 + 2 * 2 * 3
    );
}

#[test]
fn enable_ends_with_display_on() {
    assert_eq!(
        display().enable_display(),
        vec![
            Transfer::Command(Command::HdotScr),
            Transfer::Data(0x00),
            Transfer::Command(Command::DisplayOff),
            Transfer::Data(0b0011_1111),
            Transfer::Command(Command::Csrw),
            Transfer::Data(0x00),
            Transfer::Data(0x00),
            Transfer::Command(Command::CsrForm),
            Transfer::Data(0x05),
            Transfer::Data(0x88),
            Transfer::Command(Command::Ovlay),
            Transfer::Data(0x00),
            Transfer::Command(Command::DisplayOn),
        ]
    );
}

#[test]
fn startup_runs_the_stages_in_order() {
    let config = Config::new(8, 8, 320, 240).unwrap();
    let (display, startup) = RA8835A::new(config);
    assert_eq!(display.config, config);
    let mut program = display.initialize();
    program.extend(display.configure_layers());
    program.extend(display.clear_display());
    program.extend(display.enable_display());
    assert_eq!(display.startup_program(), program);
    assert_eq!(program.len(), 9 + 7 + 5 + 28800 + 13);
    assert_eq!(program[0], Transfer::Command(Command::SystemSet));
    assert_eq!(program[9], Transfer::Command(Command::Scroll));
    assert_eq!(
        program.last(),
        Some(&Transfer::Command(Command::DisplayOn))
    );
    let mut expected = display.hardware_reset();
    expected.extend(display.signals(&program));
    assert_eq!(startup, expected);
    assert_eq!(startup, display.startup());
}

#[test]
fn startup_resets_before_it_programs() {
    let (display, startup) = RA8835A::new(Config::new(8, 8, 320, 240).unwrap());
    assert_eq!(startup.len(), 6 + 6 * (9 + 7 + 5 + 28800 + 13));
    assert_eq!(startup[..6], display.hardware_reset()[..]);
    assert_eq!(
        startup[6..12],
        display.write_command(Command::SystemSet)[..]
    );
    assert_eq!(startup[12..18], display.write_data(0x30)[..]);
    assert_eq!(
        startup[startup.len() - 6..],
        display.write_command(Command::DisplayOn)[..]
    );
    assert!(!startup.contains(&Signal::Sample));
    assert!(!startup[6..].contains(&Signal::Low(Line::Reset)));
}

#[test]
fn signals_of_a_program_are_its_cycles_in_order() {
    let display = display();
    assert_eq!(display.signals(&vec![]), vec![]);
    let program = display.fetch_pixel(10, 2);
    let mut expected = display.write_command(Command::Csrw);
    expected.extend(display.write_data(0x01));
    expected.extend(display.write_data(0x05));
    expected.extend(display.write_command(Command::Mread));
    expected.extend(display.read_data());
    assert_eq!(display.signals(&program), expected);
    assert_eq!(expected.len(), 4 * 6 + 8);
}

#[test]
fn a_cycle_keeps_its_first_failure_and_its_last_sample() {
    let nothing: Result<Option<u8>, &str> = Ok(None);
    assert_eq!(after_signal(nothing, Ok(None)), Ok(None));
    assert_eq!(after_signal(nothing, Ok(Some(7))), Ok(Some(7)));
    assert_eq!(after_signal(nothing, Err("bus")), Err("bus"));
    let sampled: Result<Option<u8>, &str> = Ok(Some(7));
    assert_eq!(after_signal(sampled, Ok(None)), Ok(Some(7)));
    assert_eq!(after_signal(sampled, Ok(Some(9))), Ok(Some(9)));
    assert_eq!(after_signal(sampled, Err("bus")), Err("bus"));
    assert_eq!(after_signal(Err("bus"), Ok(None)), Err("bus"));
    assert_eq!(after_signal(Err("bus"), Ok(Some(9))), Err("bus"));
    assert_eq!(after_signal(Err("bus"), Err("line")), Err("bus"));
}

#[test]
fn failed_sample_is_reported_after_the_whole_read_cycle() {
    let cycle = display().read_data();
    let mut performed = Vec::new();
    let mut outcome: Result<Option<u8>, &str> = Ok(None);
    for signal in &cycle {
        performed.push(*signal);
        let event = if *signal == Signal::Sample {
            Err("bus fault")
        } else {
            Ok(None)
        };
        outcome = after_signal(outcome, event);
    }
    assert_eq!(outcome, Err("bus fault"));
    assert_eq!(performed.last(), Some(&Signal::BusOutput));
    assert!(performed.contains(&Signal::High(Line::ReadStrobe)));
    let mut outcome: Result<Option<u8>, &str> = Ok(None);
    for signal in &cycle {
        let event = if *signal == Signal::Sample {
            Ok(Some(0x5A))
        } else {
            Ok(None)
        };
        outcome = after_signal(outcome, event);
    }
    assert_eq!(outcome, Ok(Some(0x5A)));
}

#[test]
fn configurations_that_cannot_be_driven_are_told_apart() {
    assert!(RA8835A::supports(&Config::new(8, 8, 320, 240).unwrap()));
    assert!(RA8835A::supports(&Config::new(8, 127, 320, 240).unwrap()));
    assert!(!RA8835A::supports(&Config::new(8, 128, 320, 240).unwrap()));
    assert!(!RA8835A::supports(&Config::new(8, 8, 320, 0).unwrap()));
    let mut broken = Config::new(8, 8, 320, 240).unwrap();
    broken.graphics_layer_start = 7;
    assert!(!RA8835A::supports(&broken));
}

#[test]
fn text_follows_memory_write() {
    let mut expected = vec![Transfer::Command(Command::Mwrite)];
    expected.extend(data(b"Hi!"));
    assert_eq!(display().write_text("Hi!"), expected);
    assert_eq!(
        display().write_text(""),
        vec![Transfer::Command(Command::Mwrite)]
    );
}

#[test]
fn text_beyond_ascii_goes_out_byte_by_byte() {
    let mut expected = vec![Transfer::Command(Command::Mwrite)];
    expected.extend(data(&[0xC3, 0xA9]));
    assert_eq!(display().write_text("\u{e9}"), expected);
}

#[test]
fn one_character_follows_memory_write() {
    assert_eq!(
        display().write_char(b'A'),
        vec![Transfer::Command(Command::Mwrite), Transfer::Data(0x41)]
    );
}

#[test]
fn text_at_a_pixel_starts_at_its_cell() {
    // Cell (2, 1) of 40 cells per line.
    let mut expected = vec![Transfer::Command(Command::Csrw)];
    expected.extend(data(&[42, 0]));
    expected.push(Transfer::Command(Command::Mwrite));
    expected.extend(data(b"A"));
    assert_eq!(display().write_text_at("A", 16, 8), expected);
    assert_eq!(display().write_text_at("A", 23, 15), expected);
    // Cell (39, 29) is the last one: address 1199.
    let program = display().write_text_at("z", 319, 239);
    assert_eq!(program[1], Transfer::Data(0xAF));
    assert_eq!(program[2], Transfer::Data(0x04));
}

#[test]
fn text_cells_beyond_the_address_space_are_told_apart() {
    let display = display();
    assert!(display.can_address_text(0, 0));
    assert!(display.can_address_text(0, 13100));
    assert!(!display.can_address_text(0, 65535));
    // Row 1638 begins at 65520: fifteen more cells fit.
    assert!(display.can_address_text(15 * 8 + 7, 1638 * 8));
    assert!(!display.can_address_text(16 * 8, 1638 * 8));
}

#[test]
fn pixel_byte_is_fetched_at_its_address() {
    // 1200 + 2 * 40 + 1 = 1281 = 0x0501.
    assert_eq!(
        display().fetch_pixel(10, 2),
        vec![
            Transfer::Command(Command::Csrw),
            Transfer::Data(0x01),
            Transfer::Data(0x05),
            Transfer::Command(Command::Mread),
            Transfer::Read,
        ]
    );
    assert_eq!(display().pixel_address(10, 2), 1281);
    assert_eq!(display().pixel_address(0, 0), 1200);
    assert_eq!(display().pixel_address(319, 239), 1200 + 239 * 40 + 39);
}

#[test]
fn pixel_mask_counts_from_the_high_bit() {
    let display = display();
    assert_eq!(display.pixel_mask(0), 0x80);
    assert_eq!(display.pixel_mask(1), 0x40);
    assert_eq!(display.pixel_mask(7), 0x01);
    assert_eq!(display.pixel_mask(8), 0x80);
    assert_eq!(display.pixel_mask(10), 0x20);
    let narrow = RA8835A::new(Config::new(6, 8, 240, 64).unwrap()).0;
    assert_eq!(narrow.pixel_mask(5), 0x04);
    assert_eq!(narrow.pixel_mask(6), 0x80);
    assert_eq!(narrow.pixel_address(6, 0), 40 * 8 + 1);
}

#[test]
fn drawing_a_pixel_sets_its_bit_only() {
    let written: Result<Vec<Transfer>, ()> = display().set_pixel(10, 2, true, Ok(0x00));
    assert_eq!(
        written,
        Ok(vec![
            Transfer::Command(Command::Csrw),
            Transfer::Data(0x01),
            Transfer::Data(0x05),
            Transfer::Command(Command::Mwrite),
            Transfer::Data(0x20),
        ])
    );
    let kept: Result<Vec<Transfer>, ()> = display().set_pixel(10, 2, true, Ok(0x81));
    assert_eq!(kept.unwrap()[4], Transfer::Data(0xA1));
}

#[test]
fn erasing_a_pixel_clears_its_bit_only() {
    let written: Result<Vec<Transfer>, ()> = display().set_pixel(10, 2, false, Ok(0xFF));
    assert_eq!(written.unwrap()[4], Transfer::Data(0xDF));
    let kept: Result<Vec<Transfer>, ()> = display().set_pixel(10, 2, false, Ok(0x81));
    assert_eq!(kept.unwrap()[4], Transfer::Data(0x81));
}

#[test]
fn pixel_survives_a_round_trip_for_every_byte_and_column() {
    let display = display();
    for x in 0u16..16 {
        let bit = 7 - (x % 8) as u32;
        for current in 0u8..=255 {
            let set: Result<Vec<Transfer>, ()> = display.set_pixel(x, 3, true, Ok(current));
            let set = set.unwrap();
            assert_eq!(set[..3], display.fetch_pixel(x, 3)[..3]);
            let stored = match set[4] {
                Transfer::Data(byte) => byte,
                _ => panic!("no data byte"),
            };
            assert_eq!(stored >> bit & 1, 1);
            assert_eq!(stored & !(1 << bit), current & !(1 << bit));
            let cleared: Result<Vec<Transfer>, ()> = display.set_pixel(x, 3, false, Ok(stored));
            let after = match cleared.unwrap()[4] {
                Transfer::Data(byte) => byte,
                _ => panic!("no data byte"),
            };
            assert_eq!(after >> bit & 1, 0);
            assert_eq!(after & !(1 << bit), current & !(1 << bit));
        }
    }
}

#[test]
fn failed_read_is_handed_back_and_nothing_is_written() {
    let failed: Result<Vec<Transfer>, &str> = display().set_pixel(10, 2, true, Err("bus fault"));
    assert_eq!(failed, Err("bus fault"));
    let failed: Result<Vec<Transfer>, u32> = display().set_pixel(0, 0, false, Err(17));
    assert_eq!(failed, Err(17));
}

#[test]
fn pixels_beyond_the_address_space_are_told_apart() {
    let display = display();
    assert!(display.can_address(0, 0));
    assert!(display.can_address(319, 239));
    // 1200 + 1608 * 40 = 65520: fifteen more bytes fit.
    assert!(display.can_address(15 * 8 + 7, 1608));
    assert!(!display.can_address(16 * 8, 1608));
    assert!(!display.can_address(0, 65535));
    let wide = RA8835A::new(Config::new(16, 16, 320, 240).unwrap()).0;
    assert!(wide.can_address(7, 0));
    assert!(!wide.can_address(8, 0));
    assert!(wide.can_address(16, 0));
}

#[test]
fn each_transfer_has_its_cycle() {
    let display = display();
    assert_eq!(
        display.transfer(Transfer::Command(Command::Csrw)),
        display.write_command(Command::Csrw)
    );
    assert_eq!(
        display.transfer(Transfer::Data(0x7E)),
        display.write_data(0x7E)
    );
    assert_eq!(display.transfer(Transfer::Read), display.read_data());
    assert_ne!(
        display.transfer(Transfer::Data(0x46)),
        display.transfer(Transfer::Command(Command::Csrw))
    );
}

/// Display memory and cursor, as the transfers address them.
struct Memory {
    cells: Vec<u8>,
    cursor: usize,
    command: Option<Command>,
    received: usize,
}

impl Memory {
    fn filled_with(byte: u8) -> Memory {
        Memory {
            cells: vec![byte; 0x10000],
            cursor: 0x5555,
            command: None,
            received: 0,
        }
    }

    fn run(&mut self, program: &[Transfer]) -> Option<u8> {
        let mut sampled = None;
        for transfer in program {
            match (*transfer, self.command) {
                (Transfer::Command(command), _) => {
                    self.command = Some(command);
                    self.received = 0;
                }
                (Transfer::Data(byte), Some(Command::Csrw)) => {
                    if self.received == 0 {
                        self.cursor = self.cursor / 256 * 256 + byte as usize;
                    } else if self.received == 1 {
                        self.cursor = self.cursor % 256 + 256 * byte as usize;
                    }
                    self.received += 1;
                }
                (Transfer::Data(byte), Some(Command::Mwrite)) => {
                    self.cells[self.cursor] = byte;
                    self.cursor += 1;
                    self.received += 1;
                }
                (Transfer::Data(_), _) => self.received += 1,
                (Transfer::Read, Some(Command::Mread)) => {
                    sampled = Some(self.cells[self.cursor]);
                    self.cursor += 1;
                }
                (Transfer::Read, _) => {}
            }
        }
        sampled
    }

    fn plot(&mut self, display: &RA8835A, x: u16, y: u16, color: bool) {
        let current = self.run(&display.fetch_pixel(x, y)).unwrap();
        let store: Result<Vec<Transfer>, ()> = display.set_pixel(x, y, color, Ok(current));
        assert_eq!(self.run(&store.unwrap()), None);
    }
}

#[test]
fn pixel_set_in_memory_is_read_back_set() {
    let display = display();
    let mut memory = Memory::filled_with(0x00);
    memory.plot(&display, 10, 2, true);
    assert_eq!(memory.run(&display.fetch_pixel(10, 2)), Some(0x20));
    assert_eq!(memory.cells[1281], 0x20);
    assert_eq!(memory.cells.iter().filter(|byte| **byte != 0).count(), 1);
    memory.plot(&display, 15, 2, true);
    assert_eq!(memory.run(&display.fetch_pixel(10, 2)), Some(0x21));
    memory.plot(&display, 10, 2, false);
    assert_eq!(memory.run(&display.fetch_pixel(15, 2)), Some(0x01));
}

#[test]
fn pixel_cleared_in_memory_leaves_its_neighbours() {
    let display = display();
    let mut memory = Memory::filled_with(0xFF);
    memory.plot(&display, 319, 239, false);
    let address = 1200 + 239 * 40 + 39;
    assert_eq!(memory.run(&display.fetch_pixel(319, 239)), Some(0xFE));
    assert_eq!(memory.cells[address], 0xFE);
    assert_eq!(memory.cells.iter().filter(|byte| **byte != 0xFF).count(), 1);
}

#[test]
fn startup_leaves_cleared_memory() {
    let program = display().startup_program();
    let mut memory = Memory::filled_with(0xEE);
    assert_eq!(memory.run(&program), None);
    assert!(memory.cells[..28800].iter().all(|byte| *byte == 0));
    assert!(memory.cells[28800..].iter().all(|byte| *byte == 0xEE));
    assert_eq!(memory.cursor, 0);
}

#[test]
fn text_lands_in_the_text_layer() {
    let display = display();
    let mut memory = Memory::filled_with(0x00);
    memory.run(&display.write_text_at("Hi", 16, 8));
    assert_eq!(memory.cells[42], b'H');
    assert_eq!(memory.cells[43], b'i');
    memory.run(&display.write_text("!"));
    assert_eq!(memory.cells[44], b'!');
    memory.run(&display.write_char(b'?'));
    assert_eq!(memory.cells[45], b'?');
}

#[test]
fn shortest_delays_are_the_default() {
    let timing = Timing::minimum();
    assert_eq!(
        timing,
        Timing {
            write_setup_ns: 10,
            write_hold_ns: 150,
            read_setup_ns: 30,
            read_hold_ns: 30,
        }
    );
    assert!(timing.is_sufficient());
    assert_eq!(display().timing, timing);
}

#[test]
fn delays_below_the_minimum_are_told_apart() {
    let least = Timing::minimum();
    assert!(!Timing { write_setup_ns: 9, ..least }.is_sufficient());
    assert!(!Timing { write_hold_ns: 149, ..least }.is_sufficient());
    assert!(!Timing { read_setup_ns: 29, ..least }.is_sufficient());
    assert!(!Timing { read_hold_ns: 0, ..least }.is_sufficient());
    assert!(Timing { write_setup_ns: 20, write_hold_ns: 180, ..least }.is_sufficient());
}

#[test]
fn longer_delays_show_in_the_cycles_and_nowhere_else() {
    let config = Config::new(8, 8, 320, 240).unwrap();
    let timing = Timing {
        write_setup_ns: 20,
        write_hold_ns: 180,
        read_setup_ns: 40,
        read_hold_ns: 50,
    };
    let (slow, startup) = RA8835A::with_timing(config, timing);
    let (fast, usual) = RA8835A::new(config);
    assert_eq!(slow.config, config);
    assert_eq!(slow.timing, timing);
    assert_eq!(startup.len(), usual.len());
    assert_eq!(startup[..6], usual[..6]);
    assert_eq!(startup[8], Signal::DelayNs(20));
    assert_eq!(usual[8], Signal::DelayNs(10));
    assert_eq!(slow.startup_program(), fast.startup_program());
    assert_eq!(slow.set_cursor_address(7), fast.set_cursor_address(7));
    assert_eq!(
        slow.write_command(Command::Mread),
        vec![
            Signal::High(Line::RegisterSelect),
            Signal::Present(0x43),
            Signal::DelayNs(20),
            Signal::Low(Line::WriteStrobe),
            Signal::DelayNs(180),
            Signal::High(Line::WriteStrobe),
        ]
    );
    assert_eq!(
        slow.write_data(0x01),
        vec![
            Signal::Low(Line::RegisterSelect),
            Signal::Present(0x01),
            Signal::DelayNs(20),
            Signal::Low(Line::WriteStrobe),
            Signal::DelayNs(180),
            Signal::High(Line::WriteStrobe),
        ]
    );
    assert_eq!(
        slow.read_data(),
        vec![
            Signal::BusInput,
            Signal::Low(Line::RegisterSelect),
            Signal::Low(Line::ReadStrobe),
            Signal::DelayNs(40),
            Signal::Sample,
            Signal::DelayNs(50),
            Signal::High(Line::ReadStrobe),
            Signal::BusOutput,
        ]
    );
}

#[test]
fn screen_that_outgrows_the_address_space_has_pixels_without_address() {
    // 239 cells on 274 rows: the graphics layer begins at 65486.
    let config = Config::new(8, 127, 1912, 34798).unwrap();
    assert_eq!(config.graphics_layer_start, 65486);
    assert!(RA8835A::supports(&config));
    let display = RA8835A::new(config).0;
    assert!(display.can_address(0, 0));
    assert!(display.can_address(8 * 49 + 7, 0));
    assert!(!display.can_address(8 * 50, 0));
    assert!(!display.can_address(0, 1));
    assert!(!display.can_address(1911, 34797));
}

#[test]
fn screen_within_the_address_space_has_an_address_for_every_pixel() {
    let display = display();
    assert!(display.can_address(319, 239));
    for y in 0u16..240 {
        for x in 0u16..320 {
            assert!(display.can_address(x, y));
        }
    }
}
