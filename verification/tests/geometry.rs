use ra8835a::{Command, Config, GeometryError};

#[test]
fn layout_of_a_320_by_240_screen_with_8_by_8_font() {
    let config = Config::new(8, 8, 320, 240).unwrap();
    assert_eq!(config.font_width, 8);
    assert_eq!(config.font_height, 8);
    assert_eq!(config.screen_width, 320);
    assert_eq!(config.screen_height, 240);
    assert_eq!(config.text_layer_start, 0);
    assert_eq!(config.graphics_layer_start, 1200);
    assert_eq!(config.chars_per_line(), 40);
    assert_eq!(config.column_register(), 40);
    assert!(config.is_valid());
}

#[test]
fn column_register_above_limit_is_refused() {
    assert_eq!(
        Config::new(1, 8, 320, 240),
        Err(GeometryError::ColumnRegisterOverflow)
    );
    assert_eq!(
        Config::new(8, 8, 1920, 240),
        Err(GeometryError::ColumnRegisterOverflow)
    );
}

#[test]
fn column_register_at_the_limit_is_accepted() {
    let config = Config::new(1, 1, 239, 10).unwrap();
    assert_eq!(config.column_register(), 239);
    assert_eq!(config.graphics_layer_start, 2390);
    assert_eq!(
        Config::new(1, 1, 240, 10),
        Err(GeometryError::ColumnRegisterOverflow)
    );
}

#[test]
fn wide_font_takes_two_bytes_per_character() {
    // 20 cells of 2 bytes each.
    let config = Config::new(16, 16, 320, 240).unwrap();
    assert_eq!(config.chars_per_line(), 20);
    assert_eq!(config.column_register(), 40);
    assert_eq!(config.graphics_layer_start, 20 * 15);
    // 120 cells of 2 bytes each are one byte too many.
    assert_eq!(
        Config::new(9, 8, 1080, 8),
        Err(GeometryError::ColumnRegisterOverflow)
    );
    // 119 cells of 2 bytes each fit.
    assert_eq!(Config::new(9, 8, 1079, 8).unwrap().column_register(), 238);
}

#[test]
fn partial_cells_do_not_count() {
    let config = Config::new(6, 10, 320, 245).unwrap();
    assert_eq!(config.chars_per_line(), 53);
    assert_eq!(config.graphics_layer_start, 53 * 24);
}

#[test]
fn graphics_layer_follows_text_layer_for_many_sizes() {
    for font_width in 1u8..=32 {
        for font_height in [1u8, 7, 8, 16] {
            for screen_width in [0u16, 1, 64, 239, 240, 320, 640, 4000] {
                for screen_height in [0u16, 1, 64, 240] {
                    assert!(Config::is_decidable(
                        font_width,
                        font_height,
                        screen_width,
                        screen_height
                    ));
                    let cells = (screen_width / font_width as u16) as u32;
                    let columns = cells * ((font_width as u32 + 7) / 8);
                    let made = Config::new(font_width, font_height, screen_width, screen_height);
                    if columns > 239 {
                        assert_eq!(made, Err(GeometryError::ColumnRegisterOverflow));
                    } else {
                        let config = made.unwrap();
                        let rows = (screen_height / font_height as u16) as u32;
                        assert_eq!(config.text_layer_start, 0);
                        assert_eq!(config.graphics_layer_start as u32, cells * rows);
                        assert!(config.is_valid());
                    }
                }
            }
        }
    }
}

#[test]
fn sizes_that_cannot_be_decided_are_told_apart() {
    assert!(!Config::is_decidable(0, 8, 320, 240));
    assert!(!Config::is_decidable(8, 0, 320, 240));
    // 239 cells on 65535 rows end far beyond the address space.
    assert!(!Config::is_decidable(1, 1, 239, 65535));
    // Beyond the column register nothing is laid out, so nothing overflows.
    assert!(Config::is_decidable(1, 1, 240, 65535));
    assert!(Config::is_decidable(1, 1, 239, 274));
    assert!(!Config::is_decidable(1, 1, 239, 275));
}

#[test]
fn a_layout_put_together_by_hand_is_checked() {
    let good = Config::new(8, 8, 320, 240).unwrap();
    let mut moved = good;
    moved.graphics_layer_start = 1201;
    assert!(!moved.is_valid());
    let mut shifted = good;
    shifted.text_layer_start = 1;
    assert!(!shifted.is_valid());
    let mut empty = good;
    empty.font_width = 0;
    assert!(!empty.is_valid());
    let mut long = good;
    long.screen_width = 1920;
    long.graphics_layer_start = 240 * 30;
    assert!(!long.is_valid());
}

#[test]
fn commands_have_the_datasheet_codes() {
    let table = [
        (Command::SystemSet, 0x40u8),
        (Command::SleepIn, 0x53),
        (Command::DisplayOff, 0x58),
        (Command::DisplayOn, 0x59),
        (Command::Scroll, 0x44),
        (Command::CsrForm, 0x5D),
        (Command::CgRamAdr, 0x5C),
        (Command::CsrDirRight, 0x4C),
        (Command::CsrDirLeft, 0x4D),
        (Command::CsrDirUp, 0x4E),
        (Command::CsrDirDown, 0x4F),
        (Command::HdotScr, 0x5A),
        (Command::Ovlay, 0x5B),
        (Command::Csrw, 0x46),
        (Command::Csrr, 0x47),
        (Command::Mwrite, 0x42),
        (Command::Mread, 0x43),
    ];
    for (command, code) in table {
        assert_eq!(command.code(), code);
        assert_eq!(Command::from_code(code), Some(command));
    }
}

#[test]
fn other_bytes_are_no_commands() {
    let mut known = 0;
    for byte in 0u8..=255 {
        match Command::from_code(byte) {
            Some(command) => {
                assert_eq!(command.code(), byte);
                known += 1;
            }
            None => {}
        }
    }
    assert_eq!(known, 17);
    assert_eq!(Command::from_code(0x00), None);
    assert_eq!(Command::from_code(0x41), None);
    assert_eq!(Command::from_code(0xFF), None);
}

#[test]
fn refusal_says_why() {
    let refused = Config::new(1, 8, 320, 240).unwrap_err();
    assert_eq!(refused.message(), "CR exceeds maximum 239");
}
