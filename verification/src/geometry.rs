//! Memory layout of the controller, derived from font and screen size.

use vstd::prelude::*;

verus! {

/// Largest value that the controller's column register can hold.
pub const MAX_COLUMN_REGISTER: u16 = 239;

/// Why a geometry is refused.
#[derive(Debug, Clone, Copy, PartialEq, Eq, Structural)]
pub enum GeometryError {
    /// The bytes of one display line do not fit the column register.
    ColumnRegisterOverflow,
}

impl GeometryError {
    /// The error in words.
    pub fn message(&self) -> (text: String)
        ensures
            text@ == "CR exceeds maximum 239"@,
    {
        "CR exceeds maximum 239".to_owned()
    }
}

/// Character cells on one display line.
pub open spec fn chars_per_line(font_width: u8, screen_width: u16) -> int
    recommends
        font_width > 0,
{
    screen_width as int / font_width as int
}

/// Bytes that one row of a character cell takes: the font width in bits,
/// rounded up to whole bytes.
pub open spec fn bytes_per_char(font_width: u8) -> int {
    (font_width as int + 7) / 8
}

/// The value of the column register: bytes on one display line.
pub open spec fn column_register(font_width: u8, screen_width: u16) -> int
    recommends
        font_width > 0,
{
    chars_per_line(font_width, screen_width) * bytes_per_char(font_width)
}

/// Rows of character cells on the screen.
pub open spec fn text_rows(font_height: u8, screen_height: u16) -> int
    recommends
        font_height > 0,
{
    screen_height as int / font_height as int
}

/// Bytes of the text layer: one for each character cell.
pub open spec fn text_layer_size(
    font_width: u8,
    font_height: u8,
    screen_width: u16,
    screen_height: u16,
) -> int
    recommends
        font_width > 0,
        font_height > 0,
{
    chars_per_line(font_width, screen_width) * text_rows(font_height, screen_height)
}

/// The character cells on one display line, and the bytes that they take.
fn measure_line(font_width: u8, screen_width: u16) -> (found: (u16, u32))
    requires
        font_width > 0,
    ensures
        found.0 == chars_per_line(font_width, screen_width),
        found.1 == column_register(font_width, screen_width),
{
    let cells: u16 = screen_width / (font_width as u16);
    let cell_bytes: u16 = (font_width as u16 + 7) / 8;
    assert(cells as int * cell_bytes as int <= 0xFFFF * 32) by (nonlinear_arith)
        requires
            0 <= cells <= 0xFFFF,
            0 <= cell_bytes <= 32,
    ;
    (cells, (cells as u32) * (cell_bytes as u32))
}

/// The bytes of the text layer.
fn measure_text_layer(
    font_width: u8,
    font_height: u8,
    screen_width: u16,
    screen_height: u16,
) -> (size: u32)
    requires
        font_width > 0,
        font_height > 0,
    ensures
        size == text_layer_size(font_width, font_height, screen_width, screen_height),
{
    let cells: u16 = screen_width / (font_width as u16);
    let rows: u16 = screen_height / (font_height as u16);
    assert(cells as int * rows as int <= 0xFFFF * 0xFFFF) by (nonlinear_arith)
        requires
            0 <= cells <= 0xFFFF,
            0 <= rows <= 0xFFFF,
    ;
    (cells as u32) * (rows as u32)
}

/// A display's font cell and screen size in pixels, and where its text and
/// graphics layers begin in the controller's memory.
#[derive(Debug, Clone, Copy, PartialEq, Eq, Structural)]
pub struct Config {
    pub font_width: u8,
    pub font_height: u8,
    pub screen_width: u16,
    pub screen_height: u16,
    pub text_layer_start: u16,
    pub graphics_layer_start: u16,
}

impl Config {
    /// The layout is the one that the sizes determine: the column register
    /// is within its limit, the text layer begins at address zero and the
    /// graphics layer directly behind it.
    pub open spec fn valid(self) -> bool {
        &&& self.font_width > 0
        &&& self.font_height > 0
        &&& column_register(self.font_width, self.screen_width) <= MAX_COLUMN_REGISTER
        &&& self.text_layer_start == 0
        &&& self.graphics_layer_start == self.text_layer_start + text_layer_size(
            self.font_width,
            self.font_height,
            self.screen_width,
            self.screen_height,
        )
    }

    /// Character cells on one display line.
    pub open spec fn spec_chars_per_line(self) -> int {
        chars_per_line(self.font_width, self.screen_width)
    }

    /// The value of the column register.
    pub open spec fn spec_column_register(self) -> int {
        column_register(self.font_width, self.screen_width)
    }

    /// Sizes that `new` can decide on: the font cell is not empty, and a
    /// text layer that fits the column register ends within the 16-bit
    /// address space.
    pub open spec fn decidable(
        font_width: u8,
        font_height: u8,
        screen_width: u16,
        screen_height: u16,
    ) -> bool {
        &&& font_width > 0
        &&& font_height > 0
        &&& column_register(font_width, screen_width) <= MAX_COLUMN_REGISTER ==> text_layer_size(
            font_width,
            font_height,
            screen_width,
            screen_height,
        ) <= u16::MAX
    }

    /// Whether `new` can decide on these sizes.
    pub fn is_decidable(
        font_width: u8,
        font_height: u8,
        screen_width: u16,
        screen_height: u16,
    ) -> (yes: bool)
        ensures
            yes == Config::decidable(font_width, font_height, screen_width, screen_height),
    {
        if font_width == 0 || font_height == 0 {
            return false;
        }
        let (_, columns) = measure_line(font_width, screen_width);
        if columns > MAX_COLUMN_REGISTER as u32 {
            return true;
        }
        measure_text_layer(font_width, font_height, screen_width, screen_height) <= 0xFFFF
    }

    /// Whether the layout is the one that the sizes determine.
    pub fn is_valid(&self) -> (yes: bool)
        ensures
            yes == self.valid(),
    {
        if self.font_width == 0 || self.font_height == 0 {
            return false;
        }
        let (_, columns) = measure_line(self.font_width, self.screen_width);
        if columns > MAX_COLUMN_REGISTER as u32 {
            return false;
        }
        let size: u32 = measure_text_layer(
            self.font_width,
            self.font_height,
            self.screen_width,
            self.screen_height,
        );
        self.text_layer_start == 0 && size == self.graphics_layer_start as u32
    }

    /// Derives the memory layout for a font cell of `font_width` by
    /// `font_height` pixels on a screen of `screen_width` by `screen_height`
    /// pixels. Fails exactly when one display line takes more bytes than
    /// the column register can count. The font cell must not be empty, and
    /// the text layer must end within the 16-bit address space.
    pub fn new(font_width: u8, font_height: u8, screen_width: u16, screen_height: u16) -> (made:
        Result<Config, GeometryError>)
        requires
            Config::decidable(font_width, font_height, screen_width, screen_height),
        ensures
            column_register(font_width, screen_width) > MAX_COLUMN_REGISTER ==> made == Err::<
                Config,
                GeometryError,
            >(GeometryError::ColumnRegisterOverflow),
            column_register(font_width, screen_width) <= MAX_COLUMN_REGISTER ==> made == Ok::<
                Config,
                GeometryError,
            >(
                (Config {
                    font_width,
                    font_height,
                    screen_width,
                    screen_height,
                    text_layer_start: 0,
                    graphics_layer_start: text_layer_size(
                        font_width,
                        font_height,
                        screen_width,
                        screen_height,
                    ) as u16,
                }),
            ),
            made is Ok ==> made.unwrap().valid(),
            made is Ok ==> made.unwrap().graphics_layer_start >= made.unwrap().text_layer_start
                + chars_per_line(font_width, screen_width) * text_rows(font_height, screen_height),
    {
        let (_, columns) = measure_line(font_width, screen_width);
        if columns > MAX_COLUMN_REGISTER as u32 {
            return Err(GeometryError::ColumnRegisterOverflow);
        }
        let size: u32 = measure_text_layer(font_width, font_height, screen_width, screen_height);
        let text_layer_start: u16 = 0;
        let graphics_layer_start: u16 = text_layer_start + size as u16;
        Ok(
            Config {
                font_width,
                font_height,
                screen_width,
                screen_height,
                text_layer_start,
                graphics_layer_start,
            },
        )
    }

    /// Character cells on one display line.
    pub fn chars_per_line(&self) -> (cells: u16)
        requires
            self.font_width > 0,
        ensures
            cells == self.spec_chars_per_line(),
    {
        self.screen_width / (self.font_width as u16)
    }

    /// The value of the column register: bytes on one display line.
    pub fn column_register(&self) -> (columns: u8)
        requires
            self.valid(),
        ensures
            columns == self.spec_column_register(),
    {
        let (_, columns) = measure_line(self.font_width, self.screen_width);
        columns as u8
    }
}

} // verus!
