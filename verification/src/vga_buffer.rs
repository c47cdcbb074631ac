//! The text console: a bounds-checked 80x25 grid of character cells with a
//! cursor on the bottom row. Writing past the last column wraps to a new
//! line; a new line scrolls every row up by one and clears the bottom row;
//! bytes outside the printable range are replaced by a placeholder glyph.
//!
//! The writer here owns its grid. The kernel binary mirrors the verified
//! grid into the memory-mapped hardware buffer cell by cell.

use vstd::prelude::*;
use vstd::string::StringSliceAdditionalSpecFns;

verus! {

/// Number of rows of the console grid.
pub const BUFFER_HEIGHT: usize = 25;

/// Number of columns of the console grid.
pub const BUFFER_WIDTH: usize = 80;

/// The byte that ends a line.
pub const NEWLINE: u8 = 0x0a;

/// The glyph shown in place of a byte outside the printable range.
pub const PLACEHOLDER: u8 = 0xfe;

/// The blank cell byte.
pub const BLANK: u8 = 0x20;

/// The sixteen hardware console colors.
#[derive(Clone, Copy, Debug, PartialEq, Eq, Structural)]
pub enum Color {
    Black,
    Blue,
    Green,
    Cyan,
    Red,
    Magenta,
    Brown,
    LightGray,
    DarkGray,
    LightBlue,
    LightGreen,
    LightCyan,
    LightRed,
    Pink,
    Yellow,
    White,
}

impl Color {
    /// The hardware code of this color, 0 through 15.
    pub open spec fn spec_code(self) -> u8 {
        match self {
            Color::Black => 0,
            Color::Blue => 1,
            Color::Green => 2,
            Color::Cyan => 3,
            Color::Red => 4,
            Color::Magenta => 5,
            Color::Brown => 6,
            Color::LightGray => 7,
            Color::DarkGray => 8,
            Color::LightBlue => 9,
            Color::LightGreen => 10,
            Color::LightCyan => 11,
            Color::LightRed => 12,
            Color::Pink => 13,
            Color::Yellow => 14,
            Color::White => 15,
        }
    }

    /// The hardware code of this color.
    pub fn code(self) -> (r: u8)
        ensures
            r == self.spec_code(),
            r <= 15,
    {
        match self {
            Color::Black => 0,
            Color::Blue => 1,
            Color::Green => 2,
            Color::Cyan => 3,
            Color::Red => 4,
            Color::Magenta => 5,
            Color::Brown => 6,
            Color::LightGray => 7,
            Color::DarkGray => 8,
            Color::LightBlue => 9,
            Color::LightGreen => 10,
            Color::LightCyan => 11,
            Color::LightRed => 12,
            Color::Pink => 13,
            Color::Yellow => 14,
            Color::White => 15,
        }
    }
}

/// A combined color attribute: background color in the high four bits,
/// foreground color in the low four.
#[derive(Clone, Copy, Debug, PartialEq, Eq, Structural)]
pub struct ColorCode(pub u8);

impl ColorCode {
    /// Packs a foreground and a background color into one attribute byte.
    pub fn new(foreground: Color, background: Color) -> (r: ColorCode)
        ensures
            r.0 == background.spec_code() * 16 + foreground.spec_code(),
    {
        ColorCode(background.code() * 16 + foreground.code())
    }
}

/// One cell of the console grid: a character byte and its color attribute.
#[derive(Clone, Copy, Debug, PartialEq, Eq, Structural)]
pub struct ScreenChar {
    pub ascii_character: u8,
    pub color_code: ColorCode,
}

/// The blank cell in the given color.
pub open spec fn spec_blank(color: ColorCode) -> ScreenChar {
    ScreenChar { ascii_character: BLANK, color_code: color }
}

/// A whole row of blank cells.
pub open spec fn spec_blank_row(color: ColorCode) -> Seq<ScreenChar> {
    Seq::new(BUFFER_WIDTH as nat, |c: int| spec_blank(color))
}

/// The grid after scrolling: every row moves up by one and the bottom row
/// becomes blank.
pub open spec fn spec_scrolled(grid: Seq<Seq<ScreenChar>>, color: ColorCode) -> Seq<
    Seq<ScreenChar>,
> {
    Seq::new(
        BUFFER_HEIGHT as nat,
        |r: int|
            if r < BUFFER_HEIGHT - 1 {
                grid[r + 1]
            } else {
                spec_blank_row(color)
            },
    )
}

/// The grid with the cell at column `col` of the bottom row replaced.
pub open spec fn spec_put(grid: Seq<Seq<ScreenChar>>, col: int, ch: ScreenChar) -> Seq<
    Seq<ScreenChar>,
> {
    grid.update(BUFFER_HEIGHT - 1, grid[BUFFER_HEIGHT - 1].update(col, ch))
}

/// The grid after one byte is written at cursor column `col`: a newline
/// scrolls; a full bottom row scrolls first and the byte lands in column 0;
/// otherwise the byte lands at the cursor.
pub open spec fn spec_write_byte_grid(
    grid: Seq<Seq<ScreenChar>>,
    col: int,
    color: ColorCode,
    byte: u8,
) -> Seq<Seq<ScreenChar>> {
    if byte == NEWLINE {
        spec_scrolled(grid, color)
    } else if col >= BUFFER_WIDTH {
        spec_put(spec_scrolled(grid, color), 0, ScreenChar { ascii_character: byte, color_code: color })
    } else {
        spec_put(grid, col, ScreenChar { ascii_character: byte, color_code: color })
    }
}

/// The cursor column after one byte is written at cursor column `col`.
pub open spec fn spec_write_byte_col(col: int, byte: u8) -> int {
    if byte == NEWLINE {
        0
    } else if col >= BUFFER_WIDTH {
        1
    } else {
        col + 1
    }
}

/// Whether the console shows this byte as itself: the printable range
/// `0x20..=0x7e`, or a newline.
pub open spec fn spec_printable(byte: u8) -> bool {
    (0x20 <= byte <= 0x7e) || byte == NEWLINE
}

/// The byte actually written: the byte itself when printable, else the
/// placeholder glyph.
pub open spec fn spec_glyph(byte: u8) -> u8 {
    if spec_printable(byte) {
        byte
    } else {
        PLACEHOLDER
    }
}

/// The grid and cursor column after a whole byte string is written, each
/// byte first normalized to its glyph.
pub open spec fn spec_write_bytes(
    grid: Seq<Seq<ScreenChar>>,
    col: int,
    color: ColorCode,
    s: Seq<u8>,
) -> (Seq<Seq<ScreenChar>>, int)
    decreases s.len(),
{
    if s.len() <= 0 {
        (grid, col)
    } else {
        let b = spec_glyph(s[0]);
        spec_write_bytes(
            spec_write_byte_grid(grid, col, color, b),
            spec_write_byte_col(col, b),
            color,
            s.drop_first(),
        )
    }
}

/// Writing a byte string and then one more byte is the same as writing the
/// string extended by that byte.
pub proof fn lemma_write_bytes_snoc(
    grid: Seq<Seq<ScreenChar>>,
    col: int,
    color: ColorCode,
    s: Seq<u8>,
    b: u8,
)
    ensures
        spec_write_bytes(grid, col, color, s.push(b)).0 == spec_write_byte_grid(
            spec_write_bytes(grid, col, color, s).0,
            spec_write_bytes(grid, col, color, s).1,
            color,
            spec_glyph(b),
        ),
        spec_write_bytes(grid, col, color, s.push(b)).1 == spec_write_byte_col(
            spec_write_bytes(grid, col, color, s).1,
            spec_glyph(b),
        ),
    decreases s.len(),
{
    reveal_with_fuel(spec_write_bytes, 3);
    if s.len() == 0 {
        assert(s.push(b)[0] == b);
        assert(s.push(b).drop_first() =~= Seq::<u8>::empty());
    } else {
        assert(s.push(b)[0] == s[0]);
        assert(s.push(b).drop_first() =~= s.drop_first().push(b));
        lemma_write_bytes_snoc(
            spec_write_byte_grid(grid, col, color, spec_glyph(s[0])),
            spec_write_byte_col(col, spec_glyph(s[0])),
            color,
            s.drop_first(),
            b,
        );
    }
}

/// Writes to the console grid: a cursor column on the bottom row, the color
/// used for new cells, and the grid itself.
pub struct Writer {
    pub column_position: usize,
    pub color_code: ColorCode,
    pub buffer: Vec<Vec<ScreenChar>>,
}

impl Writer {
    /// The grid as a sequence of rows of cells.
    pub open spec fn grid(self) -> Seq<Seq<ScreenChar>> {
        self.buffer@.map_values(|row: Vec<ScreenChar>| row@)
    }

    /// The writer's invariant: the grid is exactly `BUFFER_HEIGHT` rows of
    /// `BUFFER_WIDTH` cells, and the cursor is at most one past the last
    /// column.
    pub open spec fn wf(self) -> bool {
        &&& self.buffer@.len() == BUFFER_HEIGHT
        &&& (forall|r: int|
            0 <= r < BUFFER_HEIGHT ==> (#[trigger] self.buffer@[r])@.len() == BUFFER_WIDTH)
        &&& self.column_position <= BUFFER_WIDTH
    }

    /// A fresh row of blank cells in the given color.
    fn blank_row(color: ColorCode) -> (r: Vec<ScreenChar>)
        ensures
            r@ =~= spec_blank_row(color),
    {
        let mut row: Vec<ScreenChar> = Vec::new();
        while row.len() < BUFFER_WIDTH
            invariant
                row@.len() <= BUFFER_WIDTH,
                forall|c: int| 0 <= c < row@.len() ==> row@[c] == spec_blank(color),
            decreases BUFFER_WIDTH - row@.len(),
        {
            row.push(ScreenChar { ascii_character: BLANK, color_code: color });
        }
        assert(row@ =~= spec_blank_row(color));
        row
    }

    /// A writer over a blank grid, cursor in column 0.
    pub fn new(color_code: ColorCode) -> (w: Writer)
        ensures
            w.wf(),
            w.column_position == 0,
            w.color_code == color_code,
            forall|r: int, c: int|
                0 <= r < BUFFER_HEIGHT && 0 <= c < BUFFER_WIDTH ==> #[trigger] w.grid()[r][c]
                    == spec_blank(color_code),
    {
        let mut buffer: Vec<Vec<ScreenChar>> = Vec::new();
        while buffer.len() < BUFFER_HEIGHT
            invariant
                buffer@.len() <= BUFFER_HEIGHT,
                forall|r: int|
                    0 <= r < buffer@.len() ==> (#[trigger] buffer@[r])@ =~= spec_blank_row(
                        color_code,
                    ),
            decreases BUFFER_HEIGHT - buffer@.len(),
        {
            buffer.push(Self::blank_row(color_code));
        }
        Writer { column_position: 0, color_code, buffer }
    }

    /// The cell shown at `row`, `col`.
    pub fn char_at(&self, row: usize, col: usize) -> (r: ScreenChar)
        requires
            self.wf(),
            row < BUFFER_HEIGHT,
            col < BUFFER_WIDTH,
        ensures
            r == self.grid()[row as int][col as int],
    {
        self.buffer[row][col]
    }

    /// Overwrites one row with blank cells in the writer's color.
    fn clear_row(&mut self, row: usize)
        requires
            old(self).wf(),
            row < BUFFER_HEIGHT,
        ensures
            final(self).wf(),
            final(self).column_position == old(self).column_position,
            final(self).color_code == old(self).color_code,
            final(self).grid() =~= old(self).grid().update(
                row as int,
                spec_blank_row(old(self).color_code),
            ),
    {
        let blank = Self::blank_row(self.color_code);
        self.buffer[row] = blank;
        proof {
            assert(self.grid() =~= old(self).grid().update(
                row as int,
                spec_blank_row(old(self).color_code),
            ));
        }
    }

    /// Scrolls: moves every row up by one, clears the bottom row, and
    /// returns the cursor to column 0.
    fn new_line(&mut self)
        requires
            old(self).wf(),
        ensures
            final(self).wf(),
            final(self).color_code == old(self).color_code,
            final(self).column_position == 0,
            final(self).grid() =~= spec_scrolled(old(self).grid(), old(self).color_code),
    {
        let mut row: usize = 1;
        while row < BUFFER_HEIGHT
            invariant
                old(self).wf(),
                1 <= row <= BUFFER_HEIGHT,
                self.buffer@.len() == BUFFER_HEIGHT,
                forall|r: int|
                    0 <= r < BUFFER_HEIGHT ==> (#[trigger] self.buffer@[r])@.len()
                        == BUFFER_WIDTH,
                self.color_code == old(self).color_code,
                self.column_position == old(self).column_position,
                forall|r: int|
                    0 <= r < row - 1 ==> (#[trigger] self.buffer@[r])@ == old(self).buffer@[r
                        + 1]@,
                forall|r: int|
                    row - 1 <= r < BUFFER_HEIGHT ==> (#[trigger] self.buffer@[r])@ == old(
                        self,
                    ).buffer@[r]@,
            decreases BUFFER_HEIGHT - row,
        {
            let mut col: usize = 0;
            while col < BUFFER_WIDTH
                invariant
                    old(self).wf(),
                    1 <= row < BUFFER_HEIGHT,
                    col <= BUFFER_WIDTH,
                    self.buffer@.len() == BUFFER_HEIGHT,
                    forall|r: int|
                        0 <= r < BUFFER_HEIGHT ==> (#[trigger] self.buffer@[r])@.len()
                            == BUFFER_WIDTH,
                    self.color_code == old(self).color_code,
                    self.column_position == old(self).column_position,
                    forall|r: int|
                        0 <= r < row - 1 ==> (#[trigger] self.buffer@[r])@ == old(
                            self,
                        ).buffer@[r + 1]@,
                    forall|c: int|
                        0 <= c < col ==> (#[trigger] self.buffer@[row - 1]@[c]) == old(
                            self,
                        ).buffer@[row as int]@[c],
                    forall|c: int|
                        col <= c < BUFFER_WIDTH ==> (#[trigger] self.buffer@[row - 1]@[c]) == old(
                            self,
                        ).buffer@[row - 1]@[c],
                    forall|r: int|
                        row <= r < BUFFER_HEIGHT ==> (#[trigger] self.buffer@[r])@ == old(
                            self,
                        ).buffer@[r]@,
                decreases BUFFER_WIDTH - col,
            {
                let character = self.buffer[row][col];
                self.buffer[row - 1][col] = character;
                col = col + 1;
            }
            proof {
                assert(self.buffer@[row - 1]@.len() == BUFFER_WIDTH);
                assert(old(self).buffer@[row as int]@.len() == BUFFER_WIDTH);
                assert forall|c: int| 0 <= c < BUFFER_WIDTH implies self.buffer@[row - 1]@[c]
                    == old(self).buffer@[row as int]@[c] by {}
                assert(self.buffer@[row - 1]@ =~= old(self).buffer@[row as int]@);
            }
            row = row + 1;
        }
        self.clear_row(BUFFER_HEIGHT - 1);
        self.column_position = 0;
        proof {
            assert(self.grid() =~= spec_scrolled(old(self).grid(), old(self).color_code));
        }
    }

    /// Writes one byte: a newline scrolls; otherwise the byte lands at the
    /// cursor on the bottom row, wrapping to a fresh line first when the row
    /// is full.
    pub fn write_byte(&mut self, byte: u8)
        requires
            old(self).wf(),
        ensures
            final(self).wf(),
            final(self).color_code == old(self).color_code,
            final(self).grid() =~= spec_write_byte_grid(
                old(self).grid(),
                old(self).column_position as int,
                old(self).color_code,
                byte,
            ),
            final(self).column_position == spec_write_byte_col(
                old(self).column_position as int,
                byte,
            ),
    {
        if byte == NEWLINE {
            self.new_line();
        } else {
            if self.column_position >= BUFFER_WIDTH {
                self.new_line();
            }
            let row = BUFFER_HEIGHT - 1;
            let col = self.column_position;
            let color_code = self.color_code;
            let ghost before = self.grid();
            self.buffer[row][col] = ScreenChar { ascii_character: byte, color_code };
            self.column_position = self.column_position + 1;
            proof {
                assert(self.grid() =~= spec_put(
                    before,
                    col as int,
                    ScreenChar { ascii_character: byte, color_code },
                ));
            }
        }
    }

    /// Writes a byte string byte by byte: printable bytes and newlines as
    /// themselves, every other byte as the placeholder glyph.
    pub fn write_bytes(&mut self, bytes: &[u8])
        requires
            old(self).wf(),
        ensures
            final(self).wf(),
            final(self).color_code == old(self).color_code,
            final(self).grid() == spec_write_bytes(
                old(self).grid(),
                old(self).column_position as int,
                old(self).color_code,
                bytes@,
            ).0,
            final(self).column_position == spec_write_bytes(
                old(self).grid(),
                old(self).column_position as int,
                old(self).color_code,
                bytes@,
            ).1,
    {
        let ghost g0 = old(self).grid();
        let ghost c0 = old(self).column_position as int;
        let ghost color = old(self).color_code;
        let mut i: usize = 0;
        while i < bytes.len()
            invariant
                self.wf(),
                i <= bytes@.len(),
                self.color_code == color,
                self.grid() == spec_write_bytes(g0, c0, color, bytes@.take(i as int)).0,
                self.column_position == spec_write_bytes(g0, c0, color, bytes@.take(i as int)).1,
            decreases bytes@.len() - i,
        {
            let byte = bytes[i];
            proof {
                lemma_write_bytes_snoc(g0, c0, color, bytes@.take(i as int), byte);
                assert(bytes@.take(i as int).push(byte) =~= bytes@.take(i as int + 1));
            }
            if (0x20 <= byte && byte <= 0x7e) || byte == NEWLINE {
                self.write_byte(byte);
            } else {
                self.write_byte(PLACEHOLDER);
            }
            i = i + 1;
        }
        proof {
            assert(bytes@.take(bytes@.len() as int) =~= bytes@);
        }
    }

    /// Writes a string byte by byte: printable bytes and newlines as
    /// themselves, every other byte as the placeholder glyph.
    pub fn write_string(&mut self, s: &str)
        requires
            old(self).wf(),
        ensures
            final(self).wf(),
            final(self).color_code == old(self).color_code,
            final(self).grid() == spec_write_bytes(
                old(self).grid(),
                old(self).column_position as int,
                old(self).color_code,
                s.spec_bytes(),
            ).0,
            final(self).column_position == spec_write_bytes(
                old(self).grid(),
                old(self).column_position as int,
                old(self).color_code,
                s.spec_bytes(),
            ).1,
    {
        self.write_bytes(s.as_bytes());
    }
}

} // verus!
