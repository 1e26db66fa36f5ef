//! Text-mode console: a fixed grid of colored characters that wraps long
//! lines and scrolls up by one row when the bottom row is left.
//!
//! The grid is held here as plain data; copying it to the memory-mapped text
//! buffer is done by the caller. Characters are always written on the bottom
//! row; a newline shifts every row up by one, drops the top row and clears
//! the bottom one.

use vstd::prelude::*;
use vstd::string::StringSliceAdditionalSpecFns;

verus! {

/// Number of rows of the text grid.
pub const BUFFER_HEIGHT: usize = 25;

/// Number of columns of the text grid.
pub const BUFFER_WIDTH: usize = 80;

/// The newline byte: ends the current row.
pub const NEWLINE: u8 = 0x0a;

/// Glyph written in place of a byte outside the printable ASCII range.
pub const PLACEHOLDER: u8 = 0xfe;

/// The sixteen colors of VGA text mode (8 to 15 are the light variants).
#[derive(Clone, Copy, Debug, PartialEq, Eq, Structural)]
pub enum Color {
    Black,
    Blue,
    Green,
    Cyan,
    Red,
    Magenta,
    Brown,
    LightGray,
    DarkGray,
    LightBlue,
    LightGreen,
    LightCyan,
    LightRed,
    Pink,
    Yellow,
    White,
}

impl Color {
    /// The 4-bit hardware number of this color.
    pub open spec fn spec_number(self) -> u8 {
        match self {
            Color::Black => 0,
            Color::Blue => 1,
            Color::Green => 2,
            Color::Cyan => 3,
            Color::Red => 4,
            Color::Magenta => 5,
            Color::Brown => 6,
            Color::LightGray => 7,
            Color::DarkGray => 8,
            Color::LightBlue => 9,
            Color::LightGreen => 10,
            Color::LightCyan => 11,
            Color::LightRed => 12,
            Color::Pink => 13,
            Color::Yellow => 14,
            Color::White => 15,
        }
    }

    /// The 4-bit hardware number of this color.
    pub fn number(&self) -> (r: u8)
        ensures
            r == self.spec_number(),
            r < 16,
    {
        match self {
            Color::Black => 0,
            Color::Blue => 1,
            Color::Green => 2,
            Color::Cyan => 3,
            Color::Red => 4,
            Color::Magenta => 5,
            Color::Brown => 6,
            Color::LightGray => 7,
            Color::DarkGray => 8,
            Color::LightBlue => 9,
            Color::LightGreen => 10,
            Color::LightCyan => 11,
            Color::LightRed => 12,
            Color::Pink => 13,
            Color::Yellow => 14,
            Color::White => 15,
        }
    }
}

/// Attribute byte of a cell: foreground in bits 0-3, background in bits 4-6,
/// blink in bit 7.
#[derive(Clone, Copy, Debug, PartialEq, Eq, Structural)]
pub struct ColorCode(pub u8);

/// The attribute byte for a foreground, a background and a blink flag. A
/// light background (8 or more) occupies bit 7 itself, so blink is then
/// ignored.
pub open spec fn color_byte(fg: Color, bg: Color, blink: bool) -> int {
    bg.spec_number() * 16 + fg.spec_number() + if bg.spec_number() < 8 && blink {
        128int
    } else {
        0int
    }
}

impl ColorCode {
    /// Packs foreground, background and blink into one attribute byte.
    pub fn new(fg: Color, bg: Color, blink: bool) -> (r: ColorCode)
        ensures
            r.0 as int == color_byte(fg, bg, blink),
    {
        let bg_bits = bg.number();
        let fg_bits = fg.number();
        assert((bg_bits << 4u8) == bg_bits * 16) by (bit_vector)
            requires
                bg_bits < 16,
        ;
        let mut byte: u8 = (bg_bits << 4u8) + fg_bits;
        if bg_bits < 8 {
            let blink_bit: u8 = if blink {
                1
            } else {
                0
            };
            assert((blink_bit << 7u8) == blink_bit * 128) by (bit_vector)
                requires
                    blink_bit < 2,
            ;
            byte = byte + (blink_bit << 7u8);
        }
        ColorCode(byte)
    }
}

/// One cell of the grid: a byte of code page 437 and its attribute.
#[derive(Clone, Copy, Debug, PartialEq, Eq, Structural)]
pub struct ScreenChar {
    pub ascii_character: u8,
    pub color_code: ColorCode,
}

/// The empty cell that scrolling leaves behind.
pub open spec fn blank_char() -> ScreenChar {
    ScreenChar { ascii_character: 0, color_code: ColorCode(0) }
}

/// A row of empty cells.
pub open spec fn blank_row() -> Seq<ScreenChar> {
    Seq::new(BUFFER_WIDTH as nat, |i: int| blank_char())
}

/// The grid of a fresh console.
pub open spec fn blank_grid() -> Seq<Seq<ScreenChar>> {
    Seq::new(BUFFER_HEIGHT as nat, |i: int| blank_row())
}

/// What the console shows: its rows, top first, and the column at which the
/// next character goes on the bottom row.
pub struct Screen {
    pub grid: Seq<Seq<ScreenChar>>,
    pub column: int,
}

/// A screen of the fixed size with the cursor within the bottom row.
pub open spec fn screen_wf(s: Screen) -> bool {
    &&& s.grid.len() == BUFFER_HEIGHT
    &&& forall|r: int| 0 <= r < BUFFER_HEIGHT ==> (#[trigger] s.grid[r]).len() == BUFFER_WIDTH
    &&& 0 <= s.column <= BUFFER_WIDTH
}

/// Every row moved up by one; the top row is lost, the bottom one is empty.
pub open spec fn scrolled(g: Seq<Seq<ScreenChar>>) -> Seq<Seq<ScreenChar>> {
    g.drop_first().push(blank_row())
}

/// A new line: scroll, and go back to the first column.
pub open spec fn line_fed(s: Screen) -> Screen {
    Screen { grid: scrolled(s.grid), column: 0 }
}

/// The screen after writing one byte as it is, in the given color.
pub open spec fn after_byte(s: Screen, color: ColorCode, b: u8) -> Screen {
    if b == NEWLINE {
        line_fed(s)
    } else {
        let t = if s.column >= BUFFER_WIDTH {
            line_fed(s)
        } else {
            s
        };
        let bottom = BUFFER_HEIGHT - 1;
        let cell = ScreenChar { ascii_character: b, color_code: color };
        Screen {
            grid: t.grid.update(bottom, t.grid[bottom].update(t.column, cell)),
            column: t.column + 1,
        }
    }
}

/// Whether a byte is shown as itself: printable ASCII.
pub open spec fn is_printable(b: u8) -> bool {
    0x20 <= b <= 0x7e
}

/// The byte written for a byte of a string: printable ASCII and newline pass,
/// anything else becomes the placeholder glyph.
pub open spec fn shown(b: u8) -> u8 {
    if is_printable(b) || b == NEWLINE {
        b
    } else {
        PLACEHOLDER
    }
}

/// The screen after writing the bytes of a string, in order.
pub open spec fn after_text(s: Screen, color: ColorCode, bytes: Seq<u8>) -> Screen
    decreases bytes.len(),
{
    if bytes.len() == 0 {
        s
    } else {
        after_byte(after_text(s, color, bytes.drop_last()), color, shown(bytes.last()))
    }
}


/// A row of empty cells.
fn blank_row_vec() -> (r: Vec<ScreenChar>)
    ensures
        r@ == blank_row(),
{
    let mut row: Vec<ScreenChar> = Vec::new();
    let mut col: usize = 0;
    while col < BUFFER_WIDTH
        invariant
            col <= BUFFER_WIDTH,
            row@ == Seq::new(col as nat, |i: int| blank_char()),
        decreases BUFFER_WIDTH - col,
    {
        row.push(ScreenChar { ascii_character: 0, color_code: ColorCode(0) });
        col = col + 1;
        assert(row@ =~= Seq::new(col as nat, |i: int| blank_char()));
    }
    row
}

/// Writes bytes and strings to the console grid in one color.
pub struct Writer {
    /// Index of the topmost row that may hold text; every row above it is
    /// empty, so scrolling need not move them.
    top_row_position: usize,
    /// Column of the next character on the bottom row.
    column_position: usize,
    /// Attribute of the characters written.
    color_code: ColorCode,
    /// The grid, top row first.
    rows: Vec<Vec<ScreenChar>>,
}

impl View for Writer {
    type V = Screen;

    closed spec fn view(&self) -> Screen {
        Screen { grid: self.rows@.map_values(|r: Vec<ScreenChar>| r@), column: self.column_position as int }
    }
}

impl Writer {
    /// The attribute of the characters this writer writes.
    pub closed spec fn color(&self) -> ColorCode {
        self.color_code
    }

    /// The writer's internal invariant: a well-formed screen whose rows above
    /// `top_row_position` are empty.
    pub closed spec fn inv(&self) -> bool {
        &&& screen_wf(self@)
        &&& self.top_row_position < BUFFER_HEIGHT
        &&& forall|r: int| 0 <= r < self.top_row_position ==> (#[trigger] self.rows@[r])@ == blank_row()
    }

    /// A writer on an empty grid, at the start of the bottom row.
    pub fn new(color_code: ColorCode) -> (r: Writer)
        ensures
            r.inv(),
            screen_wf(r@),
            r@ == (Screen { grid: blank_grid(), column: 0 }),
            r.color() == color_code,
    {
        let mut rows: Vec<Vec<ScreenChar>> = Vec::new();
        let mut row: usize = 0;
        while row < BUFFER_HEIGHT
            invariant
                row <= BUFFER_HEIGHT,
                rows@.len() == row,
                forall|r: int| 0 <= r < row ==> (#[trigger] rows@[r])@ == blank_row(),
            decreases BUFFER_HEIGHT - row,
        {
            rows.push(blank_row_vec());
            row = row + 1;
        }
        let w = Writer {
            top_row_position: BUFFER_HEIGHT - 1,
            column_position: 0,
            color_code,
            rows,
        };
        assert(w@.grid =~= blank_grid());
        w
    }

    /// Moves every row up by one, clears the bottom row and returns to the
    /// first column. Only the rows from `top_row_position` down are touched:
    /// the ones above are already empty.
    fn new_line(&mut self)
        requires
            old(self).inv(),
        ensures
            final(self).inv(),
            final(self)@ == line_fed(old(self)@),
            final(self).color() == old(self).color(),
            final(self).top_row_position == if old(self).top_row_position > 0 {
                (old(self).top_row_position - 1) as usize
            } else {
                0
            },
    {
        let ghost old_rows = self.rows@;
        proof {
            assert forall|r: int| 0 <= r < BUFFER_HEIGHT implies (#[trigger] old_rows[r])@.len()
                == BUFFER_WIDTH by {
                assert(self@.grid[r] == old_rows[r]@);
            }
        }
        let top = self.top_row_position;
        let mut row: usize = top;
        while row < BUFFER_HEIGHT
            invariant
                top <= row <= BUFFER_HEIGHT,
                top == old(self).top_row_position,
                top < BUFFER_HEIGHT,
                old_rows == old(self).rows@,
                self.color_code == old(self).color_code,
                self.column_position == old(self).column_position,
                self.top_row_position == top,
                self.rows@.len() == BUFFER_HEIGHT,
                forall|r: int| 0 <= r < BUFFER_HEIGHT ==> (#[trigger] old_rows[r])@.len() == BUFFER_WIDTH,
                forall|r: int| 0 <= r < top ==> (#[trigger] old_rows[r])@ == blank_row(),
                forall|r: int| 0 <= r < top - 1 ==> (#[trigger] self.rows@[r])@ == blank_row(),
                forall|r: int| top - 1 <= r < row - 1 && 0 <= r ==> (#[trigger] self.rows@[r])@ == old_rows[r + 1]@,
                row > top ==> self.rows@[row - 1]@ == blank_row(),
                forall|r: int| row <= r < BUFFER_HEIGHT ==> (#[trigger] self.rows@[r]) == old_rows[r],
            decreases BUFFER_HEIGHT - row,
        {
            let mut moved = blank_row_vec();
            std::mem::swap(&mut self.rows[row], &mut moved);
            if row > 0 {
                self.rows.set(row - 1, moved);
            }
            row = row + 1;
        }
        if self.top_row_position > 0 {
            self.top_row_position = self.top_row_position - 1;
        }
        self.column_position = 0;
        proof {
            let g = self@.grid;
            let want = scrolled(old(self)@.grid);
            assert forall|r: int| 0 <= r < BUFFER_HEIGHT implies #[trigger] g[r] == want[r] by {
                if r < BUFFER_HEIGHT - 1 {
                    if r < top - 1 {
                        assert(old_rows[r + 1]@ == blank_row());
                    }
                }
            }
            assert(g =~= want);
        }
    }

    /// Writes one byte as it is: a newline scrolls; any other byte goes to
    /// the next column of the bottom row, after scrolling if the row is full.
    pub fn write_byte(&mut self, byte: u8)
        requires
            old(self).inv(),
        ensures
            final(self).inv(),
            screen_wf(final(self)@),
            final(self)@ == after_byte(old(self)@, old(self).color(), byte),
            final(self).color() == old(self).color(),
    {
        if byte == NEWLINE {
            self.new_line();
        } else {
            if self.column_position >= BUFFER_WIDTH {
                self.new_line();
            }
            let ghost before = self@;
            let row = BUFFER_HEIGHT - 1;
            let col = self.column_position;
            let screen_char = ScreenChar { ascii_character: byte, color_code: self.color_code };
            proof {
                assert(self.rows@[row as int]@ == before.grid[row as int]);
            }
            self.rows[row][col] = screen_char;
            self.column_position = self.column_position + 1;
            proof {
                let want = before.grid.update(row as int, before.grid[row as int].update(col as int, screen_char));
                assert(self@.grid =~= want);
                assert forall|r: int| 0 <= r < self.top_row_position implies (#[trigger] self.rows@[r])@
                    == blank_row() by {
                    assert(r != row);
                }
            }
        }
    }

    /// Writes a string byte by byte; bytes outside printable ASCII, other
    /// than newline, are shown as the placeholder glyph.
    pub fn write_string(&mut self, s: &str)
        requires
            old(self).inv(),
        ensures
            final(self).inv(),
            screen_wf(final(self)@),
            final(self)@ == after_text(old(self)@, old(self).color(), s.spec_bytes()),
            final(self).color() == old(self).color(),
    {
        let bytes = s.as_bytes();
        let mut i: usize = 0;
        while i < bytes.len()
            invariant
                i <= bytes@.len(),
                bytes@ == s.spec_bytes(),
                self.inv(),
                self.color() == old(self).color(),
                self@ == after_text(old(self)@, old(self).color(), bytes@.subrange(0, i as int)),
            decreases bytes@.len() - i,
        {
            let byte = bytes[i];
            let glyph: u8 = if (0x20 <= byte && byte <= 0x7e) || byte == NEWLINE {
                byte
            } else {
                PLACEHOLDER
            };
            self.write_byte(glyph);
            proof {
                let next = bytes@.subrange(0, i + 1);
                assert(next.drop_last() =~= bytes@.subrange(0, i as int));
                assert(next.last() == byte);
            }
            i = i + 1;
        }
        assert(bytes@.subrange(0, bytes@.len() as int) =~= bytes@);
    }

    /// A writer shows a well-formed screen: the grid's size, and the cursor
    /// within the bottom row.
    pub proof fn lemma_view_wf(&self)
        requires
            self.inv(),
        ensures
            screen_wf(self@),
    {
    }

    /// The cell at a row and a column of the grid.
    pub fn char_at(&self, row: usize, col: usize) -> (r: ScreenChar)
        requires
            self.inv(),
            row < BUFFER_HEIGHT,
            col < BUFFER_WIDTH,
        ensures
            r == self@.grid[row as int][col as int],
    {
        assert(self@.grid[row as int] == self.rows@[row as int]@);
        self.rows[row][col]
    }

    /// The column at which the next character goes.
    pub fn column(&self) -> (r: usize)
        ensures
            r == self@.column,
    {
        self.column_position
    }
}


/// A line as the console shows it: its bytes in the given color from the
/// first column on, then empty cells.
pub open spec fn row_of(line: Seq<u8>, color: ColorCode) -> Seq<ScreenChar> {
    Seq::new(
        BUFFER_WIDTH as nat,
        |i: int|
            if i < line.len() {
                ScreenChar { ascii_character: line[i], color_code: color }
            } else {
                blank_char()
            },
    )
}

/// A line that fits in one row and holds printable ASCII only.
pub open spec fn fits_row(line: Seq<u8>) -> bool {
    &&& line.len() <= BUFFER_WIDTH
    &&& forall|i: int| 0 <= i < line.len() ==> is_printable(#[trigger] line[i])
}

/// Lines joined by newlines, with none after the last line.
pub open spec fn joined(lines: Seq<Seq<u8>>) -> Seq<u8>
    decreases lines.len(),
{
    if lines.len() == 0 {
        Seq::empty()
    } else if lines.len() == 1 {
        lines[0]
    } else {
        joined(lines.drop_last()) + seq![NEWLINE] + lines.last()
    }
}

/// Writing `a` then `b` is writing `a + b`.
proof fn lemma_after_text_append(s: Screen, color: ColorCode, a: Seq<u8>, b: Seq<u8>)
    ensures
        after_text(s, color, a + b) == after_text(after_text(s, color, a), color, b),
    decreases b.len(),
{
    if b.len() == 0 {
        assert(a + b =~= a);
    } else {
        lemma_after_text_append(s, color, a, b.drop_last());
        assert((a + b).drop_last() =~= a + b.drop_last());
        assert((a + b).last() == b.last());
    }
}

/// Writing keeps the screen well formed.
proof fn lemma_after_text_wf(s: Screen, color: ColorCode, bytes: Seq<u8>)
    requires
        screen_wf(s),
    ensures
        screen_wf(after_text(s, color, bytes)),
    decreases bytes.len(),
{
    if bytes.len() > 0 {
        lemma_after_text_wf(s, color, bytes.drop_last());
        let t = after_text(s, color, bytes.drop_last());
        let fed = line_fed(t);
        assert forall|r: int| 0 <= r < BUFFER_HEIGHT implies (#[trigger] fed.grid[r]).len()
            == BUFFER_WIDTH by {
            if r < BUFFER_HEIGHT - 1 {
                assert(fed.grid[r] == t.grid[r + 1]);
            }
        }
    }
}

/// A newline written on its own scrolls.
proof fn lemma_newline(s: Screen, color: ColorCode)
    ensures
        after_text(s, color, seq![NEWLINE]) == line_fed(s),
{
    let one = seq![NEWLINE];
    assert(one.drop_last() =~= Seq::<u8>::empty());
    assert(after_text(s, color, one.drop_last()) == s);
    assert(shown(one.last()) == NEWLINE);
}

/// A fitting line written from the first column of an empty bottom row
/// fills that row and leaves the cursor after it.
proof fn lemma_write_line(s: Screen, color: ColorCode, line: Seq<u8>)
    requires
        screen_wf(s),
        s.column == 0,
        s.grid[BUFFER_HEIGHT - 1] == blank_row(),
        fits_row(line),
    ensures
        after_text(s, color, line) == (Screen {
            grid: s.grid.update(BUFFER_HEIGHT - 1, row_of(line, color)),
            column: line.len() as int,
        }),
    decreases line.len(),
{
    let bottom = BUFFER_HEIGHT - 1;
    if line.len() == 0 {
        assert(row_of(line, color) =~= blank_row());
        assert(s.grid.update(bottom, blank_row()) =~= s.grid);
    } else {
        let prev = line.drop_last();
        assert forall|i: int| 0 <= i < prev.len() implies is_printable(#[trigger] prev[i]) by {
            assert(prev[i] == line[i]);
        }
        lemma_write_line(s, color, prev);
        let b = line.last();
        assert(is_printable(line[line.len() - 1]));
        let t = after_text(s, color, prev);
        let cell = ScreenChar { ascii_character: b, color_code: color };
        assert(row_of(prev, color).update(prev.len() as int, cell) =~= row_of(line, color));
        assert(t.grid.update(bottom, t.grid[bottom].update(t.column, cell)) =~= s.grid.update(
            bottom,
            row_of(line, color),
        ));
    }
}

/// After writing lines joined by newlines, the bottom rows show the lines
/// that followed the first one, the last line at the bottom.
proof fn lemma_bottom_rows(s: Screen, color: ColorCode, lines: Seq<Seq<u8>>)
    requires
        screen_wf(s),
        lines.len() >= 1,
        forall|k: int| 0 <= k < lines.len() ==> fits_row(#[trigger] lines[k]),
    ensures
        screen_wf(after_text(s, color, joined(lines))),
        forall|i: int|
            0 <= i < lines.len() - 1 && i < BUFFER_HEIGHT ==> (#[trigger] after_text(
                s,
                color,
                joined(lines),
            ).grid[BUFFER_HEIGHT - 1 - i]) == row_of(lines[lines.len() - 1 - i], color),
        lines.len() > 1 ==> after_text(s, color, joined(lines)).column == lines.last().len(),
    decreases lines.len(),
{
    lemma_after_text_wf(s, color, joined(lines));
    if lines.len() > 1 {
        let prev = lines.drop_last();
        let last = lines.last();
        assert forall|k: int| 0 <= k < prev.len() implies fits_row(#[trigger] prev[k]) by {
            assert(prev[k] == lines[k]);
        }
        assert(fits_row(lines[lines.len() - 1]));
        lemma_bottom_rows(s, color, prev);
        let u = after_text(s, color, joined(prev));
        lemma_after_text_append(s, color, joined(prev), seq![NEWLINE]);
        lemma_after_text_append(s, color, joined(prev) + seq![NEWLINE], last);
        lemma_newline(u, color);
        let v = line_fed(u);
        assert forall|r: int| 0 <= r < BUFFER_HEIGHT implies (#[trigger] v.grid[r]).len()
            == BUFFER_WIDTH by {
            if r < BUFFER_HEIGHT - 1 {
                assert(v.grid[r] == u.grid[r + 1]);
            }
        }
        lemma_write_line(v, color, last);
        let t = after_text(s, color, joined(lines));
        assert(t.grid == v.grid.update(BUFFER_HEIGHT - 1, row_of(last, color)));
        assert forall|i: int| 0 <= i < lines.len() - 1 && i < BUFFER_HEIGHT implies (#[trigger] t.grid[BUFFER_HEIGHT - 1 - i]) == row_of(lines[lines.len() - 1 - i], color) by {
            if i > 0 {
                assert(t.grid[BUFFER_HEIGHT - 1 - i] == u.grid[BUFFER_HEIGHT - 1 - (i - 1)]);
                assert(prev[prev.len() - 1 - (i - 1)] == lines[lines.len() - 1 - i]);
            }
        }
    }
}

/// Writing more lines than the grid has rows, joined by newlines, leaves
/// exactly the last `BUFFER_HEIGHT` of them on screen, in order, one per
/// row, each byte for byte and followed by empty cells, whatever the screen
/// showed before; the cursor ends after the last line. Each line must fit in
/// a row and be printable ASCII, so that it is neither wrapped nor altered.
pub proof fn lemma_scroll_keeps_last_lines(s: Screen, color: ColorCode, lines: Seq<Seq<u8>>)
    requires
        screen_wf(s),
        lines.len() > BUFFER_HEIGHT,
        forall|k: int| 0 <= k < lines.len() ==> fits_row(#[trigger] lines[k]),
    ensures
        forall|r: int|
            0 <= r < BUFFER_HEIGHT ==> (#[trigger] after_text(s, color, joined(lines)).grid[r])
                == row_of(lines[lines.len() - BUFFER_HEIGHT + r], color),
        after_text(s, color, joined(lines)).column == lines.last().len(),
{
    lemma_bottom_rows(s, color, lines);
    let t = after_text(s, color, joined(lines));
    assert forall|r: int| 0 <= r < BUFFER_HEIGHT implies (#[trigger] t.grid[r]) == row_of(
        lines[lines.len() - BUFFER_HEIGHT + r],
        color,
    ) by {
        let i = BUFFER_HEIGHT - 1 - r;
        assert(t.grid[BUFFER_HEIGHT - 1 - i] == row_of(lines[lines.len() - 1 - i], color));
    }
}

} // verus!
