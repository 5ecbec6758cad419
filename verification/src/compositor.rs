//! The frame compositor.
//!
//! A rendered frame is an RGBA8 pixel grid, row-major, with its origin at the
//! top left. The compositor shows it on a terminal with the upper-half-block
//! glyph: terminal cell `(col, row)` covers the pixels `(col, 2 * row)` and
//! `(col, 2 * row + 1)`; the upper pixel becomes the cell's foreground colour
//! and the lower one its background colour. A frame pixel is shown one to
//! one: the frame is expected to be as wide as the terminal and twice as
//! high.
//!
//! The compositor remembers the colours it last sent for every cell. A cell
//! gets its two colour codes again only when one of them changed; the glyph
//! and a cursor directive at the start of every row are always sent. The
//! whole frame is bracketed as one synchronized update.

use vstd::prelude::*;

verus! {

/// Begins a synchronized update: `ESC [ ? 2 0 2 6 h`.
pub const SYNC_BEGIN: [u8; 8] = [0x1b, 0x5b, 0x3f, 0x32, 0x30, 0x32, 0x36, 0x68];

/// Ends a synchronized update: `ESC [ ? 2 0 2 6 l`.
pub const SYNC_END: [u8; 8] = [0x1b, 0x5b, 0x3f, 0x32, 0x30, 0x32, 0x36, 0x6c];

/// Introduces a control sequence: `ESC [`.
pub const CSI: [u8; 2] = [0x1b, 0x5b];

/// Ends a cursor directive that targets the first column: `; 1 H`.
pub const CURSOR_SUFFIX: [u8; 3] = [0x3b, 0x31, 0x48];

/// Introduces a truecolor foreground: `ESC [ 3 8 ; 2 ;`.
pub const FOREGROUND_PREFIX: [u8; 7] = [0x1b, 0x5b, 0x33, 0x38, 0x3b, 0x32, 0x3b];

/// Introduces a truecolor background: `ESC [ 4 8 ; 2 ;`.
pub const BACKGROUND_PREFIX: [u8; 7] = [0x1b, 0x5b, 0x34, 0x38, 0x3b, 0x32, 0x3b];

/// Separates the channels of a colour: `;`.
pub const SEPARATOR: u8 = 0x3b;

/// Ends a colour code: `m`.
pub const COLOR_SUFFIX: u8 = 0x6d;

/// The upper half block, U+2580, in UTF-8.
pub const GLYPH: [u8; 3] = [0xe2, 0x96, 0x80];

/// A colour of three 8-bit channels.
#[derive(Debug, Clone, Copy, PartialEq, Eq, Structural)]
pub struct Rgb {
    pub r: u8,
    pub g: u8,
    pub b: u8,
}

/// The two colours of a terminal cell.
#[derive(Debug, Clone, Copy, PartialEq, Eq, Structural)]
pub struct Cell {
    pub foreground: Rgb,
    pub background: Rgb,
}

/// What a frame is: its size in pixels and its bytes, four per pixel.
pub struct FrameView {
    pub width: nat,
    pub height: nat,
    pub pixels: Seq<u8>,
}

impl FrameView {
    /// The byte buffer holds exactly `width * height` pixels.
    pub open spec fn well_formed(self) -> bool {
        self.pixels.len() == 4 * (self.width * self.height)
    }
}

/// A rendered frame.
#[derive(Debug, PartialEq, Eq)]
pub struct Frame {
    width: u32,
    height: u32,
    pixels: Vec<u8>,
}

/// Colour of a cell whose upper pixel lies outside the frame.
pub open spec fn black() -> Rgb {
    Rgb { r: 0, g: 0, b: 0 }
}

/// Colour of the pixel at column `x` of row `y`, if the frame has one there.
pub open spec fn pixel_at(frame: FrameView, x: int, y: int) -> Option<Rgb> {
    if 0 <= x < frame.width && 0 <= y < frame.height {
        let at = 4 * (y * frame.width + x);
        Some(Rgb { r: frame.pixels[at], g: frame.pixels[at + 1], b: frame.pixels[at + 2] })
    } else {
        None
    }
}

/// Colours of terminal cell `(col, row)`. The foreground is the pixel at
/// `(col, 2 * row)`, or black outside the frame. The background is the pixel
/// below it, or the foreground again where the frame has no such row.
pub open spec fn resolve_cell(frame: FrameView, col: int, row: int) -> Cell {
    let top = match pixel_at(frame, col, 2 * row) {
        Some(color) => color,
        None => black(),
    };
    let bottom = match pixel_at(frame, col, 2 * row + 1) {
        Some(color) => color,
        None => top,
    };
    Cell { foreground: top, background: bottom }
}

/// The cells of a terminal of `cols` by `rows` cells showing `frame`, by row,
/// then by column.
pub open spec fn resolve_rows(frame: FrameView, cols: nat, rows: nat) -> Seq<Seq<Cell>> {
    Seq::new(rows, |row: int| Seq::new(cols, |col: int| resolve_cell(frame, col, row)))
}

/// The first `rows` rows of a buffer whose rows start `stride` bytes apart,
/// each cut down to its first `row_bytes` bytes and packed end to end.
pub open spec fn packed_rows(bytes: Seq<u8>, row_bytes: nat, stride: nat, rows: nat) -> Seq<u8>
    decreases rows,
{
    if rows == 0 {
        Seq::empty()
    } else {
        packed_rows(bytes, row_bytes, stride, (rows - 1) as nat) + bytes.subrange(
            (rows - 1) * stride,
            (rows - 1) * stride + row_bytes,
        )
    }
}

impl View for Frame {
    type V = FrameView;

    /// The size of the frame and the bytes of its pixels.
    closed spec fn view(&self) -> FrameView {
        FrameView { width: self.width as nat, height: self.height as nat, pixels: self.pixels@ }
    }
}

impl Frame {
    #[verifier::type_invariant]
    spec fn holds_every_pixel(self) -> bool {
        self@.well_formed()
    }

    /// Wraps a pixel buffer of `width` by `height` RGBA8 pixels. Returns
    /// `None` unless the buffer holds exactly four bytes per pixel.
    pub fn new(width: u32, height: u32, pixels: Vec<u8>) -> (frame: Option<Frame>)
        ensures
            frame is Some <==> pixels@.len() == 4 * (width * height),
            frame is Some ==> frame.unwrap()@ == (FrameView {
                width: width as nat,
                height: height as nat,
                pixels: pixels@,
            }),
            frame is Some ==> frame.unwrap()@.well_formed(),
    {
        assert(width * height <= 0xffff_ffff * 0xffff_ffff) by (nonlinear_arith)
            requires
                width <= 0xffff_ffff,
                height <= 0xffff_ffff,
        ;
        let expected: u128 = 4 * (width as u128 * height as u128);
        if pixels.len() as u128 == expected {
            Some(Frame { width, height, pixels })
        } else {
            None
        }
    }

    /// Wraps a buffer of `height` rows of `width` RGBA8 pixels whose rows start
    /// `stride` bytes apart, as a GPU hands them back: the padding at the end
    /// of every row is dropped. Returns `None` unless a row fits in `stride`
    /// bytes and the buffer holds exactly `height` times `stride` bytes.
    pub fn from_padded_rows(width: u32, height: u32, stride: u32, bytes: &[u8]) -> (frame: Option<
        Frame,
    >)
        ensures
            frame is Some <==> 4 * width <= stride && bytes@.len() == height * stride,
            frame is Some ==> frame.unwrap()@ == (FrameView {
                width: width as nat,
                height: height as nat,
                pixels: packed_rows(bytes@, 4 * width as nat, stride as nat, height as nat),
            }),
            frame is Some ==> frame.unwrap()@.well_formed(),
    {
        assert(height * stride <= 0xffff_ffff * 0xffff_ffff) by (nonlinear_arith)
            requires
                stride <= 0xffff_ffff,
                height <= 0xffff_ffff,
        ;
        if 4 * (width as u64) > stride as u64 || bytes.len() as u128 != height as u128
            * stride as u128 {
            return None;
        }
        let row_bytes: usize = 4 * (width as usize);
        let mut pixels: Vec<u8> = Vec::new();
        let mut start: usize = 0;
        let mut row: u32 = 0;
        while row < height
            invariant
                row <= height,
                row_bytes == 4 * width <= stride,
                bytes@.len() == height * stride,
                bytes@.len() <= usize::MAX,
                start == row * stride,
                pixels@ == packed_rows(bytes@, row_bytes as nat, stride as nat, row as nat),
                pixels@.len() == 4 * (width * row),
            decreases height - row,
        {
            assert(start + stride <= bytes@.len() && (row + 1) * stride == start + stride
                && width * (row + 1) == width * row + width) by (nonlinear_arith)
                requires
                    start == row * stride,
                    row < height,
                    bytes@.len() == height * stride,
            ;
            let mut k: usize = 0;
            while k < row_bytes
                invariant
                    k <= row_bytes <= stride,
                    start + stride <= bytes@.len() <= usize::MAX,
                    pixels@ == packed_rows(bytes@, row_bytes as nat, stride as nat, row as nat)
                        + bytes@.subrange(start as int, start + k),
                decreases row_bytes - k,
            {
                pixels.push(bytes[start + k]);
                k = k + 1;
            }
            start = start + stride as usize;
            row = row + 1;
        }
        Some(Frame { width, height, pixels })
    }

    /// Width of the frame in pixels.
    pub fn width(&self) -> (width: u32)
        ensures
            width == self@.width,
    {
        self.width
    }

    /// Height of the frame in pixels.
    pub fn height(&self) -> (height: u32)
        ensures
            height == self@.height,
    {
        self.height
    }

    /// Colour of the pixel at column `x` of row `y`, if the frame has one
    /// there.
    pub fn pixel(&self, x: u32, y: u64) -> (color: Option<Rgb>)
        ensures
            color == pixel_at(self@, x as int, y as int),
    {
        proof {
            use_type_invariant(self);
        }
        if x < self.width && y < self.height as u64 {
            assert(0 <= y * self.width <= y * self.width + x < self.width * self.height)
                by (nonlinear_arith)
                requires
                    0 <= x < self.width,
                    0 <= y < self.height,
            ;
            assert(4 * (y * self.width + x) + 3 < self.pixels.len());
            let at: usize = 4 * (y as usize * self.width as usize + x as usize);
            Some(Rgb { r: self.pixels[at], g: self.pixels[at + 1], b: self.pixels[at + 2] })
        } else {
            None
        }
    }

    /// Colours of terminal cell `(col, row)`.
    pub fn cell(&self, col: u32, row: u32) -> (cell: Cell)
        ensures
            cell == resolve_cell(self@, col as int, row as int),
    {
        let top = match self.pixel(col, 2 * (row as u64)) {
            Some(color) => color,
            None => Rgb { r: 0, g: 0, b: 0 },
        };
        let bottom = match self.pixel(col, 2 * (row as u64) + 1) {
            Some(color) => color,
            None => top,
        };
        Cell { foreground: top, background: bottom }
    }
}

/// The decimal digits of `n` in ASCII, most significant first, without
/// leading zeros.
pub open spec fn decimal_digits(n: nat) -> Seq<u8>
    decreases n,
{
    if n < 10 {
        seq![(0x30 + n) as u8]
    } else {
        decimal_digits(n / 10).push((0x30 + n % 10) as u8)
    }
}

/// The directive that moves the cursor to the first column of row `row`,
/// counted from one.
pub open spec fn cursor_to_row(row: nat) -> Seq<u8> {
    CSI@ + decimal_digits(row) + CURSOR_SUFFIX@
}

/// A truecolor code: `prefix`, then the three channels of `color` in decimal
/// with `;` between them, then `m`.
pub open spec fn color_code(prefix: Seq<u8>, color: Rgb) -> Seq<u8> {
    prefix + decimal_digits(color.r as nat) + seq![SEPARATOR] + decimal_digits(color.g as nat)
        + seq![SEPARATOR] + decimal_digits(color.b as nat) + seq![COLOR_SUFFIX]
}

/// What is sent for one cell: its two colour codes unless `known` already
/// holds both colours, then the glyph.
pub open spec fn cell_stream(known: Option<Cell>, cell: Cell) -> Seq<u8> {
    if known == Some(cell) {
        GLYPH@
    } else {
        color_code(FOREGROUND_PREFIX@, cell.foreground) + color_code(
            BACKGROUND_PREFIX@,
            cell.background,
        ) + GLYPH@
    }
}

/// The colours last sent for cell `(col, row)`, if any were.
pub open spec fn known_cell(sent: Seq<Seq<Cell>>, row: int, col: int) -> Option<Cell> {
    if 0 <= row < sent.len() && 0 <= col < sent[row].len() {
        Some(sent[row][col])
    } else {
        None
    }
}

/// What is sent for the first `n` cells of row `row`.
pub open spec fn row_stream(sent: Seq<Seq<Cell>>, cells: Seq<Seq<Cell>>, row: int, n: nat) -> Seq<
    u8,
>
    decreases n,
{
    if n == 0 {
        Seq::empty()
    } else {
        row_stream(sent, cells, row, (n - 1) as nat) + cell_stream(
            known_cell(sent, row, n - 1),
            cells[row][n - 1],
        )
    }
}

/// What is sent for the first `n` rows: for each, the cursor directive and
/// then all its cells.
pub open spec fn rows_stream(sent: Seq<Seq<Cell>>, cells: Seq<Seq<Cell>>, n: nat) -> Seq<u8>
    decreases n,
{
    if n == 0 {
        Seq::empty()
    } else {
        rows_stream(sent, cells, (n - 1) as nat) + cursor_to_row(n) + row_stream(
            sent,
            cells,
            n - 1,
            cells[n - 1].len(),
        )
    }
}

/// The bytes that show `cells` on a terminal to which `sent` was sent last:
/// all rows inside one synchronized update.
pub open spec fn frame_stream(sent: Seq<Seq<Cell>>, cells: Seq<Seq<Cell>>) -> Seq<u8> {
    SYNC_BEGIN@ + rows_stream(sent, cells, cells.len()) + SYNC_END@
}

/// What is sent for `n` cells that all keep their colours: `n` glyphs.
pub open spec fn glyphs(n: nat) -> Seq<u8>
    decreases n,
{
    if n == 0 {
        Seq::empty()
    } else {
        glyphs((n - 1) as nat) + GLYPH@
    }
}

/// What is sent for the first `n` rows of `cells` when no cell needs its
/// colours: for each row, the cursor directive and one glyph per cell.
pub open spec fn bare_rows_stream(cells: Seq<Seq<Cell>>, n: nat) -> Seq<u8>
    decreases n,
{
    if n == 0 {
        Seq::empty()
    } else {
        bare_rows_stream(cells, (n - 1) as nat) + cursor_to_row(n) + glyphs(cells[n - 1].len())
    }
}

/// The stream that shows `cells` without a single colour code.
pub open spec fn bare_stream(cells: Seq<Seq<Cell>>) -> Seq<u8> {
    SYNC_BEGIN@ + bare_rows_stream(cells, cells.len()) + SYNC_END@
}

/// How many of the first `n` cells of row `row` get their colour codes.
pub open spec fn recolored_in_row(sent: Seq<Seq<Cell>>, cells: Seq<Seq<Cell>>, row: int, n: nat)
    -> nat
    decreases n,
{
    if n == 0 {
        0
    } else {
        let rest = recolored_in_row(sent, cells, row, (n - 1) as nat);
        if known_cell(sent, row, n - 1) == Some(cells[row][n - 1]) {
            rest
        } else {
            rest + 1
        }
    }
}

/// How many cells of the first `n` rows get their colour codes.
pub open spec fn recolored(sent: Seq<Seq<Cell>>, cells: Seq<Seq<Cell>>, n: nat) -> nat
    decreases n,
{
    if n == 0 {
        0
    } else {
        recolored(sent, cells, (n - 1) as nat) + recolored_in_row(
            sent,
            cells,
            n - 1,
            cells[n - 1].len(),
        )
    }
}

/// A grid of cells as a sequence of rows.
pub open spec fn grid_view(grid: Vec<Vec<Cell>>) -> Seq<Seq<Cell>> {
    Seq::new(grid@.len(), |row: int| grid@[row]@)
}

/// Appends `bytes` to `out`.
fn push_all(out: &mut Vec<u8>, bytes: &[u8])
    ensures
        final(out)@ == old(out)@ + bytes@,
{
    let mut i: usize = 0;
    while i < bytes.len()
        invariant
            i <= bytes.len(),
            out@ == old(out)@ + bytes@.take(i as int),
        decreases bytes.len() - i,
    {
        out.push(bytes[i]);
        i = i + 1;
    }
}

/// Appends the decimal digits of `n` to `out`.
fn push_decimal(out: &mut Vec<u8>, n: u32)
    ensures
        final(out)@ == old(out)@ + decimal_digits(n as nat),
    decreases n,
{
    if n >= 10 {
        push_decimal(out, n / 10);
    }
    out.push(0x30 + (n % 10) as u8);
}

/// Appends the truecolor code of `color` that starts with `prefix`.
fn push_color(out: &mut Vec<u8>, prefix: &[u8], color: Rgb)
    ensures
        final(out)@ == old(out)@ + color_code(prefix@, color),
{
    push_all(out, prefix);
    push_decimal(out, color.r as u32);
    out.push(SEPARATOR);
    push_decimal(out, color.g as u32);
    out.push(SEPARATOR);
    push_decimal(out, color.b as u32);
    out.push(COLOR_SUFFIX);
}

/// The colours last sent for cell `(col, row)`, if any were.
fn lookup(sent: &Vec<Vec<Cell>>, row: u32, col: u32) -> (known: Option<Cell>)
    ensures
        known == known_cell(grid_view(*sent), row as int, col as int),
{
    if (row as usize) < sent.len() && (col as usize) < sent[row as usize].len() {
        Some(sent[row as usize][col as usize])
    } else {
        None
    }
}

/// Composes the stream that shows `frame` on a terminal of `cols` by `rows`
/// cells to which `sent` was sent last, and the cells that it leaves there.
fn compose(sent: &Vec<Vec<Cell>>, frame: &Frame, cols: u32, rows: u32) -> (result: (
    Vec<u8>,
    Vec<Vec<Cell>>,
))
    ensures
        result.0@ == frame_stream(
            grid_view(*sent),
            resolve_rows(frame@, cols as nat, rows as nat),
        ),
        grid_view(result.1) == resolve_rows(frame@, cols as nat, rows as nat),
{
    let ghost before = grid_view(*sent);
    let ghost after = resolve_rows(frame@, cols as nat, rows as nat);
    let mut out: Vec<u8> = Vec::new();
    let mut grid: Vec<Vec<Cell>> = Vec::new();
    push_all(&mut out, &SYNC_BEGIN);
    let mut row: u32 = 0;
    while row < rows
        invariant
            row <= rows,
            before == grid_view(*sent),
            after == resolve_rows(frame@, cols as nat, rows as nat),
            out@ == SYNC_BEGIN@ + rows_stream(before, after, row as nat),
            grid@.len() == row,
            forall|r: int| 0 <= r < row ==> (#[trigger] grid@[r])@ == after[r],
        decreases rows - row,
    {
        let ghost row_start = out@;
        push_all(&mut out, &CSI);
        push_decimal(&mut out, row + 1);
        push_all(&mut out, &CURSOR_SUFFIX);
        let ghost cells_start = out@;
        let mut line: Vec<Cell> = Vec::new();
        let mut col: u32 = 0;
        while col < cols
            invariant
                row < rows,
                col <= cols,
                before == grid_view(*sent),
                after == resolve_rows(frame@, cols as nat, rows as nat),
                out@ == cells_start + row_stream(before, after, row as int, col as nat),
                line@ == after[row as int].take(col as int),
            decreases cols - col,
        {
            let cell = frame.cell(col, row);
            let changed = match lookup(sent, row, col) {
                Some(known) => known != cell,
                None => true,
            };
            if changed {
                push_color(&mut out, &FOREGROUND_PREFIX, cell.foreground);
                push_color(&mut out, &BACKGROUND_PREFIX, cell.background);
            }
            push_all(&mut out, &GLYPH);
            line.push(cell);
            col = col + 1;
        }
        grid.push(line);
        row = row + 1;
    }
    push_all(&mut out, &SYNC_END);
    assert(grid_view(grid) =~= after);
    (out, grid)
}

/// The compositor: what it last sent to the terminal, cell by cell.
#[derive(Debug, PartialEq, Eq)]
pub struct Compositor {
    sent: Vec<Vec<Cell>>,
}

impl View for Compositor {
    type V = Seq<Seq<Cell>>;

    /// The colours last sent, by row, then by column. A cell that is not in
    /// here has never been sent.
    closed spec fn view(&self) -> Seq<Seq<Cell>> {
        grid_view(self.sent)
    }
}

impl Compositor {
    /// A compositor that has sent nothing yet.
    pub fn new() -> (compositor: Compositor)
        ensures
            compositor@ == Seq::<Seq<Cell>>::empty(),
    {
        let compositor = Compositor { sent: Vec::new() };
        assert(compositor@ =~= Seq::<Seq<Cell>>::empty());
        compositor
    }

    /// Gives up on a frame whose write to the terminal failed part-way:
    /// returns the bytes that close the synchronized update, to be sent
    /// whatever else happens, and forgets what was sent, so that the next
    /// frame sends every colour.
    pub fn abandon(&mut self) -> (closing: Vec<u8>)
        ensures
            closing@ == SYNC_END@,
            final(self)@ == Seq::<Seq<Cell>>::empty(),
    {
        self.sent = Vec::new();
        assert(self@ =~= Seq::<Seq<Cell>>::empty());
        let mut closing: Vec<u8> = Vec::new();
        push_all(&mut closing, &SYNC_END);
        closing
    }

    /// Composes the bytes that show `frame` on a terminal of `cols` by `rows`
    /// cells, and remembers the colours of every cell for the next frame.
    pub fn present(&mut self, frame: &Frame, cols: u32, rows: u32) -> (out: Vec<u8>)
        ensures
            out@ == frame_stream(old(self)@, resolve_rows(frame@, cols as nat, rows as nat)),
            final(self)@ == resolve_rows(frame@, cols as nat, rows as nat),
    {
        let (out, grid) = compose(&self.sent, frame, cols, rows);
        self.sent = grid;
        out
    }
}

/// The number that `digits` write in decimal.
pub open spec fn decimal_value(digits: Seq<u8>) -> nat
    decreases digits.len(),
{
    if digits.len() == 0 {
        0
    } else {
        10 * decimal_value(digits.drop_last()) + (digits.last() - 0x30) as nat
    }
}

/// The digits of a number are ASCII digits that write that number, and they
/// start with a zero only when the number is zero.
pub proof fn lemma_decimal_digits_write_the_number(n: nat)
    ensures
        decimal_digits(n).len() >= 1,
        forall|i: int|
            0 <= i < decimal_digits(n).len() ==> 0x30 <= #[trigger] decimal_digits(n)[i] <= 0x39,
        decimal_value(decimal_digits(n)) == n,
        decimal_digits(n)[0] == 0x30 <==> n == 0,
    decreases n,
{
    let digits = decimal_digits(n);
    if n >= 10 {
        lemma_decimal_digits_write_the_number(n / 10);
        assert(digits.drop_last() == decimal_digits(n / 10));
    } else {
        assert(digits.drop_last() == Seq::<u8>::empty());
        assert(decimal_value(digits.drop_last()) == 0);
    }
}

/// A channel takes one to three digits.
pub proof fn lemma_channel_digits(channel: u8)
    ensures
        1 <= decimal_digits(channel as nat).len() <= 3,
{
    reveal_with_fuel(decimal_digits, 3);
}

/// A colour code is its prefix and 6 to 12 more bytes.
pub proof fn lemma_color_code_len(prefix: Seq<u8>, color: Rgb)
    ensures
        prefix.len() + 6 <= color_code(prefix, color).len() <= prefix.len() + 12,
{
    lemma_channel_digits(color.r);
    lemma_channel_digits(color.g);
    lemma_channel_digits(color.b);
}

proof fn lemma_row_unchanged(cells: Seq<Seq<Cell>>, row: int, n: nat)
    requires
        0 <= row < cells.len(),
        n <= cells[row].len(),
    ensures
        row_stream(cells, cells, row, n) == glyphs(n),
        recolored_in_row(cells, cells, row, n) == 0,
    decreases n,
{
    if n > 0 {
        lemma_row_unchanged(cells, row, (n - 1) as nat);
    }
}

proof fn lemma_rows_unchanged(cells: Seq<Seq<Cell>>, n: nat)
    requires
        n <= cells.len(),
    ensures
        rows_stream(cells, cells, n) == bare_rows_stream(cells, n),
        recolored(cells, cells, n) == 0,
    decreases n,
{
    if n > 0 {
        lemma_rows_unchanged(cells, (n - 1) as nat);
        lemma_row_unchanged(cells, n - 1, cells[n - 1].len());
    }
}

/// Showing again what the terminal already shows sends no colour code at all:
/// the stream is the synchronized-update bracket around, for every row, the
/// cursor directive and one glyph per cell.
pub proof fn lemma_unchanged_frame_sends_no_color(cells: Seq<Seq<Cell>>)
    ensures
        frame_stream(cells, cells) == bare_stream(cells),
        recolored(cells, cells, cells.len()) == 0,
{
    lemma_rows_unchanged(cells, cells.len());
}

proof fn lemma_row_len(sent: Seq<Seq<Cell>>, cells: Seq<Seq<Cell>>, row: int, n: nat)
    ensures
        glyphs(n).len() == 3 * n,
        row_stream(sent, cells, row, n).len() >= glyphs(n).len() + 26 * recolored_in_row(
            sent,
            cells,
            row,
            n,
        ),
        row_stream(sent, cells, row, n).len() <= glyphs(n).len() + 38 * recolored_in_row(
            sent,
            cells,
            row,
            n,
        ),
    decreases n,
{
    if n > 0 {
        lemma_row_len(sent, cells, row, (n - 1) as nat);
        let cell = cells[row][n - 1];
        lemma_color_code_len(FOREGROUND_PREFIX@, cell.foreground);
        lemma_color_code_len(BACKGROUND_PREFIX@, cell.background);
    }
}

proof fn lemma_rows_len(sent: Seq<Seq<Cell>>, cells: Seq<Seq<Cell>>, n: nat)
    ensures
        rows_stream(sent, cells, n).len() >= bare_rows_stream(cells, n).len() + 26 * recolored(
            sent,
            cells,
            n,
        ),
        rows_stream(sent, cells, n).len() <= bare_rows_stream(cells, n).len() + 38 * recolored(
            sent,
            cells,
            n,
        ),
    decreases n,
{
    if n > 0 {
        lemma_rows_len(sent, cells, (n - 1) as nat);
        lemma_row_len(sent, cells, n - 1, cells[n - 1].len());
    }
}

/// The stream outgrows the colourless stream only by the colour codes of the
/// cells that changed, 26 to 38 bytes for each: its length follows the number
/// of changed cells, not the size of the terminal.
pub proof fn lemma_stream_len_follows_changes(sent: Seq<Seq<Cell>>, cells: Seq<Seq<Cell>>)
    ensures
        frame_stream(sent, cells).len() >= bare_stream(cells).len() + 26 * recolored(
            sent,
            cells,
            cells.len(),
        ),
        frame_stream(sent, cells).len() <= bare_stream(cells).len() + 38 * recolored(
            sent,
            cells,
            cells.len(),
        ),
{
    lemma_rows_len(sent, cells, cells.len());
}

/// Packing keeps every row in place: `rows` rows pack to `rows * row_bytes`
/// bytes, and byte `k` of row `row` is byte `row * stride + k` of the buffer.
pub proof fn lemma_packed_rows_keep_rows(
    bytes: Seq<u8>,
    row_bytes: nat,
    stride: nat,
    rows: nat,
    row: int,
    k: int,
)
    requires
        row_bytes <= stride,
        rows * stride <= bytes.len(),
        0 <= row < rows,
        0 <= k < row_bytes,
    ensures
        packed_rows(bytes, row_bytes, stride, rows).len() == rows * row_bytes,
        packed_rows(bytes, row_bytes, stride, rows)[row * row_bytes + k] == bytes[row * stride + k],
    decreases rows,
{
    let above = (rows - 1) as nat;
    lemma_last_row_fits(rows, row_bytes, stride);
    lemma_packed_rows_len(bytes, row_bytes, stride, above);
    if row < above {
        lemma_packed_rows_keep_rows(bytes, row_bytes, stride, above, row, k);
        assert(row * row_bytes + k < above * row_bytes) by (nonlinear_arith)
            requires
                0 <= row < above,
                0 <= k < row_bytes,
        ;
    }
}

/// The last of `rows` rows starts where the rows above it end, and ends
/// inside `rows * stride` bytes.
proof fn lemma_last_row_fits(rows: nat, row_bytes: nat, stride: nat)
    by (nonlinear_arith)
    requires
        rows >= 1,
        row_bytes <= stride,
    ensures
        rows * row_bytes == (rows - 1) * row_bytes + row_bytes,
        rows * stride == (rows - 1) * stride + stride,
        0 <= (rows - 1) * stride <= (rows - 1) * stride + row_bytes <= rows * stride,
{
}

/// `rows` rows pack to `rows * row_bytes` bytes.
proof fn lemma_packed_rows_len(bytes: Seq<u8>, row_bytes: nat, stride: nat, rows: nat)
    requires
        row_bytes <= stride,
        rows * stride <= bytes.len(),
    ensures
        packed_rows(bytes, row_bytes, stride, rows).len() == rows * row_bytes,
    decreases rows,
{
    if rows > 0 {
        lemma_last_row_fits(rows, row_bytes, stride);
        lemma_packed_rows_len(bytes, row_bytes, stride, (rows - 1) as nat);
    } else {
        assert(rows * row_bytes == 0) by (nonlinear_arith)
            requires
                rows == 0,
        ;
    }
}

/// Every stream is one synchronized update: it opens the update first and
/// closes it last.
pub proof fn lemma_stream_is_one_update(sent: Seq<Seq<Cell>>, cells: Seq<Seq<Cell>>)
    ensures
        ({
            let stream = frame_stream(sent, cells);
            &&& stream.len() >= 16
            &&& stream.subrange(0, 8) == SYNC_BEGIN@
            &&& stream.subrange(stream.len() - 8, stream.len() as int) == SYNC_END@
        }),
{
}

/// When the frame is as wide as the terminal and twice as high, every cell
/// shows two pixels of the frame: the one at twice its row as foreground and
/// the one below that as background.
pub proof fn lemma_matched_frame_shows_pixels(frame: FrameView, cols: nat, rows: nat, col: int, row: int)
    requires
        frame.width == cols,
        frame.height == 2 * rows,
        0 <= col < cols,
        0 <= row < rows,
    ensures
        pixel_at(frame, col, 2 * row) == Some(resolve_cell(frame, col, row).foreground),
        pixel_at(frame, col, 2 * row + 1) == Some(resolve_cell(frame, col, row).background),
{
}

/// A cell whose lower pixel row lies below the frame, as in the last row of a
/// frame of odd height, takes its foreground colour as background too.
pub proof fn lemma_missing_row_reuses_top(frame: FrameView, col: int, row: int)
    requires
        2 * row + 1 >= frame.height,
    ensures
        resolve_cell(frame, col, row).background == resolve_cell(frame, col, row).foreground,
{
}

} // verus!
