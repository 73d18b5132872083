//! The 64x32 monochrome display buffer and XOR sprite drawing.

use vstd::prelude::*;
use std::ops::Index;
use std::ops::IndexMut;

verus! {

/// Whether the bit for column `col` of a sprite row is set; column 0 is the
/// leftmost pixel and the most significant bit.
pub open spec fn sprite_bit(line: u8, col: int) -> bool {
    line & (0x80u8 >> (col as u8)) != 0
}

/// Buffer index of the pixel that sprite position (`row`, `col`) lands on
/// when the sprite is drawn at (`x`, `y`): both axes wrap independently.
pub open spec fn cell(x: u8, y: u8, row: int, col: int) -> int {
    (x as int % 64 + col) % 64 + 64 * ((y as int % 32 + row) % 32)
}

/// Whether sprite row `row`, holding `line`, flips pixel `p`.
pub open spec fn row_toggles(x: u8, y: u8, line: u8, row: int, p: int) -> bool {
    let offset = (p % 64 - x as int % 64) % 64;
    &&& p / 64 == (y as int % 32 + row) % 32
    &&& offset < 8
    &&& sprite_bit(line, offset)
}

/// Whether pixel `p` has been flipped an odd number of times once the first
/// `rows` rows of `sprite` are drawn at (`x`, `y`).
pub open spec fn toggled(x: u8, y: u8, sprite: Seq<u8>, rows: int, p: int) -> bool
    decreases rows,
{
    if rows <= 0 {
        false
    } else {
        toggled(x, y, sprite, rows - 1, p) != row_toggles(x, y, sprite[rows - 1], rows - 1, p)
    }
}

/// The buffer after `sprite` has been XORed into `buf` at (`x`, `y`).
pub open spec fn drawn(buf: Seq<bool>, x: u8, y: u8, sprite: Seq<u8>) -> Seq<bool> {
    Seq::new(2048, |p: int| buf[p] != toggled(x, y, sprite, sprite.len() as int, p))
}

/// Whether the set bit at (`row`, `col`) of `sprite` lands on a pixel that is
/// lit at the moment it is drawn, rows being drawn top to bottom.
pub open spec fn strikes(buf: Seq<bool>, x: u8, y: u8, sprite: Seq<u8>, row: int, col: int) -> bool {
    let p = cell(x, y, row, col);
    &&& 0 <= row < sprite.len()
    &&& 0 <= col < 8
    &&& sprite_bit(sprite[row], col)
    &&& buf[p] != toggled(x, y, sprite, row, p)
}

/// Whether drawing `sprite` into `buf` at (`x`, `y`) turns off a pixel that
/// was on at some point during the draw.
pub open spec fn collides(buf: Seq<bool>, x: u8, y: u8, sprite: Seq<u8>) -> bool {
    exists|row: int, col: int| strikes(buf, x, y, sprite, row, col)
}

/// As `row_toggles`, for the first `cols` columns of the row only.
spec fn row_prefix_toggles(x: u8, y: u8, line: u8, row: int, cols: int, p: int) -> bool {
    let offset = (p % 64 - x as int % 64) % 64;
    &&& p / 64 == (y as int % 32 + row) % 32
    &&& offset < cols
    &&& sprite_bit(line, offset)
}

/// As `collides`, for the bits drawn before position (`row`, `col`) only.
spec fn collides_before(buf: Seq<bool>, x: u8, y: u8, sprite: Seq<u8>, row: int, col: int) -> bool {
    exists|r: int, c: int|
        (r < row || (r == row && c < col)) && #[trigger] strikes(buf, x, y, sprite, r, c)
}

/// Where a sprite position lands: inside the buffer, on the line and at the
/// horizontal offset that `row_toggles` looks for.
proof fn lemma_cell_position(x: u8, y: u8, row: int, col: int)
    requires
        0 <= row,
        0 <= col < 8,
    ensures
        0 <= cell(x, y, row, col) < 2048,
        cell(x, y, row, col) == (x as int % 64 + col) % 64 + 64 * ((y as int % 32 + row % 32) % 32),
        cell(x, y, row, col) / 64 == (y as int % 32 + row) % 32,
        (cell(x, y, row, col) % 64 - x as int % 64) % 64 == col,
{
}

/// Extending a row prefix by column `col` adds exactly the pixel under that
/// column, and only if its bit is set.
proof fn lemma_prefix_next_column(x: u8, y: u8, line: u8, row: int, col: int, p: int)
    requires
        0 <= row,
        0 <= col < 8,
        0 <= p < 2048,
    ensures
        row_prefix_toggles(x, y, line, row, col + 1, p) == (row_prefix_toggles(
            x,
            y,
            line,
            row,
            col,
            p,
        ) || (p == cell(x, y, row, col) && sprite_bit(line, col))),
        p == cell(x, y, row, col) ==> !row_prefix_toggles(x, y, line, row, col, p),
{
    lemma_cell_position(x, y, row, col);
    let offset = (p % 64 - x as int % 64) % 64;
    if p / 64 == (y as int % 32 + row) % 32 && offset == col {
        assert(p == cell(x, y, row, col));
    }
}

/// The bits drawn before (`row`, `col + 1`) are those drawn before
/// (`row`, `col`) and the one at (`row`, `col`).
proof fn lemma_collides_next_column(
    buf: Seq<bool>,
    x: u8,
    y: u8,
    sprite: Seq<u8>,
    row: int,
    col: int,
)
    ensures
        collides_before(buf, x, y, sprite, row, col + 1) == (collides_before(
            buf,
            x,
            y,
            sprite,
            row,
            col,
        ) || strikes(buf, x, y, sprite, row, col)),
{
    if collides_before(buf, x, y, sprite, row, col + 1) {
        let (r, c) = choose|r: int, c: int|
            (r < row || (r == row && c < col + 1)) && #[trigger] strikes(buf, x, y, sprite, r, c);
        assert(r < row || (r == row && c < col) || (r == row && c == col));
    }
}

/// A row is finished after its eighth column.
proof fn lemma_collides_next_row(buf: Seq<bool>, x: u8, y: u8, sprite: Seq<u8>, row: int)
    ensures
        collides_before(buf, x, y, sprite, row + 1, 0) == collides_before(
            buf,
            x,
            y,
            sprite,
            row,
            8,
        ),
{
    if collides_before(buf, x, y, sprite, row + 1, 0) {
        let (r, c) = choose|r: int, c: int|
            (r < row + 1 || (r == row + 1 && c < 0)) && #[trigger] strikes(buf, x, y, sprite, r, c);
        assert(r < row || (r == row && c < 8));
    }
    if collides_before(buf, x, y, sprite, row, 8) {
        let (r, c) = choose|r: int, c: int|
            (r < row || (r == row && c < 8)) && #[trigger] strikes(buf, x, y, sprite, r, c);
        assert(r < row + 1);
    }
}

/// A grid of 64 by 32 pixels, each on or off, stored row by row.
pub struct Video {
    buf: [bool; 2048],
}

impl View for Video {
    type V = Seq<bool>;

    /// The pixels in storage order: pixel (`i`, `j`) is at `i + 64 * j`.
    closed spec fn view(&self) -> Seq<bool> {
        self.buf@
    }
}

impl Video {
    /// Pixels per row.
    pub const WIDTH: usize = 64;

    /// Number of rows.
    pub const HEIGHT: usize = 32;

    /// A display with every pixel off.
    pub fn new() -> (video: Self)
        ensures
            video@ == Seq::new(2048, |p: int| false),
    {
        Self { buf: [false; 2048] }
    }

    /// XORs `sprite`, one byte per row and eight pixels per byte, into the
    /// buffer with its top-left corner at (`x` mod 64, `y` mod 32), and
    /// reports whether a lit pixel was turned off along the way.
    pub fn draw(&mut self, x: u8, y: u8, sprite: &[u8]) -> (flipped: bool)
        ensures
            final(self)@ == drawn(old(self)@, x, y, sprite@),
            flipped == collides(old(self)@, x, y, sprite@),
    {
        let left = x as usize % Video::WIDTH;
        let top = y as usize % Video::HEIGHT;
        let h = sprite.len();
        let mut flipped = false;

        for row in 0..h
            invariant
                h == sprite@.len(),
                left == x as int % 64,
                top == y as int % 32,
                forall|p: int|
                    0 <= p < 2048 ==> self@[p] == (old(self)@[p] != toggled(
                        x,
                        y,
                        sprite@,
                        row as int,
                        p,
                    )),
                flipped == collides_before(old(self)@, x, y, sprite@, row as int, 0),
        {
            let line = sprite[row];
            for col in 0..8u8
                invariant
                    h == sprite@.len(),
                    row < h,
                    line == sprite@[row as int],
                    left == x as int % 64,
                    top == y as int % 32,
                    forall|p: int|
                        0 <= p < 2048 ==> self@[p] == ((old(self)@[p] != toggled(
                            x,
                            y,
                            sprite@,
                            row as int,
                            p,
                        )) != row_prefix_toggles(x, y, line, row as int, col as int, p)),
                    flipped == collides_before(old(self)@, x, y, sprite@, row as int, col as int),
            {
                if (line & (0x80u8 >> col)) != 0 {
                    let i = (left + col as usize) % Video::WIDTH;
                    let j = (top + row % Video::HEIGHT) % Video::HEIGHT;
                    let index = i + Video::WIDTH * j;
                    proof {
                        lemma_cell_position(x, y, row as int, col as int);
                    }

                    flipped = flipped || self.buf[index];
                    self.buf[index] = !self.buf[index];
                }
                proof {
                    lemma_collides_next_column(old(self)@, x, y, sprite@, row as int, col as int);
                    assert forall|p: int| 0 <= p < 2048 implies self@[p] == ((old(self)@[p]
                        != toggled(x, y, sprite@, row as int, p)) != row_prefix_toggles(
                        x,
                        y,
                        line,
                        row as int,
                        col + 1,
                        p,
                    )) by {
                        lemma_prefix_next_column(x, y, line, row as int, col as int, p);
                    }
                }
            }
            proof {
                lemma_collides_next_row(old(self)@, x, y, sprite@, row as int);
            }
        }

        flipped
    }

    /// Turns every pixel off.
    pub fn clear(&mut self)
        ensures
            final(self)@ == Seq::new(2048, |p: int| false),
    {
        self.buf = [false; 2048];
    }
}

impl Index<usize> for Video {
    type Output = bool;

    /// The pixel at buffer position `index`.
    fn index(&self, index: usize) -> (pixel: &bool)
        ensures
            *pixel == self@[index as int],
    {
        &self.buf[index]
    }
}

impl vstd::std_specs::core::IndexSpecImpl<usize> for Video {
    open spec fn index_req(&self, index: &usize) -> bool {
        *index < 2048
    }
}

impl IndexMut<usize> for Video {
    /// The pixel at buffer position `index`, for writing.
    fn index_mut(&mut self, index: usize) -> (pixel: &mut bool)
        requires
            index < 2048,
        ensures
            *pixel == old(self)@[index as int],
            final(self)@ == old(self)@.update(index as int, *final(pixel)),
    {
        &mut self.buf[index]
    }
}

/// Whether some row of `sprite`, drawn at (`x`, `y`), has a set bit over pixel `p`.
pub open spec fn covers(x: u8, y: u8, sprite: Seq<u8>, p: int) -> bool {
    exists|row: int| 0 <= row < sprite.len() && #[trigger] row_toggles(x, y, sprite[row], row, p)
}

/// A pixel flipped an odd number of times by the first `rows` rows is first
/// flipped by one of them.
proof fn lemma_first_toggle(x: u8, y: u8, sprite: Seq<u8>, rows: int, p: int) -> (first: int)
    requires
        toggled(x, y, sprite, rows, p),
    ensures
        0 <= first < rows,
        row_toggles(x, y, sprite[first], first, p),
        !toggled(x, y, sprite, first, p),
    decreases rows,
{
    if toggled(x, y, sprite, rows - 1, p) {
        lemma_first_toggle(x, y, sprite, rows - 1, p)
    } else {
        rows - 1
    }
}

/// Among at most 32 rows no two share a line of the display, so a pixel is
/// flipped exactly when one of the rows has a set bit over it.
proof fn lemma_toggled_short(x: u8, y: u8, sprite: Seq<u8>, rows: int, p: int)
    requires
        0 <= rows <= 32,
    ensures
        toggled(x, y, sprite, rows, p) == exists|row: int|
            0 <= row < rows && #[trigger] row_toggles(x, y, sprite[row], row, p),
    decreases rows,
{
    if rows > 0 {
        lemma_toggled_short(x, y, sprite, rows - 1, p);
        if toggled(x, y, sprite, rows - 1, p) {
            let r = lemma_first_toggle(x, y, sprite, rows - 1, p);
            assert(!row_toggles(x, y, sprite[rows - 1], rows - 1, p));
        } else if row_toggles(x, y, sprite[rows - 1], rows - 1, p) {
        } else {
            assert forall|row: int| 0 <= row < rows implies !#[trigger] row_toggles(
                x,
                y,
                sprite[row],
                row,
                p,
            ) by {
                if row < rows - 1 {
                    assert(!(0 <= row < rows - 1 && row_toggles(x, y, sprite[row], row, p)));
                }
            }
        }
    }
}

/// Drawing a sprite a second time at the same place undoes the first draw.
pub proof fn lemma_draw_twice_restores(buf: Seq<bool>, x: u8, y: u8, sprite: Seq<u8>)
    requires
        buf.len() == 2048,
    ensures
        drawn(drawn(buf, x, y, sprite), x, y, sprite) == buf,
{
}

/// If the first draw of a sprite turned pixel `p` on, a second draw of the
/// same sprite at the same place reports a collision.
pub proof fn lemma_redraw_collides(buf: Seq<bool>, x: u8, y: u8, sprite: Seq<u8>, p: int)
    requires
        buf.len() == 2048,
        0 <= p < 2048,
        !buf[p],
        drawn(buf, x, y, sprite)[p],
    ensures
        collides(drawn(buf, x, y, sprite), x, y, sprite),
{
    let first = lemma_first_toggle(x, y, sprite, sprite.len() as int, p);
    let col = (p % 64 - x as int % 64) % 64;
    lemma_cell_position(x, y, first, col);
    assert(p == cell(x, y, first, col));
    assert(strikes(drawn(buf, x, y, sprite), x, y, sprite, first, col));
}

/// For a sprite of at most 32 rows every pixel is hit at most once, so the
/// draw has a closed form: a pixel changes exactly when the sprite covers it,
/// and the draw collides exactly when a set bit lies over a pixel that was
/// on beforehand.
pub proof fn lemma_draw_short_sprite(buf: Seq<bool>, x: u8, y: u8, sprite: Seq<u8>)
    requires
        buf.len() == 2048,
        sprite.len() <= 32,
    ensures
        forall|p: int|
            0 <= p < 2048 ==> #[trigger] drawn(buf, x, y, sprite)[p] == (buf[p] != covers(
                x,
                y,
                sprite,
                p,
            )),
        collides(buf, x, y, sprite) <==> exists|row: int, col: int|
            0 <= row < sprite.len() && 0 <= col < 8 && sprite_bit(sprite[row], col)
                && #[trigger] buf[cell(x, y, row, col)],
{
    let len = sprite.len() as int;
    assert forall|p: int| 0 <= p < 2048 implies #[trigger] drawn(buf, x, y, sprite)[p] == (buf[p]
        != covers(x, y, sprite, p)) by {
        lemma_toggled_short(x, y, sprite, len, p);
    }
    assert forall|row: int, col: int| 0 <= row < len && 0 <= col < 8 implies !toggled(
        x,
        y,
        sprite,
        row,
        #[trigger] cell(x, y, row, col),
    ) by {
        let p = cell(x, y, row, col);
        lemma_cell_position(x, y, row, col);
        if toggled(x, y, sprite, row, p) {
            let earlier = lemma_first_toggle(x, y, sprite, row, p);
            assert(false);
        }
    }
    if collides(buf, x, y, sprite) {
        let (row, col) = choose|row: int, col: int| strikes(buf, x, y, sprite, row, col);
        assert(buf[cell(x, y, row, col)]);
    }
    if exists|row: int, col: int|
        0 <= row < sprite.len() && 0 <= col < 8 && sprite_bit(sprite[row], col)
            && #[trigger] buf[cell(x, y, row, col)] {
        let (row, col) = choose|row: int, col: int|
            0 <= row < sprite.len() && 0 <= col < 8 && sprite_bit(sprite[row], col)
                && #[trigger] buf[cell(x, y, row, col)];
        assert(strikes(buf, x, y, sprite, row, col));
    }
}

/// For a sprite of at most 32 rows, the second of two draws at the same
/// place collides exactly when the first one turned some pixel on.
pub proof fn lemma_redraw_short_sprite(buf: Seq<bool>, x: u8, y: u8, sprite: Seq<u8>)
    requires
        buf.len() == 2048,
        sprite.len() <= 32,
    ensures
        collides(drawn(buf, x, y, sprite), x, y, sprite) <==> exists|p: int|
            0 <= p < 2048 && !buf[p] && #[trigger] drawn(buf, x, y, sprite)[p],
{
    let once = drawn(buf, x, y, sprite);
    if collides(once, x, y, sprite) {
        lemma_draw_short_sprite(once, x, y, sprite);
        lemma_draw_short_sprite(buf, x, y, sprite);
        let (row, col) = choose|row: int, col: int|
            0 <= row < sprite.len() && 0 <= col < 8 && sprite_bit(sprite[row], col)
                && #[trigger] once[cell(x, y, row, col)];
        let p = cell(x, y, row, col);
        lemma_cell_position(x, y, row, col);
        assert(row_toggles(x, y, sprite[row], row, p));
        assert(covers(x, y, sprite, p));
        assert(!buf[p] && once[p]);
    }
    if exists|p: int| 0 <= p < 2048 && !buf[p] && #[trigger] once[p] {
        let p = choose|p: int| 0 <= p < 2048 && !buf[p] && #[trigger] once[p];
        lemma_redraw_collides(buf, x, y, sprite, p);
    }
}

/// Every display buffer has exactly 2048 pixels.
pub broadcast proof fn lemma_video_len(video: Video)
    ensures
        #[trigger] video@.len() == 2048,
{
}

} // verus!
