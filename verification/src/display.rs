//! The 64x32 monochrome framebuffer: point access, XOR sprite drawing with
//! collision detection, and the colour frame handed to a display surface.

use vstd::prelude::*;

verus! {

/// Width of the pixel grid.
pub const WIDTH: usize = 64;

/// Height of the pixel grid.
pub const HEIGHT: usize = 32;

/// Number of pixels in the grid.
pub const PIXELS: usize = 2048;

/// Colour of a pixel that is off, as packed RGB.
pub const COLOR_OFF: u32 = 0x000000;

/// Colour of a pixel that is on, as packed RGB.
pub const COLOR_ON: u32 = 0xFFFFFF;

/// Position of the pixel in column `x` of row `y` in the row-major grid.
pub open spec fn pixel_index(x: int, y: int) -> int {
    x + y * 64
}

/// The grid with every pixel off.
pub open spec fn blank_pixels() -> Seq<bool> {
    Seq::new(2048, |p: int| false)
}

/// The colour frame of a grid: one packed RGB value per pixel.
pub open spec fn frame_colors(pixels: Seq<bool>) -> Seq<u32> {
    Seq::new(
        2048,
        |p: int|
            if pixels[p] {
                COLOR_ON
            } else {
                COLOR_OFF
            },
    )
}

/// Bit `col` of a sprite row, counted from the most significant bit, which
/// is drawn first.
pub open spec fn sprite_bit(bits: u8, col: int) -> bool {
    (bits >> ((7 - col) as u8)) & 1 == 1
}

/// Whether a sprite row placed with its first bit in column `x` has a set
/// bit over column `px`. Columns wrap at the right edge.
pub open spec fn row_covers(bits: u8, x: int, px: int, cols: int) -> bool {
    let col = (px - x) % 64;
    col < cols && sprite_bit(bits, col)
}

/// The grid after the first `cols` bits of one sprite row were XORed onto
/// row `y`, starting at column `x`.
pub open spec fn draw_columns(pixels: Seq<bool>, x: int, y: int, bits: u8, cols: int) -> Seq<
    bool,
> {
    Seq::new(
        2048,
        |p: int| pixels[p] != (p / 64 == y && row_covers(bits, x, p % 64, cols)),
    )
}

/// Whether one of the first `cols` bits of a sprite row is set over a pixel
/// that is on.
pub open spec fn columns_collide(pixels: Seq<bool>, x: int, y: int, bits: u8, cols: int) -> bool {
    exists|col: int|
        0 <= col < cols && sprite_bit(bits, col) && #[trigger] pixels[pixel_index(
            (x + col) % 64,
            y,
        )]
}

/// The grid after one whole sprite row was drawn.
pub open spec fn draw_row(pixels: Seq<bool>, x: int, y: int, bits: u8) -> Seq<bool> {
    draw_columns(pixels, x, y, bits, 8)
}

/// Whether drawing one sprite row turns off a pixel that was on.
pub open spec fn row_collides(pixels: Seq<bool>, x: int, y: int, bits: u8) -> bool {
    columns_collide(pixels, x, y, bits, 8)
}

/// The grid after a sprite was drawn at `(x, y)`: its rows are drawn one
/// below the other, top row first, each onto what the rows before it left.
/// Rows wrap at the bottom edge.
pub open spec fn draw_sprite(pixels: Seq<bool>, x: int, y: int, sprite: Seq<u8>) -> Seq<bool>
    decreases sprite.len(),
{
    if sprite.len() == 0 {
        pixels
    } else {
        draw_row(
            draw_sprite(pixels, x, y, sprite.drop_last()),
            x,
            (y + sprite.len() - 1) % 32,
            sprite.last(),
        )
    }
}

/// Whether drawing a sprite at `(x, y)` met, at any of its set bits, a pixel
/// that was on when that bit was drawn.
pub open spec fn sprite_collides(pixels: Seq<bool>, x: int, y: int, sprite: Seq<u8>) -> bool
    decreases sprite.len(),
{
    if sprite.len() == 0 {
        false
    } else {
        sprite_collides(pixels, x, y, sprite.drop_last()) || row_collides(
            draw_sprite(pixels, x, y, sprite.drop_last()),
            x,
            (y + sprite.len() - 1) % 32,
            sprite.last(),
        )
    }
}

/// The screen: one byte per pixel, 0 for off and 1 for on, and the colour
/// frame last produced by `render`.
#[derive(Debug)]
pub struct Display {
    screen: [u8; 2048],
    buffer: [u32; 2048],
}

impl Display {
    /// Every stored pixel byte is 0 or 1.
    pub closed spec fn pixels_are_bits(&self) -> bool {
        forall|p: int| 0 <= p < 2048 ==> self.screen[p] <= 1
    }

    /// The pixel grid, row by row: `true` where a pixel is on.
    pub closed spec fn view(&self) -> Seq<bool> {
        Seq::new(2048, |p: int| self.screen[p] == 1)
    }

    /// The colour frame last rendered.
    pub closed spec fn frame(&self) -> Seq<u32> {
        self.buffer@
    }

    /// Well-formedness: pixel bytes are bits, and both grids have their size.
    pub open spec fn wf(&self) -> bool {
        &&& self.pixels_are_bits()
        &&& self@.len() == 2048
        &&& self.frame().len() == 2048
    }

    /// A screen with every pixel off and an all-black frame.
    pub fn new() -> (display: Display)
        ensures
            display.wf(),
            display@ == blank_pixels(),
            display.frame() == frame_colors(blank_pixels()),
    {
        Display { screen: [0; 2048], buffer: [0; 2048] }
    }

    /// Turns every pixel off. The rendered frame is left as it is.
    pub fn clear(&mut self)
        requires
            old(self).wf(),
        ensures
            final(self).wf(),
            final(self)@ == blank_pixels(),
            final(self).frame() == old(self).frame(),
    {
        let mut p: usize = 0;
        while p < 2048
            invariant
                p <= 2048,
                self.buffer == old(self).buffer,
                forall|q: int| 0 <= q < p ==> self.screen[q] == 0,
                forall|q: int| p <= q < 2048 ==> self.screen[q] <= 1,
            decreases 2048 - p,
        {
            self.screen[p] = 0;
            p += 1;
        }
    }

    /// Whether the pixel in column `x` of row `y` is on.
    pub fn get_point(&self, x: usize, y: usize) -> (on: bool)
        requires
            x < WIDTH,
            y < HEIGHT,
        ensures
            on == self@[pixel_index(x as int, y as int)],
    {
        self.screen[x + y * WIDTH] == 1
    }

    /// Sets the pixel in column `x` of row `y`.
    pub fn set_point(&mut self, x: usize, y: usize, on: bool)
        requires
            old(self).wf(),
            x < WIDTH,
            y < HEIGHT,
        ensures
            final(self).wf(),
            final(self)@ == old(self)@.update(pixel_index(x as int, y as int), on),
            final(self).frame() == old(self).frame(),
    {
        self.screen[x + y * WIDTH] = if on {
            1
        } else {
            0
        };
    }

    /// XORs one sprite row onto row `y` with its first bit in column `x`
    /// and returns whether a set bit met a pixel that was on.
    fn draw_row(&mut self, x: u8, y: usize, bits: u8) -> (collision: bool)
        requires
            old(self).wf(),
            y < HEIGHT,
        ensures
            final(self).wf(),
            final(self)@ == draw_row(old(self)@, x as int, y as int, bits),
            collision == row_collides(old(self)@, x as int, y as int, bits),
            final(self).frame() == old(self).frame(),
    {
        let mut collision = false;
        let mut i: u8 = 0;
        assert(self@ =~= draw_columns(old(self)@, x as int, y as int, bits, 0));
        while i < 8
            invariant
                self.wf(),
                old(self).wf(),
                i <= 8,
                y < HEIGHT,
                self@ == draw_columns(old(self)@, x as int, y as int, bits, i as int),
                collision == columns_collide(old(self)@, x as int, y as int, bits, i as int),
                self.frame() == old(self).frame(),
            decreases 8 - i,
        {
            proof {
                lemma_next_column(old(self)@, x as int, y as int, bits, i as int);
            }
            if (bits >> (7 - i)) & 1 == 1 {
                let x_point = (x as usize + i as usize) % WIDTH;
                let was_on = self.get_point(x_point, y);
                if was_on {
                    collision = true;
                }
                self.set_point(x_point, y, !was_on);
            }
            i += 1;
        }
        collision
    }

    /// XORs a sprite onto the grid with its top-left bit at `(x, y)` and
    /// returns whether a set bit met a pixel that was on. Coordinates wrap
    /// at the edges.
    pub fn draw(&mut self, x: u8, y: u8, sprite: &[u8]) -> (collision: bool)
        requires
            old(self).wf(),
        ensures
            final(self).wf(),
            final(self)@ == draw_sprite(old(self)@, x as int, y as int, sprite@),
            collision == sprite_collides(old(self)@, x as int, y as int, sprite@),
            final(self).frame() == old(self).frame(),
    {
        let mut collision = false;
        let rows = sprite.len();
        let mut j: usize = 0;
        assert(sprite@.take(0) =~= Seq::<u8>::empty());
        while j < rows
            invariant
                self.wf(),
                j <= rows,
                rows == sprite@.len(),
                self@ == draw_sprite(old(self)@, x as int, y as int, sprite@.take(j as int)),
                collision == sprite_collides(
                    old(self)@,
                    x as int,
                    y as int,
                    sprite@.take(j as int),
                ),
                self.frame() == old(self).frame(),
            decreases rows - j,
        {
            let bits = sprite[j];
            let y_point = wrapped_row(y, j);
            proof {
                lemma_next_row(old(self)@, x as int, y as int, sprite@, j as int);
            }
            let row_collision = self.draw_row(x, y_point, bits);
            collision = collision || row_collision;
            j += 1;
        }
        assert(sprite@.take(rows as int) =~= sprite@);
        collision
    }

    /// Computes the colour frame of the current grid: `COLOR_ON` for a pixel
    /// that is on, `COLOR_OFF` for one that is off. The grid is unchanged.
    pub fn render(&mut self)
        requires
            old(self).wf(),
        ensures
            final(self).wf(),
            final(self)@ == old(self)@,
            final(self).frame() == frame_colors(old(self)@),
    {
        let mut y: usize = 0;
        while y < HEIGHT
            invariant
                y <= HEIGHT,
                self.screen == old(self).screen,
                forall|p: int| 0 <= p < y * 64 ==> self.buffer[p] == frame_colors(old(self)@)[p],
            decreases HEIGHT - y,
        {
            let offset = y * WIDTH;
            let mut x: usize = 0;
            while x < WIDTH
                invariant
                    x <= WIDTH,
                    y < HEIGHT,
                    offset == y * 64,
                    self.screen == old(self).screen,
                    forall|p: int|
                        0 <= p < offset + x ==> self.buffer[p] == frame_colors(old(self)@)[p],
                decreases WIDTH - x,
            {
                let point = self.screen[offset + x];
                let color = if point == 1 {
                    COLOR_ON
                } else {
                    COLOR_OFF
                };
                self.buffer[offset + x] = color;
                x += 1;
            }
            y += 1;
        }
        assert(self.buffer@ =~= frame_colors(old(self)@));
    }

    /// The colour frame last rendered, row by row, for a display surface of
    /// `WIDTH` by `HEIGHT` pixels.
    pub fn buffer(&self) -> (frame: &[u32])
        ensures
            frame@ == self.frame(),
    {
        self.buffer.as_slice()
    }
}

/// The grid row on which row `j` of a sprite drawn with its top at `y`
/// lands.
fn wrapped_row(y: u8, j: usize) -> (row: usize)
    ensures
        row == (y + j) % 32,
{
    (y as usize % HEIGHT + j % HEIGHT) % HEIGHT
}

/// Drawing the first `j + 1` rows of a sprite is drawing its first `j` rows
/// and then row `j`.
pub proof fn lemma_next_row(pixels: Seq<bool>, x: int, y: int, sprite: Seq<u8>, j: int)
    requires
        0 <= j < sprite.len(),
    ensures
        draw_sprite(pixels, x, y, sprite.take(j + 1)) == draw_row(
            draw_sprite(pixels, x, y, sprite.take(j)),
            x,
            (y + j) % 32,
            sprite[j],
        ),
        sprite_collides(pixels, x, y, sprite.take(j + 1)) == (sprite_collides(
            pixels,
            x,
            y,
            sprite.take(j),
        ) || row_collides(
            draw_sprite(pixels, x, y, sprite.take(j)),
            x,
            (y + j) % 32,
            sprite[j],
        )),
{
    let drawn = sprite.take(j + 1);
    assert(drawn.drop_last() =~= sprite.take(j));
    assert(drawn.last() == sprite[j]);
    assert(drawn.len() - 1 == j);
}

/// Drawing bit `col` of a row after the bits before it: the pixel under it
/// is flipped when the bit is set, and a collision is one among the earlier
/// bits or at this one.
pub proof fn lemma_next_column(pixels: Seq<bool>, x: int, y: int, bits: u8, col: int)
    requires
        pixels.len() == 2048,
        0 <= col < 8,
        0 <= y < 32,
    ensures
        draw_columns(pixels, x, y, bits, col + 1) == if sprite_bit(bits, col) {
            let p = pixel_index((x + col) % 64, y);
            draw_columns(pixels, x, y, bits, col).update(
                p,
                !draw_columns(pixels, x, y, bits, col)[p],
            )
        } else {
            draw_columns(pixels, x, y, bits, col)
        },
        draw_columns(pixels, x, y, bits, col)[pixel_index((x + col) % 64, y)] == pixels[pixel_index(
            (x + col) % 64,
            y,
        )],
        columns_collide(pixels, x, y, bits, col + 1) == (columns_collide(pixels, x, y, bits, col)
            || (sprite_bit(bits, col) && pixels[pixel_index((x + col) % 64, y)])),
{
    let p = pixel_index((x + col) % 64, y);
    let before = draw_columns(pixels, x, y, bits, col);
    let after = draw_columns(pixels, x, y, bits, col + 1);
    assert(p / 64 == y && p % 64 == (x + col) % 64);
    assert((p % 64 - x) % 64 == col);
    if sprite_bit(bits, col) {
        assert forall|q: int| 0 <= q < 2048 implies after[q] == before.update(p, !before[p])[q] by {
            if q != p && q / 64 == y {
                assert((q % 64 - x) % 64 != col);
            }
        }
        assert(after =~= before.update(p, !before[p]));
    } else {
        assert(after =~= before);
    }
    if columns_collide(pixels, x, y, bits, col + 1) {
        let c = choose|c: int|
            0 <= c < col + 1 && sprite_bit(bits, c) && #[trigger] pixels[pixel_index(
                (x + c) % 64,
                y,
            )];
        if c < col {
            assert(columns_collide(pixels, x, y, bits, col));
        }
    }
}

} // verus!
