//! What holds of sprite drawing: a closed form for each pixel, and the
//! consequences of XOR being its own inverse.

use crate::display::{
    blank_pixels, columns_collide, draw_sprite, pixel_index, row_covers, sprite_bit,
    sprite_collides,
};
use vstd::prelude::*;

verus! {

/// Whether an odd number of a sprite's set bits land on pixel `p` when the
/// sprite is drawn at `(x, y)`.
pub open spec fn sprite_flips(x: int, y: int, sprite: Seq<u8>, p: int) -> bool
    decreases sprite.len(),
{
    if sprite.len() == 0 {
        false
    } else {
        sprite_flips(x, y, sprite.drop_last(), p) != (p / 64 == (y + sprite.len() - 1) % 32
            && row_covers(sprite.last(), x, p % 64, 8))
    }
}

/// Whether the sprite row that lands on the row of pixel `p` has a set bit
/// over `p`. For a sprite of at most 32 rows, no two rows share a grid row.
pub open spec fn sprite_covers(x: int, y: int, sprite: Seq<u8>, p: int) -> bool {
    let row = (p / 64 - y) % 32;
    row < sprite.len() && row_covers(sprite[row], x, p % 64, 8)
}

/// Whether any bit of the sprite is set.
pub open spec fn has_set_bit(sprite: Seq<u8>) -> bool {
    exists|row: int, col: int|
        0 <= row < sprite.len() && 0 <= col < 8 && #[trigger] sprite_bit(sprite[row], col)
}

/// Drawing keeps the size of the grid and flips exactly the pixels on which
/// an odd number of set sprite bits land.
pub proof fn lemma_draw_sprite_pixels(pixels: Seq<bool>, x: int, y: int, sprite: Seq<u8>)
    requires
        pixels.len() == 2048,
    ensures
        draw_sprite(pixels, x, y, sprite).len() == 2048,
        forall|p: int|
            0 <= p < 2048 ==> #[trigger] draw_sprite(pixels, x, y, sprite)[p] == (pixels[p]
                != sprite_flips(x, y, sprite, p)),
    decreases sprite.len(),
{
    if sprite.len() > 0 {
        lemma_draw_sprite_pixels(pixels, x, y, sprite.drop_last());
    }
}

/// For a sprite of at most 32 rows, a pixel is flipped exactly when the one
/// sprite row that lands on its grid row has a set bit over it.
pub proof fn lemma_flips_is_covers(x: int, y: int, sprite: Seq<u8>, p: int)
    requires
        sprite.len() <= 32,
        0 <= p < 2048,
    ensures
        sprite_flips(x, y, sprite, p) == sprite_covers(x, y, sprite, p),
    decreases sprite.len(),
{
    if sprite.len() > 0 {
        let rest = sprite.drop_last();
        lemma_flips_is_covers(x, y, rest, p);
        let row = (p / 64 - y) % 32;
        let last = sprite.len() - 1;
        assert((p / 64 == (y + last) % 32) == (row == last));
        if row < last {
            assert(rest[row] == sprite[row]);
        }
    }
}

/// Drawing the same sprite twice at the same place restores the grid,
/// whatever was on it and however long the sprite is.
pub proof fn lemma_draw_twice_restores(pixels: Seq<bool>, x: int, y: int, sprite: Seq<u8>)
    requires
        pixels.len() == 2048,
    ensures
        draw_sprite(draw_sprite(pixels, x, y, sprite), x, y, sprite) == pixels,
{
    let once = draw_sprite(pixels, x, y, sprite);
    lemma_draw_sprite_pixels(pixels, x, y, sprite);
    lemma_draw_sprite_pixels(once, x, y, sprite);
    assert(draw_sprite(once, x, y, sprite) =~= pixels);
}

/// A sprite of no rows changes nothing and collides with nothing.
pub proof fn lemma_draw_empty_sprite(pixels: Seq<bool>, x: int, y: int)
    ensures
        draw_sprite(pixels, x, y, Seq::<u8>::empty()) == pixels,
        !sprite_collides(pixels, x, y, Seq::<u8>::empty()),
{
}

/// Where bit `col` of sprite row `row` lands, and that position leads back
/// to that row and bit.
pub proof fn lemma_landing_pixel(x: int, y: int, row: int, col: int)
    requires
        0 <= row < 32,
        0 <= col < 8,
    ensures
        ({
            let p = pixel_index((x + col) % 64, (y + row) % 32);
            &&& 0 <= p < 2048
            &&& p / 64 == (y + row) % 32
            &&& p % 64 == (x + col) % 64
            &&& (p / 64 - y) % 32 == row
            &&& (p % 64 - x) % 64 == col
        }),
{
}

/// A sprite of at most 32 rows collides only where one of its set bits
/// lands on a pixel that was on before the draw: the result is such a pixel.
pub proof fn lemma_collision_needs_lit_pixel(
    pixels: Seq<bool>,
    x: int,
    y: int,
    sprite: Seq<u8>,
) -> (p: int)
    requires
        pixels.len() == 2048,
        sprite.len() <= 32,
        sprite_collides(pixels, x, y, sprite),
    ensures
        0 <= p < 2048,
        pixels[p],
        sprite_covers(x, y, sprite, p),
    decreases sprite.len(),
{
    let rest = sprite.drop_last();
    let last = sprite.len() - 1;
    if sprite_collides(pixels, x, y, rest) {
        let p = lemma_collision_needs_lit_pixel(pixels, x, y, rest);
        assert(rest[(p / 64 - y) % 32] == sprite[(p / 64 - y) % 32]);
        p
    } else {
        let drawn = draw_sprite(pixels, x, y, rest);
        let col = choose|col: int|
            0 <= col < 8 && sprite_bit(sprite.last(), col) && #[trigger] drawn[pixel_index(
                (x + col) % 64,
                (y + last) % 32,
            )];
        let p = pixel_index((x + col) % 64, (y + last) % 32);
        lemma_landing_pixel(x, y, last, col);
        lemma_draw_sprite_pixels(pixels, x, y, rest);
        lemma_flips_is_covers(x, y, rest, p);
        p
    }
}

/// A sprite of at most 32 rows collides when one of its set bits lands on a
/// pixel that is on.
pub proof fn lemma_collision_on_lit_pixel(
    pixels: Seq<bool>,
    x: int,
    y: int,
    sprite: Seq<u8>,
    row: int,
    col: int,
)
    requires
        pixels.len() == 2048,
        sprite.len() <= 32,
        0 <= row < sprite.len(),
        0 <= col < 8,
        sprite_bit(sprite[row], col),
        pixels[pixel_index((x + col) % 64, (y + row) % 32)],
    ensures
        sprite_collides(pixels, x, y, sprite),
    decreases sprite.len(),
{
    let rest = sprite.drop_last();
    let last = sprite.len() - 1;
    if row < last {
        assert(rest[row] == sprite[row]);
        lemma_collision_on_lit_pixel(pixels, x, y, rest, row, col);
    } else {
        let p = pixel_index((x + col) % 64, (y + row) % 32);
        let drawn = draw_sprite(pixels, x, y, rest);
        lemma_landing_pixel(x, y, row, col);
        lemma_draw_sprite_pixels(pixels, x, y, rest);
        lemma_flips_is_covers(x, y, rest, p);
        assert(drawn[p]);
        assert(columns_collide(drawn, x, (y + last) % 32, sprite.last(), 8));
    }
}

/// Drawing a sprite of at most 32 rows that has a set bit onto the blank
/// grid does not collide; drawing it there a second time does, and leaves
/// the grid blank again.
pub proof fn lemma_draw_twice_on_blank(x: int, y: int, sprite: Seq<u8>)
    requires
        sprite.len() <= 32,
        has_set_bit(sprite),
    ensures
        !sprite_collides(blank_pixels(), x, y, sprite),
        sprite_collides(draw_sprite(blank_pixels(), x, y, sprite), x, y, sprite),
        draw_sprite(draw_sprite(blank_pixels(), x, y, sprite), x, y, sprite) == blank_pixels(),
{
    let blank = blank_pixels();
    let once = draw_sprite(blank, x, y, sprite);
    if sprite_collides(blank, x, y, sprite) {
        let p = lemma_collision_needs_lit_pixel(blank, x, y, sprite);
        assert(false);
    }
    lemma_draw_twice_restores(blank, x, y, sprite);
    lemma_draw_sprite_pixels(blank, x, y, sprite);
    let (row, col) = choose|row: int, col: int|
        0 <= row < sprite.len() && 0 <= col < 8 && #[trigger] sprite_bit(sprite[row], col);
    let p = pixel_index((x + col) % 64, (y + row) % 32);
    lemma_landing_pixel(x, y, row, col);
    lemma_flips_is_covers(x, y, sprite, p);
    assert(once[p]);
    lemma_collision_on_lit_pixel(once, x, y, sprite, row, col);
}

} // verus!
