//! Scrolling parallax backgrounds.
use vstd::prelude::*;

use crate::data::Rectangle;
use crate::fixed::COORD_LIMIT;
use crate::fixed::MICROS;
use crate::fixed::mul_fix;
use crate::fixed::mul_fix_sat;
use crate::fixed::ratio_sat;
use crate::fixed::sat;
use crate::fixed::sat_add;
use crate::fixed::tdiv;
use crate::gfx::Sprite;

verus! {

/// One background layer: an image scrolled left at a constant speed and
/// tiled horizontally across the window.
#[derive(Clone, Copy, Debug, PartialEq, Eq, Structural)]
pub struct Background {
    /// How far the image has scrolled, in micro-pixels of the image.
    pub pos: i64,
    /// Scroll speed in micro-pixels per second.
    pub vel: i64,
    pub sprite: Sprite,
}

/// The window-to-image vertical scale factor, micro-scaled.
pub open spec fn bg_scale(b: Background, win_h: int) -> int {
    sat(tdiv(win_h * MICROS, b.sprite.src().h as int))
}

/// The on-screen width of one tiled copy of the image.
pub open spec fn bg_tile_step(b: Background, win_h: int) -> int {
    sat(mul_fix(b.sprite.src().w as int, bg_scale(b, win_h)))
}

/// The horizontal start of the first tile.
pub open spec fn bg_tile_start(b: Background, win_h: int) -> int {
    -sat(mul_fix(b.pos as int, bg_scale(b, win_h)))
}

/// The run of tiles drawn from `left` in steps of `step` until the right
/// window edge is reached.
pub open spec fn tile_run(left: int, win_w: int, step: int, win_h: int) -> Seq<Rectangle>
    decreases win_w + step - left,
        when step >= 1
{
    if left >= win_w {
        Seq::empty()
    } else {
        seq![Rectangle { x: left as i64, y: 0, w: step as i64, h: win_h as i64 }] + tile_run(
            left + step,
            win_w,
            step,
            win_h,
        )
    }
}

/// The layer after one frame of scrolling: the position advances by
/// `vel * dt` and wraps once the image width is passed.
pub open spec fn background_scrolled(b: Background, dt: int) -> Background {
    let moved = sat(b.pos + sat(mul_fix(b.vel as int, dt)));
    let pos = if moved > b.sprite.src().w {
        moved - b.sprite.src().w
    } else {
        moved
    };
    Background { pos: pos as i64, ..b }
}

impl Background {
    /// The image is non-degenerate and the scroll state in range.
    pub open spec fn valid(self) -> bool {
        &&& self.sprite.valid()
        &&& 1 <= self.sprite.src().w
        &&& 1 <= self.sprite.src().h
        &&& -COORD_LIMIT <= self.pos <= COORD_LIMIT
        &&& 0 <= self.vel <= COORD_LIMIT
    }

    /// Advance the scroll position, wrapping once the image width is passed.
    pub fn scroll(&mut self, elapsed: i64)
        requires
            old(self).valid(),
            0 <= elapsed <= COORD_LIMIT,
        ensures
            *final(self) == background_scrolled(*old(self), elapsed as int),
            final(self).valid(),
    {
        proof {
            let v = old(self).vel as int;
            let e = elapsed as int;
            assert(v * e >= 0) by (nonlinear_arith)
                requires
                    v >= 0,
                    e >= 0,
            ;
            vstd::arithmetic::div_mod::lemma_div_pos_is_pos(v * e, MICROS as int);
        }
        let delta = mul_fix_sat(self.vel, elapsed);
        let moved = sat_add(self.pos, delta);
        if moved > self.sprite.size().0 {
            self.pos = moved - self.sprite.size().0;
        } else {
            self.pos = moved;
        }
    }

    /// The destination rectangles that tile the window with this layer, left
    /// to right. The host blits the whole image into each of them.
    pub fn tiles(&self, win_w: i64, win_h: i64) -> (r: Vec<Rectangle>)
        requires
            self.valid(),
            0 <= win_w <= COORD_LIMIT,
            0 <= win_h <= COORD_LIMIT,
            bg_tile_step(*self, win_h as int) >= 1,
        ensures
            r@ == tile_run(
                bg_tile_start(*self, win_h as int),
                win_w as int,
                bg_tile_step(*self, win_h as int),
                win_h as int,
            ),
    {
        let scale = ratio_sat(win_h, self.sprite.size().1);
        let step = mul_fix_sat(self.sprite.size().0, scale);
        let start = -mul_fix_sat(self.pos, scale);

        let ghost step_i = bg_tile_step(*self, win_h as int);
        let ghost start_i = bg_tile_start(*self, win_h as int);

        let mut tiles: Vec<Rectangle> = Vec::new();
        let mut left: i64 = start;
        while left < win_w
            invariant
                step == step_i,
                1 <= step <= COORD_LIMIT,
                0 <= win_w <= COORD_LIMIT,
                0 <= win_h <= COORD_LIMIT,
                -COORD_LIMIT <= start_i <= COORD_LIMIT,
                left >= -COORD_LIMIT,
                left == start_i || left <= win_w + step,
                tile_run(start_i, win_w as int, step_i, win_h as int) == tiles@ + tile_run(
                    left as int,
                    win_w as int,
                    step_i,
                    win_h as int,
                ),
            decreases win_w + step - left,
        {
            let tile = Rectangle { x: left, y: 0, w: step, h: win_h };
            proof {
                assert(tile_run(left as int, win_w as int, step_i, win_h as int) == seq![tile]
                    + tile_run(left + step_i, win_w as int, step_i, win_h as int));
                assert((tiles@ + seq![tile]) + tile_run(
                    left + step_i,
                    win_w as int,
                    step_i,
                    win_h as int,
                ) =~= tiles@ + (seq![tile] + tile_run(
                    left + step_i,
                    win_w as int,
                    step_i,
                    win_h as int,
                )));
            }
            tiles.push(tile);
            left = left + step;
        }
        proof {
            assert(tile_run(left as int, win_w as int, step_i, win_h as int) =~= Seq::empty());
            assert(tiles@ + Seq::<Rectangle>::empty() =~= tiles@);
        }
        tiles
    }
}

/// The three parallax layers every view shares.
#[derive(Clone, Copy, Debug, PartialEq, Eq, Structural)]
pub struct BgSet {
    pub back: Background,
    pub middle: Background,
    pub front: Background,
}

impl BgSet {
    pub open spec fn valid(self) -> bool {
        self.back.valid() && self.middle.valid() && self.front.valid()
    }

    /// The standard layer set: the farther the layer, the slower it scrolls.
    pub fn new(back: Sprite, middle: Sprite, front: Sprite) -> (r: BgSet)
        requires
            back.valid() && back.src().w >= 1 && back.src().h >= 1,
            middle.valid() && middle.src().w >= 1 && middle.src().h >= 1,
            front.valid() && front.src().w >= 1 && front.src().h >= 1,
        ensures
            r.back == (Background { pos: 0, vel: 20_000_000, sprite: back }),
            r.middle == (Background { pos: 0, vel: 40_000_000, sprite: middle }),
            r.front == (Background { pos: 0, vel: 80_000_000, sprite: front }),
            r.valid(),
    {
        BgSet {
            back: Background { pos: 0, vel: 20_000_000, sprite: back },
            middle: Background { pos: 0, vel: 40_000_000, sprite: middle },
            front: Background { pos: 0, vel: 80_000_000, sprite: front },
        }
    }
}

} // verus!
