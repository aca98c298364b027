//! Sprite regions and the animated-sprite timing model.
//!
//! A `Sprite` names a rectangular region of a host-owned pixel surface; the
//! surface itself never enters the library. An `AnimatedSprite` owns an
//! ordered sequence of such regions and a time cursor, and selects the
//! current frame as a pure function of the cursor and the frame delay.
use vstd::prelude::*;

use crate::data::Rectangle;
use crate::data::contains;
use crate::fixed::COORD_LIMIT;
use crate::fixed::MICROS;
use crate::fixed::sat;
use crate::fixed::tdiv;

verus! {

/// Dividing this by a frame rate in micro-hertz yields the delay between
/// frames in micro-seconds.
pub const FPS_UNIT: i64 = MICROS * MICROS;

/// A rectangular sub-region of a host-owned pixel surface.
#[derive(Clone, Copy, Debug, PartialEq, Eq, Structural)]
pub struct Sprite {
    src: Rectangle,
}

/// The region a sub-sprite request names: `rect` shifted by the parent's own
/// origin within the surface.
pub open spec fn sub_region(parent: Rectangle, rect: Rectangle) -> Rectangle {
    Rectangle {
        x: (rect.x + parent.x) as i64,
        y: (rect.y + parent.y) as i64,
        w: rect.w,
        h: rect.h,
    }
}

impl Sprite {
    /// The region of the surface this sprite shows.
    pub closed spec fn src(&self) -> Rectangle {
        self.src
    }

    /// The region is a well-formed rectangle whose far corner also stays
    /// within the coordinate band.
    pub open spec fn valid(&self) -> bool {
        &&& self.src().valid()
        &&& self.src().x + self.src().w <= COORD_LIMIT
        &&& self.src().y + self.src().h <= COORD_LIMIT
    }

    /// A sprite covering a whole surface of the given size.
    pub fn new(w: i64, h: i64) -> (s: Sprite)
        requires
            0 <= w <= COORD_LIMIT,
            0 <= h <= COORD_LIMIT,
        ensures
            s.src() == (Rectangle { x: 0, y: 0, w, h }),
            s.valid(),
    {
        Sprite { src: Rectangle { w, h, x: 0, y: 0 } }
    }

    /// A sprite showing the sub-region `rect` of this sprite, or `None` when
    /// the request reaches outside it.
    pub fn region(&self, rect: Rectangle) -> (r: Option<Sprite>)
        requires
            self.valid(),
            rect.valid(),
        ensures
            r is Some <==> contains(self.src(), sub_region(self.src(), rect)),
            r is Some ==> r.unwrap().src() == sub_region(self.src(), rect),
            r is Some ==> r.unwrap().valid(),
    {
        let new_src = Rectangle { x: rect.x + self.src.x, y: rect.y + self.src.y, ..rect };

        if self.src.contains(new_src) {
            Some(Sprite { src: new_src })
        } else {
            None
        }
    }

    /// The dimensions of the region.
    pub fn size(&self) -> (r: (i64, i64))
        ensures
            r.0 == self.src().w,
            r.1 == self.src().h,
    {
        (self.src.w, self.src.h)
    }

    /// The region within the surface, for the host to sample from.
    pub fn source(&self) -> (r: Rectangle)
        ensures
            r == self.src(),
    {
        self.src
    }
}

/// The frame delay that plays `fps` frames per second (`fps` in micro-hertz).
fn fps_delay(fps: i64) -> (d: i64)
    requires
        fps != 0,
        -FPS_UNIT <= fps <= FPS_UNIT,
    ensures
        d as int == tdiv(FPS_UNIT as int, fps as int),
        d != 0,
        -FPS_UNIT <= d <= FPS_UNIT,
{
    if fps > 0 {
        proof {
            vstd::arithmetic::div_mod::lemma_div_non_zero(FPS_UNIT as int, fps as int);
        }
        FPS_UNIT / fps
    } else {
        proof {
            vstd::arithmetic::div_mod::lemma_div_non_zero(FPS_UNIT as int, -fps as int);
        }
        -(FPS_UNIT / (-fps))
    }
}

/// The frame shown at time cursor `t` with frame delay `d` over `n` frames:
/// the truncated quotient, folded into range, with negative quotients pinned
/// to the first frame.
pub open spec fn frame_index(t: int, d: int, n: int) -> int {
    let q = tdiv(t, d);
    if q < 0 {
        0
    } else {
        q % n
    }
}

/// An ordered sequence of frames shown as a function of elapsed time.
/// Instances are duplicated per entity with `duplicate`.
#[derive(Debug)]
pub struct AnimatedSprite {
    pub sprites: Vec<Sprite>,
    pub frame_delay: i64,
    pub current_time: i64,
}

/// The time cursor after advancing by `dt`: a cursor that would go negative
/// wraps to the time of the last frame.
pub open spec fn time_after(s: AnimatedSprite, dt: int) -> int {
    if s.time() + dt >= 0 {
        crate::fixed::sat(s.time() + dt)
    } else {
        (s.sprites().len() - 1) * s.delay()
    }
}

impl AnimatedSprite {
    /// The frame regions, in order.
    pub open spec fn sprites(&self) -> Seq<Sprite> {
        self.sprites@
    }

    /// Micro-seconds between frames.
    pub open spec fn delay(&self) -> i64 {
        self.frame_delay
    }

    /// The time cursor in micro-seconds.
    pub open spec fn time(&self) -> i64 {
        self.current_time
    }

    /// At least one frame, a nonzero in-range delay, an in-range cursor,
    /// and well-formed frame regions.
    pub open spec fn valid(&self) -> bool {
        &&& 1 <= self.sprites().len() <= 1_000_000
        &&& self.delay() != 0
        &&& -FPS_UNIT <= self.delay() <= FPS_UNIT
        &&& -COORD_LIMIT <= self.time() <= COORD_LIMIT
        &&& forall|i: int| 0 <= i < self.sprites().len() ==> #[trigger] self.sprites()[i].valid()
    }

    /// An animation over the given frames with an explicit frame delay.
    pub fn new(sprites: Vec<Sprite>, frame_delay: i64) -> (r: AnimatedSprite)
        requires
            1 <= sprites@.len() <= 1_000_000,
            frame_delay != 0,
            -FPS_UNIT <= frame_delay <= FPS_UNIT,
            forall|i: int| 0 <= i < sprites@.len() ==> #[trigger] sprites@[i].valid(),
        ensures
            r.sprites() == sprites@,
            r.delay() == frame_delay,
            r.time() == 0,
            r.valid(),
    {
        AnimatedSprite { sprites, frame_delay, current_time: 0 }
    }

    /// An animation advancing `fps` frames per second (`fps` in micro-hertz).
    /// A zero rate is a construction error the caller must rule out.
    pub fn with_fps(sprites: Vec<Sprite>, fps: i64) -> (r: AnimatedSprite)
        requires
            1 <= sprites@.len() <= 1_000_000,
            fps != 0,
            -FPS_UNIT <= fps <= FPS_UNIT,
            forall|i: int| 0 <= i < sprites@.len() ==> #[trigger] sprites@[i].valid(),
        ensures
            r.sprites() == sprites@,
            r.delay() == tdiv(FPS_UNIT as int, fps as int),
            r.time() == 0,
            r.valid(),
    {
        let frame_delay = fps_delay(fps);
        AnimatedSprite { sprites, frame_delay, current_time: 0 }
    }

    /// The number of frames.
    pub fn frames(&self) -> (n: usize)
        ensures
            n == self.sprites().len(),
    {
        self.sprites.len()
    }

    /// Change the playback rate without resetting the time cursor.
    pub fn set_frame_delay(&mut self, frame_delay: i64)
        requires
            old(self).valid(),
            frame_delay != 0,
            -FPS_UNIT <= frame_delay <= FPS_UNIT,
        ensures
            *final(self) == (AnimatedSprite { frame_delay, ..*old(self) }),
            final(self).valid(),
    {
        self.frame_delay = frame_delay;
    }

    /// Change the playback rate to `fps` frames per second (micro-hertz).
    /// A zero rate is an error the caller must rule out.
    pub fn set_fps(&mut self, fps: i64)
        requires
            old(self).valid(),
            fps != 0,
            -FPS_UNIT <= fps <= FPS_UNIT,
        ensures
            *final(self) == (AnimatedSprite {
                frame_delay: tdiv(FPS_UNIT as int, fps as int) as i64,
                ..*old(self)
            }),
            final(self).valid(),
    {
        let frame_delay = fps_delay(fps);
        self.set_frame_delay(frame_delay);
    }

    /// Advance the time cursor; a cursor that would go negative wraps to the
    /// time of the last frame.
    pub fn add_time(&mut self, dt: i64)
        requires
            old(self).valid(),
            -COORD_LIMIT <= dt <= COORD_LIMIT,
        ensures
            *final(self) == (AnimatedSprite {
                current_time: time_after(*old(self), dt as int) as i64,
                ..*old(self)
            }),
            final(self).valid(),
    {
        let t = crate::fixed::sat_add(self.current_time, dt);

        if t < 0 {
            let n = self.sprites.len() as i64;
            proof {
                let ni = n as int;
                let di = self.frame_delay as int;
                assert((ni - 1) * di <= 1_000_000 * FPS_UNIT && (ni - 1) * di >= -(1_000_000
                    * FPS_UNIT)) by (nonlinear_arith)
                    requires
                        1 <= ni <= 1_000_000,
                        -FPS_UNIT <= di <= FPS_UNIT,
                ;
            }
            self.current_time = (n - 1) * self.frame_delay;
        } else {
            self.current_time = t;
        }
    }

    /// The index of the frame currently shown.
    pub fn current_frame(&self) -> (idx: usize)
        requires
            self.valid(),
        ensures
            idx == frame_index(self.time() as int, self.delay() as int, self.sprites().len() as int),
            idx < self.sprites().len(),
    {
        let q = if self.frame_delay > 0 {
            self.current_time / self.frame_delay
        } else {
            -(self.current_time / (-self.frame_delay))
        };
        if q < 0 {
            0
        } else {
            let n = self.sprites.len() as i64;
            proof {
                vstd::arithmetic::div_mod::lemma_mod_division_less_than_divisor(q as int, n as int);
            }
            (q % n) as usize
        }
    }

    /// The frame region currently shown.
    pub fn current_sprite(&self) -> (s: Sprite)
        requires
            self.valid(),
        ensures
            s == self.sprites()[frame_index(
                self.time() as int,
                self.delay() as int,
                self.sprites().len() as int,
            )],
            s.valid(),
    {
        let idx = self.current_frame();
        self.sprites[idx]
    }

    /// A fresh animation instance sharing this one's frames, delay and cursor.
    pub fn duplicate(&self) -> (r: AnimatedSprite)
        requires
            self.valid(),
        ensures
            r.sprites() == self.sprites(),
            r.delay() == self.delay(),
            r.time() == self.time(),
            r.valid(),
    {
        let mut sprites: Vec<Sprite> = Vec::new();
        let mut i: usize = 0;
        while i < self.sprites.len()
            invariant
                i <= self.sprites.len(),
                sprites@ =~= self.sprites@.take(i as int),
            decreases self.sprites.len() - i,
        {
            sprites.push(self.sprites[i]);
            i = i + 1;
        }
        proof {
            assert(sprites@ =~= self.sprites@);
        }
        AnimatedSprite { sprites, frame_delay: self.frame_delay, current_time: self.current_time }
    }
}

/// The layout of an animation's frames within one sprite sheet.
#[derive(Clone, Copy, Debug, PartialEq, Eq, Structural)]
pub struct AnimatedSpriteDescr {
    pub total_frames: usize,
    pub frames_high: usize,
    pub frames_wide: usize,
    pub frame_w: i64,
    pub frame_h: i64,
}

/// The grid cell the `i`-th frame of a sheet occupies.
pub open spec fn frame_cell(sheet: Rectangle, d: AnimatedSpriteDescr, i: int) -> Rectangle {
    Rectangle {
        x: (sheet.x + d.frame_w * (i % (d.frames_wide as int))) as i64,
        y: (sheet.y + d.frame_h * (i / (d.frames_wide as int))) as i64,
        w: d.frame_w,
        h: d.frame_h,
    }
}

/// Cut the first `total_frames` cells of a row-major grid out of a sheet.
pub fn load_frames(sheet: &Sprite, descr: AnimatedSpriteDescr) -> (r: Vec<Sprite>)
    requires
        sheet.valid(),
        1 <= descr.total_frames <= descr.frames_wide * descr.frames_high,
        1 <= descr.frames_wide,
        1 <= descr.frames_high,
        0 < descr.frame_w,
        0 < descr.frame_h,
        descr.frame_w * descr.frames_wide <= sheet.src().w,
        descr.frame_h * descr.frames_high <= sheet.src().h,
    ensures
        r@.len() == descr.total_frames,
        forall|i: int|
            0 <= i < descr.total_frames ==> (#[trigger] r@[i]).src() == frame_cell(
                sheet.src(),
                descr,
                i,
            ),
        forall|i: int| 0 <= i < descr.total_frames ==> (#[trigger] r@[i]).valid(),
{
    let mut frames: Vec<Sprite> = Vec::new();
    let mut i: usize = 0;
    while i < descr.total_frames
        invariant
            sheet.valid(),
            1 <= descr.total_frames <= descr.frames_wide * descr.frames_high,
            1 <= descr.frames_wide,
            1 <= descr.frames_high,
            0 < descr.frame_w,
            0 < descr.frame_h,
            descr.frame_w * descr.frames_wide <= sheet.src().w,
            descr.frame_h * descr.frames_high <= sheet.src().h,
            i <= descr.total_frames,
            frames@.len() == i,
            forall|j: int|
                0 <= j < i ==> (#[trigger] frames@[j]).src() == frame_cell(
                    sheet.src(),
                    descr,
                    j,
                ),
            forall|j: int| 0 <= j < i ==> (#[trigger] frames@[j]).valid(),
        decreases descr.total_frames - i,
    {
        let xth = i % descr.frames_wide;
        let yth = i / descr.frames_wide;
        proof {
            let wi = descr.frames_wide as int;
            let hi = descr.frames_high as int;
            let fw = descr.frame_w as int;
            let fh = descr.frame_h as int;
            let xi = (i as int) % wi;
            let yi = (i as int) / wi;
            vstd::arithmetic::div_mod::lemma_mod_division_less_than_divisor(i as int, wi);
            vstd::arithmetic::div_mod::lemma_div_pos_is_pos(i as int, wi);
            assert(yi < hi) by {
                if yi >= hi {
                    assert(wi * yi >= wi * hi) by (nonlinear_arith)
                        requires
                            yi >= hi,
                            wi >= 1,
                    ;
                    vstd::arithmetic::div_mod::lemma_fundamental_div_mod(i as int, wi);
                }
            }
            assert(fw * xi >= 0 && fw * (xi + 1) <= fw * wi && fh * yi >= 0 && fh * (yi + 1) <= fh
                * hi && wi <= fw * wi && hi <= fh * hi && fw * xi + fw == fw * (xi + 1) && fh * yi
                + fh == fh * (yi + 1)) by (nonlinear_arith)
                requires
                    0 <= xi < wi,
                    0 <= yi < hi,
                    fw >= 1,
                    fh >= 1,
            ;
        }
        let cell = Rectangle {
            w: descr.frame_w,
            h: descr.frame_h,
            x: descr.frame_w * (xth as i64),
            y: descr.frame_h * (yth as i64),
        };
        let region = sheet.region(cell);
        frames.push(region.unwrap());
        i = i + 1;
    }
    frames
}

/// The frame selector is periodic: advancing the cursor by one full cycle of
/// `n` frames of delay `d` shows the same frame.
pub proof fn lemma_frame_index_periodic(t: int, d: int, n: int)
    requires
        d >= 1,
        n >= 1,
        t >= 0,
    ensures
        frame_index(t + n * d, d, n) == frame_index(t, d, n),
{
    vstd::arithmetic::div_mod::lemma_hoist_over_denominator(t, n, d as nat);
    assert(tdiv(t + n * d, d) == t / d + n);
    vstd::arithmetic::div_mod::lemma_mod_multiples_vanish(1, t / d, n);
    assert((n * 1 + t / d) % n == (t / d) % n);
    vstd::arithmetic::div_mod::lemma_div_pos_is_pos(t, d);
}

} // verus!
