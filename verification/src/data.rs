//! Axis-aligned rectangle algebra, in micro-pixel coordinates.
use vstd::prelude::*;

use crate::fixed::COORD_LIMIT;

verus! {

/// An axis-aligned rectangle. Coordinates are micro-pixels; `w` and `h` are
/// non-negative for every rectangle the engine constructs.
#[derive(Clone, Copy, Debug, PartialEq, Eq, Structural)]
pub struct Rectangle {
    pub x: i64,
    pub y: i64,
    pub w: i64,
    pub h: i64,
}

/// The open-interval overlap test: the projections on both axes must
/// intersect with nonzero width, so edge-touching does not count.
pub open spec fn overlap(a: Rectangle, b: Rectangle) -> bool {
    &&& a.x < b.x + b.w
    &&& a.x + a.w > b.x
    &&& a.y < b.y + b.h
    &&& a.y + a.h > b.y
}

/// The closed-interval containment test: every corner of `inner` lies within
/// the closed box of `outer`.
pub open spec fn contains(outer: Rectangle, inner: Rectangle) -> bool {
    &&& inner.x >= outer.x
    &&& inner.x <= outer.x + outer.w
    &&& inner.x + inner.w >= outer.x
    &&& inner.x + inner.w <= outer.x + outer.w
    &&& inner.y >= outer.y
    &&& inner.y <= outer.y + outer.h
    &&& inner.y + inner.h >= outer.y
    &&& inner.y + inner.h <= outer.y + outer.h
}

/// One clamped axis of `move_inside`: shift `pos` so `[pos, pos + len]` lies
/// within `[ppos, ppos + plen]`, preferring to leave `pos` unchanged.
pub open spec fn clamp_axis(pos: int, len: int, ppos: int, plen: int) -> int {
    if pos < ppos {
        ppos
    } else if pos + len >= ppos + plen {
        ppos + plen - len
    } else {
        pos
    }
}

impl Rectangle {
    /// All coordinates within the saturation band, sizes non-negative.
    pub open spec fn valid(self) -> bool {
        &&& -COORD_LIMIT <= self.x <= COORD_LIMIT
        &&& -COORD_LIMIT <= self.y <= COORD_LIMIT
        &&& 0 <= self.w <= COORD_LIMIT
        &&& 0 <= self.h <= COORD_LIMIT
    }

    /// A looser band that intermediate rectangles (sums of two in-band
    /// coordinates) stay within; wide enough that corner sums still fit
    /// in an `i64`.
    pub open spec fn in_band(self) -> bool {
        &&& -2 * COORD_LIMIT <= self.x <= 2 * COORD_LIMIT
        &&& -2 * COORD_LIMIT <= self.y <= 2 * COORD_LIMIT
        &&& 0 <= self.w <= COORD_LIMIT
        &&& 0 <= self.h <= COORD_LIMIT
    }

    /// Reposition `self` so it lies fully inside `parent`, keeping its size;
    /// `None` exactly when either dimension is larger than `parent`'s.
    pub fn move_inside(self, parent: Rectangle) -> (r: Option<Rectangle>)
        requires
            self.valid(),
            parent.valid(),
        ensures
            r is Some <==> (self.w <= parent.w && self.h <= parent.h),
            r is Some ==> {
                let m = r.unwrap();
                &&& m.w == self.w
                &&& m.h == self.h
                &&& m.x == clamp_axis(self.x as int, self.w as int, parent.x as int, parent.w as int)
                &&& m.y == clamp_axis(self.y as int, self.h as int, parent.y as int, parent.h as int)
                &&& m.valid()
            },
    {
        if self.w > parent.w || self.h > parent.h {
            return None;
        }

        Some(
            Rectangle {
                w: self.w,
                h: self.h,
                x: if self.x < parent.x {
                    parent.x
                } else if self.x + self.w >= parent.x + parent.w {
                    parent.x + parent.w - self.w
                } else {
                    self.x
                },
                y: if self.y < parent.y {
                    parent.y
                } else if self.y + self.h >= parent.y + parent.h {
                    parent.y + parent.h - self.h
                } else {
                    self.y
                },
            },
        )
    }

    /// Closed-interval test that `rect` lies within `self`.
    pub fn contains(&self, rect: Rectangle) -> (r: bool)
        requires
            self.in_band(),
            rect.in_band(),
        ensures
            r == contains(*self, rect),
    {
        let xmin = rect.x;
        let xmax = xmin + rect.w;
        let ymin = rect.y;
        let ymax = ymin + rect.h;

        xmin >= self.x && xmin <= self.x + self.w && xmax >= self.x && xmax <= self.x + self.w
            && ymin >= self.y && ymin <= self.y + self.h && ymax >= self.y && ymax <= self.y
            + self.h
    }

    /// Open-interval overlap test; touching edges do not overlap.
    pub fn overlaps(&self, other: Rectangle) -> (r: bool)
        requires
            self.in_band(),
            other.in_band(),
        ensures
            r == overlap(*self, other),
    {
        self.x < other.x + other.w && self.x + self.w > other.x && self.y < other.y + other.h
            && self.y + self.h > other.y
    }

    /// A rectangle of the given size at the origin.
    pub fn with_size(w: i64, h: i64) -> (r: Rectangle)
        ensures
            r == (Rectangle { x: 0, y: 0, w, h }),
    {
        Rectangle { w, h, x: 0, y: 0 }
    }

    /// The same size, repositioned so its center is `center`.
    pub fn center_at(self, center: (i64, i64)) -> (r: Rectangle)
        requires
            0 <= self.w <= COORD_LIMIT,
            0 <= self.h <= COORD_LIMIT,
            -2 * COORD_LIMIT <= center.0 <= 2 * COORD_LIMIT,
            -2 * COORD_LIMIT <= center.1 <= 2 * COORD_LIMIT,
        ensures
            r.x == center.0 - self.w / 2,
            r.y == center.1 - self.h / 2,
            r.w == self.w,
            r.h == self.h,
    {
        Rectangle { x: center.0 - self.w / 2, y: center.1 - self.h / 2, ..self }
    }

    /// The center point of the rectangle.
    pub fn center(self) -> (r: (i64, i64))
        requires
            self.valid(),
        ensures
            r.0 == center_of(self).0,
            r.1 == center_of(self).1,
    {
        let x = self.x + self.w / 2;
        let y = self.y + self.h / 2;
        (x, y)
    }
}

/// The center point of a rectangle.
pub open spec fn center_of(r: Rectangle) -> (int, int) {
    (r.x + r.w / 2, r.y + r.h / 2)
}

/// Overlap is symmetric.
pub proof fn lemma_overlaps_symmetric(a: Rectangle, b: Rectangle)
    ensures
        overlap(a, b) == overlap(b, a),
{
}

/// Rectangles that touch along an edge do not overlap.
pub proof fn lemma_touching_edges_do_not_overlap(a: Rectangle, b: Rectangle)
    requires
        a.x + a.w == b.x || b.x + b.w == a.x || a.y + a.h == b.y || b.y + b.h == a.y,
    ensures
        !overlap(a, b),
{
}

/// Clamping a rectangle into a parent twice gives the same result as once.
pub proof fn lemma_move_inside_idempotent(r: Rectangle, parent: Rectangle)
    requires
        r.valid(),
        parent.valid(),
        r.w <= parent.w,
        r.h <= parent.h,
    ensures
        clamp_axis(
            clamp_axis(r.x as int, r.w as int, parent.x as int, parent.w as int),
            r.w as int,
            parent.x as int,
            parent.w as int,
        ) == clamp_axis(r.x as int, r.w as int, parent.x as int, parent.w as int),
        clamp_axis(
            clamp_axis(r.y as int, r.h as int, parent.y as int, parent.h as int),
            r.h as int,
            parent.y as int,
            parent.h as int,
        ) == clamp_axis(r.y as int, r.h as int, parent.y as int, parent.h as int),
{
}

/// A value tagged with whether it survived the frame.
#[derive(Clone, Copy)]
pub struct MaybeAlive<T> {
    pub alive: bool,
    pub value: T,
}

impl<T> MaybeAlive<T> {
    /// The value if it is still alive, `None` otherwise.
    pub fn as_option(self) -> (r: Option<T>)
        ensures
            r == if self.alive {
                Some(self.value)
            } else {
                None::<T>
            },
    {
        if self.alive {
            Some(self.value)
        } else {
            None
        }
    }
}

} // verus!
