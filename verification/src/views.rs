//! The minimal flight view: a bare ship rectangle moved by the directional
//! keys and clamped to the movable region, with no weapons or hazards.
use vstd::prelude::*;

use crate::data::Rectangle;
use crate::data::clamp_axis;
use crate::engine::ViewAction;
use crate::events::Events;
use crate::fixed::COORD_LIMIT;
use crate::fixed::mul_fix;
use crate::fixed::sat;
use crate::fixed::sat_add;
use crate::player::MOVABLE_FRACTION;
use crate::player::movement_delta;
use crate::player::move_delta;
use crate::player::movable_region;

verus! {

/// A bare ship: just its bounding rectangle.
#[derive(Clone, Copy, Debug, PartialEq, Eq, Structural)]
pub struct Ship {
    pub rect: Rectangle,
}

/// The ship after one frame of input: position integrated from the held
/// directional keys and clamped into the movable region.
pub open spec fn ship_step(rect: Rectangle, ev: Events, w: int, h: int, dt: int) -> Rectangle {
    let (dx, dy) = move_delta(ev, dt);
    let movable = movable_region(w, h);
    Rectangle {
        x: clamp_axis(sat(rect.x + dx), rect.w as int, 0, movable.w as int) as i64,
        y: clamp_axis(sat(rect.y + dy), rect.h as int, 0, movable.h as int) as i64,
        w: rect.w,
        h: rect.h,
    }
}

/// The view showing only the movable ship.
pub struct ShipView {
    pub player: Ship,
}

impl ShipView {
    pub open spec fn valid(&self) -> bool {
        self.player.rect.valid()
    }

    /// A fresh view with the ship near the top-left corner.
    pub fn new() -> (v: ShipView)
        ensures
            v.player.rect == (Rectangle {
                x: 64_000_000,
                y: 64_000_000,
                w: 32_000_000,
                h: 32_000_000,
            }),
            v.valid(),
    {
        ShipView {
            player: Ship {
                rect: Rectangle { x: 64_000_000, y: 64_000_000, w: 32_000_000, h: 32_000_000 },
            },
        }
    }

    /// One frame: quit on the close or escape edge, otherwise move the ship
    /// as `ship_step` describes. The movable region must be able to hold the
    /// ship; a window too small for it is a sizing bug the caller rules out.
    pub fn render(&mut self, events: &Events, w: i64, h: i64, elapsed: i64) -> (action: ViewAction)
        requires
            old(self).valid(),
            0 <= elapsed <= COORD_LIMIT,
            0 <= w <= COORD_LIMIT,
            0 <= h <= COORD_LIMIT,
            sat(mul_fix(w as int, MOVABLE_FRACTION as int)) >= old(self).player.rect.w,
            h >= old(self).player.rect.h,
        ensures
            if events.now.quit || events.now.key_escape == Some(true) {
                &&& action == ViewAction::Quit
                &&& *final(self) == *old(self)
            } else {
                &&& action == ViewAction::Continue
                &&& final(self).player.rect == ship_step(
                    old(self).player.rect,
                    *events,
                    w as int,
                    h as int,
                    elapsed as int,
                )
            },
            final(self).valid(),
    {
        if events.now.quit || events.now.key_escape == Some(true) {
            return ViewAction::Quit;
        }

        let (dx, dy) = movement_delta(events, elapsed);

        let moved_rect = Rectangle {
            x: sat_add(self.player.rect.x, dx),
            y: sat_add(self.player.rect.y, dy),
            w: self.player.rect.w,
            h: self.player.rect.h,
        };

        let movable_w = crate::fixed::mul_fix_sat(w, MOVABLE_FRACTION);
        let movable = Rectangle { x: 0, y: 0, w: movable_w, h };

        self.player.rect = moved_rect.move_inside(movable).unwrap();

        ViewAction::Continue
    }
}

} // verus!
