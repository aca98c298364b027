//! The player ship: input-driven movement, directional sprite selection,
//! cannon-mode switching and bullet spawning.
use vstd::prelude::*;

use crate::bullets::Bullet;
use crate::bullets::CannonType;
use crate::bullets::spawned_pair;
use crate::data::Rectangle;
use crate::data::clamp_axis;
use crate::events::Events;
use crate::fixed::COORD_LIMIT;
use crate::fixed::mul_fix;
use crate::fixed::mul_fix_sat;
use crate::fixed::sat;
use crate::fixed::sat_add;
use crate::gfx::AnimatedSpriteDescr;
use crate::gfx::Sprite;
use crate::gfx::frame_cell;
use crate::gfx::load_frames;

verus! {

/// Movement speed in micro-pixels per second.
pub const PLAYER_SPEED: i64 = 180_000_000;

/// The ship's size in micro-pixels.
pub const PLAYER_W: i64 = 43_000_000;

pub const PLAYER_H: i64 = 39_000_000;

/// `1/sqrt(2)`, micro-scaled: diagonal speed equals axis-aligned speed.
pub const INV_SQRT2_MICRO: i64 = 707_107;

/// The movable region spans this micro-scaled fraction of the window width,
/// reserving the far right for margin.
pub const MOVABLE_FRACTION: i64 = 700_000;

/// The nine directional ship poses, a 3x3 sheet: vertical motion selects the
/// row, horizontal lean the column.
#[derive(Clone, Copy, Debug, PartialEq, Eq, Structural)]
pub enum PlayerFrame {
    UpNorm,
    UpFast,
    UpSlow,
    MidNorm,
    MidFast,
    MidSlow,
    DownNorm,
    DownFast,
    DownSlow,
}

/// The sheet slot each pose is stored in.
pub open spec fn frame_slot(f: PlayerFrame) -> int {
    match f {
        PlayerFrame::UpNorm => 0,
        PlayerFrame::UpFast => 1,
        PlayerFrame::UpSlow => 2,
        PlayerFrame::MidNorm => 3,
        PlayerFrame::MidFast => 4,
        PlayerFrame::MidSlow => 5,
        PlayerFrame::DownNorm => 6,
        PlayerFrame::DownFast => 7,
        PlayerFrame::DownSlow => 8,
    }
}

impl PlayerFrame {
    /// The sheet slot of this pose.
    pub fn index(self) -> (i: usize)
        ensures
            i == frame_slot(self),
            i < 9,
    {
        match self {
            PlayerFrame::UpNorm => 0,
            PlayerFrame::UpFast => 1,
            PlayerFrame::UpSlow => 2,
            PlayerFrame::MidNorm => 3,
            PlayerFrame::MidFast => 4,
            PlayerFrame::MidSlow => 5,
            PlayerFrame::DownNorm => 6,
            PlayerFrame::DownFast => 7,
            PlayerFrame::DownSlow => 8,
        }
    }
}

/// The pose selected from the signs of the frame's movement.
pub open spec fn frame_for(dx: int, dy: int) -> PlayerFrame {
    if dx == 0 && dy < 0 {
        PlayerFrame::UpNorm
    } else if dx > 0 && dy < 0 {
        PlayerFrame::UpFast
    } else if dx < 0 && dy < 0 {
        PlayerFrame::UpSlow
    } else if dx == 0 && dy == 0 {
        PlayerFrame::MidNorm
    } else if dx > 0 && dy == 0 {
        PlayerFrame::MidFast
    } else if dx < 0 && dy == 0 {
        PlayerFrame::MidSlow
    } else if dx == 0 && dy > 0 {
        PlayerFrame::DownNorm
    } else if dx > 0 && dy > 0 {
        PlayerFrame::DownFast
    } else {
        PlayerFrame::DownSlow
    }
}

/// The cannon selected after this frame's mode-select edges; a later-numbered
/// key pressed on the same frame wins.
pub open spec fn cannon_after(c: CannonType, ev: Events) -> CannonType {
    let c1 = if ev.now.key_1 == Some(true) {
        CannonType::RectBullet
    } else {
        c
    };
    let c2 = if ev.now.key_2 == Some(true) {
        CannonType::SineBullet { amplitude: 10_000_000, angular_vel: 15_000_000 }
    } else {
        c1
    };
    if ev.now.key_3 == Some(true) {
        CannonType::DivergentBullet { a: 100_000_000, b: 1_200_000 }
    } else {
        c2
    }
}

/// This frame's movement, from the held directional keys: opposite holds
/// cancel, and diagonal motion is scaled by `1/sqrt(2)`.
pub open spec fn move_delta(ev: Events, dt: int) -> (int, int) {
    let diagonal = (ev.key_up != ev.key_down) && (ev.key_left != ev.key_right);
    let speed = if diagonal {
        sat(mul_fix(PLAYER_SPEED as int, INV_SQRT2_MICRO as int))
    } else {
        PLAYER_SPEED as int
    };
    let moved = sat(mul_fix(speed, dt));
    let dx = if ev.key_left == ev.key_right {
        0
    } else if ev.key_left {
        -moved
    } else {
        moved
    };
    let dy = if ev.key_up == ev.key_down {
        0
    } else if ev.key_up {
        -moved
    } else {
        moved
    };
    (dx, dy)
}

/// Compute this frame's movement from the held directional keys.
pub fn movement_delta(events: &Events, elapsed: i64) -> (r: (i64, i64))
    requires
        0 <= elapsed <= COORD_LIMIT,
    ensures
        r.0 == move_delta(*events, elapsed as int).0,
        r.1 == move_delta(*events, elapsed as int).1,
        -COORD_LIMIT <= r.0 <= COORD_LIMIT,
        -COORD_LIMIT <= r.1 <= COORD_LIMIT,
{
    let diagonal = (events.key_up ^ events.key_down) && (events.key_left ^ events.key_right);
    let speed = if diagonal {
        mul_fix_sat(PLAYER_SPEED, INV_SQRT2_MICRO)
    } else {
        PLAYER_SPEED
    };
    let moved = mul_fix_sat(speed, elapsed);
    let dx = if events.key_left == events.key_right {
        0
    } else if events.key_left {
        -moved
    } else {
        moved
    };
    let dy = if events.key_up == events.key_down {
        0
    } else if events.key_up {
        -moved
    } else {
        moved
    };
    (dx, dy)
}

/// The sheet layout of the nine player poses.
pub open spec fn player_sheet_layout() -> AnimatedSpriteDescr {
    AnimatedSpriteDescr {
        total_frames: 9,
        frames_high: 3,
        frames_wide: 3,
        frame_w: PLAYER_W,
        frame_h: PLAYER_H,
    }
}

/// The player ship.
pub struct Player {
    pub rect: Rectangle,
    pub sprites: Vec<Sprite>,
    pub current: PlayerFrame,
    pub cannon: CannonType,
}

/// The region the player may move in: the left seven tenths of the window.
pub open spec fn movable_region(w: int, h: int) -> Rectangle {
    Rectangle {
        x: 0,
        y: 0,
        w: sat(mul_fix(w, MOVABLE_FRACTION as int)) as i64,
        h: h as i64,
    }
}

/// The player after one frame of input: cannon switched on mode-select
/// edges, position integrated and clamped into the movable region, and the
/// pose selected from the movement's signs.
pub open spec fn player_step(p: Player, ev: Events, w: int, h: int, dt: int) -> Player {
    let cannon = cannon_after(p.cannon, ev);
    let (dx, dy) = move_delta(ev, dt);
    let movable = movable_region(w, h);
    let moved_x = sat(p.rect.x + dx);
    let moved_y = sat(p.rect.y + dy);
    let rect = Rectangle {
        x: clamp_axis(moved_x, p.rect.w as int, 0, movable.w as int) as i64,
        y: clamp_axis(moved_y, p.rect.h as int, 0, movable.h as int) as i64,
        w: p.rect.w,
        h: p.rect.h,
    };
    Player { rect, sprites: p.sprites, current: frame_for(dx, dy), cannon }
}

impl Player {
    /// The nine pose sprites, in sheet order.
    pub open spec fn sprites(&self) -> Seq<Sprite> {
        self.sprites@
    }

    pub open spec fn valid(&self) -> bool {
        &&& self.rect.valid()
        &&& self.rect.w == PLAYER_W
        &&& self.rect.h == PLAYER_H
        &&& self.sprites().len() == 9
        &&& forall|i: int| 0 <= i < 9 ==> (#[trigger] self.sprites()[i]).valid()
        &&& self.cannon.valid()
    }

    /// A new ship centered vertically, a straight cannon, and the nine pose
    /// sprites cut from the given sheet.
    pub fn new(output_h: i64, spritesheet: &Sprite) -> (p: Player)
        requires
            spritesheet.valid(),
            spritesheet.src().w >= 3 * PLAYER_W,
            spritesheet.src().h >= 3 * PLAYER_H,
            PLAYER_H <= output_h <= COORD_LIMIT,
        ensures
            p.rect == (Rectangle {
                x: 64_000_000,
                y: ((output_h - PLAYER_H) / 2) as i64,
                w: PLAYER_W,
                h: PLAYER_H,
            }),
            p.current == PlayerFrame::MidNorm,
            p.cannon == CannonType::RectBullet,
            forall|i: int|
                0 <= i < 9 ==> (#[trigger] p.sprites()[i]).src() == frame_cell(
                    spritesheet.src(),
                    player_sheet_layout(),
                    i,
                ),
            p.valid(),
    {
        let sprites = load_frames(
            spritesheet,
            AnimatedSpriteDescr {
                total_frames: 9,
                frames_high: 3,
                frames_wide: 3,
                frame_w: PLAYER_W,
                frame_h: PLAYER_H,
            },
        );

        Player {
            rect: Rectangle {
                x: 64_000_000,
                y: (output_h - PLAYER_H) / 2,
                w: PLAYER_W,
                h: PLAYER_H,
            },
            sprites,
            current: PlayerFrame::MidNorm,
            cannon: CannonType::RectBullet,
        }
    }

    /// One frame of input handling, as `player_step` describes. The movable
    /// region must be able to hold the ship; a window too small for it is a
    /// sizing bug the caller rules out.
    pub fn update(&mut self, events: &Events, output_w: i64, output_h: i64, elapsed: i64)
        requires
            old(self).valid(),
            0 <= elapsed <= COORD_LIMIT,
            0 <= output_w <= COORD_LIMIT,
            0 <= output_h <= COORD_LIMIT,
            sat(mul_fix(output_w as int, MOVABLE_FRACTION as int)) >= PLAYER_W,
            output_h >= PLAYER_H,
        ensures
            *final(self) == player_step(
                *old(self),
                *events,
                output_w as int,
                output_h as int,
                elapsed as int,
            ),
            final(self).sprites() == old(self).sprites(),
            final(self).valid(),
    {
        if events.now.key_1 == Some(true) {
            self.cannon = CannonType::RectBullet;
        }
        if events.now.key_2 == Some(true) {
            self.cannon = CannonType::SineBullet { amplitude: 10_000_000, angular_vel: 15_000_000 };
        }
        if events.now.key_3 == Some(true) {
            self.cannon = CannonType::DivergentBullet { a: 100_000_000, b: 1_200_000 };
        }

        let (dx, dy) = movement_delta(events, elapsed);

        let moved_rect = Rectangle {
            x: sat_add(self.rect.x, dx),
            y: sat_add(self.rect.y, dy),
            w: self.rect.w,
            h: self.rect.h,
        };

        let movable_w = mul_fix_sat(output_w, MOVABLE_FRACTION);
        let movable = Rectangle { x: 0, y: 0, w: movable_w, h: output_h };

        self.rect = moved_rect.move_inside(movable).unwrap();

        self.current = if dx == 0 && dy < 0 {
            PlayerFrame::UpNorm
        } else if dx > 0 && dy < 0 {
            PlayerFrame::UpFast
        } else if dx < 0 && dy < 0 {
            PlayerFrame::UpSlow
        } else if dx == 0 && dy == 0 {
            PlayerFrame::MidNorm
        } else if dx > 0 && dy == 0 {
            PlayerFrame::MidFast
        } else if dx < 0 && dy == 0 {
            PlayerFrame::MidSlow
        } else if dx == 0 && dy > 0 {
            PlayerFrame::DownNorm
        } else if dx > 0 && dy > 0 {
            PlayerFrame::DownFast
        } else {
            PlayerFrame::DownSlow
        };
    }

    /// The sprite of the current pose.
    pub fn current_sprite(&self) -> (s: Sprite)
        requires
            self.valid(),
        ensures
            s == self.sprites()[frame_slot(self.current)],
            s.valid(),
    {
        let idx = self.current.index();
        self.sprites[idx]
    }

    /// One shot from the ship's two cannon ports, of the selected variant.
    pub fn spawn_bullets(&self) -> (r: Vec<Bullet>)
        requires
            self.valid(),
        ensures
            r@ == spawned_pair(
                self.cannon,
                sat(self.rect.x + 30_000_000) as i64,
                sat(self.rect.y + 6_000_000) as i64,
                sat(self.rect.y + PLAYER_H - 10_000_000) as i64,
            ),
            r@.len() == 2,
            forall|i: int| 0 <= i < r@.len() ==> (#[trigger] r@[i]).valid(),
    {
        let cannons_x = sat_add(self.rect.x, 30_000_000);
        let cannon1_y = sat_add(self.rect.y, 6_000_000);
        let cannon2_y = sat_add(self.rect.y, PLAYER_H - 10_000_000);

        crate::bullets::spawn_bullets(self.cannon, cannons_x, cannon1_y, cannon2_y)
    }
}

} // verus!
