//! Bullet trajectory variants.
//!
//! Every bullet moves right at one shared constant speed. The variants differ
//! in their vertical motion law: none, a sine oscillation, or a diverging
//! cubic. A bullet dies when it leaves the playfield: for the straight and
//! sine variants only past the right edge, for the divergent one past any
//! edge.
use vstd::prelude::*;

use crate::data::Rectangle;
use crate::fixed::COORD_LIMIT;
use crate::fixed::mul_fix;
use crate::fixed::mul_fix_sat;
use crate::fixed::ratio_sat;
use crate::fixed::sat;
use crate::fixed::sat_add;
use crate::fixed::sine_scaled;
use crate::fixed::sine_unit;

verus! {

/// The horizontal speed shared by all bullets, in micro-pixels per second.
pub const BULLET_SPEED: i64 = 240_000_000;

/// The size of a bullet's bounding rectangle, in micro-pixels.
pub const BULLET_W: i64 = 8_000_000;

pub const BULLET_H: i64 = 4_000_000;

/// The player's selectable trajectory variants, with their parameters.
#[derive(Clone, Copy, Debug, PartialEq, Eq, Structural)]
pub enum CannonType {
    RectBullet,
    SineBullet { amplitude: i64, angular_vel: i64 },
    DivergentBullet { a: i64, b: i64 },
}

impl CannonType {
    pub open spec fn valid(self) -> bool {
        match self {
            CannonType::RectBullet => true,
            CannonType::SineBullet { amplitude, angular_vel } => {
                &&& 0 <= amplitude <= COORD_LIMIT
                &&& -COORD_LIMIT <= angular_vel <= COORD_LIMIT
            },
            CannonType::DivergentBullet { a, b } => {
                &&& -COORD_LIMIT <= a <= COORD_LIMIT
                &&& 1 <= b <= COORD_LIMIT
            },
        }
    }
}

/// A live bullet. Each variant owns its kinematic state; the bounding
/// rectangle is derived from it.
#[derive(Clone, Copy, Debug, PartialEq, Eq, Structural)]
pub enum Bullet {
    RectBullet { rect: Rectangle },
    SineBullet { pos_x: i64, origin_y: i64, amplitude: i64, angular_vel: i64, total_time: i64 },
    DivergentBullet { pos_x: i64, origin_y: i64, a: i64, b: i64, total_time: i64 },
}

/// The sine variant's vertical offset at phase `angular_vel * t`.
pub open spec fn sine_offset(amplitude: int, angular_vel: int, total_time: int) -> int {
    sat(mul_fix(amplitude, sine_unit(sat(mul_fix(angular_vel, total_time)))))
}

/// The divergent variant's vertical offset `a * ((t/b)^3 - (t/b)^2)`,
/// computed in micro-scale with saturation at each step.
pub open spec fn divergent_offset(a: int, b: int, total_time: int) -> int {
    let q = sat(crate::fixed::tdiv(total_time * crate::fixed::MICROS, b));
    let s2 = sat(mul_fix(q, q));
    let s3 = sat(mul_fix(s2, q));
    sat(mul_fix(a, s3 - s2))
}

/// The bounding rectangle a bullet currently occupies.
pub open spec fn bullet_rect(b: Bullet) -> Rectangle {
    match b {
        Bullet::RectBullet { rect } => rect,
        Bullet::SineBullet { pos_x, origin_y, amplitude, angular_vel, total_time } => Rectangle {
            x: pos_x,
            y: sat(origin_y + sine_offset(amplitude as int, angular_vel as int, total_time as int))
                as i64,
            w: BULLET_W,
            h: BULLET_H,
        },
        Bullet::DivergentBullet { pos_x, origin_y, a, b, total_time } => Rectangle {
            x: pos_x,
            y: sat(origin_y + divergent_offset(a as int, b as int, total_time as int)) as i64,
            w: BULLET_W,
            h: BULLET_H,
        },
    }
}

/// The bullet after one update of `dt` micro-seconds against a playfield of
/// `w` by `h` micro-pixels: `None` when it has left the field.
pub open spec fn bullet_step(b: Bullet, w: int, h: int, dt: int) -> Option<Bullet> {
    let dx = sat(mul_fix(BULLET_SPEED as int, dt));
    match b {
        Bullet::RectBullet { rect } => {
            let moved = Rectangle { x: sat(rect.x + dx) as i64, ..rect };
            if moved.x > w {
                None
            } else {
                Some(Bullet::RectBullet { rect: moved })
            }
        },
        Bullet::SineBullet { pos_x, origin_y, amplitude, angular_vel, total_time } => {
            let nb = Bullet::SineBullet {
                pos_x: sat(pos_x + dx) as i64,
                origin_y,
                amplitude,
                angular_vel,
                total_time: sat(total_time + dt) as i64,
            };
            if bullet_rect(nb).x > w {
                None
            } else {
                Some(nb)
            }
        },
        Bullet::DivergentBullet { pos_x, origin_y, a, b, total_time } => {
            let nb = Bullet::DivergentBullet {
                pos_x: sat(pos_x + dx) as i64,
                origin_y,
                a,
                b,
                total_time: sat(total_time + dt) as i64,
            };
            let rc = bullet_rect(nb);
            if rc.x > w || rc.x < 0 || rc.y > h || rc.y < 0 {
                None
            } else {
                Some(nb)
            }
        },
    }
}

impl Bullet {
    pub open spec fn valid(self) -> bool {
        match self {
            Bullet::RectBullet { rect } => rect.valid(),
            Bullet::SineBullet { pos_x, origin_y, amplitude, angular_vel, total_time } => {
                &&& -COORD_LIMIT <= pos_x <= COORD_LIMIT
                &&& -COORD_LIMIT <= origin_y <= COORD_LIMIT
                &&& 0 <= amplitude <= COORD_LIMIT
                &&& -COORD_LIMIT <= angular_vel <= COORD_LIMIT
                &&& 0 <= total_time <= COORD_LIMIT
            },
            Bullet::DivergentBullet { pos_x, origin_y, a, b, total_time } => {
                &&& -COORD_LIMIT <= pos_x <= COORD_LIMIT
                &&& -COORD_LIMIT <= origin_y <= COORD_LIMIT
                &&& -COORD_LIMIT <= a <= COORD_LIMIT
                &&& 1 <= b <= COORD_LIMIT
                &&& 0 <= total_time <= COORD_LIMIT
            },
        }
    }

    /// The bounding rectangle, derived from the kinematic state.
    pub fn rect(&self) -> (r: Rectangle)
        requires
            self.valid(),
        ensures
            r == bullet_rect(*self),
            r.valid(),
    {
        match *self {
            Bullet::RectBullet { rect } => rect,
            Bullet::SineBullet { pos_x, origin_y, amplitude, angular_vel, total_time } => {
                let phase = mul_fix_sat(angular_vel, total_time);
                let s = sine_scaled(phase);
                let dy = mul_fix_sat(amplitude, s);
                let y = sat_add(origin_y, dy);
                Rectangle { x: pos_x, y, w: BULLET_W, h: BULLET_H }
            },
            Bullet::DivergentBullet { pos_x, origin_y, a, b, total_time } => {
                let q = ratio_sat(total_time, b);
                proof {
                    crate::fixed::lemma_nonneg_ratio(total_time as int, b as int);
                }
                let s2 = mul_fix_sat(q, q);
                proof {
                    crate::fixed::lemma_nonneg_mul_fix(q as int, q as int);
                }
                let s3 = mul_fix_sat(s2, q);
                proof {
                    crate::fixed::lemma_nonneg_mul_fix(s2 as int, q as int);
                }
                let dy = mul_fix_sat(a, s3 - s2);
                let y = sat_add(origin_y, dy);
                Rectangle { x: pos_x, y, w: BULLET_W, h: BULLET_H }
            },
        }
    }

    /// Advance the bullet by `dt` micro-seconds; `None` when it has left the
    /// `w` by `h` playfield.
    pub fn update(self, w: i64, h: i64, dt: i64) -> (r: Option<Bullet>)
        requires
            self.valid(),
            0 <= dt <= COORD_LIMIT,
            0 <= w <= COORD_LIMIT,
            0 <= h <= COORD_LIMIT,
        ensures
            r == bullet_step(self, w as int, h as int, dt as int),
            r is Some ==> r.unwrap().valid(),
    {
        let dx = mul_fix_sat(BULLET_SPEED, dt);
        match self {
            Bullet::RectBullet { rect } => {
                let moved = Rectangle { x: sat_add(rect.x, dx), ..rect };
                if moved.x > w {
                    None
                } else {
                    Some(Bullet::RectBullet { rect: moved })
                }
            },
            Bullet::SineBullet { pos_x, origin_y, amplitude, angular_vel, total_time } => {
                let nb = Bullet::SineBullet {
                    pos_x: sat_add(pos_x, dx),
                    origin_y,
                    amplitude,
                    angular_vel,
                    total_time: sat_add(total_time, dt),
                };
                if nb.rect().x > w {
                    None
                } else {
                    Some(nb)
                }
            },
            Bullet::DivergentBullet { pos_x, origin_y, a, b, total_time } => {
                let nb = Bullet::DivergentBullet {
                    pos_x: sat_add(pos_x, dx),
                    origin_y,
                    a,
                    b,
                    total_time: sat_add(total_time, dt),
                };
                let rc = nb.rect();
                if rc.x > w || rc.x < 0 || rc.y > h || rc.y < 0 {
                    None
                } else {
                    Some(nb)
                }
            },
        }
    }
}

/// A bullet run through a whole sequence of frame times; `None` as soon as
/// one update reports it off the field.
pub open spec fn run_bullet(b: Bullet, w: int, h: int, dts: Seq<i64>) -> Option<Bullet>
    decreases dts.len(),
{
    if dts.len() == 0 {
        Some(b)
    } else {
        match bullet_step(b, w, h, dts[0] as int) {
            Some(b2) => run_bullet(b2, w, h, dts.drop_first()),
            None => None,
        }
    }
}

/// The sum of a sequence of durations.
pub open spec fn total_micros(dts: Seq<i64>) -> int
    decreases dts.len(),
{
    if dts.len() == 0 {
        0
    } else {
        dts[0] + total_micros(dts.drop_first())
    }
}

/// One frame moves a bullet by exactly `240` micro-pixels per micro-second
/// (the shared speed), as long as the product stays in range.
proof fn lemma_speed_exact(dt: int)
    requires
        0 <= dt,
        240 * dt <= COORD_LIMIT,
    ensures
        sat(mul_fix(BULLET_SPEED as int, dt)) == 240 * dt,
{
    assert(BULLET_SPEED as int * dt == 1_000_000 * (240 * dt)) by (nonlinear_arith);
    vstd::arithmetic::div_mod::lemma_div_multiples_vanish(240 * dt, 1_000_000);
}

/// A straight bullet travels exactly `240` micro-pixels per micro-second: a
/// bullet starting at `x0` survives a run of frames totalling `t`
/// micro-seconds exactly when `x0 + 240 * t` is within the right edge, and
/// then sits there, with its row and size unchanged.
pub proof fn lemma_rect_bullet_track(b: Bullet, w: int, h: int, dts: Seq<i64>)
    requires
        b is RectBullet,
        b.valid(),
        0 <= b->rect.x <= w,
        forall|i: int| 0 <= i < dts.len() ==> #[trigger] dts[i] >= 0,
        b->rect.x + 240 * total_micros(dts) <= COORD_LIMIT,
    ensures
        total_micros(dts) >= 0,
        run_bullet(b, w, h, dts) is Some <==> b->rect.x + 240 * total_micros(dts) <= w,
        run_bullet(b, w, h, dts) is Some ==> run_bullet(b, w, h, dts).unwrap() == (
        Bullet::RectBullet {
            rect: Rectangle { x: (b->rect.x + 240 * total_micros(dts)) as i64, ..b->rect },
        }),
    decreases dts.len(),
{
    if dts.len() == 0 {
        assert(run_bullet(b, w, h, dts) == Some(b));
        assert(b == (Bullet::RectBullet { rect: Rectangle { x: b->rect.x, ..b->rect } }));
    } else {
        let dt = dts[0] as int;
        let rest = dts.drop_first();
        assert(forall|i: int| 0 <= i < rest.len() ==> #[trigger] rest[i] >= 0);
        assert(total_micros(rest) >= 0) by {
            lemma_total_micros_nonneg(rest);
        }
        assert(240 * total_micros(dts) == 240 * dt + 240 * total_micros(rest))
            by (nonlinear_arith)
            requires
                total_micros(dts) == dt + total_micros(rest),
        ;
        lemma_speed_exact(dt);
        match bullet_step(b, w, h, dt) {
            Some(b2) => {
                assert(b2->rect.x == b->rect.x + 240 * dt);
                lemma_rect_bullet_track(b2, w, h, rest);
            },
            None => {},
        }
    }
}

/// A sum of non-negative durations is non-negative.
pub proof fn lemma_total_micros_nonneg(dts: Seq<i64>)
    requires
        forall|i: int| 0 <= i < dts.len() ==> #[trigger] dts[i] >= 0,
    ensures
        total_micros(dts) >= 0,
    decreases dts.len(),
{
    if dts.len() > 0 {
        let rest = dts.drop_first();
        assert(forall|i: int| 0 <= i < rest.len() ==> #[trigger] rest[i] >= 0);
        lemma_total_micros_nonneg(rest);
    }
}

/// A sine bullet starts centered: at age zero its vertical offset is zero.
pub proof fn lemma_sine_bullet_starts_centered(b: Bullet)
    requires
        b is SineBullet,
        b.valid(),
        b->SineBullet_total_time == 0,
    ensures
        bullet_rect(b).y == b->SineBullet_origin_y,
        bullet_rect(b).x == b->SineBullet_pos_x,
{
    let av = b->SineBullet_angular_vel as int;
    assert(av * 0 == 0) by (nonlinear_arith);
    assert(mul_fix(av, 0) == 0);
    assert(sine_offset(b->SineBullet_amplitude as int, av, 0) == 0) by {
        vstd::arithmetic::div_mod::lemma_small_mod(0, crate::fixed::TWO_PI_MICRO as nat);
        assert(crate::fixed::sine_half(0) == 0);
        assert(sine_unit(0) == 0);
        assert(b->SineBullet_amplitude as int * 0 == 0) by (nonlinear_arith);
    }
}

/// A sine bullet oscillates within its amplitude: its vertical position
/// stays within `amplitude` of its origin row.
pub proof fn lemma_sine_bullet_bounded(b: Bullet)
    requires
        b is SineBullet,
        b.valid(),
        b->SineBullet_origin_y + b->SineBullet_amplitude <= COORD_LIMIT,
        b->SineBullet_origin_y - b->SineBullet_amplitude >= -COORD_LIMIT,
    ensures
        b->SineBullet_origin_y - b->SineBullet_amplitude <= bullet_rect(b).y
            <= b->SineBullet_origin_y + b->SineBullet_amplitude,
{
    let amp = b->SineBullet_amplitude as int;
    let phase = sat(mul_fix(b->SineBullet_angular_vel as int, b->SineBullet_total_time as int));
    crate::fixed::lemma_sine_unit_bounds(phase);
    crate::fixed::lemma_mul_fix_amp_bound(amp, sine_unit(phase));
}

/// The two bullets one shot produces, one per cannon port.
pub open spec fn spawned_pair(
    cannon: CannonType,
    cannons_x: i64,
    cannon1_y: i64,
    cannon2_y: i64,
) -> Seq<Bullet> {
    match cannon {
        CannonType::RectBullet => seq![
            Bullet::RectBullet {
                rect: Rectangle { x: cannons_x, y: cannon1_y, w: BULLET_W, h: BULLET_H },
            },
            Bullet::RectBullet {
                rect: Rectangle { x: cannons_x, y: cannon2_y, w: BULLET_W, h: BULLET_H },
            },
        ],
        CannonType::SineBullet { amplitude, angular_vel } => seq![
            Bullet::SineBullet {
                pos_x: cannons_x,
                origin_y: cannon1_y,
                amplitude,
                angular_vel,
                total_time: 0,
            },
            Bullet::SineBullet {
                pos_x: cannons_x,
                origin_y: cannon2_y,
                amplitude,
                angular_vel,
                total_time: 0,
            },
        ],
        CannonType::DivergentBullet { a, b } => seq![
            Bullet::DivergentBullet {
                pos_x: cannons_x,
                origin_y: cannon1_y,
                a: (-(a as int)) as i64,
                b,
                total_time: 0,
            },
            Bullet::DivergentBullet { pos_x: cannons_x, origin_y: cannon2_y, a, b, total_time: 0 },
        ],
    }
}

/// Produce one shot: exactly two bullets of the selected variant, one at each
/// cannon port; the divergent pair is mirrored so it spreads into a V.
pub fn spawn_bullets(cannon: CannonType, cannons_x: i64, cannon1_y: i64, cannon2_y: i64) -> (r: Vec<
    Bullet,
>)
    requires
        cannon.valid(),
        -COORD_LIMIT <= cannons_x <= COORD_LIMIT,
        -COORD_LIMIT <= cannon1_y <= COORD_LIMIT,
        -COORD_LIMIT <= cannon2_y <= COORD_LIMIT,
    ensures
        r@ == spawned_pair(cannon, cannons_x, cannon1_y, cannon2_y),
        r@.len() == 2,
        forall|i: int| 0 <= i < r@.len() ==> (#[trigger] r@[i]).valid(),
{
    let r = match cannon {
        CannonType::RectBullet => vec![
            Bullet::RectBullet {
                rect: Rectangle { x: cannons_x, y: cannon1_y, w: BULLET_W, h: BULLET_H },
            },
            Bullet::RectBullet {
                rect: Rectangle { x: cannons_x, y: cannon2_y, w: BULLET_W, h: BULLET_H },
            },
        ],
        CannonType::SineBullet { amplitude, angular_vel } => vec![
            Bullet::SineBullet {
                pos_x: cannons_x,
                origin_y: cannon1_y,
                amplitude,
                angular_vel,
                total_time: 0,
            },
            Bullet::SineBullet {
                pos_x: cannons_x,
                origin_y: cannon2_y,
                amplitude,
                angular_vel,
                total_time: 0,
            },
        ],
        CannonType::DivergentBullet { a, b } => {
            let mirrored = -a;
            vec![
                Bullet::DivergentBullet {
                    pos_x: cannons_x,
                    origin_y: cannon1_y,
                    a: mirrored,
                    b,
                    total_time: 0,
                },
                Bullet::DivergentBullet {
                    pos_x: cannons_x,
                    origin_y: cannon2_y,
                    a,
                    b,
                    total_time: 0,
                },
            ]
        },
    };
    proof {
        assert(r@ =~= spawned_pair(cannon, cannons_x, cannon1_y, cannon2_y));
    }
    r
}

} // verus!
