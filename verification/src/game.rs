//! The gameplay view: entity populations, the per-frame collision-and-cull
//! pass, randomized asteroid spawning, and the frame update that ties them
//! together.
use vstd::prelude::*;

use vstd::pervasive::VecAdditionalExecFns;

use crate::bullets::Bullet;
use crate::bullets::bullet_rect;
use crate::bullets::bullet_step;
use crate::bullets::spawned_pair;
use crate::data::MaybeAlive;
use crate::data::Rectangle;
use crate::data::center_of;
use crate::data::overlap;
use crate::engine::NextView;
use crate::engine::ViewAction;
use crate::events::Events;
use crate::fixed::COORD_LIMIT;
use crate::fixed::mul_fix;
use crate::fixed::mul_fix_sat;
use crate::fixed::sat;
use crate::fixed::sat_add;
use crate::fixed::tdiv;
use crate::gfx::AnimatedSprite;
use crate::gfx::AnimatedSpriteDescr;
use crate::gfx::FPS_UNIT;
use crate::gfx::Sprite;
use crate::gfx::frame_cell;
use crate::gfx::load_frames;
use crate::gfx::time_after;
use crate::player::MOVABLE_FRACTION;
use crate::player::PLAYER_H;
use crate::player::PLAYER_W;
use crate::player::Player;
use crate::player::player_step;
use crate::shared::BgSet;
use crate::shared::background_scrolled;

verus! {

/// The asteroid sheet's grid.
pub const ASTEROIDS_WIDE: usize = 21;

pub const ASTEROIDS_HIGH: usize = 7;

/// The last four grid cells of the sheet are empty.
pub const ASTEROIDS_TOTAL: usize = ASTEROIDS_WIDE * ASTEROIDS_HIGH - 4;

/// An asteroid's square side, in micro-pixels.
pub const ASTEROID_SIDE: i64 = 96_000_000;

/// The explosion sheet's grid.
pub const EXPLOSIONS_WIDE: usize = 5;

pub const EXPLOSIONS_HIGH: usize = 4;

pub const EXPLOSIONS_TOTAL: usize = 17;

/// An explosion's square side, in micro-pixels.
pub const EXPLOSION_SIDE: i64 = 96_000_000;

/// Explosion playback rate in micro-hertz.
pub const EXPLOSION_FPS: i64 = 16_000_000;

/// An explosion lives for its full animation: the frame delay of
/// `EXPLOSION_FPS` (62 500 micro-seconds) times the frame count.
pub const EXPLOSION_DURATION: i64 = 62_500 * 17;

/// On average one asteroid spawns per this many frames.
pub const ASTEROID_SPAWN_ONE_IN: u64 = 100;

/// The layout of the asteroid animation within its sheet.
pub open spec fn asteroid_sheet_layout() -> AnimatedSpriteDescr {
    AnimatedSpriteDescr {
        total_frames: ASTEROIDS_TOTAL,
        frames_high: ASTEROIDS_HIGH,
        frames_wide: ASTEROIDS_WIDE,
        frame_w: ASTEROID_SIDE,
        frame_h: ASTEROID_SIDE,
    }
}

/// The layout of the explosion animation within its sheet.
pub open spec fn explosion_sheet_layout() -> AnimatedSpriteDescr {
    AnimatedSpriteDescr {
        total_frames: EXPLOSIONS_TOTAL,
        frames_high: EXPLOSIONS_HIGH,
        frames_wide: EXPLOSIONS_WIDE,
        frame_w: EXPLOSION_SIDE,
        frame_h: EXPLOSION_SIDE,
    }
}

/// An asteroid drifting left across the playfield.
pub struct Asteroid {
    pub sprite: AnimatedSprite,
    pub rect: Rectangle,
    /// Leftward speed in micro-pixels per second.
    pub vel: i64,
}

/// The asteroid after `dt` micro-seconds: moved left by `vel * dt` with its
/// animation advanced, or `None` once it is fully past the left edge.
pub open spec fn asteroid_step(a: Asteroid, dt: int) -> Option<Asteroid> {
    let moved = sat(a.rect.x - sat(mul_fix(a.vel as int, dt)));
    if moved <= -ASTEROID_SIDE {
        None
    } else {
        Some(
            Asteroid {
                rect: Rectangle { x: moved as i64, ..a.rect },
                sprite: AnimatedSprite {
                    current_time: time_after(a.sprite, dt) as i64,
                    ..a.sprite
                },
                vel: a.vel,
            },
        )
    }
}

impl Asteroid {
    pub open spec fn valid(&self) -> bool {
        &&& self.sprite.valid()
        &&& self.rect.valid()
        &&& self.rect.w == ASTEROID_SIDE
        &&& self.rect.h == ASTEROID_SIDE
        &&& 0 <= self.vel <= COORD_LIMIT
    }

    /// Build the factory holding the shared asteroid animation, cut from the
    /// given sheet at a placeholder rate of one frame per second.
    pub fn factory(sheet: &Sprite) -> (f: AsteroidFactory)
        requires
            sheet.valid(),
            ASTEROID_SIDE * (ASTEROIDS_WIDE as i64) <= sheet.src().w,
            ASTEROID_SIDE * (ASTEROIDS_HIGH as i64) <= sheet.src().h,
        ensures
            f.sprite.sprites().len() == ASTEROIDS_TOTAL,
            forall|i: int|
                0 <= i < ASTEROIDS_TOTAL ==> (#[trigger] f.sprite.sprites()[i]).src()
                    == frame_cell(sheet.src(), asteroid_sheet_layout(), i),
            f.sprite.delay() == 1_000_000,
            f.sprite.time() == 0,
            f.valid(),
    {
        proof {
            assert(ASTEROIDS_TOTAL <= ASTEROIDS_WIDE * ASTEROIDS_HIGH);
        }
        let frames = load_frames(
            sheet,
            AnimatedSpriteDescr {
                total_frames: ASTEROIDS_TOTAL,
                frames_high: ASTEROIDS_HIGH,
                frames_wide: ASTEROIDS_WIDE,
                frame_w: ASTEROID_SIDE,
                frame_h: ASTEROID_SIDE,
            },
        );
        AsteroidFactory { sprite: AnimatedSprite::with_fps(frames, 1_000_000) }
    }

    /// Advance the asteroid, as `asteroid_step` describes.
    pub fn update(self, dt: i64) -> (r: Option<Asteroid>)
        requires
            self.valid(),
            0 <= dt <= COORD_LIMIT,
        ensures
            r == asteroid_step(self, dt as int),
            r is Some ==> r.unwrap().valid(),
    {
        proof {
            crate::fixed::lemma_nonneg_mul_fix(self.vel as int, dt as int);
        }
        let mut moving = self;
        let delta = mul_fix_sat(moving.vel, dt);
        let moved = sat_add(moving.rect.x, -delta);
        moving.rect = Rectangle { x: moved, ..moving.rect };
        moving.sprite.add_time(dt);

        if moved <= -ASTEROID_SIDE {
            None
        } else {
            Some(moving)
        }
    }

    /// The bounding rectangle.
    pub fn rect(&self) -> (r: Rectangle)
        ensures
            r == self.rect,
    {
        self.rect
    }

    /// The animation frame to draw now.
    pub fn current_sprite(&self) -> (s: Sprite)
        requires
            self.valid(),
        ensures
            s == self.sprite.sprites()[crate::gfx::frame_index(
                self.sprite.time() as int,
                self.sprite.delay() as int,
                self.sprite.sprites().len() as int,
            )],
    {
        self.sprite.current_sprite()
    }
}

/// Holds the shared asteroid animation and stamps out randomized instances.
pub struct AsteroidFactory {
    pub sprite: AnimatedSprite,
}

/// The asteroid produced from the three random draws: playback rate in
/// `[10, 30)` frames per second, vertical position across the playfield,
/// and speed in `[50, 150)` pixels per second, at the right edge.
pub open spec fn asteroid_from_rolls(
    a: Asteroid,
    f: AsteroidFactory,
    r_fps: u64,
    r_y: u64,
    r_vel: u64,
    w: int,
    h: int,
) -> bool {
    let fps = 10_000_000 + ((r_fps as int) % 20_000_000);
    let y = if h - ASTEROID_SIDE > 0 {
        (r_y as int) % (h - ASTEROID_SIDE)
    } else {
        0
    };
    let vel = 50_000_000 + ((r_vel as int) % 100_000_000);
    &&& a.rect == (Rectangle { x: w as i64, y: y as i64, w: ASTEROID_SIDE, h: ASTEROID_SIDE })
    &&& a.vel == vel
    &&& a.sprite.sprites() == f.sprite.sprites()
    &&& a.sprite.delay() == tdiv(FPS_UNIT as int, fps)
    &&& a.sprite.time() == f.sprite.time()
}

impl AsteroidFactory {
    pub open spec fn valid(&self) -> bool {
        self.sprite.valid()
    }

    /// An asteroid deterministically configured from three random draws.
    pub fn random_from(&self, r_fps: u64, r_y: u64, r_vel: u64, w: i64, h: i64) -> (a: Asteroid)
        requires
            self.valid(),
            0 <= w <= COORD_LIMIT,
            0 <= h <= COORD_LIMIT,
        ensures
            asteroid_from_rolls(a, *self, r_fps, r_y, r_vel, w as int, h as int),
            a.valid(),
    {
        let fps = 10_000_000 + (r_fps % 20_000_000) as i64;
        let mut sprite = self.sprite.duplicate();
        sprite.set_fps(fps);

        let y: i64 = if h > ASTEROID_SIDE {
            (r_y % ((h - ASTEROID_SIDE) as u64)) as i64
        } else {
            0
        };

        let vel = 50_000_000 + (r_vel % 100_000_000) as i64;

        proof {
            vstd::arithmetic::div_mod::lemma_div_non_zero(FPS_UNIT as int, fps as int);
        }

        Asteroid {
            sprite,
            rect: Rectangle { x: w, y, w: ASTEROID_SIDE, h: ASTEROID_SIDE },
            vel,
        }
    }

    /// A fresh asteroid at the right edge with randomized vertical position,
    /// speed and playback rate, each uniform in its fixed range.
    pub fn random(&self, w: i64, h: i64) -> (a: Asteroid)
        requires
            self.valid(),
            0 <= w <= COORD_LIMIT,
            0 <= h <= COORD_LIMIT,
        ensures
            a.rect.x == w,
            a.rect.w == ASTEROID_SIDE,
            a.rect.h == ASTEROID_SIDE,
            h > ASTEROID_SIDE ==> 0 <= a.rect.y < h - ASTEROID_SIDE,
            h <= ASTEROID_SIDE ==> a.rect.y == 0,
            50_000_000 <= a.vel < 150_000_000,
            a.sprite.sprites() == self.sprite.sprites(),
            a.sprite.time() == self.sprite.time(),
            33_333 <= a.sprite.delay() <= 100_000,
            a.valid(),
    {
        let r_fps = rand::random::<u64>();
        let r_y = rand::random::<u64>();
        let r_vel = rand::random::<u64>();
        let a = self.random_from(r_fps, r_y, r_vel, w, h);
        proof {
            let fps = 10_000_000 + ((r_fps as int) % 20_000_000);
            vstd::arithmetic::div_mod::lemma_mod_division_less_than_divisor(
                r_fps as int,
                20_000_000,
            );
            vstd::arithmetic::div_mod::lemma_div_is_ordered_by_denominator(
                FPS_UNIT as int,
                10_000_000,
                fps,
            );
            vstd::arithmetic::div_mod::lemma_div_is_ordered_by_denominator(
                FPS_UNIT as int,
                fps,
                29_999_999,
            );
        }
        a
    }
}

/// A short-lived explosion animation centered where an asteroid died.
pub struct Explosion {
    pub sprite: AnimatedSprite,
    pub rect: Rectangle,
    pub alive_since: i64,
}

/// The explosion after `dt` micro-seconds, or `None` once its age reaches
/// the animation's duration.
pub open spec fn explosion_step(e: Explosion, dt: int) -> Option<Explosion> {
    let aged = sat(e.alive_since + dt);
    if aged >= EXPLOSION_DURATION {
        None
    } else {
        Some(
            Explosion {
                sprite: AnimatedSprite {
                    current_time: time_after(e.sprite, dt) as i64,
                    ..e.sprite
                },
                rect: e.rect,
                alive_since: aged as i64,
            },
        )
    }
}

/// What `ExplosionFactory::at_center` produces: the factory's animation from
/// its start, in a fixed-size square centered at `center`.
pub open spec fn explosion_from(e: Explosion, f: ExplosionFactory, center: (int, int)) -> bool {
    &&& e.rect == (Rectangle {
        x: (center.0 - EXPLOSION_SIDE / 2) as i64,
        y: (center.1 - EXPLOSION_SIDE / 2) as i64,
        w: EXPLOSION_SIDE,
        h: EXPLOSION_SIDE,
    })
    &&& e.alive_since == 0
    &&& e.sprite.sprites() == f.sprite.sprites()
    &&& e.sprite.delay() == f.sprite.delay()
    &&& e.sprite.time() == f.sprite.time()
}

impl Explosion {
    pub open spec fn valid(&self) -> bool {
        &&& self.sprite.valid()
        &&& self.rect.in_band()
        &&& 0 <= self.alive_since <= COORD_LIMIT
    }

    /// Build the factory holding the shared explosion animation.
    pub fn factory(sheet: &Sprite) -> (f: ExplosionFactory)
        requires
            sheet.valid(),
            EXPLOSION_SIDE * (EXPLOSIONS_WIDE as i64) <= sheet.src().w,
            EXPLOSION_SIDE * (EXPLOSIONS_HIGH as i64) <= sheet.src().h,
        ensures
            f.sprite.sprites().len() == EXPLOSIONS_TOTAL,
            forall|i: int|
                0 <= i < EXPLOSIONS_TOTAL ==> (#[trigger] f.sprite.sprites()[i]).src()
                    == frame_cell(sheet.src(), explosion_sheet_layout(), i),
            f.sprite.delay() == tdiv(FPS_UNIT as int, EXPLOSION_FPS as int),
            f.sprite.time() == 0,
            f.valid(),
    {
        proof {
            assert(EXPLOSIONS_TOTAL <= EXPLOSIONS_WIDE * EXPLOSIONS_HIGH);
        }
        let frames = load_frames(
            sheet,
            AnimatedSpriteDescr {
                total_frames: EXPLOSIONS_TOTAL,
                frames_high: EXPLOSIONS_HIGH,
                frames_wide: EXPLOSIONS_WIDE,
                frame_w: EXPLOSION_SIDE,
                frame_h: EXPLOSION_SIDE,
            },
        );
        ExplosionFactory { sprite: AnimatedSprite::with_fps(frames, EXPLOSION_FPS) }
    }

    /// Age the explosion, as `explosion_step` describes.
    pub fn update(self, dt: i64) -> (r: Option<Explosion>)
        requires
            self.valid(),
            0 <= dt <= COORD_LIMIT,
        ensures
            r == explosion_step(self, dt as int),
            r is Some ==> r.unwrap().valid(),
    {
        let mut aging = self;
        let aged = sat_add(aging.alive_since, dt);
        aging.alive_since = aged;
        aging.sprite.add_time(dt);

        if aged >= EXPLOSION_DURATION {
            None
        } else {
            Some(aging)
        }
    }

    /// The animation frame to draw now.
    pub fn current_sprite(&self) -> (s: Sprite)
        requires
            self.valid(),
        ensures
            s == self.sprite.sprites()[crate::gfx::frame_index(
                self.sprite.time() as int,
                self.sprite.delay() as int,
                self.sprite.sprites().len() as int,
            )],
    {
        self.sprite.current_sprite()
    }
}

/// Holds the shared explosion animation and stamps out instances.
pub struct ExplosionFactory {
    pub sprite: AnimatedSprite,
}

/// Every bullet advanced by `dt`, the dead ones dropped, order kept.
pub open spec fn step_bullets(s: Seq<Bullet>, w: int, h: int, dt: int) -> Seq<Bullet>
    decreases s.len(),
{
    if s.len() == 0 {
        Seq::empty()
    } else {
        let rest = step_bullets(s.drop_first(), w, h, dt);
        match bullet_step(s[0], w, h, dt) {
            Some(b) => seq![b] + rest,
            None => rest,
        }
    }
}

/// Every asteroid advanced by `dt`, the off-screen ones dropped, order kept.
pub open spec fn step_asteroids(s: Seq<Asteroid>, dt: int) -> Seq<Asteroid>
    decreases s.len(),
{
    if s.len() == 0 {
        Seq::empty()
    } else {
        let rest = step_asteroids(s.drop_first(), dt);
        match asteroid_step(s[0], dt) {
            Some(a) => seq![a] + rest,
            None => rest,
        }
    }
}

/// Every explosion aged by `dt`, the expired ones dropped, order kept.
pub open spec fn step_explosions(s: Seq<Explosion>, dt: int) -> Seq<Explosion>
    decreases s.len(),
{
    if s.len() == 0 {
        Seq::empty()
    } else {
        let rest = step_explosions(s.drop_first(), dt);
        match explosion_step(s[0], dt) {
            Some(e) => seq![e] + rest,
            None => rest,
        }
    }
}

/// Whether any bullet, or the player, overlaps this asteroid.
pub open spec fn asteroid_hit(a: Asteroid, bullets: Seq<Bullet>, player_rect: Rectangle) -> bool {
    (exists|j: int| 0 <= j < bullets.len() && overlap(a.rect, bullet_rect(bullets[j]))) || overlap(
        a.rect,
        player_rect,
    )
}

/// Whether this bullet overlaps any asteroid.
pub open spec fn bullet_hit(b: Bullet, asteroids: Seq<Asteroid>) -> bool {
    exists|i: int| 0 <= i < asteroids.len() && overlap(asteroids[i].rect, bullet_rect(b))
}

/// The asteroids the collision sweep keeps.
pub open spec fn asteroid_survives(bullets: Seq<Bullet>, player_rect: Rectangle) -> spec_fn(
    Asteroid,
) -> bool {
    |a: Asteroid| !asteroid_hit(a, bullets, player_rect)
}

/// The asteroids the collision sweep destroys.
pub open spec fn asteroid_dies(bullets: Seq<Bullet>, player_rect: Rectangle) -> spec_fn(
    Asteroid,
) -> bool {
    |a: Asteroid| asteroid_hit(a, bullets, player_rect)
}

/// The bullets the collision sweep keeps.
pub open spec fn bullet_survives(asteroids: Seq<Asteroid>) -> spec_fn(Bullet) -> bool {
    |b: Bullet| !bullet_hit(b, asteroids)
}

impl ExplosionFactory {
    pub open spec fn valid(&self) -> bool {
        self.sprite.valid()
    }

    /// A fresh explosion centered at the given point.
    pub fn at_center(&self, center: (i64, i64)) -> (e: Explosion)
        requires
            self.valid(),
            -2 * COORD_LIMIT + EXPLOSION_SIDE <= center.0 <= 2 * COORD_LIMIT,
            -2 * COORD_LIMIT + EXPLOSION_SIDE <= center.1 <= 2 * COORD_LIMIT,
        ensures
            explosion_from(e, *self, (center.0 as int, center.1 as int)),
            e.valid(),
    {
        let sprite = self.sprite.duplicate();

        Explosion {
            sprite,
            rect: Rectangle::with_size(EXPLOSION_SIDE, EXPLOSION_SIDE).center_at(center),
            alive_since: 0,
        }
    }
}

/// The gameplay view: the player, the entity populations, their factories,
/// the parallax layers, and the per-frame update that drives them.
pub struct GameView {
    pub player: Player,
    pub bullets: Vec<Bullet>,
    pub asteroids: Vec<Asteroid>,
    pub asteroid_factory: AsteroidFactory,
    pub explosions: Vec<Explosion>,
    pub explosion_factory: ExplosionFactory,
    pub bg: BgSet,
    /// Set each frame the player overlaps an asteroid; reported, not yet
    /// acted on.
    pub player_destroyed: bool,
    /// Each frame one asteroid spawns with probability one in this many.
    pub spawn_one_in: u64,
}

impl GameView {
    pub open spec fn valid(&self) -> bool {
        &&& self.player.valid()
        &&& forall|i: int| 0 <= i < self.bullets@.len() ==> (#[trigger] self.bullets@[i]).valid()
        &&& forall|i: int|
            0 <= i < self.asteroids@.len() ==> (#[trigger] self.asteroids@[i]).valid()
        &&& forall|i: int|
            0 <= i < self.explosions@.len() ==> (#[trigger] self.explosions@[i]).valid()
        &&& self.asteroid_factory.valid()
        &&& self.explosion_factory.valid()
        &&& self.bg.valid()
        &&& self.spawn_one_in >= 1
    }

    /// A fresh gameplay view on a window `output_h` micro-pixels tall, with
    /// the handed-over background set and empty entity populations.
    pub fn with_backgrounds(
        output_h: i64,
        player_sheet: &Sprite,
        asteroid_sheet: &Sprite,
        explosion_sheet: &Sprite,
        bg: BgSet,
    ) -> (g: GameView)
        requires
            player_sheet.valid(),
            player_sheet.src().w >= 3 * PLAYER_W,
            player_sheet.src().h >= 3 * PLAYER_H,
            asteroid_sheet.valid(),
            ASTEROID_SIDE * (ASTEROIDS_WIDE as i64) <= asteroid_sheet.src().w,
            ASTEROID_SIDE * (ASTEROIDS_HIGH as i64) <= asteroid_sheet.src().h,
            explosion_sheet.valid(),
            EXPLOSION_SIDE * (EXPLOSIONS_WIDE as i64) <= explosion_sheet.src().w,
            EXPLOSION_SIDE * (EXPLOSIONS_HIGH as i64) <= explosion_sheet.src().h,
            PLAYER_H <= output_h <= COORD_LIMIT,
            bg.valid(),
        ensures
            g.player.rect == (Rectangle {
                x: 64_000_000,
                y: ((output_h - PLAYER_H) / 2) as i64,
                w: PLAYER_W,
                h: PLAYER_H,
            }),
            g.player.current == crate::player::PlayerFrame::MidNorm,
            g.player.cannon == crate::bullets::CannonType::RectBullet,
            forall|i: int|
                0 <= i < 9 ==> (#[trigger] g.player.sprites()[i]).src() == frame_cell(
                    player_sheet.src(),
                    crate::player::player_sheet_layout(),
                    i,
                ),
            g.bullets@ == Seq::<Bullet>::empty(),
            g.asteroids@ == Seq::<Asteroid>::empty(),
            g.explosions@ == Seq::<Explosion>::empty(),
            g.asteroid_factory.sprite.sprites().len() == ASTEROIDS_TOTAL,
            forall|i: int|
                0 <= i < ASTEROIDS_TOTAL ==> (#[trigger] g.asteroid_factory.sprite.sprites()[i]).src()
                    == frame_cell(asteroid_sheet.src(), asteroid_sheet_layout(), i),
            g.asteroid_factory.sprite.delay() == 1_000_000,
            g.explosion_factory.sprite.sprites().len() == EXPLOSIONS_TOTAL,
            forall|i: int|
                0 <= i < EXPLOSIONS_TOTAL ==> (#[trigger] g.explosion_factory.sprite.sprites()[i]).src()
                    == frame_cell(explosion_sheet.src(), explosion_sheet_layout(), i),
            g.explosion_factory.sprite.delay() == tdiv(FPS_UNIT as int, EXPLOSION_FPS as int),
            g.bg == bg,
            !g.player_destroyed,
            g.spawn_one_in == ASTEROID_SPAWN_ONE_IN,
            g.valid(),
    {
        let g = GameView {
            player: Player::new(output_h, player_sheet),
            bullets: Vec::new(),
            asteroids: Vec::new(),
            asteroid_factory: Asteroid::factory(asteroid_sheet),
            explosions: Vec::new(),
            explosion_factory: Explosion::factory(explosion_sheet),
            bg,
            player_destroyed: false,
            spawn_one_in: ASTEROID_SPAWN_ONE_IN,
        };
        proof {
            assert(g.bullets@ =~= Seq::<Bullet>::empty());
            assert(g.asteroids@ =~= Seq::<Asteroid>::empty());
            assert(g.explosions@ =~= Seq::<Explosion>::empty());
        }
        g
    }

    /// One collision sweep over the current populations: an asteroid hit by
    /// any bullet or the player dies and leaves an explosion at its center;
    /// a bullet that hit any asteroid dies (a bullet overlapping several
    /// asteroids destroys them all); the player overlapping any asteroid
    /// only sets the destroyed flag. New bullets and asteroids the sweep
    /// ends with are exactly the survivors, in their original order.
    pub fn collision_pass(&mut self)
        requires
            old(self).valid(),
        ensures
            final(self).asteroids@ == old(self).asteroids@.filter(
                asteroid_survives(old(self).bullets@, old(self).player.rect),
            ),
            final(self).bullets@ == old(self).bullets@.filter(
                bullet_survives(old(self).asteroids@),
            ),
            ({
                let dead = old(self).asteroids@.filter(
                    asteroid_dies(old(self).bullets@, old(self).player.rect),
                );
                &&& final(self).explosions@.len() == old(self).explosions@.len() + dead.len()
                &&& forall|k: int|
                    0 <= k < old(self).explosions@.len() ==> final(self).explosions@[k] == old(
                        self,
                    ).explosions@[k]
                &&& forall|k: int|
                    0 <= k < dead.len() ==> explosion_from(
                        #[trigger] final(self).explosions@[old(self).explosions@.len() + k],
                        old(self).explosion_factory,
                        center_of(dead[k].rect),
                    )
            }),
            final(self).player_destroyed == exists|ii: int|
                0 <= ii < old(self).asteroids@.len() && overlap(
                    #[trigger] old(self).asteroids@[ii].rect,
                    old(self).player.rect,
                ),
            final(self).player == old(self).player,
            final(self).asteroid_factory == old(self).asteroid_factory,
            final(self).explosion_factory == old(self).explosion_factory,
            final(self).bg == old(self).bg,
            final(self).spawn_one_in == old(self).spawn_one_in,
            final(self).valid(),
    {
        let ghost asts0 = self.asteroids@;
        let ghost bullets0 = self.bullets@;
        let ghost pr = self.player.rect;
        let ghost expl0 = self.explosions@;
        let ghost player0 = self.player;
        let ghost af0 = self.asteroid_factory;
        let ghost ef0 = self.explosion_factory;
        let ghost bg0 = self.bg;
        let ghost soi0 = self.spawn_one_in;
        let ghost pd0 = self.player_destroyed;

        let mut player_alive = true;

        // Wrap every bullet with a still-alive mark.
        let mut transition_bullets: Vec<MaybeAlive<Bullet>> = Vec::new();
        let mut j: usize = 0;
        while j < self.bullets.len()
            invariant
                j <= self.bullets@.len(),
                self.bullets@ == bullets0,
                transition_bullets@.len() == j,
                forall|k: int|
                    0 <= k < j ==> (#[trigger] transition_bullets@[k]).alive
                        && transition_bullets@[k].value == bullets0[k],
            decreases self.bullets@.len() - j,
        {
            transition_bullets.push(MaybeAlive { alive: true, value: self.bullets[j] });
            j = j + 1;
        }

        // Sweep the asteroids, marking bullets and collecting survivors.
        let mut old_asts: Vec<Asteroid> = Vec::new();
        core::mem::swap(&mut old_asts, &mut self.asteroids);
        let mut surviving: Vec<Asteroid> = Vec::new();
        let ghost mut i: int = 0;

        while old_asts.len() > 0
            invariant
                0 <= i <= asts0.len(),
                old_asts@ == asts0.skip(i),
                forall|k: int| 0 <= k < asts0.len() ==> (#[trigger] asts0[k]).valid(),
                forall|k: int| 0 <= k < bullets0.len() ==> (#[trigger] bullets0[k]).valid(),
                pr.valid(),
                pr == player0.rect,
                ef0.valid(),
                surviving@ == asts0.take(i).filter(asteroid_survives(bullets0, pr)),
                forall|k: int| 0 <= k < surviving@.len() ==> (#[trigger] surviving@[k]).valid(),
                self.explosions@.len() == expl0.len() + asts0.take(i).filter(
                    asteroid_dies(bullets0, pr),
                ).len(),
                forall|k: int| 0 <= k < expl0.len() ==> self.explosions@[k] == expl0[k],
                forall|k: int|
                    0 <= k < asts0.take(i).filter(asteroid_dies(bullets0, pr)).len()
                        ==> explosion_from(
                        #[trigger] self.explosions@[expl0.len() + k],
                        ef0,
                        center_of(asts0.take(i).filter(asteroid_dies(bullets0, pr))[k].rect),
                    ),
                forall|k: int|
                    0 <= k < self.explosions@.len() ==> (#[trigger] self.explosions@[k]).valid(),
                transition_bullets@.len() == bullets0.len(),
                forall|k: int|
                    0 <= k < bullets0.len() ==> (#[trigger] transition_bullets@[k]).value
                        == bullets0[k],
                forall|k: int|
                    0 <= k < bullets0.len() ==> ((#[trigger] transition_bullets@[k]).alive
                        <==> !(exists|ii: int|
                        0 <= ii < i && overlap(
                            #[trigger] asts0[ii].rect,
                            bullet_rect(bullets0[k]),
                        ))),
                player_alive <==> !(exists|ii: int|
                    0 <= ii < i && overlap(#[trigger] asts0[ii].rect, pr)),
                self.bullets@ == bullets0,
                self.player == player0,
                self.asteroid_factory == af0,
                self.explosion_factory == ef0,
                self.bg == bg0,
                self.spawn_one_in == soi0,
                self.player_destroyed == pd0,
            decreases old_asts@.len(),
        {
            let a = old_asts.remove(0);
            proof {
                assert(asts0.skip(i)[0] == asts0[i]);
                assert(asts0.skip(i).remove(0) =~= asts0.skip(i + 1));
            }

            let mut asteroid_alive = true;
            let mut jj: usize = 0;
            while jj < transition_bullets.len()
                invariant
                    jj <= transition_bullets@.len(),
                    transition_bullets@.len() == bullets0.len(),
                    0 <= i < asts0.len(),
                    a == asts0[i],
                    a.valid(),
                    forall|k: int| 0 <= k < asts0.len() ==> (#[trigger] asts0[k]).valid(),
                    forall|k: int| 0 <= k < bullets0.len() ==> (#[trigger] bullets0[k]).valid(),
                    forall|k: int|
                        0 <= k < bullets0.len() ==> (#[trigger] transition_bullets@[k]).value
                            == bullets0[k],
                    forall|k: int|
                        jj <= k < bullets0.len() ==> ((#[trigger] transition_bullets@[k]).alive
                            <==> !(exists|ii: int|
                            0 <= ii < i && overlap(
                                #[trigger] asts0[ii].rect,
                                bullet_rect(bullets0[k]),
                            ))),
                    forall|k: int|
                        0 <= k < jj ==> ((#[trigger] transition_bullets@[k]).alive <==> !(
                        exists|ii: int|
                            0 <= ii < i + 1 && overlap(
                                #[trigger] asts0[ii].rect,
                                bullet_rect(bullets0[k]),
                            ))),
                    asteroid_alive <==> !(exists|k: int|
                        0 <= k < jj && overlap(a.rect, bullet_rect(#[trigger] bullets0[k]))),
                decreases transition_bullets@.len() - jj,
            {
                let b = transition_bullets[jj].value;
                if a.rect().overlaps(b.rect()) {
                    transition_bullets.set(jj, MaybeAlive { alive: false, value: b });
                    asteroid_alive = false;
                    proof {
                        assert(overlap(asts0[i].rect, bullet_rect(bullets0[jj as int])));
                    }
                } else {
                    proof {
                        assert(forall|ii: int|
                            0 <= ii < i + 1 && overlap(
                                #[trigger] asts0[ii].rect,
                                bullet_rect(bullets0[jj as int]),
                            ) ==> ii < i);
                    }
                }
                jj = jj + 1;
            }

            if a.rect().overlaps(self.player.rect) {
                asteroid_alive = false;
                player_alive = false;
                proof {
                    assert(overlap(asts0[i].rect, pr));
                }
            } else {
                proof {
                    assert(forall|ii: int|
                        0 <= ii < i + 1 && overlap(#[trigger] asts0[ii].rect, pr) ==> ii < i);
                }
            }

            proof {
                broadcast use vstd::prelude::Seq::lemma_filter_push;

                assert(asts0.take(i + 1) =~= asts0.take(i).push(asts0[i]));
                if asteroid_alive {
                    assert(!asteroid_hit(a, bullets0, pr));
                    assert((asteroid_survives(bullets0, pr))(a));
                    assert(!(asteroid_dies(bullets0, pr))(a));
                } else {
                    assert(asteroid_hit(a, bullets0, pr));
                    assert(!(asteroid_survives(bullets0, pr))(a));
                    assert((asteroid_dies(bullets0, pr))(a));
                }
            }

            if asteroid_alive {
                surviving.push(a);
            } else {
                let center = a.rect().center();
                let explosion = self.explosion_factory.at_center(center);
                self.explosions.push(explosion);
            }
            proof {
                i = i + 1;
            }
        }

        proof {
            assert(asts0.skip(i).len() == 0);
            assert(i == asts0.len());
            assert(asts0.take(i) =~= asts0);
        }

        self.asteroids = surviving;

        // Keep only the bullets that hit nothing.
        let mut new_bullets: Vec<Bullet> = Vec::new();
        let mut k: usize = 0;
        while k < transition_bullets.len()
            invariant
                k <= transition_bullets@.len(),
                transition_bullets@.len() == bullets0.len(),
                forall|kk: int| 0 <= kk < bullets0.len() ==> (#[trigger] bullets0[kk]).valid(),
                forall|kk: int|
                    0 <= kk < bullets0.len() ==> (#[trigger] transition_bullets@[kk]).value
                        == bullets0[kk],
                forall|kk: int|
                    0 <= kk < bullets0.len() ==> ((#[trigger] transition_bullets@[kk]).alive
                        <==> !bullet_hit(bullets0[kk], asts0)),
                new_bullets@ == bullets0.take(k as int).filter(bullet_survives(asts0)),
                forall|kk: int| 0 <= kk < new_bullets@.len() ==> (#[trigger] new_bullets@[kk]).valid(),
            decreases transition_bullets@.len() - k,
        {
            proof {
                broadcast use vstd::prelude::Seq::lemma_filter_push;

                assert(bullets0.take(k + 1) =~= bullets0.take(k as int).push(bullets0[k as int]));
            }
            let ma = transition_bullets[k];
            match ma.as_option() {
                Some(b) => {
                    new_bullets.push(b);
                },
                None => {},
            }
            k = k + 1;
        }
        proof {
            assert(bullets0.take(bullets0.len() as int) =~= bullets0);
        }
        self.bullets = new_bullets;

        self.player_destroyed = !player_alive;
    }
}

/// An asteroid run through a whole sequence of frame times; `None` as soon
/// as one update reports it off the field.
pub open spec fn run_asteroid(a: Asteroid, dts: Seq<i64>) -> Option<Asteroid>
    decreases dts.len(),
{
    if dts.len() == 0 {
        Some(a)
    } else {
        match asteroid_step(a, dts[0] as int) {
            Some(a2) => run_asteroid(a2, dts.drop_first()),
            None => None,
        }
    }
}

/// An asteroid whose speed is a whole number of pixels per second moves left
/// by exactly that many micro-pixels per micro-second, and survives a run of
/// frames totalling `t` micro-seconds exactly when `x0 - rate * t` has not
/// yet left the playfield; it is removed on the update that crosses.
pub proof fn lemma_asteroid_track(a: Asteroid, dts: Seq<i64>)
    requires
        0 <= a.vel <= COORD_LIMIT,
        -COORD_LIMIT <= a.rect.x <= COORD_LIMIT,
        a.rect.x > -ASTEROID_SIDE,
        a.vel % 1_000_000 == 0,
        forall|i: int| 0 <= i < dts.len() ==> #[trigger] dts[i] >= 0,
        (a.vel / 1_000_000) * crate::bullets::total_micros(dts) <= COORD_LIMIT,
        a.rect.x - (a.vel / 1_000_000) * crate::bullets::total_micros(dts) >= -COORD_LIMIT,
    ensures
        ({
            let moved_to = a.rect.x - (a.vel / 1_000_000) * crate::bullets::total_micros(dts);
            &&& (run_asteroid(a, dts) is Some <==> moved_to > -ASTEROID_SIDE)
            &&& (run_asteroid(a, dts) is Some ==> run_asteroid(a, dts).unwrap().rect
                == (Rectangle { x: moved_to as i64, ..a.rect }))
        }),
    decreases dts.len(),
{
    let rate = a.vel / 1_000_000;
    vstd::arithmetic::div_mod::lemma_div_pos_is_pos(a.vel as int, 1_000_000);
    let total = crate::bullets::total_micros(dts);
    crate::bullets::lemma_total_micros_nonneg(dts);
    if dts.len() == 0 {
        assert(rate * 0 == 0) by (nonlinear_arith);
        assert(a.rect == (Rectangle { x: a.rect.x, ..a.rect }));
    } else {
        let dt = dts[0] as int;
        let rest = dts.drop_first();
        assert(forall|i: int| 0 <= i < rest.len() ==> #[trigger] rest[i] >= 0);
        crate::bullets::lemma_total_micros_nonneg(rest);
        assert(rate * total == rate * dt + rate * crate::bullets::total_micros(rest))
            by (nonlinear_arith)
            requires
                total == dt + crate::bullets::total_micros(rest),
        ;
        assert(rate * dt >= 0 && rate * crate::bullets::total_micros(rest) >= 0)
            by (nonlinear_arith)
            requires
                rate >= 0,
                dt >= 0,
                crate::bullets::total_micros(rest) >= 0,
        ;
        // One step moves by exactly `rate * dt`.
        vstd::arithmetic::div_mod::lemma_fundamental_div_mod(a.vel as int, 1_000_000);
        assert(a.vel as int * dt == 1_000_000 * (rate * dt)) by (nonlinear_arith)
            requires
                a.vel as int == 1_000_000 * rate,
        ;
        vstd::arithmetic::div_mod::lemma_div_multiples_vanish(rate * dt, 1_000_000);
        assert(sat(mul_fix(a.vel as int, dt)) == rate * dt);
        match asteroid_step(a, dt) {
            Some(a2) => {
                assert(a2.rect.x == a.rect.x - rate * dt);
                assert(a2.vel == a.vel);
                lemma_asteroid_track(a2, rest);
            },
            None => {
                assert(a.rect.x - rate * dt <= -ASTEROID_SIDE);
            },
        }
    }
}

/// A filter whose predicate every element passes keeps the sequence intact.
proof fn lemma_filter_all_pass<A>(s: Seq<A>, p: spec_fn(A) -> bool)
    requires
        forall|i: int| 0 <= i < s.len() ==> p(#[trigger] s[i]),
    ensures
        s.filter(p) == s,
    decreases s.len(),
{
    broadcast use vstd::prelude::Seq::lemma_filter_push;

    if s.len() == 0 {
        reveal(Seq::filter);
    } else {
        let pre = s.drop_last();
        assert(s =~= pre.push(s.last()));
        assert(forall|i: int| 0 <= i < pre.len() ==> p(#[trigger] pre[i]));
        lemma_filter_all_pass(pre, p);
        assert(pre.push(s.last()).filter(p) =~= s);
    }
}

/// A filter whose predicate exactly one element fails drops exactly that
/// element.
proof fn lemma_filter_single_failure<A>(s: Seq<A>, p: spec_fn(A) -> bool, j: int)
    requires
        0 <= j < s.len(),
        !p(s[j]),
        forall|i: int| 0 <= i < s.len() && i != j ==> p(#[trigger] s[i]),
    ensures
        s.filter(p).len() == s.len() - 1,
    decreases s.len(),
{
    broadcast use vstd::prelude::Seq::lemma_filter_push;

    let pre = s.drop_last();
    assert(s =~= pre.push(s.last()));
    if j == s.len() - 1 {
        assert(forall|i: int| 0 <= i < pre.len() ==> p(#[trigger] pre[i]));
        lemma_filter_all_pass(pre, p);
    } else {
        lemma_filter_single_failure(pre, p, j);
    }
}

/// One asteroid overlapping exactly one bullet and not the player: the
/// collision sweep removes that asteroid and that bullet and nothing else,
/// and the one destroyed asteroid is the asteroid itself, so the one
/// explosion spawned for it is centered at its pre-collision center.
pub proof fn lemma_single_collision(
    asteroids: Seq<Asteroid>,
    bullets: Seq<Bullet>,
    player_rect: Rectangle,
    j: int,
)
    requires
        asteroids.len() == 1,
        0 <= j < bullets.len(),
        overlap(asteroids[0].rect, bullet_rect(bullets[j])),
        forall|k: int| 0 <= k < bullets.len() && k != j ==> !overlap(
            asteroids[0].rect,
            bullet_rect(#[trigger] bullets[k]),
        ),
        !overlap(asteroids[0].rect, player_rect),
    ensures
        asteroids.filter(asteroid_survives(bullets, player_rect)).len() == 0,
        bullets.filter(bullet_survives(asteroids)).len() == bullets.len() - 1,
        asteroids.filter(asteroid_dies(bullets, player_rect)) =~= seq![asteroids[0]],
{
    broadcast use vstd::prelude::Seq::lemma_filter_push;

    let survives = asteroid_survives(bullets, player_rect);
    let dies = asteroid_dies(bullets, player_rect);
    assert(asteroid_hit(asteroids[0], bullets, player_rect));
    assert(asteroids =~= Seq::<Asteroid>::empty().push(asteroids[0]));
    reveal(Seq::filter);
    assert(Seq::<Asteroid>::empty().filter(survives) =~= Seq::<Asteroid>::empty());
    assert(Seq::<Asteroid>::empty().filter(dies) =~= Seq::<Asteroid>::empty());
    assert(asteroids.filter(dies) =~= seq![asteroids[0]]);

    assert(!bullet_survives(asteroids)(bullets[j]));
    assert(forall|k: int|
        0 <= k < bullets.len() && k != j ==> (bullet_survives(asteroids))(#[trigger] bullets[k]));
    lemma_filter_single_failure(bullets, bullet_survives(asteroids), j);
}

/// Bullets fired this frame are appended after the collision sweep, so they
/// cannot destroy an asteroid on the frame they are fired: an asteroid that
/// no pre-existing bullet and not the player overlaps is still in the
/// population after the frame, whatever the new bullets overlap.
pub proof fn lemma_fired_bullets_cannot_hit_this_frame(
    pre: GameView,
    post: GameView,
    ev: Events,
    w: int,
    h: int,
    dt: int,
    roll: u64,
    r_fps: u64,
    r_y: u64,
    r_vel: u64,
    action: ViewAction,
    k: int,
)
    requires
        render_post(pre, post, ev, w, h, dt, roll, r_fps, r_y, r_vel, action),
        !ev.now.quit,
        ev.now.key_escape != Some(true),
        pre.spawn_one_in >= 1,
        0 <= k < step_asteroids(pre.asteroids@, dt).len(),
        !asteroid_hit(
            step_asteroids(pre.asteroids@, dt)[k],
            step_bullets(pre.bullets@, w, h, dt),
            player_step(pre.player, ev, w, h, dt).rect,
        ),
    ensures
        post.asteroids@.contains(step_asteroids(pre.asteroids@, dt)[k]),
{
    broadcast use vstd::prelude::Seq::lemma_filter_contains;

    let asteroids1 = step_asteroids(pre.asteroids@, dt);
    let bullets1 = step_bullets(pre.bullets@, w, h, dt);
    let player1 = player_step(pre.player, ev, w, h, dt);
    let survives = asteroid_survives(bullets1, player1.rect);
    let asteroids2 = asteroids1.filter(survives);
    assert(survives(asteroids1[k]));
    assert(asteroids2.contains(asteroids1[k]));
    let witness = choose|i: int| 0 <= i < asteroids2.len() && asteroids2[i] == asteroids1[k];
    if (roll as int) % (pre.spawn_one_in as int) == 0 {
        assert(post.asteroids@.take(asteroids2.len() as int) == asteroids2);
        assert(post.asteroids@[witness] == asteroids1[k]);
    } else {
        assert(post.asteroids@[witness] == asteroids1[k]);
    }
}

/// What one frame of the gameplay view does, given the frame's input, the
/// window size, the elapsed time and the frame's four random draws.
///
/// On a quit or escape edge the state is untouched and the action says so.
/// Otherwise the frame runs in order: the player moves; bullets, asteroids
/// and explosions advance and the dead ones fall out; the collision sweep
/// culls and spawns explosions; a fire edge appends the new bullets after
/// the sweep; the spawn roll may append one randomized asteroid; and the
/// background layers scroll.
pub open spec fn render_post(
    pre: GameView,
    post: GameView,
    ev: Events,
    w: int,
    h: int,
    dt: int,
    roll: u64,
    r_fps: u64,
    r_y: u64,
    r_vel: u64,
    action: ViewAction,
) -> bool {
    if ev.now.quit {
        &&& action == ViewAction::Quit
        &&& post == pre
    } else if ev.now.key_escape == Some(true) {
        &&& action == ViewAction::ChangeView(NextView::MainMenu(pre.bg))
        &&& post == pre
    } else {
        let player1 = player_step(pre.player, ev, w, h, dt);
        let bullets1 = step_bullets(pre.bullets@, w, h, dt);
        let asteroids1 = step_asteroids(pre.asteroids@, dt);
        let explosions1 = step_explosions(pre.explosions@, dt);
        let asteroids2 = asteroids1.filter(asteroid_survives(bullets1, player1.rect));
        let bullets2 = bullets1.filter(bullet_survives(asteroids1));
        let dead = asteroids1.filter(asteroid_dies(bullets1, player1.rect));
        let fire = ev.now.key_space == Some(true);
        let bullets3 = if fire {
            bullets2 + spawned_pair(
                player1.cannon,
                sat(player1.rect.x + 30_000_000) as i64,
                sat(player1.rect.y + 6_000_000) as i64,
                sat(player1.rect.y + PLAYER_H - 10_000_000) as i64,
            )
        } else {
            bullets2
        };
        let spawn = (roll as int) % (pre.spawn_one_in as int) == 0;
        &&& action == ViewAction::Continue
        &&& post.player == player1
        &&& post.bullets@ == bullets3
        &&& if spawn {
            &&& post.asteroids@.len() == asteroids2.len() + 1
            &&& post.asteroids@.take(asteroids2.len() as int) == asteroids2
            &&& asteroid_from_rolls(
                post.asteroids@.last(),
                pre.asteroid_factory,
                r_fps,
                r_y,
                r_vel,
                w,
                h,
            )
        } else {
            post.asteroids@ == asteroids2
        }
        &&& post.explosions@.len() == explosions1.len() + dead.len()
        &&& post.explosions@.take(explosions1.len() as int) == explosions1
        &&& forall|k: int|
            0 <= k < dead.len() ==> explosion_from(
                #[trigger] post.explosions@[explosions1.len() + k],
                pre.explosion_factory,
                center_of(dead[k].rect),
            )
        &&& post.player_destroyed == (exists|ii: int|
            0 <= ii < asteroids1.len() && overlap(#[trigger] asteroids1[ii].rect, player1.rect))
        &&& post.asteroid_factory == pre.asteroid_factory
        &&& post.explosion_factory == pre.explosion_factory
        &&& post.spawn_one_in == pre.spawn_one_in
        &&& post.bg.back == background_scrolled(pre.bg.back, dt)
        &&& post.bg.middle == background_scrolled(pre.bg.middle, dt)
        &&& post.bg.front == background_scrolled(pre.bg.front, dt)
    }
}

impl GameView {
    /// One frame with the four random draws passed in, so the outcome is a
    /// function of its arguments; `render` draws them and calls this.
    pub fn render_step(
        &mut self,
        events: &Events,
        w: i64,
        h: i64,
        elapsed: i64,
        roll: u64,
        r_fps: u64,
        r_y: u64,
        r_vel: u64,
    ) -> (action: ViewAction)
        requires
            old(self).valid(),
            0 <= elapsed <= COORD_LIMIT,
            0 <= w <= COORD_LIMIT,
            0 <= h <= COORD_LIMIT,
            sat(mul_fix(w as int, MOVABLE_FRACTION as int)) >= PLAYER_W,
            h >= PLAYER_H,
        ensures
            render_post(
                *old(self),
                *final(self),
                *events,
                w as int,
                h as int,
                elapsed as int,
                roll,
                r_fps,
                r_y,
                r_vel,
                action,
            ),
            final(self).valid(),
    {
        if events.now.quit {
            return ViewAction::Quit;
        }
        if events.now.key_escape == Some(true) {
            return ViewAction::ChangeView(NextView::MainMenu(self.bg));
        }

        self.player.update(events, w, h, elapsed);

        // Advance the bullets, dropping the ones that left the playfield.
        let ghost bullets_pre = self.bullets@;
        let mut updated_bullets: Vec<Bullet> = Vec::new();
        proof {
            assert(bullets_pre.skip(0) =~= bullets_pre);
            assert(Seq::<Bullet>::empty() + step_bullets(
                bullets_pre,
                w as int,
                h as int,
                elapsed as int,
            ) =~= step_bullets(bullets_pre, w as int, h as int, elapsed as int));
        }
        let mut idx: usize = 0;
        while idx < self.bullets.len()
            invariant
                idx <= self.bullets@.len(),
                self.bullets@ == bullets_pre,
                0 <= elapsed <= COORD_LIMIT,
                0 <= w <= COORD_LIMIT,
                0 <= h <= COORD_LIMIT,
                forall|k: int| 0 <= k < bullets_pre.len() ==> (#[trigger] bullets_pre[k]).valid(),
                updated_bullets@ + step_bullets(
                    bullets_pre.skip(idx as int),
                    w as int,
                    h as int,
                    elapsed as int,
                ) == step_bullets(bullets_pre, w as int, h as int, elapsed as int),
                forall|k: int|
                    0 <= k < updated_bullets@.len() ==> (#[trigger] updated_bullets@[k]).valid(),
            decreases self.bullets@.len() - idx,
        {
            proof {
                assert(bullets_pre.skip(idx as int)[0] == bullets_pre[idx as int]);
                assert(bullets_pre.skip(idx as int).drop_first() =~= bullets_pre.skip(idx + 1));
            }
            let ghost mid = updated_bullets@;
            let ghost rest = step_bullets(
                bullets_pre.skip(idx + 1),
                w as int,
                h as int,
                elapsed as int,
            );
            match self.bullets[idx].update(w, h, elapsed) {
                Some(b) => {
                    updated_bullets.push(b);
                    proof {
                        assert((mid + (seq![b] + rest)) =~= (mid.push(b) + rest));
                    }
                },
                None => {},
            }
            idx = idx + 1;
        }
        proof {
            assert(bullets_pre.skip(bullets_pre.len() as int).len() == 0);
            assert(updated_bullets@ + Seq::<Bullet>::empty() =~= updated_bullets@);
        }
        self.bullets = updated_bullets;

        // Advance the asteroids, dropping the ones past the left edge.
        let mut pre_asts: Vec<Asteroid> = Vec::new();
        core::mem::swap(&mut pre_asts, &mut self.asteroids);
        let ghost asts_pre = pre_asts@;
        let mut moved_asts: Vec<Asteroid> = Vec::new();
        proof {
            assert(asts_pre.skip(0) =~= asts_pre);
            assert(Seq::<Asteroid>::empty() + step_asteroids(asts_pre, elapsed as int)
                =~= step_asteroids(asts_pre, elapsed as int));
        }
        let ghost mut ai: int = 0;
        while pre_asts.len() > 0
            invariant
                0 <= ai <= asts_pre.len(),
                pre_asts@ == asts_pre.skip(ai),
                0 <= elapsed <= COORD_LIMIT,
                forall|k: int| 0 <= k < asts_pre.len() ==> (#[trigger] asts_pre[k]).valid(),
                moved_asts@ + step_asteroids(asts_pre.skip(ai), elapsed as int) == step_asteroids(
                    asts_pre,
                    elapsed as int,
                ),
                forall|k: int| 0 <= k < moved_asts@.len() ==> (#[trigger] moved_asts@[k]).valid(),
            decreases pre_asts@.len(),
        {
            proof {
                assert(asts_pre.skip(ai)[0] == asts_pre[ai]);
                assert(asts_pre.skip(ai).remove(0) =~= asts_pre.skip(ai + 1));
                assert(asts_pre.skip(ai).drop_first() =~= asts_pre.skip(ai + 1));
            }
            let a = pre_asts.remove(0);
            let ghost mid = moved_asts@;
            let ghost rest = step_asteroids(asts_pre.skip(ai + 1), elapsed as int);
            match a.update(elapsed) {
                Some(na) => {
                    moved_asts.push(na);
                    proof {
                        assert((mid + (seq![na] + rest)) =~= (mid.push(na) + rest));
                    }
                },
                None => {},
            }
            proof {
                ai = ai + 1;
            }
        }
        proof {
            assert(asts_pre.skip(ai).len() == 0);
            assert(ai == asts_pre.len());
            assert(moved_asts@ + Seq::<Asteroid>::empty() =~= moved_asts@);
        }
        self.asteroids = moved_asts;

        // Age the explosions, dropping the finished ones.
        let mut pre_expl: Vec<Explosion> = Vec::new();
        core::mem::swap(&mut pre_expl, &mut self.explosions);
        let ghost expl_pre = pre_expl@;
        let mut aged_expl: Vec<Explosion> = Vec::new();
        proof {
            assert(expl_pre.skip(0) =~= expl_pre);
            assert(Seq::<Explosion>::empty() + step_explosions(expl_pre, elapsed as int)
                =~= step_explosions(expl_pre, elapsed as int));
        }
        let ghost mut ei: int = 0;
        while pre_expl.len() > 0
            invariant
                0 <= ei <= expl_pre.len(),
                pre_expl@ == expl_pre.skip(ei),
                0 <= elapsed <= COORD_LIMIT,
                forall|k: int| 0 <= k < expl_pre.len() ==> (#[trigger] expl_pre[k]).valid(),
                aged_expl@ + step_explosions(expl_pre.skip(ei), elapsed as int) == step_explosions(
                    expl_pre,
                    elapsed as int,
                ),
                forall|k: int| 0 <= k < aged_expl@.len() ==> (#[trigger] aged_expl@[k]).valid(),
            decreases pre_expl@.len(),
        {
            proof {
                assert(expl_pre.skip(ei)[0] == expl_pre[ei]);
                assert(expl_pre.skip(ei).remove(0) =~= expl_pre.skip(ei + 1));
                assert(expl_pre.skip(ei).drop_first() =~= expl_pre.skip(ei + 1));
            }
            let e = pre_expl.remove(0);
            let ghost mid = aged_expl@;
            let ghost rest = step_explosions(expl_pre.skip(ei + 1), elapsed as int);
            match e.update(elapsed) {
                Some(ne) => {
                    aged_expl.push(ne);
                    proof {
                        assert((mid + (seq![ne] + rest)) =~= (mid.push(ne) + rest));
                    }
                },
                None => {},
            }
            proof {
                ei = ei + 1;
            }
        }
        proof {
            assert(expl_pre.skip(ei).len() == 0);
            assert(ei == expl_pre.len());
            assert(aged_expl@ + Seq::<Explosion>::empty() =~= aged_expl@);
        }
        self.explosions = aged_expl;

        // Resolve collisions: cull hit asteroids and bullets, spawn
        // explosions, and note whether the player was hit.
        self.collision_pass();
        proof {
            let explosions1 = step_explosions(expl_pre, elapsed as int);
            assert(self.explosions@.take(explosions1.len() as int) =~= explosions1);
        }

        // Fire after the sweep, so fresh bullets cannot collide this frame.
        if events.now.key_space == Some(true) {
            let ghost before_fire = self.bullets@;
            let mut spawned = self.player.spawn_bullets();
            let ghost pair = spawned@;
            self.bullets.append(&mut spawned);
            proof {
                assert(self.bullets@ =~= before_fire + pair);
            }
        }

        // Occasionally spawn one new asteroid at the right edge.
        let ghost before_spawn = self.asteroids@;
        if roll % self.spawn_one_in == 0 {
            let a = self.asteroid_factory.random_from(r_fps, r_y, r_vel, w, h);
            self.asteroids.push(a);
            proof {
                assert(self.asteroids@.take(before_spawn.len() as int) =~= before_spawn);
                assert(self.asteroids@.last() == a);
            }
        }

        // Scroll the parallax layers.
        self.bg.back.scroll(elapsed);
        self.bg.middle.scroll(elapsed);
        self.bg.front.scroll(elapsed);

        ViewAction::Continue
    }

    /// One frame of the gameplay view: the per-frame update described by
    /// `render_post`, with the frame's random draws taken from the
    /// thread-local generator.
    pub fn render(&mut self, events: &Events, w: i64, h: i64, elapsed: i64) -> (action: ViewAction)
        requires
            old(self).valid(),
            0 <= elapsed <= COORD_LIMIT,
            0 <= w <= COORD_LIMIT,
            0 <= h <= COORD_LIMIT,
            sat(mul_fix(w as int, MOVABLE_FRACTION as int)) >= PLAYER_W,
            h >= PLAYER_H,
        ensures
            exists|rolls: (u64, u64, u64, u64)|
                render_post(
                    *old(self),
                    *final(self),
                    *events,
                    w as int,
                    h as int,
                    elapsed as int,
                    rolls.0,
                    rolls.1,
                    rolls.2,
                    rolls.3,
                    action,
                ),
            final(self).valid(),
    {
        let roll = rand::random::<u64>();
        let r_fps = rand::random::<u64>();
        let r_y = rand::random::<u64>();
        let r_vel = rand::random::<u64>();
        let action = self.render_step(events, w, h, elapsed, roll, r_fps, r_y, r_vel);
        proof {
            let rolls = (roll, r_fps, r_y, r_vel);
            assert(render_post(
                *old(self),
                *self,
                *events,
                w as int,
                h as int,
                elapsed as int,
                rolls.0,
                rolls.1,
                rolls.2,
                rolls.3,
                action,
            ));
        }
        action
    }
}

} // verus!
