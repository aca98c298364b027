use arcade_shooter::bullets::Bullet;
use arcade_shooter::bullets::BULLET_H;
use arcade_shooter::bullets::BULLET_W;
use arcade_shooter::data::Rectangle;
use arcade_shooter::engine::ViewAction;
use arcade_shooter::events::Events;
use arcade_shooter::game::Asteroid;
use arcade_shooter::game::Explosion;
use arcade_shooter::game::GameView;
use arcade_shooter::game::ASTEROID_SIDE;
use arcade_shooter::game::ASTEROIDS_TOTAL;
use arcade_shooter::game::EXPLOSION_DURATION;
use arcade_shooter::game::EXPLOSIONS_TOTAL;
use arcade_shooter::gfx::Sprite;
use arcade_shooter::player::PLAYER_H;
use arcade_shooter::player::PLAYER_W;
use arcade_shooter::shared::BgSet;

const W: i64 = 800_000_000;
const H: i64 = 600_000_000;

fn bg_set() -> BgSet {
    let sprite = Sprite::new(100_000_000, 100_000_000);
    BgSet::new(sprite, sprite, sprite)
}

fn game() -> GameView {
    let player_sheet = Sprite::new(3 * PLAYER_W, 3 * PLAYER_H);
    let asteroid_sheet = Sprite::new(21 * ASTEROID_SIDE, 7 * ASTEROID_SIDE);
    let explosion_sheet = Sprite::new(5 * 96_000_000, 4 * 96_000_000);
    GameView::with_backgrounds(H, &player_sheet, &asteroid_sheet, &explosion_sheet, bg_set())
}

fn asteroid_at(g: &GameView, x: i64, y: i64, vel: i64) -> Asteroid {
    let a = g.asteroid_factory.random_from(0, 0, 0, W, H);
    Asteroid { rect: Rectangle { x, y, w: ASTEROID_SIDE, h: ASTEROID_SIDE }, vel, ..a }
}

#[test]
fn factories_hold_the_full_animations() {
    let g = game();
    assert_eq!(g.asteroid_factory.sprite.frames(), ASTEROIDS_TOTAL);
    assert_eq!(g.explosion_factory.sprite.frames(), EXPLOSIONS_TOTAL);
    assert!(g.bullets.is_empty());
    assert!(g.asteroids.is_empty());
    assert!(g.explosions.is_empty());
    assert!(!g.player_destroyed);
    assert_eq!(g.spawn_one_in, 100);
}

#[test]
fn collision_removes_asteroid_and_bullet_and_spawns_centered_explosion() {
    // One asteroid overlapping exactly one bullet and not the player.
    let mut g = game();
    let asteroid = asteroid_at(&g, 300_000_000, 100_000_000, 100_000_000);
    g.asteroids.push(asteroid);
    g.bullets.push(Bullet::RectBullet {
        rect: Rectangle { x: 310_000_000, y: 120_000_000, w: BULLET_W, h: BULLET_H },
    });
    g.collision_pass();
    assert_eq!(g.asteroids.len(), 0);
    assert_eq!(g.bullets.len(), 0);
    assert_eq!(g.explosions.len(), 1);
    // The explosion is centered at the asteroid's pre-collision center.
    assert_eq!(
        g.explosions[0].rect,
        Rectangle { x: 300_000_000, y: 100_000_000, w: 96_000_000, h: 96_000_000 }
    );
    assert_eq!(g.explosions[0].alive_since, 0);
    assert!(!g.player_destroyed);
}

#[test]
fn one_bullet_destroys_every_asteroid_it_overlaps() {
    // The sweep does not stop at the first hit.
    let mut g = game();
    let a1 = asteroid_at(&g, 300_000_000, 100_000_000, 100_000_000);
    let a2 = asteroid_at(&g, 310_000_000, 110_000_000, 100_000_000);
    g.asteroids.push(a1);
    g.asteroids.push(a2);
    g.bullets.push(Bullet::RectBullet {
        rect: Rectangle { x: 312_000_000, y: 120_000_000, w: BULLET_W, h: BULLET_H },
    });
    g.collision_pass();
    assert_eq!(g.asteroids.len(), 0);
    assert_eq!(g.bullets.len(), 0);
    assert_eq!(g.explosions.len(), 2);
}

#[test]
fn missing_bullets_and_asteroids_survive_the_sweep() {
    let mut g = game();
    let asteroid = asteroid_at(&g, 500_000_000, 20_000_000, 100_000_000);
    g.asteroids.push(asteroid);
    g.bullets.push(Bullet::RectBullet {
        rect: Rectangle { x: 100_000_000, y: 400_000_000, w: BULLET_W, h: BULLET_H },
    });
    g.collision_pass();
    assert_eq!(g.asteroids.len(), 1);
    assert_eq!(g.bullets.len(), 1);
    assert_eq!(g.explosions.len(), 0);
}

#[test]
fn player_overlap_destroys_asteroid_and_sets_the_flag() {
    let mut g = game();
    let p = g.player.rect;
    let asteroid = asteroid_at(&g, p.x, p.y, 100_000_000);
    g.asteroids.push(asteroid);
    g.collision_pass();
    assert_eq!(g.asteroids.len(), 0);
    assert_eq!(g.explosions.len(), 1);
    assert!(g.player_destroyed);
}

#[test]
fn fired_bullets_are_appended_after_the_sweep() {
    // An asteroid sits exactly where this frame's shot spawns. The shot is
    // appended after the collision pass, so both fresh bullets survive the
    // frame even though they overlap the asteroid's position.
    let mut g = game();
    g.player.rect = Rectangle { x: 64_000_000, y: 0, w: PLAYER_W, h: PLAYER_H };
    let asteroid = asteroid_at(&g, 64_000_000, 0, 100_000_000);
    g.asteroids.push(asteroid);
    let mut ev = Events::new();
    ev.now.key_space = Some(true);
    // A roll of 1 skips the random asteroid spawn (1 % 100 != 0).
    let action = g.render_step(&ev, W, H, 0, 1, 0, 0, 0);
    assert_eq!(action, ViewAction::Continue);
    // The asteroid died (it overlapped the player), one explosion spawned,
    // and both fresh bullets are alive although they overlapped it.
    assert_eq!(g.asteroids.len(), 0);
    assert_eq!(g.explosions.len(), 1);
    assert_eq!(g.bullets.len(), 2);
    assert!(g.player_destroyed);
}

#[test]
fn asteroid_leaves_the_field_on_the_crossing_update() {
    // Velocity 100 px/s from x = 50 px: after accumulated time t with
    // x - 100 t <= -ASTEROID_SIDE the asteroid is removed on that update.
    let mut a = asteroid_at(&game(), 50_000_000, 10_000_000, 100_000_000);
    // 1.45 s: x = 50 - 145 = -95 px, still barely on the field.
    a = a.update(1_450_000).expect("still on the field");
    assert_eq!(a.rect.x, -95_000_000);
    // 10 ms more: x = -96.0 px = -ASTEROID_SIDE: removed now.
    assert!(a.update(10_000).is_none());
}

#[test]
fn spawn_roll_appends_a_randomized_asteroid() {
    let mut g = game();
    let ev = Events::new();
    // A roll of 0 spawns (0 % 100 == 0); the three draws pin the asteroid.
    let action = g.render_step(&ev, W, H, 16_667, 0, 0, 5, 7);
    assert_eq!(action, ViewAction::Continue);
    assert_eq!(g.asteroids.len(), 1);
    let a = &g.asteroids[0];
    assert_eq!(a.rect.x, W);
    assert_eq!(a.rect.y, 5);
    assert_eq!(a.vel, 50_000_007);
    assert_eq!(a.rect.w, ASTEROID_SIDE);
}

#[test]
fn random_asteroids_stay_in_their_ranges() {
    let g = game();
    for _ in 0..20 {
        let a = g.asteroid_factory.random(W, H);
        assert_eq!(a.rect.x, W);
        assert!(a.rect.y >= 0 && a.rect.y < H - ASTEROID_SIDE);
        assert!(a.vel >= 50_000_000 && a.vel < 150_000_000);
    }
}

#[test]
fn quit_and_escape_leave_the_state_untouched() {
    let mut g = game();
    let asteroid = asteroid_at(&g, 500_000_000, 20_000_000, 100_000_000);
    g.asteroids.push(asteroid);

    let mut quit = Events::new();
    quit.now.quit = true;
    assert_eq!(g.render_step(&quit, W, H, 16_667, 1, 0, 0, 0), ViewAction::Quit);
    assert_eq!(g.asteroids.len(), 1);

    let mut esc = Events::new();
    esc.now.key_escape = Some(true);
    match g.render_step(&esc, W, H, 16_667, 1, 0, 0, 0) {
        ViewAction::ChangeView(_) => {},
        other => panic!("expected a view change, got {:?}", other),
    }
    assert_eq!(g.asteroids.len(), 1);
}

#[test]
fn explosions_expire_after_their_animation() {
    let mut g = game();
    let center = (300_000_000i64, 200_000_000i64);
    let e: Explosion = g.explosion_factory.at_center(center);
    assert_eq!(e.alive_since, 0);
    // The duration is 17 frames at 62 500 us each.
    assert_eq!(EXPLOSION_DURATION, 1_062_500);
    let aged = e.update(1_000_000).expect("still burning");
    assert!(aged.update(62_500).is_none());
    g.explosions.push(g.explosion_factory.at_center(center));
}
