use arcade_shooter::bullets::Bullet;
use arcade_shooter::bullets::CannonType;
use arcade_shooter::data::Rectangle;
use arcade_shooter::events::Events;
use arcade_shooter::gfx::Sprite;
use arcade_shooter::player::Player;
use arcade_shooter::player::PlayerFrame;
use arcade_shooter::player::PLAYER_H;
use arcade_shooter::player::PLAYER_W;

const W: i64 = 800_000_000;
const H: i64 = 600_000_000;

fn player_sheet() -> Sprite {
    Sprite::new(3 * PLAYER_W, 3 * PLAYER_H)
}

#[test]
fn new_player_is_centered_with_straight_cannon() {
    let sheet = player_sheet();
    let p = Player::new(H, &sheet);
    assert_eq!(
        p.rect,
        Rectangle { x: 64_000_000, y: (H - PLAYER_H) / 2, w: PLAYER_W, h: PLAYER_H }
    );
    assert_eq!(p.current, PlayerFrame::MidNorm);
    assert_eq!(p.cannon, CannonType::RectBullet);
    assert_eq!(p.current.index(), 3);
}

#[test]
fn holding_right_for_half_a_second_moves_ninety_pixels() {
    // 30 frames of 1/60 s with PLAYER_SPEED = 180 px/s end near
    // 64 + 180 * 0.5 = 154 px, and the pose is the level fast one.
    let sheet = player_sheet();
    let mut p = Player::new(H, &sheet);
    p.rect = Rectangle { x: 64_000_000, y: 64_000_000, w: PLAYER_W, h: PLAYER_H };
    let mut ev = Events::new();
    ev.key_right = true;
    for _ in 0..30 {
        p.update(&ev, W, H, 16_667);
    }
    // Each frame moves floor(180_000_000 * 16_667 / 1_000_000) = 3_000_060.
    assert_eq!(p.rect.x, 64_000_000 + 30 * 3_000_060);
    assert_eq!(p.rect.x, 154_001_800);
    assert_eq!(p.rect.y, 64_000_000);
    assert_eq!(p.current, PlayerFrame::MidFast);
}

#[test]
fn diagonal_speed_is_scaled() {
    let sheet = player_sheet();
    let mut p = Player::new(H, &sheet);
    p.rect = Rectangle { x: 200_000_000, y: 200_000_000, w: PLAYER_W, h: PLAYER_H };
    let mut ev = Events::new();
    ev.key_right = true;
    ev.key_down = true;
    p.update(&ev, W, H, 1_000_000);
    // Diagonal speed: 180_000_000 * 707_107 / 1_000_000 = 127_279_260
    // micro-pixels per second.
    assert_eq!(p.rect.x, 200_000_000 + 127_279_260);
    assert_eq!(p.rect.y, 200_000_000 + 127_279_260);
    assert_eq!(p.current, PlayerFrame::DownFast);
}

#[test]
fn opposite_keys_cancel() {
    let sheet = player_sheet();
    let mut p = Player::new(H, &sheet);
    let before = p.rect;
    let mut ev = Events::new();
    ev.key_left = true;
    ev.key_right = true;
    ev.key_up = true;
    p.update(&ev, W, H, 1_000_000);
    assert_eq!(p.rect.x, before.x);
    assert!(p.rect.y < before.y);
    assert_eq!(p.current, PlayerFrame::UpNorm);
}

#[test]
fn player_is_clamped_to_the_movable_region() {
    let sheet = player_sheet();
    let mut p = Player::new(H, &sheet);
    let mut ev = Events::new();
    ev.key_right = true;
    // Ten full seconds to the right: far beyond the screen.
    for _ in 0..10 {
        p.update(&ev, W, H, 1_000_000);
    }
    // Clamped to the left seven tenths of the window, minus its width.
    let movable_w = W * 7 / 10;
    assert_eq!(p.rect.x, movable_w - PLAYER_W);
}

#[test]
fn mode_select_edges_switch_the_cannon() {
    let sheet = player_sheet();
    let mut p = Player::new(H, &sheet);
    let mut ev = Events::new();
    ev.now.key_2 = Some(true);
    p.update(&ev, W, H, 16_667);
    assert_eq!(
        p.cannon,
        CannonType::SineBullet { amplitude: 10_000_000, angular_vel: 15_000_000 }
    );

    let mut ev3 = Events::new();
    ev3.now.key_3 = Some(true);
    p.update(&ev3, W, H, 16_667);
    assert_eq!(p.cannon, CannonType::DivergentBullet { a: 100_000_000, b: 1_200_000 });

    // A held key without a press edge changes nothing.
    let mut held = Events::new();
    held.key_1 = true;
    p.update(&held, W, H, 16_667);
    assert_eq!(p.cannon, CannonType::DivergentBullet { a: 100_000_000, b: 1_200_000 });

    let mut ev1 = Events::new();
    ev1.now.key_1 = Some(true);
    p.update(&ev1, W, H, 16_667);
    assert_eq!(p.cannon, CannonType::RectBullet);
}

#[test]
fn bullets_spawn_at_the_cannon_ports() {
    let sheet = player_sheet();
    let mut p = Player::new(H, &sheet);
    p.rect = Rectangle { x: 64_000_000, y: 0, w: PLAYER_W, h: PLAYER_H };
    let pair = p.spawn_bullets();
    assert_eq!(pair.len(), 2);
    match (&pair[0], &pair[1]) {
        (Bullet::RectBullet { rect: r0 }, Bullet::RectBullet { rect: r1 }) => {
            assert_eq!(r0.x, 64_000_000 + 30_000_000);
            assert_eq!(r0.y, 6_000_000);
            assert_eq!(r1.x, 64_000_000 + 30_000_000);
            assert_eq!(r1.y, PLAYER_H - 10_000_000);
        },
        _ => panic!("expected straight bullets"),
    }
}
