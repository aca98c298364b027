use arcade_shooter::bullets::Bullet;
use arcade_shooter::bullets::CannonType;
use arcade_shooter::bullets::spawn_bullets;
use arcade_shooter::bullets::BULLET_H;
use arcade_shooter::bullets::BULLET_W;
use arcade_shooter::data::Rectangle;

const W: i64 = 800_000_000;
const H: i64 = 600_000_000;

#[test]
fn rect_bullet_travels_240_pixels_per_second() {
    // Start at x = 0 and accumulate one second in hundred steps:
    // the bullet sits at exactly 240 pixels.
    let mut b = Bullet::RectBullet {
        rect: Rectangle { x: 0, y: 100_000_000, w: BULLET_W, h: BULLET_H },
    };
    for _ in 0..100 {
        b = b.update(W, H, 10_000).expect("still on the field");
    }
    assert_eq!(b.rect().x, 240_000_000);
    assert_eq!(b.rect().y, 100_000_000);
}

#[test]
fn rect_bullet_alive_iff_within_right_edge() {
    // One step that lands exactly on the edge keeps it; past it kills it.
    let at_edge = Bullet::RectBullet {
        rect: Rectangle { x: W - 240_000, y: 0, w: BULLET_W, h: BULLET_H },
    };
    // 240 * 1000 us = 240_000 micro-pixels: lands exactly on the edge.
    assert!(at_edge.update(W, H, 1_000).is_some());
    let past = Bullet::RectBullet {
        rect: Rectangle { x: W - 239_999, y: 0, w: BULLET_W, h: BULLET_H },
    };
    assert!(past.update(W, H, 1_000).is_none());
}

#[test]
fn sine_bullet_starts_centered_and_stays_within_amplitude() {
    // amplitude 10 px, angular velocity 15 rad/s.
    let mut b = Bullet::SineBullet {
        pos_x: 0,
        origin_y: 100_000_000,
        amplitude: 10_000_000,
        angular_vel: 15_000_000,
        total_time: 0,
    };
    // Vertical offset is zero at age zero.
    assert_eq!(b.rect().y, 100_000_000);
    // Across many frames the row stays within [origin - 10, origin + 10] px
    // and actually moves both up and down.
    let mut seen_above = false;
    let mut seen_below = false;
    for _ in 0..200 {
        b = b.update(W, H, 10_000).expect("still on the field");
        let y = b.rect().y;
        assert!(y >= 100_000_000 - 10_000_000);
        assert!(y <= 100_000_000 + 10_000_000);
        if y > 100_000_000 {
            seen_above = true;
        }
        if y < 100_000_000 {
            seen_below = true;
        }
    }
    assert!(seen_above && seen_below);
}

#[test]
fn divergent_bullet_dies_on_any_edge() {
    // A strongly diverging bullet leaves through a horizontal edge long
    // before the right edge.
    let mut b = Bullet::DivergentBullet {
        pos_x: 0,
        origin_y: 300_000_000,
        a: 100_000_000,
        b: 1_200_000,
        total_time: 0,
    };
    let mut died = false;
    for _ in 0..200 {
        match b.update(W, H, 16_667) {
            Some(nb) => b = nb,
            None => {
                died = true;
                break;
            },
        }
    }
    assert!(died);
    // It died before reaching the right edge.
    assert!(b.rect().x < W);
}

#[test]
fn spawn_always_produces_two_bullets() {
    let pair = spawn_bullets(CannonType::RectBullet, 94_000_000, 286_000_000, 309_000_000);
    assert_eq!(pair.len(), 2);
    assert_eq!(
        pair[0].rect(),
        Rectangle { x: 94_000_000, y: 286_000_000, w: BULLET_W, h: BULLET_H }
    );
    assert_eq!(
        pair[1].rect(),
        Rectangle { x: 94_000_000, y: 309_000_000, w: BULLET_W, h: BULLET_H }
    );

    let sine = spawn_bullets(
        CannonType::SineBullet { amplitude: 10_000_000, angular_vel: 15_000_000 },
        0,
        10_000_000,
        20_000_000,
    );
    assert_eq!(sine.len(), 2);
    assert!(matches!(sine[0], Bullet::SineBullet { origin_y: 10_000_000, .. }));
    assert!(matches!(sine[1], Bullet::SineBullet { origin_y: 20_000_000, .. }));
}

#[test]
fn divergent_pair_is_mirrored() {
    let pair = spawn_bullets(
        CannonType::DivergentBullet { a: 100_000_000, b: 1_200_000 },
        0,
        10_000_000,
        20_000_000,
    );
    assert_eq!(pair.len(), 2);
    match (&pair[0], &pair[1]) {
        (
            Bullet::DivergentBullet { a: a0, b: b0, total_time: t0, .. },
            Bullet::DivergentBullet { a: a1, b: b1, total_time: t1, .. },
        ) => {
            assert_eq!(*a0, -100_000_000);
            assert_eq!(*a1, 100_000_000);
            assert_eq!(*b0, 1_200_000);
            assert_eq!(*b1, 1_200_000);
            assert_eq!(*t0, 0);
            assert_eq!(*t1, 0);
        },
        _ => panic!("expected a divergent pair"),
    }
}
