use arcade_shooter::data::Rectangle;
use arcade_shooter::engine::ViewAction;
use arcade_shooter::events::Events;
use arcade_shooter::gfx::Sprite;
use arcade_shooter::shared::Background;
use arcade_shooter::shared::BgSet;
use arcade_shooter::views::ShipView;

#[test]
fn background_set_scrolls_faster_toward_the_front() {
    let sprite = Sprite::new(100_000_000, 100_000_000);
    let set = BgSet::new(sprite, sprite, sprite);
    assert_eq!(set.back.vel, 20_000_000);
    assert_eq!(set.middle.vel, 40_000_000);
    assert_eq!(set.front.vel, 80_000_000);
    assert_eq!(set.back.pos, 0);
}

#[test]
fn background_scrolls_and_wraps_at_the_image_width() {
    let sprite = Sprite::new(100_000_000, 100_000_000);
    let mut bg = Background { pos: 0, vel: 20_000_000, sprite };
    // One second: 20 px.
    bg.scroll(1_000_000);
    assert_eq!(bg.pos, 20_000_000);
    // Five more seconds: 120 px, wrapped past the 100 px image once.
    for _ in 0..5 {
        bg.scroll(1_000_000);
    }
    assert_eq!(bg.pos, 20_000_000);
}

#[test]
fn background_tiles_cover_the_window() {
    let sprite = Sprite::new(100_000_000, 100_000_000);
    let mut bg = Background { pos: 0, vel: 20_000_000, sprite };
    // Window 400 x 200 px: the image is scaled 2x, so two 200 px tiles.
    let tiles = bg.tiles(400_000_000, 200_000_000);
    assert_eq!(
        tiles,
        vec![
            Rectangle { x: 0, y: 0, w: 200_000_000, h: 200_000_000 },
            Rectangle { x: 200_000_000, y: 0, w: 200_000_000, h: 200_000_000 },
        ]
    );
    // Scrolled by 20 px the first tile starts at -40 px and a third one
    // is needed to reach the right edge.
    bg.scroll(1_000_000);
    let tiles = bg.tiles(400_000_000, 200_000_000);
    assert_eq!(tiles.len(), 3);
    assert_eq!(tiles[0].x, -40_000_000);
    assert_eq!(tiles[2].x, 360_000_000);
}

#[test]
fn ship_view_moves_and_quits() {
    let mut v = ShipView::new();
    assert_eq!(
        v.player.rect,
        Rectangle { x: 64_000_000, y: 64_000_000, w: 32_000_000, h: 32_000_000 }
    );

    let mut ev = Events::new();
    ev.key_down = true;
    let action = v.render(&ev, 800_000_000, 600_000_000, 1_000_000);
    assert_eq!(action, ViewAction::Continue);
    assert_eq!(v.player.rect.y, 64_000_000 + 180_000_000);
    assert_eq!(v.player.rect.x, 64_000_000);

    let mut esc = Events::new();
    esc.now.key_escape = Some(true);
    assert_eq!(v.render(&esc, 800_000_000, 600_000_000, 16_667), ViewAction::Quit);
}
