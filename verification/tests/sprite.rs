use arcade_shooter::data::Rectangle;
use arcade_shooter::gfx::AnimatedSprite;
use arcade_shooter::gfx::AnimatedSpriteDescr;
use arcade_shooter::gfx::Sprite;
use arcade_shooter::gfx::load_frames;

fn four_frames() -> Vec<Sprite> {
    let sheet = Sprite::new(4_000_000, 1_000_000);
    let mut frames = Vec::new();
    for i in 0..4i64 {
        let r = Rectangle { x: i * 1_000_000, y: 0, w: 1_000_000, h: 1_000_000 };
        frames.push(sheet.region(r).unwrap());
    }
    frames
}

#[test]
fn current_frame_at_350_milliseconds_is_three() {
    // Four frames at 0.1 s per frame; at 0.35 s the fourth frame shows.
    let mut sprite = AnimatedSprite::new(four_frames(), 100_000);
    sprite.add_time(350_000);
    assert_eq!(sprite.current_frame(), 3);
}

#[test]
fn negative_cursor_wraps_to_last_frame() {
    // Going back in time wraps the cursor to the last frame's start.
    let mut sprite = AnimatedSprite::new(four_frames(), 100_000);
    sprite.add_time(-50_000);
    assert_eq!(sprite.current_frame(), 3);
}

#[test]
fn current_frame_is_periodic() {
    // The period is frame_count * frame_delay = 400 ms.
    let mut a = AnimatedSprite::new(four_frames(), 100_000);
    let mut b = AnimatedSprite::new(four_frames(), 100_000);
    a.add_time(130_000);
    b.add_time(130_000 + 400_000);
    assert_eq!(a.current_frame(), b.current_frame());
    b.add_time(400_000);
    assert_eq!(a.current_frame(), b.current_frame());
}

#[test]
fn with_fps_sets_delay_and_set_fps_keeps_cursor() {
    // 16 frames per second (in micro-hertz) is a 62 500 us delay.
    let mut sprite = AnimatedSprite::with_fps(four_frames(), 16_000_000);
    assert_eq!(sprite.frames(), 4);
    sprite.add_time(70_000);
    assert_eq!(sprite.current_frame(), 1);
    // Slowing down does not reset the cursor.
    sprite.set_fps(1_000_000);
    assert_eq!(sprite.current_frame(), 0);
    sprite.set_frame_delay(35_000);
    assert_eq!(sprite.current_frame(), 2);
}

#[test]
fn duplicate_shares_frames_and_cursor() {
    let mut sprite = AnimatedSprite::new(four_frames(), 100_000);
    sprite.add_time(250_000);
    let copy = sprite.duplicate();
    assert_eq!(copy.frames(), 4);
    assert_eq!(copy.current_frame(), 2);
    assert_eq!(copy.current_sprite(), sprite.current_sprite());
}

#[test]
fn negative_rate_rewinds() {
    // A negative rate gives a negative frame delay. With a non-negative
    // cursor the quotient is pinned to the first frame; a wrapped (negative)
    // cursor divided by the negative delay selects a later frame.
    let mut sprite = AnimatedSprite::with_fps(four_frames(), -4_000_000);
    assert_eq!(sprite.current_frame(), 0);
    sprite.add_time(100_000);
    assert_eq!(sprite.current_frame(), 0);
    // Wrap: the cursor becomes (4 - 1) * -250_000 = -750_000.
    sprite.add_time(-200_000);
    assert_eq!(sprite.current_frame(), 3);
}

#[test]
fn region_requires_containment() {
    let sheet = Sprite::new(100, 50);
    assert!(sheet.region(Rectangle { x: 90, y: 40, w: 10, h: 10 }).is_some());
    assert!(sheet.region(Rectangle { x: 95, y: 40, w: 10, h: 10 }).is_none());
    assert_eq!(sheet.size(), (100, 50));
    let sub = sheet.region(Rectangle { x: 20, y: 10, w: 30, h: 30 }).unwrap();
    assert_eq!(sub.size(), (30, 30));
    // A region of a region is offset by the parent's own origin.
    let subsub = sub.region(Rectangle { x: 5, y: 5, w: 10, h: 10 }).unwrap();
    assert!(subsub.size() == (10, 10));
}

#[test]
fn load_frames_cuts_row_major_cells() {
    let sheet = Sprite::new(300, 200);
    let descr = AnimatedSpriteDescr {
        total_frames: 5,
        frames_high: 2,
        frames_wide: 3,
        frame_w: 100,
        frame_h: 100,
    };
    let frames = load_frames(&sheet, descr);
    assert_eq!(frames.len(), 5);
    assert_eq!(frames[0].size(), (100, 100));
    // The fourth frame starts the second row.
    let again = sheet.region(Rectangle { x: 0, y: 100, w: 100, h: 100 }).unwrap();
    assert_eq!(frames[3], again);
}
