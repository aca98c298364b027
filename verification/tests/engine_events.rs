use arcade_shooter::engine::FrameClock;
use arcade_shooter::engine::FrameStep;
use arcade_shooter::engine::FRAME_INTERVAL_MS;
use arcade_shooter::events::Events;
use arcade_shooter::events::Key;

#[test]
fn clock_waits_out_short_intervals() {
    assert_eq!(FRAME_INTERVAL_MS, 16);
    let mut clock = FrameClock::new(1_000);
    // 10 ms after the last frame: wait the remaining 6 ms.
    assert_eq!(clock.tick(1_010), FrameStep::Wait { delay: 6 });
    // The clock did not advance: the same query waits again.
    assert_eq!(clock.tick(1_010), FrameStep::Wait { delay: 6 });
}

#[test]
fn clock_advances_with_measured_elapsed_time() {
    let mut clock = FrameClock::new(1_000);
    // 20 ms elapsed: one frame of 20 000 us.
    assert_eq!(clock.tick(1_020), FrameStep::Frame { elapsed: 20_000, fps_report: None });
    // The next frame measures from the last processed one.
    assert_eq!(clock.tick(1_036), FrameStep::Frame { elapsed: 16_000, fps_report: None });
}

#[test]
fn clock_reports_the_frame_count_once_a_second() {
    let mut clock = FrameClock::new(0);
    assert_eq!(clock.tick(500), FrameStep::Frame { elapsed: 500_000, fps_report: None });
    // Past one second: the two frames so far are reported.
    assert_eq!(clock.tick(1_100), FrameStep::Frame { elapsed: 600_000, fps_report: Some(2) });
    // The counter restarts after a report.
    assert_eq!(clock.tick(1_200), FrameStep::Frame { elapsed: 100_000, fps_report: None });
}

#[test]
fn key_press_edge_fires_only_once() {
    let mut ev = Events::new();
    ev.key_pressed(Key::Space);
    assert_eq!(ev.now.key_space, Some(true));
    assert!(ev.key_space);

    // Held across a new frame: no new edge.
    ev.begin_frame();
    assert_eq!(ev.now.key_space, None);
    ev.key_pressed(Key::Space);
    assert_eq!(ev.now.key_space, None);
    assert!(ev.key_space);
}

#[test]
fn key_release_edge_and_other_keys_unaffected() {
    let mut ev = Events::new();
    ev.key_pressed(Key::Left);
    ev.key_pressed(Key::Up);
    assert!(ev.key_left && ev.key_up);
    ev.begin_frame();
    ev.key_released(Key::Left);
    assert_eq!(ev.now.key_left, Some(false));
    assert!(!ev.key_left);
    // The other key is still held and shows no edge.
    assert!(ev.key_up);
    assert_eq!(ev.now.key_up, None);
}

#[test]
fn quit_and_resize_are_recorded() {
    let mut ev = Events::new();
    assert!(!ev.now.quit);
    ev.quit_requested();
    assert!(ev.now.quit);
    ev.resized(800, 600);
    assert_eq!(ev.now.resize, Some((800, 600)));
    ev.begin_frame();
    assert!(!ev.now.quit);
    assert_eq!(ev.now.resize, None);
}
