use rustcraft::meter::{shows_fps_title, FpsState, DEFAULT_WINDOW_NANOS};
use rustcraft::settings::GlobalSettings;

#[test]
fn sixty_ticks_in_one_window_publish_sixty() {
    let mut fps = FpsState::default();
    // 59 frames of 16_666_667 ns and a last one that completes the second
    for i in 0..59u32 {
        fps.tick(16_666_667);
        assert_eq!(fps.frames, i + 1);
        assert_eq!(fps.latest_frames, 0);
        assert!(!fps.is_measured());
        assert_eq!(fps.latest_fps_millis(), 0);
    }
    fps.tick(DEFAULT_WINDOW_NANOS - 59 * 16_666_667);
    assert_eq!(fps.latest_frames, 60);
    assert_eq!(fps.latest_fps_millis(), 60_000);
    assert_eq!(fps.frames, 0);
    assert_eq!(fps.window_elapsed_nanos, 0);
    assert!(fps.is_measured());
}

#[test]
fn published_rate_is_stable_within_a_window() {
    let mut fps = FpsState::default();
    for _ in 0..10 {
        fps.tick(100_000_000);
    }
    assert_eq!(fps.latest_frames, 10);
    for _ in 0..9 {
        fps.tick(100_000_000);
        assert_eq!(fps.latest_frames, 10);
    }
    fps.tick(50_000_000);
    fps.tick(50_000_000);
    assert_eq!(fps.latest_frames, 11);
}

#[test]
fn overshoot_is_carried_into_the_next_window() {
    let mut fps = FpsState::new(1_000);
    fps.tick(600);
    fps.tick(600);
    assert_eq!(fps.latest_frames, 2);
    assert_eq!(fps.window_elapsed_nanos, 200);
    assert_eq!(fps.frames, 0);
    fps.tick(2_500);
    assert_eq!(fps.latest_frames, 1);
    assert_eq!(fps.window_elapsed_nanos, 700);
    fps.tick(u64::MAX);
    assert_eq!(fps.latest_frames, 1);
    assert_eq!(fps.window_elapsed_nanos, ((700u128 + u64::MAX as u128) % 1_000) as u64);
}

#[test]
fn configurable_window_scales_the_rate() {
    let mut fps = FpsState::new(500_000_000);
    for _ in 0..30 {
        fps.tick(1);
    }
    fps.tick(500_000_000 - 30);
    assert_eq!(fps.latest_frames, 31);
    assert_eq!(fps.latest_fps_millis(), 62_000);
}

#[test]
fn frame_counter_saturates() {
    let mut fps = FpsState {
        frames: u32::MAX,
        window_elapsed_nanos: 0,
        window_nanos: 10,
        latest_frames: 0,
    };
    fps.tick(1);
    assert_eq!(fps.frames, u32::MAX);
    fps.tick(9);
    assert_eq!(fps.latest_frames, u32::MAX);
    assert_eq!(fps.latest_fps_millis(), u32::MAX as u128 * 100_000_000_000);
}

#[test]
fn fresh_meter_reports_nothing() {
    let fps = FpsState::default();
    assert_eq!(fps.window_nanos, 1_000_000_000);
    assert_eq!(fps.latest_frames, 0);
    assert_eq!(fps.frames, 0);
    assert_eq!(fps.latest_fps_millis(), 0);
}

#[test]
fn title_shows_rate_only_with_overlay_and_measurement() {
    let mut settings = GlobalSettings::default();
    let mut fps = FpsState::new(10);
    assert!(!shows_fps_title(&settings, &fps));
    settings.toggle_debug_overlay();
    assert!(!shows_fps_title(&settings, &fps));
    fps.tick(10);
    assert!(shows_fps_title(&settings, &fps));
    settings.toggle_debug_overlay();
    assert!(!shows_fps_title(&settings, &fps));
}
