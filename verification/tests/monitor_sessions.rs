use blinko_voice::config::VoiceConfig;
use blinko_voice::hotkey::HotKey;
use blinko_voice::monitor::{frame_lasts_at_least, InputMonitor, KeyEvent, Session, HOLD_FLOOR_MS};
use blinko_voice::recorder::AudioRecorder;

fn average(a: f32, b: f32) -> f32 {
    (a + b) / 2.0
}

fn enabled_config() -> VoiceConfig {
    let mut config = VoiceConfig::with_defaults("en".to_string(), false);
    config.enabled = true;
    config
}

fn recorder() -> AudioRecorder<f32> {
    AudioRecorder::new(16_000, 1).unwrap()
}

/// Presses F2 at `start`, captures `samples` samples, releases at `end`.
fn hold(start: u64, end: u64, samples: usize) -> Option<Vec<f32>> {
    let config = enabled_config();
    let mut monitor = InputMonitor::new(HotKey::F2);
    let mut recorder = recorder();
    let pressed =
        monitor.on_key_event(KeyEvent::Press(HotKey::F2), start, true, &config, &mut recorder, average);
    assert_eq!(pressed, None);
    assert!(recorder.is_recording());
    recorder.capture(&vec![0.5; samples]);
    let frame =
        monitor.on_key_event(KeyEvent::Release(HotKey::F2), end, true, &config, &mut recorder, average);
    assert!(!recorder.is_recording());
    assert_eq!(monitor.session(), None);
    frame
}

#[test]
fn the_hold_floor_is_half_a_second() {
    assert_eq!(HOLD_FLOOR_MS, 500);
}

#[test]
fn a_hold_of_300_ms_never_reaches_the_queue() {
    assert_eq!(hold(1_000, 1_300, 4_800), None);
}

#[test]
fn a_hold_of_600_ms_reaches_the_queue() {
    assert_eq!(hold(1_000, 1_600, 9_600), Some(vec![0.5; 9_600]));
}

#[test]
fn the_floor_is_met_at_exactly_500_ms() {
    assert_eq!(hold(0, 499, 8_000), None);
    assert_eq!(hold(0, 500, 8_000), Some(vec![0.5; 8_000]));
}

#[test]
fn a_clock_that_runs_backwards_drops_the_recording() {
    assert_eq!(hold(5_000, 4_000, 8_000), None);
}

#[test]
fn an_empty_frame_is_not_sent_on() {
    assert_eq!(hold(0, 2_000, 0), None);
}

#[test]
fn a_frame_shorter_than_the_minimum_duration_is_not_sent_on() {
    // The fresh settings ask for 100 ms, which is 1600 samples.
    assert_eq!(hold(0, 2_000, 1_599), None);
    assert_eq!(hold(0, 2_000, 1_600), Some(vec![0.5; 1_600]));
}

#[test]
fn frame_durations_are_compared_exactly() {
    assert!(frame_lasts_at_least(1_600, 100));
    assert!(!frame_lasts_at_least(1_599, 100));
    assert!(frame_lasts_at_least(16, 1));
    assert!(!frame_lasts_at_least(15, 1));
    assert!(frame_lasts_at_least(0, 0));
    assert!(frame_lasts_at_least(0, -5));
    assert!(!frame_lasts_at_least(usize::MAX, i64::MAX));
    assert!(frame_lasts_at_least(usize::MAX, 1));
}

#[test]
fn a_press_starts_a_session_with_the_settings_of_that_moment() {
    let mut config = enabled_config();
    config.min_duration = 250;
    let mut monitor = InputMonitor::new(HotKey::F2);
    let mut recorder = recorder();
    assert_eq!(monitor.target(), HotKey::F2);
    assert_eq!(monitor.session(), None);
    monitor.on_key_event(KeyEvent::Press(HotKey::F2), 42, true, &config, &mut recorder, average);
    assert_eq!(monitor.session(), Some(Session { started_at: 42, min_duration: 250 }));
    assert!(recorder.is_recording());
}

#[test]
fn a_session_keeps_the_minimum_duration_it_started_with() {
    let mut config = enabled_config();
    config.min_duration = 100;
    let mut monitor = InputMonitor::new(HotKey::F2);
    let mut recorder = recorder();
    monitor.on_key_event(KeyEvent::Press(HotKey::F2), 0, true, &config, &mut recorder, average);
    recorder.capture(&vec![0.5; 3_200]);
    // The settings change while the key is held: 200 ms would still pass,
    // 10 s would not; the session goes by the 100 ms that it started with.
    config.min_duration = 10_000;
    let frame =
        monitor.on_key_event(KeyEvent::Release(HotKey::F2), 700, true, &config, &mut recorder, average);
    assert_eq!(frame, Some(vec![0.5; 3_200]));
}

#[test]
fn a_press_starts_nothing_while_the_service_is_disabled() {
    let mut config = enabled_config();
    config.enabled = false;
    let mut monitor = InputMonitor::new(HotKey::F2);
    let mut recorder = recorder();
    let frame =
        monitor.on_key_event(KeyEvent::Press(HotKey::F2), 0, true, &config, &mut recorder, average);
    assert_eq!(frame, None);
    assert_eq!(monitor.session(), None);
    assert!(!recorder.is_recording());
}

#[test]
fn a_session_that_was_started_is_finished_and_processed_after_disabling() {
    let mut config = enabled_config();
    let mut monitor = InputMonitor::new(HotKey::F2);
    let mut recorder = recorder();
    monitor.on_key_event(KeyEvent::Press(HotKey::F2), 0, true, &config, &mut recorder, average);
    recorder.capture(&vec![0.5; 16_000]);
    config.enabled = false;
    let frame =
        monitor.on_key_event(KeyEvent::Release(HotKey::F2), 1_000, true, &config, &mut recorder, average);
    assert_eq!(frame, Some(vec![0.5; 16_000]));
    assert!(!recorder.is_recording());
    assert_eq!(monitor.session(), None);
}

#[test]
fn every_event_is_ignored_while_the_service_does_not_run() {
    let config = enabled_config();
    let mut monitor = InputMonitor::new(HotKey::F2);
    let mut recorder = recorder();
    let frame =
        monitor.on_key_event(KeyEvent::Press(HotKey::F2), 0, false, &config, &mut recorder, average);
    assert_eq!(frame, None);
    assert_eq!(monitor.session(), None);
    assert!(!recorder.is_recording());

    // A recording in progress is not interrupted by stopping the service.
    monitor.on_key_event(KeyEvent::Press(HotKey::F2), 0, true, &config, &mut recorder, average);
    recorder.capture(&vec![0.5; 16_000]);
    let frame =
        monitor.on_key_event(KeyEvent::Release(HotKey::F2), 1_000, false, &config, &mut recorder, average);
    assert_eq!(frame, None);
    assert!(recorder.is_recording());
    assert_eq!(monitor.session(), Some(Session { started_at: 0, min_duration: 100 }));
    assert_eq!(recorder.buffered_len(), 16_000);
}

#[test]
fn other_keys_and_other_events_change_nothing() {
    let config = enabled_config();
    let mut monitor = InputMonitor::new(HotKey::F2);
    let mut recorder = recorder();
    for event in [
        KeyEvent::Press(HotKey::F3),
        KeyEvent::Release(HotKey::F3),
        KeyEvent::Release(HotKey::F2),
        KeyEvent::Other,
    ] {
        let frame = monitor.on_key_event(event, 10, true, &config, &mut recorder, average);
        assert_eq!(frame, None);
        assert_eq!(monitor.session(), None);
        assert!(!recorder.is_recording());
    }
    monitor.on_key_event(KeyEvent::Press(HotKey::F2), 20, true, &config, &mut recorder, average);
    recorder.capture(&[0.5; 10]);
    for event in [KeyEvent::Press(HotKey::F3), KeyEvent::Release(HotKey::Alt), KeyEvent::Other] {
        let frame = monitor.on_key_event(event, 30, true, &config, &mut recorder, average);
        assert_eq!(frame, None);
        assert_eq!(monitor.session(), Some(Session { started_at: 20, min_duration: 100 }));
        assert!(recorder.is_recording());
        assert_eq!(recorder.buffered_len(), 10);
    }
}

#[test]
fn a_repeated_press_does_not_restart_the_session() {
    let config = enabled_config();
    let mut monitor = InputMonitor::new(HotKey::F2);
    let mut recorder = recorder();
    monitor.on_key_event(KeyEvent::Press(HotKey::F2), 100, true, &config, &mut recorder, average);
    recorder.capture(&vec![0.5; 8_000]);
    // The keyboard repeats the press while the key is held.
    monitor.on_key_event(KeyEvent::Press(HotKey::F2), 400, true, &config, &mut recorder, average);
    assert_eq!(monitor.session(), Some(Session { started_at: 100, min_duration: 100 }));
    assert_eq!(recorder.buffered_len(), 8_000);
    let frame =
        monitor.on_key_event(KeyEvent::Release(HotKey::F2), 650, true, &config, &mut recorder, average);
    assert_eq!(frame, Some(vec![0.5; 8_000]));
}

#[test]
fn a_recording_that_the_monitor_did_not_start_is_stopped_and_dropped() {
    let config = enabled_config();
    let mut monitor = InputMonitor::new(HotKey::F2);
    let mut recorder = recorder();
    recorder.start_recording();
    recorder.capture(&vec![0.5; 16_000]);
    let frame =
        monitor.on_key_event(KeyEvent::Release(HotKey::F2), 5_000, true, &config, &mut recorder, average);
    assert_eq!(frame, None);
    assert!(!recorder.is_recording());
}

#[test]
fn one_session_follows_another() {
    let config = enabled_config();
    let mut monitor = InputMonitor::new(HotKey::Space);
    let mut recorder = AudioRecorder::<f32>::new(48_000, 1).unwrap();
    monitor.on_key_event(KeyEvent::Press(HotKey::Space), 0, true, &config, &mut recorder, average);
    recorder.capture(&vec![0.25; 48_000]);
    let first =
        monitor.on_key_event(KeyEvent::Release(HotKey::Space), 1_000, true, &config, &mut recorder, average);
    assert_eq!(first, Some(vec![0.25; 16_000]));
    monitor.on_key_event(KeyEvent::Press(HotKey::Space), 2_000, true, &config, &mut recorder, average);
    recorder.capture(&vec![0.75; 24_000]);
    let second =
        monitor.on_key_event(KeyEvent::Release(HotKey::Space), 2_500, true, &config, &mut recorder, average);
    assert_eq!(second, Some(vec![0.75; 8_000]));
}
