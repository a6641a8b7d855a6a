use std::cell::RefCell;

use blinko_voice::commands::{initialize_voice_recognition, VoiceRecognitionState};
use blinko_voice::config::VoiceConfig;
use blinko_voice::gpu::{GpuProbe, Platform};
use blinko_voice::hotkey::{parse_hotkey, HotKey};
use blinko_voice::monitor::{InputMonitor, KeyEvent};
use blinko_voice::recorder::AudioRecorder;
use blinko_voice::transcriber::InitError;
use blinko_voice::worker::{process_frame, FrameOutcome};

fn average(a: f32, b: f32) -> f32 {
    (a + b) / 2.0
}

#[test]
fn a_tone_held_for_two_seconds_is_transcribed_and_an_injection_attempted() {
    // The shell enables the voice pipeline with a model that loads.
    let mut config = VoiceConfig::with_defaults("auto".to_string(), true);
    config.enabled = true;
    config.model_path = "/models/ggml-base.bin".to_string();
    let probe = GpuProbe { platform: Platform::Other, nvidia_query: None, opencl_runtime: false };
    let mut shell: VoiceRecognitionState<(), &'static str> =
        VoiceRecognitionState::new(VoiceConfig::with_defaults("auto".to_string(), true));
    let summary = initialize_voice_recognition(
        &mut shell,
        config,
        true,
        &probe,
        || Ok::<(), InitError>(()),
        |_gpu: bool| Ok::<&'static str, String>("model"),
    );
    assert_eq!(
        summary,
        Ok("Voice recognition reinitialized successfully (CPU) with hotkey: F2".to_string())
    );
    let processor = shell.processor.as_ref().unwrap();

    // The device delivers two channels at 48 kHz.
    let mut recorder = AudioRecorder::<f32>::new(48_000, 2).unwrap();
    let target = parse_hotkey(&processor.get_config().hotkey).unwrap();
    assert_eq!(target, HotKey::F2);
    let mut monitor = InputMonitor::new(target);

    // The trigger key goes down; a constant tone plays for two seconds.
    let live = processor.get_config();
    let pressed = monitor.on_key_event(
        KeyEvent::Press(HotKey::F2),
        10_000,
        processor.is_running(),
        &live,
        &mut recorder,
        average,
    );
    assert!(pressed.is_none());
    for _ in 0..200 {
        recorder.capture(&[0.25f32; 960]);
    }
    assert_eq!(recorder.buffered_len(), 192_000);
    let frame = monitor
        .on_key_event(
            KeyEvent::Release(HotKey::F2),
            12_000,
            processor.is_running(),
            &live,
            &mut recorder,
            average,
        )
        .unwrap();
    assert_eq!(frame, vec![0.25f32; 64_000]);

    // The worker takes the frame off the queue. A tone is not speech: the
    // model hears nothing, and nothing is typed.
    let passes = RefCell::new(0);
    let typed = RefCell::new(Vec::new());
    let decode = |_model: &&'static str, audio: &[f32], language: Option<&str>| {
        *passes.borrow_mut() += 1;
        assert_eq!(audio.len(), 64_000);
        assert_eq!(language, None);
        Ok(vec![" ".to_string()])
    };
    let inject = |text: &str| {
        typed.borrow_mut().push(text.to_string());
        Ok::<(), String>(())
    };
    let outcome = process_frame(&frame, &live, processor.transcriber(), decode, inject);
    assert!(matches!(outcome, FrameOutcome::NoSpeech));
    assert_eq!(*passes.borrow(), 1);
    assert!(typed.borrow().is_empty());

    // The same frame with a model that hears words: they are typed.
    let decode = |_model: &&'static str, _audio: &[f32], _language: Option<&str>| {
        Ok(vec![" It".to_string(), " works.".to_string()])
    };
    let outcome = process_frame(&frame, &live, processor.transcriber(), decode, inject);
    assert!(matches!(outcome, FrameOutcome::Injected(_)));
    assert_eq!(*typed.borrow(), vec!["It works.".to_string()]);
}
