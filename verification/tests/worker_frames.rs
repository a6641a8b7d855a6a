use std::cell::RefCell;

use blinko_voice::config::VoiceConfig;
use blinko_voice::gpu::{GpuProbe, Platform};
use blinko_voice::transcriber::{InferError, WhisperTranscriber};
use blinko_voice::worker::{deliver, language_hint, process_frame, FrameOutcome};

fn engine() -> WhisperTranscriber<u8> {
    let probe = GpuProbe { platform: Platform::Other, nvidia_query: None, opencl_runtime: false };
    WhisperTranscriber::new(false, &probe, |_gpu: bool| Ok::<u8, String>(7)).unwrap()
}

fn config(language: &str, min_duration: i64) -> VoiceConfig {
    let mut config = VoiceConfig::with_defaults(language.to_string(), false);
    config.min_duration = min_duration;
    config
}

#[test]
fn the_language_hint_is_left_out_for_auto() {
    assert_eq!(language_hint(&config("auto", 100)), None);
    assert_eq!(language_hint(&config("zh", 100)), Some("zh"));
    assert_eq!(language_hint(&config("", 100)), Some(""));
}

#[test]
fn a_frame_under_the_minimum_duration_is_skipped_unheard() {
    let calls = RefCell::new(0);
    let decode = |_m: &u8, _a: &[f32], _l: Option<&str>| {
        *calls.borrow_mut() += 1;
        Ok(vec!["text".to_string()])
    };
    let inject = |_text: &str| {
        *calls.borrow_mut() += 1;
        Ok::<(), String>(())
    };
    // One second is asked for: 16000 samples.
    let outcome = process_frame(&vec![0.5f32; 15_999], &config("en", 1_000), &engine(), decode, inject);
    assert!(matches!(outcome, FrameOutcome::Skipped));
    assert_eq!(*calls.borrow(), 0);
}

#[test]
fn a_frame_is_transcribed_and_its_text_injected() {
    let heard = RefCell::new(Vec::new());
    let typed = RefCell::new(Vec::new());
    let decode = |model: &u8, audio: &[f32], language: Option<&str>| {
        heard.borrow_mut().push((*model, audio.len(), language.map(|l| l.to_string())));
        Ok(vec![" Guten".to_string(), " Tag \n".to_string()])
    };
    let inject = |text: &str| {
        typed.borrow_mut().push(text.to_string());
        Ok::<(), String>(())
    };
    let outcome = process_frame(&vec![0.5f32; 16_000], &config("de", 1_000), &engine(), decode, inject);
    match outcome {
        FrameOutcome::Injected(text) => assert_eq!(text, "Guten Tag"),
        other => panic!("unexpected outcome: {:?}", other),
    }
    assert_eq!(*heard.borrow(), vec![(7, 16_000, Some("de".to_string()))]);
    assert_eq!(*typed.borrow(), vec!["Guten Tag".to_string()]);
}

#[test]
fn a_frame_without_speech_is_not_injected() {
    let typed = RefCell::new(0);
    let decode = |_m: &u8, _a: &[f32], _l: Option<&str>| Ok(vec!["  ".to_string(), "\n".to_string()]);
    let inject = |_text: &str| {
        *typed.borrow_mut() += 1;
        Ok::<(), String>(())
    };
    let outcome = process_frame(&vec![0.5f32; 16_000], &config("auto", 100), &engine(), decode, inject);
    assert!(matches!(outcome, FrameOutcome::NoSpeech));
    assert_eq!(*typed.borrow(), 0);
}

#[test]
fn a_frame_that_passes_the_minimum_but_is_too_short_for_the_model_holds_no_speech() {
    let calls = RefCell::new(0);
    let decode = |_m: &u8, _a: &[f32], _l: Option<&str>| {
        *calls.borrow_mut() += 1;
        Ok(vec!["text".to_string()])
    };
    let inject = |_text: &str| {
        *calls.borrow_mut() += 1;
        Ok::<(), String>(())
    };
    let outcome = process_frame(&vec![0.5f32; 160], &config("en", 10), &engine(), decode, inject);
    assert!(matches!(outcome, FrameOutcome::NoSpeech));
    assert_eq!(*calls.borrow(), 0);
}

#[test]
fn a_failed_transcription_is_reported_and_nothing_is_injected() {
    let typed = RefCell::new(0);
    let decode =
        |_m: &u8, _a: &[f32], _l: Option<&str>| Err::<Vec<String>, String>("decoder failed".to_string());
    let inject = |_text: &str| {
        *typed.borrow_mut() += 1;
        Ok::<(), String>(())
    };
    let outcome = process_frame(&vec![0.5f32; 16_000], &config("en", 100), &engine(), decode, inject);
    match outcome {
        FrameOutcome::Failed(error) => assert_eq!(error.message, "decoder failed"),
        other => panic!("unexpected outcome: {:?}", other),
    }
    assert_eq!(*typed.borrow(), 0);
}

#[test]
fn a_failed_injection_is_reported_with_the_text() {
    let decode = |_m: &u8, _a: &[f32], _l: Option<&str>| Ok(vec!["hello ".to_string()]);
    let inject = |_text: &str| Err::<(), String>("no accessibility permission".to_string());
    let outcome = process_frame(&vec![0.5f32; 16_000], &config("en", 100), &engine(), decode, inject);
    match outcome {
        FrameOutcome::InjectFailed { text, cause } => {
            assert_eq!(text, "hello");
            assert_eq!(cause, "no accessibility permission");
        },
        other => panic!("unexpected outcome: {:?}", other),
    }
}

#[test]
fn delivery_trims_the_text_and_drops_the_empty_one() {
    let typed = RefCell::new(Vec::new());
    let inject = |text: &str| {
        typed.borrow_mut().push(text.to_string());
        Ok::<(), String>(())
    };
    assert!(matches!(deliver(Ok("".to_string()), inject), FrameOutcome::NoSpeech));
    assert!(matches!(deliver(Ok(" \t ".to_string()), inject), FrameOutcome::NoSpeech));
    assert!(matches!(deliver(Ok("  hi  ".to_string()), inject), FrameOutcome::Injected(_)));
    assert!(matches!(
        deliver(Err(InferError { message: "x".to_string() }), inject),
        FrameOutcome::Failed(_)
    ));
    assert_eq!(*typed.borrow(), vec!["hi".to_string()]);
}

#[test]
fn frames_are_worked_on_one_after_another_whatever_fails() {
    let typed = RefCell::new(Vec::new());
    let decode = |_m: &u8, audio: &[f32], _l: Option<&str>| {
        if audio[0] < 0.0 {
            Err("bad frame".to_string())
        } else {
            Ok(vec![format!("{}", audio.len())])
        }
    };
    let inject = |text: &str| {
        typed.borrow_mut().push(text.to_string());
        Ok::<(), String>(())
    };
    let settings = config("en", 100);
    let engine = engine();
    let queue = vec![vec![0.5f32; 1_600], vec![-0.5f32; 1_700], vec![0.5f32; 10], vec![0.5f32; 1_800]];
    let mut outcomes = Vec::new();
    for frame in &queue {
        outcomes.push(process_frame(frame, &settings, &engine, decode, inject));
    }
    assert!(matches!(outcomes[0], FrameOutcome::Injected(_)));
    assert!(matches!(outcomes[1], FrameOutcome::Failed(_)));
    assert!(matches!(outcomes[2], FrameOutcome::Skipped));
    assert!(matches!(outcomes[3], FrameOutcome::Injected(_)));
    assert_eq!(*typed.borrow(), vec!["1600".to_string(), "1800".to_string()]);
}

fn decode_length(model: &u8, audio: &[f32], language: Option<&str>) -> Result<Vec<String>, String> {
    Ok(vec![format!("{} {} {}", model, audio.len(), language.unwrap_or("any"))])
}

fn accept(_text: &str) -> Result<(), String> {
    Ok(())
}

#[test]
fn plain_functions_serve_as_decoder_and_injector() {
    let frame = vec![0.5f32; 3_200];
    let outcome = process_frame(frame.as_slice(), &config("ko", 100), &engine(), decode_length, accept);
    match outcome {
        FrameOutcome::Injected(text) => assert_eq!(text, "7 3200 ko"),
        other => panic!("unexpected outcome: {:?}", other),
    }
}

#[test]
fn a_second_handle_on_the_engine_transcribes_alike() {
    let first = engine();
    let second = first.clone();
    assert_eq!(second.engine_mode(), first.engine_mode());
    assert_eq!(second.context(), first.context());
    let frame = vec![0.5f32; 1_600];
    let outcome = process_frame(frame.as_slice(), &config("auto", 100), &second, decode_length, accept);
    match outcome {
        FrameOutcome::Injected(text) => assert_eq!(text, "7 1600 any"),
        other => panic!("unexpected outcome: {:?}", other),
    }
}
