use std::cell::RefCell;

use blinko_voice::gpu::{GpuProbe, Platform};
use blinko_voice::transcriber::{
    assemble_transcript, load_with_fallback, pin_language, EngineMode, InitError,
    WhisperTranscriber, MIN_SAMPLES,
};

fn no_gpu() -> GpuProbe {
    GpuProbe { platform: Platform::Other, nvidia_query: None, opencl_runtime: false }
}

fn with_gpu() -> GpuProbe {
    GpuProbe {
        platform: Platform::Windows,
        nvidia_query: Some("NVIDIA GeForce RTX 4090\n".to_string()),
        opencl_runtime: false,
    }
}

/// A loader that records each attempt and succeeds as told.
fn loader<'a>(
    attempts: &'a RefCell<Vec<bool>>,
    gpu_loads: bool,
    cpu_loads: bool,
) -> impl Fn(bool) -> Result<&'static str, String> + 'a {
    move |use_gpu: bool| {
        attempts.borrow_mut().push(use_gpu);
        if use_gpu {
            if gpu_loads {
                Ok("gpu model")
            } else {
                Err("no CUDA runtime".to_string())
            }
        } else if cpu_loads {
            Ok("cpu model")
        } else {
            Err("model file is corrupt".to_string())
        }
    }
}

fn mode_of(result: &Result<(&'static str, EngineMode), InitError>) -> Option<EngineMode> {
    match result {
        Ok((_, mode)) => Some(*mode),
        Err(_) => None,
    }
}

#[test]
fn without_gpu_support_a_preferred_gpu_gives_cpu_mode() {
    let attempts = RefCell::new(Vec::new());
    let engine = WhisperTranscriber::new(true, &no_gpu(), loader(&attempts, true, true)).unwrap();
    assert_eq!(engine.engine_mode(), EngineMode::Cpu);
    assert_eq!(engine.get_mode_info(), "CPU");
    assert_eq!(*engine.context(), "cpu model");
    assert_eq!(*attempts.borrow(), vec![false]);
}

#[test]
fn with_gpu_support_a_preferred_gpu_is_used() {
    let attempts = RefCell::new(Vec::new());
    let engine = WhisperTranscriber::new(true, &with_gpu(), loader(&attempts, true, true)).unwrap();
    assert_eq!(engine.engine_mode(), EngineMode::Gpu);
    assert_eq!(engine.get_mode_info(), "GPU");
    assert_eq!(*engine.context(), "gpu model");
    assert_eq!(*attempts.borrow(), vec![true]);
}

#[test]
fn a_gpu_that_is_not_preferred_is_not_tried() {
    let attempts = RefCell::new(Vec::new());
    let result = load_with_fallback(false, true, loader(&attempts, true, true));
    assert_eq!(mode_of(&result), Some(EngineMode::Cpu));
    assert_eq!(*attempts.borrow(), vec![false]);
}

#[test]
fn a_failing_gpu_falls_back_to_the_cpu() {
    let attempts = RefCell::new(Vec::new());
    let result = load_with_fallback(true, true, loader(&attempts, false, true));
    assert_eq!(mode_of(&result), Some(EngineMode::Cpu));
    assert!(matches!(result, Ok(("cpu model", EngineMode::Cpu))));
    assert_eq!(*attempts.borrow(), vec![true, false]);
}

#[test]
fn only_a_failure_on_the_cpu_is_reported() {
    let attempts = RefCell::new(Vec::new());
    let result = load_with_fallback(true, true, loader(&attempts, false, false));
    match result {
        Err(InitError::ModelLoad(cause)) => assert_eq!(cause, "model file is corrupt"),
        _ => panic!("the CPU load's failure was not reported"),
    }
    assert_eq!(*attempts.borrow(), vec![true, false]);

    let attempts = RefCell::new(Vec::new());
    let result = load_with_fallback(false, false, loader(&attempts, true, false));
    match result {
        Err(InitError::ModelLoad(cause)) => assert_eq!(cause, "model file is corrupt"),
        _ => panic!("the CPU load's failure was not reported"),
    }
    assert_eq!(*attempts.borrow(), vec![false]);
}

#[test]
fn failures_are_put_into_words() {
    assert_eq!(
        InitError::DeviceNotFound.message(),
        "Failed to initialize audio recorder: No voice input device found!"
    );
    assert_eq!(
        InitError::StreamOpenFailed("device busy".to_string()).message(),
        "Failed to initialize audio recorder: device busy"
    );
    assert_eq!(
        InitError::ModelLoad("no such file".to_string()).message(),
        "Failed to initialize Whisper transcriber: no such file"
    );
}

#[test]
fn the_model_is_pinned_to_a_language_unless_it_is_auto() {
    assert_eq!(pin_language(None), None);
    assert_eq!(pin_language(Some("auto")), None);
    assert_eq!(pin_language(Some("zh")), Some("zh"));
    assert_eq!(pin_language(Some("AUTO")), Some("AUTO"));
    assert_eq!(pin_language(Some("")), Some(""));
}

#[test]
fn segments_are_put_together_in_order_and_trimmed() {
    let segments = vec![" Hello".to_string(), ",".to_string(), " world. ".to_string()];
    assert_eq!(assemble_transcript(&segments), "Hello, world.");
    assert_eq!(assemble_transcript(&Vec::new()), "");
    assert_eq!(assemble_transcript(&vec!["  \n".to_string(), "\t ".to_string()]), "");
    assert_eq!(assemble_transcript(&vec!["a b".to_string()]), "a b");
}

#[test]
fn fewer_than_1600_samples_give_the_empty_text_without_the_model() {
    assert_eq!(MIN_SAMPLES, 1600);
    let attempts = RefCell::new(Vec::new());
    let engine = WhisperTranscriber::new(false, &no_gpu(), loader(&attempts, true, true)).unwrap();
    let calls = RefCell::new(0);
    let decode = |_model: &&'static str, _audio: &[f32], _language: Option<&str>| {
        *calls.borrow_mut() += 1;
        Ok(vec!["should not be heard".to_string()])
    };
    for len in [0usize, 1, 800, 1599] {
        let result = engine.transcribe(&vec![0.5f32; len], Some("en"), decode);
        assert_eq!(result.unwrap(), "");
    }
    assert_eq!(*calls.borrow(), 0);
}

#[test]
fn a_frame_of_1600_samples_is_decoded_in_one_pass() {
    let attempts = RefCell::new(Vec::new());
    let engine = WhisperTranscriber::new(false, &no_gpu(), loader(&attempts, true, true)).unwrap();
    let seen = RefCell::new(Vec::new());
    let decode = |model: &&'static str, audio: &[f32], language: Option<&str>| {
        seen.borrow_mut().push((model.to_string(), audio.len(), language.map(|l| l.to_string())));
        Ok(vec![" one".to_string(), " two ".to_string()])
    };
    let text = engine.transcribe(&vec![0.5f32; 1600], Some("de"), decode).unwrap();
    assert_eq!(text, "one two");
    assert_eq!(*seen.borrow(), vec![("cpu model".to_string(), 1600, Some("de".to_string()))]);
}

#[test]
fn the_language_is_left_open_for_auto_and_for_none() {
    let attempts = RefCell::new(Vec::new());
    let engine = WhisperTranscriber::new(false, &no_gpu(), loader(&attempts, true, true)).unwrap();
    let seen = RefCell::new(Vec::new());
    let decode = |_model: &&'static str, _audio: &[f32], language: Option<&str>| {
        seen.borrow_mut().push(language.map(|l| l.to_string()));
        Ok(Vec::new())
    };
    let frame = vec![0.0f32; 2000];
    assert_eq!(engine.transcribe(&frame, Some("auto"), decode).unwrap(), "");
    assert_eq!(engine.transcribe(&frame, None, decode).unwrap(), "");
    assert_eq!(engine.transcribe(&frame, Some("ja"), decode).unwrap(), "");
    assert_eq!(*seen.borrow(), vec![None, None, Some("ja".to_string())]);
}

#[test]
fn a_failing_pass_is_reported_with_its_cause() {
    let attempts = RefCell::new(Vec::new());
    let engine = WhisperTranscriber::new(false, &no_gpu(), loader(&attempts, true, true)).unwrap();
    let decode = |_model: &&'static str, _audio: &[f32], _language: Option<&str>| {
        Err::<Vec<String>, String>("out of memory".to_string())
    };
    let error = engine.transcribe(&vec![0.0f32; 1600], None, decode).unwrap_err();
    assert_eq!(error.message, "out of memory");
}
