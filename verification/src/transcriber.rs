//! The recognition engine: how its model is loaded, with the GPU first
//! where that is wanted and possible, and how a frame becomes text.

use vstd::prelude::*;
use crate::gpu::{detect_gpu_capabilities, gpu_capabilities_of, GpuProbe};
use crate::text::{str_equal, texts, trim_text, trimmed};

verus! {

/// The fewest samples that are handed to the model: a tenth of a second
/// at 16 kHz.
pub const MIN_SAMPLES: usize = 1600;

/// The backend that an engine ended up with.
#[derive(Debug, Clone, Copy, PartialEq, Eq, Structural)]
pub enum EngineMode {
    Gpu,
    Cpu,
}

/// Why the voice pipeline could not be set up.
#[derive(Debug)]
pub enum InitError {
    /// The machine has no audio input device.
    DeviceNotFound,
    /// The input device could not be opened at the configuration that it
    /// reports; the text says why.
    StreamOpenFailed(String),
    /// The model could not be loaded on the CPU; the text says why.
    ModelLoad(String),
}

/// Why a frame could not be transcribed.
#[derive(Debug)]
pub struct InferError {
    /// What the model reported.
    pub message: String,
}

impl InitError {
    /// What is reported for this failure.
    pub open spec fn text(self) -> Seq<char> {
        match self {
            InitError::DeviceNotFound =>
                "Failed to initialize audio recorder: No voice input device found!"@,
            InitError::StreamOpenFailed(cause) => "Failed to initialize audio recorder: "@ + cause@,
            InitError::ModelLoad(cause) => "Failed to initialize Whisper transcriber: "@ + cause@,
        }
    }

    /// What is reported for this failure.
    pub fn message(&self) -> (text: String)
        ensures
            text@ == self.text(),
    {
        match self {
            InitError::DeviceNotFound =>
                "Failed to initialize audio recorder: No voice input device found!".to_string(),
            InitError::StreamOpenFailed(cause) => {
                let mut text = "Failed to initialize audio recorder: ".to_string();
                text.append(cause.as_str());
                text
            },
            InitError::ModelLoad(cause) => {
                let mut text = "Failed to initialize Whisper transcriber: ".to_string();
                text.append(cause.as_str());
                text
            },
        }
    }
}

/// The name of a mode in status reports.
pub open spec fn mode_label(mode: EngineMode) -> Seq<char> {
    match mode {
        EngineMode::Gpu => "GPU"@,
        EngineMode::Cpu => "CPU"@,
    }
}

/// Whether the GPU is tried first: it is preferred and the machine shows
/// GPU support.
pub open spec fn tries_gpu(prefer_gpu: bool, has_gpu: bool) -> bool {
    prefer_gpu && has_gpu
}

/// Whether every load on the CPU succeeds.
pub open spec fn cpu_load_succeeds<C, L: Fn(bool) -> Result<C, String>>(load: L) -> bool {
    forall|outcome: Result<C, String>| call_ensures(load, (false,), outcome) ==> outcome is Ok
}

/// Whether `result` is what loading with fallback gives when `load` is
/// the loader: the GPU-backed model where the GPU is tried and loads; else
/// the CPU-backed model, or the CPU load's failure.
pub open spec fn is_load_result<C, L: Fn(bool) -> Result<C, String>>(
    result: Result<(C, EngineMode), InitError>,
    prefer_gpu: bool,
    has_gpu: bool,
    load: L,
) -> bool {
    match result {
        Ok((context, EngineMode::Gpu)) => tries_gpu(prefer_gpu, has_gpu) && call_ensures(
            load,
            (true,),
            Ok(context),
        ),
        Ok((context, EngineMode::Cpu)) => {
            &&& call_ensures(load, (false,), Ok(context))
            &&& tries_gpu(prefer_gpu, has_gpu) ==> exists|cause: String|
                call_ensures(load, (true,), Err::<C, String>(cause))
        },
        Err(InitError::ModelLoad(cause)) => {
            &&& call_ensures(load, (false,), Err::<C, String>(cause))
            &&& tries_gpu(prefer_gpu, has_gpu) ==> exists|gpu_cause: String|
                call_ensures(load, (true,), Err::<C, String>(gpu_cause))
        },
        Err(_) => false,
    }
}

/// Loads the model, with the GPU first where it is preferred and the
/// machine shows GPU support, and with the CPU where the GPU is not tried
/// or its load fails. `load` loads the model, GPU-backed for `true`. A
/// failure on the GPU is never the result: only a failure on the CPU is.
pub fn load_with_fallback<C, L: Fn(bool) -> Result<C, String>>(
    prefer_gpu: bool,
    has_gpu: bool,
    load: L,
) -> (result: Result<(C, EngineMode), InitError>)
    requires
        call_requires(load, (false,)),
        tries_gpu(prefer_gpu, has_gpu) ==> call_requires(load, (true,)),
    ensures
        is_load_result(result, prefer_gpu, has_gpu, load),
        cpu_load_succeeds(load) ==> result is Ok,
{
    if prefer_gpu && has_gpu {
        match load(true) {
            Ok(context) => {
                return Ok((context, EngineMode::Gpu));
            },
            Err(_) => {},
        }
    }
    match load(false) {
        Ok(context) => Ok((context, EngineMode::Cpu)),
        Err(cause) => Err(InitError::ModelLoad(cause)),
    }
}

/// On a machine without GPU support, or where the GPU is not preferred, a
/// model that loads on the CPU gives an engine in CPU mode.
pub proof fn lemma_cpu_mode_without_gpu<C, L: Fn(bool) -> Result<C, String>>(
    result: Result<(C, EngineMode), InitError>,
    prefer_gpu: bool,
    has_gpu: bool,
    load: L,
)
    requires
        is_load_result(result, prefer_gpu, has_gpu, load),
        !has_gpu || !prefer_gpu,
        cpu_load_succeeds(load),
    ensures
        result matches Ok((_, mode)) && mode == EngineMode::Cpu,
{
}

/// Loading fails only where a load on the CPU has failed, whatever
/// happened on the GPU.
pub proof fn lemma_only_cpu_failure_is_fatal<C, L: Fn(bool) -> Result<C, String>>(
    result: Result<(C, EngineMode), InitError>,
    prefer_gpu: bool,
    has_gpu: bool,
    load: L,
)
    requires
        is_load_result(result, prefer_gpu, has_gpu, load),
        result is Err,
    ensures
        exists|cause: String| call_ensures(load, (false,), Err::<C, String>(cause)),
{
    match result {
        Err(InitError::ModelLoad(cause)) => {
            assert(call_ensures(load, (false,), Err::<C, String>(cause)));
        },
        _ => {},
    }
}

/// The language that the model is pinned to: none where none is given or
/// where "auto" is given.
pub open spec fn pinned_language(language: Option<Seq<char>>) -> Option<Seq<char>> {
    match language {
        Some(code) => if code == "auto"@ {
            None
        } else {
            Some(code)
        },
        None => None,
    }
}

/// The characters of an optional text.
pub open spec fn text_of(s: Option<&str>) -> Option<Seq<char>> {
    match s {
        Some(t) => Some(t@),
        None => None,
    }
}

/// The texts of `segments` one after another.
pub open spec fn concatenated(segments: Seq<Seq<char>>) -> Seq<char>
    decreases segments.len(),
{
    if segments.len() == 0 {
        Seq::empty()
    } else {
        concatenated(segments.drop_last()) + segments.last()
    }
}

/// The transcript of a decoding pass: the segments one after another,
/// without the white space at both ends.
pub open spec fn transcript_of(segments: Seq<Seq<char>>) -> Seq<char> {
    trimmed(concatenated(segments))
}

/// Whether `result` is what a decoding pass with `outcome` is turned
/// into: the transcript of its segments, or its failure.
pub open spec fn is_transcript(
    result: Result<String, InferError>,
    outcome: Result<Vec<String>, String>,
) -> bool {
    match outcome {
        Ok(segments) => (result matches Ok(text) && text@ == transcript_of(texts(segments@))),
        Err(cause) => (result matches Err(error) && error.message@ == cause@),
    }
}

/// Whether `decode` accepts the model, the frame and the language that the
/// model is pinned to for `language`.
pub open spec fn is_decodable<T, C, F: Fn(&C, &[T], Option<&str>) -> Result<Vec<String>, String>>(
    engine_model: C,
    audio_data: &[T],
    language: Option<Seq<char>>,
    decode: F,
) -> bool {
    forall|model: &C, pinned: Option<&str>|
        *model == engine_model && text_of(pinned) == pinned_language(language) ==> call_requires(
            decode,
            (model, audio_data, pinned),
        )
}

/// Whether `result` is a transcription of `audio_data` by the model: the
/// empty text for a frame of fewer than `MIN_SAMPLES` samples; for a
/// longer frame, what one pass of `decode` on the model, the frame and the
/// pinned language is turned into.
pub open spec fn is_transcription<T, C, F: Fn(&C, &[T], Option<&str>) -> Result<Vec<String>, String>>(
    result: Result<String, InferError>,
    engine_model: C,
    audio_data: &[T],
    language: Option<Seq<char>>,
    decode: F,
) -> bool {
    if audio_data@.len() < MIN_SAMPLES {
        result matches Ok(text) && text@.len() == 0
    } else {
        exists|model: &C, pinned: Option<&str>, outcome: Result<Vec<String>, String>|
            {
                &&& *model == engine_model
                &&& text_of(pinned) == pinned_language(language)
                &&& call_ensures(decode, (model, audio_data, pinned), outcome)
                &&& is_transcript(result, outcome)
            }
    }
}

/// Picks the language that the model is pinned to.
pub fn pin_language<'a>(language: Option<&'a str>) -> (pinned: Option<&'a str>)
    ensures
        text_of(pinned) == pinned_language(text_of(language)),
{
    match language {
        Some(code) => if str_equal(code, "auto") {
            None
        } else {
            Some(code)
        },
        None => None,
    }
}

/// Puts the segments of a decoding pass together: one after another, and
/// without the white space at both ends.
pub fn assemble_transcript(segments: &Vec<String>) -> (text: String)
    ensures
        text@ == transcript_of(texts(segments@)),
{
    let mut whole = String::new();
    let mut i: usize = 0;
    while i < segments.len()
        invariant
            i <= segments@.len(),
            whole@ == concatenated(texts(segments@).subrange(0, i as int)),
        decreases segments@.len() - i,
    {
        let ghost next = texts(segments@).subrange(0, i + 1);
        assert(next.drop_last() =~= texts(segments@).subrange(0, i as int));
        assert(next.last() == segments@[i as int]@);
        whole.append(segments[i].as_str());
        i += 1;
    }
    assert(texts(segments@).subrange(0, i as int) =~= texts(segments@));
    trim_text(whole.as_str())
}

/// A loaded model together with the mode that it was loaded in.
pub struct WhisperTranscriber<C> {
    context: C,
    mode: EngineMode,
}

impl<C: Clone> Clone for WhisperTranscriber<C> {
    /// A second handle on the engine: what `C` gives as a copy of the
    /// model, in the same mode.
    fn clone(&self) -> (copy: Self)
        ensures
            copy.mode() == self.mode(),
            cloned(self.model(), copy.model()),
    {
        WhisperTranscriber { context: self.context.clone(), mode: self.mode }
    }
}

impl<C> WhisperTranscriber<C> {
    /// The loaded model.
    pub closed spec fn model(&self) -> C {
        self.context
    }

    /// The mode that the model was loaded in.
    pub closed spec fn mode(&self) -> EngineMode {
        self.mode
    }

    /// Builds an engine for a machine with the given probe: the model is
    /// loaded with fallback, and the GPU counts as supported where the
    /// probe shows any GPU support.
    pub fn new<L: Fn(bool) -> Result<C, String>>(prefer_gpu: bool, probe: &GpuProbe, load: L) -> (result:
        Result<Self, InitError>)
        requires
            call_requires(load, (false,)),
            tries_gpu(prefer_gpu, gpu_capabilities_of(probe@).0) ==> call_requires(load, (true,)),
        ensures
            is_load_result(
                match result {
                    Ok(engine) => Ok((engine.model(), engine.mode())),
                    Err(error) => Err(error),
                },
                prefer_gpu,
                gpu_capabilities_of(probe@).0,
                load,
            ),
            cpu_load_succeeds(load) ==> result is Ok,
    {
        let (has_gpu, _) = detect_gpu_capabilities(probe);
        match load_with_fallback(prefer_gpu, has_gpu, load) {
            Ok((context, mode)) => Ok(WhisperTranscriber { context, mode }),
            Err(error) => Err(error),
        }
    }

    /// The loaded model.
    pub fn context(&self) -> (context: &C)
        ensures
            *context == self.model(),
    {
        &self.context
    }

    /// The mode that the model was loaded in.
    pub fn engine_mode(&self) -> (mode: EngineMode)
        ensures
            mode == self.mode(),
    {
        self.mode
    }

    /// The name of the mode, for status reports: "GPU" or "CPU".
    pub fn get_mode_info(&self) -> (info: &'static str)
        ensures
            info@ == mode_label(self.mode()),
    {
        match self.mode {
            EngineMode::Gpu => "GPU",
            EngineMode::Cpu => "CPU",
        }
    }

    /// Transcribes a frame of 16 kHz samples.
    ///
    /// A frame of fewer than `MIN_SAMPLES` samples gives the empty text,
    /// and `decode` is not called for it: its precondition is asked for
    /// longer frames only. A longer frame is decoded in one pass of
    /// `decode`, which is handed the model, the frame and the language to
    /// pin the model to, and returns the text of each segment in order. The
    /// result is the transcript of those segments, or the failure of the
    /// pass.
    pub fn transcribe<T, F: Fn(&C, &[T], Option<&str>) -> Result<Vec<String>, String>>(
        &self,
        audio_data: &[T],
        language: Option<&str>,
        decode: F,
    ) -> (result: Result<String, InferError>)
        requires
            audio_data@.len() >= MIN_SAMPLES ==> is_decodable(
                self.model(),
                audio_data,
                text_of(language),
                decode,
            ),
        ensures
            is_transcription(result, self.model(), audio_data, text_of(language), decode),
    {
        if audio_data.len() < MIN_SAMPLES {
            return Ok(String::new());
        }
        let pinned = pin_language(language);
        let outcome = decode(&self.context, audio_data, pinned);
        let result = match &outcome {
            Ok(segments) => Ok(assemble_transcript(segments)),
            Err(cause) => Err(InferError { message: cause.clone() }),
        };
        assert(is_transcript(result, outcome));
        result
    }
}

} // verus!
