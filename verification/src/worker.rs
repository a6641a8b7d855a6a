//! The recognition worker's work on one frame of the queue: transcribe
//! it, and hand what was said to the text injector.

use vstd::prelude::*;
use crate::config::{ConfigModel, VoiceConfig};
use crate::monitor::{frame_lasts_at_least, lasts_at_least};
use crate::text::{lemma_trimming_twice_is_trimming_once, str_equal, trim_text, trimmed};
use crate::transcriber::{
    concatenated,
    is_decodable,
    is_transcription,
    text_of,
    transcript_of,
    InferError,
    WhisperTranscriber,
};

verus! {

/// What became of a frame.
#[derive(Debug)]
pub enum FrameOutcome {
    /// The frame is shorter than the configured minimum duration and was
    /// not transcribed.
    Skipped,
    /// The frame was transcribed and holds no speech.
    NoSpeech,
    /// The text was delivered as keystrokes.
    Injected(String),
    /// The text could not be delivered.
    InjectFailed { text: String, cause: String },
    /// The frame could not be transcribed.
    Failed(InferError),
}

/// The language that the settings ask the engine for: none for "auto".
pub open spec fn requested_language(config: ConfigModel) -> Option<Seq<char>> {
    if config.language == "auto"@ {
        None
    } else {
        Some(config.language)
    }
}

/// Whether `outcome` is what the worker makes of a transcription: its
/// failure; no speech where the text is empty once it is trimmed; else the
/// trimmed text, delivered by `inject` or not.
pub open spec fn is_delivery<I: Fn(&str) -> Result<(), String>>(
    outcome: FrameOutcome,
    transcription: Result<String, InferError>,
    inject: I,
) -> bool {
    match transcription {
        Err(error) => outcome == FrameOutcome::Failed(error),
        Ok(text) => if trimmed(text@).len() == 0 {
            outcome is NoSpeech
        } else {
            exists|said: &str, delivery: Result<(), String>|
                {
                    &&& said@ == trimmed(text@)
                    &&& call_ensures(inject, (said,), delivery)
                    &&& match delivery {
                        Ok(_) => (outcome matches FrameOutcome::Injected(sent) && sent@ == said@),
                        Err(cause) => (outcome matches FrameOutcome::InjectFailed {
                            text: sent,
                            cause: why,
                        } && sent@ == said@ && why == cause),
                    }
                }
        },
    }
}

/// A transcript is trimmed as the engine hands it out, so that one that is
/// not empty is handed to the injector whole.
pub proof fn lemma_transcripts_are_delivered_whole(segments: Seq<Seq<char>>)
    ensures
        trimmed(transcript_of(segments)) == transcript_of(segments),
{
    lemma_trimming_twice_is_trimming_once(concatenated(segments));
}

/// Picks the language that the settings ask the engine for.
pub fn language_hint(config: &VoiceConfig) -> (language: Option<&str>)
    ensures
        text_of(language) == requested_language(config@),
{
    if str_equal(config.language.as_str(), "auto") {
        None
    } else {
        Some(config.language.as_str())
    }
}

/// Hands a transcription on: a text that is not empty once it is trimmed
/// goes to `inject`, which is called for nothing else.
pub fn deliver<I: Fn(&str) -> Result<(), String>>(
    transcription: Result<String, InferError>,
    inject: I,
) -> (outcome: FrameOutcome)
    requires
        forall|said: &str| call_requires(inject, (said,)),
    ensures
        is_delivery(outcome, transcription, inject),
{
    match transcription {
        Err(error) => FrameOutcome::Failed(error),
        Ok(text) => {
            let said = trim_text(text.as_str());
            if said.as_str().is_empty() {
                FrameOutcome::NoSpeech
            } else {
                let delivery = inject(said.as_str());
                match delivery {
                    Ok(_) => FrameOutcome::Injected(said),
                    Err(cause) => FrameOutcome::InjectFailed { text: said, cause },
                }
            }
        },
    }
}

/// Does the worker's work on one frame under the settings of the moment.
///
/// A frame shorter than the configured minimum duration is skipped. Any
/// other frame is transcribed in the language that the settings ask for,
/// and its text, where it holds any, is handed to `inject`. Whatever fails
/// is reported in the outcome: the worker goes on with the next frame.
pub fn process_frame<
    T,
    C,
    D: Fn(&C, &[T], Option<&str>) -> Result<Vec<String>, String>,
    I: Fn(&str) -> Result<(), String>,
>(
    frame: &[T],
    config: &VoiceConfig,
    transcriber: &WhisperTranscriber<C>,
    decode: D,
    inject: I,
) -> (outcome: FrameOutcome)
    requires
        lasts_at_least(frame@.len(), config@.min_duration) ==> is_decodable(
            transcriber.model(),
            frame,
            requested_language(config@),
            decode,
        ),
        forall|said: &str| call_requires(inject, (said,)),
    ensures
        !lasts_at_least(frame@.len(), config@.min_duration) ==> outcome is Skipped,
        lasts_at_least(frame@.len(), config@.min_duration) ==> exists|
            transcription: Result<String, InferError>,
        |
            is_transcription(
                transcription,
                transcriber.model(),
                frame,
                requested_language(config@),
                decode,
            ) && is_delivery(outcome, transcription, inject),
{
    if !frame_lasts_at_least(frame.len(), config.min_duration) {
        return FrameOutcome::Skipped;
    }
    let language = language_hint(config);
    let transcription = transcriber.transcribe(frame, language, decode);
    let ghost witness = transcription;
    let outcome = deliver(transcription, inject);
    assert(is_transcription(witness, transcriber.model(), frame, requested_language(config@), decode)
        && is_delivery(outcome, witness, inject));
    outcome
}

} // verus!
