//! The operations that the shell calls: save the settings, set the voice
//! pipeline up, start and stop it, and report on it.

use vstd::prelude::*;
use crate::config::{
    first_violation,
    is_valid,
    validate_voice_config,
    violation_text,
    ConfigModel,
    VoiceConfig,
};
use crate::gpu::{gpu_capabilities_of, GpuProbe};
use crate::processor::{
    is_build_result,
    is_level_read,
    is_readable,
    ProcessorModel,
    ProcessorState,
    VoiceProcessor,
};
use crate::transcriber::{cpu_load_succeeds, mode_label, tries_gpu, EngineMode, InitError};

verus! {

/// What the shell holds of the voice pipeline: the settings, and the
/// processor once one has been built.
pub struct VoiceRecognitionState<R, C> {
    /// The settings that were last saved or loaded.
    pub config: VoiceConfig,
    /// The processor, once the pipeline has been set up.
    pub processor: Option<VoiceProcessor<R, C>>,
    /// Whether the pipeline has ever been set up.
    pub is_initialized: bool,
}

/// A report on the voice pipeline. `L` is the measure of the audio level.
#[derive(Debug)]
pub struct VoiceStatus<L> {
    /// Whether the pipeline has ever been set up.
    pub is_initialized: bool,
    /// Whether the service answers the trigger key.
    pub is_running: bool,
    /// The engine's mode, where there is an engine.
    pub mode_info: Option<String>,
    /// The level of the audio that is being captured, where there is a
    /// recorder.
    pub audio_level: Option<L>,
}

/// What `start_voice_recognition` reports where no processor has been
/// built.
pub open spec fn start_refusal() -> Seq<char> {
    "Voice recognition not initialized. Call initialize_voice_recognition first."@
}

/// What `stop_voice_recognition` reports where no processor has been
/// built.
pub open spec fn stop_refusal() -> Seq<char> {
    "Voice recognition not initialized."@
}

/// The summary of a pipeline that was set up in `mode` with the trigger
/// key named `hotkey`.
pub open spec fn init_summary(mode: EngineMode, hotkey: Seq<char>) -> Seq<char> {
    "Voice recognition reinitialized successfully ("@ + mode_label(mode) + ") with hotkey: "@
        + hotkey
}

/// What is reported where the processor could not be built.
pub open spec fn init_failure(error: InitError) -> Seq<char> {
    "Failed to initialize voice recognition: "@ + error.text()
}

impl<R, C> VoiceRecognitionState<R, C> {
    /// Where the pipeline is in its life.
    pub open spec fn lifecycle(&self) -> ProcessorState {
        match self.processor {
            Some(processor) => processor@.state,
            None => ProcessorState::Uninitialized,
        }
    }

    /// A shell that has set nothing up yet.
    pub fn new(config: VoiceConfig) -> (state: Self)
        ensures
            state.config == config,
            state.processor is None,
            !state.is_initialized,
            state.lifecycle() == ProcessorState::Uninitialized,
    {
        VoiceRecognitionState { config, processor: None, is_initialized: false }
    }

    /// Where the pipeline is in its life.
    pub fn state(&self) -> (state: ProcessorState)
        ensures
            state == self.lifecycle(),
    {
        match &self.processor {
            Some(processor) => processor.state(),
            None => ProcessorState::Uninitialized,
        }
    }
}

/// Validates `config`, stores it with `persist`, and applies it to the
/// shell and to the processor, where there is one.
///
/// A record that breaks a rule is rejected with the rule in words; it is
/// neither stored nor applied, and `persist` is not called for it. A
/// record that cannot be stored is rejected with what `persist` reports,
/// and is not applied.
pub fn save_voice_config_cmd<R, C, P: FnOnce(&VoiceConfig) -> Result<(), String>>(
    state: &mut VoiceRecognitionState<R, C>,
    config: VoiceConfig,
    model_exists: bool,
    persist: P,
) -> (result: Result<(), String>)
    requires
        is_valid(config@, model_exists) ==> forall|record: &VoiceConfig|
            record@ == config@ ==> call_requires(persist, (record,)),
    ensures
        match first_violation(config@, model_exists) {
            Some(error) => {
                &&& result matches Err(text) && text@ == violation_text(error, config@)
                &&& *final(state) == *old(state)
            },
            None => exists|record: &VoiceConfig, stored: Result<(), String>|
                {
                    &&& record@ == config@
                    &&& call_ensures(persist, (record,), stored)
                    &&& result == stored
                    &&& stored is Err ==> *final(state) == *old(state)
                    &&& stored is Ok ==> {
                        &&& final(state).config@ == config@
                        &&& final(state).is_initialized == old(state).is_initialized
                        &&& match (old(state).processor, final(state).processor) {
                            (Some(before), Some(after)) => {
                                &&& after@ == (ProcessorModel { config: config@, ..before@ })
                                &&& after.recorder_handle() == before.recorder_handle()
                                &&& after.engine() == before.engine()
                            },
                            (None, None) => true,
                            _ => false,
                        }
                    }
                },
        },
{
    match validate_voice_config(&config, model_exists) {
        Err(text) => {
            return Err(text);
        },
        Ok(_) => {},
    }
    let stored = persist(&config);
    if stored.is_err() {
        return stored;
    }
    match state.processor.take() {
        Some(mut processor) => {
            processor.update_config(config.clone());
            state.processor = Some(processor);
        },
        None => {},
    }
    state.config = config;
    stored
}

/// Starts the service of a pipeline that has been set up. The result says
/// whether the input monitor has to be started with it. Without a
/// processor there is nothing to start.
pub fn start_voice_recognition<R, C>(state: &mut VoiceRecognitionState<R, C>) -> (result: Result<
    bool,
    String,
>)
    ensures
        match old(state).processor {
            Some(before) => {
                &&& result == Ok::<bool, String>(before@.start_spawns_monitor())
                &&& final(state).processor matches Some(after) && after@ == before@.started()
                    && after.recorder_handle() == before.recorder_handle() && after.engine()
                    == before.engine()
                &&& final(state).config == old(state).config
                &&& final(state).is_initialized == old(state).is_initialized
            },
            None => {
                &&& result matches Err(text) && text@ == start_refusal()
                &&& *final(state) == *old(state)
            },
        },
{
    match state.processor.take() {
        Some(mut processor) => {
            let spawn_monitor = processor.start();
            state.processor = Some(processor);
            Ok(spawn_monitor)
        },
        None => Err(
            "Voice recognition not initialized. Call initialize_voice_recognition first.".to_string(),
        ),
    }
}

/// Stops the service of a pipeline that has been set up. Without a
/// processor there is nothing to stop.
pub fn stop_voice_recognition<R, C>(state: &mut VoiceRecognitionState<R, C>) -> (result: Result<
    (),
    String,
>)
    ensures
        match old(state).processor {
            Some(before) => {
                &&& result is Ok
                &&& final(state).processor matches Some(after) && after@ == before@.stopped()
                    && after.recorder_handle() == before.recorder_handle() && after.engine()
                    == before.engine()
                &&& final(state).config == old(state).config
                &&& final(state).is_initialized == old(state).is_initialized
            },
            None => {
                &&& result matches Err(text) && text@ == stop_refusal()
                &&& *final(state) == *old(state)
            },
        },
{
    match state.processor.take() {
        Some(mut processor) => {
            processor.stop();
            state.processor = Some(processor);
            Ok(())
        },
        None => Err("Voice recognition not initialized.".to_string()),
    }
}

/// Reports on the pipeline. `read` reads the audio level off the
/// recorder; it is called only where there is a processor.
pub fn get_voice_status<R, C, L, F: FnOnce(&R) -> L>(
    state: &VoiceRecognitionState<R, C>,
    read: F,
) -> (status: VoiceStatus<L>)
    requires
        state.processor matches Some(processor) ==> is_readable(read, processor.recorder_handle()),
    ensures
        status.is_initialized == state.is_initialized,
        match state.processor {
            Some(processor) => {
                &&& status.is_running == processor@.running()
                &&& status.mode_info matches Some(info) && info@ == mode_label(processor@.mode)
                &&& status.audio_level matches Some(level) && is_level_read(
                    read,
                    processor.recorder_handle(),
                    level,
                )
            },
            None => {
                &&& !status.is_running
                &&& status.mode_info is None
                &&& status.audio_level is None
            },
        },
{
    match &state.processor {
        Some(processor) => {
            let is_running = processor.is_running();
            let mode_info = processor.transcriber().get_mode_info().to_string();
            let audio_level = processor.get_audio_level(read);
            VoiceStatus {
                is_initialized: state.is_initialized,
                is_running,
                mode_info: Some(mode_info),
                audio_level: Some(audio_level),
            }
        },
        None => VoiceStatus {
            is_initialized: state.is_initialized,
            is_running: false,
            mode_info: None,
            audio_level: None,
        },
    }
}

/// Whether `after` is `before` with its service stopped, where it has a
/// processor, and nothing else changed.
pub open spec fn is_stopped_form<R, C>(
    after: VoiceRecognitionState<R, C>,
    before: VoiceRecognitionState<R, C>,
) -> bool {
    &&& after.config == before.config
    &&& after.is_initialized == before.is_initialized
    &&& match (before.processor, after.processor) {
        (Some(old_processor), Some(new_processor)) => {
            &&& new_processor@ == old_processor@.stopped()
            &&& new_processor.recorder_handle() == old_processor.recorder_handle()
            &&& new_processor.engine() == old_processor.engine()
        },
        (None, None) => true,
        _ => false,
    }
}

/// Whether `after` holds the processor `built`, started, with the settings
/// that it was built with.
pub open spec fn is_installed<R, C>(
    after: VoiceRecognitionState<R, C>,
    built: VoiceProcessor<R, C>,
    config: ConfigModel,
) -> bool {
    &&& after.is_initialized
    &&& after.config@ == config
    &&& after.processor matches Some(processor) && processor@ == built@.started()
        && processor.recorder_handle() == built.recorder_handle() && processor.engine()
        == built.engine()
}

/// Sets the voice pipeline up with `config` and starts it.
///
/// The service of an earlier processor is stopped first. Then the record
/// is validated, a processor is built from it with `open` and `load`, and
/// the new processor takes the place of the earlier one and is started.
/// Where the record breaks a rule nothing is opened or loaded, and the
/// earlier processor stays, stopped; so it does where the new one cannot
/// be built. The result is the engine's mode and the trigger key in
/// words, or what went wrong.
pub fn initialize_voice_recognition<
    R,
    C,
    O: FnOnce() -> Result<R, InitError>,
    L: Fn(bool) -> Result<C, String>,
>(
    state: &mut VoiceRecognitionState<R, C>,
    config: VoiceConfig,
    model_exists: bool,
    probe: &GpuProbe,
    open: O,
    load: L,
) -> (result: Result<String, String>)
    requires
        is_valid(config@, model_exists) ==> {
            &&& call_requires(open, ())
            &&& call_requires(load, (false,))
            &&& tries_gpu(config.gpu_acceleration, gpu_capabilities_of(probe@).0) ==> call_requires(
                load,
                (true,),
            )
        },
    ensures
        match first_violation(config@, model_exists) {
            Some(error) => {
                &&& result matches Err(text) && text@ == violation_text(error, config@)
                &&& is_stopped_form(*final(state), *old(state))
            },
            None => exists|built: Result<VoiceProcessor<R, C>, InitError>|
                {
                    &&& is_build_result(built, config@, gpu_capabilities_of(probe@).0, open, load)
                    &&& match built {
                        Ok(processor) => {
                            &&& result matches Ok(summary) && summary@ == init_summary(
                                processor@.mode,
                                config@.hotkey,
                            )
                            &&& is_installed(*final(state), processor, config@)
                        },
                        Err(error) => {
                            &&& result matches Err(text) && text@ == init_failure(error)
                            &&& is_stopped_form(*final(state), *old(state))
                        },
                    }
                },
        },
        is_valid(config@, model_exists) && (forall|opened: Result<R, InitError>|
            call_ensures(open, (), opened) ==> opened is Ok) && cpu_load_succeeds(load)
            ==> result is Ok,
{
    match state.processor.take() {
        Some(mut processor) => {
            processor.stop();
            state.processor = Some(processor);
        },
        None => {},
    }
    match validate_voice_config(&config, model_exists) {
        Err(text) => {
            return Err(text);
        },
        Ok(_) => {},
    }
    let built = VoiceProcessor::new(config.clone(), probe, open, load);
    match built {
        Err(error) => {
            let mut text = "Failed to initialize voice recognition: ".to_string();
            let cause = error.message();
            text.append(cause.as_str());
            assert(is_build_result(
                Err::<VoiceProcessor<R, C>, InitError>(error),
                config@,
                gpu_capabilities_of(probe@).0,
                open,
                load,
            ));
            Err(text)
        },
        Ok(mut processor) => {
            let ghost fresh = processor;
            let mut summary = "Voice recognition reinitialized successfully (".to_string();
            summary.append(processor.transcriber().get_mode_info());
            summary.append(") with hotkey: ");
            summary.append(config.hotkey.as_str());
            processor.start();
            state.processor = Some(processor);
            state.is_initialized = true;
            state.config = config;
            assert(is_build_result(
                Ok::<VoiceProcessor<R, C>, InitError>(fresh),
                state.config@,
                gpu_capabilities_of(probe@).0,
                open,
                load,
            ));
            Ok(summary)
        },
    }
}

} // verus!
