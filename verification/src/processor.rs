//! The voice processor: the engine and the recorder under one lifecycle,
//! with the live settings.

use vstd::prelude::*;
use crate::config::{ConfigModel, VoiceConfig};
use crate::gpu::{gpu_capabilities_of, GpuProbe};
use crate::transcriber::{
    cpu_load_succeeds,
    is_load_result,
    tries_gpu,
    EngineMode,
    InitError,
    WhisperTranscriber,
};

verus! {

/// Where a voice processor is in its life.
#[derive(Debug, Clone, Copy, PartialEq, Eq, Structural)]
pub enum ProcessorState {
    /// No engine and no recorder have been built.
    Uninitialized,
    /// The engine and the recorder have been built; the service has not
    /// been started.
    Initialized,
    /// The service answers the trigger key.
    Running,
    /// The service has been started and then stopped.
    Stopped,
}

/// A voice processor as plain values.
pub struct ProcessorModel {
    /// The live settings.
    pub config: ConfigModel,
    /// Where the processor is in its life.
    pub state: ProcessorState,
    /// Whether the input monitor has been started.
    pub monitor_started: bool,
    /// The mode that the engine was loaded in.
    pub mode: EngineMode,
}

impl ProcessorModel {
    /// Whether the service answers the trigger key.
    pub open spec fn running(self) -> bool {
        self.state == ProcessorState::Running
    }

    /// The processor after the service has been started.
    pub open spec fn started(self) -> ProcessorModel {
        ProcessorModel { state: ProcessorState::Running, monitor_started: true, ..self }
    }

    /// The processor after the service has been stopped.
    pub open spec fn stopped(self) -> ProcessorModel {
        ProcessorModel { state: ProcessorState::Stopped, ..self }
    }

    /// Whether starting the service has to start the input monitor: only
    /// the first start of a processor does.
    pub open spec fn start_spawns_monitor(self) -> bool {
        !self.monitor_started
    }
}

/// Starting a service twice in a row is starting it once: the second
/// start changes nothing and starts no second input monitor.
pub proof fn lemma_start_is_idempotent(processor: ProcessorModel)
    ensures
        processor.started().started() == processor.started(),
        !processor.started().start_spawns_monitor(),
        processor.started().running(),
{
}

/// A stopped service can be started again: it runs, with the input
/// monitor that it had.
pub proof fn lemma_restart_after_stop(processor: ProcessorModel)
    ensures
        processor.started().stopped().state == ProcessorState::Stopped,
        processor.started().stopped().started() == processor.started(),
        !processor.started().stopped().start_spawns_monitor(),
{
}

/// Stopping a service twice in a row is stopping it once, and stopping
/// starts no input monitor and forgets none.
pub proof fn lemma_stop_is_idempotent(processor: ProcessorModel)
    ensures
        processor.stopped().stopped() == processor.stopped(),
        !processor.stopped().running(),
        processor.stopped().monitor_started == processor.monitor_started,
{
}

/// The engine and the recorder of the voice pipeline, with the live
/// settings and the service's flag. `R` is the handle of the recorder that
/// the audio device fills, `C` the loaded model.
pub struct VoiceProcessor<R, C> {
    recorder: R,
    transcriber: WhisperTranscriber<C>,
    config: VoiceConfig,
    state: ProcessorState,
    monitor_started: bool,
}

impl<R, C> View for VoiceProcessor<R, C> {
    type V = ProcessorModel;

    closed spec fn view(&self) -> ProcessorModel {
        ProcessorModel {
            config: self.config@,
            state: self.state,
            monitor_started: self.monitor_started,
            mode: self.transcriber.mode(),
        }
    }
}

/// Whether `read` accepts the recorder behind `handle`.
pub open spec fn is_readable<R, L, F: FnOnce(&R) -> L>(read: F, handle: R) -> bool {
    forall|recorder: &R| *recorder == handle ==> call_requires(read, (recorder,))
}

/// Whether `level` is what `read` can read off the recorder behind
/// `handle`.
pub open spec fn is_level_read<R, L, F: FnOnce(&R) -> L>(read: F, handle: R, level: L) -> bool {
    exists|recorder: &R| *recorder == handle && call_ensures(read, (recorder,), level)
}

/// Whether `result` is what building a processor gives when `open` opens
/// the recorder and `load` loads the model: the recorder's failure, where
/// it fails; else the failure of loading with fallback, where that fails;
/// else a processor that holds both, with the given settings, not yet
/// started.
pub open spec fn is_build_result<R, C, O: FnOnce() -> Result<R, InitError>, L: Fn(bool) -> Result<
    C,
    String,
>>(
    result: Result<VoiceProcessor<R, C>, InitError>,
    config: ConfigModel,
    has_gpu: bool,
    open: O,
    load: L,
) -> bool {
    match result {
        Ok(processor) => {
            &&& call_ensures(open, (), Ok::<R, InitError>(processor.recorder_handle()))
            &&& is_load_result(
                Ok((processor.engine().model(), processor.engine().mode())),
                config.gpu_acceleration,
                has_gpu,
                load,
            )
            &&& processor@ == (ProcessorModel {
                config,
                state: ProcessorState::Initialized,
                monitor_started: false,
                mode: processor.engine().mode(),
            })
        },
        Err(error) => {
            ||| call_ensures(open, (), Err::<R, InitError>(error))
            ||| {
                &&& exists|recorder: R| call_ensures(open, (), Ok::<R, InitError>(recorder))
                &&& is_load_result(Err::<(C, EngineMode), InitError>(error), config.gpu_acceleration, has_gpu, load)
            }
        },
    }
}

impl<R, C> VoiceProcessor<R, C> {
    #[verifier::type_invariant]
    spec fn well_formed(&self) -> bool {
        &&& self.state != ProcessorState::Uninitialized
        &&& self.state == ProcessorState::Running ==> self.monitor_started
    }

    /// The handle of the recorder.
    pub closed spec fn recorder_handle(&self) -> R {
        self.recorder
    }

    /// The recognition engine.
    pub closed spec fn engine(&self) -> WhisperTranscriber<C> {
        self.transcriber
    }

    /// Builds a processor: opens the recorder with `open`, then loads the
    /// model with fallback, GPU first where `config` prefers it and the
    /// probe shows GPU support. Where the recorder cannot be opened the
    /// model is not loaded.
    pub fn new<O: FnOnce() -> Result<R, InitError>, L: Fn(bool) -> Result<C, String>>(
        config: VoiceConfig,
        probe: &GpuProbe,
        open: O,
        load: L,
    ) -> (result: Result<Self, InitError>)
        requires
            call_requires(open, ()),
            call_requires(load, (false,)),
            tries_gpu(config.gpu_acceleration, gpu_capabilities_of(probe@).0) ==> call_requires(
                load,
                (true,),
            ),
        ensures
            is_build_result(result, config@, gpu_capabilities_of(probe@).0, open, load),
            (forall|opened: Result<R, InitError>| call_ensures(open, (), opened) ==> opened is Ok)
                && cpu_load_succeeds(load) ==> result is Ok,
    {
        let recorder = match open() {
            Ok(recorder) => recorder,
            Err(error) => {
                return Err(error);
            },
        };
        let transcriber = match WhisperTranscriber::new(config.gpu_acceleration, probe, load) {
            Ok(transcriber) => transcriber,
            Err(error) => {
                return Err(error);
            },
        };
        Ok(
            VoiceProcessor {
                recorder,
                transcriber,
                config,
                state: ProcessorState::Initialized,
                monitor_started: false,
            },
        )
    }

    /// Starts the service. Returns whether the input monitor has to be
    /// started with it: the first start of a processor says so, every
    /// later one does not, so that one processor never has two monitors.
    pub fn start(&mut self) -> (spawn_monitor: bool)
        ensures
            final(self)@ == old(self)@.started(),
            spawn_monitor == old(self)@.start_spawns_monitor(),
            final(self).recorder_handle() == old(self).recorder_handle(),
            final(self).engine() == old(self).engine(),
    {
        proof {
            use_type_invariant(&*self);
        }
        let spawn_monitor = !self.monitor_started;
        self.monitor_started = true;
        self.state = ProcessorState::Running;
        spawn_monitor
    }

    /// Stops the service: the input monitor ignores key events from its
    /// next event on. A frame that is already queued is not taken back.
    pub fn stop(&mut self)
        ensures
            final(self)@ == old(self)@.stopped(),
            final(self).recorder_handle() == old(self).recorder_handle(),
            final(self).engine() == old(self).engine(),
    {
        proof {
            use_type_invariant(&*self);
        }
        self.state = ProcessorState::Stopped;
    }

    /// Replaces the live settings.
    pub fn update_config(&mut self, new_config: VoiceConfig)
        ensures
            final(self)@ == (ProcessorModel { config: new_config@, ..old(self)@ }),
            final(self).recorder_handle() == old(self).recorder_handle(),
            final(self).engine() == old(self).engine(),
    {
        proof {
            use_type_invariant(&*self);
        }
        self.config = new_config;
    }

    /// A copy of the live settings.
    pub fn get_config(&self) -> (config: VoiceConfig)
        ensures
            config@ == self@.config,
    {
        self.config.clone()
    }

    /// Whether the service answers the trigger key.
    pub fn is_running(&self) -> (running: bool)
        ensures
            running == self@.running(),
    {
        self.state == ProcessorState::Running
    }

    /// Where the processor is in its life: never uninitialized, and
    /// running only with an input monitor.
    pub fn state(&self) -> (state: ProcessorState)
        ensures
            state == self@.state,
            state != ProcessorState::Uninitialized,
            state == ProcessorState::Running ==> self@.monitor_started,
    {
        proof {
            use_type_invariant(self);
        }
        self.state
    }

    /// The recognition engine.
    pub fn transcriber(&self) -> (engine: &WhisperTranscriber<C>)
        ensures
            *engine == self.engine(),
            engine.mode() == self@.mode,
    {
        &self.transcriber
    }

    /// The handle of the recorder.
    pub fn recorder(&self) -> (recorder: &R)
        ensures
            *recorder == self.recorder_handle(),
    {
        &self.recorder
    }

    /// The level of the audio that is being captured, as `read` reads it
    /// off the recorder.
    pub fn get_audio_level<L, F: FnOnce(&R) -> L>(&self, read: F) -> (level: L)
        requires
            is_readable(read, self.recorder_handle()),
        ensures
            is_level_read(read, self.recorder_handle(), level),
    {
        read(&self.recorder)
    }
}

} // verus!
