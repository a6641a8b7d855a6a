//! The input monitor: it turns presses and releases of the trigger key
//! into recording sessions, and finished sessions into frames for the
//! recognition queue.

use vstd::prelude::*;
use crate::config::VoiceConfig;
use crate::hotkey::HotKey;
use crate::recorder::{AudioRecorder, RecorderModel};
use crate::resample::{is_resampled, mixes_neighbours, resampled_len};

verus! {

/// The shortest time, in milliseconds, that the trigger key must be held
/// for its recording to be processed. It filters accidental taps, whatever
/// the configured minimum duration.
pub const HOLD_FLOOR_MS: u64 = 500;

/// A keyboard event, as far as the monitor tells events apart.
#[derive(Debug, Clone, Copy, PartialEq, Eq, Structural)]
pub enum KeyEvent {
    /// A key of the trigger-key table went down.
    Press(HotKey),
    /// A key of the trigger-key table came up.
    Release(HotKey),
    /// Anything else that the keyboard reports.
    Other,
}

/// A recording in progress.
#[derive(Debug, Clone, Copy, PartialEq, Eq, Structural)]
pub struct Session {
    /// When the trigger key went down, in milliseconds on the monitor's
    /// clock.
    pub started_at: u64,
    /// The configured minimum duration at that moment, in milliseconds.
    pub min_duration: i64,
}

/// Whether the key that went up at `now` had been down for at least the
/// hold floor.
pub open spec fn held_long_enough(started_at: u64, now: u64) -> bool {
    now - started_at >= HOLD_FLOOR_MS
}

/// Whether a frame of `frame_len` samples at 16 kHz lasts at least
/// `min_duration` milliseconds.
pub open spec fn lasts_at_least(frame_len: nat, min_duration: int) -> bool {
    frame_len * 1000 >= min_duration * 16_000
}

/// Whether the session that ends at `now` with a frame of `frame_len`
/// samples sends that frame on: the key was held for the hold floor, and
/// the frame is neither empty nor shorter than the minimum duration that
/// the session started with.
pub open spec fn is_emitted(session: Option<Session>, now: u64, frame_len: nat) -> bool {
    match session {
        Some(s) => held_long_enough(s.started_at, now) && frame_len > 0 && lasts_at_least(
            frame_len,
            s.min_duration as int,
        ),
        None => false,
    }
}

/// Whether an event starts a session: the service runs and is enabled, the
/// trigger key goes down, and no recording is in progress.
pub open spec fn starts_session(
    event: KeyEvent,
    target: HotKey,
    running: bool,
    enabled: bool,
    armed: bool,
) -> bool {
    running && enabled && event == KeyEvent::Press(target) && !armed
}

/// Whether an event ends the session: the service runs, the trigger key
/// comes up, and a recording is in progress. A session that was started
/// ends in the same way after the service has been disabled.
pub open spec fn ends_session(event: KeyEvent, target: HotKey, running: bool, armed: bool) -> bool {
    running && event == KeyEvent::Release(target) && armed
}

/// The monitor of one trigger key.
pub struct InputMonitor {
    target: HotKey,
    session: Option<Session>,
}

/// A monitor as plain values.
pub struct MonitorModel {
    /// The trigger key.
    pub target: HotKey,
    /// The recording in progress, if the monitor started one.
    pub session: Option<Session>,
}

impl View for InputMonitor {
    type V = MonitorModel;

    closed spec fn view(&self) -> MonitorModel {
        MonitorModel { target: self.target, session: self.session }
    }
}

/// Tests whether a frame of `frame_len` samples at 16 kHz lasts at least
/// `min_duration` milliseconds.
pub fn frame_lasts_at_least(frame_len: usize, min_duration: i64) -> (enough: bool)
    ensures
        enough == lasts_at_least(frame_len as nat, min_duration as int),
{
    let have: i128 = (frame_len as i128) * 1000;
    let need: i128 = (min_duration as i128) * 16_000;
    have >= need
}

/// A key held for less than the hold floor never sends a frame on,
/// however long the frame and whatever the minimum duration.
pub proof fn lemma_short_hold_is_dropped(session: Session, now: u64, frame_len: nat)
    requires
        now - session.started_at < HOLD_FLOOR_MS,
    ensures
        !is_emitted(Some(session), now, frame_len),
{
}

/// A key held for the hold floor or longer sends its frame on whenever the
/// frame lasts as long as the key was held and the minimum duration is no
/// longer than that.
pub proof fn lemma_long_hold_is_emitted(session: Session, now: u64, frame_len: nat)
    requires
        now - session.started_at >= HOLD_FLOOR_MS,
        frame_len >= (now - session.started_at) * 16,
        session.min_duration <= now - session.started_at,
    ensures
        is_emitted(Some(session), now, frame_len),
{
}

impl InputMonitor {
    /// A monitor of `target` with no recording in progress.
    pub fn new(target: HotKey) -> (monitor: Self)
        ensures
            monitor@ == (MonitorModel { target, session: None }),
    {
        InputMonitor { target, session: None }
    }

    /// The trigger key.
    pub fn target(&self) -> (key: HotKey)
        ensures
            key == self@.target,
    {
        self.target
    }

    /// The recording in progress, if the monitor started one.
    pub fn session(&self) -> (session: Option<Session>)
        ensures
            session == self@.session,
    {
        self.session
    }

    /// Handles one keyboard event that arrived at `now` milliseconds.
    ///
    /// `running` is the service's flag and `config` the live settings at
    /// this event. While the service does not run, every event is ignored.
    /// A press of the trigger key starts a session if the service is
    /// enabled and the recorder is idle: the recorder is armed and emptied,
    /// and the session keeps the minimum duration of that moment. A release
    /// of the trigger key ends the recording in progress, also when the
    /// service has been disabled meanwhile: the recorder is disarmed and
    /// its frame is returned if the session sends it on.
    pub fn on_key_event<T: Copy, F: Fn(T, T) -> T>(
        &mut self,
        event: KeyEvent,
        now: u64,
        running: bool,
        config: &VoiceConfig,
        recorder: &mut AudioRecorder<T>,
        mix: F,
    ) -> (frame: Option<Vec<T>>)
        requires
            ends_session(event, old(self)@.target, running, old(recorder)@.armed) ==> mixes_neighbours(
                old(recorder)@.samples,
                mix,
            ),
        ensures
            final(self)@.target == old(self)@.target,
            starts_session(event, old(self)@.target, running, config.enabled, old(recorder)@.armed) ==> {
                &&& frame is None
                &&& final(self)@.session == Some(
                    Session { started_at: now, min_duration: config.min_duration },
                )
                &&& final(recorder)@ == (RecorderModel {
                    armed: true,
                    samples: Seq::<T>::empty(),
                    ..old(recorder)@
                })
            },
            ends_session(event, old(self)@.target, running, old(recorder)@.armed) ==> {
                &&& final(self)@.session is None
                &&& final(recorder)@ == (RecorderModel { armed: false, ..old(recorder)@ })
                &&& frame is Some <==> is_emitted(
                    old(self)@.session,
                    now,
                    resampled_len(old(recorder)@.samples.len(), old(recorder)@.sample_rate),
                )
                &&& frame matches Some(f) ==> is_resampled(
                    f@,
                    old(recorder)@.samples,
                    old(recorder)@.sample_rate,
                    old(recorder)@.channels,
                    mix,
                )
            },
            !starts_session(event, old(self)@.target, running, config.enabled, old(recorder)@.armed)
                && !ends_session(event, old(self)@.target, running, old(recorder)@.armed) ==> {
                &&& frame is None
                &&& final(self)@ == old(self)@
                &&& final(recorder)@ == old(recorder)@
            },
    {
        if !running {
            return None;
        }
        match event {
            KeyEvent::Press(key) => {
                if key == self.target && config.enabled && !recorder.is_recording() {
                    self.session = Some(Session { started_at: now, min_duration: config.min_duration });
                    recorder.start_recording();
                }
                None
            },
            KeyEvent::Release(key) => {
                if key == self.target && recorder.is_recording() {
                    let audio = recorder.stop_recording(mix);
                    let emit = match self.session {
                        Some(s) => now >= s.started_at && now - s.started_at >= HOLD_FLOOR_MS
                            && audio.len() > 0 && frame_lasts_at_least(audio.len(), s.min_duration),
                        None => false,
                    };
                    self.session = None;
                    if emit {
                        Some(audio)
                    } else {
                        None
                    }
                } else {
                    None
                }
            },
            KeyEvent::Other => None,
        }
    }
}

} // verus!
