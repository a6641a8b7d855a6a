//! The capture buffer: armed by a key press, filled by the audio
//! callback, and read out as a 16 kHz frame when the key is released.

use vstd::prelude::*;
use vstd::slice::slice_subrange;
use crate::resample::{is_resampled, mixes_neighbours, resample};

verus! {

/// How many of the latest samples the level is measured on, at most.
pub const LEVEL_WINDOW: usize = 1024;

/// A recorder as plain values.
pub struct RecorderModel<T> {
    /// Whether captured samples are being kept.
    pub armed: bool,
    /// The samples kept since the recorder was last armed.
    pub samples: Seq<T>,
    /// The rate at which the device delivers samples, in Hz.
    pub sample_rate: nat,
    /// The number of interleaved channels that the device delivers.
    pub channels: nat,
}

/// Whether a buffer of `len` samples is within what this machine can
/// bring to the target rate.
pub open spec fn fits_buffer(len: nat) -> bool {
    len * 16_000 <= usize::MAX
}

/// The samples that the level is measured on: the latest `LEVEL_WINDOW`
/// samples, or all of them where there are fewer.
pub open spec fn level_window<T>(samples: Seq<T>) -> Seq<T> {
    if samples.len() <= LEVEL_WINDOW {
        samples
    } else {
        samples.subrange(samples.len() - LEVEL_WINDOW, samples.len() as int)
    }
}

/// The buffer that sits between the audio device and the recognition
/// queue.
pub struct AudioRecorder<T> {
    is_recording: bool,
    audio_data: Vec<T>,
    sample_rate: u32,
    channels: u16,
}

impl<T> View for AudioRecorder<T> {
    type V = RecorderModel<T>;

    closed spec fn view(&self) -> RecorderModel<T> {
        RecorderModel {
            armed: self.is_recording,
            samples: self.audio_data@,
            sample_rate: self.sample_rate as nat,
            channels: self.channels as nat,
        }
    }
}

impl<T> AudioRecorder<T> {
    #[verifier::type_invariant]
    spec fn well_formed(&self) -> bool {
        &&& self.sample_rate > 0
        &&& fits_buffer(self.audio_data@.len())
    }
}

impl<T: Copy> AudioRecorder<T> {
    /// A recorder for a device that delivers `channels` interleaved
    /// channels at `sample_rate` Hz: idle and empty. A device that reports
    /// a rate of zero gets none.
    pub fn new(sample_rate: u32, channels: u16) -> (recorder: Option<Self>)
        ensures
            sample_rate == 0 <==> recorder is None,
            recorder matches Some(r) ==> r@ == (RecorderModel {
                armed: false,
                samples: Seq::<T>::empty(),
                sample_rate: sample_rate as nat,
                channels: channels as nat,
            }),
    {
        if sample_rate == 0 {
            None
        } else {
            Some(AudioRecorder { is_recording: false, audio_data: Vec::new(), sample_rate, channels })
        }
    }

    /// Arms the recorder and empties the buffer of whatever an earlier
    /// recording left in it.
    pub fn start_recording(&mut self)
        ensures
            final(self)@ == (RecorderModel { armed: true, samples: Seq::<T>::empty(), ..old(self)@ }),
    {
        proof {
            use_type_invariant(&*self);
        }
        self.is_recording = true;
        self.audio_data = Vec::new();
    }

    /// Takes samples from the audio callback. An armed recorder appends
    /// them to the buffer; an idle one leaves them; so does one whose
    /// buffer would outgrow the machine with them.
    pub fn capture(&mut self, data: &[T])
        ensures
            final(self)@ == if old(self)@.armed && fits_buffer(old(self)@.samples.len() + data@.len()) {
                RecorderModel { samples: old(self)@.samples + data@, ..old(self)@ }
            } else {
                old(self)@
            },
    {
        proof {
            use_type_invariant(&*self);
        }
        if !self.is_recording {
            return ;
        }
        let limit: usize = usize::MAX / 16_000;
        let held: usize = self.audio_data.len();
        if data.len() > limit - held {
            return ;
        }
        let mut buffer: Vec<T> = Vec::new();
        core::mem::swap(&mut self.audio_data, &mut buffer);
        let ghost before = buffer@;
        let mut i: usize = 0;
        while i < data.len()
            invariant
                i <= data@.len(),
                before.len() + data@.len() <= limit,
                limit == usize::MAX / 16_000,
                buffer@ == before + data@.subrange(0, i as int),
            decreases data@.len() - i,
        {
            buffer.push(data[i]);
            i += 1;
            assert(buffer@ =~= before + data@.subrange(0, i as int));
        }
        assert(data@.subrange(0, i as int) =~= data@);
        self.audio_data = buffer;
    }

    /// Disarms the recorder and hands out the recording as a frame at the
    /// target rate. The buffer keeps its samples until the recorder is
    /// armed again.
    pub fn stop_recording<F: Fn(T, T) -> T>(&mut self, mix: F) -> (frame: Vec<T>)
        requires
            mixes_neighbours(old(self)@.samples, mix),
        ensures
            final(self)@ == (RecorderModel { armed: false, ..old(self)@ }),
            is_resampled(frame@, old(self)@.samples, old(self)@.sample_rate, old(self)@.channels, mix),
    {
        proof {
            use_type_invariant(&*self);
        }
        self.is_recording = false;
        let ghost scaled = self.audio_data@.len() * 16_000;
        let ghost rate = self.sample_rate as nat;
        assert(scaled / rate <= usize::MAX) by (nonlinear_arith)
            requires
                scaled <= usize::MAX,
                rate > 0,
        ;
        resample(self.audio_data.as_slice(), self.sample_rate, self.channels, mix)
    }

    /// Whether the recorder is armed.
    pub fn is_recording(&self) -> (armed: bool)
        ensures
            armed == self@.armed,
    {
        self.is_recording
    }

    /// The rate at which the device delivers samples, in Hz.
    pub fn sample_rate(&self) -> (rate: u32)
        ensures
            rate == self@.sample_rate,
            rate > 0,
    {
        proof {
            use_type_invariant(self);
        }
        self.sample_rate
    }

    /// The number of interleaved channels that the device delivers.
    pub fn channels(&self) -> (channels: u16)
        ensures
            channels == self@.channels,
    {
        self.channels
    }

    /// How many samples the buffer holds: never more than the machine can
    /// bring to the target rate.
    pub fn buffered_len(&self) -> (len: usize)
        ensures
            len == self@.samples.len(),
            fits_buffer(len as nat),
    {
        proof {
            use_type_invariant(self);
        }
        self.audio_data.len()
    }

    /// Measures the level of the latest samples with `measure`, which is
    /// handed the level window. An empty buffer has no level.
    pub fn get_audio_level<L, F: Fn(&[T]) -> L>(&self, measure: F) -> (level: Option<L>)
        requires
            forall|window: &[T]| window@ == level_window(self@.samples) ==> call_requires(measure, (window,)),
        ensures
            self@.samples.len() == 0 <==> level is None,
            level matches Some(l) ==> exists|window: &[T]|
                window@ == level_window(self@.samples) && call_ensures(measure, (window,), l),
    {
        let len: usize = self.audio_data.len();
        if len == 0 {
            return None;
        }
        let count: usize = if len < LEVEL_WINDOW {
            len
        } else {
            LEVEL_WINDOW
        };
        let window = slice_subrange(self.audio_data.as_slice(), len - count, len);
        assert(window@ =~= level_window(self@.samples));
        Some(measure(window))
    }
}

} // verus!
