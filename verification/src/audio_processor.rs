//! The audio thread's part of the plugin: it takes the host's parameter
//! changes, and for each block of audio says what is to be rendered.

use crate::shared::PicosineShared;
use crate::shared::FREQUENCY_PARAM;
use crate::shared::GAIN;
use std::sync::atomic::Ordering;
use vstd::prelude::*;

verus! {

/// A new value for a parameter, as the host sends it. The value is a binary64
/// bit pattern.
#[derive(Clone, Copy, Debug)]
pub struct ParamChange {
    pub param_id: u32,
    pub value: u64,
}

/// Whether every change in `events` is for a parameter that the plugin has.
pub open spec fn all_known(events: Seq<ParamChange>) -> bool {
    forall|i: int| 0 <= i < events.len() ==> (#[trigger] events[i]).param_id == FREQUENCY_PARAM
}

/// The position of the first change in `events` that is for a parameter the
/// plugin does not have, if there is one.
pub fn first_unknown(events: &[ParamChange]) -> (found: Option<usize>)
    ensures
        found is None <==> all_known(events@),
        found matches Some(at) ==> {
            &&& at < events@.len()
            &&& events@[at as int].param_id != FREQUENCY_PARAM
            &&& all_known(events@.take(at as int))
        },
{
    let mut at: usize = 0;
    while at < events.len()
        invariant
            at <= events@.len(),
            all_known(events@.take(at as int)),
        decreases events@.len() - at,
    {
        if events[at].param_id != FREQUENCY_PARAM {
            return Some(at);
        }
        assert forall|i: int| 0 <= i < at + 1 implies (#[trigger] events@.take(
            at + 1,
        )[i]).param_id == FREQUENCY_PARAM by {
            if i < at {
                assert(events@.take(at as int)[i] == events@[i]);
            }
        }
        at += 1;
    }
    assert(events@.take(at as int) =~= events@);
    None
}

/// What is to be rendered for one block of audio. Sample `i` of every output
/// channel, for `i` below `frames_count`, is
/// `sin(2π · freq_hz · (time_sc + i) / rate_hz) · gain_factor`.
/// The three factors are binary64 bit patterns.
#[derive(Clone, Copy, Debug)]
pub struct RenderBlock {
    pub freq_hz: u64,
    pub rate_hz: u64,
    pub gain_factor: u64,
    pub time_sc: u32,
    pub frames_count: u32,
}

impl RenderBlock {
    /// The time of sample `idx` of the block: the time the block starts at
    /// and `idx` more. Within a block the time does not wrap.
    pub fn sample_time(&self, idx: u32) -> (time: u64)
        ensures
            time == self.time_sc + idx,
    {
        self.time_sc as u64 + idx as u64
    }
}

/// The state of an audio processor, as its contracts speak of it.
pub struct AudioProcessorView {
    pub rate_hz: u64,
    pub gain_factor: u64,
    pub time_sc: u32,
}

/// The audio thread's state: the sample rate and the gain, both fixed at
/// activation, and the count of samples rendered so far, which wraps.
pub struct PicosineAudioProcessor<'a> {
    shared: &'a PicosineShared,
    rate_hz: u64,
    gain_factor: u64,
    time_sc: u32,
}

impl<'a> View for PicosineAudioProcessor<'a> {
    type V = AudioProcessorView;

    closed spec fn view(&self) -> AudioProcessorView {
        AudioProcessorView {
            rate_hz: self.rate_hz,
            gain_factor: self.gain_factor,
            time_sc: self.time_sc,
        }
    }
}

impl<'a> PicosineAudioProcessor<'a> {
    /// The shared state that the processor stores the frequency in.
    pub closed spec fn shared(&self) -> &PicosineShared {
        self.shared
    }

    /// The processor of a plugin that the host activates at the sample rate
    /// with the bit pattern `sample_rate`.
    pub fn activate(shared: &'a PicosineShared, sample_rate: u64) -> (processor: Self)
        ensures
            processor.shared() == shared,
            processor@.rate_hz == sample_rate,
            processor@.gain_factor == GAIN,
            processor@.time_sc == 0,
    {
        Self { shared, rate_hz: sample_rate, gain_factor: GAIN, time_sc: 0 }
    }

    /// Stores the value of every change, in order, as the frequency. The
    /// processor itself stays as it is.
    pub fn handle_events(&mut self, events: &[ParamChange])
        requires
            all_known(events@),
        ensures
            *final(self) == *old(self),
    {
        let mut at: usize = 0;
        while at < events.len()
            invariant
                at <= events@.len(),
                all_known(events@),
            decreases events@.len() - at,
        {
            let event = events[at];
            assert(event.param_id == FREQUENCY_PARAM);
            self.shared.freq_hz.store(event.value, Ordering::Relaxed);
            at += 1;
        }
    }

    /// Takes one block of `frames_count` samples: handles the changes, reads
    /// the frequency, and moves the time on by the length of the block,
    /// modulo 2^32. The block returned starts at the time before the call.
    pub fn process(&mut self, events: &[ParamChange], frames_count: u32) -> (block: RenderBlock)
        requires
            all_known(events@),
        ensures
            block.rate_hz == old(self)@.rate_hz,
            block.gain_factor == old(self)@.gain_factor,
            block.time_sc == old(self)@.time_sc,
            block.frames_count == frames_count,
            final(self).shared() == old(self).shared(),
            final(self)@.rate_hz == old(self)@.rate_hz,
            final(self)@.gain_factor == old(self)@.gain_factor,
            final(self)@.time_sc == (old(self)@.time_sc + frames_count) % 0x1_0000_0000,
    {
        self.handle_events(events);
        let freq_hz = self.shared.freq_hz.load(Ordering::Relaxed);
        let block = RenderBlock {
            freq_hz,
            rate_hz: self.rate_hz,
            gain_factor: self.gain_factor,
            time_sc: self.time_sc,
            frames_count,
        };
        self.time_sc = self.time_sc.wrapping_add(frames_count);
        block
    }

    /// The sample rate, as a bit pattern.
    pub fn rate_hz(&self) -> (rate_hz: u64)
        ensures
            rate_hz == self@.rate_hz,
    {
        self.rate_hz
    }

    /// The gain, as a bit pattern.
    pub fn gain_factor(&self) -> (gain_factor: u64)
        ensures
            gain_factor == self@.gain_factor,
    {
        self.gain_factor
    }

    /// The count of samples rendered so far, modulo 2^32.
    pub fn time_sc(&self) -> (time_sc: u32)
        ensures
            time_sc == self@.time_sc,
    {
        self.time_sc
    }
}

} // verus!
