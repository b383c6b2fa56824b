//! A waveform sound channel.
use vstd::prelude::*;
use crate::bits::{lemma_byte_fields, lemma_byte_shift};

verus! {

/// Waveform sound channel.
///
/// This struct only describes the waveform sampler of a sound channel; the voice and noise
/// features may replace its output.
#[derive(Clone, Copy)]
pub struct Channel {
    /// The 16-byte waveform: 32 4-bit samples, the low nibble of each byte first
    pub waveform: [u8; 16],
    /// The number of sound unit ticks between two samples
    pub frequency: u16,
    /// Ticks left before the next sample
    pub sample_clock: u16,
    /// Index of the sample being played among the 32 of the waveform
    pub sample_idx: usize,
    /// The sample currently being put out
    pub sample: u8,
}

/// The abstract state of a channel.
pub struct ChannelView {
    pub waveform: Seq<u8>,
    pub frequency: u16,
    pub sample_clock: u16,
    pub sample_idx: nat,
    pub sample: u8,
}

impl View for Channel {
    type V = ChannelView;

    open spec fn view(&self) -> ChannelView {
        ChannelView {
            waveform: self.waveform@, frequency: self.frequency, sample_clock: self.sample_clock,
            sample_idx: self.sample_idx as nat, sample: self.sample,
        }
    }
}

/// Sample `i` of a waveform: the low nibble of byte `i / 2` for even `i`, its high nibble for odd.
pub open spec fn waveform_sample(waveform: Seq<u8>, i: nat) -> u8 {
    let byte = waveform[(i / 2) as int];
    if i % 2 == 0 { byte & 0x0F } else { (byte >> 4u8) & 0x0F }
}

impl ChannelView {
    pub open spec fn wf(self) -> bool {
        self.waveform.len() == 16 && self.sample_idx < 32 && self.sample < 16
    }

    /// One sound unit tick: when the clock runs out it is reloaded with the frequency and the
    /// next sample of the waveform is put out.
    pub open spec fn ticked(self) -> ChannelView {
        let clock: u16 = if self.sample_clock > 0 { (self.sample_clock - 1) as u16 } else { 0 };
        if clock == 0 {
            let idx = ((self.sample_idx + 1) % 32) as nat;
            ChannelView { sample_clock: self.frequency, sample_idx: idx, sample: waveform_sample(self.waveform, idx), ..self }
        } else {
            ChannelView { sample_clock: clock, ..self }
        }
    }
}

impl Channel {
    /// A silent channel.
    pub fn new() -> (r: Self)
        ensures
            r@ == (ChannelView { waveform: Seq::new(16, |i: int| 0u8), frequency: 0, sample_clock: 0, sample_idx: 0, sample: 0 }),
            r@.wf(),
    {
        let r = Channel { waveform: [0; 16], frequency: 0, sample_clock: 0, sample_idx: 0, sample: 0 };
        assert(r.waveform@ =~= Seq::new(16, |i: int| 0u8));
        r
    }

    /// Counts a sound unit tick and returns the sample currently being played.
    pub fn tick(&mut self) -> (r: u8)
        requires
            old(self)@.wf(),
        ensures
            final(self)@ == old(self)@.ticked(),
            final(self)@.wf(),
            r == final(self).sample,
            r < 16,
    {
        self.sample_clock = self.sample_clock.saturating_sub(1);
        if self.sample_clock == 0 {
            self.sample_clock = self.frequency;
            self.sample_idx = (self.sample_idx + 1) % 32;
            let byte = self.waveform[self.sample_idx / 2];
            let shift: u8 = if self.sample_idx % 2 == 0 { 0 } else { 4 };
            self.sample = (byte >> shift) & 0x0F;
            proof {
                lemma_byte_shift(byte, shift);
                lemma_byte_fields(byte);
            }
        }
        self.sample
    }
}

} // verus!
