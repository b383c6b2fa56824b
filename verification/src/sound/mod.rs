//! The sound unit: four waveform channels, with sweep on channel 3, voice on channel 2 and noise
//! on channel 4, mixed to one output sample per tick.
use vstd::prelude::*;
use crate::bits::{word, lo8, hi8, u16_from_le, lemma_byte_fields, lemma_word_fields};
use crate::bus::io_bus::IOView;
use crate::bus::mem_bus::{MemBus, MemView};
use crate::sound::channel::{Channel, ChannelView};

pub mod channel;

verus! {

/// The sound control port, 0x90.
#[derive(Clone, Copy, PartialEq, Eq, Structural, Debug)]
pub struct SoundControl {
    pub bits: u8,
}

impl SoundControl {
    pub const NOISE: u8 = 0b1000_0000;
    pub const SWEEP: u8 = 0b0100_0000;
    pub const VOICE: u8 = 0b0010_0000;
    pub const ENB4: u8 = 0b0000_1000;
    pub const ENB3: u8 = 0b0000_0100;
    pub const ENB2: u8 = 0b0000_0010;
    pub const ENB1: u8 = 0b0000_0001;

    pub open spec fn has(self, flag: u8) -> bool {
        self.bits & flag == flag
    }

    /// Whether all the bits of `flag` are set.
    pub fn contains(&self, flag: u8) -> (r: bool)
        ensures
            r == self.has(flag),
    {
        self.bits & flag == flag
    }
}

/// The sound unit.
pub struct Sound {
    pub channel_1: Channel,
    pub channel_2: Channel,
    pub channel_3: Channel,
    pub channel_4: Channel,
    pub control: SoundControl,
    pub sweep_clock: u64,
    pub step_clock: u64,
    pub noise_clock: u16,
    pub noise: Option<u8>,
}

/// The tap bit of the noise generator that the low three bits of the noise control port select.
pub open spec fn noise_tap(tap: u8) -> u16 {
    if tap == 0 { 14 } else if tap == 1 { 10 } else if tap == 2 { 13 } else if tap == 3 { 4 }
    else if tap == 4 { 8 } else if tap == 5 { 6 } else if tap == 6 { 9 } else { 11 }
}

/// The next state of the 15-bit noise shift register, and the bit it shifted in.
pub open spec fn lfsr_step(lfsr: u16, tap: u8) -> (u16, bool) {
    let l = lfsr & 0x7FFF;
    let tap_bit = (l >> noise_tap(tap & 7)) & 1;
    let random = (l >> 7u16) ^ tap_bit != 0;
    ((((l << 1u16) & 0x7FFF) | if random { 1u16 } else { 0u16 }), random)
}

/// The voice sample on one side: full with bit `full`, halved with bit `half`, else silent.
pub open spec fn voice_side(voice: u8, vol: u8, full: u8, half: u8) -> u8 {
    if vol & full != 0 { voice } else if vol & half != 0 { voice >> 1u8 } else { 0 }
}

/// A channel's contribution to the left and right sums: its sample times its left and right
/// volume, or, for the voice channel, the sample as the voice volume port scales it.
pub open spec fn mix_term(sample: u8, volume: u8, voiced: bool, voice_volume: u8) -> (int, int) {
    if voiced {
        (voice_side(sample, voice_volume, 4, 8) as int, voice_side(sample, voice_volume, 1, 2) as int)
    } else {
        ((sample * (volume >> 4u8)) % 0x100, (sample * (volume & 0x0F)) % 0x100)
    }
}

/// The output of the sound unit: the channels' contributions summed on each side, and the two
/// sides mixed and shifted down by the speaker range; with headphones, the two sides apart.
pub open spec fn spec_mix(samples: Seq<u8>, volumes: Seq<u8>, voice: bool, voice_volume: u8, out_ctrl: u8) -> (u16, u16) {
    let t0 = mix_term(samples[0], volumes[0], false, voice_volume);
    let t1 = mix_term(samples[1], volumes[1], voice, voice_volume);
    let t2 = mix_term(samples[2], volumes[2], false, voice_volume);
    let t3 = mix_term(samples[3], volumes[3], false, voice_volume);
    let l = t0.0 + t1.0 + t2.0 + t3.0;
    let r = t0.1 + t1.1 + t2.1 + t3.1;
    if out_ctrl & 0x80 != 0 {
        (l as u16, r as u16)
    } else {
        let out = (((l + r) / pow2_shift((out_ctrl >> 1u8) & 3)) % 0x100) as u16;
        (out, out)
    }
}

/// 2 to the power of a speaker range shift.
pub open spec fn pow2_shift(s: u8) -> int {
    if s == 0 { 1 } else if s == 1 { 2 } else if s == 2 { 4 } else { 8 }
}

fn channel_term(sample: u8, volume: u8, voiced: bool, voice_volume: u8) -> (r: (u16, u16))
    ensures
        r.0 == mix_term(sample, volume, voiced, voice_volume).0,
        r.1 == mix_term(sample, volume, voiced, voice_volume).1,
        r.0 <= 255,
        r.1 <= 255,
{
    if voiced {
        let l: u8 = if voice_volume & 4 != 0 { sample } else if voice_volume & 8 != 0 { sample >> 1 } else { 0 };
        let r: u8 = if voice_volume & 1 != 0 { sample } else if voice_volume & 2 != 0 { sample >> 1 } else { 0 };
        (l as u16, r as u16)
    } else {
        let hi = volume >> 4;
        let lo = volume & 0x0F;
        proof {
            lemma_byte_fields(volume);
        }
        assert(sample as u16 * hi as u16 <= 3825 && sample as u16 * lo as u16 <= 3825) by (nonlinear_arith)
            requires sample <= 255, hi <= 15, lo <= 15;
        ((sample as u16 * hi as u16) % 0x100, (sample as u16 * lo as u16) % 0x100)
    }
}

/// Mixes the channel samples into the output sample.
pub fn mix(samples: [u8; 4], volumes: [u8; 4], voice: bool, voice_volume: u8, out_ctrl: u8) -> (r: (u16, u16))
    ensures
        r == spec_mix(samples@, volumes@, voice, voice_volume, out_ctrl),
{
    let t0 = channel_term(samples[0], volumes[0], false, voice_volume);
    let t1 = channel_term(samples[1], volumes[1], voice, voice_volume);
    let t2 = channel_term(samples[2], volumes[2], false, voice_volume);
    let t3 = channel_term(samples[3], volumes[3], false, voice_volume);
    let left = t0.0 + t1.0 + t2.0 + t3.0;
    let right = t0.1 + t1.1 + t2.1 + t3.1;
    if out_ctrl & 0x80 != 0 {
        (left, right)
    } else {
        let shift = (out_ctrl >> 1) & 3;
        let divisor: u16 = if shift == 0 { 1 } else if shift == 1 { 2 } else if shift == 2 { 4 } else { 8 };
        let out = ((left + right) / divisor) % 0x100;
        (out, out)
    }
}

/// Channel 3's frequency after a sweep step: the 11-bit frequency plus the signed sweep amount,
/// 0 past 2047 and 2047 below 0.
pub open spec fn swept_frequency(f: u16, sweep: u8) -> u16 {
    let s: int = if sweep < 0x80 { sweep as int } else { sweep as int - 0x100 };
    let n = (f & 0x7FF) as int + s;
    if n > 2047 { 0 } else if n < 0 { 2047 } else { n as u16 }
}

/// The sweep of channel 3 over one tick, from the control bits, the two clocks and the ports:
/// with sweep and channel 3 on, every 8193rd tick a step passes; when the step counter is 0 it
/// reloads from port 0x8D minus 1 and the sweep amount of port 0x8C is applied to the frequency
/// ports 0x84 - 0x85. Gives the clocks and the ports after.
pub open spec fn spec_sweep(control: SoundControl, sweep_clock: u64, step_clock: u64, io: IOView) -> (u64, u64, IOView) {
    if !(control.has(SoundControl::SWEEP) && control.has(SoundControl::ENB3)) {
        (sweep_clock, step_clock, io)
    } else if sweep_clock + 1 <= 8192 {
        ((sweep_clock + 1) as u64, step_clock, io)
    } else if step_clock == 0 {
        let step = (((io.port(0x8D) & 0x1F) as int + 255) % 256) as u64;
        let f = swept_frequency(word(io.port(0x84), io.port(0x85)), io.port(0x8C));
        (0, step, io.write(0x84, lo8(f)).write(0x85, hi8(f)))
    } else {
        (0, (step_clock - 1) as u64, io)
    }
}

/// Channel 4's noise over one tick: with noise and channel 4 on and the generator enabled by port
/// 0x8E, every 2048 minus the frequency ticks (9 bits) the shift register of ports 0x92 - 0x93,
/// reset first when port 0x8E asks, steps with the tap port 0x8E selects, and the noise output is
/// 0xFF or 0 as the bit shifted in; with noise off there is no noise output. Gives the clock, the
/// output and the ports after.
pub open spec fn spec_noise(control: SoundControl, noise_clock: u16, noise: Option<u8>, io: IOView) -> (u16, Option<u8>, IOView) {
    if !(control.has(SoundControl::NOISE) && control.has(SoundControl::ENB4)) {
        (noise_clock, None, io)
    } else {
        let nc = io.port(0x8E);
        if nc & 0x10 == 0 {
            (noise_clock, noise, io)
        } else if noise_clock == 0 {
            let f = word(io.port(0x86), io.port(0x87));
            let clock = ((((0x10800 - f) as int) % 0x10000) as u16) & 0x1FF;
            let io1 = if nc & 0x08 != 0 { io.write(0x92, 0).write(0x8E, nc & 0xF7) } else { io };
            let (next, random) = lfsr_step(word(io1.port(0x92), io1.port(0x93)), nc & 7);
            (clock, Some(if random { 0xFFu8 } else { 0u8 }), io1.write(0x92, lo8(next)).write(0x93, hi8(next)))
        } else {
            ((noise_clock - 1) as u16, noise, io)
        }
    }
}

/// The 16 bytes of memory from an address.
pub open spec fn mem_bytes(m: MemView, addr: int) -> Seq<u8> {
    Seq::new(16, |i: int| m.read((addr + i) as u32))
}

/// A channel with its waveform loaded from memory and its frequency from two ports: it ticks
/// every 2048 minus their 11-bit value.
pub open spec fn loaded(c: ChannelView, m: MemView, waveform: int, port: u8) -> ChannelView {
    ChannelView {
        waveform: mem_bytes(m, waveform),
        frequency: (2048 - (word(m.io.port(port), m.io.port((port + 1) as u8)) & 0x7FF)) as u16,
        ..c
    }
}

/// A channel after a tick of the sound unit: it runs when enabled.
pub open spec fn run(c: ChannelView, enabled: bool) -> ChannelView {
    if enabled { c.ticked() } else { c }
}

/// A channel with a blank waveform that has not started.
pub open spec fn silent_channel() -> ChannelView {
    ChannelView { waveform: Seq::new(16, |i: int| 0u8), frequency: 0, sample_clock: 0, sample_idx: 0, sample: 0 }
}

/// A sound port's byte; reading it changes nothing.
fn sound_port(bus: &MemBus, addr: u16) -> (r: u8)
    requires
        bus.wf(),
        0x80 <= addr < 0xA0,
    ensures
        r == bus@.io.port(addr as u8),
{
    proof {
        lemma_word_fields(addr);
    }
    bus.io_bus.peek(addr)
}

/// What one tick of the sound unit does: the control port is latched, the sweep and the noise
/// generator advance, the waveforms and frequencies are loaded, the enabled channels run, and the
/// sample returned is the mix of the channels' outputs; only the sound ports of the bus change.
#[verifier::opaque]
pub open spec fn sound_ticked(s0: Sound, m0: MemView, s1: Sound, m1: MemView, r: (u16, u16)) -> bool {
    let control = SoundControl { bits: m0.io.port(0x90) };
    let (sc, stc, io1) = spec_sweep(control, s0.sweep_clock, s0.step_clock, m0.io);
    let (nc, n, io2) = spec_noise(control, s0.noise_clock, s0.noise, io1);
    let m = MemView { io: io2, ..m0 };
    let base = io2.port(0x8F) as int * 64;
    &&& m1 == m
    &&& s1.control == control
    &&& s1.sweep_clock == sc
    &&& s1.step_clock == stc
    &&& s1.noise_clock == nc
    &&& s1.noise == n
    &&& s1.channel_1@ == run(loaded(s0.channel_1@, m, base, 0x80), control.has(SoundControl::ENB1))
    &&& s1.channel_2@ == run(loaded(s0.channel_2@, m, base + 16, 0x82), control.has(SoundControl::ENB2))
    &&& s1.channel_3@ == run(loaded(s0.channel_3@, m, base + 32, 0x84), control.has(SoundControl::ENB3))
    &&& s1.channel_4@ == run(loaded(s0.channel_4@, m, base + 48, 0x86), control.has(SoundControl::ENB4))
    &&& r == s1.output(m1.io)
}

impl Sound {
    /// The samples the channels put out, as the control port selects them: a disabled channel
    /// is silent, channel 2 plays the voice port 0x89 in voice mode, and channel 4 the noise
    /// while it runs.
    pub open spec fn outputs(&self, io: IOView) -> Seq<u8> {
        let c = self.control;
        seq![
            if c.has(SoundControl::ENB1) { self.channel_1.sample } else { 0 },
            if c.has(SoundControl::VOICE) { io.port(0x89) } else if c.has(SoundControl::ENB2) { self.channel_2.sample } else { 0 },
            if c.has(SoundControl::ENB3) { self.channel_3.sample } else { 0 },
            match self.noise { Some(n) => n, None => if c.has(SoundControl::ENB4) { self.channel_4.sample } else { 0 } },
        ]
    }

    /// The output sample: the channel outputs mixed with the volumes of ports 0x88 - 0x8B, the
    /// voice volume of port 0x94 in voice mode, and the output control of port 0x91.
    pub open spec fn output(&self, io: IOView) -> (u16, u16) {
        let voice = self.control.has(SoundControl::VOICE);
        spec_mix(self.outputs(io), seq![io.port(0x88), io.port(0x89), io.port(0x8A), io.port(0x8B)], voice,
            if voice { io.port(0x94) } else { 0 }, io.port(0x91))
    }

    /// A silent sound unit.
    pub fn new() -> (r: Self)
        ensures
            r.wf(),
            r.control.bits == 0,
            r.noise is None,
            r.sweep_clock == 0,
            r.step_clock == 0,
            r.noise_clock == 0,
            r.channel_1@ == silent_channel(),
            r.channel_2@ == silent_channel(),
            r.channel_3@ == silent_channel(),
            r.channel_4@ == silent_channel(),
    {
        Sound {
            channel_1: Channel::new(), channel_2: Channel::new(), channel_3: Channel::new(), channel_4: Channel::new(),
            control: SoundControl { bits: 0 },
            sweep_clock: 0, step_clock: 0,
            noise_clock: 0, noise: None,
        }
    }

    pub open spec fn wf(&self) -> bool {
        &&& self.channel_1@.wf()
        &&& self.channel_2@.wf()
        &&& self.channel_3@.wf()
        &&& self.channel_4@.wf()
        &&& self.sweep_clock <= 8193
    }

    /// The sound unit before its channels run: the control port is read, the sweep and the noise
    /// step, and the channels' waveforms and frequencies are loaded.
    fn update(&mut self, bus: &mut MemBus)
        requires
            old(bus).wf(),
            old(self).wf(),
        ensures
            final(self).wf(),
            final(bus).wf(),
            ({
                let control = SoundControl { bits: old(bus)@.io.port(0x90) };
                let (sc, stc, io1) = spec_sweep(control, old(self).sweep_clock, old(self).step_clock, old(bus)@.io);
                let (nc, n, io2) = spec_noise(control, old(self).noise_clock, old(self).noise, io1);
                let m = MemView { io: io2, ..old(bus)@ };
                let base = io2.port(0x8F) as int * 64;
                &&& final(bus)@ == m
                &&& final(self).control == control
                &&& final(self).sweep_clock == sc
                &&& final(self).step_clock == stc
                &&& final(self).noise_clock == nc
                &&& final(self).noise == n
                &&& final(self).channel_1@ == loaded(old(self).channel_1@, m, base, 0x80)
                &&& final(self).channel_2@ == loaded(old(self).channel_2@, m, base + 16, 0x82)
                &&& final(self).channel_3@ == loaded(old(self).channel_3@, m, base + 32, 0x84)
                &&& final(self).channel_4@ == loaded(old(self).channel_4@, m, base + 48, 0x86)
            }),
    {
        self.control = SoundControl { bits: sound_port(bus, 0x90) };
        self.sweep(bus);
        self.noise(bus);
        self.load_waveforms(bus);
        self.load_frequencies(bus);
    }

    /// Produces the next output sample.
    pub fn tick(&mut self, bus: &mut MemBus) -> (r: (u16, u16))
        requires
            old(bus).wf(),
            old(self).wf(),
        ensures
            final(self).wf(),
            final(bus).wf(),
            sound_ticked(*old(self), old(bus)@, *final(self), final(bus)@, r),
    {
        proof {
            reveal(sound_ticked);
        }
        self.update(bus);
        let samples = self.channel_outputs(bus);
        let mut volumes = [0u8; 4];
        let mut i: usize = 0;
        while i < 4
            invariant
                i <= 4,
                bus.wf(),
                forall|j: int| 0 <= j < i ==> #[trigger] volumes@[j] == bus@.io.port((0x88 + j) as u8),
            decreases 4 - i,
        {
            volumes[i] = sound_port(bus, 0x88 + i as u16);
            i = i + 1;
        }
        let voice = self.control.contains(SoundControl::VOICE);
        let voice_volume = if voice { sound_port(bus, 0x94) } else { 0 };
        let out_ctrl = sound_port(bus, 0x91);
        assert(volumes@ == seq![bus@.io.port(0x88), bus@.io.port(0x89), bus@.io.port(0x8A), bus@.io.port(0x8B)]);
        mix(samples, volumes, voice, voice_volume, out_ctrl)
    }

    /// The samples the four channels put out.
    fn channel_outputs(&mut self, bus: &mut MemBus) -> (r: [u8; 4])
        requires
            old(bus).wf(),
            old(self).wf(),
        ensures
            final(self).wf(),
            final(bus).wf(),
            final(bus)@ == old(bus)@,
            r@ == final(self).outputs(final(bus)@.io),
            final(self).channel_1@ == run(old(self).channel_1@, old(self).control.has(SoundControl::ENB1)),
            final(self).channel_2@ == run(old(self).channel_2@, old(self).control.has(SoundControl::ENB2)),
            final(self).channel_3@ == run(old(self).channel_3@, old(self).control.has(SoundControl::ENB3)),
            final(self).channel_4@ == run(old(self).channel_4@, old(self).control.has(SoundControl::ENB4)),
            final(self).control == old(self).control,
            final(self).sweep_clock == old(self).sweep_clock,
            final(self).step_clock == old(self).step_clock,
            final(self).noise_clock == old(self).noise_clock,
            final(self).noise == old(self).noise,
    {
        let sample_2 = if self.control.contains(SoundControl::ENB2) { self.channel_2.tick() } else { 0 };
        let sample_4 = if self.control.contains(SoundControl::ENB4) { self.channel_4.tick() } else { 0 };
        let s1 = if self.control.contains(SoundControl::ENB1) { self.channel_1.tick() } else { 0 };
        let s2 = if self.control.contains(SoundControl::VOICE) { sound_port(bus, 0x89) } else { sample_2 };
        let s3 = if self.control.contains(SoundControl::ENB3) { self.channel_3.tick() } else { 0 };
        let s4 = match self.noise {
            Some(n) => n,
            None => sample_4,
        };
        [s1, s2, s3, s4]
    }

    /// Loads the four waveforms from the 64 bytes at the address the waveform port gives.
    fn load_waveforms(&mut self, bus: &mut MemBus)
        requires
            old(bus).wf(),
            old(self).wf(),
        ensures
            final(bus)@ == old(bus)@,
            final(self).wf(),
            ({
                let base = old(bus)@.io.port(0x8F) as int * 64;
                &&& final(self).channel_1@ == (ChannelView { waveform: mem_bytes(old(bus)@, base), ..old(self).channel_1@ })
                &&& final(self).channel_2@ == (ChannelView { waveform: mem_bytes(old(bus)@, base + 16), ..old(self).channel_2@ })
                &&& final(self).channel_3@ == (ChannelView { waveform: mem_bytes(old(bus)@, base + 32), ..old(self).channel_3@ })
                &&& final(self).channel_4@ == (ChannelView { waveform: mem_bytes(old(bus)@, base + 48), ..old(self).channel_4@ })
            }),
            final(self).control == old(self).control,
            final(self).sweep_clock == old(self).sweep_clock,
            final(self).step_clock == old(self).step_clock,
            final(self).noise_clock == old(self).noise_clock,
            final(self).noise == old(self).noise,
    {
        let base = (sound_port(bus, 0x8F) as u32) * 64;
        let mut k: usize = 0;
        while k < 16
            invariant
                k <= 16,
                bus.wf(),
                base == bus@.io.port(0x8F) as int * 64,
                bus@ == old(bus)@,
                base <= 16320,
                self.wf(),
                self.control == old(self).control,
                self.sweep_clock == old(self).sweep_clock,
                self.step_clock == old(self).step_clock,
                self.noise_clock == old(self).noise_clock,
                self.noise == old(self).noise,
                self.channel_1@ == (ChannelView { waveform: self.channel_1@.waveform, ..old(self).channel_1@ }),
                self.channel_2@ == (ChannelView { waveform: self.channel_2@.waveform, ..old(self).channel_2@ }),
                self.channel_3@ == (ChannelView { waveform: self.channel_3@.waveform, ..old(self).channel_3@ }),
                self.channel_4@ == (ChannelView { waveform: self.channel_4@.waveform, ..old(self).channel_4@ }),
                forall|j: int| 0 <= j < k ==> #[trigger] self.channel_1.waveform@[j] == bus@.read((base + j) as u32),
                forall|j: int| 0 <= j < k ==> #[trigger] self.channel_2.waveform@[j] == bus@.read((base + 16 + j) as u32),
                forall|j: int| 0 <= j < k ==> #[trigger] self.channel_3.waveform@[j] == bus@.read((base + 32 + j) as u32),
                forall|j: int| 0 <= j < k ==> #[trigger] self.channel_4.waveform@[j] == bus@.read((base + 48 + j) as u32),
            decreases 16 - k,
        {
            let kk = k as u32;
            self.channel_1.waveform[k] = bus.read_mem(base + kk);
            self.channel_2.waveform[k] = bus.read_mem(base + 16 + kk);
            self.channel_3.waveform[k] = bus.read_mem(base + 32 + kk);
            self.channel_4.waveform[k] = bus.read_mem(base + 48 + kk);
            k = k + 1;
        }
        assert(self.channel_1.waveform@ =~= mem_bytes(bus@, base as int));
        assert(self.channel_2.waveform@ =~= mem_bytes(bus@, base + 16)) by {
            assert forall|j: int| 0 <= j < 16 implies #[trigger] self.channel_2.waveform@[j] == mem_bytes(bus@, base + 16)[j] by {
                assert(base + 16 + j == (base + 16) + j);
            }
        }
        assert(self.channel_3.waveform@ =~= mem_bytes(bus@, base + 32)) by {
            assert forall|j: int| 0 <= j < 16 implies #[trigger] self.channel_3.waveform@[j] == mem_bytes(bus@, base + 32)[j] by {
                assert(base + 32 + j == (base + 32) + j);
            }
        }
        assert(self.channel_4.waveform@ =~= mem_bytes(bus@, base + 48)) by {
            assert forall|j: int| 0 <= j < 16 implies #[trigger] self.channel_4.waveform@[j] == mem_bytes(bus@, base + 48)[j] by {
                assert(base + 48 + j == (base + 48) + j);
            }
        }
    }

    /// Loads the channel frequencies: each channel ticks every 2048 minus the 11-bit value of
    /// its frequency ports.
    fn load_frequencies(&mut self, bus: &mut MemBus)
        requires
            old(bus).wf(),
            old(self).wf(),
        ensures
            final(self).wf(),
            final(bus).wf(),
            final(bus)@ == old(bus)@,
            final(self).channel_1@ == (ChannelView { frequency: loaded(old(self).channel_1@, old(bus)@, 0, 0x80).frequency, ..old(self).channel_1@ }),
            final(self).channel_2@ == (ChannelView { frequency: loaded(old(self).channel_2@, old(bus)@, 0, 0x82).frequency, ..old(self).channel_2@ }),
            final(self).channel_3@ == (ChannelView { frequency: loaded(old(self).channel_3@, old(bus)@, 0, 0x84).frequency, ..old(self).channel_3@ }),
            final(self).channel_4@ == (ChannelView { frequency: loaded(old(self).channel_4@, old(bus)@, 0, 0x86).frequency, ..old(self).channel_4@ }),
            final(self).control == old(self).control,
            final(self).sweep_clock == old(self).sweep_clock,
            final(self).step_clock == old(self).step_clock,
            final(self).noise_clock == old(self).noise_clock,
            final(self).noise == old(self).noise,
    {
        let w1 = u16_from_le(sound_port(bus, 0x80), sound_port(bus, 0x81));
        let w2 = u16_from_le(sound_port(bus, 0x82), sound_port(bus, 0x83));
        let w3 = u16_from_le(sound_port(bus, 0x84), sound_port(bus, 0x85));
        let w4 = u16_from_le(sound_port(bus, 0x86), sound_port(bus, 0x87));
        let f1 = w1 & 0x7FF;
        let f2 = w2 & 0x7FF;
        let f3 = w3 & 0x7FF;
        let f4 = w4 & 0x7FF;
        proof {
            lemma_word_fields(w1);
            lemma_word_fields(w2);
            lemma_word_fields(w3);
            lemma_word_fields(w4);
        }
        self.channel_1.frequency = 2048 - f1;
        self.channel_2.frequency = 2048 - f2;
        self.channel_3.frequency = 2048 - f3;
        self.channel_4.frequency = 2048 - f4;
    }

    /// Channel 3's sweep: every 8192 ticks a step passes, and when the step counter runs out the
    /// sweep amount is added to channel 3's frequency, which wraps within 11 bits.
    fn sweep(&mut self, bus: &mut MemBus)
        requires
            old(bus).wf(),
            old(self).wf(),
        ensures
            final(self).wf(),
            final(bus).wf(),
            ({
                let (sc, stc, io) = spec_sweep(old(self).control, old(self).sweep_clock, old(self).step_clock, old(bus)@.io);
                &&& final(self).sweep_clock == sc
                &&& final(self).step_clock == stc
                &&& final(bus)@ == (MemView { io, ..old(bus)@ })
            }),
            final(self).control == old(self).control,
            final(self).noise_clock == old(self).noise_clock,
            final(self).noise == old(self).noise,
            final(self).channel_1 == old(self).channel_1,
            final(self).channel_2 == old(self).channel_2,
            final(self).channel_3 == old(self).channel_3,
            final(self).channel_4 == old(self).channel_4,
    {
        if self.control.contains(SoundControl::SWEEP) && self.control.contains(SoundControl::ENB3) {
            self.sweep_clock = self.sweep_clock + 1;
            if self.sweep_clock > 8192 {
                self.sweep_clock = 0;
                if self.step_clock == 0 {
                    self.step_clock = ((sound_port(bus, 0x8D) & 0x1F).wrapping_sub(1)) as u64;
                    let sweep = sound_port(bus, 0x8C);
                    let sweep: i32 = if sweep < 0x80 { sweep as i32 } else { sweep as i32 - 0x100 };
                    let old_frequency = (u16_from_le(sound_port(bus, 0x84), sound_port(bus, 0x85)) & 0x7FF) as i32;
                    let mut new_frequency = old_frequency + sweep;
                    if new_frequency > 2047 {
                        new_frequency = 0;
                    } else if new_frequency < 0 {
                        new_frequency = 2047;
                    }
                    proof {
                        lemma_word_fields(new_frequency as u16);
                    }
                    bus.io_bus.write_io_16(0x84, (new_frequency as u16) & 0x7FF);
                } else {
                    self.step_clock = self.step_clock - 1;
                }
            }
        }
    }

    /// Channel 4's noise: when enabled, the 15-bit shift register steps every 2048 minus the
    /// frequency ticks and channel 4 puts out 0xFF or 0 as the bit shifted in.
    fn noise(&mut self, bus: &mut MemBus)
        requires
            old(bus).wf(),
            old(self).wf(),
        ensures
            final(self).wf(),
            final(bus).wf(),
            ({
                let (nc, n, io) = spec_noise(old(self).control, old(self).noise_clock, old(self).noise, old(bus)@.io);
                &&& final(self).noise_clock == nc
                &&& final(self).noise == n
                &&& final(bus)@ == (MemView { io, ..old(bus)@ })
            }),
            final(self).control == old(self).control,
            final(self).sweep_clock == old(self).sweep_clock,
            final(self).step_clock == old(self).step_clock,
            final(self).channel_1 == old(self).channel_1,
            final(self).channel_2 == old(self).channel_2,
            final(self).channel_3 == old(self).channel_3,
            final(self).channel_4 == old(self).channel_4,
    {
        if self.control.contains(SoundControl::NOISE) && self.control.contains(SoundControl::ENB4) {
            let noise_ctrl = sound_port(bus, 0x8E);
            if noise_ctrl & 0x10 == 0 {
                return;
            }
            if self.noise_clock == 0 {
                let f = u16_from_le(sound_port(bus, 0x86), sound_port(bus, 0x87));
                self.noise_clock = 2048u16.wrapping_sub(f) & 0x1FF;
                if noise_ctrl & 0x08 != 0 {
                    bus.io_bus.write_io(0x92, 0);
                    bus.io_bus.write_io(0x8E, noise_ctrl & 0xF7);
                }
                let lfsr = u16_from_le(sound_port(bus, 0x92), sound_port(bus, 0x93));
                let (next, random) = lfsr_next(lfsr, noise_ctrl & 7);
                bus.io_bus.set_lsfr(next);
                self.noise = Some(if random { 0xFF } else { 0x00 });
            } else {
                self.noise_clock = self.noise_clock - 1;
            }
        } else {
            self.noise = None;
        }
    }
}

/// The next state of the noise shift register and the bit it shifted in.
pub fn lfsr_next(lfsr: u16, tap: u8) -> (r: (u16, bool))
    ensures
        r == lfsr_step(lfsr, tap),
{
    let l = lfsr & 0x7FFF;
    let t = tap & 7;
    let shift: u16 = if t == 0 { 14 } else if t == 1 { 10 } else if t == 2 { 13 } else if t == 3 { 4 }
        else if t == 4 { 8 } else if t == 5 { 6 } else if t == 6 { 9 } else { 11 };
    let tap_bit = (l >> shift) & 1;
    let random = (l >> 7) ^ tap_bit != 0;
    let next = ((l << 1) & 0x7FFF) | if random { 1 } else { 0 };
    (next, random)
}

} // verus!
