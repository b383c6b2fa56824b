//! The system on a chip: it decides which component ticks when, and collects the outputs.
use vstd::prelude::*;
use crate::bus::io_bus::IOBus;
use crate::bus::io_bus::IOView;
use crate::bus::mem_bus::{MemBus, MemView, Owner};
use crate::cartridge::{Cartridge, Mapper};
use crate::cpu::v30mz::{V30MZ, CpuView, spec_poll, spec_execute, spec_commit, spec_tick};
use crate::display::display_control::{Display, LCD_BYTES, display_ticked};
use crate::dma::{DMA, DmaView};
use crate::dma::sdma::{SDMA, SdmaView, rate_of};
use crate::sound::{Sound, sound_ticked};

verus! {

/// Master clock cycles, divided by 4, in a frame.
pub const FRAME_CYCLES: u32 = 40704;

/// The ports after each byte of `bytes` is written, in order, to the I/O address of its index.
pub open spec fn ports_written(io: IOView, bytes: Seq<u8>) -> IOView
    decreases bytes.len(),
{
    if bytes.len() == 0 {
        io
    } else {
        ports_written(io, bytes.drop_last()).write((bytes.len() - 1) as u16, bytes.last())
    }
}

/// The general DMA's request check: on color models port 0x48 is read, and gives whether a
/// transfer is requested and its direction; monochrome models have no DMA.
pub open spec fn gdma_request(g: DmaView, m: MemView) -> (bool, DmaView, MemView) {
    if !m.io.color() {
        (false, g, m)
    } else {
        let (io1, ctrl) = m.io.read(0x48);
        (ctrl & 0x80 != 0, DmaView { dir: ctrl & 0x40 != 0, ..g }, MemView { io: io1, ..m })
    }
}

/// The bus master's share of a tick: an idle general DMA that is requested starts; then a
/// running general DMA, else a running sound DMA, else the CPU runs a cycle.
#[verifier::opaque]
pub open spec fn master_step(g: DmaView, s: SdmaView, c: CpuView, m: MemView) -> (DmaView, SdmaView, CpuView, MemView) {
    let (g1, m1) = if g.cycles == 0 {
        let (req, g0, m0) = gdma_request(g, m);
        if req { g0.start(m0) } else { (g0, m0) }
    } else {
        (g, m)
    };
    if g1.cycles > 0 {
        let (g2, m2) = g1.step(m1);
        (g2, s, c, m2)
    } else if s.cycles > 0 {
        let (s2, m2) = s.step(m1);
        (g1, s2, c, m2)
    } else {
        let (c2, m2) = spec_tick(c, m1);
        (g1, s, c2, m2)
    }
}

/// The sound DMA's request check: on color models port 0x52 is read, and gives whether a
/// transfer is requested, its direction, repeat and hold bits and its rate.
pub open spec fn sdma_request(s: SdmaView, m: MemView) -> (bool, SdmaView, MemView) {
    if !m.io.color() {
        (false, s, m)
    } else {
        let (io1, ctrl) = m.io.read(0x52);
        (ctrl & 0x80 != 0,
         SdmaView { dir: ctrl & 0x40 != 0, rep: ctrl & 0x08 != 0, hold: ctrl & 0x04 != 0, rate: rate_of(ctrl), ..s },
         MemView { io: io1, ..m })
    }
}

/// The sample clock's share of a tick, from the cycles since the last sample and the samples
/// since the sound DMA last operated: every 128 ticks a sample is due, and every `rate` samples
/// a requested sound DMA starts. Gives the two counters, the sound DMA and the bus after it.
pub open spec fn sample_clock(acc: u64, clock: u8, s: SdmaView, m: MemView) -> (u64, u8, SdmaView, MemView) {
    if acc + 1 < 128 {
        ((acc + 1) as u64, clock, s, m)
    } else if clock + 1 >= s.rate {
        let (req, s0, m0) = sdma_request(s, m);
        let (s1, m1) = if req { s0.start(m0) } else { (s0, m0) };
        (0, (clock + 1 - s.rate) as u8, s1, m1)
    } else {
        (0, (clock + 1) as u8, s, m)
    }
}

/// The sound unit's share of a tick, from the system before it to the system after it, with the
/// bus `m1` the sound unit left and the sample `r` it produced.
pub open spec fn sampled(pre: SoC, post: SoC, m1: MemView, r: (u16, u16)) -> bool {
    let (acc, clock, s2, m2) = sample_clock(pre.sample_acc, pre.sdma_clock, pre.sdma@, m1);
    &&& sound_ticked(pre.sound, pre.mem_bus@, post.sound, m1, r)
    &&& post.sample_acc == acc
    &&& post.sdma_clock == clock
    &&& post.sdma@ == s2
    &&& post.mem_bus@ == m2
    &&& post.samples@ == (if !pre.mute && pre.sample_acc + 1 == 128 { pre.samples@.push(r) } else { pre.samples@ })
}

/// A tick after the bus master ran with the bus not locked by the CPU, from the system before the
/// tick, the sound DMA `s` and bus `m` the bus master left, the bus `m1` after the sound unit and
/// the sample `out` it produced: the sound unit ticks, the sample clock advances, a due sample is
/// pushed unless muted, and the display runs a cycle.
pub open spec fn unlocked_tick(pre: SoC, s: SdmaView, m: MemView, post: SoC, m1: MemView, out: (u16, u16)) -> bool {
    let (acc, clock, s2, m2) = sample_clock(pre.sample_acc, pre.sdma_clock, s, m1);
    &&& sound_ticked(pre.sound, m, post.sound, m1, out)
    &&& post.sample_acc == acc
    &&& post.sdma_clock == clock
    &&& post.sdma@ == s2
    &&& post.samples@ == (if !pre.mute && pre.sample_acc + 1 == 128 { pre.samples@.push(out) } else { pre.samples@ })
    &&& display_ticked(pre.display, m2, pre.lcd@, post.display, post.mem_bus@, post.lcd@)
}

/// The system on a chip.
pub struct SoC {
    /// CPU, an NEC V30MZ
    pub cpu: V30MZ,
    /// General DMA
    pub gdma: DMA,
    /// Sound DMA
    pub sdma: SDMA,
    /// Sound chip
    pub sound: Sound,
    /// Display chip
    pub display: Display,
    /// The memory bus, which holds the I/O bus and the cartridge
    pub mem_bus: MemBus,
    /// The master clock cycle divided by 4, reset on each new frame
    pub cycles: u32,
    /// Output samples not yet taken by the audio device
    pub samples: Vec<(u16, u16)>,
    /// Cycles since the last sample was pushed
    pub sample_acc: u64,
    /// Samples pushed since the sound DMA last operated
    pub sdma_clock: u8,
    /// The image the screen shows
    pub lcd: Vec<u8>,
    /// When set, no samples are pushed
    pub mute: bool,
}

impl SoC {
    /// Every component is well formed and the counters are in range.
    pub open spec fn wf(&self) -> bool {
        &&& self.cpu.wf()
        &&& self.cpu.current_op.len() <= 8
        &&& self.gdma.wf()
        &&& self.sdma.wf()
        &&& self.sound.wf()
        &&& self.display.wf()
        &&& self.display.sprite_base <= 0x7E00
        &&& self.mem_bus.wf()
        &&& self.lcd@.len() == LCD_BYTES
        &&& self.cycles < FRAME_CYCLES
        &&& self.sample_acc < 128
        &&& self.sdma_clock <= 6
    }

    /// A system running a cartridge: with `sram` the save data is the cartridge's SRAM,
    /// otherwise its EEPROM, of `eeprom` or, when that is empty, of `ram_content`.
    pub fn new(color: bool, ram_content: Vec<u8>, ieeprom: Vec<u8>, eeprom: Vec<u8>, rom: Vec<u8>, mapper: Mapper,
        sram: bool, trace: bool, mute: bool, rom_info: u8) -> (r: Self)
        requires
            0 < rom.len() <= u32::MAX,
            ram_content.len() <= u32::MAX,
            !sram ==> ({
                let c = if eeprom.len() > 0 { eeprom@ } else { ram_content@ };
                c.len() == 0x400 || c.len() == 0x2000 || c.len() == 0x4000
            }),
        ensures
            r.wf(),
            r.cpu@ == crate::cpu::v30mz::reset_view(crate::cpu::v30mz::initial_view(trace)),
            r.mute == mute,
            r.cycles == 0,
            r.samples@.len() == 0,
            r.mem_bus@.owner == Owner::NONE,
            r.mem_bus@.wram == Seq::new(0x10000, |i: int| 0u8),
            r.mem_bus@.io.color() == color,
            r.mem_bus@.io.cartridge.rom == rom@,
            r.mem_bus@.io.cartridge.mapper == mapper,
            r.mem_bus@.io.cartridge.sram == (if sram { ram_content@ } else { Seq::<u8>::empty() }),
            r.mem_bus@.io.eeprom is Some == !sram,
    {
        let (cartridge, save) = if sram {
            (Cartridge::new(mapper, ram_content, rom, true), None)
        } else {
            (Cartridge::new(mapper, Vec::new(), rom, false), if eeprom.len() > 0 { Some(eeprom) } else { Some(ram_content) })
        };
        let io_bus = IOBus::new(cartridge, ieeprom, save, color, rom_info);
        let mem_bus = MemBus::new(io_bus);
        let mut cpu = V30MZ::new(trace);
        cpu.reset();
        let display = Display::new(&mem_bus);
        let lcd = crate::cartridge::zeroed(LCD_BYTES);
        assert(mem_bus.wf());
        assert(cpu.wf());
        SoC {
            cpu, gdma: DMA::new(), sdma: SDMA::new(), sound: Sound::new(), display, mem_bus,
            cycles: 0, samples: Vec::new(), sample_acc: 0, sdma_clock: 0, lcd, mute,
        }
    }

    /// The bus master's share of a tick: a general DMA that is requested starts, then a running
    /// general DMA, else a running sound DMA, else the CPU runs a cycle.
    fn tick_bus_master(&mut self)
        requires
            old(self).wf(),
        ensures
            final(self).wf(),
            (final(self).gdma@, final(self).sdma@, final(self).cpu@, final(self).mem_bus@)
                == master_step(old(self).gdma@, old(self).sdma@, old(self).cpu@, old(self).mem_bus@),
            final(self).sound == old(self).sound,
            final(self).display == old(self).display,
            final(self).lcd == old(self).lcd,
            final(self).cycles == old(self).cycles,
            final(self).samples == old(self).samples,
            final(self).sample_acc == old(self).sample_acc,
            final(self).sdma_clock == old(self).sdma_clock,
            final(self).mute == old(self).mute,
    {
        run_bus_master(&mut self.gdma, &mut self.sdma, &mut self.cpu, &mut self.mem_bus);
    }

    /// The sound unit's share of a tick: a sample is produced; every 128 ticks it is pushed,
    /// unless muted, and every `rate` pushes a requested sound DMA starts. Returns the sample.
    fn tick_sound(&mut self) -> (r: (u16, u16))
        requires
            old(self).wf(),
        ensures
            final(self).wf(),
            final(self).gdma == old(self).gdma,
            final(self).cpu == old(self).cpu,
            final(self).display == old(self).display,
            final(self).lcd == old(self).lcd,
            final(self).cycles == old(self).cycles,
            final(self).mute == old(self).mute,
            final(self).mem_bus@.owner == old(self).mem_bus@.owner,
            exists|m1: MemView| #[trigger] sampled(*old(self), *final(self), m1, r),
    {
        let sample = sound_sample(&mut self.sound, &mut self.mem_bus);
        let ghost m1 = self.mem_bus@;
        self.sample_acc = self.sample_acc + 1;
        if self.sample_acc >= 128 {
            self.sample_acc = self.sample_acc - 128;
            self.sdma_clock = self.sdma_clock + 1;
            if self.sdma_clock >= self.sdma.rate {
                self.sdma_clock = self.sdma_clock - self.sdma.rate;
                if self.sdma.is_enabled(&mut self.mem_bus) {
                    self.sdma.start_op(&mut self.mem_bus);
                }
            }
            if !self.mute {
                self.samples.push(sample);
            }
        }
        assert(sampled(*old(self), *self, m1, sample));
        sample
    }

    /// Runs four ticks of the master clock; returns whether a frame has been completed.
    ///
    /// A running general DMA, else a running sound DMA, else the CPU gets the tick; while the CPU
    /// holds the bus locked nothing else runs. Then the sound unit produces a sample, every 128
    /// ticks a sample is pushed and the sound DMA may start, and the display runs a cycle.
    pub fn tick(&mut self) -> (r: bool)
        requires
            old(self).wf(),
        ensures
            final(self).wf(),
            r == (final(self).mem_bus@.owner != Owner::CPU && old(self).cycles + 1 == FRAME_CYCLES),
            final(self).mem_bus@.owner == Owner::CPU ==> final(self).cycles == old(self).cycles,
            final(self).mem_bus@.owner == Owner::CPU ==> final(self).sound == old(self).sound && final(self).display == old(self).display
                && final(self).lcd == old(self).lcd && final(self).samples == old(self).samples,
            final(self).mem_bus@.owner != Owner::CPU ==> final(self).cycles == (old(self).cycles + 1) % (FRAME_CYCLES as int),
            final(self).mute == old(self).mute,
            final(self).mute ==> final(self).samples@ == old(self).samples@,
            ({
                let (g, s, c, m) = master_step(old(self).gdma@, old(self).sdma@, old(self).cpu@, old(self).mem_bus@);
                &&& final(self).gdma@ == g
                &&& final(self).cpu@ == c
                &&& m.owner == Owner::CPU ==> final(self).sdma@ == s && final(self).mem_bus@ == m
                &&& m.owner != Owner::CPU ==> exists|m1: MemView, out: (u16, u16)|
                        #[trigger] unlocked_tick(*old(self), s, m, *final(self), m1, out)
            }),
    {
        self.tick_bus_master();
        if self.mem_bus.owner == Owner::CPU {
            return false;
        }
        let ghost before = *self;
        let out = self.tick_sound();
        let ghost m1 = choose|m1: MemView| #[trigger] sampled(before, *self, m1, out);
        self.display.tick(&mut self.mem_bus, &mut self.lcd);
        let frame = self.cycles + 1 == FRAME_CYCLES;
        self.cycles = if frame { 0 } else { self.cycles + 1 };
        proof {
            assert(unlocked_tick(*old(self), before.sdma@, before.mem_bus@, *self, m1, out));
            let (g, s, c, m) = master_step(old(self).gdma@, old(self).sdma@, old(self).cpu@, old(self).mem_bus@);
            assert(s == before.sdma@ && m == before.mem_bus@);
            assert(exists|m1: MemView, out: (u16, u16)| #[trigger] unlocked_tick(*old(self), s, m, *self, m1, out));
        }
        frame
    }

    /// The image the screen shows: three bytes per pixel, row by row.
    pub fn get_lcd(&self) -> (r: &Vec<u8>)
        ensures
            r == &self.lcd,
    {
        &self.lcd
    }

    /// A system with a blank test cartridge, for tests and for running without a ROM: WRAM up to
    /// 0x3FFF holds 0x01, ports 0x00 and 0x1F hold 0xFF and 0xF8, and the cartridge is a mapper
    /// 2001 board with 1 MiB of zero ROM and 1 MiB of zero, writable SRAM.
    pub fn test_build() -> (r: Self)
        ensures
            r.wf(),
            r.mem_bus@.io.cartridge.mapper == Mapper::B_2001,
            r.mem_bus@.io.cartridge.rom == Seq::new(0x100000, |i: int| 0u8),
            r.mem_bus@.io.cartridge.sram == Seq::new(0x100000, |i: int| 0u8),
            r.mem_bus@.io.cartridge.rewrittable,
            r.mute,
            r.cpu@ == crate::cpu::v30mz::initial_view(false),
            r.cycles == 0,
            r.samples@.len() == 0,
            forall|i: int| 0 <= i < 0x4000 ==> #[trigger] r.mem_bus@.wram[i] == 1,
            r.mem_bus@.io.port(0x00) == 0xFF,
            r.mem_bus@.io.port(0x1F) == 0xF8,
            !r.mem_bus@.io.color(),
    {
        let cartridge = Cartridge::test_build();
        let ghost cart = cartridge@;
        let io_bus = IOBus::new(cartridge, Vec::new(), None, false, 0);
        let mut mem_bus = MemBus::test_build(io_bus);
        let cpu = V30MZ::new(false);
        let mut i: u32 = 0;
        while i <= 0x3FFF
            invariant
                i <= 0x4000,
                mem_bus.wf(),
                !mem_bus@.io.color(),
                forall|j: int| 0 <= j < i ==> #[trigger] mem_bus@.wram[j] == 1,
                mem_bus@.io.cartridge == cart,
            decreases 0x4000 - i,
        {
            mem_bus.write_mem(i, 0x01);
            i = i + 1;
        }
        proof {
            crate::bits::lemma_word_fields(0x00);
            crate::bits::lemma_word_fields(0x1F);
        }
        mem_bus.io_bus.write_io(0x00, 0xFF);
        mem_bus.io_bus.write_io(0x1F, 0xF8);
        assert(mem_bus@.io.port(0x00) == 0xFF);
        let display = Display::new(&mem_bus);
        let lcd = crate::cartridge::zeroed(LCD_BYTES);
        assert(mem_bus.wf());
        assert(cpu.wf());
        SoC {
            cpu, gdma: DMA::new(), sdma: SDMA::new(), sound: Sound::new(), display, mem_bus,
            cycles: 0, samples: Vec::new(), sample_acc: 0, sdma_clock: 0, lcd, mute: true,
        }
    }

    /// Copies bytes into WRAM from address 0.
    pub fn set_wram(&mut self, wram: Vec<u8>)
        requires
            old(self).mem_bus.wf(),
            wram.len() <= 0x10000,
        ensures
            final(self).mem_bus@.wram == old(self).mem_bus@.wram.update_subrange_with(0, wram@),
            final(self).mem_bus.wf(),
    {
        let mut i: usize = 0;
        while i < wram.len()
            invariant
                i <= wram.len(),
                wram.len() <= 0x10000,
                self.mem_bus.wf(),
                self.mem_bus@.wram == old(self).mem_bus@.wram.update_subrange_with(0, wram@.subrange(0, i as int)),
            decreases wram.len() - i,
        {
            self.mem_bus.wram.set(i, wram[i]);
            assert(self.mem_bus@.wram =~= old(self).mem_bus@.wram.update_subrange_with(0, wram@.subrange(0, i + 1)));
            i = i + 1;
        }
        assert(wram@.subrange(0, i as int) =~= wram@);
    }

    /// Writes bytes to the ports from port 0 on.
    pub fn set_io(&mut self, io: Vec<u8>)
        requires
            old(self).mem_bus.wf(),
            io.len() <= 0x10000,
        ensures
            final(self).mem_bus.wf(),
            final(self).mem_bus@ == (MemView { io: ports_written(old(self).mem_bus@.io, io@), ..old(self).mem_bus@ }),
    {
        let mut i: usize = 0;
        while i < io.len()
            invariant
                i <= io.len(),
                io.len() <= 0x10000,
                self.mem_bus.wf(),
                self.mem_bus@ == (MemView { io: ports_written(old(self).mem_bus@.io, io@.subrange(0, i as int)), ..old(self).mem_bus@ }),
            decreases io.len() - i,
        {
            assert(io@.subrange(0, i + 1).drop_last() == io@.subrange(0, i as int));
            self.mem_bus.io_bus.write_io(i as u16, io[i]);
            i = i + 1;
        }
        assert(io@.subrange(0, io@.len() as int) == io@);
    }

    /// The CPU, for tests to set and inspect its registers.
    pub fn get_cpu(&mut self) -> (r: &mut V30MZ)
        ensures
            *r == old(self).cpu,
            *final(self) == (SoC { cpu: *final(r), ..*old(self) }),
    {
        &mut self.cpu
    }

    /// WRAM, for tests to set and inspect.
    pub fn get_wram(&mut self) -> (r: &mut Vec<u8>)
        ensures
            *r == old(self).mem_bus.wram,
            *final(self) == (SoC { mem_bus: MemBus { wram: *final(r), ..old(self).mem_bus }, ..*old(self) }),
    {
        &mut self.mem_bus.wram
    }

    /// Runs the next instruction at once, whatever its cycle count, and commits its writes.
    pub fn tick_cpu_no_cycles(&mut self)
        requires
            old(self).cpu.wf(),
            old(self).mem_bus.wf(),
            old(self).cpu.current_op.len() <= 8,
        ensures
            final(self).cpu.wf(),
            final(self).mem_bus.wf(),
            final(self).cpu.current_op.len() <= 8,
            ({
                let (s0, m0) = (old(self).cpu@, old(self).mem_bus@);
                let (s1, m1, taken) = if !s0.rep { spec_poll(s0, m0) } else { (s0, m0, false) };
                if taken {
                    (final(self).cpu@, final(self).mem_bus@) == (s1, m1)
                } else {
                    let (s2, m2) = if s1.halt { (s1, m1) } else { spec_execute(s1, m1) };
                    (final(self).cpu@, final(self).mem_bus@) == spec_commit(s2, m2)
                }
            }),
    {
        self.cpu.tick_ignore_cycles(&mut self.mem_bus);
    }

    /// Reads a port.
    pub fn read_io(&mut self, addr: u16) -> (r: u8)
        requires
            old(self).mem_bus.wf(),
        ensures
            (final(self).mem_bus@.io, r) == old(self).mem_bus@.io.read(addr),
            final(self).mem_bus.wf(),
    {
        self.mem_bus.io_bus.read_io(addr)
    }

    /// Writes a port.
    pub fn write_io(&mut self, addr: u16, byte: u8)
        requires
            old(self).mem_bus.wf(),
        ensures
            final(self).mem_bus@.io == old(self).mem_bus@.io.write(addr, byte),
            final(self).mem_bus.wf(),
    {
        self.mem_bus.io_bus.write_io(addr, byte);
    }

    /// Reads the little-endian word at a physical address.
    pub fn read_mem_16(&self, addr: u32) -> (r: u16)
        requires
            self.mem_bus.wf(),
            addr < 0xFFFFF,
        ensures
            r == self.mem_bus@.read16(addr),
    {
        self.mem_bus.read_mem_16(addr)
    }

    /// Writes a little-endian word at a physical address.
    pub fn write_mem_16(&mut self, addr: u32, w: u16)
        requires
            old(self).mem_bus.wf(),
            addr < 0xFFFFF,
        ensures
            final(self).mem_bus@ == old(self).mem_bus@.write16(addr, w),
            final(self).mem_bus.wf(),
    {
        self.mem_bus.write_mem_16(addr, w);
    }
}

/// A general DMA that is requested starts, then a running general DMA, else a running sound
/// DMA, else the CPU runs a cycle.
fn run_bus_master(gdma: &mut DMA, sdma: &mut SDMA, cpu: &mut V30MZ, bus: &mut MemBus)
    requires
        old(gdma).wf(),
        old(sdma).wf(),
        old(cpu).wf(),
        old(cpu).current_op.len() <= 8,
        old(bus).wf(),
    ensures
        (final(gdma)@, final(sdma)@, final(cpu)@, final(bus)@) == master_step(old(gdma)@, old(sdma)@, old(cpu)@, old(bus)@),
        final(gdma).wf(),
        final(sdma).wf(),
        final(cpu).wf(),
        final(cpu).current_op.len() <= 8,
        final(bus).wf(),
{
    proof {
        reveal(master_step);
    }
    if gdma.cycles == 0 {
        if gdma.is_enabled(bus) {
            gdma.start_op(bus);
        }
    }
    if gdma.cycles > 0 {
        gdma.tick(bus);
    } else if sdma.cycles > 0 {
        sdma.tick(bus);
    } else {
        cpu.tick(bus);
    }
}

/// The sound unit's next output sample.
fn sound_sample(sound: &mut Sound, bus: &mut MemBus) -> (r: (u16, u16))
    requires
        old(sound).wf(),
        old(bus).wf(),
    ensures
        final(sound).wf(),
        final(bus).wf(),
        final(bus)@.owner == old(bus)@.owner,
        r == final(sound).output(final(bus)@.io),
        sound_ticked(*old(sound), old(bus)@, *final(sound), final(bus)@, r),
{
    let r = sound.tick(bus);
    proof {
        reveal(sound_ticked);
    }
    r
}

} // verus!