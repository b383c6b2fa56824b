//! The NEC V30MZ: its registers, the instruction-level model of its state, and its main loop.
use vstd::prelude::*;
use crate::bits::{word, lo8, hi8};
use crate::bus::io_bus::IOView;
use crate::bus::mem_bus::{MemBus, MemView, Owner};
use crate::cpu::{Mode, Operand, spec_swap_h, spec_swap_l};
use crate::cpu::flags::CpuStatus;
use crate::cpu::opcode::{OpCode, op_timing, spec_op_timing, spec_op_info};
use crate::cpu::v30mz::dispatch::{spec_dispatch, ready};

pub mod util;
pub mod alu_ops;
pub mod bit_ops;
pub mod mem_ops;
pub mod block_ops;
pub mod ctrl_ops;
pub mod dispatch;
pub mod dispatch_high;
pub mod dispatch_top;

verus! {

/// The CPU.
///
/// Writes to memory and to ports are buffered while an instruction runs and committed to the
/// buses when its last cycle has passed.
pub struct V30MZ {
    // General-purpose registers
    pub AW: u16,
    pub BW: u16,
    pub CW: u16,
    pub DW: u16,
    // Segment registers
    pub DS0: u16,
    pub DS1: u16,
    pub PS: u16,
    pub SS: u16,
    // Index registers
    pub IX: u16,
    pub IY: u16,
    // Pointers
    pub SP: u16,
    pub BP: u16,
    /// Program counter
    pub PC: u16,
    /// Length of the instruction being executed
    pub pc_displacement: u16,
    /// Program status word
    pub PSW: CpuStatus,
    /// The bytes of the instruction being executed
    pub current_op: Vec<u8>,
    /// A segment that a prefix has put in place of an instruction's default data segment
    pub segment_override: Option<u16>,
    pub halt: bool,
    pub rep: bool,
    pub rep_z: bool,
    pub no_interrupt: bool,
    /// Memory writes waiting for the end of the instruction
    pub mem_buffer: Vec<(u32, u8)>,
    /// Port writes waiting for the end of the instruction
    pub io_buffer: Vec<(u16, u8)>,
    /// Cycles left before the next instruction
    pub cycles: u8,
    /// Cycle count the current instruction started with
    pub base: u8,
    pub trace: bool,
}

/// The abstract state of the CPU.
pub struct CpuView {
    pub AW: u16,
    pub BW: u16,
    pub CW: u16,
    pub DW: u16,
    pub DS0: u16,
    pub DS1: u16,
    pub PS: u16,
    pub SS: u16,
    pub IX: u16,
    pub IY: u16,
    pub SP: u16,
    pub BP: u16,
    pub PC: u16,
    pub pc_displacement: u16,
    pub PSW: CpuStatus,
    pub current_op: Seq<u8>,
    pub segment_override: Option<u16>,
    pub halt: bool,
    pub rep: bool,
    pub rep_z: bool,
    pub no_interrupt: bool,
    pub mem_writes: Seq<(u32, u8)>,
    pub io_writes: Seq<(u16, u8)>,
    pub cycles: u8,
    pub base: u8,
    pub trace: bool,
}

impl View for V30MZ {
    type V = CpuView;

    open spec fn view(&self) -> CpuView {
        CpuView {
            AW: self.AW, BW: self.BW, CW: self.CW, DW: self.DW,
            DS0: self.DS0, DS1: self.DS1, PS: self.PS, SS: self.SS,
            IX: self.IX, IY: self.IY, SP: self.SP, BP: self.BP,
            PC: self.PC, pc_displacement: self.pc_displacement,
            PSW: self.PSW,
            current_op: self.current_op@,
            segment_override: self.segment_override,
            halt: self.halt, rep: self.rep, rep_z: self.rep_z, no_interrupt: self.no_interrupt,
            mem_writes: self.mem_buffer@,
            io_writes: self.io_buffer@,
            cycles: self.cycles, base: self.base, trace: self.trace,
        }
    }
}

/// Wrapping 16-bit addition.
pub open spec fn add16(a: u16, b: u16) -> u16 {
    ((a + b) % 0x10000) as u16
}

/// Wrapping 16-bit subtraction.
pub open spec fn sub16(a: u16, b: u16) -> u16 {
    ((a - b + 0x10000) % 0x10000) as u16
}

/// Sign extension of a byte to a word.
pub open spec fn sext8(b: u8) -> u16 {
    if b < 0x80 { b as u16 } else { (b + 0xFF00) as u16 }
}

/// The 20-bit physical address of an offset within a segment.
pub open spec fn seg_addr(offset: u16, segment: u16) -> u32 {
    ((segment * 16 + offset) % 0x100000) as u32
}

/// The next physical address, wrapping around the 20-bit address space.
pub open spec fn next_addr(addr: u32, n: int) -> u32 {
    ((addr + n) % 0x100000) as u32
}

/// The little-endian word the CPU reads at a physical address.
pub open spec fn read_word(m: MemView, addr: u32) -> u16 {
    word(m.read(addr), m.read(next_addr(addr, 1)))
}

/// Number of displacement bytes that follow a mod/r/m byte.
pub open spec fn disp_len(modrm: u8) -> nat {
    let a = modrm >> 6;
    let rm = modrm & 7;
    if (a == 0 && rm == 6) || a == 2 { 2 } else if a == 1 { 1 } else { 0 }
}

/// Whether a mod/r/m byte names a register rather than memory.
pub open spec fn is_reg_modrm(modrm: u8) -> bool {
    modrm >> 6 == 3
}

impl CpuView {
    pub open spec fn wf(self) -> bool {
        &&& forall|i: int| 0 <= i < self.mem_writes.len() ==> #[trigger] self.mem_writes[i].0 <= 0xFFFFF
        &&& self.current_op.len() <= 16
    }

    pub open spec fn reg16(self, i: u8) -> u16 {
        if i == 0 { self.AW } else if i == 1 { self.CW } else if i == 2 { self.DW } else if i == 3 { self.BW }
        else if i == 4 { self.SP } else if i == 5 { self.BP } else if i == 6 { self.IX } else { self.IY }
    }

    pub open spec fn set_reg16(self, i: u8, v: u16) -> CpuView {
        if i == 0 { CpuView { AW: v, ..self } } else if i == 1 { CpuView { CW: v, ..self } }
        else if i == 2 { CpuView { DW: v, ..self } } else if i == 3 { CpuView { BW: v, ..self } }
        else if i == 4 { CpuView { SP: v, ..self } } else if i == 5 { CpuView { BP: v, ..self } }
        else if i == 6 { CpuView { IX: v, ..self } } else { CpuView { IY: v, ..self } }
    }

    /// Byte registers 0-3 are the low bytes of AW, CW, DW, BW; 4-7 their high bytes.
    pub open spec fn reg8(self, i: u8) -> u8 {
        if i < 4 { lo8(self.reg16(i)) } else { hi8(self.reg16((i - 4) as u8)) }
    }

    pub open spec fn set_reg8(self, i: u8, v: u8) -> CpuView {
        if i < 4 {
            self.set_reg16(i, spec_swap_l(self.reg16(i), v))
        } else {
            self.set_reg16((i - 4) as u8, spec_swap_h(self.reg16((i - 4) as u8), v))
        }
    }

    /// Segment registers: 0 DS1, 1 PS, 2 SS, 3 DS0.
    pub open spec fn seg(self, i: u8) -> u16 {
        if i == 0 { self.DS1 } else if i == 1 { self.PS } else if i == 2 { self.SS } else { self.DS0 }
    }

    pub open spec fn set_seg(self, i: u8, v: u16) -> CpuView {
        if i == 0 { CpuView { DS1: v, ..self } } else if i == 1 { CpuView { PS: v, ..self } }
        else if i == 2 { CpuView { SS: v, ..self } } else { CpuView { DS0: v, ..self } }
    }

    pub open spec fn with_psw(self, psw: CpuStatus) -> CpuView {
        CpuView { PSW: psw, ..self }
    }

    pub open spec fn flag(self, f: u16) -> bool {
        self.PSW.has(f)
    }

    pub open spec fn op(self, i: int) -> u8 {
        self.current_op[i]
    }

    /// The reg field of the mod/r/m byte.
    pub open spec fn reg_field(self) -> u8 {
        (self.op(1) >> 3) & 7
    }

    /// The last byte of the instruction, its 8-bit immediate.
    pub open spec fn imm8(self) -> u8 {
        self.current_op.last()
    }

    /// The last two bytes of the instruction, its 16-bit immediate.
    pub open spec fn imm16(self) -> u16 {
        word(self.current_op[self.current_op.len() - 2], self.current_op.last())
    }

    /// Base register sum and default segment selected by the r/m field.
    pub open spec fn ea_base(self, m: u8) -> (u16, u16) {
        if m == 0 { (add16(self.BW, self.IX), self.DS0) } else if m == 1 { (add16(self.BW, self.IY), self.DS0) }
        else if m == 2 { (add16(self.BP, self.IX), self.SS) } else if m == 3 { (add16(self.BP, self.IY), self.SS) }
        else if m == 4 { (self.IX, self.DS0) } else if m == 5 { (self.IY, self.DS0) }
        else if m == 6 { (self.BP, self.SS) } else { (self.BW, self.DS0) }
    }

    /// Displacement selected by the mod field.
    pub open spec fn ea_disp(self, a: u8) -> u16 {
        if a == 0 { 0u16 } else if a == 1 { sext8(self.op(2)) } else { word(self.op(2), self.op(3)) }
    }

    /// Offset and default segment of a memory mod/r/m operand.
    pub open spec fn ea(self, modrm: u8) -> (u16, u16) {
        let a = modrm >> 6;
        let m = modrm & 7;
        if a == 0 && m == 6 {
            (word(self.op(2), self.op(3)), self.DS0)
        } else {
            (add16(self.ea_base(m).0, self.ea_disp(a)), self.ea_base(m).1)
        }
    }

    /// Physical address of an offset, honoring a segment override prefix.
    pub open spec fn phys(self, offset: u16, default_segment: u16) -> u32 {
        match self.segment_override {
            Some(s) => seg_addr(offset, s),
            None => seg_addr(offset, default_segment),
        }
    }

    pub open spec fn rm_addr(self, modrm: u8) -> u32 {
        self.phys(self.ea(modrm).0, self.ea(modrm).1)
    }

    pub open spec fn rm8(self, m: MemView, modrm: u8) -> u8 {
        if is_reg_modrm(modrm) { self.reg8(modrm & 7) } else { m.read(self.rm_addr(modrm)) }
    }

    pub open spec fn rm16(self, m: MemView, modrm: u8) -> u16 {
        if is_reg_modrm(modrm) { self.reg16(modrm & 7) } else { read_word(m, self.rm_addr(modrm)) }
    }

    /// The two words of a 32-bit memory operand.
    pub open spec fn rm32(self, m: MemView, modrm: u8) -> (u16, u16) {
        let a = self.rm_addr(modrm);
        (read_word(m, a), read_word(m, next_addr(a, 2)))
    }

    pub open spec fn direct_addr(self) -> u32 {
        word(self.op(1), self.op(2)) as u32
    }

    pub open spec fn src8(self, m: MemView, op: Operand) -> u8 {
        match op {
            Operand::MEMORY => self.rm8(m, self.op(1)),
            Operand::REGISTER => self.reg8(self.reg_field()),
            Operand::ACCUMULATOR => lo8(self.AW),
            Operand::IMMEDIATE => self.op(1),
            _ => m.read(self.direct_addr()),
        }
    }

    pub open spec fn src16(self, m: MemView, op: Operand) -> u16 {
        match op {
            Operand::MEMORY => self.rm16(m, self.op(1)),
            Operand::REGISTER => self.reg16(self.reg_field()),
            Operand::ACCUMULATOR => self.AW,
            Operand::IMMEDIATE => word(self.op(1), self.op(2)),
            Operand::SEGMENT => self.seg((self.op(1) >> 3) & 3),
            Operand::IMMEDIATE_S => sext8(self.op(1)),
            _ => read_word(m, self.direct_addr()),
        }
    }

    /// The state with a byte memory write queued.
    pub open spec fn buffered(self, addr: u32, b: u8) -> CpuView {
        CpuView { mem_writes: self.mem_writes.push((addr, b)), ..self }
    }

    /// The state with a word memory write queued, low byte first.
    pub open spec fn buffered16(self, addr: u32, w: u16) -> CpuView {
        self.buffered(addr, lo8(w)).buffered(next_addr(addr, 1), hi8(w))
    }

    pub open spec fn io_buffered(self, addr: u16, b: u8) -> CpuView {
        CpuView { io_writes: self.io_writes.push((addr, b)), ..self }
    }

    pub open spec fn with_rm8(self, modrm: u8, v: u8) -> CpuView {
        if is_reg_modrm(modrm) { self.set_reg8(modrm & 7, v) } else { self.buffered(self.rm_addr(modrm), v) }
    }

    pub open spec fn with_rm16(self, modrm: u8, v: u16) -> CpuView {
        if is_reg_modrm(modrm) { self.set_reg16(modrm & 7, v) } else { self.buffered16(self.rm_addr(modrm), v) }
    }

    pub open spec fn dest8(self, op: Operand, v: u8) -> CpuView {
        match op {
            Operand::MEMORY => self.with_rm8(self.op(1), v),
            Operand::REGISTER => self.set_reg8(self.reg_field(), v),
            Operand::ACCUMULATOR => CpuView { AW: spec_swap_l(self.AW, v), ..self },
            _ => self.buffered(self.direct_addr(), v),
        }
    }

    pub open spec fn dest16(self, op: Operand, v: u16) -> CpuView {
        match op {
            Operand::MEMORY => self.with_rm16(self.op(1), v),
            Operand::REGISTER => self.set_reg16(self.reg_field(), v),
            Operand::ACCUMULATOR => CpuView { AW: v, ..self },
            Operand::SEGMENT => self.set_seg((self.op(1) >> 3) & 3, v),
            _ => self.buffered16(self.direct_addr(), v),
        }
    }

    /// Accessing a memory operand costs `extra` cycles, once per instruction.
    pub open spec fn charge(self, modrm: u8, extra: u8) -> CpuView {
        if !is_reg_modrm(modrm) && self.cycles == self.base {
            CpuView { cycles: (self.cycles + extra) as u8, ..self }
        } else {
            self
        }
    }

    pub open spec fn charge_ops(self, op1: Operand, op2: Operand, extra: u8) -> CpuView {
        if op1 == Operand::MEMORY || op2 == Operand::MEMORY { self.charge(self.op(1), extra) } else { self }
    }

    /// Whether the bytes an operand reads or writes are present in the instruction.
    pub open spec fn operand_present(self, op: Operand, mode: Mode) -> bool {
        let n = self.current_op.len();
        match op {
            Operand::MEMORY => n >= 2 && n >= 2 + disp_len(self.op(1)),
            Operand::REGISTER => n >= 2,
            Operand::SEGMENT => n >= 2,
            Operand::IMMEDIATE => if mode == Mode::M8 { n >= 2 } else { n >= 3 },
            Operand::IMMEDIATE_S => n >= 2,
            Operand::DIRECT => n >= 3,
            _ => true,
        }
    }

    /// The cycle counter allows the memory penalty to be added.
    pub open spec fn can_charge(self, extra: u8) -> bool {
        self.cycles + extra <= 255
    }

    pub open spec fn stack_addr(self) -> u32 {
        seg_addr(self.SP, self.SS)
    }

    pub open spec fn pc_addr(self) -> u32 {
        seg_addr(self.PC, self.PS)
    }

    /// The state after a word is pushed on the stack.
    pub open spec fn pushed(self, v: u16) -> CpuView {
        let s = CpuView { SP: sub16(self.SP, 2), ..self };
        s.buffered16(s.stack_addr(), v)
    }

    /// The word on top of the stack.
    pub open spec fn top(self, m: MemView) -> u16 {
        read_word(m, self.stack_addr())
    }

    /// The state after a word is popped from the stack.
    pub open spec fn popped(self) -> CpuView {
        CpuView { SP: add16(self.SP, 2), ..self }
    }

    /// The state after an exception: the return address and flags are pushed, interrupts and
    /// break are disabled, and execution continues at the vector read from the table at 0.
    pub open spec fn exception(self, m: MemView, vector: u8) -> CpuView {
        let s1 = CpuView { PC: add16(self.PC, self.pc_displacement), pc_displacement: 0, ..self };
        let s2 = s1.pushed(s1.PSW.bits);
        let s3 = s2.with_psw(s2.PSW.with(CpuStatus::INTERRUPT, false).with(CpuStatus::BREAK, false));
        let s4 = s3.pushed(s3.PS).pushed(s3.PC);
        let a = (vector * 4) as u32;
        CpuView { PC: read_word(m, a), PS: read_word(m, next_addr(a, 2)), ..s4 }
    }
}

impl V30MZ {
    /// Raises an exception with the given vector.
    #[verifier::rlimit(60)]
    pub fn raise_exception(&mut self, bus: &crate::bus::mem_bus::MemBus, vector: u8)
        requires
            old(self).wf(),
            bus.wf(),
        ensures
            final(self)@ == old(self)@.exception(bus@, vector),
            final(self).wf(),
    {
        self.PC = self.PC.wrapping_add(self.pc_displacement);
        self.pc_displacement = 0;
        let psw = self.PSW.bits();
        self.push(psw);
        self.PSW.remove(CpuStatus::INTERRUPT);
        self.PSW.remove(CpuStatus::BREAK);
        let ps = self.PS;
        self.push(ps);
        let pc = self.PC;
        self.push(pc);
        let vec_addr = (vector as u32) * 4;
        let (pc, ps) = self.read_mem_32(bus, vec_addr);
        self.PC = pc;
        self.PS = ps;
    }
}

/// The memory after the queued writes are applied in order.
pub open spec fn mem_committed(m: MemView, w: Seq<(u32, u8)>) -> MemView
    decreases w.len(),
{
    if w.len() == 0 { m } else { mem_committed(m, w.drop_last()).write(w.last().0, w.last().1) }
}

/// The ports after the queued writes are applied in order.
pub open spec fn io_committed(io: IOView, w: Seq<(u16, u8)>) -> IOView
    decreases w.len(),
{
    if w.len() == 0 { io } else { io_committed(io, w.drop_last()).write(w.last().0, w.last().1) }
}

/// The CPU and the bus once the queued memory writes, then the queued port writes, reach the bus.
pub open spec fn spec_commit(s: CpuView, m: MemView) -> (CpuView, MemView) {
    let m1 = mem_committed(m, s.mem_writes);
    (CpuView { mem_writes: seq![], io_writes: seq![], ..s }, MemView { io: io_committed(m1.io, s.io_writes), ..m1 })
}

/// The flags with their fixed bits forced: bits 1 and 12-15 on.
pub open spec fn fixed_on(p: CpuStatus) -> CpuStatus {
    CpuStatus { bits: p.bits | 0xF002 }
}

/// The flags with every fixed bit forced: bits 1 and 12-15 on, bits 3 and 5 off.
pub open spec fn fixed(p: CpuStatus) -> CpuStatus {
    fixed_on(p).with(CpuStatus::FIXED_OFF_1, false).with(CpuStatus::FIXED_OFF_2, false)
}

/// Interrupt polling: the NMI and cause ports are read; a pending request wakes the CPU, and
/// when interrupts are enabled or the request is an NMI, the exception of the vector base plus the
/// lowest cause bit is raised. The flag says whether it was.
pub open spec fn spec_poll(s: CpuView, m: MemView) -> (CpuView, MemView, bool) {
    let (io1, nmi_byte) = m.io.read(0xB7);
    let (io2, cause) = io1.read(0xB4);
    let nmi = nmi_byte != 0;
    let m2 = MemView { io: io2, ..m };
    if (cause != 0 || nmi) && m.owner != Owner::CPU {
        let s1 = CpuView { halt: false, ..s };
        if s.flag(CpuStatus::INTERRUPT) || nmi {
            let (io3, base) = io2.read(0xB0);
            let m3 = MemView { io: io3, ..m };
            let vector = ((base + vstd::std_specs::bits::u8_trailing_zeros(cause)) % 0x100) as u8;
            (s1.exception(m3, vector), m3, true)
        } else {
            (s1, m2, false)
        }
    } else {
        (s, m2, false)
    }
}

/// A cycle passes: the counter goes down and the queued writes are committed when it reaches 0.
pub open spec fn spec_count_cycle(s: CpuView, m: MemView) -> (CpuView, MemView) {
    let t = CpuView { cycles: if s.cycles > 0 { (s.cycles - 1) as u8 } else { 0 }, ..s };
    if t.cycles == 0 { spec_commit(t, m) } else { (t, m) }
}

/// The end of an instruction: interrupts stay blocked for one instruction after EI, the fixed
/// flags are forced, the instruction is left (unless a repeated block instruction goes on), BRK
/// raises exception 1, and a cycle passes.
pub open spec fn spec_finish(s: CpuView, m: MemView, old_ie: bool) -> (CpuView, MemView) {
    let s1 = CpuView {
        no_interrupt: s.flag(CpuStatus::INTERRUPT) != old_ie && !old_ie,
        PSW: fixed_on(s.PSW),
        ..s
    };
    let (s2, m2) = spec_leave(s1, m);
    spec_count_cycle(CpuView { current_op: seq![], pc_displacement: 0, ..s2 }, m2)
}

/// Leaving an instruction, unless a repeated block instruction goes on: the bus is released, the
/// prefixes end, PC moves past the instruction, and BRK raises exception 1.
pub open spec fn spec_leave(s: CpuView, m: MemView) -> (CpuView, MemView) {
    if !s.rep || s.CW == 0 {
        let t = CpuView { segment_override: None, rep: false, PC: add16(s.PC, s.pc_displacement), ..s };
        let mm = MemView { owner: Owner::NONE, ..m };
        if t.flag(CpuStatus::BREAK) { (t.exception(mm, 1), mm) } else { (t, mm) }
    } else {
        (s, m)
    }
}

/// The end of a prefix byte: it counts as an instruction of its own that blocks interrupts.
pub open spec fn spec_finish_prefix(s: CpuView, m: MemView) -> (CpuView, MemView) {
    let t = CpuView { PSW: fixed_on(s.PSW), PC: add16(s.PC, 1), current_op: seq![], pc_displacement: 0, ..s };
    let (t2, m2) = spec_count_cycle(t, m);
    (CpuView { no_interrupt: true, ..t2 }, m2)
}

/// Whether an opcode is a prefix.
pub open spec fn is_prefix(code: u8) -> bool {
    code == 0x26 || code == 0x2E || code == 0x36 || code == 0x3E || code == 0xF0 || code == 0xF2 || code == 0xF3
}

/// Whether an opcode is a block instruction, which a REP prefix repeats.
pub open spec fn is_block(code: u8) -> bool {
    (0xA4 <= code <= 0xA7) || (0x6C <= code <= 0x6F) || (0xAA <= code <= 0xAF)
}

/// What a prefix records.
pub open spec fn spec_prefix(s: CpuView, m: MemView, code: u8) -> (CpuView, MemView) {
    if code == 0x26 { (CpuView { segment_override: Some(s.DS1), ..s }, m) }
    else if code == 0x2E { (CpuView { segment_override: Some(s.PS), ..s }, m) }
    else if code == 0x36 { (CpuView { segment_override: Some(s.SS), ..s }, m) }
    else if code == 0x3E { (CpuView { segment_override: Some(s.DS0), ..s }, m) }
    else if code == 0xF0 { (s, MemView { owner: Owner::CPU, ..m }) }
    else if code == 0xF2 { (CpuView { rep: true, rep_z: false, ..s }, m) }
    else { (CpuView { rep: true, rep_z: true, ..s }, m) }
}

/// The state an instruction starts executing in: fetched, with its cycle count loaded; a REP
/// prefix only carries over to a block instruction.
pub open spec fn spec_start(s: CpuView, m: MemView) -> CpuView {
    let d = s.decoded(m);
    let code = d.op(0);
    let cycles = spec_op_timing(code).0;
    CpuView { no_interrupt: false, rep: if is_block(code) { d.rep } else { false }, base: cycles, cycles, ..d }
}

/// One instruction at PS:PC, or one prefix.
#[verifier::opaque]
pub open spec fn spec_execute(s: CpuView, m: MemView) -> (CpuView, MemView) {
    let d = spec_start(s, m);
    let code = d.op(0);
    let old_ie = d.flag(CpuStatus::INTERRUPT);
    if is_prefix(code) {
        let (p, m1) = spec_prefix(d, m, code);
        spec_finish_prefix(p, m1)
    } else {
        let (e, m1) = spec_dispatch(d, m, code, spec_op_timing(code).1);
        spec_finish(e, m1, old_ie)
    }
}

/// One tick of the CPU clock: with no cycles left, pending interrupts are taken or the next
/// instruction starts, unless the CPU is halted; otherwise a cycle passes.
#[verifier::opaque]
pub open spec fn spec_tick(s: CpuView, m: MemView) -> (CpuView, MemView) {
    let s0 = s.with_psw(fixed(s.PSW));
    if s0.cycles == 0 {
        if !s0.rep && !s0.no_interrupt {
            let (s1, m1, taken) = spec_poll(s0, m);
            if taken { (s1, m1) } else if !s1.halt { spec_execute(s1, m1) } else { (s1, m1) }
        } else if !s0.halt {
            spec_execute(s0, m)
        } else {
            (s0, m)
        }
    } else {
        spec_count_cycle(s0, m)
    }
}

/// The CPU after reset.
pub open spec fn reset_view(s: CpuView) -> CpuView {
    CpuView {
        AW: 0xFF85, BW: 0x0040, CW: 0x0004, DW: 0x0005,
        DS0: 0xFE00, DS1: 0x0000, IX: 0x0435, IY: 0x040B,
        PS: 0xFFFF, PC: 0x0000, BP: 0x0000, SP: 0x2000, SS: 0x0000,
        PSW: CpuStatus { bits: 0xF082 },
        ..s
    }
}

/// A CPU with cleared registers and the fixed flags set.
pub open spec fn initial_view(trace: bool) -> CpuView {
    CpuView {
        AW: 0, BW: 0, CW: 0, DW: 0, DS0: 0, DS1: 0, PS: 0, SS: 0, IX: 0, IY: 0, SP: 0, BP: 0,
        PC: 0, pc_displacement: 0, PSW: CpuStatus { bits: 0xF002 }, current_op: seq![],
        segment_override: None, halt: false, rep: false, rep_z: false, no_interrupt: false,
        mem_writes: seq![], io_writes: seq![], cycles: 0, base: 0, trace,
    }
}

impl V30MZ {
    /// A CPU with cleared registers and the fixed flags set.
    pub fn new(trace: bool) -> (r: Self)
        ensures
            r@ == initial_view(trace),
            r.wf(),
    {
        V30MZ {
            AW: 0, BW: 0, CW: 0, DW: 0,
            DS0: 0, DS1: 0, PS: 0, SS: 0,
            IX: 0, IY: 0,
            SP: 0, BP: 0,
            PC: 0, pc_displacement: 0,
            PSW: CpuStatus::from_bits_truncate(0xF002),
            current_op: Vec::new(),
            segment_override: None,
            halt: false, rep: false, rep_z: false,
            no_interrupt: false,
            mem_buffer: Vec::new(),
            io_buffer: Vec::new(),
            cycles: 0, base: 0,
            trace,
        }
    }

    /// Loads the registers with the values the boot ROM leaves.
    pub fn reset(&mut self)
        ensures
            final(self)@ == reset_view(old(self)@),
    {
        self.AW = 0xFF85;
        self.BW = 0x0040;
        self.CW = 0x0004;
        self.DW = 0x0005;
        self.DS0 = 0xFE00;
        self.DS1 = 0x0000;
        self.IX = 0x0435;
        self.IY = 0x040B;
        self.PS = 0xFFFF;
        self.PC = 0x0000;
        self.BP = 0x0000;
        self.SP = 0x2000;
        self.SS = 0x0000;
        self.PSW = CpuStatus::from_bits_truncate(0xF082);
    }

    /// Applies the queued memory writes, then the queued port writes, to the bus.
    pub fn commit_writes(&mut self, bus: &mut MemBus)
        requires
            old(self).wf(),
            old(bus).wf(),
        ensures
            (final(self)@, final(bus)@) == spec_commit(old(self)@, old(bus)@),
            final(self).wf(),
            final(bus).wf(),
    {
        let ghost m0 = bus@;
        let mut i: usize = 0;
        while i < self.mem_buffer.len()
            invariant
                i <= self.mem_buffer.len(),
                self.wf(),
                bus.wf(),
                bus@ == mem_committed(m0, self.mem_buffer@.subrange(0, i as int)),
            decreases self.mem_buffer.len() - i,
        {
            let (a, b) = self.mem_buffer[i];
            assert(self@.mem_writes[i as int].0 <= 0xFFFFF);
            bus.write_mem(a, b);
            assert(self.mem_buffer@.subrange(0, i as int + 1).drop_last() =~= self.mem_buffer@.subrange(0, i as int));
            i = i + 1;
        }
        assert(self.mem_buffer@.subrange(0, i as int) =~= self.mem_buffer@);
        let ghost m1 = bus@;
        let mut j: usize = 0;
        while j < self.io_buffer.len()
            invariant
                j <= self.io_buffer.len(),
                bus.wf(),
                bus@ == (MemView { io: io_committed(m1.io, self.io_buffer@.subrange(0, j as int)), ..m1 }),
            decreases self.io_buffer.len() - j,
        {
            let (a, b) = self.io_buffer[j];
            bus.io_bus.write_io(a, b);
            assert(self.io_buffer@.subrange(0, j as int + 1).drop_last() =~= self.io_buffer@.subrange(0, j as int));
            j = j + 1;
        }
        assert(self.io_buffer@.subrange(0, j as int) =~= self.io_buffer@);
        self.mem_buffer.clear();
        self.io_buffer.clear();
    }

    /// A cycle passes; the queued writes are committed when the count reaches 0.
    fn count_cycle(&mut self, bus: &mut MemBus)
        requires
            old(self).wf(),
            old(bus).wf(),
        ensures
            (final(self)@, final(bus)@) == spec_count_cycle(old(self)@, old(bus)@),
            final(self).wf(),
            final(bus).wf(),
    {
        if self.cycles > 0 {
            self.cycles = self.cycles - 1;
        }
        if self.cycles == 0 {
            self.commit_writes(bus);
        }
    }

    fn force_fixed_on(&mut self)
        ensures
            final(self)@ == old(self)@.with_psw(fixed_on(old(self).PSW)),
    {
        self.PSW = CpuStatus::from_bits_truncate(self.PSW.bits() | 0xF002);
    }

    /// Leaves an instruction unless a repeated block instruction goes on.
    #[verifier::spinoff_prover]
    fn leave_op(&mut self, bus: &mut MemBus)
        requires
            old(self).wf(),
            old(bus).wf(),
        ensures
            (final(self)@, final(bus)@) == spec_leave(old(self)@, old(bus)@),
            final(self).wf(),
            final(bus).wf(),
    {
        if !self.rep || self.CW == 0 {
            bus.owner = Owner::NONE;
            self.segment_override = None;
            self.rep = false;
            self.PC = self.PC.wrapping_add(self.pc_displacement);
            assert(self@ == CpuView {
                segment_override: None, rep: false, PC: add16(old(self)@.PC, old(self)@.pc_displacement), ..old(self)@
            });
            assert(bus@ == MemView { owner: Owner::NONE, ..old(bus)@ });
            if self.PSW.contains(CpuStatus::BREAK) {
                self.raise_exception(bus, 1);
            }
        }
    }

    /// Ends an instruction.
    pub fn finish_op(&mut self, bus: &mut MemBus, old_ie: bool)
        requires
            old(self).wf(),
            old(bus).wf(),
        ensures
            (final(self)@, final(bus)@) == spec_finish(old(self)@, old(bus)@, old_ie),
            final(self).wf(),
            final(bus).wf(),
    {
        self.no_interrupt = (self.PSW.contains(CpuStatus::INTERRUPT) != old_ie) && !old_ie;
        self.force_fixed_on();
        self.leave_op(bus);
        self.current_op.clear();
        self.pc_displacement = 0;
        self.count_cycle(bus);
    }

    /// Ends a prefix byte.
    pub fn finish_prefix(&mut self, bus: &mut MemBus)
        requires
            old(self).wf(),
            old(bus).wf(),
        ensures
            (final(self)@, final(bus)@) == spec_finish_prefix(old(self)@, old(bus)@),
            final(self).wf(),
            final(bus).wf(),
    {
        self.force_fixed_on();
        self.PC = self.PC.wrapping_add(1);
        self.current_op.clear();
        self.pc_displacement = 0;
        self.count_cycle(bus);
        self.no_interrupt = true;
    }

    /// Raises the exception of the vector base plus the lowest bit of the cause.
    #[verifier::rlimit(100)]
    fn take_interrupt(&mut self, bus: &mut MemBus, cause: u8)
        requires
            old(self).wf(),
            old(bus).wf(),
        ensures
            ({
                let (io3, base) = old(bus)@.io.read(0xB0);
                let m3 = MemView { io: io3, ..old(bus)@ };
                let vector = ((base + vstd::std_specs::bits::u8_trailing_zeros(cause)) % 0x100) as u8;
                &&& final(bus)@ == m3
                &&& final(self)@ == old(self)@.exception(m3, vector)
            }),
            final(self).wf(),
            final(bus).wf(),
    {
        let source = cause.trailing_zeros() as u8;
        let base = bus.io_bus.read_io(0xB0);
        let vector = base.wrapping_add(source);
        self.raise_exception(bus, vector);
    }

    /// Takes a pending interrupt; returns whether an exception was raised.
    pub fn poll_interrupts(&mut self, bus: &mut MemBus) -> (r: bool)
        requires
            old(self).wf(),
            old(bus).wf(),
        ensures
            (final(self)@, final(bus)@, r) == spec_poll(old(self)@, old(bus)@),
            final(self).wf(),
            final(bus).wf(),
    {
        let nmi = bus.io_bus.read_io(0xB7) != 0;
        let cause = bus.io_bus.read_io(0xB4);
        if (cause != 0 || nmi) && bus.owner != Owner::CPU {
            self.halt = false;
            if self.PSW.contains(CpuStatus::INTERRUPT) || nmi {
                self.take_interrupt(bus, cause);
                return true;
            }
        }
        false
    }

    fn force_fixed(&mut self)
        ensures
            final(self)@ == old(self)@.with_psw(fixed(old(self).PSW)),
    {
        self.PSW = self.PSW.union(CpuStatus::from_bits_truncate(0xF002));
        self.PSW.remove(CpuStatus::FIXED_OFF_1);
        self.PSW.remove(CpuStatus::FIXED_OFF_2);
    }

    /// One tick of the CPU clock.
    pub fn tick(&mut self, bus: &mut MemBus)
        requires
            old(self).wf(),
            old(bus).wf(),
            old(self).current_op.len() <= 8,
        ensures
            (final(self)@, final(bus)@) == spec_tick(old(self)@, old(bus)@),
            final(self).wf(),
            final(bus).wf(),
            final(self).current_op.len() <= 8,
    {
        proof {
            reveal(spec_tick);
        }
        self.force_fixed();
        if self.cycles == 0 {
            if !self.rep && !self.no_interrupt {
                if self.poll_interrupts(bus) {
                    return;
                }
            }
            if !self.halt {
                self.execute(bus);
            }
        } else {
            self.count_cycle(bus);
        }
    }

    /// Runs the next instruction at once and commits its writes, whatever its cycle count; when a
    /// pending interrupt is taken instead, nothing more happens and the writes stay queued.
    #[verifier::rlimit(100)]
    pub fn tick_ignore_cycles(&mut self, bus: &mut MemBus)
        requires
            old(self).wf(),
            old(bus).wf(),
            old(self).current_op.len() <= 8,
        ensures
            final(self).wf(),
            final(bus).wf(),
            final(self).current_op.len() <= 8,
            ({
                let (s1, m1, taken) = if !old(self).rep { spec_poll(old(self)@, old(bus)@) } else { (old(self)@, old(bus)@, false) };
                if taken {
                    (final(self)@, final(bus)@) == (s1, m1)
                } else {
                    let (s2, m2) = if s1.halt { (s1, m1) } else { spec_execute(s1, m1) };
                    (final(self)@, final(bus)@) == spec_commit(s2, m2)
                }
            }),
    {
        if !self.rep {
            if self.poll_interrupts(bus) {
                return;
            }
        }
        if !self.halt {
            self.execute(bus);
        }
        self.commit_writes(bus);
    }

    /// Fetches the next instruction and loads its cycle count; a REP prefix only carries over to
    /// a block instruction. Returns the opcode and the extra cycles of a taken branch.
    fn start_op(&mut self, bus: &MemBus) -> (r: (OpCode, u8))
        requires
            old(self).wf(),
            bus.wf(),
            old(self).current_op.len() <= 8,
        ensures
            final(self)@ == spec_start(old(self)@, bus@),
            ready(final(self)@, r.0.code, r.1),
            (r.0.op1, r.0.op2, r.0.mode, r.0.op3) == spec_op_info(r.0.code),
            final(self).wf(),
    {
        let op = self.allocate_instruction(bus);
        self.no_interrupt = false;
        let code = op.code;
        if !((0xA4 <= code && code <= 0xA7) || (0x6C <= code && code <= 0x6F) || (0xAA <= code && code <= 0xAF)) {
            self.rep = false;
        }
        let (cycles, extra) = op_timing(code);
        self.base = cycles;
        self.cycles = cycles;
        (op, extra)
    }

    /// Records a prefix and ends it.
    fn run_prefix(&mut self, bus: &mut MemBus, code: u8)
        requires
            old(self).wf(),
            old(bus).wf(),
            is_prefix(code),
        ensures
            (final(self)@, final(bus)@) == ({
                let (p, m1) = spec_prefix(old(self)@, old(bus)@, code);
                spec_finish_prefix(p, m1)
            }),
            final(self).wf(),
            final(bus).wf(),
            final(self).current_op.len() == 0,
    {
        if code == 0x26 {
            self.segment_override = Some(self.DS1);
        } else if code == 0x2E {
            self.segment_override = Some(self.PS);
        } else if code == 0x36 {
            self.segment_override = Some(self.SS);
        } else if code == 0x3E {
            self.segment_override = Some(self.DS0);
        } else if code == 0xF0 {
            bus.owner = Owner::CPU;
        } else if code == 0xF2 {
            self.rep = true;
            self.rep_z = false;
        } else {
            self.rep = true;
            self.rep_z = true;
        }
        self.finish_prefix(bus);
    }

    /// Fetches and executes one instruction, or one prefix.
    pub fn execute(&mut self, bus: &mut MemBus)
        requires
            old(self).wf(),
            old(bus).wf(),
            old(self).current_op.len() <= 8,
        ensures
            (final(self)@, final(bus)@) == spec_execute(old(self)@, old(bus)@),
            final(self).wf(),
            final(bus).wf(),
            final(self).current_op.len() == 0,
    {
        proof {
            reveal(spec_execute);
        }
        let (op, extra) = self.start_op(bus);
        let code = op.code;
        let old_ie = self.PSW.contains(CpuStatus::INTERRUPT);
        if code == 0x26 || code == 0x2E || code == 0x36 || code == 0x3E || code == 0xF0 || code == 0xF2 || code == 0xF3 {
            self.run_prefix(bus, code);
            return;
        }
        self.dispatch(bus, &op, extra);
        self.finish_op(bus, old_ie);
    }
}

} // verus!
