//! Register access, operand decoding, buffered bus access and flag computation of the V30MZ.
use vstd::prelude::*;
use crate::bits::{word, lo8, hi8, u16_from_le, u16_to_le, lemma_byte_fields, lemma_word_fields, lemma_u32_fields, lemma_low_mask32};
use crate::bus::mem_bus::{MemBus, MemView};
use crate::cpu::{Mode, Operand, RegisterType, MemOperand, swap_h, swap_l, spec_swap_h, spec_swap_l, parity, even_parity};
use crate::cpu::flags::CpuStatus;
use crate::cpu::opcode::{OpCode, cpu_op_code, spec_op_info};
use crate::cpu::v30mz::{V30MZ, CpuView, add16, sub16, sext8, seg_addr, next_addr, read_word, disp_len, is_reg_modrm};

verus! {

/// The register a register field names in a given width.
pub open spec fn spec_register_operand(bits: u8, mode: Mode) -> RegisterType {
    if mode == Mode::M8 {
        if bits < 4 { RegisterType::RL(bits) } else { RegisterType::RH((bits - 4) as u8) }
    } else {
        RegisterType::RW(bits)
    }
}

/// The operand a mod/r/m byte designates and the default segment of the access.
pub open spec fn spec_mem_operand(s: CpuView, byte: u8, mode: Mode) -> (MemOperand, u16) {
    if is_reg_modrm(byte) {
        (MemOperand::Register(spec_register_operand(byte & 7, mode)), s.DS0)
    } else {
        (MemOperand::Offset(s.ea(byte).0), s.ea(byte).1)
    }
}

/// The value held by a register.
pub open spec fn register_value(s: CpuView, r: RegisterType) -> u16 {
    match r {
        RegisterType::RW(i) => s.reg16(i),
        RegisterType::RH(i) => hi8(s.reg16(i)) as u16,
        RegisterType::RL(i) => lo8(s.reg16(i)) as u16,
    }
}

// Flag computations

#[verifier::opaque]
pub open spec fn flags_sub8(psw: CpuStatus, a: u8, b: u8, res: u8, carry: u8) -> CpuStatus {
    let old_sign = a & 0x80;
    let new_sign = res & 0x80;
    psw.with(CpuStatus::ZERO, res == 0)
        .with(CpuStatus::SIGN, new_sign != 0)
        .with(CpuStatus::OVERFLOW, old_sign != b & 0x80 && old_sign != new_sign)
        .with(CpuStatus::CARRY, a < b || a < b + carry)
        .with(CpuStatus::PARITY, even_parity(res))
        .with(CpuStatus::AUX_CARRY, a & 0x0F < b & 0x0F || (a & 0x0F) - (b & 0x0F) < carry)
}

#[verifier::opaque]
pub open spec fn flags_sub16(psw: CpuStatus, a: u16, b: u16, res: u16, carry: u16) -> CpuStatus {
    let old_sign = a & 0x8000;
    let new_sign = res & 0x8000;
    psw.with(CpuStatus::ZERO, res == 0)
        .with(CpuStatus::SIGN, new_sign != 0)
        .with(CpuStatus::OVERFLOW, old_sign != b & 0x8000 && old_sign != new_sign)
        .with(CpuStatus::CARRY, a < b || a < b + carry)
        .with(CpuStatus::PARITY, even_parity(lo8(res)))
        .with(CpuStatus::AUX_CARRY, a & 0x0F < b & 0x0F || (a & 0x0F) - (b & 0x0F) < carry)
}

#[verifier::opaque]
pub open spec fn flags_add8(psw: CpuStatus, a: u16, b: u16, res: u16, carry: u16) -> CpuStatus {
    let sign = res & 0x80;
    psw.with(CpuStatus::ZERO, lo8(res) == 0)
        .with(CpuStatus::SIGN, sign != 0)
        .with(CpuStatus::OVERFLOW, sign != a & 0x80 && sign != b & 0x80)
        .with(CpuStatus::CARRY, res > 0xFF)
        .with(CpuStatus::PARITY, even_parity(lo8(res)))
        .with(CpuStatus::AUX_CARRY, (a & 0xF) + (b & 0xF) + carry > 0xF)
}

#[verifier::opaque]
pub open spec fn flags_add16(psw: CpuStatus, a: u32, b: u32, res: u32, carry: u32) -> CpuStatus {
    let sign = res & 0x8000;
    psw.with(CpuStatus::ZERO, res % 0x10000 == 0)
        .with(CpuStatus::SIGN, sign != 0)
        .with(CpuStatus::OVERFLOW, sign != a & 0x8000 && sign != b & 0x8000)
        .with(CpuStatus::CARRY, res > 0xFFFF)
        .with(CpuStatus::PARITY, even_parity((res % 256) as u8))
        .with(CpuStatus::AUX_CARRY, (a & 0xF) + (b & 0xF) + carry > 0xF)
}

#[verifier::opaque]
pub open spec fn flags_bitwise8(psw: CpuStatus, res: u8) -> CpuStatus {
    psw.with(CpuStatus::ZERO, res == 0)
        .with(CpuStatus::SIGN, res & 0x80 != 0)
        .with(CpuStatus::OVERFLOW, false)
        .with(CpuStatus::CARRY, false)
        .with(CpuStatus::AUX_CARRY, false)
        .with(CpuStatus::PARITY, even_parity(res))
}

#[verifier::opaque]
pub open spec fn flags_bitwise16(psw: CpuStatus, res: u16) -> CpuStatus {
    psw.with(CpuStatus::ZERO, res == 0)
        .with(CpuStatus::SIGN, res & 0x8000 != 0)
        .with(CpuStatus::OVERFLOW, false)
        .with(CpuStatus::CARRY, false)
        .with(CpuStatus::AUX_CARRY, false)
        .with(CpuStatus::PARITY, even_parity(lo8(res)))
}

/// Rotation and shift count of a shift-group instruction.
pub open spec fn spec_rot_src(s: CpuView, code: u8) -> u8 {
    let c = code & 0xFE;
    if c == 0xC0 { s.imm8() & 0x1F } else if c == 0xD0 { 1 } else { lo8(s.CW) & 0x1F }
}

/// Whether an opcode's operands include `o`.
pub open spec fn uses(info: (Operand, Operand, Mode, Option<Operand>), o: Operand) -> bool {
    info.0 == o || info.1 == o || info.3 == Some(o)
}

/// The length in bytes of the instruction that starts with `code`, given its mod/r/m byte.
pub open spec fn decode_len(code: u8, modrm: u8) -> nat {
    let info = spec_op_info(code);
    if code == 0x9A || code == 0xEA {
        5
    } else if code == 0xC8 {
        4
    } else {
        let has_mem = uses(info, Operand::MEMORY);
        let after_mem: nat = if has_mem { 2 + disp_len(modrm) } else { 1 };
        if has_mem && (code == 0xF6 || code == 0xF7) && (modrm >> 3) & 7 != 0 {
            after_mem
        } else {
            let imm = uses(info, Operand::IMMEDIATE);
            if (((imm && info.2 == Mode::M8) || uses(info, Operand::IMMEDIATE_S)) && code != 0xE8 && code != 0xE9)
                || code == 0xC1 || code == 0xE5 || code == 0xE7 {
                after_mem + 1
            } else if imm || uses(info, Operand::DIRECT) || code == 0xE8 || code == 0xE9 {
                after_mem + 2
            } else {
                after_mem
            }
        }
    }
}

impl CpuView {
    /// Byte `i` of the instruction at PS:PC: a byte already in `current_op`, or the one in memory.
    pub open spec fn fetch_byte(self, m: MemView, i: int) -> u8 {
        if i < self.current_op.len() { self.current_op[i] } else { m.read(next_addr(self.pc_addr(), i)) }
    }

    /// The instruction bytes once the first `k` bytes have been fetched.
    pub open spec fn fetched(self, m: MemView, k: nat) -> Seq<u8> {
        let n = if self.current_op.len() > k { self.current_op.len() } else { k };
        Seq::new(n, |i: int| self.fetch_byte(m, i))
    }

    /// The length of the instruction at PS:PC.
    pub open spec fn instr_len(self, m: MemView) -> nat {
        decode_len(self.fetch_byte(m, 0), self.fetch_byte(m, 1))
    }

    /// The state once the instruction at PS:PC has been fetched.
    pub open spec fn decoded(self, m: MemView) -> CpuView {
        CpuView {
            current_op: self.fetched(m, self.instr_len(m)),
            pc_displacement: self.instr_len(m) as u16,
            ..self
        }
    }

    /// The state after a register is loaded with the immediate that follows the opcode.
    pub open spec fn reg_imm_loaded(self, mode: Mode) -> CpuView {
        if mode == Mode::M8 {
            self.set_reg8(self.op(0) & 7, self.op(1))
        } else {
            self.set_reg16(self.op(0) & 7, word(self.op(1), self.op(2)))
        }
    }

    /// The state after a relative branch on the 8-bit displacement of the instruction.
    pub open spec fn branched(self, cond: bool) -> CpuView {
        if cond {
            CpuView { PC: add16(add16(self.PC, self.pc_displacement), sext8(self.op(1))), pc_displacement: 0, ..self }
        } else {
            self
        }
    }
}

/// Sign-extends a byte to a word.
pub fn sign_extend(b: u8) -> (r: u16)
    ensures
        r == sext8(b),
{
    if b < 0x80 {
        b as u16
    } else {
        let w = b as u16;
        proof {
            lemma_word_fields(w);
        }
        w | 0xFF00
    }
}

impl V30MZ {
    pub open spec fn wf(&self) -> bool {
        self@.wf()
    }

    // Registers

    pub fn get_reg16(&self, i: u8) -> (r: u16)
        ensures
            r == self@.reg16(i),
    {
        if i == 0 { self.AW } else if i == 1 { self.CW } else if i == 2 { self.DW } else if i == 3 { self.BW }
        else if i == 4 { self.SP } else if i == 5 { self.BP } else if i == 6 { self.IX } else { self.IY }
    }

    pub fn set_reg16(&mut self, i: u8, v: u16)
        ensures
            final(self)@ == old(self)@.set_reg16(i, v),
    {
        if i == 0 { self.AW = v } else if i == 1 { self.CW = v } else if i == 2 { self.DW = v }
        else if i == 3 { self.BW = v } else if i == 4 { self.SP = v } else if i == 5 { self.BP = v }
        else if i == 6 { self.IX = v } else { self.IY = v }
    }

    pub fn get_reg8(&self, i: u8) -> (r: u8)
        ensures
            r == self@.reg8(i),
    {
        if i < 4 {
            u16_to_le(self.get_reg16(i)).0
        } else {
            u16_to_le(self.get_reg16(i - 4)).1
        }
    }

    pub fn set_reg8(&mut self, i: u8, v: u8)
        ensures
            final(self)@ == old(self)@.set_reg8(i, v),
    {
        if i < 4 {
            let w = swap_l(self.get_reg16(i), v);
            self.set_reg16(i, w);
        } else {
            let w = swap_h(self.get_reg16(i - 4), v);
            self.set_reg16(i - 4, w);
        }
    }

    /// The register that a register field names in the given width.
    pub fn resolve_register_operand(&self, bits: u8, mode: Mode) -> (r: RegisterType)
        requires
            bits < 8,
            mode != Mode::M32,
        ensures
            r == spec_register_operand(bits, mode),
    {
        match mode {
            Mode::M8 => if bits < 4 { RegisterType::RL(bits) } else { RegisterType::RH(bits - 4) },
            _ => RegisterType::RW(bits),
        }
    }

    /// The value of a register.
    pub fn register_value(&self, r: RegisterType) -> (v: u16)
        ensures
            v == register_value(self@, r),
    {
        match r {
            RegisterType::RW(i) => self.get_reg16(i),
            RegisterType::RH(i) => u16_to_le(self.get_reg16(i)).1 as u16,
            RegisterType::RL(i) => u16_to_le(self.get_reg16(i)).0 as u16,
        }
    }

    /// The value of a segment register: 0 DS1, 1 PS, 2 SS, 3 DS0.
    pub fn resolve_segment(&self, bits: u8) -> (r: u16)
        ensures
            r == self@.seg(bits),
    {
        if bits == 0 { self.DS1 } else if bits == 1 { self.PS } else if bits == 2 { self.SS } else { self.DS0 }
    }

    pub fn set_segment(&mut self, bits: u8, v: u16)
        ensures
            final(self)@ == old(self)@.set_seg(bits, v),
    {
        if bits == 0 { self.DS1 = v } else if bits == 1 { self.PS = v } else if bits == 2 { self.SS = v } else { self.DS0 = v }
    }

    // Addresses

    /// The 20-bit physical address of an offset in a segment.
    pub fn apply_segment(&self, offset: u16, segment: u16) -> (r: u32)
        ensures
            r == seg_addr(offset, segment),
            r <= 0xFFFFF,
    {
        let s = segment as u32;
        let o = offset as u32;
        proof {
            lemma_u32_fields(s);
        }
        let t: u32 = (s << 4u32) + o;
        proof {
            lemma_low_mask32(t);
        }
        t & 0xFFFFF
    }

    /// The physical address of an offset, with a segment override in place of the default segment.
    pub fn get_physical_address(&self, offset: u16, default_segment: u16) -> (r: u32)
        ensures
            r == self@.phys(offset, default_segment),
            r <= 0xFFFFF,
    {
        let segment = match self.segment_override {
            None => default_segment,
            Some(s) => s,
        };
        self.apply_segment(offset, segment)
    }

    pub fn get_stack_address(&self) -> (r: u32)
        ensures
            r == self@.stack_addr(),
            r <= 0xFFFFF,
    {
        self.apply_segment(self.SP, self.SS)
    }

    pub fn get_pc_address(&self) -> (r: u32)
        ensures
            r == self@.pc_addr(),
            r <= 0xFFFFF,
    {
        self.apply_segment(self.PC, self.PS)
    }

    /// The port of an IN or OUT: the immediate byte, or DW.
    pub fn get_io_address(&self, src: Operand) -> (r: u16)
        requires
            src == Operand::IMMEDIATE ==> self.current_op.len() >= 2,
            src == Operand::IMMEDIATE || src == Operand::NONE,
        ensures
            r == (if src == Operand::IMMEDIATE { self@.op(1) as u16 } else { self.DW }),
    {
        match src {
            Operand::IMMEDIATE => self.current_op[1] as u16,
            _ => self.DW,
        }
    }

    // Buffered bus access

    pub fn read_mem(&self, bus: &MemBus, addr: u32) -> (r: u8)
        requires
            bus.wf(),
            addr <= 0xFFFFF,
        ensures
            r == bus@.read(addr),
    {
        bus.read_mem(addr)
    }

    pub fn read_mem_16(&self, bus: &MemBus, addr: u32) -> (r: u16)
        requires
            bus.wf(),
            addr <= 0xFFFFF,
        ensures
            r == read_word(bus@, addr),
    {
        let lo = bus.read_mem(addr);
        let hi = bus.read_mem((addr + 1) % 0x100000);
        u16_from_le(lo, hi)
    }

    pub fn read_mem_32(&self, bus: &MemBus, addr: u32) -> (r: (u16, u16))
        requires
            bus.wf(),
            addr <= 0xFFFFF,
        ensures
            r == (read_word(bus@, addr), read_word(bus@, next_addr(addr, 2))),
    {
        let a = self.read_mem_16(bus, addr);
        let b = self.read_mem_16(bus, (addr + 2) % 0x100000);
        (a, b)
    }

    /// Queues a memory write for the end of the instruction.
    pub fn write_mem(&mut self, addr: u32, byte: u8)
        requires
            old(self).wf(),
            addr <= 0xFFFFF,
        ensures
            final(self)@ == old(self)@.buffered(addr, byte),
            final(self).wf(),
    {
        self.mem_buffer.push((addr, byte));
    }

    /// Queues a little-endian word write for the end of the instruction.
    pub fn write_mem_16(&mut self, addr: u32, w: u16)
        requires
            old(self).wf(),
            addr <= 0xFFFFF,
        ensures
            final(self)@ == old(self)@.buffered16(addr, w),
            final(self).wf(),
    {
        let (lo, hi) = u16_to_le(w);
        self.write_mem(addr, lo);
        self.write_mem((addr + 1) % 0x100000, hi);
    }

    /// Queues a port write for the end of the instruction.
    pub fn write_io(&mut self, addr: u16, byte: u8)
        ensures
            final(self)@ == old(self)@.io_buffered(addr, byte),
    {
        self.io_buffer.push((addr, byte));
    }

    pub fn write_io_16(&mut self, addr: u16, w: u16)
        ensures
            final(self)@ == old(self)@.io_buffered(addr, lo8(w)).io_buffered(addr.wrapping_add(1), hi8(w)),
    {
        let (lo, hi) = u16_to_le(w);
        self.write_io(addr, lo);
        self.write_io(addr.wrapping_add(1), hi);
    }

    /// Reads a port; port reads reach the bus at once.
    pub fn read_io(&self, bus: &mut MemBus, addr: u16) -> (r: u8)
        requires
            old(bus).wf(),
        ensures
            (final(bus)@.io, r) == old(bus)@.io.read(addr),
            final(bus)@ == (MemView { io: final(bus)@.io, ..old(bus)@ }),
            final(bus).wf(),
    {
        bus.io_bus.read_io(addr)
    }

    pub fn read_io_16(&self, bus: &mut MemBus, addr: u16) -> (r: (u8, u8))
        requires
            old(bus).wf(),
        ensures
            ({
                let (v1, b1) = old(bus)@.io.read(addr);
                let (v2, b2) = v1.read(addr.wrapping_add(1));
                final(bus)@.io == v2 && r == (b1, b2)
            }),
            final(bus)@ == (MemView { io: final(bus)@.io, ..old(bus)@ }),
            final(bus).wf(),
    {
        bus.io_bus.read_io_16(addr)
    }

    // Instruction bytes and operands

    pub fn get_imm8(&self) -> (r: u8)
        requires
            self.current_op.len() >= 1,
        ensures
            r == self@.imm8(),
    {
        self.current_op[self.current_op.len() - 1]
    }

    pub fn get_imm16(&self) -> (r: u16)
        requires
            self.current_op.len() >= 2,
        ensures
            r == self@.imm16(),
    {
        let n = self.current_op.len();
        u16_from_le(self.current_op[n - 2], self.current_op[n - 1])
    }

    pub fn get_direct_mem_address(&self) -> (r: u32)
        requires
            self.current_op.len() >= 3,
        ensures
            r == self@.direct_addr(),
    {
        u16_from_le(self.current_op[1], self.current_op[2]) as u32
    }

    /// The register named by the reg field of the mod/r/m byte.
    fn reg_bits(&self) -> (r: u8)
        requires
            self.current_op.len() >= 2,
        ensures
            r == self@.reg_field(),
            r < 8,
    {
        let b = self.current_op[1];
        proof {
            lemma_byte_fields(b);
        }
        (b >> 3) & 7
    }

    /// The operand a mod/r/m byte designates and the default segment of the access.
    pub fn resolve_mem_operand(&self, byte: u8, mode: Mode) -> (r: (MemOperand, u16))
        requires
            mode != Mode::M32,
            is_reg_modrm(byte) || self.current_op.len() >= 2 + disp_len(byte),
        ensures
            r == spec_mem_operand(self@, byte, mode),
    {
        let a = byte >> 6;
        let m = byte & 0b111;
        proof {
            lemma_byte_fields(byte);
        }
        if a == 3 {
            return (MemOperand::Register(self.resolve_register_operand(m, mode)), self.DS0);
        }
        if a == 0 && m == 6 {
            let offset = u16_from_le(self.current_op[2], self.current_op[3]);
            return (MemOperand::Offset(offset), self.DS0);
        }
        let (base, segment) = self.ea_base(m);
        let displacement = self.ea_disp(a);
        (MemOperand::Offset(base.wrapping_add(displacement)), segment)
    }

    fn ea_base(&self, m: u8) -> (r: (u16, u16))
        ensures
            r == self@.ea_base(m),
    {
        if m == 0 {
            (self.BW.wrapping_add(self.IX), self.DS0)
        } else if m == 1 {
            (self.BW.wrapping_add(self.IY), self.DS0)
        } else if m == 2 {
            (self.BP.wrapping_add(self.IX), self.SS)
        } else if m == 3 {
            (self.BP.wrapping_add(self.IY), self.SS)
        } else if m == 4 {
            (self.IX, self.DS0)
        } else if m == 5 {
            (self.IY, self.DS0)
        } else if m == 6 {
            (self.BP, self.SS)
        } else {
            (self.BW, self.DS0)
        }
    }

    fn ea_disp(&self, a: u8) -> (r: u16)
        requires
            a == 1 ==> self.current_op.len() >= 3,
            a >= 2 ==> self.current_op.len() >= 4,
        ensures
            r == self@.ea_disp(a),
    {
        if a == 0 {
            0u16
        } else if a == 1 {
            sign_extend(self.current_op[2])
        } else {
            u16_from_le(self.current_op[2], self.current_op[3])
        }
    }

    /// Adds the memory-operand penalty once, when the mod/r/m byte designates memory.
    pub fn charge_memory_operand(&mut self, byte: u8, extra: u8)
        requires
            old(self)@.can_charge(extra),
        ensures
            final(self)@ == old(self)@.charge(byte, extra),
    {
        if byte >> 6 != 3 && self.cycles == self.base {
            self.cycles = self.cycles + extra;
        }
    }

    /// Adds the memory-operand penalty when either operand is a mod/r/m operand.
    pub fn charge_operands(&mut self, op1: Operand, op2: Operand, extra: u8)
        requires
            old(self)@.can_charge(extra),
            (op1 == Operand::MEMORY || op2 == Operand::MEMORY) ==> old(self).current_op.len() >= 2,
        ensures
            final(self)@ == old(self)@.charge_ops(op1, op2, extra),
    {
        if op1 == Operand::MEMORY || op2 == Operand::MEMORY {
            let b = self.current_op[1];
            self.charge_memory_operand(b, extra);
        }
    }

    fn mem_operand_address(&self, byte: u8) -> (r: u32)
        requires
            !is_reg_modrm(byte),
            self.current_op.len() >= 2 + disp_len(byte),
        ensures
            r == self@.rm_addr(byte),
            r <= 0xFFFFF,
    {
        match self.resolve_mem_operand(byte, Mode::M16) {
            (MemOperand::Offset(offset), segment) => self.get_physical_address(offset, segment),
            (MemOperand::Register(_), _) => 0,
        }
    }

    pub fn resolve_mem_src_8(&self, bus: &MemBus, byte: u8) -> (r: u8)
        requires
            bus.wf(),
            is_reg_modrm(byte) || self.current_op.len() >= 2 + disp_len(byte),
        ensures
            r == self@.rm8(bus@, byte),
    {
        if byte >> 6 == 3 {
            let m = byte & 7;
            proof {
                lemma_byte_fields(byte);
            }
            self.get_reg8(m)
        } else {
            let addr = self.mem_operand_address(byte);
            self.read_mem(bus, addr)
        }
    }

    pub fn resolve_mem_src_16(&self, bus: &MemBus, byte: u8) -> (r: u16)
        requires
            bus.wf(),
            is_reg_modrm(byte) || self.current_op.len() >= 2 + disp_len(byte),
        ensures
            r == self@.rm16(bus@, byte),
    {
        if byte >> 6 == 3 {
            let m = byte & 7;
            self.get_reg16(m)
        } else {
            let addr = self.mem_operand_address(byte);
            self.read_mem_16(bus, addr)
        }
    }

    pub fn resolve_mem_src_32(&self, bus: &MemBus, byte: u8) -> (r: (u16, u16))
        requires
            bus.wf(),
            !is_reg_modrm(byte),
            self.current_op.len() >= 2 + disp_len(byte),
        ensures
            r == self@.rm32(bus@, byte),
    {
        let addr = self.mem_operand_address(byte);
        self.read_mem_32(bus, addr)
    }

    /// The value of an 8-bit source operand.
    pub fn resolve_src_8(&self, bus: &MemBus, op: Operand) -> (r: u8)
        requires
            bus.wf(),
            op == Operand::MEMORY || op == Operand::REGISTER || op == Operand::ACCUMULATOR
                || op == Operand::IMMEDIATE || op == Operand::DIRECT,
            self@.operand_present(op, Mode::M8),
        ensures
            r == self@.src8(bus@, op),
    {
        match op {
            Operand::MEMORY => self.resolve_mem_src_8(bus, self.current_op[1]),
            Operand::REGISTER => self.get_reg8(self.reg_bits()),
            Operand::ACCUMULATOR => u16_to_le(self.AW).0,
            Operand::IMMEDIATE => self.current_op[1],
            _ => {
                let addr = self.get_direct_mem_address();
                self.read_mem(bus, addr)
            }
        }
    }

    /// The value of a 16-bit source operand.
    pub fn resolve_src_16(&self, bus: &MemBus, op: Operand) -> (r: u16)
        requires
            bus.wf(),
            op != Operand::NONE,
            self@.operand_present(op, Mode::M16),
        ensures
            r == self@.src16(bus@, op),
    {
        match op {
            Operand::MEMORY => self.resolve_mem_src_16(bus, self.current_op[1]),
            Operand::REGISTER => self.get_reg16(self.reg_bits()),
            Operand::ACCUMULATOR => self.AW,
            Operand::IMMEDIATE => u16_from_le(self.current_op[1], self.current_op[2]),
            Operand::SEGMENT => self.resolve_segment((self.current_op[1] >> 3) & 3),
            Operand::IMMEDIATE_S => sign_extend(self.current_op[1]),
            _ => {
                let addr = self.get_direct_mem_address();
                self.read_mem_16(bus, addr)
            }
        }
    }

    /// Writes a byte to the mod/r/m operand.
    pub fn write_mem_operand_8(&mut self, src: u8)
        requires
            old(self).wf(),
            old(self)@.operand_present(Operand::MEMORY, Mode::M8),
        ensures
            final(self)@ == old(self)@.with_rm8(old(self)@.op(1), src),
            final(self).wf(),
    {
        let byte = self.current_op[1];
        if byte >> 6 == 3 {
            let m = byte & 7;
            self.set_reg8(m, src);
        } else {
            let addr = self.mem_operand_address(byte);
            self.write_mem(addr, src);
        }
    }

    /// Writes a word to the mod/r/m operand.
    pub fn write_mem_operand_16(&mut self, src: u16)
        requires
            old(self).wf(),
            old(self)@.operand_present(Operand::MEMORY, Mode::M16),
        ensures
            final(self)@ == old(self)@.with_rm16(old(self)@.op(1), src),
            final(self).wf(),
    {
        let byte = self.current_op[1];
        if byte >> 6 == 3 {
            let m = byte & 7;
            self.set_reg16(m, src);
        } else {
            let addr = self.mem_operand_address(byte);
            self.write_mem_16(addr, src);
        }
    }

    pub fn write_reg_operand_16(&mut self, src: u16, bits: u8)
        ensures
            final(self)@ == old(self)@.set_reg16(bits, src),
    {
        self.set_reg16(bits, src);
    }

    pub fn write_reg_operand_8(&mut self, src: u8, bits: u8)
        ensures
            final(self)@ == old(self)@.set_reg8(bits, src),
    {
        self.set_reg8(bits, src);
    }

    /// Writes the segment register named by bits 3-4 of the mod/r/m byte.
    pub fn write_to_seg_operand(&mut self, src: u16)
        requires
            old(self).current_op.len() >= 2,
        ensures
            final(self)@ == old(self)@.set_seg((old(self)@.op(1) >> 3) & 3, src),
    {
        let s_bits = (self.current_op[1] >> 3) & 3;
        self.set_segment(s_bits, src);
    }

    /// Writes an 8-bit destination operand.
    pub fn write_src_to_dest_8(&mut self, dest: Operand, src: u8)
        requires
            old(self).wf(),
            dest == Operand::MEMORY || dest == Operand::REGISTER || dest == Operand::ACCUMULATOR || dest == Operand::DIRECT,
            old(self)@.operand_present(dest, Mode::M8),
        ensures
            final(self)@ == old(self)@.dest8(dest, src),
            final(self).wf(),
    {
        match dest {
            Operand::MEMORY => self.write_mem_operand_8(src),
            Operand::REGISTER => {
                let bits = self.reg_bits();
                self.write_reg_operand_8(src, bits);
            }
            Operand::ACCUMULATOR => self.AW = swap_l(self.AW, src),
            _ => {
                let addr = self.get_direct_mem_address();
                self.write_mem(addr, src);
            }
        }
    }

    /// Writes a 16-bit destination operand.
    pub fn write_src_to_dest_16(&mut self, dest: Operand, src: u16)
        requires
            old(self).wf(),
            dest == Operand::MEMORY || dest == Operand::REGISTER || dest == Operand::ACCUMULATOR
                || dest == Operand::SEGMENT || dest == Operand::DIRECT,
            old(self)@.operand_present(dest, Mode::M16),
        ensures
            final(self)@ == old(self)@.dest16(dest, src),
            final(self).wf(),
    {
        match dest {
            Operand::MEMORY => self.write_mem_operand_16(src),
            Operand::REGISTER => {
                let bits = self.reg_bits();
                self.write_reg_operand_16(src, bits);
            }
            Operand::ACCUMULATOR => self.AW = src,
            Operand::SEGMENT => self.write_to_seg_operand(src),
            _ => {
                let addr = self.get_direct_mem_address();
                self.write_mem_16(addr, src);
            }
        }
    }

    // Flags

    pub fn update_flags_sub_8(&mut self, a: u8, b: u8, res: u8, carry: u8)
        ensures
            final(self)@ == old(self)@.with_psw(flags_sub8(old(self).PSW, a, b, res, carry)),
    {
        reveal(flags_sub8);
        let old_sign = a & 0x80;
        let new_sign = res & 0x80;
        self.PSW.set(CpuStatus::ZERO, res == 0);
        self.PSW.set(CpuStatus::SIGN, new_sign != 0);
        self.PSW.set(CpuStatus::OVERFLOW, old_sign != b & 0x80 && old_sign != new_sign);
        self.PSW.set(CpuStatus::CARRY, a < b || (a as u16) < b as u16 + carry as u16);
        self.PSW.set(CpuStatus::PARITY, parity(res));
        self.PSW.set(CpuStatus::AUX_CARRY, a & 0x0F < b & 0x0F || (a & 0x0F) - (b & 0x0F) < carry);
    }

    pub fn update_flags_sub_16(&mut self, a: u16, b: u16, res: u16, carry: u16)
        ensures
            final(self)@ == old(self)@.with_psw(flags_sub16(old(self).PSW, a, b, res, carry)),
    {
        reveal(flags_sub16);
        let old_sign = a & 0x8000;
        let new_sign = res & 0x8000;
        self.PSW.set(CpuStatus::ZERO, res == 0);
        self.PSW.set(CpuStatus::SIGN, new_sign != 0);
        self.PSW.set(CpuStatus::OVERFLOW, old_sign != b & 0x8000 && old_sign != new_sign);
        self.PSW.set(CpuStatus::CARRY, a < b || (a as u32) < b as u32 + carry as u32);
        self.PSW.set(CpuStatus::PARITY, parity(u16_to_le(res).0));
        self.PSW.set(CpuStatus::AUX_CARRY, a & 0x0F < b & 0x0F || (a & 0x0F) - (b & 0x0F) < carry);
    }

    pub fn update_flags_add_8(&mut self, a: u16, b: u16, res: u16, carry: u16)
        requires
            carry <= 1,
        ensures
            final(self)@ == old(self)@.with_psw(flags_add8(old(self).PSW, a, b, res, carry)),
    {
        reveal(flags_add8);
        let sign = res & 0x80;
        self.PSW.set(CpuStatus::ZERO, u16_to_le(res).0 == 0);
        self.PSW.set(CpuStatus::SIGN, sign != 0);
        self.PSW.set(CpuStatus::OVERFLOW, sign != a & 0x80 && sign != b & 0x80);
        self.PSW.set(CpuStatus::CARRY, res > 0xFF);
        self.PSW.set(CpuStatus::PARITY, parity(u16_to_le(res).0));
        proof {
            lemma_word_fields(a);
            lemma_word_fields(b);
        }
        self.PSW.set(CpuStatus::AUX_CARRY, (a & 0xF) + (b & 0xF) + carry > 0xF);
    }

    pub fn update_flags_add_16(&mut self, a: u32, b: u32, res: u32, carry: u32)
        requires
            a <= 0xFFFF,
            b <= 0xFFFF,
            carry <= 1,
        ensures
            final(self)@ == old(self)@.with_psw(flags_add16(old(self).PSW, a, b, res, carry)),
    {
        reveal(flags_add16);
        let sign = res & 0x8000;
        self.PSW.set(CpuStatus::ZERO, res % 0x10000 == 0);
        self.PSW.set(CpuStatus::SIGN, sign != 0);
        self.PSW.set(CpuStatus::OVERFLOW, sign != a & 0x8000 && sign != b & 0x8000);
        self.PSW.set(CpuStatus::CARRY, res > 0xFFFF);
        self.PSW.set(CpuStatus::PARITY, parity((res % 256) as u8));
        proof {
            lemma_u32_fields(a);
            lemma_u32_fields(b);
        }
        self.PSW.set(CpuStatus::AUX_CARRY, (a & 0xF) + (b & 0xF) + carry > 0xF);
    }

    pub fn update_flags_bitwise_8(&mut self, res: u8)
        ensures
            final(self)@ == old(self)@.with_psw(flags_bitwise8(old(self).PSW, res)),
    {
        reveal(flags_bitwise8);
        self.PSW.set(CpuStatus::ZERO, res == 0);
        self.PSW.set(CpuStatus::SIGN, res & 0x80 != 0);
        self.PSW.remove(CpuStatus::OVERFLOW);
        self.PSW.remove(CpuStatus::CARRY);
        self.PSW.remove(CpuStatus::AUX_CARRY);
        self.PSW.set(CpuStatus::PARITY, parity(res));
    }

    pub fn update_flags_bitwise_16(&mut self, res: u16)
        ensures
            final(self)@ == old(self)@.with_psw(flags_bitwise16(old(self).PSW, res)),
    {
        reveal(flags_bitwise16);
        self.PSW.set(CpuStatus::ZERO, res == 0);
        self.PSW.set(CpuStatus::SIGN, res & 0x8000 != 0);
        self.PSW.remove(CpuStatus::OVERFLOW);
        self.PSW.remove(CpuStatus::CARRY);
        self.PSW.remove(CpuStatus::AUX_CARRY);
        self.PSW.set(CpuStatus::PARITY, parity(u16_to_le(res).0));
    }

    /// The count of a shift-group instruction: its immediate, 1, or CL, masked to 5 bits.
    pub fn get_rot_src(&self, code: u8) -> (r: u8)
        requires
            (code & 0xFE == 0xC0) ==> self.current_op.len() >= 1,
        ensures
            r == spec_rot_src(self@, code),
            r <= 0x1F,
    {
        let c = code & 0xFE;
        if c == 0xC0 {
            let i = self.get_imm8();
            proof {
                lemma_byte_fields(i);
            }
            i & 0x1F
        } else if c == 0xD0 {
            1
        } else {
            let l = u16_to_le(self.CW).0;
            proof {
                lemma_byte_fields(l);
            }
            l & 0x1F
        }
    }

    // Stack

    /// Pushes a word on the stack.
    pub fn push(&mut self, src: u16)
        requires
            old(self).wf(),
        ensures
            final(self)@ == old(self)@.pushed(src),
            final(self).wf(),
    {
        self.SP = self.SP.wrapping_sub(2);
        let addr = self.get_stack_address();
        self.write_mem_16(addr, src);
    }

    /// Pops a word from the stack; the word is read from the bus.
    pub fn pop(&mut self, bus: &MemBus) -> (r: u16)
        requires
            bus.wf(),
        ensures
            r == old(self)@.top(bus@),
            final(self)@ == old(self)@.popped(),
    {
        let addr = self.get_stack_address();
        self.SP = self.SP.wrapping_add(2);
        self.read_mem_16(bus, addr)
    }

    /// Loads the register named by the opcode's low bits with the immediate that follows.
    pub fn load_register_immediate(&mut self, mode: Mode)
        requires
            mode != Mode::M32,
            old(self).current_op.len() >= (if mode == Mode::M8 { 2int } else { 3int }),
        ensures
            final(self)@ == old(self)@.reg_imm_loaded(mode),
    {
        let r_bits = self.current_op[0] & 0b111;
        match mode {
            Mode::M8 => {
                let src = self.current_op[1];
                self.set_reg8(r_bits, src);
            }
            _ => {
                let src = u16_from_le(self.current_op[1], self.current_op[2]);
                self.set_reg16(r_bits, src);
            }
        }
    }

    /// Relative branch on the 8-bit displacement of the instruction.
    pub fn branch(&mut self, cond: bool)
        requires
            old(self).current_op.len() >= 2,
        ensures
            final(self)@ == old(self)@.branched(cond),
    {
        let displacement = sign_extend(self.current_op[1]);
        if cond {
            self.PC = self.PC.wrapping_add(self.pc_displacement);
            self.pc_displacement = 0;
            self.PC = self.PC.wrapping_add(displacement);
        }
    }
}


/// Whether an opcode's operands include `o`.
pub fn uses_operand(op: &OpCode, o: Operand) -> (r: bool)
    ensures
        r == uses((op.op1, op.op2, op.mode, op.op3), o),
{
    op.op1 == o || op.op2 == o || match op.op3 {
        Some(x) => x == o,
        None => false,
    }
}

/// Number of displacement bytes that follow a mod/r/m byte.
pub fn modrm_disp_len(modrm: u8) -> (r: usize)
    ensures
        r == disp_len(modrm),
        r <= 2,
{
    let a = modrm >> 6;
    let rm = modrm & 7;
    if (a == 0 && rm == 6) || a == 2 { 2 } else if a == 1 { 1 } else { 0 }
}

/// The length of the instruction that starts with `op`.
pub fn decode_length(op: &OpCode, modrm: u8) -> (r: usize)
    requires
        (op.op1, op.op2, op.mode, op.op3) == spec_op_info(op.code),
    ensures
        r == decode_len(op.code, modrm),
        r <= 6,
{
    let code = op.code;
    if code == 0x9A || code == 0xEA {
        return 5;
    }
    if code == 0xC8 {
        return 4;
    }
    let has_mem = uses_operand(op, Operand::MEMORY);
    let after_mem: usize = if has_mem { 2 + modrm_disp_len(modrm) } else { 1 };
    if has_mem && (code == 0xF6 || code == 0xF7) && (modrm >> 3) & 7 != 0 {
        return after_mem;
    }
    let imm = uses_operand(op, Operand::IMMEDIATE);
    if (((imm && op.mode == Mode::M8) || uses_operand(op, Operand::IMMEDIATE_S)) && code != 0xE8 && code != 0xE9)
        || code == 0xC1 || code == 0xE5 || code == 0xE7 {
        after_mem + 1
    } else if imm || uses_operand(op, Operand::DIRECT) || code == 0xE8 || code == 0xE9 {
        after_mem + 2
    } else {
        after_mem
    }
}

impl V30MZ {
    /// Byte `i` of the instruction: the one already fetched, or the next one from memory.
    fn fetch(&mut self, bus: &MemBus, addr: u32, i: usize) -> (r: u8)
        requires
            bus.wf(),
            addr == old(self)@.pc_addr(),
            i <= old(self).current_op.len(),
            old(self).current_op.len() < 16,
        ensures
            r == old(self)@.fetch_byte(bus@, i as int),
            final(self)@ == (CpuView {
                current_op: if i < old(self).current_op.len() { old(self)@.current_op } else { old(self)@.current_op.push(r) },
                ..old(self)@
            }),
    {
        if i < self.current_op.len() {
            self.current_op[i]
        } else {
            let byte = self.read_mem(bus, (addr + i as u32) % 0x100000);
            self.current_op.push(byte);
            byte
        }
    }

    /// Fetches the instruction at PS:PC into `current_op` and returns its opcode.
    pub fn allocate_instruction(&mut self, bus: &MemBus) -> (r: OpCode)
        requires
            old(self).wf(),
            bus.wf(),
            old(self).current_op.len() <= 8,
        ensures
            final(self)@ == old(self)@.decoded(bus@),
            r.code == old(self)@.fetch_byte(bus@, 0),
            (r.op1, r.op2, r.mode, r.op3) == spec_op_info(r.code),
            final(self).wf(),
            final(self).current_op.len() >= old(self)@.instr_len(bus@),
            final(self).current_op.len() <= 10,
    {
        let ghost s0 = self@;
        let ghost m = bus@;
        let addr = self.get_pc_address();
        let code = self.fetch(bus, addr, 0);
        assert(self@.current_op =~= s0.fetched(m, 1));
        let op = cpu_op_code(code);
        let mut k: usize = 1;
        let mut modrm: u8 = 0;
        if uses_operand(&op, Operand::MEMORY) && !(code == 0x9A || code == 0xEA || code == 0xC8) {
            modrm = self.fetch(bus, addr, 1);
            k = 2;
            assert(self@.current_op =~= s0.fetched(m, 2));
        }
        assert(decode_len(code, modrm) == decode_len(code, s0.fetch_byte(m, 1)));
        let total = decode_length(&op, modrm);
        while k < total
            invariant
                1 <= k <= total,
                total == s0.instr_len(m),
                total <= 6,
                s0.current_op.len() <= 8,
                s0.wf(),
                bus.wf(),
                bus@ == m,
                addr == s0.pc_addr(),
                self@.current_op == s0.fetched(m, k as nat),
                self@ == (CpuView { current_op: self@.current_op, ..s0 }),
            decreases total - k,
        {
            let _ = self.fetch(bus, addr, k);
            assert(self@.current_op =~= s0.fetched(m, (k + 1) as nat));
            k = k + 1;
        }
        self.pc_displacement = total as u16;
        op
    }
}

} // verus!
