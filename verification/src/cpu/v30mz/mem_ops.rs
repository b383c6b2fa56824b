//! Data transfer instructions of the V30MZ: stack, moves, exchanges, conversions and ports.
use vstd::prelude::*;
use crate::bits::{lo8, hi8, u16_to_le};
use crate::bus::io_bus::IOView;
use crate::bus::mem_bus::{MemBus, MemView};
use crate::cpu::{Mode, Operand, MemOperand, RegisterType, swap_h, swap_l, spec_swap_h, spec_swap_l};
use crate::cpu::flags::CpuStatus;
use crate::cpu::opcode::OpCode;
use crate::cpu::v30mz::{V30MZ, CpuView, add16, seg_addr, read_word, is_reg_modrm};

verus! {

/// The segment register named by bits 3-4 of a one-byte opcode.
pub open spec fn opcode_seg(code: u8) -> u8 {
    (code & 0x18) >> 3
}

impl CpuView {
    /// The word PUSH stores: a segment, the register of the opcode, PSW, or a source operand.
    pub open spec fn push_value(self, m: MemView, src: Operand) -> u16 {
        match src {
            Operand::SEGMENT => self.seg(opcode_seg(self.op(0))),
            Operand::REGISTER => self.reg16(self.op(0) & 7),
            Operand::NONE => self.PSW.bits,
            _ => self.src16(m, src),
        }
    }

    pub open spec fn spec_push_op(self, m: MemView, src: Operand, extra: u8) -> CpuView {
        let c = if src == Operand::MEMORY { self.charge(self.op(1), extra) } else { self };
        c.pushed(self.push_value(m, src))
    }

    /// PUSH R: AW, CW, DW, BW, SP as it was before the first push, BP, IX and IY are pushed in that order.
    pub open spec fn spec_push_r(self) -> CpuView {
        self.pushed(self.AW).pushed(self.CW).pushed(self.DW).pushed(self.BW)
            .pushed(self.SP).pushed(self.BP).pushed(self.IX).pushed(self.IY)
    }

    pub open spec fn spec_pop_op(self, m: MemView, dest: Operand, extra: u8) -> CpuView {
        let v = self.top(m);
        let s = self.popped();
        match dest {
            Operand::MEMORY => s.charge(self.op(1), extra).with_rm16(self.op(1), v),
            Operand::REGISTER => s.set_reg16(self.op(0) & 7, v),
            Operand::ACCUMULATOR => CpuView { AW: v, ..s },
            Operand::SEGMENT => s.set_seg(opcode_seg(self.op(0)), v),
            _ => CpuView { PSW: CpuStatus { bits: v }, ..s },
        }
    }

    /// The word `k` bytes above the top of the stack.
    pub open spec fn stack_word(self, m: MemView, k: u16) -> u16 {
        read_word(m, seg_addr(add16(self.SP, k), self.SS))
    }

    /// POP R: IY, IX, BP, a skipped word, BW, DW, CW and AW are popped in that order.
    pub open spec fn spec_pop_r(self, m: MemView) -> CpuView {
        CpuView {
            IY: self.stack_word(m, 0), IX: self.stack_word(m, 2), BP: self.stack_word(m, 4),
            BW: self.stack_word(m, 8), DW: self.stack_word(m, 10), CW: self.stack_word(m, 12),
            AW: self.stack_word(m, 14), SP: add16(self.SP, 16),
            ..self
        }
    }

    /// MOV of the immediate that ends the instruction to the mod/r/m operand.
    pub open spec fn spec_mov_mem_imm(self, mode: Mode, extra: u8) -> CpuView {
        let c = self.charge(self.op(1), extra);
        if mode == Mode::M8 { c.with_rm8(self.op(1), self.imm8()) } else { c.with_rm16(self.op(1), self.imm16()) }
    }

    /// MOV from `op2` to `op1`.
    pub open spec fn spec_mov_ops(self, m: MemView, op1: Operand, op2: Operand, mode: Mode, extra: u8) -> CpuView {
        let c = self.charge_ops(op1, op2, extra);
        if mode == Mode::M8 { c.dest8(op1, self.src8(m, op2)) } else { c.dest16(op1, self.src16(m, op2)) }
    }

    /// LDS and LES: a register and DS0 (`code` 0xC5) or DS1 are loaded from a double word in memory.
    pub open spec fn spec_mov_far(self, m: MemView, code: u8, extra: u8) -> CpuView {
        let c = self.charge(self.op(1), extra);
        let (w0, w1) = self.rm32(m, self.op(1));
        let t = c.set_reg16(self.reg_field(), w0);
        if code == 0xC4 { CpuView { DS1: w1, ..t } } else { CpuView { DS0: w1, ..t } }
    }

    /// MOV as the opcode's operands select it.
    pub open spec fn spec_mov(self, m: MemView, code: u8, info: (Operand, Operand, Mode, Option<Operand>), extra: u8) -> CpuView {
        let (op1, op2, mode, op3) = info;
        if op1 == Operand::REGISTER && op2 == Operand::IMMEDIATE {
            self.reg_imm_loaded(mode)
        } else if op1 == Operand::MEMORY && op2 == Operand::IMMEDIATE {
            self.spec_mov_mem_imm(mode, extra)
        } else if op3.is_none() {
            self.spec_mov_ops(m, op1, op2, mode, extra)
        } else {
            self.spec_mov_far(m, code, extra)
        }
    }

    /// Whether the operands of a MOV are present and of a kind MOV handles.
    pub open spec fn mov_ok(self, code: u8, info: (Operand, Operand, Mode, Option<Operand>), extra: u8) -> bool {
        let (op1, op2, mode, op3) = info;
        &&& self.wf()
        &&& self.can_charge(extra)
        &&& if op1 == Operand::REGISTER && op2 == Operand::IMMEDIATE {
            mode != Mode::M32 && self.current_op.len() >= (if mode == Mode::M8 { 2int } else { 3int })
        } else if op1 == Operand::MEMORY && op2 == Operand::IMMEDIATE {
            mode != Mode::M32 && self.operand_present(Operand::MEMORY, mode)
                && self.current_op.len() >= 3 + crate::cpu::v30mz::disp_len(self.op(1))
        } else if op3.is_none() {
            self.alu_ok(op1, op2, mode, extra) && op2 != Operand::IMMEDIATE_S
        } else {
            self.operand_present(Operand::MEMORY, Mode::M16) && !is_reg_modrm(self.op(1))
                && (code == 0xC4 || code == 0xC5)
        }
    }

    /// LDEA: the offset of the mod/r/m operand, or the register it names, is loaded into a register.
    pub open spec fn spec_ldea(self, extra: u8) -> CpuView {
        let c = self.charge(self.op(1), extra);
        let v = if is_reg_modrm(self.op(1)) { self.reg16(self.op(1) & 7) } else { self.ea(self.op(1)).0 };
        c.set_reg16(self.reg_field(), v)
    }

    /// CVTBW: AL is sign-extended into AW.
    pub open spec fn spec_cvtbw(self) -> CpuView {
        CpuView { AW: if self.AW & 0x80 != 0 { self.AW | 0xFF00 } else { self.AW & 0x00FF }, ..self }
    }

    /// CVTWL: AW is sign-extended into DW.
    pub open spec fn spec_cvtwl(self) -> CpuView {
        CpuView { DW: if self.AW & 0x8000 != 0 { 0xFFFF } else { 0 }, ..self }
    }

    /// SALC: AL is filled with CY.
    pub open spec fn spec_salc(self) -> CpuView {
        CpuView { AW: spec_swap_l(self.AW, if self.flag(CpuStatus::CARRY) { 0xFF } else { 0 }), ..self }
    }

    /// TRANS: AL is loaded from the table at BW indexed by AL.
    pub open spec fn spec_trans(self, m: MemView) -> CpuView {
        let offset = add16(self.BW, self.AW & 0xFF);
        CpuView { AW: spec_swap_l(self.AW, m.read(self.phys(offset, self.DS0))), ..self }
    }

    /// The port of an IN or OUT: the immediate byte, or DW.
    pub open spec fn io_port(self, src: Operand) -> u16 {
        if src == Operand::IMMEDIATE { self.op(1) as u16 } else { self.DW }
    }

    /// OUT: AL, or AW to two consecutive ports, is queued for the port.
    pub open spec fn spec_out(self, mode: Mode, dest: Operand) -> CpuView {
        let port = self.io_port(dest);
        if mode == Mode::M8 {
            self.io_buffered(port % 0x100, lo8(self.AW))
        } else {
            self.io_buffered(port, lo8(self.AW)).io_buffered(((port + 1) % 0x10000) as u16, hi8(self.AW))
        }
    }

    /// XCH: the operands are exchanged.
    pub open spec fn spec_xch(self, m: MemView, mode: Mode, op1: Operand, op2: Operand, extra: u8) -> CpuView {
        if mode == Mode::M8 {
            let c = self.charge_ops(op1, op2, extra);
            c.dest8(op1, self.src8(m, op2)).dest8(op2, self.src8(m, op1))
        } else if op1 == Operand::MEMORY || op2 == Operand::MEMORY {
            let c = self.charge_ops(op1, op2, extra);
            c.dest16(op1, self.src16(m, op2)).dest16(op2, self.src16(m, op1))
        } else {
            let i = self.op(0) & 7;
            CpuView { AW: self.reg16(i), ..self.set_reg16(i, self.AW) }
        }
    }
}

/// The state of the CPU and the ports after IN: AL, or AW from two consecutive ports, is read.
pub open spec fn spec_in(s: CpuView, io: IOView, mode: Mode, src: Operand) -> (CpuView, IOView) {
    let port = s.io_port(src);
    if mode == Mode::M8 {
        let (io1, b) = io.read(port % 0x100);
        (CpuView { AW: spec_swap_l(s.AW, b), ..s }, io1)
    } else {
        let (io1, b1) = io.read(port);
        let (io2, b2) = io1.read(((port + 1) % 0x10000) as u16);
        (CpuView { AW: spec_swap_h(spec_swap_l(s.AW, b1), b2), ..s }, io2)
    }
}

impl V30MZ {
    /// PUSH: stores a word on the stack.
    pub fn push_op(&mut self, bus: &MemBus, src: Operand, extra: u8)
        requires
            bus.wf(),
            old(self).wf(),
            old(self).current_op.len() >= 1,
            src != Operand::NONE && src != Operand::SEGMENT && src != Operand::REGISTER ==>
                old(self)@.operand_present(src, Mode::M16),
            src == Operand::MEMORY ==> old(self)@.can_charge(extra),
        ensures
            final(self)@ == old(self)@.spec_push_op(bus@, src, extra),
            final(self).wf(),
    {
        let v = match src {
            Operand::SEGMENT => {
                let b = self.current_op[0];
                self.resolve_segment((b & 0x18) >> 3)
            }
            Operand::REGISTER => {
                let b = self.current_op[0];
                self.get_reg16(b & 7)
            }
            Operand::NONE => self.PSW.bits(),
            _ => self.resolve_src_16(bus, src),
        };
        if src == Operand::MEMORY {
            let byte = self.current_op[1];
            self.charge_memory_operand(byte, extra);
        }
        self.push(v);
    }

    /// PUSH R: pushes the general registers, SP as it was before.
    pub fn push_r(&mut self)
        requires
            old(self).wf(),
        ensures
            final(self)@ == old(self)@.spec_push_r(),
            final(self).wf(),
    {
        let sp = self.SP;
        let v = self.AW;
        self.push(v);
        let v = self.CW;
        self.push(v);
        let v = self.DW;
        self.push(v);
        let v = self.BW;
        self.push(v);
        self.push(sp);
        let v = self.BP;
        self.push(v);
        let v = self.IX;
        self.push(v);
        let v = self.IY;
        self.push(v);
    }

    /// POP: retrieves a word from the stack into the destination.
    pub fn pop_op(&mut self, bus: &MemBus, dest: Operand, extra: u8)
        requires
            bus.wf(),
            old(self).wf(),
            old(self).current_op.len() >= 1,
            dest == Operand::MEMORY ==> old(self)@.operand_present(Operand::MEMORY, Mode::M16)
                && old(self)@.can_charge(extra),
        ensures
            final(self)@ == old(self)@.spec_pop_op(bus@, dest, extra),
            final(self).wf(),
    {
        let v = self.pop(bus);
        match dest {
            Operand::MEMORY => {
                let byte = self.current_op[1];
                self.charge_memory_operand(byte, extra);
                self.write_mem_operand_16(v);
            }
            Operand::REGISTER => {
                let b = self.current_op[0];
                self.set_reg16(b & 7, v);
            }
            Operand::ACCUMULATOR => self.AW = v,
            Operand::SEGMENT => {
                let b = self.current_op[0];
                self.set_segment((b & 0x18) >> 3, v);
            }
            _ => self.PSW = CpuStatus::from_bits_truncate(v),
        }
    }

    /// The word `k` bytes above the top of the stack.
    fn stack_word(&self, bus: &MemBus, k: u16) -> (r: u16)
        requires
            bus.wf(),
        ensures
            r == self@.stack_word(bus@, k),
    {
        let addr = self.apply_segment(self.SP.wrapping_add(k), self.SS);
        self.read_mem_16(bus, addr)
    }

    /// POP R: pops the general registers; the saved SP is skipped.
    #[verifier::rlimit(100)]
    pub fn pop_r(&mut self, bus: &MemBus)
        requires
            bus.wf(),
        ensures
            final(self)@ == old(self)@.spec_pop_r(bus@),
    {
        let iy = self.stack_word(bus, 0);
        let ix = self.stack_word(bus, 2);
        let bp = self.stack_word(bus, 4);
        let bw = self.stack_word(bus, 8);
        let dw = self.stack_word(bus, 10);
        let cw = self.stack_word(bus, 12);
        let aw = self.stack_word(bus, 14);
        self.IY = iy;
        self.IX = ix;
        self.BP = bp;
        self.BW = bw;
        self.DW = dw;
        self.CW = cw;
        self.AW = aw;
        self.SP = self.SP.wrapping_add(16);
    }

    /// MOV: copies the source to the destination, or a double word to a register and a segment.
    #[verifier::rlimit(60)]
    pub fn mov(&mut self, bus: &MemBus, operation: &OpCode, extra: u8)
        requires
            bus.wf(),
            old(self)@.mov_ok(operation.code, (operation.op1, operation.op2, operation.mode, operation.op3), extra),
        ensures
            final(self)@ == old(self)@.spec_mov(bus@, operation.code, (operation.op1, operation.op2, operation.mode, operation.op3), extra),
            final(self).wf(),
    {
        let (mode, op1, op2, op3) = (operation.mode, operation.op1, operation.op2, operation.op3);
        if op1 == Operand::REGISTER && op2 == Operand::IMMEDIATE {
            self.load_register_immediate(mode);
            return;
        }
        let byte = self.current_op[1];
        if op1 == Operand::MEMORY && op2 == Operand::IMMEDIATE {
            self.charge_memory_operand(byte, extra);
            if mode == Mode::M8 {
                let src = self.get_imm8();
                self.write_mem_operand_8(src);
            } else {
                let src = self.get_imm16();
                self.write_mem_operand_16(src);
            }
            return;
        }
        match op3 {
            None => {
                if mode == Mode::M8 {
                    let src = self.resolve_src_8(bus, op2);
                    self.charge_operands(op1, op2, extra);
                    self.write_src_to_dest_8(op1, src);
                } else {
                    let src = self.resolve_src_16(bus, op2);
                    self.charge_operands(op1, op2, extra);
                    self.write_src_to_dest_16(op1, src);
                }
            }
            Some(_) => {
                let src = self.resolve_mem_src_32(bus, byte);
                self.charge_memory_operand(byte, extra);
                let bits = (byte >> 3) & 7;
                self.write_reg_operand_16(src.0, bits);
                if operation.code == 0xC4 {
                    self.DS1 = src.1;
                } else {
                    self.DS0 = src.1;
                }
            }
        }
    }

    /// LDEA: loads the offset of the mod/r/m operand into a register.
    pub fn ldea(&mut self, extra: u8)
        requires
            old(self).wf(),
            old(self)@.operand_present(Operand::MEMORY, Mode::M16),
            old(self)@.can_charge(extra),
        ensures
            final(self)@ == old(self)@.spec_ldea(extra),
            final(self).wf(),
    {
        let byte = self.current_op[1];
        let (address, _) = self.resolve_mem_operand(byte, Mode::M16);
        let src = match address {
            MemOperand::Offset(offset) => offset,
            MemOperand::Register(r) => self.register_value(r),
        };
        self.charge_memory_operand(byte, extra);
        let bits = (byte >> 3) & 7;
        self.write_reg_operand_16(src, bits);
    }

    /// CVTBW: sign-extends AL into AW.
    pub fn cvtbw(&mut self)
        ensures
            final(self)@ == old(self)@.spec_cvtbw(),
    {
        if self.AW & 0x0080 != 0 {
            self.AW = self.AW | 0xFF00;
        } else {
            self.AW = self.AW & 0x00FF;
        }
    }

    /// CVTWL: sign-extends AW into DW.
    pub fn cvtwl(&mut self)
        ensures
            final(self)@ == old(self)@.spec_cvtwl(),
    {
        self.DW = if self.AW & 0x8000 != 0 { 0xFFFF } else { 0x0000 };
    }

    /// SALC: fills AL with the carry.
    pub fn salc(&mut self)
        ensures
            final(self)@ == old(self)@.spec_salc(),
    {
        if self.PSW.contains(CpuStatus::CARRY) {
            self.AW = swap_l(self.AW, 0xFF);
        } else {
            self.AW = swap_l(self.AW, 0x00);
        }
    }

    /// TRANS: loads AL from the table at BW indexed by AL.
    pub fn trans(&mut self, bus: &MemBus)
        requires
            bus.wf(),
        ensures
            final(self)@ == old(self)@.spec_trans(bus@),
    {
        let offset = self.BW.wrapping_add(self.AW & 0xFF);
        let addr = self.get_physical_address(offset, self.DS0);
        let b = self.read_mem(bus, addr);
        self.AW = swap_l(self.AW, b);
    }

    /// IN: reads AL, or AW from two consecutive ports.
    pub fn in_op(&mut self, bus: &mut MemBus, mode: Mode, src: Operand)
        requires
            old(bus).wf(),
            src == Operand::IMMEDIATE || src == Operand::NONE,
            src == Operand::IMMEDIATE ==> old(self).current_op.len() >= 2,
        ensures
            (final(self)@, final(bus)@.io) == spec_in(old(self)@, old(bus)@.io, mode, src),
            final(bus)@ == (MemView { io: final(bus)@.io, ..old(bus)@ }),
            final(bus).wf(),
    {
        let addr = self.get_io_address(src);
        if mode == Mode::M8 {
            let al = self.read_io(bus, addr % 0x100);
            self.AW = swap_l(self.AW, al);
        } else {
            let (al, ah) = self.read_io_16(bus, addr);
            self.AW = swap_h(swap_l(self.AW, al), ah);
        }
    }

    /// OUT: queues AL, or AW to two consecutive ports.
    pub fn out_op(&mut self, mode: Mode, dest: Operand)
        requires
            dest == Operand::IMMEDIATE || dest == Operand::NONE,
            dest == Operand::IMMEDIATE ==> old(self).current_op.len() >= 2,
        ensures
            final(self)@ == old(self)@.spec_out(mode, dest),
    {
        let port = self.get_io_address(dest);
        if mode == Mode::M8 {
            let al = u16_to_le(self.AW).0;
            self.write_io(port % 0x100, al);
        } else {
            let aw = self.AW;
            self.write_io_16(port, aw);
        }
    }

    /// XCH: exchanges the operands.
    #[verifier::rlimit(60)]
    pub fn xch(&mut self, bus: &MemBus, mode: Mode, op1: Operand, op2: Operand, extra: u8)
        requires
            bus.wf(),
            old(self).current_op.len() >= 1,
            mode == Mode::M8 || op1 == Operand::MEMORY || op2 == Operand::MEMORY ==>
                old(self)@.alu_ok(op1, op2, mode, extra) && op2 != Operand::IMMEDIATE && op2 != Operand::IMMEDIATE_S
                && op2 != Operand::SEGMENT && op1 != Operand::SEGMENT,
            old(self).wf(),
        ensures
            final(self)@ == old(self)@.spec_xch(bus@, mode, op1, op2, extra),
            final(self).wf(),
    {
        if mode == Mode::M8 {
            let a = self.resolve_src_8(bus, op1);
            let b = self.resolve_src_8(bus, op2);
            self.charge_operands(op1, op2, extra);
            self.write_src_to_dest_8(op1, b);
            self.write_src_to_dest_8(op2, a);
        } else if op1 == Operand::MEMORY || op2 == Operand::MEMORY {
            let a = self.resolve_src_16(bus, op1);
            let b = self.resolve_src_16(bus, op2);
            self.charge_operands(op1, op2, extra);
            self.write_src_to_dest_16(op1, b);
            self.write_src_to_dest_16(op2, a);
        } else {
            let a = self.AW;
            let i = self.current_op[0] & 0b111;
            let b = self.get_reg16(i);
            self.set_reg16(i, a);
            self.AW = b;
        }
    }
}

} // verus!
