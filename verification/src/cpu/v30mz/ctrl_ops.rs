//! Control transfer instructions of the V30MZ: branches, calls, returns and exceptions.
use vstd::prelude::*;
use crate::bits::{word, u16_from_le};
use crate::bus::mem_bus::{MemBus, MemView};
use crate::cpu::{Mode, Operand};
use crate::cpu::flags::CpuStatus;
use crate::cpu::v30mz::{V30MZ, CpuView, add16, sub16, read_word, is_reg_modrm, disp_len};

verus! {

/// PREPARE's copies of the enclosing frame pointers: `n` times BP moves down a word and the word
/// there is pushed.
pub open spec fn prepare_frames(s: CpuView, m: MemView, n: nat) -> CpuView
    decreases n,
{
    if n == 0 {
        s
    } else {
        prepare_frames(frame_step(s, m), m, (n - 1) as nat)
    }
}

/// One copy of an enclosing frame pointer: BP moves down a word and the word there is pushed.
pub open spec fn frame_step(s: CpuView, m: MemView) -> CpuView {
    let t = CpuView { BP: sub16(s.BP, 2), ..s };
    t.pushed(read_word(m, t.phys(t.BP, t.SS)))
}

impl CpuView {
    /// BR: an absolute, relative or indirect jump.
    pub open spec fn spec_branch_op(self, m: MemView, op: Operand, mode: Mode, extra: u8) -> CpuView {
        let t = match op {
            Operand::IMMEDIATE => CpuView { PC: word(self.op(1), self.op(2)), PS: word(self.op(3), self.op(4)), ..self },
            Operand::IMMEDIATE_S => {
                if mode == Mode::M8 {
                    self.branched(true)
                } else {
                    CpuView { PC: add16(add16(self.PC, self.pc_displacement), self.imm16()), ..self }
                }
            }
            _ => {
                let c = self.charge(self.op(1), extra);
                if mode == Mode::M16 {
                    CpuView { PC: self.rm16(m, self.op(1)), ..c }
                } else {
                    CpuView { PC: self.rm32(m, self.op(1)).0, PS: self.rm32(m, self.op(1)).1, ..c }
                }
            }
        };
        CpuView { pc_displacement: 0, ..t }
    }

    /// Whether the operand of a BR or CALL is present.
    pub open spec fn branch_ok(self, op: Operand, mode: Mode, extra: u8) -> bool {
        &&& self.wf()
        &&& match op {
            Operand::IMMEDIATE => self.current_op.len() >= 5,
            Operand::IMMEDIATE_S => mode != Mode::M32 && self.current_op.len() >= (if mode == Mode::M8 { 2int } else { 3int }),
            Operand::MEMORY => mode != Mode::M8 && self.operand_present(Operand::MEMORY, mode) && self.can_charge(extra)
                && (mode == Mode::M32 ==> !is_reg_modrm(self.op(1))),
            _ => false,
        }
    }

    /// CALL: the return address, and PS for a far call, are pushed and the branch is taken.
    pub open spec fn spec_call(self, m: MemView, op: Operand, mode: Mode, extra: u8) -> CpuView {
        let b = self.spec_branch_op(m, op, mode, extra);
        let t = if mode == Mode::M32 { b.pushed(self.PS) } else { b };
        t.pushed(add16(self.PC, self.current_op.len() as u16))
    }

    /// BRK: exception 3, or the one the immediate names.
    pub open spec fn spec_brk(self, m: MemView, op: Operand) -> CpuView {
        self.exception(m, if op == Operand::IMMEDIATE { self.imm8() } else { 3 })
    }

    /// BRKV: exception 4 when OV is set.
    pub open spec fn spec_brkv(self, m: MemView) -> CpuView {
        if self.flag(CpuStatus::OVERFLOW) { self.exception(m, 4) } else { self }
    }

    /// CHKIND: exception 5 unless the register lies in the interval the double word in memory
    /// gives, both bounds included.
    pub open spec fn spec_chkind(self, m: MemView, extra: u8) -> CpuView {
        let c = self.charge(self.op(1), extra);
        let reg = self.reg16(self.reg_field());
        let (lo, hi) = self.rm32(m, self.op(1));
        if lo <= reg && reg <= hi { c } else { c.exception(m, 5) }
    }

    /// DISPOSE: SP takes BP, then BP is popped.
    pub open spec fn spec_dispose(self, m: MemView) -> CpuView {
        let s = CpuView { SP: self.BP, ..self };
        CpuView { BP: s.top(m), ..s.popped() }
    }

    /// PREPARE: builds a stack frame of the size of the first immediate and nesting level of the
    /// second.
    pub open spec fn spec_prepare(self, m: MemView) -> CpuView {
        let size = word(self.op(1), self.op(2));
        let level = self.op(3) & 0x1F;
        let s1 = self.pushed(self.BP);
        let temp = s1.SP;
        let s2 = if level > 0 { prepare_frames(s1, m, (level - 1) as nat).pushed(temp) } else { s1 };
        CpuView { BP: temp, SP: sub16(s2.SP, size), ..s2 }
    }

    /// The operand RETN and RETF add to SP after popping.
    pub open spec fn ret_adjust(self, op: Operand) -> u16 {
        if op == Operand::IMMEDIATE { self.imm16() } else { 0 }
    }

    /// RETN: PC is popped.
    pub open spec fn spec_retn(self, m: MemView, op: Operand) -> CpuView {
        let s = self.popped();
        CpuView { SP: add16(s.SP, self.ret_adjust(op)), PC: self.top(m), pc_displacement: 0, ..s }
    }

    /// RETF: PC and PS are popped.
    pub open spec fn spec_retf(self, m: MemView, op: Operand) -> CpuView {
        let s1 = self.popped();
        let s2 = s1.popped();
        CpuView { SP: add16(s2.SP, self.ret_adjust(op)), PC: self.top(m), PS: s1.top(m), pc_displacement: 0, ..s2 }
    }

    /// RETI: PC, PS and PSW are popped.
    pub open spec fn spec_reti(self, m: MemView) -> CpuView {
        let s1 = self.popped();
        let s2 = s1.popped();
        let s3 = s2.popped();
        CpuView { PC: self.top(m), PS: s1.top(m), PSW: CpuStatus { bits: s2.top(m) }, pc_displacement: 0, ..s3 }
    }
}

impl V30MZ {
    fn branch_indirect(&mut self, bus: &MemBus, mode: Mode, extra: u8)
        requires
            bus.wf(),
            old(self)@.branch_ok(Operand::MEMORY, mode, extra),
        ensures
            final(self)@ == old(self)@.spec_branch_op(bus@, Operand::MEMORY, mode, extra),
            final(self).wf(),
    {
        let byte = self.current_op[1];
        if mode == Mode::M16 {
            let pc = self.resolve_mem_src_16(bus, byte);
            self.charge_memory_operand(byte, extra);
            self.PC = pc;
        } else {
            let (pc, ps) = self.resolve_mem_src_32(bus, byte);
            self.charge_memory_operand(byte, extra);
            self.PC = pc;
            self.PS = ps;
        }
        self.pc_displacement = 0;
    }

    #[verifier::rlimit(40)]
    fn branch_relative(&mut self, bus: &MemBus, mode: Mode, extra: u8)
        requires
            old(self)@.branch_ok(Operand::IMMEDIATE_S, mode, extra),
        ensures
            final(self)@ == old(self)@.spec_branch_op(bus@, Operand::IMMEDIATE_S, mode, extra),
            final(self).wf(),
    {
        if mode == Mode::M8 {
            self.branch(true);
        } else {
            let displacement = self.get_imm16();
            self.PC = self.PC.wrapping_add(self.pc_displacement);
            self.PC = self.PC.wrapping_add(displacement);
        }
        self.pc_displacement = 0;
    }

    /// BR: an unconditional jump.
    pub fn branch_op(&mut self, bus: &MemBus, op: Operand, mode: Mode, extra: u8)
        requires
            bus.wf(),
            old(self)@.branch_ok(op, mode, extra),
        ensures
            final(self)@ == old(self)@.spec_branch_op(bus@, op, mode, extra),
            final(self).wf(),
    {
        match op {
            Operand::IMMEDIATE => {
                self.PC = u16_from_le(self.current_op[1], self.current_op[2]);
                self.PS = u16_from_le(self.current_op[3], self.current_op[4]);
                self.pc_displacement = 0;
            }
            Operand::IMMEDIATE_S => {
                self.branch_relative(bus, mode, extra);
            }
            _ => {
                self.branch_indirect(bus, mode, extra);
            }
        }
    }

    /// BRK: raises the exception of vector 3, or of the immediate.
    pub fn brk(&mut self, bus: &MemBus, op: Operand)
        requires
            bus.wf(),
            old(self).wf(),
            op == Operand::IMMEDIATE ==> old(self).current_op.len() >= 1,
        ensures
            final(self)@ == old(self)@.spec_brk(bus@, op),
            final(self).wf(),
    {
        let vector = if op == Operand::IMMEDIATE { self.get_imm8() } else { 3 };
        self.raise_exception(bus, vector);
    }

    /// BRKV: raises the exception of vector 4 when OV is set.
    pub fn brkv(&mut self, bus: &MemBus)
        requires
            bus.wf(),
            old(self).wf(),
        ensures
            final(self)@ == old(self)@.spec_brkv(bus@),
            final(self).wf(),
    {
        if self.PSW.contains(CpuStatus::OVERFLOW) {
            self.raise_exception(bus, 4);
        }
    }

    /// CALL: pushes the return address, and PS for a far call, and branches.
    #[verifier::rlimit(100)]
    pub fn call(&mut self, bus: &MemBus, op: Operand, mode: Mode, extra: u8)
        requires
            bus.wf(),
            old(self)@.branch_ok(op, mode, extra),
        ensures
            final(self)@ == old(self)@.spec_call(bus@, op, mode, extra),
            final(self).wf(),
    {
        let old_ps = self.PS;
        let old_pc = self.PC;
        let len = self.current_op.len() as u16;
        let ghost b = old(self)@.spec_branch_op(bus@, op, mode, extra);
        self.branch_op(bus, op, mode, extra);
        assert(self@ == b);
        if mode == Mode::M32 {
            self.push(old_ps);
        }
        self.push(old_pc.wrapping_add(len));
    }

    /// CHKIND: raises exception 5 when the register is out of the bounds in memory.
    pub fn chkind(&mut self, bus: &MemBus, extra: u8)
        requires
            bus.wf(),
            old(self).wf(),
            old(self)@.operand_present(Operand::MEMORY, Mode::M16),
            !is_reg_modrm(old(self)@.op(1)),
            old(self)@.can_charge(extra),
        ensures
            final(self)@ == old(self)@.spec_chkind(bus@, extra),
            final(self).wf(),
    {
        let byte = self.current_op[1];
        let reg = self.resolve_src_16(bus, Operand::REGISTER);
        let (lo, hi) = self.resolve_mem_src_32(bus, byte);
        self.charge_memory_operand(byte, extra);
        if !(reg >= lo && reg <= hi) {
            self.raise_exception(bus, 5);
        }
    }

    /// DISPOSE: SP takes BP and BP is popped.
    pub fn dispose(&mut self, bus: &MemBus)
        requires
            bus.wf(),
        ensures
            final(self)@ == old(self)@.spec_dispose(bus@),
    {
        self.SP = self.BP;
        self.BP = self.pop(bus);
    }

    /// One copy of an enclosing frame pointer.
    fn prepare_step(&mut self, bus: &MemBus)
        requires
            bus.wf(),
            old(self).wf(),
        ensures
            final(self)@ == frame_step(old(self)@, bus@),
            final(self).wf(),
    {
        self.BP = self.BP.wrapping_sub(2);
        let addr = self.get_physical_address(self.BP, self.SS);
        let w = self.read_mem_16(bus, addr);
        self.push(w);
    }

    /// Copies `n` enclosing frame pointers.
    fn prepare_frames(&mut self, bus: &MemBus, n: u8)
        requires
            bus.wf(),
            old(self).wf(),
        ensures
            final(self)@ == prepare_frames(old(self)@, bus@, n as nat),
            final(self).wf(),
    {
        let ghost s1 = self@;
        let mut i: u8 = 0;
        while i < n
            invariant
                i <= n,
                bus.wf(),
                self.wf(),
                prepare_frames(self@, bus@, (n - i) as nat) == prepare_frames(s1, bus@, n as nat),
            decreases n - i,
        {
            let ghost before = self@;
            self.prepare_step(bus);
            assert(prepare_frames(before, bus@, (n - i) as nat) == prepare_frames(self@, bus@, (n - i - 1) as nat));
            i = i + 1;
        }
        assert(prepare_frames(self@, bus@, 0) == self@);
    }

    /// PREPARE: builds a stack frame.
    #[verifier::rlimit(100)]
    pub fn prepare(&mut self, bus: &MemBus)
        requires
            bus.wf(),
            old(self).wf(),
            old(self).current_op.len() >= 4,
        ensures
            final(self)@ == old(self)@.spec_prepare(bus@),
            final(self).wf(),
    {
        let size = u16_from_le(self.current_op[1], self.current_op[2]);
        let level = self.current_op[3] & 0x1F;
        let bp = self.BP;
        self.push(bp);
        let temp = self.SP;
        if level > 0 {
            self.prepare_frames(bus, level - 1);
            self.push(temp);
        }
        self.BP = temp;
        self.SP = self.SP.wrapping_sub(size);
    }

    /// RETN: pops PC, then adds the immediate, if any, to SP.
    pub fn retn(&mut self, bus: &MemBus, op: Operand)
        requires
            bus.wf(),
            op == Operand::IMMEDIATE ==> old(self).current_op.len() >= 2,
        ensures
            final(self)@ == old(self)@.spec_retn(bus@, op),
    {
        let pc = self.pop(bus);
        let adjust = if op == Operand::IMMEDIATE { self.get_imm16() } else { 0 };
        self.SP = self.SP.wrapping_add(adjust);
        self.PC = pc;
        self.pc_displacement = 0;
    }

    /// RETF: pops PC and PS, then adds the immediate, if any, to SP.
    pub fn retf(&mut self, bus: &MemBus, op: Operand)
        requires
            bus.wf(),
            op == Operand::IMMEDIATE ==> old(self).current_op.len() >= 2,
        ensures
            final(self)@ == old(self)@.spec_retf(bus@, op),
    {
        let pc = self.pop(bus);
        let ps = self.pop(bus);
        let adjust = if op == Operand::IMMEDIATE { self.get_imm16() } else { 0 };
        self.SP = self.SP.wrapping_add(adjust);
        self.PC = pc;
        self.PS = ps;
        self.pc_displacement = 0;
    }

    /// RETI: pops PC, PS and PSW.
    pub fn reti(&mut self, bus: &MemBus)
        requires
            bus.wf(),
        ensures
            final(self)@ == old(self)@.spec_reti(bus@),
    {
        self.PC = self.pop(bus);
        self.PS = self.pop(bus);
        let psw = self.pop(bus);
        self.PSW = CpuStatus::from_bits_truncate(psw);
        self.pc_displacement = 0;
    }
}

} // verus!
