//! Properties of the emulated machine that span several operations.
use vstd::prelude::*;
use crate::bits::{word, lo8, hi8};
use crate::bus::eeprom::{EepromView, word_mask};
use crate::bus::io_bus::IOView;
use crate::bus::keypad::{Keys, scanned_keys, key_set};
use crate::bus::mem_bus::{MemView, Owner};
use crate::cpu::flags::CpuStatus;
use crate::cpu::v30mz::{CpuView, add16, sub16, seg_addr, next_addr, spec_commit, spec_leave, spec_tick, spec_count_cycle, fixed, is_block, mem_committed};
use crate::cpu::{ones_below, even_parity};
use crate::cpu::v30mz::dispatch::spec_dispatch;
use crate::dma::{DmaView, in_sram, write_port_word};
use crate::dma::sdma::SdmaView;
use crate::cartridge::{Mapper, OPEN_BUS, bank};
use crate::display::display_control::Display;

verus! {

/// A byte written to WRAM below 0x4000 reads back, and no other address changes.
pub proof fn law_wram_write_read(m: MemView, a: u32, b: u8)
    requires
        m.wf(),
        a < 0x4000,
    ensures
        m.write(a, b).read(a) == b,
        forall|c: u32| c != a ==> #[trigger] m.write(a, b).read(c) == m.read(c),
{
}

/// A byte written to the SRAM window of a cartridge with rewritable SRAM reads back.
pub proof fn law_sram_write_read(m: MemView, a: u32, b: u8)
    requires
        m.wf(),
        0x10000 <= a < 0x20000,
        m.io.cartridge.sram.len() > 0,
        m.io.cartridge.rewrittable,
    ensures
        m.write(a, b).read(a) == b,
{
    let c = m.io.cartridge;
    let i = crate::cartridge::banked_index(c.ram_bank(), a, c.sram.len());
    assert(0 <= i < c.sram.len()) by (nonlinear_arith)
        requires
            i == ((c.ram_bank() * 0x10000 + a % 0x10000) % (c.sram.len() as int)) as int,
            c.sram.len() > 0,
    ;
}

/// The command word of an EEPROM operation on a word: start bit, two opcode bits, then the
/// word's address.
pub open spec fn eeprom_command(address_bits: u8, opcode: u16, w: u16) -> u16 {
    ((1u16 << ((address_bits + 2) as u16)) | (opcode << (address_bits as u16)) | w) as u16
}

/// With writing enabled, a WRITE command followed by a READ command of the same word gives back
/// the word written, for any word that lies within the contents.
pub proof fn law_eeprom_write_read(e: EepromView, w: u16)
    requires
        e.wf(),
        e.write_enabled,
        w <= word_mask(e.address_bits),
        w * 2 + 1 < e.contents.len(),
    ensures
        e.after_comm(eeprom_command(e.address_bits, 1, w)).after_comm(eeprom_command(e.address_bits, 2, w)).output == e.input,
{
    let ab = e.address_bits as u16;
    let wc = eeprom_command(e.address_bits, 1, w);
    let rc = eeprom_command(e.address_bits, 2, w);
    let m = word_mask(e.address_bits);
    assert(2 <= ab <= 12);
    assert(m == ((1u16 << ab) - 1) as u16);
    assert({
        &&& wc >> ((ab + 3) as u16) == 0
        &&& (wc >> ((ab + 2) as u16)) & 1 == 1
        &&& (wc >> ab) & 3 == 1
        &&& wc & m == w
    }) by (bit_vector)
        requires
            2 <= ab <= 12,
            m == ((1u16 << ab) - 1) as u16,
            w <= m,
            wc == ((1u16 << ((ab + 2) as u16)) | (1u16 << ab) | w) as u16,
    ;
    assert({
        &&& rc >> ((ab + 3) as u16) == 0
        &&& (rc >> ((ab + 2) as u16)) & 1 == 1
        &&& (rc >> ab) & 3 == 2
        &&& rc & m == w
    }) by (bit_vector)
        requires
            2 <= ab <= 12,
            m == ((1u16 << ab) - 1) as u16,
            w <= m,
            rc == ((1u16 << ((ab + 2) as u16)) | (2u16 << ab) | w) as u16,
    ;
    let addr = (w * 2) as int;
    let e1 = e.after_comm(wc);
    assert(e1.contents[addr] == lo8(e.input) && e1.contents[addr + 1] == hi8(e.input));
    let i = e.input;
    assert(word(lo8(i), hi8(i)) == i) by (bit_vector);
}

/// With writing disabled, no command changes what an EEPROM holds.
pub proof fn law_eeprom_protected(e: EepromView, comm: u16)
    requires
        !e.write_enabled,
    ensures
        e.after_comm(comm).contents == e.contents,
{
}

/// The sound ports 0x80 - 0x9F read back what was written to them.
pub proof fn law_sound_port_read_back(io: IOView, p: u8, b: u8)
    requires
        io.wf(),
        0x80 <= p <= 0x9F,
    ensures
        io.write_port(p, b).read_port(p) == (io.write_port(p, b), b),
{
}

/// The shift of a key's group in the keypad state and the poll bit that selects the group.
pub open spec fn key_group(k: Keys) -> (u16, u8) {
    if k.spec_mask() >= 0x100 { (8, 0x01) } else if k.spec_mask() >= 0x10 { (4, 0x02) } else { (0, 0x04) }
}

/// A scan that selects a key's group alone shows the key's bit set while it is pressed and clear
/// once it is released.
pub proof fn law_key_scan(state: u16, k: Keys, poll: u8, pressed: bool)
    requires
        poll & 0x07 == key_group(k).1,
    ensures
        (scanned_keys(key_set(state, k, pressed), poll) & ((k.spec_mask() >> key_group(k).0) as u8) != 0) == pressed,
{
    let m = k.spec_mask();
    let (sh, sel) = key_group(k);
    let s2 = key_set(state, k, pressed);
    let out = scanned_keys(s2, poll);
    let bit = (m >> sh) as u8;
    let g0: u8 = if poll & 0x04 != 0 { ((s2 >> 0u16) & 0x0F) as u8 } else { 0 };
    let g1: u8 = if poll & 0x02 != 0 { ((s2 >> 4u16) & 0x0F) as u8 } else { 0 };
    let g2: u8 = if poll & 0x01 != 0 { ((s2 >> 8u16) & 0x0F) as u8 } else { 0 };
    assert(out == g0 | g1 | g2);
    assert(s2 == (if pressed { state | m } else { state & !m }));
    assert(((g0 | g1 | g2) & bit != 0) == pressed) by (bit_vector)
        requires
            m == 0x800 || m == 0x400 || m == 0x200 || m == 0x100 || m == 0x80 || m == 0x40
                || m == 0x20 || m == 0x10 || m == 8 || m == 4 || m == 2,
            sh == (if m >= 0x100 { 8u16 } else if m >= 0x10 { 4u16 } else { 0u16 }),
            sel == (if m >= 0x100 { 1u8 } else if m >= 0x10 { 2u8 } else { 4u8 }),
            poll & 0x07 == sel,
            bit == (m >> sh) as u8,
            s2 == (if pressed { state | m } else { state & !m }),
            g0 == (if poll & 0x04 != 0 { ((s2 >> 0u16) & 0x0F) as u8 } else { 0u8 }),
            g1 == (if poll & 0x02 != 0 { ((s2 >> 4u16) & 0x0F) as u8 } else { 0u8 }),
            g2 == (if poll & 0x01 != 0 { ((s2 >> 8u16) & 0x0F) as u8 } else { 0u8 }),
    ;
}

/// Whether both bytes of the word at a physical address lie in WRAM the model has: the first
/// 16 KiB, or the first 64 KiB on color models. Writes there read back.
pub open spec fn wram_word(m: MemView, a: u32) -> bool {
    a + 1 < 0x10000 && (a + 1 < 0x4000 || m.io.color())
}

/// A word pushed on a stack that lies in WRAM, both when the queued memory writes reach the bus
/// and after the queued port writes do, is on top of the stack once they have, and a pop brings
/// the stack pointer back.
pub proof fn law_push_then_top(s: CpuView, m: MemView, v: u16)
    requires
        m.wf(),
        wram_word(m, s.pushed(v).stack_addr()),
        wram_word(spec_commit(s.pushed(v), m).1, s.pushed(v).stack_addr()),
    ensures
        ({
            let (s1, m1) = spec_commit(s.pushed(v), m);
            s1.top(m1) == v
        }),
        s.pushed(v).popped().SP == s.SP,
{
    let p = s.pushed(v);
    let a = p.stack_addr();
    lemma_committed_len(m, s.mem_writes);
    assert(p.mem_writes == s.mem_writes.push((a, lo8(v))).push(((a + 1) as u32, hi8(v))));
    lemma_committed_push16(m, s.mem_writes, a, v);
    let m1 = mem_committed(m, p.mem_writes);
    assert(spec_commit(p, m).1.wram == m1.wram);
    assert(word(lo8(v), hi8(v)) == v) by (bit_vector);
}

/// Committing memory writes keeps the size of WRAM and every port.
proof fn lemma_committed_len(m: MemView, w: Seq<(u32, u8)>)
    requires
        m.wram.len() == 0x10000,
    ensures
        mem_committed(m, w).wram.len() == m.wram.len(),
        mem_committed(m, w).io.ports == m.io.ports,
    decreases w.len(),
{
    if w.len() > 0 {
        lemma_committed_len(m, w.drop_last());
    }
}

/// DISPOSE undoes a PREPARE of nesting level 0 once its pushed frame pointer has reached a stack
/// that lies in WRAM, before and after the queued port writes: BP and SP are back where they were.
pub proof fn law_dispose_undoes_prepare(s: CpuView, m: MemView)
    requires
        m.wf(),
        s.op(3) & 0x1F == 0,
        wram_word(m, s.pushed(s.BP).stack_addr()),
        wram_word(spec_commit(s.pushed(s.BP), m).1, s.pushed(s.BP).stack_addr()),
    ensures
        ({
            let (p, m1) = spec_commit(s.spec_prepare(m), m);
            let d = p.spec_dispose(m1);
            &&& d.BP == s.BP
            &&& d.SP == s.SP
            &&& d.SS == s.SS
        }),
{
    law_push_then_top(s, m, s.BP);
    let s1 = s.pushed(s.BP);
    assert(s.spec_prepare(m).mem_writes == s1.mem_writes);
    assert(spec_commit(s.spec_prepare(m), m).1 == spec_commit(s1, m).1);
}

proof fn lemma_committed_push(m: MemView, w: Seq<(u32, u8)>, a: u32, b: u8)
    ensures
        mem_committed(m, w.push((a, b))) == mem_committed(m, w).write(a, b),
{
    assert(w.push((a, b)).drop_last() == w);
}

/// Pushing a word at `a` in WRAM and committing it leaves it readable there, and leaves every other
/// address reading as before, and the ports as they were.
proof fn lemma_committed_push16(m: MemView, w: Seq<(u32, u8)>, a: u32, v: u16)
    requires
        mem_committed(m, w).wram.len() == 0x10000,
        wram_word(mem_committed(m, w), a),
    ensures
        ({
            let m0 = mem_committed(m, w);
            let m1 = mem_committed(m, w.push((a, lo8(v))).push(((a + 1) as u32, hi8(v))));
            &&& m1.wram.len() == 0x10000
            &&& m1.io.ports == m0.io.ports
            &&& m1.read(a) == lo8(v)
            &&& m1.read((a + 1) as u32) == hi8(v)
            &&& forall|x: u32| x != a && x != a + 1 ==> #[trigger] m1.read(x) == m0.read(x)
        }),
{
    lemma_committed_push(m, w, a, lo8(v));
    lemma_committed_push(m, w.push((a, lo8(v))), (a + 1) as u32, hi8(v));
}

/// Two words at physical addresses that share no byte.
pub open spec fn apart(x: u32, y: u32) -> bool {
    x != y && x != y + 1 && x + 1 != y
}

/// Three words pushed below SP in one segment, each lying in the first 64 KiB, share no byte,
/// also where the stack pointer wraps around within the segment.
proof fn lemma_three_pushes(sp: u16, ss: u16)
    requires
        seg_addr(sub16(sp, 2), ss) + 1 < 0x10000,
        seg_addr(sub16(sp, 4), ss) + 1 < 0x10000,
        seg_addr(sub16(sp, 6), ss) + 1 < 0x10000,
    ensures
        apart(seg_addr(sub16(sp, 2), ss), seg_addr(sub16(sp, 4), ss)),
        apart(seg_addr(sub16(sp, 2), ss), seg_addr(sub16(sp, 6), ss)),
        apart(seg_addr(sub16(sp, 4), ss), seg_addr(sub16(sp, 6), ss)),
        sub16(sub16(sp, 2), 2) == sub16(sp, 4),
        sub16(sub16(sp, 4), 2) == sub16(sp, 6),
        add16(sub16(sp, 6), 2) == sub16(sp, 4),
        add16(sub16(sp, 4), 2) == sub16(sp, 2),
        add16(sub16(sp, 2), 2) == sp,
{
}

/// The words an exception pushes read back, once committed, from a stack in WRAM.
#[verifier::spinoff_prover]
#[verifier::rlimit(100)]
proof fn lemma_exception_stack(s: CpuView, m: MemView, vector: u8)
    requires
        m.wf(),
        wram_word(m, seg_addr(sub16(s.SP, 2), s.SS)),
        wram_word(m, seg_addr(sub16(s.SP, 4), s.SS)),
        wram_word(m, seg_addr(sub16(s.SP, 6), s.SS)),
        wram_word(spec_commit(s.exception(m, vector), m).1, seg_addr(sub16(s.SP, 2), s.SS)),
        wram_word(spec_commit(s.exception(m, vector), m).1, seg_addr(sub16(s.SP, 4), s.SS)),
        wram_word(spec_commit(s.exception(m, vector), m).1, seg_addr(sub16(s.SP, 6), s.SS)),
    ensures
        ({
            let a1 = seg_addr(sub16(s.SP, 2), s.SS);
            let a2 = seg_addr(sub16(s.SP, 4), s.SS);
            let a3 = seg_addr(sub16(s.SP, 6), s.SS);
            let pc = add16(s.PC, s.pc_displacement);
            let (e, mf) = spec_commit(s.exception(m, vector), m);
            &&& e.SP == sub16(s.SP, 6) && e.SS == s.SS
            &&& mf.read(a1) == lo8(s.PSW.bits) && mf.read((a1 + 1) as u32) == hi8(s.PSW.bits)
            &&& mf.read(a2) == lo8(s.PS) && mf.read((a2 + 1) as u32) == hi8(s.PS)
            &&& mf.read(a3) == lo8(pc) && mf.read((a3 + 1) as u32) == hi8(pc)
        }),
{
    lemma_three_pushes(s.SP, s.SS);
    let a1 = seg_addr(sub16(s.SP, 2), s.SS);
    let a2 = seg_addr(sub16(s.SP, 4), s.SS);
    let a3 = seg_addr(sub16(s.SP, 6), s.SS);
    let pc = add16(s.PC, s.pc_displacement);
    let w0 = s.mem_writes;
    let w1 = w0.push((a1, lo8(s.PSW.bits))).push(((a1 + 1) as u32, hi8(s.PSW.bits)));
    let w2 = w1.push((a2, lo8(s.PS))).push(((a2 + 1) as u32, hi8(s.PS)));
    let w3 = w2.push((a3, lo8(pc))).push(((a3 + 1) as u32, hi8(pc)));
    let e = s.exception(m, vector);
    assert(e.mem_writes == w3 && e.SP == sub16(s.SP, 6) && e.SS == s.SS);
    let m1 = mem_committed(m, w3);
    assert({
        &&& m1.read(a1) == lo8(s.PSW.bits) && m1.read((a1 + 1) as u32) == hi8(s.PSW.bits)
        &&& m1.read(a2) == lo8(s.PS) && m1.read((a2 + 1) as u32) == hi8(s.PS)
        &&& m1.read(a3) == lo8(pc) && m1.read((a3 + 1) as u32) == hi8(pc)
        &&& m1.io.ports == m.io.ports
    }) by {
        lemma_committed_len(m, w0);
        lemma_committed_push16(m, w0, a1, s.PSW.bits);
        lemma_committed_push16(m, w1, a2, s.PS);
        lemma_committed_push16(m, w2, a3, pc);
    }
    let mf = spec_commit(e, m).1;
    assert(mf.wram == m1.wram);
}

/// RETI after an exception whose pushes reached a stack in WRAM, before and after the queued
/// port writes, gives back the return address, PS, the flags and SP that the exception saved.
#[verifier::spinoff_prover]
#[verifier::rlimit(100)]
pub proof fn law_reti_after_exception(s: CpuView, m: MemView, vector: u8)
    requires
        m.wf(),
        wram_word(m, seg_addr(sub16(s.SP, 2), s.SS)),
        wram_word(m, seg_addr(sub16(s.SP, 4), s.SS)),
        wram_word(m, seg_addr(sub16(s.SP, 6), s.SS)),
        wram_word(spec_commit(s.exception(m, vector), m).1, seg_addr(sub16(s.SP, 2), s.SS)),
        wram_word(spec_commit(s.exception(m, vector), m).1, seg_addr(sub16(s.SP, 4), s.SS)),
        wram_word(spec_commit(s.exception(m, vector), m).1, seg_addr(sub16(s.SP, 6), s.SS)),
    ensures
        ({
            let (e, m1) = spec_commit(s.exception(m, vector), m);
            let r = e.spec_reti(m1);
            &&& r.PC == add16(s.PC, s.pc_displacement)
            &&& r.PS == s.PS
            &&& r.PSW == s.PSW
            &&& r.SP == s.SP
            &&& r.SS == s.SS
        }),
{
    lemma_three_pushes(s.SP, s.SS);
    lemma_exception_stack(s, m, vector);
    let pc = add16(s.PC, s.pc_displacement);
    let (p, ps, pw) = (pc, s.PS, s.PSW.bits);
    assert(word(lo8(p), hi8(p)) == p) by (bit_vector);
    assert(word(lo8(ps), hi8(ps)) == ps) by (bit_vector);
    assert(word(lo8(pw), hi8(pw)) == pw) by (bit_vector);
    let (e, mf) = spec_commit(s.exception(m, vector), m);
    let a1 = seg_addr(sub16(s.SP, 2), s.SS);
    let a2 = seg_addr(sub16(s.SP, 4), s.SS);
    let a3 = seg_addr(sub16(s.SP, 6), s.SS);
    assert(e.stack_addr() == a3 && next_addr(a3, 1) == (a3 + 1) as u32);
    assert(e.top(mf) == pc);
    let e1 = e.popped();
    assert(e1.SP == sub16(s.SP, 4) && e1.stack_addr() == a2 && next_addr(a2, 1) == (a2 + 1) as u32);
    assert(e1.top(mf) == s.PS);
    let e2 = e1.popped();
    assert(e2.SP == sub16(s.SP, 2) && e2.stack_addr() == a1 && next_addr(a1, 1) == (a1 + 1) as u32);
    assert(e2.top(mf) == pw);
    assert(e2.popped().SP == s.SP);
}

/// The positions of the set bits of a byte.
pub open spec fn set_bits(x: u8) -> Set<nat> {
    Set::new(|i: nat| i < 8 && (x >> (i as u8)) & 1 == 1)
}

proof fn lemma_ones_below_count(x: u8, n: nat)
    requires
        n <= 8,
    ensures
        Set::new(|i: nat| i < n && (x >> (i as u8)) & 1 == 1).finite(),
        Set::new(|i: nat| i < n && (x >> (i as u8)) & 1 == 1).len() == ones_below(x, n),
    decreases n,
{
    let sn = Set::new(|i: nat| i < n && (x >> (i as u8)) & 1 == 1);
    if n == 0 {
        assert(sn =~= Set::empty());
    } else {
        let k = (n - 1) as nat;
        lemma_ones_below_count(x, k);
        let sk = Set::new(|i: nat| i < k && (x >> (i as u8)) & 1 == 1);
        let kk = k as u8;
        assert(((x >> kk) & 1) == 0 || ((x >> kk) & 1) == 1) by (bit_vector);
        if (x >> kk) & 1 == 1 {
            assert(sn =~= sk.insert(k));
        } else {
            assert(sn =~= sk);
        }
    }
}

/// The parity flag's rule: a byte has even parity exactly when it has an even number of set bits.
pub proof fn law_parity_popcount(x: u8)
    ensures
        set_bits(x).finite(),
        even_parity(x) <==> set_bits(x).len() % 2 == 0,
{
    lemma_ones_below_count(x, 8);
    assert(set_bits(x) =~= Set::new(|i: nat| i < 8 && (x >> (i as u8)) & 1 == 1));
}

/// `k` cycles of the general DMA, or fewer when the transfer ends before.
pub open spec fn dma_run(d: DmaView, m: MemView, k: nat) -> (DmaView, MemView)
    decreases k,
{
    if k == 0 || d.cycles == 0 {
        (d, m)
    } else {
        dma_run(d.step(m).0, d.step(m).1, (k - 1) as nat)
    }
}

/// `k` byte copies of the general DMA, one after the other.
pub open spec fn dma_copies(d: DmaView, m: MemView, k: nat) -> (DmaView, MemView)
    decreases k,
{
    if k == 0 {
        (d, m)
    } else {
        dma_copies(d.copied(m).0, d.copied(m).1, (k - 1) as nat)
    }
}

/// Whether a physical address lies in the `k` bytes of WRAM from offset `t` upward, wrapping
/// within the first 64 KiB.
pub open spec fn in_window(x: u32, t: u16, k: nat) -> bool {
    x < 0x10000 && (x - t) % 0x10000 < k
}

proof fn lemma_run_split(d: DmaView, m: MemView, a: nat, b: nat)
    ensures
        dma_run(d, m, a + b) == dma_run(dma_run(d, m, a).0, dma_run(d, m, a).1, b),
    decreases a,
{
    if a > 0 && d.cycles > 0 {
        lemma_run_split(d.step(m).0, d.step(m).1, (a - 1) as nat, b);
        assert((a + b - 1) as nat == (a - 1) as nat + b);
    }
}

proof fn lemma_run_countdown(d: DmaView, m: MemView, j: nat)
    requires
        j < d.cycles,
    ensures
        dma_run(d, m, j) == (DmaView { cycles: (d.cycles - j) as u8, ..d }, m),
    decreases j,
{
    if j > 0 {
        let d1 = DmaView { cycles: (d.cycles - 1) as u8, ..d };
        assert(d.step(m) == (d1, m));
        lemma_run_countdown(d1, m, (j - 1) as nat);
    }
}

/// Where an upward transfer stands after `j` copies.
proof fn lemma_copies_addresses(d: DmaView, m: MemView, j: nat)
    requires
        !d.dir,
        d.src_addr <= 0xFFFFF,
        j <= d.counter,
    ensures
        dma_copies(d, m, j).0.src_addr == (d.src_addr + j) % 0x100000,
        dma_copies(d, m, j).0.dest_addr == (d.dest_addr + j) % 0x10000,
        dma_copies(d, m, j).0.counter == d.counter - j,
        !dma_copies(d, m, j).0.dir,
    decreases j,
{
    if j > 0 {
        let t = d.copied(m).0;
        lemma_copies_addresses(t, d.copied(m).1, (j - 1) as nat);
        assert(((d.src_addr + 1) % 0x100000 + (j - 1)) % 0x100000 == (d.src_addr + j) % 0x100000) by (nonlinear_arith)
            requires d.src_addr <= 0xFFFFF, j >= 1;
        assert(((d.dest_addr + 1) % 0x10000 + (j - 1)) % 0x10000 == (d.dest_addr + j) % 0x10000) by (nonlinear_arith)
            requires j >= 1;
    }
}

/// An upward transfer whose source does not enter SRAM before its last byte takes `c + 2(n - 1)`
/// cycles for `n` bytes, `c` being the cycles left before the first copy: it makes its `n`
/// copies, then reports where it stopped.
proof fn lemma_run_transfer(d: DmaView, m: MemView)
    requires
        d.cycles >= 1,
        d.counter >= 1,
        !d.dir,
        d.src_addr <= 0xFFFFF,
        forall|i: int| 1 <= i < d.counter ==> !#[trigger] in_sram(((d.src_addr + i) % 0x100000) as u32),
    ensures
        dma_run(d, m, (d.cycles + 2 * (d.counter - 1)) as nat)
            == dma_copies(d, m, d.counter as nat).0.finished(dma_copies(d, m, d.counter as nat).1),
    decreases d.counter,
{
    let c = d.cycles;
    let n = d.counter;
    let d1 = DmaView { cycles: 1, ..d };
    lemma_run_split(d, m, (c - 1) as nat, (2 * (n - 1) + 1) as nat);
    lemma_run_countdown(d, m, (c - 1) as nat);
    assert(d1.copied(m) == d.copied(m));
    let (t, m2) = d.copied(m);
    let rest = (2 * (n - 1) + 1) as nat;
    assert((c - 1) as nat + rest == (c + 2 * (n - 1)) as nat);
    assert(dma_run(d, m, (c - 1) as nat) == (d1, m));
    assert(dma_run(d1, m, rest) == dma_run(d1.step(m).0, d1.step(m).1, (rest - 1) as nat));
    if n == 1 {
        assert(d1.step(m) == t.finished(m2));
        assert(dma_run(d1.step(m).0, d1.step(m).1, 0) == d1.step(m));
        assert(dma_copies(t, m2, 0) == (t, m2));
        assert(dma_copies(d, m, 1) == (t, m2));
    } else {
        assert(t.cycles == 2);
        assert(d1.step(m) == (t, m2));
        assert forall|i: int| 1 <= i < t.counter implies !#[trigger] in_sram(((t.src_addr + i) % 0x100000) as u32) by {
            assert(((d.src_addr + 1) % 0x100000 + i) % 0x100000 == (d.src_addr + (i + 1)) % 0x100000) by (nonlinear_arith)
                requires d.src_addr <= 0xFFFFF, i >= 1;
            assert(!in_sram(((d.src_addr + (i + 1)) % 0x100000) as u32));
        }
        lemma_run_transfer(t, m2);
        assert(dma_copies(d, m, n as nat) == dma_copies(t, m2, (n - 1) as nat));
    }
}

/// What `k` upward copies leave in memory: each destination byte holds its source byte, as long
/// as no source byte lies among the destinations; every other address reads as before.
#[verifier::rlimit(100)]
proof fn lemma_copies_memory(d: DmaView, m: MemView, k: nat)
    requires
        m.wf(),
        m.io.color(),
        !d.dir,
        d.src_addr <= 0xFFFFF,
        k <= d.counter,
        forall|i: int| 0 <= i < k ==> !#[trigger] in_window(((d.src_addr + i) % 0x100000) as u32, d.dest_addr, k),
    ensures
        dma_copies(d, m, k).1.wf(),
        dma_copies(d, m, k).1.io == m.io,
        forall|i: int| 0 <= i < k ==> #[trigger] dma_copies(d, m, k).1.read(((d.dest_addr + i) % 0x10000) as u32)
            == m.read(((d.src_addr + i) % 0x100000) as u32),
        forall|x: u32| x <= 0xFFFFF && !in_window(x, d.dest_addr, k) ==> #[trigger] dma_copies(d, m, k).1.read(x) == m.read(x),
    decreases k,
{
    if k > 0 {
        let (t, m1) = d.copied(m);
        let dest = d.dest_addr as u32;
        assert(m1.read(dest) == m.read(d.src_addr));
        assert(forall|x: u32| x != dest ==> #[trigger] m1.read(x) == m.read(x));
        assert forall|i: int| 0 <= i < k - 1 implies !#[trigger] in_window(((t.src_addr + i) % 0x100000) as u32, t.dest_addr, (k - 1) as nat) by {
            assert(((d.src_addr + 1) % 0x100000 + i) % 0x100000 == (d.src_addr + (i + 1)) % 0x100000) by (nonlinear_arith)
                requires d.src_addr <= 0xFFFFF, i >= 0;
            let x = ((d.src_addr + (i + 1)) % 0x100000) as u32;
            assert(!in_window(x, d.dest_addr, k));
            assert((x - (d.dest_addr + 1) % 0x10000) % 0x10000 == ((x - d.dest_addr) % 0x10000 - 1) % 0x10000) by (nonlinear_arith);
        }
        lemma_copies_memory(t, m1, (k - 1) as nat);
        let r = dma_copies(t, m1, (k - 1) as nat).1;
        assert(dma_copies(d, m, k).1 == r);
        assert forall|i: int| 0 <= i < k implies #[trigger] r.read(((d.dest_addr + i) % 0x10000) as u32)
            == m.read(((d.src_addr + i) % 0x100000) as u32) by {
            if i == 0 {
                assert(!in_window(dest, t.dest_addr, (k - 1) as nat));
                assert(!in_window(((d.src_addr + 0) % 0x100000) as u32, d.dest_addr, k));
            } else {
                assert(((d.dest_addr + 1) % 0x10000 + (i - 1)) % 0x10000 == (d.dest_addr + i) % 0x10000) by (nonlinear_arith)
                    requires i >= 1;
                assert(((d.src_addr + 1) % 0x100000 + (i - 1)) % 0x100000 == (d.src_addr + i) % 0x100000) by (nonlinear_arith)
                    requires d.src_addr <= 0xFFFFF, i >= 1;
                assert(!in_window(((d.src_addr + i) % 0x100000) as u32, d.dest_addr, k));
            }
        }
        assert forall|x: u32| x <= 0xFFFFF && !in_window(x, d.dest_addr, k) implies #[trigger] r.read(x) == m.read(x) by {
            assert(!in_window(x, t.dest_addr, (k - 1) as nat));
        }
    }
}

/// A whole general-DMA transfer upward, started on a color model with `n` bytes to copy: after
/// `2n + 5` cycles the transfer is over, each of the `n` destination bytes in WRAM holds the
/// source byte it was copied from, provided no source byte lies among the destinations; the ports
/// hold the addresses it stopped at and a count of 0, the enable bit is clear, and the bus is
/// free again.
pub proof fn law_dma_transfer(d: DmaView, m: MemView)
    requires
        m.wf(),
        m.io.color(),
        d.cycles == 7,
        d.counter >= 1,
        !d.dir,
        d.src_addr <= 0xFFFFF,
        forall|i: int| 1 <= i < d.counter ==> !#[trigger] in_sram(((d.src_addr + i) % 0x100000) as u32),
        forall|i: int| 0 <= i < d.counter
            ==> !#[trigger] in_window(((d.src_addr + i) % 0x100000) as u32, d.dest_addr, d.counter as nat),
    ensures
        ({
            let n = d.counter as int;
            let (r, mr) = dma_run(d, m, (2 * n + 5) as nat);
            let src = ((d.src_addr + n) % 0x100000) as u32;
            let dest = ((d.dest_addr + n) % 0x10000) as u16;
            &&& r.cycles == 0
            &&& r.counter == 0
            &&& r.src_addr == src
            &&& r.dest_addr == dest
            &&& forall|i: int| 0 <= i < n ==> #[trigger] mr.read(((d.dest_addr + i) % 0x10000) as u32)
                    == m.read(((d.src_addr + i) % 0x100000) as u32)
            &&& mr.io.port(0x40) == lo8((src % 0x10000) as u16) & 0xFE
            &&& mr.io.port(0x41) == hi8((src % 0x10000) as u16)
            &&& mr.io.port(0x42) == ((src / 0x10000) as u8) & 0x0F
            &&& mr.io.port(0x44) == lo8(dest) & 0xFE
            &&& mr.io.port(0x45) == hi8(dest)
            &&& mr.io.port(0x46) == 0
            &&& mr.io.port(0x47) == 0
            &&& mr.io.port(0x48) & 0x80 == 0
            &&& mr.owner == Owner::NONE
        }),
{
    let n = d.counter as nat;
    lemma_run_transfer(d, m);
    assert((d.cycles + 2 * (d.counter - 1)) as nat == (2 * n + 5) as nat);
    lemma_copies_addresses(d, m, n);
    lemma_copies_memory(d, m, n);
    let (t, mt) = dma_copies(d, m, n);
    lemma_finished(t, mt);
    let (r, mr) = t.finished(mt);
    assert forall|i: int| 0 <= i < n implies #[trigger] mr.read(((d.dest_addr + i) % 0x10000) as u32)
        == m.read(((d.src_addr + i) % 0x100000) as u32) by {
        let a = ((d.dest_addr + i) % 0x10000) as u32;
        assert(mr.read(a) == mt.read(a));
    }
}

/// How the ports of the general DMA take writes, and how its control port reads.
#[verifier::rlimit(100)]
proof fn lemma_dma_ports(io: IOView, a: u8, b: u8)
    requires
        io.ports.len() == 0x100,
    ensures
        write_port_word(io, 0x40, word(a, b)) == io.with_port(0x40, a & 0xFE).with_port(0x41, b),
        write_port_word(io, 0x44, word(a, b)) == io.with_port(0x44, a & 0xFE).with_port(0x45, b),
        write_port_word(io, 0x46, word(a, b)) == io.with_port(0x46, a & 0xFE).with_port(0x47, b),
        io.write(0x42, a) == io.with_port(0x42, a & 0x0F),
        io.write(0x48, a) == io.with_port(0x48, a),
        io.read(0x48) == (io.with_port(0x48, 0), io.port(0x48) & 0xC0),
{
    assert(
        (0x40u16 & 0x0100u16) == 0 && (0x41u16 & 0x0100u16) == 0 && (0x42u16 & 0x0100u16) == 0
        && (0x44u16 & 0x0100u16) == 0 && (0x45u16 & 0x0100u16) == 0 && (0x46u16 & 0x0100u16) == 0
        && (0x47u16 & 0x0100u16) == 0 && (0x48u16 & 0x0100u16) == 0
    ) by (bit_vector);
    assert(lo8(word(a, b)) == a && hi8(word(a, b)) == b) by (bit_vector);
}

/// What the end of a transfer leaves: the ports hold where it stopped and a count of 0, the enable
/// bit is clear, the bus is free, and WRAM and the model are as they were.
#[verifier::rlimit(100)]
proof fn lemma_finished(t: DmaView, m: MemView)
    requires
        m.wf(),
    ensures
        ({
            let (r, mr) = t.finished(m);
            let src = t.src_addr;
            &&& r == (DmaView { cycles: 0, ..t })
            &&& mr.wram == m.wram
            &&& mr.io.port(0x60) == m.io.port(0x60)
            &&& mr.io.port(0x40) == lo8((src % 0x10000) as u16) & 0xFE
            &&& mr.io.port(0x41) == hi8((src % 0x10000) as u16)
            &&& mr.io.port(0x42) == ((src / 0x10000) as u8) & 0x0F
            &&& mr.io.port(0x44) == lo8(t.dest_addr) & 0xFE
            &&& mr.io.port(0x45) == hi8(t.dest_addr)
            &&& mr.io.port(0x46) == 0
            &&& mr.io.port(0x47) == 0
            &&& mr.io.port(0x48) & 0x80 == 0
            &&& mr.owner == Owner::NONE
        }),
{
    reveal(DmaView::finished_io);
    let src = t.src_addr;
    let io = m.io;
    let (s0, s1) = (lo8((src % 0x10000) as u16), hi8((src % 0x10000) as u16));
    let (t0, t1) = (lo8(t.dest_addr), hi8(t.dest_addr));
    let x = (src % 0x10000) as u16;
    let y = t.dest_addr;
    assert(word(lo8(x), hi8(x)) == x && word(lo8(y), hi8(y)) == y && word(0, 0) == 0) by (bit_vector);
    lemma_dma_ports(io, s0, s1);
    let io1 = write_port_word(io, 0x40, (src % 0x10000) as u16);
    lemma_dma_ports(io1, (src / 0x10000) as u8, 0);
    let io2 = io1.write(0x42, (src / 0x10000) as u8);
    lemma_dma_ports(io2, t0, t1);
    let io3 = write_port_word(io2, 0x44, t.dest_addr);
    assert(lo8(0) == 0 && hi8(0) == 0) by (bit_vector);
    lemma_dma_ports(io3, 0, 0);
    let io4 = write_port_word(io3, 0x46, 0);
    lemma_dma_ports(io4, 0, 0);
    let (io5, ctrl) = io4.read(0x48);
    lemma_dma_ports(io5, ctrl & 0x7F, 0);
    assert(ctrl & 0x7F & 0x80 == 0) by (bit_vector);
    assert(0u8 & 0xFE == 0) by (bit_vector);
}

/// A repeated block instruction with a count of 0 does nothing.
#[verifier::rlimit(100)]
pub proof fn law_rep_zero_count(d: CpuView, m: MemView, c: u8, extra: u8)
    requires
        is_block(c),
        d.rep,
        d.CW == 0,
    ensures
        spec_dispatch(d, m, c, extra) == (d, m),
{
}

/// A repeated block instruction with a count left stays where it is, so it runs again; any
/// other instruction moves past itself.
pub proof fn law_rep_repeats(s: CpuView, m: MemView)
    ensures
        s.rep && s.CW != 0 ==> spec_leave(s, m) == (s, m),
        !s.rep && !s.flag(CpuStatus::BREAK) ==> spec_leave(s, m).0.PC == add16(s.PC, s.pc_displacement),
{
}

/// While an instruction's cycles run, a tick does nothing but count one down, and the queued
/// writes reach the bus when the count reaches 0.
pub proof fn law_busy_tick(s: CpuView, m: MemView)
    requires
        s.cycles > 0,
    ensures
        spec_tick(s, m) == spec_count_cycle(s.with_psw(fixed(s.PSW)), m),
{
    reveal(spec_tick);
}

/// The general DMA never reads SRAM: a transfer that runs has its source outside SRAM, and
/// starting a transfer and running its cycles keep that so.
pub proof fn law_dma_skips_sram(d: DmaView, m: MemView)
    requires
        d.cycles > 0 ==> !in_sram(d.src_addr),
    ensures
        d.cycles == 0 ==> (d.start(m).0.cycles > 0 ==> !in_sram(d.start(m).0.src_addr)),
        d.cycles > 0 ==> (d.step(m).0.cycles > 0 ==> !in_sram(d.step(m).0.src_addr)),
{
}

/// The memory map: the first 16 KiB are WRAM; the rest of the first 64 KiB is WRAM on color
/// models and reads the open bus value 0x90 on monochrome ones; then come the cartridge's SRAM,
/// its two 64 KiB ROM windows and the linear ROM area, each read as the cartridge's mapper
/// places it.
pub proof fn law_memory_map(m: MemView, a: u32)
    requires
        a <= 0xFFFFF,
    ensures
        a < 0x4000 ==> m.read(a) == m.wram[a as int],
        0x4000 <= a < 0x10000 ==> m.read(a) == (if m.io.color() { m.wram[a as int] } else { 0x90u8 }),
        0x10000 <= a < 0x20000 ==> m.read(a) == m.io.cartridge.sram_byte(a),
        0x20000 <= a < 0x30000 ==> m.read(a) == m.io.cartridge.rom_0_byte(a),
        0x30000 <= a < 0x40000 ==> m.read(a) == m.io.cartridge.rom_1_byte(a),
        0x40000 <= a ==> m.read(a) == m.io.cartridge.rom_ex_byte(a),
{
}

/// On monochrome models only the first quarter of WRAM exists: above it reads give the open
/// bus value and writes change nothing.
pub proof fn law_mono_wram_quarter(m: MemView, a: u32, b: u8)
    requires
        !m.io.color(),
        0x4000 <= a < 0x10000,
    ensures
        m.read(a) == OPEN_BUS,
        m.write(a, b) == m,
{
}

/// The 2001 mapper ignores the high bytes of the bank registers.
pub proof fn law_mapper_2001_low_bank_only(lo: u8, hi1: u8, hi2: u8)
    ensures
        bank(Mapper::B_2001, lo, hi1) == bank(Mapper::B_2001, lo, hi2),
{
}

/// While the sound DMA holds, a completed transfer cycle puts out 0 and leaves its source and
/// counter where they are.
pub proof fn law_sdma_hold(d: SdmaView, m: MemView)
    requires
        d.hold,
        d.cycles == 1,
    ensures
        d.step(m).0.src_addr == d.src_addr,
        d.step(m).0.counter == d.counter,
        d.step(m).1 == (MemView { io: m.io.write(0x89, 0), ..m }),
{
}

/// A repeating sound DMA that sends its last byte reloads its source and counter from their
/// shadows.
pub proof fn law_sdma_repeat(d: SdmaView, m: MemView)
    requires
        d.rep,
        !d.hold,
        d.cycles == 1,
        d.counter == 1,
    ensures
        d.step(m).0.src_addr == d.src_shadow,
        d.step(m).0.counter == d.counter_shadow,
{
}

/// A sprite's pixel shows above both screens and the background.
pub proof fn law_sprite_on_top(d: Display, m: MemView, x: u8, y: u8)
    requires
        d.sprite_pixels@[y as int * 256 + x as int] is Some,
    ensures
        Some(d.composed(m, x, y)) == d.sprite_pixels@[y as int * 256 + x as int],
{
}

} // verus!