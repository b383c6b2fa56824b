//! The serial EEPROMs: the console's internal one and the one some cartridges carry.
use vstd::prelude::*;
use crate::bits::{hi8, lo8, word, u16_from_le, u16_to_le, lemma_word_shift};

verus! {

/// A serial EEPROM addressed by words.
pub struct EEPROM {
    pub contents: Vec<u8>,
    pub input: u16,
    pub output: u16,
    pub comm: u16,
    pub address_bits: u8,
    pub write_enabled: bool,
}

/// The abstract state of an EEPROM.
pub struct EepromView {
    pub contents: Seq<u8>,
    pub input: u16,
    pub output: u16,
    pub comm: u16,
    pub address_bits: u8,
    pub write_enabled: bool,
}

impl View for EEPROM {
    type V = EepromView;

    open spec fn view(&self) -> EepromView {
        EepromView {
            contents: self.contents@,
            input: self.input,
            output: self.output,
            comm: self.comm,
            address_bits: self.address_bits,
            write_enabled: self.write_enabled,
        }
    }
}

/// The mask of the word-address field of a command.
pub open spec fn word_mask(address_bits: u8) -> u16 {
    ((1u16 << (address_bits as u16)) - 1) as u16
}

impl EepromView {
    /// The command decoding assumes an address field of 2 to 12 bits; the contents may have any
    /// length, and a command on a word beyond them does nothing.
    pub open spec fn wf(self) -> bool {
        2 <= self.address_bits <= 12
    }

    /// Byte index of the word that a command addresses.
    pub open spec fn word_address(self, comm: u16) -> int {
        ((comm & word_mask(self.address_bits)) * 2) as int
    }

    /// Effect of a WRITE (1), READ (2) or ERASE (3) on the word at `addr`; none when the word
    /// does not lie within the contents.
    pub open spec fn after_op(self, addr: int, opcode: u16) -> EepromView {
        if addr + 1 >= self.contents.len() {
            self
        } else if opcode == 1 {
            if self.write_enabled {
                EepromView {
                    contents: self.contents.update(addr, lo8(self.input)).update(addr + 1, hi8(self.input)),
                    ..self
                }
            } else {
                self
            }
        } else if opcode == 2 {
            EepromView { output: word(self.contents[addr], self.contents[addr + 1]), ..self }
        } else {
            if self.write_enabled {
                EepromView { contents: self.contents.update(addr, 0xFF).update(addr + 1, 0xFF), ..self }
            } else {
                self
            }
        }
    }

    /// Effect of EWDS (0), WRAL (1), ERAL (2) or EWEN (3).
    pub open spec fn after_sub_op(self, sub_op: u16) -> EepromView {
        if sub_op == 0 {
            EepromView { write_enabled: false, ..self }
        } else if sub_op == 1 {
            if self.write_enabled {
                EepromView {
                    contents: Seq::new(self.contents.len(), |i: int| if i % 2 == 0 { lo8(self.input) } else { hi8(self.input) }),
                    ..self
                }
            } else {
                self
            }
        } else if sub_op == 2 {
            if self.write_enabled {
                EepromView { contents: Seq::new(self.contents.len(), |i: int| 0xFFu8), ..self }
            } else {
                self
            }
        } else {
            EepromView { write_enabled: true, ..self }
        }
    }

    /// The EEPROM after it receives a command word.
    pub open spec fn after_comm(self, comm: u16) -> EepromView {
        let ab = self.address_bits as u16;
        if comm >> ((ab + 3) as u16) != 0 {
            self
        } else {
            let s = EepromView { comm, ..self };
            if (comm >> ((ab + 2) as u16)) & 1 == 0 {
                s
            } else {
                let opcode = (comm >> ab) & 3;
                if opcode == 0 {
                    s.after_sub_op((comm >> ((ab - 2) as u16)) & 3)
                } else {
                    s.after_op(s.word_address(comm), opcode)
                }
            }
        }
    }
}

proof fn lemma_word_mask(comm: u16, ab: u8)
    by (bit_vector)
    requires
        2 <= ab <= 12,
    ensures
        1 <= (1u16 << (ab as u16)),
        (comm & word_mask(ab)) <= word_mask(ab),
        word_mask(ab) < 4096,
{
}

/// The masks of the internal EEPROM's commands on the two models.
pub proof fn lemma_model_masks()
    by (bit_vector)
    ensures
        word_mask(10) == 1023,
        word_mask(6) == 63,
{
}

impl EEPROM {
    /// A new EEPROM with writes enabled.
    pub fn new(contents: Vec<u8>, address_bits: u8) -> (r: Self)
        ensures
            r@ == (EepromView { contents: contents@, input: 0, output: 0, comm: 0, address_bits, write_enabled: true }),
    {
        Self { contents, input: 0, output: 0, comm: 0, address_bits, write_enabled: true }
    }

    /// The data register as last filled by a READ.
    pub fn read_data(&self) -> (r: u16)
        ensures r == self@.output,
    {
        self.output
    }

    /// Loads the data register used by WRITE and WRAL.
    pub fn write_data(&mut self, data: u16)
        ensures final(self)@ == (EepromView { input: data, ..old(self)@ }),
    {
        self.input = data;
    }

    /// Sends a command word; when its start bit is set the command runs.
    pub fn write_comm(&mut self, comm: u16)
        requires
            old(self)@.wf(),
        ensures
            final(self)@ == old(self)@.after_comm(comm),
            final(self)@.wf(),
    {
        let ab = self.address_bits as u16;
        proof { lemma_word_mask(comm, self.address_bits); }
        if comm >> (ab + 3) != 0 {
            return;
        }
        self.comm = comm;
        let sb = (comm >> (ab + 2)) & 1 != 0;
        if sb {
            let opcode = (comm >> ab) & 3;
            proof {
                lemma_word_shift(comm, ab);
            }
            if opcode == 0 {
                let sh = ab - 2;
                let sub_op = (comm >> sh) & 3;
                proof {
                    lemma_word_shift(comm, sh);
                }
                self.execute_sub_op(sub_op);
            } else {
                let mask = (1u16 << ab) - 1;
                let address = (comm & mask) * 2;
                if (address as usize) + 1 < self.contents.len() {
                    self.execute_op(address, opcode);
                }
            }
        }
    }

    fn execute_op(&mut self, address: u16, opcode: u16)
        requires
            old(self)@.wf(),
            address + 1 < old(self)@.contents.len(),
            1 <= opcode <= 3,
        ensures
            final(self)@ == old(self)@.after_op(address as int, opcode),
            final(self)@.wf(),
    {
        let a = address as usize;
        if opcode == 1 {
            if self.write_enabled {
                let (lo, hi) = u16_to_le(self.input);
                self.contents.set(a, lo);
                self.contents.set(a + 1, hi);
            }
        } else if opcode == 2 {
            self.output = u16_from_le(self.contents[a], self.contents[a + 1]);
        } else {
            if self.write_enabled {
                self.contents.set(a, 0xFF);
                self.contents.set(a + 1, 0xFF);
            }
        }
    }

    fn execute_sub_op(&mut self, sub_op: u16)
        requires
            old(self)@.wf(),
            sub_op <= 3,
        ensures
            final(self)@ == old(self)@.after_sub_op(sub_op),
            final(self)@.wf(),
    {
        let ghost s0 = self@;
        if sub_op == 0 {
            self.write_enabled = false;
        } else if sub_op == 1 {
            if self.write_enabled {
                let (lo, hi) = u16_to_le(self.input);
                let n = self.contents.len();
                let mut i: usize = 0;
                while i < n
                    invariant
                        n == self.contents.len(),
                        i <= n,
                        self.input == s0.input && self.output == s0.output && self.comm == s0.comm,
                        self.address_bits == s0.address_bits && self.write_enabled == s0.write_enabled,
                        lo == lo8(self.input),
                        hi == hi8(self.input),
                        forall|j: int| 0 <= j < i ==> self.contents@[j] == if j % 2 == 0 { lo } else { hi },
                    decreases n - i,
                {
                    if i % 2 == 0 {
                        self.contents.set(i, lo);
                    } else {
                        self.contents.set(i, hi);
                    }
                    i = i + 1;
                }
                assert(self.contents@ =~= Seq::new(n as nat, |j: int| if j % 2 == 0 { lo8(self.input) } else { hi8(self.input) }));
            }
        } else if sub_op == 2 {
            if self.write_enabled {
                let n = self.contents.len();
                let mut i: usize = 0;
                while i < n
                    invariant
                        n == self.contents.len(),
                        i <= n,
                        self.input == s0.input && self.output == s0.output && self.comm == s0.comm,
                        self.address_bits == s0.address_bits && self.write_enabled == s0.write_enabled,
                        forall|j: int| 0 <= j < i ==> self.contents@[j] == 0xFFu8,
                    decreases n - i,
                {
                    self.contents.set(i, 0xFF);
                    i = i + 1;
                }
                assert(self.contents@ =~= Seq::new(n as nat, |j: int| 0xFFu8));
            }
        } else {
            self.write_enabled = true;
        }
    }
}

} // verus!
