//! The WonderSwan's shared I/O bus: 256 ports, some of which are backed by devices.
use vstd::prelude::*;
use crate::bits::{hi8, lo8, word, u16_from_le, u16_to_le, lemma_byte_fields, lemma_word_fields};
use crate::bus::eeprom::{EEPROM, EepromView, word_mask, lemma_model_masks};
use crate::bus::keypad::{Keypad, KeypadView, Keys, scanned_keys, key_set};
use crate::cartridge::{Cartridge, CartridgeView, Mapper, OPEN_BUS};
use crate::display::PaletteFormat;

verus! {

/// The WonderSwan's shared I/O bus.
pub struct IOBus {
    /// The byte at each port
    pub ports: Vec<u8>,
    /// The cartridge, whose mapper registers sit on the bus
    pub cartridge: Cartridge,
    /// The cartridge's EEPROM, none when the cartridge instead contains SRAM
    pub eeprom: Option<EEPROM>,
    /// The system's internal EEPROM
    pub ieeprom: EEPROM,
    /// The console's built-in keys
    pub keypad: Keypad,
}

/// The abstract state of the I/O bus.
pub struct IOView {
    pub ports: Seq<u8>,
    pub cartridge: CartridgeView,
    pub eeprom: Option<EepromView>,
    pub ieeprom: EepromView,
    pub keypad: KeypadView,
}

pub open spec fn opt_eeprom_view(e: Option<EEPROM>) -> Option<EepromView> {
    match e {
        Some(x) => Some(x@),
        None => None,
    }
}

impl View for IOBus {
    type V = IOView;

    open spec fn view(&self) -> IOView {
        IOView {
            ports: self.ports@,
            cartridge: self.cartridge@,
            eeprom: opt_eeprom_view(self.eeprom),
            ieeprom: self.ieeprom@,
            keypad: self.keypad@,
        }
    }
}

/// The port that an address of the 16-bit I/O space reaches, if any.
pub open spec fn port_of(addr: u16) -> Option<u8> {
    if addr & 0x0100 != 0 {
        None
    } else if addr > 0xFF && (addr % 256) as u8 > 0xB8 {
        None
    } else {
        Some((addr % 256) as u8)
    }
}

/// Whether a port is one of the screen LUT ports whose upper nibble alone is defined.
pub open spec fn is_lut_pair_port(p: u8) -> bool {
    p == 0x28 || p == 0x2A || p == 0x2C || p == 0x2E || p == 0x38 || p == 0x3A || p == 0x3C || p == 0x3E
}

/// The address width of the internal EEPROM's commands.
pub open spec fn ieeprom_address_bits(color: bool) -> u8 {
    if color { 10 } else { 6 }
}

impl IOView {
    pub open spec fn wf(self) -> bool {
        &&& self.ports.len() == 0x100
        &&& self.cartridge.wf()
        &&& self.ieeprom.wf()
        &&& (self.eeprom matches Some(e) ==> e.wf())
    }

    pub open spec fn port(self, p: u8) -> u8 {
        self.ports[p as int]
    }

    pub open spec fn with_port(self, p: u8, b: u8) -> IOView {
        IOView { ports: self.ports.update(p as int, b), ..self }
    }

    /// Whether port 0x60 selects color mode.
    pub open spec fn color(self) -> bool {
        self.port(0x60) >= 0x80
    }

    pub open spec fn palette_format(self) -> PaletteFormat {
        if !self.color() {
            PaletteFormat::PLANAR_2BPP
        } else {
            let f = (self.port(0x60) >> 5) & 7;
            if f == 6 {
                PaletteFormat::PLANAR_4BPP
            } else if f == 7 {
                PaletteFormat::PACKED_4BPP
            } else {
                PaletteFormat::PLANAR_2BPP
            }
        }
    }

    /// Sets the interrupt cause bits of `mask` that INT_ENABLE allows.
    pub open spec fn raise(self, mask: u8) -> IOView {
        self.with_port(0xB4, self.port(0xB4) | (mask & self.port(0xB2)))
    }

    /// The byte a read of a port gives, and the bus after it.
    pub open spec fn read_port(self, p: u8) -> (IOView, u8) {
        let c = self.cartridge;
        let b2001 = c.mapper == Mapper::B_2001;
        if is_lut_pair_port(p) {
            (self, self.port(p) & 0x70)
        } else if 0x20 <= p <= 0x3F {
            (self, self.port(p) & 0x77)
        } else if p == 0x40 || p == 0x44 || p == 0x46 {
            (self, self.port(p) & 0xFE)
        } else if p == 0x42 || p == 0x4C || p == 0x50 {
            (self, self.port(p) & 0x0F)
        } else if p == 0x43 || p == 0x4D || p == 0x51 || p == 0xB6 || p == 0xBA || p == 0xBB || p == 0xBF {
            (self, 0)
        } else if p == 0x48 {
            (self.with_port(0x48, 0), self.port(0x48) & 0xC0)
        } else if p == 0x60 {
            (self, if self.color() { self.port(0x60) } else { OPEN_BUS })
        } else if p == 0xB2 {
            (self, self.port(0xB2) | 0x40)
        } else if p == 0xB3 {
            (self, 0x84)
        } else if p == 0xB4 {
            (self.with_port(0xB4, self.port(0xB4) & 0x0D), self.port(0xB4))
        } else if p == 0xB5 {
            (self, self.port(0xB5) | self.keypad.keys)
        } else if p == 0xB7 {
            (self.with_port(0xB7, self.port(0xB7) & 0x10), self.port(0xB7) & 0x10)
        } else if p == 0xC0 {
            (self, c.linear_addr_off)
        } else if p == 0xC1 {
            (self, c.ram_bank_l)
        } else if p == 0xC2 {
            (self, c.rom_bank_0_l)
        } else if p == 0xC3 {
            (self, c.rom_bank_1_l)
        } else if p == 0xCF {
            (self, if b2001 { OPEN_BUS } else { c.linear_addr_off })
        } else if p == 0xD0 {
            (self, if b2001 { OPEN_BUS } else { c.ram_bank_l })
        } else if p == 0xD1 {
            (self, if b2001 { OPEN_BUS } else { c.ram_bank_h })
        } else if p == 0xD2 {
            (self, if b2001 { OPEN_BUS } else { c.rom_bank_0_l })
        } else if p == 0xD3 {
            (self, if b2001 { OPEN_BUS } else { c.rom_bank_0_h })
        } else if p == 0xD4 {
            (self, if b2001 { OPEN_BUS } else { c.rom_bank_1_l })
        } else if p == 0xD5 {
            (self, if b2001 { OPEN_BUS } else { c.rom_bank_1_h })
        } else if 0xC4 <= p <= 0xC7 {
            (self, if self.eeprom is Some { self.port(p) } else { OPEN_BUS })
        } else if p == 0xC8 {
            (self, if self.eeprom is Some { 2 } else { OPEN_BUS })
        } else if p == 0xC9 {
            (self, OPEN_BUS)
        } else if p == 0xBE {
            (self, 0x83)
        } else {
            (self, self.port(p))
        }
    }

    /// The byte a read of an I/O address gives.
    #[verifier::opaque]
    pub open spec fn peek_byte(self, addr: u16) -> u8 {
        self.read(addr).1
    }

    /// The byte a read of an I/O address gives, and the bus after it.
    pub open spec fn read(self, addr: u16) -> (IOView, u8) {
        match port_of(addr) {
            None => (self, OPEN_BUS),
            Some(p) => self.read_port(p),
        }
    }

    /// The effect of a command byte written to the cartridge EEPROM's control port.
    pub open spec fn eeprom_command(self, byte: u8) -> IOView {
        match self.eeprom {
            None => self,
            Some(e) => {
                let s = self.with_port(0xC8, byte & 0xF0);
                let op = byte >> 4;
                let comm = word(s.port(0xC6), s.port(0xC7));
                if op == 1 {
                    let e2 = e.after_comm(comm);
                    let s2 = IOView { eeprom: Some(e2), ..s };
                    s2.with_port(0xC4, lo8(e2.output)).with_port(0xC5, hi8(e2.output))
                } else if op == 2 {
                    let e2 = EepromView { input: word(s.port(0xC4), s.port(0xC5)), ..e }.after_comm(comm);
                    IOView { eeprom: Some(e2), ..s }
                } else if op == 4 {
                    IOView { eeprom: Some(e.after_comm(comm)), ..s }
                } else {
                    s
                }
            }
        }
    }

    /// The effect of a command byte written to the internal EEPROM's control port.
    pub open spec fn ieeprom_command(self, byte: u8) -> IOView {
        let s = self.with_port(0xBE, byte & 0xF0);
        let op = byte >> 4;
        let comm = word(s.port(0xBC), s.port(0xBD));
        let e = s.ieeprom;
        if op != 1 && (comm & word_mask(ieeprom_address_bits(self.color()))) * 2 >= 0x60 {
            s
        } else if op == 1 {
            let e2 = e.after_comm(comm);
            IOView { ieeprom: e2, ..s }.with_port(0xBA, lo8(e2.output)).with_port(0xBB, hi8(e2.output))
        } else if op == 2 {
            IOView { ieeprom: EepromView { input: word(s.port(0xBA), s.port(0xBB)), ..e }.after_comm(comm), ..s }
        } else if op == 4 {
            IOView { ieeprom: e.after_comm(comm), ..s }
        } else {
            s
        }
    }

    /// The effect of a write to KEY_SCAN: the keypad is polled and a change of keys interrupts.
    pub open spec fn key_scan(self, byte: u8) -> IOView {
        let old_keys = self.port(0xB5) & 0x0F;
        let kp = KeypadView { keys: scanned_keys(self.keypad.state, (byte & 0x70) >> 4), ..self.keypad };
        let v = byte & 0x70 | kp.keys;
        let s = IOView { keypad: kp, ..self }.with_port(0xB5, v);
        if v & 0x0F != old_keys { s.raise(0x02) } else { s }
    }

    /// The bus after a byte is written to a port.
    pub open spec fn write_port(self, p: u8, byte: u8) -> IOView {
        let c = self.cartridge;
        let b2001 = c.mapper == Mapper::B_2001;
        if p == 0x00 || p == 0x01 {
            self.with_port(p, byte)
        } else if p == 0x02 || p == 0x43 || p == 0x4D || p == 0x51 || (0xA8 <= p <= 0xAB) || p == 0xB3
            || p == 0xB4 || p == 0xCF || p == 0xC9 || p == 0xBF {
            self
        } else if 0x20 <= p <= 0x3E {
            self.with_port(p, byte & 0x77)
        } else if p == 0x40 || p == 0x44 || p == 0x46 {
            self.with_port(p, byte & 0xFE)
        } else if p == 0x42 || p == 0x4C || p == 0x50 {
            self.with_port(p, byte & 0x0F)
        } else if 0xA4 <= p <= 0xA7 {
            self.with_port(p, byte).with_port((p + 4) as u8, byte)
        } else if p == 0xB2 {
            self.with_port(0xB2, byte | 0x40)
        } else if p == 0xB5 {
            self.key_scan(byte)
        } else if p == 0xB6 {
            self.with_port(0xB6, byte).with_port(0xB4, self.port(0xB4) & !byte)
        } else if p == 0xC0 {
            IOView { cartridge: CartridgeView { linear_addr_off: byte, ..c }, ..self }
        } else if p == 0xC1 {
            IOView { cartridge: CartridgeView { ram_bank_l: byte, ..c }, ..self }
        } else if p == 0xC2 {
            IOView { cartridge: CartridgeView { rom_bank_0_l: byte, ..c }, ..self }
        } else if p == 0xC3 {
            IOView { cartridge: CartridgeView { rom_bank_1_l: byte, ..c }, ..self }
        } else if p == 0xD0 {
            if b2001 { self } else { IOView { cartridge: CartridgeView { ram_bank_l: byte, ..c }, ..self } }
        } else if p == 0xD1 {
            if b2001 { self } else { IOView { cartridge: CartridgeView { ram_bank_h: byte, ..c }, ..self } }
        } else if p == 0xD2 {
            if b2001 { self } else { IOView { cartridge: CartridgeView { rom_bank_0_l: byte, ..c }, ..self } }
        } else if p == 0xD3 {
            if b2001 { self } else { IOView { cartridge: CartridgeView { rom_bank_0_h: byte, ..c }, ..self } }
        } else if p == 0xD4 {
            if b2001 { self } else { IOView { cartridge: CartridgeView { rom_bank_1_l: byte, ..c }, ..self } }
        } else if p == 0xD5 {
            if b2001 { self } else { IOView { cartridge: CartridgeView { rom_bank_1_h: byte, ..c }, ..self } }
        } else if 0xC4 <= p <= 0xC7 {
            if self.eeprom is Some { self.with_port(p, byte) } else { self }
        } else if p == 0xC8 {
            self.eeprom_command(byte)
        } else if p == 0xBE {
            self.ieeprom_command(byte)
        } else {
            self.with_port(p, byte)
        }
    }

    /// The bus after a byte is written to an I/O address.
    pub open spec fn write(self, addr: u16, byte: u8) -> IOView {
        match port_of(addr) {
            None => self,
            Some(p) => self.write_port(p, byte),
        }
    }

    pub open spec fn with_key(self, key: Keys, pressed: bool) -> IOView {
        let kp = KeypadView { state: key_set(self.keypad.state, key, pressed), ..self.keypad };
        let old = self.port(0xB5);
        let new = old | kp.keys;
        let s = IOView { keypad: kp, ..self }.with_port(0xB5, new);
        if !old & new != 0 { s.raise(0x02) } else { s }
    }

    pub open spec fn with_lcd_line(self, line: u8) -> IOView {
        let s = self.with_port(0x02, line);
        if line == s.port(0x03) { s.raise(0x10) } else { s }
    }

    /// Counts a 16-bit timer down, as HBLANK and VBLANK do when their timer is enabled.
    pub open spec fn count_down(self, enable: u8, repeat: u8, cause: u8, reload: u8, counter: u8) -> IOView {
        if self.port(0xA2) & enable == 0 {
            self
        } else {
            let c = word(self.port(counter), self.port((counter + 1) as u8));
            if c == 1 {
                let s = self.raise(cause);
                if self.port(0xA2) & repeat != 0 {
                    s.with_port(counter, self.port(reload)).with_port((counter + 1) as u8, self.port((reload + 1) as u8))
                } else {
                    s.with_port(counter, 0).with_port((counter + 1) as u8, 0)
                }
            } else {
                let n: u16 = if c == 0 { 0xFFFF } else { (c - 1) as u16 };
                self.with_port(counter, lo8(n)).with_port((counter + 1) as u8, hi8(n))
            }
        }
    }

    pub open spec fn after_vblank(self) -> IOView {
        self.raise(0x40).count_down(4, 8, 0x20, 0xA6, 0xAA)
    }

    pub open spec fn after_hblank(self) -> IOView {
        self.count_down(1, 2, 0x80, 0xA4, 0xA8)
    }
}

impl IOBus {
    pub open spec fn wf(&self) -> bool {
        self@.wf()
    }

    /// Returns a new I/O bus.
    ///
    /// An empty `ieeprom` gives a blank internal EEPROM of the size of the model.
    pub fn new(cartridge: Cartridge, ieeprom: Vec<u8>, eeprom: Option<Vec<u8>>, color: bool, rom_info: u8) -> (r: Self)
        requires
            cartridge.wf(),
            eeprom matches Some(c) ==> (c.len() == 0x400 || c.len() == 0x2000 || c.len() == 0x4000),
        ensures
            r.wf(),
            r@.cartridge == cartridge@,
            r@.keypad == (KeypadView { state: 0, keys: 0 }),
            r@.ieeprom.address_bits == ieeprom_address_bits(color),
            r@.ieeprom.contents == (if ieeprom.len() == 0 {
                Seq::new(if color { 0x800 } else { 128 }, |i: int| 0u8) } else { ieeprom@ }),
            r@.ieeprom.write_enabled,
            r@.eeprom is Some == eeprom is Some,
            eeprom matches Some(c) ==> r@.eeprom->0.contents == c@
                && r@.eeprom->0.address_bits == (if c.len() == 0x400 { 6u8 } else { 10u8 })
                && r@.eeprom->0.write_enabled,
            r@.ports == (if color {
                Seq::new(0x100, |i: int| 0u8).update(0x60, 0x80).update(0xA0, 0x86 | rom_info)
            } else {
                Seq::new(0x100, |i: int| 0u8).update(0xA0, rom_info)
            }),
    {
        let ieeprom = if ieeprom.len() == 0 {
            if color {
                EEPROM::new(crate::cartridge::zeroed(0x800), 10)
            } else {
                EEPROM::new(crate::cartridge::zeroed(128), 6)
            }
        } else {
            EEPROM::new(ieeprom, if color { 10 } else { 6 })
        };
        proof {
            lemma_model_masks();
        }
        let eeprom = match eeprom {
            Some(contents) => {
                let address_bits: u8 = if contents.len() == 0x400 { 6 } else { 10 };
                Some(EEPROM::new(contents, address_bits))
            }
            None => None,
        };
        let mut bus = Self { ports: crate::cartridge::zeroed(0x100), cartridge, keypad: Keypad::new(), eeprom, ieeprom };
        if color {
            bus.color_setup();
        }
        let a0 = bus.ports[0xA0] | rom_info;
        bus.ports.set(0xA0, a0);
        proof {
            lemma_byte_fields(rom_info);
        }
        bus
    }

    /// Whether or not the console is in color mode as indicated by port 0x60.
    pub fn color_mode(&self) -> (r: bool)
        requires
            self.wf(),
        ensures
            r == self@.color(),
    {
        let p = self.ports[0x60];
        proof {
            lemma_byte_fields(p);
        }
        p >> 7 != 0
    }

    /// The format of the palette data as indicated by port 0x60.
    pub fn palette_format(&self) -> (r: PaletteFormat)
        requires
            self.wf(),
        ensures
            r == self@.palette_format(),
    {
        if !self.color_mode() {
            PaletteFormat::PLANAR_2BPP
        } else {
            let f = (self.ports[0x60] >> 5) & 0b111;
            if f == 6 {
                PaletteFormat::PLANAR_4BPP
            } else if f == 7 {
                PaletteFormat::PACKED_4BPP
            } else {
                PaletteFormat::PLANAR_2BPP
            }
        }
    }

    /// Sets ports 0x60 and 0xA0 to what a WonderSwan Color in color mode holds.
    pub fn color_setup(&mut self)
        requires
            old(self).wf(),
        ensures
            final(self)@ == old(self)@.with_port(0x60, 0x80).with_port(0xA0, 0x86),
            final(self).wf(),
    {
        self.ports.set(0x60, 0x80);
        self.ports.set(0xA0, 0x86);
    }

    /// The value of an open bus read on the monochrome WonderSwan.
    pub fn open_bus() -> (r: u8)
        ensures
            r == OPEN_BUS,
    {
        OPEN_BUS
    }

    fn set_port(&mut self, p: u8, b: u8)
        requires
            old(self).wf(),
        ensures
            final(self)@ == old(self)@.with_port(p, b),
            final(self).wf(),
    {
        self.ports.set(p as usize, b);
    }

    fn raise(&mut self, mask: u8)
        requires
            old(self).wf(),
        ensures
            final(self)@ == old(self)@.raise(mask),
    {
        let b4 = self.ports[0xB4] | (mask & self.ports[0xB2]);
        self.ports.set(0xB4, b4);
    }

    /// Presses or releases a key; a newly visible key interrupts.
    pub fn set_key(&mut self, key: Keys, pressed: bool)
        requires
            old(self).wf(),
        ensures
            final(self)@ == old(self)@.with_key(key, pressed),
    {
        self.keypad.set_key(key, pressed);
        let old_keys = self.ports[0xB5];
        let new_keys = old_keys | self.keypad.read_keys();
        self.set_port(0xB5, new_keys);
        if !old_keys & new_keys != 0 {
            self.raise(0x02);
        }
    }

    /// Called by the display controller to announce its current scanline.
    pub fn set_lcd_line(&mut self, line: u8)
        requires
            old(self).wf(),
        ensures
            final(self)@ == old(self)@.with_lcd_line(line),
            final(self).wf(),
    {
        self.set_port(0x02, line);
        if self.ports[0x02] == self.ports[0x03] {
            self.raise(0x10);
        }
    }

    fn count_down(&mut self, enable: u8, repeat: u8, cause: u8, reload: u8, counter: u8)
        requires
            old(self).wf(),
            0xA4 <= counter <= 0xAA,
            0xA4 <= reload <= 0xAA,
        ensures
            final(self)@ == old(self)@.count_down(enable, repeat, cause, reload, counter),
    {
        if self.ports[0xA2] & enable != 0 {
            let c = u16_from_le(self.ports[counter as usize], self.ports[counter as usize + 1]);
            if c == 1 {
                self.raise(cause);
                if self.ports[0xA2] & repeat != 0 {
                    let lo = self.ports[reload as usize];
                    let hi = self.ports[reload as usize + 1];
                    self.set_port(counter, lo);
                    self.set_port(counter + 1, hi);
                } else {
                    self.set_port(counter, 0);
                    self.set_port(counter + 1, 0);
                }
            } else {
                let n = c.wrapping_sub(1);
                let (lo, hi) = u16_to_le(n);
                self.set_port(counter, lo);
                self.set_port(counter + 1, hi);
            }
        }
    }

    /// Called by the display controller when a frame has been drawn.
    pub fn vblank(&mut self)
        requires
            old(self).wf(),
        ensures
            final(self)@ == old(self)@.after_vblank(),
            final(self).wf(),
    {
        self.raise(0x40);
        self.count_down(4, 8, 0x20, 0xA6, 0xAA);
    }

    /// Called by the display controller when a scanline has been drawn.
    pub fn hblank(&mut self)
        requires
            old(self).wf(),
        ensures
            final(self)@ == old(self)@.after_hblank(),
            final(self).wf(),
    {
        self.count_down(1, 2, 0x80, 0xA4, 0xA8);
    }

    /// Called by the sound chip to publish the state of its noise LFSR in ports 0x92 and 0x93.
    pub fn set_lsfr(&mut self, lsfr: u16)
        requires
            old(self).wf(),
        ensures
            final(self)@ == old(self)@.write(0x92, lo8(lsfr)).write(0x93, hi8(lsfr)),
            final(self).wf(),
    {
        let (lo, hi) = u16_to_le(lsfr);
        self.write_io(0x92, lo);
        self.write_io(0x93, hi);
    }

    /// The port an address reaches, or none for an address outside the bus.
    pub fn check_open_bus(addr: u16) -> (r: Option<u8>)
        ensures
            r == port_of(addr),
    {
        if addr & 0x0100 != 0 {
            return None;
        }
        let port = (addr & 0xFF) as u8;
        proof {
            lemma_word_fields(addr);
        }
        if addr > 0xFF && port > 0xB8 {
            return None;
        }
        Some(port)
    }
    /// The byte a read of a display or sound port gives; reading these ports changes nothing.
    pub fn peek(&self, addr: u16) -> (r: u8)
        requires
            self.wf(),
            addr < 0x40 || (0x80 <= addr < 0xA0),
        ensures
            self@.read(addr) == (self@, r),
            r == self@.peek_byte(addr),
    {
        reveal(IOView::peek_byte);
        let p = addr as u8;
        let i = p as usize;
        assert(port_of(addr) == Some(p)) by {
            lemma_word_fields(addr);
        }
        if p == 0x28 || p == 0x2A || p == 0x2C || p == 0x2E || p == 0x38 || p == 0x3A || p == 0x3C || p == 0x3E {
            self.ports[i] & 0x70
        } else if 0x20 <= p && p <= 0x3F {
            self.ports[i] & 0x77
        } else {
            self.ports[i]
        }
    }

    /// Reads the byte at an I/O address; some ports have side effects when read.
    pub fn read_io(&mut self, addr: u16) -> (r: u8)
        requires
            old(self).wf(),
        ensures
            (final(self)@, r) == old(self)@.read(addr),
            final(self).wf(),
    {
        match Self::check_open_bus(addr) {
            None => OPEN_BUS,
            Some(p) => self.read_port(p),
        }
    }

    fn read_port(&mut self, p: u8) -> (r: u8)
        requires
            old(self).wf(),
        ensures
            (final(self)@, r) == old(self)@.read_port(p),
            final(self).wf(),
    {
        let i = p as usize;
        if p == 0x28 || p == 0x2A || p == 0x2C || p == 0x2E || p == 0x38 || p == 0x3A || p == 0x3C || p == 0x3E {
            self.ports[i] & 0x70
        } else if 0x20 <= p && p <= 0x3F {
            self.ports[i] & 0x77
        } else if p == 0x40 || p == 0x44 || p == 0x46 {
            self.ports[i] & 0xFE
        } else if p == 0x42 || p == 0x4C || p == 0x50 {
            self.ports[i] & 0x0F
        } else if p == 0x43 || p == 0x4D || p == 0x51 || p == 0xB6 || p == 0xBA || p == 0xBB || p == 0xBF {
            0
        } else if p == 0x48 {
            let output = self.ports[0x48] & 0xC0;
            self.set_port(0x48, 0);
            output
        } else if p == 0x60 {
            if self.color_mode() { self.ports[0x60] } else { OPEN_BUS }
        } else if p == 0xB2 {
            self.ports[0xB2] | 0x40
        } else if p == 0xB3 {
            0x84
        } else if p == 0xB4 {
            let cause = self.ports[0xB4];
            self.set_port(0xB4, cause & 0x0D);
            cause
        } else if p == 0xB5 {
            self.ports[0xB5] | self.keypad.read_keys()
        } else if p == 0xB7 {
            let v = self.ports[0xB7] & 0x10;
            self.set_port(0xB7, v);
            v
        } else if p == 0xC0 {
            self.cartridge.read_linear_addr_off()
        } else if p == 0xC1 {
            self.cartridge.read_ram_bank()
        } else if p == 0xC2 {
            self.cartridge.read_rom_bank_0()
        } else if p == 0xC3 {
            self.cartridge.read_rom_bank_1()
        } else if p == 0xCF {
            self.cartridge.read_linear_addr_off_shadow()
        } else if p == 0xD0 {
            self.cartridge.read_ram_bank_l()
        } else if p == 0xD1 {
            self.cartridge.read_ram_bank_h()
        } else if p == 0xD2 {
            self.cartridge.read_rom_bank_0_l()
        } else if p == 0xD3 {
            self.cartridge.read_rom_bank_0_h()
        } else if p == 0xD4 {
            self.cartridge.read_rom_bank_1_l()
        } else if p == 0xD5 {
            self.cartridge.read_rom_bank_1_h()
        } else if 0xC4 <= p && p <= 0xC7 {
            if self.eeprom.is_some() { self.ports[i] } else { OPEN_BUS }
        } else if p == 0xC8 {
            if self.eeprom.is_some() { 2 } else { OPEN_BUS }
        } else if p == 0xC9 {
            OPEN_BUS
        } else if p == 0xBE {
            0x83
        } else {
            self.ports[i]
        }
    }

    /// Reads the bytes at an address and the following one.
    pub fn read_io_16(&mut self, addr: u16) -> (r: (u8, u8))
        requires
            old(self).wf(),
        ensures
            ({
                let (v1, b1) = old(self)@.read(addr);
                let (v2, b2) = v1.read(addr.wrapping_add(1));
                final(self)@ == v2 && r == (b1, b2)
            }),
            final(self).wf(),
    {
        let lo = self.read_io(addr);
        let hi = self.read_io(addr.wrapping_add(1));
        (lo, hi)
    }

    /// Writes a word in little-endian order to an address and the following one.
    pub fn write_io_16(&mut self, addr: u16, w: u16)
        requires
            old(self).wf(),
        ensures
            final(self)@ == old(self)@.write(addr, lo8(w)).write(addr.wrapping_add(1), hi8(w)),
            final(self).wf(),
    {
        let (lo, hi) = u16_to_le(w);
        self.write_io(addr, lo);
        self.write_io(addr.wrapping_add(1), hi);
    }

    /// Writes a byte to an I/O address; some ports have side effects when written.
    pub fn write_io(&mut self, addr: u16, byte: u8)
        requires
            old(self).wf(),
        ensures
            final(self)@ == old(self)@.write(addr, byte),
            final(self).wf(),
    {
        match Self::check_open_bus(addr) {
            None => {},
            Some(p) => self.write_port(p, byte),
        }
    }

    fn write_port(&mut self, p: u8, byte: u8)
        requires
            old(self).wf(),
        ensures
            final(self)@ == old(self)@.write_port(p, byte),
            final(self).wf(),
    {
        if p == 0x00 || p == 0x01 {
            self.set_port(p, byte);
        } else if p == 0x02 || p == 0x43 || p == 0x4D || p == 0x51 || (0xA8 <= p && p <= 0xAB) || p == 0xB3
            || p == 0xB4 || p == 0xCF || p == 0xC9 || p == 0xBF {
        } else if 0x20 <= p && p <= 0x3E {
            self.set_port(p, byte & 0x77);
        } else if p == 0x40 || p == 0x44 || p == 0x46 {
            self.set_port(p, byte & 0xFE);
        } else if p == 0x42 || p == 0x4C || p == 0x50 {
            self.set_port(p, byte & 0x0F);
        } else if 0xA4 <= p && p <= 0xA7 {
            self.set_port(p, byte);
            self.set_port(p + 4, byte);
        } else if p == 0xB2 {
            self.set_port(0xB2, byte | 0x40);
        } else if p == 0xB5 {
            let old_keys = self.ports[0xB5] & 0x0F;
            self.keypad.poll((byte & 0x70) >> 4);
            let v = (byte & 0x70) | self.keypad.read_keys();
            self.set_port(0xB5, v);
            if v & 0x0F != old_keys {
                self.raise(0x02);
            }
        } else if p == 0xB6 {
            self.set_port(0xB6, byte);
            let b4 = self.ports[0xB4] & !byte;
            self.set_port(0xB4, b4);
        } else if p == 0xC0 {
            self.cartridge.write_linear_addr_off(byte);
        } else if p == 0xC1 {
            self.cartridge.write_ram_bank(byte);
        } else if p == 0xC2 {
            self.cartridge.write_rom_bank_0(byte);
        } else if p == 0xC3 {
            self.cartridge.write_rom_bank_1(byte);
        } else if p == 0xD0 {
            self.cartridge.write_ram_bank_l(byte);
        } else if p == 0xD1 {
            self.cartridge.write_ram_bank_h(byte);
        } else if p == 0xD2 {
            self.cartridge.write_rom_bank_0_l(byte);
        } else if p == 0xD3 {
            self.cartridge.write_rom_bank_0_h(byte);
        } else if p == 0xD4 {
            self.cartridge.write_rom_bank_1_l(byte);
        } else if p == 0xD5 {
            self.cartridge.write_rom_bank_1_h(byte);
        } else if 0xC4 <= p && p <= 0xC7 {
            if self.eeprom.is_some() {
                self.set_port(p, byte);
            }
        } else if p == 0xC8 {
            self.eeprom_command(byte);
        } else if p == 0xBE {
            self.ieeprom_command(byte);
        } else {
            self.set_port(p, byte);
        }
    }

    fn eeprom_command(&mut self, byte: u8)
        requires
            old(self).wf(),
        ensures
            final(self)@ == old(self)@.eeprom_command(byte),
            final(self).wf(),
    {
        let taken = self.eeprom.take();
        match taken {
            None => {},
            Some(mut e) => {
                self.set_port(0xC8, byte & 0xF0);
                let op = byte >> 4;
                let comm = u16_from_le(self.ports[0xC6], self.ports[0xC7]);
                if op == 1 {
                    e.write_comm(comm);
                    let (lo, hi) = u16_to_le(e.read_data());
                    self.set_port(0xC4, lo);
                    self.set_port(0xC5, hi);
                } else if op == 2 {
                    let data = u16_from_le(self.ports[0xC4], self.ports[0xC5]);
                    e.write_data(data);
                    e.write_comm(comm);
                } else if op == 4 {
                    e.write_comm(comm);
                }
                self.eeprom = Some(e);
            }
        }
    }

    fn ieeprom_command(&mut self, byte: u8)
        requires
            old(self).wf(),
        ensures
            final(self)@ == old(self)@.ieeprom_command(byte),
            final(self).wf(),
    {
        let color = self.color_mode();
        self.set_port(0xBE, byte & 0xF0);
        let op = byte >> 4;
        let comm = u16_from_le(self.ports[0xBC], self.ports[0xBD]);
        if op != 1 {
            let mask: u16 = if color { 1023 } else { 63 };
            proof {
                lemma_model_masks();
                lemma_word_fields(comm);
            }
            if (comm & mask) * 2 >= 0x60 {
                return;
            }
        }
        if op == 1 {
            self.ieeprom.write_comm(comm);
            let (lo, hi) = u16_to_le(self.ieeprom.read_data());
            self.set_port(0xBA, lo);
            self.set_port(0xBB, hi);
        } else if op == 2 {
            let data = u16_from_le(self.ports[0xBA], self.ports[0xBB]);
            self.ieeprom.write_data(data);
            self.ieeprom.write_comm(comm);
        } else if op == 4 {
            self.ieeprom.write_comm(comm);
        }
    }
}

/// The port operations of a component connected to the I/O bus. Reading or writing some ports
/// has side effects, and the 16-bit address space mirrors or leaves out some ports.
pub trait IOBusConnection {
    /// Whether the bus seen through the connection is in a valid state.
    spec fn io_ok(&self) -> bool;

    /// The I/O bus seen through the connection.
    spec fn io(&self) -> IOView;

    /// Returns the byte at the port of an address.
    fn read_io(&mut self, addr: u16) -> (r: u8)
        requires
            old(self).io_ok(),
        ensures
            final(self).io_ok(),
            (final(self).io(), r) == old(self).io().read(addr);

    /// Writes a byte to the port of an address.
    fn write_io(&mut self, addr: u16, byte: u8)
        requires
            old(self).io_ok(),
        ensures
            final(self).io_ok(),
            final(self).io() == old(self).io().write(addr, byte);

    /// Reads the bytes at an address and the following one.
    fn read_io_16(&mut self, addr: u16) -> (r: (u8, u8))
        requires
            old(self).io_ok(),
        ensures
            final(self).io_ok(),
            ({
                let (v1, b1) = old(self).io().read(addr);
                let (v2, b2) = v1.read(addr.wrapping_add(1));
                final(self).io() == v2 && r == (b1, b2)
            }),
    {
        let lo = self.read_io(addr);
        let hi = self.read_io(addr.wrapping_add(1));
        (lo, hi)
    }

    /// Writes a word in little-endian order to an address and the following one.
    fn write_io_16(&mut self, addr: u16, w: u16)
        requires
            old(self).io_ok(),
        ensures
            final(self).io_ok(),
            final(self).io() == old(self).io().write(addr, lo8(w)).write(addr.wrapping_add(1), hi8(w)),
    {
        let (lo, hi) = u16_to_le(w);
        self.write_io(addr, lo);
        self.write_io(addr.wrapping_add(1), hi);
    }
}

impl IOBusConnection for IOBus {
    open spec fn io_ok(&self) -> bool {
        self.wf()
    }

    open spec fn io(&self) -> IOView {
        self@
    }

    fn read_io(&mut self, addr: u16) -> (r: u8) {
        IOBus::read_io(self, addr)
    }

    fn write_io(&mut self, addr: u16, byte: u8) {
        IOBus::write_io(self, addr, byte)
    }
}

} // verus!
