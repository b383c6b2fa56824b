use wondercrab::bus::eeprom::EEPROM;
use wondercrab::bus::io_bus::{IOBus, IOBusConnection};
use wondercrab::bus::keypad::Keys;
use wondercrab::bus::mem_bus::{MemBus, MemBusConnection};
use wondercrab::cartridge::{Cartridge, Mapper};
use wondercrab::dma::DMA;
use wondercrab::dma::sdma::SDMA;
use wondercrab::rom::{parse_footer, RomError};
use wondercrab::soc::SoC;
use wondercrab::sound::mix;

fn rom_with_footer(save: u8, mapper: u8, flags: u8, info: u8) -> Vec<u8> {
    let mut rom = vec![0u8; 32];
    let base = rom.len() - 16;
    rom[base + 0x7] = flags;
    rom[base + 0xB] = save;
    rom[base + 0xC] = info;
    rom[base + 0xD] = mapper;
    rom
}

#[test]
fn footer_of_a_color_sram_game() {
    let info = parse_footer(&rom_with_footer(0x03, 1, 0x01, 0xFF)).unwrap();
    assert!(info.color);
    assert_eq!(info.ram_size, 0x20000);
    assert!(info.sram);
    assert_eq!(info.mapper, Mapper::B_2003);
    assert_eq!(info.rom_info, 0x0C);
}

#[test]
fn footer_of_a_mono_eeprom_game() {
    let info = parse_footer(&rom_with_footer(0x10, 0, 0x00, 0x04)).unwrap();
    assert!(!info.color);
    assert_eq!(info.ram_size, 0x400);
    assert!(!info.sram);
    assert_eq!(info.mapper, Mapper::B_2001);
    assert_eq!(info.rom_info, 0x04);
}

#[test]
fn footer_errors() {
    assert_eq!(parse_footer(&vec![0u8; 15]), Err(RomError::TooShort));
    assert_eq!(parse_footer(&rom_with_footer(0x07, 0, 0, 0)), Err(RomError::UnknownSaveType(0x07)));
    assert_eq!(parse_footer(&rom_with_footer(0x00, 2, 0, 0)), Err(RomError::UnknownMapper(2)));
}

#[test]
fn wram_word_reads_back() {
    let mut soc = SoC::test_build();
    soc.write_mem_16(0x1000, 0xBEEF);
    assert_eq!(soc.read_mem_16(0x1000), 0xBEEF);
    assert_eq!(soc.read_mem_16(0x1002), 0x0101);
    assert_eq!(soc.get_wram()[0x1000], 0xEF);
    assert_eq!(soc.get_wram()[0x1001], 0xBE);
}

#[test]
fn sram_byte_reads_back() {
    let io = IOBus::new(Cartridge::test_build(), Vec::new(), None, false, 0);
    let mut bus = MemBus::new(io);
    bus.write_mem(0x10005, 0x5A);
    assert_eq!(bus.read_mem(0x10005), 0x5A);
    assert_eq!(bus.read_mem(0x10006), 0x00);
}

#[test]
fn mono_model_reads_open_bus_above_wram() {
    let io = IOBus::new(Cartridge::test_build(), Vec::new(), None, false, 0);
    let mut bus = MemBus::new(io);
    bus.write_mem(0x5000, 0x12);
    assert_eq!(bus.read_mem(0x5000), 0x90);
}

#[test]
fn eeprom_write_then_read() {
    let mut e = EEPROM::new(vec![0u8; 0x80], 6);
    e.write_comm(0x0130); // EWEN
    e.write_data(0xCAFE);
    e.write_comm(0x0145); // WRITE word 5
    assert_eq!(e.contents[10], 0xFE);
    assert_eq!(e.contents[11], 0xCA);
    e.write_comm(0x0185); // READ word 5
    assert_eq!(e.read_data(), 0xCAFE);
}

#[test]
fn eeprom_protected_after_ewds() {
    let mut e = EEPROM::new(vec![0u8; 0x80], 6);
    e.write_comm(0x0100); // EWDS
    e.write_data(0x1234);
    e.write_comm(0x0145); // WRITE word 5
    e.write_comm(0x01C5); // ERASE word 5
    e.write_comm(0x0120); // ERAL
    assert_eq!(e.contents, vec![0u8; 0x80]);
}

#[test]
fn sound_port_reads_back() {
    let mut soc = SoC::test_build();
    soc.write_io(0x88, 0x37);
    assert_eq!(soc.read_io(0x88), 0x37);
    soc.write_io(0x9F, 0xA5);
    assert_eq!(soc.read_io(0x9F), 0xA5);
}

#[test]
fn pressed_key_shows_in_its_group_only() {
    let mut io = IOBus::new(Cartridge::test_build(), Vec::new(), None, false, 0);
    io.set_key(Keys::A, true);
    io.write_io(0xB5, 0x40); // select the action group
    assert_eq!(io.read_io(0xB5) & 0x0F, 0x04);
    io.write_io(0xB5, 0x10); // select the Y group
    assert_eq!(io.read_io(0xB5) & 0x0F, 0x00);
    io.set_key(Keys::A, false);
    io.write_io(0xB5, 0x40);
    assert_eq!(io.read_io(0xB5) & 0x0F, 0x00);
}

#[test]
fn dma_from_sram_does_not_start() {
    let io = IOBus::new(Cartridge::test_build(), Vec::new(), None, true, 0);
    let mut bus = MemBus::new(io);
    bus.io_bus.write_io(0x40, 0x00);
    bus.io_bus.write_io(0x41, 0x00);
    bus.io_bus.write_io(0x42, 0x01); // source segment 1: SRAM
    bus.io_bus.write_io(0x46, 0x10);
    bus.io_bus.write_io(0x48, 0x80);
    let mut dma = DMA::new();
    assert!(dma.is_enabled(&mut bus));
    dma.start_op(&mut bus);
    assert_eq!(dma.cycles, 0);
}

#[test]
fn dma_copies_wram() {
    let io = IOBus::new(Cartridge::test_build(), Vec::new(), None, true, 0);
    let mut bus = MemBus::new(io);
    bus.write_mem(0x0100, 0x11);
    bus.write_mem(0x0101, 0x22);
    bus.io_bus.write_io(0x40, 0x00);
    bus.io_bus.write_io(0x41, 0x01);
    bus.io_bus.write_io(0x42, 0x00);
    bus.io_bus.write_io(0x44, 0x00);
    bus.io_bus.write_io(0x45, 0x02);
    bus.io_bus.write_io(0x46, 0x02);
    bus.io_bus.write_io(0x48, 0x80);
    let mut dma = DMA::new();
    assert!(dma.is_enabled(&mut bus));
    dma.start_op(&mut bus);
    assert_eq!(dma.cycles, 7);
    while dma.cycles > 0 {
        dma.tick(&mut bus);
    }
    assert_eq!(bus.read_mem(0x0200), 0x11);
    assert_eq!(bus.read_mem(0x0201), 0x22);
    assert_eq!(bus.io_bus.read_io(0x48) & 0x80, 0);
}

#[test]
fn mix_speaker_and_headphones() {
    // Speaker: the two sides summed, shifted by the range in bits 1-2.
    assert_eq!(mix([2, 0, 0, 0], [0x31, 0, 0, 0], false, 0, 0x00), (8, 8));
    assert_eq!(mix([2, 0, 0, 0], [0x31, 0, 0, 0], false, 0, 0x02), (4, 4));
    // Headphones: the sides apart.
    assert_eq!(mix([2, 1, 0, 0], [0x31, 0x20, 0, 0], false, 0, 0x80), (8, 2));
}

#[test]
fn rep_with_zero_count_does_nothing() {
    let mut soc = SoC::test_build();
    soc.set_wram(vec![
        0xF3, 0xA4, // REP MOVBK
    ]);
    soc.get_cpu().CW = 0;
    soc.get_cpu().IX = 0x0100;
    soc.get_cpu().IY = 0x0200;
    soc.get_wram()[0x0100] = 0x77;
    soc.tick_cpu_no_cycles();
    soc.tick_cpu_no_cycles();
    assert_eq!(soc.get_cpu().PC, 0x0002);
    assert_eq!(soc.get_cpu().IX, 0x0100);
    assert_eq!(soc.get_cpu().IY, 0x0200);
    assert_eq!(soc.get_wram()[0x0200], 0x01);
}

#[test]
fn push_then_pop_restores_the_stack() {
    let mut soc = SoC::test_build();
    soc.set_wram(vec![
        0x50, // PUSH AW
        0x5B, // POP BW
    ]);
    soc.get_cpu().AW = 0x1234;
    soc.get_cpu().SP = 0x2000;
    soc.tick_cpu_no_cycles();
    assert_eq!(soc.get_cpu().SP, 0x1FFE);
    assert_eq!(soc.read_mem_16(0x1FFE), 0x1234);
    soc.tick_cpu_no_cycles();
    assert_eq!(soc.get_cpu().SP, 0x2000);
    assert_eq!(soc.get_cpu().BW, 0x1234);
}

fn word_through<B: MemBusConnection>(bus: &mut B, addr: u32, w: u16) -> u16 {
    bus.write_mem_16(addr, w);
    bus.read_mem_16(addr)
}

fn port_word_through<B: IOBusConnection>(bus: &mut B, addr: u16, w: u16) -> (u8, u8) {
    bus.write_io_16(addr, w);
    bus.read_io_16(addr)
}

#[test]
fn connections_write_and_read_words() {
    let io = IOBus::new(Cartridge::test_build(), Vec::new(), None, false, 0);
    let mut bus = MemBus::new(io);
    assert_eq!(word_through(&mut bus, 0x0200, 0xA55A), 0xA55A);
    assert_eq!(port_word_through(&mut bus.io_bus, 0x80, 0x1234), (0x34, 0x12));
}

#[test]
fn rep_repeats_until_the_count_runs_out() {
    let mut soc = SoC::test_build();
    soc.set_wram(vec![
        0xF3, 0xAA, // REP STM (byte)
    ]);
    soc.get_cpu().CW = 2;
    soc.get_cpu().IY = 0x0300;
    soc.get_cpu().AW = 0x00EE;
    soc.tick_cpu_no_cycles();
    soc.tick_cpu_no_cycles();
    assert_eq!(soc.get_cpu().CW, 1);
    assert_eq!(soc.get_cpu().PC, 0x0001);
    soc.tick_cpu_no_cycles();
    assert_eq!(soc.get_cpu().CW, 0);
    assert_eq!(soc.get_cpu().PC, 0x0002);
    assert_eq!(soc.get_wram()[0x0300], 0xEE);
    assert_eq!(soc.get_wram()[0x0301], 0xEE);
    assert_eq!(soc.get_wram()[0x0302], 0x01);
}

#[test]
fn busy_cpu_only_counts_cycles() {
    let mut soc = SoC::test_build();
    soc.set_wram(vec![
        0x06, // PUSH DS1: two cycles
        0x90, // NOP
    ]);
    soc.get_cpu().SP = 0x2000;
    soc.tick();
    assert_eq!(soc.get_cpu().PC, 0x0001);
    soc.tick();
    assert_eq!(soc.get_cpu().PC, 0x0001);
    soc.tick();
    assert_eq!(soc.get_cpu().PC, 0x0002);
}

#[test]
fn mapper_2001_ignores_the_high_bank_byte() {
    let mut c = Cartridge::new(Mapper::B_2001, vec![0u8; 0x20000], vec![0u8; 0x10000], true);
    c.write_ram_bank(1);
    c.ram_bank_h = 5;
    c.write_sram(0x10000, 0xAB);
    c.ram_bank_h = 0;
    assert_eq!(c.read_sram(0x10000), 0xAB);
    c.write_ram_bank(0);
    assert_eq!(c.read_sram(0x10000), 0x00);
}

#[test]
fn held_sound_dma_puts_out_zero() {
    let io = IOBus::new(Cartridge::test_build(), Vec::new(), None, true, 0);
    let mut bus = MemBus::new(io);
    bus.write_mem(0x0400, 0x66);
    let mut sdma = SDMA::new();
    sdma.cycles = 1;
    sdma.src_addr = 0x0400;
    sdma.counter = 4;
    sdma.counter_shadow = 4;
    sdma.running = true;
    sdma.hold = true;
    sdma.tick(&mut bus);
    assert_eq!(bus.io_bus.read_io(0x89), 0);
    assert_eq!(sdma.src_addr, 0x0400);
    assert_eq!(sdma.counter, 4);
}

#[test]
fn repeating_sound_dma_reloads_its_shadows() {
    let io = IOBus::new(Cartridge::test_build(), Vec::new(), None, true, 0);
    let mut bus = MemBus::new(io);
    bus.write_mem(0x0401, 0x66);
    let mut sdma = SDMA::new();
    sdma.cycles = 1;
    sdma.src_addr = 0x0401;
    sdma.counter = 1;
    sdma.src_shadow = 0x0400;
    sdma.counter_shadow = 2;
    sdma.running = true;
    sdma.rep = true;
    sdma.tick(&mut bus);
    assert_eq!(bus.io_bus.read_io(0x89), 0x66);
    assert_eq!(sdma.src_addr, 0x0400);
    assert_eq!(sdma.counter, 2);
}

#[test]
fn sound_channel_plays_its_waveform() {
    let mut soc = SoC::test_build();
    soc.write_io(0x80, 0xFF); // channel 1 frequency 0x7FF: a sample every tick
    soc.write_io(0x81, 0x07);
    soc.write_io(0x88, 0x11); // channel 1 volume 1 on each side
    soc.write_io(0x8F, 0x00); // waveforms at address 0, where WRAM holds 0x01
    soc.write_io(0x91, 0x00);
    soc.write_io(0x90, 0x01); // channel 1 on
    assert_eq!(soc.sound.tick(&mut soc.mem_bus), (0, 0));
    assert_eq!(soc.sound.channel_1.frequency, 1);
    assert_eq!(soc.sound.tick(&mut soc.mem_bus), (2, 2));
    assert_eq!(soc.sound.channel_1.sample_idx, 2);
}
