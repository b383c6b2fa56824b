use wondercrab::bus::eeprom::EEPROM;
use wondercrab::bus::io_bus::IOBus;
use wondercrab::bus::mem_bus::{MemBus, Owner};
use wondercrab::dma::DMA;
use wondercrab::cartridge::Cartridge;
use wondercrab::cpu::flags::CpuStatus;
use wondercrab::cpu::parity;
use wondercrab::soc::SoC;

fn run(program: Vec<u8>, aw: u16) -> SoC {
    let mut soc = SoC::test_build();
    soc.set_wram(program);
    soc.get_cpu().AW = aw;
    soc.get_cpu().PSW = CpuStatus::from_bits_truncate(0xF002);
    soc.tick_cpu_no_cycles();
    soc
}

#[test]
fn shl_by_one_without_carry_out() {
    let mut soc = run(vec![0xD0, 0xE0], 0x0001); // SHL AL, 1
    assert_eq!(soc.get_cpu().AW, 0x0002);
    assert!(!soc.get_cpu().PSW.contains(CpuStatus::CARRY));
    assert!(!soc.get_cpu().PSW.contains(CpuStatus::OVERFLOW));
    assert!(!soc.get_cpu().PSW.contains(CpuStatus::ZERO));
    assert!(!soc.get_cpu().PSW.contains(CpuStatus::SIGN));
}

#[test]
fn shl_by_eight_shifts_out_bit_zero_last() {
    let mut soc = run(vec![0xC0, 0xE0, 0x08], 0x0001); // SHL AL, 8
    assert_eq!(soc.get_cpu().AW, 0x0000);
    assert!(soc.get_cpu().PSW.contains(CpuStatus::CARRY));
    let mut soc = run(vec![0xC0, 0xE0, 0x09], 0x00FF); // SHL AL, 9
    assert_eq!(soc.get_cpu().AW, 0x0000);
    assert!(!soc.get_cpu().PSW.contains(CpuStatus::CARRY));
}

#[test]
fn shl_word_carry_is_last_bit_out() {
    let mut soc = run(vec![0xC1, 0xE0, 0x04], 0x1000); // SHL AW, 4
    assert_eq!(soc.get_cpu().AW, 0x0000);
    assert!(soc.get_cpu().PSW.contains(CpuStatus::CARRY));
    let mut soc = run(vec![0xC1, 0xE0, 0x04], 0x2000); // SHL AW, 4
    assert_eq!(soc.get_cpu().AW, 0x0000);
    assert!(!soc.get_cpu().PSW.contains(CpuStatus::CARRY));
}

#[test]
fn shr_carry_is_last_bit_out() {
    let mut soc = run(vec![0xD0, 0xE8], 0x0001); // SHR AL, 1
    assert_eq!(soc.get_cpu().AW, 0x0000);
    assert!(soc.get_cpu().PSW.contains(CpuStatus::CARRY));
    let mut soc = run(vec![0xC0, 0xE8, 0x02], 0x0002); // SHR AL, 2
    assert_eq!(soc.get_cpu().AW, 0x0000);
    assert!(soc.get_cpu().PSW.contains(CpuStatus::CARRY));
    let mut soc = run(vec![0xC0, 0xE8, 0x09], 0x00FF); // SHR AL, 9
    assert_eq!(soc.get_cpu().AW, 0x0000);
    assert!(!soc.get_cpu().PSW.contains(CpuStatus::CARRY));
}

#[test]
fn shra_by_nine_shifts_out_the_sign() {
    let mut soc = run(vec![0xC0, 0xF8, 0x09], 0x0080); // SHRA AL, 9
    assert_eq!(soc.get_cpu().AW, 0x00FF);
    assert!(soc.get_cpu().PSW.contains(CpuStatus::CARRY));
    let mut soc = run(vec![0xC1, 0xF8, 0x02], 0x8001); // SHRA AW, 2
    assert_eq!(soc.get_cpu().AW, 0xE000);
    assert!(!soc.get_cpu().PSW.contains(CpuStatus::CARRY));
}

#[test]
fn rm_two_addresses_bp_plus_ix_in_ss() {
    let mut soc = SoC::test_build();
    soc.set_wram(vec![0x8A, 0x02]); // MOV AL, [BP + IX]
    soc.write_mem_16(0x0110, 0x005A);
    soc.write_mem_16(0x0210, 0x00A5);
    soc.get_cpu().BW = 0x0200;
    soc.get_cpu().BP = 0x0100;
    soc.get_cpu().IX = 0x0010;
    soc.get_cpu().SS = 0x0000;
    soc.get_cpu().DS0 = 0x0010;
    soc.tick_cpu_no_cycles();
    assert_eq!(soc.get_cpu().AW & 0xFF, 0x5A);
}

#[test]
fn rm_three_addresses_bp_plus_iy() {
    let mut soc = SoC::test_build();
    soc.set_wram(vec![0x8A, 0x43, 0x02]); // MOV AL, [BP + IY + 2]
    soc.write_mem_16(0x0122, 0x0077);
    soc.get_cpu().BW = 0x0300;
    soc.get_cpu().BP = 0x0100;
    soc.get_cpu().IY = 0x0020;
    soc.tick_cpu_no_cycles();
    assert_eq!(soc.get_cpu().AW & 0xFF, 0x77);
}

fn chkind_with(aw: u16) -> SoC {
    let mut soc = SoC::test_build();
    soc.set_wram(vec![0x62, 0x06, 0x00, 0x01]); // CHKIND AW, [0x0100]
    soc.write_mem_16(0x0100, 0x0010);
    soc.write_mem_16(0x0102, 0x0020);
    soc.get_cpu().SP = 0x2000;
    soc.get_cpu().AW = aw;
    soc.tick_cpu_no_cycles();
    soc
}

#[test]
fn chkind_accepts_both_bounds() {
    let mut soc = chkind_with(0x0020);
    assert_eq!(soc.get_cpu().PC, 0x0004);
    assert_eq!(soc.get_cpu().SP, 0x2000);
    let mut soc = chkind_with(0x0010);
    assert_eq!(soc.get_cpu().PC, 0x0004);
    assert_eq!(soc.get_cpu().SP, 0x2000);
}

#[test]
fn chkind_traps_outside_bounds() {
    let mut soc = chkind_with(0x0021);
    assert_eq!(soc.get_cpu().SP, 0x1FFA);
    let mut soc = chkind_with(0x000F);
    assert_eq!(soc.get_cpu().SP, 0x1FFA);
}

#[test]
fn dispose_undoes_level_zero_prepare() {
    let mut soc = SoC::test_build();
    soc.set_wram(vec![
        0xC8, 0x10, 0x00, 0x00, // PREPARE 0x10, 0
        0xC9,                   // DISPOSE
    ]);
    soc.get_cpu().SP = 0x2000;
    soc.get_cpu().BP = 0x1234;
    soc.tick_cpu_no_cycles();
    assert_eq!(soc.get_cpu().BP, 0x1FFE);
    assert_eq!(soc.get_cpu().SP, 0x1FEE);
    soc.tick_cpu_no_cycles();
    assert_eq!(soc.get_cpu().BP, 0x1234);
    assert_eq!(soc.get_cpu().SP, 0x2000);
}

#[test]
fn reti_returns_from_break() {
    let mut soc = SoC::test_build();
    soc.set_wram(vec![0xCC]); // BRK 3
    soc.write_mem_16(0x000C, 0x0100);
    soc.write_mem_16(0x000E, 0x0000);
    soc.write_mem_16(0x0100, 0x00CF); // RETI
    soc.get_cpu().SP = 0x2000;
    soc.get_cpu().PSW = CpuStatus::from_bits_truncate(0xF283);
    soc.tick_cpu_no_cycles();
    assert_eq!(soc.get_cpu().PC, 0x0100);
    assert_eq!(soc.get_cpu().SP, 0x1FFA);
    soc.tick_cpu_no_cycles();
    assert_eq!(soc.get_cpu().PC, 0x0001);
    assert_eq!(soc.get_cpu().PS, 0x0000);
    assert_eq!(soc.get_cpu().SP, 0x2000);
    assert_eq!(soc.get_cpu().PSW.bits(), 0xF283);
}

#[test]
fn parity_matches_count_of_ones() {
    for x in 0..=255u8 {
        assert_eq!(parity(x), x.count_ones() % 2 == 0);
    }
    assert!(parity(0x00));
    assert!(!parity(0x01));
    assert!(parity(0xEE));
    assert!(!parity(0xFE));
}

#[test]
fn test_cartridge_is_zero_rom() {
    let soc = SoC::test_build();
    assert_eq!(soc.mem_bus.read_mem(0x20000), 0x00);
    assert_eq!(soc.mem_bus.read_mem(0x40000), 0x00);
    assert_eq!(soc.mem_bus.read_mem(0xFFFFF), 0x00);
    assert_eq!(soc.mem_bus.read_mem(0x10000), 0x00);
    assert_eq!(soc.mem_bus.read_mem(0x03FFF), 0x01);
}

#[test]
fn short_internal_eeprom_is_accepted() {
    let io = IOBus::new(Cartridge::test_build(), vec![0x11, 0x22, 0x33, 0x44], None, false, 0);
    assert_eq!(io.ieeprom.contents.len(), 4);
}

#[test]
fn eeprom_word_beyond_contents_is_ignored() {
    let mut e = EEPROM::new(vec![0x11, 0x22, 0x33, 0x44], 6);
    e.write_comm(0x0181); // READ word 1
    assert_eq!(e.read_data(), 0x4433);
    e.write_comm(0x0185); // READ word 5: beyond the contents
    assert_eq!(e.read_data(), 0x4433);
    e.write_data(0xBEEF);
    e.write_comm(0x0145); // WRITE word 5: beyond the contents
    e.write_comm(0x01C5); // ERASE word 5
    assert_eq!(e.contents, vec![0x11, 0x22, 0x33, 0x44]);
}

#[test]
fn dma_transfer_takes_two_cycles_a_byte_after_seven() {
    let io = IOBus::new(Cartridge::test_build(), Vec::new(), None, true, 0);
    let mut bus = MemBus::new(io);
    for (i, b) in [0xA1u8, 0xB2, 0xC3, 0xD4].iter().enumerate() {
        bus.write_mem(0x0100 + i as u32, *b);
    }
    bus.io_bus.write_io(0x40, 0x00);
    bus.io_bus.write_io(0x41, 0x01);
    bus.io_bus.write_io(0x42, 0x00);
    bus.io_bus.write_io(0x44, 0x00);
    bus.io_bus.write_io(0x45, 0x03);
    bus.io_bus.write_io(0x46, 0x04);
    bus.io_bus.write_io(0x47, 0x00);
    bus.io_bus.write_io(0x48, 0x80);
    let mut dma = DMA::new();
    assert!(dma.is_enabled(&mut bus));
    dma.start_op(&mut bus);
    let mut ticks = 0;
    while dma.cycles > 0 {
        dma.tick(&mut bus);
        ticks += 1;
    }
    assert_eq!(ticks, 2 * 4 + 5);
    assert_eq!(bus.read_mem(0x0300), 0xA1);
    assert_eq!(bus.read_mem(0x0301), 0xB2);
    assert_eq!(bus.read_mem(0x0302), 0xC3);
    assert_eq!(bus.read_mem(0x0303), 0xD4);
    assert_eq!(bus.io_bus.ports[0x40], 0x04);
    assert_eq!(bus.io_bus.ports[0x41], 0x01);
    assert_eq!(bus.io_bus.ports[0x42], 0x00);
    assert_eq!(bus.io_bus.ports[0x44], 0x04);
    assert_eq!(bus.io_bus.ports[0x45], 0x03);
    assert_eq!(bus.io_bus.ports[0x46], 0x00);
    assert_eq!(bus.io_bus.ports[0x47], 0x00);
    assert_eq!(bus.io_bus.ports[0x48] & 0x80, 0);
    assert!(bus.owner == Owner::NONE);
}
