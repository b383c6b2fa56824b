use wondercrab::soc::SoC;
use wondercrab::cpu::flags::CpuStatus;

#[test]
fn test_0x00_add_register_to_memory_8() {

    let mut soc = SoC::test_build();
    soc.set_wram(vec![
        0x00, 0x06, 0xFE, 0x00, // [0x00FE] <- [0x00FE] + AL
    ]);
    soc.get_cpu().AW = 0x1234;
    soc.get_wram()[0x00FE] = 0x01;

    soc.tick_cpu_no_cycles();
    assert_eq!(soc.get_cpu().PC, 0x0004);
    assert_eq!(soc.get_wram()[0x00FE], 0x35);
    assert!(soc.get_cpu().PSW.contains(CpuStatus::PARITY));
}

#[test]
fn test_0x01_add_register_to_memory_16() {

    let mut soc = SoC::test_build();
    soc.set_wram(vec![
        0x01, 0x06, 0xFE, 0x00, // [0x00FE] <- [0x00FE] + AW
    ]);
    soc.get_cpu().AW = 0x1234;
    soc.get_wram()[0x00FE] = 0xFF;
    soc.get_wram()[0x00FF] = 0x01;

    soc.tick_cpu_no_cycles();
    assert_eq!(soc.get_cpu().PC, 0x0004);
    assert_eq!(soc.get_wram()[0x00FE], 0x33);
    assert_eq!(soc.get_wram()[0x00FF], 0x14);
    assert!(soc.get_cpu().PSW.contains(CpuStatus::AUX_CARRY));
    assert!(soc.get_cpu().PSW.contains(CpuStatus::PARITY));
}

#[test]
fn test_0x02_add_memory_to_register_8() {

    let mut soc = SoC::test_build();
    soc.set_wram(vec![
        0x02, 0x06, 0xFE, 0x00,
    ]);
    soc.get_cpu().AW = 0x1234;
    soc.get_wram()[0x00FE] = 0x01;

    soc.tick_cpu_no_cycles();
    assert_eq!(soc.get_cpu().PC, 0x0004);
    assert_eq!(soc.get_cpu().AW, 0x1235);
    assert!(!soc.get_cpu().PSW.contains(CpuStatus::AUX_CARRY));
    assert!(soc.get_cpu().PSW.contains(CpuStatus::PARITY));
}

#[test]
fn test_0x03_add_memory_to_register_16() {

    let mut soc = SoC::test_build();
    soc.set_wram(vec![
        0x03, 0x06, 0xFE, 0x00,
    ]);
    soc.get_cpu().AW = 0x1234;
    soc.get_wram()[0x00FE] = 0xFF;
    soc.get_wram()[0x00FF] = 0x01;

    soc.tick_cpu_no_cycles();
    assert_eq!(soc.get_cpu().PC, 0x0004);
    assert_eq!(soc.get_cpu().AW, 0x1433);
    assert!(soc.get_cpu().PSW.contains(CpuStatus::AUX_CARRY));
    assert!(soc.get_cpu().PSW.contains(CpuStatus::PARITY));
}

#[test]
fn test_0x04_add_immediate_to_accumulator_8() {

    let mut soc = SoC::test_build();
    soc.set_wram(vec![
        0x04, 0xFF,
    ]);
    soc.get_cpu().AW = 0x12FF;

    soc.tick_cpu_no_cycles();
    assert_eq!(soc.get_cpu().PC, 0x0002);
    assert_eq!(soc.get_cpu().AW, 0x12FE);
    assert!(soc.get_cpu().PSW.contains(CpuStatus::AUX_CARRY));
    assert!(soc.get_cpu().PSW.contains(CpuStatus::SIGN));
    assert!(soc.get_cpu().PSW.contains(CpuStatus::CARRY));
    assert!(!soc.get_cpu().PSW.contains(CpuStatus::OVERFLOW));
}

#[test]
fn test_0x05_add_immediate_to_accumulator_16() {

    let mut soc = SoC::test_build();
    soc.set_wram(vec![
        0x05, 0xFF, 0xFF
    ]);
    soc.get_cpu().AW = 0x12FF;

    soc.tick_cpu_no_cycles();
    assert_eq!(soc.get_cpu().PC, 0x0003);
    assert_eq!(soc.get_cpu().AW, 0x12FE);
    assert!(soc.get_cpu().PSW.contains(CpuStatus::AUX_CARRY));
    assert!(!soc.get_cpu().PSW.contains(CpuStatus::SIGN));
    assert!(soc.get_cpu().PSW.contains(CpuStatus::CARRY));
    assert!(!soc.get_cpu().PSW.contains(CpuStatus::OVERFLOW));
}

#[test]
fn test_0x10_addc_register_to_memory_8() {

    let mut soc = SoC::test_build();
    soc.set_wram(vec![
        0x10, 0x06, 0xFE, 0x00, // [0x00FE] <- [0x00FE] + AL + carry
    ]);
    soc.get_cpu().AW = 0x1234;
    soc.get_cpu().PSW.insert(CpuStatus::CARRY);
    soc.get_wram()[0x00FE] = 0x01;

    soc.tick_cpu_no_cycles();
    assert_eq!(soc.get_cpu().PC, 0x0004);
    assert_eq!(soc.get_wram()[0x00FE], 0x36);
    assert!(soc.get_cpu().PSW.contains(CpuStatus::PARITY));
}

#[test]
fn test_0x11_addc_register_to_memory_16() {

    let mut soc = SoC::test_build();
    soc.set_wram(vec![
        0x11, 0x06, 0xFE, 0x00, // [0x00FE] <- [0x00FE] + AW + carry
    ]);
    soc.get_cpu().AW = 0x1234;
    soc.get_cpu().PSW.insert(CpuStatus::CARRY);
    soc.get_wram()[0x00FE] = 0xFF;
    soc.get_wram()[0x00FF] = 0x01;

    soc.tick_cpu_no_cycles();
    assert_eq!(soc.get_cpu().PC, 0x0004);
    assert_eq!(soc.get_wram()[0x00FE], 0x34);
    assert_eq!(soc.get_wram()[0x00FF], 0x14);
    assert!(soc.get_cpu().PSW.contains(CpuStatus::AUX_CARRY));
    assert!(!soc.get_cpu().PSW.contains(CpuStatus::PARITY));
}

#[test]
fn test_0x12_addc_memory_to_register_8() {

    let mut soc = SoC::test_build();
    soc.set_wram(vec![
        0x12, 0x06, 0xFE, 0x00,
    ]);
    soc.get_cpu().AW = 0x1234;
    soc.get_cpu().PSW.insert(CpuStatus::CARRY);
    soc.get_wram()[0x00FE] = 0x01;

    soc.tick_cpu_no_cycles();
    assert_eq!(soc.get_cpu().PC, 0x0004);
    assert_eq!(soc.get_cpu().AW, 0x1236);
    assert!(!soc.get_cpu().PSW.contains(CpuStatus::AUX_CARRY));
    assert!(soc.get_cpu().PSW.contains(CpuStatus::PARITY));
}

#[test]
fn test_0x13_addc_memory_to_register_16() {

    let mut soc = SoC::test_build();
    soc.set_wram(vec![
        0x13, 0x06, 0xFE, 0x00,
    ]);
    soc.get_cpu().AW = 0x1234;
    soc.get_cpu().PSW.insert(CpuStatus::CARRY);
    soc.get_wram()[0x00FE] = 0xFF;
    soc.get_wram()[0x00FF] = 0x01;

    soc.tick_cpu_no_cycles();
    assert_eq!(soc.get_cpu().PC, 0x0004);
    assert_eq!(soc.get_cpu().AW, 0x1434);
    assert!(soc.get_cpu().PSW.contains(CpuStatus::AUX_CARRY));
    assert!(!soc.get_cpu().PSW.contains(CpuStatus::PARITY));
}

#[test]
fn test_0x14_addc_immediate_to_accumulator_8() {

    let mut soc = SoC::test_build();
    soc.set_wram(vec![
        0x14, 0xFF,
    ]);
    soc.get_cpu().AW = 0x12FF;
    soc.get_cpu().PSW.insert(CpuStatus::CARRY);

    soc.tick_cpu_no_cycles();
    assert_eq!(soc.get_cpu().PC, 0x0002);
    assert_eq!(soc.get_cpu().AW, 0x12FF); // 0xFF + 0xFF + 1 = 0x1FF
    assert!(soc.get_cpu().PSW.contains(CpuStatus::AUX_CARRY));
    assert!(soc.get_cpu().PSW.contains(CpuStatus::CARRY));
    assert!(soc.get_cpu().PSW.contains(CpuStatus::SIGN));
}

#[test]
fn test_0x15_addc_immediate_to_accumulator_16() {

    let mut soc = SoC::test_build();
    soc.set_wram(vec![
        0x15, 0xFF, 0xFF
    ]);
    soc.get_cpu().AW = 0x12FF;
    soc.get_cpu().PSW.insert(CpuStatus::CARRY);

    soc.tick_cpu_no_cycles();
    assert_eq!(soc.get_cpu().PC, 0x0003);
    assert_eq!(soc.get_cpu().AW, 0x12FF); // 0x12FF + 0xFFFF + 1 = 0x12FF
    assert!(soc.get_cpu().PSW.contains(CpuStatus::CARRY));
    assert!(soc.get_cpu().PSW.contains(CpuStatus::AUX_CARRY));
    assert!(!soc.get_cpu().PSW.contains(CpuStatus::SIGN));
}
