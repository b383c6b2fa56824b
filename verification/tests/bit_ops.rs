use wondercrab::soc::SoC;
use wondercrab::cpu::flags::CpuStatus;

#[test]
fn test_0x08_or_memory_register_8() {

    let mut soc = SoC::test_build();
    soc.set_wram(vec![
        0x08, 0xC1, // CL <- AL & CL
    ]);
    soc.get_cpu().AW = 0xFE;
    soc.get_cpu().CW = 0xEF;

    soc.tick_cpu_no_cycles();
    assert_eq!(soc.get_cpu().CW, 0xFF);
}

#[test]
fn test_0x09_and_memory_register_16() {

    let mut soc = SoC::test_build();
    soc.set_wram(vec![
        0x09, 0xC1, // CW <- AW & CW
    ]);
    soc.get_cpu().AW = 0xFFEE;
    soc.get_cpu().CW = 0xEEFF;

    soc.tick_cpu_no_cycles();
    assert_eq!(soc.get_cpu().CW, 0xFFFF);
}

#[test]
fn test_0x20_and_memory_register_8() {

    let mut soc = SoC::test_build();
    soc.set_wram(vec![
        0x20, 0xC1, // CL <- AL & CL
    ]);
    soc.get_cpu().AW = 0xFE;
    soc.get_cpu().CW = 0xEF;

    soc.tick_cpu_no_cycles();
    assert_eq!(soc.get_cpu().CW, 0xEE);
}

#[test]
fn test_0x21_and_memory_register_16() {

    let mut soc = SoC::test_build();
    soc.set_wram(vec![
        0x21, 0xC1, // CW <- AW & CW
    ]);
    soc.get_cpu().AW = 0xFFEE;
    soc.get_cpu().CW = 0xEEFF;

    soc.tick_cpu_no_cycles();
    assert_eq!(soc.get_cpu().CW, 0xEEEE);
}

#[test]
fn test_0xc0_2_rolc_mem_imm_8() {

    let mut soc = SoC::test_build();
    soc.set_wram(vec![
        0xC0, 0xD0, 0x01,
    ]);
    soc.get_cpu().AW = 0xFE;

    soc.tick_cpu_no_cycles();
    assert_eq!(soc.get_cpu().AW, 0xFC);
    assert!(soc.get_cpu().PSW.contains(CpuStatus::CARRY))
}

#[test]
fn test_0xc1_2_rolc_mem_imm_16() {

    let mut soc = SoC::test_build();
    soc.set_wram(vec![
        0xC1, 0xD0, 0x01,
    ]);
    soc.get_cpu().AW = 0xFFFE;

    soc.tick_cpu_no_cycles();
    assert_eq!(soc.get_cpu().AW, 0xFFFC);
    assert!(soc.get_cpu().PSW.contains(CpuStatus::CARRY))
}

#[test]
fn test_0xc0_3_rorc_mem_imm_8() {

    let mut soc = SoC::test_build();
    soc.set_wram(vec![
        0xC0, 0xD8, 0x01,
    ]);
    soc.get_cpu().AW = 0xFF;

    soc.tick_cpu_no_cycles();
    assert_eq!(soc.get_cpu().AW, 0x7F);
    assert!(soc.get_cpu().PSW.contains(CpuStatus::CARRY))
}

#[test]
fn test_0xc1_3_rorc_mem_imm_16() {

    let mut soc = SoC::test_build();
    soc.set_wram(vec![
        0xC1, 0xD8, 0x01,
    ]);
    soc.get_cpu().AW = 0xFFFF;

    soc.tick_cpu_no_cycles();
    assert_eq!(soc.get_cpu().AW, 0x7FFF);
    assert!(soc.get_cpu().PSW.contains(CpuStatus::CARRY))
}

#[test]
fn test_0xc0_4_shl_mem_imm_8() {

    let mut soc = SoC::test_build();
    soc.set_wram(vec![
        0xC0, 0xE0, 0x01,
    ]);
    soc.get_cpu().AW = 0xFE;

    soc.tick_cpu_no_cycles();
    assert_eq!(soc.get_cpu().AW, 0xFC);
    assert!(soc.get_cpu().PSW.contains(CpuStatus::CARRY))
}

#[test]
fn test_0xc1_4_shl_mem_imm_16() {

    let mut soc = SoC::test_build();
    soc.set_wram(vec![
        0xC1, 0xE0, 0x01,
    ]);
    soc.get_cpu().AW = 0xFFFE;

    soc.tick_cpu_no_cycles();
    assert_eq!(soc.get_cpu().AW, 0xFFFC);
    assert!(soc.get_cpu().PSW.contains(CpuStatus::CARRY))
}

#[test]
fn test_0xd0_0_rol_1_8() {

    let mut soc = SoC::test_build();
    soc.set_wram(vec![
        0xD0, 0xC0,
    ]);
    soc.get_cpu().AW = 0xFE;

    soc.tick_cpu_no_cycles();
    assert_eq!(soc.get_cpu().AW, 0xFD);
}

#[test]
fn test_0xd1_0_rol_1_16() {

    let mut soc = SoC::test_build();
    soc.set_wram(vec![
        0xD1, 0xC0,
    ]);
    soc.get_cpu().AW = 0xFFFE;

    soc.tick_cpu_no_cycles();
    assert_eq!(soc.get_cpu().AW, 0xFFFD);
}

#[test]
fn test_0xd0_1_ror_1_8() {

    let mut soc = SoC::test_build();
    soc.set_wram(vec![
        0xD0, 0xC8,
    ]);
    soc.get_cpu().AW = 0x7F;

    soc.tick_cpu_no_cycles();
    assert_eq!(soc.get_cpu().AW, 0xBF);
}

#[test]
fn test_0xd1_1_ror_1_16() {

    let mut soc = SoC::test_build();
    soc.set_wram(vec![
        0xD1, 0xC8,
    ]);
    soc.get_cpu().AW = 0x7FFF;

    soc.tick_cpu_no_cycles();
    assert_eq!(soc.get_cpu().AW, 0xBFFF);
}

#[test]
fn test_0xf6_2_not_8() {

    let mut soc = SoC::test_build();
    soc.set_wram(vec![
        0xF6, 0xD0,
    ]);
    soc.get_cpu().AW = 0xFE;

    soc.tick_cpu_no_cycles();
    assert_eq!(soc.get_cpu().AW, 0x01);
}

#[test]
fn test_0xf7_2_not_16() {

    let mut soc = SoC::test_build();
    soc.set_wram(vec![
        0xF7, 0xD0,
    ]);
    soc.get_cpu().AW = 0xFFFE;

    soc.tick_cpu_no_cycles();
    assert_eq!(soc.get_cpu().AW, 0x0001);
}
