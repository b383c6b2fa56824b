use wondercrab::soc::SoC;

#[test]
fn test_io_open_bus() {
    let mut soc = SoC::test_build();
    assert_eq!(soc.read_io(0x100), 0x90);
    assert_eq!(soc.read_io(0x1B9), 0x90);
}

#[test]
fn test_map_word() {
    let mut soc = SoC::test_build();

    for i in 0..1024u32 {
        soc.write_mem_16(i * 2, (i as u16) ^ 0x1234);
    }

    assert_eq!(soc.display.fetch_map_word(&soc.mem_bus, 0, 0, 0), 0x1234);
    assert_eq!(soc.display.fetch_map_word(&soc.mem_bus, 0, 0, 1), (1 as u16) ^ 0x1234);
    assert_eq!(soc.display.fetch_map_word(&soc.mem_bus, 0, 1, 0), (32 as u16) ^ 0x1234);
}

#[test]
fn test_decode_2bpp_tile() {
    let mut soc = SoC::test_build();

    let ti: u16 = 3;
    let tile_base = 0x2000 + (ti as u32) * 16;
    for row in 0..8u32 {
        let addr = tile_base + row * 2;
        soc.write_mem_16(addr, 0x55AA);
    }

    let bytes = soc.read_mem_16(tile_base);
    assert_eq!(bytes, 0b0101_0101_1010_1010);

    // The tile is returned row by row: pixel (row, col) is at row * 8 + col.
    let tile = soc.display.decode_2bpp_tile(&soc.mem_bus, ti);
    assert_eq!(tile[0 * 8 + 0], 1);
    assert_eq!(tile[0 * 8 + 1], 2);
}

#[test]
fn test_monochrome_palette_entries() {
    let mut soc = SoC::test_build();

    // Palette 1 (ports 0x22/0x23) holds the gray levels [0, 1, 2, 3]
    soc.write_io(0x22, 0x10);
    soc.write_io(0x23, 0x32);

    soc.write_io(0x1C, 0x10);
    soc.write_io(0x1D, 0x32);

    let pal = soc.display.force_get_monochrome_palette(&soc.mem_bus, 1);
    assert_eq!(pal[0], (0xFF, 0xFF, 0xFF));
    assert_eq!(pal[1], (0xEE, 0xEE, 0xEE));
    assert_eq!(pal[2], (0xDD, 0xDD, 0xDD));
    assert_eq!(pal[3], (0xCC, 0xCC, 0xCC));
}

#[test]
fn tick_produces_a_sample_every_128_ticks() {
    let mut soc = SoC::test_build();
    soc.mute = false;
    for _ in 0..127 {
        soc.tick();
    }
    assert_eq!(soc.samples.len(), 0);
    soc.tick();
    assert_eq!(soc.samples.len(), 1);
    for _ in 0..128 {
        soc.tick();
    }
    assert_eq!(soc.samples.len(), 2);
    assert_eq!(soc.sample_acc, 0);
}

#[test]
fn tick_runs_the_display_and_finishes_a_frame() {
    let mut soc = SoC::test_build();
    let mut frames = 0;
    for i in 0..40704u32 {
        if soc.tick() {
            frames += 1;
            assert_eq!(i, 40703);
        }
        if i == 299 {
            assert_eq!(soc.display.cycle as u32, 300 % 256);
            assert_eq!(soc.display.scanline, 1);
        }
    }
    assert_eq!(frames, 1);
    assert_eq!(soc.cycles, 0);
}
