use elaris::apu::APU;
use elaris::bus::{Bus, NesBus};
use elaris::cartridge::{Cartridge, LoadError};
use elaris::controller::Controller;
use elaris::mapper::{Mapper1, Mapper4, Mirroring};
use elaris::nes::Nes;
use elaris::ppu::PPU;

/// An iNES image with one 16 KiB PRG bank (vectors pointing at $8000 for
/// reset and $8100 for NMI and IRQ) and one 8 KiB CHR bank.
fn nrom_image(program: &[u8], nmi_handler: &[u8]) -> Vec<u8> {
    let mut rom = vec![0x4E, 0x45, 0x53, 0x1A, 1, 1, 0, 0, 0, 0, 0, 0, 0, 0, 0, 0];
    let mut prg = vec![0xEAu8; 0x4000];
    prg[..program.len()].copy_from_slice(program);
    prg[0x100..0x100 + nmi_handler.len()].copy_from_slice(nmi_handler);
    prg[0x3FFA] = 0x00;
    prg[0x3FFB] = 0x81;
    prg[0x3FFC] = 0x00;
    prg[0x3FFD] = 0x80;
    prg[0x3FFE] = 0x00;
    prg[0x3FFF] = 0x81;
    rom.extend_from_slice(&prg);
    rom.extend_from_slice(&vec![0u8; 0x2000]);
    rom
}

/// An NROM cartridge with 8 KiB of CHR-RAM.
fn nrom_cart() -> Cartridge {
    let mut image = nrom_image(&[], &[0x40]);
    image[5] = 0;
    image.truncate(16 + 0x4000);
    match Cartridge::from_bytes(&image) {
        Ok(c) => c,
        Err(_) => panic!("image refused"),
    }
}

#[test]
fn nop_rom_runs_a_whole_frame() {
    let mut rom = vec![0x4E, 0x45, 0x53, 0x1A, 1, 1, 0, 0, 0, 0, 0, 0, 0, 0, 0, 0];
    let mut prg = vec![0xEAu8; 0x4000];
    prg[0x3FFC] = 0x00;
    prg[0x3FFD] = 0x80;
    rom.extend_from_slice(&prg);
    rom.extend_from_slice(&vec![0u8; 0x2000]);
    let mut nes = match Nes::new(&rom) {
        Ok(n) => n,
        Err(_) => panic!("image refused"),
    };
    nes.reset();
    let out = nes.step_frame();
    assert_eq!(out.video.len(), 256 * 240);
    assert!(nes.cpu.cycles >= 29780);
    assert!(nes.cpu.pc > 0x8000);
    assert!(!nes.halted());
}

#[test]
fn program_writes_palette_through_ppudata() {
    // LDA #$80; STA $2000; LDA #$3F; STA $2006; LDA #$00; STA $2006;
    // LDA #$15; STA $2007; JMP $8014
    let program = [
        0xA9, 0x80, 0x8D, 0x00, 0x20, 0xA9, 0x3F, 0x8D, 0x06, 0x20, 0xA9, 0x00, 0x8D, 0x06, 0x20,
        0xA9, 0x15, 0x8D, 0x07, 0x20, 0x4C, 0x14, 0x80,
    ];
    let mut nes = match Nes::new(&nrom_image(&program, &[0x40])) {
        Ok(n) => n,
        Err(_) => panic!("image refused"),
    };
    nes.step_frame();
    assert_eq!(nes.cpu.bus.ppu.palette[0], 0x15);
}

#[test]
fn controller_reads_through_the_cpu() {
    // LDA #$01; STA $4016; LDA #$00; STA $4016; LDA $4016; LDA $4016
    let program = [
        0xA9, 0x01, 0x8D, 0x16, 0x40, 0xA9, 0x00, 0x8D, 0x16, 0x40, 0xAD, 0x16, 0x40, 0xAD, 0x16,
        0x40,
    ];
    let mut nes = match Nes::new(&nrom_image(&program, &[0x40])) {
        Ok(n) => n,
        Err(_) => panic!("image refused"),
    };
    nes.set_buttons(0b0000_0001);
    for _ in 0..5 {
        nes.cpu.step();
    }
    assert_eq!(nes.cpu.a, 0x41);
    nes.cpu.step();
    assert_eq!(nes.cpu.a, 0x40);
}

#[test]
fn nmi_handler_runs_once_per_frame() {
    // LDA #$80; STA $2000; JMP $8005 ; handler: INC $0300; RTI
    let program = [0xA9, 0x80, 0x8D, 0x00, 0x20, 0x4C, 0x05, 0x80];
    let handler = [0xEE, 0x00, 0x03, 0x40];
    let mut nes = match Nes::new(&nrom_image(&program, &handler)) {
        Ok(n) => n,
        Err(_) => panic!("image refused"),
    };
    for _ in 0..60 {
        nes.step_frame();
    }
    let count = nes.cpu.bus.ram[0x300];
    assert!(count >= 59 && count <= 60, "count {}", count);
}

#[test]
fn controller_strobe_then_eight_reads() {
    let mut c = Controller::new();
    c.set_buttons(0b1010_0101);
    c.write(1);
    c.write(0);
    let mut bits = Vec::new();
    for _ in 0..8 {
        bits.push(c.read());
    }
    assert_eq!(bits, vec![0x41, 0x40, 0x41, 0x40, 0x40, 0x41, 0x40, 0x41]);
    assert_eq!(c.read(), 0x41);
    assert_eq!(c.read(), 0x41);
}

#[test]
fn mmc1_five_writes_select_prg_bank() {
    let mut prg = Vec::new();
    for bank in 0..4u8 {
        prg.extend_from_slice(&vec![bank; 0x4000]);
    }
    let mut m = Mapper1::new(prg);
    assert_eq!(m.control, 0x0C);
    m.write(0xE000, 0x01);
    for _ in 0..4 {
        m.write(0xE000, 0x00);
    }
    assert_eq!(m.prg_bank, 1);
    assert_eq!(m.read(0x8000), 1);
    for _ in 0..5 {
        m.write(0xE000, 0x00);
    }
    assert_eq!(m.prg_bank, 0);
    assert_eq!(m.read(0x8000), 0);
    assert_eq!(m.read(0xC000), 3);
    assert_eq!(m.read(0xFFFF), 3);
}

#[test]
fn mmc1_reset_write_and_control_mirroring() {
    let mut m = Mapper1::new(vec![0u8; 0x8000]);
    m.write(0x8000, 0x01);
    m.write(0x8000, 0x80);
    assert_eq!(m.shift_count, 0);
    for bit in [0u8, 1, 0, 0, 0] {
        m.write(0x8000, bit);
    }
    assert_eq!(m.control, 0x02);
    assert_eq!(m.mirroring(), Mirroring::Vertical);
}

#[test]
fn mmc3_irq_after_latch_plus_one_edges() {
    let mut m = Mapper4::new(vec![0u8; 0x8000], vec![0u8; 0x2000]);
    m.write(0xC000, 3); // latch
    m.write(0xC001, 0); // reload
    m.write(0xE001, 0); // enable
    let mut edges = 0;
    while !m.irq_pending {
        m.on_chr_access(0x0000);
        m.on_chr_access(0x1000);
        edges += 1;
        assert!(edges <= 10);
    }
    assert_eq!(edges, 4);
    assert!(m.poll_irq());
    assert!(m.poll_irq());
    m.write(0xE000, 0);
    assert!(!m.poll_irq());
}

#[test]
fn mmc3_prg_banks_and_fixed_last() {
    let mut prg = Vec::new();
    for bank in 0..8u8 {
        prg.extend_from_slice(&vec![bank; 0x2000]);
    }
    let mut m = Mapper4::new(prg, vec![0u8; 0x2000]);
    m.write(0x8000, 6);
    m.write(0x8001, 2);
    m.write(0x8000, 7);
    m.write(0x8001, 5);
    assert_eq!(m.read(0x8000), 2);
    assert_eq!(m.read(0xA000), 5);
    assert_eq!(m.read(0xC000), 6);
    assert_eq!(m.read(0xE000), 7);
    m.write(0x8000, 0x40);
    assert_eq!(m.read(0x8000), 6);
    assert_eq!(m.read(0xC000), 2);
}

#[test]
fn ines_errors() {
    assert_eq!(Cartridge::from_bytes(&[0x4E, 0x45]).err(), Some(LoadError::BadHeader));
    let mut bad_magic = nrom_image(&[], &[]);
    bad_magic[3] = 0;
    assert_eq!(Cartridge::from_bytes(&bad_magic).err(), Some(LoadError::BadHeader));
    let mut mapper2 = nrom_image(&[], &[]);
    mapper2[6] = 0x20;
    assert_eq!(
        Cartridge::from_bytes(&mapper2).err(),
        Some(LoadError::UnsupportedMapper(2))
    );
    let mut short = nrom_image(&[], &[]);
    short.truncate(16 + 0x4000 + 100);
    assert_eq!(Cartridge::from_bytes(&short).err(), Some(LoadError::Truncated));
}

#[test]
fn ines_chr_ram_when_no_chr_banks() {
    let mut rom = vec![0x4E, 0x45, 0x53, 0x1A, 1, 0, 1, 0, 0, 0, 0, 0, 0, 0, 0, 0];
    rom.extend_from_slice(&vec![7u8; 0x4000]);
    let mut cart = match Cartridge::from_bytes(&rom) {
        Ok(c) => c,
        Err(_) => panic!("image refused"),
    };
    assert_eq!(cart.mirroring(), Mirroring::Vertical);
    assert_eq!(cart.read(0xC123), 7);
    assert_eq!(cart.read(0x0010), 0);
    cart.write(0x0010, 0x99);
    assert_eq!(cart.read(0x0010), 0x99);
}

#[test]
fn ppustatus_read_resets_write_toggle() {
    let mut ppu = PPU::new();
    ppu.write_scroll(5);
    assert!(ppu.write_toggle);
    ppu.read_status();
    assert!(!ppu.write_toggle);
    ppu.write_addr(0x21);
    ppu.read_status();
    ppu.write_addr(0x23);
    ppu.write_addr(0x45);
    assert_eq!(ppu.addr, 0x2345);
}

#[test]
fn palette_mirrors_and_round_trip() {
    let mut ppu = PPU::new();
    let mut cart = nrom_cart();
    ppu.write_addr(0x3F);
    ppu.write_addr(0x10);
    ppu.write_data(&mut cart, 0x2A);
    assert_eq!(ppu.palette[0], 0x2A);
    ppu.write_addr(0x3F);
    ppu.write_addr(0x00);
    assert_eq!(ppu.read_data(&mut cart), 0x2A);
    // nametable round trip through the read buffer
    ppu.write_addr(0x21);
    ppu.write_addr(0x08);
    ppu.write_data(&mut cart, 0x77);
    ppu.write_addr(0x21);
    ppu.write_addr(0x08);
    ppu.read_data(&mut cart);
    ppu.write_addr(0x21);
    ppu.write_addr(0x08);
    assert_eq!(ppu.read_data(&mut cart), 0x77);
    // CHR-RAM round trip
    ppu.write_addr(0x00);
    ppu.write_addr(0x20);
    ppu.write_data(&mut cart, 0x5A);
    ppu.write_addr(0x00);
    ppu.write_addr(0x20);
    ppu.read_data(&mut cart);
    assert_eq!(ppu.read_data(&mut cart), 0x5A);
}

#[test]
fn nametable_mirroring_maps() {
    assert_eq!(PPU::map_nametable_addr(0x2400, Mirroring::Vertical), 0x400);
    assert_eq!(PPU::map_nametable_addr(0x2800, Mirroring::Vertical), 0x000);
    assert_eq!(PPU::map_nametable_addr(0x2400, Mirroring::Horizontal), 0x000);
    assert_eq!(PPU::map_nametable_addr(0x2C05, Mirroring::Horizontal), 0x405);
    assert_eq!(PPU::map_nametable_addr(0x2C05, Mirroring::OneScreenLower), 0x005);
    assert_eq!(PPU::map_nametable_addr(0x3005, Mirroring::OneScreenUpper), 0x405);
}

#[test]
fn oam_dma_then_oamdata_reads() {
    let mut bus = NesBus::new(nrom_cart());
    for i in 0..256u16 {
        bus.write(0x0300 + i, (i as u8).wrapping_mul(3));
    }
    bus.write(0x2003, 0);
    bus.write(0x4014, 0x03);
    assert!(bus.dma_stall == 513 || bus.dma_stall == 514);
    for i in 0..256u16 {
        bus.write(0x2003, i as u8);
        assert_eq!(bus.read(0x2004), (i as u8).wrapping_mul(3));
    }
}

#[test]
fn ram_is_mirrored() {
    let mut bus = NesBus::new(nrom_cart());
    bus.write(0x0812, 0x44);
    assert_eq!(bus.read(0x0012), 0x44);
    assert_eq!(bus.read(0x1812), 0x44);
    assert_eq!(bus.read(0x4018), 0x40);
}

#[test]
fn tick_advances_ppu_three_dots_per_cycle() {
    let mut bus = NesBus::new(nrom_cart());
    let dot = |b: &NesBus| (b.ppu.scanline as i64 + 1) * 341 + b.ppu.cycle as i64;
    let before = dot(&bus);
    bus.tick(10);
    assert_eq!(dot(&bus), (before + 30) % 89342);
    assert_eq!(bus.apu.state.frame_cycle, 10);
}

#[test]
fn sprite_overflow_on_ninth_sprite() {
    let mut ppu = PPU::new();
    let mut cart = nrom_cart();
    for i in 0..8 {
        ppu.oam[i * 4] = 10;
    }
    for i in 8..64 {
        ppu.oam[i * 4] = 200;
    }
    ppu.render_scanline(&mut cart, 12);
    assert!(!ppu.sprite_overflow);
    ppu.oam[8 * 4] = 10;
    ppu.render_scanline(&mut cart, 12);
    assert!(ppu.sprite_overflow);
}

#[test]
fn apu_status_reflects_length_load() {
    let mut apu = APU::new();
    apu.write(0x4015, 0x0F);
    assert_eq!(apu.read_status() & 0x0F, 0);
    apu.write(0x4003, 0x08);
    apu.write(0x400B, 0x08);
    assert_eq!(apu.read_status() & 0x0F, 0x05);
    apu.write(0x4015, 0x00);
    assert_eq!(apu.read_status() & 0x0F, 0);
}

#[test]
fn pulse_tone_then_silence() {
    let mut apu = APU::new();
    apu.write(0x4015, 0x01);
    apu.write(0x4000, 0b1011_1111); // duty 2, halt, constant volume 15
    apu.write(0x4002, 0xFE);
    apu.write(0x4003, 0x01 | (1 << 3)); // timer high bits 1, length index 1
    apu.tick(29780);
    let samples = apu.drain_samples();
    assert!(samples.len() >= 730 && samples.len() <= 740);
    assert!(samples.iter().any(|s| s.pulse == 15));
    apu.write(0x4015, 0x00);
    apu.tick(29780);
    let samples = apu.drain_samples();
    assert!(samples.iter().all(|s| s.pulse == 0));
}

#[test]
fn short_periods_are_silent() {
    let mut apu = APU::new();
    apu.write(0x4015, 0x05);
    apu.write(0x4000, 0b1011_1111);
    apu.write(0x4002, 0x05); // period 5 < 8
    apu.write(0x4003, 0x08);
    apu.write(0x4008, 0xFF);
    apu.write(0x400A, 0x01); // period 1
    apu.write(0x400B, 0x08);
    apu.tick(20000);
    let samples = apu.drain_samples();
    assert!(!samples.is_empty());
    assert!(samples.iter().all(|s| s.pulse == 0 && s.tnd == 0));
}

#[test]
fn frame_irq_in_four_step_mode() {
    let mut apu = APU::new();
    apu.tick(29829);
    assert!(apu.read_status() & 0x40 != 0);
    assert!(apu.read_status() & 0x40 == 0);
    apu.write(0x4017, 0x40);
    apu.tick(29830);
    assert!(apu.read_status() & 0x40 == 0);
}

#[test]
fn background_pixels_and_colour_dimming() {
    let mut ppu = PPU::new();
    let mut cart = nrom_cart();
    cart.write(0x0010, 0x80); // tile 1, row 0, low plane: leftmost pixel 1
    ppu.nametable[0] = 1;
    ppu.palette[1] = 0x16;
    ppu.write_mask(0x0A); // background on, left column shown, no emphasis
    ppu.render_scanline(&mut cart, 0);
    // colour $16 = 0x982220, each channel at two thirds
    assert_eq!(ppu.framebuffer[0], 0x651615);
    // backdrop colour $00 = 0x545454
    assert_eq!(ppu.framebuffer[1], 0x383838);
    ppu.write_mask(0x0A | 0xE0); // full emphasis: colours as they are
    ppu.render_scanline(&mut cart, 0);
    assert_eq!(ppu.framebuffer[0], 0x982220);
}

#[test]
fn dmc_requests_sample_bytes() {
    let mut apu = APU::new();
    apu.write(0x4012, 0x00); // $C000
    apu.write(0x4013, 0x01); // 17 bytes
    apu.write(0x4015, 0x10);
    assert_eq!(apu.dmc_wants_fetch(), Some(0xC000));
    assert!(apu.read_status() & 0x10 != 0);
    apu.dmc_feed_byte(0xFF);
    assert_eq!(apu.dmc_wants_fetch(), None);
    assert_eq!(apu.state.dmc.bytes_remaining, 16);
    assert_eq!(apu.state.dmc.current_address, 0xC001);
}

fn mmc1_load(m: &mut Mapper1, addr: u16, value: u8) {
    for i in 0..5 {
        m.write(addr, (value >> i) & 1);
    }
}

#[test]
fn mmc1_chr_banks() {
    let mut chr = Vec::new();
    for bank in 0..4u8 {
        chr.extend_from_slice(&vec![bank; 0x1000]);
    }
    let mut m = Mapper1::with_chr(vec![0u8; 0x8000], chr);
    assert_eq!(m.read(0x0000), 0);
    assert_eq!(m.read(0x1000), 1);
    mmc1_load(&mut m, 0x8000, 0x10); // 4 KiB CHR mode, one-screen lower
    mmc1_load(&mut m, 0xA000, 2);
    mmc1_load(&mut m, 0xC000, 3);
    assert_eq!(m.chr_bank0, 2);
    assert_eq!(m.chr_bank1, 3);
    assert_eq!(m.read(0x0005), 2);
    assert_eq!(m.read(0x1005), 3);
    assert_eq!(m.mirroring(), Mirroring::OneScreenLower);
}

#[test]
fn oam_dma_from_cartridge_page() {
    let mut bus = NesBus::new(nrom_cart());
    bus.write(0x2003, 0);
    bus.write(0x4014, 0xBF); // $BF00-$BFFF: NOPs, then the vectors
    assert_eq!(bus.ppu.oam[0], 0xEA);
    assert_eq!(bus.ppu.oam[0xFC], 0x00);
    assert_eq!(bus.ppu.oam[0xFD], 0x80);
}

#[test]
fn sprite_zero_hit_needs_visible_background() {
    let mut cart = nrom_cart();
    cart.write(0x0010, 0x80); // tile 1, row 0: leftmost pixel opaque
    let mut ppu = PPU::new();
    ppu.nametable[0] = 1;
    ppu.oam[0] = 0; // sprite 0 at (0, 0), tile 1
    ppu.oam[1] = 1;
    ppu.oam[2] = 0;
    ppu.oam[3] = 0;
    for i in 1..64 {
        ppu.oam[i * 4] = 0xF0;
    }
    ppu.write_mask(0x14); // sprites only
    ppu.render_scanline(&mut cart, 0);
    assert!(!ppu.sprite_0_hit);
    ppu.write_mask(0x1E); // background and sprites, left columns shown
    ppu.render_scanline(&mut cart, 0);
    assert!(ppu.sprite_0_hit);
    assert_eq!(ppu.read_status() & 0x40, 0x40);
}

#[test]
fn second_ppuaddr_write_copies_t() {
    let mut ppu = PPU::new();
    ppu.write_addr(0x00);
    ppu.write_addr(0x01);
    assert_eq!(ppu.addr, 0x0001);
    ppu.write_scroll(0x00); // first write: toggle now set
    ppu.write_addr(0x02); // second write: low byte of t, t copied to the address
    assert_eq!(ppu.addr, 0x0002);
    assert!(!ppu.write_toggle);
    ppu.write_ctrl(0x03);
    assert_eq!(ppu.t & 0x0C00, 0x0C00);
    ppu.write_scroll(0x7D); // coarse X 15, fine X 5
    ppu.write_scroll(0x5E); // coarse Y 11, fine Y 6
    assert_eq!(ppu.fine_x, 5);
    assert_eq!(ppu.t, 0x6C00 | (11 << 5) | 15);
}

#[test]
fn mmc1_latches_five_bits_into_prg_register() {
    let mut m = Mapper1::new(vec![0u8; 0x4000 * 32]);
    for _ in 0..5 {
        m.write(0xE000, 1);
    }
    assert_eq!(m.prg_bank, 0x1F);
}

#[test]
fn chr_rom_is_read_only() {
    let mut cart = match Cartridge::from_bytes(&nrom_image(&[], &[0x40])) {
        Ok(c) => c,
        Err(_) => panic!("image refused"),
    };
    cart.write(0x0010, 0x99);
    assert_eq!(cart.read(0x0010), 0);
}

#[test]
fn mmc3_chr_ram_and_prg_ram_protection() {
    let mut m = Mapper4::with_chr_ram(vec![0u8; 0x8000]);
    m.write(0x0123, 0x5A);
    assert_eq!(m.read(0x0123), 0x5A);
    m.write(0x6000, 0x11);
    assert_eq!(m.read(0x6000), 0x11);
    m.write(0xA001, 0xC0); // enabled, write-protected
    m.write(0x6000, 0x22);
    assert_eq!(m.read(0x6000), 0x11);
    m.write(0xA001, 0x00); // disabled
    assert_eq!(m.read(0x6000), 0);
    let mut rom = Mapper4::new(vec![0u8; 0x8000], vec![0u8; 0x2000]);
    rom.write(0x0123, 0x5A);
    assert_eq!(rom.read(0x0123), 0);
}

#[test]
fn sweep_target_overflow_mutes_pulse() {
    let mut apu = APU::new();
    apu.write(0x4015, 0x01);
    apu.write(0x4000, 0b1011_1111);
    apu.write(0x4001, 0x81); // sweep on, shift 1, adding
    apu.write(0x4002, 0x00);
    apu.write(0x4003, 0x08 | 0x06); // period $600: target $900 > $7FF
    apu.tick(2000);
    let samples = apu.drain_samples();
    assert!(!samples.is_empty());
    assert!(samples.iter().all(|s| s.pulse == 0));
    assert_eq!(apu.state.pulse1.timer_period, 0x600);
}

#[test]
fn dmc_output_clamps() {
    let mut apu = APU::new();
    apu.write(0x4011, 126);
    apu.write(0x4010, 0x0F); // fastest rate
    apu.write(0x4013, 0x00); // one byte
    apu.write(0x4015, 0x10);
    apu.dmc_feed_byte(0xFF);
    apu.tick(2000);
    assert_eq!(apu.state.dmc.output_level, 127);
    let mut apu = APU::new();
    apu.write(0x4011, 1);
    apu.write(0x4010, 0x0F);
    apu.write(0x4013, 0x00);
    apu.write(0x4015, 0x10);
    apu.dmc_feed_byte(0x00);
    apu.tick(2000);
    assert_eq!(apu.state.dmc.output_level, 0);
}

#[test]
fn frame_output_reports_vblank() {
    let mut nes = match Nes::new(&nrom_image(&[0x4C, 0x00, 0x80], &[0x40])) {
        Ok(n) => n,
        Err(_) => panic!("image refused"),
    };
    assert_eq!(nes.cpu.pc, 0x8000);
    assert_eq!(nes.cpu.sp, 0xFD);
    assert_eq!(nes.cpu.status, 0x24);
    let out = nes.step_frame();
    assert!(out.frame_complete);
    assert!(out.steps > 1000);
}
