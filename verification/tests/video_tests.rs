use nes_core::cartridge::Mirroring;
use nes_core::fault::Fault;
use nes_core::ppu::ppu::PPU;
use nes_core::ppu::registers::address::AddrRegister;
use nes_core::ppu::registers::control::ControlRegister;
use nes_core::ppu::registers::mask::MaskRegister;
use nes_core::ppu::registers::scroll::ScrollRegister;
use nes_core::ppu::registers::status::StatusRegister;
use nes_core::render::frame::Frame;
use nes_core::render::{bg_pallette, render, sprite_palette};

fn full_ppu(mirroring: Mirroring) -> PPU {
    PPU::new(vec![0u8; 0x2000], mirroring)
}

#[test]
fn address_is_the_last_pair_written() {
    let mut ppu = PPU::new_empty_rom();
    for byte in [0x12, 0x34, 0x21, 0x08, 0xFF, 0xFE] {
        ppu.write_to_ppu_addr(byte);
    }
    assert_eq!(ppu.addr.get(), 0xFFFE & 0x3FFF);
    let mut addr = AddrRegister::new();
    addr.update(0x7F);
    assert_eq!(addr.get(), 0x3F00);
    addr.update(0x1C);
    assert_eq!(addr.get(), 0x3F1C);
    // an odd third write replaces the high byte only
    addr.update(0x20);
    assert_eq!(addr.get(), 0x201C);
}

#[test]
fn address_increment_wraps_inside_14_bits() {
    let mut addr = AddrRegister::new();
    addr.set(0x3FFF);
    addr.increment(1);
    assert_eq!(addr.get(), 0x0000);
    addr.set(0x20FF);
    addr.increment(32);
    assert_eq!(addr.get(), 0x211F);
    addr.set(0x3FF0);
    addr.increment(32);
    assert_eq!(addr.get(), 0x0010);
}

#[test]
fn scroll_takes_horizontal_then_vertical() {
    let mut scroll = ScrollRegister::new();
    scroll.write(0x11);
    assert_eq!((scroll.scroll_x, scroll.scroll_y, scroll.latch), (0x11, 0, true));
    scroll.write(0x22);
    assert_eq!((scroll.scroll_x, scroll.scroll_y, scroll.latch), (0x11, 0x22, false));
    scroll.write(0x33);
    scroll.reset_latch();
    scroll.write(0x44);
    assert_eq!((scroll.scroll_x, scroll.scroll_y), (0x44, 0x22));
}

#[test]
fn status_read_resets_both_latches() {
    let mut ppu = PPU::new_empty_rom();
    ppu.write_to_ppu_addr(0x21);
    ppu.write_to_scroll(0x05);
    assert!(!ppu.addr.hi_ptr);
    assert!(ppu.scroll.latch);
    ppu.status.set_sprite_0_hit(true);
    ppu.status.set_vertical_blank(true);
    assert_eq!(ppu.read_status(), 0xC0);
    assert!(ppu.addr.hi_ptr);
    assert!(!ppu.scroll.latch);
    assert_eq!(ppu.status.bits(), 0x40);
}

#[test]
fn control_register_fields() {
    let mut control = ControlRegister::new();
    assert_eq!(control.vram_addr_increment(), 1);
    assert_eq!(control.background_pattern_addr(), 0);
    assert_eq!(control.sprite_pattern_addr(), 0);
    assert!(!control.generate_nmi());
    control.update(0b1001_1100);
    assert_eq!(control.vram_addr_increment(), 32);
    assert_eq!(control.background_pattern_addr(), 0x1000);
    assert_eq!(control.sprite_pattern_addr(), 0x1000);
    assert!(control.generate_nmi());
    assert_eq!(control.bits(), 0b1001_1100);
}

#[test]
fn mask_register_fields() {
    let mut mask = MaskRegister::new();
    assert!(!mask.show_sprites());
    mask.update(0xFF);
    assert!(mask.show_sprites());
    assert!(mask.show_background());
    assert!(mask.is_greyscale());
    mask.disable_rendering();
    assert_eq!(mask.bits(), 0b1110_0111);
    mask.update(0x10);
    assert!(mask.show_sprites());
    assert!(!mask.show_background());
    assert!(!mask.is_greyscale());
}

#[test]
fn status_register_fields() {
    let mut status = StatusRegister::new();
    status.set_sprite_overflow(true);
    status.set_sprite_0_hit(true);
    status.set_vertical_blank(true);
    assert_eq!(status.bits(), 0xE0);
    assert!(status.sprite_overflow() && status.sprite_0_hit() && status.in_vertical_blank());
    status.set_sprite_0_hit(false);
    assert_eq!(status.bits(), 0xA0);
    status.update(0x1F);
    assert!(!status.sprite_overflow());
    status.set_sprite_overflow(false);
    assert_eq!(status.bits(), 0x1F);
}

#[test]
fn tick_counts_dots_and_scanlines() {
    let mut ppu = PPU::new_empty_rom();
    assert!(!ppu.tick(255));
    assert_eq!((ppu.cycles, ppu.scanlines), (255, 0));
    assert!(!ppu.tick(86));
    assert_eq!((ppu.cycles, ppu.scanlines), (0, 1));
    assert!(!ppu.tick(200));
    assert!(!ppu.tick(200));
    assert_eq!((ppu.cycles, ppu.scanlines), (59, 2));
}

#[test]
fn vblank_starts_on_scanline_241_and_the_frame_ends_on_262() {
    let mut ppu = PPU::new_empty_rom();
    ppu.write_to_control(0x80);
    ppu.status.set_sprite_0_hit(true);
    ppu.scanlines = 240;
    ppu.cycles = 340;
    assert!(!ppu.tick(1));
    assert_eq!(ppu.scanlines, 241);
    assert_eq!(ppu.status.bits(), 0x80);
    assert_eq!(ppu.nmi_interrupt, Some(1));
    ppu.scanlines = 261;
    ppu.cycles = 340;
    assert!(ppu.tick(3));
    assert_eq!((ppu.cycles, ppu.scanlines), (2, 0));
    assert_eq!(ppu.status.bits(), 0x00);
    assert_eq!(ppu.nmi_interrupt, None);
}

#[test]
fn vblank_without_nmi_enable_raises_nothing() {
    let mut ppu = PPU::new_empty_rom();
    ppu.scanlines = 240;
    ppu.cycles = 340;
    ppu.tick(1);
    assert!(ppu.status.in_vertical_blank());
    assert_eq!(ppu.nmi_interrupt, None);
    // switching the NMI on during vertical blank raises it at once
    ppu.write_to_control(0x80);
    assert_eq!(ppu.nmi_interrupt, Some(1));
    // switching it on again does not
    ppu.nmi_interrupt = None;
    ppu.write_to_control(0x80);
    assert_eq!(ppu.nmi_interrupt, None);
}

#[test]
fn horizontal_mirror_of_the_second_table() {
    let mut ppu = PPU::new_empty_rom();
    ppu.write_to_ppu_addr(0x24);
    ppu.write_to_ppu_addr(0x05);
    ppu.write_to_data(0x66).unwrap();
    ppu.write_to_ppu_addr(0x20);
    ppu.write_to_ppu_addr(0x05);
    ppu.read_data().unwrap();
    assert_eq!(ppu.read_data().unwrap(), 0x66);
}

#[test]
fn mirror_vram_addr_folds_every_table() {
    let ppu = full_ppu(Mirroring::HORIZONTAL);
    assert_eq!(ppu.mirror_vram_addr(0x2000), 0x000);
    assert_eq!(ppu.mirror_vram_addr(0x2400), 0x000);
    assert_eq!(ppu.mirror_vram_addr(0x2805), 0x405);
    assert_eq!(ppu.mirror_vram_addr(0x2FFF), 0x7FF);
    assert_eq!(ppu.mirror_vram_addr(0x3805), 0x405);
    let ppu = full_ppu(Mirroring::VERTICAL);
    assert_eq!(ppu.mirror_vram_addr(0x2000), 0x000);
    assert_eq!(ppu.mirror_vram_addr(0x2405), 0x405);
    assert_eq!(ppu.mirror_vram_addr(0x2805), 0x005);
    assert_eq!(ppu.mirror_vram_addr(0x2FFF), 0x7FF);
    assert_eq!(ppu.mirror_vram_addr(0x3EFF), 0x6FF);
}

#[test]
fn palette_mirrors_and_direct_reads() {
    let mut ppu = full_ppu(Mirroring::HORIZONTAL);
    ppu.vram[0x700] = 0x5A;
    ppu.write_to_ppu_addr(0x3F);
    ppu.write_to_ppu_addr(0x10);
    ppu.write_to_data(0x2A).unwrap();
    assert_eq!(ppu.palette[0x00], 0x2A);
    ppu.write_to_data(0x2B).unwrap();
    assert_eq!(ppu.palette[0x11], 0x2B);
    ppu.write_to_ppu_addr(0x3F);
    ppu.write_to_ppu_addr(0x00);
    // a palette read answers at once and fills the buffer from the nametable underneath
    assert_eq!(ppu.read_data().unwrap(), 0x2A);
    assert_eq!(ppu.internal_data_buffer, 0x5A);
    ppu.write_to_ppu_addr(0x3F);
    ppu.write_to_ppu_addr(0x10);
    assert_eq!(ppu.read_data().unwrap(), 0x2A);
    assert_eq!(ppu.read_data().unwrap(), 0x2B);
}

#[test]
fn character_memory_reads_are_buffered() {
    let mut chr = vec![0u8; 0x2000];
    chr[0x0123] = 0x42;
    let mut ppu = PPU::new(chr, Mirroring::VERTICAL);
    ppu.write_to_ppu_addr(0x01);
    ppu.write_to_ppu_addr(0x23);
    assert_eq!(ppu.read_data().unwrap(), 0x00);
    assert_eq!(ppu.read_data().unwrap(), 0x42);
}

#[test]
fn forbidden_video_accesses_fault() {
    let mut ppu = full_ppu(Mirroring::HORIZONTAL);
    ppu.write_to_ppu_addr(0x10);
    ppu.write_to_ppu_addr(0x00);
    assert_eq!(ppu.write_to_data(1), Err(Fault::VideoWrite { addr: 0x1000 }));
    ppu.write_to_ppu_addr(0x30);
    ppu.write_to_ppu_addr(0x00);
    assert_eq!(ppu.write_to_data(1), Err(Fault::VideoWrite { addr: 0x3000 }));
    ppu.write_to_ppu_addr(0x3E);
    ppu.write_to_ppu_addr(0xFF);
    assert_eq!(ppu.read_data(), Err(Fault::VideoRead { addr: 0x3EFF }));
    ppu.write_to_ppu_addr(0x3F);
    ppu.write_to_ppu_addr(0x20);
    assert_eq!(ppu.read_data(), Err(Fault::VideoRead { addr: 0x3F20 }));
    ppu.write_to_ppu_addr(0x3F);
    ppu.write_to_ppu_addr(0x20);
    assert_eq!(ppu.write_to_data(1), Err(Fault::VideoWrite { addr: 0x3F20 }));
    // character memory shorter than the address
    let mut ppu = PPU::new_empty_rom();
    ppu.write_to_ppu_addr(0x08);
    ppu.write_to_ppu_addr(0x00);
    assert_eq!(ppu.read_data(), Err(Fault::VideoRead { addr: 0x0800 }));
}

#[test]
fn oam_data_write_wraps_the_address() {
    let mut ppu = PPU::new_empty_rom();
    ppu.write_to_oam_addr(0xFF);
    ppu.write_to_oam_data(0x12);
    assert_eq!(ppu.oam_addr, 0x00);
    assert_eq!(ppu.oam_data[0xFF], 0x12);
    assert_eq!(ppu.read_oam_data(), 0x00);
    assert_eq!(ppu.oam_addr, 0x00);
}

#[test]
fn background_palette_follows_the_attribute_table() {
    let mut ppu = full_ppu(Mirroring::HORIZONTAL);
    for i in 0..32 {
        ppu.palette[i] = 0x20 + i as u8;
    }
    // attribute byte of the block at tile column 4..7, row 8..11
    ppu.vram[0x3C0 + 2 * 8 + 1] = 0b11_10_01_00;
    assert_eq!(bg_pallette(&ppu, 4, 8), [0x20, 0x21, 0x22, 0x23]);
    assert_eq!(bg_pallette(&ppu, 6, 9), [0x20, 0x25, 0x26, 0x27]);
    assert_eq!(bg_pallette(&ppu, 5, 10), [0x20, 0x29, 0x2A, 0x2B]);
    assert_eq!(bg_pallette(&ppu, 7, 11), [0x20, 0x2D, 0x2E, 0x2F]);
    assert_eq!(bg_pallette(&ppu, 0, 0), [0x20, 0x21, 0x22, 0x23]);
    assert_eq!(sprite_palette(&ppu, 0), [0, 0x31, 0x32, 0x33]);
    assert_eq!(sprite_palette(&ppu, 3), [0, 0x3D, 0x3E, 0x3F]);
}

#[test]
fn frame_set_pixel_ignores_positions_outside() {
    let mut frame = Frame::new();
    assert_eq!(frame.data.len(), 256 * 240);
    frame.set_pixel(255, 239, 7);
    frame.set_pixel(256, 0, 9);
    frame.set_pixel(0, 240, 9);
    assert_eq!(frame.pixel(255, 239), 7);
    assert_eq!(frame.data.iter().filter(|c| **c != 0).count(), 1);
    assert_eq!(Frame::WIDTH * Frame::HEIGHT, frame.data.len());
}

#[test]
fn render_draws_background_and_sprites() {
    let mut chr = vec![0u8; 0x2000];
    // tile 1: left half of the low plane, top half of the high plane
    for row in 0..8 {
        chr[16 + row] = 0xF0;
        chr[16 + 8 + row] = if row < 4 { 0xFF } else { 0x00 };
    }
    // tile 2, used by the sprites: only its top-left pixel is set, value 1
    chr[32] = 0x80;
    let mut ppu = PPU::new(chr, Mirroring::HORIZONTAL);
    for i in 0..32 {
        ppu.palette[i] = 0x10 + i as u8;
    }
    // background: tile 1 at column 2 of row 1, with palette 2
    ppu.vram[32 + 2] = 1;
    ppu.vram[0x3C0] = 0b00_00_10_00;
    // sprites 0 and 1 at the same place, sprite 1 mirrored both ways
    ppu.oam_data[0..4].copy_from_slice(&[8, 2, 0b0000_0001, 16]);
    ppu.oam_data[4..8].copy_from_slice(&[8, 2, 0b1100_0011, 16]);
    // sprite 2 pokes out of the right edge
    ppu.oam_data[8..12].copy_from_slice(&[100, 2, 0b0100_0000, 250]);
    // the other sprites sit at the top left, showing tile 0, which is transparent
    let mut frame = Frame { data: vec![0xEE; 3] };
    render(&ppu, &mut frame);
    assert_eq!(frame.data.len(), 256 * 240);
    // backdrop
    assert_eq!(frame.pixel(0, 0), 0x10);
    assert_eq!(frame.pixel(255, 239), 0x10);
    // the tile: value 3 top left, 2 top right, 1 bottom left, 0 bottom right
    assert_eq!(frame.pixel(17, 9), 0x10 + 1 + 2 * 4 + 2);
    assert_eq!(frame.pixel(20, 11), 0x10 + 1 + 2 * 4 + 1);
    assert_eq!(frame.pixel(23, 8), 0x10 + 1 + 2 * 4 + 1);
    assert_eq!(frame.pixel(16, 12), 0x10 + 1 + 2 * 4);
    assert_eq!(frame.pixel(19, 15), 0x10 + 1 + 2 * 4);
    assert_eq!(frame.pixel(20, 12), 0x10);
    // sprite 0 covers the top-left pixel of the tile with colour 1 of sprite palette 1
    assert_eq!(frame.pixel(16, 8), 0x21 + 4);
    // sprite 1, mirrored, shows its pixel at the bottom right
    assert_eq!(frame.pixel(23, 15), 0x21 + 12);
    // sprite 2, mirrored left to right, has its pixel in column 257: outside
    assert_eq!(frame.pixel(250, 100), 0x10);
    assert_eq!(frame.pixel(255, 100), 0x10);
}

#[test]
fn lower_numbered_sprite_wins() {
    let mut chr = vec![0u8; 0x2000];
    chr[16] = 0x80;
    chr[32 + 8] = 0x80;
    let mut ppu = PPU::new(chr, Mirroring::VERTICAL);
    for i in 0..32 {
        ppu.palette[i] = i as u8;
    }
    // every other sprite shows tile 0 and is transparent
    ppu.oam_data[4 * 5..4 * 5 + 4].copy_from_slice(&[50, 2, 0, 60]);
    ppu.oam_data[4 * 9..4 * 9 + 4].copy_from_slice(&[50, 1, 2, 60]);
    let mut frame = Frame::new();
    render(&ppu, &mut frame);
    assert_eq!(frame.pixel(60, 50), 0x11 + 1);
    ppu.oam_data[4 * 5 + 1] = 0;
    render(&ppu, &mut frame);
    assert_eq!(frame.pixel(60, 50), 0x11 + 8);
    // the sprite pattern table moves with the control register
    ppu.write_to_control(0b0000_1000);
    render(&ppu, &mut frame);
    assert_eq!(frame.pixel(60, 50), 0);
}

#[test]
fn bytes_written_through_the_data_port_come_back_one_read_late() {
    let mut ppu = full_ppu(Mirroring::VERTICAL);
    ppu.write_to_control(0b0000_0100);
    ppu.internal_data_buffer = 0xEE;
    ppu.write_to_ppu_addr(0x24);
    ppu.write_to_ppu_addr(0x10);
    for byte in [0x11, 0x22, 0x33] {
        ppu.write_to_data(byte).unwrap();
    }
    assert_eq!(ppu.addr.get(), 0x2470);
    assert_eq!((ppu.vram[0x410], ppu.vram[0x430], ppu.vram[0x450]), (0x11, 0x22, 0x33));
    ppu.write_to_ppu_addr(0x24);
    ppu.write_to_ppu_addr(0x10);
    assert_eq!(ppu.read_data().unwrap(), 0xEE);
    assert_eq!(ppu.read_data().unwrap(), 0x11);
    assert_eq!(ppu.read_data().unwrap(), 0x22);
    assert_eq!(ppu.read_data().unwrap(), 0x33);
}

#[test]
fn sprite_dma_wraps_and_keeps_the_sprite_address() {
    let mut ppu = PPU::new_empty_rom();
    let data: Vec<u8> = (0..=255).collect();
    ppu.write_to_oam_addr(0xF0);
    ppu.oam_dma(&data);
    assert_eq!(ppu.oam_addr, 0xF0);
    for j in 0..256usize {
        assert_eq!(ppu.oam_data[(0xF0 + j) % 256], j as u8);
    }
    // a shorter run moves the address on by its length
    ppu.oam_dma(&[9, 8, 7]);
    assert_eq!(ppu.oam_addr, 0xF3);
    assert_eq!(&ppu.oam_data[0xF0..0xF3], &[9, 8, 7]);
}
