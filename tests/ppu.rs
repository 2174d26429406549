use lochnes::ppu::frame::Frame;
use lochnes::ppu::registers::{Register16, Register8, WriteToggle};
use lochnes::ppu::PPU;

#[test]
fn test_frame_bytes_are_initialized_to_zero() {
    let frame = Frame::new();
    assert_eq!([0; 256 * 240], frame.bytes);
}

#[test]
fn test_frame_bytes_size() {
    let frame = Frame::new();
    assert_eq!(256 * 240, frame.bytes.len());
}

#[test]
fn test_power_up_state() {
    let ppu = PPU::new(vec![]);
    assert_eq!(0b0000_0000, ppu.control.read_u8());
    assert_eq!(0b0000_0000, ppu.mask.read_u8());
    assert_eq!(0b1010_0000, ppu.status.read_u8());
    assert_eq!(0b0000_0000, ppu.ppuscroll);
    assert_eq!(0b0000_0000, ppu.oamaddr.read_u8());
    assert_eq!(0x0000, ppu.address.read_u16());
    assert_eq!(0b0000_0000, ppu.data.read_u8());
    assert_eq!([0; 2048], ppu.vram)
}

#[test]
fn test_address_register_first_write() {
    let mut ppu = PPU::new(vec![]);
    ppu.write_address(0xAA);
    assert_eq!(0xAA00, ppu.address.read_u16());
    assert_eq!(WriteToggle::SecondWrite, ppu.w);
}

#[test]
fn test_address_register_second_write() {
    let mut ppu = PPU::new(vec![]);
    ppu.w = WriteToggle::SecondWrite;
    ppu.write_address(0xAA);
    assert_eq!(0x00AA, ppu.address.read_u16());
    assert_eq!(WriteToggle::FirstWrite, ppu.w);
}

#[test]
fn test_toggle() {
    let mut w = WriteToggle::FirstWrite;
    w.toggle();
    assert_eq!(WriteToggle::SecondWrite, w);
    w.toggle();
    assert_eq!(WriteToggle::FirstWrite, w)
}

#[test]
fn frame_set_pixel_is_row_major() {
    let mut frame = Frame::new();
    frame.set_pixel(3, 2, 0x21);
    assert_eq!(frame.bytes[2 * 256 + 3], 0x21);
}

#[test]
fn data_reads_are_buffered() {
    let mut chr = vec![0; 0x2000];
    chr[0x0123] = 0x77;
    chr[0x0124] = 0x88;
    let mut ppu = PPU::new(chr);
    ppu.write_address(0x01);
    ppu.write_address(0x23);
    assert_eq!(ppu.read_data(), 0x00);
    assert_eq!(ppu.read_data(), 0x77);
    assert_eq!(ppu.read_data(), 0x88);
    assert_eq!(ppu.address.read_u16(), 0x0126);
}

#[test]
fn data_write_steps_by_32_when_asked() {
    let mut ppu = PPU::new(vec![]);
    ppu.write_control(0b0000_0100);
    ppu.write_address(0x20);
    ppu.write_address(0x00);
    ppu.write_data(1);
    ppu.write_data(2);
    assert_eq!(ppu.vram[0], 1);
    assert_eq!(ppu.vram[32], 2);
    assert_eq!(ppu.address.read_u16(), 0x2040);
}

#[test]
fn palette_and_pattern_memory() {
    let mut ppu = PPU::new(vec![5; 16]);
    ppu.write_address(0x3F);
    ppu.write_address(0x01);
    ppu.write_data(0x2A);
    assert_eq!(ppu.palette_ram[1], 0x2A);
    // Pattern memory is read-only.
    ppu.write_address(0x00);
    ppu.write_address(0x00);
    ppu.write_data(9);
    assert_eq!(ppu.chr[0], 5);
}

#[test]
fn status_read_leaves_vertical_blank() {
    let mut ppu = PPU::new(vec![]);
    assert_eq!(ppu.read_status(), 0b1010_0000);
    assert!(!ppu.status.is_in_v_blank());
    ppu.status.set_v_blank();
    assert!(ppu.status.is_in_v_blank());
    ppu.status.clear_v_blank();
    assert_eq!(ppu.status.read_u8(), 0b0010_0000);
}

#[test]
fn enabling_nmi_during_vblank_raises_it() {
    let mut ppu = PPU::new(vec![]);
    ppu.write_control(0x80);
    assert!(ppu.nmi_triggered);
    let mut quiet = PPU::new(vec![]);
    quiet.read_status();
    quiet.write_control(0x80);
    assert!(!quiet.nmi_triggered);
}

#[test]
fn control_register_fields() {
    let mut ppu = PPU::new(vec![]);
    ppu.write_control(0b1000_0110);
    assert_eq!(ppu.control.nametable_base(), 0x2800);
    assert_eq!(ppu.control.vram_increment(), 32);
    assert!(ppu.control.nmi_enable());
}

#[test]
fn tick_reaches_vertical_blank_and_raises_nmi() {
    let mut ppu = PPU::new(vec![0; 0x2000]);
    ppu.read_status();
    ppu.write_control(0x80);
    let mut ticks = 0u32;
    while !ppu.nmi_triggered {
        ppu.tick();
        ticks += 1;
        assert!(ticks < 341 * 262);
    }
    assert_eq!(ticks, 341 * 241 + 1);
    assert!(ppu.status.is_in_v_blank());
    assert_eq!(ppu.scanline, 242);
}

#[test]
fn tick_wraps_to_first_scanline() {
    let mut ppu = PPU::new(vec![0; 0x2000]);
    ppu.scanline = 260;
    ppu.cycles = 341;
    ppu.tick();
    assert_eq!((ppu.scanline, ppu.cycles), (0, 1));
}

#[test]
fn dma_fills_sprite_memory() {
    let mut ppu = PPU::new(vec![]);
    let page: Vec<u8> = (0..=255u8).collect();
    ppu.dma_write(&page);
    assert_eq!(ppu.oam_ram[17], 17);
    assert_eq!(ppu.oam_ram[255], 255);
}

fn tile_one_all_colour_3() -> Vec<u8> {
    let mut chr = vec![0; 0x2000];
    // Tile 1, row 0: leftmost pixel has both planes set.
    chr[16] = 0x80;
    chr[16 + 8] = 0x80;
    chr
}

#[test]
fn background_pixel_uses_nametable_attribute_and_palette() {
    let mut ppu = PPU::new(tile_one_all_colour_3());
    ppu.vram[0] = 1;
    ppu.vram[0x3C0] = 0b10;
    ppu.palette_ram[2 * 4 + 3] = 0x16;
    ppu.palette_ram[0] = 0x0F;
    ppu.tick();
    ppu.tick();
    ppu.tick();
    assert_eq!(ppu.frame.bytes[0], 0x16);
    // Pixel 1 of the tile is colour 0: the backdrop.
    assert_eq!(ppu.frame.bytes[1], 0x0F);
}

#[test]
fn sprites_are_drawn_at_end_of_visible_frame() {
    let mut ppu = PPU::new(tile_one_all_colour_3());
    ppu.oam_ram[0] = 10;
    ppu.oam_ram[1] = 1;
    ppu.oam_ram[2] = 0x01;
    ppu.oam_ram[3] = 20;
    ppu.oam_ram[4] = 50;
    ppu.oam_ram[5] = 1;
    ppu.oam_ram[6] = 0x41;
    ppu.oam_ram[7] = 60;
    ppu.palette_ram[0x17] = 0x2C;
    ppu.scanline = 239;
    ppu.cycles = 341;
    ppu.tick();
    assert_eq!(ppu.frame.bytes[10 * 256 + 20], 0x2C);
    // Mirrored horizontally: the set pixel lands in the tile's last column.
    assert_eq!(ppu.frame.bytes[50 * 256 + 67], 0x2C);
    assert_eq!(ppu.frame.bytes[50 * 256 + 60], 0);
    assert_eq!(ppu.scanline, 240);
}

#[test]
fn tick_n_advances_by_that_many_dots() {
    let mut ppu = PPU::new(vec![]);
    ppu.tick_n(200);
    ppu.tick_n(200);
    assert_eq!((ppu.scanline, ppu.cycles), (1, 59));
}
