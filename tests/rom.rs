use lochnes::rom::{Mirroring, Rom, RomError};

fn image(flags6: u8, flags7: u8, prg_banks: u8, chr_banks: u8) -> Vec<u8> {
    let mut raw = vec![0x4E, 0x45, 0x53, 0x1A, prg_banks, chr_banks, flags6, flags7, 0, 0, 0, 0, 0, 0, 0, 0];
    if flags6 & 0b100 != 0 {
        raw.extend(vec![0xEE; 512]);
    }
    for i in 0..(prg_banks as usize * 16384) {
        raw.push(i as u8);
    }
    raw.extend(vec![0xCC; chr_banks as usize * 8192]);
    raw
}

#[test]
fn rom_new_keeps_fields() {
    let rom = Rom::new(vec![1, 2], vec![3], 0, Mirroring::Vertical);
    assert_eq!(rom.prg_rom, vec![1, 2]);
    assert_eq!(rom.chr_rom, vec![3]);
    assert_eq!(rom.mapper, 0);
    assert_eq!(rom.screen_mirroring, Mirroring::Vertical);
}

#[test]
fn parses_a_plain_image() {
    let rom = Rom::try_from(&image(0b0000_0001, 0, 1, 1)).unwrap();
    assert_eq!(rom.prg_rom.len(), 16384);
    assert_eq!(rom.prg_rom[1], 1);
    assert_eq!(rom.chr_rom.len(), 8192);
    assert_eq!(rom.chr_rom[0], 0xCC);
    assert_eq!(rom.screen_mirroring, Mirroring::Vertical);
}

#[test]
fn skips_the_trainer() {
    let rom = Rom::try_from(&image(0b0000_1100, 0, 2, 0)).unwrap();
    assert_eq!(rom.prg_rom.len(), 32768);
    assert_eq!(rom.prg_rom[3], 3);
    assert!(rom.chr_rom.is_empty());
    assert_eq!(rom.screen_mirroring, Mirroring::FourScreen);
}

#[test]
fn rejects_other_tags() {
    let mut raw = image(0, 0, 1, 0);
    raw[0] = b'X';
    assert_eq!(Rom::try_from(&raw).unwrap_err(), RomError::NotINes);
}

#[test]
fn rejects_other_mappers() {
    assert_eq!(Rom::try_from(&image(0b0001_0000, 0, 1, 0)).unwrap_err(), RomError::UnsupportedMapper(1));
}

#[test]
fn rejects_nes2_headers() {
    assert_eq!(Rom::try_from(&image(0, 0b0000_1000, 1, 0)).unwrap_err(), RomError::Nes2Unsupported);
}

#[test]
fn rejects_truncated_images() {
    let mut raw = image(0, 0, 1, 1);
    raw.truncate(100);
    assert_eq!(Rom::try_from(&raw).unwrap_err(), RomError::Truncated);
    assert_eq!(Rom::try_from(&vec![0x4E, 0x45]).unwrap_err(), RomError::Truncated);
}
