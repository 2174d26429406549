use vstd::prelude::*;

verus! {

/// How the cartridge arranges the picture unit's name tables.
#[derive(Debug, Clone, Copy, PartialEq, Eq)]
pub enum Mirroring {
    Vertical,
    Horizontal,
    FourScreen,
}

/// A cartridge image: program memory, character memory, mapper number and
/// name-table mirroring.
#[derive(Debug, Clone)]
pub struct Rom {
    pub prg_rom: Vec<u8>,
    pub chr_rom: Vec<u8>,
    pub mapper: u8,
    pub screen_mirroring: Mirroring,
}

/// Why an image could not be read.
#[derive(Debug, Clone, Copy, PartialEq, Eq)]
pub enum RomError {
    /// The image does not start with the iNES tag.
    NotINes,
    /// The header is of the NES 2.0 kind.
    Nes2Unsupported,
    /// The image asks for a mapper other than 0.
    UnsupportedMapper(u8),
    /// The image is shorter than its header says.
    Truncated,
}

/// The four bytes an iNES image starts with: "NES" and 0x1A.
pub open spec fn ines_tag(raw: Seq<u8>) -> bool {
    raw[0] == 0x4E && raw[1] == 0x45 && raw[2] == 0x53 && raw[3] == 0x1A
}

/// Bytes of program memory per unit of header byte 4.
pub const PRG_ROM_PAGE_BYTES: usize = 16384;

/// Bytes of character memory per unit of header byte 5.
pub const CHR_ROM_PAGE_BYTES: usize = 8192;

/// The mapper number: high nibble from byte 7, low nibble from byte 6.
pub open spec fn mapper_of(raw: Seq<u8>) -> u8 {
    (raw[7] & 0b1111_0000) | (raw[6] >> 4u8)
}

/// Mirroring from byte 6: bit 3 four-screen, else bit 0 vertical.
pub open spec fn mirroring_of(raw: Seq<u8>) -> Mirroring {
    if raw[6] & 0b1000 != 0 {
        Mirroring::FourScreen
    } else if raw[6] & 0b1 != 0 {
        Mirroring::Vertical
    } else {
        Mirroring::Horizontal
    }
}

/// Where program memory starts: after the 16-byte header, and after a
/// 512-byte trainer when byte 6 bit 2 says there is one.
pub open spec fn prg_start(raw: Seq<u8>) -> int {
    if raw[6] & 0b100 != 0 {
        528
    } else {
        16
    }
}

/// An iNES image read as (program memory, character memory, mapper,
/// mirroring).
pub open spec fn parse_spec(raw: Seq<u8>) -> Result<(Seq<u8>, Seq<u8>, u8, Mirroring), RomError> {
    if raw.len() < 4 {
        Err(RomError::Truncated)
    } else if !ines_tag(raw) {
        Err(RomError::NotINes)
    } else if raw.len() < 16 {
        Err(RomError::Truncated)
    } else if mapper_of(raw) != 0 {
        Err(RomError::UnsupportedMapper(mapper_of(raw)))
    } else if (raw[7] >> 2u8) & 0b11 != 0 {
        Err(RomError::Nes2Unsupported)
    } else {
        let prg_end = prg_start(raw) + raw[4] * PRG_ROM_PAGE_BYTES;
        let chr_end = prg_end + raw[5] * CHR_ROM_PAGE_BYTES;
        if chr_end > raw.len() {
            Err(RomError::Truncated)
        } else {
            Ok(
                (
                    raw.subrange(prg_start(raw), prg_end),
                    raw.subrange(prg_end, chr_end),
                    mapper_of(raw),
                    mirroring_of(raw),
                ),
            )
        }
    }
}

fn copy_range(raw: &Vec<u8>, start: usize, end: usize) -> (r: Vec<u8>)
    requires
        start <= end <= raw.len(),
    ensures
        r@ == raw@.subrange(start as int, end as int),
{
    let mut r: Vec<u8> = Vec::new();
    let mut i = start;
    while i < end
        invariant
            start <= i <= end <= raw.len(),
            r@ == raw@.subrange(start as int, i as int),
        decreases end - i,
    {
        r.push(raw[i]);
        i = i + 1;
    }
    r
}

impl Rom {
    pub fn new(prg_rom: Vec<u8>, chr_rom: Vec<u8>, mapper: u8, screen_mirroring: Mirroring) -> (r: Self)
        ensures
            r.prg_rom == prg_rom,
            r.chr_rom == chr_rom,
            r.mapper == mapper,
            r.screen_mirroring == screen_mirroring,
    {
        Rom { prg_rom, chr_rom, mapper, screen_mirroring }
    }

    /// Reads an iNES image.
    pub fn try_from(raw: &Vec<u8>) -> (r: Result<Rom, RomError>)
        ensures
            match parse_spec(raw@) {
                Ok((prg, chr, mapper, mirroring)) => r matches Ok(rom) && rom.prg_rom@ == prg
                    && rom.chr_rom@ == chr && rom.mapper == mapper && rom.screen_mirroring
                    == mirroring,
                Err(e) => r == Err::<Rom, RomError>(e),
            },
    {
        if raw.len() < 4 {
            return Err(RomError::Truncated);
        }
        if !(raw[0] == 0x4E && raw[1] == 0x45 && raw[2] == 0x53 && raw[3] == 0x1A) {
            return Err(RomError::NotINes);
        }
        if raw.len() < 16 {
            return Err(RomError::Truncated);
        }
        let mapper = (raw[7] & 0b1111_0000) | (raw[6] >> 4u8);
        if mapper != 0 {
            return Err(RomError::UnsupportedMapper(mapper));
        }
        if (raw[7] >> 2u8) & 0b11 != 0 {
            return Err(RomError::Nes2Unsupported);
        }
        let mirroring = if raw[6] & 0b1000 != 0 {
            Mirroring::FourScreen
        } else if raw[6] & 0b1 != 0 {
            Mirroring::Vertical
        } else {
            Mirroring::Horizontal
        };
        let prg_rom_start: usize = if raw[6] & 0b100 != 0 {
            528
        } else {
            16
        };
        let prg_rom_end = prg_rom_start + raw[4] as usize * PRG_ROM_PAGE_BYTES;
        let chr_rom_end = prg_rom_end + raw[5] as usize * CHR_ROM_PAGE_BYTES;
        if chr_rom_end > raw.len() {
            return Err(RomError::Truncated);
        }
        Ok(
            Rom {
                prg_rom: copy_range(raw, prg_rom_start, prg_rom_end),
                chr_rom: copy_range(raw, prg_rom_end, chr_rom_end),
                mapper,
                screen_mirroring: mirroring,
            },
        )
    }
}

} // verus!
