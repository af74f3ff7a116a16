use crate::error::{Error, ParseError};
use vstd::arithmetic::power2::{lemma2_to64_rest, pow2};
use vstd::prelude::*;

verus! {

#[derive(Debug, Clone, Copy, PartialEq, Eq, Structural)]
pub enum FileFormat {
    /// iNES
    INes,
    /// NES 2.0
    Nes20,
}

#[derive(Debug, Clone, Copy, PartialEq, Eq, Structural)]
pub enum Mirroring {
    Horizontal,
    Vertical,
    FourScreen,
}

#[derive(Debug, Clone, Copy, PartialEq, Eq, Structural)]
pub struct Header {
    pub format: FileFormat,
    pub prg_rom_size: usize,
    pub chr_rom_size: usize,
    pub mapper_id: u16,
    pub mirroring: Mirroring,
    pub has_trainer: bool,
    pub has_battery: bool,
}

/// The length of the header.
pub const HEADER_SIZE: usize = 16;

/// The length of the trainer that may follow the header.
pub const TRAINER_SIZE: usize = 512;

/// The unit in which a header counts PRG-ROM: 16 KiB.
pub const PRG_UNIT: usize = 16384;

/// The unit in which a header counts CHR-ROM: 8 KiB.
pub const CHR_UNIT: usize = 8192;

// Flags 6
pub const MIRRORING_VERTICAL_MASK: u8 = 0b0000_0001;

pub const MIRRORING_FOUR_SCREEN_MASK: u8 = 0b0000_1000;

pub const HAS_BATTERY_MASK: u8 = 0b0000_0010;

pub const HAS_TRAINER_MASK: u8 = 0b0000_0100;

/// The header starts with `NES` and the byte `$1A`.
pub open spec fn has_magic(header: Seq<u8>) -> bool {
    header[0] == 0x4e && header[1] == 0x45 && header[2] == 0x53 && header[3] == 0x1a
}

/// Bits 2 and 3 of byte 7 are `10` for NES 2.0; everything else is iNES.
pub open spec fn format_of(header: Seq<u8>) -> FileFormat {
    if (header[7] / 4) % 4 == 2 {
        FileFormat::Nes20
    } else {
        FileFormat::INes
    }
}

/// A ROM size in bytes. iNES counts units in one byte. NES 2.0 puts four
/// more bits above that byte; a count of `$FFF` stands for two to the power
/// of the upper six bits of the byte, times twice its lower two bits plus
/// one.
pub open spec fn rom_size(format: FileFormat, size_lsb: u8, size_msb: u8, unit: nat) -> nat {
    match format {
        FileFormat::INes => size_lsb as nat * unit,
        FileFormat::Nes20 => {
            let count = size_msb as nat * 256 + size_lsb as nat;
            if count == 0xfff {
                pow2((size_lsb / 4) as nat) * ((size_lsb % 4) as nat * 2 + 1)
            } else {
                count * unit
            }
        },
    }
}

/// The PRG-ROM size that a header declares.
pub open spec fn prg_rom_size_of(header: Seq<u8>) -> nat {
    rom_size(format_of(header), header[4], header[9] % 16, PRG_UNIT as nat)
}

/// The CHR-ROM size that a header declares.
pub open spec fn chr_rom_size_of(header: Seq<u8>) -> nat {
    rom_size(format_of(header), header[5], header[9] / 16, CHR_UNIT as nat)
}

/// Bit 3 of byte 6 selects four-screen; else bit 0 picks vertical over
/// horizontal.
pub open spec fn mirroring_of(header: Seq<u8>) -> Mirroring {
    if (header[6] / 8) % 2 == 1 {
        Mirroring::FourScreen
    } else if header[6] % 2 == 1 {
        Mirroring::Vertical
    } else {
        Mirroring::Horizontal
    }
}

/// The mapper number: the high nibbles of bytes 7 and 6, and in NES 2.0 the
/// low nibble of byte 8 above them.
pub open spec fn mapper_id_of(header: Seq<u8>) -> u16 {
    let bits_0_3 = header[6] / 16;
    let bits_4_7 = header[7] / 16;
    let bits_8_11 = header[8] % 16;
    match format_of(header) {
        FileFormat::INes => (bits_4_7 * 16 + bits_0_3) as u16,
        FileFormat::Nes20 => (bits_8_11 * 256 + bits_4_7 * 16 + bits_0_3) as u16,
    }
}

/// The NES 2.0 submapper number: the high nibble of byte 8.
pub open spec fn submapper_id_of(header: Seq<u8>) -> u8 {
    match format_of(header) {
        FileFormat::INes => 0,
        FileFormat::Nes20 => header[8] / 16,
    }
}

/// What parsing a header gives: an error for one that is too short, lacks
/// the magic number or declares a size beyond the address space, and the
/// decoded fields otherwise.
pub open spec fn parsed(header: Seq<u8>) -> Result<Header, Error> {
    if header.len() < HEADER_SIZE {
        Err(Error::Parse(ParseError::Truncated))
    } else if !has_magic(header) {
        Err(Error::Parse(ParseError::BadMagic))
    } else if prg_rom_size_of(header) > usize::MAX || chr_rom_size_of(header) > usize::MAX {
        Err(Error::Parse(ParseError::SizeTooLarge))
    } else {
        Ok(
            Header {
                format: format_of(header),
                prg_rom_size: prg_rom_size_of(header) as usize,
                chr_rom_size: chr_rom_size_of(header) as usize,
                mapper_id: mapper_id_of(header),
                mirroring: mirroring_of(header),
                has_trainer: (header[6] / 4) % 2 == 1,
                has_battery: (header[6] / 2) % 2 == 1,
            },
        )
    }
}

/// The masks and shifts of the parser pick the binary digits that the
/// header's fields are defined by.
proof fn lemma_header_bits(flags6: u8, flags7: u8, byte8: u8)
    by (bit_vector)
    ensures
        (flags7 & 0b0000_1100 == 0b0000_1000) == ((flags7 / 4) % 4 == 2),
        (flags6 & 0b0000_1000 != 0) == ((flags6 / 8) % 2 == 1),
        (flags6 & 0b0000_0001 != 0) == (flags6 % 2 == 1),
        (flags6 & 0b0000_0010 != 0) == ((flags6 / 2) % 2 == 1),
        (flags6 & 0b0000_0100 != 0) == ((flags6 / 4) % 2 == 1),
        (byte8 & 0b1111_0000) >> 4 == byte8 / 16,
        (((flags7 & 0b1111_0000) as u16) | (((flags6 & 0b1111_0000) as u16) >> 4)) == (flags7 / 16)
            * 16 + flags6 / 16,
        ((((byte8 & 0b0000_1111) as u16) << 8) | ((flags7 & 0b1111_0000) as u16) | (((flags6
            & 0b1111_0000) as u16) >> 4)) == (byte8 % 16) * 256 + (flags7 / 16) * 16 + flags6 / 16,
{
}

/// Computes a ROM size as `rom_size` defines it, or nothing where it does
/// not fit.
fn compute_rom_size(format: FileFormat, size_lsb: u8, size_msb: u8, unit: usize) -> (size: Option<
    usize,
>)
    requires
        size_msb < 16,
        unit <= 16384,
    ensures
        match size {
            Some(bytes) => bytes == rom_size(format, size_lsb, size_msb, unit as nat),
            None => rom_size(format, size_lsb, size_msb, unit as nat) > usize::MAX,
        },
{
    match format {
        FileFormat::INes => {
            assert(size_lsb * unit <= 255 * 16384) by (nonlinear_arith)
                requires
                    size_lsb <= 255,
                    unit <= 16384,
            ;
            Some(size_lsb as usize * unit)
        },
        FileFormat::Nes20 => {
            let count: usize = size_msb as usize * 256 + size_lsb as usize;
            if count == 0xfff {
                proof {
                    lemma2_to64_rest();
                    assert(size_lsb == 255);
                    assert(pow2(63) * 7 > usize::MAX);
                }
                None
            } else {
                assert(count * unit <= 4095 * 16384) by (nonlinear_arith)
                    requires
                        count <= 4095,
                        unit <= 16384,
                ;
                Some(count * unit)
            }
        },
    }
}

/// Extracts the submapper number of a header, which NES 2.0 keeps in the
/// high nibble of byte 8; an iNES header has none.
pub fn submapper_id(header: &[u8]) -> (id: u8)
    requires
        header@.len() >= HEADER_SIZE,
    ensures
        id == submapper_id_of(header@),
{
    proof {
        lemma_header_bits(header[6], header[7], header[8]);
    }
    if header[7] & 0b0000_1100 == 0b0000_1000 {
        (header[8] & 0b1111_0000) >> 4
    } else {
        0
    }
}

pub fn parse_header(header: &[u8]) -> (outcome: Result<Header, Error>)
    ensures
        outcome == parsed(header@),
{
    if header.len() < HEADER_SIZE {
        return Err(Error::Parse(ParseError::Truncated));
    }
    if header[0] != 0x4e || header[1] != 0x45 || header[2] != 0x53 || header[3] != 0x1a {
        return Err(Error::Parse(ParseError::BadMagic));
    }
    proof {
        lemma_header_bits(header[6], header[7], header[8]);
    }
    // Bits 2-3 are "10" for NES 2.0
    let format = if header[7] & 0b0000_1100 == 0b0000_1000 {
        FileFormat::Nes20
    } else {
        FileFormat::INes
    };

    let prg_rom_size = match compute_rom_size(format, header[4], header[9] % 16, PRG_UNIT) {
        Some(size) => size,
        None => {
            return Err(Error::Parse(ParseError::SizeTooLarge));
        },
    };
    let chr_rom_size = match compute_rom_size(format, header[5], header[9] / 16, CHR_UNIT) {
        Some(size) => size,
        None => {
            return Err(Error::Parse(ParseError::SizeTooLarge));
        },
    };

    let mirroring = if header[6] & MIRRORING_FOUR_SCREEN_MASK != 0 {
        Mirroring::FourScreen
    } else if header[6] & MIRRORING_VERTICAL_MASK != 0 {
        Mirroring::Vertical
    } else {
        Mirroring::Horizontal
    };

    let has_battery = header[6] & HAS_BATTERY_MASK != 0;
    let has_trainer = header[6] & HAS_TRAINER_MASK != 0;

    let bits_0_3 = ((header[6] & 0b1111_0000) as u16) >> 4;
    let bits_4_7 = (header[7] & 0b1111_0000) as u16;
    let mapper_id = match format {
        FileFormat::INes => bits_4_7 | bits_0_3,
        FileFormat::Nes20 => (((header[8] & 0b0000_1111) as u16) << 8) | bits_4_7 | bits_0_3,
    };

    Ok(
        Header {
            format,
            prg_rom_size,
            chr_rom_size,
            mapper_id,
            mirroring,
            has_trainer,
            has_battery,
        },
    )
}

} // verus!
