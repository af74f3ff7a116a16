use crate::debugger::{decimal, push_decimal};
use crate::error::{Error, ParseError};
use crate::ines::{parse_header, parsed, HEADER_SIZE, TRAINER_SIZE};
use crate::mappers::nrom::{nrom_sizes, Nrom, NromModel, PRG_RAM_SIZE};
use crate::mappers::uxrom::{uxrom_sizes, Uxrom, UxromModel};
use vstd::prelude::*;
use vstd::slice::{slice_subrange, slice_to_vec};
use vstd::string::*;

verus! {

/// The cartridge's address translator, seen from the CPU and from the PPU.
///
/// As with the bus, an access may change the cartridge, so the trait
/// describes it as a state machine over an abstract `Model`.
pub trait Mapper {
    /// The abstract state of the cartridge.
    type Model;

    /// The abstract state of this cartridge.
    spec fn model(&self) -> Self::Model;

    /// What the implementation needs to hold of itself between calls.
    spec fn wf(&self) -> bool;

    /// The mapper number of a cartridge in state `m`.
    spec fn number(m: Self::Model) -> u8;

    /// The byte that a CPU read of `address` returns in state `m`.
    spec fn cpu_value(m: Self::Model, address: u16) -> u8;

    /// The state that a CPU read leaves behind.
    spec fn after_cpu_read(m: Self::Model, address: u16) -> Self::Model;

    /// The state that a CPU write leaves behind.
    spec fn after_cpu_write(m: Self::Model, address: u16, data: u8) -> Self::Model;

    /// The byte that a PPU read of `address` returns in state `m`.
    spec fn ppu_value(m: Self::Model, address: u16) -> u8;

    /// The state that a PPU read leaves behind.
    spec fn after_ppu_read(m: Self::Model, address: u16) -> Self::Model;

    /// The state that a PPU write leaves behind.
    spec fn after_ppu_write(m: Self::Model, address: u16, data: u8) -> Self::Model;

    fn id(&self) -> (id: u8)
        ensures
            id == Self::number(self.model()),
    ;

    fn cpu_read(&mut self, address: u16) -> (data: u8)
        requires
            old(self).wf(),
        ensures
            final(self).wf(),
            data == Self::cpu_value(old(self).model(), address),
            final(self).model() == Self::after_cpu_read(old(self).model(), address),
    ;

    fn cpu_write(&mut self, address: u16, data: u8)
        requires
            old(self).wf(),
        ensures
            final(self).wf(),
            final(self).model() == Self::after_cpu_write(old(self).model(), address, data),
    ;

    fn ppu_read(&mut self, address: u16) -> (data: u8)
        requires
            old(self).wf(),
        ensures
            final(self).wf(),
            data == Self::ppu_value(old(self).model(), address),
            final(self).model() == Self::after_ppu_read(old(self).model(), address),
    ;

    fn ppu_write(&mut self, address: u16, data: u8)
        requires
            old(self).wf(),
        ensures
            final(self).wf(),
            final(self).model() == Self::after_ppu_write(old(self).model(), address, data),
    ;
}

/// A cartridge with one of the mappers that are implemented.
#[derive(Debug, Clone)]
pub enum Cartridge {
    Nrom(Nrom),
    Uxrom(Uxrom),
}

/// The abstract state of a cartridge.
pub enum CartridgeModel {
    Nrom(NromModel),
    Uxrom(UxromModel),
}

/// The cartridge that a ROM image holds. After the 16-byte header comes a
/// trainer of 512 bytes where the header flags one, then the PRG-ROM and the
/// CHR-ROM in the sizes that the header declares. An image that is shorter
/// than that is malformed; a mapper number other than 0, 2, 94 and 180 is
/// not supported.
pub open spec fn loaded(bytes: Seq<u8>) -> Result<CartridgeModel, Error> {
    if bytes.len() < HEADER_SIZE {
        Err(Error::Parse(ParseError::Truncated))
    } else {
        match parsed(bytes.subrange(0, HEADER_SIZE as int)) {
            Err(error) => Err(error),
            Ok(header) => {
                let prg_start = HEADER_SIZE + if header.has_trainer {
                    TRAINER_SIZE as int
                } else {
                    0
                };
                let chr_start = prg_start + header.prg_rom_size;
                let end = chr_start + header.chr_rom_size;
                let prg_rom = bytes.subrange(prg_start, chr_start);
                let chr_rom = bytes.subrange(chr_start, end);
                if bytes.len() < end {
                    Err(Error::Parse(ParseError::Truncated))
                } else if header.mapper_id == 0 {
                    if nrom_sizes(header.prg_rom_size as nat, header.chr_rom_size as nat) {
                        Ok(
                            CartridgeModel::Nrom(
                                NromModel {
                                    prg_rom,
                                    prg_ram: Seq::new(PRG_RAM_SIZE as nat, |i: int| 0u8),
                                    chr_rom,
                                },
                            ),
                        )
                    } else {
                        Err(Error::Parse(ParseError::BadSize))
                    }
                } else if header.mapper_id == 2 || header.mapper_id == 94 || header.mapper_id
                    == 180 {
                    if uxrom_sizes(header.prg_rom_size as nat, header.chr_rom_size as nat) {
                        Ok(CartridgeModel::Uxrom(UxromModel { prg_rom, chr_rom, bank: 0 }))
                    } else {
                        Err(Error::Parse(ParseError::BadSize))
                    }
                } else {
                    Err(Error::UnsupportedMapper(header.mapper_id))
                }
            },
        }
    }
}

impl Cartridge {
    /// Builds the cartridge that the ROM image `bytes` holds.
    pub fn from_bytes(bytes: &[u8]) -> (outcome: Result<Cartridge, Error>)
        ensures
            match outcome {
                Ok(cartridge) => cartridge.wf() && loaded(bytes@) == Ok::<CartridgeModel, Error>(
                    cartridge.model(),
                ),
                Err(error) => loaded(bytes@) == Err::<CartridgeModel, Error>(error),
            },
    {
        if bytes.len() < HEADER_SIZE {
            return Err(Error::Parse(ParseError::Truncated));
        }
        let header = match parse_header(slice_subrange(bytes, 0, HEADER_SIZE)) {
            Ok(header) => header,
            Err(error) => {
                return Err(error);
            },
        };
        let prg_start = if header.has_trainer {
            HEADER_SIZE + TRAINER_SIZE
        } else {
            HEADER_SIZE
        };
        if bytes.len() < prg_start || bytes.len() - prg_start < header.prg_rom_size {
            return Err(Error::Parse(ParseError::Truncated));
        }
        let chr_start = prg_start + header.prg_rom_size;
        if bytes.len() - chr_start < header.chr_rom_size {
            return Err(Error::Parse(ParseError::Truncated));
        }
        let end = chr_start + header.chr_rom_size;
        if header.mapper_id == 0 {
            if (header.prg_rom_size == 16384 || header.prg_rom_size == 32768) && header.chr_rom_size
                == 8192 {
                let prg_rom = slice_to_vec(slice_subrange(bytes, prg_start, chr_start));
                let chr_rom = slice_to_vec(slice_subrange(bytes, chr_start, end));
                Ok(Cartridge::Nrom(Nrom::new(prg_rom, chr_rom)))
            } else {
                Err(Error::Parse(ParseError::BadSize))
            }
        } else if header.mapper_id == 2 || header.mapper_id == 94 || header.mapper_id == 180 {
            if header.prg_rom_size >= 16384 && header.prg_rom_size % 16384 == 0
                && header.chr_rom_size > 0 {
                let prg_rom = slice_to_vec(slice_subrange(bytes, prg_start, chr_start));
                let chr_rom = slice_to_vec(slice_subrange(bytes, chr_start, end));
                Ok(Cartridge::Uxrom(Uxrom::new(prg_rom, chr_rom)))
            } else {
                Err(Error::Parse(ParseError::BadSize))
            }
        } else {
            Err(Error::UnsupportedMapper(header.mapper_id))
        }
    }

    /// Names the cartridge by its mapper number, for debugging.
    pub fn to_text(&self) -> (text: String)
        ensures
            text@ == "Mapper "@ + decimal(Self::number(self.model()) as nat),
    {
        let mut text = String::from_str("Mapper ");
        push_decimal(&mut text, self.id() as u64);
        text
    }

    /// Looks at the byte a CPU read of `address` would return.
    pub fn cpu_peek(&self, address: u16) -> (data: u8)
        requires
            self.wf(),
        ensures
            data == Self::cpu_value(self.model(), address),
    {
        match self {
            Cartridge::Nrom(nrom) => nrom.cpu_peek(address),
            Cartridge::Uxrom(uxrom) => uxrom.cpu_peek(address),
        }
    }

    /// Looks at the byte a PPU read of `address` would return.
    pub fn ppu_peek(&self, address: u16) -> (data: u8)
        requires
            self.wf(),
        ensures
            data == Self::ppu_value(self.model(), address),
    {
        match self {
            Cartridge::Nrom(nrom) => nrom.ppu_peek(address),
            Cartridge::Uxrom(uxrom) => uxrom.ppu_peek(address),
        }
    }
}

impl Mapper for Cartridge {
    type Model = CartridgeModel;

    open spec fn model(&self) -> CartridgeModel {
        match self {
            Cartridge::Nrom(nrom) => CartridgeModel::Nrom(nrom.model()),
            Cartridge::Uxrom(uxrom) => CartridgeModel::Uxrom(uxrom.model()),
        }
    }

    open spec fn wf(&self) -> bool {
        match self {
            Cartridge::Nrom(nrom) => nrom.wf(),
            Cartridge::Uxrom(uxrom) => uxrom.wf(),
        }
    }

    open spec fn number(m: CartridgeModel) -> u8 {
        match m {
            CartridgeModel::Nrom(nrom) => Nrom::number(nrom),
            CartridgeModel::Uxrom(uxrom) => Uxrom::number(uxrom),
        }
    }

    open spec fn cpu_value(m: CartridgeModel, address: u16) -> u8 {
        match m {
            CartridgeModel::Nrom(nrom) => nrom.cpu_value(address),
            CartridgeModel::Uxrom(uxrom) => uxrom.cpu_value(address),
        }
    }

    open spec fn after_cpu_read(m: CartridgeModel, address: u16) -> CartridgeModel {
        m
    }

    open spec fn after_cpu_write(m: CartridgeModel, address: u16, data: u8) -> CartridgeModel {
        match m {
            CartridgeModel::Nrom(nrom) => CartridgeModel::Nrom(nrom.after_cpu_write(address, data)),
            CartridgeModel::Uxrom(uxrom) => CartridgeModel::Uxrom(
                uxrom.after_cpu_write(address, data),
            ),
        }
    }

    open spec fn ppu_value(m: CartridgeModel, address: u16) -> u8 {
        match m {
            CartridgeModel::Nrom(nrom) => nrom.ppu_value(address),
            CartridgeModel::Uxrom(uxrom) => uxrom.ppu_value(address),
        }
    }

    open spec fn after_ppu_read(m: CartridgeModel, address: u16) -> CartridgeModel {
        m
    }

    open spec fn after_ppu_write(m: CartridgeModel, address: u16, data: u8) -> CartridgeModel {
        m
    }

    fn id(&self) -> (id: u8) {
        match self {
            Cartridge::Nrom(nrom) => nrom.id(),
            Cartridge::Uxrom(uxrom) => uxrom.id(),
        }
    }

    fn cpu_read(&mut self, address: u16) -> (data: u8) {
        match self {
            Cartridge::Nrom(nrom) => nrom.cpu_read(address),
            Cartridge::Uxrom(uxrom) => uxrom.cpu_read(address),
        }
    }

    fn cpu_write(&mut self, address: u16, data: u8) {
        match self {
            Cartridge::Nrom(nrom) => nrom.cpu_write(address, data),
            Cartridge::Uxrom(uxrom) => uxrom.cpu_write(address, data),
        }
    }

    fn ppu_read(&mut self, address: u16) -> (data: u8) {
        match self {
            Cartridge::Nrom(nrom) => nrom.ppu_read(address),
            Cartridge::Uxrom(uxrom) => uxrom.ppu_read(address),
        }
    }

    fn ppu_write(&mut self, address: u16, data: u8) {
        match self {
            Cartridge::Nrom(nrom) => nrom.ppu_write(address, data),
            Cartridge::Uxrom(uxrom) => uxrom.ppu_write(address, data),
        }
    }
}

} // verus!
