use crate::mapper::Mapper;
use vstd::prelude::*;

verus! {

/// Mapper 2: PRG-ROM in banks of 16 KiB, one of them switchable at
/// `$8000..=$BFFF` and the last fixed at `$C000..=$FFFF`.
#[derive(Debug, Clone)]
pub struct Uxrom {
    prg_rom: Vec<u8>,
    chr_rom: Vec<u8>,
    bank: usize,
}

/// What a UxROM cartridge holds, and the bank that is switched in.
pub struct UxromModel {
    pub prg_rom: Seq<u8>,
    pub chr_rom: Seq<u8>,
    pub bank: nat,
}

/// The size of a PRG-ROM bank: 16 kB.
pub const BANK_SIZE: usize = 16384;

/// The sizes that a UxROM cartridge can have: a whole number of PRG-ROM
/// banks, at least one, and some CHR-ROM.
pub open spec fn uxrom_sizes(prg_rom: nat, chr_rom: nat) -> bool {
    prg_rom >= BANK_SIZE && prg_rom % (BANK_SIZE as nat) == 0 && chr_rom > 0
}

/// The bank that a written byte selects among `banks`: the byte masked by
/// the highest bank number.
pub open spec fn selected_bank(data: u8, banks: nat) -> nat {
    (data as u64 & (banks - 1) as u64) as nat
}

impl UxromModel {
    /// The number of PRG-ROM banks.
    pub open spec fn banks(self) -> nat {
        self.prg_rom.len() / (BANK_SIZE as nat)
    }

    /// A CPU read: the switched bank at `$8000..=$BFFF`, the last bank at
    /// `$C000..=$FFFF`, 0 elsewhere.
    pub open spec fn cpu_value(self, address: u16) -> u8 {
        if 0x8000 <= address <= 0xbfff {
            self.prg_rom[self.bank * BANK_SIZE + (address - 0x8000)]
        } else if 0xc000 <= address {
            self.prg_rom[self.prg_rom.len() - BANK_SIZE + (address - 0xc000)]
        } else {
            0
        }
    }

    /// A CPU write: at `$8000..=$FFFF` the byte selects the bank, elsewhere
    /// it is dropped.
    pub open spec fn after_cpu_write(self, address: u16, data: u8) -> UxromModel {
        if 0x8000 <= address {
            UxromModel { bank: selected_bank(data, self.banks()), ..self }
        } else {
            self
        }
    }

    /// A PPU read: CHR-ROM at `$0000..=$1FFF`, 0 elsewhere.
    pub open spec fn ppu_value(self, address: u16) -> u8 {
        if address <= 0x1fff {
            self.chr_rom[address as int % self.chr_rom.len() as int]
        } else {
            0
        }
    }
}

impl View for Uxrom {
    type V = UxromModel;

    closed spec fn view(&self) -> UxromModel {
        UxromModel { prg_rom: self.prg_rom@, chr_rom: self.chr_rom@, bank: self.bank as nat }
    }
}

impl Uxrom {
    /// A cartridge with the given ROMs and bank 0 switched in.
    pub fn new(prg_rom: Vec<u8>, chr_rom: Vec<u8>) -> (uxrom: Uxrom)
        requires
            uxrom_sizes(prg_rom@.len(), chr_rom@.len()),
        ensures
            uxrom.wf(),
            uxrom@.prg_rom == prg_rom@,
            uxrom@.chr_rom == chr_rom@,
            uxrom@.bank == 0,
    {
        Uxrom { prg_rom, chr_rom, bank: 0 }
    }

    /// Looks at the byte a PPU read of `address` would return.
    pub fn ppu_peek(&self, address: u16) -> (data: u8)
        requires
            self.wf(),
        ensures
            data == self.model().ppu_value(address),
    {
        if address <= 0x1fff {
            let index = address as usize % self.chr_rom.len();
            self.chr_rom[index]
        } else {
            0
        }
    }

    /// Looks at the byte a CPU read of `address` would return.
    pub fn cpu_peek(&self, address: u16) -> (data: u8)
        requires
            self.wf(),
        ensures
            data == self.model().cpu_value(address),
    {
        if 0x8000 <= address && address <= 0xbfff {
            let length = self.prg_rom.len();
            assert(BANK_SIZE * self.bank + BANK_SIZE <= length);
            let index = (address - 0x8000) as usize + BANK_SIZE * self.bank;
            self.prg_rom[index]
        } else if 0xc000 <= address {
            let last_bank = self.prg_rom.len() - BANK_SIZE;
            let index = last_bank + (address - 0xc000) as usize;
            self.prg_rom[index]
        } else {
            0
        }
    }
}

impl Mapper for Uxrom {
    type Model = UxromModel;

    open spec fn model(&self) -> UxromModel {
        self@
    }

    closed spec fn wf(&self) -> bool {
        uxrom_sizes(self.prg_rom@.len(), self.chr_rom@.len()) && self.bank < self@.banks()
    }

    open spec fn number(m: UxromModel) -> u8 {
        2
    }

    open spec fn cpu_value(m: UxromModel, address: u16) -> u8 {
        m.cpu_value(address)
    }

    open spec fn after_cpu_read(m: UxromModel, address: u16) -> UxromModel {
        m
    }

    open spec fn after_cpu_write(m: UxromModel, address: u16, data: u8) -> UxromModel {
        m.after_cpu_write(address, data)
    }

    open spec fn ppu_value(m: UxromModel, address: u16) -> u8 {
        m.ppu_value(address)
    }

    open spec fn after_ppu_read(m: UxromModel, address: u16) -> UxromModel {
        m
    }

    open spec fn after_ppu_write(m: UxromModel, address: u16, data: u8) -> UxromModel {
        m
    }

    fn id(&self) -> (id: u8) {
        2
    }

    fn cpu_read(&mut self, address: u16) -> (data: u8) {
        self.cpu_peek(address)
    }

    fn cpu_write(&mut self, address: u16, data: u8) {
        if 0x8000 <= address {
            let banks = self.prg_rom.len() / BANK_SIZE;
            let mask = (banks - 1) as u64;
            let bank = data as u64 & mask;
            assert(bank <= mask) by (bit_vector)
                requires
                    bank == data as u64 & mask,
            ;
            self.bank = bank as usize;
        }
    }

    fn ppu_read(&mut self, address: u16) -> (data: u8) {
        self.ppu_peek(address)
    }

    fn ppu_write(&mut self, _address: u16, _data: u8) {
    }
}

} // verus!
