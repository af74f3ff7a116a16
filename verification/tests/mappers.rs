use nes::error::{Error, ParseError};
use nes::mapper::{Cartridge, Mapper};
use nes::mappers::nrom::Nrom;
use nes::mappers::uxrom::{Uxrom, BANK_SIZE};

fn image(flags6: u8, flags7: u8, prg_banks: u8, chr_banks: u8, trainer: bool) -> Vec<u8> {
    let mut bytes = vec![0x4e, 0x45, 0x53, 0x1a, prg_banks, chr_banks, flags6, flags7];
    bytes.extend_from_slice(&[0; 8]);
    if trainer {
        bytes.extend_from_slice(&[0xaa; 512]);
    }
    for bank in 0..prg_banks {
        bytes.extend_from_slice(&vec![0x10 + bank; 16 * 1024]);
    }
    for bank in 0..chr_banks {
        bytes.extend_from_slice(&vec![0x80 + bank; 8 * 1024]);
    }
    bytes
}

#[test]
fn bank_switching() {
    let mut prg_rom = Vec::with_capacity(256 * 1024); // 256 kB
    let chr_rom = vec![0; 8 * 1024]; // 8 kB

    for bank in 0..16 {
        for _ in 0..BANK_SIZE {
            prg_rom.push(bank);
        }
    }

    let mut mapper = Uxrom::new(prg_rom, chr_rom);

    // read from fixed bank
    assert_eq!(mapper.cpu_read(0xc000), 0x0f);

    // switch to bank 0
    mapper.cpu_write(0x8000, 0x00);
    assert_eq!(mapper.cpu_read(0x8000), 0x00);

    // switch to bank 1
    mapper.cpu_write(0x8000, 0x01);

    // fixed bank should not have changed
    assert_eq!(mapper.cpu_read(0xc000), 0x0f);

    // should be reading from bank 1
    assert_eq!(mapper.cpu_read(0x8000), 0x01);
}

#[test]
fn uxrom_bank_number_is_masked() {
    let mut prg_rom = Vec::new();
    for bank in 0..4u8 {
        prg_rom.extend_from_slice(&vec![bank; BANK_SIZE]);
    }
    let mut mapper = Uxrom::new(prg_rom, vec![0; 8 * 1024]);
    assert_eq!(mapper.id(), 2);
    mapper.cpu_write(0xffff, 0xfe);
    assert_eq!(mapper.cpu_read(0x8000), 2);
    assert_eq!(mapper.cpu_read(0xbfff), 2);
    assert_eq!(mapper.cpu_read(0xffff), 3);
    // writes below the ROM window select nothing
    mapper.cpu_write(0x7fff, 0x01);
    assert_eq!(mapper.cpu_read(0x8000), 2);
    assert_eq!(mapper.cpu_read(0x7fff), 0);
    assert_eq!(mapper.cpu_peek(0x9000), 2);
}

#[test]
fn uxrom_reads_each_address_of_a_bank() {
    let mut prg_rom = vec![0u8; 2 * BANK_SIZE];
    prg_rom[5] = 0x55;
    prg_rom[BANK_SIZE + 7] = 0x77;
    prg_rom[2 * BANK_SIZE - 1] = 0x99;
    let mut chr_rom = vec![0u8; 8 * 1024];
    chr_rom[0x123] = 0x42;
    let mut mapper = Uxrom::new(prg_rom, chr_rom);
    assert_eq!(mapper.cpu_read(0x8005), 0x55);
    assert_eq!(mapper.cpu_read(0xc007), 0x77);
    assert_eq!(mapper.cpu_read(0xffff), 0x99);
    mapper.cpu_write(0x8000, 1);
    assert_eq!(mapper.cpu_read(0x8007), 0x77);
    assert_eq!(mapper.ppu_read(0x0123), 0x42);
    assert_eq!(mapper.ppu_read(0x2123), 0);
    mapper.ppu_write(0x0123, 0x11);
    assert_eq!(mapper.ppu_read(0x0123), 0x42);
}

#[test]
fn nrom_mirrors_16_kib() {
    let mut prg_rom = vec![0u8; 16 * 1024];
    prg_rom[0] = 0x11;
    prg_rom[0x3fff] = 0x22;
    let mut chr_rom = vec![0u8; 8 * 1024];
    chr_rom[0x1fff] = 0x33;
    let mut mapper = Nrom::new(prg_rom, chr_rom);
    assert_eq!(mapper.id(), 0);
    assert_eq!(mapper.cpu_read(0x8000), 0x11);
    assert_eq!(mapper.cpu_read(0xc000), 0x11);
    assert_eq!(mapper.cpu_read(0xbfff), 0x22);
    assert_eq!(mapper.cpu_read(0xffff), 0x22);
    assert_eq!(mapper.cpu_peek(0xffff), 0x22);
    assert_eq!(mapper.cpu_read(0x5fff), 0);
    assert_eq!(mapper.ppu_read(0x1fff), 0x33);
    assert_eq!(mapper.ppu_read(0x2000), 0);
}

#[test]
fn nrom_does_not_mirror_32_kib() {
    let mut prg_rom = vec![0u8; 32 * 1024];
    prg_rom[0] = 0x11;
    prg_rom[0x4000] = 0x44;
    let mut mapper = Nrom::new(prg_rom, vec![0; 8 * 1024]);
    assert_eq!(mapper.cpu_read(0x8000), 0x11);
    assert_eq!(mapper.cpu_read(0xc000), 0x44);
}

#[test]
fn nrom_stores_to_ram_only() {
    let mut mapper = Nrom::new(vec![0xea; 16 * 1024], vec![0; 8 * 1024]);
    assert_eq!(mapper.cpu_read(0x6000), 0);
    mapper.cpu_write(0x6000, 0x12);
    mapper.cpu_write(0x7fff, 0x34);
    assert_eq!(mapper.cpu_read(0x6000), 0x12);
    assert_eq!(mapper.cpu_read(0x7fff), 0x34);
    mapper.cpu_write(0x8000, 0x56);
    assert_eq!(mapper.cpu_read(0x8000), 0xea);
    mapper.cpu_write(0x4020, 0x56);
    assert_eq!(mapper.cpu_read(0x4020), 0);
}

#[test]
fn image_with_mapper_0() {
    let mut cartridge = Cartridge::from_bytes(&image(0x00, 0x00, 1, 1, false)).unwrap();
    assert_eq!(cartridge.id(), 0);
    assert_eq!(cartridge.cpu_read(0x8000), 0x10);
    assert_eq!(cartridge.cpu_read(0xffff), 0x10);
    assert_eq!(cartridge.ppu_read(0x0000), 0x80);
    assert_eq!(cartridge.cpu_peek(0xc000), 0x10);
    assert_eq!(cartridge.to_text(), "Mapper 0");
}

#[test]
fn image_with_trainer_skips_it() {
    let mut cartridge = Cartridge::from_bytes(&image(0x04, 0x00, 2, 1, true)).unwrap();
    assert_eq!(cartridge.cpu_read(0x8000), 0x10);
    assert_eq!(cartridge.cpu_read(0xc000), 0x11);
    assert_eq!(cartridge.ppu_read(0x1fff), 0x80);
}

#[test]
fn image_with_mapper_2_and_aliases() {
    for (flags6, flags7) in [(0x20u8, 0x00u8), (0xe0, 0x50), (0x40, 0xb0)] {
        let mut cartridge = Cartridge::from_bytes(&image(flags6, flags7, 4, 1, false)).unwrap();
        assert_eq!(cartridge.id(), 2);
        assert_eq!(cartridge.to_text(), "Mapper 2");
        assert_eq!(cartridge.cpu_read(0x8000), 0x10);
        assert_eq!(cartridge.cpu_read(0xc000), 0x13);
        cartridge.cpu_write(0x8000, 2);
        assert_eq!(cartridge.cpu_read(0x8000), 0x12);
        cartridge.ppu_write(0x0000, 1);
        assert_eq!(cartridge.ppu_read(0x0000), 0x80);
    }
}

#[test]
fn image_errors() {
    assert_eq!(
        Cartridge::from_bytes(&[0x4e, 0x45, 0x53]).err(),
        Some(Error::Parse(ParseError::Truncated))
    );
    let mut bad = image(0x00, 0x00, 1, 1, false);
    bad[0] = 0;
    assert_eq!(Cartridge::from_bytes(&bad).err(), Some(Error::Parse(ParseError::BadMagic)));
    let mut short = image(0x00, 0x00, 1, 1, false);
    short.pop();
    assert_eq!(Cartridge::from_bytes(&short).err(), Some(Error::Parse(ParseError::Truncated)));
    let no_trainer = image(0x04, 0x00, 1, 1, false);
    assert_eq!(
        Cartridge::from_bytes(&no_trainer).err(),
        Some(Error::Parse(ParseError::Truncated))
    );
    assert_eq!(
        Cartridge::from_bytes(&image(0x10, 0x00, 1, 1, false)).err(),
        Some(Error::UnsupportedMapper(1))
    );
    assert_eq!(
        Cartridge::from_bytes(&image(0x00, 0x00, 3, 1, false)).err(),
        Some(Error::Parse(ParseError::BadSize))
    );
    assert_eq!(
        Cartridge::from_bytes(&image(0x20, 0x00, 2, 0, false)).err(),
        Some(Error::Parse(ParseError::BadSize))
    );
    let mut huge = image(0x00, 0x08, 1, 1, false);
    huge[4] = 0xff;
    huge[9] = 0x0f;
    assert_eq!(Cartridge::from_bytes(&huge).err(), Some(Error::Parse(ParseError::SizeTooLarge)));
}
