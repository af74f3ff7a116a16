use nes::error::{Error, ParseError};
use nes::ines::{parse_header, submapper_id, FileFormat, Header, Mirroring};

#[test]
#[should_panic(expected = "bad format")]
fn err_on_bad_header() {
    let header = hex::decode("00000000000000000000000000000000").unwrap();
    parse_header(&header).map_err(|error| error.message()).unwrap();
}

#[test]
fn ines_mapper_0_prg_16_chr_8_horz() {
    let header = hex::decode("4E45531A010100000000000000000000").unwrap();
    let header = parse_header(&header).unwrap();
    assert_eq!(
        header,
        Header {
            format: FileFormat::INes,
            mapper_id: 0,
            prg_rom_size: 16 * 1024,
            chr_rom_size: 8 * 1024,
            mirroring: Mirroring::Horizontal,
            has_trainer: false,
            has_battery: false,
        }
    )
}

#[test]
fn bad_magic_is_reported() {
    let header = hex::decode("00000000000000000000000000000000").unwrap();
    assert_eq!(parse_header(&header), Err(Error::Parse(ParseError::BadMagic)));
    let header = hex::decode("4E45531B010100000000000000000000").unwrap();
    assert_eq!(parse_header(&header), Err(Error::Parse(ParseError::BadMagic)));
}

#[test]
fn short_header_is_truncated() {
    let header = hex::decode("4E45531A0101000000000000000000").unwrap();
    assert_eq!(parse_header(&header), Err(Error::Parse(ParseError::Truncated)));
    assert_eq!(parse_header(&[]), Err(Error::Parse(ParseError::Truncated)));
}

#[test]
fn ines_flags_and_mapper_number() {
    // flags 6 = 0x2F: mapper low nibble 2, four-screen, trainer, battery, vertical
    // flags 7 = 0x50: mapper high nibble 5
    let header = hex::decode("4E45531A02032F500000000000000000").unwrap();
    let header = parse_header(&header).unwrap();
    assert_eq!(
        header,
        Header {
            format: FileFormat::INes,
            mapper_id: 0x52,
            prg_rom_size: 32 * 1024,
            chr_rom_size: 24 * 1024,
            mirroring: Mirroring::FourScreen,
            has_trainer: true,
            has_battery: true,
        }
    )
}

#[test]
fn vertical_mirroring() {
    let header = hex::decode("4E45531A010101000000000000000000").unwrap();
    let header = parse_header(&header).unwrap();
    assert_eq!(header.mirroring, Mirroring::Vertical);
    assert!(!header.has_trainer);
    assert!(!header.has_battery);
}

#[test]
fn nes20_sizes_and_mapper_number() {
    // flags 7 = 0x18: NES 2.0, mapper bits 4-7 = 1; byte 8 = 0x23: mapper bits 8-11 = 3
    // byte 9 = 0x21: PRG count 0x102, CHR count 0x203
    let header = hex::decode("4E45531A020340182321000000000000").unwrap();
    let header = parse_header(&header).unwrap();
    assert_eq!(
        header,
        Header {
            format: FileFormat::Nes20,
            mapper_id: 0x314,
            prg_rom_size: 0x102 * 16 * 1024,
            chr_rom_size: 0x203 * 8 * 1024,
            mirroring: Mirroring::Horizontal,
            has_trainer: false,
            has_battery: false,
        }
    )
}

#[test]
fn nes20_exponent_size_does_not_fit() {
    // PRG count 0xFFF: two to the 63rd, times seven
    let header = hex::decode("4E45531AFF010008000F000000000000").unwrap();
    assert_eq!(parse_header(&header), Err(Error::Parse(ParseError::SizeTooLarge)));
    // CHR count 0xFFF
    let header = hex::decode("4E45531A01FF000800F0000000000000").unwrap();
    assert_eq!(parse_header(&header), Err(Error::Parse(ParseError::SizeTooLarge)));
}

#[test]
fn nes20_high_nibble_alone_is_a_plain_count() {
    // PRG count 0xF01
    let header = hex::decode("4E45531A0101000800 0F000000000000".replace(' ', "")).unwrap();
    let header = parse_header(&header).unwrap();
    assert_eq!(header.format, FileFormat::Nes20);
    assert_eq!(header.prg_rom_size, 0xF01 * 16 * 1024);
    assert_eq!(header.chr_rom_size, 8 * 1024);
}

#[test]
fn submapper_number() {
    let header = hex::decode("4E45531A020340182321000000000000").unwrap();
    assert_eq!(submapper_id(&header), 2);
    let header = hex::decode("4E45531A020340102321000000000000").unwrap();
    assert_eq!(submapper_id(&header), 0);
}
