use emurom::nes::cartridge::Cartridge;
use emurom::nes::error::RomParseError;
use emurom::nes::header::{
    size_from_shift, ConsoleType, ExtendedConsoleType, Flags10Nes2, Flags11Nes2, Flags12Nes2,
    Flags13Nes2, Flags6, Flags7, Flags8Nes2, Flags9Nes2, HeaderFormat, HeaderParseError,
    InesHeader, RamSize, TimingMode, VsSystemType,
};

/// The 16 header bytes with the signature in front of bytes 4 to 15.
fn header_bytes(rest: [u8; 12]) -> Vec<u8> {
    let mut bytes = vec![0x4E, 0x45, 0x53, 0x1A];
    bytes.extend_from_slice(&rest);
    bytes
}

/// An image: the header, then `body_len` bytes that count up from the offset.
fn image(rest: [u8; 12], body_len: usize) -> Vec<u8> {
    let mut bytes = header_bytes(rest);
    for i in 0..body_len {
        bytes.push(((16 + i) % 251) as u8);
    }
    bytes
}

/// Header of a one-bank mapper 0 image: 16 KiB of PRG ROM, 8 KiB of CHR ROM.
const NESTEST: [u8; 12] = [0x01, 0x01, 0x00, 0x00, 0, 0, 0, 0, 0, 0, 0, 0];

/// NES 2.0 header with 64 KiB of PRG ROM, no CHR ROM and 32 KiB of CHR RAM.
const BIG_CHR_RAM: [u8; 12] = [0x04, 0x00, 0x40, 0x08, 0, 0, 0, 0x09, 0, 0, 0, 0];

/// NES 2.0 header with 256 KiB of PRG ROM, 8 KiB of PRG RAM and of CHR RAM.
const LARGE_MAPPER: [u8; 12] = [0x10, 0x00, 0x20, 0x28, 0x02, 0, 0x07, 0x07, 0, 0, 0, 0];

#[test]
fn test_ines_rom_header() {
    let bytes = image(NESTEST, 16 * 1024 + 8 * 1024);
    let cartridge = Cartridge::load_rom_data(&bytes);

    assert!(cartridge.is_ok());

    let header = &cartridge.unwrap().ines_header;
    assert_eq!(header.format, HeaderFormat::INes, "Header format mismatch");
    assert_eq!(header.prg_rom_size, 16 * 1024, "PRG ROM size mismatch");
    assert_eq!(header.chr_rom_size, 8 * 1024, "CHR ROM size mismatch");
    assert_eq!(header.flags_6.nametable(), false, "Nametable mirroring mismatch");
    assert_eq!(header.flags_6.battery_backed(), false, "Battery backed mismatch");
    assert_eq!(header.flags_6.trainer(), false, "Trainer mismatch");
    assert_eq!(header.has_trainer, false, "Trainer mismatch");
    assert_eq!(header.mapper, 0, "Mapper mismatch");
    assert_eq!(header.submapper, 0, "Submapper mismatch");
}

#[test]
fn test_nes2_rom_header() {
    let bytes = image(BIG_CHR_RAM, 64 * 1024);
    let cartridge = Cartridge::load_rom_data(&bytes);

    assert!(cartridge.is_ok());

    let header = &cartridge.unwrap().ines_header;
    assert_eq!(header.format, HeaderFormat::Nes2, "Header format mismatch");
    assert_eq!(header.prg_rom_size, 64 * 1024, "PRG ROM size mismatch");
    assert_eq!(header.chr_rom_size, 0, "CHR ROM size mismatch");
    assert_eq!(
        header.chr_ram_size,
        RamSize::Nes2 { ram: 32 * 1024, nvram: 0 },
        "CHR RAM size mismatch"
    );
    assert_eq!(header.flags_6.nametable(), false, "Nametable mirroring mismatch");
    assert_eq!(header.flags_6.battery_backed(), false, "Battery backed mismatch");
    assert_eq!(header.flags_6.trainer(), false, "Trainer mismatch");
    // The nibble 4 of byte 6 stands in bits 4 to 7 of the mapper number.
    assert_eq!(header.flags_6.mapper_low(), 4, "Mapper mismatch");
    assert_eq!(header.mapper, 4 << 4, "Mapper mismatch");
    assert_eq!(header.submapper, 0, "Submapper mismatch");

    let bytes = image(LARGE_MAPPER, 256 * 1024);
    let cartridge = Cartridge::load_rom_data(&bytes);

    assert!(cartridge.is_ok());

    let header = &cartridge.unwrap().ines_header;
    assert_eq!(header.format, HeaderFormat::Nes2, "Header format mismatch");
    assert_eq!(header.prg_rom_size, 256 * 1024, "PRG ROM size mismatch");
    assert_eq!(header.chr_rom_size, 0, "CHR ROM size mismatch");
    assert_eq!(
        header.prg_ram_size,
        RamSize::Nes2 { ram: 8 * 1024, nvram: 0 },
        "PRG RAM size mismatch"
    );
    assert_eq!(
        header.chr_ram_size,
        RamSize::Nes2 { ram: 8 * 1024, nvram: 0 },
        "CHR RAM size mismatch"
    );
    assert_eq!(header.flags_6.nametable(), false, "Nametable mirroring mismatch");
    assert_eq!(header.flags_6.battery_backed(), false, "Battery backed mismatch");
    assert_eq!(header.flags_6.trainer(), false, "Trainer mismatch");
    // The nibbles 2 and 2 of bytes 7 and 6 stand in bits 8 to 11 and 4 to 7.
    assert_eq!(header.flags_7.mapper_high(), 2, "Mapper mismatch");
    assert_eq!(header.flags_6.mapper_low(), 2, "Mapper mismatch");
    assert_eq!(header.mapper, (2 << 8) | (2 << 4), "Mapper mismatch");
    assert_eq!(header.submapper, 2, "Submapper mismatch");
}

#[test]
fn test_cartridge_load_data() {
    let bytes = image(NESTEST, 16 * 1024 + 8 * 1024);
    let cartridge = Cartridge::load_rom_data(&bytes);

    assert!(cartridge.is_ok());
    let cartridge = cartridge.unwrap();

    assert_eq!(
        cartridge.prg_rom.len(),
        cartridge.ines_header.prg_rom_size as usize,
        "PRG ROM size mismatch"
    );
    assert_eq!(
        cartridge.chr_rom.len(),
        cartridge.ines_header.chr_rom_size as usize,
        "CHR ROM size mismatch"
    );
    assert_eq!(cartridge.prg_rom.len(), 16384);
    assert_eq!(cartridge.chr_rom.len(), 8192);
    assert_eq!(cartridge.trainer, None);
    assert_eq!(cartridge.misc_rom, None);
    assert_eq!(&cartridge.prg_rom[..], &bytes[16..16 + 16384]);
    assert_eq!(&cartridge.chr_rom[..], &bytes[16 + 16384..]);
}

#[test]
fn nes_short_buffers_are_too_short() {
    let full = header_bytes(NESTEST);
    for len in 0..16 {
        assert_eq!(InesHeader::from_bytes(&full[..len]), Err(HeaderParseError::TooShort));
        assert_eq!(Cartridge::load_rom_data(&full[..len]), Err(RomParseError::HeaderTooShort));
    }
    // Length is tested before the signature.
    assert_eq!(InesHeader::from_bytes(&[0u8; 15]), Err(HeaderParseError::TooShort));
    assert!(InesHeader::from_bytes(&full).is_ok());
}

#[test]
fn wrong_signature_is_invalid_magic() {
    for at in 0..4 {
        let mut bytes = image(NESTEST, 24 * 1024);
        bytes[at] ^= 0x01;
        assert_eq!(InesHeader::from_bytes(&bytes), Err(HeaderParseError::InvalidMagic));
        assert_eq!(Cartridge::load_rom_data(&bytes), Err(RomParseError::HeaderInvalidMagic));
    }
    assert_eq!(InesHeader::from_bytes(&[0u8; 16]), Err(HeaderParseError::InvalidMagic));
    let mut lower_case = header_bytes(NESTEST);
    lower_case[0] = b'n';
    assert_eq!(InesHeader::from_bytes(&lower_case), Err(HeaderParseError::InvalidMagic));
}

#[test]
fn format_selector_alone_picks_the_format() {
    for byte_7 in 0..=255u8 {
        for filler in [0x00u8, 0x5A, 0xFF] {
            let mut rest = [filler; 12];
            rest[3] = byte_7;
            let header = InesHeader::from_bytes(&header_bytes(rest)).unwrap();
            let expected = if (byte_7 >> 2) & 0b11 == 0b10 {
                HeaderFormat::Nes2
            } else {
                HeaderFormat::INes
            };
            assert_eq!(header.format, expected);
        }
    }
}

#[test]
fn nes_decoding_twice_gives_equal_headers() {
    for rest in [NESTEST, BIG_CHR_RAM, LARGE_MAPPER] {
        let bytes = header_bytes(rest);
        assert_eq!(InesHeader::from_bytes(&bytes), InesHeader::from_bytes(&bytes));
    }
    let short = [0x4Eu8, 0x45];
    assert_eq!(InesHeader::from_bytes(&short), InesHeader::from_bytes(&short));
    let bytes = image(NESTEST, 24 * 1024 + 7);
    assert_eq!(Cartridge::load_rom_data(&bytes), Cartridge::load_rom_data(&bytes));
}

#[test]
fn ines_mapper_joins_two_nibbles() {
    // mapper 0x4A: low nibble A in byte 6, high nibble 4 in byte 7
    let header = InesHeader::from_bytes(&header_bytes([1, 1, 0xA0, 0x40, 0, 0, 0, 0, 0, 0, 0, 0]));
    let header = header.unwrap();
    assert_eq!(header.format, HeaderFormat::INes);
    assert_eq!(header.mapper, 0x4A);
    assert_eq!(header.submapper, 0);
}

#[test]
fn ines_mapper_drops_high_nibble_over_trailing_junk() {
    // "DiskDude!" written over bytes 7 to 15
    let rest = [2, 1, 0x10, b'D', b'i', b's', b'k', b'D', b'u', b'd', b'e', b'!'];
    let header = InesHeader::from_bytes(&header_bytes(rest)).unwrap();
    assert_eq!(header.format, HeaderFormat::INes);
    assert_eq!(header.flags_7.mapper_high(), 4);
    assert_eq!(header.mapper, 1);

    // One non-zero byte among the last four is enough.
    for at in 8..12 {
        let mut rest = [1, 1, 0x20, 0x30, 0, 0, 0, 0, 0, 0, 0, 0];
        assert_eq!(InesHeader::from_bytes(&header_bytes(rest)).unwrap().mapper, 0x32);
        rest[at] = 1;
        assert_eq!(InesHeader::from_bytes(&header_bytes(rest)).unwrap().mapper, 0x02);
    }
    // Bytes 8 to 11 do not count.
    let rest = [1, 1, 0x20, 0x30, 9, 9, 9, 9, 0, 0, 0, 0];
    assert_eq!(InesHeader::from_bytes(&header_bytes(rest)).unwrap().mapper, 0x32);
}

#[test]
fn ines_sizes() {
    let header = InesHeader::from_bytes(&header_bytes([255, 255, 0, 0, 0, 0, 0, 0, 0, 0, 0, 0]));
    let header = header.unwrap();
    assert_eq!(header.prg_rom_size, 255 * 16384);
    assert_eq!(header.chr_rom_size, 255 * 8192);
    assert_eq!(header.prg_ram_size, RamSize::Ines(8192));
    assert_eq!(header.chr_ram_size, RamSize::Ines(0));

    let header = InesHeader::from_bytes(&header_bytes([2, 0, 0, 0, 3, 0, 0, 0, 0, 0, 0, 0]));
    let header = header.unwrap();
    assert_eq!(header.prg_rom_size, 32768);
    assert_eq!(header.chr_rom_size, 0);
    assert_eq!(header.prg_ram_size, RamSize::Ines(3 * 8192));
    assert_eq!(header.chr_ram_size, RamSize::Ines(8192));

    let header = InesHeader::from_bytes(&header_bytes([0, 1, 0, 0, 255, 0, 0, 0, 0, 0, 0, 0]));
    assert_eq!(header.unwrap().prg_ram_size, RamSize::Ines(255 * 8192));
}

#[test]
fn nes2_sizes_use_the_high_nibbles() {
    // byte 9 = 0xA3: PRG chunks 0x3_21, CHR chunks 0xA_43
    let rest = [0x21, 0x43, 0, 0x08, 0, 0xA3, 0, 0, 0, 0, 0, 0];
    let header = InesHeader::from_bytes(&header_bytes(rest)).unwrap();
    assert_eq!(header.format, HeaderFormat::Nes2);
    assert_eq!(header.prg_rom_size, 0x321 * 16384);
    assert_eq!(header.chr_rom_size, 0xA43 * 8192);

    let rest = [0xFF, 0xFF, 0, 0x08, 0, 0xFF, 0, 0, 0, 0, 0, 0];
    let header = InesHeader::from_bytes(&header_bytes(rest)).unwrap();
    assert_eq!(header.prg_rom_size, 4095 * 16384);
    assert_eq!(header.chr_rom_size, 4095 * 8192);
}

#[test]
fn nes2_mapper_and_submapper() {
    // byte 8 = 0xC5: submapper 5, top nibble C; byte 7 = 0xB8; byte 6 = 0xA0
    let rest = [1, 1, 0xA0, 0xB8, 0xC5, 0, 0, 0, 0, 0, 0, 0];
    let header = InesHeader::from_bytes(&header_bytes(rest)).unwrap();
    assert_eq!(header.mapper, 0xCBA0);
    assert_eq!(header.submapper, 5);

    // Trailing bytes do not touch the NES 2.0 mapper number.
    let rest = [1, 1, 0xA0, 0xB8, 0xC5, 0, 0, 0, 1, 2, 3, 4];
    assert_eq!(InesHeader::from_bytes(&header_bytes(rest)).unwrap().mapper, 0xCBA0);

    let rest = [1, 1, 0xF0, 0xF8, 0xFF, 0, 0, 0, 0, 0, 0, 0];
    let header = InesHeader::from_bytes(&header_bytes(rest)).unwrap();
    assert_eq!(header.mapper, 0xFFF0);
    assert_eq!(header.submapper, 15);
}

#[test]
fn nes2_ram_sizes_follow_the_shift_counts() {
    // byte 10 = 0x71: PRG RAM shift 1, PRG NVRAM shift 7
    // byte 11 = 0x0F: CHR RAM shift 15, no CHR NVRAM
    let rest = [1, 1, 0, 0x08, 0, 0, 0x71, 0x0F, 0, 0, 0, 0];
    let header = InesHeader::from_bytes(&header_bytes(rest)).unwrap();
    assert_eq!(header.prg_ram_size, RamSize::Nes2 { ram: 128, nvram: 8192 });
    assert_eq!(header.chr_ram_size, RamSize::Nes2 { ram: 2_097_152, nvram: 0 });
    assert_eq!(header.flags_10.prg_ram_shift(), 1);
    assert_eq!(header.flags_10.prg_nvram_shift(), 7);
    assert_eq!(header.flags_11.chr_ram_shift(), 15);
    assert_eq!(header.flags_11.chr_nvram_shift(), 0);
}

#[test]
fn size_from_shift_values() {
    assert_eq!(size_from_shift(0), 0);
    assert_eq!(size_from_shift(1), 128);
    assert_eq!(size_from_shift(7), 8192);
    assert_eq!(size_from_shift(9), 32768);
    assert_eq!(size_from_shift(15), 2_097_152);
    for shift in 1..16u8 {
        assert_eq!(size_from_shift(shift), 64u32 << shift);
    }
}

#[test]
fn header_keeps_the_flag_bytes() {
    let rest = [1, 1, 0x5F, 0x09, 0x12, 0x34, 0x56, 0x78, 0x02, 0x9A, 0, 0];
    let header = InesHeader::from_bytes(&header_bytes(rest)).unwrap();
    assert_eq!(header.flags_6, Flags6::from_bits(0x5F));
    assert_eq!(header.flags_7, Flags7::from_bits(0x09));
    assert_eq!(header.flags_9, Flags9Nes2::from_bits(0x34));
    assert_eq!(header.flags_10, Flags10Nes2::from_bits(0x56));
    assert_eq!(header.flags_11, Flags11Nes2::from_bits(0x78));
    assert_eq!(header.flags_12, Flags12Nes2::from_bits(0x02));
    assert_eq!(header.flags_12.timing_mode(), TimingMode::MultipleRegions);
    assert_eq!(header.flags_13, Flags13Nes2::VsSystem(VsSystemType::from_bits(0x9A)));
    assert!(header.has_trainer);
    assert!(header.flags_6.nametable());
    assert!(header.flags_6.battery_backed());
    assert!(header.flags_6.alternative_nametable());
}

#[test]
fn byte_13_is_read_under_the_console_type() {
    let flags = Flags13Nes2::from_bits(0x9A, Flags7::from_bits(0x01));
    match flags {
        Flags13Nes2::VsSystem(vs) => {
            assert_eq!(vs.ppu_type(), 0xA);
            assert_eq!(vs.hardware_type(), 0x9);
        }
        _ => panic!("expected a Vs. System byte"),
    }
    assert_eq!(flags.into_bits(), 0x9A);

    let flags = Flags13Nes2::from_bits(0x9A, Flags7::from_bits(0xFF));
    match flags {
        Flags13Nes2::ExtendedConsole(ec) => assert_eq!(ec.extended_console_type(), 0xA),
        _ => panic!("expected an extended console byte"),
    }
    assert_eq!(flags.into_bits(), 0x9A);

    assert_eq!(
        Flags13Nes2::from_bits(0x9A, Flags7::from_bits(0x00)),
        Flags13Nes2::UnusedForConsoleType(0x9A)
    );
    assert_eq!(
        Flags13Nes2::from_bits(0x9A, Flags7::from_bits(0xFE)),
        Flags13Nes2::UnusedForConsoleType(0x9A)
    );
    assert_eq!(Flags13Nes2::UnusedForConsoleType(0x9A).into_bits(), 0x9A);
}

#[test]
fn timing_mode_codes() {
    assert_eq!(TimingMode::from_bits(0), TimingMode::NTSC);
    assert_eq!(TimingMode::from_bits(1), TimingMode::PAL);
    assert_eq!(TimingMode::from_bits(2), TimingMode::MultipleRegions);
    assert_eq!(TimingMode::from_bits(3), TimingMode::Dendy);
    assert_eq!(TimingMode::from_bits(0xFD), TimingMode::PAL);
    for value in 0..=255u8 {
        assert_eq!(TimingMode::from_bits(value).into_bits(), value % 4);
    }
}

#[test]
fn console_type_codes() {
    assert_eq!(ConsoleType::from_bits(0), ConsoleType::NES);
    assert_eq!(ConsoleType::from_bits(1), ConsoleType::VsSystem);
    assert_eq!(ConsoleType::from_bits(2), ConsoleType::PlayChoice10);
    assert_eq!(ConsoleType::from_bits(3), ConsoleType::ExtendedConsole);
    assert_eq!(ConsoleType::from_bits(0xFE), ConsoleType::PlayChoice10);
    for value in 0..=255u8 {
        assert_eq!(ConsoleType::from_bits(value).into_bits(), value % 4);
    }
}

#[test]
fn flag_bytes_read_their_fields() {
    let flags = Flags6::from_bits(0b1011_0110);
    assert_eq!(flags.nametable(), false);
    assert_eq!(flags.battery_backed(), true);
    assert_eq!(flags.trainer(), true);
    assert_eq!(flags.alternative_nametable(), false);
    assert_eq!(flags.mapper_low(), 0b1011);
    assert_eq!(flags.into_bits(), 0b1011_0110);

    let flags = Flags7::from_bits(0b1100_1001);
    assert_eq!(flags.console(), ConsoleType::VsSystem);
    assert_eq!(flags.format(), 0b10);
    assert_eq!(flags.mapper_high(), 0b1100);

    let flags = Flags8Nes2::from_bits(0x3C);
    assert_eq!(flags.submapper(), 0xC);
    assert_eq!(flags.mapper_high2(), 0x3);

    let flags = Flags9Nes2::from_bits(0x3C);
    assert_eq!(flags.prg_rom_msb(), 0xC);
    assert_eq!(flags.chr_rom_msb(), 0x3);

    let flags = Flags10Nes2::from_bits(0x3C);
    assert_eq!(flags.prg_ram_shift(), 0xC);
    assert_eq!(flags.prg_nvram_shift(), 0x3);

    let flags = Flags11Nes2::from_bits(0x3C);
    assert_eq!(flags.chr_ram_shift(), 0xC);
    assert_eq!(flags.chr_nvram_shift(), 0x3);

    let flags = Flags12Nes2::from_bits(0xFF);
    assert_eq!(flags.timing_mode(), TimingMode::Dendy);

    let flags = VsSystemType::from_bits(0x3C);
    assert_eq!(flags.ppu_type(), 0xC);
    assert_eq!(flags.hardware_type(), 0x3);

    let flags = ExtendedConsoleType::from_bits(0x3C);
    assert_eq!(flags.extended_console_type(), 0xC);
}

#[test]
fn flag_bytes_are_built_field_by_field() {
    let flags = Flags6::new()
        .with_nametable(true)
        .with_trainer(true)
        .with_mapper_low(0xB);
    assert_eq!(flags.into_bits(), 0b1011_0101);
    assert_eq!(flags.with_trainer(false).into_bits(), 0b1011_0001);
    assert_eq!(Flags6::default(), Flags6::new());
    assert_eq!(Flags6::new().into_bits(), 0);

    let flags = Flags7::new()
        .with_console(ConsoleType::ExtendedConsole)
        .with_format(2)
        .with_mapper_high(0x4);
    assert_eq!(flags.into_bits(), 0x4B);

    let mut flags = Flags8Nes2::from_bits(0xFF);
    flags.set_submapper(0);
    assert_eq!(flags.into_bits(), 0xF0);
    flags.set_mapper_high2(0x5);
    assert_eq!(flags.into_bits(), 0x50);

    let mut flags = Flags12Nes2::from_bits(0xFC);
    flags.set_timing_mode(TimingMode::PAL);
    assert_eq!(flags.into_bits(), 0xFD);
    assert_eq!(flags.timing_mode(), TimingMode::PAL);

    let flags = VsSystemType::new().with_ppu_type(0xA).with_hardware_type(0x9);
    assert_eq!(flags.into_bits(), 0x9A);
    let flags = ExtendedConsoleType::from_bits(0xF0).with_extended_console_type(0x3);
    assert_eq!(flags.into_bits(), 0xF3);
    let flags = Flags9Nes2::new().with_prg_rom_msb(1).with_chr_rom_msb(2);
    assert_eq!(flags.into_bits(), 0x21);
    let flags = Flags10Nes2::new().with_prg_ram_shift(7).with_prg_nvram_shift(9);
    assert_eq!(flags.into_bits(), 0x97);
    let flags = Flags11Nes2::new().with_chr_ram_shift(15).with_chr_nvram_shift(1);
    assert_eq!(flags.into_bits(), 0x1F);
}

#[test]
fn trainer_is_cut_out_before_the_prg_rom() {
    // byte 6 = 0x04: trainer present
    let rest = [1, 1, 0x04, 0, 0, 0, 0, 0, 0, 0, 0, 0];
    let bytes = image(rest, 512 + 16384 + 8192);
    let cartridge = Cartridge::load_rom_data(&bytes).unwrap();
    assert!(cartridge.ines_header.has_trainer);
    assert_eq!(cartridge.trainer.as_deref(), Some(&bytes[16..528]));
    assert_eq!(&cartridge.prg_rom[..], &bytes[528..528 + 16384]);
    assert_eq!(&cartridge.chr_rom[..], &bytes[528 + 16384..528 + 16384 + 8192]);
    assert_eq!(cartridge.misc_rom, None);
}

#[test]
fn trailing_bytes_become_misc_rom() {
    let bytes = image(NESTEST, 16384 + 8192 + 3);
    let cartridge = Cartridge::load_rom_data(&bytes).unwrap();
    assert_eq!(cartridge.misc_rom.as_deref(), Some(&bytes[16 + 16384 + 8192..]));
    assert_eq!(cartridge.misc_rom.unwrap().len(), 3);

    let bytes = image(NESTEST, 16384 + 8192 + 1);
    let cartridge = Cartridge::load_rom_data(&bytes).unwrap();
    assert_eq!(cartridge.misc_rom, Some(vec![bytes[bytes.len() - 1]]));
}

#[test]
fn image_that_ends_early_has_invalid_rom_size() {
    let bytes = image(NESTEST, 16384 + 8192 - 1);
    assert_eq!(Cartridge::load_rom_data(&bytes), Err(RomParseError::InvalidRomSize));
    let bytes = image(NESTEST, 16384 - 1);
    assert_eq!(Cartridge::load_rom_data(&bytes), Err(RomParseError::InvalidRomSize));
    let bytes = image(NESTEST, 0);
    assert_eq!(Cartridge::load_rom_data(&bytes), Err(RomParseError::InvalidRomSize));

    let with_trainer = [0, 0, 0x04, 0, 0, 0, 0, 0, 0, 0, 0, 0];
    let bytes = image(with_trainer, 511);
    assert_eq!(Cartridge::load_rom_data(&bytes), Err(RomParseError::InvalidRomSize));
    let bytes = image(with_trainer, 512);
    let cartridge = Cartridge::load_rom_data(&bytes).unwrap();
    assert_eq!(cartridge.trainer.as_deref(), Some(&bytes[16..]));
    assert!(cartridge.prg_rom.is_empty());
    assert!(cartridge.chr_rom.is_empty());
}

#[test]
fn header_alone_is_an_image_without_rom() {
    let rest = [0, 0, 0, 0, 0, 0, 0, 0, 0, 0, 0, 0];
    let cartridge = Cartridge::load_rom_data(&header_bytes(rest)).unwrap();
    assert_eq!(cartridge.trainer, None);
    assert!(cartridge.prg_rom.is_empty());
    assert!(cartridge.chr_rom.is_empty());
    assert_eq!(cartridge.misc_rom, None);
}

#[test]
fn segments_are_extracted_one_by_one() {
    let rest = [1, 1, 0x04, 0, 0, 0, 0, 0, 0, 0, 0, 0];
    let bytes = image(rest, 512 + 16384 + 8192 + 5);
    let header = InesHeader::from_bytes(&bytes).unwrap();

    let trainer = Cartridge::extract_trainer(&bytes, &header);
    assert_eq!(trainer, Ok(Some(bytes[16..528].to_vec())));
    assert_eq!(
        Cartridge::extract_trainer(&bytes[..527], &header),
        Err(RomParseError::InvalidRomSize)
    );

    let (prg_rom, chr_rom) = Cartridge::extract_prg_chr(&bytes, &header).unwrap();
    assert_eq!(prg_rom, bytes[528..528 + 16384].to_vec());
    assert_eq!(chr_rom, bytes[528 + 16384..528 + 24576].to_vec());
    assert_eq!(
        Cartridge::extract_prg_chr(&bytes[..528 + 24575], &header),
        Err(RomParseError::InvalidRomSize)
    );
    assert!(Cartridge::extract_prg_chr(&bytes[..528 + 24576], &header).is_ok());

    assert_eq!(Cartridge::extract_misc(&bytes, &header), Some(bytes[528 + 24576..].to_vec()));
    assert_eq!(Cartridge::extract_misc(&bytes[..528 + 24576], &header), None);
    assert_eq!(Cartridge::extract_misc(&bytes[..100], &header), None);

    let plain = InesHeader::from_bytes(&header_bytes(NESTEST)).unwrap();
    assert_eq!(Cartridge::extract_trainer(&bytes[..16], &plain), Ok(None));

    let whole = Cartridge::assemble(header, &bytes).unwrap();
    assert_eq!(Ok(whole), Cartridge::load_rom_data(&bytes));
}

#[test]
fn sizes_past_the_image_do_not_overflow() {
    let mut header = InesHeader::from_bytes(&header_bytes(NESTEST)).unwrap();
    header.prg_rom_size = u32::MAX;
    header.chr_rom_size = u32::MAX;
    let bytes = image(NESTEST, 64);
    assert_eq!(Cartridge::extract_prg_chr(&bytes, &header), Err(RomParseError::InvalidRomSize));
    assert_eq!(Cartridge::extract_misc(&bytes, &header), None);
    assert_eq!(Cartridge::assemble(header, &bytes), Err(RomParseError::InvalidRomSize));
}

#[test]
fn nes_errors_read_as_sentences() {
    assert_eq!(HeaderParseError::TooShort.message(), "header too short");
    assert_eq!(HeaderParseError::InvalidMagic.message(), "invalid NES header magic");
    assert_eq!(RomParseError::HeaderTooShort.message(), "header too short");
    assert_eq!(RomParseError::HeaderInvalidMagic.message(), "invalid NES header magic");
    assert_eq!(
        RomParseError::InvalidRomSize.message(),
        "invalid ROM size, inconsistent with header"
    );
    assert_eq!(RomParseError::from(HeaderParseError::TooShort), RomParseError::HeaderTooShort);
    assert_eq!(
        RomParseError::from(HeaderParseError::InvalidMagic),
        RomParseError::HeaderInvalidMagic
    );
}
