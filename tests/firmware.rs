use bouffalo_firmware::{
    BootHeaderError, BuilderError, ByteReader, ClockConfig, ClockConfigError, Cpu, Firmware,
    FlashConfig, ParseError, UnexpectedEof, DEFAULT_ENTRY_POINT, HEADER_LEN,
};

const HASH: [u8; 32] = [
    0xDD, 0x11, 0x42, 0x8A, 0x2A, 0x77, 0x9F, 0xFA, 0xCD, 0xB8, 0xBC, 0xEF, 0x9C, 0xB6, 0x4C, 0xA3,
    0x0F, 0x15, 0xAC, 0x19, 0xF5, 0x0E, 0xF3, 0x64, 0x50, 0x3E, 0xB3, 0xE5, 0x0E, 0x00, 0x00, 0x00,
];

/// A 176-byte boot header with known field values.
fn reference_header() -> Vec<u8> {
    let mut h = Vec::new();
    h.extend_from_slice(b"BFNP");
    h.extend_from_slice(&1u32.to_le_bytes());
    // Flash configuration region: its own magic, then filler.
    h.extend_from_slice(b"FCFG");
    h.extend((0..88u32).map(|i| (i * 7 + 3) as u8));
    // Clock configuration block.
    h.extend_from_slice(b"PCFG");
    h.extend_from_slice(&[1, 4, 0, 1, 3, 222]);
    h.extend_from_slice(&[0, 0]);
    h.extend_from_slice(&0x6465_6667u32.to_le_bytes());
    h.extend_from_slice(&256u32.to_le_bytes());
    h.extend_from_slice(&0u32.to_le_bytes());
    h.extend_from_slice(&0x0100_0000u32.to_le_bytes());
    h.extend_from_slice(&0x9670_3322u32.to_le_bytes());
    h.extend_from_slice(&HASH);
    h.extend_from_slice(&[0xEE; 8]);
    h.extend_from_slice(&0x0100_0098u32.to_le_bytes());
    assert_eq!(h.len(), 176);
    h
}

fn parse(bytes: Vec<u8>) -> Result<Firmware, ParseError> {
    let mut reader = ByteReader::new(bytes);
    Firmware::from_reader(&mut reader)
}

#[test]
fn it_should_read_clock_config() {
    let reference = reference_header();
    let mut cursor = ByteReader::new(reference[0x64..0x74].to_vec());
    let clock_config = ClockConfig::from_reader(&mut cursor).unwrap();

    assert_eq!(clock_config.xtal_type, 1);
    assert_eq!(clock_config.flash_clock_divider, 222);
}

#[test]
fn it_should_read_firmware() {
    let hash: [u8; 32] = HASH;
    let mut cursor = ByteReader::new(reference_header());
    let firmware = Firmware::from_reader(&mut cursor).unwrap();

    assert_eq!(firmware.cpu, Cpu::Cpu0);
    assert_eq!(firmware.revision, 1);
    assert_eq!(firmware.boot_config, 256);
    assert_eq!(firmware.image_segment_info, 0);
    assert_eq!(firmware.entry_point, 0x1000000);
    assert_eq!(firmware.image_start, 0x96703322);
    assert_eq!(firmware.hash, hash);
    assert_eq!(firmware.crc32, 0x1000098);
}

#[test]
fn reads_every_clock_config_field() {
    let reference = reference_header();
    let mut reader = ByteReader::new(reference[0x64..0x74].to_vec());
    let c = ClockConfig::from_reader(&mut reader).unwrap();
    assert_eq!(c.xtal_type, 1);
    assert_eq!(c.pll_clock, 4);
    assert_eq!(c.hclk_divider, 0);
    assert_eq!(c.bclk_divider, 1);
    assert_eq!(c.flash_clock_type, 3);
    assert_eq!(c.flash_clock_divider, 222);
    assert_eq!(c.crc32, 0x6465_6667);
    assert_eq!(reader.position(), 16);
}

#[test]
fn parse_leaves_flash_config_zero_and_reads_clock_config() {
    let mut reader = ByteReader::new(reference_header());
    let f = Firmware::from_reader(&mut reader).unwrap();
    assert_eq!(f.flash_config, FlashConfig::default());
    assert_eq!(f.clock_config.xtal_type, 1);
    assert_eq!(f.clock_config.crc32, 0x6465_6667);
    assert_eq!(reader.position(), HEADER_LEN);
}

#[test]
fn magic_bytes_round_trip() {
    assert_eq!(Cpu::Cpu0.to_magic_bytes(), *b"BFNP");
    assert_eq!(Cpu::Cpu1.to_magic_bytes(), *b"BFAP");
    for cpu in [Cpu::Cpu0, Cpu::Cpu1] {
        assert_eq!(Cpu::from_magic_bytes(cpu.to_magic_bytes()), Ok(cpu));
    }
    assert_eq!(Cpu::from_magic_bytes(*b"BFNP"), Ok(Cpu::Cpu0));
    assert_eq!(Cpu::from_magic_bytes(*b"BFAP"), Ok(Cpu::Cpu1));
    assert_eq!(
        Cpu::from_magic_bytes(*b"BFXP"),
        Err(BootHeaderError::InvalidMagicHeader(*b"BFXP"))
    );
}

#[test]
fn default_cpu_is_cpu0() {
    assert_eq!(Cpu::default(), Cpu::Cpu0);
}

#[test]
fn parses_application_core_header() {
    let mut bytes = reference_header();
    bytes[..4].copy_from_slice(b"BFAP");
    assert_eq!(parse(bytes).unwrap().cpu, Cpu::Cpu1);
}

#[test]
fn rejects_unknown_magic_with_its_bytes() {
    let mut bytes = reference_header();
    bytes[..4].copy_from_slice(&[0, 1, 2, 3]);
    assert_eq!(
        parse(bytes),
        Err(ParseError::BootHeaderError(BootHeaderError::InvalidMagicHeader([0, 1, 2, 3])))
    );
    assert_eq!(
        parse(b"PCFG".to_vec()),
        Err(ParseError::BootHeaderError(BootHeaderError::InvalidMagicHeader(*b"PCFG")))
    );
}

#[test]
fn short_buffers_fail_where_the_data_ends() {
    let full = reference_header();
    let eof = |position: usize, wanted: usize| {
        Err(ParseError::IoError(UnexpectedEof { position, wanted }))
    };
    assert_eq!(parse(Vec::new()), eof(0, 4));
    assert_eq!(parse(full[..3].to_vec()), eof(0, 4));
    assert_eq!(parse(full[..4].to_vec()), eof(4, 4));
    assert_eq!(parse(full[..50].to_vec()), eof(8, 92));
    assert_eq!(parse(full[..100].to_vec()), eof(100, 4));
    assert_eq!(parse(full[..104].to_vec()), eof(104, 1));
    assert_eq!(parse(full[..109].to_vec()), eof(109, 1));
    assert_eq!(parse(full[..111].to_vec()), eof(110, 2));
    assert_eq!(parse(full[..115].to_vec()), eof(112, 4));
    assert_eq!(parse(full[..125].to_vec()), eof(124, 4));
    assert_eq!(parse(full[..140].to_vec()), eof(132, 32));
    assert_eq!(parse(full[..170].to_vec()), eof(164, 8));
    assert_eq!(parse(full[..175].to_vec()), eof(172, 4));
    for len in 0..176 {
        assert!(matches!(parse(full[..len].to_vec()), Err(ParseError::IoError(_))));
    }
}

#[test]
fn clock_config_magic_is_checked_when_strict() {
    let mut bytes = reference_header();
    bytes[100..104].copy_from_slice(&[0, 0, 0, 0]);
    assert_eq!(
        parse(bytes.clone()),
        Err(ParseError::ClockConfigError(ClockConfigError::InvalidMagicHeader([0, 0, 0, 0])))
    );
    let mut reader = ByteReader::new(bytes);
    let f = Firmware::from_reader_with(&mut reader, false).unwrap();
    assert_eq!(f.clock_config.flash_clock_divider, 222);
    assert_eq!(f.crc32, 0x0100_0098);
}

#[test]
fn clock_config_relaxed_magic_accepts_zero_magic() {
    let mut block = reference_header()[0x64..0x74].to_vec();
    block[..4].copy_from_slice(&[0, 0, 0, 0]);
    let mut strict = ByteReader::new(block.clone());
    assert_eq!(
        ClockConfig::from_reader(&mut strict),
        Err(ParseError::ClockConfigError(ClockConfigError::InvalidMagicHeader([0, 0, 0, 0])))
    );
    let mut relaxed = ByteReader::new(block);
    assert_eq!(ClockConfig::from_reader_with(&mut relaxed, false).unwrap().xtal_type, 1);
}

#[test]
fn clock_config_short_block_fails() {
    let block = reference_header()[0x64..0x72].to_vec();
    let mut reader = ByteReader::new(block);
    assert_eq!(
        ClockConfig::from_reader(&mut reader),
        Err(ParseError::IoError(UnexpectedEof { position: 12, wanted: 4 }))
    );
}

#[test]
fn parses_header_at_an_offset() {
    let mut bytes = vec![0xAB; 10];
    bytes.extend(reference_header());
    let mut reader = ByteReader::new(bytes);
    reader.skip(10).unwrap();
    let f = Firmware::from_reader(&mut reader).unwrap();
    assert_eq!(f.image_start, 0x9670_3322);
    assert_eq!(reader.position(), 10 + HEADER_LEN);
}

#[test]
fn flash_config_parse_reads_nothing() {
    let mut reader = ByteReader::new(vec![0xFF; 200]);
    reader.skip(8).unwrap();
    let c = FlashConfig::from_reader(&mut reader).unwrap();
    assert_eq!(c, FlashConfig::default());
    assert_eq!(c.io_mode, 0);
    assert_eq!(c.read_reg_cmd_buffer, [0; 4]);
    assert_eq!(reader.position(), 8);
}

#[test]
fn defaults_are_zero() {
    let c = ClockConfig::default();
    assert_eq!(
        (c.xtal_type, c.pll_clock, c.hclk_divider, c.bclk_divider),
        (0, 0, 0, 0)
    );
    assert_eq!((c.flash_clock_type, c.flash_clock_divider, c.crc32), (0, 0, 0));
    let f = FlashConfig::default();
    assert_eq!(f.page_size, 0);
    assert_eq!(f.chip_erase_time, 0);
    assert_eq!(f.write_reg_cmd_buffer, [0; 4]);
}

#[test]
fn build_without_flash_config_fails() {
    assert_eq!(Firmware::builder().build(), Err(BuilderError::MissingFlashConfig));
    assert_eq!(
        Firmware::builder().entry_point(0x2300_0000).build(),
        Err(BuilderError::MissingFlashConfig)
    );
}

#[test]
fn build_uses_default_entry_point() {
    let mut flash = FlashConfig::default();
    flash.jedec_id_cmd = 0x9F;
    let f = Firmware::builder().flash_config(flash).build().unwrap();
    assert_eq!(f.entry_point, 0x2100_0000);
    assert_eq!(f.entry_point, DEFAULT_ENTRY_POINT);
    assert_eq!(f.cpu, Cpu::Cpu0);
    assert_eq!(f.revision, 1);
    assert_eq!(f.flash_config, flash);
    assert_eq!(f.clock_config, ClockConfig::default());
    assert_eq!(f.boot_config, 0);
    assert_eq!(f.image_segment_info, 0);
    assert_eq!(f.image_start, 0);
    assert_eq!(f.hash, [0; 32]);
    assert_eq!(f.crc32, 0);
}

#[test]
fn build_keeps_entry_point_and_last_setting() {
    let mut flash = FlashConfig::default();
    flash.page_size = 256;
    let f = Firmware::builder()
        .entry_point(0x2200_0000)
        .flash_config(FlashConfig::default())
        .flash_config(flash)
        .entry_point(0x2300_0000)
        .build()
        .unwrap();
    assert_eq!(f.entry_point, 0x2300_0000);
    assert_eq!(f.flash_config.page_size, 256);
}

#[test]
fn reader_reads_little_endian_and_refuses_to_overrun() {
    let mut reader = ByteReader::new(vec![0x01, 0x02, 0x03, 0x04, 0x05]);
    assert_eq!(reader.read_u32_le(), Ok(0x0403_0201));
    assert_eq!(reader.remaining(), 1);
    assert_eq!(reader.read_u32_le(), Err(UnexpectedEof { position: 4, wanted: 4 }));
    assert_eq!(reader.skip(2), Err(UnexpectedEof { position: 4, wanted: 2 }));
    assert_eq!(reader.position(), 4);
    assert_eq!(reader.read_u8(), Ok(0x05));
    assert_eq!(reader.read_u8(), Err(UnexpectedEof { position: 5, wanted: 1 }));
    assert_eq!(reader.read_array::<0>(), Ok([]));
}
