//! Codec for the boot header that sits at the front of a Bouffalo Lab
//! firmware image: parsing a header from bytes, and building a minimal one
//! from defaults.

mod builder;
mod clock;
mod cpu;
mod error;
mod firmware;
mod flash;
mod reader;

pub use builder::{FirmwareBuilder, DEFAULT_ENTRY_POINT};
pub use clock::{
    clock_field_size, clock_field_start, clock_magic_accepted, clock_result, pcfg_magic,
    ClockConfig, CLOCK_CONFIG_BLOCK_LEN, CLOCK_CONFIG_STRUCT_SIZE,
};
pub use cpu::{
    cpu0_magic, cpu1_magic, cpu_of_magic, lemma_cpu_of_magic_of, lemma_magic_of_cpu_of, magic_of,
    Cpu,
};
pub use error::{BootHeaderError, BuilderError, ClockConfigError, ParseError};
pub use firmware::{
    header_field_size, header_field_start, header_magic_ok, header_result, lemma_bad_magic_fails,
    lemma_short_header_fails, Firmware,
    BOOT_HEADER_STRUCT_SIZE, FLASH_CONFIG_REGION_LEN, HEADER_LEN,
};
pub use flash::{FlashConfig, FLASH_CONFIG_STRUCT_SIZE};
pub use reader::{le_u32, ByteReader, UnexpectedEof};
