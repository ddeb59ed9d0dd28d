//! The SPI flash configuration block: interface mode, command opcodes,
//! register layout and timings of the flash part.

use crate::error::ParseError;
use crate::reader::ByteReader;
use vstd::prelude::*;

verus! {

/// The size of the flash configuration fields, excluding the magic header
/// and the checksum.
///
/// The boot header sets aside a larger region for this block (see
/// `FLASH_CONFIG_REGION_LEN`); which of the two sizes the vendor layout
/// really has is not settled, so both are kept as they are.
pub const FLASH_CONFIG_STRUCT_SIZE: usize = 84;

/// SPI flash parameters.
#[derive(Debug, Clone, Copy, PartialEq, Eq)]
pub struct FlashConfig {
    /// Serial flash interface mode: bits 0-3 the interface mode, bit 4 unwrap.
    pub io_mode: u8,
    /// Continuous read mode: bit 0 supported, bit 1 read mode configuration.
    pub continuous_read_support: u8,
    /// SPI clock delay: bits 0-3 the delay, bits 4-6 the pad delay.
    pub clock_delay: u8,
    /// SPI clock phase invert: bit 0 clock invert, bit 1 rx invert, bits 2-7 pad delays.
    pub clock_invert: u8,
    /// Flash enable reset command.
    pub reset_enable_cmd: u8,
    /// Flash reset command.
    pub reset_cmd: u8,
    /// Flash reset continuous read command.
    pub reset_continuous_read_cmd: u8,
    /// Flash reset continuous read command size.
    pub reset_continuous_read_cmd_size: u8,
    /// JEDEC ID command.
    pub jedec_id_cmd: u8,
    /// JEDEC ID command dummy clock.
    pub jedec_id_cmd_dummy_clock: u8,
    /// QPI JEDEC ID command.
    pub qpi_jedec_id_cmd: u8,
    /// QPI JEDEC ID command dummy clock.
    pub qpi_jedec_id_cmd_dummy_clock: u8,
    /// Sector size, in units of 1024 bytes.
    pub sector_size: u8,
    /// Manufacturer ID.
    pub manufacturer_id: u8,
    /// Page size.
    pub page_size: u16,
    /// Chip erase command.
    pub chip_erase_cmd: u8,
    /// Sector erase command.
    pub sector_erase_cmd: u8,
    /// Block 32K erase command; some Micron parts lack it.
    pub block_erase_32k_cmd: u8,
    /// Block 64K erase command.
    pub block_erase_64k_cmd: u8,
    /// Write enable command, needed before every erase or program.
    pub write_enable_cmd: u8,
    /// Page program command.
    pub page_program_cmd: u8,
    /// QIO page program command.
    pub qio_page_program_cmd: u8,
    /// QIO page program address mode.
    pub qio_page_program_address_mode: u8,
    /// Fast read command.
    pub fast_read_cmd: u8,
    /// Fast read command dummy clock.
    pub fast_read_cmd_dummy_clock: u8,
    /// QPI fast read command.
    pub qpi_fast_read_cmd: u8,
    /// QPI fast read command dummy clock.
    pub qpi_fast_read_cmd_dummy_clock: u8,
    /// Fast read dual output command.
    pub fast_read_dual_output_cmd: u8,
    /// Fast read dual output command dummy clock.
    pub fast_read_dual_output_cmd_dummy_clock: u8,
    /// Fast read dual IO command.
    pub fast_read_dual_io_cmd: u8,
    /// Fast read dual IO command dummy clock.
    pub fast_read_dual_io_cmd_dummy_clock: u8,
    /// Fast read quad output command.
    pub fast_read_quad_output_cmd: u8,
    /// Fast read quad output command dummy clock.
    pub fast_read_quad_output_cmd_dummy_clock: u8,
    /// Fast read quad IO command.
    pub fast_read_quad_io_cmd: u8,
    /// Fast read quad IO command dummy clock.
    pub fast_read_quad_io_cmd_dummy_clock: u8,
    /// QPI fast read quad IO command.
    pub qpi_fast_read_quad_io_cmd: u8,
    /// QPI fast read quad IO dummy clock.
    pub qpi_fast_read_quad_io_cmd_dummy_clock: u8,
    /// QPI program command.
    pub qpi_program_cmd: u8,
    /// Volatile register write enable command.
    pub volatile_register_write_enable_cmd: u8,
    /// Write enable register index.
    pub write_enable_reg_index: u8,
    /// Quad mode enable register index.
    pub quad_mode_enable_reg_index: u8,
    /// Busy status register index.
    pub busy_status_reg_index: u8,
    /// Write enable bit position.
    pub write_enable_bit_pos: u8,
    /// Quad enable bit position.
    pub quad_enable_bit_pos: u8,
    /// Busy status bit position.
    pub busy_status_bit_pos: u8,
    /// Register length for writing write enable.
    pub write_enable_reg_write_len: u8,
    /// Register length for reading write enable status.
    pub write_enable_reg_read_len: u8,
    /// Register length for writing quad enable.
    pub quad_enable_reg_write_len: u8,
    /// Register length for reading quad enable status.
    pub quad_enable_reg_read_len: u8,
    /// Release power down command.
    pub release_power_down_cmd: u8,
    /// Register length for reading busy status.
    pub busy_status_reg_read_len: u8,
    /// Read register command buffer.
    pub read_reg_cmd_buffer: [u8; 4],
    /// Write register command buffer.
    pub write_reg_cmd_buffer: [u8; 4],
    /// Enter QPI command.
    pub enter_qpi_cmd: u8,
    /// Exit QPI command.
    pub exit_qpi_cmd: u8,
    /// Configuration data for continuous read mode.
    pub continuous_read_mode_cfg: u8,
    /// Configuration data for leaving continuous read mode.
    pub continuous_read_mode_exit_cfg: u8,
    /// Enable burst wrap command.
    pub enable_burst_wrap_cmd: u8,
    /// Enable burst wrap command dummy clock.
    pub enable_burst_wrap_cmd_dummy_clock: u8,
    /// Data and address mode of the enable burst wrap command.
    pub burst_wrap_data_mode: u8,
    /// Data that enables burst wrap.
    pub burst_wrap_data: u8,
    /// Disable burst wrap command.
    pub disable_burst_wrap_cmd: u8,
    /// Disable burst wrap command dummy clock.
    pub disable_burst_wrap_cmd_dummy_clock: u8,
    /// Data and address mode of the disable burst wrap command.
    pub disable_burst_wrap_data_mode: u8,
    /// Data that disables burst wrap.
    pub disable_burst_wrap_data: u8,
    /// 4K erase time.
    pub sector_erase_time_4k: u16,
    /// 32K erase time.
    pub sector_erase_time_32k: u16,
    /// 64K erase time.
    pub sector_erase_time_64k: u16,
    /// Page program time.
    pub page_program_time: u16,
    /// Chip erase time, in milliseconds.
    pub chip_erase_time: u16,
    /// Wake-up delay after the release power down command.
    pub power_down_delay: u8,
    /// Quad enable set data.
    pub quad_enable_data: u8,
}

impl FlashConfig {
    /// Whether every field is zero.
    pub open spec fn is_zeroed(&self) -> bool {
        &&& self.io_mode == 0
        &&& self.continuous_read_support == 0
        &&& self.clock_delay == 0
        &&& self.clock_invert == 0
        &&& self.reset_enable_cmd == 0
        &&& self.reset_cmd == 0
        &&& self.reset_continuous_read_cmd == 0
        &&& self.reset_continuous_read_cmd_size == 0
        &&& self.jedec_id_cmd == 0
        &&& self.jedec_id_cmd_dummy_clock == 0
        &&& self.qpi_jedec_id_cmd == 0
        &&& self.qpi_jedec_id_cmd_dummy_clock == 0
        &&& self.sector_size == 0
        &&& self.manufacturer_id == 0
        &&& self.page_size == 0
        &&& self.chip_erase_cmd == 0
        &&& self.sector_erase_cmd == 0
        &&& self.block_erase_32k_cmd == 0
        &&& self.block_erase_64k_cmd == 0
        &&& self.write_enable_cmd == 0
        &&& self.page_program_cmd == 0
        &&& self.qio_page_program_cmd == 0
        &&& self.qio_page_program_address_mode == 0
        &&& self.fast_read_cmd == 0
        &&& self.fast_read_cmd_dummy_clock == 0
        &&& self.qpi_fast_read_cmd == 0
        &&& self.qpi_fast_read_cmd_dummy_clock == 0
        &&& self.fast_read_dual_output_cmd == 0
        &&& self.fast_read_dual_output_cmd_dummy_clock == 0
        &&& self.fast_read_dual_io_cmd == 0
        &&& self.fast_read_dual_io_cmd_dummy_clock == 0
        &&& self.fast_read_quad_output_cmd == 0
        &&& self.fast_read_quad_output_cmd_dummy_clock == 0
        &&& self.fast_read_quad_io_cmd == 0
        &&& self.fast_read_quad_io_cmd_dummy_clock == 0
        &&& self.qpi_fast_read_quad_io_cmd == 0
        &&& self.qpi_fast_read_quad_io_cmd_dummy_clock == 0
        &&& self.qpi_program_cmd == 0
        &&& self.volatile_register_write_enable_cmd == 0
        &&& self.write_enable_reg_index == 0
        &&& self.quad_mode_enable_reg_index == 0
        &&& self.busy_status_reg_index == 0
        &&& self.write_enable_bit_pos == 0
        &&& self.quad_enable_bit_pos == 0
        &&& self.busy_status_bit_pos == 0
        &&& self.write_enable_reg_write_len == 0
        &&& self.write_enable_reg_read_len == 0
        &&& self.quad_enable_reg_write_len == 0
        &&& self.quad_enable_reg_read_len == 0
        &&& self.release_power_down_cmd == 0
        &&& self.busy_status_reg_read_len == 0
        &&& self.read_reg_cmd_buffer@ == seq![0u8, 0u8, 0u8, 0u8]
        &&& self.write_reg_cmd_buffer@ == seq![0u8, 0u8, 0u8, 0u8]
        &&& self.enter_qpi_cmd == 0
        &&& self.exit_qpi_cmd == 0
        &&& self.continuous_read_mode_cfg == 0
        &&& self.continuous_read_mode_exit_cfg == 0
        &&& self.enable_burst_wrap_cmd == 0
        &&& self.enable_burst_wrap_cmd_dummy_clock == 0
        &&& self.burst_wrap_data_mode == 0
        &&& self.burst_wrap_data == 0
        &&& self.disable_burst_wrap_cmd == 0
        &&& self.disable_burst_wrap_cmd_dummy_clock == 0
        &&& self.disable_burst_wrap_data_mode == 0
        &&& self.disable_burst_wrap_data == 0
        &&& self.sector_erase_time_4k == 0
        &&& self.sector_erase_time_32k == 0
        &&& self.sector_erase_time_64k == 0
        &&& self.page_program_time == 0
        &&& self.chip_erase_time == 0
        &&& self.power_down_delay == 0
        &&& self.quad_enable_data == 0
    }

    /// Decoding of this block is not implemented: nothing is read, the
    /// reader is left where it was, and the result is the all-zero value
    /// whatever the bytes hold. A header parse skips the region itself.
    pub fn from_reader(reader: &mut ByteReader) -> (r: Result<FlashConfig, ParseError>)
        ensures
            *final(reader) == *old(reader),
            r is Ok,
            r->Ok_0.is_zeroed(),
    {
        Ok(FlashConfig::default())
    }
}

impl Default for FlashConfig {
    fn default() -> (r: FlashConfig)
        ensures
            r.is_zeroed(),
    {
        let r = FlashConfig {
            io_mode: 0,
            continuous_read_support: 0,
            clock_delay: 0,
            clock_invert: 0,
            reset_enable_cmd: 0,
            reset_cmd: 0,
            reset_continuous_read_cmd: 0,
            reset_continuous_read_cmd_size: 0,
            jedec_id_cmd: 0,
            jedec_id_cmd_dummy_clock: 0,
            qpi_jedec_id_cmd: 0,
            qpi_jedec_id_cmd_dummy_clock: 0,
            sector_size: 0,
            manufacturer_id: 0,
            page_size: 0,
            chip_erase_cmd: 0,
            sector_erase_cmd: 0,
            block_erase_32k_cmd: 0,
            block_erase_64k_cmd: 0,
            write_enable_cmd: 0,
            page_program_cmd: 0,
            qio_page_program_cmd: 0,
            qio_page_program_address_mode: 0,
            fast_read_cmd: 0,
            fast_read_cmd_dummy_clock: 0,
            qpi_fast_read_cmd: 0,
            qpi_fast_read_cmd_dummy_clock: 0,
            fast_read_dual_output_cmd: 0,
            fast_read_dual_output_cmd_dummy_clock: 0,
            fast_read_dual_io_cmd: 0,
            fast_read_dual_io_cmd_dummy_clock: 0,
            fast_read_quad_output_cmd: 0,
            fast_read_quad_output_cmd_dummy_clock: 0,
            fast_read_quad_io_cmd: 0,
            fast_read_quad_io_cmd_dummy_clock: 0,
            qpi_fast_read_quad_io_cmd: 0,
            qpi_fast_read_quad_io_cmd_dummy_clock: 0,
            qpi_program_cmd: 0,
            volatile_register_write_enable_cmd: 0,
            write_enable_reg_index: 0,
            quad_mode_enable_reg_index: 0,
            busy_status_reg_index: 0,
            write_enable_bit_pos: 0,
            quad_enable_bit_pos: 0,
            busy_status_bit_pos: 0,
            write_enable_reg_write_len: 0,
            write_enable_reg_read_len: 0,
            quad_enable_reg_write_len: 0,
            quad_enable_reg_read_len: 0,
            release_power_down_cmd: 0,
            busy_status_reg_read_len: 0,
            read_reg_cmd_buffer: [0u8; 4],
            write_reg_cmd_buffer: [0u8; 4],
            enter_qpi_cmd: 0,
            exit_qpi_cmd: 0,
            continuous_read_mode_cfg: 0,
            continuous_read_mode_exit_cfg: 0,
            enable_burst_wrap_cmd: 0,
            enable_burst_wrap_cmd_dummy_clock: 0,
            burst_wrap_data_mode: 0,
            burst_wrap_data: 0,
            disable_burst_wrap_cmd: 0,
            disable_burst_wrap_cmd_dummy_clock: 0,
            disable_burst_wrap_data_mode: 0,
            disable_burst_wrap_data: 0,
            sector_erase_time_4k: 0,
            sector_erase_time_32k: 0,
            sector_erase_time_64k: 0,
            page_program_time: 0,
            chip_erase_time: 0,
            power_down_delay: 0,
            quad_enable_data: 0,
        };
        assert(r.read_reg_cmd_buffer@ =~= seq![0u8, 0u8, 0u8, 0u8]);
        assert(r.write_reg_cmd_buffer@ =~= seq![0u8, 0u8, 0u8, 0u8]);
        r
    }
}

} // verus!
