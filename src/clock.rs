//! The clock configuration block: crystal, PLL and clock dividers.

use crate::cpu::bytes4_eq;
use crate::error::{ClockConfigError, ParseError};
use crate::reader::{le_u32, ByteReader};
use vstd::prelude::*;

verus! {

/// Bytes the clock configuration block takes, magic and checksum included.
pub const CLOCK_CONFIG_BLOCK_LEN: usize = 16;

/// The size of the clock configuration fields, excluding the magic header
/// and the checksum.
pub const CLOCK_CONFIG_STRUCT_SIZE: usize = 8;

/// The magic bytes `PCFG` that open the block, in file order.
pub open spec fn pcfg_magic() -> Seq<u8> {
    seq![0x50u8, 0x43u8, 0x46u8, 0x47u8]
}

/// Whether the four bytes at `p` pass the magic check: under `strict` they
/// must be `PCFG`, otherwise anything goes.
pub open spec fn clock_magic_accepted(b: Seq<u8>, p: int, strict: bool) -> bool {
    !strict || b.subrange(p, p + 4) == pcfg_magic()
}

/// Where, relative to the block's start, the read holding offset `off`
/// starts: the magic, six single-byte fields, two reserved bytes, the
/// checksum.
pub open spec fn clock_field_start(off: int) -> int {
    if off < 4 {
        0
    } else if off < 10 {
        off
    } else if off < 12 {
        10
    } else {
        12
    }
}

/// How many bytes the read starting at `start` (relative to the block's
/// start) asks for.
pub open spec fn clock_field_size(start: int) -> int {
    if start == 0 {
        4
    } else if start < 10 {
        1
    } else if start == 10 {
        2
    } else {
        4
    }
}

/// Clock configuration parameters.
#[derive(Debug, Clone, Copy, PartialEq, Eq)]
pub struct ClockConfig {
    /// PLL crystal type.
    pub xtal_type: u8,
    /// The PLL output clock type.
    pub pll_clock: u8,
    /// HCLK divider.
    pub hclk_divider: u8,
    /// BCLK divider.
    pub bclk_divider: u8,
    /// Flash clock type.
    pub flash_clock_type: u8,
    /// Flash clock divider.
    pub flash_clock_divider: u8,
    /// Checksum of the block, as stored.
    pub crc32: u32,
}

impl ClockConfig {
    /// Whether every field is zero.
    pub open spec fn is_zeroed(&self) -> bool {
        &&& self.xtal_type == 0
        &&& self.pll_clock == 0
        &&& self.hclk_divider == 0
        &&& self.bclk_divider == 0
        &&& self.flash_clock_type == 0
        &&& self.flash_clock_divider == 0
        &&& self.crc32 == 0
    }

    /// Whether `self` holds the fields of the block that starts at `p` in `b`.
    pub open spec fn is_read_from(&self, b: Seq<u8>, p: int) -> bool {
        &&& self.xtal_type == b[p + 4]
        &&& self.pll_clock == b[p + 5]
        &&& self.hclk_divider == b[p + 6]
        &&& self.bclk_divider == b[p + 7]
        &&& self.flash_clock_type == b[p + 8]
        &&& self.flash_clock_divider == b[p + 9]
        &&& self.crc32 == le_u32(b.subrange(p + 12, p + 16))
    }

    /// Parses the block at the reader's position, requiring the `PCFG` magic.
    pub fn from_reader(reader: &mut ByteReader) -> (r: Result<ClockConfig, ParseError>)
        requires
            old(reader).wf(),
        ensures
            final(reader).wf(),
            final(reader).bytes() == old(reader).bytes(),
            clock_result(r, old(reader).bytes(), old(reader).pos(), true),
            r is Ok ==> final(reader).pos() == old(reader).pos() + CLOCK_CONFIG_BLOCK_LEN,
    {
        Self::from_reader_with(reader, true)
    }

    /// Parses the block at the reader's position. With `strict_magic` off,
    /// the four magic bytes are read but not checked, for loaders whose
    /// block carries no magic.
    pub fn from_reader_with(reader: &mut ByteReader, strict_magic: bool) -> (r: Result<
        ClockConfig,
        ParseError,
    >)
        requires
            old(reader).wf(),
        ensures
            final(reader).wf(),
            final(reader).bytes() == old(reader).bytes(),
            clock_result(r, old(reader).bytes(), old(reader).pos(), strict_magic),
            r is Ok ==> final(reader).pos() == old(reader).pos() + CLOCK_CONFIG_BLOCK_LEN,
    {
        let magic = match reader.read_array::<4>() {
            Ok(m) => m,
            Err(e) => return Err(ParseError::IoError(e)),
        };
        let pcfg = [0x50u8, 0x43u8, 0x46u8, 0x47u8];
        assert(pcfg@ =~= pcfg_magic());
        if strict_magic && !bytes4_eq(&magic, &pcfg) {
            return Err(ParseError::ClockConfigError(ClockConfigError::InvalidMagicHeader(magic)));
        }
        let xtal_type = match reader.read_u8() {
            Ok(v) => v,
            Err(e) => return Err(ParseError::IoError(e)),
        };
        let pll_clock = match reader.read_u8() {
            Ok(v) => v,
            Err(e) => return Err(ParseError::IoError(e)),
        };
        let hclk_divider = match reader.read_u8() {
            Ok(v) => v,
            Err(e) => return Err(ParseError::IoError(e)),
        };
        let bclk_divider = match reader.read_u8() {
            Ok(v) => v,
            Err(e) => return Err(ParseError::IoError(e)),
        };
        let flash_clock_type = match reader.read_u8() {
            Ok(v) => v,
            Err(e) => return Err(ParseError::IoError(e)),
        };
        let flash_clock_divider = match reader.read_u8() {
            Ok(v) => v,
            Err(e) => return Err(ParseError::IoError(e)),
        };
        // Two reserved bytes.
        if let Err(e) = reader.skip(2) {
            return Err(ParseError::IoError(e));
        }
        let crc32 = match reader.read_u32_le() {
            Ok(v) => v,
            Err(e) => return Err(ParseError::IoError(e)),
        };
        Ok(
            ClockConfig {
                xtal_type,
                pll_clock,
                hclk_divider,
                bclk_divider,
                flash_clock_type,
                flash_clock_divider,
                crc32,
            },
        )
    }
}

/// What parsing the clock configuration block at `p` in `b` gives: the
/// fields when all sixteen bytes are there and the magic passes; the magic
/// error, with the bytes found, when it does not; otherwise the end of the
/// data, reported at the start of the read that it cut short.
pub open spec fn clock_result(
    r: Result<ClockConfig, ParseError>,
    b: Seq<u8>,
    p: int,
    strict: bool,
) -> bool {
    match r {
        Ok(c) => p + 16 <= b.len() && clock_magic_accepted(b, p, strict) && c.is_read_from(b, p),
        Err(ParseError::ClockConfigError(ClockConfigError::InvalidMagicHeader(m))) => {
            &&& p + 4 <= b.len()
            &&& !clock_magic_accepted(b, p, strict)
            &&& m@ == b.subrange(p, p + 4)
        },
        Err(ParseError::IoError(e)) => {
            &&& b.len() < p + 16
            &&& (b.len() < p + 4 || clock_magic_accepted(b, p, strict))
            &&& e.position == p + clock_field_start(b.len() - p)
            &&& e.wanted == clock_field_size(clock_field_start(b.len() - p))
        },
        Err(ParseError::BootHeaderError(_)) => false,
    }
}

impl Default for ClockConfig {
    fn default() -> (r: ClockConfig)
        ensures
            r.is_zeroed(),
    {
        ClockConfig {
            xtal_type: 0,
            pll_clock: 0,
            hclk_divider: 0,
            bclk_divider: 0,
            flash_clock_type: 0,
            flash_clock_divider: 0,
            crc32: 0,
        }
    }
}

} // verus!
