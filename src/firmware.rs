//! The boot header: parsing it from bytes, and the layout it is read with.

use crate::builder::FirmwareBuilder;
use crate::clock::{
    clock_field_size, clock_field_start, clock_magic_accepted, clock_result, ClockConfig,
};
use crate::cpu::{cpu_of_magic, magic_of, Cpu};
use crate::error::{BootHeaderError, ClockConfigError, ParseError};
use crate::flash::FlashConfig;
use crate::reader::{le_u32, ByteReader};
use vstd::prelude::*;

verus! {

/// Bytes a boot header takes, from its magic to its checksum.
pub const HEADER_LEN: usize = 176;

/// Bytes the header sets aside for the flash configuration block. The parse
/// steps over them; it does not decode them.
pub const FLASH_CONFIG_REGION_LEN: usize = 0x5c;

/// The size of the boot header fields, excluding the magic header and the
/// checksum.
pub const BOOT_HEADER_STRUCT_SIZE: usize = 164;

/// Where, relative to the header's start, the read or skip that holds
/// offset `off` starts. In order: magic, revision, the flash configuration
/// region, the clock configuration block, four 32-bit words, the hash, eight
/// reserved bytes, the checksum.
pub open spec fn header_field_start(off: int) -> int {
    if off < 4 {
        0
    } else if off < 8 {
        4
    } else if off < 100 {
        8
    } else if off < 116 {
        100 + clock_field_start(off - 100)
    } else if off < 132 {
        116 + 4 * ((off - 116) / 4)
    } else if off < 164 {
        132
    } else if off < 172 {
        164
    } else {
        172
    }
}

/// How many bytes the read or skip starting at `start` (relative to the
/// header's start) asks for.
pub open spec fn header_field_size(start: int) -> int {
    if start == 8 {
        92
    } else if 100 <= start < 116 {
        clock_field_size(start - 100)
    } else if start == 132 {
        32
    } else if start == 164 {
        8
    } else {
        4
    }
}

/// Whether the four bytes at `p` are the magic value of a CPU.
pub open spec fn header_magic_ok(b: Seq<u8>, p: int) -> bool {
    cpu_of_magic(b.subrange(p, p + 4)) is Some
}

/// A parsed or built boot header.
#[derive(Debug, Clone, Copy, PartialEq, Eq, Default)]
pub struct Firmware {
    /// The CPU the image is for.
    pub cpu: Cpu,
    /// The boot header revision.
    pub revision: u32,
    /// The flash configuration.
    pub flash_config: FlashConfig,
    /// The clock configuration parameters.
    pub clock_config: ClockConfig,
    /// Boot configuration flags.
    pub boot_config: u32,
    /// Image segment info.
    pub image_segment_info: u32,
    /// The entry point of the written firmware image.
    pub entry_point: u32,
    /// Image RAM address or flash offset.
    pub image_start: u32,
    /// Hash of the whole image, as stored.
    pub hash: [u8; 32],
    /// Checksum of the boot header, as stored.
    pub crc32: u32,
}

impl Firmware {
    /// Whether `self` holds the fields of the header that starts at `p` in
    /// `b`. The flash configuration is not decoded and stays zero; the hash
    /// and the checksums are taken as they stand, unchecked.
    pub open spec fn is_read_from(&self, b: Seq<u8>, p: int) -> bool {
        &&& magic_of(self.cpu) == b.subrange(p, p + 4)
        &&& self.revision == le_u32(b.subrange(p + 4, p + 8))
        &&& self.flash_config.is_zeroed()
        &&& self.clock_config.is_read_from(b, p + 100)
        &&& self.boot_config == le_u32(b.subrange(p + 116, p + 120))
        &&& self.image_segment_info == le_u32(b.subrange(p + 120, p + 124))
        &&& self.entry_point == le_u32(b.subrange(p + 124, p + 128))
        &&& self.image_start == le_u32(b.subrange(p + 128, p + 132))
        &&& self.hash@ == b.subrange(p + 132, p + 164)
        &&& self.crc32 == le_u32(b.subrange(p + 172, p + 176))
    }

    /// Parses a boot header at the reader's position, requiring the clock
    /// configuration block to carry its `PCFG` magic.
    pub fn from_reader(reader: &mut ByteReader) -> (r: Result<Firmware, ParseError>)
        requires
            old(reader).wf(),
        ensures
            final(reader).wf(),
            final(reader).bytes() == old(reader).bytes(),
            header_result(r, old(reader).bytes(), old(reader).pos(), true),
            r is Ok ==> final(reader).pos() == old(reader).pos() + HEADER_LEN,
    {
        Self::from_reader_with(reader, true)
    }

    /// Parses a boot header at the reader's position. `strict_magic` says
    /// whether the clock configuration block must carry its magic.
    pub fn from_reader_with(reader: &mut ByteReader, strict_magic: bool) -> (r: Result<
        Firmware,
        ParseError,
    >)
        requires
            old(reader).wf(),
        ensures
            final(reader).wf(),
            final(reader).bytes() == old(reader).bytes(),
            header_result(r, old(reader).bytes(), old(reader).pos(), strict_magic),
            r is Ok ==> final(reader).pos() == old(reader).pos() + HEADER_LEN,
    {
        let magic = match reader.read_array::<4>() {
            Ok(m) => m,
            Err(e) => return Err(ParseError::IoError(e)),
        };
        let cpu = match Cpu::from_magic_bytes(magic) {
            Ok(c) => c,
            Err(e) => return Err(ParseError::BootHeaderError(e)),
        };
        proof {
            crate::cpu::lemma_magic_of_cpu_of(magic@);
        }
        let revision = match reader.read_u32_le() {
            Ok(v) => v,
            Err(e) => return Err(ParseError::IoError(e)),
        };
        // The flash configuration region is stepped over, not decoded.
        if let Err(e) = reader.skip(FLASH_CONFIG_REGION_LEN) {
            return Err(ParseError::IoError(e));
        }
        let clock_config = match ClockConfig::from_reader_with(reader, strict_magic) {
            Ok(c) => c,
            Err(e) => return Err(e),
        };
        let boot_config = match reader.read_u32_le() {
            Ok(v) => v,
            Err(e) => return Err(ParseError::IoError(e)),
        };
        let image_segment_info = match reader.read_u32_le() {
            Ok(v) => v,
            Err(e) => return Err(ParseError::IoError(e)),
        };
        let entry_point = match reader.read_u32_le() {
            Ok(v) => v,
            Err(e) => return Err(ParseError::IoError(e)),
        };
        let image_start = match reader.read_u32_le() {
            Ok(v) => v,
            Err(e) => return Err(ParseError::IoError(e)),
        };
        let hash = match reader.read_array::<32>() {
            Ok(h) => h,
            Err(e) => return Err(ParseError::IoError(e)),
        };
        // Eight reserved bytes.
        if let Err(e) = reader.skip(8) {
            return Err(ParseError::IoError(e));
        }
        let crc32 = match reader.read_u32_le() {
            Ok(v) => v,
            Err(e) => return Err(ParseError::IoError(e)),
        };
        Ok(
            Firmware {
                cpu,
                revision,
                flash_config: FlashConfig::default(),
                clock_config,
                boot_config,
                image_segment_info,
                entry_point,
                image_start,
                hash,
                crc32,
            },
        )
    }

    /// A builder with nothing set.
    pub fn builder() -> (r: FirmwareBuilder)
        ensures
            r@ == (None::<u32>, None::<FlashConfig>),
    {
        FirmwareBuilder::default()
    }
}

/// What parsing the header at `p` in `b` gives: the fields when all of its
/// bytes are there and both magic checks pass; the first failing magic
/// check, with the bytes found; otherwise the end of the data, reported at
/// the start of the read or skip that it cut short.
pub open spec fn header_result(
    r: Result<Firmware, ParseError>,
    b: Seq<u8>,
    p: int,
    strict: bool,
) -> bool {
    match r {
        Ok(f) => {
            &&& p + 176 <= b.len()
            &&& header_magic_ok(b, p)
            &&& clock_magic_accepted(b, p + 100, strict)
            &&& f.is_read_from(b, p)
        },
        Err(ParseError::BootHeaderError(BootHeaderError::InvalidMagicHeader(m))) => {
            &&& p + 4 <= b.len()
            &&& !header_magic_ok(b, p)
            &&& m@ == b.subrange(p, p + 4)
        },
        Err(ParseError::ClockConfigError(ClockConfigError::InvalidMagicHeader(m))) => {
            &&& p + 104 <= b.len()
            &&& header_magic_ok(b, p)
            &&& !clock_magic_accepted(b, p + 100, strict)
            &&& m@ == b.subrange(p + 100, p + 104)
        },
        Err(ParseError::IoError(e)) => {
            &&& b.len() < p + 176
            &&& (b.len() < p + 4 || (header_magic_ok(b, p) && (b.len() < p + 104
                || clock_magic_accepted(b, p + 100, strict))))
            &&& e.position == p + header_field_start(b.len() - p)
            &&& e.wanted == header_field_size(header_field_start(b.len() - p))
        },
    }
}

/// A header cut short after a valid magic fails with an end-of-data error,
/// never with a partly filled header, and the error names the read that
/// holds the end of the data: it starts at or before the end and asks for
/// bytes past it. (When the clock configuration block is present but its
/// magic fails a strict check, that error comes first instead.)
pub proof fn lemma_short_header_fails(
    r: Result<Firmware, ParseError>,
    b: Seq<u8>,
    p: int,
    strict: bool,
)
    requires
        header_result(r, b, p, strict),
        0 <= p,
        p + 4 <= b.len() < p + 176,
        header_magic_ok(b, p),
        b.len() < p + 104 || clock_magic_accepted(b, p + 100, strict),
    ensures
        r matches Err(ParseError::IoError(e)) && p <= e.position <= b.len() < e.position
            + e.wanted,
{
    let off = b.len() - p;
    if 116 <= off < 132 {
        assert(4 * ((off - 116) / 4) <= off - 116 < 4 * ((off - 116) / 4) + 4) by (nonlinear_arith);
    }
}

/// A header whose first four bytes are not a CPU's magic value fails with
/// the boot header's magic error, carrying exactly those bytes.
pub proof fn lemma_bad_magic_fails(r: Result<Firmware, ParseError>, b: Seq<u8>, p: int, strict: bool)
    requires
        header_result(r, b, p, strict),
        0 <= p,
        p + 4 <= b.len(),
        !header_magic_ok(b, p),
    ensures
        r matches Err(ParseError::BootHeaderError(BootHeaderError::InvalidMagicHeader(m))) && m@
            == b.subrange(p, p + 4),
{
}

} // verus!
