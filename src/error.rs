//! The errors that parsing and building a header can end in.

use crate::reader::UnexpectedEof;
use vstd::prelude::*;

verus! {

/// The clock configuration block does not start with its magic value.
#[derive(Debug, Clone, Copy, PartialEq, Eq)]
pub enum ClockConfigError {
    /// Carries the four bytes found where the magic value should be.
    InvalidMagicHeader([u8; 4]),
}

/// The boot header does not start with a known magic value.
#[derive(Debug, Clone, Copy, PartialEq, Eq)]
pub enum BootHeaderError {
    /// Carries the four bytes found where the magic value should be.
    InvalidMagicHeader([u8; 4]),
}

/// Why a header could not be parsed.
#[derive(Debug, Clone, Copy, PartialEq, Eq)]
pub enum ParseError {
    BootHeaderError(BootHeaderError),
    ClockConfigError(ClockConfigError),
    /// The data ended before a field was complete.
    IoError(UnexpectedEof),
}

/// Why a `FirmwareBuilder` could not produce a header.
#[derive(Debug, Clone, Copy, PartialEq, Eq)]
pub enum BuilderError {
    /// No flash configuration was supplied.
    MissingFlashConfig,
}

} // verus!
