//! Parsing of the Portable Executable (PE) binary format.
//!
//! The parser takes an arbitrary byte buffer and exposes the COFF header,
//! the optional header (in its 32-bit or 64-bit variant) and the section
//! table as structured, validated data.  Every read is bounds-checked and
//! every decoding step carries a contract that pins the result down to the
//! bytes of the input, so parsing never panics, whatever the input.

use vstd::prelude::*;

/// COFF file header definitions and helper functions
pub mod coff;
/// Optional header definitions and helper functions
pub mod optional;
/// Monolith struct containing all the information
/// you will ever need
pub mod pe;
/// Bounds-checked little-endian reads from a byte buffer
pub mod reader;
/// Relocation type indicators for the supported machine types
pub mod relocation;
/// Byte-reader helpers on owned byte buffers
pub mod scribe;
/// Section header definitions and helper functions
pub mod section;

verus! {

/// Error parsing a PE binary.
#[derive(Clone, Copy, Debug, PartialEq, Eq, Structural)]
pub enum Error {
    /// Failed to read data; premature EOF.
    OffsetOutOfRange,
    /// Failed to parse a header for an optional.
    BadOptionalHeader,
    /// Failed to parse a String.
    BadString,
    /// Missing PE header.
    MissingPeHeader,
    /// Missing COFF header.
    MissingCoffHeader,
    /// Missing magic number from header.
    MissingMagicNumber,
}

} // verus!
