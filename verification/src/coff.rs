use crate::reader::{read_u16, read_u32, spec_le_u16, spec_le_u32};
use crate::Error;
use vstd::prelude::*;

verus! {

/// Size in bytes of the on-disk COFF file header.
pub const COFF_FILE_HEADER_SIZE: usize = 20;

/// COFF File Header (Object and Image)
#[derive(Clone, Copy, Debug, PartialEq, Eq, Structural)]
pub struct CoffFileHeader {
    /// The number that identifies the type of target machine.
    pub machine: u16,
    /// The number of sections. This indicates the size of the section table, which immediately follows the headers.
    pub number_of_sections: u16,
    /// The low 32 bits of the number of seconds since 00:00 January 1, 1970 (a C run-time time_t value), which indicates when the file was created.
    pub time_date_stamp: u32,
    /// The file offset of the COFF symbol table, or zero if no COFF symbol table is present.
    pub pointer_to_symbol_table: u32,
    /// The number of entries in the symbol table.
    pub number_of_symbols: u32,
    /// The size of the optional header, which is required for executable files but not for object files.
    pub size_of_optional_header: u16,
    /// The flags that indicate the attributes of the file.
    pub characteristics: u16,
}

/// The COFF file header whose twenty bytes start at offset `off` of `b`:
/// each field is read little-endian at its documented offset.
pub open spec fn spec_coff_file_header(b: Seq<u8>, off: int) -> CoffFileHeader {
    CoffFileHeader {
        machine: spec_le_u16(b, off),
        number_of_sections: spec_le_u16(b, off + 2),
        time_date_stamp: spec_le_u32(b, off + 4),
        pointer_to_symbol_table: spec_le_u32(b, off + 8),
        number_of_symbols: spec_le_u32(b, off + 12),
        size_of_optional_header: spec_le_u16(b, off + 16),
        characteristics: spec_le_u16(b, off + 18),
    }
}

/// Decode the fixed twenty-byte COFF file header found at `offset`, or fail
/// when the record would run past the end of the buffer.
pub fn parse_coff_file_header(binary: &[u8], offset: usize) -> (r: Result<CoffFileHeader, Error>)
    ensures
        offset + COFF_FILE_HEADER_SIZE <= binary@.len() ==> r == Ok::<CoffFileHeader, Error>(
            spec_coff_file_header(binary@, offset as int),
        ),
        offset + COFF_FILE_HEADER_SIZE > binary@.len() ==> r == Err::<CoffFileHeader, Error>(
            Error::OffsetOutOfRange,
        ),
{
    if binary.len() < COFF_FILE_HEADER_SIZE || offset > binary.len() - COFF_FILE_HEADER_SIZE {
        return Err(Error::OffsetOutOfRange);
    }
    let machine = read_u16(binary, offset)?;
    let number_of_sections = read_u16(binary, offset + 2)?;
    let time_date_stamp = read_u32(binary, offset + 4)?;
    let pointer_to_symbol_table = read_u32(binary, offset + 8)?;
    let number_of_symbols = read_u32(binary, offset + 12)?;
    let size_of_optional_header = read_u16(binary, offset + 16)?;
    let characteristics = read_u16(binary, offset + 18)?;
    Ok(CoffFileHeader {
        machine,
        number_of_sections,
        time_date_stamp,
        pointer_to_symbol_table,
        number_of_symbols,
        size_of_optional_header,
        characteristics,
    })
}

impl CoffFileHeader {
    /// The all-zero header: every field holds zero.
    pub open spec fn spec_default() -> CoffFileHeader {
        CoffFileHeader {
            machine: 0,
            number_of_sections: 0,
            time_date_stamp: 0,
            pointer_to_symbol_table: 0,
            number_of_symbols: 0,
            size_of_optional_header: 0,
            characteristics: 0,
        }
    }
}

impl Default for CoffFileHeader {
    fn default() -> (r: CoffFileHeader)
        ensures
            r == CoffFileHeader::spec_default(),
    {
        CoffFileHeader {
            machine: 0,
            number_of_sections: 0,
            time_date_stamp: 0,
            pointer_to_symbol_table: 0,
            number_of_symbols: 0,
            size_of_optional_header: 0,
            characteristics: 0,
        }
    }
}

/// The Machine field has one of the following values, which specify the CPU type.
/// An image file can be run only on the specified machine or on a system that emulates the specified machine.
#[derive(Clone, Copy, Debug, PartialEq, Eq, Structural)]
pub enum MachineTypes {
    /// The content of this field is assumed to be applicable to any machine type
    Unknown,
    /// Alpha AXP, 32-bit address space
    Alpha,
    /// Alpha 64/AXP 64, 64-bit address space
    Alpha64,
    /// Matsushita AM33
    AM33,
    /// x64
    AMD64,
    /// ARM little endian
    ARM,
    /// ARM64 little endian
    ARM64,
    /// ARM Thumb-2 little endian
    ARMNT,
    /// EFI byte code
    EBC,
    /// Intel 386 or later processors and compatible processors
    I386,
    /// Intel Itanium processor family
    IA64,
    /// LoongArch 32-bit processor family
    LoongArch32,
    /// LoongArch 64-bit processor family
    LoongArch64,
    /// Mitsubishi M32R little endian
    M32R,
    /// MIPS16
    MIPS16,
    /// MIPS with FPU
    MIPSFPU,
    /// MIPS16 with FPU
    MIPSFPU16,
    /// Power PC little endian
    PowerPC,
    /// Power PC with floating point support
    PowerPCFP,
    /// MIPS little endian
    R4000,
    /// RISC-V 32-bit address space
    RISCV32,
    /// RISC-V 64-bit address space
    RISCV64,
    /// RISC-V 128-bit address space
    RISCV128,
    /// Hitachi SH3
    SH3,
    /// Hitachi SH3 DSP
    SH3DSP,
    /// Hitachi SH4
    SH4,
    /// Hitachi SH5
    SH5,
    /// Thumb
    Thumb,
    /// MIPS little-endian WCE v2
    WCEMIPSV2,
}

impl MachineTypes {
    /// The machine type that the numeric code `v` stands for, if any.
    pub open spec fn spec_from_u16(v: u16) -> Option<MachineTypes> {
        if v == 0x0 {
            Some(MachineTypes::Unknown)
        } else if v == 0x184 {
            Some(MachineTypes::Alpha)
        } else if v == 0x284 {
            Some(MachineTypes::Alpha64)
        } else if v == 0x1d3 {
            Some(MachineTypes::AM33)
        } else if v == 0x8664 {
            Some(MachineTypes::AMD64)
        } else if v == 0x1c0 {
            Some(MachineTypes::ARM)
        } else if v == 0xaa64 {
            Some(MachineTypes::ARM64)
        } else if v == 0x1c4 {
            Some(MachineTypes::ARMNT)
        } else if v == 0xebc {
            Some(MachineTypes::EBC)
        } else if v == 0x14c {
            Some(MachineTypes::I386)
        } else if v == 0x200 {
            Some(MachineTypes::IA64)
        } else if v == 0x6232 {
            Some(MachineTypes::LoongArch32)
        } else if v == 0x6264 {
            Some(MachineTypes::LoongArch64)
        } else if v == 0x9041 {
            Some(MachineTypes::M32R)
        } else if v == 0x266 {
            Some(MachineTypes::MIPS16)
        } else if v == 0x366 {
            Some(MachineTypes::MIPSFPU)
        } else if v == 0x466 {
            Some(MachineTypes::MIPSFPU16)
        } else if v == 0x1f0 {
            Some(MachineTypes::PowerPC)
        } else if v == 0x1f1 {
            Some(MachineTypes::PowerPCFP)
        } else if v == 0x166 {
            Some(MachineTypes::R4000)
        } else if v == 0x5032 {
            Some(MachineTypes::RISCV32)
        } else if v == 0x5064 {
            Some(MachineTypes::RISCV64)
        } else if v == 0x5128 {
            Some(MachineTypes::RISCV128)
        } else if v == 0x1a2 {
            Some(MachineTypes::SH3)
        } else if v == 0x1a3 {
            Some(MachineTypes::SH3DSP)
        } else if v == 0x1a6 {
            Some(MachineTypes::SH4)
        } else if v == 0x1a8 {
            Some(MachineTypes::SH5)
        } else if v == 0x1c2 {
            Some(MachineTypes::Thumb)
        } else if v == 0x169 {
            Some(MachineTypes::WCEMIPSV2)
        } else {
            None
        }
    }

    /// Map a numeric machine code to its machine type, or `None` for a code
    /// that is not among the documented ones.
    pub fn from_u16(v: u16) -> (r: Option<MachineTypes>)
        ensures
            r == MachineTypes::spec_from_u16(v),
    {
        match v {
            0x0 => Some(MachineTypes::Unknown),
            0x184 => Some(MachineTypes::Alpha),
            0x284 => Some(MachineTypes::Alpha64),
            0x1d3 => Some(MachineTypes::AM33),
            0x8664 => Some(MachineTypes::AMD64),
            0x1c0 => Some(MachineTypes::ARM),
            0xaa64 => Some(MachineTypes::ARM64),
            0x1c4 => Some(MachineTypes::ARMNT),
            0xebc => Some(MachineTypes::EBC),
            0x14c => Some(MachineTypes::I386),
            0x200 => Some(MachineTypes::IA64),
            0x6232 => Some(MachineTypes::LoongArch32),
            0x6264 => Some(MachineTypes::LoongArch64),
            0x9041 => Some(MachineTypes::M32R),
            0x266 => Some(MachineTypes::MIPS16),
            0x366 => Some(MachineTypes::MIPSFPU),
            0x466 => Some(MachineTypes::MIPSFPU16),
            0x1f0 => Some(MachineTypes::PowerPC),
            0x1f1 => Some(MachineTypes::PowerPCFP),
            0x166 => Some(MachineTypes::R4000),
            0x5032 => Some(MachineTypes::RISCV32),
            0x5064 => Some(MachineTypes::RISCV64),
            0x5128 => Some(MachineTypes::RISCV128),
            0x1a2 => Some(MachineTypes::SH3),
            0x1a3 => Some(MachineTypes::SH3DSP),
            0x1a6 => Some(MachineTypes::SH4),
            0x1a8 => Some(MachineTypes::SH5),
            0x1c2 => Some(MachineTypes::Thumb),
            0x169 => Some(MachineTypes::WCEMIPSV2),
            _ => None,
        }
    }
}

/// Image only. This indicates that the file does not contain base relocations.
pub const IMAGE_FILE_RELOCS_STRIPPED: u16 = 0x0001;

/// Image only. This indicates that the image file is valid and can be run.
pub const IMAGE_FILE_EXECUTABLE_IMAGE: u16 = 0x0002;

/// COFF line numbers have been removed. This flag is deprecated and should be zero.
pub const IMAGE_FILE_LINE_NUMS_STRIPPED: u16 = 0x0004;

/// COFF symbol table entries for local symbols have been removed. This flag is deprecated and should be zero.
pub const IMAGE_FILE_LOCAL_SYMS_STRIPPED: u16 = 0x0008;

/// Obsolete. Aggressively trim working set.
pub const IMAGE_FILE_AGGRESIVE_WS_TRIM: u16 = 0x0010;

/// Application can handle > 2-GB addresses.
pub const IMAGE_FILE_LARGE_ADDRESS_AWARE: u16 = 0x0020;

/// This flag is reserved for future use.
pub const IMAGE_FILE_RESERVED1: u16 = 0x0040;

/// Little endian: the least significant bit (LSB) precedes the most significant bit (MSB) in memory.
pub const IMAGE_FILE_BYTES_RESERVED_LO: u16 = 0x0080;

/// Machine is based on a 32-bit-word architecture.
pub const IMAGE_FILE_32BIT_MACHINE: u16 = 0x0100;

/// Debugging information is removed from the image file.
pub const IMAGE_FILE_DEBUG_STRIPPED: u16 = 0x0200;

/// If the image is on removable media, fully load it and copy it to the swap file.
pub const IMAGE_FILE_REMOVABLE_RUN_FROM_SWAP: u16 = 0x0400;

/// If the image is on network media, fully load it and copy it to the swap file.
pub const IMAGE_FILE_NET_RUN_FROM_SWAP: u16 = 0x0800;

/// The image file is a system file, not a user program.
pub const IMAGE_FILE_SYSTEM: u16 = 0x1000;

/// The image file is a dynamic-link library (DLL).
pub const IMAGE_FILE_DLL: u16 = 0x2000;

/// The file should be run only on a uniprocessor machine.
pub const IMAGE_FILE_UP_SYSTEM_ONLY: u16 = 0x4000;

/// Big endian: the MSB precedes the LSB in memory.
pub const IMAGE_FILE_BYTES_RESERVED_HI: u16 = 0x8000;

/// The Characteristics field contains flags that indicate attributes of the
/// object or image file: a set of named bits over a 16-bit integer.  All
/// sixteen bit positions carry a documented meaning, so every 16-bit value
/// is a valid flag set.
#[derive(Clone, Copy, Debug, PartialEq, Eq, Structural)]
pub struct Characteristics {
    /// The raw bit pattern of the flag set.
    pub bits: u16,
}

impl Characteristics {
    /// The flag set holding exactly the bits of `v`: every bit of a 16-bit
    /// value names a documented file characteristic, so no value is
    /// rejected.
    pub open spec fn spec_from_bits(v: u16) -> Option<Characteristics> {
        Some(Characteristics { bits: v })
    }

    /// Build the flag set holding exactly the bits of `v`.  Every bit of a
    /// 16-bit value names a documented file characteristic, so this never
    /// rejects a value.
    pub fn from_bits(v: u16) -> (r: Option<Characteristics>)
        ensures
            r == Characteristics::spec_from_bits(v),
    {
        Some(Characteristics { bits: v })
    }

    /// The raw bit pattern of the flag set.
    pub fn bits(&self) -> (r: u16)
        ensures
            r == self.bits,
    {
        self.bits
    }

    /// Whether every flag set in `other` is also set in `self`.
    pub fn contains(&self, other: Characteristics) -> (r: bool)
        ensures
            r == (self.bits & other.bits == other.bits),
    {
        self.bits & other.bits == other.bits
    }

    /// The flag set holding the flags of either operand.
    pub fn union(&self, other: Characteristics) -> (r: Characteristics)
        ensures
            r.bits == self.bits | other.bits,
    {
        Characteristics { bits: self.bits | other.bits }
    }

    /// The flag set holding the flags common to both operands.
    pub fn intersection(&self, other: Characteristics) -> (r: Characteristics)
        ensures
            r.bits == self.bits & other.bits,
    {
        Characteristics { bits: self.bits & other.bits }
    }
}

#[verifier::external_type_specification]
#[verifier::external_body]
pub struct ExNaiveDateTime(chrono::NaiveDateTime);

/// Relies on `chrono::DateTime::from_timestamp` with a zero nanosecond
/// part: its documentation returns `None` only for an out-of-range number
/// of seconds (more than about 262,000 years away from the common era),
/// and a timestamp that fits in 32 unsigned bits lies well inside that
/// range, so the conversion always succeeds.
#[verifier::external_body]
fn datetime_from_timestamp(secs: u32) -> (r: Option<chrono::NaiveDateTime>)
    ensures
        r is Some,
{
    chrono::DateTime::from_timestamp(secs.into(), 0).map(|dt| dt.naive_utc())
}

impl CoffFileHeader {
    /// Returns the machine type as an enum
    pub fn get_machine_type(&self) -> (r: Option<MachineTypes>)
        ensures
            r == MachineTypes::spec_from_u16(self.machine),
    {
        MachineTypes::from_u16(self.machine)
    }

    /// Returns the Characteristics as bitflags
    pub fn get_characteristics(&self) -> (r: Option<Characteristics>)
        ensures
            r == Characteristics::spec_from_bits(self.characteristics),
    {
        Characteristics::from_bits(self.characteristics)
    }

    /// Returns the Unix epoch timestamp as a `NaiveDateTime` in UTC
    pub fn get_time_date_stamp(&self) -> (r: Option<chrono::NaiveDateTime>)
        ensures
            r is Some,
    {
        datetime_from_timestamp(self.time_date_stamp)
    }
}

} // verus!
