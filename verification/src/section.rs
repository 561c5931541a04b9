use crate::reader::{read_u16, read_u32, read_u8, spec_le_u16, spec_le_u32};
use crate::scribe::bytes_to_string;
use crate::Error;
use vstd::prelude::*;
use vstd::utf8::{decode_utf8, valid_utf8};

verus! {

broadcast use vstd::array::group_array_axioms;

/// Size in bytes of one on-disk section-header record.
pub const SECTION_HEADER_SIZE: usize = 40;

/// Contains information such as name, size, characteristics
/// and location of a section in the binary
#[allow(non_camel_case_types)]
#[derive(Clone, Copy, Debug, PartialEq, Eq)]
pub struct section_header {
    /// An 8-byte, null-padded UTF-8 encoded string.
    /// If the string is exactly 8 characters long, there is no terminating null.
    pub name: [u8; 8],
    /// The total size of the section when loaded into memory.
    /// If this value is greater than `size_of_raw_data`, the section is zero-padded.
    pub virtual_size: u32,
    /// For executable images, the address of the first byte of the section relative to the image base when the section is loaded into memory.
    pub virtual_address: u32,
    /// The size of the section (for object files) or the size of the initialized data on disk (for image files).
    pub size_of_raw_data: u32,
    /// The file pointer to the first page of the section within the COFF file.
    pub pointer_to_raw_data: u32,
    /// The file pointer to the beginning of relocation entries for the section.
    pub pointer_to_relocations: u32,
    /// The file pointer to the beginning of line-number entries for the section.
    pub pointer_to_linenumbers: u32,
    /// The number of relocation entries for the section.
    pub number_of_relocations: u16,
    /// The number of line-number entries for the section.
    pub number_of_linenumbers: u16,
    /// The flags that describe the characteristics of the section.
    pub characteristics: u32,
}

impl section_header {
    /// The all-zero record: an all-zero name and zero in every field.
    pub open spec fn spec_default() -> section_header {
        section_header {
            name: [0u8, 0u8, 0u8, 0u8, 0u8, 0u8, 0u8, 0u8],
            virtual_size: 0,
            virtual_address: 0,
            size_of_raw_data: 0,
            pointer_to_raw_data: 0,
            pointer_to_relocations: 0,
            pointer_to_linenumbers: 0,
            number_of_relocations: 0,
            number_of_linenumbers: 0,
            characteristics: 0,
        }
    }
}

impl Default for section_header {
    fn default() -> (r: section_header)
        ensures
            r == section_header::spec_default(),
    {
        section_header {
            name: [0u8, 0u8, 0u8, 0u8, 0u8, 0u8, 0u8, 0u8],
            virtual_size: 0,
            virtual_address: 0,
            size_of_raw_data: 0,
            pointer_to_raw_data: 0,
            pointer_to_relocations: 0,
            pointer_to_linenumbers: 0,
            number_of_relocations: 0,
            number_of_linenumbers: 0,
            characteristics: 0,
        }
    }
}

/// The mathematical image of one section header: the name as a byte
/// sequence, every other field as the integer it holds.
pub struct SectionHeaderView {
    /// The eight name bytes.
    pub name: Seq<u8>,
    /// The total size of the section when loaded into memory.
    pub virtual_size: u32,
    /// The address of the first byte of the section relative to the image base.
    pub virtual_address: u32,
    /// The size of the section on disk.
    pub size_of_raw_data: u32,
    /// The file pointer to the first page of the section.
    pub pointer_to_raw_data: u32,
    /// The file pointer to the relocation entries.
    pub pointer_to_relocations: u32,
    /// The file pointer to the line-number entries.
    pub pointer_to_linenumbers: u32,
    /// The number of relocation entries.
    pub number_of_relocations: u16,
    /// The number of line-number entries.
    pub number_of_linenumbers: u16,
    /// The flags that describe the characteristics of the section.
    pub characteristics: u32,
}

impl View for section_header {
    type V = SectionHeaderView;

    open spec fn view(&self) -> SectionHeaderView {
        SectionHeaderView {
            name: self.name@,
            virtual_size: self.virtual_size,
            virtual_address: self.virtual_address,
            size_of_raw_data: self.size_of_raw_data,
            pointer_to_raw_data: self.pointer_to_raw_data,
            pointer_to_relocations: self.pointer_to_relocations,
            pointer_to_linenumbers: self.pointer_to_linenumbers,
            number_of_relocations: self.number_of_relocations,
            number_of_linenumbers: self.number_of_linenumbers,
            characteristics: self.characteristics,
        }
    }
}

impl DeepView for section_header {
    type V = SectionHeaderView;

    open spec fn deep_view(&self) -> SectionHeaderView {
        self.view()
    }
}

/// The section header whose forty bytes start at offset `off` of `b`:
/// eight name bytes, then each field read little-endian at its documented
/// offset.
pub open spec fn spec_section_header(b: Seq<u8>, off: int) -> SectionHeaderView {
    SectionHeaderView {
        name: b.subrange(off, off + 8),
        virtual_size: spec_le_u32(b, off + 8),
        virtual_address: spec_le_u32(b, off + 12),
        size_of_raw_data: spec_le_u32(b, off + 16),
        pointer_to_raw_data: spec_le_u32(b, off + 20),
        pointer_to_relocations: spec_le_u32(b, off + 24),
        pointer_to_linenumbers: spec_le_u32(b, off + 28),
        number_of_relocations: spec_le_u16(b, off + 32),
        number_of_linenumbers: spec_le_u16(b, off + 34),
        characteristics: spec_le_u32(b, off + 36),
    }
}

/// The section table declared to hold `n` records starting at offset `off`
/// of `b`: each record whose forty bytes lie inside the buffer is decoded,
/// a record that would run past the end is skipped, and the cursor always
/// advances by the fixed record size.
pub open spec fn spec_section_table(b: Seq<u8>, off: int, n: int) -> Seq<SectionHeaderView>
    decreases n,
{
    if n <= 0 {
        Seq::empty()
    } else if off + SECTION_HEADER_SIZE <= b.len() {
        seq![spec_section_header(b, off)] + spec_section_table(
            b,
            off + SECTION_HEADER_SIZE,
            n - 1,
        )
    } else {
        spec_section_table(b, off + SECTION_HEADER_SIZE, n - 1)
    }
}

/// Once the cursor stands less than one record before the end of the
/// buffer, every remaining record is skipped and the table is empty.
pub proof fn lemma_section_table_empty(b: Seq<u8>, off: int, n: int)
    requires
        off + SECTION_HEADER_SIZE > b.len(),
        off >= 0,
    ensures
        spec_section_table(b, off, n) == Seq::<SectionHeaderView>::empty(),
    decreases n,
{
    if n > 0 {
        lemma_section_table_empty(b, off + SECTION_HEADER_SIZE, n - 1);
    }
}

/// The section table never yields more records than were declared; it
/// yields exactly the declared count when the whole declared table lies
/// inside the buffer, and strictly fewer exactly when the buffer cuts the
/// declared table short.
pub proof fn lemma_section_table_count(b: Seq<u8>, off: int, n: int)
    requires
        off >= 0,
        n >= 0,
    ensures
        spec_section_table(b, off, n).len() <= n,
        spec_section_table(b, off, n).len() == n <==> (n == 0 || off + SECTION_HEADER_SIZE * n
            <= b.len()),
    decreases n,
{
    if n > 0 {
        lemma_section_table_count(b, off + SECTION_HEADER_SIZE, n - 1);
    }
}

/// Decode the fixed forty-byte section header found at `offset`, or fail
/// when the record would run past the end of the buffer.
pub fn parse_section_header(binary: &[u8], offset: usize) -> (r: Result<section_header, Error>)
    ensures
        offset + SECTION_HEADER_SIZE <= binary@.len() ==> (r matches Ok(h) && h@
            == spec_section_header(binary@, offset as int)),
        offset + SECTION_HEADER_SIZE > binary@.len() ==> r == Err::<section_header, Error>(
            Error::OffsetOutOfRange,
        ),
{
    if binary.len() < SECTION_HEADER_SIZE || offset > binary.len() - SECTION_HEADER_SIZE {
        return Err(Error::OffsetOutOfRange);
    }
    let n0 = read_u8(binary, offset)?;
    let n1 = read_u8(binary, offset + 1)?;
    let n2 = read_u8(binary, offset + 2)?;
    let n3 = read_u8(binary, offset + 3)?;
    let n4 = read_u8(binary, offset + 4)?;
    let n5 = read_u8(binary, offset + 5)?;
    let n6 = read_u8(binary, offset + 6)?;
    let n7 = read_u8(binary, offset + 7)?;
    let name: [u8; 8] = [n0, n1, n2, n3, n4, n5, n6, n7];
    let virtual_size = read_u32(binary, offset + 8)?;
    let virtual_address = read_u32(binary, offset + 12)?;
    let size_of_raw_data = read_u32(binary, offset + 16)?;
    let pointer_to_raw_data = read_u32(binary, offset + 20)?;
    let pointer_to_relocations = read_u32(binary, offset + 24)?;
    let pointer_to_linenumbers = read_u32(binary, offset + 28)?;
    let number_of_relocations = read_u16(binary, offset + 32)?;
    let number_of_linenumbers = read_u16(binary, offset + 34)?;
    let characteristics = read_u32(binary, offset + 36)?;
    let header = section_header {
        name,
        virtual_size,
        virtual_address,
        size_of_raw_data,
        pointer_to_raw_data,
        pointer_to_relocations,
        pointer_to_linenumbers,
        number_of_relocations,
        number_of_linenumbers,
        characteristics,
    };
    proof {
        assert(header@.name =~= binary@.subrange(offset as int, offset + 8));
    }
    Ok(header)
}

/// Parse the section table from a byte array at a given offset.
/// `number_of_sections` should be equal to number of sections
/// defined in the COFF header.  A record that would run past the end of
/// the buffer is skipped silently, so a truncated file still yields the
/// sections that were recoverable, never more than were declared.
pub fn parse_section_table(binary: &[u8], offset: usize, number_of_sections: u16) -> (r: Vec<
    section_header,
>)
    ensures
        r.deep_view() == spec_section_table(binary@, offset as int, number_of_sections as int),
        r@.len() <= number_of_sections,
{
    let mut headers: Vec<section_header> = Vec::new();
    let mut off = offset;
    let mut i: u16 = 0;
    while i < number_of_sections
        invariant
            i <= number_of_sections,
            headers@.len() == i as int,
            off == offset + SECTION_HEADER_SIZE * (i as int),
            spec_section_table(binary@, offset as int, number_of_sections as int)
                == headers.deep_view() + spec_section_table(
                binary@,
                off as int,
                number_of_sections - i,
            ),
        decreases number_of_sections - i,
    {
        if binary.len() < SECTION_HEADER_SIZE || off > binary.len() - SECTION_HEADER_SIZE {
            proof {
                lemma_section_table_empty(binary@, off as int, number_of_sections - i);
                assert(headers.deep_view() + spec_section_table(
                    binary@,
                    off as int,
                    number_of_sections - i,
                ) =~= headers.deep_view());
            }
            return headers;
        }
        let ghost prev = headers.deep_view();
        let header = match parse_section_header(binary, off) {
            Ok(header) => header,
            // the record was just checked to lie inside the buffer
            Err(_) => unreached(),
        };
        headers.push(header);
        proof {
            assert(headers.deep_view() =~= prev + seq![header@]);
        }
        proof {
            assert(prev + spec_section_table(binary@, off as int, number_of_sections - i)
                =~= headers.deep_view() + spec_section_table(
                binary@,
                off as int + SECTION_HEADER_SIZE,
                number_of_sections - i - 1,
            ));
        }
        off = off + SECTION_HEADER_SIZE;
        i = i + 1;
    }
    headers
}

/// The section should not be padded to the next boundary.
/// This flag is obsolete; it is valid only for object files.
pub const IMAGE_SCN_TYPE_NO_PAD: u32 = 0x00000008;

/// The section contains executable code.
pub const IMAGE_SCN_CNT_CODE: u32 = 0x00000020;

/// The section contains initialized data.
pub const IMAGE_SCN_CNT_INITALIZED_DATA: u32 = 0x00000040;

/// The section contains uninitialized data.
pub const IMAGE_SCN_CNT_UNINITALIZED_DATA: u32 = 0x00000080;

/// Reserved for future use.
pub const IMAGE_SCN_LNK_OTHER: u32 = 0x00000100;

/// The section contains comments or other information.
/// This is valid for object files only.
pub const IMAGE_SCN_LNK_INFO: u32 = 0x00000200;

/// The section will not become part of the image.
/// This is valid only for object files.
pub const IMAGE_SCN_LNK_REMOVE: u32 = 0x00000800;

/// The section contains COMDAT data.
/// This is valid only for object files.
pub const IMAGE_SCN_LNK_COMDAT: u32 = 0x00001000;

/// The section contains data referenced through the global pointer (GP).
pub const IMAGE_SCN_GPREL: u32 = 0x00008000;

/// Reserved for future use.
pub const IMAGE_SCN_MEM_PURGABLE: u32 = 0x00020000;

/// Reserved for future use.
pub const IMAGE_SCN_MEM_LOCKED: u32 = 0x00040000;

/// Reserved for future use.
pub const IMAGE_SCN_MEM_PRELOAD: u32 = 0x00080000;

/// Align data on a 1-byte boundary. Valid only for object files.
pub const IMAGE_SCN_ALIGN_1BYTES: u32 = 0x00100000;

/// Align data on a 2-byte boundary. Valid only for object files.
pub const IMAGE_SCN_ALIGN_2BYTES: u32 = 0x00200000;

/// Align data on a 4-byte boundary. Valid only for object files.
pub const IMAGE_SCN_ALIGN_4BYTES: u32 = 0x00300000;

/// Align data on a 8-byte boundary. Valid only for object files.
pub const IMAGE_SCN_ALIGN_8BYTES: u32 = 0x00400000;

/// Align data on a 16-byte boundary. Valid only for object files.
pub const IMAGE_SCN_ALIGN_16BYTES: u32 = 0x00500000;

/// Align data on a 32-byte boundary. Valid only for object files.
pub const IMAGE_SCN_ALIGN_32BYTES: u32 = 0x00600000;

/// Align data on a 64-byte boundary. Valid only for object files.
pub const IMAGE_SCN_ALIGN_64BYTES: u32 = 0x00700000;

/// Align data on a 128-byte boundary. Valid only for object files.
pub const IMAGE_SCN_ALIGN_128BYTES: u32 = 0x00800000;

/// Align data on a 256-byte boundary. Valid only for object files.
pub const IMAGE_SCN_ALIGN_256BYTES: u32 = 0x00900000;

/// Align data on a 512-byte boundary. Valid only for object files.
pub const IMAGE_SCN_ALIGN_512BYTES: u32 = 0x00A00000;

/// Align data on a 1024-byte boundary. Valid only for object files.
pub const IMAGE_SCN_ALIGN_1024BYTES: u32 = 0x00B00000;

/// Align data on a 2048-byte boundary. Valid only for object files.
pub const IMAGE_SCN_ALIGN_2048BYTES: u32 = 0x00C00000;

/// Align data on a 4096-byte boundary. Valid only for object files.
pub const IMAGE_SCN_ALIGN_4096BYTES: u32 = 0x00D00000;

/// Align data on a 8192-byte boundary. Valid only for object files.
pub const IMAGE_SCN_ALIGN_8192BYTES: u32 = 0x00E00000;

/// The section contains extended relocations.
pub const IMAGE_SCN_LNK_NRELOC_OVFL: u32 = 0x01000000;

/// The section can be discarded as needed.
pub const IMAGE_SCN_MEM_DISCARDABLE: u32 = 0x02000000;

/// The section cannot be cached.
pub const IMAGE_SCN_MEM_NOT_CACHED: u32 = 0x04000000;

/// The section is not pageable.
pub const IMAGE_SCN_MEM_NOT_PAGED: u32 = 0x08000000;

/// The section can be shared in memory.
pub const IMAGE_SCN_MEM_SHARED: u32 = 0x10000000;

/// The section can be executed as code.
pub const IMAGE_SCN_MEM_EXECUTE: u32 = 0x20000000;

/// The section can be read.
pub const IMAGE_SCN_MEM_READ: u32 = 0x40000000;

/// The section can be written to.
pub const IMAGE_SCN_MEM_WRITE: u32 = 0x80000000;

/// The three 32-bit positions that no documented section flag uses.
pub const SECTION_FLAGS_UNDEFINED: u32 = 0x00016000;

/// Bitflags that contain various information about
/// how a section should be loaded: a set of named bits over a 32-bit
/// integer.  Three bit positions carry no documented meaning and are
/// rejected when a flag set is built from a raw value.
#[derive(Clone, Copy, Debug, PartialEq, Eq, Structural)]
pub struct SectionFlags {
    /// The raw bit pattern of the flag set.
    pub bits: u32,
}

impl SectionFlags {
    /// The flag set holding exactly the bits of `v`, or `None` when `v`
    /// sets a bit that names no documented section flag.
    pub open spec fn spec_from_bits(v: u32) -> Option<SectionFlags> {
        if v & 0x00016000 == 0 {
            Some(SectionFlags { bits: v })
        } else {
            None
        }
    }

    /// Build the flag set holding exactly the bits of `v`, rejecting a
    /// value that sets an undocumented bit.
    pub fn from_bits(v: u32) -> (r: Option<SectionFlags>)
        ensures
            r == SectionFlags::spec_from_bits(v),
    {
        if v & SECTION_FLAGS_UNDEFINED == 0 {
            Some(SectionFlags { bits: v })
        } else {
            None
        }
    }

    /// The raw bit pattern of the flag set.
    pub fn bits(&self) -> (r: u32)
        ensures
            r == self.bits,
    {
        self.bits
    }

    /// Whether every flag set in `other` is also set in `self`.
    pub fn contains(&self, other: SectionFlags) -> (r: bool)
        ensures
            r == (self.bits & other.bits == other.bits),
    {
        self.bits & other.bits == other.bits
    }

    /// The flag set holding the flags of either operand.
    pub fn union(&self, other: SectionFlags) -> (r: SectionFlags)
        ensures
            r.bits == self.bits | other.bits,
    {
        SectionFlags { bits: self.bits | other.bits }
    }

    /// The flag set holding the flags common to both operands.
    pub fn intersection(&self, other: SectionFlags) -> (r: SectionFlags)
        ensures
            r.bits == self.bits & other.bits,
    {
        SectionFlags { bits: self.bits & other.bits }
    }
}

impl section_header {
    /// Get the name of a section as a string.
    /// Note that this string may contain null characters; the name is
    /// returned exactly when its eight bytes are valid UTF-8.
    pub fn get_name(&self) -> (r: Option<String>)
        ensures
            r is Some <==> valid_utf8(self.name@),
            r matches Some(s) ==> s@ == decode_utf8(self.name@),
    {
        let bytes = vstd::slice::slice_to_vec(self.name.as_slice());
        bytes_to_string(bytes)
    }

    /// Returns the Section Characteristics as bitflags
    pub fn get_characteristics(&self) -> (r: Option<SectionFlags>)
        ensures
            r == SectionFlags::spec_from_bits(self.characteristics),
    {
        SectionFlags::from_bits(self.characteristics)
    }
}

} // verus!
