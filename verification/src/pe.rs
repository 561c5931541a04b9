use crate::coff::{
    parse_coff_file_header, spec_coff_file_header, CoffFileHeader, COFF_FILE_HEADER_SIZE,
};
use crate::optional::{
    spec_optional_header_32, spec_optional_header_64, Magic, Optional, OptionalHeader32,
    OptionalHeader64, MAGIC_PE32, MAGIC_PE64, OPTIONAL_HEADER_32_SIZE, OPTIONAL_HEADER_64_SIZE,
};
use crate::reader::{read_u16, spec_le_u16};
use crate::section::{
    lemma_section_table_count, parse_section_table, spec_section_table, section_header,
    SectionHeaderView, SECTION_HEADER_SIZE,
};
use crate::Error;
use vstd::prelude::*;

verus! {

/// Byte offset of the DOS-stub field that points at the PE header.
pub const IMAGE_DOS_PE_SIGNATURE_OFFSET: usize = 0x3c;

/// Representation of the sections of a Portable Executable
pub struct PortableExecutable {
    /// COFF File Header (Object and Image)
    pub coff: CoffFileHeader,
    /// PE32 Optional Header (Image Only)
    pub optional_header_32: Option<OptionalHeader32>,
    /// PE32+ Optional Header (Image Only)
    pub optional_header_64: Option<OptionalHeader64>,
    /// Table containing a list of section headers
    pub section_table: Vec<section_header>,
}

/// The mathematical image of a parsed Portable Executable: the same
/// headers, with the section table as a sequence.
pub struct PortableExecutableView {
    /// COFF File Header (Object and Image)
    pub coff: CoffFileHeader,
    /// PE32 Optional Header (Image Only)
    pub optional_header_32: Option<OptionalHeader32>,
    /// PE32+ Optional Header (Image Only)
    pub optional_header_64: Option<OptionalHeader64>,
    /// The decoded section headers, in the order they stand in the file.
    pub section_table: Seq<SectionHeaderView>,
}

impl View for PortableExecutable {
    type V = PortableExecutableView;

    open spec fn view(&self) -> PortableExecutableView {
        PortableExecutableView {
            coff: self.coff,
            optional_header_32: self.optional_header_32,
            optional_header_64: self.optional_header_64,
            section_table: self.section_table.deep_view(),
        }
    }
}

/// Whether the four bytes at offset `off` of `b` are the PE signature,
/// the ASCII bytes `P E \0 \0`.
pub open spec fn spec_has_pe_signature(b: Seq<u8>, off: int) -> bool {
    b[off] == 0x50 && b[off + 1] == 0x45 && b[off + 2] == 0 && b[off + 3] == 0
}

/// The byte offset of the PE signature, as the DOS stub declares it.
pub open spec fn spec_pe_offset(b: Seq<u8>) -> int {
    spec_le_u16(b, IMAGE_DOS_PE_SIGNATURE_OFFSET as int) as int
}

/// The byte offset at which the section table starts: right after the
/// COFF header when no optional header is declared, else right after the
/// optional-header variant that the magic selects.  Meaningful on buffers
/// that parse successfully.
pub open spec fn spec_section_table_offset(b: Seq<u8>) -> int {
    let coff_off = spec_pe_offset(b) + 4;
    let coff = spec_coff_file_header(b, coff_off);
    if coff.size_of_optional_header == 0 {
        coff_off + COFF_FILE_HEADER_SIZE
    } else if spec_le_u16(b, coff_off + COFF_FILE_HEADER_SIZE) == MAGIC_PE32 {
        coff_off + COFF_FILE_HEADER_SIZE + OPTIONAL_HEADER_32_SIZE
    } else {
        coff_off + COFF_FILE_HEADER_SIZE + OPTIONAL_HEADER_64_SIZE
    }
}

/// What parsing the buffer `b` yields: either the parsed image or the
/// first failure, following the documented steps in order.  The DOS-stub
/// pointer is read at its fixed offset; the four bytes it resolves to must
/// be the PE signature; the twenty-byte COFF header follows the signature;
/// a non-zero declared optional-header size demands a known magic and then
/// the optional-header variant that the magic selects; the section table
/// follows, its declared length taken from the COFF header, records past
/// the end of the buffer skipped.
pub open spec fn spec_parse(b: Seq<u8>) -> Result<PortableExecutableView, Error> {
    if b.len() < IMAGE_DOS_PE_SIGNATURE_OFFSET + 2 {
        Err(Error::OffsetOutOfRange)
    } else {
        let sig = spec_pe_offset(b);
        if sig + 4 > b.len() {
            Err(Error::OffsetOutOfRange)
        } else if !spec_has_pe_signature(b, sig) {
            Err(Error::MissingPeHeader)
        } else if sig + 4 + COFF_FILE_HEADER_SIZE > b.len() {
            Err(Error::OffsetOutOfRange)
        } else {
            let coff = spec_coff_file_header(b, sig + 4);
            let cur = sig + 4 + COFF_FILE_HEADER_SIZE;
            if coff.size_of_optional_header == 0 {
                Ok(
                    PortableExecutableView {
                        coff,
                        optional_header_32: None,
                        optional_header_64: None,
                        section_table: spec_section_table(b, cur, coff.number_of_sections as int),
                    },
                )
            } else if cur + 2 > b.len() {
                Err(Error::OffsetOutOfRange)
            } else {
                let magic = spec_le_u16(b, cur);
                if magic == MAGIC_PE32 {
                    if cur + OPTIONAL_HEADER_32_SIZE <= b.len() {
                        Ok(
                            PortableExecutableView {
                                coff,
                                optional_header_32: Some(spec_optional_header_32(b, cur)),
                                optional_header_64: None,
                                section_table: spec_section_table(
                                    b,
                                    cur + OPTIONAL_HEADER_32_SIZE,
                                    coff.number_of_sections as int,
                                ),
                            },
                        )
                    } else {
                        Err(Error::OffsetOutOfRange)
                    }
                } else if magic == MAGIC_PE64 {
                    if cur + OPTIONAL_HEADER_64_SIZE <= b.len() {
                        Ok(
                            PortableExecutableView {
                                coff,
                                optional_header_32: None,
                                optional_header_64: Some(spec_optional_header_64(b, cur)),
                                section_table: spec_section_table(
                                    b,
                                    cur + OPTIONAL_HEADER_64_SIZE,
                                    coff.number_of_sections as int,
                                ),
                            },
                        )
                    } else {
                        Err(Error::OffsetOutOfRange)
                    }
                } else {
                    Err(Error::MissingMagicNumber)
                }
            }
        }
    }
}

/// Parse a Portable Executable from a given byte array.  The result is
/// exactly what `spec_parse` yields on the bytes of the buffer: the parse
/// is total, it never panics, and the first failure is returned as a named
/// error with no partial result.
pub fn parse_portable_executable(binary: &[u8]) -> (r: Result<PortableExecutable, Error>)
    ensures
        r matches Ok(pe) ==> spec_parse(binary@) == Ok::<PortableExecutableView, Error>(pe@),
        r matches Err(e) ==> spec_parse(binary@) == Err::<PortableExecutableView, Error>(e),
{
    let sig = read_u16(binary, IMAGE_DOS_PE_SIGNATURE_OFFSET)?;
    let mut offset: usize = sig as usize;

    if binary.len() < 4 || offset > binary.len() - 4 {
        return Err(Error::OffsetOutOfRange);
    }
    if !(binary[offset] == 0x50 && binary[offset + 1] == 0x45 && binary[offset + 2] == 0
        && binary[offset + 3] == 0) {
        return Err(Error::MissingPeHeader);
    }
    offset = offset + 4;

    let coff = parse_coff_file_header(binary, offset)?;
    offset = offset + COFF_FILE_HEADER_SIZE;

    let mut optional_header_32: Option<OptionalHeader32> = None;
    let mut optional_header_64: Option<OptionalHeader64> = None;

    if coff.size_of_optional_header != 0 {
        let magic = match Magic::from_u16(read_u16(binary, offset)?) {
            Some(magic) => magic,
            None => {
                return Err(Error::MissingMagicNumber);
            },
        };

        match magic {
            Magic::PE32 => {
                optional_header_32 = Some(OptionalHeader32::parse_optional_header(binary, &mut offset)?);
            },
            Magic::PE64 => {
                optional_header_64 = Some(OptionalHeader64::parse_optional_header(binary, &mut offset)?);
            },
        }
    }

    let section_table = parse_section_table(binary, offset, coff.number_of_sections);

    Ok(PortableExecutable { coff, optional_header_32, optional_header_64, section_table })
}

/// Parsing is deterministic: results parsed from the same byte buffer
/// agree field for field.
pub proof fn lemma_parse_deterministic(
    b: Seq<u8>,
    r1: PortableExecutableView,
    r2: PortableExecutableView,
)
    requires
        spec_parse(b) == Ok::<PortableExecutableView, Error>(r1),
        spec_parse(b) == Ok::<PortableExecutableView, Error>(r2),
    ensures
        r1.coff == r2.coff,
        r1.optional_header_32 == r2.optional_header_32,
        r1.optional_header_64 == r2.optional_header_64,
        r1.section_table == r2.section_table,
{
}

/// A buffer too short to hold the two-byte DOS-stub pointer that ends at
/// offset 0x3E is rejected with an out-of-range error.
pub proof fn lemma_short_buffer_out_of_range(b: Seq<u8>)
    requires
        b.len() < 0x3e,
    ensures
        spec_parse(b) == Err::<PortableExecutableView, Error>(Error::OffsetOutOfRange),
{
}

/// When the four bytes at the resolved PE offset exist but are not the
/// signature `P E \0 \0`, parsing fails by reporting the header missing.
pub proof fn lemma_bad_signature_rejected(b: Seq<u8>)
    requires
        b.len() >= 0x3e,
        spec_pe_offset(b) + 4 <= b.len(),
        !spec_has_pe_signature(b, spec_pe_offset(b)),
    ensures
        spec_parse(b) == Err::<PortableExecutableView, Error>(Error::MissingPeHeader),
{
}

/// The optional-header variants of a successfully parsed image are
/// mutually exclusive and tied to the magic: a 32-bit header is present
/// exactly when the magic bytes hold the PE32 code (and then repeats that
/// code in its magic field), likewise for the 64-bit variant, and no
/// optional header is present exactly when the COFF header declares size
/// zero.
pub proof fn lemma_optional_header_variant(b: Seq<u8>, pe: PortableExecutableView)
    requires
        spec_parse(b) == Ok::<PortableExecutableView, Error>(pe),
    ensures
        !(pe.optional_header_32 is Some && pe.optional_header_64 is Some),
        pe.coff.size_of_optional_header == 0 <==> (pe.optional_header_32 is None
            && pe.optional_header_64 is None),
        pe.optional_header_32 is Some <==> (pe.coff.size_of_optional_header != 0 && spec_le_u16(
            b,
            spec_pe_offset(b) + 4 + COFF_FILE_HEADER_SIZE,
        ) == MAGIC_PE32),
        pe.optional_header_64 is Some <==> (pe.coff.size_of_optional_header != 0 && spec_le_u16(
            b,
            spec_pe_offset(b) + 4 + COFF_FILE_HEADER_SIZE,
        ) == MAGIC_PE64),
        pe.optional_header_32 matches Some(h) ==> h.magic == MAGIC_PE32,
        pe.optional_header_64 matches Some(h) ==> h.magic == MAGIC_PE64,
{
}

/// A successfully parsed image never yields more sections than the COFF
/// header declared; it yields exactly the declared count when the whole
/// declared table lies inside the buffer, and strictly fewer exactly when
/// the buffer cuts the declared table short.
pub proof fn lemma_section_count_bound(b: Seq<u8>, pe: PortableExecutableView)
    requires
        spec_parse(b) == Ok::<PortableExecutableView, Error>(pe),
    ensures
        pe.section_table.len() <= pe.coff.number_of_sections,
        pe.section_table.len() == pe.coff.number_of_sections <==> (pe.coff.number_of_sections == 0
            || spec_section_table_offset(b) + SECTION_HEADER_SIZE * pe.coff.number_of_sections
            <= b.len()),
{
    lemma_section_table_count(
        b,
        spec_section_table_offset(b),
        pe.coff.number_of_sections as int,
    );
}

} // verus!
