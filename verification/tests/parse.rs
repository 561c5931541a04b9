use pe_parser::coff::CoffFileHeader;
use pe_parser::pe::parse_portable_executable;
use pe_parser::Error;

fn push_u16(buf: &mut Vec<u8>, v: u16) {
    buf.push((v & 0xff) as u8);
    buf.push((v >> 8) as u8);
}

fn push_u32(buf: &mut Vec<u8>, v: u32) {
    for i in 0..4 {
        buf.push(((v >> (8 * i)) & 0xff) as u8);
    }
}

fn push_u64(buf: &mut Vec<u8>, v: u64) {
    for i in 0..8 {
        buf.push(((v >> (8 * i)) & 0xff) as u8);
    }
}

/// A DOS stub of `0x40` bytes whose pointer at `0x3c` says the PE header
/// starts right after the stub.
fn dos_stub() -> Vec<u8> {
    let mut buf = vec![0u8; 0x3c];
    push_u16(&mut buf, 0x40);
    push_u16(&mut buf, 0);
    buf
}

fn push_coff(
    buf: &mut Vec<u8>,
    machine: u16,
    number_of_sections: u16,
    size_of_optional_header: u16,
) {
    push_u16(buf, machine);
    push_u16(buf, number_of_sections);
    push_u32(buf, 0x5f00_0000); // time_date_stamp
    push_u32(buf, 0); // pointer_to_symbol_table
    push_u32(buf, 0); // number_of_symbols
    push_u16(buf, size_of_optional_header);
    push_u16(buf, 0x0102); // characteristics
}

/// The fixed (pre-directory) part of a PE32 optional header.
fn push_optional_32_fixed(buf: &mut Vec<u8>) {
    push_u16(buf, 0x10b); // magic
    buf.push(14); // major_linker_version
    buf.push(29); // minor_linker_version
    push_u32(buf, 0x1200); // size_of_code
    push_u32(buf, 0x800); // size_of_initialized_data
    push_u32(buf, 0x10); // size_of_uninitialized_data
    push_u32(buf, 0x1374); // address_of_entry_point
    push_u32(buf, 0x1000); // base_of_code
    push_u32(buf, 0x2000); // base_of_data
    push_u32(buf, 0x0040_0000); // image_base
    push_u32(buf, 0x1000); // section_alignment
    push_u32(buf, 0x200); // file_alignment
    push_u16(buf, 6); // major_operating_system_version
    push_u16(buf, 0); // minor_operating_system_version
    push_u16(buf, 1); // major_image_version
    push_u16(buf, 2); // minor_image_version
    push_u16(buf, 6); // major_subsystem_version
    push_u16(buf, 0); // minor_subsystem_version
    push_u32(buf, 0); // win32_version_value
    push_u32(buf, 0x5000); // size_of_image
    push_u32(buf, 0x400); // size_of_headers
    push_u32(buf, 0xcafe); // check_sum
    push_u16(buf, 3); // subsystem (Windows CUI)
    push_u16(buf, 0x8160); // dll_characteristics
    push_u32(buf, 0x0010_0000); // size_of_stack_reserve
    push_u32(buf, 0x1000); // size_of_stack_commit
    push_u32(buf, 0x0010_0000); // size_of_heap_reserve
    push_u32(buf, 0x1000); // size_of_heap_commit
    push_u32(buf, 0); // loader_flags
    push_u32(buf, 16); // number_of_rva_and_sizes
}

/// The fixed (pre-directory) part of a PE32+ optional header.
fn push_optional_64_fixed(buf: &mut Vec<u8>) {
    push_u16(buf, 0x20b); // magic
    buf.push(14); // major_linker_version
    buf.push(29); // minor_linker_version
    push_u32(buf, 0x1200); // size_of_code
    push_u32(buf, 0x800); // size_of_initialized_data
    push_u32(buf, 0); // size_of_uninitialized_data
    push_u32(buf, 0x1374); // address_of_entry_point
    push_u32(buf, 0x1000); // base_of_code
    push_u64(buf, 0x0001_4000_0000); // image_base
    push_u32(buf, 0x1000); // section_alignment
    push_u32(buf, 0x200); // file_alignment
    push_u16(buf, 6); // major_operating_system_version
    push_u16(buf, 0); // minor_operating_system_version
    push_u16(buf, 0); // major_image_version
    push_u16(buf, 0); // minor_image_version
    push_u16(buf, 6); // major_subsystem_version
    push_u16(buf, 0); // minor_subsystem_version
    push_u32(buf, 0); // win32_version_value
    push_u32(buf, 0x7000); // size_of_image
    push_u32(buf, 0x400); // size_of_headers
    push_u32(buf, 0); // check_sum
    push_u16(buf, 2); // subsystem (Windows GUI)
    push_u16(buf, 0x8160); // dll_characteristics
    push_u64(buf, 0x0010_0000); // size_of_stack_reserve
    push_u64(buf, 0x1000); // size_of_stack_commit
    push_u64(buf, 0x0010_0000); // size_of_heap_reserve
    push_u64(buf, 0x1000); // size_of_heap_commit
    push_u32(buf, 0); // loader_flags
    push_u32(buf, 16); // number_of_rva_and_sizes
}

/// Sixteen data-directory entries; the first two are populated, the rest
/// (including the reserved `architecture` and `reserved` entries) zero.
fn push_data_directories(buf: &mut Vec<u8>) {
    push_u32(buf, 0x3000); // export_table.virtual_address
    push_u32(buf, 0x80); // export_table.size
    push_u32(buf, 0x3080); // import_table.virtual_address
    push_u32(buf, 0x40); // import_table.size
    for _ in 0..14 {
        push_u32(buf, 0);
        push_u32(buf, 0);
    }
}

fn push_section(buf: &mut Vec<u8>, name: &[u8; 8], characteristics: u32) {
    buf.extend_from_slice(name);
    push_u32(buf, 0x1200); // virtual_size
    push_u32(buf, 0x1000); // virtual_address
    push_u32(buf, 0x1200); // size_of_raw_data
    push_u32(buf, 0x400); // pointer_to_raw_data
    push_u32(buf, 0); // pointer_to_relocations
    push_u32(buf, 0); // pointer_to_linenumbers
    push_u16(buf, 0); // number_of_relocations
    push_u16(buf, 0); // number_of_linenumbers
    push_u32(buf, characteristics);
}

fn pe32_image() -> Vec<u8> {
    let mut buf = dos_stub();
    buf.extend_from_slice(b"PE\0\0");
    push_coff(&mut buf, 0x14c, 1, 224);
    push_optional_32_fixed(&mut buf);
    push_data_directories(&mut buf);
    push_section(&mut buf, b".text\0\0\0", 0x6000_0020);
    buf
}

fn pe64_image() -> Vec<u8> {
    let mut buf = dos_stub();
    buf.extend_from_slice(b"PE\0\0");
    push_coff(&mut buf, 0x8664, 2, 240);
    push_optional_64_fixed(&mut buf);
    push_data_directories(&mut buf);
    push_section(&mut buf, b".text\0\0\0", 0x6000_0020);
    push_section(&mut buf, b".data\0\0\0", 0xc000_0040);
    buf
}

#[test]
fn empty_buffer_is_out_of_range() {
    let r = parse_portable_executable(&[]);
    assert!(matches!(r, Err(Error::OffsetOutOfRange)));
}

#[test]
fn short_buffers_are_out_of_range() {
    for len in 0..0x3e {
        let buf = vec![0u8; len];
        let r = parse_portable_executable(&buf);
        assert!(matches!(r, Err(Error::OffsetOutOfRange)));
    }
}

#[test]
fn wrong_signature_is_missing_pe_header() {
    let mut buf = dos_stub();
    buf.extend_from_slice(b"PF\0\0");
    let r = parse_portable_executable(&buf);
    assert!(matches!(r, Err(Error::MissingPeHeader)));
}

#[test]
fn non_utf8_signature_bytes_are_missing_pe_header() {
    let mut buf = dos_stub();
    buf.extend_from_slice(&[0xff, 0xfe, 0xfd, 0xfc]);
    let r = parse_portable_executable(&buf);
    assert!(matches!(r, Err(Error::MissingPeHeader)));
}

#[test]
fn zeroed_pointer_resolves_to_offset_zero() {
    // The pointer at 0x3c reads zero, so the signature is looked for at
    // offset zero, where the buffer holds zero bytes instead.
    let buf = vec![0u8; 0x40];
    let r = parse_portable_executable(&buf);
    assert!(matches!(r, Err(Error::MissingPeHeader)));
}

#[test]
fn signature_past_end_is_out_of_range() {
    let mut buf = vec![0u8; 0x3c];
    push_u16(&mut buf, 0x1000);
    push_u16(&mut buf, 0);
    let r = parse_portable_executable(&buf);
    assert!(matches!(r, Err(Error::OffsetOutOfRange)));
}

#[test]
fn coff_only_image_parses_empty() {
    // 0x3c zero bytes, the pointer 0x40, the signature, and a COFF header
    // that declares no optional header and no sections.
    let mut buf = dos_stub();
    buf.extend_from_slice(b"PE\0\0");
    push_coff(&mut buf, 0x14c, 0, 0);
    let pe = parse_portable_executable(&buf).expect("parse");
    assert_eq!(pe.coff.number_of_sections, 0);
    assert!(pe.optional_header_32.is_none());
    assert!(pe.optional_header_64.is_none());
    assert!(pe.section_table.is_empty());
}

#[test]
fn declared_sections_missing_yield_empty_table() {
    // The COFF header declares five sections but the buffer ends right
    // after it: the skip-on-truncation policy yields an empty table.
    let mut buf = dos_stub();
    buf.extend_from_slice(b"PE\0\0");
    push_coff(&mut buf, 0x14c, 5, 0);
    let pe = parse_portable_executable(&buf).expect("parse");
    assert_eq!(pe.coff.number_of_sections, 5);
    assert!(pe.optional_header_32.is_none());
    assert!(pe.optional_header_64.is_none());
    assert!(pe.section_table.is_empty());
}

#[test]
fn truncated_coff_header_is_out_of_range() {
    let mut buf = dos_stub();
    buf.extend_from_slice(b"PE\0\0");
    buf.extend_from_slice(&[0u8; 10]);
    let r = parse_portable_executable(&buf);
    assert!(matches!(r, Err(Error::OffsetOutOfRange)));
}

#[test]
fn missing_magic_number_is_reported() {
    let mut buf = dos_stub();
    buf.extend_from_slice(b"PE\0\0");
    push_coff(&mut buf, 0x14c, 0, 224);
    push_u16(&mut buf, 0x107); // a ROM image magic: not a known value
    let r = parse_portable_executable(&buf);
    assert!(matches!(r, Err(Error::MissingMagicNumber)));
}

#[test]
fn magic_past_end_is_out_of_range() {
    let mut buf = dos_stub();
    buf.extend_from_slice(b"PE\0\0");
    push_coff(&mut buf, 0x14c, 0, 224);
    let r = parse_portable_executable(&buf);
    assert!(matches!(r, Err(Error::OffsetOutOfRange)));
}

#[test]
fn truncated_optional_header_is_out_of_range() {
    let mut buf = dos_stub();
    buf.extend_from_slice(b"PE\0\0");
    push_coff(&mut buf, 0x14c, 0, 224);
    push_u16(&mut buf, 0x10b);
    buf.extend_from_slice(&[0u8; 100]); // far less than the 224 bytes owed
    let r = parse_portable_executable(&buf);
    assert!(matches!(r, Err(Error::OffsetOutOfRange)));
}

#[test]
fn pe32_image_parses_exactly() {
    let buf = pe32_image();
    let pe = parse_portable_executable(&buf).expect("parse");

    assert_eq!(pe.coff.machine, 0x14c);
    assert_eq!(pe.coff.number_of_sections, 1);
    assert_eq!(pe.coff.time_date_stamp, 0x5f00_0000);
    assert_eq!(pe.coff.pointer_to_symbol_table, 0);
    assert_eq!(pe.coff.number_of_symbols, 0);
    assert_eq!(pe.coff.size_of_optional_header, 224);
    assert_eq!(pe.coff.characteristics, 0x0102);

    let opt = pe.optional_header_32.expect("32-bit header");
    assert!(pe.optional_header_64.is_none());
    assert_eq!(opt.magic, 0x10b);
    assert_eq!(opt.major_linker_version, 14);
    assert_eq!(opt.minor_linker_version, 29);
    assert_eq!(opt.size_of_code, 0x1200);
    assert_eq!(opt.size_of_initialized_data, 0x800);
    assert_eq!(opt.size_of_uninitialized_data, 0x10);
    assert_eq!(opt.address_of_entry_point, 0x1374);
    assert_eq!(opt.base_of_code, 0x1000);
    assert_eq!(opt.base_of_data, 0x2000);
    assert_eq!(opt.image_base, 0x0040_0000);
    assert_eq!(opt.section_alignment, 0x1000);
    assert_eq!(opt.file_alignment, 0x200);
    assert_eq!(opt.major_operating_system_version, 6);
    assert_eq!(opt.minor_operating_system_version, 0);
    assert_eq!(opt.major_image_version, 1);
    assert_eq!(opt.minor_image_version, 2);
    assert_eq!(opt.major_subsystem_version, 6);
    assert_eq!(opt.minor_subsystem_version, 0);
    assert_eq!(opt.win32_version_value, 0);
    assert_eq!(opt.size_of_image, 0x5000);
    assert_eq!(opt.size_of_headers, 0x400);
    assert_eq!(opt.check_sum, 0xcafe);
    assert_eq!(opt.subsystem, 3);
    assert_eq!(opt.dll_characteristics, 0x8160);
    assert_eq!(opt.size_of_stack_reserve, 0x0010_0000);
    assert_eq!(opt.size_of_stack_commit, 0x1000);
    assert_eq!(opt.size_of_heap_reserve, 0x0010_0000);
    assert_eq!(opt.size_of_heap_commit, 0x1000);
    assert_eq!(opt.loader_flags, 0);
    assert_eq!(opt.number_of_rva_and_sizes, 16);

    assert_eq!(opt.data_directories.export_table.virtual_address, 0x3000);
    assert_eq!(opt.data_directories.export_table.size, 0x80);
    assert_eq!(opt.data_directories.import_table.virtual_address, 0x3080);
    assert_eq!(opt.data_directories.import_table.size, 0x40);
    assert_eq!(opt.data_directories.resource_table.virtual_address, 0);
    assert_eq!(opt.data_directories.clr_runtime_header.size, 0);

    assert_eq!(pe.section_table.len(), 1);
    let sec = &pe.section_table[0];
    assert_eq!(&sec.name, b".text\0\0\0");
    assert_eq!(sec.virtual_size, 0x1200);
    assert_eq!(sec.virtual_address, 0x1000);
    assert_eq!(sec.size_of_raw_data, 0x1200);
    assert_eq!(sec.pointer_to_raw_data, 0x400);
    assert_eq!(sec.pointer_to_relocations, 0);
    assert_eq!(sec.pointer_to_linenumbers, 0);
    assert_eq!(sec.number_of_relocations, 0);
    assert_eq!(sec.number_of_linenumbers, 0);
    assert_eq!(sec.characteristics, 0x6000_0020);
}

#[test]
fn pe64_image_parses_exactly() {
    let buf = pe64_image();
    let pe = parse_portable_executable(&buf).expect("parse");

    assert_eq!(pe.coff.machine, 0x8664);
    assert_eq!(pe.coff.number_of_sections, 2);
    assert_eq!(pe.coff.size_of_optional_header, 240);

    assert!(pe.optional_header_32.is_none());
    let opt = pe.optional_header_64.expect("64-bit header");
    assert_eq!(opt.magic, 0x20b);
    assert_eq!(opt.major_linker_version, 14);
    assert_eq!(opt.minor_linker_version, 29);
    assert_eq!(opt.size_of_code, 0x1200);
    assert_eq!(opt.address_of_entry_point, 0x1374);
    assert_eq!(opt.base_of_code, 0x1000);
    assert_eq!(opt.image_base, 0x0001_4000_0000);
    assert_eq!(opt.section_alignment, 0x1000);
    assert_eq!(opt.file_alignment, 0x200);
    assert_eq!(opt.win32_version_value, 0);
    assert_eq!(opt.subsystem, 2);
    assert_eq!(opt.dll_characteristics, 0x8160);
    assert_eq!(opt.size_of_stack_reserve, 0x0010_0000);
    assert_eq!(opt.size_of_stack_commit, 0x1000);
    assert_eq!(opt.size_of_heap_reserve, 0x0010_0000);
    assert_eq!(opt.size_of_heap_commit, 0x1000);
    assert_eq!(opt.loader_flags, 0);
    assert_eq!(opt.number_of_rva_and_sizes, 16);
    assert_eq!(opt.data_directories.export_table.virtual_address, 0x3000);
    assert_eq!(opt.data_directories.reserved.size, 0);

    assert_eq!(pe.section_table.len(), 2);
    assert_eq!(&pe.section_table[0].name, b".text\0\0\0");
    assert_eq!(&pe.section_table[1].name, b".data\0\0\0");
    assert_eq!(pe.section_table[1].characteristics, 0xc000_0040);
}

#[test]
fn reserved_fields_are_zero_in_well_formed_images() {
    // The reserved data-directory entries and reserved header fields of a
    // well-formed image read back as zero; the parser reports them as the
    // file holds them and does not enforce the convention.
    let buf = pe32_image();
    let pe = parse_portable_executable(&buf).expect("parse");
    let opt = pe.optional_header_32.expect("32-bit header");
    assert_eq!(opt.data_directories.architecture.virtual_address, 0);
    assert_eq!(opt.data_directories.architecture.size, 0);
    assert_eq!(opt.data_directories.reserved.virtual_address, 0);
    assert_eq!(opt.data_directories.reserved.size, 0);
    assert_eq!(opt.win32_version_value, 0);
    assert_eq!(opt.loader_flags, 0);

    let buf = pe64_image();
    let pe = parse_portable_executable(&buf).expect("parse");
    let opt = pe.optional_header_64.expect("64-bit header");
    assert_eq!(opt.data_directories.architecture.virtual_address, 0);
    assert_eq!(opt.data_directories.architecture.size, 0);
    assert_eq!(opt.data_directories.reserved.virtual_address, 0);
    assert_eq!(opt.data_directories.reserved.size, 0);
    assert_eq!(opt.win32_version_value, 0);
    assert_eq!(opt.loader_flags, 0);
}

#[test]
fn parsing_twice_yields_identical_results() {
    for buf in [pe32_image(), pe64_image()] {
        let first = parse_portable_executable(&buf).expect("first parse");
        let second = parse_portable_executable(&buf).expect("second parse");
        assert_eq!(first.coff, second.coff);
        assert_eq!(first.optional_header_32, second.optional_header_32);
        assert_eq!(first.optional_header_64, second.optional_header_64);
        assert_eq!(first.section_table, second.section_table);
    }
}

#[test]
fn partially_truncated_section_table_keeps_whole_records() {
    // Three sections declared, but the buffer ends twelve bytes into the
    // third record: the first two parse, the third is skipped.
    let mut buf = dos_stub();
    buf.extend_from_slice(b"PE\0\0");
    push_coff(&mut buf, 0x14c, 3, 0);
    push_section(&mut buf, b".text\0\0\0", 0x6000_0020);
    push_section(&mut buf, b".data\0\0\0", 0xc000_0040);
    buf.extend_from_slice(&[0u8; 12]);
    let pe = parse_portable_executable(&buf).expect("parse");
    assert_eq!(pe.coff.number_of_sections, 3);
    assert_eq!(pe.section_table.len(), 2);
    assert_eq!(&pe.section_table[0].name, b".text\0\0\0");
    assert_eq!(&pe.section_table[1].name, b".data\0\0\0");
}

#[test]
fn section_count_never_exceeds_declaration() {
    let mut buf = dos_stub();
    buf.extend_from_slice(b"PE\0\0");
    push_coff(&mut buf, 0x14c, 40, 0);
    for _ in 0..3 {
        push_section(&mut buf, b"sect\0\0\0\0", 0x4000_0040);
    }
    let pe = parse_portable_executable(&buf).expect("parse");
    assert!(pe.section_table.len() <= pe.coff.number_of_sections as usize);
    assert_eq!(pe.section_table.len(), 3);
}

#[test]
fn arbitrary_bytes_never_panic() {
    // A small linear congruential generator drives buffers of many
    // lengths and contents through the parser; every call must return,
    // with either a parsed image or a named error.
    let mut state: u64 = 0x1234_5678_9abc_def0;
    let mut step = || {
        state = state.wrapping_mul(6364136223846793005).wrapping_add(1442695040888963407);
        (state >> 33) as u8
    };
    for len in 0..600 {
        let mut buf = Vec::with_capacity(len);
        for _ in 0..len {
            buf.push(step());
        }
        match parse_portable_executable(&buf) {
            Ok(pe) => {
                assert!(pe.section_table.len() <= pe.coff.number_of_sections as usize);
            }
            Err(
                Error::OffsetOutOfRange
                | Error::BadOptionalHeader
                | Error::BadString
                | Error::MissingPeHeader
                | Error::MissingCoffHeader
                | Error::MissingMagicNumber,
            ) => {}
        }
    }
}

#[test]
fn default_values_are_all_zero() {
    let coff = CoffFileHeader::default();
    assert_eq!(coff.machine, 0);
    assert_eq!(coff.number_of_sections, 0);
    assert_eq!(coff.time_date_stamp, 0);
    assert_eq!(coff.pointer_to_symbol_table, 0);
    assert_eq!(coff.number_of_symbols, 0);
    assert_eq!(coff.size_of_optional_header, 0);
    assert_eq!(coff.characteristics, 0);

    let opt32 = pe_parser::optional::OptionalHeader32::default();
    assert_eq!(opt32.magic, 0);
    assert_eq!(opt32.image_base, 0);
    assert_eq!(opt32.data_directories.export_table.virtual_address, 0);
    assert_eq!(opt32.data_directories.reserved.size, 0);

    let opt64 = pe_parser::optional::OptionalHeader64::default();
    assert_eq!(opt64.magic, 0);
    assert_eq!(opt64.image_base, 0);
    assert_eq!(opt64.size_of_stack_reserve, 0);

    let sec = pe_parser::section::section_header::default();
    assert_eq!(sec.name, [0u8; 8]);
    assert_eq!(sec.characteristics, 0);
}
