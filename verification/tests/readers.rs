use pe_parser::coff::{CoffFileHeader, Characteristics, MachineTypes};
use pe_parser::optional::{DLLCharacteristics, Magic, Optional, OptionalHeader32, Subsystem};
use pe_parser::reader;
use pe_parser::relocation::{
    ARM64RelocationType, ARMRelocationType, I386RelocationType, IA64RelocationType,
    M32RRelocationType, MIPSRelocationType, PowerPCRelocationType, SuperHRelocationType,
    X86RelocationType,
};
use pe_parser::scribe::Scribe;
use pe_parser::section::{parse_section_table, section_header, SectionFlags};
use pe_parser::Error;

#[test]
fn reader_reads_little_endian_values() {
    let buf: &[u8] = &[0x01, 0x02, 0x03, 0x04, 0x05, 0x06, 0x07, 0x08];
    assert_eq!(reader::read_u8(buf, 0), Ok(0x01));
    assert_eq!(reader::read_u8(buf, 7), Ok(0x08));
    assert_eq!(reader::read_u16(buf, 0), Ok(0x0201));
    assert_eq!(reader::read_u16(buf, 6), Ok(0x0807));
    assert_eq!(reader::read_u32(buf, 0), Ok(0x0403_0201));
    assert_eq!(reader::read_u32(buf, 4), Ok(0x0807_0605));
    assert_eq!(reader::read_u64(buf, 0), Ok(0x0807_0605_0403_0201));
}

#[test]
fn reader_rejects_reads_past_the_end() {
    let buf: &[u8] = &[0x01, 0x02, 0x03];
    assert_eq!(reader::read_u8(buf, 3), Err(Error::OffsetOutOfRange));
    assert_eq!(reader::read_u16(buf, 2), Err(Error::OffsetOutOfRange));
    assert_eq!(reader::read_u32(buf, 0), Err(Error::OffsetOutOfRange));
    assert_eq!(reader::read_u64(buf, 0), Err(Error::OffsetOutOfRange));
    assert_eq!(reader::read_u16(buf, usize::MAX), Err(Error::OffsetOutOfRange));
}

#[test]
fn scribe_reads_match_the_buffer() {
    let buf: Vec<u8> = vec![0x50, 0x45, 0x00, 0x00, 0xff, 0x7f];
    assert_eq!(buf.read_u8(0), Ok(0x50));
    assert_eq!(buf.read_u16(4), Ok(0x7fff));
    assert_eq!(buf.read_u32(0), Ok(0x0000_4550));
    assert_eq!(buf.read_u8(6), Err(Error::OffsetOutOfRange));
    assert_eq!(buf.read_u16(5), Err(Error::OffsetOutOfRange));
    assert_eq!(buf.read_u32(3), Err(Error::OffsetOutOfRange));
}

#[test]
fn scribe_read_string_decodes_utf8() {
    let buf: Vec<u8> = b"PE\0\0rest".to_vec();
    assert_eq!(buf.read_string(0, 4), Ok(String::from("PE\0\0")));
    assert_eq!(buf.read_string(4, 4), Ok(String::from("rest")));
    assert_eq!(buf.read_string(0, 0), Ok(String::new()));
}

#[test]
fn scribe_read_string_reports_both_failures() {
    let buf: Vec<u8> = vec![0xff, 0xfe, 0x41, 0x42];
    assert_eq!(buf.read_string(0, 2), Err(Error::BadString));
    assert_eq!(buf.read_string(2, 2), Ok(String::from("AB")));
    assert_eq!(buf.read_string(2, 3), Err(Error::OffsetOutOfRange));
    assert_eq!(buf.read_string(5, 1), Err(Error::OffsetOutOfRange));
}

#[test]
fn machine_types_map_documented_codes() {
    assert_eq!(MachineTypes::from_u16(0x0), Some(MachineTypes::Unknown));
    assert_eq!(MachineTypes::from_u16(0x8664), Some(MachineTypes::AMD64));
    assert_eq!(MachineTypes::from_u16(0x14c), Some(MachineTypes::I386));
    assert_eq!(MachineTypes::from_u16(0xaa64), Some(MachineTypes::ARM64));
    assert_eq!(MachineTypes::from_u16(0x5064), Some(MachineTypes::RISCV64));
    assert_eq!(MachineTypes::from_u16(0x169), Some(MachineTypes::WCEMIPSV2));
    assert_eq!(MachineTypes::from_u16(0x1234), None);
}

#[test]
fn coff_header_getters_expose_raw_fields() {
    let header = CoffFileHeader {
        machine: 0x1c0,
        number_of_sections: 1,
        time_date_stamp: 1,
        pointer_to_symbol_table: 0,
        number_of_symbols: 0,
        size_of_optional_header: 0,
        characteristics: 0xffff,
    };
    assert_eq!(header.get_machine_type(), Some(MachineTypes::ARM));
    let flags = header.get_characteristics().expect("all bits are documented");
    assert_eq!(flags.bits(), 0xffff);
}

#[test]
fn characteristics_accept_every_bit_pattern() {
    for v in [0u16, 1, 0x0102, 0x8000, 0xffff] {
        let flags = Characteristics::from_bits(v).expect("every bit is documented");
        assert_eq!(flags.bits(), v);
    }
    let a = Characteristics::from_bits(0x0003).unwrap();
    let b = Characteristics::from_bits(0x0006).unwrap();
    assert_eq!(a.union(b).bits(), 0x0007);
    assert_eq!(a.intersection(b).bits(), 0x0002);
    assert!(a.contains(Characteristics::from_bits(0x0001).unwrap()));
    assert!(!a.contains(b));
}

#[test]
fn dll_characteristics_reject_the_undefined_bit() {
    assert!(DLLCharacteristics::from_bits(0x0010).is_none());
    assert!(DLLCharacteristics::from_bits(0x8170).is_none());
    let flags = DLLCharacteristics::from_bits(0x8160).expect("documented bits");
    assert_eq!(flags.bits(), 0x8160);
    assert!(flags.contains(DLLCharacteristics::from_bits(0x0100).unwrap()));
}

#[test]
fn subsystem_maps_documented_codes() {
    assert_eq!(Subsystem::from_u16(0), Some(Subsystem::Unknown));
    assert_eq!(Subsystem::from_u16(2), Some(Subsystem::WindowsGUI));
    assert_eq!(Subsystem::from_u16(3), Some(Subsystem::WindowsCUI));
    assert_eq!(Subsystem::from_u16(4), None);
    assert_eq!(Subsystem::from_u16(6), None);
    assert_eq!(Subsystem::from_u16(15), None);
    assert_eq!(Subsystem::from_u16(16), Some(Subsystem::WindowsBootApplication));
    assert_eq!(Subsystem::from_u16(17), None);
}

#[test]
fn magic_maps_only_the_two_known_values() {
    assert_eq!(Magic::from_u16(0x10b), Some(Magic::PE32));
    assert_eq!(Magic::from_u16(0x20b), Some(Magic::PE64));
    assert_eq!(Magic::from_u16(0x107), None);
    assert_eq!(Magic::from_u16(0), None);
}

#[test]
fn optional_header_getters_expose_raw_fields() {
    let mut header = OptionalHeader32::default();
    header.subsystem = 9;
    header.dll_characteristics = 0x0040;
    assert_eq!(header.get_subsystem(), Some(Subsystem::WindowsCEGUI));
    assert_eq!(header.get_dll_characteristics().unwrap().bits(), 0x0040);
}

#[test]
fn section_flags_reject_undefined_bits() {
    assert!(SectionFlags::from_bits(0x2000).is_none());
    assert!(SectionFlags::from_bits(0x4000).is_none());
    assert!(SectionFlags::from_bits(0x0001_0000).is_none());
    let flags = SectionFlags::from_bits(0x6000_0020).expect("documented bits");
    assert_eq!(flags.bits(), 0x6000_0020);
    let readonly = SectionFlags::from_bits(0x4000_0000).unwrap();
    assert!(flags.contains(readonly));
    assert_eq!(flags.intersection(readonly).bits(), 0x4000_0000);
    assert_eq!(flags.union(readonly).bits(), 0x6000_0020);
}

fn sample_section(name: [u8; 8], characteristics: u32) -> section_header {
    section_header {
        name,
        virtual_size: 0,
        virtual_address: 0,
        size_of_raw_data: 0,
        pointer_to_raw_data: 0,
        pointer_to_relocations: 0,
        pointer_to_linenumbers: 0,
        number_of_relocations: 0,
        number_of_linenumbers: 0,
        characteristics,
    }
}

#[test]
fn section_name_decodes_when_utf8() {
    let sec = sample_section(*b".text\0\0\0", 0x6000_0020);
    assert_eq!(sec.get_name(), Some(String::from(".text\0\0\0")));
    let full = sample_section(*b"longname", 0);
    assert_eq!(full.get_name(), Some(String::from("longname")));
    let bad = sample_section([0xff; 8], 0);
    assert_eq!(bad.get_name(), None);
}

#[test]
fn section_characteristics_use_the_flag_set() {
    let sec = sample_section(*b".data\0\0\0", 0xc000_0040);
    assert_eq!(sec.get_characteristics().unwrap().bits(), 0xc000_0040);
    let bad = sample_section(*b".data\0\0\0", 0x2000);
    assert!(bad.get_characteristics().is_none());
}

#[test]
fn section_table_skips_truncated_records() {
    let mut buf: Vec<u8> = Vec::new();
    for k in 0..80u8 {
        buf.push(k);
    }
    // two full records fit in eighty bytes; a third is declared
    let table = parse_section_table(&buf, 0, 3);
    assert_eq!(table.len(), 2);
    assert_eq!(&table[0].name, &[0, 1, 2, 3, 4, 5, 6, 7]);
    assert_eq!(&table[1].name, &[40, 41, 42, 43, 44, 45, 46, 47]);
    assert_eq!(table[0].virtual_size, u32::from_le_bytes([8, 9, 10, 11]));
    assert_eq!(table[1].characteristics, u32::from_le_bytes([76, 77, 78, 79]));
    // an offset past the end yields nothing at all
    let table = parse_section_table(&buf, 100, 4);
    assert!(table.is_empty());
    // a zero count yields nothing even with room to spare
    let table = parse_section_table(&buf, 0, 0);
    assert!(table.is_empty());
}

#[test]
fn time_date_stamp_matches_the_calendar() {
    let header = CoffFileHeader {
        machine: 0,
        number_of_sections: 0,
        time_date_stamp: 0,
        pointer_to_symbol_table: 0,
        number_of_symbols: 0,
        size_of_optional_header: 0,
        characteristics: 0,
    };
    let epoch = header.get_time_date_stamp().expect("in range");
    assert_eq!(epoch, chrono::DateTime::from_timestamp(0, 0).unwrap().naive_utc());
    assert_eq!(epoch.to_string(), "1970-01-01 00:00:00");

    let header = CoffFileHeader { time_date_stamp: u32::MAX, ..header };
    let late = header.get_time_date_stamp().expect("in range");
    assert_eq!(
        late,
        chrono::DateTime::from_timestamp(u32::MAX as i64, 0).unwrap().naive_utc()
    );
}

#[test]
fn relocation_codes_map_to_their_indicators() {
    assert_eq!(X86RelocationType::from_u16(0x0000), Some(X86RelocationType::Absolute));
    assert_eq!(X86RelocationType::from_u16(0x0010), Some(X86RelocationType::SSpan32));
    assert_eq!(X86RelocationType::from_u16(0x0011), None);

    assert_eq!(ARMRelocationType::from_u16(0x0016), Some(ARMRelocationType::Pair));
    assert_eq!(ARMRelocationType::from_u16(0x0005), None);

    assert_eq!(ARM64RelocationType::from_u16(0x0011), Some(ARM64RelocationType::Rel32));
    assert_eq!(ARM64RelocationType::from_u16(0x0012), None);

    assert_eq!(SuperHRelocationType::from_u16(0x8000), Some(SuperHRelocationType::SHMNoMode));
    assert_eq!(SuperHRelocationType::from_u16(0x0019), None);

    assert_eq!(PowerPCRelocationType::from_u16(0x0016), Some(PowerPCRelocationType::Token));
    assert_eq!(PowerPCRelocationType::from_u16(0x0008), None);

    assert_eq!(I386RelocationType::from_u16(0x0014), Some(I386RelocationType::Rel32));
    assert_eq!(I386RelocationType::from_u16(0x0003), None);

    assert_eq!(IA64RelocationType::from_u16(0x001f), Some(IA64RelocationType::AddEnd));
    assert_eq!(IA64RelocationType::from_u16(0x000f), None);

    assert_eq!(MIPSRelocationType::from_u16(0x0025), Some(MIPSRelocationType::Pair));
    assert_eq!(MIPSRelocationType::from_u16(0x0008), None);

    assert_eq!(M32RRelocationType::from_u16(0x000e), Some(M32RRelocationType::Token));
    assert_eq!(M32RRelocationType::from_u16(0x000f), None);
}
