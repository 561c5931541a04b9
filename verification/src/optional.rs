use crate::reader::{read_u16, read_u32, read_u64, read_u8, spec_le_u16, spec_le_u32, spec_le_u64};
use crate::Error;
use vstd::prelude::*;

verus! {

/// Size in bytes of one data-directory entry.
pub const DATA_DIRECTORY_SIZE: usize = 8;

/// Size in bytes of the sixteen-entry data-directory block.
pub const DATA_DIRECTORIES_SIZE: usize = 128;

/// Total size in bytes of the on-disk PE32 optional header.
pub const OPTIONAL_HEADER_32_SIZE: usize = 224;

/// Total size in bytes of the on-disk PE32+ optional header.
pub const OPTIONAL_HEADER_64_SIZE: usize = 240;

/// Magic values that determine if an Optional Header is
/// PE32 (32-bit) or PE32+ (64-bit)
#[derive(Clone, Copy, Debug, PartialEq, Eq, Structural)]
pub enum Magic {
    /// Magic value for 32-bit PEs
    PE32,
    /// Magic value for 64-bit PEs
    PE64,
}

/// The numeric code of the PE32 magic value.
pub const MAGIC_PE32: u16 = 0x10b;

/// The numeric code of the PE32+ magic value.
pub const MAGIC_PE64: u16 = 0x20b;

impl Magic {
    /// The optional-header variant that the magic code `v` selects, if any.
    pub open spec fn spec_from_u16(v: u16) -> Option<Magic> {
        if v == 0x10b {
            Some(Magic::PE32)
        } else if v == 0x20b {
            Some(Magic::PE64)
        } else {
            None
        }
    }

    /// Map a magic code to the optional-header variant it selects, or
    /// `None` for any other value.
    pub fn from_u16(v: u16) -> (r: Option<Magic>)
        ensures
            r == Magic::spec_from_u16(v),
    {
        match v {
            0x10b => Some(Magic::PE32),
            0x20b => Some(Magic::PE64),
            _ => None,
        }
    }
}

/// Each data directory gives the address and size of a table or string that Windows uses.
/// These data directory entries are all loaded into memory so that the system can use them at run time.
/// A data directory is an 8-byte field that has the following declaration:
#[derive(Clone, Copy, Debug, PartialEq, Eq, Structural)]
pub struct DataDirectory {
    /// RVA of the table. The RVA is the address of the table relative to the base address of the image when the table is loaded.
    pub virtual_address: u32,
    /// Size of the table in bytes.
    pub size: u32,
}

/// The data directory whose eight bytes start at offset `off` of `b`.
pub open spec fn spec_data_directory(b: Seq<u8>, off: int) -> DataDirectory {
    DataDirectory { virtual_address: spec_le_u32(b, off), size: spec_le_u32(b, off + 4) }
}

/// Struct containing basic information (address and size) of each table.
#[derive(Clone, Copy, Debug, PartialEq, Eq, Structural)]
pub struct DataDirectories {
    /// The export table (.edata) address and size. (Image Only)
    pub export_table: DataDirectory,
    /// The import table (.idata) address and size.
    pub import_table: DataDirectory,
    /// The resource table (.rsrc) address and size.
    pub resource_table: DataDirectory,
    /// The exception table (.pdata) address and size.
    pub exception_table: DataDirectory,
    /// The attribute certificate table address and size. (Image Only)
    pub certificate_table: DataDirectory,
    /// The base relocation table (.reloc) address and size. (Image Only)
    pub base_relocation_table: DataDirectory,
    /// The debug data (.debug) starting address and size.
    pub debug: DataDirectory,
    /// Reserved, must be 0.
    pub architecture: DataDirectory,
    /// The RVA of the value to be stored in the global pointer register.
    /// The size member of this structure must be set to zero.
    pub global_ptr: DataDirectory,
    /// The thread local storage (TLS) table (.tls) address and size.
    pub tls_table: DataDirectory,
    /// The load configuration table address and size. (Image Only)
    pub load_config_table: DataDirectory,
    /// The bound import table address and size.
    pub bound_import: DataDirectory,
    /// The import address table address and size.
    pub import_address_table: DataDirectory,
    /// The delay import descriptor address and size. (Image Only)
    pub delay_import_descriptor: DataDirectory,
    /// The CLR runtime header (.cormeta) address and size. (Object Only)
    pub clr_runtime_header: DataDirectory,
    /// Reserved, must be zero.
    pub reserved: DataDirectory,
}

/// The sixteen-entry data-directory block whose bytes start at offset `off`
/// of `b`, one eight-byte entry per well-known table, in documented order.
pub open spec fn spec_data_directories(b: Seq<u8>, off: int) -> DataDirectories {
    DataDirectories {
        export_table: spec_data_directory(b, off),
        import_table: spec_data_directory(b, off + 8),
        resource_table: spec_data_directory(b, off + 16),
        exception_table: spec_data_directory(b, off + 24),
        certificate_table: spec_data_directory(b, off + 32),
        base_relocation_table: spec_data_directory(b, off + 40),
        debug: spec_data_directory(b, off + 48),
        architecture: spec_data_directory(b, off + 56),
        global_ptr: spec_data_directory(b, off + 64),
        tls_table: spec_data_directory(b, off + 72),
        load_config_table: spec_data_directory(b, off + 80),
        bound_import: spec_data_directory(b, off + 88),
        import_address_table: spec_data_directory(b, off + 96),
        delay_import_descriptor: spec_data_directory(b, off + 104),
        clr_runtime_header: spec_data_directory(b, off + 112),
        reserved: spec_data_directory(b, off + 120),
    }
}

impl DataDirectory {
    /// The all-zero entry: address and size both hold zero.
    pub open spec fn spec_default() -> DataDirectory {
        DataDirectory { virtual_address: 0, size: 0 }
    }
}

impl Default for DataDirectory {
    fn default() -> (r: DataDirectory)
        ensures
            r == DataDirectory::spec_default(),
    {
        DataDirectory { virtual_address: 0, size: 0 }
    }
}

impl DataDirectories {
    /// The all-zero block: every entry holds zero.
    pub open spec fn spec_default() -> DataDirectories {
        DataDirectories {
            export_table: DataDirectory::spec_default(),
            import_table: DataDirectory::spec_default(),
            resource_table: DataDirectory::spec_default(),
            exception_table: DataDirectory::spec_default(),
            certificate_table: DataDirectory::spec_default(),
            base_relocation_table: DataDirectory::spec_default(),
            debug: DataDirectory::spec_default(),
            architecture: DataDirectory::spec_default(),
            global_ptr: DataDirectory::spec_default(),
            tls_table: DataDirectory::spec_default(),
            load_config_table: DataDirectory::spec_default(),
            bound_import: DataDirectory::spec_default(),
            import_address_table: DataDirectory::spec_default(),
            delay_import_descriptor: DataDirectory::spec_default(),
            clr_runtime_header: DataDirectory::spec_default(),
            reserved: DataDirectory::spec_default(),
        }
    }
}

impl Default for DataDirectories {
    fn default() -> (r: DataDirectories)
        ensures
            r == DataDirectories::spec_default(),
    {
        DataDirectories {
            export_table: DataDirectory::default(),
            import_table: DataDirectory::default(),
            resource_table: DataDirectory::default(),
            exception_table: DataDirectory::default(),
            certificate_table: DataDirectory::default(),
            base_relocation_table: DataDirectory::default(),
            debug: DataDirectory::default(),
            architecture: DataDirectory::default(),
            global_ptr: DataDirectory::default(),
            tls_table: DataDirectory::default(),
            load_config_table: DataDirectory::default(),
            bound_import: DataDirectory::default(),
            import_address_table: DataDirectory::default(),
            delay_import_descriptor: DataDirectory::default(),
            clr_runtime_header: DataDirectory::default(),
            reserved: DataDirectory::default(),
        }
    }
}

/// Decode one eight-byte data-directory entry at `offset`.
fn parse_data_directory(binary: &[u8], offset: usize) -> (r: Result<DataDirectory, Error>)
    ensures
        offset + DATA_DIRECTORY_SIZE <= binary@.len() ==> r == Ok::<DataDirectory, Error>(
            spec_data_directory(binary@, offset as int),
        ),
        offset + DATA_DIRECTORY_SIZE > binary@.len() ==> r == Err::<DataDirectory, Error>(
            Error::OffsetOutOfRange,
        ),
{
    if binary.len() < DATA_DIRECTORY_SIZE || offset > binary.len() - DATA_DIRECTORY_SIZE {
        return Err(Error::OffsetOutOfRange);
    }
    let virtual_address = read_u32(binary, offset)?;
    let size = read_u32(binary, offset + 4)?;
    Ok(DataDirectory { virtual_address, size })
}

/// Decode the sixteen-entry data-directory block at `offset`.
fn parse_data_directories(binary: &[u8], offset: usize) -> (r: Result<DataDirectories, Error>)
    ensures
        offset + DATA_DIRECTORIES_SIZE <= binary@.len() ==> r == Ok::<DataDirectories, Error>(
            spec_data_directories(binary@, offset as int),
        ),
        offset + DATA_DIRECTORIES_SIZE > binary@.len() ==> r == Err::<DataDirectories, Error>(
            Error::OffsetOutOfRange,
        ),
{
    if binary.len() < DATA_DIRECTORIES_SIZE || offset > binary.len() - DATA_DIRECTORIES_SIZE {
        return Err(Error::OffsetOutOfRange);
    }
    let export_table = parse_data_directory(binary, offset)?;
    let import_table = parse_data_directory(binary, offset + 8)?;
    let resource_table = parse_data_directory(binary, offset + 16)?;
    let exception_table = parse_data_directory(binary, offset + 24)?;
    let certificate_table = parse_data_directory(binary, offset + 32)?;
    let base_relocation_table = parse_data_directory(binary, offset + 40)?;
    let debug = parse_data_directory(binary, offset + 48)?;
    let architecture = parse_data_directory(binary, offset + 56)?;
    let global_ptr = parse_data_directory(binary, offset + 64)?;
    let tls_table = parse_data_directory(binary, offset + 72)?;
    let load_config_table = parse_data_directory(binary, offset + 80)?;
    let bound_import = parse_data_directory(binary, offset + 88)?;
    let import_address_table = parse_data_directory(binary, offset + 96)?;
    let delay_import_descriptor = parse_data_directory(binary, offset + 104)?;
    let clr_runtime_header = parse_data_directory(binary, offset + 112)?;
    let reserved = parse_data_directory(binary, offset + 120)?;
    Ok(DataDirectories {
        export_table,
        import_table,
        resource_table,
        exception_table,
        certificate_table,
        base_relocation_table,
        debug,
        architecture,
        global_ptr,
        tls_table,
        load_config_table,
        bound_import,
        import_address_table,
        delay_import_descriptor,
        clr_runtime_header,
        reserved,
    })
}

/// PE32 Optional Header (Image Only)
#[derive(Clone, Copy, Debug, PartialEq, Eq, Structural)]
pub struct OptionalHeader32 {
    /// The unsigned integer that identifies the state of the image file.
    pub magic: u16,
    /// The linker major version number.
    pub major_linker_version: u8,
    /// The linker minor version number.
    pub minor_linker_version: u8,
    /// The size of the code (text) section, or the sum of all code sections if there are multiple sections.
    pub size_of_code: u32,
    /// The size of the initialized data section, or the sum of all such sections if there are multiple data sections.
    pub size_of_initialized_data: u32,
    /// The size of the uninitialized data section (BSS), or the sum of all such sections if there are multiple BSS sections.
    pub size_of_uninitialized_data: u32,
    /// The address of the entry point relative to the image base when the executable file is loaded into memory.
    pub address_of_entry_point: u32,
    /// The address that is relative to the image base of the beginning-of-code section when it is loaded into memory.
    pub base_of_code: u32,
    /// (PE32 Only) The address that is relative to the image base of the beginning-of-data section when it is loaded into memory.
    pub base_of_data: u32,
    /// The preferred address of the first byte of image when loaded into memory; must be a multiple of 64 K.
    pub image_base: u32,
    /// The alignment (in bytes) of sections when they are loaded into memory.
    pub section_alignment: u32,
    /// The alignment factor (in bytes) that is used to align the raw data of sections in the image file.
    pub file_alignment: u32,
    /// The major version number of the required operating system.
    pub major_operating_system_version: u16,
    /// The minor version number of the required operating system.
    pub minor_operating_system_version: u16,
    /// The major version number of the image.
    pub major_image_version: u16,
    /// The minor version number of the image.
    pub minor_image_version: u16,
    /// The major version number of the subsystem.
    pub major_subsystem_version: u16,
    /// The minor version number of the subsystem.
    pub minor_subsystem_version: u16,
    /// Reserved, must be zero.
    pub win32_version_value: u32,
    /// The size (in bytes) of the image, including all headers, as the image is loaded in memory.
    pub size_of_image: u32,
    /// The combined size of an MS-DOS stub, PE header, and section headers rounded up to a multiple of `file_alignment`.
    pub size_of_headers: u32,
    /// The image file checksum.
    pub check_sum: u32,
    /// The subsystem that is required to run this image.
    pub subsystem: u16,
    /// Bitflag characteristics that describe how a DLL should be loaded.
    pub dll_characteristics: u16,
    /// The size of the stack to reserve.
    pub size_of_stack_reserve: u32,
    /// The size of the stack to commit.
    pub size_of_stack_commit: u32,
    /// The size of the local heap space to reserve.
    pub size_of_heap_reserve: u32,
    /// The size of the local heap space to commit.
    pub size_of_heap_commit: u32,
    /// Reserved, must be zero.
    pub loader_flags: u32,
    /// The number of data-directory entries in the remainder of the optional header.
    pub number_of_rva_and_sizes: u32,
    /// Struct containing basic information (address and size) of each table.
    pub data_directories: DataDirectories,
}

/// The PE32 optional header whose 224 bytes start at offset `off` of `b`:
/// each field is read little-endian at its documented offset.
pub open spec fn spec_optional_header_32(b: Seq<u8>, off: int) -> OptionalHeader32 {
    OptionalHeader32 {
        magic: spec_le_u16(b, off),
        major_linker_version: b[off + 2],
        minor_linker_version: b[off + 3],
        size_of_code: spec_le_u32(b, off + 4),
        size_of_initialized_data: spec_le_u32(b, off + 8),
        size_of_uninitialized_data: spec_le_u32(b, off + 12),
        address_of_entry_point: spec_le_u32(b, off + 16),
        base_of_code: spec_le_u32(b, off + 20),
        base_of_data: spec_le_u32(b, off + 24),
        image_base: spec_le_u32(b, off + 28),
        section_alignment: spec_le_u32(b, off + 32),
        file_alignment: spec_le_u32(b, off + 36),
        major_operating_system_version: spec_le_u16(b, off + 40),
        minor_operating_system_version: spec_le_u16(b, off + 42),
        major_image_version: spec_le_u16(b, off + 44),
        minor_image_version: spec_le_u16(b, off + 46),
        major_subsystem_version: spec_le_u16(b, off + 48),
        minor_subsystem_version: spec_le_u16(b, off + 50),
        win32_version_value: spec_le_u32(b, off + 52),
        size_of_image: spec_le_u32(b, off + 56),
        size_of_headers: spec_le_u32(b, off + 60),
        check_sum: spec_le_u32(b, off + 64),
        subsystem: spec_le_u16(b, off + 68),
        dll_characteristics: spec_le_u16(b, off + 70),
        size_of_stack_reserve: spec_le_u32(b, off + 72),
        size_of_stack_commit: spec_le_u32(b, off + 76),
        size_of_heap_reserve: spec_le_u32(b, off + 80),
        size_of_heap_commit: spec_le_u32(b, off + 84),
        loader_flags: spec_le_u32(b, off + 88),
        number_of_rva_and_sizes: spec_le_u32(b, off + 92),
        data_directories: spec_data_directories(b, off + 96),
    }
}

impl OptionalHeader32 {
    /// The all-zero header: every field holds zero.
    pub open spec fn spec_default() -> OptionalHeader32 {
        OptionalHeader32 {
            magic: 0,
            major_linker_version: 0,
            minor_linker_version: 0,
            size_of_code: 0,
            size_of_initialized_data: 0,
            size_of_uninitialized_data: 0,
            address_of_entry_point: 0,
            base_of_code: 0,
            base_of_data: 0,
            image_base: 0,
            section_alignment: 0,
            file_alignment: 0,
            major_operating_system_version: 0,
            minor_operating_system_version: 0,
            major_image_version: 0,
            minor_image_version: 0,
            major_subsystem_version: 0,
            minor_subsystem_version: 0,
            win32_version_value: 0,
            size_of_image: 0,
            size_of_headers: 0,
            check_sum: 0,
            subsystem: 0,
            dll_characteristics: 0,
            size_of_stack_reserve: 0,
            size_of_stack_commit: 0,
            size_of_heap_reserve: 0,
            size_of_heap_commit: 0,
            loader_flags: 0,
            number_of_rva_and_sizes: 0,
            data_directories: DataDirectories::spec_default(),
        }
    }
}

impl Default for OptionalHeader32 {
    fn default() -> (r: OptionalHeader32)
        ensures
            r == OptionalHeader32::spec_default(),
    {
        OptionalHeader32 {
            magic: 0,
            major_linker_version: 0,
            minor_linker_version: 0,
            size_of_code: 0,
            size_of_initialized_data: 0,
            size_of_uninitialized_data: 0,
            address_of_entry_point: 0,
            base_of_code: 0,
            base_of_data: 0,
            image_base: 0,
            section_alignment: 0,
            file_alignment: 0,
            major_operating_system_version: 0,
            minor_operating_system_version: 0,
            major_image_version: 0,
            minor_image_version: 0,
            major_subsystem_version: 0,
            minor_subsystem_version: 0,
            win32_version_value: 0,
            size_of_image: 0,
            size_of_headers: 0,
            check_sum: 0,
            subsystem: 0,
            dll_characteristics: 0,
            size_of_stack_reserve: 0,
            size_of_stack_commit: 0,
            size_of_heap_reserve: 0,
            size_of_heap_commit: 0,
            loader_flags: 0,
            number_of_rva_and_sizes: 0,
            data_directories: DataDirectories::default(),
        }
    }
}

/// PE32+ Optional Header (Image Only)
#[derive(Clone, Copy, Debug, PartialEq, Eq, Structural)]
pub struct OptionalHeader64 {
    /// The unsigned integer that identifies the state of the image file.
    pub magic: u16,
    /// The linker major version number.
    pub major_linker_version: u8,
    /// The linker minor version number.
    pub minor_linker_version: u8,
    /// The size of the code (text) section, or the sum of all code sections if there are multiple sections.
    pub size_of_code: u32,
    /// The size of the initialized data section, or the sum of all such sections if there are multiple data sections.
    pub size_of_initialized_data: u32,
    /// The size of the uninitialized data section (BSS), or the sum of all such sections if there are multiple BSS sections.
    pub size_of_uninitialized_data: u32,
    /// The address of the entry point relative to the image base when the executable file is loaded into memory.
    pub address_of_entry_point: u32,
    /// The address that is relative to the image base of the beginning-of-code section when it is loaded into memory.
    pub base_of_code: u32,
    /// The preferred address of the first byte of image when loaded into memory; must be a multiple of 64 K.
    pub image_base: u64,
    /// The alignment (in bytes) of sections when they are loaded into memory.
    pub section_alignment: u32,
    /// The alignment factor (in bytes) that is used to align the raw data of sections in the image file.
    pub file_alignment: u32,
    /// The major version number of the required operating system.
    pub major_operating_system_version: u16,
    /// The minor version number of the required operating system.
    pub minor_operating_system_version: u16,
    /// The major version number of the image.
    pub major_image_version: u16,
    /// The minor version number of the image.
    pub minor_image_version: u16,
    /// The major version number of the subsystem.
    pub major_subsystem_version: u16,
    /// The minor version number of the subsystem.
    pub minor_subsystem_version: u16,
    /// Reserved, must be zero.
    pub win32_version_value: u32,
    /// The size (in bytes) of the image, including all headers, as the image is loaded in memory.
    pub size_of_image: u32,
    /// The combined size of an MS-DOS stub, PE header, and section headers rounded up to a multiple of `file_alignment`.
    pub size_of_headers: u32,
    /// The image file checksum.
    pub check_sum: u32,
    /// The subsystem that is required to run this image.
    pub subsystem: u16,
    /// Bitflag characteristics that describe how a DLL should be loaded.
    pub dll_characteristics: u16,
    /// The size of the stack to reserve.
    pub size_of_stack_reserve: u64,
    /// The size of the stack to commit.
    pub size_of_stack_commit: u64,
    /// The size of the local heap space to reserve.
    pub size_of_heap_reserve: u64,
    /// The size of the local heap space to commit.
    pub size_of_heap_commit: u64,
    /// Reserved, must be zero.
    pub loader_flags: u32,
    /// The number of data-directory entries in the remainder of the optional header.
    pub number_of_rva_and_sizes: u32,
    /// Struct containing basic information (address and size) of each table.
    pub data_directories: DataDirectories,
}

/// The PE32+ optional header whose 240 bytes start at offset `off` of `b`:
/// each field is read little-endian at its documented offset.
pub open spec fn spec_optional_header_64(b: Seq<u8>, off: int) -> OptionalHeader64 {
    OptionalHeader64 {
        magic: spec_le_u16(b, off),
        major_linker_version: b[off + 2],
        minor_linker_version: b[off + 3],
        size_of_code: spec_le_u32(b, off + 4),
        size_of_initialized_data: spec_le_u32(b, off + 8),
        size_of_uninitialized_data: spec_le_u32(b, off + 12),
        address_of_entry_point: spec_le_u32(b, off + 16),
        base_of_code: spec_le_u32(b, off + 20),
        image_base: spec_le_u64(b, off + 24),
        section_alignment: spec_le_u32(b, off + 32),
        file_alignment: spec_le_u32(b, off + 36),
        major_operating_system_version: spec_le_u16(b, off + 40),
        minor_operating_system_version: spec_le_u16(b, off + 42),
        major_image_version: spec_le_u16(b, off + 44),
        minor_image_version: spec_le_u16(b, off + 46),
        major_subsystem_version: spec_le_u16(b, off + 48),
        minor_subsystem_version: spec_le_u16(b, off + 50),
        win32_version_value: spec_le_u32(b, off + 52),
        size_of_image: spec_le_u32(b, off + 56),
        size_of_headers: spec_le_u32(b, off + 60),
        check_sum: spec_le_u32(b, off + 64),
        subsystem: spec_le_u16(b, off + 68),
        dll_characteristics: spec_le_u16(b, off + 70),
        size_of_stack_reserve: spec_le_u64(b, off + 72),
        size_of_stack_commit: spec_le_u64(b, off + 80),
        size_of_heap_reserve: spec_le_u64(b, off + 88),
        size_of_heap_commit: spec_le_u64(b, off + 96),
        loader_flags: spec_le_u32(b, off + 104),
        number_of_rva_and_sizes: spec_le_u32(b, off + 108),
        data_directories: spec_data_directories(b, off + 112),
    }
}

impl OptionalHeader64 {
    /// The all-zero header: every field holds zero.
    pub open spec fn spec_default() -> OptionalHeader64 {
        OptionalHeader64 {
            magic: 0,
            major_linker_version: 0,
            minor_linker_version: 0,
            size_of_code: 0,
            size_of_initialized_data: 0,
            size_of_uninitialized_data: 0,
            address_of_entry_point: 0,
            base_of_code: 0,
            image_base: 0,
            section_alignment: 0,
            file_alignment: 0,
            major_operating_system_version: 0,
            minor_operating_system_version: 0,
            major_image_version: 0,
            minor_image_version: 0,
            major_subsystem_version: 0,
            minor_subsystem_version: 0,
            win32_version_value: 0,
            size_of_image: 0,
            size_of_headers: 0,
            check_sum: 0,
            subsystem: 0,
            dll_characteristics: 0,
            size_of_stack_reserve: 0,
            size_of_stack_commit: 0,
            size_of_heap_reserve: 0,
            size_of_heap_commit: 0,
            loader_flags: 0,
            number_of_rva_and_sizes: 0,
            data_directories: DataDirectories::spec_default(),
        }
    }
}

impl Default for OptionalHeader64 {
    fn default() -> (r: OptionalHeader64)
        ensures
            r == OptionalHeader64::spec_default(),
    {
        OptionalHeader64 {
            magic: 0,
            major_linker_version: 0,
            minor_linker_version: 0,
            size_of_code: 0,
            size_of_initialized_data: 0,
            size_of_uninitialized_data: 0,
            address_of_entry_point: 0,
            base_of_code: 0,
            image_base: 0,
            section_alignment: 0,
            file_alignment: 0,
            major_operating_system_version: 0,
            minor_operating_system_version: 0,
            major_image_version: 0,
            minor_image_version: 0,
            major_subsystem_version: 0,
            minor_subsystem_version: 0,
            win32_version_value: 0,
            size_of_image: 0,
            size_of_headers: 0,
            check_sum: 0,
            subsystem: 0,
            dll_characteristics: 0,
            size_of_stack_reserve: 0,
            size_of_stack_commit: 0,
            size_of_heap_reserve: 0,
            size_of_heap_commit: 0,
            loader_flags: 0,
            number_of_rva_and_sizes: 0,
            data_directories: DataDirectories::default(),
        }
    }
}

/// The following values defined for the Subsystem field of the optional header
/// determine which Windows subsystem (if any) is required to run the image.
#[derive(Clone, Copy, Debug, PartialEq, Eq, Structural)]
pub enum Subsystem {
    /// An unknown subsystem
    Unknown,
    /// Device drivers and native Windows processes
    Native,
    /// The Windows graphical user interface (GUI) subsystem
    WindowsGUI,
    /// The Windows character subsystem
    WindowsCUI,
    /// The OS/2 character subsystem
    OS2CUI,
    /// The Posix character subsystem
    PosixCUI,
    /// Native Win9x driver
    NativeWindows,
    /// Windows CE
    WindowsCEGUI,
    /// An Extensible Firmware Interface (EFI) application
    EFIApplication,
    /// An EFI driver with boot services
    EFIBootServiceDriver,
    /// An EFI driver with run-time services
    EFIRuntimeDriver,
    /// An EFI ROM image
    EFIROM,
    /// XBOX
    XBOX,
    /// Windows boot application
    WindowsBootApplication,
}

impl Subsystem {
    /// The subsystem that the numeric code `v` stands for, if any.
    pub open spec fn spec_from_u16(v: u16) -> Option<Subsystem> {
        if v == 0 {
            Some(Subsystem::Unknown)
        } else if v == 1 {
            Some(Subsystem::Native)
        } else if v == 2 {
            Some(Subsystem::WindowsGUI)
        } else if v == 3 {
            Some(Subsystem::WindowsCUI)
        } else if v == 5 {
            Some(Subsystem::OS2CUI)
        } else if v == 7 {
            Some(Subsystem::PosixCUI)
        } else if v == 8 {
            Some(Subsystem::NativeWindows)
        } else if v == 9 {
            Some(Subsystem::WindowsCEGUI)
        } else if v == 10 {
            Some(Subsystem::EFIApplication)
        } else if v == 11 {
            Some(Subsystem::EFIBootServiceDriver)
        } else if v == 12 {
            Some(Subsystem::EFIRuntimeDriver)
        } else if v == 13 {
            Some(Subsystem::EFIROM)
        } else if v == 14 {
            Some(Subsystem::XBOX)
        } else if v == 16 {
            Some(Subsystem::WindowsBootApplication)
        } else {
            None
        }
    }

    /// Map a numeric subsystem code to its subsystem, or `None` for a code
    /// that is not among the documented ones.
    pub fn from_u16(v: u16) -> (r: Option<Subsystem>)
        ensures
            r == Subsystem::spec_from_u16(v),
    {
        match v {
            0 => Some(Subsystem::Unknown),
            1 => Some(Subsystem::Native),
            2 => Some(Subsystem::WindowsGUI),
            3 => Some(Subsystem::WindowsCUI),
            5 => Some(Subsystem::OS2CUI),
            7 => Some(Subsystem::PosixCUI),
            8 => Some(Subsystem::NativeWindows),
            9 => Some(Subsystem::WindowsCEGUI),
            10 => Some(Subsystem::EFIApplication),
            11 => Some(Subsystem::EFIBootServiceDriver),
            12 => Some(Subsystem::EFIRuntimeDriver),
            13 => Some(Subsystem::EFIROM),
            14 => Some(Subsystem::XBOX),
            16 => Some(Subsystem::WindowsBootApplication),
            _ => None,
        }
    }
}

/// Reserved, must be zero.
pub const IMAGE_DLLCHARACTERISTICS_RESERVED1: u16 = 0x0001;

/// Reserved, must be zero.
pub const IMAGE_DLLCHARACTERISTICS_RESERVED2: u16 = 0x0002;

/// Reserved, must be zero.
pub const IMAGE_DLLCHARACTERISTICS_RESERVED4: u16 = 0x0004;

/// Reserved, must be zero.
pub const IMAGE_DLLCHARACTERISTICS_RESERVED8: u16 = 0x0008;

/// Image can handle a high entropy 64-bit virtual address space.
pub const IMAGE_DLLCHARACTERISTICS_HIGH_ENTROPY_VA: u16 = 0x0020;

/// DLL can be relocated at load time.
pub const IMAGE_DLLCHARACTERISTICS_DYNAMIC_BASE: u16 = 0x0040;

/// Code Integrity checks are enforced.
pub const IMAGE_DLLCHARACTERISTICS_FORCE_INTEGRITY: u16 = 0x0080;

/// Image is NX compatible.
pub const IMAGE_DLLCHARACTERISTICS_NX_COMPAT: u16 = 0x0100;

/// Isolation aware, but do not isolate the image.
pub const IMAGE_DLLCHARACTERISTICS_NO_ISOLATION: u16 = 0x0200;

/// Does not use structured exception (SE) handling.
pub const IMAGE_DLLCHARACTERISTICS_NO_SEH: u16 = 0x0400;

/// Do not bind the image.
pub const IMAGE_DLLCHARACTERISTICS_NO_BIND: u16 = 0x0800;

/// Image must execute in an AppContainer.
pub const IMAGE_DLLCHARACTERISTICS_APPCONTAINER: u16 = 0x1000;

/// A WDM driver.
pub const IMAGE_DLLCHARACTERISTICS_WDM_DRIVER: u16 = 0x2000;

/// Image supports Control Flow Guard.
pub const IMAGE_DLLCHARACTERISTICS_GUARD_CF: u16 = 0x4000;

/// Terminal Server aware.
pub const IMAGE_DLLCHARACTERISTICS_TERMINAL_SERVER_AWARE: u16 = 0x8000;

/// The one 16-bit position that no documented DLL characteristic uses.
pub const DLL_CHARACTERISTICS_UNDEFINED: u16 = 0x0010;

/// Bitflags that contain various information about
/// how a given DLL should be loaded: a set of named bits over a 16-bit
/// integer.  Every bit position but `0x0010` carries a documented meaning.
#[derive(Clone, Copy, Debug, PartialEq, Eq, Structural)]
pub struct DLLCharacteristics {
    /// The raw bit pattern of the flag set.
    pub bits: u16,
}

impl DLLCharacteristics {
    /// The flag set holding exactly the bits of `v`, or `None` when `v` has
    /// the one bit set that names no documented characteristic.
    pub open spec fn spec_from_bits(v: u16) -> Option<DLLCharacteristics> {
        if v & 0x0010 == 0 {
            Some(DLLCharacteristics { bits: v })
        } else {
            None
        }
    }

    /// Build the flag set holding exactly the bits of `v`, rejecting a value
    /// that sets the one undocumented bit.
    pub fn from_bits(v: u16) -> (r: Option<DLLCharacteristics>)
        ensures
            r == DLLCharacteristics::spec_from_bits(v),
    {
        if v & DLL_CHARACTERISTICS_UNDEFINED == 0 {
            Some(DLLCharacteristics { bits: v })
        } else {
            None
        }
    }

    /// The raw bit pattern of the flag set.
    pub fn bits(&self) -> (r: u16)
        ensures
            r == self.bits,
    {
        self.bits
    }

    /// Whether every flag set in `other` is also set in `self`.
    pub fn contains(&self, other: DLLCharacteristics) -> (r: bool)
        ensures
            r == (self.bits & other.bits == other.bits),
    {
        self.bits & other.bits == other.bits
    }

    /// The flag set holding the flags of either operand.
    pub fn union(&self, other: DLLCharacteristics) -> (r: DLLCharacteristics)
        ensures
            r.bits == self.bits | other.bits,
    {
        DLLCharacteristics { bits: self.bits | other.bits }
    }

    /// The flag set holding the flags common to both operands.
    pub fn intersection(&self, other: DLLCharacteristics) -> (r: DLLCharacteristics)
        ensures
            r.bits == self.bits & other.bits,
    {
        DLLCharacteristics { bits: self.bits & other.bits }
    }
}

/// Helper functions for optional header structs
pub trait Optional: Sized {
    /// Number of bytes the fixed on-disk record of this variant occupies.
    spec fn spec_size() -> int;

    /// The header record whose bytes start at offset `off` of `b`.
    spec fn spec_decode(b: Seq<u8>, off: int) -> Self;

    /// The raw subsystem field of the header.
    spec fn spec_subsystem(&self) -> u16;

    /// The raw DLL-characteristics field of the header.
    spec fn spec_dll_characteristics(&self) -> u16;

    /// Returns the subsystem as an enum
    fn get_subsystem(&self) -> (r: Option<Subsystem>)
        ensures
            r == Subsystem::spec_from_u16(self.spec_subsystem()),
    ;

    /// Returns the DLL Characteristics as bitflags
    fn get_dll_characteristics(&self) -> (r: Option<DLLCharacteristics>)
        ensures
            r == DLLCharacteristics::spec_from_bits(self.spec_dll_characteristics()),
    ;

    /// Parse optional header (either PE32, or PE32+) starting at
    /// the given offset.  On success the cursor advances by exactly the
    /// consumed size; on failure it is left where it was.
    fn parse_optional_header(binary: &[u8], offset: &mut usize) -> (r: Result<Self, Error>)
        ensures
            *old(offset) + Self::spec_size() <= binary@.len() ==> {
                &&& r == Ok::<Self, Error>(Self::spec_decode(binary@, *old(offset) as int))
                &&& *final(offset) == *old(offset) + Self::spec_size()
            },
            *old(offset) + Self::spec_size() > binary@.len() ==> {
                &&& r == Err::<Self, Error>(Error::OffsetOutOfRange)
                &&& *final(offset) == *old(offset)
            },
    ;
}

impl Optional for OptionalHeader32 {
    open spec fn spec_size() -> int {
        224
    }

    open spec fn spec_decode(b: Seq<u8>, off: int) -> OptionalHeader32 {
        spec_optional_header_32(b, off)
    }

    open spec fn spec_subsystem(&self) -> u16 {
        self.subsystem
    }

    open spec fn spec_dll_characteristics(&self) -> u16 {
        self.dll_characteristics
    }

    fn get_subsystem(&self) -> (r: Option<Subsystem>) {
        Subsystem::from_u16(self.subsystem)
    }

    fn get_dll_characteristics(&self) -> (r: Option<DLLCharacteristics>) {
        DLLCharacteristics::from_bits(self.dll_characteristics)
    }

    fn parse_optional_header(binary: &[u8], offset: &mut usize) -> (r: Result<OptionalHeader32, Error>) {
        if binary.len() < OPTIONAL_HEADER_32_SIZE || *offset > binary.len()
            - OPTIONAL_HEADER_32_SIZE {
            return Err(Error::OffsetOutOfRange);
        }
        let start = *offset;
        let magic = read_u16(binary, start)?;
        let major_linker_version = read_u8(binary, start + 2)?;
        let minor_linker_version = read_u8(binary, start + 3)?;
        let size_of_code = read_u32(binary, start + 4)?;
        let size_of_initialized_data = read_u32(binary, start + 8)?;
        let size_of_uninitialized_data = read_u32(binary, start + 12)?;
        let address_of_entry_point = read_u32(binary, start + 16)?;
        let base_of_code = read_u32(binary, start + 20)?;
        let base_of_data = read_u32(binary, start + 24)?;
        let image_base = read_u32(binary, start + 28)?;
        let section_alignment = read_u32(binary, start + 32)?;
        let file_alignment = read_u32(binary, start + 36)?;
        let major_operating_system_version = read_u16(binary, start + 40)?;
        let minor_operating_system_version = read_u16(binary, start + 42)?;
        let major_image_version = read_u16(binary, start + 44)?;
        let minor_image_version = read_u16(binary, start + 46)?;
        let major_subsystem_version = read_u16(binary, start + 48)?;
        let minor_subsystem_version = read_u16(binary, start + 50)?;
        let win32_version_value = read_u32(binary, start + 52)?;
        let size_of_image = read_u32(binary, start + 56)?;
        let size_of_headers = read_u32(binary, start + 60)?;
        let check_sum = read_u32(binary, start + 64)?;
        let subsystem = read_u16(binary, start + 68)?;
        let dll_characteristics = read_u16(binary, start + 70)?;
        let size_of_stack_reserve = read_u32(binary, start + 72)?;
        let size_of_stack_commit = read_u32(binary, start + 76)?;
        let size_of_heap_reserve = read_u32(binary, start + 80)?;
        let size_of_heap_commit = read_u32(binary, start + 84)?;
        let loader_flags = read_u32(binary, start + 88)?;
        let number_of_rva_and_sizes = read_u32(binary, start + 92)?;
        let data_directories = parse_data_directories(binary, start + 96)?;
        *offset = start + OPTIONAL_HEADER_32_SIZE;
        Ok(OptionalHeader32 {
            magic,
            major_linker_version,
            minor_linker_version,
            size_of_code,
            size_of_initialized_data,
            size_of_uninitialized_data,
            address_of_entry_point,
            base_of_code,
            base_of_data,
            image_base,
            section_alignment,
            file_alignment,
            major_operating_system_version,
            minor_operating_system_version,
            major_image_version,
            minor_image_version,
            major_subsystem_version,
            minor_subsystem_version,
            win32_version_value,
            size_of_image,
            size_of_headers,
            check_sum,
            subsystem,
            dll_characteristics,
            size_of_stack_reserve,
            size_of_stack_commit,
            size_of_heap_reserve,
            size_of_heap_commit,
            loader_flags,
            number_of_rva_and_sizes,
            data_directories,
        })
    }
}

impl Optional for OptionalHeader64 {
    open spec fn spec_size() -> int {
        240
    }

    open spec fn spec_decode(b: Seq<u8>, off: int) -> OptionalHeader64 {
        spec_optional_header_64(b, off)
    }

    open spec fn spec_subsystem(&self) -> u16 {
        self.subsystem
    }

    open spec fn spec_dll_characteristics(&self) -> u16 {
        self.dll_characteristics
    }

    fn get_subsystem(&self) -> (r: Option<Subsystem>) {
        Subsystem::from_u16(self.subsystem)
    }

    fn get_dll_characteristics(&self) -> (r: Option<DLLCharacteristics>) {
        DLLCharacteristics::from_bits(self.dll_characteristics)
    }

    fn parse_optional_header(binary: &[u8], offset: &mut usize) -> (r: Result<OptionalHeader64, Error>) {
        if binary.len() < OPTIONAL_HEADER_64_SIZE || *offset > binary.len()
            - OPTIONAL_HEADER_64_SIZE {
            return Err(Error::OffsetOutOfRange);
        }
        let start = *offset;
        let magic = read_u16(binary, start)?;
        let major_linker_version = read_u8(binary, start + 2)?;
        let minor_linker_version = read_u8(binary, start + 3)?;
        let size_of_code = read_u32(binary, start + 4)?;
        let size_of_initialized_data = read_u32(binary, start + 8)?;
        let size_of_uninitialized_data = read_u32(binary, start + 12)?;
        let address_of_entry_point = read_u32(binary, start + 16)?;
        let base_of_code = read_u32(binary, start + 20)?;
        let image_base = read_u64(binary, start + 24)?;
        let section_alignment = read_u32(binary, start + 32)?;
        let file_alignment = read_u32(binary, start + 36)?;
        let major_operating_system_version = read_u16(binary, start + 40)?;
        let minor_operating_system_version = read_u16(binary, start + 42)?;
        let major_image_version = read_u16(binary, start + 44)?;
        let minor_image_version = read_u16(binary, start + 46)?;
        let major_subsystem_version = read_u16(binary, start + 48)?;
        let minor_subsystem_version = read_u16(binary, start + 50)?;
        let win32_version_value = read_u32(binary, start + 52)?;
        let size_of_image = read_u32(binary, start + 56)?;
        let size_of_headers = read_u32(binary, start + 60)?;
        let check_sum = read_u32(binary, start + 64)?;
        let subsystem = read_u16(binary, start + 68)?;
        let dll_characteristics = read_u16(binary, start + 70)?;
        let size_of_stack_reserve = read_u64(binary, start + 72)?;
        let size_of_stack_commit = read_u64(binary, start + 80)?;
        let size_of_heap_reserve = read_u64(binary, start + 88)?;
        let size_of_heap_commit = read_u64(binary, start + 96)?;
        let loader_flags = read_u32(binary, start + 104)?;
        let number_of_rva_and_sizes = read_u32(binary, start + 108)?;
        let data_directories = parse_data_directories(binary, start + 112)?;
        *offset = start + OPTIONAL_HEADER_64_SIZE;
        Ok(OptionalHeader64 {
            magic,
            major_linker_version,
            minor_linker_version,
            size_of_code,
            size_of_initialized_data,
            size_of_uninitialized_data,
            address_of_entry_point,
            base_of_code,
            image_base,
            section_alignment,
            file_alignment,
            major_operating_system_version,
            minor_operating_system_version,
            major_image_version,
            minor_image_version,
            major_subsystem_version,
            minor_subsystem_version,
            win32_version_value,
            size_of_image,
            size_of_headers,
            check_sum,
            subsystem,
            dll_characteristics,
            size_of_stack_reserve,
            size_of_stack_commit,
            size_of_heap_reserve,
            size_of_heap_commit,
            loader_flags,
            number_of_rva_and_sizes,
            data_directories,
        })
    }
}

} // verus!
