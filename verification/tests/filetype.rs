use sh0k0h3x::checker::error::ParseError;
use sh0k0h3x::checker::filetype::{
    check_for_pe, get_file_type, get_n_bytes_from_bytes, get_optional_header,
    get_pe_information, get_section_header, read_u16, read_u32, read_u64, BinaryFormat,
    OptionalHeaderMagic, PeMachineType,
};
use sh0k0h3x::file::load::Sh0k0h3xFile;

// --- Builders for the synthetic binaries the tests feed to the parsers ------

/// One Section Table entry to synthesize.
#[derive(Clone)]
struct SectionSpec {
    pub name: [u8; 8],
    pub virtual_size: u32,
    pub virtual_address: u32,
    pub size_of_raw_data: u32,
    pub pointer_to_raw_data: u32,
    pub characteristics: u32,
}

impl SectionSpec {
    /// A plausible code section called `name`, null-padded to 8 bytes.
    /// Names of exactly 8 bytes are stored without a terminator, as the
    /// format allows.
    fn named(name: &[u8]) -> Self {
        let mut padded = [0u8; 8];
        padded[..name.len()].copy_from_slice(name);
        Self {
            name: padded,
            virtual_size: 0x1000,
            virtual_address: 0x1000,
            size_of_raw_data: 0x200,
            pointer_to_raw_data: 0x400,
            characteristics: 0x6000_0020,
        }
    }
}

/// Assembles a minimal but well-formed PE image in memory: DOS header,
/// `"PE\0\0"` signature, COFF File Header, Optional Header and Section
/// Table. Every field a test might want to corrupt is overridable, so
/// malformed inputs are built by tweaking one field of [`Default`].
struct PeBuilder {
    /// Bytes at offset `0x00`; `b"MZ"` for a real PE.
    pub dos_magic: [u8; 2],
    /// What the DOS header claims at `0x3C`. Defaults to `nt_offset`,
    /// i.e. the truth.
    pub e_lfanew: Option<u32>,
    /// Where the `"PE\0\0"` signature is actually written.
    pub nt_offset: usize,
    /// Bytes written at `nt_offset`; `b"PE\0\0"` for a real PE.
    pub pe_signature: [u8; 4],
    pub machine: u16,
    /// What the COFF header claims. Defaults to `sections.len()`.
    pub number_of_sections: Option<u16>,
    /// What the COFF header claims. Defaults to the real size.
    pub size_of_optional_header: Option<u16>,
    /// `0x10B` (PE32), `0x20B` (PE32+) or `0x107` (ROM).
    pub optional_magic: u16,
    pub address_of_entry_point: u32,
    /// Truncated to 32 bits when `optional_magic` is not PE32+.
    pub image_base: u64,
    pub section_alignment: u32,
    pub file_alignment: u32,
    pub size_of_image: u32,
    pub size_of_headers: u32,
    pub subsystem: u16,
    pub dll_characteristics: u16,
    /// `(VirtualAddress, Size)` pairs actually written out.
    pub data_directories: Vec<(u32, u32)>,
    /// What `NumberOfRvaAndSizes` claims. Defaults to the real count.
    pub number_of_rva_and_sizes: Option<u32>,
    pub sections: Vec<SectionSpec>,
}

impl Default for PeBuilder {
    /// A valid x64 PE32+ image with 16 empty data directories and a
    /// single `.text` section.
    fn default() -> Self {
        Self {
            dos_magic: *b"MZ",
            e_lfanew: None,
            nt_offset: 0x80,
            pe_signature: *b"PE\0\0",
            machine: 0x8664,
            number_of_sections: None,
            size_of_optional_header: None,
            optional_magic: 0x20B,
            address_of_entry_point: 0x1000,
            image_base: 0x0001_4000_0000,
            section_alignment: 0x1000,
            file_alignment: 0x200,
            size_of_image: 0x4000,
            size_of_headers: 0x400,
            subsystem: 3,
            dll_characteristics: 0x8160,
            data_directories: vec![(0, 0); 16],
            number_of_rva_and_sizes: None,
            sections: vec![SectionSpec::named(b".text")],
        }
    }
}

impl PeBuilder {
    /// Byte offset of the Data Directory array within the Optional
    /// Header, which is where the fixed part of the header ends.
    fn data_directory_offset(&self) -> usize {
        if self.optional_magic == 0x20B {
            0x70
        } else {
            0x60
        }
    }

    fn build(&self) -> Vec<u8> {
        // The DOS header needs room for `e_lfanew` at 0x3C.
        assert!(self.nt_offset >= 0x40, "nt_offset must clear the DOS header");

        let dir_offset = self.data_directory_offset();
        let optional_header_len = dir_offset + self.data_directories.len() * 8;
        let declared_optional_header_len = self
            .size_of_optional_header
            .unwrap_or(optional_header_len as u16);

        // DOS header plus stub padding.
        let mut out = vec![0u8; self.nt_offset];
        out[0x00..0x02].copy_from_slice(&self.dos_magic);
        let e_lfanew = self.e_lfanew.unwrap_or(self.nt_offset as u32);
        out[0x3C..0x40].copy_from_slice(&e_lfanew.to_le_bytes());

        out.extend_from_slice(&self.pe_signature);

        // COFF File Header.
        let mut coff = [0u8; 0x14];
        coff[0x00..0x02].copy_from_slice(&self.machine.to_le_bytes());
        let number_of_sections = self
            .number_of_sections
            .unwrap_or(self.sections.len() as u16);
        coff[0x02..0x04].copy_from_slice(&number_of_sections.to_le_bytes());
        coff[0x10..0x12].copy_from_slice(&declared_optional_header_len.to_le_bytes());
        out.extend_from_slice(&coff);

        // Optional Header.
        let mut opt = vec![0u8; optional_header_len];
        opt[0x00..0x02].copy_from_slice(&self.optional_magic.to_le_bytes());
        opt[0x10..0x14].copy_from_slice(&self.address_of_entry_point.to_le_bytes());
        if self.optional_magic == 0x20B {
            opt[0x18..0x20].copy_from_slice(&self.image_base.to_le_bytes());
        } else {
            // PE32 keeps `BaseOfData` at 0x18 and a 4-byte `ImageBase`.
            opt[0x1C..0x20].copy_from_slice(&(self.image_base as u32).to_le_bytes());
        }
        opt[0x20..0x24].copy_from_slice(&self.section_alignment.to_le_bytes());
        opt[0x24..0x28].copy_from_slice(&self.file_alignment.to_le_bytes());
        opt[0x38..0x3C].copy_from_slice(&self.size_of_image.to_le_bytes());
        opt[0x3C..0x40].copy_from_slice(&self.size_of_headers.to_le_bytes());
        opt[0x44..0x46].copy_from_slice(&self.subsystem.to_le_bytes());
        opt[0x46..0x48].copy_from_slice(&self.dll_characteristics.to_le_bytes());
        let declared_dirs = self
            .number_of_rva_and_sizes
            .unwrap_or(self.data_directories.len() as u32);
        opt[dir_offset - 4..dir_offset].copy_from_slice(&declared_dirs.to_le_bytes());
        for (i, (virtual_address, size)) in self.data_directories.iter().enumerate() {
            let at = dir_offset + i * 8;
            opt[at..at + 4].copy_from_slice(&virtual_address.to_le_bytes());
            opt[at + 4..at + 8].copy_from_slice(&size.to_le_bytes());
        }
        out.extend_from_slice(&opt);

        // Section Table.
        for section in &self.sections {
            let mut entry = [0u8; 0x28];
            entry[0x00..0x08].copy_from_slice(&section.name);
            entry[0x08..0x0C].copy_from_slice(&section.virtual_size.to_le_bytes());
            entry[0x0C..0x10].copy_from_slice(&section.virtual_address.to_le_bytes());
            entry[0x10..0x14].copy_from_slice(&section.size_of_raw_data.to_le_bytes());
            entry[0x14..0x18].copy_from_slice(&section.pointer_to_raw_data.to_le_bytes());
            entry[0x24..0x28].copy_from_slice(&section.characteristics.to_le_bytes());
            out.extend_from_slice(&entry);
        }

        out
    }
}

// --- Tests ------------------------------------------------------------------


/// Offset of the Optional Header in a [`PeBuilder`] image left at its
/// default `nt_offset`: signature (4 bytes) plus COFF header (0x14).
const DEFAULT_OPTIONAL_HEADER_OFFSET: usize = 0x80 + 4 + 0x14;

fn err_string<T>(result: Result<T, ParseError>) -> String {
    result.err().expect("expected an error").message()
}

// --- get_n_bytes_from_bytes -------------------------------------------

#[test]
fn get_n_bytes_returns_the_requested_window() {
    let bytes = [0xAA, 0xBB, 0xCC, 0xDD, 0xEE];
    assert_eq!(
        get_n_bytes_from_bytes(&bytes, 1, 3).unwrap(),
        &[0xBB, 0xCC, 0xDD]
    );
}

#[test]
fn get_n_bytes_allows_a_window_ending_exactly_at_the_end() {
    let bytes = [1u8, 2, 3];
    assert_eq!(get_n_bytes_from_bytes(&bytes, 1, 2).unwrap(), &[2, 3]);
    // A zero-length read at the very end is still in range.
    assert_eq!(get_n_bytes_from_bytes(&bytes, 3, 0).unwrap(), &[] as &[u8]);
}

#[test]
fn get_n_bytes_rejects_a_window_running_past_the_end() {
    let bytes = [1u8, 2, 3];
    let message = err_string(get_n_bytes_from_bytes(&bytes, 2, 2));
    assert!(
        message.contains("expected 2 bytes at offset 0x2") && message.contains("3 bytes"),
        "unexpected message: {message}"
    );
}

#[test]
fn get_n_bytes_rejects_an_offset_past_the_end() {
    assert!(get_n_bytes_from_bytes(&[1u8, 2, 3], 9, 1).is_err());
    assert!(get_n_bytes_from_bytes(&[], 0, 1).is_err());
}

// --- read_u16 / read_u32 / read_u64 -----------------------------------

#[test]
fn integer_reads_are_little_endian() {
    let bytes = [0x11, 0x22, 0x33, 0x44, 0x55, 0x66, 0x77, 0x88, 0x99];
    assert_eq!(read_u16(&bytes, 0).unwrap(), 0x2211);
    assert_eq!(read_u16(&bytes, 1).unwrap(), 0x3322);
    assert_eq!(read_u32(&bytes, 0).unwrap(), 0x4433_2211);
    assert_eq!(read_u64(&bytes, 0).unwrap(), 0x8877_6655_4433_2211);
    assert_eq!(read_u64(&bytes, 1).unwrap(), 0x9988_7766_5544_3322);
}

#[test]
fn integer_reads_reject_truncated_input() {
    let bytes = [0x11, 0x22, 0x33, 0x44, 0x55, 0x66, 0x77];
    assert!(read_u16(&bytes, 6).is_err());
    assert!(read_u32(&bytes, 4).is_err());
    assert!(read_u64(&bytes, 0).is_err());
}

// --- PeMachineType ----------------------------------------------------

/// Every machine type the enum declares, so the `TryFrom` arms and the
/// discriminants cannot drift apart.
const ALL_MACHINE_TYPES: &[u16] = &[
    0x0, 0x184, 0x284, 0x1D3, 0x8664, 0x1C0, 0xAA64, 0xA641, 0xA64E, 0x1C4, 0xEBC, 0x14C,
    0x200, 0x6232, 0x6264, 0x9041, 0x266, 0x366, 0x466, 0x1F0, 0x1F1, 0x166, 0x5032, 0x5064,
    0x5128, 0x1A2, 0x1A3, 0x1A6, 0x1A8, 0x1C2, 0x169,
];

#[test]
fn every_known_machine_type_round_trips() {
    for &value in ALL_MACHINE_TYPES {
        let parsed = PeMachineType::try_from(value)
            .unwrap_or_else(|e| panic!("{value:#x} should be known: {}", e.message()));
        assert_eq!(parsed.value(), value, "{value:#x} maps to the wrong variant");
    }
}

#[test]
fn well_known_machine_types_map_to_the_expected_variants() {
    assert!(matches!(
        PeMachineType::try_from(0x8664).unwrap(),
        PeMachineType::Amd64
    ));
    assert!(matches!(
        PeMachineType::try_from(0x14C).unwrap(),
        PeMachineType::I386
    ));
    assert!(matches!(
        PeMachineType::try_from(0xAA64).unwrap(),
        PeMachineType::Arm64
    ));
    // Zero is a documented value ("any machine type"), not an error.
    assert!(matches!(
        PeMachineType::try_from(0x0).unwrap(),
        PeMachineType::Unknown
    ));
}

#[test]
fn unrecognized_machine_type_is_an_error() {
    let message = err_string(PeMachineType::try_from(0xDEAD));
    assert!(
        message.contains("unknown PE machine type") && message.contains("0xdead"),
        "unexpected message: {message}"
    );
}

// --- check_for_pe -----------------------------------------------------

#[test]
fn check_for_pe_recognizes_the_mz_magic() {
    assert_eq!(check_for_pe(b"MZ").unwrap(), 1);
    assert_eq!(check_for_pe(&[0x4D, 0x5A, 0x90, 0x00]).unwrap(), 1);
}

#[test]
fn check_for_pe_rejects_other_magics() {
    assert_eq!(check_for_pe(b"\x7fELF").unwrap(), 0);
    assert_eq!(check_for_pe(b"ZM").unwrap(), 0, "the magic is order-sensitive");
    assert_eq!(check_for_pe(&[0x00, 0x00]).unwrap(), 0);
}

#[test]
fn check_for_pe_errors_when_there_is_no_magic_to_read() {
    assert!(check_for_pe(&[]).is_err());
    assert!(check_for_pe(&[0x4D]).is_err());
}

// --- get_optional_header ----------------------------------------------

#[test]
fn parses_a_pe32_plus_optional_header() {
    let bytes = PeBuilder {
        data_directories: vec![(0x1000, 0x50), (0x2000, 0x60)],
        ..Default::default()
    }
    .build();

    let header = get_optional_header(&bytes, DEFAULT_OPTIONAL_HEADER_OFFSET).unwrap();

    assert!(matches!(header.magic, OptionalHeaderMagic::Pe32Plus));
    assert_eq!(header.address_of_entry_point, 0x1000);
    assert_eq!(header.image_base, 0x0001_4000_0000);
    assert_eq!(header.section_alignment, 0x1000);
    assert_eq!(header.file_alignment, 0x200);
    assert_eq!(header.size_of_image, 0x4000);
    assert_eq!(header.size_of_headers, 0x400);
    assert_eq!(header.subsystem, 3);
    assert_eq!(header.dll_characteristics, 0x8160);
    assert_eq!(header.data_directories.len(), 2);
    assert_eq!(header.data_directories[0].virtual_address, 0x1000);
    assert_eq!(header.data_directories[0].size, 0x50);
    assert_eq!(header.data_directories[1].virtual_address, 0x2000);
    assert_eq!(header.data_directories[1].size, 0x60);
}

/// PE32 puts `ImageBase` at a different offset and uses 4-byte stack and
/// heap sizes, which shifts the data directories; the parser has to track
/// both differences.
#[test]
fn parses_a_pe32_optional_header() {
    let bytes = PeBuilder {
        optional_magic: 0x10B,
        machine: 0x14C,
        image_base: 0x0040_0000,
        data_directories: vec![(0xABCD, 0x10)],
        ..Default::default()
    }
    .build();

    let header = get_optional_header(&bytes, DEFAULT_OPTIONAL_HEADER_OFFSET).unwrap();

    assert!(matches!(header.magic, OptionalHeaderMagic::Pe32));
    assert_eq!(header.image_base, 0x0040_0000);
    assert_eq!(header.address_of_entry_point, 0x1000);
    assert_eq!(header.section_alignment, 0x1000);
    assert_eq!(header.size_of_headers, 0x400);
    assert_eq!(header.subsystem, 3);
    assert_eq!(header.data_directories.len(), 1);
    assert_eq!(header.data_directories[0].virtual_address, 0xABCD);
    assert_eq!(header.data_directories[0].size, 0x10);
}

#[test]
fn accepts_the_rom_optional_header_magic() {
    let bytes = PeBuilder {
        optional_magic: 0x107,
        ..Default::default()
    }
    .build();

    let header = get_optional_header(&bytes, DEFAULT_OPTIONAL_HEADER_OFFSET).unwrap();
    assert!(matches!(header.magic, OptionalHeaderMagic::Rom));
}

#[test]
fn an_optional_header_with_no_data_directories_parses_to_an_empty_vec() {
    let bytes = PeBuilder {
        data_directories: vec![],
        ..Default::default()
    }
    .build();

    let header = get_optional_header(&bytes, DEFAULT_OPTIONAL_HEADER_OFFSET).unwrap();
    assert!(header.data_directories.is_empty());
}

#[test]
fn unknown_optional_header_magic_is_an_error() {
    let bytes = PeBuilder {
        optional_magic: 0x1234,
        ..Default::default()
    }
    .build();

    let message = err_string(get_optional_header(&bytes, DEFAULT_OPTIONAL_HEADER_OFFSET));
    assert!(
        message.contains("unknown optional header magic") && message.contains("0x1234"),
        "unexpected message: {message}"
    );
}

#[test]
fn a_truncated_optional_header_is_an_error() {
    let mut bytes = PeBuilder::default().build();
    // Keep the magic but cut the header off partway through.
    bytes.truncate(DEFAULT_OPTIONAL_HEADER_OFFSET + 0x30);
    assert!(get_optional_header(&bytes, DEFAULT_OPTIONAL_HEADER_OFFSET).is_err());
}

/// `NumberOfRvaAndSizes` comes from the file, so a corrupt count must not
/// be trusted past the end of the buffer.
#[test]
fn a_data_directory_count_larger_than_the_file_is_an_error() {
    let bytes = PeBuilder {
        data_directories: vec![(0, 0); 2],
        number_of_rva_and_sizes: Some(4096),
        ..Default::default()
    }
    .build();

    assert!(get_optional_header(&bytes, DEFAULT_OPTIONAL_HEADER_OFFSET).is_err());
}

// --- get_section_header -----------------------------------------------

#[test]
fn parses_a_section_header() {
    let section = SectionSpec {
        virtual_size: 0x1234,
        virtual_address: 0x2000,
        size_of_raw_data: 0x400,
        pointer_to_raw_data: 0x600,
        characteristics: 0xC000_0040,
        ..SectionSpec::named(b".rdata")
    };
    let bytes = PeBuilder {
        sections: vec![section],
        ..Default::default()
    }
    .build();
    // The section table follows the whole header block.
    let offset = bytes.len() - 0x28;

    let parsed = get_section_header(&bytes, offset).unwrap();

    assert_eq!(&parsed.name, b".rdata\0\0");
    assert_eq!(parsed.virtual_size, 0x1234);
    assert_eq!(parsed.virtual_address, 0x2000);
    assert_eq!(parsed.size_of_raw_data, 0x400);
    assert_eq!(parsed.pointer_to_raw_data, 0x600);
    assert_eq!(parsed.characteristics, 0xC000_0040);
}

/// An 8-character name fills the field with no null terminator.
#[test]
fn parses_a_section_name_that_fills_the_whole_field() {
    let bytes = PeBuilder {
        sections: vec![SectionSpec::named(b".reloc12")],
        ..Default::default()
    }
    .build();

    let parsed = get_section_header(&bytes, bytes.len() - 0x28).unwrap();
    assert_eq!(&parsed.name, b".reloc12");
}

#[test]
fn a_truncated_section_header_is_an_error() {
    let mut bytes = PeBuilder::default().build();
    let offset = bytes.len() - 0x28;
    // Drop the trailing `Characteristics` field.
    bytes.truncate(bytes.len() - 4);
    assert!(get_section_header(&bytes, offset).is_err());
}

// --- get_pe_information -----------------------------------------------

#[test]
fn parses_a_whole_pe_image() {
    let bytes = PeBuilder {
        sections: vec![
            SectionSpec::named(b".text"),
            SectionSpec {
                virtual_address: 0x3000,
                ..SectionSpec::named(b".data")
            },
        ],
        ..Default::default()
    }
    .build();

    let info = get_pe_information(&bytes).unwrap().expect("a PE was parsed");

    assert!(matches!(info.Machine, PeMachineType::Amd64));
    assert!(matches!(info.Format, BinaryFormat::Pe));
    assert!(matches!(
        info.OptionalHeader.magic,
        OptionalHeaderMagic::Pe32Plus
    ));
    assert_eq!(info.OptionalHeader.data_directories.len(), 16);
    assert_eq!(info.Sections.len(), 2);
    assert_eq!(&info.Sections[0].name, b".text\0\0\0");
    assert_eq!(&info.Sections[1].name, b".data\0\0\0");
    assert_eq!(info.Sections[1].virtual_address, 0x3000);
}

#[test]
fn a_pe_with_no_sections_parses_to_an_empty_section_list() {
    let bytes = PeBuilder {
        sections: vec![],
        ..Default::default()
    }
    .build();

    let info = get_pe_information(&bytes).unwrap().unwrap();
    assert!(info.Sections.is_empty());
}

#[test]
fn a_file_without_the_mz_magic_is_not_a_pe() {
    let bytes = PeBuilder {
        dos_magic: *b"ZZ",
        ..Default::default()
    }
    .build();

    assert_eq!(err_string(get_pe_information(&bytes)), "not a PE file");
}

#[test]
fn an_empty_file_is_not_a_pe() {
    assert!(get_pe_information(&[]).is_err());
}

#[test]
fn a_dos_header_without_an_nt_header_is_an_error() {
    // "MZ" and nothing else: `e_lfanew` itself cannot be read.
    assert!(get_pe_information(b"MZ").is_err());
}

#[test]
fn a_missing_pe_signature_is_an_error() {
    let bytes = PeBuilder {
        pe_signature: *b"NE\0\0",
        ..Default::default()
    }
    .build();

    let message = err_string(get_pe_information(&bytes));
    assert!(
        message.contains("expected PE signature at offset 0x80"),
        "unexpected message: {message}"
    );
}

#[test]
fn an_e_lfanew_pointing_past_the_end_of_the_file_is_an_error() {
    let bytes = PeBuilder {
        e_lfanew: Some(0x00FF_FFFF),
        ..Default::default()
    }
    .build();

    assert!(get_pe_information(&bytes).is_err());
}

#[test]
fn an_unknown_machine_type_fails_the_whole_parse() {
    let bytes = PeBuilder {
        machine: 0x1234,
        ..Default::default()
    }
    .build();

    let message = err_string(get_pe_information(&bytes));
    assert!(
        message.contains("unknown PE machine type"),
        "unexpected message: {message}"
    );
}

/// `NumberOfSections` is attacker-controlled data; claiming more sections
/// than the file holds must fail rather than read out of bounds.
#[test]
fn a_section_count_larger_than_the_file_is_an_error() {
    let bytes = PeBuilder {
        number_of_sections: Some(500),
        ..Default::default()
    }
    .build();

    assert!(get_pe_information(&bytes).is_err());
}

/// The section table is located via the declared `SizeOfOptionalHeader`,
/// so an inflated value must not send the parser off the end.
#[test]
fn an_oversized_optional_header_size_is_an_error() {
    let bytes = PeBuilder {
        size_of_optional_header: Some(0x7FFF),
        ..Default::default()
    }
    .build();

    assert!(get_pe_information(&bytes).is_err());
}

// --- get_file_type ----------------------------------------------------

#[test]
fn get_file_type_rejects_non_pe_input() {
    let bytes = b"\x7fELF\x02\x01\x01\x00".to_vec();
    assert_eq!(err_string(get_file_type(&bytes)), "not a PE file");
}

/// Current behavior: even a PE that parses cleanly comes back as an
/// error, because `get_file_type` discards the parsed information and
/// falls through to the "unsupported format" arm.
// TODO: when `get_file_type` returns the parsed `BinaryInfo`, replace this
// with an assertion that `PEInf` is populated and `ElfInf` is `None`.
#[test]
fn get_file_type_currently_discards_a_successfully_parsed_pe() {
    let bytes = PeBuilder::default().build();

    assert!(get_pe_information(&bytes).is_ok(), "the fixture is a valid PE");
    assert_eq!(
        err_string(get_file_type(&bytes)),
        "Unix or other binary formats are not supported"
    );
}

// --- Loading a file's contents ----------------------------------------------

fn load_err_string(result: Result<Sh0k0h3xFile, ParseError>) -> String {
    result.err().expect("expected an error").message()
}

#[test]
fn an_empty_file_is_rejected_by_the_type_checker() {
    assert!(Sh0k0h3xFile::from_bytes(Vec::new(), String::from("empty.bin")).is_err());
}

/// Detection errors come straight from `get_file_type`, not wrapped.
#[test]
fn a_non_pe_file_is_rejected_with_the_detection_error() {
    let contents = b"hello, this is not a binary\n".to_vec();
    assert_eq!(
        load_err_string(Sh0k0h3xFile::from_bytes(contents, String::from("hello.txt"))),
        "not a PE file"
    );
}

#[test]
fn a_truncated_pe_is_rejected() {
    let mut bytes = PeBuilder::default().build();
    bytes.truncate(0x90);
    assert!(Sh0k0h3xFile::from_bytes(bytes, String::from("truncated.exe")).is_err());
}

/// A valid PE still fails to load, because `get_file_type` never returns `Ok`.
#[test]
fn a_valid_pe_currently_fails_to_load() {
    let bytes = PeBuilder::default().build();
    assert_eq!(
        load_err_string(Sh0k0h3xFile::from_bytes(bytes, String::from("valid.exe"))),
        "Unix or other binary formats are not supported"
    );
}

// --- Properties on concrete images --------------------------------------------

/// Appending bytes to an image that parses does not change what it parses to.
#[test]
fn trailing_bytes_do_not_change_a_parsed_image() {
    let bytes = PeBuilder {
        sections: vec![SectionSpec::named(b".text"), SectionSpec::named(b".rsrc")],
        ..Default::default()
    }
    .build();
    let mut extended = bytes.clone();
    extended.extend_from_slice(&[0xFF; 0x100]);

    let a = get_pe_information(&bytes).unwrap().unwrap();
    let b = get_pe_information(&extended).unwrap().unwrap();
    assert_eq!(a.Machine, b.Machine);
    assert_eq!(a.Format, b.Format);
    assert_eq!(a.OptionalHeader.magic, b.OptionalHeader.magic);
    assert_eq!(a.OptionalHeader.image_base, b.OptionalHeader.image_base);
    assert_eq!(a.OptionalHeader.data_directories, b.OptionalHeader.data_directories);
    assert_eq!(a.Sections.len(), b.Sections.len());
    for (x, y) in a.Sections.iter().zip(b.Sections.iter()) {
        assert_eq!(x.name, y.name);
        assert_eq!(x.virtual_address, y.virtual_address);
        assert_eq!(x.characteristics, y.characteristics);
    }
}

/// Every prefix of a valid image fails, and a truncation error names a read
/// that runs past the end of the prefix.
#[test]
fn every_truncation_error_names_a_read_past_the_end() {
    let bytes = PeBuilder::default().build();
    for len in 0..bytes.len() {
        match get_pe_information(&bytes[..len]) {
            Ok(_) => panic!("a prefix of {len} bytes parsed"),
            Err(ParseError::Truncated { offset, requested, available }) => {
                assert_eq!(available, len as u64);
                assert!(offset + requested > len as u64, "{offset:#x}+{requested} fits in {len}");
            }
            Err(other) => panic!("unexpected error {:?} at {len}", other),
        }
    }
}

#[test]
fn the_first_field_past_the_end_is_named() {
    let bytes = PeBuilder::default().build();
    // Cut inside `NumberOfSections` of the COFF header at 0x84.
    assert_eq!(
        get_pe_information(&bytes[..0x87]).err().unwrap(),
        ParseError::Truncated { offset: 0x86, requested: 2, available: 0x87 }
    );
    // Cut inside the first Data Directory entry's `Size`.
    let opt = DEFAULT_OPTIONAL_HEADER_OFFSET;
    assert_eq!(
        get_pe_information(&bytes[..opt + 0x76]).err().unwrap(),
        ParseError::Truncated { offset: (opt + 0x74) as u64, requested: 4, available: (opt + 0x76) as u64 }
    );
    // Cut inside the section's `Characteristics`.
    let len = bytes.len() - 2;
    assert_eq!(
        get_pe_information(&bytes[..len]).err().unwrap(),
        ParseError::Truncated { offset: (len - 2) as u64, requested: 4, available: len as u64 }
    );
}

#[test]
fn a_section_table_past_the_end_is_fine_when_there_are_no_sections() {
    let bytes = PeBuilder {
        sections: vec![],
        size_of_optional_header: Some(0x7FFF),
        ..Default::default()
    }
    .build();
    let info = get_pe_information(&bytes).unwrap().unwrap();
    assert!(info.Sections.is_empty());
}

#[test]
fn a_section_count_larger_than_the_file_names_the_first_missing_entry() {
    let bytes = PeBuilder {
        number_of_sections: Some(3),
        ..Default::default()
    }
    .build();
    // One entry is present; the second would start at the end of the buffer.
    assert_eq!(
        get_pe_information(&bytes).err().unwrap(),
        ParseError::Truncated { offset: bytes.len() as u64, requested: 8, available: bytes.len() as u64 }
    );
}

#[test]
fn a_pe32_image_parses_with_its_narrow_image_base() {
    let bytes = PeBuilder {
        optional_magic: 0x10B,
        machine: 0x14C,
        image_base: 0x1_0040_0000,
        ..Default::default()
    }
    .build();
    let info = get_pe_information(&bytes).unwrap().unwrap();
    assert_eq!(info.Machine, PeMachineType::I386);
    assert_eq!(info.OptionalHeader.magic, OptionalHeaderMagic::Pe32);
    assert_eq!(info.OptionalHeader.image_base, 0x0040_0000);
    assert_eq!(info.OptionalHeader.data_directories.len(), 16);
    assert_eq!(info.Format, BinaryFormat::Pe);
}

#[test]
fn a_bad_signature_error_names_e_lfanew() {
    let bytes = PeBuilder {
        nt_offset: 0xC0,
        pe_signature: *b"PE\0\x01",
        ..Default::default()
    }
    .build();
    assert_eq!(get_pe_information(&bytes).err().unwrap(), ParseError::BadSignature { offset: 0xC0 });
}

#[test]
fn an_unknown_magic_in_a_whole_image_is_reported() {
    let bytes = PeBuilder {
        optional_magic: 0x30B,
        ..Default::default()
    }
    .build();
    assert_eq!(
        get_pe_information(&bytes).err().unwrap(),
        ParseError::UnknownOptionalHeaderMagic { value: 0x30B }
    );
}

#[test]
fn get_file_type_reports_the_parse_error_of_a_broken_pe() {
    let bytes = PeBuilder {
        machine: 0xBEEF,
        ..Default::default()
    }
    .build();
    assert_eq!(
        get_file_type(&bytes).err().unwrap(),
        ParseError::UnknownMachineType { value: 0xBEEF }
    );
}
