//! Binary file type detection and parsing.
//!
//! Targets the PE (Portable Executable) format used by Windows. Layout
//! constants below follow the Microsoft PE format reference:
//! <https://learn.microsoft.com/en-us/windows/win32/debug/pe-format>
//!
//! ## PE layout, at a glance
//! - `0x00`: DOS header magic (`4D 5A`, i.e. `"MZ"`).
//! - `0x3C`: offset (a `u32`) of the NT / COFF header, relative to the start
//!   of the file: the `"PE\0\0"` signature, then the 20-byte COFF File
//!   Header, then the Optional Header, then the Section Table.
//!
//! Every read is checked against the end of the buffer: a field that runs
//! past the end is reported as [`ParseError::Truncated`], naming the first
//! such read.
use vstd::prelude::*;

use crate::checker::error::ParseError;
use vstd::slice::slice_subrange;

verus! {

/// The binary container format detected for a file.
#[derive(Debug, Clone, Copy, PartialEq, Eq)]
pub enum BinaryFormat {
    /// Portable Executable (Windows `.exe`, `.dll`, `.sys`, object files, ...).
    Pe,
    /// Executable and Linkable Format (Linux/Unix executables, shared objects, ...).
    Elf,
}

/// Fields of the COFF File Header (20 bytes long), located relative to the
/// start of that header, i.e. four bytes past the offset stored at `0x3C`.
#[derive(Debug, Clone, Copy, PartialEq, Eq)]
pub enum CoffFileHeaderOffset {
    /// `u16` — the target CPU architecture. See [`PeMachineType`].
    Machine,
    /// `u16` — number of section table entries following the headers.
    NumberOfSections,
    /// `u32` — low 32 bits of the creation time, in seconds since the Unix epoch.
    TimeDateStamp,
    /// `u32` — file offset of the COFF symbol table, or zero if none is present.
    PointerToSymbolTable,
    /// `u32` — number of entries in the symbol table.
    NumberOfSymbols,
    /// `u16` — size in bytes of the Optional Header, which immediately follows this header.
    SizeOfOptionalHeader,
    /// `u16` — bit flags describing attributes of the file.
    Characteristics,
}

/// Byte offset of each COFF File Header field from the start of that header.
pub open spec fn coff_field_offset(f: CoffFileHeaderOffset) -> usize {
    match f {
        CoffFileHeaderOffset::Machine => 0x0,
        CoffFileHeaderOffset::NumberOfSections => 0x2,
        CoffFileHeaderOffset::TimeDateStamp => 0x4,
        CoffFileHeaderOffset::PointerToSymbolTable => 0x8,
        CoffFileHeaderOffset::NumberOfSymbols => 0xC,
        CoffFileHeaderOffset::SizeOfOptionalHeader => 0x10,
        CoffFileHeaderOffset::Characteristics => 0x12,
    }
}

impl CoffFileHeaderOffset {
    /// Byte offset of this field from the start of the COFF File Header.
    pub fn offset(&self) -> (o: usize)
        ensures
            o == coff_field_offset(*self),
    {
        match self {
            CoffFileHeaderOffset::Machine => 0x0,
            CoffFileHeaderOffset::NumberOfSections => 0x2,
            CoffFileHeaderOffset::TimeDateStamp => 0x4,
            CoffFileHeaderOffset::PointerToSymbolTable => 0x8,
            CoffFileHeaderOffset::NumberOfSymbols => 0xC,
            CoffFileHeaderOffset::SizeOfOptionalHeader => 0x10,
            CoffFileHeaderOffset::Characteristics => 0x12,
        }
    }
}

/// Machine types recognized in the COFF File Header's `Machine` field.
/// [`PeMachineType::value`] gives the on-disk `u16` code of each.
#[derive(Debug, Clone, Copy, PartialEq, Eq)]
pub enum PeMachineType {
    /// The content of this field is assumed to be applicable to any machine type.
    Unknown,
    Alpha,
    Alpha64,
    Am33,
    /// x64.
    Amd64,
    /// ARM little endian.
    Arm,
    /// ARM64 little endian.
    Arm64,
    /// ARM64EC ("emulation compatible").
    Arm64Ec,
    /// ARM64X (mixed ARM64/ARM64EC binary).
    Arm64X,
    /// ARM Thumb-2 little endian.
    ArmNt,
    /// EFI byte code.
    Ebc,
    /// Intel 386 or later, and compatible processors.
    I386,
    /// Intel Itanium.
    Ia64,
    LoongArch32,
    LoongArch64,
    M32R,
    Mips16,
    MipsFpu,
    MipsFpu16,
    PowerPc,
    /// PowerPC with floating point support.
    PowerPcFp,
    /// MIPS little endian.
    R4000,
    RiscV32,
    RiscV64,
    RiscV128,
    Sh3,
    Sh3Dsp,
    Sh4,
    Sh5,
    /// ARM or Thumb ("interworking").
    Thumb,
    /// MIPS little-endian WCE v2.
    WceMipsV2,
}

/// The `Machine` code of each machine type.
pub open spec fn machine_code(m: PeMachineType) -> u16 {
    match m {
        PeMachineType::Unknown => 0x0,
        PeMachineType::Alpha => 0x184,
        PeMachineType::Alpha64 => 0x284,
        PeMachineType::Am33 => 0x1d3,
        PeMachineType::Amd64 => 0x8664,
        PeMachineType::Arm => 0x1c0,
        PeMachineType::Arm64 => 0xaa64,
        PeMachineType::Arm64Ec => 0xa641,
        PeMachineType::Arm64X => 0xa64e,
        PeMachineType::ArmNt => 0x1c4,
        PeMachineType::Ebc => 0xebc,
        PeMachineType::I386 => 0x14c,
        PeMachineType::Ia64 => 0x200,
        PeMachineType::LoongArch32 => 0x6232,
        PeMachineType::LoongArch64 => 0x6264,
        PeMachineType::M32R => 0x9041,
        PeMachineType::Mips16 => 0x266,
        PeMachineType::MipsFpu => 0x366,
        PeMachineType::MipsFpu16 => 0x466,
        PeMachineType::PowerPc => 0x1f0,
        PeMachineType::PowerPcFp => 0x1f1,
        PeMachineType::R4000 => 0x166,
        PeMachineType::RiscV32 => 0x5032,
        PeMachineType::RiscV64 => 0x5064,
        PeMachineType::RiscV128 => 0x5128,
        PeMachineType::Sh3 => 0x1a2,
        PeMachineType::Sh3Dsp => 0x1a3,
        PeMachineType::Sh4 => 0x1a6,
        PeMachineType::Sh5 => 0x1a8,
        PeMachineType::Thumb => 0x1c2,
        PeMachineType::WceMipsV2 => 0x169,
    }
}

/// The machine type that a `Machine` code names, if any.
pub open spec fn machine_of_code(value: u16) -> Option<PeMachineType> {
    if value == 0x0 {
        Some(PeMachineType::Unknown)
    } else if value == 0x184 {
        Some(PeMachineType::Alpha)
    } else if value == 0x284 {
        Some(PeMachineType::Alpha64)
    } else if value == 0x1d3 {
        Some(PeMachineType::Am33)
    } else if value == 0x8664 {
        Some(PeMachineType::Amd64)
    } else if value == 0x1c0 {
        Some(PeMachineType::Arm)
    } else if value == 0xaa64 {
        Some(PeMachineType::Arm64)
    } else if value == 0xa641 {
        Some(PeMachineType::Arm64Ec)
    } else if value == 0xa64e {
        Some(PeMachineType::Arm64X)
    } else if value == 0x1c4 {
        Some(PeMachineType::ArmNt)
    } else if value == 0xebc {
        Some(PeMachineType::Ebc)
    } else if value == 0x14c {
        Some(PeMachineType::I386)
    } else if value == 0x200 {
        Some(PeMachineType::Ia64)
    } else if value == 0x6232 {
        Some(PeMachineType::LoongArch32)
    } else if value == 0x6264 {
        Some(PeMachineType::LoongArch64)
    } else if value == 0x9041 {
        Some(PeMachineType::M32R)
    } else if value == 0x266 {
        Some(PeMachineType::Mips16)
    } else if value == 0x366 {
        Some(PeMachineType::MipsFpu)
    } else if value == 0x466 {
        Some(PeMachineType::MipsFpu16)
    } else if value == 0x1f0 {
        Some(PeMachineType::PowerPc)
    } else if value == 0x1f1 {
        Some(PeMachineType::PowerPcFp)
    } else if value == 0x166 {
        Some(PeMachineType::R4000)
    } else if value == 0x5032 {
        Some(PeMachineType::RiscV32)
    } else if value == 0x5064 {
        Some(PeMachineType::RiscV64)
    } else if value == 0x5128 {
        Some(PeMachineType::RiscV128)
    } else if value == 0x1a2 {
        Some(PeMachineType::Sh3)
    } else if value == 0x1a3 {
        Some(PeMachineType::Sh3Dsp)
    } else if value == 0x1a6 {
        Some(PeMachineType::Sh4)
    } else if value == 0x1a8 {
        Some(PeMachineType::Sh5)
    } else if value == 0x1c2 {
        Some(PeMachineType::Thumb)
    } else if value == 0x169 {
        Some(PeMachineType::WceMipsV2)
    } else {
        None
    }
}

impl PeMachineType {
    /// The on-disk `Machine` code of this machine type.
    pub fn value(&self) -> (v: u16)
        ensures
            v == machine_code(*self),
    {
        match self {
            PeMachineType::Unknown => 0x0,
            PeMachineType::Alpha => 0x184,
            PeMachineType::Alpha64 => 0x284,
            PeMachineType::Am33 => 0x1d3,
            PeMachineType::Amd64 => 0x8664,
            PeMachineType::Arm => 0x1c0,
            PeMachineType::Arm64 => 0xaa64,
            PeMachineType::Arm64Ec => 0xa641,
            PeMachineType::Arm64X => 0xa64e,
            PeMachineType::ArmNt => 0x1c4,
            PeMachineType::Ebc => 0xebc,
            PeMachineType::I386 => 0x14c,
            PeMachineType::Ia64 => 0x200,
            PeMachineType::LoongArch32 => 0x6232,
            PeMachineType::LoongArch64 => 0x6264,
            PeMachineType::M32R => 0x9041,
            PeMachineType::Mips16 => 0x266,
            PeMachineType::MipsFpu => 0x366,
            PeMachineType::MipsFpu16 => 0x466,
            PeMachineType::PowerPc => 0x1f0,
            PeMachineType::PowerPcFp => 0x1f1,
            PeMachineType::R4000 => 0x166,
            PeMachineType::RiscV32 => 0x5032,
            PeMachineType::RiscV64 => 0x5064,
            PeMachineType::RiscV128 => 0x5128,
            PeMachineType::Sh3 => 0x1a2,
            PeMachineType::Sh3Dsp => 0x1a3,
            PeMachineType::Sh4 => 0x1a6,
            PeMachineType::Sh5 => 0x1a8,
            PeMachineType::Thumb => 0x1c2,
            PeMachineType::WceMipsV2 => 0x169,
        }
    }
}

impl TryFrom<u16> for PeMachineType {
    type Error = ParseError;

    /// Names the machine type of a `Machine` code; an unlisted code is an error.
    fn try_from(value: u16) -> (res: Result<Self, ParseError>)
        ensures
            res == machine_type_from(value),
    {
        match value {
            0x0 => Ok(PeMachineType::Unknown),
            0x184 => Ok(PeMachineType::Alpha),
            0x284 => Ok(PeMachineType::Alpha64),
            0x1d3 => Ok(PeMachineType::Am33),
            0x8664 => Ok(PeMachineType::Amd64),
            0x1c0 => Ok(PeMachineType::Arm),
            0xaa64 => Ok(PeMachineType::Arm64),
            0xa641 => Ok(PeMachineType::Arm64Ec),
            0xa64e => Ok(PeMachineType::Arm64X),
            0x1c4 => Ok(PeMachineType::ArmNt),
            0xebc => Ok(PeMachineType::Ebc),
            0x14c => Ok(PeMachineType::I386),
            0x200 => Ok(PeMachineType::Ia64),
            0x6232 => Ok(PeMachineType::LoongArch32),
            0x6264 => Ok(PeMachineType::LoongArch64),
            0x9041 => Ok(PeMachineType::M32R),
            0x266 => Ok(PeMachineType::Mips16),
            0x366 => Ok(PeMachineType::MipsFpu),
            0x466 => Ok(PeMachineType::MipsFpu16),
            0x1f0 => Ok(PeMachineType::PowerPc),
            0x1f1 => Ok(PeMachineType::PowerPcFp),
            0x166 => Ok(PeMachineType::R4000),
            0x5032 => Ok(PeMachineType::RiscV32),
            0x5064 => Ok(PeMachineType::RiscV64),
            0x5128 => Ok(PeMachineType::RiscV128),
            0x1a2 => Ok(PeMachineType::Sh3),
            0x1a3 => Ok(PeMachineType::Sh3Dsp),
            0x1a6 => Ok(PeMachineType::Sh4),
            0x1a8 => Ok(PeMachineType::Sh5),
            0x1c2 => Ok(PeMachineType::Thumb),
            0x169 => Ok(PeMachineType::WceMipsV2),
            other => Err(ParseError::UnknownMachineType { value: other }),
        }
    }
}

/// What converting a `Machine` code gives: its machine type, or the error
/// that names the unknown code.
pub open spec fn machine_type_from(value: u16) -> Result<PeMachineType, ParseError> {
    match machine_of_code(value) {
        Some(m) => Ok(m),
        None => Err(ParseError::UnknownMachineType { value }),
    }
}

impl vstd::std_specs::convert::TryFromSpecImpl<u16> for PeMachineType {
    open spec fn obeys_try_from_spec() -> bool {
        true
    }

    open spec fn try_from_spec(v: u16) -> Result<Self, ParseError> {
        machine_type_from(v)
    }
}

/// Value of the Optional Header's `Magic` field, identifying which of the
/// Optional Header layouts is in use.
#[derive(Debug, Clone, Copy, PartialEq, Eq)]
pub enum OptionalHeaderMagic {
    /// 32-bit image. `BaseOfData` is present and `ImageBase`/stack/heap
    /// size fields are 4 bytes wide.
    Pe32,
    /// 64-bit image ("PE32+"). `BaseOfData` is omitted and `ImageBase`/
    /// stack/heap size fields are 8 bytes wide.
    Pe32Plus,
    /// ROM image. Not used by the Windows loader; laid out as PE32.
    Rom,
}

/// The `Magic` code of each Optional Header layout.
pub open spec fn magic_code(m: OptionalHeaderMagic) -> u16 {
    match m {
        OptionalHeaderMagic::Pe32 => 0x10B,
        OptionalHeaderMagic::Pe32Plus => 0x20B,
        OptionalHeaderMagic::Rom => 0x107,
    }
}

/// The Optional Header layout that a `Magic` code names, if any.
pub open spec fn magic_of_code(value: u16) -> Option<OptionalHeaderMagic> {
    if value == 0x10B {
        Some(OptionalHeaderMagic::Pe32)
    } else if value == 0x20B {
        Some(OptionalHeaderMagic::Pe32Plus)
    } else if value == 0x107 {
        Some(OptionalHeaderMagic::Rom)
    } else {
        None
    }
}

impl OptionalHeaderMagic {
    /// The on-disk `Magic` code of this layout.
    pub fn value(&self) -> (v: u16)
        ensures
            v == magic_code(*self),
    {
        match self {
            OptionalHeaderMagic::Pe32 => 0x10B,
            OptionalHeaderMagic::Pe32Plus => 0x20B,
            OptionalHeaderMagic::Rom => 0x107,
        }
    }
}

/// The well-known entries of the Optional Header's Data Directory array.
/// Entry `N` is the 8-byte pair (`VirtualAddress: u32`, `Size: u32`) at
/// byte `N * 8` of the array.
#[derive(Debug, Clone, Copy, PartialEq, Eq)]
pub enum DataDirectoryOffset {
    ExportTable,
    ImportTable,
    ResourceTable,
    ExceptionTable,
    /// Attribute certificate table — unlike the others, a file offset rather than an RVA.
    CertificateTable,
    BaseRelocationTable,
    Debug,
    /// Reserved, must be zero.
    Architecture,
    GlobalPtr,
    TlsTable,
    LoadConfigTable,
    BoundImport,
    /// Import Address Table.
    Iat,
    DelayImportDescriptor,
    /// CLR runtime header (.NET images).
    ClrRuntimeHeader,
    /// Reserved, must be zero.
    Reserved,
}

/// The 0-based index of each entry in the Data Directory array.
pub open spec fn data_directory_index(d: DataDirectoryOffset) -> usize {
    match d {
        DataDirectoryOffset::ExportTable => 0,
        DataDirectoryOffset::ImportTable => 1,
        DataDirectoryOffset::ResourceTable => 2,
        DataDirectoryOffset::ExceptionTable => 3,
        DataDirectoryOffset::CertificateTable => 4,
        DataDirectoryOffset::BaseRelocationTable => 5,
        DataDirectoryOffset::Debug => 6,
        DataDirectoryOffset::Architecture => 7,
        DataDirectoryOffset::GlobalPtr => 8,
        DataDirectoryOffset::TlsTable => 9,
        DataDirectoryOffset::LoadConfigTable => 10,
        DataDirectoryOffset::BoundImport => 11,
        DataDirectoryOffset::Iat => 12,
        DataDirectoryOffset::DelayImportDescriptor => 13,
        DataDirectoryOffset::ClrRuntimeHeader => 14,
        DataDirectoryOffset::Reserved => 15,
    }
}

impl DataDirectoryOffset {
    /// The 0-based index of this entry in the Data Directory array.
    pub fn index(&self) -> (i: usize)
        ensures
            i == data_directory_index(*self),
    {
        match self {
            DataDirectoryOffset::ExportTable => 0,
            DataDirectoryOffset::ImportTable => 1,
            DataDirectoryOffset::ResourceTable => 2,
            DataDirectoryOffset::ExceptionTable => 3,
            DataDirectoryOffset::CertificateTable => 4,
            DataDirectoryOffset::BaseRelocationTable => 5,
            DataDirectoryOffset::Debug => 6,
            DataDirectoryOffset::Architecture => 7,
            DataDirectoryOffset::GlobalPtr => 8,
            DataDirectoryOffset::TlsTable => 9,
            DataDirectoryOffset::LoadConfigTable => 10,
            DataDirectoryOffset::BoundImport => 11,
            DataDirectoryOffset::Iat => 12,
            DataDirectoryOffset::DelayImportDescriptor => 13,
            DataDirectoryOffset::ClrRuntimeHeader => 14,
            DataDirectoryOffset::Reserved => 15,
        }
    }
}

/// A single parsed Data Directory entry.
#[derive(Debug, Clone, Copy, PartialEq, Eq)]
pub struct DataDirectory {
    pub virtual_address: u32,
    pub size: u32,
}

/// Parsed Optional Header fields, common to PE32 and PE32+.
#[derive(Debug)]
pub struct OptionalHeader {
    pub magic: OptionalHeaderMagic,
    pub address_of_entry_point: u32,
    pub image_base: u64,
    pub section_alignment: u32,
    pub file_alignment: u32,
    pub size_of_image: u32,
    pub size_of_headers: u32,
    pub subsystem: u16,
    pub dll_characteristics: u16,
    /// Indexed by [`DataDirectoryOffset`].
    pub data_directories: Vec<DataDirectory>,
}

/// Fields of a Section Table entry (40 bytes long), located relative to the
/// start of that entry. The table immediately follows the Optional Header
/// and has `NumberOfSections` entries.
#[derive(Debug, Clone, Copy, PartialEq, Eq)]
pub enum SectionHeaderOffset {
    /// `[u8; 8]` — UTF-8, null-padded, not necessarily null-terminated.
    Name,
    /// `u32` — total size of the section when loaded into memory.
    VirtualSize,
    /// `u32` — RVA of the section when loaded into memory.
    VirtualAddress,
    /// `u32` — size of the section's raw data on disk.
    SizeOfRawData,
    /// `u32` — file offset of the section's raw data.
    PointerToRawData,
    /// `u32` — file offset of relocation entries. Zero for images.
    PointerToRelocations,
    /// `u32` — file offset of line-number entries. Deprecated.
    PointerToLinenumbers,
    /// `u16` — number of relocation entries. Zero for images.
    NumberOfRelocations,
    /// `u16` — number of line-number entries. Deprecated.
    NumberOfLinenumbers,
    /// `u32` — bit flags describing the section.
    Characteristics,
}

/// Byte offset of each Section Table entry field from the start of the entry.
pub open spec fn section_field_offset(f: SectionHeaderOffset) -> usize {
    match f {
        SectionHeaderOffset::Name => 0x0,
        SectionHeaderOffset::VirtualSize => 0x8,
        SectionHeaderOffset::VirtualAddress => 0xC,
        SectionHeaderOffset::SizeOfRawData => 0x10,
        SectionHeaderOffset::PointerToRawData => 0x14,
        SectionHeaderOffset::PointerToRelocations => 0x18,
        SectionHeaderOffset::PointerToLinenumbers => 0x1C,
        SectionHeaderOffset::NumberOfRelocations => 0x20,
        SectionHeaderOffset::NumberOfLinenumbers => 0x22,
        SectionHeaderOffset::Characteristics => 0x24,
    }
}

impl SectionHeaderOffset {
    /// Byte offset of this field from the start of a Section Table entry.
    pub fn offset(&self) -> (o: usize)
        ensures
            o == section_field_offset(*self),
    {
        match self {
            SectionHeaderOffset::Name => 0x0,
            SectionHeaderOffset::VirtualSize => 0x8,
            SectionHeaderOffset::VirtualAddress => 0xC,
            SectionHeaderOffset::SizeOfRawData => 0x10,
            SectionHeaderOffset::PointerToRawData => 0x14,
            SectionHeaderOffset::PointerToRelocations => 0x18,
            SectionHeaderOffset::PointerToLinenumbers => 0x1C,
            SectionHeaderOffset::NumberOfRelocations => 0x20,
            SectionHeaderOffset::NumberOfLinenumbers => 0x22,
            SectionHeaderOffset::Characteristics => 0x24,
        }
    }
}

/// A single parsed Section Table entry.
#[derive(Debug)]
pub struct SectionHeader {
    pub name: [u8; 8],
    pub virtual_size: u32,
    pub virtual_address: u32,
    pub size_of_raw_data: u32,
    pub pointer_to_raw_data: u32,
    pub characteristics: u32,
}

/// Parsed information about a PE binary.
#[allow(non_snake_case)]
#[derive(Debug)]
pub struct PEInformation {
    pub Machine: PeMachineType,
    pub Format: BinaryFormat,
    pub OptionalHeader: OptionalHeader,
    pub Sections: Vec<SectionHeader>,
}

/// Parsed information about an ELF binary (no fields are read yet).
#[derive(Debug)]
pub struct ElfInformation {}

/// Result of inspecting a file's contents: at most one of these is
/// populated, depending on which format was detected.
#[allow(non_snake_case)]
#[derive(Debug)]
pub struct BinaryInfo {
    pub PEInf: Option<PEInformation>,
    pub ElfInf: Option<ElfInformation>,
}

// ---------------------------------------------------------------------------
// Byte windows and little-endian integers
// ---------------------------------------------------------------------------

/// Little-endian value of the two bytes at `off`.
pub open spec fn le_u16(b: Seq<u8>, off: int) -> int {
    b[off] as int + b[off + 1] as int * 0x100
}

/// Little-endian value of the four bytes at `off`.
pub open spec fn le_u32(b: Seq<u8>, off: int) -> int {
    le_u16(b, off) + le_u16(b, off + 2) * 0x1_0000
}

/// Little-endian value of the eight bytes at `off`.
pub open spec fn le_u64(b: Seq<u8>, off: int) -> int {
    le_u32(b, off) + le_u32(b, off + 4) * 0x1_0000_0000
}

/// The error for a read of `n` bytes at `offset` from a buffer of `len` bytes.
pub open spec fn truncated(offset: int, n: int, len: int) -> ParseError {
    ParseError::Truncated { offset: offset as u64, requested: n as u64, available: len as u64 }
}

/// The `n` bytes at `offset`, or the error naming that read when they run
/// past the end of `b`.
pub open spec fn spec_window(b: Seq<u8>, offset: int, n: int) -> Result<Seq<u8>, ParseError> {
    if offset + n <= b.len() {
        Ok(b.subrange(offset, offset + n))
    } else {
        Err(truncated(offset, n, b.len() as int))
    }
}

/// The little-endian `u16` at `off`, or the error naming that read.
pub open spec fn spec_read_u16(b: Seq<u8>, off: int) -> Result<u16, ParseError> {
    if off + 2 <= b.len() {
        Ok(le_u16(b, off) as u16)
    } else {
        Err(truncated(off, 2, b.len() as int))
    }
}

/// The little-endian `u32` at `off`, or the error naming that read.
pub open spec fn spec_read_u32(b: Seq<u8>, off: int) -> Result<u32, ParseError> {
    if off + 4 <= b.len() {
        Ok(le_u32(b, off) as u32)
    } else {
        Err(truncated(off, 4, b.len() as int))
    }
}

/// The little-endian `u64` at `off`, or the error naming that read.
pub open spec fn spec_read_u64(b: Seq<u8>, off: int) -> Result<u64, ParseError> {
    if off + 8 <= b.len() {
        Ok(le_u64(b, off) as u64)
    } else {
        Err(truncated(off, 8, b.len() as int))
    }
}

/// A result with its success value replaced by that value's view.
pub open spec fn result_view<T: View>(r: Result<T, ParseError>) -> Result<T::V, ParseError> {
    match r {
        Ok(t) => Ok(t@),
        Err(e) => Err(e),
    }
}

/// The `n` bytes at `offset`, for offsets that may lie beyond `usize`.
fn window_at<'a>(bytes: &'a [u8], offset: u64, n: u64) -> (res: Result<&'a [u8], ParseError>)
    ensures
        result_view(res) == spec_window(bytes@, offset as int, n as int),
{
    let len = bytes.len() as u64;
    if offset <= len && n <= len - offset {
        Ok(slice_subrange(bytes, offset as usize, (offset + n) as usize))
    } else {
        Err(ParseError::Truncated { offset, requested: n, available: len })
    }
}

/// Grabs the `n` bytes at `offset`, failing when they run past the end.
pub fn get_n_bytes_from_bytes<'a>(bytes: &'a [u8], offset: usize, n: usize) -> (res: Result<&'a [u8], ParseError>)
    ensures
        result_view(res) == spec_window(bytes@, offset as int, n as int),
{
    window_at(bytes, offset as u64, n as u64)
}

fn read_u16_at(bytes: &[u8], offset: u64) -> (res: Result<u16, ParseError>)
    ensures
        res == spec_read_u16(bytes@, offset as int),
{
    match window_at(bytes, offset, 2) {
        Ok(b) => Ok(b[0] as u16 + b[1] as u16 * 0x100),
        Err(e) => Err(e),
    }
}

fn read_u32_at(bytes: &[u8], offset: u64) -> (res: Result<u32, ParseError>)
    ensures
        res == spec_read_u32(bytes@, offset as int),
{
    match window_at(bytes, offset, 4) {
        Ok(b) => Ok(
            b[0] as u32 + b[1] as u32 * 0x100 + b[2] as u32 * 0x1_0000 + b[3] as u32 * 0x100_0000,
        ),
        Err(e) => Err(e),
    }
}

fn read_u64_at(bytes: &[u8], offset: u64) -> (res: Result<u64, ParseError>)
    ensures
        res == spec_read_u64(bytes@, offset as int),
{
    match window_at(bytes, offset, 8) {
        Ok(b) => Ok(
            b[0] as u64 + b[1] as u64 * 0x100 + b[2] as u64 * 0x1_0000 + b[3] as u64 * 0x100_0000
                + b[4] as u64 * 0x1_0000_0000 + b[5] as u64 * 0x100_0000_0000
                + b[6] as u64 * 0x1_0000_0000_0000 + b[7] as u64 * 0x100_0000_0000_0000,
        ),
        Err(e) => Err(e),
    }
}

/// Reads the little-endian `u16` at `offset`.
pub fn read_u16(bytes: &[u8], offset: usize) -> (res: Result<u16, ParseError>)
    ensures
        res == spec_read_u16(bytes@, offset as int),
{
    read_u16_at(bytes, offset as u64)
}

/// Reads the little-endian `u32` at `offset`.
pub fn read_u32(bytes: &[u8], offset: usize) -> (res: Result<u32, ParseError>)
    ensures
        res == spec_read_u32(bytes@, offset as int),
{
    read_u32_at(bytes, offset as u64)
}

/// Reads the little-endian `u64` at `offset`.
pub fn read_u64(bytes: &[u8], offset: usize) -> (res: Result<u64, ParseError>)
    ensures
        res == spec_read_u64(bytes@, offset as int),
{
    read_u64_at(bytes, offset as u64)
}

/// Whether the buffer starts with the DOS magic `"MZ"` (1) or not (0); a
/// buffer too short to hold the magic is an error.
pub open spec fn spec_check_for_pe(b: Seq<u8>) -> Result<u8, ParseError> {
    if b.len() < 2 {
        Err(truncated(0, 2, b.len() as int))
    } else if b[0] == 0x4D && b[1] == 0x5A {
        Ok(1)
    } else {
        Ok(0)
    }
}

/// Returns 1 if the buffer starts with the bytes that a PE starts with, 0 otherwise.
pub fn check_for_pe(bytes: &[u8]) -> (res: Result<u8, ParseError>)
    ensures
        res == spec_check_for_pe(bytes@),
{
    match window_at(bytes, 0, 2) {
        Ok(magic) => {
            if magic[0] == 0x4D && magic[1] == 0x5A {
                Ok(1)
            } else {
                Ok(0)
            }
        },
        Err(e) => Err(e),
    }
}


// ---------------------------------------------------------------------------
// Section Table entries
// ---------------------------------------------------------------------------

/// The mathematical content of a [`SectionHeader`].
#[verifier::ext_equal]
pub struct SectionHeaderView {
    pub name: Seq<u8>,
    pub virtual_size: u32,
    pub virtual_address: u32,
    pub size_of_raw_data: u32,
    pub pointer_to_raw_data: u32,
    pub characteristics: u32,
}

impl View for SectionHeader {
    type V = SectionHeaderView;

    open spec fn view(&self) -> SectionHeaderView {
        SectionHeaderView {
            name: self.name@,
            virtual_size: self.virtual_size,
            virtual_address: self.virtual_address,
            size_of_raw_data: self.size_of_raw_data,
            pointer_to_raw_data: self.pointer_to_raw_data,
            characteristics: self.characteristics,
        }
    }
}

/// Size in bytes of one Section Table entry.
pub open spec fn section_header_size() -> int {
    0x28
}

/// The error for a Section Table entry at `off` that does not fit in `len`
/// bytes: the first of its field reads (in the order Name, VirtualSize,
/// VirtualAddress, SizeOfRawData, PointerToRawData, Characteristics) that
/// runs past the end.
pub open spec fn section_shortfall(len: int, off: int) -> ParseError {
    if off + 0x8 > len {
        truncated(off, 8, len)
    } else if off + 0xC > len {
        truncated(off + 0x8, 4, len)
    } else if off + 0x10 > len {
        truncated(off + 0xC, 4, len)
    } else if off + 0x14 > len {
        truncated(off + 0x10, 4, len)
    } else if off + 0x18 > len {
        truncated(off + 0x14, 4, len)
    } else {
        truncated(off + 0x24, 4, len)
    }
}

/// The fields of the Section Table entry whose 40 bytes start at `off`.
pub open spec fn section_view_at(b: Seq<u8>, off: int) -> SectionHeaderView {
    SectionHeaderView {
        name: b.subrange(off, off + 8),
        virtual_size: le_u32(b, off + 0x8) as u32,
        virtual_address: le_u32(b, off + 0xC) as u32,
        size_of_raw_data: le_u32(b, off + 0x10) as u32,
        pointer_to_raw_data: le_u32(b, off + 0x14) as u32,
        characteristics: le_u32(b, off + 0x24) as u32,
    }
}

/// The Section Table entry at `off`: it parses when its 40 bytes fit in
/// the buffer.
pub open spec fn spec_section_header(b: Seq<u8>, off: int) -> Result<SectionHeaderView, ParseError> {
    if off + section_header_size() <= b.len() {
        Ok(section_view_at(b, off))
    } else {
        Err(section_shortfall(b.len() as int, off))
    }
}

fn section_header_at(bytes: &[u8], offset: u64) -> (res: Result<SectionHeader, ParseError>)
    requires
        bytes@.len() <= isize::MAX,
    ensures
        result_view(res) == spec_section_header(bytes@, offset as int),
{
    let name_bytes = match window_at(bytes, offset + SectionHeaderOffset::Name.offset() as u64, 8) {
        Ok(w) => w,
        Err(e) => return Err(e),
    };
    let name = [
        name_bytes[0],
        name_bytes[1],
        name_bytes[2],
        name_bytes[3],
        name_bytes[4],
        name_bytes[5],
        name_bytes[6],
        name_bytes[7],
    ];
    assert(name@ =~= bytes@.subrange(offset as int, offset + 8));
    let virtual_size = match read_u32_at(bytes, offset + SectionHeaderOffset::VirtualSize.offset() as u64) {
        Ok(v) => v,
        Err(e) => return Err(e),
    };
    let virtual_address = match read_u32_at(
        bytes,
        offset + SectionHeaderOffset::VirtualAddress.offset() as u64,
    ) {
        Ok(v) => v,
        Err(e) => return Err(e),
    };
    let size_of_raw_data = match read_u32_at(
        bytes,
        offset + SectionHeaderOffset::SizeOfRawData.offset() as u64,
    ) {
        Ok(v) => v,
        Err(e) => return Err(e),
    };
    let pointer_to_raw_data = match read_u32_at(
        bytes,
        offset + SectionHeaderOffset::PointerToRawData.offset() as u64,
    ) {
        Ok(v) => v,
        Err(e) => return Err(e),
    };
    let characteristics = match read_u32_at(
        bytes,
        offset + SectionHeaderOffset::Characteristics.offset() as u64,
    ) {
        Ok(v) => v,
        Err(e) => return Err(e),
    };
    Ok(
        SectionHeader {
            name,
            virtual_size,
            virtual_address,
            size_of_raw_data,
            pointer_to_raw_data,
            characteristics,
        },
    )
}

/// Parses the Section Table entry (`IMAGE_SECTION_HEADER`) at `offset`.
pub fn get_section_header(bytes: &[u8], offset: usize) -> (res: Result<SectionHeader, ParseError>)
    requires
        bytes@.len() <= isize::MAX,
    ensures
        result_view(res) == spec_section_header(bytes@, offset as int),
{
    section_header_at(bytes, offset as u64)
}


// ---------------------------------------------------------------------------
// Optional Header
// ---------------------------------------------------------------------------

/// The mathematical content of an [`OptionalHeader`].
#[verifier::ext_equal]
pub struct OptionalHeaderView {
    pub magic: OptionalHeaderMagic,
    pub address_of_entry_point: u32,
    pub image_base: u64,
    pub section_alignment: u32,
    pub file_alignment: u32,
    pub size_of_image: u32,
    pub size_of_headers: u32,
    pub subsystem: u16,
    pub dll_characteristics: u16,
    pub data_directories: Seq<DataDirectory>,
}

impl View for OptionalHeader {
    type V = OptionalHeaderView;

    open spec fn view(&self) -> OptionalHeaderView {
        OptionalHeaderView {
            magic: self.magic,
            address_of_entry_point: self.address_of_entry_point,
            image_base: self.image_base,
            section_alignment: self.section_alignment,
            file_alignment: self.file_alignment,
            size_of_image: self.size_of_image,
            size_of_headers: self.size_of_headers,
            subsystem: self.subsystem,
            dll_characteristics: self.dll_characteristics,
            data_directories: self.data_directories@,
        }
    }
}

/// Width in bytes of `ImageBase` and of the four stack/heap size fields.
pub open spec fn address_width(m: OptionalHeaderMagic) -> int {
    if m == OptionalHeaderMagic::Pe32Plus { 8 } else { 4 }
}

/// Offset of `ImageBase` from the start of the Optional Header: PE32 keeps
/// the 4-byte `BaseOfData` at 0x18, PE32+ has an 8-byte `ImageBase` there.
pub open spec fn image_base_offset(m: OptionalHeaderMagic) -> int {
    if m == OptionalHeaderMagic::Pe32Plus { 0x18 } else { 0x1C }
}

/// Offset of `NumberOfRvaAndSizes` from the start of the Optional Header:
/// past `SizeOfHeaders`, `CheckSum`, `Subsystem`, `DllCharacteristics`, the
/// four stack/heap sizes and `LoaderFlags`.
pub open spec fn rva_count_offset(m: OptionalHeaderMagic) -> int {
    0x48 + 4 * address_width(m) + 0x4
}

/// Offset of the Data Directory array from the start of the Optional Header.
pub open spec fn data_directory_offset(m: OptionalHeaderMagic) -> int {
    rva_count_offset(m) + 4
}

/// The Data Directory entry whose 8 bytes start at `off`.
pub open spec fn data_directory_at(b: Seq<u8>, off: int) -> DataDirectory {
    DataDirectory { virtual_address: le_u32(b, off) as u32, size: le_u32(b, off + 4) as u32 }
}

/// For an Optional Header of layout `m` at `off` in a buffer of `len`
/// bytes, the first of its fixed field reads after `Magic` that runs past
/// the end, in the order AddressOfEntryPoint, ImageBase, SectionAlignment,
/// FileAlignment, SizeOfImage, SizeOfHeaders, Subsystem,
/// DllCharacteristics, NumberOfRvaAndSizes.
pub open spec fn optional_fixed_shortfall(len: int, off: int, m: OptionalHeaderMagic) -> Option<ParseError> {
    if off + 0x14 > len {
        Some(truncated(off + 0x10, 4, len))
    } else if off + 0x20 > len {
        Some(truncated(off + image_base_offset(m), address_width(m), len))
    } else if off + 0x24 > len {
        Some(truncated(off + 0x20, 4, len))
    } else if off + 0x28 > len {
        Some(truncated(off + 0x24, 4, len))
    } else if off + 0x3C > len {
        Some(truncated(off + 0x38, 4, len))
    } else if off + 0x40 > len {
        Some(truncated(off + 0x3C, 4, len))
    } else if off + 0x46 > len {
        Some(truncated(off + 0x44, 2, len))
    } else if off + 0x48 > len {
        Some(truncated(off + 0x46, 2, len))
    } else if off + data_directory_offset(m) > len {
        Some(truncated(off + rva_count_offset(m), 4, len))
    } else {
        None
    }
}

/// The Optional Header (`IMAGE_OPTIONAL_HEADER32`/`64`) at `off`: its
/// `Magic` selects the layout, then the fixed fields are read, then
/// `NumberOfRvaAndSizes` Data Directory entries of 8 bytes each. When the
/// entries run past the end, the error names the first 4-byte read of them
/// that does.
pub open spec fn spec_optional_header(b: Seq<u8>, off: int) -> Result<OptionalHeaderView, ParseError> {
    let len = b.len() as int;
    if off + 2 > len {
        Err(truncated(off, 2, len))
    } else {
        let code = le_u16(b, off) as u16;
        match magic_of_code(code) {
            None => Err(ParseError::UnknownOptionalHeaderMagic { value: code }),
            Some(m) => match optional_fixed_shortfall(len, off, m) {
                Some(e) => Err(e),
                None => {
                    let count = le_u32(b, off + rva_count_offset(m));
                    let d = off + data_directory_offset(m);
                    if d + 8 * count > len {
                        Err(truncated(d + 4 * ((len - d) / 4), 4, len))
                    } else {
                        Ok(
                            OptionalHeaderView {
                                magic: m,
                                address_of_entry_point: le_u32(b, off + 0x10) as u32,
                                image_base: if m == OptionalHeaderMagic::Pe32Plus {
                                    le_u64(b, off + 0x18) as u64
                                } else {
                                    le_u32(b, off + 0x1C) as u64
                                },
                                section_alignment: le_u32(b, off + 0x20) as u32,
                                file_alignment: le_u32(b, off + 0x24) as u32,
                                size_of_image: le_u32(b, off + 0x38) as u32,
                                size_of_headers: le_u32(b, off + 0x3C) as u32,
                                subsystem: le_u16(b, off + 0x44) as u16,
                                dll_characteristics: le_u16(b, off + 0x46) as u16,
                                data_directories: Seq::new(
                                    count as nat,
                                    |i: int| data_directory_at(b, d + 8 * i),
                                ),
                            },
                        )
                    }
                },
            },
        }
    }
}

/// Reads `count` Data Directory entries starting at `offset`.
fn data_directories_at(bytes: &[u8], offset: u64, count: u32) -> (res: Result<Vec<DataDirectory>, ParseError>)
    requires
        bytes@.len() <= isize::MAX,
        offset <= bytes@.len(),
    ensures
        offset + 8 * count <= bytes@.len() ==> (res matches Ok(v) && v@ == Seq::new(
            count as nat,
            |i: int| data_directory_at(bytes@, offset + 8 * i),
        )),
        offset + 8 * count > bytes@.len() ==> res == Err::<Vec<DataDirectory>, ParseError>(
            truncated(
                offset + 4 * ((bytes@.len() - offset) / 4),
                4,
                bytes@.len() as int,
            ),
        ),
{
    let ghost len = bytes@.len() as int;
    let mut directories: Vec<DataDirectory> = Vec::new();
    let mut i: u32 = 0;
    while i < count
        invariant
            bytes@.len() <= isize::MAX,
            len == bytes@.len(),
            offset <= len,
            i <= count,
            offset + 8 * i <= len,
            directories@.len() == i,
            forall|j: int| 0 <= j < i ==> directories@[j] == data_directory_at(bytes@, offset + 8 * j),
        decreases count - i,
    {
        let entry_offset = offset + i as u64 * 8;
        let virtual_address = match read_u32_at(bytes, entry_offset) {
            Ok(v) => v,
            Err(e) => {
                assert((len - offset) / 4 == 2 * i);
                return Err(e);
            },
        };
        let size = match read_u32_at(bytes, entry_offset + 4) {
            Ok(v) => v,
            Err(e) => {
                assert((len - offset) / 4 == 2 * i + 1);
                return Err(e);
            },
        };
        directories.push(DataDirectory { virtual_address, size });
        i = i + 1;
    }
    assert(directories@ =~= Seq::new(count as nat, |j: int| data_directory_at(bytes@, offset + 8 * j)));
    Ok(directories)
}

fn optional_header_at(bytes: &[u8], offset: u64) -> (res: Result<OptionalHeader, ParseError>)
    requires
        bytes@.len() <= isize::MAX,
    ensures
        result_view(res) == spec_optional_header(bytes@, offset as int),
{
    let magic = match read_u16_at(bytes, offset) {
        Ok(0x10B) => OptionalHeaderMagic::Pe32,
        Ok(0x20B) => OptionalHeaderMagic::Pe32Plus,
        Ok(0x107) => OptionalHeaderMagic::Rom,
        Ok(other) => return Err(ParseError::UnknownOptionalHeaderMagic { value: other }),
        Err(e) => return Err(e),
    };
    let address_of_entry_point = match read_u32_at(bytes, offset + 0x10) {
        Ok(v) => v,
        Err(e) => return Err(e),
    };
    let (image_base, fixed_fields_offset, address_field_size) = match &magic {
        OptionalHeaderMagic::Pe32Plus => {
            match read_u64_at(bytes, offset + 0x18) {
                Ok(v) => (v, offset + 0x20, 8u64),
                Err(e) => return Err(e),
            }
        },
        _ => {
            match read_u32_at(bytes, offset + 0x1C) {
                Ok(v) => (v as u64, offset + 0x20, 4u64),
                Err(e) => return Err(e),
            }
        },
    };
    let section_alignment = match read_u32_at(bytes, fixed_fields_offset) {
        Ok(v) => v,
        Err(e) => return Err(e),
    };
    let file_alignment = match read_u32_at(bytes, fixed_fields_offset + 0x4) {
        Ok(v) => v,
        Err(e) => return Err(e),
    };
    let size_of_image = match read_u32_at(bytes, fixed_fields_offset + 0x18) {
        Ok(v) => v,
        Err(e) => return Err(e),
    };
    let size_of_headers = match read_u32_at(bytes, fixed_fields_offset + 0x1C) {
        Ok(v) => v,
        Err(e) => return Err(e),
    };
    let subsystem = match read_u16_at(bytes, fixed_fields_offset + 0x24) {
        Ok(v) => v,
        Err(e) => return Err(e),
    };
    let dll_characteristics = match read_u16_at(bytes, fixed_fields_offset + 0x26) {
        Ok(v) => v,
        Err(e) => return Err(e),
    };
    // The four stack/heap reserve and commit sizes are followed by
    // `LoaderFlags: u32`, then `NumberOfRvaAndSizes: u32`.
    let number_of_rva_and_sizes_offset = fixed_fields_offset + 0x28 + address_field_size * 4 + 0x4;
    let number_of_rva_and_sizes = match read_u32_at(bytes, number_of_rva_and_sizes_offset) {
        Ok(v) => v,
        Err(e) => return Err(e),
    };
    let data_directories = match data_directories_at(
        bytes,
        number_of_rva_and_sizes_offset + 4,
        number_of_rva_and_sizes,
    ) {
        Ok(v) => v,
        Err(e) => return Err(e),
    };
    let header = OptionalHeader {
        magic,
        address_of_entry_point,
        image_base,
        section_alignment,
        file_alignment,
        size_of_image,
        size_of_headers,
        subsystem,
        dll_characteristics,
        data_directories,
    };
    assert(header@ =~= spec_optional_header(bytes@, offset as int).unwrap());
    Ok(header)
}

/// Parses the Optional Header (`IMAGE_OPTIONAL_HEADER32`/`64`) starting at
/// `offset`. PE32 and PE32+ differ in the width of `ImageBase` and in
/// whether `BaseOfData` is present, but both layouts resume at the same
/// offset (`0x20`) for `SectionAlignment` onward.
pub fn get_optional_header(bytes: &[u8], offset: usize) -> (res: Result<OptionalHeader, ParseError>)
    requires
        bytes@.len() <= isize::MAX,
    ensures
        result_view(res) == spec_optional_header(bytes@, offset as int),
{
    optional_header_at(bytes, offset as u64)
}


// ---------------------------------------------------------------------------
// Whole PE images
// ---------------------------------------------------------------------------

/// The mathematical content of a [`PEInformation`].
#[verifier::ext_equal]
pub struct PEInformationView {
    pub machine: PeMachineType,
    pub format: BinaryFormat,
    pub optional_header: OptionalHeaderView,
    pub sections: Seq<SectionHeaderView>,
}

impl View for PEInformation {
    type V = PEInformationView;

    open spec fn view(&self) -> PEInformationView {
        PEInformationView {
            machine: self.Machine,
            format: self.Format,
            optional_header: self.OptionalHeader@,
            sections: self.Sections@.map_values(|s: SectionHeader| s@),
        }
    }
}

/// Whether the four bytes at `off` are the signature `"PE\0\0"`.
pub open spec fn is_pe_signature(b: Seq<u8>, off: int) -> bool {
    &&& b[off] == 0x50
    &&& b[off + 1] == 0x45
    &&& b[off + 2] == 0
    &&& b[off + 3] == 0
}

/// Index of the first Section Table entry, in a table at `table`, whose
/// 40 bytes do not fit in `len` bytes.
pub open spec fn first_unfit_section(len: int, table: int) -> int {
    if len < table + section_header_size() {
        0
    } else {
        (len - table) / section_header_size()
    }
}

/// Parsing a whole PE image: the DOS magic, the signature at `e_lfanew`
/// (the `u32` at `0x3C`), the COFF File Header after it, the Optional
/// Header after that, and `NumberOfSections` Section Table entries at
/// `SizeOfOptionalHeader` bytes past the start of the Optional Header.
/// The error is that of the first step that fails.
pub open spec fn spec_pe_information(b: Seq<u8>) -> Result<PEInformationView, ParseError> {
    let len = b.len() as int;
    match spec_check_for_pe(b) {
        Err(e) => Err(e),
        Ok(found) => if found != 1 {
            Err(ParseError::NotPe)
        } else if 0x3C + 4 > len {
            Err(truncated(0x3C, 4, len))
        } else {
            let sig = le_u32(b, 0x3C);
            if sig + 4 > len {
                Err(truncated(sig, 4, len))
            } else if !is_pe_signature(b, sig) {
                Err(ParseError::BadSignature { offset: sig as u64 })
            } else {
                let coff = sig + 4;
                if coff + 2 > len {
                    Err(truncated(coff, 2, len))
                } else {
                    match machine_type_from(le_u16(b, coff) as u16) {
                        Err(e) => Err(e),
                        Ok(machine) => if coff + 4 > len {
                            Err(truncated(coff + 2, 2, len))
                        } else if coff + 0x12 > len {
                            Err(truncated(coff + 0x10, 2, len))
                        } else {
                            let opt = coff + 0x14;
                            match spec_optional_header(b, opt) {
                                Err(e) => Err(e),
                                Ok(optional_header) => {
                                    let count = le_u16(b, coff + 2);
                                    let table = opt + le_u16(b, coff + 0x10);
                                    if count > 0 && table + section_header_size() * count > len {
                                        Err(
                                            section_shortfall(
                                                len,
                                                table + section_header_size()
                                                    * first_unfit_section(len, table),
                                            ),
                                        )
                                    } else {
                                        Ok(
                                            PEInformationView {
                                                machine,
                                                format: BinaryFormat::Pe,
                                                optional_header,
                                                sections: Seq::new(
                                                    count as nat,
                                                    |i: int|
                                                        section_view_at(
                                                            b,
                                                            table + section_header_size() * i,
                                                        ),
                                                ),
                                            },
                                        )
                                    }
                                },
                            }
                        },
                    }
                }
            }
        },
    }
}

/// Reads `count` Section Table entries starting at `table`.
fn sections_at(bytes: &[u8], table: u64, count: u16) -> (res: Result<Vec<SectionHeader>, ParseError>)
    requires
        bytes@.len() <= isize::MAX,
        table <= bytes@.len() + 0x1_0000,
    ensures
        count > 0 && table + section_header_size() * count > bytes@.len() ==> res
            == Err::<Vec<SectionHeader>, ParseError>(
            section_shortfall(
                bytes@.len() as int,
                table + section_header_size() * first_unfit_section(bytes@.len() as int, table as int),
            ),
        ),
        !(count > 0 && table + section_header_size() * count > bytes@.len()) ==> (res matches Ok(v)
            && v@.map_values(|s: SectionHeader| s@) == Seq::new(
            count as nat,
            |i: int| section_view_at(bytes@, table + section_header_size() * i),
        )),
{
    let ghost len = bytes@.len() as int;
    let mut sections: Vec<SectionHeader> = Vec::new();
    let mut i: u16 = 0;
    while i < count
        invariant
            bytes@.len() <= isize::MAX,
            len == bytes@.len(),
            table <= len + 0x1_0000,
            i <= count,
            i == 0 || table + section_header_size() * i <= len,
            sections@.len() == i,
            forall|j: int|
                0 <= j < i ==> #[trigger] sections@[j]@ == section_view_at(
                    bytes@,
                    table + section_header_size() * j,
                ),
        decreases count - i,
    {
        let header = match section_header_at(bytes, table + i as u64 * 0x28) {
            Ok(h) => h,
            Err(e) => {
                assert(first_unfit_section(len, table as int) == i);
                return Err(e);
            },
        };
        sections.push(header);
        i = i + 1;
    }
    assert(sections@.map_values(|s: SectionHeader| s@) =~= Seq::new(
        count as nat,
        |j: int| section_view_at(bytes@, table + section_header_size() * j),
    ));
    Ok(sections)
}

/// The view of a PE parse result; a success always holds `Some`.
pub open spec fn pe_result_view(r: Result<Option<PEInformation>, ParseError>) -> Result<PEInformationView, ParseError> {
    match r {
        Ok(Some(info)) => Ok(info@),
        Ok(None) => Err(ParseError::UnsupportedFormat),
        Err(e) => Err(e),
    }
}

/// Parses the headers of a PE image.
pub fn get_pe_information(bytes: &[u8]) -> (res: Result<Option<PEInformation>, ParseError>)
    requires
        bytes@.len() <= isize::MAX,
    ensures
        !(res matches Ok(None)),
        pe_result_view(res) == spec_pe_information(bytes@),
{
    match check_for_pe(bytes) {
        Ok(1) => {},
        Ok(_) => return Err(ParseError::NotPe),
        Err(e) => return Err(e),
    }
    // `e_lfanew`, in the DOS header: file offset of the `"PE\0\0"` signature.
    let signature_offset = match read_u32_at(bytes, 0x3C) {
        Ok(v) => v as u64,
        Err(e) => return Err(e),
    };
    let signature = match window_at(bytes, signature_offset, 4) {
        Ok(w) => w,
        Err(e) => return Err(e),
    };
    if !(signature[0] == 0x50 && signature[1] == 0x45 && signature[2] == 0 && signature[3] == 0) {
        return Err(ParseError::BadSignature { offset: signature_offset });
    }
    // The COFF File Header immediately follows the 4-byte signature.
    let coff_header_offset = signature_offset + 4;
    let machine_code = match read_u16_at(
        bytes,
        coff_header_offset + CoffFileHeaderOffset::Machine.offset() as u64,
    ) {
        Ok(v) => v,
        Err(e) => return Err(e),
    };
    let machine = match PeMachineType::try_from(machine_code) {
        Ok(m) => m,
        Err(e) => return Err(e),
    };
    let number_of_sections = match read_u16_at(
        bytes,
        coff_header_offset + CoffFileHeaderOffset::NumberOfSections.offset() as u64,
    ) {
        Ok(v) => v,
        Err(e) => return Err(e),
    };
    let size_of_optional_header = match read_u16_at(
        bytes,
        coff_header_offset + CoffFileHeaderOffset::SizeOfOptionalHeader.offset() as u64,
    ) {
        Ok(v) => v,
        Err(e) => return Err(e),
    };
    let optional_header_offset = coff_header_offset + 0x14;
    let optional_header = match optional_header_at(bytes, optional_header_offset) {
        Ok(h) => h,
        Err(e) => return Err(e),
    };
    let section_table_offset = optional_header_offset + size_of_optional_header as u64;
    let sections = match sections_at(bytes, section_table_offset, number_of_sections) {
        Ok(s) => s,
        Err(e) => return Err(e),
    };
    let info = PEInformation {
        Machine: machine,
        Format: BinaryFormat::Pe,
        OptionalHeader: optional_header,
        Sections: sections,
    };
    assert(info@ =~= spec_pe_information(bytes@).unwrap());
    Ok(Some(info))
}

/// The error that format detection reports for `b`: that of the PE parse
/// when it fails, and otherwise that no other format is supported.
pub open spec fn spec_file_type_error(b: Seq<u8>) -> ParseError {
    match spec_pe_information(b) {
        Err(e) => e,
        Ok(_) => ParseError::UnsupportedFormat,
    }
}

/// Detects the binary format of `bytes` and parses out its header
/// information. A PE image that parses is still reported as unsupported:
/// the result is an error for every input.
pub fn get_file_type(bytes: &Vec<u8>) -> (res: Result<BinaryInfo, ParseError>)
    requires
        bytes@.len() <= isize::MAX,
    ensures
        res matches Err(e) && e == spec_file_type_error(bytes@),
{
    match get_pe_information(bytes.as_slice()) {
        Err(e) => Err(e),
        Ok(_) => Err(ParseError::UnsupportedFormat),
    }
}

} // verus!
