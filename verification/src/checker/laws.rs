//! Properties that hold of every input to the PE parser.
use vstd::prelude::*;

use crate::checker::error::ParseError;
use crate::checker::filetype::{
    data_directory_offset, le_u16, le_u32, machine_code, machine_type_from, magic_code,
    magic_of_code, section_view_at, spec_file_type_error, spec_optional_header,
    spec_pe_information, spec_section_header, spec_window, OptionalHeaderMagic, PeMachineType,
    spec_check_for_pe, spec_read_u16, spec_read_u32, spec_read_u64, BinaryFormat, OptionalHeaderView, PEInformationView, SectionHeaderView,
};

verus! {

/// Whether `e`, reported for a buffer of `len` bytes, is not a truncation
/// error or names a read that really runs past the end of those `len` bytes.
pub open spec fn names_short_read(e: ParseError, len: int) -> bool {
    e matches ParseError::Truncated { offset, requested, available } ==> {
        &&& available == len
        &&& offset + requested > len
    }
}

/// Every machine type converts back from its own `Machine` code, and a code
/// converts only to the machine type that has that code.
pub proof fn lemma_machine_type_round_trip(m: PeMachineType, value: u16)
    ensures
        machine_type_from(machine_code(m)) == Ok::<PeMachineType, ParseError>(m),
        machine_type_from(value) == Ok::<PeMachineType, ParseError>(m) ==> machine_code(m) == value,
{
}

/// Every Optional Header layout is named by its own `Magic` code, and a code
/// names only the layout that has that code.
pub proof fn lemma_optional_header_magic_round_trip(m: OptionalHeaderMagic, value: u16)
    ensures
        magic_of_code(magic_code(m)) == Some(m),
        magic_of_code(value) == Some(m) ==> magic_code(m) == value,
{
}

/// A failed window read names exactly the requested read, which runs past
/// the end; a successful one lies within the buffer.
pub proof fn lemma_window_in_bounds(b: Seq<u8>, offset: int, n: int)
    requires
        0 <= offset < 0x1_0000_0000_0000_0000,
        0 <= n < 0x1_0000_0000_0000_0000,
        b.len() < 0x1_0000_0000_0000_0000,
    ensures
        spec_window(b, offset, n) is Ok <==> offset + n <= b.len(),
        spec_window(b, offset, n) matches Err(e) ==> names_short_read(e, b.len() as int),
{
}

/// A Section Table entry that fails to parse names a field read that runs
/// past the end of the buffer.
pub proof fn lemma_section_header_errors_are_short_reads(b: Seq<u8>, off: int)
    requires
        0 <= off,
        off + 0x28 < 0x1_0000_0000_0000_0000,
        b.len() < 0x1_0000_0000_0000_0000,
    ensures
        spec_section_header(b, off) matches Err(e) ==> names_short_read(e, b.len() as int),
{
}

/// An Optional Header that parses has all of its Data Directory entries
/// within the buffer, however many `NumberOfRvaAndSizes` claims; one that
/// fails to parse for lack of bytes names a read that runs past the end.
pub proof fn lemma_optional_header_in_bounds(b: Seq<u8>, off: int)
    requires
        0 <= off <= b.len(),
        b.len() <= isize::MAX,
    ensures
        spec_optional_header(b, off) matches Ok(h) ==> off + data_directory_offset(h.magic) + 8
            * h.data_directories.len() <= b.len(),
        spec_optional_header(b, off) matches Err(e) ==> names_short_read(e, b.len() as int),
{
}

/// The file offset of the Section Table of a PE image: `e_lfanew`, plus the
/// signature and COFF File Header, plus `SizeOfOptionalHeader`.
pub open spec fn section_table_offset(b: Seq<u8>) -> int {
    le_u32(b, 0x3C) + 0x18 + le_u16(b, le_u32(b, 0x3C) + 0x14)
}

/// A PE image parses only when its whole Section Table lies within the
/// buffer, whatever `NumberOfSections` claims, and then it holds exactly
/// `NumberOfSections` entries read from there; a PE image that fails to
/// parse for lack of bytes names a read that runs past the end.
pub proof fn lemma_pe_information_in_bounds(b: Seq<u8>)
    requires
        b.len() <= isize::MAX,
    ensures
        spec_pe_information(b) matches Ok(info) ==> {
            let count = info.sections.len() as int;
            let table = section_table_offset(b);
            &&& count == le_u16(b, le_u32(b, 0x3C) + 6)
            &&& count == 0 || table + 0x28 * count <= b.len()
            &&& forall|i: int|
                0 <= i < count ==> #[trigger] info.sections[i] == section_view_at(b, table + 0x28 * i)
        },
        spec_pe_information(b) matches Err(e) ==> names_short_read(e, b.len() as int),
{
    if 0x40 <= b.len() && le_u32(b, 0x3C) + 0x18 <= b.len() {
        lemma_optional_header_in_bounds(b, le_u32(b, 0x3C) + 0x18);
    }
}

/// Format detection fails for every input: with the error of the PE parse
/// when that fails, and with [`ParseError::UnsupportedFormat`] when a PE
/// image parses.
pub proof fn lemma_file_type_error(b: Seq<u8>)
    ensures
        spec_pe_information(b) is Ok ==> spec_file_type_error(b) == ParseError::UnsupportedFormat,
        spec_pe_information(b) matches Err(e) ==> spec_file_type_error(b) == e,
{
}

/// The fields of a Section Table entry do not change when bytes are
/// appended past its end.
proof fn lemma_section_view_prefix(b: Seq<u8>, extra: Seq<u8>, off: int)
    requires
        0 <= off,
        off + 0x28 <= b.len(),
    ensures
        section_view_at(b + extra, off) == section_view_at(b, off),
{
    assert((b + extra).subrange(off, off + 8) =~= b.subrange(off, off + 8));
}

/// Appending bytes to an Optional Header that parses does not change it.
proof fn lemma_optional_header_prefix(b: Seq<u8>, extra: Seq<u8>, off: int)
    requires
        0 <= off,
    ensures
        spec_optional_header(b, off) is Ok ==> spec_optional_header(b + extra, off)
            == spec_optional_header(b, off),
{
    if spec_optional_header(b, off) is Ok {
        let h = spec_optional_header(b, off).unwrap();
        let h2 = spec_optional_header(b + extra, off).unwrap();
        assert(h2.data_directories =~= h.data_directories);
    }
}

/// Appending bytes to a PE image that parses does not change what it
/// parses to: the parse reads nothing past the end of the image's headers.
pub proof fn lemma_pe_information_prefix_stable(b: Seq<u8>, extra: Seq<u8>)
    ensures
        spec_pe_information(b) is Ok ==> spec_pe_information(b + extra) == spec_pe_information(b),
{
    if spec_pe_information(b) is Ok {
        let sig = le_u32(b, 0x3C);
        lemma_optional_header_prefix(b, extra, sig + 0x18);
        let info = spec_pe_information(b).unwrap();
        let info2 = spec_pe_information(b + extra).unwrap();
        let table = section_table_offset(b);
        assert forall|i: int| 0 <= i < info.sections.len() implies info2.sections[i]
            == info.sections[i] by {
            lemma_section_view_prefix(b, extra, table + 0x28 * i);
        }
        assert(info2.sections =~= info.sections);
    }
}


// ---------------------------------------------------------------------------
// The parser against the PE format, stated directly over the bytes
// ---------------------------------------------------------------------------

/// The 16-bit little-endian number in the bytes `b[off]`, `b[off + 1]`.
pub open spec fn u16_le(b: Seq<u8>, off: int) -> int {
    b[off] + b[off + 1] * 0x100
}

/// The 32-bit little-endian number in the bytes `b[off..off + 4]`.
pub open spec fn u32_le(b: Seq<u8>, off: int) -> int {
    b[off] + b[off + 1] * 0x100 + b[off + 2] * 0x1_0000 + b[off + 3] * 0x100_0000
}

/// The 64-bit little-endian number in the bytes `b[off..off + 8]`.
pub open spec fn u64_le(b: Seq<u8>, off: int) -> int {
    b[off] + b[off + 1] * 0x100 + b[off + 2] * 0x1_0000 + b[off + 3] * 0x100_0000
        + b[off + 4] * 0x1_0000_0000 + b[off + 5] * 0x100_0000_0000
        + b[off + 6] * 0x1_0000_0000_0000 + b[off + 7] * 0x100_0000_0000_0000
}

/// The machine type codes that the PE format reference lists.
pub open spec fn is_listed_machine_code(v: u16) -> bool {
    v == 0x0
        || v == 0x184
        || v == 0x284
        || v == 0x1D3
        || v == 0x8664
        || v == 0x1C0
        || v == 0xAA64
        || v == 0xA641
        || v == 0xA64E
        || v == 0x1C4
        || v == 0xEBC
        || v == 0x14C
        || v == 0x200
        || v == 0x6232
        || v == 0x6264
        || v == 0x9041
        || v == 0x266
        || v == 0x366
        || v == 0x466
        || v == 0x1F0
        || v == 0x1F1
        || v == 0x166
        || v == 0x5032
        || v == 0x5064
        || v == 0x5128
        || v == 0x1A2
        || v == 0x1A3
        || v == 0x1A6
        || v == 0x1A8
        || v == 0x1C2
        || v == 0x169
}

/// Each machine type has the `Machine` code that the PE format reference
/// gives it, each listed code names that machine type, and every other code
/// is rejected as unknown.
pub proof fn lemma_machine_codes_follow_the_pe_format(v: u16)
    ensures
        machine_code(PeMachineType::Unknown) == 0x0,
        machine_type_from(0x0) == Ok::<PeMachineType, ParseError>(PeMachineType::Unknown),
        machine_code(PeMachineType::Alpha) == 0x184,
        machine_type_from(0x184) == Ok::<PeMachineType, ParseError>(PeMachineType::Alpha),
        machine_code(PeMachineType::Alpha64) == 0x284,
        machine_type_from(0x284) == Ok::<PeMachineType, ParseError>(PeMachineType::Alpha64),
        machine_code(PeMachineType::Am33) == 0x1D3,
        machine_type_from(0x1D3) == Ok::<PeMachineType, ParseError>(PeMachineType::Am33),
        machine_code(PeMachineType::Amd64) == 0x8664,
        machine_type_from(0x8664) == Ok::<PeMachineType, ParseError>(PeMachineType::Amd64),
        machine_code(PeMachineType::Arm) == 0x1C0,
        machine_type_from(0x1C0) == Ok::<PeMachineType, ParseError>(PeMachineType::Arm),
        machine_code(PeMachineType::Arm64) == 0xAA64,
        machine_type_from(0xAA64) == Ok::<PeMachineType, ParseError>(PeMachineType::Arm64),
        machine_code(PeMachineType::Arm64Ec) == 0xA641,
        machine_type_from(0xA641) == Ok::<PeMachineType, ParseError>(PeMachineType::Arm64Ec),
        machine_code(PeMachineType::Arm64X) == 0xA64E,
        machine_type_from(0xA64E) == Ok::<PeMachineType, ParseError>(PeMachineType::Arm64X),
        machine_code(PeMachineType::ArmNt) == 0x1C4,
        machine_type_from(0x1C4) == Ok::<PeMachineType, ParseError>(PeMachineType::ArmNt),
        machine_code(PeMachineType::Ebc) == 0xEBC,
        machine_type_from(0xEBC) == Ok::<PeMachineType, ParseError>(PeMachineType::Ebc),
        machine_code(PeMachineType::I386) == 0x14C,
        machine_type_from(0x14C) == Ok::<PeMachineType, ParseError>(PeMachineType::I386),
        machine_code(PeMachineType::Ia64) == 0x200,
        machine_type_from(0x200) == Ok::<PeMachineType, ParseError>(PeMachineType::Ia64),
        machine_code(PeMachineType::LoongArch32) == 0x6232,
        machine_type_from(0x6232) == Ok::<PeMachineType, ParseError>(PeMachineType::LoongArch32),
        machine_code(PeMachineType::LoongArch64) == 0x6264,
        machine_type_from(0x6264) == Ok::<PeMachineType, ParseError>(PeMachineType::LoongArch64),
        machine_code(PeMachineType::M32R) == 0x9041,
        machine_type_from(0x9041) == Ok::<PeMachineType, ParseError>(PeMachineType::M32R),
        machine_code(PeMachineType::Mips16) == 0x266,
        machine_type_from(0x266) == Ok::<PeMachineType, ParseError>(PeMachineType::Mips16),
        machine_code(PeMachineType::MipsFpu) == 0x366,
        machine_type_from(0x366) == Ok::<PeMachineType, ParseError>(PeMachineType::MipsFpu),
        machine_code(PeMachineType::MipsFpu16) == 0x466,
        machine_type_from(0x466) == Ok::<PeMachineType, ParseError>(PeMachineType::MipsFpu16),
        machine_code(PeMachineType::PowerPc) == 0x1F0,
        machine_type_from(0x1F0) == Ok::<PeMachineType, ParseError>(PeMachineType::PowerPc),
        machine_code(PeMachineType::PowerPcFp) == 0x1F1,
        machine_type_from(0x1F1) == Ok::<PeMachineType, ParseError>(PeMachineType::PowerPcFp),
        machine_code(PeMachineType::R4000) == 0x166,
        machine_type_from(0x166) == Ok::<PeMachineType, ParseError>(PeMachineType::R4000),
        machine_code(PeMachineType::RiscV32) == 0x5032,
        machine_type_from(0x5032) == Ok::<PeMachineType, ParseError>(PeMachineType::RiscV32),
        machine_code(PeMachineType::RiscV64) == 0x5064,
        machine_type_from(0x5064) == Ok::<PeMachineType, ParseError>(PeMachineType::RiscV64),
        machine_code(PeMachineType::RiscV128) == 0x5128,
        machine_type_from(0x5128) == Ok::<PeMachineType, ParseError>(PeMachineType::RiscV128),
        machine_code(PeMachineType::Sh3) == 0x1A2,
        machine_type_from(0x1A2) == Ok::<PeMachineType, ParseError>(PeMachineType::Sh3),
        machine_code(PeMachineType::Sh3Dsp) == 0x1A3,
        machine_type_from(0x1A3) == Ok::<PeMachineType, ParseError>(PeMachineType::Sh3Dsp),
        machine_code(PeMachineType::Sh4) == 0x1A6,
        machine_type_from(0x1A6) == Ok::<PeMachineType, ParseError>(PeMachineType::Sh4),
        machine_code(PeMachineType::Sh5) == 0x1A8,
        machine_type_from(0x1A8) == Ok::<PeMachineType, ParseError>(PeMachineType::Sh5),
        machine_code(PeMachineType::Thumb) == 0x1C2,
        machine_type_from(0x1C2) == Ok::<PeMachineType, ParseError>(PeMachineType::Thumb),
        machine_code(PeMachineType::WceMipsV2) == 0x169,
        machine_type_from(0x169) == Ok::<PeMachineType, ParseError>(PeMachineType::WceMipsV2),
        !is_listed_machine_code(v) ==> machine_type_from(v) == Err::<PeMachineType, ParseError>(
            ParseError::UnknownMachineType { value: v },
        ),
{
}

/// Each Optional Header layout has the `Magic` code that the PE format
/// reference gives it, and no other code names a layout.
pub proof fn lemma_magic_codes_follow_the_pe_format(v: u16)
    ensures
        magic_code(OptionalHeaderMagic::Pe32) == 0x10B,
        magic_code(OptionalHeaderMagic::Pe32Plus) == 0x20B,
        magic_code(OptionalHeaderMagic::Rom) == 0x107,
        magic_of_code(0x10B) == Some(OptionalHeaderMagic::Pe32),
        magic_of_code(0x20B) == Some(OptionalHeaderMagic::Pe32Plus),
        magic_of_code(0x107) == Some(OptionalHeaderMagic::Rom),
        v != 0x10B && v != 0x20B && v != 0x107 ==> magic_of_code(v) is None,
{
}

/// A buffer of at least two bytes is recognised as a PE (1) exactly when it
/// starts with `4D 5A` ("MZ"), and otherwise answered with 0; whole-image
/// parsing reports `NotPe` exactly for such buffers without that magic.
pub proof fn lemma_dos_magic(b: Seq<u8>)
    requires
        b.len() >= 2,
    ensures
        spec_check_for_pe(b) == Ok::<u8, ParseError>(1) <==> (b[0] == 0x4D && b[1] == 0x5A),
        spec_check_for_pe(b) == Ok::<u8, ParseError>(0) <==> !(b[0] == 0x4D && b[1] == 0x5A),
        spec_pe_information(b) == Err::<PEInformationView, ParseError>(ParseError::NotPe)
            <==> !(b[0] == 0x4D && b[1] == 0x5A),
{
}

/// Whether the four bytes at `off` are `"PE\0\0"` (`50 45 00 00`).
pub open spec fn holds_pe_signature(b: Seq<u8>, off: int) -> bool {
    &&& 0 <= off
    &&& off + 4 <= b.len()
    &&& b[off] == 0x50
    &&& b[off + 1] == 0x45
    &&& b[off + 2] == 0x00
    &&& b[off + 3] == 0x00
}

/// The signature is looked up at `e_lfanew`, the `u32` at `0x3C`: an image
/// with "MZ" and the signature there never fails for a bad signature, a
/// bad-signature error names `e_lfanew` and four bytes there that are not
/// the signature, and an image that parses holds the signature there.
pub proof fn lemma_signature_at_e_lfanew(b: Seq<u8>)
    requires
        b.len() <= isize::MAX,
    ensures
        b.len() >= 0x40 && b[0] == 0x4D && b[1] == 0x5A && holds_pe_signature(b, u32_le(b, 0x3C))
            ==> !(spec_pe_information(b) matches Err(ParseError::BadSignature { .. })),
        spec_pe_information(b) matches Err(ParseError::BadSignature { offset }) ==> {
            &&& b.len() >= 0x40
            &&& offset == u32_le(b, 0x3C)
            &&& offset + 4 <= b.len()
            &&& !holds_pe_signature(b, offset as int)
        },
        spec_pe_information(b) is Ok ==> b.len() >= 0x40 && holds_pe_signature(b, u32_le(b, 0x3C)),
{
}

/// Every field of an Optional Header that parses is the whole little-endian
/// number stored at its offset in the layout its `Magic` selects (PE32 and
/// ROM: 4-byte `ImageBase` at 0x1C and the Data Directory array at 0x60;
/// PE32+: 8-byte `ImageBase` at 0x18 and the array at 0x70), and the
/// array holds `NumberOfRvaAndSizes` entries, all within the buffer.
pub proof fn lemma_optional_header_fields(b: Seq<u8>, off: int)
    requires
        0 <= off,
    ensures
        spec_optional_header(b, off) matches Ok(h) ==> {
            let wide = u16_le(b, off) == 0x20B;
            let dirs = if wide { off + 0x70 } else { off + 0x60 };
            &&& h.magic == OptionalHeaderMagic::Pe32 <==> u16_le(b, off) == 0x10B
            &&& h.magic == OptionalHeaderMagic::Pe32Plus <==> u16_le(b, off) == 0x20B
            &&& h.magic == OptionalHeaderMagic::Rom <==> u16_le(b, off) == 0x107
            &&& h.address_of_entry_point == u32_le(b, off + 0x10)
            &&& h.image_base == if wide { u64_le(b, off + 0x18) } else { u32_le(b, off + 0x1C) }
            &&& h.section_alignment == u32_le(b, off + 0x20)
            &&& h.file_alignment == u32_le(b, off + 0x24)
            &&& h.size_of_image == u32_le(b, off + 0x38)
            &&& h.size_of_headers == u32_le(b, off + 0x3C)
            &&& h.subsystem == u16_le(b, off + 0x44)
            &&& h.dll_characteristics == u16_le(b, off + 0x46)
            &&& h.data_directories.len() == u32_le(b, dirs - 4)
            &&& dirs + 8 * h.data_directories.len() <= b.len()
            &&& forall|i: int|
                0 <= i < h.data_directories.len() ==> {
                    &&& #[trigger] h.data_directories[i].virtual_address == u32_le(b, dirs + 8 * i)
                    &&& h.data_directories[i].size == u32_le(b, dirs + 8 * i + 4)
                }
        },
{
}

/// A Section Table entry parses exactly when its 40 bytes fit, and then
/// its name is the 8 bytes at its start and every other field is the whole
/// little-endian `u32` at its offset.
pub proof fn lemma_section_header_fields(b: Seq<u8>, off: int)
    requires
        0 <= off,
    ensures
        spec_section_header(b, off) is Ok <==> off + 0x28 <= b.len(),
        spec_section_header(b, off) matches Ok(s) ==> {
            &&& s.name.len() == 8
            &&& forall|i: int| 0 <= i < 8 ==> #[trigger] s.name[i] == b[off + i]
            &&& s.virtual_size == u32_le(b, off + 0x8)
            &&& s.virtual_address == u32_le(b, off + 0xC)
            &&& s.size_of_raw_data == u32_le(b, off + 0x10)
            &&& s.pointer_to_raw_data == u32_le(b, off + 0x14)
            &&& s.characteristics == u32_le(b, off + 0x24)
        },
{
}

/// The little-endian bytes of `v`.
pub open spec fn u32_bytes(v: u32) -> Seq<u8> {
    seq![(v % 0x100) as u8, (v / 0x100 % 0x100) as u8, (v / 0x1_0000 % 0x100) as u8, (v / 0x100_0000) as u8]
}

/// Writing any `u32` little-endian at the `VirtualAddress` of a Section
/// Table entry and parsing the entry gives that `u32` back.
pub proof fn lemma_section_virtual_address_round_trip(b: Seq<u8>, off: int, v: u32)
    requires
        0 <= off,
        off + 0x28 <= b.len(),
    ensures
        ({
            let written = b.subrange(0, off + 0xC) + u32_bytes(v) + b.subrange(off + 0x10, b.len() as int);
            spec_section_header(written, off) matches Ok(s) && s.virtual_address == v
        }),
{
    let written = b.subrange(0, off + 0xC) + u32_bytes(v) + b.subrange(off + 0x10, b.len() as int);
    assert(written.len() == b.len());
    assert(written[off + 0xC] == (v % 0x100) as u8);
    assert(written[off + 0xD] == (v / 0x100 % 0x100) as u8);
    assert(written[off + 0xE] == (v / 0x1_0000 % 0x100) as u8);
    assert(written[off + 0xF] == (v / 0x100_0000) as u8);
    assert((v % 0x100) as u8 + (v / 0x100 % 0x100) as u8 * 0x100 + (v / 0x1_0000 % 0x100) as u8 * 0x1_0000
        + (v / 0x100_0000) as u8 * 0x100_0000 == v) by (nonlinear_arith);
    lemma_section_header_fields(written, off);
}

/// The COFF File Header of an image that parses is read right after the
/// signature at `e_lfanew`: its `Machine` code names the machine type, its
/// `NumberOfSections` is the number of sections parsed, and each section
/// is the Section Table entry at `SizeOfOptionalHeader` bytes past the
/// Optional Header, which itself starts 24 bytes past `e_lfanew`.
pub proof fn lemma_coff_header_fields(b: Seq<u8>)
    requires
        b.len() <= isize::MAX,
    ensures
        spec_pe_information(b) matches Ok(info) ==> {
            let e = u32_le(b, 0x3C);
            let table = e + 0x18 + u16_le(b, e + 0x14);
            &&& machine_type_from(u16_le(b, e + 4) as u16) == Ok::<PeMachineType, ParseError>(info.machine)
            &&& info.format == BinaryFormat::Pe
            &&& spec_optional_header(b, e + 0x18) == Ok::<OptionalHeaderView, ParseError>(info.optional_header)
            &&& info.sections.len() == u16_le(b, e + 6)
            &&& forall|i: int|
                0 <= i < info.sections.len() ==> spec_section_header(b, table + 0x28 * i)
                    == Ok::<SectionHeaderView, ParseError>(#[trigger] info.sections[i])
        },
{
}


/// Whether the read of `n` bytes at `offset` is, among the `reads` a parser
/// makes in order, the first one that runs past `len` bytes: it is one of
/// them, every read before it fits, and it does not.
pub open spec fn is_first_short_read(reads: Seq<(int, int)>, len: int, offset: int, n: int) -> bool {
    &&& offset + n > len
    &&& exists|k: int|
        0 <= k < reads.len() && #[trigger] reads[k] == (offset, n) && forall|j: int|
            0 <= j < k ==> reads[j].0 + reads[j].1 <= len
}

/// The field reads of a Section Table entry at `off`, in order: Name,
/// VirtualSize, VirtualAddress, SizeOfRawData, PointerToRawData,
/// Characteristics.
pub open spec fn section_reads(off: int) -> Seq<(int, int)> {
    seq![(off, 8), (off + 0x8, 4), (off + 0xC, 4), (off + 0x10, 4), (off + 0x14, 4), (off + 0x24, 4)]
}

/// A Section Table entry that fails to parse names the first of its field
/// reads that runs past the end.
pub proof fn lemma_section_header_names_first_short_read(b: Seq<u8>, off: int)
    requires
        0 <= off,
        off + 0x28 < 0x1_0000_0000_0000_0000,
        b.len() < 0x1_0000_0000_0000_0000,
    ensures
        spec_section_header(b, off) matches Err(e) ==> (e matches ParseError::Truncated {
            offset,
            requested,
            available,
        } && available == b.len() && is_first_short_read(
            section_reads(off),
            b.len() as int,
            offset as int,
            requested as int,
        )),
{
    let r = section_reads(off);
    let len = b.len() as int;
    if spec_section_header(b, off) is Err {
        if off + 0x8 > len {
            assert(r[0] == (off, 8int));
        } else if off + 0xC > len {
            assert(r[1] == (off + 0x8, 4int));
        } else if off + 0x10 > len {
            assert(r[2] == (off + 0xC, 4int));
        } else if off + 0x14 > len {
            assert(r[3] == (off + 0x10, 4int));
        } else if off + 0x18 > len {
            assert(r[4] == (off + 0x14, 4int));
        } else {
            assert(r[5] == (off + 0x24, 4int));
        }
    }
}

/// The reads an Optional Header at `off` makes, in order: Magic,
/// AddressOfEntryPoint, ImageBase (8 bytes at 0x18 for PE32+, else 4 at
/// 0x1C), SectionAlignment, FileAlignment, SizeOfImage, SizeOfHeaders,
/// Subsystem, DllCharacteristics, NumberOfRvaAndSizes, then the two `u32`
/// halves of each Data Directory entry.
pub open spec fn optional_header_reads(b: Seq<u8>, off: int) -> Seq<(int, int)> {
    let wide = u16_le(b, off) == 0x20B;
    let dirs = if wide { off + 0x70 } else { off + 0x60 };
    let count = u32_le(b, dirs - 4);
    seq![
        (off, 2),
        (off + 0x10, 4),
        if wide { (off + 0x18, 8) } else { (off + 0x1C, 4) },
        (off + 0x20, 4),
        (off + 0x24, 4),
        (off + 0x38, 4),
        (off + 0x3C, 4),
        (off + 0x44, 2),
        (off + 0x46, 2),
        (dirs - 4, 4),
    ] + Seq::new((2 * count) as nat, |j: int| (dirs + 4 * j, 4))
}

/// An Optional Header that fails for lack of bytes names the first of its
/// reads that runs past the end, whatever `NumberOfRvaAndSizes` claims; an
/// unknown `Magic` is reported with its value.
pub proof fn lemma_optional_header_names_first_short_read(b: Seq<u8>, off: int)
    requires
        0 <= off,
        off + 0x100 < 0x1_0000_0000_0000_0000,
        b.len() <= isize::MAX,
    ensures
        spec_optional_header(b, off) matches Err(ParseError::UnknownOptionalHeaderMagic { value }) ==> {
            &&& off + 2 <= b.len()
            &&& value == u16_le(b, off)
            &&& value != 0x10B && value != 0x20B && value != 0x107
        },
        spec_optional_header(b, off) matches Err(e) ==> (e is UnknownOptionalHeaderMagic || (e matches ParseError::Truncated {
            offset,
            requested,
            available,
        } && available == b.len() && is_first_short_read(
            optional_header_reads(b, off),
            b.len() as int,
            offset as int,
            requested as int,
        ))),
{
    let r = optional_header_reads(b, off);
    let len = b.len() as int;
    let wide = u16_le(b, off) == 0x20B;
    let dirs = if wide { off + 0x70 } else { off + 0x60 };
    if spec_optional_header(b, off) matches Err(ParseError::Truncated { .. }) {
        if off + 2 > len {
            assert(r[0] == (off, 2int));
        } else if off + 0x14 > len {
            assert(r[1] == (off + 0x10, 4int));
        } else if off + 0x20 > len {
            assert(r[2] == (if wide { (off + 0x18, 8int) } else { (off + 0x1C, 4int) }));
        } else if off + 0x24 > len {
            assert(r[3] == (off + 0x20, 4int));
        } else if off + 0x28 > len {
            assert(r[4] == (off + 0x24, 4int));
        } else if off + 0x3C > len {
            assert(r[5] == (off + 0x38, 4int));
        } else if off + 0x40 > len {
            assert(r[6] == (off + 0x3C, 4int));
        } else if off + 0x46 > len {
            assert(r[7] == (off + 0x44, 2int));
        } else if off + 0x48 > len {
            assert(r[8] == (off + 0x46, 2int));
        } else if dirs > len {
            assert(r[9] == (dirs - 4, 4int));
        } else {
            let j = (len - dirs) / 4;
            assert(4 * j <= len - dirs < 4 * j + 4);
            assert(r[10 + j] == (dirs + 4 * j, 4int));
            assert forall|i: int| 0 <= i < 10 + j implies r[i].0 + r[i].1 <= len by {
                if i >= 10 {
                    assert(r[i] == (dirs + 4 * (i - 10), 4int));
                }
            }
        }
    }
}

/// A PE image whose `NumberOfSections` claims entries past the end of the
/// buffer fails, naming the first field read of the first entry that does
/// not fit.
pub proof fn lemma_missing_sections_name_the_first_missing_entry(b: Seq<u8>)
    requires
        b.len() <= isize::MAX,
    ensures
        spec_pe_information(b) matches Err(ParseError::Truncated { offset, requested, available }) ==> {
            ||| offset + requested <= 0x40
            ||| offset + requested <= u32_le(b, 0x3C) + 0x18
            ||| optional_header_reads(b, u32_le(b, 0x3C) + 0x18).contains((offset as int, requested as int))
            ||| exists|i: int|
                0 <= i < u16_le(b, u32_le(b, 0x3C) + 6) && #[trigger] is_first_short_read(
                    section_reads(u32_le(b, 0x3C) + 0x18 + u16_le(b, u32_le(b, 0x3C) + 0x14) + 0x28 * i),
                    b.len() as int,
                    offset as int,
                    requested as int,
                ) && (i == 0 || u32_le(b, 0x3C) + 0x18 + u16_le(b, u32_le(b, 0x3C) + 0x14) + 0x28 * i
                    <= b.len())
        },
{
    let len = b.len() as int;
    if let Err(ParseError::Truncated { offset, requested, available }) = spec_pe_information(b) {
        let e = u32_le(b, 0x3C);
        if len >= 0x40 && offset >= e + 0x18 {
            let opt = e + 0x18;
            lemma_optional_header_names_first_short_read(b, opt);
            if spec_optional_header(b, opt) is Err {
                let r = optional_header_reads(b, opt);
                let k = choose|k: int| 0 <= k < r.len() && #[trigger] r[k] == (offset as int, requested as int)
                    && forall|j: int| 0 <= j < k ==> r[j].0 + r[j].1 <= len;
                assert(r.contains((offset as int, requested as int)));
            } else {
                let table = opt + u16_le(b, e + 0x14);
                let count = u16_le(b, e + 6);
                let i = if len < table + 0x28 { 0 } else { (len - table) / 0x28 };
                if i > 0 {
                    assert(0x28 * i <= len - table < 0x28 * i + 0x28);
                }
                assert(i < count);
                lemma_section_header_names_first_short_read(b, table + 0x28 * i);
                assert(is_first_short_read(section_reads(table + 0x28 * i), len, offset as int, requested as int));
            }
        }
    }
}


/// A window read gives exactly the `n` bytes starting at `offset`, and the
/// integer reads give the whole little-endian number stored there; each
/// succeeds exactly when its bytes fit.
pub proof fn lemma_reads_give_the_stored_bytes(b: Seq<u8>, offset: int, n: int)
    requires
        0 <= offset,
        0 <= n,
    ensures
        spec_window(b, offset, n) matches Ok(w) ==> {
            &&& offset + n <= b.len()
            &&& w.len() == n
            &&& forall|i: int| 0 <= i < n ==> #[trigger] w[i] == b[offset + i]
        },
        spec_read_u16(b, offset) is Ok <==> offset + 2 <= b.len(),
        spec_read_u32(b, offset) is Ok <==> offset + 4 <= b.len(),
        spec_read_u64(b, offset) is Ok <==> offset + 8 <= b.len(),
        spec_read_u16(b, offset) matches Ok(v) ==> v == u16_le(b, offset),
        spec_read_u32(b, offset) matches Ok(v) ==> v == u32_le(b, offset),
        spec_read_u64(b, offset) matches Ok(v) ==> v == u64_le(b, offset),
{
}

} // verus!
