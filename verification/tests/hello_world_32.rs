use elf_reader::elf::elf32::{
    Elf32File, Elf32Header, Elf32ProgramHeader, Elf32ProgramHeaderSummary,
    Elf32SectionHeaderSummary,
};
use elf_reader::elf::program_header::{validate_entry, ProgramHeaderEntry};
use elf_reader::elf::{
    ElfParseError, ElfType, Endian, InstructionSet, ProgramHeaderFlags, ProgramSegmentType,
};

fn put(image: &mut Vec<u8>, at: usize, bytes: &[u8]) {
    image[at..at + bytes.len()].copy_from_slice(bytes);
}

/// A little-endian 32-bit file header followed by `size - 52` zero bytes.
fn image(
    size: usize,
    elf_type: u16,
    machine: u16,
    entry: u32,
    program_headers: (u32, u16, u16),
    section_headers: (u32, u16, u16, u16),
) -> Vec<u8> {
    let mut image = vec![0u8; size];
    put(&mut image, 0, &[0x7F, 0x45, 0x4C, 0x46, 1, 1, 1, 0]);
    put(&mut image, 16, &elf_type.to_le_bytes());
    put(&mut image, 18, &machine.to_le_bytes());
    put(&mut image, 20, &1u32.to_le_bytes());
    put(&mut image, 24, &entry.to_le_bytes());
    put(&mut image, 28, &program_headers.0.to_le_bytes());
    put(&mut image, 32, &section_headers.0.to_le_bytes());
    put(&mut image, 40, &52u16.to_le_bytes());
    put(&mut image, 42, &program_headers.1.to_le_bytes());
    put(&mut image, 44, &program_headers.2.to_le_bytes());
    put(&mut image, 46, &section_headers.1.to_le_bytes());
    put(&mut image, 48, &section_headers.2.to_le_bytes());
    put(&mut image, 50, &section_headers.3.to_le_bytes());
    image
}

fn put_program_header(image: &mut Vec<u8>, at: usize, tag: u32, flags: u32, fields: [u32; 5]) {
    put(image, at, &tag.to_le_bytes());
    put(image, at + 4, &fields[0].to_le_bytes());
    put(image, at + 8, &fields[1].to_le_bytes());
    put(image, at + 12, &fields[1].to_le_bytes());
    put(image, at + 16, &fields[2].to_le_bytes());
    put(image, at + 20, &fields[3].to_le_bytes());
    put(image, at + 24, &flags.to_le_bytes());
    put(image, at + 28, &fields[4].to_le_bytes());
}

/// The header and program-header table of a small dynamically linked
/// executable.
fn hello_world_image() -> Vec<u8> {
    let mut image = image(14784, 2, 0, 0x401040, (52, 32, 10), (13624, 40, 29, 28));
    put_program_header(&mut image, 52, 6, 4, [0x34, 0x400034, 0x140, 0x140, 0x4]);
    put_program_header(&mut image, 84, 3, 4, [0x2A8, 0x4002A8, 0x1C, 0x1C, 0x1]);
    put_program_header(&mut image, 116, 1, 4, [0, 0x400000, 0x440, 0x440, 0x1000]);
    put_program_header(&mut image, 148, 1, 5, [0x1000, 0x401000, 0x1BD, 0x1BD, 0x1000]);
    put_program_header(&mut image, 180, 1, 4, [0x2000, 0x402000, 0x150, 0x150, 0x1000]);
    put_program_header(&mut image, 212, 1, 6, [0x2E00, 0x403E00, 0x230, 0x238, 0x1000]);
    put_program_header(&mut image, 244, 2, 6, [0x2E10, 0x403E10, 0x1E0, 0x1E0, 0x8]);
    put_program_header(&mut image, 276, 4, 4, [0x2C4, 0x4002C4, 0x20, 0x20, 0x4]);
    put_program_header(&mut image, 308, 1685382480, 4, [0x2010, 0x402010, 0x3C, 0x3C, 0x4]);
    put_program_header(&mut image, 340, 1685382481, 6, [0, 0, 0, 0, 0x4]);
    image
}

#[test]
fn parse_hello_world_32_bit_executable() {
    let file_bytes = hello_world_image();
    let elf_file = Elf32File::from_bytes(&file_bytes).expect("The file should be correctly parsed");
    let expected_header = Elf32Header {
        endianness: Endian::Little,
        header_version: 1,
        os_abi: 0,
        elf_type: ElfType::Executable,
        instruction_set: InstructionSet::NoSpecific,
        elf_version: 1,
        program_entry_position: 0x401040,
        program_header_summary: Some(Elf32ProgramHeaderSummary {
            table_position: 52,
            entry_size: 32,
            entry_count: 10,
        }),
        section_header_summary: Elf32SectionHeaderSummary {
            table_position: 13624,
            entry_size: 40,
            entry_count: 29,
            names_index: 28,
        },
    };

    assert_eq!(&expected_header, elf_file.header());
    assert_eq!(&file_bytes[..], elf_file.file_bytes());
    assert_eq!(10, elf_file.program_headers().unwrap().count());

    let mut headers = elf_file.program_headers().unwrap();
    let expected_program_header = Elf32ProgramHeader::new(
        ProgramSegmentType::ProgramHeader,
        ProgramHeaderFlags::new(false, false, true),
        0x34,
        0x400034,
        0x140,
        0x140,
        0x4,
    );
    assert_eq!(
        expected_program_header,
        headers.next().unwrap().expect("Failed to parse program header")
    );

    let expected_program_header = Elf32ProgramHeader::new(
        ProgramSegmentType::Interpret,
        ProgramHeaderFlags::new(false, false, true),
        0x2A8,
        0x4002A8,
        0x1C,
        0x1C,
        0x1,
    );
    assert_eq!(
        expected_program_header,
        headers.next().unwrap().expect("Failed to parse program header")
    );

    let expected_program_header = Elf32ProgramHeader::new(
        ProgramSegmentType::Load,
        ProgramHeaderFlags::new(false, false, true),
        0,
        0x400000,
        0x440,
        0x440,
        0x1000,
    );
    assert_eq!(
        expected_program_header,
        headers.next().unwrap().expect("Failed to parse program header")
    );

    let expected_program_header = Elf32ProgramHeader::new(
        ProgramSegmentType::Load,
        ProgramHeaderFlags::new(true, false, true),
        0x1000,
        0x401000,
        0x1BD,
        0x1BD,
        0x1000,
    );
    assert_eq!(
        expected_program_header,
        headers.next().unwrap().expect("Failed to parse program header")
    );

    let expected_program_header = Elf32ProgramHeader::new(
        ProgramSegmentType::Load,
        ProgramHeaderFlags::new(false, false, true),
        0x2000,
        0x402000,
        0x150,
        0x150,
        0x1000,
    );
    assert_eq!(
        expected_program_header,
        headers.next().unwrap().expect("Failed to parse program header")
    );

    let expected_program_header = Elf32ProgramHeader::new(
        ProgramSegmentType::Load,
        ProgramHeaderFlags::new(false, true, true),
        0x2E00,
        0x403E00,
        0x230,
        0x238,
        0x1000,
    );
    assert_eq!(
        expected_program_header,
        headers.next().unwrap().expect("Failed to parse program header")
    );

    let expected_program_header = Elf32ProgramHeader::new(
        ProgramSegmentType::Dynamic,
        ProgramHeaderFlags::new(false, true, true),
        0x2E10,
        0x403E10,
        0x1E0,
        0x1E0,
        0x8,
    );
    assert_eq!(
        expected_program_header,
        headers.next().unwrap().expect("Failed to parse program header")
    );

    let expected_program_header = Elf32ProgramHeader::new(
        ProgramSegmentType::Note,
        ProgramHeaderFlags::new(false, false, true),
        0x2C4,
        0x4002C4,
        0x20,
        0x20,
        0x4,
    );
    assert_eq!(
        expected_program_header,
        headers.next().unwrap().expect("Failed to parse program header")
    );

    let expected_program_header = Elf32ProgramHeader::new(
        ProgramSegmentType::ProcessorSpecific(1685382480),
        ProgramHeaderFlags::new(false, false, true),
        0x2010,
        0x402010,
        0x3C,
        0x3C,
        0x4,
    );
    assert_eq!(
        expected_program_header,
        headers.next().unwrap().expect("Failed to parse program header")
    );

    let expected_program_header = Elf32ProgramHeader::new(
        ProgramSegmentType::ProcessorSpecific(1685382481),
        ProgramHeaderFlags::new(false, true, true),
        0,
        0,
        0,
        0,
        0x4,
    );
    assert_eq!(
        expected_program_header,
        headers.next().unwrap().expect("Failed to parse program header")
    );

    assert_eq!(0, headers.count());
}

#[test]
fn header_32_shorter_than_the_fixed_header_is_truncated() {
    let file_bytes = hello_world_image();
    for len in 0..52 {
        assert_eq!(
            Err(ElfParseError::FailedToParseValue),
            Elf32Header::from_bytes(&file_bytes[..len])
        );
        assert_eq!(
            Err(ElfParseError::FailedToParseValue),
            Elf32File::parse_header(&file_bytes[..len])
        );
    }
    assert!(Elf32Header::from_bytes(&file_bytes[..52]).is_ok());
    assert_eq!(
        Err(ElfParseError::FailedToParseValue),
        Elf32File::from_bytes(&file_bytes[..51]).map(|file| *file.header())
    );
}

#[test]
fn file_32_without_magic_is_not_an_elf_file() {
    let mut file_bytes = hello_world_image();
    file_bytes[3] = 0x47;
    assert_eq!(
        Err(ElfParseError::NotValidElfFile),
        Elf32File::from_bytes(&file_bytes).map(|file| *file.header())
    );
    assert_eq!(
        Err(ElfParseError::NotValidElfFile),
        Elf32File::from_bytes(&[]).map(|file| *file.header())
    );
}

#[test]
fn file_32_refuses_the_other_width_and_unknown_widths() {
    let mut file_bytes = hello_world_image();
    file_bytes[4] = 2;
    assert_eq!(
        Err(ElfParseError::WrongElfClass),
        Elf32File::from_bytes(&file_bytes).map(|file| *file.header())
    );
    file_bytes[4] = 0;
    assert_eq!(
        Err(ElfParseError::InvalidClass),
        Elf32File::from_bytes(&file_bytes).map(|file| *file.header())
    );
}

#[test]
fn header_32_reports_malformed_tags_with_their_raw_value() {
    let mut file_bytes = hello_world_image();
    file_bytes[5] = 3;
    assert_eq!(Err(ElfParseError::InvalidEndianness), Elf32Header::from_bytes(&file_bytes));
    file_bytes[5] = 1;
    put(&mut file_bytes, 16, &0x1234u16.to_le_bytes());
    assert_eq!(Err(ElfParseError::InvalidElfType(0x1234)), Elf32Header::from_bytes(&file_bytes));
    put(&mut file_bytes, 16, &3u16.to_le_bytes());
    put(&mut file_bytes, 18, &0xFFu16.to_le_bytes());
    assert_eq!(
        Err(ElfParseError::InvalidInstructionSetValue(0xFF)),
        Elf32Header::from_bytes(&file_bytes)
    );
}

#[test]
fn header_32_big_endian_fields() {
    let mut file_bytes = vec![0u8; 52];
    put(&mut file_bytes, 0, &[0x7F, 0x45, 0x4C, 0x46, 1, 2, 1, 9]);
    put(&mut file_bytes, 16, &4u16.to_be_bytes());
    put(&mut file_bytes, 18, &0x14u16.to_be_bytes());
    put(&mut file_bytes, 20, &0x0102_0304u32.to_be_bytes());
    put(&mut file_bytes, 24, &0x1122_3344u32.to_be_bytes());
    put(&mut file_bytes, 28, &0x5566_7788u32.to_be_bytes());
    put(&mut file_bytes, 32, &0x99AA_BBCCu32.to_be_bytes());
    put(&mut file_bytes, 42, &0x0020u16.to_be_bytes());
    put(&mut file_bytes, 44, &0x0102u16.to_be_bytes());
    put(&mut file_bytes, 46, &0x0028u16.to_be_bytes());
    put(&mut file_bytes, 48, &0x0304u16.to_be_bytes());
    put(&mut file_bytes, 50, &0x0506u16.to_be_bytes());
    let expected = Elf32Header::new(
        Endian::Big,
        1,
        9,
        ElfType::Core,
        InstructionSet::PowerPC,
        0x0102_0304,
        0x1122_3344,
        0x5566_7788,
        0x0020,
        0x0102,
        0x99AA_BBCC,
        0x0028,
        0x0304,
        0x0506,
    );
    assert_eq!(Ok(expected), Elf32Header::from_bytes(&file_bytes));
    assert_eq!(
        Some(Elf32ProgramHeaderSummary {
            table_position: 0x5566_7788,
            entry_size: 0x20,
            entry_count: 0x102,
        }),
        expected.program_header_summary
    );
}

#[test]
fn summary_32_maps_indices_to_offsets() {
    let summary = Elf32ProgramHeaderSummary { table_position: 52, entry_size: 32, entry_count: 10 };
    assert_eq!(Some(Ok(52)), summary.byte_offset(0));
    assert_eq!(Some(Ok(52 + 32 * 9)), summary.byte_offset(9));
    assert_eq!(None, summary.byte_offset(10));
    assert_eq!(None, summary.byte_offset(u16::MAX));
}

#[test]
fn summary_32_does_not_wrap_around() {
    let summary = Elf32ProgramHeaderSummary {
        table_position: 0xFFFF_FFF0,
        entry_size: 32,
        entry_count: 3,
    };
    assert_eq!(Some(Ok(0xFFFF_FFF0)), summary.byte_offset(0));
    assert_eq!(Some(Err(ElfParseError::FailedToParseValue)), summary.byte_offset(1));
    assert_eq!(Some(Err(ElfParseError::FailedToParseValue)), summary.byte_offset(2));
    assert_eq!(None, summary.byte_offset(3));
}

#[test]
fn section_summary_32_maps_indices_to_offsets() {
    let summary = Elf32SectionHeaderSummary {
        table_position: 13624,
        entry_size: 40,
        entry_count: 29,
        names_index: 28,
    };
    assert_eq!(Some(Ok(13624)), summary.byte_offset(0));
    assert_eq!(Some(Ok(13624 + 40 * 28)), summary.byte_offset(28));
    assert_eq!(None, summary.byte_offset(29));
    let summary = Elf32SectionHeaderSummary {
        table_position: u32::MAX,
        entry_size: 40,
        entry_count: 2,
        names_index: 0,
    };
    assert_eq!(Some(Ok(0xFFFF_FFFF)), summary.byte_offset(0));
    assert_eq!(Some(Err(ElfParseError::FailedToParseValue)), summary.byte_offset(1));
}

#[test]
fn traversal_32_yields_one_result_per_declared_entry() {
    let file_bytes = hello_world_image();
    let summary = Elf32ProgramHeaderSummary {
        table_position: 0xFFFF_FFF0,
        entry_size: 32,
        entry_count: 3,
    };
    let endianness = Endian::Little;
    let mut headers =
        elf_reader::elf::elf32::Elf32ProgramHeaderIterator::new(&file_bytes, &endianness, &summary);
    assert_eq!(
        vec![
            Err(ElfParseError::FailedToParseValue),
            Err(ElfParseError::FailedToParseValue),
            Err(ElfParseError::FailedToParseValue)
        ],
        headers.collect()
    );
    assert_eq!(None, headers.next());
}

#[test]
fn traversal_32_checks_alignment_and_table_segments() {
    let mut file_bytes = image(52 + 32 * 5, 2, 3, 0, (52, 32, 5), (0, 0, 0, 0));
    put_program_header(&mut file_bytes, 52, 6, 4, [1, 2, 3, 4, 0]);
    put_program_header(&mut file_bytes, 84, 6, 4, [1, 2, 3, 4, 12]);
    put_program_header(&mut file_bytes, 116, 1, 7, [5, 6, 7, 8, 0x8000_0000]);
    put_program_header(&mut file_bytes, 148, 6, 4, [1, 2, 3, 4, 1]);
    put_program_header(&mut file_bytes, 180, 1, 0xFFFF_FFF8, [9, 10, 11, 12, 3]);
    let elf_file = Elf32File::from_bytes(&file_bytes).unwrap();
    let results = elf_file.program_headers().unwrap().collect();
    assert_eq!(
        vec![
            Ok(Elf32ProgramHeader::new(
                ProgramSegmentType::ProgramHeader,
                ProgramHeaderFlags::new(false, false, true),
                1,
                2,
                3,
                4,
                0
            )),
            Err(ElfParseError::InvalidProgramHeaderAlignment),
            Ok(Elf32ProgramHeader::new(
                ProgramSegmentType::Load,
                ProgramHeaderFlags::new(true, true, true),
                5,
                6,
                7,
                8,
                0x8000_0000
            )),
            Err(ElfParseError::MultipleProgramHeaderEntriesFound),
            Err(ElfParseError::InvalidProgramHeaderAlignment),
        ],
        results
    );
}

#[test]
fn traversal_32_restarts_with_the_same_results() {
    let file_bytes = hello_world_image();
    let elf_file = Elf32File::from_bytes(&file_bytes).unwrap();
    let first = elf_file.program_headers().unwrap().collect();
    let second = elf_file.program_headers().unwrap().collect();
    assert_eq!(10, first.len());
    assert_eq!(first, second);
}

#[test]
fn big_endian_entry_32() {
    let mut data = vec![0u8; 35];
    put(&mut data, 3, &2u32.to_be_bytes());
    put(&mut data, 7, &0x0102_0304u32.to_be_bytes());
    put(&mut data, 11, &0x1112_1314u32.to_be_bytes());
    put(&mut data, 15, &0xDEAD_BEEFu32.to_be_bytes());
    put(&mut data, 19, &0x2122_2324u32.to_be_bytes());
    put(&mut data, 23, &0x3132_3334u32.to_be_bytes());
    put(&mut data, 27, &0x0000_0006u32.to_be_bytes());
    put(&mut data, 31, &0x0001_0000u32.to_be_bytes());
    let expected = Elf32ProgramHeader::new(
        ProgramSegmentType::Dynamic,
        ProgramHeaderFlags::new(false, true, true),
        0x0102_0304,
        0x1112_1314,
        0x2122_2324,
        0x3132_3334,
        0x0001_0000,
    );
    assert_eq!(Ok(expected), Elf32ProgramHeader::decode(&Endian::Big, &data, 3));
    assert_eq!(
        Err(ElfParseError::FailedToParseValue),
        Elf32ProgramHeader::decode(&Endian::Big, &data, 4)
    );
    assert_eq!(
        (Ok(expected), false),
        validate_entry::<Elf32ProgramHeader>(&Endian::Big, &data, 3, false)
    );
    // In the other byte order the alignment reads as 0x00000100 and the type as 0x02000000.
    assert_eq!(
        Ok(Elf32ProgramHeader::new(
            ProgramSegmentType::ProcessorSpecific(0x0200_0000),
            ProgramHeaderFlags::new(false, false, false),
            0x0403_0201,
            0x1413_1211,
            0x2423_2221,
            0x3433_3231,
            0x0000_0100,
        )),
        Elf32ProgramHeader::decode(&Endian::Little, &data, 3)
    );
    assert_eq!(ProgramSegmentType::Dynamic, expected.segment_type());
    assert_eq!(0x0001_0000, expected.alignment());
    assert_eq!(0xFFFF_FFFF, Elf32ProgramHeader::offset_limit());
}
