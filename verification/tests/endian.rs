use elf_reader::elf::{entry_offset, ElfParseError, Endian};

const BYTES: [u8; 9] = [0x01, 0x23, 0x45, 0x67, 0x89, 0xAB, 0xCD, 0xEF, 0x10];

#[test]
fn sixteen_bit_values() {
    assert_eq!(Ok(0x2301), Endian::Little.get_u16(&BYTES));
    assert_eq!(Ok(0x0123), Endian::Big.get_u16(&BYTES));
    assert_eq!(Ok(0x10EF), Endian::Little.get_u16_at(&BYTES, 7));
    assert_eq!(Ok(0xEF10), Endian::Big.get_u16_at(&BYTES, 7));
    assert_eq!(Ok(0xFFFF), Endian::Little.get_u16(&[0xFF, 0xFF]));
    assert_eq!(Ok(0xFF00), Endian::Little.get_u16(&[0x00, 0xFF]));
    assert_eq!(Ok(0x00FF), Endian::Big.get_u16(&[0x00, 0xFF]));
}

#[test]
fn thirty_two_bit_values() {
    assert_eq!(Ok(0x6745_2301), Endian::Little.get_u32(&BYTES));
    assert_eq!(Ok(0x0123_4567), Endian::Big.get_u32(&BYTES));
    assert_eq!(Ok(0x10EF_CDAB), Endian::Little.get_u32_at(&BYTES, 5));
    assert_eq!(Ok(0xABCD_EF10), Endian::Big.get_u32_at(&BYTES, 5));
    assert_eq!(Ok(u32::MAX), Endian::Big.get_u32(&[0xFF; 4]));
    assert_eq!(Ok(0x8000_0000), Endian::Little.get_u32(&[0, 0, 0, 0x80]));
    assert_eq!(Ok(0x0000_0080), Endian::Big.get_u32(&[0, 0, 0, 0x80]));
}

#[test]
fn sixty_four_bit_values() {
    assert_eq!(Ok(0xEFCD_AB89_6745_2301), Endian::Little.get_u64(&BYTES));
    assert_eq!(Ok(0x0123_4567_89AB_CDEF), Endian::Big.get_u64(&BYTES));
    assert_eq!(Ok(0x10EF_CDAB_8967_4523), Endian::Little.get_u64_at(&BYTES, 1));
    assert_eq!(Ok(0x2345_6789_ABCD_EF10), Endian::Big.get_u64_at(&BYTES, 1));
    assert_eq!(Ok(u64::MAX), Endian::Little.get_u64(&[0xFF; 8]));
    assert_eq!(Ok(0x8000_0000_0000_0000), Endian::Little.get_u64(&[0, 0, 0, 0, 0, 0, 0, 0x80]));
    assert_eq!(Ok(1), Endian::Little.get_u64(&[1, 0, 0, 0, 0, 0, 0, 0]));
    assert_eq!(Ok(0x0100_0000_0000_0000), Endian::Big.get_u64(&[1, 0, 0, 0, 0, 0, 0, 0]));
}

#[test]
fn short_windows_are_failures() {
    for endianness in [Endian::Little, Endian::Big] {
        assert_eq!(Err(ElfParseError::FailedToParseValue), endianness.get_u16(&[]));
        assert_eq!(Err(ElfParseError::FailedToParseValue), endianness.get_u16(&[1]));
        assert_eq!(Err(ElfParseError::FailedToParseValue), endianness.get_u32(&[1, 2, 3]));
        assert_eq!(Err(ElfParseError::FailedToParseValue), endianness.get_u64(&[1; 7]));
        assert_eq!(Err(ElfParseError::FailedToParseValue), endianness.get_u16_at(&BYTES, 8));
        assert_eq!(Err(ElfParseError::FailedToParseValue), endianness.get_u32_at(&BYTES, 6));
        assert_eq!(Err(ElfParseError::FailedToParseValue), endianness.get_u64_at(&BYTES, 2));
        assert_eq!(Err(ElfParseError::FailedToParseValue), endianness.get_u16_at(&BYTES, 9));
        assert_eq!(Err(ElfParseError::FailedToParseValue), endianness.get_u16_at(&BYTES, 10));
    }
}

#[test]
fn offsets_at_the_end_of_the_address_space_are_failures() {
    for endianness in [Endian::Little, Endian::Big] {
        assert_eq!(
            Err(ElfParseError::FailedToParseValue),
            endianness.get_u16_at(&BYTES, usize::MAX)
        );
        assert_eq!(
            Err(ElfParseError::FailedToParseValue),
            endianness.get_u32_at(&BYTES, usize::MAX - 1)
        );
        assert_eq!(
            Err(ElfParseError::FailedToParseValue),
            endianness.get_u64_at(&BYTES, usize::MAX - 7)
        );
    }
}

#[test]
fn entry_offsets() {
    assert_eq!(Ok(64), entry_offset(64, 56, 0, u64::MAX));
    assert_eq!(Ok(64 + 56 * 10), entry_offset(64, 56, 10, u64::MAX));
    assert_eq!(Ok(0), entry_offset(0, 0, 65535, u64::MAX));
    assert_eq!(Ok(65535 * 65535), entry_offset(0, 65535, 65535, u64::MAX));
    assert_eq!(Ok(100), entry_offset(100, 0, 7, 100));
    assert_eq!(Err(ElfParseError::FailedToParseValue), entry_offset(100, 1, 1, 100));
}

#[test]
fn entry_offsets_do_not_wrap_around() {
    assert_eq!(Err(ElfParseError::FailedToParseValue), entry_offset(u64::MAX, 1, 1, u64::MAX));
    assert_eq!(
        Err(ElfParseError::FailedToParseValue),
        entry_offset(u64::MAX - 55, 56, 1, u64::MAX)
    );
    assert_eq!(
        Err(ElfParseError::FailedToParseValue),
        entry_offset(u64::MAX - 100, 65535, 65535, u64::MAX)
    );
    assert_eq!(
        Err(ElfParseError::FailedToParseValue),
        entry_offset(0xFFFF_FFFF, 1, 1, 0xFFFF_FFFF)
    );
    assert_eq!(Ok(0xFFFF_FFFF), entry_offset(0xFFFF_FFFE, 1, 1, 0xFFFF_FFFF));
}
