use elf_reader::elf::{classify, is_elf_file, ElfFileClass, ElfParseError, Endian};

#[test]
fn magic_is_recognised() {
    assert!(is_elf_file(&[0x7F, 0x45, 0x4C, 0x46]));
    assert!(is_elf_file(&[0x7F, 0x45, 0x4C, 0x46, 9, 9]));
    assert!(!is_elf_file(&[0x7F, 0x45, 0x4C]));
    assert!(!is_elf_file(&[0x7F, 0x45, 0x4C, 0x47]));
    assert!(!is_elf_file(&[0x7E, 0x45, 0x4C, 0x46]));
    assert!(!is_elf_file(&[0x45, 0x4C, 0x46, 0x7F]));
    assert!(!is_elf_file(&[]));
}

#[test]
fn class_of_a_file() {
    assert_eq!(Ok(ElfFileClass::Elf32), ElfFileClass::from_bytes(&[0x7F, 0x45, 0x4C, 0x46, 1]));
    assert_eq!(Ok(ElfFileClass::Elf64), ElfFileClass::from_bytes(&[0x7F, 0x45, 0x4C, 0x46, 2]));
    assert_eq!(
        Err(ElfParseError::InvalidClass),
        ElfFileClass::from_bytes(&[0x7F, 0x45, 0x4C, 0x46, 3])
    );
    assert_eq!(
        Err(ElfParseError::InvalidClass),
        ElfFileClass::from_bytes(&[0x7F, 0x45, 0x4C, 0x46, 0])
    );
    assert_eq!(
        Err(ElfParseError::InvalidClass),
        ElfFileClass::from_bytes(&[0x7F, 0x45, 0x4C, 0x46])
    );
}

#[test]
fn classification_selects_width_and_order() {
    assert_eq!(
        Ok((ElfFileClass::Elf64, Endian::Little)),
        classify(&[0x7F, 0x45, 0x4C, 0x46, 2, 1])
    );
    assert_eq!(
        Ok((ElfFileClass::Elf32, Endian::Big)),
        classify(&[0x7F, 0x45, 0x4C, 0x46, 1, 2, 0, 0])
    );
    assert_eq!(
        Ok((ElfFileClass::Elf64, Endian::Big)),
        classify(&[0x7F, 0x45, 0x4C, 0x46, 2, 2])
    );
}

#[test]
fn classification_rejects_what_is_not_an_elf_file() {
    // The width and order bytes are valid in each of these; only the magic is not.
    assert_eq!(Err(ElfParseError::NotValidElfFile), classify(&[0x7F, 0x45, 0x4C, 0x00, 2, 1]));
    assert_eq!(Err(ElfParseError::NotValidElfFile), classify(&[0x00, 0x45, 0x4C, 0x46, 2, 1]));
    assert_eq!(Err(ElfParseError::NotValidElfFile), classify(&[0x7F, 0x65, 0x6C, 0x66, 1, 2]));
    assert_eq!(Err(ElfParseError::NotValidElfFile), classify(&[0x7F, 0x45, 0x4C]));
    assert_eq!(Err(ElfParseError::NotValidElfFile), classify(&[]));
    // Invalid width and order bytes do not change the answer.
    assert_eq!(Err(ElfParseError::NotValidElfFile), classify(&[0x7F, 0x45, 0x4C, 0x47, 7, 7]));
    assert_eq!(
        Err(ElfParseError::NotValidElfFile),
        ElfFileClass::from_bytes(&[0x7F, 0x45, 0x4C, 0x47, 7, 7])
    );
}

#[test]
fn classification_checks_the_width_before_the_order() {
    assert_eq!(Err(ElfParseError::InvalidClass), classify(&[0x7F, 0x45, 0x4C, 0x46, 3, 1]));
    assert_eq!(Err(ElfParseError::InvalidClass), classify(&[0x7F, 0x45, 0x4C, 0x46, 3, 3]));
    assert_eq!(Err(ElfParseError::InvalidClass), classify(&[0x7F, 0x45, 0x4C, 0x46]));
}

#[test]
fn classification_rejects_an_unknown_or_missing_byte_order() {
    assert_eq!(Err(ElfParseError::InvalidEndianness), classify(&[0x7F, 0x45, 0x4C, 0x46, 1, 0]));
    assert_eq!(Err(ElfParseError::InvalidEndianness), classify(&[0x7F, 0x45, 0x4C, 0x46, 2, 3]));
    assert_eq!(Err(ElfParseError::InvalidEndianness), classify(&[0x7F, 0x45, 0x4C, 0x46, 2]));
}

#[test]
fn byte_order_byte() {
    assert_eq!(Ok(Endian::Little), Endian::from_byte(1));
    assert_eq!(Ok(Endian::Big), Endian::from_byte(2));
    assert_eq!(Err(ElfParseError::InvalidEndianness), Endian::from_byte(0));
    assert_eq!(Err(ElfParseError::InvalidEndianness), Endian::from_byte(3));
    assert_eq!(Err(ElfParseError::InvalidEndianness), Endian::from_byte(255));
}
