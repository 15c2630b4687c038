//! Decoding of the Executable and Linkable Format.
//!
//! This module holds what both address widths share: the failure taxonomy,
//! the byte-order aware integer reader, classification of a candidate file
//! and the decoders of the small tagged fields. The width-specific headers
//! and tables live in [`elf32`] and [`elf64`].

use vstd::prelude::*;

pub mod elf32;
pub mod elf64;
pub mod program_header;

pub use program_header::{ProgramHeaderFlags, ProgramSegmentType};



verus! {

/// Every way in which decoding can fail.
///
/// A failure is terminal for the field or table entry being decoded only; it
/// never ends a traversal of a table.
#[derive(Debug, Clone, Copy, PartialEq, Eq)]
pub enum ElfParseError {
    /// The buffer does not start with the four magic bytes.
    NotValidElfFile,
    /// The word-width byte is neither 1 nor 2, or is missing.
    InvalidClass,
    /// The file has the other word width than the decoder that was asked.
    WrongElfClass,
    /// The byte-order byte is neither 1 nor 2.
    InvalidEndianness,
    /// The file-type tag is none of the known ones; carries the raw tag.
    InvalidElfType(u16),
    /// The instruction-set tag is none of the known ones; carries the raw tag.
    InvalidInstructionSetValue(u16),
    /// A field lies partly or wholly outside the buffer.
    FailedToParseValue,
    /// A program header's alignment is neither 0 nor a power of two.
    InvalidProgramHeaderAlignment,
    /// A second program-header-table segment was met in one traversal.
    MultipleProgramHeaderEntriesFound,
    /// The section-type tag lies in no recognised range; carries the raw tag.
    InvalidSectionHeaderType(u32),
}

/// Machine architecture a file was built for.
#[derive(Debug, Clone, Copy, PartialEq, Eq)]
pub enum InstructionSet {
    NoSpecific,
    Sparc,
    X86,
    MIPS,
    PowerPC,
    ARM,
    SuperH,
    Ia64,
    X86_64,
    AArch64,
    RiscV,
}

impl InstructionSet {
    /// The architecture a raw tag stands for; an unknown tag is a failure
    /// that carries the tag.
    pub open spec fn spec_try_from(value: u16) -> Result<Self, ElfParseError> {
        if value == 0 {
            Ok(Self::NoSpecific)
        } else if value == 2 {
            Ok(Self::Sparc)
        } else if value == 3 {
            Ok(Self::X86)
        } else if value == 8 {
            Ok(Self::MIPS)
        } else if value == 0x14 {
            Ok(Self::PowerPC)
        } else if value == 0x28 {
            Ok(Self::ARM)
        } else if value == 0x2A {
            Ok(Self::SuperH)
        } else if value == 0x32 {
            Ok(Self::Ia64)
        } else if value == 0x3E {
            Ok(Self::X86_64)
        } else if value == 0xB7 {
            Ok(Self::AArch64)
        } else if value == 0xFE {
            Ok(Self::RiscV)
        } else {
            Err(ElfParseError::InvalidInstructionSetValue(value))
        }
    }

    /// Decodes the instruction-set tag of a file header.
    pub fn try_from(value: u16) -> (result: Result<Self, ElfParseError>)
        ensures
            result == Self::spec_try_from(value),
    {
        match value {
            0 => Ok(Self::NoSpecific),
            2 => Ok(Self::Sparc),
            3 => Ok(Self::X86),
            8 => Ok(Self::MIPS),
            0x14 => Ok(Self::PowerPC),
            0x28 => Ok(Self::ARM),
            0x2A => Ok(Self::SuperH),
            0x32 => Ok(Self::Ia64),
            0x3E => Ok(Self::X86_64),
            0xB7 => Ok(Self::AArch64),
            0xFE => Ok(Self::RiscV),
            _ => Err(ElfParseError::InvalidInstructionSetValue(value)),
        }
    }
}

/// Kind of object file.
#[derive(Debug, Clone, Copy, PartialEq, Eq)]
pub enum ElfType {
    Relocatable,
    Executable,
    Shared,
    Core,
}

impl ElfType {
    /// The file type a raw tag stands for; an unknown tag is a failure that
    /// carries the tag.
    pub open spec fn spec_try_from(value: u16) -> Result<Self, ElfParseError> {
        if value == 1 {
            Ok(Self::Relocatable)
        } else if value == 2 {
            Ok(Self::Executable)
        } else if value == 3 {
            Ok(Self::Shared)
        } else if value == 4 {
            Ok(Self::Core)
        } else {
            Err(ElfParseError::InvalidElfType(value))
        }
    }

    /// Decodes the file-type tag of a file header.
    pub fn try_from(value: u16) -> (result: Result<Self, ElfParseError>)
        ensures
            result == Self::spec_try_from(value),
    {
        match value {
            1 => Ok(Self::Relocatable),
            2 => Ok(Self::Executable),
            3 => Ok(Self::Shared),
            4 => Ok(Self::Core),
            _ => Err(ElfParseError::InvalidElfType(value)),
        }
    }
}

/// Byte order of every multi-byte field of one file.
#[derive(Debug, Clone, Copy, PartialEq, Eq)]
pub enum Endian {
    Little,
    Big,
}

/// Whether `width` bytes starting at `at` lie inside `bytes`.
pub open spec fn in_bounds(bytes: Seq<u8>, at: int, width: int) -> bool {
    0 <= at && at + width <= bytes.len()
}

impl Endian {
    /// The byte order that the byte-order byte of a header selects.
    pub open spec fn spec_from_byte(byte: u8) -> Result<Self, ElfParseError> {
        if byte == 1 {
            Ok(Self::Little)
        } else if byte == 2 {
            Ok(Self::Big)
        } else {
            Err(ElfParseError::InvalidEndianness)
        }
    }

    /// Decodes the byte-order byte of a header.
    pub fn from_byte(byte: u8) -> (result: Result<Self, ElfParseError>)
        ensures
            result == Self::spec_from_byte(byte),
    {
        match byte {
            1 => Ok(Self::Little),
            2 => Ok(Self::Big),
            _ => Err(ElfParseError::InvalidEndianness),
        }
    }

    /// The number that the two bytes at `at` denote in this byte order.
    pub open spec fn u16_value(self, bytes: Seq<u8>, at: int) -> int {
        match self {
            Endian::Little => bytes[at] + 0x100 * bytes[at + 1],
            Endian::Big => 0x100 * bytes[at] + bytes[at + 1],
        }
    }

    /// The number that the four bytes at `at` denote in this byte order.
    pub open spec fn u32_value(self, bytes: Seq<u8>, at: int) -> int {
        match self {
            Endian::Little => self.u16_value(bytes, at) + 0x1_0000 * self.u16_value(bytes, at + 2),
            Endian::Big => 0x1_0000 * self.u16_value(bytes, at) + self.u16_value(bytes, at + 2),
        }
    }

    /// The number that the eight bytes at `at` denote in this byte order.
    pub open spec fn u64_value(self, bytes: Seq<u8>, at: int) -> int {
        match self {
            Endian::Little => self.u32_value(bytes, at) + 0x1_0000_0000 * self.u32_value(
                bytes,
                at + 4,
            ),
            Endian::Big => 0x1_0000_0000 * self.u32_value(bytes, at) + self.u32_value(
                bytes,
                at + 4,
            ),
        }
    }

    /// What reading a 16-bit field at `at` yields: its value, or a failure
    /// when the field does not lie inside the buffer.
    pub open spec fn spec_get_u16_at(self, bytes: Seq<u8>, at: int) -> Result<u16, ElfParseError> {
        if in_bounds(bytes, at, 2) {
            Ok(self.u16_value(bytes, at) as u16)
        } else {
            Err(ElfParseError::FailedToParseValue)
        }
    }

    /// What reading a 32-bit field at `at` yields.
    pub open spec fn spec_get_u32_at(self, bytes: Seq<u8>, at: int) -> Result<u32, ElfParseError> {
        if in_bounds(bytes, at, 4) {
            Ok(self.u32_value(bytes, at) as u32)
        } else {
            Err(ElfParseError::FailedToParseValue)
        }
    }

    /// What reading a 64-bit field at `at` yields.
    pub open spec fn spec_get_u64_at(self, bytes: Seq<u8>, at: int) -> Result<u64, ElfParseError> {
        if in_bounds(bytes, at, 8) {
            Ok(self.u64_value(bytes, at) as u64)
        } else {
            Err(ElfParseError::FailedToParseValue)
        }
    }

    /// Reads the 16-bit field that starts at byte `at` of `bytes`.
    pub fn get_u16_at(&self, bytes: &[u8], at: usize) -> (result: Result<u16, ElfParseError>)
        ensures
            result == self.spec_get_u16_at(bytes@, at as int),
    {
        let len = bytes.len();
        if at > len || len - at < 2 {
            return Err(ElfParseError::FailedToParseValue);
        }
        let first = bytes[at] as u16;
        let second = bytes[at + 1] as u16;
        match self {
            Endian::Little => Ok(first + 0x100 * second),
            Endian::Big => Ok(0x100 * first + second),
        }
    }

    /// Reads the 32-bit field that starts at byte `at` of `bytes`.
    pub fn get_u32_at(&self, bytes: &[u8], at: usize) -> (result: Result<u32, ElfParseError>)
        ensures
            result == self.spec_get_u32_at(bytes@, at as int),
    {
        let len = bytes.len();
        if at > len || len - at < 4 {
            return Err(ElfParseError::FailedToParseValue);
        }
        let first = self.get_u16_at(bytes, at)? as u32;
        let second = self.get_u16_at(bytes, at + 2)? as u32;
        match self {
            Endian::Little => Ok(first + 0x1_0000 * second),
            Endian::Big => Ok(0x1_0000 * first + second),
        }
    }

    /// Reads the 64-bit field that starts at byte `at` of `bytes`.
    pub fn get_u64_at(&self, bytes: &[u8], at: usize) -> (result: Result<u64, ElfParseError>)
        ensures
            result == self.spec_get_u64_at(bytes@, at as int),
    {
        let len = bytes.len();
        if at > len || len - at < 8 {
            return Err(ElfParseError::FailedToParseValue);
        }
        let first = self.get_u32_at(bytes, at)? as u64;
        let second = self.get_u32_at(bytes, at + 4)? as u64;
        match self {
            Endian::Little => Ok(first + 0x1_0000_0000 * second),
            Endian::Big => Ok(0x1_0000_0000 * first + second),
        }
    }

    /// Reads a 16-bit integer from the start of the window `bytes`.
    pub fn get_u16(&self, bytes: &[u8]) -> (result: Result<u16, ElfParseError>)
        ensures
            result == self.spec_get_u16_at(bytes@, 0),
    {
        self.get_u16_at(bytes, 0)
    }

    /// Reads a 32-bit integer from the start of the window `bytes`.
    pub fn get_u32(&self, bytes: &[u8]) -> (result: Result<u32, ElfParseError>)
        ensures
            result == self.spec_get_u32_at(bytes@, 0),
    {
        self.get_u32_at(bytes, 0)
    }

    /// Reads a 64-bit integer from the start of the window `bytes`.
    pub fn get_u64(&self, bytes: &[u8]) -> (result: Result<u64, ElfParseError>)
        ensures
            result == self.spec_get_u64_at(bytes@, 0),
    {
        self.get_u64_at(bytes, 0)
    }
}

/// Where entry `entry_index` of a table starts: `entry_size` bytes are laid
/// out per entry from `table_position` on.
pub open spec fn spec_entry_position(table_position: int, entry_size: int, entry_index: int) -> int {
    table_position + entry_size * entry_index
}

/// A table position as a buffer offset: positions beyond `limit`, the
/// largest that the file's word width can express, and positions that no
/// buffer offset can hold are failures; nothing wraps around.
pub open spec fn spec_checked_offset(position: int, limit: int) -> Result<usize, ElfParseError> {
    if position <= limit && position <= usize::MAX {
        Ok(position as usize)
    } else {
        Err(ElfParseError::FailedToParseValue)
    }
}

/// Computes the buffer offset of entry `entry_index` of a table.
pub fn entry_offset(table_position: u64, entry_size: u16, entry_index: u16, limit: u64) -> (result:
    Result<usize, ElfParseError>)
    ensures
        result == spec_checked_offset(
            spec_entry_position(table_position as int, entry_size as int, entry_index as int),
            limit as int,
        ),
{
    assert(entry_size * entry_index <= 0xFFFF * 0xFFFF) by (nonlinear_arith)
        requires
            entry_size <= 0xFFFF,
            entry_index <= 0xFFFF,
    ;
    let stride: u64 = (entry_size as u64) * (entry_index as u64);
    if table_position > u64::MAX - stride {
        return Err(ElfParseError::FailedToParseValue);
    }
    let position: u64 = table_position + stride;
    if position <= limit && position <= usize::MAX as u64 {
        Ok(position as usize)
    } else {
        Err(ElfParseError::FailedToParseValue)
    }
}

/// Word width of a file: the width of every address and file offset in it.
#[derive(Debug, Clone, Copy, PartialEq, Eq)]
pub enum ElfFileClass {
    Elf32,
    Elf64,
}

/// Whether `bytes` starts with the magic sequence 0x7F 'E' 'L' 'F'.
pub open spec fn spec_is_elf_file(bytes: Seq<u8>) -> bool {
    &&& bytes.len() >= 4
    &&& bytes[0] == 0x7F
    &&& bytes[1] == 0x45
    &&& bytes[2] == 0x4C
    &&& bytes[3] == 0x46
}

/// Tells whether the buffer starts with the magic sequence.
pub fn is_elf_file(file_bytes: &[u8]) -> (result: bool)
    ensures
        result == spec_is_elf_file(file_bytes@),
{
    file_bytes.len() >= 4 && file_bytes[0] == 0x7F && file_bytes[1] == 0x45 && file_bytes[2]
        == 0x4C && file_bytes[3] == 0x46
}

impl ElfFileClass {
    /// The word width of a candidate file: the magic is checked first, then
    /// the width byte, which must be present and hold 1 or 2.
    pub open spec fn spec_from_bytes(bytes: Seq<u8>) -> Result<Self, ElfParseError> {
        if !spec_is_elf_file(bytes) {
            Err(ElfParseError::NotValidElfFile)
        } else if bytes.len() > 4 && bytes[4] == 1 {
            Ok(Self::Elf32)
        } else if bytes.len() > 4 && bytes[4] == 2 {
            Ok(Self::Elf64)
        } else {
            Err(ElfParseError::InvalidClass)
        }
    }

    /// Determines the word width of a candidate file.
    pub fn from_bytes(file_bytes: &[u8]) -> (result: Result<Self, ElfParseError>)
        ensures
            result == Self::spec_from_bytes(file_bytes@),
            !spec_is_elf_file(file_bytes@) ==> result == Err::<Self, ElfParseError>(
                ElfParseError::NotValidElfFile,
            ),
    {
        if !is_elf_file(file_bytes) {
            return Err(ElfParseError::NotValidElfFile);
        }
        if file_bytes.len() > 4 && file_bytes[4] == 1 {
            Ok(Self::Elf32)
        } else if file_bytes.len() > 4 && file_bytes[4] == 2 {
            Ok(Self::Elf64)
        } else {
            Err(ElfParseError::InvalidClass)
        }
    }
}

/// Word width and byte order of a candidate file. The magic is checked
/// before anything else, the width byte next, the byte-order byte last; a
/// missing byte-order byte counts as an invalid one.
pub open spec fn spec_classify(bytes: Seq<u8>) -> Result<(ElfFileClass, Endian), ElfParseError> {
    match ElfFileClass::spec_from_bytes(bytes) {
        Err(e) => Err(e),
        Ok(class) => if bytes.len() <= 5 {
            Err(ElfParseError::InvalidEndianness)
        } else {
            match Endian::spec_from_byte(bytes[5]) {
                Err(e) => Err(e),
                Ok(endianness) => Ok((class, endianness)),
            }
        },
    }
}

/// Classifies a candidate file: checks the magic, then selects the word
/// width and the byte order that every later decoding step depends on.
pub fn classify(file_bytes: &[u8]) -> (result: Result<(ElfFileClass, Endian), ElfParseError>)
    ensures
        result == spec_classify(file_bytes@),
        !spec_is_elf_file(file_bytes@) ==> result == Err::<(ElfFileClass, Endian), ElfParseError>(
            ElfParseError::NotValidElfFile,
        ),
{
    let class = ElfFileClass::from_bytes(file_bytes)?;
    if file_bytes.len() <= 5 {
        return Err(ElfParseError::InvalidEndianness);
    }
    match Endian::from_byte(file_bytes[5]) {
        Ok(endianness) => Ok((class, endianness)),
        Err(e) => Err(e),
    }
}

/// A buffer without the magic is rejected as not being an ELF file whatever
/// its width byte, its byte-order byte and the rest of it hold.
pub proof fn lemma_magic_is_checked_first(bytes: Seq<u8>)
    requires
        !spec_is_elf_file(bytes),
    ensures
        ElfFileClass::spec_from_bytes(bytes) == Err::<ElfFileClass, ElfParseError>(
            ElfParseError::NotValidElfFile,
        ),
        spec_classify(bytes) == Err::<(ElfFileClass, Endian), ElfParseError>(
            ElfParseError::NotValidElfFile,
        ),
{
}

} // verus!
