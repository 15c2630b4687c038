//! The 64-bit flavour of the format: file header, program-header table and
//! the handle that ties a decoded header to the buffer it came from.

use crate::elf::program_header::{
    alignment_is_valid, entry_in_bounds, is_table_entry, lemma_entries_hold_one_table_entry,
    lemma_entries_len, lemma_entry_failures_are_local, spec_entries, spec_validate_entry,
    validate_entry, ProgramHeaderEntry, ProgramHeaderFlags, ProgramSegmentType,
};
use crate::elf::{
    entry_offset, spec_checked_offset, spec_entry_position, spec_is_elf_file, ElfFileClass,
    ElfParseError, ElfType, Endian, InstructionSet,
};
use std::vec::Vec;
use vstd::prelude::*;

pub mod sections;

use sections::SectionHeaderIterator;

verus! {

/// Number of bytes of the fixed 64-bit file header.
pub const HEADER_SIZE: usize = 64;

/// Offsets of the file-header fields, in bytes from the start of the file.
pub const ENDIANNESS_INDEX: usize = 5;

pub const HEADER_VERSION_INDEX: usize = 6;

pub const OS_ABI_INDEX: usize = 7;

pub const ELF_TYPE_INDEX: usize = 16;

pub const INSTRUCTION_SET_INDEX: usize = 18;

pub const ELF_VERSION_INDEX: usize = 20;

pub const PROGRAM_ENTRY_INDEX: usize = 24;

pub const PROG_HEADER_TABLE_POS_INDEX: usize = 32;

pub const SECTION_HEADER_TABLE_POS_INDEX: usize = 40;

pub const PROG_HEADER_ENTRY_SIZE_INDEX: usize = 54;

pub const PROG_HEADER_ENTRY_COUNT_INDEX: usize = 56;

pub const SECTION_HEADER_ENTRY_SIZE_INDEX: usize = 58;

pub const SECTION_HEADER_ENTRY_COUNT_INDEX: usize = 60;

pub const SECTION_HEADER_NAMES_INDEX_INDEX: usize = 62;

/// Number of bytes from the start of a program header to the end of its
/// alignment field.
pub const PROGRAM_HEADER_LEN: usize = 56;

/// Where the program-header table lies and how it is laid out.
#[derive(Debug, Clone, Copy, PartialEq, Eq)]
pub struct Elf64ProgramHeaderSummary {
    pub table_position: u64,
    pub entry_size: u16,
    pub entry_count: u16,
}

impl Elf64ProgramHeaderSummary {
    /// File position of entry `entry_index`.
    pub open spec fn spec_entry_position(&self, entry_index: int) -> int {
        spec_entry_position(self.table_position as int, self.entry_size as int, entry_index)
    }

    /// Buffer offset of entry `entry_index`: none past the end of the table,
    /// a failure where no buffer offset can hold the position.
    pub open spec fn spec_byte_offset(&self, entry_index: u16) -> Option<
        Result<usize, ElfParseError>,
    > {
        if entry_index < self.entry_count {
            Some(spec_checked_offset(self.spec_entry_position(entry_index as int), u64::MAX as int))
        } else {
            None
        }
    }

    /// Maps an entry index to the offset of that entry in the buffer.
    pub fn byte_offset(&self, entry_index: u16) -> (result: Option<Result<usize, ElfParseError>>)
        ensures
            result == self.spec_byte_offset(entry_index),
    {
        if entry_index < self.entry_count {
            Some(entry_offset(self.table_position, self.entry_size, entry_index, u64::MAX))
        } else {
            None
        }
    }

    /// The results that a traversal of this table yields from entry `index`
    /// on, having yielded a program-header-table segment before or not.
    pub open spec fn spec_entries(
        &self,
        endianness: Endian,
        data: Seq<u8>,
        index: int,
        table_entry_seen: bool,
    ) -> Seq<Result<Elf64ProgramHeader, ElfParseError>> {
        spec_entries::<Elf64ProgramHeader>(
            endianness,
            data,
            self.table_position as int,
            self.entry_size as int,
            self.entry_count as int,
            index,
            table_entry_seen,
        )
    }
}

/// Where the section-header table lies and how it is laid out.
#[derive(Debug, Clone, Copy, PartialEq, Eq)]
pub struct Elf64SectionHeaderSummary {
    pub table_position: u64,
    pub entry_size: u16,
    pub entry_count: u16,
    /// Index of the section that holds the section names.
    pub names_index: u16,
}

impl Elf64SectionHeaderSummary {
    /// File position of entry `entry_index`.
    pub open spec fn spec_entry_position(&self, entry_index: int) -> int {
        spec_entry_position(self.table_position as int, self.entry_size as int, entry_index)
    }

    /// Buffer offset of entry `entry_index`: none past the end of the table,
    /// a failure where no buffer offset can hold the position.
    pub open spec fn spec_byte_offset(&self, entry_index: u16) -> Option<
        Result<usize, ElfParseError>,
    > {
        if entry_index < self.entry_count {
            Some(spec_checked_offset(self.spec_entry_position(entry_index as int), u64::MAX as int))
        } else {
            None
        }
    }

    /// Maps an entry index to the offset of that entry in the buffer.
    pub fn byte_offset(&self, entry_index: u16) -> (result: Option<Result<usize, ElfParseError>>)
        ensures
            result == self.spec_byte_offset(entry_index),
    {
        if entry_index < self.entry_count {
            Some(entry_offset(self.table_position, self.entry_size, entry_index, u64::MAX))
        } else {
            None
        }
    }
}

/// The decoded fixed header of a 64-bit file.
#[derive(Debug, Clone, Copy, PartialEq, Eq)]
pub struct Elf64Header {
    pub endianness: Endian,
    pub header_version: u8,
    pub os_abi: u8,
    pub elf_type: ElfType,
    pub instruction_set: InstructionSet,
    pub elf_version: u32,
    pub program_entry_position: u64,
    /// Absent when the header gives zero as the table's position, as
    /// relocatable files do.
    pub program_header_summary: Option<Elf64ProgramHeaderSummary>,
    pub section_header_summary: Elf64SectionHeaderSummary,
}

impl Elf64Header {
    /// The header made of the given field values. A program-header table at
    /// position zero is no table.
    pub open spec fn spec_new(
        endianness: Endian,
        header_version: u8,
        os_abi: u8,
        elf_type: ElfType,
        instruction_set: InstructionSet,
        elf_version: u32,
        program_entry_position: u64,
        program_header_table_position: u64,
        program_header_entry_size: u16,
        program_header_entry_count: u16,
        section_header_table_position: u64,
        section_header_entry_size: u16,
        section_header_entry_count: u16,
        section_names_index: u16,
    ) -> Self {
        Elf64Header {
            endianness,
            header_version,
            os_abi,
            elf_type,
            instruction_set,
            elf_version,
            program_entry_position,
            program_header_summary: if program_header_table_position == 0 {
                None
            } else {
                Some(
                    Elf64ProgramHeaderSummary {
                        table_position: program_header_table_position,
                        entry_size: program_header_entry_size,
                        entry_count: program_header_entry_count,
                    },
                )
            },
            section_header_summary: Elf64SectionHeaderSummary {
                table_position: section_header_table_position,
                entry_size: section_header_entry_size,
                entry_count: section_header_entry_count,
                names_index: section_names_index,
            },
        }
    }

    /// Builds a header from the values of its fields.
    pub fn new(
        endianness: Endian,
        header_version: u8,
        os_abi: u8,
        elf_type: ElfType,
        instruction_set: InstructionSet,
        elf_version: u32,
        program_entry_position: u64,
        program_header_table_position: u64,
        program_header_entry_size: u16,
        program_header_entry_count: u16,
        section_header_table_position: u64,
        section_header_entry_size: u16,
        section_header_entry_count: u16,
        section_names_index: u16,
    ) -> (result: Self)
        ensures
            result == Self::spec_new(
                endianness,
                header_version,
                os_abi,
                elf_type,
                instruction_set,
                elf_version,
                program_entry_position,
                program_header_table_position,
                program_header_entry_size,
                program_header_entry_count,
                section_header_table_position,
                section_header_entry_size,
                section_header_entry_count,
                section_names_index,
            ),
    {
        let program_header_summary = if program_header_table_position == 0 {
            None
        } else {
            Some(
                Elf64ProgramHeaderSummary {
                    table_position: program_header_table_position,
                    entry_size: program_header_entry_size,
                    entry_count: program_header_entry_count,
                },
            )
        };
        Self {
            endianness,
            header_version,
            os_abi,
            elf_type,
            instruction_set,
            elf_version,
            program_entry_position,
            program_header_summary,
            section_header_summary: Elf64SectionHeaderSummary {
                table_position: section_header_table_position,
                entry_size: section_header_entry_size,
                entry_count: section_header_entry_count,
                names_index: section_names_index,
            },
        }
    }

    /// The header that a buffer decodes to.
    ///
    /// A buffer that cannot hold the whole fixed header is truncated. In a
    /// buffer that can, the byte order is decoded first, then the file type,
    /// then the instruction set; the first tag that is not recognised is the
    /// failure. Every other field is taken as it stands.
    pub open spec fn spec_from_bytes(bytes: Seq<u8>) -> Result<Self, ElfParseError> {
        if bytes.len() < HEADER_SIZE {
            Err(ElfParseError::FailedToParseValue)
        } else {
            match Endian::spec_from_byte(bytes[ENDIANNESS_INDEX as int]) {
                Err(e) => Err(e),
                Ok(endianness) => match ElfType::spec_try_from(
                    endianness.u16_value(bytes, ELF_TYPE_INDEX as int) as u16,
                ) {
                    Err(e) => Err(e),
                    Ok(elf_type) => match InstructionSet::spec_try_from(
                        endianness.u16_value(bytes, INSTRUCTION_SET_INDEX as int) as u16,
                    ) {
                        Err(e) => Err(e),
                        Ok(instruction_set) => Ok(
                            Self::spec_new(
                                endianness,
                                bytes[HEADER_VERSION_INDEX as int],
                                bytes[OS_ABI_INDEX as int],
                                elf_type,
                                instruction_set,
                                endianness.u32_value(bytes, ELF_VERSION_INDEX as int) as u32,
                                endianness.u64_value(bytes, PROGRAM_ENTRY_INDEX as int) as u64,
                                endianness.u64_value(bytes, PROG_HEADER_TABLE_POS_INDEX as int) as u64,
                                endianness.u16_value(bytes, PROG_HEADER_ENTRY_SIZE_INDEX as int) as u16,
                                endianness.u16_value(bytes, PROG_HEADER_ENTRY_COUNT_INDEX as int) as u16,
                                endianness.u64_value(bytes, SECTION_HEADER_TABLE_POS_INDEX as int) as u64,
                                endianness.u16_value(bytes, SECTION_HEADER_ENTRY_SIZE_INDEX as int) as u16,
                                endianness.u16_value(bytes, SECTION_HEADER_ENTRY_COUNT_INDEX as int) as u16,
                                endianness.u16_value(bytes, SECTION_HEADER_NAMES_INDEX_INDEX as int) as u16,
                            ),
                        ),
                    },
                },
            }
        }
    }

    /// Decodes the fixed header at the start of `file_bytes`.
    pub fn from_bytes(file_bytes: &[u8]) -> (result: Result<Self, ElfParseError>)
        ensures
            result == Self::spec_from_bytes(file_bytes@),
            file_bytes@.len() < HEADER_SIZE ==> result == Err::<Self, ElfParseError>(
                ElfParseError::FailedToParseValue,
            ),
    {
        if file_bytes.len() < HEADER_SIZE {
            return Err(ElfParseError::FailedToParseValue);
        }
        let endianness = Endian::from_byte(file_bytes[ENDIANNESS_INDEX])?;
        let elf_type = ElfType::try_from(endianness.get_u16_at(file_bytes, ELF_TYPE_INDEX)?)?;
        let instruction_set = InstructionSet::try_from(
            endianness.get_u16_at(file_bytes, INSTRUCTION_SET_INDEX)?,
        )?;
        let program_entry_position = endianness.get_u64_at(file_bytes, PROGRAM_ENTRY_INDEX)?;
        Ok(
            Self::new(
                endianness,
                file_bytes[HEADER_VERSION_INDEX],
                file_bytes[OS_ABI_INDEX],
                elf_type,
                instruction_set,
                endianness.get_u32_at(file_bytes, ELF_VERSION_INDEX)?,
                program_entry_position,
                endianness.get_u64_at(file_bytes, PROG_HEADER_TABLE_POS_INDEX)?,
                endianness.get_u16_at(file_bytes, PROG_HEADER_ENTRY_SIZE_INDEX)?,
                endianness.get_u16_at(file_bytes, PROG_HEADER_ENTRY_COUNT_INDEX)?,
                endianness.get_u64_at(file_bytes, SECTION_HEADER_TABLE_POS_INDEX)?,
                endianness.get_u16_at(file_bytes, SECTION_HEADER_ENTRY_SIZE_INDEX)?,
                endianness.get_u16_at(file_bytes, SECTION_HEADER_ENTRY_COUNT_INDEX)?,
                endianness.get_u16_at(file_bytes, SECTION_HEADER_NAMES_INDEX_INDEX)?,
            ),
        )
    }
}

/// One entry of the program-header table: a segment to map into memory.
#[derive(Debug, Clone, Copy, PartialEq, Eq)]
pub struct Elf64ProgramHeader {
    pub segment_type: ProgramSegmentType,
    pub flags: ProgramHeaderFlags,
    /// Offset in the file at which the segment's data starts.
    pub p_offset: u64,
    /// Virtual address at which the segment is to be placed.
    pub p_vaddr: u64,
    /// Size of the segment in the file.
    pub p_filesz: u64,
    /// Size of the segment in memory. Where it exceeds the size in the file,
    /// the bytes in between are to be cleared by whoever loads the segment.
    pub p_memsz: u64,
    /// Required alignment: zero, one or a power of two.
    pub alignment: u64,
}

impl Elf64ProgramHeader {
    pub fn new(
        segment_type: ProgramSegmentType,
        flags: ProgramHeaderFlags,
        p_offset: u64,
        p_vaddr: u64,
        p_filesz: u64,
        p_memsz: u64,
        alignment: u64,
    ) -> (result: Self)
        ensures
            result == (Elf64ProgramHeader {
                segment_type,
                flags,
                p_offset,
                p_vaddr,
                p_filesz,
                p_memsz,
                alignment,
            }),
    {
        Self { segment_type, flags, p_offset, p_vaddr, p_filesz, p_memsz, alignment }
    }
}

impl ProgramHeaderEntry for Elf64ProgramHeader {
    open spec fn spec_entry_len() -> int {
        PROGRAM_HEADER_LEN as int
    }

    open spec fn spec_offset_limit() -> int {
        u64::MAX as int
    }

    /// Type at 0, flags at 4, file offset at 8, virtual address at 16, size
    /// in file at 32, size in memory at 40, alignment at 48.
    open spec fn spec_decode(endianness: Endian, data: Seq<u8>, at: int) -> Self {
        Elf64ProgramHeader {
            segment_type: ProgramSegmentType::spec_from(endianness.u32_value(data, at) as u32),
            flags: ProgramHeaderFlags::spec_from(endianness.u32_value(data, at + 4) as u32),
            p_offset: endianness.u64_value(data, at + 8) as u64,
            p_vaddr: endianness.u64_value(data, at + 16) as u64,
            p_filesz: endianness.u64_value(data, at + 32) as u64,
            p_memsz: endianness.u64_value(data, at + 40) as u64,
            alignment: endianness.u64_value(data, at + 48) as u64,
        }
    }

    open spec fn spec_segment_type(&self) -> ProgramSegmentType {
        self.segment_type
    }

    open spec fn spec_alignment(&self) -> int {
        self.alignment as int
    }

    fn offset_limit() -> (result: u64) {
        u64::MAX
    }

    fn decode(endianness: &Endian, data: &[u8], at: usize) -> (result: Result<Self, ElfParseError>) {
        let len = data.len();
        if at > len || len - at < PROGRAM_HEADER_LEN {
            return Err(ElfParseError::FailedToParseValue);
        }
        let segment_type = ProgramSegmentType::from(endianness.get_u32_at(data, at)?);
        let flags = ProgramHeaderFlags::from(endianness.get_u32_at(data, at + 4)?);
        Ok(
            Elf64ProgramHeader {
                segment_type,
                flags,
                p_offset: endianness.get_u64_at(data, at + 8)?,
                p_vaddr: endianness.get_u64_at(data, at + 16)?,
                p_filesz: endianness.get_u64_at(data, at + 32)?,
                p_memsz: endianness.get_u64_at(data, at + 40)?,
                alignment: endianness.get_u64_at(data, at + 48)?,
            },
        )
    }

    fn segment_type(&self) -> (result: ProgramSegmentType) {
        self.segment_type
    }

    fn alignment(&self) -> (result: u64) {
        self.alignment
    }
}

/// A traversal of the program-header table of a 64-bit file.
///
/// Entries are decoded on demand. The traversal remembers how far it has
/// come and whether it has yielded a program-header-table segment.
#[derive(Debug, PartialEq, Eq)]
pub struct Elf64ProgramHeaderIterator<'a> {
    current_index: u16,
    data: &'a [u8],
    endianness: &'a Endian,
    header_summary: &'a Elf64ProgramHeaderSummary,
    program_header_entry_seen: bool,
}

impl<'a> Elf64ProgramHeaderIterator<'a> {
    /// The buffer that the entries are decoded from.
    pub closed spec fn data(&self) -> Seq<u8> {
        self.data@
    }

    pub closed spec fn endianness(&self) -> Endian {
        *self.endianness
    }

    pub closed spec fn summary(&self) -> Elf64ProgramHeaderSummary {
        *self.header_summary
    }

    /// Index of the entry that the next step decodes.
    pub closed spec fn index(&self) -> int {
        self.current_index as int
    }

    /// Whether a program-header-table segment has been yielded.
    pub closed spec fn table_entry_seen(&self) -> bool {
        self.program_header_entry_seen
    }

    /// Whether this is a traversal of the table `summary` in `data` that has
    /// not yielded anything yet.
    pub open spec fn starts(
        &self,
        data: Seq<u8>,
        endianness: Endian,
        summary: Elf64ProgramHeaderSummary,
    ) -> bool {
        &&& self.data() == data
        &&& self.endianness() == endianness
        &&& self.summary() == summary
        &&& self.index() == 0
        &&& !self.table_entry_seen()
    }

    /// What the next step yields if there is an entry left, and whether a
    /// program-header-table segment has been yielded after it.
    pub open spec fn spec_step(&self) -> (Result<Elf64ProgramHeader, ElfParseError>, bool) {
        spec_validate_entry::<Elf64ProgramHeader>(
            self.endianness(),
            self.data(),
            self.summary().spec_entry_position(self.index()),
            self.table_entry_seen(),
        )
    }

    /// Everything that this traversal has yet to yield, in order.
    pub open spec fn remaining(&self) -> Seq<Result<Elf64ProgramHeader, ElfParseError>> {
        self.summary().spec_entries(
            self.endianness(),
            self.data(),
            self.index(),
            self.table_entry_seen(),
        )
    }

    /// Starts a traversal at the first entry of the table.
    pub fn new(
        data: &'a [u8],
        endianness: &'a Endian,
        header_summary: &'a Elf64ProgramHeaderSummary,
    ) -> (result: Self)
        ensures
            result.starts(data@, *endianness, *header_summary),
    {
        Self {
            current_index: 0,
            data,
            endianness,
            header_summary,
            program_header_entry_seen: false,
        }
    }

    /// Decodes and validates the next entry, if one is left.
    ///
    /// Past the last entry nothing is yielded and nothing changes. Before
    /// that, the traversal moves on by one entry whatever the entry yields,
    /// so a failure concerns that entry alone.
    pub fn next(&mut self) -> (result: Option<Result<Elf64ProgramHeader, ElfParseError>>)
        ensures
            final(self).data() == old(self).data(),
            final(self).endianness() == old(self).endianness(),
            final(self).summary() == old(self).summary(),
            old(self).index() >= old(self).summary().entry_count ==> {
                &&& result is None
                &&& final(self).index() == old(self).index()
                &&& final(self).table_entry_seen() == old(self).table_entry_seen()
            },
            old(self).index() < old(self).summary().entry_count ==> {
                &&& result == Some(old(self).spec_step().0)
                &&& final(self).index() == old(self).index() + 1
                &&& final(self).table_entry_seen() == old(self).spec_step().1
            },
            old(self).remaining() == match result {
                None => Seq::empty(),
                Some(entry) => seq![entry] + final(self).remaining(),
            },
    {
        proof {
            assert(self.data.len() == self.data@.len());
        }
        match self.header_summary.byte_offset(self.current_index) {
            None => None,
            Some(offset) => {
                let entry = match offset {
                    Err(e) => Err(e),
                    Ok(at) => {
                        let (entry, seen) = validate_entry::<Elf64ProgramHeader>(
                            self.endianness,
                            self.data,
                            at,
                            self.program_header_entry_seen,
                        );
                        self.program_header_entry_seen = seen;
                        entry
                    },
                };
                self.current_index = self.current_index + 1;
                Some(entry)
            },
        }
    }

    /// Runs the traversal to its end and returns what it yields on the way.
    pub fn collect(&mut self) -> (result: Vec<Result<Elf64ProgramHeader, ElfParseError>>)
        ensures
            result@ == old(self).remaining(),
            final(self).remaining().len() == 0,
            final(self).data() == old(self).data(),
            final(self).endianness() == old(self).endianness(),
            final(self).summary() == old(self).summary(),
    {
        let mut entries: Vec<Result<Elf64ProgramHeader, ElfParseError>> = Vec::new();
        loop
            invariant
                entries@ + self.remaining() == old(self).remaining(),
                self.data() == old(self).data(),
                self.endianness() == old(self).endianness(),
                self.summary() == old(self).summary(),
            ensures
                self.remaining().len() == 0,
            decreases self.remaining().len(),
        {
            let ghost before = self.remaining();
            match self.next() {
                None => {
                    break ;
                },
                Some(entry) => {
                    entries.push(entry);
                    assert(entries@ + self.remaining() == old(self).remaining()) by {
                        assert(before == seq![entry] + self.remaining());
                        assert(entries@ + self.remaining() =~= entries@.drop_last() + before);
                    }
                },
            }
        }
        entries
    }

    /// Runs the traversal to its end and tells how many results it yields
    /// on the way.
    pub fn count(self) -> (result: usize)
        ensures
            result == self.remaining().len(),
    {
        let mut headers = self;
        headers.collect().len()
    }
}

/// A 64-bit file: the buffer together with its decoded header.
#[derive(Debug, Clone, Copy, PartialEq, Eq)]
pub struct Elf64File<'a> {
    file_bytes: &'a [u8],
    header: Elf64Header,
}

impl<'a> Elf64File<'a> {
    /// The bytes of the file.
    pub closed spec fn bytes(&self) -> Seq<u8> {
        self.file_bytes@
    }

    /// The header of the file.
    pub closed spec fn spec_header(&self) -> Elf64Header {
        self.header
    }

    /// The header that a candidate file decodes to with the 64-bit decoder:
    /// the file is classified first, a file of the other width is refused,
    /// and then the fixed header is decoded.
    pub open spec fn spec_parse(bytes: Seq<u8>) -> Result<Elf64Header, ElfParseError> {
        match ElfFileClass::spec_from_bytes(bytes) {
            Err(e) => Err(e),
            Ok(class) => if class != ElfFileClass::Elf64 {
                Err(ElfParseError::WrongElfClass)
            } else {
                Elf64Header::spec_from_bytes(bytes)
            },
        }
    }

    /// A file is held only together with the header that its bytes decode
    /// to.
    #[verifier::type_invariant]
    spec fn decoded(&self) -> bool {
        Self::spec_parse(self.file_bytes@) == Ok::<Elf64Header, ElfParseError>(self.header)
    }

    /// Decodes a candidate file.
    pub fn from_bytes(file_bytes: &'a [u8]) -> (result: Result<Self, ElfParseError>)
        ensures
            match result {
                Ok(file) => Self::spec_parse(file_bytes@) == Ok::<Elf64Header, ElfParseError>(
                    file.spec_header(),
                ) && file.bytes() == file_bytes@,
                Err(e) => Self::spec_parse(file_bytes@) == Err::<Elf64Header, ElfParseError>(e),
            },
            !spec_is_elf_file(file_bytes@) ==> (result matches Err(e) && e
                == ElfParseError::NotValidElfFile),
    {
        let class = ElfFileClass::from_bytes(file_bytes)?;
        match class {
            ElfFileClass::Elf32 => Err(ElfParseError::WrongElfClass),
            ElfFileClass::Elf64 => Ok(Self { file_bytes, header: Self::parse_header(file_bytes)? }),
        }
    }

    /// Decodes the fixed header of a file that has been classified.
    pub fn parse_header(file_bytes: &'a [u8]) -> (result: Result<Elf64Header, ElfParseError>)
        ensures
            result == Elf64Header::spec_from_bytes(file_bytes@),
            file_bytes@.len() < HEADER_SIZE ==> result == Err::<Elf64Header, ElfParseError>(
                ElfParseError::FailedToParseValue,
            ),
    {
        Elf64Header::from_bytes(file_bytes)
    }

    /// The decoded header: the one that the bytes of the file decode to.
    pub fn header(&self) -> (result: &Elf64Header)
        ensures
            *result == self.spec_header(),
            Self::spec_parse(self.bytes()) == Ok::<Elf64Header, ElfParseError>(*result),
    {
        proof {
            use_type_invariant(self);
        }
        &self.header
    }

    /// The buffer that the file was decoded from.
    pub fn file_bytes(&self) -> (result: &'a [u8])
        ensures
            result@ == self.bytes(),
    {
        self.file_bytes
    }

    /// A fresh traversal of the program-header table, or nothing where the
    /// file has no such table.
    pub fn program_headers(&self) -> (result: Option<Elf64ProgramHeaderIterator>)
        ensures
            match self.spec_header().program_header_summary {
                None => result is None,
                Some(summary) => result matches Some(headers) && headers.starts(
                    self.bytes(),
                    self.spec_header().endianness,
                    summary,
                ),
            },
    {
        match &self.header.program_header_summary {
            None => None,
            Some(header_summary) => Some(
                Elf64ProgramHeaderIterator::new(
                    self.file_bytes,
                    &self.header.endianness,
                    header_summary,
                ),
            ),
        }
    }

    /// A fresh traversal of the section-header table. It always succeeds.
    pub fn section_headers(&self) -> (result: Result<SectionHeaderIterator, ElfParseError>)
        ensures
            result matches Ok(headers) && headers.starts(
                self.bytes(),
                self.spec_header().endianness,
                self.spec_header().section_header_summary,
            ),
    {
        SectionHeaderIterator::new(
            self.file_bytes,
            self.header.endianness,
            &self.header.section_header_summary,
        )
    }
}

/// Decoding all program headers of a file that decodes yields as many
/// results as the header declares entries, and at most one of them is a
/// program-header-table segment.
pub proof fn lemma_file_program_headers(bytes: Seq<u8>)
    requires
        Elf64File::spec_parse(bytes) matches Ok(header) && header.program_header_summary is Some,
    ensures
        ({
            let header = Elf64File::spec_parse(bytes)->Ok_0;
            let summary = header.program_header_summary->Some_0;
            let entries = summary.spec_entries(header.endianness, bytes, 0, false);
            &&& summary.entry_count == header.endianness.u16_value(
                bytes,
                PROG_HEADER_ENTRY_COUNT_INDEX as int,
            )
            &&& entries.len() == summary.entry_count
            &&& forall|i: int, j: int|
                0 <= i < j < entries.len() ==> !(is_table_entry(#[trigger] entries[i])
                    && is_table_entry(#[trigger] entries[j]))
        }),
{
    let header = Elf64File::spec_parse(bytes)->Ok_0;
    lemma_program_headers_count(bytes, header.endianness, header.program_header_summary->Some_0);
}

/// A traversal of a table yields as many results as the table declares
/// entries, whatever the buffer holds, and at most one of them is a
/// program-header-table segment.
pub proof fn lemma_program_headers_count(
    data: Seq<u8>,
    endianness: Endian,
    summary: Elf64ProgramHeaderSummary,
)
    ensures
        ({
            let entries = summary.spec_entries(endianness, data, 0, false);
            &&& entries.len() == summary.entry_count
            &&& forall|i: int, j: int|
                0 <= i < j < entries.len() ==> !(is_table_entry(#[trigger] entries[i])
                    && is_table_entry(#[trigger] entries[j]))
        }),
{
    lemma_entries_len::<Elf64ProgramHeader>(
        endianness,
        data,
        summary.table_position as int,
        summary.entry_size as int,
        summary.entry_count as int,
        0,
        false,
    );
    lemma_entries_hold_one_table_entry::<Elf64ProgramHeader>(
        endianness,
        data,
        summary.table_position as int,
        summary.entry_size as int,
        summary.entry_count as int,
        0,
        false,
    );
}

/// Every program header that a traversal yields has an alignment of zero,
/// one or a power of two. An entry whose alignment is anything else is the
/// alignment failure, and it alone: the results of the other entries do not
/// depend on it.
pub proof fn lemma_program_headers_aligned(
    data: Seq<u8>,
    endianness: Endian,
    summary: Elf64ProgramHeaderSummary,
    i: int,
)
    requires
        0 <= i < summary.entry_count,
    ensures
        ({
            let entry = summary.spec_entries(endianness, data, 0, false)[i];
            let at = summary.spec_entry_position(i);
            let header = Elf64ProgramHeader::spec_decode(endianness, data, at);
            &&& entry matches Ok(yielded) ==> yielded == header && alignment_is_valid(
                yielded.alignment as int,
            )
            &&& entry == Err::<Elf64ProgramHeader, ElfParseError>(
                ElfParseError::InvalidProgramHeaderAlignment,
            ) <==> entry_in_bounds::<Elf64ProgramHeader>(data, at) && !alignment_is_valid(
                header.alignment as int,
            )
        }),
{
    lemma_entry_failures_are_local::<Elf64ProgramHeader>(
        endianness,
        data,
        summary.table_position as int,
        summary.entry_size as int,
        summary.entry_count as int,
        0,
        false,
        i,
    );
}

/// Two traversals started on the same table of the same buffer yield the
/// same results in the same order.
pub proof fn lemma_program_headers_restart(
    first: Elf64ProgramHeaderIterator,
    second: Elf64ProgramHeaderIterator,
    data: Seq<u8>,
    endianness: Endian,
    summary: Elf64ProgramHeaderSummary,
)
    requires
        first.starts(data, endianness, summary),
        second.starts(data, endianness, summary),
    ensures
        first.remaining() == second.remaining(),
        first.remaining() == summary.spec_entries(endianness, data, 0, false),
{
}

} // verus!
