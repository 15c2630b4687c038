//! The section-header table of a 64-bit file.

use crate::elf::elf64::Elf64SectionHeaderSummary;
use crate::elf::{in_bounds, ElfParseError, Endian};
use std::vec::Vec;
use vstd::prelude::*;

verus! {

/// First and last tag of the range kept for operating systems.
pub const OS_SPECIFIC_FIRST: u32 = 0x6000_0000;

pub const OS_SPECIFIC_LAST: u32 = 0x6FFF_FFFF;

/// First and last tag of the range kept for processors.
pub const PROCESSOR_SPECIFIC_FIRST: u32 = 0x7000_0000;

pub const PROCESSOR_SPECIFIC_LAST: u32 = 0x7FFF_FFFF;

/// First tag of the range kept for applications; it runs to the largest tag.
pub const USER_SPECIFIC_FIRST: u32 = 0x8000_0000;

/// Number of bytes of one section header.
pub const SECTION_HEADER_LEN: usize = 64;

/// Number of bytes from the start of a section header to the end of its
/// type tag.
pub const SECTION_TYPE_END: usize = 8;

/// What a section holds.
#[derive(Debug, Clone, Copy, PartialEq, Eq)]
pub enum SectionHeaderType {
    /// The header is inactive and has no section.
    Null,
    /// Information whose format and meaning the program alone determines.
    ProgramBits,
    /// The complete symbol table, as used for link editing.
    SymbolTable,
    /// A string table.
    StringTable,
    /// Relocation entries with explicit addends.
    RelA,
    /// A symbol hash table.
    Hash,
    /// Information for dynamic linking.
    Dynamic,
    /// Information that marks the file in some way.
    Note,
    /// Occupies no space in the file but otherwise resembles `ProgramBits`.
    NoBits,
    /// Relocation entries without explicit addends.
    Rel,
    /// Reserved, with unspecified semantics.
    ShLib,
    /// The minimal set of symbols that dynamic linking needs.
    DynamicSymbols,
    /// An array of pointers to initialization functions.
    InitArray,
    /// An array of pointers to termination functions.
    FinishArray,
    /// An array of pointers to functions that run before all other
    /// initialization functions.
    PreinitArray,
    /// A section group.
    Group,
    /// Section header indexes for the symbols of a symbol table.
    SymbolTableSectionHeaderIndex,
    /// A tag from 0x60000000 to 0x6fffffff, kept for operating systems.
    OperatingSystemSpecific(u32),
    /// A tag from 0x70000000 to 0x7fffffff, kept for processors.
    ProcessorSpecific(u32),
    /// A tag from 0x80000000 to 0xffffffff, kept for applications.
    UserApplicationSpecific(u32),
}

impl SectionHeaderType {
    /// The section type that a raw tag stands for. The named types come
    /// first, then the three ranges that pass their tag through; a tag that
    /// is neither is a failure that carries it.
    pub open spec fn spec_try_from(value: u32) -> Result<Self, ElfParseError> {
        if value == 0 {
            Ok(Self::Null)
        } else if value == 1 {
            Ok(Self::ProgramBits)
        } else if value == 2 {
            Ok(Self::SymbolTable)
        } else if value == 3 {
            Ok(Self::StringTable)
        } else if value == 4 {
            Ok(Self::RelA)
        } else if value == 5 {
            Ok(Self::Hash)
        } else if value == 6 {
            Ok(Self::Dynamic)
        } else if value == 7 {
            Ok(Self::Note)
        } else if value == 8 {
            Ok(Self::NoBits)
        } else if value == 9 {
            Ok(Self::Rel)
        } else if value == 10 {
            Ok(Self::ShLib)
        } else if value == 11 {
            Ok(Self::DynamicSymbols)
        } else if value == 14 {
            Ok(Self::InitArray)
        } else if value == 15 {
            Ok(Self::FinishArray)
        } else if value == 16 {
            Ok(Self::PreinitArray)
        } else if value == 17 {
            Ok(Self::Group)
        } else if value == 18 {
            Ok(Self::SymbolTableSectionHeaderIndex)
        } else if OS_SPECIFIC_FIRST <= value <= OS_SPECIFIC_LAST {
            Ok(Self::OperatingSystemSpecific(value))
        } else if PROCESSOR_SPECIFIC_FIRST <= value <= PROCESSOR_SPECIFIC_LAST {
            Ok(Self::ProcessorSpecific(value))
        } else if USER_SPECIFIC_FIRST <= value {
            Ok(Self::UserApplicationSpecific(value))
        } else {
            Err(ElfParseError::InvalidSectionHeaderType(value))
        }
    }

    /// Decodes the type tag of a section header.
    pub fn try_from(value: u32) -> (result: Result<Self, ElfParseError>)
        ensures
            result == Self::spec_try_from(value),
    {
        match value {
            0 => Ok(Self::Null),
            1 => Ok(Self::ProgramBits),
            2 => Ok(Self::SymbolTable),
            3 => Ok(Self::StringTable),
            4 => Ok(Self::RelA),
            5 => Ok(Self::Hash),
            6 => Ok(Self::Dynamic),
            7 => Ok(Self::Note),
            8 => Ok(Self::NoBits),
            9 => Ok(Self::Rel),
            10 => Ok(Self::ShLib),
            11 => Ok(Self::DynamicSymbols),
            14 => Ok(Self::InitArray),
            15 => Ok(Self::FinishArray),
            16 => Ok(Self::PreinitArray),
            17 => Ok(Self::Group),
            18 => Ok(Self::SymbolTableSectionHeaderIndex),
            _ => {
                if OS_SPECIFIC_FIRST <= value && value <= OS_SPECIFIC_LAST {
                    Ok(Self::OperatingSystemSpecific(value))
                } else if PROCESSOR_SPECIFIC_FIRST <= value && value <= PROCESSOR_SPECIFIC_LAST {
                    Ok(Self::ProcessorSpecific(value))
                } else if USER_SPECIFIC_FIRST <= value {
                    Ok(Self::UserApplicationSpecific(value))
                } else {
                    Err(ElfParseError::InvalidSectionHeaderType(value))
                }
            },
        }
    }
}

/// The attributes of a section: a set of bits of a 64-bit word.
///
/// Only the named bits and the bits of the two kept masks are ever held;
/// [`SectionHeaderFlags::from_bits_truncate`] drops all others.
#[derive(Debug, Clone, Copy, PartialEq, Eq)]
pub struct SectionHeaderFlags {
    bits: u64,
}

impl SectionHeaderFlags {
    /// The section holds data that is writable during execution.
    pub const WRITE: u64 = 0x1;

    /// The section occupies memory during execution.
    pub const ALLOC: u64 = 0x2;

    /// The section holds executable machine instructions.
    pub const EXECUTABLE_INSTRUCTIONS: u64 = 0x4;

    /// The data of the section may be merged to eliminate duplication.
    pub const MERGE: u64 = 0x10;

    /// The section consists of null-terminated character strings.
    pub const STRINGS: u64 = 0x20;

    /// The `info` field of the section header holds a section header index.
    pub const INFO_LINK: u64 = 0x40;

    /// The section must keep its place relative to the section it links to.
    pub const LINK_ORDER: u64 = 0x80;

    /// The section needs processing that is specific to the operating system.
    pub const OS_NONCONFORMING: u64 = 0x100;

    /// The section is a member of a section group.
    pub const GROUP: u64 = 0x200;

    /// The section holds thread-local storage.
    pub const TLS: u64 = 0x400;

    /// The data of the section is compressed.
    pub const COMPRESSED: u64 = 0x800;

    /// The bits kept for operating systems.
    pub const OS_SPECIFIC_MASK: u64 = 0xFF00_0000;

    /// The bits kept for processors.
    pub const PROCESSOR_SPECIFIC_MASK: u64 = 0xF000_0000;

    /// Every bit that has a name or lies in one of the two kept masks.
    pub const ALL: u64 = 0xFF00_0FF7;

    /// The word that holds the bits of this set.
    pub closed spec fn spec_bits(&self) -> u64 {
        self.bits
    }

    /// Whether every bit of `other` is in this set.
    pub open spec fn spec_contains(&self, other: SectionHeaderFlags) -> bool {
        self.spec_bits() & other.spec_bits() == other.spec_bits()
    }

    /// The set that a raw flag word denotes: its bits that no flag claims
    /// are dropped.
    pub closed spec fn spec_from_bits_truncate(bits: u64) -> SectionHeaderFlags {
        SectionHeaderFlags { bits: bits & Self::ALL }
    }

    /// The word that holds the bits of this set.
    pub fn bits(&self) -> (result: u64)
        ensures
            result == self.spec_bits(),
    {
        self.bits
    }

    /// The set without any bit.
    pub fn empty() -> (result: Self)
        ensures
            result.spec_bits() == 0,
    {
        Self { bits: 0 }
    }

    /// The set of all bits that a flag claims.
    pub fn all() -> (result: Self)
        ensures
            result.spec_bits() == Self::ALL,
    {
        Self { bits: Self::ALL }
    }

    /// Makes a set from a raw flag word, dropping the bits that no flag
    /// claims.
    pub fn from_bits_truncate(bits: u64) -> (result: Self)
        ensures
            result == Self::spec_from_bits_truncate(bits),
            result.spec_bits() == bits & Self::ALL,
    {
        Self { bits: bits & Self::ALL }
    }

    /// Tells whether every bit of `other` is in this set.
    pub fn contains(&self, other: SectionHeaderFlags) -> (result: bool)
        ensures
            result == self.spec_contains(other),
    {
        self.bits & other.bits == other.bits
    }

    /// The set of the bits that are in this set or in `other`.
    pub fn union(self, other: SectionHeaderFlags) -> (result: Self)
        ensures
            result.spec_bits() == self.spec_bits() | other.spec_bits(),
    {
        Self { bits: self.bits | other.bits }
    }
}

/// The bits that a flag claims are those of the named flags and of the two
/// kept masks, and no others.
pub proof fn lemma_all_flags()
    ensures
        SectionHeaderFlags::ALL == SectionHeaderFlags::WRITE | SectionHeaderFlags::ALLOC
            | SectionHeaderFlags::EXECUTABLE_INSTRUCTIONS | SectionHeaderFlags::MERGE
            | SectionHeaderFlags::STRINGS | SectionHeaderFlags::INFO_LINK
            | SectionHeaderFlags::LINK_ORDER | SectionHeaderFlags::OS_NONCONFORMING
            | SectionHeaderFlags::GROUP | SectionHeaderFlags::TLS | SectionHeaderFlags::COMPRESSED
            | SectionHeaderFlags::OS_SPECIFIC_MASK | SectionHeaderFlags::PROCESSOR_SPECIFIC_MASK,
{
    assert(0xFF00_0FF7u64 == 0x1u64 | 0x2u64 | 0x4u64 | 0x10u64 | 0x20u64 | 0x40u64 | 0x80u64
        | 0x100u64 | 0x200u64 | 0x400u64 | 0x800u64 | 0xFF00_0000u64 | 0xF000_0000u64)
        by (bit_vector);
}

/// What truncation keeps: of a raw flag word exactly the bits that a flag
/// claims survive, so a flag is in the set if and only if all its bits are
/// set in the word, and no other bit is ever observable.
pub proof fn lemma_truncation_keeps_claimed_bits(bits: u64, flag: u64)
    requires
        flag & SectionHeaderFlags::ALL == flag,
    ensures
        SectionHeaderFlags::spec_from_bits_truncate(bits).spec_bits() == bits
            & SectionHeaderFlags::ALL,
        SectionHeaderFlags::spec_from_bits_truncate(bits).spec_bits() & !SectionHeaderFlags::ALL
            == 0,
        SectionHeaderFlags::spec_from_bits_truncate(bits).spec_contains(
            SectionHeaderFlags::spec_from_bits_truncate(flag),
        ) == (bits & flag == flag),
{
    let all = SectionHeaderFlags::ALL;
    assert((bits & all) & !all == 0) by (bit_vector);
    assert(((bits & all) & (flag & all) == (flag & all)) == (bits & flag == flag)) by (bit_vector)
        requires
            flag & all == flag,
    ;
}

/// The value of a field in which zero stands for "absent".
pub open spec fn spec_nonzero_u64(value: u64) -> Option<u64> {
    if value == 0 {
        None
    } else {
        Some(value)
    }
}

/// The value of a field in which zero stands for "absent".
pub open spec fn spec_nonzero_u32(value: u32) -> Option<u32> {
    if value == 0 {
        None
    } else {
        Some(value)
    }
}

fn nonzero_u64(value: u64) -> (result: Option<u64>)
    ensures
        result == spec_nonzero_u64(value),
{
    if value == 0 {
        None
    } else {
        Some(value)
    }
}

fn nonzero_u32(value: u32) -> (result: Option<u32>)
    ensures
        result == spec_nonzero_u32(value),
{
    if value == 0 {
        None
    } else {
        Some(value)
    }
}

/// One entry of the section-header table.
#[derive(Debug, Clone, Copy, PartialEq, Eq)]
pub struct SectionHeader {
    /// Index of the section's name in the section-name string table.
    pub name_index: u32,
    pub header_type: SectionHeaderType,
    pub flags: SectionHeaderFlags,
    /// Address of the section's first byte in the memory image, if the
    /// section appears there.
    pub address: Option<u64>,
    /// Offset of the section's first byte in the file.
    pub section_file_offset: u64,
    /// Number of bytes of the section.
    pub section_size: u64,
    /// Index of a linked section, whose meaning depends on the type.
    pub section_link_index: Option<u32>,
    /// Extra information, whose meaning depends on the type.
    pub info: Option<u32>,
    /// Alignment of the section's address. It is advisory and not validated.
    pub address_alignment: u64,
    /// Size of one entry, for a section that holds a table of fixed-size
    /// entries.
    pub section_entry_size: Option<u64>,
}

impl SectionHeader {
    pub fn new(
        name_index: u32,
        header_type: SectionHeaderType,
        flags: SectionHeaderFlags,
        address: Option<u64>,
        section_file_offset: u64,
        section_size: u64,
        section_link_index: Option<u32>,
        info: Option<u32>,
        address_alignment: u64,
        section_entry_size: Option<u64>,
    ) -> (result: Self)
        ensures
            result == (SectionHeader {
                name_index,
                header_type,
                flags,
                address,
                section_file_offset,
                section_size,
                section_link_index,
                info,
                address_alignment,
                section_entry_size,
            }),
    {
        Self {
            name_index,
            header_type,
            flags,
            address,
            section_file_offset,
            section_size,
            section_link_index,
            info,
            address_alignment,
            section_entry_size,
        }
    }

    /// The section header that the bytes at `at` decode to.
    ///
    /// The name index and the type tag are read first, and a tag that is not
    /// recognised is the failure even where the rest of the entry is cut
    /// off. Name index at 0, type at 4, flags at 8, address at 16, file
    /// offset at 24, size at 32, link at 40, info at 44, alignment at 48,
    /// entry size at 56; in address, link, info and entry size zero stands
    /// for "absent".
    pub open spec fn spec_decode(endianness: Endian, data: Seq<u8>, at: int) -> Result<
        Self,
        ElfParseError,
    > {
        if !in_bounds(data, at, SECTION_TYPE_END as int) {
            Err(ElfParseError::FailedToParseValue)
        } else {
            match SectionHeaderType::spec_try_from(endianness.u32_value(data, at + 4) as u32) {
                Err(e) => Err(e),
                Ok(header_type) => if !in_bounds(data, at, SECTION_HEADER_LEN as int) {
                    Err(ElfParseError::FailedToParseValue)
                } else {
                    Ok(
                        SectionHeader {
                            name_index: endianness.u32_value(data, at) as u32,
                            header_type,
                            flags: SectionHeaderFlags::spec_from_bits_truncate(
                                endianness.u64_value(data, at + 8) as u64,
                            ),
                            address: spec_nonzero_u64(endianness.u64_value(data, at + 16) as u64),
                            section_file_offset: endianness.u64_value(data, at + 24) as u64,
                            section_size: endianness.u64_value(data, at + 32) as u64,
                            section_link_index: spec_nonzero_u32(
                                endianness.u32_value(data, at + 40) as u32,
                            ),
                            info: spec_nonzero_u32(endianness.u32_value(data, at + 44) as u32),
                            address_alignment: endianness.u64_value(data, at + 48) as u64,
                            section_entry_size: spec_nonzero_u64(
                                endianness.u64_value(data, at + 56) as u64,
                            ),
                        },
                    )
                },
            }
        }
    }

    /// Decodes the section header that starts at byte `at` of `data`.
    pub fn from_bytes(endianness: &Endian, data: &[u8], at: usize) -> (result: Result<
        Self,
        ElfParseError,
    >)
        ensures
            result == Self::spec_decode(*endianness, data@, at as int),
    {
        let len = data.len();
        if at > len || len - at < SECTION_TYPE_END {
            return Err(ElfParseError::FailedToParseValue);
        }
        let name_index = endianness.get_u32_at(data, at)?;
        let header_type = SectionHeaderType::try_from(endianness.get_u32_at(data, at + 4)?)?;
        if len - at < SECTION_HEADER_LEN {
            return Err(ElfParseError::FailedToParseValue);
        }
        let flags = endianness.get_u64_at(data, at + 8)?;
        let address = nonzero_u64(endianness.get_u64_at(data, at + 16)?);
        let section_file_offset = endianness.get_u64_at(data, at + 24)?;
        let section_size = endianness.get_u64_at(data, at + 32)?;
        let section_link_index = nonzero_u32(endianness.get_u32_at(data, at + 40)?);
        let info = nonzero_u32(endianness.get_u32_at(data, at + 44)?);
        let address_alignment = endianness.get_u64_at(data, at + 48)?;
        let section_entry_size = nonzero_u64(endianness.get_u64_at(data, at + 56)?);
        Ok(
            SectionHeader {
                name_index,
                header_type,
                flags: SectionHeaderFlags::from_bits_truncate(flags),
                address,
                section_file_offset,
                section_size,
                section_link_index,
                info,
                address_alignment,
                section_entry_size,
            },
        )
    }
}

/// In a decoded section header no optional field holds the numeral zero: an
/// address, link index, info or entry size is absent exactly when its raw
/// value is zero, and holds the raw value otherwise.
pub proof fn lemma_zero_is_absent(endianness: Endian, data: Seq<u8>, at: int)
    requires
        SectionHeader::spec_decode(endianness, data, at) is Ok,
    ensures
        ({
            let header = SectionHeader::spec_decode(endianness, data, at)->Ok_0;
            &&& header.address != Some(0u64)
            &&& header.section_link_index != Some(0u32)
            &&& header.info != Some(0u32)
            &&& header.section_entry_size != Some(0u64)
            &&& header.address is None <==> endianness.u64_value(data, at + 16) == 0
            &&& header.section_link_index is None <==> endianness.u32_value(data, at + 40) == 0
            &&& header.info is None <==> endianness.u32_value(data, at + 44) == 0
            &&& header.section_entry_size is None <==> endianness.u64_value(data, at + 56) == 0
        }),
{
}

/// A traversal of the section-header table of a 64-bit file.
#[derive(Debug, PartialEq, Eq)]
pub struct SectionHeaderIterator<'a> {
    current_index: u16,
    data: &'a [u8],
    endianness: Endian,
    section_header_summary: &'a Elf64SectionHeaderSummary,
}

impl<'a> SectionHeaderIterator<'a> {
    /// The buffer that the entries are decoded from.
    pub closed spec fn data(&self) -> Seq<u8> {
        self.data@
    }

    pub closed spec fn endianness(&self) -> Endian {
        self.endianness
    }

    pub closed spec fn summary(&self) -> Elf64SectionHeaderSummary {
        *self.section_header_summary
    }

    /// Index of the entry that the next step decodes.
    pub closed spec fn index(&self) -> int {
        self.current_index as int
    }

    /// Whether this is a traversal of the table `summary` in `data` that has
    /// not yielded anything yet.
    pub open spec fn starts(
        &self,
        data: Seq<u8>,
        endianness: Endian,
        summary: Elf64SectionHeaderSummary,
    ) -> bool {
        &&& self.data() == data
        &&& self.endianness() == endianness
        &&& self.summary() == summary
        &&& self.index() == 0
    }

    /// What entry `index` of the table decodes to. An entry at a position
    /// that a 64-bit file cannot express is cut off like one that lies
    /// outside the buffer.
    pub open spec fn spec_entry(&self, index: int) -> Result<SectionHeader, ElfParseError> {
        let position = self.summary().spec_entry_position(index);
        if position > u64::MAX {
            Err(ElfParseError::FailedToParseValue)
        } else {
            SectionHeader::spec_decode(self.endianness(), self.data(), position)
        }
    }

    /// Everything that this traversal has yet to yield, in order: one
    /// result for each entry from the current one to the last.
    pub open spec fn remaining(&self) -> Seq<Result<SectionHeader, ElfParseError>> {
        Seq::new(
            if self.index() < self.summary().entry_count {
                (self.summary().entry_count - self.index()) as nat
            } else {
                0nat
            },
            |i: int| self.spec_entry(self.index() + i),
        )
    }

    /// Starts a traversal at the first entry of the table. It always
    /// succeeds.
    pub fn new(
        data: &'a [u8],
        endianness: Endian,
        section_header_summary: &'a Elf64SectionHeaderSummary,
    ) -> (result: Result<Self, ElfParseError>)
        ensures
            result matches Ok(headers) && headers.starts(data@, endianness, *section_header_summary),
    {
        Ok(Self { current_index: 0, data, endianness, section_header_summary })
    }

    /// Decodes the entry that the traversal stands at.
    fn parse_section_header(&self) -> (result: Result<SectionHeader, ElfParseError>)
        requires
            self.index() < self.summary().entry_count,
        ensures
            result == self.spec_entry(self.index()),
    {
        proof {
            assert(self.data.len() == self.data@.len());
        }
        match self.section_header_summary.byte_offset(self.current_index) {
            Some(Ok(at)) => SectionHeader::from_bytes(&self.endianness, self.data, at),
            _ => Err(ElfParseError::FailedToParseValue),
        }
    }

    /// Decodes the next entry, if one is left.
    ///
    /// Past the last entry nothing is yielded and nothing changes. Before
    /// that, the traversal moves on by one entry whatever the entry yields.
    pub fn next(&mut self) -> (result: Option<Result<SectionHeader, ElfParseError>>)
        ensures
            final(self).data() == old(self).data(),
            final(self).endianness() == old(self).endianness(),
            final(self).summary() == old(self).summary(),
            old(self).index() >= old(self).summary().entry_count ==> {
                &&& result is None
                &&& final(self).index() == old(self).index()
            },
            old(self).index() < old(self).summary().entry_count ==> {
                &&& result == Some(old(self).spec_entry(old(self).index()))
                &&& final(self).index() == old(self).index() + 1
            },
            old(self).remaining() == match result {
                None => Seq::empty(),
                Some(entry) => seq![entry] + final(self).remaining(),
            },
    {
        if self.current_index >= self.section_header_summary.entry_count {
            None
        } else {
            let header = self.parse_section_header();
            self.current_index = self.current_index + 1;
            assert(old(self).remaining() == seq![header] + self.remaining());
            Some(header)
        }
    }

    /// Runs the traversal to its end and returns what it yields on the way.
    pub fn collect(&mut self) -> (result: Vec<Result<SectionHeader, ElfParseError>>)
        ensures
            result@ == old(self).remaining(),
            final(self).remaining().len() == 0,
            final(self).data() == old(self).data(),
            final(self).endianness() == old(self).endianness(),
            final(self).summary() == old(self).summary(),
    {
        let mut entries: Vec<Result<SectionHeader, ElfParseError>> = Vec::new();
        loop
            invariant
                entries@ + self.remaining() == old(self).remaining(),
                self.data() == old(self).data(),
                self.endianness() == old(self).endianness(),
                self.summary() == old(self).summary(),
            ensures
                self.remaining().len() == 0,
            decreases self.remaining().len(),
        {
            let ghost before = self.remaining();
            match self.next() {
                None => {
                    break ;
                },
                Some(entry) => {
                    entries.push(entry);
                    assert(entries@ + self.remaining() == old(self).remaining()) by {
                        assert(before == seq![entry] + self.remaining());
                        assert(entries@ + self.remaining() =~= entries@.drop_last() + before);
                    }
                },
            }
        }
        entries
    }

    /// Runs the traversal to its end and tells how many results it yields
    /// on the way.
    pub fn count(self) -> (result: usize)
        ensures
            result == self.remaining().len(),
    {
        let mut headers = self;
        headers.collect().len()
    }
}

} // verus!
