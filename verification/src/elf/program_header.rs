//! What the program-header tables of both address widths share: the segment
//! type, the permission flags, the alignment rule, and the validation that a
//! traversal applies to every entry.

use crate::elf::{ElfParseError, Endian};
use vstd::arithmetic::power::{lemma_pow_positive, pow};
use vstd::arithmetic::power2::{is_pow2, is_pow2_equiv, is_pow2_exists, pow2};
use vstd::prelude::*;

verus! {

/// Kind of a segment. Values outside the named range are passed through.
#[derive(Debug, Clone, Copy, PartialEq, Eq)]
pub enum ProgramSegmentType {
    Null,
    Load,
    Dynamic,
    Interpret,
    Note,
    SharedLibrary,
    /// The segment that holds the program-header table itself.
    ProgramHeader,
    ProcessorSpecific(u32),
}

impl ProgramSegmentType {
    /// The segment type that a raw tag stands for: the named types are 0
    /// to 6, every other tag is passed through.
    pub open spec fn spec_from(value: u32) -> Self {
        if value == 0 {
            Self::Null
        } else if value == 1 {
            Self::Load
        } else if value == 2 {
            Self::Dynamic
        } else if value == 3 {
            Self::Interpret
        } else if value == 4 {
            Self::Note
        } else if value == 5 {
            Self::SharedLibrary
        } else if value == 6 {
            Self::ProgramHeader
        } else {
            Self::ProcessorSpecific(value)
        }
    }

    /// Decodes the type tag of a program header.
    pub fn from(value: u32) -> (result: Self)
        ensures
            result == Self::spec_from(value),
    {
        match value {
            0 => Self::Null,
            1 => Self::Load,
            2 => Self::Dynamic,
            3 => Self::Interpret,
            4 => Self::Note,
            5 => Self::SharedLibrary,
            6 => Self::ProgramHeader,
            _ => Self::ProcessorSpecific(value),
        }
    }

    /// Whether this is the type of the segment that holds the program-header
    /// table.
    pub open spec fn spec_is_table(&self) -> bool {
        *self == ProgramSegmentType::ProgramHeader
    }

    /// Tells whether this is the type of the program-header-table segment.
    pub fn is_table(&self) -> (result: bool)
        ensures
            result == self.spec_is_table(),
    {
        match self {
            ProgramSegmentType::ProgramHeader => true,
            _ => false,
        }
    }
}

/// Permissions of a segment: the low three bits of its flag word.
#[derive(Debug, Clone, Copy, PartialEq, Eq)]
pub struct ProgramHeaderFlags {
    pub executable: bool,
    pub writable: bool,
    pub readable: bool,
}

impl ProgramHeaderFlags {
    /// The permissions that a flag word grants: bit 0 grants execution,
    /// bit 1 writing, bit 2 reading; the higher bits are ignored.
    pub open spec fn spec_from(value: u32) -> Self {
        ProgramHeaderFlags {
            executable: value % 2 == 1,
            writable: (value / 2) % 2 == 1,
            readable: (value / 4) % 2 == 1,
        }
    }

    pub fn new(executable: bool, writable: bool, readable: bool) -> (result: Self)
        ensures
            result == (ProgramHeaderFlags { executable, writable, readable }),
    {
        Self { executable, writable, readable }
    }

    /// Decodes the flag word of a program header.
    pub fn from(value: u32) -> (result: Self)
        ensures
            result == Self::spec_from(value),
    {
        proof {
            lemma_low_bits(value);
        }
        Self {
            executable: (value & 1) == 1,
            writable: (value & 2) == 2,
            readable: (value & 4) == 4,
        }
    }
}

/// The low three bits of a word, read as remainders.
proof fn lemma_low_bits(value: u32)
    ensures
        ((value & 1) == 1) == (value % 2 == 1),
        ((value & 2) == 2) == ((value / 2) % 2 == 1),
        ((value & 4) == 4) == ((value / 4) % 2 == 1),
{
    assert(((value & 1) == 1) == (value % 2 == 1)) by (bit_vector);
    assert(((value & 2) == 2) == ((value / 2) % 2 == 1)) by (bit_vector);
    assert(((value & 4) == 4) == ((value / 4) % 2 == 1)) by (bit_vector);
}

/// Whether `n` is two raised to some natural number.
pub open spec fn is_power_of_two(n: int) -> bool {
    exists|k: nat| n == pow2(k)
}

/// The alignment rule of program headers: zero and one leave the segment
/// unconstrained, every other alignment must be a power of two.
pub open spec fn alignment_is_valid(alignment: int) -> bool {
    alignment == 0 || is_power_of_two(alignment)
}

/// A positive number is a power of two exactly when it shares no bit with
/// its predecessor.
proof fn lemma_single_bit(n: u64)
    requires
        n >= 1,
    ensures
        (n & ((n - 1) as u64) == 0) == is_pow2(n as int),
    decreases n,
{
    reveal(is_pow2);
    if n > 1 {
        let half = n / 2;
        let below = (n - 1) as u64;
        let below_half = (half - 1) as u64;
        assert(half < n && half >= 1 && ((n & below == 0) == (n % 2 == 0 && half & below_half
            == 0))) by (bit_vector)
            requires
                n > 1,
                half == n / 2,
                below == n - 1,
                below_half == half - 1,
        ;
        lemma_single_bit(half);
    } else {
        assert(1u64 & 0u64 == 0) by (bit_vector);
    }
}

/// Checks the alignment rule of program headers.
pub fn is_valid_alignment(alignment: u64) -> (result: bool)
    ensures
        result == alignment_is_valid(alignment as int),
{
    proof {
        if alignment >= 1 {
            lemma_single_bit(alignment);
        }
        is_pow2_equiv(alignment as int);
        if is_power_of_two(alignment as int) {
            let k = choose|k: nat| alignment as int == pow2(k);
            lemma_pow_positive(2, k);
            assert(pow(2, k) == alignment as int);
        }
        if is_pow2_exists(alignment as int) {
            let k = choose|k: nat| pow(2, k) == alignment as int;
            assert(alignment as int == pow2(k));
        }
    }
    alignment == 0 || alignment & (alignment - 1) == 0
}

/// One decoded entry of a program-header table, in either address width.
///
/// The two widths lay their fields out differently; what a traversal needs
/// of an entry is the same for both.
pub trait ProgramHeaderEntry: Sized {
    /// Number of bytes from the start of an entry to the end of its last
    /// field.
    spec fn spec_entry_len() -> int;

    /// Largest file offset that this width can express.
    spec fn spec_offset_limit() -> int;

    /// The entry that the bytes at `at` denote; meaningful when the whole
    /// entry lies inside `data`.
    spec fn spec_decode(endianness: Endian, data: Seq<u8>, at: int) -> Self;

    /// The type of the segment that this entry describes.
    spec fn spec_segment_type(&self) -> ProgramSegmentType;

    /// The alignment that this entry asks for.
    spec fn spec_alignment(&self) -> int;

    /// The largest file offset that this width can express.
    fn offset_limit() -> (result: u64)
        ensures
            result == Self::spec_offset_limit(),
    ;

    /// Decodes the fields of the entry at `at`, without validating them. It
    /// fails exactly when the entry does not lie inside `data`.
    fn decode(endianness: &Endian, data: &[u8], at: usize) -> (result: Result<Self, ElfParseError>)
        ensures
            result == if at + Self::spec_entry_len() <= data@.len() {
                Ok::<Self, ElfParseError>(Self::spec_decode(*endianness, data@, at as int))
            } else {
                Err::<Self, ElfParseError>(ElfParseError::FailedToParseValue)
            },
    ;

    /// The type of the segment that this entry describes.
    fn segment_type(&self) -> (result: ProgramSegmentType)
        ensures
            result == self.spec_segment_type(),
    ;

    /// The alignment that this entry asks for.
    fn alignment(&self) -> (result: u64)
        ensures
            result == self.spec_alignment(),
    ;
}

/// Whether a result is a successfully decoded program-header-table segment.
pub open spec fn is_table_entry<H: ProgramHeaderEntry>(result: Result<H, ElfParseError>) -> bool {
    result matches Ok(header) && header.spec_segment_type().spec_is_table()
}

/// Whether the entry that starts at `at` lies inside `data`, at an offset
/// that the word width can express.
pub open spec fn entry_in_bounds<H: ProgramHeaderEntry>(data: Seq<u8>, at: int) -> bool {
    at <= H::spec_offset_limit() && at + H::spec_entry_len() <= data.len()
}

/// One step of a traversal: what the entry at `at` yields, and whether a
/// program-header-table segment has been yielded once this step is done.
///
/// An entry out of bounds is a truncation failure. Of an entry in bounds,
/// the alignment is checked first, then that it is not a second table
/// segment. Only a table segment that is yielded counts as seen.
pub open spec fn spec_validate_entry<H: ProgramHeaderEntry>(
    endianness: Endian,
    data: Seq<u8>,
    at: int,
    table_entry_seen: bool,
) -> (Result<H, ElfParseError>, bool) {
    if !entry_in_bounds::<H>(data, at) {
        (Err(ElfParseError::FailedToParseValue), table_entry_seen)
    } else {
        let header = H::spec_decode(endianness, data, at);
        if !alignment_is_valid(header.spec_alignment()) {
            (Err(ElfParseError::InvalidProgramHeaderAlignment), table_entry_seen)
        } else if header.spec_segment_type().spec_is_table() {
            if table_entry_seen {
                (Err(ElfParseError::MultipleProgramHeaderEntriesFound), true)
            } else {
                (Ok(header), true)
            }
        } else {
            (Ok(header), table_entry_seen)
        }
    }
}

/// The results that a traversal yields from entry `index` on, for a table
/// of `entry_count` entries of `entry_size` bytes at `table_position`.
pub open spec fn spec_entries<H: ProgramHeaderEntry>(
    endianness: Endian,
    data: Seq<u8>,
    table_position: int,
    entry_size: int,
    entry_count: int,
    index: int,
    table_entry_seen: bool,
) -> Seq<Result<H, ElfParseError>>
    decreases entry_count - index,
{
    if index >= entry_count {
        Seq::empty()
    } else {
        let step = spec_validate_entry::<H>(
            endianness,
            data,
            table_position + entry_size * index,
            table_entry_seen,
        );
        seq![step.0] + spec_entries::<H>(
            endianness,
            data,
            table_position,
            entry_size,
            entry_count,
            index + 1,
            step.1,
        )
    }
}

/// Decodes and validates the entry at `at`, given whether this traversal
/// has already yielded a program-header-table segment.
pub fn validate_entry<H: ProgramHeaderEntry>(
    endianness: &Endian,
    data: &[u8],
    at: usize,
    table_entry_seen: bool,
) -> (result: (Result<H, ElfParseError>, bool))
    ensures
        result == spec_validate_entry::<H>(*endianness, data@, at as int, table_entry_seen),
{
    if at as u64 > H::offset_limit() {
        return (Err(ElfParseError::FailedToParseValue), table_entry_seen);
    }
    match H::decode(endianness, data, at) {
        Err(e) => (Err(e), table_entry_seen),
        Ok(header) => {
            if !is_valid_alignment(header.alignment()) {
                (Err(ElfParseError::InvalidProgramHeaderAlignment), table_entry_seen)
            } else if header.segment_type().is_table() {
                if table_entry_seen {
                    (Err(ElfParseError::MultipleProgramHeaderEntriesFound), true)
                } else {
                    (Ok(header), true)
                }
            } else {
                (Ok(header), table_entry_seen)
            }
        },
    }
}

/// A traversal yields one result for every entry that the table declares.
pub proof fn lemma_entries_len<H: ProgramHeaderEntry>(
    endianness: Endian,
    data: Seq<u8>,
    table_position: int,
    entry_size: int,
    entry_count: int,
    index: int,
    table_entry_seen: bool,
)
    requires
        index <= entry_count,
    ensures
        spec_entries::<H>(
            endianness,
            data,
            table_position,
            entry_size,
            entry_count,
            index,
            table_entry_seen,
        ).len() == entry_count - index,
    decreases entry_count - index,
{
    if index < entry_count {
        let step = spec_validate_entry::<H>(
            endianness,
            data,
            table_position + entry_size * index,
            table_entry_seen,
        );
        lemma_entries_len::<H>(
            endianness,
            data,
            table_position,
            entry_size,
            entry_count,
            index + 1,
            step.1,
        );
    }
}

/// What a traversal yields for one entry depends on the rest of the table
/// only through the rule on table segments.
///
/// The `i`-th result from `index` on is a success only with the decoded
/// entry and only where its alignment is zero or a power of two. It is the
/// alignment failure exactly when the entry is in bounds and its alignment
/// is neither, and the truncation failure exactly when the entry is out of
/// bounds, whatever the entries before it held.
pub proof fn lemma_entry_failures_are_local<H: ProgramHeaderEntry>(
    endianness: Endian,
    data: Seq<u8>,
    table_position: int,
    entry_size: int,
    entry_count: int,
    index: int,
    table_entry_seen: bool,
    i: int,
)
    requires
        0 <= i,
        index + i < entry_count,
    ensures
        ({
            let entry = spec_entries::<H>(
                endianness,
                data,
                table_position,
                entry_size,
                entry_count,
                index,
                table_entry_seen,
            )[i];
            let at = table_position + entry_size * (index + i);
            let header = H::spec_decode(endianness, data, at);
            &&& entry matches Ok(yielded) ==> yielded == header && entry_in_bounds::<H>(data, at)
                && alignment_is_valid(yielded.spec_alignment())
            &&& entry == Err::<H, ElfParseError>(ElfParseError::InvalidProgramHeaderAlignment)
                <==> entry_in_bounds::<H>(data, at) && !alignment_is_valid(header.spec_alignment())
            &&& entry == Err::<H, ElfParseError>(ElfParseError::FailedToParseValue)
                <==> !entry_in_bounds::<H>(data, at)
            &&& entry == Err::<H, ElfParseError>(
                ElfParseError::MultipleProgramHeaderEntriesFound,
            ) ==> entry_in_bounds::<H>(data, at) && header.spec_segment_type().spec_is_table()
        }),
    decreases i,
{
    let step = spec_validate_entry::<H>(
        endianness,
        data,
        table_position + entry_size * index,
        table_entry_seen,
    );
    let entries = spec_entries::<H>(
        endianness,
        data,
        table_position,
        entry_size,
        entry_count,
        index,
        table_entry_seen,
    );
    let rest = spec_entries::<H>(
        endianness,
        data,
        table_position,
        entry_size,
        entry_count,
        index + 1,
        step.1,
    );
    assert(entries == seq![step.0] + rest);
    if i > 0 {
        lemma_entries_len::<H>(
            endianness,
            data,
            table_position,
            entry_size,
            entry_count,
            index + 1,
            step.1,
        );
        lemma_entry_failures_are_local::<H>(
            endianness,
            data,
            table_position,
            entry_size,
            entry_count,
            index + 1,
            step.1,
            i - 1,
        );
        assert(entries[i] == rest[i - 1]);
        assert(index + 1 + (i - 1) == index + i);
    }
}

/// A traversal yields at most one program-header-table segment, and none
/// at all once one has been yielded before.
pub proof fn lemma_entries_hold_one_table_entry<H: ProgramHeaderEntry>(
    endianness: Endian,
    data: Seq<u8>,
    table_position: int,
    entry_size: int,
    entry_count: int,
    index: int,
    table_entry_seen: bool,
)
    ensures
        ({
            let entries = spec_entries::<H>(
                endianness,
                data,
                table_position,
                entry_size,
                entry_count,
                index,
                table_entry_seen,
            );
            &&& forall|i: int, j: int|
                0 <= i < j < entries.len() ==> !(is_table_entry(#[trigger] entries[i])
                    && is_table_entry(#[trigger] entries[j]))
            &&& table_entry_seen ==> forall|i: int|
                0 <= i < entries.len() ==> !is_table_entry(#[trigger] entries[i])
        }),
    decreases entry_count - index,
{
    let entries = spec_entries::<H>(
        endianness,
        data,
        table_position,
        entry_size,
        entry_count,
        index,
        table_entry_seen,
    );
    if index < entry_count {
        let step = spec_validate_entry::<H>(
            endianness,
            data,
            table_position + entry_size * index,
            table_entry_seen,
        );
        let rest = spec_entries::<H>(
            endianness,
            data,
            table_position,
            entry_size,
            entry_count,
            index + 1,
            step.1,
        );
        lemma_entries_hold_one_table_entry::<H>(
            endianness,
            data,
            table_position,
            entry_size,
            entry_count,
            index + 1,
            step.1,
        );
        assert(entries == seq![step.0] + rest);
        assert forall|i: int, j: int| 0 <= i < j < entries.len() implies !(is_table_entry(
            #[trigger] entries[i],
        ) && is_table_entry(#[trigger] entries[j])) by {
            assert(entries[j] == rest[j - 1]);
            if i > 0 {
                assert(entries[i] == rest[i - 1]);
            }
        }
        if table_entry_seen {
            assert forall|i: int| 0 <= i < entries.len() implies !is_table_entry(
                #[trigger] entries[i],
            ) by {
                if i > 0 {
                    assert(entries[i] == rest[i - 1]);
                }
            }
        }
    }
}

} // verus!
