//! Validation of the header counts and of the fixed-entry tables: string
//! kinds, the string table, storage-backed tables, CommonJS modules and
//! function sources.

use vstd::prelude::*;

use crate::hbc::bytes::{le_u32, read_u32};
use crate::hbc::checks::{first_failure, lemma_first_failure_all_ok, lemma_first_failure_ok, lemma_first_failure_sticks};
use crate::hbc::error::ParseError;
use crate::hbc::header::HermesBytecodeHeader;

verus! {

/// The header counts agree with each other: identifiers are a subset of the
/// strings, and the global function is one of the declared functions (or is
/// function zero of an empty table).
pub open spec fn header_counts_result(h: HermesBytecodeHeader) -> Result<(), ParseError> {
    if h.identifier_count > h.string_count {
        Err(
            ParseError::InvalidHeaderCount {
                field: "identifier_count",
                value: h.identifier_count,
                limit: h.string_count,
            },
        )
    } else if h.function_count == 0 && h.global_code_index != 0 {
        Err(
            ParseError::InvalidHeaderCount {
                field: "global_code_index",
                value: h.global_code_index,
                limit: 0,
            },
        )
    } else if h.function_count != 0 && h.global_code_index >= h.function_count {
        Err(
            ParseError::InvalidHeaderCount {
                field: "global_code_index",
                value: h.global_code_index,
                limit: (h.function_count - 1) as u32,
            },
        )
    } else {
        Ok(())
    }
}

/// Checks the header counts against each other.
pub fn validate_header_counts(header: &HermesBytecodeHeader) -> (result: Result<(), ParseError>)
    ensures
        result == header_counts_result(*header),
{
    if header.identifier_count > header.string_count {
        return Err(
            ParseError::InvalidHeaderCount {
                field: "identifier_count",
                value: header.identifier_count,
                limit: header.string_count,
            },
        );
    }
    if header.function_count == 0 {
        if header.global_code_index != 0 {
            return Err(
                ParseError::InvalidHeaderCount {
                    field: "global_code_index",
                    value: header.global_code_index,
                    limit: 0,
                },
            );
        }
    } else if header.global_code_index >= header.function_count {
        return Err(
            ParseError::InvalidHeaderCount {
                field: "global_code_index",
                value: header.global_code_index,
                limit: header.function_count - 1,
            },
        );
    }
    Ok(())
}

/// Sum of the run lengths (the low 31 bits) of the first `n` string-kind entries.
pub open spec fn string_kind_run_total(entries: Seq<u8>, n: int) -> int
    decreases n,
{
    if n <= 0 {
        0
    } else {
        string_kind_run_total(entries, n - 1) + (le_u32(entries, 4 * (n - 1)) & 0x7fff_ffff)
    }
}

/// The string-kind runs cover exactly `string_count` strings.
pub open spec fn string_kind_runs_result(entries: Seq<u8>, string_count: u32) -> Result<(), ParseError> {
    let total = string_kind_run_total(entries, (entries.len() / 4) as int);
    if total > u32::MAX {
        Err(ParseError::InvalidStringKindRunLength { string_count, run_length: u32::MAX })
    } else if total != string_count {
        Err(ParseError::InvalidStringKindRunLength { string_count, run_length: total as u32 })
    } else {
        Ok(())
    }
}

proof fn lemma_run_total_monotonic(entries: Seq<u8>, k: int, n: int)
    requires
        0 <= k <= n,
    ensures
        string_kind_run_total(entries, k) <= string_kind_run_total(entries, n),
    decreases n - k,
{
    if k < n {
        lemma_run_total_monotonic(entries, k, n - 1);
    }
}

/// Checks that the string-kind run lengths add up to the string count.
pub fn validate_string_kind_runs(bytes: &[u8], string_count: u32) -> (result: Result<(), ParseError>)
    ensures
        result == string_kind_runs_result(bytes@, string_count),
{
    let len = bytes.len();
    let n = len / 4;
    let mut run_length: u32 = 0;
    let mut i: usize = 0;
    while i < n
        invariant
            len == bytes@.len(),
            n == len / 4,
            i <= n,
            run_length == string_kind_run_total(bytes@, i as int),
        decreases n - i,
    {
        let datum = read_u32(bytes, 4 * i);
        let count = datum & 0x7fff_ffff;
        if run_length > u32::MAX - count {
            proof {
                lemma_run_total_monotonic(bytes@, i + 1, n as int);
            }
            return Err(ParseError::InvalidStringKindRunLength { string_count, run_length: u32::MAX });
        }
        run_length = run_length + count;
        i = i + 1;
    }
    if run_length != string_count {
        return Err(ParseError::InvalidStringKindRunLength { string_count, run_length });
    }
    Ok(())
}

/// Checks that a string's `[offset, offset + length)` range lies in storage.
pub open spec fn string_bounds_result(i: int, offset: u32, length: u32, storage_size: u32) -> Result<(), ParseError> {
    if offset + length > storage_size {
        Err(
            ParseError::StringTableEntryOutOfBounds {
                string_index: i as u32,
                offset,
                length,
                storage_size,
            },
        )
    } else {
        Ok(())
    }
}

/// The `i`-th small string table entry locates a string inside storage. An
/// entry whose top byte is `0xff` locates it through the overflow table.
pub open spec fn string_entry_result(
    small: Seq<u8>,
    overflow: Seq<u8>,
    overflow_count: u32,
    storage_size: u32,
    i: int,
) -> Result<(), ParseError> {
    let word = le_u32(small, 4 * i);
    let packed_offset = (word >> 1u32) & 0x7f_ffff;
    if word >> 24u32 == 0xff {
        if packed_offset >= overflow_count {
            Err(
                ParseError::InvalidOverflowStringIndex {
                    string_index: i as u32,
                    overflow_index: packed_offset,
                    overflow_count,
                },
            )
        } else {
            string_bounds_result(
                i,
                le_u32(overflow, 8 * packed_offset),
                le_u32(overflow, 8 * packed_offset + 4),
                storage_size,
            )
        }
    } else {
        string_bounds_result(i, packed_offset, word >> 24u32, storage_size)
    }
}

pub open spec fn string_entry_check(
    small: Seq<u8>,
    overflow: Seq<u8>,
    overflow_count: u32,
    storage_size: u32,
) -> spec_fn(int) -> Result<(), ParseError> {
    |i: int| string_entry_result(small, overflow, overflow_count, storage_size, i)
}

/// Every small string table entry locates a string inside storage.
pub open spec fn string_table_result(
    small: Seq<u8>,
    overflow: Seq<u8>,
    overflow_count: u32,
    storage_size: u32,
) -> Result<(), ParseError> {
    first_failure(
        (small.len() / 4) as int,
        string_entry_check(small, overflow, overflow_count, storage_size),
    )
}

/// A small string table entry stores a string in place: the entry
/// `utf16 | offset << 1 | length << 24`, for any 23-bit offset and any length
/// below `0xff`, is accepted exactly when `[offset, offset + length)` lies
/// inside string storage, ends included; otherwise it is refused with its
/// index, offset, length and the storage size.
pub proof fn lemma_small_string_entry_in_storage(
    small: Seq<u8>,
    overflow: Seq<u8>,
    overflow_count: u32,
    storage_size: u32,
    i: int,
    offset: u32,
    length: u32,
    utf16: bool,
)
    requires
        0 <= i,
        4 * i + 4 <= small.len(),
        offset < 0x80_0000,
        length < 0xff,
        le_u32(small, 4 * i) == (if utf16 {
            1int
        } else {
            0int
        }) + offset * 2 + length * 0x100_0000,
    ensures
        (string_entry_result(small, overflow, overflow_count, storage_size, i) is Ok) == (offset + length
            <= storage_size),
        offset + length > storage_size ==> string_entry_result(small, overflow, overflow_count, storage_size, i)
            == Err::<(), ParseError>(
            ParseError::StringTableEntryOutOfBounds { string_index: i as u32, offset, length, storage_size },
        ),
{
    let word = le_u32(small, 4 * i);
    let u: u32 = if utf16 {
        1
    } else {
        0
    };
    assert((word >> 1u32) & 0x7f_ffff == offset && word >> 24u32 == length) by (bit_vector)
        requires
            word == u + offset * 2 + length * 0x100_0000,
            u < 2,
            offset < 0x80_0000,
            length < 0xff,
    ;
}

/// An overflow string table entry `utf16 | index << 1 | 0xff << 24` locates
/// its string through overflow entry `index`, eight bytes holding the
/// string's offset and length: it is accepted exactly when that entry exists
/// and the string lies inside storage, ends included.
pub proof fn lemma_overflow_string_entry_in_storage(
    small: Seq<u8>,
    overflow: Seq<u8>,
    overflow_count: u32,
    storage_size: u32,
    i: int,
    index: u32,
    utf16: bool,
)
    requires
        0 <= i,
        4 * i + 4 <= small.len(),
        index < 0x80_0000,
        le_u32(small, 4 * i) == (if utf16 {
            1int
        } else {
            0int
        }) + index * 2 + 0xff * 0x100_0000,
    ensures
        (string_entry_result(small, overflow, overflow_count, storage_size, i) is Ok) == (index < overflow_count
            && le_u32(overflow, 8 * index) + le_u32(overflow, 8 * index + 4) <= storage_size),
        index >= overflow_count ==> string_entry_result(small, overflow, overflow_count, storage_size, i) == Err::<
            (),
            ParseError,
        >(
            ParseError::InvalidOverflowStringIndex {
                string_index: i as u32,
                overflow_index: index,
                overflow_count,
            },
        ),
{
    let word = le_u32(small, 4 * i);
    let u: u32 = if utf16 {
        1
    } else {
        0
    };
    assert((word >> 1u32) & 0x7f_ffff == index && word >> 24u32 == 0xff) by (bit_vector)
        requires
            word == u + index * 2 + 0xff * 0x100_0000,
            u < 2,
            index < 0x80_0000,
    ;
}

/// The string table is accepted exactly when each of its entries is, and
/// then with nothing to report: no entry is skipped and none is checked
/// twice.
pub proof fn lemma_string_table_accepts_every_entry(
    small: Seq<u8>,
    overflow: Seq<u8>,
    overflow_count: u32,
    storage_size: u32,
)
    ensures
        (string_table_result(small, overflow, overflow_count, storage_size) is Ok) == (forall|i: int|
            0 <= i < small.len() / 4 ==> (#[trigger] string_entry_result(
                small,
                overflow,
                overflow_count,
                storage_size,
                i,
            )) is Ok),
{
    let check = string_entry_check(small, overflow, overflow_count, storage_size);
    let n = (small.len() / 4) as int;
    if string_table_result(small, overflow, overflow_count, storage_size) is Ok {
        lemma_first_failure_ok(n, check);
        assert forall|i: int| 0 <= i < n implies (#[trigger] string_entry_result(
            small,
            overflow,
            overflow_count,
            storage_size,
            i,
        )) is Ok by {
            assert(check(i) is Ok);
        }
    }
    if forall|i: int| 0 <= i < n ==> (#[trigger] string_entry_result(
        small,
        overflow,
        overflow_count,
        storage_size,
        i,
    )) is Ok {
        assert forall|i: int| 0 <= i < n implies (#[trigger] check(i)) is Ok by {
            assert(string_entry_result(small, overflow, overflow_count, storage_size, i) is Ok);
        }
        lemma_first_failure_all_ok(n, check);
    }
}

fn check_string_bounds(index: usize, offset: u32, length: u32, storage_size: u32) -> (result: Result<(), ParseError>)
    ensures
        result == string_bounds_result(index as int, offset, length, storage_size),
{
    if offset > u32::MAX - length || offset + length > storage_size {
        return Err(
            ParseError::StringTableEntryOutOfBounds {
                string_index: index as u32,
                offset,
                length,
                storage_size,
            },
        );
    }
    Ok(())
}

/// Checks every small string table entry against the overflow table and storage size.
pub fn validate_string_table(
    small_entries: &[u8],
    overflow_entries: &[u8],
    overflow_count: u32,
    storage_size: u32,
) -> (result: Result<(), ParseError>)
    requires
        overflow_entries@.len() == 8 * overflow_count,
    ensures
        result == string_table_result(small_entries@, overflow_entries@, overflow_count, storage_size),
{
    let ghost check = string_entry_check(small_entries@, overflow_entries@, overflow_count, storage_size);
    let len = small_entries.len();
    let overflow_len = overflow_entries.len();
    let n = len / 4;
    let mut i: usize = 0;
    while i < n
        invariant
            len == small_entries@.len(),
            overflow_len == overflow_entries@.len(),
            n == len / 4,
            i <= n,
            overflow_entries@.len() == 8 * overflow_count,
            check == string_entry_check(small_entries@, overflow_entries@, overflow_count, storage_size),
            first_failure(i as int, check) is Ok,
        decreases n - i,
    {
        let small = read_u32(small_entries, 4 * i);
        let packed_offset = (small >> 1u32) & 0x7f_ffff;
        let checked = if small >> 24u32 == 0xff {
            if packed_offset >= overflow_count {
                Err(
                    ParseError::InvalidOverflowStringIndex {
                        string_index: i as u32,
                        overflow_index: packed_offset,
                        overflow_count,
                    },
                )
            } else {
                let at = 8 * packed_offset as usize;
                check_string_bounds(
                    i,
                    read_u32(overflow_entries, at),
                    read_u32(overflow_entries, at + 4),
                    storage_size,
                )
            }
        } else {
            check_string_bounds(i, packed_offset, small >> 24u32, storage_size)
        };
        assert(checked == check(i as int));
        if checked.is_err() {
            proof {
                lemma_first_failure_sticks(i + 1, n as int, check);
            }
            return checked;
        }
        i = i + 1;
    }
    Ok(())
}

/// The `i`-th `(offset, length)` entry of a storage-backed table lies inside storage.
pub open spec fn storage_entry_result(section: &'static str, entries: Seq<u8>, storage_size: u32, i: int) -> Result<(), ParseError> {
    let offset = le_u32(entries, 8 * i);
    let length = le_u32(entries, 8 * i + 4);
    if offset + length > storage_size {
        Err(
            ParseError::StorageTableEntryOutOfBounds {
                section,
                entry_index: i as u32,
                offset,
                length,
                storage_size,
            },
        )
    } else {
        Ok(())
    }
}

pub open spec fn storage_entry_check(section: &'static str, entries: Seq<u8>, storage_size: u32) -> spec_fn(int) -> Result<(), ParseError> {
    |i: int| storage_entry_result(section, entries, storage_size, i)
}

/// Every entry of a storage-backed table lies inside its storage.
pub open spec fn storage_table_result(section: &'static str, entries: Seq<u8>, storage_size: u32) -> Result<(), ParseError> {
    first_failure((entries.len() / 8) as int, storage_entry_check(section, entries, storage_size))
}

/// Checks every `(offset, length)` entry of a storage-backed table.
pub fn validate_storage_table(section: &'static str, entries: &[u8], storage_size: u32) -> (result: Result<(), ParseError>)
    ensures
        result == storage_table_result(section, entries@, storage_size),
{
    let ghost check = storage_entry_check(section, entries@, storage_size);
    let len = entries.len();
    let n = len / 8;
    let mut i: usize = 0;
    while i < n
        invariant
            len == entries@.len(),
            n == len / 8,
            i <= n,
            check == storage_entry_check(section, entries@, storage_size),
            first_failure(i as int, check) is Ok,
        decreases n - i,
    {
        let offset = read_u32(entries, 8 * i);
        let length = read_u32(entries, 8 * i + 4);
        if offset > u32::MAX - length || offset + length > storage_size {
            let e = ParseError::StorageTableEntryOutOfBounds {
                section,
                entry_index: i as u32,
                offset,
                length,
                storage_size,
            };
            assert(check(i as int) == Err::<(), ParseError>(e));
            proof {
                lemma_first_failure_sticks(i + 1, n as int, check);
            }
            return Err(e);
        }
        assert(check(i as int) is Ok);
        i = i + 1;
    }
    Ok(())
}

/// The `i`-th CommonJS module entry names a declared function and, unless
/// modules are statically resolved, a declared string.
pub open spec fn cjs_module_entry_result(entries: Seq<u8>, h: HermesBytecodeHeader, i: int) -> Result<(), ParseError> {
    let first = le_u32(entries, 8 * i);
    let second = le_u32(entries, 8 * i + 4);
    let statically_resolved = h.options.spec_cjs_modules_statically_resolved();
    let invalid = if statically_resolved {
        second >= h.function_count
    } else {
        first >= h.string_count || second >= h.function_count
    };
    if invalid {
        Err(ParseError::InvalidCjsModuleEntry { entry_index: i as u32, first, second, statically_resolved })
    } else {
        Ok(())
    }
}

pub open spec fn cjs_module_check(entries: Seq<u8>, h: HermesBytecodeHeader) -> spec_fn(int) -> Result<(), ParseError> {
    |i: int| cjs_module_entry_result(entries, h, i)
}

/// Every CommonJS module entry is valid.
pub open spec fn cjs_module_table_result(entries: Seq<u8>, h: HermesBytecodeHeader) -> Result<(), ParseError> {
    first_failure((entries.len() / 8) as int, cjs_module_check(entries, h))
}

/// Checks every CommonJS module table entry.
pub fn validate_cjs_module_table(bytes: &[u8], header: &HermesBytecodeHeader) -> (result: Result<(), ParseError>)
    ensures
        result == cjs_module_table_result(bytes@, *header),
{
    let ghost check = cjs_module_check(bytes@, *header);
    let statically_resolved = header.options.cjs_modules_statically_resolved();
    let len = bytes.len();
    let n = len / 8;
    let mut i: usize = 0;
    while i < n
        invariant
            len == bytes@.len(),
            n == len / 8,
            i <= n,
            statically_resolved == header.options.spec_cjs_modules_statically_resolved(),
            check == cjs_module_check(bytes@, *header),
            first_failure(i as int, check) is Ok,
        decreases n - i,
    {
        let first = read_u32(bytes, 8 * i);
        let second = read_u32(bytes, 8 * i + 4);
        let invalid = if statically_resolved {
            second >= header.function_count
        } else {
            first >= header.string_count || second >= header.function_count
        };
        if invalid {
            let e = ParseError::InvalidCjsModuleEntry {
                entry_index: i as u32,
                first,
                second,
                statically_resolved,
            };
            assert(check(i as int) == Err::<(), ParseError>(e));
            proof {
                lemma_first_failure_sticks(i + 1, n as int, check);
            }
            return Err(e);
        }
        assert(check(i as int) is Ok);
        i = i + 1;
    }
    Ok(())
}

/// The `i`-th function source entry names a declared function and string.
pub open spec fn function_source_entry_result(entries: Seq<u8>, h: HermesBytecodeHeader, i: int) -> Result<(), ParseError> {
    let function_id = le_u32(entries, 8 * i);
    let string_id = le_u32(entries, 8 * i + 4);
    if function_id >= h.function_count || string_id >= h.string_count {
        Err(ParseError::InvalidFunctionSourceEntry { entry_index: i as u32, function_id, string_id })
    } else {
        Ok(())
    }
}

pub open spec fn function_source_check(entries: Seq<u8>, h: HermesBytecodeHeader) -> spec_fn(int) -> Result<(), ParseError> {
    |i: int| function_source_entry_result(entries, h, i)
}

/// Every function source entry is valid.
pub open spec fn function_source_table_result(entries: Seq<u8>, h: HermesBytecodeHeader) -> Result<(), ParseError> {
    first_failure((entries.len() / 8) as int, function_source_check(entries, h))
}

/// Checks every function source table entry.
pub fn validate_function_source_table(bytes: &[u8], header: &HermesBytecodeHeader) -> (result: Result<(), ParseError>)
    ensures
        result == function_source_table_result(bytes@, *header),
{
    let ghost check = function_source_check(bytes@, *header);
    let len = bytes.len();
    let n = len / 8;
    let mut i: usize = 0;
    while i < n
        invariant
            len == bytes@.len(),
            n == len / 8,
            i <= n,
            check == function_source_check(bytes@, *header),
            first_failure(i as int, check) is Ok,
        decreases n - i,
    {
        let function_id = read_u32(bytes, 8 * i);
        let string_id = read_u32(bytes, 8 * i + 4);
        if function_id >= header.function_count || string_id >= header.string_count {
            let e = ParseError::InvalidFunctionSourceEntry { entry_index: i as u32, function_id, string_id };
            assert(check(i as int) == Err::<(), ParseError>(e));
            proof {
                lemma_first_failure_sticks(i + 1, n as int, check);
            }
            return Err(e);
        }
        assert(check(i as int) is Ok);
        i = i + 1;
    }
    Ok(())
}

} // verus!
