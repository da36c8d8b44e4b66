//! Validation of the global debug info section: its header, the filename
//! table and storage, the file region table and the debug data payload.

use vstd::prelude::*;

use crate::hbc::bytes::{le_u32, read_u32};
use crate::hbc::checks::{first_failure, lemma_first_failure_sticks, lemma_ok_is_unit, then};
use crate::hbc::error::ParseError;
use crate::hbc::header::HermesBytecodeHeader;

verus! {

pub const DEBUG_INFO_HEADER_SIZE: u32 = 16;
pub const DEBUG_FILE_REGION_SIZE: u32 = 12;
pub const STRING_TABLE_ENTRY_SIZE: u32 = 8;
pub const STRING_TABLE_ENTRY_UTF16_MASK: u32 = 0x8000_0000;
pub const DEBUG_SOURCE_MAPPING_URL_INVALID: u32 = 0;

/// Where the debug data payload lies in the file.
#[derive(Debug, Clone, Copy, PartialEq, Eq)]
pub struct DebugInfoBounds {
    pub debug_data_offset: u32,
    pub debug_data_size: u32,
}

/// The end of `[offset, offset + size)`, when it stays within `limit`.
pub open spec fn debug_end_result(offset: u32, size: u32, limit: u32) -> Result<u32, ParseError> {
    if offset + size > u32::MAX || offset + size > limit {
        Err(ParseError::DebugInfoOutOfBounds { offset, size, limit })
    } else {
        Ok((offset + size) as u32)
    }
}

/// Returns the end of `[offset, offset + size)`, when it stays within `limit`.
pub fn checked_debug_info_end(offset: u32, size: u32, limit: u32) -> (result: Result<u32, ParseError>)
    ensures
        result == debug_end_result(offset, size, limit),
{
    if offset > u32::MAX - size || offset + size > limit {
        return Err(ParseError::DebugInfoOutOfBounds { offset, size, limit });
    }
    Ok(offset + size)
}

/// The bytes `[offset, offset + size)` of `s`, when they stay within `limit`.
pub open spec fn debug_bytes_result(s: Seq<u8>, offset: u32, size: u32, limit: u32) -> Result<Seq<u8>, ParseError> {
    match debug_end_result(offset, size, limit) {
        Err(e) => Err(e),
        Ok(end) => if end > s.len() {
            Err(ParseError::DebugInfoOutOfBounds { offset, size, limit })
        } else {
            Ok(s.subrange(offset as int, end as int))
        },
    }
}

/// Returns the bytes `[offset, offset + size)`, when they stay within `limit` and the buffer.
pub fn debug_info_bytes(bytes: &[u8], offset: u32, size: u32, limit: u32) -> (result: Result<&[u8], ParseError>)
    ensures
        match debug_bytes_result(bytes@, offset, size, limit) {
            Ok(b) => result matches Ok(r) && r@ == b,
            Err(e) => result == Err::<&[u8], ParseError>(e),
        },
{
    let end = match checked_debug_info_end(offset, size, limit) {
        Ok(end) => end,
        Err(e) => {
            return Err(e);
        },
    };
    if end as usize > bytes.len() {
        return Err(ParseError::DebugInfoOutOfBounds { offset, size, limit });
    }
    Ok(&bytes[offset as usize..end as usize])
}

/// Byte length of the `i`-th filename; the top bit of the stored length
/// marks a UTF-16 name, whose length counts two-byte units.
pub open spec fn filename_byte_length(entries: Seq<u8>, i: int) -> int {
    let raw_length = le_u32(entries, 8 * i + 4);
    let length = raw_length & 0x7fff_ffff;
    if raw_length & STRING_TABLE_ENTRY_UTF16_MASK == 0 {
        length as int
    } else {
        2 * length
    }
}

/// The `i`-th filename lies inside filename storage.
pub open spec fn filename_entry_result(entries: Seq<u8>, storage_size: u32, i: int) -> Result<(), ParseError> {
    let offset = le_u32(entries, 8 * i);
    let length = filename_byte_length(entries, i);
    if offset + length > storage_size {
        Err(
            ParseError::DebugFilenameOutOfBounds {
                filename_index: i as u32,
                offset,
                length: length as u32,
                storage_size,
            },
        )
    } else {
        Ok(())
    }
}

pub open spec fn filename_check(entries: Seq<u8>, storage_size: u32) -> spec_fn(int) -> Result<(), ParseError> {
    |i: int| filename_entry_result(entries, storage_size, i)
}

/// Every debug filename lies inside filename storage.
pub open spec fn filename_table_result(entries: Seq<u8>, storage_size: u32) -> Result<(), ParseError> {
    first_failure((entries.len() / 8) as int, filename_check(entries, storage_size))
}

/// Checks every debug filename table entry against the filename storage size.
pub fn validate_debug_filename_table(bytes: &[u8], storage_size: u32) -> (result: Result<(), ParseError>)
    ensures
        result == filename_table_result(bytes@, storage_size),
{
    let ghost check = filename_check(bytes@, storage_size);
    let len = bytes.len();
    let n = len / 8;
    let mut i: usize = 0;
    while i < n
        invariant
            len == bytes@.len(),
            n == len / 8,
            i <= n,
            check == filename_check(bytes@, storage_size),
            first_failure(i as int, check) is Ok,
        decreases n - i,
    {
        let offset = read_u32(bytes, 8 * i);
        let raw_length = read_u32(bytes, 8 * i + 4);
        let length = raw_length & 0x7fff_ffff;
        assert(length <= 0x7fff_ffff) by (bit_vector)
            requires
                length == raw_length & 0x7fff_ffff,
        ;
        let byte_length = if raw_length & STRING_TABLE_ENTRY_UTF16_MASK == 0 {
            length
        } else {
            2 * length
        };
        if offset > u32::MAX - byte_length || offset + byte_length > storage_size {
            let e = ParseError::DebugFilenameOutOfBounds {
                filename_index: i as u32,
                offset,
                length: byte_length,
                storage_size,
            };
            assert(check(i as int) == Err::<(), ParseError>(e));
            proof {
                lemma_first_failure_sticks(i + 1, n as int, check);
            }
            return Err(e);
        }
        assert(check(i as int) is Ok);
        i = i + 1;
    }
    proof {
        lemma_ok_is_unit(first_failure(n as int, check));
    }
    Ok(())
}

/// The `i`-th debug file region starts after the previous one, inside the
/// debug data, and names declared filenames (source map URL id 0 meaning none).
pub open spec fn file_region_result(regions: Seq<u8>, filename_count: u32, debug_data_size: u32, i: int) -> Result<(), ParseError> {
    let from_address = le_u32(regions, 12 * i);
    let filename_id = le_u32(regions, 12 * i + 4);
    let source_mapping_url_id = le_u32(regions, 12 * i + 8);
    let valid_source_mapping_url = source_mapping_url_id == DEBUG_SOURCE_MAPPING_URL_INVALID
        || source_mapping_url_id < filename_count;
    if i > 0 && from_address <= le_u32(regions, 12 * (i - 1)) {
        Err(
            ParseError::InvalidDebugFileRegionOrder {
                region_index: i as u32,
                previous_from_address: le_u32(regions, 12 * (i - 1)),
                from_address,
            },
        )
    } else if from_address >= debug_data_size || filename_id >= filename_count
        || !valid_source_mapping_url {
        Err(
            ParseError::InvalidDebugFileRegion {
                region_index: i as u32,
                from_address,
                filename_id,
                source_mapping_url_id,
                filename_count,
                debug_data_size,
            },
        )
    } else {
        Ok(())
    }
}

pub open spec fn file_region_check(regions: Seq<u8>, filename_count: u32, debug_data_size: u32) -> spec_fn(int) -> Result<(), ParseError> {
    |i: int| file_region_result(regions, filename_count, debug_data_size, i)
}

/// The debug file regions are sorted and reference valid ids and addresses.
pub open spec fn file_regions_result(regions: Seq<u8>, filename_count: u32, debug_data_size: u32) -> Result<(), ParseError> {
    first_failure((regions.len() / 12) as int, file_region_check(regions, filename_count, debug_data_size))
}

/// Checks the order and references of the debug file regions.
pub fn validate_debug_file_regions(bytes: &[u8], filename_count: u32, debug_data_size: u32) -> (result: Result<(), ParseError>)
    ensures
        result == file_regions_result(bytes@, filename_count, debug_data_size),
{
    let ghost check = file_region_check(bytes@, filename_count, debug_data_size);
    let len = bytes.len();
    let n = len / 12;
    let mut previous_from_address: Option<u32> = None;
    let mut i: usize = 0;
    while i < n
        invariant
            len == bytes@.len(),
            n == len / 12,
            i <= n,
            i == 0 ==> previous_from_address is None,
            i > 0 ==> previous_from_address == Some(le_u32(bytes@, 12 * (i - 1))),
            check == file_region_check(bytes@, filename_count, debug_data_size),
            first_failure(i as int, check) is Ok,
        decreases n - i,
    {
        let from_address = read_u32(bytes, 12 * i);
        let filename_id = read_u32(bytes, 12 * i + 4);
        let source_mapping_url_id = read_u32(bytes, 12 * i + 8);
        if let Some(previous) = previous_from_address {
            if from_address <= previous {
                let e = ParseError::InvalidDebugFileRegionOrder {
                    region_index: i as u32,
                    previous_from_address: previous,
                    from_address,
                };
                assert(check(i as int) == Err::<(), ParseError>(e));
                proof {
                    lemma_first_failure_sticks(i + 1, n as int, check);
                }
                return Err(e);
            }
        }
        let valid_source_mapping_url = source_mapping_url_id == DEBUG_SOURCE_MAPPING_URL_INVALID
            || source_mapping_url_id < filename_count;
        if from_address >= debug_data_size || filename_id >= filename_count
            || !valid_source_mapping_url {
            let e = ParseError::InvalidDebugFileRegion {
                region_index: i as u32,
                from_address,
                filename_id,
                source_mapping_url_id,
                filename_count,
                debug_data_size,
            };
            assert(check(i as int) == Err::<(), ParseError>(e));
            proof {
                lemma_first_failure_sticks(i + 1, n as int, check);
            }
            return Err(e);
        }
        assert(check(i as int) is Ok);
        previous_from_address = Some(from_address);
        i = i + 1;
    }
    proof {
        lemma_ok_is_unit(first_failure(n as int, check));
    }
    Ok(())
}

/// Debug info ends before the footer.
pub open spec fn debug_info_limit(h: HermesBytecodeHeader) -> u32 {
    if h.file_length >= 20 {
        (h.file_length - 20) as u32
    } else {
        0
    }
}

/// The global debug info section, when the header announces one: a header
/// of four counts, then the filename table, filename storage, file region
/// table and debug data, all before the footer. Its result is where the
/// debug data lies.
pub open spec fn debug_info_result(s: Seq<u8>, h: HermesBytecodeHeader) -> Result<Option<DebugInfoBounds>, ParseError> {
    let offset = h.debug_info_offset;
    let limit = debug_info_limit(h);
    if offset == 0 {
        Ok(None)
    } else {
        match debug_end_result(offset, 16, limit) {
            Err(e) => Err(e),
            Ok(filename_table_offset) => {
                let filename_count = le_u32(s, offset as int);
                let filename_storage_size = le_u32(s, offset + 4);
                let file_region_count = le_u32(s, offset + 8);
                let debug_data_size = le_u32(s, offset + 12);
                if filename_count * 8 > u32::MAX || file_region_count * 12 > u32::MAX {
                    Err(
                        ParseError::DebugInfoOutOfBounds {
                            offset: filename_table_offset,
                            size: u32::MAX,
                            limit,
                        },
                    )
                } else {
                    let filename_table_size = (filename_count * 8) as u32;
                    let file_region_table_size = (file_region_count * 12) as u32;
                    match debug_end_result(filename_table_offset, filename_table_size, limit) {
                        Err(e) => Err(e),
                        Ok(filename_storage_offset) => match debug_end_result(
                            filename_storage_offset,
                            filename_storage_size,
                            limit,
                        ) {
                            Err(e) => Err(e),
                            Ok(file_region_table_offset) => match debug_end_result(
                                file_region_table_offset,
                                file_region_table_size,
                                limit,
                            ) {
                                Err(e) => Err(e),
                                Ok(debug_data_offset) => match debug_end_result(
                                    debug_data_offset,
                                    debug_data_size,
                                    limit,
                                ) {
                                    Err(e) => Err(e),
                                    Ok(_) => match then(
                                        filename_table_result(
                                            s.subrange(
                                                filename_table_offset as int,
                                                filename_storage_offset as int,
                                            ),
                                            filename_storage_size,
                                        ),
                                        file_regions_result(
                                            s.subrange(
                                                file_region_table_offset as int,
                                                debug_data_offset as int,
                                            ),
                                            filename_count,
                                            debug_data_size,
                                        ),
                                    ) {
                                        Err(e) => Err(e),
                                        Ok(_) => Ok(
                                            Some(DebugInfoBounds { debug_data_offset, debug_data_size }),
                                        ),
                                    },
                                },
                            },
                        },
                    }
                }
            },
        }
    }
}

/// Parses and checks the global debug info section.
pub fn parse_debug_info(bytes: &[u8], header: &HermesBytecodeHeader) -> (result: Result<
    Option<DebugInfoBounds>,
    ParseError,
>)
    requires
        header.file_length <= bytes@.len(),
    ensures
        result == debug_info_result(bytes@, *header),
{
    if header.debug_info_offset == 0 {
        return Ok(None);
    }
    let limit = header.file_length.saturating_sub(20);
    let debug_header = match debug_info_bytes(bytes, header.debug_info_offset, DEBUG_INFO_HEADER_SIZE, limit) {
        Ok(b) => b,
        Err(e) => {
            return Err(e);
        },
    };
    let filename_count = read_u32(debug_header, 0);
    let filename_storage_size = read_u32(debug_header, 4);
    let file_region_count = read_u32(debug_header, 8);
    let debug_data_size = read_u32(debug_header, 12);
    assert(filename_count == le_u32(bytes@, header.debug_info_offset as int));
    assert(filename_storage_size == le_u32(bytes@, header.debug_info_offset + 4));
    assert(file_region_count == le_u32(bytes@, header.debug_info_offset + 8));
    assert(debug_data_size == le_u32(bytes@, header.debug_info_offset + 12));

    let header_end = header.debug_info_offset + DEBUG_INFO_HEADER_SIZE;
    let filename_table_size = match filename_count.checked_mul(STRING_TABLE_ENTRY_SIZE) {
        Some(size) => size,
        None => {
            return Err(ParseError::DebugInfoOutOfBounds { offset: header_end, size: u32::MAX, limit });
        },
    };
    let file_region_table_size = match file_region_count.checked_mul(DEBUG_FILE_REGION_SIZE) {
        Some(size) => size,
        None => {
            return Err(ParseError::DebugInfoOutOfBounds { offset: header_end, size: u32::MAX, limit });
        },
    };

    let filename_table_offset = header_end;
    let filename_storage_offset = match checked_debug_info_end(filename_table_offset, filename_table_size, limit) {
        Ok(end) => end,
        Err(e) => {
            return Err(e);
        },
    };
    let file_region_table_offset = match checked_debug_info_end(
        filename_storage_offset,
        filename_storage_size,
        limit,
    ) {
        Ok(end) => end,
        Err(e) => {
            return Err(e);
        },
    };
    let debug_data_offset = match checked_debug_info_end(file_region_table_offset, file_region_table_size, limit) {
        Ok(end) => end,
        Err(e) => {
            return Err(e);
        },
    };
    match checked_debug_info_end(debug_data_offset, debug_data_size, limit) {
        Ok(_) => {},
        Err(e) => {
            return Err(e);
        },
    }

    let filename_table = match debug_info_bytes(bytes, filename_table_offset, filename_table_size, limit) {
        Ok(b) => b,
        Err(e) => {
            return Err(e);
        },
    };
    match validate_debug_filename_table(filename_table, filename_storage_size) {
        Ok(_) => {},
        Err(e) => {
            return Err(e);
        },
    }
    match debug_info_bytes(bytes, filename_storage_offset, filename_storage_size, limit) {
        Ok(_) => {},
        Err(e) => {
            return Err(e);
        },
    }
    let file_region_table = match debug_info_bytes(
        bytes,
        file_region_table_offset,
        file_region_table_size,
        limit,
    ) {
        Ok(b) => b,
        Err(e) => {
            return Err(e);
        },
    };
    match validate_debug_file_regions(file_region_table, filename_count, debug_data_size) {
        Ok(_) => {},
        Err(e) => {
            return Err(e);
        },
    }
    Ok(Some(DebugInfoBounds { debug_data_offset, debug_data_size }))
}

} // verus!
