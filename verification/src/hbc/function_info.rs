//! The info region that follows a large function header: the exception
//! handler table and the function's debug offsets.

use vstd::prelude::*;

use crate::hbc::bytes::{le_u32, read_u32};
use crate::hbc::checks::{first_failure, lemma_first_failure_sticks, lemma_ok_is_unit};
use crate::hbc::debug::DebugInfoBounds;
use crate::hbc::error::ParseError;
use crate::hbc::function_header::{
    function_body, function_body_result, DecodedFunctionHeader, HermesFunctionHeader, LARGE_FUNC_HEADER_SIZE,
};
use crate::hbc::instructions::{
    decode_body, instruction_boundaries, instruction_offsets, lemma_decode_offsets_sorted, strictly_increasing,
};
use crate::hbc::layout::{align_u32, aligned_u32, SectionView};
use crate::hbc::locations::{debug_offsets_result, relative_boundary, relative_instruction_boundary, validate_debug_offsets};

verus! {

pub const FUNCTION_INFO_ALIGNMENT: u32 = 4;

pub const EXCEPTION_HANDLER_TABLE_HEADER_SIZE: u32 = 4;

pub const EXCEPTION_HANDLER_ENTRY_SIZE: u32 = 12;

pub const DEBUG_OFFSETS_SIZE: u32 = 4;

/// The error for function info `[offset, offset + size)` outside `[.., limit)`.
pub open spec fn info_error(function_id: u32, offset: u32, size: u32, limit: u32) -> ParseError {
    ParseError::FunctionInfoOutOfBounds { function_id, offset, size, limit }
}

/// The bytes `[offset, offset + size)` of `s`, which must end by `limit`.
pub open spec fn info_bytes_result(s: Seq<u8>, function_id: u32, offset: u32, size: u32, limit: u32) -> Result<
    Seq<u8>,
    ParseError,
> {
    if offset + size > u32::MAX || offset + size > limit || offset + size > s.len() {
        Err(info_error(function_id, offset, size, limit))
    } else {
        Ok(s.subrange(offset as int, offset + size))
    }
}

/// Returns the function info bytes `[offset, offset + size)`, which must end by `limit`.
pub fn function_info_bytes(bytes: &[u8], function_id: u32, offset: u32, size: u32, limit: u32) -> (result: Result<
    &[u8],
    ParseError,
>)
    ensures
        match info_bytes_result(bytes@, function_id, offset, size, limit) {
            Ok(b) => result matches Ok(r) && r@ == b,
            Err(e) => result == Err::<&[u8], ParseError>(e),
        },
{
    if offset > u32::MAX - size {
        return Err(ParseError::FunctionInfoOutOfBounds { function_id, offset, size, limit });
    }
    let end = offset + size;
    if end > limit || end as usize > bytes.len() {
        return Err(ParseError::FunctionInfoOutOfBounds { function_id, offset, size, limit });
    }
    Ok(&bytes[offset as usize..end as usize])
}

/// An exception handler covers `[start, end)` of the body and jumps to
/// `target`: `start` and `target` are instruction boundaries, `end` is one
/// or the body's end, and `start <= end`.
pub open spec fn handler_result(
    function_id: u32,
    body: (u32, Seq<u8>),
    offsets: Seq<u32>,
    entry_index: u32,
    start: u32,
    end: u32,
    target: u32,
) -> Result<(), ParseError> {
    if start <= end && relative_boundary(body, offsets, start as int, false) && relative_boundary(
        body,
        offsets,
        end as int,
        true,
    ) && relative_boundary(body, offsets, target as int, false) {
        Ok(())
    } else {
        Err(
            ParseError::InvalidExceptionHandler {
                function_id,
                entry_index,
                start,
                end,
                target,
                body_size: body.1.len() as u32,
            },
        )
    }
}

/// Checks one exception handler against the instruction boundaries of the body.
pub fn validate_exception_handler(
    function_id: u32,
    body: SectionView<'_>,
    boundaries: &Vec<u32>,
    entry_index: u32,
    start: u32,
    end: u32,
    target: u32,
) -> (result: Result<(), ParseError>)
    requires
        body@.0 + body@.1.len() <= u32::MAX,
        strictly_increasing(boundaries@),
    ensures
        result == handler_result(function_id, body@, boundaries@, entry_index, start, end, target),
{
    let body_size = body.len();
    let valid = start <= end && relative_instruction_boundary(body, start, boundaries, false)
        && relative_instruction_boundary(body, end, boundaries, true) && relative_instruction_boundary(
        body,
        target,
        boundaries,
        false,
    );
    if !valid {
        return Err(
            ParseError::InvalidExceptionHandler { function_id, entry_index, start, end, target, body_size },
        );
    }
    Ok(())
}

/// The `i`-th entry of the exception handler table `table`.
pub open spec fn handler_check(function_id: u32, body: (u32, Seq<u8>), offsets: Seq<u32>, table: Seq<u8>) -> spec_fn(
    int,
) -> Result<(), ParseError> {
    |i: int|
        handler_result(
            function_id,
            body,
            offsets,
            i as u32,
            le_u32(table, 12 * i),
            le_u32(table, 12 * i + 4),
            le_u32(table, 12 * i + 8),
        )
}

/// The exception handler table at `cursor`: a count, then that many
/// entries, each checked against the function's body. Its result is the
/// table's end.
pub open spec fn exception_table_result(
    s: Seq<u8>,
    function_id: u32,
    header: HermesFunctionHeader,
    cursor: u32,
    limit: u32,
) -> Result<u32, ParseError> {
    match info_bytes_result(s, function_id, cursor, 4, limit) {
        Err(e) => Err(e),
        Ok(count_bytes) => {
            let entry_count = le_u32(count_bytes, 0);
            let table_offset = (cursor + 4) as u32;
            if entry_count * 12 > u32::MAX {
                Err(info_error(function_id, table_offset, u32::MAX, limit))
            } else {
                let table_size = (entry_count * 12) as u32;
                match info_bytes_result(s, function_id, table_offset, table_size, limit) {
                    Err(e) => Err(e),
                    Ok(table) => match function_body_result(s, function_id, header) {
                        Err(e) => Err(e),
                        Ok(body) => match decode_body(function_id, body) {
                            Err(e) => Err(e),
                            Ok(instructions) => match first_failure(
                                entry_count as int,
                                handler_check(function_id, body, instruction_offsets(instructions), table),
                            ) {
                                Err(e) => Err(e),
                                Ok(_) => Ok((table_offset + table_size) as u32),
                            },
                        },
                    },
                }
            }
        },
    }
}

/// The function's debug offsets, 4-byte aligned at `cursor`, and the
/// location stream they point at.
pub open spec fn debug_part_result(
    s: Seq<u8>,
    function_id: u32,
    header: HermesFunctionHeader,
    cursor: u32,
    limit: u32,
    debug_info: Option<DebugInfoBounds>,
) -> Result<(), ParseError> {
    match aligned_u32(cursor, 4) {
        None => Err(info_error(function_id, cursor, 4, limit)),
        Some(offsets_offset) => match info_bytes_result(s, function_id, offsets_offset, 4, limit) {
            Err(e) => Err(e),
            Ok(debug_offsets) => match function_body_result(s, function_id, header) {
                Err(e) => Err(e),
                Ok(body) => match decode_body(function_id, body) {
                    Err(e) => Err(e),
                    Ok(instructions) => debug_offsets_result(
                        s,
                        function_id,
                        body,
                        instruction_offsets(instructions),
                        le_u32(debug_offsets, 0),
                        debug_info,
                    ),
                },
            },
        },
    }
}

/// The info region of a function, needed when its flags announce exception
/// handlers or debug info: it follows the large header, 4-byte aligned,
/// and ends by `limit`.
pub open spec fn function_info_result(
    s: Seq<u8>,
    function_id: u32,
    decoded: DecodedFunctionHeader,
    limit: u32,
    debug_info: Option<DebugInfoBounds>,
) -> Result<(), ParseError> {
    let header = decoded.header;
    if !header.spec_has_exception_handler() && !header.spec_has_debug_info() {
        Ok(())
    } else {
        match decoded.large_header_offset {
            None => Err(ParseError::MissingFunctionInfo { function_id }),
            Some(info_offset) => {
                let start = if info_offset + 36 > u32::MAX {
                    None
                } else {
                    aligned_u32((info_offset + 36) as u32, 4)
                };
                match start {
                    None => Err(info_error(function_id, u32::MAX, 4, limit)),
                    Some(cursor) => {
                        let after_handlers = if header.spec_has_exception_handler() {
                            exception_table_result(s, function_id, header, cursor, limit)
                        } else {
                            Ok(cursor)
                        };
                        match after_handlers {
                            Err(e) => Err(e),
                            Ok(after) => if header.spec_has_debug_info() {
                                debug_part_result(s, function_id, header, after, limit, debug_info)
                            } else {
                                Ok(())
                            },
                        }
                    },
                }
            },
        }
    }
}

/// Returns the decoded body of a function and its instruction boundaries.
fn body_boundaries<'a>(bytes: &'a [u8], function_id: u32, header: HermesFunctionHeader) -> (result: Result<
    (SectionView<'a>, Vec<u32>),
    ParseError,
>)
    requires
        header.offset + header.bytecode_size_in_bytes <= u32::MAX,
    ensures
        match function_body_result(bytes@, function_id, header) {
            Err(e) => result == Err::<(SectionView<'a>, Vec<u32>), ParseError>(e),
            Ok(body) => match decode_body(function_id, body) {
                Err(e) => result == Err::<(SectionView<'a>, Vec<u32>), ParseError>(e),
                Ok(instructions) => result matches Ok((view, offsets)) && view@ == body && offsets@
                    == instruction_offsets(instructions) && strictly_increasing(offsets@),
            },
        },
{
    let body = match function_body(bytes, function_id, header) {
        Ok(body) => body,
        Err(e) => {
            return Err(e);
        },
    };
    proof {
        if decode_body(function_id, body@) is Ok {
            lemma_decode_offsets_sorted(function_id, body@);
        }
    }
    match instruction_boundaries(function_id, body) {
        Ok(boundaries) => Ok((body, boundaries)),
        Err(e) => Err(e),
    }
}

/// Checks the exception handler table at `cursor`, returning its end.
fn validate_exception_table(
    bytes: &[u8],
    function_id: u32,
    header: HermesFunctionHeader,
    cursor: u32,
    limit: u32,
) -> (result: Result<u32, ParseError>)
    requires
        header.offset + header.bytecode_size_in_bytes <= u32::MAX,
    ensures
        result == exception_table_result(bytes@, function_id, header, cursor, limit),
{
    let count_bytes = match function_info_bytes(bytes, function_id, cursor, EXCEPTION_HANDLER_TABLE_HEADER_SIZE, limit) {
        Ok(b) => b,
        Err(e) => {
            return Err(e);
        },
    };
    let entry_count = read_u32(count_bytes, 0);
    let table_offset = cursor + EXCEPTION_HANDLER_TABLE_HEADER_SIZE;
    let table_size = match entry_count.checked_mul(EXCEPTION_HANDLER_ENTRY_SIZE) {
        Some(size) => size,
        None => {
            return Err(
                ParseError::FunctionInfoOutOfBounds { function_id, offset: table_offset, size: u32::MAX, limit },
            );
        },
    };
    let table = match function_info_bytes(bytes, function_id, table_offset, table_size, limit) {
        Ok(b) => b,
        Err(e) => {
            return Err(e);
        },
    };
    let (body, boundaries) = match body_boundaries(bytes, function_id, header) {
        Ok(found) => found,
        Err(e) => {
            return Err(e);
        },
    };
    let ghost check = handler_check(function_id, body@, boundaries@, table@);
    let ghost outcome = exception_table_result(bytes@, function_id, header, cursor, limit);
    assert(outcome == match first_failure(entry_count as int, check) {
        Err(e) => Err(e),
        Ok(_) => Ok((table_offset + table_size) as u32),
    });
    let table_len = table.len();
    let mut i: u32 = 0;
    while i < entry_count
        invariant
            table_len == table@.len(),
            table@.len() == 12 * entry_count,
            table_offset + table_size <= u32::MAX,
            outcome == exception_table_result(bytes@, function_id, header, cursor, limit),
            outcome == match first_failure(entry_count as int, check) {
                Err(e) => Err(e),
                Ok(_) => Ok((table_offset + table_size) as u32),
            },
            i <= entry_count,
            body@.0 + body@.1.len() <= u32::MAX,
            strictly_increasing(boundaries@),
            check == handler_check(function_id, body@, boundaries@, table@),
            first_failure(i as int, check) is Ok,
        decreases entry_count - i,
    {
        let at = 12 * (i as usize);
        let start = read_u32(table, at);
        let end = read_u32(table, at + 4);
        let target = read_u32(table, at + 8);
        match validate_exception_handler(function_id, body, &boundaries, i, start, end, target) {
            Ok(_) => {},
            Err(e) => {
                proof {
                    lemma_first_failure_sticks((i + 1) as int, entry_count as int, check);
                }
                return Err(e);
            },
        }
        i = i + 1;
    }
    proof {
        lemma_ok_is_unit(first_failure(entry_count as int, check));
    }
    Ok(table_offset + table_size)
}

/// Checks the function's debug offsets at the aligned `cursor` and the
/// location stream they point at.
fn validate_debug_part(
    bytes: &[u8],
    function_id: u32,
    header: HermesFunctionHeader,
    cursor: u32,
    limit: u32,
    debug_info: Option<DebugInfoBounds>,
) -> (result: Result<(), ParseError>)
    requires
        header.offset + header.bytecode_size_in_bytes <= u32::MAX,
    ensures
        result == debug_part_result(bytes@, function_id, header, cursor, limit, debug_info),
{
    let offsets_offset = match align_u32(cursor, FUNCTION_INFO_ALIGNMENT) {
        Some(offset) => offset,
        None => {
            return Err(
                ParseError::FunctionInfoOutOfBounds { function_id, offset: cursor, size: DEBUG_OFFSETS_SIZE, limit },
            );
        },
    };
    let debug_offsets = match function_info_bytes(bytes, function_id, offsets_offset, DEBUG_OFFSETS_SIZE, limit) {
        Ok(b) => b,
        Err(e) => {
            return Err(e);
        },
    };
    let (body, boundaries) = match body_boundaries(bytes, function_id, header) {
        Ok(found) => found,
        Err(e) => {
            return Err(e);
        },
    };
    validate_debug_offsets(bytes, function_id, body, &boundaries, read_u32(debug_offsets, 0), debug_info)
}

/// Checks a function's info region: its exception handlers and its debug
/// offsets, as its flags announce them.
pub fn validate_function_info(
    bytes: &[u8],
    function_id: u32,
    decoded: DecodedFunctionHeader,
    limit: u32,
    debug_info: Option<DebugInfoBounds>,
) -> (result: Result<(), ParseError>)
    requires
        decoded.header.offset + decoded.header.bytecode_size_in_bytes <= u32::MAX,
    ensures
        result == function_info_result(bytes@, function_id, decoded, limit, debug_info),
{
    let header = decoded.header;
    if !header.has_exception_handler() && !header.has_debug_info() {
        return Ok(());
    }
    let info_offset = match decoded.large_header_offset {
        Some(offset) => offset,
        None => {
            return Err(ParseError::MissingFunctionInfo { function_id });
        },
    };
    let header_size = LARGE_FUNC_HEADER_SIZE as u32;
    let aligned = if info_offset > u32::MAX - header_size {
        None
    } else {
        align_u32(info_offset + header_size, FUNCTION_INFO_ALIGNMENT)
    };
    let mut cursor = match aligned {
        Some(cursor) => cursor,
        None => {
            return Err(
                ParseError::FunctionInfoOutOfBounds {
                    function_id,
                    offset: u32::MAX,
                    size: EXCEPTION_HANDLER_TABLE_HEADER_SIZE,
                    limit,
                },
            );
        },
    };
    if header.has_exception_handler() {
        cursor = match validate_exception_table(bytes, function_id, header, cursor, limit) {
            Ok(end) => end,
            Err(e) => {
                return Err(e);
            },
        };
    }
    if header.has_debug_info() {
        return validate_debug_part(bytes, function_id, header, cursor, limit, debug_info);
    }
    Ok(())
}

} // verus!
