//! A function's source location stream in the global debug data: the
//! function id, the first location, then one entry per instruction address
//! that carries a location, ended by an address delta of `-1`.

use vstd::prelude::*;

use crate::hbc::debug::{debug_bytes_result, debug_info_bytes, DebugInfoBounds};
use crate::hbc::error::ParseError;
use crate::hbc::instructions::{is_boundary, is_instruction_boundary, strictly_increasing};
use crate::hbc::layout::SectionView;
use crate::hbc::leb128::{
    add_debug_u32_delta, debug_data_error, debug_data_offset, debug_offset, debug_u32_result,
    delta_result, lemma_sleb_advances, line_column_result, read_debug_u32, read_signed_leb128,
    sleb_result, validate_debug_location_line_column, DEBUG_DATA_ADDRESS_NOT_BOUNDARY,
    DEBUG_DATA_ADDRESS_OUT_OF_BOUNDS, DEBUG_DATA_FUNCTION_MISMATCH, DEBUG_DATA_TRUNCATED_LEB,
};

verus! {

/// The `debug_offsets` value of a function that has no source locations.
pub const DEBUG_OFFSETS_NO_OFFSET: u32 = 0xffff_ffff;

/// Whether `relative` is an instruction boundary of `body`, whose
/// instruction offsets are `offsets`; the end of the body counts too when
/// `allow_body_end` holds.
pub open spec fn relative_boundary(body: (u32, Seq<u8>), offsets: Seq<u32>, relative: int, allow_body_end: bool) -> bool {
    ||| allow_body_end && relative == body.1.len()
    ||| body.0 + relative <= u32::MAX && is_boundary(body, offsets, body.0 + relative)
}

/// Returns whether `relative_offset`, counted from the start of `body`, is an
/// instruction boundary (or, when `allow_body_end` holds, the body's end).
pub fn relative_instruction_boundary(
    body: SectionView<'_>,
    relative_offset: u32,
    boundaries: &Vec<u32>,
    allow_body_end: bool,
) -> (found: bool)
    requires
        body@.0 + body@.1.len() <= u32::MAX,
        strictly_increasing(boundaries@),
    ensures
        found == relative_boundary(body@, boundaries@, relative_offset as int, allow_body_end),
{
    if allow_body_end && relative_offset == body.len() {
        return true;
    }
    let offset = body.offset();
    if offset > u32::MAX - relative_offset {
        return false;
    }
    is_instruction_boundary(body, (offset + relative_offset) as i64, boundaries)
}

/// The optional delta read at `cursor` when `present` holds; zero otherwise.
pub open spec fn optional_delta(
    data: Seq<u8>,
    cursor: int,
    present: bool,
    function_id: u32,
    source_locations: u32,
) -> Result<(i64, int), ParseError> {
    if present {
        sleb_result(data, cursor, function_id, source_locations)
    } else {
        Ok((0i64, cursor))
    }
}

/// A location change whose line delta `line_delta` (read at `line_offset`)
/// has its low bit set: a column delta, then a statement delta and an
/// environment delta when bits 1 and 2 say so, applied to the current
/// location. Its result is the position after it and the new line, column,
/// statement and environment index.
pub open spec fn location_change(
    function_id: u32,
    source_locations: u32,
    data: Seq<u8>,
    cursor: int,
    line_delta: i64,
    line_offset: u32,
    location: (u32, u32, u32, u32),
) -> Result<(int, (u32, u32, u32, u32)), ParseError> {
    let column_offset = debug_offset(source_locations, cursor);
    match sleb_result(data, cursor, function_id, source_locations) {
        Err(e) => Err(e),
        Ok((column_delta, after_column)) => match optional_delta(
            data,
            after_column,
            line_delta & 2 != 0,
            function_id,
            source_locations,
        ) {
            Err(e) => Err(e),
            Ok((statement_delta, after_statement)) => match optional_delta(
                data,
                after_statement,
                line_delta & 4 != 0,
                function_id,
                source_locations,
            ) {
                Err(e) => Err(e),
                Ok((env_delta, after_env)) => match delta_result(
                    location.0,
                    line_delta >> 3,
                    function_id,
                    line_offset,
                ) {
                    Err(e) => Err(e),
                    Ok(line) => match delta_result(location.1, column_delta, function_id, column_offset) {
                        Err(e) => Err(e),
                        Ok(column) => match delta_result(location.2, statement_delta, function_id, line_offset) {
                            Err(e) => Err(e),
                            Ok(statement) => match delta_result(location.3, env_delta, function_id, line_offset) {
                                Err(e) => Err(e),
                                Ok(env) => match line_column_result(function_id, line_offset, line, column, false) {
                                    Err(e) => Err(e),
                                    Ok(_) => Ok((after_env, (line, column, statement, env))),
                                },
                            },
                        },
                    },
                },
            },
        },
    }
}

pub proof fn lemma_location_change_advances(
    function_id: u32,
    source_locations: u32,
    data: Seq<u8>,
    cursor: int,
    line_delta: i64,
    line_offset: u32,
    location: (u32, u32, u32, u32),
)
    requires
        location_change(function_id, source_locations, data, cursor, line_delta, line_offset, location) is Ok,
    ensures
        cursor < location_change(function_id, source_locations, data, cursor, line_delta, line_offset, location)->Ok_0.0
            <= data.len(),
{
    lemma_sleb_advances(data, cursor, function_id, source_locations);
    let after_column = sleb_result(data, cursor, function_id, source_locations)->Ok_0.1;
    if line_delta & 2 != 0 {
        lemma_sleb_advances(data, after_column, function_id, source_locations);
    }
    let after_statement = optional_delta(data, after_column, line_delta & 2 != 0, function_id, source_locations)->Ok_0.1;
    if line_delta & 4 != 0 {
        lemma_sleb_advances(data, after_statement, function_id, source_locations);
    }
}

/// The rest of a location stream from `cursor`, at instruction address
/// `address` and location `location` (line, column, statement, environment
/// index): each entry moves the address to an instruction boundary of the
/// body and, when the low bit of its line delta is set, changes the location.
pub open spec fn location_walk(
    function_id: u32,
    body: (u32, Seq<u8>),
    offsets: Seq<u32>,
    source_locations: u32,
    data: Seq<u8>,
    cursor: int,
    address: int,
    location: (u32, u32, u32, u32),
) -> Result<(), ParseError>
    decreases data.len() - cursor,
{
    let address_offset = debug_offset(source_locations, cursor);
    match sleb_result(data, cursor, function_id, source_locations) {
        Err(e) => Err(e),
        Ok((address_delta, after_address)) => {
            let next_address = address + address_delta;
            if address_delta == -1 {
                Ok(())
            } else if next_address < 0 || next_address >= body.1.len() {
                Err(debug_data_error(function_id, address_offset, DEBUG_DATA_ADDRESS_OUT_OF_BOUNDS))
            } else if !relative_boundary(body, offsets, next_address, false) {
                Err(debug_data_error(function_id, address_offset, DEBUG_DATA_ADDRESS_NOT_BOUNDARY))
            } else {
                let line_offset = debug_offset(source_locations, after_address);
                match sleb_result(data, after_address, function_id, source_locations) {
                    Err(e) => Err(e),
                    Ok((line_delta, after_line)) => {
                        proof {
                            lemma_sleb_advances(data, cursor, function_id, source_locations);
                            lemma_sleb_advances(data, after_address, function_id, source_locations);
                        }
                        if line_delta & 1 == 0 {
                            location_walk(
                                function_id,
                                body,
                                offsets,
                                source_locations,
                                data,
                                after_line,
                                next_address,
                                location,
                            )
                        } else {
                            match location_change(
                                function_id,
                                source_locations,
                                data,
                                after_line,
                                line_delta,
                                line_offset,
                                location,
                            ) {
                                Err(e) => Err(e),
                                Ok((after_change, changed)) => {
                                    proof {
                                        lemma_location_change_advances(
                                            function_id,
                                            source_locations,
                                            data,
                                            after_line,
                                            line_delta,
                                            line_offset,
                                            location,
                                        );
                                    }
                                    location_walk(
                                        function_id,
                                        body,
                                        offsets,
                                        source_locations,
                                        data,
                                        after_change,
                                        next_address,
                                        changed,
                                    )
                                },
                            }
                        }
                    },
                }
            }
        },
    }
}

/// A function's whole location stream `data`, which starts at
/// `source_locations` in the global debug data: the function id, the first
/// line, column and environment index, then the entries.
pub open spec fn source_locations_result(
    function_id: u32,
    body: (u32, Seq<u8>),
    offsets: Seq<u32>,
    source_locations: u32,
    data: Seq<u8>,
) -> Result<(), ParseError> {
    match sleb_result(data, 0, function_id, source_locations) {
        Err(e) => Err(e),
        Ok((stream_function_id, after_id)) => if stream_function_id != function_id {
            Err(debug_data_error(function_id, source_locations, DEBUG_DATA_FUNCTION_MISMATCH))
        } else {
            match debug_u32_result(data, after_id, function_id, source_locations) {
                Err(e) => Err(e),
                Ok((line, after_line)) => match debug_u32_result(data, after_line, function_id, source_locations) {
                    Err(e) => Err(e),
                    Ok((column, after_column)) => match debug_u32_result(
                        data,
                        after_column,
                        function_id,
                        source_locations,
                    ) {
                        Err(e) => Err(e),
                        Ok((env, after_env)) => match line_column_result(
                            function_id,
                            source_locations,
                            line,
                            column,
                            true,
                        ) {
                            Err(e) => Err(e),
                            Ok(_) => location_walk(
                                function_id,
                                body,
                                offsets,
                                source_locations,
                                data,
                                after_env,
                                0,
                                (line, column, 0u32, env),
                            ),
                        },
                    },
                },
            }
        },
    }
}

/// Reads a location change whose line delta has its low bit set.
fn read_location_change(
    function_id: u32,
    source_locations: u32,
    data: &[u8],
    cursor: usize,
    line_delta: i64,
    line_offset: u32,
    location: (u32, u32, u32, u32),
) -> (result: Result<(usize, (u32, u32, u32, u32)), ParseError>)
    ensures
        match location_change(
            function_id,
            source_locations,
            data@,
            cursor as int,
            line_delta,
            line_offset,
            location,
        ) {
            Ok((next, changed)) => result matches Ok((n, c)) && n == next && c == changed,
            Err(e) => result == Err::<(usize, (u32, u32, u32, u32)), ParseError>(e),
        },
{
    let column_offset = debug_data_offset(source_locations, cursor);
    let (column_delta, after_column) = match read_signed_leb128(data, cursor, function_id, source_locations) {
        Ok(read) => read,
        Err(e) => {
            return Err(e);
        },
    };
    let mut statement_delta: i64 = 0;
    let mut after_statement = after_column;
    if line_delta & 2 != 0 {
        match read_signed_leb128(data, after_column, function_id, source_locations) {
            Ok((delta, next)) => {
                statement_delta = delta;
                after_statement = next;
            },
            Err(e) => {
                return Err(e);
            },
        }
    }
    let mut env_delta: i64 = 0;
    let mut after_env = after_statement;
    if line_delta & 4 != 0 {
        match read_signed_leb128(data, after_statement, function_id, source_locations) {
            Ok((delta, next)) => {
                env_delta = delta;
                after_env = next;
            },
            Err(e) => {
                return Err(e);
            },
        }
    }
    let line = match add_debug_u32_delta(location.0, line_delta >> 3, function_id, line_offset) {
        Ok(v) => v,
        Err(e) => {
            return Err(e);
        },
    };
    let column = match add_debug_u32_delta(location.1, column_delta, function_id, column_offset) {
        Ok(v) => v,
        Err(e) => {
            return Err(e);
        },
    };
    let statement = match add_debug_u32_delta(location.2, statement_delta, function_id, line_offset) {
        Ok(v) => v,
        Err(e) => {
            return Err(e);
        },
    };
    let env = match add_debug_u32_delta(location.3, env_delta, function_id, line_offset) {
        Ok(v) => v,
        Err(e) => {
            return Err(e);
        },
    };
    match validate_debug_location_line_column(function_id, line_offset, line, column, false) {
        Ok(_) => {},
        Err(e) => {
            return Err(e);
        },
    }
    Ok((after_env, (line, column, statement, env)))
}

/// Checks a function's location stream `data`, which starts at
/// `source_locations` in the global debug data, against its body and
/// instruction boundaries.
pub fn validate_debug_source_locations(
    function_id: u32,
    body: SectionView<'_>,
    boundaries: &Vec<u32>,
    source_locations: u32,
    data: &[u8],
) -> (result: Result<(), ParseError>)
    requires
        body@.0 + body@.1.len() <= u32::MAX,
        strictly_increasing(boundaries@),
    ensures
        result == source_locations_result(function_id, body@, boundaries@, source_locations, data@),
{
    let (stream_function_id, after_id) = match read_signed_leb128(data, 0, function_id, source_locations) {
        Ok(read) => read,
        Err(e) => {
            return Err(e);
        },
    };
    if stream_function_id < 0 || stream_function_id != function_id as i64 {
        return Err(
            ParseError::InvalidDebugData {
                function_id,
                offset: source_locations,
                reason: DEBUG_DATA_FUNCTION_MISMATCH,
            },
        );
    }
    let (line, after_line) = match read_debug_u32(data, after_id, function_id, source_locations) {
        Ok(read) => read,
        Err(e) => {
            return Err(e);
        },
    };
    let (column, after_column) = match read_debug_u32(data, after_line, function_id, source_locations) {
        Ok(read) => read,
        Err(e) => {
            return Err(e);
        },
    };
    let (env, after_env) = match read_debug_u32(data, after_column, function_id, source_locations) {
        Ok(read) => read,
        Err(e) => {
            return Err(e);
        },
    };
    match validate_debug_location_line_column(function_id, source_locations, line, column, true) {
        Ok(_) => {},
        Err(e) => {
            return Err(e);
        },
    }

    let ghost whole = source_locations_result(function_id, body@, boundaries@, source_locations, data@);
    let len = data.len();
    let body_len = body.len();
    let mut cursor = after_env;
    let mut address: i64 = 0;
    let mut location: (u32, u32, u32, u32) = (line, column, 0, env);
    proof {
        lemma_sleb_advances(data@, after_column as int, function_id, source_locations);
    }
    loop
        invariant
            len == data@.len(),
            body_len == body@.1.len(),
            body@.0 + body@.1.len() <= u32::MAX,
            strictly_increasing(boundaries@),
            cursor <= len,
            0 <= address <= u32::MAX,
            whole == source_locations_result(function_id, body@, boundaries@, source_locations, data@),
            whole == location_walk(
                function_id,
                body@,
                boundaries@,
                source_locations,
                data@,
                cursor as int,
                address as int,
                location,
            ),
        decreases len - cursor,
    {
        let address_offset = debug_data_offset(source_locations, cursor);
        let (address_delta, after_address) = match read_signed_leb128(
            data,
            cursor,
            function_id,
            source_locations,
        ) {
            Ok(read) => read,
            Err(e) => {
                return Err(e);
            },
        };
        if address_delta == -1 {
            return Ok(());
        }
        let next_address = address as i128 + address_delta as i128;
        if next_address < 0 || next_address >= body_len as i128 {
            return Err(
                ParseError::InvalidDebugData {
                    function_id,
                    offset: address_offset,
                    reason: DEBUG_DATA_ADDRESS_OUT_OF_BOUNDS,
                },
            );
        }
        if !relative_instruction_boundary(body, next_address as u32, boundaries, false) {
            return Err(
                ParseError::InvalidDebugData {
                    function_id,
                    offset: address_offset,
                    reason: DEBUG_DATA_ADDRESS_NOT_BOUNDARY,
                },
            );
        }
        let line_offset = debug_data_offset(source_locations, after_address);
        let (line_delta, after_line_delta) = match read_signed_leb128(
            data,
            after_address,
            function_id,
            source_locations,
        ) {
            Ok(read) => read,
            Err(e) => {
                return Err(e);
            },
        };
        proof {
            lemma_sleb_advances(data@, cursor as int, function_id, source_locations);
            lemma_sleb_advances(data@, after_address as int, function_id, source_locations);
        }
        address = next_address as i64;
        if line_delta & 1 == 0 {
            cursor = after_line_delta;
        } else {
            match read_location_change(
                function_id,
                source_locations,
                data,
                after_line_delta,
                line_delta,
                line_offset,
                location,
            ) {
                Ok((next, changed)) => {
                    proof {
                        lemma_location_change_advances(
                            function_id,
                            source_locations,
                            data@,
                            after_line_delta as int,
                            line_delta,
                            line_offset,
                            location,
                        );
                    }
                    cursor = next;
                    location = changed;
                },
                Err(e) => {
                    return Err(e);
                },
            }
        }
    }
}

/// A function's `debug_offsets` entry `source_locations`: no locations, or
/// a location stream inside the global debug data, read from the buffer `s`.
pub open spec fn debug_offsets_result(
    s: Seq<u8>,
    function_id: u32,
    body: (u32, Seq<u8>),
    offsets: Seq<u32>,
    source_locations: u32,
    debug_info: Option<DebugInfoBounds>,
) -> Result<(), ParseError> {
    if source_locations == DEBUG_OFFSETS_NO_OFFSET {
        Ok(())
    } else {
        match debug_info {
            None => Err(ParseError::InvalidDebugOffset { function_id, source_locations, debug_data_size: 0 }),
            Some(info) => if source_locations >= info.debug_data_size {
                Err(
                    ParseError::InvalidDebugOffset {
                        function_id,
                        source_locations,
                        debug_data_size: info.debug_data_size,
                    },
                )
            } else if info.debug_data_offset + source_locations > u32::MAX {
                Err(debug_data_error(function_id, source_locations, DEBUG_DATA_ADDRESS_OUT_OF_BOUNDS))
            } else {
                match debug_bytes_result(
                    s,
                    (info.debug_data_offset + source_locations) as u32,
                    (info.debug_data_size - source_locations) as u32,
                    u32::MAX,
                ) {
                    Err(_) => Err(debug_data_error(function_id, source_locations, DEBUG_DATA_TRUNCATED_LEB)),
                    Ok(data) => source_locations_result(function_id, body, offsets, source_locations, data),
                }
            },
        }
    }
}

/// Checks a function's `debug_offsets` entry and, when it points at one, its
/// location stream.
pub fn validate_debug_offsets(
    bytes: &[u8],
    function_id: u32,
    body: SectionView<'_>,
    boundaries: &Vec<u32>,
    source_locations: u32,
    debug_info: Option<DebugInfoBounds>,
) -> (result: Result<(), ParseError>)
    requires
        body@.0 + body@.1.len() <= u32::MAX,
        strictly_increasing(boundaries@),
    ensures
        result == debug_offsets_result(bytes@, function_id, body@, boundaries@, source_locations, debug_info),
{
    if source_locations == DEBUG_OFFSETS_NO_OFFSET {
        return Ok(());
    }
    let info = match debug_info {
        Some(info) => info,
        None => {
            return Err(ParseError::InvalidDebugOffset { function_id, source_locations, debug_data_size: 0 });
        },
    };
    let debug_data_size = info.debug_data_size;
    if source_locations >= debug_data_size {
        return Err(ParseError::InvalidDebugOffset { function_id, source_locations, debug_data_size });
    }
    if info.debug_data_offset > u32::MAX - source_locations {
        return Err(
            ParseError::InvalidDebugData {
                function_id,
                offset: source_locations,
                reason: DEBUG_DATA_ADDRESS_OUT_OF_BOUNDS,
            },
        );
    }
    let stream_offset = info.debug_data_offset + source_locations;
    let stream_size = debug_data_size - source_locations;
    let stream = match debug_info_bytes(bytes, stream_offset, stream_size, u32::MAX) {
        Ok(stream) => stream,
        Err(_) => {
            return Err(
                ParseError::InvalidDebugData {
                    function_id,
                    offset: source_locations,
                    reason: DEBUG_DATA_TRUNCATED_LEB,
                },
            );
        },
    };
    validate_debug_source_locations(function_id, body, boundaries, source_locations, stream)
}

} // verus!
