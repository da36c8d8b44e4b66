//! Validation of every function: its header, its body inside the region
//! before the next function, and its info region.

use vstd::prelude::*;

use crate::hbc::bodies::{function_body_check, validate_function_body, InstructionValidationContext};
use crate::hbc::checks::{first_failure, lemma_first_failure_sticks, lemma_ok_is_unit, then};
use crate::hbc::debug::DebugInfoBounds;
use crate::hbc::error::ParseError;
use crate::hbc::function_header::{decoded_function_header_at, decoded_header_result, DecodedFunctionHeader, HermesFunctionHeader};
use crate::hbc::function_info::{function_info_result, validate_function_info};
use crate::hbc::header::HermesBytecodeHeader;

verus! {

/// Where function bodies and info regions end when nothing closer does:
/// the debug info section when there is one, else the footer.
pub open spec fn region_fallback(h: HermesBytecodeHeader) -> u32 {
    if h.debug_info_offset == 0 {
        if h.file_length >= 20 {
            (h.file_length - 20) as u32
        } else {
            0
        }
    } else {
        h.debug_info_offset
    }
}

/// The `i`-th function header decodes.
pub open spec fn decode_check(s: Seq<u8>, h: HermesBytecodeHeader, table: Seq<u8>) -> spec_fn(int) -> Result<
    (),
    ParseError,
> {
    |i: int|
        match decoded_header_result(s, h, table, i as u32) {
            Ok(_) => Ok(()),
            Err(e) => Err(e),
        }
}

/// Every function header, decoded in order; the first that fails decides the error.
pub open spec fn decoded_headers_result(s: Seq<u8>, h: HermesBytecodeHeader, table: Seq<u8>) -> Result<
    Seq<DecodedFunctionHeader>,
    ParseError,
> {
    match first_failure(h.function_count as int, decode_check(s, h, table)) {
        Err(e) => Err(e),
        Ok(_) => Ok(
            Seq::new(h.function_count as nat, |i: int| decoded_header_result(s, h, table, i as u32)->Ok_0),
        ),
    }
}

/// The smaller of two offsets.
pub open spec fn min_u32(a: u32, b: u32) -> u32 {
    if a <= b {
        a
    } else {
        b
    }
}

/// `limit`, lowered to every large header offset among the first `n` decoded headers.
pub open spec fn below_large_headers(decoded: Seq<DecodedFunctionHeader>, n: int, limit: u32) -> u32
    decreases n,
{
    if n <= 0 {
        limit
    } else {
        let rest = below_large_headers(decoded, n - 1, limit);
        match decoded[n - 1].large_header_offset {
            Some(offset) => min_u32(rest, offset),
            None => rest,
        }
    }
}

/// The smallest body offset above `above` among the first `n` decoded headers.
pub open spec fn next_body_offset(decoded: Seq<DecodedFunctionHeader>, n: int, above: u32) -> Option<u32>
    decreases n,
{
    if n <= 0 {
        None
    } else {
        let rest = next_body_offset(decoded, n - 1, above);
        let offset = decoded[n - 1].header.offset;
        if offset > above {
            match rest {
                Some(m) => Some(min_u32(m, offset)),
                None => Some(offset),
            }
        } else {
            rest
        }
    }
}

/// The smallest large header offset above `above` among the first `n` decoded headers.
pub open spec fn next_large_header_offset(decoded: Seq<DecodedFunctionHeader>, n: int, above: u32) -> Option<u32>
    decreases n,
{
    if n <= 0 {
        None
    } else {
        let rest = next_large_header_offset(decoded, n - 1, above);
        match decoded[n - 1].large_header_offset {
            Some(offset) => if offset > above {
                match rest {
                    Some(m) => Some(min_u32(m, offset)),
                    None => Some(offset),
                }
            } else {
                rest
            },
            None => rest,
        }
    }
}

/// Lowering `limit` to large header offsets never raises it.
pub proof fn lemma_below_large_headers_at_most(decoded: Seq<DecodedFunctionHeader>, n: int, limit: u32)
    ensures
        below_large_headers(decoded, n, limit) <= limit,
    decreases n,
{
    if n > 0 {
        lemma_below_large_headers_at_most(decoded, n - 1, limit);
    }
}

/// Function bodies end before every large function header and before the
/// debug info section or footer.
pub open spec fn body_limit_result(s: Seq<u8>, h: HermesBytecodeHeader, table: Seq<u8>) -> Result<u32, ParseError> {
    match decoded_headers_result(s, h, table) {
        Err(e) => Err(e),
        Ok(decoded) => Ok(below_large_headers(decoded, decoded.len() as int, region_fallback(h))),
    }
}

/// A function body ends by the next body after it, and by the body limit.
pub open spec fn region_limit(header: HermesFunctionHeader, decoded: Seq<DecodedFunctionHeader>, body_limit: u32) -> u32 {
    match next_body_offset(decoded, decoded.len() as int, header.offset) {
        Some(next) => min_u32(next, body_limit),
        None => body_limit,
    }
}

/// A function's info region ends at the next large header after its own,
/// else at the debug info section or footer.
pub open spec fn info_region_limit(
    h: HermesBytecodeHeader,
    large_header_offset: Option<u32>,
    decoded: Seq<DecodedFunctionHeader>,
) -> u32 {
    match large_header_offset {
        None => region_fallback(h),
        Some(own) => match next_large_header_offset(decoded, decoded.len() as int, own) {
            Some(next) => next,
            None => region_fallback(h),
        },
    }
}

/// Returns where function bodies must end: before every large function
/// header, and before the debug info section or footer.
pub fn function_body_limit(bytes: &[u8], header: &HermesBytecodeHeader, function_headers: &[u8]) -> (result: Result<
    u32,
    ParseError,
>)
    requires
        function_headers@.len() == 12 * header.function_count,
        header.file_length <= bytes@.len(),
    ensures
        result == body_limit_result(bytes@, *header, function_headers@),
{
    let fallback = if header.debug_info_offset == 0 {
        header.file_length.saturating_sub(20)
    } else {
        header.debug_info_offset
    };
    let ghost check = decode_check(bytes@, *header, function_headers@);
    let ghost decoded = Seq::new(
        header.function_count as nat,
        |i: int| decoded_header_result(bytes@, *header, function_headers@, i as u32)->Ok_0,
    );
    let mut limit = fallback;
    let mut function_id: u32 = 0;
    while function_id < header.function_count
        invariant
            function_headers@.len() == 12 * header.function_count,
            header.file_length <= bytes@.len(),
            function_id <= header.function_count,
            check == decode_check(bytes@, *header, function_headers@),
            decoded == Seq::new(
                header.function_count as nat,
                |i: int| decoded_header_result(bytes@, *header, function_headers@, i as u32)->Ok_0,
            ),
            first_failure(function_id as int, check) is Ok,
            limit == below_large_headers(decoded, function_id as int, region_fallback(*header)),
        decreases header.function_count - function_id,
    {
        let found = decoded_function_header_at(bytes, header, function_headers, function_id);
        match found {
            Ok(decoded_header) => {
                if let Some(offset) = decoded_header.large_header_offset {
                    if offset < limit {
                        limit = offset;
                    }
                }
            },
            Err(e) => {
                proof {
                    lemma_first_failure_sticks(function_id + 1, header.function_count as int, check);
                }
                return Err(e);
            },
        }
        function_id = function_id + 1;
    }
    Ok(limit)
}

/// Decodes every function header in order.
fn decode_function_headers(bytes: &[u8], header: &HermesBytecodeHeader, function_headers: &[u8]) -> (result: Result<
    Vec<DecodedFunctionHeader>,
    ParseError,
>)
    requires
        function_headers@.len() == 12 * header.function_count,
        header.file_length <= bytes@.len(),
    ensures
        match decoded_headers_result(bytes@, *header, function_headers@) {
            Ok(decoded) => result matches Ok(v) && v@ == decoded,
            Err(e) => result == Err::<Vec<DecodedFunctionHeader>, ParseError>(e),
        },
{
    let ghost check = decode_check(bytes@, *header, function_headers@);
    let mut decoded: Vec<DecodedFunctionHeader> = Vec::new();
    let mut function_id: u32 = 0;
    while function_id < header.function_count
        invariant
            function_headers@.len() == 12 * header.function_count,
            header.file_length <= bytes@.len(),
            function_id <= header.function_count,
            check == decode_check(bytes@, *header, function_headers@),
            first_failure(function_id as int, check) is Ok,
            decoded@.len() == function_id,
            forall|j: int|
                0 <= j < function_id ==> decoded@[j] == decoded_header_result(
                    bytes@,
                    *header,
                    function_headers@,
                    j as u32,
                )->Ok_0,
        decreases header.function_count - function_id,
    {
        match decoded_function_header_at(bytes, header, function_headers, function_id) {
            Ok(decoded_header) => {
                decoded.push(decoded_header);
            },
            Err(e) => {
                proof {
                    lemma_first_failure_sticks(function_id + 1, header.function_count as int, check);
                }
                return Err(e);
            },
        }
        function_id = function_id + 1;
    }
    assert(decoded@ =~= Seq::new(
        header.function_count as nat,
        |i: int| decoded_header_result(bytes@, *header, function_headers@, i as u32)->Ok_0,
    ));
    Ok(decoded)
}

/// Returns the smallest body offset of `function_headers` above the body of `function_header`.
pub fn function_region_limit(function_header: HermesFunctionHeader, function_headers: &Vec<DecodedFunctionHeader>) -> (limit:
    Option<u32>)
    ensures
        limit == next_body_offset(function_headers@, function_headers@.len() as int, function_header.offset),
{
    let mut next: Option<u32> = None;
    let mut i: usize = 0;
    while i < function_headers.len()
        invariant
            i <= function_headers@.len(),
            next == next_body_offset(function_headers@, i as int, function_header.offset),
        decreases function_headers@.len() - i,
    {
        let offset = function_headers[i].header.offset;
        if offset > function_header.offset {
            next = match next {
                Some(m) => Some(if m <= offset {
                    m
                } else {
                    offset
                }),
                None => Some(offset),
            };
        }
        i = i + 1;
    }
    next
}

/// Returns where the info region after the large header at
/// `large_header_offset` ends: at the next large header, else at the debug
/// info section or footer.
pub fn function_info_region_limit(
    header: &HermesBytecodeHeader,
    large_header_offset: Option<u32>,
    function_headers: &Vec<DecodedFunctionHeader>,
) -> (limit: u32)
    ensures
        limit == info_region_limit(*header, large_header_offset, function_headers@),
{
    let fallback = if header.debug_info_offset == 0 {
        header.file_length.saturating_sub(20)
    } else {
        header.debug_info_offset
    };
    let own = match large_header_offset {
        Some(own) => own,
        None => {
            return fallback;
        },
    };
    let mut next: Option<u32> = None;
    let mut i: usize = 0;
    while i < function_headers.len()
        invariant
            i <= function_headers@.len(),
            next == next_large_header_offset(function_headers@, i as int, own),
        decreases function_headers@.len() - i,
    {
        if let Some(offset) = function_headers[i].large_header_offset {
            if offset > own {
                next = match next {
                    Some(m) => Some(if m <= offset {
                        m
                    } else {
                        offset
                    }),
                    None => Some(offset),
                };
            }
        }
        i = i + 1;
    }
    match next {
        Some(limit) => limit,
        None => fallback,
    }
}

/// Function `i`, whose decoded header is `decoded[i]`: its body lies in
/// its region and its instructions are valid, then its info region is valid.
#[verifier::opaque]
pub open spec fn function_result(
    s: Seq<u8>,
    h: HermesBytecodeHeader,
    function_bodies_offset: u32,
    literal_value_buffer: Seq<u8>,
    obj_shape_table: Seq<u8>,
    debug_info: Option<DebugInfoBounds>,
    decoded: Seq<DecodedFunctionHeader>,
    body_limit: u32,
    i: int,
) -> Result<(), ParseError> {
    let d = decoded[i];
    let limit = region_limit(d.header, decoded, body_limit);
    then(
        function_body_check(
            s,
            i as u32,
            d.header,
            function_bodies_offset,
            limit,
            (h, limit, literal_value_buffer, obj_shape_table),
        ),
        function_info_result(s, i as u32, d, info_region_limit(h, d.large_header_offset, decoded), debug_info),
    )
}

pub open spec fn function_check(
    s: Seq<u8>,
    h: HermesBytecodeHeader,
    function_bodies_offset: u32,
    literal_value_buffer: Seq<u8>,
    obj_shape_table: Seq<u8>,
    debug_info: Option<DebugInfoBounds>,
    decoded: Seq<DecodedFunctionHeader>,
    body_limit: u32,
) -> spec_fn(int) -> Result<(), ParseError> {
    |i: int|
        function_result(
            s,
            h,
            function_bodies_offset,
            literal_value_buffer,
            obj_shape_table,
            debug_info,
            decoded,
            body_limit,
            i,
        )
}

/// Checks function `function_id`, whose decoded header is `decoded[function_id]`.
fn validate_function(
    bytes: &[u8],
    header: &HermesBytecodeHeader,
    function_id: u32,
    decoded: &Vec<DecodedFunctionHeader>,
    body_limit: u32,
    function_bodies_offset: u32,
    literal_value_buffer: &[u8],
    obj_shape_table: &[u8],
    debug_info: Option<DebugInfoBounds>,
) -> (result: Result<(), ParseError>)
    requires
        function_id < decoded@.len(),
        obj_shape_table@.len() == 8 * header.obj_shape_table_count,
        literal_value_buffer@.len() <= u32::MAX,
    ensures
        result == function_result(
            bytes@,
            *header,
            function_bodies_offset,
            literal_value_buffer@,
            obj_shape_table@,
            debug_info,
            decoded@,
            body_limit,
            function_id as int,
        ),
{
    reveal(function_result);
    let entry = decoded[function_id as usize];
    let function_header = entry.header;
    let limit = match function_region_limit(function_header, decoded) {
        Some(next) => if next <= body_limit {
            next
        } else {
            body_limit
        },
        None => body_limit,
    };
    let context = InstructionValidationContext {
        header: *header,
        function_region_limit: limit,
        literal_value_buffer,
        obj_shape_table,
    };
    match validate_function_body(bytes, function_id, function_header, function_bodies_offset, limit, &context) {
        Ok(_) => {},
        Err(e) => {
            return Err(e);
        },
    }
    let info_limit = function_info_region_limit(header, entry.large_header_offset, decoded);
    validate_function_info(bytes, function_id, entry, info_limit, debug_info)
}

/// Every function header decodes, and every function, in order, is valid.
pub open spec fn function_headers_result(
    s: Seq<u8>,
    h: HermesBytecodeHeader,
    table: Seq<u8>,
    function_bodies_offset: u32,
    literal_value_buffer: Seq<u8>,
    obj_shape_table: Seq<u8>,
    debug_info: Option<DebugInfoBounds>,
) -> Result<(), ParseError> {
    match decoded_headers_result(s, h, table) {
        Err(e) => Err(e),
        Ok(decoded) => first_failure(
            h.function_count as int,
            function_check(
                s,
                h,
                function_bodies_offset,
                literal_value_buffer,
                obj_shape_table,
                debug_info,
                decoded,
                below_large_headers(decoded, decoded.len() as int, region_fallback(h)),
            ),
        ),
    }
}

/// Checks every function: its header, its body and instructions, and its info region.
pub fn validate_function_headers(
    bytes: &[u8],
    header: &HermesBytecodeHeader,
    function_headers: &[u8],
    function_bodies_offset: u32,
    literal_value_buffer: &[u8],
    obj_shape_table: &[u8],
    debug_info: Option<DebugInfoBounds>,
) -> (result: Result<(), ParseError>)
    requires
        function_headers@.len() == 12 * header.function_count,
        header.file_length <= bytes@.len(),
        obj_shape_table@.len() == 8 * header.obj_shape_table_count,
        literal_value_buffer@.len() <= u32::MAX,
    ensures
        result == function_headers_result(
            bytes@,
            *header,
            function_headers@,
            function_bodies_offset,
            literal_value_buffer@,
            obj_shape_table@,
            debug_info,
        ),
{
    let body_limit = match function_body_limit(bytes, header, function_headers) {
        Ok(limit) => limit,
        Err(e) => {
            return Err(e);
        },
    };
    let decoded = match decode_function_headers(bytes, header, function_headers) {
        Ok(decoded) => decoded,
        Err(e) => {
            return Err(e);
        },
    };
    let ghost check = function_check(
        bytes@,
        *header,
        function_bodies_offset,
        literal_value_buffer@,
        obj_shape_table@,
        debug_info,
        decoded@,
        body_limit,
    );
    let mut function_id: u32 = 0;
    while function_id < header.function_count
        invariant
            decoded@.len() == header.function_count,
            obj_shape_table@.len() == 8 * header.obj_shape_table_count,
            literal_value_buffer@.len() <= u32::MAX,
            function_id <= header.function_count,
            check == function_check(
                bytes@,
                *header,
                function_bodies_offset,
                literal_value_buffer@,
                obj_shape_table@,
                debug_info,
                decoded@,
                body_limit,
            ),
            first_failure(function_id as int, check) is Ok,
            function_headers_result(
                bytes@,
                *header,
                function_headers@,
                function_bodies_offset,
                literal_value_buffer@,
                obj_shape_table@,
                debug_info,
            ) == first_failure(header.function_count as int, check),
        decreases header.function_count - function_id,
    {
        match validate_function(
            bytes,
            header,
            function_id,
            &decoded,
            body_limit,
            function_bodies_offset,
            literal_value_buffer,
            obj_shape_table,
            debug_info,
        ) {
            Ok(_) => {},
            Err(e) => {
                proof {
                    lemma_first_failure_sticks(function_id + 1, header.function_count as int, check);
                }
                return Err(e);
            },
        }
        function_id = function_id + 1;
    }
    proof {
        lemma_ok_is_unit(first_failure(header.function_count as int, check));
    }
    Ok(())
}

} // verus!
