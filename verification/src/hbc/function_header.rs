//! Function headers: the packed 12-byte small form in the function header
//! table, and the 36-byte large form it points to when its fields overflow.

use vstd::prelude::*;

use crate::hbc::bytes::{le_u32, read_u32};
use crate::hbc::error::ParseError;
use crate::hbc::header::HermesBytecodeHeader;
use crate::hbc::layout::SectionView;

verus! {

pub const SMALL_FUNC_HEADER_SIZE: usize = 12;
pub const LARGE_FUNC_HEADER_SIZE: usize = 36;

/// Parsed Hermes runtime function header.
#[derive(Debug, Clone, Copy, PartialEq, Eq)]
pub struct HermesFunctionHeader {
    /// Offset of this function's bytecode body from the start of the file.
    pub offset: u32,
    /// Bytecode body size in bytes.
    pub bytecode_size_in_bytes: u32,
    /// Number of declared parameters.
    pub param_count: u32,
    /// Function loop nesting depth.
    pub loop_depth: u32,
    /// String table id of the function name.
    pub function_name: u32,
    /// Count of number registers.
    pub number_reg_count: u32,
    /// Count of non-pointer registers.
    pub non_ptr_reg_count: u32,
    /// Stack frame size.
    pub frame_size: u32,
    /// Read cache size.
    pub read_cache_size: u8,
    /// Write cache size.
    pub write_cache_size: u8,
    /// Private name cache size.
    pub private_name_cache_size: u8,
    /// Raw Hermes function header flag byte.
    pub flags: u8,
}

impl HermesFunctionHeader {
    /// Strict mode is bit 2 of the flag byte.
    pub open spec fn spec_strict_mode(self) -> bool {
        self.flags & 0b0000_0100 != 0
    }

    /// An exception handler table is announced by bit 3 of the flag byte.
    pub open spec fn spec_has_exception_handler(self) -> bool {
        self.flags & 0b0000_1000 != 0
    }

    /// Debug info is announced by bit 4 of the flag byte.
    pub open spec fn spec_has_debug_info(self) -> bool {
        self.flags & 0b0001_0000 != 0
    }

    /// Returns whether this function is strict mode.
    pub fn strict_mode(self) -> (strict: bool)
        ensures
            strict == self.spec_strict_mode(),
    {
        self.flags & 0b0000_0100 != 0
    }

    /// Returns whether this function has an exception handler table.
    pub fn has_exception_handler(self) -> (has: bool)
        ensures
            has == self.spec_has_exception_handler(),
    {
        self.flags & 0b0000_1000 != 0
    }

    /// Returns whether this function has debug info.
    pub fn has_debug_info(self) -> (has: bool)
        ensures
            has == self.spec_has_debug_info(),
    {
        self.flags & 0b0001_0000 != 0
    }
}

/// The small function header stored at `at`: two packed words, then the
/// frame size, read cache size, write/private cache sizes and flags bytes.
pub open spec fn small_function_header(b: Seq<u8>, at: int) -> HermesFunctionHeader {
    let first_word = le_u32(b, at);
    let second_word = le_u32(b, at + 4);
    let cache_sizes = b[at + 10];
    HermesFunctionHeader {
        offset: first_word & 0x01ff_ffff,
        param_count: (first_word >> 25u32) & 0x1f,
        loop_depth: (first_word >> 30u32) & 0x03,
        bytecode_size_in_bytes: second_word & 0x3fff,
        function_name: (second_word >> 14u32) & 0xff,
        number_reg_count: (second_word >> 22u32) & 0x1f,
        non_ptr_reg_count: (second_word >> 27u32) & 0x1f,
        frame_size: b[at + 8] as u32,
        read_cache_size: b[at + 9],
        write_cache_size: cache_sizes & 0x7f,
        private_name_cache_size: cache_sizes >> 7u8,
        flags: b[at + 11],
    }
}

/// Decoding a small header gives back the fields it was encoded from: for
/// any field values within their bit widths, twelve bytes holding
/// `offset | param_count << 25 | loop_depth << 30`, then
/// `size | name << 14 | number_regs << 22 | non_ptr_regs << 27`, then the
/// frame size, the read cache size, `write_cache | private_cache << 7` and
/// the flags, decode to exactly those values.
pub proof fn lemma_small_header_round_trip(
    b: Seq<u8>,
    at: int,
    offset: u32,
    param_count: u32,
    loop_depth: u32,
    bytecode_size_in_bytes: u32,
    function_name: u32,
    number_reg_count: u32,
    non_ptr_reg_count: u32,
    frame_size: u8,
    read_cache_size: u8,
    write_cache_size: u8,
    private_name_cache_size: u8,
    flags: u8,
)
    requires
        0 <= at,
        at + 12 <= b.len(),
        offset < 0x200_0000,
        param_count < 0x20,
        loop_depth < 4,
        bytecode_size_in_bytes < 0x4000,
        function_name < 0x100,
        number_reg_count < 0x20,
        non_ptr_reg_count < 0x20,
        write_cache_size < 0x80,
        private_name_cache_size < 2,
        le_u32(b, at) == offset + param_count * 0x200_0000 + loop_depth * 0x4000_0000,
        le_u32(b, at + 4) == bytecode_size_in_bytes + function_name * 0x4000 + number_reg_count * 0x40_0000
            + non_ptr_reg_count * 0x800_0000,
        b[at + 8] == frame_size,
        b[at + 9] == read_cache_size,
        b[at + 10] == write_cache_size + private_name_cache_size * 0x80,
        b[at + 11] == flags,
    ensures
        small_function_header(b, at) == (HermesFunctionHeader {
            offset,
            bytecode_size_in_bytes,
            param_count,
            loop_depth,
            function_name,
            number_reg_count,
            non_ptr_reg_count,
            frame_size: frame_size as u32,
            read_cache_size,
            write_cache_size,
            private_name_cache_size,
            flags,
        }),
{
    let first = le_u32(b, at);
    let second = le_u32(b, at + 4);
    let cache = b[at + 10];
    assert(first & 0x01ff_ffff == offset && (first >> 25u32) & 0x1f == param_count && (first >> 30u32) & 0x03
        == loop_depth) by (bit_vector)
        requires
            first == offset + param_count * 0x200_0000 + loop_depth * 0x4000_0000,
            offset < 0x200_0000,
            param_count < 0x20,
            loop_depth < 4,
    ;
    assert(second & 0x3fff == bytecode_size_in_bytes && (second >> 14u32) & 0xff == function_name && (second
        >> 22u32) & 0x1f == number_reg_count && (second >> 27u32) & 0x1f == non_ptr_reg_count) by (bit_vector)
        requires
            second == bytecode_size_in_bytes + function_name * 0x4000 + number_reg_count * 0x40_0000
                + non_ptr_reg_count * 0x800_0000,
            bytecode_size_in_bytes < 0x4000,
            function_name < 0x100,
            number_reg_count < 0x20,
            non_ptr_reg_count < 0x20,
    ;
    assert(cache & 0x7f == write_cache_size && cache >> 7u8 == private_name_cache_size) by (bit_vector)
        requires
            cache == write_cache_size + private_name_cache_size * 0x80,
            write_cache_size < 0x80,
            private_name_cache_size < 2,
    ;
}

/// A small header whose flags have bit 5 set stands for a large header.
pub open spec fn small_header_overflowed(header: HermesFunctionHeader) -> bool {
    header.flags & 0b0010_0000 != 0
}

/// The large function header stored at `at`: eight words, then four bytes.
pub open spec fn large_function_header(b: Seq<u8>, at: int) -> HermesFunctionHeader {
    HermesFunctionHeader {
        offset: le_u32(b, at),
        param_count: le_u32(b, at + 4),
        loop_depth: le_u32(b, at + 8),
        bytecode_size_in_bytes: le_u32(b, at + 12),
        function_name: le_u32(b, at + 16),
        number_reg_count: le_u32(b, at + 20),
        non_ptr_reg_count: le_u32(b, at + 24),
        frame_size: le_u32(b, at + 28),
        read_cache_size: b[at + 32],
        write_cache_size: b[at + 33],
        private_name_cache_size: b[at + 34],
        flags: b[at + 35],
    }
}

/// An overflowed small header splits the large header's file offset: the
/// function name field holds its top byte, the offset field its low 24 bits.
pub open spec fn large_header_offset(small: HermesFunctionHeader) -> u32 {
    ((small.function_name & 0xff) << 24u32) | (small.offset & 0x00ff_ffff)
}

/// Returns the small function header stored at `at`, and whether it overflowed.
pub fn parse_small_function_header(bytes: &[u8], at: usize) -> (decoded: (HermesFunctionHeader, bool))
    requires
        at + 12 <= bytes@.len(),
    ensures
        decoded.0 == small_function_header(bytes@, at as int),
        decoded.1 == small_header_overflowed(decoded.0),
{
    let _len = bytes.len();
    let first_word = read_u32(bytes, at);
    let second_word = read_u32(bytes, at + 4);
    let frame_size = bytes[at + 8];
    let read_cache_size = bytes[at + 9];
    let cache_sizes = bytes[at + 10];
    let flags = bytes[at + 11];
    (
        HermesFunctionHeader {
            offset: first_word & 0x01ff_ffff,
            param_count: (first_word >> 25u32) & 0x1f,
            loop_depth: (first_word >> 30u32) & 0x03,
            bytecode_size_in_bytes: second_word & 0x3fff,
            function_name: (second_word >> 14u32) & 0xff,
            number_reg_count: (second_word >> 22u32) & 0x1f,
            non_ptr_reg_count: (second_word >> 27u32) & 0x1f,
            frame_size: frame_size as u32,
            read_cache_size,
            write_cache_size: cache_sizes & 0x7f,
            private_name_cache_size: cache_sizes >> 7u8,
            flags,
        },
        flags & 0b0010_0000 != 0,
    )
}

/// Returns the large function header stored at `at`.
pub fn parse_large_function_header(bytes: &[u8], at: usize) -> (header: HermesFunctionHeader)
    requires
        at + 36 <= bytes@.len(),
    ensures
        header == large_function_header(bytes@, at as int),
{
    let _len = bytes.len();
    HermesFunctionHeader {
        offset: read_u32(bytes, at),
        param_count: read_u32(bytes, at + 4),
        loop_depth: read_u32(bytes, at + 8),
        bytecode_size_in_bytes: read_u32(bytes, at + 12),
        function_name: read_u32(bytes, at + 16),
        number_reg_count: read_u32(bytes, at + 20),
        non_ptr_reg_count: read_u32(bytes, at + 24),
        frame_size: read_u32(bytes, at + 28),
        read_cache_size: bytes[at + 32],
        write_cache_size: bytes[at + 33],
        private_name_cache_size: bytes[at + 34],
        flags: bytes[at + 35],
    }
}

/// Returns the file offset of the large header an overflowed small header stands for.
pub fn large_header_offset_from_small(header: HermesFunctionHeader) -> (offset: u32)
    ensures
        offset == large_header_offset(header),
{
    ((header.function_name & 0xff) << 24u32) | (header.offset & 0x00ff_ffff)
}

/// A function header together with the file offset of its large form, if any.
#[derive(Debug, Clone, Copy, PartialEq, Eq)]
pub struct DecodedFunctionHeader {
    pub header: HermesFunctionHeader,
    pub large_header_offset: Option<u32>,
}

/// Decoding the header of function `function_id` from the buffer `s`, whose
/// function header table is `table`.
pub open spec fn decoded_header_result(
    s: Seq<u8>,
    h: HermesBytecodeHeader,
    table: Seq<u8>,
    function_id: u32,
) -> Result<DecodedFunctionHeader, ParseError> {
    if function_id >= h.function_count {
        Err(ParseError::InvalidFunctionIndex { function_id, function_count: h.function_count })
    } else {
        let small = small_function_header(table, 12 * function_id);
        if !small_header_overflowed(small) {
            Ok(DecodedFunctionHeader { header: small, large_header_offset: None })
        } else {
            let offset = large_header_offset(small);
            if offset + 36 > usize::MAX || offset + 36 > h.file_length {
                Err(
                    ParseError::LargeFunctionHeaderOutOfBounds {
                        function_id,
                        offset,
                        file_length: h.file_length,
                    },
                )
            } else {
                Ok(
                    DecodedFunctionHeader {
                        header: large_function_header(s, offset as int),
                        large_header_offset: Some(offset),
                    },
                )
            }
        }
    }
}

/// The header of function `function_id`.
pub open spec fn function_header_result(
    s: Seq<u8>,
    h: HermesBytecodeHeader,
    table: Seq<u8>,
    function_id: u32,
) -> Result<HermesFunctionHeader, ParseError> {
    match decoded_header_result(s, h, table, function_id) {
        Ok(decoded) => Ok(decoded.header),
        Err(e) => Err(e),
    }
}

/// Decodes the header of function `function_id`, following an overflowed
/// small header to its large form.
pub fn decoded_function_header_at(
    bytes: &[u8],
    header: &HermesBytecodeHeader,
    function_headers: &[u8],
    function_id: u32,
) -> (result: Result<DecodedFunctionHeader, ParseError>)
    requires
        function_headers@.len() == 12 * header.function_count,
        header.file_length <= bytes@.len(),
    ensures
        result == decoded_header_result(bytes@, *header, function_headers@, function_id),
{
    if function_id >= header.function_count {
        return Err(
            ParseError::InvalidFunctionIndex { function_id, function_count: header.function_count },
        );
    }
    let _table_len = function_headers.len();
    let (small, overflowed) = parse_small_function_header(function_headers, 12 * function_id as usize);
    if !overflowed {
        return Ok(DecodedFunctionHeader { header: small, large_header_offset: None });
    }
    let offset = large_header_offset_from_small(small);
    let start = offset as usize;
    if start > usize::MAX - 36 || start + 36 > header.file_length as usize {
        return Err(
            ParseError::LargeFunctionHeaderOutOfBounds {
                function_id,
                offset,
                file_length: header.file_length,
            },
        );
    }
    Ok(
        DecodedFunctionHeader {
            header: parse_large_function_header(bytes, start),
            large_header_offset: Some(offset),
        },
    )
}

/// Decodes the header of function `function_id`.
pub fn function_header_at(
    bytes: &[u8],
    header: &HermesBytecodeHeader,
    function_headers: &[u8],
    function_id: u32,
) -> (result: Result<HermesFunctionHeader, ParseError>)
    requires
        function_headers@.len() == 12 * header.function_count,
        header.file_length <= bytes@.len(),
    ensures
        result == function_header_result(bytes@, *header, function_headers@, function_id),
{
    match decoded_function_header_at(bytes, header, function_headers, function_id) {
        Ok(decoded) => Ok(decoded.header),
        Err(e) => Err(e),
    }
}

/// The bytecode body of a function: its file offset and bytes.
pub open spec fn function_body_result(s: Seq<u8>, function_id: u32, header: HermesFunctionHeader) -> Result<
    (u32, Seq<u8>),
    ParseError,
> {
    let start = header.offset as int;
    let end = start + header.bytecode_size_in_bytes;
    if end > usize::MAX {
        Err(
            ParseError::FunctionBodyOutOfBounds {
                function_id,
                offset: header.offset,
                size: header.bytecode_size_in_bytes,
                function_bodies_offset: header.offset,
                limit: u32::MAX,
            },
        )
    } else if end > s.len() {
        Err(
            ParseError::FunctionBodyOutOfBounds {
                function_id,
                offset: header.offset,
                size: header.bytecode_size_in_bytes,
                function_bodies_offset: 0,
                limit: if s.len() > u32::MAX {
                    u32::MAX
                } else {
                    s.len() as u32
                },
            },
        )
    } else {
        Ok((header.offset, s.subrange(start, end)))
    }
}

/// Returns the bytecode body of a function as a view into `bytes`.
pub fn function_body<'a>(bytes: &'a [u8], function_id: u32, header: HermesFunctionHeader) -> (result: Result<
    SectionView<'a>,
    ParseError,
>)
    ensures
        match function_body_result(bytes@, function_id, header) {
            Ok(model) => result matches Ok(view) && view@ == model,
            Err(e) => result == Err::<SectionView<'a>, ParseError>(e),
        },
{
    let len = bytes.len();
    let start = header.offset as usize;
    let size = header.bytecode_size_in_bytes as usize;
    if start > usize::MAX - size {
        return Err(
            ParseError::FunctionBodyOutOfBounds {
                function_id,
                offset: header.offset,
                size: header.bytecode_size_in_bytes,
                function_bodies_offset: header.offset,
                limit: u32::MAX,
            },
        );
    }
    let end = start + size;
    if end > len {
        return Err(
            ParseError::FunctionBodyOutOfBounds {
                function_id,
                offset: header.offset,
                size: header.bytecode_size_in_bytes,
                function_bodies_offset: 0,
                limit: if len > u32::MAX as usize {
                    u32::MAX
                } else {
                    len as u32
                },
            },
        );
    }
    Ok(SectionView::new(header.offset, &bytes[start..end]))
}

} // verus!
