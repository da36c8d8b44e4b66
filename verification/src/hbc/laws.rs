//! What every successfully parsed bytecode buffer satisfies.

use vstd::prelude::*;

use crate::hbc::bytecode::{
    bytecode_function_body, bytecode_function_header, bytecode_function_instructions, bytecode_result,
    file_of, lemma_parsed_function, lemma_parsed_shape, parses_to,
};
use crate::hbc::bodies::{instruction_check, instruction_stream_result};
use crate::hbc::checks::lemma_first_failure_ok;
use crate::hbc::debug::debug_info_result;
use crate::hbc::error::ParseError;
use crate::hbc::function_header::{decoded_header_result, function_body_result};
use crate::hbc::functions::{
    below_large_headers, decoded_headers_result, function_check, function_result, region_fallback, region_limit,
};
use crate::hbc::operands::{jump_operand_result, literal_operands_result, table_operands_result};
use crate::hbc::function_header::{
    large_function_header, large_header_offset, small_function_header, HermesFunctionHeader,
};
use crate::hbc::bytes::le_u32;
use crate::hbc::header::{
    header_error, header_fields, header_of, lemma_header_of, lemma_header_of_agrees, HermesBytecodeHeader,
};
use crate::hbc::instructions::{
    decode_body, instruction_offsets, lemma_decode_shape, lemma_decode_tiles, lemma_stream_items_decode, stream_items,
    HermesInstruction, HERMES_OPCODE_WIDTHS,
};
use crate::hbc::layout::{
    function_bodies_offset, lemma_layout_section, section_bytes, section_entry_size, section_offset, section_size,
};
use crate::hbc::metadata::metadata_result;
use crate::hbc::sections::{
    file_sections, lemma_prefix_sections, lemma_section_lengths, section_checks_result, sections_result,
};
use crate::hbc::tables::header_counts_result;

verus! {

/// A buffer that parses to `(h, m)` parses to them through its own header.
pub(crate) proof fn lemma_parsed(s: Seq<u8>, h: HermesBytecodeHeader, m: (Seq<(u32, Seq<u8>)>, u32))
    requires
        bytecode_result(s) == Ok::<(HermesBytecodeHeader, (Seq<(u32, Seq<u8>)>, u32)), ParseError>((h, m)),
    ensures
        parses_to(s, h, m),
        h == header_of(s),
{
    lemma_header_of(s);
}

/// Parsing reads the file header itself: the header of a parsed buffer is the
/// one that the header parser reads from it, and its counts agree with each
/// other (identifiers are strings; the global function is a declared one, or
/// function zero of an empty table).
pub proof fn lemma_parse_reads_the_header(s: Seq<u8>, h: HermesBytecodeHeader, m: (Seq<(u32, Seq<u8>)>, u32))
    requires
        bytecode_result(s) == Ok::<(HermesBytecodeHeader, (Seq<(u32, Seq<u8>)>, u32)), ParseError>((h, m)),
    ensures
        header_error(s) is None,
        h == header_of(s),
        header_fields(h, s),
        h.identifier_count <= h.string_count,
        h.function_count == 0 ==> h.global_code_index == 0,
        h.function_count > 0 ==> h.global_code_index < h.function_count,
{
    lemma_parsed(s, h, m);
    assert(header_counts_result(h) is Ok);
}

/// A parsed bytecode copies nothing: each of its fifteen sections is the
/// slice of the input at the section's offset. The sections follow the
/// header in file order, at 4-byte aligned offsets, without overlapping;
/// function bodies begin where the last section ends; and a footer fits
/// between them and the end of the file, which lies inside the input.
pub proof fn lemma_sections_are_input_slices(s: Seq<u8>, h: HermesBytecodeHeader, m: (Seq<(u32, Seq<u8>)>, u32))
    requires
        bytecode_result(s) == Ok::<(HermesBytecodeHeader, (Seq<(u32, Seq<u8>)>, u32)), ParseError>((h, m)),
    ensures
        m.0.len() == 15,
        forall|i: int|
            0 <= i < 15 ==> #[trigger] m.0[i].1 == s.subrange(m.0[i].0 as int, m.0[i].0 + m.0[i].1.len()),
        forall|i: int| 0 <= i < 15 ==> #[trigger] m.0[i].0 % 4 == 0 && 128 <= m.0[i].0,
        forall|i: int| 0 <= i < 14 ==> #[trigger] m.0[i].0 + m.0[i].1.len() <= m.0[i + 1].0,
        m.0[14].0 + m.0[14].1.len() == m.1,
        m.1 + 20 <= h.file_length <= s.len(),
{
    lemma_parsed(s, h, m);
    lemma_parsed_shape(s, h, m);
    let f = file_of(s, h);
    lemma_prefix_sections(s, h, f);
    assert forall|i: int| 0 <= i < 15 implies {
        &&& #[trigger] m.0[i].1 == s.subrange(m.0[i].0 as int, m.0[i].0 + m.0[i].1.len())
        &&& m.0[i].0 % 4 == 0
        &&& 128 <= m.0[i].0
        &&& m.0[i].0 == section_offset(h, i)
        &&& m.0[i].1.len() == section_size(h, i)
    } by {
        lemma_layout_section(h, i);
        assert(m.0[i] == file_sections(f, h)[i]);
    }
    assert forall|i: int| 0 <= i < 14 implies #[trigger] m.0[i].0 + m.0[i].1.len() <= m.0[i + 1].0 by {
        lemma_layout_section(h, i);
        lemma_layout_section(h, i + 1);
        assert(m.0[i] == file_sections(f, h)[i]);
        assert(m.0[i + 1] == file_sections(f, h)[i + 1]);
    }
    lemma_layout_section(h, 14);
    assert(m.0[14] == file_sections(f, h)[14]);
    reveal(function_bodies_offset);
}

/// The functions of a parsed bytecode are exactly its declared ones. For
/// `function_id < function_count` the header, the body and the instructions
/// are all found, and the body lies after the structured sections and at
/// least a footer before the end of the file; any other id is refused as
/// an invalid function index, by all three lookups alike.
pub proof fn lemma_function_lookup(
    s: Seq<u8>,
    h: HermesBytecodeHeader,
    m: (Seq<(u32, Seq<u8>)>, u32),
    function_id: u32,
)
    requires
        bytecode_result(s) == Ok::<(HermesBytecodeHeader, (Seq<(u32, Seq<u8>)>, u32)), ParseError>((h, m)),
    ensures
        function_id < h.function_count ==> {
            &&& bytecode_function_header((s, h, m), function_id) is Ok
            &&& bytecode_function_body((s, h, m), function_id) matches Ok(body) && m.1 <= body.0 && body.0
                + body.1.len() + 20 <= h.file_length
            &&& bytecode_function_instructions((s, h, m), function_id) is Ok
        },
        function_id >= h.function_count ==> {
            let refused = ParseError::InvalidFunctionIndex { function_id, function_count: h.function_count };
            &&& bytecode_function_header((s, h, m), function_id) == Err::<HermesFunctionHeader, ParseError>(refused)
            &&& bytecode_function_body((s, h, m), function_id) == Err::<(u32, Seq<u8>), ParseError>(refused)
            &&& bytecode_function_instructions((s, h, m), function_id) == Err::<Seq<HermesInstruction>, ParseError>(
                refused,
            )
        },
{
    lemma_parsed(s, h, m);
    if function_id < h.function_count {
        lemma_parsed_function(s, h, m, function_id);
    }
}

/// A parsed bytecode has a global function exactly when it declares any function.
pub proof fn lemma_global_function_exists(s: Seq<u8>, h: HermesBytecodeHeader, m: (Seq<(u32, Seq<u8>)>, u32))
    requires
        bytecode_result(s) == Ok::<(HermesBytecodeHeader, (Seq<(u32, Seq<u8>)>, u32)), ParseError>((h, m)),
    ensures
        (bytecode_function_header((s, h, m), h.global_code_index) is Ok) == (h.function_count > 0),
        (bytecode_function_instructions((s, h, m), h.global_code_index) is Ok) == (h.function_count > 0),
{
    lemma_parse_reads_the_header(s, h, m);
    lemma_function_lookup(s, h, m, h.global_code_index);
}

/// The instructions of every function of a parsed bytecode tile its body:
/// none for an empty body; otherwise the first starts at the body's start,
/// each next one starts where the previous one ends, and the last one ends
/// at the body's end. Each instruction's opcode is the input byte at its
/// offset, a known opcode, and its width is that opcode's width.
pub proof fn lemma_function_instructions_tile_body(
    s: Seq<u8>,
    h: HermesBytecodeHeader,
    m: (Seq<(u32, Seq<u8>)>, u32),
    function_id: u32,
)
    requires
        bytecode_result(s) == Ok::<(HermesBytecodeHeader, (Seq<(u32, Seq<u8>)>, u32)), ParseError>((h, m)),
        function_id < h.function_count,
    ensures
        bytecode_function_body((s, h, m), function_id) matches Ok(body) && bytecode_function_instructions(
            (s, h, m),
            function_id,
        ) matches Ok(is) && {
            &&& (is.len() == 0) == (body.1.len() == 0)
            &&& is.len() > 0 ==> is[0].offset == body.0 && is.last().offset + is.last().width == body.0
                + body.1.len()
            &&& forall|k: int| 0 <= k < is.len() - 1 ==> #[trigger] is[k + 1].offset == is[k].offset + is[k].width
            &&& forall|k: int|
                0 <= k < is.len() ==> {
                    &&& (#[trigger] is[k]).opcode < 220
                    &&& is[k].width == HERMES_OPCODE_WIDTHS[is[k].opcode as int]
                    &&& s[is[k].offset as int] == is[k].opcode
                }
        },
{
    lemma_parsed(s, h, m);
    lemma_parsed_shape(s, h, m);
    lemma_parsed_function(s, h, m, function_id);
    let body = bytecode_function_body((s, h, m), function_id)->Ok_0;
    lemma_decode_tiles(function_id, body.0, body.1, 0);
    lemma_decode_shape(function_id, body.0, body.1, 0);
    let is = decode_body(function_id, body)->Ok_0;
    assert forall|k: int| 0 <= k < is.len() implies s[(#[trigger] is[k]).offset as int] == is[k].opcode by {
        assert(body.1[is[k].offset - body.0] == file_of(s, h)[is[k].offset as int]);
    }
}

/// The metadata of a buffer describes the file as parsing lays it out: the
/// function headers come first, right after the file header; function bodies
/// begin after the function source table; and the global function's body
/// lies among them, at least a footer before the end of the file.
pub proof fn lemma_metadata_layout(s: Seq<u8>)
    requires
        metadata_result(s) is Ok,
    ensures
        ({
            let md = metadata_result(s)->Ok_0;
            &&& md.function_headers_offset == 128
            &&& md.function_headers_size == 12 * md.function_count
            &&& md.function_source_table_offset + md.function_source_table_size <= md.function_bodies_offset
            &&& md.function_bodies_offset <= md.global_function_offset
            &&& md.global_function_offset + md.global_function_size + 20 <= md.file_length
            &&& md.global_code_index < md.function_count
        }),
{
    let (h, m) = bytecode_result(s)->Ok_0;
    lemma_sections_are_input_slices(s, h, m);
    lemma_parse_reads_the_header(s, h, m);
    lemma_parsed(s, h, m);
    lemma_parsed_shape(s, h, m);
    lemma_section_lengths(s, h);
    lemma_layout_section(h, 0);
    assert(m.0[0] == file_sections(s, h)[0]);
    assert(m.0[13].0 + m.0[13].1.len() <= m.0[14].0);
    lemma_function_lookup(s, h, m, h.global_code_index);
}

/// What parsing accepts is valid: in every function of a parsed bytecode,
/// each instruction's table operands index into their tables, its literal
/// buffer references hold well-formed literals, and each jump lands on an
/// instruction boundary of the same function.
pub proof fn lemma_parsed_operands_are_valid(
    s: Seq<u8>,
    h: HermesBytecodeHeader,
    m: (Seq<(u32, Seq<u8>)>, u32),
    function_id: u32,
    k: int,
)
    requires
        bytecode_result(s) == Ok::<(HermesBytecodeHeader, (Seq<(u32, Seq<u8>)>, u32)), ParseError>((h, m)),
        function_id < h.function_count,
    ensures
        bytecode_function_body((s, h, m), function_id) matches Ok(body) && bytecode_function_instructions(
            (s, h, m),
            function_id,
        ) matches Ok(is) && (0 <= k < is.len() ==> {
            &&& table_operands_result(function_id, body, is[k], h) is Ok
            &&& literal_operands_result(body, is[k], h, m.0[6].1, m.0[8].1) is Ok
            &&& jump_operand_result(function_id, body, instruction_offsets(is), is[k]) is Ok
        }),
{
    lemma_parsed(s, h, m);
    lemma_parsed_shape(s, h, m);
    lemma_parsed_function(s, h, m, function_id);
    reveal(section_checks_result);
    let f = file_of(s, h);
    lemma_section_lengths(f, h);
    let table = section_bytes(f, h, 0);
    assert(m.0[0].1 == table);
    assert(m.0[6].1 == section_bytes(f, h, 6));
    assert(m.0[8].1 == section_bytes(f, h, 8));
    let debug_info = debug_info_result(f, h)->Ok_0;
    let decoded = decoded_headers_result(f, h, table)->Ok_0;
    let body_limit = below_large_headers(decoded, decoded.len() as int, region_fallback(h));
    let check = function_check(
        f,
        h,
        m.1,
        section_bytes(f, h, 6),
        section_bytes(f, h, 8),
        debug_info,
        decoded,
        body_limit,
    );
    lemma_first_failure_ok(h.function_count as int, check);
    assert(check(function_id as int) is Ok);
    reveal(function_result);
    assert(decoded[function_id as int] == decoded_header_result(f, h, table, function_id)->Ok_0);
    let d = decoded[function_id as int];
    let limit = region_limit(d.header, decoded, body_limit);
    let context = (h, limit, section_bytes(f, h, 6), section_bytes(f, h, 8));
    let body = function_body_result(f, function_id, d.header)->Ok_0;
    let is = decode_body(function_id, body)->Ok_0;
    assert(instruction_stream_result(f, function_id, body, context) is Ok);
    lemma_first_failure_ok(is.len() as int, instruction_check(f, function_id, body, is, context));
    if 0 <= k < is.len() {
        assert(instruction_check(f, function_id, body, is, context)(k) is Ok);
    }
}

/// Bytes past the file length that the header declares never change what
/// parsing gives: a buffer with anything appended to it parses to the same
/// header and sections, or fails with the same error, and each function's
/// header, body and instructions are found the same in both.
pub proof fn lemma_bytes_past_file_length_are_ignored(b: Seq<u8>, extra: Seq<u8>)
    requires
        b.len() >= 128,
        le_u32(b, 32) <= b.len(),
    ensures
        bytecode_result(b + extra) == bytecode_result(b),
        bytecode_result(b) matches Ok((h, m)) ==> forall|function_id: u32|
            {
                &&& #[trigger] bytecode_function_header((b + extra, h, m), function_id)
                    == bytecode_function_header((b, h, m), function_id)
                &&& bytecode_function_body((b + extra, h, m), function_id) == bytecode_function_body(
                    (b, h, m),
                    function_id,
                )
                &&& bytecode_function_instructions((b + extra, h, m), function_id)
                    == bytecode_function_instructions((b, h, m), function_id)
            },
{
    let c = b + extra;
    assert forall|i: int| 0 <= i < b.len() implies c[i] == b[i] by {}
    assert(le_u32(c, 0) == le_u32(b, 0) && le_u32(c, 4) == le_u32(b, 4) && le_u32(c, 32) == le_u32(b, 32));
    assert(header_error(c) == header_error(b));
    lemma_header_of_agrees(c, b);
    let h = header_of(b);
    lemma_header_of(b);
    assert(file_of(c, h) =~= file_of(b, h));
    if header_error(b) is None {
        assert(sections_result(file_of(c, h), h) == sections_result(file_of(b, h), h));
    }
}

/// The instruction stream of a function yields exactly its decoded
/// instructions: for every function of a parsed bytecode, the items of the
/// stream that `function_instructions` starts are its instructions, each as
/// `Ok`, in order, with no error among them; so the instruction count is the
/// number of items the stream yields. For any other id the stream and the
/// count are refused with the same error.
pub proof fn lemma_instruction_stream_yields_decoded_instructions(
    s: Seq<u8>,
    h: HermesBytecodeHeader,
    m: (Seq<(u32, Seq<u8>)>, u32),
    function_id: u32,
)
    requires
        bytecode_result(s) == Ok::<(HermesBytecodeHeader, (Seq<(u32, Seq<u8>)>, u32)), ParseError>((h, m)),
    ensures
        (bytecode_function_body((s, h, m), function_id) is Ok) == (function_id < h.function_count),
        match bytecode_function_body((s, h, m), function_id) {
            Ok(body) => bytecode_function_instructions((s, h, m), function_id) matches Ok(is) && {
                let items = stream_items(function_id, body.0, body.1, 0);
                &&& items == is.map_values(
                    |instruction: HermesInstruction| Ok::<HermesInstruction, ParseError>(instruction),
                )
                &&& items.len() == is.len()
                &&& forall|k: int| 0 <= k < items.len() ==> #[trigger] items[k] == Ok::<HermesInstruction, ParseError>(is[k])
            },
            Err(e) => bytecode_function_instructions((s, h, m), function_id) == Err::<
                Seq<HermesInstruction>,
                ParseError,
            >(e),
        },
{
    lemma_function_lookup(s, h, m, function_id);
    if let Ok(body) = bytecode_function_body((s, h, m), function_id) {
        lemma_stream_items_decode(function_id, body.0, body.1, 0);
    }
}

/// The metadata of a buffer reports its header as stored: the version, file
/// length, global code index, counts, debug info offset and the options byte
/// are the input's own header words and byte, unchanged.
pub proof fn lemma_metadata_reports_header(s: Seq<u8>)
    requires
        metadata_result(s) is Ok,
    ensures
        ({
            let md = metadata_result(s)->Ok_0;
            &&& md.options == s[112]
            &&& md.version == le_u32(s, 8)
            &&& md.file_length == le_u32(s, 32)
            &&& md.global_code_index == le_u32(s, 36)
            &&& md.function_count == le_u32(s, 40)
            &&& md.string_count == le_u32(s, 52)
            &&& md.cjs_module_count == le_u32(s, 100)
            &&& md.debug_info_offset == le_u32(s, 108)
            &&& md.string_storage_size == le_u32(s, 60)
            &&& bytecode_result(s) matches Ok((h, m)) && bytecode_function_header((s, h, m), h.global_code_index)
                matches Ok(global) && bytecode_function_instructions((s, h, m), h.global_code_index) matches Ok(
                is,
            ) && {
                &&& md.global_function_offset == global.offset
                &&& md.global_function_size == global.bytecode_size_in_bytes
                &&& md.global_function_name == global.function_name
                &&& md.global_function_param_count == global.param_count
                &&& md.global_function_frame_size == global.frame_size
                &&& md.global_instruction_count == is.len()
            }
        }),
{
    let (h, m) = bytecode_result(s)->Ok_0;
    lemma_parse_reads_the_header(s, h, m);
    lemma_sections_are_input_slices(s, h, m);
    lemma_parsed(s, h, m);
    lemma_parsed_shape(s, h, m);
    lemma_layout_section(h, 5);
    assert(m.0[5] == file_sections(file_of(s, h), h)[5]);
    assert(section_entry_size(5) == 1);
    lemma_function_lookup(s, h, m, h.global_code_index);
    let global = bytecode_function_header((s, h, m), h.global_code_index)->Ok_0;
    let body = bytecode_function_body((s, h, m), h.global_code_index)->Ok_0;
    lemma_decode_shape(h.global_code_index, body.0, body.1, 0);
}

/// The header of a declared function is read from its own twelve-byte entry
/// of the function header table, which starts right after the file header.
/// When the entry's flags leave bit 5 clear, the function's header is the
/// small header stored at `128 + 12 * function_id` in the input; when they
/// set it, it is the large header stored at the offset whose low 24 bits are
/// those of the entry's first word and whose top byte is the entry's
/// function name field (bits 14 to 21 of its second word).
pub proof fn lemma_function_header_is_its_table_entry(
    s: Seq<u8>,
    h: HermesBytecodeHeader,
    m: (Seq<(u32, Seq<u8>)>, u32),
    function_id: u32,
)
    requires
        bytecode_result(s) == Ok::<(HermesBytecodeHeader, (Seq<(u32, Seq<u8>)>, u32)), ParseError>((h, m)),
        function_id < h.function_count,
    ensures
        ({
            let at = 128 + 12 * function_id;
            let large_at = le_u32(s, at) % 0x100_0000 + (le_u32(s, at + 4) / 0x4000) % 0x100 * 0x100_0000;
            &&& s[at + 11] & 0b0010_0000 == 0 ==> bytecode_function_header((s, h, m), function_id) == Ok::<
                HermesFunctionHeader,
                ParseError,
            >(small_function_header(s, at))
            &&& s[at + 11] & 0b0010_0000 != 0 ==> large_at + 36 <= h.file_length && bytecode_function_header(
                (s, h, m),
                function_id,
            ) == Ok::<HermesFunctionHeader, ParseError>(large_function_header(s, large_at))
        }),
{
    lemma_function_table_is_input_slice(s, h, m);
    let table = m.0[0].1;
    let at = 12 * function_id as int;
    lemma_small_header_of_slice(s, table, at);
    let small = small_function_header(s, 128 + at);
    if s[128 + at + 11] & 0b0010_0000 != 0 {
        lemma_function_lookup(s, h, m, function_id);
        lemma_parsed(s, h, m);
        lemma_parsed_shape(s, h, m);
        let w1 = le_u32(s, 128 + at);
        let w2 = le_u32(s, 128 + at + 4);
        assert((((w2 >> 14u32) & 0xff) & 0xff) << 24u32 | ((w1 & 0x01ff_ffff) & 0x00ff_ffff) == w1 % 0x100_0000
            + (w2 / 0x4000) % 0x100 * 0x100_0000) by (bit_vector);
        let large_at = large_header_offset(small);
        let f = file_of(s, h);
        assert(large_function_header(f, large_at as int) == large_function_header(s, large_at as int));
    }
}

/// The function header table of a parsed bytecode is the input slice right
/// after the file header, twelve bytes per function.
proof fn lemma_function_table_is_input_slice(s: Seq<u8>, h: HermesBytecodeHeader, m: (Seq<(u32, Seq<u8>)>, u32))
    requires
        bytecode_result(s) == Ok::<(HermesBytecodeHeader, (Seq<(u32, Seq<u8>)>, u32)), ParseError>((h, m)),
    ensures
        m.0[0].1 == s.subrange(128, 128 + 12 * h.function_count),
        128 + 12 * h.function_count <= s.len(),
{
    lemma_parsed(s, h, m);
    lemma_parsed_shape(s, h, m);
    lemma_layout_section(h, 0);
    let f = file_of(s, h);
    assert(m.0[0] == file_sections(f, h)[0]);
    assert(section_entry_size(0) == 12);
    assert(section_offset(h, 0) == 128);
    assert(m.0[0].1 =~= s.subrange(128, 128 + 12 * h.function_count));
}

/// A small header read from a slice is the one read from the same bytes of the whole.
proof fn lemma_small_header_of_slice(s: Seq<u8>, table: Seq<u8>, at: int)
    requires
        0 <= at,
        at + 12 <= table.len(),
        128 + table.len() <= s.len(),
        table == s.subrange(128, 128 + table.len() as int),
    ensures
        small_function_header(table, at) == small_function_header(s, 128 + at),
{
    assert(table[at] == s[128 + at] && table[at + 1] == s[128 + at + 1] && table[at + 2] == s[128 + at + 2]
        && table[at + 3] == s[128 + at + 3]);
    assert(table[at + 4] == s[128 + at + 4] && table[at + 5] == s[128 + at + 5] && table[at + 6] == s[128 + at
        + 6] && table[at + 7] == s[128 + at + 7]);
    assert(table[at + 8] == s[128 + at + 8] && table[at + 9] == s[128 + at + 9] && table[at + 10] == s[128 + at
        + 10] && table[at + 11] == s[128 + at + 11]);
}

} // verus!
