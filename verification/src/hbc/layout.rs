//! The ordered, 4-byte aligned sections that follow the file header.

use vstd::prelude::*;

use crate::hbc::checks::{first_failure, lemma_first_failure_ok, lemma_first_failure_sticks};
use crate::hbc::error::ParseError;
use crate::hbc::header::HermesBytecodeHeader;

verus! {

/// Number of structured sections between the header and the function bodies.
pub const SECTION_COUNT: usize = 15;

/// A byte slice plus its offset inside the Hermes bytecode file.
#[derive(Debug, Clone, Copy, PartialEq, Eq)]
pub struct SectionView<'a> {
    offset: u32,
    bytes: &'a [u8],
}

impl<'a> View for SectionView<'a> {
    type V = (u32, Seq<u8>);

    /// The section's file offset and its bytes.
    closed spec fn view(&self) -> (u32, Seq<u8>) {
        (self.offset, self.bytes@)
    }
}

impl<'a> SectionView<'a> {
    /// Pairs a byte slice with the file offset it was taken from.
    pub(crate) fn new(offset: u32, bytes: &'a [u8]) -> (view: Self)
        ensures
            view@ == (offset, bytes@),
    {
        SectionView { offset, bytes }
    }

    /// Returns this section's byte offset from the start of the file.
    pub fn offset(self) -> (offset: u32)
        ensures
            offset == self@.0,
    {
        self.offset
    }

    /// Returns this section's byte length.
    pub fn len(self) -> (len: u32)
        requires
            self@.1.len() <= u32::MAX,
        ensures
            len == self@.1.len(),
    {
        self.bytes.len() as u32
    }

    /// Returns whether this section has zero bytes.
    pub fn is_empty(self) -> (empty: bool)
        ensures
            empty == (self@.1.len() == 0),
    {
        self.bytes.len() == 0
    }

    /// Returns the section's bytes, borrowed from the input buffer.
    pub fn bytes(self) -> (bytes: &'a [u8])
        ensures
            bytes@ == self@.1,
    {
        self.bytes
    }
}

/// Rounds `offset` up to the next multiple of four.
pub open spec fn align4(offset: int) -> int {
    (offset + 3) / 4 * 4
}

/// Rounds `offset` up to a multiple of `alignment`, unless that leaves the u32 range.
pub open spec fn aligned_u32(offset: u32, alignment: u32) -> Option<u32> {
    if offset + alignment - 1 > u32::MAX {
        None
    } else {
        Some(((offset + alignment - 1) / (alignment as int) * alignment) as u32)
    }
}

/// Rounds `offset` up to a multiple of `alignment` within the u32 range.
pub fn align_u32(offset: u32, alignment: u32) -> (aligned: Option<u32>)
    requires
        alignment >= 1,
    ensures
        aligned == aligned_u32(offset, alignment),
{
    if offset > u32::MAX - (alignment - 1) {
        return None;
    }
    let adjusted = offset + (alignment - 1);
    assert(adjusted / alignment * alignment <= adjusted) by (nonlinear_arith)
        requires
            alignment >= 1,
    ;
    Some(adjusted / alignment * alignment)
}

/// Name of the `i`-th structured section, as reported in errors.
pub open spec fn section_name(i: int) -> &'static str {
    if i == 0 {
        "function_headers"
    } else if i == 1 {
        "string_kinds"
    } else if i == 2 {
        "identifier_hashes"
    } else if i == 3 {
        "small_string_table"
    } else if i == 4 {
        "overflow_string_table"
    } else if i == 5 {
        "string_storage"
    } else if i == 6 {
        "literal_value_buffer"
    } else if i == 7 {
        "obj_key_buffer"
    } else if i == 8 {
        "obj_shape_table"
    } else if i == 9 {
        "big_int_table"
    } else if i == 10 {
        "big_int_storage"
    } else if i == 11 {
        "reg_exp_table"
    } else if i == 12 {
        "reg_exp_storage"
    } else if i == 13 {
        "cjs_module_table"
    } else {
        "function_source_table"
    }
}

/// Number of entries of the `i`-th section, as declared by the header.
pub open spec fn section_count(h: HermesBytecodeHeader, i: int) -> u32 {
    if i == 0 {
        h.function_count
    } else if i == 1 {
        h.string_kind_count
    } else if i == 2 {
        h.identifier_count
    } else if i == 3 {
        h.string_count
    } else if i == 4 {
        h.overflow_string_count
    } else if i == 5 {
        h.string_storage_size
    } else if i == 6 {
        h.literal_value_buffer_size
    } else if i == 7 {
        h.obj_key_buffer_size
    } else if i == 8 {
        h.obj_shape_table_count
    } else if i == 9 {
        h.big_int_count
    } else if i == 10 {
        h.big_int_storage_size
    } else if i == 11 {
        h.reg_exp_count
    } else if i == 12 {
        h.reg_exp_storage_size
    } else if i == 13 {
        h.cjs_module_count
    } else {
        h.function_source_count
    }
}

/// Size in bytes of one entry of the `i`-th section.
pub open spec fn section_entry_size(i: int) -> int {
    if i == 0 {
        12
    } else if i == 1 || i == 2 || i == 3 {
        4
    } else if i == 4 || i == 8 || i == 9 || i == 11 || i == 13 || i == 14 {
        8
    } else {
        1
    }
}

/// Taking a section of `count` entries of `entry_size` bytes at the first
/// aligned offset at or after `cursor`: its offset and byte size, or the error.
pub open spec fn take_section_result(
    file_length: int,
    cursor: int,
    section: &'static str,
    count: u32,
    entry_size: int,
) -> Result<(int, int), ParseError> {
    let offset = align4(cursor);
    let size = count * entry_size;
    if cursor + 3 > usize::MAX {
        Err(ParseError::OffsetExceedsU32 { section, offset: cursor as usize })
    } else if size > usize::MAX {
        Err(ParseError::SectionSizeOverflow { section, count, entry_size: entry_size as usize })
    } else if offset + size > usize::MAX || offset + size > file_length {
        Err(
            ParseError::SectionOutOfBounds {
                section,
                offset: offset as usize,
                size: size as usize,
                file_length: file_length as usize,
            },
        )
    } else if offset > u32::MAX {
        Err(ParseError::OffsetExceedsU32 { section, offset: offset as usize })
    } else {
        Ok((offset, size))
    }
}

/// The cursor from which the `i`-th section is taken: the end of the
/// previous section, or the end of the header for the first one.
pub open spec fn section_cursor(h: HermesBytecodeHeader, i: int) -> int
    decreases i, 0int,
{
    if i <= 0 {
        128
    } else {
        match section_result(h, i - 1) {
            Ok((offset, size)) => offset + size,
            Err(_) => 0,
        }
    }
}

/// Taking the `i`-th section.
pub open spec fn section_result(h: HermesBytecodeHeader, i: int) -> Result<(int, int), ParseError>
    decreases i, 1int,
{
    take_section_result(
        h.file_length as int,
        if i <= 0 { 128 } else { section_cursor(h, i) },
        section_name(i),
        section_count(h, i),
        section_entry_size(i),
    )
}

/// File offset of the `i`-th section.
pub open spec fn section_offset(h: HermesBytecodeHeader, i: int) -> int {
    match section_result(h, i) {
        Ok((offset, _)) => offset,
        Err(_) => 0,
    }
}

/// Byte size of the `i`-th section.
pub open spec fn section_size(h: HermesBytecodeHeader, i: int) -> int {
    match section_result(h, i) {
        Ok((_, size)) => size,
        Err(_) => 0,
    }
}

/// Bytes of the `i`-th section within the buffer `s`.
pub open spec fn section_bytes(s: Seq<u8>, h: HermesBytecodeHeader, i: int) -> Seq<u8> {
    s.subrange(section_offset(h, i), section_offset(h, i) + section_size(h, i))
}

/// The check that the `i`-th section fits in the file.
pub open spec fn layout_check(h: HermesBytecodeHeader) -> spec_fn(int) -> Result<(), ParseError> {
    |i: int|
        match section_result(h, i) {
            Ok(_) => Ok(()),
            Err(e) => Err(e),
        }
}

/// Laying out all structured sections in order.
pub open spec fn layout_result(h: HermesBytecodeHeader) -> Result<(), ParseError> {
    first_failure(15, layout_check(h))
}

/// The file offset where serialized function bodies begin: the end of the last section.
#[verifier::opaque]
pub open spec fn function_bodies_offset(h: HermesBytecodeHeader) -> int {
    section_cursor(h, 15)
}

/// When every section fits, each one holds its declared entries, starts at
/// a 4-byte aligned offset in the u32 range at or after the end of the
/// previous one, and ends by the file length.
pub proof fn lemma_layout_section(h: HermesBytecodeHeader, i: int)
    requires
        layout_result(h) is Ok,
        0 <= i < 15,
    ensures
        section_result(h, i) is Ok,
        section_size(h, i) == section_count(h, i) * section_entry_size(i),
        section_offset(h, i) % 4 == 0,
        128 <= section_cursor(h, i) <= section_offset(h, i) <= u32::MAX,
        section_offset(h, i) + section_size(h, i) <= h.file_length,
        section_cursor(h, i + 1) == section_offset(h, i) + section_size(h, i),
    decreases i,
{
    lemma_first_failure_ok(15, layout_check(h));
    assert(layout_check(h)(i) is Ok);
    if i > 0 {
        lemma_layout_section(h, i - 1);
    }
    let cursor = section_cursor(h, i);
    assert((cursor + 3) / 4 * 4 % 4 == 0) by (nonlinear_arith);
    assert((cursor + 3) / 4 * 4 >= cursor) by (nonlinear_arith);
}

/// Name, declared entry count and entry size of the `i`-th section.
fn section_params(header: &HermesBytecodeHeader, i: usize) -> (params: (&'static str, u32, usize))
    requires
        i < 15,
    ensures
        params.0 == section_name(i as int),
        params.1 == section_count(*header, i as int),
        params.2 == section_entry_size(i as int),
{
    match i {
        0 => ("function_headers", header.function_count, 12),
        1 => ("string_kinds", header.string_kind_count, 4),
        2 => ("identifier_hashes", header.identifier_count, 4),
        3 => ("small_string_table", header.string_count, 4),
        4 => ("overflow_string_table", header.overflow_string_count, 8),
        5 => ("string_storage", header.string_storage_size, 1),
        6 => ("literal_value_buffer", header.literal_value_buffer_size, 1),
        7 => ("obj_key_buffer", header.obj_key_buffer_size, 1),
        8 => ("obj_shape_table", header.obj_shape_table_count, 8),
        9 => ("big_int_table", header.big_int_count, 8),
        10 => ("big_int_storage", header.big_int_storage_size, 1),
        11 => ("reg_exp_table", header.reg_exp_count, 8),
        12 => ("reg_exp_storage", header.reg_exp_storage_size, 1),
        13 => ("cjs_module_table", header.cjs_module_count, 8),
        _ => ("function_source_table", header.function_source_count, 8),
    }
}

/// Takes the next section of `count` entries of `entry_size` bytes starting at
/// the first aligned offset at or after `cursor`; returns it with the cursor
/// just past it.
pub fn take_section<'a>(
    file_bytes: &'a [u8],
    cursor: usize,
    section: &'static str,
    count: u32,
    entry_size: usize,
) -> (result: Result<(SectionView<'a>, usize), ParseError>)
    ensures
        match take_section_result(file_bytes@.len() as int, cursor as int, section, count, entry_size as int) {
            Ok((offset, size)) => result matches Ok((view, next)) && view@ == (
                offset as u32,
                file_bytes@.subrange(offset, offset + size),
            ) && next == offset + size,
            Err(e) => result == Err::<(SectionView<'a>, usize), ParseError>(e),
        },
{
    let file_length = file_bytes.len();
    if cursor > usize::MAX - 3 {
        return Err(ParseError::OffsetExceedsU32 { section, offset: cursor });
    }
    let offset = (cursor + 3) / 4 * 4;
    let size = match (count as usize).checked_mul(entry_size) {
        Some(size) => size,
        None => {
            return Err(ParseError::SectionSizeOverflow { section, count, entry_size });
        },
    };
    if offset > usize::MAX - size || offset + size > file_length {
        return Err(ParseError::SectionOutOfBounds { section, offset, size, file_length });
    }
    if offset > u32::MAX as usize {
        return Err(ParseError::OffsetExceedsU32 { section, offset });
    }
    let end = offset + size;
    Ok((SectionView::new(offset as u32, &file_bytes[offset..end]), end))
}

/// Takes the fifteen structured sections of a file of `file_bytes@.len()` bytes.
pub fn take_sections<'a>(file_bytes: &'a [u8], header: &HermesBytecodeHeader) -> (result: Result<
    (Vec<SectionView<'a>>, usize),
    ParseError,
>)
    requires
        file_bytes@.len() == header.file_length,
    ensures
        layout_result(*header) is Err ==> result == Err::<(Vec<SectionView<'a>>, usize), ParseError>(
            layout_result(*header)->Err_0,
        ),
        layout_result(*header) is Ok ==> (result matches Ok((views, cursor)) && views@.len() == 15
            && cursor == function_bodies_offset(*header) && forall|i: int|
            0 <= i < 15 ==> (#[trigger] views@[i])@ == (
                section_offset(*header, i) as u32,
                section_bytes(file_bytes@, *header, i),
            )),
{
    reveal(function_bodies_offset);
    let ghost h = *header;
    let mut views: Vec<SectionView<'a>> = Vec::new();
    let mut cursor: usize = 128;
    let mut i: usize = 0;
    while i < SECTION_COUNT
        invariant
            i <= 15,
            h == *header,
            file_bytes@.len() == h.file_length,
            views@.len() == i,
            cursor == section_cursor(h, i as int),
            first_failure(i as int, layout_check(h)) is Ok,
            forall|j: int|
                0 <= j < i ==> (#[trigger] views@[j])@ == (
                    section_offset(h, j) as u32,
                    section_bytes(file_bytes@, h, j),
                ),
        decreases 15 - i,
    {
        let (section, count, entry_size) = section_params(header, i);
        assert(section_result(h, i as int) == take_section_result(
            h.file_length as int,
            cursor as int,
            section,
            count,
            entry_size as int,
        ));
        match take_section(file_bytes, cursor, section, count, entry_size) {
            Ok((view, next)) => {
                views.push(view);
                cursor = next;
                assert(section_cursor(h, i + 1) == next);
            },
            Err(e) => {
                assert(first_failure(i + 1, layout_check(h)) == Err::<(), ParseError>(e));
                proof {
                    lemma_first_failure_sticks(i + 1, 15, layout_check(h));
                }
                return Err(e);
            },
        }
        i = i + 1;
    }
    Ok((views, cursor))
}

} // verus!
