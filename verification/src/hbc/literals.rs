//! Validation of serialized literal buffers: the object key buffer, reached
//! through the object shape table, and the literal value buffer, reached
//! through literal-creating instructions.
//!
//! A buffer is a sequence of runs. Each run starts with a tag byte whose high
//! bit selects a 12-bit length (low nibble and the next byte) over a 4-bit
//! one, whose bits 4..6 give the type of the run's items, followed by the
//! items themselves.

use vstd::prelude::*;

use crate::hbc::bytes::{le_u16, le_u32, read_u16, read_u32};
use crate::hbc::checks::{first_failure, lemma_first_failure_sticks, lemma_ok_is_unit};
use crate::hbc::error::ParseError;

verus! {

pub const SERIALIZED_LITERAL_TAG_LONG_SEQUENCE: u8 = 0x80;
pub const SERIALIZED_LITERAL_TAG_MASK: u8 = 0x70;
pub const SERIALIZED_LITERAL_TAG_LENGTH_MASK: u8 = 0x0f;
pub const SERIALIZED_LITERAL_TAG_TRUE: u8 = 0x10;
pub const SERIALIZED_LITERAL_TAG_FALSE: u8 = 0x20;
pub const SERIALIZED_LITERAL_TAG_NUMBER: u8 = 0x30;
pub const SERIALIZED_LITERAL_TAG_LONG_STRING: u8 = 0x40;
pub const SERIALIZED_LITERAL_TAG_SHORT_STRING: u8 = 0x50;
pub const SERIALIZED_LITERAL_TAG_UNDEFINED: u8 = 0x60;
pub const SERIALIZED_LITERAL_TAG_INTEGER: u8 = 0x70;

/// Size in bytes of one item of a run with the given tag type.
pub open spec fn literal_data_size(tag_type: u8) -> int {
    if tag_type == SERIALIZED_LITERAL_TAG_SHORT_STRING {
        2
    } else if tag_type == SERIALIZED_LITERAL_TAG_LONG_STRING || tag_type
        == SERIALIZED_LITERAL_TAG_INTEGER {
        4
    } else if tag_type == SERIALIZED_LITERAL_TAG_NUMBER {
        8
    } else {
        0
    }
}

/// Returns the size in bytes of one item of a run with the given tag type.
pub fn serialized_literal_data_size(tag_type: u8) -> (size: u32)
    ensures
        size == literal_data_size(tag_type),
{
    match tag_type {
        SERIALIZED_LITERAL_TAG_SHORT_STRING => 2,
        SERIALIZED_LITERAL_TAG_LONG_STRING | SERIALIZED_LITERAL_TAG_INTEGER => 4,
        SERIALIZED_LITERAL_TAG_NUMBER => 8,
        _ => 0,
    }
}

/// The error for a buffer reference that cannot provide its literal items.
pub open spec fn literal_buffer_error(name: &'static str, buffer: Seq<u8>, offset: u32, element_count: u32) -> ParseError {
    ParseError::InvalidSerializedLiteralBuffer {
        buffer: name,
        offset,
        element_count,
        buffer_size: buffer.len() as u32,
    }
}

/// The `k`-th string id of a run, stored at `start` with ids of `width` bytes, is declared.
pub open spec fn literal_string_result(
    name: &'static str,
    buffer: Seq<u8>,
    start: int,
    width: int,
    string_count: u32,
    k: int,
) -> Result<(), ParseError> {
    let at = start + width * k;
    let string_id = if width == 2 {
        le_u16(buffer, at) as u32
    } else {
        le_u32(buffer, at)
    };
    if string_id >= string_count {
        Err(
            ParseError::InvalidSerializedLiteralStringReference {
                buffer: name,
                offset: at as u32,
                string_id,
                string_count,
            },
        )
    } else {
        Ok(())
    }
}

pub open spec fn literal_string_check(
    name: &'static str,
    buffer: Seq<u8>,
    start: int,
    width: int,
    string_count: u32,
) -> spec_fn(int) -> Result<(), ParseError> {
    |k: int| literal_string_result(name, buffer, start, width, string_count, k)
}

/// Every string item of a run of `count` items at `start` names a declared string.
pub open spec fn literal_strings_result(
    name: &'static str,
    buffer: Seq<u8>,
    start: int,
    count: int,
    tag_type: u8,
    string_count: u32,
) -> Result<(), ParseError> {
    if tag_type == SERIALIZED_LITERAL_TAG_SHORT_STRING {
        first_failure(count, literal_string_check(name, buffer, start, 2, string_count))
    } else if tag_type == SERIALIZED_LITERAL_TAG_LONG_STRING {
        first_failure(count, literal_string_check(name, buffer, start, 4, string_count))
    } else {
        Ok(())
    }
}

/// Reading `remaining` more items from the run starting at `cursor`.
pub open spec fn literal_walk(
    name: &'static str,
    buffer: Seq<u8>,
    offset: u32,
    element_count: u32,
    is_key_buffer: bool,
    string_count: u32,
    cursor: int,
    remaining: nat,
) -> Result<(), ParseError>
    decreases remaining,
{
    let error = literal_buffer_error(name, buffer, offset, element_count);
    if remaining == 0 {
        Ok(())
    } else if cursor < 0 || cursor >= buffer.len() {
        Err(error)
    } else {
        let tag = buffer[cursor];
        let long = tag & SERIALIZED_LITERAL_TAG_LONG_SEQUENCE != 0;
        if long && cursor + 1 >= buffer.len() {
            Err(error)
        } else {
            let data_start = if long {
                cursor + 2
            } else {
                cursor + 1
            };
            let sequence_len = if long {
                (tag & SERIALIZED_LITERAL_TAG_LENGTH_MASK) as int * 0x100 + buffer[cursor + 1] as int
            } else {
                (tag & SERIALIZED_LITERAL_TAG_LENGTH_MASK) as int
            };
            let tag_type = tag & SERIALIZED_LITERAL_TAG_MASK;
            if sequence_len == 0 {
                Err(error)
            } else if is_key_buffer && (tag_type == SERIALIZED_LITERAL_TAG_TRUE || tag_type
                == SERIALIZED_LITERAL_TAG_FALSE || tag_type == SERIALIZED_LITERAL_TAG_UNDEFINED) {
                Err(ParseError::InvalidSerializedLiteralTag { buffer: name, offset: cursor as u32, tag })
            } else {
                let to_read = if remaining < sequence_len {
                    remaining as int
                } else {
                    sequence_len
                };
                let end = data_start + to_read * literal_data_size(tag_type);
                if end > buffer.len() {
                    Err(error)
                } else {
                    match literal_strings_result(name, buffer, data_start, to_read, tag_type, string_count) {
                        Err(e) => Err(e),
                        Ok(_) => literal_walk(
                            name,
                            buffer,
                            offset,
                            element_count,
                            is_key_buffer,
                            string_count,
                            end,
                            (remaining - to_read) as nat,
                        ),
                    }
                }
            }
        }
    }
}

/// A reference to `element_count` literal items at `offset` of `buffer` is
/// readable, and every string item names one of `string_count` strings. Key
/// buffers hold no `true`, `false` or `undefined` runs.
pub open spec fn literal_buffer_result(
    name: &'static str,
    buffer: Seq<u8>,
    offset: u32,
    element_count: u32,
    is_key_buffer: bool,
    string_count: u32,
) -> Result<(), ParseError> {
    if offset > buffer.len() {
        Err(literal_buffer_error(name, buffer, offset, element_count))
    } else {
        literal_walk(
            name,
            buffer,
            offset,
            element_count,
            is_key_buffer,
            string_count,
            offset as int,
            element_count as nat,
        )
    }
}

fn validate_serialized_literal_strings(
    name: &'static str,
    buffer: &[u8],
    start: usize,
    element_count: u32,
    tag_type: u8,
    string_count: u32,
) -> (result: Result<(), ParseError>)
    requires
        start + element_count * literal_data_size(tag_type) <= buffer@.len(),
    ensures
        result == literal_strings_result(name, buffer@, start as int, element_count as int, tag_type, string_count),
{
    let width: usize = if tag_type == SERIALIZED_LITERAL_TAG_SHORT_STRING {
        2
    } else if tag_type == SERIALIZED_LITERAL_TAG_LONG_STRING {
        4
    } else {
        return Ok(());
    };
    let ghost check = literal_string_check(name, buffer@, start as int, width as int, string_count);
    let len = buffer.len();
    let mut k: u32 = 0;
    while k < element_count
        invariant
            len == buffer@.len(),
            (width == 2 && tag_type == SERIALIZED_LITERAL_TAG_SHORT_STRING) || (width == 4
                && tag_type == SERIALIZED_LITERAL_TAG_LONG_STRING),
            width == literal_data_size(tag_type),
            start + element_count * width <= len,
            k <= element_count,
            check == literal_string_check(name, buffer@, start as int, width as int, string_count),
            first_failure(k as int, check) is Ok,
        decreases element_count - k,
    {
        assert(start + width * k + width <= start + element_count * width) by (nonlinear_arith)
            requires
                k < element_count,
                width >= 0,
        ;
        let at = start + width * k as usize;
        let string_id = if width == 2 {
            read_u16(buffer, at) as u32
        } else {
            read_u32(buffer, at)
        };
        if string_id >= string_count {
            let e = ParseError::InvalidSerializedLiteralStringReference {
                buffer: name,
                offset: at as u32,
                string_id,
                string_count,
            };
            assert(check(k as int) == Err::<(), ParseError>(e));
            proof {
                lemma_first_failure_sticks(k + 1, element_count as int, check);
            }
            if width == 2 {
                assert(check == literal_string_check(name, buffer@, start as int, 2, string_count));
            }
            return Err(e);
        }
        assert(check(k as int) is Ok);
        k = k + 1;
    }
    assert(first_failure(element_count as int, check) is Ok);
    if width == 2 {
        assert(check == literal_string_check(name, buffer@, start as int, 2, string_count));
    }
    Ok(())
}

/// Checks that `element_count` serialized literal items can be read from
/// `buffer` at `offset`, and that their string items are declared strings.
pub fn validate_serialized_literal_buffer(
    name: &'static str,
    buffer: &[u8],
    offset: u32,
    element_count: u32,
    is_key_buffer: bool,
    string_count: u32,
) -> (result: Result<(), ParseError>)
    requires
        buffer@.len() <= u32::MAX,
    ensures
        result == literal_buffer_result(name, buffer@, offset, element_count, is_key_buffer, string_count),
{
    let len = buffer.len();
    let buffer_size = len as u32;
    let error = ParseError::InvalidSerializedLiteralBuffer {
        buffer: name,
        offset,
        element_count,
        buffer_size,
    };
    if offset > buffer_size {
        return Err(error);
    }
    let mut remaining = element_count;
    let mut cursor = offset as usize;
    while remaining > 0
        invariant
            len == buffer@.len(),
            len <= u32::MAX,
            cursor <= len,
            error == literal_buffer_error(name, buffer@, offset, element_count),
            literal_buffer_result(name, buffer@, offset, element_count, is_key_buffer, string_count)
                == literal_walk(
                name,
                buffer@,
                offset,
                element_count,
                is_key_buffer,
                string_count,
                cursor as int,
                remaining as nat,
            ),
        decreases remaining,
    {
        if cursor >= len {
            return Err(error);
        }
        let tag_offset = cursor;
        let tag = buffer[cursor];
        cursor = cursor + 1;
        let sequence_len: u32 = if tag & SERIALIZED_LITERAL_TAG_LONG_SEQUENCE != 0 {
            if cursor >= len {
                return Err(error);
            }
            let low_len = buffer[cursor];
            cursor = cursor + 1;
            (tag & SERIALIZED_LITERAL_TAG_LENGTH_MASK) as u32 * 0x100 + low_len as u32
        } else {
            (tag & SERIALIZED_LITERAL_TAG_LENGTH_MASK) as u32
        };
        if sequence_len == 0 {
            return Err(error);
        }
        let tag_type = tag & SERIALIZED_LITERAL_TAG_MASK;
        if is_key_buffer && (tag_type == SERIALIZED_LITERAL_TAG_TRUE || tag_type
            == SERIALIZED_LITERAL_TAG_FALSE || tag_type == SERIALIZED_LITERAL_TAG_UNDEFINED) {
            return Err(ParseError::InvalidSerializedLiteralTag { buffer: name, offset: tag_offset as u32, tag });
        }
        let to_read = if remaining < sequence_len {
            remaining
        } else {
            sequence_len
        };
        let data_size = serialized_literal_data_size(tag_type);
        assert(tag & 0x0f <= 15) by (bit_vector);
        assert(to_read * data_size <= 0x1000 * 8) by (nonlinear_arith)
            requires
                to_read <= sequence_len,
                sequence_len <= 0x0f * 0x100 + 0xff,
                data_size <= 8,
        ;
        let bytes_to_read = (to_read * data_size) as usize;
        if bytes_to_read > len - cursor {
            return Err(error);
        }
        let end = cursor + bytes_to_read;
        let checked = validate_serialized_literal_strings(
            name,
            buffer,
            cursor,
            to_read,
            tag_type,
            string_count,
        );
        if checked.is_err() {
            return checked;
        }
        cursor = end;
        remaining = remaining - to_read;
    }
    Ok(())
}

/// Key buffer offset and property count of one object shape table entry.
#[derive(Debug, Clone, Copy, PartialEq, Eq)]
pub struct ObjectShapeEntry {
    pub key_buffer_offset: u32,
    pub num_props: u32,
}

/// The `index`-th object shape table entry, when the table holds it.
pub open spec fn object_shape_at(entries: Seq<u8>, index: int) -> Option<ObjectShapeEntry> {
    if 0 <= index && 8 * index + 8 <= entries.len() {
        Some(
            ObjectShapeEntry {
                key_buffer_offset: le_u32(entries, 8 * index),
                num_props: le_u32(entries, 8 * index + 4),
            },
        )
    } else {
        None
    }
}

/// Returns the `shape_index`-th object shape table entry, if the table holds it.
pub fn object_shape_entry_at(entries: &[u8], shape_index: u32) -> (entry: Option<ObjectShapeEntry>)
    ensures
        entry == object_shape_at(entries@, shape_index as int),
{
    let len = entries.len();
    let index = shape_index as usize;
    if index >= len / 8 {
        return None;
    }
    Some(
        ObjectShapeEntry {
            key_buffer_offset: read_u32(entries, 8 * index),
            num_props: read_u32(entries, 8 * index + 4),
        },
    )
}

/// The `i`-th object shape table entry references readable keys.
pub open spec fn object_shape_entry_result(entries: Seq<u8>, keys: Seq<u8>, string_count: u32, i: int) -> Result<(), ParseError> {
    literal_buffer_result(
        "obj_key_buffer",
        keys,
        le_u32(entries, 8 * i),
        le_u32(entries, 8 * i + 4),
        true,
        string_count,
    )
}

pub open spec fn object_shape_check(entries: Seq<u8>, keys: Seq<u8>, string_count: u32) -> spec_fn(int) -> Result<(), ParseError> {
    |i: int| object_shape_entry_result(entries, keys, string_count, i)
}

/// Every object shape table entry references readable keys.
pub open spec fn object_shape_table_result(entries: Seq<u8>, keys: Seq<u8>, string_count: u32) -> Result<(), ParseError> {
    first_failure((entries.len() / 8) as int, object_shape_check(entries, keys, string_count))
}

/// Checks the key buffer reference of every object shape table entry.
pub fn validate_object_shape_table(entries: &[u8], obj_key_buffer: &[u8], string_count: u32) -> (result: Result<(), ParseError>)
    requires
        obj_key_buffer@.len() <= u32::MAX,
    ensures
        result == object_shape_table_result(entries@, obj_key_buffer@, string_count),
{
    let ghost check = object_shape_check(entries@, obj_key_buffer@, string_count);
    let len = entries.len();
    let n = len / 8;
    let mut i: usize = 0;
    while i < n
        invariant
            len == entries@.len(),
            n == len / 8,
            i <= n,
            obj_key_buffer@.len() <= u32::MAX,
            check == object_shape_check(entries@, obj_key_buffer@, string_count),
            first_failure(i as int, check) is Ok,
        decreases n - i,
    {
        let checked = validate_serialized_literal_buffer(
            "obj_key_buffer",
            obj_key_buffer,
            read_u32(entries, 8 * i),
            read_u32(entries, 8 * i + 4),
            true,
            string_count,
        );
        assert(checked == check(i as int));
        if checked.is_err() {
            proof {
                lemma_first_failure_sticks(i + 1, n as int, check);
            }
            return checked;
        }
        i = i + 1;
    }
    proof {
        lemma_ok_is_unit(first_failure(n as int, check));
    }
    Ok(())
}

} // verus!
