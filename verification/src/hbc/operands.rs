//! Validation of instruction operands: references into the bytecode tables,
//! literal buffer references, jump targets and switch tables.

use vstd::prelude::*;

use crate::hbc::bytes::{le_u16, le_u32, read_u16, read_u32};
use crate::hbc::checks::{first_failure, lemma_first_failure_ok, lemma_first_failure_sticks, lemma_ok_is_unit};
use crate::hbc::error::ParseError;
use crate::hbc::header::HermesBytecodeHeader;
use crate::hbc::instructions::{
    HERMES_OPCODE_WIDTHS,
    HermesInstruction,
    is_boundary,
    is_instruction_boundary,
    strictly_increasing,
};
use crate::hbc::layout::{align_u32, aligned_u32, SectionView};
use crate::hbc::literals::{
    literal_buffer_result,
    object_shape_at,
    object_shape_entry_at,
    validate_serialized_literal_buffer,
};

verus! {

pub const UINT_SWITCH_IMM_OPCODE: u8 = 167;
pub const STRING_SWITCH_IMM_OPCODE: u8 = 168;

/// Opcodes with an operand that indexes a bytecode table; opcode 166 has two.
pub const TABLE_OPERAND_OPCODES: [u8; 35] = [
    1, 2, 3, 4, 67, 68, 69, 70, 71, 72, 73, 74, 75, 76, 77, 78, 79, 80, 81, 87, 128, 129, 130, 131,
    132, 133, 142, 143, 144, 145, 159, 166, 166, 169, 170,
];

/// Byte offset of each table operand inside its instruction.
pub const TABLE_OPERAND_OFFSETS: [u8; 35] = [
    2, 2, 3, 3, 1, 4, 4, 4, 5, 4, 4, 4, 4, 4, 4, 4, 4, 4, 4, 4, 4, 4, 5, 5, 3, 3, 2, 2, 2, 2, 2, 2, 6,
    3, 3,
];

/// Width in bytes of each table operand.
pub const TABLE_OPERAND_WIDTHS: [u8; 35] = [
    2, 4, 4, 4, 4, 1, 2, 4, 4, 2, 4, 2, 2, 4, 4, 2, 2, 4, 4, 4, 2, 4, 2, 4, 2, 4, 2, 4, 2, 4, 4, 4, 4,
    2, 4,
];

/// Table indexed by each table operand: 0 strings, 1 functions, 2 bigints, 3 object shapes.
pub const TABLE_OPERAND_TABLES: [u8; 35] = [
    3, 3, 3, 3, 0, 0, 0, 0, 0, 0, 0, 0, 0, 0, 0, 0, 0, 0, 0, 0, 1, 1, 1, 1, 1, 1, 2, 2, 0, 0, 0, 0, 0,
    1, 1,
];

/// Opcodes 175 through 219 are jumps whose relative target is the operand at
/// byte 1; this is the width of that operand for each of them.
pub const JUMP_OPERAND_WIDTHS: [u8; 45] = [
    1, 4, 1, 4, 1, 4, 1, 4, 4, 1, 4, 1, 4, 1, 4, 1, 4, 1, 4, 1, 4, 1, 4, 1, 4, 1, 4, 1, 4, 1, 4, 1, 4,
    1, 4, 1, 4, 1, 4, 1, 4, 1, 4, 1, 4,
];

/// A bytecode table that instruction operands index.
#[derive(Debug, Clone, Copy, PartialEq, Eq)]
pub enum BytecodeTable {
    String,
    Function,
    BigInt,
    ObjectShape,
}

impl BytecodeTable {
    pub open spec fn from_code(code: u8) -> BytecodeTable {
        if code == 0 {
            BytecodeTable::String
        } else if code == 1 {
            BytecodeTable::Function
        } else if code == 2 {
            BytecodeTable::BigInt
        } else {
            BytecodeTable::ObjectShape
        }
    }

    pub open spec fn spec_name(self) -> &'static str {
        match self {
            BytecodeTable::String => "string",
            BytecodeTable::Function => "function",
            BytecodeTable::BigInt => "bigint",
            BytecodeTable::ObjectShape => "object_shape",
        }
    }

    /// Number of entries of the table, as declared by the header.
    pub open spec fn spec_limit(self, h: HermesBytecodeHeader) -> u32 {
        match self {
            BytecodeTable::String => h.string_count,
            BytecodeTable::Function => h.function_count,
            BytecodeTable::BigInt => h.big_int_count,
            BytecodeTable::ObjectShape => h.obj_shape_table_count,
        }
    }

    fn of_code(code: u8) -> (table: BytecodeTable)
        ensures
            table == BytecodeTable::from_code(code),
    {
        match code {
            0 => BytecodeTable::String,
            1 => BytecodeTable::Function,
            2 => BytecodeTable::BigInt,
            _ => BytecodeTable::ObjectShape,
        }
    }

    fn name(self) -> (name: &'static str)
        ensures
            name == self.spec_name(),
    {
        match self {
            BytecodeTable::String => "string",
            BytecodeTable::Function => "function",
            BytecodeTable::BigInt => "bigint",
            BytecodeTable::ObjectShape => "object_shape",
        }
    }

    fn limit(self, header: &HermesBytecodeHeader) -> (limit: u32)
        ensures
            limit == self.spec_limit(*header),
    {
        match self {
            BytecodeTable::String => header.string_count,
            BytecodeTable::Function => header.function_count,
            BytecodeTable::BigInt => header.big_int_count,
            BytecodeTable::ObjectShape => header.obj_shape_table_count,
        }
    }
}

/// The instruction is a decoded instruction of the body `(base, bytes)`.
pub open spec fn in_body(body: (u32, Seq<u8>), instruction: HermesInstruction) -> bool {
    &&& body.0 + body.1.len() <= u32::MAX
    &&& body.0 <= instruction.offset
    &&& instruction.offset + instruction.width <= body.0 + body.1.len()
    &&& instruction.opcode < 220
    &&& instruction.width == HERMES_OPCODE_WIDTHS[instruction.opcode as int]
}

/// Position in the body bytes of byte `k` of the instruction.
pub open spec fn operand_at(body: (u32, Seq<u8>), instruction: HermesInstruction, k: int) -> int {
    instruction.offset - body.0 + k
}

/// The unsigned little-endian operand of `width` bytes at `at`.
pub open spec fn unsigned_operand(b: Seq<u8>, at: int, width: int) -> u32 {
    if width == 1 {
        b[at] as u32
    } else if width == 2 {
        le_u16(b, at) as u32
    } else {
        le_u32(b, at)
    }
}

/// The signed little-endian operand of `width` bytes at `at`.
pub open spec fn signed_operand(b: Seq<u8>, at: int, width: int) -> i64 {
    if width == 1 {
        b[at] as i8 as i64
    } else {
        le_u32(b, at) as i32 as i64
    }
}

/// Reads an unsigned operand of 1, 2 or 4 bytes.
pub fn read_unsigned_operand(bytes: &[u8], at: usize, width: usize) -> (value: u32)
    requires
        width == 1 || width == 2 || width == 4,
        at + width <= bytes@.len(),
    ensures
        value == unsigned_operand(bytes@, at as int, width as int),
{
    if width == 1 {
        bytes[at] as u32
    } else if width == 2 {
        read_u16(bytes, at) as u32
    } else {
        read_u32(bytes, at)
    }
}

/// Reads a signed operand of 1 or 4 bytes.
pub fn read_signed_operand(bytes: &[u8], at: usize, width: usize) -> (value: i64)
    requires
        width == 1 || width == 4,
        at + width <= bytes@.len(),
    ensures
        value == signed_operand(bytes@, at as int, width as int),
{
    if width == 1 {
        bytes[at] as i8 as i64
    } else {
        read_u32(bytes, at) as i32 as i64
    }
}

/// The `j`-th table operand entry, when it belongs to the instruction's
/// opcode, indexes a declared table entry.
pub open spec fn table_operand_result(
    function_id: u32,
    body: (u32, Seq<u8>),
    instruction: HermesInstruction,
    h: HermesBytecodeHeader,
    j: int,
) -> Result<(), ParseError> {
    if TABLE_OPERAND_OPCODES[j] != instruction.opcode {
        Ok(())
    } else {
        let index = unsigned_operand(
            body.1,
            operand_at(body, instruction, TABLE_OPERAND_OFFSETS[j] as int),
            TABLE_OPERAND_WIDTHS[j] as int,
        );
        let table = BytecodeTable::from_code(TABLE_OPERAND_TABLES[j]);
        let limit = table.spec_limit(h);
        if index >= limit {
            Err(
                ParseError::InvalidInstructionTableReference {
                    function_id,
                    offset: instruction.offset,
                    opcode: instruction.opcode,
                    table: table.spec_name(),
                    index,
                    limit,
                },
            )
        } else {
            Ok(())
        }
    }
}

pub open spec fn table_operand_check(
    function_id: u32,
    body: (u32, Seq<u8>),
    instruction: HermesInstruction,
    h: HermesBytecodeHeader,
) -> spec_fn(int) -> Result<(), ParseError> {
    |j: int| table_operand_result(function_id, body, instruction, h, j)
}

/// Every table operand of the instruction indexes a declared table entry.
pub open spec fn table_operands_result(
    function_id: u32,
    body: (u32, Seq<u8>),
    instruction: HermesInstruction,
    h: HermesBytecodeHeader,
) -> Result<(), ParseError> {
    first_failure(35, table_operand_check(function_id, body, instruction, h))
}

/// Checks the table operands of one instruction.
pub fn validate_instruction_table_operands(
    function_id: u32,
    body: SectionView<'_>,
    instruction: HermesInstruction,
    header: &HermesBytecodeHeader,
) -> (result: Result<(), ParseError>)
    requires
        in_body(body@, instruction),
    ensures
        result == table_operands_result(function_id, body@, instruction, *header),
{
    let ghost check = table_operand_check(function_id, body@, instruction, *header);
    let bytes = body.bytes();
    let at = (instruction.offset - body.offset()) as usize;
    let mut j: usize = 0;
    while j < 35
        invariant
            j <= 35,
            bytes@ == body@.1,
            at == instruction.offset - body@.0,
            in_body(body@, instruction),
            check == table_operand_check(function_id, body@, instruction, *header),
            first_failure(j as int, check) is Ok,
        decreases 35 - j,
    {
        if TABLE_OPERAND_OPCODES[j] == instruction.opcode {
            let index = read_unsigned_operand(
                bytes,
                at + TABLE_OPERAND_OFFSETS[j] as usize,
                TABLE_OPERAND_WIDTHS[j] as usize,
            );
            let table = BytecodeTable::of_code(TABLE_OPERAND_TABLES[j]);
            let limit = table.limit(header);
            if index >= limit {
                let e = ParseError::InvalidInstructionTableReference {
                    function_id,
                    offset: instruction.offset,
                    opcode: instruction.opcode,
                    table: table.name(),
                    index,
                    limit,
                };
                assert(check(j as int) == Err::<(), ParseError>(e));
                proof {
                    lemma_first_failure_sticks(j + 1, 35, check);
                }
                return Err(e);
            }
        }
        assert(check(j as int) is Ok);
        j = j + 1;
    }
    proof {
        lemma_ok_is_unit(first_failure(35, check));
    }
    Ok(())
}

/// Operand layout `(shape offset, shape width, value offset, value width)`
/// of the object-literal opcodes 1 through 4.
pub open spec fn object_literal_operand(opcode: u8) -> (int, int, int, int) {
    if opcode == 1 {
        (2, 2, 4, 2)
    } else if opcode == 2 {
        (2, 4, 6, 4)
    } else {
        (3, 4, 7, 4)
    }
}

/// The literal buffer reference of an object-literal (opcodes 1 to 4) or
/// array-literal (opcodes 7 and 8) instruction is readable.
pub open spec fn literal_operands_result(
    body: (u32, Seq<u8>),
    instruction: HermesInstruction,
    h: HermesBytecodeHeader,
    literal_value_buffer: Seq<u8>,
    obj_shape_table: Seq<u8>,
) -> Result<(), ParseError> {
    let op = instruction.opcode;
    if 1 <= op <= 4 {
        let (shape_offset, shape_width, value_offset, value_width) = object_literal_operand(op);
        let shape_index = unsigned_operand(body.1, operand_at(body, instruction, shape_offset), shape_width);
        let value = unsigned_operand(body.1, operand_at(body, instruction, value_offset), value_width);
        match object_shape_at(obj_shape_table, shape_index as int) {
            Some(shape) => literal_buffer_result(
                "literal_value_buffer",
                literal_value_buffer,
                value,
                shape.num_props,
                false,
                h.string_count,
            ),
            None => Ok(()),
        }
    } else if op == 7 || op == 8 {
        let element_count = unsigned_operand(body.1, operand_at(body, instruction, 4), 2);
        let value = unsigned_operand(
            body.1,
            operand_at(body, instruction, 6),
            if op == 7 {
                2
            } else {
                4
            },
        );
        literal_buffer_result(
            "literal_value_buffer",
            literal_value_buffer,
            value,
            element_count,
            false,
            h.string_count,
        )
    } else {
        Ok(())
    }
}

/// Checks the literal buffer reference of one instruction; its table
/// operands, the object shape index among them, have been checked.
pub fn validate_instruction_literal_operands(
    function_id: u32,
    body: SectionView<'_>,
    instruction: HermesInstruction,
    header: &HermesBytecodeHeader,
    literal_value_buffer: &[u8],
    obj_shape_table: &[u8],
) -> (result: Result<(), ParseError>)
    requires
        in_body(body@, instruction),
        table_operands_result(function_id, body@, instruction, *header) is Ok,
        obj_shape_table@.len() == 8 * header.obj_shape_table_count,
        literal_value_buffer@.len() <= u32::MAX,
    ensures
        result == literal_operands_result(
            body@,
            instruction,
            *header,
            literal_value_buffer@,
            obj_shape_table@,
        ),
{
    let bytes = body.bytes();
    let at = (instruction.offset - body.offset()) as usize;
    let op = instruction.opcode;
    if 1 <= op && op <= 4 {
        let (shape_offset, shape_width, value_offset, value_width): (usize, usize, usize, usize) =
            if op == 1 {
            (2, 2, 4, 2)
        } else if op == 2 {
            (2, 4, 6, 4)
        } else {
            (3, 4, 7, 4)
        };
        let shape_index = read_unsigned_operand(bytes, at + shape_offset, shape_width);
        let value = read_unsigned_operand(bytes, at + value_offset, value_width);
        proof {
            let check = table_operand_check(function_id, body@, instruction, *header);
            lemma_first_failure_ok(35, check);
            assert(check((op - 1) as int) is Ok);
        }
        let shape = match object_shape_entry_at(obj_shape_table, shape_index) {
            Some(shape) => shape,
            None => {
                assert(false);
                return Ok(());
            },
        };
        validate_serialized_literal_buffer(
            "literal_value_buffer",
            literal_value_buffer,
            value,
            shape.num_props,
            false,
            header.string_count,
        )
    } else if op == 7 || op == 8 {
        let element_count = read_unsigned_operand(bytes, at + 4, 2);
        let value = read_unsigned_operand(
            bytes,
            at + 6,
            if op == 7 {
                2
            } else {
                4
            },
        );
        validate_serialized_literal_buffer(
            "literal_value_buffer",
            literal_value_buffer,
            value,
            element_count,
            false,
            header.string_count,
        )
    } else {
        Ok(())
    }
}

/// A jump from the instruction by `delta` bytes lands on an instruction boundary.
pub open spec fn jump_target_result(
    function_id: u32,
    body: (u32, Seq<u8>),
    offsets: Seq<u32>,
    instruction: HermesInstruction,
    delta: i64,
) -> Result<(), ParseError> {
    let target = instruction.offset + delta;
    if !is_boundary(body, offsets, target) {
        Err(
            ParseError::InvalidJumpTarget {
                function_id,
                offset: instruction.offset,
                opcode: instruction.opcode,
                target: target as i64,
                body_start: body.0,
                body_end: (body.0 + body.1.len()) as u32,
            },
        )
    } else {
        Ok(())
    }
}

/// Checks that a jump from the instruction by `delta` bytes lands on an instruction boundary.
pub fn validate_jump_target(
    function_id: u32,
    body: SectionView<'_>,
    instruction: HermesInstruction,
    delta: i64,
    boundaries: &Vec<u32>,
) -> (result: Result<(), ParseError>)
    requires
        body@.0 + body@.1.len() <= u32::MAX,
        strictly_increasing(boundaries@),
        delta >= i32::MIN,
        delta <= i32::MAX,
    ensures
        result == jump_target_result(function_id, body@, boundaries@, instruction, delta),
{
    let target = instruction.offset as i64 + delta;
    if !is_instruction_boundary(body, target, boundaries) {
        return Err(
            ParseError::InvalidJumpTarget {
                function_id,
                offset: instruction.offset,
                opcode: instruction.opcode,
                target,
                body_start: body.offset(),
                body_end: body.offset() + body.bytes().len() as u32,
            },
        );
    }
    Ok(())
}

/// A jump instruction (opcodes 175 to 219) lands on an instruction boundary.
pub open spec fn jump_operand_result(
    function_id: u32,
    body: (u32, Seq<u8>),
    offsets: Seq<u32>,
    instruction: HermesInstruction,
) -> Result<(), ParseError> {
    let op = instruction.opcode;
    if 175 <= op <= 219 {
        let delta = signed_operand(
            body.1,
            operand_at(body, instruction, 1),
            JUMP_OPERAND_WIDTHS[op - 175] as int,
        );
        jump_target_result(function_id, body, offsets, instruction, delta)
    } else {
        Ok(())
    }
}

/// Checks the target of a jump instruction.
pub fn validate_instruction_jump_operands(
    function_id: u32,
    body: SectionView<'_>,
    instruction: HermesInstruction,
    boundaries: &Vec<u32>,
) -> (result: Result<(), ParseError>)
    requires
        in_body(body@, instruction),
        strictly_increasing(boundaries@),
    ensures
        result == jump_operand_result(function_id, body@, boundaries@, instruction),
{
    let op = instruction.opcode;
    if 175 <= op && op <= 219 {
        let bytes = body.bytes();
        let at = (instruction.offset - body.offset()) as usize;
        let delta = read_signed_operand(bytes, at + 1, JUMP_OPERAND_WIDTHS[(op - 175) as usize] as usize);
        validate_jump_target(function_id, body, instruction, delta, boundaries)
    } else {
        Ok(())
    }
}

/// The error for a switch table that lies outside the function payload.
pub open spec fn switch_table_error(
    function_id: u32,
    instruction: HermesInstruction,
    table_start: u32,
    table_size: u32,
    region_limit: u32,
) -> ParseError {
    ParseError::SwitchTableOutOfBounds {
        function_id,
        offset: instruction.offset,
        opcode: instruction.opcode,
        table_start,
        table_size,
        region_limit,
    }
}

/// The switch table of `table_size` bytes, found at the first aligned offset
/// at or after `instruction.offset + table_offset`, lies after the body and
/// before `region_limit`: its start and end offsets in the file.
pub open spec fn switch_table_result(
    file_len: int,
    function_id: u32,
    body: (u32, Seq<u8>),
    instruction: HermesInstruction,
    table_offset: u32,
    table_size: u32,
    region_limit: u32,
) -> Result<(int, int), ParseError> {
    let raw = instruction.offset + table_offset;
    if raw > u32::MAX || aligned_u32(raw as u32, 4) is None {
        Err(switch_table_error(function_id, instruction, u32::MAX, table_size, region_limit))
    } else {
        let start = aligned_u32(raw as u32, 4)->0;
        if start + table_size > u32::MAX || start < body.0 + body.1.len() || start + table_size
            > region_limit || start + table_size > file_len {
            Err(switch_table_error(function_id, instruction, start, table_size, region_limit))
        } else {
            Ok((start as int, start + table_size))
        }
    }
}

/// Returns the switch table of an instruction as a slice of `bytes`.
pub fn switch_table_bytes<'a>(
    bytes: &'a [u8],
    function_id: u32,
    body: SectionView<'_>,
    instruction: HermesInstruction,
    table_offset: u32,
    table_size: u32,
    region_limit: u32,
) -> (result: Result<&'a [u8], ParseError>)
    requires
        body@.0 + body@.1.len() <= u32::MAX,
    ensures
        match switch_table_result(
            bytes@.len() as int,
            function_id,
            body@,
            instruction,
            table_offset,
            table_size,
            region_limit,
        ) {
            Ok((start, end)) => result matches Ok(table) && table@ == bytes@.subrange(start, end),
            Err(e) => result == Err::<&'a [u8], ParseError>(e),
        },
{
    let error_at = |table_start: u32| -> (e: ParseError)
        ensures
            e == switch_table_error(function_id, instruction, table_start, table_size, region_limit),
        {
            ParseError::SwitchTableOutOfBounds {
                function_id,
                offset: instruction.offset,
                opcode: instruction.opcode,
                table_start,
                table_size,
                region_limit,
            }
        };
    if instruction.offset > u32::MAX - table_offset {
        return Err(error_at(u32::MAX));
    }
    let table_start = match align_u32(instruction.offset + table_offset, 4) {
        Some(start) => start,
        None => {
            return Err(error_at(u32::MAX));
        },
    };
    if table_start > u32::MAX - table_size {
        return Err(error_at(table_start));
    }
    let table_end = table_start + table_size;
    if table_start < body.offset() + body.bytes().len() as u32 || table_end > region_limit {
        return Err(error_at(table_start));
    }
    if table_end as usize > bytes.len() {
        return Err(error_at(table_start));
    }
    Ok(&bytes[table_start as usize..table_end as usize])
}

/// A switch table entry's jump from the instruction by `delta` bytes lands on
/// an instruction boundary.
pub open spec fn switch_target_result(
    function_id: u32,
    body: (u32, Seq<u8>),
    offsets: Seq<u32>,
    instruction: HermesInstruction,
    entry_index: int,
    delta: i64,
) -> Result<(), ParseError> {
    let target = instruction.offset + delta;
    if !is_boundary(body, offsets, target) {
        Err(
            ParseError::InvalidSwitchTableTarget {
                function_id,
                offset: instruction.offset,
                opcode: instruction.opcode,
                entry_index: entry_index as u32,
                target: target as i64,
                body_start: body.0,
                body_end: (body.0 + body.1.len()) as u32,
            },
        )
    } else {
        Ok(())
    }
}

/// Checks one switch table entry's jump target.
pub fn validate_switch_table_target(
    function_id: u32,
    body: SectionView<'_>,
    instruction: HermesInstruction,
    entry_index: u32,
    delta: i64,
    boundaries: &Vec<u32>,
) -> (result: Result<(), ParseError>)
    requires
        body@.0 + body@.1.len() <= u32::MAX,
        strictly_increasing(boundaries@),
        delta >= i32::MIN,
        delta <= i32::MAX,
    ensures
        result == switch_target_result(function_id, body@, boundaries@, instruction, entry_index as int, delta),
{
    let target = instruction.offset as i64 + delta;
    if !is_instruction_boundary(body, target, boundaries) {
        return Err(
            ParseError::InvalidSwitchTableTarget {
                function_id,
                offset: instruction.offset,
                opcode: instruction.opcode,
                entry_index,
                target,
                body_start: body.offset(),
                body_end: body.offset() + body.bytes().len() as u32,
            },
        );
    }
    Ok(())
}

/// Size in bytes of a table of `entry_count` entries, saturated at `u32::MAX`.
pub open spec fn table_size(entry_count: u32, entry_size: u32) -> u32 {
    if entry_count * entry_size > u32::MAX {
        u32::MAX
    } else {
        (entry_count * entry_size) as u32
    }
}

/// Returns the size of a table of `entry_count` entries, saturated at `u32::MAX`.
pub fn checked_table_size(entry_count: u32, entry_size: u32) -> (size: u32)
    ensures
        size == table_size(entry_count, entry_size),
{
    match entry_count.checked_mul(entry_size) {
        Some(size) => size,
        None => u32::MAX,
    }
}

pub open spec fn uint_switch_entry_check(
    s: Seq<u8>,
    function_id: u32,
    body: (u32, Seq<u8>),
    offsets: Seq<u32>,
    instruction: HermesInstruction,
    table_start: int,
) -> spec_fn(int) -> Result<(), ParseError> {
    |k: int|
        switch_target_result(
            function_id,
            body,
            offsets,
            instruction,
            k,
            le_u32(s, table_start + 4 * k) as i32 as i64,
        )
}

/// An unsigned-immediate switch: its default target, its range, its table
/// placement and every table target are valid.
pub open spec fn uint_switch_result(
    s: Seq<u8>,
    function_id: u32,
    body: (u32, Seq<u8>),
    offsets: Seq<u32>,
    instruction: HermesInstruction,
    region_limit: u32,
) -> Result<(), ParseError> {
    let table_offset = unsigned_operand(body.1, operand_at(body, instruction, 2), 4);
    let default_delta = signed_operand(body.1, operand_at(body, instruction, 6), 4);
    let minimum = unsigned_operand(body.1, operand_at(body, instruction, 10), 4);
    let maximum = unsigned_operand(body.1, operand_at(body, instruction, 14), 4);
    let range_error = ParseError::InvalidSwitchTableRange {
        function_id,
        offset: instruction.offset,
        opcode: instruction.opcode,
        minimum,
        maximum,
    };
    match jump_target_result(function_id, body, offsets, instruction, default_delta) {
        Err(e) => Err(e),
        Ok(_) => {
            if maximum < minimum || maximum - minimum + 1 > u32::MAX {
                Err(range_error)
            } else {
                let size = table_size((maximum - minimum + 1) as u32, 4);
                match switch_table_result(
                    s.len() as int,
                    function_id,
                    body,
                    instruction,
                    table_offset,
                    size,
                    region_limit,
                ) {
                    Err(e) => Err(e),
                    Ok((start, end)) => first_failure(
                        (end - start) / 4,
                        uint_switch_entry_check(s, function_id, body, offsets, instruction, start),
                    ),
                }
            }
        },
    }
}

pub open spec fn string_switch_entry_result(
    s: Seq<u8>,
    function_id: u32,
    body: (u32, Seq<u8>),
    offsets: Seq<u32>,
    instruction: HermesInstruction,
    string_count: u32,
    table_start: int,
    k: int,
) -> Result<(), ParseError> {
    let string_id = le_u32(s, table_start + 8 * k);
    if string_id >= string_count {
        Err(
            ParseError::InvalidInstructionTableReference {
                function_id,
                offset: instruction.offset,
                opcode: instruction.opcode,
                table: "string",
                index: string_id,
                limit: string_count,
            },
        )
    } else {
        switch_target_result(
            function_id,
            body,
            offsets,
            instruction,
            k,
            le_u32(s, table_start + 8 * k + 4) as i32 as i64,
        )
    }
}

pub open spec fn string_switch_entry_check(
    s: Seq<u8>,
    function_id: u32,
    body: (u32, Seq<u8>),
    offsets: Seq<u32>,
    instruction: HermesInstruction,
    string_count: u32,
    table_start: int,
) -> spec_fn(int) -> Result<(), ParseError> {
    |k: int|
        string_switch_entry_result(s, function_id, body, offsets, instruction, string_count, table_start, k)
}

/// A string switch: its switch id, its default target, its table placement,
/// and every table label and target are valid.
pub open spec fn string_switch_result(
    s: Seq<u8>,
    function_id: u32,
    body: (u32, Seq<u8>),
    offsets: Seq<u32>,
    instruction: HermesInstruction,
    h: HermesBytecodeHeader,
    region_limit: u32,
) -> Result<(), ParseError> {
    let switch_index = unsigned_operand(body.1, operand_at(body, instruction, 2), 4);
    let table_offset = unsigned_operand(body.1, operand_at(body, instruction, 6), 4);
    let default_delta = signed_operand(body.1, operand_at(body, instruction, 10), 4);
    let entry_count = unsigned_operand(body.1, operand_at(body, instruction, 14), 4);
    if switch_index >= h.num_string_switch_imms {
        Err(
            ParseError::InvalidInstructionTableReference {
                function_id,
                offset: instruction.offset,
                opcode: instruction.opcode,
                table: "string_switch",
                index: switch_index,
                limit: h.num_string_switch_imms,
            },
        )
    } else {
        match jump_target_result(function_id, body, offsets, instruction, default_delta) {
            Err(e) => Err(e),
            Ok(_) => match switch_table_result(
                s.len() as int,
                function_id,
                body,
                instruction,
                table_offset,
                table_size(entry_count, 8),
                region_limit,
            ) {
                Err(e) => Err(e),
                Ok((start, end)) => first_failure(
                    (end - start) / 8,
                    string_switch_entry_check(
                        s,
                        function_id,
                        body,
                        offsets,
                        instruction,
                        h.string_count,
                        start,
                    ),
                ),
            },
        }
    }
}

/// A switch instruction (opcodes 167 and 168) is valid; other instructions pass.
pub open spec fn switch_result(
    s: Seq<u8>,
    function_id: u32,
    body: (u32, Seq<u8>),
    offsets: Seq<u32>,
    instruction: HermesInstruction,
    h: HermesBytecodeHeader,
    region_limit: u32,
) -> Result<(), ParseError> {
    if instruction.opcode == UINT_SWITCH_IMM_OPCODE {
        uint_switch_result(s, function_id, body, offsets, instruction, region_limit)
    } else if instruction.opcode == STRING_SWITCH_IMM_OPCODE {
        string_switch_result(s, function_id, body, offsets, instruction, h, region_limit)
    } else {
        Ok(())
    }
}

/// Checks an unsigned-immediate switch instruction.
pub fn validate_uint_switch_instruction(
    bytes: &[u8],
    function_id: u32,
    body: SectionView<'_>,
    instruction: HermesInstruction,
    region_limit: u32,
    boundaries: &Vec<u32>,
) -> (result: Result<(), ParseError>)
    requires
        in_body(body@, instruction),
        instruction.opcode == UINT_SWITCH_IMM_OPCODE,
        strictly_increasing(boundaries@),
    ensures
        result == uint_switch_result(bytes@, function_id, body@, boundaries@, instruction, region_limit),
{
    let body_bytes = body.bytes();
    let at = (instruction.offset - body.offset()) as usize;
    let table_offset = read_unsigned_operand(body_bytes, at + 2, 4);
    let default_delta = read_signed_operand(body_bytes, at + 6, 4);
    let minimum = read_unsigned_operand(body_bytes, at + 10, 4);
    let maximum = read_unsigned_operand(body_bytes, at + 14, 4);

    let checked = validate_jump_target(function_id, body, instruction, default_delta, boundaries);
    if checked.is_err() {
        return checked;
    }
    if maximum < minimum || maximum - minimum == u32::MAX {
        return Err(
            ParseError::InvalidSwitchTableRange {
                function_id,
                offset: instruction.offset,
                opcode: instruction.opcode,
                minimum,
                maximum,
            },
        );
    }
    let entry_count = maximum - minimum + 1;
    let table_bytes = checked_table_size(entry_count, 4);
    let table = match switch_table_bytes(
        bytes,
        function_id,
        body,
        instruction,
        table_offset,
        table_bytes,
        region_limit,
    ) {
        Ok(table) => table,
        Err(e) => {
            return Err(e);
        },
    };
    let ghost start = (switch_table_result(
        bytes@.len() as int,
        function_id,
        body@,
        instruction,
        table_offset,
        table_bytes,
        region_limit,
    )->Ok_0).0;
    let ghost check = uint_switch_entry_check(bytes@, function_id, body@, boundaries@, instruction, start);
    let len = table.len();
    let n = len / 4;
    let mut k: usize = 0;
    while k < n
        invariant
            len == table@.len(),
            n == len / 4,
            k <= n,
            0 <= start,
            start + len <= bytes@.len(),
            table@ == bytes@.subrange(start, start + len),
            body@.0 + body@.1.len() <= u32::MAX,
            strictly_increasing(boundaries@),
            check == uint_switch_entry_check(bytes@, function_id, body@, boundaries@, instruction, start),
            first_failure(k as int, check) is Ok,
            uint_switch_result(bytes@, function_id, body@, boundaries@, instruction, region_limit)
                == first_failure(n as int, check),
        decreases n - k,
    {
        let delta = read_u32(table, 4 * k) as i32 as i64;
        assert(le_u32(table@, 4 * k) == le_u32(bytes@, start + 4 * k));
        let checked = validate_switch_table_target(
            function_id,
            body,
            instruction,
            k as u32,
            delta,
            boundaries,
        );
        assert(checked == check(k as int));
        if checked.is_err() {
            proof {
                lemma_first_failure_sticks(k + 1, n as int, check);
            }
            return checked;
        }
        k = k + 1;
    }
    proof {
        lemma_ok_is_unit(first_failure(n as int, check));
    }
    Ok(())
}

/// Checks a string switch instruction.
pub fn validate_string_switch_instruction(
    bytes: &[u8],
    function_id: u32,
    body: SectionView<'_>,
    instruction: HermesInstruction,
    header: &HermesBytecodeHeader,
    region_limit: u32,
    boundaries: &Vec<u32>,
) -> (result: Result<(), ParseError>)
    requires
        in_body(body@, instruction),
        instruction.opcode == STRING_SWITCH_IMM_OPCODE,
        strictly_increasing(boundaries@),
    ensures
        result == string_switch_result(bytes@, function_id, body@, boundaries@, instruction, *header, region_limit),
{
    let body_bytes = body.bytes();
    let at = (instruction.offset - body.offset()) as usize;
    let switch_index = read_unsigned_operand(body_bytes, at + 2, 4);
    let table_offset = read_unsigned_operand(body_bytes, at + 6, 4);
    let default_delta = read_signed_operand(body_bytes, at + 10, 4);
    let entry_count = read_unsigned_operand(body_bytes, at + 14, 4);

    if switch_index >= header.num_string_switch_imms {
        return Err(
            ParseError::InvalidInstructionTableReference {
                function_id,
                offset: instruction.offset,
                opcode: instruction.opcode,
                table: "string_switch",
                index: switch_index,
                limit: header.num_string_switch_imms,
            },
        );
    }
    let checked = validate_jump_target(function_id, body, instruction, default_delta, boundaries);
    if checked.is_err() {
        return checked;
    }
    let table_bytes = checked_table_size(entry_count, 8);
    let table = match switch_table_bytes(
        bytes,
        function_id,
        body,
        instruction,
        table_offset,
        table_bytes,
        region_limit,
    ) {
        Ok(table) => table,
        Err(e) => {
            return Err(e);
        },
    };
    let ghost start = (switch_table_result(
        bytes@.len() as int,
        function_id,
        body@,
        instruction,
        table_offset,
        table_bytes,
        region_limit,
    )->Ok_0).0;
    let ghost check = string_switch_entry_check(
        bytes@,
        function_id,
        body@,
        boundaries@,
        instruction,
        header.string_count,
        start,
    );
    let len = table.len();
    let n = len / 8;
    let mut k: usize = 0;
    while k < n
        invariant
            len == table@.len(),
            n == len / 8,
            k <= n,
            0 <= start,
            start + len <= bytes@.len(),
            table@ == bytes@.subrange(start, start + len),
            body@.0 + body@.1.len() <= u32::MAX,
            strictly_increasing(boundaries@),
            check == string_switch_entry_check(
                bytes@,
                function_id,
                body@,
                boundaries@,
                instruction,
                header.string_count,
                start,
            ),
            first_failure(k as int, check) is Ok,
            string_switch_result(bytes@, function_id, body@, boundaries@, instruction, *header, region_limit)
                == first_failure(n as int, check),
        decreases n - k,
    {
        let string_id = read_u32(table, 8 * k);
        assert(le_u32(table@, 8 * k) == le_u32(bytes@, start + 8 * k));
        assert(le_u32(table@, 8 * k + 4) == le_u32(bytes@, start + 8 * k + 4));
        let checked = if string_id >= header.string_count {
            Err(
                ParseError::InvalidInstructionTableReference {
                    function_id,
                    offset: instruction.offset,
                    opcode: instruction.opcode,
                    table: "string",
                    index: string_id,
                    limit: header.string_count,
                },
            )
        } else {
            let delta = read_u32(table, 8 * k + 4) as i32 as i64;
            validate_switch_table_target(function_id, body, instruction, k as u32, delta, boundaries)
        };
        assert(checked == check(k as int));
        if checked.is_err() {
            proof {
                lemma_first_failure_sticks(k + 1, n as int, check);
            }
            return checked;
        }
        k = k + 1;
    }
    proof {
        lemma_ok_is_unit(first_failure(n as int, check));
    }
    Ok(())
}

/// Checks a switch instruction; other instructions pass.
pub fn validate_switch_instruction(
    bytes: &[u8],
    function_id: u32,
    body: SectionView<'_>,
    instruction: HermesInstruction,
    header: &HermesBytecodeHeader,
    region_limit: u32,
    boundaries: &Vec<u32>,
) -> (result: Result<(), ParseError>)
    requires
        in_body(body@, instruction),
        strictly_increasing(boundaries@),
    ensures
        result == switch_result(bytes@, function_id, body@, boundaries@, instruction, *header, region_limit),
{
    if instruction.opcode == UINT_SWITCH_IMM_OPCODE {
        validate_uint_switch_instruction(bytes, function_id, body, instruction, region_limit, boundaries)
    } else if instruction.opcode == STRING_SWITCH_IMM_OPCODE {
        validate_string_switch_instruction(
            bytes,
            function_id,
            body,
            instruction,
            header,
            region_limit,
            boundaries,
        )
    } else {
        Ok(())
    }
}

} // verus!
