//! Validation of function bodies: their placement in the function body
//! region and every instruction they hold.

use vstd::prelude::*;

use crate::hbc::checks::{first_failure, lemma_first_failure_sticks, lemma_ok_is_unit, then};
use crate::hbc::error::ParseError;
use crate::hbc::function_header::{function_body, function_body_result, HermesFunctionHeader};
use crate::hbc::header::HermesBytecodeHeader;
use crate::hbc::instructions::{
    decode_body,
    decode_instructions,
    instruction_offsets,
    lemma_decode_shape,
    HermesInstruction,
};
use crate::hbc::layout::SectionView;
use crate::hbc::operands::{
    in_body,
    jump_operand_result,
    literal_operands_result,
    switch_result,
    table_operands_result,
    validate_instruction_jump_operands,
    validate_instruction_literal_operands,
    validate_instruction_table_operands,
    validate_switch_instruction,
};

verus! {

/// What instruction validation needs beyond the instruction and its body.
#[derive(Debug, Clone, Copy, PartialEq, Eq)]
pub struct InstructionValidationContext<'a> {
    pub header: HermesBytecodeHeader,
    pub function_region_limit: u32,
    pub literal_value_buffer: &'a [u8],
    pub obj_shape_table: &'a [u8],
}

/// The model of a validation context: header, region limit, literal value
/// buffer and object shape table.
pub open spec fn context_model(context: InstructionValidationContext) -> (HermesBytecodeHeader, u32, Seq<u8>, Seq<u8>) {
    (
        context.header,
        context.function_region_limit,
        context.literal_value_buffer@,
        context.obj_shape_table@,
    )
}

/// One instruction's operands are valid: table references, then literal
/// buffer references, then jump targets, then switch tables.
pub open spec fn instruction_result(
    s: Seq<u8>,
    function_id: u32,
    body: (u32, Seq<u8>),
    offsets: Seq<u32>,
    instruction: HermesInstruction,
    context: (HermesBytecodeHeader, u32, Seq<u8>, Seq<u8>),
) -> Result<(), ParseError> {
    then(
        table_operands_result(function_id, body, instruction, context.0),
        then(
            literal_operands_result(body, instruction, context.0, context.2, context.3),
            then(
                jump_operand_result(function_id, body, offsets, instruction),
                switch_result(s, function_id, body, offsets, instruction, context.0, context.1),
            ),
        ),
    )
}

pub open spec fn instruction_check(
    s: Seq<u8>,
    function_id: u32,
    body: (u32, Seq<u8>),
    instructions: Seq<HermesInstruction>,
    context: (HermesBytecodeHeader, u32, Seq<u8>, Seq<u8>),
) -> spec_fn(int) -> Result<(), ParseError> {
    |k: int|
        instruction_result(
            s,
            function_id,
            body,
            instruction_offsets(instructions),
            instructions[k],
            context,
        )
}

/// The body decodes into instructions, and every instruction is valid.
pub open spec fn instruction_stream_result(
    s: Seq<u8>,
    function_id: u32,
    body: (u32, Seq<u8>),
    context: (HermesBytecodeHeader, u32, Seq<u8>, Seq<u8>),
) -> Result<(), ParseError> {
    match decode_body(function_id, body) {
        Err(e) => Err(e),
        Ok(instructions) => first_failure(
            instructions.len() as int,
            instruction_check(s, function_id, body, instructions, context),
        ),
    }
}

/// Decodes a function body and checks every instruction's operands.
pub fn validate_instruction_stream(
    bytes: &[u8],
    function_id: u32,
    body: SectionView<'_>,
    context: &InstructionValidationContext<'_>,
) -> (result: Result<(), ParseError>)
    requires
        body@.0 + body@.1.len() <= u32::MAX,
        context.obj_shape_table@.len() == 8 * context.header.obj_shape_table_count,
        context.literal_value_buffer@.len() <= u32::MAX,
    ensures
        result == instruction_stream_result(bytes@, function_id, body@, context_model(*context)),
{
    let (instructions, boundaries) = match decode_instructions(function_id, body) {
        Ok(decoded) => decoded,
        Err(e) => {
            return Err(e);
        },
    };
    proof {
        lemma_decode_shape(function_id, body@.0, body@.1, 0);
    }
    let ghost check = instruction_check(bytes@, function_id, body@, instructions@, context_model(*context));
    let n = instructions.len();
    let mut k: usize = 0;
    while k < n
        invariant
            n == instructions@.len(),
            k <= n,
            body@.0 + body@.1.len() <= u32::MAX,
            decode_body(function_id, body@) == Ok::<Seq<HermesInstruction>, ParseError>(instructions@),
            boundaries@ == instruction_offsets(instructions@),
            forall|j: int, l: int|
                0 <= j < l < instructions@.len() ==> instructions@[j].offset < instructions@[l].offset,
            forall|j: int|
                0 <= j < instructions@.len() ==> in_body(body@, #[trigger] instructions@[j]),
            context.obj_shape_table@.len() == 8 * context.header.obj_shape_table_count,
            context.literal_value_buffer@.len() <= u32::MAX,
            check == instruction_check(bytes@, function_id, body@, instructions@, context_model(*context)),
            first_failure(k as int, check) is Ok,
        decreases n - k,
    {
        let instruction = instructions[k];
        assert(in_body(body@, instructions@[k as int]));
        let checked = validate_instruction_table_operands(function_id, body, instruction, &context.header);
        if checked.is_err() {
            assert(check(k as int) == checked);
            proof {
                lemma_first_failure_sticks(k + 1, n as int, check);
            }
            return checked;
        }
        let checked = validate_instruction_literal_operands(
            function_id,
            body,
            instruction,
            &context.header,
            context.literal_value_buffer,
            context.obj_shape_table,
        );
        if checked.is_err() {
            assert(check(k as int) == checked);
            proof {
                lemma_first_failure_sticks(k + 1, n as int, check);
            }
            return checked;
        }
        let checked = validate_instruction_jump_operands(function_id, body, instruction, &boundaries);
        if checked.is_err() {
            assert(check(k as int) == checked);
            proof {
                lemma_first_failure_sticks(k + 1, n as int, check);
            }
            return checked;
        }
        let checked = validate_switch_instruction(
            bytes,
            function_id,
            body,
            instruction,
            &context.header,
            context.function_region_limit,
            &boundaries,
        );
        if checked.is_err() {
            assert(check(k as int) == checked);
            proof {
                lemma_first_failure_sticks(k + 1, n as int, check);
            }
            return checked;
        }
        assert(check(k as int) is Ok);
        k = k + 1;
    }
    proof {
        lemma_ok_is_unit(first_failure(n as int, check));
    }
    Ok(())
}

/// The function's body lies in `[function_bodies_offset, limit)` and is a
/// valid instruction stream.
pub open spec fn function_body_check(
    s: Seq<u8>,
    function_id: u32,
    header: HermesFunctionHeader,
    function_bodies_offset: u32,
    limit: u32,
    context: (HermesBytecodeHeader, u32, Seq<u8>, Seq<u8>),
) -> Result<(), ParseError> {
    if header.offset < function_bodies_offset || header.offset + header.bytecode_size_in_bytes > limit {
        Err(
            ParseError::FunctionBodyOutOfBounds {
                function_id,
                offset: header.offset,
                size: header.bytecode_size_in_bytes,
                function_bodies_offset,
                limit,
            },
        )
    } else {
        match function_body_result(s, function_id, header) {
            Err(e) => Err(e),
            Ok(body) => instruction_stream_result(s, function_id, body, context),
        }
    }
}

/// Checks the placement and instructions of one function body.
pub fn validate_function_body(
    bytes: &[u8],
    function_id: u32,
    function_header: HermesFunctionHeader,
    function_bodies_offset: u32,
    limit: u32,
    context: &InstructionValidationContext<'_>,
) -> (result: Result<(), ParseError>)
    requires
        context.obj_shape_table@.len() == 8 * context.header.obj_shape_table_count,
        context.literal_value_buffer@.len() <= u32::MAX,
    ensures
        result == function_body_check(
            bytes@,
            function_id,
            function_header,
            function_bodies_offset,
            limit,
            context_model(*context),
        ),
{
    if function_header.offset < function_bodies_offset || function_header.offset > u32::MAX
        - function_header.bytecode_size_in_bytes || function_header.offset
        + function_header.bytecode_size_in_bytes > limit {
        return Err(
            ParseError::FunctionBodyOutOfBounds {
                function_id,
                offset: function_header.offset,
                size: function_header.bytecode_size_in_bytes,
                function_bodies_offset,
                limit,
            },
        );
    }
    let body = match function_body(bytes, function_id, function_header) {
        Ok(body) => body,
        Err(e) => {
            return Err(e);
        },
    };
    validate_instruction_stream(bytes, function_id, body, context)
}

} // verus!
