//! Decoding a function body into its instruction boundaries.

use vstd::prelude::*;

use crate::hbc::error::ParseError;
use crate::hbc::layout::SectionView;

verus! {

/// Width in bytes, opcode byte included, of each Hermes opcode.
pub const HERMES_OPCODE_WIDTHS: [u8; 220] = [1, 6, 10, 11, 12, 2, 3, 8, 10, 4, 5, 3, 4, 4, 3, 3, 3, 9, 3, 3, 3, 3, 4, 4, 4, 4, 4, 4, 4, 4, 4, 4, 4, 4, 4, 4, 4, 4, 4, 4, 4, 4, 4, 4, 4, 4, 3, 3, 4, 4, 5, 5, 3, 4, 3, 4, 5, 4, 5, 4, 5, 2, 2, 3, 3, 6, 7, 5, 5, 6, 8, 9, 6, 8, 6, 6, 8, 8, 6, 6, 8, 8, 4, 7, 4, 7, 6, 8, 4, 7, 4, 5, 5, 4, 4, 5, 4, 4, 6, 5, 4, 5, 5, 6, 5, 6, 4, 4, 4, 5, 5, 6, 7, 5, 7, 4, 7, 3, 2, 2, 4, 2, 3, 3, 2, 1, 1, 3, 6, 8, 7, 9, 5, 7, 4, 5, 4, 3, 6, 3, 6, 10, 4, 6, 4, 6, 2, 2, 2, 2, 2, 2, 3, 2, 3, 3, 3, 3, 3, 6, 4, 4, 3, 2, 2, 3, 14, 18, 18, 5, 7, 3, 4, 3, 3, 2, 5, 3, 6, 3, 6, 3, 6, 8, 4, 7, 4, 7, 4, 7, 4, 7, 4, 7, 4, 7, 4, 7, 4, 7, 4, 7, 4, 7, 4, 7, 4, 7, 4, 7, 4, 7, 4, 7, 4, 7, 4, 7, 4, 7];

/// One decoded Hermes bytecode instruction boundary.
#[derive(Debug, Clone, Copy, PartialEq, Eq)]
pub struct HermesInstruction {
    /// File offset of the instruction opcode byte.
    pub offset: u32,
    /// Raw Hermes opcode value.
    pub opcode: u8,
    /// Instruction size including the opcode byte and all operands.
    pub width: u8,
}

/// Returns the width of `opcode`, or `None` for an opcode outside the table.
pub fn hermes_opcode_width(opcode: u8) -> (width: Option<u8>)
    ensures
        opcode < 220 ==> width == Some(HERMES_OPCODE_WIDTHS[opcode as int]),
        opcode >= 220 ==> width is None,
        width matches Some(w) ==> 1 <= w <= 18,
{
    if (opcode as usize) < HERMES_OPCODE_WIDTHS.len() {
        Some(HERMES_OPCODE_WIDTHS[opcode as usize])
    } else {
        None
    }
}

/// Decoding the instruction at `cursor` of a body whose bytes `b` start at
/// file offset `base`: nothing at the end of the body, otherwise the
/// instruction or why it cannot be decoded.
pub open spec fn decode_step(function_id: u32, base: u32, b: Seq<u8>, cursor: int) -> Option<
    Result<HermesInstruction, ParseError>,
> {
    if cursor < 0 || cursor >= b.len() {
        None
    } else {
        let opcode = b[cursor];
        let offset = (base + cursor) as u32;
        if opcode >= 220 {
            Some(Err(ParseError::InvalidOpcode { function_id, offset, opcode }))
        } else {
            let width = HERMES_OPCODE_WIDTHS[opcode as int];
            if cursor + width > b.len() {
                Some(
                    Err(
                        ParseError::InstructionOutOfBounds {
                            function_id,
                            offset,
                            opcode,
                            width,
                            body_end: (base + b.len()) as u32,
                        },
                    ),
                )
            } else {
                Some(Ok(HermesInstruction { offset, opcode, width }))
            }
        }
    }
}

/// Decoding the instructions from `cursor` to the end of the body.
pub open spec fn decode_from(function_id: u32, base: u32, b: Seq<u8>, cursor: int) -> Result<
    Seq<HermesInstruction>,
    ParseError,
>
    decreases b.len() - cursor,
{
    match decode_step(function_id, base, b, cursor) {
        None => Ok(seq![]),
        Some(Err(e)) => Err(e),
        Some(Ok(instruction)) => {
            if instruction.width >= 1 {
                match decode_from(function_id, base, b, cursor + instruction.width) {
                    Ok(rest) => Ok(seq![instruction] + rest),
                    Err(e) => Err(e),
                }
            } else {
                Ok(seq![])
            }
        },
    }
}

/// The items that a stream at `cursor` yields, in order: one per decoded
/// instruction, up to the end of the body or up to and including the first
/// error, after which it yields nothing.
pub open spec fn stream_items(function_id: u32, base: u32, b: Seq<u8>, cursor: int) -> Seq<
    Result<HermesInstruction, ParseError>,
>
    decreases b.len() - cursor,
{
    match decode_step(function_id, base, b, cursor) {
        None => seq![],
        Some(Err(e)) => seq![Err(e)],
        Some(Ok(instruction)) => {
            proof {
                lemma_opcode_width_bounds(b[cursor] as int);
            }
            seq![Ok(instruction)] + stream_items(function_id, base, b, cursor + instruction.width)
        },
    }
}

/// Decoding a whole function body given as `(offset, bytes)`.
pub open spec fn decode_body(function_id: u32, body: (u32, Seq<u8>)) -> Result<Seq<HermesInstruction>, ParseError> {
    decode_from(function_id, body.0, body.1, 0)
}

/// The file offsets of a sequence of instructions.
pub open spec fn instruction_offsets(instructions: Seq<HermesInstruction>) -> Seq<u32> {
    instructions.map_values(|instruction: HermesInstruction| instruction.offset)
}

/// Instruction offsets increase strictly.
pub open spec fn strictly_increasing(offsets: Seq<u32>) -> bool {
    forall|j: int, k: int| 0 <= j < k < offsets.len() ==> offsets[j] < offsets[k]
}

/// A decoded stream tiles the body from `cursor`: each instruction starts
/// where the previous one ends, and all of them lie inside the body.
pub proof fn lemma_decode_shape(function_id: u32, base: u32, b: Seq<u8>, cursor: int)
    requires
        0 <= cursor <= b.len(),
        base + b.len() <= u32::MAX,
    ensures
        decode_from(function_id, base, b, cursor) matches Ok(is) ==> {
            &&& forall|j: int|
                0 <= j < is.len() ==> base + cursor <= (#[trigger] is[j]).offset && is[j].offset
                    + is[j].width <= base + b.len() && is[j].width >= 1
            &&& forall|j: int|
                0 <= j < is.len() ==> (#[trigger] is[j]).opcode < 220 && is[j].width
                    == HERMES_OPCODE_WIDTHS[is[j].opcode as int] && b[is[j].offset - base]
                    == is[j].opcode
            &&& forall|j: int, k: int| 0 <= j < k < is.len() ==> is[j].offset < is[k].offset
            &&& is.len() <= b.len() - cursor
            &&& is.len() > 0 ==> is[0].offset == base + cursor
        },
    decreases b.len() - cursor,
{
    if let Some(Ok(instruction)) = decode_step(function_id, base, b, cursor) {
        lemma_decode_shape(function_id, base, b, cursor + instruction.width);
        if let Ok(rest) = decode_from(function_id, base, b, cursor + instruction.width) {
            let is = seq![instruction] + rest;
            assert forall|j: int, k: int| 0 <= j < k < is.len() implies is[j].offset < is[k].offset by {
                if j > 0 {
                    assert(is[j] == rest[j - 1]);
                }
                assert(is[k] == rest[k - 1]);
            }
            assert(instruction.offset == base + cursor);
            assert forall|j: int|
                0 <= j < is.len() implies base + cursor <= (#[trigger] is[j]).offset && is[j].offset
                + is[j].width <= base + b.len() && is[j].width >= 1 by {
                if j > 0 {
                    assert(is[j] == rest[j - 1]);
                }
            }
            assert forall|j: int|
                0 <= j < is.len() implies (#[trigger] is[j]).opcode < 220 && is[j].width
                == HERMES_OPCODE_WIDTHS[is[j].opcode as int] && b[is[j].offset - base]
                == is[j].opcode by {
                if j > 0 {
                    assert(is[j] == rest[j - 1]);
                }
            }
            assert(is.len() <= b.len() - cursor);
            assert(decode_from(function_id, base, b, cursor) == Ok::<Seq<HermesInstruction>, ParseError>(is));
        }
    }
}

/// Every opcode of the table is between one and eighteen bytes wide.
pub proof fn lemma_opcode_width_bounds(opcode: int)
    requires
        0 <= opcode < 220,
    ensures
        1 <= HERMES_OPCODE_WIDTHS[opcode] <= 18,
{
}

/// The instructions decoded from `cursor` tile the rest of the body: none
/// when `cursor` is at its end, otherwise the first starts at `cursor`, each
/// next one starts where the previous one ends, and the last one ends at the
/// body's end.
pub proof fn lemma_decode_tiles(function_id: u32, base: u32, b: Seq<u8>, cursor: int)
    requires
        0 <= cursor <= b.len(),
        base + b.len() <= u32::MAX,
        decode_from(function_id, base, b, cursor) is Ok,
    ensures
        ({
            let is = decode_from(function_id, base, b, cursor)->Ok_0;
            &&& (is.len() == 0) == (cursor == b.len())
            &&& is.len() > 0 ==> is[0].offset == base + cursor && is.last().offset + is.last().width == base + b.len()
            &&& forall|k: int| 0 <= k < is.len() - 1 ==> #[trigger] is[k + 1].offset == is[k].offset + is[k].width
        }),
    decreases b.len() - cursor,
{
    if cursor < b.len() {
        lemma_opcode_width_bounds(b[cursor] as int);
        let instruction = decode_step(function_id, base, b, cursor)->0->Ok_0;
        let next = cursor + instruction.width;
        lemma_decode_tiles(function_id, base, b, next);
        let rest = decode_from(function_id, base, b, next)->Ok_0;
        let is = seq![instruction] + rest;
        assert(decode_from(function_id, base, b, cursor)->Ok_0 == is);
        assert forall|k: int| 0 <= k < is.len() - 1 implies #[trigger] is[k + 1].offset == is[k].offset
            + is[k].width by {
            assert(is[k + 1] == rest[k]);
            if k > 0 {
                assert(is[k] == rest[k - 1]);
                assert(rest[(k - 1) + 1].offset == rest[k - 1].offset + rest[k - 1].width);
            } else {
                assert(rest[0].offset == base + next);
                assert(instruction.offset == base + cursor);
            }
        }
        if rest.len() > 0 {
            assert(is.last() == rest.last());
        }
    }
}

/// A stream yields exactly what decoding gives: when the body decodes from
/// `cursor`, one `Ok` item per decoded instruction, in order; when it does
/// not, `Ok` items for the instructions before the one that fails, then the
/// decoding error as the last item.
pub proof fn lemma_stream_items_decode(function_id: u32, base: u32, b: Seq<u8>, cursor: int)
    requires
        0 <= cursor <= b.len(),
    ensures
        match decode_from(function_id, base, b, cursor) {
            Ok(is) => stream_items(function_id, base, b, cursor) == is.map_values(
                |instruction: HermesInstruction| Ok::<HermesInstruction, ParseError>(instruction),
            ),
            Err(e) => {
                let items = stream_items(function_id, base, b, cursor);
                &&& items.len() > 0
                &&& items.last() == Err::<HermesInstruction, ParseError>(e)
                &&& forall|k: int| 0 <= k < items.len() - 1 ==> #[trigger] items[k] is Ok
            },
        },
    decreases b.len() - cursor,
{
    let items = stream_items(function_id, base, b, cursor);
    if cursor == b.len() {
        assert(items =~= seq![]);
        assert(decode_from(function_id, base, b, cursor)->Ok_0.map_values(
            |instruction: HermesInstruction| Ok::<HermesInstruction, ParseError>(instruction),
        ) =~= seq![]);
    } else {
        if let Some(Ok(instruction)) = decode_step(function_id, base, b, cursor) {
            lemma_opcode_width_bounds(b[cursor] as int);
            let next = cursor + instruction.width;
            lemma_stream_items_decode(function_id, base, b, next);
            let rest_items = stream_items(function_id, base, b, next);
            assert(items == seq![Ok::<HermesInstruction, ParseError>(instruction)] + rest_items);
            match decode_from(function_id, base, b, next) {
                Ok(rest) => {
                    assert(items =~= (seq![instruction] + rest).map_values(
                        |instruction: HermesInstruction| Ok::<HermesInstruction, ParseError>(instruction),
                    ));
                },
                Err(e) => {
                    assert(items.last() == rest_items.last());
                    assert forall|k: int| 0 <= k < items.len() - 1 implies #[trigger] items[k] is Ok by {
                        if k > 0 {
                            assert(items[k] == rest_items[k - 1]);
                        }
                    }
                },
            }
        }
    }
}

/// The instruction offsets of a decoded body increase strictly.
pub proof fn lemma_decode_offsets_sorted(function_id: u32, body: (u32, Seq<u8>))
    requires
        body.0 + body.1.len() <= u32::MAX,
        decode_body(function_id, body) is Ok,
    ensures
        strictly_increasing(instruction_offsets(decode_body(function_id, body)->Ok_0)),
{
    lemma_decode_shape(function_id, body.0, body.1, 0);
}

/// A body that ends at its first byte decodes to no instructions; decoding
/// from a later cursor relates to decoding from the step's successor.
pub proof fn lemma_decode_unfold(function_id: u32, base: u32, b: Seq<u8>, cursor: int)
    ensures
        decode_step(function_id, base, b, cursor) is None ==> decode_from(function_id, base, b, cursor)
            == Ok::<Seq<HermesInstruction>, ParseError>(seq![]),
        decode_step(function_id, base, b, cursor) matches Some(Err(e)) ==> decode_from(
            function_id,
            base,
            b,
            cursor,
        ) == Err::<Seq<HermesInstruction>, ParseError>(e),
        decode_step(function_id, base, b, cursor) matches Some(Ok(instruction)) ==> decode_from(
            function_id,
            base,
            b,
            cursor,
        ) == (match decode_from(function_id, base, b, cursor + instruction.width) {
            Ok(rest) => Ok(seq![instruction] + rest),
            Err(e) => Err(e),
        }),
{
}

/// Iterator-like cursor over a Hermes function bytecode body.
#[derive(Debug, Clone, Copy, PartialEq, Eq)]
pub struct HermesInstructionStream<'a> {
    function_id: u32,
    body: SectionView<'a>,
    cursor: usize,
    finished: bool,
}

impl<'a> HermesInstructionStream<'a> {
    /// The body lies in the 32-bit file offset space and the cursor in the body.
    #[verifier::type_invariant]
    spec fn inv(self) -> bool {
        &&& self.body@.0 + self.body@.1.len() <= u32::MAX
        &&& self.cursor <= self.body@.1.len()
    }

    /// The function whose body is decoded.
    pub closed spec fn spec_function_id(self) -> u32 {
        self.function_id
    }

    /// The body being decoded, as `(offset, bytes)`.
    pub closed spec fn spec_body(self) -> (u32, Seq<u8>) {
        self.body@
    }

    /// Position of the next instruction relative to the body start.
    pub closed spec fn spec_cursor(self) -> int {
        self.cursor as int
    }

    /// Whether the stream stopped after reporting an error.
    pub closed spec fn spec_finished(self) -> bool {
        self.finished
    }

    /// The items that the stream has yet to yield.
    pub open spec fn spec_remaining(self) -> Seq<Result<HermesInstruction, ParseError>> {
        if self.spec_finished() {
            seq![]
        } else {
            stream_items(self.spec_function_id(), self.spec_body().0, self.spec_body().1, self.spec_cursor())
        }
    }

    /// Starts decoding `body` from its first byte.
    pub fn new(function_id: u32, body: SectionView<'a>) -> (stream: Self)
        requires
            body@.0 + body@.1.len() <= u32::MAX,
        ensures
            stream.spec_function_id() == function_id,
            stream.spec_body() == body@,
            stream.spec_cursor() == 0,
            !stream.spec_finished(),
    {
        HermesInstructionStream { function_id, body, cursor: 0, finished: false }
    }

    /// Decodes the next instruction. After the end of the body, or after an
    /// error has been returned once, there is nothing more.
    pub fn next(&mut self) -> (item: Option<Result<HermesInstruction, ParseError>>)
        ensures
            item == (if old(self).spec_finished() {
                None
            } else {
                decode_step(
                    old(self).spec_function_id(),
                    old(self).spec_body().0,
                    old(self).spec_body().1,
                    old(self).spec_cursor(),
                )
            }),
            final(self).spec_function_id() == old(self).spec_function_id(),
            final(self).spec_body() == old(self).spec_body(),
            final(self).spec_finished() == (old(self).spec_finished() || item matches Some(Err(_))),
            final(self).spec_cursor() == (match item {
                Some(Ok(instruction)) => old(self).spec_cursor() + instruction.width,
                _ => old(self).spec_cursor(),
            }),
            old(self).spec_remaining() == (match item {
                None => seq![],
                Some(yielded) => seq![yielded] + final(self).spec_remaining(),
            }),
    {
        proof {
            use_type_invariant(&*self);
        }
        let bytes = self.body.bytes();
        let len = bytes.len();
        if self.finished || self.cursor >= len {
            return None;
        }
        let offset = self.body.offset() + self.cursor as u32;
        let opcode = bytes[self.cursor];
        let width = match hermes_opcode_width(opcode) {
            Some(width) => width,
            None => {
                self.finished = true;
                return Some(Err(ParseError::InvalidOpcode { function_id: self.function_id, offset, opcode }));
            },
        };
        if width as usize > len - self.cursor {
            self.finished = true;
            return Some(
                Err(
                    ParseError::InstructionOutOfBounds {
                        function_id: self.function_id,
                        offset,
                        opcode,
                        width,
                        body_end: self.body.offset() + len as u32,
                    },
                ),
            );
        }
        self.cursor = self.cursor + width as usize;
        Some(Ok(HermesInstruction { offset, opcode, width }))
    }
}

/// Decodes every instruction of a function body.
pub fn decode_instructions(function_id: u32, body: SectionView<'_>) -> (result: Result<
    (Vec<HermesInstruction>, Vec<u32>),
    ParseError,
>)
    requires
        body@.0 + body@.1.len() <= u32::MAX,
    ensures
        match decode_body(function_id, body@) {
            Ok(is) => result matches Ok((instructions, offsets)) && instructions@ == is
                && offsets@ == instruction_offsets(is),
            Err(e) => result == Err::<(Vec<HermesInstruction>, Vec<u32>), ParseError>(e),
        },
{
    let mut stream = HermesInstructionStream::new(function_id, body);
    let mut instructions: Vec<HermesInstruction> = Vec::new();
    let mut offsets: Vec<u32> = Vec::new();
    let ghost base = body@.0;
    let ghost b = body@.1;
    loop
        invariant
            stream.spec_function_id() == function_id,
            stream.spec_body() == body@,
            !stream.spec_finished(),
            0 <= stream.spec_cursor() <= b.len(),
            base == body@.0,
            b == body@.1,
            offsets@ == instruction_offsets(instructions@),
            decode_body(function_id, body@) == (match decode_from(function_id, base, b, stream.spec_cursor()) {
                Ok(rest) => Ok(instructions@ + rest),
                Err(e) => Err(e),
            }),
        decreases b.len() - stream.spec_cursor(),
    {
        let ghost cursor = stream.spec_cursor();
        proof {
            lemma_decode_unfold(function_id, base, b, cursor);
        }
        match stream.next() {
            None => {
                assert(instructions@ + seq![] =~= instructions@);
                return Ok((instructions, offsets));
            },
            Some(Err(e)) => {
                return Err(e);
            },
            Some(Ok(instruction)) => {
                let ghost before = instructions@;
                instructions.push(instruction);
                offsets.push(instruction.offset);
                proof {
                    assert(instruction_offsets(instructions@) =~= instruction_offsets(before).push(instruction.offset));
                    match decode_from(function_id, base, b, stream.spec_cursor()) {
                        Ok(rest) => {
                            assert(before + (seq![instruction] + rest) =~= instructions@ + rest);
                        },
                        Err(_) => {},
                    }
                }
            },
        }
    }
}

/// Returns the file offsets of every instruction of a function body.
pub fn instruction_boundaries(function_id: u32, body: SectionView<'_>) -> (result: Result<Vec<u32>, ParseError>)
    requires
        body@.0 + body@.1.len() <= u32::MAX,
    ensures
        match decode_body(function_id, body@) {
            Ok(is) => result matches Ok(offsets) && offsets@ == instruction_offsets(is),
            Err(e) => result == Err::<Vec<u32>, ParseError>(e),
        },
{
    match decode_instructions(function_id, body) {
        Ok((_, offsets)) => Ok(offsets),
        Err(e) => Err(e),
    }
}

/// Counts the instructions of a function body.
pub fn count_function_instructions(function_id: u32, body: SectionView<'_>) -> (result: Result<u32, ParseError>)
    requires
        body@.0 + body@.1.len() <= u32::MAX,
    ensures
        match decode_body(function_id, body@) {
            Ok(is) => result == Ok::<u32, ParseError>(is.len() as u32) && is.len() <= u32::MAX,
            Err(e) => result == Err::<u32, ParseError>(e),
        },
{
    proof {
        lemma_decode_shape(function_id, body@.0, body@.1, 0);
    }
    match decode_instructions(function_id, body) {
        Ok((instructions, _)) => Ok(instructions.len() as u32),
        Err(e) => Err(e),
    }
}

/// Whether `target` occurs in a strictly increasing sequence, by binary search.
pub fn contains_sorted(offsets: &Vec<u32>, target: u32) -> (found: bool)
    requires
        strictly_increasing(offsets@),
    ensures
        found == offsets@.contains(target),
{
    let mut low: usize = 0;
    let mut high: usize = offsets.len();
    while low < high
        invariant
            low <= high <= offsets@.len(),
            strictly_increasing(offsets@),
            forall|j: int| 0 <= j < low ==> offsets@[j] < target,
            forall|j: int| high <= j < offsets@.len() ==> offsets@[j] > target,
        decreases high - low,
    {
        let middle = low + (high - low) / 2;
        let value = offsets[middle];
        if value == target {
            return true;
        } else if value < target {
            low = middle + 1;
        } else {
            high = middle;
        }
    }
    proof {
        if offsets@.contains(target) {
            let j = choose|j: int| 0 <= j < offsets@.len() && offsets@[j] == target;
        }
    }
    false
}

/// Whether `target` is the offset of an instruction of the body
/// `(base, b)` whose instruction offsets are `offsets`.
pub open spec fn is_boundary(body: (u32, Seq<u8>), offsets: Seq<u32>, target: int) -> bool {
    &&& body.0 <= target < body.0 + body.1.len()
    &&& offsets.contains(target as u32)
}

/// Returns whether the absolute file offset `target` is an instruction boundary of `body`.
pub fn is_instruction_boundary(body: SectionView<'_>, target: i64, boundaries: &Vec<u32>) -> (found: bool)
    requires
        body@.0 + body@.1.len() <= u32::MAX,
        strictly_increasing(boundaries@),
    ensures
        found == is_boundary(body@, boundaries@, target as int),
{
    let start = body.offset() as i64;
    let end = start + body.bytes().len() as i64;
    if target < start || target >= end {
        return false;
    }
    contains_sorted(boundaries, target as u32)
}

} // verus!
