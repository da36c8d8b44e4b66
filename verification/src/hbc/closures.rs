//! Finding the instructions that create closures of a given function.

use vstd::prelude::*;

use crate::hbc::bytecode::{
    bytecode_function_body, bytecode_function_instructions, bytecode_result, file_of, lemma_parsed_function,
    lemma_parsed_shape, HermesBytecode,
};
use crate::hbc::function_header::{function_body_result, function_header_result};
use crate::hbc::bytes::{le_u16, le_u32};
use crate::hbc::error::ParseError;
use crate::hbc::header::HermesBytecodeHeader;
use crate::hbc::instructions::{decode_body, decode_instructions, lemma_decode_shape, HermesInstruction};
use crate::hbc::laws::{lemma_function_lookup, lemma_parsed};
use crate::hbc::operands::{operand_at, read_unsigned_operand, unsigned_operand};

verus! {

/// `CreateClosure`: a closure of a function whose id is a 16-bit operand.
pub const CREATE_CLOSURE_OPCODE: u8 = 132;

/// `CreateClosureLongIndex`: a closure of a function whose id is a 32-bit operand.
pub const CREATE_CLOSURE_LONG_INDEX_OPCODE: u8 = 133;

/// An instruction that creates a closure: where it stands, and the
/// destination and environment registers it names.
#[derive(Debug, Clone, Copy, PartialEq, Eq)]
pub struct ClosureSite {
    pub function_id: u32,
    pub offset: u32,
    pub opcode: u8,
    pub destination: u32,
    pub environment: u32,
}

/// The function that `instruction` of `body` creates a closure of, if it creates one.
pub open spec fn created_function(body: (u32, Seq<u8>), instruction: HermesInstruction) -> Option<u32> {
    let at = operand_at(body, instruction, 3);
    if instruction.opcode == CREATE_CLOSURE_OPCODE {
        Some(unsigned_operand(body.1, at, 2))
    } else if instruction.opcode == CREATE_CLOSURE_LONG_INDEX_OPCODE {
        Some(unsigned_operand(body.1, at, 4))
    } else {
        None
    }
}

/// The site of the closure-creating `instruction` of function `function_id`.
pub open spec fn closure_site(function_id: u32, body: (u32, Seq<u8>), instruction: HermesInstruction) -> ClosureSite {
    ClosureSite {
        function_id,
        offset: instruction.offset,
        opcode: instruction.opcode,
        destination: unsigned_operand(body.1, operand_at(body, instruction, 1), 1),
        environment: unsigned_operand(body.1, operand_at(body, instruction, 2), 1),
    }
}

/// The sites, among the first `n` of `instructions` of function
/// `function_id`, that create closures of `target`, in order.
pub open spec fn sites_in_function(
    function_id: u32,
    body: (u32, Seq<u8>),
    instructions: Seq<HermesInstruction>,
    target: u32,
    n: int,
) -> Seq<ClosureSite>
    decreases n,
{
    if n <= 0 {
        seq![]
    } else {
        let rest = sites_in_function(function_id, body, instructions, target, n - 1);
        if created_function(body, instructions[n - 1]) == Some(target) {
            rest.push(closure_site(function_id, body, instructions[n - 1]))
        } else {
            rest
        }
    }
}

/// The sites of functions `0..n` of the parsed bytecode `b` that create
/// closures of `target`, function by function and in instruction order.
pub open spec fn closure_sites(
    b: (Seq<u8>, crate::hbc::header::HermesBytecodeHeader, (Seq<(u32, Seq<u8>)>, u32)),
    target: u32,
    n: int,
) -> Seq<ClosureSite>
    decreases n,
{
    if n <= 0 {
        seq![]
    } else {
        let rest = closure_sites(b, target, n - 1);
        let function_id = (n - 1) as u32;
        match bytecode_function_body(b, function_id) {
            Ok(body) => match bytecode_function_instructions(b, function_id) {
                Ok(instructions) => rest + sites_in_function(
                    function_id,
                    body,
                    instructions,
                    target,
                    instructions.len() as int,
                ),
                Err(_) => rest,
            },
            Err(_) => rest,
        }
    }
}

/// Returns every instruction of the bytecode that creates a closure of
/// function `target_function_id`, function by function and in instruction order.
pub fn find_closure_sites(bytecode: HermesBytecode<'_>, target_function_id: u32) -> (sites: Vec<ClosureSite>)
    ensures
        sites@ == closure_sites(bytecode@, target_function_id, bytecode@.1.function_count as int),
{
    proof {
        use_type_invariant(&bytecode);
        bytecode.lemma_parsed_value();
    }
    let ghost b = bytecode@;
    let function_count = bytecode.header().function_count;
    let mut sites: Vec<ClosureSite> = Vec::new();
    let mut function_id: u32 = 0;
    while function_id < function_count
        invariant
            b == bytecode@,
            function_count == b.1.function_count,
            function_id <= function_count,
            crate::hbc::bytecode::bytecode_result(b.0) == Ok::<
                (crate::hbc::header::HermesBytecodeHeader, (Seq<(u32, Seq<u8>)>, u32)),
                crate::hbc::error::ParseError,
            >((b.1, b.2)),
            sites@ == closure_sites(b, target_function_id, function_id as int),
        decreases function_count - function_id,
    {
        proof {
            lemma_function_lookup(b.0, b.1, b.2, function_id);
        }
        let body = match bytecode.function_body(function_id) {
            Ok(body) => body,
            Err(_) => {
                proof {
                    assert(false);
                }
                return sites;
            },
        };
        let ghost before = sites@;
        let (instructions, _) = match decode_instructions(function_id, body) {
            Ok(decoded) => decoded,
            Err(_) => {
                proof {
                    assert(false);
                }
                return sites;
            },
        };
        proof {
            lemma_decode_shape(function_id, body@.0, body@.1, 0);
        }
        let bytes = body.bytes();
        let base = body.offset();
        let mut k: usize = 0;
        while k < instructions.len()
            invariant
                k <= instructions@.len(),
                bytes@ == body@.1,
                base == body@.0,
                body@.0 + body@.1.len() <= u32::MAX,
                forall|j: int|
                    0 <= j < instructions@.len() ==> body@.0 <= (#[trigger] instructions@[j]).offset
                        && instructions@[j].offset + instructions@[j].width <= body@.0 + body@.1.len()
                        && instructions@[j].opcode < 220 && instructions@[j].width
                        == crate::hbc::instructions::HERMES_OPCODE_WIDTHS[instructions@[j].opcode as int],
                sites@ == before + sites_in_function(function_id, body@, instructions@, target_function_id, k as int),
            decreases instructions@.len() - k,
        {
            let instruction = instructions[k];
            let start = (instruction.offset - base) as usize;
            let created = if instruction.opcode == CREATE_CLOSURE_OPCODE {
                Some(read_unsigned_operand(bytes, start + 3, 2))
            } else if instruction.opcode == CREATE_CLOSURE_LONG_INDEX_OPCODE {
                Some(read_unsigned_operand(bytes, start + 3, 4))
            } else {
                None
            };
            if created == Some(target_function_id) {
                let site = ClosureSite {
                    function_id,
                    offset: instruction.offset,
                    opcode: instruction.opcode,
                    destination: read_unsigned_operand(bytes, start + 1, 1),
                    environment: read_unsigned_operand(bytes, start + 2, 1),
                };
                sites.push(site);
            }
            assert(sites@ =~= before + sites_in_function(
                function_id,
                body@,
                instructions@,
                target_function_id,
                k + 1,
            ));
            k = k + 1;
        }
        function_id = function_id + 1;
    }
    sites
}

/// The instruction at offset `o` of the buffer `s` creates a closure of
/// function `target`: `CreateClosure` with the 16-bit function id at `o + 3`,
/// or `CreateClosureLongIndex` with the 32-bit one there.
pub open spec fn creates_closure_at(s: Seq<u8>, o: int, target: u32) -> bool {
    ||| s[o] == CREATE_CLOSURE_OPCODE && le_u16(s, o + 3) as u32 == target
    ||| s[o] == CREATE_CLOSURE_LONG_INDEX_OPCODE && le_u32(s, o + 3) == target
}

/// The closure site that the instruction at offset `o` of function
/// `function_id` stands for: its opcode, then its destination and
/// environment register bytes, as the buffer `s` holds them.
pub open spec fn input_closure_site(s: Seq<u8>, function_id: u32, o: int) -> ClosureSite {
    ClosureSite {
        function_id,
        offset: o as u32,
        opcode: s[o],
        destination: s[o + 1] as u32,
        environment: s[o + 2] as u32,
    }
}

/// `site` stands for instruction `k` of declared function `function_id` of
/// the parsed bytecode `b`, and that instruction creates a closure of `target`.
pub open spec fn is_closure_instruction(
    b: (Seq<u8>, HermesBytecodeHeader, (Seq<(u32, Seq<u8>)>, u32)),
    target: u32,
    function_id: u32,
    k: int,
    site: ClosureSite,
) -> bool {
    &&& function_id < b.1.function_count
    &&& bytecode_function_instructions(b, function_id) matches Ok(is) && 0 <= k < is.len() && {
        let o = is[k].offset as int;
        &&& creates_closure_at(b.0, o, target)
        &&& site == input_closure_site(b.0, function_id, o)
    }
}

/// The body of a declared function of a parsed bytecode is the slice of the
/// input at its offset, and it decodes.
proof fn lemma_body_is_input_slice(
    s: Seq<u8>,
    h: HermesBytecodeHeader,
    m: (Seq<(u32, Seq<u8>)>, u32),
    function_id: u32,
)
    requires
        bytecode_result(s) == Ok::<(HermesBytecodeHeader, (Seq<(u32, Seq<u8>)>, u32)), ParseError>((h, m)),
        function_id < h.function_count,
    ensures
        bytecode_function_body((s, h, m), function_id) matches Ok(body) && {
            &&& body.0 + body.1.len() <= s.len()
            &&& body.0 + body.1.len() <= u32::MAX
            &&& body.1 == s.subrange(body.0 as int, body.0 + body.1.len())
            &&& bytecode_function_instructions((s, h, m), function_id) == decode_body(function_id, body)
            &&& decode_body(function_id, body) is Ok
        },
{
    lemma_parsed(s, h, m);
    lemma_parsed_shape(s, h, m);
    lemma_parsed_function(s, h, m, function_id);
    let f = file_of(s, h);
    let fh = function_header_result(f, h, m.0[0].1, function_id)->Ok_0;
    let body = function_body_result(f, function_id, fh)->Ok_0;
    assert(bytecode_function_body((s, h, m), function_id) == Ok::<(u32, Seq<u8>), ParseError>(body));
    assert(body.1 =~= s.subrange(body.0 as int, body.0 + body.1.len()));
}

/// What one decoded instruction of a body that is a slice of `s` creates,
/// and the site it gives, read straight from `s`.
proof fn lemma_instruction_reads_input(
    s: Seq<u8>,
    function_id: u32,
    body: (u32, Seq<u8>),
    k: int,
    target: u32,
)
    requires
        body.0 + body.1.len() <= s.len(),
        body.0 + body.1.len() <= u32::MAX,
        body.1 == s.subrange(body.0 as int, body.0 + body.1.len()),
        decode_body(function_id, body) matches Ok(is) && 0 <= k < is.len(),
    ensures
        ({
            let is = decode_body(function_id, body)->Ok_0;
            let o = is[k].offset as int;
            &&& (created_function(body, is[k]) == Some(target)) == creates_closure_at(s, o, target)
            &&& created_function(body, is[k]) is Some ==> closure_site(function_id, body, is[k])
                == input_closure_site(s, function_id, o)
        }),
{
    let is = decode_body(function_id, body)->Ok_0;
    lemma_decode_shape(function_id, body.0, body.1, 0);
    let i = is[k];
    let o = i.offset as int;
    let r = o - body.0;
    assert(body.1[r] == i.opcode);
    assert(s[o] == body.1[r]);
    if i.opcode == CREATE_CLOSURE_OPCODE || i.opcode == CREATE_CLOSURE_LONG_INDEX_OPCODE {
        assert(r + 5 <= body.1.len());
        assert(s[o + 1] == body.1[r + 1]);
        assert(s[o + 2] == body.1[r + 2]);
        assert(s[o + 3] == body.1[r + 3]);
        assert(s[o + 4] == body.1[r + 4]);
        if i.opcode == CREATE_CLOSURE_LONG_INDEX_OPCODE {
            assert(r + 7 <= body.1.len());
            assert(s[o + 5] == body.1[r + 5]);
            assert(s[o + 6] == body.1[r + 6]);
        }
    }
}

/// Every closure-creating instruction among the first `n` of a function is
/// one of its sites.
proof fn lemma_function_sites_complete(
    function_id: u32,
    body: (u32, Seq<u8>),
    instructions: Seq<HermesInstruction>,
    target: u32,
    n: int,
    k: int,
)
    requires
        0 <= k < n <= instructions.len(),
        created_function(body, instructions[k]) == Some(target),
    ensures
        sites_in_function(function_id, body, instructions, target, n).contains(
            closure_site(function_id, body, instructions[k]),
        ),
    decreases n,
{
    let sites = sites_in_function(function_id, body, instructions, target, n);
    if k == n - 1 {
        assert(sites.last() == closure_site(function_id, body, instructions[k]));
        assert(sites[sites.len() - 1] == closure_site(function_id, body, instructions[k]));
    } else {
        lemma_function_sites_complete(function_id, body, instructions, target, n - 1, k);
        let rest = sites_in_function(function_id, body, instructions, target, n - 1);
        let j = choose|j: int| 0 <= j < rest.len() && rest[j] == closure_site(function_id, body, instructions[k]);
        assert(sites[j] == rest[j]);
    }
}

/// Each site of the first `n` instructions of a function comes from one of
/// them that creates a closure of `target`; the index of that instruction.
proof fn lemma_function_site_origin(
    function_id: u32,
    body: (u32, Seq<u8>),
    instructions: Seq<HermesInstruction>,
    target: u32,
    n: int,
    j: int,
) -> (k: int)
    requires
        n <= instructions.len(),
        0 <= j < sites_in_function(function_id, body, instructions, target, n).len(),
    ensures
        0 <= k < n,
        created_function(body, instructions[k]) == Some(target),
        sites_in_function(function_id, body, instructions, target, n)[j] == closure_site(
            function_id,
            body,
            instructions[k],
        ),
    decreases n,
{
    let rest = sites_in_function(function_id, body, instructions, target, n - 1);
    if j < rest.len() {
        lemma_function_site_origin(function_id, body, instructions, target, n - 1, j)
    } else {
        n - 1
    }
}

/// Every closure-creating instruction of functions `0..n` is a site.
proof fn lemma_closure_sites_complete(
    b: (Seq<u8>, HermesBytecodeHeader, (Seq<(u32, Seq<u8>)>, u32)),
    target: u32,
    n: int,
    function_id: u32,
    k: int,
)
    requires
        function_id < n <= u32::MAX + 1,
        bytecode_function_body(b, function_id) matches Ok(body) && bytecode_function_instructions(b, function_id)
            matches Ok(is) && 0 <= k < is.len() && created_function(body, is[k]) == Some(target),
    ensures
        closure_sites(b, target, n).contains(
            closure_site(
                function_id,
                bytecode_function_body(b, function_id)->Ok_0,
                bytecode_function_instructions(b, function_id)->Ok_0[k],
            ),
        ),
    decreases n,
{
    let body = bytecode_function_body(b, function_id)->Ok_0;
    let is = bytecode_function_instructions(b, function_id)->Ok_0;
    let site = closure_site(function_id, body, is[k]);
    let rest = closure_sites(b, target, n - 1);
    let all = closure_sites(b, target, n);
    if function_id == n - 1 {
        lemma_function_sites_complete(function_id, body, is, target, is.len() as int, k);
        let here = sites_in_function(function_id, body, is, target, is.len() as int);
        assert(all == rest + here);
        let j = choose|j: int| 0 <= j < here.len() && here[j] == site;
        assert(all[rest.len() + j] == site);
    } else {
        lemma_closure_sites_complete(b, target, n - 1, function_id, k);
        let j = choose|j: int| 0 <= j < rest.len() && rest[j] == site;
        assert(all[j] == rest[j]);
    }
}

/// Each site of functions `0..n` comes from a closure-creating instruction of
/// one of them; that function and the instruction's index.
proof fn lemma_closure_site_origin(
    b: (Seq<u8>, HermesBytecodeHeader, (Seq<(u32, Seq<u8>)>, u32)),
    target: u32,
    n: int,
    j: int,
) -> (origin: (u32, int))
    requires
        n <= u32::MAX + 1,
        0 <= j < closure_sites(b, target, n).len(),
    ensures
        origin.0 < n,
        bytecode_function_body(b, origin.0) matches Ok(body) && bytecode_function_instructions(b, origin.0)
            matches Ok(is) && 0 <= origin.1 < is.len() && created_function(body, is[origin.1]) == Some(target)
            && closure_sites(b, target, n)[j] == closure_site(origin.0, body, is[origin.1]),
    decreases n,
{
    let rest = closure_sites(b, target, n - 1);
    if j < rest.len() {
        lemma_closure_site_origin(b, target, n - 1, j)
    } else {
        let function_id = (n - 1) as u32;
        let body = bytecode_function_body(b, function_id)->Ok_0;
        let is = bytecode_function_instructions(b, function_id)->Ok_0;
        let k = lemma_function_site_origin(function_id, body, is, target, is.len() as int, j - rest.len());
        (function_id, k)
    }
}

/// The closure sites found for `target` are exactly the instructions, in any
/// declared function of a parsed bytecode, that create a closure of
/// `target`: each such instruction gives a site holding its function, its
/// offset and opcode, and its destination and environment registers as the
/// input stores them, and every site found is one of those.
pub proof fn lemma_closure_sites_are_closure_instructions(
    s: Seq<u8>,
    h: HermesBytecodeHeader,
    m: (Seq<(u32, Seq<u8>)>, u32),
    target: u32,
)
    requires
        bytecode_result(s) == Ok::<(HermesBytecodeHeader, (Seq<(u32, Seq<u8>)>, u32)), ParseError>((h, m)),
    ensures
        forall|site: ClosureSite|
            #![trigger closure_sites((s, h, m), target, h.function_count as int).contains(site)]
            closure_sites((s, h, m), target, h.function_count as int).contains(site) <==> exists|
                function_id: u32,
                k: int,
            | #[trigger] is_closure_instruction((s, h, m), target, function_id, k, site),
{
    let b = (s, h, m);
    let n = h.function_count as int;
    let all = closure_sites(b, target, n);
    assert forall|site: ClosureSite| all.contains(site) implies exists|function_id: u32, k: int|
        #[trigger] is_closure_instruction(b, target, function_id, k, site) by {
        let j = choose|j: int| 0 <= j < all.len() && all[j] == site;
        let (function_id, k) = lemma_closure_site_origin(b, target, n, j);
        lemma_body_is_input_slice(s, h, m, function_id);
        lemma_instruction_reads_input(s, function_id, bytecode_function_body(b, function_id)->Ok_0, k, target);
        assert(is_closure_instruction(b, target, function_id, k, site));
    }
    assert forall|site: ClosureSite| (exists|function_id: u32, k: int|
        #[trigger] is_closure_instruction(b, target, function_id, k, site)) implies all.contains(site) by {
        let (function_id, k) = choose|function_id: u32, k: int| #[trigger] is_closure_instruction(
            b,
            target,
            function_id,
            k,
            site,
        );
        lemma_body_is_input_slice(s, h, m, function_id);
        lemma_instruction_reads_input(s, function_id, bytecode_function_body(b, function_id)->Ok_0, k, target);
        lemma_closure_sites_complete(b, target, n, function_id, k);
    }
}

} // verus!
