//! A validated, zero-copy view over a whole Hermes bytecode buffer.

use vstd::prelude::*;

use crate::hbc::bytes::le_u32;
use crate::hbc::checks::lemma_first_failure_ok;
use crate::hbc::debug::debug_info_result;
use crate::hbc::error::ParseError;
use crate::hbc::function_header::{
    decoded_header_result, function_body, function_body_result, function_header_at, function_header_result,
    HermesFunctionHeader,
};
use crate::hbc::functions::{
    below_large_headers, decode_check, decoded_headers_result, function_check, function_result,
    lemma_below_large_headers_at_most, region_fallback,
};
use crate::hbc::header::{
    header_error, header_fields, header_of, lemma_header_fields_unique, lemma_header_of, HermesBytecodeHeader,
};
use crate::hbc::instructions::{count_function_instructions, decode_body, HermesInstruction, HermesInstructionStream};
use crate::hbc::layout::{function_bodies_offset, layout_result, section_bytes, SectionView};
use crate::hbc::sections::{
    file_sections, lemma_section_lengths, section_checks_result, sections_result, HermesBytecodeSections,
};

verus! {

/// The bytes of the buffer `s` that the file whose header is `h` covers:
/// those before its `file_length`.
pub open spec fn file_of(s: Seq<u8>, h: HermesBytecodeHeader) -> Seq<u8> {
    s.subrange(0, h.file_length as int)
}

/// Parsing the buffer `s` as Hermes bytecode: its header, then the sections
/// of the file that the header covers. Its result is the header and the
/// sections' model.
pub open spec fn bytecode_result(s: Seq<u8>) -> Result<
    (HermesBytecodeHeader, (Seq<(u32, Seq<u8>)>, u32)),
    ParseError,
> {
    match header_error(s) {
        Some(e) => Err(e),
        None => {
            let h = header_of(s);
            match sections_result(file_of(s, h), h) {
                Err(e) => Err(e),
                Ok(sections) => Ok((h, sections)),
            }
        },
    }
}

/// The buffer `s` parses to the header `h` and the sections `m`.
pub open spec fn parses_to(s: Seq<u8>, h: HermesBytecodeHeader, m: (Seq<(u32, Seq<u8>)>, u32)) -> bool {
    &&& header_error(s) is None
    &&& header_fields(h, s)
    &&& sections_result(file_of(s, h), h) == Ok::<(Seq<(u32, Seq<u8>)>, u32), ParseError>(m)
}

/// A validated, zero-copy view over a Hermes bytecode buffer.
#[derive(Debug, Clone, Copy, PartialEq, Eq)]
pub struct HermesBytecode<'a> {
    bytes: &'a [u8],
    header: HermesBytecodeHeader,
    sections: HermesBytecodeSections<'a>,
}

impl<'a> View for HermesBytecode<'a> {
    type V = (Seq<u8>, HermesBytecodeHeader, (Seq<(u32, Seq<u8>)>, u32));

    /// The whole buffer, its header and its sections.
    closed spec fn view(&self) -> (Seq<u8>, HermesBytecodeHeader, (Seq<(u32, Seq<u8>)>, u32)) {
        (self.bytes@, self.header, self.sections@)
    }
}

/// The header of function `function_id` of the parsed bytecode `b`.
pub open spec fn bytecode_function_header(
    b: (Seq<u8>, HermesBytecodeHeader, (Seq<(u32, Seq<u8>)>, u32)),
    function_id: u32,
) -> Result<HermesFunctionHeader, ParseError> {
    function_header_result(file_of(b.0, b.1), b.1, b.2.0[0].1, function_id)
}

/// The body of function `function_id` of the parsed bytecode `b`.
pub open spec fn bytecode_function_body(
    b: (Seq<u8>, HermesBytecodeHeader, (Seq<(u32, Seq<u8>)>, u32)),
    function_id: u32,
) -> Result<(u32, Seq<u8>), ParseError> {
    match bytecode_function_header(b, function_id) {
        Err(e) => Err(e),
        Ok(header) => function_body_result(file_of(b.0, b.1), function_id, header),
    }
}

/// The instructions of function `function_id` of the parsed bytecode `b`.
pub open spec fn bytecode_function_instructions(
    b: (Seq<u8>, HermesBytecodeHeader, (Seq<(u32, Seq<u8>)>, u32)),
    function_id: u32,
) -> Result<Seq<HermesInstruction>, ParseError> {
    match bytecode_function_body(b, function_id) {
        Err(e) => Err(e),
        Ok(body) => decode_body(function_id, body),
    }
}

/// What a successful parse knows of a buffer `s` with header `h` and sections `m`.
pub proof fn lemma_parsed_shape(s: Seq<u8>, h: HermesBytecodeHeader, m: (Seq<(u32, Seq<u8>)>, u32))
    requires
        parses_to(s, h, m),
    ensures
        h.file_length <= s.len(),
        file_of(s, h).len() == h.file_length,
        layout_result(h) is Ok,
        m == (file_sections(file_of(s, h), h), function_bodies_offset(h) as u32),
        function_bodies_offset(h) <= u32::MAX,
{
    assert(h.file_length == le_u32(s, 32));
}

/// What a successful parse knows of function `function_id < function_count`:
/// its header decodes, and its body lies after the structured sections,
/// inside the buffer, and decodes into instructions.
pub proof fn lemma_parsed_function(s: Seq<u8>, h: HermesBytecodeHeader, m: (Seq<(u32, Seq<u8>)>, u32), function_id: u32)
    requires
        parses_to(s, h, m),
        function_id < h.function_count,
    ensures
        function_header_result(file_of(s, h), h, m.0[0].1, function_id) matches Ok(fh) && {
            &&& m.1 <= fh.offset
            &&& fh.offset + fh.bytecode_size_in_bytes <= u32::MAX
            &&& fh.offset + fh.bytecode_size_in_bytes + 20 <= h.file_length
            &&& function_body_result(file_of(s, h), function_id, fh) matches Ok(body) && decode_body(
                function_id,
                body,
            ) is Ok
        },
{
    lemma_parsed_shape(s, h, m);
    reveal(section_checks_result);
    let f = file_of(s, h);
    let table = section_bytes(f, h, 0);
    assert(m.0[0].1 == table);
    let debug_info = debug_info_result(f, h)->Ok_0;
    let decoded = decoded_headers_result(f, h, table)->Ok_0;
    lemma_first_failure_ok(h.function_count as int, decode_check(f, h, table));
    assert(decode_check(f, h, table)(function_id as int) is Ok);
    let body_limit = below_large_headers(decoded, decoded.len() as int, region_fallback(h));
    let check = function_check(
        f,
        h,
        m.1,
        section_bytes(f, h, 6),
        section_bytes(f, h, 8),
        debug_info,
        decoded,
        body_limit,
    );
    lemma_first_failure_ok(h.function_count as int, check);
    assert(check(function_id as int) is Ok);
    reveal(function_result);
    assert(decoded[function_id as int] == decoded_header_result(f, h, table, function_id)->Ok_0);
    lemma_below_large_headers_at_most(decoded, decoded.len() as int, region_fallback(h));
    lemma_region_fallback_before_footer(s, h, m);
}

/// Function bodies and info regions end at least a footer before the end of the file.
proof fn lemma_region_fallback_before_footer(s: Seq<u8>, h: HermesBytecodeHeader, m: (Seq<(u32, Seq<u8>)>, u32))
    requires
        parses_to(s, h, m),
    ensures
        region_fallback(h) + 20 <= h.file_length,
{
    reveal(section_checks_result);
    assert(debug_info_result(file_of(s, h), h) is Ok);
    assert(m.1 + 20 <= h.file_length);
}

impl<'a> HermesBytecode<'a> {
    /// The buffer parses to this header and these sections.
    #[verifier::type_invariant]
    pub closed spec fn parsed(self) -> bool {
        parses_to(self.bytes@, self.header, self.sections@)
    }

    /// A bytecode value is what parsing its buffer gives.
    pub proof fn lemma_parsed_value(self)
        requires
            self.parsed(),
        ensures
            bytecode_result(self@.0) == Ok::<(HermesBytecodeHeader, (Seq<(u32, Seq<u8>)>, u32)), ParseError>(
                (self@.1, self@.2),
            ),
    {
        lemma_header_of(self.bytes@);
        lemma_header_fields_unique(header_of(self.bytes@), self.header, self.bytes@);
    }

    /// Parses and validates a bytecode buffer without copying the payload.
    ///
    /// Fails when the header is rejected (buffer too small, no Hermes magic,
    /// file length beyond the buffer) or when any section, table or function
    /// is invalid; the first failing check decides the error. Past the header,
    /// only the bytes before the declared file length are read.
    pub fn parse(bytes: &'a [u8]) -> (result: Result<Self, ParseError>)
        ensures
            match bytecode_result(bytes@) {
                Ok((h, m)) => result matches Ok(bytecode) && bytecode@ == (bytes@, h, m),
                Err(e) => result == Err::<Self, ParseError>(e),
            },
            result matches Ok(bytecode) ==> parses_to(bytes@, bytecode@.1, bytecode@.2),
    {
        let header = match HermesBytecodeHeader::parse(bytes) {
            Ok(header) => header,
            Err(e) => {
                return Err(e);
            },
        };
        proof {
            lemma_header_of(bytes@);
            lemma_header_fields_unique(header_of(bytes@), header, bytes@);
        }
        let file = &bytes[0..header.file_length as usize];
        assert(file@ == file_of(bytes@, header));
        let sections = match HermesBytecodeSections::parse(file, &header) {
            Ok(sections) => sections,
            Err(e) => {
                return Err(e);
            },
        };
        Ok(HermesBytecode { bytes, header, sections })
    }

    /// Returns the bytes that the file covers: those before its `file_length`.
    fn file(self) -> (file: &'a [u8])
        ensures
            file@ == file_of(self@.0, self@.1),
    {
        proof {
            use_type_invariant(&self);
            lemma_parsed_shape(self.bytes@, self.header, self.sections@);
        }
        &self.bytes[0..self.header.file_length as usize]
    }

    /// Returns the original bytecode bytes.
    pub fn bytes(self) -> (bytes: &'a [u8])
        ensures
            bytes@ == self@.0,
    {
        self.bytes
    }

    /// Returns the parsed bytecode header.
    pub fn header(self) -> (header: HermesBytecodeHeader)
        ensures
            header == self@.1,
    {
        self.header
    }

    /// Returns the parsed section views.
    pub fn sections(self) -> (sections: HermesBytecodeSections<'a>)
        ensures
            sections@ == self@.2,
    {
        self.sections
    }

    /// Returns one parsed function header by function id.
    ///
    /// Fails when `function_id` is out of range or an overflow header points
    /// outside the bytecode file.
    pub fn function_header(self, function_id: u32) -> (result: Result<HermesFunctionHeader, ParseError>)
        ensures
            result == bytecode_function_header(self@, function_id),
    {
        proof {
            use_type_invariant(&self);
            lemma_parsed_shape(self.bytes@, self.header, self.sections@);
            lemma_section_lengths(file_of(self.bytes@, self.header), self.header);
        }
        let file = self.file();
        function_header_at(file, &self.header, self.sections.function_headers().bytes(), function_id)
    }

    /// Returns the parsed global function header.
    pub fn global_function_header(self) -> (result: Result<HermesFunctionHeader, ParseError>)
        ensures
            result == bytecode_function_header(self@, self@.1.global_code_index),
    {
        self.function_header(self.header.global_code_index)
    }

    /// Returns the bytecode body for one function.
    pub fn function_body(self, function_id: u32) -> (result: Result<SectionView<'a>, ParseError>)
        ensures
            match bytecode_function_body(self@, function_id) {
                Ok(body) => result matches Ok(view) && view@ == body,
                Err(e) => result == Err::<SectionView<'a>, ParseError>(e),
            },
    {
        let function_header = match self.function_header(function_id) {
            Ok(header) => header,
            Err(e) => {
                return Err(e);
            },
        };
        function_body(self.file(), function_id, function_header)
    }

    /// Returns the global function bytecode body.
    pub fn global_function_body(self) -> (result: Result<SectionView<'a>, ParseError>)
        ensures
            match bytecode_function_body(self@, self@.1.global_code_index) {
                Ok(body) => result matches Ok(view) && view@ == body,
                Err(e) => result == Err::<SectionView<'a>, ParseError>(e),
            },
    {
        self.function_body(self.header.global_code_index)
    }

    /// Returns a stream over one function's Hermes instructions.
    pub fn function_instructions(self, function_id: u32) -> (result: Result<HermesInstructionStream<'a>, ParseError>)
        ensures
            match bytecode_function_body(self@, function_id) {
                Ok(body) => result matches Ok(stream) && stream.spec_function_id() == function_id
                    && stream.spec_body() == body && stream.spec_cursor() == 0 && !stream.spec_finished(),
                Err(e) => result == Err::<HermesInstructionStream<'a>, ParseError>(e),
            },
    {
        proof {
            use_type_invariant(&self);
            if function_id < self.header.function_count {
                lemma_parsed_function(self.bytes@, self.header, self.sections@, function_id);
            }
        }
        let body = match self.function_body(function_id) {
            Ok(body) => body,
            Err(e) => {
                return Err(e);
            },
        };
        Ok(HermesInstructionStream::new(function_id, body))
    }

    /// Counts decoded Hermes instructions in one function.
    pub fn function_instruction_count(self, function_id: u32) -> (result: Result<u32, ParseError>)
        ensures
            match bytecode_function_instructions(self@, function_id) {
                Ok(instructions) => result == Ok::<u32, ParseError>(instructions.len() as u32),
                Err(e) => result == Err::<u32, ParseError>(e),
            },
    {
        proof {
            use_type_invariant(&self);
            if function_id < self.header.function_count {
                lemma_parsed_function(self.bytes@, self.header, self.sections@, function_id);
            }
        }
        let body = match self.function_body(function_id) {
            Ok(body) => body,
            Err(e) => {
                return Err(e);
            },
        };
        count_function_instructions(function_id, body)
    }

    /// Counts decoded Hermes instructions in the global function.
    pub fn global_instruction_count(self) -> (result: Result<u32, ParseError>)
        ensures
            match bytecode_function_instructions(self@, self@.1.global_code_index) {
                Ok(instructions) => result == Ok::<u32, ParseError>(instructions.len() as u32),
                Err(e) => result == Err::<u32, ParseError>(e),
            },
    {
        self.function_instruction_count(self.header.global_code_index)
    }
}

} // verus!
