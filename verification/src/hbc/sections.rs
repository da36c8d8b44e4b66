//! The structured sections of a Hermes bytecode file: their layout, the
//! checks made on them, and zero-copy views over them.

use vstd::prelude::*;

use crate::hbc::checks::then;
use crate::hbc::debug::{debug_info_result, parse_debug_info};
use crate::hbc::error::ParseError;
use crate::hbc::functions::{function_headers_result, validate_function_headers};
use crate::hbc::header::HermesBytecodeHeader;
use crate::hbc::layout::{
    function_bodies_offset, lemma_layout_section, layout_result, section_bytes, section_count, section_entry_size,
    section_offset, take_sections, SectionView,
};
use crate::hbc::literals::{object_shape_table_result, validate_object_shape_table};
use crate::hbc::tables::{
    cjs_module_table_result, function_source_table_result, header_counts_result, storage_table_result,
    string_kind_runs_result, string_table_result, validate_cjs_module_table, validate_function_source_table,
    validate_header_counts, validate_storage_table, validate_string_kind_runs, validate_string_table,
};

verus! {


/// The fifteen structured sections of the buffer `s` laid out by `h`:
/// each one's file offset and bytes.
pub open spec fn file_sections(s: Seq<u8>, h: HermesBytecodeHeader) -> Seq<(u32, Seq<u8>)> {
    Seq::new(15, |i: int| (section_offset(h, i) as u32, section_bytes(s, h, i)))
}

/// The checks made on the sections once they are laid out, in order: string
/// kinds, string table, object shapes, big int and regexp tables, the debug
/// info section, every function, CommonJS modules and function sources.
#[verifier::opaque]
pub open spec fn section_checks_result(s: Seq<u8>, h: HermesBytecodeHeader, bodies_offset: u32) -> Result<
    (),
    ParseError,
> {
    then(
        string_kind_runs_result(section_bytes(s, h, 1), h.string_count),
        then(
            string_table_result(
                section_bytes(s, h, 3),
                section_bytes(s, h, 4),
                h.overflow_string_count,
                h.string_storage_size,
            ),
            then(
                object_shape_table_result(section_bytes(s, h, 8), section_bytes(s, h, 7), h.string_count),
                then(
                    storage_table_result("big_int_table", section_bytes(s, h, 9), h.big_int_storage_size),
                    then(
                        storage_table_result("reg_exp_table", section_bytes(s, h, 11), h.reg_exp_storage_size),
                        match debug_info_result(s, h) {
                            Err(e) => Err(e),
                            Ok(debug_info) => then(
                                function_headers_result(
                                    s,
                                    h,
                                    section_bytes(s, h, 0),
                                    bodies_offset,
                                    section_bytes(s, h, 6),
                                    section_bytes(s, h, 8),
                                    debug_info,
                                ),
                                then(
                                    cjs_module_table_result(section_bytes(s, h, 13), h),
                                    function_source_table_result(section_bytes(s, h, 14), h),
                                ),
                            ),
                        },
                    ),
                ),
            ),
        ),
    )
}

/// Laying out the sections of the buffer `s` whose header is `h`: the
/// sections and the offset where function bodies begin, which must stay in
/// the u32 range.
pub open spec fn layout_sections_result(s: Seq<u8>, h: HermesBytecodeHeader) -> Result<
    (Seq<(u32, Seq<u8>)>, u32),
    ParseError,
> {
    match layout_result(h) {
        Err(e) => Err(e),
        Ok(_) => {
            let cursor = function_bodies_offset(h);
            if cursor > u32::MAX {
                Err(ParseError::OffsetExceedsU32 { section: "function_bodies", offset: cursor as usize })
            } else {
                Ok((file_sections(s, h), cursor as u32))
            }
        },
    }
}

/// Parsing the sections of the buffer `s` whose header is `h`: the header
/// counts agree, the sections fit in the file, every check passes and a
/// footer follows the last section. Its result is the sections and the
/// offset where function bodies begin.
pub open spec fn sections_result(s: Seq<u8>, h: HermesBytecodeHeader) -> Result<
    (Seq<(u32, Seq<u8>)>, u32),
    ParseError,
> {
    match header_counts_result(h) {
        Err(e) => Err(e),
        Ok(_) => match layout_sections_result(s, h) {
            Err(e) => Err(e),
            Ok(laid_out) => match section_checks_result(s, h, laid_out.1) {
                Err(e) => Err(e),
                Ok(_) => if laid_out.1 + 20 > h.file_length {
                    Err(
                        ParseError::MissingFooter {
                            cursor: laid_out.1 as usize,
                            file_length: h.file_length as usize,
                            footer_size: 20,
                        },
                    )
                } else {
                    Ok(laid_out)
                },
            },
        },
    }
}

/// Zero-copy views over structured Hermes bytecode file sections.
#[derive(Debug, Clone, Copy, PartialEq, Eq)]
pub struct HermesBytecodeSections<'a> {
    function_headers: SectionView<'a>,
    string_kinds: SectionView<'a>,
    identifier_hashes: SectionView<'a>,
    small_string_table: SectionView<'a>,
    overflow_string_table: SectionView<'a>,
    string_storage: SectionView<'a>,
    literal_value_buffer: SectionView<'a>,
    obj_key_buffer: SectionView<'a>,
    obj_shape_table: SectionView<'a>,
    big_int_table: SectionView<'a>,
    big_int_storage: SectionView<'a>,
    reg_exp_table: SectionView<'a>,
    reg_exp_storage: SectionView<'a>,
    cjs_module_table: SectionView<'a>,
    function_source_table: SectionView<'a>,
    function_bodies_offset: u32,
}

impl<'a> View for HermesBytecodeSections<'a> {
    type V = (Seq<(u32, Seq<u8>)>, u32);

    /// The fifteen sections in file order, and the offset where function bodies begin.
    closed spec fn view(&self) -> (Seq<(u32, Seq<u8>)>, u32) {
        (
            seq![
                self.function_headers@,
                self.string_kinds@,
                self.identifier_hashes@,
                self.small_string_table@,
                self.overflow_string_table@,
                self.string_storage@,
                self.literal_value_buffer@,
                self.obj_key_buffer@,
                self.obj_shape_table@,
                self.big_int_table@,
                self.big_int_storage@,
                self.reg_exp_table@,
                self.reg_exp_storage@,
                self.cjs_module_table@,
                self.function_source_table@,
            ],
            self.function_bodies_offset,
        )
    }
}

/// The lengths of the sections that later checks index into.
pub proof fn lemma_section_lengths(s: Seq<u8>, h: HermesBytecodeHeader)
    requires
        h.file_length <= s.len(),
        layout_result(h) is Ok,
    ensures
        file_sections(s, h)[0].1.len() == 12 * h.function_count,
        file_sections(s, h)[4].1.len() == 8 * h.overflow_string_count,
        file_sections(s, h)[6].1.len() <= u32::MAX,
        file_sections(s, h)[7].1.len() <= u32::MAX,
        file_sections(s, h)[8].1.len() == 8 * h.obj_shape_table_count,
        forall|i: int|
            0 <= i < 15 ==> #[trigger] file_sections(s, h)[i].0 + file_sections(s, h)[i].1.len() <= h.file_length,
{
    assert forall|i: int| 0 <= i < 15 implies (#[trigger] file_sections(s, h)[i]).1.len() == section_count(h, i)
        * section_entry_size(i) && file_sections(s, h)[i].0 + file_sections(s, h)[i].1.len() <= h.file_length by {
        lemma_layout_section(h, i);
        assert(file_sections(s, h)[i].1 == section_bytes(s, h, i));
    }
    assert(file_sections(s, h)[0].1.len() == section_count(h, 0) * section_entry_size(0));
    assert(file_sections(s, h)[4].1.len() == section_count(h, 4) * section_entry_size(4));
    assert(section_count(h, 4) == h.overflow_string_count);
    assert(section_entry_size(4) == 8);
    assert(file_sections(s, h)[6].1.len() == section_count(h, 6) * section_entry_size(6));
    assert(file_sections(s, h)[7].1.len() == section_count(h, 7) * section_entry_size(7));
    assert(file_sections(s, h)[8].1.len() == section_count(h, 8) * section_entry_size(8));
}

/// Sections taken from the first `file_length` bytes of `s` are those of `s`.
pub proof fn lemma_prefix_sections(s: Seq<u8>, h: HermesBytecodeHeader, prefix: Seq<u8>)
    requires
        h.file_length <= s.len(),
        layout_result(h) is Ok,
        prefix == s.subrange(0, h.file_length as int),
    ensures
        forall|i: int| 0 <= i < 15 ==> #[trigger] section_bytes(prefix, h, i) == section_bytes(s, h, i),
{
    assert forall|i: int| 0 <= i < 15 implies #[trigger] section_bytes(prefix, h, i) == section_bytes(s, h, i) by {
        lemma_layout_section(h, i);
        assert(section_bytes(prefix, h, i) =~= section_bytes(s, h, i));
    }
}

/// Runs the checks of `section_checks_result` on sections laid out by `header`.
fn validate_section_contents(bytes: &[u8], header: &HermesBytecodeHeader, sections: &HermesBytecodeSections<'_>) -> (result:
    Result<(), ParseError>)
    requires
        header.file_length <= bytes@.len(),
        layout_sections_result(bytes@, *header) == Ok::<(Seq<(u32, Seq<u8>)>, u32), ParseError>(sections@),
    ensures
        result == section_checks_result(bytes@, *header, sections@.1),
{
    reveal(section_checks_result);
    let ghost h = *header;
    assert(layout_result(h) is Ok);
    proof {
        lemma_section_lengths(bytes@, h);
    }
    let bodies_offset = sections.function_bodies_offset;
    match validate_string_kind_runs(sections.string_kinds.bytes(), header.string_count) {
        Ok(_) => {},
        Err(e) => {
            return Err(e);
        },
    }
    match validate_string_table(
        sections.small_string_table.bytes(),
        sections.overflow_string_table.bytes(),
        header.overflow_string_count,
        header.string_storage_size,
    ) {
        Ok(_) => {},
        Err(e) => {
            return Err(e);
        },
    }
    match validate_object_shape_table(
        sections.obj_shape_table.bytes(),
        sections.obj_key_buffer.bytes(),
        header.string_count,
    ) {
        Ok(_) => {},
        Err(e) => {
            return Err(e);
        },
    }
    match validate_storage_table("big_int_table", sections.big_int_table.bytes(), header.big_int_storage_size) {
        Ok(_) => {},
        Err(e) => {
            return Err(e);
        },
    }
    match validate_storage_table("reg_exp_table", sections.reg_exp_table.bytes(), header.reg_exp_storage_size) {
        Ok(_) => {},
        Err(e) => {
            return Err(e);
        },
    }
    let debug_info = match parse_debug_info(bytes, header) {
        Ok(debug_info) => debug_info,
        Err(e) => {
            return Err(e);
        },
    };
    match validate_function_headers(
        bytes,
        header,
        sections.function_headers.bytes(),
        bodies_offset,
        sections.literal_value_buffer.bytes(),
        sections.obj_shape_table.bytes(),
        debug_info,
    ) {
        Ok(_) => {},
        Err(e) => {
            return Err(e);
        },
    }
    match validate_cjs_module_table(sections.cjs_module_table.bytes(), header) {
        Ok(_) => {},
        Err(e) => {
            return Err(e);
        },
    }
    match validate_function_source_table(sections.function_source_table.bytes(), header) {
        Ok(_) => {},
        Err(e) => {
            return Err(e);
        },
    }
    Ok(())
}

impl<'a> HermesBytecodeSections<'a> {
    /// Lays out the sections of `bytes`, whose header is `header`, without checking their contents.
    fn lay_out(bytes: &'a [u8], header: &HermesBytecodeHeader) -> (result: Result<Self, ParseError>)
        requires
            header.file_length <= bytes@.len(),
        ensures
            match layout_sections_result(bytes@, *header) {
                Ok(model) => result matches Ok(sections) && sections@ == model,
                Err(e) => result == Err::<Self, ParseError>(e),
            },
    {
        let ghost h = *header;
        let file_length = header.file_length as usize;
        let file_bytes = &bytes[0..file_length];
        let (views, cursor) = match take_sections(file_bytes, header) {
            Ok(taken) => taken,
            Err(e) => {
                return Err(e);
            },
        };
        proof {
            lemma_prefix_sections(bytes@, h, file_bytes@);
        }
        if cursor > u32::MAX as usize {
            return Err(ParseError::OffsetExceedsU32 { section: "function_bodies", offset: cursor });
        }
        let bodies_offset = cursor as u32;
        let sections = HermesBytecodeSections {
            function_headers: views[0],
            string_kinds: views[1],
            identifier_hashes: views[2],
            small_string_table: views[3],
            overflow_string_table: views[4],
            string_storage: views[5],
            literal_value_buffer: views[6],
            obj_key_buffer: views[7],
            obj_shape_table: views[8],
            big_int_table: views[9],
            big_int_storage: views[10],
            reg_exp_table: views[11],
            reg_exp_storage: views[12],
            cjs_module_table: views[13],
            function_source_table: views[14],
            function_bodies_offset: bodies_offset,
        };
        assert(sections@.0 =~= file_sections(bytes@, h));
        Ok(sections)

    }

    /// Lays out and validates the sections of `bytes`, whose header is `header`.
    pub fn parse(bytes: &'a [u8], header: &HermesBytecodeHeader) -> (result: Result<Self, ParseError>)
        requires
            header.file_length <= bytes@.len(),
        ensures
            match sections_result(bytes@, *header) {
                Ok(model) => result matches Ok(sections) && sections@ == model,
                Err(e) => result == Err::<Self, ParseError>(e),
            },
    {
        let ghost h = *header;
        match validate_header_counts(header) {
            Ok(_) => {},
            Err(e) => {
                return Err(e);
            },
        }
        assert(header_counts_result(h) is Ok);
        let sections = match HermesBytecodeSections::lay_out(bytes, header) {
            Ok(sections) => sections,
            Err(e) => {
                return Err(e);
            },
        };
        let ghost laid_out = sections@;
        assert(layout_sections_result(bytes@, h) == Ok::<(Seq<(u32, Seq<u8>)>, u32), ParseError>(laid_out));
        let cursor = sections.function_bodies_offset as usize;
        let file_length = header.file_length as usize;
        match validate_section_contents(bytes, header, &sections) {
            Ok(_) => {},
            Err(e) => {
                return Err(e);
            },
        }
        if cursor > usize::MAX - 20 || cursor + 20 > file_length {
            return Err(ParseError::MissingFooter { cursor, file_length, footer_size: 20 });
        }
        assert(sections_result(bytes@, h) == Ok::<(Seq<(u32, Seq<u8>)>, u32), ParseError>(sections@));
        Ok(sections)
    }

    /// Returns the raw small function header table.
    pub fn function_headers(self) -> (view: SectionView<'a>)
        ensures
            view@ == self@.0[0],
    {
        self.function_headers
    }

    /// Returns the string-kind run table.
    pub fn string_kinds(self) -> (view: SectionView<'a>)
        ensures
            view@ == self@.0[1],
    {
        self.string_kinds
    }

    /// Returns the identifier hash table.
    pub fn identifier_hashes(self) -> (view: SectionView<'a>)
        ensures
            view@ == self@.0[2],
    {
        self.identifier_hashes
    }

    /// Returns the small string table.
    pub fn small_string_table(self) -> (view: SectionView<'a>)
        ensures
            view@ == self@.0[3],
    {
        self.small_string_table
    }

    /// Returns the overflow string table.
    pub fn overflow_string_table(self) -> (view: SectionView<'a>)
        ensures
            view@ == self@.0[4],
    {
        self.overflow_string_table
    }

    /// Returns raw string storage.
    pub fn string_storage(self) -> (view: SectionView<'a>)
        ensures
            view@ == self@.0[5],
    {
        self.string_storage
    }

    /// Returns the literal value buffer.
    pub fn literal_value_buffer(self) -> (view: SectionView<'a>)
        ensures
            view@ == self@.0[6],
    {
        self.literal_value_buffer
    }

    /// Returns the object key buffer.
    pub fn obj_key_buffer(self) -> (view: SectionView<'a>)
        ensures
            view@ == self@.0[7],
    {
        self.obj_key_buffer
    }

    /// Returns the object shape table.
    pub fn obj_shape_table(self) -> (view: SectionView<'a>)
        ensures
            view@ == self@.0[8],
    {
        self.obj_shape_table
    }

    /// Returns the big integer table.
    pub fn big_int_table(self) -> (view: SectionView<'a>)
        ensures
            view@ == self@.0[9],
    {
        self.big_int_table
    }

    /// Returns raw big integer storage.
    pub fn big_int_storage(self) -> (view: SectionView<'a>)
        ensures
            view@ == self@.0[10],
    {
        self.big_int_storage
    }

    /// Returns the regular expression table.
    pub fn reg_exp_table(self) -> (view: SectionView<'a>)
        ensures
            view@ == self@.0[11],
    {
        self.reg_exp_table
    }

    /// Returns raw regular expression storage.
    pub fn reg_exp_storage(self) -> (view: SectionView<'a>)
        ensures
            view@ == self@.0[12],
    {
        self.reg_exp_storage
    }

    /// Returns the CommonJS module table.
    pub fn cjs_module_table(self) -> (view: SectionView<'a>)
        ensures
            view@ == self@.0[13],
    {
        self.cjs_module_table
    }

    /// Returns the function source table.
    pub fn function_source_table(self) -> (view: SectionView<'a>)
        ensures
            view@ == self@.0[14],
    {
        self.function_source_table
    }

    /// Returns the first byte offset after structured sections.
    pub fn function_bodies_offset(self) -> (offset: u32)
        ensures
            offset == self@.1,
    {
        self.function_bodies_offset
    }
}

} // verus!
