//! What parsing guarantees of the strings of a bytecode.

use vstd::prelude::*;

use crate::hbc::bytecode::{bytecode_result, file_of, lemma_parsed_shape};
use crate::hbc::error::ParseError;
use crate::hbc::header::HermesBytecodeHeader;
use crate::hbc::laws::lemma_parsed;
use crate::hbc::layout::{lemma_layout_section, section_bytes, section_entry_size, section_size};
use crate::hbc::sections::{file_sections, section_checks_result};
use crate::hbc::tables::{lemma_string_table_accepts_every_entry, string_entry_result, string_table_result};

verus! {

/// Every string of a parsed bytecode is located inside string storage: each
/// entry of its small string table (one per string) passes the string entry
/// check against the overflow table and the declared storage size, which is
/// the size of the string storage section.
pub proof fn lemma_parsed_strings_lie_in_storage(s: Seq<u8>, h: HermesBytecodeHeader, m: (Seq<(u32, Seq<u8>)>, u32))
    requires
        bytecode_result(s) == Ok::<(HermesBytecodeHeader, (Seq<(u32, Seq<u8>)>, u32)), ParseError>((h, m)),
    ensures
        m.0[3].1.len() == 4 * h.string_count,
        m.0[5].1.len() == h.string_storage_size,
        forall|i: int|
            0 <= i < h.string_count ==> (#[trigger] string_entry_result(
                m.0[3].1,
                m.0[4].1,
                h.overflow_string_count,
                h.string_storage_size,
                i,
            )) is Ok,
{
    lemma_parsed(s, h, m);
    lemma_parsed_shape(s, h, m);
    let f = file_of(s, h);
    assert(section_checks_result(f, h, m.1) is Ok);
    lemma_checks_pass_string_table(f, h, m.1);
    lemma_layout_section(h, 3);
    lemma_layout_section(h, 5);
    assert(section_entry_size(3) == 4);
    assert(section_entry_size(5) == 1);
    assert(section_size(h, 3) == 4 * h.string_count);
    assert(section_size(h, 5) == h.string_storage_size);
    assert(m.0[3] == file_sections(f, h)[3]);
    assert(m.0[4] == file_sections(f, h)[4]);
    assert(m.0[5] == file_sections(f, h)[5]);
    lemma_string_table_accepts_every_entry(m.0[3].1, m.0[4].1, h.overflow_string_count, h.string_storage_size);
}

/// Section checks that pass have passed the string table check.
proof fn lemma_checks_pass_string_table(f: Seq<u8>, h: HermesBytecodeHeader, bodies_offset: u32)
    requires
        section_checks_result(f, h, bodies_offset) is Ok,
    ensures
        string_table_result(
            section_bytes(f, h, 3),
            section_bytes(f, h, 4),
            h.overflow_string_count,
            h.string_storage_size,
        ) is Ok,
{
    reveal(section_checks_result);
}

} // verus!
