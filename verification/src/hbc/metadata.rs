//! The metadata summary of a Hermes bytecode buffer that host platforms read.

use vstd::prelude::*;

use crate::hbc::bytecode::{
    bytecode_function_header, bytecode_function_instructions, bytecode_result, file_of, lemma_parsed_shape, HermesBytecode,
};
use crate::hbc::error::ParseError;
use crate::hbc::function_header::HermesFunctionHeader;
use crate::hbc::header::HermesBytecodeHeader;
use crate::hbc::sections::lemma_section_lengths;

verus! {

/// Header fields, section placement and global function facts of a bytecode buffer.
#[derive(Debug, Clone, Copy, PartialEq, Eq)]
pub struct HbcMetadata {
    pub version: u32,
    pub file_length: u32,
    pub global_code_index: u32,
    pub function_count: u32,
    pub function_headers_offset: u32,
    pub function_headers_size: u32,
    pub string_count: u32,
    pub string_kinds_offset: u32,
    pub identifier_hashes_offset: u32,
    pub small_string_table_offset: u32,
    pub overflow_string_table_offset: u32,
    pub string_storage_offset: u32,
    pub string_storage_size: u32,
    pub cjs_module_count: u32,
    pub cjs_module_table_offset: u32,
    pub cjs_module_table_size: u32,
    pub function_source_table_offset: u32,
    pub function_source_table_size: u32,
    pub function_bodies_offset: u32,
    pub global_function_offset: u32,
    pub global_function_size: u32,
    pub global_function_name: u32,
    pub global_function_param_count: u32,
    pub global_function_frame_size: u32,
    pub global_instruction_count: u32,
    pub debug_info_offset: u32,
    pub options: u8,
}

/// The metadata of a parsed bytecode with header `h` and sections `m`, whose
/// global function has header `global` and `instruction_count` instructions.
pub open spec fn metadata_of(
    h: HermesBytecodeHeader,
    m: (Seq<(u32, Seq<u8>)>, u32),
    global: HermesFunctionHeader,
    instruction_count: u32,
) -> HbcMetadata {
    HbcMetadata {
        version: h.version,
        file_length: h.file_length,
        global_code_index: h.global_code_index,
        function_count: h.function_count,
        function_headers_offset: m.0[0].0,
        function_headers_size: m.0[0].1.len() as u32,
        string_count: h.string_count,
        string_kinds_offset: m.0[1].0,
        identifier_hashes_offset: m.0[2].0,
        small_string_table_offset: m.0[3].0,
        overflow_string_table_offset: m.0[4].0,
        string_storage_offset: m.0[5].0,
        string_storage_size: m.0[5].1.len() as u32,
        cjs_module_count: h.cjs_module_count,
        cjs_module_table_offset: m.0[13].0,
        cjs_module_table_size: m.0[13].1.len() as u32,
        function_source_table_offset: m.0[14].0,
        function_source_table_size: m.0[14].1.len() as u32,
        function_bodies_offset: m.1,
        global_function_offset: global.offset,
        global_function_size: global.bytecode_size_in_bytes,
        global_function_name: global.function_name,
        global_function_param_count: global.param_count,
        global_function_frame_size: global.frame_size,
        global_instruction_count: instruction_count,
        debug_info_offset: h.debug_info_offset,
        options: h.options@,
    }
}

/// Parsing the metadata of the buffer `s`: the bytecode parses, then its
/// global function header and instructions decode.
pub open spec fn metadata_result(s: Seq<u8>) -> Result<HbcMetadata, ParseError> {
    match bytecode_result(s) {
        Err(e) => Err(e),
        Ok((h, m)) => match bytecode_function_header((s, h, m), h.global_code_index) {
            Err(e) => Err(e),
            Ok(global) => match bytecode_function_instructions((s, h, m), h.global_code_index) {
                Err(e) => Err(e),
                Ok(instructions) => Ok(metadata_of(h, m, global, instructions.len() as u32)),
            },
        },
    }
}

/// Parses a bytecode buffer and summarises it for host platforms.
pub fn parse_hbc_metadata(bytes: &[u8]) -> (result: Result<HbcMetadata, ParseError>)
    ensures
        result == metadata_result(bytes@),
{
    let bytecode = match HermesBytecode::parse(bytes) {
        Ok(bytecode) => bytecode,
        Err(e) => {
            return Err(e);
        },
    };
    let header = bytecode.header();
    let sections = bytecode.sections();
    let global_function = match bytecode.global_function_header() {
        Ok(global) => global,
        Err(e) => {
            return Err(e);
        },
    };
    let global_instruction_count = match bytecode.global_instruction_count() {
        Ok(count) => count,
        Err(e) => {
            return Err(e);
        },
    };
    proof {
        lemma_parsed_shape(bytes@, header, sections@);
        lemma_section_lengths(file_of(bytes@, header), header);
    }
    Ok(
        HbcMetadata {
            version: header.version,
            file_length: header.file_length,
            global_code_index: header.global_code_index,
            function_count: header.function_count,
            function_headers_offset: sections.function_headers().offset(),
            function_headers_size: sections.function_headers().len(),
            string_count: header.string_count,
            string_kinds_offset: sections.string_kinds().offset(),
            identifier_hashes_offset: sections.identifier_hashes().offset(),
            small_string_table_offset: sections.small_string_table().offset(),
            overflow_string_table_offset: sections.overflow_string_table().offset(),
            string_storage_offset: sections.string_storage().offset(),
            string_storage_size: sections.string_storage().len(),
            cjs_module_count: header.cjs_module_count,
            cjs_module_table_offset: sections.cjs_module_table().offset(),
            cjs_module_table_size: sections.cjs_module_table().len(),
            function_source_table_offset: sections.function_source_table().offset(),
            function_source_table_size: sections.function_source_table().len(),
            function_bodies_offset: sections.function_bodies_offset(),
            global_function_offset: global_function.offset,
            global_function_size: global_function.bytecode_size_in_bytes,
            global_function_name: global_function.function_name,
            global_function_param_count: global_function.param_count,
            global_function_frame_size: global_function.frame_size,
            global_instruction_count,
            debug_info_offset: header.debug_info_offset,
            options: header.options.flags(),
        },
    )
}

} // verus!
