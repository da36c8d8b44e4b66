//! Hermes bytecode validation scenarios built from hand-assembled buffers.

use std::mem::size_of;

use iris::hbc::debug::{DEBUG_INFO_HEADER_SIZE, DEBUG_SOURCE_MAPPING_URL_INVALID, STRING_TABLE_ENTRY_UTF16_MASK};
use iris::hbc::function_header::{LARGE_FUNC_HEADER_SIZE, SMALL_FUNC_HEADER_SIZE};
use iris::hbc::function_info::{
    EXCEPTION_HANDLER_ENTRY_SIZE, EXCEPTION_HANDLER_TABLE_HEADER_SIZE, FUNCTION_INFO_ALIGNMENT,
};
use iris::hbc::header::{
    BIG_INT_COUNT_OFFSET, BIG_INT_STORAGE_SIZE_OFFSET, CJS_MODULE_COUNT_OFFSET, DEBUG_INFO_OFFSET_OFFSET,
    FILE_LENGTH_OFFSET, FUNCTION_COUNT_OFFSET, FUNCTION_SOURCE_COUNT_OFFSET, GLOBAL_CODE_INDEX_OFFSET,
    HERMES_BYTECODE_ALIGNMENT, HERMES_BYTECODE_FOOTER_SIZE, HERMES_BYTECODE_HEADER_SIZE, HERMES_BYTECODE_MAGIC,
    HERMES_SOURCE_HASH_SIZE, IDENTIFIER_COUNT_OFFSET, LITERAL_VALUE_BUFFER_SIZE_OFFSET, MAGIC_OFFSET,
    NUM_STRING_SWITCH_IMMS_OFFSET, OBJ_KEY_BUFFER_SIZE_OFFSET, OBJ_SHAPE_TABLE_COUNT_OFFSET, OPTIONS_OFFSET,
    OVERFLOW_STRING_COUNT_OFFSET, REG_EXP_COUNT_OFFSET, REG_EXP_STORAGE_SIZE_OFFSET, SEGMENT_ID_OFFSET,
    SOURCE_HASH_OFFSET, STRING_COUNT_OFFSET, STRING_KIND_COUNT_OFFSET, STRING_STORAGE_SIZE_OFFSET,
    VERSION_OFFSET,
};
use iris::hbc::layout::align_u32;
use iris::hbc::leb128::{
    add_debug_u32_delta, debug_data_offset, read_signed_leb128, DEBUG_DATA_ADDRESS_NOT_BOUNDARY,
    DEBUG_DATA_ADDRESS_OUT_OF_BOUNDS, DEBUG_DATA_FUNCTION_MISMATCH, DEBUG_DATA_LEB_OVERFLOW,
    DEBUG_DATA_LOCATION_NOT_ONE_BASED, DEBUG_DATA_SOURCE_VALUE_OUT_OF_BOUNDS, DEBUG_DATA_TRUNCATED_LEB,
};
use iris::hbc::locations::DEBUG_OFFSETS_NO_OFFSET;
use iris::hbc::operands::{STRING_SWITCH_IMM_OPCODE, UINT_SWITCH_IMM_OPCODE};
use iris::hbc::{parse_hbc_metadata, HermesBytecode, HermesBytecodeHeader, HermesInstruction, ParseError};


const NEW_OBJECT_WITH_BUFFER_OPCODE: u8 = 1;
const NEW_ARRAY_WITH_BUFFER_OPCODE: u8 = 7;
const RET_OPCODE: u8 = 118;
const LOAD_CONST_DOUBLE_OPCODE: u8 = 141;
const LOAD_CONST_BIGINT_OPCODE: u8 = 142;
const LOAD_CONST_STRING_OPCODE: u8 = 144;
const CREATE_CLOSURE_OPCODE: u8 = 132;
const JMP_OPCODE: u8 = 175;

fn write_u32(bytes: &mut [u8], offset: usize, value: u32) {
    bytes[offset..offset + size_of::<u32>()].copy_from_slice(&value.to_le_bytes());
}

fn append_aligned(bytes: &mut Vec<u8>) {
    while bytes.len() % HERMES_BYTECODE_ALIGNMENT != 0 {
        bytes.push(0);
    }
}

fn append_bytes(bytes: &mut Vec<u8>, section: &[u8]) {
    append_aligned(bytes);
    bytes.extend_from_slice(section);
}

fn append_repeated(bytes: &mut Vec<u8>, len: usize, value: u8) {
    append_aligned(bytes);
    bytes.resize(bytes.len() + len, value);
}

fn small_string_entry(offset: u32, length: u32, is_utf16: bool) -> u32 {
    u32::from(is_utf16) | (offset << 1) | (length << 24)
}

#[derive(Debug, Clone, Copy)]
struct SmallFunctionHeaderFixture {
    offset: u32,
    bytecode_size_in_bytes: u32,
    param_count: u32,
    loop_depth: u32,
    function_name: u32,
    number_reg_count: u32,
    non_ptr_reg_count: u32,
    frame_size: u8,
    read_cache_size: u8,
    write_cache_size: u8,
    private_name_cache_size: u8,
    flags: u8,
}

fn encode_small_function_header(
    header: SmallFunctionHeaderFixture,
) -> [u8; SMALL_FUNC_HEADER_SIZE] {
    let mut bytes = [0; SMALL_FUNC_HEADER_SIZE];
    let first_word = (header.offset & 0x01ff_ffff)
        | ((header.param_count & 0x1f) << 25)
        | ((header.loop_depth & 0x03) << 30);
    let second_word = (header.bytecode_size_in_bytes & 0x3fff)
        | ((header.function_name & 0xff) << 14)
        | ((header.number_reg_count & 0x1f) << 22)
        | ((header.non_ptr_reg_count & 0x1f) << 27);
    bytes[0..4].copy_from_slice(&first_word.to_le_bytes());
    bytes[4..8].copy_from_slice(&second_word.to_le_bytes());
    bytes[8] = header.frame_size;
    bytes[9] = header.read_cache_size;
    bytes[10] =
        (header.write_cache_size & 0x7f) | ((header.private_name_cache_size & 0x01) << 7);
    bytes[11] = header.flags;
    bytes
}

fn encode_overflow_function_header(large_header_offset: u32) -> [u8; SMALL_FUNC_HEADER_SIZE] {
    encode_small_function_header(SmallFunctionHeaderFixture {
        offset: large_header_offset & 0x00ff_ffff,
        bytecode_size_in_bytes: 0,
        param_count: 0,
        loop_depth: 0,
        function_name: (large_header_offset >> 24) & 0xff,
        number_reg_count: 0,
        non_ptr_reg_count: 0,
        frame_size: 0,
        read_cache_size: 0,
        write_cache_size: 0,
        private_name_cache_size: 0,
        flags: 0b0010_0000,
    })
}

fn encode_large_function_header(
    header: SmallFunctionHeaderFixture,
) -> [u8; LARGE_FUNC_HEADER_SIZE] {
    let mut bytes = [0; LARGE_FUNC_HEADER_SIZE];
    bytes[0..4].copy_from_slice(&header.offset.to_le_bytes());
    bytes[4..8].copy_from_slice(&header.param_count.to_le_bytes());
    bytes[8..12].copy_from_slice(&header.loop_depth.to_le_bytes());
    bytes[12..16].copy_from_slice(&header.bytecode_size_in_bytes.to_le_bytes());
    bytes[16..20].copy_from_slice(&header.function_name.to_le_bytes());
    bytes[20..24].copy_from_slice(&header.number_reg_count.to_le_bytes());
    bytes[24..28].copy_from_slice(&header.non_ptr_reg_count.to_le_bytes());
    bytes[28..32].copy_from_slice(&u32::from(header.frame_size).to_le_bytes());
    bytes[32] = header.read_cache_size;
    bytes[33] = header.write_cache_size;
    bytes[34] = header.private_name_cache_size;
    bytes[35] = header.flags;
    bytes
}

fn fixture_header() -> Vec<u8> {
    let mut bytes = vec![0; HERMES_BYTECODE_HEADER_SIZE];
    bytes[MAGIC_OFFSET..MAGIC_OFFSET + size_of::<u64>()]
        .copy_from_slice(&HERMES_BYTECODE_MAGIC.to_le_bytes());
    write_u32(&mut bytes, VERSION_OFFSET, 99);
    bytes[SOURCE_HASH_OFFSET..SOURCE_HASH_OFFSET + HERMES_SOURCE_HASH_SIZE]
        .copy_from_slice(&[7; HERMES_SOURCE_HASH_SIZE]);
    write_u32(
        &mut bytes,
        FILE_LENGTH_OFFSET,
        HERMES_BYTECODE_HEADER_SIZE as u32,
    );
    write_u32(&mut bytes, GLOBAL_CODE_INDEX_OFFSET, 17);
    write_u32(&mut bytes, FUNCTION_COUNT_OFFSET, 29);
    write_u32(&mut bytes, STRING_KIND_COUNT_OFFSET, 3);
    write_u32(&mut bytes, IDENTIFIER_COUNT_OFFSET, 5);
    write_u32(&mut bytes, STRING_COUNT_OFFSET, 11);
    write_u32(&mut bytes, OVERFLOW_STRING_COUNT_OFFSET, 13);
    write_u32(&mut bytes, STRING_STORAGE_SIZE_OFFSET, 128);
    write_u32(&mut bytes, BIG_INT_COUNT_OFFSET, 2);
    write_u32(&mut bytes, BIG_INT_STORAGE_SIZE_OFFSET, 16);
    write_u32(&mut bytes, REG_EXP_COUNT_OFFSET, 4);
    write_u32(&mut bytes, REG_EXP_STORAGE_SIZE_OFFSET, 32);
    write_u32(&mut bytes, LITERAL_VALUE_BUFFER_SIZE_OFFSET, 64);
    write_u32(&mut bytes, OBJ_KEY_BUFFER_SIZE_OFFSET, 96);
    write_u32(&mut bytes, OBJ_SHAPE_TABLE_COUNT_OFFSET, 6);
    write_u32(&mut bytes, NUM_STRING_SWITCH_IMMS_OFFSET, 8);
    write_u32(&mut bytes, SEGMENT_ID_OFFSET, 1);
    write_u32(&mut bytes, CJS_MODULE_COUNT_OFFSET, 10);
    write_u32(&mut bytes, FUNCTION_SOURCE_COUNT_OFFSET, 12);
    write_u32(&mut bytes, DEBUG_INFO_OFFSET_OFFSET, 120);
    bytes[OPTIONS_OFFSET] = 0b0000_0011;
    bytes
}

fn fixture_bytecode() -> Vec<u8> {
    let mut bytes = vec![0; HERMES_BYTECODE_HEADER_SIZE];
    bytes[MAGIC_OFFSET..MAGIC_OFFSET + size_of::<u64>()]
        .copy_from_slice(&HERMES_BYTECODE_MAGIC.to_le_bytes());
    write_u32(&mut bytes, VERSION_OFFSET, 99);
    bytes[SOURCE_HASH_OFFSET..SOURCE_HASH_OFFSET + HERMES_SOURCE_HASH_SIZE]
        .copy_from_slice(&[7; HERMES_SOURCE_HASH_SIZE]);
    write_u32(&mut bytes, GLOBAL_CODE_INDEX_OFFSET, 1);
    write_u32(&mut bytes, FUNCTION_COUNT_OFFSET, 2);
    write_u32(&mut bytes, STRING_KIND_COUNT_OFFSET, 2);
    write_u32(&mut bytes, IDENTIFIER_COUNT_OFFSET, 1);
    write_u32(&mut bytes, STRING_COUNT_OFFSET, 2);
    write_u32(&mut bytes, OVERFLOW_STRING_COUNT_OFFSET, 1);
    write_u32(&mut bytes, STRING_STORAGE_SIZE_OFFSET, 6);
    write_u32(&mut bytes, BIG_INT_COUNT_OFFSET, 1);
    write_u32(&mut bytes, BIG_INT_STORAGE_SIZE_OFFSET, 4);
    write_u32(&mut bytes, REG_EXP_COUNT_OFFSET, 1);
    write_u32(&mut bytes, REG_EXP_STORAGE_SIZE_OFFSET, 2);
    write_u32(&mut bytes, LITERAL_VALUE_BUFFER_SIZE_OFFSET, 3);
    write_u32(&mut bytes, OBJ_KEY_BUFFER_SIZE_OFFSET, 5);
    write_u32(&mut bytes, OBJ_SHAPE_TABLE_COUNT_OFFSET, 1);
    write_u32(&mut bytes, CJS_MODULE_COUNT_OFFSET, 2);
    write_u32(&mut bytes, FUNCTION_SOURCE_COUNT_OFFSET, 1);

    append_aligned(&mut bytes);
    let function_headers_offset = bytes.len();
    bytes.resize(bytes.len() + SMALL_FUNC_HEADER_SIZE * 2, 0);
    append_bytes(
        &mut bytes,
        &[1_u32.to_le_bytes(), 0x8000_0001_u32.to_le_bytes()].concat(),
    );
    append_bytes(&mut bytes, &0x1234_5678_u32.to_le_bytes());
    append_bytes(
        &mut bytes,
        &[
            small_string_entry(0, 2, false).to_le_bytes(),
            small_string_entry(0, 0xff, false).to_le_bytes(),
        ]
        .concat(),
    );
    append_bytes(
        &mut bytes,
        &[2_u32.to_le_bytes(), 4_u32.to_le_bytes()].concat(),
    );
    append_bytes(&mut bytes, b"abcdef");
    append_bytes(&mut bytes, &[1, 2, 3]);
    append_bytes(&mut bytes, &[4, 5, 6, 7, 8]);
    append_bytes(
        &mut bytes,
        &[0_u32.to_le_bytes(), 1_u32.to_le_bytes()].concat(),
    );
    append_bytes(
        &mut bytes,
        &[0_u32.to_le_bytes(), 4_u32.to_le_bytes()].concat(),
    );
    append_bytes(&mut bytes, &[9, 10, 11, 12]);
    append_bytes(
        &mut bytes,
        &[0_u32.to_le_bytes(), 2_u32.to_le_bytes()].concat(),
    );
    append_bytes(&mut bytes, &[13, 14]);
    append_bytes(
        &mut bytes,
        &[
            0_u32.to_le_bytes(),
            0_u32.to_le_bytes(),
            1_u32.to_le_bytes(),
            1_u32.to_le_bytes(),
        ]
        .concat(),
    );
    append_bytes(
        &mut bytes,
        &[1_u32.to_le_bytes(), 1_u32.to_le_bytes()].concat(),
    );

    let function_bodies_offset = bytes.len();
    bytes.extend_from_slice(&[RET_OPCODE, 0, RET_OPCODE, 0]);
    bytes[function_headers_offset..function_headers_offset + SMALL_FUNC_HEADER_SIZE]
        .copy_from_slice(&encode_small_function_header(SmallFunctionHeaderFixture {
            offset: u32::try_from(function_bodies_offset)
                .expect("test fixture offset fits in u32"),
            bytecode_size_in_bytes: 2,
            param_count: 1,
            loop_depth: 0,
            function_name: 0,
            number_reg_count: 2,
            non_ptr_reg_count: 1,
            frame_size: 4,
            read_cache_size: 1,
            write_cache_size: 2,
            private_name_cache_size: 1,
            flags: 0b0000_0100,
        }));
    bytes[function_headers_offset + SMALL_FUNC_HEADER_SIZE
        ..function_headers_offset + SMALL_FUNC_HEADER_SIZE * 2]
        .copy_from_slice(&encode_small_function_header(SmallFunctionHeaderFixture {
            offset: u32::try_from(function_bodies_offset + 2)
                .expect("test fixture offset fits in u32"),
            bytecode_size_in_bytes: 2,
            param_count: 2,
            loop_depth: 1,
            function_name: 1,
            number_reg_count: 3,
            non_ptr_reg_count: 2,
            frame_size: 5,
            read_cache_size: 3,
            write_cache_size: 4,
            private_name_cache_size: 0,
            flags: 0b0000_0100,
        }));

    append_aligned(&mut bytes);
    let debug_info_offset =
        u32::try_from(bytes.len()).expect("test fixture offset fits in u32");
    append_repeated(&mut bytes, 16, 0);
    bytes.extend_from_slice(&[0; HERMES_BYTECODE_FOOTER_SIZE]);

    let file_length = u32::try_from(bytes.len()).expect("test fixture length fits in u32");
    write_u32(&mut bytes, FILE_LENGTH_OFFSET, file_length);
    write_u32(&mut bytes, DEBUG_INFO_OFFSET_OFFSET, debug_info_offset);

    assert_eq!(function_bodies_offset % HERMES_BYTECODE_ALIGNMENT, 0);
    bytes
}

fn replace_global_body(bytes: &mut Vec<u8>, body: &[u8]) -> u32 {
    replace_global_body_with_payload(bytes, body, &[]).0
}

fn replace_global_body_with_payload(
    bytes: &mut Vec<u8>,
    body: &[u8],
    payload: &[u8],
) -> (u32, u32) {
    let bytecode = HermesBytecode::parse(bytes).expect("valid fixture");
    let header = bytecode.header();
    let sections = bytecode.sections();
    let global = bytecode
        .global_function_header()
        .expect("valid global function");
    let body_offset =
        usize::try_from(global.offset).expect("test fixture offset fits in usize");
    let old_debug_offset =
        usize::try_from(header.debug_info_offset).expect("test fixture offset fits in usize");
    let function_header_offset = sections.function_headers().offset() as usize
        + usize::try_from(header.global_code_index)
            .expect("test fixture global index fits in usize")
            * SMALL_FUNC_HEADER_SIZE;

    let mut replacement = Vec::with_capacity(body.len() + payload.len() + 4);
    replacement.extend_from_slice(body);
    replacement.extend_from_slice(payload);
    while (body_offset + replacement.len()) % HERMES_BYTECODE_ALIGNMENT != 0 {
        replacement.push(0);
    }

    bytes.splice(body_offset..old_debug_offset, replacement);
    let new_debug_offset = u32::try_from(body_offset + body.len() + payload.len())
        .expect("test fixture offset fits in u32");
    let new_debug_offset_aligned =
        align_u32(new_debug_offset, HERMES_BYTECODE_ALIGNMENT as u32)
            .expect("test fixture aligned offset fits in u32");
    let new_file_length = u32::try_from(bytes.len()).expect("test fixture length fits in u32");
    write_u32(bytes, DEBUG_INFO_OFFSET_OFFSET, new_debug_offset_aligned);
    write_u32(bytes, FILE_LENGTH_OFFSET, new_file_length);
    bytes[function_header_offset..function_header_offset + SMALL_FUNC_HEADER_SIZE]
        .copy_from_slice(&encode_small_function_header(SmallFunctionHeaderFixture {
            offset: global.offset,
            bytecode_size_in_bytes: u32::try_from(body.len())
                .expect("test fixture body length fits in u32"),
            param_count: global.param_count,
            loop_depth: global.loop_depth,
            function_name: global.function_name,
            number_reg_count: global.number_reg_count,
            non_ptr_reg_count: global.non_ptr_reg_count,
            frame_size: u8::try_from(global.frame_size)
                .expect("test fixture frame size fits in u8"),
            read_cache_size: global.read_cache_size,
            write_cache_size: global.write_cache_size,
            private_name_cache_size: global.private_name_cache_size,
            flags: global.flags,
        }));

    (
        u32::try_from(body_offset).expect("test fixture offset fits in u32"),
        new_debug_offset_aligned,
    )
}

fn add_global_exception_info(
    bytes: &mut Vec<u8>,
    declared_count: u32,
    entries: &[(u32, u32, u32)],
) -> u32 {
    add_global_function_info(bytes, Some((declared_count, entries)), None)
}

fn add_global_debug_offsets(bytes: &mut Vec<u8>, source_locations: u32) -> u32 {
    add_global_function_info(bytes, None, Some(source_locations))
}

fn set_debug_data(bytes: &mut Vec<u8>, debug_data: &[u8]) {
    set_debug_info(bytes, &[], &[], &[], debug_data);
}

fn set_debug_info(
    bytes: &mut Vec<u8>,
    filename_entries: &[(u32, u32, bool)],
    filename_storage: &[u8],
    file_regions: &[(u32, u32, u32)],
    debug_data: &[u8],
) {
    let (debug_info_offset, file_length) = {
        let bytecode = HermesBytecode::parse(bytes).expect("valid fixture");
        (
            bytecode.header().debug_info_offset,
            bytecode.header().file_length,
        )
    };
    let debug_info_offset =
        usize::try_from(debug_info_offset).expect("test fixture offset fits in usize");
    let footer_offset = usize::try_from(file_length)
        .expect("test fixture length fits in usize")
        - HERMES_BYTECODE_FOOTER_SIZE;

    let mut debug_info = Vec::new();
    debug_info.extend_from_slice(
        &u32::try_from(filename_entries.len())
            .expect("test fixture filename count fits in u32")
            .to_le_bytes(),
    );
    debug_info.extend_from_slice(
        &u32::try_from(filename_storage.len())
            .expect("test fixture filename storage length fits in u32")
            .to_le_bytes(),
    );
    debug_info.extend_from_slice(
        &u32::try_from(file_regions.len())
            .expect("test fixture file region count fits in u32")
            .to_le_bytes(),
    );
    debug_info.extend_from_slice(
        &u32::try_from(debug_data.len())
            .expect("test fixture debug data length fits in u32")
            .to_le_bytes(),
    );
    for (offset, length, is_utf16) in filename_entries {
        debug_info.extend_from_slice(&offset.to_le_bytes());
        let raw_length = if *is_utf16 {
            length | STRING_TABLE_ENTRY_UTF16_MASK
        } else {
            *length
        };
        debug_info.extend_from_slice(&raw_length.to_le_bytes());
    }
    debug_info.extend_from_slice(filename_storage);
    for (from_address, filename_id, source_mapping_url_id) in file_regions {
        debug_info.extend_from_slice(&from_address.to_le_bytes());
        debug_info.extend_from_slice(&filename_id.to_le_bytes());
        debug_info.extend_from_slice(&source_mapping_url_id.to_le_bytes());
    }
    debug_info.extend_from_slice(debug_data);

    bytes.splice(debug_info_offset..footer_offset, debug_info);
    let new_file_length = u32::try_from(bytes.len()).expect("test fixture length fits in u32");
    write_u32(bytes, FILE_LENGTH_OFFSET, new_file_length);
}

fn debug_source_stream(function_id: u32, address_delta: i64) -> Vec<u8> {
    let mut data = Vec::new();
    append_signed_leb128(&mut data, i64::from(function_id));
    append_signed_leb128(&mut data, 1);
    append_signed_leb128(&mut data, 1);
    append_signed_leb128(&mut data, 0);
    append_signed_leb128(&mut data, address_delta);
    append_signed_leb128(&mut data, 0);
    append_signed_leb128(&mut data, -1);
    data
}

fn debug_source_stream_with_location_delta(
    function_id: u32,
    address_delta: i64,
    line_delta: i64,
    column_delta: i64,
) -> Vec<u8> {
    let mut data = Vec::new();
    append_signed_leb128(&mut data, i64::from(function_id));
    append_signed_leb128(&mut data, 1);
    append_signed_leb128(&mut data, 1);
    append_signed_leb128(&mut data, 0);
    append_signed_leb128(&mut data, address_delta);
    append_signed_leb128(&mut data, (line_delta << 3) | 1);
    append_signed_leb128(&mut data, column_delta);
    append_signed_leb128(&mut data, -1);
    data
}

fn debug_source_stream_without_sentinel(function_id: u32) -> Vec<u8> {
    let mut data = Vec::new();
    append_signed_leb128(&mut data, i64::from(function_id));
    append_signed_leb128(&mut data, 1);
    append_signed_leb128(&mut data, 1);
    append_signed_leb128(&mut data, 0);
    data
}

fn append_signed_leb128(bytes: &mut Vec<u8>, mut value: i64) {
    loop {
        let byte = u8::try_from(value & 0x7f).expect("SLEB low bits fit in u8");
        value >>= 7;
        let done = (value == 0 && byte & 0x40 == 0) || (value == -1 && byte & 0x40 != 0);
        if done {
            bytes.push(byte);
            return;
        }
        bytes.push(byte | 0x80);
    }
}

fn add_global_function_info(
    bytes: &mut Vec<u8>,
    exception_table: Option<(u32, &[(u32, u32, u32)])>,
    debug_source_locations: Option<u32>,
) -> u32 {
    let (header, function_headers_offset, global) = {
        let bytecode = HermesBytecode::parse(bytes).expect("valid fixture");
        (
            bytecode.header(),
            bytecode.sections().function_headers().offset() as usize,
            bytecode
                .global_function_header()
                .expect("valid global function"),
        )
    };
    let info_offset =
        usize::try_from(header.debug_info_offset).expect("test fixture offset fits in usize");
    let function_header_offset = function_headers_offset
        + usize::try_from(header.global_code_index)
            .expect("test fixture global index fits in usize")
            * SMALL_FUNC_HEADER_SIZE;

    let mut info = Vec::new();
    let mut flags = global.flags;
    if exception_table.is_some() {
        flags |= 0b0000_1000;
    }
    if debug_source_locations.is_some() {
        flags |= 0b0001_0000;
    }
    info.extend_from_slice(&encode_large_function_header(SmallFunctionHeaderFixture {
        offset: global.offset,
        bytecode_size_in_bytes: global.bytecode_size_in_bytes,
        param_count: global.param_count,
        loop_depth: global.loop_depth,
        function_name: global.function_name,
        number_reg_count: global.number_reg_count,
        non_ptr_reg_count: global.non_ptr_reg_count,
        frame_size: u8::try_from(global.frame_size)
            .expect("test fixture frame size fits in u8"),
        read_cache_size: global.read_cache_size,
        write_cache_size: global.write_cache_size,
        private_name_cache_size: global.private_name_cache_size,
        flags,
    }));
    if let Some((declared_count, entries)) = exception_table {
        while (info_offset + info.len())
            % usize::try_from(FUNCTION_INFO_ALIGNMENT).expect("test fixture alignment fits in usize")
            != 0
        {
            info.push(0);
        }
        info.extend_from_slice(&declared_count.to_le_bytes());
        for (start, end, target) in entries {
            info.extend_from_slice(&start.to_le_bytes());
            info.extend_from_slice(&end.to_le_bytes());
            info.extend_from_slice(&target.to_le_bytes());
        }
    }
    if let Some(source_locations) = debug_source_locations {
        while (info_offset + info.len())
            % usize::try_from(FUNCTION_INFO_ALIGNMENT).expect("test fixture alignment fits in usize")
            != 0
        {
            info.push(0);
        }
        info.extend_from_slice(&source_locations.to_le_bytes());
    }

    let info_size = u32::try_from(info.len()).expect("test fixture info length fits in u32");
    bytes.splice(info_offset..info_offset, info);
    let info_offset_u32 = u32::try_from(info_offset).expect("test fixture offset fits in u32");
    let new_debug_offset = header.debug_info_offset + info_size;
    let new_file_length = u32::try_from(bytes.len()).expect("test fixture length fits in u32");
    write_u32(bytes, DEBUG_INFO_OFFSET_OFFSET, new_debug_offset);
    write_u32(bytes, FILE_LENGTH_OFFSET, new_file_length);
    bytes[function_header_offset..function_header_offset + SMALL_FUNC_HEADER_SIZE]
        .copy_from_slice(&encode_overflow_function_header(info_offset_u32));
    info_offset_u32
}

#[test]
fn parses_header_without_copying_payload() {
    let bytes = fixture_bytecode();
    let bytecode = HermesBytecode::parse(&bytes).expect("valid Hermes bytecode header");
    let header = bytecode.header();

    assert!(std::ptr::eq(bytecode.bytes().as_ptr(), bytes.as_ptr()));
    assert_eq!(header.version, 99);
    assert_eq!(header.source_hash, [7; HERMES_SOURCE_HASH_SIZE]);
    assert_eq!(header.file_length, bytes.len() as u32);
    assert_eq!(header.global_code_index, 1);
    assert_eq!(header.function_count, 2);
    assert_eq!(header.string_kind_count, 2);
    assert_eq!(header.identifier_count, 1);
    assert_eq!(header.string_count, 2);
    assert_eq!(header.overflow_string_count, 1);
    assert_eq!(header.string_storage_size, 6);
    assert_eq!(header.big_int_count, 1);
    assert_eq!(header.big_int_storage_size, 4);
    assert_eq!(header.reg_exp_count, 1);
    assert_eq!(header.reg_exp_storage_size, 2);
    assert_eq!(header.literal_value_buffer_size, 3);
    assert_eq!(header.obj_key_buffer_size, 5);
    assert_eq!(header.obj_shape_table_count, 1);
    assert_eq!(header.cjs_module_count, 2);
    assert_eq!(header.function_source_count, 1);
    assert_eq!(header.options.flags(), 0);
}

#[test]
fn exposes_metadata_for_cxx_hosts() {
    let bytes = fixture_bytecode();
    let metadata = parse_hbc_metadata(&bytes).expect("valid Hermes bytecode metadata");

    assert_eq!(metadata.version, 99);
    assert_eq!(metadata.file_length, bytes.len() as u32);
    assert_eq!(metadata.global_code_index, 1);
    assert_eq!(metadata.function_count, 2);
    assert_eq!(metadata.function_headers_offset, 128);
    assert_eq!(metadata.function_headers_size, 24);
    assert_eq!(metadata.string_count, 2);
    assert_eq!(metadata.string_storage_size, 6);
    assert_eq!(metadata.cjs_module_count, 2);
    assert_eq!(metadata.cjs_module_table_size, 16);
    assert_eq!(metadata.function_source_table_size, 8);
    assert!(metadata.function_bodies_offset > metadata.function_source_table_offset);
    assert_eq!(
        metadata.global_function_offset,
        metadata.function_bodies_offset + 2
    );
    assert_eq!(metadata.global_function_size, 2);
    assert_eq!(metadata.global_function_name, 1);
    assert_eq!(metadata.global_function_param_count, 2);
    assert_eq!(metadata.global_function_frame_size, 5);
    assert_eq!(metadata.global_instruction_count, 1);
    assert_eq!(metadata.options, 0);
}

#[test]
fn parses_small_function_headers() {
    let bytes = fixture_bytecode();
    let bytecode = HermesBytecode::parse(&bytes).expect("valid Hermes bytecode");
    let sections = bytecode.sections();

    let first = bytecode
        .function_header(0)
        .expect("valid first function header");
    assert_eq!(first.offset, sections.function_bodies_offset());
    assert_eq!(first.bytecode_size_in_bytes, 2);
    assert_eq!(first.param_count, 1);
    assert_eq!(first.loop_depth, 0);
    assert_eq!(first.function_name, 0);
    assert_eq!(first.number_reg_count, 2);
    assert_eq!(first.non_ptr_reg_count, 1);
    assert_eq!(first.frame_size, 4);
    assert_eq!(first.read_cache_size, 1);
    assert_eq!(first.write_cache_size, 2);
    assert_eq!(first.private_name_cache_size, 1);
    assert!(first.strict_mode());

    let second = bytecode
        .global_function_header()
        .expect("valid global function header");
    assert_eq!(second.offset, sections.function_bodies_offset() + 2);
    assert_eq!(second.bytecode_size_in_bytes, 2);
    assert_eq!(second.param_count, 2);
    assert_eq!(second.loop_depth, 1);
    assert_eq!(second.function_name, 1);
    assert_eq!(second.number_reg_count, 3);
    assert_eq!(second.non_ptr_reg_count, 2);
    assert_eq!(second.frame_size, 5);
    assert_eq!(second.read_cache_size, 3);
    assert_eq!(second.write_cache_size, 4);
    assert_eq!(second.private_name_cache_size, 0);
    assert!(second.strict_mode());
}

#[test]
fn iterates_function_instructions() {
    let bytes = fixture_bytecode();
    let bytecode = HermesBytecode::parse(&bytes).expect("valid Hermes bytecode");
    let global_body = bytecode
        .global_function_body()
        .expect("valid global function body");

    assert_eq!(global_body.bytes(), &[RET_OPCODE, 0]);
    assert_eq!(bytecode.global_instruction_count(), Ok(1));

    let mut stream = bytecode
        .function_instructions(1)
        .expect("valid instruction stream");
    let mut instructions = Vec::new();
    while let Some(instruction) = stream.next() {
        instructions.push(instruction.expect("valid instructions"));
    }
    assert_eq!(
        instructions,
        vec![HermesInstruction {
            offset: bytecode
                .global_function_header()
                .expect("global header")
                .offset,
            opcode: RET_OPCODE,
            width: 2,
        }],
    );
}

#[test]
fn exposes_zero_copy_section_views() {
    let bytes = fixture_bytecode();
    let bytecode = HermesBytecode::parse(&bytes).expect("valid Hermes bytecode");
    let sections = bytecode.sections();

    assert_eq!(sections.function_headers().offset(), 128);
    assert_eq!(sections.function_headers().len(), 24);
    assert_eq!(sections.string_kinds().len(), 8);
    assert_eq!(sections.identifier_hashes().len(), 4);
    assert_eq!(sections.small_string_table().len(), 8);
    assert_eq!(sections.overflow_string_table().len(), 8);
    assert_eq!(sections.string_storage().bytes(), b"abcdef");
    assert_eq!(sections.literal_value_buffer().bytes(), &[1, 2, 3]);
    assert_eq!(sections.obj_key_buffer().bytes(), &[4, 5, 6, 7, 8]);
    assert_eq!(sections.obj_shape_table().len(), 8);
    assert_eq!(sections.big_int_table().len(), 8);
    assert_eq!(sections.big_int_storage().bytes(), &[9, 10, 11, 12]);
    assert_eq!(sections.reg_exp_table().len(), 8);
    assert_eq!(sections.reg_exp_storage().bytes(), &[13, 14]);
    assert_eq!(sections.cjs_module_table().len(), 16);
    assert_eq!(sections.function_source_table().len(), 8);
}

#[test]
fn rejects_short_buffer() {
    let error = HermesBytecodeHeader::parse(&[0; 16]).expect_err("short header must fail");
    assert_eq!(
        error,
        ParseError::BufferTooSmall {
            actual: 16,
            minimum: HERMES_BYTECODE_HEADER_SIZE,
        },
    );
}

#[test]
fn rejects_non_hermes_magic() {
    let mut bytes = fixture_header();
    bytes[MAGIC_OFFSET] = 0;

    let error = HermesBytecodeHeader::parse(&bytes).expect_err("bad magic must fail");
    assert!(matches!(error, ParseError::MissingMagic { .. }));
}

#[test]
fn rejects_file_length_larger_than_buffer() {
    let mut bytes = fixture_header();
    write_u32(
        &mut bytes,
        FILE_LENGTH_OFFSET,
        HERMES_BYTECODE_HEADER_SIZE as u32 + 1,
    );

    let error = HermesBytecodeHeader::parse(&bytes).expect_err("oversized file must fail");
    assert_eq!(
        error,
        ParseError::FileLengthExceedsBuffer {
            file_length: HERMES_BYTECODE_HEADER_SIZE as u32 + 1,
            buffer_len: HERMES_BYTECODE_HEADER_SIZE,
        },
    );
}

#[test]
fn rejects_section_past_file_length() {
    let mut bytes = fixture_bytecode();
    write_u32(&mut bytes, FILE_LENGTH_OFFSET, 144);

    let error = HermesBytecode::parse(&bytes).expect_err("truncated section layout must fail");
    assert!(matches!(error, ParseError::SectionOutOfBounds { .. }));
}

#[test]
fn rejects_string_kind_runs_that_do_not_cover_all_strings() {
    let mut bytes = fixture_bytecode();
    let string_kinds_offset = HermesBytecode::parse(&bytes)
        .expect("valid fixture")
        .sections()
        .string_kinds()
        .offset() as usize;
    write_u32(&mut bytes, string_kinds_offset, 2);

    let error = HermesBytecode::parse(&bytes).expect_err("invalid string runs must fail");
    assert_eq!(
        error,
        ParseError::InvalidStringKindRunLength {
            string_count: 2,
            run_length: 3,
        },
    );
}

#[test]
fn rejects_string_entries_outside_storage() {
    let mut bytes = fixture_bytecode();
    let small_string_offset = HermesBytecode::parse(&bytes)
        .expect("valid fixture")
        .sections()
        .small_string_table()
        .offset() as usize;
    write_u32(
        &mut bytes,
        small_string_offset,
        small_string_entry(5, 2, false),
    );

    let error = HermesBytecode::parse(&bytes).expect_err("invalid string entry must fail");
    assert_eq!(
        error,
        ParseError::StringTableEntryOutOfBounds {
            string_index: 0,
            offset: 5,
            length: 2,
            storage_size: 6,
        },
    );
}

#[test]
fn rejects_object_shape_entries_outside_key_buffer() {
    let mut bytes = fixture_bytecode();
    let shape_offset = HermesBytecode::parse(&bytes)
        .expect("valid fixture")
        .sections()
        .obj_shape_table()
        .offset() as usize;
    write_u32(&mut bytes, shape_offset, 99);
    write_u32(&mut bytes, shape_offset + 4, 1);

    let error = HermesBytecode::parse(&bytes).expect_err("invalid shape entry must fail");
    assert_eq!(
        error,
        ParseError::InvalidSerializedLiteralBuffer {
            buffer: "obj_key_buffer",
            offset: 99,
            element_count: 1,
            buffer_size: 5,
        },
    );
}

#[test]
fn rejects_invalid_object_literal_shape_reference() {
    let mut bytes = fixture_bytecode();
    let function_body_offset =
        replace_global_body(&mut bytes, &[NEW_OBJECT_WITH_BUFFER_OPCODE, 0, 99, 0, 0, 0]);

    let error = HermesBytecode::parse(&bytes).expect_err("invalid object shape must fail");
    assert_eq!(
        error,
        ParseError::InvalidInstructionTableReference {
            function_id: 1,
            offset: function_body_offset,
            opcode: NEW_OBJECT_WITH_BUFFER_OPCODE,
            table: "object_shape",
            index: 99,
            limit: 1,
        },
    );
}

#[test]
fn rejects_array_literal_value_buffer_outside_storage() {
    let mut bytes = fixture_bytecode();
    replace_global_body(
        &mut bytes,
        &[NEW_ARRAY_WITH_BUFFER_OPCODE, 0, 0, 0, 1, 0, 99, 0],
    );

    let error = HermesBytecode::parse(&bytes).expect_err("invalid array buffer must fail");
    assert_eq!(
        error,
        ParseError::InvalidSerializedLiteralBuffer {
            buffer: "literal_value_buffer",
            offset: 99,
            element_count: 1,
            buffer_size: 3,
        },
    );
}

#[test]
fn accepts_valid_object_literal_buffer_reference() {
    let mut bytes = fixture_bytecode();
    replace_global_body(&mut bytes, &[NEW_OBJECT_WITH_BUFFER_OPCODE, 0, 0, 0, 0, 0]);

    let bytecode = HermesBytecode::parse(&bytes).expect("valid object literal buffer");
    assert_eq!(bytecode.global_instruction_count(), Ok(1));
}

#[test]
fn rejects_bigint_entries_outside_storage() {
    let mut bytes = fixture_bytecode();
    let big_int_offset = HermesBytecode::parse(&bytes)
        .expect("valid fixture")
        .sections()
        .big_int_table()
        .offset() as usize;
    write_u32(&mut bytes, big_int_offset, 2);
    write_u32(&mut bytes, big_int_offset + 4, 3);

    let error = HermesBytecode::parse(&bytes).expect_err("invalid bigint entry must fail");
    assert_eq!(
        error,
        ParseError::StorageTableEntryOutOfBounds {
            section: "big_int_table",
            entry_index: 0,
            offset: 2,
            length: 3,
            storage_size: 4,
        },
    );
}

#[test]
fn rejects_regexp_entries_outside_storage() {
    let mut bytes = fixture_bytecode();
    let reg_exp_offset = HermesBytecode::parse(&bytes)
        .expect("valid fixture")
        .sections()
        .reg_exp_table()
        .offset() as usize;
    write_u32(&mut bytes, reg_exp_offset, 1);
    write_u32(&mut bytes, reg_exp_offset + 4, 2);

    let error = HermesBytecode::parse(&bytes).expect_err("invalid regexp entry must fail");
    assert_eq!(
        error,
        ParseError::StorageTableEntryOutOfBounds {
            section: "reg_exp_table",
            entry_index: 0,
            offset: 1,
            length: 2,
            storage_size: 2,
        },
    );
}

#[test]
fn rejects_function_body_outside_function_region() {
    let mut bytes = fixture_bytecode();
    let (function_headers_offset, function_bodies_offset) = {
        let bytecode = HermesBytecode::parse(&bytes).expect("valid fixture");
        (
            bytecode.sections().function_headers().offset() as usize,
            bytecode.sections().function_bodies_offset(),
        )
    };
    bytes[function_headers_offset..function_headers_offset + SMALL_FUNC_HEADER_SIZE]
        .copy_from_slice(&encode_small_function_header(SmallFunctionHeaderFixture {
            offset: function_bodies_offset - 1,
            bytecode_size_in_bytes: 2,
            param_count: 1,
            loop_depth: 0,
            function_name: 0,
            number_reg_count: 2,
            non_ptr_reg_count: 1,
            frame_size: 4,
            read_cache_size: 1,
            write_cache_size: 2,
            private_name_cache_size: 1,
            flags: 0b0000_0100,
        }));

    let error = HermesBytecode::parse(&bytes).expect_err("invalid function body must fail");
    assert_eq!(
        error,
        ParseError::FunctionBodyOutOfBounds {
            function_id: 0,
            offset: function_bodies_offset - 1,
            size: 2,
            function_bodies_offset,
            limit: function_bodies_offset + 2,
        },
    );
}

#[test]
fn rejects_function_body_that_overlaps_function_info() {
    let mut bytes = fixture_bytecode();
    let (function_headers_offset, function_bodies_offset, debug_info_offset) = {
        let bytecode = HermesBytecode::parse(&bytes).expect("valid fixture");
        (
            bytecode.sections().function_headers().offset() as usize,
            bytecode.sections().function_bodies_offset(),
            bytecode.header().debug_info_offset,
        )
    };
    let large_header_offset = debug_info_offset;
    let insert_offset =
        usize::try_from(large_header_offset).expect("test fixture offset fits in usize");
    bytes.splice(insert_offset..insert_offset, [0; LARGE_FUNC_HEADER_SIZE]);
    let new_debug_info_offset = debug_info_offset + LARGE_FUNC_HEADER_SIZE as u32;
    let new_file_length = u32::try_from(bytes.len()).expect("test fixture length fits in u32");
    write_u32(&mut bytes, DEBUG_INFO_OFFSET_OFFSET, new_debug_info_offset);
    write_u32(&mut bytes, FILE_LENGTH_OFFSET, new_file_length);
    bytes[insert_offset..insert_offset + LARGE_FUNC_HEADER_SIZE].copy_from_slice(
        &encode_large_function_header(SmallFunctionHeaderFixture {
            offset: function_bodies_offset,
            bytecode_size_in_bytes: 2,
            param_count: 1,
            loop_depth: 0,
            function_name: 0,
            number_reg_count: 2,
            non_ptr_reg_count: 1,
            frame_size: 4,
            read_cache_size: 1,
            write_cache_size: 2,
            private_name_cache_size: 1,
            flags: 0b0000_0100,
        }),
    );
    bytes[function_headers_offset..function_headers_offset + SMALL_FUNC_HEADER_SIZE]
        .copy_from_slice(&encode_overflow_function_header(large_header_offset));
    bytes[function_headers_offset + SMALL_FUNC_HEADER_SIZE
        ..function_headers_offset + SMALL_FUNC_HEADER_SIZE * 2]
        .copy_from_slice(&encode_small_function_header(SmallFunctionHeaderFixture {
            offset: function_bodies_offset + 2,
            bytecode_size_in_bytes: LARGE_FUNC_HEADER_SIZE as u32,
            param_count: 2,
            loop_depth: 1,
            function_name: 1,
            number_reg_count: 3,
            non_ptr_reg_count: 2,
            frame_size: 5,
            read_cache_size: 3,
            write_cache_size: 4,
            private_name_cache_size: 0,
            flags: 0b0000_0100,
        }));

    let error = HermesBytecode::parse(&bytes)
        .expect_err("function body overlapping function info must fail");
    assert_eq!(
        error,
        ParseError::FunctionBodyOutOfBounds {
            function_id: 1,
            offset: function_bodies_offset + 2,
            size: LARGE_FUNC_HEADER_SIZE as u32,
            function_bodies_offset,
            limit: large_header_offset,
        },
    );
}

#[test]
fn accepts_valid_exception_handler_table() {
    let mut bytes = fixture_bytecode();
    add_global_exception_info(&mut bytes, 1, &[(0, 2, 0)]);

    let bytecode = HermesBytecode::parse(&bytes).expect("valid exception table");
    assert!(
        bytecode
            .global_function_header()
            .expect("valid global function")
            .has_exception_handler()
    );
}

#[test]
fn rejects_exception_handler_target_between_instructions() {
    let mut bytes = fixture_bytecode();
    add_global_exception_info(&mut bytes, 1, &[(0, 2, 1)]);

    let error = HermesBytecode::parse(&bytes).expect_err("invalid exception target must fail");
    assert_eq!(
        error,
        ParseError::InvalidExceptionHandler {
            function_id: 1,
            entry_index: 0,
            start: 0,
            end: 2,
            target: 1,
            body_size: 2,
        },
    );
}

#[test]
fn rejects_exception_table_outside_function_info() {
    let mut bytes = fixture_bytecode();
    let info_offset = add_global_exception_info(&mut bytes, 2, &[(0, 2, 0)]);

    let error = HermesBytecode::parse(&bytes).expect_err("short exception table must fail");
    assert_eq!(
        error,
        ParseError::FunctionInfoOutOfBounds {
            function_id: 1,
            offset: info_offset
                + LARGE_FUNC_HEADER_SIZE as u32
                + EXCEPTION_HANDLER_TABLE_HEADER_SIZE as u32,
            size: 2 * EXCEPTION_HANDLER_ENTRY_SIZE as u32,
            limit: info_offset
                + LARGE_FUNC_HEADER_SIZE as u32
                + EXCEPTION_HANDLER_TABLE_HEADER_SIZE as u32
                + EXCEPTION_HANDLER_ENTRY_SIZE as u32,
        },
    );
}

#[test]
fn accepts_debug_offsets_without_source_locations() {
    let mut bytes = fixture_bytecode();
    add_global_debug_offsets(&mut bytes, DEBUG_OFFSETS_NO_OFFSET);

    let bytecode = HermesBytecode::parse(&bytes).expect("valid debug offsets");
    assert!(
        bytecode
            .global_function_header()
            .expect("valid global function")
            .has_debug_info()
    );
}

#[test]
fn accepts_valid_debug_source_locations() {
    let mut bytes = fixture_bytecode();
    set_debug_data(&mut bytes, &debug_source_stream(1, 0));
    add_global_debug_offsets(&mut bytes, 0);

    let bytecode = HermesBytecode::parse(&bytes).expect("valid debug source locations");
    assert!(
        bytecode
            .global_function_header()
            .expect("valid global function")
            .has_debug_info()
    );
}

#[test]
fn accepts_debug_source_location_delta() {
    let mut bytes = fixture_bytecode();
    set_debug_data(
        &mut bytes,
        &debug_source_stream_with_location_delta(1, 0, 1, 1),
    );
    add_global_debug_offsets(&mut bytes, 0);

    HermesBytecode::parse(&bytes).expect("valid debug source location delta");
}

#[test]
fn accepts_debug_filename_table_and_file_region() {
    let mut bytes = fixture_bytecode();
    set_debug_info(
        &mut bytes,
        &[(0, 8, false)],
        b"file.js\0",
        &[(0, 0, DEBUG_SOURCE_MAPPING_URL_INVALID)],
        &debug_source_stream(1, 0),
    );
    add_global_debug_offsets(&mut bytes, 0);

    let bytecode = HermesBytecode::parse(&bytes).expect("valid debug file regions");
    assert!(
        bytecode
            .global_function_header()
            .expect("valid global function")
            .has_debug_info()
    );
}

#[test]
fn accepts_utf16_debug_filename_entry() {
    let mut bytes = fixture_bytecode();
    set_debug_info(&mut bytes, &[(0, 1, true)], &[0, 0], &[], &[]);

    HermesBytecode::parse(&bytes).expect("valid UTF-16 debug filename entry");
}

#[test]
fn accepts_debug_file_region_source_mapping_url() {
    let mut bytes = fixture_bytecode();
    set_debug_info(
        &mut bytes,
        &[(0, 1, false), (1, 1, false)],
        b"am",
        &[(0, 0, 1)],
        &[0],
    );

    HermesBytecode::parse(&bytes).expect("valid source map URL file region");
}

#[test]
fn accepts_ordered_debug_file_regions() {
    let mut bytes = fixture_bytecode();
    set_debug_info(
        &mut bytes,
        &[(0, 1, false), (1, 1, false)],
        b"ab",
        &[(0, 0, 0), (1, 1, 0)],
        &[0, 0],
    );

    HermesBytecode::parse(&bytes).expect("ordered debug file regions");
}

#[test]
fn accepts_exception_table_with_debug_offsets() {
    let mut bytes = fixture_bytecode();
    add_global_function_info(
        &mut bytes,
        Some((1, &[(0, 2, 0)])),
        Some(DEBUG_OFFSETS_NO_OFFSET),
    );

    let bytecode = HermesBytecode::parse(&bytes).expect("valid function info");
    let global = bytecode
        .global_function_header()
        .expect("valid global function");
    assert!(global.has_exception_handler());
    assert!(global.has_debug_info());
}

#[test]
fn rejects_debug_filename_outside_storage() {
    let mut bytes = fixture_bytecode();
    set_debug_info(&mut bytes, &[(1, 3, false)], b"abc", &[], &[]);

    let error = HermesBytecode::parse(&bytes).expect_err("invalid debug filename must fail");
    assert_eq!(
        error,
        ParseError::DebugFilenameOutOfBounds {
            filename_index: 0,
            offset: 1,
            length: 3,
            storage_size: 3,
        },
    );
}

#[test]
fn rejects_debug_file_region_filename_outside_table() {
    let mut bytes = fixture_bytecode();
    set_debug_info(&mut bytes, &[(0, 1, false)], b"a", &[(0, 1, 0)], &[0]);

    let error = HermesBytecode::parse(&bytes).expect_err("invalid filename id must fail");
    assert_eq!(
        error,
        ParseError::InvalidDebugFileRegion {
            region_index: 0,
            from_address: 0,
            filename_id: 1,
            source_mapping_url_id: 0,
            filename_count: 1,
            debug_data_size: 1,
        },
    );
}

#[test]
fn rejects_debug_file_region_source_mapping_url_outside_table() {
    let mut bytes = fixture_bytecode();
    set_debug_info(&mut bytes, &[(0, 1, false)], b"a", &[(0, 0, 1)], &[0]);

    let error = HermesBytecode::parse(&bytes).expect_err("invalid source map URL id must fail");
    assert_eq!(
        error,
        ParseError::InvalidDebugFileRegion {
            region_index: 0,
            from_address: 0,
            filename_id: 0,
            source_mapping_url_id: 1,
            filename_count: 1,
            debug_data_size: 1,
        },
    );
}

#[test]
fn rejects_debug_file_region_outside_debug_data() {
    let mut bytes = fixture_bytecode();
    set_debug_info(&mut bytes, &[(0, 1, false)], b"a", &[(1, 0, 0)], &[0]);

    let error = HermesBytecode::parse(&bytes).expect_err("invalid file region must fail");
    assert_eq!(
        error,
        ParseError::InvalidDebugFileRegion {
            region_index: 0,
            from_address: 1,
            filename_id: 0,
            source_mapping_url_id: 0,
            filename_count: 1,
            debug_data_size: 1,
        },
    );
}

#[test]
fn rejects_unsorted_debug_file_regions() {
    let mut bytes = fixture_bytecode();
    set_debug_info(
        &mut bytes,
        &[(0, 1, false), (1, 1, false)],
        b"ab",
        &[(1, 1, 0), (0, 0, 0)],
        &[0, 0],
    );

    let error = HermesBytecode::parse(&bytes).expect_err("unsorted file regions must fail");
    assert_eq!(
        error,
        ParseError::InvalidDebugFileRegionOrder {
            region_index: 1,
            previous_from_address: 1,
            from_address: 0,
        },
    );
}

#[test]
fn rejects_debug_source_locations_for_wrong_function() {
    let mut bytes = fixture_bytecode();
    set_debug_data(&mut bytes, &debug_source_stream(0, 0));
    add_global_debug_offsets(&mut bytes, 0);

    let error = HermesBytecode::parse(&bytes).expect_err("wrong debug function id must fail");
    assert_eq!(
        error,
        ParseError::InvalidDebugData {
            function_id: 1,
            offset: 0,
            reason: DEBUG_DATA_FUNCTION_MISMATCH,
        },
    );
}

#[test]
fn rejects_unterminated_debug_source_locations() {
    let mut bytes = fixture_bytecode();
    set_debug_data(&mut bytes, &debug_source_stream_without_sentinel(1));
    add_global_debug_offsets(&mut bytes, 0);

    let error = HermesBytecode::parse(&bytes).expect_err("unterminated debug source must fail");
    assert_eq!(
        error,
        ParseError::InvalidDebugData {
            function_id: 1,
            offset: 4,
            reason: DEBUG_DATA_TRUNCATED_LEB,
        },
    );
}

#[test]
fn rejects_debug_source_location_zero_column() {
    let mut bytes = fixture_bytecode();
    set_debug_data(
        &mut bytes,
        &debug_source_stream_with_location_delta(1, 0, 0, -1),
    );
    add_global_debug_offsets(&mut bytes, 0);

    let error = HermesBytecode::parse(&bytes).expect_err("zero column location must fail");
    assert_eq!(
        error,
        ParseError::InvalidDebugData {
            function_id: 1,
            offset: 5,
            reason: DEBUG_DATA_LOCATION_NOT_ONE_BASED,
        },
    );
}

#[test]
fn rejects_debug_source_address_outside_body() {
    let mut bytes = fixture_bytecode();
    set_debug_data(&mut bytes, &debug_source_stream(1, 3));
    add_global_debug_offsets(&mut bytes, 0);

    let error = HermesBytecode::parse(&bytes).expect_err("invalid debug address must fail");
    assert_eq!(
        error,
        ParseError::InvalidDebugData {
            function_id: 1,
            offset: 4,
            reason: DEBUG_DATA_ADDRESS_OUT_OF_BOUNDS,
        },
    );
}

#[test]
fn rejects_debug_source_address_between_instructions() {
    let mut bytes = fixture_bytecode();
    set_debug_data(&mut bytes, &debug_source_stream(1, 1));
    add_global_debug_offsets(&mut bytes, 0);

    let error =
        HermesBytecode::parse(&bytes).expect_err("non-boundary debug address must fail");
    assert_eq!(
        error,
        ParseError::InvalidDebugData {
            function_id: 1,
            offset: 4,
            reason: DEBUG_DATA_ADDRESS_NOT_BOUNDARY,
        },
    );
}

#[test]
fn rejects_debug_offset_outside_debug_data() {
    let mut bytes = fixture_bytecode();
    add_global_debug_offsets(&mut bytes, 0);

    let error = HermesBytecode::parse(&bytes).expect_err("invalid debug offset must fail");
    assert_eq!(
        error,
        ParseError::InvalidDebugOffset {
            function_id: 1,
            source_locations: 0,
            debug_data_size: 0,
        },
    );
}

#[test]
fn rejects_debug_info_section_outside_footer() {
    let mut bytes = fixture_bytecode();
    let (debug_info_offset, file_length) = {
        let bytecode = HermesBytecode::parse(&bytes).expect("valid fixture");
        (
            bytecode.header().debug_info_offset,
            bytecode.header().file_length,
        )
    };
    write_u32(&mut bytes, DEBUG_INFO_OFFSET_OFFSET, debug_info_offset + 8);

    let error = HermesBytecode::parse(&bytes).expect_err("short debug info must fail");
    assert_eq!(
        error,
        ParseError::DebugInfoOutOfBounds {
            offset: debug_info_offset + 8,
            size: DEBUG_INFO_HEADER_SIZE as u32,
            limit: file_length - HERMES_BYTECODE_FOOTER_SIZE as u32,
        },
    );
}

#[test]
fn rejects_missing_function_info_for_exception_flag() {
    let mut bytes = fixture_bytecode();
    let (function_headers_offset, function_body_offset) = {
        let bytecode = HermesBytecode::parse(&bytes).expect("valid fixture");
        (
            bytecode.sections().function_headers().offset() as usize,
            bytecode
                .function_body(0)
                .expect("valid function body")
                .offset(),
        )
    };
    bytes[function_headers_offset..function_headers_offset + SMALL_FUNC_HEADER_SIZE]
        .copy_from_slice(&encode_small_function_header(SmallFunctionHeaderFixture {
            offset: function_body_offset,
            bytecode_size_in_bytes: 2,
            param_count: 1,
            loop_depth: 0,
            function_name: 0,
            number_reg_count: 2,
            non_ptr_reg_count: 1,
            frame_size: 4,
            read_cache_size: 1,
            write_cache_size: 2,
            private_name_cache_size: 1,
            flags: 0b0000_1100,
        }));

    let error = HermesBytecode::parse(&bytes).expect_err("missing function info must fail");
    assert_eq!(error, ParseError::MissingFunctionInfo { function_id: 0 });
}

#[test]
fn rejects_invalid_opcode_in_function_body() {
    let mut bytes = fixture_bytecode();
    let function_body_offset = HermesBytecode::parse(&bytes)
        .expect("valid fixture")
        .function_body(0)
        .expect("valid function body")
        .offset() as usize;
    bytes[function_body_offset] = 0xff;

    let error = HermesBytecode::parse(&bytes).expect_err("invalid opcode must fail");
    assert_eq!(
        error,
        ParseError::InvalidOpcode {
            function_id: 0,
            offset: function_body_offset as u32,
            opcode: 0xff,
        },
    );
}

#[test]
fn rejects_invalid_string_operand_reference() {
    let mut bytes = fixture_bytecode();
    let function_body_offset =
        replace_global_body(&mut bytes, &[LOAD_CONST_STRING_OPCODE, 0, 99, 0]);

    let error = HermesBytecode::parse(&bytes).expect_err("invalid string operand must fail");
    assert_eq!(
        error,
        ParseError::InvalidInstructionTableReference {
            function_id: 1,
            offset: function_body_offset,
            opcode: LOAD_CONST_STRING_OPCODE,
            table: "string",
            index: 99,
            limit: 2,
        },
    );
}

#[test]
fn rejects_invalid_function_operand_reference() {
    let mut bytes = fixture_bytecode();
    let function_body_offset =
        replace_global_body(&mut bytes, &[CREATE_CLOSURE_OPCODE, 0, 0, 99, 0]);

    let error = HermesBytecode::parse(&bytes).expect_err("invalid function operand must fail");
    assert_eq!(
        error,
        ParseError::InvalidInstructionTableReference {
            function_id: 1,
            offset: function_body_offset,
            opcode: CREATE_CLOSURE_OPCODE,
            table: "function",
            index: 99,
            limit: 2,
        },
    );
}

#[test]
fn rejects_invalid_bigint_operand_reference() {
    let mut bytes = fixture_bytecode();
    let function_body_offset =
        replace_global_body(&mut bytes, &[LOAD_CONST_BIGINT_OPCODE, 0, 99, 0]);

    let error = HermesBytecode::parse(&bytes).expect_err("invalid bigint operand must fail");
    assert_eq!(
        error,
        ParseError::InvalidInstructionTableReference {
            function_id: 1,
            offset: function_body_offset,
            opcode: LOAD_CONST_BIGINT_OPCODE,
            table: "bigint",
            index: 99,
            limit: 1,
        },
    );
}

#[test]
fn rejects_jump_target_between_instructions() {
    let mut bytes = fixture_bytecode();
    let function_body_offset = replace_global_body(&mut bytes, &[JMP_OPCODE, 1]);

    let error = HermesBytecode::parse(&bytes).expect_err("invalid jump target must fail");
    assert_eq!(
        error,
        ParseError::InvalidJumpTarget {
            function_id: 1,
            offset: function_body_offset,
            opcode: JMP_OPCODE,
            target: i64::from(function_body_offset + 1),
            body_start: function_body_offset,
            body_end: function_body_offset + 2,
        },
    );
}

#[test]
fn accepts_valid_uint_switch_table_target() {
    let mut bytes = fixture_bytecode();
    let mut body = [0; 18];
    body[0] = UINT_SWITCH_IMM_OPCODE;
    body[2..6].copy_from_slice(&18_u32.to_le_bytes());
    body[6..10].copy_from_slice(&0_i32.to_le_bytes());
    body[10..14].copy_from_slice(&0_u32.to_le_bytes());
    body[14..18].copy_from_slice(&0_u32.to_le_bytes());

    replace_global_body_with_payload(&mut bytes, &body, &0_i32.to_le_bytes());

    let bytecode = HermesBytecode::parse(&bytes).expect("valid switch table target");
    assert_eq!(bytecode.global_instruction_count(), Ok(1));
}

#[test]
fn rejects_switch_table_target_between_instructions() {
    let mut bytes = fixture_bytecode();
    let mut body = [0; 18];
    body[0] = UINT_SWITCH_IMM_OPCODE;
    body[2..6].copy_from_slice(&18_u32.to_le_bytes());
    body[6..10].copy_from_slice(&0_i32.to_le_bytes());
    body[10..14].copy_from_slice(&0_u32.to_le_bytes());
    body[14..18].copy_from_slice(&0_u32.to_le_bytes());
    let function_body_offset =
        replace_global_body_with_payload(&mut bytes, &body, &1_i32.to_le_bytes()).0;

    let error = HermesBytecode::parse(&bytes).expect_err("invalid switch target must fail");
    assert_eq!(
        error,
        ParseError::InvalidSwitchTableTarget {
            function_id: 1,
            offset: function_body_offset,
            opcode: UINT_SWITCH_IMM_OPCODE,
            entry_index: 0,
            target: i64::from(function_body_offset + 1),
            body_start: function_body_offset,
            body_end: function_body_offset + 18,
        },
    );
}

#[test]
fn rejects_string_switch_table_string_reference() {
    let mut bytes = fixture_bytecode();
    write_u32(&mut bytes, NUM_STRING_SWITCH_IMMS_OFFSET, 1);
    let mut body = [0; 18];
    body[0] = STRING_SWITCH_IMM_OPCODE;
    body[2..6].copy_from_slice(&0_u32.to_le_bytes());
    body[6..10].copy_from_slice(&18_u32.to_le_bytes());
    body[10..14].copy_from_slice(&0_i32.to_le_bytes());
    body[14..18].copy_from_slice(&1_u32.to_le_bytes());
    let function_body_offset =
        replace_global_body_with_payload(&mut bytes, &body, &[99, 0, 0, 0, 0, 0, 0, 0]).0;

    let error =
        HermesBytecode::parse(&bytes).expect_err("invalid string switch label must fail");
    assert_eq!(
        error,
        ParseError::InvalidInstructionTableReference {
            function_id: 1,
            offset: function_body_offset,
            opcode: STRING_SWITCH_IMM_OPCODE,
            table: "string",
            index: 99,
            limit: 2,
        },
    );
}

#[test]
fn rejects_instruction_that_exceeds_function_body() {
    let mut bytes = fixture_bytecode();
    let (function_body_offset, function_body_end) = {
        let body = HermesBytecode::parse(&bytes)
            .expect("valid fixture")
            .function_body(0)
            .expect("valid function body");
        (body.offset() as usize, body.offset() + body.len())
    };
    bytes[function_body_offset] = LOAD_CONST_DOUBLE_OPCODE;

    let error = HermesBytecode::parse(&bytes).expect_err("wide instruction must fail");
    assert_eq!(
        error,
        ParseError::InstructionOutOfBounds {
            function_id: 0,
            offset: function_body_offset as u32,
            opcode: LOAD_CONST_DOUBLE_OPCODE,
            width: 10,
            body_end: function_body_end,
        },
    );
}

#[test]
fn rejects_large_function_header_outside_file() {
    let mut bytes = fixture_bytecode();
    let (function_headers_offset, invalid_large_header_offset, file_length) = {
        let bytecode = HermesBytecode::parse(&bytes).expect("valid fixture");
        (
            bytecode.sections().function_headers().offset() as usize,
            bytecode.header().file_length - 1,
            bytecode.header().file_length,
        )
    };
    bytes[function_headers_offset..function_headers_offset + SMALL_FUNC_HEADER_SIZE]
        .copy_from_slice(&encode_overflow_function_header(
            invalid_large_header_offset,
        ));

    let error =
        HermesBytecode::parse(&bytes).expect_err("invalid large function header must fail");
    assert_eq!(
        error,
        ParseError::LargeFunctionHeaderOutOfBounds {
            function_id: 0,
            offset: invalid_large_header_offset,
            file_length,
        },
    );
}

#[test]
fn rejects_invalid_cjs_module_entry() {
    let mut bytes = fixture_bytecode();
    let cjs_module_table_offset = HermesBytecode::parse(&bytes)
        .expect("valid fixture")
        .sections()
        .cjs_module_table()
        .offset() as usize;
    write_u32(&mut bytes, cjs_module_table_offset + size_of::<u32>(), 99);

    let error = HermesBytecode::parse(&bytes).expect_err("invalid CJS entry must fail");
    assert_eq!(
        error,
        ParseError::InvalidCjsModuleEntry {
            entry_index: 0,
            first: 0,
            second: 99,
            statically_resolved: false,
        },
    );
}

#[test]
fn rejects_invalid_function_source_entry() {
    let mut bytes = fixture_bytecode();
    let function_source_table_offset = HermesBytecode::parse(&bytes)
        .expect("valid fixture")
        .sections()
        .function_source_table()
        .offset() as usize;
    write_u32(
        &mut bytes,
        function_source_table_offset + size_of::<u32>(),
        99,
    );

    let error = HermesBytecode::parse(&bytes).expect_err("invalid source entry must fail");
    assert_eq!(
        error,
        ParseError::InvalidFunctionSourceEntry {
            entry_index: 0,
            function_id: 1,
            string_id: 99,
        },
    );
}

// Properties of every parsed buffer, checked on the fixture.

#[test]
fn parsed_sections_are_input_slices_in_file_order() {
    let bytes = fixture_bytecode();
    let bytecode = HermesBytecode::parse(&bytes).expect("valid fixture");
    let sections = bytecode.sections();
    let views = [
        sections.function_headers(),
        sections.string_kinds(),
        sections.identifier_hashes(),
        sections.small_string_table(),
        sections.overflow_string_table(),
        sections.string_storage(),
        sections.literal_value_buffer(),
        sections.obj_key_buffer(),
        sections.obj_shape_table(),
        sections.big_int_table(),
        sections.big_int_storage(),
        sections.reg_exp_table(),
        sections.reg_exp_storage(),
        sections.cjs_module_table(),
        sections.function_source_table(),
    ];
    let mut previous_end = HERMES_BYTECODE_HEADER_SIZE as u32;
    for view in views {
        let start = view.offset() as usize;
        assert_eq!(view.bytes(), &bytes[start..start + view.len() as usize]);
        assert!(std::ptr::eq(view.bytes().as_ptr(), bytes[start..].as_ptr()));
        assert_eq!(view.offset() % 4, 0);
        assert!(previous_end <= view.offset());
        assert_eq!(view.is_empty(), view.len() == 0);
        previous_end = view.offset() + view.len();
    }
    assert_eq!(previous_end, sections.function_bodies_offset());
    assert!(
        sections.function_bodies_offset() + HERMES_BYTECODE_FOOTER_SIZE as u32 <= bytecode.header().file_length
    );
}

#[test]
fn undeclared_functions_are_refused_by_every_lookup() {
    let bytes = fixture_bytecode();
    let bytecode = HermesBytecode::parse(&bytes).expect("valid fixture");
    let refused = ParseError::InvalidFunctionIndex { function_id: 2, function_count: 2 };
    assert_eq!(bytecode.function_header(2), Err(refused));
    assert_eq!(bytecode.function_body(2), Err(refused));
    assert_eq!(bytecode.function_instruction_count(2), Err(refused));
    assert!(matches!(bytecode.function_instructions(2), Err(error) if error == refused));
    for function_id in 0..2 {
        let body = bytecode.function_body(function_id).expect("declared function body");
        assert!(body.offset() >= bytecode.sections().function_bodies_offset());
        assert_eq!(bytecode.function_instruction_count(function_id), Ok(1));
    }
}

#[test]
fn instructions_tile_the_function_body() {
    let mut bytes = fixture_bytecode();
    replace_global_body(&mut bytes, &[LOAD_CONST_STRING_OPCODE, 0, 1, 0, CREATE_CLOSURE_OPCODE, 1, 2, 0, 0, RET_OPCODE, 1]);
    let bytecode = HermesBytecode::parse(&bytes).expect("valid closure body");
    let body = bytecode.global_function_body().expect("global body");
    let mut stream = bytecode.global_function_header().map(|_| bytecode.function_instructions(1)).expect("header")
        .expect("stream");
    let mut expected_offset = body.offset();
    let mut count = 0;
    while let Some(instruction) = stream.next() {
        let instruction = instruction.expect("valid instruction");
        assert_eq!(instruction.offset, expected_offset);
        expected_offset += u32::from(instruction.width);
        count += 1;
    }
    assert!(stream.next().is_none());
    assert_eq!(expected_offset, body.offset() + body.len());
    assert_eq!(bytecode.global_instruction_count(), Ok(count));
    assert_eq!(count, 3);
}

#[test]
fn metadata_describes_the_parsed_layout() {
    let bytes = fixture_bytecode();
    let metadata = parse_hbc_metadata(&bytes).expect("valid metadata");
    let bytecode = HermesBytecode::parse(&bytes).expect("valid fixture");
    let sections = bytecode.sections();
    assert_eq!(metadata.function_headers_offset, 128);
    assert_eq!(metadata.function_headers_size, 12 * metadata.function_count);
    assert_eq!(metadata.string_kinds_offset, sections.string_kinds().offset());
    assert_eq!(metadata.identifier_hashes_offset, sections.identifier_hashes().offset());
    assert_eq!(metadata.small_string_table_offset, sections.small_string_table().offset());
    assert_eq!(metadata.overflow_string_table_offset, sections.overflow_string_table().offset());
    assert_eq!(metadata.string_storage_offset, sections.string_storage().offset());
    assert_eq!(metadata.cjs_module_table_offset, sections.cjs_module_table().offset());
    assert!(metadata.function_source_table_offset + metadata.function_source_table_size <= metadata.function_bodies_offset);
    assert!(metadata.global_function_offset + metadata.global_function_size + 20 <= metadata.file_length);
    assert_eq!(metadata.debug_info_offset, bytecode.header().debug_info_offset);
}

#[test]
fn metadata_errors_reach_the_android_host_as_text() {
    let error = iris::android::parse_hbc_metadata(&[0; 16]).expect_err("short buffer must fail");
    assert_eq!(error, "Hermes bytecode header requires at least 128 bytes, got 16");
    let bytes = fixture_bytecode();
    assert_eq!(iris::android::parse_hbc_metadata(&bytes), Ok(parse_hbc_metadata(&bytes).expect("valid")));
}

#[test]
fn header_parse_agrees_with_bytecode_parse() {
    let bytes = fixture_bytecode();
    let header = HermesBytecodeHeader::parse(&bytes).expect("valid header");
    let bytecode = HermesBytecode::parse(&bytes).expect("valid fixture");
    assert_eq!(bytecode.header(), header);
    assert_eq!(header.options.flags(), bytes[OPTIONS_OFFSET]);
    assert!(header.identifier_count <= header.string_count);
    assert!(header.global_code_index < header.function_count);
}

#[test]
fn options_expose_their_flag_bits() {
    let header = HermesBytecodeHeader::parse(&fixture_header()).expect("valid header");
    assert_eq!(header.options.flags(), 0b0000_0011);
    assert!(header.options.static_builtins());
    assert!(header.options.cjs_modules_statically_resolved());
    let options = iris::hbc::BytecodeOptions::from_flags(0b0000_0010);
    assert_eq!(options.flags(), 0b0000_0010);
    assert!(!options.static_builtins());
    assert!(options.cjs_modules_statically_resolved());
}

#[test]
fn finds_closure_creation_sites() {
    let mut bytes = fixture_bytecode();
    let body_offset = replace_global_body(&mut bytes, &[CREATE_CLOSURE_OPCODE, 3, 4, 0, 0, RET_OPCODE, 3]);
    let bytecode = HermesBytecode::parse(&bytes).expect("valid closure body");
    let sites = iris::hbc::closures::find_closure_sites(bytecode, 0);
    assert_eq!(
        sites,
        vec![iris::hbc::closures::ClosureSite {
            function_id: 1,
            offset: body_offset,
            opcode: CREATE_CLOSURE_OPCODE,
            destination: 3,
            environment: 4,
        }],
    );
    assert!(iris::hbc::closures::find_closure_sites(bytecode, 1).is_empty());
}

// Error values that the fixture edits above do not reach.

#[test]
fn rejects_identifier_count_above_string_count() {
    let mut bytes = fixture_bytecode();
    write_u32(&mut bytes, IDENTIFIER_COUNT_OFFSET, 3);
    let error = HermesBytecode::parse(&bytes).expect_err("identifier count must not exceed string count");
    assert_eq!(error, ParseError::InvalidHeaderCount { field: "identifier_count", value: 3, limit: 2 });
}

#[test]
fn rejects_global_code_index_outside_function_table() {
    let mut bytes = fixture_bytecode();
    write_u32(&mut bytes, GLOBAL_CODE_INDEX_OFFSET, 2);
    let error = HermesBytecode::parse(&bytes).expect_err("global function must be declared");
    assert_eq!(error, ParseError::InvalidHeaderCount { field: "global_code_index", value: 2, limit: 1 });
}

#[test]
fn rejects_overflow_string_index_outside_table() {
    let mut bytes = fixture_bytecode();
    let small_string_offset =
        HermesBytecode::parse(&bytes).expect("valid fixture").sections().small_string_table().offset() as usize;
    write_u32(&mut bytes, small_string_offset + 4, small_string_entry(1, 0xff, false));
    let error = HermesBytecode::parse(&bytes).expect_err("overflow index must be in range");
    assert_eq!(
        error,
        ParseError::InvalidOverflowStringIndex { string_index: 1, overflow_index: 1, overflow_count: 1 },
    );
}

fn empty_bytecode(file_length: u32) -> Vec<u8> {
    let mut bytes = vec![0; file_length as usize];
    bytes[MAGIC_OFFSET..MAGIC_OFFSET + size_of::<u64>()].copy_from_slice(&HERMES_BYTECODE_MAGIC.to_le_bytes());
    write_u32(&mut bytes, FILE_LENGTH_OFFSET, file_length);
    bytes
}

#[test]
fn rejects_sections_that_leave_no_footer() {
    let bytes = empty_bytecode(140);
    let error = HermesBytecode::parse(&bytes).expect_err("a footer must follow the sections");
    assert_eq!(error, ParseError::MissingFooter { cursor: 128, file_length: 140, footer_size: 20 });
}

#[test]
fn empty_function_table_has_no_global_function() {
    let bytes = empty_bytecode(148);
    let bytecode = HermesBytecode::parse(&bytes).expect("an empty bytecode file is valid");
    let refused = ParseError::InvalidFunctionIndex { function_id: 0, function_count: 0 };
    assert_eq!(bytecode.global_function_header(), Err(refused));
    assert_eq!(bytecode.global_instruction_count(), Err(refused));
    assert_eq!(parse_hbc_metadata(&bytes), Err(refused));
    assert_eq!(bytecode.sections().function_bodies_offset(), 128);
}

#[test]
fn rejects_boolean_keys_in_object_key_buffer() {
    let error = iris::hbc::literals::validate_serialized_literal_buffer("obj_key_buffer", &[0x11], 0, 1, true, 2)
        .expect_err("keys cannot be booleans");
    assert_eq!(error, ParseError::InvalidSerializedLiteralTag { buffer: "obj_key_buffer", offset: 0, tag: 0x11 });
    assert_eq!(
        error.message(),
        "Hermes bytecode obj_key_buffer has invalid serialized literal tag 0x11 at offset 0",
    );
}

#[test]
fn rejects_serialized_string_reference_outside_string_table() {
    let error = iris::hbc::literals::validate_serialized_literal_buffer(
        "literal_value_buffer",
        &[0x51, 5, 0],
        0,
        1,
        false,
        2,
    )
    .expect_err("string ids must be in range");
    assert_eq!(
        error,
        ParseError::InvalidSerializedLiteralStringReference {
            buffer: "literal_value_buffer",
            offset: 1,
            string_id: 5,
            string_count: 2,
        },
    );
}

// Error messages.

#[test]
fn error_messages_render_numbers_like_the_formatter() {
    let magic = ParseError::MissingMagic { actual: 0 };
    assert_eq!(
        magic.message(),
        format!("Hermes bytecode magic mismatch: expected {HERMES_BYTECODE_MAGIC:#018x}, got {:#018x}", 0_u64),
    );
    assert_eq!(
        magic.message(),
        "Hermes bytecode magic mismatch: expected 0x1f1903c103bc1fc6, got 0x0000000000000000",
    );
    let jump = ParseError::InvalidJumpTarget {
        function_id: 1,
        offset: 200,
        opcode: JMP_OPCODE,
        target: -5,
        body_start: 200,
        body_end: 202,
    };
    assert_eq!(
        jump.message(),
        "Hermes bytecode function 1 instruction opcode 175 at 200 jumps to -5, outside instruction boundaries 200..202",
    );
    let cjs = ParseError::InvalidCjsModuleEntry { entry_index: 0, first: 0, second: 99, statically_resolved: false };
    assert_eq!(
        cjs.message(),
        "Hermes bytecode CJS module entry 0 (0, 99) is invalid; staticallyResolved=false",
    );
    let range = ParseError::InvalidSwitchTableRange {
        function_id: 4294967295,
        offset: 10,
        opcode: 167,
        minimum: 9,
        maximum: 3,
    };
    assert_eq!(
        range.message(),
        "Hermes bytecode function 4294967295 switch opcode 167 at 10 has invalid range 9..=3",
    );
    let debug = ParseError::InvalidDebugData { function_id: 1, offset: 4, reason: DEBUG_DATA_TRUNCATED_LEB };
    assert_eq!(
        debug.message(),
        "Hermes bytecode function 1 debug data at offset 4 is invalid: truncated signed LEB128",
    );
}

#[test]
fn every_error_message_names_the_format_first() {
    let errors = [
        ParseError::BufferTooSmall { actual: 0, minimum: 128 },
        ParseError::MissingFooter { cursor: 1, file_length: 2, footer_size: 20 },
        ParseError::InvalidExceptionHandler { function_id: 0, entry_index: 0, start: 3, end: 1, target: 0, body_size: 2 },
        ParseError::SwitchTableOutOfBounds {
            function_id: 0,
            offset: 0,
            opcode: 167,
            table_start: 8,
            table_size: 16,
            region_limit: 12,
        },
        ParseError::InvalidFunctionSourceEntry { entry_index: 0, function_id: 1, string_id: 99 },
    ];
    for error in errors {
        assert!(error.message().starts_with("Hermes bytecode "));
    }
}

// Signed LEB128 numbers in the debug data.

#[test]
fn reads_signed_leb128_values() {
    assert_eq!(read_signed_leb128(&[0x00], 0, 0, 0), Ok((0, 1)));
    assert_eq!(read_signed_leb128(&[0x3f], 0, 0, 0), Ok((63, 1)));
    assert_eq!(read_signed_leb128(&[0x40], 0, 0, 0), Ok((-64, 1)));
    assert_eq!(read_signed_leb128(&[0x7f], 0, 0, 0), Ok((-1, 1)));
    assert_eq!(read_signed_leb128(&[0x80, 0x01], 0, 0, 0), Ok((128, 2)));
    assert_eq!(read_signed_leb128(&[0xff, 0x7e], 0, 0, 0), Ok((-129, 2)));
    assert_eq!(read_signed_leb128(&[9, 0xe5, 0x8e, 0x26], 1, 0, 0), Ok((624_485, 4)));
    let mut max = vec![0xff; 8];
    max.push(0xff);
    max.push(0x00);
    assert_eq!(read_signed_leb128(&max, 0, 0, 0), Ok((i64::MAX, 10)));
}

#[test]
fn refuses_truncated_and_oversized_signed_leb128() {
    assert_eq!(
        read_signed_leb128(&[0x80], 0, 3, 7),
        Err(ParseError::InvalidDebugData { function_id: 3, offset: 7, reason: DEBUG_DATA_TRUNCATED_LEB }),
    );
    assert_eq!(
        read_signed_leb128(&[0x01], 1, 3, 7),
        Err(ParseError::InvalidDebugData { function_id: 3, offset: 8, reason: DEBUG_DATA_TRUNCATED_LEB }),
    );
    assert_eq!(
        read_signed_leb128(&[0x80; 11], 0, 3, 7),
        Err(ParseError::InvalidDebugData { function_id: 3, offset: 7, reason: DEBUG_DATA_LEB_OVERFLOW }),
    );
    let mut above_max = vec![0xff; 9];
    above_max.push(0x01);
    assert_eq!(
        read_signed_leb128(&above_max, 0, 3, 7),
        Err(ParseError::InvalidDebugData { function_id: 3, offset: 7, reason: DEBUG_DATA_LEB_OVERFLOW }),
    );
}

#[test]
fn debug_offsets_saturate_and_deltas_stay_in_u32() {
    assert_eq!(debug_data_offset(10, 5), 15);
    assert_eq!(debug_data_offset(u32::MAX - 1, 5), u32::MAX);
    assert_eq!(add_debug_u32_delta(5, -2, 1, 9), Ok(3));
    assert_eq!(
        add_debug_u32_delta(0, -1, 1, 9),
        Err(ParseError::InvalidDebugData { function_id: 1, offset: 9, reason: DEBUG_DATA_SOURCE_VALUE_OUT_OF_BOUNDS }),
    );
    assert_eq!(
        add_debug_u32_delta(u32::MAX, 1, 1, 9),
        Err(ParseError::InvalidDebugData { function_id: 1, offset: 9, reason: DEBUG_DATA_SOURCE_VALUE_OUT_OF_BOUNDS }),
    );
}

fn uint_switch_body(table_offset: u32, minimum: u32, maximum: u32) -> [u8; 18] {
    let mut body = [0; 18];
    body[0] = UINT_SWITCH_IMM_OPCODE;
    body[2..6].copy_from_slice(&table_offset.to_le_bytes());
    body[6..10].copy_from_slice(&0_i32.to_le_bytes());
    body[10..14].copy_from_slice(&minimum.to_le_bytes());
    body[14..18].copy_from_slice(&maximum.to_le_bytes());
    body
}

#[test]
fn rejects_switch_table_with_empty_range() {
    let mut bytes = fixture_bytecode();
    let (function_body_offset, _) = replace_global_body_with_payload(&mut bytes, &uint_switch_body(18, 1, 0), &[]);
    let error = HermesBytecode::parse(&bytes).expect_err("maximum below minimum must fail");
    assert_eq!(
        error,
        ParseError::InvalidSwitchTableRange {
            function_id: 1,
            offset: function_body_offset,
            opcode: UINT_SWITCH_IMM_OPCODE,
            minimum: 1,
            maximum: 0,
        },
    );
}

#[test]
fn rejects_switch_table_inside_function_body() {
    let mut bytes = fixture_bytecode();
    let (function_body_offset, region_limit) =
        replace_global_body_with_payload(&mut bytes, &uint_switch_body(2, 0, 0), &[]);
    let error = HermesBytecode::parse(&bytes).expect_err("switch table overlapping code must fail");
    assert_eq!(
        error,
        ParseError::SwitchTableOutOfBounds {
            function_id: 1,
            offset: function_body_offset,
            opcode: UINT_SWITCH_IMM_OPCODE,
            table_start: align_u32(function_body_offset + 2, 4).expect("aligned table start"),
            table_size: 4,
            region_limit,
        },
    );
}

#[test]
fn bytes_past_file_length_change_nothing() {
    let bytes = fixture_bytecode();
    let mut extended = bytes.clone();
    extended.extend_from_slice(&[0xff, 0x00, 0x7f, 0x80, 0x01]);

    let original = HermesBytecode::parse(&bytes).expect("valid fixture");
    let padded = HermesBytecode::parse(&extended).expect("padding after the file is ignored");
    assert_eq!(padded.header(), original.header());
    assert_eq!(padded.sections(), original.sections());
    for function_id in 0..3 {
        assert_eq!(padded.function_header(function_id), original.function_header(function_id));
        assert_eq!(
            padded.function_body(function_id).map(|body| (body.offset(), body.bytes().to_vec())),
            original.function_body(function_id).map(|body| (body.offset(), body.bytes().to_vec())),
        );
        assert_eq!(
            padded.function_instruction_count(function_id),
            original.function_instruction_count(function_id),
        );
    }

    let mut broken = fixture_bytecode();
    let body_offset = original.function_body(0).expect("valid function body").offset() as usize;
    broken[body_offset] = 0xff;
    let mut broken_extended = broken.clone();
    broken_extended.extend_from_slice(&[RET_OPCODE, 0]);
    assert_eq!(
        HermesBytecode::parse(&broken_extended).expect_err("still an invalid opcode"),
        HermesBytecode::parse(&broken).expect_err("invalid opcode"),
    );
}

#[test]
fn instruction_stream_yields_what_the_count_counts() {
    let mut bytes = fixture_bytecode();
    replace_global_body(&mut bytes, &[LOAD_CONST_STRING_OPCODE, 0, 1, 0, CREATE_CLOSURE_OPCODE, 1, 2, 0, 0, RET_OPCODE, 1]);
    let bytecode = HermesBytecode::parse(&bytes).expect("valid closure body");
    let function_count = bytecode.header().function_count;
    for function_id in 0..function_count {
        let mut stream = bytecode.function_instructions(function_id).expect("declared function");
        let mut items = Vec::new();
        while let Some(item) = stream.next() {
            items.push(item);
        }
        assert!(items.iter().all(|item| item.is_ok()));
        assert_eq!(bytecode.function_instruction_count(function_id), Ok(items.len() as u32));
    }
    let refused = ParseError::InvalidFunctionIndex { function_id: function_count, function_count };
    assert_eq!(bytecode.function_instructions(function_count).err(), Some(refused));
    assert_eq!(bytecode.function_instruction_count(function_count), Err(refused));
}

#[test]
fn signed_leb128_reads_back_what_it_encodes() {
    let values = [
        0,
        1,
        -1,
        63,
        64,
        -64,
        -65,
        127,
        128,
        -129,
        624_485,
        -123_456_789,
        i64::from(i32::MAX),
        i64::from(i32::MIN),
        (1 << 62) - 1,
        1 << 62,
        i64::MAX,
        -(1 << 62),
    ];
    for value in values {
        let mut data = Vec::new();
        append_signed_leb128(&mut data, value);
        assert_eq!(read_signed_leb128(&data, 0, 4, 9), Ok((value, data.len())));
        assert_eq!(
            read_signed_leb128(&data[..data.len() - 1], 0, 4, 9),
            Err(ParseError::InvalidDebugData { function_id: 4, offset: 9, reason: DEBUG_DATA_TRUNCATED_LEB }),
        );
    }
    let mut below = Vec::new();
    append_signed_leb128(&mut below, -(1 << 62) - 1);
    assert_eq!(below.len(), 10);
    assert_eq!(
        read_signed_leb128(&below, 0, 4, 9),
        Err(ParseError::InvalidDebugData { function_id: 4, offset: 9, reason: DEBUG_DATA_LEB_OVERFLOW }),
    );
}
