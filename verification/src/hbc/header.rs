//! The fixed-size Hermes bytecode file header.

use vstd::prelude::*;

use crate::hbc::bytes::{le_u32, le_u64, read_u32, read_u64};
use crate::hbc::error::ParseError;

verus! {

/// Hermes bytecode magic value from `BytecodeFileFormat.h`.
pub const HERMES_BYTECODE_MAGIC: u64 = 0x1F19_03C1_03BC_1FC6;

/// Number of bytes in Hermes' packed `BytecodeFileHeader`.
pub const HERMES_BYTECODE_HEADER_SIZE: usize = 128;

/// Number of bytes in Hermes' `BytecodeFileFooter`.
pub const HERMES_BYTECODE_FOOTER_SIZE: usize = 20;

/// Byte alignment used by Hermes bytecode file sections.
pub const HERMES_BYTECODE_ALIGNMENT: usize = 4;

/// Number of opcodes in the Hermes bytecode table mirrored by Iris.
pub const HERMES_OPCODE_COUNT: usize = 220;

/// Number of bytes in the source hash recorded in the header.
pub const HERMES_SOURCE_HASH_SIZE: usize = 20;

pub const MAGIC_OFFSET: usize = 0;
pub const VERSION_OFFSET: usize = 8;
pub const SOURCE_HASH_OFFSET: usize = 12;
pub const FILE_LENGTH_OFFSET: usize = 32;
pub const GLOBAL_CODE_INDEX_OFFSET: usize = 36;
pub const FUNCTION_COUNT_OFFSET: usize = 40;
pub const STRING_KIND_COUNT_OFFSET: usize = 44;
pub const IDENTIFIER_COUNT_OFFSET: usize = 48;
pub const STRING_COUNT_OFFSET: usize = 52;
pub const OVERFLOW_STRING_COUNT_OFFSET: usize = 56;
pub const STRING_STORAGE_SIZE_OFFSET: usize = 60;
pub const BIG_INT_COUNT_OFFSET: usize = 64;
pub const BIG_INT_STORAGE_SIZE_OFFSET: usize = 68;
pub const REG_EXP_COUNT_OFFSET: usize = 72;
pub const REG_EXP_STORAGE_SIZE_OFFSET: usize = 76;
pub const LITERAL_VALUE_BUFFER_SIZE_OFFSET: usize = 80;
pub const OBJ_KEY_BUFFER_SIZE_OFFSET: usize = 84;
pub const OBJ_SHAPE_TABLE_COUNT_OFFSET: usize = 88;
pub const NUM_STRING_SWITCH_IMMS_OFFSET: usize = 92;
pub const SEGMENT_ID_OFFSET: usize = 96;
pub const CJS_MODULE_COUNT_OFFSET: usize = 100;
pub const FUNCTION_SOURCE_COUNT_OFFSET: usize = 104;
pub const DEBUG_INFO_OFFSET_OFFSET: usize = 108;
pub const OPTIONS_OFFSET: usize = 112;

/// Hermes bytecode option flags.
#[derive(Debug, Clone, Copy, PartialEq, Eq)]
pub struct BytecodeOptions {
    flags: u8,
}

impl View for BytecodeOptions {
    type V = u8;

    closed spec fn view(&self) -> u8 {
        self.flags
    }
}

impl BytecodeOptions {
    /// Builds options from the raw Hermes header flag byte.
    pub fn from_flags(flags: u8) -> (options: Self)
        ensures
            options@ == flags,
    {
        BytecodeOptions { flags }
    }

    /// Returns the raw Hermes header flag byte.
    pub fn flags(self) -> (flags: u8)
        ensures
            flags == self@,
    {
        self.flags
    }

    /// Whether static builtins are enabled: bit 0 of the flag byte.
    pub open spec fn spec_static_builtins(self) -> bool {
        self@ & 0b0000_0001 != 0
    }

    /// Whether CommonJS modules are statically resolved: bit 1 of the flag byte.
    pub open spec fn spec_cjs_modules_statically_resolved(self) -> bool {
        self@ & 0b0000_0010 != 0
    }

    /// Returns whether static builtins are enabled.
    pub fn static_builtins(self) -> (enabled: bool)
        ensures
            enabled == self.spec_static_builtins(),
    {
        self.flags & 0b0000_0001 != 0
    }

    /// Returns whether CommonJS modules are statically resolved.
    pub fn cjs_modules_statically_resolved(self) -> (resolved: bool)
        ensures
            resolved == self.spec_cjs_modules_statically_resolved(),
    {
        self.flags & 0b0000_0010 != 0
    }
}

/// Each option is one bit of the flags byte, whatever the other bits hold:
/// static builtins is bit 0 (the byte is odd), and statically resolved
/// CommonJS modules is bit 1 (half the byte, rounded down, is odd).
pub proof fn lemma_options_are_single_bits(options: BytecodeOptions)
    ensures
        options.spec_static_builtins() == (options@ % 2 == 1),
        options.spec_cjs_modules_statically_resolved() == ((options@ / 2) % 2 == 1),
{
    let f = options@;
    assert((f & 0b0000_0001 != 0) == (f % 2 == 1)) by (bit_vector);
    assert((f & 0b0000_0010 != 0) == ((f / 2) % 2 == 1)) by (bit_vector);
}

/// Parsed Hermes bytecode file header.
#[derive(Debug, Clone, Copy, PartialEq, Eq)]
pub struct HermesBytecodeHeader {
    /// Hermes bytecode format version.
    pub version: u32,
    /// SHA-1 hash of the source bytes used by Hermes.
    pub source_hash: [u8; 20],
    /// Declared bytecode file length through the footer.
    pub file_length: u32,
    /// Function index for global code.
    pub global_code_index: u32,
    /// Number of function headers in the bytecode.
    pub function_count: u32,
    /// Number of string kind table entries.
    pub string_kind_count: u32,
    /// Number of strings that are identifiers.
    pub identifier_count: u32,
    /// Number of strings in the string table.
    pub string_count: u32,
    /// Number of overflow string table entries.
    pub overflow_string_count: u32,
    /// Size in bytes of string storage.
    pub string_storage_size: u32,
    /// Number of bigint entries.
    pub big_int_count: u32,
    /// Size in bytes of bigint storage.
    pub big_int_storage_size: u32,
    /// Number of regular expression entries.
    pub reg_exp_count: u32,
    /// Size in bytes of regular expression storage.
    pub reg_exp_storage_size: u32,
    /// Size in bytes of literal value buffers.
    pub literal_value_buffer_size: u32,
    /// Size in bytes of object key buffers.
    pub obj_key_buffer_size: u32,
    /// Number of object shape table entries.
    pub obj_shape_table_count: u32,
    /// Number of string switch immediate entries.
    pub num_string_switch_imms: u32,
    /// Hermes bytecode segment id.
    pub segment_id: u32,
    /// Number of CommonJS modules.
    pub cjs_module_count: u32,
    /// Number of preserved function sources.
    pub function_source_count: u32,
    /// Offset of debug info, or zero when absent.
    pub debug_info_offset: u32,
    /// Bytecode option flags.
    pub options: BytecodeOptions,
}

/// The header fields are the little-endian words of `s` at their documented offsets.
pub open spec fn header_fields(h: HermesBytecodeHeader, s: Seq<u8>) -> bool {
    &&& h.version == le_u32(s, 8)
    &&& h.source_hash@ == s.subrange(12, 32)
    &&& h.file_length == le_u32(s, 32)
    &&& h.global_code_index == le_u32(s, 36)
    &&& h.function_count == le_u32(s, 40)
    &&& h.string_kind_count == le_u32(s, 44)
    &&& h.identifier_count == le_u32(s, 48)
    &&& h.string_count == le_u32(s, 52)
    &&& h.overflow_string_count == le_u32(s, 56)
    &&& h.string_storage_size == le_u32(s, 60)
    &&& h.big_int_count == le_u32(s, 64)
    &&& h.big_int_storage_size == le_u32(s, 68)
    &&& h.reg_exp_count == le_u32(s, 72)
    &&& h.reg_exp_storage_size == le_u32(s, 76)
    &&& h.literal_value_buffer_size == le_u32(s, 80)
    &&& h.obj_key_buffer_size == le_u32(s, 84)
    &&& h.obj_shape_table_count == le_u32(s, 88)
    &&& h.num_string_switch_imms == le_u32(s, 92)
    &&& h.segment_id == le_u32(s, 96)
    &&& h.cjs_module_count == le_u32(s, 100)
    &&& h.function_source_count == le_u32(s, 104)
    &&& h.debug_info_offset == le_u32(s, 108)
    &&& h.options@ == s[112]
}

/// The header whose fields are the little-endian words of `s` at their documented offsets.
pub closed spec fn header_of(s: Seq<u8>) -> HermesBytecodeHeader {
    HermesBytecodeHeader {
        version: le_u32(s, 8),
        source_hash: [s[12], s[13], s[14], s[15], s[16], s[17], s[18], s[19], s[20], s[21], s[22], s[23], s[24], s[25], s[26], s[27], s[28], s[29], s[30], s[31]],
        file_length: le_u32(s, 32),
        global_code_index: le_u32(s, 36),
        function_count: le_u32(s, 40),
        string_kind_count: le_u32(s, 44),
        identifier_count: le_u32(s, 48),
        string_count: le_u32(s, 52),
        overflow_string_count: le_u32(s, 56),
        string_storage_size: le_u32(s, 60),
        big_int_count: le_u32(s, 64),
        big_int_storage_size: le_u32(s, 68),
        reg_exp_count: le_u32(s, 72),
        reg_exp_storage_size: le_u32(s, 76),
        literal_value_buffer_size: le_u32(s, 80),
        obj_key_buffer_size: le_u32(s, 84),
        obj_shape_table_count: le_u32(s, 88),
        num_string_switch_imms: le_u32(s, 92),
        segment_id: le_u32(s, 96),
        cjs_module_count: le_u32(s, 100),
        function_source_count: le_u32(s, 104),
        debug_info_offset: le_u32(s, 108),
        options: BytecodeOptions { flags: s[112] },
    }
}

/// A buffer of a whole header describes `header_of` it.
pub proof fn lemma_header_of(s: Seq<u8>)
    requires
        s.len() >= 128,
    ensures
        header_fields(header_of(s), s),
{
    assert(header_of(s).source_hash@ =~= s.subrange(12, 32));
}

/// The header fields pin the header down: one buffer describes one header.
pub proof fn lemma_header_fields_unique(h1: HermesBytecodeHeader, h2: HermesBytecodeHeader, s: Seq<u8>)
    requires
        header_fields(h1, s),
        header_fields(h2, s),
    ensures
        h1 == h2,
{
    assert(h1.source_hash =~= h2.source_hash) by {
        assert forall|i: int| 0 <= i < 20 implies h1.source_hash[i] == h2.source_hash[i] by {
            assert(h1.source_hash[i] == h1.source_hash@[i]);
            assert(h2.source_hash[i] == h2.source_hash@[i]);
        }
    }
    assert(h1.options == h2.options);
}

/// The header is read from the first 128 bytes alone: two buffers that
/// agree on them have the same header.
pub proof fn lemma_header_of_agrees(s1: Seq<u8>, s2: Seq<u8>)
    requires
        s1.len() >= 128,
        s2.len() >= 128,
        forall|i: int| 0 <= i < 128 ==> s1[i] == s2[i],
    ensures
        header_of(s1) == header_of(s2),
{
    lemma_header_of(s1);
    lemma_header_of(s2);
    assert(s1.subrange(12, 32) =~= s2.subrange(12, 32));
    lemma_header_fields_unique(header_of(s1), header_of(s2), s2);
}

/// The error, if any, that rejects `s` as a Hermes bytecode header.
pub open spec fn header_error(s: Seq<u8>) -> Option<ParseError> {
    if s.len() < 128 {
        Some(ParseError::BufferTooSmall { actual: s.len() as usize, minimum: 128 })
    } else if le_u64(s, 0) != HERMES_BYTECODE_MAGIC {
        Some(ParseError::MissingMagic { actual: le_u64(s, 0) })
    } else if le_u32(s, 32) > s.len() {
        Some(ParseError::FileLengthExceedsBuffer {
            file_length: le_u32(s, 32),
            buffer_len: s.len() as usize,
        })
    } else {
        None
    }
}

impl HermesBytecodeHeader {
    /// Parses a Hermes bytecode file header.
    ///
    /// Fails when the buffer is shorter than the header, does not start with
    /// the Hermes magic value, or declares a file length larger than itself.
    pub fn parse(bytes: &[u8]) -> (result: Result<Self, ParseError>)
        ensures
            header_error(bytes@) matches Some(e) ==> result == Err::<Self, ParseError>(e),
            header_error(bytes@) is None ==> (result matches Ok(h) && header_fields(h, bytes@)),
            header_error(bytes@) is None ==> result == Ok::<Self, ParseError>(header_of(bytes@)),
    {
        let len = bytes.len();
        if len < HERMES_BYTECODE_HEADER_SIZE {
            return Err(ParseError::BufferTooSmall { actual: len, minimum: HERMES_BYTECODE_HEADER_SIZE });
        }
        let magic = read_u64(bytes, MAGIC_OFFSET);
        if magic != HERMES_BYTECODE_MAGIC {
            return Err(ParseError::MissingMagic { actual: magic });
        }
        let file_length = read_u32(bytes, FILE_LENGTH_OFFSET);
        if file_length as usize > len {
            return Err(ParseError::FileLengthExceedsBuffer { file_length, buffer_len: len });
        }

        let mut source_hash = [0u8; 20];
        let mut index: usize = 0;
        while index < HERMES_SOURCE_HASH_SIZE
            invariant
                index <= 20,
                bytes@.len() >= 128,
                forall|j: int| 0 <= j < index ==> source_hash@[j] == bytes@[12 + j],
            decreases 20 - index,
        {
            source_hash[index] = bytes[SOURCE_HASH_OFFSET + index];
            index = index + 1;
        }
        assert(source_hash@ =~= bytes@.subrange(12, 32));

        let header = HermesBytecodeHeader {
            version: read_u32(bytes, VERSION_OFFSET),
            source_hash,
            file_length,
            global_code_index: read_u32(bytes, GLOBAL_CODE_INDEX_OFFSET),
            function_count: read_u32(bytes, FUNCTION_COUNT_OFFSET),
            string_kind_count: read_u32(bytes, STRING_KIND_COUNT_OFFSET),
            identifier_count: read_u32(bytes, IDENTIFIER_COUNT_OFFSET),
            string_count: read_u32(bytes, STRING_COUNT_OFFSET),
            overflow_string_count: read_u32(bytes, OVERFLOW_STRING_COUNT_OFFSET),
            string_storage_size: read_u32(bytes, STRING_STORAGE_SIZE_OFFSET),
            big_int_count: read_u32(bytes, BIG_INT_COUNT_OFFSET),
            big_int_storage_size: read_u32(bytes, BIG_INT_STORAGE_SIZE_OFFSET),
            reg_exp_count: read_u32(bytes, REG_EXP_COUNT_OFFSET),
            reg_exp_storage_size: read_u32(bytes, REG_EXP_STORAGE_SIZE_OFFSET),
            literal_value_buffer_size: read_u32(bytes, LITERAL_VALUE_BUFFER_SIZE_OFFSET),
            obj_key_buffer_size: read_u32(bytes, OBJ_KEY_BUFFER_SIZE_OFFSET),
            obj_shape_table_count: read_u32(bytes, OBJ_SHAPE_TABLE_COUNT_OFFSET),
            num_string_switch_imms: read_u32(bytes, NUM_STRING_SWITCH_IMMS_OFFSET),
            segment_id: read_u32(bytes, SEGMENT_ID_OFFSET),
            cjs_module_count: read_u32(bytes, CJS_MODULE_COUNT_OFFSET),
            function_source_count: read_u32(bytes, FUNCTION_SOURCE_COUNT_OFFSET),
            debug_info_offset: read_u32(bytes, DEBUG_INFO_OFFSET_OFFSET),
            options: BytecodeOptions::from_flags(bytes[OPTIONS_OFFSET]),
        };
        proof {
            lemma_header_of(bytes@);
            lemma_header_fields_unique(header, header_of(bytes@), bytes@);
        }
        Ok(header)
    }
}

} // verus!
