//! The error reported when a Hermes bytecode buffer fails validation.

use vstd::prelude::*;

use crate::hbc::header::HERMES_BYTECODE_MAGIC;
use crate::hbc::text::{
    bool_chars, decimal_chars, hex_chars, push_bool, push_decimal, push_hex, push_signed, signed_decimal_chars,
};

verus! {

/// Error returned when Hermes bytecode metadata cannot be parsed.
#[allow(inconsistent_fields)]
#[derive(Debug, Clone, Copy, PartialEq, Eq)]
pub enum ParseError {
    /// The provided buffer is smaller than a Hermes bytecode header.
    BufferTooSmall {
        /// Actual provided byte count.
        actual: usize,
        /// Minimum required byte count.
        minimum: usize,
    },
    /// The first eight bytes do not match Hermes bytecode magic.
    MissingMagic {
        /// Actual magic value read from the buffer.
        actual: u64,
    },
    /// The header-declared file length exceeds the provided buffer.
    FileLengthExceedsBuffer {
        /// Declared Hermes bytecode file length.
        file_length: u32,
        /// Provided buffer length.
        buffer_len: usize,
    },
    /// Header counts fail basic invariants.
    InvalidHeaderCount {
        /// Field that failed validation.
        field: &'static str,
        /// The invalid field value.
        value: u32,
        /// The related limit.
        limit: u32,
    },
    /// Multiplying a section element count by element size overflowed.
    SectionSizeOverflow {
        /// Section name.
        section: &'static str,
        /// Number of entries in the section.
        count: u32,
        /// Size of each entry in bytes.
        entry_size: usize,
    },
    /// A section would extend beyond the declared bytecode file length.
    SectionOutOfBounds {
        /// Section name.
        section: &'static str,
        /// Section offset in bytes.
        offset: usize,
        /// Section size in bytes.
        size: usize,
        /// Declared bytecode file length.
        file_length: usize,
    },
    /// A section offset cannot be represented in the C++ bridge metadata.
    OffsetExceedsU32 {
        /// Section name.
        section: &'static str,
        /// Section offset in bytes.
        offset: usize,
    },
    /// Section layout ended before Hermes' required file footer.
    MissingFooter {
        /// Offset after the last parsed structured section.
        cursor: usize,
        /// Declared bytecode file length.
        file_length: usize,
        /// Required footer size in bytes.
        footer_size: usize,
    },
    /// String-kind run-length encoding does not cover exactly all strings.
    InvalidStringKindRunLength {
        /// Declared string count.
        string_count: u32,
        /// Count produced by summing the string-kind runs.
        run_length: u32,
    },
    /// A small string table entry points past the overflow string table.
    InvalidOverflowStringIndex {
        /// Index of the string table entry.
        string_index: u32,
        /// Referenced overflow table index.
        overflow_index: u32,
        /// Declared overflow table entry count.
        overflow_count: u32,
    },
    /// A string table entry points outside string storage.
    StringTableEntryOutOfBounds {
        /// Index of the string table entry.
        string_index: u32,
        /// String byte offset in string storage.
        offset: u32,
        /// String byte length.
        length: u32,
        /// Declared string storage byte length.
        storage_size: u32,
    },
    /// A storage-backed table entry points outside its byte storage section.
    StorageTableEntryOutOfBounds {
        /// Table section name.
        section: &'static str,
        /// Table entry index.
        entry_index: u32,
        /// Byte offset into the storage section.
        offset: u32,
        /// Entry byte length.
        length: u32,
        /// Declared storage section byte length.
        storage_size: u32,
    },
    /// A serialized literal buffer reference cannot contain the requested items.
    InvalidSerializedLiteralBuffer {
        /// Buffer section name.
        buffer: &'static str,
        /// Byte offset into the buffer.
        offset: u32,
        /// Number of logical literal entries requested.
        element_count: u32,
        /// Buffer byte length.
        buffer_size: u32,
    },
    /// A serialized literal buffer uses a tag that is invalid for the buffer kind.
    InvalidSerializedLiteralTag {
        /// Buffer section name.
        buffer: &'static str,
        /// Byte offset of the serialized tag.
        offset: u32,
        /// Raw tag byte.
        tag: u8,
    },
    /// A serialized literal buffer references an invalid string id.
    InvalidSerializedLiteralStringReference {
        /// Buffer section name.
        buffer: &'static str,
        /// Byte offset of the serialized string id.
        offset: u32,
        /// Referenced string id.
        string_id: u32,
        /// Declared string table count.
        string_count: u32,
    },
    /// A requested function id is outside the function table.
    InvalidFunctionIndex {
        /// Function id being read.
        function_id: u32,
        /// Declared function count.
        function_count: u32,
    },
    /// A small function header's overflow pointer is outside the bytecode.
    LargeFunctionHeaderOutOfBounds {
        /// Function id whose header overflowed.
        function_id: u32,
        /// File offset of the large function header.
        offset: u32,
        /// Declared bytecode file length.
        file_length: u32,
    },
    /// A function header points to bytecode outside the executable function region.
    FunctionBodyOutOfBounds {
        /// Function id whose body is invalid.
        function_id: u32,
        /// Function bytecode body offset.
        offset: u32,
        /// Function bytecode body size.
        size: u32,
        /// First valid function body offset.
        function_bodies_offset: u32,
        /// Exclusive function body region end offset.
        limit: u32,
    },
    /// A function declares extra metadata but has no function info region.
    MissingFunctionInfo {
        /// Function id whose info region is missing.
        function_id: u32,
    },
    /// A function info table extends outside its allowed region.
    FunctionInfoOutOfBounds {
        /// Function id whose info table is invalid.
        function_id: u32,
        /// Table byte offset.
        offset: u32,
        /// Table byte size.
        size: u32,
        /// Exclusive function info region end offset.
        limit: u32,
    },
    /// The global debug info section extends outside the declared file body.
    DebugInfoOutOfBounds {
        /// Debug info byte offset.
        offset: u32,
        /// Debug info byte size.
        size: u32,
        /// Exclusive debug info section limit before the footer.
        limit: u32,
    },
    /// A debug filename table entry points outside filename storage.
    DebugFilenameOutOfBounds {
        /// Filename table entry index.
        filename_index: u32,
        /// Filename byte offset in debug filename storage.
        offset: u32,
        /// Filename byte length.
        length: u32,
        /// Declared debug filename storage byte length.
        storage_size: u32,
    },
    /// A debug file region references invalid debug data or filename ids.
    InvalidDebugFileRegion {
        /// Debug file region entry index.
        region_index: u32,
        /// Offset into the debug data payload where this region starts.
        from_address: u32,
        /// Referenced debug filename table id.
        filename_id: u32,
        /// Referenced source map URL debug filename table id.
        source_mapping_url_id: u32,
        /// Declared debug filename table entry count.
        filename_count: u32,
        /// Declared debug data byte length.
        debug_data_size: u32,
    },
    /// Debug file regions are not sorted by debug data address.
    InvalidDebugFileRegionOrder {
        /// Debug file region entry index.
        region_index: u32,
        /// Previous file region debug data offset.
        previous_from_address: u32,
        /// Current file region debug data offset.
        from_address: u32,
    },
    /// A function points at debug data outside the global debug data payload.
    InvalidDebugOffset {
        /// Function id whose debug offsets are invalid.
        function_id: u32,
        /// Offset into the global debug data payload.
        source_locations: u32,
        /// Declared global debug data byte length.
        debug_data_size: u32,
    },
    /// A function debug source-location stream is not decodable by Hermes rules.
    InvalidDebugData {
        /// Function id whose debug data is invalid.
        function_id: u32,
        /// Offset into the global debug data payload where validation failed.
        offset: u32,
        /// Static validation failure reason.
        reason: &'static str,
    },
    /// An exception handler entry points outside the function body boundaries.
    InvalidExceptionHandler {
        /// Function id whose exception table is invalid.
        function_id: u32,
        /// Exception table entry index.
        entry_index: u32,
        /// Try range start offset relative to the function bytecode.
        start: u32,
        /// Try range end offset relative to the function bytecode.
        end: u32,
        /// Handler target offset relative to the function bytecode.
        target: u32,
        /// Function bytecode body size.
        body_size: u32,
    },
    /// A function bytecode body contains an opcode not known to this Hermes table.
    InvalidOpcode {
        /// Function id whose instruction stream is invalid.
        function_id: u32,
        /// File offset of the invalid opcode.
        offset: u32,
        /// Raw opcode byte.
        opcode: u8,
    },
    /// An instruction's declared operand width exceeds the function body.
    InstructionOutOfBounds {
        /// Function id whose instruction stream is invalid.
        function_id: u32,
        /// File offset of the opcode.
        offset: u32,
        /// Raw opcode byte.
        opcode: u8,
        /// Instruction width in bytes.
        width: u8,
        /// Exclusive end offset of the function body.
        body_end: u32,
    },
    /// An instruction references an invalid bytecode table entry.
    InvalidInstructionTableReference {
        /// Function id whose instruction stream is invalid.
        function_id: u32,
        /// File offset of the opcode.
        offset: u32,
        /// Raw opcode byte.
        opcode: u8,
        /// Referenced table name.
        table: &'static str,
        /// Referenced table index.
        index: u32,
        /// Declared table entry count.
        limit: u32,
    },
    /// A branch target is outside the function body or not on an instruction boundary.
    InvalidJumpTarget {
        /// Function id whose instruction stream is invalid.
        function_id: u32,
        /// File offset of the opcode.
        offset: u32,
        /// Raw opcode byte.
        opcode: u8,
        /// Computed absolute target offset.
        target: i64,
        /// Function body start offset.
        body_start: u32,
        /// Exclusive function body end offset.
        body_end: u32,
    },
    /// A switch instruction has an invalid table range.
    InvalidSwitchTableRange {
        /// Function id whose instruction stream is invalid.
        function_id: u32,
        /// File offset of the opcode.
        offset: u32,
        /// Raw opcode byte.
        opcode: u8,
        /// Switch minimum value.
        minimum: u32,
        /// Switch maximum value.
        maximum: u32,
    },
    /// A switch instruction references a table outside the function payload.
    SwitchTableOutOfBounds {
        /// Function id whose instruction stream is invalid.
        function_id: u32,
        /// File offset of the opcode.
        offset: u32,
        /// Raw opcode byte.
        opcode: u8,
        /// Absolute switch table start offset.
        table_start: u32,
        /// Switch table size in bytes.
        table_size: u32,
        /// Exclusive function payload end offset.
        region_limit: u32,
    },
    /// A switch table entry references an invalid branch target.
    InvalidSwitchTableTarget {
        /// Function id whose instruction stream is invalid.
        function_id: u32,
        /// File offset of the opcode.
        offset: u32,
        /// Raw opcode byte.
        opcode: u8,
        /// Switch table entry index.
        entry_index: u32,
        /// Computed absolute target offset.
        target: i64,
        /// Function body start offset.
        body_start: u32,
        /// Exclusive function body end offset.
        body_end: u32,
    },
    /// A CommonJS module table entry references an invalid function or string id.
    InvalidCjsModuleEntry {
        /// Table entry index.
        entry_index: u32,
        /// First raw value in the pair.
        first: u32,
        /// Second raw value in the pair.
        second: u32,
        /// Whether this is the statically resolved CJS module table.
        statically_resolved: bool,
    },
    /// A function-source table entry references an invalid function or string id.
    InvalidFunctionSourceEntry {
        /// Table entry index.
        entry_index: u32,
        /// Referenced function id.
        function_id: u32,
        /// Referenced string id.
        string_id: u32,
    },
}

impl ParseError {
    /// The text that describes this error.
    pub open spec fn spec_message(&self) -> Seq<char> {
        match self {
            ParseError::BufferTooSmall { actual, minimum } => "Hermes bytecode header requires at least "@
                + decimal_chars(*minimum as nat)
                + " bytes, got "@
                + decimal_chars(*actual as nat),
            ParseError::MissingMagic { actual } => "Hermes bytecode magic mismatch: expected "@
                + "0x"@
                + hex_chars(HERMES_BYTECODE_MAGIC as nat, 16)
                + ", got "@
                + "0x"@
                + hex_chars(*actual as nat, 16),
            ParseError::FileLengthExceedsBuffer { file_length, buffer_len } => "Hermes bytecode fileLength "@
                + decimal_chars(*file_length as nat)
                + " exceeds provided buffer length "@
                + decimal_chars(*buffer_len as nat),
            ParseError::InvalidHeaderCount { field, value, limit } => "Hermes bytecode header field "@
                + (*field)@
                + " has value "@
                + decimal_chars(*value as nat)
                + ", exceeding limit "@
                + decimal_chars(*limit as nat),
            ParseError::SectionSizeOverflow { section, count, entry_size } => "Hermes bytecode section "@
                + (*section)@
                + " size overflow for "@
                + decimal_chars(*count as nat)
                + " entries of "@
                + decimal_chars(*entry_size as nat)
                + " bytes"@,
            ParseError::SectionOutOfBounds { section, offset, size, file_length } => "Hermes bytecode section "@
                + (*section)@
                + " at "@
                + decimal_chars(*offset as nat)
                + " with size "@
                + decimal_chars(*size as nat)
                + " exceeds fileLength "@
                + decimal_chars(*file_length as nat),
            ParseError::OffsetExceedsU32 { section, offset } => "Hermes bytecode section "@
                + (*section)@
                + " offset "@
                + decimal_chars(*offset as nat)
                + " cannot fit in u32 metadata"@,
            ParseError::MissingFooter { cursor, file_length, footer_size } => "Hermes bytecode sections end at "@
                + decimal_chars(*cursor as nat)
                + ", leaving less than "@
                + decimal_chars(*footer_size as nat)
                + " bytes for footer before fileLength "@
                + decimal_chars(*file_length as nat),
            ParseError::InvalidStringKindRunLength { string_count, run_length } => "Hermes bytecode string-kind runs cover "@
                + decimal_chars(*run_length as nat)
                + " strings, expected "@
                + decimal_chars(*string_count as nat),
            ParseError::InvalidOverflowStringIndex { string_index, overflow_index, overflow_count } => "Hermes bytecode string entry "@
                + decimal_chars(*string_index as nat)
                + " references overflow index "@
                + decimal_chars(*overflow_index as nat)
                + ", but overflow count is "@
                + decimal_chars(*overflow_count as nat),
            ParseError::StringTableEntryOutOfBounds { string_index, offset, length, storage_size } => "Hermes bytecode string entry "@
                + decimal_chars(*string_index as nat)
                + " at offset "@
                + decimal_chars(*offset as nat)
                + " with length "@
                + decimal_chars(*length as nat)
                + " exceeds string storage size "@
                + decimal_chars(*storage_size as nat),
            ParseError::StorageTableEntryOutOfBounds { section, entry_index, offset, length, storage_size } => "Hermes bytecode "@
                + (*section)@
                + " entry "@
                + decimal_chars(*entry_index as nat)
                + " at offset "@
                + decimal_chars(*offset as nat)
                + " with length "@
                + decimal_chars(*length as nat)
                + " exceeds storage size "@
                + decimal_chars(*storage_size as nat),
            ParseError::InvalidSerializedLiteralBuffer { buffer, offset, element_count, buffer_size } => "Hermes bytecode "@
                + (*buffer)@
                + " at offset "@
                + decimal_chars(*offset as nat)
                + " cannot provide "@
                + decimal_chars(*element_count as nat)
                + " serialized literal entries within buffer size "@
                + decimal_chars(*buffer_size as nat),
            ParseError::InvalidSerializedLiteralTag { buffer, offset, tag } => "Hermes bytecode "@
                + (*buffer)@
                + " has invalid serialized literal tag "@
                + "0x"@
                + hex_chars(*tag as nat, 2)
                + " at offset "@
                + decimal_chars(*offset as nat),
            ParseError::InvalidSerializedLiteralStringReference { buffer, offset, string_id, string_count } => "Hermes bytecode "@
                + (*buffer)@
                + " at offset "@
                + decimal_chars(*offset as nat)
                + " references string id "@
                + decimal_chars(*string_id as nat)
                + ", but the string table count is "@
                + decimal_chars(*string_count as nat),
            ParseError::InvalidFunctionIndex { function_id, function_count } => "Hermes bytecode function id "@
                + decimal_chars(*function_id as nat)
                + " exceeds function count "@
                + decimal_chars(*function_count as nat),
            ParseError::LargeFunctionHeaderOutOfBounds { function_id, offset, file_length } => "Hermes bytecode function "@
                + decimal_chars(*function_id as nat)
                + " large header at "@
                + decimal_chars(*offset as nat)
                + " exceeds fileLength "@
                + decimal_chars(*file_length as nat),
            ParseError::FunctionBodyOutOfBounds { function_id, offset, size, function_bodies_offset, limit } => "Hermes bytecode function "@
                + decimal_chars(*function_id as nat)
                + " body at "@
                + decimal_chars(*offset as nat)
                + " with size "@
                + decimal_chars(*size as nat)
                + " is outside function body region "@
                + decimal_chars(*function_bodies_offset as nat)
                + ".."@
                + decimal_chars(*limit as nat),
            ParseError::MissingFunctionInfo { function_id } => "Hermes bytecode function "@
                + decimal_chars(*function_id as nat)
                + " declares function info but has no function info offset"@,
            ParseError::FunctionInfoOutOfBounds { function_id, offset, size, limit } => "Hermes bytecode function "@
                + decimal_chars(*function_id as nat)
                + " info table at "@
                + decimal_chars(*offset as nat)
                + " with size "@
                + decimal_chars(*size as nat)
                + " exceeds function info limit "@
                + decimal_chars(*limit as nat),
            ParseError::DebugInfoOutOfBounds { offset, size, limit } => "Hermes bytecode debug info at "@
                + decimal_chars(*offset as nat)
                + " with size "@
                + decimal_chars(*size as nat)
                + " exceeds debug info limit "@
                + decimal_chars(*limit as nat),
            ParseError::DebugFilenameOutOfBounds { filename_index, offset, length, storage_size } => "Hermes bytecode debug filename "@
                + decimal_chars(*filename_index as nat)
                + " at offset "@
                + decimal_chars(*offset as nat)
                + " with length "@
                + decimal_chars(*length as nat)
                + " exceeds filename storage size "@
                + decimal_chars(*storage_size as nat),
            ParseError::InvalidDebugFileRegion { region_index, from_address, filename_id, source_mapping_url_id, filename_count, debug_data_size } => "Hermes bytecode debug file region "@
                + decimal_chars(*region_index as nat)
                + " at debug data offset "@
                + decimal_chars(*from_address as nat)
                + " references filename "@
                + decimal_chars(*filename_id as nat)
                + " and source map URL "@
                + decimal_chars(*source_mapping_url_id as nat)
                + "; filename count is "@
                + decimal_chars(*filename_count as nat)
                + ", debug data size is "@
                + decimal_chars(*debug_data_size as nat),
            ParseError::InvalidDebugFileRegionOrder { region_index, previous_from_address, from_address } => "Hermes bytecode debug file region "@
                + decimal_chars(*region_index as nat)
                + " starts at "@
                + decimal_chars(*from_address as nat)
                + ", not after previous region start "@
                + decimal_chars(*previous_from_address as nat),
            ParseError::InvalidDebugOffset { function_id, source_locations, debug_data_size } => "Hermes bytecode function "@
                + decimal_chars(*function_id as nat)
                + " debug source locations offset "@
                + decimal_chars(*source_locations as nat)
                + " exceeds debug data size "@
                + decimal_chars(*debug_data_size as nat),
            ParseError::InvalidDebugData { function_id, offset, reason } => "Hermes bytecode function "@
                + decimal_chars(*function_id as nat)
                + " debug data at offset "@
                + decimal_chars(*offset as nat)
                + " is invalid: "@
                + (*reason)@,
            ParseError::InvalidExceptionHandler { function_id, entry_index, start, end, target, body_size } => "Hermes bytecode function "@
                + decimal_chars(*function_id as nat)
                + " exception handler "@
                + decimal_chars(*entry_index as nat)
                + " has range "@
                + decimal_chars(*start as nat)
                + ".."@
                + decimal_chars(*end as nat)
                + " and target "@
                + decimal_chars(*target as nat)
                + ", outside function body size "@
                + decimal_chars(*body_size as nat),
            ParseError::InvalidOpcode { function_id, offset, opcode } => "Hermes bytecode function "@
                + decimal_chars(*function_id as nat)
                + " has invalid opcode "@
                + decimal_chars(*opcode as nat)
                + " at "@
                + decimal_chars(*offset as nat),
            ParseError::InstructionOutOfBounds { function_id, offset, opcode, width, body_end } => "Hermes bytecode function "@
                + decimal_chars(*function_id as nat)
                + " instruction opcode "@
                + decimal_chars(*opcode as nat)
                + " at "@
                + decimal_chars(*offset as nat)
                + " has width "@
                + decimal_chars(*width as nat)
                + ", exceeding function body end "@
                + decimal_chars(*body_end as nat),
            ParseError::InvalidInstructionTableReference { function_id, offset, opcode, table, index, limit } => "Hermes bytecode function "@
                + decimal_chars(*function_id as nat)
                + " instruction opcode "@
                + decimal_chars(*opcode as nat)
                + " at "@
                + decimal_chars(*offset as nat)
                + " references "@
                + (*table)@
                + " table index "@
                + decimal_chars(*index as nat)
                + ", but the table count is "@
                + decimal_chars(*limit as nat),
            ParseError::InvalidJumpTarget { function_id, offset, opcode, target, body_start, body_end } => "Hermes bytecode function "@
                + decimal_chars(*function_id as nat)
                + " instruction opcode "@
                + decimal_chars(*opcode as nat)
                + " at "@
                + decimal_chars(*offset as nat)
                + " jumps to "@
                + signed_decimal_chars(*target as int)
                + ", outside instruction boundaries "@
                + decimal_chars(*body_start as nat)
                + ".."@
                + decimal_chars(*body_end as nat),
            ParseError::InvalidSwitchTableRange { function_id, offset, opcode, minimum, maximum } => "Hermes bytecode function "@
                + decimal_chars(*function_id as nat)
                + " switch opcode "@
                + decimal_chars(*opcode as nat)
                + " at "@
                + decimal_chars(*offset as nat)
                + " has invalid range "@
                + decimal_chars(*minimum as nat)
                + "..="@
                + decimal_chars(*maximum as nat),
            ParseError::SwitchTableOutOfBounds { function_id, offset, opcode, table_start, table_size, region_limit } => "Hermes bytecode function "@
                + decimal_chars(*function_id as nat)
                + " switch opcode "@
                + decimal_chars(*opcode as nat)
                + " at "@
                + decimal_chars(*offset as nat)
                + " has table "@
                + decimal_chars(*table_start as nat)
                + "+"@
                + decimal_chars(*table_size as nat)
                + ", exceeding function payload end "@
                + decimal_chars(*region_limit as nat),
            ParseError::InvalidSwitchTableTarget { function_id, offset, opcode, entry_index, target, body_start, body_end } => "Hermes bytecode function "@
                + decimal_chars(*function_id as nat)
                + " switch opcode "@
                + decimal_chars(*opcode as nat)
                + " at "@
                + decimal_chars(*offset as nat)
                + " table entry "@
                + decimal_chars(*entry_index as nat)
                + " jumps to "@
                + signed_decimal_chars(*target as int)
                + ", outside instruction boundaries "@
                + decimal_chars(*body_start as nat)
                + ".."@
                + decimal_chars(*body_end as nat),
            ParseError::InvalidCjsModuleEntry { entry_index, first, second, statically_resolved } => "Hermes bytecode CJS module entry "@
                + decimal_chars(*entry_index as nat)
                + " ("@
                + decimal_chars(*first as nat)
                + ", "@
                + decimal_chars(*second as nat)
                + ") is invalid; staticallyResolved="@
                + bool_chars(*statically_resolved),
            ParseError::InvalidFunctionSourceEntry { entry_index, function_id, string_id } => "Hermes bytecode function source entry "@
                + decimal_chars(*entry_index as nat)
                + " references function "@
                + decimal_chars(*function_id as nat)
                + " and string "@
                + decimal_chars(*string_id as nat),
        }
    }

    /// Describes this error in one line of text.
    pub fn message(&self) -> (text: String)
        ensures
            text@ == self.spec_message(),
    {
        match self {
            ParseError::BufferTooSmall { actual, minimum } => {
                let mut out = String::from_str("Hermes bytecode header requires at least ");
                push_decimal(&mut out, *minimum as u64);
                out.append(" bytes, got ");
                push_decimal(&mut out, *actual as u64);
                out
            },
            ParseError::MissingMagic { actual } => {
                let mut out = String::from_str("Hermes bytecode magic mismatch: expected ");
                out.append("0x");
                push_hex(&mut out, HERMES_BYTECODE_MAGIC as u64, 16);
                out.append(", got ");
                out.append("0x");
                push_hex(&mut out, *actual as u64, 16);
                out
            },
            ParseError::FileLengthExceedsBuffer { file_length, buffer_len } => {
                let mut out = String::from_str("Hermes bytecode fileLength ");
                push_decimal(&mut out, *file_length as u64);
                out.append(" exceeds provided buffer length ");
                push_decimal(&mut out, *buffer_len as u64);
                out
            },
            ParseError::InvalidHeaderCount { field, value, limit } => {
                let mut out = String::from_str("Hermes bytecode header field ");
                out.append(*field);
                out.append(" has value ");
                push_decimal(&mut out, *value as u64);
                out.append(", exceeding limit ");
                push_decimal(&mut out, *limit as u64);
                out
            },
            ParseError::SectionSizeOverflow { section, count, entry_size } => {
                let mut out = String::from_str("Hermes bytecode section ");
                out.append(*section);
                out.append(" size overflow for ");
                push_decimal(&mut out, *count as u64);
                out.append(" entries of ");
                push_decimal(&mut out, *entry_size as u64);
                out.append(" bytes");
                out
            },
            ParseError::SectionOutOfBounds { section, offset, size, file_length } => {
                let mut out = String::from_str("Hermes bytecode section ");
                out.append(*section);
                out.append(" at ");
                push_decimal(&mut out, *offset as u64);
                out.append(" with size ");
                push_decimal(&mut out, *size as u64);
                out.append(" exceeds fileLength ");
                push_decimal(&mut out, *file_length as u64);
                out
            },
            ParseError::OffsetExceedsU32 { section, offset } => {
                let mut out = String::from_str("Hermes bytecode section ");
                out.append(*section);
                out.append(" offset ");
                push_decimal(&mut out, *offset as u64);
                out.append(" cannot fit in u32 metadata");
                out
            },
            ParseError::MissingFooter { cursor, file_length, footer_size } => {
                let mut out = String::from_str("Hermes bytecode sections end at ");
                push_decimal(&mut out, *cursor as u64);
                out.append(", leaving less than ");
                push_decimal(&mut out, *footer_size as u64);
                out.append(" bytes for footer before fileLength ");
                push_decimal(&mut out, *file_length as u64);
                out
            },
            ParseError::InvalidStringKindRunLength { string_count, run_length } => {
                let mut out = String::from_str("Hermes bytecode string-kind runs cover ");
                push_decimal(&mut out, *run_length as u64);
                out.append(" strings, expected ");
                push_decimal(&mut out, *string_count as u64);
                out
            },
            ParseError::InvalidOverflowStringIndex { string_index, overflow_index, overflow_count } => {
                let mut out = String::from_str("Hermes bytecode string entry ");
                push_decimal(&mut out, *string_index as u64);
                out.append(" references overflow index ");
                push_decimal(&mut out, *overflow_index as u64);
                out.append(", but overflow count is ");
                push_decimal(&mut out, *overflow_count as u64);
                out
            },
            ParseError::StringTableEntryOutOfBounds { string_index, offset, length, storage_size } => {
                let mut out = String::from_str("Hermes bytecode string entry ");
                push_decimal(&mut out, *string_index as u64);
                out.append(" at offset ");
                push_decimal(&mut out, *offset as u64);
                out.append(" with length ");
                push_decimal(&mut out, *length as u64);
                out.append(" exceeds string storage size ");
                push_decimal(&mut out, *storage_size as u64);
                out
            },
            ParseError::StorageTableEntryOutOfBounds { section, entry_index, offset, length, storage_size } => {
                let mut out = String::from_str("Hermes bytecode ");
                out.append(*section);
                out.append(" entry ");
                push_decimal(&mut out, *entry_index as u64);
                out.append(" at offset ");
                push_decimal(&mut out, *offset as u64);
                out.append(" with length ");
                push_decimal(&mut out, *length as u64);
                out.append(" exceeds storage size ");
                push_decimal(&mut out, *storage_size as u64);
                out
            },
            ParseError::InvalidSerializedLiteralBuffer { buffer, offset, element_count, buffer_size } => {
                let mut out = String::from_str("Hermes bytecode ");
                out.append(*buffer);
                out.append(" at offset ");
                push_decimal(&mut out, *offset as u64);
                out.append(" cannot provide ");
                push_decimal(&mut out, *element_count as u64);
                out.append(" serialized literal entries within buffer size ");
                push_decimal(&mut out, *buffer_size as u64);
                out
            },
            ParseError::InvalidSerializedLiteralTag { buffer, offset, tag } => {
                let mut out = String::from_str("Hermes bytecode ");
                out.append(*buffer);
                out.append(" has invalid serialized literal tag ");
                out.append("0x");
                push_hex(&mut out, *tag as u64, 2);
                out.append(" at offset ");
                push_decimal(&mut out, *offset as u64);
                out
            },
            ParseError::InvalidSerializedLiteralStringReference { buffer, offset, string_id, string_count } => {
                let mut out = String::from_str("Hermes bytecode ");
                out.append(*buffer);
                out.append(" at offset ");
                push_decimal(&mut out, *offset as u64);
                out.append(" references string id ");
                push_decimal(&mut out, *string_id as u64);
                out.append(", but the string table count is ");
                push_decimal(&mut out, *string_count as u64);
                out
            },
            ParseError::InvalidFunctionIndex { function_id, function_count } => {
                let mut out = String::from_str("Hermes bytecode function id ");
                push_decimal(&mut out, *function_id as u64);
                out.append(" exceeds function count ");
                push_decimal(&mut out, *function_count as u64);
                out
            },
            ParseError::LargeFunctionHeaderOutOfBounds { function_id, offset, file_length } => {
                let mut out = String::from_str("Hermes bytecode function ");
                push_decimal(&mut out, *function_id as u64);
                out.append(" large header at ");
                push_decimal(&mut out, *offset as u64);
                out.append(" exceeds fileLength ");
                push_decimal(&mut out, *file_length as u64);
                out
            },
            ParseError::FunctionBodyOutOfBounds { function_id, offset, size, function_bodies_offset, limit } => {
                let mut out = String::from_str("Hermes bytecode function ");
                push_decimal(&mut out, *function_id as u64);
                out.append(" body at ");
                push_decimal(&mut out, *offset as u64);
                out.append(" with size ");
                push_decimal(&mut out, *size as u64);
                out.append(" is outside function body region ");
                push_decimal(&mut out, *function_bodies_offset as u64);
                out.append("..");
                push_decimal(&mut out, *limit as u64);
                out
            },
            ParseError::MissingFunctionInfo { function_id } => {
                let mut out = String::from_str("Hermes bytecode function ");
                push_decimal(&mut out, *function_id as u64);
                out.append(" declares function info but has no function info offset");
                out
            },
            ParseError::FunctionInfoOutOfBounds { function_id, offset, size, limit } => {
                let mut out = String::from_str("Hermes bytecode function ");
                push_decimal(&mut out, *function_id as u64);
                out.append(" info table at ");
                push_decimal(&mut out, *offset as u64);
                out.append(" with size ");
                push_decimal(&mut out, *size as u64);
                out.append(" exceeds function info limit ");
                push_decimal(&mut out, *limit as u64);
                out
            },
            ParseError::DebugInfoOutOfBounds { offset, size, limit } => {
                let mut out = String::from_str("Hermes bytecode debug info at ");
                push_decimal(&mut out, *offset as u64);
                out.append(" with size ");
                push_decimal(&mut out, *size as u64);
                out.append(" exceeds debug info limit ");
                push_decimal(&mut out, *limit as u64);
                out
            },
            ParseError::DebugFilenameOutOfBounds { filename_index, offset, length, storage_size } => {
                let mut out = String::from_str("Hermes bytecode debug filename ");
                push_decimal(&mut out, *filename_index as u64);
                out.append(" at offset ");
                push_decimal(&mut out, *offset as u64);
                out.append(" with length ");
                push_decimal(&mut out, *length as u64);
                out.append(" exceeds filename storage size ");
                push_decimal(&mut out, *storage_size as u64);
                out
            },
            ParseError::InvalidDebugFileRegion { region_index, from_address, filename_id, source_mapping_url_id, filename_count, debug_data_size } => {
                let mut out = String::from_str("Hermes bytecode debug file region ");
                push_decimal(&mut out, *region_index as u64);
                out.append(" at debug data offset ");
                push_decimal(&mut out, *from_address as u64);
                out.append(" references filename ");
                push_decimal(&mut out, *filename_id as u64);
                out.append(" and source map URL ");
                push_decimal(&mut out, *source_mapping_url_id as u64);
                out.append("; filename count is ");
                push_decimal(&mut out, *filename_count as u64);
                out.append(", debug data size is ");
                push_decimal(&mut out, *debug_data_size as u64);
                out
            },
            ParseError::InvalidDebugFileRegionOrder { region_index, previous_from_address, from_address } => {
                let mut out = String::from_str("Hermes bytecode debug file region ");
                push_decimal(&mut out, *region_index as u64);
                out.append(" starts at ");
                push_decimal(&mut out, *from_address as u64);
                out.append(", not after previous region start ");
                push_decimal(&mut out, *previous_from_address as u64);
                out
            },
            ParseError::InvalidDebugOffset { function_id, source_locations, debug_data_size } => {
                let mut out = String::from_str("Hermes bytecode function ");
                push_decimal(&mut out, *function_id as u64);
                out.append(" debug source locations offset ");
                push_decimal(&mut out, *source_locations as u64);
                out.append(" exceeds debug data size ");
                push_decimal(&mut out, *debug_data_size as u64);
                out
            },
            ParseError::InvalidDebugData { function_id, offset, reason } => {
                let mut out = String::from_str("Hermes bytecode function ");
                push_decimal(&mut out, *function_id as u64);
                out.append(" debug data at offset ");
                push_decimal(&mut out, *offset as u64);
                out.append(" is invalid: ");
                out.append(*reason);
                out
            },
            ParseError::InvalidExceptionHandler { function_id, entry_index, start, end, target, body_size } => {
                let mut out = String::from_str("Hermes bytecode function ");
                push_decimal(&mut out, *function_id as u64);
                out.append(" exception handler ");
                push_decimal(&mut out, *entry_index as u64);
                out.append(" has range ");
                push_decimal(&mut out, *start as u64);
                out.append("..");
                push_decimal(&mut out, *end as u64);
                out.append(" and target ");
                push_decimal(&mut out, *target as u64);
                out.append(", outside function body size ");
                push_decimal(&mut out, *body_size as u64);
                out
            },
            ParseError::InvalidOpcode { function_id, offset, opcode } => {
                let mut out = String::from_str("Hermes bytecode function ");
                push_decimal(&mut out, *function_id as u64);
                out.append(" has invalid opcode ");
                push_decimal(&mut out, *opcode as u64);
                out.append(" at ");
                push_decimal(&mut out, *offset as u64);
                out
            },
            ParseError::InstructionOutOfBounds { function_id, offset, opcode, width, body_end } => {
                let mut out = String::from_str("Hermes bytecode function ");
                push_decimal(&mut out, *function_id as u64);
                out.append(" instruction opcode ");
                push_decimal(&mut out, *opcode as u64);
                out.append(" at ");
                push_decimal(&mut out, *offset as u64);
                out.append(" has width ");
                push_decimal(&mut out, *width as u64);
                out.append(", exceeding function body end ");
                push_decimal(&mut out, *body_end as u64);
                out
            },
            ParseError::InvalidInstructionTableReference { function_id, offset, opcode, table, index, limit } => {
                let mut out = String::from_str("Hermes bytecode function ");
                push_decimal(&mut out, *function_id as u64);
                out.append(" instruction opcode ");
                push_decimal(&mut out, *opcode as u64);
                out.append(" at ");
                push_decimal(&mut out, *offset as u64);
                out.append(" references ");
                out.append(*table);
                out.append(" table index ");
                push_decimal(&mut out, *index as u64);
                out.append(", but the table count is ");
                push_decimal(&mut out, *limit as u64);
                out
            },
            ParseError::InvalidJumpTarget { function_id, offset, opcode, target, body_start, body_end } => {
                let mut out = String::from_str("Hermes bytecode function ");
                push_decimal(&mut out, *function_id as u64);
                out.append(" instruction opcode ");
                push_decimal(&mut out, *opcode as u64);
                out.append(" at ");
                push_decimal(&mut out, *offset as u64);
                out.append(" jumps to ");
                push_signed(&mut out, *target);
                out.append(", outside instruction boundaries ");
                push_decimal(&mut out, *body_start as u64);
                out.append("..");
                push_decimal(&mut out, *body_end as u64);
                out
            },
            ParseError::InvalidSwitchTableRange { function_id, offset, opcode, minimum, maximum } => {
                let mut out = String::from_str("Hermes bytecode function ");
                push_decimal(&mut out, *function_id as u64);
                out.append(" switch opcode ");
                push_decimal(&mut out, *opcode as u64);
                out.append(" at ");
                push_decimal(&mut out, *offset as u64);
                out.append(" has invalid range ");
                push_decimal(&mut out, *minimum as u64);
                out.append("..=");
                push_decimal(&mut out, *maximum as u64);
                out
            },
            ParseError::SwitchTableOutOfBounds { function_id, offset, opcode, table_start, table_size, region_limit } => {
                let mut out = String::from_str("Hermes bytecode function ");
                push_decimal(&mut out, *function_id as u64);
                out.append(" switch opcode ");
                push_decimal(&mut out, *opcode as u64);
                out.append(" at ");
                push_decimal(&mut out, *offset as u64);
                out.append(" has table ");
                push_decimal(&mut out, *table_start as u64);
                out.append("+");
                push_decimal(&mut out, *table_size as u64);
                out.append(", exceeding function payload end ");
                push_decimal(&mut out, *region_limit as u64);
                out
            },
            ParseError::InvalidSwitchTableTarget { function_id, offset, opcode, entry_index, target, body_start, body_end } => {
                let mut out = String::from_str("Hermes bytecode function ");
                push_decimal(&mut out, *function_id as u64);
                out.append(" switch opcode ");
                push_decimal(&mut out, *opcode as u64);
                out.append(" at ");
                push_decimal(&mut out, *offset as u64);
                out.append(" table entry ");
                push_decimal(&mut out, *entry_index as u64);
                out.append(" jumps to ");
                push_signed(&mut out, *target);
                out.append(", outside instruction boundaries ");
                push_decimal(&mut out, *body_start as u64);
                out.append("..");
                push_decimal(&mut out, *body_end as u64);
                out
            },
            ParseError::InvalidCjsModuleEntry { entry_index, first, second, statically_resolved } => {
                let mut out = String::from_str("Hermes bytecode CJS module entry ");
                push_decimal(&mut out, *entry_index as u64);
                out.append(" (");
                push_decimal(&mut out, *first as u64);
                out.append(", ");
                push_decimal(&mut out, *second as u64);
                out.append(") is invalid; staticallyResolved=");
                push_bool(&mut out, *statically_resolved);
                out
            },
            ParseError::InvalidFunctionSourceEntry { entry_index, function_id, string_id } => {
                let mut out = String::from_str("Hermes bytecode function source entry ");
                push_decimal(&mut out, *entry_index as u64);
                out.append(" references function ");
                push_decimal(&mut out, *function_id as u64);
                out.append(" and string ");
                push_decimal(&mut out, *string_id as u64);
                out
            },
        }
    }
}

/// Every error message begins by naming the Hermes bytecode format.
pub proof fn lemma_messages_name_the_format(e: ParseError)
    ensures
        e.spec_message().len() >= 16,
        e.spec_message().subrange(0, 16) == "Hermes bytecode "@,
{
    reveal_strlit("Hermes bytecode ");
    match e {
        ParseError::BufferTooSmall { .. } => {
            reveal_strlit("Hermes bytecode header requires at least ");
            assert(e.spec_message().subrange(0, 16) =~= "Hermes bytecode "@);
        },
        ParseError::MissingMagic { .. } => {
            reveal_strlit("Hermes bytecode magic mismatch: expected ");
            assert(e.spec_message().subrange(0, 16) =~= "Hermes bytecode "@);
        },
        ParseError::FileLengthExceedsBuffer { .. } => {
            reveal_strlit("Hermes bytecode fileLength ");
            assert(e.spec_message().subrange(0, 16) =~= "Hermes bytecode "@);
        },
        ParseError::InvalidHeaderCount { .. } => {
            reveal_strlit("Hermes bytecode header field ");
            assert(e.spec_message().subrange(0, 16) =~= "Hermes bytecode "@);
        },
        ParseError::SectionSizeOverflow { .. } => {
            reveal_strlit("Hermes bytecode section ");
            assert(e.spec_message().subrange(0, 16) =~= "Hermes bytecode "@);
        },
        ParseError::SectionOutOfBounds { .. } => {
            reveal_strlit("Hermes bytecode section ");
            assert(e.spec_message().subrange(0, 16) =~= "Hermes bytecode "@);
        },
        ParseError::OffsetExceedsU32 { .. } => {
            reveal_strlit("Hermes bytecode section ");
            assert(e.spec_message().subrange(0, 16) =~= "Hermes bytecode "@);
        },
        ParseError::MissingFooter { .. } => {
            reveal_strlit("Hermes bytecode sections end at ");
            assert(e.spec_message().subrange(0, 16) =~= "Hermes bytecode "@);
        },
        ParseError::InvalidStringKindRunLength { .. } => {
            reveal_strlit("Hermes bytecode string-kind runs cover ");
            assert(e.spec_message().subrange(0, 16) =~= "Hermes bytecode "@);
        },
        ParseError::InvalidOverflowStringIndex { .. } => {
            reveal_strlit("Hermes bytecode string entry ");
            assert(e.spec_message().subrange(0, 16) =~= "Hermes bytecode "@);
        },
        ParseError::StringTableEntryOutOfBounds { .. } => {
            reveal_strlit("Hermes bytecode string entry ");
            assert(e.spec_message().subrange(0, 16) =~= "Hermes bytecode "@);
        },
        ParseError::StorageTableEntryOutOfBounds { .. } => {
            reveal_strlit("Hermes bytecode ");
            assert(e.spec_message().subrange(0, 16) =~= "Hermes bytecode "@);
        },
        ParseError::InvalidSerializedLiteralBuffer { .. } => {
            reveal_strlit("Hermes bytecode ");
            assert(e.spec_message().subrange(0, 16) =~= "Hermes bytecode "@);
        },
        ParseError::InvalidSerializedLiteralTag { .. } => {
            reveal_strlit("Hermes bytecode ");
            assert(e.spec_message().subrange(0, 16) =~= "Hermes bytecode "@);
        },
        ParseError::InvalidSerializedLiteralStringReference { .. } => {
            reveal_strlit("Hermes bytecode ");
            assert(e.spec_message().subrange(0, 16) =~= "Hermes bytecode "@);
        },
        ParseError::InvalidFunctionIndex { .. } => {
            reveal_strlit("Hermes bytecode function id ");
            assert(e.spec_message().subrange(0, 16) =~= "Hermes bytecode "@);
        },
        ParseError::LargeFunctionHeaderOutOfBounds { .. } => {
            reveal_strlit("Hermes bytecode function ");
            assert(e.spec_message().subrange(0, 16) =~= "Hermes bytecode "@);
        },
        ParseError::FunctionBodyOutOfBounds { .. } => {
            reveal_strlit("Hermes bytecode function ");
            assert(e.spec_message().subrange(0, 16) =~= "Hermes bytecode "@);
        },
        ParseError::MissingFunctionInfo { .. } => {
            reveal_strlit("Hermes bytecode function ");
            assert(e.spec_message().subrange(0, 16) =~= "Hermes bytecode "@);
        },
        ParseError::FunctionInfoOutOfBounds { .. } => {
            reveal_strlit("Hermes bytecode function ");
            assert(e.spec_message().subrange(0, 16) =~= "Hermes bytecode "@);
        },
        ParseError::DebugInfoOutOfBounds { .. } => {
            reveal_strlit("Hermes bytecode debug info at ");
            assert(e.spec_message().subrange(0, 16) =~= "Hermes bytecode "@);
        },
        ParseError::DebugFilenameOutOfBounds { .. } => {
            reveal_strlit("Hermes bytecode debug filename ");
            assert(e.spec_message().subrange(0, 16) =~= "Hermes bytecode "@);
        },
        ParseError::InvalidDebugFileRegion { .. } => {
            reveal_strlit("Hermes bytecode debug file region ");
            assert(e.spec_message().subrange(0, 16) =~= "Hermes bytecode "@);
        },
        ParseError::InvalidDebugFileRegionOrder { .. } => {
            reveal_strlit("Hermes bytecode debug file region ");
            assert(e.spec_message().subrange(0, 16) =~= "Hermes bytecode "@);
        },
        ParseError::InvalidDebugOffset { .. } => {
            reveal_strlit("Hermes bytecode function ");
            assert(e.spec_message().subrange(0, 16) =~= "Hermes bytecode "@);
        },
        ParseError::InvalidDebugData { .. } => {
            reveal_strlit("Hermes bytecode function ");
            assert(e.spec_message().subrange(0, 16) =~= "Hermes bytecode "@);
        },
        ParseError::InvalidExceptionHandler { .. } => {
            reveal_strlit("Hermes bytecode function ");
            assert(e.spec_message().subrange(0, 16) =~= "Hermes bytecode "@);
        },
        ParseError::InvalidOpcode { .. } => {
            reveal_strlit("Hermes bytecode function ");
            assert(e.spec_message().subrange(0, 16) =~= "Hermes bytecode "@);
        },
        ParseError::InstructionOutOfBounds { .. } => {
            reveal_strlit("Hermes bytecode function ");
            assert(e.spec_message().subrange(0, 16) =~= "Hermes bytecode "@);
        },
        ParseError::InvalidInstructionTableReference { .. } => {
            reveal_strlit("Hermes bytecode function ");
            assert(e.spec_message().subrange(0, 16) =~= "Hermes bytecode "@);
        },
        ParseError::InvalidJumpTarget { .. } => {
            reveal_strlit("Hermes bytecode function ");
            assert(e.spec_message().subrange(0, 16) =~= "Hermes bytecode "@);
        },
        ParseError::InvalidSwitchTableRange { .. } => {
            reveal_strlit("Hermes bytecode function ");
            assert(e.spec_message().subrange(0, 16) =~= "Hermes bytecode "@);
        },
        ParseError::SwitchTableOutOfBounds { .. } => {
            reveal_strlit("Hermes bytecode function ");
            assert(e.spec_message().subrange(0, 16) =~= "Hermes bytecode "@);
        },
        ParseError::InvalidSwitchTableTarget { .. } => {
            reveal_strlit("Hermes bytecode function ");
            assert(e.spec_message().subrange(0, 16) =~= "Hermes bytecode "@);
        },
        ParseError::InvalidCjsModuleEntry { .. } => {
            reveal_strlit("Hermes bytecode CJS module entry ");
            assert(e.spec_message().subrange(0, 16) =~= "Hermes bytecode "@);
        },
        ParseError::InvalidFunctionSourceEntry { .. } => {
            reveal_strlit("Hermes bytecode function source entry ");
            assert(e.spec_message().subrange(0, 16) =~= "Hermes bytecode "@);
        },
    }
}

} // verus!
