//! Validation of Hermes bytecode (HBC) buffers.
//!
//! The validator only reads an immutable byte slice: it neither executes
//! bytecode nor copies the payload.

pub mod bytes;
pub mod text;
pub mod error;
pub mod header;
pub mod checks;
pub mod layout;
pub mod tables;
pub mod literals;
pub mod function_header;
pub mod instructions;
pub mod operands;
pub mod bodies;
pub mod debug;
pub mod leb128;
pub mod locations;
pub mod function_info;
pub mod functions;
pub mod sections;
pub mod bytecode;
pub mod metadata;
pub mod laws;
pub mod strings;
pub mod closures;

pub use bytecode::HermesBytecode;
pub use error::ParseError;
pub use function_header::HermesFunctionHeader;
pub use header::{BytecodeOptions, HermesBytecodeHeader};
pub use instructions::{HermesInstruction, HermesInstructionStream};
pub use layout::SectionView;
pub use metadata::{parse_hbc_metadata, HbcMetadata};
pub use sections::HermesBytecodeSections;
