//! Iris runtime components: engine contracts, the Hermes bytecode validator,
//! and the QuickJS benchmark surface.

pub mod android;
pub mod engine;
pub mod hbc;
pub mod qjs;
