//! The host-platform surface: bytecode metadata with errors rendered as text.

use vstd::prelude::*;

use crate::hbc::metadata::{metadata_result, HbcMetadata};

verus! {

/// Parses a bytecode buffer for the host platform, which receives errors as text.
pub fn parse_hbc_metadata(bytes: &[u8]) -> (result: Result<HbcMetadata, String>)
    ensures
        match metadata_result(bytes@) {
            Ok(metadata) => result == Ok::<HbcMetadata, String>(metadata),
            Err(e) => result matches Err(message) && message@ == e.spec_message(),
        },
{
    match crate::hbc::metadata::parse_hbc_metadata(bytes) {
        Ok(metadata) => Ok(metadata),
        Err(e) => Err(e.message()),
    }
}

} // verus!
