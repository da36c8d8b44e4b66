//! Engine-wide contracts shared by the Iris runtime experiments.

use vstd::prelude::*;

verus! {

/// Public engine name used in diagnostics and benchmark output.
pub const ENGINE_NAME: &'static str = "Iris";

/// Compatibility target for the first proof-of-concept line.
pub const COMPATIBILITY_TARGET: &'static str =
    "React Native 0.85 with Hermes V1 behavioral compatibility";

/// Compatibility modes supported by Iris.
#[derive(Debug, Clone, Copy, PartialEq, Eq)]
pub enum CompatibilityMode {
    /// Preserve React Native and Hermes-observable behavior before taking
    /// performance shortcuts.
    Strict,
}

impl CompatibilityMode {
    /// Whether this mode lets JavaScript observe a behavior change.
    pub open spec fn spec_allows_observable_behavior_changes(self) -> bool {
        match self {
            CompatibilityMode::Strict => false,
        }
    }

    /// Returns whether this mode allows observable JavaScript behavior changes.
    pub fn allows_observable_behavior_changes(self) -> (allowed: bool)
        ensures
            allowed == self.spec_allows_observable_behavior_changes(),
    {
        match self {
            CompatibilityMode::Strict => false,
        }
    }
}

/// Returns the React Native compatibility target for the JSI layer.
pub fn compatibility_target() -> (target: &'static str)
    ensures
        target@ == COMPATIBILITY_TARGET@,
{
    COMPATIBILITY_TARGET
}

} // verus!
