//! Engine identity and compatibility contracts.

use iris::engine::{compatibility_target, CompatibilityMode, COMPATIBILITY_TARGET, ENGINE_NAME};

#[test]
fn strict_mode_preserves_observable_behavior() {
    assert!(!CompatibilityMode::Strict.allows_observable_behavior_changes());
}

#[test]
fn engine_metadata_is_stable() {
    assert_eq!(ENGINE_NAME, "Iris");
    assert!(COMPATIBILITY_TARGET.contains("React Native 0.85"));
}

#[test]
fn exposes_core_compatibility_target() {
    assert!(compatibility_target().contains("Hermes V1"));
}

#[test]
fn compatibility_target_is_the_core_target() {
    assert_eq!(compatibility_target(), COMPATIBILITY_TARGET);
}

