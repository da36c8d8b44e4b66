//! QuickJS backend identity, benchmark options and the script fingerprint.

use iris::engine::COMPATIBILITY_TARGET;
use iris::qjs::{
    backend_description, benchmark_cases, check_benchmark_options, fnv1a64_hash, stable_source_hash,
    BenchmarkOptions, BACKEND_NAME, DEFAULT_MEASURED_ITERATIONS, DEFAULT_WARMUP_ITERATIONS, FNV_OFFSET_BASIS,
    QUICKJS_BENCHMARK_SOURCE,
};

#[test]
fn backend_description_names_quickjs_experiment() {
    assert!(backend_description().starts_with(BACKEND_NAME));
}

#[test]
fn backend_description_names_the_compatibility_target() {
    assert_eq!(backend_description(), format!("iris-qjs for {COMPATIBILITY_TARGET}"));
}

#[test]
fn default_options_match_the_baseline_artifact() {
    let options = BenchmarkOptions::default();
    assert_eq!(options.artifact_path, "artifacts/bench/qjs-baseline.json");
    assert_eq!(options.commit, "unknown");
    assert_eq!(options.device, "local-host");
    assert_eq!(options.measured_iterations, DEFAULT_MEASURED_ITERATIONS);
    assert_eq!(options.measured_iterations, 15);
    assert_eq!(options.mode, "unknown");
    assert_eq!(options.source, "git:unknown");
    assert_eq!(options.warmup_iterations, DEFAULT_WARMUP_ITERATIONS);
    assert_eq!(options.warmup_iterations, 3);
}

#[test]
fn zero_measured_iterations_are_rejected() {
    let options = BenchmarkOptions { measured_iterations: 0, ..BenchmarkOptions::default() };
    assert_eq!(
        check_benchmark_options(&options),
        Err("measured_iterations must be greater than zero".to_owned()),
    );
    let options = BenchmarkOptions { measured_iterations: 1, warmup_iterations: 0, ..BenchmarkOptions::default() };
    assert_eq!(check_benchmark_options(&options), Ok(()));
}

#[test]
fn benchmark_cases_are_listed_in_report_order() {
    let cases = benchmark_cases();
    let ids: Vec<&str> = cases.iter().map(|case| case.id).collect();
    assert_eq!(ids, vec!["js-compute", "json-round-trip", "object-traversal", "typed-array-copy"]);
    assert_eq!(cases[3].label, "TypedArray copy");
    for case in &cases {
        assert!(QUICKJS_BENCHMARK_SOURCE.contains(&format!("\"{}\"", case.id)));
    }
}

#[test]
fn fnv1a64_matches_reference_vectors() {
    assert_eq!(fnv1a64_hash(&[]), FNV_OFFSET_BASIS);
    assert_eq!(fnv1a64_hash(b"a"), 0xaf63_dc4c_8601_ec8c);
    assert_eq!(fnv1a64_hash(b"foobar"), 0x8594_4171_f739_67e8);
}

#[test]
fn benchmark_script_fingerprint_is_stable() {
    assert_eq!(stable_source_hash(), 0x8d0e_b158_592c_b6a3);
    assert_eq!(stable_source_hash(), fnv1a64_hash(QUICKJS_BENCHMARK_SOURCE.as_bytes()));
}
