//! The QuickJS backend experiment: its identity, benchmark options and
//! cases, and the fingerprint of the benchmark script.

use vstd::prelude::*;

use crate::engine::COMPATIBILITY_TARGET;

verus! {

use vstd::string::StringSliceAdditionalSpecFns;

/// Backend identifier used in benchmarks.
pub const BACKEND_NAME: &'static str = "iris-qjs";

/// Schema version of benchmark reports.
pub const BENCHMARK_SCHEMA_VERSION: &'static str = "iris.benchmark.v1";

/// Warmup iterations per case unless options say otherwise.
pub const DEFAULT_WARMUP_ITERATIONS: usize = 3;

/// Measured iterations per case unless options say otherwise.
pub const DEFAULT_MEASURED_ITERATIONS: usize = 15;

/// FNV-1a 64-bit offset basis.
pub const FNV_OFFSET_BASIS: u64 = 0xcbf2_9ce4_8422_2325;

/// FNV-1a 64-bit prime.
pub const FNV_PRIME: u64 = 0x0000_0100_0000_01b3;

/// The JavaScript that defines the benchmark cases and the runner that
/// returns one case's result as JSON.
pub const QUICKJS_BENCHMARK_SOURCE: &'static str = r#"
function runComputeCase() {
  let checksum = 0;

  for (let index = 0; index < 600_000; index += 1) {
    checksum += Math.sqrt((index % 1_000) + 1) * Math.sin(index);
  }

  return {
    checksum: Number(checksum.toFixed(3)),
    detail: "600k math operations",
  };
}

function runJsonCase() {
  const payload = Array.from({ length: 8_000 }, (_, index) => ({
    active: index % 3 === 0,
    id: index,
    meta: {
      lane: index % 7,
      label: `group-${index % 11}`,
    },
    name: `item-${index}`,
    points: [index, index * 2, index * 3],
  }));

  const encoded = JSON.stringify(payload);
  const decoded = JSON.parse(encoded);
  const checksum = decoded.reduce((total, item) => total + item.id + item.points[2], 0);

  return {
    checksum,
    detail: `${encoded.length} encoded bytes`,
  };
}

function runObjectTraversalCase() {
  const rows = Array.from({ length: 12_000 }, (_, index) => ({
    id: index,
    lane: index % 9,
    nested: {
      active: index % 5 === 0,
      score: (index * 17) % 1_024,
    },
  }));

  const checksum = rows.reduce((total, row) => {
    if (!row.nested.active) {
      return total + row.lane;
    }

    return total + row.id + row.nested.score;
  }, 0);

  return {
    checksum,
    detail: `${rows.length} objects traversed`,
  };
}

function runTypedArrayCopyCase() {
  const source = new Uint8Array(1_000_000);

  for (let index = 0; index < source.length; index += 1) {
    source[index] = index % 251;
  }

  const copy = new Uint8Array(source.length);
  copy.set(source);

  let checksum = 0;
  for (let index = 0; index < copy.length; index += 10_000) {
    checksum += copy[index];
  }

  return {
    checksum,
    detail: `${copy.byteLength} bytes copied`,
  };
}

globalThis.__irisBenchCases = {
  "js-compute": runComputeCase,
  "json-round-trip": runJsonCase,
  "object-traversal": runObjectTraversalCase,
  "typed-array-copy": runTypedArrayCopyCase,
};

globalThis.__irisRunCase = function irisRunCase(caseId) {
  const benchmarkCase = globalThis.__irisBenchCases[caseId];
  if (benchmarkCase == null) {
    throw new Error(`Unknown Iris QuickJS benchmark case: ${caseId}`);
  }
  return JSON.stringify(benchmarkCase());
};
"#;

/// One benchmark case: what it measures, its id in the script, and its label.
#[derive(Debug, Clone, Copy, PartialEq, Eq)]
pub struct BenchmarkCaseDefinition {
    pub description: &'static str,
    pub id: &'static str,
    pub label: &'static str,
}

/// Returns the benchmark cases, in report order.
pub fn benchmark_cases() -> (cases: Vec<BenchmarkCaseDefinition>)
    ensures
        cases@.len() == 4,
        cases@[0].id@ == "js-compute"@,
        cases@[1].id@ == "json-round-trip"@,
        cases@[2].id@ == "object-traversal"@,
        cases@[3].id@ == "typed-array-copy"@,
        cases@[0].label@ == "JS compute"@,
        cases@[1].label@ == "JSON round trip"@,
        cases@[2].label@ == "Object traversal"@,
        cases@[3].label@ == "TypedArray copy"@,
        cases@[0].description@ == "CPU-bound JavaScript math loop for Hermes baseline timing."@,
        cases@[1].description@ == "Large object array stringify/parse round trip."@,
        cases@[2].description@ == "Nested object creation and traversal baseline."@,
        cases@[3].description@ == "Uint8Array allocation and copy baseline before JSI buffer work."@,
{
    let mut cases = Vec::new();
    cases.push(
        BenchmarkCaseDefinition {
            description: "CPU-bound JavaScript math loop for Hermes baseline timing.",
            id: "js-compute",
            label: "JS compute",
        },
    );
    cases.push(
        BenchmarkCaseDefinition {
            description: "Large object array stringify/parse round trip.",
            id: "json-round-trip",
            label: "JSON round trip",
        },
    );
    cases.push(
        BenchmarkCaseDefinition {
            description: "Nested object creation and traversal baseline.",
            id: "object-traversal",
            label: "Object traversal",
        },
    );
    cases.push(
        BenchmarkCaseDefinition {
            description: "Uint8Array allocation and copy baseline before JSI buffer work.",
            id: "typed-array-copy",
            label: "TypedArray copy",
        },
    );
    cases
}

/// Benchmark runner options for the host-side QuickJS backend probe.
#[derive(Debug, Clone)]
pub struct BenchmarkOptions {
    /// Relative or absolute artifact path recorded in the report.
    pub artifact_path: String,
    /// Git commit recorded in the report.
    pub commit: String,
    /// Device label recorded in the report.
    pub device: String,
    /// Measured iterations per benchmark case.
    pub measured_iterations: usize,
    /// Build mode recorded in the report.
    pub mode: String,
    /// Short source label recorded in the report.
    pub source: String,
    /// Warmup iterations per benchmark case.
    pub warmup_iterations: usize,
}

impl Default for BenchmarkOptions {
    fn default() -> (options: Self)
        ensures
            options.artifact_path@ == "artifacts/bench/qjs-baseline.json"@,
            options.commit@ == "unknown"@,
            options.device@ == "local-host"@,
            options.measured_iterations == DEFAULT_MEASURED_ITERATIONS,
            options.mode@ == "unknown"@,
            options.source@ == "git:unknown"@,
            options.warmup_iterations == DEFAULT_WARMUP_ITERATIONS,
    {
        BenchmarkOptions {
            artifact_path: String::from_str("artifacts/bench/qjs-baseline.json"),
            commit: String::from_str("unknown"),
            device: String::from_str("local-host"),
            measured_iterations: DEFAULT_MEASURED_ITERATIONS,
            mode: String::from_str("unknown"),
            source: String::from_str("git:unknown"),
            warmup_iterations: DEFAULT_WARMUP_ITERATIONS,
        }
    }
}

/// Checks benchmark options before any case runs: at least one measured
/// iteration is needed.
pub fn check_benchmark_options(options: &BenchmarkOptions) -> (result: Result<(), String>)
    ensures
        options.measured_iterations == 0 <==> result is Err,
        result matches Err(message) ==> message@ == "measured_iterations must be greater than zero"@,
{
    if options.measured_iterations == 0 {
        return Err(String::from_str("measured_iterations must be greater than zero"));
    }
    Ok(())
}

/// Returns a short backend description for benchmark reports.
pub fn backend_description() -> (description: String)
    ensures
        description@ == BACKEND_NAME@ + " for "@ + COMPATIBILITY_TARGET@,
{
    let mut description = String::from_str(BACKEND_NAME);
    description.append(" for ");
    description.append(COMPATIBILITY_TARGET);
    description
}

/// The 64-bit FNV-1a hash of `bytes`.
pub open spec fn fnv1a64(bytes: Seq<u8>) -> u64
    decreases bytes.len(),
{
    if bytes.len() == 0 {
        FNV_OFFSET_BASIS
    } else {
        let hash = fnv1a64(bytes.drop_last()) ^ (bytes.last() as u64);
        ((hash as nat * FNV_PRIME as nat) % 0x1_0000_0000_0000_0000) as u64
    }
}

/// Returns the 64-bit FNV-1a hash of `bytes`.
pub fn fnv1a64_hash(bytes: &[u8]) -> (hash: u64)
    ensures
        hash == fnv1a64(bytes@),
{
    let mut hash = FNV_OFFSET_BASIS;
    let mut i: usize = 0;
    while i < bytes.len()
        invariant
            i <= bytes@.len(),
            hash == fnv1a64(bytes@.take(i as int)),
        decreases bytes@.len() - i,
    {
        assert(bytes@.take(i + 1).drop_last() =~= bytes@.take(i as int));
        hash = (hash ^ bytes[i] as u64).wrapping_mul(FNV_PRIME);
        i = i + 1;
    }
    assert(bytes@.take(i as int) =~= bytes@);
    hash
}

/// Returns the fingerprint of the benchmark script: the FNV-1a hash of its bytes.
pub fn stable_source_hash() -> (hash: u64)
    ensures
        hash == fnv1a64(QUICKJS_BENCHMARK_SOURCE.spec_bytes()),
{
    fnv1a64_hash(QUICKJS_BENCHMARK_SOURCE.as_bytes())
}

} // verus!
