//! Comparing proving backends: the records of a benchmark run and the report
//! that sums them up.
//!
//! Running the benchmarks is left to the caller; this module decides what the
//! results mean. Spans of time are milliseconds.

use vstd::prelude::*;
use vstd::string::StringExecFns;

verus! {

/// A proving backend.
#[derive(Clone, Copy, Debug, PartialEq, Eq, Structural)]
pub enum BackendType {
    KoalaBear,
    BabyBear,
    Mersenne31,
}

impl BackendType {
    /// The name of the backend.
    pub open spec fn name(self) -> Seq<char> {
        match self {
            BackendType::KoalaBear => "KoalaBear"@,
            BackendType::BabyBear => "BabyBear"@,
            BackendType::Mersenne31 => "Mersenne31"@,
        }
    }

    /// The name of the backend.
    pub fn as_str(&self) -> (s: &'static str)
        ensures
            s@ == self.name(),
    {
        match self {
            BackendType::KoalaBear => "KoalaBear",
            BackendType::BabyBear => "BabyBear",
            BackendType::Mersenne31 => "Mersenne31",
        }
    }
}

/// What to compare and how to show it.
#[derive(Clone, Debug)]
pub struct ComparisonConfig {
    pub elf_path: String,
    pub input_data: String,
    pub backends: Vec<BackendType>,
    pub iterations: usize,
    pub output_format: String,
}

impl ComparisonConfig {
    /// Whether `self` and `other` hold the same configuration.
    pub open spec fn same_as(self, other: ComparisonConfig) -> bool {
        &&& self.elf_path@ == other.elf_path@
        &&& self.input_data@ == other.input_data@
        &&& self.backends@ == other.backends@
        &&& self.iterations == other.iterations
        &&& self.output_format@ == other.output_format@
    }

    /// A copy of the configuration.
    pub fn duplicate(&self) -> (copy: ComparisonConfig)
        ensures
            copy.same_as(*self),
    {
        let mut backends: Vec<BackendType> = Vec::new();
        let mut k: usize = 0;
        while k < self.backends.len()
            invariant
                k <= self.backends@.len(),
                backends@ == self.backends@.take(k as int),
            decreases self.backends@.len() - k,
        {
            backends.push(self.backends[k]);
            assert(backends@ =~= self.backends@.take(k + 1));
            k += 1;
        }
        assert(self.backends@.take(self.backends@.len() as int) =~= self.backends@);
        ComparisonConfig {
            elf_path: self.elf_path.clone(),
            input_data: self.input_data.clone(),
            backends,
            iterations: self.iterations,
            output_format: self.output_format.clone(),
        }
    }
}

/// The outcome of one benchmark of one backend.
#[derive(Clone, Debug)]
pub struct BenchmarkResult {
    pub backend: BackendType,
    pub proof_time: u64,
    pub verification_time: u64,
    pub proof_size: usize,
    pub cycles: u64,
    pub memory_usage: usize,
    pub success: bool,
    pub error: Option<String>,
}

/// Which backend did best in which respect.
#[derive(Clone, Debug)]
pub struct ComparisonSummary {
    pub fastest_backend: BackendType,
    pub smallest_proof: BackendType,
    pub most_efficient: BackendType,
    pub recommendations: Vec<String>,
}

/// The results of a run with their summary.
#[derive(Clone, Debug)]
pub struct ComparisonReport {
    pub config: ComparisonConfig,
    pub results: Vec<BenchmarkResult>,
    pub summary: ComparisonSummary,
    pub timestamp: u64,
}

/// A comparison of backends under one configuration.
pub struct BackendComparison {
    config: ComparisonConfig,
}

/// Going through `s` in order, the element that is chosen when a later element
/// replaces the choice only where it is strictly less: the first of the least.
pub open spec fn first_least<T>(s: Seq<T>, less: spec_fn(T, T) -> bool) -> Option<T>
    decreases s.len(),
{
    if s.len() == 0 {
        None
    } else {
        match first_least(s.drop_last(), less) {
            None => Some(s.last()),
            Some(best) => if less(s.last(), best) {
                Some(s.last())
            } else {
                Some(best)
            },
        }
    }
}

/// The results that succeeded.
pub open spec fn succeeded() -> spec_fn(BenchmarkResult) -> bool {
    |r: BenchmarkResult| r.success
}

/// Whether `a` took less time than `b`.
pub open spec fn quicker() -> spec_fn(BenchmarkResult, BenchmarkResult) -> bool {
    |a: BenchmarkResult, b: BenchmarkResult| a.proof_time < b.proof_time
}

/// Whether the proof of `a` is smaller than that of `b`.
pub open spec fn smaller() -> spec_fn(BenchmarkResult, BenchmarkResult) -> bool {
    |a: BenchmarkResult, b: BenchmarkResult| a.proof_size < b.proof_size
}

/// Whether `a` took less time per byte of proof than `b`. A result with an
/// empty proof is never the leaner one, unless it took no time at all, in which
/// case it ties with every other.
pub open spec fn leaner() -> spec_fn(BenchmarkResult, BenchmarkResult) -> bool {
    |a: BenchmarkResult, b: BenchmarkResult|
        a.proof_time * b.proof_size < b.proof_time * a.proof_size
}

/// The backend of the first of the least among the results that succeeded, and
/// `KoalaBear` where none succeeded.
pub open spec fn best_backend(
    results: Seq<BenchmarkResult>,
    less: spec_fn(BenchmarkResult, BenchmarkResult) -> bool,
) -> BackendType {
    match first_least(results.filter(succeeded()), less) {
        Some(r) => r.backend,
        None => BackendType::KoalaBear,
    }
}

/// The three recommendations, as lines of text.
pub open spec fn recommendation_lines(
    fastest: BackendType,
    smallest: BackendType,
    efficient: BackendType,
) -> Seq<Seq<char>> {
    seq![
        "Fastest proof generation: "@ + fastest.name(),
        "Smallest proof size: "@ + smallest.name(),
        "Most efficient (time/size): "@ + efficient.name(),
    ]
}

fn is_quicker(a: &BenchmarkResult, b: &BenchmarkResult) -> (r: bool)
    ensures
        r == quicker()(*a, *b),
{
    a.proof_time < b.proof_time
}

fn is_smaller(a: &BenchmarkResult, b: &BenchmarkResult) -> (r: bool)
    ensures
        r == smaller()(*a, *b),
{
    a.proof_size < b.proof_size
}

fn is_leaner(a: &BenchmarkResult, b: &BenchmarkResult) -> (r: bool)
    ensures
        r == leaner()(*a, *b),
{
    let (at, bt) = (a.proof_time as u128, b.proof_time as u128);
    let (az, bz) = (a.proof_size as u128, b.proof_size as u128);
    assert(at * bz <= u64::MAX * u64::MAX && bt * az <= u64::MAX * u64::MAX) by (nonlinear_arith)
        requires
            0 <= at <= u64::MAX,
            0 <= bt <= u64::MAX,
            0 <= az <= u64::MAX,
            0 <= bz <= u64::MAX,
    ;
    at * bz < bt * az
}

fn recommendation(lead: &str, backend: BackendType) -> (line: String)
    ensures
        line@ == lead@ + backend.name(),
{
    let mut line = String::from_str(lead);
    line.append(backend.as_str());
    line
}

impl BackendComparison {
    /// The configuration of the comparison.
    pub closed spec fn spec_config(&self) -> ComparisonConfig {
        self.config
    }

    /// A comparison under `config`.
    pub fn new(config: ComparisonConfig) -> (comparison: Self)
        ensures
            comparison.spec_config() == config,
    {
        Self { config }
    }

    /// The configuration of the comparison.
    pub fn config(&self) -> (config: &ComparisonConfig)
        ensures
            *config == self.spec_config(),
    {
        &self.config
    }

    /// The record of a benchmark of `backend` that failed with `error`.
    pub fn failed_result(backend: BackendType, error: String) -> (result: BenchmarkResult)
        ensures
            result == (BenchmarkResult {
                backend,
                proof_time: 0,
                verification_time: 0,
                proof_size: 0,
                cycles: 0,
                memory_usage: 0,
                success: false,
                error: Some(error),
            }),
    {
        BenchmarkResult {
            backend,
            proof_time: 0,
            verification_time: 0,
            proof_size: 0,
            cycles: 0,
            memory_usage: 0,
            success: false,
            error: Some(error),
        }
    }

    /// The report on `results`, drawn up at `timestamp` (milliseconds since the
    /// Unix epoch). Among the results that succeeded, the fastest backend is the
    /// first with the least proof time, the smallest the first with the least
    /// proof size, and the most efficient the first with the least time per
    /// byte of proof; each is `KoalaBear` where no result succeeded. The three
    /// recommendations name them in this order.
    pub fn generate_report(&self, results: Vec<BenchmarkResult>, timestamp: u64) -> (report:
        ComparisonReport)
        ensures
            report.config.same_as(self.spec_config()),
            report.results == results,
            report.timestamp == timestamp,
            report.summary.fastest_backend == best_backend(results@, quicker()),
            report.summary.smallest_proof == best_backend(results@, smaller()),
            report.summary.most_efficient == best_backend(results@, leaner()),
            report.summary.recommendations.deep_view() == recommendation_lines(
                report.summary.fastest_backend,
                report.summary.smallest_proof,
                report.summary.most_efficient,
            ),
    {
        let mut fastest: Option<usize> = None;
        let mut smallest: Option<usize> = None;
        let mut leanest: Option<usize> = None;
        let mut k: usize = 0;
        proof {
            assert(results@.take(0).filter(succeeded()) =~= Seq::empty()) by {
                reveal(Seq::filter);
            }
        }
        while k < results.len()
            invariant
                k <= results@.len(),
                chosen(fastest, results@) == first_least(
                    results@.take(k as int).filter(succeeded()),
                    quicker(),
                ),
                chosen(smallest, results@) == first_least(
                    results@.take(k as int).filter(succeeded()),
                    smaller(),
                ),
                chosen(leanest, results@) == first_least(
                    results@.take(k as int).filter(succeeded()),
                    leaner(),
                ),
                fastest matches Some(i) ==> i < results@.len(),
                smallest matches Some(i) ==> i < results@.len(),
                leanest matches Some(i) ==> i < results@.len(),
            decreases results@.len() - k,
        {
            proof {
                let seen = results@.take(k as int);
                assert(results@.take(k + 1) =~= seen.push(results@[k as int]));
                seen.lemma_filter_push(results@[k as int], succeeded());
                let kept = seen.filter(succeeded());
                assert(kept.push(results@[k as int]).drop_last() =~= kept);
            }
            if results[k].success {
                fastest = match fastest {
                    None => Some(k),
                    Some(i) => if is_quicker(&results[k], &results[i]) {
                        Some(k)
                    } else {
                        Some(i)
                    },
                };
                smallest = match smallest {
                    None => Some(k),
                    Some(i) => if is_smaller(&results[k], &results[i]) {
                        Some(k)
                    } else {
                        Some(i)
                    },
                };
                leanest = match leanest {
                    None => Some(k),
                    Some(i) => if is_leaner(&results[k], &results[i]) {
                        Some(k)
                    } else {
                        Some(i)
                    },
                };
            }
            k += 1;
        }
        proof {
            assert(results@.take(results@.len() as int) =~= results@);
        }
        let fastest_backend = match fastest {
            Some(i) => results[i].backend,
            None => BackendType::KoalaBear,
        };
        let smallest_proof = match smallest {
            Some(i) => results[i].backend,
            None => BackendType::KoalaBear,
        };
        let most_efficient = match leanest {
            Some(i) => results[i].backend,
            None => BackendType::KoalaBear,
        };
        let mut recommendations: Vec<String> = Vec::new();
        recommendations.push(recommendation("Fastest proof generation: ", fastest_backend));
        recommendations.push(recommendation("Smallest proof size: ", smallest_proof));
        recommendations.push(recommendation("Most efficient (time/size): ", most_efficient));
        proof {
            assert(recommendations.deep_view() =~= recommendation_lines(
                fastest_backend,
                smallest_proof,
                most_efficient,
            ));
        }
        ComparisonReport {
            config: self.config.duplicate(),
            results,
            summary: ComparisonSummary {
                fastest_backend,
                smallest_proof,
                most_efficient,
                recommendations,
            },
            timestamp,
        }
    }
}

/// The element of `s` that `at` points to.
pub open spec fn chosen<T>(at: Option<usize>, s: Seq<T>) -> Option<T> {
    match at {
        Some(i) => Some(s[i as int]),
        None => None,
    }
}

/// Where taking less is a strict order whose ties are transitive, the first of
/// the least is a least element: no element of the sequence is strictly less.
pub proof fn first_least_is_least<T>(s: Seq<T>, less: spec_fn(T, T) -> bool)
    requires
        forall|a: T, b: T| #[trigger] less(a, b) ==> !less(b, a),
        forall|a: T, b: T, c: T|
            !(#[trigger] less(a, b)) && !(#[trigger] less(b, c)) ==> !less(a, c),
    ensures
        s.len() > 0 ==> first_least(s, less) is Some,
        first_least(s, less) matches Some(best) ==> s.contains(best) && forall|j: int|
            0 <= j < s.len() ==> !less(#[trigger] s[j], best),
    decreases s.len(),
{
    if s.len() > 0 {
        let rest = s.drop_last();
        first_least_is_least(rest, less);
        let best = first_least(s, less).unwrap();
        match first_least(rest, less) {
            None => {
                assert(s[s.len() - 1] == best);
            },
            Some(old) => {
                if less(s.last(), old) {
                    assert(s[s.len() - 1] == best);
                } else {
                    let j = choose|j: int| 0 <= j < rest.len() && rest[j] == old;
                    assert(s[j] == old);
                }
                assert forall|j: int| 0 <= j < s.len() implies !less(#[trigger] s[j], best) by {
                    if j < s.len() - 1 {
                        assert(rest[j] == s[j]);
                        assert(!less(rest[j], old));
                    }
                }
            },
        }
    }
}

} // verus!
