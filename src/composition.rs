//! The gateway's composition of engine calls: which statistics to request,
//! the serialized sequence of calls of a comprehensive analysis, and the
//! envelope facts that need no arithmetic on the data.

use vstd::prelude::*;
use vstd::string::StringExecFns;
use crate::catalog::{native_names, strings_view};
use crate::ids::now_millis;
use crate::dispatch::{EngineError, ErrorKind};
use crate::input::{check_generate_count, generator_of, generator_algorithm, MAX_GENERATE_COUNT};
use crate::text::{decimal, decimal_string, owned, push_decimal, str_eq};

verus! {

/// The statistics that a calculation may request: the native catalog
/// without its generators.
pub open spec fn is_statistic(name: Seq<char>) -> bool {
    native_names().contains(name) && name != "generate_uniform"@ && name != "generate_normal"@
        && name != "generate_exponential"@
}

fn is_statistic_name(name: &str) -> (r: bool)
    ensures
        r == is_statistic(name@),
{
    let names = crate::catalog::get_supported_algorithms();
    let known = crate::catalog::find_by_name(&names, name).is_some();
    proof {
        assert(crate::catalog::names_of(names@) =~= native_names()) by {
            assert forall|k: int| 0 <= k < names@.len() implies crate::catalog::names_of(names@)[k]
                == native_names()[k] by {
                assert(crate::catalog::is_native_entry(names@[k], k));
            }
        }
        if known {
            let i = choose|i: int| 0 <= i < names@.len() && names@[i].name@ == name@;
            assert(crate::catalog::names_of(names@)[i] == name@);
        }
    }
    known && !str_eq(name, "generate_uniform") && !str_eq(name, "generate_normal") && !str_eq(
        name,
        "generate_exponential",
    )
}

/// The requested statistics split in two, order kept: those the engine
/// computes, and the unknown ones, which are dropped.
pub fn select_statistics(requested: &Vec<String>) -> (r: (Vec<String>, Vec<String>))
    ensures
        strings_view(r.0@) == strings_view(requested@).filter(|s: Seq<char>| is_statistic(s)),
        strings_view(r.1@) == strings_view(requested@).filter(|s: Seq<char>| !is_statistic(s)),
{
    let mut kept: Vec<String> = Vec::new();
    let mut dropped: Vec<String> = Vec::new();
    let mut i: usize = 0;
    while i < requested.len()
        invariant
            i <= requested@.len(),
            strings_view(kept@) == strings_view(requested@.subrange(0, i as int)).filter(
                |s: Seq<char>| is_statistic(s),
            ),
            strings_view(dropped@) == strings_view(requested@.subrange(0, i as int)).filter(
                |s: Seq<char>| !is_statistic(s),
            ),
        decreases requested.len() - i,
    {
        let name = &requested[i];
        let ghost prefix = strings_view(requested@.subrange(0, i as int));
        let ghost next = prefix.push(name@);
        proof {
            assert(strings_view(requested@.subrange(0, i + 1)) =~= next);
            assert(next.drop_last() =~= prefix);
            reveal(Seq::filter);
            assert(next.last() == name@);
        }
        if is_statistic_name(name.as_str()) {
            kept.push(name.clone());
            assert(strings_view(kept@) =~= prefix.filter(|s: Seq<char>| is_statistic(s)).push(name@));
        } else {
            dropped.push(name.clone());
            assert(strings_view(dropped@) =~= prefix.filter(|s: Seq<char>| !is_statistic(s)).push(name@));
        }
        i = i + 1;
    }
    assert(requested@.subrange(0, i as int) =~= requested@);
    (kept, dropped)
}

/// The statistics computed when a calculation names none.
pub open spec fn default_statistics_spec() -> Seq<Seq<char>> {
    seq![
        "mean"@, "median"@, "mode"@, "std"@, "variance"@, "min"@, "max"@, "range"@,
        "skewness"@, "kurtosis"@, "q1"@, "q3"@, "iqr"@,
    ]
}

/// The statistics computed when a calculation names none.
pub fn get_default_statistics() -> (r: Vec<String>)
    ensures
        strings_view(r@) == default_statistics_spec(),
{
    let mut v: Vec<String> = Vec::new();
    v.push(owned("mean"));
    v.push(owned("median"));
    v.push(owned("mode"));
    v.push(owned("std"));
    v.push(owned("variance"));
    v.push(owned("min"));
    v.push(owned("max"));
    v.push(owned("range"));
    v.push(owned("skewness"));
    v.push(owned("kurtosis"));
    v.push(owned("q1"));
    v.push(owned("q3"));
    v.push(owned("iqr"));
    assert(strings_view(v@) =~= default_statistics_spec());
    v
}

/// How many leading values a data summary previews.
pub const PREVIEW_LEN: usize = 10;

/// The first ten values, or all of them when there are fewer.
pub fn preview<T: Copy>(data: &Vec<T>) -> (r: Vec<T>)
    ensures
        r@ == data@.take(if data@.len() < PREVIEW_LEN { data@.len() as int } else { PREVIEW_LEN as int }),
{
    let n = if data.len() < PREVIEW_LEN {
        data.len()
    } else {
        PREVIEW_LEN
    };
    let mut r: Vec<T> = Vec::new();
    let mut i: usize = 0;
    while i < n
        invariant
            n <= data@.len(),
            i <= n,
            r@ == data@.take(i as int),
        decreases n - i,
    {
        r.push(data[i]);
        i = i + 1;
        assert(r@ =~= data@.take(i as int));
    }
    r
}

/// The total of the durations, in milliseconds.
pub open spec fn total_ms(outcomes: Seq<Result<u64, String>>) -> nat
    decreases outcomes.len(),
{
    if outcomes.len() == 0 {
        0
    } else {
        total_ms(outcomes.drop_last()) + match outcomes.last() {
            Ok(t) => t as nat,
            Err(_) => 0,
        }
    }
}

/// The next engine call of a comprehensive analysis, as plain values.
pub ghost enum PlanModel {
    Generate,
    Calculate(Seq<char>),
    Done(nat),
    Aborted(Seq<char>),
}

/// The next engine call of a comprehensive analysis.
#[derive(Debug)]
pub enum PlanStep {
    /// Generate the data.
    Generate,
    /// Compute this statistic on the generated data.
    Calculate(String),
    /// Every call succeeded; their durations add up to this (saturating).
    Done { total_ms: u64 },
    /// A call failed; this is its error, and no partial result is returned.
    Aborted(String),
}

impl View for PlanStep {
    type V = PlanModel;

    open spec fn view(&self) -> PlanModel {
        match self {
            PlanStep::Generate => PlanModel::Generate,
            PlanStep::Calculate(s) => PlanModel::Calculate(s@),
            PlanStep::Done { total_ms } => PlanModel::Done(*total_ms as nat),
            PlanStep::Aborted(e) => PlanModel::Aborted(e@),
        }
    }
}

/// The calls made so far: the generation first, then one per statistic, in
/// order; the composition stops at the first failure.
pub open spec fn plan_outcomes_ok(statistics: Seq<String>, outcomes: Seq<Result<u64, String>>) -> bool {
    &&& outcomes.len() <= statistics.len() + 1
    &&& forall|k: int| 0 <= k < outcomes.len() - 1 ==> (#[trigger] outcomes[k]) is Ok
}

pub open spec fn plan_step_spec(statistics: Seq<String>, outcomes: Seq<Result<u64, String>>) -> PlanModel {
    let n = outcomes.len();
    if n > 0 && outcomes[n - 1] is Err {
        PlanModel::Aborted(outcomes[n - 1]->Err_0@)
    } else if n == 0 {
        PlanModel::Generate
    } else if n <= statistics.len() {
        PlanModel::Calculate(statistics[n - 1]@)
    } else {
        PlanModel::Done(if total_ms(outcomes) <= u64::MAX { total_ms(outcomes) } else { u64::MAX as nat })
    }
}

/// Decides the next call of a comprehensive analysis from the outcomes of the
/// calls made so far (each a duration in milliseconds, or an error).
pub fn next_plan_step(statistics: &Vec<String>, outcomes: &Vec<Result<u64, String>>) -> (r: PlanStep)
    requires
        plan_outcomes_ok(statistics@, outcomes@),
    ensures
        r@ == plan_step_spec(statistics@, outcomes@),
{
    let n = outcomes.len();
    if n > 0 {
        if let Err(e) = &outcomes[n - 1] {
            return PlanStep::Aborted(e.clone());
        }
    }
    if n == 0 {
        PlanStep::Generate
    } else if n <= statistics.len() {
        PlanStep::Calculate(statistics[n - 1].clone())
    } else {
        let mut total: u64 = 0;
        let mut i: usize = 0;
        while i < n
            invariant
                i <= n,
                n == outcomes@.len(),
                total as nat == if total_ms(outcomes@.take(i as int)) <= u64::MAX {
                    total_ms(outcomes@.take(i as int))
                } else {
                    u64::MAX as nat
                },
            decreases n - i,
        {
            let t: u64 = match &outcomes[i] {
                Ok(t) => *t,
                Err(_) => 0,
            };
            proof {
                assert(outcomes@.take(i + 1).drop_last() =~= outcomes@.take(i as int));
                assert(outcomes@.take(i + 1).last() == outcomes@[i as int]);
            }
            if total > u64::MAX - t {
                total = u64::MAX;
            } else {
                total = total + t;
            }
            i = i + 1;
        }
        assert(outcomes@.take(n as int) =~= outcomes@);
        PlanStep::Done { total_ms: total }
    }
}

/// A comprehensive analysis in which every call succeeds makes exactly one
/// generation call and then one call per statistic, in the order given.
pub proof fn lemma_plan_order(statistics: Seq<String>, outcomes: Seq<Result<u64, String>>)
    requires
        outcomes.len() == statistics.len() + 1,
        forall|k: int| 0 <= k < outcomes.len() ==> (#[trigger] outcomes[k]) is Ok,
    ensures
        plan_step_spec(statistics, outcomes.take(0)) == PlanModel::Generate,
        forall|k: int|
            1 <= k <= statistics.len() ==> plan_step_spec(statistics, #[trigger] outcomes.take(k))
                == PlanModel::Calculate(statistics[k - 1]@),
        plan_step_spec(statistics, outcomes) is Done,
{
    assert forall|k: int| 1 <= k <= statistics.len() implies plan_step_spec(
        statistics,
        #[trigger] outcomes.take(k),
    ) == PlanModel::Calculate(statistics[k - 1]@) by {
        assert(outcomes.take(k)[k - 1] == outcomes[k - 1]);
    }
    assert(outcomes[outcomes.len() - 1] is Ok);
}

/// A failure anywhere aborts the composition with that failure's error, and
/// no further call is made.
pub proof fn lemma_first_failure_aborts(statistics: Seq<String>, outcomes: Seq<Result<u64, String>>, k: int)
    requires
        0 <= k < outcomes.len(),
        outcomes.len() <= statistics.len() + 1,
        forall|i: int| 0 <= i < k ==> (#[trigger] outcomes[i]) is Ok,
        outcomes[k] is Err,
    ensures
        plan_outcomes_ok(statistics, outcomes.take(k + 1)),
        plan_step_spec(statistics, outcomes.take(k + 1)) == PlanModel::Aborted(outcomes[k]->Err_0@),
{
    assert(outcomes.take(k + 1)[k] == outcomes[k]);
    assert forall|i: int| 0 <= i < k implies (#[trigger] outcomes.take(k + 1)[i]) is Ok by {
        assert(outcomes.take(k + 1)[i] == outcomes[i]);
    }
}

/// A seed source for requests that name none: a base time plus a counter.
#[derive(Debug, Clone)]
pub struct SeedGenerator {
    counter: u64,
    base_time: u64,
}

impl SeedGenerator {
    pub closed spec fn counter_spec(&self) -> u64 {
        self.counter
    }

    pub closed spec fn base_spec(&self) -> u64 {
        self.base_time
    }

    /// A generator based on the current time.
    pub fn new() -> (r: SeedGenerator)
        ensures
            r.counter_spec() == 0,
    {
        SeedGenerator { counter: 0, base_time: now_millis() as u64 }
    }

    /// A generator with a given base.
    pub fn with_base(base_time: u64) -> (r: SeedGenerator)
        ensures
            r.counter_spec() == 0,
            r.base_spec() == base_time,
    {
        SeedGenerator { counter: 0, base_time }
    }

    /// The next seed: the base plus the incremented counter, wrapping.
    pub fn next_seed(&mut self) -> (r: u64)
        requires
            old(self).counter_spec() < u64::MAX,
        ensures
            final(self).counter_spec() == old(self).counter_spec() + 1,
            final(self).base_spec() == old(self).base_spec(),
            r as int == (old(self).base_spec() as int + old(self).counter_spec() as int + 1) % (
            u64::MAX as int + 1),
    {
        self.counter = self.counter + 1;
        let r = self.base_time.wrapping_add(self.counter);
        r
    }
}

/// Timing facts of one composed call.
#[derive(Debug)]
pub struct PerformanceInfo {
    pub execution_time_ms: u64,
    pub memory_usage_bytes: Option<u64>,
    pub implementation: String,
    pub metrics: Vec<(String, String)>,
}

/// The throughput of `points` over `ms`, in hundredths, rounded half up.
pub open spec fn rate_hundredths(points: nat, ms: nat) -> nat {
    (points * 200 + ms) / (2 * ms)
}

/// A two-digit fraction, with a leading zero.
pub open spec fn two_digits(n: nat) -> Seq<char> {
    if n < 10 {
        "0"@ + decimal(n)
    } else {
        decimal(n)
    }
}

/// The throughput text: `inf` (or `NaN`) over no time, else two decimals.
pub open spec fn rate_text(points: nat, ms: nat) -> Seq<char> {
    if ms == 0 {
        if points == 0 {
            "NaN"@
        } else {
            "inf"@
        }
    } else {
        decimal(rate_hundredths(points, ms) / 100) + "."@ + two_digits(rate_hundredths(points, ms) % 100)
    }
}

/// The report of a composed analysis.
pub open spec fn report_text(gen_ms: nat, calc_ms: nat, points: nat, implementation: Seq<char>) -> Seq<char> {
    "Performance report\n - data points: "@ + decimal(points) + "\n - data generation: "@ + decimal(gen_ms)
        + "ms\n - statistics: "@ + decimal(calc_ms) + "ms\n - total: "@ + decimal(gen_ms + calc_ms)
        + "ms\n - implementation: "@ + implementation + "\n - throughput: "@ + rate_text(points, gen_ms + calc_ms)
        + " points/ms"@
}

/// A human-readable report of the time spent generating and analysing.
pub fn format_performance_report(
    data_gen_ms: u64,
    stats_calc_ms: u64,
    total_data_points: u32,
    implementation: &str,
) -> (r: String)
    requires
        data_gen_ms + stats_calc_ms <= u64::MAX,
    ensures
        r@ == report_text(data_gen_ms as nat, stats_calc_ms as nat, total_data_points as nat, implementation@),
{
    let total = data_gen_ms + stats_calc_ms;
    let mut s = owned("Performance report\n - data points: ");
    push_decimal(&mut s, total_data_points as u64);
    s.append("\n - data generation: ");
    push_decimal(&mut s, data_gen_ms);
    s.append("ms\n - statistics: ");
    push_decimal(&mut s, stats_calc_ms);
    s.append("ms\n - total: ");
    push_decimal(&mut s, total);
    s.append("ms\n - implementation: ");
    s.append(implementation);
    s.append("\n - throughput: ");
    if total == 0 {
        if total_data_points == 0 {
            s.append("NaN");
        } else {
            s.append("inf");
        }
    } else {
        let points = total_data_points as u128;
        let ms = total as u128;
        let h = (points * 200 + ms) / (2 * ms);
        assert(h == rate_hundredths(total_data_points as nat, total as nat));
        assert(h <= points * 200 + ms) by (nonlinear_arith)
            requires h == (points * 200 + ms) / (2 * ms), ms >= 1;
        push_decimal(&mut s, (h / 100) as u64);
        s.append(".");
        let f = (h % 100) as u64;
        if f < 10 {
            s.append("0");
        }
        push_decimal(&mut s, f);
    }
    s.append(" points/ms");
    s
}

/// The number of points generated when a request names none.
pub const DEFAULT_GENERATE_COUNT: u32 = 10000;

/// The most points that one calculation accepts.
pub const MAX_CALCULATE_POINTS: usize = 10000000;

/// What a generation request resolves to before any value is drawn.
#[derive(Debug)]
pub struct GenerationPlan {
    pub count: u32,
    pub seed: u64,
    /// The catalog name of the generator, such as `generate_uniform`.
    pub algorithm: String,
}

/// Resolves a generation request: the count defaults to 10 000 and must lie
/// in 1..=1 000 000; the distribution defaults to uniform and must be known;
/// a missing seed is drawn from `seeds`. The bounds of the distribution are
/// checked by the caller, which holds them.
pub fn plan_generation(
    count: Option<u32>,
    seed: Option<u64>,
    distribution: Option<&str>,
    seeds: &mut SeedGenerator,
) -> (r: Result<GenerationPlan, EngineError>)
    requires
        old(seeds).counter_spec() < u64::MAX,
    ensures
        ({
            let c = match count {
                Some(c) => c,
                None => DEFAULT_GENERATE_COUNT,
            };
            let d = match distribution {
                Some(d) => d@,
                None => "uniform"@,
            };
            &&& (r is Ok <==> (1 <= c <= MAX_GENERATE_COUNT && generator_of(d) is Some))
            &&& (r is Err ==> r->Err_0.kind == ErrorKind::Validation)
            &&& (r is Ok ==> r->Ok_0.count == c && r->Ok_0.algorithm@ == generator_of(d)->Some_0)
            &&& (r is Ok && seed is Some ==> r->Ok_0.seed == seed->Some_0)
            &&& (seed is Some ==> final(seeds).counter_spec() == old(seeds).counter_spec())
        }),
{
    let c = match count {
        Some(c) => c,
        None => DEFAULT_GENERATE_COUNT,
    };
    match check_generate_count(c as u64) {
        Ok(()) => {},
        Err(e) => return Err(e),
    }
    let algorithm = match distribution {
        Some(d) => generator_algorithm(d),
        None => generator_algorithm("uniform"),
    };
    let algorithm = match algorithm {
        Ok(a) => a,
        Err(e) => return Err(e),
    };
    let seed = match seed {
        Some(s) => s,
        None => seeds.next_seed(),
    };
    Ok(GenerationPlan { count: c, seed, algorithm: owned(algorithm) })
}

/// A calculation needs at least one point and at most 10 000 000.
pub fn check_calculation_size(len: usize) -> (r: Result<(), EngineError>)
    ensures
        r is Ok <==> 1 <= len <= MAX_CALCULATE_POINTS,
        len == 0 ==> r is Err && r->Err_0.kind == ErrorKind::EmptyData,
        len > MAX_CALCULATE_POINTS ==> r is Err && r->Err_0.kind == ErrorKind::Validation,
{
    if len == 0 {
        Err(EngineError::new(ErrorKind::EmptyData, "Empty data"))
    } else if len > MAX_CALCULATE_POINTS {
        Err(EngineError::new(ErrorKind::Validation, "at most 10000000 data points are accepted"))
    } else {
        Ok(())
    }
}

/// The bookkeeping of the data generator: what it drew last. The drawing
/// itself happens outside the library, which holds no floating-point data.
#[derive(Debug)]
pub struct DefaultRandomDataGenerator {
    last: Option<(String, u32)>,
}

impl DefaultRandomDataGenerator {
    pub closed spec fn last_spec(&self) -> Option<(Seq<char>, u32)> {
        match self.last {
            Some(p) => Some((p.0@, p.1)),
            None => None,
        }
    }

    /// A generator that has drawn nothing yet.
    pub fn new() -> (r: DefaultRandomDataGenerator)
        ensures
            r.last_spec() is None,
    {
        DefaultRandomDataGenerator { last: None }
    }

    /// Records a draw of `count` values from `distribution`.
    pub fn record_draw(&mut self, distribution: &str, count: u32)
        ensures
            final(self).last_spec() == Some((distribution@, count)),
    {
        self.last = Some((owned(distribution), count));
    }

    /// The metrics of the last draw: `last_distribution` and `last_count`.
    pub fn get_performance_metrics(&self) -> (r: Vec<(String, String)>)
        ensures
            self.last_spec() is None ==> r@.len() == 0,
            self.last_spec() matches Some((d, c)) ==> r@.len() == 2 && r@[0].0@ == "last_distribution"@
                && r@[0].1@ == d && r@[1].0@ == "last_count"@ && r@[1].1@ == decimal(c as nat),
    {
        let mut v: Vec<(String, String)> = Vec::new();
        match &self.last {
            Some((d, c)) => {
                v.push((owned("last_distribution"), d.clone()));
                v.push((owned("last_count"), decimal_string(*c as u64)));
            },
            None => {},
        }
        v
    }
}

} // verus!
