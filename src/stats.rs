//! Aggregation of every worker's recorded latencies into one histogram of the
//! `histogram` crate, and the summary statistics derived from it.
use vstd::multiset::Multiset;
use vstd::prelude::*;

use crate::worker::{lemma_uninterrupted_run_is_complete, state_wf, Phase, WorkerState};

verus! {

#[verifier::external_type_specification]
#[verifier::external_body]
pub struct ExHistogram(histogram::Histogram);

/// The largest value that a histogram with the `histogram` crate's default
/// configuration counts in a bucket: sixty seconds, in nanoseconds.
pub const LARGEST_SAMPLE_NS: u64 = 60_000_000_000;

/// The values counted into `h` so far, the too-large ones included.
pub uninterp spec fn recorded(h: histogram::Histogram) -> Multiset<u64>;

/// Whether `h` has the `histogram` crate's default bucket layout.
pub uninterp spec fn default_layout(h: histogram::Histogram) -> bool;

/// The bucket-approximate minimum that a default histogram of `s` reports.
pub uninterp spec fn bucket_minimum(s: Multiset<u64>) -> u64;

/// The bucket-approximate maximum that a default histogram of `s` reports.
pub uninterp spec fn bucket_maximum(s: Multiset<u64>) -> u64;

/// The bucket-approximate mean, rounded up, of a default histogram of `s`.
pub uninterp spec fn bucket_mean(s: Multiset<u64>) -> u64;

/// The bucket-approximate population standard deviation, rounded up, of a
/// default histogram of `s`.
pub uninterp spec fn bucket_stddev(s: Multiset<u64>) -> u64;

/// Whether every value in `s` fits the default layout's buckets.
pub open spec fn within_buckets(s: Multiset<u64>) -> bool {
    forall|v: u64| #[trigger] s.count(v) > 0 ==> v <= LARGEST_SAMPLE_NS
}

/// Relies on histogram::Histogram::new: an empty histogram with the default
/// configuration.
#[verifier::external_body]
fn new_histogram() -> (r: histogram::Histogram)
    ensures
        recorded(r) == Multiset::<u64>::empty(),
        default_layout(r),
{
    histogram::Histogram::new()
}

/// Relies on histogram::Histogram::increment: the value is counted in every
/// case, and the call fails exactly when the value exceeds the configured
/// largest value, which is `LARGEST_SAMPLE_NS` by default.
#[verifier::external_body]
fn increment_histogram(h: &mut histogram::Histogram, v: u64) -> (r: Result<(), &'static str>)
    ensures
        recorded(*final(h)) == recorded(*old(h)).insert(v),
        default_layout(*final(h)) == default_layout(*old(h)),
        default_layout(*old(h)) ==> (r is Err <==> v > LARGEST_SAMPLE_NS),
{
    h.increment(v)
}

/// Relies on histogram::Histogram::entries: the number of values counted,
/// saturating at `u64::MAX`.
#[verifier::external_body]
fn histogram_entries(h: &histogram::Histogram) -> (r: u64)
    ensures
        r as nat == if recorded(*h).len() <= u64::MAX {
            recorded(*h).len()
        } else {
            u64::MAX as nat
        },
{
    h.entries()
}

/// Relies on histogram::Histogram::minimum: fails on an empty histogram, and
/// finds the lowest non-empty bucket when every value fits a bucket.
#[verifier::external_body]
fn histogram_minimum(h: &histogram::Histogram) -> (r: Result<u64, &'static str>)
    ensures
        recorded(*h).len() == 0 ==> r is Err,
        default_layout(*h) && recorded(*h).len() > 0 && within_buckets(recorded(*h)) ==> (r is Ok
            && r->Ok_0 == bucket_minimum(recorded(*h))),
{
    h.minimum()
}

/// Relies on histogram::Histogram::maximum: fails on an empty histogram, and
/// finds the highest non-empty bucket when every value fits a bucket.
#[verifier::external_body]
fn histogram_maximum(h: &histogram::Histogram) -> (r: Result<u64, &'static str>)
    ensures
        recorded(*h).len() == 0 ==> r is Err,
        default_layout(*h) && recorded(*h).len() > 0 && within_buckets(recorded(*h)) ==> (r is Ok
            && r->Ok_0 == bucket_maximum(recorded(*h))),
{
    h.maximum()
}

/// Relies on histogram::Histogram::mean: fails exactly on an empty histogram.
#[verifier::external_body]
fn histogram_mean(h: &histogram::Histogram) -> (r: Result<u64, &'static str>)
    ensures
        r is Err <==> recorded(*h).len() == 0,
        default_layout(*h) && r is Ok ==> r->Ok_0 == bucket_mean(recorded(*h)),
{
    h.mean()
}

/// Relies on histogram::Histogram::stddev: `None` exactly on an empty histogram.
#[verifier::external_body]
fn histogram_stddev(h: &histogram::Histogram) -> (r: Option<u64>)
    ensures
        r is None <==> recorded(*h).len() == 0,
        default_layout(*h) && r is Some ==> r->Some_0 == bucket_stddev(recorded(*h)),
{
    h.stddev()
}

/// The values of `s`, as a multiset.
pub open spec fn sample_multiset(s: Seq<u64>) -> Multiset<u64>
    decreases s.len(),
{
    if s.len() == 0 {
        Multiset::empty()
    } else {
        sample_multiset(s.drop_last()).insert(s.last())
    }
}

/// Every value recorded by every worker.
pub open spec fn all_samples(rs: Seq<Seq<u64>>) -> Multiset<u64>
    decreases rs.len(),
{
    if rs.len() == 0 {
        Multiset::empty()
    } else {
        all_samples(rs.drop_last()).add(sample_multiset(rs.last()))
    }
}

/// The number of draws recorded over all workers.
pub open spec fn total_samples(rs: Seq<Seq<u64>>) -> nat
    decreases rs.len(),
{
    if rs.len() == 0 {
        0
    } else {
        total_samples(rs.drop_last()) + rs.last().len()
    }
}

/// Whether every recorded value fits the default layout's buckets.
pub open spec fn all_within_buckets(rs: Seq<Seq<u64>>) -> bool {
    forall|i: int, j: int|
        0 <= i < rs.len() && 0 <= j < rs[i].len() ==> #[trigger] rs[i][j] <= LARGEST_SAMPLE_NS
}

pub proof fn lemma_sample_multiset_len(s: Seq<u64>)
    ensures
        sample_multiset(s).len() == s.len(),
    decreases s.len(),
{
    if s.len() > 0 {
        lemma_sample_multiset_len(s.drop_last());
    }
}

proof fn lemma_sample_multiset_within(s: Seq<u64>)
    requires
        forall|j: int| 0 <= j < s.len() ==> #[trigger] s[j] <= LARGEST_SAMPLE_NS,
    ensures
        within_buckets(sample_multiset(s)),
    decreases s.len(),
{
    if s.len() > 0 {
        assert forall|j: int| 0 <= j < s.drop_last().len() implies #[trigger] s.drop_last()[j]
            <= LARGEST_SAMPLE_NS by {
            assert(s.drop_last()[j] == s[j]);
        }
        lemma_sample_multiset_within(s.drop_last());
    }
}

/// The number of values over all workers is the number of draws they recorded.
pub proof fn lemma_all_samples_len(rs: Seq<Seq<u64>>)
    ensures
        all_samples(rs).len() == total_samples(rs),
    decreases rs.len(),
{
    if rs.len() > 0 {
        lemma_all_samples_len(rs.drop_last());
        lemma_sample_multiset_len(rs.last());
    }
}

proof fn lemma_all_samples_within(rs: Seq<Seq<u64>>)
    requires
        all_within_buckets(rs),
    ensures
        within_buckets(all_samples(rs)),
    decreases rs.len(),
{
    if rs.len() > 0 {
        let init = rs.drop_last();
        assert forall|i: int, j: int| 0 <= i < init.len() && 0 <= j < init[i].len() implies #[trigger] init[i][j]
            <= LARGEST_SAMPLE_NS by {
            assert(init[i] == rs[i]);
            assert(rs[i][j] <= LARGEST_SAMPLE_NS);
        }
        lemma_all_samples_within(init);
        let last = rs.last();
        assert forall|j: int| 0 <= j < last.len() implies #[trigger] last[j] <= LARGEST_SAMPLE_NS by {
            assert(rs[rs.len() - 1][j] <= LARGEST_SAMPLE_NS);
        }
        lemma_sample_multiset_within(last);
    }
}

/// When every one of `w` workers made exactly `k` draws, `w * k` draws were
/// recorded in all.
pub proof fn lemma_full_runs_total(rs: Seq<Seq<u64>>, k: nat)
    requires
        forall|i: int| 0 <= i < rs.len() ==> (#[trigger] rs[i]).len() == k,
    ensures
        total_samples(rs) == rs.len() * k,
    decreases rs.len(),
{
    if rs.len() > 0 {
        let init = rs.drop_last();
        assert forall|i: int| 0 <= i < init.len() implies (#[trigger] init[i]).len() == k by {
            assert(init[i] == rs[i]);
        }
        lemma_full_runs_total(init, k);
        assert(rs.last() == rs[rs.len() - 1]);
        assert(rs.len() * k == init.len() * k + k) by (nonlinear_arith)
            requires
                init.len() == rs.len() - 1,
        ;
    }
}

/// Why recorded latencies could not be aggregated.
#[derive(Clone, Copy, Debug, PartialEq, Eq, Structural)]
pub enum AggregateError {
    /// A latency exceeded `LARGEST_SAMPLE_NS`, the histogram's largest value.
    SampleTooLarge,
}

/// Why summary statistics could not be derived.
#[derive(Clone, Copy, Debug, PartialEq, Eq, Structural)]
pub enum StatsError {
    /// No draw was recorded: every statistic is undefined.
    Empty,
}

/// One histogram of every worker's recorded latencies, in nanoseconds.
pub struct Aggregate {
    hist: histogram::Histogram,
}

impl View for Aggregate {
    type V = Multiset<u64>;

    closed spec fn view(&self) -> Multiset<u64> {
        recorded(self.hist)
    }
}

impl Aggregate {
    #[verifier::type_invariant]
    spec fn inv(&self) -> bool {
        default_layout(self.hist) && within_buckets(recorded(self.hist))
    }

    /// Feeds every worker's recorded latencies into one histogram. Fails when
    /// a latency exceeds the histogram's largest value.
    pub fn from_samples(recorders: &Vec<Vec<u64>>) -> (r: Result<Aggregate, AggregateError>)
        ensures
            r is Ok <==> all_within_buckets(recorders.deep_view()),
            r is Ok ==> r->Ok_0@ == all_samples(recorders.deep_view()),
            r is Err ==> r->Err_0 == AggregateError::SampleTooLarge,
    {
        let ghost rs = recorders.deep_view();
        let mut hist = new_histogram();
        let mut i: usize = 0;
        while i < recorders.len()
            invariant
                0 <= i <= recorders.len(),
                rs == recorders.deep_view(),
                default_layout(hist),
                recorded(hist) == all_samples(rs.take(i as int)),
                all_within_buckets(rs.take(i as int)),
            decreases recorders.len() - i,
        {
            let rec = &recorders[i];
            assert(rec@ == rs[i as int]);
            let mut j: usize = 0;
            while j < rec.len()
                invariant
                    0 <= i < recorders.len(),
                    0 <= j <= rec.len(),
                    rs == recorders.deep_view(),
                    rec@ == rs[i as int],
                    default_layout(hist),
                    recorded(hist) == all_samples(rs.take(i as int)).add(
                        sample_multiset(rec@.take(j as int)),
                    ),
                    all_within_buckets(rs.take(i as int)),
                    forall|m: int| 0 <= m < j ==> #[trigger] rec@[m] <= LARGEST_SAMPLE_NS,
                decreases rec.len() - j,
            {
                let v = rec[j];
                let res = increment_histogram(&mut hist, v);
                if res.is_err() {
                    assert(rs[i as int][j as int] > LARGEST_SAMPLE_NS);
                    return Err(AggregateError::SampleTooLarge);
                }
                assert(rec@.take(j + 1).drop_last() =~= rec@.take(j as int));
                assert(recorded(hist) =~= all_samples(rs.take(i as int)).add(
                    sample_multiset(rec@.take(j + 1)),
                ));
                j = j + 1;
            }
            assert(rec@.take(j as int) =~= rec@);
            assert(rs.take(i + 1).drop_last() =~= rs.take(i as int));
            assert forall|a: int, b: int|
                0 <= a < rs.take(i + 1).len() && 0 <= b < rs.take(i + 1)[a].len() implies #[trigger] rs.take(
                i + 1,
            )[a][b] <= LARGEST_SAMPLE_NS by {
                if a < i {
                    assert(rs.take(i + 1)[a] == rs.take(i as int)[a]);
                } else {
                    assert(rs.take(i + 1)[a] == rec@);
                }
            }
            i = i + 1;
        }
        assert(rs.take(i as int) =~= rs);
        proof {
            lemma_all_samples_within(rs);
        }
        Ok(Aggregate { hist })
    }
}

/// `n`, or `u64::MAX` when it does not fit.
pub open spec fn saturated(n: nat) -> u64 {
    if n <= u64::MAX {
        n as u64
    } else {
        u64::MAX
    }
}

/// The four percentile values of a summary, at ranks 50, 90, 99 and 99.9.
#[derive(Clone, Copy, Debug, PartialEq, Eq, Structural)]
pub struct Percentiles {
    pub p50: u64,
    pub p90: u64,
    pub p99: u64,
    pub p999: u64,
}

/// Summary statistics of a run, all times in nanoseconds.
#[derive(Clone, Copy, Debug, PartialEq, Eq, Structural)]
pub struct Stats {
    pub num_entries: u64,
    pub mean: u64,
    pub stddev: u64,
    pub min: u64,
    pub max: u64,
    pub p50: u64,
    pub p90: u64,
    pub p99: u64,
    pub p999: u64,
}

/// The summary of the values `s` with the given percentiles.
pub open spec fn summary_of(s: Multiset<u64>, p: Percentiles) -> Stats {
    Stats {
        num_entries: saturated(s.len()),
        mean: bucket_mean(s),
        stddev: bucket_stddev(s),
        min: bucket_minimum(s),
        max: bucket_maximum(s),
        p50: p.p50,
        p90: p.p90,
        p99: p.p99,
        p999: p.p999,
    }
}

impl Aggregate {
    /// The number of latencies aggregated, saturating at `u64::MAX`.
    pub fn count(&self) -> (r: u64)
        ensures
            r == saturated(self@.len()),
    {
        histogram_entries(&self.hist)
    }

    /// The histogram itself, for queries the library does not make.
    pub fn histogram(&self) -> (r: &histogram::Histogram)
        ensures
            recorded(*r) == self@,
    {
        &self.hist
    }

    /// Derives the summary statistics, taking the percentiles as read from the
    /// histogram. Fails exactly when no latency was aggregated.
    pub fn stats(&self, percentiles: Percentiles) -> (r: Result<Stats, StatsError>)
        ensures
            r is Err <==> self@.len() == 0,
            r is Err ==> r->Err_0 == StatsError::Empty,
            r is Ok ==> r->Ok_0 == summary_of(self@, percentiles),
    {
        proof {
            use_type_invariant(self);
        }
        let h = &self.hist;
        let num_entries = histogram_entries(h);
        if num_entries == 0 {
            return Err(StatsError::Empty);
        }
        let mean = match histogram_mean(h) {
            Ok(v) => v,
            Err(_) => return Err(StatsError::Empty),
        };
        let stddev = match histogram_stddev(h) {
            Some(v) => v,
            None => return Err(StatsError::Empty),
        };
        let min = match histogram_minimum(h) {
            Ok(v) => v,
            Err(_) => return Err(StatsError::Empty),
        };
        let max = match histogram_maximum(h) {
            Ok(v) => v,
            Err(_) => return Err(StatsError::Empty),
        };
        Ok(
            Stats {
                num_entries,
                mean,
                stddev,
                min,
                max,
                p50: percentiles.p50,
                p90: percentiles.p90,
                p99: percentiles.p99,
                p999: percentiles.p999,
            },
        )
    }
}

/// The histogram's count is the total number of draws that the workers
/// recorded, whether each stopped at its iteration limit or on shutdown.
pub proof fn lemma_count_is_total_draws(rs: Seq<Seq<u64>>, a: Aggregate)
    requires
        a@ == all_samples(rs),
    ensures
        a@.len() == total_samples(rs),
        total_samples(rs) <= u64::MAX ==> saturated(a@.len()) == total_samples(rs),
{
    lemma_all_samples_len(rs);
}

/// A worker's draws are part of the total.
proof fn lemma_total_covers_each(rs: Seq<Seq<u64>>, i: int)
    requires
        0 <= i < rs.len(),
    ensures
        rs[i].len() <= total_samples(rs),
    decreases rs.len(),
{
    if i < rs.len() - 1 {
        assert(rs.drop_last()[i] == rs[i]);
        lemma_total_covers_each(rs.drop_last(), i);
    }
}

/// Once any worker has completed a cycle, the aggregate of all workers'
/// samples is non-empty, so deriving its summary succeeds.
pub proof fn lemma_nonempty_summary_succeeds(rs: Seq<Seq<u64>>, a: Aggregate, i: int)
    requires
        a@ == all_samples(rs),
        0 <= i < rs.len(),
        rs[i].len() >= 1,
    ensures
        a@.len() > 0,
{
    lemma_all_samples_len(rs);
    lemma_total_covers_each(rs, i);
}

/// When every one of `w` workers configured for `k` draws stopped without
/// observing shutdown, the histogram counts exactly `w * k` draws.
pub proof fn lemma_uninterrupted_fleet_total(
    states: Seq<WorkerState>,
    rs: Seq<Seq<u64>>,
    k: nat,
    a: Aggregate,
)
    requires
        states.len() == rs.len(),
        forall|i: int|
            0 <= i < states.len() ==> {
                &&& state_wf(#[trigger] states[i])
                &&& states[i].phase == Phase::Stopped
                &&& !states[i].interrupted
                &&& states[i].iterations == k
                &&& rs[i] == states[i].samples
            },
        a@ == all_samples(rs),
    ensures
        a@.len() == rs.len() * k,
{
    assert forall|i: int| 0 <= i < rs.len() implies (#[trigger] rs[i]).len() == k by {
        lemma_uninterrupted_run_is_complete(states[i]);
    }
    lemma_full_runs_total(rs, k);
    lemma_all_samples_len(rs);
}

} // verus!
