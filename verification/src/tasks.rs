//! The periodic update tasks, and the decisions they make while fetching.
//!
//! A task holds the IDs it watches, the metrics it updates, a client and the
//! refresh interval.  It runs in passes over its IDs, in the order given: an
//! initializing pass stops at the first ID whose fetch fails (that failure is
//! the task's startup error), while a refresh pass goes on past failures so
//! that every ID is fetched once per interval.  The fetching itself is done by
//! the caller; `Pass` says what to fetch next and what a result means.

use crate::buoy_client::BuoyClient;
use crate::buoy_metrics::BuoyMetrics;
use crate::water_client::WaterGaugeClient;
use crate::water_metrics::WaterLevelMetrics;
use core::time::Duration;
pub use vstd::hash_map::StringHashMap;
use vstd::prelude::*;

verus! {

/// How a pass treats a failed fetch.
#[derive(Clone, Copy, Debug, PartialEq, Eq, Structural)]
pub enum PassKind {
    /// Stop at the first failure.
    Initialize,
    /// Log the failure and go on.
    Refresh,
}

/// What a pass does next.
#[derive(Clone, Copy, Debug, PartialEq, Eq, Structural)]
pub enum PassStep {
    /// Fetch the ID at this index.
    Fetch(usize),
    /// Every ID was fetched (successfully, for an initializing pass).
    Done,
    /// An initializing pass met a failure.
    Failed,
}

/// A pass over `total` IDs.
#[derive(Clone, Copy, Debug, PartialEq, Eq, Structural)]
pub struct Pass {
    pub kind: PassKind,
    pub total: usize,
    pub next: usize,
    pub failed: bool,
}

/// The step a pass state calls for.
pub open spec fn step_of(p: Pass) -> PassStep {
    if p.failed {
        PassStep::Failed
    } else if p.next < p.total {
        PassStep::Fetch(p.next)
    } else {
        PassStep::Done
    }
}

/// The pass state after the fetch it called for gave `ok`.
pub open spec fn after_result(p: Pass, ok: bool) -> Pass {
    if !ok && p.kind == PassKind::Initialize {
        Pass { failed: true, ..p }
    } else {
        Pass { next: (p.next + 1) as usize, ..p }
    }
}

/// The state of a pass over `total` IDs after the fetch results `results`, in order.
pub open spec fn run_pass(kind: PassKind, total: usize, results: Seq<bool>) -> Pass
    decreases results.len(),
{
    if results.len() == 0 {
        Pass { kind, total, next: 0, failed: false }
    } else {
        after_result(run_pass(kind, total, results.drop_last()), results.last())
    }
}

impl Pass {
    /// A pass that has fetched nothing yet.
    pub fn start(kind: PassKind, total: usize) -> (r: Pass)
        ensures
            r == run_pass(kind, total, Seq::<bool>::empty()),
    {
        Pass { kind, total, next: 0, failed: false }
    }

    /// What to do next.
    pub fn step(&self) -> (r: PassStep)
        ensures
            r == step_of(*self),
    {
        if self.failed {
            PassStep::Failed
        } else if self.next < self.total {
            PassStep::Fetch(self.next)
        } else {
            PassStep::Done
        }
    }

    /// Record the result of the fetch this pass called for.
    pub fn record(&mut self, ok: bool)
        requires
            step_of(*old(self)) is Fetch,
        ensures
            *final(self) == after_result(*old(self), ok),
    {
        if !ok && self.kind == PassKind::Initialize {
            self.failed = true;
        } else {
            self.next = self.next + 1;
        }
    }
}

/// A refresh pass fetches every ID once, in order, whatever the results: after
/// `n` results (`n` at most the number of IDs) it asks for the ID at index `n`,
/// and after one result per ID it is done.
pub proof fn lemma_refresh_fetches_every_id(total: usize, results: Seq<bool>)
    requires
        results.len() <= total,
    ensures
        run_pass(PassKind::Refresh, total, results).kind == PassKind::Refresh,
        run_pass(PassKind::Refresh, total, results).total == total,
        run_pass(PassKind::Refresh, total, results).next == results.len(),
        !run_pass(PassKind::Refresh, total, results).failed,
        results.len() < total ==> step_of(run_pass(PassKind::Refresh, total, results))
            == PassStep::Fetch(results.len() as usize),
        results.len() == total ==> step_of(run_pass(PassKind::Refresh, total, results))
            == PassStep::Done,
    decreases results.len(),
{
    if results.len() > 0 {
        let prefix = results.drop_last();
        lemma_refresh_fetches_every_id(total, prefix);
        let prev = run_pass(PassKind::Refresh, total, prefix);
        assert(prev.next < total);
        assert(run_pass(PassKind::Refresh, total, results) == after_result(prev, results.last()));
    }
}

/// An initializing pass stops at the first failure: while every result so far
/// succeeded it asks for the next ID (and is done after the last one); once a
/// fetch fails it has failed, and asks for nothing more.
pub proof fn lemma_initialize_stops_at_first_failure(total: usize, results: Seq<bool>)
    requires
        results.len() <= total,
        forall|i: int| 0 <= i < results.len() - 1 ==> #[trigger] results[i],
    ensures
        run_pass(PassKind::Initialize, total, results).kind == PassKind::Initialize,
        run_pass(PassKind::Initialize, total, results).total == total,
        results.len() == 0 || results.last() ==> {
            &&& run_pass(PassKind::Initialize, total, results).next == results.len()
            &&& !run_pass(PassKind::Initialize, total, results).failed
            &&& results.len() < total ==> step_of(run_pass(PassKind::Initialize, total, results))
                == PassStep::Fetch(results.len() as usize)
            &&& results.len() == total ==> step_of(
                run_pass(PassKind::Initialize, total, results),
            ) == PassStep::Done
        },
        results.len() > 0 && !results.last() ==> {
            &&& run_pass(PassKind::Initialize, total, results).failed
            &&& run_pass(PassKind::Initialize, total, results).next == results.len() - 1
            &&& step_of(run_pass(PassKind::Initialize, total, results)) == PassStep::Failed
        },
    decreases results.len(),
{
    if results.len() > 0 {
        let prefix = results.drop_last();
        assert forall|i: int| 0 <= i < prefix.len() - 1 implies #[trigger] prefix[i] by {
            assert(prefix[i] == results[i]);
        }
        lemma_initialize_stops_at_first_failure(total, prefix);
        if prefix.len() > 0 {
            assert(prefix.last() == results[results.len() - 2]);
        }
        let prev = run_pass(PassKind::Initialize, total, prefix);
        assert(run_pass(PassKind::Initialize, total, results) == after_result(prev, results.last()));
    }
}

// ---------------------------------------------------------------------------
// Tasks
// ---------------------------------------------------------------------------

/// Task for periodically updating forecast metrics for multiple NWS weather
/// stations.
pub struct WeatherUpdateTask<M, C> {
    pub stations: Vec<String>,
    pub metrics: M,
    pub client: C,
    pub interval: Duration,
}

impl<M, C> WeatherUpdateTask<M, C> {
    pub fn new(stations: Vec<String>, metrics: M, client: C, interval: Duration) -> (r: Self)
        ensures
            r.stations@ == stations@,
            r.metrics == metrics,
            r.client == client,
            r.interval == interval,
    {
        WeatherUpdateTask { stations, metrics, client, interval }
    }
}

/// Task for periodically updating water level metrics for multiple NOAA water gauges.
pub struct WaterUpdateTask {
    pub gauges: Vec<String>,
    pub metrics: WaterLevelMetrics,
    pub client: WaterGaugeClient,
    pub interval: Duration,
}

impl WaterUpdateTask {
    pub fn new(
        gauges: Vec<String>,
        metrics: WaterLevelMetrics,
        client: WaterGaugeClient,
        interval: Duration,
    ) -> (r: Self)
        ensures
            r.gauges@ == gauges@,
            r.metrics == metrics,
            r.client == client,
            r.interval == interval,
    {
        WaterUpdateTask { gauges, metrics, client, interval }
    }
}

/// Task for periodically updating buoy/coastal station metrics for multiple
/// NOAA NDBC stations.
pub struct BuoyUpdateTask {
    pub buoys: Vec<String>,
    pub metrics: BuoyMetrics,
    pub client: BuoyClient,
    pub names: StringHashMap<String>,
    pub interval: Duration,
}

/// The friendly name recorded for a station, or the empty string.
pub open spec fn name_in(names: Map<Seq<char>, String>, station_id: Seq<char>) -> Seq<char> {
    if names.contains_key(station_id) {
        names[station_id]@
    } else {
        Seq::<char>::empty()
    }
}

impl BuoyUpdateTask {
    pub fn new(
        buoys: Vec<String>,
        metrics: BuoyMetrics,
        client: BuoyClient,
        names: StringHashMap<String>,
        interval: Duration,
    ) -> (r: Self)
        ensures
            r.buoys@ == buoys@,
            r.metrics == metrics,
            r.client == client,
            r.names@ == names@,
            r.interval == interval,
    {
        BuoyUpdateTask { buoys, metrics, client, names, interval }
    }

    /// The friendly name of a station, or `""` when it has none.
    pub fn name_for(&self, station_id: &str) -> (r: &str)
        ensures
            r@ == name_in(self.names@, station_id@),
    {
        match self.names.get(station_id) {
            Some(n) => n.as_str(),
            None => {
                proof {
                    reveal_strlit("");
                }
                ""
            },
        }
    }
}

} // verus!
