//! The values of the water gauge metrics.
//!
//! All metrics use the prefix `nws_water_` and carry a `gauge` label set to the
//! gauge LID (e.g. `DSPI2`) and a `gauge_name` label set to the gauge's name
//! (e.g. `Des Plaines River`); the metadata metric `nws_water_gauge` also
//! carries a `state` label.  A reading equal to or below the NOAA sentinel
//! -999 means "unavailable" and is never exported.

use crate::decimal::{duplicate_opt, reading_gt_int, reading_of, Decimal, Reading, ReadingView};
use crate::gauge::{GaugeFamily, LabelValues};
use crate::water_client::{FloodCategories, FloodThreshold, WaterGauge};
use vstd::prelude::*;

verus! {

/// The value the NOAA API uses when a measurement is unavailable.
pub const NOAA_SENTINEL: i64 = -999;

/// The water gauge metrics, in registration order.
#[derive(Clone, Copy, Debug, PartialEq, Eq, Structural)]
pub enum WaterMetric {
    GaugeInfo,
    Stage,
    Flow,
    ActionStage,
    MinorFloodStage,
    ModerateFloodStage,
    MajorFloodStage,
}

/// The registered name of a metric.
pub open spec fn water_metric_name(m: WaterMetric) -> Seq<char> {
    match m {
        WaterMetric::GaugeInfo => "nws_water_gauge"@,
        WaterMetric::Stage => "nws_water_stage_feet"@,
        WaterMetric::Flow => "nws_water_flow_kcfs"@,
        WaterMetric::ActionStage => "nws_water_action_stage_feet"@,
        WaterMetric::MinorFloodStage => "nws_water_minor_flood_stage_feet"@,
        WaterMetric::ModerateFloodStage => "nws_water_moderate_flood_stage_feet"@,
        WaterMetric::MajorFloodStage => "nws_water_major_flood_stage_feet"@,
    }
}

/// The help text of a metric.
pub open spec fn water_metric_help(m: WaterMetric) -> Seq<char> {
    match m {
        WaterMetric::GaugeInfo => "Water gauge metadata"@,
        WaterMetric::Stage => "Current observed water stage in feet"@,
        WaterMetric::Flow => "Current observed flow in kcfs (thousands of cubic feet per second)"@,
        WaterMetric::ActionStage => "Action stage threshold in feet"@,
        WaterMetric::MinorFloodStage => "Minor flood stage threshold in feet"@,
        WaterMetric::ModerateFloodStage => "Moderate flood stage threshold in feet"@,
        WaterMetric::MajorFloodStage => "Major flood stage threshold in feet"@,
    }
}

pub open spec fn all_water_metrics() -> Seq<WaterMetric> {
    seq![
        WaterMetric::GaugeInfo,
        WaterMetric::Stage,
        WaterMetric::Flow,
        WaterMetric::ActionStage,
        WaterMetric::MinorFloodStage,
        WaterMetric::ModerateFloodStage,
        WaterMetric::MajorFloodStage,
    ]
}

impl WaterMetric {
    /// The registered name.
    pub fn name(&self) -> (r: &'static str)
        ensures
            r@ == water_metric_name(*self),
    {
        match self {
            WaterMetric::GaugeInfo => "nws_water_gauge",
            WaterMetric::Stage => "nws_water_stage_feet",
            WaterMetric::Flow => "nws_water_flow_kcfs",
            WaterMetric::ActionStage => "nws_water_action_stage_feet",
            WaterMetric::MinorFloodStage => "nws_water_minor_flood_stage_feet",
            WaterMetric::ModerateFloodStage => "nws_water_moderate_flood_stage_feet",
            WaterMetric::MajorFloodStage => "nws_water_major_flood_stage_feet",
        }
    }

    /// The help text.
    pub fn help(&self) -> (r: &'static str)
        ensures
            r@ == water_metric_help(*self),
    {
        match self {
            WaterMetric::GaugeInfo => "Water gauge metadata",
            WaterMetric::Stage => "Current observed water stage in feet",
            WaterMetric::Flow => "Current observed flow in kcfs (thousands of cubic feet per second)",
            WaterMetric::ActionStage => "Action stage threshold in feet",
            WaterMetric::MinorFloodStage => "Minor flood stage threshold in feet",
            WaterMetric::ModerateFloodStage => "Moderate flood stage threshold in feet",
            WaterMetric::MajorFloodStage => "Major flood stage threshold in feet",
        }
    }

    /// All metrics, in registration order.
    pub fn all() -> (r: Vec<WaterMetric>)
        ensures
            r@ == all_water_metrics(),
    {
        let r = vec![
            WaterMetric::GaugeInfo,
            WaterMetric::Stage,
            WaterMetric::Flow,
            WaterMetric::ActionStage,
            WaterMetric::MinorFloodStage,
            WaterMetric::ModerateFloodStage,
            WaterMetric::MajorFloodStage,
        ];
        assert(r@ =~= all_water_metrics());
        r
    }
}

/// Every water metric is named with the prefix `nws_water_`.
pub proof fn lemma_water_metric_names_prefixed(m: WaterMetric)
    ensures
        water_metric_name(m).len() > 10,
        water_metric_name(m).take(10) == "nws_water_"@,
{
    reveal_strlit("nws_water_");
    match m {
        WaterMetric::GaugeInfo => reveal_strlit("nws_water_gauge"),
        WaterMetric::Stage => reveal_strlit("nws_water_stage_feet"),
        WaterMetric::Flow => reveal_strlit("nws_water_flow_kcfs"),
        WaterMetric::ActionStage => reveal_strlit("nws_water_action_stage_feet"),
        WaterMetric::MinorFloodStage => reveal_strlit("nws_water_minor_flood_stage_feet"),
        WaterMetric::ModerateFloodStage => reveal_strlit("nws_water_moderate_flood_stage_feet"),
        WaterMetric::MajorFloodStage => reveal_strlit("nws_water_major_flood_stage_feet"),
    }
    assert(water_metric_name(m).take(10) =~= "nws_water_"@);
}

/// The length of a metric's name and its twelfth character, which tell the
/// names apart.
spec fn water_name_key(m: WaterMetric) -> (nat, char) {
    match m {
        WaterMetric::GaugeInfo => (15, 'a'),
        WaterMetric::Stage => (20, 't'),
        WaterMetric::Flow => (19, 'l'),
        WaterMetric::ActionStage => (27, 'c'),
        WaterMetric::MinorFloodStage => (32, 'i'),
        WaterMetric::ModerateFloodStage => (35, 'o'),
        WaterMetric::MajorFloodStage => (32, 'a'),
    }
}

proof fn lemma_water_name_key(m: WaterMetric)
    ensures
        water_metric_name(m).len() == water_name_key(m).0,
        water_metric_name(m)[11] == water_name_key(m).1,
{
    match m {
        WaterMetric::GaugeInfo => reveal_strlit("nws_water_gauge"),
        WaterMetric::Stage => reveal_strlit("nws_water_stage_feet"),
        WaterMetric::Flow => reveal_strlit("nws_water_flow_kcfs"),
        WaterMetric::ActionStage => reveal_strlit("nws_water_action_stage_feet"),
        WaterMetric::MinorFloodStage => reveal_strlit("nws_water_minor_flood_stage_feet"),
        WaterMetric::ModerateFloodStage => reveal_strlit("nws_water_moderate_flood_stage_feet"),
        WaterMetric::MajorFloodStage => reveal_strlit("nws_water_major_flood_stage_feet"),
    }
}

/// Distinct metrics are registered under distinct names.
pub proof fn lemma_water_metric_names_distinct(m1: WaterMetric, m2: WaterMetric)
    requires
        m1 != m2,
    ensures
        water_metric_name(m1) != water_metric_name(m2),
{
    lemma_water_name_key(m1);
    lemma_water_name_key(m2);
}

/// The position of a metric in `all_water_metrics`.
spec fn water_metric_position(m: WaterMetric) -> int {
    match m {
        WaterMetric::GaugeInfo => 0,
        WaterMetric::Stage => 1,
        WaterMetric::Flow => 2,
        WaterMetric::ActionStage => 3,
        WaterMetric::MinorFloodStage => 4,
        WaterMetric::ModerateFloodStage => 5,
        WaterMetric::MajorFloodStage => 6,
    }
}

proof fn lemma_water_positions()
    ensures
        all_water_metrics().len() == 7,
        forall|i: int| 0 <= i < 7 ==> water_metric_position(#[trigger] all_water_metrics()[i]) == i,
{
    assert forall|i: int| 0 <= i < 7 implies water_metric_position(#[trigger] all_water_metrics()[i]) == i by {
        if i == 0 {
            assert(all_water_metrics()[0] == WaterMetric::GaugeInfo);
        }
        else if i == 1 {
            assert(all_water_metrics()[1] == WaterMetric::Stage);
        }
        else if i == 2 {
            assert(all_water_metrics()[2] == WaterMetric::Flow);
        }
        else if i == 3 {
            assert(all_water_metrics()[3] == WaterMetric::ActionStage);
        }
        else if i == 4 {
            assert(all_water_metrics()[4] == WaterMetric::MinorFloodStage);
        }
        else if i == 5 {
            assert(all_water_metrics()[5] == WaterMetric::ModerateFloodStage);
        }
        else if i == 6 {
            assert(all_water_metrics()[6] == WaterMetric::MajorFloodStage);
        }
    }
}

/// `all` lists every metric, and none twice: each metric is registered once.
pub proof fn lemma_all_water_metrics_once(m: WaterMetric)
    ensures
        all_water_metrics().contains(m),
        all_water_metrics().no_duplicates(),
{
    lemma_water_positions();
    assert(all_water_metrics()[water_metric_position(m)] == m);
    assert forall|i: int, j: int|
        0 <= i < all_water_metrics().len() && 0 <= j < all_water_metrics().len() && i != j implies all_water_metrics()[i]
        != all_water_metrics()[j] by {
        assert(water_metric_position(all_water_metrics()[i]) == i);
        assert(water_metric_position(all_water_metrics()[j]) == j);
    }
}

// ---------------------------------------------------------------------------
// Updates
// ---------------------------------------------------------------------------

/// A reading that is above the sentinel, i.e. an actual measurement.
pub open spec fn measured(o: Option<ReadingView>) -> Option<ReadingView> {
    match o {
        Some(v) => if reading_gt_int(v, NOAA_SENTINEL as int) {
            Some(v)
        } else {
            None
        },
        None => None,
    }
}

/// The stage of a threshold, if the threshold is given.
pub open spec fn threshold_stage(t: Option<FloodThreshold>) -> Option<ReadingView> {
    match t {
        Some(t) => reading_of(t.stage),
        None => None,
    }
}

/// The flood categories of a gauge, if given.
pub open spec fn categories_of(gauge: WaterGauge) -> Option<FloodCategories> {
    match gauge.flood {
        Some(f) => f.categories,
        None => None,
    }
}

/// The reading a gauge response holds for a metric, before the sentinel filter
/// (none for the metadata metric).
pub open spec fn gauge_reading(m: WaterMetric, gauge: WaterGauge) -> Option<ReadingView> {
    match m {
        WaterMetric::GaugeInfo => None,
        WaterMetric::Stage => match gauge.status {
            Some(s) => match s.observed {
                Some(o) => reading_of(o.primary),
                None => None,
            },
            None => None,
        },
        WaterMetric::Flow => match gauge.status {
            Some(s) => match s.observed {
                Some(o) => reading_of(o.secondary),
                None => None,
            },
            None => None,
        },
        WaterMetric::ActionStage => match categories_of(gauge) {
            Some(c) => threshold_stage(c.action),
            None => None,
        },
        WaterMetric::MinorFloodStage => match categories_of(gauge) {
            Some(c) => threshold_stage(c.minor),
            None => None,
        },
        WaterMetric::ModerateFloodStage => match categories_of(gauge) {
            Some(c) => threshold_stage(c.moderate),
            None => None,
        },
        WaterMetric::MajorFloodStage => match categories_of(gauge) {
            Some(c) => threshold_stage(c.major),
            None => None,
        },
    }
}

/// The label values `[gauge, gauge_name]`.
pub open spec fn gauge_labels(gauge: WaterGauge) -> LabelValues {
    seq![gauge.lid@, gauge.name@]
}

/// The label values `[gauge, gauge_name, state]`; the state is empty when the
/// response has none.
pub open spec fn gauge_info_labels(gauge: WaterGauge) -> LabelValues {
    seq![
        gauge.lid@,
        gauge.name@,
        match gauge.state {
            Some(s) => s.abbreviation@,
            None => Seq::<char>::empty(),
        },
    ]
}

pub open spec fn set_if(m: Map<LabelValues, ReadingView>, k: LabelValues, o: Option<ReadingView>) -> Map<
    LabelValues,
    ReadingView,
> {
    match o {
        Some(v) => m.insert(k, v),
        None => m,
    }
}

/// What `update` does to the values of metric `m`.
pub open spec fn water_update_effect(m: WaterMetric, values: Map<LabelValues, ReadingView>, gauge: WaterGauge) -> Map<
    LabelValues,
    ReadingView,
> {
    if m == WaterMetric::GaugeInfo {
        values.insert(gauge_info_labels(gauge), ReadingView::Exact(Decimal { mantissa: 1, scale: 0 }))
    } else {
        set_if(values, gauge_labels(gauge), measured(gauge_reading(m, gauge)))
    }
}

/// Holder for the values of the water gauge metrics.
pub struct WaterLevelMetrics {
    gauge_info: GaugeFamily,
    stage: GaugeFamily,
    flow: GaugeFamily,
    action_stage: GaugeFamily,
    minor_flood_stage: GaugeFamily,
    moderate_flood_stage: GaugeFamily,
    major_flood_stage: GaugeFamily,
}

/// `o`, if it holds a measurement.
fn measured_value(o: Option<Reading>) -> (r: Option<Reading>)
    ensures
        reading_of(r) == measured(reading_of(o)),
{
    match o {
        Some(v) => if v.gt_int(NOAA_SENTINEL) {
            Some(v)
        } else {
            None
        },
        None => None,
    }
}

fn stage_of(t: &Option<FloodThreshold>) -> (r: Option<Reading>)
    ensures
        reading_of(r) == threshold_stage(*t),
{
    match t {
        Some(t) => duplicate_opt(&t.stage),
        None => None,
    }
}

impl WaterLevelMetrics {
    /// The current values of a metric, by label values.
    pub closed spec fn values(&self, m: WaterMetric) -> Map<LabelValues, ReadingView> {
        match m {
            WaterMetric::GaugeInfo => self.gauge_info.view(),
            WaterMetric::Stage => self.stage.view(),
            WaterMetric::Flow => self.flow.view(),
            WaterMetric::ActionStage => self.action_stage.view(),
            WaterMetric::MinorFloodStage => self.minor_flood_stage.view(),
            WaterMetric::ModerateFloodStage => self.moderate_flood_stage.view(),
            WaterMetric::MajorFloodStage => self.major_flood_stage.view(),
        }
    }

    /// Every family is well formed.
    pub closed spec fn wf(&self) -> bool {
        &&& self.gauge_info.wf()
        &&& self.stage.wf()
        &&& self.flow.wf()
        &&& self.action_stage.wf()
        &&& self.minor_flood_stage.wf()
        &&& self.moderate_flood_stage.wf()
        &&& self.major_flood_stage.wf()
    }

    /// Metrics with no values yet.
    pub fn new() -> (r: WaterLevelMetrics)
        ensures
            r.wf(),
            forall|m: WaterMetric| #[trigger] r.values(m) == Map::<LabelValues, ReadingView>::empty(),
    {
        WaterLevelMetrics {
            gauge_info: GaugeFamily::new(),
            stage: GaugeFamily::new(),
            flow: GaugeFamily::new(),
            action_stage: GaugeFamily::new(),
            minor_flood_stage: GaugeFamily::new(),
            moderate_flood_stage: GaugeFamily::new(),
            major_flood_stage: GaugeFamily::new(),
        }
    }

    /// The family holding a metric's values.
    pub fn family(&self, m: WaterMetric) -> (r: &GaugeFamily)
        ensures
            r.view() == self.values(m),
    {
        match m {
            WaterMetric::GaugeInfo => &self.gauge_info,
            WaterMetric::Stage => &self.stage,
            WaterMetric::Flow => &self.flow,
            WaterMetric::ActionStage => &self.action_stage,
            WaterMetric::MinorFloodStage => &self.minor_flood_stage,
            WaterMetric::ModerateFloodStage => &self.moderate_flood_stage,
            WaterMetric::MajorFloodStage => &self.major_flood_stage,
        }
    }

    /// Update all metrics from the full gauge response: the metadata metric is
    /// set to 1, and each stage, flow and threshold reading above the sentinel is
    /// set.
    pub fn update(&mut self, gauge: &WaterGauge)
        requires
            old(self).wf(),
        ensures
            final(self).wf(),
            forall|m: WaterMetric|
                #[trigger] final(self).values(m) == water_update_effect(m, old(self).values(m), *gauge),
    {
        let state = match &gauge.state {
            Some(s) => s.abbreviation.clone(),
            None => String::new(),
        };
        let info_labels = vec![gauge.lid.clone(), gauge.name.clone(), state];
        assert(info_labels.deep_view() =~= gauge_info_labels(*gauge));
        self.gauge_info.set(info_labels, Reading::Exact(Decimal { mantissa: 1, scale: 0 }));

        let labels = vec![gauge.lid.clone(), gauge.name.clone()];
        assert(labels.deep_view() =~= gauge_labels(*gauge));
        let (primary, secondary) = match &gauge.status {
            Some(status) => match &status.observed {
                Some(obs) => (duplicate_opt(&obs.primary), duplicate_opt(&obs.secondary)),
                None => (None, None),
            },
            None => (None, None),
        };
        match measured_value(primary) {
            Some(v) => self.stage.set(labels.clone(), v),
            None => {},
        }
        match measured_value(secondary) {
            Some(v) => self.flow.set(labels.clone(), v),
            None => {},
        }
        match &gauge.flood {
            Some(flood) => match &flood.categories {
                Some(cats) => self.set_thresholds(&labels, cats),
                None => {},
            },
            None => {},
        }
    }

    fn set_thresholds(&mut self, labels: &Vec<String>, cats: &FloodCategories)
        requires
            old(self).wf(),
        ensures
            final(self).wf(),
            final(self).values(WaterMetric::GaugeInfo) == old(self).values(WaterMetric::GaugeInfo),
            final(self).values(WaterMetric::Stage) == old(self).values(WaterMetric::Stage),
            final(self).values(WaterMetric::Flow) == old(self).values(WaterMetric::Flow),
            final(self).values(WaterMetric::ActionStage) == set_if(
                old(self).values(WaterMetric::ActionStage),
                labels.deep_view(),
                measured(threshold_stage(cats.action)),
            ),
            final(self).values(WaterMetric::MinorFloodStage) == set_if(
                old(self).values(WaterMetric::MinorFloodStage),
                labels.deep_view(),
                measured(threshold_stage(cats.minor)),
            ),
            final(self).values(WaterMetric::ModerateFloodStage) == set_if(
                old(self).values(WaterMetric::ModerateFloodStage),
                labels.deep_view(),
                measured(threshold_stage(cats.moderate)),
            ),
            final(self).values(WaterMetric::MajorFloodStage) == set_if(
                old(self).values(WaterMetric::MajorFloodStage),
                labels.deep_view(),
                measured(threshold_stage(cats.major)),
            ),
    {
        match measured_value(stage_of(&cats.action)) {
            Some(v) => self.action_stage.set(labels.clone(), v),
            None => {},
        }
        match measured_value(stage_of(&cats.minor)) {
            Some(v) => self.minor_flood_stage.set(labels.clone(), v),
            None => {},
        }
        match measured_value(stage_of(&cats.moderate)) {
            Some(v) => self.moderate_flood_stage.set(labels.clone(), v),
            None => {},
        }
        match measured_value(stage_of(&cats.major)) {
            Some(v) => self.major_flood_stage.set(labels.clone(), v),
            None => {},
        }
    }
}

/// A gauge response never makes a stage, flow or threshold metric hold a value
/// at or below the sentinel: the value set under the gauge's labels is the
/// response's reading when that is above -999, and otherwise the metric is left
/// as it was.  Other label sets are untouched.  So a metric whose values are
/// all above the sentinel keeps them so.
pub proof fn lemma_sentinel_never_exported(
    m: WaterMetric,
    before: Map<LabelValues, ReadingView>,
    gauge: WaterGauge,
)
    requires
        m != WaterMetric::GaugeInfo,
    ensures
        ({
            let after = water_update_effect(m, before, gauge);
            let k = gauge_labels(gauge);
            &&& measured(gauge_reading(m, gauge)) is Some ==> after.contains_key(k) && after[k]
                == gauge_reading(m, gauge)->0 && reading_gt_int(after[k], -999)
            &&& measured(gauge_reading(m, gauge)) is None ==> after == before
            &&& forall|k2: LabelValues|
                k2 != k ==> (#[trigger] after.contains_key(k2) == before.contains_key(k2)
                    && after[k2] == before[k2])
            &&& (forall|k2: LabelValues| #[trigger]
                before.contains_key(k2) ==> reading_gt_int(before[k2], -999)) ==> (forall|
                k2: LabelValues,
            | #[trigger] after.contains_key(k2) ==> reading_gt_int(after[k2], -999))
        }),
{
}

/// The stage of an optional flood threshold, read from the response.
pub open spec fn stage_field(t: Option<FloodThreshold>) -> Option<ReadingView> {
    match t {
        Some(t) => reading_of(t.stage),
        None => None,
    }
}

/// What an update does to each metric, field by field of the gauge response:
/// the metadata metric is set to 1 under `[lid, name, state]`; under
/// `[lid, name]` the stage metric takes `status.observed.primary`, the flow
/// metric `status.observed.secondary`, and the action, minor, moderate and
/// major flood stage metrics take the `stage` of `flood.categories.action`,
/// `.minor`, `.moderate` and `.major`, each only when above the sentinel.
pub proof fn lemma_water_update_fields(values: Map<LabelValues, ReadingView>, gauge: WaterGauge)
    ensures
        ({
            let k = seq![gauge.lid@, gauge.name@];
            let state = match gauge.state {
                Some(s) => s.abbreviation@,
                None => Seq::<char>::empty(),
            };
            let observed = match gauge.status {
                Some(st) => st.observed,
                None => None,
            };
            let primary = match observed {
                Some(o) => reading_of(o.primary),
                None => None,
            };
            let secondary = match observed {
                Some(o) => reading_of(o.secondary),
                None => None,
            };
            let cats = match gauge.flood {
                Some(fl) => fl.categories,
                None => None,
            };
            &&& water_update_effect(WaterMetric::GaugeInfo, values, gauge) == values.insert(
                seq![gauge.lid@, gauge.name@, state],
                ReadingView::Exact(Decimal { mantissa: 1, scale: 0 }),
            )
            &&& water_update_effect(WaterMetric::Stage, values, gauge) == set_if(
                values,
                k,
                measured(primary),
            )
            &&& water_update_effect(WaterMetric::Flow, values, gauge) == set_if(
                values,
                k,
                measured(secondary),
            )
            &&& water_update_effect(WaterMetric::ActionStage, values, gauge) == set_if(
                values,
                k,
                measured(
                    match cats {
                        Some(c) => stage_field(c.action),
                        None => None,
                    },
                ),
            )
            &&& water_update_effect(WaterMetric::MinorFloodStage, values, gauge) == set_if(
                values,
                k,
                measured(
                    match cats {
                        Some(c) => stage_field(c.minor),
                        None => None,
                    },
                ),
            )
            &&& water_update_effect(WaterMetric::ModerateFloodStage, values, gauge) == set_if(
                values,
                k,
                measured(
                    match cats {
                        Some(c) => stage_field(c.moderate),
                        None => None,
                    },
                ),
            )
            &&& water_update_effect(WaterMetric::MajorFloodStage, values, gauge) == set_if(
                values,
                k,
                measured(
                    match cats {
                        Some(c) => stage_field(c.major),
                        None => None,
                    },
                ),
            )
        }),
{
    let state = match gauge.state {
        Some(s) => s.abbreviation@,
        None => Seq::<char>::empty(),
    };
    assert(gauge_labels(gauge) =~= seq![gauge.lid@, gauge.name@]);
    assert(gauge_info_labels(gauge) =~= seq![gauge.lid@, gauge.name@, state]);
}

} // verus!
