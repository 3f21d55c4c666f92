//! The summary of a usage report: its metrics, grouped by period.
use crate::classify::{
    is_rate_limit_metric, is_usage_metric, metric_name, period_for_path,
};
#[allow(unused_imports)]
use crate::classify::{is_rate_limit_key, is_usage_key, metric_title, period_of};
use crate::json::{is_scalar, Json};
#[allow(unused_imports)]
use crate::json::{
    items_view, lemma_array_view, lemma_item_is_smaller, lemma_member_is_smaller,
    lemma_object_view, members_view, JsonView,
};
#[allow(unused_imports)]
use crate::text::decimal;
use crate::text::{decimal_text, joined, same_text};
use vstd::prelude::*;
use vstd::string::*;

verus! {

/// A metric as mathematics: its name, its value and where the report has it.
pub struct MetricView {
    pub metric: Seq<char>,
    pub value: JsonView,
    pub path: Seq<char>,
}

/// A metric of a usage report.
#[derive(Debug, PartialEq)]
pub struct Metric {
    pub metric: String,
    pub value: Json,
    pub path: String,
}

impl View for Metric {
    type V = MetricView;

    open spec fn view(&self) -> MetricView {
        MetricView { metric: self.metric@, value: self.value@, path: self.path@ }
    }
}

pub open spec fn metrics_view(metrics: Seq<Metric>) -> Seq<MetricView> {
    metrics.map_values(|metric: Metric| metric@)
}

/// A metric and the period that it counts for.
pub struct Found {
    pub period: Seq<char>,
    pub metric: MetricView,
}

/// The path of the member `key` of the object at `path`.
pub open spec fn member_path(path: Seq<char>, key: Seq<char>) -> Seq<char> {
    if path.len() == 0 {
        key
    } else {
        path + "."@ + key
    }
}

/// The path of the item `index` of the array at `path`.
pub open spec fn item_path(path: Seq<char>, index: nat) -> Seq<char> {
    path + "["@ + decimal(index) + "]"@
}

/// The metric that the member `key` of the object at `path` is, if it is one.
pub open spec fn metric_at(path: Seq<char>, key: Seq<char>, value: JsonView) -> Option<Found> {
    let here = member_path(path, key);
    if !value.is_scalar() {
        None
    } else if is_usage_key(key) {
        Some(
            Found {
                period: period_of(here),
                metric: MetricView { metric: metric_title(key), value, path: here },
            },
        )
    } else if is_rate_limit_key(key, path) {
        Some(Found { period: "weekly"@, metric: MetricView { metric: key, value, path: here } })
    } else {
        None
    }
}

/// No metric or one.
pub open spec fn as_seq(found: Option<Found>) -> Seq<Found> {
    match found {
        Some(one) => seq![one],
        None => Seq::empty(),
    }
}

/// The metrics in the value at `path`, in the order in which they stand there.
pub open spec fn metrics_in(value: JsonView, path: Seq<char>) -> Seq<Found>
    decreases value, 0nat,
{
    match value {
        JsonView::Object(members) => metrics_in_members(members, members.len(), path),
        JsonView::Array(items) => metrics_in_items(items, items.len(), path),
        _ => Seq::empty(),
    }
}

/// The metrics in the first `n` members of the object at `path`.
pub open spec fn metrics_in_members(
    members: Seq<(Seq<char>, JsonView)>,
    n: nat,
    path: Seq<char>,
) -> Seq<Found>
    decreases members, n,
{
    if n == 0 || n > members.len() {
        Seq::empty()
    } else {
        let (key, child) = members[n - 1];
        metrics_in_members(members, (n - 1) as nat, path) + as_seq(metric_at(path, key, child))
            + metrics_in(members[n - 1].1, member_path(path, key))
    }
}

/// The metrics in the first `n` items of the array at `path`.
pub open spec fn metrics_in_items(items: Seq<JsonView>, n: nat, path: Seq<char>) -> Seq<Found>
    decreases items, n,
{
    if n == 0 || n > items.len() {
        Seq::empty()
    } else {
        metrics_in_items(items, (n - 1) as nat, path) + metrics_in(
            items[n - 1],
            item_path(path, (n - 1) as nat),
        )
    }
}

/// Those of the metrics that count for `period`.
pub open spec fn in_period(found: Seq<Found>, period: Seq<char>) -> Seq<MetricView> {
    found.filter(|f: Found| f.period == period).map_values(|f: Found| f.metric)
}

proof fn lemma_in_period_append(a: Seq<Found>, b: Seq<Found>, period: Seq<char>)
    ensures
        in_period(a + b, period) == in_period(a, period) + in_period(b, period),
{
    Seq::filter_distributes_over_add(a, b, |f: Found| f.period == period);
    assert(in_period(a + b, period) =~= in_period(a, period) + in_period(b, period));
}

proof fn lemma_in_period_one(found: Option<Found>, period: Seq<char>)
    ensures
        in_period(as_seq(found), period) == match found {
            Some(one) => if one.period == period {
                seq![one.metric]
            } else {
                Seq::<MetricView>::empty()
            },
            None => Seq::<MetricView>::empty(),
        },
{
    reveal(Seq::filter);
    match found {
        Some(one) => {
            assert(seq![one].drop_last() =~= Seq::<Found>::empty());
            assert(Seq::<Found>::empty().filter(|f: Found| f.period == period)
                =~= Seq::<Found>::empty());
            assert(in_period(seq![one], period) =~= if one.period == period {
                seq![one.metric]
            } else {
                Seq::<MetricView>::empty()
            });
        },
        None => {
            assert(in_period(Seq::<Found>::empty(), period) =~= Seq::<MetricView>::empty());
        },
    }
}

/// The names of the periods differ.
pub proof fn lemma_period_names_differ()
    ensures
        "weekly"@ != "monthly"@,
        "weekly"@ != "other"@,
        "monthly"@ != "other"@,
{
    reveal_strlit("weekly");
    reveal_strlit("monthly");
    reveal_strlit("other");
    assert("weekly"@.len() == 6);
    assert("monthly"@.len() == 7);
    assert("other"@.len() == 5);
}

/// The metrics found so far, by period.
pub struct Tally {
    pub weekly: Vec<Metric>,
    pub monthly: Vec<Metric>,
    pub other: Vec<Metric>,
}

impl Tally {
    /// What is in the tally is what was in `before`, and then the metrics `found`.
    pub open spec fn extends(self, before: Self, found: Seq<Found>) -> bool {
        &&& metrics_view(self.weekly@) == metrics_view(before.weekly@) + in_period(
            found,
            "weekly"@,
        )
        &&& metrics_view(self.monthly@) == metrics_view(before.monthly@) + in_period(
            found,
            "monthly"@,
        )
        &&& metrics_view(self.other@) == metrics_view(before.other@) + in_period(found, "other"@)
    }

    proof fn lemma_extends_nothing(self)
        ensures
            self.extends(self, Seq::empty()),
    {
        lemma_in_period_one(None, "weekly"@);
        lemma_in_period_one(None, "monthly"@);
        lemma_in_period_one(None, "other"@);
        assert(metrics_view(self.weekly@) =~= metrics_view(self.weekly@)
            + Seq::<MetricView>::empty());
        assert(metrics_view(self.monthly@) =~= metrics_view(self.monthly@)
            + Seq::<MetricView>::empty());
        assert(metrics_view(self.other@) =~= metrics_view(self.other@)
            + Seq::<MetricView>::empty());
    }

    proof fn lemma_extends_again(self, middle: Self, before: Self, a: Seq<Found>, b: Seq<Found>)
        requires
            middle.extends(before, a),
            self.extends(middle, b),
        ensures
            self.extends(before, a + b),
    {
        lemma_in_period_append(a, b, "weekly"@);
        lemma_in_period_append(a, b, "monthly"@);
        lemma_in_period_append(a, b, "other"@);
        assert(metrics_view(self.weekly@) =~= metrics_view(before.weekly@) + in_period(
            a + b,
            "weekly"@,
        ));
        assert(metrics_view(self.monthly@) =~= metrics_view(before.monthly@) + in_period(
            a + b,
            "monthly"@,
        ));
        assert(metrics_view(self.other@) =~= metrics_view(before.other@) + in_period(
            a + b,
            "other"@,
        ));
    }

    fn new() -> (tally: Self)
        ensures
            tally.weekly@.len() == 0,
            tally.monthly@.len() == 0,
            tally.other@.len() == 0,
    {
        Tally { weekly: Vec::new(), monthly: Vec::new(), other: Vec::new() }
    }

    /// Counts `metric` for `period`.
    fn push(&mut self, period: &str, metric: Metric)
        requires
            period@ == "weekly"@ || period@ == "monthly"@ || period@ == "other"@,
        ensures
            final(self).extends(
                *old(self),
                seq![Found { period: period@, metric: metric@ }],
            ),
    {
        let ghost one = Found { period: period@, metric: metric@ };
        let ghost before = *self;
        proof {
            lemma_period_names_differ();
            lemma_in_period_one(Some(one), "weekly"@);
            lemma_in_period_one(Some(one), "monthly"@);
            lemma_in_period_one(Some(one), "other"@);
        }
        if same_text(period, "weekly") {
            self.weekly.push(metric);
        } else if same_text(period, "monthly") {
            self.monthly.push(metric);
        } else {
            self.other.push(metric);
        }
        assert(metrics_view(self.weekly@) =~= metrics_view(before.weekly@) + in_period(
            seq![one],
            "weekly"@,
        ));
        assert(metrics_view(self.monthly@) =~= metrics_view(before.monthly@) + in_period(
            seq![one],
            "monthly"@,
        ));
        assert(metrics_view(self.other@) =~= metrics_view(before.other@) + in_period(
            seq![one],
            "other"@,
        ));
    }
}

/// Adds the metrics in the value at `path` to the tally.
pub fn collect_metrics(value: &Json, path: &str, summary: &mut Tally)
    ensures
        final(summary).extends(*old(summary), metrics_in(value@, path@)),
    decreases value,
{
    broadcast use {lemma_array_view, lemma_object_view};

    let ghost start = *summary;
    proof {
        start.lemma_extends_nothing();
    }
    match value {
        Json::Object(members) => {
            let ghost all = members_view(members@);
            for i in 0..members.len()
                invariant
                    value == Json::Object(*members),
                    all == members_view(members@),
                    summary.extends(start, metrics_in_members(all, i as nat, path@)),
            {
                let ghost before = *summary;
                let ghost found = metrics_in_members(all, i as nat, path@);
                let key: &str = members[i].0.as_str();
                let child: &Json = &members[i].1;
                assert(all[i as int] == (key@, child@));
                let child_path: String = if path.is_empty() {
                    key.to_owned()
                } else {
                    joined(&joined(path, "."), key)
                };
                proof {
                    before.lemma_extends_nothing();
                    lemma_member_is_smaller(*value, i as int);
                }
                if is_usage_metric(key) && is_scalar(child) {
                    let period: &str = period_for_path(&child_path);
                    summary.push(
                        period,
                        Metric {
                            metric: metric_name(key),
                            value: child.clone(),
                            path: child_path.clone(),
                        },
                    );
                } else if is_rate_limit_metric(key, path) && is_scalar(child) {
                    summary.push(
                        "weekly",
                        Metric {
                            metric: key.to_owned(),
                            value: child.clone(),
                            path: child_path.clone(),
                        },
                    );
                }
                let ghost own = as_seq(metric_at(path@, key@, child@));
                assert(summary.extends(before, own));
                let ghost middle = *summary;
                collect_metrics(child, &child_path, summary);
                proof {
                    middle.lemma_extends_again(before, start, found, own);
                    summary.lemma_extends_again(
                        middle,
                        start,
                        found + own,
                        metrics_in(child@, child_path@),
                    );
                }
            }
        },
        Json::Array(items) => {
            let ghost all = items_view(items@);
            for i in 0..items.len()
                invariant
                    value == Json::Array(*items),
                    all == items_view(items@),
                    summary.extends(start, metrics_in_items(all, i as nat, path@)),
            {
                let ghost before = *summary;
                let ghost found = metrics_in_items(all, i as nat, path@);
                let child: &Json = &items[i];
                assert(all[i as int] == child@);
                let child_path: String = joined(
                    &joined(&joined(path, "["), &decimal_text(i as u64)),
                    "]",
                );
                proof {
                    lemma_item_is_smaller(*value, i as int);
                }
                collect_metrics(child, &child_path, summary);
                proof {
                    summary.lemma_extends_again(
                        before,
                        start,
                        found,
                        metrics_in(child@, child_path@),
                    );
                }
            }
        },
        _ => {},
    }
}

/// The periods that have metrics, in ascending order of their names, each with
/// its metrics in the order in which the report has them.
pub open spec fn summary_of(data: JsonView) -> Seq<(Seq<char>, Seq<MetricView>)> {
    let found = metrics_in(data, Seq::empty());
    seq![
        ("monthly"@, in_period(found, "monthly"@)),
        ("other"@, in_period(found, "other"@)),
        ("weekly"@, in_period(found, "weekly"@)),
    ].filter(|period: (Seq<char>, Seq<MetricView>)| period.1.len() > 0)
}

/// The entry of a period, if the period has metrics.
pub open spec fn period_entry(data: JsonView, period: Seq<char>) -> Seq<
    (Seq<char>, Seq<MetricView>),
> {
    let metrics = in_period(metrics_in(data, Seq::empty()), period);
    if metrics.len() > 0 {
        seq![(period, metrics)]
    } else {
        Seq::empty()
    }
}

proof fn lemma_one_period(data: JsonView, period: Seq<char>)
    ensures
        seq![(period, in_period(metrics_in(data, Seq::empty()), period))].filter(
            |period: (Seq<char>, Seq<MetricView>)| period.1.len() > 0,
        ) == period_entry(data, period),
{
    let one = seq![(period, in_period(metrics_in(data, Seq::empty()), period))];
    let none = Seq::<(Seq<char>, Seq<MetricView>)>::empty();
    let pick = |period: (Seq<char>, Seq<MetricView>)| period.1.len() > 0;
    reveal(Seq::filter);
    assert(one.drop_last() =~= none);
    assert(none.filter(pick) =~= none);
    assert(one.filter(pick) =~= period_entry(data, period));
}

/// A summary holds the entries of the three periods, in ascending order.
pub proof fn lemma_summary_shape(data: JsonView)
    ensures
        summary_of(data) == period_entry(data, "monthly"@) + period_entry(data, "other"@)
            + period_entry(data, "weekly"@),
{
    let found = metrics_in(data, Seq::empty());
    let monthly = seq![("monthly"@, in_period(found, "monthly"@))];
    let other = seq![("other"@, in_period(found, "other"@))];
    let weekly = seq![("weekly"@, in_period(found, "weekly"@))];
    let pick = |period: (Seq<char>, Seq<MetricView>)| period.1.len() > 0;
    assert(seq![monthly[0], other[0], weekly[0]] =~= monthly + other + weekly);
    Seq::filter_distributes_over_add(monthly + other, weekly, pick);
    Seq::filter_distributes_over_add(monthly, other, pick);
    lemma_one_period(data, "monthly"@);
    lemma_one_period(data, "other"@);
    lemma_one_period(data, "weekly"@);
}

/// The metrics listed under the name `period`.
pub open spec fn listed_under(
    periods: Seq<(Seq<char>, Seq<MetricView>)>,
    period: Seq<char>,
) -> Option<Seq<MetricView>>
    decreases periods.len(),
{
    if periods.len() == 0 {
        None
    } else if periods[0].0 == period {
        Some(periods[0].1)
    } else {
        listed_under(periods.drop_first(), period)
    }
}

/// The summary of a usage report: the metrics of each period that has any.
#[derive(Debug, PartialEq)]
pub struct UsageSummary {
    pub periods: Vec<(String, Vec<Metric>)>,
}

impl View for UsageSummary {
    type V = Seq<(Seq<char>, Seq<MetricView>)>;

    open spec fn view(&self) -> Seq<(Seq<char>, Seq<MetricView>)> {
        self.periods@.map_values(
            |period: (String, Vec<Metric>)| (period.0@, metrics_view(period.1@)),
        )
    }
}

impl UsageSummary {
    /// The metrics of `period`, where it has any.
    pub fn get(&self, period: &str) -> (metrics: Option<&Vec<Metric>>)
        ensures
            match metrics {
                Some(list) => listed_under(self@, period@) == Some(metrics_view(list@)),
                None => listed_under(self@, period@) is None,
            },
    {
        let ghost all = self@;
        assert(all.skip(0) =~= all);
        for i in 0..self.periods.len()
            invariant
                all == self@,
                listed_under(all, period@) == listed_under(all.skip(i as int), period@),
        {
            assert(all.skip(i as int).drop_first() =~= all.skip(i + 1));
            if same_text(&self.periods[i].0, period) {
                return Some(&self.periods[i].1);
            }
        }
        None
    }

    /// Whether the report has no metric.
    pub fn is_empty(&self) -> (empty: bool)
        ensures
            empty == (self@.len() == 0),
    {
        self.periods.len() == 0
    }

    /// Lists `metrics` under `period`, unless there are none.
    fn add_period(&mut self, period: &str, metrics: Vec<Metric>)
        ensures
            final(self)@ == old(self)@ + (if metrics@.len() > 0 {
                seq![(period@, metrics_view(metrics@))]
            } else {
                Seq::empty()
            }),
    {
        let ghost before = self@;
        let ghost own = metrics_view(metrics@);
        if metrics.len() > 0 {
            self.periods.push((period.to_owned(), metrics));
            assert(self@ =~= before + seq![(period@, own)]);
        } else {
            assert(self@ =~= before + Seq::empty());
        }
    }
}

/// The metrics of the report `data`, by period.
pub fn summarize_usage(data: &Json) -> (summary: UsageSummary)
    ensures
        summary@ == summary_of(data@),
{
    let mut tally: Tally = Tally::new();
    collect_metrics(data, "", &mut tally);
    let ghost found = metrics_in(data@, Seq::empty());
    let ghost weekly = in_period(found, "weekly"@);
    let ghost monthly = in_period(found, "monthly"@);
    let ghost other = in_period(found, "other"@);
    proof {
        reveal_strlit("");
        assert(""@ =~= Seq::empty());
        assert(metrics_view(tally.weekly@) =~= weekly);
        assert(metrics_view(tally.monthly@) =~= monthly);
        assert(metrics_view(tally.other@) =~= other);
    }
    let mut summary: UsageSummary = UsageSummary { periods: Vec::new() };
    assert(summary@ =~= Seq::empty());
    summary.add_period("monthly", tally.monthly);
    summary.add_period("other", tally.other);
    summary.add_period("weekly", tally.weekly);
    proof {
        lemma_summary_shape(data@);
        assert(summary@ =~= summary_of(data@));
    }
    summary
}

/// A metric as JSON.
pub open spec fn metric_json(metric: MetricView) -> JsonView {
    JsonView::Object(
        seq![
            ("metric"@, JsonView::Text(metric.metric)),
            ("path"@, JsonView::Text(metric.path)),
            ("value"@, metric.value),
        ],
    )
}

/// Metrics as JSON.
pub open spec fn metrics_json(metrics: Seq<MetricView>) -> JsonView {
    JsonView::Array(metrics.map_values(|metric: MetricView| metric_json(metric)))
}

/// A summary as JSON: an object with the metrics of each period.
pub open spec fn summary_json(periods: Seq<(Seq<char>, Seq<MetricView>)>) -> JsonView {
    JsonView::Object(
        periods.map_values(
            |period: (Seq<char>, Seq<MetricView>)| (period.0, metrics_json(period.1)),
        ),
    )
}

impl Metric {
    /// The metric as JSON.
    pub fn to_json(&self) -> (json: Json)
        ensures
            json@ == metric_json(self@),
    {
        Json::object3(
            "metric",
            Json::text(&self.metric),
            "path",
            Json::text(&self.path),
            "value",
            self.value.clone(),
        )
    }
}

/// The metrics as JSON.
fn metrics_to_json(metrics: &Vec<Metric>) -> (json: Json)
    ensures
        json@ == metrics_json(metrics_view(metrics@)),
{
    broadcast use lemma_array_view;

    let mut items: Vec<Json> = Vec::new();
    for i in 0..metrics.len()
        invariant
            items@.len() == i,
            forall|j: int| 0 <= j < i ==> (#[trigger] items@[j])@ == metric_json(metrics@[j]@),
    {
        items.push(metrics[i].to_json());
    }
    assert(items_view(items@) =~= metrics_json(metrics_view(metrics@))->Array_0);
    Json::Array(items)
}

impl UsageSummary {
    /// The summary as JSON.
    pub fn to_json(&self) -> (json: Json)
        ensures
            json@ == summary_json(self@),
    {
        broadcast use lemma_object_view;

        let mut members: Vec<(String, Json)> = Vec::new();
        for i in 0..self.periods.len()
            invariant
                members@.len() == i,
                forall|j: int|
                    0 <= j < i ==> (#[trigger] members@[j]).0@ == self.periods@[j].0@
                        && members@[j].1@ == metrics_json(metrics_view(self.periods@[j].1@)),
        {
            let (name, metrics) = &self.periods[i];
            members.push((name.clone(), metrics_to_json(metrics)));
        }
        assert(members_view(members@) =~= summary_json(self@)->Object_0);
        Json::Object(members)
    }
}

} // verus!
