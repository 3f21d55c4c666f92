//! What a summary lists, told by the fields of the report and the words in them.
#![allow(unused_imports)]
use crate::classify::{is_rate_limit_key, is_usage_key, metric_title, normal_form, period_of};
use crate::classify_laws::{
    is_amount_word, is_name_for, is_period_for, is_unit_word, law_metrics_by_words,
    law_unit_and_amount_make_a_usage_key, names_a_rate_limit, names_an_amount,
};
use crate::json::{text_before, Json, JsonView};
use crate::summary::{
    as_seq, collect_metrics, in_period, item_path, lemma_period_names_differ, lemma_summary_shape, listed_under,
    member_path, metric_at, metric_json, metrics_in, metrics_in_items, metrics_in_members,
    metrics_json, metrics_view, period_entry, summarize_usage, summary_json, summary_of, Found, Metric,
    MetricView, Tally, UsageSummary,
};
use crate::summary_laws::{
    law_listed_metrics_stand_in_the_report, law_metrics_of_the_report_are_listed,
    law_summary_lists_the_periods, lemma_period_names_ascend, stands_in, step_path, steps_path,
    value_at, Step,
};
use crate::text::decimal;
use vstd::prelude::*;

verus! {

/// The path of what the steps lead to, as it is written: the names of members
/// with dots between them, and the indices of items in brackets.
pub open spec fn written(steps: Seq<Step>) -> Seq<char>
    decreases steps.len(),
{
    if steps.len() == 0 {
        Seq::empty()
    } else {
        let above = written(steps.drop_last());
        match steps.last() {
            Step::Member(key) => if above.len() == 0 {
                key
            } else {
                above + "."@ + key
            },
            Step::Item(index) => above + "["@ + decimal(index) + "]"@,
        }
    }
}

proof fn lemma_last_step(path: Seq<char>, steps: Seq<Step>, step: Step)
    ensures
        steps_path(path, steps.push(step)) == step_path(steps_path(path, steps), step),
    decreases steps.len(),
{
    let all = steps.push(step);
    if steps.len() == 0 {
        assert(all.drop_first() =~= Seq::<Step>::empty());
        assert(steps_path(step_path(path, step), all.drop_first()) == step_path(path, step));
    } else {
        assert(all.drop_first() =~= steps.drop_first().push(step));
        lemma_last_step(step_path(path, steps[0]), steps.drop_first(), step);
    }
}

proof fn lemma_paths_are_written(steps: Seq<Step>)
    ensures
        steps_path(Seq::empty(), steps) == written(steps),
    decreases steps.len(),
{
    if steps.len() > 0 {
        lemma_paths_are_written(steps.drop_last());
        lemma_last_step(Seq::empty(), steps.drop_last(), steps.last());
        assert(steps =~= steps.drop_last().push(steps.last()));
    }
}

/// The field `key` of the object at the end of `steps` is a metric: it is no
/// object and no array, and the words in its key make it one.
pub open spec fn is_metric_field(steps: Seq<Step>, key: Seq<char>, value: JsonView) -> bool {
    &&& !(value is Object)
    &&& !(value is Array)
    &&& names_an_amount(normal_form(key)) || names_a_rate_limit(
        normal_form(key),
        normal_form(written(steps)),
    )
}

/// The entry of a summary that the field `key` of the object at the end of
/// `steps`, which holds `value`, is owed. An amount is named by its words and
/// counts for the period that its path names. A rate limit keeps its key as its
/// name and counts for the week.
pub open spec fn is_entry_for(
    period: Seq<char>,
    metric: MetricView,
    steps: Seq<Step>,
    key: Seq<char>,
    value: JsonView,
) -> bool {
    let path = written(steps.push(Step::Member(key)));
    &&& metric.value == value
    &&& metric.path == path
    &&& if names_an_amount(normal_form(key)) {
        is_name_for(metric.metric, normal_form(key)) && is_period_for(period, normal_form(path))
    } else {
        metric.metric == key && period == "weekly"@
    }
}

/// A metric is a field, and carries its own value and path.
proof fn lemma_metric_at(steps: Seq<Step>, key: Seq<char>, value: JsonView)
    ensures
        metric_at(written(steps), key, value) is Some <==> is_metric_field(steps, key, value),
        metric_at(written(steps), key, value) matches Some(found) ==> is_entry_for(
            found.period,
            found.metric,
            steps,
            key,
            value,
        ),
{
    let here = written(steps.push(Step::Member(key)));
    assert(steps.push(Step::Member(key)).drop_last() =~= steps);
    assert(here == member_path(written(steps), key));
    law_metrics_by_words(key, written(steps));
    law_metrics_by_words(key, here);
}

/// Every field of the report that is a metric is listed in the summary, with its
/// value and its path, under the name and the period that its words give it.
pub proof fn law_every_metric_is_listed(
    data: Json,
    summary: UsageSummary,
    steps: Seq<Step>,
    key: Seq<char>,
    value: JsonView,
)
    requires
        call_ensures(summarize_usage, (&data,), summary),
        value_at(data@, steps.push(Step::Member(key))) == Some(value),
        is_metric_field(steps, key, value),
    ensures
        exists|p: int, k: int|
            0 <= p < summary.periods@.len() && 0 <= k < summary.periods@[p].1@.len()
                && is_entry_for(
                summary.periods@[p].0@,
                (#[trigger] summary.periods@[p].1@[k])@,
                steps,
                key,
                value,
            ),
{
    lemma_paths_are_written(steps);
    lemma_metric_at(steps, key, value);
    let found = metric_at(written(steps), key, value)->0;
    assert(stands_in(found, data@, Seq::empty(), steps, key));
    law_metrics_of_the_report_are_listed(data@, steps, key, found);
    let p = lemma_listed_has_index(summary@, found.period);
    let list = summary@[p].1;
    let k = choose|k: int| 0 <= k < list.len() && list[k] == found.metric;
    assert(summary.periods@[p].1@[k]@ == found.metric);
    assert(summary.periods@[p].0@ == found.period);
}

/// A scalar under a key that holds a word for what is counted and a word for an
/// amount, in either order and anywhere, is listed in the summary.
pub proof fn law_every_amount_is_listed(
    data: Json,
    summary: UsageSummary,
    steps: Seq<Step>,
    key: Seq<char>,
    value: JsonView,
    a: Seq<char>,
    unit: Seq<char>,
    b: Seq<char>,
    amount: Seq<char>,
    c: Seq<char>,
)
    requires
        call_ensures(summarize_usage, (&data,), summary),
        value_at(data@, steps.push(Step::Member(key))) == Some(value),
        !(value is Object),
        !(value is Array),
        is_unit_word(unit),
        is_amount_word(amount),
        normal_form(key) == a + unit + b + amount + c || normal_form(key) == a + amount + b + unit
            + c,
    ensures
        exists|p: int, k: int|
            0 <= p < summary.periods@.len() && 0 <= k < summary.periods@[p].1@.len()
                && is_entry_for(
                summary.periods@[p].0@,
                (#[trigger] summary.periods@[p].1@[k])@,
                steps,
                key,
                value,
            ),
{
    law_unit_and_amount_make_a_usage_key(key, a, unit, b, amount, c);
    law_metrics_by_words(key, Seq::empty());
    law_every_metric_is_listed(data, summary, steps, key, value);
}

/// Every entry of a summary is owed to a field of the report.
pub proof fn law_nothing_else_is_listed(data: Json, summary: UsageSummary, p: int, k: int)
    requires
        call_ensures(summarize_usage, (&data,), summary),
        data@.wf(),
        0 <= p < summary.periods@.len(),
        0 <= k < summary.periods@[p].1@.len(),
    ensures
        ({
            let period = summary.periods@[p].0@;
            let metric = summary.periods@[p].1@[k]@;
            exists|steps: Seq<Step>, key: Seq<char>|
                {
                    &&& value_at(data@, #[trigger] steps.push(Step::Member(key))) == Some(
                        metric.value,
                    )
                    &&& is_metric_field(steps, key, metric.value)
                    &&& is_entry_for(period, metric, steps, key, metric.value)
                }
        }),
{
    let period = summary.periods@[p].0@;
    let metric = summary.periods@[p].1@[k]@;
    let list = summary@[p].1;
    assert(summary@[p].0 == period);
    assert(list[k] == metric);
    lemma_names_are_found(data@, p);
    law_listed_metrics_stand_in_the_report(data@, period, metric);
    let (steps, key) = choose|steps: Seq<Step>, key: Seq<char>|
        #[trigger] stands_in(Found { period, metric }, data@, Seq::empty(), steps, key);
    lemma_paths_are_written(steps);
    lemma_metric_at(steps, key, metric.value);
    let path = steps.push(Step::Member(key));
    assert(value_at(data@, path) == Some(metric.value));
}

proof fn lemma_listed_has_index(
    periods: Seq<(Seq<char>, Seq<MetricView>)>,
    period: Seq<char>,
) -> (p: int)
    requires
        listed_under(periods, period) is Some,
    ensures
        0 <= p < periods.len(),
        periods[p].0 == period,
        periods[p].1 == listed_under(periods, period)->0,
    decreases periods.len(),
{
    if periods[0].0 == period {
        0
    } else {
        let p: int = lemma_listed_has_index(periods.drop_first(), period);
        p + 1
    }
}

/// What stands at each place of a summary.
proof fn lemma_entry(data: JsonView, p: int)
    requires
        0 <= p < summary_of(data).len(),
    ensures
        ({
            let monthly = period_entry(data, "monthly"@).len();
            let other = period_entry(data, "other"@).len();
            let (name, metrics) = summary_of(data)[p];
            &&& name == if p < monthly {
                "monthly"@
            } else if p < monthly + other {
                "other"@
            } else {
                "weekly"@
            }
            &&& metrics == in_period(metrics_in(data, Seq::empty()), name)
            &&& metrics.len() > 0
            &&& summary_of(data).len() <= monthly + other + 1
        }),
{
    lemma_summary_shape(data);
    let monthly = period_entry(data, "monthly"@);
    let other = period_entry(data, "other"@);
    let weekly = period_entry(data, "weekly"@);
    let all = monthly + other + weekly;
    assert(summary_of(data) == all);
    if p < monthly.len() {
        assert(all[p] == monthly[p]);
    } else if p < monthly.len() + other.len() {
        assert(all[p] == other[p - monthly.len()]);
    } else {
        assert(all[p] == weekly[p - monthly.len() - other.len()]);
    }
}

/// Each period of a summary is found under its name.
proof fn lemma_names_are_found(data: JsonView, p: int)
    requires
        0 <= p < summary_of(data).len(),
    ensures
        listed_under(summary_of(data), summary_of(data)[p].0) == Some(summary_of(data)[p].1),
{
    lemma_entry(data, p);
    law_summary_lists_the_periods(data, summary_of(data)[p].0);
}

/// A summary names the periods `monthly`, `other` and `weekly` at most, in that
/// order, each once and with at least one metric, and lists the metrics of each
/// in the order in which they stand in the report.
pub proof fn law_summaries_are_in_order(data: Json, summary: UsageSummary, p: int, q: int)
    requires
        call_ensures(summarize_usage, (&data,), summary),
        0 <= p < summary.periods@.len(),
    ensures
        summary.periods@[p].0@ == "monthly"@ || summary.periods@[p].0@ == "other"@
            || summary.periods@[p].0@ == "weekly"@,
        summary.periods@[p].1@.len() > 0,
        p < q < summary.periods@.len() ==> text_before(
            summary.periods@[p].0@,
            summary.periods@[q].0@,
        ),
        metrics_view(summary.periods@[p].1@) == in_period(
            metrics_in(data@, Seq::empty()),
            summary.periods@[p].0@,
        ),
{
    lemma_entry(data@, p);
    assert(summary@[p] == (summary.periods@[p].0@, metrics_view(summary.periods@[p].1@)));
    if p < q < summary.periods@.len() {
        lemma_entry(data@, q);
        lemma_period_names_ascend();
        assert(summary@[q].0 == summary.periods@[q].0@);
    }
}

/// The metrics of a period are picked one by one, and their order stays.
pub proof fn law_periods_pick_in_order(
    found: Seq<Found>,
    more: Seq<Found>,
    one: Found,
    period: Seq<char>,
)
    ensures
        in_period(Seq::empty(), period) == Seq::<MetricView>::empty(),
        in_period(found + more, period) == in_period(found, period) + in_period(more, period),
        in_period(seq![one], period) == if one.period == period {
            seq![one.metric]
        } else {
            Seq::empty()
        },
{
    reveal(Seq::filter);
    assert(in_period(Seq::empty(), period) =~= Seq::<MetricView>::empty());
    Seq::filter_distributes_over_add(found, more, |f: Found| f.period == period);
    assert(in_period(found + more, period) =~= in_period(found, period) + in_period(more, period));
    assert(seq![one].drop_last() =~= Seq::<Found>::empty());
    assert(in_period(seq![one], period) =~= if one.period == period {
        seq![one.metric]
    } else {
        Seq::empty()
    });
}

/// A further member of an object adds itself, if it is a metric, and then the
/// metrics in it, after those of the members before.
pub proof fn law_members_add_their_metrics(
    members: Seq<(Seq<char>, JsonView)>,
    steps: Seq<Step>,
    key: Seq<char>,
    child: JsonView,
)
    ensures
        ({
            let before = metrics_in(JsonView::Object(members), written(steps));
            let own = metric_at(written(steps), key, child);
            let below = metrics_in(child, written(steps.push(Step::Member(key))));
            let all = metrics_in(JsonView::Object(members.push((key, child))), written(steps));
            &&& own is Some <==> is_metric_field(steps, key, child)
            &&& own matches Some(found) ==> is_entry_for(
                found.period,
                found.metric,
                steps,
                key,
                child,
            ) && all == before + seq![found] + below
            &&& own is None ==> all == before + below
        }),
{
    let all = members.push((key, child));
    let path = written(steps);
    assert(steps.push(Step::Member(key)).drop_last() =~= steps);
    lemma_metric_at(steps, key, child);
    lemma_first_members(members, (key, child), members.len(), path);
    assert(all[all.len() - 1].1 == child);
    let own = as_seq(metric_at(path, key, child));
    let before = metrics_in(JsonView::Object(members), path);
    assert(own.len() == 0 ==> before + own =~= before);
}

proof fn lemma_first_members(
    members: Seq<(Seq<char>, JsonView)>,
    last: (Seq<char>, JsonView),
    n: nat,
    path: Seq<char>,
)
    requires
        n <= members.len(),
    ensures
        metrics_in_members(members.push(last), n, path) == metrics_in_members(members, n, path),
    decreases n,
{
    if n > 0 {
        lemma_first_members(members, last, (n - 1) as nat, path);
        assert(members.push(last)[n - 1] == members[n - 1]);
    }
}

/// A further item of an array adds the metrics in it, after those of the items
/// before. Values without members and items have no metrics.
pub proof fn law_items_add_their_metrics(items: Seq<JsonView>, steps: Seq<Step>, child: JsonView)
    ensures
        metrics_in(JsonView::Array(items.push(child)), written(steps)) == metrics_in(
            JsonView::Array(items),
            written(steps),
        ) + metrics_in(child, written(steps.push(Step::Item(items.len())))),
        metrics_in(JsonView::Object(Seq::empty()), written(steps)) == Seq::<Found>::empty(),
        metrics_in(JsonView::Array(Seq::empty()), written(steps)) == Seq::<Found>::empty(),
        !(child is Object || child is Array) ==> metrics_in(child, written(steps)) == Seq::<
            Found,
        >::empty(),
{
    let all = items.push(child);
    assert(steps.push(Step::Item(items.len())).drop_last() =~= steps);
    lemma_first_items(items, child, items.len(), written(steps));
    assert(all[all.len() - 1] == child);
}

proof fn lemma_first_items(items: Seq<JsonView>, last: JsonView, n: nat, path: Seq<char>)
    requires
        n <= items.len(),
    ensures
        metrics_in_items(items.push(last), n, path) == metrics_in_items(items, n, path),
    decreases n,
{
    if n > 0 {
        lemma_first_items(items, last, (n - 1) as nat, path);
        assert(items.push(last)[n - 1] == items[n - 1]);
    }
}

/// Collecting keeps what was counted before and adds to each period the metrics
/// of the value that count for it, in order.
pub proof fn law_collecting_adds_the_metrics(value: Json, path: &str, tally: &mut Tally)
    requires
        call_ensures(collect_metrics, (&value, path, tally), ()),
    ensures
        ({
            let found = metrics_in(value@, path@);
            &&& metrics_view(final(tally).weekly@) == metrics_view(old(tally).weekly@) + in_period(
                found,
                "weekly"@,
            )
            &&& metrics_view(final(tally).monthly@) == metrics_view(old(tally).monthly@)
                + in_period(found, "monthly"@)
            &&& metrics_view(final(tally).other@) == metrics_view(old(tally).other@) + in_period(
                found,
                "other"@,
            )
        }),
{
}

/// A listed metric is its name, its value and its path.
pub proof fn law_metrics_are_name_value_and_path(metrics: Vec<Metric>, k: int)
    requires
        0 <= k < metrics@.len(),
    ensures
        metrics_view(metrics@).len() == metrics@.len(),
        metrics_view(metrics@)[k] == (MetricView {
            metric: metrics@[k].metric@,
            value: metrics@[k].value@,
            path: metrics@[k].path@,
        }),
{
}

/// The JSON of a metric holds its name, its path and its value, and nothing
/// else.
pub proof fn law_metrics_are_written_whole(metric: Metric, json: Json)
    requires
        call_ensures(Metric::to_json, (&metric,), json),
    ensures
        is_metric_json(json@, metric),
{
    lemma_metric_json(metric);
}

/// `json` holds the name, the path and the value of the metric, and nothing else.
pub open spec fn is_metric_json(json: JsonView, metric: Metric) -> bool {
    &&& json is Object
    &&& json->Object_0.len() == 3
    &&& json.get("metric"@) == Some(JsonView::Text(metric.metric@))
    &&& json.get("path"@) == Some(JsonView::Text(metric.path@))
    &&& json.get("value"@) == Some(metric.value@)
}

proof fn lemma_metric_json(metric: Metric)
    ensures
        is_metric_json(metric_json(metric@), metric),
{
    reveal_strlit("metric");
    reveal_strlit("path");
    reveal_strlit("value");
    reveal_with_fuel(crate::json::member_of, 4);
    let members = metric_json(metric@)->Object_0;
    assert(members.drop_first()[0] == members[1]);
    assert(members.drop_first().drop_first()[0] == members[2]);
    assert("metric"@.len() == 6 && "path"@.len() == 4 && "value"@.len() == 5);
}

/// The JSON of a summary holds every period under its name, with every metric of
/// the period, in order, and nothing else.
pub proof fn law_summaries_are_written_whole(summary: UsageSummary, json: Json, p: int, k: int)
    requires
        call_ensures(UsageSummary::to_json, (&summary,), json),
    ensures
        json@ is Object,
        json@->Object_0.len() == summary.periods@.len(),
        0 <= p < summary.periods@.len() ==> {
            let (name, list) = json@->Object_0[p];
            let (period, metrics) = summary.periods@[p];
            &&& name == period@
            &&& list is Array
            &&& list->Array_0.len() == metrics@.len()
            &&& 0 <= k < metrics@.len() ==> is_metric_json(list->Array_0[k], metrics@[k])
        },
{
    if 0 <= p < summary.periods@.len() {
        assert(summary@[p] == (
            summary.periods@[p].0@,
            metrics_view(summary.periods@[p].1@),
        ));
        if 0 <= k < summary.periods@[p].1@.len() {
            lemma_metric_json(summary.periods@[p].1@[k]);
        }
    }
}

/// A summary gives the metrics of a period under its name.
pub proof fn law_periods_are_found_by_name(
    summary: UsageSummary,
    period: &str,
    metrics: Option<&Vec<Metric>>,
    empty: bool,
)
    requires
        call_ensures(UsageSummary::get, (&summary, period), metrics),
        call_ensures(UsageSummary::is_empty, (&summary,), empty),
    ensures
        metrics is Some ==> exists|p: int|
            0 <= p < summary.periods@.len() && #[trigger] summary.periods@[p].0@ == period@
                && metrics_view(summary.periods@[p].1@) == metrics_view(metrics->0@),
        metrics is None ==> forall|p: int|
            0 <= p < summary.periods@.len() ==> #[trigger] summary.periods@[p].0@ != period@,
        empty <==> summary.periods@.len() == 0,
{
    if metrics is Some {
        let p = lemma_listed_has_index(summary@, period@);
        assert(summary.periods@[p].0@ == period@);
    } else {
        assert forall|p: int|
            0 <= p < summary.periods@.len() implies #[trigger] summary.periods@[p].0@
            != period@ by {
            if summary.periods@[p].0@ == period@ {
                assert(summary@[p].0 == period@);
                lemma_present_is_listed(summary@, p);
            }
        }
    }
}

proof fn lemma_present_is_listed(periods: Seq<(Seq<char>, Seq<MetricView>)>, p: int)
    requires
        0 <= p < periods.len(),
    ensures
        listed_under(periods, periods[p].0) is Some,
    decreases periods.len(),
{
    if periods[0].0 != periods[p].0 {
        assert(periods.drop_first()[p - 1] == periods[p]);
        lemma_present_is_listed(periods.drop_first(), p - 1);
    }
}

} // verus!
