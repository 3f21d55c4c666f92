//! What holds of every summary.
#![allow(unused_imports)]
use crate::classify::{
    is_usage_key, is_weekly, law_normal_form_of_parts, law_separators_and_case_do_not_matter,
    law_weekly_is_inherited, lemma_absent_character, lemma_lower_case_is_normal, normal_form,
    period_of,
};
use crate::json::{
    lemma_before_by_first, lemma_member_has_index, lemma_member_is_found, lemma_object3_wf,
    lemma_scalar_wf, names_ascend, text_before, JsonView,
};
use crate::summary::{
    as_seq, in_period, item_path, lemma_period_names_differ, lemma_summary_shape, listed_under,
    member_path, metric_at, metric_json, metrics_in, metrics_in_items, metrics_in_members,
    metrics_json, summary_json, summary_of, Found, MetricView,
};
use crate::text::{decimal, lemma_occurs_in_whole, occurs_in, stands_at};
use vstd::prelude::*;

verus! {

/// A step from a value into one of its parts.
pub enum Step {
    Member(Seq<char>),
    Item(nat),
}

/// The part of `root` that the steps lead to.
pub open spec fn value_at(root: JsonView, steps: Seq<Step>) -> Option<JsonView>
    decreases steps.len(),
{
    if steps.len() == 0 {
        Some(root)
    } else {
        match steps[0] {
            Step::Member(key) => match root.get(key) {
                Some(child) => value_at(child, steps.drop_first()),
                None => None,
            },
            Step::Item(index) => match root {
                JsonView::Array(items) => if index < items.len() {
                    value_at(items[index as int], steps.drop_first())
                } else {
                    None
                },
                _ => None,
            },
        }
    }
}

/// The path of what one step leads to, from the value at `path`.
pub open spec fn step_path(path: Seq<char>, step: Step) -> Seq<char> {
    match step {
        Step::Member(key) => member_path(path, key),
        Step::Item(index) => item_path(path, index),
    }
}

/// The path of what the steps lead to, from the value at `path`.
pub open spec fn steps_path(path: Seq<char>, steps: Seq<Step>) -> Seq<char>
    decreases steps.len(),
{
    if steps.len() == 0 {
        path
    } else {
        steps_path(step_path(path, steps[0]), steps.drop_first())
    }
}

/// `found` is the metric that the member `key` of the object at the end of
/// `steps` is.
pub open spec fn stands_in(
    found: Found,
    root: JsonView,
    path: Seq<char>,
    steps: Seq<Step>,
    key: Seq<char>,
) -> bool {
    &&& value_at(root, steps.push(Step::Member(key))) == Some(found.metric.value)
    &&& metric_at(steps_path(path, steps), key, found.metric.value) == Some(found)
}

proof fn lemma_step_then_steps(
    found: Found,
    root: JsonView,
    path: Seq<char>,
    step: Step,
    child: JsonView,
    steps: Seq<Step>,
    key: Seq<char>,
)
    requires
        value_at(root, seq![step]) == Some(child),
    ensures
        stands_in(found, root, path, seq![step] + steps, key) == stands_in(
            found,
            child,
            step_path(path, step),
            steps,
            key,
        ),
{
    let all = seq![step] + steps;
    assert(seq![step].drop_first() =~= Seq::<Step>::empty());
    assert(value_at(child, Seq::<Step>::empty()) == Some(child));
    assert(all.push(Step::Member(key)).drop_first() =~= steps.push(Step::Member(key)));
    assert(all.drop_first() =~= steps);
    match step {
        Step::Member(name) => {
            let next = root.get(name)->0;
            assert(value_at(next, Seq::<Step>::empty()) == Some(next));
        },
        Step::Item(index) => {
            let next = root->Array_0[index as int];
            assert(value_at(next, Seq::<Step>::empty()) == Some(next));
        },
    }
}

proof fn lemma_one_step(root: JsonView, step: Step)
    ensures
        value_at(root, seq![step]) == match step {
            Step::Member(key) => root.get(key),
            Step::Item(index) => match root {
                JsonView::Array(items) => if index < items.len() {
                    Some(items[index as int])
                } else {
                    None
                },
                _ => None,
            },
        },
{
    assert(seq![step].drop_first() =~= Seq::<Step>::empty());
    match step {
        Step::Member(key) => {
            if root.get(key) is Some {
                assert(value_at(root.get(key)->0, Seq::<Step>::empty()) == Some(
                    root.get(key)->0,
                ));
            }
        },
        Step::Item(index) => {
            if root is Array && index < root->Array_0.len() {
                let next = root->Array_0[index as int];
                assert(value_at(next, Seq::<Step>::empty()) == Some(next));
            }
        },
    }
}

/// Where a found metric stands.
proof fn lemma_found_stands(value: JsonView, path: Seq<char>, found: Found) -> (place: (
    Seq<Step>,
    Seq<char>,
))
    requires
        value.wf(),
        metrics_in(value, path).contains(found),
    ensures
        stands_in(found, value, path, place.0, place.1),
    decreases value, 0nat,
{
    match value {
        JsonView::Object(members) => lemma_found_stands_in_members(
            members,
            members.len(),
            path,
            found,
        ),
        JsonView::Array(items) => lemma_found_stands_in_items(items, items.len(), path, found),
        _ => (Seq::empty(), Seq::empty()),
    }
}

proof fn lemma_found_stands_in_members(
    members: Seq<(Seq<char>, JsonView)>,
    n: nat,
    path: Seq<char>,
    found: Found,
) -> (place: (Seq<Step>, Seq<char>))
    requires
        JsonView::Object(members).wf(),
        n <= members.len(),
        metrics_in_members(members, n, path).contains(found),
    ensures
        stands_in(found, JsonView::Object(members), path, place.0, place.1),
    decreases members, n,
{
    let root = JsonView::Object(members);
    let (key, child) = members[n - 1];
    let before = metrics_in_members(members, (n - 1) as nat, path);
    let own = as_seq(metric_at(path, key, child));
    let below = metrics_in(members[n - 1].1, member_path(path, key));
    let at = choose|at: int|
        0 <= at < metrics_in_members(members, n, path).len() && metrics_in_members(
            members,
            n,
            path,
        )[at] == found;
    lemma_member_is_found(members, n - 1);
    lemma_one_step(root, Step::Member(key));
    if at < before.len() {
        assert(before[at] == found);
        lemma_found_stands_in_members(members, (n - 1) as nat, path, found)
    } else if at < before.len() + own.len() {
        assert(own[at - before.len()] == found);
        assert(Seq::<Step>::empty().push(Step::Member(key)) =~= seq![Step::Member(key)]);
        (Seq::empty(), key)
    } else {
        assert(below[at - before.len() - own.len()] == found);
        let (steps, last) = lemma_found_stands(members[n - 1].1, member_path(path, key), found);
        lemma_step_then_steps(found, root, path, Step::Member(key), child, steps, last);
        (seq![Step::Member(key)] + steps, last)
    }
}

proof fn lemma_found_stands_in_items(
    items: Seq<JsonView>,
    n: nat,
    path: Seq<char>,
    found: Found,
) -> (place: (Seq<Step>, Seq<char>))
    requires
        JsonView::Array(items).wf(),
        n <= items.len(),
        metrics_in_items(items, n, path).contains(found),
    ensures
        stands_in(found, JsonView::Array(items), path, place.0, place.1),
    decreases items, n,
{
    let root = JsonView::Array(items);
    let index = (n - 1) as nat;
    let before = metrics_in_items(items, index, path);
    let below = metrics_in(items[n - 1], item_path(path, index));
    let at = choose|at: int|
        0 <= at < metrics_in_items(items, n, path).len() && metrics_in_items(items, n, path)[at]
            == found;
    lemma_one_step(root, Step::Item(index));
    if at < before.len() {
        assert(before[at] == found);
        lemma_found_stands_in_items(items, index, path, found)
    } else {
        assert(below[at - before.len()] == found);
        let (steps, last) = lemma_found_stands(items[n - 1], item_path(path, index), found);
        lemma_step_then_steps(found, root, path, Step::Item(index), items[n - 1], steps, last);
        (seq![Step::Item(index)] + steps, last)
    }
}

/// What is found in a member is found in the object.
proof fn lemma_member_contributes(
    members: Seq<(Seq<char>, JsonView)>,
    n: nat,
    i: int,
    path: Seq<char>,
    found: Found,
)
    requires
        0 <= i < n <= members.len(),
        ({
            ||| metric_at(path, members[i].0, members[i].1) == Some(found)
            ||| metrics_in(members[i].1, member_path(path, members[i].0)).contains(found)
        }),
    ensures
        metrics_in_members(members, n, path).contains(found),
    decreases n,
{
    let (key, child) = members[n - 1];
    let before = metrics_in_members(members, (n - 1) as nat, path);
    let own = as_seq(metric_at(path, key, child));
    let below = metrics_in(members[n - 1].1, member_path(path, key));
    let all = metrics_in_members(members, n, path);
    if i < n - 1 {
        lemma_member_contributes(members, (n - 1) as nat, i, path, found);
        let at = choose|at: int| 0 <= at < before.len() && before[at] == found;
        assert(all[at] == found);
    } else if metric_at(path, key, child) == Some(found) {
        assert(own[0] == found);
        assert(all[before.len() as int] == found);
    } else {
        let at = choose|at: int| 0 <= at < below.len() && below[at] == found;
        assert(all[before.len() + own.len() + at] == found);
    }
}

/// What is found in an item is found in the array.
proof fn lemma_item_contributes(
    items: Seq<JsonView>,
    n: nat,
    i: int,
    path: Seq<char>,
    found: Found,
)
    requires
        0 <= i < n <= items.len(),
        metrics_in(items[i], item_path(path, i as nat)).contains(found),
    ensures
        metrics_in_items(items, n, path).contains(found),
    decreases n,
{
    let before = metrics_in_items(items, (n - 1) as nat, path);
    let below = metrics_in(items[n - 1], item_path(path, (n - 1) as nat));
    let all = metrics_in_items(items, n, path);
    if i < n - 1 {
        lemma_item_contributes(items, (n - 1) as nat, i, path, found);
        let at = choose|at: int| 0 <= at < before.len() && before[at] == found;
        assert(all[at] == found);
    } else {
        let at = choose|at: int| 0 <= at < below.len() && below[at] == found;
        assert(all[before.len() + at] == found);
    }
}

/// A metric that stands in a value is found in it.
proof fn lemma_standing_is_found(
    value: JsonView,
    path: Seq<char>,
    steps: Seq<Step>,
    key: Seq<char>,
    found: Found,
)
    requires
        stands_in(found, value, path, steps, key),
    ensures
        metrics_in(value, path).contains(found),
    decreases steps.len(),
{
    if steps.len() == 0 {
        assert(steps.push(Step::Member(key)) =~= seq![Step::Member(key)]);
        lemma_one_step(value, Step::Member(key));
        let members = value->Object_0;
        let i = lemma_member_has_index(members, key);
        lemma_member_contributes(members, members.len(), i, path, found);
    } else {
        let step = steps[0];
        let rest = steps.drop_first();
        assert(steps =~= seq![step] + rest);
        assert(steps.push(Step::Member(key)).drop_first() =~= rest.push(Step::Member(key)));
        lemma_one_step(value, step);
        let child = value_at(value, seq![step])->0;
        assert(value_at(value, seq![step]) is Some);
        lemma_step_then_steps(found, value, path, step, child, rest, key);
        lemma_standing_is_found(child, step_path(path, step), rest, key, found);
        match step {
            Step::Member(name) => {
                let members = value->Object_0;
                let i = lemma_member_has_index(members, name);
                lemma_member_contributes(members, members.len(), i, path, found);
            },
            Step::Item(index) => {
                let items = value->Array_0;
                lemma_item_contributes(items, items.len(), index as int, path, found);
            },
        }
    }
}

/// The summary of a report lists the three periods that have metrics, each with
/// all of its metrics, and nothing else.
pub proof fn law_summary_lists_the_periods(data: JsonView, period: Seq<char>)
    ensures
        listed_under(summary_of(data), period) == {
            let metrics = in_period(metrics_in(data, Seq::empty()), period);
            if (period == "weekly"@ || period == "monthly"@ || period == "other"@) && metrics.len()
                > 0 {
                Some(metrics)
            } else {
                None
            }
        },
{
    lemma_summary_shape(data);
    lemma_period_names_differ();
    let listed = summary_of(data);
    reveal_with_fuel(listed_under, 4);
    if listed.len() > 1 {
        assert(listed.drop_first()[0] == listed[1]);
    }
    if listed.len() > 2 {
        assert(listed.drop_first().drop_first()[0] == listed[2]);
    }
}

proof fn lemma_in_period_contains(found: Seq<Found>, period: Seq<char>, metric: MetricView)
    ensures
        in_period(found, period).contains(metric) <==> found.contains(Found { period, metric }),
    decreases found.len(),
{
    reveal(Seq::filter);
    let pick = |f: Found| f.period == period;
    let one = Found { period, metric };
    if found.len() > 0 {
        let front = found.drop_last();
        let last = found.last();
        lemma_in_period_contains(front, period, metric);
        assert(found =~= front.push(last));
        assert(found.contains(one) <==> front.contains(one) || last == one) by {
            if front.contains(one) {
                let at = choose|at: int| 0 <= at < front.len() && front[at] == one;
                assert(found[at] == one);
            }
            if last == one {
                assert(found[found.len() - 1] == one);
            }
        }
        if pick(last) {
            let listed = in_period(front, period);
            assert(in_period(found, period) =~= listed.push(last.metric));
            assert(listed.push(last.metric).contains(metric) <==> listed.contains(metric)
                || last.metric == metric) by {
                if listed.contains(metric) {
                    let at = choose|at: int| 0 <= at < listed.len() && listed[at] == metric;
                    assert(listed.push(last.metric)[at] == metric);
                }
                if last.metric == metric {
                    assert(listed.push(last.metric)[listed.len() as int] == metric);
                }
            }
        }
    }
}

/// Every metric that a summary lists stands in the report: its path leads to a
/// field that is a metric of that name, value and period.
pub proof fn law_listed_metrics_stand_in_the_report(
    data: JsonView,
    period: Seq<char>,
    metric: MetricView,
)
    requires
        data.wf(),
        listed_under(summary_of(data), period) is Some,
        listed_under(summary_of(data), period)->0.contains(metric),
    ensures
        exists|steps: Seq<Step>, key: Seq<char>|
            #[trigger] stands_in(Found { period, metric }, data, Seq::empty(), steps, key),
{
    law_summary_lists_the_periods(data, period);
    lemma_in_period_contains(metrics_in(data, Seq::empty()), period, metric);
    let place = lemma_found_stands(data, Seq::empty(), Found { period, metric });
}

/// Every field of the report that is a metric is listed under its period.
pub proof fn law_metrics_of_the_report_are_listed(
    data: JsonView,
    steps: Seq<Step>,
    key: Seq<char>,
    found: Found,
)
    requires
        stands_in(found, data, Seq::empty(), steps, key),
    ensures
        listed_under(summary_of(data), found.period) is Some,
        listed_under(summary_of(data), found.period)->0.contains(found.metric),
{
    lemma_standing_is_found(data, Seq::empty(), steps, key, found);
    lemma_in_period_contains(metrics_in(data, Seq::empty()), found.period, found.metric);
    law_summary_lists_the_periods(data, found.period);
    assert(in_period(metrics_in(data, Seq::empty()), found.period).len() > 0);
}

proof fn lemma_periods_partition(found: Seq<Found>)
    requires
        forall|i: int|
            0 <= i < found.len() ==> {
                let period = (#[trigger] found[i]).period;
                period == "weekly"@ || period == "monthly"@ || period == "other"@
            },
    ensures
        in_period(found, "weekly"@).len() + in_period(found, "monthly"@).len() + in_period(
            found,
            "other"@,
        ).len() == found.len(),
    decreases found.len(),
{
    reveal(Seq::filter);
    lemma_period_names_differ();
    if found.len() > 0 {
        assert forall|i: int| 0 <= i < found.drop_last().len() implies {
            let period = (#[trigger] found.drop_last()[i]).period;
            period == "weekly"@ || period == "monthly"@ || period == "other"@
        } by {
            assert(found.drop_last()[i] == found[i]);
        }
        lemma_periods_partition(found.drop_last());
        assert(found.last() == found[found.len() - 1]);
    }
}

/// The periods share the metrics of the report among them: each metric counts
/// for one period, and none is lost or counted twice.
pub proof fn law_periods_share_the_metrics(data: JsonView)
    requires
        data.wf(),
    ensures
        ({
            let found = metrics_in(data, Seq::empty());
            in_period(found, "weekly"@).len() + in_period(found, "monthly"@).len() + in_period(
                found,
                "other"@,
            ).len() == found.len()
        }),
{
    let found = metrics_in(data, Seq::empty());
    assert forall|i: int| 0 <= i < found.len() implies {
        let period = (#[trigger] found[i]).period;
        period == "weekly"@ || period == "monthly"@ || period == "other"@
    } by {
        assert(found.contains(found[i]));
        let place = lemma_found_stands(data, Seq::empty(), found[i]);
    }
    lemma_periods_partition(found);
}

/// The summary of a well-formed report is well-formed JSON.
pub proof fn law_summary_is_well_formed_json(data: JsonView)
    requires
        data.wf(),
    ensures
        summary_json(summary_of(data)).wf(),
{
    let periods = summary_of(data);
    let members = summary_json(periods)->Object_0;
    lemma_period_names_ascend();
    lemma_summary_shape(data);
    assert(names_ascend(members));
    assert forall|i: int| 0 <= i < members.len() implies (#[trigger] members[i]).1.wf() by {
        let (period, metrics) = periods[i];
        law_summary_lists_the_periods(data, period);
        assert(listed_under(periods, period) == Some(metrics));
        let items = metrics_json(metrics)->Array_0;
        assert forall|j: int| 0 <= j < items.len() implies (#[trigger] items[j]).wf() by {
            assert(metrics.contains(metrics[j]));
            law_listed_metrics_stand_in_the_report(data, period, metrics[j]);
            lemma_metric_json_wf(metrics[j]);
        }
    }
}

/// A metric whose value is well-formed is well-formed JSON.
proof fn lemma_metric_json_wf(metric: MetricView)
    requires
        metric.value.wf(),
    ensures
        metric_json(metric).wf(),
{
    reveal_strlit("metric");
    reveal_strlit("path");
    reveal_strlit("value");
    lemma_before_by_first("metric"@, "path"@);
    lemma_before_by_first("metric"@, "value"@);
    lemma_before_by_first("path"@, "value"@);
    lemma_scalar_wf(JsonView::Text(metric.metric));
    lemma_scalar_wf(JsonView::Text(metric.path));
    lemma_object3_wf(
        "metric"@,
        JsonView::Text(metric.metric),
        "path"@,
        JsonView::Text(metric.path),
        "value"@,
        metric.value,
    );
}

/// The names of the periods ascend.
pub proof fn lemma_period_names_ascend()
    ensures
        text_before("monthly"@, "other"@),
        text_before("monthly"@, "weekly"@),
        text_before("other"@, "weekly"@),
{
    reveal_strlit("monthly");
    reveal_strlit("other");
    reveal_strlit("weekly");
    lemma_before_by_first("monthly"@, "other"@);
    lemma_before_by_first("monthly"@, "weekly"@);
    lemma_before_by_first("other"@, "weekly"@);
}

/// A report without objects and arrays has no summary.
pub proof fn law_scalar_reports_have_no_summary(data: JsonView)
    requires
        data.is_scalar(),
    ensures
        summary_of(data).len() == 0,
{
    let found = metrics_in(data, Seq::empty());
    assert(found.len() == 0);
    lemma_no_metrics_of(found, "monthly"@);
    lemma_no_metrics_of(found, "other"@);
    lemma_no_metrics_of(found, "weekly"@);
    lemma_summary_shape(data);
}

/// Every metric below a weekly path counts for the week.
pub proof fn law_metrics_below_a_weekly_path_are_weekly(
    value: JsonView,
    path: Seq<char>,
    found: Found,
)
    requires
        is_weekly(path),
        metrics_in(value, path).contains(found),
    ensures
        found.period == "weekly"@,
    decreases value, 0nat,
{
    match value {
        JsonView::Object(members) => lemma_weekly_members(members, members.len(), path, found),
        JsonView::Array(items) => lemma_weekly_items(items, items.len(), path, found),
        _ => {},
    }
}

proof fn lemma_weekly_step(path: Seq<char>, step: Step)
    requires
        is_weekly(path),
    ensures
        is_weekly(step_path(path, step)),
        period_of(step_path(path, step)) == "weekly"@,
{
    match step {
        Step::Member(key) => {
            if path.len() == 0 {
                law_weekly_is_inherited(Seq::empty(), path, key);
                assert(Seq::empty() + path + key =~= key);
            } else {
                law_weekly_is_inherited(Seq::empty(), path, "."@ + key);
                assert(Seq::empty() + path + ("."@ + key) =~= path + "."@ + key);
            }
        },
        Step::Item(index) => {
            let below = "["@ + decimal(index) + "]"@;
            law_weekly_is_inherited(Seq::empty(), path, below);
            assert(Seq::empty() + path + below =~= item_path(path, index));
        },
    }
}

proof fn lemma_weekly_members(
    members: Seq<(Seq<char>, JsonView)>,
    n: nat,
    path: Seq<char>,
    found: Found,
)
    requires
        is_weekly(path),
        n <= members.len(),
        metrics_in_members(members, n, path).contains(found),
    ensures
        found.period == "weekly"@,
    decreases members, n,
{
    let (key, child) = members[n - 1];
    let before = metrics_in_members(members, (n - 1) as nat, path);
    let own = as_seq(metric_at(path, key, child));
    let below = metrics_in(members[n - 1].1, member_path(path, key));
    let all = metrics_in_members(members, n, path);
    let at = choose|at: int| 0 <= at < all.len() && all[at] == found;
    lemma_weekly_step(path, Step::Member(key));
    if at < before.len() {
        assert(before[at] == found);
        lemma_weekly_members(members, (n - 1) as nat, path, found);
    } else if at < before.len() + own.len() {
        assert(own[at - before.len()] == found);
    } else {
        assert(below[at - before.len() - own.len()] == found);
        law_metrics_below_a_weekly_path_are_weekly(
            members[n - 1].1,
            member_path(path, key),
            found,
        );
    }
}

proof fn lemma_weekly_items(items: Seq<JsonView>, n: nat, path: Seq<char>, found: Found)
    requires
        is_weekly(path),
        n <= items.len(),
        metrics_in_items(items, n, path).contains(found),
    ensures
        found.period == "weekly"@,
    decreases items, n,
{
    let index = (n - 1) as nat;
    let before = metrics_in_items(items, index, path);
    let below = metrics_in(items[n - 1], item_path(path, index));
    let all = metrics_in_items(items, n, path);
    let at = choose|at: int| 0 <= at < all.len() && all[at] == found;
    lemma_weekly_step(path, Step::Item(index));
    if at < before.len() {
        assert(before[at] == found);
        lemma_weekly_items(items, index, path, found);
    } else {
        assert(below[at - before.len()] == found);
        law_metrics_below_a_weekly_path_are_weekly(items[n - 1], item_path(path, index), found);
    }
}

/// The metrics have the same names and values, one by one; their paths and
/// periods may differ.
pub open spec fn same_metrics(a: Seq<Found>, b: Seq<Found>) -> bool {
    &&& a.len() == b.len()
    &&& forall|i: int|
        0 <= i < a.len() ==> (#[trigger] a[i]).metric.metric == b[i].metric.metric
            && a[i].metric.value == b[i].metric.value
}

/// The key neither holds nor begins the words that mark a primary window.
pub open spec fn begins_no_window(key: Seq<char>) -> bool {
    forall|rest: Seq<char>| #[trigger]
        occurs_in("primarywindow"@, normal_form(key) + rest) ==> occurs_in("primarywindow"@, rest)
}

proof fn lemma_same_step(key: Seq<char>, path: Seq<char>, longer: Seq<char>, step: Step)
    requires
        normal_form(longer) == normal_form(key) + normal_form(path),
    ensures
        normal_form(step_path(longer, step)) == normal_form(key) + normal_form(
            step_path(path, step),
        ),
{
    lemma_step_form(path, step);
    lemma_step_form(longer, step);
    assert(normal_form(step_path(longer, step)) =~= normal_form(key) + normal_form(
        step_path(path, step),
    ));
}

/// What a step adds to the normal form of a path.
spec fn step_form(step: Step) -> Seq<char> {
    match step {
        Step::Member(key) => normal_form(key),
        Step::Item(index) => normal_form("["@ + decimal(index) + "]"@),
    }
}

proof fn lemma_step_form(path: Seq<char>, step: Step)
    ensures
        normal_form(step_path(path, step)) == normal_form(path) + step_form(step),
{
    match step {
        Step::Member(key) => {
            law_normal_form_of_parts(path, key);
            if path.len() == 0 {
                assert(path + key =~= key);
            } else {
                reveal_strlit(".");
                assert("."@ =~= seq!['.']);
                law_separators_and_case_do_not_matter(path, '.', key);
            }
        },
        Step::Item(index) => {
            let part = "["@ + decimal(index) + "]"@;
            law_normal_form_of_parts(path, part);
            assert(path + part =~= item_path(path, index));
        },
    }
}

proof fn lemma_same_metric_at(
    key: Seq<char>,
    path: Seq<char>,
    longer: Seq<char>,
    member: Seq<char>,
    value: JsonView,
)
    requires
        begins_no_window(key),
        normal_form(longer) == normal_form(key) + normal_form(path),
    ensures
        same_metrics(
            as_seq(metric_at(longer, member, value)),
            as_seq(metric_at(path, member, value)),
        ),
{
    if occurs_in("primarywindow"@, normal_form(path)) {
        lemma_occurs_in_whole(
            "primarywindow"@,
            normal_form(key),
            normal_form(path),
            Seq::empty(),
        );
        assert(normal_form(key) + normal_form(path) + Seq::empty() =~= normal_form(longer));
    }
}

/// A key in front of the path of a value leaves the metrics in the value the
/// same.
proof fn lemma_same_metrics(value: JsonView, key: Seq<char>, path: Seq<char>, longer: Seq<char>)
    requires
        begins_no_window(key),
        normal_form(longer) == normal_form(key) + normal_form(path),
    ensures
        same_metrics(metrics_in(value, longer), metrics_in(value, path)),
    decreases value, 0nat,
{
    match value {
        JsonView::Object(members) => lemma_same_in_members(
            members,
            members.len(),
            key,
            path,
            longer,
        ),
        JsonView::Array(items) => lemma_same_in_items(items, items.len(), key, path, longer),
        _ => {},
    }
}

proof fn lemma_same_in_members(
    members: Seq<(Seq<char>, JsonView)>,
    n: nat,
    key: Seq<char>,
    path: Seq<char>,
    longer: Seq<char>,
)
    requires
        n <= members.len(),
        begins_no_window(key),
        normal_form(longer) == normal_form(key) + normal_form(path),
    ensures
        same_metrics(
            metrics_in_members(members, n, longer),
            metrics_in_members(members, n, path),
        ),
    decreases members, n,
{
    if n > 0 {
        let (member, child) = members[n - 1];
        lemma_same_in_members(members, (n - 1) as nat, key, path, longer);
        lemma_same_metric_at(key, path, longer, member, child);
        lemma_same_step(key, path, longer, Step::Member(member));
        lemma_same_metrics(
            members[n - 1].1,
            key,
            member_path(path, member),
            member_path(longer, member),
        );
    }
}

proof fn lemma_same_in_items(
    items: Seq<JsonView>,
    n: nat,
    key: Seq<char>,
    path: Seq<char>,
    longer: Seq<char>,
)
    requires
        n <= items.len(),
        begins_no_window(key),
        normal_form(longer) == normal_form(key) + normal_form(path),
    ensures
        same_metrics(metrics_in_items(items, n, longer), metrics_in_items(items, n, path)),
    decreases items, n,
{
    if n > 0 {
        let index = (n - 1) as nat;
        lemma_same_in_items(items, index, key, path, longer);
        lemma_same_step(key, path, longer, Step::Item(index));
        lemma_same_metrics(items[n - 1], key, item_path(path, index), item_path(longer, index));
    }
}

/// A report that is wrapped into a member with a weekly key keeps its metrics,
/// and all of them count for the week. The key must not itself mark a primary
/// window, nor be a metric.
pub proof fn law_a_weekly_wrapper_keeps_the_metrics(key: Seq<char>, data: JsonView)
    requires
        is_weekly(key),
        begins_no_window(key),
        !(is_usage_key(key) && data.is_scalar()),
    ensures
        ({
            let plain = metrics_in(data, Seq::empty());
            let wrapped = metrics_in(JsonView::Object(seq![(key, data)]), Seq::empty());
            &&& same_metrics(wrapped, plain)
            &&& in_period(wrapped, "weekly"@).len() == plain.len()
            &&& in_period(wrapped, "monthly"@).len() == 0
            &&& in_period(wrapped, "other"@).len() == 0
        }),
{
    let none = Seq::<char>::empty();
    let members = seq![(key, data)];
    let plain = metrics_in(data, none);
    let wrapped = metrics_in(JsonView::Object(members), none);
    reveal(Seq::filter);
    assert(normal_form(none) =~= none);
    assert(normal_form(key) + none =~= normal_form(key));
    reveal_strlit("primarywindow");
    assert(!occurs_in("primarywindow"@, none));
    assert(metric_at(none, key, data) is None);
    assert(metrics_in_members(members, 0, none) =~= Seq::empty());
    assert(metrics_in_members(members, 1, none) =~= metrics_in(members[0].1, key));
    assert(wrapped =~= metrics_in(data, key));
    lemma_same_metrics(data, key, none, key);
    assert forall|i: int| 0 <= i < wrapped.len() implies (#[trigger] wrapped[i]).period
        == "weekly"@ by {
        assert(metrics_in(data, key).contains(wrapped[i]));
        law_metrics_below_a_weekly_path_are_weekly(data, key, wrapped[i]);
    }
    lemma_periods_partition(wrapped);
    lemma_period_names_differ();
    lemma_no_metrics_of(wrapped, "monthly"@);
    lemma_no_metrics_of(wrapped, "other"@);
}

proof fn lemma_no_metrics_of(found: Seq<Found>, period: Seq<char>)
    requires
        forall|i: int| 0 <= i < found.len() ==> (#[trigger] found[i]).period != period,
    ensures
        in_period(found, period).len() == 0,
{
    let listed = in_period(found, period);
    if listed.len() > 0 {
        assert(listed.contains(listed[0]));
        lemma_in_period_contains(found, period, listed[0]);
    }
}

/// A report that is wrapped into a member `weekly` keeps its metrics, and all of
/// them count for the week.
pub proof fn law_the_weekly_member_keeps_the_metrics(data: JsonView)
    ensures
        ({
            let plain = metrics_in(data, Seq::empty());
            let wrapped = metrics_in(JsonView::Object(seq![("weekly"@, data)]), Seq::empty());
            &&& same_metrics(wrapped, plain)
            &&& in_period(wrapped, "weekly"@).len() == plain.len()
            &&& in_period(wrapped, "monthly"@).len() == 0
            &&& in_period(wrapped, "other"@).len() == 0
        }),
{
    let key = "weekly"@;
    let window = "primarywindow"@;
    reveal_strlit("weekly");
    reveal_strlit("week");
    reveal_strlit("token");
    reveal_strlit("credit");
    reveal_strlit("request");
    reveal_strlit("primarywindow");
    assert(key =~= seq!['w', 'e', 'e', 'k', 'l', 'y']);
    lemma_lower_case_is_normal(key);
    assert(key.subrange(0, 4) =~= "week"@);
    assert(stands_at("week"@, key, 0));
    lemma_absent_character("token"@, 0, key);
    lemma_absent_character("credit"@, 5, key);
    lemma_absent_character("request"@, 6, key);
    assert forall|rest: Seq<char>| #[trigger] occurs_in(window, key + rest) implies occurs_in(
        window,
        rest,
    ) by {
        let at: int = choose|at: int| #[trigger] stands_at(window, key + rest, at);
        assert((key + rest).subrange(at, at + window.len())[0] == (key + rest)[at]);
        assert(window[0] == 'p');
        assert(rest.subrange(at - 6, at - 6 + window.len()) =~= window) by {
            assert((key + rest).subrange(at, at + window.len()) =~= rest.subrange(
                at - 6,
                at - 6 + window.len(),
            ));
        }
        assert(stands_at(window, rest, at - 6));
    }
    law_a_weekly_wrapper_keeps_the_metrics(key, data);
}

} // verus!
