//! What the benchmark's figures promise.

use vstd::prelude::*;

use crate::gaia::{
    all_roles, how_many, metrics_of, named_roles, normal_answer, result_of, results_of,
    right_answer, role_counts, routed_roles, times, ResultModel, TaskModel,
};
use crate::lines::join;
use crate::order::{
    distinct_sorted, law_distinct_sorted, lemma_precedes_total, precedes, strictly_ascending,
};
use crate::text::lowered;
use crate::words::{law_words_are_words, law_words_of_joined, pieces, without_empty, words};

verus! {

// ---------------------------------------------------------------------------
// Answers
// ---------------------------------------------------------------------------

/// Whether every text of the list is in lower case.
spec fn all_low(list: Seq<Seq<char>>) -> bool {
    forall|i: int| 0 <= i < list.len() ==> lowered(#[trigger] list[i]) == list[i]
}

proof fn lemma_pieces_low(s: Seq<char>)
    requires
        lowered(s) == s,
    ensures
        all_low(pieces(s)),
        pieces(s).len() >= 1,
    decreases s.len(),
{
    if s.len() == 0 {
        assert(lowered(Seq::<char>::empty()) =~= Seq::empty());
    } else {
        let front = s.drop_last();
        assert(lowered(front) =~= front) by {
            assert forall|i: int| 0 <= i < front.len() implies lowered(front)[i] == front[i] by {
                assert(lowered(s)[i] == s[i]);
            }
        }
        lemma_pieces_low(front);
        assert(lowered(s)[s.len() - 1] == s[s.len() - 1]);
        let before = pieces(front);
        assert(lowered(Seq::<char>::empty()) =~= Seq::empty());
        assert(lowered(before[before.len() - 1]) == before[before.len() - 1]);
        assert(lowered(before.last().push(s.last())) =~= before.last().push(s.last())) by {
            let grown = before.last().push(s.last());
            assert forall|i: int| 0 <= i < grown.len() implies lowered(grown)[i] == grown[i] by {
                if i < before.last().len() {
                    assert(lowered(before.last())[i] == before.last()[i]);
                }
            }
        }
        assert forall|i: int| 0 <= i < pieces(s).len() implies lowered(#[trigger] pieces(s)[i])
            == pieces(s)[i] by {
            if i < before.len() - 1 {
                assert(pieces(s)[i] == before[i]);
            }
        }
    }
}

proof fn lemma_without_empty_low(list: Seq<Seq<char>>)
    requires
        all_low(list),
    ensures
        all_low(without_empty(list)),
    decreases list.len(),
{
    if list.len() > 0 {
        let front = list.drop_last();
        assert forall|i: int| 0 <= i < front.len() implies lowered(#[trigger] front[i])
            == front[i] by {
            assert(front[i] == list[i]);
        }
        lemma_without_empty_low(front);
        let kept = without_empty(front);
        let out = without_empty(list);
        assert forall|i: int| 0 <= i < out.len() implies lowered(#[trigger] out[i]) == out[i] by {
            if i < kept.len() {
                assert(out[i] == kept[i]);
            } else {
                assert(out[i] == list[list.len() - 1]);
            }
        }
    }
}

proof fn lemma_join_low(list: Seq<Seq<char>>)
    requires
        all_low(list),
    ensures
        lowered(join(list, seq![' '])) == join(list, seq![' ']),
    decreases list.len(),
{
    let sep = seq![' '];
    if list.len() == 0 {
        assert(lowered(Seq::<char>::empty()) =~= Seq::empty());
    } else if list.len() == 1 {
        assert(lowered(list[0]) == list[0]);
    } else {
        let front = list.drop_last();
        assert forall|i: int| 0 <= i < front.len() implies lowered(#[trigger] front[i])
            == front[i] by {
            assert(front[i] == list[i]);
        }
        lemma_join_low(front);
        let a = join(front, sep);
        let b = list.last();
        assert(lowered(list[list.len() - 1]) == b);
        let whole = a + sep + b;
        assert forall|i: int| 0 <= i < whole.len() implies lowered(whole)[i] == whole[i] by {
            if i < a.len() {
                assert(lowered(a)[i] == a[i]);
            } else if i > a.len() {
                assert(lowered(b)[i - a.len() - 1] == b[i - a.len() - 1]);
            }
        }
        assert(lowered(whole) =~= whole);
    }
}

proof fn lemma_lowered_twice(s: Seq<char>)
    ensures
        lowered(lowered(s)) == lowered(s),
{
    assert(lowered(lowered(s)) =~= lowered(s));
}

/// The one spelling of an answer is its own one spelling.
pub proof fn law_normal_answer_is_stable(answer: Seq<char>)
    ensures
        normal_answer(normal_answer(answer)) == normal_answer(answer),
{
    let low = lowered(answer);
    lemma_lowered_twice(answer);
    lemma_pieces_low(low);
    lemma_without_empty_low(pieces(low));
    lemma_join_low(words(low));
    law_words_are_words(low);
    law_words_of_joined(words(low));
}

/// Case makes no difference to whether an answer is right.
pub proof fn law_case_makes_no_difference(predicted: Seq<char>, expected: Seq<char>)
    ensures
        right_answer(lowered(predicted), expected) == right_answer(predicted, expected),
{
    lemma_lowered_twice(predicted);
}

/// A task without a predicted answer counts as answered as expected.
pub proof fn law_missing_prediction_is_right(task: TaskModel)
    requires
        task.predicted_answer is None,
    ensures
        result_of(task).exact_match,
        result_of(task).predicted_answer == task.expected_answer,
{
}

// ---------------------------------------------------------------------------
// Roles
// ---------------------------------------------------------------------------

/// A task is routed to at least one role, to none twice, in order, and where it
/// names roles, to exactly those.
pub proof fn law_routed_roles(task: TaskModel)
    ensures
        routed_roles(task).len() >= 1,
        strictly_ascending(routed_roles(task)),
        named_roles(task).len() == 0 ==> routed_roles(task) == seq!["scout"@],
        named_roles(task).len() > 0 ==> forall|role: Seq<char>| #[trigger]
            routed_roles(task).contains(role) <==> named_roles(task).contains(role),
{
    let named = named_roles(task);
    law_distinct_sorted(named);
    if named.len() > 0 {
        assert(named.contains(named[0]));
        assert(distinct_sorted(named).contains(named[0]));
    }
}

proof fn lemma_times_concat(a: Seq<Seq<char>>, b: Seq<Seq<char>>, x: Seq<char>)
    ensures
        times(a + b, x) == times(a, x) + times(b, x),
    decreases b.len(),
{
    if b.len() == 0 {
        assert(a + b =~= a);
    } else {
        assert((a + b).drop_last() =~= a + b.drop_last());
        lemma_times_concat(a, b.drop_last(), x);
    }
}

proof fn lemma_times_at_most_once(list: Seq<Seq<char>>, x: Seq<char>)
    requires
        strictly_ascending(list),
    ensures
        times(list, x) == if list.contains(x) {
            1nat
        } else {
            0nat
        },
    decreases list.len(),
{
    if list.len() > 0 {
        let front = list.drop_last();
        assert forall|i: int, j: int| 0 <= i < j < front.len() implies precedes(
            front[i],
            front[j],
        ) by {
            assert(precedes(list[i], list[j]));
        }
        lemma_times_at_most_once(front, x);
        if list.last() == x {
            if front.contains(x) {
                let k = front.index_of(x);
                assert(precedes(list[k], list[list.len() - 1]));
                lemma_precedes_total(x, x);
            }
            assert(list[list.len() - 1] == x);
        }
        if front.contains(x) {
            let k = front.index_of(x);
            assert(list[k] == x);
        }
        if list.contains(x) && list.last() != x {
            let k = list.index_of(x);
            assert(front[k] == x);
        }
    }
}

proof fn lemma_times_counts_results(results: Seq<ResultModel>, role: Seq<char>)
    requires
        forall|i: int|
            0 <= i < results.len() ==> strictly_ascending((#[trigger] results[i]).routed_roles),
    ensures
        times(all_roles(results), role) == how_many(
            results,
            |r: ResultModel| r.routed_roles.contains(role),
        ),
    decreases results.len(),
{
    if results.len() > 0 {
        let front = results.drop_last();
        assert forall|i: int| 0 <= i < front.len() implies strictly_ascending(
            (#[trigger] front[i]).routed_roles,
        ) by {
            assert(front[i] == results[i]);
        }
        lemma_times_counts_results(front, role);
        lemma_times_concat(all_roles(front), results.last().routed_roles, role);
        assert(strictly_ascending(results[results.len() - 1].routed_roles));
        lemma_times_at_most_once(results.last().routed_roles, role);
    }
}

proof fn lemma_how_many_bounded(results: Seq<ResultModel>, test: spec_fn(ResultModel) -> bool)
    ensures
        how_many(results, test) <= results.len(),
    decreases results.len(),
{
    if results.len() > 0 {
        lemma_how_many_bounded(results.drop_last(), test);
    }
}

/// The count of each role is the number of tasks that were routed to it, the
/// roles come in order, and none comes twice.
pub proof fn law_role_counts_count_tasks(tasks: Seq<TaskModel>)
    ensures
        ({
            let results = results_of(tasks);
            let counts = metrics_of(results).routed_role_counts;
            &&& forall|i: int|
                0 <= i < counts.len() ==> (#[trigger] counts[i]).1 == how_many(
                    results,
                    |r: ResultModel| r.routed_roles.contains(counts[i].0),
                )
            &&& forall|i: int, j: int|
                0 <= i < j < counts.len() ==> precedes(
                    (#[trigger] counts[i]).0,
                    (#[trigger] counts[j]).0,
                )
        }),
{
    let results = results_of(tasks);
    let all = all_roles(results);
    let roles = distinct_sorted(all);
    let counts = metrics_of(results).routed_role_counts;
    assert(counts == role_counts(all));
    law_distinct_sorted(all);
    assert forall|i: int| 0 <= i < results.len() implies strictly_ascending(
        (#[trigger] results[i]).routed_roles,
    ) by {
        law_routed_roles(tasks[i]);
    }
    assert forall|i: int| 0 <= i < counts.len() implies (#[trigger] counts[i]).1 == how_many(
        results,
        |r: ResultModel| r.routed_roles.contains(counts[i].0),
    ) by {
        assert(counts[i] == (roles[i], times(all, roles[i])));
        lemma_times_counts_results(results, roles[i]);
    }
    assert forall|i: int, j: int| 0 <= i < j < counts.len() implies precedes(
        (#[trigger] counts[i]).0,
        (#[trigger] counts[j]).0,
    ) by {
        assert(counts[i].0 == roles[i]);
        assert(counts[j].0 == roles[j]);
        assert(precedes(roles[i], roles[j]));
    }
}

/// No figure about tasks exceeds the number of tasks.
pub proof fn law_figures_are_bounded(results: Seq<ResultModel>)
    ensures
        metrics_of(results).correct_tasks <= metrics_of(results).total_tasks,
        metrics_of(results).level_3_tasks <= metrics_of(results).total_tasks,
        metrics_of(results).multi_role_tasks <= metrics_of(results).total_tasks,
{
    lemma_how_many_bounded(results, |r: ResultModel| r.exact_match);
    lemma_how_many_bounded(results, |r: ResultModel| r.level == 3);
    lemma_how_many_bounded(results, |r: ResultModel| r.routed_roles.len() > 1);
}

} // verus!
