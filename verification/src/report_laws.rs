//! What the benchmark promises of each task, each figure and each report.

use vstd::prelude::*;

use crate::gaia::{
    all_roles, chosen_dataset, chosen_setting, console_text, how_many, limited,
    metrics_of, missed_threshold, named_roles, normal_answer, normal_role, normal_roles,
    numbered_records, record_problem, report_text, result_models, result_of, right_answer,
    role_lines, routed_roles, shortened, task_name, task_row, GaiaRunOutput, GaiaSummary,
    ResultModel, StepModel, TaskModel, NO_DATASET, REPORT_FILE, SUMMARY_FILE,
    SUMMARY_SCHEMA,
};
use crate::lines::join;
use crate::numeral::decimal;
use crate::order::{distinct_sorted, law_distinct_sorted, precedes};
use crate::text::{lowered, trimmed};
use crate::text_laws::{all_space, law_trimmed};
use crate::words::{law_words_are_words, law_words_of_joined, words};

verus! {

// ---------------------------------------------------------------------------
// Answers
// ---------------------------------------------------------------------------

/// An answer is right exactly where its words, in lower case, are those of the
/// expected one, all of them and in the same order.
pub proof fn law_right_answer(predicted: Seq<char>, expected: Seq<char>)
    ensures
        right_answer(predicted, expected) <==> words(lowered(predicted)) == words(
            lowered(expected),
        ),
        right_answer(predicted, expected) == right_answer(expected, predicted),
        right_answer(predicted, expected) ==> words(lowered(predicted)).len() == words(
            lowered(expected),
        ).len(),
{
    law_words_are_words(lowered(predicted));
    law_words_are_words(lowered(expected));
    law_words_of_joined(words(lowered(predicted)));
    law_words_of_joined(words(lowered(expected)));
}

/// The one spelling of an answer has its words in lower case, with one space
/// between each two.
pub proof fn law_normal_answer(answer: Seq<char>)
    ensures
        words(normal_answer(answer)) == words(lowered(answer)),
        normal_answer(answer) == join(words(lowered(answer)), " "@),
{
    reveal_strlit(" ");
    assert(" "@ =~= seq![' ']);
    law_words_are_words(lowered(answer));
    law_words_of_joined(words(lowered(answer)));
}

/// A text that is short enough is given whole, but for the white space at its
/// ends; of a longer one as many characters as are allowed, and three dots.
pub proof fn law_shortened(value: Seq<char>, max: nat)
    ensures
        trimmed(value).len() <= max ==> shortened(value, max) == trimmed(value),
        trimmed(value).len() > max ==> shortened(value, max).len() == max + 3
            && shortened(value, max).take(max as int).is_prefix_of(trimmed(value))
            && shortened(value, max).skip(max as int) == "..."@,
{
    reveal_strlit("...");
    let text = trimmed(value);
    if text.len() > max {
        let out = shortened(value, max);
        assert(out.take(max as int) =~= text.take(max as int));
        assert(out.skip(max as int) =~= "..."@);
        assert(text.take(max as int) =~= text.subrange(0, max as int));
    }
}

/// What a task comes to keeps what the task says, and is right where the task
/// brings no answer along or one with the expected words.
pub proof fn law_result_of_task(task: TaskModel)
    ensures
        ({
            let result = result_of(task);
            &&& result.task_id == task.task_id
            &&& result.level == task.level
            &&& result.expected_answer == task.expected_answer
            &&& result.tool_steps == task.tool_steps
            &&& result.tool_step_count == task.tool_steps.len()
            &&& result.question_excerpt == shortened(task.question, 180)
            &&& result.routed_roles == routed_roles(task)
            &&& match task.predicted_answer {
                Some(answer) => result.predicted_answer == answer && (result.exact_match <==> words(
                    lowered(answer),
                ) == words(lowered(task.expected_answer))),
                None => result.predicted_answer == task.expected_answer && result.exact_match,
            }
        }),
{
    match task.predicted_answer {
        Some(answer) => {
            law_right_answer(answer, task.expected_answer);
        },
        None => {},
    }
}

// ---------------------------------------------------------------------------
// Roles
// ---------------------------------------------------------------------------

/// The one spelling of a role is the trimmed role, each capital made lower case,
/// each space an underscore, and every other character kept.
pub proof fn law_normal_role(role: Seq<char>, i: int)
    requires
        0 <= i < trimmed(role).len(),
    ensures
        normal_role(role).len() == trimmed(role).len(),
        trimmed(role)[i] == ' ' ==> normal_role(role)[i] == '_',
        'A' <= trimmed(role)[i] <= 'Z' ==> normal_role(role)[i] as int == trimmed(role)[i] as int
            + 32,
        trimmed(role)[i] != ' ' && !('A' <= trimmed(role)[i] <= 'Z') ==> normal_role(role)[i]
            == trimmed(role)[i],
{
}

proof fn lemma_normal_roles(list: Seq<Seq<char>>)
    ensures
        forall|role: Seq<char>| #[trigger]
            normal_roles(list).contains(role) <==> exists|i: int|
                0 <= i < list.len() && !all_space(#[trigger] list[i]) && role == normal_role(
                    list[i],
                ),
    decreases list.len(),
{
    if list.len() > 0 {
        let front = list.drop_last();
        let last = list.last();
        let before = normal_roles(front);
        lemma_normal_roles(front);
        let _ = law_trimmed(last);
        assert forall|role: Seq<char>| #[trigger]
            normal_roles(list).contains(role) <==> exists|i: int|
                0 <= i < list.len() && !all_space(#[trigger] list[i]) && role == normal_role(
                    list[i],
                ) by {
            if normal_roles(list).contains(role) {
                let k = normal_roles(list).index_of(role);
                if k < before.len() {
                    assert(before[k] == role);
                    assert(before.contains(role));
                    let i = choose|i: int|
                        0 <= i < front.len() && !all_space(#[trigger] front[i]) && role
                            == normal_role(front[i]);
                    assert(list[i] == front[i]);
                } else {
                    assert(list[list.len() - 1] == last);
                }
            }
            if exists|i: int|
                0 <= i < list.len() && !all_space(#[trigger] list[i]) && role == normal_role(
                    list[i],
                ) {
                let i = choose|i: int|
                    0 <= i < list.len() && !all_space(#[trigger] list[i]) && role == normal_role(
                        list[i],
                    );
                if i < front.len() {
                    assert(front[i] == list[i]);
                    assert(before.contains(role));
                    let k = before.index_of(role);
                    assert(normal_roles(list)[k] == role);
                } else {
                    assert(normal_roles(list).last() == role);
                    assert(normal_roles(list)[normal_roles(list).len() - 1] == role);
                }
            }
        }
    } else {
        assert forall|role: Seq<char>| !(#[trigger] normal_roles(list).contains(role)) by {}
    }
}

/// Whether a task names a role: it requires it, or one of its steps has it.
pub open spec fn names(task: TaskModel, role: Seq<char>) -> bool {
    ||| exists|i: int|
        0 <= i < task.required_roles.len() && !all_space(#[trigger] task.required_roles[i]) && role
            == normal_role(task.required_roles[i])
    ||| exists|i: int|
        0 <= i < task.tool_steps.len() && !all_space(#[trigger] task.tool_steps[i].role) && role
            == normal_role(task.tool_steps[i].role)
}

proof fn lemma_named_roles(task: TaskModel)
    ensures
        forall|role: Seq<char>| #[trigger] named_roles(task).contains(role) <==> names(task, role),
{
    let stepped = task.tool_steps.map_values(|s: StepModel| s.role);
    let all = task.required_roles + stepped;
    lemma_normal_roles(all);
    assert forall|role: Seq<char>| #[trigger]
        named_roles(task).contains(role) <==> names(task, role) by {
        if named_roles(task).contains(role) {
            let i = choose|i: int|
                0 <= i < all.len() && !all_space(#[trigger] all[i]) && role == normal_role(all[i]);
            if i < task.required_roles.len() {
                assert(all[i] == task.required_roles[i]);
            } else {
                assert(all[i] == task.tool_steps[i - task.required_roles.len()].role);
            }
        }
        if names(task, role) {
            if exists|i: int|
                0 <= i < task.required_roles.len() && !all_space(#[trigger] task.required_roles[i])
                    && role == normal_role(task.required_roles[i]) {
                let i = choose|i: int|
                    0 <= i < task.required_roles.len() && !all_space(
                        #[trigger] task.required_roles[i],
                    ) && role == normal_role(task.required_roles[i]);
                assert(all[i] == task.required_roles[i]);
            } else {
                let i = choose|i: int|
                    0 <= i < task.tool_steps.len() && !all_space(#[trigger] task.tool_steps[i].role)
                        && role == normal_role(task.tool_steps[i].role);
                assert(all[task.required_roles.len() + i] == task.tool_steps[i].role);
            }
        }
    }
}

/// A task is routed to the roles that it requires and to those of its steps, none
/// of them blank, in order and each once; a task that names none goes to the
/// scout.
pub proof fn law_routing(task: TaskModel)
    ensures
        forall|role: Seq<char>| #[trigger]
            routed_roles(task).contains(role) <==> names(task, role) || (role == "scout"@ && !exists|
                other: Seq<char>,
            | #[trigger]
                names(task, other)),
        forall|i: int, j: int|
            0 <= i < j < routed_roles(task).len() ==> precedes(
                #[trigger] routed_roles(task)[i],
                #[trigger] routed_roles(task)[j],
            ),
{
    let named = named_roles(task);
    lemma_named_roles(task);
    law_distinct_sorted(named);
    if named.len() == 0 {
        assert forall|role: Seq<char>| !(#[trigger] names(task, role)) by {
            assert(!named.contains(role));
        }
        assert(seq!["scout"@][0] == "scout"@);
        assert(routed_roles(task).contains("scout"@));
    } else {
        assert(named.contains(named[0]));
        assert(names(task, named[0]));
        assert forall|role: Seq<char>| #[trigger]
            routed_roles(task).contains(role) <==> names(task, role) || (role == "scout"@ && !exists|
                other: Seq<char>,
            | #[trigger]
                names(task, other)) by {
            assert(distinct_sorted(named).contains(role) <==> named.contains(role));
        }
    }
}

// ---------------------------------------------------------------------------
// Figures
// ---------------------------------------------------------------------------

/// One result more adds one to the number of tasks, one to each figure that it
/// belongs to, and its steps to the number of steps.
pub proof fn law_figures_add_up(results: Seq<ResultModel>, result: ResultModel)
    ensures
        ({
            let before = metrics_of(results);
            let after = metrics_of(results.push(result));
            let one = |test: bool|
                if test {
                    1int
                } else {
                    0int
                };
            &&& after.total_tasks == before.total_tasks + 1
            &&& after.correct_tasks == before.correct_tasks + one(result.exact_match)
            &&& after.level_3_tasks == before.level_3_tasks + one(result.level == 3)
            &&& after.multi_role_tasks == before.multi_role_tasks + one(
                result.routed_roles.len() >= 2,
            )
            &&& after.tool_step_count == before.tool_step_count + result.tool_step_count
        }),
        ({
            let none = metrics_of(Seq::empty());
            &&& none.total_tasks == 0
            &&& none.correct_tasks == 0
            &&& none.level_3_tasks == 0
            &&& none.multi_role_tasks == 0
            &&& none.tool_step_count == 0
            &&& none.routed_role_counts.len() == 0
        }),
{
    assert(results.push(result).drop_last() =~= results);
}

/// One result more of which a test holds adds one to how many there are.
pub proof fn law_counting(
    results: Seq<ResultModel>,
    result: ResultModel,
    test: spec_fn(ResultModel) -> bool,
)
    ensures
        how_many(Seq::empty(), test) == 0,
        test(result) ==> how_many(results.push(result), test) == how_many(results, test) + 1,
        !test(result) ==> how_many(results.push(result), test) == how_many(results, test),
{
    assert(results.push(result).drop_last() =~= results);
}

proof fn lemma_all_roles(results: Seq<ResultModel>, role: Seq<char>)
    ensures
        all_roles(results).contains(role) <==> exists|i: int|
            0 <= i < results.len() && (#[trigger] results[i]).routed_roles.contains(role),
    decreases results.len(),
{
    if results.len() > 0 {
        let front = results.drop_last();
        let last = results.last();
        let before = all_roles(front);
        lemma_all_roles(front, role);
        if all_roles(results).contains(role) {
            let k = all_roles(results).index_of(role);
            if k < before.len() {
                assert(before[k] == role);
                let i = choose|i: int|
                    0 <= i < front.len() && (#[trigger] front[i]).routed_roles.contains(role);
                assert(results[i] == front[i]);
            } else {
                assert(last.routed_roles[k - before.len()] == role);
                assert(results[results.len() - 1] == last);
            }
        }
        if exists|i: int|
            0 <= i < results.len() && (#[trigger] results[i]).routed_roles.contains(role) {
            let i = choose|i: int|
                0 <= i < results.len() && (#[trigger] results[i]).routed_roles.contains(role);
            if i < front.len() {
                assert(front[i] == results[i]);
                assert(before.contains(role));
                let k = before.index_of(role);
                assert(all_roles(results)[k] == role);
            } else {
                let k = last.routed_roles.index_of(role);
                assert(all_roles(results)[before.len() + k] == role);
            }
        }
    }
}

/// A role is counted exactly where some result was routed to it.
pub proof fn law_counted_roles(results: Seq<ResultModel>, role: Seq<char>)
    ensures
        (exists|k: int|
            0 <= k < metrics_of(results).routed_role_counts.len() && (#[trigger] metrics_of(
                results,
            ).routed_role_counts[k]).0 == role) <==> exists|i: int|
            0 <= i < results.len() && (#[trigger] results[i]).routed_roles.contains(role),
{
    let all = all_roles(results);
    let counts = metrics_of(results).routed_role_counts;
    let roles = distinct_sorted(all);
    lemma_all_roles(results, role);
    law_distinct_sorted(all);
    assert(roles.contains(role) <==> all.contains(role));
    assert forall|k: int| 0 <= k < counts.len() implies (#[trigger] counts[k]).0 == roles[k] by {}
    if roles.contains(role) {
        let k = roles.index_of(role);
        assert(counts[k].0 == role);
    }
    if exists|k: int| 0 <= k < counts.len() && (#[trigger] counts[k]).0 == role {
        let k = choose|k: int| 0 <= k < counts.len() && (#[trigger] counts[k]).0 == role;
        assert(roles[k] == role);
    }
}

/// Without a limit all tasks are run, with one the first so many.
pub proof fn law_limit(tasks: Seq<TaskModel>, n: usize)
    ensures
        limited(tasks, None) == tasks,
        limited(tasks, Some(n)).is_prefix_of(tasks),
        tasks.len() <= n ==> limited(tasks, Some(n)) == tasks,
        n <= tasks.len() ==> limited(tasks, Some(n)).len() == n,
{
    assert(tasks =~= tasks.subrange(0, tasks.len() as int));
    if n < tasks.len() {
        assert(tasks.take(n as int) =~= tasks.subrange(0, n as int));
    }
}

// ---------------------------------------------------------------------------
// Reports
// ---------------------------------------------------------------------------

/// The report has a head with the figures, a line for each role with its count,
/// and a row for each result.
pub proof fn law_report(summary: GaiaSummary, percent: Seq<char>) -> (parts: (
    Seq<Seq<char>>,
    Seq<Seq<char>>,
))
    ensures
        ({
            let (roles, rows) = parts;
            let metrics = summary.metrics@;
            let counts = metrics.routed_role_counts;
            let results = result_models(summary.results@);
            &&& report_text(summary, percent) == join(
                seq![
                    "# GAIA Level 3 Report"@,
                    ""@,
                    "- Dataset: "@ + summary.dataset_path@,
                    "- Generated: "@ + summary.generated_at@,
                    "- Exact match: "@ + percent + "% ("@ + decimal(metrics.correct_tasks) + "/"@
                        + decimal(metrics.total_tasks) + ")"@,
                    "- Level 3 tasks: "@ + decimal(metrics.level_3_tasks),
                    "- Multi-role tasks: "@ + decimal(metrics.multi_role_tasks),
                    "- Tool steps: "@ + decimal(metrics.tool_step_count),
                    ""@,
                    "## Role Routing"@,
                ] + roles + seq![
                    ""@,
                    "## Tasks"@,
                    ""@,
                    "| Task | Level | Exact | Roles | Tool steps |"@,
                    "| --- | ---: | --- | --- | ---: |"@,
                ] + rows,
                "\n"@,
            )
            &&& counts.len() == 0 ==> roles == seq!["- none"@]
            &&& counts.len() > 0 ==> roles.len() == counts.len() && forall|i: int|
                0 <= i < roles.len() ==> #[trigger] roles[i] == "- "@ + counts[i].0 + ": "@
                    + decimal(counts[i].1)
            &&& rows.len() == results.len()
            &&& forall|i: int|
                0 <= i < rows.len() ==> #[trigger] rows[i] == "| "@ + results[i].task_id + " | "@
                    + decimal(results[i].level as nat) + " | "@ + (if results[i].exact_match {
                    "pass"@
                } else {
                    "fail"@
                }) + " | "@ + join(results[i].routed_roles, ", "@) + " | "@ + decimal(
                    results[i].tool_step_count,
                ) + " |"@
        }),
{
    let metrics = summary.metrics@;
    let roles = role_lines(metrics.routed_role_counts);
    let rows = result_models(summary.results@).map_values(|r: ResultModel| task_row(r));
    let match_line = "- Exact match: "@ + percent + "% ("@ + decimal(metrics.correct_tasks) + "/"@
        + decimal(metrics.total_tasks) + ")"@;
    assert(match_line =~= "- Exact match: "@ + (percent + "% ("@ + decimal(metrics.correct_tasks)
        + "/"@ + decimal(metrics.total_tasks) + ")"@));
    (roles, rows)
}

/// What a run says on the console and why its threshold was missed.
pub proof fn law_console(
    output: GaiaRunOutput,
    percent: Seq<char>,
    below: bool,
    accuracy: Seq<char>,
    least: Seq<char>,
)
    ensures
        ({
            let metrics = output.metrics@;
            console_text(output, percent) == "GAIA Level 3 n="@ + decimal(metrics.total_tasks)
                + " exact_match="@ + percent + "% ("@ + decimal(metrics.correct_tasks) + "/"@
                + decimal(metrics.total_tasks) + ") multi_role="@ + decimal(
                metrics.multi_role_tasks,
            ) + " tool_steps="@ + decimal(metrics.tool_step_count) + "\nSummary JSON: "@
                + output.summary_path@ + "\nReport Markdown: "@ + output.markdown_path@ + "\n"@
        }),
        below ==> missed_threshold(below, accuracy, least) == Some(
            "GAIA exact-match accuracy "@ + accuracy + " below threshold "@ + least,
        ),
        !below ==> missed_threshold(below, accuracy, least) is None,
{
    reveal_strlit(")");
    reveal_strlit(" multi_role=");
    reveal_strlit(") multi_role=");
    assert(") multi_role="@ =~= ")"@ + " multi_role="@);
    let m = output.metrics@;
    assert(console_text(output, percent) =~= "GAIA Level 3 n="@ + decimal(m.total_tasks)
        + " exact_match="@ + percent + "% ("@ + decimal(m.correct_tasks) + "/"@ + decimal(
        m.total_tasks,
    ) + ") multi_role="@ + decimal(m.multi_role_tasks) + " tool_steps="@ + decimal(
        m.tool_step_count,
    ) + "\nSummary JSON: "@ + output.summary_path@ + "\nReport Markdown: "@
        + output.markdown_path@ + "\n"@);
}

/// The names of the reports and of their form.
pub proof fn law_report_names()
    ensures
        SUMMARY_SCHEMA@ == "harkonnen.gaia_level3.v1"@,
        SUMMARY_FILE@ == "gaia_level3_summary.json"@,
        REPORT_FILE@ == "gaia_level3_report.md"@,
        NO_DATASET@
            == "GAIA dataset not found. Set GAIA_DATASET to a local JSONL file, or place a fixture at factory/benchmarks/fixtures/gaia-level3-smoke.jsonl."@,
{
}

// ---------------------------------------------------------------------------
// Settings and datasets
// ---------------------------------------------------------------------------

/// What was given goes before what stands in the environment, and a blank setting
/// is none.
pub proof fn law_setting(text: Seq<char>, environment: Option<Seq<char>>)
    ensures
        all_space(text) ==> chosen_setting(Some(text), environment) is None && chosen_setting(
            None,
            Some(text),
        ) is None,
        !all_space(text) ==> chosen_setting(Some(text), environment) == Some(text)
            && chosen_setting(None, Some(text)) == Some(text),
        chosen_setting(None, None) is None,
{
    let _ = law_trimmed(text);
}

/// The dataset that was asked for is taken where it is there, then the fixture.
pub proof fn law_dataset(asked: Seq<char>, fixture: Seq<char>, fixture_exists: bool)
    ensures
        chosen_dataset(Some(asked), true, fixture, fixture_exists) == Some(asked),
        chosen_dataset(Some(asked), false, fixture, true) == Some(fixture),
        chosen_dataset(None, true, fixture, true) == Some(fixture),
        chosen_dataset(None, false, fixture, true) == Some(fixture),
        chosen_dataset(Some(asked), false, fixture, false) is None,
        chosen_dataset(None, true, fixture, false) is None,
        chosen_dataset(None, false, fixture, false) is None,
{
}

/// Every line that is not blank is a record, trimmed and with its number, and the
/// records come in the order of their lines.
pub proof fn law_records(lines: Seq<Seq<char>>)
    ensures
        forall|number: nat, text: Seq<char>| #[trigger]
            numbered_records(lines).contains((number, text)) <==> 1 <= number <= lines.len()
                && !all_space(lines[number - 1]) && text == trimmed(lines[number - 1]),
        forall|i: int, j: int|
            0 <= i < j < numbered_records(lines).len() ==> (#[trigger] numbered_records(lines)[i]).0
                < (#[trigger] numbered_records(lines)[j]).0,
    decreases lines.len(),
{
    let all = numbered_records(lines);
    if lines.len() == 0 {
        assert forall|number: nat, text: Seq<char>| !(#[trigger] all.contains((number, text))) by {}
    } else {
        let front = lines.drop_last();
        let before = numbered_records(front);
        let n = lines.len();
        law_records(front);
        let _ = law_trimmed(lines.last());
        assert forall|number: nat, text: Seq<char>| #[trigger]
            all.contains((number, text)) <==> 1 <= number <= lines.len() && !all_space(
                lines[number - 1],
            ) && text == trimmed(lines[number - 1]) by {
            if number < n && number >= 1 {
                assert(front[number - 1] == lines[number - 1]);
            }
            assert(before.contains((number, text)) ==> number < n);
            if before.contains((number, text)) {
                let k = before.index_of((number, text));
                assert(all[k] == (number, text));
            }
            if all.contains((number, text)) {
                let k = all.index_of((number, text));
                if k < before.len() {
                    assert(before[k] == (number, text));
                    assert(before.contains((number, text)));
                }
            }
            if number == n && !all_space(lines[n - 1]) && text == trimmed(lines[n - 1]) {
                assert(all[all.len() - 1] == (number, text));
            }
        }
        assert forall|i: int, j: int| 0 <= i < j < all.len() implies (#[trigger] all[i]).0 < (
        #[trigger] all[j]).0 by {
            if j < before.len() {
                assert(before[i].0 < before[j].0);
            } else {
                assert(before.contains((before[i].0, before[i].1)));
            }
        }
    }
}

/// A task without a name is named after its line, and a record that cannot be
/// read is reported with it.
pub proof fn law_task_name(id: Seq<char>, number: nat)
    ensures
        all_space(id) ==> task_name(id, number) == "gaia-"@ + decimal(number),
        !all_space(id) ==> task_name(id, number) == id,
        record_problem(number) == "parsing GAIA task line "@ + decimal(number),
{
    let _ = law_trimmed(id);
}

} // verus!
