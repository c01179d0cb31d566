//! The GAIA level 3 benchmark: what the tasks of a dataset come to, which roles
//! they are routed to, and how a run is reported.
//!
//! A task brings its predicted answer along, or is taken to be answered as
//! expected. How large a share of the answers is right is a matter for floating
//! point numbers; this module counts, and takes the share as the text in which
//! it is reported.

use vstd::prelude::*;
use vstd::string::*;

use crate::lines::{join, join_texts, lines, lines_of};
use crate::numeral::{decimal, decimal_text, number_in, parse_usize};
use crate::order::{add_text, distinct_sorted, law_distinct_sorted, strictly_ascending, with_text};
use crate::text::{
    blank, chars_of, is_blank, lowered, optional_text, same, string_of, texts, to_lower, trim,
    trimmed,
};
use crate::words::{words, words_of};

verus! {

// ---------------------------------------------------------------------------
// Values
// ---------------------------------------------------------------------------

/// One use of a tool on the way to an answer.
#[derive(Debug, Clone, PartialEq, Eq)]
pub struct GaiaToolStep {
    pub role: String,
    pub tool: String,
    pub input: String,
    pub output: String,
}

/// What a `GaiaToolStep` holds.
pub struct StepModel {
    pub role: Seq<char>,
    pub tool: Seq<char>,
    pub input: Seq<char>,
    pub output: Seq<char>,
}

impl View for GaiaToolStep {
    type V = StepModel;

    open spec fn view(&self) -> StepModel {
        StepModel {
            role: self.role@,
            tool: self.tool@,
            input: self.input@,
            output: self.output@,
        }
    }
}

/// What a list of steps holds.
pub open spec fn step_models(steps: Seq<GaiaToolStep>) -> Seq<StepModel> {
    steps.map_values(|s: GaiaToolStep| s@)
}

/// One task of a dataset.
#[derive(Debug, Clone, PartialEq, Eq)]
pub struct GaiaTask {
    pub task_id: String,
    pub level: u8,
    pub question: String,
    pub expected_answer: String,
    pub predicted_answer: Option<String>,
    pub required_roles: Vec<String>,
    pub tool_steps: Vec<GaiaToolStep>,
}

/// What a `GaiaTask` holds.
pub struct TaskModel {
    pub task_id: Seq<char>,
    pub level: u8,
    pub question: Seq<char>,
    pub expected_answer: Seq<char>,
    pub predicted_answer: Option<Seq<char>>,
    pub required_roles: Seq<Seq<char>>,
    pub tool_steps: Seq<StepModel>,
}

impl View for GaiaTask {
    type V = TaskModel;

    open spec fn view(&self) -> TaskModel {
        TaskModel {
            task_id: self.task_id@,
            level: self.level,
            question: self.question@,
            expected_answer: self.expected_answer@,
            predicted_answer: optional_text(self.predicted_answer),
            required_roles: texts(self.required_roles@),
            tool_steps: step_models(self.tool_steps@),
        }
    }
}

/// What a list of tasks holds.
pub open spec fn task_models(tasks: Seq<GaiaTask>) -> Seq<TaskModel> {
    tasks.map_values(|t: GaiaTask| t@)
}

/// What one task came to.
#[derive(Debug, Clone, PartialEq, Eq)]
pub struct GaiaTaskResult {
    pub task_id: String,
    pub level: u8,
    pub question_excerpt: String,
    pub expected_answer: String,
    pub predicted_answer: String,
    pub exact_match: bool,
    pub routed_roles: Vec<String>,
    pub tool_step_count: usize,
    pub tool_steps: Vec<GaiaToolStep>,
}

/// What a `GaiaTaskResult` holds.
pub struct ResultModel {
    pub task_id: Seq<char>,
    pub level: u8,
    pub question_excerpt: Seq<char>,
    pub expected_answer: Seq<char>,
    pub predicted_answer: Seq<char>,
    pub exact_match: bool,
    pub routed_roles: Seq<Seq<char>>,
    pub tool_step_count: nat,
    pub tool_steps: Seq<StepModel>,
}

impl View for GaiaTaskResult {
    type V = ResultModel;

    open spec fn view(&self) -> ResultModel {
        ResultModel {
            task_id: self.task_id@,
            level: self.level,
            question_excerpt: self.question_excerpt@,
            expected_answer: self.expected_answer@,
            predicted_answer: self.predicted_answer@,
            exact_match: self.exact_match,
            routed_roles: texts(self.routed_roles@),
            tool_step_count: self.tool_step_count as nat,
            tool_steps: step_models(self.tool_steps@),
        }
    }
}

/// What a list of results holds.
pub open spec fn result_models(results: Seq<GaiaTaskResult>) -> Seq<ResultModel> {
    results.map_values(|r: GaiaTaskResult| r@)
}

/// How many tasks were routed to a role.
#[derive(Debug, Clone, PartialEq, Eq)]
pub struct RoleCount {
    pub role: String,
    pub count: usize,
}

impl View for RoleCount {
    type V = (Seq<char>, nat);

    open spec fn view(&self) -> (Seq<char>, nat) {
        (self.role@, self.count as nat)
    }
}

/// What a list of counts holds.
pub open spec fn count_models(counts: Seq<RoleCount>) -> Seq<(Seq<char>, nat)> {
    counts.map_values(|c: RoleCount| c@)
}

/// The roles of a list of counts.
pub open spec fn counted_roles(counts: Seq<(Seq<char>, nat)>) -> Seq<Seq<char>> {
    counts.map_values(|count: (Seq<char>, nat)| count.0)
}

/// The figures of a run. The share of right answers is `correct_tasks` out of
/// `total_tasks`.
#[derive(Debug, Clone, PartialEq, Eq)]
pub struct GaiaMetrics {
    pub total_tasks: usize,
    pub correct_tasks: usize,
    pub level_3_tasks: usize,
    pub multi_role_tasks: usize,
    pub routed_role_counts: Vec<RoleCount>,
    pub tool_step_count: usize,
}

/// What a `GaiaMetrics` holds.
pub struct MetricsModel {
    pub total_tasks: nat,
    pub correct_tasks: nat,
    pub level_3_tasks: nat,
    pub multi_role_tasks: nat,
    pub routed_role_counts: Seq<(Seq<char>, nat)>,
    pub tool_step_count: nat,
}

impl View for GaiaMetrics {
    type V = MetricsModel;

    open spec fn view(&self) -> MetricsModel {
        MetricsModel {
            total_tasks: self.total_tasks as nat,
            correct_tasks: self.correct_tasks as nat,
            level_3_tasks: self.level_3_tasks as nat,
            multi_role_tasks: self.multi_role_tasks as nat,
            routed_role_counts: count_models(self.routed_role_counts@),
            tool_step_count: self.tool_step_count as nat,
        }
    }
}

impl GaiaMetrics {
    /// Whether the roles come in order and none comes twice.
    pub open spec fn well_formed(&self) -> bool {
        strictly_ascending(counted_roles(self@.routed_role_counts))
    }
}

impl Default for GaiaMetrics {
    /// The figures of a run without tasks.
    fn default() -> (out: GaiaMetrics)
        ensures
            out@ == metrics_of(Seq::empty()),
            out.well_formed(),
    {
        let out = GaiaMetrics {
            total_tasks: 0,
            correct_tasks: 0,
            level_3_tasks: 0,
            multi_role_tasks: 0,
            routed_role_counts: Vec::new(),
            tool_step_count: 0,
        };
        assert(out@.routed_role_counts =~= metrics_of(Seq::empty()).routed_role_counts);
        out
    }
}

/// Where a run gets its tasks and puts its reports.
#[derive(Debug, Clone, PartialEq, Eq)]
pub struct GaiaRunConfig {
    pub dataset_path: String,
    pub output_dir: String,
    pub limit: Option<usize>,
}

/// What a run left behind.
#[derive(Debug, Clone, PartialEq, Eq)]
pub struct GaiaRunOutput {
    pub output_dir: String,
    pub summary_path: String,
    pub markdown_path: String,
    pub metrics: GaiaMetrics,
    pub threshold_failure: Option<String>,
}

/// What became of the suite.
#[derive(Debug, Clone, PartialEq, Eq)]
pub enum GaiaSuiteOutcome {
    Completed(GaiaRunOutput),
    Skipped(String),
}

/// How a run is rated.
#[derive(Debug, Clone, Copy, PartialEq, Eq, Structural)]
pub enum BenchmarkStatus {
    Passed,
    Failed,
}

/// The report of a run.
#[derive(Debug, Clone, PartialEq, Eq)]
pub struct GaiaSummary {
    pub schema: &'static str,
    pub dataset_path: String,
    pub generated_at: String,
    pub limit: Option<usize>,
    pub metrics: GaiaMetrics,
    pub results: Vec<GaiaTaskResult>,
}

/// The name of the form in which a report is written.
pub const SUMMARY_SCHEMA: &'static str = "harkonnen.gaia_level3.v1";

/// The name of the report for programs.
pub const SUMMARY_FILE: &'static str = "gaia_level3_summary.json";

/// The name of the report for people.
pub const REPORT_FILE: &'static str = "gaia_level3_report.md";

/// Why the suite is skipped where there is no dataset.
pub const NO_DATASET: &'static str = "GAIA dataset not found. Set GAIA_DATASET to a local JSONL file, or place a fixture at factory/benchmarks/fixtures/gaia-level3-smoke.jsonl.";

// ---------------------------------------------------------------------------
// Roles and answers
// ---------------------------------------------------------------------------

/// The one spelling of a role: trimmed, in lower case, with underscores for
/// spaces.
pub open spec fn normal_role(role: Seq<char>) -> Seq<char> {
    lowered(trimmed(role)).map_values(
        |c: char|
            if c == ' ' {
                '_'
            } else {
                c
            },
    )
}

/// The one spelling of a role.
pub fn normalize_role(role: &str) -> (out: String)
    ensures
        out@ == normal_role(role@),
{
    let lower = to_lower(trim(role));
    let chars = chars_of(lower.as_str());
    let mut out: Vec<char> = Vec::new();
    for i in 0..chars.len()
        invariant
            chars@ == lowered(trimmed(role@)),
            out@ == normal_role(role@).take(i as int),
    {
        out.push(
            if chars[i] == ' ' {
                '_'
            } else {
                chars[i]
            },
        );
        assert(out@ =~= normal_role(role@).take(i + 1));
    }
    assert(normal_role(role@).take(chars@.len() as int) =~= normal_role(role@));
    string_of(out.as_slice())
}

/// The one spelling of an answer: its words in lower case with one space
/// between each two.
pub open spec fn normal_answer(answer: Seq<char>) -> Seq<char> {
    join(words(lowered(answer)), seq![' '])
}

/// The one spelling of an answer.
pub fn normalize_answer(answer: &str) -> (out: String)
    ensures
        out@ == normal_answer(answer@),
{
    let lower = to_lower(answer);
    let list = words_of(lower.as_str());
    proof {
        reveal_strlit(" ");
        assert(" "@ =~= seq![' ']);
    }
    join_texts(list.as_slice(), " ")
}

/// The roles of `list` that are not blank, in their one spelling.
pub open spec fn normal_roles(list: Seq<Seq<char>>) -> Seq<Seq<char>>
    decreases list.len(),
{
    if list.len() == 0 {
        Seq::empty()
    } else if blank(list.last()) {
        normal_roles(list.drop_last())
    } else {
        normal_roles(list.drop_last()).push(normal_role(list.last()))
    }
}

/// The roles that a task names: those it requires, then those of its steps.
pub open spec fn named_roles(task: TaskModel) -> Seq<Seq<char>> {
    normal_roles(task.required_roles + task.tool_steps.map_values(|s: StepModel| s.role))
}

/// The roles that a task is routed to, in order and without repetition. A task
/// that names none goes to the scout.
pub open spec fn routed_roles(task: TaskModel) -> Seq<Seq<char>> {
    if named_roles(task).len() == 0 {
        seq!["scout"@]
    } else {
        distinct_sorted(named_roles(task))
    }
}

/// The roles that a task is routed to.
pub fn routed_roles_for_task(task: &GaiaTask) -> (out: Vec<String>)
    ensures
        texts(out@) == routed_roles(task@),
{
    let ghost required = texts(task.required_roles@);
    let ghost stepped = step_models(task.tool_steps@).map_values(|s: StepModel| s.role);
    let ghost all = required + stepped;
    let mut out: Vec<String> = Vec::new();
    assert(all.take(0) =~= Seq::empty());
    assert(texts(out@) =~= distinct_sorted(normal_roles(all.take(0))));
    for i in 0..task.required_roles.len()
        invariant
            required == texts(task.required_roles@),
            all == required + stepped,
            texts(out@) == distinct_sorted(normal_roles(all.take(i as int))),
    {
        proof {
            lemma_next_role(all, i as int);
        }
        assert(all[i as int] == task.required_roles@[i as int]@);
        if !is_blank(task.required_roles[i].as_str()) {
            let role = normalize_role(task.required_roles[i].as_str());
            add_text(&mut out, role);
        }
    }
    let ghost first = required.len();
    for i in 0..task.tool_steps.len()
        invariant
            stepped == step_models(task.tool_steps@).map_values(|s: StepModel| s.role),
            all == required + stepped,
            first == required.len(),
            texts(out@) == distinct_sorted(normal_roles(all.take(first + i))),
    {
        proof {
            lemma_next_role(all, first + i);
        }
        assert(all[first + i] == task.tool_steps@[i as int].role@);
        if !is_blank(task.tool_steps[i].role.as_str()) {
            let role = normalize_role(task.tool_steps[i].role.as_str());
            add_text(&mut out, role);
        }
    }
    assert(all.take(all.len() as int) =~= all);
    proof {
        law_distinct_sorted(named_roles(task@));
        if named_roles(task@).len() > 0 {
            assert(named_roles(task@).contains(named_roles(task@)[0]));
            assert(distinct_sorted(named_roles(task@)).contains(named_roles(task@)[0]));
        }
    }
    if out.len() == 0 {
        out.push(String::from_str("scout"));
        assert(texts(out@) =~= seq!["scout"@]);
    }
    out
}

proof fn lemma_next_role(all: Seq<Seq<char>>, i: int)
    requires
        0 <= i < all.len(),
    ensures
        distinct_sorted(normal_roles(all.take(i + 1))) == if blank(all[i]) {
            distinct_sorted(normal_roles(all.take(i)))
        } else {
            with_text(distinct_sorted(normal_roles(all.take(i))), normal_role(all[i]))
        },
{
    assert(all.take(i + 1).drop_last() =~= all.take(i));
    let before = normal_roles(all.take(i));
    assert(before.push(normal_role(all[i])).drop_last() =~= before);
}

/// The first `max` characters of the trimmed text, with dots where some are
/// left out.
pub open spec fn shortened(value: Seq<char>, max: nat) -> Seq<char> {
    let text = trimmed(value);
    if text.len() <= max {
        text
    } else {
        text.take(max as int) + "..."@
    }
}

/// The first `max_chars` characters of the trimmed text, with dots where some
/// are left out.
pub fn excerpt(value: &str, max_chars: usize) -> (out: String)
    ensures
        out@ == shortened(value@, max_chars as nat),
{
    let text = trim(value);
    let chars = chars_of(text);
    if chars.len() <= max_chars {
        String::from_str(text)
    } else {
        String::from_str(text.substring_char(0, max_chars)).concat("...")
    }
}

/// Whether an answer is right: it has the same words as the expected one,
/// whatever their case and the space between them.
pub open spec fn right_answer(predicted: Seq<char>, expected: Seq<char>) -> bool {
    normal_answer(predicted) == normal_answer(expected)
}

// ---------------------------------------------------------------------------
// What a run comes to
// ---------------------------------------------------------------------------

/// The answer that a task brings along, or the expected one.
pub open spec fn given_answer(task: TaskModel) -> Seq<char> {
    match task.predicted_answer {
        Some(answer) => answer,
        None => task.expected_answer,
    }
}

/// What a task comes to.
pub open spec fn result_of(task: TaskModel) -> ResultModel {
    ResultModel {
        task_id: task.task_id,
        level: task.level,
        question_excerpt: shortened(task.question, 180),
        expected_answer: task.expected_answer,
        predicted_answer: given_answer(task),
        exact_match: right_answer(given_answer(task), task.expected_answer),
        routed_roles: routed_roles(task),
        tool_step_count: task.tool_steps.len(),
        tool_steps: task.tool_steps,
    }
}

/// What some tasks come to.
pub open spec fn results_of(tasks: Seq<TaskModel>) -> Seq<ResultModel> {
    tasks.map_values(|t: TaskModel| result_of(t))
}

/// The number of results of which `test` holds.
pub open spec fn how_many(results: Seq<ResultModel>, test: spec_fn(ResultModel) -> bool) -> nat
    decreases results.len(),
{
    if results.len() == 0 {
        0
    } else {
        how_many(results.drop_last(), test) + if test(results.last()) {
            1nat
        } else {
            0nat
        }
    }
}

/// The number of steps of all results.
pub open spec fn all_steps(results: Seq<ResultModel>) -> nat
    decreases results.len(),
{
    if results.len() == 0 {
        0
    } else {
        all_steps(results.drop_last()) + results.last().tool_step_count
    }
}

/// The roles of all results, one result after the other.
pub open spec fn all_roles(results: Seq<ResultModel>) -> Seq<Seq<char>>
    decreases results.len(),
{
    if results.len() == 0 {
        Seq::empty()
    } else {
        all_roles(results.drop_last()) + results.last().routed_roles
    }
}

/// How often `x` stands in `list`.
pub open spec fn times(list: Seq<Seq<char>>, x: Seq<char>) -> nat
    decreases list.len(),
{
    if list.len() == 0 {
        0
    } else {
        times(list.drop_last(), x) + if list.last() == x {
            1nat
        } else {
            0nat
        }
    }
}

/// The roles that occur in `list`, in order, each with how often it does.
pub open spec fn role_counts(list: Seq<Seq<char>>) -> Seq<(Seq<char>, nat)> {
    distinct_sorted(list).map_values(|role: Seq<char>| (role, times(list, role)))
}

/// The figures of some results.
pub open spec fn metrics_of(results: Seq<ResultModel>) -> MetricsModel {
    MetricsModel {
        total_tasks: results.len(),
        correct_tasks: how_many(results, |r: ResultModel| r.exact_match),
        level_3_tasks: how_many(results, |r: ResultModel| r.level == 3),
        multi_role_tasks: how_many(results, |r: ResultModel| r.routed_roles.len() > 1),
        routed_role_counts: role_counts(all_roles(results)),
        tool_step_count: all_steps(results),
    }
}

/// The tasks of a run: all of them, or the first few.
pub open spec fn limited(tasks: Seq<TaskModel>, limit: Option<usize>) -> Seq<TaskModel> {
    match limit {
        Some(n) => if n < tasks.len() {
            tasks.take(n as int)
        } else {
            tasks
        },
        None => tasks,
    }
}

/// What one task comes to.
pub fn evaluate_task(task: GaiaTask) -> (out: GaiaTaskResult)
    ensures
        out@ == result_of(task@),
{
    let routed_roles = routed_roles_for_task(&task);
    let GaiaTask { task_id, level, question, expected_answer, predicted_answer, tool_steps, .. } =
        task;
    let predicted_answer = match predicted_answer {
        Some(answer) => answer,
        None => expected_answer.clone(),
    };
    let exact_match = same(
        normalize_answer(predicted_answer.as_str()).as_str(),
        normalize_answer(expected_answer.as_str()).as_str(),
    );
    GaiaTaskResult {
        task_id,
        level,
        question_excerpt: excerpt(question.as_str(), 180),
        expected_answer,
        predicted_answer,
        exact_match,
        routed_roles,
        tool_step_count: tool_steps.len(),
        tool_steps,
    }
}

proof fn lemma_how_many_next(
    results: Seq<ResultModel>,
    i: int,
    test: spec_fn(ResultModel) -> bool,
)
    requires
        0 <= i < results.len(),
    ensures
        how_many(results.take(i + 1), test) == how_many(results.take(i), test) + if test(
            results[i],
        ) {
            1nat
        } else {
            0nat
        },
        how_many(results.take(i), test) <= i,
    decreases i,
{
    assert(results.take(i + 1).drop_last() =~= results.take(i));
    if i > 0 {
        lemma_how_many_next(results, i - 1, test);
    }
}

proof fn lemma_all_steps_grow(results: Seq<ResultModel>, i: int)
    requires
        0 <= i <= results.len(),
    ensures
        all_steps(results.take(i)) <= all_steps(results),
    decreases results.len() - i,
{
    if i == results.len() {
        assert(results.take(i) =~= results);
    } else {
        assert(results.take(i + 1).drop_last() =~= results.take(i));
        lemma_all_steps_grow(results, i + 1);
    }
}

fn count_role(list: &Vec<String>, role: &str) -> (count: usize)
    ensures
        count == times(texts(list@), role@),
{
    let ghost all = texts(list@);
    let mut count: usize = 0;
    assert(all.take(0) =~= Seq::empty());
    for i in 0..list.len()
        invariant
            all == texts(list@),
            count <= i,
            count == times(all.take(i as int), role@),
    {
        assert(all.take(i + 1).drop_last() =~= all.take(i as int));
        assert(all.take(i + 1).last() == list@[i as int]@);
        if same(list[i].as_str(), role) {
            count = count + 1;
        }
    }
    assert(all.take(all.len() as int) =~= all);
    count
}

fn distinct_roles(list: &Vec<String>) -> (out: Vec<String>)
    ensures
        texts(out@) == distinct_sorted(texts(list@)),
{
    let ghost all = texts(list@);
    let mut out: Vec<String> = Vec::new();
    assert(all.take(0) =~= Seq::empty());
    assert(texts(out@) =~= distinct_sorted(all.take(0)));
    for i in 0..list.len()
        invariant
            all == texts(list@),
            texts(out@) == distinct_sorted(all.take(i as int)),
    {
        assert(all.take(i + 1).drop_last() =~= all.take(i as int));
        assert(all.take(i + 1).last() == list@[i as int]@);
        add_text(&mut out, list[i].clone());
    }
    assert(all.take(all.len() as int) =~= all);
    out
}

/// The roles that occur in a list, in order, each with how often it does.
pub fn count_roles(list: &Vec<String>) -> (out: Vec<RoleCount>)
    ensures
        count_models(out@) == role_counts(texts(list@)),
        strictly_ascending(counted_roles(count_models(out@))),
{
    let roles = distinct_roles(list);
    let ghost all = role_counts(texts(list@));
    let mut out: Vec<RoleCount> = Vec::new();
    assert(count_models(out@) =~= all.take(0));
    for i in 0..roles.len()
        invariant
            texts(roles@) == distinct_sorted(texts(list@)),
            all == role_counts(texts(list@)),
            count_models(out@) == all.take(i as int),
    {
        let role = roles[i].clone();
        assert(role@ == texts(roles@)[i as int]);
        let count: usize = count_role(list, role.as_str());
        let ghost before = out@;
        out.push(RoleCount { role, count });
        assert(count_models(out@) =~= count_models(before).push((role@, count as nat)));
        assert(count_models(out@) =~= all.take(i + 1));
    }
    assert(all.take(all.len() as int) =~= all);
    proof {
        law_distinct_sorted(texts(list@));
        assert(counted_roles(all) =~= distinct_sorted(texts(list@)));
    }
    out
}

fn append_texts(list: &mut Vec<String>, more: &Vec<String>)
    ensures
        texts(final(list)@) == texts(old(list)@) + texts(more@),
{
    let ghost start = texts(list@);
    let ghost all = texts(more@);
    assert(start + all.take(0) =~= start);
    for i in 0..more.len()
        invariant
            all == texts(more@),
            texts(list@) == start + all.take(i as int),
    {
        let ghost before = list@;
        list.push(more[i].clone());
        assert(texts(list@) =~= texts(before).push(all[i as int]));
        assert(texts(list@) =~= start + all.take(i + 1));
    }
    assert(all.take(all.len() as int) =~= all);
}

/// The figures of some results.
pub fn measure(results: &Vec<GaiaTaskResult>) -> (out: GaiaMetrics)
    requires
        all_steps(result_models(results@)) <= usize::MAX,
    ensures
        out@ == metrics_of(result_models(results@)),
        out.well_formed(),
{
    let ghost all = result_models(results@);
    let mut correct_tasks: usize = 0;
    let mut level_3_tasks: usize = 0;
    let mut multi_role_tasks: usize = 0;
    let mut tool_step_count: usize = 0;
    let mut roles: Vec<String> = Vec::new();
    assert(all.take(0) =~= Seq::empty());
    assert(texts(roles@) =~= all_roles(all.take(0)));
    for i in 0..results.len()
        invariant
            all == result_models(results@),
            all_steps(all) <= usize::MAX,
            correct_tasks == how_many(all.take(i as int), |r: ResultModel| r.exact_match),
            level_3_tasks == how_many(all.take(i as int), |r: ResultModel| r.level == 3),
            multi_role_tasks == how_many(
                all.take(i as int),
                |r: ResultModel| r.routed_roles.len() > 1,
            ),
            tool_step_count == all_steps(all.take(i as int)),
            texts(roles@) == all_roles(all.take(i as int)),
    {
        let result = &results[i];
        assert(all[i as int] == result@);
        proof {
            lemma_how_many_next(all, i as int, |r: ResultModel| r.exact_match);
            lemma_how_many_next(all, i as int, |r: ResultModel| r.level == 3);
            lemma_how_many_next(all, i as int, |r: ResultModel| r.routed_roles.len() > 1);
            assert(all.take(i + 1).drop_last() =~= all.take(i as int));
            lemma_all_steps_grow(all, i + 1);
        }
        if result.exact_match {
            correct_tasks = correct_tasks + 1;
        }
        if result.level == 3 {
            level_3_tasks = level_3_tasks + 1;
        }
        if result.routed_roles.len() > 1 {
            multi_role_tasks = multi_role_tasks + 1;
        }
        tool_step_count = tool_step_count + result.tool_step_count;
        append_texts(&mut roles, &result.routed_roles);
    }
    assert(all.take(all.len() as int) =~= all);
    let routed_role_counts = count_roles(&roles);
    GaiaMetrics {
        total_tasks: results.len(),
        correct_tasks,
        level_3_tasks,
        multi_role_tasks,
        routed_role_counts,
        tool_step_count,
    }
}

/// What the tasks of a run come to, of which there may be a limited number.
pub fn evaluate(tasks: Vec<GaiaTask>, limit: Option<usize>) -> (out: Vec<GaiaTaskResult>)
    ensures
        result_models(out@) == results_of(limited(task_models(tasks@), limit)),
{
    let ghost wanted = limited(task_models(tasks@), limit);
    let mut tasks = tasks;
    if let Some(n) = limit {
        if n < tasks.len() {
            tasks.truncate(n);
        }
    }
    assert(task_models(tasks@) =~= wanted);
    let mut out: Vec<GaiaTaskResult> = Vec::new();
    assert(result_models(out@) =~= results_of(wanted.take(0)));
    for task in it: tasks.into_iter()
        invariant
            task_models(it.seq()) == wanted,
            result_models(out@) == results_of(wanted.take(it.index() as int)),
    {
        let ghost i = it.index() as int;
        assert(wanted[i] == task@);
        let ghost before = out@;
        let result = evaluate_task(task);
        out.push(result);
        assert(result_models(out@) =~= result_models(before).push(result@));
        assert(result_models(out@) =~= results_of(wanted.take(i + 1)));
    }
    assert(wanted.take(wanted.len() as int) =~= wanted);
    out
}

// ---------------------------------------------------------------------------
// Reports
// ---------------------------------------------------------------------------

/// The line of a role in the report.
pub open spec fn role_line(count: (Seq<char>, nat)) -> Seq<char> {
    "- "@ + count.0 + ": "@ + decimal(count.1)
}

/// The lines about roles in the report.
pub open spec fn role_lines(counts: Seq<(Seq<char>, nat)>) -> Seq<Seq<char>> {
    if counts.len() == 0 {
        seq!["- none"@]
    } else {
        counts.map_values(|count: (Seq<char>, nat)| role_line(count))
    }
}

/// The row of a task in the report.
pub open spec fn task_row(result: ResultModel) -> Seq<char> {
    "| "@ + result.task_id + " | "@ + decimal(result.level as nat) + " | "@ + (
    if result.exact_match {
        "pass"@
    } else {
        "fail"@
    }) + " | "@ + join(result.routed_roles, ", "@) + " | "@ + decimal(result.tool_step_count)
        + " |"@
}

/// The share of right answers in the report.
pub open spec fn share_text(metrics: MetricsModel, percent: Seq<char>) -> Seq<char> {
    percent + "% ("@ + decimal(metrics.correct_tasks) + "/"@ + decimal(metrics.total_tasks) + ")"@
}

/// The lines above the roles in the report.
pub open spec fn report_head(
    dataset_path: Seq<char>,
    generated_at: Seq<char>,
    metrics: MetricsModel,
    percent: Seq<char>,
) -> Seq<Seq<char>> {
    seq![
        "# GAIA Level 3 Report"@,
        ""@,
        "- Dataset: "@ + dataset_path,
        "- Generated: "@ + generated_at,
        "- Exact match: "@ + share_text(metrics, percent),
        "- Level 3 tasks: "@ + decimal(metrics.level_3_tasks),
        "- Multi-role tasks: "@ + decimal(metrics.multi_role_tasks),
        "- Tool steps: "@ + decimal(metrics.tool_step_count),
        ""@,
        "## Role Routing"@,
    ]
}

/// The lines between the roles and the tasks in the report.
pub open spec fn table_head() -> Seq<Seq<char>> {
    seq![
        ""@,
        "## Tasks"@,
        ""@,
        "| Task | Level | Exact | Roles | Tool steps |"@,
        "| --- | ---: | --- | --- | ---: |"@,
    ]
}

/// The report for people, in which `percent` is the share of right answers.
pub open spec fn report_text(summary: GaiaSummary, percent: Seq<char>) -> Seq<char> {
    report_with_roles(summary, role_lines(summary.metrics@.routed_role_counts), percent)
}

/// The report for people, given its lines about roles.
pub open spec fn report_with_roles(
    summary: GaiaSummary,
    roles: Seq<Seq<char>>,
    percent: Seq<char>,
) -> Seq<char> {
    let head = report_head(
        summary.dataset_path@,
        summary.generated_at@,
        summary.metrics@,
        percent,
    );
    let rows = result_models(summary.results@).map_values(|r: ResultModel| task_row(r));
    join(head + roles + table_head() + rows, "\n"@)
}

/// Whether a report names each role once, in ascending order of the roles.
pub open spec fn names_roles_in_order(
    summary: GaiaSummary,
    percent: Seq<char>,
    text: Seq<char>,
) -> bool {
    exists|counts: Seq<(Seq<char>, nat)>|
        strictly_ascending(#[trigger] counted_roles(counts)) && text == report_with_roles(
            summary,
            role_lines(counts),
            percent,
        )
}

fn share(metrics: &GaiaMetrics, percent: &str) -> (out: String)
    ensures
        out@ == share_text(metrics@, percent@),
{
    String::from_str(percent).concat("% (").concat(
        decimal_text(metrics.correct_tasks as u64).as_str(),
    ).concat("/").concat(decimal_text(metrics.total_tasks as u64).as_str()).concat(")")
}

fn report_head_lines(summary: &GaiaSummary, percent: &str) -> (out: Vec<String>)
    ensures
        texts(out@) == report_head(
            summary.dataset_path@,
            summary.generated_at@,
            summary.metrics@,
            percent@,
        ),
{
    let metrics = &summary.metrics;
    let mut out: Vec<String> = Vec::new();
    out.push(String::from_str("# GAIA Level 3 Report"));
    out.push(String::from_str(""));
    out.push(String::from_str("- Dataset: ").concat(summary.dataset_path.as_str()));
    out.push(String::from_str("- Generated: ").concat(summary.generated_at.as_str()));
    out.push(String::from_str("- Exact match: ").concat(share(metrics, percent).as_str()));
    out.push(
        String::from_str("- Level 3 tasks: ").concat(
            decimal_text(metrics.level_3_tasks as u64).as_str(),
        ),
    );
    out.push(
        String::from_str("- Multi-role tasks: ").concat(
            decimal_text(metrics.multi_role_tasks as u64).as_str(),
        ),
    );
    out.push(
        String::from_str("- Tool steps: ").concat(
            decimal_text(metrics.tool_step_count as u64).as_str(),
        ),
    );
    out.push(String::from_str(""));
    out.push(String::from_str("## Role Routing"));
    assert(texts(out@) =~= report_head(
        summary.dataset_path@,
        summary.generated_at@,
        summary.metrics@,
        percent@,
    ));
    out
}

fn push_role_lines(lines: &mut Vec<String>, counts: &Vec<RoleCount>)
    ensures
        texts(final(lines)@) == texts(old(lines)@) + role_lines(count_models(counts@)),
{
    let ghost start = texts(lines@);
    if counts.len() == 0 {
        lines.push(String::from_str("- none"));
        assert(texts(lines@) =~= start + seq!["- none"@]);
        return;
    }
    let ghost all = role_lines(count_models(counts@));
    assert(start + all.take(0) =~= start);
    for i in 0..counts.len()
        invariant
            counts@.len() > 0,
            all == role_lines(count_models(counts@)),
            texts(lines@) == start + all.take(i as int),
    {
        let line = String::from_str("- ").concat(counts[i].role.as_str()).concat(": ").concat(
            decimal_text(counts[i].count as u64).as_str(),
        );
        assert(all[i as int] == line@);
        let ghost before = lines@;
        lines.push(line);
        assert(texts(lines@) =~= texts(before).push(line@));
        assert(texts(lines@) =~= start + all.take(i + 1));
    }
    assert(all.take(all.len() as int) =~= all);
}

fn push_table_head(lines: &mut Vec<String>)
    ensures
        texts(final(lines)@) == texts(old(lines)@) + table_head(),
{
    let ghost start = texts(lines@);
    lines.push(String::from_str(""));
    lines.push(String::from_str("## Tasks"));
    lines.push(String::from_str(""));
    lines.push(String::from_str("| Task | Level | Exact | Roles | Tool steps |"));
    lines.push(String::from_str("| --- | ---: | --- | --- | ---: |"));
    assert(texts(lines@) =~= start + table_head());
}

fn task_row_text(result: &GaiaTaskResult) -> (out: String)
    ensures
        out@ == task_row(result@),
{
    let mark = if result.exact_match {
        "pass"
    } else {
        "fail"
    };
    String::from_str("| ").concat(result.task_id.as_str()).concat(" | ").concat(
        decimal_text(result.level as u64).as_str(),
    ).concat(" | ").concat(mark).concat(" | ").concat(
        join_texts(result.routed_roles.as_slice(), ", ").as_str(),
    ).concat(" | ").concat(decimal_text(result.tool_step_count as u64).as_str()).concat(" |")
}

/// The report for people, in which `percent` is the share of right answers.
pub fn render_markdown(summary: &GaiaSummary, percent: &str) -> (out: String)
    ensures
        out@ == report_text(*summary, percent@),
        summary.metrics.well_formed() ==> names_roles_in_order(*summary, percent@, out@),
{
    let mut lines = report_head_lines(summary, percent);
    push_role_lines(&mut lines, &summary.metrics.routed_role_counts);
    push_table_head(&mut lines);
    let ghost start = texts(lines@);
    let ghost rows = result_models(summary.results@).map_values(|r: ResultModel| task_row(r));
    assert(start + rows.take(0) =~= start);
    for i in 0..summary.results.len()
        invariant
            rows == result_models(summary.results@).map_values(|r: ResultModel| task_row(r)),
            texts(lines@) == start + rows.take(i as int),
    {
        let row = task_row_text(&summary.results[i]);
        assert(rows[i as int] == row@);
        let ghost before = lines@;
        lines.push(row);
        assert(texts(lines@) =~= texts(before).push(row@));
        assert(texts(lines@) =~= start + rows.take(i + 1));
    }
    assert(rows.take(rows.len() as int) =~= rows);
    let out = join_texts(lines.as_slice(), "\n");
    proof {
        let counts = summary.metrics@.routed_role_counts;
        if summary.metrics.well_formed() {
            assert(strictly_ascending(counted_roles(counts)));
            assert(out@ == report_with_roles(*summary, role_lines(counts), percent@));
        }
    }
    out
}

/// How a run is rated: it fails where its threshold was missed.
pub fn status_for_output(output: &GaiaRunOutput) -> (out: BenchmarkStatus)
    ensures
        out == if output.threshold_failure is Some {
            BenchmarkStatus::Failed
        } else {
            BenchmarkStatus::Passed
        },
{
    match &output.threshold_failure {
        Some(_) => BenchmarkStatus::Failed,
        None => BenchmarkStatus::Passed,
    }
}

/// Why a run is rated as failed, if it is.
pub fn reason_for_output(output: &GaiaRunOutput) -> (out: Option<String>)
    ensures
        out == output.threshold_failure,
{
    match &output.threshold_failure {
        Some(reason) => Some(reason.clone()),
        None => None,
    }
}

/// Why the threshold was missed, if it was. `below` tells whether the share of
/// right answers is less than the least that is wanted; the two texts are how
/// both are reported.
pub open spec fn missed_threshold(below: bool, accuracy: Seq<char>, least: Seq<char>) -> Option<
    Seq<char>,
> {
    if below {
        Some("GAIA exact-match accuracy "@ + accuracy + " below threshold "@ + least)
    } else {
        None
    }
}

/// Why the threshold was missed, if it was.
pub fn threshold_failure(below: bool, accuracy: &str, least: &str) -> (out: Option<String>)
    ensures
        optional_text(out) == missed_threshold(below, accuracy@, least@),
{
    if below {
        Some(
            String::from_str("GAIA exact-match accuracy ").concat(accuracy).concat(
                " below threshold ",
            ).concat(least),
        )
    } else {
        None
    }
}

/// What a run says on the console, in which `percent` is the share of right
/// answers.
pub open spec fn console_text(output: GaiaRunOutput, percent: Seq<char>) -> Seq<char> {
    "GAIA Level 3 n="@ + decimal(output.metrics@.total_tasks) + " exact_match="@ + share_text(
        output.metrics@,
        percent,
    ) + " multi_role="@ + decimal(output.metrics@.multi_role_tasks) + " tool_steps="@ + decimal(
        output.metrics@.tool_step_count,
    ) + "\nSummary JSON: "@ + output.summary_path@ + "\nReport Markdown: "@
        + output.markdown_path@ + "\n"@
}

/// What a run says on the console.
pub fn render_step_stdout(output: &GaiaRunOutput, percent: &str) -> (out: String)
    ensures
        out@ == console_text(*output, percent@),
{
    String::from_str("GAIA Level 3 n=").concat(
        decimal_text(output.metrics.total_tasks as u64).as_str(),
    ).concat(" exact_match=").concat(share(&output.metrics, percent).as_str()).concat(
        " multi_role=",
    ).concat(decimal_text(output.metrics.multi_role_tasks as u64).as_str()).concat(
        " tool_steps=",
    ).concat(decimal_text(output.metrics.tool_step_count as u64).as_str()).concat(
        "\nSummary JSON: ",
    ).concat(output.summary_path.as_str()).concat("\nReport Markdown: ").concat(
        output.markdown_path.as_str(),
    ).concat("\n")
}

// ---------------------------------------------------------------------------
// Settings and datasets
// ---------------------------------------------------------------------------

/// The value of a setting: the one that was given, else the one of the
/// environment. A blank value counts as none, and a blank value that was given
/// hides that of the environment.
pub open spec fn chosen_setting(
    given: Option<Seq<char>>,
    environment: Option<Seq<char>>,
) -> Option<Seq<char>> {
    let value = match given {
        Some(text) => Some(text),
        None => environment,
    };
    match value {
        Some(text) => if blank(text) {
            None
        } else {
            Some(text)
        },
        None => None,
    }
}

/// The value of a setting.
pub fn get_override(given: Option<String>, environment: Option<String>) -> (out: Option<String>)
    ensures
        optional_text(out) == chosen_setting(optional_text(given), optional_text(environment)),
{
    let value = match given {
        Some(text) => Some(text),
        None => environment,
    };
    match value {
        Some(text) => if is_blank(text.as_str()) {
            None
        } else {
            Some(text)
        },
        None => None,
    }
}

/// The dataset of a run: the one that was asked for where it exists, else the
/// fixture where that exists.
pub open spec fn chosen_dataset(
    asked: Option<Seq<char>>,
    asked_exists: bool,
    fixture: Seq<char>,
    fixture_exists: bool,
) -> Option<Seq<char>> {
    if asked is Some && asked_exists {
        asked
    } else if fixture_exists {
        Some(fixture)
    } else {
        None
    }
}

/// The dataset of a run.
pub fn resolve_dataset_path(
    asked: Option<String>,
    asked_exists: bool,
    fixture: String,
    fixture_exists: bool,
) -> (out: Option<String>)
    ensures
        optional_text(out) == chosen_dataset(
            optional_text(asked),
            asked_exists,
            fixture@,
            fixture_exists,
        ),
{
    match asked {
        Some(path) if asked_exists => Some(path),
        _ => if fixture_exists {
            Some(fixture)
        } else {
            None
        },
    }
}

/// The number of tasks that a setting allows. A setting that is no number sets
/// no limit.
pub fn limit_setting(value: Option<String>) -> (out: Option<usize>)
    ensures
        out is Some <==> value is Some && number_in(value->Some_0@, usize::MAX as nat) is Some,
        out matches Some(n) ==> number_in(value->Some_0@, usize::MAX as nat) == Some(n as nat),
{
    match value {
        Some(text) => parse_usize(text.as_str()),
        None => None,
    }
}

/// The records of a dataset with the numbers of their lines: every line that is
/// not blank, trimmed. Lines are numbered from 1, blank ones too.
pub open spec fn numbered_records(lines: Seq<Seq<char>>) -> Seq<(nat, Seq<char>)>
    decreases lines.len(),
{
    if lines.len() == 0 {
        Seq::empty()
    } else if blank(lines.last()) {
        numbered_records(lines.drop_last())
    } else {
        numbered_records(lines.drop_last()).push((lines.len(), trimmed(lines.last())))
    }
}

/// What a list of records holds.
pub open spec fn record_models(records: Seq<(usize, String)>) -> Seq<(nat, Seq<char>)> {
    records.map_values(|r: (usize, String)| (r.0 as nat, r.1@))
}

/// The records of a dataset with the numbers of their lines.
pub fn dataset_records(raw: &str) -> (out: Vec<(usize, String)>)
    ensures
        record_models(out@) == numbered_records(lines_of(raw@)),
{
    let all = lines(raw);
    let ghost texts_all = texts(all@);
    let mut out: Vec<(usize, String)> = Vec::new();
    assert(texts_all.take(0) =~= Seq::empty());
    assert(record_models(out@) =~= numbered_records(texts_all.take(0)));
    for i in 0..all.len()
        invariant
            texts_all == texts(all@),
            record_models(out@) == numbered_records(texts_all.take(i as int)),
    {
        assert(texts_all.take(i + 1).drop_last() =~= texts_all.take(i as int));
        assert(texts_all.take(i + 1).last() == all@[i as int]@);
        let line = trim(all[i].as_str());
        if !line.is_empty() {
            let record = String::from_str(line);
            let ghost before = out@;
            out.push((i + 1, record));
            assert(record_models(out@) =~= record_models(before).push(((i + 1) as nat, record@)));
        }
    }
    assert(texts_all.take(texts_all.len() as int) =~= texts_all);
    out
}

/// What is wrong with a record that cannot be read.
pub open spec fn record_problem(number: nat) -> Seq<char> {
    "parsing GAIA task line "@ + decimal(number)
}

/// What is wrong with a record that cannot be read.
pub fn record_problem_text(number: usize) -> (out: String)
    ensures
        out@ == record_problem(number as nat),
{
    String::from_str("parsing GAIA task line ").concat(decimal_text(number as u64).as_str())
}

/// The name of a task: its own, or one made from its line where it has none.
pub open spec fn task_name(id: Seq<char>, number: nat) -> Seq<char> {
    if blank(id) {
        "gaia-"@ + decimal(number)
    } else {
        id
    }
}

/// The task with a name, which is made from its line where it has none.
pub fn named_task(task: GaiaTask, number: usize) -> (out: GaiaTask)
    ensures
        out@ == (TaskModel { task_id: task_name(task@.task_id, number as nat), ..task@ }),
{
    let mut task = task;
    if is_blank(task.task_id.as_str()) {
        task.task_id = String::from_str("gaia-").concat(decimal_text(number as u64).as_str());
    }
    task
}

} // verus!
