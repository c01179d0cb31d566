//! What the calls of the library hand back, in terms of what they were given.

use vstd::prelude::*;

use crate::causal_graph::{
    check_address, choose_store, connect_next, connected_answer, schema_is_present,
    wants_connection, CausalGraphBackend, CausalGraphConfig, CausalGraphProjectionRecord,
    CausalGraphQuery, CausalGraphQueryResult, CausalGraphStatus, ConnectOutcome, ConnectStage,
    Moment, NoopCausalGraphStore, ProbeOutcome, StageOutcome, StoreChoice,
};
use crate::db::{
    agent_contract_hash, agent_state_from_row, causal_graph_backend_label, contract_file_name,
    count_causal_graph_projections, get_agent_state, get_causal_graph_projection, hex,
    list_agent_state, list_causal_graph_projection_summaries,
    list_causal_graph_projections_for_spec, list_recent_causal_graph_projections,
    projection_record, record_agent_stop_reason, AgentState, AgentStateRow, RunCausalGraph,
    SqlValue, Statement,
};
use crate::gaia::{
    evaluate, evaluate_task, excerpt, get_override, how_many, limit_setting, measure, named_task,
    normalize_answer, reason_for_output, resolve_dataset_path, result_models, result_of,
    status_for_output, threshold_failure, BenchmarkStatus, GaiaMetrics, GaiaRunOutput, GaiaTask,
    GaiaTaskResult, ResultModel,
};
use crate::lines::join;
use crate::mason_guard::{
    looks_like_json_edit_proposal, read_refusal, refused_read, unreadable_write,
    unreadable_write_marker,
};
use crate::mason_tools::{
    parse_tool_call, parse_tool_calls, render_tool_result, tool_calls, MasonTool, ToolError,
    ToolFaultModel, ToolModel,
};
use crate::mason_transport::{
    apply_patch_block, fenced_files, parse_fenced_edits, parse_patch_blocks,
    parse_summary_and_rationale, patch_blocks, patched, summary_and_rationale, FencedEnvelope,
    PatchBlock, PatchModel, TransportError,
};
use crate::numeral::{decimal, number_in};
use crate::outside::{address_problem, json_pairs, sha256};
use crate::pairs::pair_texts;
use crate::report_laws::{law_result_of_task, law_setting};
use crate::schema::{lacks_column, schema_plan, schema_steps, table_info_sql, SchemaStep};
use crate::search::occurs;
use crate::text::{lowered, optional_text, texts, trimmed};
use crate::text_laws::all_space;
use crate::tool_loop::{Message, Role};
use crate::words::words;
use crate::workspace::{
    absolute, climbs, file_name, join_workspace_relative_path, last_name, normal_path,
    normalize_project_path, path_parts,
};

verus! {

// ---------------------------------------------------------------------------
// The benchmark
// ---------------------------------------------------------------------------

/// A task comes to a result that keeps what the task says. It is right where the
/// task brings no answer along, or one with the words of the expected answer in
/// any case.
pub proof fn law_evaluate_task(task: GaiaTask, out: GaiaTaskResult)
    requires
        call_ensures(evaluate_task, (task,), out),
    ensures
        out.task_id@ == task.task_id@,
        out.level == task.level,
        out.expected_answer@ == task.expected_answer@,
        out.tool_step_count == task.tool_steps@.len(),
        trimmed(task.question@).len() <= 180 ==> out.question_excerpt@ == trimmed(task.question@),
        trimmed(task.question@).len() > 180 ==> out.question_excerpt@ == trimmed(
            task.question@,
        ).take(180) + "..."@,
        task.predicted_answer matches Some(answer) ==> out.predicted_answer@ == answer@ && (
        out.exact_match <==> words(lowered(answer@)) == words(lowered(task.expected_answer@))),
        task.predicted_answer is None ==> out.predicted_answer@ == task.expected_answer@
            && out.exact_match,
{
    law_result_of_task(task@);
}

/// Every task up to the limit comes to its result, in order.
pub proof fn law_evaluate(
    tasks: Vec<GaiaTask>,
    limit: Option<usize>,
    out: Vec<GaiaTaskResult>,
    i: int,
)
    requires
        call_ensures(evaluate, (tasks, limit), out),
    ensures
        out@.len() <= tasks@.len(),
        limit is None ==> out@.len() == tasks@.len(),
        limit matches Some(n) ==> out@.len() == if n < tasks@.len() {
            n as nat
        } else {
            tasks@.len()
        },
        0 <= i < out@.len() ==> out@[i]@ == result_of(tasks@[i]@),
{
    let models = result_models(out@);
    if 0 <= i < out@.len() {
        assert(models[i] == out@[i]@);
    }
    assert(models.len() == out@.len());
}

/// The figures count the results, those that are right, those of the third level
/// and those with more than one role.
pub proof fn law_measure(results: Vec<GaiaTaskResult>, out: GaiaMetrics)
    requires
        call_ensures(measure, (&results,), out),
    ensures
        out.total_tasks == results@.len(),
        out.correct_tasks == how_many(result_models(results@), |r: ResultModel| r.exact_match),
        out.level_3_tasks == how_many(result_models(results@), |r: ResultModel| r.level == 3),
        out.multi_role_tasks == how_many(
            result_models(results@),
            |r: ResultModel| r.routed_roles.len() > 1,
        ),
{
}

/// An answer is brought to its words in lower case, with one space between each
/// two; an excerpt is the trimmed text, or the front of it with three dots.
pub proof fn law_spellings(answer: &str, spelling: String, max: usize, short: String)
    requires
        call_ensures(normalize_answer, (answer,), spelling),
        call_ensures(excerpt, (answer, max), short),
    ensures
        spelling@ == join(words(lowered(answer@)), seq![' ']),
        short@ == if trimmed(answer@).len() <= max {
            trimmed(answer@)
        } else {
            trimmed(answer@).take(max as int) + "..."@
        },
{
}

/// A run fails where its threshold was missed, and for that reason.
pub proof fn law_rating(output: GaiaRunOutput, status: BenchmarkStatus, reason: Option<String>)
    requires
        call_ensures(status_for_output, (&output,), status),
        call_ensures(reason_for_output, (&output,), reason),
    ensures
        output.threshold_failure is Some <==> status == BenchmarkStatus::Failed,
        output.threshold_failure is None <==> status == BenchmarkStatus::Passed,
        optional_text(reason) == optional_text(output.threshold_failure),
{
}

/// The threshold is missed where the share lies below it, and not otherwise.
pub proof fn law_threshold(below: bool, accuracy: &str, least: &str, out: Option<String>)
    requires
        call_ensures(threshold_failure, (below, accuracy, least), out),
    ensures
        out is Some <==> below,
        out matches Some(text) ==> text@ == "GAIA exact-match accuracy "@ + accuracy@
            + " below threshold "@ + least@,
{
}

/// A setting that was given goes before that of the environment, and one that is
/// blank counts as none; a limit is a number or none.
pub proof fn law_settings(
    given: String,
    environment: Option<String>,
    out: Option<String>,
    limit: Option<usize>,
)
    requires
        call_ensures(get_override, (Some(given), environment), out),
        call_ensures(limit_setting, (Some(given),), limit),
    ensures
        all_space(given@) ==> out is None,
        !all_space(given@) ==> optional_text(out) == Some(given@),
        limit matches Some(n) ==> number_in(given@, usize::MAX as nat) == Some(n as nat),
        limit is None ==> number_in(given@, usize::MAX as nat) is None,
{
    law_setting(given@, optional_text(environment));
}

/// The dataset that was asked for is taken where it is there, then the fixture.
pub proof fn law_resolve_dataset(
    asked: Option<String>,
    asked_exists: bool,
    fixture: String,
    fixture_exists: bool,
    out: Option<String>,
)
    requires
        call_ensures(resolve_dataset_path, (asked, asked_exists, fixture, fixture_exists), out),
    ensures
        asked is Some && asked_exists ==> optional_text(out) == Some(asked->Some_0@),
        !(asked is Some && asked_exists) && fixture_exists ==> optional_text(out) == Some(fixture@),
        !(asked is Some && asked_exists) && !fixture_exists ==> out is None,
{
}

/// A task without a name is named after its line, and keeps everything else.
pub proof fn law_named_task(task: GaiaTask, number: usize, out: GaiaTask)
    requires
        call_ensures(named_task, (task, number), out),
    ensures
        trimmed(task.task_id@).len() == 0 ==> out.task_id@ == "gaia-"@ + decimal(number as nat),
        trimmed(task.task_id@).len() > 0 ==> out.task_id@ == task.task_id@,
        out.level == task.level,
        out.question@ == task.question@,
        out.expected_answer@ == task.expected_answer@,
        optional_text(out.predicted_answer) == optional_text(task.predicted_answer),
        texts(out.required_roles@) == texts(task.required_roles@),
        out.tool_steps@.len() == task.tool_steps@.len(),
        forall|i: int|
            0 <= i < task.tool_steps@.len() ==> (#[trigger] out.tool_steps@[i])@
                == task.tool_steps@[i]@,
{
    assert(out@.tool_steps == task@.tool_steps);
    assert(out@.tool_steps.len() == out.tool_steps@.len());
    assert forall|i: int| 0 <= i < task.tool_steps@.len() implies (
    #[trigger] out.tool_steps@[i])@ == task.tool_steps@[i]@ by {
        assert(out@.tool_steps[i] == out.tool_steps@[i]@);
        assert(task@.tool_steps[i] == task.tool_steps@[i]@);
    }
}

// ---------------------------------------------------------------------------
// The state database
// ---------------------------------------------------------------------------

/// Whether the value is this text.
pub open spec fn text_is(value: SqlValue, text: Seq<char>) -> bool {
    value matches SqlValue::Text(s) && s@ == text
}

/// Whether the value is this number.
pub open spec fn number_is(value: SqlValue, number: int) -> bool {
    value matches SqlValue::Integer(n) && n == number
}

proof fn lemma_values(statement: Statement, i: int)
    requires
        0 <= i < statement.values@.len(),
    ensures
        statement@.values[i] == statement.values@[i]@,
{
}

/// Why an agent stopped is noted under the agent's name.
pub proof fn law_stop_reason(agent_name: &str, stop_reason: &str, now: &str, out: Statement)
    requires
        call_ensures(record_agent_stop_reason, (agent_name, stop_reason, now), out),
    ensures
        out.sql@
            == "UPDATE agent_state\nSET last_stop_reason = ?2,\n    updated_at = ?3\nWHERE agent_name = ?1"@,
        out.values@.len() == 3,
        text_is(out.values@[0], agent_name@),
        text_is(out.values@[1], stop_reason@),
        text_is(out.values@[2], now@),
{
    assert(out@.values.len() == out.values@.len());
    lemma_values(out, 0);
    lemma_values(out, 1);
    lemma_values(out, 2);
}

/// A query for everything has no values, a query for one agent or one run has its
/// name.
pub proof fn law_queries_by_name(
    name: &str,
    every: Statement,
    agent: Statement,
    projection: Statement,
)
    requires
        call_ensures(list_agent_state, (), every),
        call_ensures(get_agent_state, (name,), agent),
        call_ensures(get_causal_graph_projection, (name,), projection),
    ensures
        every.values@.len() == 0,
        agent.values@.len() == 1,
        text_is(agent.values@[0], name@),
        projection.values@.len() == 1,
        text_is(projection.values@[0], name@),
{
    assert(every@.values.len() == every.values@.len());
    assert(agent@.values.len() == agent.values@.len());
    assert(projection@.values.len() == projection.values@.len());
    lemma_values(agent, 0);
    lemma_values(projection, 0);
}

/// A query for the latest graphs asks for as many as are wanted, and at least for
/// one; a number that was counted is never negative.
pub proof fn law_queries_by_number(
    spec_id: &str,
    limit: i64,
    recent: Statement,
    summaries: Statement,
    of_spec: Statement,
    count: u64,
)
    requires
        call_ensures(list_recent_causal_graph_projections, (limit,), recent),
        call_ensures(list_causal_graph_projection_summaries, (limit,), summaries),
        call_ensures(list_causal_graph_projections_for_spec, (spec_id, limit), of_spec),
        call_ensures(count_causal_graph_projections, (limit,), count),
    ensures
        ({
            let wanted = if limit < 1 {
                1int
            } else {
                limit as int
            };
            &&& recent.values@.len() == 1
            &&& number_is(recent.values@[0], wanted)
            &&& summaries.sql@ == recent.sql@
            &&& summaries.values@.len() == 1
            &&& number_is(summaries.values@[0], wanted)
            &&& of_spec.values@.len() == 2
            &&& text_is(of_spec.values@[0], spec_id@)
            &&& number_is(of_spec.values@[1], wanted)
        }),
        limit >= 0 ==> count == limit,
        limit < 0 ==> count == 0,
{
    assert(recent@.values.len() == recent.values@.len());
    assert(summaries@.values.len() == summaries.values@.len());
    assert(of_spec@.values.len() == of_spec.values@.len());
    lemma_values(recent, 0);
    lemma_values(summaries, 0);
    lemma_values(of_spec, 0);
    lemma_values(of_spec, 1);
}

/// The state of an agent is read from its row, each field from its own column,
/// and what it remembers from the text, or nothing where that cannot be read.
pub proof fn law_agent_state(row: AgentStateRow, out: AgentState)
    requires
        call_ensures(agent_state_from_row, (row,), out),
    ensures
        out.agent_name@ == row.agent_name@,
        out.agent_role@ == row.agent_role@,
        out.llm_provider@ == row.llm_provider@,
        out.llm_model@ == row.llm_model@,
        json_pairs(row.memory_block_ids@) matches Some(pairs) ==> pair_texts(out.memory_block_ids@)
            == pairs,
        json_pairs(row.memory_block_ids@) is None ==> out.memory_block_ids@.len() == 0,
        optional_text(out.last_stop_reason) == optional_text(row.last_stop_reason),
        optional_text(out.last_active_run) == optional_text(row.last_active_run),
        optional_text(out.behavior_contract_hash) == optional_text(row.behavior_contract_hash),
        out.updated_at@ == row.updated_at@,
{
    assert(pair_texts(out.memory_block_ids@).len() == out.memory_block_ids@.len());
}

/// An agent's contract stands in a file with the agent's name, and is known by
/// the digest of its bytes.
pub proof fn law_contract(
    agent_name: &str,
    file: String,
    contract: Option<Vec<u8>>,
    hash: Option<String>,
)
    requires
        call_ensures(contract_file_name, (agent_name,), file),
        call_ensures(agent_contract_hash, (&contract,), hash),
    ensures
        file@ == agent_name@ + ".yaml"@,
        contract is None ==> hash is None,
        contract matches Some(bytes) ==> optional_text(hash) == Some(hex(sha256(bytes@))),
{
}

/// What is kept of a run's graph comes from the graph and the settings, each
/// count from its own.
pub proof fn law_projection_record(
    graph: RunCausalGraph,
    config: CausalGraphConfig,
    projected_at: Moment,
    out: CausalGraphProjectionRecord,
)
    requires
        call_ensures(projection_record, (&graph, &config, projected_at), out),
    ensures
        out.run_id@ == graph.run_id@,
        out.backend == config.backend,
        out.status@ == "sqlite_projection"@,
        out.database@ == config.database@,
        out.schema_path@ == config.schema_path@,
        out.graph_json@ == graph.graph_json@,
        out.episode_count == graph.episodes,
        out.event_count == graph.events,
        out.link_count == graph.links,
        out.hypothesis_count == graph.hypotheses,
        out.projected_at == projected_at,
{
}

/// All the steps are planned. Whether a table has a column shows in the answer to
/// this query.
pub proof fn law_schema_calls(
    plan: Vec<SchemaStep>,
    table: &str,
    query: String,
    existing: Vec<String>,
    column: &str,
    lacks: bool,
)
    requires
        call_ensures(schema_plan, (), plan),
        call_ensures(table_info_sql, (table,), query),
        call_ensures(lacks_column, (&existing, column), lacks),
    ensures
        plan@ == schema_steps(),
        query@ == "PRAGMA table_info("@ + table@ + ")"@,
        lacks <==> forall|i: int| 0 <= i < existing@.len() ==> (#[trigger] existing@[i])@ != column@,
{
    let all = texts(existing@);
    assert forall|i: int| 0 <= i < existing@.len() implies all[i] == (#[trigger] existing@[i])@ by {}
    if all.contains(column@) {
        let i = all.index_of(column@);
        assert(existing@[i]@ == column@);
    } else {
        assert forall|i: int| 0 <= i < existing@.len() implies (#[trigger] existing@[i])@
            != column@ by {
            assert(all.contains(all[i]));
        }
    }
}

// ---------------------------------------------------------------------------
// The graph
// ---------------------------------------------------------------------------

/// A graph without a connection answers with nothing, and says whether it is
/// switched off or cannot be reached; a connected one says that it is connected.
pub proof fn law_answers(
    config: CausalGraphConfig,
    store: NoopCausalGraphStore,
    query: CausalGraphQuery,
    answer: CausalGraphQueryResult,
    connected: CausalGraphQueryResult,
)
    requires
        call_ensures(NoopCausalGraphStore::new, (config,), store),
        call_ensures(NoopCausalGraphStore::query, (&store, query), answer),
        call_ensures(connected_answer, (&config, query), connected),
    ensures
        answer.query@ == query.question@,
        answer.hits@.len() == 0,
        answer.backend == config.backend,
        answer.database@ == config.database@,
        config.enabled ==> answer.status == CausalGraphStatus::Unavailable,
        !config.enabled ==> answer.status == CausalGraphStatus::Disabled,
        config.enabled ==> optional_text(answer.note) == Some(
            "TypeDB 3.x semantic graph is configured, but the live driver adapter is not wired in this build."@,
        ),
        !config.enabled ==> optional_text(answer.note) == Some(
            "TypeDB semantic graph is disabled; SQLite and memory retrieval remain authoritative."@,
        ),
        connected.query@ == query.question@,
        connected.hits@.len() == 0,
        connected.backend == config.backend,
        connected.database@ == config.database@,
        connected.status == CausalGraphStatus::Ready,
        optional_text(connected.note) == Some(
            "TypeDB connected; typed query path not yet implemented (Task 3 placeholder)"@,
        ),
{
}

/// The schema is there where a row was found, and not where there was none or the
/// query was refused.
pub proof fn law_schema_is_present(outcome: ProbeOutcome, out: Result<bool, String>)
    requires
        call_ensures(schema_is_present, (outcome,), out),
    ensures
        out is Err <==> outcome is NotOpened || outcome is RowFailed,
        out matches Ok(there) ==> (there <==> (outcome matches ProbeOutcome::Rows(count) && count
            >= 1)),
{
}

/// Connecting goes from stage to stage, and ends where one fails.
pub proof fn law_connect_next(
    config: CausalGraphConfig,
    stage: ConnectStage,
    outcome: StageOutcome,
    out: Result<ConnectStage, String>,
)
    requires
        call_ensures(connect_next, (&config, stage, outcome), out),
    ensures
        out is Err <==> outcome is Failed && stage !is Connected,
        outcome !is Failed ==> out == Ok::<ConnectStage, String>(
            match stage {
                ConnectStage::Open => ConnectStage::Find,
                ConnectStage::Find => if outcome is Yes {
                    ConnectStage::Probe
                } else {
                    ConnectStage::Create
                },
                ConnectStage::Create => ConnectStage::Deploy { repair: false },
                ConnectStage::Probe => if outcome is Yes {
                    ConnectStage::Connected { deployed: false }
                } else {
                    ConnectStage::Deploy { repair: true }
                },
                ConnectStage::Deploy { .. } => ConnectStage::Connected { deployed: true },
                ConnectStage::Connected { deployed } => ConnectStage::Connected { deployed },
            },
        ),
{
}

/// A connection is attempted where the graph is switched on, and used where it
/// was made; otherwise the fallback is, with a warning.
pub proof fn law_choice(
    config: CausalGraphConfig,
    wanted: bool,
    fault: Option<String>,
    outcome: ConnectOutcome,
    out: (StoreChoice, Option<String>),
)
    requires
        call_ensures(wants_connection, (&config,), wanted),
        call_ensures(check_address, (&config,), fault),
        call_ensures(choose_store, (outcome,), out),
    ensures
        wanted == config.enabled,
        fault is None <==> address_problem(config.url@) is None,
        address_problem(config.url@) matches Some((error, source)) ==> optional_text(fault) == Some(
            match source {
                Some(behind) => "parsing TypeDB address '"@ + config.url@ + "': "@ + error + ": "@
                    + behind,
                None => "parsing TypeDB address '"@ + config.url@ + "': "@ + error,
            },
        ),
        out.0 == StoreChoice::TypeDb <==> outcome is Connected,
        out.1 is Some <==> outcome !is Connected,
{
}

/// A backend is kept under one of two names.
pub proof fn law_backend_label(backend: CausalGraphBackend, out: &'static str)
    requires
        call_ensures(causal_graph_backend_label, (&backend,), out),
    ensures
        backend == CausalGraphBackend::TypeDb3 ==> out@ == "typedb3"@,
        backend == CausalGraphBackend::Disabled ==> out@ == "disabled"@,
{
}

// ---------------------------------------------------------------------------
// Responses, calls and paths
// ---------------------------------------------------------------------------

/// A response is read as its files with its summary and its reasons, or refused.
pub proof fn law_parse_fenced(raw: &str, out: Result<FencedEnvelope, TransportError>)
    requires
        call_ensures(parse_fenced_edits, (raw,), out),
    ensures
        match fenced_files(raw@) {
            Ok(files) => out is Ok && ({
                let envelope = out->Ok_0;
                &&& envelope.files@.len() == files.len()
                &&& forall|i: int|
                    0 <= i < files.len() ==> (#[trigger] envelope.files@[i]).path@ == files[i].path
                        && envelope.files@[i].content@ == files[i].content
                &&& envelope.summary@ == summary_and_rationale(raw@).0
                &&& texts(envelope.rationale@) == summary_and_rationale(raw@).1
            }),
            Err(fault) => out is Err && out->Err_0@ == fault,
        },
{
    if let Ok(files) = fenced_files(raw@) {
        let envelope = out->Ok_0;
        assert forall|i: int| 0 <= i < files.len() implies (#[trigger] envelope.files@[i]).path@
            == files[i].path && envelope.files@[i].content@ == files[i].content by {
            assert(files[i] == envelope.files@[i]@);
        }
    }
}

/// The edits of a response are its summary, its reasons, and each file as its
/// path and its content, in order.
pub proof fn law_into_edits(
    envelope: FencedEnvelope,
    out: (String, Vec<String>, Vec<(String, String)>),
    i: int,
)
    requires
        call_ensures(FencedEnvelope::into_edits, (envelope,), out),
    ensures
        out.0@ == envelope.summary@,
        texts(out.1@) == texts(envelope.rationale@),
        out.2@.len() == envelope.files@.len(),
        0 <= i < envelope.files@.len() ==> out.2@[i].0@ == envelope.files@[i].path@
            && out.2@[i].1@ == envelope.files@[i].content@,
{
}

/// A response is read as its patches, or refused, and a patch gives the new file,
/// or is refused.
pub proof fn law_patch_calls(
    raw: &str,
    blocks: Result<Vec<PatchBlock>, TransportError>,
    block: PatchBlock,
    out: Result<String, TransportError>,
)
    requires
        call_ensures(parse_patch_blocks, (raw,), blocks),
        call_ensures(apply_patch_block, (raw, &block), out),
    ensures
        match patch_blocks(raw@) {
            Ok(models) => blocks is Ok && blocks->Ok_0@.len() == models.len() && forall|i: int|
                0 <= i < models.len() ==> {
                    let read = #[trigger] blocks->Ok_0@[i];
                    &&& read.path@ == models[i].path
                    &&& read.search@ == models[i].search
                    &&& read.replace@ == models[i].replace
                },
            Err(fault) => blocks is Err && blocks->Err_0@ == fault,
        },
        match patched(
            raw@,
            PatchModel { path: block.path@, search: block.search@, replace: block.replace@ },
        ) {
            Ok(text) => out is Ok && out->Ok_0@ == text,
            Err(fault) => out is Err && out->Err_0@ == fault,
        },
{
    if let Ok(models) = patch_blocks(raw@) {
        assert forall|i: int| 0 <= i < models.len() implies ({
            let read = #[trigger] blocks->Ok_0@[i];
            &&& read.path@ == models[i].path
            &&& read.search@ == models[i].search
            &&& read.replace@ == models[i].replace
        }) by {
            assert(models[i] == blocks->Ok_0@[i]@);
        }
    }
}

/// The summary and the reasons of a response are read whatever else it holds.
pub proof fn law_parse_summary(raw: &str, out: (String, Vec<String>))
    requires
        call_ensures(parse_summary_and_rationale, (raw,), out),
    ensures
        out.0@ == summary_and_rationale(raw@).0,
        texts(out.1@) == summary_and_rationale(raw@).1,
{
}

/// A message is read as its calls, or refused; a single call is one that stands
/// alone.
pub proof fn law_parse_calls(
    raw: &str,
    out: Result<Vec<MasonTool>, ToolError>,
    single: Option<MasonTool>,
)
    requires
        call_ensures(parse_tool_calls, (raw,), out),
        call_ensures(parse_tool_call, (raw,), single),
    ensures
        match tool_calls(raw@) {
            Ok(calls) => out is Ok && out->Ok_0@.len() == calls.len() && forall|i: int|
                0 <= i < calls.len() ==> (#[trigger] out->Ok_0@[i])@ == calls[i],
            Err(fault) => out is Err && out->Err_0@ == fault,
        },
        tool_calls(raw@) matches Ok(calls) ==> (calls.len() == 1 <==> single is Some),
        tool_calls(raw@) is Err ==> single is None,
        single matches Some(call) ==> tool_calls(raw@) == Ok::<Seq<ToolModel>, ToolFaultModel>(
            seq![call@],
        ),
{
    if let Ok(calls) = tool_calls(raw@) {
        assert forall|i: int| 0 <= i < calls.len() implies (#[trigger] out->Ok_0@[i])@
            == calls[i] by {
            assert(calls[i] == out->Ok_0@[i]@);
        }
    }
}

/// The result of a call is framed by the tool's name.
pub proof fn law_render_result(path: String, content: String, result: &str, out: Seq<String>)
    requires
        out.len() == 3,
        call_ensures(render_tool_result, (&MasonTool::ReadFile { path }, result), out[0]),
        call_ensures(render_tool_result, (&MasonTool::ListDir { path }, result), out[1]),
        call_ensures(
            render_tool_result,
            (&MasonTool::WriteFile { path, content }, result),
            out[2],
        ),
    ensures
        out[0]@ == "### TOOL RESULT: "@ + "read_file"@ + "\n"@ + result@
            + "\n### END TOOL RESULT"@,
        out[1]@ == "### TOOL RESULT: "@ + "list_dir"@ + "\n"@ + result@ + "\n### END TOOL RESULT"@,
        out[2]@ == "### TOOL RESULT: "@ + "write_file"@ + "\n"@ + result@
            + "\n### END TOOL RESULT"@,
{
}

/// The guards answer as they are described.
pub proof fn law_guard_calls(
    text: &str,
    refusal: Option<String>,
    problem: Option<String>,
    proposal: bool,
)
    requires
        call_ensures(read_refusal, (text,), refusal),
        call_ensures(unreadable_write_marker, (text,), problem),
        call_ensures(looks_like_json_edit_proposal, (text,), proposal),
    ensures
        optional_text(refusal) == refused_read(text@, seq!["target/"@, "node_modules/"@]),
        optional_text(problem) == unreadable_write(text@),
        proposal <==> occurs(text@, "\"edits\""@) || occurs(text@, "\"path\":"@),
{
}

/// A path is brought to its one spelling, led below the workspace where it stays
/// there, and asked for its last name.
pub proof fn law_path_calls(
    path: &str,
    normal: String,
    joined: Option<Vec<String>>,
    name: Option<String>,
)
    requires
        call_ensures(normalize_project_path, (path,), normal),
        call_ensures(join_workspace_relative_path, (path,), joined),
        call_ensures(file_name, (path,), name),
    ensures
        normal@ == normal_path(path@),
        joined is None <==> absolute(path@) || climbs(path_parts(path@)),
        joined matches Some(parts) ==> texts(parts@) == path_parts(path@),
        optional_text(name) == last_name(path@),
{
}

/// A message is from whom it says, with what it says.
pub proof fn law_messages(content: String, user: Message, assistant: Message)
    requires
        call_ensures(Message::user, (content,), user),
        call_ensures(Message::assistant, (content,), assistant),
    ensures
        user.role == Role::User,
        user.content@ == content@,
        assistant.role == Role::Assistant,
        assistant.content@ == content@,
{
}

} // verus!
