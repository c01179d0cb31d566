//! What the values of the library hold, in terms of their fields.

use vstd::prelude::*;

use crate::causal_graph::{answer_model, stage_model, ConnectStage};
use crate::db::{
    optional_statement, optional_statement_outcome, statement_models, statement_outcome,
    statements_outcome, DbError, DbFault, DbFaultModel, SqlValue, Statement, StatementModel,
    ValueModel,
};
use crate::gaia::{
    count_models, record_models, result_models, result_of, results_of, step_models, task_models,
    GaiaMetrics, GaiaTask, GaiaTaskResult, GaiaToolStep, MetricsModel, ResultModel, RoleCount,
    StepModel, TaskModel,
};
use crate::mason_tools::{tool_models, tool_name, tool_path, MasonTool, ToolFault, ToolModel};
use crate::mason_transport::{
    file_models, patch_models, FencedFile, FileModel, PatchBlock, PatchModel, TransportFault,
};
use crate::pairs::pair_texts;
use crate::text::{optional_text, text_outcome, texts};
use crate::tool_loop::{
    entry_models, message_models, ActionModel, DirEntry, EntryModel, EventModel, LoopAction,
    LoopError, LoopEvent, LoopFault, Message, MessageModel, StagedWrite, WriteModel,
};

verus! {

// ---------------------------------------------------------------------------
// Texts
// ---------------------------------------------------------------------------

/// A list of strings holds the text of each, in order.
pub proof fn law_texts(list: Seq<String>, pairs: Seq<(String, String)>, i: int)
    ensures
        texts(list).len() == list.len(),
        0 <= i < list.len() ==> texts(list)[i] == list[i]@,
        pair_texts(pairs).len() == pairs.len(),
        0 <= i < pairs.len() ==> pair_texts(pairs)[i] == (pairs[i].0@, pairs[i].1@),
{
}

/// A string that may be missing, and the wording of why there is none, hold
/// their texts.
pub proof fn law_optional_text(text: String)
    ensures
        optional_text(Some(text)) == Some(text@),
        optional_text(None) is None,
        text_outcome(Ok(text)) == Ok::<Seq<char>, Seq<char>>(text@),
        text_outcome(Err(text)) == Err::<Seq<char>, Seq<char>>(text@),
{
}

// ---------------------------------------------------------------------------
// Responses and calls
// ---------------------------------------------------------------------------

/// A file, a patch, a write and a message hold what their fields hold.
pub proof fn law_transport_views(
    file: FencedFile,
    block: PatchBlock,
    write: StagedWrite,
    message: Message,
)
    ensures
        file@ == (FileModel { path: file.path@, content: file.content@ }),
        block@ == (PatchModel {
            path: block.path@,
            search: block.search@,
            replace: block.replace@,
        }),
        write@ == (WriteModel {
            parts: texts(write.parts@),
            path: write.path@,
            content: write.content@,
        }),
        message@ == (MessageModel { role: message.role, content: message.content@ }),
{
}

/// A call holds the tool, the path and the content.
pub proof fn law_tool_view(path: String, content: String)
    ensures
        (MasonTool::ReadFile { path })@ == (ToolModel::ReadFile { path: path@ }),
        (MasonTool::ListDir { path })@ == (ToolModel::ListDir { path: path@ }),
        (MasonTool::WriteFile { path, content })@ == (ToolModel::WriteFile {
            path: path@,
            content: content@,
        }),
        tool_name(ToolModel::ReadFile { path: path@ }) == "read_file"@,
        tool_name(ToolModel::ListDir { path: path@ }) == "list_dir"@,
        tool_name(ToolModel::WriteFile { path: path@, content: content@ }) == "write_file"@,
        tool_path(ToolModel::ReadFile { path: path@ }) == path@,
        tool_path(ToolModel::ListDir { path: path@ }) == path@,
        tool_path(ToolModel::WriteFile { path: path@, content: content@ }) == path@,
{
}

/// Lists of files, patches, calls, writes, messages and entries hold what each
/// holds, in order.
pub proof fn law_transport_lists(
    files: Seq<FencedFile>,
    blocks: Seq<PatchBlock>,
    calls: Seq<MasonTool>,
    messages: Seq<Message>,
    entries: Seq<DirEntry>,
    i: int,
)
    ensures
        file_models(files).len() == files.len(),
        0 <= i < files.len() ==> file_models(files)[i] == files[i]@,
        patch_models(blocks).len() == blocks.len(),
        0 <= i < blocks.len() ==> patch_models(blocks)[i] == blocks[i]@,
        tool_models(calls).len() == calls.len(),
        0 <= i < calls.len() ==> tool_models(calls)[i] == calls[i]@,
        message_models(messages).len() == messages.len(),
        0 <= i < messages.len() ==> message_models(messages)[i] == messages[i]@,
        entry_models(entries).len() == entries.len(),
        0 <= i < entries.len() ==> entry_models(entries)[i] == entries[i]@,
{
}

/// An entry of a directory and an event hold what happened.
pub proof fn law_event_views(
    text: String,
    is_dir: bool,
    outcome: Result<String, String>,
    entries: Vec<DirEntry>,
    accepted: bool,
)
    ensures
        (DirEntry::Named { name: text, is_dir })@ == (EntryModel::Named { name: text@, is_dir }),
        (DirEntry::Unreadable { error: text })@ == (EntryModel::Unreadable { error: text@ }),
        LoopEvent::Reply(text)@ == EventModel::Reply(text@),
        LoopEvent::FileRead(outcome)@ == EventModel::FileRead(text_outcome(outcome)),
        LoopEvent::Listed(Ok(entries))@ == EventModel::Listed(Ok(entry_models(entries@))),
        LoopEvent::Listed(Err(text))@ == EventModel::Listed(Err(text@)),
        LoopEvent::Recorded(accepted)@ == EventModel::Recorded(accepted),
{
}

/// An action holds what is to be done.
pub proof fn law_action_views(
    parts: Vec<String>,
    path: String,
    byte_len: usize,
    writes: Vec<(String, String)>,
    error: LoopError,
)
    ensures
        LoopAction::Ask@ == ActionModel::Ask,
        (LoopAction::Read { parts })@ == (ActionModel::Read { parts: texts(parts@) }),
        (LoopAction::List { parts })@ == (ActionModel::List { parts: texts(parts@) }),
        (LoopAction::Record { path, byte_len })@ == (ActionModel::Record {
            path: path@,
            byte_len: byte_len as nat,
        }),
        (LoopAction::Finish { writes })@ == (ActionModel::Finish { writes: pair_texts(writes@) }),
        (LoopAction::Fail { error })@ == (ActionModel::Fail { error: error@ }),
{
}

/// A refusal of a response holds what its fields hold.
pub proof fn law_transport_fault_view(
    line: usize,
    path: String,
    matches: usize,
    maybe_open: Option<String>,
    found: String,
    section: usize,
)
    ensures
        (TransportFault::<String, usize>::NestedFileMarker { line, path })@ == (TransportFault::<Seq<char>, nat>::NestedFileMarker {
            line: line as nat,
            path: path@,
        }),
        TransportFault::<String, usize>::EmptyPath@ == TransportFault::<Seq<char>, nat>::EmptyPath,
        (TransportFault::<String, usize>::ImplausiblePath { path })@ == (TransportFault::<Seq<char>, nat>::ImplausiblePath {
            path: path@,
        }),
        (TransportFault::<String, usize>::StrayEndMarker { line })@ == (TransportFault::<Seq<char>, nat>::StrayEndMarker {
            line: line as nat,
        }),
        (TransportFault::<String, usize>::UnclosedFile { path })@ == (TransportFault::<Seq<char>, nat>::UnclosedFile {
            path: path@,
        }),
        TransportFault::<String, usize>::NoFileBlocks@ == TransportFault::<Seq<char>, nat>::NoFileBlocks,
        (TransportFault::<String, usize>::EmptySearch { path })@ == (TransportFault::<Seq<char>, nat>::EmptySearch {
            path: path@,
        }),
        (TransportFault::<String, usize>::SearchNotFound { path })@ == (TransportFault::<Seq<char>, nat>::SearchNotFound {
            path: path@,
        }),
        (TransportFault::<String, usize>::AmbiguousSearch { path, matches })@ == (TransportFault::<Seq<char>, nat>::AmbiguousSearch {
            path: path@,
            matches: matches as nat,
        }),
        (TransportFault::<String, usize>::OverlappingSearch { path })@ == (TransportFault::<Seq<char>, nat>::OverlappingSearch {
            path: path@,
        }),
        (TransportFault::<String, usize>::PatchHeaderInOpenBlock { line, open: maybe_open, found })@ == (TransportFault::<Seq<char>, nat>::PatchHeaderInOpenBlock {
            line: line as nat,
            open: optional_text(maybe_open),
            found: found@,
        }),
        (TransportFault::<String, usize>::SearchInOpenBlock { line, section })@ == (TransportFault::<Seq<char>, nat>::SearchInOpenBlock {
            line: line as nat,
            section: section as nat,
        }),
        (TransportFault::<String, usize>::SecondDivider { line })@ == (TransportFault::<Seq<char>, nat>::SecondDivider {
            line: line as nat,
        }),
        (TransportFault::<String, usize>::DividerOutsideSearch { line })@ == (TransportFault::<Seq<char>, nat>::DividerOutsideSearch {
            line: line as nat,
        }),
        (TransportFault::<String, usize>::ReplaceEndWithoutHeader { line })@ == (TransportFault::<Seq<char>, nat>::ReplaceEndWithoutHeader {
            line: line as nat,
        }),
        (TransportFault::<String, usize>::ReplaceEndInSearch { line })@ == (TransportFault::<Seq<char>, nat>::ReplaceEndInSearch {
            line: line as nat,
        }),
        (TransportFault::<String, usize>::ReplaceEndOutsideBlock { line })@ == (TransportFault::<Seq<char>, nat>::ReplaceEndOutsideBlock {
            line: line as nat,
        }),
        TransportFault::<String, usize>::UnclosedPatch@ == TransportFault::<Seq<char>, nat>::UnclosedPatch,
{
}

/// A refusal of a message holds what its fields hold.
pub proof fn law_tool_fault_view(
    line: usize,
    kind: String,
    length: usize,
    maybe_path: Option<String>,
    path: String,
)
    ensures
        (ToolFault::<String, usize>::HeaderInContent { line })@ == (ToolFault::<Seq<char>, nat>::HeaderInContent {
            line: line as nat,
        }),
        (ToolFault::<String, usize>::UnnamedTool { line })@ == (ToolFault::<Seq<char>, nat>::UnnamedTool {
            line: line as nat,
        }),
        (ToolFault::<String, usize>::SecondPath { line, kind })@ == (ToolFault::<Seq<char>, nat>::SecondPath {
            line: line as nat,
            kind: kind@,
        }),
        (ToolFault::<String, usize>::EmptyPath { line, kind })@ == (ToolFault::<Seq<char>, nat>::EmptyPath {
            line: line as nat,
            kind: kind@,
        }),
        (ToolFault::<String, usize>::LongPath { line, kind, length })@ == (ToolFault::<Seq<char>, nat>::LongPath {
            line: line as nat,
            kind: kind@,
            length: length as nat,
        }),
        (ToolFault::<String, usize>::ContentOutsideCall { line })@ == (ToolFault::<Seq<char>, nat>::ContentOutsideCall {
            line: line as nat,
        }),
        (ToolFault::<String, usize>::SecondContent { line, kind })@ == (ToolFault::<Seq<char>, nat>::SecondContent {
            line: line as nat,
            kind: kind@,
        }),
        (ToolFault::<String, usize>::StrayEndContent { line })@ == (ToolFault::<Seq<char>, nat>::StrayEndContent {
            line: line as nat,
        }),
        (ToolFault::<String, usize>::UnclosedContent { path: maybe_path })@ == (ToolFault::<Seq<char>, nat>::UnclosedContent {
            path: optional_text(maybe_path),
        }),
        (ToolFault::<String, usize>::MissingPath { line, kind })@ == (ToolFault::<Seq<char>, nat>::MissingPath {
            line: line as nat,
            kind: kind@,
        }),
        (ToolFault::<String, usize>::ContentNotAccepted { line, kind })@ == (ToolFault::<Seq<char>, nat>::ContentNotAccepted {
            line: line as nat,
            kind: kind@,
        }),
        (ToolFault::<String, usize>::MissingContent { line, path })@ == (ToolFault::<Seq<char>, nat>::MissingContent {
            line: line as nat,
            path: path@,
        }),
        (ToolFault::<String, usize>::UnknownTool { line, kind })@ == (ToolFault::<Seq<char>, nat>::UnknownTool {
            line: line as nat,
            kind: kind@,
        }),
{
}

/// An end without writes holds what its fields hold.
pub proof fn law_loop_fault_view(
    tool: String,
    path: String,
    turns: u32,
    maybe_problem: Option<String>,
)
    ensures
        (LoopFault::<String, u32>::AbsolutePath { tool, path })@ == (LoopFault::<Seq<char>, nat>::AbsolutePath {
            tool: tool@,
            path: path@,
        }),
        (LoopFault::<String, u32>::OutsideWorkspace { tool, path })@ == (LoopFault::<Seq<char>, nat>::OutsideWorkspace {
            tool: tool@,
            path: path@,
        }),
        (LoopFault::<String, u32>::WorkspaceRoot { path })@ == (LoopFault::<Seq<char>, nat>::WorkspaceRoot {
            path: path@,
        }),
        (LoopFault::<String, u32>::GatewayRefused { path })@ == (LoopFault::<Seq<char>, nat>::GatewayRefused {
            path: path@,
        }),
        (LoopFault::<String, u32>::TurnsUsedUp { turns, problem: maybe_problem })@ == (LoopFault::<Seq<char>, nat>::TurnsUsedUp {
            turns: turns as nat,
            problem: optional_text(maybe_problem),
        }),
{
}

// ---------------------------------------------------------------------------
// The benchmark
// ---------------------------------------------------------------------------

/// A task, a step and a result hold what their fields hold.
pub proof fn law_task_views(step: GaiaToolStep, task: GaiaTask, result: GaiaTaskResult)
    ensures
        step@ == (StepModel {
            role: step.role@,
            tool: step.tool@,
            input: step.input@,
            output: step.output@,
        }),
        task@ == (TaskModel {
            task_id: task.task_id@,
            level: task.level,
            question: task.question@,
            expected_answer: task.expected_answer@,
            predicted_answer: optional_text(task.predicted_answer),
            required_roles: texts(task.required_roles@),
            tool_steps: step_models(task.tool_steps@),
        }),
        result@ == (ResultModel {
            task_id: result.task_id@,
            level: result.level,
            question_excerpt: result.question_excerpt@,
            expected_answer: result.expected_answer@,
            predicted_answer: result.predicted_answer@,
            exact_match: result.exact_match,
            routed_roles: texts(result.routed_roles@),
            tool_step_count: result.tool_step_count as nat,
            tool_steps: step_models(result.tool_steps@),
        }),
{
}

/// The figures hold what their fields hold.
pub proof fn law_figure_views(metrics: GaiaMetrics, count: RoleCount)
    ensures
        metrics@ == (MetricsModel {
            total_tasks: metrics.total_tasks as nat,
            correct_tasks: metrics.correct_tasks as nat,
            level_3_tasks: metrics.level_3_tasks as nat,
            multi_role_tasks: metrics.multi_role_tasks as nat,
            routed_role_counts: count_models(metrics.routed_role_counts@),
            tool_step_count: metrics.tool_step_count as nat,
        }),
        count@ == (count.role@, count.count as nat),
{
}

/// Lists of steps, tasks, results, counts and records hold what each holds, in
/// order.
pub proof fn law_task_lists(
    steps: Seq<GaiaToolStep>,
    tasks: Seq<GaiaTask>,
    results: Seq<GaiaTaskResult>,
    counts: Seq<RoleCount>,
    records: Seq<(usize, String)>,
    models: Seq<TaskModel>,
    i: int,
)
    ensures
        step_models(steps).len() == steps.len(),
        0 <= i < steps.len() ==> step_models(steps)[i] == steps[i]@,
        task_models(tasks).len() == tasks.len(),
        0 <= i < tasks.len() ==> task_models(tasks)[i] == tasks[i]@,
        result_models(results).len() == results.len(),
        0 <= i < results.len() ==> result_models(results)[i] == results[i]@,
        count_models(counts).len() == counts.len(),
        0 <= i < counts.len() ==> count_models(counts)[i] == counts[i]@,
        record_models(records).len() == records.len(),
        0 <= i < records.len() ==> record_models(records)[i] == (
            records[i].0 as nat,
            records[i].1@,
        ),
        results_of(models).len() == models.len(),
        0 <= i < models.len() ==> results_of(models)[i] == result_of(models[i]),
{
}

// ---------------------------------------------------------------------------
// The state database and the graph
// ---------------------------------------------------------------------------

/// A statement holds its text and its values, in order.
pub proof fn law_statement_views(
    statement: Statement,
    statements: Seq<Statement>,
    text: String,
    maybe: Option<String>,
    number: i64,
    i: int,
)
    ensures
        statement@.sql == statement.sql@,
        statement@.values.len() == statement.values@.len(),
        0 <= i < statement.values@.len() ==> statement@.values[i] == statement.values@[i]@,
        SqlValue::Text(text)@ == ValueModel::Text(text@),
        SqlValue::MaybeText(maybe)@ == ValueModel::MaybeText(optional_text(maybe)),
        SqlValue::Integer(number)@ == ValueModel::Integer(number as int),
        statement_models(statements).len() == statements.len(),
        0 <= i < statements.len() ==> statement_models(statements)[i] == statements[i]@,
{
}

/// What came of a statement, of some and of one that may be missing is the
/// statement, or the fault.
pub proof fn law_statement_outcomes(
    statement: Statement,
    statements: Vec<Statement>,
    error: DbError,
)
    ensures
        statement_outcome(Ok(statement)) == Ok::<StatementModel, DbFaultModel>(statement@),
        statement_outcome(Err(error)) == Err::<StatementModel, DbFaultModel>(error@),
        statements_outcome(Ok(statements)) == Ok::<Seq<StatementModel>, DbFaultModel>(
            statement_models(statements@),
        ),
        statements_outcome(Err(error)) == Err::<Seq<StatementModel>, DbFaultModel>(error@),
        optional_statement(Some(statement)) == Some(statement@),
        optional_statement(None) is None,
        optional_statement_outcome(Ok(Some(statement))) == Ok::<
            Option<StatementModel>,
            DbFaultModel,
        >(Some(statement@)),
        optional_statement_outcome(Ok(None)) == Ok::<Option<StatementModel>, DbFaultModel>(None),
        optional_statement_outcome(Err(error)) == Err::<Option<StatementModel>, DbFaultModel>(
            error@,
        ),
{
}

/// A fault of the state database holds what its fields hold.
pub proof fn law_db_fault_view(
    cause: String,
)
    ensures
        (DbFault::<String>::WriteJson { cause })@ == (DbFault::<Seq<char>>::WriteJson {
            cause: cause@,
        }),
        DbFault::<String>::WriteMoment@ == DbFault::<Seq<char>>::WriteMoment,
        (DbFault::<String>::ReadJson { cause })@ == (DbFault::<Seq<char>>::ReadJson {
            cause: cause@,
        }),
        (DbFault::<String>::ReadMoment { cause })@ == (DbFault::<Seq<char>>::ReadMoment {
            cause: cause@,
        }),
{
}

/// What came of a stage and of the check for the schema is the answer, or the
/// wording of the error.
pub proof fn law_connect_outcomes(stage: ConnectStage, answer: bool, error: String)
    ensures
        stage_model(Ok(stage)) == Ok::<ConnectStage, Seq<char>>(stage),
        stage_model(Err(error)) == Err::<ConnectStage, Seq<char>>(error@),
        answer_model(Ok(answer)) == Ok::<bool, Seq<char>>(answer),
        answer_model(Err(error)) == Err::<bool, Seq<char>>(error@),
{
}

} // verus!
