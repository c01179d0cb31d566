//! What is kept and read back of agents, leases, events and graphs, and how the
//! graph database is reached.

use vstd::prelude::*;
use vstd::std_specs::convert::FromSpec;

use crate::causal_graph::{
    address_wording, after_stage, configured, empty_answer, fallback_warning,
    note_without_connection, probe_result, status_without_connection, summarized,
    CausalGraphBackend, CausalGraphConfig, CausalGraphProjectionRecord,
    CausalGraphProjectionSummary, CausalGraphQuery, CausalGraphQueryResult, CausalGraphStatus, ConnectOutcome, ConnectStage, ProbeOutcome,
    StageOutcome, TypeDbConfig, CONNECTED_NOTE, CONNECT_TIMEOUT_SECONDS, SCHEMA_PRESENCE_CHECK_TQL,
};
use crate::db::{
    activity_statement, activity_statements, backend_label, contract_hash, counted, db_message, hex,
    hex_digit, known_blocks, labelled_backend, lease_row, lease_statement, lease_statements,
    memory_row, memory_statement, policy_row, policy_statement, profile_row,
    profile_statement,
    profile_statements, projection_statement, projection_values, record_of_row, records_of_rows,
    remembered, resolved_model, row_fault, row_limit, rows_fault, state_of_row, summaries_of,
    AgentProfile, AgentRuntimeState, AgentState, AgentStateRow, Assignment,
    CoordinationPolicyEvent, DbFault, DbFaultModel, ProjectionRow, StatementModel,
    ValueModel,
};
use crate::outside::{
    json_document, json_list, json_object, json_pairs, rfc3339, rfc3339_moment, sha256,
};
use crate::pairs::{merged, pair_texts};
use crate::text::{optional_text, texts};

verus! {

// ---------------------------------------------------------------------------
// Agents
// ---------------------------------------------------------------------------

/// A byte is written with two hexadecimal digits, that of the sixteens first.
pub proof fn law_hex(bytes: Seq<u8>, i: int)
    requires
        0 <= i < bytes.len(),
    ensures
        hex(bytes).len() == 2 * bytes.len(),
        hex(bytes)[2 * i] == "0123456789abcdef"@[bytes[i] as int / 16],
        hex(bytes)[2 * i + 1] == "0123456789abcdef"@[bytes[i] as int % 16],
{
    reveal_strlit("0123456789abcdef");
    assert((2 * i) / 2 == i && (2 * i) % 2 == 0);
    assert((2 * i + 1) / 2 == i && (2 * i + 1) % 2 == 1);
    let a = bytes[i] as int / 16;
    let b = bytes[i] as int % 16;
    assert(0 <= a < 16 && 0 <= b < 16);
    assert(hex_digit(a) == "0123456789abcdef"@[a]);
    assert(hex_digit(b) == "0123456789abcdef"@[b]);
}

/// An agent's contract is known by the digest of its bytes, in hexadecimal
/// digits, and the agent's model is its own choice, then that of its provider.
pub proof fn law_profile(profile: AgentProfile)
    ensures
        profile.contract is None ==> contract_hash(profile.contract) is None,
        profile.contract matches Some(bytes) ==> contract_hash(profile.contract) == Some(
            hex(sha256(bytes@)),
        ),
        profile.model_override matches Some(model) ==> resolved_model(profile) == model@,
        profile.model_override is None ==> (profile.provider_model matches Some(model)
            ==> resolved_model(profile) == model@),
        profile.model_override is None && profile.provider_model is None ==> resolved_model(profile)
            == "unresolved"@,
{
}

/// What is filled in of a profile is the profile's, whatever its contract is known
/// by.
pub proof fn law_profile_values(profile: AgentProfile, hash: Option<Seq<char>>, now: Seq<char>)
    ensures
        ({
            let statement = profile_row(profile, hash, now);
            &&& statement.sql == profile_statement(profile, now).sql
            &&& statement.values == seq![
                ValueModel::Text(profile.name@),
                ValueModel::Text(profile.role@),
                ValueModel::Text(profile.provider_name@),
                ValueModel::Text(resolved_model(profile)),
                ValueModel::MaybeText(hash),
                ValueModel::Text(now),
            ]
        }),
{
}

/// Every profile is filled in, in order.
pub proof fn law_profiles_are_filled_in(profiles: Seq<AgentProfile>, now: Seq<char>, i: int)
    requires
        0 <= i < profiles.len(),
    ensures
        profile_statements(profiles, now).len() == profiles.len(),
        profile_statements(profiles, now)[i] == profile_statement(profiles[i], now),
{
}

/// One agent more adds its activity behind that of the others, where it has some.
pub proof fn law_activity_is_added(
    run_id: Seq<char>,
    runtimes: Seq<AgentRuntimeState>,
    runtime: AgentRuntimeState,
    now: Seq<char>,
)
    ensures
        activity_statements(run_id, Seq::empty(), now).len() == 0,
        activity_statement(run_id, runtime, now) matches Some(statement) ==> activity_statements(
            run_id,
            runtimes.push(runtime),
            now,
        ) == activity_statements(run_id, runtimes, now).push(statement),
        activity_statement(run_id, runtime, now) is None ==> activity_statements(
            run_id,
            runtimes.push(runtime),
            now,
        ) == activity_statements(run_id, runtimes, now),
{
    assert(runtimes.push(runtime).drop_last() =~= runtimes);
}

/// The state of an agent is read from the columns of its row, each from its own.
pub proof fn law_state_of_row(
    state: AgentState,
    row: AgentStateRow,
    blocks: Seq<(Seq<char>, Seq<char>)>,
)
    requires
        state_of_row(state, row, blocks),
    ensures
        state.agent_name@ == row.agent_name@,
        state.agent_role@ == row.agent_role@,
        state.llm_provider@ == row.llm_provider@,
        state.llm_model@ == row.llm_model@,
        pair_texts(state.memory_block_ids@) == blocks,
        optional_text(state.last_stop_reason) == optional_text(row.last_stop_reason),
        optional_text(state.last_active_run) == optional_text(row.last_active_run),
        optional_text(state.behavior_contract_hash) == optional_text(row.behavior_contract_hash),
        state.updated_at@ == row.updated_at@,
{
}

/// What an agent remembers is what can be read, and nothing where nothing can;
/// and an agent that is not known remembers nothing.
pub proof fn law_remembered(text: Seq<char>, state: AgentState)
    ensures
        json_pairs(text) matches Some(pairs) ==> remembered(text) == pairs,
        json_pairs(text) is None ==> remembered(text).len() == 0,
        known_blocks(Some(state)) == pair_texts(state.memory_block_ids@),
        known_blocks(None).len() == 0,
{
}

/// Where something is new, the statement keeps it together with what was known;
/// where nothing is, there is no statement.
pub proof fn law_memory_statement(
    agent_name: Seq<char>,
    known: Seq<(Seq<char>, Seq<char>)>,
    block_ids: Seq<(Seq<char>, Seq<char>)>,
    now: Seq<char>,
)
    ensures
        block_ids.len() == 0 ==> memory_statement(agent_name, known, block_ids, now) == Ok::<
            Option<StatementModel>,
            DbFaultModel,
        >(None),
        block_ids.len() > 0 ==> match json_object(merged(known, block_ids)) {
            Ok(payload) => memory_statement(agent_name, known, block_ids, now) == Ok::<
                Option<StatementModel>,
                DbFaultModel,
            >(Some(memory_row(agent_name, payload, now))),
            Err(cause) => memory_statement(agent_name, known, block_ids, now) == Err::<
                Option<StatementModel>,
                DbFaultModel,
            >(DbFault::WriteJson { cause }),
        },
{
}

// ---------------------------------------------------------------------------
// Leases and events
// ---------------------------------------------------------------------------

/// A lease is kept with its files and its guardrails, each in its own column.
pub proof fn law_lease_statement(assignment: Assignment, updated_at: Seq<char>)
    ensures
        match (json_list(texts(assignment.files@)), json_list(texts(assignment.guardrails@))) {
            (Ok(files), Ok(guardrails)) => lease_statement(assignment, updated_at) == Ok::<
                StatementModel,
                DbFaultModel,
            >(lease_row(assignment, files, guardrails, updated_at)),
            (Err(cause), _) => lease_statement(assignment, updated_at) == Err::<
                StatementModel,
                DbFaultModel,
            >(DbFault::WriteJson { cause }),
            (Ok(_), Err(cause)) => lease_statement(assignment, updated_at) == Err::<
                StatementModel,
                DbFaultModel,
            >(DbFault::WriteJson { cause }),
        },
{
}

/// One lease more is added behind the others, and one that cannot be written
/// spoils them all.
pub proof fn law_lease_is_added(
    active: Seq<Assignment>,
    assignment: Assignment,
    updated_at: Seq<char>,
)
    ensures
        lease_statements(Seq::empty(), updated_at) == Ok::<Seq<StatementModel>, DbFaultModel>(
            seq![
                StatementModel {
                    sql: "DELETE FROM coordination_leases"@,
                    values: Seq::empty(),
                },
            ],
        ),
        match lease_statements(active, updated_at) {
            Ok(statements) => match lease_statement(assignment, updated_at) {
                Ok(statement) => lease_statements(active.push(assignment), updated_at) == Ok::<
                    Seq<StatementModel>,
                    DbFaultModel,
                >(statements.push(statement)),
                Err(fault) => lease_statements(active.push(assignment), updated_at) == Err::<
                    Seq<StatementModel>,
                    DbFaultModel,
                >(fault),
            },
            Err(fault) => lease_statements(active.push(assignment), updated_at) == Err::<
                Seq<StatementModel>,
                DbFaultModel,
            >(fault),
        },
{
    assert(active.push(assignment).drop_last() =~= active);
}

/// An event is kept with its files.
pub proof fn law_policy_statement(event: CoordinationPolicyEvent)
    ensures
        json_list(texts(event.files@)) matches Ok(files) ==> policy_statement(event) == Ok::<
            StatementModel,
            DbFaultModel,
        >(policy_row(event, files)),
        json_list(texts(event.files@)) matches Err(cause) ==> policy_statement(event) == Err::<
            StatementModel,
            DbFaultModel,
        >(DbFault::WriteJson { cause }),
{
}

/// A fault is worded as its cause, and a moment outside the calendar as that.
pub proof fn law_db_message(cause: Seq<char>)
    ensures
        db_message(DbFault::WriteJson { cause }) == cause,
        db_message(DbFault::ReadJson { cause }) == cause,
        db_message(DbFault::ReadMoment { cause }) == cause,
        db_message(DbFault::WriteMoment) == "the moment lies outside the calendar"@,
{
}

// ---------------------------------------------------------------------------
// Graphs
// ---------------------------------------------------------------------------

/// Two names stand for the graph database and every other for none; it is kept
/// under one of them.
pub proof fn law_backend_names(label: Seq<char>)
    ensures
        labelled_backend(label) == CausalGraphBackend::TypeDb3 <==> label == "typedb3"@ || label
            == "type_db3"@,
        labelled_backend(label) == CausalGraphBackend::Disabled <==> label != "typedb3"@ && label
            != "type_db3"@,
        backend_label(CausalGraphBackend::TypeDb3) == "typedb3"@,
        backend_label(CausalGraphBackend::Disabled) == "disabled"@,
{
}

/// A graph is kept with its moment where the calendar reaches it.
pub proof fn law_projection_statement(record: CausalGraphProjectionRecord)
    ensures
        ({
            let at = rfc3339(record.projected_at.seconds as int, record.projected_at.nanos as int);
            &&& at matches Some(text) ==> projection_statement(record) == Ok::<
                StatementModel,
                DbFaultModel,
            >(projection_values(record, text))
            &&& at is None ==> projection_statement(record) == Err::<StatementModel, DbFaultModel>(
                DbFault::WriteMoment,
            )
        }),
{
}

/// At least one row is asked for, and no more than are wanted.
pub proof fn law_row_limit(limit: int)
    ensures
        limit >= 1 ==> row_limit(limit) == limit,
        limit <= 1 ==> row_limit(limit) == 1,
        limit >= 0 ==> counted(limit) == limit,
        limit <= 0 ==> counted(limit) == 0,
{
}

/// A graph is read from the columns of its row, each from its own.
pub proof fn law_record_of_row(
    record: CausalGraphProjectionRecord,
    row: ProjectionRow,
    graph: Seq<char>,
    moment: (int, int),
)
    requires
        record_of_row(record, row, graph, moment),
    ensures
        record.run_id@ == row.run_id@,
        record.backend == CausalGraphBackend::TypeDb3 <==> row.backend@ == "typedb3"@
            || row.backend@ == "type_db3"@,
        record.status@ == row.status@,
        record.database@ == row.database_name@,
        record.schema_path@ == row.schema_path@,
        record.graph_json@ == graph,
        row.episode_count >= 0 ==> record.episode_count == row.episode_count,
        row.episode_count < 0 ==> record.episode_count == 0,
        row.event_count >= 0 ==> record.event_count == row.event_count,
        row.event_count < 0 ==> record.event_count == 0,
        row.link_count >= 0 ==> record.link_count == row.link_count,
        row.link_count < 0 ==> record.link_count == 0,
        row.hypothesis_count >= 0 ==> record.hypothesis_count == row.hypothesis_count,
        row.hypothesis_count < 0 ==> record.hypothesis_count == 0,
        (record.projected_at.seconds as int, record.projected_at.nanos as int) == moment,
{
}

/// A row cannot be read where its moment cannot, or else its graph.
pub proof fn law_row_fault(row: ProjectionRow)
    ensures
        match (rfc3339_moment(row.projected_at@), json_document(row.graph_json@)) {
            (Err(cause), _) => row_fault(row) == Some(
                DbFault::<Seq<char>>::ReadMoment { cause },
            ),
            (Ok(_), Err(cause)) => row_fault(row) == Some(DbFault::<Seq<char>>::ReadJson { cause }),
            (Ok(_), Ok(_)) => row_fault(row) is None,
        },
{
}

/// Rows can be read where each of them can, and otherwise the first that cannot
/// says why.
pub proof fn law_rows_fault(rows: Seq<ProjectionRow>)
    ensures
        rows_fault(rows) is None <==> forall|i: int|
            0 <= i < rows.len() ==> row_fault(#[trigger] rows[i]) is None,
        rows_fault(rows) matches Some(fault) ==> exists|i: int|
            0 <= i < rows.len() && row_fault(#[trigger] rows[i]) == Some(fault) && forall|k: int|
                0 <= k < i ==> row_fault(#[trigger] rows[k]) is None,
    decreases rows.len(),
{
    if rows.len() > 0 {
        let front = rows.drop_last();
        let n = rows.len() - 1;
        law_rows_fault(front);
        assert(rows[n] == rows.last());
        if rows_fault(front) is None {
            assert forall|i: int| 0 <= i < n implies row_fault(#[trigger] rows[i]) is None by {
                assert(front[i] == rows[i]);
            }
        } else {
            let fault = rows_fault(front)->Some_0;
            let i = choose|i: int|
                0 <= i < front.len() && row_fault(#[trigger] front[i]) == Some(fault) && forall|
                    k: int,
                |
                    0 <= k < i ==> row_fault(#[trigger] front[k]) is None;
            assert(row_fault(rows[i]) == Some(fault));
            assert forall|k: int| 0 <= k < i implies row_fault(#[trigger] rows[k]) is None by {
                assert(front[k] == rows[k]);
            }
        }
    }
}

/// Of rows that can be read, each gives one record, in order, and each record one
/// summary, which says the same but for the graph.
pub proof fn law_records_and_summaries(
    records: Seq<CausalGraphProjectionRecord>,
    rows: Seq<ProjectionRow>,
    i: int,
)
    requires
        records_of_rows(records, rows),
        0 <= i < rows.len(),
    ensures
        records.len() == rows.len(),
        record_of_row(
            records[i],
            rows[i],
            json_document(rows[i].graph_json@)->Ok_0,
            rfc3339_moment(rows[i].projected_at@)->Ok_0,
        ),
        summaries_of(records).len() == records.len(),
        ({
            let summary = summaries_of(records)[i];
            let record = records[i];
            &&& summary.run_id == record.run_id
            &&& summary.backend == record.backend
            &&& summary.status == record.status
            &&& summary.database == record.database
            &&& summary.schema_path == record.schema_path
            &&& summary.episode_count == record.episode_count
            &&& summary.event_count == record.event_count
            &&& summary.link_count == record.link_count
            &&& summary.hypothesis_count == record.hypothesis_count
            &&& summary.projected_at == record.projected_at
        }),
{
    assert(summaries_of(records)[i] == summarized(records[i]));
}

/// A summary says the same as its record but for the graph.
pub proof fn law_summary_of_record(record: CausalGraphProjectionRecord)
    ensures
        ({
            let summary = summarized(record);
            &&& summary.run_id == record.run_id
            &&& summary.backend == record.backend
            &&& summary.status == record.status
            &&& summary.database == record.database
            &&& summary.schema_path == record.schema_path
            &&& summary.episode_count == record.episode_count
            &&& summary.event_count == record.event_count
            &&& summary.link_count == record.link_count
            &&& summary.hypothesis_count == record.hypothesis_count
            &&& summary.projected_at == record.projected_at
        }),
{
}

// ---------------------------------------------------------------------------
// The graph database
// ---------------------------------------------------------------------------

/// The graph is configured as the installation says, with the graph database
/// behind it where it is switched on and nothing where it is not.
pub proof fn law_configured(config: TypeDbConfig)
    ensures
        ({
            let out = configured(config);
            &&& out.enabled == config.enabled
            &&& config.enabled ==> out.backend == CausalGraphBackend::TypeDb3
            &&& !config.enabled ==> out.backend == CausalGraphBackend::Disabled
            &&& out.url == config.url
            &&& out.database == config.database
            &&& out.schema_path == config.schema_path
            &&& out.reasoning_mode == config.reasoning_mode
        }),
{
}

/// What is made from the settings of an installation and from a record is the
/// configuration and the summary.
pub proof fn law_conversions(config: &TypeDbConfig, record: &CausalGraphProjectionRecord)
    ensures
        CausalGraphConfig::from_spec(config) == configured(*config),
        CausalGraphProjectionSummary::from_spec(record) == summarized(*record),
{
}

/// Without a connection the answer has the question, no hits, and the reason:
/// switched off, or not to be reached.
pub proof fn law_answer_without_connection(
    answer: CausalGraphQueryResult,
    config: CausalGraphConfig,
    query: CausalGraphQuery,
)
    requires
        empty_answer(
            answer,
            config,
            query,
            status_without_connection(config),
            note_without_connection(config),
        ),
    ensures
        answer.backend == config.backend,
        answer.database@ == config.database@,
        answer.query@ == query.question@,
        answer.hits@.len() == 0,
        config.enabled ==> answer.status == CausalGraphStatus::Unavailable && optional_text(
            answer.note,
        ) == Some(
            "TypeDB 3.x semantic graph is configured, but the live driver adapter is not wired in this build."@,
        ),
        !config.enabled ==> answer.status == CausalGraphStatus::Disabled && optional_text(
            answer.note,
        ) == Some(
            "TypeDB semantic graph is disabled; SQLite and memory retrieval remain authoritative."@,
        ),
        CONNECTED_NOTE@
            == "TypeDB connected; typed query path not yet implemented (Task 3 placeholder)"@,
{
}

/// An answer without hits has the question, the status and the note.
pub proof fn law_empty_answer(
    answer: CausalGraphQueryResult,
    config: CausalGraphConfig,
    query: CausalGraphQuery,
    status: CausalGraphStatus,
    note: Seq<char>,
)
    requires
        empty_answer(answer, config, query, status, note),
    ensures
        answer.status == status,
        answer.backend == config.backend,
        answer.database@ == config.database@,
        answer.query@ == query.question@,
        answer.hits@.len() == 0,
        optional_text(answer.note) == Some(note),
{
}

/// The schema is there where a row was found; a refused query means that it is
/// not; and everything else is an error.
pub proof fn law_probe(cause: String, count: usize)
    ensures
        probe_result(ProbeOutcome::Refused) == Ok::<bool, Seq<char>>(false),
        count == 0 ==> probe_result(ProbeOutcome::Rows(count)) == Ok::<bool, Seq<char>>(false),
        count >= 1 ==> probe_result(ProbeOutcome::Rows(count)) == Ok::<bool, Seq<char>>(true),
        probe_result(ProbeOutcome::NotOpened(cause)) == Err::<bool, Seq<char>>(
            "opening TypeDB read transaction for schema presence check: "@ + cause@,
        ),
        probe_result(ProbeOutcome::RowFailed(cause)) == Err::<bool, Seq<char>>(
            "reading schema presence check row: "@ + cause@,
        ),
        SCHEMA_PRESENCE_CHECK_TQL@ == "match $e sub episode; select $e; limit 1;"@,
        CONNECT_TIMEOUT_SECONDS == 10,
{
}

/// A database that is found is probed, one that is not is created and gets the
/// schema, one without the schema gets it, and with the schema it is connected.
pub proof fn law_stages(config: CausalGraphConfig, repair: bool)
    ensures
        after_stage(config, ConnectStage::Open, StageOutcome::Yes) == Ok::<ConnectStage, Seq<char>>(
            ConnectStage::Find,
        ),
        after_stage(config, ConnectStage::Find, StageOutcome::Yes) == Ok::<ConnectStage, Seq<char>>(
            ConnectStage::Probe,
        ),
        after_stage(config, ConnectStage::Find, StageOutcome::No) == Ok::<ConnectStage, Seq<char>>(
            ConnectStage::Create,
        ),
        after_stage(config, ConnectStage::Create, StageOutcome::Yes) == Ok::<
            ConnectStage,
            Seq<char>,
        >(ConnectStage::Deploy { repair: false }),
        after_stage(config, ConnectStage::Probe, StageOutcome::Yes) == Ok::<
            ConnectStage,
            Seq<char>,
        >(ConnectStage::Connected { deployed: false }),
        after_stage(config, ConnectStage::Probe, StageOutcome::No) == Ok::<
            ConnectStage,
            Seq<char>,
        >(ConnectStage::Deploy { repair: true }),
        after_stage(config, ConnectStage::Deploy { repair }, StageOutcome::Yes) == Ok::<
            ConnectStage,
            Seq<char>,
        >(ConnectStage::Connected { deployed: true }),
{
}

/// A stage that fails ends connecting, with what was being done and the cause.
pub proof fn law_failed_stage(config: CausalGraphConfig, cause: String, repair: bool)
    ensures
        after_stage(config, ConnectStage::Open, StageOutcome::Failed(cause)) == Err::<
            ConnectStage,
            Seq<char>,
        >("connecting to TypeDB at "@ + config.url@ + ": "@ + cause@),
        after_stage(config, ConnectStage::Find, StageOutcome::Failed(cause)) == Err::<
            ConnectStage,
            Seq<char>,
        >("checking TypeDB database '"@ + config.database@ + "': "@ + cause@),
        after_stage(config, ConnectStage::Create, StageOutcome::Failed(cause)) == Err::<
            ConnectStage,
            Seq<char>,
        >("creating TypeDB database '"@ + config.database@ + "': "@ + cause@),
        after_stage(config, ConnectStage::Probe, StageOutcome::Failed(cause)) == Err::<
            ConnectStage,
            Seq<char>,
        >(cause@),
        after_stage(config, ConnectStage::Deploy { repair }, StageOutcome::Failed(cause)) == Err::<
            ConnectStage,
            Seq<char>,
        >(cause@),
{
}

/// An address that is no use is reported with every error of the chain, and
/// where connecting did not succeed, the fallback is.
pub proof fn law_connection_wordings(
    config: CausalGraphConfig,
    error: Seq<char>,
    behind: Seq<char>,
    cause: String,
)
    ensures
        address_wording(config, error, None) == "parsing TypeDB address '"@ + config.url@ + "': "@
            + error,
        address_wording(config, error, Some(behind)) == "parsing TypeDB address '"@ + config.url@
            + "': "@ + error + ": "@ + behind,
        fallback_warning(ConnectOutcome::Connected) is None,
        fallback_warning(ConnectOutcome::Failed(cause)) == Some(
            "TypeDB causal graph unavailable ("@ + cause@
                + "); falling back to SQLite/memory retrieval"@,
        ),
        fallback_warning(ConnectOutcome::TimedOut) == Some(
            "TypeDB causal graph connect timed out after 10s; falling back to SQLite/memory retrieval"@,
        ),
{
}

} // verus!
