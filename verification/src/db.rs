//! What is kept in the state database: which statements are carried out with
//! which values, and what the rows that come back mean.
//!
//! A statement is text with numbered places for values. The statements that
//! belong together are carried out in one transaction.

use vstd::prelude::*;
use vstd::string::*;

use crate::causal_graph::{
    summarized, CausalGraphBackend, CausalGraphConfig, CausalGraphProjectionRecord,
    CausalGraphProjectionSummary, Moment,
};
use crate::outside::{
    json_document, json_list, json_object, json_pairs, moment_at, read_json_document,
    read_json_pairs, read_rfc3339, rfc3339, rfc3339_moment, sha256, sha256_digest,
    write_json_list, write_json_object, write_rfc3339, written_year,
};
use crate::pairs::{law_merge_keeps_order, merge_pairs, merged, ordered_keys, pair_texts};
use crate::text::{blank, is_blank, optional_text, same, string_of, texts, trim, trimmed};

verus! {

// ---------------------------------------------------------------------------
// Statements
// ---------------------------------------------------------------------------

/// A value for a place in a statement.
#[derive(Debug, Clone, PartialEq, Eq)]
pub enum SqlValue {
    Text(String),
    MaybeText(Option<String>),
    Integer(i64),
}

/// What a `SqlValue` holds.
pub enum ValueModel {
    Text(Seq<char>),
    MaybeText(Option<Seq<char>>),
    Integer(int),
}

impl View for SqlValue {
    type V = ValueModel;

    open spec fn view(&self) -> ValueModel {
        match *self {
            SqlValue::Text(text) => ValueModel::Text(text@),
            SqlValue::MaybeText(text) => ValueModel::MaybeText(optional_text(text)),
            SqlValue::Integer(number) => ValueModel::Integer(number as int),
        }
    }
}

/// What a list of values holds.
pub open spec fn value_models(values: Seq<SqlValue>) -> Seq<ValueModel> {
    values.map_values(|v: SqlValue| v@)
}

/// A statement with its values.
#[derive(Debug, Clone, PartialEq, Eq)]
pub struct Statement {
    pub sql: &'static str,
    pub values: Vec<SqlValue>,
}

/// What a `Statement` holds.
pub struct StatementModel {
    pub sql: Seq<char>,
    pub values: Seq<ValueModel>,
}

impl View for Statement {
    type V = StatementModel;

    open spec fn view(&self) -> StatementModel {
        StatementModel { sql: self.sql@, values: value_models(self.values@) }
    }
}

/// What a list of statements holds.
pub open spec fn statement_models(statements: Seq<Statement>) -> Seq<StatementModel> {
    statements.map_values(|s: Statement| s@)
}

/// Why a value cannot be written or a row cannot be read. `T` is the type of
/// text.
#[derive(Debug, Clone, PartialEq, Eq)]
pub enum DbFault<T> {
    /// A value could not be written as JSON.
    WriteJson { cause: T },
    /// A moment lies outside the calendar.
    WriteMoment,
    /// A text is no JSON document.
    ReadJson { cause: T },
    /// A text is no moment.
    ReadMoment { cause: T },
}

/// Why a value cannot be written or a row cannot be read.
pub type DbError = DbFault<String>;

/// What a `DbError` holds.
pub type DbFaultModel = DbFault<Seq<char>>;

impl View for DbFault<String> {
    type V = DbFaultModel;

    open spec fn view(&self) -> DbFaultModel {
        match *self {
            DbFault::WriteJson { cause } => DbFault::WriteJson { cause: cause@ },
            DbFault::WriteMoment => DbFault::WriteMoment,
            DbFault::ReadJson { cause } => DbFault::ReadJson { cause: cause@ },
            DbFault::ReadMoment { cause } => DbFault::ReadMoment { cause: cause@ },
        }
    }
}

/// The wording of a fault.
pub open spec fn db_message(fault: DbFaultModel) -> Seq<char> {
    match fault {
        DbFault::WriteJson { cause } => cause,
        DbFault::WriteMoment => "the moment lies outside the calendar"@,
        DbFault::ReadJson { cause } => cause,
        DbFault::ReadMoment { cause } => cause,
    }
}

impl DbFault<String> {
    /// The wording of this fault.
    pub fn message(&self) -> (out: String)
        ensures
            out@ == db_message(self@),
    {
        match self {
            DbFault::WriteJson { cause } => cause.clone(),
            DbFault::WriteMoment => String::from_str("the moment lies outside the calendar"),
            DbFault::ReadJson { cause } => cause.clone(),
            DbFault::ReadMoment { cause } => cause.clone(),
        }
    }
}

/// What a statement, or why there is none, holds.
pub open spec fn statement_outcome(outcome: Result<Statement, DbError>) -> Result<
    StatementModel,
    DbFaultModel,
> {
    match outcome {
        Ok(statement) => Ok(statement@),
        Err(error) => Err(error@),
    }
}

/// What some statements, or why there are none, hold.
pub open spec fn statements_outcome(outcome: Result<Vec<Statement>, DbError>) -> Result<
    Seq<StatementModel>,
    DbFaultModel,
> {
    match outcome {
        Ok(statements) => Ok(statement_models(statements@)),
        Err(error) => Err(error@),
    }
}

fn text_value(text: &String) -> (out: SqlValue)
    ensures
        out@ == ValueModel::Text(text@),
{
    SqlValue::Text(text.clone())
}

fn maybe_value(text: &Option<String>) -> (out: SqlValue)
    ensures
        out@ == ValueModel::MaybeText(optional_text(*text)),
{
    match text {
        Some(text) => SqlValue::MaybeText(Some(text.clone())),
        None => SqlValue::MaybeText(None),
    }
}

// ---------------------------------------------------------------------------
// Leases
// ---------------------------------------------------------------------------

/// Takes every lease away.
pub const DELETE_LEASES: &'static str = "DELETE FROM coordination_leases";

/// Adds a lease.
pub const INSERT_LEASE: &'static str = "\
INSERT INTO coordination_leases (
    agent, task, files_json, claimed_at, last_heartbeat_at, status, \
    resource_kind, ttl_secs, guardrails_json, expires_at, updated_at
)
VALUES (?1, ?2, ?3, ?4, ?5, ?6, ?7, ?8, ?9, ?10, ?11)";

/// What an agent has claimed.
#[derive(Debug, Clone, PartialEq, Eq)]
pub struct Assignment {
    pub agent: String,
    pub task: String,
    pub files: Vec<String>,
    pub claimed_at: String,
    pub last_heartbeat_at: String,
    pub status: String,
    pub resource_kind: String,
    pub ttl_secs: i64,
    pub guardrails: Vec<String>,
    pub expires_at: String,
}

/// Everything that is claimed.
#[derive(Debug, Clone, PartialEq, Eq)]
pub struct AssignmentsState {
    pub active: Vec<Assignment>,
    pub updated_at: String,
}

/// The statement that adds a lease, given its files and guardrails as JSON.
pub open spec fn lease_row(
    assignment: Assignment,
    files: Seq<char>,
    guardrails: Seq<char>,
    updated_at: Seq<char>,
) -> StatementModel {
    StatementModel {
        sql: INSERT_LEASE@,
        values: seq![
            ValueModel::Text(assignment.agent@),
            ValueModel::Text(assignment.task@),
            ValueModel::Text(files),
            ValueModel::Text(assignment.claimed_at@),
            ValueModel::Text(assignment.last_heartbeat_at@),
            ValueModel::Text(assignment.status@),
            ValueModel::Text(assignment.resource_kind@),
            ValueModel::Integer(assignment.ttl_secs as int),
            ValueModel::Text(guardrails),
            ValueModel::Text(assignment.expires_at@),
            ValueModel::Text(updated_at),
        ],
    }
}

/// The statement that adds a lease, or why it cannot be written. The files are
/// written before the guardrails.
pub open spec fn lease_statement(assignment: Assignment, updated_at: Seq<char>) -> Result<
    StatementModel,
    DbFaultModel,
> {
    match json_list(texts(assignment.files@)) {
        Err(cause) => Err(DbFault::WriteJson { cause }),
        Ok(files) => match json_list(texts(assignment.guardrails@)) {
            Err(cause) => Err(DbFault::WriteJson { cause }),
            Ok(guardrails) => Ok(lease_row(assignment, files, guardrails, updated_at)),
        },
    }
}

/// The statements after `statements` and one more, or why there are none.
pub open spec fn with_statement(
    statements: Result<Seq<StatementModel>, DbFaultModel>,
    more: Result<StatementModel, DbFaultModel>,
) -> Result<Seq<StatementModel>, DbFaultModel> {
    match statements {
        Err(fault) => Err(fault),
        Ok(list) => match more {
            Err(fault) => Err(fault),
            Ok(statement) => Ok(list.push(statement)),
        },
    }
}

/// The statements that put exactly these leases in place of all others.
pub open spec fn lease_statements(active: Seq<Assignment>, updated_at: Seq<char>) -> Result<
    Seq<StatementModel>,
    DbFaultModel,
>
    decreases active.len(),
{
    if active.len() == 0 {
        Ok(seq![StatementModel { sql: DELETE_LEASES@, values: Seq::empty() }])
    } else {
        with_statement(
            lease_statements(active.drop_last(), updated_at),
            lease_statement(active.last(), updated_at),
        )
    }
}

/// The statement that adds a lease, given its files and guardrails as JSON.
pub fn insert_lease_row(
    assignment: &Assignment,
    files: String,
    guardrails: String,
    updated_at: &str,
) -> (out: Statement)
    ensures
        out@ == lease_row(*assignment, files@, guardrails@, updated_at@),
{
    let values = vec![
        text_value(&assignment.agent),
        text_value(&assignment.task),
        SqlValue::Text(files),
        text_value(&assignment.claimed_at),
        text_value(&assignment.last_heartbeat_at),
        text_value(&assignment.status),
        text_value(&assignment.resource_kind),
        SqlValue::Integer(assignment.ttl_secs),
        SqlValue::Text(guardrails),
        text_value(&assignment.expires_at),
        SqlValue::Text(String::from_str(updated_at)),
    ];
    let out = Statement { sql: INSERT_LEASE, values };
    assert(out@.values =~= lease_row(*assignment, files@, guardrails@, updated_at@).values);
    out
}

fn insert_lease(assignment: &Assignment, updated_at: &String) -> (out: Result<Statement, DbError>)
    ensures
        out is Ok,
        statement_outcome(out) == lease_statement(*assignment, updated_at@),
{
    let files = match write_json_list(&assignment.files) {
        Ok(text) => text,
        Err(cause) => {
            return Err(DbFault::WriteJson { cause });
        },
    };
    let guardrails = match write_json_list(&assignment.guardrails) {
        Ok(text) => text,
        Err(cause) => {
            return Err(DbFault::WriteJson { cause });
        },
    };
    Ok(insert_lease_row(assignment, files, guardrails, updated_at.as_str()))
}

/// The statements that put exactly the leases of `state` in place of all others.
/// They belong into one transaction.
pub fn sync_coordination_leases(state: &AssignmentsState) -> (out: Result<
    Vec<Statement>,
    DbError,
>)
    ensures
        out is Ok,
        statements_outcome(out) == lease_statements(state.active@, state.updated_at@),
{
    let ghost all = state.active@;
    let mut out: Vec<Statement> = Vec::new();
    let values: Vec<SqlValue> = Vec::new();
    out.push(Statement { sql: DELETE_LEASES, values });
    assert(all.take(0) =~= Seq::empty());
    assert(value_models(values@) =~= Seq::empty());
    assert(statement_models(out@) =~= lease_statements(all.take(0), state.updated_at@)->Ok_0);
    for i in 0..state.active.len()
        invariant
            all == state.active@,
            lease_statements(all.take(i as int), state.updated_at@) == Ok::<
                Seq<StatementModel>,
                DbFaultModel,
            >(statement_models(out@)),
    {
        assert(all.take(i + 1).drop_last() =~= all.take(i as int));
        assert(all.take(i + 1).last() == all[i as int]);
        match insert_lease(&state.active[i], &state.updated_at) {
            Ok(statement) => {
                let ghost before = out@;
                out.push(statement);
                assert(statement_models(out@) =~= statement_models(before).push(statement@));
            },
            Err(error) => {
                return Err(error);
            },
        }
    }
    assert(all.take(all.len() as int) =~= all);
    Ok(out)
}

// ---------------------------------------------------------------------------
// The state of agents
// ---------------------------------------------------------------------------

/// Fills in an agent from its profile. What it remembers and when it was last
/// active stay.
pub const UPSERT_PROFILED_AGENT: &'static str = "\
INSERT INTO agent_state (
    agent_name, agent_role, llm_provider, llm_model, memory_block_ids, \
    behavior_contract_hash, updated_at
)
VALUES (?1, ?2, ?3, ?4, '{}', ?5, ?6)
ON CONFLICT(agent_name) DO UPDATE SET
    agent_role = excluded.agent_role,
    llm_provider = excluded.llm_provider,
    llm_model = excluded.llm_model,
    behavior_contract_hash = excluded.behavior_contract_hash,
    updated_at = excluded.updated_at";

/// Notes that an agent was active. An unknown provider does not displace a known
/// one.
pub const UPSERT_ACTIVE_AGENT: &'static str = "\
INSERT INTO agent_state (
    agent_name, agent_role, llm_provider, llm_model, memory_block_ids, \
    last_active_run, updated_at
)
VALUES (?1, ?2, ?3, '', '{}', ?4, ?5)
ON CONFLICT(agent_name) DO UPDATE SET
    llm_provider = CASE
        WHEN excluded.llm_provider = 'unknown' THEN agent_state.llm_provider
        ELSE excluded.llm_provider
    END,
    last_active_run = excluded.last_active_run,
    updated_at = excluded.updated_at";

/// Notes why an agent stopped.
pub const UPDATE_STOP_REASON: &'static str = "\
UPDATE agent_state
SET last_stop_reason = ?2,
    updated_at = ?3
WHERE agent_name = ?1";

/// Keeps what an agent remembers.
pub const UPSERT_MEMORY_BLOCKS: &'static str = "\
INSERT INTO agent_state (
    agent_name, agent_role, llm_provider, llm_model, memory_block_ids, updated_at
)
VALUES (?1, ?1, 'unknown', 'unknown', ?2, ?3)
ON CONFLICT(agent_name) DO UPDATE SET
    memory_block_ids = excluded.memory_block_ids,
    updated_at = excluded.updated_at";

/// Every agent, by name.
pub const SELECT_AGENTS: &'static str = "\
SELECT agent_name, agent_role, llm_provider, llm_model, memory_block_ids, \
       last_stop_reason, last_active_run, behavior_contract_hash, updated_at
FROM agent_state
ORDER BY agent_name";

/// One agent.
pub const SELECT_AGENT: &'static str = "\
SELECT agent_name, agent_role, llm_provider, llm_model, memory_block_ids, \
       last_stop_reason, last_active_run, behavior_contract_hash, updated_at
FROM agent_state
WHERE agent_name = ?1";

/// What an agent's profile says. The model of its provider is `None` where the
/// provider is not set up, and its contract where it has none.
#[derive(Debug, Clone, PartialEq, Eq)]
pub struct AgentProfile {
    pub name: String,
    pub role: String,
    pub model_override: Option<String>,
    pub provider_name: String,
    pub provider_model: Option<String>,
    pub contract: Option<Vec<u8>>,
}

/// The model that an agent uses: its own choice, else that of its provider.
pub open spec fn resolved_model(profile: AgentProfile) -> Seq<char> {
    match profile.model_override {
        Some(model) => model@,
        None => match profile.provider_model {
            Some(model) => model@,
            None => "unresolved"@,
        },
    }
}

/// The statement that fills an agent in from its profile.
pub open spec fn profile_statement(profile: AgentProfile, now: Seq<char>) -> StatementModel {
    profile_row(profile, contract_hash(profile.contract), now)
}

/// The statement that fills an agent in from its profile, given what its
/// contract is known by.
pub open spec fn profile_row(
    profile: AgentProfile,
    hash: Option<Seq<char>>,
    now: Seq<char>,
) -> StatementModel {
    StatementModel {
        sql: UPSERT_PROFILED_AGENT@,
        values: seq![
            ValueModel::Text(profile.name@),
            ValueModel::Text(profile.role@),
            ValueModel::Text(profile.provider_name@),
            ValueModel::Text(resolved_model(profile)),
            ValueModel::MaybeText(hash),
            ValueModel::Text(now),
        ],
    }
}

/// The statement that fills an agent in from its profile, given what its
/// contract is known by.
pub fn upsert_profiled_agent(profile: &AgentProfile, hash: Option<String>, now: &str) -> (out:
    Statement)
    ensures
        out@ == profile_row(*profile, optional_text(hash), now@),
{
    let model = match &profile.model_override {
        Some(model) => model.clone(),
        None => match &profile.provider_model {
            Some(model) => model.clone(),
            None => String::from_str("unresolved"),
        },
    };
    let values = vec![
        text_value(&profile.name),
        text_value(&profile.role),
        text_value(&profile.provider_name),
        SqlValue::Text(model),
        SqlValue::MaybeText(hash),
        SqlValue::Text(String::from_str(now)),
    ];
    let out = Statement { sql: UPSERT_PROFILED_AGENT, values };
    assert(out@.values =~= profile_row(*profile, optional_text(hash), now@).values);
    out
}

/// The statements that fill the agents in from their profiles.
pub open spec fn profile_statements(profiles: Seq<AgentProfile>, now: Seq<char>) -> Seq<
    StatementModel,
> {
    profiles.map_values(|p: AgentProfile| profile_statement(p, now))
}

/// The statements that fill the agents in from their profiles.
pub fn seed_agent_state_from_profiles(profiles: &Vec<AgentProfile>, now: &str) -> (out: Vec<
    Statement,
>)
    ensures
        statement_models(out@) == profile_statements(profiles@, now@),
{
    let ghost all = profile_statements(profiles@, now@);
    let mut out: Vec<Statement> = Vec::new();
    assert(statement_models(out@) =~= all.take(0));
    for i in 0..profiles.len()
        invariant
            all == profile_statements(profiles@, now@),
            statement_models(out@) == all.take(i as int),
    {
        let hash = agent_contract_hash(&profiles[i].contract);
        let statement = upsert_profiled_agent(&profiles[i], hash, now);
        let ghost before = out@;
        out.push(statement);
        assert(statement_models(out@) =~= statement_models(before).push(statement@));
        assert(statement_models(out@) =~= all.take(i + 1));
    }
    assert(all.take(all.len() as int) =~= all);
    out
}

/// What is known of an agent that takes part in a run.
#[derive(Debug, Clone, PartialEq, Eq)]
pub struct AgentRuntimeState {
    pub runtime_id: String,
    pub canonical_role: String,
    pub display_name: String,
    pub ownership: String,
    pub status: String,
    pub provider: Option<String>,
    pub surface: Option<String>,
    pub thread_id: Option<String>,
    pub source: String,
    pub last_heartbeat_at: String,
}

/// When an agent was last heard of, or `now` where that is not known.
pub open spec fn heard_at(heartbeat: Seq<char>, now: Seq<char>) -> Seq<char> {
    if blank(heartbeat) {
        now
    } else {
        heartbeat
    }
}

/// The provider of an agent, or `unknown`.
pub open spec fn known_provider(provider: Option<Seq<char>>) -> Seq<char> {
    match provider {
        Some(name) => if blank(name) {
            "unknown"@
        } else {
            name
        },
        None => "unknown"@,
    }
}

/// The statement that notes an agent's activity. An agent without a role is not
/// noted.
pub open spec fn activity_statement(
    run_id: Seq<char>,
    runtime: AgentRuntimeState,
    now: Seq<char>,
) -> Option<StatementModel> {
    let name = trimmed(runtime.canonical_role@);
    if name.len() == 0 {
        None
    } else {
        Some(
            StatementModel {
                sql: UPSERT_ACTIVE_AGENT@,
                values: seq![
                    ValueModel::Text(name),
                    ValueModel::Text(name),
                    ValueModel::Text(known_provider(optional_text(runtime.provider))),
                    ValueModel::Text(run_id),
                    ValueModel::Text(heard_at(runtime.last_heartbeat_at@, now)),
                ],
            },
        )
    }
}

/// What a statement that may be missing holds.
pub open spec fn optional_statement(statement: Option<Statement>) -> Option<StatementModel> {
    match statement {
        Some(statement) => Some(statement@),
        None => None,
    }
}

fn heard_at_text(heartbeat: &String, now: &str) -> (out: String)
    ensures
        out@ == heard_at(heartbeat@, now@),
{
    if is_blank(heartbeat.as_str()) {
        String::from_str(now)
    } else {
        heartbeat.clone()
    }
}

fn known_provider_text(provider: &Option<String>) -> (out: String)
    ensures
        out@ == known_provider(optional_text(*provider)),
{
    match provider {
        Some(name) => if is_blank(name.as_str()) {
            String::from_str("unknown")
        } else {
            name.clone()
        },
        None => String::from_str("unknown"),
    }
}

/// The statement that notes an agent's activity, where it has a role.
pub fn upsert_agent_state_from_runtime(
    run_id: &str,
    runtime: &AgentRuntimeState,
    now: &str,
) -> (out: Option<Statement>)
    ensures
        optional_statement(out) == activity_statement(run_id@, *runtime, now@),
{
    let name = trim(runtime.canonical_role.as_str());
    if name.is_empty() {
        return None;
    }
    let values = vec![
        SqlValue::Text(String::from_str(name)),
        SqlValue::Text(String::from_str(name)),
        SqlValue::Text(known_provider_text(&runtime.provider)),
        SqlValue::Text(String::from_str(run_id)),
        SqlValue::Text(heard_at_text(&runtime.last_heartbeat_at, now)),
    ];
    let out = Statement { sql: UPSERT_ACTIVE_AGENT, values };
    assert(out@.values =~= activity_statement(run_id@, *runtime, now@)->Some_0.values);
    Some(out)
}

/// The statement that notes why an agent stopped.
pub fn record_agent_stop_reason(agent_name: &str, stop_reason: &str, now: &str) -> (out: Statement)
    ensures
        out@ == (StatementModel {
            sql: UPDATE_STOP_REASON@,
            values: seq![
                ValueModel::Text(agent_name@),
                ValueModel::Text(stop_reason@),
                ValueModel::Text(now@),
            ],
        }),
{
    let values = vec![
        SqlValue::Text(String::from_str(agent_name)),
        SqlValue::Text(String::from_str(stop_reason)),
        SqlValue::Text(String::from_str(now)),
    ];
    let out = Statement { sql: UPDATE_STOP_REASON, values };
    assert(out@.values =~= seq![
        ValueModel::Text(agent_name@),
        ValueModel::Text(stop_reason@),
        ValueModel::Text(now@),
    ]);
    out
}

/// The state of an agent. What it remembers is kept in the order of the keys.
#[derive(Debug, Clone, PartialEq, Eq)]
pub struct AgentState {
    pub agent_name: String,
    pub agent_role: String,
    pub llm_provider: String,
    pub llm_model: String,
    pub memory_block_ids: Vec<(String, String)>,
    pub last_stop_reason: Option<String>,
    pub last_active_run: Option<String>,
    pub behavior_contract_hash: Option<String>,
    pub updated_at: String,
}

impl AgentState {
    /// What an agent remembers is in the order of its keys, none of them twice.
    pub open spec fn well_formed(self) -> bool {
        ordered_keys(pair_texts(self.memory_block_ids@))
    }
}

/// A row with the state of an agent.
#[derive(Debug, Clone, PartialEq, Eq)]
pub struct AgentStateRow {
    pub agent_name: String,
    pub agent_role: String,
    pub llm_provider: String,
    pub llm_model: String,
    pub memory_block_ids: String,
    pub last_stop_reason: Option<String>,
    pub last_active_run: Option<String>,
    pub behavior_contract_hash: Option<String>,
    pub updated_at: String,
}

/// What a row says that an agent remembers: nothing, where it cannot be read.
pub open spec fn remembered(text: Seq<char>) -> Seq<(Seq<char>, Seq<char>)> {
    match json_pairs(text) {
        Some(pairs) => pairs,
        None => Seq::empty(),
    }
}

/// Whether `state` is what `row` holds, with `blocks` for what the agent
/// remembers.
pub open spec fn state_of_row(
    state: AgentState,
    row: AgentStateRow,
    blocks: Seq<(Seq<char>, Seq<char>)>,
) -> bool {
    &&& state.agent_name == row.agent_name
    &&& state.agent_role == row.agent_role
    &&& state.llm_provider == row.llm_provider
    &&& state.llm_model == row.llm_model
    &&& pair_texts(state.memory_block_ids@) == blocks
    &&& state.last_stop_reason == row.last_stop_reason
    &&& state.last_active_run == row.last_active_run
    &&& state.behavior_contract_hash == row.behavior_contract_hash
    &&& state.updated_at == row.updated_at
}

/// The state of an agent that a row holds, given what the agent remembers.
pub fn agent_state_with_blocks(row: AgentStateRow, memory_block_ids: Vec<(String, String)>) -> (out:
    AgentState)
    requires
        ordered_keys(pair_texts(memory_block_ids@)),
    ensures
        state_of_row(out, row, pair_texts(memory_block_ids@)),
        out.well_formed(),
{
    AgentState {
        agent_name: row.agent_name,
        agent_role: row.agent_role,
        llm_provider: row.llm_provider,
        llm_model: row.llm_model,
        memory_block_ids,
        last_stop_reason: row.last_stop_reason,
        last_active_run: row.last_active_run,
        behavior_contract_hash: row.behavior_contract_hash,
        updated_at: row.updated_at,
    }
}

/// The state of an agent that a row holds.
pub fn agent_state_from_row(row: AgentStateRow) -> (out: AgentState)
    ensures
        state_of_row(out, row, remembered(row.memory_block_ids@)),
        out.well_formed(),
{
    let memory_block_ids: Vec<(String, String)> = match read_json_pairs(
        row.memory_block_ids.as_str(),
    ) {
        Some(pairs) => pairs,
        None => Vec::new(),
    };
    assert(json_pairs(row.memory_block_ids@) is None ==> pair_texts(memory_block_ids@)
        =~= Seq::empty());
    agent_state_with_blocks(row, memory_block_ids)
}

/// The statement that keeps what an agent remembers, given that as JSON.
pub open spec fn memory_row(
    agent_name: Seq<char>,
    payload: Seq<char>,
    now: Seq<char>,
) -> StatementModel {
    StatementModel {
        sql: UPSERT_MEMORY_BLOCKS@,
        values: seq![
            ValueModel::Text(agent_name),
            ValueModel::Text(payload),
            ValueModel::Text(now),
        ],
    }
}

/// The statement that keeps what an agent remembers, given that as JSON.
pub fn upsert_memory_blocks(agent_name: &str, payload: String, now: &str) -> (out: Statement)
    ensures
        out@ == memory_row(agent_name@, payload@, now@),
{
    let values = vec![
        SqlValue::Text(String::from_str(agent_name)),
        SqlValue::Text(payload),
        SqlValue::Text(String::from_str(now)),
    ];
    let out = Statement { sql: UPSERT_MEMORY_BLOCKS, values };
    assert(out@.values =~= memory_row(agent_name@, payload@, now@).values);
    out
}

/// The statement that keeps what an agent remembers, where there is something
/// new: what it remembered with the new put in.
pub open spec fn memory_statement(
    agent_name: Seq<char>,
    known: Seq<(Seq<char>, Seq<char>)>,
    block_ids: Seq<(Seq<char>, Seq<char>)>,
    now: Seq<char>,
) -> Result<Option<StatementModel>, DbFaultModel> {
    if block_ids.len() == 0 {
        Ok(None)
    } else {
        match json_object(merged(known, block_ids)) {
            Err(cause) => Err(DbFault::WriteJson { cause }),
            Ok(payload) => Ok(Some(memory_row(agent_name, payload, now))),
        }
    }
}

/// What a statement that may be missing, or why it cannot be written, holds.
pub open spec fn optional_statement_outcome(outcome: Result<Option<Statement>, DbError>) -> Result<
    Option<StatementModel>,
    DbFaultModel,
> {
    match outcome {
        Ok(statement) => Ok(optional_statement(statement)),
        Err(error) => Err(error@),
    }
}

/// What is remembered in a state that may be missing.
pub open spec fn known_blocks(existing: Option<AgentState>) -> Seq<(Seq<char>, Seq<char>)> {
    match existing {
        Some(state) => pair_texts(state.memory_block_ids@),
        None => Seq::empty(),
    }
}

/// The statement that keeps what an agent remembers, given its state so far, if
/// it has one. What is new takes the place of what had the same key; where
/// nothing is new, nothing is to be done.
pub fn update_agent_memory_block_ids(
    agent_name: &str,
    existing: Option<AgentState>,
    block_ids: &Vec<(String, String)>,
    now: &str,
) -> (out: Result<Option<Statement>, DbError>)
    requires
        existing matches Some(state) ==> state.well_formed(),
    ensures
        out is Ok,
        optional_statement_outcome(out) == memory_statement(
            agent_name@,
            known_blocks(existing),
            pair_texts(block_ids@),
            now@,
        ),
        out matches Ok(Some(statement)) ==> statement@.values.len() == 3 && (
        statement@.values[1] matches ValueModel::Text(payload) && json_pairs(payload) == Some(
            merged(known_blocks(existing), pair_texts(block_ids@)),
        )),
{
    if block_ids.len() == 0 {
        return Ok(None);
    }
    let mut pairs: Vec<(String, String)> = match existing {
        Some(state) => state.memory_block_ids,
        None => Vec::new(),
    };
    assert(pair_texts(pairs@) =~= known_blocks(existing));
    proof {
        law_merge_keeps_order(known_blocks(existing), pair_texts(block_ids@));
    }
    merge_pairs(&mut pairs, block_ids);
    let payload = match write_json_object(&pairs) {
        Ok(text) => text,
        Err(cause) => {
            return Err(DbFault::WriteJson { cause });
        },
    };
    Ok(Some(upsert_memory_blocks(agent_name, payload, now)))
}

/// The query for every agent.
pub fn list_agent_state() -> (out: Statement)
    ensures
        out@ == (StatementModel { sql: SELECT_AGENTS@, values: Seq::empty() }),
{
    let values: Vec<SqlValue> = Vec::new();
    let out = Statement { sql: SELECT_AGENTS, values };
    assert(out@.values =~= Seq::empty());
    out
}

/// The query for one agent.
pub fn get_agent_state(agent_name: &str) -> (out: Statement)
    ensures
        out@ == (StatementModel {
            sql: SELECT_AGENT@,
            values: seq![ValueModel::Text(agent_name@)],
        }),
{
    let values = vec![SqlValue::Text(String::from_str(agent_name))];
    let out = Statement { sql: SELECT_AGENT, values };
    assert(out@.values =~= seq![ValueModel::Text(agent_name@)]);
    out
}

// ---------------------------------------------------------------------------
// Contracts of agents
// ---------------------------------------------------------------------------

/// The hexadecimal digit with this value, in lower case.
pub open spec fn hex_digit(value: int) -> char {
    if value < 10 {
        (('0' as int) + value) as char
    } else {
        (('a' as int) + value - 10) as char
    }
}

/// Bytes in hexadecimal digits, two for each.
pub open spec fn hex(bytes: Seq<u8>) -> Seq<char> {
    Seq::new(
        2 * bytes.len(),
        |i: int|
            if i % 2 == 0 {
                hex_digit(bytes[i / 2] as int / 16)
            } else {
                hex_digit(bytes[i / 2] as int % 16)
            },
    )
}

fn hex_digit_char(value: u8) -> (out: char)
    requires
        value < 16,
    ensures
        out == hex_digit(value as int),
{
    if value < 10 {
        (0x30u8 + value) as char
    } else {
        (0x61u8 + (value - 10)) as char
    }
}

/// Bytes in hexadecimal digits, two for each.
pub fn hex_text(bytes: &Vec<u8>) -> (out: String)
    ensures
        out@ == hex(bytes@),
{
    let mut out: Vec<char> = Vec::new();
    assert(out@ =~= hex(bytes@).take(0));
    for i in 0..bytes.len()
        invariant
            out@ == hex(bytes@).take(2 * i as int),
    {
        let byte = bytes[i];
        out.push(hex_digit_char(byte / 16));
        out.push(hex_digit_char(byte % 16));
        assert(out@ =~= hex(bytes@).take(2 * (i + 1)));
    }
    assert(hex(bytes@).take(2 * bytes@.len() as int) =~= hex(bytes@));
    string_of(out.as_slice())
}

/// The name of the file with an agent's contract.
pub fn contract_file_name(agent_name: &str) -> (out: String)
    ensures
        out@ == agent_name@ + ".yaml"@,
{
    String::from_str(agent_name).concat(".yaml")
}

/// What an agent's contract is known by: the digest of its text, in hexadecimal
/// digits. An agent without a contract has none.
pub open spec fn contract_hash(contract: Option<Vec<u8>>) -> Option<Seq<char>> {
    match contract {
        Some(bytes) => Some(hex(sha256(bytes@))),
        None => None,
    }
}

/// What an agent's contract is known by.
pub fn agent_contract_hash(contract: &Option<Vec<u8>>) -> (out: Option<String>)
    ensures
        optional_text(out) == contract_hash(*contract),
        out matches Some(text) ==> text@.len() == 64,
{
    match contract {
        Some(bytes) => {
            let digest = sha256_digest(bytes);
            Some(hex_text(&digest))
        },
        None => None,
    }
}

// ---------------------------------------------------------------------------
// Agents in a run
// ---------------------------------------------------------------------------

/// Takes the agents of a run away.
pub const DELETE_RUNTIMES: &'static str = "DELETE FROM agent_runtime_state WHERE run_id = ?1";

/// Adds an agent to a run.
pub const INSERT_RUNTIME: &'static str = "\
INSERT INTO agent_runtime_state (
    runtime_id, run_id, thread_id, canonical_role, display_name, ownership, status, \
    provider, surface, source, last_heartbeat_at, started_at, updated_at
)
VALUES (?1, ?2, ?3, ?4, ?5, ?6, ?7, ?8, ?9, ?10, ?11, ?12, ?13)";

/// The statement that adds an agent to a run.
pub open spec fn runtime_statement(
    run_id: Seq<char>,
    runtime: AgentRuntimeState,
    now: Seq<char>,
) -> StatementModel {
    StatementModel {
        sql: INSERT_RUNTIME@,
        values: seq![
            ValueModel::Text(runtime.runtime_id@),
            ValueModel::Text(run_id),
            ValueModel::MaybeText(optional_text(runtime.thread_id)),
            ValueModel::Text(runtime.canonical_role@),
            ValueModel::Text(runtime.display_name@),
            ValueModel::Text(runtime.ownership@),
            ValueModel::Text(runtime.status@),
            ValueModel::MaybeText(optional_text(runtime.provider)),
            ValueModel::MaybeText(optional_text(runtime.surface)),
            ValueModel::Text(runtime.source@),
            ValueModel::Text(runtime.last_heartbeat_at@),
            ValueModel::Text(heard_at(runtime.last_heartbeat_at@, now)),
            ValueModel::Text(runtime.last_heartbeat_at@),
        ],
    }
}

/// The statements that put exactly these agents in place of all others of the
/// run.
pub open spec fn runtime_statements(
    run_id: Seq<char>,
    runtimes: Seq<AgentRuntimeState>,
    now: Seq<char>,
) -> Seq<StatementModel> {
    seq![StatementModel { sql: DELETE_RUNTIMES@, values: seq![ValueModel::Text(run_id)] }]
        + runtimes.map_values(|r: AgentRuntimeState| runtime_statement(run_id, r, now))
}

/// The statements that note the activity of these agents.
pub open spec fn activity_statements(
    run_id: Seq<char>,
    runtimes: Seq<AgentRuntimeState>,
    now: Seq<char>,
) -> Seq<StatementModel>
    decreases runtimes.len(),
{
    if runtimes.len() == 0 {
        Seq::empty()
    } else {
        match activity_statement(run_id, runtimes.last(), now) {
            Some(statement) => activity_statements(run_id, runtimes.drop_last(), now).push(
                statement,
            ),
            None => activity_statements(run_id, runtimes.drop_last(), now),
        }
    }
}

fn insert_runtime(run_id: &str, runtime: &AgentRuntimeState, now: &str) -> (out: Statement)
    ensures
        out@ == runtime_statement(run_id@, *runtime, now@),
{
    let values = vec![
        text_value(&runtime.runtime_id),
        SqlValue::Text(String::from_str(run_id)),
        maybe_value(&runtime.thread_id),
        text_value(&runtime.canonical_role),
        text_value(&runtime.display_name),
        text_value(&runtime.ownership),
        text_value(&runtime.status),
        maybe_value(&runtime.provider),
        maybe_value(&runtime.surface),
        text_value(&runtime.source),
        text_value(&runtime.last_heartbeat_at),
        SqlValue::Text(heard_at_text(&runtime.last_heartbeat_at, now)),
        text_value(&runtime.last_heartbeat_at),
    ];
    let out = Statement { sql: INSERT_RUNTIME, values };
    assert(out@.values =~= runtime_statement(run_id@, *runtime, now@).values);
    out
}

/// What is done to keep the agents of a run.
#[derive(Debug, Clone, PartialEq, Eq)]
pub struct RuntimeSync {
    /// Carried out in one transaction.
    pub transaction: Vec<Statement>,
    /// Carried out one by one after it.
    pub afterwards: Vec<Statement>,
}

/// What is done to keep the agents of a run: they are put in place of all others
/// of the run, and then the activity of each is noted.
pub fn sync_agent_runtime_state(
    run_id: &str,
    runtimes: &Vec<AgentRuntimeState>,
    now: &str,
) -> (out: RuntimeSync)
    ensures
        statement_models(out.transaction@) == runtime_statements(run_id@, runtimes@, now@),
        statement_models(out.afterwards@) == activity_statements(run_id@, runtimes@, now@),
{
    let ghost all = runtimes@;
    let mut transaction: Vec<Statement> = Vec::new();
    let mut afterwards: Vec<Statement> = Vec::new();
    let first = Statement {
        sql: DELETE_RUNTIMES,
        values: vec![SqlValue::Text(String::from_str(run_id))],
    };
    assert(first@.values =~= seq![ValueModel::Text(run_id@)]);
    transaction.push(first);
    assert(all.take(0) =~= Seq::empty());
    assert(statement_models(transaction@) =~= runtime_statements(run_id@, all.take(0), now@));
    assert(statement_models(afterwards@) =~= activity_statements(run_id@, all.take(0), now@));
    for i in 0..runtimes.len()
        invariant
            all == runtimes@,
            statement_models(transaction@) == runtime_statements(
                run_id@,
                all.take(i as int),
                now@,
            ),
            statement_models(afterwards@) == activity_statements(
                run_id@,
                all.take(i as int),
                now@,
            ),
    {
        assert(all.take(i + 1).drop_last() =~= all.take(i as int));
        assert(all.take(i + 1).last() == all[i as int]);
        let statement = insert_runtime(run_id, &runtimes[i], now);
        let ghost before = transaction@;
        transaction.push(statement);
        assert(statement_models(transaction@) =~= statement_models(before).push(statement@));
        assert(statement_models(transaction@) =~= runtime_statements(
            run_id@,
            all.take(i + 1),
            now@,
        ));
        match upsert_agent_state_from_runtime(run_id, &runtimes[i], now) {
            Some(statement) => {
                let ghost earlier = afterwards@;
                afterwards.push(statement);
                assert(statement_models(afterwards@) =~= statement_models(earlier).push(
                    statement@,
                ));
            },
            None => {},
        }
    }
    assert(all.take(all.len() as int) =~= all);
    RuntimeSync { transaction, afterwards }
}

// ---------------------------------------------------------------------------
// Policy events
// ---------------------------------------------------------------------------

/// Keeps a policy event, in place of one with the same id.
pub const INSERT_POLICY_EVENT: &'static str = "\
INSERT OR REPLACE INTO coordination_policy_events_db (
    event_id, managed_by, event_type, status, agent, conflicting_agent, files_json, \
    message, created_at
)
VALUES (?1, ?2, ?3, ?4, ?5, ?6, ?7, ?8, ?9)";

/// Something that the rules of coordination had to say.
#[derive(Debug, Clone, PartialEq, Eq)]
pub struct CoordinationPolicyEvent {
    pub event_id: String,
    pub managed_by: String,
    pub event_type: String,
    pub status: String,
    pub agent: Option<String>,
    pub conflicting_agent: Option<String>,
    pub files: Vec<String>,
    pub message: String,
    pub created_at: String,
}

/// The statement that keeps a policy event, given its files as JSON.
pub open spec fn policy_row(event: CoordinationPolicyEvent, files: Seq<char>) -> StatementModel {
    StatementModel {
        sql: INSERT_POLICY_EVENT@,
        values: seq![
            ValueModel::Text(event.event_id@),
            ValueModel::Text(event.managed_by@),
            ValueModel::Text(event.event_type@),
            ValueModel::Text(event.status@),
            ValueModel::MaybeText(optional_text(event.agent)),
            ValueModel::MaybeText(optional_text(event.conflicting_agent)),
            ValueModel::Text(files),
            ValueModel::Text(event.message@),
            ValueModel::Text(event.created_at@),
        ],
    }
}

/// The statement that keeps a policy event, or why it cannot be written.
pub open spec fn policy_statement(event: CoordinationPolicyEvent) -> Result<
    StatementModel,
    DbFaultModel,
> {
    match json_list(texts(event.files@)) {
        Err(cause) => Err(DbFault::WriteJson { cause }),
        Ok(files) => Ok(policy_row(event, files)),
    }
}

/// The statement that keeps a policy event, given its files as JSON.
pub fn insert_policy_row(event: &CoordinationPolicyEvent, files: String) -> (out: Statement)
    ensures
        out@ == policy_row(*event, files@),
{
    let values = vec![
        text_value(&event.event_id),
        text_value(&event.managed_by),
        text_value(&event.event_type),
        text_value(&event.status),
        maybe_value(&event.agent),
        maybe_value(&event.conflicting_agent),
        SqlValue::Text(files),
        text_value(&event.message),
        text_value(&event.created_at),
    ];
    let out = Statement { sql: INSERT_POLICY_EVENT, values };
    assert(out@.values =~= policy_row(*event, files@).values);
    out
}

/// The statement that keeps a policy event.
pub fn insert_coordination_policy_event(event: &CoordinationPolicyEvent) -> (out: Result<
    Statement,
    DbError,
>)
    ensures
        out is Ok,
        statement_outcome(out) == policy_statement(*event),
{
    let files = match write_json_list(&event.files) {
        Ok(text) => text,
        Err(cause) => {
            return Err(DbFault::WriteJson { cause });
        },
    };
    Ok(insert_policy_row(event, files))
}

// ---------------------------------------------------------------------------
// Projections of causal graphs
// ---------------------------------------------------------------------------

/// Keeps the projection of a run, in place of an earlier one.
pub const UPSERT_PROJECTION: &'static str = "\
INSERT INTO causal_graph_projections (
    run_id, backend, status, database_name, schema_path, graph_json, \
    episode_count, event_count, link_count, hypothesis_count, projected_at
)
VALUES (?1, ?2, ?3, ?4, ?5, ?6, ?7, ?8, ?9, ?10, ?11)
ON CONFLICT(run_id) DO UPDATE SET
    backend = excluded.backend,
    status = excluded.status,
    database_name = excluded.database_name,
    schema_path = excluded.schema_path,
    graph_json = excluded.graph_json,
    episode_count = excluded.episode_count,
    event_count = excluded.event_count,
    link_count = excluded.link_count,
    hypothesis_count = excluded.hypothesis_count,
    projected_at = excluded.projected_at";

/// The projection of a run.
pub const SELECT_PROJECTION: &'static str = "\
SELECT run_id, backend, status, database_name, schema_path, graph_json, \
       episode_count, event_count, link_count, hypothesis_count, projected_at
FROM causal_graph_projections
WHERE run_id = ?1";

/// The latest projections.
pub const SELECT_RECENT_PROJECTIONS: &'static str = "\
SELECT run_id, backend, status, database_name, schema_path, graph_json, \
       episode_count, event_count, link_count, hypothesis_count, projected_at
FROM causal_graph_projections
ORDER BY projected_at DESC
LIMIT ?1";

/// The latest projections of the runs of a spec.
pub const SELECT_SPEC_PROJECTIONS: &'static str = "\
SELECT p.run_id, p.backend, p.status, p.database_name, p.schema_path, p.graph_json, \
       p.episode_count, p.event_count, p.link_count, p.hypothesis_count, p.projected_at
FROM causal_graph_projections p
JOIN runs r ON r.run_id = p.run_id
WHERE r.spec_id = ?1
ORDER BY p.projected_at DESC
LIMIT ?2";

/// The number of projections.
pub const COUNT_PROJECTIONS: &'static str = "SELECT COUNT(*) FROM causal_graph_projections";

/// The name under which a backend is kept.
pub open spec fn backend_label(backend: CausalGraphBackend) -> Seq<char> {
    match backend {
        CausalGraphBackend::TypeDb3 => "typedb3"@,
        CausalGraphBackend::Disabled => "disabled"@,
    }
}

/// The backend that is kept under a name. A name that is not known stands for
/// none.
pub open spec fn labelled_backend(label: Seq<char>) -> CausalGraphBackend {
    if label == "type_db3"@ || label == "typedb3"@ {
        CausalGraphBackend::TypeDb3
    } else {
        CausalGraphBackend::Disabled
    }
}

/// The name under which a backend is kept.
pub fn causal_graph_backend_label(backend: &CausalGraphBackend) -> (out: &'static str)
    ensures
        out@ == backend_label(*backend),
{
    match backend {
        CausalGraphBackend::TypeDb3 => "typedb3",
        CausalGraphBackend::Disabled => "disabled",
    }
}

/// The backend that is kept under a name.
pub fn backend_from_label(label: &str) -> (out: CausalGraphBackend)
    ensures
        out == labelled_backend(label@),
{
    if same(label, "type_db3") || same(label, "typedb3") {
        CausalGraphBackend::TypeDb3
    } else {
        CausalGraphBackend::Disabled
    }
}

/// The causal graph of a run: how much there is in it, and the whole as the text
/// of a JSON document.
#[derive(Debug, Clone, PartialEq, Eq)]
pub struct RunCausalGraph {
    pub run_id: String,
    pub graph_json: String,
    pub episodes: usize,
    pub events: usize,
    pub links: usize,
    pub hypotheses: usize,
}

/// What is kept of a run's graph.
pub fn projection_record(
    graph: &RunCausalGraph,
    config: &CausalGraphConfig,
    projected_at: Moment,
) -> (out: CausalGraphProjectionRecord)
    ensures
        out.run_id == graph.run_id,
        out.backend == config.backend,
        out.status@ == "sqlite_projection"@,
        out.database == config.database,
        out.schema_path == config.schema_path,
        out.graph_json == graph.graph_json,
        out.episode_count == graph.episodes,
        out.event_count == graph.events,
        out.link_count == graph.links,
        out.hypothesis_count == graph.hypotheses,
        out.projected_at == projected_at,
{
    CausalGraphProjectionRecord {
        run_id: graph.run_id.clone(),
        backend: config.backend,
        status: String::from_str("sqlite_projection"),
        database: config.database.clone(),
        schema_path: config.schema_path.clone(),
        graph_json: graph.graph_json.clone(),
        episode_count: graph.episodes as u64,
        event_count: graph.events as u64,
        link_count: graph.links as u64,
        hypothesis_count: graph.hypotheses as u64,
        projected_at,
    }
}

/// The statement that keeps a projection, given its moment as text.
pub open spec fn projection_values(
    record: CausalGraphProjectionRecord,
    projected_at: Seq<char>,
) -> StatementModel {
    StatementModel {
        sql: UPSERT_PROJECTION@,
        values: seq![
            ValueModel::Text(record.run_id@),
            ValueModel::Text(backend_label(record.backend)),
            ValueModel::Text(record.status@),
            ValueModel::Text(record.database@),
            ValueModel::Text(record.schema_path@),
            ValueModel::Text(record.graph_json@),
            ValueModel::Integer(record.episode_count as i64 as int),
            ValueModel::Integer(record.event_count as i64 as int),
            ValueModel::Integer(record.link_count as i64 as int),
            ValueModel::Integer(record.hypothesis_count as i64 as int),
            ValueModel::Text(projected_at),
        ],
    }
}

/// The statement that keeps a projection, or why it cannot be written.
pub open spec fn projection_statement(record: CausalGraphProjectionRecord) -> Result<
    StatementModel,
    DbFaultModel,
> {
    match rfc3339(record.projected_at.seconds as int, record.projected_at.nanos as int) {
        None => Err(DbFault::WriteMoment),
        Some(projected_at) => Ok(projection_values(record, projected_at)),
    }
}

/// The statement that keeps a projection, given its moment as text.
pub fn upsert_projection_values(record: &CausalGraphProjectionRecord, projected_at: String) -> (out:
    Statement)
    ensures
        out@ == projection_values(*record, projected_at@),
{
    let values = vec![
        text_value(&record.run_id),
        SqlValue::Text(String::from_str(causal_graph_backend_label(&record.backend))),
        text_value(&record.status),
        text_value(&record.database),
        text_value(&record.schema_path),
        text_value(&record.graph_json),
        SqlValue::Integer(record.episode_count as i64),
        SqlValue::Integer(record.event_count as i64),
        SqlValue::Integer(record.link_count as i64),
        SqlValue::Integer(record.hypothesis_count as i64),
        SqlValue::Text(projected_at),
    ];
    let out = Statement { sql: UPSERT_PROJECTION, values };
    assert(out@.values =~= projection_values(*record, projected_at@).values);
    out
}

/// The statement that keeps a projection.
pub fn upsert_causal_graph_projection(record: &CausalGraphProjectionRecord) -> (out: Result<
    Statement,
    DbError,
>)
    ensures
        statement_outcome(out) == projection_statement(*record),
        written_year(
            record.projected_at.seconds as int,
            record.projected_at.nanos as int,
        ) ==> out is Ok && (out->Ok_0@.values[10] matches ValueModel::Text(text)
            && rfc3339_moment(text) == moment_at(
            record.projected_at.seconds as int,
            record.projected_at.nanos as int,
        )),
{
    match write_rfc3339(record.projected_at.seconds, record.projected_at.nanos) {
        Some(projected_at) => Ok(upsert_projection_values(record, projected_at)),
        None => Err(DbFault::WriteMoment),
    }
}

/// The query for the projection of a run.
pub fn get_causal_graph_projection(run_id: &str) -> (out: Statement)
    ensures
        out@ == (StatementModel {
            sql: SELECT_PROJECTION@,
            values: seq![ValueModel::Text(run_id@)],
        }),
{
    let values = vec![SqlValue::Text(String::from_str(run_id))];
    let out = Statement { sql: SELECT_PROJECTION, values };
    assert(out@.values =~= seq![ValueModel::Text(run_id@)]);
    out
}

/// How many rows are asked for: as many as wanted, and at least one.
pub open spec fn row_limit(limit: int) -> int {
    if limit < 1 {
        1
    } else {
        limit
    }
}

fn at_least_one(limit: i64) -> (out: i64)
    ensures
        out == row_limit(limit as int),
{
    if limit < 1 {
        1
    } else {
        limit
    }
}

/// The query for the latest projections.
pub fn list_recent_causal_graph_projections(limit: i64) -> (out: Statement)
    ensures
        out@ == (StatementModel {
            sql: SELECT_RECENT_PROJECTIONS@,
            values: seq![ValueModel::Integer(row_limit(limit as int))],
        }),
{
    let values = vec![SqlValue::Integer(at_least_one(limit))];
    let out = Statement { sql: SELECT_RECENT_PROJECTIONS, values };
    assert(out@.values =~= seq![ValueModel::Integer(row_limit(limit as int))]);
    out
}

/// The query for the latest projections, of which only the summaries are wanted.
pub fn list_causal_graph_projection_summaries(limit: i64) -> (out: Statement)
    ensures
        out@ == (StatementModel {
            sql: SELECT_RECENT_PROJECTIONS@,
            values: seq![ValueModel::Integer(row_limit(limit as int))],
        }),
{
    list_recent_causal_graph_projections(limit)
}

/// The query for the latest projections of the runs of a spec.
pub fn list_causal_graph_projections_for_spec(spec_id: &str, limit: i64) -> (out: Statement)
    ensures
        out@ == (StatementModel {
            sql: SELECT_SPEC_PROJECTIONS@,
            values: seq![
                ValueModel::Text(spec_id@),
                ValueModel::Integer(row_limit(limit as int)),
            ],
        }),
{
    let values = vec![
        SqlValue::Text(String::from_str(spec_id)),
        SqlValue::Integer(at_least_one(limit)),
    ];
    let out = Statement { sql: SELECT_SPEC_PROJECTIONS, values };
    assert(out@.values =~= seq![
        ValueModel::Text(spec_id@),
        ValueModel::Integer(row_limit(limit as int)),
    ]);
    out
}

/// A number that was counted; a negative one counts as none.
pub open spec fn counted(number: int) -> int {
    if number < 0 {
        0
    } else {
        number
    }
}

fn as_count(number: i64) -> (out: u64)
    ensures
        out == counted(number as int),
{
    if number < 0 {
        0
    } else {
        number as u64
    }
}

/// The number of projections, given what the query for it answered.
pub fn count_causal_graph_projections(answer: i64) -> (out: u64)
    ensures
        out == counted(answer as int),
{
    as_count(answer)
}

/// A row with a projection.
#[derive(Debug, Clone, PartialEq, Eq)]
pub struct ProjectionRow {
    pub run_id: String,
    pub backend: String,
    pub status: String,
    pub database_name: String,
    pub schema_path: String,
    pub graph_json: String,
    pub episode_count: i64,
    pub event_count: i64,
    pub link_count: i64,
    pub hypothesis_count: i64,
    pub projected_at: String,
}

/// Whether `record` is what `row` holds, given the graph and the moment that
/// were read.
pub open spec fn record_of_row(
    record: CausalGraphProjectionRecord,
    row: ProjectionRow,
    graph: Seq<char>,
    moment: (int, int),
) -> bool {
    &&& record.run_id == row.run_id
    &&& record.backend == labelled_backend(row.backend@)
    &&& record.status == row.status
    &&& record.database == row.database_name
    &&& record.schema_path == row.schema_path
    &&& record.graph_json@ == graph
    &&& record.episode_count == counted(row.episode_count as int)
    &&& record.event_count == counted(row.event_count as int)
    &&& record.link_count == counted(row.link_count as int)
    &&& record.hypothesis_count == counted(row.hypothesis_count as int)
    &&& record.projected_at.seconds == moment.0
    &&& record.projected_at.nanos == moment.1
}

/// Why a row cannot be read, if it cannot. The moment is read before the graph.
pub open spec fn row_fault(row: ProjectionRow) -> Option<DbFaultModel> {
    match rfc3339_moment(row.projected_at@) {
        Err(cause) => Some(DbFault::ReadMoment { cause }),
        Ok(_) => match json_document(row.graph_json@) {
            Err(cause) => Some(DbFault::ReadJson { cause }),
            Ok(_) => None,
        },
    }
}

/// The projection that a row holds, given the graph and the moment that were
/// read.
pub fn projection_with(row: ProjectionRow, graph_json: String, projected_at: Moment) -> (out:
    CausalGraphProjectionRecord)
    ensures
        record_of_row(
            out,
            row,
            graph_json@,
            (projected_at.seconds as int, projected_at.nanos as int),
        ),
{
    let backend = backend_from_label(row.backend.as_str());
    CausalGraphProjectionRecord {
        run_id: row.run_id,
        backend,
        status: row.status,
        database: row.database_name,
        schema_path: row.schema_path,
        graph_json,
        episode_count: as_count(row.episode_count),
        event_count: as_count(row.event_count),
        link_count: as_count(row.link_count),
        hypothesis_count: as_count(row.hypothesis_count),
        projected_at,
    }
}

/// The projection that a row holds.
pub fn causal_graph_projection_from_row(row: ProjectionRow) -> (out: Result<
    CausalGraphProjectionRecord,
    DbError,
>)
    ensures
        out is Ok <==> row_fault(row) is None,
        out matches Err(error) ==> row_fault(row) == Some(error@),
        out matches Ok(record) ==> record_of_row(
            record,
            row,
            json_document(row.graph_json@)->Ok_0,
            rfc3339_moment(row.projected_at@)->Ok_0,
        ),
{
    let (seconds, nanos) = match read_rfc3339(row.projected_at.as_str()) {
        Ok(moment) => moment,
        Err(cause) => {
            return Err(DbFault::ReadMoment { cause });
        },
    };
    let graph_json = match read_json_document(row.graph_json.as_str()) {
        Ok(text) => text,
        Err(cause) => {
            return Err(DbFault::ReadJson { cause });
        },
    };
    Ok(projection_with(row, graph_json, Moment { seconds, nanos }))
}

/// Whether `records` are what `rows` hold, one for one.
pub open spec fn records_of_rows(
    records: Seq<CausalGraphProjectionRecord>,
    rows: Seq<ProjectionRow>,
) -> bool {
    &&& records.len() == rows.len()
    &&& forall|i: int|
        0 <= i < rows.len() ==> record_of_row(
            #[trigger] records[i],
            rows[i],
            json_document(rows[i].graph_json@)->Ok_0,
            rfc3339_moment(rows[i].projected_at@)->Ok_0,
        )
}

/// Why some rows cannot be read, if they cannot: the fault of the first that
/// cannot.
pub open spec fn rows_fault(rows: Seq<ProjectionRow>) -> Option<DbFaultModel>
    decreases rows.len(),
{
    if rows.len() == 0 {
        None
    } else {
        match rows_fault(rows.drop_last()) {
            Some(fault) => Some(fault),
            None => row_fault(rows.last()),
        }
    }
}

proof fn lemma_rows_fault_stays(rows: Seq<ProjectionRow>, count: int)
    requires
        0 <= count <= rows.len(),
        rows_fault(rows.take(count)) is Some,
    ensures
        rows_fault(rows) == rows_fault(rows.take(count)),
    decreases rows.len() - count,
{
    if count == rows.len() {
        assert(rows.take(count) =~= rows);
    } else {
        assert(rows.take(count + 1).drop_last() =~= rows.take(count));
        lemma_rows_fault_stays(rows, count + 1);
    }
}

/// The projections that some rows hold. One row that cannot be read spoils them
/// all.
pub fn causal_graph_projections_from_rows(rows: Vec<ProjectionRow>) -> (out: Result<
    Vec<CausalGraphProjectionRecord>,
    DbError,
>)
    ensures
        out is Ok <==> rows_fault(rows@) is None,
        out matches Err(error) ==> rows_fault(rows@) == Some(error@),
        out matches Ok(records) ==> records_of_rows(records@, rows@),
{
    let ghost all = rows@;
    let mut out: Vec<CausalGraphProjectionRecord> = Vec::new();
    assert(all.take(0) =~= Seq::empty());
    for row in it: rows.into_iter()
        invariant
            it.seq() == all,
            all == rows@,
            rows_fault(all.take(it.index() as int)) is None,
            records_of_rows(out@, all.take(it.index() as int)),
    {
        let ghost i = it.index() as int;
        assert(row == all[i]);
        assert(all.take(i + 1).drop_last() =~= all.take(i));
        assert(all.take(i + 1).last() == all[i]);
        match causal_graph_projection_from_row(row) {
            Ok(record) => {
                out.push(record);
                assert forall|k: int| 0 <= k < i + 1 implies record_of_row(
                    #[trigger] out@[k],
                    all.take(i + 1)[k],
                    json_document(all.take(i + 1)[k].graph_json@)->Ok_0,
                    rfc3339_moment(all.take(i + 1)[k].projected_at@)->Ok_0,
                ) by {
                    assert(all.take(i + 1)[k] == all[k]);
                    if k < i {
                        assert(all.take(i)[k] == all[k]);
                    }
                }
            },
            Err(error) => {
                proof {
                    lemma_rows_fault_stays(all, i + 1);
                }
                return Err(error);
            },
        }
    }
    assert(all.take(all.len() as int) =~= all);
    Ok(out)
}

/// What some records come to without their graphs.
pub open spec fn summaries_of(records: Seq<CausalGraphProjectionRecord>) -> Seq<
    CausalGraphProjectionSummary,
> {
    records.map_values(|r: CausalGraphProjectionRecord| summarized(r))
}

/// The projections that some rows hold, without their graphs.
pub fn causal_graph_summaries_from_rows(rows: Vec<ProjectionRow>) -> (out: Result<
    Vec<CausalGraphProjectionSummary>,
    DbError,
>)
    ensures
        out is Ok <==> rows_fault(rows@) is None,
        out matches Err(error) ==> rows_fault(rows@) == Some(error@),
        out matches Ok(summaries) ==> exists|records: Seq<CausalGraphProjectionRecord>| #[trigger]
            records_of_rows(records, rows@) && summaries@ == summaries_of(records),
{
    let records = match causal_graph_projections_from_rows(rows) {
        Ok(records) => records,
        Err(error) => {
            return Err(error);
        },
    };
    let mut out: Vec<CausalGraphProjectionSummary> = Vec::new();
    for i in 0..records.len()
        invariant
            out@ == summaries_of(records@).take(i as int),
    {
        let summary = CausalGraphProjectionSummary::from(&records[i]);
        out.push(summary);
        assert(out@ =~= summaries_of(records@).take(i + 1));
    }
    assert(summaries_of(records@).take(records@.len() as int) =~= summaries_of(records@));
    Ok(out)
}

} // verus!
