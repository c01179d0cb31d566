//! The causal graph: how it is configured, what it answers while there is
//! nothing to ask, and how the database behind it is brought into shape.

use vstd::prelude::*;
use vstd::string::*;

use crate::outside::{address_problem, address_problem_text};
use crate::text::optional_text;

verus! {

// ---------------------------------------------------------------------------
// Values
// ---------------------------------------------------------------------------

/// What keeps the graph.
#[derive(Debug, Clone, Copy, PartialEq, Eq, Structural)]
pub enum CausalGraphBackend {
    TypeDb3,
    Disabled,
}

/// Whether the graph can be asked.
#[derive(Debug, Clone, Copy, PartialEq, Eq, Structural)]
pub enum CausalGraphStatus {
    Ready,
    Unavailable,
    Disabled,
}

/// The settings of the graph database, as an installation gives them.
#[derive(Debug, Clone, PartialEq, Eq)]
pub struct TypeDbConfig {
    pub enabled: bool,
    pub url: String,
    pub database: String,
    pub schema_path: String,
    pub reasoning_mode: String,
}

/// How the graph is configured.
#[derive(Debug, PartialEq, Eq)]
pub struct CausalGraphConfig {
    pub backend: CausalGraphBackend,
    pub enabled: bool,
    pub url: String,
    pub database: String,
    pub schema_path: String,
    pub reasoning_mode: String,
}

impl Clone for CausalGraphConfig {
    fn clone(&self) -> (out: CausalGraphConfig)
        ensures
            out == *self,
    {
        CausalGraphConfig {
            backend: self.backend,
            enabled: self.enabled,
            url: self.url.clone(),
            database: self.database.clone(),
            schema_path: self.schema_path.clone(),
            reasoning_mode: self.reasoning_mode.clone(),
        }
    }
}

/// The graph's configuration in an installation: the database where it is
/// switched on, nothing where it is not.
pub open spec fn configured(config: TypeDbConfig) -> CausalGraphConfig {
    CausalGraphConfig {
        backend: if config.enabled {
            CausalGraphBackend::TypeDb3
        } else {
            CausalGraphBackend::Disabled
        },
        enabled: config.enabled,
        url: config.url,
        database: config.database,
        schema_path: config.schema_path,
        reasoning_mode: config.reasoning_mode,
    }
}

impl vstd::std_specs::convert::FromSpecImpl<&TypeDbConfig> for CausalGraphConfig {
    open spec fn obeys_from_spec() -> bool {
        true
    }

    open spec fn from_spec(config: &TypeDbConfig) -> CausalGraphConfig {
        configured(*config)
    }
}

impl From<&TypeDbConfig> for CausalGraphConfig {
    fn from(config: &TypeDbConfig) -> (out: CausalGraphConfig) {
        CausalGraphConfig {
            backend: if config.enabled {
                CausalGraphBackend::TypeDb3
            } else {
                CausalGraphBackend::Disabled
            },
            enabled: config.enabled,
            url: config.url.clone(),
            database: config.database.clone(),
            schema_path: config.schema_path.clone(),
            reasoning_mode: config.reasoning_mode.clone(),
        }
    }
}

/// A question to the graph.
#[derive(Debug, Clone, PartialEq, Eq)]
pub struct CausalGraphQuery {
    pub question: String,
    pub run_id: Option<String>,
    pub spec_id: Option<String>,
    pub limit: usize,
}

/// Something that the graph found. The confidence is a floating point number,
/// kept as its bits.
#[derive(Debug, Clone, PartialEq, Eq)]
pub struct CausalGraphHit {
    pub label: String,
    pub summary: String,
    pub evidence_refs: Vec<String>,
    pub confidence_bits: u64,
}

/// What the graph answered.
#[derive(Debug, Clone, PartialEq, Eq)]
pub struct CausalGraphQueryResult {
    pub status: CausalGraphStatus,
    pub backend: CausalGraphBackend,
    pub database: String,
    pub query: String,
    pub hits: Vec<CausalGraphHit>,
    pub note: Option<String>,
}

/// A query that replays a finding in the graph database.
#[derive(Debug, Clone, PartialEq, Eq)]
pub struct CausalReplayQuery {
    pub label: String,
    pub purpose: String,
    pub typeql: String,
}

/// A moment, as the seconds since 1970 and the nanoseconds on top of them.
#[derive(Debug, Clone, Copy, PartialEq, Eq, Structural)]
pub struct Moment {
    pub seconds: i64,
    pub nanos: u32,
}

/// What is kept of a run's graph. The graph itself is a JSON document, kept as
/// its compact text.
#[derive(Debug, Clone, PartialEq, Eq)]
pub struct CausalGraphProjectionRecord {
    pub run_id: String,
    pub backend: CausalGraphBackend,
    pub status: String,
    pub database: String,
    pub schema_path: String,
    pub graph_json: String,
    pub episode_count: u64,
    pub event_count: u64,
    pub link_count: u64,
    pub hypothesis_count: u64,
    pub projected_at: Moment,
}

/// What is kept of a run's graph, without the graph.
#[derive(Debug, Clone, PartialEq, Eq)]
pub struct CausalGraphProjectionSummary {
    pub run_id: String,
    pub backend: CausalGraphBackend,
    pub status: String,
    pub database: String,
    pub schema_path: String,
    pub episode_count: u64,
    pub event_count: u64,
    pub link_count: u64,
    pub hypothesis_count: u64,
    pub projected_at: Moment,
}

/// A record without its graph.
pub open spec fn summarized(record: CausalGraphProjectionRecord) -> CausalGraphProjectionSummary {
    CausalGraphProjectionSummary {
        run_id: record.run_id,
        backend: record.backend,
        status: record.status,
        database: record.database,
        schema_path: record.schema_path,
        episode_count: record.episode_count,
        event_count: record.event_count,
        link_count: record.link_count,
        hypothesis_count: record.hypothesis_count,
        projected_at: record.projected_at,
    }
}

impl vstd::std_specs::convert::FromSpecImpl<&CausalGraphProjectionRecord> for CausalGraphProjectionSummary {
    open spec fn obeys_from_spec() -> bool {
        true
    }

    open spec fn from_spec(record: &CausalGraphProjectionRecord) -> CausalGraphProjectionSummary {
        summarized(*record)
    }
}

impl From<&CausalGraphProjectionRecord> for CausalGraphProjectionSummary {
    fn from(record: &CausalGraphProjectionRecord) -> (out: CausalGraphProjectionSummary) {
        CausalGraphProjectionSummary {
            run_id: record.run_id.clone(),
            backend: record.backend,
            status: record.status.clone(),
            database: record.database.clone(),
            schema_path: record.schema_path.clone(),
            episode_count: record.episode_count,
            event_count: record.event_count,
            link_count: record.link_count,
            hypothesis_count: record.hypothesis_count,
            projected_at: record.projected_at,
        }
    }
}

// ---------------------------------------------------------------------------
// Answers
// ---------------------------------------------------------------------------

/// Said where the graph is configured and cannot be reached.
pub const UNAVAILABLE_NOTE: &'static str = "TypeDB 3.x semantic graph is configured, but the live driver adapter is not wired in this build.";

/// Said where the graph is switched off.
pub const DISABLED_NOTE: &'static str = "TypeDB semantic graph is disabled; SQLite and memory retrieval remain authoritative.";

/// Said where the graph is connected.
pub const CONNECTED_NOTE: &'static str = "TypeDB connected; typed query path not yet implemented (Task 3 placeholder)";

/// Whether an answer has nothing in it but its status, what was asked and why.
pub open spec fn empty_answer(
    answer: CausalGraphQueryResult,
    config: CausalGraphConfig,
    query: CausalGraphQuery,
    status: CausalGraphStatus,
    note: Seq<char>,
) -> bool {
    &&& answer.status == status
    &&& answer.backend == config.backend
    &&& answer.database == config.database
    &&& answer.query == query.question
    &&& answer.hits@.len() == 0
    &&& answer.note is Some
    &&& answer.note->Some_0@ == note
}

/// The status of a graph that has no connection.
pub open spec fn status_without_connection(config: CausalGraphConfig) -> CausalGraphStatus {
    if config.enabled {
        CausalGraphStatus::Unavailable
    } else {
        CausalGraphStatus::Disabled
    }
}

/// What is said about a graph that has no connection.
pub open spec fn note_without_connection(config: CausalGraphConfig) -> Seq<char> {
    if config.enabled {
        UNAVAILABLE_NOTE@
    } else {
        DISABLED_NOTE@
    }
}

fn answer_nothing(
    config: &CausalGraphConfig,
    query: CausalGraphQuery,
    status: CausalGraphStatus,
    note: &str,
) -> (out: CausalGraphQueryResult)
    ensures
        empty_answer(out, *config, query, status, note@),
{
    CausalGraphQueryResult {
        status,
        backend: config.backend,
        database: config.database.clone(),
        query: query.question,
        hits: Vec::new(),
        note: Some(String::from_str(note)),
    }
}

/// A graph that answers without a connection.
#[derive(Debug, Clone, PartialEq, Eq)]
pub struct NoopCausalGraphStore {
    config: CausalGraphConfig,
}

impl NoopCausalGraphStore {
    /// The configuration that the graph was made with.
    pub closed spec fn settings(&self) -> CausalGraphConfig {
        self.config
    }

    /// A graph that answers without a connection.
    pub fn new(config: CausalGraphConfig) -> (out: NoopCausalGraphStore)
        ensures
            out.settings() == config,
    {
        NoopCausalGraphStore { config }
    }

    /// The configuration that the graph was made with.
    pub fn config(&self) -> (out: &CausalGraphConfig)
        ensures
            *out == self.settings(),
    {
        &self.config
    }

    /// Answers that there is nothing to ask, and why.
    pub fn query(&self, query: CausalGraphQuery) -> (out: CausalGraphQueryResult)
        ensures
            empty_answer(
                out,
                self.settings(),
                query,
                status_without_connection(self.settings()),
                note_without_connection(self.settings()),
            ),
    {
        if self.config.enabled {
            answer_nothing(&self.config, query, CausalGraphStatus::Unavailable, UNAVAILABLE_NOTE)
        } else {
            answer_nothing(&self.config, query, CausalGraphStatus::Disabled, DISABLED_NOTE)
        }
    }
}

/// What a connected graph answers: that it is connected.
pub fn connected_answer(config: &CausalGraphConfig, query: CausalGraphQuery) -> (out:
    CausalGraphQueryResult)
    ensures
        empty_answer(out, *config, query, CausalGraphStatus::Ready, CONNECTED_NOTE@),
{
    answer_nothing(config, query, CausalGraphStatus::Ready, CONNECTED_NOTE)
}

// ---------------------------------------------------------------------------
// Connecting
// ---------------------------------------------------------------------------

/// The query that finds out whether a database has the schema.
pub const SCHEMA_PRESENCE_CHECK_TQL: &'static str = "match $e sub episode; select $e; limit 1;";

/// How many seconds connecting may take.
pub const CONNECT_TIMEOUT_SECONDS: u64 = 10;

/// How the check for the schema went.
pub enum ProbeOutcome {
    /// No transaction could be opened.
    NotOpened(String),
    /// The query was refused, which is how the database says that it does not
    /// know the type.
    Refused,
    /// A row could not be read.
    RowFailed(String),
    /// This many rows were read.
    Rows(usize),
}

/// Whether the schema is there. A refused query means that it is not; whether
/// the refusal had another cause shows when the schema is put in.
pub open spec fn probe_result(outcome: ProbeOutcome) -> Result<bool, Seq<char>> {
    match outcome {
        ProbeOutcome::NotOpened(cause) => Err(
            "opening TypeDB read transaction for schema presence check: "@ + cause@,
        ),
        ProbeOutcome::Refused => Ok(false),
        ProbeOutcome::RowFailed(cause) => Err("reading schema presence check row: "@ + cause@),
        ProbeOutcome::Rows(count) => Ok(count > 0),
    }
}

/// What a result with a text for its error holds.
pub open spec fn answer_model(answer: Result<bool, String>) -> Result<bool, Seq<char>> {
    match answer {
        Ok(value) => Ok(value),
        Err(error) => Err(error@),
    }
}

/// Whether the schema is there.
pub fn schema_is_present(outcome: ProbeOutcome) -> (out: Result<bool, String>)
    ensures
        answer_model(out) == probe_result(outcome),
{
    match outcome {
        ProbeOutcome::NotOpened(cause) => Err(
            String::from_str("opening TypeDB read transaction for schema presence check: ").concat(
                cause.as_str(),
            ),
        ),
        ProbeOutcome::Refused => Ok(false),
        ProbeOutcome::RowFailed(cause) => Err(
            String::from_str("reading schema presence check row: ").concat(cause.as_str()),
        ),
        ProbeOutcome::Rows(count) => Ok(count > 0),
    }
}

/// How far connecting has got, that is, what is to be done next.
#[derive(Debug, Clone, Copy, PartialEq, Eq, Structural)]
pub enum ConnectStage {
    /// The connection is to be opened.
    Open,
    /// It is to be found out whether the database exists.
    Find,
    /// The database is to be created.
    Create,
    /// It is to be found out whether the database has the schema.
    Probe,
    /// The schema is to be put in; `repair` tells whether the database was there
    /// without it.
    Deploy { repair: bool },
    /// The database is connected and has the schema.
    Connected { deployed: bool },
}

/// How a stage went.
pub enum StageOutcome {
    /// It was done, or the answer was yes.
    Yes,
    /// The answer was no.
    No,
    /// It failed: the error, followed by those behind it.
    Failed(String),
}

/// What follows a stage, or why connecting fails.
pub open spec fn after_stage(
    config: CausalGraphConfig,
    stage: ConnectStage,
    outcome: StageOutcome,
) -> Result<ConnectStage, Seq<char>> {
    match (stage, outcome) {
        (ConnectStage::Open, StageOutcome::Failed(cause)) => Err(
            "connecting to TypeDB at "@ + config.url@ + ": "@ + cause@,
        ),
        (ConnectStage::Open, _) => Ok(ConnectStage::Find),
        (ConnectStage::Find, StageOutcome::Failed(cause)) => Err(
            "checking TypeDB database '"@ + config.database@ + "': "@ + cause@,
        ),
        (ConnectStage::Find, StageOutcome::Yes) => Ok(ConnectStage::Probe),
        (ConnectStage::Find, StageOutcome::No) => Ok(ConnectStage::Create),
        (ConnectStage::Create, StageOutcome::Failed(cause)) => Err(
            "creating TypeDB database '"@ + config.database@ + "': "@ + cause@,
        ),
        (ConnectStage::Create, _) => Ok(ConnectStage::Deploy { repair: false }),
        (ConnectStage::Probe, StageOutcome::Failed(cause)) => Err(cause@),
        (ConnectStage::Probe, StageOutcome::Yes) => Ok(ConnectStage::Connected { deployed: false }),
        (ConnectStage::Probe, StageOutcome::No) => Ok(ConnectStage::Deploy { repair: true }),
        (ConnectStage::Deploy { .. }, StageOutcome::Failed(cause)) => Err(cause@),
        (ConnectStage::Deploy { .. }, _) => Ok(ConnectStage::Connected { deployed: true }),
        (ConnectStage::Connected { deployed }, _) => Ok(ConnectStage::Connected { deployed }),
    }
}

/// What a stage, or the text of why there is none, holds.
pub open spec fn stage_model(stage: Result<ConnectStage, String>) -> Result<
    ConnectStage,
    Seq<char>,
> {
    match stage {
        Ok(stage) => Ok(stage),
        Err(error) => Err(error@),
    }
}

/// What is to be done after a stage. A database that is new gets the schema, and
/// so does one that is there without it: an earlier attempt may have been cut
/// off between the two.
pub fn connect_next(config: &CausalGraphConfig, stage: ConnectStage, outcome: StageOutcome) -> (out:
    Result<ConnectStage, String>)
    ensures
        stage_model(out) == after_stage(*config, stage, outcome),
{
    match stage {
        ConnectStage::Open => match outcome {
            StageOutcome::Failed(cause) => Err(
                String::from_str("connecting to TypeDB at ").concat(config.url.as_str()).concat(
                    ": ",
                ).concat(cause.as_str()),
            ),
            _ => Ok(ConnectStage::Find),
        },
        ConnectStage::Find => match outcome {
            StageOutcome::Failed(cause) => Err(
                String::from_str("checking TypeDB database '").concat(
                    config.database.as_str(),
                ).concat("': ").concat(cause.as_str()),
            ),
            StageOutcome::Yes => Ok(ConnectStage::Probe),
            StageOutcome::No => Ok(ConnectStage::Create),
        },
        ConnectStage::Create => match outcome {
            StageOutcome::Failed(cause) => Err(
                String::from_str("creating TypeDB database '").concat(
                    config.database.as_str(),
                ).concat("': ").concat(cause.as_str()),
            ),
            _ => Ok(ConnectStage::Deploy { repair: false }),
        },
        ConnectStage::Probe => match outcome {
            StageOutcome::Failed(cause) => Err(cause),
            StageOutcome::Yes => Ok(ConnectStage::Connected { deployed: false }),
            StageOutcome::No => Ok(ConnectStage::Deploy { repair: true }),
        },
        ConnectStage::Deploy { .. } => match outcome {
            StageOutcome::Failed(cause) => Err(cause),
            _ => Ok(ConnectStage::Connected { deployed: true }),
        },
        ConnectStage::Connected { deployed } => Ok(ConnectStage::Connected { deployed }),
    }
}

/// The wording of an address that is no use, given the error and the error behind
/// it, if there is one. Every error of the chain is named.
pub open spec fn address_wording(
    config: CausalGraphConfig,
    error: Seq<char>,
    source: Option<Seq<char>>,
) -> Seq<char> {
    let told = "parsing TypeDB address '"@ + config.url@ + "': "@ + error;
    match source {
        Some(behind) => told + ": "@ + behind,
        None => told,
    }
}

/// Why the address of the database is no use, if it is not.
pub open spec fn address_fault(config: CausalGraphConfig) -> Option<Seq<char>> {
    match address_problem(config.url@) {
        Some((error, source)) => Some(address_wording(config, error, source)),
        None => None,
    }
}

/// The wording of an address that is no use, given the error and the error behind
/// it, if there is one.
pub fn address_fault_text(config: &CausalGraphConfig, error: &str, source: Option<String>) -> (out:
    String)
    ensures
        out@ == address_wording(*config, error@, optional_text(source)),
{
    let told = String::from_str("parsing TypeDB address '").concat(config.url.as_str()).concat(
        "': ",
    ).concat(error);
    match source {
        Some(behind) => told.concat(": ").concat(behind.as_str()),
        None => told,
    }
}

/// Why the address of the database is no use, if it is not.
pub fn check_address(config: &CausalGraphConfig) -> (out: Option<String>)
    ensures
        optional_text(out) == address_fault(*config),
{
    match address_problem_text(config.url.as_str()) {
        Some((error, source)) => Some(address_fault_text(config, error.as_str(), source)),
        None => None,
    }
}

/// How the attempt to connect ended.
pub enum ConnectOutcome {
    Connected,
    Failed(String),
    TimedOut,
}

/// Which graph is used.
#[derive(Debug, Clone, Copy, PartialEq, Eq, Structural)]
pub enum StoreChoice {
    /// The one that answers without a connection.
    Noop,
    /// The connected one.
    TypeDb,
}

/// Whether a connection is attempted at all.
pub fn wants_connection(config: &CausalGraphConfig) -> (answer: bool)
    ensures
        answer == config.enabled,
{
    config.enabled
}

/// Said where connecting did not succeed.
pub open spec fn fallback_warning(outcome: ConnectOutcome) -> Option<Seq<char>> {
    match outcome {
        ConnectOutcome::Connected => None,
        ConnectOutcome::Failed(cause) => Some(
            "TypeDB causal graph unavailable ("@ + cause@
                + "); falling back to SQLite/memory retrieval"@,
        ),
        ConnectOutcome::TimedOut => Some(
            "TypeDB causal graph connect timed out after 10s; falling back to SQLite/memory retrieval"@,
        ),
    }
}

/// Which graph is used after the attempt to connect, and what is said where it
/// did not succeed. Starting never fails for want of the database.
pub fn choose_store(outcome: ConnectOutcome) -> (out: (StoreChoice, Option<String>))
    ensures
        out.0 == if outcome is Connected {
            StoreChoice::TypeDb
        } else {
            StoreChoice::Noop
        },
        optional_text(out.1) == fallback_warning(outcome),
{
    match outcome {
        ConnectOutcome::Connected => (StoreChoice::TypeDb, None),
        ConnectOutcome::Failed(cause) => (
            StoreChoice::Noop,
            Some(
                String::from_str("TypeDB causal graph unavailable (").concat(
                    cause.as_str(),
                ).concat("); falling back to SQLite/memory retrieval"),
            ),
        ),
        ConnectOutcome::TimedOut => (
            StoreChoice::Noop,
            Some(
                String::from_str(
                    "TypeDB causal graph connect timed out after 10s; falling back to SQLite/memory retrieval",
                ),
            ),
        ),
    }
}

// ---------------------------------------------------------------------------
// Laws
// ---------------------------------------------------------------------------

/// A database counts as connected only where it has the schema: the check found
/// it there, or it was just put in.
pub proof fn law_connected_has_schema(
    config: CausalGraphConfig,
    stage: ConnectStage,
    outcome: StageOutcome,
)
    requires
        stage !is Connected,
    ensures
        after_stage(config, stage, outcome) matches Ok(ConnectStage::Connected { deployed }) ==> {
            ||| stage == ConnectStage::Probe && outcome is Yes && !deployed
            ||| stage is Deploy && outcome !is Failed && deployed
        },
{
}

/// A database that is there without the schema gets it.
pub proof fn law_missing_schema_is_repaired(config: CausalGraphConfig, probe: ProbeOutcome)
    requires
        probe_result(probe) == Ok::<bool, Seq<char>>(false),
    ensures
        after_stage(config, ConnectStage::Probe, StageOutcome::No) == Ok::<
            ConnectStage,
            Seq<char>,
        >(ConnectStage::Deploy { repair: true }),
        forall|done: StageOutcome|
            done !is Failed ==> #[trigger] after_stage(
                config,
                ConnectStage::Deploy { repair: true },
                done,
            ) == Ok::<ConnectStage, Seq<char>>(ConnectStage::Connected { deployed: true }),
{
}

/// How much is left of connecting.
pub open spec fn stages_left(stage: ConnectStage) -> nat {
    match stage {
        ConnectStage::Open => 4,
        ConnectStage::Find => 3,
        ConnectStage::Create => 2,
        ConnectStage::Probe => 2,
        ConnectStage::Deploy { .. } => 1,
        ConnectStage::Connected { .. } => 0,
    }
}

/// Connecting comes to an end: every stage that succeeds leaves less to do.
pub proof fn law_connecting_ends(
    config: CausalGraphConfig,
    stage: ConnectStage,
    outcome: StageOutcome,
)
    requires
        stage !is Connected,
    ensures
        after_stage(config, stage, outcome) matches Ok(next) ==> stages_left(next) < stages_left(
            stage,
        ),
{
}

} // verus!
