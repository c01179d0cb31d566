//! The schema of the state database: the steps that create it, and that bring an
//! older database up to date.
//!
//! Tables are only ever created where they are missing, and columns only ever
//! added, so the steps can be taken at every start.

use vstd::prelude::*;
use vstd::string::*;

use crate::lines::split_lines;
use crate::order::holds_text;
use crate::text::texts;
use crate::words::words;

verus! {

// ---------------------------------------------------------------------------
// Tables
// ---------------------------------------------------------------------------

/// The columns of `runs`.
pub const RUNS_COLUMNS: &'static str = "\
run_id TEXT PRIMARY KEY,
spec_id TEXT NOT NULL,
product TEXT NOT NULL,
status TEXT NOT NULL,
created_at TEXT NOT NULL,
updated_at TEXT NOT NULL";

/// The columns of `calvin_write_queue`.
pub const CALVIN_WRITE_QUEUE_COLUMNS: &'static str = "\
queue_id TEXT PRIMARY KEY,
run_id TEXT,
operation TEXT NOT NULL,
method TEXT NOT NULL,
path TEXT NOT NULL,
payload_json TEXT NOT NULL,
status TEXT NOT NULL,
attempts INTEGER NOT NULL DEFAULT 0,
next_attempt_at TEXT NOT NULL,
last_error TEXT,
created_at TEXT NOT NULL,
updated_at TEXT NOT NULL,
confirmed_at TEXT";

/// The columns of `run_predictions`.
pub const RUN_PREDICTIONS_COLUMNS: &'static str = "\
prediction_id TEXT PRIMARY KEY,
run_id TEXT NOT NULL UNIQUE,
spec_id TEXT NOT NULL,
predicted_outcome TEXT NOT NULL,
risk_score REAL NOT NULL,
confidence REAL NOT NULL,
failure_phase TEXT,
failure_kind TEXT,
source_cause_ids TEXT NOT NULL DEFAULT '',
narrative_summary TEXT NOT NULL,
created_at TEXT NOT NULL";

/// The columns of `spec_family_profiles`.
pub const SPEC_FAMILY_PROFILES_COLUMNS: &'static str = "\
family_id TEXT PRIMARY KEY,
label TEXT NOT NULL,
fingerprint_json TEXT NOT NULL DEFAULT '[]',
spec_ids_json TEXT NOT NULL DEFAULT '[]',
created_at TEXT NOT NULL,
updated_at TEXT NOT NULL";

/// The columns of `prediction_success_reinforcements`.
pub const PREDICTION_SUCCESS_REINFORCEMENTS_COLUMNS: &'static str = "\
reinforcement_id TEXT PRIMARY KEY,
run_id TEXT NOT NULL,
prediction_id TEXT NOT NULL,
source_cause_id TEXT NOT NULL,
prediction_error REAL NOT NULL,
actual_outcome TEXT NOT NULL,
confirmation_count INTEGER NOT NULL,
status TEXT NOT NULL DEFAULT 'pending_workbench_review',
created_at TEXT NOT NULL,
UNIQUE(run_id, source_cause_id)";

/// The columns of `memory_influence_exclusions`.
pub const MEMORY_INFLUENCE_EXCLUSIONS_COLUMNS: &'static str = "\
exclusion_id TEXT PRIMARY KEY,
run_id TEXT NOT NULL,
phase TEXT NOT NULL,
briefing_scope TEXT,
memory_key TEXT NOT NULL,
memory_preview TEXT NOT NULL,
spec_family TEXT NOT NULL DEFAULT 'unknown',
expected_outcome TEXT NOT NULL,
actual_outcome TEXT NOT NULL,
exclusion_probability REAL NOT NULL,
selection_basis TEXT NOT NULL,
created_at TEXT NOT NULL,
UNIQUE(run_id, phase, memory_key)";

/// The columns of `run_events`.
pub const RUN_EVENTS_COLUMNS: &'static str = "\
event_id INTEGER PRIMARY KEY AUTOINCREMENT,
run_id TEXT NOT NULL,
phase TEXT NOT NULL,
episode_id TEXT,
agent TEXT NOT NULL,
status TEXT NOT NULL,
message TEXT NOT NULL,
created_at TEXT NOT NULL";

/// The columns of `episodes`.
pub const EPISODES_COLUMNS: &'static str = "\
episode_id TEXT PRIMARY KEY,
run_id TEXT NOT NULL,
phase TEXT NOT NULL,
goal TEXT NOT NULL,
outcome TEXT,
confidence REAL,
started_at TEXT NOT NULL,
ended_at TEXT,
state_before TEXT,
state_after TEXT";

/// The columns of `phase_attributions`.
pub const PHASE_ATTRIBUTIONS_COLUMNS: &'static str = "\
attribution_id TEXT PRIMARY KEY,
run_id TEXT NOT NULL,
episode_id TEXT NOT NULL UNIQUE,
phase TEXT NOT NULL,
agent_name TEXT NOT NULL,
outcome TEXT NOT NULL,
confidence REAL,
prompt_bundle_fingerprint TEXT,
prompt_bundle_provider TEXT,
prompt_bundle_artifact TEXT,
pinned_skill_ids TEXT NOT NULL DEFAULT '[]',
memory_hits TEXT NOT NULL DEFAULT '[]',
core_memory_ids TEXT NOT NULL DEFAULT '[]',
project_memory_ids TEXT NOT NULL DEFAULT '[]',
relevant_lesson_ids TEXT NOT NULL DEFAULT '[]',
required_checks TEXT NOT NULL DEFAULT '[]',
guardrails TEXT NOT NULL DEFAULT '[]',
query_terms TEXT NOT NULL DEFAULT '[]',
briefing_scope TEXT,
briefing_token_budget INTEGER NOT NULL DEFAULT 0,
briefing_tokens_used INTEGER NOT NULL DEFAULT 0,
briefing_hits_provided INTEGER NOT NULL DEFAULT 0,
stakeholder_alignment_json TEXT NOT NULL DEFAULT 'null',
created_at TEXT NOT NULL,
FOREIGN KEY (episode_id) REFERENCES episodes(episode_id)";

/// The columns of `context_pull_records`.
pub const CONTEXT_PULL_RECORDS_COLUMNS: &'static str = "\
pull_id TEXT PRIMARY KEY,
run_id TEXT NOT NULL,
query TEXT NOT NULL,
scope TEXT NOT NULL,
max_tokens INTEGER NOT NULL,
tokens_returned INTEGER NOT NULL,
hits_returned INTEGER NOT NULL,
hit_previews TEXT NOT NULL DEFAULT '[]',
trigger TEXT,
created_at TEXT NOT NULL,
FOREIGN KEY (run_id) REFERENCES runs(run_id)";

/// The columns of `run_checkpoints`.
pub const RUN_CHECKPOINTS_COLUMNS: &'static str = "\
checkpoint_id TEXT PRIMARY KEY,
run_id TEXT NOT NULL,
phase TEXT,
agent TEXT,
checkpoint_type TEXT NOT NULL,
status TEXT NOT NULL,
prompt TEXT NOT NULL,
context_json TEXT NOT NULL DEFAULT '{}',
created_at TEXT NOT NULL,
resolved_at TEXT";

/// The columns of `checkpoint_answers`.
pub const CHECKPOINT_ANSWERS_COLUMNS: &'static str = "\
answer_id TEXT PRIMARY KEY,
checkpoint_id TEXT NOT NULL,
answered_by TEXT NOT NULL,
answer_text TEXT NOT NULL,
decision_json TEXT NOT NULL DEFAULT '{}',
created_at TEXT NOT NULL,
FOREIGN KEY (checkpoint_id) REFERENCES run_checkpoints(checkpoint_id)";

/// The columns of `causal_links`.
pub const CAUSAL_LINKS_COLUMNS: &'static str = "\
link_id TEXT PRIMARY KEY,
from_event INTEGER NOT NULL REFERENCES run_events(event_id),
to_event INTEGER NOT NULL REFERENCES run_events(event_id),
link_type TEXT NOT NULL,
confidence REAL NOT NULL DEFAULT 0.5,
created_at TEXT NOT NULL";

/// The columns of `lessons`.
pub const LESSONS_COLUMNS: &'static str = "\
lesson_id TEXT PRIMARY KEY,
source_episode TEXT REFERENCES episodes(episode_id),
pattern TEXT NOT NULL,
intervention TEXT,
tags TEXT NOT NULL,
strength REAL NOT NULL DEFAULT 1.0,
recall_count INTEGER NOT NULL DEFAULT 0,
last_recalled TEXT,
created_at TEXT NOT NULL";

/// The columns of `coobie_episode_scores`.
pub const COOBIE_EPISODE_SCORES_COLUMNS: &'static str = "\
run_id TEXT PRIMARY KEY,
spec_clarity_score REAL NOT NULL DEFAULT 0.5,
change_scope_score REAL NOT NULL DEFAULT 0.5,
twin_fidelity_score REAL NOT NULL DEFAULT 0.5,
test_coverage_score REAL NOT NULL DEFAULT 0.0,
memory_retrieval_score REAL NOT NULL DEFAULT 0.0,
phase_success_score REAL NOT NULL DEFAULT 1.0,
scenario_passed INTEGER NOT NULL DEFAULT 0,
validation_passed INTEGER NOT NULL DEFAULT 0,
human_accepted INTEGER,
scored_at TEXT NOT NULL";

/// The columns of `causal_hypotheses`.
pub const CAUSAL_HYPOTHESES_COLUMNS: &'static str = "\
hypothesis_id TEXT PRIMARY KEY,
run_id TEXT NOT NULL,
cause_id TEXT NOT NULL,
description TEXT NOT NULL,
confidence REAL NOT NULL DEFAULT 0.5,
hierarchy_level TEXT NOT NULL DEFAULT 'associational',
supporting_runs TEXT NOT NULL DEFAULT '[]',
evidence TEXT NOT NULL DEFAULT '[]',
counterfactuals TEXT NOT NULL DEFAULT '[]',
created_at TEXT NOT NULL";

/// The columns of `interventions`.
pub const INTERVENTIONS_COLUMNS: &'static str = "\
intervention_id TEXT PRIMARY KEY,
run_id TEXT NOT NULL,
target TEXT NOT NULL,
action TEXT NOT NULL,
expected_impact TEXT NOT NULL,
applied INTEGER NOT NULL DEFAULT 0,
actual_outcome TEXT,
created_at TEXT NOT NULL";

/// The columns of `heuristics`.
pub const HEURISTICS_COLUMNS: &'static str = "\
heuristic_id TEXT PRIMARY KEY,
cause_pattern TEXT NOT NULL,
effect_pattern TEXT NOT NULL,
intervention TEXT NOT NULL,
hit_count INTEGER NOT NULL DEFAULT 0,
success_count INTEGER NOT NULL DEFAULT 0,
strength REAL NOT NULL DEFAULT 1.0,
accepted INTEGER NOT NULL DEFAULT 1,
created_at TEXT NOT NULL";

/// The columns of `memory_embeddings`.
pub const MEMORY_EMBEDDINGS_COLUMNS: &'static str = "\
entry_id TEXT NOT NULL,
memory_root TEXT NOT NULL,
backend_id TEXT NOT NULL DEFAULT '',
model_id TEXT NOT NULL DEFAULT '',
embedding BLOB NOT NULL,
embedded_at TEXT NOT NULL,
PRIMARY KEY (entry_id, memory_root)";

/// The columns of `chat_threads`.
pub const CHAT_THREADS_COLUMNS: &'static str = "\
thread_id TEXT PRIMARY KEY,
run_id TEXT,
spec_id TEXT,
title TEXT NOT NULL DEFAULT '',
status TEXT NOT NULL DEFAULT 'open',
thread_kind TEXT NOT NULL DEFAULT 'general',
metadata_json TEXT NOT NULL DEFAULT '{}',
created_at TEXT NOT NULL,
updated_at TEXT NOT NULL";

/// The columns of `chat_messages`.
pub const CHAT_MESSAGES_COLUMNS: &'static str = "\
message_id TEXT PRIMARY KEY,
thread_id TEXT NOT NULL REFERENCES chat_threads(thread_id),
role TEXT NOT NULL,
agent TEXT,
agent_runtime_id TEXT,
content TEXT NOT NULL,
checkpoint_id TEXT,
created_at TEXT NOT NULL";

/// The columns of `memory_candidates`.
pub const MEMORY_CANDIDATES_COLUMNS: &'static str = "\
candidate_id TEXT PRIMARY KEY,
source_event_id TEXT NOT NULL UNIQUE,
thread_id TEXT,
run_id TEXT,
spec_id TEXT,
message_id TEXT,
agent_runtime_id TEXT,
agent TEXT,
role TEXT NOT NULL DEFAULT 'system',
operation TEXT NOT NULL,
raw_payload TEXT NOT NULL DEFAULT '{}',
distilled_content TEXT,
dedupe_key TEXT,
importance_score REAL NOT NULL DEFAULT 0.0,
retention_class TEXT NOT NULL DEFAULT 'working',
learning_intent TEXT NOT NULL DEFAULT 'awareness_only',
sensitivity_label TEXT NOT NULL DEFAULT 'normal',
evidence_refs TEXT NOT NULL DEFAULT '[]',
causality_json TEXT NOT NULL DEFAULT '{}',
status TEXT NOT NULL DEFAULT 'pending',
openbrain_ref TEXT,
calvin_contract_json TEXT,
created_at TEXT NOT NULL,
processed_at TEXT";

/// The columns of `operator_model_profiles`.
pub const OPERATOR_MODEL_PROFILES_COLUMNS: &'static str = "\
profile_id TEXT PRIMARY KEY,
scope TEXT NOT NULL,
project_root TEXT,
display_name TEXT NOT NULL DEFAULT '',
status TEXT NOT NULL DEFAULT 'active',
current_version INTEGER NOT NULL DEFAULT 0,
created_at TEXT NOT NULL,
updated_at TEXT NOT NULL";

/// The columns of `operator_model_sessions`.
pub const OPERATOR_MODEL_SESSIONS_COLUMNS: &'static str = "\
session_id TEXT PRIMARY KEY,
profile_id TEXT NOT NULL REFERENCES operator_model_profiles(profile_id),
thread_id TEXT,
status TEXT NOT NULL,
pending_layer TEXT,
started_by TEXT,
created_at TEXT NOT NULL,
updated_at TEXT NOT NULL,
completed_at TEXT";

/// The columns of `operator_model_layer_checkpoints`.
pub const OPERATOR_MODEL_LAYER_CHECKPOINTS_COLUMNS: &'static str = "\
checkpoint_id TEXT PRIMARY KEY,
session_id TEXT NOT NULL REFERENCES operator_model_sessions(session_id),
profile_id TEXT NOT NULL REFERENCES operator_model_profiles(profile_id),
version INTEGER NOT NULL,
layer TEXT NOT NULL,
status TEXT NOT NULL,
summary_md TEXT NOT NULL,
raw_notes_json TEXT NOT NULL DEFAULT '{}',
approved_by TEXT,
created_at TEXT NOT NULL,
approved_at TEXT";

/// The columns of `operator_model_entries`.
pub const OPERATOR_MODEL_ENTRIES_COLUMNS: &'static str = "\
entry_id TEXT PRIMARY KEY,
profile_id TEXT NOT NULL REFERENCES operator_model_profiles(profile_id),
version INTEGER NOT NULL,
layer TEXT NOT NULL,
entry_type TEXT NOT NULL,
title TEXT NOT NULL,
content TEXT NOT NULL,
details_json TEXT NOT NULL DEFAULT '{}',
source_checkpoint_id TEXT NOT NULL REFERENCES operator_model_layer_checkpoints(checkpoint_id),
status TEXT NOT NULL DEFAULT 'current',
superseded_by TEXT,
created_at TEXT NOT NULL";

/// The columns of `operator_model_exports`.
pub const OPERATOR_MODEL_EXPORTS_COLUMNS: &'static str = "\
export_id TEXT PRIMARY KEY,
profile_id TEXT NOT NULL REFERENCES operator_model_profiles(profile_id),
version INTEGER NOT NULL,
artifact_name TEXT NOT NULL,
content TEXT NOT NULL,
content_type TEXT NOT NULL,
created_at TEXT NOT NULL";

/// The columns of `operator_model_update_candidates`.
pub const OPERATOR_MODEL_UPDATE_CANDIDATES_COLUMNS: &'static str = "\
candidate_id TEXT PRIMARY KEY,
profile_id TEXT NOT NULL REFERENCES operator_model_profiles(profile_id),
run_id TEXT,
entry_id TEXT,
proposal_kind TEXT NOT NULL,
summary TEXT NOT NULL,
proposal_json TEXT NOT NULL DEFAULT '{}',
status TEXT NOT NULL DEFAULT 'open',
confidence REAL NOT NULL DEFAULT 0.0,
created_at TEXT NOT NULL,
reviewed_at TEXT";

/// The columns of `consolidation_candidates`.
pub const CONSOLIDATION_CANDIDATES_COLUMNS: &'static str = "\
candidate_id TEXT PRIMARY KEY,
run_id TEXT NOT NULL,
kind TEXT NOT NULL,
status TEXT NOT NULL DEFAULT 'pending',
content_json TEXT NOT NULL DEFAULT '{}',
edited_json TEXT,
review_class TEXT NOT NULL DEFAULT 'standard',
pattern_basis_json TEXT NOT NULL DEFAULT '[]',
confidence REAL NOT NULL DEFAULT 0.5,
label TEXT NOT NULL DEFAULT '',
created_at TEXT NOT NULL,
reviewed_at TEXT";

/// The columns of `run_cost_events`.
pub const RUN_COST_EVENTS_COLUMNS: &'static str = "\
event_id TEXT PRIMARY KEY,
run_id TEXT NOT NULL,
agent TEXT NOT NULL DEFAULT '',
phase TEXT NOT NULL DEFAULT '',
provider TEXT NOT NULL DEFAULT '',
model TEXT NOT NULL DEFAULT '',
input_tokens INTEGER NOT NULL DEFAULT 0,
output_tokens INTEGER NOT NULL DEFAULT 0,
latency_ms INTEGER NOT NULL DEFAULT 0,
created_at TEXT NOT NULL";

/// The columns of `decision_log`.
pub const DECISION_LOG_COLUMNS: &'static str = "\
decision_id TEXT PRIMARY KEY,
run_id TEXT NOT NULL,
agent TEXT NOT NULL DEFAULT '',
phase TEXT NOT NULL DEFAULT '',
decision_kind TEXT NOT NULL DEFAULT '',
chose TEXT NOT NULL DEFAULT '',
alternatives_json TEXT NOT NULL DEFAULT '[]',
justification TEXT NOT NULL DEFAULT '',
approved_by TEXT,
created_at TEXT NOT NULL";

/// The columns of `coordination_leases`.
pub const COORDINATION_LEASES_COLUMNS: &'static str = "\
agent TEXT PRIMARY KEY,
task TEXT NOT NULL DEFAULT '',
files_json TEXT NOT NULL DEFAULT '[]',
claimed_at TEXT NOT NULL,
last_heartbeat_at TEXT NOT NULL DEFAULT '',
status TEXT NOT NULL DEFAULT 'active',
resource_kind TEXT NOT NULL DEFAULT 'file',
ttl_secs INTEGER NOT NULL DEFAULT 0,
guardrails_json TEXT NOT NULL DEFAULT '[]',
expires_at TEXT NOT NULL DEFAULT '',
updated_at TEXT NOT NULL";

/// The columns of `coordination_policy_events_db`.
pub const COORDINATION_POLICY_EVENTS_DB_COLUMNS: &'static str = "\
event_id TEXT PRIMARY KEY,
managed_by TEXT NOT NULL DEFAULT 'keeper',
event_type TEXT NOT NULL DEFAULT '',
status TEXT NOT NULL DEFAULT '',
agent TEXT,
conflicting_agent TEXT,
files_json TEXT NOT NULL DEFAULT '[]',
message TEXT NOT NULL DEFAULT '',
created_at TEXT NOT NULL";

/// The columns of `agent_runtime_state`.
pub const AGENT_RUNTIME_STATE_COLUMNS: &'static str = "\
runtime_id TEXT PRIMARY KEY,
run_id TEXT NOT NULL,
thread_id TEXT,
canonical_role TEXT NOT NULL DEFAULT '',
display_name TEXT NOT NULL DEFAULT '',
ownership TEXT NOT NULL DEFAULT '',
status TEXT NOT NULL DEFAULT 'active',
provider TEXT,
surface TEXT,
source TEXT NOT NULL DEFAULT '',
last_heartbeat_at TEXT NOT NULL DEFAULT '',
started_at TEXT NOT NULL,
updated_at TEXT NOT NULL";

/// The columns of `agent_state`.
pub const AGENT_STATE_COLUMNS: &'static str = "\
agent_name TEXT PRIMARY KEY,
agent_role TEXT NOT NULL,
llm_provider TEXT NOT NULL,
llm_model TEXT NOT NULL,
memory_block_ids TEXT NOT NULL DEFAULT '{}',
last_stop_reason TEXT,
last_active_run TEXT,
behavior_contract_hash TEXT,
updated_at TEXT NOT NULL";

/// The columns of `causal_graph_projections`.
pub const CAUSAL_GRAPH_PROJECTIONS_COLUMNS: &'static str = "\
run_id TEXT PRIMARY KEY,
backend TEXT NOT NULL,
status TEXT NOT NULL,
database_name TEXT NOT NULL,
schema_path TEXT NOT NULL,
graph_json TEXT NOT NULL,
episode_count INTEGER NOT NULL DEFAULT 0,
event_count INTEGER NOT NULL DEFAULT 0,
link_count INTEGER NOT NULL DEFAULT 0,
hypothesis_count INTEGER NOT NULL DEFAULT 0,
projected_at TEXT NOT NULL";

/// The columns of `memory_updates`.
pub const MEMORY_UPDATES_COLUMNS: &'static str = "\
update_id TEXT PRIMARY KEY,
old_memory_id TEXT NOT NULL,
new_memory_id TEXT NOT NULL,
memory_root TEXT NOT NULL DEFAULT '',
reason TEXT NOT NULL DEFAULT '',
review_status TEXT NOT NULL DEFAULT 'pending',
reviewed_by TEXT,
review_note TEXT,
reviewed_at TEXT,
created_at TEXT NOT NULL";

/// The columns of `code_review_learning_records`.
pub const CODE_REVIEW_LEARNING_RECORDS_COLUMNS: &'static str = "\
record_id TEXT PRIMARY KEY,
run_id TEXT NOT NULL,
source_agent TEXT NOT NULL,
reviewer_agent TEXT NOT NULL,
finding_fingerprint TEXT NOT NULL,
files_json TEXT NOT NULL DEFAULT '[]',
severity TEXT NOT NULL,
resolution TEXT NOT NULL,
lesson TEXT NOT NULL,
evidence_refs_json TEXT NOT NULL DEFAULT '[]',
stale_if_file_changed_json TEXT NOT NULL DEFAULT '[]',
status TEXT NOT NULL DEFAULT 'active',
created_at TEXT NOT NULL";

/// The columns of `behavioral_change_reports`.
pub const BEHAVIORAL_CHANGE_REPORTS_COLUMNS: &'static str = "\
report_id TEXT PRIMARY KEY,
run_id TEXT NOT NULL UNIQUE,
spec_id TEXT NOT NULL,
status TEXT NOT NULL,
summary TEXT NOT NULL,
metrics_json TEXT NOT NULL DEFAULT '{}',
prior_revision_candidates_json TEXT NOT NULL DEFAULT '[]',
artifact_json TEXT NOT NULL DEFAULT '{}',
created_at TEXT NOT NULL";

/// The columns of `agent_traces`.
pub const AGENT_TRACES_COLUMNS: &'static str = "\
trace_id TEXT PRIMARY KEY,
run_id TEXT NOT NULL,
agent TEXT NOT NULL DEFAULT '',
phase TEXT NOT NULL DEFAULT '',
input_summary TEXT NOT NULL DEFAULT '',
reasoning_steps TEXT NOT NULL DEFAULT '[]',
actions_taken TEXT NOT NULL DEFAULT '[]',
outcome TEXT NOT NULL DEFAULT '',
input_tokens INTEGER NOT NULL DEFAULT 0,
output_tokens INTEGER NOT NULL DEFAULT 0,
latency_ms INTEGER NOT NULL DEFAULT 0,
created_at TEXT NOT NULL";

// ---------------------------------------------------------------------------
// Steps
// ---------------------------------------------------------------------------

/// One step towards the schema.
#[derive(Debug, Clone, Copy, PartialEq, Eq)]
pub enum SchemaStep {
    /// Creates a table where it is missing.
    CreateTable { table: &'static str, columns: &'static str },
    /// Creates an index where it is missing.
    CreateIndex { index: &'static str, unique: bool, table: &'static str, columns: &'static str },
    /// Adds a column to a table that came without it.
    AddColumn { table: &'static str, column: &'static str, kind: &'static str },
    /// Fills in the state of the agents that have a profile.
    SeedAgentState,
}

/// Runs, the write queue and predictions.
pub open spec fn run_steps() -> Seq<SchemaStep> {
    seq![
        SchemaStep::CreateTable { table: "runs", columns: RUNS_COLUMNS },
        SchemaStep::CreateTable { table: "calvin_write_queue", columns: CALVIN_WRITE_QUEUE_COLUMNS },
        SchemaStep::CreateIndex {
            index: "idx_calvin_write_queue_status_next_attempt",
            unique: false,
            table: "calvin_write_queue",
            columns: "status, next_attempt_at",
        },
        SchemaStep::CreateTable { table: "run_predictions", columns: RUN_PREDICTIONS_COLUMNS },
        SchemaStep::CreateIndex {
            index: "idx_run_predictions_spec_created",
            unique: false,
            table: "run_predictions",
            columns: "spec_id, created_at",
        },
        SchemaStep::CreateTable { table: "spec_family_profiles", columns: SPEC_FAMILY_PROFILES_COLUMNS },
        SchemaStep::CreateIndex {
            index: "idx_spec_family_profiles_updated",
            unique: false,
            table: "spec_family_profiles",
            columns: "updated_at",
        },
        SchemaStep::CreateTable { table: "prediction_success_reinforcements", columns: PREDICTION_SUCCESS_REINFORCEMENTS_COLUMNS },
        SchemaStep::CreateIndex {
            index: "idx_prediction_success_reinforcements_cause",
            unique: false,
            table: "prediction_success_reinforcements",
            columns: "source_cause_id, created_at",
        },
        SchemaStep::CreateTable { table: "memory_influence_exclusions", columns: MEMORY_INFLUENCE_EXCLUSIONS_COLUMNS },
        SchemaStep::CreateIndex {
            index: "idx_memory_influence_exclusions_run",
            unique: false,
            table: "memory_influence_exclusions",
            columns: "run_id, created_at",
        },
        SchemaStep::CreateIndex {
            index: "idx_memory_influence_exclusions_key",
            unique: false,
            table: "memory_influence_exclusions",
            columns: "memory_key, created_at",
        },
    ]
}

fn run_steps_list() -> (out: Vec<SchemaStep>)
    ensures
        out@ == run_steps(),
{
    let out = vec![
        SchemaStep::CreateTable { table: "runs", columns: RUNS_COLUMNS },
        SchemaStep::CreateTable { table: "calvin_write_queue", columns: CALVIN_WRITE_QUEUE_COLUMNS },
        SchemaStep::CreateIndex {
            index: "idx_calvin_write_queue_status_next_attempt",
            unique: false,
            table: "calvin_write_queue",
            columns: "status, next_attempt_at",
        },
        SchemaStep::CreateTable { table: "run_predictions", columns: RUN_PREDICTIONS_COLUMNS },
        SchemaStep::CreateIndex {
            index: "idx_run_predictions_spec_created",
            unique: false,
            table: "run_predictions",
            columns: "spec_id, created_at",
        },
        SchemaStep::CreateTable { table: "spec_family_profiles", columns: SPEC_FAMILY_PROFILES_COLUMNS },
        SchemaStep::CreateIndex {
            index: "idx_spec_family_profiles_updated",
            unique: false,
            table: "spec_family_profiles",
            columns: "updated_at",
        },
        SchemaStep::CreateTable { table: "prediction_success_reinforcements", columns: PREDICTION_SUCCESS_REINFORCEMENTS_COLUMNS },
        SchemaStep::CreateIndex {
            index: "idx_prediction_success_reinforcements_cause",
            unique: false,
            table: "prediction_success_reinforcements",
            columns: "source_cause_id, created_at",
        },
        SchemaStep::CreateTable { table: "memory_influence_exclusions", columns: MEMORY_INFLUENCE_EXCLUSIONS_COLUMNS },
        SchemaStep::CreateIndex {
            index: "idx_memory_influence_exclusions_run",
            unique: false,
            table: "memory_influence_exclusions",
            columns: "run_id, created_at",
        },
        SchemaStep::CreateIndex {
            index: "idx_memory_influence_exclusions_key",
            unique: false,
            table: "memory_influence_exclusions",
            columns: "memory_key, created_at",
        },
    ];
    assert(out@ =~= run_steps());
    out
}

/// Events, episodes and what is learned from them.
pub open spec fn episode_steps() -> Seq<SchemaStep> {
    seq![
        SchemaStep::CreateTable { table: "run_events", columns: RUN_EVENTS_COLUMNS },
        SchemaStep::AddColumn {
            table: "run_events",
            column: "episode_id",
            kind: "TEXT",
        },
        SchemaStep::CreateTable { table: "episodes", columns: EPISODES_COLUMNS },
        SchemaStep::AddColumn {
            table: "episodes",
            column: "state_before",
            kind: "TEXT",
        },
        SchemaStep::AddColumn {
            table: "episodes",
            column: "state_after",
            kind: "TEXT",
        },
        SchemaStep::CreateTable { table: "phase_attributions", columns: PHASE_ATTRIBUTIONS_COLUMNS },
        SchemaStep::AddColumn {
            table: "phase_attributions",
            column: "briefing_scope",
            kind: "TEXT",
        },
        SchemaStep::AddColumn {
            table: "phase_attributions",
            column: "briefing_token_budget",
            kind: "INTEGER NOT NULL DEFAULT 0",
        },
        SchemaStep::AddColumn {
            table: "phase_attributions",
            column: "briefing_tokens_used",
            kind: "INTEGER NOT NULL DEFAULT 0",
        },
        SchemaStep::AddColumn {
            table: "phase_attributions",
            column: "briefing_hits_provided",
            kind: "INTEGER NOT NULL DEFAULT 0",
        },
        SchemaStep::AddColumn {
            table: "phase_attributions",
            column: "stakeholder_alignment_json",
            kind: "TEXT NOT NULL DEFAULT 'null'",
        },
        SchemaStep::CreateIndex {
            index: "idx_phase_attributions_run_id_phase",
            unique: false,
            table: "phase_attributions",
            columns: "run_id, phase",
        },
        SchemaStep::CreateTable { table: "context_pull_records", columns: CONTEXT_PULL_RECORDS_COLUMNS },
        SchemaStep::AddColumn {
            table: "context_pull_records",
            column: "trigger",
            kind: "TEXT",
        },
        SchemaStep::CreateIndex {
            index: "idx_context_pull_records_run_created",
            unique: false,
            table: "context_pull_records",
            columns: "run_id, created_at",
        },
        SchemaStep::CreateTable { table: "run_checkpoints", columns: RUN_CHECKPOINTS_COLUMNS },
        SchemaStep::CreateIndex {
            index: "idx_run_checkpoints_run_status",
            unique: false,
            table: "run_checkpoints",
            columns: "run_id, status, created_at",
        },
        SchemaStep::CreateTable { table: "checkpoint_answers", columns: CHECKPOINT_ANSWERS_COLUMNS },
        SchemaStep::CreateIndex {
            index: "idx_checkpoint_answers_checkpoint",
            unique: false,
            table: "checkpoint_answers",
            columns: "checkpoint_id, created_at",
        },
        SchemaStep::CreateTable { table: "causal_links", columns: CAUSAL_LINKS_COLUMNS },
        SchemaStep::CreateTable { table: "lessons", columns: LESSONS_COLUMNS },
        SchemaStep::CreateIndex {
            index: "idx_run_events_run_id_event_id",
            unique: false,
            table: "run_events",
            columns: "run_id, event_id",
        },
        SchemaStep::CreateIndex {
            index: "idx_causal_links_from",
            unique: false,
            table: "causal_links",
            columns: "from_event",
        },
        SchemaStep::CreateIndex {
            index: "idx_causal_links_to",
            unique: false,
            table: "causal_links",
            columns: "to_event",
        },
        SchemaStep::CreateIndex {
            index: "idx_lessons_tags",
            unique: false,
            table: "lessons",
            columns: "tags",
        },
    ]
}

fn episode_steps_list() -> (out: Vec<SchemaStep>)
    ensures
        out@ == episode_steps(),
{
    let out = vec![
        SchemaStep::CreateTable { table: "run_events", columns: RUN_EVENTS_COLUMNS },
        SchemaStep::AddColumn {
            table: "run_events",
            column: "episode_id",
            kind: "TEXT",
        },
        SchemaStep::CreateTable { table: "episodes", columns: EPISODES_COLUMNS },
        SchemaStep::AddColumn {
            table: "episodes",
            column: "state_before",
            kind: "TEXT",
        },
        SchemaStep::AddColumn {
            table: "episodes",
            column: "state_after",
            kind: "TEXT",
        },
        SchemaStep::CreateTable { table: "phase_attributions", columns: PHASE_ATTRIBUTIONS_COLUMNS },
        SchemaStep::AddColumn {
            table: "phase_attributions",
            column: "briefing_scope",
            kind: "TEXT",
        },
        SchemaStep::AddColumn {
            table: "phase_attributions",
            column: "briefing_token_budget",
            kind: "INTEGER NOT NULL DEFAULT 0",
        },
        SchemaStep::AddColumn {
            table: "phase_attributions",
            column: "briefing_tokens_used",
            kind: "INTEGER NOT NULL DEFAULT 0",
        },
        SchemaStep::AddColumn {
            table: "phase_attributions",
            column: "briefing_hits_provided",
            kind: "INTEGER NOT NULL DEFAULT 0",
        },
        SchemaStep::AddColumn {
            table: "phase_attributions",
            column: "stakeholder_alignment_json",
            kind: "TEXT NOT NULL DEFAULT 'null'",
        },
        SchemaStep::CreateIndex {
            index: "idx_phase_attributions_run_id_phase",
            unique: false,
            table: "phase_attributions",
            columns: "run_id, phase",
        },
        SchemaStep::CreateTable { table: "context_pull_records", columns: CONTEXT_PULL_RECORDS_COLUMNS },
        SchemaStep::AddColumn {
            table: "context_pull_records",
            column: "trigger",
            kind: "TEXT",
        },
        SchemaStep::CreateIndex {
            index: "idx_context_pull_records_run_created",
            unique: false,
            table: "context_pull_records",
            columns: "run_id, created_at",
        },
        SchemaStep::CreateTable { table: "run_checkpoints", columns: RUN_CHECKPOINTS_COLUMNS },
        SchemaStep::CreateIndex {
            index: "idx_run_checkpoints_run_status",
            unique: false,
            table: "run_checkpoints",
            columns: "run_id, status, created_at",
        },
        SchemaStep::CreateTable { table: "checkpoint_answers", columns: CHECKPOINT_ANSWERS_COLUMNS },
        SchemaStep::CreateIndex {
            index: "idx_checkpoint_answers_checkpoint",
            unique: false,
            table: "checkpoint_answers",
            columns: "checkpoint_id, created_at",
        },
        SchemaStep::CreateTable { table: "causal_links", columns: CAUSAL_LINKS_COLUMNS },
        SchemaStep::CreateTable { table: "lessons", columns: LESSONS_COLUMNS },
        SchemaStep::CreateIndex {
            index: "idx_run_events_run_id_event_id",
            unique: false,
            table: "run_events",
            columns: "run_id, event_id",
        },
        SchemaStep::CreateIndex {
            index: "idx_causal_links_from",
            unique: false,
            table: "causal_links",
            columns: "from_event",
        },
        SchemaStep::CreateIndex {
            index: "idx_causal_links_to",
            unique: false,
            table: "causal_links",
            columns: "to_event",
        },
        SchemaStep::CreateIndex {
            index: "idx_lessons_tags",
            unique: false,
            table: "lessons",
            columns: "tags",
        },
    ];
    assert(out@ =~= episode_steps());
    out
}

/// Scores, causal hypotheses and memory embeddings.
pub open spec fn score_steps() -> Seq<SchemaStep> {
    seq![
        SchemaStep::CreateTable { table: "coobie_episode_scores", columns: COOBIE_EPISODE_SCORES_COLUMNS },
        SchemaStep::AddColumn {
            table: "coobie_episode_scores",
            column: "phase_success_score",
            kind: "REAL NOT NULL DEFAULT 1.0",
        },
        SchemaStep::CreateTable { table: "causal_hypotheses", columns: CAUSAL_HYPOTHESES_COLUMNS },
        SchemaStep::AddColumn {
            table: "causal_hypotheses",
            column: "hierarchy_level",
            kind: "TEXT NOT NULL DEFAULT 'associational'",
        },
        SchemaStep::AddColumn {
            table: "causal_hypotheses",
            column: "evidence",
            kind: "TEXT NOT NULL DEFAULT '[]'",
        },
        SchemaStep::CreateTable { table: "interventions", columns: INTERVENTIONS_COLUMNS },
        SchemaStep::CreateTable { table: "heuristics", columns: HEURISTICS_COLUMNS },
        SchemaStep::CreateIndex {
            index: "idx_causal_hypotheses_run_id",
            unique: false,
            table: "causal_hypotheses",
            columns: "run_id",
        },
        SchemaStep::CreateIndex {
            index: "idx_coobie_scores_scenario",
            unique: false,
            table: "coobie_episode_scores",
            columns: "scenario_passed, validation_passed",
        },
        SchemaStep::CreateTable { table: "memory_embeddings", columns: MEMORY_EMBEDDINGS_COLUMNS },
        SchemaStep::AddColumn {
            table: "memory_embeddings",
            column: "backend_id",
            kind: "TEXT NOT NULL DEFAULT ''",
        },
        SchemaStep::AddColumn {
            table: "memory_embeddings",
            column: "model_id",
            kind: "TEXT NOT NULL DEFAULT ''",
        },
    ]
}

fn score_steps_list() -> (out: Vec<SchemaStep>)
    ensures
        out@ == score_steps(),
{
    let out = vec![
        SchemaStep::CreateTable { table: "coobie_episode_scores", columns: COOBIE_EPISODE_SCORES_COLUMNS },
        SchemaStep::AddColumn {
            table: "coobie_episode_scores",
            column: "phase_success_score",
            kind: "REAL NOT NULL DEFAULT 1.0",
        },
        SchemaStep::CreateTable { table: "causal_hypotheses", columns: CAUSAL_HYPOTHESES_COLUMNS },
        SchemaStep::AddColumn {
            table: "causal_hypotheses",
            column: "hierarchy_level",
            kind: "TEXT NOT NULL DEFAULT 'associational'",
        },
        SchemaStep::AddColumn {
            table: "causal_hypotheses",
            column: "evidence",
            kind: "TEXT NOT NULL DEFAULT '[]'",
        },
        SchemaStep::CreateTable { table: "interventions", columns: INTERVENTIONS_COLUMNS },
        SchemaStep::CreateTable { table: "heuristics", columns: HEURISTICS_COLUMNS },
        SchemaStep::CreateIndex {
            index: "idx_causal_hypotheses_run_id",
            unique: false,
            table: "causal_hypotheses",
            columns: "run_id",
        },
        SchemaStep::CreateIndex {
            index: "idx_coobie_scores_scenario",
            unique: false,
            table: "coobie_episode_scores",
            columns: "scenario_passed, validation_passed",
        },
        SchemaStep::CreateTable { table: "memory_embeddings", columns: MEMORY_EMBEDDINGS_COLUMNS },
        SchemaStep::AddColumn {
            table: "memory_embeddings",
            column: "backend_id",
            kind: "TEXT NOT NULL DEFAULT ''",
        },
        SchemaStep::AddColumn {
            table: "memory_embeddings",
            column: "model_id",
            kind: "TEXT NOT NULL DEFAULT ''",
        },
    ];
    assert(out@ =~= score_steps());
    out
}

/// Conversations and what they suggest to remember.
pub open spec fn chat_steps() -> Seq<SchemaStep> {
    seq![
        SchemaStep::CreateTable { table: "chat_threads", columns: CHAT_THREADS_COLUMNS },
        SchemaStep::AddColumn {
            table: "chat_threads",
            column: "thread_kind",
            kind: "TEXT NOT NULL DEFAULT 'general'",
        },
        SchemaStep::AddColumn {
            table: "chat_threads",
            column: "metadata_json",
            kind: "TEXT NOT NULL DEFAULT '{}'",
        },
        SchemaStep::CreateIndex {
            index: "idx_chat_threads_run_id",
            unique: false,
            table: "chat_threads",
            columns: "run_id, created_at",
        },
        SchemaStep::CreateTable { table: "chat_messages", columns: CHAT_MESSAGES_COLUMNS },
        SchemaStep::AddColumn {
            table: "chat_messages",
            column: "agent_runtime_id",
            kind: "TEXT",
        },
        SchemaStep::CreateIndex {
            index: "idx_chat_messages_thread_id",
            unique: false,
            table: "chat_messages",
            columns: "thread_id, created_at",
        },
        SchemaStep::CreateTable { table: "memory_candidates", columns: MEMORY_CANDIDATES_COLUMNS },
        SchemaStep::AddColumn {
            table: "memory_candidates",
            column: "dedupe_key",
            kind: "TEXT",
        },
        SchemaStep::AddColumn {
            table: "memory_candidates",
            column: "learning_intent",
            kind: "TEXT NOT NULL DEFAULT 'awareness_only'",
        },
        SchemaStep::CreateIndex {
            index: "idx_memory_candidates_run_status",
            unique: false,
            table: "memory_candidates",
            columns: "run_id, status, created_at",
        },
        SchemaStep::CreateIndex {
            index: "idx_memory_candidates_thread_status",
            unique: false,
            table: "memory_candidates",
            columns: "thread_id, status, created_at",
        },
        SchemaStep::CreateIndex {
            index: "idx_memory_candidates_dedupe_status",
            unique: false,
            table: "memory_candidates",
            columns: "dedupe_key, status",
        },
    ]
}

fn chat_steps_list() -> (out: Vec<SchemaStep>)
    ensures
        out@ == chat_steps(),
{
    let out = vec![
        SchemaStep::CreateTable { table: "chat_threads", columns: CHAT_THREADS_COLUMNS },
        SchemaStep::AddColumn {
            table: "chat_threads",
            column: "thread_kind",
            kind: "TEXT NOT NULL DEFAULT 'general'",
        },
        SchemaStep::AddColumn {
            table: "chat_threads",
            column: "metadata_json",
            kind: "TEXT NOT NULL DEFAULT '{}'",
        },
        SchemaStep::CreateIndex {
            index: "idx_chat_threads_run_id",
            unique: false,
            table: "chat_threads",
            columns: "run_id, created_at",
        },
        SchemaStep::CreateTable { table: "chat_messages", columns: CHAT_MESSAGES_COLUMNS },
        SchemaStep::AddColumn {
            table: "chat_messages",
            column: "agent_runtime_id",
            kind: "TEXT",
        },
        SchemaStep::CreateIndex {
            index: "idx_chat_messages_thread_id",
            unique: false,
            table: "chat_messages",
            columns: "thread_id, created_at",
        },
        SchemaStep::CreateTable { table: "memory_candidates", columns: MEMORY_CANDIDATES_COLUMNS },
        SchemaStep::AddColumn {
            table: "memory_candidates",
            column: "dedupe_key",
            kind: "TEXT",
        },
        SchemaStep::AddColumn {
            table: "memory_candidates",
            column: "learning_intent",
            kind: "TEXT NOT NULL DEFAULT 'awareness_only'",
        },
        SchemaStep::CreateIndex {
            index: "idx_memory_candidates_run_status",
            unique: false,
            table: "memory_candidates",
            columns: "run_id, status, created_at",
        },
        SchemaStep::CreateIndex {
            index: "idx_memory_candidates_thread_status",
            unique: false,
            table: "memory_candidates",
            columns: "thread_id, status, created_at",
        },
        SchemaStep::CreateIndex {
            index: "idx_memory_candidates_dedupe_status",
            unique: false,
            table: "memory_candidates",
            columns: "dedupe_key, status",
        },
    ];
    assert(out@ =~= chat_steps());
    out
}

/// What is known of the operator.
pub open spec fn operator_model_steps() -> Seq<SchemaStep> {
    seq![
        SchemaStep::CreateTable { table: "operator_model_profiles", columns: OPERATOR_MODEL_PROFILES_COLUMNS },
        SchemaStep::CreateIndex {
            index: "idx_operator_model_profiles_scope_project",
            unique: false,
            table: "operator_model_profiles",
            columns: "scope, project_root",
        },
        SchemaStep::CreateTable { table: "operator_model_sessions", columns: OPERATOR_MODEL_SESSIONS_COLUMNS },
        SchemaStep::CreateIndex {
            index: "idx_operator_model_sessions_profile_status",
            unique: false,
            table: "operator_model_sessions",
            columns: "profile_id, status, created_at",
        },
        SchemaStep::CreateTable { table: "operator_model_layer_checkpoints", columns: OPERATOR_MODEL_LAYER_CHECKPOINTS_COLUMNS },
        SchemaStep::CreateIndex {
            index: "idx_operator_model_checkpoints_profile_layer",
            unique: false,
            table: "operator_model_layer_checkpoints",
            columns: "profile_id, version, layer, status",
        },
        SchemaStep::CreateTable { table: "operator_model_entries", columns: OPERATOR_MODEL_ENTRIES_COLUMNS },
        SchemaStep::CreateIndex {
            index: "idx_operator_model_entries_profile_layer",
            unique: false,
            table: "operator_model_entries",
            columns: "profile_id, version, layer, status",
        },
        SchemaStep::CreateTable { table: "operator_model_exports", columns: OPERATOR_MODEL_EXPORTS_COLUMNS },
        SchemaStep::CreateIndex {
            index: "idx_operator_model_exports_profile_version",
            unique: false,
            table: "operator_model_exports",
            columns: "profile_id, version, artifact_name",
        },
        SchemaStep::CreateTable { table: "operator_model_update_candidates", columns: OPERATOR_MODEL_UPDATE_CANDIDATES_COLUMNS },
        SchemaStep::CreateIndex {
            index: "idx_operator_model_update_candidates_profile_status",
            unique: false,
            table: "operator_model_update_candidates",
            columns: "profile_id, status, created_at",
        },
    ]
}

fn operator_model_steps_list() -> (out: Vec<SchemaStep>)
    ensures
        out@ == operator_model_steps(),
{
    let out = vec![
        SchemaStep::CreateTable { table: "operator_model_profiles", columns: OPERATOR_MODEL_PROFILES_COLUMNS },
        SchemaStep::CreateIndex {
            index: "idx_operator_model_profiles_scope_project",
            unique: false,
            table: "operator_model_profiles",
            columns: "scope, project_root",
        },
        SchemaStep::CreateTable { table: "operator_model_sessions", columns: OPERATOR_MODEL_SESSIONS_COLUMNS },
        SchemaStep::CreateIndex {
            index: "idx_operator_model_sessions_profile_status",
            unique: false,
            table: "operator_model_sessions",
            columns: "profile_id, status, created_at",
        },
        SchemaStep::CreateTable { table: "operator_model_layer_checkpoints", columns: OPERATOR_MODEL_LAYER_CHECKPOINTS_COLUMNS },
        SchemaStep::CreateIndex {
            index: "idx_operator_model_checkpoints_profile_layer",
            unique: false,
            table: "operator_model_layer_checkpoints",
            columns: "profile_id, version, layer, status",
        },
        SchemaStep::CreateTable { table: "operator_model_entries", columns: OPERATOR_MODEL_ENTRIES_COLUMNS },
        SchemaStep::CreateIndex {
            index: "idx_operator_model_entries_profile_layer",
            unique: false,
            table: "operator_model_entries",
            columns: "profile_id, version, layer, status",
        },
        SchemaStep::CreateTable { table: "operator_model_exports", columns: OPERATOR_MODEL_EXPORTS_COLUMNS },
        SchemaStep::CreateIndex {
            index: "idx_operator_model_exports_profile_version",
            unique: false,
            table: "operator_model_exports",
            columns: "profile_id, version, artifact_name",
        },
        SchemaStep::CreateTable { table: "operator_model_update_candidates", columns: OPERATOR_MODEL_UPDATE_CANDIDATES_COLUMNS },
        SchemaStep::CreateIndex {
            index: "idx_operator_model_update_candidates_profile_status",
            unique: false,
            table: "operator_model_update_candidates",
            columns: "profile_id, status, created_at",
        },
    ];
    assert(out@ =~= operator_model_steps());
    out
}

/// Consolidation, costs and decisions.
pub open spec fn consolidation_steps() -> Seq<SchemaStep> {
    seq![
        SchemaStep::CreateTable { table: "consolidation_candidates", columns: CONSOLIDATION_CANDIDATES_COLUMNS },
        SchemaStep::AddColumn {
            table: "consolidation_candidates",
            column: "review_class",
            kind: "TEXT NOT NULL DEFAULT 'standard'",
        },
        SchemaStep::AddColumn {
            table: "consolidation_candidates",
            column: "pattern_basis_json",
            kind: "TEXT NOT NULL DEFAULT '[]'",
        },
        SchemaStep::CreateIndex {
            index: "idx_consolidation_candidates_run_status",
            unique: false,
            table: "consolidation_candidates",
            columns: "run_id, status, created_at",
        },
        SchemaStep::CreateTable { table: "run_cost_events", columns: RUN_COST_EVENTS_COLUMNS },
        SchemaStep::CreateIndex {
            index: "idx_run_cost_events_run_id",
            unique: false,
            table: "run_cost_events",
            columns: "run_id, created_at",
        },
        SchemaStep::CreateTable { table: "decision_log", columns: DECISION_LOG_COLUMNS },
        SchemaStep::CreateIndex {
            index: "idx_decision_log_run_id",
            unique: false,
            table: "decision_log",
            columns: "run_id, created_at",
        },
    ]
}

fn consolidation_steps_list() -> (out: Vec<SchemaStep>)
    ensures
        out@ == consolidation_steps(),
{
    let out = vec![
        SchemaStep::CreateTable { table: "consolidation_candidates", columns: CONSOLIDATION_CANDIDATES_COLUMNS },
        SchemaStep::AddColumn {
            table: "consolidation_candidates",
            column: "review_class",
            kind: "TEXT NOT NULL DEFAULT 'standard'",
        },
        SchemaStep::AddColumn {
            table: "consolidation_candidates",
            column: "pattern_basis_json",
            kind: "TEXT NOT NULL DEFAULT '[]'",
        },
        SchemaStep::CreateIndex {
            index: "idx_consolidation_candidates_run_status",
            unique: false,
            table: "consolidation_candidates",
            columns: "run_id, status, created_at",
        },
        SchemaStep::CreateTable { table: "run_cost_events", columns: RUN_COST_EVENTS_COLUMNS },
        SchemaStep::CreateIndex {
            index: "idx_run_cost_events_run_id",
            unique: false,
            table: "run_cost_events",
            columns: "run_id, created_at",
        },
        SchemaStep::CreateTable { table: "decision_log", columns: DECISION_LOG_COLUMNS },
        SchemaStep::CreateIndex {
            index: "idx_decision_log_run_id",
            unique: false,
            table: "decision_log",
            columns: "run_id, created_at",
        },
    ];
    assert(out@ =~= consolidation_steps());
    out
}

/// Coordination of agents, their state and graph projections.
pub open spec fn coordination_steps() -> Seq<SchemaStep> {
    seq![
        SchemaStep::CreateTable { table: "coordination_leases", columns: COORDINATION_LEASES_COLUMNS },
        SchemaStep::CreateIndex {
            index: "idx_coordination_leases_status_updated",
            unique: false,
            table: "coordination_leases",
            columns: "status, updated_at",
        },
        SchemaStep::CreateTable { table: "coordination_policy_events_db", columns: COORDINATION_POLICY_EVENTS_DB_COLUMNS },
        SchemaStep::CreateIndex {
            index: "idx_coordination_policy_events_created_at",
            unique: false,
            table: "coordination_policy_events_db",
            columns: "created_at DESC",
        },
        SchemaStep::CreateTable { table: "agent_runtime_state", columns: AGENT_RUNTIME_STATE_COLUMNS },
        SchemaStep::CreateTable { table: "agent_state", columns: AGENT_STATE_COLUMNS },
        SchemaStep::CreateIndex {
            index: "idx_agent_state_updated_at",
            unique: false,
            table: "agent_state",
            columns: "updated_at",
        },
        SchemaStep::SeedAgentState,
        SchemaStep::CreateTable { table: "causal_graph_projections", columns: CAUSAL_GRAPH_PROJECTIONS_COLUMNS },
        SchemaStep::CreateIndex {
            index: "idx_causal_graph_projections_projected_at",
            unique: false,
            table: "causal_graph_projections",
            columns: "projected_at DESC",
        },
        SchemaStep::CreateIndex {
            index: "idx_agent_runtime_state_run",
            unique: false,
            table: "agent_runtime_state",
            columns: "run_id, canonical_role, updated_at",
        },
        SchemaStep::CreateIndex {
            index: "idx_agent_runtime_state_thread",
            unique: false,
            table: "agent_runtime_state",
            columns: "thread_id, updated_at",
        },
    ]
}

fn coordination_steps_list() -> (out: Vec<SchemaStep>)
    ensures
        out@ == coordination_steps(),
{
    let out = vec![
        SchemaStep::CreateTable { table: "coordination_leases", columns: COORDINATION_LEASES_COLUMNS },
        SchemaStep::CreateIndex {
            index: "idx_coordination_leases_status_updated",
            unique: false,
            table: "coordination_leases",
            columns: "status, updated_at",
        },
        SchemaStep::CreateTable { table: "coordination_policy_events_db", columns: COORDINATION_POLICY_EVENTS_DB_COLUMNS },
        SchemaStep::CreateIndex {
            index: "idx_coordination_policy_events_created_at",
            unique: false,
            table: "coordination_policy_events_db",
            columns: "created_at DESC",
        },
        SchemaStep::CreateTable { table: "agent_runtime_state", columns: AGENT_RUNTIME_STATE_COLUMNS },
        SchemaStep::CreateTable { table: "agent_state", columns: AGENT_STATE_COLUMNS },
        SchemaStep::CreateIndex {
            index: "idx_agent_state_updated_at",
            unique: false,
            table: "agent_state",
            columns: "updated_at",
        },
        SchemaStep::SeedAgentState,
        SchemaStep::CreateTable { table: "causal_graph_projections", columns: CAUSAL_GRAPH_PROJECTIONS_COLUMNS },
        SchemaStep::CreateIndex {
            index: "idx_causal_graph_projections_projected_at",
            unique: false,
            table: "causal_graph_projections",
            columns: "projected_at DESC",
        },
        SchemaStep::CreateIndex {
            index: "idx_agent_runtime_state_run",
            unique: false,
            table: "agent_runtime_state",
            columns: "run_id, canonical_role, updated_at",
        },
        SchemaStep::CreateIndex {
            index: "idx_agent_runtime_state_thread",
            unique: false,
            table: "agent_runtime_state",
            columns: "thread_id, updated_at",
        },
    ];
    assert(out@ =~= coordination_steps());
    out
}

/// Updates of memories.
pub open spec fn memory_update_steps() -> Seq<SchemaStep> {
    seq![
        SchemaStep::CreateTable { table: "memory_updates", columns: MEMORY_UPDATES_COLUMNS },
        SchemaStep::AddColumn {
            table: "memory_updates",
            column: "memory_root",
            kind: "TEXT NOT NULL DEFAULT ''",
        },
        SchemaStep::AddColumn {
            table: "memory_updates",
            column: "review_status",
            kind: "TEXT NOT NULL DEFAULT 'pending'",
        },
        SchemaStep::AddColumn {
            table: "memory_updates",
            column: "reviewed_by",
            kind: "TEXT",
        },
        SchemaStep::AddColumn {
            table: "memory_updates",
            column: "review_note",
            kind: "TEXT",
        },
        SchemaStep::AddColumn {
            table: "memory_updates",
            column: "reviewed_at",
            kind: "TEXT",
        },
        SchemaStep::CreateIndex {
            index: "idx_memory_updates_old_memory_id",
            unique: false,
            table: "memory_updates",
            columns: "old_memory_id, created_at",
        },
        SchemaStep::CreateIndex {
            index: "idx_memory_updates_created_at",
            unique: false,
            table: "memory_updates",
            columns: "created_at DESC",
        },
    ]
}

fn memory_update_steps_list() -> (out: Vec<SchemaStep>)
    ensures
        out@ == memory_update_steps(),
{
    let out = vec![
        SchemaStep::CreateTable { table: "memory_updates", columns: MEMORY_UPDATES_COLUMNS },
        SchemaStep::AddColumn {
            table: "memory_updates",
            column: "memory_root",
            kind: "TEXT NOT NULL DEFAULT ''",
        },
        SchemaStep::AddColumn {
            table: "memory_updates",
            column: "review_status",
            kind: "TEXT NOT NULL DEFAULT 'pending'",
        },
        SchemaStep::AddColumn {
            table: "memory_updates",
            column: "reviewed_by",
            kind: "TEXT",
        },
        SchemaStep::AddColumn {
            table: "memory_updates",
            column: "review_note",
            kind: "TEXT",
        },
        SchemaStep::AddColumn {
            table: "memory_updates",
            column: "reviewed_at",
            kind: "TEXT",
        },
        SchemaStep::CreateIndex {
            index: "idx_memory_updates_old_memory_id",
            unique: false,
            table: "memory_updates",
            columns: "old_memory_id, created_at",
        },
        SchemaStep::CreateIndex {
            index: "idx_memory_updates_created_at",
            unique: false,
            table: "memory_updates",
            columns: "created_at DESC",
        },
    ];
    assert(out@ =~= memory_update_steps());
    out
}

/// Review lessons, behaviour reports and traces.
pub open spec fn learning_steps() -> Seq<SchemaStep> {
    seq![
        SchemaStep::CreateTable { table: "code_review_learning_records", columns: CODE_REVIEW_LEARNING_RECORDS_COLUMNS },
        SchemaStep::CreateIndex {
            index: "idx_code_review_learning_records_run",
            unique: false,
            table: "code_review_learning_records",
            columns: "run_id, created_at",
        },
        SchemaStep::CreateIndex {
            index: "idx_code_review_learning_records_fingerprint",
            unique: true,
            table: "code_review_learning_records",
            columns: "run_id, finding_fingerprint",
        },
        SchemaStep::CreateTable { table: "behavioral_change_reports", columns: BEHAVIORAL_CHANGE_REPORTS_COLUMNS },
        SchemaStep::CreateIndex {
            index: "idx_behavioral_change_reports_status",
            unique: false,
            table: "behavioral_change_reports",
            columns: "status, created_at",
        },
        SchemaStep::CreateTable { table: "agent_traces", columns: AGENT_TRACES_COLUMNS },
        SchemaStep::CreateIndex {
            index: "idx_agent_traces_run_agent",
            unique: false,
            table: "agent_traces",
            columns: "run_id, agent, created_at",
        },
    ]
}

fn learning_steps_list() -> (out: Vec<SchemaStep>)
    ensures
        out@ == learning_steps(),
{
    let out = vec![
        SchemaStep::CreateTable { table: "code_review_learning_records", columns: CODE_REVIEW_LEARNING_RECORDS_COLUMNS },
        SchemaStep::CreateIndex {
            index: "idx_code_review_learning_records_run",
            unique: false,
            table: "code_review_learning_records",
            columns: "run_id, created_at",
        },
        SchemaStep::CreateIndex {
            index: "idx_code_review_learning_records_fingerprint",
            unique: true,
            table: "code_review_learning_records",
            columns: "run_id, finding_fingerprint",
        },
        SchemaStep::CreateTable { table: "behavioral_change_reports", columns: BEHAVIORAL_CHANGE_REPORTS_COLUMNS },
        SchemaStep::CreateIndex {
            index: "idx_behavioral_change_reports_status",
            unique: false,
            table: "behavioral_change_reports",
            columns: "status, created_at",
        },
        SchemaStep::CreateTable { table: "agent_traces", columns: AGENT_TRACES_COLUMNS },
        SchemaStep::CreateIndex {
            index: "idx_agent_traces_run_agent",
            unique: false,
            table: "agent_traces",
            columns: "run_id, agent, created_at",
        },
    ];
    assert(out@ =~= learning_steps());
    out
}

/// All steps, in the order in which they are taken.
pub open spec fn schema_steps() -> Seq<SchemaStep> {
    run_steps() + episode_steps() + score_steps() + chat_steps() + operator_model_steps()
        + consolidation_steps() + coordination_steps() + memory_update_steps() + learning_steps()
}

/// All steps, in the order in which they are taken.
pub fn schema_plan() -> (out: Vec<SchemaStep>)
    ensures
        out@ == schema_steps(),
{
    let mut out = run_steps_list();
    out.append(&mut episode_steps_list());
    out.append(&mut score_steps_list());
    out.append(&mut chat_steps_list());
    out.append(&mut operator_model_steps_list());
    out.append(&mut consolidation_steps_list());
    out.append(&mut coordination_steps_list());
    out.append(&mut memory_update_steps_list());
    out.append(&mut learning_steps_list());
    out
}

/// The statement that carries a step out, where it is one.
pub open spec fn step_statement(step: SchemaStep) -> Option<Seq<char>> {
    match step {
        SchemaStep::CreateTable { table, columns } => Some(
            "CREATE TABLE IF NOT EXISTS "@ + table@ + " (\n"@ + columns@ + "\n)"@,
        ),
        SchemaStep::CreateIndex { index, unique, table, columns } => Some(
            (if unique {
                "CREATE UNIQUE INDEX IF NOT EXISTS "@
            } else {
                "CREATE INDEX IF NOT EXISTS "@
            }) + index@ + " ON "@ + table@ + " ("@ + columns@ + ")"@,
        ),
        SchemaStep::AddColumn { table, column, kind } => Some(
            "ALTER TABLE "@ + table@ + " ADD COLUMN "@ + column@ + " "@ + kind@,
        ),
        SchemaStep::SeedAgentState => None,
    }
}

/// The statement that carries a step out, where it is one.
pub fn step_sql(step: &SchemaStep) -> (out: Option<String>)
    ensures
        out is Some <==> step_statement(*step) is Some,
        out matches Some(sql) ==> step_statement(*step) == Some(sql@),
{
    match *step {
        SchemaStep::CreateTable { table, columns } => Some(
            String::from_str("CREATE TABLE IF NOT EXISTS ").concat(table).concat(" (\n").concat(
                columns,
            ).concat("\n)"),
        ),
        SchemaStep::CreateIndex { index, unique, table, columns } => {
            let start = if unique {
                "CREATE UNIQUE INDEX IF NOT EXISTS "
            } else {
                "CREATE INDEX IF NOT EXISTS "
            };
            Some(
                String::from_str(start).concat(index).concat(" ON ").concat(table).concat(
                    " (",
                ).concat(columns).concat(")"),
            )
        },
        SchemaStep::AddColumn { table, column, kind } => Some(
            String::from_str("ALTER TABLE ").concat(table).concat(" ADD COLUMN ").concat(
                column,
            ).concat(" ").concat(kind),
        ),
        SchemaStep::SeedAgentState => None,
    }
}

/// The query for the columns of a table.
pub fn table_info_sql(table: &str) -> (out: String)
    ensures
        out@ == "PRAGMA table_info("@ + table@ + ")"@,
{
    String::from_str("PRAGMA table_info(").concat(table).concat(")")
}

/// Whether a column has to be added to a table that has the columns `existing`.
pub fn lacks_column(existing: &Vec<String>, column: &str) -> (answer: bool)
    ensures
        answer == !texts(existing@).contains(column@),
{
    !holds_text(existing, column)
}

// ---------------------------------------------------------------------------
// What the steps come to
// ---------------------------------------------------------------------------

/// The tables of a database with their columns.
pub type Tables = Map<Seq<char>, Set<Seq<char>>>;

/// Whether a line of the declarations is a rule for the whole table.
pub open spec fn table_rule(line: Seq<char>) -> bool {
    ||| "PRIMARY KEY"@.is_prefix_of(line)
    ||| "FOREIGN KEY"@.is_prefix_of(line)
    ||| "UNIQUE("@.is_prefix_of(line)
}

/// The columns that the declarations of a table name: the first word of each
/// line that is no rule for the whole table.
pub open spec fn declared_columns(columns: Seq<char>) -> Set<Seq<char>> {
    Set::new(|column: Seq<char>| exists|i: int| #[trigger] declared_at(columns, i, column))
}

/// Whether line `i` of the declarations names `column`.
pub open spec fn declared_at(columns: Seq<char>, i: int, column: Seq<char>) -> bool {
    &&& 0 <= i < split_lines(columns).len()
    &&& !table_rule(split_lines(columns)[i])
    &&& words(split_lines(columns)[i]).len() > 0
    &&& words(split_lines(columns)[i])[0] == column
}

/// The tables after a step. A column is added only where the table lacks it.
pub open spec fn after_step(tables: Tables, step: SchemaStep) -> Tables {
    match step {
        SchemaStep::CreateTable { table, columns } => if tables.dom().contains(table@) {
            tables
        } else {
            tables.insert(table@, declared_columns(columns@))
        },
        SchemaStep::AddColumn { table, column, .. } => if tables.dom().contains(table@)
            && !tables[table@].contains(column@) {
            tables.insert(table@, tables[table@].insert(column@))
        } else {
            tables
        },
        _ => tables,
    }
}

/// The tables after some steps.
pub open spec fn after_steps(tables: Tables, steps: Seq<SchemaStep>) -> Tables
    decreases steps.len(),
{
    if steps.len() == 0 {
        tables
    } else {
        after_step(after_steps(tables, steps.drop_last()), steps.last())
    }
}

/// Whether a step creates `table`.
pub open spec fn creates(step: SchemaStep, table: Seq<char>) -> bool {
    step matches SchemaStep::CreateTable { table: name, .. } && name@ == table
}

/// The table that has to be there before a step.
pub open spec fn needed_table(step: SchemaStep) -> Option<Seq<char>> {
    match step {
        SchemaStep::CreateTable { .. } => None,
        SchemaStep::CreateIndex { table, .. } => Some(table@),
        SchemaStep::AddColumn { table, .. } => Some(table@),
        SchemaStep::SeedAgentState => Some("agent_state"@),
    }
}

/// Whether `table` is created before step `i`.
pub open spec fn created_before(steps: Seq<SchemaStep>, i: int, table: Seq<char>) -> bool {
    exists|j: int| 0 <= j < i && #[trigger] creates(steps[j], table)
}

/// Whether every step finds the table that it needs.
pub open spec fn well_ordered(steps: Seq<SchemaStep>) -> bool {
    forall|i: int|
        #![trigger steps[i]]
        0 <= i < steps.len() && needed_table(steps[i]) is Some ==> created_before(
            steps,
            i,
            needed_table(steps[i])->Some_0,
        )
}

/// Whether nothing is left to do for a step.
pub open spec fn step_done(tables: Tables, step: SchemaStep) -> bool {
    match step {
        SchemaStep::CreateTable { table, .. } => tables.dom().contains(table@),
        SchemaStep::AddColumn { table, column, .. } => tables.dom().contains(table@)
            && tables[table@].contains(column@),
        _ => true,
    }
}

/// Whether everything in `before` is still there in `after`.
pub open spec fn keeps(before: Tables, after: Tables) -> bool {
    forall|table: Seq<char>| #[trigger]
        before.dom().contains(table) ==> after.dom().contains(table) && before[table].subset_of(
            after[table],
        )
}

proof fn lemma_ordered_concat(a: Seq<SchemaStep>, b: Seq<SchemaStep>)
    requires
        well_ordered(a),
        well_ordered(b),
    ensures
        well_ordered(a + b),
{
    let all = a + b;
    assert forall|i: int|
        #![trigger all[i]]
        0 <= i < all.len() && needed_table(all[i]) is Some implies created_before(
        all,
        i,
        needed_table(all[i])->Some_0,
    ) by {
        let table = needed_table(all[i])->Some_0;
        if i < a.len() {
            assert(all[i] == a[i]);
            let j = choose|j: int| 0 <= j < i && #[trigger] creates(a[j], table);
            assert(creates(all[j], table));
        } else {
            assert(all[i] == b[i - a.len()]);
            let j = choose|j: int| 0 <= j < i - a.len() && #[trigger] creates(b[j], table);
            assert(creates(all[j + a.len()], table));
        }
    }
}

proof fn lemma_run_steps_ordered()
    ensures
        well_ordered(run_steps()),
{
    let steps = run_steps();
    assert(creates(steps[1], "calvin_write_queue"@));
    assert(creates(steps[3], "run_predictions"@));
    assert(creates(steps[5], "spec_family_profiles"@));
    assert(creates(steps[7], "prediction_success_reinforcements"@));
    assert(creates(steps[9], "memory_influence_exclusions"@));
}

proof fn lemma_episode_steps_ordered()
    ensures
        well_ordered(episode_steps()),
{
    let steps = episode_steps();
    assert(creates(steps[0], "run_events"@));
    assert(creates(steps[2], "episodes"@));
    assert(creates(steps[5], "phase_attributions"@));
    assert(creates(steps[12], "context_pull_records"@));
    assert(creates(steps[15], "run_checkpoints"@));
    assert(creates(steps[17], "checkpoint_answers"@));
    assert(creates(steps[19], "causal_links"@));
    assert(creates(steps[20], "lessons"@));
}

proof fn lemma_score_steps_ordered()
    ensures
        well_ordered(score_steps()),
{
    let steps = score_steps();
    assert(creates(steps[0], "coobie_episode_scores"@));
    assert(creates(steps[2], "causal_hypotheses"@));
    assert(creates(steps[9], "memory_embeddings"@));
}

proof fn lemma_chat_steps_ordered()
    ensures
        well_ordered(chat_steps()),
{
    let steps = chat_steps();
    assert(creates(steps[0], "chat_threads"@));
    assert(creates(steps[4], "chat_messages"@));
    assert(creates(steps[7], "memory_candidates"@));
}

proof fn lemma_operator_model_steps_ordered()
    ensures
        well_ordered(operator_model_steps()),
{
    let steps = operator_model_steps();
    assert(creates(steps[0], "operator_model_profiles"@));
    assert(creates(steps[2], "operator_model_sessions"@));
    assert(creates(steps[4], "operator_model_layer_checkpoints"@));
    assert(creates(steps[6], "operator_model_entries"@));
    assert(creates(steps[8], "operator_model_exports"@));
    assert(creates(steps[10], "operator_model_update_candidates"@));
}

proof fn lemma_consolidation_steps_ordered()
    ensures
        well_ordered(consolidation_steps()),
{
    let steps = consolidation_steps();
    assert(creates(steps[0], "consolidation_candidates"@));
    assert(creates(steps[4], "run_cost_events"@));
    assert(creates(steps[6], "decision_log"@));
}

proof fn lemma_coordination_steps_ordered()
    ensures
        well_ordered(coordination_steps()),
{
    let steps = coordination_steps();
    assert(creates(steps[0], "coordination_leases"@));
    assert(creates(steps[2], "coordination_policy_events_db"@));
    assert(creates(steps[5], "agent_state"@));
    assert(creates(steps[8], "causal_graph_projections"@));
    assert(creates(steps[4], "agent_runtime_state"@));
}

proof fn lemma_memory_update_steps_ordered()
    ensures
        well_ordered(memory_update_steps()),
{
    let steps = memory_update_steps();
    assert(creates(steps[0], "memory_updates"@));
}

proof fn lemma_learning_steps_ordered()
    ensures
        well_ordered(learning_steps()),
{
    let steps = learning_steps();
    assert(creates(steps[0], "code_review_learning_records"@));
    assert(creates(steps[3], "behavioral_change_reports"@));
    assert(creates(steps[5], "agent_traces"@));
}

proof fn lemma_keeps_through(a: Tables, b: Tables, c: Tables)
    requires
        keeps(a, b),
        keeps(b, c),
    ensures
        keeps(a, c),
{
    assert forall|table: Seq<char>| #[trigger] a.dom().contains(table) implies c.dom().contains(
        table,
    ) && a[table].subset_of(c[table]) by {
        assert(b.dom().contains(table));
    }
}

proof fn lemma_steps_keep(tables: Tables, steps: Seq<SchemaStep>)
    ensures
        keeps(tables, after_steps(tables, steps)),
    decreases steps.len(),
{
    if steps.len() > 0 {
        let before = after_steps(tables, steps.drop_last());
        lemma_steps_keep(tables, steps.drop_last());
        assert(keeps(before, after_step(before, steps.last())));
        lemma_keeps_through(tables, before, after_step(before, steps.last()));
    }
}

proof fn lemma_done_stays(before: Tables, after: Tables, step: SchemaStep)
    requires
        keeps(before, after),
        step_done(before, step),
    ensures
        step_done(after, step),
{
}

proof fn lemma_steps_done(tables: Tables, steps: Seq<SchemaStep>, count: int)
    requires
        well_ordered(steps),
        0 <= count <= steps.len(),
    ensures
        forall|i: int|
            0 <= i < count ==> step_done(
                after_steps(tables, steps.take(count)),
                #[trigger] steps[i],
            ),
    decreases count,
{
    if count > 0 {
        lemma_steps_done(tables, steps, count - 1);
        let before = after_steps(tables, steps.take(count - 1));
        let step = steps[count - 1];
        let after = after_step(before, step);
        assert(steps.take(count).drop_last() =~= steps.take(count - 1));
        assert(steps.take(count).last() == step);
        assert(after_steps(tables, steps.take(count)) == after);
        assert(keeps(before, after));
        assert forall|i: int| 0 <= i < count implies step_done(after, #[trigger] steps[i]) by {
            if i < count - 1 {
                lemma_done_stays(before, after, steps[i]);
            } else if step is AddColumn {
                let table = needed_table(step)->Some_0;
                let j = choose|j: int| 0 <= j < count - 1 && #[trigger] creates(steps[j], table);
                assert(step_done(before, steps[j]));
            }
        }
    }
}

proof fn lemma_done_steps_change_nothing(tables: Tables, steps: Seq<SchemaStep>)
    requires
        forall|i: int| 0 <= i < steps.len() ==> step_done(tables, #[trigger] steps[i]),
    ensures
        after_steps(tables, steps) == tables,
    decreases steps.len(),
{
    if steps.len() > 0 {
        let front = steps.drop_last();
        assert forall|i: int| 0 <= i < front.len() implies step_done(
            tables,
            #[trigger] front[i],
        ) by {
            assert(front[i] == steps[i]);
        }
        lemma_done_steps_change_nothing(tables, front);
        assert(step_done(tables, steps[steps.len() - 1]));
    }
}

// ---------------------------------------------------------------------------
// Laws
// ---------------------------------------------------------------------------

/// Every index, every added column and the state of the agents comes after the
/// table that it belongs to.
pub proof fn law_schema_is_well_ordered()
    ensures
        well_ordered(schema_steps()),
{
    lemma_run_steps_ordered();
    lemma_episode_steps_ordered();
    lemma_score_steps_ordered();
    lemma_chat_steps_ordered();
    lemma_operator_model_steps_ordered();
    lemma_consolidation_steps_ordered();
    lemma_coordination_steps_ordered();
    lemma_memory_update_steps_ordered();
    lemma_learning_steps_ordered();
    let s2 = run_steps() + episode_steps();
    lemma_ordered_concat(run_steps(), episode_steps());
    let s3 = s2 + score_steps();
    lemma_ordered_concat(s2, score_steps());
    let s4 = s3 + chat_steps();
    lemma_ordered_concat(s3, chat_steps());
    let s5 = s4 + operator_model_steps();
    lemma_ordered_concat(s4, operator_model_steps());
    let s6 = s5 + consolidation_steps();
    lemma_ordered_concat(s5, consolidation_steps());
    let s7 = s6 + coordination_steps();
    lemma_ordered_concat(s6, coordination_steps());
    let s8 = s7 + memory_update_steps();
    lemma_ordered_concat(s7, memory_update_steps());
    lemma_ordered_concat(s8, learning_steps());
}

/// Whatever tables a database had before, after the steps it has every table and
/// every column that they are about, and nothing of it is lost.
pub proof fn law_schema_brings_up_to_date(tables: Tables)
    ensures
        forall|i: int|
            0 <= i < schema_steps().len() ==> step_done(
                after_steps(tables, schema_steps()),
                #[trigger] schema_steps()[i],
            ),
        keeps(tables, after_steps(tables, schema_steps())),
{
    let steps = schema_steps();
    law_schema_is_well_ordered();
    lemma_steps_done(tables, steps, steps.len() as int);
    assert(steps.take(steps.len() as int) =~= steps);
    lemma_steps_keep(tables, steps);
}

/// No statement of a step takes anything away: each adds a table or an index
/// where there is none of its name, or adds a column.
pub proof fn law_steps_only_add(step: SchemaStep)
    ensures
        step_statement(step) matches Some(sql) ==> {
            ||| "CREATE TABLE IF NOT EXISTS "@.is_prefix_of(sql)
            ||| "CREATE INDEX IF NOT EXISTS "@.is_prefix_of(sql)
            ||| "CREATE UNIQUE INDEX IF NOT EXISTS "@.is_prefix_of(sql)
            ||| step matches SchemaStep::AddColumn { table, .. } && ("ALTER TABLE "@ + table@
                + " ADD COLUMN "@).is_prefix_of(sql)
        },
{
    if let Some(sql) = step_statement(step) {
        let start = match step {
            SchemaStep::CreateTable { .. } => "CREATE TABLE IF NOT EXISTS "@,
            SchemaStep::CreateIndex { unique, .. } => if unique {
                "CREATE UNIQUE INDEX IF NOT EXISTS "@
            } else {
                "CREATE INDEX IF NOT EXISTS "@
            },
            SchemaStep::AddColumn { table, .. } => "ALTER TABLE "@ + table@ + " ADD COLUMN "@,
            SchemaStep::SeedAgentState => Seq::empty(),
        };
        assert(start =~= sql.take(start.len() as int));
    }
}

/// Taking the steps again changes nothing.
pub proof fn law_schema_twice_is_once(tables: Tables)
    ensures
        after_steps(after_steps(tables, schema_steps()), schema_steps()) == after_steps(
            tables,
            schema_steps(),
        ),
{
    law_schema_brings_up_to_date(tables);
    lemma_done_steps_change_nothing(after_steps(tables, schema_steps()), schema_steps());
}

} // verus!
