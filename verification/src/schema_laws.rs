//! What the state database holds once it has been set up.

use vstd::prelude::*;

use crate::schema::{
    after_steps, chat_steps, consolidation_steps, coordination_steps, created_before, creates,
    declared_columns, episode_steps, learning_steps, memory_update_steps, needed_table,
    operator_model_steps, run_steps, schema_steps, score_steps, step_statement, well_ordered,
    SchemaStep, Tables, AGENT_RUNTIME_STATE_COLUMNS, AGENT_STATE_COLUMNS,
    AGENT_TRACES_COLUMNS, BEHAVIORAL_CHANGE_REPORTS_COLUMNS, CALVIN_WRITE_QUEUE_COLUMNS,
    CAUSAL_GRAPH_PROJECTIONS_COLUMNS, CAUSAL_HYPOTHESES_COLUMNS, CAUSAL_LINKS_COLUMNS,
    CHAT_MESSAGES_COLUMNS, CHAT_THREADS_COLUMNS, CHECKPOINT_ANSWERS_COLUMNS,
    CODE_REVIEW_LEARNING_RECORDS_COLUMNS, CONSOLIDATION_CANDIDATES_COLUMNS,
    CONTEXT_PULL_RECORDS_COLUMNS, COOBIE_EPISODE_SCORES_COLUMNS, COORDINATION_LEASES_COLUMNS,
    COORDINATION_POLICY_EVENTS_DB_COLUMNS, DECISION_LOG_COLUMNS, EPISODES_COLUMNS,
    HEURISTICS_COLUMNS, INTERVENTIONS_COLUMNS, LESSONS_COLUMNS, MEMORY_CANDIDATES_COLUMNS,
    MEMORY_EMBEDDINGS_COLUMNS, MEMORY_INFLUENCE_EXCLUSIONS_COLUMNS, MEMORY_UPDATES_COLUMNS,
    OPERATOR_MODEL_ENTRIES_COLUMNS, OPERATOR_MODEL_EXPORTS_COLUMNS,
    OPERATOR_MODEL_LAYER_CHECKPOINTS_COLUMNS, OPERATOR_MODEL_PROFILES_COLUMNS,
    OPERATOR_MODEL_SESSIONS_COLUMNS, OPERATOR_MODEL_UPDATE_CANDIDATES_COLUMNS,
    PHASE_ATTRIBUTIONS_COLUMNS, PREDICTION_SUCCESS_REINFORCEMENTS_COLUMNS, RUNS_COLUMNS,
    RUN_CHECKPOINTS_COLUMNS, RUN_COST_EVENTS_COLUMNS, RUN_EVENTS_COLUMNS,
    RUN_PREDICTIONS_COLUMNS, SPEC_FAMILY_PROFILES_COLUMNS,
};

verus! {

// ---------------------------------------------------------------------------
// What the steps are about
// ---------------------------------------------------------------------------

/// The tables that the steps from `i` on create, each with its declarations.
pub open spec fn tables_of(steps: Seq<SchemaStep>, i: int) -> Seq<(Seq<char>, Seq<char>)>
    decreases steps.len() - i,
{
    if i >= steps.len() {
        Seq::empty()
    } else {
        match steps[i] {
            SchemaStep::CreateTable { table, columns } => seq![(table@, columns@)] + tables_of(
                steps,
                i + 1,
            ),
            _ => tables_of(steps, i + 1),
        }
    }
}

/// The indexes that the steps from `i` on create: the name, whether each entry
/// stands in it once, the table and the columns.
pub open spec fn indexes_of(steps: Seq<SchemaStep>, i: int) -> Seq<
    (Seq<char>, bool, Seq<char>, Seq<char>),
>
    decreases steps.len() - i,
{
    if i >= steps.len() {
        Seq::empty()
    } else {
        match steps[i] {
            SchemaStep::CreateIndex { index, unique, table, columns } => seq![
                (index@, unique, table@, columns@),
            ] + indexes_of(steps, i + 1),
            _ => indexes_of(steps, i + 1),
        }
    }
}

/// The columns that the steps from `i` on add: the table, the column and its
/// kind.
pub open spec fn additions_of(steps: Seq<SchemaStep>, i: int) -> Seq<
    (Seq<char>, Seq<char>, Seq<char>),
>
    decreases steps.len() - i,
{
    if i >= steps.len() {
        Seq::empty()
    } else {
        match steps[i] {
            SchemaStep::AddColumn { table, column, kind } => seq![
                (table@, column@, kind@),
            ] + additions_of(steps, i + 1),
            _ => additions_of(steps, i + 1),
        }
    }
}

proof fn lemma_steps_shifted(a: Seq<SchemaStep>, b: Seq<SchemaStep>, i: int)
    requires
        0 <= i <= b.len(),
    ensures
        tables_of(a + b, a.len() + i) == tables_of(b, i),
        indexes_of(a + b, a.len() + i) == indexes_of(b, i),
        additions_of(a + b, a.len() + i) == additions_of(b, i),
    decreases b.len() - i,
{
    if i < b.len() {
        lemma_steps_shifted(a, b, i + 1);
        assert((a + b)[a.len() + i] == b[i]);
    }
}

proof fn lemma_steps_concat(a: Seq<SchemaStep>, b: Seq<SchemaStep>, i: int)
    requires
        0 <= i <= a.len(),
    ensures
        tables_of(a + b, i) == tables_of(a, i) + tables_of(b, 0),
        indexes_of(a + b, i) == indexes_of(a, i) + indexes_of(b, 0),
        additions_of(a + b, i) == additions_of(a, i) + additions_of(b, 0),
    decreases a.len() - i,
{
    if i == a.len() {
        lemma_steps_shifted(a, b, 0);
        assert(tables_of(a, i) + tables_of(b, 0) =~= tables_of(b, 0));
        assert(indexes_of(a, i) + indexes_of(b, 0) =~= indexes_of(b, 0));
        assert(additions_of(a, i) + additions_of(b, 0) =~= additions_of(b, 0));
    } else {
        lemma_steps_concat(a, b, i + 1);
        assert((a + b)[i] == a[i]);
        assert(tables_of(a + b, i) =~= tables_of(a, i) + tables_of(b, 0));
        assert(indexes_of(a + b, i) =~= indexes_of(a, i) + indexes_of(b, 0));
        assert(additions_of(a + b, i) =~= additions_of(a, i) + additions_of(b, 0));
    }
}

proof fn lemma_run_steps_listed()
    ensures
        tables_of(run_steps(), 0) == seq![
            ("runs"@, RUNS_COLUMNS@),
            ("calvin_write_queue"@, CALVIN_WRITE_QUEUE_COLUMNS@),
            ("run_predictions"@, RUN_PREDICTIONS_COLUMNS@),
            ("spec_family_profiles"@, SPEC_FAMILY_PROFILES_COLUMNS@),
            ("prediction_success_reinforcements"@, PREDICTION_SUCCESS_REINFORCEMENTS_COLUMNS@),
            ("memory_influence_exclusions"@, MEMORY_INFLUENCE_EXCLUSIONS_COLUMNS@),
        ],
        indexes_of(run_steps(), 0) == seq![
            ("idx_calvin_write_queue_status_next_attempt"@, false, "calvin_write_queue"@, "status, next_attempt_at"@),
            ("idx_run_predictions_spec_created"@, false, "run_predictions"@, "spec_id, created_at"@),
            ("idx_spec_family_profiles_updated"@, false, "spec_family_profiles"@, "updated_at"@),
            ("idx_prediction_success_reinforcements_cause"@, false, "prediction_success_reinforcements"@, "source_cause_id, created_at"@),
            ("idx_memory_influence_exclusions_run"@, false, "memory_influence_exclusions"@, "run_id, created_at"@),
            ("idx_memory_influence_exclusions_key"@, false, "memory_influence_exclusions"@, "memory_key, created_at"@),
        ],
        additions_of(run_steps(), 0) == Seq::<(Seq<char>, Seq<char>, Seq<char>)>::empty(),
{
    reveal_with_fuel(tables_of, 13);
    reveal_with_fuel(indexes_of, 13);
    reveal_with_fuel(additions_of, 13);
    let steps = run_steps();
    assert(tables_of(steps, 0) =~= seq![
        ("runs"@, RUNS_COLUMNS@),
        ("calvin_write_queue"@, CALVIN_WRITE_QUEUE_COLUMNS@),
        ("run_predictions"@, RUN_PREDICTIONS_COLUMNS@),
        ("spec_family_profiles"@, SPEC_FAMILY_PROFILES_COLUMNS@),
        ("prediction_success_reinforcements"@, PREDICTION_SUCCESS_REINFORCEMENTS_COLUMNS@),
        ("memory_influence_exclusions"@, MEMORY_INFLUENCE_EXCLUSIONS_COLUMNS@),
    ]);
    assert(indexes_of(steps, 0) =~= seq![
        ("idx_calvin_write_queue_status_next_attempt"@, false, "calvin_write_queue"@, "status, next_attempt_at"@),
        ("idx_run_predictions_spec_created"@, false, "run_predictions"@, "spec_id, created_at"@),
        ("idx_spec_family_profiles_updated"@, false, "spec_family_profiles"@, "updated_at"@),
        ("idx_prediction_success_reinforcements_cause"@, false, "prediction_success_reinforcements"@, "source_cause_id, created_at"@),
        ("idx_memory_influence_exclusions_run"@, false, "memory_influence_exclusions"@, "run_id, created_at"@),
        ("idx_memory_influence_exclusions_key"@, false, "memory_influence_exclusions"@, "memory_key, created_at"@),
    ]);
    assert(additions_of(steps, 0) =~= Seq::<(Seq<char>, Seq<char>, Seq<char>)>::empty());
}

proof fn lemma_episode_steps_listed()
    ensures
        tables_of(episode_steps(), 0) == seq![
            ("run_events"@, RUN_EVENTS_COLUMNS@),
            ("episodes"@, EPISODES_COLUMNS@),
            ("phase_attributions"@, PHASE_ATTRIBUTIONS_COLUMNS@),
            ("context_pull_records"@, CONTEXT_PULL_RECORDS_COLUMNS@),
            ("run_checkpoints"@, RUN_CHECKPOINTS_COLUMNS@),
            ("checkpoint_answers"@, CHECKPOINT_ANSWERS_COLUMNS@),
            ("causal_links"@, CAUSAL_LINKS_COLUMNS@),
            ("lessons"@, LESSONS_COLUMNS@),
        ],
        indexes_of(episode_steps(), 0) == seq![
            ("idx_phase_attributions_run_id_phase"@, false, "phase_attributions"@, "run_id, phase"@),
            ("idx_context_pull_records_run_created"@, false, "context_pull_records"@, "run_id, created_at"@),
            ("idx_run_checkpoints_run_status"@, false, "run_checkpoints"@, "run_id, status, created_at"@),
            ("idx_checkpoint_answers_checkpoint"@, false, "checkpoint_answers"@, "checkpoint_id, created_at"@),
            ("idx_run_events_run_id_event_id"@, false, "run_events"@, "run_id, event_id"@),
            ("idx_causal_links_from"@, false, "causal_links"@, "from_event"@),
            ("idx_causal_links_to"@, false, "causal_links"@, "to_event"@),
            ("idx_lessons_tags"@, false, "lessons"@, "tags"@),
        ],
        additions_of(episode_steps(), 0) == seq![
            ("run_events"@, "episode_id"@, "TEXT"@),
            ("episodes"@, "state_before"@, "TEXT"@),
            ("episodes"@, "state_after"@, "TEXT"@),
            ("phase_attributions"@, "briefing_scope"@, "TEXT"@),
            ("phase_attributions"@, "briefing_token_budget"@, "INTEGER NOT NULL DEFAULT 0"@),
            ("phase_attributions"@, "briefing_tokens_used"@, "INTEGER NOT NULL DEFAULT 0"@),
            ("phase_attributions"@, "briefing_hits_provided"@, "INTEGER NOT NULL DEFAULT 0"@),
            ("phase_attributions"@, "stakeholder_alignment_json"@, "TEXT NOT NULL DEFAULT 'null'"@),
            ("context_pull_records"@, "trigger"@, "TEXT"@),
        ],
{
    reveal_with_fuel(tables_of, 26);
    reveal_with_fuel(indexes_of, 26);
    reveal_with_fuel(additions_of, 26);
    let steps = episode_steps();
    assert(tables_of(steps, 0) =~= seq![
        ("run_events"@, RUN_EVENTS_COLUMNS@),
        ("episodes"@, EPISODES_COLUMNS@),
        ("phase_attributions"@, PHASE_ATTRIBUTIONS_COLUMNS@),
        ("context_pull_records"@, CONTEXT_PULL_RECORDS_COLUMNS@),
        ("run_checkpoints"@, RUN_CHECKPOINTS_COLUMNS@),
        ("checkpoint_answers"@, CHECKPOINT_ANSWERS_COLUMNS@),
        ("causal_links"@, CAUSAL_LINKS_COLUMNS@),
        ("lessons"@, LESSONS_COLUMNS@),
    ]);
    assert(indexes_of(steps, 0) =~= seq![
        ("idx_phase_attributions_run_id_phase"@, false, "phase_attributions"@, "run_id, phase"@),
        ("idx_context_pull_records_run_created"@, false, "context_pull_records"@, "run_id, created_at"@),
        ("idx_run_checkpoints_run_status"@, false, "run_checkpoints"@, "run_id, status, created_at"@),
        ("idx_checkpoint_answers_checkpoint"@, false, "checkpoint_answers"@, "checkpoint_id, created_at"@),
        ("idx_run_events_run_id_event_id"@, false, "run_events"@, "run_id, event_id"@),
        ("idx_causal_links_from"@, false, "causal_links"@, "from_event"@),
        ("idx_causal_links_to"@, false, "causal_links"@, "to_event"@),
        ("idx_lessons_tags"@, false, "lessons"@, "tags"@),
    ]);
    assert(additions_of(steps, 0) =~= seq![
        ("run_events"@, "episode_id"@, "TEXT"@),
        ("episodes"@, "state_before"@, "TEXT"@),
        ("episodes"@, "state_after"@, "TEXT"@),
        ("phase_attributions"@, "briefing_scope"@, "TEXT"@),
        ("phase_attributions"@, "briefing_token_budget"@, "INTEGER NOT NULL DEFAULT 0"@),
        ("phase_attributions"@, "briefing_tokens_used"@, "INTEGER NOT NULL DEFAULT 0"@),
        ("phase_attributions"@, "briefing_hits_provided"@, "INTEGER NOT NULL DEFAULT 0"@),
        ("phase_attributions"@, "stakeholder_alignment_json"@, "TEXT NOT NULL DEFAULT 'null'"@),
        ("context_pull_records"@, "trigger"@, "TEXT"@),
    ]);
}

proof fn lemma_score_steps_listed()
    ensures
        tables_of(score_steps(), 0) == seq![
            ("coobie_episode_scores"@, COOBIE_EPISODE_SCORES_COLUMNS@),
            ("causal_hypotheses"@, CAUSAL_HYPOTHESES_COLUMNS@),
            ("interventions"@, INTERVENTIONS_COLUMNS@),
            ("heuristics"@, HEURISTICS_COLUMNS@),
            ("memory_embeddings"@, MEMORY_EMBEDDINGS_COLUMNS@),
        ],
        indexes_of(score_steps(), 0) == seq![
            ("idx_causal_hypotheses_run_id"@, false, "causal_hypotheses"@, "run_id"@),
            ("idx_coobie_scores_scenario"@, false, "coobie_episode_scores"@, "scenario_passed, validation_passed"@),
        ],
        additions_of(score_steps(), 0) == seq![
            ("coobie_episode_scores"@, "phase_success_score"@, "REAL NOT NULL DEFAULT 1.0"@),
            ("causal_hypotheses"@, "hierarchy_level"@, "TEXT NOT NULL DEFAULT 'associational'"@),
            ("causal_hypotheses"@, "evidence"@, "TEXT NOT NULL DEFAULT '[]'"@),
            ("memory_embeddings"@, "backend_id"@, "TEXT NOT NULL DEFAULT ''"@),
            ("memory_embeddings"@, "model_id"@, "TEXT NOT NULL DEFAULT ''"@),
        ],
{
    reveal_with_fuel(tables_of, 13);
    reveal_with_fuel(indexes_of, 13);
    reveal_with_fuel(additions_of, 13);
    let steps = score_steps();
    assert(tables_of(steps, 0) =~= seq![
        ("coobie_episode_scores"@, COOBIE_EPISODE_SCORES_COLUMNS@),
        ("causal_hypotheses"@, CAUSAL_HYPOTHESES_COLUMNS@),
        ("interventions"@, INTERVENTIONS_COLUMNS@),
        ("heuristics"@, HEURISTICS_COLUMNS@),
        ("memory_embeddings"@, MEMORY_EMBEDDINGS_COLUMNS@),
    ]);
    assert(indexes_of(steps, 0) =~= seq![
        ("idx_causal_hypotheses_run_id"@, false, "causal_hypotheses"@, "run_id"@),
        ("idx_coobie_scores_scenario"@, false, "coobie_episode_scores"@, "scenario_passed, validation_passed"@),
    ]);
    assert(additions_of(steps, 0) =~= seq![
        ("coobie_episode_scores"@, "phase_success_score"@, "REAL NOT NULL DEFAULT 1.0"@),
        ("causal_hypotheses"@, "hierarchy_level"@, "TEXT NOT NULL DEFAULT 'associational'"@),
        ("causal_hypotheses"@, "evidence"@, "TEXT NOT NULL DEFAULT '[]'"@),
        ("memory_embeddings"@, "backend_id"@, "TEXT NOT NULL DEFAULT ''"@),
        ("memory_embeddings"@, "model_id"@, "TEXT NOT NULL DEFAULT ''"@),
    ]);
}

proof fn lemma_chat_steps_listed()
    ensures
        tables_of(chat_steps(), 0) == seq![
            ("chat_threads"@, CHAT_THREADS_COLUMNS@),
            ("chat_messages"@, CHAT_MESSAGES_COLUMNS@),
            ("memory_candidates"@, MEMORY_CANDIDATES_COLUMNS@),
        ],
        indexes_of(chat_steps(), 0) == seq![
            ("idx_chat_threads_run_id"@, false, "chat_threads"@, "run_id, created_at"@),
            ("idx_chat_messages_thread_id"@, false, "chat_messages"@, "thread_id, created_at"@),
            ("idx_memory_candidates_run_status"@, false, "memory_candidates"@, "run_id, status, created_at"@),
            ("idx_memory_candidates_thread_status"@, false, "memory_candidates"@, "thread_id, status, created_at"@),
            ("idx_memory_candidates_dedupe_status"@, false, "memory_candidates"@, "dedupe_key, status"@),
        ],
        additions_of(chat_steps(), 0) == seq![
            ("chat_threads"@, "thread_kind"@, "TEXT NOT NULL DEFAULT 'general'"@),
            ("chat_threads"@, "metadata_json"@, "TEXT NOT NULL DEFAULT '{}'"@),
            ("chat_messages"@, "agent_runtime_id"@, "TEXT"@),
            ("memory_candidates"@, "dedupe_key"@, "TEXT"@),
            ("memory_candidates"@, "learning_intent"@, "TEXT NOT NULL DEFAULT 'awareness_only'"@),
        ],
{
    reveal_with_fuel(tables_of, 14);
    reveal_with_fuel(indexes_of, 14);
    reveal_with_fuel(additions_of, 14);
    let steps = chat_steps();
    assert(tables_of(steps, 0) =~= seq![
        ("chat_threads"@, CHAT_THREADS_COLUMNS@),
        ("chat_messages"@, CHAT_MESSAGES_COLUMNS@),
        ("memory_candidates"@, MEMORY_CANDIDATES_COLUMNS@),
    ]);
    assert(indexes_of(steps, 0) =~= seq![
        ("idx_chat_threads_run_id"@, false, "chat_threads"@, "run_id, created_at"@),
        ("idx_chat_messages_thread_id"@, false, "chat_messages"@, "thread_id, created_at"@),
        ("idx_memory_candidates_run_status"@, false, "memory_candidates"@, "run_id, status, created_at"@),
        ("idx_memory_candidates_thread_status"@, false, "memory_candidates"@, "thread_id, status, created_at"@),
        ("idx_memory_candidates_dedupe_status"@, false, "memory_candidates"@, "dedupe_key, status"@),
    ]);
    assert(additions_of(steps, 0) =~= seq![
        ("chat_threads"@, "thread_kind"@, "TEXT NOT NULL DEFAULT 'general'"@),
        ("chat_threads"@, "metadata_json"@, "TEXT NOT NULL DEFAULT '{}'"@),
        ("chat_messages"@, "agent_runtime_id"@, "TEXT"@),
        ("memory_candidates"@, "dedupe_key"@, "TEXT"@),
        ("memory_candidates"@, "learning_intent"@, "TEXT NOT NULL DEFAULT 'awareness_only'"@),
    ]);
}

proof fn lemma_operator_model_steps_listed()
    ensures
        tables_of(operator_model_steps(), 0) == seq![
            ("operator_model_profiles"@, OPERATOR_MODEL_PROFILES_COLUMNS@),
            ("operator_model_sessions"@, OPERATOR_MODEL_SESSIONS_COLUMNS@),
            ("operator_model_layer_checkpoints"@, OPERATOR_MODEL_LAYER_CHECKPOINTS_COLUMNS@),
            ("operator_model_entries"@, OPERATOR_MODEL_ENTRIES_COLUMNS@),
            ("operator_model_exports"@, OPERATOR_MODEL_EXPORTS_COLUMNS@),
            ("operator_model_update_candidates"@, OPERATOR_MODEL_UPDATE_CANDIDATES_COLUMNS@),
        ],
        indexes_of(operator_model_steps(), 0) == seq![
            ("idx_operator_model_profiles_scope_project"@, false, "operator_model_profiles"@, "scope, project_root"@),
            ("idx_operator_model_sessions_profile_status"@, false, "operator_model_sessions"@, "profile_id, status, created_at"@),
            ("idx_operator_model_checkpoints_profile_layer"@, false, "operator_model_layer_checkpoints"@, "profile_id, version, layer, status"@),
            ("idx_operator_model_entries_profile_layer"@, false, "operator_model_entries"@, "profile_id, version, layer, status"@),
            ("idx_operator_model_exports_profile_version"@, false, "operator_model_exports"@, "profile_id, version, artifact_name"@),
            ("idx_operator_model_update_candidates_profile_status"@, false, "operator_model_update_candidates"@, "profile_id, status, created_at"@),
        ],
        additions_of(operator_model_steps(), 0) == Seq::<(Seq<char>, Seq<char>, Seq<char>)>::empty(),
{
    reveal_with_fuel(tables_of, 13);
    reveal_with_fuel(indexes_of, 13);
    reveal_with_fuel(additions_of, 13);
    let steps = operator_model_steps();
    assert(tables_of(steps, 0) =~= seq![
        ("operator_model_profiles"@, OPERATOR_MODEL_PROFILES_COLUMNS@),
        ("operator_model_sessions"@, OPERATOR_MODEL_SESSIONS_COLUMNS@),
        ("operator_model_layer_checkpoints"@, OPERATOR_MODEL_LAYER_CHECKPOINTS_COLUMNS@),
        ("operator_model_entries"@, OPERATOR_MODEL_ENTRIES_COLUMNS@),
        ("operator_model_exports"@, OPERATOR_MODEL_EXPORTS_COLUMNS@),
        ("operator_model_update_candidates"@, OPERATOR_MODEL_UPDATE_CANDIDATES_COLUMNS@),
    ]);
    assert(indexes_of(steps, 0) =~= seq![
        ("idx_operator_model_profiles_scope_project"@, false, "operator_model_profiles"@, "scope, project_root"@),
        ("idx_operator_model_sessions_profile_status"@, false, "operator_model_sessions"@, "profile_id, status, created_at"@),
        ("idx_operator_model_checkpoints_profile_layer"@, false, "operator_model_layer_checkpoints"@, "profile_id, version, layer, status"@),
        ("idx_operator_model_entries_profile_layer"@, false, "operator_model_entries"@, "profile_id, version, layer, status"@),
        ("idx_operator_model_exports_profile_version"@, false, "operator_model_exports"@, "profile_id, version, artifact_name"@),
        ("idx_operator_model_update_candidates_profile_status"@, false, "operator_model_update_candidates"@, "profile_id, status, created_at"@),
    ]);
    assert(additions_of(steps, 0) =~= Seq::<(Seq<char>, Seq<char>, Seq<char>)>::empty());
}

proof fn lemma_consolidation_steps_listed()
    ensures
        tables_of(consolidation_steps(), 0) == seq![
            ("consolidation_candidates"@, CONSOLIDATION_CANDIDATES_COLUMNS@),
            ("run_cost_events"@, RUN_COST_EVENTS_COLUMNS@),
            ("decision_log"@, DECISION_LOG_COLUMNS@),
        ],
        indexes_of(consolidation_steps(), 0) == seq![
            ("idx_consolidation_candidates_run_status"@, false, "consolidation_candidates"@, "run_id, status, created_at"@),
            ("idx_run_cost_events_run_id"@, false, "run_cost_events"@, "run_id, created_at"@),
            ("idx_decision_log_run_id"@, false, "decision_log"@, "run_id, created_at"@),
        ],
        additions_of(consolidation_steps(), 0) == seq![
            ("consolidation_candidates"@, "review_class"@, "TEXT NOT NULL DEFAULT 'standard'"@),
            ("consolidation_candidates"@, "pattern_basis_json"@, "TEXT NOT NULL DEFAULT '[]'"@),
        ],
{
    reveal_with_fuel(tables_of, 9);
    reveal_with_fuel(indexes_of, 9);
    reveal_with_fuel(additions_of, 9);
    let steps = consolidation_steps();
    assert(tables_of(steps, 0) =~= seq![
        ("consolidation_candidates"@, CONSOLIDATION_CANDIDATES_COLUMNS@),
        ("run_cost_events"@, RUN_COST_EVENTS_COLUMNS@),
        ("decision_log"@, DECISION_LOG_COLUMNS@),
    ]);
    assert(indexes_of(steps, 0) =~= seq![
        ("idx_consolidation_candidates_run_status"@, false, "consolidation_candidates"@, "run_id, status, created_at"@),
        ("idx_run_cost_events_run_id"@, false, "run_cost_events"@, "run_id, created_at"@),
        ("idx_decision_log_run_id"@, false, "decision_log"@, "run_id, created_at"@),
    ]);
    assert(additions_of(steps, 0) =~= seq![
        ("consolidation_candidates"@, "review_class"@, "TEXT NOT NULL DEFAULT 'standard'"@),
        ("consolidation_candidates"@, "pattern_basis_json"@, "TEXT NOT NULL DEFAULT '[]'"@),
    ]);
}

proof fn lemma_coordination_steps_listed()
    ensures
        tables_of(coordination_steps(), 0) == seq![
            ("coordination_leases"@, COORDINATION_LEASES_COLUMNS@),
            ("coordination_policy_events_db"@, COORDINATION_POLICY_EVENTS_DB_COLUMNS@),
            ("agent_runtime_state"@, AGENT_RUNTIME_STATE_COLUMNS@),
            ("agent_state"@, AGENT_STATE_COLUMNS@),
            ("causal_graph_projections"@, CAUSAL_GRAPH_PROJECTIONS_COLUMNS@),
        ],
        indexes_of(coordination_steps(), 0) == seq![
            ("idx_coordination_leases_status_updated"@, false, "coordination_leases"@, "status, updated_at"@),
            ("idx_coordination_policy_events_created_at"@, false, "coordination_policy_events_db"@, "created_at DESC"@),
            ("idx_agent_state_updated_at"@, false, "agent_state"@, "updated_at"@),
            ("idx_causal_graph_projections_projected_at"@, false, "causal_graph_projections"@, "projected_at DESC"@),
            ("idx_agent_runtime_state_run"@, false, "agent_runtime_state"@, "run_id, canonical_role, updated_at"@),
            ("idx_agent_runtime_state_thread"@, false, "agent_runtime_state"@, "thread_id, updated_at"@),
        ],
        additions_of(coordination_steps(), 0) == Seq::<(Seq<char>, Seq<char>, Seq<char>)>::empty(),
{
    reveal_with_fuel(tables_of, 13);
    reveal_with_fuel(indexes_of, 13);
    reveal_with_fuel(additions_of, 13);
    let steps = coordination_steps();
    assert(tables_of(steps, 0) =~= seq![
        ("coordination_leases"@, COORDINATION_LEASES_COLUMNS@),
        ("coordination_policy_events_db"@, COORDINATION_POLICY_EVENTS_DB_COLUMNS@),
        ("agent_runtime_state"@, AGENT_RUNTIME_STATE_COLUMNS@),
        ("agent_state"@, AGENT_STATE_COLUMNS@),
        ("causal_graph_projections"@, CAUSAL_GRAPH_PROJECTIONS_COLUMNS@),
    ]);
    assert(indexes_of(steps, 0) =~= seq![
        ("idx_coordination_leases_status_updated"@, false, "coordination_leases"@, "status, updated_at"@),
        ("idx_coordination_policy_events_created_at"@, false, "coordination_policy_events_db"@, "created_at DESC"@),
        ("idx_agent_state_updated_at"@, false, "agent_state"@, "updated_at"@),
        ("idx_causal_graph_projections_projected_at"@, false, "causal_graph_projections"@, "projected_at DESC"@),
        ("idx_agent_runtime_state_run"@, false, "agent_runtime_state"@, "run_id, canonical_role, updated_at"@),
        ("idx_agent_runtime_state_thread"@, false, "agent_runtime_state"@, "thread_id, updated_at"@),
    ]);
    assert(additions_of(steps, 0) =~= Seq::<(Seq<char>, Seq<char>, Seq<char>)>::empty());
}

proof fn lemma_memory_update_steps_listed()
    ensures
        tables_of(memory_update_steps(), 0) == seq![
            ("memory_updates"@, MEMORY_UPDATES_COLUMNS@),
        ],
        indexes_of(memory_update_steps(), 0) == seq![
            ("idx_memory_updates_old_memory_id"@, false, "memory_updates"@, "old_memory_id, created_at"@),
            ("idx_memory_updates_created_at"@, false, "memory_updates"@, "created_at DESC"@),
        ],
        additions_of(memory_update_steps(), 0) == seq![
            ("memory_updates"@, "memory_root"@, "TEXT NOT NULL DEFAULT ''"@),
            ("memory_updates"@, "review_status"@, "TEXT NOT NULL DEFAULT 'pending'"@),
            ("memory_updates"@, "reviewed_by"@, "TEXT"@),
            ("memory_updates"@, "review_note"@, "TEXT"@),
            ("memory_updates"@, "reviewed_at"@, "TEXT"@),
        ],
{
    reveal_with_fuel(tables_of, 9);
    reveal_with_fuel(indexes_of, 9);
    reveal_with_fuel(additions_of, 9);
    let steps = memory_update_steps();
    assert(tables_of(steps, 0) =~= seq![
        ("memory_updates"@, MEMORY_UPDATES_COLUMNS@),
    ]);
    assert(indexes_of(steps, 0) =~= seq![
        ("idx_memory_updates_old_memory_id"@, false, "memory_updates"@, "old_memory_id, created_at"@),
        ("idx_memory_updates_created_at"@, false, "memory_updates"@, "created_at DESC"@),
    ]);
    assert(additions_of(steps, 0) =~= seq![
        ("memory_updates"@, "memory_root"@, "TEXT NOT NULL DEFAULT ''"@),
        ("memory_updates"@, "review_status"@, "TEXT NOT NULL DEFAULT 'pending'"@),
        ("memory_updates"@, "reviewed_by"@, "TEXT"@),
        ("memory_updates"@, "review_note"@, "TEXT"@),
        ("memory_updates"@, "reviewed_at"@, "TEXT"@),
    ]);
}

proof fn lemma_learning_steps_listed()
    ensures
        tables_of(learning_steps(), 0) == seq![
            ("code_review_learning_records"@, CODE_REVIEW_LEARNING_RECORDS_COLUMNS@),
            ("behavioral_change_reports"@, BEHAVIORAL_CHANGE_REPORTS_COLUMNS@),
            ("agent_traces"@, AGENT_TRACES_COLUMNS@),
        ],
        indexes_of(learning_steps(), 0) == seq![
            ("idx_code_review_learning_records_run"@, false, "code_review_learning_records"@, "run_id, created_at"@),
            ("idx_code_review_learning_records_fingerprint"@, true, "code_review_learning_records"@, "run_id, finding_fingerprint"@),
            ("idx_behavioral_change_reports_status"@, false, "behavioral_change_reports"@, "status, created_at"@),
            ("idx_agent_traces_run_agent"@, false, "agent_traces"@, "run_id, agent, created_at"@),
        ],
        additions_of(learning_steps(), 0) == Seq::<(Seq<char>, Seq<char>, Seq<char>)>::empty(),
{
    reveal_with_fuel(tables_of, 8);
    reveal_with_fuel(indexes_of, 8);
    reveal_with_fuel(additions_of, 8);
    let steps = learning_steps();
    assert(tables_of(steps, 0) =~= seq![
        ("code_review_learning_records"@, CODE_REVIEW_LEARNING_RECORDS_COLUMNS@),
        ("behavioral_change_reports"@, BEHAVIORAL_CHANGE_REPORTS_COLUMNS@),
        ("agent_traces"@, AGENT_TRACES_COLUMNS@),
    ]);
    assert(indexes_of(steps, 0) =~= seq![
        ("idx_code_review_learning_records_run"@, false, "code_review_learning_records"@, "run_id, created_at"@),
        ("idx_code_review_learning_records_fingerprint"@, true, "code_review_learning_records"@, "run_id, finding_fingerprint"@),
        ("idx_behavioral_change_reports_status"@, false, "behavioral_change_reports"@, "status, created_at"@),
        ("idx_agent_traces_run_agent"@, false, "agent_traces"@, "run_id, agent, created_at"@),
    ]);
    assert(additions_of(steps, 0) =~= Seq::<(Seq<char>, Seq<char>, Seq<char>)>::empty());
}

proof fn lemma_steps_joined()
    ensures
        tables_of(schema_steps(), 0) == tables_of(run_steps(), 0) + tables_of(episode_steps(), 0) + tables_of(score_steps(), 0) + tables_of(chat_steps(), 0) + tables_of(operator_model_steps(), 0) + tables_of(consolidation_steps(), 0) + tables_of(coordination_steps(), 0) + tables_of(memory_update_steps(), 0) + tables_of(learning_steps(), 0),
        indexes_of(schema_steps(), 0) == indexes_of(run_steps(), 0) + indexes_of(episode_steps(), 0) + indexes_of(score_steps(), 0) + indexes_of(chat_steps(), 0) + indexes_of(operator_model_steps(), 0) + indexes_of(consolidation_steps(), 0) + indexes_of(coordination_steps(), 0) + indexes_of(memory_update_steps(), 0) + indexes_of(learning_steps(), 0),
        additions_of(schema_steps(), 0) == additions_of(run_steps(), 0) + additions_of(episode_steps(), 0) + additions_of(score_steps(), 0) + additions_of(chat_steps(), 0) + additions_of(operator_model_steps(), 0) + additions_of(consolidation_steps(), 0) + additions_of(coordination_steps(), 0) + additions_of(memory_update_steps(), 0) + additions_of(learning_steps(), 0),
{
    let s2 = run_steps() + episode_steps();
    lemma_steps_concat(run_steps(), episode_steps(), 0);
    let s3 = s2 + score_steps();
    lemma_steps_concat(s2, score_steps(), 0);
    let s4 = s3 + chat_steps();
    lemma_steps_concat(s3, chat_steps(), 0);
    let s5 = s4 + operator_model_steps();
    lemma_steps_concat(s4, operator_model_steps(), 0);
    let s6 = s5 + consolidation_steps();
    lemma_steps_concat(s5, consolidation_steps(), 0);
    let s7 = s6 + coordination_steps();
    lemma_steps_concat(s6, coordination_steps(), 0);
    let s8 = s7 + memory_update_steps();
    lemma_steps_concat(s7, memory_update_steps(), 0);
    lemma_steps_concat(s8, learning_steps(), 0);
}

/// These are the tables that are created, each once, in this order.
pub proof fn law_tables_are_these()
    ensures
        tables_of(schema_steps(), 0) == seq![
            ("runs"@, RUNS_COLUMNS@),
            ("calvin_write_queue"@, CALVIN_WRITE_QUEUE_COLUMNS@),
            ("run_predictions"@, RUN_PREDICTIONS_COLUMNS@),
            ("spec_family_profiles"@, SPEC_FAMILY_PROFILES_COLUMNS@),
            ("prediction_success_reinforcements"@, PREDICTION_SUCCESS_REINFORCEMENTS_COLUMNS@),
            ("memory_influence_exclusions"@, MEMORY_INFLUENCE_EXCLUSIONS_COLUMNS@),
            ("run_events"@, RUN_EVENTS_COLUMNS@),
            ("episodes"@, EPISODES_COLUMNS@),
            ("phase_attributions"@, PHASE_ATTRIBUTIONS_COLUMNS@),
            ("context_pull_records"@, CONTEXT_PULL_RECORDS_COLUMNS@),
            ("run_checkpoints"@, RUN_CHECKPOINTS_COLUMNS@),
            ("checkpoint_answers"@, CHECKPOINT_ANSWERS_COLUMNS@),
            ("causal_links"@, CAUSAL_LINKS_COLUMNS@),
            ("lessons"@, LESSONS_COLUMNS@),
            ("coobie_episode_scores"@, COOBIE_EPISODE_SCORES_COLUMNS@),
            ("causal_hypotheses"@, CAUSAL_HYPOTHESES_COLUMNS@),
            ("interventions"@, INTERVENTIONS_COLUMNS@),
            ("heuristics"@, HEURISTICS_COLUMNS@),
            ("memory_embeddings"@, MEMORY_EMBEDDINGS_COLUMNS@),
            ("chat_threads"@, CHAT_THREADS_COLUMNS@),
            ("chat_messages"@, CHAT_MESSAGES_COLUMNS@),
            ("memory_candidates"@, MEMORY_CANDIDATES_COLUMNS@),
            ("operator_model_profiles"@, OPERATOR_MODEL_PROFILES_COLUMNS@),
            ("operator_model_sessions"@, OPERATOR_MODEL_SESSIONS_COLUMNS@),
            ("operator_model_layer_checkpoints"@, OPERATOR_MODEL_LAYER_CHECKPOINTS_COLUMNS@),
            ("operator_model_entries"@, OPERATOR_MODEL_ENTRIES_COLUMNS@),
            ("operator_model_exports"@, OPERATOR_MODEL_EXPORTS_COLUMNS@),
            ("operator_model_update_candidates"@, OPERATOR_MODEL_UPDATE_CANDIDATES_COLUMNS@),
            ("consolidation_candidates"@, CONSOLIDATION_CANDIDATES_COLUMNS@),
            ("run_cost_events"@, RUN_COST_EVENTS_COLUMNS@),
            ("decision_log"@, DECISION_LOG_COLUMNS@),
            ("coordination_leases"@, COORDINATION_LEASES_COLUMNS@),
            ("coordination_policy_events_db"@, COORDINATION_POLICY_EVENTS_DB_COLUMNS@),
            ("agent_runtime_state"@, AGENT_RUNTIME_STATE_COLUMNS@),
            ("agent_state"@, AGENT_STATE_COLUMNS@),
            ("causal_graph_projections"@, CAUSAL_GRAPH_PROJECTIONS_COLUMNS@),
            ("memory_updates"@, MEMORY_UPDATES_COLUMNS@),
            ("code_review_learning_records"@, CODE_REVIEW_LEARNING_RECORDS_COLUMNS@),
            ("behavioral_change_reports"@, BEHAVIORAL_CHANGE_REPORTS_COLUMNS@),
            ("agent_traces"@, AGENT_TRACES_COLUMNS@),
        ],
{
    lemma_run_steps_listed();
    lemma_episode_steps_listed();
    lemma_score_steps_listed();
    lemma_chat_steps_listed();
    lemma_operator_model_steps_listed();
    lemma_consolidation_steps_listed();
    lemma_coordination_steps_listed();
    lemma_memory_update_steps_listed();
    lemma_learning_steps_listed();
    lemma_steps_joined();
    assert(tables_of(schema_steps(), 0) =~= seq![
        ("runs"@, RUNS_COLUMNS@),
        ("calvin_write_queue"@, CALVIN_WRITE_QUEUE_COLUMNS@),
        ("run_predictions"@, RUN_PREDICTIONS_COLUMNS@),
        ("spec_family_profiles"@, SPEC_FAMILY_PROFILES_COLUMNS@),
        ("prediction_success_reinforcements"@, PREDICTION_SUCCESS_REINFORCEMENTS_COLUMNS@),
        ("memory_influence_exclusions"@, MEMORY_INFLUENCE_EXCLUSIONS_COLUMNS@),
        ("run_events"@, RUN_EVENTS_COLUMNS@),
        ("episodes"@, EPISODES_COLUMNS@),
        ("phase_attributions"@, PHASE_ATTRIBUTIONS_COLUMNS@),
        ("context_pull_records"@, CONTEXT_PULL_RECORDS_COLUMNS@),
        ("run_checkpoints"@, RUN_CHECKPOINTS_COLUMNS@),
        ("checkpoint_answers"@, CHECKPOINT_ANSWERS_COLUMNS@),
        ("causal_links"@, CAUSAL_LINKS_COLUMNS@),
        ("lessons"@, LESSONS_COLUMNS@),
        ("coobie_episode_scores"@, COOBIE_EPISODE_SCORES_COLUMNS@),
        ("causal_hypotheses"@, CAUSAL_HYPOTHESES_COLUMNS@),
        ("interventions"@, INTERVENTIONS_COLUMNS@),
        ("heuristics"@, HEURISTICS_COLUMNS@),
        ("memory_embeddings"@, MEMORY_EMBEDDINGS_COLUMNS@),
        ("chat_threads"@, CHAT_THREADS_COLUMNS@),
        ("chat_messages"@, CHAT_MESSAGES_COLUMNS@),
        ("memory_candidates"@, MEMORY_CANDIDATES_COLUMNS@),
        ("operator_model_profiles"@, OPERATOR_MODEL_PROFILES_COLUMNS@),
        ("operator_model_sessions"@, OPERATOR_MODEL_SESSIONS_COLUMNS@),
        ("operator_model_layer_checkpoints"@, OPERATOR_MODEL_LAYER_CHECKPOINTS_COLUMNS@),
        ("operator_model_entries"@, OPERATOR_MODEL_ENTRIES_COLUMNS@),
        ("operator_model_exports"@, OPERATOR_MODEL_EXPORTS_COLUMNS@),
        ("operator_model_update_candidates"@, OPERATOR_MODEL_UPDATE_CANDIDATES_COLUMNS@),
        ("consolidation_candidates"@, CONSOLIDATION_CANDIDATES_COLUMNS@),
        ("run_cost_events"@, RUN_COST_EVENTS_COLUMNS@),
        ("decision_log"@, DECISION_LOG_COLUMNS@),
        ("coordination_leases"@, COORDINATION_LEASES_COLUMNS@),
        ("coordination_policy_events_db"@, COORDINATION_POLICY_EVENTS_DB_COLUMNS@),
        ("agent_runtime_state"@, AGENT_RUNTIME_STATE_COLUMNS@),
        ("agent_state"@, AGENT_STATE_COLUMNS@),
        ("causal_graph_projections"@, CAUSAL_GRAPH_PROJECTIONS_COLUMNS@),
        ("memory_updates"@, MEMORY_UPDATES_COLUMNS@),
        ("code_review_learning_records"@, CODE_REVIEW_LEARNING_RECORDS_COLUMNS@),
        ("behavioral_change_reports"@, BEHAVIORAL_CHANGE_REPORTS_COLUMNS@),
        ("agent_traces"@, AGENT_TRACES_COLUMNS@),
    ]);
}

/// These are the indexes that are created, each once, in this order.
pub proof fn law_indexes_are_these()
    ensures
        indexes_of(schema_steps(), 0) == seq![
            ("idx_calvin_write_queue_status_next_attempt"@, false, "calvin_write_queue"@, "status, next_attempt_at"@),
            ("idx_run_predictions_spec_created"@, false, "run_predictions"@, "spec_id, created_at"@),
            ("idx_spec_family_profiles_updated"@, false, "spec_family_profiles"@, "updated_at"@),
            ("idx_prediction_success_reinforcements_cause"@, false, "prediction_success_reinforcements"@, "source_cause_id, created_at"@),
            ("idx_memory_influence_exclusions_run"@, false, "memory_influence_exclusions"@, "run_id, created_at"@),
            ("idx_memory_influence_exclusions_key"@, false, "memory_influence_exclusions"@, "memory_key, created_at"@),
            ("idx_phase_attributions_run_id_phase"@, false, "phase_attributions"@, "run_id, phase"@),
            ("idx_context_pull_records_run_created"@, false, "context_pull_records"@, "run_id, created_at"@),
            ("idx_run_checkpoints_run_status"@, false, "run_checkpoints"@, "run_id, status, created_at"@),
            ("idx_checkpoint_answers_checkpoint"@, false, "checkpoint_answers"@, "checkpoint_id, created_at"@),
            ("idx_run_events_run_id_event_id"@, false, "run_events"@, "run_id, event_id"@),
            ("idx_causal_links_from"@, false, "causal_links"@, "from_event"@),
            ("idx_causal_links_to"@, false, "causal_links"@, "to_event"@),
            ("idx_lessons_tags"@, false, "lessons"@, "tags"@),
            ("idx_causal_hypotheses_run_id"@, false, "causal_hypotheses"@, "run_id"@),
            ("idx_coobie_scores_scenario"@, false, "coobie_episode_scores"@, "scenario_passed, validation_passed"@),
            ("idx_chat_threads_run_id"@, false, "chat_threads"@, "run_id, created_at"@),
            ("idx_chat_messages_thread_id"@, false, "chat_messages"@, "thread_id, created_at"@),
            ("idx_memory_candidates_run_status"@, false, "memory_candidates"@, "run_id, status, created_at"@),
            ("idx_memory_candidates_thread_status"@, false, "memory_candidates"@, "thread_id, status, created_at"@),
            ("idx_memory_candidates_dedupe_status"@, false, "memory_candidates"@, "dedupe_key, status"@),
            ("idx_operator_model_profiles_scope_project"@, false, "operator_model_profiles"@, "scope, project_root"@),
            ("idx_operator_model_sessions_profile_status"@, false, "operator_model_sessions"@, "profile_id, status, created_at"@),
            ("idx_operator_model_checkpoints_profile_layer"@, false, "operator_model_layer_checkpoints"@, "profile_id, version, layer, status"@),
            ("idx_operator_model_entries_profile_layer"@, false, "operator_model_entries"@, "profile_id, version, layer, status"@),
            ("idx_operator_model_exports_profile_version"@, false, "operator_model_exports"@, "profile_id, version, artifact_name"@),
            ("idx_operator_model_update_candidates_profile_status"@, false, "operator_model_update_candidates"@, "profile_id, status, created_at"@),
            ("idx_consolidation_candidates_run_status"@, false, "consolidation_candidates"@, "run_id, status, created_at"@),
            ("idx_run_cost_events_run_id"@, false, "run_cost_events"@, "run_id, created_at"@),
            ("idx_decision_log_run_id"@, false, "decision_log"@, "run_id, created_at"@),
            ("idx_coordination_leases_status_updated"@, false, "coordination_leases"@, "status, updated_at"@),
            ("idx_coordination_policy_events_created_at"@, false, "coordination_policy_events_db"@, "created_at DESC"@),
            ("idx_agent_state_updated_at"@, false, "agent_state"@, "updated_at"@),
            ("idx_causal_graph_projections_projected_at"@, false, "causal_graph_projections"@, "projected_at DESC"@),
            ("idx_agent_runtime_state_run"@, false, "agent_runtime_state"@, "run_id, canonical_role, updated_at"@),
            ("idx_agent_runtime_state_thread"@, false, "agent_runtime_state"@, "thread_id, updated_at"@),
            ("idx_memory_updates_old_memory_id"@, false, "memory_updates"@, "old_memory_id, created_at"@),
            ("idx_memory_updates_created_at"@, false, "memory_updates"@, "created_at DESC"@),
            ("idx_code_review_learning_records_run"@, false, "code_review_learning_records"@, "run_id, created_at"@),
            ("idx_code_review_learning_records_fingerprint"@, true, "code_review_learning_records"@, "run_id, finding_fingerprint"@),
            ("idx_behavioral_change_reports_status"@, false, "behavioral_change_reports"@, "status, created_at"@),
            ("idx_agent_traces_run_agent"@, false, "agent_traces"@, "run_id, agent, created_at"@),
        ],
{
    lemma_run_steps_listed();
    lemma_episode_steps_listed();
    lemma_score_steps_listed();
    lemma_chat_steps_listed();
    lemma_operator_model_steps_listed();
    lemma_consolidation_steps_listed();
    lemma_coordination_steps_listed();
    lemma_memory_update_steps_listed();
    lemma_learning_steps_listed();
    lemma_steps_joined();
    assert(indexes_of(schema_steps(), 0) =~= seq![
        ("idx_calvin_write_queue_status_next_attempt"@, false, "calvin_write_queue"@, "status, next_attempt_at"@),
        ("idx_run_predictions_spec_created"@, false, "run_predictions"@, "spec_id, created_at"@),
        ("idx_spec_family_profiles_updated"@, false, "spec_family_profiles"@, "updated_at"@),
        ("idx_prediction_success_reinforcements_cause"@, false, "prediction_success_reinforcements"@, "source_cause_id, created_at"@),
        ("idx_memory_influence_exclusions_run"@, false, "memory_influence_exclusions"@, "run_id, created_at"@),
        ("idx_memory_influence_exclusions_key"@, false, "memory_influence_exclusions"@, "memory_key, created_at"@),
        ("idx_phase_attributions_run_id_phase"@, false, "phase_attributions"@, "run_id, phase"@),
        ("idx_context_pull_records_run_created"@, false, "context_pull_records"@, "run_id, created_at"@),
        ("idx_run_checkpoints_run_status"@, false, "run_checkpoints"@, "run_id, status, created_at"@),
        ("idx_checkpoint_answers_checkpoint"@, false, "checkpoint_answers"@, "checkpoint_id, created_at"@),
        ("idx_run_events_run_id_event_id"@, false, "run_events"@, "run_id, event_id"@),
        ("idx_causal_links_from"@, false, "causal_links"@, "from_event"@),
        ("idx_causal_links_to"@, false, "causal_links"@, "to_event"@),
        ("idx_lessons_tags"@, false, "lessons"@, "tags"@),
        ("idx_causal_hypotheses_run_id"@, false, "causal_hypotheses"@, "run_id"@),
        ("idx_coobie_scores_scenario"@, false, "coobie_episode_scores"@, "scenario_passed, validation_passed"@),
        ("idx_chat_threads_run_id"@, false, "chat_threads"@, "run_id, created_at"@),
        ("idx_chat_messages_thread_id"@, false, "chat_messages"@, "thread_id, created_at"@),
        ("idx_memory_candidates_run_status"@, false, "memory_candidates"@, "run_id, status, created_at"@),
        ("idx_memory_candidates_thread_status"@, false, "memory_candidates"@, "thread_id, status, created_at"@),
        ("idx_memory_candidates_dedupe_status"@, false, "memory_candidates"@, "dedupe_key, status"@),
        ("idx_operator_model_profiles_scope_project"@, false, "operator_model_profiles"@, "scope, project_root"@),
        ("idx_operator_model_sessions_profile_status"@, false, "operator_model_sessions"@, "profile_id, status, created_at"@),
        ("idx_operator_model_checkpoints_profile_layer"@, false, "operator_model_layer_checkpoints"@, "profile_id, version, layer, status"@),
        ("idx_operator_model_entries_profile_layer"@, false, "operator_model_entries"@, "profile_id, version, layer, status"@),
        ("idx_operator_model_exports_profile_version"@, false, "operator_model_exports"@, "profile_id, version, artifact_name"@),
        ("idx_operator_model_update_candidates_profile_status"@, false, "operator_model_update_candidates"@, "profile_id, status, created_at"@),
        ("idx_consolidation_candidates_run_status"@, false, "consolidation_candidates"@, "run_id, status, created_at"@),
        ("idx_run_cost_events_run_id"@, false, "run_cost_events"@, "run_id, created_at"@),
        ("idx_decision_log_run_id"@, false, "decision_log"@, "run_id, created_at"@),
        ("idx_coordination_leases_status_updated"@, false, "coordination_leases"@, "status, updated_at"@),
        ("idx_coordination_policy_events_created_at"@, false, "coordination_policy_events_db"@, "created_at DESC"@),
        ("idx_agent_state_updated_at"@, false, "agent_state"@, "updated_at"@),
        ("idx_causal_graph_projections_projected_at"@, false, "causal_graph_projections"@, "projected_at DESC"@),
        ("idx_agent_runtime_state_run"@, false, "agent_runtime_state"@, "run_id, canonical_role, updated_at"@),
        ("idx_agent_runtime_state_thread"@, false, "agent_runtime_state"@, "thread_id, updated_at"@),
        ("idx_memory_updates_old_memory_id"@, false, "memory_updates"@, "old_memory_id, created_at"@),
        ("idx_memory_updates_created_at"@, false, "memory_updates"@, "created_at DESC"@),
        ("idx_code_review_learning_records_run"@, false, "code_review_learning_records"@, "run_id, created_at"@),
        ("idx_code_review_learning_records_fingerprint"@, true, "code_review_learning_records"@, "run_id, finding_fingerprint"@),
        ("idx_behavioral_change_reports_status"@, false, "behavioral_change_reports"@, "status, created_at"@),
        ("idx_agent_traces_run_agent"@, false, "agent_traces"@, "run_id, agent, created_at"@),
    ]);
}

/// These are the columns that a table which came without them gets.
pub proof fn law_added_columns_are_these()
    ensures
        additions_of(schema_steps(), 0) == seq![
            ("run_events"@, "episode_id"@, "TEXT"@),
            ("episodes"@, "state_before"@, "TEXT"@),
            ("episodes"@, "state_after"@, "TEXT"@),
            ("phase_attributions"@, "briefing_scope"@, "TEXT"@),
            ("phase_attributions"@, "briefing_token_budget"@, "INTEGER NOT NULL DEFAULT 0"@),
            ("phase_attributions"@, "briefing_tokens_used"@, "INTEGER NOT NULL DEFAULT 0"@),
            ("phase_attributions"@, "briefing_hits_provided"@, "INTEGER NOT NULL DEFAULT 0"@),
            ("phase_attributions"@, "stakeholder_alignment_json"@, "TEXT NOT NULL DEFAULT 'null'"@),
            ("context_pull_records"@, "trigger"@, "TEXT"@),
            ("coobie_episode_scores"@, "phase_success_score"@, "REAL NOT NULL DEFAULT 1.0"@),
            ("causal_hypotheses"@, "hierarchy_level"@, "TEXT NOT NULL DEFAULT 'associational'"@),
            ("causal_hypotheses"@, "evidence"@, "TEXT NOT NULL DEFAULT '[]'"@),
            ("memory_embeddings"@, "backend_id"@, "TEXT NOT NULL DEFAULT ''"@),
            ("memory_embeddings"@, "model_id"@, "TEXT NOT NULL DEFAULT ''"@),
            ("chat_threads"@, "thread_kind"@, "TEXT NOT NULL DEFAULT 'general'"@),
            ("chat_threads"@, "metadata_json"@, "TEXT NOT NULL DEFAULT '{}'"@),
            ("chat_messages"@, "agent_runtime_id"@, "TEXT"@),
            ("memory_candidates"@, "dedupe_key"@, "TEXT"@),
            ("memory_candidates"@, "learning_intent"@, "TEXT NOT NULL DEFAULT 'awareness_only'"@),
            ("consolidation_candidates"@, "review_class"@, "TEXT NOT NULL DEFAULT 'standard'"@),
            ("consolidation_candidates"@, "pattern_basis_json"@, "TEXT NOT NULL DEFAULT '[]'"@),
            ("memory_updates"@, "memory_root"@, "TEXT NOT NULL DEFAULT ''"@),
            ("memory_updates"@, "review_status"@, "TEXT NOT NULL DEFAULT 'pending'"@),
            ("memory_updates"@, "reviewed_by"@, "TEXT"@),
            ("memory_updates"@, "review_note"@, "TEXT"@),
            ("memory_updates"@, "reviewed_at"@, "TEXT"@),
        ],
{
    lemma_run_steps_listed();
    lemma_episode_steps_listed();
    lemma_score_steps_listed();
    lemma_chat_steps_listed();
    lemma_operator_model_steps_listed();
    lemma_consolidation_steps_listed();
    lemma_coordination_steps_listed();
    lemma_memory_update_steps_listed();
    lemma_learning_steps_listed();
    lemma_steps_joined();
    assert(additions_of(schema_steps(), 0) =~= seq![
        ("run_events"@, "episode_id"@, "TEXT"@),
        ("episodes"@, "state_before"@, "TEXT"@),
        ("episodes"@, "state_after"@, "TEXT"@),
        ("phase_attributions"@, "briefing_scope"@, "TEXT"@),
        ("phase_attributions"@, "briefing_token_budget"@, "INTEGER NOT NULL DEFAULT 0"@),
        ("phase_attributions"@, "briefing_tokens_used"@, "INTEGER NOT NULL DEFAULT 0"@),
        ("phase_attributions"@, "briefing_hits_provided"@, "INTEGER NOT NULL DEFAULT 0"@),
        ("phase_attributions"@, "stakeholder_alignment_json"@, "TEXT NOT NULL DEFAULT 'null'"@),
        ("context_pull_records"@, "trigger"@, "TEXT"@),
        ("coobie_episode_scores"@, "phase_success_score"@, "REAL NOT NULL DEFAULT 1.0"@),
        ("causal_hypotheses"@, "hierarchy_level"@, "TEXT NOT NULL DEFAULT 'associational'"@),
        ("causal_hypotheses"@, "evidence"@, "TEXT NOT NULL DEFAULT '[]'"@),
        ("memory_embeddings"@, "backend_id"@, "TEXT NOT NULL DEFAULT ''"@),
        ("memory_embeddings"@, "model_id"@, "TEXT NOT NULL DEFAULT ''"@),
        ("chat_threads"@, "thread_kind"@, "TEXT NOT NULL DEFAULT 'general'"@),
        ("chat_threads"@, "metadata_json"@, "TEXT NOT NULL DEFAULT '{}'"@),
        ("chat_messages"@, "agent_runtime_id"@, "TEXT"@),
        ("memory_candidates"@, "dedupe_key"@, "TEXT"@),
        ("memory_candidates"@, "learning_intent"@, "TEXT NOT NULL DEFAULT 'awareness_only'"@),
        ("consolidation_candidates"@, "review_class"@, "TEXT NOT NULL DEFAULT 'standard'"@),
        ("consolidation_candidates"@, "pattern_basis_json"@, "TEXT NOT NULL DEFAULT '[]'"@),
        ("memory_updates"@, "memory_root"@, "TEXT NOT NULL DEFAULT ''"@),
        ("memory_updates"@, "review_status"@, "TEXT NOT NULL DEFAULT 'pending'"@),
        ("memory_updates"@, "reviewed_by"@, "TEXT"@),
        ("memory_updates"@, "review_note"@, "TEXT"@),
        ("memory_updates"@, "reviewed_at"@, "TEXT"@),
    ]);
}

proof fn lemma_created_tables(steps: Seq<SchemaStep>, i: int, table: Seq<char>)
    requires
        0 <= i <= steps.len(),
    ensures
        (exists|j: int| i <= j < steps.len() && #[trigger] creates(steps[j], table)) <==> (exists|
            k: int,
        |
            0 <= k < tables_of(steps, i).len() && (#[trigger] tables_of(steps, i)[k]).0 == table),
    decreases steps.len() - i,
{
    if i < steps.len() {
        lemma_created_tables(steps, i + 1, table);
        let rest = tables_of(steps, i + 1);
        let all = tables_of(steps, i);
        if exists|j: int| i <= j < steps.len() && #[trigger] creates(steps[j], table) {
            let j = choose|j: int| i <= j < steps.len() && #[trigger] creates(steps[j], table);
            if j == i {
                assert(all[0].0 == table);
            } else {
                let k = choose|k: int| 0 <= k < rest.len() && (#[trigger] rest[k]).0 == table;
                if steps[i] is CreateTable {
                    assert(all[k + 1] == rest[k]);
                } else {
                    assert(all[k] == rest[k]);
                }
            }
        }
        if exists|k: int| 0 <= k < all.len() && (#[trigger] all[k]).0 == table {
            let k = choose|k: int| 0 <= k < all.len() && (#[trigger] all[k]).0 == table;
            if steps[i] is CreateTable {
                if k == 0 {
                    assert(creates(steps[i], table));
                } else {
                    assert(rest[k - 1] == all[k]);
                }
            } else {
                assert(rest[k] == all[k]);
            }
        }
    }
}

proof fn lemma_tables_after(tables: Tables, steps: Seq<SchemaStep>, table: Seq<char>)
    ensures
        after_steps(tables, steps).dom().contains(table) <==> tables.dom().contains(table) || (
        exists|j: int| 0 <= j < steps.len() && #[trigger] creates(steps[j], table)),
    decreases steps.len(),
{
    if steps.len() > 0 {
        let front = steps.drop_last();
        lemma_tables_after(tables, front, table);
        if exists|j: int| 0 <= j < steps.len() && #[trigger] creates(steps[j], table) {
            let j = choose|j: int| 0 <= j < steps.len() && #[trigger] creates(steps[j], table);
            if j < front.len() {
                assert(creates(front[j], table));
            }
        }
        if exists|j: int| 0 <= j < front.len() && #[trigger] creates(front[j], table) {
            let j = choose|j: int| 0 <= j < front.len() && #[trigger] creates(front[j], table);
            assert(creates(steps[j], table));
        }
        if creates(steps.last(), table) {
            assert(creates(steps[steps.len() - 1], table));
        }
    }
}

/// A database that was empty has these tables after the steps, and no others.
pub proof fn law_fresh_database_has_these_tables(table: Seq<char>)
    ensures
        after_steps(Map::empty(), schema_steps()).dom().contains(table) <==> seq![
            "runs"@,
            "calvin_write_queue"@,
            "run_predictions"@,
            "spec_family_profiles"@,
            "prediction_success_reinforcements"@,
            "memory_influence_exclusions"@,
            "run_events"@,
            "episodes"@,
            "phase_attributions"@,
            "context_pull_records"@,
            "run_checkpoints"@,
            "checkpoint_answers"@,
            "causal_links"@,
            "lessons"@,
            "coobie_episode_scores"@,
            "causal_hypotheses"@,
            "interventions"@,
            "heuristics"@,
            "memory_embeddings"@,
            "chat_threads"@,
            "chat_messages"@,
            "memory_candidates"@,
            "operator_model_profiles"@,
            "operator_model_sessions"@,
            "operator_model_layer_checkpoints"@,
            "operator_model_entries"@,
            "operator_model_exports"@,
            "operator_model_update_candidates"@,
            "consolidation_candidates"@,
            "run_cost_events"@,
            "decision_log"@,
            "coordination_leases"@,
            "coordination_policy_events_db"@,
            "agent_runtime_state"@,
            "agent_state"@,
            "causal_graph_projections"@,
            "memory_updates"@,
            "code_review_learning_records"@,
            "behavioral_change_reports"@,
            "agent_traces"@,
        ].contains(table),
{
    let names = seq![
        "runs"@,
        "calvin_write_queue"@,
        "run_predictions"@,
        "spec_family_profiles"@,
        "prediction_success_reinforcements"@,
        "memory_influence_exclusions"@,
        "run_events"@,
        "episodes"@,
        "phase_attributions"@,
        "context_pull_records"@,
        "run_checkpoints"@,
        "checkpoint_answers"@,
        "causal_links"@,
        "lessons"@,
        "coobie_episode_scores"@,
        "causal_hypotheses"@,
        "interventions"@,
        "heuristics"@,
        "memory_embeddings"@,
        "chat_threads"@,
        "chat_messages"@,
        "memory_candidates"@,
        "operator_model_profiles"@,
        "operator_model_sessions"@,
        "operator_model_layer_checkpoints"@,
        "operator_model_entries"@,
        "operator_model_exports"@,
        "operator_model_update_candidates"@,
        "consolidation_candidates"@,
        "run_cost_events"@,
        "decision_log"@,
        "coordination_leases"@,
        "coordination_policy_events_db"@,
        "agent_runtime_state"@,
        "agent_state"@,
        "causal_graph_projections"@,
        "memory_updates"@,
        "code_review_learning_records"@,
        "behavioral_change_reports"@,
        "agent_traces"@,
    ];
    let all = tables_of(schema_steps(), 0);
    law_tables_are_these();
    lemma_tables_after(Map::empty(), schema_steps(), table);
    lemma_created_tables(schema_steps(), 0, table);
    assert(all.len() == names.len());
    assert forall|k: int| 0 <= k < names.len() implies (#[trigger] all[k]).0 == names[k] by {
    }
    if names.contains(table) {
        let k = choose|k: int| 0 <= k < names.len() && names[k] == table;
        assert(all[k].0 == table);
    }
}

/// How many of the steps from `i` on fill in the state of the agents.
pub open spec fn seedings_of(steps: Seq<SchemaStep>, i: int) -> nat
    decreases steps.len() - i,
{
    if i >= steps.len() {
        0
    } else {
        seedings_of(steps, i + 1) + if steps[i] is SeedAgentState {
            1nat
        } else {
            0nat
        }
    }
}

proof fn lemma_every_step_counts(steps: Seq<SchemaStep>, i: int)
    requires
        0 <= i <= steps.len(),
    ensures
        steps.len() - i == tables_of(steps, i).len() + indexes_of(steps, i).len() + additions_of(
            steps,
            i,
        ).len() + seedings_of(steps, i),
    decreases steps.len() - i,
{
    if i < steps.len() {
        lemma_every_step_counts(steps, i + 1);
    }
}

/// The state of the agents is filled in once.
pub proof fn law_agents_are_filled_in_once()
    ensures
        seedings_of(schema_steps(), 0) == 1,
{
    law_tables_are_these();
    law_indexes_are_these();
    law_added_columns_are_these();
    lemma_every_step_counts(schema_steps(), 0);
}

/// A step is carried out by this statement; the state of the agents is filled in
/// by none of them.
pub proof fn law_step_statements(
    index: &'static str,
    table: &'static str,
    columns: &'static str,
    kind: &'static str,
)
    ensures
        step_statement(SchemaStep::CreateTable { table, columns }) == Some(
            "CREATE TABLE IF NOT EXISTS "@ + table@ + " (\n"@ + columns@ + "\n)"@,
        ),
        step_statement(SchemaStep::CreateIndex { index, unique: true, table, columns }) == Some(
            "CREATE UNIQUE INDEX IF NOT EXISTS "@ + index@ + " ON "@ + table@ + " ("@ + columns@
                + ")"@,
        ),
        step_statement(SchemaStep::CreateIndex { index, unique: false, table, columns }) == Some(
            "CREATE INDEX IF NOT EXISTS "@ + index@ + " ON "@ + table@ + " ("@ + columns@ + ")"@,
        ),
        step_statement(SchemaStep::AddColumn { table, column: columns, kind }) == Some(
            "ALTER TABLE "@ + table@ + " ADD COLUMN "@ + columns@ + " "@ + kind@,
        ),
        step_statement(SchemaStep::SeedAgentState) is None,
{
}

/// Whether one of the steps adds this column to this table.
pub open spec fn added(steps: Seq<SchemaStep>, table: Seq<char>, column: Seq<char>) -> bool {
    exists|k: int|
        0 <= k < steps.len() && (#[trigger] steps[k] matches SchemaStep::AddColumn {
            table: name,
            column: new,
            ..
        } && name@ == table && new@ == column)
}

proof fn lemma_added(steps: Seq<SchemaStep>, table: Seq<char>, column: Seq<char>)
    requires
        steps.len() > 0,
    ensures
        added(steps, table, column) <==> added(steps.drop_last(), table, column) || (
        steps.last() matches SchemaStep::AddColumn { table: name, column: new, .. } && name@
            == table && new@ == column),
{
    let front = steps.drop_last();
    if added(steps, table, column) {
        let k = choose|k: int|
            0 <= k < steps.len() && (#[trigger] steps[k] matches SchemaStep::AddColumn {
                table: name,
                column: new,
                ..
            } && name@ == table && new@ == column);
        if k < front.len() {
            assert(front[k] == steps[k]);
        }
    }
    if added(front, table, column) {
        let k = choose|k: int|
            0 <= k < front.len() && (#[trigger] front[k] matches SchemaStep::AddColumn {
                table: name,
                column: new,
                ..
            } && name@ == table && new@ == column);
        assert(steps[k] == front[k]);
    }
    assert(steps[steps.len() - 1] == steps.last());
}

proof fn lemma_nothing_added(steps: Seq<SchemaStep>, table: Seq<char>, column: Seq<char>)
    requires
        well_ordered(steps),
        forall|k: int| 0 <= k < steps.len() ==> !creates(#[trigger] steps[k], table),
    ensures
        !added(steps, table, column),
{
    if added(steps, table, column) {
        let k = choose|k: int|
            0 <= k < steps.len() && (#[trigger] steps[k] matches SchemaStep::AddColumn {
                table: name,
                column: new,
                ..
            } && name@ == table && new@ == column);
        assert(needed_table(steps[k]) == Some(table));
        assert(created_before(steps, k, table));
        let j = choose|j: int| 0 <= j < k && #[trigger] creates(steps[j], table);
        assert(creates(steps[j], table));
    }
}

/// In a database that was empty a table has, after the steps, the columns that it
/// was created with and those that were added to it, and no others.
pub proof fn law_fresh_table_has_its_columns(
    steps: Seq<SchemaStep>,
    j: int,
    table: &'static str,
    columns: &'static str,
    column: Seq<char>,
)
    requires
        well_ordered(steps),
        0 <= j < steps.len(),
        steps[j] == (SchemaStep::CreateTable { table, columns }),
        forall|k: int| 0 <= k < j ==> !creates(#[trigger] steps[k], table@),
    ensures
        after_steps(Map::empty(), steps).dom().contains(table@),
        after_steps(Map::empty(), steps)[table@].contains(column) <==> declared_columns(
            columns@,
        ).contains(column) || added(steps, table@, column),
    decreases steps.len(),
{
    let front = steps.drop_last();
    assert(well_ordered(front)) by {
        assert forall|i: int|
            #![trigger front[i]]
            0 <= i < front.len() && needed_table(front[i]) is Some implies created_before(
            front,
            i,
            needed_table(front[i])->Some_0,
        ) by {
            assert(front[i] == steps[i]);
            let name = needed_table(steps[i])->Some_0;
            assert(created_before(steps, i, name));
            let k = choose|k: int| 0 <= k < i && #[trigger] creates(steps[k], name);
            assert(creates(front[k], name));
        }
    }
    lemma_added(steps, table@, column);
    if j < front.len() {
        assert(front[j] == steps[j]);
        assert forall|k: int| 0 <= k < j implies !creates(#[trigger] front[k], table@) by {
            assert(front[k] == steps[k]);
        }
        law_fresh_table_has_its_columns(front, j, table, columns, column);
    } else {
        assert forall|k: int| 0 <= k < front.len() implies !creates(
            #[trigger] front[k],
            table@,
        ) by {
            assert(front[k] == steps[k]);
        }
        lemma_nothing_added(front, table@, column);
        lemma_tables_after(Map::empty(), front, table@);
        assert(steps.last() == steps[j]);
    }
}

// ---------------------------------------------------------------------------
// The columns of the tables
// ---------------------------------------------------------------------------

/// The declarations from the one at `i` on: first the columns, each with its
/// kind, and then the rules for the whole table.
pub open spec fn declared_from(
    columns: Seq<(Seq<char>, Seq<char>)>,
    rules: Seq<Seq<char>>,
    i: int,
) -> Seq<char>
    decreases columns.len() + rules.len() - i,
{
    let line = if i < columns.len() {
        columns[i].0 + " "@ + columns[i].1
    } else {
        rules[i - columns.len()]
    };
    if i + 1 >= columns.len() + rules.len() {
        line
    } else {
        line + ",\n"@ + declared_from(columns, rules, i + 1)
    }
}

/// The table `runs` has these columns.
pub proof fn law_runs_columns()
    ensures
        RUNS_COLUMNS@ == declared_from(
            seq![
                ("run_id"@, "TEXT PRIMARY KEY"@),
                ("spec_id"@, "TEXT NOT NULL"@),
                ("product"@, "TEXT NOT NULL"@),
                ("status"@, "TEXT NOT NULL"@),
                ("created_at"@, "TEXT NOT NULL"@),
                ("updated_at"@, "TEXT NOT NULL"@),
            ],
            Seq::empty(),
            0,
        ),
{
    let columns = seq![
        ("run_id"@, "TEXT PRIMARY KEY"@),
        ("spec_id"@, "TEXT NOT NULL"@),
        ("product"@, "TEXT NOT NULL"@),
        ("status"@, "TEXT NOT NULL"@),
        ("created_at"@, "TEXT NOT NULL"@),
        ("updated_at"@, "TEXT NOT NULL"@),
    ];
    let rules = Seq::<Seq<char>>::empty();
    reveal_strlit(
        "run_id TEXT PRIMARY KEY,\nspec_id TEXT NOT NULL,\nproduct TEXT NOT NULL,\nstatus TEXT NOT NULL,\ncreated_at TEXT NOT NULL,\nupdated_at TEXT NOT NULL",
    );
    reveal_strlit("run_id");
    reveal_strlit("TEXT PRIMARY KEY");
    reveal_strlit("spec_id");
    reveal_strlit("TEXT NOT NULL");
    reveal_strlit("product");
    reveal_strlit("status");
    reveal_strlit("created_at");
    reveal_strlit("updated_at");
    reveal_strlit(" ");
    reveal_strlit(",\n");
    reveal_with_fuel(declared_from, 5);
    let all = RUNS_COLUMNS@;
    assert(all.skip(93) =~= declared_from(columns, rules, 4));
    assert(all =~= declared_from(columns, rules, 0));
}

/// The table `calvin_write_queue` has these columns.
pub proof fn law_calvin_write_queue_columns()
    ensures
        CALVIN_WRITE_QUEUE_COLUMNS@ == declared_from(
            seq![
                ("queue_id"@, "TEXT PRIMARY KEY"@),
                ("run_id"@, "TEXT"@),
                ("operation"@, "TEXT NOT NULL"@),
                ("method"@, "TEXT NOT NULL"@),
                ("path"@, "TEXT NOT NULL"@),
                ("payload_json"@, "TEXT NOT NULL"@),
                ("status"@, "TEXT NOT NULL"@),
                ("attempts"@, "INTEGER NOT NULL DEFAULT 0"@),
                ("next_attempt_at"@, "TEXT NOT NULL"@),
                ("last_error"@, "TEXT"@),
                ("created_at"@, "TEXT NOT NULL"@),
                ("updated_at"@, "TEXT NOT NULL"@),
                ("confirmed_at"@, "TEXT"@),
            ],
            Seq::empty(),
            0,
        ),
{
    let columns = seq![
        ("queue_id"@, "TEXT PRIMARY KEY"@),
        ("run_id"@, "TEXT"@),
        ("operation"@, "TEXT NOT NULL"@),
        ("method"@, "TEXT NOT NULL"@),
        ("path"@, "TEXT NOT NULL"@),
        ("payload_json"@, "TEXT NOT NULL"@),
        ("status"@, "TEXT NOT NULL"@),
        ("attempts"@, "INTEGER NOT NULL DEFAULT 0"@),
        ("next_attempt_at"@, "TEXT NOT NULL"@),
        ("last_error"@, "TEXT"@),
        ("created_at"@, "TEXT NOT NULL"@),
        ("updated_at"@, "TEXT NOT NULL"@),
        ("confirmed_at"@, "TEXT"@),
    ];
    let rules = Seq::<Seq<char>>::empty();
    reveal_strlit(
        "queue_id TEXT PRIMARY KEY,\nrun_id TEXT,\noperation TEXT NOT NULL,\nmethod TEXT NOT NULL,\npath TEXT NOT NULL,\npayload_json TEXT NOT NULL,\nstatus TEXT NOT NULL,\nattempts INTEGER NOT NULL DEFAULT 0,\nnext_attempt_at TEXT NOT NULL,\nlast_error TEXT,\ncreated_at TEXT NOT NULL,\nupdated_at TEXT NOT NULL,\nconfirmed_at TEXT",
    );
    reveal_strlit("queue_id");
    reveal_strlit("TEXT PRIMARY KEY");
    reveal_strlit("run_id");
    reveal_strlit("TEXT");
    reveal_strlit("operation");
    reveal_strlit("TEXT NOT NULL");
    reveal_strlit("method");
    reveal_strlit("path");
    reveal_strlit("payload_json");
    reveal_strlit("status");
    reveal_strlit("attempts");
    reveal_strlit("INTEGER NOT NULL DEFAULT 0");
    reveal_strlit("next_attempt_at");
    reveal_strlit("last_error");
    reveal_strlit("created_at");
    reveal_strlit("updated_at");
    reveal_strlit("confirmed_at");
    reveal_strlit(" ");
    reveal_strlit(",\n");
    reveal_with_fuel(declared_from, 5);
    let all = CALVIN_WRITE_QUEUE_COLUMNS@;
    assert(all.skip(294) =~= declared_from(columns, rules, 12));
    assert(all.skip(194) =~= declared_from(columns, rules, 8));
    assert(all.skip(87) =~= declared_from(columns, rules, 4));
    assert(all =~= declared_from(columns, rules, 0));
}

/// The table `run_predictions` has these columns.
pub proof fn law_run_predictions_columns()
    ensures
        RUN_PREDICTIONS_COLUMNS@ == declared_from(
            seq![
                ("prediction_id"@, "TEXT PRIMARY KEY"@),
                ("run_id"@, "TEXT NOT NULL UNIQUE"@),
                ("spec_id"@, "TEXT NOT NULL"@),
                ("predicted_outcome"@, "TEXT NOT NULL"@),
                ("risk_score"@, "REAL NOT NULL"@),
                ("confidence"@, "REAL NOT NULL"@),
                ("failure_phase"@, "TEXT"@),
                ("failure_kind"@, "TEXT"@),
                ("source_cause_ids"@, "TEXT NOT NULL DEFAULT ''"@),
                ("narrative_summary"@, "TEXT NOT NULL"@),
                ("created_at"@, "TEXT NOT NULL"@),
            ],
            Seq::empty(),
            0,
        ),
{
    let columns = seq![
        ("prediction_id"@, "TEXT PRIMARY KEY"@),
        ("run_id"@, "TEXT NOT NULL UNIQUE"@),
        ("spec_id"@, "TEXT NOT NULL"@),
        ("predicted_outcome"@, "TEXT NOT NULL"@),
        ("risk_score"@, "REAL NOT NULL"@),
        ("confidence"@, "REAL NOT NULL"@),
        ("failure_phase"@, "TEXT"@),
        ("failure_kind"@, "TEXT"@),
        ("source_cause_ids"@, "TEXT NOT NULL DEFAULT ''"@),
        ("narrative_summary"@, "TEXT NOT NULL"@),
        ("created_at"@, "TEXT NOT NULL"@),
    ];
    let rules = Seq::<Seq<char>>::empty();
    reveal_strlit(
        "prediction_id TEXT PRIMARY KEY,\nrun_id TEXT NOT NULL UNIQUE,\nspec_id TEXT NOT NULL,\npredicted_outcome TEXT NOT NULL,\nrisk_score REAL NOT NULL,\nconfidence REAL NOT NULL,\nfailure_phase TEXT,\nfailure_kind TEXT,\nsource_cause_ids TEXT NOT NULL DEFAULT '',\nnarrative_summary TEXT NOT NULL,\ncreated_at TEXT NOT NULL",
    );
    reveal_strlit("prediction_id");
    reveal_strlit("TEXT PRIMARY KEY");
    reveal_strlit("run_id");
    reveal_strlit("TEXT NOT NULL UNIQUE");
    reveal_strlit("spec_id");
    reveal_strlit("TEXT NOT NULL");
    reveal_strlit("predicted_outcome");
    reveal_strlit("risk_score");
    reveal_strlit("REAL NOT NULL");
    reveal_strlit("confidence");
    reveal_strlit("failure_phase");
    reveal_strlit("TEXT");
    reveal_strlit("failure_kind");
    reveal_strlit("source_cause_ids");
    reveal_strlit("TEXT NOT NULL DEFAULT ''");
    reveal_strlit("narrative_summary");
    reveal_strlit("created_at");
    reveal_strlit(" ");
    reveal_strlit(",\n");
    reveal_with_fuel(declared_from, 5);
    let all = RUN_PREDICTIONS_COLUMNS@;
    assert(all.skip(208) =~= declared_from(columns, rules, 8));
    assert(all.skip(117) =~= declared_from(columns, rules, 4));
    assert(all =~= declared_from(columns, rules, 0));
}

/// The table `spec_family_profiles` has these columns.
pub proof fn law_spec_family_profiles_columns()
    ensures
        SPEC_FAMILY_PROFILES_COLUMNS@ == declared_from(
            seq![
                ("family_id"@, "TEXT PRIMARY KEY"@),
                ("label"@, "TEXT NOT NULL"@),
                ("fingerprint_json"@, "TEXT NOT NULL DEFAULT '[]'"@),
                ("spec_ids_json"@, "TEXT NOT NULL DEFAULT '[]'"@),
                ("created_at"@, "TEXT NOT NULL"@),
                ("updated_at"@, "TEXT NOT NULL"@),
            ],
            Seq::empty(),
            0,
        ),
{
    let columns = seq![
        ("family_id"@, "TEXT PRIMARY KEY"@),
        ("label"@, "TEXT NOT NULL"@),
        ("fingerprint_json"@, "TEXT NOT NULL DEFAULT '[]'"@),
        ("spec_ids_json"@, "TEXT NOT NULL DEFAULT '[]'"@),
        ("created_at"@, "TEXT NOT NULL"@),
        ("updated_at"@, "TEXT NOT NULL"@),
    ];
    let rules = Seq::<Seq<char>>::empty();
    reveal_strlit(
        "family_id TEXT PRIMARY KEY,\nlabel TEXT NOT NULL,\nfingerprint_json TEXT NOT NULL DEFAULT '[]',\nspec_ids_json TEXT NOT NULL DEFAULT '[]',\ncreated_at TEXT NOT NULL,\nupdated_at TEXT NOT NULL",
    );
    reveal_strlit("family_id");
    reveal_strlit("TEXT PRIMARY KEY");
    reveal_strlit("label");
    reveal_strlit("TEXT NOT NULL");
    reveal_strlit("fingerprint_json");
    reveal_strlit("TEXT NOT NULL DEFAULT '[]'");
    reveal_strlit("spec_ids_json");
    reveal_strlit("created_at");
    reveal_strlit("updated_at");
    reveal_strlit(" ");
    reveal_strlit(",\n");
    reveal_with_fuel(declared_from, 5);
    let all = SPEC_FAMILY_PROFILES_COLUMNS@;
    assert(all.skip(136) =~= declared_from(columns, rules, 4));
    assert(all =~= declared_from(columns, rules, 0));
}

/// The table `prediction_success_reinforcements` has these columns.
pub proof fn law_prediction_success_reinforcements_columns()
    ensures
        PREDICTION_SUCCESS_REINFORCEMENTS_COLUMNS@ == declared_from(
            seq![
                ("reinforcement_id"@, "TEXT PRIMARY KEY"@),
                ("run_id"@, "TEXT NOT NULL"@),
                ("prediction_id"@, "TEXT NOT NULL"@),
                ("source_cause_id"@, "TEXT NOT NULL"@),
                ("prediction_error"@, "REAL NOT NULL"@),
                ("actual_outcome"@, "TEXT NOT NULL"@),
                ("confirmation_count"@, "INTEGER NOT NULL"@),
                ("status"@, "TEXT NOT NULL DEFAULT 'pending_workbench_review'"@),
                ("created_at"@, "TEXT NOT NULL"@),
            ],
            seq![
                "UNIQUE(run_id, source_cause_id)"@,
            ],
            0,
        ),
{
    let columns = seq![
        ("reinforcement_id"@, "TEXT PRIMARY KEY"@),
        ("run_id"@, "TEXT NOT NULL"@),
        ("prediction_id"@, "TEXT NOT NULL"@),
        ("source_cause_id"@, "TEXT NOT NULL"@),
        ("prediction_error"@, "REAL NOT NULL"@),
        ("actual_outcome"@, "TEXT NOT NULL"@),
        ("confirmation_count"@, "INTEGER NOT NULL"@),
        ("status"@, "TEXT NOT NULL DEFAULT 'pending_workbench_review'"@),
        ("created_at"@, "TEXT NOT NULL"@),
    ];
    let rules = seq![
        "UNIQUE(run_id, source_cause_id)"@,
    ];
    reveal_strlit(
        "reinforcement_id TEXT PRIMARY KEY,\nrun_id TEXT NOT NULL,\nprediction_id TEXT NOT NULL,\nsource_cause_id TEXT NOT NULL,\nprediction_error REAL NOT NULL,\nactual_outcome TEXT NOT NULL,\nconfirmation_count INTEGER NOT NULL,\nstatus TEXT NOT NULL DEFAULT 'pending_workbench_review',\ncreated_at TEXT NOT NULL,\nUNIQUE(run_id, source_cause_id)",
    );
    reveal_strlit("reinforcement_id");
    reveal_strlit("TEXT PRIMARY KEY");
    reveal_strlit("run_id");
    reveal_strlit("TEXT NOT NULL");
    reveal_strlit("prediction_id");
    reveal_strlit("source_cause_id");
    reveal_strlit("prediction_error");
    reveal_strlit("REAL NOT NULL");
    reveal_strlit("actual_outcome");
    reveal_strlit("confirmation_count");
    reveal_strlit("INTEGER NOT NULL");
    reveal_strlit("status");
    reveal_strlit("TEXT NOT NULL DEFAULT 'pending_workbench_review'");
    reveal_strlit("created_at");
    reveal_strlit("UNIQUE(run_id, source_cause_id)");
    reveal_strlit(" ");
    reveal_strlit(",\n");
    reveal_with_fuel(declared_from, 5);
    let all = PREDICTION_SUCCESS_REINFORCEMENTS_COLUMNS@;
    assert(all.skip(273) =~= declared_from(columns, rules, 8));
    assert(all.skip(117) =~= declared_from(columns, rules, 4));
    assert(all =~= declared_from(columns, rules, 0));
}

/// The table `memory_influence_exclusions` has these columns.
pub proof fn law_memory_influence_exclusions_columns()
    ensures
        MEMORY_INFLUENCE_EXCLUSIONS_COLUMNS@ == declared_from(
            seq![
                ("exclusion_id"@, "TEXT PRIMARY KEY"@),
                ("run_id"@, "TEXT NOT NULL"@),
                ("phase"@, "TEXT NOT NULL"@),
                ("briefing_scope"@, "TEXT"@),
                ("memory_key"@, "TEXT NOT NULL"@),
                ("memory_preview"@, "TEXT NOT NULL"@),
                ("spec_family"@, "TEXT NOT NULL DEFAULT 'unknown'"@),
                ("expected_outcome"@, "TEXT NOT NULL"@),
                ("actual_outcome"@, "TEXT NOT NULL"@),
                ("exclusion_probability"@, "REAL NOT NULL"@),
                ("selection_basis"@, "TEXT NOT NULL"@),
                ("created_at"@, "TEXT NOT NULL"@),
            ],
            seq![
                "UNIQUE(run_id, phase, memory_key)"@,
            ],
            0,
        ),
{
    let columns = seq![
        ("exclusion_id"@, "TEXT PRIMARY KEY"@),
        ("run_id"@, "TEXT NOT NULL"@),
        ("phase"@, "TEXT NOT NULL"@),
        ("briefing_scope"@, "TEXT"@),
        ("memory_key"@, "TEXT NOT NULL"@),
        ("memory_preview"@, "TEXT NOT NULL"@),
        ("spec_family"@, "TEXT NOT NULL DEFAULT 'unknown'"@),
        ("expected_outcome"@, "TEXT NOT NULL"@),
        ("actual_outcome"@, "TEXT NOT NULL"@),
        ("exclusion_probability"@, "REAL NOT NULL"@),
        ("selection_basis"@, "TEXT NOT NULL"@),
        ("created_at"@, "TEXT NOT NULL"@),
    ];
    let rules = seq![
        "UNIQUE(run_id, phase, memory_key)"@,
    ];
    reveal_strlit(
        "exclusion_id TEXT PRIMARY KEY,\nrun_id TEXT NOT NULL,\nphase TEXT NOT NULL,\nbriefing_scope TEXT,\nmemory_key TEXT NOT NULL,\nmemory_preview TEXT NOT NULL,\nspec_family TEXT NOT NULL DEFAULT 'unknown',\nexpected_outcome TEXT NOT NULL,\nactual_outcome TEXT NOT NULL,\nexclusion_probability REAL NOT NULL,\nselection_basis TEXT NOT NULL,\ncreated_at TEXT NOT NULL,\nUNIQUE(run_id, phase, memory_key)",
    );
    reveal_strlit("exclusion_id");
    reveal_strlit("TEXT PRIMARY KEY");
    reveal_strlit("run_id");
    reveal_strlit("TEXT NOT NULL");
    reveal_strlit("phase");
    reveal_strlit("briefing_scope");
    reveal_strlit("TEXT");
    reveal_strlit("memory_key");
    reveal_strlit("memory_preview");
    reveal_strlit("spec_family");
    reveal_strlit("TEXT NOT NULL DEFAULT 'unknown'");
    reveal_strlit("expected_outcome");
    reveal_strlit("actual_outcome");
    reveal_strlit("exclusion_probability");
    reveal_strlit("REAL NOT NULL");
    reveal_strlit("selection_basis");
    reveal_strlit("created_at");
    reveal_strlit("UNIQUE(run_id, phase, memory_key)");
    reveal_strlit(" ");
    reveal_strlit(",\n");
    reveal_with_fuel(declared_from, 5);
    let all = MEMORY_INFLUENCE_EXCLUSIONS_COLUMNS@;
    assert(all.skip(352) =~= declared_from(columns, rules, 12));
    assert(all.skip(228) =~= declared_from(columns, rules, 8));
    assert(all.skip(95) =~= declared_from(columns, rules, 4));
    assert(all =~= declared_from(columns, rules, 0));
}

/// The table `run_events` has these columns.
pub proof fn law_run_events_columns()
    ensures
        RUN_EVENTS_COLUMNS@ == declared_from(
            seq![
                ("event_id"@, "INTEGER PRIMARY KEY AUTOINCREMENT"@),
                ("run_id"@, "TEXT NOT NULL"@),
                ("phase"@, "TEXT NOT NULL"@),
                ("episode_id"@, "TEXT"@),
                ("agent"@, "TEXT NOT NULL"@),
                ("status"@, "TEXT NOT NULL"@),
                ("message"@, "TEXT NOT NULL"@),
                ("created_at"@, "TEXT NOT NULL"@),
            ],
            Seq::empty(),
            0,
        ),
{
    let columns = seq![
        ("event_id"@, "INTEGER PRIMARY KEY AUTOINCREMENT"@),
        ("run_id"@, "TEXT NOT NULL"@),
        ("phase"@, "TEXT NOT NULL"@),
        ("episode_id"@, "TEXT"@),
        ("agent"@, "TEXT NOT NULL"@),
        ("status"@, "TEXT NOT NULL"@),
        ("message"@, "TEXT NOT NULL"@),
        ("created_at"@, "TEXT NOT NULL"@),
    ];
    let rules = Seq::<Seq<char>>::empty();
    reveal_strlit(
        "event_id INTEGER PRIMARY KEY AUTOINCREMENT,\nrun_id TEXT NOT NULL,\nphase TEXT NOT NULL,\nepisode_id TEXT,\nagent TEXT NOT NULL,\nstatus TEXT NOT NULL,\nmessage TEXT NOT NULL,\ncreated_at TEXT NOT NULL",
    );
    reveal_strlit("event_id");
    reveal_strlit("INTEGER PRIMARY KEY AUTOINCREMENT");
    reveal_strlit("run_id");
    reveal_strlit("TEXT NOT NULL");
    reveal_strlit("phase");
    reveal_strlit("episode_id");
    reveal_strlit("TEXT");
    reveal_strlit("agent");
    reveal_strlit("status");
    reveal_strlit("message");
    reveal_strlit("created_at");
    reveal_strlit(" ");
    reveal_strlit(",\n");
    reveal_with_fuel(declared_from, 5);
    let all = RUN_EVENTS_COLUMNS@;
    assert(all.skip(104) =~= declared_from(columns, rules, 4));
    assert(all =~= declared_from(columns, rules, 0));
}

/// The table `episodes` has these columns.
pub proof fn law_episodes_columns()
    ensures
        EPISODES_COLUMNS@ == declared_from(
            seq![
                ("episode_id"@, "TEXT PRIMARY KEY"@),
                ("run_id"@, "TEXT NOT NULL"@),
                ("phase"@, "TEXT NOT NULL"@),
                ("goal"@, "TEXT NOT NULL"@),
                ("outcome"@, "TEXT"@),
                ("confidence"@, "REAL"@),
                ("started_at"@, "TEXT NOT NULL"@),
                ("ended_at"@, "TEXT"@),
                ("state_before"@, "TEXT"@),
                ("state_after"@, "TEXT"@),
            ],
            Seq::empty(),
            0,
        ),
{
    let columns = seq![
        ("episode_id"@, "TEXT PRIMARY KEY"@),
        ("run_id"@, "TEXT NOT NULL"@),
        ("phase"@, "TEXT NOT NULL"@),
        ("goal"@, "TEXT NOT NULL"@),
        ("outcome"@, "TEXT"@),
        ("confidence"@, "REAL"@),
        ("started_at"@, "TEXT NOT NULL"@),
        ("ended_at"@, "TEXT"@),
        ("state_before"@, "TEXT"@),
        ("state_after"@, "TEXT"@),
    ];
    let rules = Seq::<Seq<char>>::empty();
    reveal_strlit(
        "episode_id TEXT PRIMARY KEY,\nrun_id TEXT NOT NULL,\nphase TEXT NOT NULL,\ngoal TEXT NOT NULL,\noutcome TEXT,\nconfidence REAL,\nstarted_at TEXT NOT NULL,\nended_at TEXT,\nstate_before TEXT,\nstate_after TEXT",
    );
    reveal_strlit("episode_id");
    reveal_strlit("TEXT PRIMARY KEY");
    reveal_strlit("run_id");
    reveal_strlit("TEXT NOT NULL");
    reveal_strlit("phase");
    reveal_strlit("goal");
    reveal_strlit("outcome");
    reveal_strlit("TEXT");
    reveal_strlit("confidence");
    reveal_strlit("REAL");
    reveal_strlit("started_at");
    reveal_strlit("ended_at");
    reveal_strlit("state_before");
    reveal_strlit("state_after");
    reveal_strlit(" ");
    reveal_strlit(",\n");
    reveal_with_fuel(declared_from, 5);
    let all = EPISODES_COLUMNS@;
    assert(all.skip(164) =~= declared_from(columns, rules, 8));
    assert(all.skip(92) =~= declared_from(columns, rules, 4));
    assert(all =~= declared_from(columns, rules, 0));
}

/// The table `phase_attributions` has these columns.
pub proof fn law_phase_attributions_columns()
    ensures
        PHASE_ATTRIBUTIONS_COLUMNS@ == declared_from(
            seq![
                ("attribution_id"@, "TEXT PRIMARY KEY"@),
                ("run_id"@, "TEXT NOT NULL"@),
                ("episode_id"@, "TEXT NOT NULL UNIQUE"@),
                ("phase"@, "TEXT NOT NULL"@),
                ("agent_name"@, "TEXT NOT NULL"@),
                ("outcome"@, "TEXT NOT NULL"@),
                ("confidence"@, "REAL"@),
                ("prompt_bundle_fingerprint"@, "TEXT"@),
                ("prompt_bundle_provider"@, "TEXT"@),
                ("prompt_bundle_artifact"@, "TEXT"@),
                ("pinned_skill_ids"@, "TEXT NOT NULL DEFAULT '[]'"@),
                ("memory_hits"@, "TEXT NOT NULL DEFAULT '[]'"@),
                ("core_memory_ids"@, "TEXT NOT NULL DEFAULT '[]'"@),
                ("project_memory_ids"@, "TEXT NOT NULL DEFAULT '[]'"@),
                ("relevant_lesson_ids"@, "TEXT NOT NULL DEFAULT '[]'"@),
                ("required_checks"@, "TEXT NOT NULL DEFAULT '[]'"@),
                ("guardrails"@, "TEXT NOT NULL DEFAULT '[]'"@),
                ("query_terms"@, "TEXT NOT NULL DEFAULT '[]'"@),
                ("briefing_scope"@, "TEXT"@),
                ("briefing_token_budget"@, "INTEGER NOT NULL DEFAULT 0"@),
                ("briefing_tokens_used"@, "INTEGER NOT NULL DEFAULT 0"@),
                ("briefing_hits_provided"@, "INTEGER NOT NULL DEFAULT 0"@),
                ("stakeholder_alignment_json"@, "TEXT NOT NULL DEFAULT 'null'"@),
                ("created_at"@, "TEXT NOT NULL"@),
            ],
            seq![
                "FOREIGN KEY (episode_id) REFERENCES episodes(episode_id)"@,
            ],
            0,
        ),
{
    let columns = seq![
        ("attribution_id"@, "TEXT PRIMARY KEY"@),
        ("run_id"@, "TEXT NOT NULL"@),
        ("episode_id"@, "TEXT NOT NULL UNIQUE"@),
        ("phase"@, "TEXT NOT NULL"@),
        ("agent_name"@, "TEXT NOT NULL"@),
        ("outcome"@, "TEXT NOT NULL"@),
        ("confidence"@, "REAL"@),
        ("prompt_bundle_fingerprint"@, "TEXT"@),
        ("prompt_bundle_provider"@, "TEXT"@),
        ("prompt_bundle_artifact"@, "TEXT"@),
        ("pinned_skill_ids"@, "TEXT NOT NULL DEFAULT '[]'"@),
        ("memory_hits"@, "TEXT NOT NULL DEFAULT '[]'"@),
        ("core_memory_ids"@, "TEXT NOT NULL DEFAULT '[]'"@),
        ("project_memory_ids"@, "TEXT NOT NULL DEFAULT '[]'"@),
        ("relevant_lesson_ids"@, "TEXT NOT NULL DEFAULT '[]'"@),
        ("required_checks"@, "TEXT NOT NULL DEFAULT '[]'"@),
        ("guardrails"@, "TEXT NOT NULL DEFAULT '[]'"@),
        ("query_terms"@, "TEXT NOT NULL DEFAULT '[]'"@),
        ("briefing_scope"@, "TEXT"@),
        ("briefing_token_budget"@, "INTEGER NOT NULL DEFAULT 0"@),
        ("briefing_tokens_used"@, "INTEGER NOT NULL DEFAULT 0"@),
        ("briefing_hits_provided"@, "INTEGER NOT NULL DEFAULT 0"@),
        ("stakeholder_alignment_json"@, "TEXT NOT NULL DEFAULT 'null'"@),
        ("created_at"@, "TEXT NOT NULL"@),
    ];
    let rules = seq![
        "FOREIGN KEY (episode_id) REFERENCES episodes(episode_id)"@,
    ];
    reveal_strlit(
        "attribution_id TEXT PRIMARY KEY,\nrun_id TEXT NOT NULL,\nepisode_id TEXT NOT NULL UNIQUE,\nphase TEXT NOT NULL,\nagent_name TEXT NOT NULL,\noutcome TEXT NOT NULL,\nconfidence REAL,\nprompt_bundle_fingerprint TEXT,\nprompt_bundle_provider TEXT,\nprompt_bundle_artifact TEXT,\npinned_skill_ids TEXT NOT NULL DEFAULT '[]',\nmemory_hits TEXT NOT NULL DEFAULT '[]',\ncore_memory_ids TEXT NOT NULL DEFAULT '[]',\nproject_memory_ids TEXT NOT NULL DEFAULT '[]',\nrelevant_lesson_ids TEXT NOT NULL DEFAULT '[]',\nrequired_checks TEXT NOT NULL DEFAULT '[]',\nguardrails TEXT NOT NULL DEFAULT '[]',\nquery_terms TEXT NOT NULL DEFAULT '[]',\nbriefing_scope TEXT,\nbriefing_token_budget INTEGER NOT NULL DEFAULT 0,\nbriefing_tokens_used INTEGER NOT NULL DEFAULT 0,\nbriefing_hits_provided INTEGER NOT NULL DEFAULT 0,\nstakeholder_alignment_json TEXT NOT NULL DEFAULT 'null',\ncreated_at TEXT NOT NULL,\nFOREIGN KEY (episode_id) REFERENCES episodes(episode_id)",
    );
    reveal_strlit("attribution_id");
    reveal_strlit("TEXT PRIMARY KEY");
    reveal_strlit("run_id");
    reveal_strlit("TEXT NOT NULL");
    reveal_strlit("episode_id");
    reveal_strlit("TEXT NOT NULL UNIQUE");
    reveal_strlit("phase");
    reveal_strlit("agent_name");
    reveal_strlit("outcome");
    reveal_strlit("confidence");
    reveal_strlit("REAL");
    reveal_strlit("prompt_bundle_fingerprint");
    reveal_strlit("TEXT");
    reveal_strlit("prompt_bundle_provider");
    reveal_strlit("prompt_bundle_artifact");
    reveal_strlit("pinned_skill_ids");
    reveal_strlit("TEXT NOT NULL DEFAULT '[]'");
    reveal_strlit("memory_hits");
    reveal_strlit("core_memory_ids");
    reveal_strlit("project_memory_ids");
    reveal_strlit("relevant_lesson_ids");
    reveal_strlit("required_checks");
    reveal_strlit("guardrails");
    reveal_strlit("query_terms");
    reveal_strlit("briefing_scope");
    reveal_strlit("briefing_token_budget");
    reveal_strlit("INTEGER NOT NULL DEFAULT 0");
    reveal_strlit("briefing_tokens_used");
    reveal_strlit("briefing_hits_provided");
    reveal_strlit("stakeholder_alignment_json");
    reveal_strlit("TEXT NOT NULL DEFAULT 'null'");
    reveal_strlit("created_at");
    reveal_strlit("FOREIGN KEY (episode_id) REFERENCES episodes(episode_id)");
    reveal_strlit(" ");
    reveal_strlit(",\n");
    reveal_with_fuel(declared_from, 5);
    let all = PHASE_ATTRIBUTIONS_COLUMNS@;
    assert(all.skip(866) =~= declared_from(columns, rules, 24));
    assert(all.skip(683) =~= declared_from(columns, rules, 20));
    assert(all.skip(533) =~= declared_from(columns, rules, 16));
    assert(all.skip(350) =~= declared_from(columns, rules, 12));
    assert(all.skip(207) =~= declared_from(columns, rules, 8));
    assert(all.skip(109) =~= declared_from(columns, rules, 4));
    assert(all =~= declared_from(columns, rules, 0));
}

/// The table `context_pull_records` has these columns.
pub proof fn law_context_pull_records_columns()
    ensures
        CONTEXT_PULL_RECORDS_COLUMNS@ == declared_from(
            seq![
                ("pull_id"@, "TEXT PRIMARY KEY"@),
                ("run_id"@, "TEXT NOT NULL"@),
                ("query"@, "TEXT NOT NULL"@),
                ("scope"@, "TEXT NOT NULL"@),
                ("max_tokens"@, "INTEGER NOT NULL"@),
                ("tokens_returned"@, "INTEGER NOT NULL"@),
                ("hits_returned"@, "INTEGER NOT NULL"@),
                ("hit_previews"@, "TEXT NOT NULL DEFAULT '[]'"@),
                ("trigger"@, "TEXT"@),
                ("created_at"@, "TEXT NOT NULL"@),
            ],
            seq![
                "FOREIGN KEY (run_id) REFERENCES runs(run_id)"@,
            ],
            0,
        ),
{
    let columns = seq![
        ("pull_id"@, "TEXT PRIMARY KEY"@),
        ("run_id"@, "TEXT NOT NULL"@),
        ("query"@, "TEXT NOT NULL"@),
        ("scope"@, "TEXT NOT NULL"@),
        ("max_tokens"@, "INTEGER NOT NULL"@),
        ("tokens_returned"@, "INTEGER NOT NULL"@),
        ("hits_returned"@, "INTEGER NOT NULL"@),
        ("hit_previews"@, "TEXT NOT NULL DEFAULT '[]'"@),
        ("trigger"@, "TEXT"@),
        ("created_at"@, "TEXT NOT NULL"@),
    ];
    let rules = seq![
        "FOREIGN KEY (run_id) REFERENCES runs(run_id)"@,
    ];
    reveal_strlit(
        "pull_id TEXT PRIMARY KEY,\nrun_id TEXT NOT NULL,\nquery TEXT NOT NULL,\nscope TEXT NOT NULL,\nmax_tokens INTEGER NOT NULL,\ntokens_returned INTEGER NOT NULL,\nhits_returned INTEGER NOT NULL,\nhit_previews TEXT NOT NULL DEFAULT '[]',\ntrigger TEXT,\ncreated_at TEXT NOT NULL,\nFOREIGN KEY (run_id) REFERENCES runs(run_id)",
    );
    reveal_strlit("pull_id");
    reveal_strlit("TEXT PRIMARY KEY");
    reveal_strlit("run_id");
    reveal_strlit("TEXT NOT NULL");
    reveal_strlit("query");
    reveal_strlit("scope");
    reveal_strlit("max_tokens");
    reveal_strlit("INTEGER NOT NULL");
    reveal_strlit("tokens_returned");
    reveal_strlit("hits_returned");
    reveal_strlit("hit_previews");
    reveal_strlit("TEXT NOT NULL DEFAULT '[]'");
    reveal_strlit("trigger");
    reveal_strlit("TEXT");
    reveal_strlit("created_at");
    reveal_strlit("FOREIGN KEY (run_id) REFERENCES runs(run_id)");
    reveal_strlit(" ");
    reveal_strlit(",\n");
    reveal_with_fuel(declared_from, 5);
    let all = CONTEXT_PULL_RECORDS_COLUMNS@;
    assert(all.skip(226) =~= declared_from(columns, rules, 8));
    assert(all.skip(90) =~= declared_from(columns, rules, 4));
    assert(all =~= declared_from(columns, rules, 0));
}

/// The table `run_checkpoints` has these columns.
pub proof fn law_run_checkpoints_columns()
    ensures
        RUN_CHECKPOINTS_COLUMNS@ == declared_from(
            seq![
                ("checkpoint_id"@, "TEXT PRIMARY KEY"@),
                ("run_id"@, "TEXT NOT NULL"@),
                ("phase"@, "TEXT"@),
                ("agent"@, "TEXT"@),
                ("checkpoint_type"@, "TEXT NOT NULL"@),
                ("status"@, "TEXT NOT NULL"@),
                ("prompt"@, "TEXT NOT NULL"@),
                ("context_json"@, "TEXT NOT NULL DEFAULT '{}'"@),
                ("created_at"@, "TEXT NOT NULL"@),
                ("resolved_at"@, "TEXT"@),
            ],
            Seq::empty(),
            0,
        ),
{
    let columns = seq![
        ("checkpoint_id"@, "TEXT PRIMARY KEY"@),
        ("run_id"@, "TEXT NOT NULL"@),
        ("phase"@, "TEXT"@),
        ("agent"@, "TEXT"@),
        ("checkpoint_type"@, "TEXT NOT NULL"@),
        ("status"@, "TEXT NOT NULL"@),
        ("prompt"@, "TEXT NOT NULL"@),
        ("context_json"@, "TEXT NOT NULL DEFAULT '{}'"@),
        ("created_at"@, "TEXT NOT NULL"@),
        ("resolved_at"@, "TEXT"@),
    ];
    let rules = Seq::<Seq<char>>::empty();
    reveal_strlit(
        "checkpoint_id TEXT PRIMARY KEY,\nrun_id TEXT NOT NULL,\nphase TEXT,\nagent TEXT,\ncheckpoint_type TEXT NOT NULL,\nstatus TEXT NOT NULL,\nprompt TEXT NOT NULL,\ncontext_json TEXT NOT NULL DEFAULT '{}',\ncreated_at TEXT NOT NULL,\nresolved_at TEXT",
    );
    reveal_strlit("checkpoint_id");
    reveal_strlit("TEXT PRIMARY KEY");
    reveal_strlit("run_id");
    reveal_strlit("TEXT NOT NULL");
    reveal_strlit("phase");
    reveal_strlit("TEXT");
    reveal_strlit("agent");
    reveal_strlit("checkpoint_type");
    reveal_strlit("status");
    reveal_strlit("prompt");
    reveal_strlit("context_json");
    reveal_strlit("TEXT NOT NULL DEFAULT '{}'");
    reveal_strlit("created_at");
    reveal_strlit("resolved_at");
    reveal_strlit(" ");
    reveal_strlit(",\n");
    reveal_with_fuel(declared_from, 5);
    let all = RUN_CHECKPOINTS_COLUMNS@;
    assert(all.skip(194) =~= declared_from(columns, rules, 8));
    assert(all.skip(78) =~= declared_from(columns, rules, 4));
    assert(all =~= declared_from(columns, rules, 0));
}

/// The table `checkpoint_answers` has these columns.
pub proof fn law_checkpoint_answers_columns()
    ensures
        CHECKPOINT_ANSWERS_COLUMNS@ == declared_from(
            seq![
                ("answer_id"@, "TEXT PRIMARY KEY"@),
                ("checkpoint_id"@, "TEXT NOT NULL"@),
                ("answered_by"@, "TEXT NOT NULL"@),
                ("answer_text"@, "TEXT NOT NULL"@),
                ("decision_json"@, "TEXT NOT NULL DEFAULT '{}'"@),
                ("created_at"@, "TEXT NOT NULL"@),
            ],
            seq![
                "FOREIGN KEY (checkpoint_id) REFERENCES run_checkpoints(checkpoint_id)"@,
            ],
            0,
        ),
{
    let columns = seq![
        ("answer_id"@, "TEXT PRIMARY KEY"@),
        ("checkpoint_id"@, "TEXT NOT NULL"@),
        ("answered_by"@, "TEXT NOT NULL"@),
        ("answer_text"@, "TEXT NOT NULL"@),
        ("decision_json"@, "TEXT NOT NULL DEFAULT '{}'"@),
        ("created_at"@, "TEXT NOT NULL"@),
    ];
    let rules = seq![
        "FOREIGN KEY (checkpoint_id) REFERENCES run_checkpoints(checkpoint_id)"@,
    ];
    reveal_strlit(
        "answer_id TEXT PRIMARY KEY,\ncheckpoint_id TEXT NOT NULL,\nanswered_by TEXT NOT NULL,\nanswer_text TEXT NOT NULL,\ndecision_json TEXT NOT NULL DEFAULT '{}',\ncreated_at TEXT NOT NULL,\nFOREIGN KEY (checkpoint_id) REFERENCES run_checkpoints(checkpoint_id)",
    );
    reveal_strlit("answer_id");
    reveal_strlit("TEXT PRIMARY KEY");
    reveal_strlit("checkpoint_id");
    reveal_strlit("TEXT NOT NULL");
    reveal_strlit("answered_by");
    reveal_strlit("answer_text");
    reveal_strlit("decision_json");
    reveal_strlit("TEXT NOT NULL DEFAULT '{}'");
    reveal_strlit("created_at");
    reveal_strlit("FOREIGN KEY (checkpoint_id) REFERENCES run_checkpoints(checkpoint_id)");
    reveal_strlit(" ");
    reveal_strlit(",\n");
    reveal_with_fuel(declared_from, 5);
    let all = CHECKPOINT_ANSWERS_COLUMNS@;
    assert(all.skip(111) =~= declared_from(columns, rules, 4));
    assert(all =~= declared_from(columns, rules, 0));
}

/// The table `causal_links` has these columns.
pub proof fn law_causal_links_columns()
    ensures
        CAUSAL_LINKS_COLUMNS@ == declared_from(
            seq![
                ("link_id"@, "TEXT PRIMARY KEY"@),
                ("from_event"@, "INTEGER NOT NULL REFERENCES run_events(event_id)"@),
                ("to_event"@, "INTEGER NOT NULL REFERENCES run_events(event_id)"@),
                ("link_type"@, "TEXT NOT NULL"@),
                ("confidence"@, "REAL NOT NULL DEFAULT 0.5"@),
                ("created_at"@, "TEXT NOT NULL"@),
            ],
            Seq::empty(),
            0,
        ),
{
    let columns = seq![
        ("link_id"@, "TEXT PRIMARY KEY"@),
        ("from_event"@, "INTEGER NOT NULL REFERENCES run_events(event_id)"@),
        ("to_event"@, "INTEGER NOT NULL REFERENCES run_events(event_id)"@),
        ("link_type"@, "TEXT NOT NULL"@),
        ("confidence"@, "REAL NOT NULL DEFAULT 0.5"@),
        ("created_at"@, "TEXT NOT NULL"@),
    ];
    let rules = Seq::<Seq<char>>::empty();
    reveal_strlit(
        "link_id TEXT PRIMARY KEY,\nfrom_event INTEGER NOT NULL REFERENCES run_events(event_id),\nto_event INTEGER NOT NULL REFERENCES run_events(event_id),\nlink_type TEXT NOT NULL,\nconfidence REAL NOT NULL DEFAULT 0.5,\ncreated_at TEXT NOT NULL",
    );
    reveal_strlit("link_id");
    reveal_strlit("TEXT PRIMARY KEY");
    reveal_strlit("from_event");
    reveal_strlit("INTEGER NOT NULL REFERENCES run_events(event_id)");
    reveal_strlit("to_event");
    reveal_strlit("link_type");
    reveal_strlit("TEXT NOT NULL");
    reveal_strlit("confidence");
    reveal_strlit("REAL NOT NULL DEFAULT 0.5");
    reveal_strlit("created_at");
    reveal_strlit(" ");
    reveal_strlit(",\n");
    reveal_with_fuel(declared_from, 5);
    let all = CAUSAL_LINKS_COLUMNS@;
    assert(all.skip(171) =~= declared_from(columns, rules, 4));
    assert(all =~= declared_from(columns, rules, 0));
}

/// The table `lessons` has these columns.
pub proof fn law_lessons_columns()
    ensures
        LESSONS_COLUMNS@ == declared_from(
            seq![
                ("lesson_id"@, "TEXT PRIMARY KEY"@),
                ("source_episode"@, "TEXT REFERENCES episodes(episode_id)"@),
                ("pattern"@, "TEXT NOT NULL"@),
                ("intervention"@, "TEXT"@),
                ("tags"@, "TEXT NOT NULL"@),
                ("strength"@, "REAL NOT NULL DEFAULT 1.0"@),
                ("recall_count"@, "INTEGER NOT NULL DEFAULT 0"@),
                ("last_recalled"@, "TEXT"@),
                ("created_at"@, "TEXT NOT NULL"@),
            ],
            Seq::empty(),
            0,
        ),
{
    let columns = seq![
        ("lesson_id"@, "TEXT PRIMARY KEY"@),
        ("source_episode"@, "TEXT REFERENCES episodes(episode_id)"@),
        ("pattern"@, "TEXT NOT NULL"@),
        ("intervention"@, "TEXT"@),
        ("tags"@, "TEXT NOT NULL"@),
        ("strength"@, "REAL NOT NULL DEFAULT 1.0"@),
        ("recall_count"@, "INTEGER NOT NULL DEFAULT 0"@),
        ("last_recalled"@, "TEXT"@),
        ("created_at"@, "TEXT NOT NULL"@),
    ];
    let rules = Seq::<Seq<char>>::empty();
    reveal_strlit(
        "lesson_id TEXT PRIMARY KEY,\nsource_episode TEXT REFERENCES episodes(episode_id),\npattern TEXT NOT NULL,\nintervention TEXT,\ntags TEXT NOT NULL,\nstrength REAL NOT NULL DEFAULT 1.0,\nrecall_count INTEGER NOT NULL DEFAULT 0,\nlast_recalled TEXT,\ncreated_at TEXT NOT NULL",
    );
    reveal_strlit("lesson_id");
    reveal_strlit("TEXT PRIMARY KEY");
    reveal_strlit("source_episode");
    reveal_strlit("TEXT REFERENCES episodes(episode_id)");
    reveal_strlit("pattern");
    reveal_strlit("TEXT NOT NULL");
    reveal_strlit("intervention");
    reveal_strlit("TEXT");
    reveal_strlit("tags");
    reveal_strlit("strength");
    reveal_strlit("REAL NOT NULL DEFAULT 1.0");
    reveal_strlit("recall_count");
    reveal_strlit("INTEGER NOT NULL DEFAULT 0");
    reveal_strlit("last_recalled");
    reveal_strlit("created_at");
    reveal_strlit(" ");
    reveal_strlit(",\n");
    reveal_with_fuel(declared_from, 5);
    let all = LESSONS_COLUMNS@;
    assert(all.skip(240) =~= declared_from(columns, rules, 8));
    assert(all.skip(123) =~= declared_from(columns, rules, 4));
    assert(all =~= declared_from(columns, rules, 0));
}

/// The table `coobie_episode_scores` has these columns.
pub proof fn law_coobie_episode_scores_columns()
    ensures
        COOBIE_EPISODE_SCORES_COLUMNS@ == declared_from(
            seq![
                ("run_id"@, "TEXT PRIMARY KEY"@),
                ("spec_clarity_score"@, "REAL NOT NULL DEFAULT 0.5"@),
                ("change_scope_score"@, "REAL NOT NULL DEFAULT 0.5"@),
                ("twin_fidelity_score"@, "REAL NOT NULL DEFAULT 0.5"@),
                ("test_coverage_score"@, "REAL NOT NULL DEFAULT 0.0"@),
                ("memory_retrieval_score"@, "REAL NOT NULL DEFAULT 0.0"@),
                ("phase_success_score"@, "REAL NOT NULL DEFAULT 1.0"@),
                ("scenario_passed"@, "INTEGER NOT NULL DEFAULT 0"@),
                ("validation_passed"@, "INTEGER NOT NULL DEFAULT 0"@),
                ("human_accepted"@, "INTEGER"@),
                ("scored_at"@, "TEXT NOT NULL"@),
            ],
            Seq::empty(),
            0,
        ),
{
    let columns = seq![
        ("run_id"@, "TEXT PRIMARY KEY"@),
        ("spec_clarity_score"@, "REAL NOT NULL DEFAULT 0.5"@),
        ("change_scope_score"@, "REAL NOT NULL DEFAULT 0.5"@),
        ("twin_fidelity_score"@, "REAL NOT NULL DEFAULT 0.5"@),
        ("test_coverage_score"@, "REAL NOT NULL DEFAULT 0.0"@),
        ("memory_retrieval_score"@, "REAL NOT NULL DEFAULT 0.0"@),
        ("phase_success_score"@, "REAL NOT NULL DEFAULT 1.0"@),
        ("scenario_passed"@, "INTEGER NOT NULL DEFAULT 0"@),
        ("validation_passed"@, "INTEGER NOT NULL DEFAULT 0"@),
        ("human_accepted"@, "INTEGER"@),
        ("scored_at"@, "TEXT NOT NULL"@),
    ];
    let rules = Seq::<Seq<char>>::empty();
    reveal_strlit(
        "run_id TEXT PRIMARY KEY,\nspec_clarity_score REAL NOT NULL DEFAULT 0.5,\nchange_scope_score REAL NOT NULL DEFAULT 0.5,\ntwin_fidelity_score REAL NOT NULL DEFAULT 0.5,\ntest_coverage_score REAL NOT NULL DEFAULT 0.0,\nmemory_retrieval_score REAL NOT NULL DEFAULT 0.0,\nphase_success_score REAL NOT NULL DEFAULT 1.0,\nscenario_passed INTEGER NOT NULL DEFAULT 0,\nvalidation_passed INTEGER NOT NULL DEFAULT 0,\nhuman_accepted INTEGER,\nscored_at TEXT NOT NULL",
    );
    reveal_strlit("run_id");
    reveal_strlit("TEXT PRIMARY KEY");
    reveal_strlit("spec_clarity_score");
    reveal_strlit("REAL NOT NULL DEFAULT 0.5");
    reveal_strlit("change_scope_score");
    reveal_strlit("twin_fidelity_score");
    reveal_strlit("test_coverage_score");
    reveal_strlit("REAL NOT NULL DEFAULT 0.0");
    reveal_strlit("memory_retrieval_score");
    reveal_strlit("phase_success_score");
    reveal_strlit("REAL NOT NULL DEFAULT 1.0");
    reveal_strlit("scenario_passed");
    reveal_strlit("INTEGER NOT NULL DEFAULT 0");
    reveal_strlit("validation_passed");
    reveal_strlit("human_accepted");
    reveal_strlit("INTEGER");
    reveal_strlit("scored_at");
    reveal_strlit("TEXT NOT NULL");
    reveal_strlit(" ");
    reveal_strlit(",\n");
    reveal_with_fuel(declared_from, 5);
    let all = COOBIE_EPISODE_SCORES_COLUMNS@;
    assert(all.skip(352) =~= declared_from(columns, rules, 8));
    assert(all.skip(164) =~= declared_from(columns, rules, 4));
    assert(all =~= declared_from(columns, rules, 0));
}

/// The table `causal_hypotheses` has these columns.
pub proof fn law_causal_hypotheses_columns()
    ensures
        CAUSAL_HYPOTHESES_COLUMNS@ == declared_from(
            seq![
                ("hypothesis_id"@, "TEXT PRIMARY KEY"@),
                ("run_id"@, "TEXT NOT NULL"@),
                ("cause_id"@, "TEXT NOT NULL"@),
                ("description"@, "TEXT NOT NULL"@),
                ("confidence"@, "REAL NOT NULL DEFAULT 0.5"@),
                ("hierarchy_level"@, "TEXT NOT NULL DEFAULT 'associational'"@),
                ("supporting_runs"@, "TEXT NOT NULL DEFAULT '[]'"@),
                ("evidence"@, "TEXT NOT NULL DEFAULT '[]'"@),
                ("counterfactuals"@, "TEXT NOT NULL DEFAULT '[]'"@),
                ("created_at"@, "TEXT NOT NULL"@),
            ],
            Seq::empty(),
            0,
        ),
{
    let columns = seq![
        ("hypothesis_id"@, "TEXT PRIMARY KEY"@),
        ("run_id"@, "TEXT NOT NULL"@),
        ("cause_id"@, "TEXT NOT NULL"@),
        ("description"@, "TEXT NOT NULL"@),
        ("confidence"@, "REAL NOT NULL DEFAULT 0.5"@),
        ("hierarchy_level"@, "TEXT NOT NULL DEFAULT 'associational'"@),
        ("supporting_runs"@, "TEXT NOT NULL DEFAULT '[]'"@),
        ("evidence"@, "TEXT NOT NULL DEFAULT '[]'"@),
        ("counterfactuals"@, "TEXT NOT NULL DEFAULT '[]'"@),
        ("created_at"@, "TEXT NOT NULL"@),
    ];
    let rules = Seq::<Seq<char>>::empty();
    reveal_strlit(
        "hypothesis_id TEXT PRIMARY KEY,\nrun_id TEXT NOT NULL,\ncause_id TEXT NOT NULL,\ndescription TEXT NOT NULL,\nconfidence REAL NOT NULL DEFAULT 0.5,\nhierarchy_level TEXT NOT NULL DEFAULT 'associational',\nsupporting_runs TEXT NOT NULL DEFAULT '[]',\nevidence TEXT NOT NULL DEFAULT '[]',\ncounterfactuals TEXT NOT NULL DEFAULT '[]',\ncreated_at TEXT NOT NULL",
    );
    reveal_strlit("hypothesis_id");
    reveal_strlit("TEXT PRIMARY KEY");
    reveal_strlit("run_id");
    reveal_strlit("TEXT NOT NULL");
    reveal_strlit("cause_id");
    reveal_strlit("description");
    reveal_strlit("confidence");
    reveal_strlit("REAL NOT NULL DEFAULT 0.5");
    reveal_strlit("hierarchy_level");
    reveal_strlit("TEXT NOT NULL DEFAULT 'associational'");
    reveal_strlit("supporting_runs");
    reveal_strlit("TEXT NOT NULL DEFAULT '[]'");
    reveal_strlit("evidence");
    reveal_strlit("counterfactuals");
    reveal_strlit("created_at");
    reveal_strlit(" ");
    reveal_strlit(",\n");
    reveal_with_fuel(declared_from, 5);
    let all = CAUSAL_HYPOTHESES_COLUMNS@;
    assert(all.skip(279) =~= declared_from(columns, rules, 8));
    assert(all.skip(105) =~= declared_from(columns, rules, 4));
    assert(all =~= declared_from(columns, rules, 0));
}

/// The table `interventions` has these columns.
pub proof fn law_interventions_columns()
    ensures
        INTERVENTIONS_COLUMNS@ == declared_from(
            seq![
                ("intervention_id"@, "TEXT PRIMARY KEY"@),
                ("run_id"@, "TEXT NOT NULL"@),
                ("target"@, "TEXT NOT NULL"@),
                ("action"@, "TEXT NOT NULL"@),
                ("expected_impact"@, "TEXT NOT NULL"@),
                ("applied"@, "INTEGER NOT NULL DEFAULT 0"@),
                ("actual_outcome"@, "TEXT"@),
                ("created_at"@, "TEXT NOT NULL"@),
            ],
            Seq::empty(),
            0,
        ),
{
    let columns = seq![
        ("intervention_id"@, "TEXT PRIMARY KEY"@),
        ("run_id"@, "TEXT NOT NULL"@),
        ("target"@, "TEXT NOT NULL"@),
        ("action"@, "TEXT NOT NULL"@),
        ("expected_impact"@, "TEXT NOT NULL"@),
        ("applied"@, "INTEGER NOT NULL DEFAULT 0"@),
        ("actual_outcome"@, "TEXT"@),
        ("created_at"@, "TEXT NOT NULL"@),
    ];
    let rules = Seq::<Seq<char>>::empty();
    reveal_strlit(
        "intervention_id TEXT PRIMARY KEY,\nrun_id TEXT NOT NULL,\ntarget TEXT NOT NULL,\naction TEXT NOT NULL,\nexpected_impact TEXT NOT NULL,\napplied INTEGER NOT NULL DEFAULT 0,\nactual_outcome TEXT,\ncreated_at TEXT NOT NULL",
    );
    reveal_strlit("intervention_id");
    reveal_strlit("TEXT PRIMARY KEY");
    reveal_strlit("run_id");
    reveal_strlit("TEXT NOT NULL");
    reveal_strlit("target");
    reveal_strlit("action");
    reveal_strlit("expected_impact");
    reveal_strlit("applied");
    reveal_strlit("INTEGER NOT NULL DEFAULT 0");
    reveal_strlit("actual_outcome");
    reveal_strlit("TEXT");
    reveal_strlit("created_at");
    reveal_strlit(" ");
    reveal_strlit(",\n");
    reveal_with_fuel(declared_from, 5);
    let all = INTERVENTIONS_COLUMNS@;
    assert(all.skip(100) =~= declared_from(columns, rules, 4));
    assert(all =~= declared_from(columns, rules, 0));
}

/// The table `heuristics` has these columns.
pub proof fn law_heuristics_columns()
    ensures
        HEURISTICS_COLUMNS@ == declared_from(
            seq![
                ("heuristic_id"@, "TEXT PRIMARY KEY"@),
                ("cause_pattern"@, "TEXT NOT NULL"@),
                ("effect_pattern"@, "TEXT NOT NULL"@),
                ("intervention"@, "TEXT NOT NULL"@),
                ("hit_count"@, "INTEGER NOT NULL DEFAULT 0"@),
                ("success_count"@, "INTEGER NOT NULL DEFAULT 0"@),
                ("strength"@, "REAL NOT NULL DEFAULT 1.0"@),
                ("accepted"@, "INTEGER NOT NULL DEFAULT 1"@),
                ("created_at"@, "TEXT NOT NULL"@),
            ],
            Seq::empty(),
            0,
        ),
{
    let columns = seq![
        ("heuristic_id"@, "TEXT PRIMARY KEY"@),
        ("cause_pattern"@, "TEXT NOT NULL"@),
        ("effect_pattern"@, "TEXT NOT NULL"@),
        ("intervention"@, "TEXT NOT NULL"@),
        ("hit_count"@, "INTEGER NOT NULL DEFAULT 0"@),
        ("success_count"@, "INTEGER NOT NULL DEFAULT 0"@),
        ("strength"@, "REAL NOT NULL DEFAULT 1.0"@),
        ("accepted"@, "INTEGER NOT NULL DEFAULT 1"@),
        ("created_at"@, "TEXT NOT NULL"@),
    ];
    let rules = Seq::<Seq<char>>::empty();
    reveal_strlit(
        "heuristic_id TEXT PRIMARY KEY,\ncause_pattern TEXT NOT NULL,\neffect_pattern TEXT NOT NULL,\nintervention TEXT NOT NULL,\nhit_count INTEGER NOT NULL DEFAULT 0,\nsuccess_count INTEGER NOT NULL DEFAULT 0,\nstrength REAL NOT NULL DEFAULT 1.0,\naccepted INTEGER NOT NULL DEFAULT 1,\ncreated_at TEXT NOT NULL",
    );
    reveal_strlit("heuristic_id");
    reveal_strlit("TEXT PRIMARY KEY");
    reveal_strlit("cause_pattern");
    reveal_strlit("TEXT NOT NULL");
    reveal_strlit("effect_pattern");
    reveal_strlit("intervention");
    reveal_strlit("hit_count");
    reveal_strlit("INTEGER NOT NULL DEFAULT 0");
    reveal_strlit("success_count");
    reveal_strlit("strength");
    reveal_strlit("REAL NOT NULL DEFAULT 1.0");
    reveal_strlit("accepted");
    reveal_strlit("INTEGER NOT NULL DEFAULT 1");
    reveal_strlit("created_at");
    reveal_strlit(" ");
    reveal_strlit(",\n");
    reveal_with_fuel(declared_from, 5);
    let all = HEURISTICS_COLUMNS@;
    assert(all.skip(271) =~= declared_from(columns, rules, 8));
    assert(all.skip(118) =~= declared_from(columns, rules, 4));
    assert(all =~= declared_from(columns, rules, 0));
}

/// The table `memory_embeddings` has these columns.
pub proof fn law_memory_embeddings_columns()
    ensures
        MEMORY_EMBEDDINGS_COLUMNS@ == declared_from(
            seq![
                ("entry_id"@, "TEXT NOT NULL"@),
                ("memory_root"@, "TEXT NOT NULL"@),
                ("backend_id"@, "TEXT NOT NULL DEFAULT ''"@),
                ("model_id"@, "TEXT NOT NULL DEFAULT ''"@),
                ("embedding"@, "BLOB NOT NULL"@),
                ("embedded_at"@, "TEXT NOT NULL"@),
            ],
            seq![
                "PRIMARY KEY (entry_id, memory_root)"@,
            ],
            0,
        ),
{
    let columns = seq![
        ("entry_id"@, "TEXT NOT NULL"@),
        ("memory_root"@, "TEXT NOT NULL"@),
        ("backend_id"@, "TEXT NOT NULL DEFAULT ''"@),
        ("model_id"@, "TEXT NOT NULL DEFAULT ''"@),
        ("embedding"@, "BLOB NOT NULL"@),
        ("embedded_at"@, "TEXT NOT NULL"@),
    ];
    let rules = seq![
        "PRIMARY KEY (entry_id, memory_root)"@,
    ];
    reveal_strlit(
        "entry_id TEXT NOT NULL,\nmemory_root TEXT NOT NULL,\nbackend_id TEXT NOT NULL DEFAULT '',\nmodel_id TEXT NOT NULL DEFAULT '',\nembedding BLOB NOT NULL,\nembedded_at TEXT NOT NULL,\nPRIMARY KEY (entry_id, memory_root)",
    );
    reveal_strlit("entry_id");
    reveal_strlit("TEXT NOT NULL");
    reveal_strlit("memory_root");
    reveal_strlit("backend_id");
    reveal_strlit("TEXT NOT NULL DEFAULT ''");
    reveal_strlit("model_id");
    reveal_strlit("embedding");
    reveal_strlit("BLOB NOT NULL");
    reveal_strlit("embedded_at");
    reveal_strlit("PRIMARY KEY (entry_id, memory_root)");
    reveal_strlit(" ");
    reveal_strlit(",\n");
    reveal_with_fuel(declared_from, 5);
    let all = MEMORY_EMBEDDINGS_COLUMNS@;
    assert(all.skip(123) =~= declared_from(columns, rules, 4));
    assert(all =~= declared_from(columns, rules, 0));
}

/// The table `chat_threads` has these columns.
pub proof fn law_chat_threads_columns()
    ensures
        CHAT_THREADS_COLUMNS@ == declared_from(
            seq![
                ("thread_id"@, "TEXT PRIMARY KEY"@),
                ("run_id"@, "TEXT"@),
                ("spec_id"@, "TEXT"@),
                ("title"@, "TEXT NOT NULL DEFAULT ''"@),
                ("status"@, "TEXT NOT NULL DEFAULT 'open'"@),
                ("thread_kind"@, "TEXT NOT NULL DEFAULT 'general'"@),
                ("metadata_json"@, "TEXT NOT NULL DEFAULT '{}'"@),
                ("created_at"@, "TEXT NOT NULL"@),
                ("updated_at"@, "TEXT NOT NULL"@),
            ],
            Seq::empty(),
            0,
        ),
{
    let columns = seq![
        ("thread_id"@, "TEXT PRIMARY KEY"@),
        ("run_id"@, "TEXT"@),
        ("spec_id"@, "TEXT"@),
        ("title"@, "TEXT NOT NULL DEFAULT ''"@),
        ("status"@, "TEXT NOT NULL DEFAULT 'open'"@),
        ("thread_kind"@, "TEXT NOT NULL DEFAULT 'general'"@),
        ("metadata_json"@, "TEXT NOT NULL DEFAULT '{}'"@),
        ("created_at"@, "TEXT NOT NULL"@),
        ("updated_at"@, "TEXT NOT NULL"@),
    ];
    let rules = Seq::<Seq<char>>::empty();
    reveal_strlit(
        "thread_id TEXT PRIMARY KEY,\nrun_id TEXT,\nspec_id TEXT,\ntitle TEXT NOT NULL DEFAULT '',\nstatus TEXT NOT NULL DEFAULT 'open',\nthread_kind TEXT NOT NULL DEFAULT 'general',\nmetadata_json TEXT NOT NULL DEFAULT '{}',\ncreated_at TEXT NOT NULL,\nupdated_at TEXT NOT NULL",
    );
    reveal_strlit("thread_id");
    reveal_strlit("TEXT PRIMARY KEY");
    reveal_strlit("run_id");
    reveal_strlit("TEXT");
    reveal_strlit("spec_id");
    reveal_strlit("title");
    reveal_strlit("TEXT NOT NULL DEFAULT ''");
    reveal_strlit("status");
    reveal_strlit("TEXT NOT NULL DEFAULT 'open'");
    reveal_strlit("thread_kind");
    reveal_strlit("TEXT NOT NULL DEFAULT 'general'");
    reveal_strlit("metadata_json");
    reveal_strlit("TEXT NOT NULL DEFAULT '{}'");
    reveal_strlit("created_at");
    reveal_strlit("TEXT NOT NULL");
    reveal_strlit("updated_at");
    reveal_strlit(" ");
    reveal_strlit(",\n");
    reveal_with_fuel(declared_from, 5);
    let all = CHAT_THREADS_COLUMNS@;
    assert(all.skip(237) =~= declared_from(columns, rules, 8));
    assert(all.skip(87) =~= declared_from(columns, rules, 4));
    assert(all =~= declared_from(columns, rules, 0));
}

/// The table `chat_messages` has these columns.
pub proof fn law_chat_messages_columns()
    ensures
        CHAT_MESSAGES_COLUMNS@ == declared_from(
            seq![
                ("message_id"@, "TEXT PRIMARY KEY"@),
                ("thread_id"@, "TEXT NOT NULL REFERENCES chat_threads(thread_id)"@),
                ("role"@, "TEXT NOT NULL"@),
                ("agent"@, "TEXT"@),
                ("agent_runtime_id"@, "TEXT"@),
                ("content"@, "TEXT NOT NULL"@),
                ("checkpoint_id"@, "TEXT"@),
                ("created_at"@, "TEXT NOT NULL"@),
            ],
            Seq::empty(),
            0,
        ),
{
    let columns = seq![
        ("message_id"@, "TEXT PRIMARY KEY"@),
        ("thread_id"@, "TEXT NOT NULL REFERENCES chat_threads(thread_id)"@),
        ("role"@, "TEXT NOT NULL"@),
        ("agent"@, "TEXT"@),
        ("agent_runtime_id"@, "TEXT"@),
        ("content"@, "TEXT NOT NULL"@),
        ("checkpoint_id"@, "TEXT"@),
        ("created_at"@, "TEXT NOT NULL"@),
    ];
    let rules = Seq::<Seq<char>>::empty();
    reveal_strlit(
        "message_id TEXT PRIMARY KEY,\nthread_id TEXT NOT NULL REFERENCES chat_threads(thread_id),\nrole TEXT NOT NULL,\nagent TEXT,\nagent_runtime_id TEXT,\ncontent TEXT NOT NULL,\ncheckpoint_id TEXT,\ncreated_at TEXT NOT NULL",
    );
    reveal_strlit("message_id");
    reveal_strlit("TEXT PRIMARY KEY");
    reveal_strlit("thread_id");
    reveal_strlit("TEXT NOT NULL REFERENCES chat_threads(thread_id)");
    reveal_strlit("role");
    reveal_strlit("TEXT NOT NULL");
    reveal_strlit("agent");
    reveal_strlit("TEXT");
    reveal_strlit("agent_runtime_id");
    reveal_strlit("content");
    reveal_strlit("checkpoint_id");
    reveal_strlit("created_at");
    reveal_strlit(" ");
    reveal_strlit(",\n");
    reveal_with_fuel(declared_from, 5);
    let all = CHAT_MESSAGES_COLUMNS@;
    assert(all.skip(121) =~= declared_from(columns, rules, 4));
    assert(all =~= declared_from(columns, rules, 0));
}

/// The table `memory_candidates` has these columns.
pub proof fn law_memory_candidates_columns()
    ensures
        MEMORY_CANDIDATES_COLUMNS@ == declared_from(
            seq![
                ("candidate_id"@, "TEXT PRIMARY KEY"@),
                ("source_event_id"@, "TEXT NOT NULL UNIQUE"@),
                ("thread_id"@, "TEXT"@),
                ("run_id"@, "TEXT"@),
                ("spec_id"@, "TEXT"@),
                ("message_id"@, "TEXT"@),
                ("agent_runtime_id"@, "TEXT"@),
                ("agent"@, "TEXT"@),
                ("role"@, "TEXT NOT NULL DEFAULT 'system'"@),
                ("operation"@, "TEXT NOT NULL"@),
                ("raw_payload"@, "TEXT NOT NULL DEFAULT '{}'"@),
                ("distilled_content"@, "TEXT"@),
                ("dedupe_key"@, "TEXT"@),
                ("importance_score"@, "REAL NOT NULL DEFAULT 0.0"@),
                ("retention_class"@, "TEXT NOT NULL DEFAULT 'working'"@),
                ("learning_intent"@, "TEXT NOT NULL DEFAULT 'awareness_only'"@),
                ("sensitivity_label"@, "TEXT NOT NULL DEFAULT 'normal'"@),
                ("evidence_refs"@, "TEXT NOT NULL DEFAULT '[]'"@),
                ("causality_json"@, "TEXT NOT NULL DEFAULT '{}'"@),
                ("status"@, "TEXT NOT NULL DEFAULT 'pending'"@),
                ("openbrain_ref"@, "TEXT"@),
                ("calvin_contract_json"@, "TEXT"@),
                ("created_at"@, "TEXT NOT NULL"@),
                ("processed_at"@, "TEXT"@),
            ],
            Seq::empty(),
            0,
        ),
{
    let columns = seq![
        ("candidate_id"@, "TEXT PRIMARY KEY"@),
        ("source_event_id"@, "TEXT NOT NULL UNIQUE"@),
        ("thread_id"@, "TEXT"@),
        ("run_id"@, "TEXT"@),
        ("spec_id"@, "TEXT"@),
        ("message_id"@, "TEXT"@),
        ("agent_runtime_id"@, "TEXT"@),
        ("agent"@, "TEXT"@),
        ("role"@, "TEXT NOT NULL DEFAULT 'system'"@),
        ("operation"@, "TEXT NOT NULL"@),
        ("raw_payload"@, "TEXT NOT NULL DEFAULT '{}'"@),
        ("distilled_content"@, "TEXT"@),
        ("dedupe_key"@, "TEXT"@),
        ("importance_score"@, "REAL NOT NULL DEFAULT 0.0"@),
        ("retention_class"@, "TEXT NOT NULL DEFAULT 'working'"@),
        ("learning_intent"@, "TEXT NOT NULL DEFAULT 'awareness_only'"@),
        ("sensitivity_label"@, "TEXT NOT NULL DEFAULT 'normal'"@),
        ("evidence_refs"@, "TEXT NOT NULL DEFAULT '[]'"@),
        ("causality_json"@, "TEXT NOT NULL DEFAULT '{}'"@),
        ("status"@, "TEXT NOT NULL DEFAULT 'pending'"@),
        ("openbrain_ref"@, "TEXT"@),
        ("calvin_contract_json"@, "TEXT"@),
        ("created_at"@, "TEXT NOT NULL"@),
        ("processed_at"@, "TEXT"@),
    ];
    let rules = Seq::<Seq<char>>::empty();
    reveal_strlit(
        "candidate_id TEXT PRIMARY KEY,\nsource_event_id TEXT NOT NULL UNIQUE,\nthread_id TEXT,\nrun_id TEXT,\nspec_id TEXT,\nmessage_id TEXT,\nagent_runtime_id TEXT,\nagent TEXT,\nrole TEXT NOT NULL DEFAULT 'system',\noperation TEXT NOT NULL,\nraw_payload TEXT NOT NULL DEFAULT '{}',\ndistilled_content TEXT,\ndedupe_key TEXT,\nimportance_score REAL NOT NULL DEFAULT 0.0,\nretention_class TEXT NOT NULL DEFAULT 'working',\nlearning_intent TEXT NOT NULL DEFAULT 'awareness_only',\nsensitivity_label TEXT NOT NULL DEFAULT 'normal',\nevidence_refs TEXT NOT NULL DEFAULT '[]',\ncausality_json TEXT NOT NULL DEFAULT '{}',\nstatus TEXT NOT NULL DEFAULT 'pending',\nopenbrain_ref TEXT,\ncalvin_contract_json TEXT,\ncreated_at TEXT NOT NULL,\nprocessed_at TEXT",
    );
    reveal_strlit("candidate_id");
    reveal_strlit("TEXT PRIMARY KEY");
    reveal_strlit("source_event_id");
    reveal_strlit("TEXT NOT NULL UNIQUE");
    reveal_strlit("thread_id");
    reveal_strlit("TEXT");
    reveal_strlit("run_id");
    reveal_strlit("spec_id");
    reveal_strlit("message_id");
    reveal_strlit("agent_runtime_id");
    reveal_strlit("agent");
    reveal_strlit("role");
    reveal_strlit("TEXT NOT NULL DEFAULT 'system'");
    reveal_strlit("operation");
    reveal_strlit("TEXT NOT NULL");
    reveal_strlit("raw_payload");
    reveal_strlit("TEXT NOT NULL DEFAULT '{}'");
    reveal_strlit("distilled_content");
    reveal_strlit("dedupe_key");
    reveal_strlit("importance_score");
    reveal_strlit("REAL NOT NULL DEFAULT 0.0");
    reveal_strlit("retention_class");
    reveal_strlit("TEXT NOT NULL DEFAULT 'working'");
    reveal_strlit("learning_intent");
    reveal_strlit("TEXT NOT NULL DEFAULT 'awareness_only'");
    reveal_strlit("sensitivity_label");
    reveal_strlit("TEXT NOT NULL DEFAULT 'normal'");
    reveal_strlit("evidence_refs");
    reveal_strlit("TEXT NOT NULL DEFAULT '[]'");
    reveal_strlit("causality_json");
    reveal_strlit("status");
    reveal_strlit("TEXT NOT NULL DEFAULT 'pending'");
    reveal_strlit("openbrain_ref");
    reveal_strlit("calvin_contract_json");
    reveal_strlit("created_at");
    reveal_strlit("processed_at");
    reveal_strlit(" ");
    reveal_strlit(",\n");
    reveal_with_fuel(declared_from, 5);
    let all = MEMORY_CANDIDATES_COLUMNS@;
    assert(all.skip(631) =~= declared_from(columns, rules, 20));
    assert(all.skip(456) =~= declared_from(columns, rules, 16));
    assert(all.skip(290) =~= declared_from(columns, rules, 12));
    assert(all.skip(164) =~= declared_from(columns, rules, 8));
    assert(all.skip(98) =~= declared_from(columns, rules, 4));
    assert(all =~= declared_from(columns, rules, 0));
}

/// The table `operator_model_profiles` has these columns.
pub proof fn law_operator_model_profiles_columns()
    ensures
        OPERATOR_MODEL_PROFILES_COLUMNS@ == declared_from(
            seq![
                ("profile_id"@, "TEXT PRIMARY KEY"@),
                ("scope"@, "TEXT NOT NULL"@),
                ("project_root"@, "TEXT"@),
                ("display_name"@, "TEXT NOT NULL DEFAULT ''"@),
                ("status"@, "TEXT NOT NULL DEFAULT 'active'"@),
                ("current_version"@, "INTEGER NOT NULL DEFAULT 0"@),
                ("created_at"@, "TEXT NOT NULL"@),
                ("updated_at"@, "TEXT NOT NULL"@),
            ],
            Seq::empty(),
            0,
        ),
{
    let columns = seq![
        ("profile_id"@, "TEXT PRIMARY KEY"@),
        ("scope"@, "TEXT NOT NULL"@),
        ("project_root"@, "TEXT"@),
        ("display_name"@, "TEXT NOT NULL DEFAULT ''"@),
        ("status"@, "TEXT NOT NULL DEFAULT 'active'"@),
        ("current_version"@, "INTEGER NOT NULL DEFAULT 0"@),
        ("created_at"@, "TEXT NOT NULL"@),
        ("updated_at"@, "TEXT NOT NULL"@),
    ];
    let rules = Seq::<Seq<char>>::empty();
    reveal_strlit(
        "profile_id TEXT PRIMARY KEY,\nscope TEXT NOT NULL,\nproject_root TEXT,\ndisplay_name TEXT NOT NULL DEFAULT '',\nstatus TEXT NOT NULL DEFAULT 'active',\ncurrent_version INTEGER NOT NULL DEFAULT 0,\ncreated_at TEXT NOT NULL,\nupdated_at TEXT NOT NULL",
    );
    reveal_strlit("profile_id");
    reveal_strlit("TEXT PRIMARY KEY");
    reveal_strlit("scope");
    reveal_strlit("TEXT NOT NULL");
    reveal_strlit("project_root");
    reveal_strlit("TEXT");
    reveal_strlit("display_name");
    reveal_strlit("TEXT NOT NULL DEFAULT ''");
    reveal_strlit("status");
    reveal_strlit("TEXT NOT NULL DEFAULT 'active'");
    reveal_strlit("current_version");
    reveal_strlit("INTEGER NOT NULL DEFAULT 0");
    reveal_strlit("created_at");
    reveal_strlit("updated_at");
    reveal_strlit(" ");
    reveal_strlit(",\n");
    reveal_with_fuel(declared_from, 5);
    let all = OPERATOR_MODEL_PROFILES_COLUMNS@;
    assert(all.skip(108) =~= declared_from(columns, rules, 4));
    assert(all =~= declared_from(columns, rules, 0));
}

/// The table `operator_model_sessions` has these columns.
pub proof fn law_operator_model_sessions_columns()
    ensures
        OPERATOR_MODEL_SESSIONS_COLUMNS@ == declared_from(
            seq![
                ("session_id"@, "TEXT PRIMARY KEY"@),
                ("profile_id"@, "TEXT NOT NULL REFERENCES operator_model_profiles(profile_id)"@),
                ("thread_id"@, "TEXT"@),
                ("status"@, "TEXT NOT NULL"@),
                ("pending_layer"@, "TEXT"@),
                ("started_by"@, "TEXT"@),
                ("created_at"@, "TEXT NOT NULL"@),
                ("updated_at"@, "TEXT NOT NULL"@),
                ("completed_at"@, "TEXT"@),
            ],
            Seq::empty(),
            0,
        ),
{
    let columns = seq![
        ("session_id"@, "TEXT PRIMARY KEY"@),
        ("profile_id"@, "TEXT NOT NULL REFERENCES operator_model_profiles(profile_id)"@),
        ("thread_id"@, "TEXT"@),
        ("status"@, "TEXT NOT NULL"@),
        ("pending_layer"@, "TEXT"@),
        ("started_by"@, "TEXT"@),
        ("created_at"@, "TEXT NOT NULL"@),
        ("updated_at"@, "TEXT NOT NULL"@),
        ("completed_at"@, "TEXT"@),
    ];
    let rules = Seq::<Seq<char>>::empty();
    reveal_strlit(
        "session_id TEXT PRIMARY KEY,\nprofile_id TEXT NOT NULL REFERENCES operator_model_profiles(profile_id),\nthread_id TEXT,\nstatus TEXT NOT NULL,\npending_layer TEXT,\nstarted_by TEXT,\ncreated_at TEXT NOT NULL,\nupdated_at TEXT NOT NULL,\ncompleted_at TEXT",
    );
    reveal_strlit("session_id");
    reveal_strlit("TEXT PRIMARY KEY");
    reveal_strlit("profile_id");
    reveal_strlit("TEXT NOT NULL REFERENCES operator_model_profiles(profile_id)");
    reveal_strlit("thread_id");
    reveal_strlit("TEXT");
    reveal_strlit("status");
    reveal_strlit("TEXT NOT NULL");
    reveal_strlit("pending_layer");
    reveal_strlit("started_by");
    reveal_strlit("created_at");
    reveal_strlit("updated_at");
    reveal_strlit("completed_at");
    reveal_strlit(" ");
    reveal_strlit(",\n");
    reveal_with_fuel(declared_from, 5);
    let all = OPERATOR_MODEL_SESSIONS_COLUMNS@;
    assert(all.skip(229) =~= declared_from(columns, rules, 8));
    assert(all.skip(140) =~= declared_from(columns, rules, 4));
    assert(all =~= declared_from(columns, rules, 0));
}

/// The table `operator_model_layer_checkpoints` has these columns.
pub proof fn law_operator_model_layer_checkpoints_columns()
    ensures
        OPERATOR_MODEL_LAYER_CHECKPOINTS_COLUMNS@ == declared_from(
            seq![
                ("checkpoint_id"@, "TEXT PRIMARY KEY"@),
                ("session_id"@, "TEXT NOT NULL REFERENCES operator_model_sessions(session_id)"@),
                ("profile_id"@, "TEXT NOT NULL REFERENCES operator_model_profiles(profile_id)"@),
                ("version"@, "INTEGER NOT NULL"@),
                ("layer"@, "TEXT NOT NULL"@),
                ("status"@, "TEXT NOT NULL"@),
                ("summary_md"@, "TEXT NOT NULL"@),
                ("raw_notes_json"@, "TEXT NOT NULL DEFAULT '{}'"@),
                ("approved_by"@, "TEXT"@),
                ("created_at"@, "TEXT NOT NULL"@),
                ("approved_at"@, "TEXT"@),
            ],
            Seq::empty(),
            0,
        ),
{
    let columns = seq![
        ("checkpoint_id"@, "TEXT PRIMARY KEY"@),
        ("session_id"@, "TEXT NOT NULL REFERENCES operator_model_sessions(session_id)"@),
        ("profile_id"@, "TEXT NOT NULL REFERENCES operator_model_profiles(profile_id)"@),
        ("version"@, "INTEGER NOT NULL"@),
        ("layer"@, "TEXT NOT NULL"@),
        ("status"@, "TEXT NOT NULL"@),
        ("summary_md"@, "TEXT NOT NULL"@),
        ("raw_notes_json"@, "TEXT NOT NULL DEFAULT '{}'"@),
        ("approved_by"@, "TEXT"@),
        ("created_at"@, "TEXT NOT NULL"@),
        ("approved_at"@, "TEXT"@),
    ];
    let rules = Seq::<Seq<char>>::empty();
    reveal_strlit(
        "checkpoint_id TEXT PRIMARY KEY,\nsession_id TEXT NOT NULL REFERENCES operator_model_sessions(session_id),\nprofile_id TEXT NOT NULL REFERENCES operator_model_profiles(profile_id),\nversion INTEGER NOT NULL,\nlayer TEXT NOT NULL,\nstatus TEXT NOT NULL,\nsummary_md TEXT NOT NULL,\nraw_notes_json TEXT NOT NULL DEFAULT '{}',\napproved_by TEXT,\ncreated_at TEXT NOT NULL,\napproved_at TEXT",
    );
    reveal_strlit("checkpoint_id");
    reveal_strlit("TEXT PRIMARY KEY");
    reveal_strlit("session_id");
    reveal_strlit("TEXT NOT NULL REFERENCES operator_model_sessions(session_id)");
    reveal_strlit("profile_id");
    reveal_strlit("TEXT NOT NULL REFERENCES operator_model_profiles(profile_id)");
    reveal_strlit("version");
    reveal_strlit("INTEGER NOT NULL");
    reveal_strlit("layer");
    reveal_strlit("TEXT NOT NULL");
    reveal_strlit("status");
    reveal_strlit("summary_md");
    reveal_strlit("raw_notes_json");
    reveal_strlit("TEXT NOT NULL DEFAULT '{}'");
    reveal_strlit("approved_by");
    reveal_strlit("TEXT");
    reveal_strlit("created_at");
    reveal_strlit("approved_at");
    reveal_strlit(" ");
    reveal_strlit(",\n");
    reveal_with_fuel(declared_from, 5);
    let all = OPERATOR_MODEL_LAYER_CHECKPOINTS_COLUMNS@;
    assert(all.skip(316) =~= declared_from(columns, rules, 8));
    assert(all.skip(204) =~= declared_from(columns, rules, 4));
    assert(all =~= declared_from(columns, rules, 0));
}

/// The table `operator_model_entries` has these columns.
pub proof fn law_operator_model_entries_columns()
    ensures
        OPERATOR_MODEL_ENTRIES_COLUMNS@ == declared_from(
            seq![
                ("entry_id"@, "TEXT PRIMARY KEY"@),
                ("profile_id"@, "TEXT NOT NULL REFERENCES operator_model_profiles(profile_id)"@),
                ("version"@, "INTEGER NOT NULL"@),
                ("layer"@, "TEXT NOT NULL"@),
                ("entry_type"@, "TEXT NOT NULL"@),
                ("title"@, "TEXT NOT NULL"@),
                ("content"@, "TEXT NOT NULL"@),
                ("details_json"@, "TEXT NOT NULL DEFAULT '{}'"@),
                ("source_checkpoint_id"@, "TEXT NOT NULL REFERENCES operator_model_layer_checkpoints(checkpoint_id)"@),
                ("status"@, "TEXT NOT NULL DEFAULT 'current'"@),
                ("superseded_by"@, "TEXT"@),
                ("created_at"@, "TEXT NOT NULL"@),
            ],
            Seq::empty(),
            0,
        ),
{
    let columns = seq![
        ("entry_id"@, "TEXT PRIMARY KEY"@),
        ("profile_id"@, "TEXT NOT NULL REFERENCES operator_model_profiles(profile_id)"@),
        ("version"@, "INTEGER NOT NULL"@),
        ("layer"@, "TEXT NOT NULL"@),
        ("entry_type"@, "TEXT NOT NULL"@),
        ("title"@, "TEXT NOT NULL"@),
        ("content"@, "TEXT NOT NULL"@),
        ("details_json"@, "TEXT NOT NULL DEFAULT '{}'"@),
        ("source_checkpoint_id"@, "TEXT NOT NULL REFERENCES operator_model_layer_checkpoints(checkpoint_id)"@),
        ("status"@, "TEXT NOT NULL DEFAULT 'current'"@),
        ("superseded_by"@, "TEXT"@),
        ("created_at"@, "TEXT NOT NULL"@),
    ];
    let rules = Seq::<Seq<char>>::empty();
    reveal_strlit(
        "entry_id TEXT PRIMARY KEY,\nprofile_id TEXT NOT NULL REFERENCES operator_model_profiles(profile_id),\nversion INTEGER NOT NULL,\nlayer TEXT NOT NULL,\nentry_type TEXT NOT NULL,\ntitle TEXT NOT NULL,\ncontent TEXT NOT NULL,\ndetails_json TEXT NOT NULL DEFAULT '{}',\nsource_checkpoint_id TEXT NOT NULL REFERENCES operator_model_layer_checkpoints(checkpoint_id),\nstatus TEXT NOT NULL DEFAULT 'current',\nsuperseded_by TEXT,\ncreated_at TEXT NOT NULL",
    );
    reveal_strlit("entry_id");
    reveal_strlit("TEXT PRIMARY KEY");
    reveal_strlit("profile_id");
    reveal_strlit("TEXT NOT NULL REFERENCES operator_model_profiles(profile_id)");
    reveal_strlit("version");
    reveal_strlit("INTEGER NOT NULL");
    reveal_strlit("layer");
    reveal_strlit("TEXT NOT NULL");
    reveal_strlit("entry_type");
    reveal_strlit("title");
    reveal_strlit("content");
    reveal_strlit("details_json");
    reveal_strlit("TEXT NOT NULL DEFAULT '{}'");
    reveal_strlit("source_checkpoint_id");
    reveal_strlit("TEXT NOT NULL REFERENCES operator_model_layer_checkpoints(checkpoint_id)");
    reveal_strlit("status");
    reveal_strlit("TEXT NOT NULL DEFAULT 'current'");
    reveal_strlit("superseded_by");
    reveal_strlit("TEXT");
    reveal_strlit("created_at");
    reveal_strlit(" ");
    reveal_strlit(",\n");
    reveal_with_fuel(declared_from, 5);
    let all = OPERATOR_MODEL_ENTRIES_COLUMNS@;
    assert(all.skip(258) =~= declared_from(columns, rules, 8));
    assert(all.skip(147) =~= declared_from(columns, rules, 4));
    assert(all =~= declared_from(columns, rules, 0));
}

/// The table `operator_model_exports` has these columns.
pub proof fn law_operator_model_exports_columns()
    ensures
        OPERATOR_MODEL_EXPORTS_COLUMNS@ == declared_from(
            seq![
                ("export_id"@, "TEXT PRIMARY KEY"@),
                ("profile_id"@, "TEXT NOT NULL REFERENCES operator_model_profiles(profile_id)"@),
                ("version"@, "INTEGER NOT NULL"@),
                ("artifact_name"@, "TEXT NOT NULL"@),
                ("content"@, "TEXT NOT NULL"@),
                ("content_type"@, "TEXT NOT NULL"@),
                ("created_at"@, "TEXT NOT NULL"@),
            ],
            Seq::empty(),
            0,
        ),
{
    let columns = seq![
        ("export_id"@, "TEXT PRIMARY KEY"@),
        ("profile_id"@, "TEXT NOT NULL REFERENCES operator_model_profiles(profile_id)"@),
        ("version"@, "INTEGER NOT NULL"@),
        ("artifact_name"@, "TEXT NOT NULL"@),
        ("content"@, "TEXT NOT NULL"@),
        ("content_type"@, "TEXT NOT NULL"@),
        ("created_at"@, "TEXT NOT NULL"@),
    ];
    let rules = Seq::<Seq<char>>::empty();
    reveal_strlit(
        "export_id TEXT PRIMARY KEY,\nprofile_id TEXT NOT NULL REFERENCES operator_model_profiles(profile_id),\nversion INTEGER NOT NULL,\nartifact_name TEXT NOT NULL,\ncontent TEXT NOT NULL,\ncontent_type TEXT NOT NULL,\ncreated_at TEXT NOT NULL",
    );
    reveal_strlit("export_id");
    reveal_strlit("TEXT PRIMARY KEY");
    reveal_strlit("profile_id");
    reveal_strlit("TEXT NOT NULL REFERENCES operator_model_profiles(profile_id)");
    reveal_strlit("version");
    reveal_strlit("INTEGER NOT NULL");
    reveal_strlit("artifact_name");
    reveal_strlit("TEXT NOT NULL");
    reveal_strlit("content");
    reveal_strlit("content_type");
    reveal_strlit("created_at");
    reveal_strlit(" ");
    reveal_strlit(",\n");
    reveal_with_fuel(declared_from, 5);
    let all = OPERATOR_MODEL_EXPORTS_COLUMNS@;
    assert(all.skip(156) =~= declared_from(columns, rules, 4));
    assert(all =~= declared_from(columns, rules, 0));
}

/// The table `operator_model_update_candidates` has these columns.
pub proof fn law_operator_model_update_candidates_columns()
    ensures
        OPERATOR_MODEL_UPDATE_CANDIDATES_COLUMNS@ == declared_from(
            seq![
                ("candidate_id"@, "TEXT PRIMARY KEY"@),
                ("profile_id"@, "TEXT NOT NULL REFERENCES operator_model_profiles(profile_id)"@),
                ("run_id"@, "TEXT"@),
                ("entry_id"@, "TEXT"@),
                ("proposal_kind"@, "TEXT NOT NULL"@),
                ("summary"@, "TEXT NOT NULL"@),
                ("proposal_json"@, "TEXT NOT NULL DEFAULT '{}'"@),
                ("status"@, "TEXT NOT NULL DEFAULT 'open'"@),
                ("confidence"@, "REAL NOT NULL DEFAULT 0.0"@),
                ("created_at"@, "TEXT NOT NULL"@),
                ("reviewed_at"@, "TEXT"@),
            ],
            Seq::empty(),
            0,
        ),
{
    let columns = seq![
        ("candidate_id"@, "TEXT PRIMARY KEY"@),
        ("profile_id"@, "TEXT NOT NULL REFERENCES operator_model_profiles(profile_id)"@),
        ("run_id"@, "TEXT"@),
        ("entry_id"@, "TEXT"@),
        ("proposal_kind"@, "TEXT NOT NULL"@),
        ("summary"@, "TEXT NOT NULL"@),
        ("proposal_json"@, "TEXT NOT NULL DEFAULT '{}'"@),
        ("status"@, "TEXT NOT NULL DEFAULT 'open'"@),
        ("confidence"@, "REAL NOT NULL DEFAULT 0.0"@),
        ("created_at"@, "TEXT NOT NULL"@),
        ("reviewed_at"@, "TEXT"@),
    ];
    let rules = Seq::<Seq<char>>::empty();
    reveal_strlit(
        "candidate_id TEXT PRIMARY KEY,\nprofile_id TEXT NOT NULL REFERENCES operator_model_profiles(profile_id),\nrun_id TEXT,\nentry_id TEXT,\nproposal_kind TEXT NOT NULL,\nsummary TEXT NOT NULL,\nproposal_json TEXT NOT NULL DEFAULT '{}',\nstatus TEXT NOT NULL DEFAULT 'open',\nconfidence REAL NOT NULL DEFAULT 0.0,\ncreated_at TEXT NOT NULL,\nreviewed_at TEXT",
    );
    reveal_strlit("candidate_id");
    reveal_strlit("TEXT PRIMARY KEY");
    reveal_strlit("profile_id");
    reveal_strlit("TEXT NOT NULL REFERENCES operator_model_profiles(profile_id)");
    reveal_strlit("run_id");
    reveal_strlit("TEXT");
    reveal_strlit("entry_id");
    reveal_strlit("proposal_kind");
    reveal_strlit("TEXT NOT NULL");
    reveal_strlit("summary");
    reveal_strlit("proposal_json");
    reveal_strlit("TEXT NOT NULL DEFAULT '{}'");
    reveal_strlit("status");
    reveal_strlit("TEXT NOT NULL DEFAULT 'open'");
    reveal_strlit("confidence");
    reveal_strlit("REAL NOT NULL DEFAULT 0.0");
    reveal_strlit("created_at");
    reveal_strlit("reviewed_at");
    reveal_strlit(" ");
    reveal_strlit(",\n");
    reveal_with_fuel(declared_from, 5);
    let all = OPERATOR_MODEL_UPDATE_CANDIDATES_COLUMNS@;
    assert(all.skip(263) =~= declared_from(columns, rules, 8));
    assert(all.skip(132) =~= declared_from(columns, rules, 4));
    assert(all =~= declared_from(columns, rules, 0));
}

/// The table `consolidation_candidates` has these columns.
pub proof fn law_consolidation_candidates_columns()
    ensures
        CONSOLIDATION_CANDIDATES_COLUMNS@ == declared_from(
            seq![
                ("candidate_id"@, "TEXT PRIMARY KEY"@),
                ("run_id"@, "TEXT NOT NULL"@),
                ("kind"@, "TEXT NOT NULL"@),
                ("status"@, "TEXT NOT NULL DEFAULT 'pending'"@),
                ("content_json"@, "TEXT NOT NULL DEFAULT '{}'"@),
                ("edited_json"@, "TEXT"@),
                ("review_class"@, "TEXT NOT NULL DEFAULT 'standard'"@),
                ("pattern_basis_json"@, "TEXT NOT NULL DEFAULT '[]'"@),
                ("confidence"@, "REAL NOT NULL DEFAULT 0.5"@),
                ("label"@, "TEXT NOT NULL DEFAULT ''"@),
                ("created_at"@, "TEXT NOT NULL"@),
                ("reviewed_at"@, "TEXT"@),
            ],
            Seq::empty(),
            0,
        ),
{
    let columns = seq![
        ("candidate_id"@, "TEXT PRIMARY KEY"@),
        ("run_id"@, "TEXT NOT NULL"@),
        ("kind"@, "TEXT NOT NULL"@),
        ("status"@, "TEXT NOT NULL DEFAULT 'pending'"@),
        ("content_json"@, "TEXT NOT NULL DEFAULT '{}'"@),
        ("edited_json"@, "TEXT"@),
        ("review_class"@, "TEXT NOT NULL DEFAULT 'standard'"@),
        ("pattern_basis_json"@, "TEXT NOT NULL DEFAULT '[]'"@),
        ("confidence"@, "REAL NOT NULL DEFAULT 0.5"@),
        ("label"@, "TEXT NOT NULL DEFAULT ''"@),
        ("created_at"@, "TEXT NOT NULL"@),
        ("reviewed_at"@, "TEXT"@),
    ];
    let rules = Seq::<Seq<char>>::empty();
    reveal_strlit(
        "candidate_id TEXT PRIMARY KEY,\nrun_id TEXT NOT NULL,\nkind TEXT NOT NULL,\nstatus TEXT NOT NULL DEFAULT 'pending',\ncontent_json TEXT NOT NULL DEFAULT '{}',\nedited_json TEXT,\nreview_class TEXT NOT NULL DEFAULT 'standard',\npattern_basis_json TEXT NOT NULL DEFAULT '[]',\nconfidence REAL NOT NULL DEFAULT 0.5,\nlabel TEXT NOT NULL DEFAULT '',\ncreated_at TEXT NOT NULL,\nreviewed_at TEXT",
    );
    reveal_strlit("candidate_id");
    reveal_strlit("TEXT PRIMARY KEY");
    reveal_strlit("run_id");
    reveal_strlit("TEXT NOT NULL");
    reveal_strlit("kind");
    reveal_strlit("status");
    reveal_strlit("TEXT NOT NULL DEFAULT 'pending'");
    reveal_strlit("content_json");
    reveal_strlit("TEXT NOT NULL DEFAULT '{}'");
    reveal_strlit("edited_json");
    reveal_strlit("TEXT");
    reveal_strlit("review_class");
    reveal_strlit("TEXT NOT NULL DEFAULT 'standard'");
    reveal_strlit("pattern_basis_json");
    reveal_strlit("TEXT NOT NULL DEFAULT '[]'");
    reveal_strlit("confidence");
    reveal_strlit("REAL NOT NULL DEFAULT 0.5");
    reveal_strlit("label");
    reveal_strlit("TEXT NOT NULL DEFAULT ''");
    reveal_strlit("created_at");
    reveal_strlit("reviewed_at");
    reveal_strlit(" ");
    reveal_strlit(",\n");
    reveal_with_fuel(declared_from, 5);
    let all = CONSOLIDATION_CANDIDATES_COLUMNS@;
    assert(all.skip(266) =~= declared_from(columns, rules, 8));
    assert(all.skip(113) =~= declared_from(columns, rules, 4));
    assert(all =~= declared_from(columns, rules, 0));
}

/// The table `run_cost_events` has these columns.
pub proof fn law_run_cost_events_columns()
    ensures
        RUN_COST_EVENTS_COLUMNS@ == declared_from(
            seq![
                ("event_id"@, "TEXT PRIMARY KEY"@),
                ("run_id"@, "TEXT NOT NULL"@),
                ("agent"@, "TEXT NOT NULL DEFAULT ''"@),
                ("phase"@, "TEXT NOT NULL DEFAULT ''"@),
                ("provider"@, "TEXT NOT NULL DEFAULT ''"@),
                ("model"@, "TEXT NOT NULL DEFAULT ''"@),
                ("input_tokens"@, "INTEGER NOT NULL DEFAULT 0"@),
                ("output_tokens"@, "INTEGER NOT NULL DEFAULT 0"@),
                ("latency_ms"@, "INTEGER NOT NULL DEFAULT 0"@),
                ("created_at"@, "TEXT NOT NULL"@),
            ],
            Seq::empty(),
            0,
        ),
{
    let columns = seq![
        ("event_id"@, "TEXT PRIMARY KEY"@),
        ("run_id"@, "TEXT NOT NULL"@),
        ("agent"@, "TEXT NOT NULL DEFAULT ''"@),
        ("phase"@, "TEXT NOT NULL DEFAULT ''"@),
        ("provider"@, "TEXT NOT NULL DEFAULT ''"@),
        ("model"@, "TEXT NOT NULL DEFAULT ''"@),
        ("input_tokens"@, "INTEGER NOT NULL DEFAULT 0"@),
        ("output_tokens"@, "INTEGER NOT NULL DEFAULT 0"@),
        ("latency_ms"@, "INTEGER NOT NULL DEFAULT 0"@),
        ("created_at"@, "TEXT NOT NULL"@),
    ];
    let rules = Seq::<Seq<char>>::empty();
    reveal_strlit(
        "event_id TEXT PRIMARY KEY,\nrun_id TEXT NOT NULL,\nagent TEXT NOT NULL DEFAULT '',\nphase TEXT NOT NULL DEFAULT '',\nprovider TEXT NOT NULL DEFAULT '',\nmodel TEXT NOT NULL DEFAULT '',\ninput_tokens INTEGER NOT NULL DEFAULT 0,\noutput_tokens INTEGER NOT NULL DEFAULT 0,\nlatency_ms INTEGER NOT NULL DEFAULT 0,\ncreated_at TEXT NOT NULL",
    );
    reveal_strlit("event_id");
    reveal_strlit("TEXT PRIMARY KEY");
    reveal_strlit("run_id");
    reveal_strlit("TEXT NOT NULL");
    reveal_strlit("agent");
    reveal_strlit("TEXT NOT NULL DEFAULT ''");
    reveal_strlit("phase");
    reveal_strlit("provider");
    reveal_strlit("model");
    reveal_strlit("input_tokens");
    reveal_strlit("INTEGER NOT NULL DEFAULT 0");
    reveal_strlit("output_tokens");
    reveal_strlit("latency_ms");
    reveal_strlit("created_at");
    reveal_strlit(" ");
    reveal_strlit(",\n");
    reveal_with_fuel(declared_from, 5);
    let all = RUN_COST_EVENTS_COLUMNS@;
    assert(all.skip(263) =~= declared_from(columns, rules, 8));
    assert(all.skip(113) =~= declared_from(columns, rules, 4));
    assert(all =~= declared_from(columns, rules, 0));
}

/// The table `decision_log` has these columns.
pub proof fn law_decision_log_columns()
    ensures
        DECISION_LOG_COLUMNS@ == declared_from(
            seq![
                ("decision_id"@, "TEXT PRIMARY KEY"@),
                ("run_id"@, "TEXT NOT NULL"@),
                ("agent"@, "TEXT NOT NULL DEFAULT ''"@),
                ("phase"@, "TEXT NOT NULL DEFAULT ''"@),
                ("decision_kind"@, "TEXT NOT NULL DEFAULT ''"@),
                ("chose"@, "TEXT NOT NULL DEFAULT ''"@),
                ("alternatives_json"@, "TEXT NOT NULL DEFAULT '[]'"@),
                ("justification"@, "TEXT NOT NULL DEFAULT ''"@),
                ("approved_by"@, "TEXT"@),
                ("created_at"@, "TEXT NOT NULL"@),
            ],
            Seq::empty(),
            0,
        ),
{
    let columns = seq![
        ("decision_id"@, "TEXT PRIMARY KEY"@),
        ("run_id"@, "TEXT NOT NULL"@),
        ("agent"@, "TEXT NOT NULL DEFAULT ''"@),
        ("phase"@, "TEXT NOT NULL DEFAULT ''"@),
        ("decision_kind"@, "TEXT NOT NULL DEFAULT ''"@),
        ("chose"@, "TEXT NOT NULL DEFAULT ''"@),
        ("alternatives_json"@, "TEXT NOT NULL DEFAULT '[]'"@),
        ("justification"@, "TEXT NOT NULL DEFAULT ''"@),
        ("approved_by"@, "TEXT"@),
        ("created_at"@, "TEXT NOT NULL"@),
    ];
    let rules = Seq::<Seq<char>>::empty();
    reveal_strlit(
        "decision_id TEXT PRIMARY KEY,\nrun_id TEXT NOT NULL,\nagent TEXT NOT NULL DEFAULT '',\nphase TEXT NOT NULL DEFAULT '',\ndecision_kind TEXT NOT NULL DEFAULT '',\nchose TEXT NOT NULL DEFAULT '',\nalternatives_json TEXT NOT NULL DEFAULT '[]',\njustification TEXT NOT NULL DEFAULT '',\napproved_by TEXT,\ncreated_at TEXT NOT NULL",
    );
    reveal_strlit("decision_id");
    reveal_strlit("TEXT PRIMARY KEY");
    reveal_strlit("run_id");
    reveal_strlit("TEXT NOT NULL");
    reveal_strlit("agent");
    reveal_strlit("TEXT NOT NULL DEFAULT ''");
    reveal_strlit("phase");
    reveal_strlit("decision_kind");
    reveal_strlit("chose");
    reveal_strlit("alternatives_json");
    reveal_strlit("TEXT NOT NULL DEFAULT '[]'");
    reveal_strlit("justification");
    reveal_strlit("approved_by");
    reveal_strlit("TEXT");
    reveal_strlit("created_at");
    reveal_strlit(" ");
    reveal_strlit(",\n");
    reveal_with_fuel(declared_from, 5);
    let all = DECISION_LOG_COLUMNS@;
    assert(all.skip(274) =~= declared_from(columns, rules, 8));
    assert(all.skip(116) =~= declared_from(columns, rules, 4));
    assert(all =~= declared_from(columns, rules, 0));
}

/// The table `coordination_leases` has these columns.
pub proof fn law_coordination_leases_columns()
    ensures
        COORDINATION_LEASES_COLUMNS@ == declared_from(
            seq![
                ("agent"@, "TEXT PRIMARY KEY"@),
                ("task"@, "TEXT NOT NULL DEFAULT ''"@),
                ("files_json"@, "TEXT NOT NULL DEFAULT '[]'"@),
                ("claimed_at"@, "TEXT NOT NULL"@),
                ("last_heartbeat_at"@, "TEXT NOT NULL DEFAULT ''"@),
                ("status"@, "TEXT NOT NULL DEFAULT 'active'"@),
                ("resource_kind"@, "TEXT NOT NULL DEFAULT 'file'"@),
                ("ttl_secs"@, "INTEGER NOT NULL DEFAULT 0"@),
                ("guardrails_json"@, "TEXT NOT NULL DEFAULT '[]'"@),
                ("expires_at"@, "TEXT NOT NULL DEFAULT ''"@),
                ("updated_at"@, "TEXT NOT NULL"@),
            ],
            Seq::empty(),
            0,
        ),
{
    let columns = seq![
        ("agent"@, "TEXT PRIMARY KEY"@),
        ("task"@, "TEXT NOT NULL DEFAULT ''"@),
        ("files_json"@, "TEXT NOT NULL DEFAULT '[]'"@),
        ("claimed_at"@, "TEXT NOT NULL"@),
        ("last_heartbeat_at"@, "TEXT NOT NULL DEFAULT ''"@),
        ("status"@, "TEXT NOT NULL DEFAULT 'active'"@),
        ("resource_kind"@, "TEXT NOT NULL DEFAULT 'file'"@),
        ("ttl_secs"@, "INTEGER NOT NULL DEFAULT 0"@),
        ("guardrails_json"@, "TEXT NOT NULL DEFAULT '[]'"@),
        ("expires_at"@, "TEXT NOT NULL DEFAULT ''"@),
        ("updated_at"@, "TEXT NOT NULL"@),
    ];
    let rules = Seq::<Seq<char>>::empty();
    reveal_strlit(
        "agent TEXT PRIMARY KEY,\ntask TEXT NOT NULL DEFAULT '',\nfiles_json TEXT NOT NULL DEFAULT '[]',\nclaimed_at TEXT NOT NULL,\nlast_heartbeat_at TEXT NOT NULL DEFAULT '',\nstatus TEXT NOT NULL DEFAULT 'active',\nresource_kind TEXT NOT NULL DEFAULT 'file',\nttl_secs INTEGER NOT NULL DEFAULT 0,\nguardrails_json TEXT NOT NULL DEFAULT '[]',\nexpires_at TEXT NOT NULL DEFAULT '',\nupdated_at TEXT NOT NULL",
    );
    reveal_strlit("agent");
    reveal_strlit("TEXT PRIMARY KEY");
    reveal_strlit("task");
    reveal_strlit("TEXT NOT NULL DEFAULT ''");
    reveal_strlit("files_json");
    reveal_strlit("TEXT NOT NULL DEFAULT '[]'");
    reveal_strlit("claimed_at");
    reveal_strlit("TEXT NOT NULL");
    reveal_strlit("last_heartbeat_at");
    reveal_strlit("status");
    reveal_strlit("TEXT NOT NULL DEFAULT 'active'");
    reveal_strlit("resource_kind");
    reveal_strlit("TEXT NOT NULL DEFAULT 'file'");
    reveal_strlit("ttl_secs");
    reveal_strlit("INTEGER NOT NULL DEFAULT 0");
    reveal_strlit("guardrails_json");
    reveal_strlit("expires_at");
    reveal_strlit("updated_at");
    reveal_strlit(" ");
    reveal_strlit(",\n");
    reveal_with_fuel(declared_from, 5);
    let all = COORDINATION_LEASES_COLUMNS@;
    assert(all.skip(284) =~= declared_from(columns, rules, 8));
    assert(all.skip(120) =~= declared_from(columns, rules, 4));
    assert(all =~= declared_from(columns, rules, 0));
}

/// The table `coordination_policy_events_db` has these columns.
pub proof fn law_coordination_policy_events_db_columns()
    ensures
        COORDINATION_POLICY_EVENTS_DB_COLUMNS@ == declared_from(
            seq![
                ("event_id"@, "TEXT PRIMARY KEY"@),
                ("managed_by"@, "TEXT NOT NULL DEFAULT 'keeper'"@),
                ("event_type"@, "TEXT NOT NULL DEFAULT ''"@),
                ("status"@, "TEXT NOT NULL DEFAULT ''"@),
                ("agent"@, "TEXT"@),
                ("conflicting_agent"@, "TEXT"@),
                ("files_json"@, "TEXT NOT NULL DEFAULT '[]'"@),
                ("message"@, "TEXT NOT NULL DEFAULT ''"@),
                ("created_at"@, "TEXT NOT NULL"@),
            ],
            Seq::empty(),
            0,
        ),
{
    let columns = seq![
        ("event_id"@, "TEXT PRIMARY KEY"@),
        ("managed_by"@, "TEXT NOT NULL DEFAULT 'keeper'"@),
        ("event_type"@, "TEXT NOT NULL DEFAULT ''"@),
        ("status"@, "TEXT NOT NULL DEFAULT ''"@),
        ("agent"@, "TEXT"@),
        ("conflicting_agent"@, "TEXT"@),
        ("files_json"@, "TEXT NOT NULL DEFAULT '[]'"@),
        ("message"@, "TEXT NOT NULL DEFAULT ''"@),
        ("created_at"@, "TEXT NOT NULL"@),
    ];
    let rules = Seq::<Seq<char>>::empty();
    reveal_strlit(
        "event_id TEXT PRIMARY KEY,\nmanaged_by TEXT NOT NULL DEFAULT 'keeper',\nevent_type TEXT NOT NULL DEFAULT '',\nstatus TEXT NOT NULL DEFAULT '',\nagent TEXT,\nconflicting_agent TEXT,\nfiles_json TEXT NOT NULL DEFAULT '[]',\nmessage TEXT NOT NULL DEFAULT '',\ncreated_at TEXT NOT NULL",
    );
    reveal_strlit("event_id");
    reveal_strlit("TEXT PRIMARY KEY");
    reveal_strlit("managed_by");
    reveal_strlit("TEXT NOT NULL DEFAULT 'keeper'");
    reveal_strlit("event_type");
    reveal_strlit("TEXT NOT NULL DEFAULT ''");
    reveal_strlit("status");
    reveal_strlit("agent");
    reveal_strlit("TEXT");
    reveal_strlit("conflicting_agent");
    reveal_strlit("files_json");
    reveal_strlit("TEXT NOT NULL DEFAULT '[]'");
    reveal_strlit("message");
    reveal_strlit("created_at");
    reveal_strlit("TEXT NOT NULL");
    reveal_strlit(" ");
    reveal_strlit(",\n");
    reveal_with_fuel(declared_from, 5);
    let all = COORDINATION_POLICY_EVENTS_DB_COLUMNS@;
    assert(all.skip(249) =~= declared_from(columns, rules, 8));
    assert(all.skip(140) =~= declared_from(columns, rules, 4));
    assert(all =~= declared_from(columns, rules, 0));
}

/// The table `agent_runtime_state` has these columns.
pub proof fn law_agent_runtime_state_columns()
    ensures
        AGENT_RUNTIME_STATE_COLUMNS@ == declared_from(
            seq![
                ("runtime_id"@, "TEXT PRIMARY KEY"@),
                ("run_id"@, "TEXT NOT NULL"@),
                ("thread_id"@, "TEXT"@),
                ("canonical_role"@, "TEXT NOT NULL DEFAULT ''"@),
                ("display_name"@, "TEXT NOT NULL DEFAULT ''"@),
                ("ownership"@, "TEXT NOT NULL DEFAULT ''"@),
                ("status"@, "TEXT NOT NULL DEFAULT 'active'"@),
                ("provider"@, "TEXT"@),
                ("surface"@, "TEXT"@),
                ("source"@, "TEXT NOT NULL DEFAULT ''"@),
                ("last_heartbeat_at"@, "TEXT NOT NULL DEFAULT ''"@),
                ("started_at"@, "TEXT NOT NULL"@),
                ("updated_at"@, "TEXT NOT NULL"@),
            ],
            Seq::empty(),
            0,
        ),
{
    let columns = seq![
        ("runtime_id"@, "TEXT PRIMARY KEY"@),
        ("run_id"@, "TEXT NOT NULL"@),
        ("thread_id"@, "TEXT"@),
        ("canonical_role"@, "TEXT NOT NULL DEFAULT ''"@),
        ("display_name"@, "TEXT NOT NULL DEFAULT ''"@),
        ("ownership"@, "TEXT NOT NULL DEFAULT ''"@),
        ("status"@, "TEXT NOT NULL DEFAULT 'active'"@),
        ("provider"@, "TEXT"@),
        ("surface"@, "TEXT"@),
        ("source"@, "TEXT NOT NULL DEFAULT ''"@),
        ("last_heartbeat_at"@, "TEXT NOT NULL DEFAULT ''"@),
        ("started_at"@, "TEXT NOT NULL"@),
        ("updated_at"@, "TEXT NOT NULL"@),
    ];
    let rules = Seq::<Seq<char>>::empty();
    reveal_strlit(
        "runtime_id TEXT PRIMARY KEY,\nrun_id TEXT NOT NULL,\nthread_id TEXT,\ncanonical_role TEXT NOT NULL DEFAULT '',\ndisplay_name TEXT NOT NULL DEFAULT '',\nownership TEXT NOT NULL DEFAULT '',\nstatus TEXT NOT NULL DEFAULT 'active',\nprovider TEXT,\nsurface TEXT,\nsource TEXT NOT NULL DEFAULT '',\nlast_heartbeat_at TEXT NOT NULL DEFAULT '',\nstarted_at TEXT NOT NULL,\nupdated_at TEXT NOT NULL",
    );
    reveal_strlit("runtime_id");
    reveal_strlit("TEXT PRIMARY KEY");
    reveal_strlit("run_id");
    reveal_strlit("TEXT NOT NULL");
    reveal_strlit("thread_id");
    reveal_strlit("TEXT");
    reveal_strlit("canonical_role");
    reveal_strlit("TEXT NOT NULL DEFAULT ''");
    reveal_strlit("display_name");
    reveal_strlit("ownership");
    reveal_strlit("status");
    reveal_strlit("TEXT NOT NULL DEFAULT 'active'");
    reveal_strlit("provider");
    reveal_strlit("surface");
    reveal_strlit("source");
    reveal_strlit("last_heartbeat_at");
    reveal_strlit("started_at");
    reveal_strlit("updated_at");
    reveal_strlit(" ");
    reveal_strlit(",\n");
    reveal_with_fuel(declared_from, 5);
    let all = AGENT_RUNTIME_STATE_COLUMNS@;
    assert(all.skip(354) =~= declared_from(columns, rules, 12));
    assert(all.skip(237) =~= declared_from(columns, rules, 8));
    assert(all.skip(108) =~= declared_from(columns, rules, 4));
    assert(all =~= declared_from(columns, rules, 0));
}

/// The table `agent_state` has these columns.
pub proof fn law_agent_state_columns()
    ensures
        AGENT_STATE_COLUMNS@ == declared_from(
            seq![
                ("agent_name"@, "TEXT PRIMARY KEY"@),
                ("agent_role"@, "TEXT NOT NULL"@),
                ("llm_provider"@, "TEXT NOT NULL"@),
                ("llm_model"@, "TEXT NOT NULL"@),
                ("memory_block_ids"@, "TEXT NOT NULL DEFAULT '{}'"@),
                ("last_stop_reason"@, "TEXT"@),
                ("last_active_run"@, "TEXT"@),
                ("behavior_contract_hash"@, "TEXT"@),
                ("updated_at"@, "TEXT NOT NULL"@),
            ],
            Seq::empty(),
            0,
        ),
{
    let columns = seq![
        ("agent_name"@, "TEXT PRIMARY KEY"@),
        ("agent_role"@, "TEXT NOT NULL"@),
        ("llm_provider"@, "TEXT NOT NULL"@),
        ("llm_model"@, "TEXT NOT NULL"@),
        ("memory_block_ids"@, "TEXT NOT NULL DEFAULT '{}'"@),
        ("last_stop_reason"@, "TEXT"@),
        ("last_active_run"@, "TEXT"@),
        ("behavior_contract_hash"@, "TEXT"@),
        ("updated_at"@, "TEXT NOT NULL"@),
    ];
    let rules = Seq::<Seq<char>>::empty();
    reveal_strlit(
        "agent_name TEXT PRIMARY KEY,\nagent_role TEXT NOT NULL,\nllm_provider TEXT NOT NULL,\nllm_model TEXT NOT NULL,\nmemory_block_ids TEXT NOT NULL DEFAULT '{}',\nlast_stop_reason TEXT,\nlast_active_run TEXT,\nbehavior_contract_hash TEXT,\nupdated_at TEXT NOT NULL",
    );
    reveal_strlit("agent_name");
    reveal_strlit("TEXT PRIMARY KEY");
    reveal_strlit("agent_role");
    reveal_strlit("TEXT NOT NULL");
    reveal_strlit("llm_provider");
    reveal_strlit("llm_model");
    reveal_strlit("memory_block_ids");
    reveal_strlit("TEXT NOT NULL DEFAULT '{}'");
    reveal_strlit("last_stop_reason");
    reveal_strlit("TEXT");
    reveal_strlit("last_active_run");
    reveal_strlit("behavior_contract_hash");
    reveal_strlit("updated_at");
    reveal_strlit(" ");
    reveal_strlit(",\n");
    reveal_with_fuel(declared_from, 5);
    let all = AGENT_STATE_COLUMNS@;
    assert(all.skip(227) =~= declared_from(columns, rules, 8));
    assert(all.skip(108) =~= declared_from(columns, rules, 4));
    assert(all =~= declared_from(columns, rules, 0));
}

/// The table `causal_graph_projections` has these columns.
pub proof fn law_causal_graph_projections_columns()
    ensures
        CAUSAL_GRAPH_PROJECTIONS_COLUMNS@ == declared_from(
            seq![
                ("run_id"@, "TEXT PRIMARY KEY"@),
                ("backend"@, "TEXT NOT NULL"@),
                ("status"@, "TEXT NOT NULL"@),
                ("database_name"@, "TEXT NOT NULL"@),
                ("schema_path"@, "TEXT NOT NULL"@),
                ("graph_json"@, "TEXT NOT NULL"@),
                ("episode_count"@, "INTEGER NOT NULL DEFAULT 0"@),
                ("event_count"@, "INTEGER NOT NULL DEFAULT 0"@),
                ("link_count"@, "INTEGER NOT NULL DEFAULT 0"@),
                ("hypothesis_count"@, "INTEGER NOT NULL DEFAULT 0"@),
                ("projected_at"@, "TEXT NOT NULL"@),
            ],
            Seq::empty(),
            0,
        ),
{
    let columns = seq![
        ("run_id"@, "TEXT PRIMARY KEY"@),
        ("backend"@, "TEXT NOT NULL"@),
        ("status"@, "TEXT NOT NULL"@),
        ("database_name"@, "TEXT NOT NULL"@),
        ("schema_path"@, "TEXT NOT NULL"@),
        ("graph_json"@, "TEXT NOT NULL"@),
        ("episode_count"@, "INTEGER NOT NULL DEFAULT 0"@),
        ("event_count"@, "INTEGER NOT NULL DEFAULT 0"@),
        ("link_count"@, "INTEGER NOT NULL DEFAULT 0"@),
        ("hypothesis_count"@, "INTEGER NOT NULL DEFAULT 0"@),
        ("projected_at"@, "TEXT NOT NULL"@),
    ];
    let rules = Seq::<Seq<char>>::empty();
    reveal_strlit(
        "run_id TEXT PRIMARY KEY,\nbackend TEXT NOT NULL,\nstatus TEXT NOT NULL,\ndatabase_name TEXT NOT NULL,\nschema_path TEXT NOT NULL,\ngraph_json TEXT NOT NULL,\nepisode_count INTEGER NOT NULL DEFAULT 0,\nevent_count INTEGER NOT NULL DEFAULT 0,\nlink_count INTEGER NOT NULL DEFAULT 0,\nhypothesis_count INTEGER NOT NULL DEFAULT 0,\nprojected_at TEXT NOT NULL",
    );
    reveal_strlit("run_id");
    reveal_strlit("TEXT PRIMARY KEY");
    reveal_strlit("backend");
    reveal_strlit("TEXT NOT NULL");
    reveal_strlit("status");
    reveal_strlit("database_name");
    reveal_strlit("schema_path");
    reveal_strlit("graph_json");
    reveal_strlit("episode_count");
    reveal_strlit("INTEGER NOT NULL DEFAULT 0");
    reveal_strlit("event_count");
    reveal_strlit("link_count");
    reveal_strlit("hypothesis_count");
    reveal_strlit("projected_at");
    reveal_strlit(" ");
    reveal_strlit(",\n");
    reveal_with_fuel(declared_from, 5);
    let all = CAUSAL_GRAPH_PROJECTIONS_COLUMNS@;
    assert(all.skip(234) =~= declared_from(columns, rules, 8));
    assert(all.skip(99) =~= declared_from(columns, rules, 4));
    assert(all =~= declared_from(columns, rules, 0));
}

/// The table `memory_updates` has these columns.
pub proof fn law_memory_updates_columns()
    ensures
        MEMORY_UPDATES_COLUMNS@ == declared_from(
            seq![
                ("update_id"@, "TEXT PRIMARY KEY"@),
                ("old_memory_id"@, "TEXT NOT NULL"@),
                ("new_memory_id"@, "TEXT NOT NULL"@),
                ("memory_root"@, "TEXT NOT NULL DEFAULT ''"@),
                ("reason"@, "TEXT NOT NULL DEFAULT ''"@),
                ("review_status"@, "TEXT NOT NULL DEFAULT 'pending'"@),
                ("reviewed_by"@, "TEXT"@),
                ("review_note"@, "TEXT"@),
                ("reviewed_at"@, "TEXT"@),
                ("created_at"@, "TEXT NOT NULL"@),
            ],
            Seq::empty(),
            0,
        ),
{
    let columns = seq![
        ("update_id"@, "TEXT PRIMARY KEY"@),
        ("old_memory_id"@, "TEXT NOT NULL"@),
        ("new_memory_id"@, "TEXT NOT NULL"@),
        ("memory_root"@, "TEXT NOT NULL DEFAULT ''"@),
        ("reason"@, "TEXT NOT NULL DEFAULT ''"@),
        ("review_status"@, "TEXT NOT NULL DEFAULT 'pending'"@),
        ("reviewed_by"@, "TEXT"@),
        ("review_note"@, "TEXT"@),
        ("reviewed_at"@, "TEXT"@),
        ("created_at"@, "TEXT NOT NULL"@),
    ];
    let rules = Seq::<Seq<char>>::empty();
    reveal_strlit(
        "update_id TEXT PRIMARY KEY,\nold_memory_id TEXT NOT NULL,\nnew_memory_id TEXT NOT NULL,\nmemory_root TEXT NOT NULL DEFAULT '',\nreason TEXT NOT NULL DEFAULT '',\nreview_status TEXT NOT NULL DEFAULT 'pending',\nreviewed_by TEXT,\nreview_note TEXT,\nreviewed_at TEXT,\ncreated_at TEXT NOT NULL",
    );
    reveal_strlit("update_id");
    reveal_strlit("TEXT PRIMARY KEY");
    reveal_strlit("old_memory_id");
    reveal_strlit("TEXT NOT NULL");
    reveal_strlit("new_memory_id");
    reveal_strlit("memory_root");
    reveal_strlit("TEXT NOT NULL DEFAULT ''");
    reveal_strlit("reason");
    reveal_strlit("review_status");
    reveal_strlit("TEXT NOT NULL DEFAULT 'pending'");
    reveal_strlit("reviewed_by");
    reveal_strlit("TEXT");
    reveal_strlit("review_note");
    reveal_strlit("reviewed_at");
    reveal_strlit("created_at");
    reveal_strlit(" ");
    reveal_strlit(",\n");
    reveal_with_fuel(declared_from, 5);
    let all = MEMORY_UPDATES_COLUMNS@;
    assert(all.skip(240) =~= declared_from(columns, rules, 8));
    assert(all.skip(124) =~= declared_from(columns, rules, 4));
    assert(all =~= declared_from(columns, rules, 0));
}

/// The table `code_review_learning_records` has these columns.
pub proof fn law_code_review_learning_records_columns()
    ensures
        CODE_REVIEW_LEARNING_RECORDS_COLUMNS@ == declared_from(
            seq![
                ("record_id"@, "TEXT PRIMARY KEY"@),
                ("run_id"@, "TEXT NOT NULL"@),
                ("source_agent"@, "TEXT NOT NULL"@),
                ("reviewer_agent"@, "TEXT NOT NULL"@),
                ("finding_fingerprint"@, "TEXT NOT NULL"@),
                ("files_json"@, "TEXT NOT NULL DEFAULT '[]'"@),
                ("severity"@, "TEXT NOT NULL"@),
                ("resolution"@, "TEXT NOT NULL"@),
                ("lesson"@, "TEXT NOT NULL"@),
                ("evidence_refs_json"@, "TEXT NOT NULL DEFAULT '[]'"@),
                ("stale_if_file_changed_json"@, "TEXT NOT NULL DEFAULT '[]'"@),
                ("status"@, "TEXT NOT NULL DEFAULT 'active'"@),
                ("created_at"@, "TEXT NOT NULL"@),
            ],
            Seq::empty(),
            0,
        ),
{
    let columns = seq![
        ("record_id"@, "TEXT PRIMARY KEY"@),
        ("run_id"@, "TEXT NOT NULL"@),
        ("source_agent"@, "TEXT NOT NULL"@),
        ("reviewer_agent"@, "TEXT NOT NULL"@),
        ("finding_fingerprint"@, "TEXT NOT NULL"@),
        ("files_json"@, "TEXT NOT NULL DEFAULT '[]'"@),
        ("severity"@, "TEXT NOT NULL"@),
        ("resolution"@, "TEXT NOT NULL"@),
        ("lesson"@, "TEXT NOT NULL"@),
        ("evidence_refs_json"@, "TEXT NOT NULL DEFAULT '[]'"@),
        ("stale_if_file_changed_json"@, "TEXT NOT NULL DEFAULT '[]'"@),
        ("status"@, "TEXT NOT NULL DEFAULT 'active'"@),
        ("created_at"@, "TEXT NOT NULL"@),
    ];
    let rules = Seq::<Seq<char>>::empty();
    reveal_strlit(
        "record_id TEXT PRIMARY KEY,\nrun_id TEXT NOT NULL,\nsource_agent TEXT NOT NULL,\nreviewer_agent TEXT NOT NULL,\nfinding_fingerprint TEXT NOT NULL,\nfiles_json TEXT NOT NULL DEFAULT '[]',\nseverity TEXT NOT NULL,\nresolution TEXT NOT NULL,\nlesson TEXT NOT NULL,\nevidence_refs_json TEXT NOT NULL DEFAULT '[]',\nstale_if_file_changed_json TEXT NOT NULL DEFAULT '[]',\nstatus TEXT NOT NULL DEFAULT 'active',\ncreated_at TEXT NOT NULL",
    );
    reveal_strlit("record_id");
    reveal_strlit("TEXT PRIMARY KEY");
    reveal_strlit("run_id");
    reveal_strlit("TEXT NOT NULL");
    reveal_strlit("source_agent");
    reveal_strlit("reviewer_agent");
    reveal_strlit("finding_fingerprint");
    reveal_strlit("files_json");
    reveal_strlit("TEXT NOT NULL DEFAULT '[]'");
    reveal_strlit("severity");
    reveal_strlit("resolution");
    reveal_strlit("lesson");
    reveal_strlit("evidence_refs_json");
    reveal_strlit("stale_if_file_changed_json");
    reveal_strlit("status");
    reveal_strlit("TEXT NOT NULL DEFAULT 'active'");
    reveal_strlit("created_at");
    reveal_strlit(" ");
    reveal_strlit(",\n");
    reveal_with_fuel(declared_from, 5);
    let all = CODE_REVIEW_LEARNING_RECORDS_COLUMNS@;
    assert(all.skip(395) =~= declared_from(columns, rules, 12));
    assert(all.skip(232) =~= declared_from(columns, rules, 8));
    assert(all.skip(108) =~= declared_from(columns, rules, 4));
    assert(all =~= declared_from(columns, rules, 0));
}

/// The table `behavioral_change_reports` has these columns.
pub proof fn law_behavioral_change_reports_columns()
    ensures
        BEHAVIORAL_CHANGE_REPORTS_COLUMNS@ == declared_from(
            seq![
                ("report_id"@, "TEXT PRIMARY KEY"@),
                ("run_id"@, "TEXT NOT NULL UNIQUE"@),
                ("spec_id"@, "TEXT NOT NULL"@),
                ("status"@, "TEXT NOT NULL"@),
                ("summary"@, "TEXT NOT NULL"@),
                ("metrics_json"@, "TEXT NOT NULL DEFAULT '{}'"@),
                ("prior_revision_candidates_json"@, "TEXT NOT NULL DEFAULT '[]'"@),
                ("artifact_json"@, "TEXT NOT NULL DEFAULT '{}'"@),
                ("created_at"@, "TEXT NOT NULL"@),
            ],
            Seq::empty(),
            0,
        ),
{
    let columns = seq![
        ("report_id"@, "TEXT PRIMARY KEY"@),
        ("run_id"@, "TEXT NOT NULL UNIQUE"@),
        ("spec_id"@, "TEXT NOT NULL"@),
        ("status"@, "TEXT NOT NULL"@),
        ("summary"@, "TEXT NOT NULL"@),
        ("metrics_json"@, "TEXT NOT NULL DEFAULT '{}'"@),
        ("prior_revision_candidates_json"@, "TEXT NOT NULL DEFAULT '[]'"@),
        ("artifact_json"@, "TEXT NOT NULL DEFAULT '{}'"@),
        ("created_at"@, "TEXT NOT NULL"@),
    ];
    let rules = Seq::<Seq<char>>::empty();
    reveal_strlit(
        "report_id TEXT PRIMARY KEY,\nrun_id TEXT NOT NULL UNIQUE,\nspec_id TEXT NOT NULL,\nstatus TEXT NOT NULL,\nsummary TEXT NOT NULL,\nmetrics_json TEXT NOT NULL DEFAULT '{}',\nprior_revision_candidates_json TEXT NOT NULL DEFAULT '[]',\nartifact_json TEXT NOT NULL DEFAULT '{}',\ncreated_at TEXT NOT NULL",
    );
    reveal_strlit("report_id");
    reveal_strlit("TEXT PRIMARY KEY");
    reveal_strlit("run_id");
    reveal_strlit("TEXT NOT NULL UNIQUE");
    reveal_strlit("spec_id");
    reveal_strlit("TEXT NOT NULL");
    reveal_strlit("status");
    reveal_strlit("summary");
    reveal_strlit("metrics_json");
    reveal_strlit("TEXT NOT NULL DEFAULT '{}'");
    reveal_strlit("prior_revision_candidates_json");
    reveal_strlit("TEXT NOT NULL DEFAULT '[]'");
    reveal_strlit("artifact_json");
    reveal_strlit("created_at");
    reveal_strlit(" ");
    reveal_strlit(",\n");
    reveal_with_fuel(declared_from, 5);
    let all = BEHAVIORAL_CHANGE_REPORTS_COLUMNS@;
    assert(all.skip(267) =~= declared_from(columns, rules, 8));
    assert(all.skip(102) =~= declared_from(columns, rules, 4));
    assert(all =~= declared_from(columns, rules, 0));
}

/// The table `agent_traces` has these columns.
pub proof fn law_agent_traces_columns()
    ensures
        AGENT_TRACES_COLUMNS@ == declared_from(
            seq![
                ("trace_id"@, "TEXT PRIMARY KEY"@),
                ("run_id"@, "TEXT NOT NULL"@),
                ("agent"@, "TEXT NOT NULL DEFAULT ''"@),
                ("phase"@, "TEXT NOT NULL DEFAULT ''"@),
                ("input_summary"@, "TEXT NOT NULL DEFAULT ''"@),
                ("reasoning_steps"@, "TEXT NOT NULL DEFAULT '[]'"@),
                ("actions_taken"@, "TEXT NOT NULL DEFAULT '[]'"@),
                ("outcome"@, "TEXT NOT NULL DEFAULT ''"@),
                ("input_tokens"@, "INTEGER NOT NULL DEFAULT 0"@),
                ("output_tokens"@, "INTEGER NOT NULL DEFAULT 0"@),
                ("latency_ms"@, "INTEGER NOT NULL DEFAULT 0"@),
                ("created_at"@, "TEXT NOT NULL"@),
            ],
            Seq::empty(),
            0,
        ),
{
    let columns = seq![
        ("trace_id"@, "TEXT PRIMARY KEY"@),
        ("run_id"@, "TEXT NOT NULL"@),
        ("agent"@, "TEXT NOT NULL DEFAULT ''"@),
        ("phase"@, "TEXT NOT NULL DEFAULT ''"@),
        ("input_summary"@, "TEXT NOT NULL DEFAULT ''"@),
        ("reasoning_steps"@, "TEXT NOT NULL DEFAULT '[]'"@),
        ("actions_taken"@, "TEXT NOT NULL DEFAULT '[]'"@),
        ("outcome"@, "TEXT NOT NULL DEFAULT ''"@),
        ("input_tokens"@, "INTEGER NOT NULL DEFAULT 0"@),
        ("output_tokens"@, "INTEGER NOT NULL DEFAULT 0"@),
        ("latency_ms"@, "INTEGER NOT NULL DEFAULT 0"@),
        ("created_at"@, "TEXT NOT NULL"@),
    ];
    let rules = Seq::<Seq<char>>::empty();
    reveal_strlit(
        "trace_id TEXT PRIMARY KEY,\nrun_id TEXT NOT NULL,\nagent TEXT NOT NULL DEFAULT '',\nphase TEXT NOT NULL DEFAULT '',\ninput_summary TEXT NOT NULL DEFAULT '',\nreasoning_steps TEXT NOT NULL DEFAULT '[]',\nactions_taken TEXT NOT NULL DEFAULT '[]',\noutcome TEXT NOT NULL DEFAULT '',\ninput_tokens INTEGER NOT NULL DEFAULT 0,\noutput_tokens INTEGER NOT NULL DEFAULT 0,\nlatency_ms INTEGER NOT NULL DEFAULT 0,\ncreated_at TEXT NOT NULL",
    );
    reveal_strlit("trace_id");
    reveal_strlit("TEXT PRIMARY KEY");
    reveal_strlit("run_id");
    reveal_strlit("TEXT NOT NULL");
    reveal_strlit("agent");
    reveal_strlit("TEXT NOT NULL DEFAULT ''");
    reveal_strlit("phase");
    reveal_strlit("input_summary");
    reveal_strlit("reasoning_steps");
    reveal_strlit("TEXT NOT NULL DEFAULT '[]'");
    reveal_strlit("actions_taken");
    reveal_strlit("outcome");
    reveal_strlit("input_tokens");
    reveal_strlit("INTEGER NOT NULL DEFAULT 0");
    reveal_strlit("output_tokens");
    reveal_strlit("latency_ms");
    reveal_strlit("created_at");
    reveal_strlit(" ");
    reveal_strlit(",\n");
    reveal_with_fuel(declared_from, 5);
    let all = AGENT_TRACES_COLUMNS@;
    assert(all.skip(273) =~= declared_from(columns, rules, 8));
    assert(all.skip(113) =~= declared_from(columns, rules, 4));
    assert(all =~= declared_from(columns, rules, 0));
}

} // verus!
