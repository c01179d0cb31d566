use harkonnen::causal_graph::{
    CausalGraphBackend, CausalGraphConfig, CausalGraphProjectionSummary, Moment,
};
use harkonnen::db::{
    agent_contract_hash, agent_state_from_row, agent_state_with_blocks, backend_from_label,
    causal_graph_backend_label,
    causal_graph_projection_from_row, causal_graph_projections_from_rows,
    causal_graph_summaries_from_rows, contract_file_name, count_causal_graph_projections,
    get_agent_state, get_causal_graph_projection, hex_text, insert_coordination_policy_event,
    insert_lease_row, insert_policy_row, list_agent_state, list_causal_graph_projection_summaries,
    list_causal_graph_projections_for_spec, list_recent_causal_graph_projections,
    projection_record, projection_with, record_agent_stop_reason, seed_agent_state_from_profiles,
    sync_agent_runtime_state, sync_coordination_leases, update_agent_memory_block_ids,
    upsert_agent_state_from_runtime, upsert_causal_graph_projection, upsert_memory_blocks,
    upsert_profiled_agent, upsert_projection_values, AgentProfile,
    AgentRuntimeState, AgentState, AgentStateRow, Assignment, AssignmentsState,
    CoordinationPolicyEvent, DbFault, ProjectionRow, RunCausalGraph, SqlValue, Statement,
    COUNT_PROJECTIONS,
};
use harkonnen::schema::{lacks_column, schema_plan, step_sql, table_info_sql, SchemaStep};
use sqlx::Row;

const NOW: &str = "2026-05-12T11:59:00+00:00";

/// A state database in memory.
struct Database {
    runtime: tokio::runtime::Runtime,
    pool: sqlx::SqlitePool,
}

impl Database {
    fn open() -> Database {
        let runtime = tokio::runtime::Builder::new_current_thread()
            .enable_all()
            .build()
            .expect("runtime");
        let pool = runtime
            .block_on(
                sqlx::sqlite::SqlitePoolOptions::new()
                    .max_connections(1)
                    .connect("sqlite::memory:"),
            )
            .expect("database");
        Database { runtime, pool }
    }

    fn raw(&self, sql: &str) {
        self.runtime
            .block_on(sqlx::query(sql).execute(&self.pool))
            .expect("statement");
    }

    fn columns(&self, table: &str) -> Vec<String> {
        let sql = table_info_sql(table);
        let rows = self
            .runtime
            .block_on(sqlx::query(&sql).fetch_all(&self.pool))
            .expect("columns");
        rows.iter().map(|row| row.get::<String, _>("name")).collect()
    }

    fn init(&self, profiles: &Vec<AgentProfile>) {
        for step in schema_plan() {
            match step {
                SchemaStep::SeedAgentState => {
                    for statement in seed_agent_state_from_profiles(profiles, NOW) {
                        self.execute(&statement);
                    }
                }
                SchemaStep::AddColumn { table, column, .. } => {
                    if lacks_column(&self.columns(table), column) {
                        self.raw(&step_sql(&step).expect("statement"));
                    }
                }
                _ => self.raw(&step_sql(&step).expect("statement")),
            }
        }
    }

    fn execute(&self, statement: &Statement) {
        let mut query = sqlx::query(statement.sql);
        for value in &statement.values {
            query = match value {
                SqlValue::Text(text) => query.bind(text),
                SqlValue::MaybeText(text) => query.bind(text),
                SqlValue::Integer(number) => query.bind(number),
            };
        }
        self.runtime
            .block_on(query.execute(&self.pool))
            .expect("statement");
    }

    fn fetch(&self, statement: &Statement) -> Vec<sqlx::sqlite::SqliteRow> {
        let mut query = sqlx::query(statement.sql);
        for value in &statement.values {
            query = match value {
                SqlValue::Text(text) => query.bind(text),
                SqlValue::MaybeText(text) => query.bind(text),
                SqlValue::Integer(number) => query.bind(number),
            };
        }
        self.runtime
            .block_on(query.fetch_all(&self.pool))
            .expect("rows")
    }

    fn agent(&self, name: &str) -> Option<AgentState> {
        self.fetch(&get_agent_state(name)).into_iter().next().map(agent_row)
    }

    fn projections(&self, statement: &Statement) -> Vec<ProjectionRow> {
        self.fetch(statement).into_iter().map(projection_row).collect()
    }
}

fn agent_row(row: sqlx::sqlite::SqliteRow) -> AgentState {
    agent_state_from_row(AgentStateRow {
        agent_name: row.get("agent_name"),
        agent_role: row.get("agent_role"),
        llm_provider: row.get("llm_provider"),
        llm_model: row.get("llm_model"),
        memory_block_ids: row.get("memory_block_ids"),
        last_stop_reason: row.get("last_stop_reason"),
        last_active_run: row.get("last_active_run"),
        behavior_contract_hash: row.get("behavior_contract_hash"),
        updated_at: row.get("updated_at"),
    })
}

fn projection_row(row: sqlx::sqlite::SqliteRow) -> ProjectionRow {
    ProjectionRow {
        run_id: row.get("run_id"),
        backend: row.get("backend"),
        status: row.get("status"),
        database_name: row.get("database_name"),
        schema_path: row.get("schema_path"),
        graph_json: row.get("graph_json"),
        episode_count: row.get("episode_count"),
        event_count: row.get("event_count"),
        link_count: row.get("link_count"),
        hypothesis_count: row.get("hypothesis_count"),
        projected_at: row.get("projected_at"),
    }
}

fn runtime(role: &str, provider: Option<&str>, heartbeat: &str) -> AgentRuntimeState {
    AgentRuntimeState {
        runtime_id: format!("{role}#codex"),
        canonical_role: role.to_string(),
        display_name: "Mason".to_string(),
        ownership: "implementation".to_string(),
        status: "active".to_string(),
        provider: provider.map(|p| p.to_string()),
        surface: Some("local".to_string()),
        thread_id: Some("thread-agent-state".to_string()),
        source: "test".to_string(),
        last_heartbeat_at: heartbeat.to_string(),
    }
}

fn mason_profile() -> AgentProfile {
    AgentProfile {
        name: "mason".to_string(),
        role: "build_retriever".to_string(),
        model_override: None,
        provider_name: "codex".to_string(),
        provider_model: Some("codex-test-model".to_string()),
        contract: Some("invariants:\n  - persists uncertainty\n".as_bytes().to_vec()),
    }
}

fn block(key: &str, id: &str) -> Vec<(String, String)> {
    vec![(key.to_string(), id.to_string())]
}

#[test]
fn init_db_seeds_canonical_agent_state_and_runtime_sync_updates_last_run() {
    let database = Database::open();
    database.init(&vec![mason_profile()]);
    let mason = database.agent("mason").expect("mason state");
    assert_eq!(mason.agent_role, "build_retriever");
    assert_eq!(mason.llm_provider, "codex");
    assert_eq!(mason.llm_model, "codex-test-model");
    assert_eq!(
        mason.behavior_contract_hash.as_deref().map(str::len),
        Some(64)
    );
    assert!(mason.last_active_run.is_none());

    let sync = sync_agent_runtime_state(
        "run-agent-state",
        &vec![AgentRuntimeState {
            runtime_id: "mason#codex".to_string(),
            canonical_role: "mason".to_string(),
            display_name: "Mason".to_string(),
            ownership: "implementation".to_string(),
            status: "active".to_string(),
            provider: Some("codex".to_string()),
            surface: Some("local".to_string()),
            thread_id: Some("thread-agent-state".to_string()),
            source: "test".to_string(),
            last_heartbeat_at: "2026-05-12T12:00:00Z".to_string(),
        }],
        NOW,
    );
    for statement in sync.transaction.iter().chain(&sync.afterwards) {
        database.execute(statement);
    }

    let mason = database.agent("mason").expect("mason state");
    assert_eq!(mason.last_active_run.as_deref(), Some("run-agent-state"));
    assert_eq!(mason.updated_at, "2026-05-12T12:00:00Z");
}

#[test]
fn update_agent_memory_block_ids_merges_existing_blocks() {
    let database = Database::open();
    database.init(&Vec::new());

    for (key, id) in [
        ("recalled_lessons", "runs/run-1/mason_briefing.json#block=recalled_lessons"),
        ("open_checks", "runs/run-2/mason_briefing.json#block=open_checks"),
    ] {
        let statement =
            update_agent_memory_block_ids("mason", database.agent("mason"), &block(key, id), NOW)
                .expect("block update")
                .expect("something new");
        database.execute(&statement);
    }

    let mason = database.agent("mason").expect("mason state");
    assert_eq!(mason.memory_block_ids.len(), 2);
    let get = |key: &str| {
        mason
            .memory_block_ids
            .iter()
            .find(|(name, _)| name == key)
            .map(|(_, id)| id.as_str())
    };
    assert_eq!(
        get("recalled_lessons"),
        Some("runs/run-1/mason_briefing.json#block=recalled_lessons")
    );
    assert_eq!(
        get("open_checks"),
        Some("runs/run-2/mason_briefing.json#block=open_checks")
    );
    assert_eq!(mason.llm_provider, "unknown");
    assert_eq!(mason.memory_block_ids[0].0, "open_checks");
}

#[test]
fn the_schema_can_be_put_in_again_and_again() {
    let database = Database::open();
    database.init(&Vec::new());
    let before = database.columns("memory_updates");
    database.init(&Vec::new());
    assert_eq!(database.columns("memory_updates"), before);
    assert_eq!(schema_plan().len(), 109);
}

#[test]
fn an_older_database_gets_the_missing_columns() {
    let database = Database::open();
    database.raw("CREATE TABLE run_events (event_id INTEGER PRIMARY KEY, run_id TEXT)");
    database.raw("CREATE TABLE memory_updates (update_id TEXT PRIMARY KEY, old_memory_id TEXT, created_at TEXT)");
    database.init(&Vec::new());
    assert!(database.columns("run_events").contains(&"episode_id".to_string()));
    let columns = database.columns("memory_updates");
    for column in ["memory_root", "review_status", "reviewed_by", "review_note", "reviewed_at"] {
        assert!(columns.contains(&column.to_string()), "{column}");
    }
}

#[test]
fn every_step_is_a_statement_but_the_seed() {
    for step in schema_plan() {
        match step {
            SchemaStep::SeedAgentState => assert_eq!(step_sql(&step), None),
            SchemaStep::CreateTable { table, columns } => assert_eq!(
                step_sql(&step),
                Some(format!("CREATE TABLE IF NOT EXISTS {table} (\n{columns}\n)"))
            ),
            SchemaStep::CreateIndex { index, unique, table, columns } => assert_eq!(
                step_sql(&step),
                Some(format!(
                    "CREATE {}INDEX IF NOT EXISTS {index} ON {table} ({columns})",
                    if unique { "UNIQUE " } else { "" }
                ))
            ),
            SchemaStep::AddColumn { table, column, kind } => assert_eq!(
                step_sql(&step),
                Some(format!("ALTER TABLE {table} ADD COLUMN {column} {kind}"))
            ),
        }
    }
    assert_eq!(table_info_sql("runs"), "PRAGMA table_info(runs)");
    assert!(lacks_column(&vec!["a".to_string()], "b"));
    assert!(!lacks_column(&vec!["a".to_string(), "b".to_string()], "b"));
}

#[test]
fn an_unknown_provider_does_not_displace_a_known_one() {
    let database = Database::open();
    database.init(&vec![mason_profile()]);
    for provider in [None, Some("  ")] {
        let statement =
            upsert_agent_state_from_runtime("run-2", &runtime(" mason ", provider, " "), NOW)
                .expect("a role");
        assert_eq!(statement.values[2], SqlValue::Text("unknown".to_string()));
        database.execute(&statement);
        let mason = database.agent("mason").expect("mason state");
        assert_eq!(mason.llm_provider, "codex");
        assert_eq!(mason.last_active_run.as_deref(), Some("run-2"));
        assert_eq!(mason.updated_at, NOW);
    }
    database.execute(
        &upsert_agent_state_from_runtime("run-3", &runtime("mason", Some("gemini"), "t"), NOW)
            .expect("a role"),
    );
    assert_eq!(database.agent("mason").expect("mason state").llm_provider, "gemini");
    assert_eq!(upsert_agent_state_from_runtime("run-2", &runtime(" \t", None, ""), NOW), None);
}

#[test]
fn an_agent_keeps_why_it_stopped() {
    let database = Database::open();
    database.init(&vec![mason_profile()]);
    database.execute(&record_agent_stop_reason("mason", "done", "later"));
    let mason = database.agent("mason").expect("mason state");
    assert_eq!(mason.last_stop_reason.as_deref(), Some("done"));
    assert_eq!(mason.updated_at, "later");
    assert_eq!(database.fetch(&list_agent_state()).len(), 1);
    assert!(database.agent("nobody").is_none());
}

#[test]
fn a_profile_decides_the_model() {
    let mut profile = mason_profile();
    let model = |profile: &AgentProfile| {
        match &seed_agent_state_from_profiles(&vec![profile.clone()], NOW)[0].values[3] {
            SqlValue::Text(model) => model.clone(),
            other => panic!("{other:?}"),
        }
    };
    assert_eq!(model(&profile), "codex-test-model");
    profile.model_override = Some("own".to_string());
    assert_eq!(model(&profile), "own");
    profile.model_override = None;
    profile.provider_model = None;
    assert_eq!(model(&profile), "unresolved");
    profile.contract = None;
    assert_eq!(
        seed_agent_state_from_profiles(&vec![profile], NOW)[0].values[4],
        SqlValue::MaybeText(None)
    );
    assert!(seed_agent_state_from_profiles(&Vec::new(), NOW).is_empty());
}

#[test]
fn a_contract_is_known_by_its_digest() {
    assert_eq!(
        agent_contract_hash(&Some(b"abc".to_vec())).as_deref(),
        Some("ba7816bf8f01cfea414140de5dae2223b00361a396177a9cb410ff61f20015ad")
    );
    assert_eq!(
        agent_contract_hash(&Some(Vec::new())).as_deref(),
        Some("e3b0c44298fc1c149afbf4c8996fb92427ae41e4649b934ca495991b7852b855")
    );
    assert_eq!(agent_contract_hash(&None), None);
    assert_eq!(hex_text(&vec![0, 15, 16, 255]), "000f10ff");
    assert_eq!(contract_file_name("mason"), "mason.yaml");
}

#[test]
fn new_memory_takes_the_place_of_old() {
    let mut state = agent_state_from_row(AgentStateRow {
        agent_name: "mason".to_string(),
        agent_role: "r".to_string(),
        llm_provider: "p".to_string(),
        llm_model: "m".to_string(),
        memory_block_ids: "{\"b\":\"old\",\"a\":\"1\"}".to_string(),
        last_stop_reason: None,
        last_active_run: None,
        behavior_contract_hash: None,
        updated_at: "t".to_string(),
    });
    assert_eq!(
        state.memory_block_ids,
        vec![("a".to_string(), "1".to_string()), ("b".to_string(), "old".to_string())]
    );
    let statement = update_agent_memory_block_ids("mason", Some(state.clone()), &block("b", "n\"w"), NOW)
        .expect("writable")
        .expect("something new");
    assert_eq!(
        statement.values,
        vec![
            SqlValue::Text("mason".to_string()),
            SqlValue::Text("{\"a\":\"1\",\"b\":\"n\\\"w\"}".to_string()),
            SqlValue::Text(NOW.to_string()),
        ]
    );
    assert_eq!(
        update_agent_memory_block_ids("mason", Some(state.clone()), &Vec::new(), NOW),
        Ok(None)
    );
    state = agent_state_from_row(AgentStateRow {
        agent_name: "mason".to_string(),
        agent_role: "r".to_string(),
        llm_provider: "p".to_string(),
        llm_model: "m".to_string(),
        memory_block_ids: "not json".to_string(),
        last_stop_reason: None,
        last_active_run: None,
        behavior_contract_hash: None,
        updated_at: "t".to_string(),
    });
    assert!(state.memory_block_ids.is_empty());
}

#[test]
fn the_agents_of_a_run_are_replaced() {
    let database = Database::open();
    database.init(&Vec::new());
    for heartbeat in ["2026-05-12T12:00:00Z", " "] {
        let sync = sync_agent_runtime_state(
            "run-1",
            &vec![runtime("mason", Some("codex"), heartbeat), runtime("", None, "t")],
            NOW,
        );
        assert_eq!(sync.transaction.len(), 3);
        assert_eq!(sync.afterwards.len(), 1);
        for statement in sync.transaction.iter().chain(&sync.afterwards) {
            database.execute(statement);
        }
    }
    let rows = database.fetch(&Statement {
        sql: "SELECT started_at, updated_at, last_heartbeat_at, surface FROM agent_runtime_state WHERE runtime_id = 'mason#codex'",
        values: Vec::new(),
    });
    assert_eq!(rows.len(), 1);
    assert_eq!(rows[0].get::<String, _>("started_at"), NOW);
    assert_eq!(rows[0].get::<String, _>("updated_at"), " ");
    assert_eq!(rows[0].get::<String, _>("last_heartbeat_at"), " ");
    assert_eq!(rows[0].get::<Option<String>, _>("surface").as_deref(), Some("local"));
}

fn assignment(agent: &str) -> Assignment {
    Assignment {
        agent: agent.to_string(),
        task: "task".to_string(),
        files: vec!["a \"b\"".to_string(), "c".to_string()],
        claimed_at: "c".to_string(),
        last_heartbeat_at: "h".to_string(),
        status: "active".to_string(),
        resource_kind: "file".to_string(),
        ttl_secs: 30,
        guardrails: Vec::new(),
        expires_at: "e".to_string(),
    }
}

#[test]
fn leases_are_replaced_as_a_whole() {
    let database = Database::open();
    database.init(&Vec::new());
    for agents in [vec!["mason", "scout"], vec!["piper"]] {
        let state = AssignmentsState {
            active: agents.iter().map(|a| assignment(a)).collect(),
            updated_at: "u".to_string(),
        };
        let statements = sync_coordination_leases(&state).expect("writable");
        assert_eq!(statements.len(), agents.len() + 1);
        assert_eq!(statements[0].sql, "DELETE FROM coordination_leases");
        for statement in &statements {
            database.execute(statement);
        }
    }
    let rows = database.fetch(&Statement {
        sql: "SELECT agent, files_json, guardrails_json, ttl_secs, updated_at FROM coordination_leases",
        values: Vec::new(),
    });
    assert_eq!(rows.len(), 1);
    assert_eq!(rows[0].get::<String, _>("agent"), "piper");
    assert_eq!(rows[0].get::<String, _>("files_json"), "[\"a \\\"b\\\"\",\"c\"]");
    assert_eq!(rows[0].get::<String, _>("guardrails_json"), "[]");
    assert_eq!(rows[0].get::<i64, _>("ttl_secs"), 30);
    assert_eq!(rows[0].get::<String, _>("updated_at"), "u");
}

#[test]
fn a_policy_event_takes_the_place_of_one_with_its_id() {
    let database = Database::open();
    database.init(&Vec::new());
    for message in ["first", "second"] {
        let event = CoordinationPolicyEvent {
            event_id: "e1".to_string(),
            managed_by: "keeper".to_string(),
            event_type: "conflict".to_string(),
            status: "open".to_string(),
            agent: Some("mason".to_string()),
            conflicting_agent: None,
            files: vec!["x".to_string()],
            message: message.to_string(),
            created_at: "t".to_string(),
        };
        database.execute(&insert_coordination_policy_event(&event).expect("writable"));
    }
    let rows = database.fetch(&Statement {
        sql: "SELECT message, agent, conflicting_agent, files_json FROM coordination_policy_events_db",
        values: Vec::new(),
    });
    assert_eq!(rows.len(), 1);
    assert_eq!(rows[0].get::<String, _>("message"), "second");
    assert_eq!(rows[0].get::<Option<String>, _>("agent").as_deref(), Some("mason"));
    assert_eq!(rows[0].get::<Option<String>, _>("conflicting_agent"), None);
    assert_eq!(rows[0].get::<String, _>("files_json"), "[\"x\"]");
}

fn graph_config() -> CausalGraphConfig {
    CausalGraphConfig {
        backend: CausalGraphBackend::TypeDb3,
        enabled: true,
        url: "localhost:1729".to_string(),
        database: "harkonnen_semantic".to_string(),
        schema_path: "schema.tql".to_string(),
        reasoning_mode: "function_backed".to_string(),
    }
}

fn graph(run_id: &str) -> RunCausalGraph {
    RunCausalGraph {
        run_id: run_id.to_string(),
        graph_json: "{\"episodes\":[1,2],\"run_id\":\"x\"}".to_string(),
        episodes: 2,
        events: 3,
        links: 4,
        hypotheses: 5,
    }
}

#[test]
fn a_projection_is_read_back_as_it_was_kept() {
    let database = Database::open();
    database.init(&Vec::new());
    let moment = Moment { seconds: 1_778_587_200, nanos: 123_000_000 };
    let record = projection_record(&graph("run-1"), &graph_config(), moment);
    let statement = upsert_causal_graph_projection(&record).expect("writable");
    assert_eq!(statement.values[1], SqlValue::Text("typedb3".to_string()));
    assert_eq!(
        statement.values[10],
        SqlValue::Text("2026-05-12T12:00:00.123+00:00".to_string())
    );
    database.execute(&statement);
    database.execute(&statement);

    let rows = database.projections(&get_causal_graph_projection("run-1"));
    assert_eq!(rows.len(), 1);
    let read = causal_graph_projection_from_row(rows[0].clone()).expect("readable");
    assert_eq!(read, record);
    assert_eq!(read.status, "sqlite_projection");

    let count = database.fetch(&Statement { sql: COUNT_PROJECTIONS, values: Vec::new() });
    assert_eq!(count_causal_graph_projections(count[0].get::<i64, _>(0)), 1);
    assert_eq!(count_causal_graph_projections(-1), 0);
}

#[test]
fn projections_are_listed_latest_first() {
    let database = Database::open();
    database.init(&Vec::new());
    database.raw("INSERT INTO runs VALUES ('run-1', 'spec', 'p', 's', 'c', 'u')");
    for (run, seconds) in [("run-1", 100), ("run-2", 200)] {
        let record =
            projection_record(&graph(run), &graph_config(), Moment { seconds, nanos: 0 });
        database.execute(&upsert_causal_graph_projection(&record).expect("writable"));
    }
    let ids = |statement: &Statement| -> Vec<String> {
        causal_graph_projections_from_rows(database.projections(statement))
            .expect("readable")
            .into_iter()
            .map(|record| record.run_id)
            .collect()
    };
    assert_eq!(ids(&list_recent_causal_graph_projections(9)), vec!["run-2", "run-1"]);
    assert_eq!(ids(&list_recent_causal_graph_projections(0)), vec!["run-2"]);
    assert_eq!(ids(&list_causal_graph_projections_for_spec("spec", 9)), vec!["run-1"]);
    assert!(ids(&list_causal_graph_projections_for_spec("other", 9)).is_empty());

    let statement = list_causal_graph_projection_summaries(9);
    let records =
        causal_graph_projections_from_rows(database.projections(&statement)).expect("readable");
    let summaries =
        causal_graph_summaries_from_rows(database.projections(&statement)).expect("readable");
    assert_eq!(summaries.len(), 2);
    for (summary, record) in summaries.iter().zip(&records) {
        assert_eq!(*summary, CausalGraphProjectionSummary::from(record));
    }
}

fn row() -> ProjectionRow {
    ProjectionRow {
        run_id: "run-1".to_string(),
        backend: "type_db3".to_string(),
        status: "s".to_string(),
        database_name: "d".to_string(),
        schema_path: "p".to_string(),
        graph_json: "{ \"b\" : [ 1 ] , \"a\" : null }".to_string(),
        episode_count: -4,
        event_count: 3,
        link_count: 0,
        hypothesis_count: i64::MIN,
        projected_at: "1970-01-01T01:00:00.000000001+01:00".to_string(),
    }
}

#[test]
fn a_row_is_read_with_its_oddities() {
    let record = causal_graph_projection_from_row(row()).expect("readable");
    assert_eq!(record.backend, CausalGraphBackend::TypeDb3);
    assert_eq!(record.graph_json, "{\"a\":null,\"b\":[1]}");
    assert_eq!((record.episode_count, record.event_count), (0, 3));
    assert_eq!((record.link_count, record.hypothesis_count), (0, 0));
    assert_eq!(record.projected_at, Moment { seconds: 0, nanos: 1 });
}

#[test]
fn a_row_that_cannot_be_read_spoils_them_all() {
    let mut no_moment = row();
    no_moment.projected_at = "yesterday".to_string();
    no_moment.graph_json = "{".to_string();
    let error = causal_graph_projection_from_row(no_moment.clone()).unwrap_err();
    assert!(matches!(error, DbFault::ReadMoment { .. }));
    assert!(!error.message().is_empty());
    let mut no_graph = row();
    no_graph.graph_json = "{".to_string();
    let error = causal_graph_projection_from_row(no_graph.clone()).unwrap_err();
    assert!(matches!(error, DbFault::ReadJson { .. }));
    assert!(error.message().contains("EOF"));
    let error =
        causal_graph_projections_from_rows(vec![row(), no_graph.clone(), no_moment]).unwrap_err();
    assert!(matches!(error, DbFault::ReadJson { .. }));
    assert!(causal_graph_summaries_from_rows(vec![no_graph]).is_err());
    assert_eq!(causal_graph_projections_from_rows(Vec::new()), Ok(Vec::new()));
}

#[test]
fn a_moment_outside_the_calendar_cannot_be_written() {
    let moment = Moment { seconds: i64::MAX, nanos: 0 };
    let record = projection_record(&graph("run-1"), &graph_config(), moment);
    let error = upsert_causal_graph_projection(&record).unwrap_err();
    assert_eq!(error, DbFault::WriteMoment);
    assert_eq!(error.message(), "the moment lies outside the calendar");
    assert_eq!(DbFault::WriteJson { cause: "c".to_string() }.message(), "c");
}

#[test]
fn backends_are_found_again_under_their_names() {
    for backend in [CausalGraphBackend::TypeDb3, CausalGraphBackend::Disabled] {
        assert_eq!(backend_from_label(causal_graph_backend_label(&backend)), backend);
    }
    assert_eq!(backend_from_label("type_db3"), CausalGraphBackend::TypeDb3);
    assert_eq!(backend_from_label("TypeDB3"), CausalGraphBackend::Disabled);
}

fn text(value: &str) -> SqlValue {
    SqlValue::Text(value.to_string())
}

#[test]
fn a_lease_row_holds_the_lists_as_they_are_given() {
    let statement = insert_lease_row(&assignment("mason"), "F".to_string(), "G".to_string(), "now");
    assert_eq!(
        statement.values,
        vec![
            text("mason"),
            text("task"),
            text("F"),
            text("c"),
            text("h"),
            text("active"),
            text("file"),
            SqlValue::Integer(30),
            text("G"),
            text("e"),
            text("now"),
        ]
    );
}

#[test]
fn a_policy_row_holds_the_files_as_they_are_given() {
    let event = CoordinationPolicyEvent {
        event_id: "e1".to_string(),
        managed_by: "keeper".to_string(),
        event_type: "conflict".to_string(),
        status: "open".to_string(),
        agent: Some("mason".to_string()),
        conflicting_agent: None,
        files: Vec::new(),
        message: "m".to_string(),
        created_at: "t".to_string(),
    };
    assert_eq!(
        insert_policy_row(&event, "F".to_string()).values,
        vec![
            text("e1"),
            text("keeper"),
            text("conflict"),
            text("open"),
            SqlValue::MaybeText(Some("mason".to_string())),
            SqlValue::MaybeText(None),
            text("F"),
            text("m"),
            text("t"),
        ]
    );
}

#[test]
fn an_agent_row_holds_the_memory_and_the_digest_as_they_are_given() {
    assert_eq!(
        upsert_memory_blocks("mason", "P".to_string(), "now").values,
        vec![text("mason"), text("P"), text("now")]
    );
    let profiled = upsert_profiled_agent(&mason_profile(), Some("D".to_string()), "now");
    assert!(profiled.values.contains(&SqlValue::MaybeText(Some("D".to_string()))));
    assert!(profiled.values.contains(&text("build_retriever")));
    let row = AgentStateRow {
        agent_name: "mason".to_string(),
        agent_role: "role".to_string(),
        llm_provider: "p".to_string(),
        llm_model: "m".to_string(),
        memory_block_ids: "{".to_string(),
        last_stop_reason: None,
        last_active_run: Some("run".to_string()),
        behavior_contract_hash: None,
        updated_at: "u".to_string(),
    };
    let state = agent_state_with_blocks(row.clone(), block("core", "id-1"));
    assert_eq!(state.memory_block_ids, block("core", "id-1"));
    assert_eq!(state.last_active_run.as_deref(), Some("run"));
    assert!(agent_state_from_row(row).memory_block_ids.is_empty());
}

#[test]
fn a_projection_row_holds_the_moment_and_the_graph_as_they_are_given() {
    let moment = Moment { seconds: 5, nanos: 6 };
    let record = projection_with(row(), "G".to_string(), moment);
    assert_eq!(record.graph_json, "G");
    assert_eq!(record.projected_at, Moment { seconds: 5, nanos: 6 });
    assert_eq!(record.database, "d");
    assert_eq!((record.episode_count, record.event_count), (0, 3));
    let statement = upsert_projection_values(&record, "T".to_string());
    assert_eq!(
        statement.values,
        vec![
            text("run-1"),
            text(causal_graph_backend_label(&CausalGraphBackend::TypeDb3)),
            text("s"),
            text("d"),
            text("p"),
            text("G"),
            SqlValue::Integer(0),
            SqlValue::Integer(3),
            SqlValue::Integer(0),
            SqlValue::Integer(0),
            text("T"),
        ]
    );
}

#[test]
fn a_second_start_keeps_what_agents_remember() {
    let database = Database::open();
    database.init(&vec![mason_profile()]);
    let other = AgentProfile { name: "scout".to_string(), ..mason_profile() };
    database.init(&vec![other]);
    database.execute(&upsert_memory_blocks("mason", "{\"core\":\"id-1\"}".to_string(), NOW));
    database.execute(&record_agent_stop_reason("mason", "done", NOW));
    let scout = database.agent("scout").expect("scout state");

    let mut profile = mason_profile();
    profile.role = "builder".to_string();
    profile.model_override = Some("chosen-model".to_string());
    profile.contract = None;
    database.init(&vec![profile]);

    let mason = database.agent("mason").expect("mason state");
    assert_eq!(mason.memory_block_ids, block("core", "id-1"));
    assert_eq!(mason.last_stop_reason.as_deref(), Some("done"));
    assert_eq!(mason.last_active_run, None);
    assert_eq!(mason.agent_role, "builder");
    assert_eq!(mason.llm_model, "chosen-model");
    assert_eq!(mason.behavior_contract_hash, None);
    assert_eq!(database.agent("scout"), Some(scout));
    assert_eq!(database.fetch(&list_agent_state()).len(), 2);
}

#[test]
fn no_step_takes_anything_away() {
    for step in schema_plan() {
        if let Some(sql) = step_sql(&step) {
            assert!(
                sql.starts_with("CREATE TABLE IF NOT EXISTS ")
                    || sql.starts_with("CREATE INDEX IF NOT EXISTS ")
                    || sql.starts_with("CREATE UNIQUE INDEX IF NOT EXISTS ")
                    || (sql.starts_with("ALTER TABLE ") && sql.contains(" ADD COLUMN ")),
                "{sql}"
            );
        }
    }
}

#[test]
fn the_last_profile_of_an_agent_counts() {
    let database = Database::open();
    let later = AgentProfile { role: "second".to_string(), ..mason_profile() };
    database.init(&vec![mason_profile(), later]);
    assert_eq!(database.agent("mason").expect("mason state").agent_role, "second");
    assert_eq!(database.fetch(&list_agent_state()).len(), 1);
}
