use harkonnen::causal_graph::{
    address_fault_text, check_address, choose_store, connect_next, connected_answer,
    schema_is_present, wants_connection, CausalGraphBackend, CausalGraphConfig, CausalGraphProjectionRecord,
    CausalGraphProjectionSummary, CausalGraphQuery, CausalGraphStatus, ConnectOutcome,
    ConnectStage, Moment, NoopCausalGraphStore, ProbeOutcome, StageOutcome, StoreChoice,
    TypeDbConfig, CONNECTED_NOTE, CONNECT_TIMEOUT_SECONDS, DISABLED_NOTE,
    SCHEMA_PRESENCE_CHECK_TQL, UNAVAILABLE_NOTE,
};

fn config(backend: CausalGraphBackend, enabled: bool) -> CausalGraphConfig {
    CausalGraphConfig {
        backend,
        enabled,
        url: "localhost:1729".to_string(),
        database: "harkonnen_semantic".to_string(),
        schema_path: "factory/coobie_semantic/typedb/schema.tql".to_string(),
        reasoning_mode: "function_backed".to_string(),
    }
}

fn question() -> CausalGraphQuery {
    CausalGraphQuery {
        question: "what caused recent failures?".to_string(),
        run_id: None,
        spec_id: None,
        limit: 5,
    }
}

fn failed(cause: &str) -> StageOutcome {
    StageOutcome::Failed(cause.to_string())
}

#[test]
fn build_store_returns_noop_when_disabled() {
    let config = config(CausalGraphBackend::Disabled, false);
    assert!(!wants_connection(&config));
    let store = NoopCausalGraphStore::new(config);
    let result = store.query(question());

    assert_eq!(result.status, CausalGraphStatus::Disabled);
    assert_eq!(result.note.as_deref(), Some(DISABLED_NOTE));
}

#[test]
fn noop_graph_reports_unavailable_when_typedb_configured() {
    let store = NoopCausalGraphStore::new(config(CausalGraphBackend::TypeDb3, true));
    let result = store.query(question());

    assert_eq!(result.status, CausalGraphStatus::Unavailable);
    assert_eq!(result.backend, CausalGraphBackend::TypeDb3);
    assert!(result.hits.is_empty());
    assert_eq!(result.note.as_deref(), Some(UNAVAILABLE_NOTE));
    assert_eq!(result.query, "what caused recent failures?");
    assert_eq!(result.database, "harkonnen_semantic");
    assert_eq!(store.config().url, "localhost:1729");
}

#[test]
fn a_connection_that_fails_or_hangs_falls_back() {
    assert_eq!(choose_store(ConnectOutcome::Connected), (StoreChoice::TypeDb, None));
    assert_eq!(
        choose_store(ConnectOutcome::Failed("no route".to_string())),
        (
            StoreChoice::Noop,
            Some(
                "TypeDB causal graph unavailable (no route); falling back to SQLite/memory retrieval"
                    .to_string()
            )
        )
    );
    let (choice, warning) = choose_store(ConnectOutcome::TimedOut);
    assert_eq!(choice, StoreChoice::Noop);
    assert_eq!(
        warning,
        Some(format!(
            "TypeDB causal graph connect timed out after {CONNECT_TIMEOUT_SECONDS}s; falling back \
             to SQLite/memory retrieval"
        ))
    );
}

#[test]
fn a_connected_graph_says_so() {
    let config = config(CausalGraphBackend::TypeDb3, true);
    let result = connected_answer(&config, question());
    assert_eq!(result.status, CausalGraphStatus::Ready);
    assert_eq!(result.note.as_deref(), Some(CONNECTED_NOTE));
    assert!(result.hits.is_empty());
}

#[test]
fn a_new_database_gets_the_schema() {
    let config = config(CausalGraphBackend::TypeDb3, true);
    let stage = connect_next(&config, ConnectStage::Open, StageOutcome::Yes).unwrap();
    assert_eq!(stage, ConnectStage::Find);
    let stage = connect_next(&config, stage, StageOutcome::No).unwrap();
    assert_eq!(stage, ConnectStage::Create);
    let stage = connect_next(&config, stage, StageOutcome::Yes).unwrap();
    assert_eq!(stage, ConnectStage::Deploy { repair: false });
    let stage = connect_next(&config, stage, StageOutcome::Yes).unwrap();
    assert_eq!(stage, ConnectStage::Connected { deployed: true });
    assert_eq!(connect_next(&config, stage, StageOutcome::No), Ok(stage));
}

#[test]
fn a_database_without_the_schema_is_repaired() {
    let config = config(CausalGraphBackend::TypeDb3, true);
    let stage = connect_next(&config, ConnectStage::Find, StageOutcome::Yes).unwrap();
    assert_eq!(stage, ConnectStage::Probe);
    assert_eq!(schema_is_present(ProbeOutcome::Refused), Ok(false));
    assert_eq!(schema_is_present(ProbeOutcome::Rows(0)), Ok(false));
    assert_eq!(
        connect_next(&config, stage, StageOutcome::No),
        Ok(ConnectStage::Deploy { repair: true })
    );
    assert_eq!(schema_is_present(ProbeOutcome::Rows(1)), Ok(true));
    assert_eq!(
        connect_next(&config, stage, StageOutcome::Yes),
        Ok(ConnectStage::Connected { deployed: false })
    );
    assert_eq!(SCHEMA_PRESENCE_CHECK_TQL, "match $e sub episode; select $e; limit 1;");
}

#[test]
fn each_failure_to_connect_has_its_wording() {
    let config = config(CausalGraphBackend::TypeDb3, true);
    let next = |stage| connect_next(&config, stage, failed("gone")).unwrap_err();
    assert_eq!(next(ConnectStage::Open), "connecting to TypeDB at localhost:1729: gone");
    assert_eq!(next(ConnectStage::Find), "checking TypeDB database 'harkonnen_semantic': gone");
    assert_eq!(next(ConnectStage::Create), "creating TypeDB database 'harkonnen_semantic': gone");
    assert_eq!(next(ConnectStage::Probe), "gone");
    assert_eq!(next(ConnectStage::Deploy { repair: true }), "gone");
    assert_eq!(
        schema_is_present(ProbeOutcome::NotOpened("gone".to_string())).unwrap_err(),
        "opening TypeDB read transaction for schema presence check: gone"
    );
    assert_eq!(
        schema_is_present(ProbeOutcome::RowFailed("gone".to_string())).unwrap_err(),
        "reading schema presence check row: gone"
    );
}

#[test]
fn an_address_needs_a_port() {
    let mut config = config(CausalGraphBackend::TypeDb3, true);
    assert_eq!(check_address(&config), None);
    config.url = "localhost".to_string();
    let told = check_address(&config).expect("no port");
    let error = typedb_driver::Addresses::try_from_address_str("localhost").unwrap_err();
    assert_eq!(told, format!("parsing TypeDB address 'localhost': {error}: {error}"));
}

#[test]
fn an_unusable_address_is_told_with_the_whole_chain_of_errors() {
    for url in ["localhost", "not an address", ""] {
        let mut config = config(CausalGraphBackend::TypeDb3, true);
        config.url = url.to_string();
        let error = typedb_driver::Addresses::try_from_address_str(url).unwrap_err();
        let chain = anyhow::Error::from(error).context(format!("parsing TypeDB address '{url}'"));
        assert_eq!(check_address(&config), Some(format!("{chain:#}")));
    }
}

#[test]
fn the_wording_of_an_address_names_the_error_and_the_one_behind_it() {
    let config = config(CausalGraphBackend::TypeDb3, true);
    let start = format!("parsing TypeDB address '{}': ", config.url);
    assert_eq!(address_fault_text(&config, "E", None), format!("{start}E"));
    assert_eq!(address_fault_text(&config, "E", Some("S".to_string())), format!("{start}E: S"));
}

#[test]
fn the_configuration_follows_the_installation() {
    let mut given = TypeDbConfig {
        enabled: true,
        url: "u".to_string(),
        database: "d".to_string(),
        schema_path: "s".to_string(),
        reasoning_mode: "r".to_string(),
    };
    let config = CausalGraphConfig::from(&given);
    assert_eq!(config.backend, CausalGraphBackend::TypeDb3);
    assert!(config.enabled);
    assert_eq!(
        (config.url.as_str(), config.database.as_str()),
        ("u", "d")
    );
    assert_eq!(
        (config.schema_path.as_str(), config.reasoning_mode.as_str()),
        ("s", "r")
    );
    given.enabled = false;
    assert_eq!(CausalGraphConfig::from(&given).backend, CausalGraphBackend::Disabled);
    assert_eq!(config.clone(), config);
}

#[test]
fn a_summary_is_the_record_without_its_graph() {
    let record = CausalGraphProjectionRecord {
        run_id: "run-1".to_string(),
        backend: CausalGraphBackend::TypeDb3,
        status: "sqlite_projection".to_string(),
        database: "db".to_string(),
        schema_path: "schema".to_string(),
        graph_json: "{}".to_string(),
        episode_count: 1,
        event_count: 2,
        link_count: 3,
        hypothesis_count: 4,
        projected_at: Moment { seconds: 5, nanos: 6 },
    };
    let summary = CausalGraphProjectionSummary::from(&record);
    assert_eq!(
        summary,
        CausalGraphProjectionSummary {
            run_id: "run-1".to_string(),
            backend: CausalGraphBackend::TypeDb3,
            status: "sqlite_projection".to_string(),
            database: "db".to_string(),
            schema_path: "schema".to_string(),
            episode_count: 1,
            event_count: 2,
            link_count: 3,
            hypothesis_count: 4,
            projected_at: Moment { seconds: 5, nanos: 6 },
        }
    );
}
