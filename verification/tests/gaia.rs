use harkonnen::gaia::{
    count_roles, dataset_records, evaluate, excerpt, get_override, limit_setting, measure,
    named_task, normalize_answer, normalize_role, reason_for_output, record_problem_text,
    render_markdown, render_step_stdout, resolve_dataset_path, routed_roles_for_task,
    status_for_output, threshold_failure, BenchmarkStatus, GaiaMetrics, GaiaRunOutput,
    GaiaSummary, GaiaTask, GaiaToolStep, RoleCount, NO_DATASET, REPORT_FILE, SUMMARY_FILE,
    SUMMARY_SCHEMA,
};

fn task(id: &str, level: u8, expected: &str, predicted: Option<&str>, roles: &[&str]) -> GaiaTask {
    GaiaTask {
        task_id: id.to_string(),
        level,
        question: format!("question of {id}"),
        expected_answer: expected.to_string(),
        predicted_answer: predicted.map(|p| p.to_string()),
        required_roles: roles.iter().map(|r| r.to_string()).collect(),
        tool_steps: Vec::new(),
    }
}

fn step(role: &str) -> GaiaToolStep {
    GaiaToolStep {
        role: role.to_string(),
        tool: "memory_pull".to_string(),
        input: String::new(),
        output: String::new(),
    }
}

#[test]
fn routed_roles_merge_required_roles_and_tool_steps() {
    let task = GaiaTask {
        task_id: "gaia-test".to_string(),
        level: 3,
        question: String::new(),
        expected_answer: "answer".to_string(),
        predicted_answer: None,
        required_roles: vec!["Scout".to_string(), "Piper".to_string()],
        tool_steps: vec![GaiaToolStep {
            role: "Coobie".to_string(),
            tool: "memory_pull".to_string(),
            input: String::new(),
            output: String::new(),
        }],
    };

    assert_eq!(
        routed_roles_for_task(&task),
        vec![
            "coobie".to_string(),
            "piper".to_string(),
            "scout".to_string()
        ]
    );
}

#[test]
fn render_step_stdout_includes_metrics_and_artifacts() {
    let output = GaiaRunOutput {
        output_dir: "/tmp/gaia".to_string(),
        summary_path: "/tmp/gaia/gaia_level3_summary.json".to_string(),
        markdown_path: "/tmp/gaia/gaia_level3_report.md".to_string(),
        metrics: GaiaMetrics {
            total_tasks: 2,
            correct_tasks: 1,
            level_3_tasks: 2,
            multi_role_tasks: 2,
            routed_role_counts: Vec::new(),
            tool_step_count: 5,
        },
        threshold_failure: None,
    };

    let share = output.metrics.correct_tasks as f64 / output.metrics.total_tasks as f64;
    let stdout = render_step_stdout(&output, &format!("{:.1}", share * 100.0));
    assert!(stdout.contains("GAIA Level 3 n=2 exact_match=50.0% (1/2)"));
    assert!(stdout.contains("Summary JSON: /tmp/gaia/gaia_level3_summary.json"));
    assert!(stdout.contains("Report Markdown: /tmp/gaia/gaia_level3_report.md"));
    assert_eq!(
        stdout,
        "GAIA Level 3 n=2 exact_match=50.0% (1/2) multi_role=2 tool_steps=5\n\
         Summary JSON: /tmp/gaia/gaia_level3_summary.json\n\
         Report Markdown: /tmp/gaia/gaia_level3_report.md\n"
    );
}

#[test]
fn a_task_without_roles_goes_to_the_scout() {
    let mut plain = task("t", 1, "x", None, &["  ", ""]);
    plain.tool_steps.push(step(" \t"));
    assert_eq!(routed_roles_for_task(&plain), vec!["scout".to_string()]);
}

#[test]
fn roles_and_answers_have_one_spelling() {
    assert_eq!(normalize_role("  Data Scout "), "data_scout");
    assert_eq!(normalize_role("a\tb C"), "a\tb_c");
    assert_eq!(normalize_answer("  The\tQuick \n Fox "), "the quick fox");
    assert_eq!(normalize_answer(""), "");
    assert_eq!(normalize_answer(&normalize_answer(" A  b ")), normalize_answer(" A  b "));
    assert_eq!(normalize_answer("\u{c9}A"), "\u{c9}a");
}

#[test]
fn long_questions_are_cut_by_characters() {
    assert_eq!(excerpt("  short ", 180), "short");
    assert_eq!(excerpt("\u{e9}\u{e9}\u{e9}", 2), "\u{e9}\u{e9}...");
    assert_eq!(excerpt("ab", 2), "ab");
    assert_eq!(excerpt("ab", 0), "...");
    assert_eq!(excerpt("", 0), "");
}

#[test]
fn a_run_counts_answers_levels_roles_and_steps() {
    let mut first = task("t1", 3, "Forty Two", Some(" forty  two"), &["Scout", "Piper"]);
    first.tool_steps.push(step("scout"));
    first.tool_steps.push(step("coobie"));
    let second = task("t2", 2, "x", Some("y"), &[]);
    let third = task("t3", 3, "z", None, &["piper"]);
    let results = evaluate(vec![first, second, third], None);
    assert_eq!(results.len(), 3);
    assert!(results[0].exact_match && !results[1].exact_match && results[2].exact_match);
    assert_eq!(results[2].predicted_answer, "z");
    assert_eq!(results[0].tool_step_count, 2);
    assert_eq!(results[0].question_excerpt, "question of t1");

    let metrics = measure(&results);
    assert_eq!(metrics.total_tasks, 3);
    assert_eq!(metrics.correct_tasks, 2);
    assert_eq!(metrics.level_3_tasks, 2);
    assert_eq!(metrics.multi_role_tasks, 1);
    assert_eq!(metrics.tool_step_count, 2);
    let counts: Vec<(&str, usize)> = metrics
        .routed_role_counts
        .iter()
        .map(|c| (c.role.as_str(), c.count))
        .collect();
    assert_eq!(counts, vec![("coobie", 1), ("piper", 2), ("scout", 2)]);
}

#[test]
fn a_limit_takes_the_first_tasks() {
    let tasks = || vec![task("a", 1, "x", None, &[]), task("b", 1, "x", None, &[])];
    assert_eq!(evaluate(tasks(), Some(1)).len(), 1);
    assert_eq!(evaluate(tasks(), Some(1))[0].task_id, "a");
    assert_eq!(evaluate(tasks(), Some(0)).len(), 0);
    assert_eq!(evaluate(tasks(), Some(9)).len(), 2);
    assert_eq!(evaluate(tasks(), None).len(), 2);
}

#[test]
fn a_run_without_tasks_has_the_default_figures() {
    assert_eq!(measure(&Vec::new()), GaiaMetrics::default());
    assert_eq!(GaiaMetrics::default().total_tasks, 0);
    assert!(count_roles(&Vec::new()).is_empty());
}

#[test]
fn the_report_lists_roles_and_tasks() {
    let results = evaluate(
        vec![
            task("t1", 3, "x", None, &["scout", "piper"]),
            task("t2", 1, "x", Some("no"), &[]),
        ],
        None,
    );
    let summary = GaiaSummary {
        schema: SUMMARY_SCHEMA,
        dataset_path: "tasks.jsonl".to_string(),
        generated_at: "2026-05-12T12:00:00+00:00".to_string(),
        limit: None,
        metrics: measure(&results),
        results,
    };
    assert_eq!(
        render_markdown(&summary, "50.0"),
        "# GAIA Level 3 Report\n\n- Dataset: tasks.jsonl\n\
         - Generated: 2026-05-12T12:00:00+00:00\n- Exact match: 50.0% (1/2)\n\
         - Level 3 tasks: 1\n- Multi-role tasks: 1\n- Tool steps: 0\n\n## Role Routing\n\
         - piper: 1\n- scout: 2\n\n## Tasks\n\n\
         | Task | Level | Exact | Roles | Tool steps |\n| --- | ---: | --- | --- | ---: |\n\
         | t1 | 3 | pass | piper, scout | 0 |\n| t2 | 1 | fail | scout | 0 |"
    );
    let empty = GaiaSummary {
        schema: SUMMARY_SCHEMA,
        dataset_path: String::new(),
        generated_at: String::new(),
        limit: Some(0),
        metrics: GaiaMetrics::default(),
        results: Vec::new(),
    };
    assert!(render_markdown(&empty, "0.0").contains("## Role Routing\n- none\n\n## Tasks"));
    assert_eq!(SUMMARY_SCHEMA, "harkonnen.gaia_level3.v1");
    assert_eq!(SUMMARY_FILE, "gaia_level3_summary.json");
    assert_eq!(REPORT_FILE, "gaia_level3_report.md");
}

#[test]
fn a_missed_threshold_fails_the_run() {
    assert_eq!(threshold_failure(false, "0.500", "0.400"), None);
    let failure = threshold_failure(true, "0.500", "0.600");
    assert_eq!(
        failure.as_deref(),
        Some("GAIA exact-match accuracy 0.500 below threshold 0.600")
    );
    let mut output = GaiaRunOutput {
        output_dir: String::new(),
        summary_path: String::new(),
        markdown_path: String::new(),
        metrics: GaiaMetrics::default(),
        threshold_failure: failure.clone(),
    };
    assert_eq!(status_for_output(&output), BenchmarkStatus::Failed);
    assert_eq!(reason_for_output(&output), failure);
    output.threshold_failure = None;
    assert_eq!(status_for_output(&output), BenchmarkStatus::Passed);
    assert_eq!(reason_for_output(&output), None);
}

#[test]
fn settings_prefer_what_was_given() {
    let text = |s: &str| Some(s.to_string());
    assert_eq!(get_override(text("a"), text("b")), text("a"));
    assert_eq!(get_override(None, text("b")), text("b"));
    assert_eq!(get_override(text("  "), text("b")), None);
    assert_eq!(get_override(None, text(" ")), None);
    assert_eq!(get_override(None, None), None);
    assert_eq!(limit_setting(text("12")), Some(12));
    assert_eq!(limit_setting(text("+7")), Some(7));
    assert_eq!(limit_setting(text(" 12")), None);
    assert_eq!(limit_setting(text("-1")), None);
    assert_eq!(limit_setting(text("99999999999999999999999")), None);
    assert_eq!(limit_setting(None), None);
}

#[test]
fn the_dataset_is_the_one_asked_for_or_the_fixture() {
    let text = |s: &str| Some(s.to_string());
    let fixture = || "fixture".to_string();
    assert_eq!(resolve_dataset_path(text("a"), true, fixture(), true), text("a"));
    assert_eq!(resolve_dataset_path(text("a"), false, fixture(), true), text("fixture"));
    assert_eq!(resolve_dataset_path(None, false, fixture(), true), text("fixture"));
    assert_eq!(resolve_dataset_path(text("a"), false, fixture(), false), None);
    assert!(NO_DATASET.starts_with("GAIA dataset not found."));
}

#[test]
fn records_keep_the_numbers_of_their_lines() {
    assert_eq!(
        dataset_records("\n  {\"a\":1}  \r\n\n{}"),
        vec![(2, "{\"a\":1}".to_string()), (4, "{}".to_string())]
    );
    assert_eq!(dataset_records(" \n\t\n"), vec![]);
    assert_eq!(record_problem_text(4), "parsing GAIA task line 4");
    assert_eq!(named_task(task(" ", 1, "x", None, &[]), 4).task_id, "gaia-4");
    assert_eq!(named_task(task("own", 1, "x", None, &[]), 4).task_id, "own");
}

#[test]
fn role_counts_come_in_order() {
    let list: Vec<String> = ["b", "a", "b", "B"].iter().map(|r| r.to_string()).collect();
    assert_eq!(
        count_roles(&list),
        vec![
            RoleCount { role: "B".to_string(), count: 1 },
            RoleCount { role: "a".to_string(), count: 1 },
            RoleCount { role: "b".to_string(), count: 2 },
        ]
    );
}

#[test]
fn the_report_names_roles_in_order() {
    let tasks = vec![
        task("1", 3, "x", None, &["scout", "piper"]),
        task("2", 3, "x", None, &["Coobie", "scout"]),
    ];
    let results = evaluate(tasks, None);
    let summary = GaiaSummary {
        schema: SUMMARY_SCHEMA,
        limit: None,
        generated_at: "t".to_string(),
        dataset_path: "d".to_string(),
        metrics: measure(&results),
        results,
    };
    let report = render_markdown(&summary, "100.0");
    assert!(report.contains("\n## Role Routing\n- coobie: 1\n- piper: 1\n- scout: 2\n\n## Tasks\n"));
}
