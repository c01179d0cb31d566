use harkonnen::mason_guard::blocked_path_prefixes;
use harkonnen::tool_loop::{DirEntry, LoopAction, LoopEvent, Message, Phase, Role, ToolLoop};

/// A workspace in memory, a model that says what it was told to say, and what
/// was put on record.
struct Stage {
    files: Vec<(String, String)>,
    responses: Vec<String>,
    seen: Vec<Vec<(Role, String)>>,
    recorder: Option<bool>,
    recorded: Vec<(String, usize)>,
}

impl Stage {
    fn new(responses: &[&str]) -> Stage {
        Stage {
            files: Vec::new(),
            responses: responses.iter().map(|r| r.to_string()).collect(),
            seen: Vec::new(),
            recorder: None,
            recorded: Vec::new(),
        }
    }

    fn with_file(mut self, path: &str, text: &str) -> Stage {
        self.files.push((path.to_string(), text.to_string()));
        self
    }

    fn recording(mut self, accepts: bool) -> Stage {
        self.recorder = Some(accepts);
        self
    }

    fn reply(&mut self, messages: &[Message]) -> String {
        self.seen.push(messages.iter().map(|m| (m.role, m.content.clone())).collect());
        if self.responses.is_empty() {
            // A model that never stops asking for tools.
            "### TOOL: list_dir\npath: .\n".to_string()
        } else {
            self.responses.remove(0)
        }
    }

    fn read(&self, parts: &[String]) -> Result<String, String> {
        let path = parts.join("/");
        self.files
            .iter()
            .find(|(name, _)| *name == path)
            .map(|(_, text)| text.clone())
            .ok_or_else(|| "No such file or directory (os error 2)".to_string())
    }

    fn list(&self, parts: &[String]) -> Vec<DirEntry> {
        let mut found: Vec<(String, bool)> = Vec::new();
        for (name, _) in &self.files {
            let all: Vec<&str> = name.split('/').collect();
            if all.len() > parts.len() && all.iter().zip(parts).all(|(a, b)| *a == b.as_str()) {
                let entry = (all[parts.len()].to_string(), all.len() > parts.len() + 1);
                if !found.contains(&entry) {
                    found.push(entry);
                }
            }
        }
        found
            .into_iter()
            .map(|(name, is_dir)| DirEntry::Named { name, is_dir })
            .collect()
    }

    fn run(&mut self, max_turns: u32) -> Result<Vec<(String, String)>, String> {
        let mut tool_loop = ToolLoop::new(
            vec![Message::user("do the work".to_string())],
            max_turns,
            blocked_path_prefixes(),
            self.recorder.is_some(),
        );
        assert!(tool_loop.phase() == Phase::Asking);
        let mut action = LoopAction::Ask;
        loop {
            let event = match action {
                LoopAction::Ask => LoopEvent::Reply(self.reply(tool_loop.messages())),
                LoopAction::Read { parts } => LoopEvent::FileRead(self.read(&parts)),
                LoopAction::List { parts } => LoopEvent::Listed(Ok(self.list(&parts))),
                LoopAction::Record { path, byte_len } => {
                    self.recorded.push((path, byte_len));
                    LoopEvent::Recorded(self.recorder.unwrap_or(false))
                }
                LoopAction::Finish { writes } => {
                    assert!(tool_loop.phase() == Phase::Done);
                    return Ok(writes);
                }
                LoopAction::Fail { error } => {
                    assert!(tool_loop.phase() == Phase::Done);
                    return Err(error.message());
                }
            };
            action = tool_loop.step(event);
        }
    }

    fn calls(&self) -> usize {
        self.seen.len()
    }

    fn last_seen(&self, turn: usize) -> String {
        self.seen[turn].last().map(|m| m.1.clone()).unwrap_or_default()
    }
}

fn pair(path: &str, content: &str) -> (String, String) {
    (path.to_string(), content.to_string())
}

#[test]
fn the_loop_reads_then_writes_and_returns_the_pairs() {
    let mut stage = Stage::new(&[
        "### TOOL: read_file\npath: js/data.js\n",
        "### TOOL: write_file\npath: js/bonus.js\n### CONTENT\nG.rooms.bonus = {};\n### END CONTENT\n",
        "SUMMARY: added the bonus room\n",
    ])
    .with_file("js/data.js", "G.rooms = {};");

    let writes = stage.run(6).expect("the loop must finish");

    assert_eq!(writes, vec![pair("js/bonus.js", "G.rooms.bonus = {};")]);
    assert_eq!(stage.calls(), 3);
    assert!(
        stage.read(&["js".to_string(), "bonus.js".to_string()]).is_err(),
        "the loop must not touch the workspace"
    );
    assert!(
        stage.seen[1].iter().any(|m| m.1.contains("G.rooms = {};")),
        "the read result must be fed back to the model"
    );
}

#[test]
fn a_path_escaping_the_workspace_ends_the_loop() {
    let mut stage = Stage::new(&["### TOOL: read_file\npath: ../../etc/passwd\n"]);
    let message = stage.run(4).expect_err("an escaping path must end the run");
    assert!(
        message.contains("staged") && message.contains("passwd"),
        "the error must name the offending path: {message}"
    );
}

#[test]
fn an_absolute_path_is_refused_too() {
    let mut stage = Stage::new(&[
        "### TOOL: write_file\npath: /etc/cron.d/evil\n### CONTENT\nboom\n### END CONTENT\n",
    ]);
    let message = stage.run(4).expect_err("an absolute path must end the run");
    assert!(message.contains("absolute"));
}

#[test]
fn a_write_that_escapes_is_refused_before_it_is_recorded() {
    let mut stage = Stage::new(&[
        "### TOOL: write_file\npath: ../escape.js\n### CONTENT\nx\n### END CONTENT\n",
    ])
    .recording(true);
    stage.run(4).expect_err("an escaping write must end the run");
    assert!(
        stage.recorded.is_empty(),
        "confinement must run before the gateway, not after"
    );
}

#[test]
fn a_model_that_never_finishes_fails_rather_than_returning_partial_writes() {
    let mut stage = Stage::new(&[
        "### TOOL: write_file\npath: js/a.js\n### CONTENT\na\n### END CONTENT\n",
    ]);
    let message = stage.run(3).expect_err("an unfinished loop must not report success");
    assert!(
        message.contains("without settling on a final set of writes"),
        "the exhaustion message must say what went wrong: {message}"
    );
    assert_eq!(stage.calls(), 3, "the turn budget must be honoured");
}

#[test]
fn a_malformed_tool_call_is_fed_back_and_the_loop_recovers() {
    let mut stage = Stage::new(&[
        "### TOOL: delete_file\npath: js/a.js\n",
        "### TOOL: write_file\npath: js/a.js\n### CONTENT\na\n### END CONTENT\n",
        "SUMMARY: done\n",
    ]);
    let writes = stage.run(5).expect("the loop must recover after the correction");
    assert_eq!(writes, vec![pair("js/a.js", "a")]);
    assert!(
        stage.seen[1]
            .iter()
            .any(|m| m.1.contains("could not be used") && m.1.contains("delete_file")),
        "the model must be told exactly what it got wrong"
    );
}

#[test]
fn a_file_block_in_the_final_message_is_not_read_as_finishing() {
    let mut stage = Stage::new(&[
        "SUMMARY: done\n### FILE: js/a.js\nvar a = 1;\n### END FILE\n",
        "### TOOL: write_file\npath: js/a.js\n### CONTENT\nvar a = 1;\n### END CONTENT\n",
        "SUMMARY: done\n",
    ]);
    let writes = stage.run(5).expect("the loop must recover");
    assert_eq!(writes, vec![pair("js/a.js", "var a = 1;")]);
}

#[test]
fn a_file_block_beside_a_tool_call_rejects_the_whole_message() {
    let mut stage = Stage::new(&[
        "### TOOL: write_file\npath: js/a.js\n### CONTENT\na\n### END CONTENT\n\
         ### FILE: js/b.js\nb\n### END FILE\n",
        "### TOOL: write_file\npath: js/a.js\n### CONTENT\na\n### END CONTENT\n\
         ### TOOL: write_file\npath: js/b.js\n### CONTENT\nb\n### END CONTENT\n",
        "SUMMARY: done\n",
    ]);
    let writes = stage.run(5).expect("the loop must recover");
    assert_eq!(
        writes,
        vec![pair("js/a.js", "a"), pair("js/b.js", "b")],
        "the mixed message must be re-asked, not half-applied"
    );
}

#[test]
fn a_terminal_message_carrying_an_unreadable_write_is_never_read_as_finishing() {
    let cases: &[(&str, &str)] = &[
        (
            "json edit proposal",
            "{\"summary\":\"s\",\"edits\":[{\"path\":\"js/b.js\",\"content\":\"b\"}]}",
        ),
        ("four-hash FILE", "#### FILE: js/b.js\nb\n#### END FILE"),
        ("wrong-case FILE", "### File: js/b.js\nb\n### End File"),
        (
            "four-hash TOOL",
            "#### TOOL: write_file\npath: js/b.js\n#### CONTENT\nb\n#### END CONTENT",
        ),
        (
            "wrong-case TOOL",
            "### Tool: write_file\npath: js/b.js\n### Content\nb\n### End Content",
        ),
        ("two-hash PATCH", "## PATCH: js/b.js\n<<<<<<< SEARCH"),
    ];

    for (label, terminal) in cases {
        let mut stage = Stage::new(&[
            "### TOOL: write_file\npath: js/a.js\n### CONTENT\na\n### END CONTENT\n",
            terminal,
            "### TOOL: write_file\npath: js/b.js\n### CONTENT\nb\n### END CONTENT\n",
            "SUMMARY: done\n",
        ]);
        let writes = stage
            .run(6)
            .unwrap_or_else(|error| panic!("{label}: loop must recover: {error:#}"));
        assert_eq!(
            writes,
            vec![pair("js/a.js", "a"), pair("js/b.js", "b")],
            "{label}: the unreadable write must be re-asked, not read as finishing"
        );
    }
}

#[test]
fn credential_files_are_refused_and_the_refusal_is_told_to_the_model() {
    let mut stage = Stage::new(&[
        "### TOOL: read_file\npath: .env\n",
        "### TOOL: read_file\npath: target/build.log\n",
        "SUMMARY: nothing to do\n",
    ])
    .with_file(".env", "API_KEY=sk-live-xyz")
    .with_file("target/build.log", "noise");

    stage.run(5).expect("a refused read is not a failure");

    let after_env = stage.last_seen(1);
    assert!(
        after_env.contains("credentials") && !after_env.contains("sk-live-xyz"),
        "the secret must never reach the conversation: {after_env}"
    );
    let after_target = stage.last_seen(2);
    assert!(
        after_target.contains("excluded from Mason's reads"),
        "the shared blocked-prefix list must apply to reads too: {after_target}"
    );
}

#[test]
fn a_backslash_escape_is_refused_by_the_loop_not_by_the_apply_path() {
    let mut stage = Stage::new(&[
        "### TOOL: write_file\npath: js\\..\\..\\x\n### CONTENT\nx\n### END CONTENT\n",
    ]);
    let message = stage
        .run(4)
        .expect_err("the loop must refuse what the apply path would refuse");
    assert!(message.contains("does not resolve inside the staged workspace"));
}

#[test]
fn a_write_to_the_workspace_root_is_refused() {
    let mut stage =
        Stage::new(&["### TOOL: write_file\npath: .\n### CONTENT\nx\n### END CONTENT\n"]);
    let message = stage.run(4).expect_err("a write with no filename can never land");
    assert!(message.contains("workspace root"));
}

#[test]
fn listing_the_workspace_root_is_still_allowed() {
    let mut stage = Stage::new(&["### TOOL: list_dir\npath: .\n", "SUMMARY: seen\n"])
        .with_file("index.html", "x");
    stage.run(4).expect("listing the root must work");
    assert!(stage.last_seen(1).contains("index.html"));
}

#[test]
fn a_file_marker_inside_written_content_is_not_a_foreign_transport() {
    let mut stage = Stage::new(&[
        "### TOOL: write_file\npath: docs/format.md\n### CONTENT\n\
         Emit blocks like:\n### FILE: path\ncontent\n### END FILE\n### END CONTENT\n",
        "SUMMARY: documented the format\n",
    ]);
    let writes = stage.run(4).expect("documenting a marker is a legal write");
    assert_eq!(writes.len(), 1);
    assert!(
        writes[0].1.contains("### FILE: path"),
        "the marker must survive into the written content: {:?}",
        writes[0].1
    );
    assert_eq!(
        stage.calls(),
        2,
        "the write must be accepted on the first try, not re-asked"
    );
}

#[test]
fn a_second_write_to_one_path_supersedes_rather_than_duplicating() {
    let mut stage = Stage::new(&[
        "### TOOL: write_file\npath: js/a.js\n### CONTENT\nfirst\n### END CONTENT\n",
        "### TOOL: write_file\npath: js/./a.js\n### CONTENT\nsecond\n### END CONTENT\n",
        "SUMMARY: done\n",
    ]);
    let writes = stage.run(5).expect("the loop must finish");
    assert_eq!(
        writes,
        vec![pair("js/./a.js", "second")],
        "one entry per real file, carrying the latest content"
    );
    assert!(
        stage.seen[2].iter().any(|m| m.1.contains("replaces the earlier")),
        "supersession must be reported back, never silent"
    );
}

#[test]
fn a_refused_gateway_write_ends_the_loop() {
    let mut stage = Stage::new(&[
        "### TOOL: write_file\npath: js/a.js\n### CONTENT\na\n### END CONTENT\n",
        "SUMMARY: done\n",
    ])
    .recording(false);
    let message = stage
        .run(5)
        .expect_err("a refused write must not be returned as an edit");
    assert!(message.contains("gateway refused"));
}

#[test]
fn every_write_reaches_the_invocation_gateway() {
    let mut stage = Stage::new(&[
        "### TOOL: write_file\npath: js/a.js\n### CONTENT\naa\n### END CONTENT\n",
        "### TOOL: write_file\npath: js/a.js\n### CONTENT\nbbb\n### END CONTENT\n",
        "SUMMARY: done\n",
    ])
    .recording(true);
    stage.run(5).expect("the loop must finish");
    assert_eq!(
        stage.recorded,
        vec![("js/a.js".to_string(), 2), ("js/a.js".to_string(), 3)],
        "a superseded write is still a write that happened, and must be logged"
    );
}

#[test]
fn a_missing_file_is_reported_to_the_model_not_fatal() {
    let mut stage = Stage::new(&[
        "### TOOL: read_file\npath: js/absent.js\n",
        "SUMMARY: nothing to do\n",
    ]);
    let writes = stage.run(4).expect("a missing file is information, not a failure");
    assert!(writes.is_empty());
    assert!(stage.seen[1].iter().any(|m| m.1.contains("ERROR: reading")));
}

#[test]
fn the_conversation_grows_by_the_reply_and_the_results() {
    let reply = "### TOOL: read_file\npath: a.txt\n### TOOL: list_dir\npath: .\n";
    let mut stage = Stage::new(&[reply, "done"])
        .with_file("a.txt", "text of a")
        .with_file("lib/b.txt", "")
        .with_file("Z.txt", "");
    stage.run(2).expect("the loop must finish");
    assert_eq!(
        stage.seen[1],
        vec![
            (Role::User, "do the work".to_string()),
            (Role::Assistant, reply.to_string()),
            (
                Role::User,
                "### TOOL RESULT: read_file\ntext of a\n### END TOOL RESULT\n\n\
                 ### TOOL RESULT: list_dir\nZ.txt\na.txt\nlib/\n### END TOOL RESULT"
                    .to_string()
            ),
        ]
    );
}

#[test]
fn an_empty_directory_and_unreadable_entries_are_told() {
    let mut stage = Stage::new(&["### TOOL: list_dir\npath: empty\n", "done"]);
    stage.run(2).expect("the loop must finish");
    assert!(stage.last_seen(1).contains("\n(empty directory: empty)\n"));

    let mut tool_loop = ToolLoop::new(Vec::new(), 2, Vec::new(), false);
    let action = tool_loop.step(LoopEvent::Reply("### TOOL: list_dir\npath: js\n".to_string()));
    assert!(matches!(action, LoopAction::List { parts } if parts == vec!["js".to_string()]));
    let entries = vec![
        DirEntry::Named { name: "z.js".to_string(), is_dir: false },
        DirEntry::Unreadable { error: "denied".to_string() },
    ];
    let action = tool_loop.step(LoopEvent::Listed(Ok(entries)));
    assert!(matches!(action, LoopAction::Ask));
    let messages = tool_loop.messages();
    assert_eq!(
        messages[messages.len() - 1].content,
        "### TOOL RESULT: list_dir\n(unreadable entry: denied)\nz.js\n### END TOOL RESULT"
    );

    let mut tool_loop = ToolLoop::new(Vec::new(), 2, Vec::new(), false);
    tool_loop.step(LoopEvent::Reply("### TOOL: list_dir\npath: js\n".to_string()));
    tool_loop.step(LoopEvent::Listed(Err("denied".to_string())));
    let messages = tool_loop.messages();
    assert_eq!(
        messages[messages.len() - 1].content,
        "### TOOL RESULT: list_dir\nERROR: listing js: denied\n### END TOOL RESULT"
    );
}

#[test]
fn each_end_without_writes_has_its_wording() {
    let write = |path: &str| {
        format!("### TOOL: write_file\npath: {path}\n### CONTENT\nx\n### END CONTENT\n")
    };
    let absolute = write("/etc/x");
    assert_eq!(
        Stage::new(&[absolute.as_str()]).run(1).unwrap_err(),
        "Mason's 'write_file' tool call uses the absolute path \"/etc/x\". Tool paths must be \
         relative to the staged workspace root."
    );
    let outside = write("a/../../x");
    assert_eq!(
        Stage::new(&[outside.as_str()]).run(1).unwrap_err(),
        "Mason's 'write_file' tool call for \"a/../../x\" does not resolve inside the staged \
         workspace: the path leads out of the workspace root"
    );
    let root = write("./");
    assert_eq!(
        Stage::new(&[root.as_str()]).run(1).unwrap_err(),
        "Mason's write_file call for \"./\" resolves to the workspace root itself, which is a \
         directory, not a file."
    );
    let plain = write("x");
    assert_eq!(
        Stage::new(&[plain.as_str()]).recording(false).run(1).unwrap_err(),
        "the invocation gateway refused Mason's tool write to \"x\". No edits were returned."
    );
    assert_eq!(
        Stage::new(&[]).run(2).unwrap_err(),
        "Mason used all 2 tool turns without settling on a final set of writes — it was still \
         calling tools when the budget ran out. Raise the turn budget or narrow the spec."
    );
    assert_eq!(
        Stage::new(&["### TOOL:"]).run(0).unwrap_err(),
        "Mason used all 1 tool turns without settling on a final set of writes. The last turn \
         was rejected: line 1: '### TOOL:' header named no tool"
    );
}

#[test]
fn the_earlier_size_is_told_when_a_write_is_superseded() {
    let mut stage = Stage::new(&[
        "### TOOL: write_file\npath: a.txt\n### CONTENT\nfour\n### END CONTENT\n\
         ### TOOL: write_file\npath: b.txt\n### CONTENT\n\u{e9}\n### END CONTENT\n\
         ### TOOL: write_file\npath: a.txt\n### CONTENT\nx\n### END CONTENT\n",
        "done",
    ]);
    let writes = stage.run(2).expect("the loop must finish");
    assert_eq!(writes, vec![pair("a.txt", "x"), pair("b.txt", "\u{e9}")]);
    let told = stage.last_seen(1);
    assert!(told.contains("recorded write of 4 bytes to a.txt\n"));
    assert!(told.contains("recorded write of 2 bytes to b.txt\n"));
    assert!(told.contains(
        "recorded write of 1 bytes to a.txt (replaces the earlier 4 byte write to the same file \
         in this loop)\n"
    ));
}

fn write(path: &str, content: &str) -> String {
    format!("### TOOL: write_file\npath: {path}\n### CONTENT\n{content}\n### END CONTENT\n")
}

#[test]
fn a_run_hands_back_the_last_accepted_write_to_each_file() {
    let first = format!("{}{}", write("a.txt", "1"), write("b.txt", "1"));
    let refused = format!("{}### FILE: c.txt\nlost\n### END FILE\n", write("b.txt", "refused"));
    let third = format!("{}{}", write("./a.txt", "2"), write("c.txt", "3"));
    let mut stage = Stage::new(&[first.as_str(), refused.as_str(), third.as_str(), "done", "more"]);
    let writes = stage.run(9).expect("the loop must finish");
    assert_eq!(writes, vec![pair("./a.txt", "2"), pair("b.txt", "1"), pair("c.txt", "3")]);
    assert_eq!(stage.calls(), 4);
}

#[test]
fn the_model_is_asked_up_to_its_last_word_and_no_further() {
    for turns in 0..6u32 {
        let wanted = turns.max(1);
        let mut stage = Stage::new(&["### TOOL:", "### TOOL: list_dir\npath: .\n", "done", "done"]);
        let outcome = stage.run(turns);
        if wanted >= 3 {
            assert_eq!(outcome, Ok(Vec::new()));
            assert_eq!(stage.calls(), 3);
        } else {
            assert!(outcome.is_err());
            assert_eq!(stage.calls(), wanted as usize);
        }
    }
}

#[test]
fn what_a_credential_file_holds_makes_no_difference() {
    let run = |secret: &str| {
        let mut stage = Stage::new(&[
            "### TOOL: read_file\npath: .env\n### TOOL: list_dir\npath: .\n\
             ### TOOL: read_file\npath: deploy/.ENV\n### TOOL: read_file\npath: a.txt\n",
            "### TOOL: write_file\npath: b.txt\n### CONTENT\nx\n### END CONTENT\n",
            "done",
        ])
        .with_file(".env", secret)
        .with_file("deploy/.ENV", secret)
        .with_file("a.txt", "open");
        let outcome = stage.run(5);
        (outcome, stage.seen)
    };
    let (outcome, seen) = run("KEY=1");
    assert_eq!(outcome, Ok(vec![pair("b.txt", "x")]));
    assert!(seen[1].last().is_some_and(|m| m.1.contains("open")));
    assert!((outcome, seen) == run("KEY=2\nother"));
}
