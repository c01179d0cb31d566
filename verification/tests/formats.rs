use harkonnen::mason_guard::{
    looks_like_json_edit_proposal, near_miss_marker_word, read_refusal, read_refusal_among,
    unreadable_write_marker,
};
use harkonnen::mason_tools::{parse_tool_call, parse_tool_calls, MasonTool};
use harkonnen::mason_transport::{
    apply_patch_block, has_top_level_patch_header, parse_fenced_edits, parse_patch_blocks,
    parse_summary_and_rationale, BlockTracker, FencedFile, PatchBlock,
};

fn file_block(path: &str, content: &str) -> String {
    format!("### FILE: {path}\n{content}\n### END FILE")
}

fn patch_text(path: &str, search: &str, replace: &str) -> String {
    format!(
        "### PATCH: {path}\n<<<<<<< SEARCH\n{search}\n=======\n{replace}\n>>>>>>> REPLACE"
    )
}

fn patch(path: &str, search: &str, replace: &str) -> PatchBlock {
    PatchBlock {
        path: path.to_string(),
        search: search.to_string(),
        replace: replace.to_string(),
    }
}

fn file(path: &str, content: &str) -> FencedFile {
    FencedFile { path: path.to_string(), content: content.to_string() }
}

#[test]
fn whole_files_come_back_character_for_character() {
    let contents = [
        "",
        "\n",
        "a \"b\" \\ c\n\n\tindented\n",
        "### PATCH: x\n<<<<<<< SEARCH\nSUMMARY: no\n>>>>>>> REPLACE",
        "no newline \u{1F600}",
    ];
    let mut raw = "SUMMARY: s\nprose\n".to_string();
    for (i, content) in contents.iter().enumerate() {
        raw.push_str(&file_block(&format!("dir/f{i}.txt"), content));
        raw.push('\n');
    }
    raw.push_str("more prose");
    let envelope = parse_fenced_edits(&raw).expect("well formed");
    assert_eq!(envelope.summary, "s");
    let expected: Vec<FencedFile> = contents
        .iter()
        .enumerate()
        .map(|(i, content)| file(&format!("dir/f{i}.txt"), content))
        .collect();
    assert_eq!(envelope.files, expected);
    let (summary, rationale, edits) = envelope.into_edits();
    assert_eq!((summary.as_str(), rationale.len(), edits.len()), ("s", 0, contents.len()));
    assert_eq!(edits[2].1, contents[2]);
}

#[test]
fn a_response_cut_off_in_a_file_is_refused() {
    let raw = format!("{}\n### FILE: b.txt\nhalf", file_block("a.txt", "whole"));
    assert_eq!(
        parse_fenced_edits(&raw).unwrap_err().message(),
        "the ### FILE: block for \"b.txt\" was never closed with ### END FILE — the response was \
         cut off. Raise MASON_EDIT_MAX_TOKENS or narrow the editable surface."
    );
}

#[test]
fn each_refused_response_has_its_wording() {
    let message = |raw: &str| parse_fenced_edits(raw).unwrap_err().message();
    assert_eq!(message("### FILE:\n"), "a ### FILE: block declared an empty path");
    assert_eq!(
        message("### FILE: a\"b\n### END FILE"),
        "a ### FILE: block declared an implausible path: \"a\\\"b\""
    );
    let long = "x".repeat(201);
    assert_eq!(
        message(&format!("### FILE: {long}\n### END FILE")),
        format!("a ### FILE: block declared an implausible path: \"{long}\"")
    );
    assert!(parse_fenced_edits(&file_block(&"x".repeat(200), "")).is_ok());
    assert_eq!(message("prose"), "no ### FILE: blocks were found in the response");
    assert_eq!(
        message("a\n### END FILE"),
        "found a stray ### END FILE at line 2 not associated with any open file block — file \
         content must not contain a line consisting solely of '### FILE:' or '### END FILE'"
    );
    assert_eq!(
        message("### FILE: a\nx\n### FILE: b\n"),
        "encountered a ### FILE: marker at line 3 while the ### FILE: block for \"a\" was still \
         open — file content must not contain a line consisting solely of '### FILE:' or \
         '### END FILE'"
    );
}

#[test]
fn summaries_come_from_the_top_level() {
    let top = "SUMMARY: one\nRATIONALE:\n- because\n-not this\n-  and that \n";
    let raw = format!(
        "{top}{}\n{}\n",
        file_block("a.md", "SUMMARY: inner\nRATIONALE:\n- inner"),
        patch_text("b.md", "SUMMARY: inner", "- inner")
    );
    let expected = ("one".to_string(), vec!["because".to_string(), "and that".to_string()]);
    assert_eq!(parse_summary_and_rationale(&raw), expected);
    assert_eq!(parse_summary_and_rationale(top), expected);
    assert_eq!(
        parse_summary_and_rationale("SUMMARY: a\nSUMMARY: b\n- no section"),
        ("b".to_string(), Vec::new())
    );
}

#[test]
fn patches_come_back_line_for_line() {
    let raw = format!(
        "SUMMARY: s\n{}\nprose\n{}\n",
        patch_text("a.js", "  one\n\ntwo", "three"),
        patch_text("b.js", "x", "")
    );
    let expected = vec![patch("a.js", "  one\n\ntwo", "three"), patch("b.js", "x", "")];
    assert_eq!(parse_patch_blocks(&raw), Ok(expected.clone()));
    assert_eq!(parse_patch_blocks(&raw.replace('\n', "\r\n")), Ok(expected));
    assert_eq!(parse_patch_blocks("prose"), Ok(Vec::new()));
}

#[test]
fn patches_quoted_inside_a_file_are_its_text() {
    let quoted = patch_text("quoted.js", "q", "r");
    let real = patch_text("real.js", "x", "y");
    let raw = format!("SUMMARY: s\n{}\n", file_block("docs.md", &quoted));
    assert!(!has_top_level_patch_header(&raw));
    assert_eq!(parse_patch_blocks(&raw), Ok(Vec::new()));
    let raw = format!("{raw}{real}");
    assert!(has_top_level_patch_header(&raw));
    assert_eq!(parse_patch_blocks(&raw), Ok(vec![patch("real.js", "x", "y")]));
}

#[test]
fn each_refused_patch_has_its_wording() {
    let message = |raw: &str| parse_patch_blocks(raw).unwrap_err().message();
    assert_eq!(
        message("### PATCH: a\n<<<<<<< SEARCH\nx\n=======\ny"),
        "a patch block was never closed with >>>>>>> REPLACE — the response was cut off"
    );
    assert_eq!(
        message("### PATCH: a\n<<<<<<< SEARCH\n### PATCH: b"),
        "line 3: a new patch header appeared while the block for \"a\" was still open — found \
         ### PATCH: \"b\""
    );
    assert_eq!(
        message("<<<<<<< SEARCH\n### PATCH: b"),
        "line 2: a new patch header appeared while the block for \"(unknown)\" was still open — \
         found ### PATCH: \"b\""
    );
    assert_eq!(
        message("<<<<<<< SEARCH\n<<<<<<< SEARCH"),
        "line 2: found <<<<<<< SEARCH inside an open block (section 1), expected only at the \
         start of a new block"
    );
    assert_eq!(
        message("<<<<<<< SEARCH\n=======\n<<<<<<< SEARCH"),
        "line 3: found <<<<<<< SEARCH inside an open block (section 2), expected only at the \
         start of a new block"
    );
    assert_eq!(
        message("<<<<<<< SEARCH\n=======\n======="),
        "line 3: found a second ======= in one patch block, each block has exactly one divider"
    );
    assert_eq!(
        message("======="),
        "line 1: found ======= outside of SEARCH section (section 0), expected only after \
         <<<<<<< SEARCH"
    );
    assert_eq!(
        message("<<<<<<< SEARCH\n=======\n>>>>>>> REPLACE"),
        "line 3: found >>>>>>> REPLACE without a preceding ### PATCH: line"
    );
    assert_eq!(
        message("### PATCH: a\n<<<<<<< SEARCH\n>>>>>>> REPLACE"),
        "line 3: found >>>>>>> REPLACE while still in SEARCH section, expected ======= before \
         >>>>>>> REPLACE"
    );
    assert_eq!(
        message(">>>>>>> REPLACE"),
        "line 1: found >>>>>>> REPLACE outside of any patch block (section 0), no open block to \
         close"
    );
}

#[test]
fn a_patch_changes_one_region_and_can_be_taken_back() {
    let original = "fn a() {}\nfn b() { \u{e9} }\nfn c() {}\n";
    let forward = patch("x.rs", "fn b() { \u{e9} }", "fn b() {\n    1\n}");
    let changed = apply_patch_block(original, &forward).expect("one match");
    assert_eq!(changed, "fn a() {}\nfn b() {\n    1\n}\nfn c() {}\n");
    let back = patch("x.rs", &forward.replace, &forward.search);
    assert_eq!(apply_patch_block(&changed, &back).expect("one match"), original);
}

#[test]
fn a_patch_needs_exactly_one_match() {
    let message = |original: &str, search: &str| {
        apply_patch_block(original, &patch("x.rs", search, "")).unwrap_err().message()
    };
    assert_eq!(message("abc", ""), "patch for x.rs has an empty SEARCH section");
    assert_eq!(
        message("abc", "abcd"),
        "patch for x.rs did not match: the SEARCH text is not present in the file"
    );
    assert_eq!(
        message("aXbXcX", "X"),
        "patch for x.rs is ambiguous: the SEARCH text matched 3 times, so the target is unclear. \
         Include more surrounding context to make it unique."
    );
    assert_eq!(
        message("-aba-ba-", "a-ba-ba"),
        "patch for x.rs did not match: the SEARCH text is not present in the file"
    );
    assert_eq!(
        message("xababax", "aba"),
        "patch for x.rs is ambiguous: the SEARCH text matched at places that overlap, so the \
         target is unclear. Include more surrounding context to make it unique."
    );
    assert_eq!(apply_patch_block("abc", &patch("x", "abc", "")), Ok(String::new()));
}

#[test]
fn a_tracker_knows_headers_closers_and_bodies() {
    let mut tracker = BlockTracker::new();
    assert!(tracker.consume("prose"));
    assert!(tracker.consume("### FILE: a"));
    assert!(!tracker.consume(">>>>>>> REPLACE"));
    assert!(!tracker.consume("### PATCH: b"));
    assert!(tracker.consume("### END FILE"));
    assert!(tracker.consume("### PATCH: b"));
    assert!(!tracker.consume("### END FILE"));
    assert!(tracker.consume(">>>>>>> REPLACE"));
    let mut tracker = BlockTracker::file_blocks_only();
    assert!(tracker.consume("### PATCH: b"));
    assert!(tracker.consume("body"));
    assert!(tracker.consume("### FILE: a"));
    assert!(!tracker.consume("### PATCH: b"));
}

fn read_call(path: &str) -> MasonTool {
    MasonTool::ReadFile { path: path.to_string() }
}

fn write_call(path: &str, content: &str) -> MasonTool {
    MasonTool::WriteFile { path: path.to_string(), content: content.to_string() }
}

#[test]
fn calls_come_back_as_they_were_written() {
    let content = "### FILE: x\n\n  \"path\": 1\n## PATCH\n\\";
    let raw = format!(
        "I will look.\n### TOOL: read_file\npath: a b.txt\n### TOOL: write_file\npath: c.txt\n\
         ### CONTENT\n{content}\n### END CONTENT\n### TOOL: list_dir\npath: .\nDone."
    );
    assert_eq!(
        parse_tool_calls(&raw),
        Ok(vec![
            read_call("a b.txt"),
            write_call("c.txt", content),
            MasonTool::ListDir { path: ".".to_string() },
        ])
    );
    assert_eq!(unreadable_write_marker(&raw), None);
    assert_eq!(parse_tool_call(&raw), None);
    assert_eq!(
        parse_tool_call("### TOOL: read_file\npath: a b.txt"),
        Some(read_call("a b.txt"))
    );
}

#[test]
fn each_refused_call_has_its_wording() {
    let message = |raw: &str| parse_tool_calls(raw).unwrap_err().message();
    let write = "### TOOL: write_file\npath: a\n### CONTENT\n";
    assert_eq!(
        message(&format!("{write}### TOOL: read_file")),
        "line 4: a '### TOOL:' header appeared while the '### CONTENT' block was still open — \
         close it with '### END CONTENT' first. File content may not contain a line starting \
         with '### TOOL:'."
    );
    assert_eq!(message("### TOOL:  "), "line 1: '### TOOL:' header named no tool");
    assert_eq!(
        message("### TOOL: read_file\npath: a\npath: b"),
        "line 3: 'read_file' tool call declared a second path — one call, one path"
    );
    assert_eq!(
        message("### TOOL: list_dir\npath:"),
        "line 2: 'list_dir' tool call declared an empty path"
    );
    assert_eq!(
        message(&format!("### TOOL: read_file\npath: {}", "\u{e9}".repeat(101))),
        "line 2: 'read_file' tool call declared an implausible 202 character path"
    );
    assert!(parse_tool_calls(&format!("### TOOL: read_file\npath: {}", "x".repeat(200))).is_ok());
    assert_eq!(
        message("### CONTENT"),
        "line 1: '### CONTENT' appeared outside any tool call — a content block belongs to a \
         '### TOOL: write_file' header."
    );
    assert_eq!(
        message(&format!("{write}### END CONTENT\n### CONTENT")),
        "line 5: 'write_file' tool call opened a second '### CONTENT' block"
    );
    assert_eq!(
        message("### END CONTENT"),
        "line 1: stray '### END CONTENT' with no open content block — file content may not \
         contain a line consisting solely of '### END CONTENT'."
    );
    assert_eq!(
        message(write),
        "the '### CONTENT' block for \"a\" was never closed with '### END CONTENT' — the response \
         was cut off, so the file content is incomplete. Raise the token budget or write a \
         smaller file."
    );
    assert_eq!(
        message("### TOOL: read_file"),
        "line 1: 'read_file' tool call is missing its 'path:' line"
    );
    assert_eq!(
        message("### TOOL: list_dir\npath: a\n### CONTENT\n### END CONTENT"),
        "line 1: 'list_dir' tool call carried a '### CONTENT' block, which only '### TOOL: \
         write_file' accepts — refusing rather than guessing which tool was meant."
    );
    assert_eq!(
        message("### TOOL: write_file\npath: a"),
        "line 1: 'write_file' tool call for \"a\" has no '### CONTENT' block, so there is nothing \
         to write. Emit the complete file contents between '### CONTENT' and '### END CONTENT'."
    );
    assert_eq!(
        message("### TOOL: rm\npath: a"),
        "line 1: unknown tool \"rm\" — the only tools are read_file, list_dir and write_file. \
         Refusing rather than ignoring the call, since ignoring it would look exactly like the \
         model finishing."
    );
    assert_eq!(parse_tool_call("### TOOL: rm\npath: a"), None);
}

#[test]
fn markers_that_were_nearly_hit_are_named() {
    for (line, word) in [
        ("#### TOOL: x", Some("TOOL")),
        ("## tool", Some("TOOL")),
        ("###content", Some("CONTENT")),
        ("### End  content", None),
        ("### END CONTENT.", Some("END CONTENT")),
        ("###### Patch-", Some("PATCH")),
        ("### END FILE", Some("END FILE")),
        ("## Files", None),
        ("## FILE_X", None),
        ("## FILE\u{e9}", None),
        ("## FILE\u{2014}", Some("FILE")),
        ("# TOOL", None),
        ("####### TOOL", None),
        ("TOOL", None),
    ] {
        assert_eq!(near_miss_marker_word(line), word, "{line}");
    }
    assert!(looks_like_json_edit_proposal("{\"edits\": []}"));
    assert!(looks_like_json_edit_proposal("  \"path\": \"x\""));
    assert!(!looks_like_json_edit_proposal("\"path\" : 1"));
    assert_eq!(
        unreadable_write_marker("ok\n  #### TOOL: \"x\"").as_deref(),
        Some(
            "line 2: \"#### TOOL: \\\"x\\\"\" looks like a 'TOOL' marker but is not one — this \
             lane reads only '### TOOL:', '### CONTENT' and '### END CONTENT', spelled exactly, \
             with three hashes and in upper case"
        )
    );
    assert_eq!(
        unreadable_write_marker("{\"edits\":[]}").as_deref(),
        Some(
            "line 1: \"{\\\"edits\\\":[]}\" looks like a JSON edit proposal. That transport is \
             not read in the tool loop — every write must be a '### TOOL: write_file' call"
        )
    );
}

#[test]
fn credential_files_and_blocked_places_are_not_read() {
    for name in [
        ".env", "a/.ENV.local", "k.PEM", "k.key", "k.p12", "k.pfx", "credentials.json",
        "x/credentials", ".netrc", ".npmrc", ".pypirc", "id_rsa", "id_ed25519",
    ] {
        let reason = read_refusal(name).expect(name);
        assert!(reason.contains("holds credentials and is never shared with a model"), "{name}");
    }
    for name in ["env", ".environment", "key.txt", "my_id_rsa.pub", "credentials.json/x", ""] {
        assert_eq!(read_refusal(name), None, "{name}");
    }
    assert_eq!(
        read_refusal("target/x").as_deref(),
        Some(
            "target/ is excluded from Mason's reads — it holds build output or factory state, \
             not product source"
        )
    );
    let prefixes = vec!["a/".to_string(), "a/b/".to_string()];
    assert!(read_refusal_among("a/b/c", &prefixes).expect("blocked").starts_with("a/ is"));
    assert_eq!(read_refusal_among("target/x", &prefixes), None);
}

#[test]
fn file_markers_inside_a_patch_are_its_text() {
    let raw = "### PATCH: d.md\n<<<<<<< SEARCH\n### FILE: a\n=======\n### FILE: b\n>>>>>>> REPLACE\n";
    assert_eq!(parse_patch_blocks(raw), Ok(vec![patch("d.md", "### FILE: a", "### FILE: b")]));

    let quoted = "### FILE: a\nx\n### END FILE\ny";
    let raw = format!(
        "{}\n{}\n{}\n",
        patch_text("d.md", quoted, "  ### FILE: b  "),
        file_block("e.md", "### PATCH: q\n<<<<<<< SEARCH"),
        patch_text("f.md", "old", "new"),
    );
    assert_eq!(
        parse_patch_blocks(&raw),
        Ok(vec![patch("d.md", quoted, "  ### FILE: b  "), patch("f.md", "old", "new")])
    );

    let cut = "### PATCH: d.md\n<<<<<<< SEARCH\n### FILE: a\n=======\nx\n";
    assert!(parse_patch_blocks(cut).is_err());
}

#[test]
fn a_patch_may_leave_its_path_out() {
    let raw = "### PATCH: \n<<<<<<< SEARCH\na\n=======\nb\n>>>>>>> REPLACE\n";
    assert_eq!(parse_patch_blocks(raw), Ok(vec![patch("", "a", "b")]));
}

#[test]
fn a_response_comes_back_as_it_was_written() {
    let content = "a \"b\" \\ c\n\n- no reason\nSUMMARY: not this\n### PATCH: x\n";
    let raw = format!(
        "SUMMARY: what was done\nRATIONALE:\n- SUMMARY: first\n- ### second\n{}\n{}\n",
        file_block("a.txt", content),
        file_block("b/c.txt", ""),
    );
    let envelope = parse_fenced_edits(&raw).expect("readable");
    assert_eq!(envelope.summary, "what was done");
    assert_eq!(envelope.rationale, vec!["SUMMARY: first".to_string(), "### second".to_string()]);
    assert_eq!(envelope.files, vec![file("a.txt", content), file("b/c.txt", "")]);
}

#[test]
fn the_bodies_of_files_make_no_difference_to_the_summary() {
    let response = |one: &str, two: &str| {
        format!(
            "SUMMARY: first\nRATIONALE:\n- a\n### FILE: x\n{one}\n### END FILE\n- not a reason\n\
             RATIONALE:\n- b\n### FILE: y\n{two}\n### END FILE\nSUMMARY: last\n"
        )
    };
    let plain = parse_summary_and_rationale(&response("1", "2"));
    assert_eq!(plain.0, "last");
    assert_eq!(plain.1, vec!["a".to_string(), "b".to_string()]);
    let loud = response("SUMMARY: no\nRATIONALE:\n- no\n### PATCH: z", "### FILE: w\n- no");
    assert_eq!(parse_summary_and_rationale(&loud), plain);
}

#[test]
fn patches_that_are_read_are_also_found() {
    let quoted = file_block("a.md", &patch_text("q", "1", "2"));
    let patch = patch_text("d.md", "### FILE: a\r", "### FILE: b");
    for (raw, read) in [
        (quoted.clone(), 0),
        (patch.clone(), 1),
        (format!("{quoted}\r\n{patch}\r\n{quoted}\n{patch}"), 2),
        ("text".to_string(), 0),
    ] {
        let blocks = parse_patch_blocks(&raw).expect("readable");
        assert_eq!(blocks.len(), read);
        assert_eq!(has_top_level_patch_header(&raw), read > 0);
    }
}
