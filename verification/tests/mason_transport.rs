use harkonnen::mason_transport::{
    apply_patch_block, has_top_level_patch_header, parse_fenced_edits, parse_patch_blocks,
    PatchBlock, PATCH_FORMAT_INSTRUCTION,
};

#[test]
fn fenced_envelope_passes_source_code_through_verbatim() {
    let raw = r#"SUMMARY: Add the bonus room
RATIONALE:
- followed the existing G.rooms shape
- registered the room in main.js

### FILE: js/bonus.js
G.rooms.bonus = {
  id: 'bonus',
  verbs: { lookat: "A dusty attic", open: "It creaks" },
  note: "quotes \" and backslashes \\ survive"
};
### END FILE

### FILE: README.md
The bonus room ("Dad's Workshop") is optional.
### END FILE
"#;

    let envelope = parse_fenced_edits(raw).expect("must parse");

    assert_eq!(envelope.summary, "Add the bonus room");
    assert_eq!(envelope.rationale.len(), 2);
    assert_eq!(envelope.files.len(), 2);
    assert_eq!(envelope.files[0].path, "js/bonus.js");
    assert!(envelope.files[0]
        .content
        .contains(r#"lookat: "A dusty attic""#));
    assert!(envelope.files[0]
        .content
        .contains(r#"backslashes \\ survive"#));
    assert!(envelope.files[1].content.contains(r#"("Dad's Workshop")"#));
    assert!(
        !envelope.files[0].content.contains("### END FILE"),
        "the terminator must not leak into content"
    );
}

#[test]
fn fenced_envelope_reports_an_unterminated_file_as_truncation() {
    let raw = "SUMMARY: x\n\n### FILE: js/a.js\nG.rooms.a = {};\n";
    let error = parse_fenced_edits(raw).expect_err("unterminated block must fail");
    assert!(
        error.message().contains("never closed"),
        "an unterminated block means a cut-off response"
    );
}

#[test]
fn fenced_envelope_rejects_a_path_that_is_not_a_path() {
    let raw = "SUMMARY: x\n\n### FILE: \n### END FILE\n";
    assert!(
        parse_fenced_edits(raw).is_err(),
        "empty path must be refused"
    );
}

#[test]
fn fenced_envelope_rejects_content_containing_a_terminator_line() {
    // a ### END FILE on a line by itself inside content should error, not truncate
    let raw = "SUMMARY: Fix\n\n### FILE: a.txt\nbefore\n### END FILE\nafter\n### END FILE\n";
    let error = parse_fenced_edits(raw).expect_err("content with terminator must fail");
    let error_msg = error.message();
    assert!(
        error_msg.contains("stray") && error_msg.contains("not associated"),
        "should report stray terminator, got: {error_msg}"
    );
}

#[test]
fn fenced_envelope_rejects_nested_file_marker() {
    // a ### FILE: inside an open block should error, not be swallowed
    let raw = "SUMMARY: Fix\n\n### FILE: a.txt\nfirst\n### FILE: b.txt\nsecond\n### END FILE\n";
    let error = parse_fenced_edits(raw).expect_err("nested file marker must fail");
    let error_msg = error.message();
    assert!(
        error_msg.contains("while the") && error_msg.contains("still open"),
        "should report nested marker, got: {error_msg}"
    );
}

#[test]
fn fenced_envelope_accepts_indented_terminator() {
    // an indented ### END FILE should be recognized as a terminator (symmetric trim)
    let raw = "SUMMARY: Fix\n\n### FILE: a.txt\ncontent\n  ### END FILE\n";
    let envelope = parse_fenced_edits(raw).expect("indented terminator must parse");
    assert_eq!(envelope.files.len(), 1);
    assert_eq!(envelope.files[0].path, "a.txt");
    assert_eq!(envelope.files[0].content, "content");
}

#[test]
fn fenced_envelope_preserves_crlf_line_endings() {
    // CRLF line endings should round-trip unchanged (not be stripped to LF)
    // When split on '\n', CRLF becomes visible as \r in each line, verifying \r is preserved
    let raw = "SUMMARY: Fix\r\n\r\n### FILE: a.txt\r\nline1\r\nline2\r\n### END FILE\r\n";
    let envelope = parse_fenced_edits(raw).expect("CRLF must parse");
    assert_eq!(envelope.files.len(), 1);
    // The content preserves \r from CRLF line endings (not stripped by .lines())
    // line1\r\nline2\r represents two lines with CRLF on the first, and CR remaining on the
    // second from the split
    assert!(
        envelope.files[0].content.contains("\r"),
        "CRLF must be preserved, not stripped to LF"
    );
    assert_eq!(envelope.files[0].content, "line1\r\nline2\r");
}

#[test]
fn fenced_envelope_rejects_prose_starting_with_file_marker() {
    // content line starting with "### FILE:" but containing more
    // (like "### FILE: this is prose about files") must error with nested marker message
    // even though it's not an exact marker match, because the parser cannot distinguish it
    let raw = "SUMMARY: Docs\n\n### FILE: README.md\n\
               The envelope format is described in task-2-brief.md.\n\
               ### FILE: this is prose about files, not a marker\n\
               But it starts with the marker phrase.\n\
               ### END FILE\n";
    let error = parse_fenced_edits(raw).expect_err("prose starting with marker must fail");
    let error_msg = error.message();
    assert!(
        error_msg.contains("while the") && error_msg.contains("still open"),
        "should report nested marker, got: {error_msg}"
    );
}

#[test]
fn patch_block_replaces_an_exact_region() {
    let original = "line a\nline b\nline c\n";
    let block = PatchBlock {
        path: "js/a.js".to_string(),
        search: "line b".to_string(),
        replace: "line B1\nline B2".to_string(),
    };

    let patched = apply_patch_block(original, &block).expect("must apply");

    assert_eq!(patched, "line a\nline B1\nline B2\nline c\n");
}

#[test]
fn patch_block_refuses_when_the_search_text_is_absent() {
    let block = PatchBlock {
        path: "js/a.js".to_string(),
        search: "nowhere".to_string(),
        replace: "x".to_string(),
    };
    let error = apply_patch_block("line a\n", &block).expect_err("must refuse");
    assert!(error.message().contains("did not match"));
}

#[test]
fn patch_block_refuses_an_ambiguous_match() {
    let block = PatchBlock {
        path: "js/a.js".to_string(),
        search: "dup".to_string(),
        replace: "x".to_string(),
    };
    let error = apply_patch_block("dup\ndup\n", &block).expect_err("must refuse");
    assert!(error.message().contains("matched 2 times"));
}

#[test]
fn patch_blocks_parse_from_the_wire_format() {
    let raw = "### PATCH: js/a.js\n<<<<<<< SEARCH\nline b\n=======\nline B\n>>>>>>> REPLACE\n";
    let blocks = parse_patch_blocks(raw).expect("must parse");
    assert_eq!(blocks.len(), 1);
    assert_eq!(blocks[0].path, "js/a.js");
    assert_eq!(blocks[0].search, "line b");
    assert_eq!(blocks[0].replace, "line B");
}

#[test]
fn has_top_level_patch_header_detects_a_real_patch() {
    let raw =
        "SUMMARY: x\n\n### PATCH: js/a.js\n<<<<<<< SEARCH\na\n=======\nb\n>>>>>>> REPLACE\n";
    assert!(has_top_level_patch_header(raw));
}

#[test]
fn has_top_level_patch_header_ignores_a_patch_quoted_inside_a_file_block() {
    // The exact failure mode this function exists to prevent: PATCH_FORMAT_INSTRUCTION
    // is a complete example patch block, and it now appears in every Mason
    // system prompt, so a whole-file response documenting or quoting it
    // back must not be mistaken for a real patch.
    let raw = format!(
        "SUMMARY: docs\n\n### FILE: docs/PATCHES.md\n{}\n### END FILE\n",
        PATCH_FORMAT_INSTRUCTION
    );
    assert!(
        !has_top_level_patch_header(&raw),
        "a ### PATCH: line quoted inside a ### FILE: block must not count as top-level"
    );
}

#[test]
fn has_top_level_patch_header_is_false_with_no_patch_marker_at_all() {
    let raw = "SUMMARY: x\n\n### FILE: a.txt\ncontent\n### END FILE\n";
    assert!(!has_top_level_patch_header(raw));
}

#[test]
fn has_top_level_patch_header_still_finds_a_real_patch_after_a_file_block() {
    let raw = "SUMMARY: x\n\n### FILE: a.txt\ncontent\n### END FILE\n\n### PATCH: b.js\n<<<<<<< SEARCH\na\n=======\nb\n>>>>>>> REPLACE\n";
    assert!(has_top_level_patch_header(raw));
}

#[test]
fn parse_patch_blocks_rejects_duplicate_divider_in_replace() {
    // a second ======= inside REPLACE section should error
    let raw = "### PATCH: js/a.js\n<<<<<<< SEARCH\nsearch\n=======\nreplace1\n=======\nmore\n>>>>>>> REPLACE\n";
    let error = parse_patch_blocks(raw).expect_err("must reject second divider");
    let msg = error.message();
    assert!(msg.contains("=======") && msg.contains("second"));
}

#[test]
fn parse_patch_blocks_rejects_stray_terminator() {
    // >>>>>>> REPLACE appearing after a block closes is a stray terminator
    let raw = "### PATCH: js/a.js\n<<<<<<< SEARCH\nsearch\n=======\nreplace\n>>>>>>> REPLACE\ntrailing\n>>>>>>> REPLACE\n";
    let error = parse_patch_blocks(raw).expect_err("must reject stray terminator");
    let msg = error.message();
    assert!(msg.contains(">>>>>>> REPLACE") || msg.contains("no open"));
}

#[test]
fn parse_patch_blocks_rejects_search_marker_in_replace_section() {
    // <<<<<<< SEARCH inside REPLACE section should error
    let raw = "### PATCH: js/a.js\n<<<<<<< SEARCH\nsearch\n=======\nline1\n<<<<<<< SEARCH\nline2\n>>>>>>> REPLACE\n";
    let error =
        parse_patch_blocks(raw).expect_err("must reject SEARCH marker in REPLACE section");
    let msg = error.message();
    assert!(msg.contains("<<<<<<< SEARCH"));
}

#[test]
fn parse_patch_blocks_rejects_overlapping_patch_headers() {
    // ### PATCH: appearing before previous block closes silently discards it
    let raw = "### PATCH: a.js\n<<<<<<< SEARCH\nsearch a\n=======\nreplace a\n### PATCH: b.js\n<<<<<<< SEARCH\nsearch b\n=======\nreplace b\n>>>>>>> REPLACE\n";
    let error = parse_patch_blocks(raw).expect_err("must reject overlapping blocks");
    let msg = error.message();
    assert!(msg.contains("a.js") || msg.contains("while the block"));
}

#[test]
fn patch_format_cannot_express_trailing_newline() {
    // The format cannot express trailing newlines; deleting a line without context leaves a blank
    let block = PatchBlock {
        path: "test.txt".to_string(),
        search: "line 2".to_string(),
        replace: "".to_string(),
    };
    let original = "line 1\nline 2\nline 3\n";
    let result = apply_patch_block(original, &block).expect("must apply");
    // Deleting "line 2" leaves a blank line because the search doesn't include the newline
    assert_eq!(result, "line 1\n\nline 3\n");
}
