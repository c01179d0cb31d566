use harkonnen::mason_guard::{read_refusal, unreadable_write_marker};
use harkonnen::mason_tools::{
    parse_tool_call, parse_tool_calls, render_tool_result, MasonTool, TOOL_LOOP_INSTRUCTION,
};

#[test]
fn tool_calls_parse_from_the_wire_format() {
    assert_eq!(
        parse_tool_call("### TOOL: read_file\npath: js/data.js\n"),
        Some(MasonTool::ReadFile {
            path: "js/data.js".to_string()
        })
    );
    assert_eq!(
        parse_tool_call("### TOOL: list_dir\npath: js\n"),
        Some(MasonTool::ListDir {
            path: "js".to_string()
        })
    );
    assert_eq!(parse_tool_call("SUMMARY: done\n"), None);
}

#[test]
fn write_file_tool_carries_its_content_block() {
    let raw = "### TOOL: write_file\npath: js/bonus.js\n### CONTENT\nG.rooms.bonus = {};\n### END CONTENT\n";
    let Some(MasonTool::WriteFile { path, content }) = parse_tool_call(raw) else {
        panic!("expected a write_file call");
    };
    assert_eq!(path, "js/bonus.js");
    assert_eq!(content.trim(), "G.rooms.bonus = {};");
}

#[test]
fn a_message_with_no_tool_header_is_terminal_not_an_error() {
    let calls = parse_tool_calls("SUMMARY: done\nI wrote everything already.\n")
        .expect("prose is not an error");
    assert!(calls.is_empty(), "no header means the model is finished");
}

#[test]
fn several_tool_calls_in_one_message_all_survive() {
    let raw = "\
### TOOL: read_file
path: js/data.js
### TOOL: write_file
path: js/a.js
### CONTENT
a
### END CONTENT
### TOOL: list_dir
path: js
";
    let calls = parse_tool_calls(raw).expect("three calls must parse");
    assert_eq!(
        calls,
        vec![
            MasonTool::ReadFile {
                path: "js/data.js".to_string()
            },
            MasonTool::WriteFile {
                path: "js/a.js".to_string(),
                content: "a".to_string()
            },
            MasonTool::ListDir {
                path: "js".to_string()
            },
        ],
        "a second call must not overwrite the first"
    );
}

#[test]
fn an_unknown_tool_name_is_refused_rather_than_read_as_finishing() {
    let error = parse_tool_calls("### TOOL: delete_file\npath: js/a.js\n")
        .expect_err("an unknown tool must not parse");
    let message = error.message();
    assert!(
        message.contains("delete_file"),
        "the error must name the tool: {message}"
    );
}

#[test]
fn a_tool_call_without_a_path_is_refused() {
    let error =
        parse_tool_calls("### TOOL: read_file\nI forgot the path\n").expect_err("no path");
    assert!(error.message().contains("missing its 'path:' line"));
}

#[test]
fn a_write_without_a_content_block_is_refused() {
    let error =
        parse_tool_calls("### TOOL: write_file\npath: js/a.js\n").expect_err("no content");
    assert!(error.message().contains("nothing to write"));
}

#[test]
fn an_empty_content_block_writes_an_empty_file() {
    let call =
        parse_tool_call("### TOOL: write_file\npath: js/a.js\n### CONTENT\n### END CONTENT\n")
            .expect("an empty file is a legal write");
    assert_eq!(
        call,
        MasonTool::WriteFile {
            path: "js/a.js".to_string(),
            content: String::new()
        }
    );
}

#[test]
fn an_unclosed_content_block_is_refused_rather_than_truncated() {
    let raw = "### TOOL: write_file\npath: js/a.js\n### CONTENT\nline one\nline two\n";
    let error = parse_tool_calls(raw).expect_err("a cut-off write must not parse");
    let message = error.message();
    assert!(
        message.contains("never closed"),
        "the error must say the block never closed: {message}"
    );
}

#[test]
fn a_tool_header_inside_an_open_content_block_is_refused() {
    // The failure this guard exists for: without it, the second call and
    // every line after it is swallowed into the first file's content, and
    // the loop reports success having written a corrupted file and dropped
    // a write entirely.
    let raw = "\
### TOOL: write_file
path: js/a.js
### CONTENT
a
### TOOL: write_file
path: js/b.js
### CONTENT
b
### END CONTENT
";
    let error = parse_tool_calls(raw).expect_err("a missing closer must not parse");
    assert!(error.message().contains("still open"));
}

#[test]
fn a_stray_end_content_marker_is_refused() {
    let error = parse_tool_calls("### TOOL: read_file\npath: js/a.js\n### END CONTENT\n")
        .expect_err("a stray closer must not parse");
    assert!(error.message().contains("stray"));
}

#[test]
fn a_content_block_on_a_read_call_is_refused() {
    let raw = "### TOOL: read_file\npath: js/a.js\n### CONTENT\nx\n### END CONTENT\n";
    let error = parse_tool_calls(raw).expect_err("read_file takes no content");
    assert!(error.message().contains("only '### TOOL: write_file' accepts"));
}

#[test]
fn tool_calls_and_prose_coexist() {
    let raw = "\
Let me look at the data file first.

### TOOL: read_file
path: js/data.js

I will decide what to write once I see it.
";
    assert_eq!(
        parse_tool_calls(raw).expect("prose around a call is fine"),
        vec![MasonTool::ReadFile {
            path: "js/data.js".to_string()
        }]
    );
}

#[test]
fn plain_prose_and_markdown_headings_still_terminate() {
    // The other side of the guard: rejecting too much would strand a model
    // that really is finished, burning its whole turn budget on a message
    // that was correct.
    for terminal in [
        "SUMMARY: done\n",
        "I have written both files. Nothing else is needed.\n",
        "## Summary\n\nAdded the bonus room and wired it up.\n",
        "### Notes\n\n- the room id is `bonus`\n",
        // The near-miss matcher must not read ordinary headings as mangled
        // markers, or a model that writes a normal summary is rejected
        // every turn until its budget is gone.
        "## Files changed\n\n- js/bonus.js\n",
        "### Patching notes\n\nNone needed.\n",
        "#### Toolchain\n\nNo change.\n",
        "### Contents of the room\n\nA lamp.\n",
    ] {
        assert_eq!(
            unreadable_write_marker(terminal),
            None,
            "must terminate cleanly: {terminal:?}"
        );
    }
}

#[test]
fn a_near_miss_marker_inside_written_content_is_not_a_near_miss() {
    // Block-awareness has to survive the looser matcher too, or Mason can
    // never write a file that documents these formats — this repo's own
    // `mason_transport.rs` being the obvious example.
    let raw = "### TOOL: write_file\npath: docs/f.md\n### CONTENT\n\
               #### TOOL: write_file\n#### FILE: x\n{\"edits\":[]}\n### END CONTENT\n";
    assert_eq!(unreadable_write_marker(raw), None);
}

#[test]
fn an_indented_end_content_marker_closes_the_block_and_the_instruction_says_so() {
    // The parser trims before comparing, symmetrically with
    // `collect_fenced_edits`, so a markdown-indented marker DOES end the
    // write and everything after it is lost. That behaviour is deliberate
    // and shared; the fix is that the model is now warned about it rather
    // than left to discover it by losing a file.
    let raw =
        "### TOOL: write_file\npath: js/a.js\n### CONTENT\nkept\n    ### END CONTENT\nlost\n";
    let call = parse_tool_call(raw).expect("the indented marker closes the block");
    assert_eq!(
        call,
        MasonTool::WriteFile {
            path: "js/a.js".to_string(),
            content: "kept".to_string()
        },
        "indentation does not exempt a marker — pinning the parser's actual behaviour"
    );

    assert!(
        TOOL_LOOP_INSTRUCTION.contains("Indenting such a line does NOT make it safe"),
        "the instruction must warn about the indented case, since the parser cannot"
    );
    assert!(
        TOOL_LOOP_INSTRUCTION.contains("only non-whitespace text"),
        "the instruction must describe the trim-then-compare rule, not 'consists solely of'"
    );
}

#[test]
fn ordinary_source_reads_are_not_refused() {
    assert_eq!(read_refusal("js/data.js"), None);
    assert_eq!(read_refusal("src/lib.rs"), None);
    assert_eq!(read_refusal("environment/setup.md"), None);
    assert!(read_refusal(".env.local").is_some());
    assert!(read_refusal("certs/server.pem").is_some());
    assert!(read_refusal("node_modules/left-pad/index.js").is_some());
}

#[test]
fn tool_results_render_in_the_shape_the_model_was_promised() {
    let tool = MasonTool::ListDir {
        path: "js".to_string(),
    };
    assert_eq!(
        render_tool_result(&tool, "a.js\nb.js"),
        "### TOOL RESULT: list_dir\na.js\nb.js\n### END TOOL RESULT"
    );
}
