use harkonnen::mason_guard::{blocked_path_prefixes, unreadable_line_wording};
use harkonnen::mason_tools::{ToolFault, TOOL_LOOP_INSTRUCTION};
use harkonnen::mason_transport::TransportFault;
use harkonnen::tool_loop::{LoopAction, LoopFault, Message, Phase, ToolLoop};

#[test]
fn a_refused_response_shows_a_path_as_it_is_given() {
    let fault: TransportFault<String, usize> =
        TransportFault::ImplausiblePath { path: "a\"b".to_string() };
    assert_eq!(
        fault.wording("<shown>", ""),
        "a ### FILE: block declared an implausible path: <shown>"
    );
    assert_eq!(
        fault.message(),
        "a ### FILE: block declared an implausible path: \"a\\\"b\""
    );
    let fault: TransportFault<String, usize> = TransportFault::PatchHeaderInOpenBlock {
        line: 7,
        open: None,
        found: "b.rs".to_string(),
    };
    assert_eq!(
        fault.wording("<open>", "<found>"),
        "line 7: a new patch header appeared while the block for <open> was still open — found \
         ### PATCH: <found>"
    );
    assert_eq!(
        fault.message(),
        "line 7: a new patch header appeared while the block for \"(unknown)\" was still open — \
         found ### PATCH: \"b.rs\""
    );
}

#[test]
fn a_refused_call_shows_a_path_as_it_is_given() {
    let fault: ToolFault<String, usize> = ToolFault::UnclosedContent { path: None };
    assert_eq!(
        fault.wording("<shown>"),
        "the '### CONTENT' block for <shown> was never closed with '### END CONTENT' — the \
         response was cut off, so the file content is incomplete. Raise the token budget or write \
         a smaller file."
    );
    assert!(fault.message().starts_with("the '### CONTENT' block for \"<unknown>\" was never"));
}

#[test]
fn an_ended_loop_shows_a_path_as_it_is_given() {
    let fault: LoopFault<String, u32> = LoopFault::AbsolutePath {
        tool: "read_file".to_string(),
        path: "/x\n".to_string(),
    };
    assert_eq!(
        fault.wording("<shown>"),
        "Mason's 'read_file' tool call uses the absolute path <shown>. Tool paths must be \
         relative to the staged workspace root."
    );
    assert_eq!(
        fault.message(),
        "Mason's 'read_file' tool call uses the absolute path \"/x\\n\". Tool paths must be \
         relative to the staged workspace root."
    );
}

#[test]
fn an_unreadable_line_is_shown_as_it_is_given() {
    assert_eq!(unreadable_line_wording("### TOOL: read_file", 1, "<shown>"), None);
    assert_eq!(unreadable_line_wording("### END CONTENT", 1, "<shown>"), None);
    assert_eq!(unreadable_line_wording("some words", 1, "<shown>"), None);
    let told = unreadable_line_wording("## TOOL: read_file", 3, "<shown>").expect("nearly hit");
    assert!(told.starts_with("line 3: <shown> looks like a 'TOOL' marker but is not one"));
    let told = unreadable_line_wording("\"path\": \"a\"", 4, "<shown>").expect("a proposal");
    assert!(told.starts_with("line 4: <shown> looks like a JSON edit proposal."));
}

#[test]
fn a_refused_reply_is_answered_with_the_reason() {
    let mut tool_loop = ToolLoop::new(
        vec![Message::user("do the work".to_string())],
        2,
        blocked_path_prefixes(),
        false,
    );
    let action = tool_loop.refuse_reply("reply".to_string(), "the reason".to_string());
    assert!(matches!(action, LoopAction::Ask));
    let messages = tool_loop.messages();
    assert_eq!(messages.len(), 3);
    assert_eq!(messages[1].content, "reply");
    assert_eq!(
        messages[2].content,
        format!(
            "Your previous message could not be used: the reason\n\n{TOOL_LOOP_INSTRUCTION}"
        )
    );
    let action = tool_loop.refuse_reply("again".to_string(), "the last reason".to_string());
    assert!(tool_loop.phase() == Phase::Done);
    match action {
        LoopAction::Fail { error } => assert_eq!(
            error.message(),
            "Mason used all 2 tool turns without settling on a final set of writes. The last \
             turn was rejected: the last reason"
        ),
        _ => panic!("the turns are used up"),
    }
}
