//! What each line of a message means: tool calls, whole files, patches, and the
//! summary with its reasons.

use vstd::prelude::*;

use crate::lines::{
    join, join_lines, lemma_read_next, lemma_read_stops, lemma_split_of_join, lines_of, read,
    LineMachine,
};
use crate::mason_tools::{
    finished, settled, tool_calls, tool_start, ContentModel, PendingModel, ToolFault,
    ToolFaultModel, ToolMachine, ToolModel, ToolState,
};
use crate::mason_transport::{
    fenced_end, fenced_files, fenced_start, patch_blocks, patch_end, patch_start, summary_start,
    tracker_next, tracker_outside, FencedMachine, FencedState, FileModel, OpenFile, PatchMachine, PatchModel,
    PatchSection, PatchState, SummaryMachine, SummaryState, TrackerModel, TransportFault,
    TransportFaultModel,
};
use crate::text::{byte_count, trimmed};

verus! {

// ---------------------------------------------------------------------------
// Tool calls
// ---------------------------------------------------------------------------

/// The state after a line, or the fault.
pub open spec fn tool_step(state: ToolState, line: Seq<char>, number: nat) -> Result<
    ToolState,
    ToolFaultModel,
> {
    ToolMachine::step(state, line, number)
}

/// Whether the text of a file is being read.
pub open spec fn in_content(state: ToolState) -> bool {
    state.pending is Some && state.pending->Some_0.content is Open
}

proof fn lemma_tool_literals()
    ensures
        "### TOOL:"@.len() == 9,
        "### TOOL:"@[4] == 'T',
        "path:"@.len() == 5,
        "path:"@[0] == 'p',
        "### CONTENT"@.len() == 11,
        "### CONTENT"@[0] == '#',
        "### CONTENT"@[4] == 'C',
        "### END CONTENT"@.len() == 15,
        "### END CONTENT"@[0] == '#',
        "### END CONTENT"@[4] == 'E',
        "### TOOL:"@[0] == '#',
        "read_file"@ != "list_dir"@,
        "read_file"@ != "write_file"@,
        "list_dir"@ != "write_file"@,
{
    reveal_strlit("### TOOL:");
    reveal_strlit("path:");
    reveal_strlit("### CONTENT");
    reveal_strlit("### END CONTENT");
    reveal_strlit("read_file");
    reveal_strlit("list_dir");
    reveal_strlit("write_file");
    assert("read_file"@.len() == 9);
    assert("list_dir"@.len() == 8);
    assert("write_file"@.len() == 10);
}

/// A tool header ends the call before it and begins one that has neither a path
/// nor content yet. A header without a name is refused, and so is the message
/// where the call before it is not complete.
pub proof fn law_tool_header(state: ToolState, line: Seq<char>, rest: Seq<char>, number: nat)
    requires
        !in_content(state),
        trimmed(line) == "### TOOL:"@ + rest,
    ensures
        match settled(state) {
            Err(fault) => tool_step(state, line, number) == Err::<ToolState, ToolFaultModel>(fault),
            Ok(calls) => if trimmed(rest).len() == 0 {
                tool_step(state, line, number) == Err::<ToolState, ToolFaultModel>(
                    ToolFault::UnnamedTool { line: number },
                )
            } else {
                tool_step(state, line, number) == Ok::<ToolState, ToolFaultModel>(
                    ToolState {
                        calls,
                        pending: Some(
                            PendingModel {
                                kind: trimmed(rest),
                                line: number,
                                path: None,
                                content: ContentModel::Absent,
                            },
                        ),
                    },
                )
            },
        },
{
    let mark = "### TOOL:"@ + rest;
    lemma_tool_literals();
    assert("### TOOL:"@ =~= mark.subrange(0, 9));
    assert(mark.skip(9) =~= rest);
}

/// A path line gives the call its path. A second path, a path that is empty and
/// one of more than 200 bytes are refused; without a call the line means nothing.
pub proof fn law_path_line(state: ToolState, line: Seq<char>, rest: Seq<char>, number: nat)
    requires
        !in_content(state),
        trimmed(line) == "path:"@ + rest,
    ensures
        match state.pending {
            None => tool_step(state, line, number) == Ok::<ToolState, ToolFaultModel>(state),
            Some(pending) => tool_step(state, line, number) == if pending.path is Some {
                Err::<ToolState, ToolFaultModel>(
                    ToolFault::SecondPath { line: number, kind: pending.kind },
                )
            } else if trimmed(rest).len() == 0 {
                Err(ToolFault::EmptyPath { line: number, kind: pending.kind })
            } else if byte_count(trimmed(rest)) > 200 {
                Err(
                    ToolFault::LongPath {
                        line: number,
                        kind: pending.kind,
                        length: byte_count(trimmed(rest)),
                    },
                )
            } else {
                Ok(
                    ToolState {
                        calls: state.calls,
                        pending: Some(PendingModel { path: Some(trimmed(rest)), ..pending }),
                    },
                )
            },
        },
{
    let mark = "path:"@ + rest;
    lemma_tool_literals();
    assert("path:"@ =~= mark.subrange(0, 5));
    assert(mark.skip(5) =~= rest);
    assert(mark[0] == 'p');
    assert(!"### TOOL:"@.is_prefix_of(mark)) by {
        if "### TOOL:"@.is_prefix_of(mark) {
            assert(mark.subrange(0, 9)[0] == '#');
        }
    }
}

/// A content marker opens the content of the call, once. Outside a call it is
/// refused, and so is the end of content that is not open.
pub proof fn law_content_markers(state: ToolState, line: Seq<char>, number: nat)
    requires
        !in_content(state),
    ensures
        trimmed(line) == "### CONTENT"@ ==> match state.pending {
            None => tool_step(state, line, number) == Err::<ToolState, ToolFaultModel>(
                ToolFault::ContentOutsideCall { line: number },
            ),
            Some(pending) => if pending.content is Closed {
                tool_step(state, line, number) == Err::<ToolState, ToolFaultModel>(
                    ToolFault::SecondContent { line: number, kind: pending.kind },
                )
            } else {
                tool_step(state, line, number) == Ok::<ToolState, ToolFaultModel>(
                    ToolState {
                        calls: state.calls,
                        pending: Some(
                            PendingModel { content: ContentModel::Open(Seq::empty()), ..pending },
                        ),
                    },
                )
            },
        },
        trimmed(line) == "### END CONTENT"@ ==> tool_step(state, line, number) == Err::<
            ToolState,
            ToolFaultModel,
        >(ToolFault::StrayEndContent { line: number }),
{
    lemma_tool_literals();
    let mark = trimmed(line);
    if mark == "### CONTENT"@ || mark == "### END CONTENT"@ {
        if "### TOOL:"@.is_prefix_of(mark) {
            assert(mark.subrange(0, 9)[4] == mark[4]);
        }
        if "path:"@.is_prefix_of(mark) {
            assert(mark.subrange(0, 5)[0] == mark[0]);
        }
    }
}

/// Inside content every line is kept as it is, but for the one that ends the
/// content; a tool header is refused there.
pub proof fn law_content_line(
    state: ToolState,
    pending: PendingModel,
    body: Seq<Seq<char>>,
    line: Seq<char>,
    number: nat,
)
    requires
        state.pending == Some(pending),
        pending.content == ContentModel::Open(body),
    ensures
        tool_step(state, line, number) == if trimmed(line) == "### END CONTENT"@ {
            Ok::<ToolState, ToolFaultModel>(
                ToolState {
                    calls: state.calls,
                    pending: Some(PendingModel { content: ContentModel::Closed(body), ..pending }),
                },
            )
        } else if "### TOOL:"@.is_prefix_of(trimmed(line)) {
            Err(ToolFault::HeaderInContent { line: number })
        } else {
            Ok(
                ToolState {
                    calls: state.calls,
                    pending: Some(
                        PendingModel { content: ContentModel::Open(body.push(line)), ..pending },
                    ),
                },
            )
        },
{
}

/// Every other line is prose and changes nothing.
pub proof fn law_prose_line(state: ToolState, line: Seq<char>, number: nat)
    requires
        !in_content(state),
        !"### TOOL:"@.is_prefix_of(trimmed(line)),
        !"path:"@.is_prefix_of(trimmed(line)),
        trimmed(line) != "### CONTENT"@,
        trimmed(line) != "### END CONTENT"@,
    ensures
        tool_step(state, line, number) == Ok::<ToolState, ToolFaultModel>(state),
{
}

/// There are three tools. A call needs a path; a read and a listing take no
/// content, a write needs it, and its lines make up what is written.
pub proof fn law_call_is_complete(pending: PendingModel)
    ensures
        pending.path is None ==> finished(pending) == Err::<ToolModel, ToolFaultModel>(
            ToolFault::MissingPath { line: pending.line, kind: pending.kind },
        ),
        pending.path matches Some(path) ==> {
            &&& pending.kind == "read_file"@ && pending.content is Absent ==> finished(pending)
                == Ok::<ToolModel, ToolFaultModel>(ToolModel::ReadFile { path })
            &&& pending.kind == "list_dir"@ && pending.content is Absent ==> finished(pending)
                == Ok::<ToolModel, ToolFaultModel>(ToolModel::ListDir { path })
            &&& (pending.kind == "read_file"@ || pending.kind == "list_dir"@)
                && pending.content !is Absent ==> finished(pending) == Err::<
                ToolModel,
                ToolFaultModel,
            >(ToolFault::ContentNotAccepted { line: pending.line, kind: pending.kind })
            &&& pending.kind == "write_file"@ && pending.content is Absent ==> finished(pending)
                == Err::<ToolModel, ToolFaultModel>(
                ToolFault::MissingContent { line: pending.line, path },
            )
            &&& pending.kind == "write_file"@ ==> (pending.content matches ContentModel::Closed(
                body,
            ) ==> finished(pending) == Ok::<ToolModel, ToolFaultModel>(
                ToolModel::WriteFile { path, content: join(body, seq!['\n']) },
            ))
            &&& pending.kind != "read_file"@ && pending.kind != "list_dir"@ && pending.kind
                != "write_file"@ ==> finished(pending) == Err::<ToolModel, ToolFaultModel>(
                ToolFault::UnknownTool { line: pending.line, kind: pending.kind },
            )
        },
{
    lemma_tool_literals();
}

/// A call that was begun is settled with the calls before it.
pub proof fn law_settled(calls: Seq<ToolModel>, pending: PendingModel)
    ensures
        settled(ToolState { calls, pending: None }) == Ok::<Seq<ToolModel>, ToolFaultModel>(calls),
        finished(pending) matches Ok(call) ==> settled(
            ToolState { calls, pending: Some(pending) },
        ) == Ok::<Seq<ToolModel>, ToolFaultModel>(calls.push(call)),
        finished(pending) matches Err(fault) ==> settled(
            ToolState { calls, pending: Some(pending) },
        ) == Err::<Seq<ToolModel>, ToolFaultModel>(fault),
{
}

/// A message is refused for its first line that is refused; one that ends inside
/// content is refused with the path; and otherwise it has the calls that were
/// settled.
pub proof fn law_tool_message(lines: Seq<Seq<char>>, state: ToolState, count: int)
    requires
        lines.len() > 0,
        forall|i: int| 0 <= i < lines.len() ==> !(#[trigger] lines[i]).contains('\n'),
        0 <= count <= lines.len(),
        read::<ToolMachine>(lines.take(count), 0, tool_start()) == Ok::<ToolState, ToolFaultModel>(
            state,
        ),
    ensures
        count < lines.len() ==> (tool_step(state, lines[count], (count + 1) as nat) matches Err(
            fault,
        ) ==> tool_calls(join_lines(lines)) == Err::<Seq<ToolModel>, ToolFaultModel>(fault)),
        count == lines.len() && in_content(state) ==> tool_calls(join_lines(lines)) == Err::<
            Seq<ToolModel>,
            ToolFaultModel,
        >(ToolFault::UnclosedContent { path: state.pending->Some_0.path }),
        count == lines.len() && !in_content(state) ==> tool_calls(join_lines(lines)) == settled(
            state,
        ),
        tool_start() == (ToolState { calls: Seq::empty(), pending: None }),
{
    lemma_split_of_join(lines, '\n');
    if count < lines.len() {
        lemma_read_next::<ToolMachine>(lines, 0, tool_start(), count);
        if tool_step(state, lines[count], (count + 1) as nat) is Err {
            lemma_read_stops::<ToolMachine>(lines, 0, tool_start(), count + 1);
        }
    } else {
        assert(lines.take(count) =~= lines);
    }
}

// ---------------------------------------------------------------------------
// Whole files
// ---------------------------------------------------------------------------

/// The state after a line, or the fault.
pub open spec fn file_step(state: FencedState, line: Seq<char>, number: nat) -> Result<
    FencedState,
    TransportFaultModel,
> {
    FencedMachine::step(state, line, number)
}

/// A file header opens a file. A path that is empty, one with a double quote and
/// one of more than 200 bytes are refused.
pub proof fn law_file_header(
    files: Seq<FileModel>,
    line: Seq<char>,
    rest: Seq<char>,
    number: nat,
)
    requires
        trimmed(line) == "### FILE:"@ + rest,
    ensures
        file_step(FencedState { files, open: None }, line, number) == if trimmed(rest).len() == 0 {
            Err::<FencedState, TransportFaultModel>(TransportFault::EmptyPath)
        } else if trimmed(rest).contains('"') || byte_count(trimmed(rest)) > 200 {
            Err(TransportFault::ImplausiblePath { path: trimmed(rest) })
        } else {
            Ok(
                FencedState {
                    files,
                    open: Some(OpenFile { path: trimmed(rest), body: Seq::empty() }),
                },
            )
        },
{
    reveal_strlit("### FILE:");
    let mark = "### FILE:"@ + rest;
    assert("### FILE:"@ =~= mark.subrange(0, 9));
    assert(mark.skip(9) =~= rest);
}

/// Inside a file every line is kept as it is, but for the one that ends the file;
/// a file header is refused there.
pub proof fn law_file_line(
    files: Seq<FileModel>,
    file: OpenFile,
    line: Seq<char>,
    number: nat,
)
    ensures
        file_step(FencedState { files, open: Some(file) }, line, number) == if trimmed(line)
            == "### END FILE"@ {
            Ok::<FencedState, TransportFaultModel>(
                FencedState {
                    files: files.push(
                        FileModel { path: file.path, content: join(file.body, seq!['\n']) },
                    ),
                    open: None,
                },
            )
        } else if "### FILE:"@.is_prefix_of(trimmed(line)) {
            Err(TransportFault::NestedFileMarker { line: number, path: file.path })
        } else {
            Ok(
                FencedState {
                    files,
                    open: Some(OpenFile { path: file.path, body: file.body.push(line) }),
                },
            )
        },
{
}

/// Outside a file the end of one is refused, and every line but a header means
/// nothing.
pub proof fn law_line_between_files(files: Seq<FileModel>, line: Seq<char>, number: nat)
    requires
        !"### FILE:"@.is_prefix_of(trimmed(line)),
    ensures
        file_step(FencedState { files, open: None }, line, number) == if trimmed(line)
            == "### END FILE"@ {
            Err::<FencedState, TransportFaultModel>(TransportFault::StrayEndMarker { line: number })
        } else {
            Ok(FencedState { files, open: None })
        },
{
}

/// A response is refused for its first line that is refused; one that ends inside
/// a file is refused with its path, and one without files is refused too.
pub proof fn law_file_message(lines: Seq<Seq<char>>, state: FencedState, count: int)
    requires
        lines.len() > 0,
        forall|i: int| 0 <= i < lines.len() ==> !(#[trigger] lines[i]).contains('\n'),
        0 <= count <= lines.len(),
        read::<FencedMachine>(lines.take(count), 0, fenced_start()) == Ok::<
            FencedState,
            TransportFaultModel,
        >(state),
    ensures
        count < lines.len() ==> (file_step(state, lines[count], (count + 1) as nat) matches Err(
            fault,
        ) ==> fenced_files(join_lines(lines)) == Err::<Seq<FileModel>, TransportFaultModel>(fault)),
        count == lines.len() ==> fenced_files(join_lines(lines)) == match state.open {
            Some(file) => Err::<Seq<FileModel>, TransportFaultModel>(
                TransportFault::UnclosedFile { path: file.path },
            ),
            None => if state.files.len() == 0 {
                Err(TransportFault::NoFileBlocks)
            } else {
                Ok(state.files)
            },
        },
        fenced_start() == (FencedState { files: Seq::empty(), open: None }),
{
    lemma_split_of_join(lines, '\n');
    if count < lines.len() {
        lemma_read_next::<FencedMachine>(lines, 0, fenced_start(), count);
        if file_step(state, lines[count], (count + 1) as nat) is Err {
            lemma_read_stops::<FencedMachine>(lines, 0, fenced_start(), count + 1);
        }
    } else {
        assert(lines.take(count) =~= lines);
    }
}

// ---------------------------------------------------------------------------
// Inside or outside a block
// ---------------------------------------------------------------------------

/// A block that is open is closed by its own closing line and by no other; a file
/// header opens one that `### END FILE` closes, and, where patches count, a patch
/// header one that `>>>>>>> REPLACE` closes.
pub proof fn law_tracker(patches: bool, closer: Seq<char>, mark: Seq<char>)
    ensures
        tracker_outside(TrackerModel { closing: Some(closer), patches }, mark) <==> mark == closer,
        tracker_outside(TrackerModel { closing: None, patches }, mark),
        tracker_next(TrackerModel { closing: Some(closer), patches }, mark) == (TrackerModel {
            closing: if mark == closer {
                None
            } else {
                Some(closer)
            },
            patches,
        }),
        "### FILE:"@.is_prefix_of(mark) ==> tracker_next(
            TrackerModel { closing: None, patches },
            mark,
        ) == (TrackerModel { closing: Some("### END FILE"@), patches }),
        "### PATCH:"@.is_prefix_of(mark) ==> tracker_next(
            TrackerModel { closing: None, patches: true },
            mark,
        ) == (TrackerModel { closing: Some(">>>>>>> REPLACE"@), patches: true }),
        "### PATCH:"@.is_prefix_of(mark) ==> tracker_next(
            TrackerModel { closing: None, patches: false },
            mark,
        ) == (TrackerModel { closing: None, patches: false }),
        !"### FILE:"@.is_prefix_of(mark) && !"### PATCH:"@.is_prefix_of(mark) ==> tracker_next(
            TrackerModel { closing: None, patches },
            mark,
        ) == (TrackerModel { closing: None, patches }),
{
    reveal_strlit("### FILE:");
    reveal_strlit("### PATCH:");
    if "### FILE:"@.is_prefix_of(mark) && "### PATCH:"@.is_prefix_of(mark) {
        assert(mark.subrange(0, 9)[4] == mark[4]);
        assert(mark.subrange(0, 10)[4] == mark[4]);
        assert("### FILE:"@[4] == 'F');
        assert("### PATCH:"@[4] == 'P');
    }
}

// ---------------------------------------------------------------------------
// Summary and reasons
// ---------------------------------------------------------------------------

/// The state after a line.
pub open spec fn summary_step(state: SummaryState, line: Seq<char>) -> SummaryState {
    SummaryMachine::step(state, line, 1)->Ok_0
}

proof fn lemma_summary_literals()
    ensures
        "SUMMARY:"@.len() == 8,
        "SUMMARY:"@[0] == 'S',
        "RATIONALE:"@.len() == 10,
        "RATIONALE:"@[0] == 'R',
        "- "@.len() == 2,
        "- "@[0] == '-',
        "### FILE:"@.len() == 9,
        "### FILE:"@[0] == '#',
        "### PATCH:"@.len() == 10,
        "### PATCH:"@[0] == '#',
{
    reveal_strlit("SUMMARY:");
    reveal_strlit("RATIONALE:");
    reveal_strlit("- ");
    reveal_strlit("### FILE:");
    reveal_strlit("### PATCH:");
}

proof fn lemma_no_block_header(mark: Seq<char>)
    requires
        mark.len() > 0,
        mark[0] != '#',
    ensures
        !"### FILE:"@.is_prefix_of(mark),
        !"### PATCH:"@.is_prefix_of(mark),
{
    lemma_summary_literals();
    if "### FILE:"@.is_prefix_of(mark) {
        assert(mark.subrange(0, 9)[0] == mark[0]);
    }
    if "### PATCH:"@.is_prefix_of(mark) {
        assert(mark.subrange(0, 10)[0] == mark[0]);
    }
}

/// Outside any block a summary takes the place of an earlier one, and ends the
/// reasons.
pub proof fn law_summary_line(state: SummaryState, line: Seq<char>, rest: Seq<char>)
    requires
        state.tracker.closing is None,
        trimmed(line) == "SUMMARY:"@ + rest,
    ensures
        summary_step(state, line) == (SummaryState {
            summary: trimmed(rest),
            in_rationale: false,
            ..state
        }),
{
    let mark = "SUMMARY:"@ + rest;
    lemma_summary_literals();
    assert(mark[0] == 'S');
    lemma_no_block_header(mark);
    assert("SUMMARY:"@ =~= mark.subrange(0, 8));
    assert(mark.skip(8) =~= rest);
}

/// Outside any block the items behind `RATIONALE:` are the reasons, in order.
pub proof fn law_reason_line(state: SummaryState, line: Seq<char>, rest: Seq<char>)
    requires
        state.tracker.closing is None,
    ensures
        trimmed(line) == "RATIONALE:"@ ==> summary_step(state, line) == (SummaryState {
            in_rationale: true,
            ..state
        }),
        trimmed(line) == "- "@ + rest && state.in_rationale ==> summary_step(state, line) == (
        SummaryState { rationale: state.rationale.push(trimmed(rest)), ..state }),
        trimmed(line) == "- "@ + rest && !state.in_rationale ==> summary_step(state, line) == state,
{
    lemma_summary_literals();
    let mark = trimmed(line);
    if mark == "RATIONALE:"@ {
        lemma_no_block_header(mark);
        assert(mark[0] == 'R');
        if "SUMMARY:"@.is_prefix_of(mark) {
            assert(mark.subrange(0, 8)[0] == mark[0]);
        }
    }
    if mark == "- "@ + rest {
        assert(mark[0] == '-');
        lemma_no_block_header(mark);
        if "SUMMARY:"@.is_prefix_of(mark) {
            assert(mark.subrange(0, 8)[0] == mark[0]);
        }
        assert("- "@ =~= mark.subrange(0, 2));
        assert(mark.skip(2) =~= rest);
    }
}

/// A block ends the reasons, what stands inside it is neither summary nor reason,
/// and every other line means nothing.
pub proof fn law_other_line(state: SummaryState, line: Seq<char>)
    ensures
        ({
            let after = summary_step(state, line);
            let mark = trimmed(line);
            &&& after.tracker == tracker_next(state.tracker, mark)
            &&& state.tracker.closing is None && ("### FILE:"@.is_prefix_of(mark)
                || "### PATCH:"@.is_prefix_of(mark)) ==> after.summary == state.summary
                && after.rationale == state.rationale && !after.in_rationale
            &&& state.tracker.closing is Some && state.tracker.closing != Some(mark)
                ==> after.summary == state.summary && after.rationale == state.rationale
                && after.in_rationale == state.in_rationale
            &&& !"SUMMARY:"@.is_prefix_of(mark) && !"- "@.is_prefix_of(mark) ==> after.summary
                == state.summary && after.rationale == state.rationale
        }),
        summary_start() == (SummaryState {
            tracker: TrackerModel { closing: None, patches: true },
            summary: Seq::empty(),
            rationale: Seq::empty(),
            in_rationale: false,
        }),
{
}

// ---------------------------------------------------------------------------
// Patches
// ---------------------------------------------------------------------------

/// The state after a line, or the fault.
pub open spec fn patch_step(state: PatchState, line: Seq<char>, number: nat) -> Result<
    PatchState,
    TransportFaultModel,
> {
    PatchMachine::step(state, line, number)
}

proof fn lemma_patch_literals()
    ensures
        "### PATCH:"@.len() == 10,
        "### PATCH:"@[0] == '#',
        "### PATCH:"@[4] == 'P',
        "### FILE:"@.len() == 9,
        "### FILE:"@[0] == '#',
        "### FILE:"@[4] == 'F',
        "<<<<<<< SEARCH"@.len() == 14,
        "<<<<<<< SEARCH"@[0] == '<',
        "======="@.len() == 7,
        "======="@[0] == '=',
        ">>>>>>> REPLACE"@.len() == 15,
        ">>>>>>> REPLACE"@[0] == '>',
{
    reveal_strlit("### PATCH:");
    reveal_strlit("### FILE:");
    reveal_strlit("<<<<<<< SEARCH");
    reveal_strlit("=======");
    reveal_strlit(">>>>>>> REPLACE");
}

/// A patch header begins a patch afresh, and is refused inside a patch.
pub proof fn law_patch_header(state: PatchState, line: Seq<char>, rest: Seq<char>, number: nat)
    requires
        state.section == PatchSection::Outside ==> state.tracker == (TrackerModel {
            closing: None,
            patches: false,
        }),
        trimmed(line) == "### PATCH:"@ + rest,
    ensures
        patch_step(state, line, number) == if state.section == PatchSection::Outside {
            Ok::<PatchState, TransportFaultModel>(
                PatchState {
                    path: Some(trimmed(rest)),
                    search: Seq::empty(),
                    replace: Seq::empty(),
                    ..state
                },
            )
        } else {
            Err(
                TransportFault::PatchHeaderInOpenBlock {
                    line: number,
                    open: state.path,
                    found: trimmed(rest),
                },
            )
        },
{
    let mark = "### PATCH:"@ + rest;
    lemma_patch_literals();
    assert("### PATCH:"@ =~= mark.subrange(0, 10));
    assert(mark.skip(10) =~= rest);
    law_tracker(false, ""@, mark);
}

/// The three other markers of a patch lead from outside to the text that is
/// searched for, from there to its replacement, and from there to a patch that is
/// complete; in any other place each of them is refused.
pub proof fn law_patch_markers(state: PatchState, line: Seq<char>, number: nat)
    requires
        state.section == PatchSection::Outside ==> state.tracker == (TrackerModel {
            closing: None,
            patches: false,
        }),
    ensures
        trimmed(line) == "<<<<<<< SEARCH"@ ==> patch_step(state, line, number)
            == match state.section {
            PatchSection::Outside => Ok::<PatchState, TransportFaultModel>(
                PatchState { section: PatchSection::Search, ..state },
            ),
            PatchSection::Search => Err(
                TransportFault::SearchInOpenBlock { line: number, section: 1 },
            ),
            PatchSection::Replace => Err(
                TransportFault::SearchInOpenBlock { line: number, section: 2 },
            ),
        },
        trimmed(line) == "======="@ ==> patch_step(state, line, number) == match state.section {
            PatchSection::Outside => Err::<PatchState, TransportFaultModel>(
                TransportFault::DividerOutsideSearch { line: number },
            ),
            PatchSection::Search => Ok(PatchState { section: PatchSection::Replace, ..state }),
            PatchSection::Replace => Err(TransportFault::SecondDivider { line: number }),
        },
        trimmed(line) == ">>>>>>> REPLACE"@ ==> patch_step(state, line, number)
            == match state.section {
            PatchSection::Outside => Err::<PatchState, TransportFaultModel>(
                TransportFault::ReplaceEndOutsideBlock { line: number },
            ),
            PatchSection::Search => Err(TransportFault::ReplaceEndInSearch { line: number }),
            PatchSection::Replace => match state.path {
                None => Err(TransportFault::ReplaceEndWithoutHeader { line: number }),
                Some(path) => Ok(
                    PatchState {
                        tracker: state.tracker,
                        blocks: state.blocks.push(
                            PatchModel {
                                path,
                                search: join(state.search, seq!['\n']),
                                replace: join(state.replace, seq!['\n']),
                            },
                        ),
                        path: None,
                        search: Seq::empty(),
                        replace: Seq::empty(),
                        section: PatchSection::Outside,
                    },
                ),
            },
        },
{
    let mark = trimmed(line);
    lemma_patch_literals();
    law_tracker(false, ""@, mark);
    if mark == "<<<<<<< SEARCH"@ || mark == "======="@ || mark == ">>>>>>> REPLACE"@ {
        assert(mark[0] != '#');
        if "### PATCH:"@.is_prefix_of(mark) {
            assert(mark.subrange(0, 10)[0] == mark[0]);
        }
        if "### FILE:"@.is_prefix_of(mark) {
            assert(mark.subrange(0, 9)[0] == mark[0]);
        }
    }
}

/// Every other line of a patch is kept as it is, a file header too; outside a
/// patch a line changes no patch.
pub proof fn law_patch_text(state: PatchState, line: Seq<char>, number: nat)
    requires
        !"### PATCH:"@.is_prefix_of(trimmed(line)),
        trimmed(line) != "<<<<<<< SEARCH"@,
        trimmed(line) != "======="@,
        trimmed(line) != ">>>>>>> REPLACE"@,
    ensures
        state.section == PatchSection::Search ==> patch_step(state, line, number) == Ok::<
            PatchState,
            TransportFaultModel,
        >(PatchState { search: state.search.push(line), ..state }),
        state.section == PatchSection::Replace ==> patch_step(state, line, number) == Ok::<
            PatchState,
            TransportFaultModel,
        >(PatchState { replace: state.replace.push(line), ..state }),
        state.section == PatchSection::Outside ==> patch_step(state, line, number) == Ok::<
            PatchState,
            TransportFaultModel,
        >(PatchState { tracker: tracker_next(state.tracker, trimmed(line)), ..state }),
{
}

/// What stands inside a file is no patch, whatever it looks like.
pub proof fn law_patch_in_file(state: PatchState, closer: Seq<char>, line: Seq<char>, number: nat)
    requires
        state.section == PatchSection::Outside,
        state.tracker.closing == Some(closer),
        trimmed(line) != closer,
    ensures
        patch_step(state, line, number) == Ok::<PatchState, TransportFaultModel>(state),
{
}

/// A response is refused for its first line that is refused.
pub proof fn law_patch_message(raw: Seq<char>, state: PatchState, count: int)
    requires
        0 <= count <= lines_of(raw).len(),
        read::<PatchMachine>(lines_of(raw).take(count), 0, patch_start()) == Ok::<
            PatchState,
            TransportFaultModel,
        >(state),
    ensures
        count < lines_of(raw).len() ==> (patch_step(
            state,
            lines_of(raw)[count],
            (count + 1) as nat,
        ) matches Err(fault) ==> patch_blocks(raw) == Err::<Seq<PatchModel>, TransportFaultModel>(
            fault,
        )),
        count == lines_of(raw).len() ==> patch_blocks(raw) == if state.section
            == PatchSection::Outside {
            Ok::<Seq<PatchModel>, TransportFaultModel>(state.blocks)
        } else {
            Err(TransportFault::UnclosedPatch)
        },
        patch_start() == (PatchState {
            tracker: TrackerModel { closing: None, patches: false },
            blocks: Seq::empty(),
            path: None,
            search: Seq::empty(),
            replace: Seq::empty(),
            section: PatchSection::Outside,
        }),
{
    let lines = lines_of(raw);
    if count < lines.len() {
        lemma_read_next::<PatchMachine>(lines, 0, patch_start(), count);
        if patch_step(state, lines[count], (count + 1) as nat) is Err {
            lemma_read_stops::<PatchMachine>(lines, 0, patch_start(), count + 1);
        }
    } else {
        assert(lines.take(count) =~= lines);
    }
}

/// A response that ends inside a patch is refused, and otherwise has the patches
/// that were complete.
pub proof fn law_patch_end(state: PatchState, fault: TransportFaultModel)
    ensures
        state.section != PatchSection::Outside ==> patch_end(
            Ok::<PatchState, TransportFaultModel>(state),
        ) == Err::<Seq<PatchModel>, TransportFaultModel>(TransportFault::UnclosedPatch),
        state.section == PatchSection::Outside ==> patch_end(
            Ok::<PatchState, TransportFaultModel>(state),
        ) == Ok::<Seq<PatchModel>, TransportFaultModel>(state.blocks),
        patch_end(Err::<PatchState, TransportFaultModel>(fault)) == Err::<
            Seq<PatchModel>,
            TransportFaultModel,
        >(fault),
        fenced_end(Err::<FencedState, TransportFaultModel>(fault)) == Err::<
            Seq<FileModel>,
            TransportFaultModel,
        >(fault),
{
}

} // verus!
