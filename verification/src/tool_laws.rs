//! What the tool-call format promises: calls that were written by the rules are
//! read back as they were meant, and a write that was cut off is refused.

use vstd::prelude::*;

use crate::lines::{
    join_lines, lemma_join_of_split, lemma_read_concat, lemma_split_of_join,
    lemma_split_parts_clean, read, split_lines,
};
use crate::mason_guard::{
    hash_count, json_edit_proposal, near_miss, unreadable_write, UnreadableMachine,
};
use crate::mason_tools::{
    settled, tool_calls, tool_name, tool_path, tool_start, ContentModel, PendingModel, ToolFault,
    ToolFaultModel, ToolMachine, ToolModel, ToolState, CONTENT_MARKER, END_CONTENT_MARKER,
    PATH_MARKER, TOOL_MARKER,
};
use crate::text::{byte_count, trimmed};
use crate::tool_loop::{loop_step, opened, work_on, EventModel, LoopModel};
use crate::transport_laws::{header, lemma_header, lemma_read_one};

verus! {

// ---------------------------------------------------------------------------
// Messages made of calls
// ---------------------------------------------------------------------------

/// Whether a line outside the calls is prose.
pub open spec fn prose_line(line: Seq<char>) -> bool {
    let mark = trimmed(line);
    &&& !line.contains('\n')
    &&& !TOOL_MARKER@.is_prefix_of(mark)
    &&& !PATH_MARKER@.is_prefix_of(mark)
    &&& mark != CONTENT_MARKER@
    &&& mark != END_CONTENT_MARKER@
}

/// Whether every line is prose.
pub open spec fn prose(lines: Seq<Seq<char>>) -> bool {
    forall|i: int| 0 <= i < lines.len() ==> prose_line(#[trigger] lines[i])
}

/// Whether a line can stand in a content block.
pub open spec fn content_text_line(line: Seq<char>) -> bool {
    trimmed(line) != END_CONTENT_MARKER@ && !TOOL_MARKER@.is_prefix_of(trimmed(line))
}

/// Whether every line can stand in a content block.
pub open spec fn content_text(lines: Seq<Seq<char>>) -> bool {
    forall|i: int| 0 <= i < lines.len() ==> content_text_line(#[trigger] lines[i])
}

/// Whether a call can be written down.
pub open spec fn callable(call: ToolModel) -> bool {
    let path = tool_path(call);
    &&& path.len() > 0
    &&& trimmed(path) == path
    &&& !path.contains('\n')
    &&& byte_count(path) <= 200
    &&& call matches ToolModel::WriteFile { content, .. } ==> content_text(split_lines(content))
}

/// The first two lines of a call.
pub open spec fn call_head(call: ToolModel) -> Seq<Seq<char>> {
    seq![header(TOOL_MARKER@, tool_name(call)), header(PATH_MARKER@, tool_path(call))]
}

/// The lines of a call.
pub open spec fn call_lines(call: ToolModel) -> Seq<Seq<char>> {
    match call {
        ToolModel::WriteFile { content, .. } => call_head(call) + seq![CONTENT_MARKER@]
            + split_lines(content) + seq![END_CONTENT_MARKER@],
        _ => call_head(call),
    }
}

/// The lines of some calls.
pub open spec fn calls_lines(calls: Seq<ToolModel>) -> Seq<Seq<char>>
    decreases calls.len(),
{
    if calls.len() == 0 {
        Seq::empty()
    } else {
        calls_lines(calls.drop_last()) + call_lines(calls.last())
    }
}

proof fn lemma_tool_markers()
    ensures
        TOOL_MARKER@.len() == 9,
        TOOL_MARKER@.first() == '#',
        TOOL_MARKER@.last() == ':',
        TOOL_MARKER@[4] == 'T',
        !TOOL_MARKER@.contains('\n'),
        PATH_MARKER@.len() == 5,
        PATH_MARKER@.first() == 'p',
        PATH_MARKER@.last() == ':',
        !PATH_MARKER@.contains('\n'),
        CONTENT_MARKER@.len() == 11,
        CONTENT_MARKER@.first() == '#',
        CONTENT_MARKER@[4] == 'C',
        !CONTENT_MARKER@.contains('\n'),
        trimmed(CONTENT_MARKER@) == CONTENT_MARKER@,
        END_CONTENT_MARKER@.len() == 15,
        END_CONTENT_MARKER@.first() == '#',
        END_CONTENT_MARKER@[4] == 'E',
        !END_CONTENT_MARKER@.contains('\n'),
        trimmed(END_CONTENT_MARKER@) == END_CONTENT_MARKER@,
{
    reveal_strlit("### TOOL:");
    reveal_strlit("path:");
    reveal_strlit("### CONTENT");
    reveal_strlit("### END CONTENT");
}

proof fn lemma_tool_name(call: ToolModel)
    ensures
        tool_name(call).len() > 0,
        trimmed(tool_name(call)) == tool_name(call),
        !tool_name(call).contains('\n'),
        "read_file"@ != "list_dir"@,
        "read_file"@ != "write_file"@,
        "list_dir"@ != "write_file"@,
{
    reveal_strlit("read_file");
    reveal_strlit("list_dir");
    reveal_strlit("write_file");
    assert("list_dir"@.len() == 8);
    assert("read_file"@.len() == 9);
    assert("write_file"@.len() == 10);
}

/// Whether the calls so far are `calls` and no content block is open.
pub open spec fn ready(state: ToolState, calls: Seq<ToolModel>) -> bool {
    &&& settled(state) == Ok::<Seq<ToolModel>, ToolFaultModel>(calls)
    &&& state.pending matches Some(pending) ==> pending.content !is Open
}

proof fn lemma_read_prose(lines: Seq<Seq<char>>, before: nat, state: ToolState)
    requires
        prose(lines),
        state.pending matches Some(pending) ==> pending.content !is Open,
    ensures
        read::<ToolMachine>(lines, before, state) == Ok::<ToolState, ToolFaultModel>(state),
    decreases lines.len(),
{
    if lines.len() > 0 {
        let fewer = lines.drop_last();
        assert forall|i: int| 0 <= i < fewer.len() implies prose_line(#[trigger] fewer[i]) by {
            assert(fewer[i] == lines[i]);
        }
        lemma_read_prose(fewer, before, state);
        assert(prose_line(lines[lines.len() - 1]));
    }
}

/// A call whose header and path were read.
spec fn begun(call: ToolModel, number: nat, content: ContentModel) -> PendingModel {
    PendingModel {
        kind: tool_name(call),
        line: number,
        path: Some(tool_path(call)),
        content,
    }
}

proof fn lemma_read_head(call: ToolModel, before: nat, state: ToolState, calls: Seq<ToolModel>)
    requires
        callable(call),
        ready(state, calls),
    ensures
        read::<ToolMachine>(call_head(call), before, state) == Ok::<ToolState, ToolFaultModel>(
            ToolState { calls, pending: Some(begun(call, before + 1, ContentModel::Absent)) },
        ),
{
    let first = header(TOOL_MARKER@, tool_name(call));
    let second = header(PATH_MARKER@, tool_path(call));
    lemma_tool_markers();
    lemma_tool_name(call);
    lemma_header(TOOL_MARKER@, tool_name(call));
    lemma_header(PATH_MARKER@, tool_path(call));
    assert(call_head(call) =~= seq![first] + seq![second]);
    lemma_read_concat::<ToolMachine>(seq![first], seq![second], before, state);
    lemma_read_one::<ToolMachine>(first, before, state);
    let named = PendingModel {
        kind: tool_name(call),
        line: before + 1,
        path: None,
        content: ContentModel::Absent,
    };
    let known = ToolState { calls, pending: Some(named) };
    assert(read::<ToolMachine>(seq![first], before, state) == Ok::<ToolState, ToolFaultModel>(
        known,
    ));
    lemma_read_one::<ToolMachine>(second, before + 1, known);
    assert(!TOOL_MARKER@.is_prefix_of(second)) by {
        assert(second.first() == PATH_MARKER@.first());
    }
}

proof fn lemma_read_content(
    lines: Seq<Seq<char>>,
    before: nat,
    calls: Seq<ToolModel>,
    pending: PendingModel,
    body: Seq<Seq<char>>,
)
    requires
        content_text(lines),
        pending.content == ContentModel::Open(body),
    ensures
        read::<ToolMachine>(
            lines,
            before,
            ToolState { calls, pending: Some(pending) },
        ) == Ok::<ToolState, ToolFaultModel>(
            ToolState {
                calls,
                pending: Some(
                    PendingModel { content: ContentModel::Open(body + lines), ..pending },
                ),
            },
        ),
    decreases lines.len(),
{
    if lines.len() == 0 {
        assert(body + lines =~= body);
    } else {
        let fewer = lines.drop_last();
        assert forall|i: int| 0 <= i < fewer.len() implies content_text_line(
            #[trigger] fewer[i],
        ) by {
            assert(fewer[i] == lines[i]);
        }
        lemma_read_content(fewer, before, calls, pending, body);
        assert(content_text_line(lines[lines.len() - 1]));
        assert((body + fewer).push(lines.last()) =~= body + lines);
    }
}

proof fn lemma_read_open_write(
    call: ToolModel,
    content: Seq<char>,
    before: nat,
    state: ToolState,
    calls: Seq<ToolModel>,
)
    requires
        callable(call),
        call == (ToolModel::WriteFile { path: tool_path(call), content }),
        ready(state, calls),
    ensures
        read::<ToolMachine>(
            call_head(call) + seq![CONTENT_MARKER@] + split_lines(content),
            before,
            state,
        ) == Ok::<ToolState, ToolFaultModel>(
            ToolState {
                calls,
                pending: Some(begun(call, before + 1, ContentModel::Open(split_lines(content)))),
            },
        ),
{
    let head = call_head(call);
    let body = split_lines(content);
    let none = Seq::<Seq<char>>::empty();
    lemma_tool_markers();
    lemma_read_head(call, before, state, calls);
    let s1 = ToolState { calls, pending: Some(begun(call, before + 1, ContentModel::Absent)) };
    lemma_read_concat::<ToolMachine>(head, seq![CONTENT_MARKER@], before, state);
    lemma_read_one::<ToolMachine>(CONTENT_MARKER@, before + 2, s1);
    let opened = begun(call, before + 1, ContentModel::Open(none));
    let s2 = ToolState { calls, pending: Some(opened) };
    let l2 = head + seq![CONTENT_MARKER@];
    assert(read::<ToolMachine>(l2, before, state) == Ok::<ToolState, ToolFaultModel>(s2));
    lemma_read_concat::<ToolMachine>(l2, body, before, state);
    lemma_read_content(body, before + l2.len(), calls, opened, none);
    assert(none + body =~= body);
}

proof fn lemma_read_call(
    call: ToolModel,
    before: nat,
    state: ToolState,
    calls: Seq<ToolModel>,
)
    requires
        callable(call),
        ready(state, calls),
    ensures
        read::<ToolMachine>(call_lines(call), before, state) is Ok,
        ready(read::<ToolMachine>(call_lines(call), before, state)->Ok_0, calls.push(call)),
{
    lemma_tool_markers();
    lemma_tool_name(call);
    match call {
        ToolModel::WriteFile { path, content } => {
            let first = call_head(call) + seq![CONTENT_MARKER@] + split_lines(content);
            let known = ToolState {
                calls,
                pending: Some(begun(call, before + 1, ContentModel::Open(split_lines(content)))),
            };
            lemma_read_open_write(call, content, before, state, calls);
            lemma_read_concat::<ToolMachine>(first, seq![END_CONTENT_MARKER@], before, state);
            lemma_read_one::<ToolMachine>(END_CONTENT_MARKER@, before + first.len(), known);
            lemma_join_of_split(content, '\n');
        },
        _ => {
            lemma_read_head(call, before, state, calls);
        },
    }
}

proof fn lemma_read_calls(
    calls: Seq<ToolModel>,
    before: nat,
)
    requires
        forall|i: int| 0 <= i < calls.len() ==> callable(#[trigger] calls[i]),
    ensures
        read::<ToolMachine>(calls_lines(calls), before, tool_start()) is Ok,
        ready(read::<ToolMachine>(calls_lines(calls), before, tool_start())->Ok_0, calls),
    decreases calls.len(),
{
    if calls.len() == 0 {
        assert(calls =~= Seq::empty());
    } else {
        let fewer = calls.drop_last();
        assert forall|i: int| 0 <= i < fewer.len() implies callable(#[trigger] fewer[i]) by {
            assert(fewer[i] == calls[i]);
        }
        assert(callable(calls[calls.len() - 1]));
        lemma_read_calls(fewer, before);
        let first = calls_lines(fewer);
        let known = read::<ToolMachine>(first, before, tool_start())->Ok_0;
        lemma_read_concat::<ToolMachine>(first, call_lines(calls.last()), before, tool_start());
        lemma_read_call(calls.last(), before + first.len(), known, fewer);
        assert(fewer.push(calls.last()) =~= calls);
    }
}

proof fn lemma_header_clean(marker: Seq<char>, path: Seq<char>)
    requires
        !marker.contains('\n'),
        !path.contains('\n'),
    ensures
        !header(marker, path).contains('\n'),
{
    let line = header(marker, path);
    if line.contains('\n') {
        let k = choose|k: int| 0 <= k < line.len() && line[k] == '\n';
        if k < marker.len() {
            assert(marker[k] == '\n');
        } else if k > marker.len() {
            assert(path[k - marker.len() - 1] == '\n');
        }
    }
}

proof fn lemma_call_clean(call: ToolModel)
    requires
        callable(call),
    ensures
        forall|i: int|
            0 <= i < call_lines(call).len() ==> !(#[trigger] call_lines(call)[i]).contains('\n'),
{
    lemma_tool_markers();
    lemma_tool_name(call);
    lemma_header_clean(TOOL_MARKER@, tool_name(call));
    lemma_header_clean(PATH_MARKER@, tool_path(call));
    let all = call_lines(call);
    if let ToolModel::WriteFile { content, .. } = call {
        let body = split_lines(content);
        lemma_split_parts_clean(content, '\n');
        assert forall|i: int| 0 <= i < all.len() implies !(#[trigger] all[i]).contains('\n') by {
            if 3 <= i < 3 + body.len() {
                assert(all[i] == body[i - 3]);
            }
        }
    }
}

proof fn lemma_calls_clean(calls: Seq<ToolModel>)
    requires
        forall|i: int| 0 <= i < calls.len() ==> callable(#[trigger] calls[i]),
    ensures
        forall|i: int|
            0 <= i < calls_lines(calls).len() ==> !(#[trigger] calls_lines(calls)[i]).contains(
                '\n',
            ),
    decreases calls.len(),
{
    if calls.len() > 0 {
        let fewer = calls.drop_last();
        assert forall|i: int| 0 <= i < fewer.len() implies callable(#[trigger] fewer[i]) by {
            assert(fewer[i] == calls[i]);
        }
        assert(callable(calls[calls.len() - 1]));
        lemma_calls_clean(fewer);
        lemma_call_clean(calls.last());
        let first = calls_lines(fewer);
        let all = calls_lines(calls);
        assert forall|i: int| 0 <= i < all.len() implies !(#[trigger] all[i]).contains('\n') by {
            if i < first.len() {
                assert(all[i] == first[i]);
            } else {
                assert(all[i] == call_lines(calls.last())[i - first.len()]);
            }
        }
    }
}

proof fn lemma_message_lines(
    before: Seq<Seq<char>>,
    calls: Seq<ToolModel>,
    after: Seq<Seq<char>>,
)
    requires
        before.len() + calls.len() + after.len() > 0,
        forall|i: int| 0 <= i < calls.len() ==> callable(#[trigger] calls[i]),
        forall|i: int| 0 <= i < before.len() ==> !(#[trigger] before[i]).contains('\n'),
        forall|i: int| 0 <= i < after.len() ==> !(#[trigger] after[i]).contains('\n'),
    ensures
        split_lines(join_lines(before + calls_lines(calls) + after)) == before + calls_lines(calls)
            + after,
{
    let middle = calls_lines(calls);
    let all = before + middle + after;
    if calls.len() > 0 {
        assert(call_lines(calls.last()).len() > 0);
    }
    lemma_calls_clean(calls);
    assert forall|i: int| 0 <= i < all.len() implies !(#[trigger] all[i]).contains('\n') by {
        if i < before.len() {
            assert(all[i] == before[i]);
        } else if i < before.len() + middle.len() {
            assert(all[i] == middle[i - before.len()]);
        } else {
            assert(all[i] == after[i - before.len() - middle.len()]);
        }
    }
    lemma_split_of_join(all, '\n');
}

/// Every call of a message comes back as it was written, in order, its content
/// character for character, whatever prose stands before and after the calls.
pub proof fn law_calls_round_trip(
    before: Seq<Seq<char>>,
    calls: Seq<ToolModel>,
    after: Seq<Seq<char>>,
)
    requires
        before.len() + calls.len() + after.len() > 0,
        prose(before),
        prose(after),
        forall|i: int| 0 <= i < calls.len() ==> callable(#[trigger] calls[i]),
    ensures
        tool_calls(join_lines(before + calls_lines(calls) + after)) == Ok::<
            Seq<ToolModel>,
            ToolFaultModel,
        >(calls),
{
    let middle = calls_lines(calls);
    assert forall|i: int| 0 <= i < before.len() implies !(#[trigger] before[i]).contains('\n') by {
        assert(prose_line(before[i]));
    }
    assert forall|i: int| 0 <= i < after.len() implies !(#[trigger] after[i]).contains('\n') by {
        assert(prose_line(after[i]));
    }
    lemma_message_lines(before, calls, after);
    lemma_read_prose(before, 0, tool_start());
    lemma_read_calls(calls, before.len());
    lemma_read_concat::<ToolMachine>(before, middle, 0, tool_start());
    let known = read::<ToolMachine>(middle, before.len(), tool_start())->Ok_0;
    lemma_read_concat::<ToolMachine>(before + middle, after, 0, tool_start());
    lemma_read_prose(after, (before + middle).len(), known);
}

/// A message that was cut off inside the content of a write is refused as a
/// whole and names the file, even where the calls before it are complete.
pub proof fn law_truncated_write_is_refused(
    calls: Seq<ToolModel>,
    path: Seq<char>,
    content: Seq<char>,
)
    requires
        forall|i: int| 0 <= i < calls.len() ==> callable(#[trigger] calls[i]),
        callable(ToolModel::WriteFile { path, content }),
    ensures
        tool_calls(
            join_lines(
                calls_lines(calls) + call_lines(
                    ToolModel::WriteFile { path, content },
                ).drop_last(),
            ),
        ) == Err::<Seq<ToolModel>, ToolFaultModel>(
            ToolFault::UnclosedContent { path: Some(path) },
        ),
{
    let call = ToolModel::WriteFile { path, content };
    let first = calls_lines(calls);
    let cut = call_head(call) + seq![CONTENT_MARKER@] + split_lines(content);
    assert(call_lines(call).drop_last() =~= cut);
    let all = first + cut;
    lemma_calls_clean(calls);
    lemma_call_clean(call);
    assert forall|i: int| 0 <= i < all.len() implies !(#[trigger] all[i]).contains('\n') by {
        if i < first.len() {
            assert(all[i] == first[i]);
        } else {
            assert(all[i] == call_lines(call)[i - first.len()]);
        }
    }
    lemma_split_of_join(all, '\n');
    lemma_read_calls(calls, 0);
    let known = read::<ToolMachine>(first, 0, tool_start())->Ok_0;
    lemma_read_concat::<ToolMachine>(first, cut, 0, tool_start());
    lemma_read_open_write(call, content, first.len(), known, calls);
}

// ---------------------------------------------------------------------------
// Messages that the loop works on
// ---------------------------------------------------------------------------

/// Whether a line outside the calls resembles neither a marker nor an edit
/// proposal in another form.
pub open spec fn innocent_line(line: Seq<char>) -> bool {
    near_miss(trimmed(line)) is None && !json_edit_proposal(trimmed(line))
}

/// Whether every line is innocent.
pub open spec fn innocent(lines: Seq<Seq<char>>) -> bool {
    forall|i: int| 0 <= i < lines.len() ==> innocent_line(#[trigger] lines[i])
}

proof fn lemma_guard_prose(lines: Seq<Seq<char>>, before: nat)
    requires
        prose(lines),
        innocent(lines),
    ensures
        read::<UnreadableMachine>(lines, before, false) == Ok::<bool, Seq<char>>(false),
    decreases lines.len(),
{
    if lines.len() > 0 {
        let fewer = lines.drop_last();
        assert forall|i: int| 0 <= i < fewer.len() implies prose_line(#[trigger] fewer[i]) by {
            assert(fewer[i] == lines[i]);
        }
        assert forall|i: int| 0 <= i < fewer.len() implies innocent_line(#[trigger] fewer[i]) by {
            assert(fewer[i] == lines[i]);
        }
        lemma_guard_prose(fewer, before);
        assert(prose_line(lines[lines.len() - 1]));
        assert(innocent_line(lines[lines.len() - 1]));
    }
}

proof fn lemma_guard_content(lines: Seq<Seq<char>>, before: nat)
    requires
        content_text(lines),
    ensures
        read::<UnreadableMachine>(lines, before, true) == Ok::<bool, Seq<char>>(true),
    decreases lines.len(),
{
    if lines.len() > 0 {
        let fewer = lines.drop_last();
        assert forall|i: int| 0 <= i < fewer.len() implies content_text_line(
            #[trigger] fewer[i],
        ) by {
            assert(fewer[i] == lines[i]);
        }
        lemma_guard_content(fewer, before);
        assert(content_text_line(lines[lines.len() - 1]));
    }
}

proof fn lemma_guard_call(call: ToolModel, before: nat)
    requires
        callable(call),
        !json_edit_proposal(header(PATH_MARKER@, tool_path(call))),
    ensures
        read::<UnreadableMachine>(call_lines(call), before, false) == Ok::<bool, Seq<char>>(false),
{
    let first = header(TOOL_MARKER@, tool_name(call));
    let second = header(PATH_MARKER@, tool_path(call));
    let head = call_head(call);
    lemma_tool_markers();
    lemma_tool_name(call);
    lemma_header(TOOL_MARKER@, tool_name(call));
    lemma_header(PATH_MARKER@, tool_path(call));
    assert(head =~= seq![first] + seq![second]);
    lemma_read_concat::<UnreadableMachine>(seq![first], seq![second], before, false);
    lemma_read_one::<UnreadableMachine>(first, before, false);
    lemma_read_one::<UnreadableMachine>(second, before + 1, false);
    assert(first[4] == TOOL_MARKER@[4]);
    assert(second.first() == 'p');
    assert(hash_count(second) == 0);
    assert(read::<UnreadableMachine>(head, before, false) == Ok::<bool, Seq<char>>(false));
    if let ToolModel::WriteFile { content, .. } = call {
        let body = split_lines(content);
        let l2 = head + seq![CONTENT_MARKER@];
        lemma_read_concat::<UnreadableMachine>(head, seq![CONTENT_MARKER@], before, false);
        lemma_read_one::<UnreadableMachine>(CONTENT_MARKER@, before + 2, false);
        lemma_read_concat::<UnreadableMachine>(l2, body, before, false);
        lemma_guard_content(body, before + l2.len());
        let l3 = l2 + body;
        lemma_read_concat::<UnreadableMachine>(l3, seq![END_CONTENT_MARKER@], before, false);
        lemma_read_one::<UnreadableMachine>(END_CONTENT_MARKER@, before + l3.len(), true);
    }
}

proof fn lemma_guard_calls(calls: Seq<ToolModel>, before: nat)
    requires
        forall|i: int|
            0 <= i < calls.len() ==> callable(#[trigger] calls[i]) && !json_edit_proposal(
                header(PATH_MARKER@, tool_path(calls[i])),
            ),
    ensures
        read::<UnreadableMachine>(calls_lines(calls), before, false) == Ok::<bool, Seq<char>>(
            false,
        ),
    decreases calls.len(),
{
    if calls.len() > 0 {
        let fewer = calls.drop_last();
        assert forall|i: int| 0 <= i < fewer.len() implies callable(#[trigger] fewer[i])
            && !json_edit_proposal(header(PATH_MARKER@, tool_path(fewer[i]))) by {
            assert(fewer[i] == calls[i]);
        }
        assert(callable(calls[calls.len() - 1]));
        lemma_guard_calls(fewer, before);
        let first = calls_lines(fewer);
        lemma_read_concat::<UnreadableMachine>(first, call_lines(calls.last()), before, false);
        lemma_guard_call(calls.last(), before + first.len());
    }
}

/// What a write holds between its content markers is the text of a file and is
/// never taken for a write in another form, not even where it quotes file
/// blocks, patches or edit proposals.
pub proof fn law_content_is_never_suspect(
    before: Seq<Seq<char>>,
    calls: Seq<ToolModel>,
    after: Seq<Seq<char>>,
)
    requires
        before.len() + calls.len() + after.len() > 0,
        prose(before),
        innocent(before),
        prose(after),
        innocent(after),
        forall|i: int|
            0 <= i < calls.len() ==> callable(#[trigger] calls[i]) && !json_edit_proposal(
                header(PATH_MARKER@, tool_path(calls[i])),
            ),
    ensures
        unreadable_write(join_lines(before + calls_lines(calls) + after)) is None,
{
    let middle = calls_lines(calls);
    assert forall|i: int| 0 <= i < before.len() implies !(#[trigger] before[i]).contains('\n') by {
        assert(prose_line(before[i]));
    }
    assert forall|i: int| 0 <= i < after.len() implies !(#[trigger] after[i]).contains('\n') by {
        assert(prose_line(after[i]));
    }
    lemma_message_lines(before, calls, after);
    lemma_guard_prose(before, 0);
    lemma_guard_calls(calls, before.len());
    lemma_read_concat::<UnreadableMachine>(before, middle, 0, false);
    lemma_read_concat::<UnreadableMachine>(before + middle, after, 0, false);
    lemma_guard_prose(after, (before + middle).len());
}

/// The loop works on exactly the calls of a message that was written by the
/// rules.
pub proof fn law_written_calls_are_worked_on(
    m: LoopModel,
    before: Seq<Seq<char>>,
    calls: Seq<ToolModel>,
    after: Seq<Seq<char>>,
)
    requires
        calls.len() > 0,
        prose(before),
        innocent(before),
        prose(after),
        innocent(after),
        forall|i: int|
            0 <= i < calls.len() ==> callable(#[trigger] calls[i]) && !json_edit_proposal(
                header(PATH_MARKER@, tool_path(calls[i])),
            ),
    ensures
        ({
            let raw = join_lines(before + calls_lines(calls) + after);
            loop_step(m, EventModel::Reply(raw)) == work_on(opened(m, raw, calls))
        }),
{
    law_calls_round_trip(before, calls, after);
    law_content_is_never_suspect(before, calls, after);
}

/// The guard against writes that cannot be read and the reader of calls agree on
/// where a content block is open, as far as the message is accepted by both: so
/// the guard looks at every line that is no file's text, and at no other.
pub proof fn law_guard_agrees_with_reader(lines: Seq<Seq<char>>)
    ensures
        read::<ToolMachine>(lines, 0, tool_start()) matches Ok(state) ==> (
        read::<UnreadableMachine>(lines, 0, false) matches Ok(in_content) ==> in_content
            == content_open(state)),
    decreases lines.len(),
{
    lemma_tool_markers();
    if lines.len() > 0 {
        law_guard_agrees_with_reader(lines.drop_last());
    }
}

/// Whether a content block is open.
pub open spec fn content_open(state: ToolState) -> bool {
    state.pending is Some && state.pending->Some_0.content is Open
}

} // verus!
