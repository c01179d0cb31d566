//! What the model is told in the tool loop, and what is done for it.

use vstd::prelude::*;

use crate::lines::join;
use crate::mason_guard::{refused_read, unreadable_write};
use crate::mason_tools::{
    tool_calls, tool_message, ToolFaultModel, ToolModel, TOOL_LOOP_INSTRUCTION,
};
use crate::numeral::decimal;
use crate::order::{law_sorted_ascending, law_sorted_keeps_all, precedes, sorted};
use crate::text::byte_count;
use crate::tool_loop::{
    asked_write, earlier_write, entry_lines, lemma_place_of, loop_start, loop_step, one_per_file,
    place_of, planned, taken_in, target, with_result, with_write, work_on, ActionModel, CallPlan,
    EntryModel, EventModel, LoopFault, LoopModel, MessageModel, Phase, Role, WriteModel,
};
use crate::workspace::{absolute, climbs, normal_path, path_parts};

verus! {

// ---------------------------------------------------------------------------
// Every result is told
// ---------------------------------------------------------------------------

/// Whether `after` follows from a loop that had these results and `left` calls
/// to go: the results are kept and only added to, and once no call is left the
/// model's reply and all the results have become the last two messages.
pub open spec fn goes_on_telling(
    m: LoopModel,
    results: Seq<Seq<char>>,
    left: int,
    after: LoopModel,
    action: ActionModel,
) -> bool {
    &&& results.is_prefix_of(after.results)
    &&& if action is Ask || (action is Fail && action->error is TurnsUsedUp) {
        &&& after.results.len() == results.len() + left
        &&& after.messages == m.messages.push(
            MessageModel { role: Role::Assistant, content: m.reply },
        ).push(MessageModel { role: Role::User, content: join(after.results, "\n\n"@) })
    } else {
        after.messages == m.messages
    }
}

proof fn lemma_prefix_of_push(a: Seq<Seq<char>>, x: Seq<char>, b: Seq<Seq<char>>)
    requires
        a.push(x).is_prefix_of(b),
    ensures
        a.is_prefix_of(b),
{
    assert(a =~= b.take(a.len() as int)) by {
        assert(a.push(x) =~= b.take(a.len() as int + 1));
        assert forall|i: int| 0 <= i < a.len() implies a[i] == b.take(a.len() as int)[i] by {
            assert(a.push(x)[i] == b.take(a.len() as int + 1)[i]);
        }
    }
}

proof fn lemma_work_tells(m: LoopModel)
    requires
        m.next <= m.calls.len(),
    ensures
        goes_on_telling(
            m,
            m.results,
            m.calls.len() - m.next,
            work_on(m).0,
            work_on(m).1,
        ),
    decreases m.calls.len() - m.next,
{
    assert(m.results =~= m.results.take(m.results.len() as int));
    if m.next < m.calls.len() {
        match planned(m.calls[m.next as int], m.prefixes, m.gateway) {
            CallPlan::Tell { result } => {
                let next = with_result(m, result);
                lemma_work_tells(next);
                lemma_prefix_of_push(m.results, next.results.last(), work_on(m).0.results);
            },
            CallPlan::Stage => {
                let next = with_write(m);
                lemma_work_tells(next);
                lemma_prefix_of_push(m.results, next.results.last(), work_on(m).0.results);
            },
            _ => {},
        }
    }
}

/// What a file holds is told the model character for character, and what went
/// wrong with reading it is told with the path as the model wrote it.
pub proof fn law_read_is_told(m: LoopModel, path: Seq<char>, outcome: Result<Seq<char>, Seq<char>>)
    requires
        m.next < m.calls.len(),
        m.calls[m.next as int] == (ToolModel::ReadFile { path }),
    ensures
        ({
            let (after, action) = loop_step(m, EventModel::FileRead(outcome));
            let told = match outcome {
                Ok(text) => "### TOOL RESULT: read_file\n"@ + text + "\n### END TOOL RESULT"@,
                Err(error) => "### TOOL RESULT: read_file\nERROR: reading "@ + path + ": "@ + error
                    + "\n### END TOOL RESULT"@,
            };
            goes_on_telling(m, m.results.push(told), m.calls.len() - m.next - 1, after, action)
        }),
{
    let event = EventModel::FileRead(outcome);
    lemma_work_tells(taken_in(m, event));
    lemma_frames();
    let told = match outcome {
        Ok(text) => "### TOOL RESULT: read_file\n"@ + text + "\n### END TOOL RESULT"@,
        Err(error) => "### TOOL RESULT: read_file\nERROR: reading "@ + path + ": "@ + error
            + "\n### END TOOL RESULT"@,
    };
    assert(taken_in(m, event).results.last() =~= told);
    assert(taken_in(m, event).results =~= m.results.push(told));
}

proof fn lemma_frames()
    ensures
        "### TOOL RESULT: read_file\n"@ == "### TOOL RESULT: "@ + "read_file"@ + "\n"@,
        "### TOOL RESULT: read_file\nERROR: reading "@ == "### TOOL RESULT: "@ + "read_file"@
            + "\n"@ + "ERROR: reading "@,
        "### TOOL RESULT: list_dir\n"@ == "### TOOL RESULT: "@ + "list_dir"@ + "\n"@,
        "### TOOL RESULT: list_dir\n(empty directory: "@ == "### TOOL RESULT: "@ + "list_dir"@
            + "\n"@ + "(empty directory: "@,
        ")\n### END TOOL RESULT"@ == ")"@ + "\n### END TOOL RESULT"@,
        "### TOOL RESULT: list_dir\nERROR: listing "@ == "### TOOL RESULT: "@ + "list_dir"@
            + "\n"@ + "ERROR: listing "@,
        "### TOOL RESULT: write_file\nrecorded write of "@ == "### TOOL RESULT: "@
            + "write_file"@ + "\n"@ + "recorded write of "@,
        " byte write to the same file in this loop)\n### END TOOL RESULT"@
            == " byte write to the same file in this loop)"@ + "\n### END TOOL RESULT"@,
{
    reveal_strlit("### TOOL RESULT: ");
    reveal_strlit("\n");
    reveal_strlit("read_file");
    reveal_strlit("list_dir");
    reveal_strlit("write_file");
    reveal_strlit("ERROR: reading ");
    reveal_strlit("ERROR: listing ");
    reveal_strlit("(empty directory: ");
    reveal_strlit("recorded write of ");
    reveal_strlit(")");
    reveal_strlit("\n### END TOOL RESULT");
    reveal_strlit(" byte write to the same file in this loop)");
    reveal_strlit("### TOOL RESULT: read_file\n");
    reveal_strlit("### TOOL RESULT: read_file\nERROR: reading ");
    reveal_strlit("### TOOL RESULT: list_dir\n");
    reveal_strlit("### TOOL RESULT: list_dir\n(empty directory: ");
    reveal_strlit(")\n### END TOOL RESULT");
    reveal_strlit("### TOOL RESULT: list_dir\nERROR: listing ");
    reveal_strlit("### TOOL RESULT: write_file\nrecorded write of ");
    reveal_strlit(" byte write to the same file in this loop)\n### END TOOL RESULT");
    assert("### TOOL RESULT: read_file\n"@ =~= "### TOOL RESULT: "@ + "read_file"@ + "\n"@);
    assert("### TOOL RESULT: read_file\nERROR: reading "@ =~= "### TOOL RESULT: "@
        + "read_file"@ + "\n"@ + "ERROR: reading "@);
    assert("### TOOL RESULT: list_dir\n"@ =~= "### TOOL RESULT: "@ + "list_dir"@ + "\n"@);
    assert("### TOOL RESULT: list_dir\n(empty directory: "@ =~= "### TOOL RESULT: "@
        + "list_dir"@ + "\n"@ + "(empty directory: "@);
    assert(")\n### END TOOL RESULT"@ =~= ")"@ + "\n### END TOOL RESULT"@);
    assert("### TOOL RESULT: list_dir\nERROR: listing "@ =~= "### TOOL RESULT: "@ + "list_dir"@
        + "\n"@ + "ERROR: listing "@);
    assert("### TOOL RESULT: write_file\nrecorded write of "@ =~= "### TOOL RESULT: "@
        + "write_file"@ + "\n"@ + "recorded write of "@);
    assert(" byte write to the same file in this loop)\n### END TOOL RESULT"@
        =~= " byte write to the same file in this loop)"@ + "\n### END TOOL RESULT"@);
}

/// Whether these are the lines of a directory: one for each entry, in ascending
/// order, a directory with a slash at its end.
pub open spec fn lists_entries(lines: Seq<Seq<char>>, entries: Seq<EntryModel>) -> bool {
    &&& forall|i: int, j: int|
        0 <= i < j < lines.len() ==> !precedes(#[trigger] lines[j], #[trigger] lines[i])
    &&& lines.to_multiset() == Seq::new(
        entries.len(),
        |i: int|
            match entries[i] {
                EntryModel::Named { name, is_dir: true } => name + "/"@,
                EntryModel::Named { name, is_dir: false } => name,
                EntryModel::Unreadable { error } => "(unreadable entry: "@ + error + ")"@,
            },
    ).to_multiset()
}

/// Of a directory every entry is told the model, once, in ascending order. An
/// empty directory is called so, and what went wrong with listing one is told
/// with the path as the model wrote it.
pub proof fn law_listing_is_told(
    m: LoopModel,
    path: Seq<char>,
    outcome: Result<Seq<EntryModel>, Seq<char>>,
) -> (lines: Seq<Seq<char>>)
    requires
        m.next < m.calls.len(),
        m.calls[m.next as int] == (ToolModel::ListDir { path }),
    ensures
        outcome matches Ok(entries) ==> lists_entries(lines, entries),
        ({
            let (after, action) = loop_step(m, EventModel::Listed(outcome));
            let told = match outcome {
                Ok(entries) => if entries.len() == 0 {
                    "### TOOL RESULT: list_dir\n(empty directory: "@ + path
                        + ")\n### END TOOL RESULT"@
                } else {
                    "### TOOL RESULT: list_dir\n"@ + join(lines, "\n"@) + "\n### END TOOL RESULT"@
                },
                Err(error) => "### TOOL RESULT: list_dir\nERROR: listing "@ + path + ": "@ + error
                    + "\n### END TOOL RESULT"@,
            };
            goes_on_telling(m, m.results.push(told), m.calls.len() - m.next - 1, after, action)
        }),
{
    let event = EventModel::Listed(outcome);
    let entries = outcome->Ok_0;
    let lines = sorted(entry_lines(entries));
    lemma_work_tells(taken_in(m, event));
    lemma_frames();
    law_sorted_ascending(entry_lines(entries));
    law_sorted_keeps_all(entry_lines(entries));
    let wanted = Seq::new(
        entries.len(),
        |i: int|
            match entries[i] {
                EntryModel::Named { name, is_dir: true } => name + "/"@,
                EntryModel::Named { name, is_dir: false } => name,
                EntryModel::Unreadable { error } => "(unreadable entry: "@ + error + ")"@,
            },
    );
    assert(entry_lines(entries) =~= wanted);
    let told = match outcome {
        Ok(entries) => if entries.len() == 0 {
            "### TOOL RESULT: list_dir\n(empty directory: "@ + path + ")\n### END TOOL RESULT"@
        } else {
            "### TOOL RESULT: list_dir\n"@ + join(lines, "\n"@) + "\n### END TOOL RESULT"@
        },
        Err(error) => "### TOOL RESULT: list_dir\nERROR: listing "@ + path + ": "@ + error
            + "\n### END TOOL RESULT"@,
    };
    assert(taken_in(m, event).results.last() =~= told);
    assert(taken_in(m, event).results =~= m.results.push(told));
    lines
}

/// What the model is told about a write: its size and path, and the size of the
/// earlier write to the same file, if there was one.
pub open spec fn write_told(path: Seq<char>, content: Seq<char>, writes: Seq<WriteModel>) -> Seq<
    char,
> {
    if exists|i: int| 0 <= i < writes.len() && #[trigger] writes[i].parts == target(path) {
        let i = choose|i: int| 0 <= i < writes.len() && #[trigger] writes[i].parts == target(path);
        "### TOOL RESULT: write_file\nrecorded write of "@ + decimal(byte_count(content))
            + " bytes to "@ + path + " (replaces the earlier "@ + decimal(
            byte_count(writes[i].content),
        ) + " byte write to the same file in this loop)\n### END TOOL RESULT"@
    } else {
        "### TOOL RESULT: write_file\nrecorded write of "@ + decimal(byte_count(content))
            + " bytes to "@ + path + "\n### END TOOL RESULT"@
    }
}

proof fn lemma_write_told(m: LoopModel, path: Seq<char>, content: Seq<char>)
    requires
        m.next < m.calls.len(),
        m.calls[m.next as int] == (ToolModel::WriteFile { path, content }),
        one_per_file(m.writes),
    ensures
        with_write(m).results == m.results.push(write_told(path, content, m.writes)),
{
    let write = asked_write(m.calls[m.next as int]);
    lemma_frames();
    lemma_place_of(m.writes, write.parts);
    let place = place_of(m.writes, write.parts);
    if place < m.writes.len() {
        assert(m.writes[place].parts == target(path));
        let i = choose|i: int|
            0 <= i < m.writes.len() && #[trigger] m.writes[i].parts == target(path);
        if i < place {
            assert(m.writes[i].parts != m.writes[place].parts);
        } else if i > place {
            assert(m.writes[place].parts != m.writes[i].parts);
        }
        assert(earlier_write(m.writes, write) == Some(m.writes[place]));
    }
    assert(with_write(m).results.last() =~= write_told(path, content, m.writes));
    assert(with_write(m).results =~= m.results.push(write_told(path, content, m.writes)));
}

/// A write that was recorded is kept and told the model with its size in bytes
/// and its path; where it takes the place of an earlier one, that is told too.
pub proof fn law_recorded_write_is_told(m: LoopModel, path: Seq<char>, content: Seq<char>)
    requires
        m.next < m.calls.len(),
        m.calls[m.next as int] == (ToolModel::WriteFile { path, content }),
        one_per_file(m.writes),
    ensures
        ({
            let (after, action) = loop_step(m, EventModel::Recorded(true));
            goes_on_telling(
                m,
                m.results.push(write_told(path, content, m.writes)),
                m.calls.len() - m.next - 1,
                after,
                action,
            )
        }),
{
    lemma_write_told(m, path, content);
    lemma_work_tells(taken_in(m, EventModel::Recorded(true)));
}

// ---------------------------------------------------------------------------
// Every call is carried out
// ---------------------------------------------------------------------------

/// A call is carried out as it is meant: a path from the root or out of the
/// workspace ends the run and is named; a file that may be read is read, one that
/// may not is answered with the reason; a directory is listed; a write is put on
/// record where writes are recorded, and kept at once where they are not.
pub proof fn law_call_is_carried_out(m: LoopModel)
    requires
        m.next < m.calls.len(),
        one_per_file(m.writes),
    ensures
        ({
            let (after, action) = work_on(m);
            let left = m.calls.len() - m.next - 1;
            match m.calls[m.next as int] {
                ToolModel::ReadFile { path } => if absolute(path) {
                    action == (ActionModel::Fail {
                        error: LoopFault::AbsolutePath { tool: "read_file"@, path },
                    })
                } else if climbs(target(path)) {
                    action == (ActionModel::Fail {
                        error: LoopFault::OutsideWorkspace { tool: "read_file"@, path },
                    })
                } else {
                    match refused_read(normal_path(path), m.prefixes) {
                        None => action == (ActionModel::Read { parts: target(path) })
                            && after == (LoopModel { phase: Phase::Reading, ..m }),
                        Some(reason) => goes_on_telling(
                            m,
                            m.results.push(
                                "### TOOL RESULT: read_file\nERROR: reading "@ + path + ": "@
                                    + reason + "\n### END TOOL RESULT"@,
                            ),
                            left,
                            after,
                            action,
                        ),
                    }
                },
                ToolModel::ListDir { path } => if absolute(path) {
                    action == (ActionModel::Fail {
                        error: LoopFault::AbsolutePath { tool: "list_dir"@, path },
                    })
                } else if climbs(target(path)) {
                    action == (ActionModel::Fail {
                        error: LoopFault::OutsideWorkspace { tool: "list_dir"@, path },
                    })
                } else {
                    action == (ActionModel::List { parts: target(path) }) && after == (LoopModel {
                        phase: Phase::Listing,
                        ..m
                    })
                },
                ToolModel::WriteFile { path, content } => if absolute(path) {
                    action == (ActionModel::Fail {
                        error: LoopFault::AbsolutePath { tool: "write_file"@, path },
                    })
                } else if climbs(target(path)) {
                    action == (ActionModel::Fail {
                        error: LoopFault::OutsideWorkspace { tool: "write_file"@, path },
                    })
                } else if target(path).len() == 0 {
                    action == (ActionModel::Fail { error: LoopFault::WorkspaceRoot { path } })
                } else if m.gateway {
                    action == (ActionModel::Record { path, byte_len: byte_count(content) })
                        && after == (LoopModel { phase: Phase::Recording, ..m })
                } else {
                    goes_on_telling(
                        m,
                        m.results.push(write_told(path, content, m.writes)),
                        left,
                        after,
                        action,
                    )
                },
            }
        }),
{
    let call = m.calls[m.next as int];
    match planned(call, m.prefixes, m.gateway) {
        CallPlan::Tell { result } => {
            let path = call->ReadFile_path;
            let reason = refused_read(normal_path(path), m.prefixes)->Some_0;
            let told = "### TOOL RESULT: read_file\nERROR: reading "@ + path + ": "@ + reason
                + "\n### END TOOL RESULT"@;
            lemma_frames();
            lemma_work_tells(with_result(m, result));
            assert(with_result(m, result).results.last() =~= told);
            assert(with_result(m, result).results =~= m.results.push(told));
        },
        CallPlan::Stage => {
            if let ToolModel::WriteFile { path, content } = call {
                lemma_write_told(m, path, content);
                lemma_work_tells(with_write(m));
            }
        },
        _ => {},
    }
}

/// A reply that cannot be read, or that looks like a write which cannot be read,
/// is answered with the reason and with how calls are written.
pub proof fn law_refusal_is_told(m: LoopModel, reply: Seq<char>)
    ensures
        ({
            let after = loop_step(m, EventModel::Reply(reply)).0;
            let told = |problem: Seq<char>|
                m.messages.push(MessageModel { role: Role::Assistant, content: reply }).push(
                    MessageModel {
                        role: Role::User,
                        content: "Your previous message could not be used: "@ + problem + "\n\n"@
                            + TOOL_LOOP_INSTRUCTION@,
                    },
                );
            &&& tool_calls(reply) matches Err(fault) ==> after.messages == told(
                tool_message(fault),
            ) && after.problem == Some(tool_message(fault)) && after.writes == m.writes
            &&& tool_calls(reply) is Ok ==> (unreadable_write(reply) matches Some(problem)
                ==> after.messages == told(problem) && after.problem == Some(problem)
                && after.writes == m.writes)
        }),
{
}

/// The calls of a reply are taken up in order, from the first, with no results
/// yet; a reply without calls ends the run with every write that was kept, each
/// with its path and its content.
pub proof fn law_reply_is_taken_up(m: LoopModel, reply: Seq<char>, calls: Seq<ToolModel>)
    requires
        tool_calls(reply) == Ok::<Seq<ToolModel>, ToolFaultModel>(calls),
        unreadable_write(reply) is None,
    ensures
        calls.len() > 0 ==> loop_step(m, EventModel::Reply(reply)) == work_on(
            LoopModel { reply, calls, next: 0, results: Seq::empty(), ..m },
        ),
        calls.len() == 0 ==> ({
            let (after, action) = loop_step(m, EventModel::Reply(reply));
            &&& after == (LoopModel { phase: Phase::Done, ..m })
            &&& action matches ActionModel::Finish { writes } && writes.len() == m.writes.len()
                && forall|i: int|
                0 <= i < writes.len() ==> #[trigger] writes[i] == (
                    m.writes[i].path,
                    m.writes[i].content,
                )
        }),
{
}

/// Once the calls of a reply are done the model is asked again, as long as it has
/// turns left; when it has none, the run ends with how many there were and with
/// why the last message that was refused was refused.
pub proof fn law_turn_ends(m: LoopModel)
    requires
        m.next == m.calls.len(),
    ensures
        ({
            let (after, action) = work_on(m);
            &&& m.asked < m.turns ==> action == ActionModel::Ask && after.asked == m.asked + 1
                && after.phase == Phase::Asking
            &&& m.asked >= m.turns ==> action == (ActionModel::Fail {
                error: LoopFault::TurnsUsedUp { turns: m.turns, problem: m.problem },
            }) && after.asked == m.asked && after.phase == Phase::Done
            &&& after.writes == m.writes
            &&& after.problem == m.problem
            &&& after.turns == m.turns
        }),
{
}

/// A refused reply costs a turn like any other.
pub proof fn law_refusal_costs_a_turn(m: LoopModel, reply: Seq<char>)
    requires
        tool_calls(reply) is Err || unreadable_write(reply) is Some,
    ensures
        ({
            let (after, action) = loop_step(m, EventModel::Reply(reply));
            &&& m.asked < m.turns ==> action == ActionModel::Ask && after.asked == m.asked + 1
                && after.phase == Phase::Asking
            &&& m.asked >= m.turns ==> action == (ActionModel::Fail {
                error: LoopFault::TurnsUsedUp { turns: m.turns, problem: after.problem },
            }) && after.phase == Phase::Done
        }),
{
}

/// The last write of a reply is kept with its path and its content, in the place
/// of the earlier one to the same file or behind all others, and every write to
/// another file stays as it was.
pub proof fn law_write_is_kept(m: LoopModel, path: Seq<char>, content: Seq<char>) -> (place: int)
    requires
        m.next + 1 == m.calls.len(),
        m.calls[m.next as int] == (ToolModel::WriteFile { path, content }),
        one_per_file(m.writes),
    ensures
        ({
            let after = loop_step(m, EventModel::Recorded(true)).0.writes;
            &&& 0 <= place < after.len()
            &&& after[place] == (WriteModel { parts: target(path), path, content })
            &&& after.len() == m.writes.len() || (after.len() == m.writes.len() + 1 && place
                == m.writes.len())
            &&& after.len() == m.writes.len() ==> m.writes[place].parts == target(path)
            &&& forall|i: int|
                0 <= i < m.writes.len() && i != place ==> #[trigger] after[i] == m.writes[i]
                    && m.writes[i].parts != target(path)
        }),
{
    let write = asked_write(m.calls[m.next as int]);
    let place = place_of(m.writes, write.parts);
    lemma_place_of(m.writes, write.parts);
    let kept = taken_in(m, EventModel::Recorded(true));
    assert(kept.next == kept.calls.len());
    assert(loop_step(m, EventModel::Recorded(true)).0.writes == kept.writes);
    assert forall|i: int| 0 <= i < m.writes.len() && i != place implies #[trigger] kept.writes[i]
        == m.writes[i] && m.writes[i].parts != target(path) by {
        if place < m.writes.len() {
            if i < place {
                assert(m.writes[i].parts != m.writes[place].parts);
            } else {
                assert(m.writes[place].parts != m.writes[i].parts);
            }
        }
    }
    place
}

/// The workspace part of a path is its parts once it is in its one spelling.
pub proof fn law_target(path: Seq<char>)
    ensures
        target(path) == path_parts(normal_path(path)),
{
}

/// A run starts with the conversation as it was given, no writes, and at least one
/// turn.
pub proof fn law_start(
    messages: Seq<MessageModel>,
    max_turns: nat,
    prefixes: Seq<Seq<char>>,
    gateway: bool,
)
    ensures
        ({
            let start = loop_start(messages, max_turns, prefixes, gateway);
            &&& start.messages == messages
            &&& start.writes.len() == 0
            &&& start.problem is None
            &&& start.prefixes == prefixes
            &&& start.gateway == gateway
            &&& start.asked == 1
            &&& start.turns >= 1
            &&& max_turns >= 1 ==> start.turns == max_turns
            &&& max_turns == 0 ==> start.turns == 1
            &&& start.phase == Phase::Asking
        }),
{
}

} // verus!
