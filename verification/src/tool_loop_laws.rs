//! What the tool loop promises over all its steps.

use vstd::prelude::*;

use crate::mason_guard::{refused_read, unreadable_write};
use crate::mason_tools::{tool_calls, tool_path, ToolFaultModel, ToolModel};
use crate::tool_loop::{
    answered, asked_write, awaited, lemma_place_of, loop_sound, loop_step, opened, place_of,
    planned, refusal_text, staged, taken_in, target, with_result, with_write, work_on, write_pairs,
    ActionModel, CallPlan, EntryModel, EventModel, LoopFault, LoopModel, Phase, WriteModel,
};
use crate::workspace::{absolute, climbs, normal_path};

verus! {

// ---------------------------------------------------------------------------
// When the loop is over
// ---------------------------------------------------------------------------

proof fn lemma_work_never_finishes(m: LoopModel)
    ensures
        work_on(m).1 !is Finish,
    decreases m.calls.len() - m.next,
{
    if m.next < m.calls.len() {
        match planned(m.calls[m.next as int], m.prefixes, m.gateway) {
            CallPlan::Tell { result } => lemma_work_never_finishes(with_result(m, result)),
            CallPlan::Stage => lemma_work_never_finishes(with_write(m)),
            _ => {},
        }
    }
}

/// Whether a message says that the model has finished: it was read without a
/// call and holds nothing that looks like a write in another form.
pub open spec fn finishes(reply: Seq<char>) -> bool {
    &&& tool_calls(reply) == Ok::<Seq<ToolModel>, ToolFaultModel>(Seq::empty())
    &&& unreadable_write(reply) is None
}

/// The loop hands writes back exactly where the model sent a message that says
/// it has finished. What it hands back are all the writes so far.
pub proof fn law_finish_is_positive(m: LoopModel, event: EventModel)
    ensures
        loop_step(m, event).1 is Finish <==> (event matches EventModel::Reply(reply) && finishes(
            reply,
        )),
        loop_step(m, event).1 matches ActionModel::Finish { writes } ==> writes == write_pairs(
            m.writes,
        ),
{
    if let EventModel::Reply(reply) = event {
        if let Ok(calls) = tool_calls(reply) {
            if calls.len() == 0 {
                assert(calls =~= Seq::empty());
            }
            lemma_work_never_finishes(opened(m, reply, calls));
        }
    } else {
        lemma_work_never_finishes(taken_in(m, event));
    }
}

/// Nothing follows an end, and only an end leaves the loop waiting for nothing.
pub proof fn law_end_is_final(m: LoopModel, event: EventModel)
    ensures
        m.phase == Phase::Done ==> !awaited(m, event),
        loop_step(m, event).0.phase == Phase::Done <==> (loop_step(m, event).1 is Finish
            || loop_step(m, event).1 is Fail),
{
    if let EventModel::Reply(reply) = event {
        if let Ok(calls) = tool_calls(reply) {
            lemma_work_end(opened(m, reply, calls));
        }
    } else {
        lemma_work_end(taken_in(m, event));
    }
}

proof fn lemma_work_end(m: LoopModel)
    ensures
        work_on(m).0.phase == Phase::Done <==> (work_on(m).1 is Finish || work_on(m).1 is Fail),
    decreases m.calls.len() - m.next,
{
    if m.next < m.calls.len() {
        match planned(m.calls[m.next as int], m.prefixes, m.gateway) {
            CallPlan::Tell { result } => lemma_work_end(with_result(m, result)),
            CallPlan::Stage => lemma_work_end(with_write(m)),
            _ => {},
        }
    }
}

// ---------------------------------------------------------------------------
// Confinement
// ---------------------------------------------------------------------------

/// Whether a path of the model stays below the root of its workspace.
pub open spec fn confined(path: Seq<char>) -> bool {
    !absolute(path) && !climbs(target(path))
}

/// Whether an action touches only what the model may touch: a file or directory
/// below the workspace, and no file whose reading is refused.
pub open spec fn within_bounds(m: LoopModel, action: ActionModel) -> bool {
    let path = tool_path(m.calls[m.next as int]);
    match action {
        ActionModel::Read { parts } => {
            &&& m.calls[m.next as int] is ReadFile
            &&& confined(path)
            &&& parts == target(path)
            &&& refused_read(normal_path(path), m.prefixes) is None
        },
        ActionModel::List { parts } => {
            &&& m.calls[m.next as int] is ListDir
            &&& confined(path)
            &&& parts == target(path)
        },
        ActionModel::Record { path: recorded, .. } => {
            &&& m.calls[m.next as int] is WriteFile
            &&& confined(path)
            &&& target(path).len() > 0
            &&& recorded == path
        },
        _ => true,
    }
}

proof fn lemma_work_within_bounds(m: LoopModel)
    ensures
        within_bounds(work_on(m).0, work_on(m).1),
    decreases m.calls.len() - m.next,
{
    if m.next < m.calls.len() {
        match planned(m.calls[m.next as int], m.prefixes, m.gateway) {
            CallPlan::Tell { result } => lemma_work_within_bounds(with_result(m, result)),
            CallPlan::Stage => lemma_work_within_bounds(with_write(m)),
            _ => {},
        }
    }
}

/// Nothing outside the workspace is ever read, listed or recorded, and no file
/// whose reading is refused is ever read, whatever the model and the actions
/// answered before.
pub proof fn law_actions_are_confined(m: LoopModel, event: EventModel)
    ensures
        within_bounds(loop_step(m, event).0, loop_step(m, event).1),
{
    if let EventModel::Reply(reply) = event {
        if let Ok(calls) = tool_calls(reply) {
            lemma_work_within_bounds(opened(m, reply, calls));
        }
    } else {
        lemma_work_within_bounds(taken_in(m, event));
    }
}

/// Every write that the loop hands back is to a file below the workspace, and no
/// two are to the same file.
pub proof fn law_finished_writes_are_confined(m: LoopModel, event: EventModel)
    requires
        loop_sound(m),
    ensures
        loop_step(m, event).1 matches ActionModel::Finish { writes } ==> {
            &&& forall|i: int|
                0 <= i < writes.len() ==> confined((#[trigger] writes[i]).0) && target(
                    writes[i].0,
                ).len() > 0
            &&& forall|i: int, j: int|
                0 <= i < j < writes.len() ==> target((#[trigger] writes[i]).0) != target(
                    (#[trigger] writes[j]).0,
                )
        },
{
    law_finish_is_positive(m, event);
    if let ActionModel::Finish { writes } = loop_step(m, event).1 {
        assert forall|i: int| 0 <= i < writes.len() implies confined((#[trigger] writes[i]).0)
            && target(writes[i].0).len() > 0 by {
            assert(writes[i] == (m.writes[i].path, m.writes[i].content));
        }
        assert forall|i: int, j: int| 0 <= i < j < writes.len() implies target(
            (#[trigger] writes[i]).0,
        ) != target((#[trigger] writes[j]).0) by {
            assert(m.writes[i].parts != m.writes[j].parts);
            assert(m.writes[i].parts == target(m.writes[i].path));
            assert(m.writes[j].parts == target(m.writes[j].path));
        }
    }
}

// ---------------------------------------------------------------------------
// Turns
// ---------------------------------------------------------------------------

proof fn lemma_work_turns(m: LoopModel)
    ensures
        work_on(m).0.turns == m.turns,
        work_on(m).0.asked == m.asked + if work_on(m).1 is Ask {
            1int
        } else {
            0int
        },
        work_on(m).1 is Ask ==> m.asked < m.turns,
        work_on(m).1 matches ActionModel::Fail {
            error: LoopFault::TurnsUsedUp { turns, problem },
        } ==> m.asked >= m.turns && turns == m.turns && problem == m.problem,
    decreases m.calls.len() - m.next,
{
    if m.next < m.calls.len() {
        match planned(m.calls[m.next as int], m.prefixes, m.gateway) {
            CallPlan::Tell { result } => lemma_work_turns(with_result(m, result)),
            CallPlan::Stage => lemma_work_turns(with_write(m)),
            _ => {},
        }
    }
}

/// The model is asked only while turns are left, each time counts, and the turns
/// are reported as used up only when they are.
pub proof fn law_turn_budget(m: LoopModel, event: EventModel)
    ensures
        loop_step(m, event).0.turns == m.turns,
        loop_step(m, event).1 is Ask ==> m.asked < m.turns,
        loop_step(m, event).0.asked == m.asked + if loop_step(m, event).1 is Ask {
            1int
        } else {
            0int
        },
        loop_step(m, event).1 matches ActionModel::Fail {
            error: LoopFault::TurnsUsedUp { turns, problem },
        } ==> m.asked >= m.turns && turns == m.turns && problem == loop_step(m, event).0.problem,
{
    if let EventModel::Reply(reply) = event {
        if let Ok(calls) = tool_calls(reply) {
            lemma_work_turns(opened(m, reply, calls));
            lemma_work_problem(opened(m, reply, calls));
        }
    } else {
        lemma_work_turns(taken_in(m, event));
        lemma_work_problem(taken_in(m, event));
    }
}

proof fn lemma_work_problem(m: LoopModel)
    ensures
        work_on(m).0.problem == m.problem,
    decreases m.calls.len() - m.next,
{
    if m.next < m.calls.len() {
        match planned(m.calls[m.next as int], m.prefixes, m.gateway) {
            CallPlan::Tell { result } => lemma_work_problem(with_result(m, result)),
            CallPlan::Stage => lemma_work_problem(with_write(m)),
            _ => {},
        }
    }
}

/// Whether the loop is waiting for a reply, as a number.
pub open spec fn waiting(m: LoopModel) -> int {
    if m.phase == Phase::Asking {
        1
    } else {
        0
    }
}

proof fn lemma_work_progress(m: LoopModel)
    ensures
        ({
            let after = work_on(m).0;
            ||| after.phase == Phase::Done
            ||| after.asked > m.asked
            ||| after.asked == m.asked && after.phase != Phase::Asking && after.calls == m.calls
                && after.next >= m.next
        }),
    decreases m.calls.len() - m.next,
{
    if m.next < m.calls.len() {
        match planned(m.calls[m.next as int], m.prefixes, m.gateway) {
            CallPlan::Tell { result } => lemma_work_progress(with_result(m, result)),
            CallPlan::Stage => lemma_work_progress(with_write(m)),
            _ => {},
        }
    }
}

/// The loop comes to an end: each step ends it, or uses up a turn, or takes the
/// reply in, or settles a call of the message that is being worked on.
pub proof fn law_loop_ends(m: LoopModel, event: EventModel)
    requires
        loop_sound(m),
        awaited(m, event),
    ensures
        ({
            let after = loop_step(m, event).0;
            ||| after.phase == Phase::Done
            ||| m.turns - after.asked < m.turns - m.asked
            ||| after.asked == m.asked && waiting(after) < waiting(m)
            ||| after.asked == m.asked && waiting(after) == waiting(m) && after.calls.len()
                - after.next < m.calls.len() - m.next
        }),
{
    if let EventModel::Reply(reply) = event {
        if let Ok(calls) = tool_calls(reply) {
            lemma_work_progress(opened(m, reply, calls));
        }
    } else {
        lemma_work_progress(taken_in(m, event));
    }
}

// ---------------------------------------------------------------------------
// Writes
// ---------------------------------------------------------------------------

/// A later write to a file takes the place of the earlier one, and leaves every
/// other write where it stands.
pub proof fn law_later_write_supersedes(writes: Seq<WriteModel>, write: WriteModel)
    ensures
        ({
            let after = staged(writes, write);
            let place = place_of(writes, write.parts);
            &&& 0 <= place < after.len()
            &&& after[place] == write
            &&& forall|i: int| 0 <= i < writes.len() && i != place ==> #[trigger] after[i]
                == writes[i]
            &&& place < writes.len() ==> after.len() == writes.len() && writes[place].parts
                == write.parts
            &&& place == writes.len() ==> after.len() == writes.len() + 1 && forall|i: int|
                0 <= i < writes.len() ==> #[trigger] writes[i].parts != write.parts
        }),
{
    lemma_place_of(writes, write.parts);
}

proof fn lemma_gateway_work_keeps_writes(m: LoopModel)
    requires
        m.gateway,
    ensures
        work_on(m).0.writes == m.writes,
        work_on(m).0.gateway,
    decreases m.calls.len() - m.next,
{
    if m.next < m.calls.len() {
        if let CallPlan::Tell { result } = planned(
            m.calls[m.next as int],
            m.prefixes,
            m.gateway,
        ) {
            lemma_gateway_work_keeps_writes(with_result(m, result));
        }
    }
}

/// Where writes are recorded, the writes change only by a write that was put on
/// record: the one that the loop asked to have recorded.
pub proof fn law_every_write_is_recorded(m: LoopModel, event: EventModel)
    requires
        m.gateway,
    ensures
        loop_step(m, event).0.gateway,
        loop_step(m, event).0.writes == if event == EventModel::Recorded(true) {
            staged(m.writes, asked_write(m.calls[m.next as int]))
        } else {
            m.writes
        },
{
    if let EventModel::Reply(reply) = event {
        if let Ok(calls) = tool_calls(reply) {
            lemma_gateway_work_keeps_writes(opened(m, reply, calls));
        }
    } else {
        lemma_gateway_work_keeps_writes(taken_in(m, event));
    }
}

/// A write whose recording is refused ends the loop without writes.
pub proof fn law_refused_recording_ends(m: LoopModel)
    ensures
        loop_step(m, EventModel::Recorded(false)).1 == (ActionModel::Fail {
            error: LoopFault::GatewayRefused { path: tool_path(m.calls[m.next as int]) },
        }),
{
}

/// A call whose path leads out of the workspace ends the loop before anything is
/// done about it, for every tool, wherever it stands in its message.
pub proof fn law_escape_ends(m: LoopModel)
    requires
        m.next < m.calls.len(),
        !confined(tool_path(m.calls[m.next as int])),
    ensures
        work_on(m).0 == (LoopModel { phase: Phase::Done, ..m }),
        work_on(m).1 is Fail,
{
}

// ---------------------------------------------------------------------------
// Messages
// ---------------------------------------------------------------------------

/// A message that cannot be used is refused as a whole: no write is taken from
/// it, and the model is shown the message, told why, and asked again.
pub proof fn law_unusable_message_is_refused(m: LoopModel, reply: Seq<char>)
    requires
        tool_calls(reply) is Err || unreadable_write(reply) is Some,
    ensures
        ({
            let (after, action) = loop_step(m, EventModel::Reply(reply));
            &&& after.writes == m.writes
            &&& after.problem is Some
            &&& after.messages == answered(
                m.messages,
                reply,
                refusal_text(after.problem->Some_0),
            )
            &&& m.asked < m.turns ==> action is Ask
            &&& m.asked >= m.turns ==> action == (ActionModel::Fail {
                error: LoopFault::TurnsUsedUp { turns: m.turns, problem: after.problem },
            })
        }),
{
}

proof fn lemma_work_messages(m: LoopModel)
    ensures
        m.messages.is_prefix_of(work_on(m).0.messages),
    decreases m.calls.len() - m.next,
{
    if m.next < m.calls.len() {
        match planned(m.calls[m.next as int], m.prefixes, m.gateway) {
            CallPlan::Tell { result } => lemma_work_messages(with_result(m, result)),
            CallPlan::Stage => lemma_work_messages(with_write(m)),
            _ => {},
        }
    }
}

/// The conversation is only ever added to.
pub proof fn law_conversation_grows(m: LoopModel, event: EventModel)
    ensures
        m.messages.is_prefix_of(loop_step(m, event).0.messages),
{
    if let EventModel::Reply(reply) = event {
        if let Ok(calls) = tool_calls(reply) {
            lemma_work_messages(opened(m, reply, calls));
        }
    } else {
        lemma_work_messages(taken_in(m, event));
    }
}

proof fn lemma_results_do_not_steer(m: LoopModel, other: LoopModel)
    requires
        other == (LoopModel { results: other.results, ..m }),
    ensures
        work_on(m).1 == work_on(other).1,
        work_on(m).0.writes == work_on(other).0.writes,
        work_on(m).0.phase == work_on(other).0.phase,
        work_on(m).0.next == work_on(other).0.next,
    decreases m.calls.len() - m.next,
{
    if m.next < m.calls.len() {
        match planned(m.calls[m.next as int], m.prefixes, m.gateway) {
            CallPlan::Tell { result } => lemma_results_do_not_steer(
                with_result(m, result),
                with_result(other, result),
            ),
            CallPlan::Stage => lemma_results_do_not_steer(with_write(m), with_write(other)),
            _ => {},
        }
    }
}

/// A file that is missing or a directory that cannot be listed is something the
/// model is told, and nothing else: what the loop does next is the same whatever
/// a read or a listing came to.
pub proof fn law_read_failures_are_not_fatal(
    m: LoopModel,
    read: Result<Seq<char>, Seq<char>>,
    other: Result<Seq<char>, Seq<char>>,
)
    ensures
        loop_step(m, EventModel::FileRead(read)).1 == loop_step(m, EventModel::FileRead(other)).1,
        loop_step(m, EventModel::FileRead(read)).0.writes == loop_step(
            m,
            EventModel::FileRead(other),
        ).0.writes,
{
    lemma_results_do_not_steer(
        taken_in(m, EventModel::FileRead(read)),
        taken_in(m, EventModel::FileRead(other)),
    );
}

/// The same of directories.
pub proof fn law_list_failures_are_not_fatal(
    m: LoopModel,
    listed: Result<Seq<EntryModel>, Seq<char>>,
    other: Result<Seq<EntryModel>, Seq<char>>,
)
    ensures
        loop_step(m, EventModel::Listed(listed)).1 == loop_step(m, EventModel::Listed(other)).1,
        loop_step(m, EventModel::Listed(listed)).0.writes == loop_step(
            m,
            EventModel::Listed(other),
        ).0.writes,
{
    lemma_results_do_not_steer(
        taken_in(m, EventModel::Listed(listed)),
        taken_in(m, EventModel::Listed(other)),
    );
}

} // verus!
