//! What the tool loop promises of a whole run, from the first question to the end.

use vstd::prelude::*;

use crate::mason_guard::{credential_name, unreadable_write};
use crate::mason_tools::{tool_calls, tool_path, ToolModel};
use crate::text::lowered;
use crate::tool_loop::{
    asked_write, awaited, law_step_keeps_sound, lemma_place_of, loop_sound, loop_start, loop_step,
    on_reply, one_per_file, opened, place_of, planned, staged, taken_in, target, with_result,
    with_write, work_on, write_pairs, ActionModel, CallPlan, EntryModel, EventModel, LoopModel,
    MessageModel, Phase, WriteModel,
};
use crate::tool_loop_laws::{confined, finishes, law_actions_are_confined};

verus! {

// ---------------------------------------------------------------------------
// Runs
// ---------------------------------------------------------------------------

/// The loop after some events, and what it asks for then. It first asks the
/// model.
pub open spec fn run(start: LoopModel, events: Seq<EventModel>) -> (LoopModel, ActionModel)
    decreases events.len(),
{
    if events.len() == 0 {
        (start, ActionModel::Ask)
    } else {
        loop_step(run(start, events.drop_last()).0, events.last())
    }
}

/// Whether each event is one that the loop was waiting for.
pub open spec fn possible(start: LoopModel, events: Seq<EventModel>) -> bool
    decreases events.len(),
{
    events.len() == 0 || {
        &&& possible(start, events.drop_last())
        &&& awaited(run(start, events.drop_last()).0, events.last())
    }
}

/// The replies of the model among some events, in order.
pub open spec fn replies_of(events: Seq<EventModel>) -> Seq<Seq<char>>
    decreases events.len(),
{
    if events.len() == 0 {
        Seq::empty()
    } else {
        match events.last() {
            EventModel::Reply(reply) => replies_of(events.drop_last()).push(reply),
            _ => replies_of(events.drop_last()),
        }
    }
}

/// Whether a reply is accepted: its calls can be read, and nothing in it looks
/// like a write that cannot be read.
pub open spec fn accepted(reply: Seq<char>) -> bool {
    tool_calls(reply) is Ok && unreadable_write(reply) is None
}

/// The calls of a reply that is accepted, and none of one that is not.
pub open spec fn calls_of(reply: Seq<char>) -> Seq<ToolModel> {
    if accepted(reply) {
        tool_calls(reply)->Ok_0
    } else {
        Seq::empty()
    }
}

/// The writes that some calls ask for, in order.
pub open spec fn call_writes(calls: Seq<ToolModel>) -> Seq<WriteModel>
    decreases calls.len(),
{
    if calls.len() == 0 {
        Seq::empty()
    } else if calls.last() is WriteFile {
        call_writes(calls.drop_last()).push(asked_write(calls.last()))
    } else {
        call_writes(calls.drop_last())
    }
}

/// The writes that the accepted replies ask for, in the order of the replies and
/// then of the calls.
pub open spec fn asked_writes(replies: Seq<Seq<char>>) -> Seq<WriteModel>
    decreases replies.len(),
{
    if replies.len() == 0 {
        Seq::empty()
    } else {
        asked_writes(replies.drop_last()) + call_writes(calls_of(replies.last()))
    }
}

/// What is left of writes when each takes the place of an earlier one to the
/// same file.
pub open spec fn settled_writes(asked: Seq<WriteModel>) -> Seq<WriteModel>
    decreases asked.len(),
{
    if asked.len() == 0 {
        Seq::empty()
    } else {
        staged(settled_writes(asked.drop_last()), asked.last())
    }
}

/// Whether a call can do no harm to the run: its path stays in the workspace, and
/// where it is a write it is not to the workspace itself.
pub open spec fn harmless(call: ToolModel) -> bool {
    &&& confined(tool_path(call))
    &&& call is WriteFile ==> target(tool_path(call)).len() > 0
}

/// Whether every call can do no harm.
pub open spec fn all_harmless(calls: Seq<ToolModel>) -> bool {
    forall|i: int| 0 <= i < calls.len() ==> harmless(#[trigger] calls[i])
}

/// Whether nothing in a run ends it early: every call of an accepted reply is
/// harmless, and no write is refused where writes are recorded.
pub open spec fn undisturbed(events: Seq<EventModel>) -> bool {
    &&& forall|i: int|
        0 <= i < replies_of(events).len() ==> all_harmless(
            calls_of(#[trigger] replies_of(events)[i]),
        )
    &&& forall|i: int| 0 <= i < events.len() ==> #[trigger] events[i] != EventModel::Recorded(false)
}

// ---------------------------------------------------------------------------
// What is known at each point of a run
// ---------------------------------------------------------------------------

/// What is known of the loop after it has worked on the calls of a reply, where
/// `base` are the writes that were asked for before.
spec fn worked(m: LoopModel, base: Seq<WriteModel>, after: LoopModel, action: ActionModel) -> bool {
    &&& action !is Finish
    &&& after.turns == m.turns
    &&& match after.phase {
        Phase::Asking => {
            &&& action is Ask
            &&& after.asked == m.asked + 1
            &&& after.writes == settled_writes(base + call_writes(m.calls))
        },
        Phase::Done => {
            &&& action is Fail
            &&& after.asked == m.asked
            &&& action->error is TurnsUsedUp ==> m.asked >= m.turns
            &&& all_harmless(m.calls) ==> action->error is TurnsUsedUp
        },
        _ => {
            &&& after.asked == m.asked
            &&& after.calls == m.calls
            &&& after.next < m.calls.len()
            &&& after.writes == settled_writes(
                base + call_writes(m.calls.take(after.next as int)),
            )
        },
    }
}

proof fn lemma_next_call(calls: Seq<ToolModel>, next: int, base: Seq<WriteModel>)
    requires
        0 <= next < calls.len(),
    ensures
        calls[next] !is WriteFile ==> call_writes(calls.take(next + 1)) == call_writes(
            calls.take(next),
        ),
        calls[next] is WriteFile ==> settled_writes(base + call_writes(calls.take(next + 1)))
            == staged(
            settled_writes(base + call_writes(calls.take(next))),
            asked_write(calls[next]),
        ),
{
    assert(calls.take(next + 1).drop_last() =~= calls.take(next));
    assert(calls.take(next + 1).last() == calls[next]);
    if calls[next] is WriteFile {
        let some = base + call_writes(calls.take(next));
        let more = base + call_writes(calls.take(next + 1));
        assert(more.drop_last() =~= some);
        assert(more.last() == asked_write(calls[next]));
    }
}

proof fn lemma_worked(m: LoopModel, base: Seq<WriteModel>)
    requires
        m.next <= m.calls.len(),
        m.writes == settled_writes(base + call_writes(m.calls.take(m.next as int))),
    ensures
        worked(m, base, work_on(m).0, work_on(m).1),
    decreases m.calls.len() - m.next,
{
    if m.next >= m.calls.len() {
        assert(m.calls.take(m.next as int) =~= m.calls);
    } else {
        let call = m.calls[m.next as int];
        lemma_next_call(m.calls, m.next as int, base);
        match planned(call, m.prefixes, m.gateway) {
            CallPlan::Tell { result } => lemma_worked(with_result(m, result), base),
            CallPlan::Stage => lemma_worked(with_write(m), base),
            CallPlan::Stop { fault } => {
                if all_harmless(m.calls) {
                    assert(harmless(call));
                }
            },
            _ => {},
        }
    }
}

/// What is known of the loop after some events.
spec fn told(turns: nat, events: Seq<EventModel>, m: LoopModel, action: ActionModel) -> bool {
    let replies = replies_of(events);
    &&& m.turns == turns
    &&& forall|i: int|
        0 <= i < replies.len() && (action is Finish ==> i < replies.len() - 1) ==> !finishes(
            #[trigger] replies[i],
        )
    &&& match m.phase {
        Phase::Asking => {
            &&& action is Ask
            &&& m.asked == replies.len() + 1
            &&& m.writes == settled_writes(asked_writes(replies))
        },
        Phase::Done => {
            &&& action is Finish || action is Fail
            &&& m.asked == replies.len()
            &&& action matches ActionModel::Finish { writes } ==> {
                &&& replies.len() > 0
                &&& finishes(replies.last())
                &&& writes == write_pairs(settled_writes(asked_writes(replies)))
            }
            &&& action is Fail && action->error is TurnsUsedUp ==> m.asked >= turns
            &&& action is Fail && undisturbed(events) ==> action->error is TurnsUsedUp
        },
        _ => {
            &&& action !is Finish
            &&& replies.len() > 0
            &&& m.asked == replies.len()
            &&& accepted(replies.last())
            &&& m.calls == calls_of(replies.last())
            &&& m.next < m.calls.len()
            &&& m.writes == settled_writes(
                asked_writes(replies.drop_last()) + call_writes(m.calls.take(m.next as int)),
            )
        },
    }
}

proof fn lemma_told_reply(turns: nat, events: Seq<EventModel>, m: LoopModel, reply: Seq<char>)
    requires
        told(turns, events, m, ActionModel::Ask),
        m.phase == Phase::Asking,
    ensures
        told(
            turns,
            events.push(EventModel::Reply(reply)),
            on_reply(m, reply).0,
            on_reply(m, reply).1,
        ),
{
    let before = replies_of(events);
    let longer = events.push(EventModel::Reply(reply));
    let replies = replies_of(longer);
    assert(longer.drop_last() =~= events);
    assert(replies == before.push(reply));
    assert(replies.drop_last() =~= before);
    let (after, action) = on_reply(m, reply);
    if !accepted(reply) {
        assert(call_writes(calls_of(reply)) =~= Seq::empty());
        assert(asked_writes(replies) =~= asked_writes(before));
    } else {
        let calls = tool_calls(reply)->Ok_0;
        if calls.len() == 0 {
            assert(calls =~= Seq::empty());
            assert(finishes(reply));
            assert(call_writes(calls_of(reply)) =~= Seq::empty());
            assert(asked_writes(replies) =~= asked_writes(before));
        } else {
            let open = opened(m, reply, calls);
            assert(open.calls.take(0) =~= Seq::empty());
            assert(asked_writes(before) + call_writes(open.calls.take(0)) =~= asked_writes(before));
            lemma_worked(open, asked_writes(before));
            if undisturbed(longer) {
                assert(all_harmless(calls_of(replies[replies.len() - 1])));
            }
        }
    }
    assert forall|i: int|
        0 <= i < replies.len() && (action is Finish ==> i < replies.len() - 1) implies !finishes(
        #[trigger] replies[i],
    ) by {
        if i < before.len() {
            assert(replies[i] == before[i]);
        }
    }
}

proof fn lemma_told_result(
    turns: nat,
    events: Seq<EventModel>,
    m: LoopModel,
    action: ActionModel,
    event: EventModel,
)
    requires
        told(turns, events, m, action),
        loop_sound(m),
        awaited(m, event),
        event !is Reply,
    ensures
        told(turns, events.push(event), loop_step(m, event).0, loop_step(m, event).1),
{
    let longer = events.push(event);
    let replies = replies_of(longer);
    assert(longer.drop_last() =~= events);
    assert(replies == replies_of(events));
    let base = asked_writes(replies.drop_last());
    if event == EventModel::Recorded(false) {
        if undisturbed(longer) {
            assert(longer[longer.len() - 1] != EventModel::Recorded(false));
        }
    } else {
        lemma_next_call(m.calls, m.next as int, base);
        lemma_worked(taken_in(m, event), base);
        if undisturbed(longer) {
            assert(all_harmless(calls_of(replies[replies.len() - 1])));
        }
    }
}

proof fn lemma_run_told(start: LoopModel, events: Seq<EventModel>)
    requires
        loop_sound(start),
        start.phase == Phase::Asking,
        start.asked == 1,
        start.writes.len() == 0,
        possible(start, events),
    ensures
        told(start.turns, events, run(start, events).0, run(start, events).1),
        loop_sound(run(start, events).0),
    decreases events.len(),
{
    if events.len() == 0 {
        assert(start.writes =~= settled_writes(asked_writes(replies_of(events))));
    } else {
        let fewer = events.drop_last();
        let event = events.last();
        lemma_run_told(start, fewer);
        let m = run(start, fewer).0;
        law_step_keeps_sound(m, event);
        assert(events =~= fewer.push(event));
        if let EventModel::Reply(reply) = event {
            lemma_told_reply(start.turns, fewer, m, reply);
        } else {
            lemma_told_result(start.turns, fewer, m, run(start, fewer).1, event);
        }
    }
}

// ---------------------------------------------------------------------------
// When a run succeeds
// ---------------------------------------------------------------------------

/// How often the model may be asked.
pub open spec fn allowed(max_turns: nat) -> nat {
    if max_turns == 0 {
        1
    } else {
        max_turns
    }
}

/// Whether the reply at `i` is the first that says the model has finished.
pub open spec fn first_to_finish(said: Seq<Seq<char>>, i: int) -> bool {
    &&& 0 <= i < said.len()
    &&& finishes(said[i])
    &&& forall|j: int| 0 <= j < i ==> !finishes(#[trigger] said[j])
}

/// A run that nothing disturbs hands writes back exactly where one of the replies
/// that the model may give says that it has finished, and then the model was
/// asked up to the first such reply and no further. Otherwise the run ends
/// without writes, and the model was asked as often as it may be. `said` are the
/// replies that the model gives or would give, as many as it may.
pub proof fn law_run_outcome(
    messages: Seq<MessageModel>,
    max_turns: nat,
    prefixes: Seq<Seq<char>>,
    gateway: bool,
    events: Seq<EventModel>,
    said: Seq<Seq<char>>,
)
    requires
        possible(loop_start(messages, max_turns, prefixes, gateway), events),
        run(loop_start(messages, max_turns, prefixes, gateway), events).0.phase == Phase::Done,
        undisturbed(events),
        said.len() == allowed(max_turns),
        replies_of(events).is_prefix_of(said),
    ensures
        ({
            let (end, action) = run(
                loop_start(messages, max_turns, prefixes, gateway),
                events,
            );
            let asked = replies_of(events).len();
            &&& end.asked == asked
            &&& action is Finish || action is Fail
            &&& action is Finish <==> exists|i: int|
                0 <= i < said.len() && finishes(#[trigger] said[i])
            &&& forall|i: int| #[trigger] first_to_finish(said, i) ==> asked == i + 1
            &&& action is Fail ==> action->error is TurnsUsedUp && asked == allowed(max_turns)
        }),
{
    let start = loop_start(messages, max_turns, prefixes, gateway);
    lemma_run_told(start, events);
    let (end, action) = run(start, events);
    let replies = replies_of(events);
    assert forall|i: int| 0 <= i < replies.len() implies #[trigger] replies[i] == said[i] by {
        assert(said.take(replies.len() as int)[i] == said[i]);
    }
    if action is Finish {
        assert(finishes(said[replies.len() - 1]));
        assert forall|i: int| #[trigger] first_to_finish(said, i) implies replies.len() == i + 1 by {
            if i < replies.len() - 1 {
                assert(!finishes(replies[i]));
            } else if i > replies.len() - 1 {
                assert(!finishes(said[replies.len() - 1]));
            }
        }
    } else {
        assert(replies.len() == said.len());
        assert forall|i: int| 0 <= i < said.len() implies !finishes(#[trigger] said[i]) by {
            assert(!finishes(replies[i]));
        }
    }
}

// ---------------------------------------------------------------------------
// What a run hands back
// ---------------------------------------------------------------------------

/// Whether the write at `k` is the last to its file.
pub open spec fn last_to_its_file(asked: Seq<WriteModel>, k: int) -> bool {
    &&& 0 <= k < asked.len()
    &&& forall|j: int| k < j < asked.len() ==> #[trigger] asked[j].parts != asked[k].parts
}

/// Whether `write` is the last of `asked` to its file.
pub open spec fn is_last_of(asked: Seq<WriteModel>, write: WriteModel) -> bool {
    exists|k: int| #[trigger] last_to_its_file(asked, k) && asked[k] == write
}

/// Whether one of `writes` is to the file with these parts.
pub open spec fn has_entry(writes: Seq<WriteModel>, parts: Seq<Seq<char>>) -> bool {
    exists|i: int| 0 <= i < writes.len() && #[trigger] writes[i].parts == parts
}

/// Of writes in which each takes the place of an earlier one to the same file,
/// one is left for each file, and it is the last.
pub proof fn law_last_write_is_left(asked: Seq<WriteModel>)
    ensures
        one_per_file(settled_writes(asked)),
        forall|i: int|
            0 <= i < settled_writes(asked).len() ==> is_last_of(
                asked,
                #[trigger] settled_writes(asked)[i],
            ),
        forall|k: int|
            0 <= k < asked.len() ==> has_entry(settled_writes(asked), #[trigger] asked[k].parts),
    decreases asked.len(),
{
    let writes = settled_writes(asked);
    if asked.len() > 0 {
        let fewer = asked.drop_last();
        let write = asked.last();
        let before = settled_writes(fewer);
        law_last_write_is_left(fewer);
        lemma_place_of(before, write.parts);
        let place = place_of(before, write.parts);
        assert(writes == staged(before, write));
        assert(writes[place] == write);
        assert forall|i: int, j: int| 0 <= i < j < writes.len() implies #[trigger] writes[i].parts
            != #[trigger] writes[j].parts by {
            if i < before.len() && j < before.len() {
                assert(before[i].parts != before[j].parts);
            }
        }
        assert forall|i: int| 0 <= i < writes.len() implies is_last_of(
            asked,
            #[trigger] writes[i],
        ) by {
            if i == place {
                assert(last_to_its_file(asked, asked.len() - 1));
            } else {
                assert(writes[i] == before[i]);
                assert(is_last_of(fewer, before[i]));
                let k = choose|k: int|
                    #[trigger] last_to_its_file(fewer, k) && fewer[k] == before[i];
                assert(writes[i].parts != writes[place].parts) by {
                    if i < place {
                        assert(writes[i].parts != writes[place].parts);
                    } else {
                        assert(writes[place].parts != writes[i].parts);
                    }
                }
                assert forall|j: int| k < j < asked.len() implies #[trigger] asked[j].parts
                    != asked[k].parts by {
                    if j < fewer.len() {
                        assert(fewer[j].parts != fewer[k].parts);
                    }
                }
                assert(last_to_its_file(asked, k));
            }
        }
        assert forall|k: int| 0 <= k < asked.len() implies has_entry(
            writes,
            #[trigger] asked[k].parts,
        ) by {
            if k < fewer.len() {
                assert(has_entry(before, fewer[k].parts));
                let i = choose|i: int|
                    0 <= i < before.len() && #[trigger] before[i].parts == fewer[k].parts;
                assert(writes[i].parts == before[i].parts);
            }
        }
    }
}

proof fn lemma_call_writes_aim(calls: Seq<ToolModel>)
    ensures
        forall|k: int|
            0 <= k < call_writes(calls).len() ==> (#[trigger] call_writes(calls)[k]).parts
                == target(call_writes(calls)[k].path),
    decreases calls.len(),
{
    if calls.len() > 0 {
        lemma_call_writes_aim(calls.drop_last());
        let fewer = call_writes(calls.drop_last());
        let all = call_writes(calls);
        assert forall|k: int| 0 <= k < all.len() implies (#[trigger] all[k]).parts == target(
            all[k].path,
        ) by {
            if k < fewer.len() {
                assert(all[k] == fewer[k]);
            } else {
                assert(all[k] == asked_write(calls.last()));
            }
        }
    }
}

proof fn lemma_asked_writes_aim(replies: Seq<Seq<char>>)
    ensures
        forall|k: int|
            0 <= k < asked_writes(replies).len() ==> (#[trigger] asked_writes(replies)[k]).parts
                == target(asked_writes(replies)[k].path),
    decreases replies.len(),
{
    if replies.len() > 0 {
        lemma_asked_writes_aim(replies.drop_last());
        lemma_call_writes_aim(calls_of(replies.last()));
        let fewer = asked_writes(replies.drop_last());
        let new = call_writes(calls_of(replies.last()));
        let all = asked_writes(replies);
        assert forall|k: int| 0 <= k < all.len() implies (#[trigger] all[k]).parts == target(
            all[k].path,
        ) by {
            if k < fewer.len() {
                assert(all[k] == fewer[k]);
            } else {
                assert(all[k] == new[k - fewer.len()]);
            }
        }
    }
}

/// A run that hands writes back has one entry for each file that an accepted
/// reply asks to have written, and none for another: the path as it was spelled
/// and the content of the last call for the file, in the order of the replies and
/// then of the calls.
pub proof fn law_run_hands_back_last_writes(
    messages: Seq<MessageModel>,
    max_turns: nat,
    prefixes: Seq<Seq<char>>,
    gateway: bool,
    events: Seq<EventModel>,
    writes: Seq<(Seq<char>, Seq<char>)>,
)
    requires
        possible(loop_start(messages, max_turns, prefixes, gateway), events),
        run(loop_start(messages, max_turns, prefixes, gateway), events).1 == (ActionModel::Finish {
            writes,
        }),
    ensures
        ({
            let asked = asked_writes(replies_of(events));
            &&& writes == write_pairs(settled_writes(asked))
            &&& forall|i: int, j: int|
                0 <= i < j < writes.len() ==> target((#[trigger] writes[i]).0) != target(
                    (#[trigger] writes[j]).0,
                )
            &&& forall|i: int|
                0 <= i < writes.len() ==> is_last_of(
                    asked,
                    WriteModel {
                        parts: target((#[trigger] writes[i]).0),
                        path: writes[i].0,
                        content: writes[i].1,
                    },
                )
            &&& forall|k: int|
                0 <= k < asked.len() ==> exists|i: int|
                    0 <= i < writes.len() && target((#[trigger] writes[i]).0) == (
                    #[trigger] asked[k]).parts
        }),
{
    let start = loop_start(messages, max_turns, prefixes, gateway);
    let asked = asked_writes(replies_of(events));
    let left = settled_writes(asked);
    lemma_run_told(start, events);
    law_last_write_is_left(asked);
    lemma_asked_writes_aim(replies_of(events));
    assert(run(start, events).0.phase == Phase::Done);
    assert forall|i: int| 0 <= i < left.len() implies (#[trigger] left[i]).parts == target(
        left[i].path,
    ) && writes[i] == (left[i].path, left[i].content) by {
        assert(is_last_of(asked, left[i]));
    }
    assert forall|i: int, j: int| 0 <= i < j < writes.len() implies target((#[trigger] writes[i]).0)
        != target((#[trigger] writes[j]).0) by {
        assert(left[i].parts != left[j].parts);
    }
    assert forall|i: int| 0 <= i < writes.len() implies is_last_of(
        asked,
        WriteModel {
            parts: target((#[trigger] writes[i]).0),
            path: writes[i].0,
            content: writes[i].1,
        },
    ) by {
        assert(is_last_of(asked, left[i]));
    }
    assert forall|k: int| 0 <= k < asked.len() implies exists|i: int|
        0 <= i < writes.len() && target((#[trigger] writes[i]).0) == (#[trigger] asked[k]).parts by {
        assert(has_entry(left, asked[k].parts));
        let i = choose|i: int| 0 <= i < left.len() && #[trigger] left[i].parts == asked[k].parts;
        assert(target(writes[i].0) == asked[k].parts);
    }
}

// ---------------------------------------------------------------------------
// What a run can learn
// ---------------------------------------------------------------------------

/// What a run meets: a model that answers a conversation, the files and
/// directories of a workspace, and whoever records writes.
pub struct World {
    pub model: spec_fn(Seq<MessageModel>) -> Seq<char>,
    pub file: spec_fn(Seq<Seq<char>>) -> Result<Seq<char>, Seq<char>>,
    pub directory: spec_fn(Seq<Seq<char>>) -> Result<Seq<EntryModel>, Seq<char>>,
    pub recorder: spec_fn(Seq<char>, nat) -> bool,
}

/// How the world answers an action. An end is not answered.
pub open spec fn answer(world: World, m: LoopModel, action: ActionModel) -> Option<EventModel> {
    match action {
        ActionModel::Ask => Some(EventModel::Reply((world.model)(m.messages))),
        ActionModel::Read { parts } => Some(EventModel::FileRead((world.file)(parts))),
        ActionModel::List { parts } => Some(EventModel::Listed((world.directory)(parts))),
        ActionModel::Record { path, byte_len } => Some(
            EventModel::Recorded((world.recorder)(path, byte_len)),
        ),
        _ => None,
    }
}

/// Whether the events of a run are what the world answers.
pub open spec fn answers(world: World, start: LoopModel, events: Seq<EventModel>) -> bool
    decreases events.len(),
{
    events.len() == 0 || {
        let (m, action) = run(start, events.drop_last());
        &&& answers(world, start, events.drop_last())
        &&& answer(world, m, action) == Some(events.last())
    }
}

/// Whether the file with these parts holds credentials.
pub open spec fn holds_credentials(parts: Seq<Seq<char>>) -> bool {
    parts.len() > 0 && credential_name(lowered(parts.last()))
}

/// Whether two worlds differ in nothing but what files with credentials hold.
pub open spec fn same_but_credentials(world: World, other: World) -> bool {
    &&& world.model == other.model
    &&& world.directory == other.directory
    &&& world.recorder == other.recorder
    &&& forall|parts: Seq<Seq<char>>|
        !holds_credentials(parts) ==> #[trigger] (world.file)(parts) == (other.file)(parts)
}

/// Whether a run has ended.
pub open spec fn ended(start: LoopModel, events: Seq<EventModel>) -> bool {
    run(start, events).1 is Finish || run(start, events).1 is Fail
}

proof fn lemma_no_credentials_are_read(start: LoopModel, events: Seq<EventModel>)
    ensures
        run(start, events).1 matches ActionModel::Read { parts } ==> !holds_credentials(parts),
{
    if events.len() > 0 {
        let m = run(start, events.drop_last()).0;
        law_actions_are_confined(m, events.last());
        let (after, action) = run(start, events);
        if let ActionModel::Read { parts } = action {
            let path = tool_path(after.calls[after.next as int]);
            assert(parts == target(path));
            if parts.len() > 0 {
                assert(parts.contains(parts.last()));
            }
        }
    }
}

proof fn lemma_same_answers(
    world: World,
    other: World,
    start: LoopModel,
    events: Seq<EventModel>,
    longer: Seq<EventModel>,
)
    requires
        same_but_credentials(world, other),
        answers(world, start, events),
        answers(other, start, longer),
        events.len() <= longer.len(),
    ensures
        events == longer.take(events.len() as int),
    decreases longer.len(),
{
    if events.len() < longer.len() {
        lemma_same_answers(world, other, start, events, longer.drop_last());
        assert(longer.drop_last().take(events.len() as int) =~= longer.take(events.len() as int));
    } else if events.len() > 0 {
        let fewer = events.drop_last();
        lemma_same_answers(world, other, start, fewer, longer.drop_last());
        assert(longer.drop_last().take(fewer.len() as int) =~= longer.drop_last());
        lemma_no_credentials_are_read(start, fewer);
        assert(events.last() == longer.last());
        assert(events =~= fewer.push(events.last()));
        assert(longer =~= longer.drop_last().push(longer.last()));
        assert(longer.take(events.len() as int) =~= longer);
    } else {
        assert(events =~= longer.take(0));
    }
}

proof fn lemma_ended_is_complete(
    world: World,
    start: LoopModel,
    events: Seq<EventModel>,
    longer: Seq<EventModel>,
)
    requires
        answers(world, start, longer),
        events.len() < longer.len(),
        events == longer.take(events.len() as int),
    ensures
        !ended(start, events),
    decreases longer.len(),
{
    let fewer = longer.drop_last();
    if events.len() == fewer.len() {
        assert(events =~= fewer);
    } else {
        assert(fewer.take(events.len() as int) =~= longer.take(events.len() as int));
        lemma_ended_is_complete(world, start, events, fewer);
    }
}

/// What a file with credentials holds reaches neither the conversation nor the
/// writes: two runs in worlds that differ in nothing else take the same course,
/// so that the model is sent the same conversation each time it is asked, and
/// they come to the same end.
pub proof fn law_credentials_stay_out(
    world: World,
    other: World,
    start: LoopModel,
    events: Seq<EventModel>,
    others: Seq<EventModel>,
)
    requires
        same_but_credentials(world, other),
        answers(world, start, events),
        answers(other, start, others),
        ended(start, events),
        ended(start, others),
    ensures
        events == others,
        forall|i: int|
            0 <= i <= events.len() ==> #[trigger] run(start, events.take(i)) == run(
                start,
                others.take(i),
            ),
        run(start, events) == run(start, others),
{
    if events.len() <= others.len() {
        lemma_same_answers(world, other, start, events, others);
        if events.len() < others.len() {
            lemma_ended_is_complete(other, start, events, others);
        } else {
            assert(others.take(events.len() as int) =~= others);
        }
    } else {
        lemma_same_answers(other, world, start, others, events);
        lemma_ended_is_complete(world, start, others, events);
    }
}

/// Before the end, too, two such runs take the same course as far as both go.
pub proof fn law_credentials_stay_out_on_the_way(
    world: World,
    other: World,
    start: LoopModel,
    events: Seq<EventModel>,
    others: Seq<EventModel>,
)
    requires
        same_but_credentials(world, other),
        answers(world, start, events),
        answers(other, start, others),
        events.len() == others.len(),
    ensures
        events == others,
        run(start, events) == run(start, others),
{
    lemma_same_answers(world, other, start, events, others);
    assert(others.take(events.len() as int) =~= others);
}

} // verus!
