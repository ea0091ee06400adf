//! What every run publishes: the laws of the pipeline's traces.
//!
//! A run is fed one outcome after another; its trace is the list of all the
//! events of its steps, in the order in which they are published. The laws
//! below hold of the trace of every run, whatever it is fed.

use vstd::prelude::*;
use crate::event::{AssistantStep, EventView, ReplyView};
use crate::pipeline::{ChoiceView, Ending, FinishReason, OutcomeView, PhaseView, RunView};
use crate::pipeline::ToolCallView;
use crate::pipeline::{first_step, step};
use crate::tools::AssistantTool;

verus! {

/// What a run is fed at one step: the outcome of the work it asked for, the
/// time of the step and a name for a file that the step may store.
pub struct Feed {
    pub outcome: OutcomeView,
    pub now: Seq<char>,
    pub fresh: Seq<char>,
}

/// A run together with all that it has published so far.
pub struct History {
    pub run: RunView,
    pub events: Seq<EventView>,
}

/// The history of the run of turn `turn` on device `device` after it was fed
/// `feeds`, one by one.
pub open spec fn history(device: Seq<char>, turn: Seq<char>, feeds: Seq<Feed>) -> History
    decreases feeds.len(),
{
    if feeds.len() == 0 {
        History { run: first_step(device, turn).run, events: first_step(device, turn).events }
    } else {
        let before = history(device, turn, feeds.drop_last());
        let feed = feeds.last();
        let next = step(before.run, feed.outcome, feed.now, feed.fresh);
        History { run: next.run, events: before.events + next.events }
    }
}

/// Whether a reply may still be published from this phase.
pub open spec fn may_reply(phase: PhaseView) -> bool {
    !(phase is Upload || phase is Transcription || phase is Finished)
}

/// Whether the event at `index` of `events` is a placeholder of the user's
/// turn `turn`, at an earlier place than `before`.
pub open spec fn is_input_skeleton(
    events: Seq<EventView>,
    index: int,
    before: int,
    turn: Seq<char>,
) -> bool {
    0 <= index < before && events[index] is InputSkeleton && events[index].turn_id() == Some(
        turn,
    )
}

/// Whether the event at `index` of `events` is a placeholder of the reply to
/// turn `turn`, at an earlier place than `before`.
pub open spec fn is_reply_skeleton(
    events: Seq<EventView>,
    index: int,
    before: int,
    turn: Seq<char>,
) -> bool {
    0 <= index < before && events[index] is ReplySkeleton && events[index].turn_id() == Some(
        turn,
    )
}

/// What holds of every history: the invariant from which the laws follow.
pub open spec fn well_formed(h: History) -> bool {
    let t = h.events;
    &&& forall|i: int| 0 <= i < t.len() - 1 ==> !(#[trigger] t[i]).is_terminal()
    &&& match h.run.phase {
        PhaseView::Finished(Ending::Completed) => t.len() > 0 && t.last() is Complete,
        PhaseView::Finished(Ending::Failed) => t.len() > 0 && t.last() is Error,
        _ => t.len() == 0 || !t.last().is_terminal(),
    }
    &&& forall|i: int|
        0 <= i < t.len() && (#[trigger] t[i]).turn_id() is Some ==> t[i].turn_id() == Some(
            h.run.turn,
        )
    &&& forall|i: int|
        0 <= i < t.len() && (#[trigger] t[i]) is Input ==> exists|j: int|
            is_input_skeleton(t, j, i, h.run.turn)
    &&& forall|i: int|
        0 <= i < t.len() && (#[trigger] t[i]) is Reply ==> exists|j: int|
            is_reply_skeleton(t, j, i, h.run.turn)
    &&& may_reply(h.run.phase) ==> exists|j: int|
        is_reply_skeleton(t, j, t.len() as int, h.run.turn)
}

/// A step keeps a history well formed, and brings the run nearer to its end.
proof fn step_keeps_well_formed(h: History, feed: Feed)
    requires
        well_formed(h),
    ensures
        well_formed(
            History {
                run: step(h.run, feed.outcome, feed.now, feed.fresh).run,
                events: h.events + step(h.run, feed.outcome, feed.now, feed.fresh).events,
            },
        ),
        step(h.run, feed.outcome, feed.now, feed.fresh).run.turn == h.run.turn,
        step(h.run, feed.outcome, feed.now, feed.fresh).run.device == h.run.device,
        h.run.phase.is_finished() || step(
            h.run,
            feed.outcome,
            feed.now,
            feed.fresh,
        ).run.phase.steps_left() < h.run.phase.steps_left(),
        h.run.phase.is_finished() ==> step(h.run, feed.outcome, feed.now, feed.fresh).run
            == h.run && step(h.run, feed.outcome, feed.now, feed.fresh).events.len() == 0,
{
    let next = step(h.run, feed.outcome, feed.now, feed.fresh);
    let t = h.events;
    let e = next.events;
    let u = t + e;
    let turn = h.run.turn;
    assert(next.run.turn == turn);
    if e.len() == 0 {
        assert(u =~= t);
    } else {
        assert(!h.run.phase.is_finished());
        assert(forall|k: int| 0 <= k < e.len() - 1 ==> !(#[trigger] e[k]).is_terminal());
        assert forall|i: int| 0 <= i < u.len() - 1 implies !(#[trigger] u[i]).is_terminal() by {
            if i < t.len() {
                assert(u[i] == t[i]);
            } else {
                assert(u[i] == e[i - t.len()]);
            }
        }
        assert(u.last() == e.last());
        assert forall|i: int| 0 <= i < u.len() && (#[trigger] u[i]).turn_id() is Some implies u[i].turn_id()
            == Some(turn) by {
            if i < t.len() {
                assert(u[i] == t[i]);
            } else {
                assert(u[i] == e[i - t.len()]);
            }
        }
        assert forall|i: int| 0 <= i < u.len() && (#[trigger] u[i]) is Input implies exists|j: int|
            is_input_skeleton(u, j, i, turn) by {
            if i < t.len() {
                assert(u[i] == t[i]);
                let j = choose|j: int| is_input_skeleton(t, j, i, turn);
                assert(u[j] == t[j]);
                assert(is_input_skeleton(u, j, i, turn));
            } else {
                assert(u[i] == e[i - t.len()]);
                assert(h.run.phase is Transcription);
                assert(i == t.len() + 1);
                assert(u[t.len() as int] == e[0]);
                assert(is_input_skeleton(u, t.len() as int, i, turn));
            }
        }
        assert forall|i: int| 0 <= i < u.len() && (#[trigger] u[i]) is Reply implies exists|j: int|
            is_reply_skeleton(u, j, i, turn) by {
            if i < t.len() {
                assert(u[i] == t[i]);
                let j = choose|j: int| is_reply_skeleton(t, j, i, turn);
                assert(u[j] == t[j]);
                assert(is_reply_skeleton(u, j, i, turn));
            } else {
                assert(u[i] == e[i - t.len()]);
                assert(may_reply(h.run.phase));
                let j = choose|j: int| is_reply_skeleton(t, j, t.len() as int, turn);
                assert(u[j] == t[j]);
                assert(is_reply_skeleton(u, j, i, turn));
            }
        }
        if may_reply(next.run.phase) {
            if may_reply(h.run.phase) {
                let j = choose|j: int| is_reply_skeleton(t, j, t.len() as int, turn);
                assert(u[j] == t[j]);
                assert(is_reply_skeleton(u, j, u.len() as int, turn));
            } else {
                assert(h.run.phase is Transcription);
                let at = t.len() as int + 3;
                assert(u[at] == e[3]);
                assert(is_reply_skeleton(u, at, u.len() as int, turn));
            }
        }
    }
}

/// Every history is well formed, belongs to its turn and device, and is at
/// most as many steps from its end as the first step allows, less the steps
/// taken.
pub proof fn history_is_well_formed(device: Seq<char>, turn: Seq<char>, feeds: Seq<Feed>)
    ensures
        well_formed(history(device, turn, feeds)),
        history(device, turn, feeds).run.turn == turn,
        history(device, turn, feeds).run.device == device,
        history(device, turn, feeds).run.phase.steps_left() + feeds.len() <= 7
            || history(device, turn, feeds).run.phase.is_finished(),
    decreases feeds.len(),
{
    if feeds.len() == 0 {
        let h = history(device, turn, feeds);
        assert(h.events.len() == 1);
        assert(h.events[0] is Processing);
    } else {
        history_is_well_formed(device, turn, feeds.drop_last());
        step_keeps_well_formed(history(device, turn, feeds.drop_last()), feeds.last());
    }
}

/// The signal that ends a run is published at most once, and nothing is
/// published after it: in the trace of every run, `Complete` or `Error` stands
/// at no place but the last. The trace ends with `Complete` exactly when the
/// run has completed and with `Error` exactly when it has failed; a run that
/// is under way, or whose request was rejected, has published neither.
pub proof fn terminal_signal_is_unique_and_last(
    device: Seq<char>,
    turn: Seq<char>,
    feeds: Seq<Feed>,
)
    ensures
        ({
            let h = history(device, turn, feeds);
            &&& forall|i: int|
                0 <= i < h.events.len() && (#[trigger] h.events[i]).is_terminal() ==> i
                    == h.events.len() - 1
            &&& h.run.phase == PhaseView::Finished(Ending::Completed) <==> h.events.len() > 0
                && h.events.last() is Complete
            &&& h.run.phase == PhaseView::Finished(Ending::Failed) <==> h.events.len() > 0
                && h.events.last() is Error
        }),
{
    history_is_well_formed(device, turn, feeds);
}

/// Every run ends: after seven outcomes, whatever they are, the run is over.
/// Unless its request was rejected, it has then published exactly one of
/// `Complete` and `Error`, as the last event of its trace.
pub proof fn run_ends_with_one_terminal_signal(
    device: Seq<char>,
    turn: Seq<char>,
    feeds: Seq<Feed>,
)
    requires
        feeds.len() >= 7,
    ensures
        ({
            let h = history(device, turn, feeds);
            &&& h.run.phase.is_finished()
            &&& h.run.phase != PhaseView::Finished(Ending::Rejected) ==> {
                &&& h.events.len() > 0
                &&& h.events.last().is_terminal()
                &&& forall|i: int|
                    0 <= i < h.events.len() - 1 ==> !(#[trigger] h.events[i]).is_terminal()
            }
        }),
{
    history_is_well_formed(device, turn, feeds);
}

/// A run that is over publishes nothing more: feeding it again leaves the
/// run and its trace as they are.
pub proof fn finished_run_is_silent(
    device: Seq<char>,
    turn: Seq<char>,
    feeds: Seq<Feed>,
    feed: Feed,
)
    requires
        history(device, turn, feeds).run.phase.is_finished(),
    ensures
        history(device, turn, feeds.push(feed)) == history(device, turn, feeds),
{
    let h = history(device, turn, feeds);
    assert(feeds.push(feed).drop_last() =~= feeds);
    history_is_well_formed(device, turn, feeds);
    step_keeps_well_formed(h, feed);
    assert(h.events + step(h.run, feed.outcome, feed.now, feed.fresh).events =~= h.events);
}

/// A turn's content follows its placeholder: in the trace of every run, each
/// transcript stands after a placeholder of the user's turn, and each reply
/// after a placeholder of the reply, with the same turn identifier.
pub proof fn skeleton_precedes_content(
    device: Seq<char>,
    turn: Seq<char>,
    feeds: Seq<Feed>,
    i: int,
)
    requires
        0 <= i < history(device, turn, feeds).events.len(),
    ensures
        ({
            let t = history(device, turn, feeds).events;
            &&& t[i] is Input ==> exists|j: int|
                0 <= j < i && t[j] is InputSkeleton && t[j].turn_id() == t[i].turn_id()
            &&& t[i] is Reply ==> exists|j: int|
                0 <= j < i && t[j] is ReplySkeleton && t[j].turn_id() == t[i].turn_id()
        }),
{
    history_is_well_formed(device, turn, feeds);
    let t = history(device, turn, feeds).events;
    if t[i] is Input {
        let j = choose|j: int| is_input_skeleton(t, j, i, turn);
        assert(0 <= j < i && t[j] is InputSkeleton && t[j].turn_id() == t[i].turn_id());
    }
    if t[i] is Reply {
        let j = choose|j: int| is_reply_skeleton(t, j, i, turn);
        assert(0 <= j < i && t[j] is ReplySkeleton && t[j].turn_id() == t[i].turn_id());
    }
}

/// All the content of a run belongs to one turn: every content event in the
/// trace carries the identifier that the run began with.
pub proof fn content_shares_the_turn(
    device: Seq<char>,
    turn: Seq<char>,
    feeds: Seq<Feed>,
    i: int,
)
    requires
        0 <= i < history(device, turn, feeds).events.len(),
    ensures
        history(device, turn, feeds).events[i].turn_id() is Some ==> history(
            device,
            turn,
            feeds,
        ).events[i].turn_id() == Some(turn),
{
    history_is_well_formed(device, turn, feeds);
}

/// The stage that the last progress signal of `events` reports, if `events`
/// holds a progress signal.
pub open spec fn last_stage(events: Seq<EventView>) -> Option<AssistantStep>
    decreases events.len(),
{
    if events.len() == 0 {
        None
    } else {
        match events.last() {
            EventView::Processing(stage) => Some(stage),
            _ => last_stage(events.drop_last()),
        }
    }
}

/// Whether the pipeline goes from the stage `from` straight to the stage
/// `to`.
pub open spec fn follows(from: AssistantStep, to: AssistantStep) -> bool {
    match from {
        AssistantStep::UploadAudio => to == AssistantStep::Transcription,
        AssistantStep::Transcription => to == AssistantStep::Thinking,
        AssistantStep::Thinking => to == AssistantStep::Speech || to
            == AssistantStep::ChatCompletion || to == AssistantStep::WriteCode || to
            == AssistantStep::DrawImage,
        AssistantStep::ChatCompletion => to == AssistantStep::Speech,
        _ => false,
    }
}

/// The stage in which a content event is made, if the event is content.
pub open spec fn stage_of(event: EventView) -> Option<AssistantStep> {
    match event {
        EventView::InputSkeleton { .. } => Some(AssistantStep::Transcription),
        EventView::Input { .. } => Some(AssistantStep::Transcription),
        EventView::ReplySkeleton { .. } => Some(AssistantStep::Thinking),
        EventView::Reply { data, .. } => Some(
            match data {
                ReplyView::Speech { .. } => AssistantStep::Speech,
                ReplyView::Image { .. } => AssistantStep::DrawImage,
                ReplyView::Markdown { .. } => AssistantStep::WriteCode,
            },
        ),
        _ => None,
    }
}

/// The stage that a run in `phase` has last reported, if that is settled by
/// the phase.
pub open spec fn reported(phase: PhaseView) -> Option<AssistantStep> {
    match phase {
        PhaseView::Upload => Some(AssistantStep::UploadAudio),
        PhaseView::Transcription => Some(AssistantStep::Transcription),
        PhaseView::Thinking => Some(AssistantStep::Thinking),
        PhaseView::Arguments(_) => Some(AssistantStep::Thinking),
        PhaseView::Answer => Some(AssistantStep::ChatCompletion),
        PhaseView::Code => Some(AssistantStep::WriteCode),
        PhaseView::Speech { .. } => Some(AssistantStep::Speech),
        PhaseView::SpeechStore { .. } => Some(AssistantStep::Speech),
        PhaseView::Image => Some(AssistantStep::DrawImage),
        PhaseView::ImageStore { .. } => Some(AssistantStep::DrawImage),
        PhaseView::Finished(_) => None,
    }
}

/// Whether the progress signal at `index` of `events` comes in its turn: the
/// first signal reports the upload, and every later one a stage that follows
/// the stage reported before it.
pub open spec fn in_turn(events: Seq<EventView>, index: int) -> bool {
    events[index] matches EventView::Processing(stage) ==> match last_stage(events.take(index)) {
        None => stage == AssistantStep::UploadAudio,
        Some(before) => follows(before, stage),
    }
}

/// Whether the content event at `index` of `events` comes in its stage: the
/// last progress signal before it reports the stage in which it is made.
pub open spec fn in_stage(events: Seq<EventView>, index: int) -> bool {
    stage_of(events[index]) is Some ==> last_stage(events.take(index)) == stage_of(events[index])
}

/// What holds of the stages of every history.
pub open spec fn staged(h: History) -> bool {
    let t = h.events;
    &&& forall|i: int| 0 <= i < t.len() ==> in_turn(t, i)
    &&& forall|i: int| 0 <= i < t.len() ==> in_stage(t, i)
    &&& reported(h.run.phase) is Some ==> last_stage(t) == reported(h.run.phase)
}

/// The last stage of a list of events with one more event.
proof fn last_stage_of_push(events: Seq<EventView>, event: EventView)
    ensures
        last_stage(events.push(event)) == match event {
            EventView::Processing(stage) => Some(stage),
            _ => last_stage(events),
        },
{
    assert(events.push(event).drop_last() =~= events);
}

/// Events in their turn and stage stay so when more events follow.
proof fn prefix_keeps_its_place(t: Seq<EventView>, u: Seq<EventView>, i: int)
    requires
        0 <= i < t.len() <= u.len(),
        forall|k: int| 0 <= k < t.len() ==> t[k] == u[k],
    ensures
        in_turn(u, i) == in_turn(t, i),
        in_stage(u, i) == in_stage(t, i),
{
    assert(u.take(i) =~= t.take(i));
}

/// A step keeps the stages of a history in order.
proof fn step_keeps_staged(h: History, feed: Feed)
    requires
        staged(h),
    ensures
        staged(
            History {
                run: step(h.run, feed.outcome, feed.now, feed.fresh).run,
                events: h.events + step(h.run, feed.outcome, feed.now, feed.fresh).events,
            },
        ),
{
    let next = step(h.run, feed.outcome, feed.now, feed.fresh);
    let t = h.events;
    let e = next.events;
    let u = t + e;
    if e.len() == 0 {
        assert(u =~= t);
    } else {
        assert forall|i: int| 0 <= i < t.len() implies in_turn(u, i) && in_stage(u, i) by {
            prefix_keeps_its_place(t, u, i);
        }
        // The events of the step, one after the other.
        let n = t.len() as int;
        let t1 = t.push(e[0]);
        last_stage_of_push(t, e[0]);
        assert(u.take(n) =~= t);
        assert(u[n] == e[0]);
        if e.len() == 1 {
            assert(u =~= t1);
        } else {
            let t2 = t1.push(e[1]);
            last_stage_of_push(t1, e[1]);
            assert(u.take(n + 1) =~= t1);
            assert(u[n + 1] == e[1]);
            if e.len() == 2 {
                assert(u =~= t2);
            } else {
                assert(e.len() == 4);
                let t3 = t2.push(e[2]);
                last_stage_of_push(t2, e[2]);
                let t4 = t3.push(e[3]);
                last_stage_of_push(t3, e[3]);
                assert(u.take(n + 2) =~= t2);
                assert(u.take(n + 3) =~= t3);
                assert(u[n + 2] == e[2]);
                assert(u[n + 3] == e[3]);
                assert(u =~= t4);
            }
        }
        assert forall|i: int| n <= i < u.len() implies in_turn(u, i) && in_stage(u, i) by {
            assert(i == n || i == n + 1 || i == n + 2 || i == n + 3);
        }
    }
}

/// The stages of every history are in order.
pub proof fn history_is_staged(device: Seq<char>, turn: Seq<char>, feeds: Seq<Feed>)
    ensures
        staged(history(device, turn, feeds)),
    decreases feeds.len(),
{
    if feeds.len() == 0 {
        let t = history(device, turn, feeds).events;
        assert(t.len() == 1);
        assert(t.take(0) =~= Seq::<EventView>::empty());
        last_stage_of_push(Seq::<EventView>::empty(), t[0]);
        assert(Seq::<EventView>::empty().push(t[0]) =~= t);
    } else {
        history_is_staged(device, turn, feeds.drop_last());
        step_keeps_staged(history(device, turn, feeds.drop_last()), feeds.last());
    }
}

/// Stages are neither skipped nor reordered: in the trace of every run, the
/// first progress signal reports the upload, and every later one reports a
/// stage that the pipeline reaches straight from the stage reported before
/// it.
pub proof fn stages_come_in_order(
    device: Seq<char>,
    turn: Seq<char>,
    feeds: Seq<Feed>,
    i: int,
)
    requires
        0 <= i < history(device, turn, feeds).events.len(),
        history(device, turn, feeds).events[i] is Processing,
    ensures
        ({
            let t = history(device, turn, feeds).events;
            let stage = t[i]->Processing_0;
            match last_stage(t.take(i)) {
                None => stage == AssistantStep::UploadAudio,
                Some(before) => follows(before, stage),
            }
        }),
{
    history_is_staged(device, turn, feeds);
    assert(in_turn(history(device, turn, feeds).events, i));
}

/// A progress signal precedes the content it describes: in the trace of
/// every run, the last progress signal before a content event reports the
/// stage in which that content is made, transcription for the user's turn,
/// thinking for the placeholder of the reply, and speech, drawing or writing
/// code for the reply of that kind.
pub proof fn signal_precedes_content(
    device: Seq<char>,
    turn: Seq<char>,
    feeds: Seq<Feed>,
    i: int,
)
    requires
        0 <= i < history(device, turn, feeds).events.len(),
        stage_of(history(device, turn, feeds).events[i]) is Some,
    ensures
        last_stage(history(device, turn, feeds).events.take(i)) == stage_of(
            history(device, turn, feeds).events[i],
        ),
{
    history_is_staged(device, turn, feeds);
    assert(in_stage(history(device, turn, feeds).events, i));
}

/// The choices in which the first tool call of the first choice names `name`
/// and all else is as in `choices`.
pub open spec fn with_tool_name(choices: Seq<ChoiceView>, name: Seq<char>) -> Seq<ChoiceView> {
    let choice = choices[0];
    let call = choice.tool_calls[0];
    choices.update(
        0,
        ChoiceView {
            finish_reason: choice.finish_reason,
            content: choice.content,
            tool_calls: choice.tool_calls.update(
                0,
                ToolCallView { name, arguments: call.arguments },
            ),
        },
    )
}

/// A call of a tool that is not known is answered: where the language model
/// asks for a tool by a name that names none, the run does what it would do
/// had the call named `answer`, with the same arguments.
pub proof fn unknown_tool_is_answer(
    run: RunView,
    choices: Seq<ChoiceView>,
    now: Seq<char>,
    fresh: Seq<char>,
)
    requires
        choices.len() > 0,
        choices[0].finish_reason == FinishReason::ToolCalls,
        choices[0].tool_calls.len() > 0,
        AssistantTool::parse_text(choices[0].tool_calls[0].name) is None,
    ensures
        step(run, OutcomeView::Choices(choices), now, fresh) == step(
            run,
            OutcomeView::Choices(with_tool_name(choices, AssistantTool::Answer.name_text())),
            now,
            fresh,
        ),
        run.phase is Thinking ==> step(run, OutcomeView::Choices(choices), now, fresh).run.phase
            == PhaseView::Arguments(AssistantTool::Answer),
{
    reveal_strlit("draw_image");
    reveal_strlit("write_code");
    reveal_strlit("answer");
    let answer = AssistantTool::Answer.name_text();
    assert(answer.len() == 6);
    assert(AssistantTool::parse_text(answer) == Some(AssistantTool::Answer));
    let renamed = with_tool_name(choices, answer);
    assert(renamed[0].tool_calls[0].name == answer);
    assert(renamed.last().content == choices.last().content);
}

} // verus!
