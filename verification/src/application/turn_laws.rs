//! Laws of a turn: what holds of every run of a turn, whatever the host reports.

use crate::application::context_manager::{compact_error, plan_of, PlanView};
use crate::application::hook_registry::absorbed;
use crate::application::session_runtime::{persisted, RuntimeView};
use crate::application::stream::{collected, provider_error, CollectedView, TextPurpose};
use crate::application::tool_batch::{launch_events, ParallelView, SerialView};
use crate::application::tool_dispatcher::{
    end_events, raw_of, BatchView, CompletionView, PreparationView, PreparedView, RequestedView,
};
use crate::application::turn_rules::{
    advanced, announced, call_payloads, completed, failed, hooks_settled, judged, launched,
    law_hook_answer_keeps_sound, law_next_keeps_sound, planned, prepared, result_payloads,
    skill_payloads, stepped, stepped_parallel, summarised, summary_request, turn_extracted,
    turn_hook_answered, turn_next, turn_opened, turn_read, turn_request, turn_saved, turn_searched,
    turn_sound, turn_tool_ended,
};
use crate::application::turn_state::{OutgoingView, StageView, TurnActionView, TurnDeps, TurnView};
use crate::clock::Timestamp;
use crate::domain::error::AgentErrorView;
use crate::domain::event::{AgentEventView, EventPayloadView};
use crate::domain::hook::{HookPatchView, HookResultView};
use crate::domain::ledger::{
    law_append_keeps_numbering, next_number, strictly_numbered, successor, LedgerEventView,
};
use crate::domain::state::TurnOutcomeView;
use crate::domain::types::{MemoryView, MessageView};
use crate::ports::model::{ChatErrorView, ChatEventView, StreamItemView};
use vstd::prelude::*;

verus! {

// ---------------------------------------------------------------------------
// Runs
// ---------------------------------------------------------------------------
/// One exchange between a turn and its host.
#[allow(inconsistent_fields)]
pub enum ExchangeView {
    /// The host asks what to do next.
    Next { cancelled: bool, now: Timestamp },
    /// The host reports the outcome of storing an event.
    Saved(std::result::Result<(), Seq<Seq<char>>>),
    /// The host reports the answer of a hook handler.
    HookAnswered(HookResultView),
    /// The host reports the outcome of a search for memories.
    Searched(std::result::Result<Seq<MemoryView>, Seq<Seq<char>>>),
    /// The host reports the outcome of sending a request.
    Opened { opened: std::result::Result<(), Seq<Seq<char>>>, cancelled: bool },
    /// The host reports the next item of an answer.
    Read { item: StreamItemView, cancelled: bool },
    /// The host reports the end of a tool.
    ToolEnded { index: usize, completion: CompletionView, duration_ms: u64 },
    /// The host reports the result of a memory extraction.
    Extracted(std::result::Result<Option<u64>, AgentErrorView>),
}

/// A turn, its session, and what has come out of them so far.
#[verifier::ext_equal]
pub struct RunView {
    pub turn: TurnView,
    pub runtime: RuntimeView,
    /// Events handed to the caller.
    pub emitted: Seq<AgentEventView>,
    /// Events appended to the ledger.
    pub stored: Seq<LedgerEventView>,
}

/// Whether an exchange answers what the turn last asked for. Nothing is
/// reported while something waits to go out.
pub open spec fn admissible(t: TurnView, exchange: ExchangeView) -> bool {
    let idle = t.dispatch is None && t.saving is None && t.outbox.len() == 0;
    match exchange {
        ExchangeView::Next { .. } => true,
        ExchangeView::Saved(_) => t.saving is Some,
        ExchangeView::HookAnswered(_) => {
            t.dispatch is Some && t.saving is None && t.outbox.len() == 0
        },
        ExchangeView::Searched(_) => idle && t.stage is Recall,
        ExchangeView::Opened { .. } => idle && (t.stage is Ask || t.stage is Send),
        ExchangeView::Read { .. } => idle && (t.stage is Summarize || t.stage is Stream),
        ExchangeView::ToolEnded { index, .. } => idle && match t.stage {
            StageView::SerialRun(_) => true,
            StageView::Parallel { batch, left, .. } => left > 0 && index < batch.calls.len(),
            _ => false,
        },
        ExchangeView::Extracted(_) => idle && t.stage is Checkpoint,
    }
}

/// A run after one more exchange.
#[verifier::opaque]
pub open spec fn exchanged(d: TurnDeps, run: RunView, exchange: ExchangeView) -> RunView {
    let t = run.turn;
    let rt = run.runtime;
    match exchange {
        ExchangeView::Next { cancelled, now } => {
            let (turn, runtime, action) = turn_next(d, t, rt, cancelled, now);
            RunView {
                turn,
                runtime,
                emitted: match action {
                    TurnActionView::Emit(event) => run.emitted.push(event),
                    _ => run.emitted,
                },
                ..run
            }
        },
        ExchangeView::Saved(saved) => {
            let (turn, runtime) = turn_saved(t, rt, saved);
            RunView {
                turn,
                runtime,
                stored: if saved is Ok {
                    run.stored.push(t.saving->0)
                } else {
                    run.stored
                },
                ..run
            }
        },
        ExchangeView::HookAnswered(result) => RunView {
            turn: turn_hook_answered(d, t, result),
            ..run
        },
        ExchangeView::Searched(found) => RunView { turn: turn_searched(d, t, rt, found), ..run },
        ExchangeView::Opened { opened, cancelled } => RunView {
            turn: turn_opened(t, rt, opened, cancelled),
            ..run
        },
        ExchangeView::Read { item, cancelled } => RunView {
            turn: turn_read(d, t, rt, item, cancelled),
            ..run
        },
        ExchangeView::ToolEnded { index, completion, duration_ms } => RunView {
            turn: turn_tool_ended(d, t, index, completion, duration_ms),
            ..run
        },
        ExchangeView::Extracted(result) => RunView { turn: turn_extracted(t, result), ..run },
    }
}

/// A run after a list of exchanges.
pub open spec fn played(d: TurnDeps, run: RunView, exchanges: Seq<ExchangeView>) -> RunView
    decreases exchanges.len(),
{
    if exchanges.len() == 0 {
        run
    } else {
        exchanged(d, played(d, run, exchanges.drop_last()), exchanges.last())
    }
}

/// Whether every exchange of a list answers what the turn asked for.
pub open spec fn playable(d: TurnDeps, run: RunView, exchanges: Seq<ExchangeView>) -> bool
    decreases exchanges.len(),
{
    exchanges.len() > 0 ==> {
        &&& playable(d, run, exchanges.drop_last())
        &&& admissible(played(d, run, exchanges.drop_last()).turn, exchanges.last())
    }
}

/// The start of a run.
pub open spec fn fresh_run(run: RunView) -> bool {
    &&& run.turn.stage is Start
    &&& run.turn.outbox.len() == 0
    &&& run.turn.saving is None
    &&& run.turn.dispatch is None
    &&& !run.turn.limit_reached
    &&& run.emitted.len() == 0
    &&& run.stored.len() == 0
}

/// Whether a turn is over and nothing of it waits.
pub open spec fn over(t: TurnView) -> bool {
    &&& t.stage is Finished
    &&& t.outbox.len() == 0
    &&& t.saving is None
    &&& t.dispatch is None
}

// ---------------------------------------------------------------------------
// The last event
// ---------------------------------------------------------------------------
/// Whether an event ends a turn.
pub open spec fn is_terminal(payload: EventPayloadView) -> bool {
    payload is TurnComplete || payload is TurnCancelled
}

/// Whether no entry announces an end.
pub open spec fn nothing_terminal(outbox: Seq<OutgoingView>) -> bool {
    forall|i: int|
        0 <= i < outbox.len() ==> !((#[trigger] outbox[i]) matches OutgoingView::Notify(payload)
            && is_terminal(payload))
}

/// Whether nothing that was handed out ends the turn.
pub open spec fn nothing_ended(emitted: Seq<AgentEventView>) -> bool {
    forall|i: int| 0 <= i < emitted.len() ==> !is_terminal((#[trigger] emitted[i]).payload)
}

/// Whether the end of a turn is still to be announced as the last thing, or has
/// been.
pub open spec fn announces(run: RunView, payload: EventPayloadView) -> bool {
    let t = run.turn;
    ||| {
        &&& t.outbox.len() > 0
        &&& t.outbox.last() == OutgoingView::Notify(payload)
        &&& nothing_terminal(t.outbox.drop_last())
        &&& nothing_ended(run.emitted)
    }
    ||| {
        &&& t.outbox.len() == 0
        &&& t.saving is None
        &&& run.emitted.len() > 0
        &&& run.emitted.last().payload == payload
        &&& nothing_ended(run.emitted.drop_last())
    }
}

/// Where a run stands with the announcement of its end.
pub open spec fn orderly(run: RunView) -> bool {
    let t = run.turn;
    &&& turn_sound(t)
    &&& t.stage is Finished ==> t.dispatch is None
    &&& match t.stage {
        StageView::Finished(TurnOutcomeView::Completed) => announces(
            run,
            EventPayloadView::TurnComplete,
        ),
        StageView::Finished(TurnOutcomeView::Cancelled) => announces(
            run,
            EventPayloadView::TurnCancelled,
        ),
        _ => nothing_terminal(t.outbox) && nothing_ended(run.emitted),
    }
}

proof fn lemma_launch_not_terminal(calls: Seq<PreparedView>)
    ensures
        forall|i: int|
            0 <= i < launch_events(calls).len() ==> !is_terminal(
                #[trigger] launch_events(calls)[i],
            ),
    decreases calls.len(),
{
    if calls.len() > 0 {
        let before = launch_events(calls.drop_last());
        lemma_launch_not_terminal(calls.drop_last());
        let all = launch_events(calls);
        assert forall|i: int| 0 <= i < all.len() implies !is_terminal(#[trigger] all[i]) by {
            if i < before.len() {
                assert(all[i] == before[i]);
            }
        }
    }
}

proof fn lemma_skills_not_terminal(messages: Seq<MessageView>)
    ensures
        nothing_terminal(skill_payloads(messages)),
    decreases messages.len(),
{
    if messages.len() > 0 {
        lemma_skills_not_terminal(messages.drop_last());
    }
}

proof fn lemma_announced_not_terminal(outbox: Seq<OutgoingView>, events: Seq<EventPayloadView>)
    requires
        nothing_terminal(outbox),
        forall|i: int| 0 <= i < events.len() ==> !is_terminal(#[trigger] events[i]),
    ensures
        nothing_terminal(outbox + announced(events)),
{
    let all = outbox + announced(events);
    assert forall|i: int| 0 <= i < all.len() implies !((#[trigger] all[i]) matches
        OutgoingView::Notify(payload) && is_terminal(payload)) by {
        if i < outbox.len() {
            assert(all[i] == outbox[i]);
        } else {
            assert(all[i] == OutgoingView::Notify(events[i - outbox.len()]));
        }
    }
}

/// What a transition of a turn may change: its end is announced last, tools stay
/// disabled, and nothing is stored by itself.
pub open spec fn tame(t: TurnView, after: TurnView) -> bool {
    &&& after.saving is None
    &&& !t.allow_tools ==> !after.allow_tools
    &&& t.limit_reached ==> after.limit_reached
    &&& after.limit_reached ==> t.limit_reached || !after.allow_tools
    &&& match after.stage {
        StageView::Finished(TurnOutcomeView::Completed) => {
            &&& after.outbox.len() > 0
            &&& after.outbox.last() == OutgoingView::Notify(EventPayloadView::TurnComplete)
            &&& nothing_terminal(after.outbox.drop_last())
        },
        StageView::Finished(TurnOutcomeView::Cancelled) => {
            &&& after.outbox.len() > 0
            &&& after.outbox.last() == OutgoingView::Notify(EventPayloadView::TurnCancelled)
            &&& nothing_terminal(after.outbox.drop_last())
        },
        _ => nothing_terminal(after.outbox),
    }
}

/// A turn that waits for something other than its end.
pub open spec fn underway(t: TurnView) -> bool {
    &&& !(t.stage is Finished)
    &&& t.saving is None
    &&& t.outbox.len() == 0
}

proof fn lemma_summarised_tame(
    t: TurnView,
    rt: RuntimeView,
    plan: PlanView,
    attempt: std::result::Result<Seq<char>, AgentErrorView>,
)
    requires
        underway(t),
    ensures
        tame(t, summarised(t, rt, plan, attempt)),
{
}

proof fn lemma_planned_tame(d: TurnDeps, t: TurnView, rt: RuntimeView)
    requires
        underway(t),
    ensures
        tame(t, planned(d, t, rt)),
{
    match plan_of(rt.ledger, rt.context.latest) {
        Ok(plan) => match summary_request(d, plan) {
            Ok(_) => {},
            Err(error) => {
                lemma_summarised_tame(t, rt, plan, Err(error));
            },
        },
        Err(_) => {},
    }
}

proof fn lemma_launched_tame(d: TurnDeps, t: TurnView, batch: BatchView, cancelled: bool)
    requires
        underway(t),
    ensures
        tame(t, launched(d, t, batch, cancelled)),
{
    lemma_launch_not_terminal(batch.calls);
    lemma_announced_not_terminal(t.outbox, launch_events(batch.calls));
}

proof fn lemma_stepped_tame(d: TurnDeps, t: TurnView, batch: SerialView, cancelled: bool)
    requires
        underway(t),
    ensures
        tame(t, stepped(d, t, batch, cancelled)),
{
}

proof fn lemma_judged_tame(d: TurnDeps, t: TurnView, count: int, cancelled: bool, stop: bool)
    requires
        underway(t),
    ensures
        tame(t, judged(d, t, count, cancelled, stop)),
{
}

proof fn lemma_prepared_tame(
    d: TurnDeps,
    t: TurnView,
    preparation: PreparationView,
    pending: Seq<RequestedView>,
)
    requires
        underway(t),
        t.stage == (StageView::Prepare { preparation, pending }),
    ensures
        tame(t, prepared(d, t, preparation, pending).0),
        prepared(d, t, preparation, pending).1 is Hooks ==> prepared(
            d,
            t,
            preparation,
            pending,
        ).0 == t,
{
    assert(nothing_terminal(t.outbox + call_payloads(preparation.calls)));
}

proof fn lemma_completed_tame(t: TurnView, before: TurnView)
    requires
        before.saving is None,
        nothing_terminal(before.outbox),
        before.allow_tools == t.allow_tools,
        before.limit_reached == t.limit_reached,
    ensures
        tame(t, completed(before)),
{
    assert(completed(before).outbox.drop_last() =~= before.outbox);
}

#[verifier::spinoff_prover]
#[verifier::rlimit(50)]
proof fn lemma_advanced_tame(d: TurnDeps, t: TurnView, rt: RuntimeView, cancelled: bool)
    requires
        underway(t),
    ensures
        tame(t, advanced(d, t, rt, cancelled).0),
        advanced(d, t, rt, cancelled).1 is Hooks ==> advanced(d, t, rt, cancelled).0 == t,
{
    match t.stage {
        StageView::Compact => {
            lemma_planned_tame(d, t, rt);
        },
        StageView::Prepare { preparation, pending } => {
            lemma_prepared_tame(d, t, preparation, pending);
        },
        StageView::Execute(batch) => {
            lemma_launched_tame(d, t, batch, cancelled);
        },
        StageView::Serial(batch) => {
            lemma_stepped_tame(d, t, batch, cancelled);
        },
        StageView::Judge { count, cancelled, stop } => {
            lemma_judged_tame(d, t, count, cancelled, stop);
        },
        StageView::Results(outcome) => {
            assert(nothing_terminal(t.outbox + result_payloads(outcome.results)));
        },
        StageView::Checkpoint => {
            lemma_completed_tame(t, t);
        },
        _ => {},
    }
}

#[verifier::spinoff_prover]
#[verifier::rlimit(50)]
proof fn lemma_settled_tame(
    d: TurnDeps,
    t: TurnView,
    answer: std::result::Result<Seq<HookPatchView>, AgentErrorView>,
)
    requires
        underway(t),
    ensures
        tame(t, hooks_settled(d, t, answer)),
{
    match t.stage {
        StageView::Start => {
            lemma_skills_not_terminal(t.skill_injections);
        },
        StageView::Ending { .. } => {
            assert(t.outbox.push(
                OutgoingView::Notify(EventPayloadView::TurnCancelled),
            ).drop_last() =~= t.outbox);
        },
        _ => {},
    }
}

#[verifier::spinoff_prover]
#[verifier::rlimit(50)]
proof fn lemma_read_tame(
    d: TurnDeps,
    t: TurnView,
    rt: RuntimeView,
    item: StreamItemView,
    cancelled: bool,
)
    requires
        underway(t),
    ensures
        tame(t, turn_read(d, t, rt, item, cancelled)),
{
    match t.stage {
        StageView::Summarize { plan, text } => {
            match collected(TextPurpose::Compaction, text, item, cancelled) {
                CollectedView::More(_) => {},
                CollectedView::Complete(text) => {
                    lemma_summarised_tame(t, rt, plan, Ok(text));
                },
                CollectedView::Failed(error) => {
                    lemma_summarised_tame(t, rt, plan, Err(error));
                },
            }
        },
        _ => {},
    }
}

proof fn lemma_tool_ended_tame(
    d: TurnDeps,
    t: TurnView,
    index: usize,
    completion: CompletionView,
    duration_ms: u64,
)
    requires
        underway(t),
    ensures
        tame(t, turn_tool_ended(d, t, index, completion, duration_ms)),
{
    match t.stage {
        StageView::SerialRun(batch) => {
            let raw = raw_of(
                batch.calls[batch.position],
                completion,
                duration_ms,
                d.dispatcher.limits,
            );
            lemma_announced_not_terminal(t.outbox, end_events(raw));
        },
        StageView::Parallel { batch, .. } => {
            let raw = raw_of(
                batch.calls[index as int],
                completion,
                duration_ms,
                d.dispatcher.limits,
            );
            lemma_announced_not_terminal(t.outbox, end_events(raw));
        },
        _ => {},
    }
}

proof fn lemma_hook_answered_tame(d: TurnDeps, t: TurnView, result: HookResultView)
    requires
        underway(t),
        t.dispatch is Some,
    ensures
        tame(t, turn_hook_answered(d, t, result)),
{
    let dispatch = t.dispatch->0;
    let answer = absorbed(
        dispatch.event,
        dispatch.calls[dispatch.position].plugin_id,
        dispatch.patches,
        result,
    );
    lemma_settled_tame(d, TurnView { dispatch: None, ..t }, answer);
}

proof fn lemma_opened_tame(
    t: TurnView,
    rt: RuntimeView,
    opened: std::result::Result<(), Seq<Seq<char>>>,
    cancelled: bool,
)
    requires
        underway(t),
    ensures
        tame(t, turn_opened(t, rt, opened, cancelled)),
{
    match t.stage {
        StageView::Ask { plan, .. } => match opened {
            Ok(_) => {},
            Err(source) => {
                lemma_summarised_tame(
                    t,
                    rt,
                    plan,
                    Err(
                        provider_error(
                            "failed to start compact chat request"@,
                            seq!["compact model failed to start chat request"@] + source,
                        ),
                    ),
                );
            },
        },
        _ => {},
    }
}

proof fn lemma_extracted_tame(
    t: TurnView,
    result: std::result::Result<Option<u64>, AgentErrorView>,
)
    requires
        underway(t),
    ensures
        tame(t, turn_extracted(t, result)),
{
    assert(turn_extracted(t, result).outbox.len() > 0);
    assert(nothing_terminal(turn_extracted(t, result).outbox.drop_last()));
}

/// What one exchange does to a run: nothing; the first waiting entry goes out;
/// an event is stored, or cannot be; or the turn goes on with nothing waiting.
pub open spec fn lawful(before: RunView, after: RunView) -> bool {
    let t = before.turn;
    let rt = before.runtime;
    let rest = TurnView { outbox: t.outbox.drop_first(), ..t };
    ||| after == before
    ||| {
        &&& t.saving is None && t.outbox.len() > 0
        &&& t.outbox[0] is Persist
        &&& after.turn.saving matches Some(event) && event.seq == next_number(rt.ledger)
            && event.payload == t.outbox[0]->Persist_0
        &&& after == (RunView {
            turn: TurnView { saving: after.turn.saving, ..rest },
            ..before
        })
    }
    ||| {
        &&& t.saving is None && t.outbox.len() > 0
        &&& t.outbox[0] is Notify
        &&& after.emitted.len() > 0
        &&& after.emitted.last().sequence == rt.event_sequence
        &&& after.emitted.last().session_id == rt.session_id
        &&& after.emitted.last().payload == t.outbox[0]->Notify_0
        &&& after == (RunView {
            turn: rest,
            runtime: RuntimeView { event_sequence: successor(rt.event_sequence), ..rt },
            emitted: before.emitted.push(after.emitted.last()),
            ..before
        })
    }
    ||| {
        &&& t.saving is Some
        &&& after.turn == (TurnView { saving: None, ..t }) || ends_failed(t, after.turn)
        &&& after.runtime.ledger == rt.ledger.push(t.saving->0)
        &&& after.runtime.event_sequence == rt.event_sequence
        &&& after.runtime.session_id == rt.session_id
        &&& after.emitted == before.emitted
        &&& after.stored == before.stored.push(t.saving->0)
    }
    ||| {
        &&& t.saving is Some
        &&& ends_failed(t, after.turn)
        &&& after == (RunView { turn: after.turn, ..before })
    }
    ||| {
        &&& underway(t)
        &&& tame(t, after.turn)
        &&& after == (RunView { turn: after.turn, ..before })
    }
}

/// Whether a turn has failed at once.
pub open spec fn ends_failed(t: TurnView, after: TurnView) -> bool {
    &&& after.stage matches StageView::Finished(TurnOutcomeView::Failed(error))
    &&& after == failed(t, error)
}

#[verifier::spinoff_prover]
#[verifier::rlimit(50)]
proof fn lemma_next_lawful(d: TurnDeps, run: RunView, cancelled: bool, now: Timestamp)
    ensures
        lawful(run, exchanged(d, run, ExchangeView::Next { cancelled, now })),
{
    reveal(exchanged);
    let t = run.turn;
    let rt = run.runtime;
    let after = exchanged(d, run, ExchangeView::Next { cancelled, now });
    if t.saving is None && t.dispatch is None {
        if t.outbox.len() == 0 {
            if t.stage is Finished {
                assert(after == run);
            } else {
                lemma_advanced_tame(d, t, rt, cancelled);
                let (turn, demand) = advanced(d, t, rt, cancelled);
                if demand is Hooks {
                    lemma_settled_tame(d, t, Ok(Seq::empty()));
                }
                assert(tame(t, after.turn));
            }
        }
    } else {
        assert(after == run);
    }
}

#[verifier::spinoff_prover]
#[verifier::rlimit(50)]
proof fn lemma_exchange_lawful(d: TurnDeps, run: RunView, exchange: ExchangeView)
    requires
        admissible(run.turn, exchange),
        run.turn.stage is Finished ==> run.turn.dispatch is None,
    ensures
        lawful(run, exchanged(d, run, exchange)),
{
    let t = run.turn;
    let rt = run.runtime;
    match exchange {
        ExchangeView::Next { cancelled, now } => {
            lemma_next_lawful(d, run, cancelled, now);
        },
        ExchangeView::Saved(saved) => {
            reveal(exchanged);
            let (after, result) = persisted(rt, t.saving->0, saved);
        },
        ExchangeView::HookAnswered(result) => {
            reveal(exchanged);
            lemma_hook_answered_tame(d, t, result);
        },
        ExchangeView::Searched(found) => {
            reveal(exchanged);
        },
        ExchangeView::Opened { opened, cancelled } => {
            reveal(exchanged);
            lemma_opened_tame(t, rt, opened, cancelled);
        },
        ExchangeView::Read { item, cancelled } => {
            reveal(exchanged);
            lemma_read_tame(d, t, rt, item, cancelled);
        },
        ExchangeView::ToolEnded { index, completion, duration_ms } => {
            reveal(exchanged);
            lemma_tool_ended_tame(d, t, index, completion, duration_ms);
        },
        ExchangeView::Extracted(result) => {
            reveal(exchanged);
            lemma_extracted_tame(t, result);
        },
    }
}

#[verifier::spinoff_prover]
#[verifier::rlimit(50)]
proof fn lemma_exchange_rests(d: TurnDeps, run: RunView, exchange: ExchangeView)
    requires
        admissible(run.turn, exchange),
        turn_sound(run.turn),
        run.turn.stage is Finished ==> run.turn.dispatch is None,
    ensures
        turn_sound(exchanged(d, run, exchange).turn),
        exchanged(d, run, exchange).turn.stage is Finished ==> exchanged(
            d,
            run,
            exchange,
        ).turn.dispatch is None,
{
    reveal(exchanged);
    let t = run.turn;
    match exchange {
        ExchangeView::Next { cancelled, now } => {
            law_next_keeps_sound(d, t, run.runtime, cancelled, now);
        },
        ExchangeView::HookAnswered(result) => {
            law_hook_answer_keeps_sound(d, t, result);
        },
        _ => {},
    }
}

proof fn lemma_lawful_orderly(before: RunView, after: RunView)
    requires
        orderly(before),
        lawful(before, after),
        turn_sound(after.turn),
        after.turn.stage is Finished ==> after.turn.dispatch is None,
    ensures
        orderly(after),
{
    let t = before.turn;
    if t.outbox.len() > 0 {
        let rest = t.outbox.drop_first();
        assert forall|i: int| 0 <= i < rest.len() implies rest[i] == t.outbox[i + 1] by {}
        if rest.len() > 0 {
            assert(rest.last() == t.outbox.last());
            let shorter = t.outbox.drop_last();
            assert forall|i: int| 0 <= i < rest.drop_last().len() implies (
            #[trigger] rest.drop_last()[i]) == shorter[i + 1] by {}
            assert(shorter[0] == t.outbox[0]);
        } else {
            assert(t.outbox.last() == t.outbox[0]);
        }
    }
    if after.emitted.len() == before.emitted.len() + 1 {
        assert(after.emitted.drop_last() =~= before.emitted);
        assert forall|i: int| 0 <= i < before.emitted.len() implies after.emitted[i]
            == before.emitted[i] by {
            assert(after.emitted.drop_last()[i] == after.emitted[i]);
        }
    }
}

/// The end of a turn is announced at most once, as its last event, and exactly
/// where the turn completed or was cancelled: once a turn is over, the last
/// event of a completed turn says so, the last event of a cancelled turn says
/// so, and a failed turn announces neither.
pub proof fn law_terminal_event_is_last(
    d: TurnDeps,
    run: RunView,
    exchanges: Seq<ExchangeView>,
)
    requires
        fresh_run(run),
        playable(d, run, exchanges),
    ensures
        ({
            let end = played(d, run, exchanges);
            &&& orderly(end)
            &&& forall|i: int|
                0 <= i < end.emitted.len() - 1 ==> !is_terminal((#[trigger] end.emitted[i]).payload)
            &&& over(end.turn) ==> match end.turn.stage {
                StageView::Finished(TurnOutcomeView::Completed) => end.emitted.len() > 0
                    && end.emitted.last().payload is TurnComplete,
                StageView::Finished(TurnOutcomeView::Cancelled) => end.emitted.len() > 0
                    && end.emitted.last().payload is TurnCancelled,
                _ => nothing_ended(end.emitted),
            }
        }),
    decreases exchanges.len(),
{
    let end = played(d, run, exchanges);
    if exchanges.len() > 0 {
        law_terminal_event_is_last(d, run, exchanges.drop_last());
        let before = played(d, run, exchanges.drop_last());
        lemma_exchange_lawful(d, before, exchanges.last());
        lemma_exchange_rests(d, before, exchanges.last());
        lemma_lawful_orderly(before, end);
    }
    assert forall|i: int| 0 <= i < end.emitted.len() - 1 implies !is_terminal(
        (#[trigger] end.emitted[i]).payload,
    ) by {
        assert(end.emitted.drop_last()[i] == end.emitted[i]);
    }
}

/// A turn that is over asks for nothing more and changes nothing.
pub proof fn law_finished_turn_rests(
    d: TurnDeps,
    t: TurnView,
    rt: RuntimeView,
    cancelled: bool,
    now: Timestamp,
)
    requires
        over(t),
    ensures
        turn_next(d, t, rt, cancelled, now) == (t, rt, TurnActionView::Finish),
{
}

// ---------------------------------------------------------------------------
// Numbers
// ---------------------------------------------------------------------------
/// Events for the caller are numbered without a gap from the number that the
/// session stood at, as long as the numbers last.
pub proof fn law_event_numbers_are_consecutive(
    d: TurnDeps,
    run: RunView,
    exchanges: Seq<ExchangeView>,
)
    requires
        fresh_run(run),
        playable(d, run, exchanges),
        run.runtime.event_sequence + exchanges.len() <= u64::MAX,
    ensures
        ({
            let end = played(d, run, exchanges);
            &&& end.emitted.len() <= exchanges.len()
            &&& end.runtime.event_sequence == run.runtime.event_sequence + end.emitted.len()
            &&& end.runtime.session_id == run.runtime.session_id
            &&& forall|i: int|
                0 <= i < end.emitted.len() ==> {
                    &&& (#[trigger] end.emitted[i]).sequence == run.runtime.event_sequence + i
                    &&& end.emitted[i].session_id == run.runtime.session_id
                }
        }),
    decreases exchanges.len(),
{
    if exchanges.len() > 0 {
        law_event_numbers_are_consecutive(d, run, exchanges.drop_last());
        law_terminal_event_is_last(d, run, exchanges.drop_last());
        let before = played(d, run, exchanges.drop_last());
        lemma_exchange_lawful(d, before, exchanges.last());
    }
}

/// A turn only appends to the ledger, and what it appends takes the next
/// numbers: a strictly numbered ledger stays so, as long as the numbers last.
pub proof fn law_ledger_only_grows(d: TurnDeps, run: RunView, exchanges: Seq<ExchangeView>)
    requires
        fresh_run(run),
        playable(d, run, exchanges),
        strictly_numbered(run.runtime.ledger),
        next_number(run.runtime.ledger) + exchanges.len() <= u64::MAX,
    ensures
        ({
            let end = played(d, run, exchanges);
            &&& end.runtime.ledger == run.runtime.ledger + end.stored
            &&& strictly_numbered(end.runtime.ledger)
            &&& next_number(end.runtime.ledger) <= next_number(run.runtime.ledger)
                + exchanges.len()
            &&& end.turn.saving matches Some(event) ==> event.seq == next_number(end.runtime.ledger)
        }),
    decreases exchanges.len(),
{
    if exchanges.len() == 0 {
        assert(run.runtime.ledger + run.stored =~= run.runtime.ledger);
    } else {
        law_ledger_only_grows(d, run, exchanges.drop_last());
        law_terminal_event_is_last(d, run, exchanges.drop_last());
        let before = played(d, run, exchanges.drop_last());
        let end = played(d, run, exchanges);
        lemma_exchange_lawful(d, before, exchanges.last());
        match before.turn.saving {
            Some(event) => {
                law_append_keeps_numbering(before.runtime.ledger, event);
                if end.stored.len() == before.stored.len() + 1 {
                    assert(end.runtime.ledger =~= run.runtime.ledger + end.stored);
                }
            },
            None => {},
        }
    }
}

// ---------------------------------------------------------------------------
// Tools
// ---------------------------------------------------------------------------
/// Once tools are no longer offered, they stay so for the rest of the turn, and
/// a turn above its limit of tool calls offers none.
pub proof fn law_tools_stay_disabled(
    d: TurnDeps,
    run: RunView,
    exchanges: Seq<ExchangeView>,
    exchange: ExchangeView,
)
    requires
        fresh_run(run),
        playable(d, run, exchanges.push(exchange)),
    ensures
        ({
            let before = played(d, run, exchanges).turn;
            let after = played(d, run, exchanges.push(exchange)).turn;
            &&& !before.allow_tools ==> !after.allow_tools
            &&& after.limit_reached ==> !after.allow_tools
        }),
    decreases exchanges.len(),
{
    assert(exchanges.push(exchange).drop_last() =~= exchanges);
    law_terminal_event_is_last(d, run, exchanges);
    lemma_exchange_lawful(d, played(d, run, exchanges), exchange);
    if exchanges.len() > 0 {
        assert(exchanges.drop_last().push(exchanges.last()) =~= exchanges);
        law_tools_stay_disabled(d, run, exchanges.drop_last(), exchanges.last());
    }
}

/// A request of a turn that no longer offers tools holds no tool.
pub proof fn law_disabled_tools_are_not_sent(d: TurnDeps, t: TurnView, rt: RuntimeView)
    requires
        !t.allow_tools,
    ensures
        turn_request(d, t, rt) matches Ok(request) ==> request.tools.len() == 0,
{
}

/// A turn above its limit of tool calls announces the error, stores the notice
/// and asks the model once more, without tools.
pub proof fn law_limit_leads_to_last_request(
    d: TurnDeps,
    t: TurnView,
    count: int,
    stop: bool,
)
    requires
        count >= 0,
        t.tool_calls_count + count > d.config.max_tool_calls_per_turn,
        d.config.max_tool_calls_per_turn < usize::MAX,
    ensures
        ({
            let after = judged(d, t, count, false, stop);
            &&& after.stage is Request
            &&& !after.allow_tools
            &&& after.limit_reached
            &&& after.outbox.len() == t.outbox.len() + 2
            &&& after.outbox[t.outbox.len() as int] == OutgoingView::Notify(
                EventPayloadView::Error(
                    AgentErrorView::MaxToolCallsExceeded {
                        limit: d.config.max_tool_calls_per_turn,
                    },
                ),
            )
        }),
{
}

/// Once a turn is cancelled, its batch of tools ends it: a serial batch runs no
/// further call, a parallel batch waits for the calls under way, and the model is
/// not asked again.
pub proof fn law_cancelled_batch_ends_turn(
    d: TurnDeps,
    t: TurnView,
    serial: SerialView,
    parallel: ParallelView,
    started: bool,
    count: int,
    stop: bool,
)
    ensures
        stepped(d, t, serial, true).stage matches StageView::Results(outcome) && outcome.cancelled,
        stepped_parallel(t, parallel, 0, started, true).0.stage matches StageView::Results(outcome)
            ==> outcome.cancelled,
        judged(d, t, count, true, stop).stage == (StageView::Ending {
            cancelled: true,
            assistant_output: Seq::empty(),
        }),
{
}

// ---------------------------------------------------------------------------
// Hooks and compaction
// ---------------------------------------------------------------------------
/// A hook that refuses the start of a turn ends it before anything is stored or
/// announced.
pub proof fn law_refused_start_stores_nothing(d: TurnDeps, t: TurnView, error: AgentErrorView)
    requires
        t.stage is Start,
    ensures
        hooks_settled(d, t, Err(error)) == failed(t, error),
        hooks_settled(d, t, Err(error)).outbox.len() == 0,
        over(hooks_settled(d, t, Err(error))),
{
}

/// A hook that refuses a compaction only skips one that was merely estimated to
/// be due; where the provider has refused the request, the turn fails.
pub proof fn law_refused_compaction(d: TurnDeps, t: TurnView, hook: Seq<char>, reason: Seq<char>)
    requires
        t.stage is Gate,
    ensures
        !t.retried ==> hooks_settled(
            d,
            t,
            Err(AgentErrorView::PluginAborted { hook, reason }),
        ) == (TurnView { stage: StageView::Send, ..t }),
        t.retried ==> hooks_settled(d, t, Err(AgentErrorView::PluginAborted { hook, reason }))
            == failed(t, compact_error("BeforeCompact hook aborted fallback compaction"@)),
{
}

/// A request that was too long is tried once more after a compaction, and only
/// once.
pub proof fn law_retry_happens_once(
    d: TurnDeps,
    t: TurnView,
    rt: RuntimeView,
    error: ChatErrorView,
)
    requires
        t.stage is Stream,
        error.is_context_length_exceeded,
    ensures
        ({
            let item = StreamItemView::Event(ChatEventView::Error(error));
            let after = turn_read(d, t, rt, item, false);
            &&& !t.retried ==> after == (TurnView { retried: true, stage: StageView::Gate, ..t })
            &&& t.retried ==> after == failed(
                t,
                compact_error("provider still rejected the request after fallback compaction"@),
            )
        }),
{
}

} // verus!
