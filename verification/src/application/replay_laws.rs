//! What a turn stores can be read back: the context of a session after a turn is
//! the one that its ledger gives.

use crate::api::agent::AgentKernel;
use crate::application::context_laws::{lemma_anchor_found, lemma_same_as_itself};
use crate::application::context_manager::{
    anchor, floor_of, interrupted, message_of, plan_of, PlanView,
};
use crate::application::hook_registry::absorbed;
use crate::application::session_runtime::{
    in_step, in_step_but_notices, keeps_binding, law_live_differs_only_in_notices,
    law_live_equals_resume, law_new_session_in_step, leaves_binding, persisted, well_typed,
    RuntimeView,
};
use crate::application::session_control::ControlView;
use crate::application::session_service::{
    binding_of, creation_begun, keeps_to, new_stage, opening_hook_answered, opening_next,
    opening_remembered, opening_saved, opening_sound, payloads, with_memories, BindingView,
    DraftView, OpeningStageView, OpeningView,
};
use crate::application::tool_batch::launch_events;
use crate::application::tool_dispatcher::{
    end_events, raw_of, BatchView, CompletionView, PreparationView, RequestedView,
};
use crate::application::turn_laws::{
    admissible, exchanged, fresh_run, law_ledger_only_grows, played, playable, ExchangeView,
    RunView,
};
use crate::application::turn_rules::{
    advanced, announced, call_payloads, hooks_settled, launched, planned, prepared, result_payloads,
    skill_payloads, turn_hook_answered, turn_next, turn_read, turn_tool_ended,
};
use crate::application::turn_state::{OutgoingView, StageView, TurnDeps, TurnView};
use crate::clock::Timestamp;
use crate::domain::config::SessionConfigView;
use crate::domain::error::AgentErrorView;
use crate::domain::event::EventPayloadView;
use crate::domain::hook::{HookPatchView, HookResultView};
use crate::domain::ledger::{
    law_append_keeps_numbering, next_number, strictly_numbered, LedgerEventView, MarkerView,
    MetadataKey, PayloadView,
};
use crate::domain::types::{MemoryView, MessageView};
use crate::ports::model::StreamItemView;
use vstd::prelude::*;

verus! {

/// Whether an event with this payload, numbered `number` or higher, can be read
/// back: its metadata fits its key and leaves the binding of the session alone,
/// and a compaction covers only what lies before.
pub open spec fn readable_at(payload: PayloadView, number: u64) -> bool {
    &&& well_typed(payload)
    &&& leaves_binding(payload)
    &&& payload matches PayloadView::Metadata { key: MetadataKey::ContextCompaction, value }
        ==> value->ContextCompaction_0.replaces_through_seq < number
}

/// Whether everything that waits to be stored can be read back.
pub open spec fn queue_readable(outbox: Seq<OutgoingView>, number: u64) -> bool {
    forall|i: int|
        0 <= i < outbox.len() ==> ((#[trigger] outbox[i]) matches OutgoingView::Persist(payload)
            ==> readable_at(payload, number))
}

/// Whether the compaction that a turn is about covers only what lies before.
pub open spec fn plan_readable(stage: StageView, number: u64) -> bool {
    match stage {
        StageView::Ask { plan, .. } => plan.replaces_through_seq < number,
        StageView::Summarize { plan, .. } => plan.replaces_through_seq < number,
        _ => true,
    }
}

/// Whether all that a turn holds can be read back once it is stored.
pub open spec fn readable(t: TurnView, number: u64) -> bool {
    &&& queue_readable(t.outbox, number)
    &&& plan_readable(t.stage, number)
}

proof fn lemma_announced_readable(
    outbox: Seq<OutgoingView>,
    events: Seq<EventPayloadView>,
    number: u64,
)
    requires
        queue_readable(outbox, number),
    ensures
        queue_readable(outbox + announced(events), number),
{
    let all = outbox + announced(events);
    assert forall|i: int| 0 <= i < all.len() implies ((#[trigger] all[i]) matches
        OutgoingView::Persist(payload) ==> readable_at(payload, number)) by {
        if i < outbox.len() {
            assert(all[i] == outbox[i]);
        } else {
            assert(all[i] == OutgoingView::Notify(events[i - outbox.len()]));
        }
    }
}

proof fn lemma_skills_readable(messages: Seq<MessageView>, number: u64)
    ensures
        queue_readable(skill_payloads(messages), number),
    decreases messages.len(),
{
    if messages.len() > 0 {
        lemma_skills_readable(messages.drop_last(), number);
    }
}

proof fn lemma_plan_readable(
    events: Seq<LedgerEventView>,
    marker: Option<MarkerView>,
    plan: PlanView,
)
    requires
        strictly_numbered(events),
        plan_of(events, marker) == Ok::<PlanView, AgentErrorView>(plan),
    ensures
        plan.replaces_through_seq < next_number(events),
{
    let floor = floor_of(marker);
    lemma_anchor_found(events, floor);
    let seq = anchor(events, floor)->0;
    let i = choose|i: int|
        0 <= i < events.len() && (#[trigger] events[i]).seq == seq
            && events[i].payload is UserMessage;
    if i < events.len() - 1 {
        assert(events[i].seq < events[events.len() - 1].seq);
    }
}

proof fn lemma_planned_readable(d: TurnDeps, t: TurnView, rt: RuntimeView)
    requires
        strictly_numbered(rt.ledger),
        readable(t, next_number(rt.ledger)),
    ensures
        readable(planned(d, t, rt), next_number(rt.ledger)),
{
    match plan_of(rt.ledger, rt.context.latest) {
        Ok(plan) => {
            lemma_plan_readable(rt.ledger, rt.context.latest, plan);
        },
        Err(_) => {},
    }
}

proof fn lemma_launched_readable(
    d: TurnDeps,
    t: TurnView,
    batch: BatchView,
    cancelled: bool,
    number: u64,
)
    requires
        readable(t, number),
    ensures
        readable(launched(d, t, batch, cancelled), number),
{
    lemma_announced_readable(t.outbox, launch_events(batch.calls), number);
}

proof fn lemma_prepared_readable(
    d: TurnDeps,
    t: TurnView,
    preparation: PreparationView,
    pending: Seq<RequestedView>,
    number: u64,
)
    requires
        t.stage == (StageView::Prepare { preparation, pending }),
        readable(t, number),
    ensures
        readable(prepared(d, t, preparation, pending).0, number),
{
    assert(queue_readable(t.outbox + call_payloads(preparation.calls), number));
}

#[verifier::spinoff_prover]
#[verifier::rlimit(50)]
proof fn lemma_advanced_readable(d: TurnDeps, t: TurnView, rt: RuntimeView, cancelled: bool)
    requires
        strictly_numbered(rt.ledger),
        readable(t, next_number(rt.ledger)),
    ensures
        readable(advanced(d, t, rt, cancelled).0, next_number(rt.ledger)),
{
    let number = next_number(rt.ledger);
    match t.stage {
        StageView::Compact => {
            lemma_planned_readable(d, t, rt);
        },
        StageView::Prepare { preparation, pending } => {
            lemma_prepared_readable(d, t, preparation, pending, number);
        },
        StageView::Execute(batch) => {
            lemma_launched_readable(d, t, batch, cancelled, number);
        },
        StageView::Results(outcome) => {
            assert(queue_readable(t.outbox + result_payloads(outcome.results), number));
        },
        _ => {},
    }
}

#[verifier::spinoff_prover]
#[verifier::rlimit(50)]
proof fn lemma_settled_readable(
    d: TurnDeps,
    t: TurnView,
    answer: std::result::Result<Seq<HookPatchView>, AgentErrorView>,
    number: u64,
)
    requires
        readable(t, number),
    ensures
        readable(hooks_settled(d, t, answer), number),
{
    match t.stage {
        StageView::Start => {
            lemma_skills_readable(t.skill_injections, number);
            let all = t.outbox + skill_payloads(t.skill_injections).push(
                OutgoingView::Persist(PayloadView::UserMessage { content: t.input }),
            );
            assert(queue_readable(all, number));
        },
        _ => {},
    }
}

#[verifier::spinoff_prover]
#[verifier::rlimit(50)]
proof fn lemma_next_readable(
    d: TurnDeps,
    t: TurnView,
    rt: RuntimeView,
    cancelled: bool,
    now: Timestamp,
)
    requires
        strictly_numbered(rt.ledger),
        readable(t, next_number(rt.ledger)),
    ensures
        ({
            let (after, runtime, _) = turn_next(d, t, rt, cancelled, now);
            &&& readable(after, next_number(rt.ledger))
            &&& runtime == (RuntimeView { event_sequence: runtime.event_sequence, ..rt })
            &&& after.saving != t.saving ==> {
                &&& after.saving matches Some(event)
                &&& event.seq == next_number(rt.ledger)
                &&& readable_at(event.payload, event.seq)
            }
        }),
{
    if t.saving is None && t.dispatch is None {
        if t.outbox.len() > 0 {
            let rest = t.outbox.drop_first();
            assert forall|i: int| 0 <= i < rest.len() implies ((#[trigger] rest[i]) matches
                OutgoingView::Persist(payload) ==> readable_at(
                payload,
                next_number(rt.ledger),
            )) by {
                assert(rest[i] == t.outbox[i + 1]);
            }
        } else {
            lemma_advanced_readable(d, t, rt, cancelled);
            let (after, demand) = advanced(d, t, rt, cancelled);
            lemma_settled_readable(d, after, Ok(Seq::empty()), next_number(rt.ledger));
        }
    }
}

#[verifier::spinoff_prover]
#[verifier::rlimit(50)]
proof fn lemma_read_readable(
    d: TurnDeps,
    t: TurnView,
    rt: RuntimeView,
    item: StreamItemView,
    cancelled: bool,
    number: u64,
)
    requires
        readable(t, number),
    ensures
        readable(turn_read(d, t, rt, item, cancelled), number),
{
}

proof fn lemma_tool_ended_readable(
    d: TurnDeps,
    t: TurnView,
    index: usize,
    completion: CompletionView,
    duration_ms: u64,
    number: u64,
)
    requires
        readable(t, number),
    ensures
        readable(turn_tool_ended(d, t, index, completion, duration_ms), number),
{
    match t.stage {
        StageView::SerialRun(batch) => {
            let call = batch.calls[batch.position];
            let raw = raw_of(call, completion, duration_ms, d.dispatcher.limits);
            lemma_announced_readable(t.outbox, end_events(raw), number);
        },
        StageView::Parallel { batch, .. } => {
            let call = batch.calls[index as int];
            let raw = raw_of(call, completion, duration_ms, d.dispatcher.limits);
            lemma_announced_readable(t.outbox, end_events(raw), number);
        },
        _ => {},
    }
}

proof fn lemma_hook_answered_readable(
    d: TurnDeps,
    t: TurnView,
    result: HookResultView,
    number: u64,
)
    requires
        readable(t, number),
    ensures
        readable(turn_hook_answered(d, t, result), number),
{
    let dispatch = t.dispatch->0;
    let answer = absorbed(
        dispatch.event,
        dispatch.calls[dispatch.position].plugin_id,
        dispatch.patches,
        result,
    );
    lemma_settled_readable(d, TurnView { dispatch: None, ..t }, answer, number);
}

/// Whether the ledger of a session is in order, and its compaction covers only
/// what lies before.
pub open spec fn ordered(rt: RuntimeView) -> bool {
    &&& strictly_numbered(rt.ledger)
    &&& floor_of(rt.context.latest) < next_number(rt.ledger)
}

/// Whether a session is as a restart would find it: its context is the one that
/// its ledger gives, and its ledger is in order.
pub open spec fn restartable(rt: RuntimeView) -> bool {
    in_step(rt) && ordered(rt)
}

/// Whether everything that a run is still to store takes the next number and can
/// be read back.
pub open spec fn pending_readable(run: RunView) -> bool {
    let number = next_number(run.runtime.ledger);
    &&& ordered(run.runtime)
    &&& readable(run.turn, number)
    &&& run.turn.saving matches Some(event) ==> event.seq == number && readable_at(
        event.payload,
        event.seq,
    )
}

/// Whether a run can be read back from its ledger, now and however it goes on.
pub open spec fn resumable(run: RunView) -> bool {
    in_step(run.runtime) && pending_readable(run)
}

proof fn lemma_higher_readable(t: TurnView, number: u64, higher: u64)
    requires
        readable(t, number),
        number <= higher,
    ensures
        readable(t, higher),
{
    assert forall|i: int| 0 <= i < t.outbox.len() implies ((#[trigger] t.outbox[i]) matches
        OutgoingView::Persist(payload) ==> readable_at(payload, higher)) by {
        match t.outbox[i] {
            OutgoingView::Persist(payload) => {
                assert(readable_at(payload, number));
            },
            _ => {},
        }
    }
}

proof fn lemma_saved_ordered(run: RunView, event: LedgerEventView)
    requires
        pending_readable(run),
        run.turn.saving == Some(event),
        next_number(run.runtime.ledger) < u64::MAX,
    ensures
        ({
            let (after, result) = persisted(run.runtime, event, Ok(()));
            &&& result is Ok
            &&& ordered(after)
            &&& after.ledger == run.runtime.ledger.push(event)
            &&& next_number(run.runtime.ledger) < next_number(after.ledger)
        }),
{
    law_append_keeps_numbering(run.runtime.ledger, event);
}

/// One exchange stores nothing that cannot be read back.
#[verifier::spinoff_prover]
#[verifier::rlimit(50)]
proof fn lemma_exchange_readable(d: TurnDeps, run: RunView, exchange: ExchangeView)
    requires
        admissible(run.turn, exchange),
        pending_readable(run),
        next_number(run.runtime.ledger) < u64::MAX,
    ensures
        pending_readable(exchanged(d, run, exchange)),
{
    reveal(exchanged);
    let t = run.turn;
    let rt = run.runtime;
    let number = next_number(rt.ledger);
    match exchange {
        ExchangeView::Next { cancelled, now } => {
            lemma_next_readable(d, t, rt, cancelled, now);
        },
        ExchangeView::Saved(saved) => {
            let event = t.saving->0;
            match saved {
                Ok(_) => {
                    lemma_saved_ordered(run, event);
                    let after = persisted(rt, event, Ok(())).0;
                    lemma_higher_readable(t, number, next_number(after.ledger));
                },
                Err(_) => {},
            }
        },
        ExchangeView::HookAnswered(result) => {
            lemma_hook_answered_readable(d, t, result, number);
        },
        ExchangeView::Searched(found) => {},
        ExchangeView::Opened { opened, cancelled } => {},
        ExchangeView::Read { item, cancelled } => {
            lemma_read_readable(d, t, rt, item, cancelled, number);
        },
        ExchangeView::ToolEnded { index, completion, duration_ms } => {
            lemma_tool_ended_readable(d, t, index, completion, duration_ms, number);
        },
        ExchangeView::Extracted(result) => {},
    }
}

/// One exchange changes the ledger and the context of a session only by storing
/// an event.
proof fn lemma_exchange_stores(d: TurnDeps, run: RunView, exchange: ExchangeView)
    requires
        admissible(run.turn, exchange),
        pending_readable(run),
    ensures
        ({
            let before = run.runtime;
            let end = exchanged(d, run, exchange);
            ||| {
                &&& end.stored == run.stored
                &&& end.runtime.ledger == before.ledger
                &&& end.runtime.context == before.context
            }
            ||| {
                &&& run.turn.saving is Some
                &&& end.stored == run.stored.push(run.turn.saving->0)
                &&& end.runtime == persisted(before, run.turn.saving->0, Ok(())).0
            }
        }),
{
    reveal(exchanged);
    if let ExchangeView::Next { cancelled, now } = exchange {
        lemma_next_readable(d, run.turn, run.runtime, cancelled, now);
    }
}

/// Whether an event holds an interrupted message.
pub open spec fn is_interruption(event: LedgerEventView) -> bool {
    message_of(event.payload) matches Some(message) && interrupted(message)
}

/// A turn leaves its session as a restart would find it: whatever the host
/// reports, the live context is the one rebuilt from the ledger, with the same
/// messages and the same compaction. Runs that stored an interrupted message are
/// left out, as only a rebuilt context shows the notice behind it.
pub proof fn law_turn_leaves_session_resumable(
    d: TurnDeps,
    run: RunView,
    exchanges: Seq<ExchangeView>,
)
    requires
        fresh_run(run),
        playable(d, run, exchanges),
        restartable(run.runtime),
        next_number(run.runtime.ledger) + exchanges.len() <= u64::MAX,
        forall|i: int|
            0 <= i < played(d, run, exchanges).stored.len() ==> !is_interruption(
                #[trigger] played(d, run, exchanges).stored[i],
            ),
    ensures
        restartable(played(d, run, exchanges).runtime),
        resumable(played(d, run, exchanges)),
    decreases exchanges.len(),
{
    if exchanges.len() > 0 {
        let front = exchanges.drop_last();
        let before = played(d, run, front);
        let end = played(d, run, exchanges);
        assert(end.stored == before.stored || end.stored == before.stored.push(
            before.turn.saving->0,
        )) by {
            reveal(exchanged);
        }
        assert forall|i: int| 0 <= i < before.stored.len() implies !is_interruption(
            #[trigger] before.stored[i],
        ) by {
            assert(end.stored[i] == before.stored[i]);
        }
        law_turn_leaves_session_resumable(d, run, front);
        law_ledger_only_grows(d, run, front);
        lemma_exchange_readable(d, before, exchanges.last());
        lemma_exchange_stores(d, before, exchanges.last());
        if end.stored != before.stored {
            let event = before.turn.saving->0;
            assert(end.stored[before.stored.len() as int] == event);
            law_live_equals_resume(before.runtime, event);
        }
    }
}

/// Whether a session is as a restart would find it, except for notices behind
/// interrupted messages.
pub open spec fn restartable_but_notices(rt: RuntimeView) -> bool {
    in_step_but_notices(rt) && ordered(rt)
}

/// Every turn, interrupted or not, leaves its session as a restart would find
/// it, except for the notices that a restart shows behind interrupted messages:
/// whatever the host reports, the context rebuilt from the ledger has the
/// messages of the live one and the same compaction.
pub proof fn law_every_turn_can_be_resumed(
    d: TurnDeps,
    run: RunView,
    exchanges: Seq<ExchangeView>,
)
    requires
        fresh_run(run),
        playable(d, run, exchanges),
        restartable_but_notices(run.runtime),
        next_number(run.runtime.ledger) + exchanges.len() <= u64::MAX,
    ensures
        restartable_but_notices(played(d, run, exchanges).runtime),
        pending_readable(played(d, run, exchanges)),
    decreases exchanges.len(),
{
    if exchanges.len() > 0 {
        let front = exchanges.drop_last();
        let before = played(d, run, front);
        let end = played(d, run, exchanges);
        law_every_turn_can_be_resumed(d, run, front);
        law_ledger_only_grows(d, run, front);
        lemma_exchange_readable(d, before, exchanges.last());
        lemma_exchange_stores(d, before, exchanges.last());
        if end.stored != before.stored {
            law_live_differs_only_in_notices(before.runtime, before.turn.saving->0);
        }
    }
}

/// What holds of sessions up to notices holds of those without any difference.
pub proof fn law_restartable_sessions_are_covered(rt: RuntimeView)
    requires
        restartable(rt),
    ensures
        restartable_but_notices(rt),
{
    lemma_same_as_itself(rt.context.visible);
}

/// Whatever a turn stores leaves the binding of its session alone.
pub proof fn law_turn_keeps_binding(d: TurnDeps, run: RunView, exchanges: Seq<ExchangeView>)
    requires
        fresh_run(run),
        playable(d, run, exchanges),
        ordered(run.runtime),
        next_number(run.runtime.ledger) + exchanges.len() <= u64::MAX,
    ensures
        pending_readable(played(d, run, exchanges)),
        forall|i: int|
            0 <= i < played(d, run, exchanges).stored.len() ==> keeps_binding(
                #[trigger] played(d, run, exchanges).stored[i],
            ),
    decreases exchanges.len(),
{
    if exchanges.len() > 0 {
        let front = exchanges.drop_last();
        let before = played(d, run, front);
        law_turn_keeps_binding(d, run, front);
        law_ledger_only_grows(d, run, front);
        lemma_exchange_readable(d, before, exchanges.last());
        lemma_exchange_stores(d, before, exchanges.last());
    }
}

/// Whether a session being opened is as a restart would find it.
pub open spec fn opens_restartable(o: OpeningView) -> bool {
    match o.stage {
        OpeningStageView::Greet(rt) => restartable(rt) && rt.ledger.len() == 0,
        OpeningStageView::Record { runtime, .. } => {
            &&& restartable(runtime)
            &&& next_number(runtime.ledger) == runtime.ledger.len() + 1
            &&& o.saving matches Some(event) ==> event.seq == next_number(runtime.ledger)
        },
        OpeningStageView::Ready(rt) => restartable(rt),
        _ => true,
    }
}

/// A new session is opened as a restart would find it: whatever the host
/// reports, every step of the opening keeps it so.
pub proof fn law_new_session_is_restartable(
    kernel: AgentKernel,
    o: OpeningView,
    binding: BindingView,
    now: Timestamp,
    result: HookResultView,
    saved: std::result::Result<(), Seq<Seq<char>>>,
    listed: std::result::Result<Seq<MemoryView>, Seq<Seq<char>>>,
)
    requires
        opening_sound(o),
        keeps_to(o, binding),
        opens_restartable(o),
    ensures
        opens_restartable(opening_next(kernel, o, now).0),
        o.dispatch is Some ==> opens_restartable(opening_hook_answered(o, result)),
        o.saving is Some ==> opens_restartable(opening_saved(o, saved)),
        o.stage matches OpeningStageView::Remember(draft) ==> opens_restartable(
            OpeningView { stage: opening_remembered(o.session_id, draft, listed), ..o },
        ),
{
    match o.stage {
        OpeningStageView::Remember(draft) => {
            if let (DraftView::New { .. }, Ok(memories)) = (draft, listed) {
                let rt = with_memories(o.session_id, draft, memories)->Greet_0;
                law_new_session_in_step(rt);
            }
        },
        OpeningStageView::Record { runtime, outbox } => {
            if let Some(event) = o.saving {
                let all = binding_of(runtime);
                assert(all[payloads(runtime.ledger).len() as int] == event.payload);
                law_live_equals_resume(runtime, event);
                law_append_keeps_numbering(runtime.ledger, event);
            }
        },
        _ => {},
    }
}

/// A new session starts out as a restart would find it.
pub proof fn law_new_session_starts_restartable(
    kernel: AgentKernel,
    c: ControlView,
    config: SessionConfigView,
    session_id: Seq<char>,
    reservation_id: Seq<char>,
)
    ensures
        creation_begun(kernel, c, config, session_id, reservation_id).1 matches Ok(o)
            ==> opens_restartable(o),
{
    let stage = new_stage(kernel, session_id, config);
    if let OpeningStageView::Greet(rt) = stage {
        law_new_session_in_step(rt);
    }
}

} // verus!
