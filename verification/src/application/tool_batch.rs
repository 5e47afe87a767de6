//! Execution of a prepared batch: one call after the other where a tool
//! changes state outside, all at once otherwise.

use crate::application::tool_dispatcher::{
    completed_of, hooks_answered, offered, raw_of, stand_in, start_event, BatchOutcomeView,
    CompletedToolCall, CompletedView, CompletionView, ExecutionView, OfferView, PreparationView,
    PreparedExecution, PreparedToolBatch, PreparedToolCall, PreparedView, RecordView, RequestedView,
    ToolBatchOutcome, ToolExecutionRecord, ToolLimits,
};
use crate::application::tool_output::normalize_tool_output;
use crate::domain::error::{outcome, AgentError, AgentErrorView, Result};
use crate::domain::event::{AgentEventPayload, EventPayloadView};
use crate::domain::hook::HookPatchView;
use crate::domain::types::ToolOutput;
use crate::json::JsonValue;
use vstd::prelude::*;
use vstd::string::*;

verus! {

/// A prepared call as if it had been requested with its effective arguments.
pub open spec fn as_requested(call: PreparedView) -> RequestedView {
    RequestedView {
        call_id: call.call_id,
        tool_name: call.tool_name,
        arguments: call.effective_arguments,
    }
}

/// The results that answer all calls from `position` on with one text.
pub open spec fn answered_from(
    calls: Seq<PreparedView>,
    position: int,
    content: Seq<char>,
    limits: ToolLimits,
) -> Seq<RecordView> {
    calls.skip(position).map_values(
        |call: PreparedView| stand_in(as_requested(call), content, limits),
    )
}

fn stand_in_for(call: &PreparedToolCall, content: &str, limits: ToolLimits) -> (r:
    ToolExecutionRecord)
    ensures
        r.deep_view() == stand_in(as_requested(call.deep_view()), content@, limits),
{
    ToolExecutionRecord {
        call_id: call.call_id.clone(),
        tool_name: call.tool_name.clone(),
        effective_arguments: call.effective_arguments.clone(),
        output: normalize_tool_output(
            ToolOutput {
                content: content.to_owned(),
                is_error: true,
                metadata: JsonValue::null(),
            },
            limits.output_max_bytes,
            limits.metadata_max_bytes,
        ),
        duration_ms: 0,
        success: false,
    }
}

fn answer_from(
    results: &mut Vec<ToolExecutionRecord>,
    calls: &Vec<PreparedToolCall>,
    position: usize,
    content: &str,
    limits: ToolLimits,
)
    requires
        position <= calls.len(),
    ensures
        final(results).deep_view() == old(results).deep_view() + answered_from(
            calls.deep_view(),
            position as int,
            content@,
            limits,
        ),
{
    let ghost wanted = answered_from(calls.deep_view(), position as int, content@, limits);
    let ghost head = results.deep_view();
    let mut i: usize = position;
    proof {
        assert(results.deep_view() =~= head + wanted.take(0));
    }
    while i < calls.len()
        invariant
            position <= i <= calls.len(),
            wanted == answered_from(calls.deep_view(), position as int, content@, limits),
            results.deep_view() == head + wanted.take(i - position),
        decreases calls.len() - i,
    {
        let ghost before = results.deep_view();
        results.push(stand_in_for(&calls[i], content, limits));
        proof {
            assert(results.deep_view() =~= before.push(wanted[i - position]));
            assert(results.deep_view() =~= head + wanted.take(i + 1 - position));
        }
        i += 1;
    }
    proof {
        assert(wanted.take(calls.len() - position) =~= wanted);
    }
}

/// The event that announces the error of a stand-in result, if any.
pub open spec fn synthetic_event(error: Option<Seq<char>>) -> Option<EventPayloadView> {
    match error {
        Some(name) => Some(EventPayloadView::Error(AgentErrorView::ToolNotFound(name))),
        None => None,
    }
}

// ---------------------------------------------------------------------------
// Serial execution
// ---------------------------------------------------------------------------
/// A batch that runs one call after the other.
#[derive(Debug)]
pub struct SerialBatch {
    calls: Vec<PreparedToolCall>,
    position: usize,
    results: Vec<ToolExecutionRecord>,
    cancelled: bool,
    stop_after_batch: bool,
}

/// Model of [`SerialBatch`].
#[verifier::ext_equal]
pub struct SerialView {
    pub calls: Seq<PreparedView>,
    pub position: int,
    pub results: Seq<RecordView>,
    pub cancelled: bool,
    pub stop_after_batch: bool,
}

impl DeepView for SerialBatch {
    type V = SerialView;

    closed spec fn deep_view(&self) -> SerialView {
        SerialView {
            calls: self.calls.deep_view(),
            position: self.position as int,
            results: self.results.deep_view(),
            cancelled: self.cancelled,
            stop_after_batch: self.stop_after_batch,
        }
    }
}

/// What a serial batch does next.
#[derive(Debug, PartialEq, Eq)]
pub enum SerialStep {
    /// Every call has its result.
    Finished,
    /// A call got its ready result; the event is announced, if there is one.
    Recorded(Option<AgentEventPayload>),
    /// The current call runs.
    Execute,
}

/// Model of [`SerialStep`].
#[verifier::ext_equal]
pub enum SerialStepView {
    Finished,
    Recorded(Option<EventPayloadView>),
    Execute,
}

impl DeepView for SerialStep {
    type V = SerialStepView;

    open spec fn deep_view(&self) -> SerialStepView {
        match self {
            SerialStep::Finished => SerialStepView::Finished,
            SerialStep::Recorded(event) => SerialStepView::Recorded(event.deep_view()),
            SerialStep::Execute => SerialStepView::Execute,
        }
    }
}

/// How a serial batch goes on: a cancelled turn answers all remaining calls
/// with a notice, and is cancelled even where no call remains; a ready result is
/// taken over; any other call runs.
pub open spec fn serial_next(
    batch: SerialView,
    turn_cancelled: bool,
    limits: ToolLimits,
) -> (SerialView, SerialStepView) {
    if batch.position >= batch.calls.len() {
        (
            SerialView { cancelled: batch.cancelled || turn_cancelled, ..batch },
            SerialStepView::Finished,
        )
    } else if turn_cancelled {
        (
            SerialView {
                position: batch.calls.len() as int,
                results: batch.results + answered_from(
                    batch.calls,
                    batch.position,
                    "[Tool cancelled]"@,
                    limits,
                ),
                cancelled: true,
                ..batch
            },
            SerialStepView::Finished,
        )
    } else {
        match batch.calls[batch.position].execution {
            ExecutionView::Synthetic { record, error } => (
                SerialView {
                    position: batch.position + 1,
                    results: batch.results.push(record),
                    ..batch
                },
                SerialStepView::Recorded(synthetic_event(error)),
            ),
            ExecutionView::Execute { .. } => (batch, SerialStepView::Execute),
        }
    }
}

/// A serial batch after the run of its current call: after a failure, a
/// timeout or an abort by a hook, all later calls are skipped.
pub open spec fn serial_record(
    batch: SerialView,
    completed: CompletedView,
    limits: ToolLimits,
) -> SerialView {
    let stop_after_batch = batch.stop_after_batch || completed.after_tool_abort;
    let results = batch.results.push(completed.record);
    if completed.after_tool_abort || completed.skip is Some {
        let message = match completed.skip {
            Some(message) => message,
            None => "[Tool skipped: previous tool aborted by plugin]"@,
        };
        SerialView {
            position: batch.calls.len() as int,
            results: results + answered_from(batch.calls, batch.position + 1, message, limits),
            stop_after_batch,
            ..batch
        }
    } else {
        SerialView { position: batch.position + 1, results, stop_after_batch, ..batch }
    }
}

impl SerialBatch {
    /// Starts the serial execution of a batch.
    pub fn new(batch: PreparedToolBatch) -> (r: Self)
        ensures
            r.deep_view() == (SerialView {
                calls: batch.calls.deep_view(),
                position: 0,
                results: Seq::empty(),
                cancelled: false,
                stop_after_batch: false,
            }),
    {
        let results: Vec<ToolExecutionRecord> = Vec::new();
        proof {
            assert(results.deep_view() =~= Seq::<RecordView>::empty());
        }
        SerialBatch {
            calls: batch.calls,
            position: 0,
            results,
            cancelled: false,
            stop_after_batch: false,
        }
    }

    /// Goes on to the next call.
    pub fn next(&mut self, turn_cancelled: bool, limits: ToolLimits) -> (r: SerialStep)
        ensures
            (final(self).deep_view(), r.deep_view()) == serial_next(
                old(self).deep_view(),
                turn_cancelled,
                limits,
            ),
    {
        let position: usize = self.position;
        if turn_cancelled {
            self.cancelled = true;
        }
        if position >= self.calls.len() {
            return SerialStep::Finished;
        }
        if turn_cancelled {
            answer_from(&mut self.results, &self.calls, position, "[Tool cancelled]", limits);
            self.position = self.calls.len();
            return SerialStep::Finished;
        }
        match &self.calls[position].execution {
            PreparedExecution::Synthetic { record, error } => {
                let event = match error {
                    Some(error) => Some(AgentEventPayload::Error(error.to_agent_error())),
                    None => None,
                };
                self.results.push(record.clone());
                self.position = position + 1;
                proof {
                    assert(self.results.deep_view() =~= old(self).results.deep_view().push(
                        record.deep_view(),
                    ));
                }
                SerialStep::Recorded(event)
            },
            PreparedExecution::Execute { .. } => SerialStep::Execute,
        }
    }

    /// The call that the batch stands at.
    pub fn current(&self) -> (r: &PreparedToolCall)
        requires
            self.deep_view().position < self.deep_view().calls.len(),
        ensures
            r.deep_view() == self.deep_view().calls[self.deep_view().position],
    {
        &self.calls[self.position]
    }

    /// The position of the call that the batch stands at.
    pub fn position(&self) -> (r: usize)
        ensures
            r == self.deep_view().position,
    {
        self.position
    }

    /// Takes the finished run of the current call.
    pub fn record(&mut self, completed: CompletedToolCall, limits: ToolLimits)
        requires
            old(self).deep_view().position < old(self).deep_view().calls.len(),
        ensures
            final(self).deep_view() == serial_record(
                old(self).deep_view(),
                completed.deep_view(),
                limits,
            ),
    {
        let position: usize = self.position;
        let count: usize = self.calls.len();
        assert(position < count);
        if completed.after_tool_abort {
            self.stop_after_batch = true;
        }
        let ghost view = completed.deep_view();
        self.results.push(completed.record);
        proof {
            assert(self.results.deep_view() =~= old(self).results.deep_view().push(view.record));
        }
        if completed.after_tool_abort || completed.skip_remaining_message.is_some() {
            let message = match completed.skip_remaining_message {
                Some(message) => message,
                None => "[Tool skipped: previous tool aborted by plugin]".to_owned(),
            };
            answer_from(&mut self.results, &self.calls, position + 1, message.as_str(), limits);
            self.position = count;
        } else {
            self.position = position + 1;
        }
    }

    /// The outcome of the batch.
    pub fn into_outcome(self) -> (r: ToolBatchOutcome)
        ensures
            r.deep_view() == (BatchOutcomeView {
                results: self.deep_view().results,
                cancelled: self.deep_view().cancelled,
                stop_after_batch: self.deep_view().stop_after_batch,
            }),
    {
        ToolBatchOutcome {
            results: self.results,
            cancelled: self.cancelled,
            stop_after_batch: self.stop_after_batch,
        }
    }
}

// ---------------------------------------------------------------------------
// Parallel execution
// ---------------------------------------------------------------------------
/// A batch whose calls run at the same time.
#[derive(Debug)]
pub struct ParallelBatch {
    calls: Vec<PreparedToolCall>,
    slots: Vec<Option<ToolExecutionRecord>>,
    stop_after_batch: bool,
}

/// Model of [`ParallelBatch`].
#[verifier::ext_equal]
pub struct ParallelView {
    pub calls: Seq<PreparedView>,
    pub slots: Seq<Option<RecordView>>,
    pub stop_after_batch: bool,
}

impl DeepView for ParallelBatch {
    type V = ParallelView;

    closed spec fn deep_view(&self) -> ParallelView {
        ParallelView {
            calls: self.calls.deep_view(),
            slots: self.slots.deep_view(),
            stop_after_batch: self.stop_after_batch,
        }
    }
}

/// The result of a call that is ready before anything runs.
pub open spec fn ready_record(call: PreparedView) -> Option<RecordView> {
    match call.execution {
        ExecutionView::Synthetic { record, .. } => Some(record),
        ExecutionView::Execute { .. } => None,
    }
}

/// The events at the start of a parallel batch, in the order of the calls.
pub open spec fn launch_events(calls: Seq<PreparedView>) -> Seq<EventPayloadView>
    decreases calls.len(),
{
    if calls.len() == 0 {
        Seq::empty()
    } else {
        let before = launch_events(calls.drop_last());
        match calls.last().execution {
            ExecutionView::Synthetic { error, .. } => match synthetic_event(error) {
                Some(event) => before.push(event),
                None => before,
            },
            ExecutionView::Execute { .. } => before.push(start_event(calls.last())),
        }
    }
}

/// The positions of the calls that run, in order.
pub open spec fn running(calls: Seq<PreparedView>) -> Seq<usize>
    decreases calls.len(),
{
    if calls.len() == 0 {
        Seq::empty()
    } else if calls.last().execution is Execute {
        running(calls.drop_last()).push((calls.len() - 1) as usize)
    } else {
        running(calls.drop_last())
    }
}

/// The results of all slots, or nothing where one is empty.
pub open spec fn filled(slots: Seq<Option<RecordView>>) -> Option<Seq<RecordView>> {
    if forall|i: int| 0 <= i < slots.len() ==> (#[trigger] slots[i]) is Some {
        Some(slots.map_values(|slot: Option<RecordView>| slot->0))
    } else {
        None
    }
}

/// The outcome of a parallel batch.
pub open spec fn parallel_outcome(
    batch: ParallelView,
    turn_cancelled: bool,
) -> std::result::Result<BatchOutcomeView, AgentErrorView> {
    match filled(batch.slots) {
        Some(results) => Ok(
            BatchOutcomeView {
                results,
                cancelled: turn_cancelled,
                stop_after_batch: batch.stop_after_batch,
            },
        ),
        None => Err(
            AgentErrorView::InternalPanic {
                message: "tool dispatcher lost a read-only batch result"@,
            },
        ),
    }
}

/// The outcome of a batch that is cancelled before anything runs.
pub fn cancelled_outcome(batch: PreparedToolBatch, limits: ToolLimits) -> (r: ToolBatchOutcome)
    ensures
        r.deep_view() == (BatchOutcomeView {
            results: answered_from(batch.calls.deep_view(), 0, "[Tool cancelled]"@, limits),
            cancelled: true,
            stop_after_batch: false,
        }),
{
    let mut results: Vec<ToolExecutionRecord> = Vec::new();
    answer_from(&mut results, &batch.calls, 0, "[Tool cancelled]", limits);
    proof {
        assert(results.deep_view() =~= answered_from(
            batch.calls.deep_view(),
            0,
            "[Tool cancelled]"@,
            limits,
        ));
    }
    ToolBatchOutcome { results, cancelled: true, stop_after_batch: false }
}

/// Puts the results of all slots in order.
pub fn collect_ordered_results(
    results: Vec<Option<ToolExecutionRecord>>,
) -> (r: Result<Vec<ToolExecutionRecord>>)
    ensures
        match filled(results.deep_view()) {
            Some(records) => r matches Ok(ordered) && ordered.deep_view() == records,
            None => r matches Err(error) && error.deep_view() == (AgentErrorView::InternalPanic {
                message: "tool dispatcher lost a read-only batch result"@,
            }),
        },
{
    let ghost slots = results.deep_view();
    let mut ordered: Vec<ToolExecutionRecord> = Vec::new();
    let mut i: usize = 0;
    while i < results.len()
        invariant
            i <= results.len(),
            slots == results.deep_view(),
            ordered.deep_view() =~= slots.take(i as int).map_values(
                |slot: Option<RecordView>| slot->0,
            ),
            forall|j: int| 0 <= j < i ==> (#[trigger] slots[j]) is Some,
        decreases results.len() - i,
    {
        proof {
            assert(slots[i as int] == results[i as int].deep_view());
        }
        match &results[i] {
            Some(record) => {
                let ghost before = ordered.deep_view();
                ordered.push(record.clone());
                proof {
                    assert(ordered.deep_view() =~= before.push(slots[i as int]->0));
                }
            },
            None => {
                return Err(
                    AgentError::InternalPanic {
                        message: "tool dispatcher lost a read-only batch result".to_owned(),
                    },
                );
            },
        }
        i += 1;
    }
    proof {
        assert(slots.take(slots.len() as int) =~= slots);
    }
    Ok(ordered)
}

impl ParallelBatch {
    /// Starts the parallel execution of a batch.
    pub fn new(batch: PreparedToolBatch) -> (r: Self)
        ensures
            r.deep_view() == (ParallelView {
                calls: batch.calls.deep_view(),
                slots: batch.calls.deep_view().map_values(|call: PreparedView| ready_record(call)),
                stop_after_batch: false,
            }),
    {
        let ghost wanted = batch.calls.deep_view().map_values(
            |call: PreparedView| ready_record(call),
        );
        let mut slots: Vec<Option<ToolExecutionRecord>> = Vec::new();
        let mut i: usize = 0;
        while i < batch.calls.len()
            invariant
                i <= batch.calls.len(),
                wanted == batch.calls.deep_view().map_values(
                    |call: PreparedView| ready_record(call),
                ),
                slots.deep_view() =~= wanted.take(i as int),
            decreases batch.calls.len() - i,
        {
            let ghost before = slots.deep_view();
            match &batch.calls[i].execution {
                PreparedExecution::Synthetic { record, .. } => {
                    slots.push(Some(record.clone()));
                },
                PreparedExecution::Execute { .. } => {
                    slots.push(None);
                },
            }
            proof {
                assert(slots.deep_view() =~= before.push(wanted[i as int]));
            }
            i += 1;
        }
        proof {
            assert(wanted.take(batch.calls.len() as int) =~= wanted);
        }
        ParallelBatch { calls: batch.calls, slots, stop_after_batch: false }
    }

    /// The events at the start of the batch.
    pub fn launch_events(&self) -> (r: Vec<AgentEventPayload>)
        ensures
            r.deep_view() == launch_events(self.deep_view().calls),
    {
        let ghost all = self.calls.deep_view();
        let mut events: Vec<AgentEventPayload> = Vec::new();
        let mut i: usize = 0;
        proof {
            assert(events.deep_view() =~= launch_events(all.take(0)));
        }
        while i < self.calls.len()
            invariant
                i <= self.calls.len(),
                all == self.calls.deep_view(),
                events.deep_view() == launch_events(all.take(i as int)),
            decreases self.calls.len() - i,
        {
            let ghost before = events.deep_view();
            let call = &self.calls[i];
            proof {
                assert(all.take(i + 1).drop_last() =~= all.take(i as int));
                assert(all.take(i + 1).last() == call.deep_view());
            }
            match &call.execution {
                PreparedExecution::Synthetic { error, .. } => match error {
                    Some(error) => {
                        let payload = AgentEventPayload::Error(error.to_agent_error());
                        let ghost shown = payload.deep_view();
                        events.push(payload);
                        proof {
                            assert(events.deep_view() =~= before.push(shown));
                        }
                    },
                    None => {},
                },
                PreparedExecution::Execute { .. } => {
                    let payload = call.start_event();
                    let ghost shown = payload.deep_view();
                    events.push(payload);
                    proof {
                        assert(events.deep_view() =~= before.push(shown));
                    }
                },
            }
            i += 1;
        }
        proof {
            assert(all.take(all.len() as int) =~= all);
        }
        events
    }

    /// The positions of the calls that run, in order.
    pub fn running(&self) -> (r: Vec<usize>)
        ensures
            r@ == running(self.deep_view().calls),
            self.deep_view().calls.len() <= usize::MAX,
    {
        let ghost all = self.calls.deep_view();
        let mut out: Vec<usize> = Vec::new();
        let mut i: usize = 0;
        proof {
            assert(out@ =~= running(all.take(0)));
        }
        while i < self.calls.len()
            invariant
                i <= self.calls.len(),
                all == self.calls.deep_view(),
                out@ == running(all.take(i as int)),
            decreases self.calls.len() - i,
        {
            proof {
                assert(all.take(i + 1).drop_last() =~= all.take(i as int));
                assert(all.take(i + 1).last() == self.calls[i as int].deep_view());
            }
            match &self.calls[i].execution {
                PreparedExecution::Execute { .. } => {
                    out.push(i);
                },
                PreparedExecution::Synthetic { .. } => {},
            }
            i += 1;
        }
        proof {
            assert(all.take(all.len() as int) =~= all);
        }
        out
    }

    /// One call of the batch.
    pub fn call(&self, index: usize) -> (r: &PreparedToolCall)
        requires
            index < self.deep_view().calls.len(),
        ensures
            r.deep_view() == self.deep_view().calls[index as int],
    {
        &self.calls[index]
    }

    /// Takes the finished run of a call.
    pub fn record(&mut self, index: usize, completed: CompletedToolCall)
        requires
            index < old(self).deep_view().slots.len(),
        ensures
            final(self).deep_view() == (ParallelView {
                slots: old(self).deep_view().slots.update(
                    index as int,
                    Some(completed.deep_view().record),
                ),
                stop_after_batch: old(self).deep_view().stop_after_batch
                    || completed.after_tool_abort,
                ..old(self).deep_view()
            }),
    {
        if completed.after_tool_abort {
            self.stop_after_batch = true;
        }
        let ghost record = completed.record.deep_view();
        self.slots.set(index, Some(completed.record));
        proof {
            assert(self.slots.deep_view() =~= old(self).slots.deep_view().update(
                index as int,
                Some(record),
            ));
        }
    }

    /// The outcome of the batch.
    pub fn into_outcome(self, turn_cancelled: bool) -> (r: Result<ToolBatchOutcome>)
        ensures
            outcome(r) == parallel_outcome(self.deep_view(), turn_cancelled),
    {
        let stop_after_batch = self.stop_after_batch;
        match collect_ordered_results(self.slots) {
            Ok(results) => Ok(
                ToolBatchOutcome { results, cancelled: turn_cancelled, stop_after_batch },
            ),
            Err(error) => Err(error),
        }
    }
}

// ---------------------------------------------------------------------------
// Laws
// ---------------------------------------------------------------------------
/// Whether a result answers a call.
pub open spec fn answers(record: RecordView, call: PreparedView) -> bool {
    &&& record.call_id == call.call_id
    &&& record.tool_name == call.tool_name
}

/// Whether the ready result of a prepared call, if it has one, answers it.
pub open spec fn well_prepared(call: PreparedView) -> bool {
    call.execution matches ExecutionView::Synthetic { record, .. } ==> answers(record, call)
}

/// Whether the prepared calls stand for the requested ones, one for one and in
/// order.
pub open spec fn prepared_for(calls: Seq<PreparedView>, requested: Seq<RequestedView>) -> bool {
    &&& calls.len() == requested.len()
    &&& forall|i: int|
        0 <= i < calls.len() ==> {
            &&& well_prepared(#[trigger] calls[i])
            &&& calls[i].call_id == requested[i].call_id
            &&& calls[i].tool_name == requested[i].tool_name
        }
}

/// Every requested call gets one prepared call, in the order of the model,
/// whether it is skipped, refused or run.
pub proof fn law_preparation_keeps_order(
    preparation: PreparationView,
    requested: Seq<RequestedView>,
    call: RequestedView,
    known: Option<bool>,
    answer: std::result::Result<Seq<HookPatchView>, AgentErrorView>,
    limits: ToolLimits,
)
    requires
        prepared_for(preparation.calls, requested),
    ensures
        offered(preparation, call, known, limits) matches OfferView::Settled(after) ==> {
            &&& prepared_for(after.calls, requested.push(call))
            &&& after.has_mutating == preparation.has_mutating
        },
        hooks_answered(preparation, call, known == Some(true), answer, limits) matches Ok(after)
            ==> {
            &&& prepared_for(after.calls, requested.push(call))
            &&& after.has_mutating == preparation.has_mutating
        },
{
}

/// In a batch without mutating tools, no call is skipped because of another.
pub proof fn law_read_only_calls_are_independent(
    preparation: PreparationView,
    call: RequestedView,
    known: Option<bool>,
    answer: std::result::Result<Seq<HookPatchView>, AgentErrorView>,
    limits: ToolLimits,
)
    requires
        !preparation.has_mutating,
        preparation.skip is None,
    ensures
        offered(preparation, call, known, limits) matches OfferView::Settled(after)
            ==> after.skip is None,
        hooks_answered(preparation, call, known == Some(true), answer, limits) matches Ok(after)
            ==> after.skip is None,
{
}

/// Whether a serial batch holds one result for each call that it has passed.
pub open spec fn serial_sound(batch: SerialView) -> bool {
    &&& 0 <= batch.position <= batch.calls.len()
    &&& batch.results.len() == batch.position
    &&& forall|i: int| 0 <= i < batch.calls.len() ==> well_prepared(#[trigger] batch.calls[i])
    &&& forall|i: int|
        0 <= i < batch.position ==> answers(#[trigger] batch.results[i], batch.calls[i])
}

/// A serial batch keeps one result per call, in order, through every step; once
/// it is finished, every call has its result.
pub proof fn law_serial_results_keep_order(
    batch: SerialView,
    turn_cancelled: bool,
    completed: CompletedView,
    limits: ToolLimits,
)
    requires
        serial_sound(batch),
    ensures
        serial_sound(serial_next(batch, turn_cancelled, limits).0),
        serial_next(batch, turn_cancelled, limits).1 is Finished ==> serial_next(
            batch,
            turn_cancelled,
            limits,
        ).0.results.len() == batch.calls.len(),
        serial_next(batch, turn_cancelled, limits).1 is Execute ==> batch.position
            < batch.calls.len(),
        batch.position < batch.calls.len() && answers(
            completed.record,
            batch.calls[batch.position],
        ) ==> serial_sound(serial_record(batch, completed, limits)),
{
    let after = serial_next(batch, turn_cancelled, limits).0;
    assert forall|i: int| 0 <= i < after.position implies answers(
        #[trigger] after.results[i],
        after.calls[i],
    ) by {
        if i < batch.position {
            assert(after.results[i] == batch.results[i]);
        }
    }
    if batch.position < batch.calls.len() && answers(
        completed.record,
        batch.calls[batch.position],
    ) {
        let recorded = serial_record(batch, completed, limits);
        assert forall|i: int| 0 <= i < recorded.position implies answers(
            #[trigger] recorded.results[i],
            recorded.calls[i],
        ) by {
            if i < batch.position {
                assert(recorded.results[i] == batch.results[i]);
            } else if i == batch.position {
                assert(recorded.results[i] == completed.record);
            }
        }
    }
}

/// After a failed, timed out or aborted run, a serial batch runs nothing more:
/// every later call is answered with the skip message.
pub proof fn law_serial_short_circuit(
    batch: SerialView,
    completed: CompletedView,
    turn_cancelled: bool,
    limits: ToolLimits,
    i: int,
)
    requires
        serial_sound(batch),
        batch.position < i < batch.calls.len(),
        completed.after_tool_abort || completed.skip is Some,
    ensures
        serial_next(serial_record(batch, completed, limits), turn_cancelled, limits).1 is Finished,
        serial_record(batch, completed, limits).results[i] == stand_in(
            as_requested(batch.calls[i]),
            match completed.skip {
                Some(message) => message,
                None => "[Tool skipped: previous tool aborted by plugin]"@,
            },
            limits,
        ),
{
}

/// The slots of a parallel batch after runs have been recorded one after the
/// other, each under the position of its call.
pub open spec fn slots_after(
    calls: Seq<PreparedView>,
    recorded: Seq<(int, RecordView)>,
) -> Seq<Option<RecordView>>
    decreases recorded.len(),
{
    if recorded.len() == 0 {
        calls.map_values(|call: PreparedView| ready_record(call))
    } else {
        slots_after(calls, recorded.drop_last()).update(recorded.last().0, Some(recorded.last().1))
    }
}

proof fn lemma_slots_answer(calls: Seq<PreparedView>, recorded: Seq<(int, RecordView)>)
    requires
        forall|i: int| 0 <= i < calls.len() ==> well_prepared(#[trigger] calls[i]),
        forall|k: int|
            0 <= k < recorded.len() ==> {
                &&& 0 <= (#[trigger] recorded[k]).0 < calls.len()
                &&& answers(recorded[k].1, calls[recorded[k].0])
            },
    ensures
        slots_after(calls, recorded).len() == calls.len(),
        forall|i: int|
            0 <= i < calls.len() ==> ((#[trigger] slots_after(calls, recorded)[i]) matches Some(
                record,
            ) ==> answers(record, calls[i])),
        forall|i: int|
            0 <= i < calls.len() && ready_record(calls[i]) is Some
                ==> (#[trigger] slots_after(calls, recorded)[i]) is Some,
        forall|k: int|
            0 <= k < recorded.len() ==> slots_after(calls, recorded)[(
            #[trigger] recorded[k]).0] is Some,
    decreases recorded.len(),
{
    if recorded.len() > 0 {
        let front = recorded.drop_last();
        assert forall|k: int| 0 <= k < front.len() implies {
            &&& 0 <= (#[trigger] front[k]).0 < calls.len()
            &&& answers(front[k].1, calls[front[k].0])
        } by {
            assert(front[k] == recorded[k]);
        }
        lemma_slots_answer(calls, front);
        let last = recorded[recorded.len() - 1];
        assert(answers(last.1, calls[last.0]));
        assert forall|k: int| 0 <= k < recorded.len() implies slots_after(calls, recorded)[(
        #[trigger] recorded[k]).0] is Some by {
            if k < front.len() {
                assert(front[k] == recorded[k]);
            }
        }
    } else {
        assert forall|i: int| 0 <= i < calls.len() implies ((#[trigger] slots_after(
            calls,
            recorded,
        )[i]) matches Some(record) ==> answers(record, calls[i])) by {
            assert(well_prepared(calls[i]));
        }
    }
}

/// In whatever order the runs of a parallel batch end: once each of them has
/// been recorded, the batch has an outcome, and its results answer the calls,
/// one for one and in the order of the calls.
pub proof fn law_parallel_results_keep_order(
    calls: Seq<PreparedView>,
    recorded: Seq<(int, RecordView)>,
    stop_after_batch: bool,
    turn_cancelled: bool,
)
    requires
        forall|i: int| 0 <= i < calls.len() ==> well_prepared(#[trigger] calls[i]),
        forall|k: int|
            0 <= k < recorded.len() ==> {
                &&& 0 <= (#[trigger] recorded[k]).0 < calls.len()
                &&& answers(recorded[k].1, calls[recorded[k].0])
            },
        forall|i: int|
            0 <= i < calls.len() && (#[trigger] calls[i]).execution is Execute ==> exists|k: int|
                0 <= k < recorded.len() && (#[trigger] recorded[k]).0 == i,
    ensures
        parallel_outcome(
            ParallelView { calls, slots: slots_after(calls, recorded), stop_after_batch },
            turn_cancelled,
        ) matches Ok(result) && {
            &&& result.results.len() == calls.len()
            &&& forall|i: int|
                0 <= i < calls.len() ==> answers(#[trigger] result.results[i], calls[i])
        },
{
    let slots = slots_after(calls, recorded);
    lemma_slots_answer(calls, recorded);
    assert forall|i: int| 0 <= i < slots.len() implies (#[trigger] slots[i]) is Some by {
        if calls[i].execution is Execute {
            let k = choose|k: int| 0 <= k < recorded.len() && (#[trigger] recorded[k]).0 == i;
            assert(slots[recorded[k].0] is Some);
        } else {
            assert(ready_record(calls[i]) is Some);
        }
    }
    let results = filled(slots)->0;
    assert forall|i: int| 0 <= i < calls.len() implies answers(#[trigger] results[i], calls[i]) by {
        assert(slots[i] is Some);
    }
}

/// The record of a finished run answers the call that was run.
pub proof fn law_run_answers_its_call(
    call: PreparedView,
    completion: CompletionView,
    duration_ms: u64,
    answer: std::result::Result<Seq<HookPatchView>, AgentErrorView>,
    limits: ToolLimits,
)
    ensures
        completed_of(raw_of(call, completion, duration_ms, limits), answer, limits) matches Ok(done)
            ==> answers(done.record, call),
{
}

} // verus!
