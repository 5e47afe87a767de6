//! Laws of tool calls: which calls run and with what, what stands in for those
//! that do not, and what becomes of a result.

use crate::application::tool_batch::{
    answered_from, launch_events, parallel_outcome, ready_record, running, serial_next,
    serial_record, ParallelView, SerialStepView, SerialView,
};
use crate::application::tool_dispatcher::{
    after_data, any_mutating, completed_of, end_events, hooks_answered, input_of, mutates, offered,
    patched_arguments, raw_of, stand_in, start_event, CompletedView, CompletionView, ExecutionView,
    OfferView, PreparationView, PreparedView, RawView, RegisteredTool, RequestedView, ToolLimits,
};
use crate::application::tool_output::{fitting_prefix, truncated};
use crate::domain::error::AgentErrorView;
use crate::domain::event::EventPayloadView;
use crate::domain::hook::{HookDataView, HookPatchView};
use crate::domain::types::ToolOutputView;
use crate::registry::Registry;
use crate::text::{decimal, utf8_len};
use vstd::prelude::*;
use vstd::string::*;
use vstd::utf8::is_ascii_chars_encode_utf8;

verus! {

// ---------------------------------------------------------------------------
// Outputs
// ---------------------------------------------------------------------------
/// An output within its budgets is left as it is.
pub proof fn law_small_output_is_kept(output: ToolOutputView, limits: ToolLimits)
    requires
        utf8_len(output.metadata) <= limits.metadata_max_bytes,
        utf8_len(output.content) + utf8_len(output.metadata) <= limits.output_max_bytes,
    ensures
        limits.bound(output) == output,
{
}

/// No budget changes whether an output is an error.
pub proof fn law_bounding_keeps_error_flag(output: ToolOutputView, limits: ToolLimits)
    ensures
        limits.bound(output).is_error == output.is_error,
{
}

/// Metadata within its budget is kept; larger metadata gives way to an object
/// that names its size.
pub proof fn law_metadata_is_kept_or_named(output: ToolOutputView, limits: ToolLimits)
    ensures
        utf8_len(output.metadata) <= limits.metadata_max_bytes ==> limits.bound(output).metadata
            == output.metadata,
        utf8_len(output.metadata) > limits.metadata_max_bytes ==> limits.bound(output).metadata
            == "{\"_original_bytes\":"@ + decimal(utf8_len(output.metadata))
            + ",\"_truncated\":true}"@,
{
}

proof fn lemma_longest_prefix(s: Seq<char>, limit: nat)
    requires
        utf8_len(s) > limit,
    ensures
        ({
            let n = fitting_prefix(s, limit).len() as int;
            &&& n < s.len()
            &&& fitting_prefix(s, limit) == s.take(n)
            &&& utf8_len(s.take(n)) <= limit
            &&& utf8_len(s.take(n + 1)) > limit
        }),
    decreases s.len(),
{
    if s.len() == 0 {
        assert(utf8_len(s) == 0);
    }
    let front = s.drop_last();
    assert(s.take(s.len() as int) =~= s);
    if utf8_len(front) <= limit {
        assert(fitting_prefix(front, limit) == front);
        assert(front =~= s.take(s.len() - 1));
    } else {
        lemma_longest_prefix(front, limit);
        let n = fitting_prefix(front, limit).len() as int;
        assert(front.take(n) =~= s.take(n));
        assert(front.take(n + 1) =~= s.take(n + 1));
    }
}

/// A content that does not fit is cut behind as many of its characters as the
/// budget has room for, and the cut is marked.
pub proof fn law_long_content_is_cut(content: Seq<char>, budget: nat)
    requires
        utf8_len(content) > budget,
        budget > utf8_len("\n\n[output truncated]"@),
    ensures
        exists|n: int| #![trigger content.take(n)]
            {
                let room = budget - utf8_len("\n\n[output truncated]"@);
                &&& 0 <= n < content.len()
                &&& truncated(content, budget) == content.take(n) + "\n\n[output truncated]"@
                &&& utf8_len(content.take(n)) <= room
                &&& utf8_len(content.take(n + 1)) > room
            },
{
    let room = (budget - utf8_len("\n\n[output truncated]"@)) as nat;
    lemma_longest_prefix(content, room);
    let n = fitting_prefix(content, room).len() as int;
    assert(truncated(content, budget) == content.take(n) + "\n\n[output truncated]"@);
}

/// An output that is too large keeps what its metadata leaves of the budget: as
/// many characters as fit in front of the mark of the cut, or only a part of the
/// mark where there is no room for more.
pub proof fn law_large_output_uses_its_budget(output: ToolOutputView, limits: ToolLimits)
    requires
        utf8_len(limits.bound(output).metadata) <= limits.output_max_bytes,
        utf8_len(output.content) + utf8_len(limits.bound(output).metadata)
            > limits.output_max_bytes,
    ensures
        ({
            let left = limits.output_max_bytes - utf8_len(limits.bound(output).metadata);
            let mark = "\n\n[output truncated]"@;
            &&& left <= utf8_len(mark) ==> limits.bound(output).content == mark.take(left)
            &&& left > utf8_len(mark) ==> exists|n: int|
                #![trigger output.content.take(n)]
                {
                    let room = left - utf8_len(mark);
                    &&& 0 <= n < output.content.len()
                    &&& limits.bound(output).content == output.content.take(n) + mark
                    &&& utf8_len(output.content.take(n)) <= room
                    &&& utf8_len(output.content.take(n + 1)) > room
                }
        }),
{
    let left = (limits.output_max_bytes - utf8_len(limits.bound(output).metadata)) as nat;
    if left > utf8_len("\n\n[output truncated]"@) {
        law_long_content_is_cut(output.content, left);
    }
}

/// A content that fits its budget is shown whole, however small the budget.
pub proof fn law_short_content_is_whole(content: Seq<char>, budget: nat)
    requires
        utf8_len(content) <= budget,
    ensures
        truncated(content, budget) == content,
{
}

/// Whether a text of its own fits a result without metadata.
pub open spec fn has_room(limits: ToolLimits, text: Seq<char>) -> bool {
    &&& limits.metadata_max_bytes >= 4
    &&& utf8_len(text) + 4 <= limits.output_max_bytes
}

proof fn lemma_null_size()
    ensures
        utf8_len("null"@) == 4,
{
    reveal_strlit("null");
    assert(vstd::utf8::is_ascii_chars("null"@));
    is_ascii_chars_encode_utf8("null"@);
}

/// A result that stands in for a call names the call, is an error that took no
/// time, and says the given text.
pub proof fn law_stand_in_says_why(call: RequestedView, text: Seq<char>, limits: ToolLimits)
    ensures
        ({
            let record = stand_in(call, text, limits);
            &&& record.call_id == call.call_id
            &&& record.tool_name == call.tool_name
            &&& record.effective_arguments == call.arguments
            &&& record.duration_ms == 0
            &&& !record.success
            &&& record.output.is_error
            &&& has_room(limits, text) ==> record.output.content == text
                && record.output.metadata == "null"@
            &&& record.output == limits.bound(
                ToolOutputView { content: text, is_error: true, metadata: "null"@ },
            )
        }),
{
    lemma_null_size();
}

// ---------------------------------------------------------------------------
// Preparation
// ---------------------------------------------------------------------------
/// Whether a preparation has gained one call, which is answered by a ready
/// error with a text and never runs.
pub open spec fn refused_with(
    before: PreparationView,
    after: PreparationView,
    call: RequestedView,
    text: Seq<char>,
    limits: ToolLimits,
) -> bool {
    &&& after.has_mutating == before.has_mutating
    &&& after.calls.len() == before.calls.len() + 1
    &&& forall|i: int| 0 <= i < before.calls.len() ==> #[trigger] after.calls[i] == before.calls[i]
    &&& after.calls.last().call_id == call.call_id
    &&& after.calls.last().tool_name == call.tool_name
    &&& after.calls.last().effective_arguments == call.arguments
    &&& after.calls.last().execution matches ExecutionView::Synthetic { record, .. } && {
        &&& record.call_id == call.call_id
        &&& record.tool_name == call.tool_name
        &&& record.effective_arguments == call.arguments
        &&& !record.success
        &&& record.output.is_error
        &&& record.duration_ms == 0
        &&& has_room(limits, text) ==> record.output.content == text
    }
}

/// A call on which a hook aborts never runs: it is answered with an error that
/// says so, and in a batch with mutating tools every later call is skipped.
pub proof fn law_aborted_call_never_runs(
    preparation: PreparationView,
    call: RequestedView,
    is_mutating: bool,
    hook: Seq<char>,
    reason: Seq<char>,
    limits: ToolLimits,
)
    ensures
        hooks_answered(
            preparation,
            call,
            is_mutating,
            Err(AgentErrorView::PluginAborted { hook, reason }),
            limits,
        ) matches Ok(after) && {
            &&& refused_with(preparation, after, call, "[Tool aborted by plugin]"@, limits)
            &&& after.calls.last().execution->error is None
            &&& preparation.has_mutating ==> after.skip == Some(
                "[Tool skipped: previous tool aborted by plugin]"@,
            )
            &&& !preparation.has_mutating ==> after.skip == preparation.skip
        },
{
    lemma_null_size();
}

/// An error of a hook other than an abort is passed on, and nothing runs.
pub proof fn law_hook_error_ends_preparation(
    preparation: PreparationView,
    call: RequestedView,
    is_mutating: bool,
    error: AgentErrorView,
    limits: ToolLimits,
)
    requires
        !(error is PluginAborted),
    ensures
        hooks_answered(preparation, call, is_mutating, Err(error), limits) == Err::<
            PreparationView,
            AgentErrorView,
        >(error),
{
}

/// Once calls are being skipped, every further call is, whether its tool is
/// known or not, and no hook is asked.
pub proof fn law_skipping_lasts(
    preparation: PreparationView,
    call: RequestedView,
    known: Option<bool>,
    message: Seq<char>,
    limits: ToolLimits,
)
    requires
        preparation.skip == Some(message),
    ensures
        offered(preparation, call, known, limits) matches OfferView::Settled(after) && {
            &&& refused_with(preparation, after, call, message, limits)
            &&& after.calls.last().execution->error is None
            &&& after.skip == Some(message)
        },
{
    lemma_null_size();
}

/// A call of an unknown tool is answered with an error that names the tool, and
/// is announced; in a batch with mutating tools every later call is skipped.
pub proof fn law_unknown_tool_is_named(
    preparation: PreparationView,
    call: RequestedView,
    limits: ToolLimits,
)
    requires
        preparation.skip is None,
    ensures
        offered(preparation, call, None, limits) matches OfferView::Settled(after) && {
            &&& refused_with(
                preparation,
                after,
                call,
                "[Tool error] tool '"@ + call.tool_name + "' not found"@,
                limits,
            )
            &&& after.calls.last().execution->error == Some(call.tool_name)
            &&& after.skip == (if preparation.has_mutating {
                Some("[Tool skipped: previous tool '"@ + call.tool_name + "' not found]"@)
            } else {
                None
            })
        },
{
    lemma_null_size();
}

/// On a call of a known tool, hooks are asked with the tool and the arguments
/// that the model gave.
pub proof fn law_hooks_see_the_call(
    preparation: PreparationView,
    call: RequestedView,
    is_mutating: bool,
    limits: ToolLimits,
)
    requires
        preparation.skip is None,
    ensures
        offered(preparation, call, Some(is_mutating), limits) matches OfferView::AskHooks(data)
            && data matches HookDataView::BeforeToolUse { tool_name, arguments } && tool_name
            == call.tool_name && arguments == call.arguments,
{
}

proof fn lemma_arguments_without_patch(patches: Seq<HookPatchView>, arguments: Seq<char>)
    requires
        forall|i: int| 0 <= i < patches.len() ==> !((#[trigger] patches[i]) is BeforeToolUse),
    ensures
        patched_arguments(patches, arguments) == arguments,
    decreases patches.len(),
{
    if patches.len() > 0 {
        assert(!(patches[patches.len() - 1] is BeforeToolUse));
        let front = patches.drop_last();
        assert forall|i: int| 0 <= i < front.len() implies !((#[trigger] front[i])
            is BeforeToolUse) by {
            assert(front[i] == patches[i]);
        }
        lemma_arguments_without_patch(front, arguments);
    }
}

/// Of several patches of the arguments the last one counts.
pub proof fn law_last_patch_counts(
    patches: Seq<HookPatchView>,
    patch: HookPatchView,
    arguments: Seq<char>,
)
    ensures
        patched_arguments(patches.push(patch), arguments) == (match patch {
            HookPatchView::BeforeToolUse { arguments: patched } => patched,
            HookPatchView::TurnStart { .. } => patched_arguments(patches, arguments),
        }),
        patched_arguments(Seq::empty(), arguments) == arguments,
{
    assert(patches.push(patch).drop_last() =~= patches);
}

/// A call that no hook objects to runs under its own id and name, with the
/// arguments of the last patch, or with its own where there is none.
pub proof fn law_accepted_call_runs(
    preparation: PreparationView,
    call: RequestedView,
    is_mutating: bool,
    patches: Seq<HookPatchView>,
    limits: ToolLimits,
)
    ensures
        hooks_answered(preparation, call, is_mutating, Ok(patches), limits) matches Ok(after) && {
            &&& after.has_mutating == preparation.has_mutating
            &&& after.skip == preparation.skip
            &&& after.calls.len() == preparation.calls.len() + 1
            &&& forall|i: int|
                0 <= i < preparation.calls.len() ==> #[trigger] after.calls[i]
                    == preparation.calls[i]
            &&& after.calls.last().call_id == call.call_id
            &&& after.calls.last().tool_name == call.tool_name
            &&& after.calls.last().execution == (ExecutionView::Execute { is_mutating })
            &&& patches.len() > 0 && patches.last() is BeforeToolUse
                ==> after.calls.last().effective_arguments
                == patches.last()->BeforeToolUse_arguments
            &&& (forall|i: int|
                0 <= i < patches.len() ==> !((#[trigger] patches[i]) is BeforeToolUse))
                ==> after.calls.last().effective_arguments == call.arguments
        },
{
    if forall|i: int| 0 <= i < patches.len() ==> !((#[trigger] patches[i]) is BeforeToolUse) {
        lemma_arguments_without_patch(patches, call.arguments);
    }
}

/// A batch counts as mutating exactly where one of its calls names a registered
/// tool that changes something.
pub proof fn law_mutating_batch(
    tools: Registry<RegisteredTool>,
    requested: Seq<RequestedView>,
)
    ensures
        any_mutating(tools, requested) <==> exists|i: int|
            0 <= i < requested.len() && (tools.find((#[trigger] requested[i]).tool_name) matches Some(
                tool,
            ) && tool.is_mutating),
        forall|name: Seq<char>|
            (#[trigger] mutates(tools, name)) is Some <==> tools.find(name) is Some,
{
    if any_mutating(tools, requested) {
        let i = choose|i: int|
            0 <= i < requested.len() && mutates(tools, (#[trigger] requested[i]).tool_name) == Some(
                true,
            );
        assert(tools.find(requested[i].tool_name) matches Some(tool) && tool.is_mutating);
    }
}

// ---------------------------------------------------------------------------
// Runs
// ---------------------------------------------------------------------------
/// A tool is given, and announced with, the id, the name and the arguments of
/// its prepared call.
pub proof fn law_tool_gets_its_call(call: PreparedView)
    ensures
        input_of(call).call_id == call.call_id,
        input_of(call).tool_name == call.tool_name,
        input_of(call).arguments == call.effective_arguments,
        start_event(call) matches EventPayloadView::ToolCallStart {
            call_id,
            tool_name,
            arguments,
        } && call_id == call.call_id && tool_name == call.tool_name && arguments
            == call.effective_arguments,
{
}

/// What a tool returns is kept, and counts as a success unless it says
/// otherwise; nothing is announced as an error and no later call is skipped.
pub proof fn law_output_is_kept(
    call: PreparedView,
    output: ToolOutputView,
    duration_ms: u64,
    limits: ToolLimits,
)
    ensures
        ({
            let raw = raw_of(call, CompletionView::Output(output), duration_ms, limits);
            &&& raw.success == !output.is_error
            &&& raw.output == limits.bound(output)
            &&& raw.output.is_error == output.is_error
            &&& raw.error is None
            &&& raw.skip is None
            &&& utf8_len(output.metadata) <= limits.metadata_max_bytes && utf8_len(output.content)
                + utf8_len(output.metadata) <= limits.output_max_bytes ==> raw.output == output
        }),
{
}

/// A tool that fails or takes too long is reported by name: the result is an
/// error, the error is announced, and later calls of a serial batch are skipped.
pub proof fn law_failed_tool_is_named(
    call: PreparedView,
    source: Seq<Seq<char>>,
    duration_ms: u64,
    limits: ToolLimits,
)
    ensures
        ({
            let raw = raw_of(call, CompletionView::Failed(source), duration_ms, limits);
            let text = "[Tool error] tool '"@ + call.tool_name + "' failed"@;
            &&& !raw.success
            &&& raw.output.is_error
            &&& raw.output == limits.bound(
                ToolOutputView { content: text, is_error: true, metadata: "null"@ },
            )
            &&& has_room(limits, text) ==> raw.output.content == text
            &&& raw.error == Some(
                AgentErrorView::ToolExecutionError { name: call.tool_name, source },
            )
            &&& raw.skip == Some(
                "[Tool skipped: previous tool '"@ + call.tool_name + "' failed]"@,
            )
        }),
        ({
            let raw = raw_of(call, CompletionView::TimedOut, duration_ms, limits);
            let text = "[Tool timeout] tool '"@ + call.tool_name + "' timed out"@;
            &&& !raw.success
            &&& raw.output.is_error
            &&& raw.output == limits.bound(
                ToolOutputView { content: text, is_error: true, metadata: "null"@ },
            )
            &&& has_room(limits, text) ==> raw.output.content == text
            &&& raw.error == Some(
                AgentErrorView::ToolTimeout {
                    name: call.tool_name,
                    timeout_ms: limits.timeout_ms,
                },
            )
            &&& raw.skip == Some(
                "[Tool skipped: previous tool '"@ + call.tool_name + "' timed out]"@,
            )
        }),
{
    lemma_null_size();
}

/// However a tool ends, the run keeps its call and its duration.
pub proof fn law_run_keeps_its_call(
    call: PreparedView,
    completion: CompletionView,
    duration_ms: u64,
    limits: ToolLimits,
)
    ensures
        ({
            let raw = raw_of(call, completion, duration_ms, limits);
            &&& raw.call_id == call.call_id
            &&& raw.tool_name == call.tool_name
            &&& raw.effective_arguments == call.effective_arguments
            &&& raw.duration_ms == duration_ms
        }),
{
}

/// The end of a run is announced with its call, output, duration and success,
/// behind its error where there is one; hooks are told the same.
pub proof fn law_end_is_announced(raw: RawView)
    ensures
        end_events(raw).len() == (if raw.error is Some {
            2int
        } else {
            1int
        }),
        raw.error matches Some(error) ==> end_events(raw)[0] == EventPayloadView::Error(error),
        end_events(raw).last() matches EventPayloadView::ToolCallEnd {
            call_id,
            tool_name,
            output,
            duration_ms,
            success,
        } && {
            &&& call_id == raw.call_id
            &&& tool_name == raw.tool_name
            &&& output == raw.output
            &&& duration_ms == raw.duration_ms
            &&& success <==> raw.success && !raw.output.is_error
        },
        after_data(raw) matches HookDataView::AfterToolUse {
            tool_name,
            output,
            duration_ms,
            success,
        } && {
            &&& tool_name == raw.tool_name
            &&& output == raw.output
            &&& duration_ms == raw.duration_ms
            &&& success <==> raw.success && !raw.output.is_error
        },
{
}

/// A run that hooks have seen keeps its call, output, duration and success. An
/// abort is remembered, and any other error of a hook is passed on.
pub proof fn law_seen_run_is_recorded(
    raw: RawView,
    answer: std::result::Result<Seq<HookPatchView>, AgentErrorView>,
    limits: ToolLimits,
)
    ensures
        answer matches Err(error) && !(error is PluginAborted) ==> completed_of(raw, answer, limits)
            == Err::<CompletedView, AgentErrorView>(answer->Err_0),
        !(answer matches Err(error) && !(error is PluginAborted)) ==> (completed_of(
            raw,
            answer,
            limits,
        ) matches Ok(done) && {
            &&& done.record.call_id == raw.call_id
            &&& done.record.tool_name == raw.tool_name
            &&& done.record.effective_arguments == raw.effective_arguments
            &&& done.record.duration_ms == raw.duration_ms
            &&& done.record.success == raw.success
            &&& done.record.output == limits.bound(raw.output)
            &&& done.record.output.is_error == raw.output.is_error
            &&& utf8_len(raw.output.metadata) <= limits.metadata_max_bytes && utf8_len(
                raw.output.content,
            ) + utf8_len(raw.output.metadata) <= limits.output_max_bytes ==> done.record.output
                == raw.output
            &&& done.skip == raw.skip
            &&& done.after_tool_abort == (answer is Err)
        }),
{
}

// ---------------------------------------------------------------------------
// Batches
// ---------------------------------------------------------------------------
/// Once a turn is cancelled, a serial batch runs nothing more: every remaining
/// call is answered as cancelled, and the outcome says so.
pub proof fn law_cancelled_calls_do_not_run(batch: SerialView, limits: ToolLimits, i: int)
    requires
        0 <= batch.position <= batch.calls.len(),
        batch.results.len() == batch.position,
    ensures
        ({
            let (after, step) = serial_next(batch, true, limits);
            &&& step is Finished
            &&& after.cancelled
            &&& after.stop_after_batch == batch.stop_after_batch
            &&& after.results.len() == batch.calls.len()
            &&& 0 <= i < batch.position ==> after.results[i] == batch.results[i]
            &&& batch.position <= i < batch.calls.len() ==> {
                &&& after.results[i].call_id == batch.calls[i].call_id
                &&& after.results[i].tool_name == batch.calls[i].tool_name
                &&& after.results[i].effective_arguments == batch.calls[i].effective_arguments
                &&& !after.results[i].success
                &&& after.results[i].output.is_error
                &&& has_room(limits, "[Tool cancelled]"@) ==> after.results[i].output.content
                    == "[Tool cancelled]"@
            }
        }),
{
    lemma_null_size();
}

/// While its turn goes on, a serial batch takes its calls one after the other: a
/// ready result is taken over and its error announced, any other call runs, and
/// the batch is finished only behind its last call.
pub proof fn law_serial_batch_goes_on(batch: SerialView, limits: ToolLimits)
    requires
        0 <= batch.position <= batch.calls.len(),
    ensures
        ({
            let (after, step) = serial_next(batch, false, limits);
            &&& after.calls == batch.calls
            &&& after.cancelled == batch.cancelled
            &&& after.stop_after_batch == batch.stop_after_batch
            &&& step is Finished <==> batch.position == batch.calls.len()
            &&& batch.position < batch.calls.len() ==> match batch.calls[batch.position].execution {
                ExecutionView::Execute { .. } => step is Execute && after == batch,
                ExecutionView::Synthetic { record, error } => {
                    &&& after.position == batch.position + 1
                    &&& after.results == batch.results.push(record)
                    &&& step == SerialStepView::Recorded(
                        match error {
                            Some(name) => Some(
                                EventPayloadView::Error(AgentErrorView::ToolNotFound(name)),
                            ),
                            None => None,
                        },
                    )
                },
            }
        }),
{
}

/// The result of a run stands at the place of its call. Where nothing went
/// wrong, the next call is up; otherwise all later calls are answered with what
/// the run left for them. An abort by a hook stops further tools for good.
pub proof fn law_serial_result_is_recorded(
    batch: SerialView,
    completed: CompletedView,
    limits: ToolLimits,
    i: int,
)
    requires
        0 <= batch.position < batch.calls.len(),
        batch.results.len() == batch.position,
    ensures
        ({
            let after = serial_record(batch, completed, limits);
            let text = match completed.skip {
                Some(message) => message,
                None => "[Tool skipped: previous tool aborted by plugin]"@,
            };
            &&& after.calls == batch.calls
            &&& after.cancelled == batch.cancelled
            &&& after.stop_after_batch == (batch.stop_after_batch || completed.after_tool_abort)
            &&& 0 <= i < batch.position ==> after.results[i] == batch.results[i]
            &&& after.results[batch.position] == completed.record
            &&& completed.skip is None && !completed.after_tool_abort ==> after.position
                == batch.position + 1 && after.results.len() == batch.position + 1
            &&& completed.skip is Some || completed.after_tool_abort ==> {
                &&& after.position == batch.calls.len()
                &&& after.results.len() == batch.calls.len()
                &&& batch.position < i < batch.calls.len() ==> {
                    &&& after.results[i].call_id == batch.calls[i].call_id
                    &&& after.results[i].tool_name == batch.calls[i].tool_name
                    &&& !after.results[i].success
                    &&& after.results[i].output.is_error
                    &&& has_room(limits, text) ==> after.results[i].output.content == text
                }
            }
        }),
{
    lemma_null_size();
}

/// Calls that are all answered with one text are answered one for one.
pub proof fn law_answers_go_one_for_one(
    calls: Seq<PreparedView>,
    position: int,
    text: Seq<char>,
    limits: ToolLimits,
    i: int,
)
    requires
        0 <= position <= calls.len(),
        0 <= i < calls.len() - position,
    ensures
        answered_from(calls, position, text, limits).len() == calls.len() - position,
        ({
            let record = answered_from(calls, position, text, limits)[i];
            &&& record.call_id == calls[position + i].call_id
            &&& record.tool_name == calls[position + i].tool_name
            &&& record.effective_arguments == calls[position + i].effective_arguments
            &&& !record.success
            &&& record.output.is_error
            &&& has_room(limits, text) ==> record.output.content == text
        }),
{
    lemma_null_size();
}

/// Exactly the calls without a ready result run, each once and in order.
pub proof fn law_every_open_call_runs(calls: Seq<PreparedView>, i: int)
    requires
        calls.len() <= usize::MAX,
    ensures
        0 <= i < calls.len() ==> (running(calls).contains(i as usize)
            <==> calls[i].execution is Execute),
        forall|k: int|
            0 <= k < running(calls).len() ==> (#[trigger] running(calls)[k]) < calls.len(),
        forall|a: int, b: int|
            0 <= a < b < running(calls).len() ==> (#[trigger] running(calls)[a]) < (
            #[trigger] running(calls)[b]),
    decreases calls.len(),
{
    if calls.len() > 0 {
        let front = calls.drop_last();
        let before = running(front);
        let all = running(calls);
        let last = (calls.len() - 1) as usize;
        law_every_open_call_runs(front, i);
        if calls.last().execution is Execute {
            assert(all == before.push(last));
            assert(all[before.len() as int] == last);
            if 0 <= i < front.len() && before.contains(i as usize) {
                let k = before.index_of(i as usize);
                assert(all[k] == i as usize);
            }
            if 0 <= i < front.len() && all.contains(i as usize) {
                let k = all.index_of(i as usize);
                assert(before[k] == i as usize);
            }
        } else {
            if 0 <= i == calls.len() - 1 && all.contains(i as usize) {
                let k = before.index_of(i as usize);
                assert(before[k] == i as usize);
            }
        }
    }
}

/// At the start of a parallel batch, one call more adds what it has to announce
/// and nothing else: its start where it runs, and otherwise its error, if any.
pub proof fn law_launch_is_announced(calls: Seq<PreparedView>, call: PreparedView)
    ensures
        launch_events(Seq::<PreparedView>::empty()).len() == 0,
        launch_events(calls.push(call)) == launch_events(calls) + (match call.execution {
            ExecutionView::Execute { .. } => seq![
                EventPayloadView::ToolCallStart {
                    call_id: call.call_id,
                    tool_name: call.tool_name,
                    arguments: call.effective_arguments,
                },
            ],
            ExecutionView::Synthetic { error: Some(name), .. } => seq![
                EventPayloadView::Error(AgentErrorView::ToolNotFound(name)),
            ],
            ExecutionView::Synthetic { error: None, .. } => Seq::<EventPayloadView>::empty(),
        }),
{
    assert(calls.push(call).drop_last() =~= calls);
    assert(launch_events(calls) + Seq::<EventPayloadView>::empty() =~= launch_events(calls));
}

/// A call with a ready result has it from the start, any other has none.
pub proof fn law_ready_results(call: PreparedView)
    ensures
        call.execution is Execute <==> ready_record(call) is None,
        call.execution matches ExecutionView::Synthetic { record, .. } ==> ready_record(call)
            == Some(record),
{
}

/// The outcome of a parallel batch holds the results of its slots, each at its
/// place, and tells whether the turn was cancelled and whether a hook stopped
/// the tools. There is none as long as a slot is empty.
pub proof fn law_parallel_outcome(batch: ParallelView, turn_cancelled: bool, i: int)
    ensures
        parallel_outcome(batch, turn_cancelled) is Ok <==> forall|k: int|
            0 <= k < batch.slots.len() ==> (#[trigger] batch.slots[k]) is Some,
        parallel_outcome(batch, turn_cancelled) matches Ok(result) ==> {
            &&& result.cancelled == turn_cancelled
            &&& result.stop_after_batch == batch.stop_after_batch
            &&& result.results.len() == batch.slots.len()
            &&& 0 <= i < batch.slots.len() ==> batch.slots[i] == Some(result.results[i])
        },
        parallel_outcome(batch, turn_cancelled) matches Err(error) ==> error is InternalPanic,
{
}

} // verus!
