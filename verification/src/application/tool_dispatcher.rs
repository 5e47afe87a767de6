//! Tool batches: preparation, serial and parallel execution, and the results
//! that stand in for calls that were not run.

use crate::application::tool_output::{bounded_output, normalize_tool_output};
use crate::domain::error::{outcome, AgentError, AgentErrorView, ErrorSource, Result};
use crate::domain::event::{AgentEventPayload, EventPayloadView};
use crate::domain::hook::{HookData, HookDataView, HookPatch, HookPatchView};
use crate::domain::types::{ToolOutput, ToolOutputView};
use crate::json::JsonValue;
use crate::ports::model::{ToolDefinition, ToolDefinitionView};
use crate::ports::tool::{ToolInput, ToolInputView};
use crate::registry::Registry;
use vstd::prelude::*;
use vstd::string::*;

verus! {

broadcast use vstd::std_specs::vec::vec_clone_deep_view_proof;

// ---------------------------------------------------------------------------
// Values
// ---------------------------------------------------------------------------
/// A registered tool.
#[derive(Debug, PartialEq, Eq)]
pub struct RegisteredTool {
    /// The tool as the provider sees it.
    pub definition: ToolDefinition,
    /// Whether the tool changes state outside.
    pub is_mutating: bool,
}

/// Model of [`RegisteredTool`].
#[verifier::ext_equal]
pub struct RegisteredToolView {
    pub definition: ToolDefinitionView,
    pub is_mutating: bool,
}

impl DeepView for RegisteredTool {
    type V = RegisteredToolView;

    open spec fn deep_view(&self) -> RegisteredToolView {
        RegisteredToolView {
            definition: self.definition.deep_view(),
            is_mutating: self.is_mutating,
        }
    }
}

impl Clone for RegisteredTool {
    fn clone(&self) -> (r: Self)
        ensures
            r.deep_view() == self.deep_view(),
    {
        RegisteredTool { definition: self.definition.clone(), is_mutating: self.is_mutating }
    }
}

/// A tool call requested by the model.
#[derive(Debug, PartialEq, Eq)]
pub struct RequestedToolCall {
    /// Call id chosen by the provider.
    pub call_id: String,
    /// Tool name.
    pub tool_name: String,
    /// Arguments given by the model.
    pub arguments: JsonValue,
}

/// Model of [`RequestedToolCall`].
#[verifier::ext_equal]
pub struct RequestedView {
    pub call_id: Seq<char>,
    pub tool_name: Seq<char>,
    pub arguments: Seq<char>,
}

impl DeepView for RequestedToolCall {
    type V = RequestedView;

    open spec fn deep_view(&self) -> RequestedView {
        RequestedView {
            call_id: self.call_id@,
            tool_name: self.tool_name@,
            arguments: self.arguments.deep_view(),
        }
    }
}

/// The result of one tool call.
#[derive(Debug, PartialEq, Eq)]
pub struct ToolExecutionRecord {
    /// Call id chosen by the provider.
    pub call_id: String,
    /// Tool name.
    pub tool_name: String,
    /// Arguments that the tool ran with.
    pub effective_arguments: JsonValue,
    /// Tool output.
    pub output: ToolOutput,
    /// Duration in milliseconds.
    pub duration_ms: u64,
    /// Whether the tool succeeded.
    pub success: bool,
}

/// Model of [`ToolExecutionRecord`].
#[verifier::ext_equal]
pub struct RecordView {
    pub call_id: Seq<char>,
    pub tool_name: Seq<char>,
    pub effective_arguments: Seq<char>,
    pub output: ToolOutputView,
    pub duration_ms: u64,
    pub success: bool,
}

impl DeepView for ToolExecutionRecord {
    type V = RecordView;

    open spec fn deep_view(&self) -> RecordView {
        RecordView {
            call_id: self.call_id@,
            tool_name: self.tool_name@,
            effective_arguments: self.effective_arguments.deep_view(),
            output: self.output.deep_view(),
            duration_ms: self.duration_ms,
            success: self.success,
        }
    }
}

impl Clone for ToolExecutionRecord {
    fn clone(&self) -> (r: Self)
        ensures
            r.deep_view() == self.deep_view(),
    {
        ToolExecutionRecord {
            call_id: self.call_id.clone(),
            tool_name: self.tool_name.clone(),
            effective_arguments: self.effective_arguments.clone(),
            output: self.output.clone(),
            duration_ms: self.duration_ms,
            success: self.success,
        }
    }
}

/// The error announced with a result that stands in for a call.
#[derive(Debug, PartialEq, Eq)]
pub enum SyntheticError {
    /// The tool name is unknown.
    ToolNotFound {
        /// The name.
        tool_name: String,
    },
}

impl DeepView for SyntheticError {
    type V = Seq<char>;

    open spec fn deep_view(&self) -> Seq<char> {
        match self {
            SyntheticError::ToolNotFound { tool_name } => tool_name@,
        }
    }
}

impl SyntheticError {
    /// The structured error.
    pub fn to_agent_error(&self) -> (r: AgentError)
        ensures
            r.deep_view() == AgentErrorView::ToolNotFound(self.deep_view()),
    {
        match self {
            SyntheticError::ToolNotFound { tool_name } => AgentError::ToolNotFound(
                tool_name.clone(),
            ),
        }
    }
}

/// How a prepared call is answered.
#[derive(Debug, PartialEq, Eq)]
pub enum PreparedExecution {
    /// The tool runs.
    Execute {
        /// Whether the tool changes state outside.
        is_mutating: bool,
    },
    /// A ready result stands in for the call.
    Synthetic {
        /// The result.
        record: ToolExecutionRecord,
        /// The error to announce, if any.
        error: Option<SyntheticError>,
    },
}

/// Model of [`PreparedExecution`]: an announced error is the unknown name.
#[verifier::ext_equal]
pub enum ExecutionView {
    Execute { is_mutating: bool },
    Synthetic { record: RecordView, error: Option<Seq<char>> },
}

impl DeepView for PreparedExecution {
    type V = ExecutionView;

    open spec fn deep_view(&self) -> ExecutionView {
        match self {
            PreparedExecution::Execute { is_mutating } => ExecutionView::Execute {
                is_mutating: *is_mutating,
            },
            PreparedExecution::Synthetic { record, error } => ExecutionView::Synthetic {
                record: record.deep_view(),
                error: error.deep_view(),
            },
        }
    }
}

/// A call of a prepared batch.
#[derive(Debug, PartialEq, Eq)]
pub struct PreparedToolCall {
    /// Call id chosen by the provider.
    pub call_id: String,
    /// Tool name.
    pub tool_name: String,
    /// Arguments to record and to run with.
    pub effective_arguments: JsonValue,
    /// How the call is answered.
    pub execution: PreparedExecution,
}

/// Model of [`PreparedToolCall`].
#[verifier::ext_equal]
pub struct PreparedView {
    pub call_id: Seq<char>,
    pub tool_name: Seq<char>,
    pub effective_arguments: Seq<char>,
    pub execution: ExecutionView,
}

impl DeepView for PreparedToolCall {
    type V = PreparedView;

    open spec fn deep_view(&self) -> PreparedView {
        PreparedView {
            call_id: self.call_id@,
            tool_name: self.tool_name@,
            effective_arguments: self.effective_arguments.deep_view(),
            execution: self.execution.deep_view(),
        }
    }
}

/// A batch of prepared calls, in the order of the model.
#[derive(Debug, PartialEq, Eq)]
pub struct PreparedToolBatch {
    /// The calls.
    pub calls: Vec<PreparedToolCall>,
    /// Whether a call of the batch changes state outside.
    pub has_mutating: bool,
}

/// Model of [`PreparedToolBatch`].
#[verifier::ext_equal]
pub struct BatchView {
    pub calls: Seq<PreparedView>,
    pub has_mutating: bool,
}

impl DeepView for PreparedToolBatch {
    type V = BatchView;

    open spec fn deep_view(&self) -> BatchView {
        BatchView { calls: self.calls.deep_view(), has_mutating: self.has_mutating }
    }
}

impl PreparedToolBatch {
    /// Number of calls.
    pub fn len(&self) -> (r: usize)
        ensures
            r == self.calls.len(),
    {
        self.calls.len()
    }
}

/// The outcome of a batch.
#[derive(Debug, PartialEq, Eq)]
pub struct ToolBatchOutcome {
    /// The results, in the order of the calls.
    pub results: Vec<ToolExecutionRecord>,
    /// Whether the turn counts as cancelled.
    pub cancelled: bool,
    /// Whether no more tools may be offered in the turn.
    pub stop_after_batch: bool,
}

/// Model of [`ToolBatchOutcome`].
#[verifier::ext_equal]
pub struct BatchOutcomeView {
    pub results: Seq<RecordView>,
    pub cancelled: bool,
    pub stop_after_batch: bool,
}

impl DeepView for ToolBatchOutcome {
    type V = BatchOutcomeView;

    open spec fn deep_view(&self) -> BatchOutcomeView {
        BatchOutcomeView {
            results: self.results.deep_view(),
            cancelled: self.cancelled,
            stop_after_batch: self.stop_after_batch,
        }
    }
}

/// How the run of a tool ended.
#[derive(Debug, PartialEq, Eq)]
pub enum ToolCompletion {
    /// The tool returned an output.
    Output(ToolOutput),
    /// The tool returned an error, or its task was lost.
    Failed(ErrorSource),
    /// The tool took longer than the timeout.
    TimedOut,
}

/// Model of [`ToolCompletion`].
#[verifier::ext_equal]
pub enum CompletionView {
    Output(ToolOutputView),
    Failed(Seq<Seq<char>>),
    TimedOut,
}

impl DeepView for ToolCompletion {
    type V = CompletionView;

    open spec fn deep_view(&self) -> CompletionView {
        match self {
            ToolCompletion::Output(output) => CompletionView::Output(output.deep_view()),
            ToolCompletion::Failed(source) => CompletionView::Failed(source.deep_view()),
            ToolCompletion::TimedOut => CompletionView::TimedOut,
        }
    }
}

/// A finished run, before hooks have seen it.
#[derive(Debug, PartialEq, Eq)]
pub struct RawToolExecution {
    /// Call id chosen by the provider.
    pub call_id: String,
    /// Tool name.
    pub tool_name: String,
    /// Arguments that the tool ran with.
    pub effective_arguments: JsonValue,
    /// Tool output.
    pub output: ToolOutput,
    /// Duration in milliseconds.
    pub duration_ms: u64,
    /// Whether the tool succeeded.
    pub success: bool,
    /// What later calls of a serial batch are answered, if they are skipped.
    pub skip_remaining_message: Option<String>,
    /// The error to announce, if any.
    pub error_event: Option<AgentError>,
}

/// Model of [`RawToolExecution`].
#[verifier::ext_equal]
pub struct RawView {
    pub call_id: Seq<char>,
    pub tool_name: Seq<char>,
    pub effective_arguments: Seq<char>,
    pub output: ToolOutputView,
    pub duration_ms: u64,
    pub success: bool,
    pub skip: Option<Seq<char>>,
    pub error: Option<AgentErrorView>,
}

impl DeepView for RawToolExecution {
    type V = RawView;

    open spec fn deep_view(&self) -> RawView {
        RawView {
            call_id: self.call_id@,
            tool_name: self.tool_name@,
            effective_arguments: self.effective_arguments.deep_view(),
            output: self.output.deep_view(),
            duration_ms: self.duration_ms,
            success: self.success,
            skip: self.skip_remaining_message.deep_view(),
            error: self.error_event.deep_view(),
        }
    }
}

/// A finished run that hooks have seen.
#[derive(Debug, PartialEq, Eq)]
pub struct CompletedToolCall {
    /// The result.
    pub record: ToolExecutionRecord,
    /// What later calls of a serial batch are answered, if they are skipped.
    pub skip_remaining_message: Option<String>,
    /// Whether a hook aborted.
    pub after_tool_abort: bool,
}

/// Model of [`CompletedToolCall`].
#[verifier::ext_equal]
pub struct CompletedView {
    pub record: RecordView,
    pub skip: Option<Seq<char>>,
    pub after_tool_abort: bool,
}

impl DeepView for CompletedToolCall {
    type V = CompletedView;

    open spec fn deep_view(&self) -> CompletedView {
        CompletedView {
            record: self.record.deep_view(),
            skip: self.skip_remaining_message.deep_view(),
            after_tool_abort: self.after_tool_abort,
        }
    }
}

// ---------------------------------------------------------------------------
// Dispatcher
// ---------------------------------------------------------------------------
/// Budgets and timeout of tool runs.
#[derive(Debug, Clone, Copy, PartialEq, Eq, Structural)]
pub struct ToolLimits {
    /// Timeout in milliseconds.
    pub timeout_ms: u64,
    /// Byte budget of a result.
    pub output_max_bytes: usize,
    /// Byte budget of the metadata of a result.
    pub metadata_max_bytes: usize,
}

impl ToolLimits {
    /// An output within the budgets.
    pub open spec fn bound(self, output: ToolOutputView) -> ToolOutputView {
        bounded_output(output, self.output_max_bytes, self.metadata_max_bytes)
    }
}

/// Knows the tools of a session and the limits of their runs.
pub struct ToolDispatcher<'a> {
    /// The tools, by name.
    pub tools: &'a Registry<RegisteredTool>,
    /// The limits.
    pub limits: ToolLimits,
}

/// Milliseconds of a duration, saturating.
pub fn saturating_duration_ms(millis: u128) -> (r: u64)
    ensures
        r == (if millis <= u64::MAX {
            millis as u64
        } else {
            u64::MAX
        }),
{
    if millis <= u64::MAX as u128 {
        millis as u64
    } else {
        u64::MAX
    }
}

/// An error output with a text and without metadata.
pub open spec fn error_output(content: Seq<char>) -> ToolOutputView {
    ToolOutputView { content, is_error: true, metadata: "null"@ }
}

/// A result that stands in for a call that did not run.
pub open spec fn stand_in(call: RequestedView, content: Seq<char>, limits: ToolLimits) -> RecordView {
    RecordView {
        call_id: call.call_id,
        tool_name: call.tool_name,
        effective_arguments: call.arguments,
        output: limits.bound(error_output(content)),
        duration_ms: 0,
        success: false,
    }
}

/// What a call of an unknown tool is answered.
pub open spec fn not_found_text(tool_name: Seq<char>) -> Seq<char> {
    "[Tool error] tool '"@ + tool_name + "' not found"@
}

/// What calls behind an unknown tool are answered.
pub open spec fn skipped_not_found_text(tool_name: Seq<char>) -> Seq<char> {
    "[Tool skipped: previous tool '"@ + tool_name + "' not found]"@
}

fn error_tool_output(content: String) -> (r: ToolOutput)
    ensures
        r.deep_view() == error_output(content@),
{
    ToolOutput { content, is_error: true, metadata: JsonValue::null() }
}

/// The output for an unknown tool.
pub fn tool_not_found_output(tool_name: &str) -> (r: ToolOutput)
    ensures
        r.deep_view() == error_output(not_found_text(tool_name@)),
{
    error_tool_output("[Tool error] tool '".to_owned().concat(tool_name).concat("' not found"))
}

/// What calls behind an unknown tool are answered.
pub fn skipped_not_found_output(tool_name: &str) -> (r: String)
    ensures
        r@ == skipped_not_found_text(tool_name@),
{
    "[Tool skipped: previous tool '".to_owned().concat(tool_name).concat("' not found]")
}

fn build_record(
    call_id: String,
    tool_name: String,
    effective_arguments: JsonValue,
    output: ToolOutput,
    duration_ms: u64,
    success: bool,
    limits: ToolLimits,
) -> (r: ToolExecutionRecord)
    ensures
        r.deep_view() == (RecordView {
            call_id: call_id@,
            tool_name: tool_name@,
            effective_arguments: effective_arguments.deep_view(),
            output: limits.bound(output.deep_view()),
            duration_ms,
            success,
        }),
{
    ToolExecutionRecord {
        call_id,
        tool_name,
        effective_arguments,
        output: normalize_tool_output(output, limits.output_max_bytes, limits.metadata_max_bytes),
        duration_ms,
        success,
    }
}

fn stand_in_record(
    call_id: &String,
    tool_name: &String,
    arguments: &JsonValue,
    content: String,
    limits: ToolLimits,
) -> (r: ToolExecutionRecord)
    ensures
        r.deep_view() == stand_in(
            RequestedView {
                call_id: call_id@,
                tool_name: tool_name@,
                arguments: arguments.deep_view(),
            },
            content@,
            limits,
        ),
{
    build_record(
        call_id.clone(),
        tool_name.clone(),
        arguments.clone(),
        error_tool_output(content),
        0,
        false,
        limits,
    )
}

// ---------------------------------------------------------------------------
// Preparation
// ---------------------------------------------------------------------------
/// Whether a call of the batch names a mutating tool.
pub open spec fn any_mutating(
    tools: Registry<RegisteredTool>,
    requested: Seq<RequestedView>,
) -> bool {
    exists|i: int|
        0 <= i < requested.len() && mutates(tools, (#[trigger] requested[i]).tool_name) == Some(
            true,
        )
}

/// Whether the named tool is mutating; `None` for an unknown name.
pub open spec fn mutates(tools: Registry<RegisteredTool>, name: Seq<char>) -> Option<bool> {
    match tools.find(name) {
        Some(tool) => Some(tool.is_mutating),
        None => None,
    }
}

/// A batch being prepared.
#[derive(Debug)]
pub struct BatchPreparation {
    has_mutating: bool,
    skip_remaining: Option<String>,
    calls: Vec<PreparedToolCall>,
}

/// Model of [`BatchPreparation`].
#[verifier::ext_equal]
pub struct PreparationView {
    pub has_mutating: bool,
    pub skip: Option<Seq<char>>,
    pub calls: Seq<PreparedView>,
}

impl DeepView for BatchPreparation {
    type V = PreparationView;

    closed spec fn deep_view(&self) -> PreparationView {
        PreparationView {
            has_mutating: self.has_mutating,
            skip: self.skip_remaining.deep_view(),
            calls: self.calls.deep_view(),
        }
    }
}

/// A call answered by a ready result.
pub open spec fn synthetic_call(
    call: RequestedView,
    record: RecordView,
    error: Option<Seq<char>>,
) -> PreparedView {
    PreparedView {
        call_id: call.call_id,
        tool_name: call.tool_name,
        effective_arguments: call.arguments,
        execution: ExecutionView::Synthetic { record, error },
    }
}

/// What is known of a call before any hook is asked.
pub enum OfferView {
    /// The call has its answer.
    Settled(PreparationView),
    /// Hooks have to be asked with this data.
    AskHooks(HookDataView),
}

/// How a preparation takes a requested call: once calls are being skipped, the
/// call is skipped; an unknown tool is answered with an error, and in a batch
/// with mutating tools all later calls are skipped; for a known tool, hooks are
/// asked.
pub open spec fn offered(
    preparation: PreparationView,
    call: RequestedView,
    known: Option<bool>,
    limits: ToolLimits,
) -> OfferView {
    match preparation.skip {
        Some(message) => OfferView::Settled(
            PreparationView {
                calls: preparation.calls.push(
                    synthetic_call(call, stand_in(call, message, limits), None),
                ),
                ..preparation
            },
        ),
        None => match known {
            None => OfferView::Settled(
                PreparationView {
                    skip: if preparation.has_mutating {
                        Some(skipped_not_found_text(call.tool_name))
                    } else {
                        None
                    },
                    calls: preparation.calls.push(
                        synthetic_call(
                            call,
                            stand_in(call, not_found_text(call.tool_name), limits),
                            Some(call.tool_name),
                        ),
                    ),
                    ..preparation
                },
            ),
            Some(_) => OfferView::AskHooks(
                HookDataView::BeforeToolUse {
                    tool_name: call.tool_name,
                    arguments: call.arguments,
                },
            ),
        },
    }
}

/// The arguments after the patches of all handlers: the last one counts.
pub open spec fn patched_arguments(patches: Seq<HookPatchView>, arguments: Seq<char>) -> Seq<char>
    decreases patches.len(),
{
    if patches.len() == 0 {
        arguments
    } else {
        match patches.last() {
            HookPatchView::BeforeToolUse { arguments: patched } => patched,
            HookPatchView::TurnStart { .. } => patched_arguments(patches.drop_last(), arguments),
        }
    }
}

/// How a preparation takes the hooks' answer on a known tool: the call runs
/// with the patched arguments; an abort answers the call, and in a batch with
/// mutating tools all later calls are skipped; any other error ends the batch.
pub open spec fn hooks_answered(
    preparation: PreparationView,
    call: RequestedView,
    is_mutating: bool,
    answer: std::result::Result<Seq<HookPatchView>, AgentErrorView>,
    limits: ToolLimits,
) -> std::result::Result<PreparationView, AgentErrorView> {
    match answer {
        Ok(patches) => Ok(
            PreparationView {
                calls: preparation.calls.push(
                    PreparedView {
                        call_id: call.call_id,
                        tool_name: call.tool_name,
                        effective_arguments: patched_arguments(patches, call.arguments),
                        execution: ExecutionView::Execute { is_mutating },
                    },
                ),
                ..preparation
            },
        ),
        Err(AgentErrorView::PluginAborted { .. }) => Ok(
            PreparationView {
                skip: if preparation.has_mutating {
                    Some("[Tool skipped: previous tool aborted by plugin]"@)
                } else {
                    preparation.skip
                },
                calls: preparation.calls.push(
                    synthetic_call(
                        call,
                        stand_in(call, "[Tool aborted by plugin]"@, limits),
                        None,
                    ),
                ),
                ..preparation
            },
        ),
        Err(error) => Err(error),
    }
}

/// What the dispatcher makes of an offered call.
pub enum Offer {
    /// The call has its answer.
    Settled,
    /// Hooks have to be asked with this data before the call is settled.
    AskHooks(HookData),
}

fn last_arguments(patches: &Vec<HookPatch>, arguments: &JsonValue) -> (r: JsonValue)
    ensures
        r.deep_view() == patched_arguments(patches.deep_view(), arguments.deep_view()),
{
    let ghost all = patches.deep_view();
    let mut i: usize = patches.len();
    proof {
        assert(all.take(i as int) =~= all);
    }
    while i > 0
        invariant
            i <= patches.len(),
            all == patches.deep_view(),
            patched_arguments(all, arguments.deep_view()) == patched_arguments(
                all.take(i as int),
                arguments.deep_view(),
            ),
        decreases i,
    {
        i -= 1;
        proof {
            assert(all.take(i + 1).drop_last() =~= all.take(i as int));
            assert(all.take(i + 1).last() == patches[i as int].deep_view());
        }
        match &patches[i] {
            HookPatch::BeforeToolUse { arguments: patched } => {
                return patched.clone();
            },
            HookPatch::TurnStart { .. } => {},
        }
    }
    arguments.clone()
}

impl<'a> ToolDispatcher<'a> {
    fn lookup(&self, name: &str) -> (r: Option<bool>)
        ensures
            r == mutates(*self.tools, name@),
    {
        match self.tools.get(name) {
            Some(tool) => Some(tool.is_mutating),
            None => None,
        }
    }

    /// Starts the preparation of a batch.
    pub fn prepare_batch(&self, requested_calls: &Vec<RequestedToolCall>) -> (r: BatchPreparation)
        ensures
            r.deep_view() == (PreparationView {
                has_mutating: any_mutating(*self.tools, requested_calls.deep_view()),
                skip: None,
                calls: Seq::empty(),
            }),
    {
        let mut has_mutating = false;
        let mut i: usize = 0;
        let ghost all = requested_calls.deep_view();
        while i < requested_calls.len()
            invariant
                i <= requested_calls.len(),
                all == requested_calls.deep_view(),
                has_mutating == exists|j: int|
                    0 <= j < i && mutates(*self.tools, (#[trigger] all[j]).tool_name) == Some(true),
            decreases requested_calls.len() - i,
        {
            let known = self.lookup(requested_calls[i].tool_name.as_str());
            proof {
                assert(all[i as int].tool_name == requested_calls[i as int].tool_name@);
            }
            match known {
                Some(true) => {
                    has_mutating = true;
                },
                _ => {},
            }
            i += 1;
        }
        let calls: Vec<PreparedToolCall> = Vec::new();
        proof {
            assert(calls.deep_view() =~= Seq::<PreparedView>::empty());
        }
        BatchPreparation { has_mutating, skip_remaining: None, calls }
    }

    /// Takes the next requested call.
    pub fn offer(&self, preparation: &mut BatchPreparation, call: &RequestedToolCall) -> (r: Offer)
        ensures
            match offered(
                old(preparation).deep_view(),
                call.deep_view(),
                mutates(*self.tools, call.tool_name@),
                self.limits,
            ) {
                OfferView::Settled(after) => r is Settled && final(preparation).deep_view()
                    == after,
                OfferView::AskHooks(data) => r matches Offer::AskHooks(d) && d.deep_view() == data
                    && final(preparation).deep_view() == old(preparation).deep_view(),
            },
    {
        match &preparation.skip_remaining {
            Some(message) => {
                let record = stand_in_record(
                    &call.call_id,
                    &call.tool_name,
                    &call.arguments,
                    message.clone(),
                    self.limits,
                );
                preparation.push_synthetic(call, record, None);
                return Offer::Settled;
            },
            None => {},
        }
        match self.lookup(call.tool_name.as_str()) {
            None => {
                let record = build_record(
                    call.call_id.clone(),
                    call.tool_name.clone(),
                    call.arguments.clone(),
                    tool_not_found_output(call.tool_name.as_str()),
                    0,
                    false,
                    self.limits,
                );
                if preparation.has_mutating {
                    preparation.skip_remaining = Some(
                        skipped_not_found_output(call.tool_name.as_str()),
                    );
                }
                preparation.push_synthetic(
                    call,
                    record,
                    Some(SyntheticError::ToolNotFound { tool_name: call.tool_name.clone() }),
                );
                Offer::Settled
            },
            Some(_) => Offer::AskHooks(
                HookData::BeforeToolUse {
                    tool_name: call.tool_name.clone(),
                    arguments: call.arguments.clone(),
                },
            ),
        }
    }

    /// Takes the hooks' answer on a call of a known tool.
    pub fn settle_offer(
        &self,
        preparation: &mut BatchPreparation,
        call: RequestedToolCall,
        answer: Result<Vec<HookPatch>>,
    ) -> (r: Result<()>)
        ensures
            ({
                let is_mutating = mutates(*self.tools, call.tool_name@) == Some(true);
                match hooks_answered(
                    old(preparation).deep_view(),
                    call.deep_view(),
                    is_mutating,
                    outcome(answer),
                    self.limits,
                ) {
                    Ok(after) => r is Ok && final(preparation).deep_view() == after,
                    Err(error) => r matches Err(e) && e.deep_view() == error
                        && final(preparation).deep_view() == old(preparation).deep_view(),
                }
            }),
    {
        match answer {
            Ok(patches) => {
                let is_mutating = match self.lookup(call.tool_name.as_str()) {
                    Some(flag) => flag,
                    None => false,
                };
                let effective_arguments = last_arguments(&patches, &call.arguments);
                let ghost prepared = PreparedView {
                    call_id: call.call_id@,
                    tool_name: call.tool_name@,
                    effective_arguments: effective_arguments.deep_view(),
                    execution: ExecutionView::Execute { is_mutating },
                };
                preparation.calls.push(
                    PreparedToolCall {
                        call_id: call.call_id,
                        tool_name: call.tool_name,
                        effective_arguments,
                        execution: PreparedExecution::Execute { is_mutating },
                    },
                );
                proof {
                    assert(preparation.calls.deep_view() =~= old(preparation).calls.deep_view().push(
                        prepared,
                    ));
                }
                Ok(())
            },
            Err(AgentError::PluginAborted { .. }) => {
                if preparation.has_mutating {
                    preparation.skip_remaining = Some(
                        "[Tool skipped: previous tool aborted by plugin]".to_owned(),
                    );
                }
                let record = stand_in_record(
                    &call.call_id,
                    &call.tool_name,
                    &call.arguments,
                    "[Tool aborted by plugin]".to_owned(),
                    self.limits,
                );
                preparation.push_synthetic(&call, record, None);
                Ok(())
            },
            Err(error) => Err(error),
        }
    }
}

impl BatchPreparation {
    fn push_synthetic(
        &mut self,
        call: &RequestedToolCall,
        record: ToolExecutionRecord,
        error: Option<SyntheticError>,
    )
        ensures
            final(self).has_mutating == old(self).has_mutating,
            final(self).skip_remaining == old(self).skip_remaining,
            final(self).calls.deep_view() == old(self).calls.deep_view().push(
                synthetic_call(call.deep_view(), record.deep_view(), error.deep_view()),
            ),
    {
        self.calls.push(
            PreparedToolCall {
                call_id: call.call_id.clone(),
                tool_name: call.tool_name.clone(),
                effective_arguments: call.arguments.clone(),
                execution: PreparedExecution::Synthetic { record, error },
            },
        );
        proof {
            assert(self.calls.deep_view() =~= old(self).calls.deep_view().push(
                synthetic_call(call.deep_view(), record.deep_view(), error.deep_view()),
            ));
        }
    }

    /// The prepared batch.
    pub fn finish(self) -> (r: PreparedToolBatch)
        ensures
            r.deep_view() == (BatchView {
                calls: self.deep_view().calls,
                has_mutating: self.deep_view().has_mutating,
            }),
    {
        PreparedToolBatch { calls: self.calls, has_mutating: self.has_mutating }
    }
}

// ---------------------------------------------------------------------------
// One run
// ---------------------------------------------------------------------------
/// What the tool of a prepared call is given.
pub open spec fn input_of(call: PreparedView) -> ToolInputView {
    ToolInputView {
        call_id: call.call_id,
        tool_name: call.tool_name,
        arguments: call.effective_arguments,
    }
}

/// The event that announces a run.
pub open spec fn start_event(call: PreparedView) -> EventPayloadView {
    EventPayloadView::ToolCallStart {
        call_id: call.call_id,
        tool_name: call.tool_name,
        arguments: call.effective_arguments,
    }
}

/// A finished run as it follows from how the tool ended.
pub open spec fn raw_of(
    call: PreparedView,
    completion: CompletionView,
    duration_ms: u64,
    limits: ToolLimits,
) -> RawView {
    let name = call.tool_name;
    let (output, success, skip, error) = match completion {
        CompletionView::Output(output) => (output, !output.is_error, None, None),
        CompletionView::Failed(source) => (
            error_output("[Tool error] tool '"@ + name + "' failed"@),
            false,
            Some("[Tool skipped: previous tool '"@ + name + "' failed]"@),
            Some(AgentErrorView::ToolExecutionError { name, source }),
        ),
        CompletionView::TimedOut => (
            error_output("[Tool timeout] tool '"@ + name + "' timed out"@),
            false,
            Some("[Tool skipped: previous tool '"@ + name + "' timed out]"@),
            Some(AgentErrorView::ToolTimeout { name, timeout_ms: limits.timeout_ms }),
        ),
    };
    RawView {
        call_id: call.call_id,
        tool_name: name,
        effective_arguments: call.effective_arguments,
        output: limits.bound(output),
        duration_ms,
        success,
        skip,
        error,
    }
}

/// The events that announce the end of a run.
pub open spec fn end_events(raw: RawView) -> Seq<EventPayloadView> {
    let end = EventPayloadView::ToolCallEnd {
        call_id: raw.call_id,
        tool_name: raw.tool_name,
        output: raw.output,
        duration_ms: raw.duration_ms,
        success: raw.success && !raw.output.is_error,
    };
    match raw.error {
        Some(error) => seq![EventPayloadView::Error(error), end],
        None => seq![end],
    }
}

/// What hooks are told after a run.
pub open spec fn after_data(raw: RawView) -> HookDataView {
    HookDataView::AfterToolUse {
        tool_name: raw.tool_name,
        output: raw.output,
        duration_ms: raw.duration_ms,
        success: raw.success && !raw.output.is_error,
    }
}

/// A finished run after the hooks' answer: an abort is remembered, any other
/// error ends the batch.
pub open spec fn completed_of(
    raw: RawView,
    answer: std::result::Result<Seq<HookPatchView>, AgentErrorView>,
    limits: ToolLimits,
) -> std::result::Result<CompletedView, AgentErrorView> {
    let record = RecordView {
        call_id: raw.call_id,
        tool_name: raw.tool_name,
        effective_arguments: raw.effective_arguments,
        output: limits.bound(raw.output),
        duration_ms: raw.duration_ms,
        success: raw.success,
    };
    match answer {
        Ok(_) => Ok(CompletedView { record, skip: raw.skip, after_tool_abort: false }),
        Err(AgentErrorView::PluginAborted { .. }) => Ok(
            CompletedView { record, skip: raw.skip, after_tool_abort: true },
        ),
        Err(error) => Err(error),
    }
}

impl PreparedToolCall {
    /// What the tool is given.
    pub fn tool_input(&self) -> (r: ToolInput)
        ensures
            r.deep_view() == input_of(self.deep_view()),
    {
        ToolInput {
            call_id: self.call_id.clone(),
            tool_name: self.tool_name.clone(),
            arguments: self.effective_arguments.clone(),
        }
    }

    /// The event that announces the run.
    pub fn start_event(&self) -> (r: AgentEventPayload)
        ensures
            r.deep_view() == start_event(self.deep_view()),
    {
        AgentEventPayload::ToolCallStart {
            call_id: self.call_id.clone(),
            tool_name: self.tool_name.clone(),
            arguments: self.effective_arguments.clone(),
        }
    }
}

impl<'a> ToolDispatcher<'a> {
    /// Works out a finished run from how the tool ended.
    pub fn perform_tool_execution(
        &self,
        call: &PreparedToolCall,
        completion: ToolCompletion,
        duration_ms: u64,
    ) -> (r: RawToolExecution)
        ensures
            r.deep_view() == raw_of(
                call.deep_view(),
                completion.deep_view(),
                duration_ms,
                self.limits,
            ),
    {
        let name = call.tool_name.as_str();
        let (output, success, skip_remaining_message, error_event) = match completion {
            ToolCompletion::Output(output) => {
                let success = !output.is_error;
                (output, success, None, None)
            },
            ToolCompletion::Failed(source) => (
                error_tool_output(
                    "[Tool error] tool '".to_owned().concat(name).concat("' failed"),
                ),
                false,
                Some("[Tool skipped: previous tool '".to_owned().concat(name).concat("' failed]")),
                Some(AgentError::ToolExecutionError { name: call.tool_name.clone(), source }),
            ),
            ToolCompletion::TimedOut => (
                error_tool_output(
                    "[Tool timeout] tool '".to_owned().concat(name).concat("' timed out"),
                ),
                false,
                Some(
                    "[Tool skipped: previous tool '".to_owned().concat(name).concat(
                        "' timed out]",
                    ),
                ),
                Some(
                    AgentError::ToolTimeout {
                        name: call.tool_name.clone(),
                        timeout_ms: self.limits.timeout_ms,
                    },
                ),
            ),
        };
        RawToolExecution {
            call_id: call.call_id.clone(),
            tool_name: call.tool_name.clone(),
            effective_arguments: call.effective_arguments.clone(),
            output: normalize_tool_output(
                output,
                self.limits.output_max_bytes,
                self.limits.metadata_max_bytes,
            ),
            duration_ms,
            success,
            skip_remaining_message,
            error_event,
        }
    }

    /// Works out the result of a run from the hooks' answer.
    pub fn finalize_tool_execution(
        &self,
        raw: RawToolExecution,
        answer: Result<Vec<HookPatch>>,
    ) -> (r: Result<CompletedToolCall>)
        ensures
            outcome(r) == completed_of(raw.deep_view(), outcome(answer), self.limits),
    {
        let after_tool_abort = match answer {
            Ok(_) => false,
            Err(AgentError::PluginAborted { .. }) => true,
            Err(error) => {
                return Err(error);
            },
        };
        Ok(
            CompletedToolCall {
                record: build_record(
                    raw.call_id,
                    raw.tool_name,
                    raw.effective_arguments,
                    raw.output,
                    raw.duration_ms,
                    raw.success,
                    self.limits,
                ),
                skip_remaining_message: raw.skip_remaining_message,
                after_tool_abort,
            },
        )
    }
}

impl RawToolExecution {
    /// The events that announce the end of the run.
    pub fn end_events(&self) -> (r: Vec<AgentEventPayload>)
        ensures
            r.deep_view() == end_events(self.deep_view()),
    {
        let mut events: Vec<AgentEventPayload> = Vec::new();
        match &self.error_event {
            Some(error) => {
                events.push(AgentEventPayload::Error(error.clone()));
            },
            None => {},
        }
        events.push(
            AgentEventPayload::ToolCallEnd {
                call_id: self.call_id.clone(),
                tool_name: self.tool_name.clone(),
                output: self.output.clone(),
                duration_ms: self.duration_ms,
                success: self.success && !self.output.is_error,
            },
        );
        proof {
            assert(events.deep_view() =~= end_events(self.deep_view()));
        }
        events
    }

    /// What hooks are told after the run.
    pub fn after_tool_data(&self) -> (r: HookData)
        ensures
            r.deep_view() == after_data(self.deep_view()),
    {
        HookData::AfterToolUse {
            tool_name: self.tool_name.clone(),
            output: self.output.clone(),
            duration_ms: self.duration_ms,
            success: self.success && !self.output.is_error,
        }
    }
}

} // verus!
