//! One run of the memory extraction: from the ledger events behind the last
//! checkpoint to the writes that the extraction model asks for.

use crate::application::memory_manager::{
    apply_memory_operation, build_extraction_request, by_id, events_after, events_text,
    extraction_request, incremental_events_after, memory_storage_error, memory_storage_failure,
    operated, render_incremental_events, ExtractionResult, MemoryOperation, MemoryWrite,
    OperationView, WriteView,
};
use crate::application::session_runtime::storage_result;
use crate::application::stream::{
    collect_text, collected, provider_error, provider_failure, Collected, CollectedView,
    TextPurpose,
};
use crate::clock::{fresh_id, id_shaped, utc_now, Timestamp};
use crate::domain::error::{outcome, AgentErrorView, ErrorSource, Result};
use crate::domain::ledger::{LedgerEventView, SessionLedger};
use crate::domain::types::{Memory, MemoryView};
use crate::ports::model::{ChatRequest, ChatRequestView, StreamItem, StreamItemView};
use crate::text::{is_blank, trimmed};
use vstd::prelude::*;
use vstd::string::*;

verus! {

/// How far a run has come.
#[derive(Debug)]
pub enum ExtractionStage {
    /// The memories of the namespace are to be listed.
    List {
        /// The rendered events.
        rendered: String,
    },
    /// The request is to be sent.
    Open {
        /// The memories of the namespace.
        existing: Vec<Memory>,
        /// The request.
        request: ChatRequest,
    },
    /// The answer is being read.
    Read {
        /// The memories of the namespace.
        existing: Vec<Memory>,
        /// The text so far.
        text: String,
    },
    /// The answer is to be parsed.
    Parse {
        /// The memories of the namespace.
        existing: Vec<Memory>,
        /// The text.
        text: String,
    },
    /// The operations are being applied.
    Apply {
        /// The memories known so far.
        known: Vec<Memory>,
        /// The operations.
        operations: Vec<MemoryOperation>,
        /// Number of operations applied.
        position: usize,
    },
    /// A write is under way.
    Write {
        /// The memories known so far.
        known: Vec<Memory>,
        /// The operations.
        operations: Vec<MemoryOperation>,
        /// Number of operations applied.
        position: usize,
        /// The write.
        write: MemoryWrite,
    },
    /// The run is over: the new checkpoint, nothing, or an error.
    Finished(Result<Option<u64>>),
}

/// Model of [`ExtractionStage`].
#[verifier::ext_equal]
pub enum ExtractionStageView {
    List { rendered: Seq<char> },
    Open { existing: Seq<MemoryView>, request: ChatRequestView },
    Read { existing: Seq<MemoryView>, text: Seq<char> },
    Parse { existing: Seq<MemoryView>, text: Seq<char> },
    Apply {
        known: Map<Seq<char>, MemoryView>,
        operations: Seq<OperationView>,
        position: int,
    },
    Write {
        known: Map<Seq<char>, MemoryView>,
        operations: Seq<OperationView>,
        position: int,
        write: WriteView,
    },
    Finished(std::result::Result<Option<u64>, AgentErrorView>),
}

impl DeepView for ExtractionStage {
    type V = ExtractionStageView;

    open spec fn deep_view(&self) -> ExtractionStageView {
        match self {
            ExtractionStage::List { rendered } => ExtractionStageView::List { rendered: rendered@ },
            ExtractionStage::Open { existing, request } => ExtractionStageView::Open {
                existing: existing.deep_view(),
                request: request.deep_view(),
            },
            ExtractionStage::Read { existing, text } => ExtractionStageView::Read {
                existing: existing.deep_view(),
                text: text@,
            },
            ExtractionStage::Parse { existing, text } => ExtractionStageView::Parse {
                existing: existing.deep_view(),
                text: text@,
            },
            ExtractionStage::Apply { known, operations, position } => ExtractionStageView::Apply {
                known: by_id(known.deep_view()),
                operations: operations.deep_view(),
                position: *position as int,
            },
            ExtractionStage::Write { known, operations, position, write } =>
            ExtractionStageView::Write {
                known: by_id(known.deep_view()),
                operations: operations.deep_view(),
                position: *position as int,
                write: write.deep_view(),
            },
            ExtractionStage::Finished(result) => ExtractionStageView::Finished(outcome(*result)),
        }
    }
}

/// A run of the memory extraction.
#[derive(Debug)]
pub struct Extraction {
    /// Namespace of the session.
    pub namespace: String,
    /// Where new memories come from.
    pub source: String,
    /// Model for the extraction.
    pub model_id: String,
    /// Last ledger number that the run covers.
    pub last_seq: u64,
    /// How far the run has come.
    pub stage: ExtractionStage,
}

/// Model of [`Extraction`].
#[verifier::ext_equal]
pub struct ExtractionView {
    pub namespace: Seq<char>,
    pub source: Seq<char>,
    pub model_id: Seq<char>,
    pub last_seq: u64,
    pub stage: ExtractionStageView,
}

impl DeepView for Extraction {
    type V = ExtractionView;

    open spec fn deep_view(&self) -> ExtractionView {
        ExtractionView {
            namespace: self.namespace@,
            source: self.source@,
            model_id: self.model_id@,
            last_seq: self.last_seq,
            stage: self.stage.deep_view(),
        }
    }
}

/// What a run needs from the host.
#[derive(Debug)]
pub enum ExtractionAction {
    /// List all memories of a namespace.
    ListMemories {
        /// The namespace.
        namespace: String,
    },
    /// Send a request to the extraction model.
    OpenChat(ChatRequest),
    /// Read the next item of the answer.
    ReadChat,
    /// Read the extraction result from a JSON text.
    Parse(String),
    /// Change the memory storage.
    Write(MemoryWrite),
    /// Nothing; ask again.
    Proceed,
    /// Nothing more; the run is over.
    Finished,
}

/// Model of [`ExtractionAction`].
#[verifier::ext_equal]
pub enum ExtractionActionView {
    ListMemories { namespace: Seq<char> },
    OpenChat(ChatRequestView),
    ReadChat,
    Parse(Seq<char>),
    Write(WriteView),
    Proceed,
    Finished,
}

impl DeepView for ExtractionAction {
    type V = ExtractionActionView;

    open spec fn deep_view(&self) -> ExtractionActionView {
        match self {
            ExtractionAction::ListMemories { namespace } => ExtractionActionView::ListMemories {
                namespace: namespace@,
            },
            ExtractionAction::OpenChat(request) => ExtractionActionView::OpenChat(
                request.deep_view(),
            ),
            ExtractionAction::ReadChat => ExtractionActionView::ReadChat,
            ExtractionAction::Parse(text) => ExtractionActionView::Parse(text@),
            ExtractionAction::Write(write) => ExtractionActionView::Write(write.deep_view()),
            ExtractionAction::Proceed => ExtractionActionView::Proceed,
            ExtractionAction::Finished => ExtractionActionView::Finished,
        }
    }
}

// ---------------------------------------------------------------------------
// Transitions
// ---------------------------------------------------------------------------
/// How a run starts: without new events there is nothing to do, and events
/// without a line only move the checkpoint.
pub open spec fn extraction_start(
    events: Seq<LedgerEventView>,
    last_checkpoint_seq: u64,
) -> (u64, ExtractionStageView) {
    let fresh = events_after(events, last_checkpoint_seq);
    if fresh.len() == 0 {
        (last_checkpoint_seq, ExtractionStageView::Finished(Ok(None)))
    } else if is_blank(events_text(fresh)) {
        (fresh.last().seq, ExtractionStageView::Finished(Ok(Some(fresh.last().seq))))
    } else {
        (fresh.last().seq, ExtractionStageView::List { rendered: events_text(fresh) })
    }
}

/// What a run does next.
pub open spec fn extraction_next(
    run: ExtractionView,
    id: Seq<char>,
    now: Timestamp,
) -> (ExtractionStageView, ExtractionActionView) {
    match run.stage {
        ExtractionStageView::List { .. } => (
            run.stage,
            ExtractionActionView::ListMemories { namespace: run.namespace },
        ),
        ExtractionStageView::Open { request, .. } => (
            run.stage,
            ExtractionActionView::OpenChat(request),
        ),
        ExtractionStageView::Read { .. } => (run.stage, ExtractionActionView::ReadChat),
        ExtractionStageView::Parse { text, .. } => (
            run.stage,
            ExtractionActionView::Parse(trimmed(text)),
        ),
        ExtractionStageView::Apply { known, operations, position } => if position
            < operations.len() {
            let (after, write) = operated(
                known,
                operations[position],
                run.namespace,
                run.source,
                id,
                now,
            );
            match write {
                Some(w) => (
                    ExtractionStageView::Write {
                        known: after,
                        operations,
                        position: position + 1,
                        write: w,
                    },
                    ExtractionActionView::Write(w),
                ),
                None => (
                    ExtractionStageView::Apply {
                        known: after,
                        operations,
                        position: position + 1,
                    },
                    ExtractionActionView::Proceed,
                ),
            }
        } else {
            (
                ExtractionStageView::Finished(Ok(Some(run.last_seq))),
                ExtractionActionView::Proceed,
            )
        },
        ExtractionStageView::Write { write, .. } => (
            run.stage,
            ExtractionActionView::Write(write),
        ),
        ExtractionStageView::Finished(_) => (run.stage, ExtractionActionView::Finished),
    }
}

/// After the memories of the namespace have been listed.
pub open spec fn extraction_listed(
    run: ExtractionView,
    rendered: Seq<char>,
    listed: std::result::Result<(Seq<MemoryView>, Seq<char>), Seq<Seq<char>>>,
) -> ExtractionStageView {
    match listed {
        Ok((existing, json)) => ExtractionStageView::Open {
            existing,
            request: extraction_request(
                run.namespace,
                run.source,
                json,
                rendered,
                run.model_id,
            ),
        },
        Err(source) => ExtractionStageView::Finished(
            Err(
                memory_storage_error(
                    "failed to list memories for namespace '"@,
                    run.namespace,
                    source,
                ),
            ),
        ),
    }
}

/// After the request has been sent.
pub open spec fn extraction_opened(
    existing: Seq<MemoryView>,
    opened: std::result::Result<(), Seq<Seq<char>>>,
) -> ExtractionStageView {
    match opened {
        Ok(_) => ExtractionStageView::Read { existing, text: Seq::empty() },
        Err(source) => ExtractionStageView::Finished(
            Err(
                provider_error(
                    "failed to start memory extraction request"@,
                    seq!["memory extraction provider failed to start request"@] + source,
                ),
            ),
        ),
    }
}

/// After one more read of the answer.
pub open spec fn extraction_read(
    existing: Seq<MemoryView>,
    text: Seq<char>,
    item: StreamItemView,
    cancelled: bool,
) -> ExtractionStageView {
    match collected(TextPurpose::Extraction, text, item, cancelled) {
        CollectedView::More(text) => ExtractionStageView::Read { existing, text },
        CollectedView::Complete(text) => ExtractionStageView::Parse { existing, text },
        CollectedView::Failed(error) => ExtractionStageView::Finished(Err(error)),
    }
}

/// After the answer has been parsed.
pub open spec fn extraction_parsed(
    run: ExtractionView,
    existing: Seq<MemoryView>,
    operations: Option<Seq<OperationView>>,
) -> ExtractionStageView {
    match operations {
        Some(operations) => ExtractionStageView::Apply {
            known: by_id(existing),
            operations,
            position: 0,
        },
        None => ExtractionStageView::Finished(
            Err(
                provider_error(
                    "memory extraction output is not valid JSON"@,
                    seq![
                        "memory extraction model returned invalid JSON for namespace '"@
                            + run.namespace + "' from source '"@ + run.source + "'"@,
                    ],
                ),
            ),
        ),
    }
}

/// After a write.
pub open spec fn extraction_written(
    known: Map<Seq<char>, MemoryView>,
    operations: Seq<OperationView>,
    position: int,
    write: WriteView,
    written: std::result::Result<(), Seq<Seq<char>>>,
) -> ExtractionStageView {
    match written {
        Ok(_) => ExtractionStageView::Apply { known, operations, position },
        Err(source) => ExtractionStageView::Finished(
            Err(
                match write {
                    WriteView::Upsert(memory) => memory_storage_error(
                        "failed to upsert memory '"@,
                        memory.id,
                        source,
                    ),
                    WriteView::Delete(id) => memory_storage_error(
                        "failed to delete memory '"@,
                        id,
                        source,
                    ),
                },
            ),
        ),
    }
}

impl Extraction {
    /// Starts a run over the events behind a checkpoint.
    pub fn begin(
        ledger: &SessionLedger,
        last_checkpoint_seq: u64,
        namespace: String,
        source: String,
        model_id: String,
    ) -> (r: Self)
        ensures
            r.namespace@ == namespace@,
            r.source@ == source@,
            r.model_id@ == model_id@,
            (r.last_seq, r.stage.deep_view()) == extraction_start(
                ledger.deep_view(),
                last_checkpoint_seq,
            ),
    {
        let fresh = incremental_events_after(ledger, last_checkpoint_seq);
        let count: usize = fresh.len();
        if count == 0 {
            return Extraction {
                namespace,
                source,
                model_id,
                last_seq: last_checkpoint_seq,
                stage: ExtractionStage::Finished(Ok(None)),
            };
        }
        let last_seq: u64 = fresh[count - 1].seq;
        let rendered = render_incremental_events(&fresh);
        let stage = if rendered.as_str().trim().is_empty() {
            ExtractionStage::Finished(Ok(Some(last_seq)))
        } else {
            ExtractionStage::List { rendered }
        };
        Extraction { namespace, source, model_id, last_seq, stage }
    }

    /// What the run needs next. A new memory takes the given id and time.
    pub fn next_with(self, id: String, now: Timestamp) -> (r: (Self, ExtractionAction))
        ensures
            r.0.namespace == self.namespace,
            r.0.source == self.source,
            r.0.model_id == self.model_id,
            r.0.last_seq == self.last_seq,
            (r.0.stage.deep_view(), r.1.deep_view()) == extraction_next(
                self.deep_view(),
                id@,
                now,
            ),
    {
        let Extraction { namespace, source, model_id, last_seq, stage } = self;
        let (stage, action) = match stage {
            ExtractionStage::List { rendered } => (
                ExtractionStage::List { rendered },
                ExtractionAction::ListMemories { namespace: namespace.clone() },
            ),
            ExtractionStage::Open { existing, request } => {
                let action = ExtractionAction::OpenChat(request.clone());
                (ExtractionStage::Open { existing, request }, action)
            },
            ExtractionStage::Read { existing, text } => (
                ExtractionStage::Read { existing, text },
                ExtractionAction::ReadChat,
            ),
            ExtractionStage::Parse { existing, text } => {
                let action = ExtractionAction::Parse(text.as_str().trim().to_owned());
                (ExtractionStage::Parse { existing, text }, action)
            },
            ExtractionStage::Apply { known, operations, position } => {
                if position < operations.len() {
                    let mut after = known;
                    let write = apply_memory_operation(
                        &mut after,
                        &operations[position],
                        namespace.as_str(),
                        source.as_str(),
                        id,
                        now,
                    );
                    match write {
                        Some(write) => {
                            let action = ExtractionAction::Write(write.clone());
                            (
                                ExtractionStage::Write {
                                    known: after,
                                    operations,
                                    position: position + 1,
                                    write,
                                },
                                action,
                            )
                        },
                        None => (
                            ExtractionStage::Apply {
                                known: after,
                                operations,
                                position: position + 1,
                            },
                            ExtractionAction::Proceed,
                        ),
                    }
                } else {
                    (ExtractionStage::Finished(Ok(Some(last_seq))), ExtractionAction::Proceed)
                }
            },
            ExtractionStage::Write { known, operations, position, write } => {
                let action = ExtractionAction::Write(write.clone());
                (ExtractionStage::Write { known, operations, position, write }, action)
            },
            ExtractionStage::Finished(result) => (
                ExtractionStage::Finished(result),
                ExtractionAction::Finished,
            ),
        };
        (Extraction { namespace, source, model_id, last_seq, stage }, action)
    }

    /// What the run needs next. A new memory takes a fresh id and the current
    /// time.
    pub fn next(self) -> (r: (Self, ExtractionAction))
        ensures
            r.0.namespace == self.namespace,
            r.0.source == self.source,
            r.0.model_id == self.model_id,
            r.0.last_seq == self.last_seq,
            exists|id: Seq<char>, now: Timestamp|
                id_shaped(id) && (r.0.stage.deep_view(), r.1.deep_view())
                    == #[trigger] extraction_next(self.deep_view(), id, now),
    {
        let id = fresh_id();
        let now = utc_now();
        self.next_with(id, now)
    }

    /// Takes the memories of the namespace, with their JSON text.
    pub fn listed(
        self,
        result: std::result::Result<(Vec<Memory>, String), ErrorSource>,
    ) -> (r: Self)
        requires
            self.stage is List,
        ensures
            r.deep_view() == (ExtractionView {
                stage: extraction_listed(
                    self.deep_view(),
                    self.stage->rendered@,
                    storage_result(result),
                ),
                ..self.deep_view()
            }),
    {
        let Extraction { namespace, source, model_id, last_seq, stage } = self;
        let rendered = match stage {
            ExtractionStage::List { rendered } => rendered,
            _ => String::new(),
        };
        let stage = match result {
            Ok((existing, json)) => {
                let request = build_extraction_request(
                    namespace.as_str(),
                    source.as_str(),
                    json.as_str(),
                    rendered.as_str(),
                    model_id.as_str(),
                );
                ExtractionStage::Open { existing, request }
            },
            Err(cause) => ExtractionStage::Finished(
                Err(
                    memory_storage_failure(
                        "failed to list memories for namespace '",
                        namespace.as_str(),
                        cause,
                    ),
                ),
            ),
        };
        Extraction { namespace, source, model_id, last_seq, stage }
    }

    /// Takes the outcome of sending the request.
    pub fn opened(self, result: std::result::Result<(), ErrorSource>) -> (r: Self)
        requires
            self.stage is Open,
        ensures
            r.deep_view() == (ExtractionView {
                stage: extraction_opened(
                    self.stage.deep_view()->Open_existing,
                    storage_result(result),
                ),
                ..self.deep_view()
            }),
    {
        let Extraction { namespace, source, model_id, last_seq, stage } = self;
        let existing = match stage {
            ExtractionStage::Open { existing, .. } => existing,
            _ => Vec::new(),
        };
        let stage = match result {
            Ok(_) => ExtractionStage::Read { existing, text: String::new() },
            Err(cause) => ExtractionStage::Finished(
                Err(
                    provider_failure(
                        "failed to start memory extraction request",
                        cause.context("memory extraction provider failed to start request"),
                    ),
                ),
            ),
        };
        Extraction { namespace, source, model_id, last_seq, stage }
    }

    /// Takes the next item of the answer.
    pub fn item(self, item: StreamItem, cancelled: bool) -> (r: Self)
        requires
            self.stage is Read,
        ensures
            r.deep_view() == (ExtractionView {
                stage: extraction_read(
                    self.stage.deep_view()->Read_existing,
                    self.stage.deep_view()->Read_text,
                    item.deep_view(),
                    cancelled,
                ),
                ..self.deep_view()
            }),
    {
        let Extraction { namespace, source, model_id, last_seq, stage } = self;
        let (existing, text) = match stage {
            ExtractionStage::Read { existing, text } => (existing, text),
            _ => (Vec::new(), String::new()),
        };
        let stage = match collect_text(TextPurpose::Extraction, text, item, cancelled) {
            Collected::More(text) => ExtractionStage::Read { existing, text },
            Collected::Complete(text) => ExtractionStage::Parse { existing, text },
            Collected::Failed(error) => ExtractionStage::Finished(Err(error)),
        };
        Extraction { namespace, source, model_id, last_seq, stage }
    }

    /// Takes the parsed answer; `None` where it could not be parsed.
    pub fn parsed(self, result: Option<ExtractionResult>) -> (r: Self)
        requires
            self.stage is Parse,
        ensures
            r.deep_view() == (ExtractionView {
                stage: extraction_parsed(
                    self.deep_view(),
                    self.stage.deep_view()->Parse_existing,
                    match result {
                        Some(parsed) => Some(parsed.memory_operations.deep_view()),
                        None => None,
                    },
                ),
                ..self.deep_view()
            }),
    {
        let Extraction { namespace, source, model_id, last_seq, stage } = self;
        let existing = match stage {
            ExtractionStage::Parse { existing, .. } => existing,
            _ => Vec::new(),
        };
        let stage = match result {
            Some(parsed) => ExtractionStage::Apply {
                known: existing,
                operations: parsed.memory_operations,
                position: 0,
            },
            None => {
                let cause =
                    "memory extraction model returned invalid JSON for namespace '".to_owned().concat(
                    namespace.as_str(),
                ).concat("' from source '").concat(source.as_str()).concat("'");
                ExtractionStage::Finished(
                    Err(
                        provider_failure(
                            "memory extraction output is not valid JSON",
                            ErrorSource::new(cause.as_str()),
                        ),
                    ),
                )
            },
        };
        Extraction { namespace, source, model_id, last_seq, stage }
    }

    /// Takes the outcome of a write.
    pub fn written(self, result: std::result::Result<(), ErrorSource>) -> (r: Self)
        requires
            self.stage is Write,
        ensures
            ({
                let stage = self.stage.deep_view();
                r.deep_view() == (ExtractionView {
                    stage: extraction_written(
                        stage->Write_known,
                        stage->Write_operations,
                        stage->Write_position,
                        stage->write,
                        storage_result(result),
                    ),
                    ..self.deep_view()
                })
            }),
    {
        let Extraction { namespace, source, model_id, last_seq, stage } = self;
        let stage = match stage {
            ExtractionStage::Write { known, operations, position, write } => match result {
                Ok(_) => ExtractionStage::Apply { known, operations, position },
                Err(cause) => ExtractionStage::Finished(
                    Err(
                        match write {
                            MemoryWrite::Upsert(memory) => memory_storage_failure(
                                "failed to upsert memory '",
                                memory.id.as_str(),
                                cause,
                            ),
                            MemoryWrite::Delete(id) => memory_storage_failure(
                                "failed to delete memory '",
                                id.as_str(),
                                cause,
                            ),
                        },
                    ),
                ),
            },
            other => other,
        };
        Extraction { namespace, source, model_id, last_seq, stage }
    }

    /// The outcome of a run that is over.
    pub fn into_result(self) -> (r: Result<Option<u64>>)
        requires
            self.stage is Finished,
        ensures
            outcome(r) == self.stage.deep_view()->Finished_0,
    {
        match self.stage {
            ExtractionStage::Finished(result) => result,
            _ => Ok(None),
        }
    }
}

// ---------------------------------------------------------------------------
// Laws
// ---------------------------------------------------------------------------
/// A checkpoint only moves forward: a run covers events behind the checkpoint,
/// or none.
pub proof fn law_checkpoint_advances(events: Seq<LedgerEventView>, last_checkpoint_seq: u64)
    ensures
        events_after(events, last_checkpoint_seq).len() > 0 ==> extraction_start(
            events,
            last_checkpoint_seq,
        ).0 > last_checkpoint_seq,
        extraction_start(events, last_checkpoint_seq).1 matches ExtractionStageView::Finished(
            Ok(Some(seq)),
        ) ==> seq > last_checkpoint_seq,
    decreases events.len(),
{
    if events.len() > 0 {
        law_checkpoint_advances(events.drop_last(), last_checkpoint_seq);
        lemma_last_after(events, last_checkpoint_seq);
    }
}

proof fn lemma_last_after(events: Seq<LedgerEventView>, seq: u64)
    ensures
        events_after(events, seq).len() > 0 ==> events_after(events, seq).last().seq > seq,
    decreases events.len(),
{
    if events.len() > 0 {
        lemma_last_after(events.drop_last(), seq);
    }
}

/// Whether a result, if there is one, is an error or the end of the covered
/// events.
pub open spec fn reports(stage: ExtractionStageView, last_seq: u64) -> bool {
    stage matches ExtractionStageView::Finished(Ok(seq)) ==> seq == Some(last_seq)
}

/// A run that starts with an extraction ends with an error or with the number
/// of the last event that it covers.
pub proof fn law_run_reports_last_event(
    run: ExtractionView,
    id: Seq<char>,
    now: Timestamp,
    listed: std::result::Result<(Seq<MemoryView>, Seq<char>), Seq<Seq<char>>>,
    done: std::result::Result<(), Seq<Seq<char>>>,
    item: StreamItemView,
    cancelled: bool,
    operations: Option<Seq<OperationView>>,
)
    requires
        reports(run.stage, run.last_seq),
    ensures
        reports(extraction_next(run, id, now).0, run.last_seq),
        run.stage matches ExtractionStageView::List { rendered } ==> reports(
            extraction_listed(run, rendered, listed),
            run.last_seq,
        ),
        run.stage matches ExtractionStageView::Open { existing, .. } ==> reports(
            extraction_opened(existing, done),
            run.last_seq,
        ),
        run.stage matches ExtractionStageView::Read { existing, text } ==> reports(
            extraction_read(existing, text, item, cancelled),
            run.last_seq,
        ),
        run.stage matches ExtractionStageView::Parse { existing, .. } ==> reports(
            extraction_parsed(run, existing, operations),
            run.last_seq,
        ),
        run.stage matches ExtractionStageView::Write { known, operations, position, write }
            ==> reports(
            extraction_written(known, operations, position, write, done),
            run.last_seq,
        ),
{
}

} // verus!
