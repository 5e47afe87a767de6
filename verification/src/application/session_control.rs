//! The control plane of an agent: its lifecycle and its single session slot.

use crate::clock::{fresh_id, id_shaped};
use crate::domain::error::{outcome, AgentError, AgentErrorView, Result};
use crate::text::same_text;
use vstd::prelude::*;
use vstd::string::*;

verus! {

/// Lifecycle of an agent.
#[derive(Debug, Clone, Copy, PartialEq, Eq, Structural)]
pub enum LifecycleState {
    /// The agent takes requests.
    Running,
    /// The agent is being shut down.
    ShuttingDown,
    /// The agent has been shut down.
    Shutdown,
}

/// What the active session is busy with.
#[derive(Debug, Clone, Copy, PartialEq, Eq, Structural)]
pub enum TurnState {
    /// No turn is running.
    Idle,
    /// A turn is running.
    Running,
    /// The session is being closed; no turn may start.
    Closing,
}

/// The session slot.
#[derive(Debug, PartialEq, Eq)]
pub enum SessionSlotState {
    /// There is no session.
    Empty,
    /// A session is being created or restored.
    Reserved {
        /// Id of the reservation.
        reservation_id: String,
        /// Id of the session.
        session_id: String,
    },
    /// There is a session.
    Active {
        /// Id of the session.
        session_id: String,
        /// What it is busy with.
        turn_state: TurnState,
    },
}

/// Model of [`SessionSlotState`].
#[verifier::ext_equal]
pub enum SlotView {
    Empty,
    Reserved { reservation_id: Seq<char>, session_id: Seq<char> },
    Active { session_id: Seq<char>, turn_state: TurnState },
}

impl DeepView for SessionSlotState {
    type V = SlotView;

    open spec fn deep_view(&self) -> SlotView {
        match self {
            SessionSlotState::Empty => SlotView::Empty,
            SessionSlotState::Reserved { reservation_id, session_id } => SlotView::Reserved {
                reservation_id: reservation_id@,
                session_id: session_id@,
            },
            SessionSlotState::Active { session_id, turn_state } => SlotView::Active {
                session_id: session_id@,
                turn_state: *turn_state,
            },
        }
    }
}

/// The control plane of an agent.
#[derive(Debug, PartialEq, Eq)]
pub struct AgentControl {
    /// Lifecycle of the agent.
    pub lifecycle: LifecycleState,
    /// The session slot.
    pub slot: SessionSlotState,
}

/// Model of [`AgentControl`].
#[verifier::ext_equal]
pub struct ControlView {
    pub lifecycle: LifecycleState,
    pub slot: SlotView,
}

impl DeepView for AgentControl {
    type V = ControlView;

    open spec fn deep_view(&self) -> ControlView {
        ControlView { lifecycle: self.lifecycle, slot: self.slot.deep_view() }
    }
}

impl Default for AgentControl {
    fn default() -> (r: Self)
        ensures
            r.deep_view() == fresh_control(),
    {
        AgentControl { lifecycle: LifecycleState::Running, slot: SessionSlotState::Empty }
    }
}

/// What a shutdown starts with.
#[derive(Debug, PartialEq, Eq)]
pub enum ShutdownStart {
    /// The agent is down already, or is being shut down.
    Nothing,
    /// The session has to be closed first.
    Close(String),
    /// The plugins can be shut down at once.
    Plugins,
}

/// Model of [`ShutdownStart`].
#[verifier::ext_equal]
pub enum ShutdownStartView {
    Nothing,
    Close(Seq<char>),
    Plugins,
}

impl DeepView for ShutdownStart {
    type V = ShutdownStartView;

    open spec fn deep_view(&self) -> ShutdownStartView {
        match self {
            ShutdownStart::Nothing => ShutdownStartView::Nothing,
            ShutdownStart::Close(id) => ShutdownStartView::Close(id@),
            ShutdownStart::Plugins => ShutdownStartView::Plugins,
        }
    }
}

// ---------------------------------------------------------------------------
// Rules
// ---------------------------------------------------------------------------
/// The control plane of a new agent.
pub open spec fn fresh_control() -> ControlView {
    ControlView { lifecycle: LifecycleState::Running, slot: SlotView::Empty }
}

/// Whether the slot holds the session with an id.
pub open spec fn holds(c: ControlView, id: Seq<char>) -> bool {
    c.slot matches SlotView::Active { session_id, .. } && session_id == id
}

/// The slot with another turn state.
pub open spec fn with_turn_state(c: ControlView, turn_state: TurnState) -> ControlView {
    ControlView {
        slot: match c.slot {
            SlotView::Active { session_id, .. } => SlotView::Active { session_id, turn_state },
            other => other,
        },
        ..c
    }
}

/// Claiming the slot: only an empty one of a running agent can be had.
pub open spec fn claimed(c: ControlView, session_id: Seq<char>, reservation_id: Seq<char>) -> (
    ControlView,
    std::result::Result<(), AgentErrorView>,
) {
    if !(c.lifecycle is Running) {
        (c, Err(AgentErrorView::AgentShutdown))
    } else if c.slot is Empty {
        (
            ControlView { slot: SlotView::Reserved { reservation_id, session_id }, ..c },
            Ok(()),
        )
    } else {
        (c, Err(AgentErrorView::SessionBusy))
    }
}

/// Giving a reservation back: one that is not there changes nothing.
pub open spec fn rolled_back(c: ControlView, id: Seq<char>) -> ControlView {
    if c.slot matches SlotView::Reserved { reservation_id, .. } && reservation_id == id {
        ControlView { slot: SlotView::Empty, ..c }
    } else {
        c
    }
}

/// Turning a reservation into a session.
pub open spec fn activated(c: ControlView, id: Seq<char>) -> (
    ControlView,
    std::result::Result<(), AgentErrorView>,
) {
    match c.slot {
        SlotView::Reserved { reservation_id, session_id } => if reservation_id == id {
            (
                ControlView {
                    slot: SlotView::Active { session_id, turn_state: TurnState::Idle },
                    ..c
                },
                Ok(()),
            )
        } else {
            (c, Err(AgentErrorView::SessionBusy))
        },
        _ => (c, Err(AgentErrorView::SessionBusy)),
    }
}

/// Beginning to close a session; tells whether a turn is running.
pub open spec fn close_begun(c: ControlView, id: Seq<char>) -> (
    ControlView,
    std::result::Result<bool, AgentErrorView>,
) {
    match c.slot {
        SlotView::Active { session_id, turn_state } => if session_id != id {
            (c, Err(AgentErrorView::SessionNotFound(id)))
        } else if turn_state is Closing {
            (c, Err(AgentErrorView::SessionBusy))
        } else {
            (with_turn_state(c, TurnState::Closing), Ok(turn_state is Running))
        },
        _ => (c, Err(AgentErrorView::SessionNotFound(id))),
    }
}

/// Giving up to close a session.
pub open spec fn close_aborted(c: ControlView, id: Seq<char>) -> (
    ControlView,
    std::result::Result<(), AgentErrorView>,
) {
    if !holds(c, id) {
        (c, Err(AgentErrorView::SessionNotFound(id)))
    } else if c.slot->turn_state is Closing {
        (with_turn_state(c, TurnState::Idle), Ok(()))
    } else {
        (c, Ok(()))
    }
}

/// Freeing the slot of a session that is being closed.
pub open spec fn close_finished(c: ControlView, id: Seq<char>) -> (
    ControlView,
    std::result::Result<(), AgentErrorView>,
) {
    if !holds(c, id) {
        (c, Err(AgentErrorView::SessionNotFound(id)))
    } else if c.slot->turn_state is Closing {
        (ControlView { slot: SlotView::Empty, ..c }, Ok(()))
    } else {
        (c, Err(AgentErrorView::SessionBusy))
    }
}

/// Starting a turn: one at a time, and none while the session is being closed.
pub open spec fn turn_started(c: ControlView, id: Seq<char>) -> (
    ControlView,
    std::result::Result<(), AgentErrorView>,
) {
    if !holds(c, id) {
        (c, Err(AgentErrorView::SessionNotFound(id)))
    } else {
        match c.slot->turn_state {
            TurnState::Idle => (with_turn_state(c, TurnState::Running), Ok(())),
            TurnState::Running => (c, Err(AgentErrorView::TurnBusy)),
            TurnState::Closing => (c, Err(AgentErrorView::SessionBusy)),
        }
    }
}

/// Taking note that a turn has ended: a session that is being closed stays so.
pub open spec fn turn_cleared(c: ControlView, id: Seq<char>) -> ControlView {
    if holds(c, id) && c.slot->turn_state is Running {
        with_turn_state(c, TurnState::Idle)
    } else {
        c
    }
}

/// Beginning to shut down.
pub open spec fn shutdown_begun(c: ControlView) -> (ControlView, ShutdownStartView) {
    if !(c.lifecycle is Running) {
        (c, ShutdownStartView::Nothing)
    } else {
        (
            ControlView { lifecycle: LifecycleState::ShuttingDown, ..c },
            match c.slot {
                SlotView::Active { session_id, .. } => ShutdownStartView::Close(session_id),
                _ => ShutdownStartView::Plugins,
            },
        )
    }
}

impl AgentControl {
    /// The control plane of a new agent.
    pub fn new() -> (r: Self)
        ensures
            r.deep_view() == fresh_control(),
    {
        AgentControl { lifecycle: LifecycleState::Running, slot: SessionSlotState::Empty }
    }

    /// Refuses any request unless the agent is running.
    pub fn ensure_running(&self) -> (r: Result<()>)
        ensures
            outcome(r) == (if self.deep_view().lifecycle is Running {
                Ok::<(), AgentErrorView>(())
            } else {
                Err(AgentErrorView::AgentShutdown)
            }),
    {
        match self.lifecycle {
            LifecycleState::Running => Ok(()),
            LifecycleState::ShuttingDown | LifecycleState::Shutdown => Err(
                AgentError::AgentShutdown,
            ),
        }
    }

    /// Claims the slot under a given reservation.
    pub fn claim_as(&mut self, session_id: &str, reservation_id: &str) -> (r: Result<()>)
        ensures
            (final(self).deep_view(), outcome(r)) == claimed(
                old(self).deep_view(),
                session_id@,
                reservation_id@,
            ),
    {
        match self.ensure_running() {
            Ok(_) => {},
            Err(error) => {
                return Err(error);
            },
        }
        match &self.slot {
            SessionSlotState::Empty => {
                self.slot = SessionSlotState::Reserved {
                    reservation_id: reservation_id.to_owned(),
                    session_id: session_id.to_owned(),
                };
                Ok(())
            },
            _ => Err(AgentError::SessionBusy),
        }
    }

    /// Claims the slot under a fresh reservation.
    pub fn claim_session_slot(&mut self, session_id: &str) -> (r: Result<String>)
        ensures
            match r {
                Ok(reservation_id) => {
                    &&& id_shaped(reservation_id@)
                    &&& (final(self).deep_view(), Ok::<(), AgentErrorView>(())) == claimed(
                        old(self).deep_view(),
                        session_id@,
                        reservation_id@,
                    )
                },
                Err(error) => forall|reservation_id: Seq<char>|
                    (final(self).deep_view(), Err::<(), AgentErrorView>(error.deep_view()))
                        == #[trigger] claimed(
                        old(self).deep_view(),
                        session_id@,
                        reservation_id,
                    ),
            },
    {
        let reservation_id = fresh_id();
        match self.claim_as(session_id, reservation_id.as_str()) {
            Ok(_) => Ok(reservation_id),
            Err(error) => Err(error),
        }
    }

    /// Gives a reservation back.
    pub fn rollback_reservation(&mut self, reservation_id: &str)
        ensures
            final(self).deep_view() == rolled_back(old(self).deep_view(), reservation_id@),
    {
        let mine = match &self.slot {
            SessionSlotState::Reserved { reservation_id: current, .. } => same_text(
                current.as_str(),
                reservation_id,
            ),
            _ => false,
        };
        if mine {
            self.slot = SessionSlotState::Empty;
        }
    }

    /// Turns a reservation into a session.
    pub fn activate_session(&mut self, reservation_id: &str) -> (r: Result<()>)
        ensures
            (final(self).deep_view(), outcome(r)) == activated(
                old(self).deep_view(),
                reservation_id@,
            ),
    {
        let session_id = match &self.slot {
            SessionSlotState::Reserved { reservation_id: current, session_id } => {
                if !same_text(current.as_str(), reservation_id) {
                    return Err(AgentError::SessionBusy);
                }
                session_id.clone()
            },
            _ => {
                return Err(AgentError::SessionBusy);
            },
        };
        self.slot = SessionSlotState::Active { session_id, turn_state: TurnState::Idle };
        Ok(())
    }

    fn turn_state_of(&self, id: &str) -> (r: Result<TurnState>)
        ensures
            match r {
                Ok(state) => holds(self.deep_view(), id@) && self.deep_view().slot->turn_state
                    == state,
                Err(error) => !holds(self.deep_view(), id@) && error.deep_view()
                    == AgentErrorView::SessionNotFound(id@),
            },
    {
        match &self.slot {
            SessionSlotState::Active { session_id, turn_state } => {
                if same_text(session_id.as_str(), id) {
                    Ok(*turn_state)
                } else {
                    Err(AgentError::SessionNotFound(id.to_owned()))
                }
            },
            _ => Err(AgentError::SessionNotFound(id.to_owned())),
        }
    }

    fn set_turn_state(&mut self, id: &str, state: TurnState)
        requires
            holds(old(self).deep_view(), id@),
        ensures
            final(self).deep_view() == with_turn_state(old(self).deep_view(), state),
    {
        self.slot = SessionSlotState::Active { session_id: id.to_owned(), turn_state: state };
    }

    /// Begins to close a session; tells whether a turn is running, which has to
    /// be cancelled and awaited.
    pub fn begin_close(&mut self, session_id: &str) -> (r: Result<bool>)
        ensures
            (final(self).deep_view(), outcome(r)) == close_begun(
                old(self).deep_view(),
                session_id@,
            ),
    {
        match self.turn_state_of(session_id) {
            Ok(state) => match state {
                TurnState::Closing => Err(AgentError::SessionBusy),
                TurnState::Idle => {
                    self.set_turn_state(session_id, TurnState::Closing);
                    Ok(false)
                },
                TurnState::Running => {
                    self.set_turn_state(session_id, TurnState::Closing);
                    Ok(true)
                },
            },
            Err(error) => Err(error),
        }
    }

    /// Gives up to close a session.
    pub fn abort_close(&mut self, session_id: &str) -> (r: Result<()>)
        ensures
            (final(self).deep_view(), outcome(r)) == close_aborted(
                old(self).deep_view(),
                session_id@,
            ),
    {
        match self.turn_state_of(session_id) {
            Ok(state) => {
                if state == TurnState::Closing {
                    self.set_turn_state(session_id, TurnState::Idle);
                }
                Ok(())
            },
            Err(error) => Err(error),
        }
    }

    /// Frees the slot of a session that is being closed.
    pub fn finish_close(&mut self, session_id: &str) -> (r: Result<()>)
        ensures
            (final(self).deep_view(), outcome(r)) == close_finished(
                old(self).deep_view(),
                session_id@,
            ),
    {
        match self.turn_state_of(session_id) {
            Ok(state) => {
                if state == TurnState::Closing {
                    self.slot = SessionSlotState::Empty;
                    Ok(())
                } else {
                    Err(AgentError::SessionBusy)
                }
            },
            Err(error) => Err(error),
        }
    }

    /// Refuses a request on the session that is active.
    pub fn ensure_session_not_active(&self, session_id: &str) -> (r: Result<()>)
        ensures
            outcome(r) == (if holds(self.deep_view(), session_id@) {
                Err::<(), AgentErrorView>(AgentErrorView::SessionBusy)
            } else {
                Ok(())
            }),
    {
        match self.turn_state_of(session_id) {
            Ok(_) => Err(AgentError::SessionBusy),
            Err(_) => Ok(()),
        }
    }

    /// Starts a turn.
    pub fn start_turn(&mut self, session_id: &str) -> (r: Result<()>)
        ensures
            (final(self).deep_view(), outcome(r)) == turn_started(
                old(self).deep_view(),
                session_id@,
            ),
    {
        match self.turn_state_of(session_id) {
            Ok(state) => match state {
                TurnState::Idle => {
                    self.set_turn_state(session_id, TurnState::Running);
                    Ok(())
                },
                TurnState::Running => Err(AgentError::TurnBusy),
                TurnState::Closing => Err(AgentError::SessionBusy),
            },
            Err(error) => Err(error),
        }
    }

    /// Takes note that a turn has ended.
    pub fn clear_running_turn(&mut self, session_id: &str)
        ensures
            final(self).deep_view() == turn_cleared(old(self).deep_view(), session_id@),
    {
        match self.turn_state_of(session_id) {
            Ok(state) => {
                if state == TurnState::Running {
                    self.set_turn_state(session_id, TurnState::Idle);
                }
            },
            Err(_) => {},
        }
    }

    /// Begins to shut down.
    pub fn begin_shutdown(&mut self) -> (r: ShutdownStart)
        ensures
            (final(self).deep_view(), r.deep_view()) == shutdown_begun(old(self).deep_view()),
    {
        match self.lifecycle {
            LifecycleState::Running => {},
            LifecycleState::ShuttingDown | LifecycleState::Shutdown => {
                return ShutdownStart::Nothing;
            },
        }
        self.lifecycle = LifecycleState::ShuttingDown;
        match &self.slot {
            SessionSlotState::Active { session_id, .. } => ShutdownStart::Close(
                session_id.clone(),
            ),
            _ => ShutdownStart::Plugins,
        }
    }

    /// Gives up to shut down.
    pub fn abort_shutdown(&mut self)
        ensures
            final(self).deep_view() == (ControlView {
                lifecycle: LifecycleState::Running,
                ..old(self).deep_view()
            }),
    {
        self.lifecycle = LifecycleState::Running;
    }

    /// Ends a shutdown.
    pub fn finish_shutdown(&mut self)
        ensures
            final(self).deep_view() == (ControlView {
                lifecycle: LifecycleState::Shutdown,
                slot: SlotView::Empty,
            }),
    {
        self.lifecycle = LifecycleState::Shutdown;
        self.slot = SessionSlotState::Empty;
    }
}

// ---------------------------------------------------------------------------
// Laws
// ---------------------------------------------------------------------------
/// There is at most one session: while the slot is taken, no claim succeeds.
pub proof fn law_single_session(
    c: ControlView,
    session_id: Seq<char>,
    reservation_id: Seq<char>,
)
    ensures
        claimed(c, session_id, reservation_id).1 is Ok <==> c.lifecycle is Running && c.slot
            is Empty,
        !(claimed(c, session_id, reservation_id).1 is Ok) ==> claimed(
            c,
            session_id,
            reservation_id,
        ).0 == c,
        c.lifecycle is Running && !(c.slot is Empty) ==> claimed(c, session_id, reservation_id).1
            == Err::<(), AgentErrorView>(AgentErrorView::SessionBusy),
{
}

/// Giving a reservation back undoes the claim.
pub proof fn law_rollback_undoes_claim(
    c: ControlView,
    session_id: Seq<char>,
    reservation_id: Seq<char>,
)
    requires
        claimed(c, session_id, reservation_id).1 is Ok,
    ensures
        rolled_back(claimed(c, session_id, reservation_id).0, reservation_id) == c,
{
}

/// A reservation can only be given back or turned into a session by the one who
/// holds it.
pub proof fn law_reservations_are_owned(
    c: ControlView,
    session_id: Seq<char>,
    mine: Seq<char>,
    other: Seq<char>,
)
    requires
        claimed(c, session_id, mine).1 is Ok,
        other != mine,
    ensures
        rolled_back(claimed(c, session_id, mine).0, other) == claimed(c, session_id, mine).0,
        activated(claimed(c, session_id, mine).0, other) == (
            claimed(c, session_id, mine).0,
            Err::<(), AgentErrorView>(AgentErrorView::SessionBusy),
        ),
        activated(claimed(c, session_id, mine).0, mine) == (
            ControlView {
                slot: SlotView::Active { session_id, turn_state: TurnState::Idle },
                ..c
            },
            Ok::<(), AgentErrorView>(()),
        ),
{
}

/// Only one turn runs at a time: while one runs, no other starts, and once it
/// has ended, the next one can.
pub proof fn law_single_turn(c: ControlView, id: Seq<char>)
    requires
        turn_started(c, id).1 is Ok,
    ensures
        turn_started(turn_started(c, id).0, id) == (
            turn_started(c, id).0,
            Err::<(), AgentErrorView>(AgentErrorView::TurnBusy),
        ),
        turn_cleared(turn_started(c, id).0, id) == c,
{
}

/// A session that is being closed starts no turn and cannot be closed again, and
/// the end of its running turn does not change that.
pub proof fn law_closing_is_exclusive(c: ControlView, id: Seq<char>)
    requires
        close_begun(c, id).1 is Ok,
    ensures
        ({
            let closing = close_begun(c, id).0;
            &&& turn_started(closing, id) == (
                closing,
                Err::<(), AgentErrorView>(AgentErrorView::SessionBusy),
            )
            &&& close_begun(closing, id) == (
                closing,
                Err::<bool, AgentErrorView>(AgentErrorView::SessionBusy),
            )
            &&& turn_cleared(closing, id) == closing
        }),
{
}

/// Giving up to close an idle session restores it; for one with a running turn,
/// which has been ended by then, the session is idle again.
pub proof fn law_abort_restores_session(c: ControlView, id: Seq<char>)
    requires
        close_begun(c, id).1 is Ok,
    ensures
        close_aborted(close_begun(c, id).0, id) == (
            with_turn_state(c, TurnState::Idle),
            Ok::<(), AgentErrorView>(()),
        ),
        close_begun(c, id).1 == Ok::<bool, AgentErrorView>(false) ==> close_aborted(
            close_begun(c, id).0,
            id,
        ).0 == c,
{
}

/// Closing a session frees the slot for another one.
pub proof fn law_close_frees_slot(
    c: ControlView,
    id: Seq<char>,
    next_id: Seq<char>,
    reservation_id: Seq<char>,
)
    requires
        c.lifecycle is Running,
        close_begun(c, id).1 is Ok,
    ensures
        close_finished(close_begun(c, id).0, id) == (
            ControlView { slot: SlotView::Empty, ..c },
            Ok::<(), AgentErrorView>(()),
        ),
        claimed(close_finished(close_begun(c, id).0, id).0, next_id, reservation_id).1 is Ok,
        turn_started(close_finished(close_begun(c, id).0, id).0, id).1 == Err::<
            (),
            AgentErrorView,
        >(AgentErrorView::SessionNotFound(id)),
{
}

/// An agent that is down, or going down, opens no session, and a second
/// shutdown does nothing.
pub proof fn law_shutdown_is_final(
    c: ControlView,
    session_id: Seq<char>,
    reservation_id: Seq<char>,
)
    requires
        !(c.lifecycle is Running),
    ensures
        claimed(c, session_id, reservation_id) == (
            c,
            Err::<(), AgentErrorView>(AgentErrorView::AgentShutdown),
        ),
        shutdown_begun(c) == (c, ShutdownStartView::Nothing),
{
}

} // verus!
