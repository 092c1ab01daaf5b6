//! The life of a session as a state machine: its states, the events that move
//! it, and what holds of every run of events.

use vstd::prelude::*;

use crate::error::{OsError, UsageViolation};

verus! {

/// A control operation on an open session.
#[derive(Copy, Clone, Debug, PartialEq, Eq, Structural)]
pub enum ControlOp {
    /// Let the counter accumulate.
    Enable,
    /// Stop the counter; the count stays.
    Disable,
    /// Set the count back to zero.
    Reset,
}

/// Where a session stands in its life.
#[derive(Copy, Clone, Debug, PartialEq, Eq, Structural)]
pub enum SessionState {
    /// The descriptor is resolved; the operating system knows nothing yet.
    Created,
    /// The operating system gave the handle `fd`. `enabled` tells whether the
    /// last enable or disable that went through this session was an enable.
    Open { fd: i32, enabled: bool },
    /// The handle, if there was one, has been given back. Nothing follows.
    Closed,
}

/// Something that happened to a session: a call that the operating system
/// answered, or a close.
#[derive(Copy, Clone, Debug, PartialEq, Eq, Structural)]
pub enum SessionEvent {
    /// The open call returned `ret`.
    Opened { ret: i32 },
    /// The control call `op` returned `ret`.
    Controlled { op: ControlOp, ret: i32 },
    /// The session was closed.
    Closed,
}

/// Whether a call to the operating system that returned `ret` failed.
pub open spec fn os_failed(ret: int) -> bool {
    ret == -1
}

/// What a call that transfers no data came to: the error with the error
/// number where it failed, nothing otherwise.
pub open spec fn os_outcome(ret: int, errno: i32) -> Result<(), OsError> {
    if os_failed(ret) {
        Err(OsError::Errno { errno })
    } else {
        Ok(())
    }
}

impl SessionState {
    /// The handle that the session holds, if any.
    pub open spec fn handle(self) -> Option<i32> {
        match self {
            SessionState::Open { fd, .. } => Some(fd),
            _ => None,
        }
    }

    /// Whether the session is open and was last told to count.
    pub open spec fn is_enabled(self) -> bool {
        self matches SessionState::Open { enabled, .. } && enabled
    }

    /// Why the session cannot be opened or configured in this state; `None`
    /// where it can.
    pub open spec fn setup_violation(self) -> Option<UsageViolation> {
        match self {
            SessionState::Created => None,
            SessionState::Open { .. } => Some(UsageViolation::AlreadyOpen),
            SessionState::Closed => Some(UsageViolation::Closed),
        }
    }

    /// Why the session cannot be controlled or read in this state; `None` where
    /// it can.
    pub open spec fn use_violation(self) -> Option<UsageViolation> {
        match self {
            SessionState::Created => Some(UsageViolation::NotOpen),
            SessionState::Open { .. } => None,
            SessionState::Closed => Some(UsageViolation::Closed),
        }
    }

    /// The state after the operating system answered an open call with `ret`.
    /// A failed call leaves a created session as it was, with no handle.
    pub open spec fn opened(self, ret: i32) -> SessionState {
        if self is Created && !os_failed(ret as int) {
            SessionState::Open { fd: ret, enabled: false }
        } else {
            self
        }
    }

    /// The state after the operating system answered the control call `op`
    /// with `ret`. A failed call changes nothing, and a reset never does.
    pub open spec fn controlled(self, op: ControlOp, ret: i32) -> SessionState {
        match self {
            SessionState::Open { fd, enabled } if !os_failed(ret as int) => match op {
                ControlOp::Enable => SessionState::Open { fd, enabled: true },
                ControlOp::Disable => SessionState::Open { fd, enabled: false },
                ControlOp::Reset => self,
            },
            _ => self,
        }
    }

    /// The state after a close.
    pub open spec fn closed(self) -> SessionState {
        SessionState::Closed
    }

    /// The state after `event`.
    pub open spec fn after(self, event: SessionEvent) -> SessionState {
        match event {
            SessionEvent::Opened { ret } => self.opened(ret),
            SessionEvent::Controlled { op, ret } => self.controlled(op, ret),
            SessionEvent::Closed => self.closed(),
        }
    }

    /// The handle that `event` makes the session give out, if any: only a
    /// close gives one out, and only the handle that the session holds.
    pub open spec fn released_by(self, event: SessionEvent) -> Option<i32> {
        match event {
            SessionEvent::Closed => self.handle(),
            _ => None,
        }
    }

    /// The state after the events of `trace`, in their order.
    pub open spec fn after_all(self, trace: Seq<SessionEvent>) -> SessionState
        decreases trace.len(),
    {
        if trace.len() == 0 {
            self
        } else {
            self.after_all(trace.drop_last()).after(trace.last())
        }
    }

    /// How many handles the session gives out along `trace`.
    pub open spec fn releases(self, trace: Seq<SessionEvent>) -> nat
        decreases trace.len(),
    {
        if trace.len() == 0 {
            0
        } else {
            let before = self.after_all(trace.drop_last());
            let now: nat = if before.released_by(trace.last()) is Some {
                1
            } else {
                0
            };
            self.releases(trace.drop_last()) + now
        }
    }
}

/// A created session that the operating system grants an open moves freely
/// between stopped and counting: the open leaves it open and stopped, an
/// enable that succeeds starts it, a disable that succeeds brings it back to
/// where the open left it, and it can be enabled again. The handle is the one
/// the open returned throughout, and none of these steps is a usage violation.
pub proof fn lemma_lifecycle(fd: i32, enable: i32, disable: i32, again: i32)
    requires
        !os_failed(fd as int),
        !os_failed(enable as int),
        !os_failed(disable as int),
        !os_failed(again as int),
    ensures
        ({
            let created = SessionState::Created;
            let opened = created.opened(fd);
            let enabled = opened.controlled(ControlOp::Enable, enable);
            let disabled = enabled.controlled(ControlOp::Disable, disable);
            let reenabled = disabled.controlled(ControlOp::Enable, again);
            &&& created.setup_violation() is None
            &&& opened == SessionState::Open { fd, enabled: false }
            &&& opened.use_violation() is None
            &&& enabled == SessionState::Open { fd, enabled: true }
            &&& enabled.use_violation() is None
            &&& disabled == opened
            &&& reenabled == enabled
        }),
{
}

/// An open session stays open, with the handle it has, through any run of
/// enable, disable and reset, whatever each of them returned. So on an open
/// session no control operation and no read is ever a usage violation.
pub proof fn lemma_open_stays_open(state: SessionState, trace: Seq<SessionEvent>)
    requires
        state is Open,
        forall|i: int| 0 <= i < trace.len() ==> trace[i] is Controlled,
    ensures
        state.after_all(trace).handle() == state.handle(),
        state.after_all(trace).use_violation() is None,
        state.releases(trace) == 0,
    decreases trace.len(),
{
    if trace.len() > 0 {
        let front = trace.drop_last();
        assert forall|i: int| 0 <= i < front.len() implies front[i] is Controlled by {
            assert(front[i] == trace[i]);
        }
        lemma_open_stays_open(state, front);
        assert(trace.last() == trace[trace.len() - 1]);
    }
}

/// An open that the operating system refused leaves a created session
/// created, with no handle, so that the open can be tried again.
pub proof fn lemma_failed_open_can_be_retried(ret: i32)
    requires
        os_failed(ret as int),
    ensures
        SessionState::Created.opened(ret) == SessionState::Created,
        SessionState::Created.opened(ret).handle() is None,
        SessionState::Created.opened(ret).setup_violation() is None,
{
}

/// Closing gives a handle out at most once: a session that was never opened
/// has none to give, and after a close, whatever the state was, a second close
/// gives out nothing and leaves the session closed.
pub proof fn lemma_close_twice(state: SessionState)
    ensures
        SessionState::Created.released_by(SessionEvent::Closed) is None,
        state.closed().released_by(SessionEvent::Closed) is None,
        state.closed().closed() == state.closed(),
{
}

/// A closed session is at its end: no answer of the operating system and no
/// close moves it, and every operation on it is a usage violation.
pub proof fn lemma_closed_is_terminal(event: SessionEvent)
    ensures
        SessionState::Closed.after(event) == SessionState::Closed,
        SessionState::Closed.setup_violation() == Some(UsageViolation::Closed),
        SessionState::Closed.use_violation() == Some(UsageViolation::Closed),
{
}

/// Whether `event` is an open call that the operating system granted.
pub open spec fn is_granted_open(event: SessionEvent) -> bool {
    event is Opened && !os_failed(event->Opened_ret as int)
}

/// Whether an open call is granted somewhere in `trace`.
pub open spec fn has_granted_open(trace: Seq<SessionEvent>) -> bool {
    exists|i: int| 0 <= i < trace.len() && is_granted_open(#[trigger] trace[i])
}

/// Whether the session is closed somewhere in `trace`.
pub open spec fn has_close(trace: Seq<SessionEvent>) -> bool {
    exists|i: int| 0 <= i < trace.len() && #[trigger] trace[i] is Closed
}

/// A session holds a handle exactly when an open has been granted and no close
/// has happened: whatever the events since its creation, it is closed if one
/// of them was a close, open if none was and an open was granted, and still
/// created otherwise; and it holds a handle exactly while it is open.
pub proof fn lemma_handle_iff_opened_and_not_closed(trace: Seq<SessionEvent>)
    ensures
        SessionState::Created.after_all(trace) is Closed <==> has_close(trace),
        SessionState::Created.after_all(trace) is Open <==> has_granted_open(trace) && !has_close(
            trace,
        ),
        SessionState::Created.after_all(trace).handle() is Some <==> has_granted_open(trace)
            && !has_close(trace),
    decreases trace.len(),
{
    if trace.len() > 0 {
        let front = trace.drop_last();
        let last = trace.last();
        lemma_handle_iff_opened_and_not_closed(front);
        assert(last == trace[trace.len() - 1]);
        assert forall|i: int| 0 <= i < front.len() implies front[i] == trace[i] by {}
        if has_close(front) {
            let i = choose|i: int| 0 <= i < front.len() && #[trigger] front[i] is Closed;
            assert(trace[i] is Closed);
        }
        if has_granted_open(front) {
            let i = choose|i: int| 0 <= i < front.len() && is_granted_open(#[trigger] front[i]);
            assert(is_granted_open(trace[i]));
        }
        if has_close(trace) && !(last is Closed) {
            let i = choose|i: int| 0 <= i < trace.len() && #[trigger] trace[i] is Closed;
            assert(front[i] is Closed);
        }
        if has_granted_open(trace) && !is_granted_open(last) {
            let i = choose|i: int| 0 <= i < trace.len() && is_granted_open(#[trigger] trace[i]);
            assert(is_granted_open(front[i]));
        }
    }
}

/// Along any run of events, from any state, a session gives out a handle at
/// most once, and having given one out it is closed. One that starts out
/// closed gives out none.
pub proof fn lemma_releases_at_most_once(state: SessionState, trace: Seq<SessionEvent>)
    ensures
        state.releases(trace) <= 1,
        state.releases(trace) == 1 ==> state.after_all(trace) is Closed,
        state is Closed ==> state.releases(trace) == 0,
    decreases trace.len(),
{
    if trace.len() > 0 {
        lemma_releases_at_most_once(state, trace.drop_last());
        lemma_closed_stays_closed(state, trace.drop_last());
    }
}

/// A closed session stays closed through any run of events.
pub proof fn lemma_closed_stays_closed(state: SessionState, trace: Seq<SessionEvent>)
    ensures
        state is Closed ==> state.after_all(trace) is Closed,
    decreases trace.len(),
{
    if trace.len() > 0 {
        lemma_closed_stays_closed(state, trace.drop_last());
    }
}

/// A session gives out only a handle that it was given: from its creation on,
/// no run of events makes it give one out unless an open was granted on the
/// way.
pub proof fn lemma_release_needs_granted_open(trace: Seq<SessionEvent>)
    ensures
        SessionState::Created.releases(trace) == 1 ==> has_granted_open(trace),
    decreases trace.len(),
{
    if trace.len() > 0 {
        let front = trace.drop_last();
        lemma_release_needs_granted_open(front);
        lemma_handle_iff_opened_and_not_closed(front);
        if has_granted_open(front) {
            let i = choose|i: int| 0 <= i < front.len() && is_granted_open(#[trigger] front[i]);
            assert(is_granted_open(trace[i]));
        }
    }
}

} // verus!
