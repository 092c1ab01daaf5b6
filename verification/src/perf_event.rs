//! One counting session: a descriptor, and the handle that the operating
//! system gave for it once it was opened.
//!
//! A session is created from the encoding library's answer for an event name,
//! opened once against a target, then enabled, disabled, reset and read in any
//! order, and closed at the end. Every operation that needs the operating
//! system has a request half, which either names the call to make or says why
//! the operation is a usage violation, and a completion half, which takes what
//! the call returned.

use vstd::prelude::*;
use vstd::string::*;

use crate::descriptor::EventDescriptor;
use crate::encoding::{
    c_string, fits_c_string, name_fits_c_string, EncodeReply, EncodeRequest, OsLayer,
    PrivilegeLevel,
};
use crate::error::{EncodingError, OsError, UsageViolation};
use crate::state::{os_failed, os_outcome, ControlOp, SessionState};
use crate::util::description_text;

verus! {

/// The number of bytes of one reading: the count and the two time totals,
/// eight bytes each.
pub const READ_LEN: usize = 24;

/// One reading of a counter.
#[derive(Copy, Clone, Debug, PartialEq, Eq, Structural)]
pub struct PerfEventValue {
    /// The count as accumulated so far.
    pub value: i64,
    /// The total time the event has been enabled.
    pub time_enabled: i64,
    /// The total time the event has been on the hardware, in the same unit.
    pub time_running: i64,
}

/// The open call to make for a session.
#[derive(Copy, Clone, Debug, PartialEq, Eq, Structural)]
pub struct OpenRequest {
    /// The descriptor to pass.
    pub descriptor: EventDescriptor,
    /// The task to count in: 0 for the calling one, -1 for any.
    pub pid: i32,
    /// The processor to count on, -1 for any.
    pub cpu: i32,
    /// The group leader: always -1, none.
    pub group_fd: i32,
    /// The flags of the call: always 0.
    pub flags: u64,
}

/// The control call to make on a session's handle.
#[derive(Copy, Clone, Debug, PartialEq, Eq, Structural)]
pub struct ControlRequest {
    /// The handle to make the call on.
    pub fd: i32,
    /// Which control call to make.
    pub op: ControlOp,
    /// The argument of the call: always 0.
    pub arg: u32,
}

/// The read to make on a session's handle: one read of `len` bytes, which the
/// operating system fills with the count, the time enabled and the time
/// running, in this order. A read that returns less has delivered no reading.
#[derive(Copy, Clone, Debug, PartialEq, Eq, Structural)]
pub struct ReadRequest {
    /// The handle to read from.
    pub fd: i32,
    /// The number of bytes to ask for.
    pub len: usize,
}

/// What a read that returned `ret` came to. `counts` is the buffer that the
/// read was given: it holds a reading only where the read returned the length
/// of one.
pub open spec fn read_outcome(ret: int, errno: i32, counts: Seq<i64>) -> Result<
    PerfEventValue,
    OsError,
> {
    if ret == READ_LEN {
        Ok(PerfEventValue { value: counts[0], time_enabled: counts[1], time_running: counts[2] })
    } else if os_failed(ret) {
        Err(OsError::Errno { errno })
    } else {
        Err(OsError::IncompleteRead { returned: ret as isize })
    }
}

/// What a session is, to its contracts.
pub struct SessionView {
    pub descriptor: EventDescriptor,
    pub state: SessionState,
}

/// One counting session.
///
/// The handle is owned by the session alone: the type cannot be copied, and
/// `close` gives the handle out exactly once.
#[derive(Debug)]
pub struct PerfEvent {
    descriptor: EventDescriptor,
    state: SessionState,
}

impl View for PerfEvent {
    type V = SessionView;

    closed spec fn view(&self) -> SessionView {
        SessionView { descriptor: self.descriptor, state: self.state }
    }
}

impl PerfEvent {
    /// A session's descriptor always asks for both time totals and always
    /// starts the counter stopped.
    #[verifier::type_invariant]
    spec fn well_formed(self) -> bool {
        self.descriptor.is_prepared()
    }

    /// Prepares the call of the encoding library that a session for `name`
    /// starts from: the name as a C string, counted at user level, encoded for
    /// the perf-event interface with its own modifiers.
    ///
    /// Fails, with `InvalidName`, exactly on a name that holds a NUL byte.
    pub fn encode_request(name: &str) -> (r: Result<EncodeRequest, EncodingError>)
        ensures
            match r {
                Ok(req) => {
                    &&& fits_c_string(name.spec_bytes())
                    &&& req.name@ == c_string(name.spec_bytes())
                    &&& req.privilege == PrivilegeLevel::Plm3
                    &&& req.os == OsLayer::PerfEventExt
                },
                Err(e) => !fits_c_string(name.spec_bytes()) && e is InvalidName,
            },
    {
        EncodeRequest::new(name, PrivilegeLevel::Plm3, OsLayer::PerfEventExt)
    }

    /// Creates the session for `name` from the encoding library's answer.
    ///
    /// The session starts in `Created`, with the answer's descriptor prepared:
    /// both time totals asked for, the counter stopped, inheritance as given,
    /// kernel mode counted until `set_exclude_kernel` says otherwise.
    /// A name that cannot be marshalled fails with `InvalidName`, whatever the
    /// answer; a status other than success fails with the status and its
    /// description.
    pub fn new(name: &str, inherit: bool, reply: EncodeReply) -> (r: Result<
        PerfEvent,
        EncodingError,
    >)
        ensures
            match r {
                Ok(event) => {
                    &&& fits_c_string(name.spec_bytes())
                    &&& reply.succeeded()
                    &&& event@.descriptor == reply.descriptor.prepared(inherit)
                    &&& event@.state == SessionState::Created
                },
                Err(EncodingError::InvalidName) => !fits_c_string(name.spec_bytes()),
                Err(EncodingError::Library { code, description }) => {
                    &&& fits_c_string(name.spec_bytes())
                    &&& !reply.succeeded()
                    &&& code == reply.status
                    &&& description@ == description_text(reply.text_view())
                },
            },
    {
        if !name_fits_c_string(name) {
            return Err(EncodingError::InvalidName);
        }
        match reply.into_descriptor() {
            Ok(encoded) => Ok(
                PerfEvent { descriptor: encoded.prepare(inherit), state: SessionState::Created },
            ),
            Err(e) => Err(e),
        }
    }

    /// The state of the session.
    pub fn state(&self) -> (s: SessionState)
        ensures
            s == self@.state,
    {
        self.state
    }

    /// The descriptor of the session.
    pub fn descriptor(&self) -> (d: EventDescriptor)
        ensures
            d == self@.descriptor,
            d.is_prepared(),
    {
        proof {
            use_type_invariant(self);
        }
        self.descriptor
    }

    /// The handle of the session, if it holds one.
    pub fn fd(&self) -> (fd: Option<i32>)
        ensures
            fd == self@.state.handle(),
    {
        match self.state {
            SessionState::Open { fd, .. } => Some(fd),
            _ => None,
        }
    }

    /// Whether the session is open.
    pub fn is_open(&self) -> (b: bool)
        ensures
            b == (self@.state is Open),
    {
        match self.state {
            SessionState::Open { .. } => true,
            _ => false,
        }
    }

    /// Whether the session is open and was last told to count.
    pub fn is_enabled(&self) -> (b: bool)
        ensures
            b == self@.state.is_enabled(),
    {
        match self.state {
            SessionState::Open { enabled, .. } => enabled,
            _ => false,
        }
    }

    /// Sets whether kernel mode is left out of the count, from the lowest bit
    /// of `val`.
    ///
    /// The descriptor can change only before the session is opened. Later the
    /// call is a usage violation and changes nothing.
    pub fn set_exclude_kernel(&mut self, val: u64) -> (r: Result<(), UsageViolation>)
        ensures
            final(self)@.state == old(self)@.state,
            match r {
                Ok(()) => {
                    &&& old(self)@.state is Created
                    &&& final(self)@.descriptor == old(self)@.descriptor.with_exclude_kernel(
                        val % 2 == 1,
                    )
                },
                Err(v) => {
                    &&& old(self)@.state.setup_violation() == Some(v)
                    &&& final(self)@.descriptor == old(self)@.descriptor
                },
            },
    {
        proof {
            use_type_invariant(&*self);
        }
        match self.state {
            SessionState::Created => {
                self.descriptor.flags.exclude_kernel = val % 2 == 1;
                Ok(())
            },
            SessionState::Open { .. } => Err(UsageViolation::AlreadyOpen),
            SessionState::Closed => Err(UsageViolation::Closed),
        }
    }

    /// Names the open call for the target `pid` on processor `cpu`.
    ///
    /// Only a created session can be opened. The target is passed on as it is:
    /// which pairs of `pid` and `cpu` are acceptable is for the operating
    /// system to say.
    pub fn open_request(&self, pid: i32, cpu: i32) -> (r: Result<OpenRequest, UsageViolation>)
        ensures
            match r {
                Ok(req) => {
                    &&& self@.state is Created
                    &&& req == (OpenRequest {
                        descriptor: self@.descriptor,
                        pid,
                        cpu,
                        group_fd: -1i32,
                        flags: 0u64,
                    })
                    &&& req.descriptor.is_prepared()
                },
                Err(v) => self@.state.setup_violation() == Some(v),
            },
    {
        proof {
            use_type_invariant(self);
        }
        match self.state {
            SessionState::Created => Ok(
                OpenRequest { descriptor: self.descriptor, pid, cpu, group_fd: -1, flags: 0 },
            ),
            SessionState::Open { .. } => Err(UsageViolation::AlreadyOpen),
            SessionState::Closed => Err(UsageViolation::Closed),
        }
    }

    /// Completes an open: `ret` is what the open call returned, `errno` the
    /// error number after it.
    ///
    /// On success the session holds the handle `ret`, with the counter stopped.
    /// On failure it stays created, without a handle, and may be opened again.
    pub fn open(&mut self, ret: i32, errno: i32) -> (r: Result<(), OsError>)
        requires
            old(self)@.state is Created,
        ensures
            final(self)@.descriptor == old(self)@.descriptor,
            final(self)@.state == old(self)@.state.opened(ret),
            r == os_outcome(ret as int, errno),
    {
        proof {
            use_type_invariant(&*self);
        }
        if ret == -1 {
            Err(OsError::Errno { errno })
        } else {
            self.state = SessionState::Open { fd: ret, enabled: false };
            Ok(())
        }
    }

    /// Names the control call `op`. Only an open session can be controlled.
    pub fn control_request(&self, op: ControlOp) -> (r: Result<ControlRequest, UsageViolation>)
        ensures
            match r {
                Ok(req) => {
                    &&& self@.state.handle() == Some(req.fd)
                    &&& req.op == op
                    &&& req.arg == 0
                },
                Err(v) => self@.state.use_violation() == Some(v),
            },
    {
        match self.state {
            SessionState::Created => Err(UsageViolation::NotOpen),
            SessionState::Open { fd, .. } => Ok(ControlRequest { fd, op, arg: 0 }),
            SessionState::Closed => Err(UsageViolation::Closed),
        }
    }

    /// Completes the control call `op` with what it returned.
    fn control(&mut self, op: ControlOp, ret: i32, errno: i32) -> (r: Result<(), OsError>)
        requires
            old(self)@.state is Open,
        ensures
            final(self)@.descriptor == old(self)@.descriptor,
            final(self)@.state == old(self)@.state.controlled(op, ret),
            r == os_outcome(ret as int, errno),
    {
        proof {
            use_type_invariant(&*self);
        }
        if ret == -1 {
            return Err(OsError::Errno { errno });
        }
        match self.state {
            SessionState::Open { fd, enabled } => {
                let now: bool = match op {
                    ControlOp::Enable => true,
                    ControlOp::Disable => false,
                    ControlOp::Reset => enabled,
                };
                self.state = SessionState::Open { fd, enabled: now };
            },
            _ => {},
        }
        Ok(())
    }

    /// Completes an enable: `ret` is what the control call returned, `errno`
    /// the error number after it. On success the counter accumulates from here
    /// on; the count so far stays. On failure nothing changes.
    pub fn enable(&mut self, ret: i32, errno: i32) -> (r: Result<(), OsError>)
        requires
            old(self)@.state is Open,
        ensures
            final(self)@.descriptor == old(self)@.descriptor,
            final(self)@.state == old(self)@.state.controlled(ControlOp::Enable, ret),
            r == os_outcome(ret as int, errno),
    {
        self.control(ControlOp::Enable, ret, errno)
    }

    /// Completes a disable: `ret` is what the control call returned, `errno`
    /// the error number after it. On success the counter stands still; the
    /// count so far stays. On failure nothing changes.
    pub fn disable(&mut self, ret: i32, errno: i32) -> (r: Result<(), OsError>)
        requires
            old(self)@.state is Open,
        ensures
            final(self)@.descriptor == old(self)@.descriptor,
            final(self)@.state == old(self)@.state.controlled(ControlOp::Disable, ret),
            r == os_outcome(ret as int, errno),
    {
        self.control(ControlOp::Disable, ret, errno)
    }

    /// Completes a reset: `ret` is what the control call returned, `errno` the
    /// error number after it. The session is as before either way: a reset
    /// zeroes the count and neither starts nor stops the counter.
    pub fn reset(&mut self, ret: i32, errno: i32) -> (r: Result<(), OsError>)
        requires
            old(self)@.state is Open,
        ensures
            final(self)@ == old(self)@,
            final(self)@.state == old(self)@.state.controlled(ControlOp::Reset, ret),
            r == os_outcome(ret as int, errno),
    {
        self.control(ControlOp::Reset, ret, errno)
    }

    /// Names the read. Only an open session can be read; whether it is enabled
    /// does not matter.
    pub fn read_request(&self) -> (r: Result<ReadRequest, UsageViolation>)
        ensures
            match r {
                Ok(req) => self@.state.handle() == Some(req.fd) && req.len == READ_LEN,
                Err(v) => self@.state.use_violation() == Some(v),
            },
    {
        match self.state {
            SessionState::Created => Err(UsageViolation::NotOpen),
            SessionState::Open { fd, .. } => Ok(ReadRequest { fd, len: READ_LEN }),
            SessionState::Closed => Err(UsageViolation::Closed),
        }
    }

    /// Completes a read: `ret` is what the read returned, `errno` the error
    /// number after it, `counts` the buffer that the read was given.
    ///
    /// Only a read that delivered a whole reading gives one: the count, the
    /// time enabled and the time running, taken from `counts` in this order.
    /// A failed read gives the error number. A read that returned anything
    /// else has not filled `counts`, and gives `IncompleteRead` and never a
    /// reading.
    pub fn read(&self, ret: isize, errno: i32, counts: &[i64; 3]) -> (r: Result<
        PerfEventValue,
        OsError,
    >)
        requires
            self@.state is Open,
        ensures
            r is Ok <==> ret == READ_LEN,
            r == read_outcome(ret as int, errno, counts@),
    {
        if ret == READ_LEN as isize {
            Ok(
                PerfEventValue {
                    value: counts[0],
                    time_enabled: counts[1],
                    time_running: counts[2],
                },
            )
        } else if ret == -1 {
            Err(OsError::Errno { errno })
        } else {
            Err(OsError::IncompleteRead { returned: ret })
        }
    }

    /// Closes the session and gives out the handle to give back to the
    /// operating system, if the session holds one.
    ///
    /// Never fails. A session that was never opened, or is closed already, has
    /// no handle to give out.
    pub fn close(&mut self) -> (fd: Option<i32>)
        ensures
            fd == old(self)@.state.handle(),
            final(self)@.state == old(self)@.state.closed(),
            final(self)@.descriptor == old(self)@.descriptor,
    {
        proof {
            use_type_invariant(&*self);
        }
        let fd = match self.state {
            SessionState::Open { fd, .. } => Some(fd),
            _ => None,
        };
        self.state = SessionState::Closed;
        fd
    }
}

} // verus!
