//! A sans-I/O core for counting one hardware or software performance event.
//!
//! The crate never touches the operating system or the event-encoding library.
//! Each operation comes in two halves: a *request* that says which outside call
//! has to be made (or that the call is a usage violation in the session's
//! present state), and a *completion* that takes what the call returned and
//! moves the session on. The caller performs the call in between.

pub mod descriptor;
pub mod encoding;
pub mod error;
pub mod perf_event;
pub mod perfmon;
pub mod state;
pub mod util;

pub use descriptor::{EventDescriptor, EventFlags};
pub use error::{EncodingError, OsError, UsageViolation};
pub use perf_event::PerfEvent;
pub use perf_event::PerfEventValue;
pub use perfmon::Perfmon;
pub use state::{ControlOp, SessionEvent, SessionState};
