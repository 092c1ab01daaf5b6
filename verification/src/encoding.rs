//! What goes to the encoding library and what comes back from it.
//!
//! The encoding library resolves an event name against the processor it runs
//! on. This module prepares the call (the name as a C string, the privilege
//! level, the operating-system layer) and reads its answer (a status, the
//! library's text for it, and the descriptor it filled in).

use vstd::prelude::*;
use vstd::string::*;

use crate::descriptor::EventDescriptor;
use crate::error::EncodingError;
use crate::util::{description_text, pfm_err_description};

verus! {

/// The status with which the encoding library reports success.
pub const PFM_SUCCESS: i32 = 0;

/// The privilege level at which an event is counted by default.
#[derive(Debug, Clone, Copy, PartialEq, Eq, Structural)]
pub enum PrivilegeLevel {
    /// Level 0, the kernel.
    Plm0,
    /// Level 1, where the processor has one.
    Plm1,
    /// Level 2, where the processor has one.
    Plm2,
    /// Level 3, user code.
    Plm3,
    /// The hypervisor.
    PlmH,
}

/// The operating-system layer that an encoding is made for.
#[derive(Debug, Clone, Copy, PartialEq, Eq, Structural)]
pub enum OsLayer {
    /// No layer: the raw hardware encoding.
    Bare,
    /// The perf-event interface, with the modifiers of the hardware.
    PerfEvent,
    /// The perf-event interface, with its own modifiers too: sampling period
    /// and frequency, exclusive access.
    PerfEventExt,
}

/// Whether a C string can carry these bytes: none of them is NUL.
pub open spec fn fits_c_string(bytes: Seq<u8>) -> bool {
    forall|i: int| 0 <= i < bytes.len() ==> bytes[i] != 0
}

/// The C string that carries `bytes`: the bytes, then the terminating NUL.
pub open spec fn c_string(bytes: Seq<u8>) -> Seq<u8> {
    bytes.push(0)
}

/// Tells whether a C string can carry `name`.
pub fn name_fits_c_string(name: &str) -> (fits: bool)
    ensures
        fits == fits_c_string(name.spec_bytes()),
{
    let bytes = name.as_bytes();
    let mut i: usize = 0;
    while i < bytes.len()
        invariant
            i <= bytes.len(),
            bytes@ == name.spec_bytes(),
            forall|j: int| 0 <= j < i ==> bytes@[j] != 0,
        decreases bytes.len() - i,
    {
        if bytes[i] == 0 {
            return false;
        }
        i += 1;
    }
    true
}

/// Marshals an event name for the encoding library.
///
/// A name with a NUL byte in it is rejected; any other name comes back as its
/// bytes followed by one NUL.
pub fn marshal_name(name: &str) -> (r: Result<Vec<u8>, EncodingError>)
    ensures
        match r {
            Ok(v) => fits_c_string(name.spec_bytes()) && v@ == c_string(name.spec_bytes()),
            Err(e) => !fits_c_string(name.spec_bytes()) && e is InvalidName,
        },
{
    if !name_fits_c_string(name) {
        return Err(EncodingError::InvalidName);
    }
    let bytes = name.as_bytes();
    let mut out: Vec<u8> = Vec::new();
    let mut i: usize = 0;
    while i < bytes.len()
        invariant
            i <= bytes.len(),
            out@ == bytes@.subrange(0, i as int),
        decreases bytes.len() - i,
    {
        out.push(bytes[i]);
        assert(out@ == bytes@.subrange(0, i + 1));
        i += 1;
    }
    assert(bytes@.subrange(0, i as int) == bytes@);
    out.push(0);
    Ok(out)
}

/// One call of the encoding library, ready to be made.
#[derive(Debug, PartialEq, Eq)]
pub struct EncodeRequest {
    /// The event name as a C string: its bytes, then one NUL.
    pub name: Vec<u8>,
    pub privilege: PrivilegeLevel,
    pub os: OsLayer,
}

impl EncodeRequest {
    /// Prepares the call that resolves `name`.
    ///
    /// Fails, with `InvalidName`, exactly on a name that holds a NUL byte.
    pub fn new(name: &str, privilege: PrivilegeLevel, os: OsLayer) -> (r: Result<
        EncodeRequest,
        EncodingError,
    >)
        ensures
            match r {
                Ok(req) => {
                    &&& fits_c_string(name.spec_bytes())
                    &&& req.name@ == c_string(name.spec_bytes())
                    &&& req.privilege == privilege
                    &&& req.os == os
                },
                Err(e) => !fits_c_string(name.spec_bytes()) && e is InvalidName,
            },
    {
        match marshal_name(name) {
            Ok(bytes) => Ok(EncodeRequest { name: bytes, privilege, os }),
            Err(e) => Err(e),
        }
    }
}

/// What the encoding library answered to one call.
#[derive(Debug, PartialEq, Eq)]
pub struct EncodeReply {
    /// The status that the call returned.
    pub status: i32,
    /// The library's text for that status, where it gave one that can be read.
    pub text: Option<String>,
    /// The descriptor as the call left it. It means something only where the
    /// status is success.
    pub descriptor: EventDescriptor,
}

impl EncodeReply {
    /// The library's text for the status, as a sequence of characters.
    pub open spec fn text_view(&self) -> Option<Seq<char>> {
        match self.text {
            Some(t) => Some(t@),
            None => None,
        }
    }

    /// Whether the call resolved the name.
    pub open spec fn succeeded(&self) -> bool {
        self.status == PFM_SUCCESS
    }

    /// Reads the answer: the descriptor on success, else the status with its
    /// description.
    pub fn into_descriptor(self) -> (r: Result<EventDescriptor, EncodingError>)
        ensures
            match r {
                Ok(d) => self.succeeded() && d == self.descriptor,
                Err(EncodingError::Library { code, description }) => {
                    &&& !self.succeeded()
                    &&& code == self.status
                    &&& description@ == description_text(self.text_view())
                },
                Err(EncodingError::InvalidName) => false,
            },
    {
        if self.status != PFM_SUCCESS {
            let description = match &self.text {
                Some(t) => pfm_err_description(Some(t.as_str())),
                None => pfm_err_description(None),
            };
            Err(EncodingError::Library { code: self.status, description })
        } else {
            Ok(self.descriptor)
        }
    }
}

} // verus!
