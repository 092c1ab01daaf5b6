//! Whether the encoding library has been brought up.

use vstd::prelude::*;
use vstd::string::*;

use crate::encoding::PFM_SUCCESS;
use crate::error::EncodingError;
use crate::util::{description_text, pfm_err_description};

verus! {

/// The state of the encoding library: not yet initialized, or initialized.
///
/// The library has to be initialized before the first event name is resolved.
#[derive(Debug)]
pub struct Perfmon {
    pub initialized: bool,
}

impl Default for Perfmon {
    /// The state before any initialization.
    fn default() -> (p: Self)
        ensures
            !p.initialized,
    {
        Perfmon { initialized: false }
    }
}

impl Perfmon {
    /// Whether an initialization that returned `errno` counts as a success: it
    /// does if the library was initialized before, or if the call succeeded.
    pub open spec fn initialize_succeeds(self, errno: i32) -> bool {
        self.initialized || errno == PFM_SUCCESS
    }

    /// The state after an initialization that returned `errno`.
    pub open spec fn after_initialize(self, errno: i32) -> Perfmon {
        Perfmon { initialized: self.initialize_succeeds(errno) }
    }

    /// Completes an initialization: `errno` is the status that the library's
    /// initializer returned, `text` the library's text for that status, where
    /// it gave one.
    ///
    /// The first success initializes. Once initialized, every further call
    /// succeeds and changes nothing, whatever status it is given. A failure
    /// before that leaves the library uninitialized and carries the status
    /// with its description.
    pub fn initialize(&mut self, errno: i32, text: Option<&str>) -> (r: Result<(), EncodingError>)
        ensures
            *final(self) == old(self).after_initialize(errno),
            match r {
                Ok(()) => old(self).initialize_succeeds(errno),
                Err(EncodingError::Library { code, description }) => {
                    &&& !old(self).initialize_succeeds(errno)
                    &&& code == errno
                    &&& description@ == description_text(
                        match text {
                            Some(t) => Some(t@),
                            None => None,
                        },
                    )
                },
                Err(EncodingError::InvalidName) => false,
            },
    {
        if self.initialized {
            Ok(())
        } else if errno == PFM_SUCCESS {
            self.initialized = true;
            Ok(())
        } else {
            Err(EncodingError::Library { code: errno, description: pfm_err_description(text) })
        }
    }

    /// Initialization is idempotent: once one initialization has succeeded, a
    /// second one succeeds too, whatever status it is given, and leaves the
    /// state as the first did.
    pub proof fn lemma_initialize_twice(self, first: i32, second: i32)
        requires
            self.initialize_succeeds(first),
        ensures
            self.after_initialize(first).initialize_succeeds(second),
            self.after_initialize(first).after_initialize(second) == self.after_initialize(first),
            self.after_initialize(first).initialized,
    {
    }
}

} // verus!
