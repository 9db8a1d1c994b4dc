//! The error kinds that plugins and the core report.

use vstd::prelude::*;

verus! {

/// Why an operation on an encoder or a demuxer did not succeed.
#[derive(Clone, Copy, Debug, PartialEq, Eq, Structural)]
pub enum ErrorKind {
    /// Validation found that a required option was never set.
    NotConfigured,
    /// A streaming call was made before the instance was made ready for it.
    NotReady,
    /// The option key, or the pairing of key and value, is unknown to the plugin.
    UnsupportedOption,
    /// The option key is known, but the value does not have the shape it expects.
    InvalidValue,
    /// More input has to be supplied before any output can be produced.
    MoreDataNeeded,
    /// The bytes do not form what the format expects.
    InvalidData,
    /// No further output will ever be produced.
    Eof,
}

impl ErrorKind {
    /// Whether the caller may supply more input and try again.
    ///
    /// Every other kind is terminal for the instance that reported it.
    pub open spec fn transient(self) -> bool {
        self is MoreDataNeeded
    }

    /// Tells whether the operation may be retried once more input is there.
    pub fn is_transient(&self) -> (retry: bool)
        ensures
            retry == self.transient(),
    {
        match self {
            ErrorKind::MoreDataNeeded => true,
            _ => false,
        }
    }
}

} // verus!
