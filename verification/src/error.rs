use vstd::prelude::*;

verus! {

/// Why text coming from the native layer could not be handed to the caller.
#[derive(Clone, Copy, Debug, PartialEq, Eq, Structural)]
pub enum ErrorReason {
    /// The native getter returned no string at all (a null pointer).
    NullPtr,
    /// The native bytes are not well-formed UTF-8 text.
    Utf8Error,
}

/// The error surfaced by every text-returning accessor.
///
/// These are the only recoverable failures in the crate: an optional native
/// string may be absent, or its bytes may fail text validation.
#[derive(Clone, Copy, Debug, PartialEq, Eq, Structural)]
pub struct Error {
    reason: ErrorReason,
}

impl Error {
    /// The reason carried by this error, for use in specifications.
    pub closed spec fn spec_reason(&self) -> ErrorReason {
        self.reason
    }

    /// An error reporting that an optional native string was absent.
    pub fn null_ptr() -> (r: Self)
        ensures
            r.spec_reason() == ErrorReason::NullPtr,
    {
        Self { reason: ErrorReason::NullPtr }
    }

    /// An error reporting that native bytes were not valid UTF-8.
    pub fn utf8_error() -> (r: Self)
        ensures
            r.spec_reason() == ErrorReason::Utf8Error,
    {
        Self { reason: ErrorReason::Utf8Error }
    }

    /// The reason carried by this error.
    pub fn reason(&self) -> (r: ErrorReason)
        ensures
            r == self.spec_reason(),
    {
        self.reason
    }

    /// A short human-readable description of the error.
    pub fn message(&self) -> (r: &'static str)
        ensures
            self.spec_reason() == ErrorReason::NullPtr ==> r@ == "null string pointer"@,
            self.spec_reason() == ErrorReason::Utf8Error ==> r@ == "utf8 conversion error"@,
    {
        match self.reason {
            ErrorReason::NullPtr => "null string pointer",
            ErrorReason::Utf8Error => "utf8 conversion error",
        }
    }
}

} // verus!
