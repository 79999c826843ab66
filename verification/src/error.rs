//! Why a request failed.

use vstd::prelude::*;

verus! {

/// The classes of failure.
#[derive(Clone, Copy, Debug, PartialEq, Eq, Structural)]
pub enum ErrorKind {
    /// The input path is missing or names nothing that can be compressed.
    InvalidInput,
    /// The output directory is missing or is no directory.
    InvalidOutput,
    /// No backend goes by the requested name.
    UnknownAlgorithm,
    /// The packer was handed a path that does not exist.
    PathNotFound,
    /// The executable of the external tool was not found.
    BackendNotFound,
    /// The external tool could not be started or followed for another reason.
    BackendInvocationFailed,
    /// The external tool ran and reported failure.
    BackendExitFailure,
    /// The intermediate archive of a directory could not be made.
    PackingFailed,
    /// The intermediate archive could not be removed. Never the failure of a
    /// request: a warning beside its result.
    CleanupWarning,
}

/// A failure: its class and a message for the user.
#[derive(Debug, PartialEq, Eq)]
pub struct ErrorDetail {
    pub kind: ErrorKind,
    pub message: String,
}

/// What the contracts say of an `ErrorDetail`.
pub struct ErrorView {
    pub kind: ErrorKind,
    pub message: Seq<char>,
}

impl View for ErrorDetail {
    type V = ErrorView;

    open spec fn view(&self) -> ErrorView {
        ErrorView { kind: self.kind, message: self.message@ }
    }
}

impl Clone for ErrorDetail {
    fn clone(&self) -> (r: Self)
        ensures
            r@ == self@,
    {
        ErrorDetail { kind: self.kind, message: self.message.clone() }
    }
}

impl ErrorDetail {
    /// A failure of class `kind` with the message `message`.
    pub fn new(kind: ErrorKind, message: String) -> (r: ErrorDetail)
        ensures
            r@ == (ErrorView { kind, message: message@ }),
    {
        ErrorDetail { kind, message }
    }
}

/// The view of a failure that may be there.
pub open spec fn detail_view(e: Option<ErrorDetail>) -> Option<ErrorView> {
    match e {
        Some(e) => Some(e@),
        None => None,
    }
}

/// The view of the result of a step that yields nothing on success.
pub open spec fn outcome_view(r: Result<(), ErrorDetail>) -> Result<(), ErrorView> {
    match r {
        Ok(_) => Ok(()),
        Err(e) => Err(e@),
    }
}

/// A copy of `r`.
pub fn copy_outcome(r: &Result<(), ErrorDetail>) -> (c: Result<(), ErrorDetail>)
    ensures
        outcome_view(c) == outcome_view(*r),
{
    match r {
        Ok(_) => Ok(()),
        Err(e) => Err(e.clone()),
    }
}

} // verus!
