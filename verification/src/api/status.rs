//! The outcome categories that a foreign caller branches on.

use vstd::prelude::*;

verus! {

/// The outcome of an operation as the foreign caller sees it.
///
/// Callers branch on the integer behind a status, so that integer is part of
/// the interface and never changes: [`FFIResponseStatus::code`] gives it.
#[derive(Clone, Copy, Debug, PartialEq, Eq, Structural)]
pub enum FFIResponseStatus {
    /// The operation succeeded; the payload is meaningful.
    NoError,
    /// The operation failed in a way that no rule attributes to either side.
    UnclassifiedError,
    /// The caller handed in something invalid or exceeded a limit it controls.
    CallerError,
    /// The service itself became inconsistent or could not finish a write.
    ReceiverError,
}

impl FFIResponseStatus {
    /// The integer of a status.
    pub open spec fn spec_code(self) -> i32 {
        match self {
            FFIResponseStatus::NoError => 0i32,
            FFIResponseStatus::UnclassifiedError => 1i32,
            FFIResponseStatus::CallerError => 2i32,
            FFIResponseStatus::ReceiverError => 3i32,
        }
    }

    /// The integer that crosses the boundary for this status.
    #[verifier::when_used_as_spec(spec_code)]
    pub fn code(self) -> (code: i32)
        ensures
            code == self.spec_code(),
    {
        match self {
            FFIResponseStatus::NoError => 0,
            FFIResponseStatus::UnclassifiedError => 1,
            FFIResponseStatus::CallerError => 2,
            FFIResponseStatus::ReceiverError => 3,
        }
    }

    /// The status that `code` stands for, if it stands for one.
    pub fn from_code(code: i32) -> (status: Option<FFIResponseStatus>)
        ensures
            status is Some <==> 0 <= code <= 3,
            status matches Some(s) ==> s.code() == code,
    {
        if code == 0 {
            Some(FFIResponseStatus::NoError)
        } else if code == 1 {
            Some(FFIResponseStatus::UnclassifiedError)
        } else if code == 2 {
            Some(FFIResponseStatus::CallerError)
        } else if code == 3 {
            Some(FFIResponseStatus::ReceiverError)
        } else {
            None
        }
    }
}

/// The integer identifies the status: two statuses with one code are one
/// status, and success alone has the code zero.
pub proof fn lemma_code_identifies_status(a: FFIResponseStatus, b: FFIResponseStatus)
    ensures
        a.code() == b.code() ==> a == b,
        a.code() == 0 <==> a == FFIResponseStatus::NoError,
{
}

} // verus!
