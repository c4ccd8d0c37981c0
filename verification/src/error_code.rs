//! Status codes handed back to the host.

use vstd::prelude::*;

verus! {

/// Status reported to the host when an operation succeeded.
pub const STATUS_OK: u32 = 0;

/// Status reported to the host when an entry other than `Init` is called
/// while no session is open.
pub const STATUS_NOT_INITIALIZED: u32 = 1;

/// A failure code: a 32-bit value that is never zero.
///
/// Zero means success to the host, so a failure can never be mistaken for it.
#[derive(Clone, Copy, Debug, PartialEq, Eq, Hash)]
pub struct ErrorCode {
    code: u32,
}

impl ErrorCode {
    /// The numeric value of this code.
    pub closed spec fn value(self) -> u32 {
        self.code
    }

    /// Holds of every code that `new` hands out.
    pub open spec fn wf(self) -> bool {
        self.value() != 0
    }

    #[verifier::type_invariant]
    spec fn nonzero(self) -> bool {
        self.code != 0
    }

    /// Makes a failure code of `code`, unless `code` is zero.
    pub fn new(code: u32) -> (r: Option<ErrorCode>)
        ensures
            code == 0 <==> r is None,
            r matches Some(e) ==> e.value() == code && e.wf(),
    {
        if code == 0 {
            None
        } else {
            Some(ErrorCode { code })
        }
    }

    /// The numeric value of this code, which is not zero.
    pub fn get(self) -> (r: u32)
        ensures
            r == self.value(),
            r != 0,
            self.wf(),
    {
        proof {
            use_type_invariant(&self);
        }
        self.code
    }
}

/// The status that the host reads for the outcome of an operation: zero for
/// success, the failure code's value otherwise.
pub open spec fn status_of(outcome: Result<(), ErrorCode>) -> u32 {
    match outcome {
        Ok(_) => STATUS_OK,
        Err(e) => e.value(),
    }
}

/// The status that the host reads for the outcome of an operation.
pub fn status_code(outcome: Result<(), ErrorCode>) -> (status: u32)
    ensures
        status == status_of(outcome),
        status == STATUS_OK <==> outcome is Ok,
{
    match outcome {
        Ok(_) => STATUS_OK,
        Err(e) => e.get(),
    }
}

} // verus!
