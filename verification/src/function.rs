//! The function selector that the host supplies when it opens a session.

use vstd::prelude::*;

verus! {

/// Selector value for erasing.
pub const FUNCTION_ERASE: u32 = 1;

/// Selector value for programming.
pub const FUNCTION_PROGRAM: u32 = 2;

/// Selector value for verifying.
pub const FUNCTION_VERIFY: u32 = 3;

/// The work that a session is opened for.
#[derive(Debug, Copy, Clone, PartialEq, Eq, Hash)]
pub enum Function {
    Erase,
    Program,
    Verify,
}

/// Whether `code` is one of the selector values that a host may send.
pub open spec fn is_function_code(code: u32) -> bool {
    code == FUNCTION_ERASE || code == FUNCTION_PROGRAM || code == FUNCTION_VERIFY
}

/// The function that a selector value stands for, if any.
pub open spec fn function_of(code: u32) -> Option<Function> {
    if code == FUNCTION_ERASE {
        Some(Function::Erase)
    } else if code == FUNCTION_PROGRAM {
        Some(Function::Program)
    } else if code == FUNCTION_VERIFY {
        Some(Function::Verify)
    } else {
        None
    }
}

impl Function {
    /// The selector value of this function.
    pub open spec fn spec_code(self) -> u32 {
        match self {
            Function::Erase => FUNCTION_ERASE,
            Function::Program => FUNCTION_PROGRAM,
            Function::Verify => FUNCTION_VERIFY,
        }
    }

    /// The selector value of this function.
    pub fn code(self) -> (code: u32)
        ensures
            code == self.spec_code(),
            function_of(code) == Some(self),
    {
        match self {
            Function::Erase => FUNCTION_ERASE,
            Function::Program => FUNCTION_PROGRAM,
            Function::Verify => FUNCTION_VERIFY,
        }
    }

    /// Decodes a selector value: 1 is erase, 2 is program, 3 is verify, and
    /// every other value stands for nothing.
    pub fn from_code(code: u32) -> (function: Option<Function>)
        ensures
            function == function_of(code),
            function is Some <==> is_function_code(code),
            function matches Some(f) ==> f.spec_code() == code,
    {
        if code == FUNCTION_ERASE {
            Some(Function::Erase)
        } else if code == FUNCTION_PROGRAM {
            Some(Function::Program)
        } else if code == FUNCTION_VERIFY {
            Some(Function::Verify)
        } else {
            None
        }
    }
}

} // verus!
