//! Failures of native code.

use vstd::prelude::*;
use vstd::string::StringExecFns;

verus! {

/// Why the native code of a built-in operation did not return a value.
#[derive(Clone, Debug, PartialEq, Eq)]
pub enum ExecutionError {
    /// The operation named here brought no native code to run. This is a fault of the
    /// machine or of the operation, not of the program that runs.
    StgOnly(String),
    /// The native code itself failed, for the reason given.
    Native(String),
}

impl ExecutionError {
    /// The failure in words, as a mathematical value.
    pub open spec fn spec_message(self) -> Seq<char> {
        match self {
            ExecutionError::StgOnly(name) => name@ + " is STG-only"@,
            ExecutionError::Native(reason) => reason@,
        }
    }

    /// The failure in words.
    pub fn message(&self) -> (text: String)
        ensures
            text@ == self.spec_message(),
    {
        match self {
            ExecutionError::StgOnly(name) => name.clone().concat(" is STG-only"),
            ExecutionError::Native(reason) => reason.clone(),
        }
    }
}

} // verus!
