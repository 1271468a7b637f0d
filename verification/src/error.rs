//! The errors a poll operation can report. Every failure aborts its
//! operation without touching the store.

use vstd::prelude::*;

verus! {

/// Why an operation was refused. Each handler's contract says exactly which
/// inputs produce which variant.
#[derive(Clone, Copy, Debug, PartialEq, Eq, Structural)]
pub enum ContractError {
    /// The host's addressing rules rejected the admin identifier.
    InvalidAddress,
    /// A poll with this question already exists; nothing was written.
    DuplicateKey,
    /// No poll with this question exists; nothing was written.
    NotFound,
    /// The vote choice was neither `"yes"` nor `"no"`; nothing was written.
    InvalidChoice,
    /// The query path is not implemented.
    Unimplemented,
}

impl ContractError {
    /// A short human-readable description of the error.
    pub fn message(&self) -> (r: &'static str)
        ensures
            *self is InvalidAddress ==> r@ == "Invalid admin address!"@,
            *self is DuplicateKey ==> r@ == "Key already taken!"@,
            *self is NotFound ==> r@ == "Poll does not exist"@,
            *self is InvalidChoice ==> r@ == "Unrecognized choice!"@,
            *self is Unimplemented ==> r@ == "Not implemented"@,
    {
        match self {
            ContractError::InvalidAddress => "Invalid admin address!",
            ContractError::DuplicateKey => "Key already taken!",
            ContractError::NotFound => "Poll does not exist",
            ContractError::InvalidChoice => "Unrecognized choice!",
            ContractError::Unimplemented => "Not implemented",
        }
    }
}

} // verus!
