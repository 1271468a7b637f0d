//! The request messages the host runtime hands to the handlers. The host
//! owns parsing and encoding; the handlers see only these plain values.

use vstd::prelude::*;

verus! {

/// The one-time initialization request: the admin identifier as the caller
/// supplied it, before the host's addressing rules have judged it.
pub struct InstantiateMsg {
    pub admin_address: String,
}

/// A state-changing request: create a poll or vote on one.
pub enum ExecuteMsg {
    CreatePoll { question: String },
    Vote { question: String, choice: String },
}

/// A read request. No query is implemented; every query fails.
pub struct QueryMsg {}

} // verus!
