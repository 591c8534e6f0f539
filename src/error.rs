use vstd::prelude::*;

verus! {

/// Errors of the execute and instantiate operations.
#[derive(Debug, Clone, PartialEq, Eq)]
pub enum ContractError {
    /// The caller fails the authorization check of the operation.
    Unauthorized,
    /// The host rejected an identity; `msg` is the host's reason.
    InvalidAddress { msg: String },
    /// The counter would leave the range of `i32`.
    Overflow,
}

} // verus!
