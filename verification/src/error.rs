//! The error taxonomy of the contract.

use vstd::prelude::*;

verus! {

/// Why an operation on the contract was refused.
///
/// Every error aborts the call with no state mutation.
#[derive(Clone, Copy, Debug, PartialEq, Eq, Structural)]
pub enum ContractError {
    /// The caller is not the recorded owner.
    Unauthorized,
    /// `Reflect` was invoked with an empty message list.
    EmptyMessages,
    /// The submitted reflectee address is not syntactically valid.
    InvalidAddress,
    /// No state has been persisted yet; unreachable after a successful
    /// instantiation.
    NotFound,
}

} // verus!
