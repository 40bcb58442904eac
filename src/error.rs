use vstd::prelude::*;

verus! {

/// Why an operation on a registry was refused. A refused operation changes nothing.
#[derive(Clone, Copy, PartialEq, Eq, Structural, Debug)]
pub enum ContractError {
    /// No record is stored under the requested id.
    NotFound,
    /// The record is not in the lifecycle stage the operation needs.
    InvalidState,
    /// The caller is not the principal the operation needs.
    Unauthorized,
}

} // verus!
