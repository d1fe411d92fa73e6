//! The refusals of the authorization engine.

use vstd::prelude::*;

verus! {

/// Why an operation on a group or on one of its proposals was refused.
///
/// A refused operation changes nothing.
#[derive(Clone, Copy, Debug, PartialEq, Eq, Structural)]
pub enum MultiSigError {
    /// The caller is not a current owner where an owner is required.
    Unauthorized,
    /// The threshold is zero or greater than the number of owners.
    InvalidThreshold,
    /// The principal is already an owner, or a list of owners names one twice.
    DuplicateOwner,
    /// The principal to remove is not an owner.
    OwnerNotFound,
    /// Removing the owner would leave fewer owners than the threshold asks for.
    ThresholdViolation,
    /// The proposal is not in the state that the operation needs, or the
    /// group has no proposal under the identifier given.
    InvalidState,
    /// The caller has approved the proposal before.
    AlreadyApproved,
    /// The proposal has fewer approvals than its threshold asks for.
    QuorumNotMet,
}

} // verus!
