//! A group as a state machine: requests as values, and runs of them.

use crate::multi_sig::error::MultiSigError;
use crate::multi_sig::group::GroupView;
use crate::multi_sig::registry::Principal;
use vstd::prelude::*;

verus! {

/// One request against a group, as a value.
pub ghost enum Operation {
    AddOwner { caller: Principal, new_owner: Principal },
    RemoveOwner { caller: Principal, owner: Principal },
    UpdateThreshold { caller: Principal, new_threshold: nat },
    CreateProposal { caller: Principal, instructions: Seq<u8>, created_at: int },
    Approve { caller: Principal, proposal_id: nat },
    Execute { caller: Principal, proposal_id: nat },
    CancelProposal { caller: Principal, proposal_id: nat },
}

impl GroupView {
    /// The group after `op`, or why `op` is refused.
    pub open spec fn attempt(self, op: Operation) -> Result<GroupView, MultiSigError> {
        match op {
            Operation::AddOwner { caller, new_owner } => self.add_owner(caller, new_owner),
            Operation::RemoveOwner { caller, owner } => self.remove_owner(caller, owner),
            Operation::UpdateThreshold { caller, new_threshold } => self.update_threshold(
                caller,
                new_threshold,
            ),
            Operation::CreateProposal { caller, instructions, created_at } => self.create_proposal(
                caller,
                instructions,
                created_at,
            ),
            Operation::Approve { caller, proposal_id } => self.approve(caller, proposal_id),
            Operation::Execute { caller, proposal_id } => self.execute(caller, proposal_id),
            Operation::CancelProposal { caller, proposal_id } => self.cancel_proposal(
                caller,
                proposal_id,
            ),
        }
    }

    /// The group after `op` was asked for: changed as `op` says where it is
    /// accepted, unchanged where it is refused.
    pub open spec fn step(self, op: Operation) -> GroupView {
        match self.attempt(op) {
            Ok(next) => next,
            Err(_) => self,
        }
    }

    /// The group after the requests `ops` were asked for one after the
    /// other. Requests against one group never overlap, so this is every
    /// way in which a group changes.
    pub open spec fn run(self, ops: Seq<Operation>) -> GroupView
        decreases ops.len(),
    {
        if ops.len() == 0 {
            self
        } else {
            self.run(ops.drop_last()).step(ops.last())
        }
    }
}

} // verus!
