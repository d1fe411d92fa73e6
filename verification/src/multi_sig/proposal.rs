//! One proposal: its approvals, its life cycle and when it may be executed.
//!
//! A proposal is pending until it is executed or cancelled. Approvals are
//! only added, each owner at most once. Whether the quorum is met is judged
//! by the threshold that the group had when the proposal was created.

use crate::key::{all_distinct, contains};
use crate::multi_sig::error::MultiSigError;
use crate::multi_sig::registry::{GroupId, MultiSig, MultiSigView, Principal};
use vstd::prelude::*;

verus! {

/// Where a proposal stands. `Executed` and `Cancelled` are final.
#[derive(Clone, Copy, Debug, PartialEq, Eq, Structural)]
pub enum ProposalStatus {
    Pending,
    Executed,
    Cancelled,
}

/// A request to perform an action, waiting for the owners' approvals.
///
/// The action is held as bytes that are handed back on execution and never
/// read here.
#[derive(Clone, Debug, PartialEq, Eq)]
pub struct TransactionProposal {
    /// The group this proposal belongs to.
    pub multi_sig: GroupId,
    /// The owner who created the proposal.
    pub proposer: Principal,
    /// The action to perform once the proposal is executed.
    pub instructions: Vec<u8>,
    /// The owners who have approved, in the order in which they did.
    pub approvers: Vec<Principal>,
    pub status: ProposalStatus,
    /// When the proposal was created.
    pub created_at: i64,
    /// The identifier of the proposal within its group.
    pub proposal_id: u64,
    /// The group's threshold at the time the proposal was created.
    pub threshold_snapshot: u8,
}

/// The mathematical value of a [`TransactionProposal`].
pub ghost struct ProposalView {
    pub multi_sig: GroupId,
    pub proposer: Principal,
    pub instructions: Seq<u8>,
    pub approvers: Seq<Principal>,
    pub status: ProposalStatus,
    pub created_at: int,
    pub proposal_id: nat,
    pub threshold_snapshot: nat,
}

impl View for TransactionProposal {
    type V = ProposalView;

    open spec fn view(&self) -> ProposalView {
        ProposalView {
            multi_sig: self.multi_sig,
            proposer: self.proposer,
            instructions: self.instructions@,
            approvers: self.approvers@,
            status: self.status,
            created_at: self.created_at as int,
            proposal_id: self.proposal_id as nat,
            threshold_snapshot: self.threshold_snapshot as nat,
        }
    }
}

/// What an approval tells its caller: how many owners have approved by
/// now, and whether that is enough to execute.
#[derive(Clone, Copy, Debug, PartialEq, Eq, Structural)]
pub struct ApprovalResult {
    pub approval_count: usize,
    pub quorum_reached: bool,
}

impl MultiSigView {
    /// Whether this registry speaks for the group of `proposal` and lists
    /// `who` among its owners.
    pub open spec fn authorizes(self, proposal: ProposalView, who: Principal) -> bool {
        self.group_id == proposal.multi_sig && self.is_owner(who)
    }

    /// The proposal that `proposer` creates for `instructions` at time
    /// `created_at`, and the registry after it, or why it is refused. The
    /// proposal takes the next identifier and the current threshold, and
    /// starts pending with no approval.
    pub open spec fn create_proposal(
        self,
        proposer: Principal,
        instructions: Seq<u8>,
        created_at: int,
    ) -> Result<(MultiSigView, ProposalView), MultiSigError> {
        if !self.is_owner(proposer) {
            Err(MultiSigError::Unauthorized)
        } else {
            Ok(
                (
                    MultiSigView { next_proposal_id: self.next_proposal_id + 1, ..self },
                    ProposalView {
                        multi_sig: self.group_id,
                        proposer,
                        instructions,
                        approvers: Seq::empty(),
                        status: ProposalStatus::Pending,
                        created_at,
                        proposal_id: self.next_proposal_id,
                        threshold_snapshot: self.threshold,
                    },
                ),
            )
        }
    }
}

impl ProposalView {
    /// Whether as many owners have approved as the threshold captured at
    /// creation asks for.
    pub open spec fn quorum_met(self) -> bool {
        self.approvers.len() >= self.threshold_snapshot
    }

    /// No owner has approved twice, the captured threshold is at least one,
    /// and an executed proposal has met its quorum.
    pub open spec fn wf(self) -> bool {
        &&& self.approvers.no_duplicates()
        &&& self.threshold_snapshot >= 1
        &&& self.status == ProposalStatus::Executed ==> self.quorum_met()
    }

    /// What an approval reports of this proposal.
    pub open spec fn approval_result(self) -> ApprovalResult {
        ApprovalResult {
            approval_count: self.approvers.len() as usize,
            quorum_reached: self.quorum_met(),
        }
    }

    /// The proposal after `caller` approves it, or why the approval is
    /// refused: the caller is checked first, then the status, then whether
    /// the caller has approved before.
    pub open spec fn approve(self, group: MultiSigView, caller: Principal) -> Result<
        ProposalView,
        MultiSigError,
    > {
        if !group.authorizes(self, caller) {
            Err(MultiSigError::Unauthorized)
        } else if self.status != ProposalStatus::Pending {
            Err(MultiSigError::InvalidState)
        } else if self.approvers.contains(caller) {
            Err(MultiSigError::AlreadyApproved)
        } else {
            Ok(ProposalView { approvers: self.approvers.push(caller), ..self })
        }
    }

    /// The proposal after `caller` executes it, or why the execution is
    /// refused: the status is checked first, then the quorum against the
    /// captured threshold, then the caller.
    pub open spec fn execute(self, group: MultiSigView, caller: Principal) -> Result<
        ProposalView,
        MultiSigError,
    > {
        if self.status != ProposalStatus::Pending {
            Err(MultiSigError::InvalidState)
        } else if !self.quorum_met() {
            Err(MultiSigError::QuorumNotMet)
        } else if !group.authorizes(self, caller) {
            Err(MultiSigError::Unauthorized)
        } else {
            Ok(ProposalView { status: ProposalStatus::Executed, ..self })
        }
    }

    /// The proposal after `caller` cancels it, or why the cancellation is
    /// refused. The proposer may cancel, and so may any current owner.
    pub open spec fn cancel(self, group: MultiSigView, caller: Principal) -> Result<
        ProposalView,
        MultiSigError,
    > {
        if caller != self.proposer && !group.authorizes(self, caller) {
            Err(MultiSigError::Unauthorized)
        } else if self.status != ProposalStatus::Pending {
            Err(MultiSigError::InvalidState)
        } else {
            Ok(ProposalView { status: ProposalStatus::Cancelled, ..self })
        }
    }
}

impl MultiSig {
    /// Whether this registry speaks for the group of `proposal` and lists
    /// `who` among its owners.
    pub fn authorizes(&self, proposal: &TransactionProposal, who: &Principal) -> (ok: bool)
        ensures
            ok == self@.authorizes(proposal@, *who),
    {
        self.group_id == proposal.multi_sig && contains(&self.owners, who)
    }
}

impl TransactionProposal {
    /// Whether this proposal is well formed.
    pub fn is_well_formed(&self) -> (ok: bool)
        ensures
            ok == self@.wf(),
    {
        all_distinct(&self.approvers) && self.threshold_snapshot >= 1 && (self.status
            != ProposalStatus::Executed || self.quorum_met())
    }

    /// Whether the proposal has as many approvals as its captured threshold
    /// asks for.
    pub fn quorum_met(&self) -> (met: bool)
        ensures
            met == self@.quorum_met(),
    {
        self.approvers.len() >= self.threshold_snapshot as usize
    }
}

/// Creates a proposal of `proposer` in the group of `multi_sig`.
///
/// Fails with `Unauthorized` if `proposer` is not an owner. Otherwise the
/// proposal gets the group's next identifier, which is then used up, and the
/// group's current threshold as its own.
pub fn create_transaction_proposal(
    multi_sig: &mut MultiSig,
    proposer: Principal,
    instructions: Vec<u8>,
    created_at: i64,
) -> (res: Result<TransactionProposal, MultiSigError>)
    requires
        old(multi_sig)@.is_owner(proposer) ==> old(multi_sig).next_proposal_id < u64::MAX,
    ensures
        match old(multi_sig)@.create_proposal(proposer, instructions@, created_at as int) {
            Ok((next, created)) => {
                &&& res matches Ok(proposal)
                &&& proposal@ == created
                &&& final(multi_sig)@ == next
            },
            Err(e) => res == Err::<TransactionProposal, MultiSigError>(e) && *final(multi_sig)
                == *old(multi_sig),
        },
        old(multi_sig)@.wf() ==> final(multi_sig)@.wf(),
        old(multi_sig)@.wf() && res is Ok ==> res.unwrap()@.wf(),
{
    if !contains(&multi_sig.owners, &proposer) {
        return Err(MultiSigError::Unauthorized);
    }
    let proposal_id = multi_sig.next_proposal_id;
    multi_sig.next_proposal_id = proposal_id + 1;
    Ok(
        TransactionProposal {
            multi_sig: multi_sig.group_id,
            proposer,
            instructions,
            approvers: Vec::new(),
            status: ProposalStatus::Pending,
            created_at,
            proposal_id,
            threshold_snapshot: multi_sig.threshold,
        },
    )
}

/// Records the approval of `approver` on `proposal`.
///
/// Fails with `Unauthorized` if `approver` is not an owner of the proposal's
/// group, else with `InvalidState` if the proposal is not pending, else with
/// `AlreadyApproved` if `approver` has approved it before. On success the
/// result gives the number of approvals and whether the quorum is met.
pub fn approve_transaction(
    multi_sig: &MultiSig,
    proposal: &mut TransactionProposal,
    approver: Principal,
) -> (res: Result<ApprovalResult, MultiSigError>)
    ensures
        match old(proposal)@.approve(multi_sig@, approver) {
            Ok(next) => final(proposal)@ == next && res == Ok::<ApprovalResult, MultiSigError>(
                next.approval_result(),
            ),
            Err(e) => res == Err::<ApprovalResult, MultiSigError>(e) && *final(proposal) == *old(
                proposal,
            ),
        },
        old(proposal)@.wf() ==> final(proposal)@.wf(),
{
    if !multi_sig.authorizes(proposal, &approver) {
        return Err(MultiSigError::Unauthorized);
    }
    if proposal.status != ProposalStatus::Pending {
        return Err(MultiSigError::InvalidState);
    }
    if contains(&proposal.approvers, &approver) {
        return Err(MultiSigError::AlreadyApproved);
    }
    proposal.approvers.push(approver);
    let approval_count = proposal.approvers.len();
    Ok(ApprovalResult { approval_count, quorum_reached: proposal.quorum_met() })
}

/// Executes `proposal` once: marks it executed and hands back its action.
///
/// Fails with `InvalidState` if the proposal is not pending, else with
/// `QuorumNotMet` if it has fewer approvals than its captured threshold,
/// else with `Unauthorized` if `caller` is not an owner of its group.
pub fn execute_transaction(
    multi_sig: &MultiSig,
    proposal: &mut TransactionProposal,
    caller: Principal,
) -> (res: Result<Vec<u8>, MultiSigError>)
    ensures
        match old(proposal)@.execute(multi_sig@, caller) {
            Ok(next) => {
                &&& final(proposal)@ == next
                &&& res matches Ok(payload)
                &&& payload@ == old(proposal)@.instructions
            },
            Err(e) => res == Err::<Vec<u8>, MultiSigError>(e) && *final(proposal) == *old(
                proposal,
            ),
        },
        old(proposal)@.wf() ==> final(proposal)@.wf(),
{
    if proposal.status != ProposalStatus::Pending {
        return Err(MultiSigError::InvalidState);
    }
    if !proposal.quorum_met() {
        return Err(MultiSigError::QuorumNotMet);
    }
    if !multi_sig.authorizes(proposal, &caller) {
        return Err(MultiSigError::Unauthorized);
    }
    proposal.status = ProposalStatus::Executed;
    let payload = proposal.instructions.clone();
    assert(payload@ =~= proposal.instructions@);
    Ok(payload)
}

/// Cancels `proposal`.
///
/// Fails with `Unauthorized` unless `caller` is the proposer or an owner of
/// the proposal's group, else with `InvalidState` if the proposal is not
/// pending.
pub fn cancel_transaction(
    multi_sig: &MultiSig,
    proposal: &mut TransactionProposal,
    caller: Principal,
) -> (res: Result<(), MultiSigError>)
    ensures
        match old(proposal)@.cancel(multi_sig@, caller) {
            Ok(next) => final(proposal)@ == next && res is Ok,
            Err(e) => res == Err::<(), MultiSigError>(e) && *final(proposal) == *old(proposal),
        },
        old(proposal)@.wf() ==> final(proposal)@.wf(),
{
    if caller != proposal.proposer && !multi_sig.authorizes(proposal, &caller) {
        return Err(MultiSigError::Unauthorized);
    }
    if proposal.status != ProposalStatus::Pending {
        return Err(MultiSigError::InvalidState);
    }
    proposal.status = ProposalStatus::Cancelled;
    Ok(())
}

} // verus!
