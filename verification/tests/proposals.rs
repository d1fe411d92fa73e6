use program_logic::key::Key;
use program_logic::multi_sig::error::MultiSigError;
use program_logic::multi_sig::proposal::{
    approve_transaction, cancel_transaction, create_transaction_proposal, execute_transaction,
    ApprovalResult, ProposalStatus, TransactionProposal,
};
use program_logic::multi_sig::registry::{
    add_owner, create_multi_sig, remove_owner, update_threshold, MultiSig,
};

fn who(tag: u8) -> Key {
    Key::new([tag; 32])
}

const A: u8 = 1;
const B: u8 = 2;
const C: u8 = 3;
const D: u8 = 4;

fn registry_of(group: u8, owners: &[u8], threshold: u8) -> MultiSig {
    let owners: Vec<Key> = owners.iter().map(|tag| who(*tag)).collect();
    create_multi_sig(who(group), String::from("treasury"), owners, threshold).unwrap()
}

fn proposal_of(registry: &mut MultiSig, proposer: u8) -> TransactionProposal {
    create_transaction_proposal(registry, who(proposer), vec![9, 8, 7], 1_700_000_000).unwrap()
}

#[test]
fn a_new_proposal_is_pending_and_captures_the_threshold() {
    let mut registry = registry_of(100, &[A, B, C], 2);
    let proposal =
        create_transaction_proposal(&mut registry, who(A), vec![1, 2, 3], 1_700_000_000).unwrap();
    assert_eq!(proposal.multi_sig, who(100));
    assert_eq!(proposal.proposer, who(A));
    assert_eq!(proposal.instructions, vec![1, 2, 3]);
    assert_eq!(proposal.approvers, Vec::<Key>::new());
    assert_eq!(proposal.status, ProposalStatus::Pending);
    assert_eq!(proposal.created_at, 1_700_000_000);
    assert_eq!(proposal.proposal_id, 0);
    assert_eq!(proposal.threshold_snapshot, 2);
    assert!(proposal.is_well_formed());
    assert_eq!(registry.next_proposal_id, 1);
}

#[test]
fn proposal_identifiers_count_up_from_zero() {
    let mut registry = registry_of(100, &[A, B, C], 2);
    assert_eq!(proposal_of(&mut registry, A).proposal_id, 0);
    assert_eq!(proposal_of(&mut registry, B).proposal_id, 1);
    assert_eq!(proposal_of(&mut registry, A).proposal_id, 2);
    assert_eq!(registry.next_proposal_id, 3);
}

#[test]
fn a_refused_proposal_uses_up_no_identifier() {
    let mut registry = registry_of(100, &[A, B, C], 2);
    let before = registry.clone();
    let res = create_transaction_proposal(&mut registry, who(D), vec![1], 5);
    assert_eq!(res, Err(MultiSigError::Unauthorized));
    assert_eq!(registry, before);
    assert_eq!(proposal_of(&mut registry, A).proposal_id, 0);
}

#[test]
fn an_empty_action_and_a_negative_time_are_taken_as_they_are() {
    let mut registry = registry_of(100, &[A], 1);
    let proposal = create_transaction_proposal(&mut registry, who(A), Vec::new(), -5).unwrap();
    assert_eq!(proposal.instructions, Vec::<u8>::new());
    assert_eq!(proposal.created_at, -5);
}

#[test]
fn approvals_count_up_to_the_quorum() {
    let mut registry = registry_of(100, &[A, B, C], 2);
    let mut proposal = proposal_of(&mut registry, A);
    assert_eq!(
        approve_transaction(&registry, &mut proposal, who(B)),
        Ok(ApprovalResult { approval_count: 1, quorum_reached: false })
    );
    assert_eq!(proposal.approvers, vec![who(B)]);
    assert!(!proposal.quorum_met());
    assert_eq!(
        approve_transaction(&registry, &mut proposal, who(C)),
        Ok(ApprovalResult { approval_count: 2, quorum_reached: true })
    );
    assert_eq!(proposal.approvers, vec![who(B), who(C)]);
    assert!(proposal.quorum_met());
    assert_eq!(
        approve_transaction(&registry, &mut proposal, who(A)),
        Ok(ApprovalResult { approval_count: 3, quorum_reached: true })
    );
    assert_eq!(proposal.status, ProposalStatus::Pending);
    assert!(proposal.is_well_formed());
}

#[test]
fn a_threshold_of_one_is_met_by_the_first_approval() {
    let mut registry = registry_of(100, &[A, B], 1);
    let mut proposal = proposal_of(&mut registry, A);
    assert!(!proposal.quorum_met());
    assert_eq!(
        approve_transaction(&registry, &mut proposal, who(A)),
        Ok(ApprovalResult { approval_count: 1, quorum_reached: true })
    );
}

#[test]
fn the_same_owner_approving_twice_is_told_so_and_counted_once() {
    let mut registry = registry_of(100, &[A, B, C], 2);
    let mut proposal = proposal_of(&mut registry, A);
    assert!(approve_transaction(&registry, &mut proposal, who(B)).is_ok());
    let before = proposal.clone();
    assert_eq!(
        approve_transaction(&registry, &mut proposal, who(B)),
        Err(MultiSigError::AlreadyApproved)
    );
    assert_eq!(proposal, before);
    assert_eq!(proposal.approvers, vec![who(B)]);
    assert_eq!(proposal.approvers.iter().filter(|p| **p == who(B)).count(), 1);
}

#[test]
fn a_stranger_cannot_approve() {
    let mut registry = registry_of(100, &[A, B, C], 2);
    let mut proposal = proposal_of(&mut registry, A);
    let before = proposal.clone();
    assert_eq!(
        approve_transaction(&registry, &mut proposal, who(D)),
        Err(MultiSigError::Unauthorized)
    );
    assert_eq!(proposal, before);
}

#[test]
fn an_owner_of_another_group_cannot_approve() {
    let mut registry = registry_of(100, &[A, B, C], 2);
    let other = registry_of(101, &[A, D], 1);
    let mut proposal = proposal_of(&mut registry, A);
    assert_eq!(approve_transaction(&other, &mut proposal, who(D)), Err(MultiSigError::Unauthorized));
    assert_eq!(approve_transaction(&other, &mut proposal, who(A)), Err(MultiSigError::Unauthorized));
    assert_eq!(proposal.approvers, Vec::<Key>::new());
}

#[test]
fn approval_checks_the_caller_then_the_status_then_the_repeat() {
    let mut registry = registry_of(100, &[A, B, C], 1);
    let mut proposal = proposal_of(&mut registry, A);
    assert!(approve_transaction(&registry, &mut proposal, who(B)).is_ok());
    assert!(execute_transaction(&registry, &mut proposal, who(A)).is_ok());
    assert_eq!(
        approve_transaction(&registry, &mut proposal, who(D)),
        Err(MultiSigError::Unauthorized)
    );
    assert_eq!(
        approve_transaction(&registry, &mut proposal, who(B)),
        Err(MultiSigError::InvalidState)
    );
    assert_eq!(
        approve_transaction(&registry, &mut proposal, who(C)),
        Err(MultiSigError::InvalidState)
    );
}

#[test]
fn execution_waits_for_the_quorum_and_then_hands_back_the_action() {
    let mut registry = registry_of(100, &[A, B, C], 2);
    let mut proposal = proposal_of(&mut registry, A);
    assert_eq!(
        execute_transaction(&registry, &mut proposal, who(A)),
        Err(MultiSigError::QuorumNotMet)
    );
    assert!(approve_transaction(&registry, &mut proposal, who(B)).is_ok());
    let before = proposal.clone();
    assert_eq!(
        execute_transaction(&registry, &mut proposal, who(A)),
        Err(MultiSigError::QuorumNotMet)
    );
    assert_eq!(proposal, before);
    assert!(approve_transaction(&registry, &mut proposal, who(C)).is_ok());
    assert_eq!(execute_transaction(&registry, &mut proposal, who(A)), Ok(vec![9, 8, 7]));
    assert_eq!(proposal.status, ProposalStatus::Executed);
    assert_eq!(proposal.instructions, vec![9, 8, 7]);
    assert_eq!(proposal.approvers, vec![who(B), who(C)]);
    assert!(proposal.is_well_formed());
}

#[test]
fn an_owner_who_did_not_approve_may_execute() {
    let mut registry = registry_of(100, &[A, B, C], 2);
    let mut proposal = proposal_of(&mut registry, A);
    assert!(approve_transaction(&registry, &mut proposal, who(A)).is_ok());
    assert!(approve_transaction(&registry, &mut proposal, who(B)).is_ok());
    assert_eq!(execute_transaction(&registry, &mut proposal, who(C)), Ok(vec![9, 8, 7]));
}

#[test]
fn a_stranger_cannot_execute_even_with_the_quorum_met() {
    let mut registry = registry_of(100, &[A, B, C], 2);
    let mut proposal = proposal_of(&mut registry, A);
    assert!(approve_transaction(&registry, &mut proposal, who(A)).is_ok());
    assert!(approve_transaction(&registry, &mut proposal, who(B)).is_ok());
    let before = proposal.clone();
    assert_eq!(
        execute_transaction(&registry, &mut proposal, who(D)),
        Err(MultiSigError::Unauthorized)
    );
    assert_eq!(proposal, before);
    assert_eq!(proposal.status, ProposalStatus::Pending);
}

#[test]
fn execution_checks_the_status_then_the_quorum_then_the_caller() {
    let mut registry = registry_of(100, &[A, B, C], 2);
    let mut short = proposal_of(&mut registry, A);
    assert_eq!(
        execute_transaction(&registry, &mut short, who(D)),
        Err(MultiSigError::QuorumNotMet)
    );
    assert_eq!(cancel_transaction(&registry, &mut short, who(A)), Ok(()));
    assert_eq!(
        execute_transaction(&registry, &mut short, who(D)),
        Err(MultiSigError::InvalidState)
    );
    assert_eq!(
        execute_transaction(&registry, &mut short, who(A)),
        Err(MultiSigError::InvalidState)
    );
}

#[test]
fn of_many_executions_exactly_one_is_accepted() {
    let mut registry = registry_of(100, &[A, B, C], 2);
    let mut proposal = proposal_of(&mut registry, A);
    assert!(approve_transaction(&registry, &mut proposal, who(A)).is_ok());
    assert!(approve_transaction(&registry, &mut proposal, who(B)).is_ok());
    let callers = [C, A, B, A, C, B, A];
    let mut accepted = 0;
    let mut refused_as_invalid_state = 0;
    for caller in callers {
        match execute_transaction(&registry, &mut proposal, who(caller)) {
            Ok(payload) => {
                assert_eq!(payload, vec![9, 8, 7]);
                accepted += 1;
            }
            Err(MultiSigError::InvalidState) => refused_as_invalid_state += 1,
            Err(other) => panic!("unexpected refusal: {:?}", other),
        }
    }
    assert_eq!(accepted, 1);
    assert_eq!(refused_as_invalid_state, callers.len() - 1);
    assert_eq!(proposal.status, ProposalStatus::Executed);
}

#[test]
fn an_executed_proposal_takes_no_further_request() {
    let mut registry = registry_of(100, &[A, B, C], 2);
    let mut proposal = proposal_of(&mut registry, A);
    assert!(approve_transaction(&registry, &mut proposal, who(B)).is_ok());
    assert!(approve_transaction(&registry, &mut proposal, who(C)).is_ok());
    assert!(execute_transaction(&registry, &mut proposal, who(A)).is_ok());
    let before = proposal.clone();
    assert_eq!(
        approve_transaction(&registry, &mut proposal, who(A)),
        Err(MultiSigError::InvalidState)
    );
    assert_eq!(
        execute_transaction(&registry, &mut proposal, who(A)),
        Err(MultiSigError::InvalidState)
    );
    assert_eq!(cancel_transaction(&registry, &mut proposal, who(A)), Err(MultiSigError::InvalidState));
    assert_eq!(proposal, before);
}

#[test]
fn the_proposer_may_cancel() {
    let mut registry = registry_of(100, &[A, B, C], 2);
    let mut proposal = proposal_of(&mut registry, A);
    assert!(approve_transaction(&registry, &mut proposal, who(B)).is_ok());
    assert_eq!(cancel_transaction(&registry, &mut proposal, who(A)), Ok(()));
    assert_eq!(proposal.status, ProposalStatus::Cancelled);
    assert_eq!(proposal.approvers, vec![who(B)]);
    assert!(proposal.is_well_formed());
}

#[test]
fn another_owner_may_cancel() {
    let mut registry = registry_of(100, &[A, B, C], 2);
    let mut proposal = proposal_of(&mut registry, A);
    assert_eq!(cancel_transaction(&registry, &mut proposal, who(C)), Ok(()));
    assert_eq!(proposal.status, ProposalStatus::Cancelled);
}

#[test]
fn a_proposer_who_is_no_longer_an_owner_may_still_cancel() {
    let mut registry = registry_of(100, &[A, B, C], 2);
    let mut proposal = proposal_of(&mut registry, A);
    assert_eq!(remove_owner(&mut registry, who(B), who(A)), Ok(()));
    assert_eq!(cancel_transaction(&registry, &mut proposal, who(A)), Ok(()));
    assert_eq!(proposal.status, ProposalStatus::Cancelled);
}

#[test]
fn a_stranger_cannot_cancel() {
    let mut registry = registry_of(100, &[A, B, C], 2);
    let mut proposal = proposal_of(&mut registry, A);
    let before = proposal.clone();
    assert_eq!(cancel_transaction(&registry, &mut proposal, who(D)), Err(MultiSigError::Unauthorized));
    assert_eq!(proposal, before);
}

#[test]
fn a_cancelled_proposal_takes_no_further_request() {
    let mut registry = registry_of(100, &[A, B, C], 1);
    let mut proposal = proposal_of(&mut registry, A);
    assert!(approve_transaction(&registry, &mut proposal, who(B)).is_ok());
    assert_eq!(cancel_transaction(&registry, &mut proposal, who(A)), Ok(()));
    let before = proposal.clone();
    assert_eq!(
        approve_transaction(&registry, &mut proposal, who(C)),
        Err(MultiSigError::InvalidState)
    );
    assert_eq!(
        execute_transaction(&registry, &mut proposal, who(A)),
        Err(MultiSigError::InvalidState)
    );
    assert_eq!(cancel_transaction(&registry, &mut proposal, who(A)), Err(MultiSigError::InvalidState));
    assert_eq!(cancel_transaction(&registry, &mut proposal, who(D)), Err(MultiSigError::Unauthorized));
    assert_eq!(proposal, before);
}

#[test]
fn raising_the_threshold_does_not_strand_an_open_proposal() {
    let mut registry = registry_of(100, &[A, B, C], 2);
    let mut proposal = proposal_of(&mut registry, A);
    assert_eq!(update_threshold(&mut registry, who(A), 3), Ok(()));
    assert_eq!(proposal.threshold_snapshot, 2);
    assert_eq!(
        approve_transaction(&registry, &mut proposal, who(A)),
        Ok(ApprovalResult { approval_count: 1, quorum_reached: false })
    );
    assert_eq!(
        approve_transaction(&registry, &mut proposal, who(B)),
        Ok(ApprovalResult { approval_count: 2, quorum_reached: true })
    );
    assert_eq!(execute_transaction(&registry, &mut proposal, who(C)), Ok(vec![9, 8, 7]));
    assert_eq!(proposal.threshold_snapshot, 2);
}

#[test]
fn lowering_the_threshold_does_not_unlock_an_open_proposal() {
    let mut registry = registry_of(100, &[A, B, C], 3);
    let mut proposal = proposal_of(&mut registry, A);
    assert!(approve_transaction(&registry, &mut proposal, who(A)).is_ok());
    assert_eq!(update_threshold(&mut registry, who(A), 1), Ok(()));
    assert_eq!(proposal.threshold_snapshot, 3);
    assert_eq!(
        execute_transaction(&registry, &mut proposal, who(A)),
        Err(MultiSigError::QuorumNotMet)
    );
    assert_eq!(
        approve_transaction(&registry, &mut proposal, who(B)),
        Ok(ApprovalResult { approval_count: 2, quorum_reached: false })
    );
    let later = proposal_of(&mut registry, A);
    assert_eq!(later.threshold_snapshot, 1);
}

#[test]
fn the_approval_of_an_owner_who_was_removed_later_still_counts() {
    let mut registry = registry_of(100, &[A, B, C], 2);
    let mut proposal = proposal_of(&mut registry, A);
    assert!(approve_transaction(&registry, &mut proposal, who(C)).is_ok());
    assert_eq!(remove_owner(&mut registry, who(A), who(C)), Ok(()));
    assert_eq!(
        approve_transaction(&registry, &mut proposal, who(C)),
        Err(MultiSigError::Unauthorized)
    );
    assert_eq!(
        approve_transaction(&registry, &mut proposal, who(A)),
        Ok(ApprovalResult { approval_count: 2, quorum_reached: true })
    );
    assert_eq!(proposal.approvers, vec![who(C), who(A)]);
    assert_eq!(execute_transaction(&registry, &mut proposal, who(B)), Ok(vec![9, 8, 7]));
}

#[test]
fn an_owner_added_later_may_approve() {
    let mut registry = registry_of(100, &[A, B], 2);
    let mut proposal = proposal_of(&mut registry, A);
    assert_eq!(
        approve_transaction(&registry, &mut proposal, who(D)),
        Err(MultiSigError::Unauthorized)
    );
    assert_eq!(add_owner(&mut registry, who(A), who(D)), Ok(()));
    assert_eq!(
        approve_transaction(&registry, &mut proposal, who(D)),
        Ok(ApprovalResult { approval_count: 1, quorum_reached: false })
    );
}

#[test]
fn a_proposal_is_well_formed_only_with_distinct_approvers_and_a_quorum_if_executed() {
    let mut registry = registry_of(100, &[A, B, C], 2);
    let mut proposal = proposal_of(&mut registry, A);
    assert!(proposal.is_well_formed());
    proposal.status = ProposalStatus::Executed;
    assert!(!proposal.is_well_formed());
    proposal.approvers = vec![who(A), who(B)];
    assert!(proposal.is_well_formed());
    proposal.approvers = vec![who(A), who(A)];
    assert!(!proposal.is_well_formed());
    proposal.approvers = Vec::new();
    proposal.status = ProposalStatus::Cancelled;
    assert!(proposal.is_well_formed());
    proposal.threshold_snapshot = 0;
    assert!(!proposal.is_well_formed());
}

#[test]
fn a_stranger_is_refused_even_when_the_identifiers_are_used_up() {
    let mut registry = registry_of(100, &[A, B], 1);
    registry.next_proposal_id = u64::MAX;
    let res = create_transaction_proposal(&mut registry, who(D), vec![1], 0);
    assert_eq!(res, Err(MultiSigError::Unauthorized));
    assert_eq!(registry.next_proposal_id, u64::MAX);
}

#[test]
fn the_last_identifier_of_a_group_is_given_out() {
    let mut registry = registry_of(100, &[A, B], 1);
    registry.next_proposal_id = u64::MAX - 1;
    let proposal = create_transaction_proposal(&mut registry, who(A), vec![1], 0).unwrap();
    assert_eq!(proposal.proposal_id, u64::MAX - 1);
    assert_eq!(registry.next_proposal_id, u64::MAX);
}
