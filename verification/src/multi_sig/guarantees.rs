//! What holds of every group, whatever is asked of it.

use crate::multi_sig::error::MultiSigError;
use crate::multi_sig::group::{find_proposal, lemma_with_proposal_wf, proposal_ids, GroupView};
use crate::multi_sig::machine::Operation;
use crate::multi_sig::proposal::{ProposalStatus, ProposalView};
use crate::multi_sig::registry::{GroupId, MultiSigView, Principal};
use crate::seq_facts::{lemma_first_position, lemma_index_of_first, lemma_remove_value_distinct};
use vstd::prelude::*;

verus! {

/// In a well-formed group the identifier of a stored proposal finds that
/// proposal and no other.
pub proof fn lemma_find_by_id(group: GroupView, i: int)
    requires
        group.wf(),
        0 <= i < group.proposals.len(),
    ensures
        find_proposal(group.proposals, group.proposals[i].proposal_id) == Some(i),
        group.proposal(group.proposals[i].proposal_id) == Some(group.proposals[i]),
{
    let ids = proposal_ids(group.proposals);
    let id = group.proposals[i].proposal_id;
    assert(ids[i] == id);
    assert forall|j: int| 0 <= j < i implies ids[j] != id by {
        assert(group.proposals[j].proposal_id < group.proposals[i].proposal_id);
    }
    lemma_first_position(ids, id, i);
}

/// What `find_proposal` names is the position of a proposal with the
/// identifier asked for.
pub proof fn lemma_found(proposals: Seq<ProposalView>, id: nat)
    ensures
        match find_proposal(proposals, id) {
            Some(i) => 0 <= i < proposals.len() && proposals[i].proposal_id == id,
            None => forall|j: int| 0 <= j < proposals.len() ==> proposals[j].proposal_id != id,
        },
{
    let ids = proposal_ids(proposals);
    lemma_index_of_first(ids, id);
    if find_proposal(proposals, id) is None {
        assert forall|j: int| 0 <= j < proposals.len() implies proposals[j].proposal_id != id by {
            assert(ids[j] == proposals[j].proposal_id);
        }
    }
}

/// Every request leaves a well-formed group well formed: whether it is
/// accepted or refused, the owners stay distinct, the threshold stays at
/// least one and at most the number of owners, no proposal holds an
/// approver twice, and no identifier is used twice.
pub proof fn lemma_step_preserves_wf(group: GroupView, op: Operation)
    requires
        group.wf(),
    ensures
        group.step(op).wf(),
{
    if group.attempt(op) is Ok {
        lemma_accepted_preserves_wf(group, op);
    }
}

/// An accepted request leaves a well-formed group well formed.
proof fn lemma_accepted_preserves_wf(group: GroupView, op: Operation)
    requires
        group.wf(),
        group.attempt(op) is Ok,
    ensures
        group.attempt(op).unwrap().wf(),
{
    let next = group.attempt(op).unwrap();
    match op {
        Operation::AddOwner { caller, new_owner } => {
            let owners = group.registry.owners;
            assert forall|a: int, b: int|
                0 <= a < owners.len() + 1 && 0 <= b < owners.len() + 1 && a != b implies owners.push(
                new_owner,
            )[a] != owners.push(new_owner)[b] by {
                if a < owners.len() && b < owners.len() {
                } else if a < owners.len() {
                    assert(owners.contains(owners[a]));
                } else {
                    assert(owners.contains(owners[b]));
                }
            }
            assert forall|i: int| 0 <= i < next.proposals.len() implies {
                &&& (#[trigger] next.proposals[i]).wf()
                &&& next.proposals[i].multi_sig == next.registry.group_id
                &&& next.proposals[i].proposal_id < next.registry.next_proposal_id
            } by {
                assert(group.proposals[i].wf());
            }
        },
        Operation::RemoveOwner { caller, owner } => {
            lemma_remove_value_distinct(group.registry.owners, owner);
            assert forall|i: int| 0 <= i < next.proposals.len() implies {
                &&& (#[trigger] next.proposals[i]).wf()
                &&& next.proposals[i].multi_sig == next.registry.group_id
                &&& next.proposals[i].proposal_id < next.registry.next_proposal_id
            } by {
                assert(group.proposals[i].wf());
            }
        },
        Operation::UpdateThreshold { caller, new_threshold } => {
            assert forall|i: int| 0 <= i < next.proposals.len() implies {
                &&& (#[trigger] next.proposals[i]).wf()
                &&& next.proposals[i].multi_sig == next.registry.group_id
                &&& next.proposals[i].proposal_id < next.registry.next_proposal_id
            } by {
                assert(group.proposals[i].wf());
            }
        },
        Operation::CreateProposal { caller, instructions, created_at } => {
            let created = group.registry.create_proposal(caller, instructions, created_at).unwrap().1;
            assert(next.proposals == group.proposals.push(created));
            assert forall|i: int| 0 <= i < next.proposals.len() implies {
                &&& (#[trigger] next.proposals[i]).wf()
                &&& next.proposals[i].multi_sig == next.registry.group_id
                &&& next.proposals[i].proposal_id < next.registry.next_proposal_id
            } by {
                if i < group.proposals.len() {
                    assert(group.proposals[i].wf());
                    assert(next.proposals[i] == group.proposals[i]);
                } else {
                    assert(next.proposals[i] == created);
                }
            }
            assert forall|a: int, b: int|
                0 <= a < b < next.proposals.len() implies next.proposals[a].proposal_id
                < next.proposals[b].proposal_id by {
                assert(group.proposals[a].wf());
                if b < group.proposals.len() {
                    assert(group.proposals[b].wf());
                }
            }
        },
        Operation::Approve { caller, proposal_id } => {
            lemma_found(group.proposals, proposal_id);
            let i = find_proposal(group.proposals, proposal_id).unwrap();
            let before = group.proposals[i];
            assert(before.wf());
            let after = before.approve(group.registry, caller).unwrap();
            assert forall|a: int, b: int|
                0 <= a < after.approvers.len() && 0 <= b < after.approvers.len() && a
                    != b implies after.approvers[a] != after.approvers[b] by {
                if a < before.approvers.len() && b < before.approvers.len() {
                } else if a < before.approvers.len() {
                    assert(before.approvers.contains(before.approvers[a]));
                } else {
                    assert(before.approvers.contains(before.approvers[b]));
                }
            }
            lemma_with_proposal_wf(group, i, after);
        },
        Operation::Execute { caller, proposal_id } => {
            lemma_found(group.proposals, proposal_id);
            let i = find_proposal(group.proposals, proposal_id).unwrap();
            assert(group.proposals[i].wf());
            lemma_with_proposal_wf(
                group,
                i,
                group.proposals[i].execute(group.registry, caller).unwrap(),
            );
        },
        Operation::CancelProposal { caller, proposal_id } => {
            lemma_found(group.proposals, proposal_id);
            let i = find_proposal(group.proposals, proposal_id).unwrap();
            assert(group.proposals[i].wf());
            lemma_with_proposal_wf(
                group,
                i,
                group.proposals[i].cancel(group.registry, caller).unwrap(),
            );
        },
    }
}

/// In every state that a group can reach from its creation, the threshold
/// is at least one and at most the number of owners, and the group is well
/// formed.
pub proof fn lemma_reachable_states_wf(
    group_id: GroupId,
    name: Seq<char>,
    owners: Seq<Principal>,
    threshold: nat,
    ops: Seq<Operation>,
)
    requires
        GroupView::create(group_id, name, owners, threshold) is Ok,
    ensures
        GroupView::create(group_id, name, owners, threshold).unwrap().run(ops).wf(),
        1 <= GroupView::create(group_id, name, owners, threshold).unwrap().run(
            ops,
        ).registry.threshold <= GroupView::create(group_id, name, owners, threshold).unwrap().run(
            ops,
        ).registry.owners.len(),
{
    let created = GroupView::create(group_id, name, owners, threshold).unwrap();
    assert(created.wf());
    lemma_run_preserves_wf(created, ops);
}

/// A run of requests leaves a well-formed group well formed.
pub proof fn lemma_run_preserves_wf(group: GroupView, ops: Seq<Operation>)
    requires
        group.wf(),
    ensures
        group.run(ops).wf(),
    decreases ops.len(),
{
    if ops.len() > 0 {
        lemma_run_preserves_wf(group, ops.drop_last());
        lemma_step_preserves_wf(group.run(ops.drop_last()), ops.last());
    }
}

/// Running `first` and then `second` is running the two in a row.
pub proof fn lemma_run_concat(group: GroupView, first: Seq<Operation>, second: Seq<Operation>)
    ensures
        group.run(first + second) == group.run(first).run(second),
    decreases second.len(),
{
    if second.len() == 0 {
        assert(first + second =~= first);
    } else {
        assert((first + second).drop_last() =~= first + second.drop_last());
        assert((first + second).last() == second.last());
        lemma_run_concat(group, first, second.drop_last());
    }
}

/// A request only adds to what a group holds. The group keeps its
/// identifier and its name, and the next identifier never goes down. Every
/// proposal stays at its place and keeps its group, proposer, action, time
/// of creation, identifier and captured threshold; the approvals it had
/// stay, in their order, in front of at most one new one, which is then of
/// someone who is an owner at that time; and a proposal that is executed or
/// cancelled is never changed again.
pub proof fn lemma_step_extends(group: GroupView, op: Operation, i: int)
    requires
        0 <= i < group.proposals.len(),
    ensures
        group.step(op).registry.group_id == group.registry.group_id,
        group.step(op).registry.name == group.registry.name,
        group.step(op).registry.next_proposal_id >= group.registry.next_proposal_id,
        i < group.step(op).proposals.len(),
        group.step(op).proposals[i].multi_sig == group.proposals[i].multi_sig,
        group.step(op).proposals[i].proposer == group.proposals[i].proposer,
        group.step(op).proposals[i].instructions == group.proposals[i].instructions,
        group.step(op).proposals[i].created_at == group.proposals[i].created_at,
        group.step(op).proposals[i].proposal_id == group.proposals[i].proposal_id,
        group.step(op).proposals[i].threshold_snapshot == group.proposals[i].threshold_snapshot,
        group.proposals[i].approvers.is_prefix_of(group.step(op).proposals[i].approvers),
        group.step(op).proposals[i].approvers.len() <= group.proposals[i].approvers.len() + 1,
        group.step(op).proposals[i].approvers.len() > group.proposals[i].approvers.len()
            ==> group.registry.is_owner(group.step(op).proposals[i].approvers.last()),
        group.proposals[i].status != ProposalStatus::Pending ==> group.step(op).proposals[i]
            == group.proposals[i],
{
    let before = group.proposals[i];
    assert(before.approvers.is_prefix_of(before.approvers));
    if group.attempt(op) is Ok {
        match op {
            Operation::Approve { caller, proposal_id } => {
                lemma_found(group.proposals, proposal_id);
            },
            Operation::Execute { caller, proposal_id } => {
                lemma_found(group.proposals, proposal_id);
            },
            Operation::CancelProposal { caller, proposal_id } => {
                lemma_found(group.proposals, proposal_id);
            },
            _ => {},
        }
    }
}

/// Whatever is asked of a well-formed group afterwards, a proposal that is
/// executed or cancelled stays exactly as it is, at its place.
pub proof fn lemma_run_keeps_settled(group: GroupView, ops: Seq<Operation>, i: int)
    requires
        group.wf(),
        0 <= i < group.proposals.len(),
        group.proposals[i].status != ProposalStatus::Pending,
    ensures
        group.run(ops).wf(),
        i < group.run(ops).proposals.len(),
        group.run(ops).proposals[i] == group.proposals[i],
    decreases ops.len(),
{
    if ops.len() > 0 {
        lemma_run_keeps_settled(group, ops.drop_last(), i);
        lemma_step_preserves_wf(group.run(ops.drop_last()), ops.last());
        lemma_step_extends(group.run(ops.drop_last()), ops.last(), i);
    }
}

/// Whether `who` stands at exactly one position of `approvers`.
pub open spec fn approved_once(approvers: Seq<Principal>, who: Principal) -> bool {
    exists|k: int|
        {
            &&& 0 <= k < approvers.len()
            &&& #[trigger] approvers[k] == who
            &&& forall|j: int| 0 <= j < approvers.len() && approvers[j] == who ==> j == k
        }
}

/// No approval counts twice. Once an approval of `caller` on a proposal
/// has been accepted, the proposal holds `caller` exactly once, and the
/// same approval asked again is refused with `AlreadyApproved` and so adds
/// nothing.
pub proof fn lemma_second_approval_refused(group: GroupView, caller: Principal, id: nat)
    requires
        group.approve(caller, id) is Ok,
    ensures
        group.approve(caller, id).unwrap().proposal(id) matches Some(proposal) && approved_once(
            proposal.approvers,
            caller,
        ),
        group.approve(caller, id).unwrap().approve(caller, id) == Err::<GroupView, MultiSigError>(
            MultiSigError::AlreadyApproved,
        ),
        group.approve(caller, id).unwrap().step(Operation::Approve { caller, proposal_id: id })
            == group.approve(caller, id).unwrap(),
{
    let next = group.approve(caller, id).unwrap();
    lemma_found(group.proposals, id);
    let i = find_proposal(group.proposals, id).unwrap();
    let before = group.proposals[i];
    let after = next.proposals[i];
    assert(proposal_ids(next.proposals) =~= proposal_ids(group.proposals));
    assert(after.approvers == before.approvers.push(caller));
    let k = before.approvers.len() as int;
    assert(after.approvers[k] == caller);
    assert forall|j: int| 0 <= j < after.approvers.len() && after.approvers[j] == caller implies j
        == k by {
        if j < k {
            assert(before.approvers.contains(before.approvers[j]));
        }
    }
    assert(after.approvers.contains(caller));
}

/// The requests of `callers`, one after the other, to execute the proposal
/// `id`.
pub open spec fn execute_requests(callers: Seq<Principal>, id: nat) -> Seq<Operation> {
    callers.map_values(|caller: Principal| Operation::Execute { caller, proposal_id: id })
}

/// Of racing executions one wins. Where several callers ask to execute a
/// pending proposal that has met its quorum, and the one served first is an
/// owner, that request is accepted and every later one is refused with
/// `InvalidState`, whoever makes it; the proposal ends up executed.
pub proof fn lemma_execute_exactly_once(
    group: GroupView,
    callers: Seq<Principal>,
    id: nat,
    k: int,
)
    requires
        group.wf(),
        group.proposal(id) matches Some(proposal) && proposal.status == ProposalStatus::Pending
            && proposal.quorum_met(),
        0 <= k < callers.len(),
        group.registry.is_owner(callers[0]),
    ensures
        k == 0 ==> group.run(execute_requests(callers, id).take(k)).attempt(
            execute_requests(callers, id)[k],
        ) is Ok,
        k > 0 ==> group.run(execute_requests(callers, id).take(k)).attempt(
            execute_requests(callers, id)[k],
        ) == Err::<GroupView, MultiSigError>(MultiSigError::InvalidState),
        group.run(execute_requests(callers, id)).proposal(id) matches Some(proposal)
            && proposal.status == ProposalStatus::Executed,
{
    let ops = execute_requests(callers, id);
    lemma_found(group.proposals, id);
    let i = find_proposal(group.proposals, id).unwrap();
    assert(group.proposals[i].wf());
    assert(ops[0] == Operation::Execute { caller: callers[0], proposal_id: id });
    assert(group.attempt(ops[0]) is Ok);
    let first = ops.take(1);
    assert(first.drop_last() =~= Seq::<Operation>::empty());
    assert(first.last() == ops[0]);
    assert(group.run(first.drop_last()) == group);
    let executed = group.run(first);
    assert(executed == group.step(ops[0]));
    lemma_step_preserves_wf(group, ops[0]);
    assert(executed.proposals[i].status == ProposalStatus::Executed);
    assert(executed.proposals[i].proposal_id == id);
    if k == 0 {
        assert(ops.take(0) =~= Seq::<Operation>::empty());
    } else {
        let between = ops.subrange(1, k);
        assert(ops.take(k) =~= first + between);
        lemma_run_concat(group, first, between);
        lemma_run_keeps_settled(executed, between, i);
        lemma_find_by_id(group.run(ops.take(k)), i);
    }
    let rest = ops.subrange(1, ops.len() as int);
    assert(ops =~= first + rest);
    lemma_run_concat(group, first, rest);
    lemma_run_keeps_settled(executed, rest, i);
    lemma_find_by_id(group.run(ops), i);
}

/// No proposal is executed twice. In any run of requests against a
/// well-formed group, once a request to execute a proposal has been
/// accepted, every later request to execute that proposal is refused with
/// `InvalidState`, whoever asks and whatever was asked in between.
pub proof fn lemma_execute_at_most_once(
    group: GroupView,
    ops: Seq<Operation>,
    a: int,
    b: int,
    id: nat,
)
    requires
        group.wf(),
        0 <= a < b < ops.len(),
        ops[a] matches Operation::Execute { proposal_id, .. } && proposal_id == id,
        ops[b] matches Operation::Execute { proposal_id, .. } && proposal_id == id,
        group.run(ops.take(a)).attempt(ops[a]) is Ok,
    ensures
        group.run(ops.take(b)).attempt(ops[b]) == Err::<GroupView, MultiSigError>(
            MultiSigError::InvalidState,
        ),
{
    let start = group.run(ops.take(a));
    lemma_run_preserves_wf(group, ops.take(a));
    lemma_found(start.proposals, id);
    let i = find_proposal(start.proposals, id).unwrap();
    let upto = ops.take(a + 1);
    assert(upto.drop_last() =~= ops.take(a));
    assert(upto.last() == ops[a]);
    let executed = group.run(upto);
    assert(executed == start.step(ops[a]));
    lemma_step_preserves_wf(start, ops[a]);
    assert(executed.proposals[i].status == ProposalStatus::Executed);
    assert(executed.proposals[i].proposal_id == id);
    let between = ops.subrange(a + 1, b);
    assert(ops.take(b) =~= upto + between);
    lemma_run_concat(group, upto, between);
    lemma_run_keeps_settled(executed, between, i);
    lemma_find_by_id(group.run(ops.take(b)), i);
}

/// Without its quorum a proposal stays shut. A pending proposal with fewer
/// approvals than its captured threshold cannot be executed by anyone: the
/// request is refused with `QuorumNotMet`.
pub proof fn lemma_execute_needs_quorum(group: GroupView, caller: Principal, id: nat)
    requires
        group.proposal(id) matches Some(proposal) && proposal.status == ProposalStatus::Pending
            && proposal.approvers.len() < proposal.threshold_snapshot,
    ensures
        group.execute(caller, id) == Err::<GroupView, MultiSigError>(MultiSigError::QuorumNotMet),
{
}

/// The last missing approval opens a proposal. The approval that brings
/// the number of approvals up to the captured threshold unlocks the
/// proposal: before it, execution is refused with `QuorumNotMet`; right
/// after it, the request of any current owner to execute is accepted.
pub proof fn lemma_execute_unlocked_by_quorum(
    group: GroupView,
    approver: Principal,
    id: nat,
    executor: Principal,
)
    requires
        group.approve(approver, id) matches Ok(next) && next.proposal(id) matches Some(proposal)
            && proposal.approvers.len() == proposal.threshold_snapshot,
        group.registry.is_owner(executor),
    ensures
        group.execute(executor, id) == Err::<GroupView, MultiSigError>(MultiSigError::QuorumNotMet),
        group.approve(approver, id).unwrap().execute(executor, id) matches Ok(done) && done.proposal(
            id,
        ) matches Some(proposal) && proposal.status == ProposalStatus::Executed,
{
    let next = group.approve(approver, id).unwrap();
    lemma_found(group.proposals, id);
    let i = find_proposal(group.proposals, id).unwrap();
    assert(proposal_ids(next.proposals) =~= proposal_ids(group.proposals));
    let done = next.execute(executor, id).unwrap();
    assert(proposal_ids(done.proposals) =~= proposal_ids(next.proposals));
}

/// A change of the group's threshold reaches no proposal that exists
/// already: each keeps the threshold captured at its creation, and every
/// later request to approve or to execute it is accepted or refused, with
/// the same error, as it would have been without the change.
pub proof fn lemma_threshold_change_isolated(
    group: GroupView,
    caller: Principal,
    new_threshold: nat,
    who: Principal,
    id: nat,
)
    requires
        group.update_threshold(caller, new_threshold) is Ok,
    ensures
        group.update_threshold(caller, new_threshold).unwrap().proposals == group.proposals,
        match (
            group.execute(who, id),
            group.update_threshold(caller, new_threshold).unwrap().execute(who, id),
        ) {
            (Ok(without), Ok(with)) => with.proposals == without.proposals,
            (Err(e1), Err(e2)) => e1 == e2,
            _ => false,
        },
        match (
            group.approve(who, id),
            group.update_threshold(caller, new_threshold).unwrap().approve(who, id),
        ) {
            (Ok(without), Ok(with)) => with.proposals == without.proposals,
            (Err(e1), Err(e2)) => e1 == e2,
            _ => false,
        },
{
}

/// A proposal that is executed or cancelled takes no further request,
/// whichever registry it is held against and whoever asks: it can be
/// neither approved nor cancelled, and to execute it is refused with
/// `InvalidState`.
pub proof fn lemma_settled_proposal_is_final(
    proposal: ProposalView,
    group: MultiSigView,
    caller: Principal,
)
    requires
        proposal.status != ProposalStatus::Pending,
    ensures
        proposal.approve(group, caller) is Err,
        proposal.execute(group, caller) == Err::<ProposalView, MultiSigError>(
            MultiSigError::InvalidState,
        ),
        proposal.cancel(group, caller) is Err,
{
}

/// What an accepted request does to a proposal. An approval adds the
/// caller, who is an owner, behind the approvals there were, and changes
/// nothing else; an execution needs the quorum and an owner, and only
/// marks the proposal executed; a cancellation only marks it cancelled. A
/// well-formed proposal stays well formed under each.
pub proof fn lemma_accepted_on_proposal(
    proposal: ProposalView,
    group: MultiSigView,
    caller: Principal,
)
    ensures
        proposal.approve(group, caller) matches Ok(next) ==> {
            &&& proposal.status == ProposalStatus::Pending
            &&& group.is_owner(caller)
            &&& !proposal.approvers.contains(caller)
            &&& next == (ProposalView { approvers: proposal.approvers.push(caller), ..proposal })
            &&& next.approve(group, caller) == Err::<ProposalView, MultiSigError>(
                MultiSigError::AlreadyApproved,
            )
            &&& proposal.wf() ==> next.wf()
        },
        proposal.execute(group, caller) matches Ok(next) ==> {
            &&& proposal.status == ProposalStatus::Pending
            &&& proposal.quorum_met()
            &&& group.is_owner(caller)
            &&& next == (ProposalView { status: ProposalStatus::Executed, ..proposal })
            &&& proposal.wf() ==> next.wf()
        },
        proposal.cancel(group, caller) matches Ok(next) ==> {
            &&& proposal.status == ProposalStatus::Pending
            &&& caller == proposal.proposer || group.is_owner(caller)
            &&& next == (ProposalView { status: ProposalStatus::Cancelled, ..proposal })
            &&& proposal.wf() ==> next.wf()
        },
{
    if proposal.approve(group, caller) is Ok {
        let next = proposal.approve(group, caller).unwrap();
        assert(next.approvers[proposal.approvers.len() as int] == caller);
        if proposal.wf() {
            assert forall|a: int, b: int|
                0 <= a < next.approvers.len() && 0 <= b < next.approvers.len() && a
                    != b implies next.approvers[a] != next.approvers[b] by {
                if a < proposal.approvers.len() && b < proposal.approvers.len() {
                } else if a < proposal.approvers.len() {
                    assert(proposal.approvers.contains(proposal.approvers[a]));
                } else {
                    assert(proposal.approvers.contains(proposal.approvers[b]));
                }
            }
        }
    }
}

} // verus!
