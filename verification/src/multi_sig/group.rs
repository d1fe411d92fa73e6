//! A group as a whole: its registry and the proposals made against it.
//!
//! Every changing request takes the group by `&mut`, so two requests
//! against one group never overlap, and requests against two groups never
//! touch each other.

use crate::multi_sig::error::MultiSigError;
use crate::multi_sig::proposal::{
    approve_transaction, cancel_transaction, create_transaction_proposal, execute_transaction,
    ApprovalResult, ProposalView, TransactionProposal,
};
use crate::multi_sig::registry::{
    add_owner, create_multi_sig, remove_owner, update_threshold, GroupId, MultiSig, MultiSigView,
    Principal,
};
use crate::seq_facts::{lemma_first_position, lemma_index_of_first};
use vstd::prelude::*;

verus! {

/// The proposals of one group, in the order in which they were created.
#[derive(Clone, Debug, PartialEq, Eq)]
pub struct ProposalStore {
    pub proposals: Vec<TransactionProposal>,
}

/// The mathematical values of `proposals`, in the same order.
pub open spec fn proposal_views(proposals: Seq<TransactionProposal>) -> Seq<ProposalView> {
    proposals.map_values(|p: TransactionProposal| p@)
}

/// The identifiers of `proposals`, in the same order.
pub open spec fn proposal_ids(proposals: Seq<ProposalView>) -> Seq<nat> {
    proposals.map_values(|p: ProposalView| p.proposal_id)
}

/// The position of the first of `proposals` that has the identifier `id`.
pub open spec fn find_proposal(proposals: Seq<ProposalView>, id: nat) -> Option<int> {
    proposal_ids(proposals).index_of_first(id)
}

/// Whether each of `proposals` has a greater identifier than those before
/// it, so that no identifier occurs twice.
pub open spec fn ids_increasing(proposals: Seq<ProposalView>) -> bool {
    forall|i: int, j: int|
        0 <= i < j < proposals.len() ==> proposals[i].proposal_id < proposals[j].proposal_id
}

impl View for ProposalStore {
    type V = Seq<ProposalView>;

    open spec fn view(&self) -> Seq<ProposalView> {
        proposal_views(self.proposals@)
    }
}

impl ProposalStore {
    /// A store without proposals.
    pub fn new() -> (store: ProposalStore)
        ensures
            store@ == Seq::<ProposalView>::empty(),
    {
        let store = ProposalStore { proposals: Vec::new() };
        assert(store@ =~= Seq::<ProposalView>::empty());
        store
    }

    /// The number of proposals held.
    pub fn len(&self) -> (n: usize)
        ensures
            n == self@.len(),
    {
        self.proposals.len()
    }

    /// The position of the proposal with the identifier `proposal_id`.
    pub fn find(&self, proposal_id: u64) -> (found: Option<usize>)
        ensures
            match find_proposal(self@, proposal_id as nat) {
                Some(i) => found == Some(i as usize) && 0 <= i < self.proposals.len()
                    && self.proposals[i].proposal_id == proposal_id,
                None => found is None,
            },
    {
        let n = self.proposals.len();
        let ghost ids = proposal_ids(self@);
        let mut i: usize = 0;
        while i < n
            invariant
                n == self.proposals.len(),
                i <= n,
                ids == proposal_ids(self@),
                forall|j: int| 0 <= j < i ==> ids[j] != proposal_id as nat,
            decreases n - i,
        {
            if self.proposals[i].proposal_id == proposal_id {
                proof {
                    assert(ids[i as int] == proposal_id as nat);
                    lemma_first_position(ids, proposal_id as nat, i as int);
                }
                return Some(i);
            }
            i += 1;
        }
        proof {
            lemma_index_of_first(ids, proposal_id as nat);
        }
        None
    }

    /// The proposal with the identifier `proposal_id`.
    pub fn get(&self, proposal_id: u64) -> (found: Option<&TransactionProposal>)
        ensures
            match find_proposal(self@, proposal_id as nat) {
                Some(i) => found matches Some(proposal) && proposal@ == self@[i]
                    && proposal.proposal_id == proposal_id,
                None => found is None,
            },
    {
        match self.find(proposal_id) {
            Some(i) => Some(&self.proposals[i]),
            None => None,
        }
    }
}

/// One authorization group: its owner registry and the proposals made
/// against it. Nothing of it is shared with another group.
#[derive(Clone, Debug, PartialEq, Eq)]
pub struct AuthorizationGroup {
    pub registry: MultiSig,
    pub store: ProposalStore,
}

/// The mathematical value of an [`AuthorizationGroup`].
pub ghost struct GroupView {
    pub registry: MultiSigView,
    pub proposals: Seq<ProposalView>,
}

impl View for AuthorizationGroup {
    type V = GroupView;

    open spec fn view(&self) -> GroupView {
        GroupView { registry: self.registry@, proposals: self.store@ }
    }
}

impl GroupView {
    /// The registry is well formed; every proposal is well formed, belongs
    /// to this group and has an identifier that the group has issued; and
    /// the proposals stand in the order of their identifiers.
    pub open spec fn wf(self) -> bool {
        &&& self.registry.wf()
        &&& ids_increasing(self.proposals)
        &&& forall|i: int|
            0 <= i < self.proposals.len() ==> {
                &&& (#[trigger] self.proposals[i]).wf()
                &&& self.proposals[i].multi_sig == self.registry.group_id
                &&& self.proposals[i].proposal_id < self.registry.next_proposal_id
            }
    }

    /// The proposal with the identifier `id`, if the group has one.
    pub open spec fn proposal(self, id: nat) -> Option<ProposalView> {
        match find_proposal(self.proposals, id) {
            Some(i) => Some(self.proposals[i]),
            None => None,
        }
    }

    /// The group with the proposal at position `i` replaced.
    pub open spec fn with_proposal(self, i: int, proposal: ProposalView) -> GroupView {
        GroupView { proposals: self.proposals.update(i, proposal), ..self }
    }

    /// The group with its registry replaced.
    pub open spec fn with_registry(self, registry: MultiSigView) -> GroupView {
        GroupView { registry, ..self }
    }

    /// A new group without proposals, or why it cannot be created.
    pub open spec fn create(
        group_id: GroupId,
        name: Seq<char>,
        owners: Seq<Principal>,
        threshold: nat,
    ) -> Result<GroupView, MultiSigError> {
        match MultiSigView::create(group_id, name, owners, threshold) {
            Ok(registry) => Ok(GroupView { registry, proposals: Seq::empty() }),
            Err(e) => Err(e),
        }
    }

    /// The group after `caller` adds `new_owner`, or why it is refused.
    pub open spec fn add_owner(self, caller: Principal, new_owner: Principal) -> Result<
        GroupView,
        MultiSigError,
    > {
        match self.registry.add_owner(caller, new_owner) {
            Ok(registry) => Ok(self.with_registry(registry)),
            Err(e) => Err(e),
        }
    }

    /// The group after `caller` removes `owner`, or why it is refused.
    pub open spec fn remove_owner(self, caller: Principal, owner: Principal) -> Result<
        GroupView,
        MultiSigError,
    > {
        match self.registry.remove_owner(caller, owner) {
            Ok(registry) => Ok(self.with_registry(registry)),
            Err(e) => Err(e),
        }
    }

    /// The group after `caller` sets the threshold, or why it is refused.
    pub open spec fn update_threshold(self, caller: Principal, new_threshold: nat) -> Result<
        GroupView,
        MultiSigError,
    > {
        match self.registry.update_threshold(caller, new_threshold) {
            Ok(registry) => Ok(self.with_registry(registry)),
            Err(e) => Err(e),
        }
    }

    /// The group after `caller` creates a proposal, or why it is refused.
    /// The new proposal comes last and has the identifier that was next.
    pub open spec fn create_proposal(
        self,
        caller: Principal,
        instructions: Seq<u8>,
        created_at: int,
    ) -> Result<GroupView, MultiSigError> {
        match self.registry.create_proposal(caller, instructions, created_at) {
            Ok((registry, proposal)) => Ok(
                GroupView { registry, proposals: self.proposals.push(proposal) },
            ),
            Err(e) => Err(e),
        }
    }

    /// The group after `caller` approves the proposal `id`, or why it is
    /// refused. An identifier that names no proposal is refused with
    /// `InvalidState`, once the caller is known to be an owner.
    pub open spec fn approve(self, caller: Principal, id: nat) -> Result<GroupView, MultiSigError> {
        match find_proposal(self.proposals, id) {
            Some(i) => match self.proposals[i].approve(self.registry, caller) {
                Ok(proposal) => Ok(self.with_proposal(i, proposal)),
                Err(e) => Err(e),
            },
            None => if !self.registry.is_owner(caller) {
                Err(MultiSigError::Unauthorized)
            } else {
                Err(MultiSigError::InvalidState)
            },
        }
    }

    /// The group after `caller` executes the proposal `id`, or why it is
    /// refused. An identifier that names no proposal is refused with
    /// `InvalidState`.
    pub open spec fn execute(self, caller: Principal, id: nat) -> Result<GroupView, MultiSigError> {
        match find_proposal(self.proposals, id) {
            Some(i) => match self.proposals[i].execute(self.registry, caller) {
                Ok(proposal) => Ok(self.with_proposal(i, proposal)),
                Err(e) => Err(e),
            },
            None => Err(MultiSigError::InvalidState),
        }
    }

    /// The group after `caller` cancels the proposal `id`, or why it is
    /// refused. An identifier that names no proposal is refused with
    /// `InvalidState`, once the caller is known to be an owner.
    pub open spec fn cancel_proposal(self, caller: Principal, id: nat) -> Result<
        GroupView,
        MultiSigError,
    > {
        match find_proposal(self.proposals, id) {
            Some(i) => match self.proposals[i].cancel(self.registry, caller) {
                Ok(proposal) => Ok(self.with_proposal(i, proposal)),
                Err(e) => Err(e),
            },
            None => if !self.registry.is_owner(caller) {
                Err(MultiSigError::Unauthorized)
            } else {
                Err(MultiSigError::InvalidState)
            },
        }
    }
}

/// Replacing a well-formed proposal by a well-formed one of the same group
/// and identifier keeps the group well formed.
pub proof fn lemma_with_proposal_wf(group: GroupView, i: int, proposal: ProposalView)
    requires
        group.wf(),
        0 <= i < group.proposals.len(),
        proposal.wf(),
        proposal.multi_sig == group.proposals[i].multi_sig,
        proposal.proposal_id == group.proposals[i].proposal_id,
    ensures
        group.with_proposal(i, proposal).wf(),
{
    let next = group.with_proposal(i, proposal);
    assert forall|k: int| 0 <= k < next.proposals.len() implies {
        &&& (#[trigger] next.proposals[k]).wf()
        &&& next.proposals[k].multi_sig == next.registry.group_id
        &&& next.proposals[k].proposal_id < next.registry.next_proposal_id
    } by {
        if k != i {
            assert(next.proposals[k] == group.proposals[k]);
        }
        assert(group.proposals[k].wf());
    }
    assert forall|a: int, b: int|
        0 <= a < b < next.proposals.len() implies next.proposals[a].proposal_id
        < next.proposals[b].proposal_id by {
        assert(next.proposals[a].proposal_id == group.proposals[a].proposal_id);
        assert(next.proposals[b].proposal_id == group.proposals[b].proposal_id);
    }
}

impl AuthorizationGroup {
    /// Creates a group with the given owners and threshold and no proposal.
    ///
    /// Fails with `InvalidThreshold` if `threshold` is zero or greater than
    /// the number of owners, else with `DuplicateOwner` if an owner is named
    /// twice.
    pub fn create_group(
        group_id: GroupId,
        name: String,
        owners: Vec<Principal>,
        threshold: u8,
    ) -> (res: Result<AuthorizationGroup, MultiSigError>)
        ensures
            match GroupView::create(group_id, name@, owners@, threshold as nat) {
                Ok(created) => res matches Ok(group) && group@ == created && created.wf(),
                Err(e) => res == Err::<AuthorizationGroup, MultiSigError>(e),
            },
    {
        match create_multi_sig(group_id, name, owners, threshold) {
            Ok(registry) => Ok(AuthorizationGroup { registry, store: ProposalStore::new() }),
            Err(e) => Err(e),
        }
    }

    /// Whether this group is well formed.
    pub fn is_well_formed(&self) -> (ok: bool)
        ensures
            ok == self@.wf(),
    {
        if !self.registry.is_well_formed() {
            return false;
        }
        let n = self.store.proposals.len();
        let mut i: usize = 0;
        while i < n
            invariant
                n == self.store.proposals.len(),
                i <= n,
                self@.registry.wf(),
                forall|k: int|
                    0 <= k < i ==> {
                        &&& (#[trigger] self@.proposals[k]).wf()
                        &&& self@.proposals[k].multi_sig == self@.registry.group_id
                        &&& self@.proposals[k].proposal_id < self@.registry.next_proposal_id
                    },
                forall|a: int, b: int|
                    0 <= a < b < i ==> self@.proposals[a].proposal_id
                        < self@.proposals[b].proposal_id,
            decreases n - i,
        {
            let proposal = &self.store.proposals[i];
            assert(proposal@ == self@.proposals[i as int]);
            if !proposal.is_well_formed() || proposal.multi_sig != self.registry.group_id
                || proposal.proposal_id >= self.registry.next_proposal_id {
                return false;
            }
            if i > 0 {
                let before = &self.store.proposals[i - 1];
                assert(before@ == self@.proposals[i - 1]);
                if before.proposal_id >= proposal.proposal_id {
                    return false;
                }
            }
            i += 1;
        }
        true
    }

    /// Adds `new_owner` to the owners, on behalf of `caller`.
    ///
    /// Fails with `Unauthorized` if `caller` is not an owner, else with
    /// `DuplicateOwner` if `new_owner` already is one.
    pub fn add_owner(&mut self, caller: Principal, new_owner: Principal) -> (res: Result<
        (),
        MultiSigError,
    >)
        ensures
            match old(self)@.add_owner(caller, new_owner) {
                Ok(next) => res is Ok && final(self)@ == next,
                Err(e) => res == Err::<(), MultiSigError>(e) && *final(self) == *old(self),
            },
            old(self)@.wf() ==> final(self)@.wf(),
    {
        add_owner(&mut self.registry, caller, new_owner)
    }

    /// Removes `owner` from the owners, on behalf of `caller`.
    ///
    /// Fails with `Unauthorized` if `caller` is not an owner, else with
    /// `OwnerNotFound` if `owner` is not one, else with `ThresholdViolation`
    /// if the owners left would be fewer than the threshold.
    pub fn remove_owner(&mut self, caller: Principal, owner: Principal) -> (res: Result<
        (),
        MultiSigError,
    >)
        ensures
            match old(self)@.remove_owner(caller, owner) {
                Ok(next) => res is Ok && final(self)@ == next,
                Err(e) => res == Err::<(), MultiSigError>(e) && *final(self) == *old(self),
            },
            old(self)@.wf() ==> final(self)@.wf(),
    {
        remove_owner(&mut self.registry, caller, owner)
    }

    /// Sets the threshold to `new_threshold`, on behalf of `caller`.
    ///
    /// Fails with `Unauthorized` if `caller` is not an owner, else with
    /// `InvalidThreshold` if `new_threshold` is zero or greater than the
    /// current number of owners. Proposals keep the threshold they were
    /// created under.
    pub fn update_threshold(&mut self, caller: Principal, new_threshold: u8) -> (res: Result<
        (),
        MultiSigError,
    >)
        ensures
            match old(self)@.update_threshold(caller, new_threshold as nat) {
                Ok(next) => res is Ok && final(self)@ == next,
                Err(e) => res == Err::<(), MultiSigError>(e) && *final(self) == *old(self),
            },
            old(self)@.wf() ==> final(self)@.wf(),
    {
        update_threshold(&mut self.registry, caller, new_threshold)
    }

    /// Creates a proposal of `caller` and gives its identifier.
    ///
    /// Fails with `Unauthorized` if `caller` is not an owner. The identifier
    /// is the one that was next; it is never given out again.
    pub fn create_proposal(
        &mut self,
        caller: Principal,
        instructions: Vec<u8>,
        created_at: i64,
    ) -> (res: Result<u64, MultiSigError>)
        requires
            old(self)@.registry.is_owner(caller) ==> old(self).registry.next_proposal_id
                < u64::MAX,
        ensures
            match old(self)@.create_proposal(caller, instructions@, created_at as int) {
                Ok(next) => final(self)@ == next && res == Ok::<u64, MultiSigError>(
                    old(self).registry.next_proposal_id,
                ),
                Err(e) => res == Err::<u64, MultiSigError>(e) && *final(self) == *old(self),
            },
            old(self)@.wf() ==> final(self)@.wf(),
    {
        match create_transaction_proposal(&mut self.registry, caller, instructions, created_at) {
            Ok(proposal) => {
                let proposal_id = proposal.proposal_id;
                self.store.proposals.push(proposal);
                proof {
                    assert(self@.proposals =~= old(self)@.proposals.push(proposal@));
                }
                Ok(proposal_id)
            },
            Err(e) => Err(e),
        }
    }

    /// Records the approval of `caller` on the proposal `proposal_id`.
    ///
    /// Fails with `Unauthorized` if `caller` is not an owner, else with
    /// `InvalidState` if there is no such proposal or it is not pending,
    /// else with `AlreadyApproved` if `caller` has approved it before. On
    /// success the result gives the number of approvals and whether the
    /// quorum is met.
    pub fn approve(&mut self, caller: Principal, proposal_id: u64) -> (res: Result<
        ApprovalResult,
        MultiSigError,
    >)
        ensures
            match old(self)@.approve(caller, proposal_id as nat) {
                Ok(next) => {
                    &&& final(self)@ == next
                    &&& next.proposal(proposal_id as nat) matches Some(proposal)
                    &&& res == Ok::<ApprovalResult, MultiSigError>(proposal.approval_result())
                },
                Err(e) => res == Err::<ApprovalResult, MultiSigError>(e) && final(self)@ == old(
                    self,
                )@,
            },
            old(self)@.wf() ==> final(self)@.wf(),
    {
        match self.store.find(proposal_id) {
            Some(i) => {
                let res = approve_transaction(&self.registry, &mut self.store.proposals[i], caller);
                proof {
                    lemma_updated_in_place(*old(self), *self, i as int);
                }
                res
            },
            None => {
                if !self.registry.is_owner(&caller) {
                    Err(MultiSigError::Unauthorized)
                } else {
                    Err(MultiSigError::InvalidState)
                }
            },
        }
    }

    /// Executes the proposal `proposal_id` once and hands back its action.
    ///
    /// Fails with `InvalidState` if there is no such proposal or it is not
    /// pending, else with `QuorumNotMet` if it has fewer approvals than the
    /// threshold captured at its creation, else with `Unauthorized` if
    /// `caller` is not an owner.
    pub fn execute(&mut self, caller: Principal, proposal_id: u64) -> (res: Result<
        Vec<u8>,
        MultiSigError,
    >)
        ensures
            match old(self)@.execute(caller, proposal_id as nat) {
                Ok(next) => {
                    &&& final(self)@ == next
                    &&& old(self)@.proposal(proposal_id as nat) matches Some(proposal)
                    &&& res matches Ok(payload)
                    &&& payload@ == proposal.instructions
                },
                Err(e) => res == Err::<Vec<u8>, MultiSigError>(e) && final(self)@ == old(self)@,
            },
            old(self)@.wf() ==> final(self)@.wf(),
    {
        match self.store.find(proposal_id) {
            Some(i) => {
                let res = execute_transaction(&self.registry, &mut self.store.proposals[i], caller);
                proof {
                    lemma_updated_in_place(*old(self), *self, i as int);
                }
                res
            },
            None => Err(MultiSigError::InvalidState),
        }
    }

    /// Cancels the proposal `proposal_id`.
    ///
    /// Fails with `Unauthorized` unless `caller` is the proposer or an
    /// owner, else with `InvalidState` if there is no such proposal or it is
    /// not pending.
    pub fn cancel_proposal(&mut self, caller: Principal, proposal_id: u64) -> (res: Result<
        (),
        MultiSigError,
    >)
        ensures
            match old(self)@.cancel_proposal(caller, proposal_id as nat) {
                Ok(next) => final(self)@ == next && res is Ok,
                Err(e) => res == Err::<(), MultiSigError>(e) && final(self)@ == old(self)@,
            },
            old(self)@.wf() ==> final(self)@.wf(),
    {
        match self.store.find(proposal_id) {
            Some(i) => {
                let res = cancel_transaction(&self.registry, &mut self.store.proposals[i], caller);
                proof {
                    lemma_updated_in_place(*old(self), *self, i as int);
                }
                res
            },
            None => {
                if !self.registry.is_owner(&caller) {
                    Err(MultiSigError::Unauthorized)
                } else {
                    Err(MultiSigError::InvalidState)
                }
            },
        }
    }
}

/// A group of which one stored proposal was changed in place, keeping its
/// group and identifier, has the old value with that proposal replaced; it
/// is well formed if the old group and the new proposal are.
proof fn lemma_updated_in_place(before: AuthorizationGroup, after: AuthorizationGroup, i: int)
    requires
        0 <= i < before.store.proposals.len(),
        after.registry == before.registry,
        after.store.proposals@ == before.store.proposals@.update(i, after.store.proposals[i]),
    ensures
        after@ == before@.with_proposal(i, after.store.proposals[i]@),
        after.store.proposals[i]@ == before@.proposals[i] ==> after@ == before@,
        after.store.proposals[i]@.proposal_id == before@.proposals[i].proposal_id ==> proposal_ids(
            after@.proposals,
        ) == proposal_ids(before@.proposals),
        before@.wf() && after.store.proposals[i]@.wf() && after.store.proposals[i]@.multi_sig
            == before@.proposals[i].multi_sig && after.store.proposals[i]@.proposal_id
            == before@.proposals[i].proposal_id ==> after@.wf(),
{
    let changed = after.store.proposals[i]@;
    assert(after@.proposals =~= before@.proposals.update(i, changed));
    if changed == before@.proposals[i] {
        assert(after@.proposals =~= before@.proposals);
    }
    if changed.proposal_id == before@.proposals[i].proposal_id {
        assert(proposal_ids(after@.proposals) =~= proposal_ids(before@.proposals));
    }
    if before@.wf() && changed.wf() && changed.multi_sig == before@.proposals[i].multi_sig
        && changed.proposal_id == before@.proposals[i].proposal_id {
        lemma_with_proposal_wf(before@, i, changed);
    }
}

} // verus!
