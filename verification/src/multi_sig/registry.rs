//! The owner registry: who owns a group and how many must approve.

use crate::key::{all_distinct, contains, position, Key};
use crate::multi_sig::error::MultiSigError;
use crate::seq_facts::lemma_remove_value_distinct;
use vstd::prelude::*;

verus! {

/// An authenticated identity that can own a group, propose and approve.
pub type Principal = Key;

/// The stable identifier of a group.
pub type GroupId = Key;

/// The owner registry of one authorization group: who its owners are, how
/// many of them must approve an action, and the identifier that its next
/// proposal will get.
#[derive(Clone, Debug, PartialEq, Eq)]
pub struct MultiSig {
    pub group_id: GroupId,
    pub name: String,
    pub owners: Vec<Principal>,
    pub threshold: u8,
    pub next_proposal_id: u64,
}

/// The mathematical value of a [`MultiSig`].
pub ghost struct MultiSigView {
    pub group_id: GroupId,
    pub name: Seq<char>,
    pub owners: Seq<Principal>,
    pub threshold: nat,
    pub next_proposal_id: nat,
}

impl View for MultiSig {
    type V = MultiSigView;

    open spec fn view(&self) -> MultiSigView {
        MultiSigView {
            group_id: self.group_id,
            name: self.name@,
            owners: self.owners@,
            threshold: self.threshold as nat,
            next_proposal_id: self.next_proposal_id as nat,
        }
    }
}

/// Whether `threshold` is a quorum that `owner_count` owners can reach.
pub open spec fn threshold_in_range(threshold: nat, owner_count: nat) -> bool {
    1 <= threshold <= owner_count
}

impl MultiSigView {
    /// No owner is listed twice, and the threshold is at least one and at
    /// most the number of owners.
    pub open spec fn wf(self) -> bool {
        &&& self.owners.no_duplicates()
        &&& threshold_in_range(self.threshold, self.owners.len())
    }

    /// Whether `who` is a current owner.
    pub open spec fn is_owner(self, who: Principal) -> bool {
        self.owners.contains(who)
    }

    /// The registry of a new group, or why it cannot be created: the
    /// threshold is checked first, then the owners for repeats.
    pub open spec fn create(
        group_id: GroupId,
        name: Seq<char>,
        owners: Seq<Principal>,
        threshold: nat,
    ) -> Result<MultiSigView, MultiSigError> {
        if !threshold_in_range(threshold, owners.len()) {
            Err(MultiSigError::InvalidThreshold)
        } else if !owners.no_duplicates() {
            Err(MultiSigError::DuplicateOwner)
        } else {
            Ok(MultiSigView { group_id, name, owners, threshold, next_proposal_id: 0 })
        }
    }

    /// The registry after `caller` adds `new_owner`, or why it is refused.
    /// The new owner comes last; the threshold stays as it is.
    pub open spec fn add_owner(self, caller: Principal, new_owner: Principal) -> Result<
        MultiSigView,
        MultiSigError,
    > {
        if !self.is_owner(caller) {
            Err(MultiSigError::Unauthorized)
        } else if self.is_owner(new_owner) {
            Err(MultiSigError::DuplicateOwner)
        } else {
            Ok(MultiSigView { owners: self.owners.push(new_owner), ..self })
        }
    }

    /// The registry after `caller` removes `owner`, or why it is refused.
    /// The other owners keep their order; the threshold stays as it is, so
    /// the removal is refused where the owners left would be fewer than it.
    pub open spec fn remove_owner(self, caller: Principal, owner: Principal) -> Result<
        MultiSigView,
        MultiSigError,
    > {
        if !self.is_owner(caller) {
            Err(MultiSigError::Unauthorized)
        } else if !self.is_owner(owner) {
            Err(MultiSigError::OwnerNotFound)
        } else if self.threshold > self.owners.len() - 1 {
            Err(MultiSigError::ThresholdViolation)
        } else {
            Ok(MultiSigView { owners: self.owners.remove_value(owner), ..self })
        }
    }

    /// The registry after `caller` sets the threshold to `new_threshold`, or
    /// why it is refused. The bounds are those of creation, taken against
    /// the current number of owners.
    pub open spec fn update_threshold(self, caller: Principal, new_threshold: nat) -> Result<
        MultiSigView,
        MultiSigError,
    > {
        if !self.is_owner(caller) {
            Err(MultiSigError::Unauthorized)
        } else if !threshold_in_range(new_threshold, self.owners.len()) {
            Err(MultiSigError::InvalidThreshold)
        } else {
            Ok(MultiSigView { threshold: new_threshold, ..self })
        }
    }
}

impl MultiSig {
    /// Whether `who` is a current owner.
    pub fn is_owner(&self, who: &Principal) -> (owner: bool)
        ensures
            owner == self@.is_owner(*who),
    {
        contains(&self.owners, who)
    }

    /// Whether this registry is well formed.
    pub fn is_well_formed(&self) -> (ok: bool)
        ensures
            ok == self@.wf(),
    {
        self.threshold >= 1 && self.threshold as usize <= self.owners.len() && all_distinct(
            &self.owners,
        )
    }
}

/// Creates the registry of a group with the given owners and threshold.
///
/// Fails with `InvalidThreshold` if `threshold` is zero or greater than the
/// number of owners, else with `DuplicateOwner` if an owner is named twice.
/// The new group has issued no proposal identifier yet.
pub fn create_multi_sig(
    group_id: GroupId,
    name: String,
    owners: Vec<Principal>,
    threshold: u8,
) -> (res: Result<MultiSig, MultiSigError>)
    ensures
        match MultiSigView::create(group_id, name@, owners@, threshold as nat) {
            Ok(created) => res matches Ok(multi_sig) && multi_sig@ == created && created.wf(),
            Err(e) => res == Err::<MultiSig, MultiSigError>(e),
        },
{
    if threshold == 0 || threshold as usize > owners.len() {
        return Err(MultiSigError::InvalidThreshold);
    }
    if !all_distinct(&owners) {
        return Err(MultiSigError::DuplicateOwner);
    }
    Ok(MultiSig { group_id, name, owners, threshold, next_proposal_id: 0 })
}

/// Adds `new_owner` to the owners, on behalf of `caller`.
///
/// Fails with `Unauthorized` if `caller` is not an owner, else with
/// `DuplicateOwner` if `new_owner` already is one.
pub fn add_owner(multi_sig: &mut MultiSig, caller: Principal, new_owner: Principal) -> (res: Result<
    (),
    MultiSigError,
>)
    ensures
        match old(multi_sig)@.add_owner(caller, new_owner) {
            Ok(next) => res is Ok && final(multi_sig)@ == next,
            Err(e) => res == Err::<(), MultiSigError>(e) && *final(multi_sig) == *old(multi_sig),
        },
        old(multi_sig)@.wf() ==> final(multi_sig)@.wf(),
{
    if !contains(&multi_sig.owners, &caller) {
        return Err(MultiSigError::Unauthorized);
    }
    if contains(&multi_sig.owners, &new_owner) {
        return Err(MultiSigError::DuplicateOwner);
    }
    multi_sig.owners.push(new_owner);
    Ok(())
}

/// Removes `owner` from the owners, on behalf of `caller`.
///
/// Fails with `Unauthorized` if `caller` is not an owner, else with
/// `OwnerNotFound` if `owner` is not one, else with `ThresholdViolation` if
/// the owners left would be fewer than the threshold.
pub fn remove_owner(multi_sig: &mut MultiSig, caller: Principal, owner: Principal) -> (res: Result<
    (),
    MultiSigError,
>)
    ensures
        match old(multi_sig)@.remove_owner(caller, owner) {
            Ok(next) => res is Ok && final(multi_sig)@ == next,
            Err(e) => res == Err::<(), MultiSigError>(e) && *final(multi_sig) == *old(multi_sig),
        },
        old(multi_sig)@.wf() ==> final(multi_sig)@.wf(),
{
    if !contains(&multi_sig.owners, &caller) {
        return Err(MultiSigError::Unauthorized);
    }
    let at = match position(&multi_sig.owners, &owner) {
        Some(at) => at,
        None => {
            return Err(MultiSigError::OwnerNotFound);
        },
    };
    if multi_sig.threshold as usize > multi_sig.owners.len() - 1 {
        return Err(MultiSigError::ThresholdViolation);
    }
    proof {
        if multi_sig@.wf() {
            lemma_remove_value_distinct(multi_sig@.owners, owner);
        }
    }
    multi_sig.owners.remove(at);
    Ok(())
}

/// Sets the threshold to `new_threshold`, on behalf of `caller`.
///
/// Fails with `Unauthorized` if `caller` is not an owner, else with
/// `InvalidThreshold` if `new_threshold` is zero or greater than the current
/// number of owners.
pub fn update_threshold(multi_sig: &mut MultiSig, caller: Principal, new_threshold: u8) -> (res:
    Result<(), MultiSigError>)
    ensures
        match old(multi_sig)@.update_threshold(caller, new_threshold as nat) {
            Ok(next) => res is Ok && final(multi_sig)@ == next,
            Err(e) => res == Err::<(), MultiSigError>(e) && *final(multi_sig) == *old(multi_sig),
        },
        old(multi_sig)@.wf() ==> final(multi_sig)@.wf(),
{
    if !contains(&multi_sig.owners, &caller) {
        return Err(MultiSigError::Unauthorized);
    }
    if new_threshold == 0 || new_threshold as usize > multi_sig.owners.len() {
        return Err(MultiSigError::InvalidThreshold);
    }
    multi_sig.threshold = new_threshold;
    Ok(())
}

} // verus!
