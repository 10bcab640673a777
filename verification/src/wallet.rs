//! The owner registry and wallet controller: who may act, the quorum
//! threshold, the time-lock duration and the pause gate.

use vstd::prelude::*;

use crate::account::{contains_id, remove_account, remove_id, AccountId};
use crate::account::lemma_remove_id_properties;
use crate::errors::ErrorCode;

verus! {

/// The owner set a wallet is governed by, with its quorum threshold,
/// mandatory execution delay and emergency pause flag.
#[derive(Clone, Debug)]
pub struct Wallet {
    pub owners: Vec<AccountId>,
    pub threshold: u8,
    pub time_lock_duration: i64,
    pub is_paused: bool,
}

impl Wallet {
    /// The structural invariant every operation preserves: between one
    /// and fifty distinct owners, a threshold between one and the
    /// owner count, and a non-negative time-lock duration.
    pub open spec fn wf(self) -> bool {
        &&& 1 <= self.threshold as int <= self.owners@.len() <= 50
        &&& self.owners@.no_duplicates()
        &&& self.time_lock_duration >= 0
    }

    /// Whether `id` is a current owner.
    pub fn is_owner(&self, id: AccountId) -> (r: bool)
        ensures
            r == self.owners@.contains(id),
    {
        contains_id(&self.owners, id)
    }

    /// The error an `add_owner` call returns, or `None` when it
    /// succeeds. Authorization is checked first, then capacity, then
    /// duplication.
    pub open spec fn add_owner_check(self, caller: AccountId, new_owner: AccountId) -> Option<
        ErrorCode,
    > {
        if !self.owners@.contains(caller) {
            Some(ErrorCode::NotOwner)
        } else if self.owners@.len() >= 50 {
            Some(ErrorCode::TooManyOwners)
        } else if self.owners@.contains(new_owner) {
            Some(ErrorCode::OwnerAlreadyExists)
        } else {
            None
        }
    }

    /// Appends `new_owner` to the owner set. Only a current owner may
    /// do so; the set is capped at fifty and never holds an identity
    /// twice. On any error the wallet is left unchanged.
    pub fn add_owner(&mut self, caller: AccountId, new_owner: AccountId) -> (r: Result<
        (),
        ErrorCode,
    >)
        requires
            old(self).wf(),
        ensures
            final(self).wf(),
            (match old(self).add_owner_check(caller, new_owner) {
                Some(e) => r == Err::<(), ErrorCode>(e) && *final(self) == *old(self),
                None => {
                    &&& r == Ok::<(), ErrorCode>(())
                    &&& final(self).owners@ == old(self).owners@.push(new_owner)
                    &&& final(self).threshold == old(self).threshold
                    &&& final(self).time_lock_duration == old(self).time_lock_duration
                    &&& final(self).is_paused == old(self).is_paused
                },
            }),
    {
        if !contains_id(&self.owners, caller) {
            return Err(ErrorCode::NotOwner);
        }
        if self.owners.len() >= 50 {
            return Err(ErrorCode::TooManyOwners);
        }
        if contains_id(&self.owners, new_owner) {
            return Err(ErrorCode::OwnerAlreadyExists);
        }
        self.owners.push(new_owner);
        Ok(())
    }

    /// The error a `remove_owner` call returns, or `None` when it
    /// succeeds.
    pub open spec fn remove_owner_check(self, caller: AccountId, owner_to_remove: AccountId)
        -> Option<ErrorCode> {
        if !self.owners@.contains(caller) {
            Some(ErrorCode::NotOwner)
        } else if !self.owners@.contains(owner_to_remove) {
            Some(ErrorCode::OwnerNotFound)
        } else if self.owners@.len() <= 1 {
            Some(ErrorCode::CannotRemoveLastOwner)
        } else {
            None
        }
    }

    /// Removes `owner_to_remove` from the owner set. The last owner
    /// can never be removed; if the shrunken set falls below the
    /// current threshold, the threshold is clamped down to the new
    /// owner count as a side effect, not an error. On any error the
    /// wallet is left unchanged.
    pub fn remove_owner(&mut self, caller: AccountId, owner_to_remove: AccountId) -> (r: Result<
        (),
        ErrorCode,
    >)
        requires
            old(self).wf(),
        ensures
            final(self).wf(),
            (match old(self).remove_owner_check(caller, owner_to_remove) {
                Some(e) => r == Err::<(), ErrorCode>(e) && *final(self) == *old(self),
                None => {
                    &&& r == Ok::<(), ErrorCode>(())
                    &&& final(self).owners@ == remove_id(old(self).owners@, owner_to_remove)
                    &&& final(self).owners@.len() == old(self).owners@.len() - 1
                    &&& final(self).threshold as int == if old(self).threshold as int > old(
                        self,
                    ).owners@.len() - 1 {
                        old(self).owners@.len() - 1
                    } else {
                        old(self).threshold as int
                    }
                    &&& final(self).time_lock_duration == old(self).time_lock_duration
                    &&& final(self).is_paused == old(self).is_paused
                },
            }),
    {
        if !contains_id(&self.owners, caller) {
            return Err(ErrorCode::NotOwner);
        }
        if !contains_id(&self.owners, owner_to_remove) {
            return Err(ErrorCode::OwnerNotFound);
        }
        if self.owners.len() <= 1 {
            return Err(ErrorCode::CannotRemoveLastOwner);
        }
        proof {
            lemma_remove_id_properties(self.owners@, owner_to_remove);
        }
        let kept = remove_account(&self.owners, owner_to_remove);
        self.owners = kept;
        if self.threshold as usize > self.owners.len() {
            self.threshold = self.owners.len() as u8;
        }
        Ok(())
    }

    /// The error a `change_threshold` call returns, or `None` when it
    /// succeeds.
    pub open spec fn change_threshold_check(self, caller: AccountId, new_threshold: u8) -> Option<
        ErrorCode,
    > {
        if !self.owners@.contains(caller) {
            Some(ErrorCode::NotOwner)
        } else if !(1 <= new_threshold as int <= self.owners@.len()) {
            Some(ErrorCode::InvalidThreshold)
        } else {
            None
        }
    }

    /// Sets the quorum threshold, which must stay between one and the
    /// owner count. On any error the wallet is left unchanged.
    pub fn change_threshold(&mut self, caller: AccountId, new_threshold: u8) -> (r: Result<
        (),
        ErrorCode,
    >)
        requires
            old(self).wf(),
        ensures
            final(self).wf(),
            (match old(self).change_threshold_check(caller, new_threshold) {
                Some(e) => r == Err::<(), ErrorCode>(e) && *final(self) == *old(self),
                None => {
                    &&& r == Ok::<(), ErrorCode>(())
                    &&& final(self).threshold == new_threshold
                    &&& final(self).owners@ == old(self).owners@
                    &&& final(self).time_lock_duration == old(self).time_lock_duration
                    &&& final(self).is_paused == old(self).is_paused
                },
            }),
    {
        if !contains_id(&self.owners, caller) {
            return Err(ErrorCode::NotOwner);
        }
        if new_threshold == 0 || new_threshold as usize > self.owners.len() {
            return Err(ErrorCode::InvalidThreshold);
        }
        self.threshold = new_threshold;
        Ok(())
    }

    /// Pauses the wallet. Any single current owner may pull this
    /// emergency brake; no quorum is required, a deliberate asymmetry
    /// between the fast stop and the slow, quorum-gated operations.
    pub fn pause_wallet(&mut self, caller: AccountId) -> (r: Result<(), ErrorCode>)
        requires
            old(self).wf(),
        ensures
            final(self).wf(),
            (if !old(self).owners@.contains(caller) {
                r == Err::<(), ErrorCode>(ErrorCode::NotOwner) && *final(self) == *old(self)
            } else {
                &&& r == Ok::<(), ErrorCode>(())
                &&& final(self).is_paused == true
                &&& final(self).owners@ == old(self).owners@
                &&& final(self).threshold == old(self).threshold
                &&& final(self).time_lock_duration == old(self).time_lock_duration
            }),
    {
        if !contains_id(&self.owners, caller) {
            return Err(ErrorCode::NotOwner);
        }
        self.is_paused = true;
        Ok(())
    }

    /// Unpauses the wallet. Any single current owner may do so.
    pub fn unpause_wallet(&mut self, caller: AccountId) -> (r: Result<(), ErrorCode>)
        requires
            old(self).wf(),
        ensures
            final(self).wf(),
            (if !old(self).owners@.contains(caller) {
                r == Err::<(), ErrorCode>(ErrorCode::NotOwner) && *final(self) == *old(self)
            } else {
                &&& r == Ok::<(), ErrorCode>(())
                &&& final(self).is_paused == false
                &&& final(self).owners@ == old(self).owners@
                &&& final(self).threshold == old(self).threshold
                &&& final(self).time_lock_duration == old(self).time_lock_duration
            }),
    {
        if !contains_id(&self.owners, caller) {
            return Err(ErrorCode::NotOwner);
        }
        self.is_paused = false;
        Ok(())
    }
}

/// The error an `initialize_wallet` call returns, or `None` when it
/// succeeds: the owner count is checked first, then the threshold.
pub open spec fn initialize_check(owners: Seq<AccountId>, threshold: u8) -> Option<ErrorCode> {
    if !(1 <= owners.len() <= 50) {
        Some(ErrorCode::InvalidOwnersCount)
    } else if !(1 <= threshold as int <= owners.len()) {
        Some(ErrorCode::InvalidThreshold)
    } else {
        None
    }
}

/// A fresh, unpaused wallet over the given owner set. The owners must
/// be distinct identities (they form a set) and the time-lock duration
/// a non-negative time span; between one and fifty owners and a
/// threshold between one and the owner count are demanded of the
/// caller, with the exact error otherwise.
pub fn initialize_wallet(owners: Vec<AccountId>, threshold: u8, time_lock_duration: i64) -> (r:
    Result<Wallet, ErrorCode>)
    requires
        owners@.no_duplicates(),
        time_lock_duration >= 0,
    ensures
        (match initialize_check(owners@, threshold) {
            Some(e) => r == Err::<Wallet, ErrorCode>(e),
            None => {
                &&& r matches Ok(w)
                &&& w.owners@ == owners@
                &&& w.threshold == threshold
                &&& w.time_lock_duration == time_lock_duration
                &&& w.is_paused == false
                &&& w.wf()
            },
        }),
{
    if owners.len() == 0 || owners.len() > 50 {
        return Err(ErrorCode::InvalidOwnersCount);
    }
    if threshold == 0 || threshold as usize > owners.len() {
        return Err(ErrorCode::InvalidThreshold);
    }
    Ok(Wallet { owners, threshold, time_lock_duration, is_paused: false })
}

} // verus!
