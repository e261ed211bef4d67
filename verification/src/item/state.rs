//! What the ledger keeps of a collection and of each of its items.

use crate::errors::ONFTError;
use crate::pubkey::Pubkey;
use crate::status::{due_time, OrderStatus, SECONDS_PER_DAY};
use vstd::prelude::*;

verus! {

/// The configuration of one collection.
#[derive(Clone, Copy, Debug, PartialEq, Eq)]
pub struct ONFTStore {
    pub token_mint: Pubkey,
    pub token_escrow: Pubkey,
    pub endpoint_program: Pubkey,
    pub bump: u8,
    pub admin: Pubkey,
    pub default_fee_bps: u16,
    pub paused: bool,
    pub pauser: Option<Pubkey>,
    pub unpauser: Option<Pubkey>,
}

/// The accounts that resolving the accounts of an inbound message starts
/// from.
#[derive(Clone, Copy, Debug, PartialEq, Eq)]
pub struct LzReceiveTypesAccounts {
    pub onft_store: Pubkey,
    pub nft_collection: Pubkey,
}

/// One item under escrow: the order between its two signers.
#[derive(Clone, Debug, PartialEq, Eq)]
pub struct NFTItem {
    pub token_id: u64,
    pub owner: Pubkey,
    pub status: OrderStatus,
    /// The two counterparties; the second one receives.
    pub signers: [Option<Pubkey>; 2],
    /// Whether each signer has approved, in the order of `signers`.
    pub signer_approvals: [bool; 2],
    pub created_at: i64,
    pub processing_at: Option<i64>,
    pub completion_due_at: Option<i64>,
    pub completed_at: Option<i64>,
    pub days_to_complete: u8,
    pub metadata: Option<String>,
    pub bump: u8,
}

/// Whether one operation of a party or of the clock can take an order from
/// `before` to `after`: nothing changed, a signer approved, the status moved
/// on request, or the order was completed because it was due.
pub open spec fn step(before: NFTItem, after: NFTItem) -> bool {
    ||| after == before
    ||| exists|index: int| 0 <= index < 2 && after == #[trigger] before.approved(index)
    ||| exists|new_status: OrderStatus, now: i64|
        #[trigger] before.spec_change_status(new_status, now) == Ok::<NFTItem, ONFTError>(after)
    ||| exists|now: i64|
        before.auto_completion_due(now) && after == #[trigger] before.finished(now)
}

/// Whether each order of `trace` follows from the one before it by one
/// operation.
pub open spec fn is_history(trace: Seq<NFTItem>) -> bool {
    forall|k: int| 0 <= k < trace.len() - 1 ==> step(#[trigger] trace[k], trace[k + 1])
}

impl NFTItem {
    /// Whether both signers have approved.
    pub open spec fn spec_all_approved(&self) -> bool {
        self.signer_approvals@[0] && self.signer_approvals@[1]
    }

    /// The first position at which `key` stands among the signers.
    pub open spec fn spec_signer_index(&self, key: Pubkey) -> Option<int> {
        if self.signers@[0] == Some(key) {
            Some(0)
        } else if self.signers@[1] == Some(key) {
            Some(1)
        } else {
            None
        }
    }

    /// Whether `key` is a signer that has approved.
    pub open spec fn spec_is_approved_signer(&self, key: Pubkey) -> bool {
        ||| self.signers@[0] == Some(key) && self.signer_approvals@[0]
        ||| self.signers@[1] == Some(key) && self.signer_approvals@[1]
    }

    /// The order is consistent: a fresh order carries no later timestamp, an
    /// order that is under way or settled has every approval, and its due time
    /// is the start of processing plus the agreed days.
    pub open spec fn wf(&self) -> bool {
        match self.status {
            OrderStatus::Created => {
                &&& self.processing_at is None
                &&& self.completion_due_at is None
                &&& self.completed_at is None
            },
            OrderStatus::Processing => {
                &&& self.spec_all_approved()
                &&& self.timed()
                &&& self.completed_at is None
            },
            OrderStatus::Completed => {
                &&& self.spec_all_approved()
                &&& self.timed()
                &&& self.completed_at is Some
            },
        }
    }

    /// Processing has started, and the due time follows from its start.
    pub open spec fn timed(&self) -> bool {
        &&& self.processing_at matches Some(start)
        &&& self.completion_due_at matches Some(due)
        &&& due == due_time(start as int, self.days_to_complete as int)
    }

    /// Whether the order is under way and its due time has come at `now`.
    pub open spec fn auto_completion_due(&self, now: i64) -> bool {
        &&& self.status is Processing
        &&& self.completion_due_at matches Some(due)
        &&& now >= due
    }

    /// The order once the signer at `index` has approved.
    pub open spec fn approved(self, index: int) -> NFTItem {
        NFTItem {
            signer_approvals: if index == 0 {
                [true, self.signer_approvals[1]]
            } else {
                [self.signer_approvals[0], true]
            },
            ..self
        }
    }

    /// The order once processing has started at `now`.
    pub open spec fn started(self, now: i64) -> NFTItem {
        NFTItem {
            status: OrderStatus::Processing,
            processing_at: Some(now),
            completion_due_at: Some(due_time(now as int, self.days_to_complete as int) as i64),
            ..self
        }
    }

    /// The order once it has been completed at `now`.
    pub open spec fn finished(self, now: i64) -> NFTItem {
        NFTItem { status: OrderStatus::Completed, completed_at: Some(now), ..self }
    }

    /// The order as a message from another chain leaves it: fresh, under
    /// `owner`, for the item `token_id`.
    pub open spec fn received(self, token_id: u64, owner: Pubkey, now: i64) -> NFTItem {
        NFTItem {
            token_id,
            owner,
            status: OrderStatus::Created,
            signer_approvals: [false, false],
            created_at: now,
            processing_at: None,
            completion_due_at: None,
            completed_at: None,
            ..self
        }
    }

    /// What a request to move the order to `new_status` at `now` leaves.
    pub open spec fn spec_change_status(self, new_status: OrderStatus, now: i64) -> Result<
        NFTItem,
        ONFTError,
    > {
        match new_status {
            OrderStatus::Created => Err(ONFTError::InvalidTransition),
            OrderStatus::Processing => if self.status is Created {
                Ok(self.started(now))
            } else {
                Err(ONFTError::InvalidTransition)
            },
            OrderStatus::Completed => if self.status is Processing {
                Ok(self.finished(now))
            } else {
                Err(ONFTError::InvalidTransition)
            },
        }
    }

    /// Whether both signers have approved.
    pub fn all_approved(&self) -> (r: bool)
        ensures
            r == self.spec_all_approved(),
    {
        self.signer_approvals[0] && self.signer_approvals[1]
    }

    /// The first position at which `key` stands among the signers.
    pub fn signer_index(&self, key: &Pubkey) -> (r: Option<usize>)
        ensures
            match r {
                Some(i) => self.spec_signer_index(*key) == Some(i as int),
                None => self.spec_signer_index(*key) is None,
            },
    {
        let mut i: usize = 0;
        while i < 2
            invariant
                i <= 2,
                forall|j: int| 0 <= j < i ==> self.signers@[j] != Some(*key),
            decreases 2 - i,
        {
            if let Some(signer) = &self.signers[i] {
                if signer.equals(key) {
                    return Some(i);
                }
            }
            i = i + 1;
        }
        None
    }

    /// Whether `key` is a signer that has approved.
    pub fn is_approved_signer(&self, key: &Pubkey) -> (r: bool)
        ensures
            r == self.spec_is_approved_signer(*key),
    {
        let mut i: usize = 0;
        while i < 2
            invariant
                i <= 2,
                forall|j: int|
                    0 <= j < i ==> !(self.signers@[j] == Some(*key) && self.signer_approvals@[j]),
            decreases 2 - i,
        {
            if let Some(signer) = &self.signers[i] {
                if signer.equals(key) && self.signer_approvals[i] {
                    return true;
                }
            }
            i = i + 1;
        }
        false
    }

    /// Completes the order if it is under way and its due time has come.
    ///
    /// Returns whether it did. Anyone may call this: it only takes the order
    /// where its signers agreed it would go.
    pub fn check_auto_completion(&mut self, now: i64) -> (completed: bool)
        ensures
            completed == old(self).auto_completion_due(now),
            completed ==> *final(self) == old(self).finished(now),
            !completed ==> *final(self) == *old(self),
            old(self).wf() ==> final(self).wf(),
            step(*old(self), *final(self)),
    {
        if self.status == OrderStatus::Processing {
            if let Some(due) = self.completion_due_at {
                if now >= due {
                    self.status = OrderStatus::Completed;
                    self.completed_at = Some(now);
                    return true;
                }
            }
        }
        false
    }

    /// Moves the order to `new_status`, stamping `now`.
    ///
    /// `Processing` follows `Created` only and fixes the due time;
    /// `Completed` follows `Processing` only; nothing leads to `Created`. A
    /// refused request leaves the order as it was.
    pub fn change_status(&mut self, new_status: OrderStatus, now: i64) -> (r: Result<(), ONFTError>)
        requires
            new_status is Processing && old(self).status is Created ==> due_time(
                now as int,
                old(self).days_to_complete as int,
            ) <= i64::MAX,
        ensures
            match old(self).spec_change_status(new_status, now) {
                Ok(item) => r is Ok && *final(self) == item,
                Err(e) => r == Err::<(), ONFTError>(e) && *final(self) == *old(self),
            },
            old(self).wf() && (new_status is Processing ==> old(self).spec_all_approved())
                ==> final(self).wf(),
            step(*old(self), *final(self)),
    {
        match new_status {
            OrderStatus::Created => Err(ONFTError::InvalidTransition),
            OrderStatus::Processing => {
                if self.status != OrderStatus::Created {
                    return Err(ONFTError::InvalidTransition);
                }
                let period: i64 = self.days_to_complete as i64 * SECONDS_PER_DAY;
                self.status = OrderStatus::Processing;
                self.processing_at = Some(now);
                self.completion_due_at = Some(now + period);
                Ok(())
            },
            OrderStatus::Completed => {
                if self.status != OrderStatus::Processing {
                    return Err(ONFTError::InvalidTransition);
                }
                self.status = OrderStatus::Completed;
                self.completed_at = Some(now);
                Ok(())
            },
        }
    }
}

} // verus!
