//! What the ledger keeps of a deployment and of each agreement.

use crate::pubkey::Pubkey;
use crate::status::{due_time, OrderStatus, SECONDS_PER_DAY};
use vstd::prelude::*;

verus! {

/// The configuration of one deployment.
#[derive(Clone, Copy, Debug, PartialEq, Eq)]
pub struct ONFTStore {
    pub nft_mint: Pubkey,
    pub usdc_mint: Pubkey,
    pub endpoint_program: Pubkey,
    pub bump: u8,
    pub admin: Pubkey,
    pub default_fee_bps: u16,
    pub paused: bool,
    pub pauser: Option<Pubkey>,
    pub unpauser: Option<Pubkey>,
}

/// The accounts that resolving the accounts of an inbound message starts
/// from.
#[derive(Clone, Copy, Debug, PartialEq, Eq)]
pub struct ONFTLzReceiveTypesAccounts {
    pub onft_store: Pubkey,
    pub nft_mint: Pubkey,
}

/// The part that an account plays in an agreement.
#[derive(Clone, Copy, Debug, PartialEq, Eq, Structural)]
pub enum Role {
    Admin,
    User1,
    User2,
}

/// One agreement: an amount that the first user has locked for the second,
/// under an administrator.
#[derive(Clone, Copy, Debug, PartialEq, Eq)]
pub struct ONFTData {
    pub admin: Pubkey,
    /// The user who pays.
    pub user_1: Pubkey,
    /// The user who receives.
    pub user_2: Pubkey,
    pub usdc_mint: Pubkey,
    pub usdc_vault: Pubkey,
    pub amount: u64,
    pub status: OrderStatus,
    pub agreement_days: u64,
    pub created_at: i64,
    pub processing_at: Option<i64>,
    pub completion_due_at: Option<i64>,
    pub completed_at: Option<i64>,
    pub admin_signed: bool,
    pub user_1_signed: bool,
    pub user_2_signed: bool,
    /// Whether the locked funds have been paid out.
    pub released: bool,
    pub bump: u8,
    pub vault_bump: u8,
}

/// Whether one operation of a party or of the clock can take an agreement
/// from `before` to `after`: nothing changed, a party signed, a signature
/// completed the set and started processing, processing started on request,
/// the signed agreement was completed, or its funds were paid out.
pub open spec fn step(before: ONFTData, after: ONFTData) -> bool {
    ||| after == before
    ||| exists|role: Role| after == #[trigger] before.signed(role)
    ||| exists|role: Role, now: i64|
        before.status is Created && before.signed(role).spec_all_signed() && after
            == #[trigger] before.signed(role).started(now)
    ||| exists|now: i64| before.status is Created && after == #[trigger] before.started(now)
    ||| exists|now: i64|
        before.status is Processing && before.spec_all_signed() && after
            == #[trigger] before.finished(now)
    ||| before.status is Completed && after == before.paid_out()
}

/// Whether each agreement of `trace` follows from the one before it by one
/// operation.
pub open spec fn is_history(trace: Seq<ONFTData>) -> bool {
    forall|k: int| 0 <= k < trace.len() - 1 ==> step(#[trigger] trace[k], trace[k + 1])
}

impl ONFTData {
    /// Whether the administrator and both users have signed.
    pub open spec fn spec_all_signed(&self) -> bool {
        self.admin_signed && self.user_1_signed && self.user_2_signed
    }

    /// The part that `key` plays. An address that stands in several places
    /// plays the first of them: administrator, then first user, then second.
    pub open spec fn spec_role_of(&self, key: Pubkey) -> Option<Role> {
        if key == self.admin {
            Some(Role::Admin)
        } else if key == self.user_1 {
            Some(Role::User1)
        } else if key == self.user_2 {
            Some(Role::User2)
        } else {
            None
        }
    }

    /// Processing has started, and the due time follows from its start.
    pub open spec fn timed(&self) -> bool {
        &&& self.processing_at matches Some(start)
        &&& self.completion_due_at matches Some(due)
        &&& due == due_time(start as int, self.agreement_days as int)
    }

    /// The agreed period, counted from the creation of the agreement, ends
    /// within the range of a timestamp.
    pub open spec fn period_fits(&self) -> bool {
        due_time(self.created_at as int, self.agreement_days as int) <= i64::MAX
    }

    /// The agreement is consistent: its period fits, a fresh one carries no
    /// later timestamp, one under way has its due time, a completed one has
    /// every signature, and funds are paid out of a completed one only.
    pub open spec fn wf(&self) -> bool {
        &&& self.period_fits()
        &&& self.status_fits()
    }

    /// The timestamps, signatures and payout agree with the status.
    pub open spec fn status_fits(&self) -> bool {
        match self.status {
            OrderStatus::Created => {
                &&& self.processing_at is None
                &&& self.completion_due_at is None
                &&& self.completed_at is None
                &&& !self.released
            },
            OrderStatus::Processing => {
                &&& self.timed()
                &&& self.completed_at is None
                &&& !self.released
            },
            OrderStatus::Completed => {
                &&& self.spec_all_signed()
                &&& self.timed()
                &&& self.completed_at is Some
            },
        }
    }

    /// Whether the agreement is under way and its due time has come at `now`.
    pub open spec fn auto_completion_due(&self, now: i64) -> bool {
        &&& self.status is Processing
        &&& self.completion_due_at matches Some(due)
        &&& now >= due
    }

    /// The agreement once the party in `role` has signed.
    pub open spec fn signed(self, role: Role) -> ONFTData {
        match role {
            Role::Admin => ONFTData { admin_signed: true, ..self },
            Role::User1 => ONFTData { user_1_signed: true, ..self },
            Role::User2 => ONFTData { user_2_signed: true, ..self },
        }
    }

    /// The agreement once processing has started at `now`.
    pub open spec fn started(self, now: i64) -> ONFTData {
        ONFTData {
            status: OrderStatus::Processing,
            processing_at: Some(now),
            completion_due_at: Some(due_time(now as int, self.agreement_days as int) as i64),
            ..self
        }
    }

    /// The agreement once it has been completed at `now`.
    pub open spec fn finished(self, now: i64) -> ONFTData {
        ONFTData { status: OrderStatus::Completed, completed_at: Some(now), ..self }
    }

    /// The agreement once its funds have been paid out.
    pub open spec fn paid_out(self) -> ONFTData {
        ONFTData { released: true, ..self }
    }

    /// Whether the administrator and both users have signed.
    pub fn all_signed(&self) -> (r: bool)
        ensures
            r == self.spec_all_signed(),
    {
        self.admin_signed && self.user_1_signed && self.user_2_signed
    }

    /// The part that `key` plays in the agreement, if any.
    pub fn role_of(&self, key: &Pubkey) -> (r: Option<Role>)
        ensures
            r == self.spec_role_of(*key),
    {
        if key.equals(&self.admin) {
            Some(Role::Admin)
        } else if key.equals(&self.user_1) {
            Some(Role::User1)
        } else if key.equals(&self.user_2) {
            Some(Role::User2)
        } else {
            None
        }
    }

    /// Starts processing at `now` and fixes the due time.
    pub(crate) fn start(&mut self, now: i64)
        requires
            due_time(now as int, old(self).agreement_days as int) <= i64::MAX,
        ensures
            *final(self) == old(self).started(now),
    {
        let due: i128 = now as i128 + self.agreement_days as i128 * SECONDS_PER_DAY as i128;
        self.status = OrderStatus::Processing;
        self.processing_at = Some(now);
        self.completion_due_at = Some(due as i64);
    }

    /// Completes the agreement at `now`.
    pub(crate) fn finish(&mut self, now: i64)
        ensures
            *final(self) == old(self).finished(now),
    {
        self.status = OrderStatus::Completed;
        self.completed_at = Some(now);
    }
}

impl Role {
    /// The name of the role.
    pub open spec fn spec_name(self) -> Seq<char> {
        match self {
            Role::Admin => "admin"@,
            Role::User1 => "user_1"@,
            Role::User2 => "user_2"@,
        }
    }

    /// The name of the role.
    pub fn name(self) -> (r: String)
        ensures
            r@ == self.spec_name(),
    {
        match self {
            Role::Admin => "admin".to_owned(),
            Role::User1 => "user_1".to_owned(),
            Role::User2 => "user_2".to_owned(),
        }
    }
}

} // verus!
