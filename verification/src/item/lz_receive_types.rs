//! Naming the accounts that receiving a message will touch.

use crate::delivery::DeliveryAddresses;
use crate::endpoint::{LzAccount, LzReceiveParams};
use crate::errors::ONFTError;
use crate::msg_codec::{decode, spec_receiver, spec_token_id, MESSAGE_LENGTH};
use crate::pubkey::{system_program_id, Pubkey};
use vstd::prelude::*;

verus! {

/// Where the accounts are resolved from: the collection's store and the
/// program that owns it.
#[derive(Clone, Copy, Debug, PartialEq, Eq)]
pub struct LzReceiveTypes {
    pub onft_store_key: Pubkey,
    pub program_id: Pubkey,
}

/// The accounts of a delivery, in the order in which its handler takes them:
/// the executor that pays, the peer, the store, the order slot, the new
/// owner, the system program, the event authority and the program, then what
/// the endpoint needs to clear the message.
pub open spec fn spec_accounts(
    peer: Pubkey,
    store: Pubkey,
    item: Pubkey,
    owner: Pubkey,
    system_program: Pubkey,
    event_authority: Pubkey,
    program: Pubkey,
    accounts_for_clear: Seq<LzAccount>,
) -> Seq<LzAccount> {
    seq![
        LzAccount { pubkey: Pubkey::zero(), is_signer: true, is_writable: true },
        LzAccount { pubkey: peer, is_signer: false, is_writable: true },
        LzAccount { pubkey: store, is_signer: false, is_writable: true },
        LzAccount { pubkey: item, is_signer: false, is_writable: true },
        LzAccount { pubkey: owner, is_signer: false, is_writable: false },
        LzAccount { pubkey: system_program, is_signer: false, is_writable: false },
        LzAccount { pubkey: event_authority, is_signer: false, is_writable: false },
        LzAccount { pubkey: program, is_signer: false, is_writable: false },
    ] + accounts_for_clear
}

impl LzReceiveTypes {
    /// Why no accounts are named, if none are: a message too short to hold a
    /// payload first, then seeds that derive no address.
    pub open spec fn spec_refusal(self, params: LzReceiveParams) -> Option<ONFTError> {
        if params.message@.len() < MESSAGE_LENGTH {
            Some(ONFTError::MalformedMessage)
        } else if !DeliveryAddresses::derivable(
            self.onft_store_key,
            self.program_id,
            params.src_eid,
            spec_token_id(params.message@),
        ) {
            Some(ONFTError::NoViableBumpSeed)
        } else {
            None
        }
    }

    /// Whether `accounts` are those of the delivery of `params`: the peer of
    /// the source chain, the order slot of the item that the message names
    /// and the event authority stand at their derived addresses, and the new
    /// owner at the address that the message names.
    pub open spec fn is_resolved(
        self,
        params: LzReceiveParams,
        accounts_for_clear: Seq<LzAccount>,
        accounts: Seq<LzAccount>,
    ) -> bool {
        &&& accounts.len() == 8 + accounts_for_clear.len()
        &&& (DeliveryAddresses {
            peer: accounts[1].pubkey,
            item: accounts[3].pubkey,
            event_authority: accounts[6].pubkey,
        }).is_derived(
            self.onft_store_key,
            self.program_id,
            params.src_eid,
            spec_token_id(params.message@),
        )
        &&& accounts[4].pubkey@ == spec_receiver(params.message@)
        &&& accounts == spec_accounts(
            accounts[1].pubkey,
            self.onft_store_key,
            accounts[3].pubkey,
            accounts[4].pubkey,
            Pubkey::zero(),
            accounts[6].pubkey,
            self.program_id,
            accounts_for_clear,
        )
    }

    /// Names, from the header of a message and the head of its payload, the
    /// accounts that receiving it will touch, each with whether it must sign
    /// and whether it is written. `accounts_for_clear` are the accounts that
    /// the endpoint needs to clear the message; they close the list.
    ///
    /// This only prepares a delivery: what is authorised is decided when the
    /// message is received.
    pub fn apply(
        ctx: &LzReceiveTypes,
        params: &LzReceiveParams,
        accounts_for_clear: Vec<LzAccount>,
    ) -> (r: Result<Vec<LzAccount>, ONFTError>)
        ensures
            match ctx.spec_refusal(*params) {
                Some(e) => r == Err::<Vec<LzAccount>, ONFTError>(e),
                None => r matches Ok(accounts) && ctx.is_resolved(
                    *params,
                    accounts_for_clear@,
                    accounts@,
                ),
            },
    {
        let (token_id, receiver) = match decode(params.message.as_slice()) {
            Ok(payload) => payload,
            Err(e) => {
                return Err(e);
            },
        };
        let addresses = match DeliveryAddresses::derive(
            &ctx.onft_store_key,
            &ctx.program_id,
            params.src_eid,
            token_id,
        ) {
            Some(addresses) => addresses,
            None => {
                return Err(ONFTError::NoViableBumpSeed);
            },
        };
        let system_program = system_program_id();
        proof {
            Pubkey::lemma_zero(system_program);
        }
        Ok(
            Self::accounts(
                addresses.peer,
                ctx.onft_store_key,
                addresses.item,
                Pubkey::new_from_array(receiver),
                system_program,
                addresses.event_authority,
                ctx.program_id,
                accounts_for_clear,
            ),
        )
    }

    /// Lists the accounts of a delivery from the addresses already derived.
    pub fn accounts(
        peer: Pubkey,
        store: Pubkey,
        item: Pubkey,
        owner: Pubkey,
        system_program: Pubkey,
        event_authority: Pubkey,
        program: Pubkey,
        accounts_for_clear: Vec<LzAccount>,
    ) -> (accounts: Vec<LzAccount>)
        ensures
            accounts@ == spec_accounts(
                peer,
                store,
                item,
                owner,
                system_program,
                event_authority,
                program,
                accounts_for_clear@,
            ),
    {
        let mut accounts: Vec<LzAccount> = Vec::new();
        accounts.push(LzAccount { pubkey: Pubkey::default(), is_signer: true, is_writable: true });
        accounts.push(LzAccount { pubkey: peer, is_signer: false, is_writable: true });
        accounts.push(LzAccount { pubkey: store, is_signer: false, is_writable: true });
        accounts.push(LzAccount { pubkey: item, is_signer: false, is_writable: true });
        accounts.push(LzAccount { pubkey: owner, is_signer: false, is_writable: false });
        accounts.push(LzAccount { pubkey: system_program, is_signer: false, is_writable: false });
        accounts.push(LzAccount { pubkey: event_authority, is_signer: false, is_writable: false });
        accounts.push(LzAccount { pubkey: program, is_signer: false, is_writable: false });
        let mut rest = accounts_for_clear;
        accounts.append(&mut rest);
        accounts
    }
}

} // verus!
