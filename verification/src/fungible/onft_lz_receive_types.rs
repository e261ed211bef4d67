//! Naming the accounts that receiving a message will touch.

use crate::delivery::DeliveryAddresses;
use crate::endpoint::{LzAccount, LzReceiveParams};
use crate::errors::OFTError;
use crate::fungible::state::ONFTStore;
use crate::msg_codec::{parse_token_id, spec_token_id, MESSAGE_LENGTH};
use crate::pubkey::{system_program_id, Pubkey};
use vstd::prelude::*;

verus! {

/// Where the accounts are resolved from: the deployment's store, the mint of
/// its assets, and the program that owns them.
#[derive(Clone, Copy, Debug, PartialEq, Eq)]
pub struct ONFTLzReceiveTypes {
    pub onft_store: ONFTStore,
    /// The address of the deployment's store.
    pub onft_store_key: Pubkey,
    pub nft_mint: Pubkey,
    pub program_id: Pubkey,
}

/// The accounts of a delivery, in the order in which its handler takes them:
/// the executor that pays, the peer, the store, the mint, the order slot of
/// the asset, the system program, the event authority and the program, then
/// what the endpoint needs to clear the message.
pub open spec fn spec_accounts(
    peer: Pubkey,
    store: Pubkey,
    mint: Pubkey,
    item: Pubkey,
    system_program: Pubkey,
    event_authority: Pubkey,
    program: Pubkey,
    accounts_for_clear: Seq<LzAccount>,
) -> Seq<LzAccount> {
    seq![
        LzAccount { pubkey: Pubkey::zero(), is_signer: true, is_writable: true },
        LzAccount { pubkey: peer, is_signer: false, is_writable: true },
        LzAccount { pubkey: store, is_signer: false, is_writable: true },
        LzAccount { pubkey: mint, is_signer: false, is_writable: true },
        LzAccount { pubkey: item, is_signer: false, is_writable: true },
        LzAccount { pubkey: system_program, is_signer: false, is_writable: false },
        LzAccount { pubkey: event_authority, is_signer: false, is_writable: false },
        LzAccount { pubkey: program, is_signer: false, is_writable: false },
    ] + accounts_for_clear
}

impl ONFTLzReceiveTypes {
    /// Why no accounts are named, if none are: a message too short to hold a
    /// payload first, then seeds that derive no address.
    pub open spec fn spec_refusal(self, params: LzReceiveParams) -> Option<OFTError> {
        if params.message@.len() < MESSAGE_LENGTH {
            Some(OFTError::MalformedMessage)
        } else if !DeliveryAddresses::derivable(
            self.onft_store_key,
            self.program_id,
            params.src_eid,
            spec_token_id(params.message@),
        ) {
            Some(OFTError::NoViableBumpSeed)
        } else {
            None
        }
    }

    /// Whether `accounts` are those of the delivery of `params`: the peer of
    /// the source chain, the order slot of the asset that the message names
    /// and the event authority stand at their derived addresses.
    pub open spec fn is_resolved(
        self,
        params: LzReceiveParams,
        accounts_for_clear: Seq<LzAccount>,
        accounts: Seq<LzAccount>,
    ) -> bool {
        &&& accounts.len() == 8 + accounts_for_clear.len()
        &&& (DeliveryAddresses {
            peer: accounts[1].pubkey,
            item: accounts[4].pubkey,
            event_authority: accounts[6].pubkey,
        }).is_derived(
            self.onft_store_key,
            self.program_id,
            params.src_eid,
            spec_token_id(params.message@),
        )
        &&& accounts == spec_accounts(
            accounts[1].pubkey,
            self.onft_store_key,
            self.nft_mint,
            accounts[4].pubkey,
            Pubkey::zero(),
            accounts[6].pubkey,
            self.program_id,
            accounts_for_clear,
        )
    }

    /// Names, from the header of a message and the head of its payload, the
    /// accounts that receiving it will touch, each with whether it must sign
    /// and whether it is written: among them the order slot of the asset
    /// that the payload names, which is written and does not sign.
    /// `accounts_for_clear` are the accounts that the endpoint needs to clear
    /// the message; they close the list.
    ///
    /// This only prepares a delivery: what is authorised is decided when the
    /// message is received.
    pub fn apply(
        ctx: &ONFTLzReceiveTypes,
        params: &LzReceiveParams,
        accounts_for_clear: Vec<LzAccount>,
    ) -> (r: Result<Vec<LzAccount>, OFTError>)
        ensures
            match ctx.spec_refusal(*params) {
                Some(e) => r == Err::<Vec<LzAccount>, OFTError>(e),
                None => r matches Ok(accounts) && ctx.is_resolved(
                    *params,
                    accounts_for_clear@,
                    accounts@,
                ),
            },
    {
        let token_id = match parse_token_id(params.message.as_slice()) {
            Ok(token_id) => token_id,
            Err(_) => {
                return Err(OFTError::MalformedMessage);
            },
        };
        let addresses = match DeliveryAddresses::derive(
            &ctx.onft_store_key,
            &ctx.program_id,
            params.src_eid,
            token_id,
        ) {
            Some(addresses) => addresses,
            None => {
                return Err(OFTError::NoViableBumpSeed);
            },
        };
        let system_program = system_program_id();
        proof {
            Pubkey::lemma_zero(system_program);
        }
        Ok(
            Self::accounts(
                addresses.peer,
                ctx.onft_store_key,
                ctx.nft_mint,
                addresses.item,
                system_program,
                addresses.event_authority,
                ctx.program_id,
                accounts_for_clear,
            ),
        )
    }

    /// Lists the accounts of a delivery from the addresses already derived.
    pub fn accounts(
        peer: Pubkey,
        store: Pubkey,
        mint: Pubkey,
        item: Pubkey,
        system_program: Pubkey,
        event_authority: Pubkey,
        program: Pubkey,
        accounts_for_clear: Vec<LzAccount>,
    ) -> (accounts: Vec<LzAccount>)
        ensures
            accounts@ == spec_accounts(
                peer,
                store,
                mint,
                item,
                system_program,
                event_authority,
                program,
                accounts_for_clear@,
            ),
    {
        let mut accounts: Vec<LzAccount> = Vec::new();
        accounts.push(LzAccount { pubkey: Pubkey::default(), is_signer: true, is_writable: true });
        accounts.push(LzAccount { pubkey: peer, is_signer: false, is_writable: true });
        accounts.push(LzAccount { pubkey: store, is_signer: false, is_writable: true });
        accounts.push(LzAccount { pubkey: mint, is_signer: false, is_writable: true });
        accounts.push(LzAccount { pubkey: item, is_signer: false, is_writable: true });
        accounts.push(LzAccount { pubkey: system_program, is_signer: false, is_writable: false });
        accounts.push(LzAccount { pubkey: event_authority, is_signer: false, is_writable: false });
        accounts.push(LzAccount { pubkey: program, is_signer: false, is_writable: false });
        let mut rest = accounts_for_clear;
        accounts.append(&mut rest);
        accounts
    }
}

} // verus!
