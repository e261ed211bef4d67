//! Setting up a collection.

use crate::endpoint::RegisterOAppParams;
use crate::item::state::{LzReceiveTypesAccounts, ONFTStore};
use crate::pubkey::Pubkey;
use vstd::prelude::*;

verus! {

/// What a collection is set up from.
#[derive(Clone, Copy, Debug, PartialEq, Eq)]
pub struct InitONFT {
    pub payer: Pubkey,
    /// The address of the collection's store.
    pub onft_store_key: Pubkey,
    pub token_mint: Pubkey,
    pub token_escrow: Pubkey,
    /// The bump seed of the store's address.
    pub onft_store_bump: u8,
    /// The endpoint that serves where the caller names none.
    pub endpoint_id: Pubkey,
}

#[derive(Clone, Copy, Debug, PartialEq, Eq)]
pub struct InitONFTParams {
    pub admin: Pubkey,
    pub endpoint_program: Option<Pubkey>,
}

impl InitONFT {
    /// The endpoint of the collection: the one the caller names, else the
    /// one that serves by default.
    pub open spec fn spec_endpoint(self, params: InitONFTParams) -> Pubkey {
        match params.endpoint_program {
            Some(endpoint_program) => endpoint_program,
            None => self.endpoint_id,
        }
    }

    /// The store of a new collection: not paused, without fee, under the
    /// administrator that the caller names.
    pub open spec fn spec_store(self, params: InitONFTParams) -> ONFTStore {
        ONFTStore {
            token_mint: self.token_mint,
            token_escrow: self.token_escrow,
            endpoint_program: self.spec_endpoint(params),
            bump: self.onft_store_bump,
            admin: params.admin,
            default_fee_bps: 0,
            paused: false,
            pauser: None,
            unpauser: None,
        }
    }

    /// Sets up a collection: returns its store, the accounts from which the
    /// accounts of a delivery are resolved, and the request that registers
    /// the store with the endpoint under the administrator as delegate.
    pub fn apply(ctx: &InitONFT, params: &InitONFTParams) -> (r: (
        ONFTStore,
        LzReceiveTypesAccounts,
        RegisterOAppParams,
    ))
        ensures
            r.0 == ctx.spec_store(*params),
            r.1.onft_store == ctx.onft_store_key,
            r.1.nft_collection == ctx.token_mint,
            r.2.delegate == params.admin,
    {
        let endpoint_program = match params.endpoint_program {
            Some(endpoint_program) => endpoint_program,
            None => ctx.endpoint_id,
        };
        (
            ONFTStore {
                token_mint: ctx.token_mint,
                token_escrow: ctx.token_escrow,
                endpoint_program,
                bump: ctx.onft_store_bump,
                admin: params.admin,
                default_fee_bps: 0,
                paused: false,
                pauser: None,
                unpauser: None,
            },
            LzReceiveTypesAccounts {
                onft_store: ctx.onft_store_key,
                nft_collection: ctx.token_mint,
            },
            RegisterOAppParams { delegate: params.admin },
        )
    }
}

} // verus!
