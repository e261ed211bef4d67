//! Setting up a deployment.

use crate::endpoint::RegisterOAppParams;
use crate::fungible::state::{ONFTLzReceiveTypesAccounts, ONFTStore};
use crate::pubkey::Pubkey;
use vstd::prelude::*;

verus! {

/// What a deployment is set up from.
#[derive(Clone, Copy, Debug, PartialEq, Eq)]
pub struct InitONFT {
    pub admin: Pubkey,
    /// The address of the deployment's store.
    pub onft_store_key: Pubkey,
    pub nft_mint: Pubkey,
    pub usdc_mint: Pubkey,
    /// The endpoint that serves where the caller names none.
    pub endpoint_id: Pubkey,
}

#[derive(Clone, Copy, Debug, PartialEq, Eq)]
pub struct InitONFTParams {
    pub endpoint_program: Option<Pubkey>,
}

impl InitONFT {
    /// The store of a new deployment: not paused, without fee, under the
    /// administrator who sets it up, with the endpoint the caller names or
    /// else the one that serves by default.
    pub open spec fn spec_store(self, params: InitONFTParams, onft_store_bump: u8) -> ONFTStore {
        ONFTStore {
            nft_mint: self.nft_mint,
            usdc_mint: self.usdc_mint,
            endpoint_program: match params.endpoint_program {
                Some(endpoint_program) => endpoint_program,
                None => self.endpoint_id,
            },
            bump: onft_store_bump,
            admin: self.admin,
            default_fee_bps: 0,
            paused: false,
            pauser: None,
            unpauser: None,
        }
    }

    /// Sets up a deployment: returns its store, the accounts from which the
    /// accounts of a delivery are resolved, and the request that registers
    /// the store with the endpoint under the administrator as delegate.
    pub fn apply(ctx: &InitONFT, params: &InitONFTParams, onft_store_bump: u8) -> (r: (
        ONFTStore,
        ONFTLzReceiveTypesAccounts,
        RegisterOAppParams,
    ))
        ensures
            r.0 == ctx.spec_store(*params, onft_store_bump),
            r.1.onft_store == ctx.onft_store_key,
            r.1.nft_mint == ctx.nft_mint,
            r.2.delegate == ctx.admin,
    {
        let endpoint_program = match params.endpoint_program {
            Some(endpoint_program) => endpoint_program,
            None => ctx.endpoint_id,
        };
        (
            ONFTStore {
                nft_mint: ctx.nft_mint,
                usdc_mint: ctx.usdc_mint,
                endpoint_program,
                bump: onft_store_bump,
                admin: ctx.admin,
                default_fee_bps: 0,
                paused: false,
                pauser: None,
                unpauser: None,
            },
            ONFTLzReceiveTypesAccounts { onft_store: ctx.onft_store_key, nft_mint: ctx.nft_mint },
            RegisterOAppParams { delegate: ctx.admin },
        )
    }
}

} // verus!
