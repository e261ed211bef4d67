//! Escrow of a fungible amount.

pub mod auto_complete;
pub mod create_onft;
pub mod events;
pub mod init_onft;
pub mod laws;
pub mod onft_lz_receive_types;
pub mod sign_agreement;
pub mod state;
pub mod transfer_funds;
pub mod update_status;
