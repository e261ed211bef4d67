//! Escrow of a unique item, and its transfer between chains.

pub mod approve_nft;
pub mod check_auto_completion;
pub mod create_nft;
pub mod events;
pub mod init_onft;
pub mod laws;
pub mod lz_receive_nft;
pub mod lz_receive_types;
pub mod quote_send;
pub mod send_nft;
pub mod state;
pub mod update_status;
