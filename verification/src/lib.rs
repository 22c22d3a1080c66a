//! Cross-chain lifecycle of unique asset records.
//!
//! The crate holds the state machine that issues non-fungible asset records on
//! one ledger and moves them to other ledgers: identifier generation, the
//! registry of connected chains, the program configuration with its admin
//! surface, and the per-asset transitions mint, burn, outbound transfer,
//! inbound receive and revert. Every operation either returns an error and
//! leaves all state as it was, or commits all of its changes and returns the
//! event that an observer is owed.

pub mod identity;
pub mod error;
pub mod token_id;
pub mod records;
pub mod events;
pub mod descriptor;
pub mod universal_nft_core;
pub mod deployment;
pub mod machine;
pub mod laws;

pub use crate::deployment::{Deployment, DeploymentView, Staged};
pub use crate::descriptor::{descriptor_for, to_decimal, Descriptor};
pub use crate::error::{ErrorCode, ErrorKind};
pub use crate::events::{
    ChainConnected, ContractPaused, ContractUnpaused, GasLimitUpdated, GatewayUpdated, LedgerCall,
    ProgramInitialized, TokenBurned, TokenMinted, TokenTransfer, TokenTransferReceived,
    TokenTransferReverted,
};
pub use crate::identity::Pubkey;
pub use crate::machine::{Emitted, Operation};
pub use crate::records::{
    ChainConnection, EnumerableData, Lifecycle, NFTOrigin, NftData, PendingTransfer, ProgramState,
};
pub use crate::token_id::generate_token_id;
pub use crate::universal_nft_core::{
    burn_token, check_cross_chain_receive, check_safe_mint, check_transfer_request,
    handle_cross_chain_receive, initialize, is_paused, pause, revert_transfer,
    safe_mint, set_connected, set_gas_limit, set_gateway, token_of_owner_by_index, total_supply,
    transfer_cross_chain, unpause, Minted, Received,
};
