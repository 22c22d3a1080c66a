use vstd::prelude::*;
use crate::identity::Pubkey;

verus! {

/// The program was initialized.
#[derive(Clone, Debug, PartialEq, Eq)]
pub struct ProgramInitialized {
    pub authority: Pubkey,
    pub name: String,
    pub symbol: String,
    pub gateway: Pubkey,
}

/// The relay endpoint was replaced.
#[derive(Clone, Copy, Debug, PartialEq, Eq)]
pub struct GatewayUpdated {
    pub new_gateway: Pubkey,
}

/// The gas limit was replaced.
#[derive(Clone, Copy, Debug, PartialEq, Eq)]
pub struct GasLimitUpdated {
    pub new_gas_limit: u64,
}

/// A remote chain was connected.
#[derive(Clone, Debug, PartialEq, Eq)]
pub struct ChainConnected {
    pub chain_id: u64,
    pub contract_address: String,
}

/// The program was paused.
#[derive(Clone, Copy, Debug, PartialEq, Eq)]
pub struct ContractPaused {
    pub by: Pubkey,
}

/// The program was unpaused.
#[derive(Clone, Copy, Debug, PartialEq, Eq)]
pub struct ContractUnpaused {
    pub by: Pubkey,
}

/// An asset was minted.
#[derive(Clone, Debug, PartialEq, Eq)]
pub struct TokenMinted {
    pub recipient: Pubkey,
    pub token_id: u64,
    pub uri: String,
}

/// An asset was burned by its owner.
#[derive(Clone, Copy, Debug, PartialEq, Eq)]
pub struct TokenBurned {
    pub owner: Pubkey,
    pub token_id: u64,
}

/// The intent to recreate an asset on another chain, for the relay to carry.
#[derive(Clone, Debug, PartialEq, Eq)]
pub struct TokenTransfer {
    pub receiver: String,
    pub destination: u64,
    pub token_id: u64,
    pub uri: String,
}

/// An asset arrived from another chain.
#[derive(Clone, Debug, PartialEq, Eq)]
pub struct TokenTransferReceived {
    pub recipient: Pubkey,
    pub token_id: u64,
    pub uri: String,
}

/// An outbound transfer was undone.
#[derive(Clone, Debug, PartialEq, Eq)]
pub struct TokenTransferReverted {
    pub owner: Pubkey,
    pub token_id: u64,
    pub uri: String,
}

/// What an operation asks of the token ledger: every accepted mint, burn,
/// receive and revert asks for exactly one unit of balance to be minted or
/// burned on the asset's issuance unit. If the ledger refuses, nothing of the
/// operation may be kept.
#[derive(Clone, Copy, Debug, PartialEq, Eq)]
pub enum LedgerCall {
    /// Mint one unit of balance to `recipient`.
    MintOne { recipient: Pubkey },
    /// Burn one unit of balance that `holder` holds.
    BurnOne { holder: Pubkey },
}

} // verus!
