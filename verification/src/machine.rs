use vstd::prelude::*;
use crate::deployment::{Deployment, DeploymentView};
use crate::error::ErrorCode;
use crate::events::{
    ChainConnected, ContractPaused, ContractUnpaused, GasLimitUpdated, GatewayUpdated, LedgerCall,
    TokenBurned, TokenMinted, TokenTransfer, TokenTransferReceived, TokenTransferReverted,
};
use crate::identity::Pubkey;
use crate::records::ProgramState;
use crate::universal_nft_core::{admin_error, pause_error, set_gas_limit_error, unpause_error};

verus! {

/// A request that changes a deployment, with its arguments.
#[derive(Clone, Debug, PartialEq, Eq)]
pub enum Operation {
    SetGateway { authority: Pubkey, gateway_address: Pubkey },
    SetGasLimit { authority: Pubkey, gas_limit: u64 },
    Pause { authority: Pubkey },
    Unpause { authority: Pubkey },
    Connect { authority: Pubkey, chain_id: u64, contract_address: String },
    Mint { mint: Pubkey, recipient: Pubkey, uri: String, slot: u64, unix_timestamp: i64 },
    Burn { authority: Pubkey, token_id: u64 },
    Transfer {
        owner: Pubkey,
        token_id: u64,
        receiver: String,
        destination_chain_id: u64,
        unix_timestamp: i64,
    },
    Receive {
        recipient: Pubkey,
        token_id: u64,
        uri: String,
        sender_chain_id: u64,
        original_sender: String,
        unix_timestamp: i64,
    },
    Revert { token_id: u64, original_owner: Pubkey },
}

/// The event that an accepted operation emits.
#[derive(Clone, Debug, PartialEq, Eq)]
pub enum Emitted {
    GatewayUpdated(GatewayUpdated),
    GasLimitUpdated(GasLimitUpdated),
    ContractPaused(ContractPaused),
    ContractUnpaused(ContractUnpaused),
    ChainConnected(ChainConnected),
    TokenMinted(TokenMinted),
    TokenBurned(TokenBurned),
    TokenTransfer(TokenTransfer),
    TokenTransferReceived(TokenTransferReceived),
    TokenTransferReverted(TokenTransferReverted),
}

/// Why a deployment refuses an operation, if it does.
pub open spec fn refusal(d: DeploymentView, op: Operation) -> Option<ErrorCode> {
    match op {
        Operation::SetGateway { authority, .. } => admin_error(d.state, authority),
        Operation::SetGasLimit { authority, gas_limit } => set_gas_limit_error(
            d.state,
            authority,
            gas_limit,
        ),
        Operation::Pause { authority } => pause_error(d.state, authority),
        Operation::Unpause { authority } => unpause_error(d.state, authority),
        Operation::Connect { authority, chain_id, contract_address } => d.connect_error(
            authority,
            chain_id,
            contract_address@,
        ),
        Operation::Mint { mint, uri, slot, .. } => d.mint_error(mint, uri@, slot),
        Operation::Burn { authority, token_id } => d.burn_error(authority, token_id),
        Operation::Transfer { owner, token_id, receiver, .. } => d.transfer_error(
            owner,
            token_id,
            receiver@,
        ),
        Operation::Receive { token_id, uri, .. } => d.receive_error(token_id, uri@),
        Operation::Revert { token_id, .. } => d.revert_error(token_id),
    }
}

/// The deployment after an operation that it accepts.
pub open spec fn accepted(d: DeploymentView, op: Operation) -> DeploymentView {
    match op {
        Operation::SetGateway { gateway_address, .. } => d.with_state(
            ProgramState { gateway: gateway_address, ..d.state },
        ),
        Operation::SetGasLimit { gas_limit, .. } => d.with_state(
            ProgramState { gas_limit, ..d.state },
        ),
        Operation::Pause { .. } => d.with_state(ProgramState { is_paused: true, ..d.state }),
        Operation::Unpause { .. } => d.with_state(ProgramState { is_paused: false, ..d.state }),
        Operation::Connect { chain_id, contract_address, .. } => d.after_connect(
            chain_id,
            contract_address,
        ),
        Operation::Mint { mint, recipient, uri, slot, unix_timestamp } => d.after_mint(
            mint,
            recipient,
            uri,
            slot,
            unix_timestamp,
        ),
        Operation::Burn { token_id, .. } => d.after_burn(token_id),
        Operation::Transfer {
            token_id,
            receiver,
            destination_chain_id,
            unix_timestamp,
            ..
        } => d.after_transfer(token_id, destination_chain_id, receiver, unix_timestamp),
        Operation::Receive {
            recipient,
            token_id,
            uri,
            sender_chain_id,
            unix_timestamp,
            ..
        } => d.after_receive(recipient, token_id, uri, sender_chain_id, unix_timestamp),
        Operation::Revert { token_id, original_owner } => d.after_revert(token_id, original_owner),
    }
}

/// The event that an operation emits where it is accepted.
pub open spec fn emitted(d: DeploymentView, op: Operation) -> Emitted {
    match op {
        Operation::SetGateway { gateway_address, .. } => Emitted::GatewayUpdated(
            GatewayUpdated { new_gateway: gateway_address },
        ),
        Operation::SetGasLimit { gas_limit, .. } => Emitted::GasLimitUpdated(
            GasLimitUpdated { new_gas_limit: gas_limit },
        ),
        Operation::Pause { authority } => Emitted::ContractPaused(ContractPaused { by: authority }),
        Operation::Unpause { authority } => Emitted::ContractUnpaused(
            ContractUnpaused { by: authority },
        ),
        Operation::Connect { chain_id, contract_address, .. } => Emitted::ChainConnected(
            ChainConnected { chain_id, contract_address },
        ),
        Operation::Mint { mint, recipient, uri, slot, .. } => Emitted::TokenMinted(
            TokenMinted { recipient, token_id: d.next_id(mint, slot), uri },
        ),
        Operation::Burn { authority, token_id } => Emitted::TokenBurned(
            TokenBurned { owner: authority, token_id },
        ),
        Operation::Transfer { token_id, receiver, destination_chain_id, .. } => {
            Emitted::TokenTransfer(
                TokenTransfer {
                    receiver,
                    destination: destination_chain_id,
                    token_id,
                    uri: d.records[token_id].uri,
                },
            )
        },
        Operation::Receive { recipient, token_id, uri, .. } => Emitted::TokenTransferReceived(
            TokenTransferReceived { recipient, token_id, uri },
        ),
        Operation::Revert { token_id, original_owner } => Emitted::TokenTransferReverted(
            TokenTransferReverted {
                owner: original_owner,
                token_id,
                uri: d.records[token_id].uri,
            },
        ),
    }
}

/// What an operation asks of the token ledger where it is accepted: nothing
/// for a change of the configuration or the registry, one unit minted or
/// burned for a change of an asset.
pub open spec fn ledger_call(op: Operation) -> Option<LedgerCall> {
    match op {
        Operation::Mint { recipient, .. } => Some(LedgerCall::MintOne { recipient }),
        Operation::Burn { authority, .. } => Some(LedgerCall::BurnOne { holder: authority }),
        Operation::Transfer { owner, .. } => Some(LedgerCall::BurnOne { holder: owner }),
        Operation::Receive { recipient, .. } => Some(LedgerCall::MintOne { recipient }),
        Operation::Revert { original_owner, .. } => Some(
            LedgerCall::MintOne { recipient: original_owner },
        ),
        _ => None,
    }
}

/// The deployment after an operation: changed as the operation says if it is
/// accepted, and untouched if it is refused.
pub open spec fn step(d: DeploymentView, op: Operation) -> DeploymentView {
    if refusal(d, op) is None {
        accepted(d, op)
    } else {
        d
    }
}

/// The deployment after a sequence of operations, made in turn.
pub open spec fn run(start: DeploymentView, ops: Seq<Operation>) -> DeploymentView
    decreases ops.len(),
{
    if ops.len() == 0 {
        start
    } else {
        step(run(start, ops.drop_last()), ops.last())
    }
}

/// The identifiers that the accepted mints among the operations were given,
/// in the order of the operations.
pub open spec fn minted_ids(start: DeploymentView, ops: Seq<Operation>) -> Seq<u64>
    decreases ops.len(),
{
    if ops.len() == 0 {
        Seq::empty()
    } else {
        let before = run(start, ops.drop_last());
        let ids = minted_ids(start, ops.drop_last());
        match ops.last() {
            Operation::Mint { mint, slot, .. } => if refusal(before, ops.last()) is None {
                ids.push(before.next_id(mint, slot))
            } else {
                ids
            },
            _ => ids,
        }
    }
}

impl Deployment {
    /// Carries out one operation. An accepted operation changes the
    /// deployment as `step` says and returns its event and what it asks of the
    /// token ledger; a refused one changes nothing and returns the reason.
    pub fn apply(&mut self, op: Operation) -> (r: Result<(Emitted, Option<LedgerCall>), ErrorCode>)
        requires
            old(self).wf(),
        ensures
            final(self).wf(),
            final(self)@ == step(old(self)@, op),
            match r {
                Ok((event, call)) => {
                    &&& refusal(old(self)@, op) is None
                    &&& event == emitted(old(self)@, op)
                    &&& call == ledger_call(op)
                },
                Err(e) => refusal(old(self)@, op) == Some(e),
            },
    {
        match op {
            Operation::SetGateway { authority, gateway_address } => {
                match self.set_gateway(&authority, gateway_address) {
                    Ok(event) => Ok((Emitted::GatewayUpdated(event), None)),
                    Err(e) => Err(e),
                }
            },
            Operation::SetGasLimit { authority, gas_limit } => {
                match self.set_gas_limit(&authority, gas_limit) {
                    Ok(event) => Ok((Emitted::GasLimitUpdated(event), None)),
                    Err(e) => Err(e),
                }
            },
            Operation::Pause { authority } => {
                match self.pause(&authority) {
                    Ok(event) => Ok((Emitted::ContractPaused(event), None)),
                    Err(e) => Err(e),
                }
            },
            Operation::Unpause { authority } => {
                match self.unpause(&authority) {
                    Ok(event) => Ok((Emitted::ContractUnpaused(event), None)),
                    Err(e) => Err(e),
                }
            },
            Operation::Connect { authority, chain_id, contract_address } => {
                match self.connect(&authority, chain_id, contract_address) {
                    Ok(event) => Ok((Emitted::ChainConnected(event), None)),
                    Err(e) => Err(e),
                }
            },
            Operation::Mint { mint, recipient, uri, slot, unix_timestamp } => {
                match self.mint(&mint, &recipient, uri, slot, unix_timestamp) {
                    Ok((event, call)) => Ok((Emitted::TokenMinted(event), Some(call))),
                    Err(e) => Err(e),
                }
            },
            Operation::Burn { authority, token_id } => {
                match self.burn(&authority, token_id) {
                    Ok((event, call)) => Ok((Emitted::TokenBurned(event), Some(call))),
                    Err(e) => Err(e),
                }
            },
            Operation::Transfer {
                owner,
                token_id,
                receiver,
                destination_chain_id,
                unix_timestamp,
            } => {
                match self.transfer(
                    &owner,
                    token_id,
                    receiver,
                    destination_chain_id,
                    unix_timestamp,
                ) {
                    Ok((event, call)) => Ok((Emitted::TokenTransfer(event), Some(call))),
                    Err(e) => Err(e),
                }
            },
            Operation::Receive {
                recipient,
                token_id,
                uri,
                sender_chain_id,
                original_sender,
                unix_timestamp,
            } => {
                match self.receive(
                    &recipient,
                    token_id,
                    uri,
                    sender_chain_id,
                    original_sender,
                    unix_timestamp,
                ) {
                    Ok((event, call)) => Ok((Emitted::TokenTransferReceived(event), Some(call))),
                    Err(e) => Err(e),
                }
            },
            Operation::Revert { token_id, original_owner } => {
                match self.revert(token_id, original_owner) {
                    Ok((event, call)) => Ok((Emitted::TokenTransferReverted(event), Some(call))),
                    Err(e) => Err(e),
                }
            },
        }
    }
}

} // verus!
