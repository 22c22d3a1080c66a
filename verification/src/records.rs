use vstd::prelude::*;
use crate::identity::Pubkey;

verus! {

/// Longest collection name, in bytes.
pub const MAX_NAME_LEN: usize = 50;

/// Longest collection symbol, in bytes.
pub const MAX_SYMBOL_LEN: usize = 10;

/// Longest address on a remote chain, in bytes.
pub const MAX_ADDRESS_LEN: usize = 200;

/// Longest descriptor URI, in bytes.
pub const MAX_URI_LEN: usize = 500;

/// The number of bytes that a string takes when stored.
pub open spec fn byte_len(s: Seq<char>) -> nat {
    vstd::utf8::encode_utf8(s).len()
}

/// Whether a string is stored in at most `max` bytes.
pub fn fits(s: &String, max: usize) -> (r: bool)
    ensures
        r == (byte_len(s@) <= max),
{
    s.as_str().as_bytes().len() <= max
}

/// The program configuration, one per deployment.
#[derive(Clone, Debug, PartialEq, Eq)]
pub struct ProgramState {
    /// The identity allowed to perform admin operations.
    pub authority: Pubkey,
    pub name: String,
    pub symbol: String,
    /// The relay endpoint.
    pub gateway: Pubkey,
    /// The resource budget advertised to the relay.
    pub gas_limit: u64,
    /// An exchange contract, carried and never read.
    pub uniswap_router: Pubkey,
    pub is_paused: bool,
    /// The counter that goes into the next identifier; it only grows.
    pub next_token_id: u64,
    /// The number of live assets.
    pub total_supply: u64,
    pub is_initialized: bool,
}

impl ProgramState {
    /// The descriptors respect their bounds.
    pub open spec fn wf(&self) -> bool {
        &&& byte_len(self.name@) <= MAX_NAME_LEN
        &&& byte_len(self.symbol@) <= MAX_SYMBOL_LEN
    }

    /// A copy of the configuration, equal to it in every field.
    pub fn duplicate(&self) -> (copy: ProgramState)
        ensures
            copy == *self,
    {
        ProgramState {
            authority: self.authority,
            name: self.name.clone(),
            symbol: self.symbol.clone(),
            gateway: self.gateway,
            gas_limit: self.gas_limit,
            uniswap_router: self.uniswap_router,
            is_paused: self.is_paused,
            next_token_id: self.next_token_id,
            total_supply: self.total_supply,
            is_initialized: self.is_initialized,
        }
    }
}

/// One entry of the connection registry: a remote chain and the contract that
/// is its authorized counterpart there.
#[derive(Clone, Debug, PartialEq, Eq)]
pub struct ChainConnection {
    pub chain_id: u64,
    pub contract_address: String,
    pub is_active: bool,
}

impl ChainConnection {
    /// The address is present and respects its bound.
    pub open spec fn wf(&self) -> bool {
        0 < self.contract_address@.len() && byte_len(self.contract_address@) <= MAX_ADDRESS_LEN
    }
}

/// An outbound transfer in flight.
#[derive(Clone, Debug, PartialEq, Eq)]
pub struct PendingTransfer {
    pub destination_chain: u64,
    pub receiver: String,
    pub timestamp: i64,
}

/// The lifecycle state of an asset record.
#[derive(Clone, Copy, Debug, PartialEq, Eq, Structural)]
pub enum Lifecycle {
    /// Live on this chain.
    Active,
    /// Burned here for a transfer that the relay has not yet settled.
    PendingOutbound,
    /// Burned here for good.
    Burned,
}

/// An asset record.
#[derive(Clone, Debug, PartialEq, Eq)]
pub struct NftData {
    pub token_id: u64,
    pub uri: String,
    /// The holder; meaningful only while the record is not burned.
    pub owner: Pubkey,
    pub is_burned: bool,
    /// The chain from which the asset was received, if it was.
    pub original_chain: Option<u64>,
    /// Present exactly while an outbound transfer is in flight.
    pub pending_transfer: Option<PendingTransfer>,
    pub mint_timestamp: i64,
}

impl NftData {
    /// A pending transfer implies that the record is burned, and the strings
    /// respect their bounds.
    pub open spec fn wf(&self) -> bool {
        &&& byte_len(self.uri@) <= MAX_URI_LEN
        &&& self.pending_transfer is Some ==> self.is_burned
        &&& self.pending_transfer is Some ==> {
            &&& 0 < self.pending_transfer->0.receiver@.len()
            &&& byte_len(self.pending_transfer->0.receiver@) <= MAX_ADDRESS_LEN
        }
    }

    /// The record's place in the state machine.
    pub open spec fn lifecycle(&self) -> Lifecycle {
        if !self.is_burned {
            Lifecycle::Active
        } else if self.pending_transfer is Some {
            Lifecycle::PendingOutbound
        } else {
            Lifecycle::Burned
        }
    }

    /// A copy of the record, equal to it in every field.
    pub fn duplicate(&self) -> (copy: NftData)
        ensures
            copy == *self,
    {
        let pending_transfer = match &self.pending_transfer {
            Some(p) => Some(
                PendingTransfer {
                    destination_chain: p.destination_chain,
                    receiver: p.receiver.clone(),
                    timestamp: p.timestamp,
                },
            ),
            None => None,
        };
        NftData {
            token_id: self.token_id,
            uri: self.uri.clone(),
            owner: self.owner,
            is_burned: self.is_burned,
            original_chain: self.original_chain,
            pending_transfer,
            mint_timestamp: self.mint_timestamp,
        }
    }

    /// The record's place in the state machine.
    pub fn state(&self) -> (s: Lifecycle)
        ensures
            s == self.lifecycle(),
    {
        if !self.is_burned {
            Lifecycle::Active
        } else if self.pending_transfer.is_some() {
            Lifecycle::PendingOutbound
        } else {
            Lifecycle::Burned
        }
    }
}

/// An entry of the per-owner index. The index within the owner's list is not
/// maintained: it is zero in every entry.
#[derive(Clone, Copy, Debug, PartialEq, Eq)]
pub struct EnumerableData {
    pub token_id: u64,
    pub owner: Pubkey,
    pub index_in_owner_list: u64,
}

/// An entry of the origin ledger: what an identifier was created from. It is
/// written once, at the first mint, and never changed.
#[derive(Clone, Copy, Debug, PartialEq, Eq)]
pub struct NFTOrigin {
    /// The issuance unit that backed the first mint.
    pub original_mint: Pubkey,
    pub token_id: u64,
    /// The chain height at creation.
    pub block_number: u64,
    pub mint_timestamp: i64,
}

} // verus!
