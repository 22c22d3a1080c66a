use vstd::prelude::*;
use crate::descriptor::{descriptor_for, Descriptor};
use crate::error::ErrorCode;
use crate::events::{
    ChainConnected, ContractPaused, ContractUnpaused, GasLimitUpdated, GatewayUpdated, LedgerCall,
    ProgramInitialized, TokenBurned, TokenMinted, TokenTransfer, TokenTransferReceived,
    TokenTransferReverted,
};
use crate::identity::Pubkey;
use crate::records::{
    byte_len, fits, ChainConnection, EnumerableData, NFTOrigin, NftData, PendingTransfer,
    ProgramState, MAX_ADDRESS_LEN, MAX_NAME_LEN, MAX_SYMBOL_LEN, MAX_URI_LEN,
};
use crate::token_id::{generate_token_id, token_id_sum};

verus! {

// ---------------------------------------------------------------------------
// Program configuration and admin surface
// ---------------------------------------------------------------------------

/// Why `initialize` rejects its arguments, if it does.
pub open spec fn initialize_error(name: Seq<char>, symbol: Seq<char>) -> Option<ErrorCode> {
    if byte_len(name) > MAX_NAME_LEN || byte_len(symbol) > MAX_SYMBOL_LEN {
        Some(ErrorCode::FieldTooLong)
    } else {
        None
    }
}

/// The configuration of a fresh deployment.
pub open spec fn initial_state(
    initial_owner: Pubkey,
    name: String,
    symbol: String,
    gateway_address: Pubkey,
    gas_limit: u64,
    uniswap_router: Pubkey,
) -> ProgramState {
    ProgramState {
        authority: initial_owner,
        name,
        symbol,
        gateway: gateway_address,
        gas_limit,
        uniswap_router,
        is_paused: false,
        next_token_id: 1,
        total_supply: 0,
        is_initialized: true,
    }
}

/// Creates the configuration of a deployment. The caller becomes the
/// authority, the program starts unpaused with no assets, and the identifier
/// counter starts at one.
pub fn initialize(
    initial_owner: Pubkey,
    name: String,
    symbol: String,
    gateway_address: Pubkey,
    gas_limit: u64,
    uniswap_router: Pubkey,
) -> (r: Result<(ProgramState, ProgramInitialized), ErrorCode>)
    ensures
        match r {
            Ok((state, event)) => {
                &&& initialize_error(name@, symbol@) is None
                &&& state == initial_state(
                    initial_owner,
                    name,
                    symbol,
                    gateway_address,
                    gas_limit,
                    uniswap_router,
                )
                &&& state.wf()
                &&& event == (ProgramInitialized {
                    authority: initial_owner,
                    name,
                    symbol,
                    gateway: gateway_address,
                })
            },
            Err(e) => initialize_error(name@, symbol@) == Some(e),
        },
{
    if !fits(&name, MAX_NAME_LEN) || !fits(&symbol, MAX_SYMBOL_LEN) {
        return Err(ErrorCode::FieldTooLong);
    }
    let event = ProgramInitialized {
        authority: initial_owner,
        name: name.clone(),
        symbol: symbol.clone(),
        gateway: gateway_address,
    };
    let state = ProgramState {
        authority: initial_owner,
        name,
        symbol,
        gateway: gateway_address,
        gas_limit,
        uniswap_router,
        is_paused: false,
        next_token_id: 1,
        total_supply: 0,
        is_initialized: true,
    };
    Ok((state, event))
}

/// Why a change of the configuration is rejected, if it is: the caller must be
/// the authority, and the program must not be paused.
pub open spec fn admin_error(state: ProgramState, authority: Pubkey) -> Option<ErrorCode> {
    if state.authority@ != authority@ {
        Some(ErrorCode::Unauthorized)
    } else if state.is_paused {
        Some(ErrorCode::ContractPaused)
    } else {
        None
    }
}

/// Replaces the relay endpoint. Only the authority may do so, and only while
/// the program is not paused.
pub fn set_gateway(state: &mut ProgramState, authority: &Pubkey, gateway_address: Pubkey) -> (r:
    Result<GatewayUpdated, ErrorCode>)
    ensures
        match r {
            Ok(event) => {
                &&& admin_error(*old(state), *authority) is None
                &&& *final(state) == (ProgramState { gateway: gateway_address, ..*old(state) })
                &&& event == (GatewayUpdated { new_gateway: gateway_address })
            },
            Err(e) => {
                &&& admin_error(*old(state), *authority) == Some(e)
                &&& *final(state) == *old(state)
            },
        },
{
    if !state.authority.same(authority) {
        return Err(ErrorCode::Unauthorized);
    }
    if state.is_paused {
        return Err(ErrorCode::ContractPaused);
    }
    state.gateway = gateway_address;
    Ok(GatewayUpdated { new_gateway: gateway_address })
}

/// Why `set_gas_limit` is rejected, if it is.
pub open spec fn set_gas_limit_error(state: ProgramState, authority: Pubkey, gas_limit: u64)
    -> Option<ErrorCode> {
    if admin_error(state, authority) is Some {
        admin_error(state, authority)
    } else if gas_limit == 0 {
        Some(ErrorCode::InvalidGasLimit)
    } else {
        None
    }
}

/// Replaces the gas limit, which must be positive. Only the authority may do
/// so, and only while the program is not paused.
pub fn set_gas_limit(state: &mut ProgramState, authority: &Pubkey, gas_limit: u64) -> (r: Result<
    GasLimitUpdated,
    ErrorCode,
>)
    ensures
        match r {
            Ok(event) => {
                &&& set_gas_limit_error(*old(state), *authority, gas_limit) is None
                &&& *final(state) == (ProgramState { gas_limit, ..*old(state) })
                &&& event == (GasLimitUpdated { new_gas_limit: gas_limit })
            },
            Err(e) => {
                &&& set_gas_limit_error(*old(state), *authority, gas_limit) == Some(e)
                &&& *final(state) == *old(state)
            },
        },
{
    if !state.authority.same(authority) {
        return Err(ErrorCode::Unauthorized);
    }
    if state.is_paused {
        return Err(ErrorCode::ContractPaused);
    }
    if gas_limit == 0 {
        return Err(ErrorCode::InvalidGasLimit);
    }
    state.gas_limit = gas_limit;
    Ok(GasLimitUpdated { new_gas_limit: gas_limit })
}

/// Why `set_connected` is rejected, if it is.
pub open spec fn set_connected_error(
    state: ProgramState,
    authority: Pubkey,
    contract_address: Seq<char>,
) -> Option<ErrorCode> {
    if admin_error(state, authority) is Some {
        admin_error(state, authority)
    } else if contract_address.len() == 0 {
        Some(ErrorCode::InvalidAddress)
    } else if byte_len(contract_address) > MAX_ADDRESS_LEN {
        Some(ErrorCode::FieldTooLong)
    } else {
        None
    }
}

/// Makes the registry entry that connects a remote chain to its counterpart
/// contract. The entry is active. Only the authority may connect a chain, only
/// while the program is not paused, and the address must not be empty.
pub fn set_connected(
    state: &ProgramState,
    authority: &Pubkey,
    chain_id: u64,
    contract_address: String,
) -> (r: Result<(ChainConnection, ChainConnected), ErrorCode>)
    ensures
        match r {
            Ok((connection, event)) => {
                &&& set_connected_error(*state, *authority, contract_address@) is None
                &&& connection == (ChainConnection { chain_id, contract_address, is_active: true })
                &&& connection.wf()
                &&& event == (ChainConnected { chain_id, contract_address })
            },
            Err(e) => set_connected_error(*state, *authority, contract_address@) == Some(e),
        },
{
    if !state.authority.same(authority) {
        return Err(ErrorCode::Unauthorized);
    }
    if state.is_paused {
        return Err(ErrorCode::ContractPaused);
    }
    if contract_address.as_str().is_empty() {
        return Err(ErrorCode::InvalidAddress);
    }
    if !fits(&contract_address, MAX_ADDRESS_LEN) {
        return Err(ErrorCode::FieldTooLong);
    }
    let event = ChainConnected { chain_id, contract_address: contract_address.clone() };
    Ok((ChainConnection { chain_id, contract_address, is_active: true }, event))
}

/// Why `pause` is rejected, if it is.
pub open spec fn pause_error(state: ProgramState, authority: Pubkey) -> Option<ErrorCode> {
    if state.authority@ != authority@ {
        Some(ErrorCode::Unauthorized)
    } else if state.is_paused {
        Some(ErrorCode::AlreadyPaused)
    } else {
        None
    }
}

/// Pauses the program. Only the authority may do so, and not twice in a row.
pub fn pause(state: &mut ProgramState, authority: &Pubkey) -> (r: Result<
    ContractPaused,
    ErrorCode,
>)
    ensures
        match r {
            Ok(event) => {
                &&& pause_error(*old(state), *authority) is None
                &&& *final(state) == (ProgramState { is_paused: true, ..*old(state) })
                &&& event == (ContractPaused { by: *authority })
            },
            Err(e) => {
                &&& pause_error(*old(state), *authority) == Some(e)
                &&& *final(state) == *old(state)
            },
        },
{
    if !state.authority.same(authority) {
        return Err(ErrorCode::Unauthorized);
    }
    if state.is_paused {
        return Err(ErrorCode::AlreadyPaused);
    }
    state.is_paused = true;
    Ok(ContractPaused { by: *authority })
}

/// Why `unpause` is rejected, if it is.
pub open spec fn unpause_error(state: ProgramState, authority: Pubkey) -> Option<ErrorCode> {
    if state.authority@ != authority@ {
        Some(ErrorCode::Unauthorized)
    } else if !state.is_paused {
        Some(ErrorCode::NotPaused)
    } else {
        None
    }
}

/// Lifts the pause. Only the authority may do so, and only while the program
/// is paused.
pub fn unpause(state: &mut ProgramState, authority: &Pubkey) -> (r: Result<
    ContractUnpaused,
    ErrorCode,
>)
    ensures
        match r {
            Ok(event) => {
                &&& unpause_error(*old(state), *authority) is None
                &&& *final(state) == (ProgramState { is_paused: false, ..*old(state) })
                &&& event == (ContractUnpaused { by: *authority })
            },
            Err(e) => {
                &&& unpause_error(*old(state), *authority) == Some(e)
                &&& *final(state) == *old(state)
            },
        },
{
    if !state.authority.same(authority) {
        return Err(ErrorCode::Unauthorized);
    }
    if !state.is_paused {
        return Err(ErrorCode::NotPaused);
    }
    state.is_paused = false;
    Ok(ContractUnpaused { by: *authority })
}

// ---------------------------------------------------------------------------
// Asset records: the transfer state machine
// ---------------------------------------------------------------------------

/// What a successful mint creates.
#[derive(Clone, Debug, PartialEq, Eq)]
pub struct Minted {
    /// The new asset record, active and owned by the recipient.
    pub nft_data: NftData,
    /// The recipient's index entry.
    pub enumerable_data: EnumerableData,
    /// The origin ledger entry that binds the identifier to its creation.
    pub nft_origin: NFTOrigin,
    /// What is to be attached to the issuance unit.
    pub descriptor: Descriptor,
    /// What the token ledger is to do.
    pub ledger_call: LedgerCall,
    pub event: TokenMinted,
}

/// What a successful inbound receive creates.
#[derive(Clone, Debug, PartialEq, Eq)]
pub struct Received {
    /// The new asset record, active and owned by the recipient.
    pub nft_data: NftData,
    /// The recipient's index entry.
    pub enumerable_data: EnumerableData,
    /// What the token ledger is to do.
    pub ledger_call: LedgerCall,
    pub event: TokenTransferReceived,
}

/// Why `safe_mint` is rejected, if it is.
pub open spec fn safe_mint_error(state: ProgramState, mint: Pubkey, uri: Seq<char>, slot: u64)
    -> Option<ErrorCode> {
    if state.is_paused {
        Some(ErrorCode::ContractPaused)
    } else if byte_len(uri) > MAX_URI_LEN {
        Some(ErrorCode::FieldTooLong)
    } else if token_id_sum(mint@, slot, state.next_token_id) > u64::MAX || state.next_token_id
        == u64::MAX || state.total_supply == u64::MAX {
        Some(ErrorCode::ArithmeticOverflow)
    } else {
        None
    }
}

/// The configuration after one more asset has come to life through a mint.
pub open spec fn state_after_mint(state: ProgramState) -> ProgramState {
    ProgramState {
        next_token_id: (state.next_token_id + 1) as u64,
        total_supply: (state.total_supply + 1) as u64,
        ..state
    }
}

/// The configuration with the supply raised by one.
pub open spec fn state_with_one_more(state: ProgramState) -> ProgramState {
    ProgramState { total_supply: (state.total_supply + 1) as u64, ..state }
}

/// The configuration with the supply lowered by one.
pub open spec fn state_with_one_less(state: ProgramState) -> ProgramState {
    ProgramState { total_supply: (state.total_supply - 1) as u64, ..state }
}

/// A record as it is created: active, with no transfer pending.
pub open spec fn fresh_record(
    token_id: u64,
    uri: String,
    owner: Pubkey,
    original_chain: Option<u64>,
    mint_timestamp: i64,
) -> NftData {
    NftData {
        token_id,
        uri,
        owner,
        is_burned: false,
        original_chain,
        pending_transfer: None,
        mint_timestamp,
    }
}

/// Decides whether a mint would be accepted, and computes the identifier that
/// it would issue. Nothing is changed.
pub fn check_safe_mint(state: &ProgramState, mint: &Pubkey, uri: &String, slot: u64) -> (r: Result<
    u64,
    ErrorCode,
>)
    ensures
        match r {
            Ok(id) => {
                &&& safe_mint_error(*state, *mint, uri@, slot) is None
                &&& id == token_id_sum(mint@, slot, state.next_token_id)
            },
            Err(e) => safe_mint_error(*state, *mint, uri@, slot) == Some(e),
        },
{
    if state.is_paused {
        return Err(ErrorCode::ContractPaused);
    }
    if !fits(uri, MAX_URI_LEN) {
        return Err(ErrorCode::FieldTooLong);
    }
    let token_id: u64 = match generate_token_id(mint, slot, state.next_token_id) {
        Some(id) => id,
        None => {
            return Err(ErrorCode::ArithmeticOverflow);
        },
    };
    if state.next_token_id == u64::MAX || state.total_supply == u64::MAX {
        return Err(ErrorCode::ArithmeticOverflow);
    }
    Ok(token_id)
}

/// Mints a new asset to `recipient`, backed by the issuance unit `mint`, at
/// chain height `slot` and time `unix_timestamp`. The identifier is computed
/// from the unit, the height and the counter as it stands before the mint;
/// counter and supply then grow by one. The result holds everything that the
/// mint stores, the descriptor of the asset and the call that the token
/// ledger is owed. The caller makes that call and attaches the descriptor,
/// and keeps nothing of the mint if either fails.
///
/// This function sees the configuration only, not the records. The three
/// terms of an identifier overlap, so two accepted mints can be given the
/// same identifier: a unit term one higher makes up for a counter one lower.
/// Whoever holds the records must refuse a mint whose identifier is taken,
/// as `Deployment::mint` does.
pub fn safe_mint(
    state: &mut ProgramState,
    mint: &Pubkey,
    recipient: &Pubkey,
    uri: String,
    slot: u64,
    unix_timestamp: i64,
) -> (r: Result<Minted, ErrorCode>)
    ensures
        match r {
            Ok(minted) => {
                let id = token_id_sum(mint@, slot, old(state).next_token_id);
                &&& safe_mint_error(*old(state), *mint, uri@, slot) is None
                &&& *final(state) == state_after_mint(*old(state))
                &&& minted.nft_data == fresh_record(
                    id as u64,
                    uri,
                    *recipient,
                    None,
                    unix_timestamp,
                )
                &&& minted.nft_data.wf()
                &&& minted.enumerable_data == (EnumerableData {
                    token_id: id as u64,
                    owner: *recipient,
                    index_in_owner_list: 0,
                })
                &&& minted.nft_origin == (NFTOrigin {
                    original_mint: *mint,
                    token_id: id as u64,
                    block_number: slot,
                    mint_timestamp: unix_timestamp,
                })
                &&& minted.descriptor.describes(
                    old(state).name,
                    old(state).symbol,
                    id as u64,
                    uri,
                )
                &&& minted.ledger_call == (LedgerCall::MintOne { recipient: *recipient })
                &&& minted.event == (TokenMinted {
                    recipient: *recipient,
                    token_id: id as u64,
                    uri,
                })
            },
            Err(e) => {
                &&& safe_mint_error(*old(state), *mint, uri@, slot) == Some(e)
                &&& *final(state) == *old(state)
            },
        },
{
    let token_id: u64 = match check_safe_mint(state, mint, &uri, slot) {
        Ok(id) => id,
        Err(e) => {
            return Err(e);
        },
    };
    state.next_token_id += 1;
    state.total_supply += 1;
    let event = TokenMinted { recipient: *recipient, token_id, uri: uri.clone() };
    let nft_data = NftData {
        token_id,
        uri,
        owner: *recipient,
        is_burned: false,
        original_chain: None,
        pending_transfer: None,
        mint_timestamp: unix_timestamp,
    };
    let descriptor = descriptor_for(state, &nft_data);
    Ok(
        Minted {
            nft_data,
            enumerable_data: EnumerableData {
                token_id,
                owner: *recipient,
                index_in_owner_list: 0,
            },
            nft_origin: NFTOrigin {
                original_mint: *mint,
                token_id,
                block_number: slot,
                mint_timestamp: unix_timestamp,
            },
            descriptor,
            ledger_call: LedgerCall::MintOne { recipient: *recipient },
            event,
        },
    )
}

/// Why `burn_token` is rejected, if it is.
pub open spec fn burn_token_error(
    state: ProgramState,
    nft_data: NftData,
    authority: Pubkey,
    token_id: u64,
) -> Option<ErrorCode> {
    if state.is_paused {
        Some(ErrorCode::ContractPaused)
    } else if nft_data.is_burned {
        Some(ErrorCode::TokenNotExists)
    } else if nft_data.owner@ != authority@ {
        Some(ErrorCode::Unauthorized)
    } else if nft_data.token_id != token_id {
        Some(ErrorCode::InvalidState)
    } else if state.total_supply == 0 {
        Some(ErrorCode::ArithmeticOverflow)
    } else {
        None
    }
}

/// Burns an asset for good, on its owner's request. The record becomes
/// burned with no transfer pending, and the supply falls by one. The caller
/// makes the returned call on the token ledger, and keeps nothing of the burn
/// if that fails.
pub fn burn_token(
    state: &mut ProgramState,
    nft_data: &mut NftData,
    authority: &Pubkey,
    token_id: u64,
) -> (r: Result<(TokenBurned, LedgerCall), ErrorCode>)
    ensures
        match r {
            Ok((event, ledger_call)) => {
                &&& burn_token_error(*old(state), *old(nft_data), *authority, token_id) is None
                &&& *final(state) == state_with_one_less(*old(state))
                &&& *final(nft_data) == (NftData { is_burned: true, ..*old(nft_data) })
                &&& event == (TokenBurned { owner: *authority, token_id })
                &&& ledger_call == (LedgerCall::BurnOne { holder: *authority })
            },
            Err(e) => {
                &&& burn_token_error(*old(state), *old(nft_data), *authority, token_id) == Some(e)
                &&& *final(state) == *old(state)
                &&& *final(nft_data) == *old(nft_data)
            },
        },
{
    if state.is_paused {
        return Err(ErrorCode::ContractPaused);
    }
    if nft_data.is_burned {
        return Err(ErrorCode::TokenNotExists);
    }
    if !nft_data.owner.same(authority) {
        return Err(ErrorCode::Unauthorized);
    }
    if nft_data.token_id != token_id {
        return Err(ErrorCode::InvalidState);
    }
    if state.total_supply == 0 {
        return Err(ErrorCode::ArithmeticOverflow);
    }
    nft_data.is_burned = true;
    state.total_supply -= 1;
    Ok(
        (TokenBurned { owner: *authority, token_id }, LedgerCall::BurnOne { holder: *authority }),
    )
}

/// Why a request for an outbound transfer is rejected before the origin
/// ledger is consulted, if it is.
pub open spec fn transfer_request_error(
    state: ProgramState,
    nft_data: NftData,
    owner: Pubkey,
    receiver: Seq<char>,
) -> Option<ErrorCode> {
    if state.is_paused {
        Some(ErrorCode::ContractPaused)
    } else if nft_data.is_burned {
        Some(ErrorCode::TokenNotExists)
    } else if nft_data.owner@ != owner@ {
        Some(ErrorCode::Unauthorized)
    } else if receiver.len() == 0 {
        Some(ErrorCode::InvalidAddress)
    } else if byte_len(receiver) > MAX_ADDRESS_LEN {
        Some(ErrorCode::FieldTooLong)
    } else {
        None
    }
}

/// Why `transfer_cross_chain` is rejected, if it is.
pub open spec fn transfer_cross_chain_error(
    state: ProgramState,
    nft_data: NftData,
    nft_origin: NFTOrigin,
    owner: Pubkey,
    token_id: u64,
    receiver: Seq<char>,
) -> Option<ErrorCode> {
    if transfer_request_error(state, nft_data, owner, receiver) is Some {
        transfer_request_error(state, nft_data, owner, receiver)
    } else if nft_origin.token_id != token_id || nft_data.token_id != token_id {
        Some(ErrorCode::InvalidState)
    } else if state.total_supply == 0 {
        Some(ErrorCode::ArithmeticOverflow)
    } else {
        None
    }
}

/// Decides whether a request for an outbound transfer passes the checks that
/// come before the origin ledger is consulted. Nothing is changed.
pub fn check_transfer_request(
    state: &ProgramState,
    nft_data: &NftData,
    owner: &Pubkey,
    receiver: &String,
) -> (r: Result<(), ErrorCode>)
    ensures
        match r {
            Ok(_) => transfer_request_error(*state, *nft_data, *owner, receiver@) is None,
            Err(e) => transfer_request_error(*state, *nft_data, *owner, receiver@) == Some(e),
        },
{
    if state.is_paused {
        return Err(ErrorCode::ContractPaused);
    }
    if nft_data.is_burned {
        return Err(ErrorCode::TokenNotExists);
    }
    if !nft_data.owner.same(owner) {
        return Err(ErrorCode::Unauthorized);
    }
    if receiver.as_str().is_empty() {
        return Err(ErrorCode::InvalidAddress);
    }
    if !fits(receiver, MAX_ADDRESS_LEN) {
        return Err(ErrorCode::FieldTooLong);
    }
    Ok(())
}

/// A record as it stands while a transfer to `destination_chain` is in flight.
pub open spec fn record_in_flight(
    nft_data: NftData,
    destination_chain: u64,
    receiver: String,
    timestamp: i64,
) -> NftData {
    NftData {
        is_burned: true,
        pending_transfer: Some(PendingTransfer { destination_chain, receiver, timestamp }),
        ..nft_data
    }
}

/// Starts the transfer of an asset to another chain, on its owner's request.
/// The identifier that the caller names must be the one that the origin
/// ledger holds for the asset; a difference is an error and is never mended.
/// The record becomes burned with the transfer pending, the supply falls by
/// one, and the returned intent carries the origin ledger's identifier. The
/// caller makes the returned call on the token ledger, and keeps nothing of
/// the transfer if that fails.
pub fn transfer_cross_chain(
    state: &mut ProgramState,
    nft_data: &mut NftData,
    nft_origin: &NFTOrigin,
    owner: &Pubkey,
    token_id: u64,
    receiver: String,
    destination_chain_id: u64,
    unix_timestamp: i64,
) -> (r: Result<(TokenTransfer, LedgerCall), ErrorCode>)
    ensures
        match r {
            Ok((event, ledger_call)) => {
                &&& transfer_cross_chain_error(
                    *old(state),
                    *old(nft_data),
                    *nft_origin,
                    *owner,
                    token_id,
                    receiver@,
                ) is None
                &&& *final(state) == state_with_one_less(*old(state))
                &&& *final(nft_data) == record_in_flight(
                    *old(nft_data),
                    destination_chain_id,
                    receiver,
                    unix_timestamp,
                )
                &&& old(nft_data).wf() ==> final(nft_data).wf()
                &&& event == (TokenTransfer {
                    receiver,
                    destination: destination_chain_id,
                    token_id: nft_origin.token_id,
                    uri: old(nft_data).uri,
                })
                &&& ledger_call == (LedgerCall::BurnOne { holder: *owner })
            },
            Err(e) => {
                &&& transfer_cross_chain_error(
                    *old(state),
                    *old(nft_data),
                    *nft_origin,
                    *owner,
                    token_id,
                    receiver@,
                ) == Some(e)
                &&& *final(state) == *old(state)
                &&& *final(nft_data) == *old(nft_data)
            },
        },
{
    match check_transfer_request(state, nft_data, owner, &receiver) {
        Ok(()) => {},
        Err(e) => {
            return Err(e);
        },
    }
    let origin_token_id: u64 = nft_origin.token_id;
    if origin_token_id != token_id || nft_data.token_id != token_id {
        return Err(ErrorCode::InvalidState);
    }
    if state.total_supply == 0 {
        return Err(ErrorCode::ArithmeticOverflow);
    }
    let event = TokenTransfer {
        receiver: receiver.clone(),
        destination: destination_chain_id,
        token_id: origin_token_id,
        uri: nft_data.uri.clone(),
    };
    nft_data.is_burned = true;
    nft_data.pending_transfer = Some(
        PendingTransfer {
            destination_chain: destination_chain_id,
            receiver,
            timestamp: unix_timestamp,
        },
    );
    state.total_supply -= 1;
    Ok((event, LedgerCall::BurnOne { holder: *owner }))
}

/// Why `handle_cross_chain_receive` is rejected, if it is.
pub open spec fn handle_cross_chain_receive_error(state: ProgramState, uri: Seq<char>) -> Option<
    ErrorCode,
> {
    if state.is_paused {
        Some(ErrorCode::ContractPaused)
    } else if byte_len(uri) > MAX_URI_LEN {
        Some(ErrorCode::FieldTooLong)
    } else if state.total_supply == u64::MAX {
        Some(ErrorCode::ArithmeticOverflow)
    } else {
        None
    }
}

/// Decides whether an inbound receive would be accepted. Nothing is changed.
pub fn check_cross_chain_receive(state: &ProgramState, uri: &String) -> (r: Result<(), ErrorCode>)
    ensures
        match r {
            Ok(_) => handle_cross_chain_receive_error(*state, uri@) is None,
            Err(e) => handle_cross_chain_receive_error(*state, uri@) == Some(e),
        },
{
    if state.is_paused {
        return Err(ErrorCode::ContractPaused);
    }
    if !fits(uri, MAX_URI_LEN) {
        return Err(ErrorCode::FieldTooLong);
    }
    if state.total_supply == u64::MAX {
        return Err(ErrorCode::ArithmeticOverflow);
    }
    Ok(())
}

/// Recreates an asset that the relay reports as sent from `sender_chain_id`.
/// The new record is active, owned by `recipient`, and remembers the sending
/// chain; the supply grows by one. Nothing about the sender is verified. The
/// caller makes the returned call on the token ledger, and keeps nothing of
/// the receive if that fails.
pub fn handle_cross_chain_receive(
    state: &mut ProgramState,
    recipient: &Pubkey,
    token_id: u64,
    uri: String,
    sender_chain_id: u64,
    _original_sender: String,
    unix_timestamp: i64,
) -> (r: Result<Received, ErrorCode>)
    ensures
        match r {
            Ok(received) => {
                &&& handle_cross_chain_receive_error(*old(state), uri@) is None
                &&& *final(state) == state_with_one_more(*old(state))
                &&& received.nft_data == fresh_record(
                    token_id,
                    uri,
                    *recipient,
                    Some(sender_chain_id),
                    unix_timestamp,
                )
                &&& received.nft_data.wf()
                &&& received.enumerable_data == (EnumerableData {
                    token_id,
                    owner: *recipient,
                    index_in_owner_list: 0,
                })
                &&& received.ledger_call == (LedgerCall::MintOne { recipient: *recipient })
                &&& received.event == (TokenTransferReceived {
                    recipient: *recipient,
                    token_id,
                    uri,
                })
            },
            Err(e) => {
                &&& handle_cross_chain_receive_error(*old(state), uri@) == Some(e)
                &&& *final(state) == *old(state)
            },
        },
{
    match check_cross_chain_receive(state, &uri) {
        Ok(()) => {},
        Err(e) => {
            return Err(e);
        },
    }
    state.total_supply += 1;
    let event = TokenTransferReceived { recipient: *recipient, token_id, uri: uri.clone() };
    Ok(
        Received {
            nft_data: NftData {
                token_id,
                uri,
                owner: *recipient,
                is_burned: false,
                original_chain: Some(sender_chain_id),
                pending_transfer: None,
                mint_timestamp: unix_timestamp,
            },
            enumerable_data: EnumerableData {
                token_id,
                owner: *recipient,
                index_in_owner_list: 0,
            },
            ledger_call: LedgerCall::MintOne { recipient: *recipient },
            event,
        },
    )
}

/// Why `revert_transfer` is rejected, if it is. A paused program reverts
/// nothing. Only a record with a transfer in flight can be reverted: an
/// active record has nothing to revert, and a record burned for good stays
/// burned.
pub open spec fn revert_transfer_error(state: ProgramState, nft_data: NftData, token_id: u64)
    -> Option<ErrorCode> {
    if state.is_paused {
        Some(ErrorCode::ContractPaused)
    } else if !nft_data.is_burned || nft_data.pending_transfer is None || nft_data.token_id
        != token_id {
        Some(ErrorCode::InvalidState)
    } else if state.total_supply == u64::MAX {
        Some(ErrorCode::ArithmeticOverflow)
    } else {
        None
    }
}

/// A record as it stands after its transfer was undone.
pub open spec fn record_restored(nft_data: NftData, original_owner: Pubkey) -> NftData {
    NftData { is_burned: false, owner: original_owner, pending_transfer: None, ..nft_data }
}

/// Undoes an outbound transfer that the relay could not deliver. The record
/// becomes active again, owned by `original_owner`, and the supply grows by
/// one. Like every other change of an asset, a revert is refused while the
/// program is paused. The caller makes the returned call on the token ledger,
/// and keeps nothing of the revert if that fails.
pub fn revert_transfer(
    state: &mut ProgramState,
    nft_data: &mut NftData,
    token_id: u64,
    original_owner: Pubkey,
) -> (r: Result<(TokenTransferReverted, LedgerCall), ErrorCode>)
    ensures
        match r {
            Ok((event, ledger_call)) => {
                &&& revert_transfer_error(*old(state), *old(nft_data), token_id) is None
                &&& *final(state) == state_with_one_more(*old(state))
                &&& *final(nft_data) == record_restored(*old(nft_data), original_owner)
                &&& old(nft_data).wf() ==> final(nft_data).wf()
                &&& event == (TokenTransferReverted {
                    owner: original_owner,
                    token_id,
                    uri: old(nft_data).uri,
                })
                &&& ledger_call == (LedgerCall::MintOne { recipient: original_owner })
            },
            Err(e) => {
                &&& revert_transfer_error(*old(state), *old(nft_data), token_id) == Some(e)
                &&& *final(state) == *old(state)
                &&& *final(nft_data) == *old(nft_data)
            },
        },
{
    if state.is_paused {
        return Err(ErrorCode::ContractPaused);
    }
    if !nft_data.is_burned || nft_data.pending_transfer.is_none() || nft_data.token_id
        != token_id {
        return Err(ErrorCode::InvalidState);
    }
    if state.total_supply == u64::MAX {
        return Err(ErrorCode::ArithmeticOverflow);
    }
    nft_data.is_burned = false;
    nft_data.owner = original_owner;
    nft_data.pending_transfer = None;
    state.total_supply += 1;
    Ok(
        (
            TokenTransferReverted { owner: original_owner, token_id, uri: nft_data.uri.clone() },
            LedgerCall::MintOne { recipient: original_owner },
        ),
    )
}

// ---------------------------------------------------------------------------
// Queries
// ---------------------------------------------------------------------------

/// The identifier held by an owner's index entry. The index keeps one entry
/// per asset and no order among an owner's assets, so owner and position are
/// not consulted.
pub fn token_of_owner_by_index(
    enumerable_data: &EnumerableData,
    _owner: &Pubkey,
    _index: u64,
) -> (r: Result<u64, ErrorCode>)
    ensures
        r == Ok::<u64, ErrorCode>(enumerable_data.token_id),
{
    Ok(enumerable_data.token_id)
}

/// The number of live assets.
pub fn total_supply(state: &ProgramState) -> (r: Result<u64, ErrorCode>)
    ensures
        r == Ok::<u64, ErrorCode>(state.total_supply),
{
    Ok(state.total_supply)
}

/// Whether the program is paused.
pub fn is_paused(state: &ProgramState) -> (r: Result<bool, ErrorCode>)
    ensures
        r == Ok::<bool, ErrorCode>(state.is_paused),
{
    Ok(state.is_paused)
}

} // verus!
