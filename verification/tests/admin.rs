use universal_nft::{
    initialize, is_paused, pause, set_connected, set_gas_limit, set_gateway, total_supply,
    unpause, ChainConnected, ChainConnection, ContractPaused, ContractUnpaused, ErrorCode,
    ErrorKind, GasLimitUpdated, GatewayUpdated, ProgramInitialized, ProgramState, Pubkey,
};

fn key(b: u8) -> Pubkey {
    Pubkey::new_from_array([b; 32])
}

fn fresh_state() -> ProgramState {
    initialize(key(1), "Universal NFT".to_string(), "UNFT".to_string(), key(2), 100000, key(3))
        .unwrap()
        .0
}

#[test]
fn initialize_sets_every_field() {
    let (state, event) =
        initialize(key(1), "Universal NFT".to_string(), "UNFT".to_string(), key(2), 100000, key(3))
            .unwrap();
    assert_eq!(
        state,
        ProgramState {
            authority: key(1),
            name: "Universal NFT".to_string(),
            symbol: "UNFT".to_string(),
            gateway: key(2),
            gas_limit: 100000,
            uniswap_router: key(3),
            is_paused: false,
            next_token_id: 1,
            total_supply: 0,
            is_initialized: true,
        }
    );
    assert_eq!(
        event,
        ProgramInitialized {
            authority: key(1),
            name: "Universal NFT".to_string(),
            symbol: "UNFT".to_string(),
            gateway: key(2),
        }
    );
}

#[test]
fn initialize_accepts_names_at_the_bound() {
    let name = "n".repeat(50);
    let symbol = "s".repeat(10);
    assert!(initialize(key(1), name, symbol, key(2), 0, key(3)).is_ok());
}

#[test]
fn initialize_rejects_long_name() {
    let name = "n".repeat(51);
    assert_eq!(
        initialize(key(1), name, "S".to_string(), key(2), 1, key(3)).unwrap_err(),
        ErrorCode::FieldTooLong
    );
}

#[test]
fn initialize_rejects_long_symbol() {
    let symbol = "s".repeat(11);
    assert_eq!(
        initialize(key(1), "N".to_string(), symbol, key(2), 1, key(3)).unwrap_err(),
        ErrorCode::FieldTooLong
    );
}

#[test]
fn initialize_counts_bytes_not_characters() {
    // ten characters of two bytes each
    let symbol = "é".repeat(10);
    assert_eq!(
        initialize(key(1), "N".to_string(), symbol, key(2), 1, key(3)).unwrap_err(),
        ErrorCode::FieldTooLong
    );
}

#[test]
fn set_gateway_replaces_gateway_only() {
    let mut state = fresh_state();
    let before = state.clone();
    let event = set_gateway(&mut state, &key(1), key(9)).unwrap();
    assert_eq!(event, GatewayUpdated { new_gateway: key(9) });
    assert_eq!(state, ProgramState { gateway: key(9), ..before });
}

#[test]
fn set_gateway_by_stranger_is_unauthorized() {
    let mut state = fresh_state();
    let before = state.clone();
    assert_eq!(set_gateway(&mut state, &key(7), key(9)).unwrap_err(), ErrorCode::Unauthorized);
    assert_eq!(state, before);
}

#[test]
fn set_gateway_while_paused_is_refused() {
    let mut state = fresh_state();
    pause(&mut state, &key(1)).unwrap();
    let before = state.clone();
    assert_eq!(set_gateway(&mut state, &key(1), key(9)).unwrap_err(), ErrorCode::ContractPaused);
    assert_eq!(state, before);
}

#[test]
fn set_gas_limit_replaces_limit_only() {
    let mut state = fresh_state();
    let before = state.clone();
    let event = set_gas_limit(&mut state, &key(1), 5).unwrap();
    assert_eq!(event, GasLimitUpdated { new_gas_limit: 5 });
    assert_eq!(state, ProgramState { gas_limit: 5, ..before });
}

#[test]
fn set_gas_limit_zero_is_invalid() {
    let mut state = fresh_state();
    let before = state.clone();
    assert_eq!(set_gas_limit(&mut state, &key(1), 0).unwrap_err(), ErrorCode::InvalidGasLimit);
    assert_eq!(state, before);
}

#[test]
fn set_gas_limit_checks_caller_then_pause_then_value() {
    let mut state = fresh_state();
    assert_eq!(set_gas_limit(&mut state, &key(8), 0).unwrap_err(), ErrorCode::Unauthorized);
    pause(&mut state, &key(1)).unwrap();
    assert_eq!(set_gas_limit(&mut state, &key(8), 0).unwrap_err(), ErrorCode::Unauthorized);
    assert_eq!(set_gas_limit(&mut state, &key(1), 0).unwrap_err(), ErrorCode::ContractPaused);
    assert_eq!(state.gas_limit, 100000);
}

#[test]
fn pause_and_unpause_toggle_the_flag() {
    let mut state = fresh_state();
    assert_eq!(is_paused(&state), Ok(false));
    assert_eq!(pause(&mut state, &key(1)).unwrap(), ContractPaused { by: key(1) });
    assert_eq!(is_paused(&state), Ok(true));
    assert_eq!(unpause(&mut state, &key(1)).unwrap(), ContractUnpaused { by: key(1) });
    assert_eq!(is_paused(&state), Ok(false));
    assert_eq!(state, fresh_state());
}

#[test]
fn pause_twice_fails() {
    let mut state = fresh_state();
    pause(&mut state, &key(1)).unwrap();
    assert_eq!(pause(&mut state, &key(1)).unwrap_err(), ErrorCode::AlreadyPaused);
    assert!(state.is_paused);
}

#[test]
fn unpause_when_running_fails() {
    let mut state = fresh_state();
    assert_eq!(unpause(&mut state, &key(1)).unwrap_err(), ErrorCode::NotPaused);
    assert!(!state.is_paused);
}

#[test]
fn pause_and_unpause_by_stranger_are_unauthorized() {
    let mut state = fresh_state();
    assert_eq!(pause(&mut state, &key(4)).unwrap_err(), ErrorCode::Unauthorized);
    assert!(!state.is_paused);
    pause(&mut state, &key(1)).unwrap();
    assert_eq!(unpause(&mut state, &key(4)).unwrap_err(), ErrorCode::Unauthorized);
    assert!(state.is_paused);
}

#[test]
fn set_connected_makes_active_entry() {
    let state = fresh_state();
    let (connection, event) = set_connected(&state, &key(1), 7, "0xabc".to_string()).unwrap();
    assert_eq!(
        connection,
        ChainConnection { chain_id: 7, contract_address: "0xabc".to_string(), is_active: true }
    );
    assert_eq!(event, ChainConnected { chain_id: 7, contract_address: "0xabc".to_string() });
}

#[test]
fn set_connected_rejects_empty_address() {
    let state = fresh_state();
    assert_eq!(
        set_connected(&state, &key(1), 7, String::new()).unwrap_err(),
        ErrorCode::InvalidAddress
    );
}

#[test]
fn set_connected_rejects_long_address() {
    let state = fresh_state();
    assert!(set_connected(&state, &key(1), 7, "a".repeat(200)).is_ok());
    assert_eq!(
        set_connected(&state, &key(1), 7, "a".repeat(201)).unwrap_err(),
        ErrorCode::FieldTooLong
    );
}

#[test]
fn set_connected_checks_caller_and_pause() {
    let mut state = fresh_state();
    assert_eq!(
        set_connected(&state, &key(5), 7, "0xabc".to_string()).unwrap_err(),
        ErrorCode::Unauthorized
    );
    pause(&mut state, &key(1)).unwrap();
    assert_eq!(
        set_connected(&state, &key(1), 7, String::new()).unwrap_err(),
        ErrorCode::ContractPaused
    );
}

#[test]
fn total_supply_reads_the_counter() {
    let mut state = fresh_state();
    assert_eq!(total_supply(&state), Ok(0));
    state.total_supply = 41;
    assert_eq!(total_supply(&state), Ok(41));
}

#[test]
fn error_kinds() {
    assert_eq!(ErrorCode::Unauthorized.kind(), ErrorKind::Unauthorized);
    assert_eq!(ErrorCode::InvalidAddress.kind(), ErrorKind::InvalidArgument);
    assert_eq!(ErrorCode::InvalidGasLimit.kind(), ErrorKind::InvalidArgument);
    assert_eq!(ErrorCode::FieldTooLong.kind(), ErrorKind::InvalidArgument);
    assert_eq!(ErrorCode::TokenNotExists.kind(), ErrorKind::InvalidState);
    assert_eq!(ErrorCode::InvalidState.kind(), ErrorKind::InvalidState);
    assert_eq!(ErrorCode::ContractPaused.kind(), ErrorKind::InvalidState);
    assert_eq!(ErrorCode::AlreadyPaused.kind(), ErrorKind::InvalidState);
    assert_eq!(ErrorCode::NotPaused.kind(), ErrorKind::InvalidState);
    assert_eq!(ErrorCode::ArithmeticOverflow.kind(), ErrorKind::InvalidState);
    assert_eq!(ErrorCode::AlreadyExists.kind(), ErrorKind::AlreadyExists);
    assert_eq!(ErrorCode::NotFound.kind(), ErrorKind::NotFound);
}

#[test]
fn error_messages() {
    assert_eq!(ErrorCode::Unauthorized.message(), "Unauthorized access");
    assert_eq!(ErrorCode::InvalidAddress.message(), "Invalid address");
    assert_eq!(ErrorCode::InvalidGasLimit.message(), "Invalid gas limit");
    assert_eq!(ErrorCode::TokenNotExists.message(), "Token does not exist or is burned");
    assert_eq!(ErrorCode::InvalidState.message(), "Invalid state for operation");
    assert_eq!(ErrorCode::ContractPaused.message(), "Contract is paused");
    assert_eq!(ErrorCode::AlreadyPaused.message(), "Contract is already paused");
    assert_eq!(ErrorCode::NotPaused.message(), "Contract is not paused");
    assert_eq!(ErrorCode::AlreadyExists.message(), "Entry already exists");
    assert_eq!(ErrorCode::NotFound.message(), "Entry not found");
    assert_eq!(ErrorCode::FieldTooLong.message(), "Text is too long for its field");
    assert_eq!(ErrorCode::ArithmeticOverflow.message(), "Arithmetic overflow");
}
