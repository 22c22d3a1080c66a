use universal_nft::{
    ChainConnected, ContractPaused, Deployment, Emitted, ErrorCode, GasLimitUpdated, LedgerCall,
    Operation, Pubkey, TokenBurned, TokenTransferReverted,
};

fn key(b: u8) -> Pubkey {
    Pubkey::new_from_array([b; 32])
}

fn deployed() -> Deployment {
    let name = "Universal NFT".to_string();
    Deployment::initialize(key(1), name, "UNFT".to_string(), key(2), 1, key(3)).unwrap().0
}

fn mint_op(unit: u8, slot: u64) -> Operation {
    Operation::Mint {
        mint: key(unit),
        recipient: key(10),
        uri: "ipfs://x".to_string(),
        slot,
        unix_timestamp: 1700,
    }
}

#[test]
fn apply_configuration_operations() {
    let mut d = deployed();
    assert_eq!(
        d.apply(Operation::SetGasLimit { authority: key(1), gas_limit: 9 }),
        Ok((Emitted::GasLimitUpdated(GasLimitUpdated { new_gas_limit: 9 }), None))
    );
    assert_eq!(d.state().gas_limit, 9);
    assert_eq!(
        d.apply(Operation::SetGasLimit { authority: key(1), gas_limit: 0 }),
        Err(ErrorCode::InvalidGasLimit)
    );
    assert_eq!(
        d.apply(Operation::SetGateway { authority: key(5), gateway_address: key(6) }),
        Err(ErrorCode::Unauthorized)
    );
    assert!(d.apply(Operation::SetGateway { authority: key(1), gateway_address: key(6) }).is_ok());
    assert_eq!(d.state().gateway, key(6));
    assert_eq!(
        d.apply(Operation::Connect {
            authority: key(1),
            chain_id: 4,
            contract_address: "0xabc".to_string()
        }),
        Ok((
            Emitted::ChainConnected(ChainConnected {
                chain_id: 4,
                contract_address: "0xabc".to_string()
            }),
            None
        ))
    );
    assert_eq!(
        d.apply(Operation::Connect {
            authority: key(1),
            chain_id: 4,
            contract_address: "0xabc".to_string()
        }),
        Err(ErrorCode::AlreadyExists)
    );
    assert_eq!(
        d.apply(Operation::Pause { authority: key(1) }),
        Ok((Emitted::ContractPaused(ContractPaused { by: key(1) }), None))
    );
    assert_eq!(d.apply(mint_op(7, 10)), Err(ErrorCode::ContractPaused));
    assert_eq!(d.apply(Operation::Pause { authority: key(1) }), Err(ErrorCode::AlreadyPaused));
    assert!(d.apply(Operation::Unpause { authority: key(1) }).is_ok());
    assert_eq!(d.apply(Operation::Unpause { authority: key(1) }), Err(ErrorCode::NotPaused));
    assert!(d.apply(mint_op(7, 10)).is_ok());
}

#[test]
fn apply_asset_operations() {
    let mut d = deployed();
    let id = match d.apply(mint_op(7, 10)).unwrap() {
        (Emitted::TokenMinted(event), call) => {
            assert_eq!(call, Some(LedgerCall::MintOne { recipient: key(10) }));
            assert_eq!(event.recipient, key(10));
            event.token_id
        }
        other => panic!("unexpected {:?}", other),
    };
    assert_eq!(id, 73_132_345_096);
    let sent = d
        .apply(Operation::Transfer {
            owner: key(10),
            token_id: id,
            receiver: "0xabc".to_string(),
            destination_chain_id: 2,
            unix_timestamp: 1800,
        })
        .unwrap();
    assert_eq!(sent.1, Some(LedgerCall::BurnOne { holder: key(10) }));
    assert_eq!(d.total_supply(), 0);
    assert_eq!(
        d.apply(Operation::Revert { token_id: id, original_owner: key(10) }),
        Ok((
            Emitted::TokenTransferReverted(TokenTransferReverted {
                owner: key(10),
                token_id: id,
                uri: "ipfs://x".to_string()
            }),
            Some(LedgerCall::MintOne { recipient: key(10) })
        ))
    );
    assert_eq!(d.total_supply(), 1);
    assert_eq!(
        d.apply(Operation::Burn { authority: key(10), token_id: id }),
        Ok((
            Emitted::TokenBurned(TokenBurned { owner: key(10), token_id: id }),
            Some(LedgerCall::BurnOne { holder: key(10) })
        ))
    );
    assert_eq!(
        d.apply(Operation::Revert { token_id: id, original_owner: key(10) }),
        Err(ErrorCode::InvalidState)
    );
    let received = d
        .apply(Operation::Receive {
            recipient: key(20),
            token_id: 5,
            uri: "ipfs://y".to_string(),
            sender_chain_id: 3,
            original_sender: "0xfrom".to_string(),
            unix_timestamp: 1900,
        })
        .unwrap();
    assert_eq!(received.1, Some(LedgerCall::MintOne { recipient: key(20) }));
    assert_eq!(d.total_supply(), 1);
}

#[test]
fn refused_operation_changes_nothing() {
    let mut d = deployed();
    d.apply(mint_op(7, 10)).unwrap();
    let id: u64 = 73_132_345_096;
    let state = d.state().clone();
    let record = d.record(id).unwrap().clone();
    let refused = [
        Operation::Burn { authority: key(11), token_id: id },
        Operation::Burn { authority: key(10), token_id: id + 1 },
        Operation::Transfer {
            owner: key(11),
            token_id: id,
            receiver: "0xabc".to_string(),
            destination_chain_id: 2,
            unix_timestamp: 1,
        },
        Operation::Transfer {
            owner: key(10),
            token_id: id,
            receiver: String::new(),
            destination_chain_id: 2,
            unix_timestamp: 1,
        },
        Operation::Revert { token_id: id, original_owner: key(10) },
        Operation::Receive {
            recipient: key(20),
            token_id: id,
            uri: "ipfs://y".to_string(),
            sender_chain_id: 3,
            original_sender: String::new(),
            unix_timestamp: 1,
        },
        Operation::Unpause { authority: key(1) },
        Operation::SetGasLimit { authority: key(1), gas_limit: 0 },
    ];
    for op in refused {
        assert!(d.apply(op).is_err());
        assert_eq!(d.state(), &state);
        assert_eq!(d.record(id).unwrap(), &record);
    }
}

#[test]
fn supply_counts_live_records_over_a_long_run() {
    let mut d = deployed();
    let mut known: Vec<u64> = Vec::new();
    let mut seed: u64 = 12345;
    for round in 0..400u64 {
        seed = seed.wrapping_mul(6364136223846793005).wrapping_add(1442695040888963407);
        let pick = (seed >> 33) % 6;
        let target = if known.is_empty() { 0 } else { known[(seed >> 40) as usize % known.len()] };
        let op = match pick {
            0 => mint_op((seed >> 50) as u8 % 4, round / 50),
            1 => Operation::Burn { authority: key(10), token_id: target },
            2 => Operation::Transfer {
                owner: key(10),
                token_id: target,
                receiver: "0xabc".to_string(),
                destination_chain_id: 2,
                unix_timestamp: 1,
            },
            3 => Operation::Revert { token_id: target, original_owner: key(10) },
            4 => Operation::Receive {
                recipient: key(10),
                token_id: (seed >> 20) % 64,
                uri: "ipfs://y".to_string(),
                sender_chain_id: 3,
                original_sender: String::new(),
                unix_timestamp: 1,
            },
            _ => Operation::Burn { authority: key(11), token_id: target },
        };
        match d.apply(op) {
            Ok((Emitted::TokenMinted(event), _)) => {
                assert!(!known.contains(&event.token_id));
                known.push(event.token_id);
            }
            Ok((Emitted::TokenTransferReceived(event), _)) => {
                assert!(!known.contains(&event.token_id));
                known.push(event.token_id);
            }
            _ => {}
        }
        let mut live: u64 = 0;
        for id in &known {
            if !d.record(*id).unwrap().is_burned {
                live += 1;
            }
        }
        assert_eq!(d.total_supply(), live);
    }
    assert!(known.len() > 10);
}

#[test]
fn stage_changes_nothing_and_conclude_stores_everything() {
    let mut d = deployed();
    let staged = d.stage(mint_op(7, 10)).unwrap();
    assert_eq!(staged.ledger_call(), Some(LedgerCall::MintOne { recipient: key(10) }));
    let id = match staged.event() {
        Emitted::TokenMinted(event) => event.token_id,
        other => panic!("unexpected {:?}", other),
    };
    assert_eq!(id, 73_132_345_096);
    assert_eq!(d.total_supply(), 0);
    assert_eq!(d.state().next_token_id, 1);
    assert!(d.record(id).is_none());
    assert!(d.origin(id).is_none());
    let event = d.conclude(staged, true);
    assert!(matches!(event, Some(Emitted::TokenMinted(_))));
    assert_eq!(d.total_supply(), 1);
    assert_eq!(d.state().next_token_id, 2);
    assert_eq!(d.record(id).unwrap().owner, key(10));
    assert_eq!(d.origin(id).unwrap().block_number, 10);
    assert_eq!(d.index_entry(id).unwrap().token_id, id);
}

#[test]
fn conclude_after_ledger_failure_keeps_nothing() {
    let mut d = deployed();
    d.apply(mint_op(7, 10)).unwrap();
    let id: u64 = 73_132_345_096;
    let state = d.state().clone();
    let record = d.record(id).unwrap().clone();
    let ops = [
        mint_op(3, 11),
        Operation::Burn { authority: key(10), token_id: id },
        Operation::Transfer {
            owner: key(10),
            token_id: id,
            receiver: "0xabc".to_string(),
            destination_chain_id: 2,
            unix_timestamp: 1,
        },
        Operation::Receive {
            recipient: key(20),
            token_id: 5,
            uri: "ipfs://y".to_string(),
            sender_chain_id: 3,
            original_sender: String::new(),
            unix_timestamp: 1,
        },
    ];
    for op in ops {
        let staged = d.stage(op).unwrap();
        assert!(staged.ledger_call().is_some());
        assert_eq!(d.conclude(staged, false), None);
        assert_eq!(d.state(), &state);
        assert_eq!(d.record(id).unwrap(), &record);
        assert!(d.record(5).is_none());
        assert_eq!(d.total_supply(), 1);
    }
}

#[test]
fn stage_and_conclude_agree_with_apply() {
    let ops = vec![
        Operation::Connect {
            authority: key(1),
            chain_id: 4,
            contract_address: "0xabc".to_string(),
        },
        mint_op(7, 10),
        Operation::Transfer {
            owner: key(10),
            token_id: 73_132_345_096,
            receiver: "0xabc".to_string(),
            destination_chain_id: 4,
            unix_timestamp: 1800,
        },
        Operation::Pause { authority: key(1) },
        Operation::Revert { token_id: 73_132_345_096, original_owner: key(10) },
        Operation::Unpause { authority: key(1) },
        Operation::Revert { token_id: 73_132_345_096, original_owner: key(10) },
        Operation::Burn { authority: key(10), token_id: 73_132_345_096 },
        Operation::SetGasLimit { authority: key(1), gas_limit: 0 },
    ];
    let mut direct = deployed();
    let mut staged_run = deployed();
    for op in ops {
        let expected = direct.apply(op.clone());
        match staged_run.stage(op) {
            Ok(staged) => {
                let call = staged.ledger_call();
                let event = staged_run.conclude(staged, true).unwrap();
                assert_eq!(expected, Ok((event, call)));
            }
            Err(e) => assert_eq!(expected, Err(e)),
        }
        assert_eq!(direct.state(), staged_run.state());
        assert_eq!(direct.record(73_132_345_096), staged_run.record(73_132_345_096));
        assert_eq!(direct.connection(4), staged_run.connection(4));
    }
    assert_eq!(direct.total_supply(), 0);
}

#[test]
fn stage_refuses_as_apply_does() {
    let d = deployed();
    assert_eq!(
        d.stage(Operation::Burn { authority: key(10), token_id: 1 }).err(),
        Some(ErrorCode::NotFound)
    );
    assert_eq!(
        d.stage(Operation::SetGateway { authority: key(9), gateway_address: key(6) }).err(),
        Some(ErrorCode::Unauthorized)
    );
    assert_eq!(d.stage(Operation::Unpause { authority: key(1) }).err(), Some(ErrorCode::NotPaused));
}

#[test]
fn paused_deployment_refuses_all_but_unpause() {
    let mut d = deployed();
    d.apply(mint_op(7, 10)).unwrap();
    let id: u64 = 73_132_345_096;
    d.apply(Operation::Transfer {
        owner: key(10),
        token_id: id,
        receiver: "0xabc".to_string(),
        destination_chain_id: 2,
        unix_timestamp: 1,
    })
    .unwrap();
    d.apply(Operation::Pause { authority: key(1) }).unwrap();
    let state = d.state().clone();
    let ops = [
        Operation::SetGateway { authority: key(1), gateway_address: key(6) },
        Operation::SetGasLimit { authority: key(1), gas_limit: 5 },
        Operation::Connect { authority: key(1), chain_id: 4, contract_address: "0x1".to_string() },
        mint_op(3, 11),
        Operation::Burn { authority: key(10), token_id: id },
        Operation::Transfer {
            owner: key(10),
            token_id: id,
            receiver: "0xabc".to_string(),
            destination_chain_id: 2,
            unix_timestamp: 1,
        },
        Operation::Receive {
            recipient: key(20),
            token_id: 5,
            uri: "ipfs://y".to_string(),
            sender_chain_id: 3,
            original_sender: String::new(),
            unix_timestamp: 1,
        },
        Operation::Revert { token_id: id, original_owner: key(10) },
    ];
    for op in ops {
        assert_eq!(d.apply(op), Err(ErrorCode::ContractPaused));
        assert_eq!(d.state(), &state);
    }
    assert_eq!(d.apply(Operation::Pause { authority: key(1) }), Err(ErrorCode::AlreadyPaused));
    assert!(d.apply(Operation::Unpause { authority: key(1) }).is_ok());
}
