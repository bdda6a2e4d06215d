use sha2::{Digest, Sha256};
use strategy_core_v3::codec_v5::{decode_decision_result_v5, encode_decision_result_v5};
use strategy_core_v3::decision_v5::{
    hundredths_to_whole_contracts, whole_contracts_to_hundredths, CommandFenceV5, ContractSideV5,
    DecisionDispositionV5, DecisionResultV5, DecisionV5Error, KernelCheckpointV5, OrderActionV5,
    OrderTypeV5, PlaceOrderV5, ResultDiagnosticV5, ResultEvidenceV5, StrategyCommandV5,
    DECISION_RESULT_V5_MAGIC, LEGACY_DECISION_RESULT_V5_MAGIC, MAX_DECISION_RESULT_V5_BYTES,
    MAX_PRICE_MICROS,
};
use strategy_core_v3::identity_v6::derive_sleeve_identity_v5;
use strategy_core_v3::legacy_v5::{
    convert_legacy_command, encode_command_v5, legacy_command_from_current,
    strategy_command_v5_digest_matches, strategy_command_v5_sha256, LegacyStrategyCommandV5,
    COMMAND_DIGEST_DOMAIN,
};
use strategy_core_v3::result_v5::kernel_checkpoint_v5_sha256;

fn checkpoint(sequence: u64, state: &[u8]) -> KernelCheckpointV5 {
    let mut checkpoint = KernelCheckpointV5 {
        codec_profile: "dsm-reaction-v10-checkpoint".to_owned(),
        codec_version: 1,
        strategy_id: "dsm_reaction_v10".to_owned(),
        strategy_profile: "daily-high".to_owned(),
        profile_and_calculator_digest: "profile-calculator-digest".to_owned(),
        sequence,
        state: state.to_vec(),
        state_sha256: [0; 32],
    };
    checkpoint.state_sha256 = kernel_checkpoint_v5_sha256(&checkpoint);
    checkpoint
}

fn awaiting_result() -> DecisionResultV5 {
    DecisionResultV5 {
        delivery_id: "delivery.daily.1".to_owned(),
        sleeve_identity: derive_sleeve_identity_v5(
            "dsm_reaction_v10",
            "binding.daily.v10",
            "kalshi",
            "KXHIGHTSEA-26AUG30",
        ),
        state_fence: "fence".to_owned(),
        expected_broker_revision: 9,
        disposition: DecisionDispositionV5::AwaitingBrokerOutcome {
            continuation_id: "continuation.daily.1".to_owned(),
            continuation_generation: 1,
            awaited_command_id: "command.daily.2".to_owned(),
        },
        kernel_checkpoint: Some(checkpoint(1, b"durable-kernel-state")),
        commands: vec![StrategyCommandV5::PlaceOrder(PlaceOrderV5 {
            command_id: "command.daily.2".to_owned(),
            fence: CommandFenceV5 {
                continuation_id: "continuation.daily.1".to_owned(),
                continuation_generation: 1,
                expected_broker_revision: 9,
            },
            market_id: "KXHIGHTSEA-26AUG30-T80".to_owned(),
            action: OrderActionV5::Buy,
            side: ContractSideV5::No,
            order_type: OrderTypeV5::Limit,
            quantity_hundredths: 300,
            limit_price_micros: Some(400_000),
            market_price_cap_micros: None,
            expires_after_ms: Some(30_000),
            reduce_only: false,
            provider_client_id: "dsm-v10-ksea-20260830-2".to_owned(),
            signal_type: Some("dsm_reaction_v10".to_owned()),
            signal_metadata: Some("{}".to_owned()),
            metadata: vec![],
        })],
        evidence: vec![],
        diagnostics: vec![],
    }
}

fn capped_market_result() -> DecisionResultV5 {
    let mut result = awaiting_result();
    let StrategyCommandV5::PlaceOrder(order) = &mut result.commands[0] else {
        panic!("fixture command must be place order");
    };
    order.order_type = OrderTypeV5::Market;
    order.limit_price_micros = None;
    order.market_price_cap_micros = Some(990_000);
    order.expires_after_ms = None;
    result
}

fn set_quantity(result: &mut DecisionResultV5, quantity: u64) {
    let StrategyCommandV5::PlaceOrder(order) = &mut result.commands[0] else {
        panic!("fixture command must be place order");
    };
    order.quantity_hundredths = quantity;
}

/// The bytes of a legacy result: the current layout with whole contracts in each place's
/// quantity, under the legacy magic.
fn legacy_bytes(result: &DecisionResultV5, whole_quantity: u64) -> Vec<u8> {
    let mut whole = result.clone();
    set_quantity(&mut whole, whole_quantity);
    let mut bytes = encode_decision_result_v5(&whole).unwrap();
    bytes[..8].copy_from_slice(&LEGACY_DECISION_RESULT_V5_MAGIC);
    bytes
}

fn command_digest_with_quantity(command: &StrategyCommandV5, quantity: u64) -> [u8; 32] {
    let mut hasher = Sha256::new();
    hasher.update(COMMAND_DIGEST_DOMAIN);
    hasher.update(encode_command_v5(command, quantity));
    hasher.finalize().into()
}

#[test]
fn v5_result_round_trip_preserves_fenced_continuation() {
    let result = awaiting_result();
    let encoded = encode_decision_result_v5(&result).unwrap();
    assert!(encoded.starts_with(&DECISION_RESULT_V5_MAGIC));
    assert!(!encoded.starts_with(&LEGACY_DECISION_RESULT_V5_MAGIC));
    assert_eq!(decode_decision_result_v5(&encoded).unwrap(), result);
}

#[test]
fn v5_decodes_durable_legacy_whole_contract_results_and_matches_command_digest() {
    let result = awaiting_result();
    let encoded = legacy_bytes(&result, 3);
    let decoded = decode_decision_result_v5(&encoded).unwrap();
    assert_eq!(decoded, result);

    let legacy_digest = command_digest_with_quantity(&decoded.commands[0], 3);
    assert_ne!(
        strategy_command_v5_sha256(&decoded.commands[0]).unwrap(),
        legacy_digest
    );
    assert!(strategy_command_v5_digest_matches(&decoded.commands[0], legacy_digest).unwrap());

    let bytes = legacy_bytes(&result, u64::MAX / 100 + 1);
    assert_eq!(
        decode_decision_result_v5(&bytes),
        Err(DecisionV5Error::InvalidContract)
    );
}

#[test]
fn v5_capped_market_buy_round_trip_and_hash_bind_the_authoritative_cap() {
    let result = capped_market_result();
    let bytes = encode_decision_result_v5(&result).unwrap();
    assert_eq!(decode_decision_result_v5(&bytes).unwrap(), result);

    let capped_command = &result.commands[0];
    let capped_hash = strategy_command_v5_sha256(capped_command).unwrap();
    let mut changed = capped_command.clone();
    let StrategyCommandV5::PlaceOrder(order) = &mut changed else {
        panic!("fixture command must be place order");
    };
    order.market_price_cap_micros = Some(980_000);
    assert_ne!(strategy_command_v5_sha256(&changed).unwrap(), capped_hash);
}

#[test]
fn v5_rejects_malformed_market_price_caps() {
    let invalid_shapes = [
        (OrderActionV5::Buy, OrderTypeV5::Market, None, Some(0)),
        (
            OrderActionV5::Buy,
            OrderTypeV5::Market,
            None,
            Some(MAX_PRICE_MICROS + 1),
        ),
        (
            OrderActionV5::Buy,
            OrderTypeV5::Limit,
            Some(400_000),
            Some(400_000),
        ),
        (
            OrderActionV5::Sell,
            OrderTypeV5::Market,
            None,
            Some(400_000),
        ),
    ];

    for (action, order_type, limit_price_micros, market_price_cap_micros) in invalid_shapes {
        let mut result = awaiting_result();
        let StrategyCommandV5::PlaceOrder(order) = &mut result.commands[0] else {
            panic!("fixture command must be place order");
        };
        order.action = action;
        order.order_type = order_type;
        order.limit_price_micros = limit_price_micros;
        order.market_price_cap_micros = market_price_cap_micros;
        assert_eq!(
            encode_decision_result_v5(&result),
            Err(DecisionV5Error::InvalidContract)
        );
    }
}

#[test]
fn v5_result_rejects_duplicate_command_identity() {
    let mut result = awaiting_result();
    result.commands.push(result.commands[0].clone());
    assert_eq!(
        encode_decision_result_v5(&result),
        Err(DecisionV5Error::DuplicateIdentity)
    );
}

#[test]
fn v5_result_rejects_unawaited_economic_command() {
    let mut result = awaiting_result();
    result.disposition = DecisionDispositionV5::Completed;
    assert_eq!(
        encode_decision_result_v5(&result),
        Err(DecisionV5Error::InvalidContract)
    );
}

#[test]
fn fractional_hundredths_survive_a_result_round_trip() {
    for quantity_hundredths in [1, 125, 250] {
        let mut result = awaiting_result();
        set_quantity(&mut result, quantity_hundredths);
        let decoded =
            decode_decision_result_v5(&encode_decision_result_v5(&result).unwrap()).unwrap();
        let StrategyCommandV5::PlaceOrder(order) = &decoded.commands[0] else {
            unreachable!();
        };
        assert_eq!(order.quantity_hundredths, quantity_hundredths);
    }
}

#[test]
fn a_result_decoder_rejects_trailing_bytes_and_unknown_magic() {
    let mut bytes = encode_decision_result_v5(&awaiting_result()).unwrap();
    bytes.push(0);
    assert_eq!(
        decode_decision_result_v5(&bytes),
        Err(DecisionV5Error::TrailingBytes)
    );

    let mut bytes = encode_decision_result_v5(&awaiting_result()).unwrap();
    bytes[0] = b'X';
    assert_eq!(decode_decision_result_v5(&bytes), Err(DecisionV5Error::Decode));

    let bytes = encode_decision_result_v5(&awaiting_result()).unwrap();
    assert_eq!(
        decode_decision_result_v5(&bytes[..bytes.len() - 1]),
        Err(DecisionV5Error::Decode)
    );
    assert_eq!(decode_decision_result_v5(&[]), Err(DecisionV5Error::Decode));
}

#[test]
fn a_result_decoder_checks_the_decoded_result() {
    let mut bytes = encode_decision_result_v5(&awaiting_result()).unwrap();
    // The delivery id's length, then its first byte.
    assert_eq!(bytes[8] as usize, "delivery.daily.1".len());
    assert_eq!(bytes[9], b'd');
    bytes[9] = b' ';
    assert_eq!(
        decode_decision_result_v5(&bytes),
        Err(DecisionV5Error::BoundExceeded)
    );
}

#[test]
fn a_result_over_the_byte_bound_is_refused_both_ways() {
    let mut result = awaiting_result();
    result.evidence = (0..60)
        .map(|index| ResultEvidenceV5 {
            code: format!("evidence.{index}"),
            payload: vec![7; 60 * 1024],
        })
        .collect();
    assert_eq!(
        encode_decision_result_v5(&result),
        Err(DecisionV5Error::BoundExceeded)
    );
    let mut oversized = encode_decision_result_v5(&awaiting_result()).unwrap();
    oversized.resize(MAX_DECISION_RESULT_V5_BYTES + 1, 0);
    assert_eq!(
        decode_decision_result_v5(&oversized),
        Err(DecisionV5Error::Decode)
    );
}

#[test]
fn diagnostics_and_evidence_survive_a_round_trip() {
    let mut result = awaiting_result();
    result.evidence = vec![ResultEvidenceV5 {
        code: "signal".to_owned(),
        payload: vec![1, 2, 3, 251, 252, 253],
    }];
    result.diagnostics = vec![ResultDiagnosticV5 {
        severity: "info".to_owned(),
        code: "note".to_owned(),
        message: "temperature reached 73.1 °F".to_owned(),
    }];
    result.expected_broker_revision = 70_000;
    if let StrategyCommandV5::PlaceOrder(order) = &mut result.commands[0] {
        order.fence.expected_broker_revision = 70_000;
        order.expires_after_ms = Some(5_000_000_000);
        order.metadata = vec![0; 300];
    }
    let bytes = encode_decision_result_v5(&result).unwrap();
    assert_eq!(decode_decision_result_v5(&bytes).unwrap(), result);
}

#[test]
fn whole_contracts_and_hundredths_convert_both_ways() {
    assert_eq!(whole_contracts_to_hundredths(3), Ok(300));
    assert_eq!(hundredths_to_whole_contracts(300), Ok(3));
    assert_eq!(
        hundredths_to_whole_contracts(250),
        Err(DecisionV5Error::InvalidContract)
    );
    assert_eq!(
        whole_contracts_to_hundredths(u64::MAX / 100 + 1),
        Err(DecisionV5Error::InvalidContract)
    );
    assert_eq!(
        whole_contracts_to_hundredths(u64::MAX / 100),
        Ok(u64::MAX / 100 * 100)
    );
}

#[test]
fn a_legacy_command_converts_back_to_the_same_command() {
    let command = awaiting_result().commands[0].clone();
    let legacy = legacy_command_from_current(&command).unwrap();
    let LegacyStrategyCommandV5::PlaceOrder(order) = &legacy else {
        panic!("fixture command must be place order");
    };
    assert_eq!(order.quantity, 3);
    assert_eq!(convert_legacy_command(legacy).unwrap(), command);

    let mut fractional = command.clone();
    if let StrategyCommandV5::PlaceOrder(order) = &mut fractional {
        order.quantity_hundredths = 125;
    }
    assert_eq!(
        legacy_command_from_current(&fractional),
        Err(DecisionV5Error::InvalidContract)
    );
}
