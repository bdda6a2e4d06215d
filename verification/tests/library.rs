use strategy_core_v3::command_v6::valid_provider_client_id;
use strategy_core_v3::decision_v4::DecisionV4Error;
use strategy_core_v3::decision_v5::{
    BrokerCommandKindV5, BrokerCommandReturnV5, BrokerOrderStatusV5, BrokerOutcomeStatusV5,
    BrokerOutcomeV5, CancelAllOrdersReturnV5, CancelOrderReturnV5, DecisionV5Error,
    KernelBrokerErrorV5, KernelOrderResultV5, KernelOrderStatusV5, OriginatingTriggerV5,
    PlaceOrderReturnV5, TriggerV5,
};
use strategy_core_v3::kernel_v5::{order_status_str, KernelCheckpointCodec, KernelTransactionError};
use strategy_core_v3::legacy_v5::{
    convert_legacy_outcome, convert_legacy_return, convert_legacy_trigger,
    legacy_outcome_from_current, legacy_return_from_current, legacy_trigger_from_current,
    LegacyBrokerCommandReturnV5, LegacyPlaceOrderReturnV5,
};
use strategy_core_v3::text::{hex_digest, parse_hex_digest, valid_identifier};

fn outcome(filled_hundredths: u64) -> BrokerOutcomeV5 {
    BrokerOutcomeV5 {
        outcome_id: "outcome.1".to_owned(),
        continuation_id: "continuation.daily.1".to_owned(),
        continuation_generation: 1,
        command_id: "command.daily.2".to_owned(),
        command_kind: BrokerCommandKindV5::PlaceOrder,
        transition_sequence: 3,
        target_order_id: None,
        order_id: Some("order.daily.2".to_owned()),
        intent_id: Some("intent.daily.2".to_owned()),
        provider_order_id: Some("paper-order-2".to_owned()),
        provider_client_id: Some("dsm-v10-ksea-20260830-2".to_owned()),
        status: BrokerOutcomeStatusV5::PartiallyFilled,
        return_value: BrokerCommandReturnV5::PlaceOrder(PlaceOrderReturnV5::Placed(
            KernelOrderResultV5 {
                order_id: "order.daily.2".to_owned(),
                status: KernelOrderStatusV5::Partial,
                filled_quantity_hundredths: filled_hundredths,
                fill_price_micros: 590_000,
                fee_cost_micros: 10_000,
                reason: String::new(),
            },
        )),
        requested_quantity_hundredths: 300,
        filled_quantity_hundredths: filled_hundredths,
        remaining_quantity_hundredths: 300 - filled_hundredths,
        average_fill_price_micros: Some(590_000),
        reason: None,
        updated_at_unix_ms: 1_788_062_400_000,
        broker_revision: 10,
    }
}

#[test]
fn identifiers_are_short_ascii_words() {
    assert!(valid_identifier("command.daily-2:x_y"));
    assert!(!valid_identifier(""));
    assert!(!valid_identifier("two words"));
    assert!(!valid_identifier("température"));
    assert!(valid_identifier(&"a".repeat(160)));
    assert!(!valid_identifier(&"a".repeat(161)));
    assert!(valid_provider_client_id(&"a".repeat(128)));
    assert!(!valid_provider_client_id(&"a".repeat(129)));
}

#[test]
fn a_hex_digest_reads_back_as_its_bytes() {
    let bytes: [u8; 32] = core::array::from_fn(|index| (index * 37 + 5) as u8);
    let text = hex_digest(&bytes);
    assert_eq!(text.len(), 64);
    assert_eq!(&text[..6], "052a4f");
    assert_eq!(parse_hex_digest(&text), Some(bytes));
    assert_eq!(parse_hex_digest(&text.to_uppercase()), None);
    assert_eq!(parse_hex_digest(&text[..62]), None);
    assert_eq!(parse_hex_digest(&format!("{}g", &text[..63])), None);
}

#[test]
fn order_statuses_have_kernel_names() {
    let names = [
        (BrokerOrderStatusV5::DurablyAccepted, "accepted"),
        (BrokerOrderStatusV5::Dispatched, "dispatched"),
        (BrokerOrderStatusV5::Resting, "pending"),
        (BrokerOrderStatusV5::PartiallyFilled, "partial"),
        (BrokerOrderStatusV5::Filled, "filled"),
        (BrokerOrderStatusV5::CancellationRequested, "cancellation_requested"),
        (BrokerOrderStatusV5::Cancelled, "cancelled"),
        (BrokerOrderStatusV5::Expired, "expired"),
        (BrokerOrderStatusV5::Rejected, "rejected"),
        (BrokerOrderStatusV5::RecoveryRequired, "recovery_required"),
    ];
    for (status, name) in names {
        assert_eq!(order_status_str(status), name);
    }
}

#[test]
fn a_contract_error_is_a_transaction_error() {
    let error: KernelTransactionError = DecisionV5Error::BoundExceeded.into();
    assert!(matches!(
        error,
        KernelTransactionError::Contract(DecisionV5Error::BoundExceeded)
    ));
    let nested: KernelTransactionError =
        DecisionV5Error::V4(DecisionV4Error::InvalidContract).into();
    assert!(matches!(
        nested,
        KernelTransactionError::Contract(DecisionV5Error::V4(DecisionV4Error::InvalidContract))
    ));
    let codec = KernelCheckpointCodec {
        profile: "dsm-reaction-v10-checkpoint".to_owned(),
        version: 1,
    };
    assert_eq!(codec.clone(), codec);
}

#[test]
fn a_whole_contract_outcome_converts_to_legacy_and_back() {
    let current = outcome(200);
    let legacy = legacy_outcome_from_current(current.clone()).unwrap();
    assert_eq!(legacy.requested_quantity, 3);
    assert_eq!(legacy.filled_quantity, 2);
    assert_eq!(legacy.remaining_quantity, 1);
    let LegacyBrokerCommandReturnV5::PlaceOrder(LegacyPlaceOrderReturnV5::Placed(result)) =
        &legacy.return_value
    else {
        panic!("the fixture outcome is a placed order");
    };
    assert_eq!(result.filled_quantity, 2);
    assert_eq!(convert_legacy_outcome(legacy).unwrap(), current);

    let trigger = TriggerV5::BrokerOutcome {
        outcome: Box::new(current),
        originating_trigger: Box::new(OriginatingTriggerV5::BrokerState { broker_revision: 9 }),
    };
    let legacy_trigger = legacy_trigger_from_current(trigger.clone()).unwrap();
    assert_eq!(convert_legacy_trigger(legacy_trigger).unwrap(), trigger);
}

#[test]
fn a_fractional_outcome_has_no_legacy_form() {
    assert_eq!(
        legacy_outcome_from_current(outcome(150)),
        Err(DecisionV5Error::InvalidContract)
    );
    let trigger = TriggerV5::BrokerOutcome {
        outcome: Box::new(outcome(150)),
        originating_trigger: Box::new(OriginatingTriggerV5::BrokerState { broker_revision: 9 }),
    };
    assert_eq!(
        legacy_trigger_from_current(trigger),
        Err(DecisionV5Error::InvalidContract)
    );
    let state = TriggerV5::BrokerState { broker_revision: 4 };
    assert_eq!(
        convert_legacy_trigger(legacy_trigger_from_current(state.clone()).unwrap()).unwrap(),
        state
    );
}

#[test]
fn returns_other_than_a_placed_order_carry_over_unchanged() {
    let failed = BrokerCommandReturnV5::PlaceOrder(PlaceOrderReturnV5::Failed(
        KernelBrokerErrorV5 {
            code: "rejected".to_owned(),
            message: "price moved".to_owned(),
            retryable: false,
        },
    ));
    let cancel = BrokerCommandReturnV5::CancelOrder(CancelOrderReturnV5::Answered(true));
    let cancel_all = BrokerCommandReturnV5::CancelAllOrders(CancelAllOrdersReturnV5::Cancelled {
        cancelled_order_ids: vec!["order.daily.1".to_owned()],
    });
    for value in [failed, cancel, cancel_all] {
        let legacy = legacy_return_from_current(value.clone()).unwrap();
        assert_eq!(convert_legacy_return(legacy).unwrap(), value);
    }
}
