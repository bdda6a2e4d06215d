use sha2::{Digest, Sha256};
use strategy_core_v3::answer_v6::validate_decision_result_v6;
use strategy_core_v3::codec_v6::{
    decision_result_v6_sha256, encode_decision_result_v6, encode_update_records,
    order_update_evidence,
};
use strategy_core_v3::checkpoint_v6::{
    convert_v5_kernel_checkpoint, kernel_checkpoint_v6_sha256, validate_kernel_checkpoint,
};
use strategy_core_v3::decision_v4::{
    BrokerV4, ConfigV4, DecisionContextV4, FenceV4, MarketComparisonV4, MarketIdentityV4,
    MarketV4, OpportunityV4, StationIdentityV4, StationV4, SupervisorV4, TriggerV4,
};
use strategy_core_v3::decision_v6::{
    validate_broker_order_v6, BrokerCommandKindV6, BrokerDetailV6, BrokerOrderStatusV6,
    BrokerOrderV6, BrokerPositionV6, CancelTargetV6, CapabilityGrantV6, CommandOutcomeV6,
    CommandReceiptV6, ContractSideV6, DecisionContextV6, DecisionDispositionV6,
    DecisionResultV6, DecisionV6Error, DeploymentModeV6, KernelCheckpointV5Layout,
    KernelCheckpointV6, OrderActionV6, OrderTypeV6, OrderUpdateStatusV6, OwnerTriggerV6,
    PlaceOrderV6, ResultDiagnosticV6, ResultEvidenceV6, RunnerEntryV6, RunnerSectionV6, StrategyCommandV6, StrategyScopeV6,
    AnnotationValueV6, TelemetryEntryV6, TriggerV6, MAX_COMMAND_RECEIPTS, MAX_REJECTION_REASON_BYTES,
    MAX_RUNNER_ENTRIES, MAX_STRATEGY_COMMANDS, REFUSED_COMMAND_PLAN_ROWS, OrderUpdateRecordV6,
    DECISION_RESULT_V6_MAGIC, MAX_EVIDENCE_PAYLOAD_BYTES, MAX_IDENTIFIER_BYTES, MAX_REASON_BYTES,
};
use strategy_core_v3::fence_v6::decision_fence_v6_sha256;
use strategy_core_v3::identity_v6::{
    command_id_v6, derive_provider_client_id_v6, derive_sleeve_identity_v6, intent_id_v6,
};
use strategy_core_v3::plan_v6::decision_plan_rows_v6;
use strategy_core_v3::read_v6::{decode_order_update_evidence, decode_update_records};
use strategy_core_v3::result_read_v6::decode_decision_result_v6;
use strategy_core_v3::text::hex_digest;
use strategy_core_v3::context_v6::reaches_sleeve_derivation;
use strategy_core_v3::trigger_v5::validate_owner_trigger_v5;
use strategy_core_v3::decision_v5::{DecisionV5Error, OwnerTriggerV5};
use strategy_core_v3::decision_v4::{ExtremaV4, ExtremeV4};

const MARKET: &str = "KXHIGHTSEA-26AUG30-T80";
const DIGEST: &str = "profile-calculator-digest";

fn s(value: &str) -> String {
    value.to_owned()
}

fn seeded(entries: Vec<RunnerEntryV6>) -> RunnerSectionV6 {
    RunnerSectionV6 {
        seeded: true,
        newest_view_revision: 0,
        entries,
    }
}

fn checkpoint(sequence: u64, state: &[u8], runner: RunnerSectionV6) -> KernelCheckpointV6 {
    KernelCheckpointV6 {
        codec_profile: s("dsm-reaction-v10-checkpoint"),
        codec_version: 1,
        strategy_id: s("dsm_reaction_v10"),
        strategy_profile: s("daily-high"),
        profile_and_calculator_digest: s(DIGEST),
        sequence,
        state: state.to_vec(),
        runner,
        state_sha256: [0; 32],
    }
    .seal()
}

fn station(station_id: &str) -> StationV4 {
    StationV4 {
        climate_event_date: s("2026-08-30"),
        climate_day_start_utc_unix_ms: 1,
        climate_day_end_utc_unix_ms: 2,
        identity: StationIdentityV4 {
            station_id: s(station_id),
            logical_location: s(station_id),
            timezone: s("America/Los_Angeles"),
            ..Default::default()
        },
        ..Default::default()
    }
}

fn resting_order() -> BrokerOrderV6 {
    BrokerOrderV6 {
        command_id: s("command.delivery.daily.0.0"),
        intent_id: s("intent.daily.1"),
        order_id: s("order.daily.1"),
        provider_order_id: Some(s("paper-order-1")),
        provider_client_id: s("dsm-v10-ksea-20260830"),
        market_id: s(MARKET),
        action: OrderActionV6::Buy,
        side: ContractSideV6::Yes,
        order_type: OrderTypeV6::Limit,
        quantity_hundredths: 300,
        filled_quantity_hundredths: 200,
        remaining_quantity_hundredths: 100,
        limit_price_micros: Some(600_000),
        average_fill_price_micros: Some(590_000),
        reserved_principal_micros: 600_000,
        reserved_fee_micros: 0,
        fees_micros: 20_000,
        rejection_reason: None,
        created_at_unix_ms: Some(1),
        updated_at_unix_ms: Some(2),
        signal_type: Some(s("dsm_reaction_v10")),
        signal_metadata: Some(s("{}")),
        status: BrokerOrderStatusV6::PartiallyFilled,
        revision: 2,
    }
}

fn entry(command_id: &str, kind: BrokerCommandKindV6) -> RunnerEntryV6 {
    RunnerEntryV6 {
        command_id: s(command_id),
        kind,
        client_order_id: None,
        order_id: None,
        market_id: None,
        action: None,
        side: None,
        requested_quantity_hundredths: 0,
        last_status: None,
        filled_quantity_hundredths: 0,
        order_revision: 0,
        issued_broker_revision: 0,
        vanished: false,
        vanished_revision: 0,
        absent_views: 0,
        delivery_failures: 0,
        delivery_deferrals: 0,
    }
}

/// A daily-high Sleeve on KSEA with one partially filled order and one position.
fn context() -> DecisionContextV6 {
    let owner_state = DecisionContextV4 {
        delivery_id: s("delivery.daily.1"),
        sleeve: SupervisorV4 {
            sleeve_id: derive_sleeve_identity_v6(
                &s("dsm_reaction_v10"),
                &s("binding.daily.v10"),
                &s("kalshi"),
                &s("KXHIGHTSEA-26AUG30"),
            ),
            incarnation: 1,
            process_attempt: 1,
            route_epoch: 1,
        },
        trigger: TriggerV4::Recovery,
        fence: FenceV4 {
            profile_and_calculator_digest: s(DIGEST),
            route_plan_sha256: [7; 32],
            broker_revision: 9,
            ..Default::default()
        },
        config: ConfigV4 {
            profile_and_calculator_digest: s(DIGEST),
            ..Default::default()
        },
        stations: vec![station("KSEA")],
        opportunity: OpportunityV4 {
            opportunity_id: s("KXHIGHTSEA-26AUG30"),
            venue_id: s("kalshi"),
            match_profile: s("daily-high"),
            market_ids: vec![s(MARKET)],
            contributor_stations: vec![s("KSEA")],
            ..Default::default()
        },
        markets: vec![MarketV4 {
            identity: MarketIdentityV4 {
                market_id: s(MARKET),
                opportunity_id: s("KXHIGHTSEA-26AUG30"),
                event_ticker: s("KXHIGHTSEA-26AUG30"),
                fee_type: s("quadratic"),
                fee_multiplier_millionths: Some(1_000_000),
                ..Default::default()
            },
            revision: 3,
            minutetemp_comparison: Some(MarketComparisonV4 {
                event_date: s("2026-08-30"),
                ..Default::default()
            }),
            ..Default::default()
        }],
        broker: BrokerV4 {
            revision: 9,
            provider_available_balance: 50_000_000,
            allowance_limit: 20_000_000,
            locally_reserved_cash: 600_000,
            current_commitment: 1_800_000,
            ..Default::default()
        },
        delivered_at_monotonic_ns: 1,
        hard_expires_at_monotonic_ns: 2,
        ..Default::default()
    };
    let mut live_entry = entry("command.delivery.daily.0.0", BrokerCommandKindV6::PlaceOrder);
    live_entry.client_order_id = Some(s("dsm-v10-ksea-20260830"));
    live_entry.order_id = Some(s("order.daily.1"));
    live_entry.market_id = Some(s(MARKET));
    live_entry.action = Some(OrderActionV6::Buy);
    live_entry.side = Some(ContractSideV6::Yes);
    live_entry.requested_quantity_hundredths = 300;
    live_entry.last_status = Some(OrderUpdateStatusV6::PartiallyFilled);
    live_entry.filled_quantity_hundredths = 200;
    live_entry.order_revision = 2;
    DecisionContextV6 {
        owner_state,
        strategy: StrategyScopeV6 {
            strategy_id: s("dsm_reaction_v10"),
            binding_id: s("binding.daily.v10"),
            profile: s("daily-high"),
            station_id: s("KSEA"),
            event_ticker: s("KXHIGHTSEA-26AUG30"),
            event_date: s("2026-08-30"),
            market_ids: vec![s(MARKET)],
            parameters: vec![],
            profile_and_calculator_digest: s(DIGEST),
        },
        deployment_mode: DeploymentModeV6::Paper,
        capabilities: CapabilityGrantV6 {
            timers: true,
            external_requests: Vec::new(),
        },
        broker: BrokerDetailV6 {
            revision: 9,
            reserved_cash_micros: 600_000,
            positions: vec![BrokerPositionV6 {
                market_id: s(MARKET),
                side: ContractSideV6::Yes,
                quantity_hundredths: 200,
                cost_basis_micros: 1_180_000,
                fees_micros: 20_000,
            }],
            orders: vec![resting_order()],
        },
        command_receipts: Vec::new(),
        orders_complete: true,
        trigger: TriggerV6::Owner(OwnerTriggerV6::Recovery),
        kernel_checkpoint: Some(checkpoint(1, b"durable-kernel-state", seeded(vec![live_entry]))),
        decision_time_unix_ms: 1_788_062_400_000,
        market_strikes: None,
    }
}

fn place(
    context: &DecisionContextV6,
    ordinal: usize,
    side: ContractSideV6,
    client: &str,
) -> StrategyCommandV6 {
    StrategyCommandV6::PlaceOrder(PlaceOrderV6 {
        command_id: context.command_id(ordinal),
        market_id: s(MARKET),
        action: OrderActionV6::Buy,
        side,
        order_type: OrderTypeV6::Limit,
        quantity_hundredths: 300,
        limit_price_micros: Some(400_000),
        market_price_cap_micros: None,
        expires_after_ms: Some(30_000),
        reduce_only: false,
        provider_client_id: s(client),
        signal_type: Some(s("dsm_reaction_v10")),
        signal_metadata: Some(s("{}")),
        metadata: vec![],
    })
}

fn place_entry(command: &StrategyCommandV6) -> RunnerEntryV6 {
    let StrategyCommandV6::PlaceOrder(order) = command else {
        panic!("expected a place");
    };
    let mut placed = entry(&order.command_id, BrokerCommandKindV6::PlaceOrder);
    placed.client_order_id = Some(order.provider_client_id.clone());
    placed.market_id = Some(order.market_id.clone());
    placed.action = Some(order.action);
    placed.side = Some(order.side);
    placed.requested_quantity_hundredths = order.quantity_hundredths;
    placed
}

fn command_entry(command: &StrategyCommandV6) -> RunnerEntryV6 {
    entry(command.command_id(), command.broker_kind().unwrap())
}

/// YES, then NO, then a cancel of the YES from the same decision, a cancel of the resting
/// order, and a timer: every command kind in one result.
fn multi_order_result(context: &DecisionContextV6) -> DecisionResultV6 {
    let yes = place(context, 0, ContractSideV6::Yes, "fixture-yes");
    let no = place(context, 1, ContractSideV6::No, "fixture-no");
    let cancel_same = StrategyCommandV6::CancelOrder {
        command_id: context.command_id(2),
        target: CancelTargetV6::SameDecision {
            provider_client_id: s("fixture-yes"),
        },
    };
    let cancel_resting = StrategyCommandV6::CancelOrder {
        command_id: context.command_id(3),
        target: CancelTargetV6::Order {
            order_id: s("order.daily.1"),
            expected_order_revision: 2,
        },
    };
    let timer = StrategyCommandV6::ScheduleTimer {
        command_id: context.command_id(4),
        key: s("exit"),
        scheduled_at_epoch_ns: 1_788_062_460_000_000_000,
        generation: context.timer_generation(),
        semantics: vec![],
    };
    let previous = context.kernel_checkpoint.as_ref().unwrap();
    let mut entries = previous.runner.entries.clone();
    entries.push(place_entry(&yes));
    entries.push(place_entry(&no));
    entries.push(command_entry(&cancel_same));
    entries.push(command_entry(&cancel_resting));
    DecisionResultV6 {
        delivery_id: context.owner_state.delivery_id.clone(),
        sleeve_identity: context.owner_state.sleeve.sleeve_id.clone(),
        state_fence: hex_digest(&decision_fence_v6_sha256(context).unwrap()),
        expected_broker_revision: context.broker.revision,
        disposition: DecisionDispositionV6::Completed,
        kernel_checkpoint: Some(checkpoint(
            previous.sequence + 1,
            b"post-event-kernel-state",
            seeded(entries),
        )),
        commands: vec![yes, no, cancel_same, cancel_resting, timer],
        acknowledged_command_ids: vec![],
        evidence: vec![],
        diagnostics: vec![],
        telemetry: vec![TelemetryEntryV6::Gauge {
            name: s("depth"),
            value_bits: 2.5_f64.to_bits(),
            fields: vec![(s("side"), s("yes"))],
        }],
    }
}

fn answer(context: &DecisionContextV6, result: &DecisionResultV6) -> Result<(), DecisionV6Error> {
    validate_decision_result_v6(context, result)
}

fn receipt(command_id: &str, kind: BrokerCommandKindV6, refused: bool) -> CommandReceiptV6 {
    CommandReceiptV6 {
        command_id: s(command_id),
        kind,
        outcome: if refused {
            CommandOutcomeV6::Refused {
                code: s("allowance_exceeded"),
                reason: s("the Sleeve allowance is spent"),
            }
        } else {
            CommandOutcomeV6::Accepted
        },
    }
}

#[test]
fn the_fixture_context_and_result_are_valid() {
    let context = context();
    context.validate().unwrap();
    let result = multi_order_result(&context);
    result.validate().unwrap();
    answer(&context, &result).unwrap();
}

#[test]
fn result_contract_violations_are_rejected() {
    let context = context();
    type Mutation = fn(&DecisionContextV6, &mut DecisionResultV6);
    let cases: [(&str, Mutation, DecisionV6Error); 13] = [
        (
            "command ids follow issue order",
            |_, result| result.commands.swap(0, 1),
            DecisionV6Error::InvalidContract,
        ),
        (
            "a same-decision cancel names an earlier place",
            |_, result| result.commands.swap(1, 2),
            DecisionV6Error::InvalidContract,
        ),
        (
            "client ids are unique in a decision",
            |context, result| {
                result.commands[1] = place(context, 1, ContractSideV6::No, "fixture-yes")
            },
            DecisionV6Error::DuplicateIdentity,
        ),
        (
            "a cancel names the order revision the decision saw",
            |_, result| {
                result.commands[3] = StrategyCommandV6::CancelOrder {
                    command_id: result.commands[3].command_id().to_owned(),
                    target: CancelTargetV6::Order {
                        order_id: s("order.daily.1"),
                        expected_order_revision: 1,
                    },
                }
            },
            DecisionV6Error::InvalidContract,
        ),
        (
            "timers carry the decision's generation",
            |_, result| {
                if let StrategyCommandV6::ScheduleTimer { generation, .. } = &mut result.commands[4]
                {
                    *generation = s("timer.other");
                }
            },
            DecisionV6Error::InvalidContract,
        ),
        (
            "one timer operation per key",
            |context, result| {
                result.commands.push(StrategyCommandV6::CancelTimer {
                    command_id: context.command_id(5),
                    key: s("exit"),
                    generation: s("timer.delivery.daily.0"),
                })
            },
            DecisionV6Error::DuplicateIdentity,
        ),
        (
            "every Broker command is tracked by the runner section",
            |_, result| {
                let checkpoint = result.kernel_checkpoint.as_mut().unwrap();
                checkpoint.runner.entries.pop();
                *checkpoint = checkpoint.clone().seal();
            },
            DecisionV6Error::InvalidContract,
        ),
        (
            "a completed decision advances the checkpoint by exactly one",
            |_, result| {
                let checkpoint = result.kernel_checkpoint.as_mut().unwrap();
                checkpoint.sequence += 1;
                *checkpoint = checkpoint.clone().seal();
            },
            DecisionV6Error::InvalidContract,
        ),
        (
            "a rejected decision carries no commands",
            |_, result| result.disposition = DecisionDispositionV6::Rejected,
            DecisionV6Error::InvalidContract,
        ),
        (
            "acknowledgements name receipts or terminal orders",
            |_, result| result.acknowledged_command_ids = vec![s("command.delivery.daily.0.0")],
            DecisionV6Error::InvalidContract,
        ),
        (
            "the fence is the decision's Broker revision",
            |_, result| result.expected_broker_revision = 8,
            DecisionV6Error::InvalidContract,
        ),
        (
            "a changed runner section breaks the checkpoint digest",
            |_, result| {
                result.kernel_checkpoint.as_mut().unwrap().runner.entries[0].order_revision = 3
            },
            DecisionV6Error::InvalidContract,
        ),
        (
            "at most 64 commands",
            |context, result| {
                result.commands = (0..=MAX_STRATEGY_COMMANDS)
                    .map(|ordinal| StrategyCommandV6::Stop {
                        command_id: context.command_id(ordinal),
                        reason: s("full"),
                    })
                    .collect()
            },
            DecisionV6Error::BoundExceeded,
        ),
    ];
    for (name, mutate, expected) in cases {
        let mut result = multi_order_result(&context);
        mutate(&context, &mut result);
        assert_eq!(answer(&context, &result), Err(expected), "{name}");
    }

    let mut no_timers = context.clone();
    no_timers.capabilities.timers = false;
    let mut result = multi_order_result(&no_timers);
    result.state_fence = hex_digest(&decision_fence_v6_sha256(&no_timers).unwrap());
    assert_eq!(
        answer(&no_timers, &result),
        Err(DecisionV6Error::InvalidContract),
        "timers need the timer capability"
    );
}

#[test]
fn a_rejected_decision_keeps_the_checkpoint_and_acknowledges_nothing() {
    let context = context();
    let mut result = multi_order_result(&context);
    result.disposition = DecisionDispositionV6::Rejected;
    result.commands.clear();
    result.kernel_checkpoint = context.kernel_checkpoint.clone();
    answer(&context, &result).unwrap();

    result.kernel_checkpoint = Some(checkpoint(2, b"changed", seeded(vec![])));
    assert_eq!(answer(&context, &result), Err(DecisionV6Error::InvalidContract));
}

#[test]
fn receipts_are_canonical_and_acknowledgeable() {
    let mut context = context();
    context.command_receipts = vec![
        receipt("command.delivery.daily.0.1", BrokerCommandKindV6::PlaceOrder, true),
        receipt("command.delivery.daily.0.2", BrokerCommandKindV6::CancelOrder, false),
    ];
    context.validate().unwrap();
    let mut result = multi_order_result(&context);
    result.state_fence = hex_digest(&decision_fence_v6_sha256(&context).unwrap());
    result.acknowledged_command_ids = vec![
        s("command.delivery.daily.0.1"),
        s("command.delivery.daily.0.2"),
    ];
    answer(&context, &result).unwrap();

    type ContextMutation = fn(&mut DecisionContextV6);
    let invalid: [(&str, ContextMutation, DecisionV6Error); 4] = [
        (
            "receipts are sorted by command id",
            |context| context.command_receipts.reverse(),
            DecisionV6Error::NonCanonicalOrder,
        ),
        (
            "an admitted place has an order record, not a receipt",
            |context| context.command_receipts[0].outcome = CommandOutcomeV6::Accepted,
            DecisionV6Error::InvalidContract,
        ),
        (
            "a command has an order record or a receipt, not both",
            |context| context.command_receipts[0].command_id = s("command.delivery.daily.0.0"),
            DecisionV6Error::InvalidContract,
        ),
        (
            "refusal codes are identifiers",
            |context| {
                context.command_receipts[0].outcome = CommandOutcomeV6::Refused {
                    code: s("price moved"),
                    reason: s("moved"),
                }
            },
            DecisionV6Error::InvalidContract,
        ),
    ];
    for (name, mutate, expected) in invalid {
        let mut context = context.clone();
        mutate(&mut context);
        assert_eq!(context.validate(), Err(expected), "{name}");
    }

    let mut bounded = context.clone();
    bounded.command_receipts = (0..=MAX_COMMAND_RECEIPTS)
        .map(|index| {
            receipt(
                &format!("command.old.{index:04}"),
                BrokerCommandKindV6::CancelAllOrders,
                false,
            )
        })
        .collect();
    assert_eq!(bounded.validate(), Err(DecisionV6Error::BoundExceeded));
}

#[test]
fn plan_rows_count_places_cancels_and_cancel_all_over_the_view() {
    let context = context();
    let result = multi_order_result(&context);
    // 4 fixed + 5 + 5 + 3 (same-decision cancel) + 3 (resting cancel); timers cost nothing.
    assert_eq!(decision_plan_rows_v6(&context, &result), 20);

    let mut acknowledged = context.clone();
    acknowledged.command_receipts =
        vec![receipt("command.old.1", BrokerCommandKindV6::CancelOrder, false)];
    let mut with_ack = result.clone();
    with_ack.acknowledged_command_ids = vec![s("command.old.1")];
    assert_eq!(decision_plan_rows_v6(&acknowledged, &with_ack), 21);

    let mut cancel_all = result.clone();
    cancel_all.commands.truncate(2);
    cancel_all.commands.push(StrategyCommandV6::CancelAllOrders {
        command_id: context.command_id(2),
    });
    // The resting order and both of this decision's places.
    assert_eq!(decision_plan_rows_v6(&context, &cancel_all), 4 + 10 + 3 + 3);

    let mut timers_only = result;
    timers_only.commands = vec![StrategyCommandV6::Stop {
        command_id: context.command_id(0),
        reason: s("done"),
    }];
    assert_eq!(decision_plan_rows_v6(&context, &timers_only), 0);

    let mut final_target = context.clone();
    let order = &mut final_target.broker.orders[0];
    order.status = BrokerOrderStatusV6::Filled;
    order.filled_quantity_hundredths = 300;
    order.remaining_quantity_hundredths = 0;
    order.reserved_principal_micros = 0;
    final_target.broker.reserved_cash_micros = 0;
    final_target.owner_state.broker.locally_reserved_cash = 0;
    final_target.owner_state.broker.current_commitment = 1_200_000;
    final_target.validate().unwrap();
    let cancel = DecisionResultV6 {
        commands: vec![StrategyCommandV6::CancelOrder {
            command_id: context.command_id(0),
            target: CancelTargetV6::Order {
                order_id: s("order.daily.1"),
                expected_order_revision: 2,
            },
        }],
        ..multi_order_result(&context)
    };
    assert_eq!(
        decision_plan_rows_v6(&final_target, &cancel),
        4 + REFUSED_COMMAND_PLAN_ROWS,
        "a cancel of a final order is refused"
    );
}

/// 128 resting orders, then 63 places and a cancel-all over all 191 orders: 513 rows.
fn row_limit_case() -> (DecisionContextV6, DecisionResultV6) {
    let mut context = context();
    let orders = (0..128)
        .map(|index| BrokerOrderV6 {
            command_id: format!("command.old.{index:03}"),
            intent_id: format!("intent.old.{index:03}"),
            order_id: format!("order.old.{index:03}"),
            provider_order_id: None,
            provider_client_id: format!("client.old.{index:03}"),
            quantity_hundredths: 100,
            filled_quantity_hundredths: 0,
            remaining_quantity_hundredths: 100,
            limit_price_micros: Some(10_000),
            average_fill_price_micros: None,
            reserved_principal_micros: 10_000,
            fees_micros: 0,
            status: BrokerOrderStatusV6::Resting,
            ..resting_order()
        })
        .collect::<Vec<_>>();
    context.broker.orders = orders;
    context.broker.reserved_cash_micros = 1_280_000;
    context.owner_state.broker.locally_reserved_cash = 1_280_000;
    context.owner_state.broker.current_commitment = 1_200_000 + 1_280_000;
    context.kernel_checkpoint = Some(checkpoint(1, b"state", seeded(vec![])));
    context.validate().unwrap();

    let mut commands = (0..63)
        .map(|ordinal| place(&context, ordinal, ContractSideV6::Yes, &format!("new.{ordinal}")))
        .collect::<Vec<_>>();
    commands.push(StrategyCommandV6::CancelAllOrders {
        command_id: context.command_id(63),
    });
    let entries = commands
        .iter()
        .map(|command| match command {
            StrategyCommandV6::PlaceOrder(_) => place_entry(command),
            _ => command_entry(command),
        })
        .collect();
    let result = DecisionResultV6 {
        delivery_id: context.owner_state.delivery_id.clone(),
        sleeve_identity: context.owner_state.sleeve.sleeve_id.clone(),
        state_fence: hex_digest(&decision_fence_v6_sha256(&context).unwrap()),
        expected_broker_revision: 9,
        disposition: DecisionDispositionV6::Completed,
        kernel_checkpoint: Some(checkpoint(2, b"state", seeded(entries))),
        commands,
        acknowledged_command_ids: vec![],
        evidence: vec![],
        diagnostics: vec![],
        telemetry: vec![],
    };
    (context, result)
}

#[test]
fn a_result_over_the_decision_row_limit_is_rejected() {
    let (context, result) = row_limit_case();
    assert_eq!(decision_plan_rows_v6(&context, &result), 4 + 63 * 5 + 3 + 128 + 63);
    assert_eq!(answer(&context, &result), Err(DecisionV6Error::BoundExceeded));
}

#[test]
fn broker_state_is_a_trigger_of_its_own() {
    let mut context = context();
    context.owner_state.trigger = TriggerV4::Bootstrap;
    context.trigger = TriggerV6::BrokerState { broker_revision: 9 };
    context.validate().unwrap();
    context.trigger = TriggerV6::BrokerState { broker_revision: 8 };
    assert_eq!(context.validate(), Err(DecisionV6Error::InvalidContract));
}

#[test]
fn contributor_stations_are_the_owner_stations() {
    let mut context = context();
    context.owner_state.stations.push(station("KBFI"));
    context
        .owner_state
        .stations
        .sort_by(|left, right| left.identity.station_id.cmp(&right.identity.station_id));
    assert_eq!(context.validate(), Err(DecisionV6Error::InvalidContract));
    context.owner_state.opportunity.contributor_stations = vec![s("KBFI"), s("KSEA")];
    context.validate().unwrap();
    assert_eq!(context.contributor_stations(), &vec![s("KBFI"), s("KSEA")]);

    context.owner_state.opportunity.contributor_stations = vec![s("KSEA"), s("KSEA")];
    assert_eq!(context.validate(), Err(DecisionV6Error::DuplicateIdentity));
}

#[test]
fn capabilities_are_canonical() {
    let mut context = context();
    context.capabilities.external_requests = vec![s("b.request"), s("a.request")];
    assert_eq!(context.validate(), Err(DecisionV6Error::NonCanonicalOrder));
    context.capabilities.external_requests.sort();
    context.validate().unwrap();
}

#[test]
fn runner_section_entries_are_bounded_and_never_terminal() {
    let context = context();
    let mut runner = context.kernel_checkpoint.clone().unwrap().runner;
    runner.entries[0].last_status = Some(OrderUpdateStatusV6::Filled);
    assert_eq!(
        checkpoint(2, b"state", runner).validate(),
        Err(DecisionV6Error::InvalidContract)
    );
    let entry = context.kernel_checkpoint.unwrap().runner.entries[0].clone();
    let full = RunnerSectionV6 {
        seeded: true,
        newest_view_revision: 0,
        entries: (0..=MAX_RUNNER_ENTRIES)
            .map(|index| RunnerEntryV6 {
                command_id: format!("command.{index}"),
                client_order_id: Some(format!("client.{index}")),
                ..entry.clone()
            })
            .collect(),
    };
    assert_eq!(
        checkpoint(2, b"state", full).validate(),
        Err(DecisionV6Error::BoundExceeded)
    );
}

fn hash_component(hasher: &mut Sha256, value: &[u8]) {
    hasher.update((value.len() as u64).to_be_bytes());
    hasher.update(value);
}

#[test]
fn a_v5_checkpoint_converts_with_its_state_and_an_empty_runner_section() {
    let mut v5 = KernelCheckpointV5Layout {
        codec_profile: s("trader-strategies.dsm-reaction-v12.v3"),
        codec_version: 3,
        strategy_id: s("dsm_reaction_v12"),
        strategy_profile: s("daily-high"),
        profile_and_calculator_digest: s(DIGEST),
        sequence: 41,
        state: b"v12-private-state".to_vec(),
        state_sha256: [0; 32],
    };
    // The V5 digest: domain, then each field, variable ones length-prefixed.
    let mut hasher = Sha256::new();
    hasher.update(b"strategy-core/decision-v5/checkpoint/v1\0");
    hash_component(&mut hasher, v5.codec_profile.as_bytes());
    hasher.update(v5.codec_version.to_be_bytes());
    hash_component(&mut hasher, v5.strategy_id.as_bytes());
    hash_component(&mut hasher, v5.strategy_profile.as_bytes());
    hash_component(&mut hasher, v5.profile_and_calculator_digest.as_bytes());
    hasher.update(v5.sequence.to_be_bytes());
    hash_component(&mut hasher, &v5.state);
    v5.state_sha256 = hasher.finalize().into();

    let converted = convert_v5_kernel_checkpoint(v5.clone()).unwrap();
    assert_eq!(converted.state, b"v12-private-state");
    assert_eq!(converted.sequence, 41);
    assert_eq!(converted.codec_profile, v5.codec_profile);
    assert_eq!(converted.codec_version, 3);
    assert!(converted.runner.entries.is_empty());
    assert_eq!(converted.state_sha256, kernel_checkpoint_v6_sha256(&converted));
    assert_ne!(converted.state_sha256, v5.state_sha256, "V6 digests its own domain");

    let mut tampered = v5;
    tampered.state.push(0);
    assert_eq!(
        convert_v5_kernel_checkpoint(tampered),
        Err(DecisionV6Error::InvalidContract)
    );
}

#[test]
fn derived_provider_client_ids_match_the_broker_vector() {
    let sleeve = derive_sleeve_identity_v6(
        &s("strategy-one"),
        &s("binding-one"),
        &s("venue"),
        &s("opportunity-one"),
    );
    assert_eq!(
        derive_provider_client_id_v6(DeploymentModeV6::Paper, &sleeve, 1, &s("fixed-vector"), 0)
            .unwrap(),
        "tv3paper_b6f9a42c4af2a6ad450ccd5a"
    );
    assert!(derive_provider_client_id_v6(
        DeploymentModeV6::Paper,
        &s("not-a-digest"),
        1,
        &s("d"),
        0
    )
    .is_none());
}

#[test]
fn terminal_orders_that_stopped_early_may_report_nothing_remaining() {
    let markets = [s(MARKET)];
    for status in [
        BrokerOrderStatusV6::Cancelled,
        BrokerOrderStatusV6::Expired,
        BrokerOrderStatusV6::Rejected,
        BrokerOrderStatusV6::Filled,
        BrokerOrderStatusV6::Resting,
    ] {
        let order = BrokerOrderV6 {
            status,
            filled_quantity_hundredths: 100,
            remaining_quantity_hundredths: 0,
            reserved_principal_micros: 0,
            ..resting_order()
        };
        let stopped_early = !matches!(
            status,
            BrokerOrderStatusV6::Filled | BrokerOrderStatusV6::Resting
        );
        assert_eq!(
            validate_broker_order_v6(&order, &markets).is_ok(),
            stopped_early,
            "{status:?}"
        );
    }
    let mut foreign = resting_order();
    foreign.market_id = s("KXOTHER");
    assert_eq!(
        validate_broker_order_v6(&foreign, &markets),
        Err(DecisionV6Error::InvalidContract),
        "a host can quarantine a record before building the context"
    );
}

#[test]
fn command_ids_are_the_intent_ids_and_unique_across_sleeves() {
    let context = context();
    let sleeve = &context.owner_state.sleeve;
    let intent = intent_id_v6(
        &sleeve.sleeve_id,
        sleeve.incarnation,
        &context.owner_state.delivery_id,
        3,
    )
    .unwrap();
    assert_eq!(
        context.command_id(3),
        format!("command.{}", &hex_digest(&intent)[..32])
    );
    let other_sleeve =
        derive_sleeve_identity_v6(&s("other"), &s("binding"), &s("kalshi"), &s("KXHIGHTSEA-26AUG30"));
    let variants = [
        command_id_v6(&sleeve.sleeve_id, 1, &s("delivery.daily.1"), 0),
        command_id_v6(&other_sleeve, 1, &s("delivery.daily.1"), 0),
        command_id_v6(&sleeve.sleeve_id, 2, &s("delivery.daily.1"), 0),
        command_id_v6(&sleeve.sleeve_id, 1, &s("delivery.daily.2"), 0),
        command_id_v6(&sleeve.sleeve_id, 1, &s("delivery.daily.1"), 1),
    ];
    let unique = variants
        .iter()
        .collect::<std::collections::BTreeSet<_>>()
        .len();
    assert_eq!(
        unique,
        variants.len(),
        "Sleeve, incarnation, delivery and ordinal all separate command ids"
    );
    let client = derive_provider_client_id_v6(
        DeploymentModeV6::Paper,
        &sleeve.sleeve_id,
        1,
        &s("delivery.daily.1"),
        3,
    )
    .unwrap();
    assert_eq!(client, format!("tv3paper_{}", &hex_digest(&intent)[..24]));
}

#[test]
fn a_cancel_all_counts_the_orders_open_when_it_is_issued() {
    let context = context();
    let base = multi_order_result(&context);
    let place = |ordinal, client: &str| place(&context, ordinal, ContractSideV6::Yes, client);
    let cancel_all = |ordinal| StrategyCommandV6::CancelAllOrders {
        command_id: context.command_id(ordinal),
    };
    let cases: [(&str, Vec<StrategyCommandV6>, usize); 3] = [
        (
            "places before a cancel-all are cancelled by it",
            vec![place(0, "a"), place(1, "b"), cancel_all(2)],
            4 + 5 + 5 + (3 + 1 + 2),
        ),
        (
            "a place after a cancel-all is not",
            vec![place(0, "a"), cancel_all(1), place(2, "b")],
            4 + 5 + (3 + 1 + 1) + 5,
        ),
        (
            "a second cancel-all counts only what opened since the first",
            vec![place(0, "a"), cancel_all(1), place(2, "b"), cancel_all(3)],
            4 + 5 + (3 + 1 + 1) + 5 + (3 + 1),
        ),
    ];
    for (name, commands, rows) in cases {
        let result = DecisionResultV6 {
            commands,
            ..base.clone()
        };
        assert_eq!(decision_plan_rows_v6(&context, &result), rows, "{name}");
    }
}

#[test]
fn a_rejection_reason_belongs_to_a_rejected_order_within_its_bound() {
    let markets = [s(MARKET)];
    let rejected = BrokerOrderV6 {
        status: BrokerOrderStatusV6::Rejected,
        filled_quantity_hundredths: 0,
        remaining_quantity_hundredths: 300,
        reserved_principal_micros: 0,
        rejection_reason: Some("r".repeat(MAX_REJECTION_REASON_BYTES)),
        ..resting_order()
    };
    validate_broker_order_v6(&rejected, &markets).unwrap();
    for invalid in [
        BrokerOrderV6 {
            rejection_reason: Some("r".repeat(MAX_REJECTION_REASON_BYTES + 1)),
            ..rejected.clone()
        },
        BrokerOrderV6 {
            rejection_reason: Some(String::new()),
            ..rejected.clone()
        },
        BrokerOrderV6 {
            rejection_reason: Some(s("rejected")),
            ..resting_order()
        },
    ] {
        assert_eq!(
            validate_broker_order_v6(&invalid, &markets),
            Err(DecisionV6Error::InvalidContract)
        );
    }
}

#[test]
fn a_live_cancel_all_counts_a_cancel_per_open_order() {
    let mut context = context();
    context.deployment_mode = DeploymentModeV6::Live;
    context.capabilities.timers = false;
    let base = multi_order_result(&context);
    let place = |ordinal, client: &str| place(&context, ordinal, ContractSideV6::Yes, client);
    let cancel_all = |ordinal| StrategyCommandV6::CancelAllOrders {
        command_id: context.command_id(ordinal),
    };
    let cases: [(&str, Vec<StrategyCommandV6>, usize); 2] = [
        (
            "3 per open context order and 1 per collapsed own place",
            vec![place(0, "a"), place(1, "b"), cancel_all(2)],
            4 + 5 + 5 + (3 + 1 + 1),
        ),
        (
            "a cancel-all over nothing still writes its receipt",
            vec![cancel_all(0), cancel_all(1)],
            4 + 3 + 1,
        ),
    ];
    for (name, commands, rows) in cases {
        let result = DecisionResultV6 {
            commands,
            ..base.clone()
        };
        assert_eq!(decision_plan_rows_v6(&context, &result), rows, "{name}");
    }
    let mut paper = context.clone();
    paper.deployment_mode = DeploymentModeV6::Paper;
    let result = DecisionResultV6 {
        commands: vec![place(0, "a"), cancel_all(1)],
        ..base
    };
    assert_eq!(decision_plan_rows_v6(&paper, &result), 4 + 5 + (3 + 1 + 1));
    assert_eq!(decision_plan_rows_v6(&context, &result), 4 + 5 + (3 + 1));
}

fn update_record(index: usize) -> OrderUpdateRecordV6 {
    OrderUpdateRecordV6 {
        command_id: format!("command.delivery.daily.0.{index}"),
        kind: BrokerCommandKindV6::PlaceOrder,
        client_order_id: Some("x".repeat(MAX_IDENTIFIER_BYTES)),
        order_id: Some("y".repeat(MAX_IDENTIFIER_BYTES)),
        market_id: Some(MARKET.to_owned()),
        action: Some(OrderActionV6::Buy),
        side: Some(ContractSideV6::Yes),
        status: OrderUpdateStatusV6::Refused {
            code: "price_moved".to_owned(),
            reason: "r".repeat(MAX_REASON_BYTES),
        },
        requested_quantity_hundredths: 300,
        filled_quantity_hundredths: 0,
        remaining_quantity_hundredths: 0,
        newly_filled_quantity_hundredths: 0,
        average_fill_price_micros: None,
        fees_micros: 0,
        is_final: true,
        vanished: false,
    }
}

#[test]
fn order_updates_split_into_bounded_chunks_that_hold_every_record_in_order() {
    let records: Vec<OrderUpdateRecordV6> = (0..40).map(update_record).collect();
    let evidence = order_update_evidence(&records).unwrap();
    assert!(evidence.len() > 1);
    let mut offset = 0;
    for entry in &evidence {
        assert_eq!(entry.code, "order_updates");
        assert!(entry.payload.len() <= MAX_EVIDENCE_PAYLOAD_BYTES);
        let count = entry.payload[0] as usize;
        assert!(count > 0 && count < 251);
        assert_eq!(entry.payload, encode_update_records(&records[offset..offset + count]));
        offset += count;
    }
    assert_eq!(offset, records.len());

    // Each chunk is as full as the bound allows: the next record would not have fit.
    let mut offset = 0;
    for entry in &evidence[..evidence.len() - 1] {
        let count = entry.payload[0] as usize;
        let longer = encode_update_records(&records[offset..offset + count + 1]);
        assert!(longer.len() + 9 > MAX_EVIDENCE_PAYLOAD_BYTES + 1);
        offset += count;
    }
}

#[test]
fn a_multi_order_result_round_trips_under_the_v6_magic() {
    let context = context();
    let result = multi_order_result(&context);
    validate_decision_result_v6(&context, &result).unwrap();
    let encoded = encode_decision_result_v6(&result).unwrap();
    assert!(encoded.starts_with(&DECISION_RESULT_V6_MAGIC));
    assert_eq!(decode_decision_result_v6(&encoded).unwrap(), result);

    let mut trailing = encoded.clone();
    trailing.push(0);
    assert_eq!(
        decode_decision_result_v6(&trailing),
        Err(DecisionV6Error::TrailingBytes)
    );
    let mut wrong_magic = encoded;
    wrong_magic[7] = b'B';
    assert_eq!(
        decode_decision_result_v6(&wrong_magic),
        Err(DecisionV6Error::Decode)
    );
}

#[test]
fn a_huge_length_prefix_fails_to_decode_without_allocating() {
    for length in [1_u64 << 62, 1_u64 << 63, u64::MAX] {
        let mut bytes = DECISION_RESULT_V6_MAGIC.to_vec();
        bytes.push(0xFD);
        bytes.extend_from_slice(&length.to_be_bytes());
        assert_eq!(
            decode_decision_result_v6(&bytes).unwrap_err(),
            DecisionV6Error::Decode,
            "{length}"
        );
    }
}

#[test]
fn every_field_of_a_result_survives_its_encoding() {
    let context = context();
    let mut result = multi_order_result(&context);
    result.telemetry = vec![
        TelemetryEntryV6::Counter {
            name: s("fills"),
            value_bits: 3,
            fields: vec![(s("market"), s(MARKET)), (s("side"), s("no"))],
        },
        TelemetryEntryV6::Annotation {
            name: s("note"),
            value: AnnotationValueV6::Text(s("edge")),
            fields: vec![],
        },
        TelemetryEntryV6::Annotation {
            name: s("delta"),
            value: AnnotationValueV6::Integer(-42),
            fields: vec![],
        },
        TelemetryEntryV6::Annotation {
            name: s("bits"),
            value: AnnotationValueV6::FloatBits(0.5_f64.to_bits()),
            fields: vec![],
        },
        TelemetryEntryV6::Annotation {
            name: s("armed"),
            value: AnnotationValueV6::Bool(true),
            fields: vec![],
        },
        TelemetryEntryV6::Annotation {
            name: s("none"),
            value: AnnotationValueV6::Null,
            fields: vec![],
        },
    ];
    result.evidence = order_update_evidence(&[update_record(1)]).unwrap();
    result.diagnostics = vec![ResultDiagnosticV6 {
        severity: s("info"),
        code: s("quiet"),
        message: s("nothing to do"),
    }];
    let encoded = encode_decision_result_v6(&result).unwrap();
    assert_eq!(decode_decision_result_v6(&encoded).unwrap(), result);

    let mut rejected = result.clone();
    rejected.disposition = DecisionDispositionV6::Rejected;
    rejected.commands = vec![];
    rejected.kernel_checkpoint = None;
    let encoded = encode_decision_result_v6(&rejected).unwrap();
    assert_eq!(decode_decision_result_v6(&encoded).unwrap(), rejected);
}

#[test]
fn decoding_checks_the_result_it_reads() {
    let context = context();
    let result = multi_order_result(&context);
    let valid = encode_decision_result_v6(&result).unwrap();
    // The delivery id is the first field; a space makes it no identifier, so the result reads
    // but fails its own bounds.
    assert_eq!(valid[8] as usize, result.delivery_id.len());
    let mut spaced = valid.clone();
    spaced[9] = b' ';
    assert_eq!(
        decode_decision_result_v6(&spaced),
        Err(DecisionV6Error::BoundExceeded)
    );
    let mut truncated = valid.clone();
    truncated.truncate(valid.len() - 1);
    assert_eq!(decode_decision_result_v6(&truncated), Err(DecisionV6Error::Decode));
    let mut oversized = DECISION_RESULT_V6_MAGIC.to_vec();
    oversized.resize(1024 * 1024 + 1, 0);
    assert_eq!(decode_decision_result_v6(&oversized), Err(DecisionV6Error::Decode));
    assert_eq!(decode_decision_result_v6(&[]), Err(DecisionV6Error::Decode));
}

#[test]
fn order_update_evidence_round_trips_in_bounded_chunks() {
    let record = OrderUpdateRecordV6 {
        command_id: "command.delivery.daily.0.0".to_owned(),
        kind: BrokerCommandKindV6::PlaceOrder,
        client_order_id: Some("x".repeat(MAX_IDENTIFIER_BYTES)),
        order_id: Some("y".repeat(MAX_IDENTIFIER_BYTES)),
        market_id: Some(MARKET.to_owned()),
        action: Some(OrderActionV6::Buy),
        side: Some(ContractSideV6::Yes),
        status: OrderUpdateStatusV6::Refused {
            code: "price_moved".to_owned(),
            reason: "r".repeat(MAX_REASON_BYTES),
        },
        requested_quantity_hundredths: 300,
        filled_quantity_hundredths: 0,
        remaining_quantity_hundredths: 0,
        newly_filled_quantity_hundredths: 0,
        average_fill_price_micros: None,
        fees_micros: 0,
        is_final: true,
        vanished: false,
    };
    let records = vec![record; 40];
    let evidence = order_update_evidence(&records).unwrap();
    assert!(evidence.len() > 1);
    assert!(
        evidence
            .iter()
            .all(|entry| entry.payload.len() <= MAX_EVIDENCE_PAYLOAD_BYTES)
    );
    let decoded = evidence
        .iter()
        .flat_map(|entry| decode_order_update_evidence(entry).unwrap())
        .collect::<Vec<_>>();
    assert_eq!(decoded, records);
}

#[test]
fn order_update_payloads_decode_every_field_and_refuse_damaged_bytes() {
    let mut filled = update_record(7);
    filled.kind = BrokerCommandKindV6::CancelOrder;
    filled.action = Some(OrderActionV6::Sell);
    filled.side = None;
    filled.status = OrderUpdateStatusV6::PartiallyFilled;
    filled.filled_quantity_hundredths = 150;
    filled.remaining_quantity_hundredths = 150;
    filled.newly_filled_quantity_hundredths = 50;
    filled.average_fill_price_micros = Some(420_000);
    filled.fees_micros = 1_234_567;
    filled.is_final = false;
    filled.vanished = true;
    let records = vec![update_record(1), filled];
    let payload = encode_update_records(&records);
    assert_eq!(decode_update_records(&payload), Ok(records.clone()));
    assert_eq!(decode_update_records(&[0]), Ok(vec![]));

    let mut trailing = payload.clone();
    trailing.push(0);
    assert_eq!(decode_update_records(&trailing), Err(DecisionV6Error::TrailingBytes));
    assert_eq!(
        decode_update_records(&payload[..payload.len() - 1]),
        Err(DecisionV6Error::Decode)
    );
    assert_eq!(decode_update_records(&[]), Err(DecisionV6Error::Decode));
    // A record kind past the three kinds, and a boolean that is neither 0 nor 1.
    let mut bad_kind = encode_update_records(&[update_record(3)]);
    let kind_at = 2 + update_record(3).command_id.len();
    assert_eq!(bad_kind[kind_at], 0);
    bad_kind[kind_at] = 3;
    assert_eq!(decode_update_records(&bad_kind), Err(DecisionV6Error::Decode));
    let mut bad_flag = encode_update_records(&[update_record(3)]);
    let last = bad_flag.len() - 1;
    bad_flag[last] = 2;
    assert_eq!(decode_update_records(&bad_flag), Err(DecisionV6Error::Decode));
}

#[test]
fn order_update_evidence_needs_its_code_and_identifier_ids() {
    let payload = encode_update_records(&[update_record(1)]);
    let wrong_code = ResultEvidenceV6 {
        code: s("fills"),
        payload: payload.clone(),
    };
    assert_eq!(
        decode_order_update_evidence(&wrong_code),
        Err(DecisionV6Error::InvalidContract)
    );
    let mut unnamed = update_record(1);
    unnamed.command_id = String::new();
    let bad_ids = ResultEvidenceV6 {
        code: s("order_updates"),
        payload: encode_update_records(&[unnamed]),
    };
    assert_eq!(
        decode_order_update_evidence(&bad_ids),
        Err(DecisionV6Error::InvalidContract)
    );
    let truncated = ResultEvidenceV6 {
        code: s("order_updates"),
        payload: payload[..payload.len() - 2].to_vec(),
    };
    assert_eq!(
        decode_order_update_evidence(&truncated),
        Err(DecisionV6Error::Decode)
    );
}

#[test]
fn a_result_with_damaged_order_updates_is_rejected_on_its_own() {
    let context = context();
    let mut result = multi_order_result(&context);
    result.evidence = order_update_evidence(&[update_record(1)]).unwrap();
    assert_eq!(result.validate(), Ok(()));
    result.evidence[0].payload.push(0);
    assert_eq!(result.validate(), Err(DecisionV6Error::TrailingBytes));
    result.evidence[0].payload = vec![5];
    assert_eq!(result.validate(), Err(DecisionV6Error::Decode));
    result.evidence[0].code = s("fills");
    assert_eq!(result.validate(), Ok(()));
}

#[test]
fn no_order_updates_make_no_evidence_and_an_oversized_one_is_refused() {
    assert_eq!(order_update_evidence(&[]), Ok(vec![]));
    let mut huge = update_record(0);
    huge.status = OrderUpdateStatusV6::Refused {
        code: "price_moved".to_owned(),
        reason: "r".repeat(MAX_EVIDENCE_PAYLOAD_BYTES),
    };
    assert_eq!(
        order_update_evidence(&[update_record(1), huge]),
        Err(DecisionV6Error::BoundExceeded)
    );
    let one = order_update_evidence(&[update_record(2)]).unwrap();
    assert_eq!(one.len(), 1);
    assert_eq!(one[0].payload, encode_update_records(&[update_record(2)]));
}

#[test]
fn a_valid_result_encodes_under_the_v6_magic_and_hashes_its_bytes() {
    let context = context();
    let result = multi_order_result(&context);
    let bytes = encode_decision_result_v6(&result).unwrap();
    assert!(bytes.starts_with(&DECISION_RESULT_V6_MAGIC));
    // The payload starts with the delivery id: its length, then its bytes.
    assert_eq!(bytes[8] as usize, result.delivery_id.len());
    assert_eq!(&bytes[9..9 + result.delivery_id.len()], result.delivery_id.as_bytes());
    let digest: [u8; 32] = Sha256::digest(&bytes).into();
    assert_eq!(decision_result_v6_sha256(&result).unwrap(), digest);

    let mut invalid = result.clone();
    invalid.delivery_id = s("not an identifier");
    assert_eq!(
        encode_decision_result_v6(&invalid),
        Err(DecisionV6Error::BoundExceeded)
    );
    let mut duplicated = result.clone();
    duplicated.commands.push(duplicated.commands[0].clone());
    assert_eq!(
        encode_decision_result_v6(&duplicated),
        Err(DecisionV6Error::DuplicateIdentity)
    );
}

#[test]
fn a_sealed_checkpoint_validates_until_anything_it_binds_changes() {
    let sealed = checkpoint(4, b"state", seeded(vec![]));
    assert_eq!(sealed.validate(), Ok(()));
    assert_eq!(sealed.state_sha256, kernel_checkpoint_v6_sha256(&sealed));

    let mut changed_state = sealed.clone();
    changed_state.state.push(1);
    assert_eq!(changed_state.validate(), Err(DecisionV6Error::InvalidContract));
    assert_eq!(changed_state.clone().seal().validate(), Ok(()));

    let mut changed_runner = sealed.clone();
    changed_runner.runner.newest_view_revision = 1;
    assert_eq!(changed_runner.validate(), Err(DecisionV6Error::InvalidContract));

    let mut unsealed = sealed.clone();
    unsealed.state_sha256 = [0; 32];
    assert_eq!(unsealed.validate(), Err(DecisionV6Error::InvalidContract));

    let mut empty = sealed.clone();
    empty.state.clear();
    assert_eq!(empty.seal().validate(), Err(DecisionV6Error::InvalidContract));

    let context = context();
    assert_eq!(validate_kernel_checkpoint(&context.strategy, &sealed), Ok(()));
    let mut other = sealed.clone();
    other.strategy_profile = s("other-profile");
    assert_eq!(
        validate_kernel_checkpoint(&context.strategy, &other.seal()),
        Err(DecisionV6Error::InvalidContract)
    );
}

#[test]
fn a_cancel_all_needs_a_complete_order_view() {
    let complete = context();
    let build = |context: &DecisionContextV6| {
        let cancel_all = StrategyCommandV6::CancelAllOrders {
            command_id: context.command_id(0),
        };
        let previous = context.kernel_checkpoint.as_ref().unwrap();
        let mut entries = previous.runner.entries.clone();
        entries.push(command_entry(&cancel_all));
        DecisionResultV6 {
            state_fence: hex_digest(&decision_fence_v6_sha256(context).unwrap()),
            kernel_checkpoint: Some(checkpoint(
                previous.sequence + 1,
                b"post-event-kernel-state",
                seeded(entries),
            )),
            commands: vec![cancel_all],
            ..multi_order_result(context)
        }
    };
    answer(&complete, &build(&complete)).unwrap();

    let mut partial = complete.clone();
    partial.orders_complete = false;
    partial.validate().unwrap();
    assert_eq!(
        answer(&partial, &build(&partial)),
        Err(DecisionV6Error::InvalidContract)
    );
}

#[test]
fn a_v5_owner_trigger_binds_the_owner_projection() {
    let mut owner = context().owner_state;
    owner.stations[0].extrema_meta.revision = 4;
    owner.stations[0].extrema = ExtremaV4 {
        high: None,
        low: Some(ExtremeV4 {
            value_milli_c: 11_000,
            observed_at_unix_ms: Some(1_788_062_400_000),
            ..Default::default()
        }),
    };
    owner.trigger = TriggerV4::Weather {
        station_id: s("KSEA"),
        source_generation: 2,
        source_sequence: 17,
    };
    let low = |temperature: i32, generation: u64| OwnerTriggerV5::NewLow {
        station_id: s("KSEA"),
        event_date: Some(s("2026-08-30")),
        temperature_milli_c: Some(temperature),
        observed_at_unix_ms: 1_788_062_400_000,
        component_revision: 4,
        source_generation: generation,
        source_sequence: 17,
    };
    assert_eq!(validate_owner_trigger_v5(&owner, &low(11_000, 2)), Ok(()));
    assert_eq!(
        validate_owner_trigger_v5(&owner, &low(12_000, 2)),
        Err(DecisionV5Error::InvalidContract)
    );
    assert_eq!(
        validate_owner_trigger_v5(&owner, &low(11_000, 3)),
        Err(DecisionV5Error::InvalidContract)
    );
    let high = OwnerTriggerV5::NewHigh {
        station_id: s("KSEA"),
        event_date: None,
        temperature_milli_c: Some(11_000),
        observed_at_unix_ms: 1_788_062_400_000,
        component_revision: 4,
        source_generation: 2,
        source_sequence: 17,
    };
    assert_eq!(
        validate_owner_trigger_v5(&owner, &high),
        Err(DecisionV5Error::InvalidContract)
    );
    let captured = OwnerTriggerV5::CapturedWeather {
        station_id: s("KSEA"),
        source_generation: 2,
        source_sequence: 17,
    };
    assert_eq!(
        validate_owner_trigger_v5(&owner, &captured),
        Err(DecisionV5Error::InvalidContract)
    );
    owner.trigger = TriggerV4::Recovery;
    assert_eq!(validate_owner_trigger_v5(&owner, &OwnerTriggerV5::Recovery), Ok(()));
    assert_eq!(
        validate_owner_trigger_v5(&owner, &OwnerTriggerV5::Bootstrap),
        Err(DecisionV5Error::InvalidContract)
    );
}

#[test]
fn an_overlong_venue_id_is_refused_by_the_checks_before_the_sleeve_id() {
    let context = context();
    assert!(reaches_sleeve_derivation(&context));

    let mut long = context.clone();
    long.owner_state.opportunity.venue_id = "v".repeat(70_000);
    long.strategy.profile = s("another-profile");
    assert!(!reaches_sleeve_derivation(&long));
    assert_eq!(long.validate(), Err(DecisionV6Error::InvalidContract));

    let mut unsorted = context.clone();
    unsorted.owner_state.opportunity.opportunity_id = "o".repeat(70_000);
    unsorted.strategy.market_ids = vec![s("b"), s("a")];
    assert!(!reaches_sleeve_derivation(&unsorted));
    assert_eq!(unsorted.validate(), Err(DecisionV6Error::NonCanonicalOrder));
}
