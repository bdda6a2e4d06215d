//! Decision V5: an exact, bounded transaction contract for stateful Strategies.
//!
//! V5 composes the immutable V4 owner projection with exact Strategy scope, side-aware Broker
//! state, typed source and Broker triggers, and fenced commands. A decision that issues a
//! Broker command awaits its outcome, which arrives as the trigger of a later decision.
use crate::decision_v4::DecisionV4Error;
use vstd::prelude::*;

verus! {

/// Current V5 result encoding with explicit hundredths command and outcome quantities.
pub const DECISION_RESULT_V5_MAGIC: [u8; 8] = [83, 68, 82, 69, 83, 86, 53, 72];
/// Durable legacy V5 result encoding whose command and outcome quantities are whole contracts.
pub const LEGACY_DECISION_RESULT_V5_MAGIC: [u8; 8] = [83, 68, 82, 69, 83, 86, 53, 0];
pub const MAX_DECISION_CONTEXT_V5_BYTES: usize = 20 * 1024 * 1024;
pub const MAX_DECISION_RESULT_V5_BYTES: usize = 256 * 1024;
pub const MAX_STRATEGY_PARAMETERS: usize = 256;
pub const MAX_BROKER_POSITIONS: usize = 256;
pub const MAX_BROKER_ORDERS: usize = 256;
pub const MAX_STRATEGY_COMMANDS: usize = 64;
pub const MAX_RESULT_EVIDENCE: usize = 64;
pub const MAX_RESULT_DIAGNOSTICS: usize = 64;
pub const MAX_COMMAND_METADATA_BYTES: usize = 64 * 1024;
pub const MAX_TIMER_SEMANTICS_BYTES_V5: usize = 16 * 1024;
pub const MAX_RESULT_DIAGNOSTIC_BYTES: usize = 4 * 1024;
/// Maximum opaque private kernel state carried across one V5 transaction.
pub const MAX_KERNEL_CHECKPOINT_BYTES: usize = 128 * 1024;
pub const MAX_IDENTIFIER_BYTES: usize = 160;
pub const MAX_SHORT_TEXT_BYTES: usize = 512;
pub const MAX_REASON_BYTES: usize = 4 * 1024;
pub const MAX_PRICE_MICROS: u64 = 1_000_000;

#[derive(Clone, Copy, Debug, Eq, PartialEq)]
pub enum DecisionV5Error {
    Encode,
    Decode,
    BoundExceeded,
    TrailingBytes,
    InvalidContract,
    DuplicateIdentity,
    NonCanonicalOrder,
    V4(DecisionV4Error),
}

#[derive(Clone, Copy, Debug, Eq, Ord, PartialEq, PartialOrd, Structural)]
pub enum ContractSideV5 {
    Yes,
    No,
}

#[derive(Clone, Copy, Debug, Eq, PartialEq, Structural)]
pub enum OrderActionV5 {
    Buy,
    Sell,
}

#[derive(Clone, Copy, Debug, Eq, PartialEq, Structural)]
pub enum OrderTypeV5 {
    Market,
    Limit,
}

#[derive(Clone, Copy, Debug, Eq, PartialEq, Structural)]
pub enum BrokerOrderStatusV5 {
    DurablyAccepted,
    Dispatched,
    Resting,
    PartiallyFilled,
    Filled,
    CancellationRequested,
    Cancelled,
    Expired,
    Rejected,
    RecoveryRequired,
}

#[derive(Clone, Copy, Debug, Eq, PartialEq, Structural)]
pub enum BrokerCommandKindV5 {
    PlaceOrder,
    CancelOrder,
    CancelAllOrders,
}

#[derive(Clone, Copy, Debug, Eq, PartialEq, Structural)]
pub enum BrokerOutcomeStatusV5 {
    Rejected,
    DurablyAccepted,
    Dispatched,
    Resting,
    PartiallyFilled,
    Filled,
    CancellationRequested,
    Cancelled,
    Expired,
    RecoveryRequired,
}

#[derive(Clone, Debug, Eq, PartialEq)]
pub enum StrategyParameterValueV5 {
    Null,
    Bool(bool),
    I64(i64),
    U64(u64),
    Decimal { coefficient: i64, scale: u8 },
    String(String),
}

#[derive(Clone, Debug, Eq, PartialEq)]
pub struct StrategyScopeV5 {
    pub strategy_id: String,
    pub binding_id: String,
    pub profile: String,
    /// Sorted top-level values projected without loss into the frozen JSON initializer.
    pub parameters: Vec<(String, StrategyParameterValueV5)>,
    pub station_id: String,
    pub event_ticker: String,
    pub event_date: String,
    pub market_ids: Vec<String>,
    /// Digest attested by both the configured V4 state and the immutable Strategy release.
    pub profile_and_calculator_digest: String,
}

#[derive(Clone, Debug, Eq, PartialEq)]
pub struct BrokerPositionV5 {
    pub market_id: String,
    pub side: ContractSideV5,
    /// Exact position quantity in hundredths of one contract.
    pub quantity_hundredths: u64,
    /// Entry cost excluding fees. The adapter projects average price as cost / quantity.
    pub cost_basis_micros: u64,
    pub fees_micros: u64,
}

#[derive(Clone, Debug, Eq, PartialEq)]
pub struct BrokerOrderV5 {
    pub command_id: String,
    pub intent_id: String,
    pub order_id: String,
    pub provider_order_id: Option<String>,
    pub provider_client_id: String,
    pub market_id: String,
    pub action: OrderActionV5,
    pub side: ContractSideV5,
    pub order_type: OrderTypeV5,
    /// Exact original order quantity in hundredths of one contract.
    pub quantity_hundredths: u64,
    /// Exact filled order quantity in hundredths of one contract.
    pub filled_quantity_hundredths: u64,
    /// Exact remaining order quantity in hundredths of one contract.
    pub remaining_quantity_hundredths: u64,
    pub limit_price_micros: Option<u64>,
    pub average_fill_price_micros: Option<u64>,
    pub reserved_principal_micros: u64,
    pub reserved_fee_micros: u64,
    pub created_at_unix_ms: Option<i64>,
    pub updated_at_unix_ms: Option<i64>,
    pub signal_type: Option<String>,
    pub signal_metadata: Option<String>,
    pub status: BrokerOrderStatusV5,
    pub revision: u64,
}

#[derive(Clone, Debug, Eq, PartialEq)]
pub struct BrokerDetailV5 {
    pub revision: u64,
    /// Exact Sleeve-local sum of active order principal and fee reservations.
    pub reserved_cash_micros: u64,
    /// Sorted by `(market_id, side)`.
    pub positions: Vec<BrokerPositionV5>,
    /// Sorted by `order_id`; includes every bounded Strategy-owned order needed for
    /// reconciliation.
    pub orders: Vec<BrokerOrderV5>,
}

/// Bounded, versioned private kernel state owned by one exact Strategy profile.
///
/// The host treats `state` as opaque bytes. The Strategy artifact owns the codec and must reject
/// unsupported versions. `state_sha256` binds the bytes and all codec/scope fields.
#[derive(Clone, Debug, Eq, PartialEq)]
pub struct KernelCheckpointV5 {
    pub codec_profile: String,
    pub codec_version: u32,
    pub strategy_id: String,
    pub strategy_profile: String,
    pub profile_and_calculator_digest: String,
    pub sequence: u64,
    pub state: Vec<u8>,
    pub state_sha256: [u8; 32],
}

#[derive(Clone, Debug, Eq, PartialEq)]
pub struct ContinuationCommitmentV5 {
    pub originating_delivery_id: String,
    pub sleeve_identity: String,
    pub sleeve_incarnation: u64,
    pub process_attempt: u64,
    pub route_epoch: u64,
    pub continuation_id: String,
    pub continuation_generation: u64,
    pub command_id: String,
    pub command_sha256: [u8; 32],
    pub expected_broker_revision: u64,
    /// Digest of the exact canonical Decision Context V5 persisted by Trader for replay.
    pub originating_context_sha256: [u8; 32],
    /// Exact pre-event state restored before replaying the awaited Broker return.
    pub pre_event_checkpoint: KernelCheckpointV5,
}

#[derive(Clone, Copy, Debug, Eq, PartialEq, Structural)]
pub enum KernelOrderStatusV5 {
    Filled,
    Partial,
    Pending,
    Rejected,
    Cancelled,
}

#[derive(Clone, Debug, Eq, PartialEq)]
pub struct KernelBrokerErrorV5 {
    pub code: String,
    pub message: String,
    pub retryable: bool,
}

#[derive(Clone, Debug, Eq, PartialEq)]
pub struct KernelOrderResultV5 {
    pub order_id: String,
    pub status: KernelOrderStatusV5,
    pub filled_quantity_hundredths: u64,
    pub fill_price_micros: u64,
    pub fee_cost_micros: u64,
    pub reason: String,
}

#[derive(Clone, Debug, Eq, PartialEq)]
pub enum PlaceOrderReturnV5 {
    Placed(KernelOrderResultV5),
    Failed(KernelBrokerErrorV5),
}

#[derive(Clone, Debug, Eq, PartialEq)]
pub enum CancelOrderReturnV5 {
    Answered(bool),
    Failed(KernelBrokerErrorV5),
}

#[derive(Clone, Debug, Eq, PartialEq)]
pub enum CancelAllOrdersReturnV5 {
    Cancelled { cancelled_order_ids: Vec<String> },
    Failed(KernelBrokerErrorV5),
}

#[derive(Clone, Debug, Eq, PartialEq)]
pub enum BrokerCommandReturnV5 {
    PlaceOrder(PlaceOrderReturnV5),
    CancelOrder(CancelOrderReturnV5),
    CancelAllOrders(CancelAllOrdersReturnV5),
}

#[derive(Clone, Debug, Eq, PartialEq)]
pub struct BrokerOutcomeV5 {
    pub outcome_id: String,
    pub continuation_id: String,
    pub continuation_generation: u64,
    pub command_id: String,
    pub command_kind: BrokerCommandKindV5,
    pub transition_sequence: u64,
    pub target_order_id: Option<String>,
    pub order_id: Option<String>,
    pub intent_id: Option<String>,
    pub provider_order_id: Option<String>,
    pub provider_client_id: Option<String>,
    pub status: BrokerOutcomeStatusV5,
    /// Exact value projected back into the frozen synchronous Broker capability.
    pub return_value: BrokerCommandReturnV5,
    pub requested_quantity_hundredths: u64,
    pub filled_quantity_hundredths: u64,
    pub remaining_quantity_hundredths: u64,
    pub average_fill_price_micros: Option<u64>,
    pub reason: Option<String>,
    pub updated_at_unix_ms: i64,
    pub broker_revision: u64,
}

#[derive(Clone, Debug, Eq, PartialEq)]
pub enum OwnerTriggerV5 {
    Observation {
        station_id: String,
        observed_at_unix_ms: i64,
        component_revision: u64,
        source_generation: u64,
        source_sequence: u64,
    },
    ForecastUpdated {
        station_id: String,
        emitted_at_unix_ms: i64,
        component_revision: u64,
        source_generation: u64,
        source_sequence: u64,
    },
    OracleScoresUpdated {
        station_id: String,
        emitted_at_unix_ms: i64,
        component_revision: u64,
        source_generation: u64,
        source_sequence: u64,
    },
    NewHigh {
        station_id: String,
        event_date: Option<String>,
        temperature_milli_c: Option<i32>,
        observed_at_unix_ms: i64,
        component_revision: u64,
        source_generation: u64,
        source_sequence: u64,
    },
    StationReport {
        station_id: String,
        report_id: String,
        report_type: String,
        report_revision: u64,
        provider: String,
        source_generation: u64,
        source_sequence: u64,
    },
    MarketPrice { market_id: String, price_revision: u64, emitted_at_unix_ms: i64 },
    Timer { key: String, scheduled_at_epoch_ns: u64, generation: String },
    Bootstrap,
    Recovery,
    // Variants below are appended so durable encodings of the variants above keep their indices.
    NewLow {
        station_id: String,
        event_date: Option<String>,
        temperature_milli_c: Option<i32>,
        observed_at_unix_ms: i64,
        component_revision: u64,
        source_generation: u64,
        source_sequence: u64,
    },
    WeatherEvent {
        station_id: String,
        episode_id: String,
        state: String,
        component_revision: u64,
        source_generation: u64,
        source_sequence: u64,
    },
    /// Current packet event; complete accepted data is separate from current station state.
    CapturedWeather { station_id: String, source_generation: u64, source_sequence: u64 },
}

pub open spec fn owner_trigger_v5_carries_event(t: OwnerTriggerV5) -> bool {
    t is Observation || t is StationReport || t is NewHigh || t is NewLow || t is WeatherEvent
}

impl OwnerTriggerV5 {
    /// True for the weather event families whose exact supplied event accompanies a delivery.
    pub fn carries_supplied_event(&self) -> (r: bool)
        ensures
            r == owner_trigger_v5_carries_event(*self),
    {
        match self {
            OwnerTriggerV5::Observation { .. } | OwnerTriggerV5::StationReport { .. }
            | OwnerTriggerV5::NewHigh { .. } | OwnerTriggerV5::NewLow { .. }
            | OwnerTriggerV5::WeatherEvent { .. } => true,
            _ => false,
        }
    }
}

#[derive(Clone, Debug, Eq, PartialEq)]
pub enum OriginatingTriggerV5 {
    Owner(OwnerTriggerV5),
    BrokerState { broker_revision: u64 },
}

#[derive(Clone, Debug, Eq, PartialEq)]
pub enum TriggerV5 {
    Owner(OwnerTriggerV5),
    BrokerState { broker_revision: u64 },
    BrokerOutcome { outcome: Box<BrokerOutcomeV5>, originating_trigger: Box<OriginatingTriggerV5> },
}

#[derive(Clone, Debug, Eq, PartialEq)]
pub struct CommandFenceV5 {
    pub continuation_id: String,
    pub continuation_generation: u64,
    pub expected_broker_revision: u64,
}

#[derive(Clone, Debug, Eq, PartialEq)]
pub struct PlaceOrderV5 {
    pub command_id: String,
    pub fence: CommandFenceV5,
    pub market_id: String,
    pub action: OrderActionV5,
    pub side: ContractSideV5,
    pub order_type: OrderTypeV5,
    pub quantity_hundredths: u64,
    pub limit_price_micros: Option<u64>,
    /// Authoritative maximum per-contract execution price for a Market buy.
    pub market_price_cap_micros: Option<u64>,
    pub expires_after_ms: Option<i64>,
    pub reduce_only: bool,
    pub provider_client_id: String,
    pub signal_type: Option<String>,
    pub signal_metadata: Option<String>,
    pub metadata: Vec<u8>,
}

#[derive(Clone, Debug, Eq, PartialEq)]
pub enum StrategyCommandV5 {
    PlaceOrder(PlaceOrderV5),
    CancelOrder {
        command_id: String,
        fence: CommandFenceV5,
        order_id: String,
        expected_order_revision: u64,
    },
    CancelAllOrders { command_id: String, fence: CommandFenceV5 },
    ScheduleTimer {
        command_id: String,
        key: String,
        scheduled_at_epoch_ns: u64,
        generation: String,
        semantics: Vec<u8>,
    },
    CancelTimer { command_id: String, key: String, generation: String },
    Stop { command_id: String, reason: String },
}

pub open spec fn command_v5_id(c: StrategyCommandV5) -> Seq<char> {
    match c {
        StrategyCommandV5::PlaceOrder(o) => o.command_id@,
        StrategyCommandV5::CancelOrder { command_id, .. } => command_id@,
        StrategyCommandV5::CancelAllOrders { command_id, .. } => command_id@,
        StrategyCommandV5::ScheduleTimer { command_id, .. } => command_id@,
        StrategyCommandV5::CancelTimer { command_id, .. } => command_id@,
        StrategyCommandV5::Stop { command_id, .. } => command_id@,
    }
}

/// The fence of a Broker command; none for timer and stop commands.
pub open spec fn command_v5_fence(c: StrategyCommandV5) -> Option<CommandFenceV5> {
    match c {
        StrategyCommandV5::PlaceOrder(o) => Some(o.fence),
        StrategyCommandV5::CancelOrder { fence, .. } => Some(fence),
        StrategyCommandV5::CancelAllOrders { fence, .. } => Some(fence),
        _ => None,
    }
}

impl StrategyCommandV5 {
    pub fn command_id(&self) -> (r: &String)
        ensures
            r@ == command_v5_id(*self),
    {
        match self {
            StrategyCommandV5::PlaceOrder(order) => &order.command_id,
            StrategyCommandV5::CancelOrder { command_id, .. }
            | StrategyCommandV5::CancelAllOrders { command_id, .. }
            | StrategyCommandV5::ScheduleTimer { command_id, .. }
            | StrategyCommandV5::CancelTimer { command_id, .. }
            | StrategyCommandV5::Stop { command_id, .. } => command_id,
        }
    }

    pub fn broker_fence(&self) -> (r: Option<&CommandFenceV5>)
        ensures
            match command_v5_fence(*self) {
                Some(f) => r == Some(&f),
                None => r is None,
            },
    {
        match self {
            StrategyCommandV5::PlaceOrder(order) => Some(&order.fence),
            StrategyCommandV5::CancelOrder { fence, .. }
            | StrategyCommandV5::CancelAllOrders { fence, .. } => Some(fence),
            _ => None,
        }
    }
}

#[derive(Clone, Debug, Eq, PartialEq)]
pub enum DecisionDispositionV5 {
    Completed,
    AwaitingBrokerOutcome {
        continuation_id: String,
        continuation_generation: u64,
        awaited_command_id: String,
    },
    Rejected,
}

#[derive(Clone, Debug, Eq, PartialEq)]
pub struct ResultEvidenceV5 {
    pub code: String,
    pub payload: Vec<u8>,
}

#[derive(Clone, Debug, Eq, PartialEq)]
pub struct ResultDiagnosticV5 {
    pub severity: String,
    pub code: String,
    pub message: String,
}

#[derive(Clone, Debug, Eq, PartialEq)]
pub struct DecisionResultV5 {
    pub delivery_id: String,
    pub sleeve_identity: String,
    pub state_fence: String,
    pub expected_broker_revision: u64,
    pub disposition: DecisionDispositionV5,
    /// Completed results carry post-event state. Awaiting results carry the exact pre-event
    /// state. Rejected results preserve the input checkpoint unchanged.
    pub kernel_checkpoint: Option<KernelCheckpointV5>,
    pub commands: Vec<StrategyCommandV5>,
    pub evidence: Vec<ResultEvidenceV5>,
    pub diagnostics: Vec<ResultDiagnosticV5>,
}

// ---------------------------------------------------------------------------------------------
// Whole contracts and hundredths
// ---------------------------------------------------------------------------------------------

/// A whole-contract quantity in hundredths, when that fits in 64 bits.
pub open spec fn spec_whole_to_hundredths(quantity: u64) -> Option<u64> {
    if quantity * 100 <= u64::MAX {
        Some((quantity * 100) as u64)
    } else {
        None
    }
}

/// A hundredths quantity in whole contracts, when it is a whole number of them.
pub open spec fn spec_hundredths_to_whole(quantity_hundredths: u64) -> Option<u64> {
    if quantity_hundredths % 100 == 0 {
        Some((quantity_hundredths / 100) as u64)
    } else {
        None
    }
}

pub fn whole_contracts_to_hundredths(quantity: u64) -> (r: Result<u64, DecisionV5Error>)
    ensures
        match spec_whole_to_hundredths(quantity) {
            Some(q) => r == Ok::<u64, DecisionV5Error>(q),
            None => r == Err::<u64, DecisionV5Error>(DecisionV5Error::InvalidContract),
        },
{
    match quantity.checked_mul(100) {
        Some(q) => Ok(q),
        None => Err(DecisionV5Error::InvalidContract),
    }
}

pub fn hundredths_to_whole_contracts(quantity_hundredths: u64) -> (r: Result<u64, DecisionV5Error>)
    ensures
        match spec_hundredths_to_whole(quantity_hundredths) {
            Some(q) => r == Ok::<u64, DecisionV5Error>(q),
            None => r == Err::<u64, DecisionV5Error>(DecisionV5Error::InvalidContract),
        },
{
    if quantity_hundredths % 100 == 0 {
        Ok(quantity_hundredths / 100)
    } else {
        Err(DecisionV5Error::InvalidContract)
    }
}

} // verus!
