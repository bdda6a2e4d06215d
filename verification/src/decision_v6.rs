//! Decision V6: one run per event.
//!
//! A Strategy runs once per delivered event and returns every command it issued in that run.
//! V6 composes the immutable V4 owner projection with exact Strategy scope, side-aware Broker
//! state, the outcomes of recent commands that have no order record (`command_receipts`), the
//! deployment mode and the capabilities the host grants. The result carries the post-event
//! checkpoint (the kernel's private state plus the runner section that records what the
//! Strategy has seen of its orders), the decision's commands in issue order, and the command ids
//! whose final outcome the Strategy has now seen. Collections are canonically sorted and
//! validation rejects alternate orderings.
use crate::decision_v4::{DecisionContextV4, DecisionV4Error};
use crate::text::{
    opt_view, spec_valid_identifier, spec_valid_optional_identifier, spec_valid_optional_text,
    spec_valid_text, valid_identifier, valid_optional_identifier, valid_optional_text,
    valid_text,
};
use vstd::prelude::*;

verus! {

pub const DECISION_CONTEXT_V6_MAGIC: [u8; 8] = [83, 68, 67, 84, 88, 86, 54, 65];
pub const DECISION_RESULT_V6_MAGIC: [u8; 8] = [83, 68, 82, 69, 83, 86, 54, 65];
pub const MAX_DECISION_CONTEXT_V6_BYTES: usize = 20 * 1024 * 1024;
/// The kernel's 128 KiB state, the runner section, 64 commands, the derived order updates and
/// bounded telemetry.
pub const MAX_DECISION_RESULT_V6_BYTES: usize = 1024 * 1024;
/// The encoded size the runner admits commands and telemetry against: the result bound less
/// room for the decoder's accounting, which charges every decoded integer its full width.
/// The room is a heuristic, not a guarantee: the runner checks that each result decodes under
/// the result bound and sheds telemetry, then logs, until it does.
pub const RESULT_ENCODED_BUDGET_BYTES: usize = MAX_DECISION_RESULT_V6_BYTES - 128 * 1024;
pub const MAX_STRATEGY_PARAMETERS: usize = 256;
pub const MAX_BROKER_POSITIONS: usize = 256;
pub const MAX_BROKER_ORDERS: usize = 256;
/// Unacknowledged receipts per Sleeve; past this the Broker refuses new commands.
pub const MAX_COMMAND_RECEIPTS: usize = 256;
pub const MAX_STRATEGY_COMMANDS: usize = 64;
/// Every receipt and every terminal order in one context can be acknowledged at once.
pub const MAX_ACKNOWLEDGED_COMMANDS: usize = MAX_COMMAND_RECEIPTS + MAX_BROKER_ORDERS;
/// Live orders and commands the runner section may hold when a decision issues a Broker
/// command: a command that would take it to this many is a local error.
pub const MAX_RUNNER_ENTRIES: usize = 256;
/// Tombstones the runner section keeps besides its live entries; the oldest is evicted first.
pub const MAX_TOMBSTONES: usize = 32;
/// Entries (live and tombstones) one runner section holds. A tombstone whose order
/// reappears is live again and an adopted order is live from the start, so the live entries
/// of a derived section may pass `MAX_RUNNER_ENTRIES`, never this.
pub const MAX_RUNNER_SECTION_ENTRIES: usize = MAX_RUNNER_ENTRIES + MAX_TOMBSTONES;
/// Complete views above its vanish revision that must not show a tombstone before it expires.
pub const TOMBSTONE_EXPIRY_VIEWS: u16 = 16;
/// Times an order update is delivered to a kernel that returns an error for it before the
/// runner gives up and treats it as seen.
pub const MAX_DELIVERY_ATTEMPTS: u8 = 3;
/// Consecutive decisions an order update may wait for room in the decision (the room earlier
/// updates of the same decision took) before the runner gives up and treats it as seen.
pub const MAX_DELIVERY_DEFERRALS: u8 = 8;
pub const MAX_RESULT_EVIDENCE: usize = 64;
pub const MAX_RESULT_DIAGNOSTICS: usize = 64;
pub const MAX_RESULT_TELEMETRY: usize = 256;
pub const MAX_TELEMETRY_FIELDS: usize = 32;
pub const MAX_COMMAND_METADATA_BYTES: usize = 64 * 1024;
pub const MAX_EVIDENCE_PAYLOAD_BYTES: usize = 64 * 1024;
pub const MAX_TIMER_SEMANTICS_BYTES_V6: usize = 16 * 1024;
pub const MAX_RESULT_DIAGNOSTIC_BYTES: usize = 4 * 1024;
/// Maximum opaque private kernel state carried across one decision.
pub const MAX_KERNEL_CHECKPOINT_BYTES: usize = 128 * 1024;
pub const MAX_IDENTIFIER_BYTES: usize = 160;
/// The Broker's bound on a provider client order id.
pub const MAX_PROVIDER_CLIENT_ID_BYTES: usize = 128;
pub const MAX_SHORT_TEXT_BYTES: usize = 512;
pub const MAX_REASON_BYTES: usize = 4 * 1024;
/// The most of a refusal reason (a provider's rejection text or a receipt's reason) an order
/// update's evidence records; the kernel sees the whole reason (at most `MAX_REASON_BYTES`).
pub const MAX_REJECTION_REASON_BYTES: usize = 512;
pub const MAX_PRICE_MICROS: u64 = 1_000_000;
/// Request names the host may allow a Strategy (Phase 4); bounded now so the wire need not
/// change when they arrive.
pub const MAX_EXTERNAL_REQUEST_GRANTS: usize = 32;
/// Upper bound of one encoded runner entry: four bounded identifiers and fixed-width fields.
pub const MAX_ENCODED_RUNNER_ENTRY_BYTES: usize = 4 * (MAX_IDENTIFIER_BYTES + 3) + 80;
/// Open orders one Sleeve may hold in paper: open context orders plus the decision's own
/// places. The Sleeve's order view holds `MAX_BROKER_ORDERS`; the rest is room for terminal
/// orders whose outcome the Strategy has not yet acknowledged.
pub const MAX_OPEN_ORDERS: usize = 192;
/// Open orders one Sleeve may hold in live, where the Broker expands a cancel-all into one
/// cancel (3 plan rows) per order: a cancel-all over all of them still fits the plan with the
/// decision's 4 rows and 1 acknowledgement row: (512 - 5 - 3) / 3.
pub const MAX_OPEN_ORDERS_LIVE: usize =
    (MAX_DECISION_PLAN_ROWS - DECISION_PLAN_ROWS - ACKNOWLEDGEMENT_PLAN_ROWS - 3)
        / CANCEL_ORDER_PLAN_ROWS;
/// The Broker's refusal code of a Market sell outside paper (until Phase 5).
pub const MARKET_SELL_UNSUPPORTED_CODE: &'static str = "market_sell_unsupported";

/// State, the runner section, three identifiers, the profile digest, and codec overhead.
pub const MAX_ENCODED_KERNEL_CHECKPOINT_BYTES: usize = MAX_KERNEL_CHECKPOINT_BYTES
    + MAX_RUNNER_SECTION_ENTRIES * MAX_ENCODED_RUNNER_ENTRY_BYTES
    + 3 * MAX_IDENTIFIER_BYTES
    + MAX_SHORT_TEXT_BYTES
    + 96;

/// The account plan row limit for one decision (traderv3 `MAX_DECISION_PLAN_ROWS`). The
/// open-order cap of each mode (`max_open_orders`) keeps a cancel-all over every open order
/// within it.
pub const MAX_DECISION_PLAN_ROWS: usize = 512;
/// Rows of one admitted place: acceptance, outbox, acceptance state, order, intent receipt.
pub const PLACE_ORDER_PLAN_ROWS: usize = 5;
/// Rows of one admitted cancel: cancellation, financial cancellation, intent receipt.
pub const CANCEL_ORDER_PLAN_ROWS: usize = 3;
/// Fixed rows of a cancel-all, before one row per order it cancels.
pub const CANCEL_ALL_ORDERS_PLAN_ROWS: usize = 3;
/// Extra rows, in live, of a place of the same decision that a cancel-all collapses.
pub const COLLAPSED_PLACE_PLAN_ROWS: usize = 1;
/// Rows of a refused command: its receipt.
pub const REFUSED_COMMAND_PLAN_ROWS: usize = 1;
/// Fixed rows of a decision with Broker commands: cash, shutdown, decision, checkpoint.
pub const DECISION_PLAN_ROWS: usize = 4;
/// Acknowledged receipts are removed with one statement.
pub const ACKNOWLEDGEMENT_PLAN_ROWS: usize = 1;



/// Evidence code of the order updates the runner derived for this decision.
pub const ORDER_UPDATES_EVIDENCE_CODE: &'static str = "order_updates";



#[derive(Clone, Copy, Debug, Eq, PartialEq)]
pub enum DecisionV6Error {
    Encode,
    Decode,
    BoundExceeded,
    TrailingBytes,
    InvalidContract,
    DuplicateIdentity,
    NonCanonicalOrder,
    V4(DecisionV4Error),
}


#[derive(Clone, Copy, Debug, Eq, Ord, PartialEq, PartialOrd, Structural)]
pub enum ContractSideV6 {
    Yes,
    No,
}

#[derive(Clone, Copy, Debug, Eq, PartialEq, Structural)]
pub enum OrderActionV6 {
    Buy,
    Sell,
}

#[derive(Clone, Copy, Debug, Eq, PartialEq, Structural)]
pub enum OrderTypeV6 {
    Market,
    Limit,
}

#[derive(Clone, Copy, Debug, Eq, PartialEq, Structural)]
pub enum BrokerOrderStatusV6 {
    DurablyAccepted,
    Dispatched,
    Resting,
    PartiallyFilled,
    Filled,
    CancellationRequested,
    Cancelled,
    Expired,
    Rejected,
    RecoveryRequired,
}


#[derive(Clone, Copy, Debug, Eq, PartialEq, Structural)]
pub enum BrokerCommandKindV6 {
    PlaceOrder,
    CancelOrder,
    CancelAllOrders,
}

#[derive(Clone, Debug, Eq, PartialEq)]
pub enum StrategyParameterValueV6 {
    Null,
    Bool(bool),
    I64(i64),
    U64(u64),
    Decimal { coefficient: i64, scale: u8 },
    String(String),
}

#[derive(Clone, Debug, Eq, PartialEq)]
pub struct StrategyScopeV6 {
    pub strategy_id: String,
    pub binding_id: String,
    pub profile: String,
    /// Sorted top-level values projected without loss into the JSON initializer.
    pub parameters: Vec<(String, StrategyParameterValueV6)>,
    /// The Sleeve's primary station. Every contributor station of the event is in
    /// `owner_state.opportunity.contributor_stations`.
    pub station_id: String,
    pub event_ticker: String,
    pub event_date: String,
    pub market_ids: Vec<String>,
    /// Digest attested by both the configured V4 state and the immutable Strategy release.
    pub profile_and_calculator_digest: String,
}

/// The deployment the decision runs in.
#[derive(Clone, Copy, Debug, Eq, PartialEq, Structural)]
pub enum DeploymentModeV6 {
    Paper,
    Live,
}


/// What the host grants the Strategy for this decision.
#[derive(Clone, Debug, Default, Eq, PartialEq)]
pub struct CapabilityGrantV6 {
    /// One-shot timers (`ScheduleTimer` / `CancelTimer`).
    pub timers: bool,
    /// Allowed external request names, strictly sorted. Empty until Phase 4 grants any.
    pub external_requests: Vec<String>,
}

#[derive(Clone, Debug, Eq, PartialEq)]
pub struct BrokerPositionV6 {
    pub market_id: String,
    pub side: ContractSideV6,
    /// Exact position quantity in hundredths of one contract.
    pub quantity_hundredths: u64,
    /// Entry cost excluding fees. The runner projects average price as cost / quantity.
    pub cost_basis_micros: u64,
    pub fees_micros: u64,
}


#[derive(Clone, Debug, Eq, PartialEq)]
pub struct BrokerOrderV6 {
    /// The command that placed the order ([`command_id_v6`] for V6 orders).
    pub command_id: String,
    pub intent_id: String,
    pub order_id: String,
    pub provider_order_id: Option<String>,
    pub provider_client_id: String,
    pub market_id: String,
    pub action: OrderActionV6,
    pub side: ContractSideV6,
    pub order_type: OrderTypeV6,
    /// Exact original order quantity in hundredths of one contract.
    pub quantity_hundredths: u64,
    /// Exact filled order quantity in hundredths of one contract.
    pub filled_quantity_hundredths: u64,
    /// Exact remaining order quantity in hundredths of one contract.
    pub remaining_quantity_hundredths: u64,
    pub limit_price_micros: Option<u64>,
    pub average_fill_price_micros: Option<u64>,
    pub reserved_principal_micros: u64,
    /// Unspent admitted budget above remaining principal, including retained price
    /// improvement available for fees. This is reserved cash, not charged fees.
    pub reserved_fee_micros: u64,
    /// Execution fees charged for this order's fills so far.
    pub fees_micros: u64,
    /// The provider's rejection text of a `Rejected` order, when it gave one. Validation
    /// accepts it only on a `Rejected` order and only as non-empty text of at most
    /// `MAX_REJECTION_REASON_BYTES`; any other order carries none. The host writes it with the
    /// order's status, atomically.
    pub rejection_reason: Option<String>,
    pub created_at_unix_ms: Option<i64>,
    pub updated_at_unix_ms: Option<i64>,
    pub signal_type: Option<String>,
    pub signal_metadata: Option<String>,
    pub status: BrokerOrderStatusV6,
    pub revision: u64,
}

#[derive(Clone, Debug, Eq, PartialEq)]
pub struct BrokerDetailV6 {
    pub revision: u64,
    /// Exact Sleeve-local sum of active order principal and fee reservations.
    pub reserved_cash_micros: u64,
    /// Sorted by `(market_id, side)`.
    pub positions: Vec<BrokerPositionV6>,
    /// Sorted by `order_id`. Keeps every terminal order whose final status the runner has not
    /// acknowledged ahead of older acknowledged ones.
    pub orders: Vec<BrokerOrderV6>,
}

/// The outcome of a command that has no order record.
#[derive(Clone, Debug, Eq, PartialEq)]
pub enum CommandOutcomeV6 {
    /// A cancel or cancel-all was admitted; its effect shows on the orders it targets.
    Accepted,
    /// Admission refused the command (see `strategy_ledger` refusal codes).
    Refused { code: String, reason: String },
}

/// The outcome of one recent command without an order record: a refused place, a cancel or a
/// cancel-all. It stays until a durable checkpoint acknowledges it.
#[derive(Clone, Debug, Eq, PartialEq)]
pub struct CommandReceiptV6 {
    pub command_id: String,
    pub kind: BrokerCommandKindV6,
    pub outcome: CommandOutcomeV6,
}

/// An order's status as a Strategy sees it in an order update.
#[derive(Clone, Debug, Eq, PartialEq)]
pub enum OrderUpdateStatusV6 {
    Accepted,
    Resting,
    PartiallyFilled,
    Filled,
    Cancelled,
    Expired,
    Refused { code: String, reason: String },
}


/// What the Strategy has seen of one of its orders or commands.
#[derive(Clone, Debug, Eq, PartialEq)]
pub struct RunnerEntryV6 {
    pub command_id: String,
    pub kind: BrokerCommandKindV6,
    /// A place's client order id; a cancel's target client order id.
    pub client_order_id: Option<String>,
    /// The order id once the Broker reports it; a cancel's target order id.
    pub order_id: Option<String>,
    /// The order's Market (a cancel's target Market).
    pub market_id: Option<String>,
    pub action: Option<OrderActionV6>,
    pub side: Option<ContractSideV6>,
    pub requested_quantity_hundredths: u64,
    /// The last status reported to the Strategy; `None` until the first. Never terminal: an
    /// entry is pruned once its terminal status is seen.
    pub last_status: Option<OrderUpdateStatusV6>,
    pub filled_quantity_hundredths: u64,
    /// The order revision last reported; an older record of the order is stale.
    pub order_revision: u64,
    /// The Broker revision of the context the command was issued (or adopted) in. A context
    /// at or below it may predate the command's admission, so its absence there is no news.
    pub issued_broker_revision: u64,
    /// A tombstone: a place whose order, or a cancel whose receipt, went missing from a
    /// complete, newer view (a vanished place was reported final once). If the order or the
    /// receipt reappears, its real update follows, a place's `newly_filled` counted from this
    /// entry. At most `MAX_TOMBSTONES` are kept; one expires after
    /// `TOMBSTONE_EXPIRY_VIEWS` complete views above `vanished_revision` that do not show it.
    pub vanished: bool,
    /// The Broker revision of the view the entry went missing from.
    pub vanished_revision: u64,
    /// Complete views above `vanished_revision` that did not show it since.
    pub absent_views: u16,
    /// Decisions whose kernel returned an error for this entry's pending update; the update
    /// is delivered again until `MAX_DELIVERY_ATTEMPTS`.
    pub delivery_failures: u8,
    /// Consecutive decisions that deferred this entry's pending update because earlier work
    /// in the decision took the room it needed; at `MAX_DELIVERY_DEFERRALS` it is abandoned.
    pub delivery_deferrals: u8,
}


/// The runner's record of the Strategy's orders and commands, in issue order.
#[derive(Clone, Debug, Default, Eq, PartialEq)]
pub struct RunnerSectionV6 {
    /// False before the first decision (and after converting a V5 checkpoint): that
    /// decision records the Sleeve's open orders as seen, without updates.
    pub seeded: bool,
    /// The highest Broker revision of a view the section was compared with. An open order
    /// the section does not track is adopted only from a newer view: a view at or below it
    /// may be stale and show an order older than the Strategy was told of.
    pub newest_view_revision: u64,
    pub entries: Vec<RunnerEntryV6>,
}

/// Bounded, versioned private kernel state owned by one exact Strategy profile, plus the runner
/// section.
///
/// The host treats `state` as opaque bytes. The Strategy artifact owns the codec and must reject
/// unsupported versions. `state_sha256` binds the bytes, the runner section and all codec/scope
/// fields.
#[derive(Clone, Debug, Eq, PartialEq)]
pub struct KernelCheckpointV6 {
    pub codec_profile: String,
    pub codec_version: u32,
    pub strategy_id: String,
    pub strategy_profile: String,
    pub profile_and_calculator_digest: String,
    pub sequence: u64,
    pub state: Vec<u8>,
    pub runner: RunnerSectionV6,
    pub state_sha256: [u8; 32],
}


/// A Decision V5 kernel checkpoint, in the V5 field order, as a host stored it before the V6
/// cutover. Decode stored bytes into it with the codec that wrote them, then convert it with
/// [`convert_v5_kernel_checkpoint`].
#[derive(Clone, Debug, Eq, PartialEq)]
pub struct KernelCheckpointV5Layout {
    pub codec_profile: String,
    pub codec_version: u32,
    pub strategy_id: String,
    pub strategy_profile: String,
    pub profile_and_calculator_digest: String,
    pub sequence: u64,
    pub state: Vec<u8>,
    pub state_sha256: [u8; 32],
}

#[derive(Clone, Debug, Eq, PartialEq)]
pub enum OwnerTriggerV6 {
    Observation {
        station_id: String,
        observed_at_unix_ms: i64,
        component_revision: u64,
        source_generation: u64,
        source_sequence: u64,
    },
    ForecastUpdated {
        station_id: String,
        emitted_at_unix_ms: i64,
        component_revision: u64,
        source_generation: u64,
        source_sequence: u64,
    },
    OracleScoresUpdated {
        station_id: String,
        emitted_at_unix_ms: i64,
        component_revision: u64,
        source_generation: u64,
        source_sequence: u64,
    },
    NewHigh {
        station_id: String,
        event_date: Option<String>,
        temperature_milli_c: Option<i32>,
        observed_at_unix_ms: i64,
        component_revision: u64,
        source_generation: u64,
        source_sequence: u64,
    },
    NewLow {
        station_id: String,
        event_date: Option<String>,
        temperature_milli_c: Option<i32>,
        observed_at_unix_ms: i64,
        component_revision: u64,
        source_generation: u64,
        source_sequence: u64,
    },
    StationReport {
        station_id: String,
        report_id: String,
        report_type: String,
        report_revision: u64,
        provider: String,
        source_generation: u64,
        source_sequence: u64,
    },
    WeatherEvent {
        station_id: String,
        episode_id: String,
        state: String,
        component_revision: u64,
        source_generation: u64,
        source_sequence: u64,
    },
    /// Current packet event; complete accepted data is separate from current station state.
    CapturedWeather {
        station_id: String,
        source_generation: u64,
        source_sequence: u64,
    },
    MarketPrice {
        market_id: String,
        price_revision: u64,
        emitted_at_unix_ms: i64,
    },
    Timer {
        key: String,
        scheduled_at_epoch_ns: u64,
        generation: String,
    },
    Bootstrap,
    Recovery,
}


#[derive(Clone, Debug, Eq, PartialEq)]
pub enum TriggerV6 {
    Owner(OwnerTriggerV6),
    /// One of the Sleeve's orders or command receipts changed. Valid on its own.
    BrokerState {
        broker_revision: u64,
    },
}

#[derive(Clone, Debug, Eq, PartialEq)]
pub struct PlaceOrderV6 {
    pub command_id: String,
    pub market_id: String,
    pub action: OrderActionV6,
    pub side: ContractSideV6,
    pub order_type: OrderTypeV6,
    pub quantity_hundredths: u64,
    pub limit_price_micros: Option<u64>,
    /// Authoritative maximum per-contract execution price for a Market buy.
    pub market_price_cap_micros: Option<u64>,
    pub expires_after_ms: Option<i64>,
    pub reduce_only: bool,
    /// The kernel's `client_order_id`, else [`derive_provider_client_id_v6`].
    pub provider_client_id: String,
    pub signal_type: Option<String>,
    pub signal_metadata: Option<String>,
    pub metadata: Vec<u8>,
}

#[derive(Clone, Debug, Eq, PartialEq)]
pub enum CancelTargetV6 {
    /// An order in the context's Broker state, at the revision the decision saw.
    Order {
        order_id: String,
        expected_order_revision: u64,
    },
    /// An order placed earlier in the same decision, which has no order id yet.
    SameDecision { provider_client_id: String },
}

#[derive(Clone, Debug, Eq, PartialEq)]
pub enum StrategyCommandV6 {
    PlaceOrder(PlaceOrderV6),
    CancelOrder {
        command_id: String,
        target: CancelTargetV6,
    },
    CancelAllOrders {
        command_id: String,
    },
    ScheduleTimer {
        command_id: String,
        key: String,
        scheduled_at_epoch_ns: u64,
        generation: String,
        semantics: Vec<u8>,
    },
    CancelTimer {
        command_id: String,
        key: String,
        generation: String,
    },
    Stop {
        command_id: String,
        reason: String,
    },
}


#[derive(Clone, Debug, Eq, PartialEq)]
pub enum DecisionDispositionV6 {
    /// The kernel handled the event; the checkpoint advances by exactly one.
    Completed,
    /// The kernel returned an error; the checkpoint is unchanged and there are no commands.
    Rejected,
}

#[derive(Clone, Debug, Eq, PartialEq)]
pub struct ResultEvidenceV6 {
    pub code: String,
    pub payload: Vec<u8>,
}

#[derive(Clone, Debug, Eq, PartialEq)]
pub struct ResultDiagnosticV6 {
    pub severity: String,
    pub code: String,
    pub message: String,
}

/// The value of one annotation. Floats keep their exact bits.
#[derive(Clone, Debug, Eq, PartialEq)]
pub enum AnnotationValueV6 {
    Text(String),
    Integer(i64),
    FloatBits(u64),
    Bool(bool),
    Null,
}

/// One kernel telemetry entry, in the order the kernel recorded it. Floats keep their exact
/// bits.
#[derive(Clone, Debug, Eq, PartialEq)]
pub enum TelemetryEntryV6 {
    Counter {
        name: String,
        value_bits: u64,
        fields: Vec<(String, String)>,
    },
    Gauge {
        name: String,
        value_bits: u64,
        fields: Vec<(String, String)>,
    },
    Annotation {
        name: String,
        value: AnnotationValueV6,
        fields: Vec<(String, String)>,
    },
}


/// One order update the runner derived and delivered, as recorded in the result evidence.
#[derive(Clone, Debug, Eq, PartialEq)]
pub struct OrderUpdateRecordV6 {
    pub command_id: String,
    pub kind: BrokerCommandKindV6,
    pub client_order_id: Option<String>,
    pub order_id: Option<String>,
    pub market_id: Option<String>,
    pub action: Option<OrderActionV6>,
    pub side: Option<ContractSideV6>,
    pub status: OrderUpdateStatusV6,
    pub requested_quantity_hundredths: u64,
    pub filled_quantity_hundredths: u64,
    pub remaining_quantity_hundredths: u64,
    pub newly_filled_quantity_hundredths: u64,
    pub average_fill_price_micros: Option<u64>,
    pub fees_micros: u64,
    pub is_final: bool,
    /// The Broker no longer reports the order: `status` is the last one seen and nothing
    /// remains. Updates follow if the order reappears.
    pub vanished: bool,
}



/// Exact native cap for one scoped Market. The V4 identity carries its native Fahrenheit
/// floor; its Celsius slots remain historical/derived evidence.
#[derive(Clone, Debug, Eq, PartialEq)]
pub struct MarketStrikesV6 {
    pub market_id: String,
    pub cap_strike_milli_f: Option<i64>,
}

#[derive(Clone, Debug, Eq, PartialEq)]
pub struct DecisionResultV6 {
    pub delivery_id: String,
    pub sleeve_identity: String,
    pub state_fence: String,
    /// The decision's fence: the Broker revision of its context.
    pub expected_broker_revision: u64,
    pub disposition: DecisionDispositionV6,
    /// Completed results carry the post-event checkpoint; Rejected results the input one.
    pub kernel_checkpoint: Option<KernelCheckpointV6>,
    /// In issue order; the command at index `n` is `command_id_v6(.., n)`, `command.` and the
    /// first 32 hex digits of its IntentId.
    pub commands: Vec<StrategyCommandV6>,
    /// Receipts and terminal orders in the context whose final outcome the Strategy has seen.
    pub acknowledged_command_ids: Vec<String>,
    pub evidence: Vec<ResultEvidenceV6>,
    pub diagnostics: Vec<ResultDiagnosticV6>,
    pub telemetry: Vec<TelemetryEntryV6>,
}


/// The decision's inputs: the V4 owner projection, the Strategy's scope, the Sleeve's Broker
/// state and the trigger of this run.
#[derive(Clone, Debug, Eq, PartialEq)]
pub struct DecisionContextV6 {
    pub owner_state: DecisionContextV4,
    pub strategy: StrategyScopeV6,
    pub deployment_mode: DeploymentModeV6,
    pub capabilities: CapabilityGrantV6,
    pub broker: BrokerDetailV6,
    /// True when `broker.orders` holds every order of the Sleeve the host keeps; false when the
    /// host had to truncate the view. A truncated view never reports an order as vanished and
    /// allows no cancel-all.
    pub orders_complete: bool,
    /// Outcomes of recent commands without an order record, strictly sorted by command id.
    pub command_receipts: Vec<CommandReceiptV6>,
    pub trigger: TriggerV6,
    /// Latest private kernel state. Absent only before the first successful decision.
    pub kernel_checkpoint: Option<KernelCheckpointV6>,
    /// Authoritative wall clock supplied to the kernel. No process-clock fallback is allowed.
    pub decision_time_unix_ms: i64,
    /// Complete scoped Market order when present.
    pub market_strikes: Option<Vec<MarketStrikesV6>>,
}

/// The open orders a Sleeve may hold in `mode`, so a cancel-all over them always fits the
/// decision plan.
pub fn max_open_orders(mode: DeploymentModeV6) -> (r: usize)
    ensures
        r == spec_max_open_orders(mode),
{
    match mode {
        DeploymentModeV6::Paper => MAX_OPEN_ORDERS,
        DeploymentModeV6::Live => MAX_OPEN_ORDERS_LIVE,
    }
}

pub open spec fn spec_max_open_orders(mode: DeploymentModeV6) -> usize {
    match mode {
        DeploymentModeV6::Paper => MAX_OPEN_ORDERS,
        DeploymentModeV6::Live => MAX_OPEN_ORDERS_LIVE,
    }
}

pub open spec fn status_is_terminal(s: BrokerOrderStatusV6) -> bool {
    s is Filled || s is Cancelled || s is Expired || s is Rejected
}

impl BrokerOrderStatusV6 {
    /// The order will not change again.
    pub fn is_terminal(self) -> (r: bool)
        ensures
            r == status_is_terminal(self),
    {
        match self {
            BrokerOrderStatusV6::Filled | BrokerOrderStatusV6::Cancelled
            | BrokerOrderStatusV6::Expired | BrokerOrderStatusV6::Rejected => true,
            _ => false,
        }
    }
}

pub open spec fn mode_name(mode: DeploymentModeV6) -> Seq<char> {
    match mode {
        DeploymentModeV6::Paper => seq!['p', 'a', 'p', 'e', 'r'],
        DeploymentModeV6::Live => seq!['l', 'i', 'v', 'e'],
    }
}

impl DeploymentModeV6 {
    /// The mode name traderv3 derives provider client ids with.
    pub fn as_str(self) -> (r: &'static str)
        ensures
            r@ == mode_name(self),
    {
        match self {
            DeploymentModeV6::Paper => {
                proof {
                    reveal_strlit("paper");
                }
                "paper"
            },
            DeploymentModeV6::Live => {
                proof {
                    reveal_strlit("live");
                }
                "live"
            },
        }
    }
}

pub open spec fn update_status_is_terminal(s: OrderUpdateStatusV6) -> bool {
    s is Filled || s is Cancelled || s is Expired || s is Refused
}

impl OrderUpdateStatusV6 {
    pub fn is_terminal(&self) -> (r: bool)
        ensures
            r == update_status_is_terminal(*self),
    {
        match self {
            OrderUpdateStatusV6::Filled | OrderUpdateStatusV6::Cancelled
            | OrderUpdateStatusV6::Expired | OrderUpdateStatusV6::Refused { .. } => true,
            _ => false,
        }
    }
}

impl RunnerEntryV6 {
    /// Counts toward `MAX_RUNNER_ENTRIES` when the decision issues a command (a tombstone
    /// counts toward `MAX_TOMBSTONES`).
    pub fn is_live(&self) -> (r: bool)
        ensures
            r == !self.vanished,
    {
        !self.vanished
    }
}

pub open spec fn owner_trigger_carries_event(t: OwnerTriggerV6) -> bool {
    t is Observation || t is StationReport || t is NewHigh || t is NewLow || t is WeatherEvent
}

pub open spec fn owner_trigger_station(t: OwnerTriggerV6) -> Option<Seq<char>> {
    match t {
        OwnerTriggerV6::Observation { station_id, .. } => Some(station_id@),
        OwnerTriggerV6::ForecastUpdated { station_id, .. } => Some(station_id@),
        OwnerTriggerV6::OracleScoresUpdated { station_id, .. } => Some(station_id@),
        OwnerTriggerV6::NewHigh { station_id, .. } => Some(station_id@),
        OwnerTriggerV6::NewLow { station_id, .. } => Some(station_id@),
        OwnerTriggerV6::StationReport { station_id, .. } => Some(station_id@),
        OwnerTriggerV6::WeatherEvent { station_id, .. } => Some(station_id@),
        OwnerTriggerV6::CapturedWeather { station_id, .. } => Some(station_id@),
        _ => None,
    }
}

impl OwnerTriggerV6 {
    /// True for the weather event families whose exact supplied event accompanies a delivery.
    pub fn carries_supplied_event(&self) -> (r: bool)
        ensures
            r == owner_trigger_carries_event(*self),
    {
        match self {
            OwnerTriggerV6::Observation { .. } | OwnerTriggerV6::StationReport { .. }
            | OwnerTriggerV6::NewHigh { .. } | OwnerTriggerV6::NewLow { .. }
            | OwnerTriggerV6::WeatherEvent { .. } => true,
            _ => false,
        }
    }

    /// The station a weather, forecast or oracle trigger is about.
    pub fn station_id(&self) -> (r: Option<&str>)
        ensures
            match r {
                Some(s) => owner_trigger_station(*self) == Some(s@),
                None => owner_trigger_station(*self) is None,
            },
    {
        match self {
            OwnerTriggerV6::Observation { station_id, .. }
            | OwnerTriggerV6::ForecastUpdated { station_id, .. }
            | OwnerTriggerV6::OracleScoresUpdated { station_id, .. }
            | OwnerTriggerV6::NewHigh { station_id, .. }
            | OwnerTriggerV6::NewLow { station_id, .. }
            | OwnerTriggerV6::StationReport { station_id, .. }
            | OwnerTriggerV6::WeatherEvent { station_id, .. }
            | OwnerTriggerV6::CapturedWeather { station_id, .. } => Some(station_id.as_str()),
            _ => None,
        }
    }
}

pub open spec fn command_v6_id(c: StrategyCommandV6) -> Seq<char> {
    match c {
        StrategyCommandV6::PlaceOrder(o) => o.command_id@,
        StrategyCommandV6::CancelOrder { command_id, .. } => command_id@,
        StrategyCommandV6::CancelAllOrders { command_id } => command_id@,
        StrategyCommandV6::ScheduleTimer { command_id, .. } => command_id@,
        StrategyCommandV6::CancelTimer { command_id, .. } => command_id@,
        StrategyCommandV6::Stop { command_id, .. } => command_id@,
    }
}

pub open spec fn command_v6_broker_kind(c: StrategyCommandV6) -> Option<BrokerCommandKindV6> {
    match c {
        StrategyCommandV6::PlaceOrder(_) => Some(BrokerCommandKindV6::PlaceOrder),
        StrategyCommandV6::CancelOrder { .. } => Some(BrokerCommandKindV6::CancelOrder),
        StrategyCommandV6::CancelAllOrders { .. } => Some(BrokerCommandKindV6::CancelAllOrders),
        _ => None,
    }
}

impl StrategyCommandV6 {
    pub fn command_id(&self) -> (r: &String)
        ensures
            r@ == command_v6_id(*self),
    {
        match self {
            StrategyCommandV6::PlaceOrder(order) => &order.command_id,
            StrategyCommandV6::CancelOrder { command_id, .. }
            | StrategyCommandV6::CancelAllOrders { command_id }
            | StrategyCommandV6::ScheduleTimer { command_id, .. }
            | StrategyCommandV6::CancelTimer { command_id, .. }
            | StrategyCommandV6::Stop { command_id, .. } => command_id,
        }
    }

    /// The Broker command kind, or `None` for timer and stop commands.
    pub fn broker_kind(&self) -> (r: Option<BrokerCommandKindV6>)
        ensures
            r == command_v6_broker_kind(*self),
    {
        match self {
            StrategyCommandV6::PlaceOrder(_) => Some(BrokerCommandKindV6::PlaceOrder),
            StrategyCommandV6::CancelOrder { .. } => Some(BrokerCommandKindV6::CancelOrder),
            StrategyCommandV6::CancelAllOrders { .. } => Some(BrokerCommandKindV6::CancelAllOrders),
            _ => None,
        }
    }
}

// ---------------------------------------------------------------------------------------------
// Broker orders
// ---------------------------------------------------------------------------------------------

/// The most a quantity can be worth at the highest price.
pub open spec fn spec_maximum_quantity_value(quantity_hundredths: u64) -> int {
    quantity_hundredths as int * MAX_PRICE_MICROS as int / 100
}

/// The exact value of a quantity at a price, when it is a whole number of micros.
pub open spec fn spec_exact_quantity_value(quantity_hundredths: u64, price_micros: u64) -> Option<
    int,
> {
    let product = quantity_hundredths as int * price_micros as int;
    if product % 100 == 0 {
        Some(product / 100)
    } else {
        None
    }
}

pub fn maximum_quantity_value(quantity_hundredths: u64) -> (r: u128)
    ensures
        r as int == spec_maximum_quantity_value(quantity_hundredths),
{
    assert(quantity_hundredths as int * 1_000_000 <= u64::MAX as int * 1_000_000) by (
    nonlinear_arith);
    (quantity_hundredths as u128) * (MAX_PRICE_MICROS as u128) / 100
}

pub fn exact_quantity_value(quantity_hundredths: u64, price_micros: u64) -> (r: Option<u128>)
    ensures
        match spec_exact_quantity_value(quantity_hundredths, price_micros) {
            Some(v) => r is Some && r->0 as int == v,
            None => r is None,
        },
{
    assert(quantity_hundredths as int * price_micros as int <= u64::MAX as int * u64::MAX as int)
        by (nonlinear_arith);
    let product = (quantity_hundredths as u128) * (price_micros as u128);
    if product % 100 == 0 {
        Some(product / 100)
    } else {
        None
    }
}

/// Reservations of an order: none for a sell or a terminal order; otherwise the exact
/// principal of the remaining quantity at its limit (at most its maximum value without one),
/// and no fee reservation once nothing remains.
pub open spec fn spec_valid_order_reservation(o: BrokerOrderV6) -> bool {
    if o.action is Sell || status_is_terminal(o.status) {
        o.reserved_principal_micros == 0 && o.reserved_fee_micros == 0
    } else {
        &&& match o.limit_price_micros {
            Some(price) => spec_exact_quantity_value(o.remaining_quantity_hundredths, price)
                == Some(o.reserved_principal_micros as int),
            None => o.reserved_principal_micros as int <= spec_maximum_quantity_value(
                o.remaining_quantity_hundredths,
            ),
        }
        &&& (o.remaining_quantity_hundredths != 0 || o.reserved_fee_micros == 0)
    }
}

pub fn valid_order_reservation(order: &BrokerOrderV6) -> (r: bool)
    ensures
        r == spec_valid_order_reservation(*order),
{
    if matches!(order.action, OrderActionV6::Sell) || order.status.is_terminal() {
        return order.reserved_principal_micros == 0 && order.reserved_fee_micros == 0;
    }
    let maximum_notional = maximum_quantity_value(order.remaining_quantity_hundredths);
    let principal_is_exact = match order.limit_price_micros {
        Some(price) => match exact_quantity_value(order.remaining_quantity_hundredths, price) {
            Some(principal) => principal == order.reserved_principal_micros as u128,
            None => false,
        },
        None => (order.reserved_principal_micros as u128) <= maximum_notional,
    };
    principal_is_exact && (order.remaining_quantity_hundredths != 0 || order.reserved_fee_micros
        == 0)
}

pub open spec fn stopped_early(s: BrokerOrderStatusV6) -> bool {
    s is Cancelled || s is Expired || s is Rejected
}

/// Filled and remaining quantities account for the whole order; an order that stopped early
/// may report nothing remaining with less than its whole quantity filled.
pub open spec fn order_quantities_valid(o: BrokerOrderV6) -> bool {
    let accounted = o.filled_quantity_hundredths as int + o.remaining_quantity_hundredths as int;
    ||| (accounted <= u64::MAX && accounted == o.quantity_hundredths)
    ||| (stopped_early(o.status) && o.remaining_quantity_hundredths == 0 && accounted
        <= o.quantity_hundredths)
}

pub open spec fn prices_within_bound(o: BrokerOrderV6) -> bool {
    &&& match o.limit_price_micros {
        Some(p) => p <= MAX_PRICE_MICROS,
        None => true,
    }
    &&& match o.average_fill_price_micros {
        Some(p) => p <= MAX_PRICE_MICROS,
        None => true,
    }
    &&& (o.order_type is Limit ==> o.limit_price_micros is Some)
    &&& (o.order_type is Market ==> o.limit_price_micros is None)
}

/// A rejection reason is non-empty text within `MAX_REJECTION_REASON_BYTES`, on a `Rejected`
/// order only.
pub open spec fn rejection_reason_valid(o: BrokerOrderV6) -> bool {
    match o.rejection_reason {
        Some(reason) => o.status is Rejected && spec_valid_text(
            reason@,
            MAX_REJECTION_REASON_BYTES as nat,
        ),
        None => true,
    }
}

/// One Broker order record on its own: identities, quantities, prices, reservations, text
/// bounds, and that its Market is one of `market_ids`.
pub open spec fn broker_order_v6_valid(o: BrokerOrderV6, market_ids: Seq<Seq<char>>) -> bool {
    &&& spec_valid_identifier(o.command_id@)
    &&& spec_valid_identifier(o.intent_id@)
    &&& spec_valid_identifier(o.order_id@)
    &&& spec_valid_optional_identifier(opt_view(o.provider_order_id))
    &&& spec_valid_identifier(o.provider_client_id@)
    &&& market_ids.contains(o.market_id@)
    &&& o.quantity_hundredths != 0
    &&& o.quantity_hundredths <= i64::MAX
    &&& order_quantities_valid(o)
    &&& prices_within_bound(o)
    &&& spec_valid_order_reservation(o)
    &&& spec_valid_optional_text(opt_view(o.signal_type), MAX_SHORT_TEXT_BYTES as nat)
    &&& spec_valid_optional_text(opt_view(o.signal_metadata), MAX_COMMAND_METADATA_BYTES as nat)
    &&& rejection_reason_valid(o)
}

pub open spec fn slice_views(v: Seq<String>) -> Seq<Seq<char>> {
    v.map_values(|s: String| s@)
}

fn slice_contains(values: &[String], value: &String) -> (r: bool)
    ensures
        r == slice_views(values@).contains(value@),
{
    let n = values.len();
    let mut i: usize = 0;
    while i < n
        invariant
            n == values@.len(),
            0 <= i <= n,
            forall|j: int| 0 <= j < i ==> slice_views(values@)[j] != value@,
        decreases n - i,
    {
        if values[i].eq(value) {
            assert(slice_views(values@)[i as int] == value@);
            return true;
        }
        i += 1;
    }
    proof {
        if slice_views(values@).contains(value@) {
            let k = choose|k: int|
                0 <= k < slice_views(values@).len() && slice_views(values@)[k] == value@;
            assert(false);
        }
    }
    false
}

/// Checks one Broker order record on its own: identities, quantities, prices, reservations
/// and text bounds, and that its Market is one of `market_ids`. A host can run it over its
/// order records before building a context, to quarantine a record that would make every
/// context of the Sleeve invalid.
///
/// A terminal order that stopped early (`Cancelled`, `Expired`, `Rejected`) may report no
/// remaining quantity with less than its whole quantity filled.
pub fn validate_broker_order_v6(order: &BrokerOrderV6, market_ids: &[String]) -> (r: Result<
    (),
    DecisionV6Error,
>)
    ensures
        r is Ok <==> broker_order_v6_valid(*order, slice_views(market_ids@)),
        r is Err ==> r == Err::<(), DecisionV6Error>(DecisionV6Error::InvalidContract),
{
    let accounted = order.filled_quantity_hundredths.checked_add(
        order.remaining_quantity_hundredths,
    );
    let early = matches!(
        order.status,
        BrokerOrderStatusV6::Cancelled | BrokerOrderStatusV6::Expired
            | BrokerOrderStatusV6::Rejected
    );
    let quantities_valid = match accounted {
        Some(q) => q == order.quantity_hundredths || (early && order.remaining_quantity_hundredths
            == 0 && q <= order.quantity_hundredths),
        None => false,
    };
    let prices_valid = match order.limit_price_micros {
        Some(p) => p <= MAX_PRICE_MICROS,
        None => true,
    } && match order.average_fill_price_micros {
        Some(p) => p <= MAX_PRICE_MICROS,
        None => true,
    } && !(matches!(order.order_type, OrderTypeV6::Limit) && order.limit_price_micros.is_none())
        && !(matches!(order.order_type, OrderTypeV6::Market) && order.limit_price_micros.is_some());
    let reason_valid = match &order.rejection_reason {
        Some(reason) => matches!(order.status, BrokerOrderStatusV6::Rejected) && valid_text(
            reason,
            MAX_REJECTION_REASON_BYTES,
        ),
        None => true,
    };
    if !valid_identifier(&order.command_id) || !valid_identifier(&order.intent_id)
        || !valid_identifier(&order.order_id) || !valid_optional_identifier(
        &order.provider_order_id,
    ) || !valid_identifier(&order.provider_client_id) || !slice_contains(
        market_ids,
        &order.market_id,
    ) || order.quantity_hundredths == 0 || order.quantity_hundredths > i64::MAX as u64
        || !quantities_valid || !prices_valid || !valid_order_reservation(order)
        || !valid_optional_text(&order.signal_type, MAX_SHORT_TEXT_BYTES) || !valid_optional_text(
        &order.signal_metadata,
        MAX_COMMAND_METADATA_BYTES,
    ) || !reason_valid {
        return Err(DecisionV6Error::InvalidContract);
    }
    Ok(())
}

} // verus!
