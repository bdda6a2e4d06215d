//! The Decision V5 result on the wire: its encoding under the current magic, and reading it
//! back under the current or the legacy magic.
//!
//! A value read from bytes is described by its model (its view): the same fields with strings
//! and byte lists as sequences. Reading what was written gives the model of what was written.
use crate::decision_v5::{
    CommandFenceV5, ContractSideV5, DecisionDispositionV5, DecisionResultV5, DecisionV5Error,
    KernelCheckpointV5, OrderActionV5, OrderTypeV5, PlaceOrderV5, ResultDiagnosticV5,
    ResultEvidenceV5, StrategyCommandV5, DECISION_RESULT_V5_MAGIC,
    LEGACY_DECISION_RESULT_V5_MAGIC, MAX_DECISION_RESULT_V5_BYTES,
};
use crate::legacy_v5::{
    action_v5_index, current_quantity, order_type_index, side_v5_index, wire_command_v5_spec,
    wire_fence_spec, wire_place_head_spec, wire_place_spec, wire_place_tail_spec,
};
use crate::result_v5::{
    checkpoint_v5_message, command_ids_v5, command_in_result_v5_verdict, commands_v5_verdict,
    diagnostic_v5_valid, disposition_v5_verdict, evidence_v5_valid, fenced_command_ids,
    first_fence, kernel_checkpoint_v5_shape_verdict, result_v5_bounds_valid, result_v5_verdict,
};
use crate::decision_v5::{command_v5_fence, command_v5_id};
use crate::decision_v5::spec_whole_to_hundredths;
use crate::digest::{extend, sha256, sha256_digest};
use crate::text::opt_view;
use crate::legacy_v5::encode_command_v5;
use crate::wire::{
    put, wire_array32, wire_bytes, wire_str, wire_u32, wire_u64, wire_u8,
    varint, wire_bool_spec, wire_bytes_spec, wire_opt_i64_spec, wire_opt_str_spec,
    wire_opt_u64_spec, wire_str_spec, zigzag,
};
use crate::wire_read::{
    bytes_read, lemma_varint_read_bounds, read_bytes, read_i64, read_str, read_u32, read_u64,
    str_read, unzigzag, varint_u32_read, varint_u64_read,
};
use vstd::prelude::*;

verus! {

// ---------------------------------------------------------------------------------------------
// Models
// ---------------------------------------------------------------------------------------------

pub struct CommandFenceModel {
    pub continuation_id: Seq<char>,
    pub continuation_generation: u64,
    pub expected_broker_revision: u64,
}

pub struct PlaceOrderModel {
    pub command_id: Seq<char>,
    pub fence: CommandFenceModel,
    pub market_id: Seq<char>,
    pub action: OrderActionV5,
    pub side: ContractSideV5,
    pub order_type: OrderTypeV5,
    /// The quantity field as written: hundredths under the current magic, whole contracts
    /// under the legacy one.
    pub quantity: u64,
    pub limit_price_micros: Option<u64>,
    pub market_price_cap_micros: Option<u64>,
    pub expires_after_ms: Option<i64>,
    pub reduce_only: bool,
    pub provider_client_id: Seq<char>,
    pub signal_type: Option<Seq<char>>,
    pub signal_metadata: Option<Seq<char>>,
    pub metadata: Seq<u8>,
}

pub enum CommandModel {
    PlaceOrder(PlaceOrderModel),
    CancelOrder {
        command_id: Seq<char>,
        fence: CommandFenceModel,
        order_id: Seq<char>,
        expected_order_revision: u64,
    },
    CancelAllOrders { command_id: Seq<char>, fence: CommandFenceModel },
    ScheduleTimer {
        command_id: Seq<char>,
        key: Seq<char>,
        scheduled_at_epoch_ns: u64,
        generation: Seq<char>,
        semantics: Seq<u8>,
    },
    CancelTimer { command_id: Seq<char>, key: Seq<char>, generation: Seq<char> },
    Stop { command_id: Seq<char>, reason: Seq<char> },
}

pub struct CheckpointModel {
    pub codec_profile: Seq<char>,
    pub codec_version: u32,
    pub strategy_id: Seq<char>,
    pub strategy_profile: Seq<char>,
    pub profile_and_calculator_digest: Seq<char>,
    pub sequence: u64,
    pub state: Seq<u8>,
    pub state_sha256: Seq<u8>,
}

pub enum DispositionModel {
    Completed,
    AwaitingBrokerOutcome {
        continuation_id: Seq<char>,
        continuation_generation: u64,
        awaited_command_id: Seq<char>,
    },
    Rejected,
}

pub struct EvidenceModel {
    pub code: Seq<char>,
    pub payload: Seq<u8>,
}

pub struct DiagnosticModel {
    pub severity: Seq<char>,
    pub code: Seq<char>,
    pub message: Seq<char>,
}

pub struct ResultModel {
    pub delivery_id: Seq<char>,
    pub sleeve_identity: Seq<char>,
    pub state_fence: Seq<char>,
    pub expected_broker_revision: u64,
    pub disposition: DispositionModel,
    pub kernel_checkpoint: Option<CheckpointModel>,
    pub commands: Seq<CommandModel>,
    pub evidence: Seq<EvidenceModel>,
    pub diagnostics: Seq<DiagnosticModel>,
}

impl View for CommandFenceV5 {
    type V = CommandFenceModel;

    open spec fn view(&self) -> CommandFenceModel {
        CommandFenceModel {
            continuation_id: self.continuation_id@,
            continuation_generation: self.continuation_generation,
            expected_broker_revision: self.expected_broker_revision,
        }
    }
}

impl View for PlaceOrderV5 {
    type V = PlaceOrderModel;

    open spec fn view(&self) -> PlaceOrderModel {
        PlaceOrderModel {
            command_id: self.command_id@,
            fence: self.fence@,
            market_id: self.market_id@,
            action: self.action,
            side: self.side,
            order_type: self.order_type,
            quantity: self.quantity_hundredths,
            limit_price_micros: self.limit_price_micros,
            market_price_cap_micros: self.market_price_cap_micros,
            expires_after_ms: self.expires_after_ms,
            reduce_only: self.reduce_only,
            provider_client_id: self.provider_client_id@,
            signal_type: opt_view(self.signal_type),
            signal_metadata: opt_view(self.signal_metadata),
            metadata: self.metadata@,
        }
    }
}

impl View for StrategyCommandV5 {
    type V = CommandModel;

    open spec fn view(&self) -> CommandModel {
        match *self {
            StrategyCommandV5::PlaceOrder(o) => CommandModel::PlaceOrder(o@),
            StrategyCommandV5::CancelOrder {
                command_id,
                fence,
                order_id,
                expected_order_revision,
            } => CommandModel::CancelOrder {
                command_id: command_id@,
                fence: fence@,
                order_id: order_id@,
                expected_order_revision,
            },
            StrategyCommandV5::CancelAllOrders { command_id, fence } =>
                CommandModel::CancelAllOrders { command_id: command_id@, fence: fence@ },
            StrategyCommandV5::ScheduleTimer {
                command_id,
                key,
                scheduled_at_epoch_ns,
                generation,
                semantics,
            } => CommandModel::ScheduleTimer {
                command_id: command_id@,
                key: key@,
                scheduled_at_epoch_ns,
                generation: generation@,
                semantics: semantics@,
            },
            StrategyCommandV5::CancelTimer { command_id, key, generation } =>
                CommandModel::CancelTimer {
                command_id: command_id@,
                key: key@,
                generation: generation@,
            },
            StrategyCommandV5::Stop { command_id, reason } => CommandModel::Stop {
                command_id: command_id@,
                reason: reason@,
            },
        }
    }
}

impl View for KernelCheckpointV5 {
    type V = CheckpointModel;

    open spec fn view(&self) -> CheckpointModel {
        CheckpointModel {
            codec_profile: self.codec_profile@,
            codec_version: self.codec_version,
            strategy_id: self.strategy_id@,
            strategy_profile: self.strategy_profile@,
            profile_and_calculator_digest: self.profile_and_calculator_digest@,
            sequence: self.sequence,
            state: self.state@,
            state_sha256: self.state_sha256@,
        }
    }
}

impl View for DecisionDispositionV5 {
    type V = DispositionModel;

    open spec fn view(&self) -> DispositionModel {
        match *self {
            DecisionDispositionV5::Completed => DispositionModel::Completed,
            DecisionDispositionV5::AwaitingBrokerOutcome {
                continuation_id,
                continuation_generation,
                awaited_command_id,
            } => DispositionModel::AwaitingBrokerOutcome {
                continuation_id: continuation_id@,
                continuation_generation,
                awaited_command_id: awaited_command_id@,
            },
            DecisionDispositionV5::Rejected => DispositionModel::Rejected,
        }
    }
}

impl View for ResultEvidenceV5 {
    type V = EvidenceModel;

    open spec fn view(&self) -> EvidenceModel {
        EvidenceModel { code: self.code@, payload: self.payload@ }
    }
}

impl View for ResultDiagnosticV5 {
    type V = DiagnosticModel;

    open spec fn view(&self) -> DiagnosticModel {
        DiagnosticModel { severity: self.severity@, code: self.code@, message: self.message@ }
    }
}

pub open spec fn opt_checkpoint_model(c: Option<KernelCheckpointV5>) -> Option<CheckpointModel> {
    match c {
        Some(v) => Some(v@),
        None => None,
    }
}

pub open spec fn command_viewer() -> spec_fn(StrategyCommandV5) -> CommandModel {
    |c: StrategyCommandV5| c@
}

pub open spec fn evidence_viewer() -> spec_fn(ResultEvidenceV5) -> EvidenceModel {
    |e: ResultEvidenceV5| e@
}

pub open spec fn diagnostic_viewer() -> spec_fn(ResultDiagnosticV5) -> DiagnosticModel {
    |d: ResultDiagnosticV5| d@
}

impl View for DecisionResultV5 {
    type V = ResultModel;

    open spec fn view(&self) -> ResultModel {
        ResultModel {
            delivery_id: self.delivery_id@,
            sleeve_identity: self.sleeve_identity@,
            state_fence: self.state_fence@,
            expected_broker_revision: self.expected_broker_revision,
            disposition: self.disposition@,
            kernel_checkpoint: opt_checkpoint_model(self.kernel_checkpoint),
            commands: self.commands@.map_values(command_viewer()),
            evidence: self.evidence@.map_values(evidence_viewer()),
            diagnostics: self.diagnostics@.map_values(diagnostic_viewer()),
        }
    }
}

// ---------------------------------------------------------------------------------------------
// The encoding
// ---------------------------------------------------------------------------------------------

/// Items one after another, without a length.
pub open spec fn wire_items<T>(s: Seq<T>, enc: spec_fn(T) -> Seq<u8>) -> Seq<u8>
    decreases s.len(),
{
    if s.len() == 0 {
        Seq::empty()
    } else {
        wire_items(s.drop_last(), enc) + enc(s.last())
    }
}

/// A list: its length, then its items.
pub open spec fn wire_list<T>(s: Seq<T>, enc: spec_fn(T) -> Seq<u8>) -> Seq<u8> {
    varint(s.len()) + wire_items(s, enc)
}

pub open spec fn wire_checkpoint_v5_spec(c: KernelCheckpointV5) -> Seq<u8> {
    wire_str_spec(c.codec_profile@) + varint(c.codec_version as nat) + wire_str_spec(
        c.strategy_id@,
    ) + wire_str_spec(c.strategy_profile@) + wire_str_spec(c.profile_and_calculator_digest@)
        + varint(c.sequence as nat) + wire_bytes_spec(c.state@) + c.state_sha256@
}

pub open spec fn wire_opt_checkpoint_v5_spec(c: Option<KernelCheckpointV5>) -> Seq<u8> {
    match c {
        Some(v) => seq![1u8] + wire_checkpoint_v5_spec(v),
        None => seq![0u8],
    }
}

pub open spec fn wire_disposition_v5_spec(d: DecisionDispositionV5) -> Seq<u8> {
    match d {
        DecisionDispositionV5::Completed => varint(0),
        DecisionDispositionV5::AwaitingBrokerOutcome {
            continuation_id,
            continuation_generation,
            awaited_command_id,
        } => varint(1) + wire_str_spec(continuation_id@) + varint(continuation_generation as nat)
            + wire_str_spec(awaited_command_id@),
        DecisionDispositionV5::Rejected => varint(2),
    }
}

pub open spec fn wire_evidence_v5_spec(e: ResultEvidenceV5) -> Seq<u8> {
    wire_str_spec(e.code@) + wire_bytes_spec(e.payload@)
}

pub open spec fn wire_diagnostic_v5_spec(d: ResultDiagnosticV5) -> Seq<u8> {
    wire_str_spec(d.severity@) + wire_str_spec(d.code@) + wire_str_spec(d.message@)
}

/// A command in its current encoding (a place's quantity in hundredths).
pub open spec fn wire_current_command_spec(c: StrategyCommandV5) -> Seq<u8> {
    wire_command_v5_spec(c, current_quantity(c))
}

pub open spec fn command_encoder() -> spec_fn(StrategyCommandV5) -> Seq<u8> {
    |c: StrategyCommandV5| wire_current_command_spec(c)
}

pub open spec fn evidence_encoder() -> spec_fn(ResultEvidenceV5) -> Seq<u8> {
    |e: ResultEvidenceV5| wire_evidence_v5_spec(e)
}

pub open spec fn diagnostic_encoder() -> spec_fn(ResultDiagnosticV5) -> Seq<u8> {
    |d: ResultDiagnosticV5| wire_diagnostic_v5_spec(d)
}

/// The payload of a current V5 result, after its magic.
pub open spec fn wire_result_v5_spec(r: DecisionResultV5) -> Seq<u8> {
    wire_str_spec(r.delivery_id@) + wire_str_spec(r.sleeve_identity@) + wire_str_spec(
        r.state_fence@,
    ) + varint(r.expected_broker_revision as nat) + wire_disposition_v5_spec(r.disposition)
        + wire_opt_checkpoint_v5_spec(r.kernel_checkpoint) + wire_list(
        r.commands@,
        command_encoder(),
    ) + wire_list(r.evidence@, evidence_encoder()) + wire_list(
        r.diagnostics@,
        diagnostic_encoder(),
    )
}

// ---------------------------------------------------------------------------------------------
// Reading: each reader takes the bytes and a position, and gives the model read there and the
// position after it.
// ---------------------------------------------------------------------------------------------

#[verifier::opaque]
pub open spec fn u64_at(b: Seq<u8>, p: int) -> Option<(u64, int)> {
    match varint_u64_read(b.skip(p)) {
        Some((v, n)) => Some((v as u64, p + n)),
        None => None,
    }
}

#[verifier::opaque]
pub open spec fn u32_at(b: Seq<u8>, p: int) -> Option<(u32, int)> {
    match varint_u32_read(b.skip(p)) {
        Some((v, n)) => Some((v as u32, p + n)),
        None => None,
    }
}

#[verifier::opaque]
pub open spec fn i64_at(b: Seq<u8>, p: int) -> Option<(i64, int)> {
    match varint_u64_read(b.skip(p)) {
        Some((v, n)) => Some((unzigzag(v) as i64, p + n)),
        None => None,
    }
}

pub open spec fn u8_at(b: Seq<u8>, p: int) -> Option<(u8, int)> {
    if 0 <= p < b.len() {
        Some((b[p], p + 1))
    } else {
        None
    }
}

pub open spec fn bool_at(b: Seq<u8>, p: int) -> Option<(bool, int)> {
    match u8_at(b, p) {
        Some((0, q)) => Some((false, q)),
        Some((1, q)) => Some((true, q)),
        _ => None,
    }
}

#[verifier::opaque]
pub open spec fn str_at(b: Seq<u8>, p: int) -> Option<(Seq<char>, int)> {
    match str_read(b.skip(p)) {
        Some((s, n)) => Some((s, p + n)),
        None => None,
    }
}

#[verifier::opaque]
pub open spec fn bytes_at(b: Seq<u8>, p: int) -> Option<(Seq<u8>, int)> {
    match bytes_read(b.skip(p)) {
        Some((v, n)) => Some((v, p + n)),
        None => None,
    }
}

pub open spec fn array32_at(b: Seq<u8>, p: int) -> Option<(Seq<u8>, int)> {
    if 0 <= p && p + 32 <= b.len() {
        Some((b.subrange(p, p + 32), p + 32))
    } else {
        None
    }
}

pub open spec fn opt_u64_at(b: Seq<u8>, p: int) -> Option<(Option<u64>, int)> {
    match u8_at(b, p) {
        Some((0, q)) => Some((None, q)),
        Some((1, q)) => match u64_at(b, q) {
            Some((v, e)) => Some((Some(v), e)),
            None => None,
        },
        _ => None,
    }
}

pub open spec fn opt_i64_at(b: Seq<u8>, p: int) -> Option<(Option<i64>, int)> {
    match u8_at(b, p) {
        Some((0, q)) => Some((None, q)),
        Some((1, q)) => match i64_at(b, q) {
            Some((v, e)) => Some((Some(v), e)),
            None => None,
        },
        _ => None,
    }
}

pub open spec fn opt_str_at(b: Seq<u8>, p: int) -> Option<(Option<Seq<char>>, int)> {
    match u8_at(b, p) {
        Some((0, q)) => Some((None, q)),
        Some((1, q)) => match str_at(b, q) {
            Some((v, e)) => Some((Some(v), e)),
            None => None,
        },
        _ => None,
    }
}

#[verifier::opaque]
pub open spec fn fence_at(b: Seq<u8>, p: int) -> Option<(CommandFenceModel, int)> {
    match str_at(b, p) {
        Some((id, p1)) => match u64_at(b, p1) {
            Some((generation, p2)) => match u64_at(b, p2) {
                Some((revision, p3)) => Some(
                    (
                        CommandFenceModel {
                            continuation_id: id,
                            continuation_generation: generation,
                            expected_broker_revision: revision,
                        },
                        p3,
                    ),
                ),
                None => None,
            },
            None => None,
        },
        None => None,
    }
}

pub open spec fn action_of(i: u32) -> Option<OrderActionV5> {
    if i == 0 {
        Some(OrderActionV5::Buy)
    } else if i == 1 {
        Some(OrderActionV5::Sell)
    } else {
        None
    }
}

pub open spec fn side_of(i: u32) -> Option<ContractSideV5> {
    if i == 0 {
        Some(ContractSideV5::Yes)
    } else if i == 1 {
        Some(ContractSideV5::No)
    } else {
        None
    }
}

pub open spec fn order_type_of(i: u32) -> Option<OrderTypeV5> {
    if i == 0 {
        Some(OrderTypeV5::Market)
    } else if i == 1 {
        Some(OrderTypeV5::Limit)
    } else {
        None
    }
}

pub open spec fn action_at(b: Seq<u8>, p: int) -> Option<(OrderActionV5, int)> {
    match u32_at(b, p) {
        Some((i, q)) => match action_of(i) {
            Some(a) => Some((a, q)),
            None => None,
        },
        None => None,
    }
}

pub open spec fn side_at(b: Seq<u8>, p: int) -> Option<(ContractSideV5, int)> {
    match u32_at(b, p) {
        Some((i, q)) => match side_of(i) {
            Some(a) => Some((a, q)),
            None => None,
        },
        None => None,
    }
}

pub open spec fn order_type_at(b: Seq<u8>, p: int) -> Option<(OrderTypeV5, int)> {
    match u32_at(b, p) {
        Some((i, q)) => match order_type_of(i) {
            Some(a) => Some((a, q)),
            None => None,
        },
        None => None,
    }
}

/// The fields of a place up to its quantity.
pub struct PlaceHeadModel {
    pub command_id: Seq<char>,
    pub fence: CommandFenceModel,
    pub market_id: Seq<char>,
    pub action: OrderActionV5,
    pub side: ContractSideV5,
    pub order_type: OrderTypeV5,
    pub quantity: u64,
}

/// The fields of a place after its quantity.
pub struct PlaceTailModel {
    pub limit_price_micros: Option<u64>,
    pub market_price_cap_micros: Option<u64>,
    pub expires_after_ms: Option<i64>,
    pub reduce_only: bool,
    pub provider_client_id: Seq<char>,
    pub signal_type: Option<Seq<char>>,
    pub signal_metadata: Option<Seq<char>>,
    pub metadata: Seq<u8>,
}

#[verifier::opaque]
pub open spec fn place_head_at(b: Seq<u8>, p: int) -> Option<(PlaceHeadModel, int)> {
    match str_at(b, p) {
        Some((command_id, p1)) => match fence_at(b, p1) {
            Some((fence, p2)) => match str_at(b, p2) {
                Some((market_id, p3)) => match action_at(b, p3) {
                    Some((action, p4)) => match side_at(b, p4) {
                        Some((side, p5)) => match order_type_at(b, p5) {
                            Some((order_type, p6)) => match u64_at(b, p6) {
                                Some((quantity, p7)) => Some(
                                    (
                                        PlaceHeadModel {
                                            command_id,
                                            fence,
                                            market_id,
                                            action,
                                            side,
                                            order_type,
                                            quantity,
                                        },
                                        p7,
                                    ),
                                ),
                                None => None,
                            },
                            None => None,
                        },
                        None => None,
                    },
                    None => None,
                },
                None => None,
            },
            None => None,
        },
        None => None,
    }
}

#[verifier::opaque]
pub open spec fn place_tail_at(b: Seq<u8>, p: int) -> Option<(PlaceTailModel, int)> {
    match opt_u64_at(b, p) {
        Some((limit, p1)) => match opt_u64_at(b, p1) {
            Some((cap, p2)) => match opt_i64_at(b, p2) {
                Some((expires, p3)) => match bool_at(b, p3) {
                    Some((reduce_only, p4)) => match str_at(b, p4) {
                        Some((provider_client_id, p5)) => match opt_str_at(b, p5) {
                            Some((signal_type, p6)) => match opt_str_at(b, p6) {
                                Some((signal_metadata, p7)) => match bytes_at(b, p7) {
                                    Some((metadata, p8)) => Some(
                                        (
                                            PlaceTailModel {
                                                limit_price_micros: limit,
                                                market_price_cap_micros: cap,
                                                expires_after_ms: expires,
                                                reduce_only,
                                                provider_client_id,
                                                signal_type,
                                                signal_metadata,
                                                metadata,
                                            },
                                            p8,
                                        ),
                                    ),
                                    None => None,
                                },
                                None => None,
                            },
                            None => None,
                        },
                        None => None,
                    },
                    None => None,
                },
                None => None,
            },
            None => None,
        },
        None => None,
    }
}

pub open spec fn place_of(h: PlaceHeadModel, t: PlaceTailModel) -> PlaceOrderModel {
    PlaceOrderModel {
        command_id: h.command_id,
        fence: h.fence,
        market_id: h.market_id,
        action: h.action,
        side: h.side,
        order_type: h.order_type,
        quantity: h.quantity,
        limit_price_micros: t.limit_price_micros,
        market_price_cap_micros: t.market_price_cap_micros,
        expires_after_ms: t.expires_after_ms,
        reduce_only: t.reduce_only,
        provider_client_id: t.provider_client_id,
        signal_type: t.signal_type,
        signal_metadata: t.signal_metadata,
        metadata: t.metadata,
    }
}

pub open spec fn place_at(b: Seq<u8>, p: int) -> Option<(PlaceOrderModel, int)> {
    match place_head_at(b, p) {
        Some((h, p1)) => match place_tail_at(b, p1) {
            Some((t, p2)) => Some((place_of(h, t), p2)),
            None => None,
        },
        None => None,
    }
}

#[verifier::opaque]
pub open spec fn command_fields_at(b: Seq<u8>, p: int, variant: u32) -> Option<(CommandModel, int)> {
    if variant == 0 {
        match place_at(b, p) {
            Some((o, q)) => Some((CommandModel::PlaceOrder(o), q)),
            None => None,
        }
    } else if variant == 1 {
        match str_at(b, p) {
            Some((command_id, p1)) => match fence_at(b, p1) {
                Some((fence, p2)) => match str_at(b, p2) {
                    Some((order_id, p3)) => match u64_at(b, p3) {
                        Some((expected_order_revision, p4)) => Some(
                            (
                                CommandModel::CancelOrder {
                                    command_id,
                                    fence,
                                    order_id,
                                    expected_order_revision,
                                },
                                p4,
                            ),
                        ),
                        None => None,
                    },
                    None => None,
                },
                None => None,
            },
            None => None,
        }
    } else if variant == 2 {
        match str_at(b, p) {
            Some((command_id, p1)) => match fence_at(b, p1) {
                Some((fence, p2)) => Some((CommandModel::CancelAllOrders { command_id, fence }, p2)),
                None => None,
            },
            None => None,
        }
    } else if variant == 3 {
        match str_at(b, p) {
            Some((command_id, p1)) => match str_at(b, p1) {
                Some((key, p2)) => match u64_at(b, p2) {
                    Some((scheduled_at_epoch_ns, p3)) => match str_at(b, p3) {
                        Some((generation, p4)) => match bytes_at(b, p4) {
                            Some((semantics, p5)) => Some(
                                (
                                    CommandModel::ScheduleTimer {
                                        command_id,
                                        key,
                                        scheduled_at_epoch_ns,
                                        generation,
                                        semantics,
                                    },
                                    p5,
                                ),
                            ),
                            None => None,
                        },
                        None => None,
                    },
                    None => None,
                },
                None => None,
            },
            None => None,
        }
    } else if variant == 4 {
        match str_at(b, p) {
            Some((command_id, p1)) => match str_at(b, p1) {
                Some((key, p2)) => match str_at(b, p2) {
                    Some((generation, p3)) => Some(
                        (CommandModel::CancelTimer { command_id, key, generation }, p3),
                    ),
                    None => None,
                },
                None => None,
            },
            None => None,
        }
    } else if variant == 5 {
        match str_at(b, p) {
            Some((command_id, p1)) => match str_at(b, p1) {
                Some((reason, p2)) => Some((CommandModel::Stop { command_id, reason }, p2)),
                None => None,
            },
            None => None,
        }
    } else {
        None
    }
}

pub open spec fn command_at(b: Seq<u8>, p: int) -> Option<(CommandModel, int)> {
    match u32_at(b, p) {
        Some((variant, q)) => command_fields_at(b, q, variant),
        None => None,
    }
}

#[verifier::opaque]
pub open spec fn checkpoint_at(b: Seq<u8>, p: int) -> Option<(CheckpointModel, int)> {
    match str_at(b, p) {
        Some((codec_profile, p1)) => match u32_at(b, p1) {
            Some((codec_version, p2)) => match str_at(b, p2) {
                Some((strategy_id, p3)) => match str_at(b, p3) {
                    Some((strategy_profile, p4)) => match str_at(b, p4) {
                        Some((profile_and_calculator_digest, p5)) => match u64_at(b, p5) {
                            Some((sequence, p6)) => match bytes_at(b, p6) {
                                Some((state, p7)) => match array32_at(b, p7) {
                                    Some((state_sha256, p8)) => Some(
                                        (
                                            CheckpointModel {
                                                codec_profile,
                                                codec_version,
                                                strategy_id,
                                                strategy_profile,
                                                profile_and_calculator_digest,
                                                sequence,
                                                state,
                                                state_sha256,
                                            },
                                            p8,
                                        ),
                                    ),
                                    None => None,
                                },
                                None => None,
                            },
                            None => None,
                        },
                        None => None,
                    },
                    None => None,
                },
                None => None,
            },
            None => None,
        },
        None => None,
    }
}

pub open spec fn opt_checkpoint_at(b: Seq<u8>, p: int) -> Option<(Option<CheckpointModel>, int)> {
    match u8_at(b, p) {
        Some((0, q)) => Some((None, q)),
        Some((1, q)) => match checkpoint_at(b, q) {
            Some((c, e)) => Some((Some(c), e)),
            None => None,
        },
        _ => None,
    }
}

#[verifier::opaque]
pub open spec fn disposition_at(b: Seq<u8>, p: int) -> Option<(DispositionModel, int)> {
    match u32_at(b, p) {
        Some((0, q)) => Some((DispositionModel::Completed, q)),
        Some((1, q)) => match str_at(b, q) {
            Some((continuation_id, p1)) => match u64_at(b, p1) {
                Some((continuation_generation, p2)) => match str_at(b, p2) {
                    Some((awaited_command_id, p3)) => Some(
                        (
                            DispositionModel::AwaitingBrokerOutcome {
                                continuation_id,
                                continuation_generation,
                                awaited_command_id,
                            },
                            p3,
                        ),
                    ),
                    None => None,
                },
                None => None,
            },
            None => None,
        },
        Some((2, q)) => Some((DispositionModel::Rejected, q)),
        _ => None,
    }
}

#[verifier::opaque]
pub open spec fn evidence_at(b: Seq<u8>, p: int) -> Option<(EvidenceModel, int)> {
    match str_at(b, p) {
        Some((code, p1)) => match bytes_at(b, p1) {
            Some((payload, p2)) => Some((EvidenceModel { code, payload }, p2)),
            None => None,
        },
        None => None,
    }
}

#[verifier::opaque]
pub open spec fn diagnostic_at(b: Seq<u8>, p: int) -> Option<(DiagnosticModel, int)> {
    match str_at(b, p) {
        Some((severity, p1)) => match str_at(b, p1) {
            Some((code, p2)) => match str_at(b, p2) {
                Some((message, p3)) => Some((DiagnosticModel { severity, code, message }, p3)),
                None => None,
            },
            None => None,
        },
        None => None,
    }
}

pub open spec fn command_reader() -> spec_fn(Seq<u8>, int) -> Option<(CommandModel, int)> {
    |b: Seq<u8>, p: int| command_at(b, p)
}

pub open spec fn evidence_reader() -> spec_fn(Seq<u8>, int) -> Option<(EvidenceModel, int)> {
    |b: Seq<u8>, p: int| evidence_at(b, p)
}

pub open spec fn diagnostic_reader() -> spec_fn(Seq<u8>, int) -> Option<(DiagnosticModel, int)> {
    |b: Seq<u8>, p: int| diagnostic_at(b, p)
}

/// `n` items one after another.
pub open spec fn items_at<M>(
    b: Seq<u8>,
    p: int,
    n: nat,
    read: spec_fn(Seq<u8>, int) -> Option<(M, int)>,
) -> Option<(Seq<M>, int)>
    decreases n,
{
    if n == 0 {
        Some((Seq::empty(), p))
    } else {
        match items_at(b, p, (n - 1) as nat, read) {
            Some((items, q)) => match read(b, q) {
                Some((item, e)) => Some((items.push(item), e)),
                None => None,
            },
            None => None,
        }
    }
}

/// A list: its length, then its items.
pub open spec fn list_at<M>(b: Seq<u8>, p: int, read: spec_fn(Seq<u8>, int) -> Option<(M, int)>) -> Option<
    (Seq<M>, int),
> {
    match u64_at(b, p) {
        Some((n, q)) => items_at(b, q, n as nat, read),
        None => None,
    }
}

#[verifier::opaque]
pub open spec fn result_at(b: Seq<u8>, p: int) -> Option<(ResultModel, int)> {
    match str_at(b, p) {
        Some((delivery_id, p1)) => match str_at(b, p1) {
            Some((sleeve_identity, p2)) => match str_at(b, p2) {
                Some((state_fence, p3)) => match u64_at(b, p3) {
                    Some((expected_broker_revision, p4)) => match disposition_at(b, p4) {
                        Some((disposition, p5)) => match opt_checkpoint_at(b, p5) {
                            Some((kernel_checkpoint, p6)) => match list_at(
                                b,
                                p6,
                                command_reader(),
                            ) {
                                Some((commands, p7)) => match list_at(b, p7, evidence_reader()) {
                                    Some((evidence, p8)) => match list_at(
                                        b,
                                        p8,
                                        diagnostic_reader(),
                                    ) {
                                        Some((diagnostics, p9)) => Some(
                                            (
                                                ResultModel {
                                                    delivery_id,
                                                    sleeve_identity,
                                                    state_fence,
                                                    expected_broker_revision,
                                                    disposition,
                                                    kernel_checkpoint,
                                                    commands,
                                                    evidence,
                                                    diagnostics,
                                                },
                                                p9,
                                            ),
                                        ),
                                        None => None,
                                    },
                                    None => None,
                                },
                                None => None,
                            },
                            None => None,
                        },
                        None => None,
                    },
                    None => None,
                },
                None => None,
            },
            None => None,
        },
        None => None,
    }
}


// ---------------------------------------------------------------------------------------------
// Reading what was written
// ---------------------------------------------------------------------------------------------

/// `b` holds `w` at position `p`.
pub open spec fn holds_at(b: Seq<u8>, p: int, w: Seq<u8>) -> bool {
    &&& 0 <= p
    &&& p + w.len() <= b.len()
    &&& b.subrange(p, p + w.len()) == w
}

pub(crate) proof fn lemma_holds_split(b: Seq<u8>, p: int, w1: Seq<u8>, w2: Seq<u8>)
    requires
        holds_at(b, p, w1 + w2),
    ensures
        holds_at(b, p, w1),
        holds_at(b, p + w1.len(), w2),
{
    assert(b.subrange(p, p + w1.len()) =~= (w1 + w2).subrange(0, w1.len() as int));
    assert(b.subrange(p + w1.len(), p + w1.len() + w2.len()) =~= (w1 + w2).subrange(
        w1.len() as int,
        (w1.len() + w2.len()) as int,
    ));
    assert((w1 + w2).subrange(0, w1.len() as int) =~= w1);
    assert((w1 + w2).subrange(w1.len() as int, (w1.len() + w2.len()) as int) =~= w2);
}

pub(crate) proof fn lemma_skip_holds(b: Seq<u8>, p: int, w: Seq<u8>)
    requires
        holds_at(b, p, w),
    ensures
        b.skip(p) =~= w + b.skip(p + w.len()),
{
}

pub(crate) proof fn lemma_u64_at(b: Seq<u8>, p: int, v: u64)
    requires
        holds_at(b, p, varint(v as nat)),
    ensures
        u64_at(b, p) == Some((v, p + varint(v as nat).len())),
{
    reveal(u64_at);
    lemma_skip_holds(b, p, varint(v as nat));
    crate::wire_read::lemma_varint_u64_read(v, b.skip(p + varint(v as nat).len()));
}

pub(crate) proof fn lemma_u32_at(b: Seq<u8>, p: int, v: u32)
    requires
        holds_at(b, p, varint(v as nat)),
    ensures
        u32_at(b, p) == Some((v, p + varint(v as nat).len())),
{
    reveal(u32_at);
    lemma_skip_holds(b, p, varint(v as nat));
    crate::wire_read::lemma_varint_u32_read(v, b.skip(p + varint(v as nat).len()));
}

pub(crate) proof fn lemma_i64_at(b: Seq<u8>, p: int, v: i64)
    requires
        holds_at(b, p, varint(zigzag(v as int))),
    ensures
        i64_at(b, p) == Some((v, p + varint(zigzag(v as int)).len())),
{
    reveal(i64_at);
    let z = zigzag(v as int);
    assert(z <= u64::MAX);
    lemma_skip_holds(b, p, varint(z));
    crate::wire_read::lemma_varint_u64_read(z as u64, b.skip(p + varint(z).len()));
    assert(unzigzag(z) == v);
}

pub(crate) proof fn lemma_str_at(b: Seq<u8>, p: int, s: Seq<char>)
    requires
        holds_at(b, p, wire_str_spec(s)),
        b.len() <= u64::MAX,
    ensures
        str_at(b, p) == Some((s, p + wire_str_spec(s).len())),
{
    reveal(str_at);
    lemma_skip_holds(b, p, wire_str_spec(s));
    crate::wire_read::lemma_str_read(s, b.skip(p + wire_str_spec(s).len()));
}

pub(crate) proof fn lemma_bytes_at(b: Seq<u8>, p: int, v: Seq<u8>)
    requires
        holds_at(b, p, wire_bytes_spec(v)),
        b.len() <= u64::MAX,
    ensures
        bytes_at(b, p) == Some((v, p + wire_bytes_spec(v).len())),
{
    reveal(bytes_at);
    lemma_skip_holds(b, p, wire_bytes_spec(v));
    crate::wire_read::lemma_bytes_read(v, b.skip(p + wire_bytes_spec(v).len()));
}

pub(crate) proof fn lemma_opt_u64_at(b: Seq<u8>, p: int, v: Option<u64>)
    requires
        holds_at(b, p, wire_opt_u64_spec(v)),
    ensures
        opt_u64_at(b, p) == Some((v, p + wire_opt_u64_spec(v).len())),
{
    assert(b[p] == b.subrange(p, p + wire_opt_u64_spec(v).len())[0]);
    match v {
        Some(x) => {
            lemma_holds_split(b, p, seq![1u8], varint(x as nat));
            lemma_u64_at(b, p + 1, x);
        },
        None => {},
    }
}

pub(crate) proof fn lemma_opt_i64_at(b: Seq<u8>, p: int, v: Option<i64>)
    requires
        holds_at(b, p, wire_opt_i64_spec(v)),
    ensures
        opt_i64_at(b, p) == Some((v, p + wire_opt_i64_spec(v).len())),
{
    assert(b[p] == b.subrange(p, p + wire_opt_i64_spec(v).len())[0]);
    match v {
        Some(x) => {
            lemma_holds_split(b, p, seq![1u8], varint(zigzag(x as int)));
            lemma_i64_at(b, p + 1, x);
        },
        None => {},
    }
}

pub(crate) proof fn lemma_opt_str_at(b: Seq<u8>, p: int, v: Option<Seq<char>>)
    requires
        holds_at(b, p, wire_opt_str_spec(v)),
        b.len() <= u64::MAX,
    ensures
        opt_str_at(b, p) == Some((v, p + wire_opt_str_spec(v).len())),
{
    assert(b[p] == b.subrange(p, p + wire_opt_str_spec(v).len())[0]);
    match v {
        Some(x) => {
            lemma_holds_split(b, p, seq![1u8], wire_str_spec(x));
            lemma_str_at(b, p + 1, x);
        },
        None => {},
    }
}

proof fn lemma_fence_at(b: Seq<u8>, p: int, f: CommandFenceV5)
    requires
        holds_at(b, p, wire_fence_spec(f)),
        b.len() <= u64::MAX,
    ensures
        fence_at(b, p) == Some((f@, p + wire_fence_spec(f).len())),
{
    reveal(fence_at);
    let w1 = wire_str_spec(f.continuation_id@);
    let w2 = varint(f.continuation_generation as nat);
    let w3 = varint(f.expected_broker_revision as nat);
    lemma_holds_split(b, p, w1 + w2, w3);
    lemma_holds_split(b, p, w1, w2);
    lemma_str_at(b, p, f.continuation_id@);
    lemma_u64_at(b, p + w1.len(), f.continuation_generation);
    lemma_u64_at(b, p + w1.len() + w2.len(), f.expected_broker_revision);
}

pub open spec fn place_head_model(o: PlaceOrderV5) -> PlaceHeadModel {
    PlaceHeadModel {
        command_id: o.command_id@,
        fence: o.fence@,
        market_id: o.market_id@,
        action: o.action,
        side: o.side,
        order_type: o.order_type,
        quantity: o.quantity_hundredths,
    }
}

pub open spec fn place_tail_model(o: PlaceOrderV5) -> PlaceTailModel {
    PlaceTailModel {
        limit_price_micros: o.limit_price_micros,
        market_price_cap_micros: o.market_price_cap_micros,
        expires_after_ms: o.expires_after_ms,
        reduce_only: o.reduce_only,
        provider_client_id: o.provider_client_id@,
        signal_type: opt_view(o.signal_type),
        signal_metadata: opt_view(o.signal_metadata),
        metadata: o.metadata@,
    }
}

proof fn lemma_place_head_at(b: Seq<u8>, p: int, o: PlaceOrderV5)
    requires
        holds_at(b, p, wire_place_head_spec(o, o.quantity_hundredths)),
        b.len() <= u64::MAX,
    ensures
        place_head_at(b, p) == Some(
            (place_head_model(o), p + wire_place_head_spec(o, o.quantity_hundredths).len()),
        ),
{
    reveal(place_head_at);
    let h1 = wire_str_spec(o.command_id@);
    let h2 = wire_fence_spec(o.fence);
    let h3 = wire_str_spec(o.market_id@);
    let h4 = varint(action_v5_index(o.action));
    let h5 = varint(side_v5_index(o.side));
    let h6 = varint(order_type_index(o.order_type));
    let h7 = varint(o.quantity_hundredths as nat);
    assert(wire_place_head_spec(o, o.quantity_hundredths) =~= h1 + h2 + h3 + h4 + h5 + h6 + h7);
    lemma_holds_split(b, p, h1 + h2 + h3 + h4 + h5 + h6, h7);
    lemma_holds_split(b, p, h1 + h2 + h3 + h4 + h5, h6);
    lemma_holds_split(b, p, h1 + h2 + h3 + h4, h5);
    lemma_holds_split(b, p, h1 + h2 + h3, h4);
    lemma_holds_split(b, p, h1 + h2, h3);
    lemma_holds_split(b, p, h1, h2);
    let q1 = p + h1.len();
    let q2 = q1 + h2.len();
    let q3 = q2 + h3.len();
    let q4 = q3 + h4.len();
    let q5 = q4 + h5.len();
    let q6 = q5 + h6.len();
    lemma_str_at(b, p, o.command_id@);
    lemma_fence_at(b, q1, o.fence);
    lemma_str_at(b, q2, o.market_id@);
    lemma_u32_at(b, q3, action_v5_index(o.action) as u32);
    lemma_u32_at(b, q4, side_v5_index(o.side) as u32);
    lemma_u32_at(b, q5, order_type_index(o.order_type) as u32);
    lemma_u64_at(b, q6, o.quantity_hundredths);
    assert(action_at(b, q3) == Some((o.action, q4)));
    assert(side_at(b, q4) == Some((o.side, q5)));
    assert(order_type_at(b, q5) == Some((o.order_type, q6)));
}

proof fn lemma_place_tail_at(b: Seq<u8>, p: int, o: PlaceOrderV5)
    requires
        holds_at(b, p, wire_place_tail_spec(o)),
        b.len() <= u64::MAX,
    ensures
        place_tail_at(b, p) == Some((place_tail_model(o), p + wire_place_tail_spec(o).len())),
{
    reveal(place_tail_at);
    let t1 = wire_opt_u64_spec(o.limit_price_micros);
    let t2 = wire_opt_u64_spec(o.market_price_cap_micros);
    let t3 = wire_opt_i64_spec(o.expires_after_ms);
    let t4 = wire_bool_spec(o.reduce_only);
    let t5 = wire_str_spec(o.provider_client_id@);
    let t6 = wire_opt_str_spec(opt_view(o.signal_type));
    let t7 = wire_opt_str_spec(opt_view(o.signal_metadata));
    let t8 = wire_bytes_spec(o.metadata@);
    assert(wire_place_tail_spec(o) =~= t1 + t2 + t3 + t4 + t5 + t6 + t7 + t8);
    lemma_holds_split(b, p, t1 + t2 + t3 + t4 + t5 + t6 + t7, t8);
    lemma_holds_split(b, p, t1 + t2 + t3 + t4 + t5 + t6, t7);
    lemma_holds_split(b, p, t1 + t2 + t3 + t4 + t5, t6);
    lemma_holds_split(b, p, t1 + t2 + t3 + t4, t5);
    lemma_holds_split(b, p, t1 + t2 + t3, t4);
    lemma_holds_split(b, p, t1 + t2, t3);
    lemma_holds_split(b, p, t1, t2);
    let r1 = p + t1.len();
    let r2 = r1 + t2.len();
    let r3 = r2 + t3.len();
    let r4 = r3 + t4.len();
    let r5 = r4 + t5.len();
    let r6 = r5 + t6.len();
    let r7 = r6 + t7.len();
    lemma_opt_u64_at(b, p, o.limit_price_micros);
    lemma_opt_u64_at(b, r1, o.market_price_cap_micros);
    lemma_opt_i64_at(b, r2, o.expires_after_ms);
    assert(b[r3] == b.subrange(r3, r3 + t4.len())[0]);
    assert(bool_at(b, r3) == Some((o.reduce_only, r4)));
    lemma_str_at(b, r4, o.provider_client_id@);
    lemma_opt_str_at(b, r5, opt_view(o.signal_type));
    lemma_opt_str_at(b, r6, opt_view(o.signal_metadata));
    lemma_bytes_at(b, r7, o.metadata@);
}

proof fn lemma_place_at(b: Seq<u8>, p: int, o: PlaceOrderV5)
    requires
        holds_at(b, p, wire_place_spec(o, o.quantity_hundredths)),
        b.len() <= u64::MAX,
    ensures
        place_at(b, p) == Some((o@, p + wire_place_spec(o, o.quantity_hundredths).len())),
{
    let head = wire_place_head_spec(o, o.quantity_hundredths);
    let tail = wire_place_tail_spec(o);
    lemma_holds_split(b, p, head, tail);
    lemma_place_head_at(b, p, o);
    lemma_place_tail_at(b, p + head.len(), o);
    assert(place_of(place_head_model(o), place_tail_model(o)) == o@);
}

proof fn lemma_cancel_order_at(b: Seq<u8>, p: int, c: StrategyCommandV5)
    requires
        c is CancelOrder,
        holds_at(b, p, wire_current_command_spec(c)),
        b.len() <= u64::MAX,
    ensures
        command_at(b, p) == Some((c@, p + wire_current_command_spec(c).len())),
{
    reveal(command_fields_at);
    match c {
        StrategyCommandV5::CancelOrder { command_id, fence, order_id, expected_order_revision } => {
        let w1 = wire_str_spec(command_id@);
        let w2 = wire_fence_spec(fence);
        let w3 = wire_str_spec(order_id@);
        let w4 = varint(expected_order_revision as nat);
        assert(wire_current_command_spec(c) =~= varint(1) + (w1 + w2 + w3 + w4));
        lemma_holds_split(b, p, varint(1), w1 + w2 + w3 + w4);
        lemma_u32_at(b, p, 1);
        let q = p + 1;
        lemma_holds_split(b, q, w1 + w2 + w3, w4);
        lemma_holds_split(b, q, w1 + w2, w3);
        lemma_holds_split(b, q, w1, w2);
        lemma_str_at(b, q, command_id@);
        lemma_fence_at(b, q + w1.len(), fence);
        lemma_str_at(b, q + w1.len() + w2.len(), order_id@);
        lemma_u64_at(b, q + w1.len() + w2.len() + w3.len(), expected_order_revision);
        },
        _ => {},
    }
}

proof fn lemma_cancel_all_at(b: Seq<u8>, p: int, c: StrategyCommandV5)
    requires
        c is CancelAllOrders,
        holds_at(b, p, wire_current_command_spec(c)),
        b.len() <= u64::MAX,
    ensures
        command_at(b, p) == Some((c@, p + wire_current_command_spec(c).len())),
{
    reveal(command_fields_at);
    match c {
        StrategyCommandV5::CancelAllOrders { command_id, fence } => {
        let w1 = wire_str_spec(command_id@);
        let w2 = wire_fence_spec(fence);
        assert(wire_current_command_spec(c) =~= varint(2) + (w1 + w2));
        lemma_holds_split(b, p, varint(2), w1 + w2);
        lemma_u32_at(b, p, 2);
        let q = p + 1;
        lemma_holds_split(b, q, w1, w2);
        lemma_str_at(b, q, command_id@);
        lemma_fence_at(b, q + w1.len(), fence);
        },
        _ => {},
    }
}

proof fn lemma_schedule_timer_at(b: Seq<u8>, p: int, c: StrategyCommandV5)
    requires
        c is ScheduleTimer,
        holds_at(b, p, wire_current_command_spec(c)),
        b.len() <= u64::MAX,
    ensures
        command_at(b, p) == Some((c@, p + wire_current_command_spec(c).len())),
{
    reveal(command_fields_at);
    match c {
        StrategyCommandV5::ScheduleTimer {
        command_id,
        key,
        scheduled_at_epoch_ns,
        generation,
        semantics,
    } => {
        let w1 = wire_str_spec(command_id@);
        let w2 = wire_str_spec(key@);
        let w3 = varint(scheduled_at_epoch_ns as nat);
        let w4 = wire_str_spec(generation@);
        let w5 = wire_bytes_spec(semantics@);
        assert(wire_current_command_spec(c) =~= varint(3) + (w1 + w2 + w3 + w4 + w5));
        lemma_holds_split(b, p, varint(3), w1 + w2 + w3 + w4 + w5);
        lemma_u32_at(b, p, 3);
        let q = p + 1;
        lemma_holds_split(b, q, w1 + w2 + w3 + w4, w5);
        lemma_holds_split(b, q, w1 + w2 + w3, w4);
        lemma_holds_split(b, q, w1 + w2, w3);
        lemma_holds_split(b, q, w1, w2);
        lemma_str_at(b, q, command_id@);
        lemma_str_at(b, q + w1.len(), key@);
        lemma_u64_at(b, q + w1.len() + w2.len(), scheduled_at_epoch_ns);
        lemma_str_at(b, q + w1.len() + w2.len() + w3.len(), generation@);
        lemma_bytes_at(b, q + w1.len() + w2.len() + w3.len() + w4.len(), semantics@);
        },
        _ => {},
    }
}

proof fn lemma_cancel_timer_at(b: Seq<u8>, p: int, c: StrategyCommandV5)
    requires
        c is CancelTimer,
        holds_at(b, p, wire_current_command_spec(c)),
        b.len() <= u64::MAX,
    ensures
        command_at(b, p) == Some((c@, p + wire_current_command_spec(c).len())),
{
    reveal(command_fields_at);
    match c {
        StrategyCommandV5::CancelTimer { command_id, key, generation } => {
        let w1 = wire_str_spec(command_id@);
        let w2 = wire_str_spec(key@);
        let w3 = wire_str_spec(generation@);
        assert(wire_current_command_spec(c) =~= varint(4) + (w1 + w2 + w3));
        lemma_holds_split(b, p, varint(4), w1 + w2 + w3);
        lemma_u32_at(b, p, 4);
        let q = p + 1;
        lemma_holds_split(b, q, w1 + w2, w3);
        lemma_holds_split(b, q, w1, w2);
        lemma_str_at(b, q, command_id@);
        lemma_str_at(b, q + w1.len(), key@);
        lemma_str_at(b, q + w1.len() + w2.len(), generation@);
        },
        _ => {},
    }
}

proof fn lemma_stop_at(b: Seq<u8>, p: int, c: StrategyCommandV5)
    requires
        c is Stop,
        holds_at(b, p, wire_current_command_spec(c)),
        b.len() <= u64::MAX,
    ensures
        command_at(b, p) == Some((c@, p + wire_current_command_spec(c).len())),
{
    reveal(command_fields_at);
    match c {
        StrategyCommandV5::Stop { command_id, reason } => {
        let w1 = wire_str_spec(command_id@);
        let w2 = wire_str_spec(reason@);
        assert(wire_current_command_spec(c) =~= varint(5) + (w1 + w2));
        lemma_holds_split(b, p, varint(5), w1 + w2);
        lemma_u32_at(b, p, 5);
        let q = p + 1;
        lemma_holds_split(b, q, w1, w2);
        lemma_str_at(b, q, command_id@);
        lemma_str_at(b, q + w1.len(), reason@);
        },
        _ => {},
    }
}

proof fn lemma_command_at(b: Seq<u8>, p: int, c: StrategyCommandV5)
    requires
        holds_at(b, p, wire_current_command_spec(c)),
        b.len() <= u64::MAX,
    ensures
        command_at(b, p) == Some((c@, p + wire_current_command_spec(c).len())),
{
    match c {
        StrategyCommandV5::PlaceOrder(o) => {
            reveal(command_fields_at);
            lemma_holds_split(b, p, varint(0), wire_place_spec(o, o.quantity_hundredths));
            lemma_u32_at(b, p, 0);
            lemma_place_at(b, p + 1, o);
        },
        StrategyCommandV5::CancelOrder { .. } => lemma_cancel_order_at(b, p, c),
        StrategyCommandV5::CancelAllOrders { .. } => lemma_cancel_all_at(b, p, c),
        StrategyCommandV5::ScheduleTimer { .. } => lemma_schedule_timer_at(b, p, c),
        StrategyCommandV5::CancelTimer { .. } => lemma_cancel_timer_at(b, p, c),
        StrategyCommandV5::Stop { .. } => lemma_stop_at(b, p, c),
    }
}

proof fn lemma_checkpoint_at(b: Seq<u8>, p: int, c: KernelCheckpointV5)
    requires
        holds_at(b, p, wire_checkpoint_v5_spec(c)),
        b.len() <= u64::MAX,
    ensures
        checkpoint_at(b, p) == Some((c@, p + wire_checkpoint_v5_spec(c).len())),
{
    reveal(checkpoint_at);
    let w1 = wire_str_spec(c.codec_profile@);
    let w2 = varint(c.codec_version as nat);
    let w3 = wire_str_spec(c.strategy_id@);
    let w4 = wire_str_spec(c.strategy_profile@);
    let w5 = wire_str_spec(c.profile_and_calculator_digest@);
    let w6 = varint(c.sequence as nat);
    let w7 = wire_bytes_spec(c.state@);
    let w8 = c.state_sha256@;
    assert(wire_checkpoint_v5_spec(c) =~= w1 + w2 + w3 + w4 + w5 + w6 + w7 + w8);
    lemma_holds_split(b, p, w1 + w2 + w3 + w4 + w5 + w6 + w7, w8);
    lemma_holds_split(b, p, w1 + w2 + w3 + w4 + w5 + w6, w7);
    lemma_holds_split(b, p, w1 + w2 + w3 + w4 + w5, w6);
    lemma_holds_split(b, p, w1 + w2 + w3 + w4, w5);
    lemma_holds_split(b, p, w1 + w2 + w3, w4);
    lemma_holds_split(b, p, w1 + w2, w3);
    lemma_holds_split(b, p, w1, w2);
    let q1 = p + w1.len();
    let q2 = q1 + w2.len();
    let q3 = q2 + w3.len();
    let q4 = q3 + w4.len();
    let q5 = q4 + w5.len();
    let q6 = q5 + w6.len();
    let q7 = q6 + w7.len();
    lemma_str_at(b, p, c.codec_profile@);
    lemma_u32_at(b, q1, c.codec_version);
    lemma_str_at(b, q2, c.strategy_id@);
    lemma_str_at(b, q3, c.strategy_profile@);
    lemma_str_at(b, q4, c.profile_and_calculator_digest@);
    lemma_u64_at(b, q5, c.sequence);
    lemma_bytes_at(b, q6, c.state@);
    assert(array32_at(b, q7) == Some((w8, q7 + 32)));
}

proof fn lemma_opt_checkpoint_at(b: Seq<u8>, p: int, c: Option<KernelCheckpointV5>)
    requires
        holds_at(b, p, wire_opt_checkpoint_v5_spec(c)),
        b.len() <= u64::MAX,
    ensures
        opt_checkpoint_at(b, p) == Some(
            (opt_checkpoint_model(c), p + wire_opt_checkpoint_v5_spec(c).len()),
        ),
{
    assert(b[p] == b.subrange(p, p + wire_opt_checkpoint_v5_spec(c).len())[0]);
    match c {
        Some(x) => {
            lemma_holds_split(b, p, seq![1u8], wire_checkpoint_v5_spec(x));
            lemma_checkpoint_at(b, p + 1, x);
        },
        None => {},
    }
}

proof fn lemma_disposition_at(b: Seq<u8>, p: int, d: DecisionDispositionV5)
    requires
        holds_at(b, p, wire_disposition_v5_spec(d)),
        b.len() <= u64::MAX,
    ensures
        disposition_at(b, p) == Some((d@, p + wire_disposition_v5_spec(d).len())),
{
    reveal(disposition_at);
    match d {
        DecisionDispositionV5::Completed => {
            lemma_u32_at(b, p, 0);
        },
        DecisionDispositionV5::AwaitingBrokerOutcome {
            continuation_id,
            continuation_generation,
            awaited_command_id,
        } => {
            let w1 = wire_str_spec(continuation_id@);
            let w2 = varint(continuation_generation as nat);
            let w3 = wire_str_spec(awaited_command_id@);
            assert(wire_disposition_v5_spec(d) =~= varint(1) + (w1 + w2 + w3));
            lemma_holds_split(b, p, varint(1), w1 + w2 + w3);
            lemma_u32_at(b, p, 1);
            let q = p + 1;
            lemma_holds_split(b, q, w1 + w2, w3);
            lemma_holds_split(b, q, w1, w2);
            lemma_str_at(b, q, continuation_id@);
            lemma_u64_at(b, q + w1.len(), continuation_generation);
            lemma_str_at(b, q + w1.len() + w2.len(), awaited_command_id@);
        },
        DecisionDispositionV5::Rejected => {
            lemma_u32_at(b, p, 2);
        },
    }
}

proof fn lemma_evidence_at(b: Seq<u8>, p: int, e: ResultEvidenceV5)
    requires
        holds_at(b, p, wire_evidence_v5_spec(e)),
        b.len() <= u64::MAX,
    ensures
        evidence_at(b, p) == Some((e@, p + wire_evidence_v5_spec(e).len())),
{
    reveal(evidence_at);
    let w1 = wire_str_spec(e.code@);
    let w2 = wire_bytes_spec(e.payload@);
    lemma_holds_split(b, p, w1, w2);
    lemma_str_at(b, p, e.code@);
    lemma_bytes_at(b, p + w1.len(), e.payload@);
}

proof fn lemma_diagnostic_at(b: Seq<u8>, p: int, d: ResultDiagnosticV5)
    requires
        holds_at(b, p, wire_diagnostic_v5_spec(d)),
        b.len() <= u64::MAX,
    ensures
        diagnostic_at(b, p) == Some((d@, p + wire_diagnostic_v5_spec(d).len())),
{
    reveal(diagnostic_at);
    let w1 = wire_str_spec(d.severity@);
    let w2 = wire_str_spec(d.code@);
    let w3 = wire_str_spec(d.message@);
    lemma_holds_split(b, p, w1 + w2, w3);
    lemma_holds_split(b, p, w1, w2);
    lemma_str_at(b, p, d.severity@);
    lemma_str_at(b, p + w1.len(), d.code@);
    lemma_str_at(b, p + w1.len() + w2.len(), d.message@);
}

/// Reading the items of a list written item by item gives the models of the items, provided
/// each item is read back as its model.
pub(crate) proof fn lemma_items_at<T, M>(
    b: Seq<u8>,
    p: int,
    s: Seq<T>,
    enc: spec_fn(T) -> Seq<u8>,
    view: spec_fn(T) -> M,
    read: spec_fn(Seq<u8>, int) -> Option<(M, int)>,
)
    requires
        holds_at(b, p, wire_items(s, enc)),
        forall|i: int, q: int|
            0 <= i < s.len() && #[trigger] holds_at(b, q, enc(s[i])) ==> read(b, q) == Some(
                (view(s[i]), q + enc(s[i]).len()),
            ),
    ensures
        items_at(b, p, s.len(), read) == Some(
            (s.map_values(view), p + wire_items(s, enc).len()),
        ),
    decreases s.len(),
{
    if s.len() > 0 {
        let init = s.drop_last();
        let last = s.last();
        assert(wire_items(s, enc) == wire_items(init, enc) + enc(last));
        lemma_holds_split(b, p, wire_items(init, enc), enc(last));
        assert forall|i: int, q: int|
            0 <= i < init.len() && #[trigger] holds_at(b, q, enc(init[i])) implies read(b, q)
            == Some((view(init[i]), q + enc(init[i]).len())) by {
            assert(init[i] == s[i]);
            assert(holds_at(b, q, enc(s[i])));
        }
        lemma_items_at(b, p, init, enc, view, read);
        let q = p + wire_items(init, enc).len();
        assert(holds_at(b, q, enc(s[s.len() - 1])));
        assert(init.len() == (s.len() - 1) as nat);
        assert(s.map_values(view) =~= init.map_values(view).push(view(last)));
    } else {
        assert(s.map_values(view) =~= Seq::<M>::empty());
    }
}

pub(crate) proof fn lemma_items_len<T>(s: Seq<T>, enc: spec_fn(T) -> Seq<u8>)
    requires
        forall|x: T| #[trigger] enc(x).len() >= 1,
    ensures
        wire_items(s, enc).len() >= s.len(),
    decreases s.len(),
{
    if s.len() > 0 {
        lemma_items_len(s.drop_last(), enc);
        assert(enc(s.last()).len() >= 1);
    }
}

pub(crate) proof fn lemma_list_at<T, M>(
    b: Seq<u8>,
    p: int,
    s: Seq<T>,
    enc: spec_fn(T) -> Seq<u8>,
    view: spec_fn(T) -> M,
    read: spec_fn(Seq<u8>, int) -> Option<(M, int)>,
)
    requires
        holds_at(b, p, wire_list(s, enc)),
        b.len() <= u64::MAX,
        forall|x: T| #[trigger] enc(x).len() >= 1,
        forall|i: int, q: int|
            0 <= i < s.len() && #[trigger] holds_at(b, q, enc(s[i])) ==> read(b, q) == Some(
                (view(s[i]), q + enc(s[i]).len()),
            ),
    ensures
        list_at(b, p, read) == Some((s.map_values(view), p + wire_list(s, enc).len())),
{
    let head = varint(s.len());
    lemma_holds_split(b, p, head, wire_items(s, enc));
    lemma_items_len(s, enc);
    lemma_u64_at(b, p, s.len() as u64);
    lemma_items_at(b, p + head.len(), s, enc, view, read);
}

/// Reading the payload of an encoded result gives the model of the result.
pub proof fn lemma_result_at(b: Seq<u8>, p: int, r: DecisionResultV5)
    requires
        holds_at(b, p, wire_result_v5_spec(r)),
        b.len() <= u64::MAX,
    ensures
        result_at(b, p) == Some((r@, p + wire_result_v5_spec(r).len())),
{
    reveal(result_at);
    let w1 = wire_str_spec(r.delivery_id@);
    let w2 = wire_str_spec(r.sleeve_identity@);
    let w3 = wire_str_spec(r.state_fence@);
    let w4 = varint(r.expected_broker_revision as nat);
    let w5 = wire_disposition_v5_spec(r.disposition);
    let w6 = wire_opt_checkpoint_v5_spec(r.kernel_checkpoint);
    let w7 = wire_list(r.commands@, command_encoder());
    let w8 = wire_list(r.evidence@, evidence_encoder());
    let w9 = wire_list(r.diagnostics@, diagnostic_encoder());
    assert(wire_result_v5_spec(r) =~= w1 + w2 + w3 + w4 + w5 + w6 + w7 + w8 + w9);
    lemma_holds_split(b, p, w1 + w2 + w3 + w4 + w5 + w6 + w7 + w8, w9);
    lemma_holds_split(b, p, w1 + w2 + w3 + w4 + w5 + w6 + w7, w8);
    lemma_holds_split(b, p, w1 + w2 + w3 + w4 + w5 + w6, w7);
    lemma_holds_split(b, p, w1 + w2 + w3 + w4 + w5, w6);
    lemma_holds_split(b, p, w1 + w2 + w3 + w4, w5);
    lemma_holds_split(b, p, w1 + w2 + w3, w4);
    lemma_holds_split(b, p, w1 + w2, w3);
    lemma_holds_split(b, p, w1, w2);
    let q1 = p + w1.len();
    let q2 = q1 + w2.len();
    let q3 = q2 + w3.len();
    let q4 = q3 + w4.len();
    let q5 = q4 + w5.len();
    let q6 = q5 + w6.len();
    let q7 = q6 + w7.len();
    let q8 = q7 + w8.len();
    lemma_str_at(b, p, r.delivery_id@);
    lemma_str_at(b, q1, r.sleeve_identity@);
    lemma_str_at(b, q2, r.state_fence@);
    lemma_u64_at(b, q3, r.expected_broker_revision);
    lemma_disposition_at(b, q4, r.disposition);
    lemma_opt_checkpoint_at(b, q5, r.kernel_checkpoint);
    lemma_commands_at(b, q6, r);
    lemma_evidence_list_at(b, q7, r);
    lemma_diagnostics_at(b, q8, r);
}

proof fn lemma_commands_at(b: Seq<u8>, p: int, r: DecisionResultV5)
    requires
        holds_at(b, p, wire_list(r.commands@, command_encoder())),
        b.len() <= u64::MAX,
    ensures
        list_at(b, p, command_reader()) == Some(
            (r.commands@.map_values(command_viewer()), p + wire_list(r.commands@, command_encoder()).len()),
        ),
{
    let cs = r.commands@;
    assert forall|x: StrategyCommandV5| #[trigger] command_encoder()(x).len() >= 1 by {
        assert(wire_current_command_spec(x).len() >= 1);
    }
    assert forall|i: int, q: int|
        0 <= i < cs.len() && #[trigger] holds_at(b, q, command_encoder()(cs[i])) implies command_reader()(
        b,
        q,
    ) == Some((command_viewer()(cs[i]), q + command_encoder()(cs[i]).len())) by {
        lemma_command_at(b, q, cs[i]);
    }
    lemma_list_at(b, p, cs, command_encoder(), command_viewer(), command_reader());
}

proof fn lemma_evidence_list_at(b: Seq<u8>, p: int, r: DecisionResultV5)
    requires
        holds_at(b, p, wire_list(r.evidence@, evidence_encoder())),
        b.len() <= u64::MAX,
    ensures
        list_at(b, p, evidence_reader()) == Some(
            (r.evidence@.map_values(evidence_viewer()), p + wire_list(r.evidence@, evidence_encoder()).len()),
        ),
{
    let es = r.evidence@;
    assert forall|i: int, q: int|
        0 <= i < es.len() && #[trigger] holds_at(b, q, evidence_encoder()(es[i])) implies evidence_reader()(
        b,
        q,
    ) == Some((evidence_viewer()(es[i]), q + evidence_encoder()(es[i]).len())) by {
        lemma_evidence_at(b, q, es[i]);
    }
    lemma_list_at(b, p, es, evidence_encoder(), evidence_viewer(), evidence_reader());
}

proof fn lemma_diagnostics_at(b: Seq<u8>, p: int, r: DecisionResultV5)
    requires
        holds_at(b, p, wire_list(r.diagnostics@, diagnostic_encoder())),
        b.len() <= u64::MAX,
    ensures
        list_at(b, p, diagnostic_reader()) == Some(
            (r.diagnostics@.map_values(diagnostic_viewer()), p + wire_list(r.diagnostics@, diagnostic_encoder()).len()),
        ),
{
    let ds = r.diagnostics@;
    assert forall|i: int, q: int|
        0 <= i < ds.len() && #[trigger] holds_at(b, q, diagnostic_encoder()(ds[i])) implies diagnostic_reader()(
        b,
        q,
    ) == Some((diagnostic_viewer()(ds[i]), q + diagnostic_encoder()(ds[i]).len())) by {
        lemma_diagnostic_at(b, q, ds[i]);
    }
    lemma_list_at(b, p, ds, diagnostic_encoder(), diagnostic_viewer(), diagnostic_reader());
}

// ---------------------------------------------------------------------------------------------
// Reading, executably
// ---------------------------------------------------------------------------------------------

/// Once a list stops reading, no longer list reads.
pub(crate) proof fn lemma_items_stop<M>(
    b: Seq<u8>,
    p: int,
    k: nat,
    n: nat,
    read: spec_fn(Seq<u8>, int) -> Option<(M, int)>,
)
    requires
        k <= n,
        items_at(b, p, k, read) is None,
    ensures
        items_at(b, p, n, read) is None,
    decreases n - k,
{
    if k < n {
        lemma_items_stop(b, p, k, (n - 1) as nat, read);
    }
}

pub(crate) fn take_u64(b: &[u8], pos: usize) -> (r: Option<(u64, usize)>)
    requires
        pos <= b@.len(),
    ensures
        match u64_at(b@, pos as int) {
            Some((v, e)) => r matches Some((x, end)) && x == v && end == e,
            None => r is None,
        },
        r matches Some((_, end)) ==> pos < end <= b@.len(),
{
    proof {
        reveal(u64_at);
    }
    let total: usize = b.len();
    let (_, rest) = b.split_at(pos);
    assert(rest@ =~= b@.skip(pos as int));
    proof {
        lemma_varint_read_bounds(rest@);
    }
    match read_u64(rest) {
        Some((v, n)) => Some((v, pos + n)),
        None => None,
    }
}

pub(crate) fn take_u32(b: &[u8], pos: usize) -> (r: Option<(u32, usize)>)
    requires
        pos <= b@.len(),
    ensures
        match u32_at(b@, pos as int) {
            Some((v, e)) => r matches Some((x, end)) && x == v && end == e,
            None => r is None,
        },
        r matches Some((_, end)) ==> pos < end <= b@.len(),
{
    proof {
        reveal(u32_at);
    }
    let total: usize = b.len();
    let (_, rest) = b.split_at(pos);
    assert(rest@ =~= b@.skip(pos as int));
    proof {
        lemma_varint_read_bounds(rest@);
    }
    match read_u32(rest) {
        Some((v, n)) => Some((v, pos + n)),
        None => None,
    }
}

pub(crate) fn take_i64(b: &[u8], pos: usize) -> (r: Option<(i64, usize)>)
    requires
        pos <= b@.len(),
    ensures
        match i64_at(b@, pos as int) {
            Some((v, e)) => r matches Some((x, end)) && x == v && end == e,
            None => r is None,
        },
        r matches Some((_, end)) ==> pos < end <= b@.len(),
{
    proof {
        reveal(i64_at);
    }
    let total: usize = b.len();
    let (_, rest) = b.split_at(pos);
    assert(rest@ =~= b@.skip(pos as int));
    proof {
        lemma_varint_read_bounds(rest@);
    }
    match read_i64(rest) {
        Some((v, n)) => Some((v, pos + n)),
        None => None,
    }
}

pub(crate) fn take_u8(b: &[u8], pos: usize) -> (r: Option<(u8, usize)>)
    requires
        pos <= b@.len(),
    ensures
        match u8_at(b@, pos as int) {
            Some((v, e)) => r matches Some((x, end)) && x == v && end == e,
            None => r is None,
        },
        r matches Some((_, end)) ==> pos < end <= b@.len(),
{
    if pos < b.len() {
        Some((b[pos], pos + 1))
    } else {
        None
    }
}

pub(crate) fn take_bool(b: &[u8], pos: usize) -> (r: Option<(bool, usize)>)
    requires
        pos <= b@.len(),
    ensures
        match bool_at(b@, pos as int) {
            Some((v, e)) => r matches Some((x, end)) && x == v && end == e,
            None => r is None,
        },
        r matches Some((_, end)) ==> pos < end <= b@.len(),
{
    match take_u8(b, pos) {
        Some((0, e)) => Some((false, e)),
        Some((1, e)) => Some((true, e)),
        _ => None,
    }
}

pub(crate) fn take_str(b: &[u8], pos: usize) -> (r: Option<(String, usize)>)
    requires
        pos <= b@.len(),
    ensures
        match str_at(b@, pos as int) {
            Some((s, e)) => r matches Some((v, end)) && v@ == s && end == e,
            None => r is None,
        },
        r matches Some((_, end)) ==> pos < end <= b@.len(),
{
    proof {
        reveal(str_at);
    }
    let total: usize = b.len();
    let (_, rest) = b.split_at(pos);
    assert(rest@ =~= b@.skip(pos as int));
    proof {
        lemma_varint_read_bounds(rest@);
    }
    match read_u64(rest) {
        Some((len, k)) => {
            if ((rest.len() - k) as u64) < len {
                return None;
            }
        },
        None => {
            return None;
        },
    }
    match read_str(rest) {
        Some((s, n)) => Some((s, pos + n)),
        None => None,
    }
}

pub(crate) fn take_bytes(b: &[u8], pos: usize) -> (r: Option<(Vec<u8>, usize)>)
    requires
        pos <= b@.len(),
    ensures
        match bytes_at(b@, pos as int) {
            Some((s, e)) => r matches Some((v, end)) && v@ == s && end == e,
            None => r is None,
        },
        r matches Some((_, end)) ==> pos < end <= b@.len(),
{
    proof {
        reveal(bytes_at);
    }
    let total: usize = b.len();
    let (_, rest) = b.split_at(pos);
    assert(rest@ =~= b@.skip(pos as int));
    proof {
        lemma_varint_read_bounds(rest@);
    }
    match read_u64(rest) {
        Some((len, k)) => {
            if ((rest.len() - k) as u64) < len {
                return None;
            }
        },
        None => {
            return None;
        },
    }
    match read_bytes(rest) {
        Some((v, n)) => Some((v, pos + n)),
        None => None,
    }
}

pub(crate) fn take_array32(b: &[u8], pos: usize) -> (r: Option<([u8; 32], usize)>)
    requires
        pos <= b@.len(),
    ensures
        match array32_at(b@, pos as int) {
            Some((s, e)) => r matches Some((v, end)) && v@ == s && end == e,
            None => r is None,
        },
        r matches Some((_, end)) ==> pos < end <= b@.len(),
{
    if b.len() - pos < 32 {
        return None;
    }
    let mut out = [0u8; 32];
    let mut i: usize = 0;
    while i < 32
        invariant
            pos + 32 <= b@.len(),
            b@.len() <= usize::MAX,
            0 <= i <= 32,
            out@.len() == 32,
            forall|k: int| 0 <= k < i ==> out@[k] == b@[pos + k],
        decreases 32 - i,
    {
        out[i] = b[pos + i];
        i += 1;
    }
    assert(out@ =~= b@.subrange(pos as int, pos + 32));
    Some((out, pos + 32))
}

pub(crate) fn take_opt_u64(b: &[u8], pos: usize) -> (r: Option<(Option<u64>, usize)>)
    requires
        pos <= b@.len(),
    ensures
        match opt_u64_at(b@, pos as int) {
            Some((v, e)) => r matches Some((x, end)) && x == v && end == e,
            None => r is None,
        },
        r matches Some((_, end)) ==> pos < end <= b@.len(),
{
    match take_u8(b, pos) {
        Some((0, e)) => Some((None, e)),
        Some((1, e)) => match take_u64(b, e) {
            Some((v, e2)) => Some((Some(v), e2)),
            None => None,
        },
        _ => None,
    }
}

pub(crate) fn take_opt_i64(b: &[u8], pos: usize) -> (r: Option<(Option<i64>, usize)>)
    requires
        pos <= b@.len(),
    ensures
        match opt_i64_at(b@, pos as int) {
            Some((v, e)) => r matches Some((x, end)) && x == v && end == e,
            None => r is None,
        },
        r matches Some((_, end)) ==> pos < end <= b@.len(),
{
    match take_u8(b, pos) {
        Some((0, e)) => Some((None, e)),
        Some((1, e)) => match take_i64(b, e) {
            Some((v, e2)) => Some((Some(v), e2)),
            None => None,
        },
        _ => None,
    }
}

pub(crate) fn take_opt_str(b: &[u8], pos: usize) -> (r: Option<(Option<String>, usize)>)
    requires
        pos <= b@.len(),
    ensures
        match opt_str_at(b@, pos as int) {
            Some((v, e)) => r matches Some((s, end)) && opt_view(s) == v && end == e,
            None => r is None,
        },
        r matches Some((_, end)) ==> pos < end <= b@.len(),
{
    match take_u8(b, pos) {
        Some((0, e)) => Some((None, e)),
        Some((1, e)) => match take_str(b, e) {
            Some((v, e2)) => Some((Some(v), e2)),
            None => None,
        },
        _ => None,
    }
}

fn take_fence(b: &[u8], pos: usize) -> (r: Option<(CommandFenceV5, usize)>)
    requires
        pos <= b@.len(),
    ensures
        match fence_at(b@, pos as int) {
            Some((m, e)) => r matches Some((v, end)) && v@ == m && end == e,
            None => r is None,
        },
        r matches Some((_, end)) ==> pos < end <= b@.len(),
{
    proof {
        reveal(fence_at);
    }
    let (continuation_id, p1) = match take_str(b, pos) {
        Some(v) => v,
        None => return None,
    };
    let (continuation_generation, p2) = match take_u64(b, p1) {
        Some(v) => v,
        None => return None,
    };
    let (expected_broker_revision, p3) = match take_u64(b, p2) {
        Some(v) => v,
        None => return None,
    };
    Some((CommandFenceV5 { continuation_id, continuation_generation, expected_broker_revision }, p3))
}

fn take_action(b: &[u8], pos: usize) -> (r: Option<(OrderActionV5, usize)>)
    requires
        pos <= b@.len(),
    ensures
        match action_at(b@, pos as int) {
            Some((m, e)) => r matches Some((x, end)) && x == m && end == e,
            None => r is None,
        },
        r matches Some((_, end)) ==> pos < end <= b@.len(),
{
    match take_u32(b, pos) {
        Some((0, e)) => Some((OrderActionV5::Buy, e)),
        Some((1, e)) => Some((OrderActionV5::Sell, e)),
        _ => None,
    }
}

fn take_side(b: &[u8], pos: usize) -> (r: Option<(ContractSideV5, usize)>)
    requires
        pos <= b@.len(),
    ensures
        match side_at(b@, pos as int) {
            Some((m, e)) => r matches Some((x, end)) && x == m && end == e,
            None => r is None,
        },
        r matches Some((_, end)) ==> pos < end <= b@.len(),
{
    match take_u32(b, pos) {
        Some((0, e)) => Some((ContractSideV5::Yes, e)),
        Some((1, e)) => Some((ContractSideV5::No, e)),
        _ => None,
    }
}

fn take_order_type(b: &[u8], pos: usize) -> (r: Option<(OrderTypeV5, usize)>)
    requires
        pos <= b@.len(),
    ensures
        match order_type_at(b@, pos as int) {
            Some((m, e)) => r matches Some((x, end)) && x == m && end == e,
            None => r is None,
        },
        r matches Some((_, end)) ==> pos < end <= b@.len(),
{
    match take_u32(b, pos) {
        Some((0, e)) => Some((OrderTypeV5::Market, e)),
        Some((1, e)) => Some((OrderTypeV5::Limit, e)),
        _ => None,
    }
}

/// The fields of a place before its quantity, and its quantity.
fn take_place_head(b: &[u8], pos: usize) -> (r: Option<
    ((String, CommandFenceV5, String, OrderActionV5, ContractSideV5, OrderTypeV5, u64), usize),
>)
    requires
        pos <= b@.len(),
    ensures
        match place_head_at(b@, pos as int) {
            Some((m, e)) => r matches Some((v, end)) && v.0@ == m.command_id && v.1@ == m.fence
                && v.2@ == m.market_id && v.3 == m.action && v.4 == m.side && v.5 == m.order_type
                && v.6 == m.quantity && end == e,
            None => r is None,
        },
        r matches Some((_, end)) ==> pos < end <= b@.len(),
{
    proof {
        reveal(place_head_at);
    }
    let (command_id, p1) = match take_str(b, pos) {
        Some(v) => v,
        None => return None,
    };
    let (fence, p2) = match take_fence(b, p1) {
        Some(v) => v,
        None => return None,
    };
    let (market_id, p3) = match take_str(b, p2) {
        Some(v) => v,
        None => return None,
    };
    let (action, p4) = match take_action(b, p3) {
        Some(v) => v,
        None => return None,
    };
    let (side, p5) = match take_side(b, p4) {
        Some(v) => v,
        None => return None,
    };
    let (order_type, p6) = match take_order_type(b, p5) {
        Some(v) => v,
        None => return None,
    };
    let (quantity, p7) = match take_u64(b, p6) {
        Some(v) => v,
        None => return None,
    };
    Some(((command_id, fence, market_id, action, side, order_type, quantity), p7))
}

/// The fields of a place after its quantity.
fn take_place_tail(b: &[u8], pos: usize) -> (r: Option<
    (
        (Option<u64>, Option<u64>, Option<i64>, bool, String, Option<String>, Option<String>, Vec<u8>),
        usize,
    ),
>)
    requires
        pos <= b@.len(),
    ensures
        match place_tail_at(b@, pos as int) {
            Some((m, e)) => r matches Some((v, end)) && v.0 == m.limit_price_micros && v.1
                == m.market_price_cap_micros && v.2 == m.expires_after_ms && v.3 == m.reduce_only
                && v.4@ == m.provider_client_id && opt_view(v.5) == m.signal_type && opt_view(v.6)
                == m.signal_metadata && v.7@ == m.metadata && end == e,
            None => r is None,
        },
        r matches Some((_, end)) ==> pos < end <= b@.len(),
{
    proof {
        reveal(place_tail_at);
    }
    let (limit, p1) = match take_opt_u64(b, pos) {
        Some(v) => v,
        None => return None,
    };
    let (cap, p2) = match take_opt_u64(b, p1) {
        Some(v) => v,
        None => return None,
    };
    let (expires, p3) = match take_opt_i64(b, p2) {
        Some(v) => v,
        None => return None,
    };
    let (reduce_only, p4) = match take_bool(b, p3) {
        Some(v) => v,
        None => return None,
    };
    let (provider_client_id, p5) = match take_str(b, p4) {
        Some(v) => v,
        None => return None,
    };
    let (signal_type, p6) = match take_opt_str(b, p5) {
        Some(v) => v,
        None => return None,
    };
    let (signal_metadata, p7) = match take_opt_str(b, p6) {
        Some(v) => v,
        None => return None,
    };
    let (metadata, p8) = match take_bytes(b, p7) {
        Some(v) => v,
        None => return None,
    };
    Some(
        (
            (
                limit,
                cap,
                expires,
                reduce_only,
                provider_client_id,
                signal_type,
                signal_metadata,
                metadata,
            ),
            p8,
        ),
    )
}

fn take_place(b: &[u8], pos: usize) -> (r: Option<(PlaceOrderV5, usize)>)
    requires
        pos <= b@.len(),
    ensures
        match place_at(b@, pos as int) {
            Some((m, e)) => r matches Some((v, end)) && v@ == m && end == e,
            None => r is None,
        },
        r matches Some((_, end)) ==> pos < end <= b@.len(),
{
    let (head, p1) = match take_place_head(b, pos) {
        Some(v) => v,
        None => return None,
    };
    let (tail, p2) = match take_place_tail(b, p1) {
        Some(v) => v,
        None => return None,
    };
    let (command_id, fence, market_id, action, side, order_type, quantity_hundredths) = head;
    let (
        limit_price_micros,
        market_price_cap_micros,
        expires_after_ms,
        reduce_only,
        provider_client_id,
        signal_type,
        signal_metadata,
        metadata,
    ) = tail;
    Some(
        (
            PlaceOrderV5 {
                command_id,
                fence,
                market_id,
                action,
                side,
                order_type,
                quantity_hundredths,
                limit_price_micros,
                market_price_cap_micros,
                expires_after_ms,
                reduce_only,
                provider_client_id,
                signal_type,
                signal_metadata,
                metadata,
            },
            p2,
        ),
    )
}

fn take_command(b: &[u8], pos: usize) -> (r: Option<(StrategyCommandV5, usize)>)
    requires
        pos <= b@.len(),
    ensures
        match command_at(b@, pos as int) {
            Some((m, e)) => r matches Some((v, end)) && v@ == m && end == e,
            None => r is None,
        },
        r matches Some((_, end)) ==> pos < end <= b@.len(),
{
    proof {
        reveal(command_fields_at);
    }
    let (variant, p0) = match take_u32(b, pos) {
        Some(v) => v,
        None => return None,
    };
    if variant == 0 {
        let (order, p1) = match take_place(b, p0) {
            Some(v) => v,
            None => return None,
        };
        Some((StrategyCommandV5::PlaceOrder(order), p1))
    } else if variant == 1 {
        let (command_id, p1) = match take_str(b, p0) {
            Some(v) => v,
            None => return None,
        };
        let (fence, p2) = match take_fence(b, p1) {
            Some(v) => v,
            None => return None,
        };
        let (order_id, p3) = match take_str(b, p2) {
            Some(v) => v,
            None => return None,
        };
        let (expected_order_revision, p4) = match take_u64(b, p3) {
            Some(v) => v,
            None => return None,
        };
        Some(
            (
                StrategyCommandV5::CancelOrder {
                    command_id,
                    fence,
                    order_id,
                    expected_order_revision,
                },
                p4,
            ),
        )
    } else if variant == 2 {
        let (command_id, p1) = match take_str(b, p0) {
            Some(v) => v,
            None => return None,
        };
        let (fence, p2) = match take_fence(b, p1) {
            Some(v) => v,
            None => return None,
        };
        Some((StrategyCommandV5::CancelAllOrders { command_id, fence }, p2))
    } else if variant == 3 {
        let (command_id, p1) = match take_str(b, p0) {
            Some(v) => v,
            None => return None,
        };
        let (key, p2) = match take_str(b, p1) {
            Some(v) => v,
            None => return None,
        };
        let (scheduled_at_epoch_ns, p3) = match take_u64(b, p2) {
            Some(v) => v,
            None => return None,
        };
        let (generation, p4) = match take_str(b, p3) {
            Some(v) => v,
            None => return None,
        };
        let (semantics, p5) = match take_bytes(b, p4) {
            Some(v) => v,
            None => return None,
        };
        Some(
            (
                StrategyCommandV5::ScheduleTimer {
                    command_id,
                    key,
                    scheduled_at_epoch_ns,
                    generation,
                    semantics,
                },
                p5,
            ),
        )
    } else if variant == 4 {
        let (command_id, p1) = match take_str(b, p0) {
            Some(v) => v,
            None => return None,
        };
        let (key, p2) = match take_str(b, p1) {
            Some(v) => v,
            None => return None,
        };
        let (generation, p3) = match take_str(b, p2) {
            Some(v) => v,
            None => return None,
        };
        Some((StrategyCommandV5::CancelTimer { command_id, key, generation }, p3))
    } else if variant == 5 {
        let (command_id, p1) = match take_str(b, p0) {
            Some(v) => v,
            None => return None,
        };
        let (reason, p2) = match take_str(b, p1) {
            Some(v) => v,
            None => return None,
        };
        Some((StrategyCommandV5::Stop { command_id, reason }, p2))
    } else {
        None
    }
}

fn take_checkpoint(b: &[u8], pos: usize) -> (r: Option<(KernelCheckpointV5, usize)>)
    requires
        pos <= b@.len(),
    ensures
        match checkpoint_at(b@, pos as int) {
            Some((m, e)) => r matches Some((v, end)) && v@ == m && end == e,
            None => r is None,
        },
        r matches Some((_, end)) ==> pos < end <= b@.len(),
{
    proof {
        reveal(checkpoint_at);
    }
    let (codec_profile, p1) = match take_str(b, pos) {
        Some(v) => v,
        None => return None,
    };
    let (codec_version, p2) = match take_u32(b, p1) {
        Some(v) => v,
        None => return None,
    };
    let (strategy_id, p3) = match take_str(b, p2) {
        Some(v) => v,
        None => return None,
    };
    let (strategy_profile, p4) = match take_str(b, p3) {
        Some(v) => v,
        None => return None,
    };
    let (profile_and_calculator_digest, p5) = match take_str(b, p4) {
        Some(v) => v,
        None => return None,
    };
    let (sequence, p6) = match take_u64(b, p5) {
        Some(v) => v,
        None => return None,
    };
    let (state, p7) = match take_bytes(b, p6) {
        Some(v) => v,
        None => return None,
    };
    let (state_sha256, p8) = match take_array32(b, p7) {
        Some(v) => v,
        None => return None,
    };
    Some(
        (
            KernelCheckpointV5 {
                codec_profile,
                codec_version,
                strategy_id,
                strategy_profile,
                profile_and_calculator_digest,
                sequence,
                state,
                state_sha256,
            },
            p8,
        ),
    )
}

fn take_opt_checkpoint(b: &[u8], pos: usize) -> (r: Option<(Option<KernelCheckpointV5>, usize)>)
    requires
        pos <= b@.len(),
    ensures
        match opt_checkpoint_at(b@, pos as int) {
            Some((m, e)) => r matches Some((v, end)) && opt_checkpoint_model(v) == m && end == e,
            None => r is None,
        },
        r matches Some((_, end)) ==> pos < end <= b@.len(),
{
    match take_u8(b, pos) {
        Some((0, e)) => Some((None, e)),
        Some((1, e)) => match take_checkpoint(b, e) {
            Some((v, e2)) => Some((Some(v), e2)),
            None => None,
        },
        _ => None,
    }
}

fn take_disposition(b: &[u8], pos: usize) -> (r: Option<(DecisionDispositionV5, usize)>)
    requires
        pos <= b@.len(),
    ensures
        match disposition_at(b@, pos as int) {
            Some((m, e)) => r matches Some((v, end)) && v@ == m && end == e,
            None => r is None,
        },
        r matches Some((_, end)) ==> pos < end <= b@.len(),
{
    proof {
        reveal(disposition_at);
    }
    let (variant, p0) = match take_u32(b, pos) {
        Some(v) => v,
        None => return None,
    };
    if variant == 0 {
        Some((DecisionDispositionV5::Completed, p0))
    } else if variant == 1 {
        let (continuation_id, p1) = match take_str(b, p0) {
            Some(v) => v,
            None => return None,
        };
        let (continuation_generation, p2) = match take_u64(b, p1) {
            Some(v) => v,
            None => return None,
        };
        let (awaited_command_id, p3) = match take_str(b, p2) {
            Some(v) => v,
            None => return None,
        };
        Some(
            (
                DecisionDispositionV5::AwaitingBrokerOutcome {
                    continuation_id,
                    continuation_generation,
                    awaited_command_id,
                },
                p3,
            ),
        )
    } else if variant == 2 {
        Some((DecisionDispositionV5::Rejected, p0))
    } else {
        None
    }
}

fn take_evidence(b: &[u8], pos: usize) -> (r: Option<(ResultEvidenceV5, usize)>)
    requires
        pos <= b@.len(),
    ensures
        match evidence_at(b@, pos as int) {
            Some((m, e)) => r matches Some((v, end)) && v@ == m && end == e,
            None => r is None,
        },
        r matches Some((_, end)) ==> pos < end <= b@.len(),
{
    proof {
        reveal(evidence_at);
    }
    let (code, p1) = match take_str(b, pos) {
        Some(v) => v,
        None => return None,
    };
    let (payload, p2) = match take_bytes(b, p1) {
        Some(v) => v,
        None => return None,
    };
    Some((ResultEvidenceV5 { code, payload }, p2))
}

fn take_diagnostic(b: &[u8], pos: usize) -> (r: Option<(ResultDiagnosticV5, usize)>)
    requires
        pos <= b@.len(),
    ensures
        match diagnostic_at(b@, pos as int) {
            Some((m, e)) => r matches Some((v, end)) && v@ == m && end == e,
            None => r is None,
        },
        r matches Some((_, end)) ==> pos < end <= b@.len(),
{
    proof {
        reveal(diagnostic_at);
    }
    let (severity, p1) = match take_str(b, pos) {
        Some(v) => v,
        None => return None,
    };
    let (code, p2) = match take_str(b, p1) {
        Some(v) => v,
        None => return None,
    };
    let (message, p3) = match take_str(b, p2) {
        Some(v) => v,
        None => return None,
    };
    Some((ResultDiagnosticV5 { severity, code, message }, p3))
}

fn take_commands(b: &[u8], pos: usize) -> (r: Option<(Vec<StrategyCommandV5>, usize)>)
    requires
        pos <= b@.len(),
    ensures
        match list_at(b@, pos as int, command_reader()) {
            Some((m, e)) => r matches Some((v, end)) && v@.map_values(command_viewer()) == m && end
                == e,
            None => r is None,
        },
        r matches Some((_, end)) ==> pos < end <= b@.len(),
{
    let (n, start) = match take_u64(b, pos) {
        Some(v) => v,
        None => return None,
    };
    let mut out: Vec<StrategyCommandV5> = Vec::new();
    let mut p = start;
    let mut i: u64 = 0;
    while i < n
        invariant
            pos < start <= p <= b@.len(),
            i <= n,
            u64_at(b@, pos as int) matches Some((x, e)) && x == n && e == start,
            items_at(b@, start as int, i as nat, command_reader()) == Some(
                (out@.map_values(command_viewer()), p as int),
            ),
        decreases n - i,
    {
        match take_command(b, p) {
            Some((c, e)) => {
                let ghost before = out@;
                out.push(c);
                assert(out@.map_values(command_viewer()) =~= before.map_values(
                    command_viewer(),
                ).push(c@));
                p = e;
            },
            None => {
                proof {
                    assert(command_reader()(b@, p as int) is None);
                    assert(items_at(b@, start as int, (i + 1) as nat, command_reader()) is None);
                    lemma_items_stop(b@, start as int, (i + 1) as nat, n as nat, command_reader());
                }
                return None;
            },
        }
        i += 1;
    }
    Some((out, p))
}

fn take_evidence_list(b: &[u8], pos: usize) -> (r: Option<(Vec<ResultEvidenceV5>, usize)>)
    requires
        pos <= b@.len(),
    ensures
        match list_at(b@, pos as int, evidence_reader()) {
            Some((m, e)) => r matches Some((v, end)) && v@.map_values(evidence_viewer()) == m && end
                == e,
            None => r is None,
        },
        r matches Some((_, end)) ==> pos < end <= b@.len(),
{
    let (n, start) = match take_u64(b, pos) {
        Some(v) => v,
        None => return None,
    };
    let mut out: Vec<ResultEvidenceV5> = Vec::new();
    let mut p = start;
    let mut i: u64 = 0;
    while i < n
        invariant
            pos < start <= p <= b@.len(),
            i <= n,
            u64_at(b@, pos as int) matches Some((x, e)) && x == n && e == start,
            items_at(b@, start as int, i as nat, evidence_reader()) == Some(
                (out@.map_values(evidence_viewer()), p as int),
            ),
        decreases n - i,
    {
        match take_evidence(b, p) {
            Some((x, e)) => {
                let ghost before = out@;
                out.push(x);
                assert(out@.map_values(evidence_viewer()) =~= before.map_values(
                    evidence_viewer(),
                ).push(x@));
                p = e;
            },
            None => {
                proof {
                    assert(evidence_reader()(b@, p as int) is None);
                    assert(items_at(b@, start as int, (i + 1) as nat, evidence_reader()) is None);
                    lemma_items_stop(b@, start as int, (i + 1) as nat, n as nat, evidence_reader());
                }
                return None;
            },
        }
        i += 1;
    }
    Some((out, p))
}

fn take_diagnostics(b: &[u8], pos: usize) -> (r: Option<(Vec<ResultDiagnosticV5>, usize)>)
    requires
        pos <= b@.len(),
    ensures
        match list_at(b@, pos as int, diagnostic_reader()) {
            Some((m, e)) => r matches Some((v, end)) && v@.map_values(diagnostic_viewer()) == m
                && end == e,
            None => r is None,
        },
        r matches Some((_, end)) ==> pos < end <= b@.len(),
{
    let (n, start) = match take_u64(b, pos) {
        Some(v) => v,
        None => return None,
    };
    let mut out: Vec<ResultDiagnosticV5> = Vec::new();
    let mut p = start;
    let mut i: u64 = 0;
    while i < n
        invariant
            pos < start <= p <= b@.len(),
            i <= n,
            u64_at(b@, pos as int) matches Some((x, e)) && x == n && e == start,
            items_at(b@, start as int, i as nat, diagnostic_reader()) == Some(
                (out@.map_values(diagnostic_viewer()), p as int),
            ),
        decreases n - i,
    {
        match take_diagnostic(b, p) {
            Some((x, e)) => {
                let ghost before = out@;
                out.push(x);
                assert(out@.map_values(diagnostic_viewer()) =~= before.map_values(
                    diagnostic_viewer(),
                ).push(x@));
                p = e;
            },
            None => {
                proof {
                    assert(diagnostic_reader()(b@, p as int) is None);
                    assert(items_at(b@, start as int, (i + 1) as nat, diagnostic_reader()) is None);
                    lemma_items_stop(b@, start as int, (i + 1) as nat, n as nat, diagnostic_reader());
                }
                return None;
            },
        }
        i += 1;
    }
    Some((out, p))
}

/// The payload of a V5 result at `pos`, and the position after it.
fn take_result(b: &[u8], pos: usize) -> (r: Option<(DecisionResultV5, usize)>)
    requires
        pos <= b@.len(),
    ensures
        match result_at(b@, pos as int) {
            Some((m, e)) => r matches Some((v, end)) && v@ == m && end == e,
            None => r is None,
        },
        r matches Some((_, end)) ==> pos < end <= b@.len(),
{
    proof {
        reveal(result_at);
    }
    let (delivery_id, p1) = match take_str(b, pos) {
        Some(v) => v,
        None => return None,
    };
    let (sleeve_identity, p2) = match take_str(b, p1) {
        Some(v) => v,
        None => return None,
    };
    let (state_fence, p3) = match take_str(b, p2) {
        Some(v) => v,
        None => return None,
    };
    let (expected_broker_revision, p4) = match take_u64(b, p3) {
        Some(v) => v,
        None => return None,
    };
    let (disposition, p5) = match take_disposition(b, p4) {
        Some(v) => v,
        None => return None,
    };
    let (kernel_checkpoint, p6) = match take_opt_checkpoint(b, p5) {
        Some(v) => v,
        None => return None,
    };
    let (commands, p7) = match take_commands(b, p6) {
        Some(v) => v,
        None => return None,
    };
    let (evidence, p8) = match take_evidence_list(b, p7) {
        Some(v) => v,
        None => return None,
    };
    let (diagnostics, p9) = match take_diagnostics(b, p8) {
        Some(v) => v,
        None => return None,
    };
    Some(
        (
            DecisionResultV5 {
                delivery_id,
                sleeve_identity,
                state_fence,
                expected_broker_revision,
                disposition,
                kernel_checkpoint,
                commands,
                evidence,
                diagnostics,
            },
            p9,
        ),
    )
}

// ---------------------------------------------------------------------------------------------
// Validity depends on the model alone
// ---------------------------------------------------------------------------------------------

proof fn lemma_command_congruent(a: StrategyCommandV5, b: StrategyCommandV5, revision: u64)
    requires
        a@ == b@,
    ensures
        command_v5_id(a) == command_v5_id(b),
        command_v5_fence(a) is Some <==> command_v5_fence(b) is Some,
        command_v5_fence(a) is Some ==> command_v5_fence(a)->0@ == command_v5_fence(b)->0@,
        command_in_result_v5_verdict(a, revision) == command_in_result_v5_verdict(b, revision),
{
    match (a, b) {
        (StrategyCommandV5::PlaceOrder(x), StrategyCommandV5::PlaceOrder(y)) => {
            assert(x.command_id@ == y.command_id@);
            assert(x@.fence == y@.fence);
        },
        _ => {},
    }
}

proof fn lemma_same_models(a: Seq<StrategyCommandV5>, b: Seq<StrategyCommandV5>)
    requires
        a.map_values(command_viewer()) == b.map_values(command_viewer()),
    ensures
        a.len() == b.len(),
        forall|i: int| 0 <= i < a.len() ==> (#[trigger] a[i])@ == b[i]@,
{
    assert(a.map_values(command_viewer()).len() == a.len());
    assert(b.map_values(command_viewer()).len() == b.len());
    assert forall|i: int| 0 <= i < a.len() implies (#[trigger] a[i])@ == b[i]@ by {
        assert(a.map_values(command_viewer())[i] == a[i]@);
        assert(b.map_values(command_viewer())[i] == b[i]@);
    }
}

proof fn lemma_commands_congruent(
    a: Seq<StrategyCommandV5>,
    b: Seq<StrategyCommandV5>,
    revision: u64,
    n: nat,
)
    requires
        a.map_values(command_viewer()) == b.map_values(command_viewer()),
        n <= a.len(),
    ensures
        commands_v5_verdict(a, revision, n) == commands_v5_verdict(b, revision, n),
    decreases n,
{
    if n > 0 {
        lemma_same_models(a, b);
        lemma_commands_congruent(a, b, revision, (n - 1) as nat);
        lemma_command_congruent(a[n - 1], b[n - 1], revision);
    }
}

proof fn lemma_fenced_ids_congruent(a: Seq<StrategyCommandV5>, b: Seq<StrategyCommandV5>)
    requires
        a.map_values(command_viewer()) == b.map_values(command_viewer()),
    ensures
        fenced_command_ids(a) == fenced_command_ids(b),
        first_fence(a) is Some <==> first_fence(b) is Some,
        first_fence(a) is Some ==> first_fence(a)->0@ == first_fence(b)->0@,
    decreases a.len(),
{
    lemma_same_models(a, b);
    if a.len() > 0 {
        assert(a.drop_last().map_values(command_viewer()) =~= b.drop_last().map_values(
            command_viewer(),
        ));
        assert(a.drop_first().map_values(command_viewer()) =~= b.drop_first().map_values(
            command_viewer(),
        ));
        lemma_fenced_ids_congruent(a.drop_last(), b.drop_last());
        lemma_fenced_ids_congruent(a.drop_first(), b.drop_first());
        lemma_command_congruent(a.last(), b.last(), 0);
        lemma_command_congruent(a[0], b[0], 0);
    }
}

proof fn lemma_entries_congruent(a: DecisionResultV5, b: DecisionResultV5)
    requires
        a@ == b@,
    ensures
        result_v5_bounds_valid(a) == result_v5_bounds_valid(b),
        (forall|i: int| 0 <= i < a.evidence@.len() ==> #[trigger] evidence_v5_valid(a.evidence@[i]))
            == (forall|i: int|
            0 <= i < b.evidence@.len() ==> #[trigger] evidence_v5_valid(b.evidence@[i])),
        (forall|i: int|
            0 <= i < a.diagnostics@.len() ==> #[trigger] diagnostic_v5_valid(a.diagnostics@[i]))
            == (forall|i: int|
            0 <= i < b.diagnostics@.len() ==> #[trigger] diagnostic_v5_valid(b.diagnostics@[i])),
{
    lemma_same_models(a.commands@, b.commands@);
    let ea = a.evidence@;
    let eb = b.evidence@;
    assert(ea.map_values(evidence_viewer()) == eb.map_values(evidence_viewer()));
    assert(ea.map_values(evidence_viewer()).len() == ea.len());
    assert(eb.map_values(evidence_viewer()).len() == eb.len());
    assert forall|i: int|
        #![trigger evidence_v5_valid(ea[i])]
        #![trigger evidence_v5_valid(eb[i])]
        0 <= i < ea.len() implies evidence_v5_valid(ea[i]) == evidence_v5_valid(eb[i]) by {
        assert(ea.map_values(evidence_viewer())[i] == ea[i]@);
        assert(eb.map_values(evidence_viewer())[i] == eb[i]@);
    }
    let da = a.diagnostics@;
    let db = b.diagnostics@;
    assert(da.map_values(diagnostic_viewer()) == db.map_values(diagnostic_viewer()));
    assert(da.map_values(diagnostic_viewer()).len() == da.len());
    assert(db.map_values(diagnostic_viewer()).len() == db.len());
    assert forall|i: int|
        #![trigger diagnostic_v5_valid(da[i])]
        #![trigger diagnostic_v5_valid(db[i])]
        0 <= i < da.len() implies diagnostic_v5_valid(da[i]) == diagnostic_v5_valid(db[i]) by {
        assert(da.map_values(diagnostic_viewer())[i] == da[i]@);
        assert(db.map_values(diagnostic_viewer())[i] == db[i]@);
    }
}

proof fn lemma_checkpoint_congruent(a: DecisionResultV5, b: DecisionResultV5)
    requires
        a@ == b@,
    ensures
        a.kernel_checkpoint is Some <==> b.kernel_checkpoint is Some,
        a.kernel_checkpoint is Some ==> kernel_checkpoint_v5_shape_verdict(a.kernel_checkpoint->0)
            == kernel_checkpoint_v5_shape_verdict(b.kernel_checkpoint->0),
{
    if a.kernel_checkpoint is Some {
        let x = a.kernel_checkpoint->0;
        let y = b.kernel_checkpoint->0;
        assert(x@ == y@);
        assert(checkpoint_v5_message(x) == checkpoint_v5_message(y));
    }
}

proof fn lemma_ids_congruent(a: Seq<StrategyCommandV5>, b: Seq<StrategyCommandV5>)
    requires
        a.map_values(command_viewer()) == b.map_values(command_viewer()),
    ensures
        command_ids_v5(a) == command_ids_v5(b),
{
    lemma_same_models(a, b);
    assert forall|i: int| 0 <= i < a.len() implies command_ids_v5(a)[i] == command_ids_v5(b)[i] by {
        lemma_command_congruent(a[i], b[i], 0);
    }
    assert(command_ids_v5(a) =~= command_ids_v5(b));
}

proof fn lemma_disposition_congruent(a: DecisionResultV5, b: DecisionResultV5)
    requires
        a@ == b@,
    ensures
        disposition_v5_verdict(a) == disposition_v5_verdict(b),
{
    lemma_same_models(a.commands@, b.commands@);
    lemma_fenced_ids_congruent(a.commands@, b.commands@);
}

/// Whether a result is valid, and the error when it is not, depend on its model alone.
pub proof fn result_v5_verdict_depends_on_model(a: DecisionResultV5, b: DecisionResultV5)
    requires
        a@ == b@,
    ensures
        result_v5_verdict(a) == result_v5_verdict(b),
{
    lemma_entries_congruent(a, b);
    lemma_checkpoint_congruent(a, b);
    lemma_ids_congruent(a.commands@, b.commands@);
    lemma_same_models(a.commands@, b.commands@);
    lemma_commands_congruent(a.commands@, b.commands@, a.expected_broker_revision, a.commands@.len());
    lemma_disposition_congruent(a, b);
}

// ---------------------------------------------------------------------------------------------
// Writing
// ---------------------------------------------------------------------------------------------

fn put_checkpoint(out: &mut Vec<u8>, c: &KernelCheckpointV5)
    ensures
        final(out)@ == old(out)@ + wire_checkpoint_v5_spec(*c),
{
    let ghost start = out@;
    put(out, wire_str(&c.codec_profile));
    put(out, wire_u32(c.codec_version));
    put(out, wire_str(&c.strategy_id));
    put(out, wire_str(&c.strategy_profile));
    put(out, wire_str(&c.profile_and_calculator_digest));
    put(out, wire_u64(c.sequence));
    put(out, wire_bytes(&c.state));
    put(out, wire_array32(&c.state_sha256));
    assert(out@ =~= start + wire_checkpoint_v5_spec(*c));
}

fn put_opt_checkpoint(out: &mut Vec<u8>, c: &Option<KernelCheckpointV5>)
    ensures
        final(out)@ == old(out)@ + wire_opt_checkpoint_v5_spec(*c),
{
    let ghost start = out@;
    match c {
        Some(v) => {
            put(out, wire_u8(1));
            put_checkpoint(out, v);
            assert(out@ =~= start + wire_opt_checkpoint_v5_spec(*c));
        },
        None => {
            put(out, wire_u8(0));
        },
    }
}

fn put_disposition(out: &mut Vec<u8>, d: &DecisionDispositionV5)
    ensures
        final(out)@ == old(out)@ + wire_disposition_v5_spec(*d),
{
    let ghost start = out@;
    match d {
        DecisionDispositionV5::Completed => {
            put(out, wire_u32(0));
        },
        DecisionDispositionV5::AwaitingBrokerOutcome {
            continuation_id,
            continuation_generation,
            awaited_command_id,
        } => {
            put(out, wire_u32(1));
            put(out, wire_str(continuation_id));
            put(out, wire_u64(*continuation_generation));
            put(out, wire_str(awaited_command_id));
            assert(out@ =~= start + wire_disposition_v5_spec(*d));
        },
        DecisionDispositionV5::Rejected => {
            put(out, wire_u32(2));
        },
    }
}

fn put_commands(out: &mut Vec<u8>, s: &Vec<StrategyCommandV5>)
    ensures
        final(out)@ == old(out)@ + wire_list(s@, command_encoder()),
{
    let ghost start = out@;
    put(out, wire_u64(s.len() as u64));
    let mut i: usize = 0;
    while i < s.len()
        invariant
            0 <= i <= s@.len(),
            out@ == start + varint(s@.len()) + wire_items(s@.take(i as int), command_encoder()),
        decreases s@.len() - i,
    {
        let c = &s[i];
        let quantity = match c {
            StrategyCommandV5::PlaceOrder(o) => o.quantity_hundredths,
            _ => 0,
        };
        put(out, encode_command_v5(c, quantity));
        assert(s@.take(i + 1).drop_last() =~= s@.take(i as int));
        i += 1;
    }
    assert(s@.take(s@.len() as int) =~= s@);
}

fn put_evidence(out: &mut Vec<u8>, s: &Vec<ResultEvidenceV5>)
    ensures
        final(out)@ == old(out)@ + wire_list(s@, evidence_encoder()),
{
    let ghost start = out@;
    put(out, wire_u64(s.len() as u64));
    let mut i: usize = 0;
    while i < s.len()
        invariant
            0 <= i <= s@.len(),
            out@ == start + varint(s@.len()) + wire_items(s@.take(i as int), evidence_encoder()),
        decreases s@.len() - i,
    {
        let e = &s[i];
        let ghost before = out@;
        put(out, wire_str(&e.code));
        put(out, wire_bytes(&e.payload));
        assert(out@ =~= before + wire_evidence_v5_spec(*e));
        assert(s@.take(i + 1).drop_last() =~= s@.take(i as int));
        i += 1;
    }
    assert(s@.take(s@.len() as int) =~= s@);
}

fn put_diagnostics(out: &mut Vec<u8>, s: &Vec<ResultDiagnosticV5>)
    ensures
        final(out)@ == old(out)@ + wire_list(s@, diagnostic_encoder()),
{
    let ghost start = out@;
    put(out, wire_u64(s.len() as u64));
    let mut i: usize = 0;
    while i < s.len()
        invariant
            0 <= i <= s@.len(),
            out@ == start + varint(s@.len()) + wire_items(s@.take(i as int), diagnostic_encoder()),
        decreases s@.len() - i,
    {
        let d = &s[i];
        let ghost before = out@;
        put(out, wire_str(&d.severity));
        put(out, wire_str(&d.code));
        put(out, wire_str(&d.message));
        assert(out@ =~= before + wire_diagnostic_v5_spec(*d));
        assert(s@.take(i + 1).drop_last() =~= s@.take(i as int));
        i += 1;
    }
    assert(s@.take(s@.len() as int) =~= s@);
}

/// The payload of a current V5 result.
fn encode_result_payload_v5(result: &DecisionResultV5) -> (r: Vec<u8>)
    ensures
        r@ == wire_result_v5_spec(*result),
{
    let mut out: Vec<u8> = Vec::new();
    put(&mut out, wire_str(&result.delivery_id));
    put(&mut out, wire_str(&result.sleeve_identity));
    put(&mut out, wire_str(&result.state_fence));
    put(&mut out, wire_u64(result.expected_broker_revision));
    put_disposition(&mut out, &result.disposition);
    put_opt_checkpoint(&mut out, &result.kernel_checkpoint);
    put_commands(&mut out, &result.commands);
    put_evidence(&mut out, &result.evidence);
    put_diagnostics(&mut out, &result.diagnostics);
    assert(out@ =~= wire_result_v5_spec(*result));
    out
}

/// Encodes a valid result under the current magic, within the result bound. Fails with the
/// result's error when it is not valid, and with `BoundExceeded` when the bytes would exceed
/// `MAX_DECISION_RESULT_V5_BYTES`.
pub fn encode_decision_result_v5(result: &DecisionResultV5) -> (r: Result<
    Vec<u8>,
    DecisionV5Error,
>)
    ensures
        match result_v5_verdict(*result) {
            Err(e) => r == Err::<Vec<u8>, DecisionV5Error>(e),
            Ok(_) => if 8 + wire_result_v5_spec(*result).len() > MAX_DECISION_RESULT_V5_BYTES {
                r == Err::<Vec<u8>, DecisionV5Error>(DecisionV5Error::BoundExceeded)
            } else {
                r matches Ok(b) && b@ == DECISION_RESULT_V5_MAGIC@ + wire_result_v5_spec(*result)
            },
        },
{
    match result.validate() {
        Err(e) => {
            return Err(e);
        },
        Ok(()) => {},
    }
    let payload = encode_result_payload_v5(result);
    if payload.len() > MAX_DECISION_RESULT_V5_BYTES - 8 {
        return Err(DecisionV5Error::BoundExceeded);
    }
    let mut bytes: Vec<u8> = Vec::new();
    extend(&mut bytes, &DECISION_RESULT_V5_MAGIC);
    extend(&mut bytes, payload.as_slice());
    Ok(bytes)
}

/// The SHA-256 of a valid result's encoding; the encoding's error otherwise.
pub fn decision_result_v5_sha256(result: &DecisionResultV5) -> (r: Result<
    [u8; 32],
    DecisionV5Error,
>)
    ensures
        match result_v5_verdict(*result) {
            Err(e) => r == Err::<[u8; 32], DecisionV5Error>(e),
            Ok(_) => if 8 + wire_result_v5_spec(*result).len() > MAX_DECISION_RESULT_V5_BYTES {
                r == Err::<[u8; 32], DecisionV5Error>(DecisionV5Error::BoundExceeded)
            } else {
                r matches Ok(d) && d@ == sha256(
                    DECISION_RESULT_V5_MAGIC@ + wire_result_v5_spec(*result),
                )
            },
        },
{
    match encode_decision_result_v5(result) {
        Ok(bytes) => Ok(sha256_digest(bytes.as_slice())),
        Err(e) => Err(e),
    }
}

// ---------------------------------------------------------------------------------------------
// Decoding
// ---------------------------------------------------------------------------------------------

/// `b` begins with `m`.
pub open spec fn has_prefix(b: Seq<u8>, m: Seq<u8>) -> bool {
    m.len() <= b.len() && b.subrange(0, m.len() as int) == m
}

/// A bounded payload after an 8-byte magic, read to its last byte.
pub open spec fn framed_result_v5(b: Seq<u8>) -> Result<ResultModel, DecisionV5Error> {
    if b.len() > MAX_DECISION_RESULT_V5_BYTES {
        Err(DecisionV5Error::Decode)
    } else {
        match result_at(b, 8) {
            Some((m, e)) => if e == b.len() {
                Ok(m)
            } else {
                Err(DecisionV5Error::TrailingBytes)
            },
            None => Err(DecisionV5Error::Decode),
        }
    }
}

/// A legacy command with its place's whole-contract quantity in hundredths, when that fits.
pub open spec fn scaled_command(c: CommandModel) -> Option<CommandModel> {
    match c {
        CommandModel::PlaceOrder(o) => match spec_whole_to_hundredths(o.quantity) {
            Some(q) => Some(CommandModel::PlaceOrder(PlaceOrderModel { quantity: q, ..o })),
            None => None,
        },
        _ => Some(c),
    }
}

pub open spec fn scaled_commands(s: Seq<CommandModel>) -> Option<Seq<CommandModel>> {
    if forall|i: int| 0 <= i < s.len() ==> #[trigger] scaled_command(s[i]) is Some {
        Some(s.map_values(|c: CommandModel| scaled_command(c)->0))
    } else {
        None
    }
}

/// What the bytes of a V5 result read as, before its validity is checked: a result under the
/// current magic; under the legacy magic, a result whose places carry whole contracts, which
/// are converted to hundredths (`InvalidContract` when one does not fit).
pub open spec fn decision_result_v5_read(b: Seq<u8>) -> Result<ResultModel, DecisionV5Error> {
    if has_prefix(b, DECISION_RESULT_V5_MAGIC@) {
        framed_result_v5(b)
    } else if has_prefix(b, LEGACY_DECISION_RESULT_V5_MAGIC@) {
        match framed_result_v5(b) {
            Ok(m) => match scaled_commands(m.commands) {
                Some(cs) => Ok(ResultModel { commands: cs, ..m }),
                None => Err(DecisionV5Error::InvalidContract),
            },
            Err(e) => Err(e),
        }
    } else {
        Err(DecisionV5Error::Decode)
    }
}

pub(crate) fn has_magic(b: &[u8], magic: &[u8; 8]) -> (r: bool)
    ensures
        r == has_prefix(b@, magic@),
{
    if b.len() < 8 {
        return false;
    }
    let mut i: usize = 0;
    while i < 8
        invariant
            8 <= b@.len(),
            magic@.len() == 8,
            0 <= i <= 8,
            forall|k: int| 0 <= k < i ==> b@[k] == magic@[k],
        decreases 8 - i,
    {
        if b[i] != magic[i] {
            assert(b@.subrange(0, 8)[i as int] != magic@[i as int]);
            return false;
        }
        i += 1;
    }
    assert(b@.subrange(0, 8) =~= magic@);
    true
}

/// Converts each legacy place's whole-contract quantity to hundredths; `None` when one does
/// not fit.
#[verifier::loop_isolation(false)]
fn scale_legacy_commands(commands: Vec<StrategyCommandV5>) -> (r: Option<Vec<StrategyCommandV5>>)
    ensures
        match scaled_commands(commands@.map_values(command_viewer())) {
            Some(cs) => r matches Some(v) && v@.map_values(command_viewer()) == cs,
            None => r is None,
        },
{
    let ghost given = commands@;
    let ghost models = given.map_values(command_viewer());
    let mut rest = commands;
    let mut out: Vec<StrategyCommandV5> = Vec::new();
    let n = rest.len();
    let mut i: usize = 0;
    while i < n
        invariant
            0 <= i <= n,
            n == given.len(),
            models == given.map_values(command_viewer()),
            rest@ == given.skip(i as int),
            out@.len() == i,
            forall|k: int| 0 <= k < i ==> #[trigger] scaled_command(models[k]) is Some,
            forall|k: int| 0 <= k < i ==> (#[trigger] out@[k])@ == scaled_command(models[k])->0,
        decreases n - i,
    {
        let c = rest.remove(0);
        assert(c == given[i as int]);
        assert(models[i as int] == c@);
        let converted = match c {
            StrategyCommandV5::PlaceOrder(order) => {
                let mut o = order;
                match o.quantity_hundredths.checked_mul(100) {
                    Some(q) => {
                        o.quantity_hundredths = q;
                        StrategyCommandV5::PlaceOrder(o)
                    },
                    None => {
                        assert(scaled_command(models[i as int]) is None);
                        return None;
                    },
                }
            },
            other => other,
        };
        out.push(converted);
        assert(rest@ =~= given.skip(i + 1));
        i += 1;
    }
    proof {
        let cs = models.map_values(|c: CommandModel| scaled_command(c)->0);
        assert(out@.map_values(command_viewer()) =~= cs);
    }
    Some(out)
}

/// Decodes a V5 result under the current magic, or under the legacy magic with its places'
/// whole-contract quantities converted to hundredths, and checks it.
///
/// `Decode` when the bytes begin with neither magic, exceed `MAX_DECISION_RESULT_V5_BYTES`
/// or do not read as a result; `TrailingBytes` when bytes follow the result;
/// `InvalidContract` when a legacy quantity does not fit in hundredths; otherwise the
/// result's own error when it is not valid.
pub fn decode_decision_result_v5(bytes: &[u8]) -> (r: Result<DecisionResultV5, DecisionV5Error>)
    ensures
        match decision_result_v5_read(bytes@) {
            Err(e) => r == Err::<DecisionResultV5, DecisionV5Error>(e),
            Ok(m) => match r {
                Ok(v) => v@ == m && result_v5_verdict(v) is Ok,
                Err(e) => forall|v: DecisionResultV5|
                    v@ == m ==> #[trigger] result_v5_verdict(v) == Err::<(), DecisionV5Error>(e),
            },
        },
{
    let current = has_magic(bytes, &DECISION_RESULT_V5_MAGIC);
    let legacy = !current && has_magic(bytes, &LEGACY_DECISION_RESULT_V5_MAGIC);
    if !current && !legacy {
        return Err(DecisionV5Error::Decode);
    }
    if bytes.len() > MAX_DECISION_RESULT_V5_BYTES {
        return Err(DecisionV5Error::Decode);
    }
    let (decoded, end) = match take_result(bytes, 8) {
        Some(v) => v,
        None => {
            return Err(DecisionV5Error::Decode);
        },
    };
    if end != bytes.len() {
        return Err(DecisionV5Error::TrailingBytes);
    }
    let result = if legacy {
        let DecisionResultV5 {
            delivery_id,
            sleeve_identity,
            state_fence,
            expected_broker_revision,
            disposition,
            kernel_checkpoint,
            commands,
            evidence,
            diagnostics,
        } = decoded;
        let commands = match scale_legacy_commands(commands) {
            Some(c) => c,
            None => {
                return Err(DecisionV5Error::InvalidContract);
            },
        };
        DecisionResultV5 {
            delivery_id,
            sleeve_identity,
            state_fence,
            expected_broker_revision,
            disposition,
            kernel_checkpoint,
            commands,
            evidence,
            diagnostics,
        }
    } else {
        decoded
    };
    match result.validate() {
        Ok(()) => Ok(result),
        Err(e) => {
            proof {
                assert forall|v: DecisionResultV5| v@ == result@ implies #[trigger] result_v5_verdict(
                    v,
                ) == Err::<(), DecisionV5Error>(e) by {
                    result_v5_verdict_depends_on_model(v, result);
                }
            }
            Err(e)
        },
    }
}

/// Encoding then decoding gives the result back: the bytes `encode_decision_result_v5`
/// produces for a result read as that result's model, and every value with that model is
/// valid, so decoding returns a result equal to it field by field.
pub proof fn result_v5_round_trip(result: DecisionResultV5)
    requires
        result_v5_verdict(result) is Ok,
        8 + wire_result_v5_spec(result).len() <= MAX_DECISION_RESULT_V5_BYTES,
    ensures
        decision_result_v5_read(DECISION_RESULT_V5_MAGIC@ + wire_result_v5_spec(result)) == Ok::<
            ResultModel,
            DecisionV5Error,
        >(result@),
        forall|v: DecisionResultV5| v@ == result@ ==> #[trigger] result_v5_verdict(v) is Ok,
{
    let w = wire_result_v5_spec(result);
    let b = DECISION_RESULT_V5_MAGIC@ + w;
    assert(b.subrange(0, 8) =~= DECISION_RESULT_V5_MAGIC@);
    assert(b.subrange(8, (8 + w.len()) as int) =~= w);
    lemma_result_at(b, 8, result);
    assert forall|v: DecisionResultV5| v@ == result@ implies #[trigger] result_v5_verdict(v) is Ok by {
        result_v5_verdict_depends_on_model(v, result);
    }
}

} // verus!
