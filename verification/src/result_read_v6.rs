//! Reading a Decision V6 result back from the wire, and decoding it.
//!
//! A result read from bytes is described by its model (its view): the same fields with
//! strings and byte lists as sequences. Reading what `encode_decision_result_v6` wrote gives
//! the model of the result it was given.
use crate::checkpoint_v6::{
    action_index, kind_index, side_index, wire_entry_head_spec, wire_entry_order_spec,
    wire_entry_tail_spec, wire_opt_action_spec, wire_opt_side_spec, wire_opt_update_status_spec,
    wire_runner_entries_spec, wire_runner_entry_spec, wire_runner_section_spec,
};
use crate::codec_v5::{
    array32_at, bool_at, bytes_at, has_magic, has_prefix, holds_at, i64_at, items_at,
    lemma_bytes_at, lemma_holds_split, lemma_i64_at, lemma_items_at, lemma_items_len,
    lemma_items_stop, lemma_list_at, lemma_opt_i64_at, lemma_opt_str_at, lemma_opt_u64_at,
    lemma_str_at, lemma_u32_at, lemma_u64_at, list_at, opt_i64_at, opt_str_at, opt_u64_at,
    str_at, take_array32, take_bool, take_bytes, take_i64, take_opt_i64, take_opt_str,
    take_opt_u64, take_str, take_u32, take_u64, take_u8, u32_at, u64_at, u8_at, wire_items,
    wire_list, DiagnosticModel, EvidenceModel,
};
use crate::codec_v6::{
    command_v6_encoder, diagnostic_v6_encoder, evidence_v6_encoder, field_encoder,
    order_type_v6_index, string_encoder, telemetry_encoder, wire_annotation_spec,
    wire_cancel_target_spec, wire_checkpoint_v6_spec, wire_command_v6_spec,
    wire_disposition_v6_spec, wire_opt_checkpoint_v6_spec, wire_place_v6_head_spec,
    wire_place_v6_spec, wire_place_v6_tail_spec, wire_result_v6_spec, wire_telemetry_spec,
};
use crate::decision_v6::{
    AnnotationValueV6, BrokerCommandKindV6, CancelTargetV6, ContractSideV6,
    DecisionDispositionV6, DecisionResultV6, DecisionV6Error, KernelCheckpointV6, OrderActionV6,
    OrderTypeV6, PlaceOrderV6, ResultDiagnosticV6, ResultEvidenceV6, RunnerEntryV6,
    RunnerSectionV6, StrategyCommandV6, TelemetryEntryV6, DECISION_RESULT_V6_MAGIC,
    MAX_DECISION_RESULT_V6_BYTES,
};
use crate::read_v6::{
    take_kind, take_opt_action_v6, take_opt_side_v6, take_update_status, lemma_add_assoc, lemma_kind_at, lemma_opt_action_v6_at, lemma_opt_side_v6_at,
    lemma_update_status_at, action_v6_of, kind_at, opt_action_v6_at, opt_side_v6_at, side_v6_of, update_status_at,
    UpdateStatusModel,
};
use crate::result_v6::result_verdict;
use crate::text::opt_view;
use crate::wire::{
    varint, wire_bool_spec, wire_bytes_spec, wire_opt_i64_spec, wire_opt_str_spec,
    wire_opt_u64_spec, wire_str_spec, zigzag,
};
use crate::wire_read::{lemma_varint_read_bounds, lemma_varint_u16_read, read_u16, varint_u16_read};
use vstd::prelude::*;

verus! {

// ---------------------------------------------------------------------------------------------
// Models
// ---------------------------------------------------------------------------------------------

pub struct EntryModel {
    pub command_id: Seq<char>,
    pub kind: BrokerCommandKindV6,
    pub client_order_id: Option<Seq<char>>,
    pub order_id: Option<Seq<char>>,
    pub market_id: Option<Seq<char>>,
    pub action: Option<OrderActionV6>,
    pub side: Option<ContractSideV6>,
    pub requested_quantity_hundredths: u64,
    pub last_status: Option<UpdateStatusModel>,
    pub filled_quantity_hundredths: u64,
    pub order_revision: u64,
    pub issued_broker_revision: u64,
    pub vanished: bool,
    pub vanished_revision: u64,
    pub absent_views: u16,
    pub delivery_failures: u8,
    pub delivery_deferrals: u8,
}

pub struct RunnerModel {
    pub seeded: bool,
    pub newest_view_revision: u64,
    pub entries: Seq<EntryModel>,
}

pub struct CheckpointV6Model {
    pub codec_profile: Seq<char>,
    pub codec_version: u32,
    pub strategy_id: Seq<char>,
    pub strategy_profile: Seq<char>,
    pub profile_and_calculator_digest: Seq<char>,
    pub sequence: u64,
    pub state: Seq<u8>,
    pub runner: RunnerModel,
    pub state_sha256: Seq<u8>,
}

pub struct PlaceV6Model {
    pub command_id: Seq<char>,
    pub market_id: Seq<char>,
    pub action: OrderActionV6,
    pub side: ContractSideV6,
    pub order_type: OrderTypeV6,
    pub quantity_hundredths: u64,
    pub limit_price_micros: Option<u64>,
    pub market_price_cap_micros: Option<u64>,
    pub expires_after_ms: Option<i64>,
    pub reduce_only: bool,
    pub provider_client_id: Seq<char>,
    pub signal_type: Option<Seq<char>>,
    pub signal_metadata: Option<Seq<char>>,
    pub metadata: Seq<u8>,
}

pub enum CancelTargetModel {
    Order { order_id: Seq<char>, expected_order_revision: u64 },
    SameDecision { provider_client_id: Seq<char> },
}

pub enum CommandV6Model {
    PlaceOrder(PlaceV6Model),
    CancelOrder { command_id: Seq<char>, target: CancelTargetModel },
    CancelAllOrders { command_id: Seq<char> },
    ScheduleTimer {
        command_id: Seq<char>,
        key: Seq<char>,
        scheduled_at_epoch_ns: u64,
        generation: Seq<char>,
        semantics: Seq<u8>,
    },
    CancelTimer { command_id: Seq<char>, key: Seq<char>, generation: Seq<char> },
    Stop { command_id: Seq<char>, reason: Seq<char> },
}

pub enum AnnotationModel {
    Text(Seq<char>),
    Integer(i64),
    FloatBits(u64),
    Bool(bool),
    Null,
}

pub enum TelemetryModel {
    Counter { name: Seq<char>, value_bits: u64, fields: Seq<(Seq<char>, Seq<char>)> },
    Gauge { name: Seq<char>, value_bits: u64, fields: Seq<(Seq<char>, Seq<char>)> },
    Annotation { name: Seq<char>, value: AnnotationModel, fields: Seq<(Seq<char>, Seq<char>)> },
}

pub struct ResultV6Model {
    pub delivery_id: Seq<char>,
    pub sleeve_identity: Seq<char>,
    pub state_fence: Seq<char>,
    pub expected_broker_revision: u64,
    pub disposition: DecisionDispositionV6,
    pub kernel_checkpoint: Option<CheckpointV6Model>,
    pub commands: Seq<CommandV6Model>,
    pub acknowledged_command_ids: Seq<Seq<char>>,
    pub evidence: Seq<EvidenceModel>,
    pub diagnostics: Seq<DiagnosticModel>,
    pub telemetry: Seq<TelemetryModel>,
}

impl View for RunnerEntryV6 {
    type V = EntryModel;

    open spec fn view(&self) -> EntryModel {
        EntryModel {
            command_id: self.command_id@,
            kind: self.kind,
            client_order_id: opt_view(self.client_order_id),
            order_id: opt_view(self.order_id),
            market_id: opt_view(self.market_id),
            action: self.action,
            side: self.side,
            requested_quantity_hundredths: self.requested_quantity_hundredths,
            last_status: match self.last_status {
                Some(s) => Some(s@),
                None => None,
            },
            filled_quantity_hundredths: self.filled_quantity_hundredths,
            order_revision: self.order_revision,
            issued_broker_revision: self.issued_broker_revision,
            vanished: self.vanished,
            vanished_revision: self.vanished_revision,
            absent_views: self.absent_views,
            delivery_failures: self.delivery_failures,
            delivery_deferrals: self.delivery_deferrals,
        }
    }
}

pub open spec fn entry_viewer() -> spec_fn(RunnerEntryV6) -> EntryModel {
    |e: RunnerEntryV6| e@
}

impl View for RunnerSectionV6 {
    type V = RunnerModel;

    open spec fn view(&self) -> RunnerModel {
        RunnerModel {
            seeded: self.seeded,
            newest_view_revision: self.newest_view_revision,
            entries: self.entries@.map_values(entry_viewer()),
        }
    }
}

impl View for KernelCheckpointV6 {
    type V = CheckpointV6Model;

    open spec fn view(&self) -> CheckpointV6Model {
        CheckpointV6Model {
            codec_profile: self.codec_profile@,
            codec_version: self.codec_version,
            strategy_id: self.strategy_id@,
            strategy_profile: self.strategy_profile@,
            profile_and_calculator_digest: self.profile_and_calculator_digest@,
            sequence: self.sequence,
            state: self.state@,
            runner: self.runner@,
            state_sha256: self.state_sha256@,
        }
    }
}

pub open spec fn opt_checkpoint_v6_model(c: Option<KernelCheckpointV6>) -> Option<
    CheckpointV6Model,
> {
    match c {
        Some(v) => Some(v@),
        None => None,
    }
}

impl View for PlaceOrderV6 {
    type V = PlaceV6Model;

    open spec fn view(&self) -> PlaceV6Model {
        PlaceV6Model {
            command_id: self.command_id@,
            market_id: self.market_id@,
            action: self.action,
            side: self.side,
            order_type: self.order_type,
            quantity_hundredths: self.quantity_hundredths,
            limit_price_micros: self.limit_price_micros,
            market_price_cap_micros: self.market_price_cap_micros,
            expires_after_ms: self.expires_after_ms,
            reduce_only: self.reduce_only,
            provider_client_id: self.provider_client_id@,
            signal_type: opt_view(self.signal_type),
            signal_metadata: opt_view(self.signal_metadata),
            metadata: self.metadata@,
        }
    }
}

impl View for CancelTargetV6 {
    type V = CancelTargetModel;

    open spec fn view(&self) -> CancelTargetModel {
        match self {
            CancelTargetV6::Order { order_id, expected_order_revision } => CancelTargetModel::Order {
                order_id: order_id@,
                expected_order_revision: *expected_order_revision,
            },
            CancelTargetV6::SameDecision { provider_client_id } => CancelTargetModel::SameDecision {
                provider_client_id: provider_client_id@,
            },
        }
    }
}

impl View for StrategyCommandV6 {
    type V = CommandV6Model;

    open spec fn view(&self) -> CommandV6Model {
        match self {
            StrategyCommandV6::PlaceOrder(o) => CommandV6Model::PlaceOrder(o@),
            StrategyCommandV6::CancelOrder { command_id, target } => CommandV6Model::CancelOrder {
                command_id: command_id@,
                target: target@,
            },
            StrategyCommandV6::CancelAllOrders { command_id } => CommandV6Model::CancelAllOrders {
                command_id: command_id@,
            },
            StrategyCommandV6::ScheduleTimer {
                command_id,
                key,
                scheduled_at_epoch_ns,
                generation,
                semantics,
            } => CommandV6Model::ScheduleTimer {
                command_id: command_id@,
                key: key@,
                scheduled_at_epoch_ns: *scheduled_at_epoch_ns,
                generation: generation@,
                semantics: semantics@,
            },
            StrategyCommandV6::CancelTimer { command_id, key, generation } => CommandV6Model::CancelTimer {
                command_id: command_id@,
                key: key@,
                generation: generation@,
            },
            StrategyCommandV6::Stop { command_id, reason } => CommandV6Model::Stop {
                command_id: command_id@,
                reason: reason@,
            },
        }
    }
}

pub open spec fn command_v6_viewer() -> spec_fn(StrategyCommandV6) -> CommandV6Model {
    |c: StrategyCommandV6| c@
}

impl View for AnnotationValueV6 {
    type V = AnnotationModel;

    open spec fn view(&self) -> AnnotationModel {
        match self {
            AnnotationValueV6::Text(s) => AnnotationModel::Text(s@),
            AnnotationValueV6::Integer(i) => AnnotationModel::Integer(*i),
            AnnotationValueV6::FloatBits(b) => AnnotationModel::FloatBits(*b),
            AnnotationValueV6::Bool(b) => AnnotationModel::Bool(*b),
            AnnotationValueV6::Null => AnnotationModel::Null,
        }
    }
}

pub open spec fn field_viewer() -> spec_fn((String, String)) -> (Seq<char>, Seq<char>) {
    |f: (String, String)| (f.0@, f.1@)
}

impl View for TelemetryEntryV6 {
    type V = TelemetryModel;

    open spec fn view(&self) -> TelemetryModel {
        match self {
            TelemetryEntryV6::Counter { name, value_bits, fields } => TelemetryModel::Counter {
                name: name@,
                value_bits: *value_bits,
                fields: fields@.map_values(field_viewer()),
            },
            TelemetryEntryV6::Gauge { name, value_bits, fields } => TelemetryModel::Gauge {
                name: name@,
                value_bits: *value_bits,
                fields: fields@.map_values(field_viewer()),
            },
            TelemetryEntryV6::Annotation { name, value, fields } => TelemetryModel::Annotation {
                name: name@,
                value: value@,
                fields: fields@.map_values(field_viewer()),
            },
        }
    }
}

pub open spec fn telemetry_viewer() -> spec_fn(TelemetryEntryV6) -> TelemetryModel {
    |e: TelemetryEntryV6| e@
}

pub open spec fn string_viewer() -> spec_fn(String) -> Seq<char> {
    |s: String| s@
}

pub open spec fn evidence_v6_viewer() -> spec_fn(ResultEvidenceV6) -> EvidenceModel {
    |e: ResultEvidenceV6| EvidenceModel { code: e.code@, payload: e.payload@ }
}

pub open spec fn diagnostic_v6_viewer() -> spec_fn(ResultDiagnosticV6) -> DiagnosticModel {
    |d: ResultDiagnosticV6| DiagnosticModel { severity: d.severity@, code: d.code@, message: d.message@ }
}

impl View for DecisionResultV6 {
    type V = ResultV6Model;

    open spec fn view(&self) -> ResultV6Model {
        ResultV6Model {
            delivery_id: self.delivery_id@,
            sleeve_identity: self.sleeve_identity@,
            state_fence: self.state_fence@,
            expected_broker_revision: self.expected_broker_revision,
            disposition: self.disposition,
            kernel_checkpoint: opt_checkpoint_v6_model(self.kernel_checkpoint),
            commands: self.commands@.map_values(command_v6_viewer()),
            acknowledged_command_ids: self.acknowledged_command_ids@.map_values(string_viewer()),
            evidence: self.evidence@.map_values(evidence_v6_viewer()),
            diagnostics: self.diagnostics@.map_values(diagnostic_v6_viewer()),
            telemetry: self.telemetry@.map_values(telemetry_viewer()),
        }
    }
}

// ---------------------------------------------------------------------------------------------
// Readers: the checkpoint and its runner section
// ---------------------------------------------------------------------------------------------

#[verifier::opaque]
pub open spec fn u16_at(b: Seq<u8>, p: int) -> Option<(u16, int)> {
    match varint_u16_read(b.skip(p)) {
        Some((v, n)) => Some((v as u16, p + n)),
        None => None,
    }
}

pub open spec fn opt_update_status_at(b: Seq<u8>, p: int) -> Option<
    (Option<UpdateStatusModel>, int),
> {
    match u8_at(b, p) {
        Some((0, q)) => Some((None, q)),
        Some((1, q)) => match update_status_at(b, q) {
            Some((s, e)) => Some((Some(s), e)),
            None => None,
        },
        _ => None,
    }
}

pub struct EntryHeadModel {
    pub command_id: Seq<char>,
    pub kind: BrokerCommandKindV6,
    pub client_order_id: Option<Seq<char>>,
    pub order_id: Option<Seq<char>>,
    pub market_id: Option<Seq<char>>,
}

pub struct EntryOrderModel {
    pub action: Option<OrderActionV6>,
    pub side: Option<ContractSideV6>,
    pub requested_quantity_hundredths: u64,
    pub last_status: Option<UpdateStatusModel>,
    pub filled_quantity_hundredths: u64,
}

pub struct EntryTailModel {
    pub order_revision: u64,
    pub issued_broker_revision: u64,
    pub vanished: bool,
    pub vanished_revision: u64,
    pub absent_views: u16,
    pub delivery_failures: u8,
    pub delivery_deferrals: u8,
}

#[verifier::opaque]
pub open spec fn entry_head_at(b: Seq<u8>, p: int) -> Option<(EntryHeadModel, int)> {
    match str_at(b, p) {
        Some((command_id, p1)) => match kind_at(b, p1) {
            Some((kind, p2)) => match opt_str_at(b, p2) {
                Some((client_order_id, p3)) => match opt_str_at(b, p3) {
                    Some((order_id, p4)) => match opt_str_at(b, p4) {
                        Some((market_id, p5)) => Some(
                            (
                                EntryHeadModel {
                                    command_id,
                                    kind,
                                    client_order_id,
                                    order_id,
                                    market_id,
                                },
                                p5,
                            ),
                        ),
                        None => None,
                    },
                    None => None,
                },
                None => None,
            },
            None => None,
        },
        None => None,
    }
}

#[verifier::opaque]
pub open spec fn entry_order_at(b: Seq<u8>, p: int) -> Option<(EntryOrderModel, int)> {
    match opt_action_v6_at(b, p) {
        Some((action, p1)) => match opt_side_v6_at(b, p1) {
            Some((side, p2)) => match u64_at(b, p2) {
                Some((requested_quantity_hundredths, p3)) => match opt_update_status_at(b, p3) {
                    Some((last_status, p4)) => match u64_at(b, p4) {
                        Some((filled_quantity_hundredths, p5)) => Some(
                            (
                                EntryOrderModel {
                                    action,
                                    side,
                                    requested_quantity_hundredths,
                                    last_status,
                                    filled_quantity_hundredths,
                                },
                                p5,
                            ),
                        ),
                        None => None,
                    },
                    None => None,
                },
                None => None,
            },
            None => None,
        },
        None => None,
    }
}

#[verifier::opaque]
pub open spec fn entry_tail_at(b: Seq<u8>, p: int) -> Option<(EntryTailModel, int)> {
    match u64_at(b, p) {
        Some((order_revision, p1)) => match u64_at(b, p1) {
            Some((issued_broker_revision, p2)) => match bool_at(b, p2) {
                Some((vanished, p3)) => match u64_at(b, p3) {
                    Some((vanished_revision, p4)) => match u16_at(b, p4) {
                        Some((absent_views, p5)) => match u8_at(b, p5) {
                            Some((delivery_failures, p6)) => match u8_at(b, p6) {
                                Some((delivery_deferrals, p7)) => Some(
                                    (
                                        EntryTailModel {
                                            order_revision,
                                            issued_broker_revision,
                                            vanished,
                                            vanished_revision,
                                            absent_views,
                                            delivery_failures,
                                            delivery_deferrals,
                                        },
                                        p7,
                                    ),
                                ),
                                None => None,
                            },
                            None => None,
                        },
                        None => None,
                    },
                    None => None,
                },
                None => None,
            },
            None => None,
        },
        None => None,
    }
}

pub open spec fn entry_of(h: EntryHeadModel, o: EntryOrderModel, t: EntryTailModel) -> EntryModel {
    EntryModel {
        command_id: h.command_id,
        kind: h.kind,
        client_order_id: h.client_order_id,
        order_id: h.order_id,
        market_id: h.market_id,
        action: o.action,
        side: o.side,
        requested_quantity_hundredths: o.requested_quantity_hundredths,
        last_status: o.last_status,
        filled_quantity_hundredths: o.filled_quantity_hundredths,
        order_revision: t.order_revision,
        issued_broker_revision: t.issued_broker_revision,
        vanished: t.vanished,
        vanished_revision: t.vanished_revision,
        absent_views: t.absent_views,
        delivery_failures: t.delivery_failures,
        delivery_deferrals: t.delivery_deferrals,
    }
}

pub open spec fn entry_at(b: Seq<u8>, p: int) -> Option<(EntryModel, int)> {
    match entry_head_at(b, p) {
        Some((h, p1)) => match entry_order_at(b, p1) {
            Some((o, p2)) => match entry_tail_at(b, p2) {
                Some((t, p3)) => Some((entry_of(h, o, t), p3)),
                None => None,
            },
            None => None,
        },
        None => None,
    }
}

pub open spec fn entry_reader() -> spec_fn(Seq<u8>, int) -> Option<(EntryModel, int)> {
    |b: Seq<u8>, p: int| entry_at(b, p)
}

pub open spec fn runner_at(b: Seq<u8>, p: int) -> Option<(RunnerModel, int)> {
    match bool_at(b, p) {
        Some((seeded, p1)) => match u64_at(b, p1) {
            Some((newest_view_revision, p2)) => match list_at(b, p2, entry_reader()) {
                Some((entries, p3)) => Some(
                    (RunnerModel { seeded, newest_view_revision, entries }, p3),
                ),
                None => None,
            },
            None => None,
        },
        None => None,
    }
}

#[verifier::opaque]
pub open spec fn checkpoint_v6_at(b: Seq<u8>, p: int) -> Option<(CheckpointV6Model, int)> {
    match str_at(b, p) {
        Some((codec_profile, p1)) => match u32_at(b, p1) {
            Some((codec_version, p2)) => match str_at(b, p2) {
                Some((strategy_id, p3)) => match str_at(b, p3) {
                    Some((strategy_profile, p4)) => match str_at(b, p4) {
                        Some((profile_and_calculator_digest, p5)) => match u64_at(b, p5) {
                            Some((sequence, p6)) => match bytes_at(b, p6) {
                                Some((state, p7)) => match runner_at(b, p7) {
                                    Some((runner, p8)) => match array32_at(b, p8) {
                                        Some((state_sha256, p9)) => Some(
                                            (
                                                CheckpointV6Model {
                                                    codec_profile,
                                                    codec_version,
                                                    strategy_id,
                                                    strategy_profile,
                                                    profile_and_calculator_digest,
                                                    sequence,
                                                    state,
                                                    runner,
                                                    state_sha256,
                                                },
                                                p9,
                                            ),
                                        ),
                                        None => None,
                                    },
                                    None => None,
                                },
                                None => None,
                            },
                            None => None,
                        },
                        None => None,
                    },
                    None => None,
                },
                None => None,
            },
            None => None,
        },
        None => None,
    }
}

pub open spec fn opt_checkpoint_v6_at(b: Seq<u8>, p: int) -> Option<
    (Option<CheckpointV6Model>, int),
> {
    match u8_at(b, p) {
        Some((0, q)) => Some((None, q)),
        Some((1, q)) => match checkpoint_v6_at(b, q) {
            Some((c, e)) => Some((Some(c), e)),
            None => None,
        },
        _ => None,
    }
}

// ---------------------------------------------------------------------------------------------
// Readers: commands, telemetry and the result
// ---------------------------------------------------------------------------------------------

pub open spec fn order_type_v6_of(i: u32) -> Option<OrderTypeV6> {
    if i == 0 {
        Some(OrderTypeV6::Market)
    } else if i == 1 {
        Some(OrderTypeV6::Limit)
    } else {
        None
    }
}

pub open spec fn action_v6_at(b: Seq<u8>, p: int) -> Option<(OrderActionV6, int)> {
    match u32_at(b, p) {
        Some((i, q)) => match action_v6_of(i) {
            Some(a) => Some((a, q)),
            None => None,
        },
        None => None,
    }
}

pub open spec fn side_v6_at(b: Seq<u8>, p: int) -> Option<(ContractSideV6, int)> {
    match u32_at(b, p) {
        Some((i, q)) => match side_v6_of(i) {
            Some(s) => Some((s, q)),
            None => None,
        },
        None => None,
    }
}

pub open spec fn order_type_v6_at(b: Seq<u8>, p: int) -> Option<(OrderTypeV6, int)> {
    match u32_at(b, p) {
        Some((i, q)) => match order_type_v6_of(i) {
            Some(t) => Some((t, q)),
            None => None,
        },
        None => None,
    }
}

pub struct PlaceV6HeadModel {
    pub command_id: Seq<char>,
    pub market_id: Seq<char>,
    pub action: OrderActionV6,
    pub side: ContractSideV6,
    pub order_type: OrderTypeV6,
    pub quantity_hundredths: u64,
}

pub struct PlaceV6TailModel {
    pub limit_price_micros: Option<u64>,
    pub market_price_cap_micros: Option<u64>,
    pub expires_after_ms: Option<i64>,
    pub reduce_only: bool,
    pub provider_client_id: Seq<char>,
    pub signal_type: Option<Seq<char>>,
    pub signal_metadata: Option<Seq<char>>,
    pub metadata: Seq<u8>,
}

#[verifier::opaque]
pub open spec fn place_v6_head_at(b: Seq<u8>, p: int) -> Option<(PlaceV6HeadModel, int)> {
    match str_at(b, p) {
        Some((command_id, p1)) => match str_at(b, p1) {
            Some((market_id, p2)) => match action_v6_at(b, p2) {
                Some((action, p3)) => match side_v6_at(b, p3) {
                    Some((side, p4)) => match order_type_v6_at(b, p4) {
                        Some((order_type, p5)) => match u64_at(b, p5) {
                            Some((quantity_hundredths, p6)) => Some(
                                (
                                    PlaceV6HeadModel {
                                        command_id,
                                        market_id,
                                        action,
                                        side,
                                        order_type,
                                        quantity_hundredths,
                                    },
                                    p6,
                                ),
                            ),
                            None => None,
                        },
                        None => None,
                    },
                    None => None,
                },
                None => None,
            },
            None => None,
        },
        None => None,
    }
}

#[verifier::opaque]
pub open spec fn place_v6_tail_at(b: Seq<u8>, p: int) -> Option<(PlaceV6TailModel, int)> {
    match opt_u64_at(b, p) {
        Some((limit_price_micros, p1)) => match opt_u64_at(b, p1) {
            Some((market_price_cap_micros, p2)) => match opt_i64_at(b, p2) {
                Some((expires_after_ms, p3)) => match bool_at(b, p3) {
                    Some((reduce_only, p4)) => match str_at(b, p4) {
                        Some((provider_client_id, p5)) => match opt_str_at(b, p5) {
                            Some((signal_type, p6)) => match opt_str_at(b, p6) {
                                Some((signal_metadata, p7)) => match bytes_at(b, p7) {
                                    Some((metadata, p8)) => Some(
                                        (
                                            PlaceV6TailModel {
                                                limit_price_micros,
                                                market_price_cap_micros,
                                                expires_after_ms,
                                                reduce_only,
                                                provider_client_id,
                                                signal_type,
                                                signal_metadata,
                                                metadata,
                                            },
                                            p8,
                                        ),
                                    ),
                                    None => None,
                                },
                                None => None,
                            },
                            None => None,
                        },
                        None => None,
                    },
                    None => None,
                },
                None => None,
            },
            None => None,
        },
        None => None,
    }
}

pub open spec fn place_v6_of(h: PlaceV6HeadModel, t: PlaceV6TailModel) -> PlaceV6Model {
    PlaceV6Model {
        command_id: h.command_id,
        market_id: h.market_id,
        action: h.action,
        side: h.side,
        order_type: h.order_type,
        quantity_hundredths: h.quantity_hundredths,
        limit_price_micros: t.limit_price_micros,
        market_price_cap_micros: t.market_price_cap_micros,
        expires_after_ms: t.expires_after_ms,
        reduce_only: t.reduce_only,
        provider_client_id: t.provider_client_id,
        signal_type: t.signal_type,
        signal_metadata: t.signal_metadata,
        metadata: t.metadata,
    }
}

pub open spec fn place_v6_at(b: Seq<u8>, p: int) -> Option<(PlaceV6Model, int)> {
    match place_v6_head_at(b, p) {
        Some((h, q)) => match place_v6_tail_at(b, q) {
            Some((t, e)) => Some((place_v6_of(h, t), e)),
            None => None,
        },
        None => None,
    }
}

pub open spec fn cancel_target_at(b: Seq<u8>, p: int) -> Option<(CancelTargetModel, int)> {
    match u32_at(b, p) {
        Some((0, q)) => match str_at(b, q) {
            Some((order_id, q1)) => match u64_at(b, q1) {
                Some((expected_order_revision, q2)) => Some(
                    (CancelTargetModel::Order { order_id, expected_order_revision }, q2),
                ),
                None => None,
            },
            None => None,
        },
        Some((1, q)) => match str_at(b, q) {
            Some((provider_client_id, q1)) => Some(
                (CancelTargetModel::SameDecision { provider_client_id }, q1),
            ),
            None => None,
        },
        _ => None,
    }
}

/// The fields of the command variant `variant`, read from `p`.
#[verifier::opaque]
pub open spec fn command_v6_fields_at(b: Seq<u8>, p: int, variant: u32) -> Option<
    (CommandV6Model, int),
> {
    if variant == 0 {
        match place_v6_at(b, p) {
            Some((o, e)) => Some((CommandV6Model::PlaceOrder(o), e)),
            None => None,
        }
    } else if variant == 1 {
        match str_at(b, p) {
            Some((command_id, p1)) => match cancel_target_at(b, p1) {
                Some((target, p2)) => Some((CommandV6Model::CancelOrder { command_id, target }, p2)),
                None => None,
            },
            None => None,
        }
    } else if variant == 2 {
        match str_at(b, p) {
            Some((command_id, p1)) => Some((CommandV6Model::CancelAllOrders { command_id }, p1)),
            None => None,
        }
    } else if variant == 3 {
        match str_at(b, p) {
            Some((command_id, p1)) => match str_at(b, p1) {
                Some((key, p2)) => match u64_at(b, p2) {
                    Some((scheduled_at_epoch_ns, p3)) => match str_at(b, p3) {
                        Some((generation, p4)) => match bytes_at(b, p4) {
                            Some((semantics, p5)) => Some(
                                (
                                    CommandV6Model::ScheduleTimer {
                                        command_id,
                                        key,
                                        scheduled_at_epoch_ns,
                                        generation,
                                        semantics,
                                    },
                                    p5,
                                ),
                            ),
                            None => None,
                        },
                        None => None,
                    },
                    None => None,
                },
                None => None,
            },
            None => None,
        }
    } else if variant == 4 {
        match str_at(b, p) {
            Some((command_id, p1)) => match str_at(b, p1) {
                Some((key, p2)) => match str_at(b, p2) {
                    Some((generation, p3)) => Some(
                        (CommandV6Model::CancelTimer { command_id, key, generation }, p3),
                    ),
                    None => None,
                },
                None => None,
            },
            None => None,
        }
    } else if variant == 5 {
        match str_at(b, p) {
            Some((command_id, p1)) => match str_at(b, p1) {
                Some((reason, p2)) => Some((CommandV6Model::Stop { command_id, reason }, p2)),
                None => None,
            },
            None => None,
        }
    } else {
        None
    }
}

pub open spec fn command_v6_at(b: Seq<u8>, p: int) -> Option<(CommandV6Model, int)> {
    match u32_at(b, p) {
        Some((variant, q)) => command_v6_fields_at(b, q, variant),
        None => None,
    }
}

pub open spec fn annotation_at(b: Seq<u8>, p: int) -> Option<(AnnotationModel, int)> {
    match u32_at(b, p) {
        Some((0, q)) => match str_at(b, q) {
            Some((s, e)) => Some((AnnotationModel::Text(s), e)),
            None => None,
        },
        Some((1, q)) => match i64_at(b, q) {
            Some((i, e)) => Some((AnnotationModel::Integer(i), e)),
            None => None,
        },
        Some((2, q)) => match u64_at(b, q) {
            Some((v, e)) => Some((AnnotationModel::FloatBits(v), e)),
            None => None,
        },
        Some((3, q)) => match bool_at(b, q) {
            Some((v, e)) => Some((AnnotationModel::Bool(v), e)),
            None => None,
        },
        Some((4, q)) => Some((AnnotationModel::Null, q)),
        _ => None,
    }
}

pub open spec fn field_at(b: Seq<u8>, p: int) -> Option<((Seq<char>, Seq<char>), int)> {
    match str_at(b, p) {
        Some((k, p1)) => match str_at(b, p1) {
            Some((v, p2)) => Some(((k, v), p2)),
            None => None,
        },
        None => None,
    }
}

pub open spec fn field_reader() -> spec_fn(Seq<u8>, int) -> Option<((Seq<char>, Seq<char>), int)> {
    |b: Seq<u8>, p: int| field_at(b, p)
}

#[verifier::opaque]
pub open spec fn telemetry_at(b: Seq<u8>, p: int) -> Option<(TelemetryModel, int)> {
    match u32_at(b, p) {
        Some((variant, q)) => if variant == 0 || variant == 1 {
            match str_at(b, q) {
                Some((name, q1)) => match u64_at(b, q1) {
                    Some((value_bits, q2)) => match list_at(b, q2, field_reader()) {
                        Some((fields, q3)) => Some(
                            (
                                if variant == 0 {
                                    TelemetryModel::Counter { name, value_bits, fields }
                                } else {
                                    TelemetryModel::Gauge { name, value_bits, fields }
                                },
                                q3,
                            ),
                        ),
                        None => None,
                    },
                    None => None,
                },
                None => None,
            }
        } else if variant == 2 {
            match str_at(b, q) {
                Some((name, q1)) => match annotation_at(b, q1) {
                    Some((value, q2)) => match list_at(b, q2, field_reader()) {
                        Some((fields, q3)) => Some(
                            (TelemetryModel::Annotation { name, value, fields }, q3),
                        ),
                        None => None,
                    },
                    None => None,
                },
                None => None,
            }
        } else {
            None
        },
        None => None,
    }
}

pub open spec fn disposition_v6_at(b: Seq<u8>, p: int) -> Option<(DecisionDispositionV6, int)> {
    match u32_at(b, p) {
        Some((0, q)) => Some((DecisionDispositionV6::Completed, q)),
        Some((1, q)) => Some((DecisionDispositionV6::Rejected, q)),
        _ => None,
    }
}

pub open spec fn evidence_v6_at(b: Seq<u8>, p: int) -> Option<(EvidenceModel, int)> {
    match str_at(b, p) {
        Some((code, p1)) => match bytes_at(b, p1) {
            Some((payload, p2)) => Some((EvidenceModel { code, payload }, p2)),
            None => None,
        },
        None => None,
    }
}

pub open spec fn diagnostic_v6_at(b: Seq<u8>, p: int) -> Option<(DiagnosticModel, int)> {
    match str_at(b, p) {
        Some((severity, p1)) => match str_at(b, p1) {
            Some((code, p2)) => match str_at(b, p2) {
                Some((message, p3)) => Some((DiagnosticModel { severity, code, message }, p3)),
                None => None,
            },
            None => None,
        },
        None => None,
    }
}

pub open spec fn command_v6_reader() -> spec_fn(Seq<u8>, int) -> Option<(CommandV6Model, int)> {
    |b: Seq<u8>, p: int| command_v6_at(b, p)
}

pub open spec fn string_reader() -> spec_fn(Seq<u8>, int) -> Option<(Seq<char>, int)> {
    |b: Seq<u8>, p: int| str_at(b, p)
}

pub open spec fn evidence_v6_reader() -> spec_fn(Seq<u8>, int) -> Option<(EvidenceModel, int)> {
    |b: Seq<u8>, p: int| evidence_v6_at(b, p)
}

pub open spec fn diagnostic_v6_reader() -> spec_fn(Seq<u8>, int) -> Option<(DiagnosticModel, int)> {
    |b: Seq<u8>, p: int| diagnostic_v6_at(b, p)
}

pub open spec fn telemetry_reader() -> spec_fn(Seq<u8>, int) -> Option<(TelemetryModel, int)> {
    |b: Seq<u8>, p: int| telemetry_at(b, p)
}

/// The result's identity, disposition and checkpoint.
pub struct ResultHeadModel {
    pub delivery_id: Seq<char>,
    pub sleeve_identity: Seq<char>,
    pub state_fence: Seq<char>,
    pub expected_broker_revision: u64,
    pub disposition: DecisionDispositionV6,
    pub kernel_checkpoint: Option<CheckpointV6Model>,
}

/// The result's lists.
pub struct ResultTailModel {
    pub commands: Seq<CommandV6Model>,
    pub acknowledged_command_ids: Seq<Seq<char>>,
    pub evidence: Seq<EvidenceModel>,
    pub diagnostics: Seq<DiagnosticModel>,
    pub telemetry: Seq<TelemetryModel>,
}

#[verifier::opaque]
pub open spec fn result_v6_head_at(b: Seq<u8>, p: int) -> Option<(ResultHeadModel, int)> {
    match str_at(b, p) {
        Some((delivery_id, p1)) => match str_at(b, p1) {
            Some((sleeve_identity, p2)) => match str_at(b, p2) {
                Some((state_fence, p3)) => match u64_at(b, p3) {
                    Some((expected_broker_revision, p4)) => match disposition_v6_at(b, p4) {
                        Some((disposition, p5)) => match opt_checkpoint_v6_at(b, p5) {
                            Some((kernel_checkpoint, p6)) => Some(
                                (
                                    ResultHeadModel {
                                        delivery_id,
                                        sleeve_identity,
                                        state_fence,
                                        expected_broker_revision,
                                        disposition,
                                        kernel_checkpoint,
                                    },
                                    p6,
                                ),
                            ),
                            None => None,
                        },
                        None => None,
                    },
                    None => None,
                },
                None => None,
            },
            None => None,
        },
        None => None,
    }
}

#[verifier::opaque]
pub open spec fn result_v6_tail_at(b: Seq<u8>, p: int) -> Option<(ResultTailModel, int)> {
    match list_at(b, p, command_v6_reader()) {
        Some((commands, p1)) => match list_at(b, p1, string_reader()) {
            Some((acknowledged_command_ids, p2)) => match list_at(b, p2, evidence_v6_reader()) {
                Some((evidence, p3)) => match list_at(b, p3, diagnostic_v6_reader()) {
                    Some((diagnostics, p4)) => match list_at(b, p4, telemetry_reader()) {
                        Some((telemetry, p5)) => Some(
                            (
                                ResultTailModel {
                                    commands,
                                    acknowledged_command_ids,
                                    evidence,
                                    diagnostics,
                                    telemetry,
                                },
                                p5,
                            ),
                        ),
                        None => None,
                    },
                    None => None,
                },
                None => None,
            },
            None => None,
        },
        None => None,
    }
}

pub open spec fn result_v6_of(h: ResultHeadModel, t: ResultTailModel) -> ResultV6Model {
    ResultV6Model {
        delivery_id: h.delivery_id,
        sleeve_identity: h.sleeve_identity,
        state_fence: h.state_fence,
        expected_broker_revision: h.expected_broker_revision,
        disposition: h.disposition,
        kernel_checkpoint: h.kernel_checkpoint,
        commands: t.commands,
        acknowledged_command_ids: t.acknowledged_command_ids,
        evidence: t.evidence,
        diagnostics: t.diagnostics,
        telemetry: t.telemetry,
    }
}

pub open spec fn result_v6_at(b: Seq<u8>, p: int) -> Option<(ResultV6Model, int)> {
    match result_v6_head_at(b, p) {
        Some((h, q)) => match result_v6_tail_at(b, q) {
            Some((t, e)) => Some((result_v6_of(h, t), e)),
            None => None,
        },
        None => None,
    }
}

/// What the bytes of a V6 result read as, before its validity is checked: at most
/// `MAX_DECISION_RESULT_V6_BYTES` beginning with the V6 magic, else `Decode`; then a result
/// that takes every remaining byte (`TrailingBytes` when bytes follow it, `Decode` when they do
/// not read as a result).
pub open spec fn decision_result_v6_read(b: Seq<u8>) -> Result<ResultV6Model, DecisionV6Error> {
    if b.len() > MAX_DECISION_RESULT_V6_BYTES || !has_prefix(b, DECISION_RESULT_V6_MAGIC@) {
        Err(DecisionV6Error::Decode)
    } else {
        match result_v6_at(b, 8) {
            Some((m, e)) => if e == b.len() {
                Ok(m)
            } else {
                Err(DecisionV6Error::TrailingBytes)
            },
            None => Err(DecisionV6Error::Decode),
        }
    }
}

// ---------------------------------------------------------------------------------------------
// Reading what was written: the checkpoint
// ---------------------------------------------------------------------------------------------

proof fn lemma_u16_at(b: Seq<u8>, p: int, v: u16)
    requires
        holds_at(b, p, varint(v as nat)),
    ensures
        u16_at(b, p) == Some((v, p + varint(v as nat).len())),
{
    reveal(u16_at);
    assert(b.skip(p) =~= varint(v as nat) + b.skip(p + varint(v as nat).len()));
    lemma_varint_u16_read(v, b.skip(p + varint(v as nat).len()));
}

proof fn lemma_opt_update_status_at(
    b: Seq<u8>,
    p: int,
    s: Option<crate::decision_v6::OrderUpdateStatusV6>,
)
    requires
        holds_at(b, p, wire_opt_update_status_spec(s)),
        b.len() <= u64::MAX,
    ensures
        opt_update_status_at(b, p) == Some(
            (
                match s {
                    Some(x) => Some(x@),
                    None => None,
                },
                p + wire_opt_update_status_spec(s).len(),
            ),
        ),
{
    assert(b[p] == b.subrange(p, p + wire_opt_update_status_spec(s).len())[0]);
    match s {
        Some(x) => {
            lemma_holds_split(b, p, seq![1u8], crate::checkpoint_v6::wire_update_status_spec(x));
            lemma_update_status_at(b, p + 1, x);
        },
        None => {},
    }
}

pub open spec fn entry_head_model(e: RunnerEntryV6) -> EntryHeadModel {
    EntryHeadModel {
        command_id: e.command_id@,
        kind: e.kind,
        client_order_id: opt_view(e.client_order_id),
        order_id: opt_view(e.order_id),
        market_id: opt_view(e.market_id),
    }
}

pub open spec fn entry_order_model(e: RunnerEntryV6) -> EntryOrderModel {
    EntryOrderModel {
        action: e.action,
        side: e.side,
        requested_quantity_hundredths: e.requested_quantity_hundredths,
        last_status: match e.last_status {
            Some(x) => Some(x@),
            None => None,
        },
        filled_quantity_hundredths: e.filled_quantity_hundredths,
    }
}

pub open spec fn entry_tail_model(e: RunnerEntryV6) -> EntryTailModel {
    EntryTailModel {
        order_revision: e.order_revision,
        issued_broker_revision: e.issued_broker_revision,
        vanished: e.vanished,
        vanished_revision: e.vanished_revision,
        absent_views: e.absent_views,
        delivery_failures: e.delivery_failures,
        delivery_deferrals: e.delivery_deferrals,
    }
}

proof fn lemma_entry_head_at(b: Seq<u8>, p: int, e: RunnerEntryV6)
    requires
        holds_at(b, p, wire_entry_head_spec(e)),
        b.len() <= u64::MAX,
    ensures
        entry_head_at(b, p) == Some((entry_head_model(e), p + wire_entry_head_spec(e).len())),
{
    reveal(entry_head_at);
    let w1 = wire_str_spec(e.command_id@);
    let w2 = varint(kind_index(e.kind));
    let w3 = wire_opt_str_spec(opt_view(e.client_order_id));
    let w4 = wire_opt_str_spec(opt_view(e.order_id));
    let w5 = wire_opt_str_spec(opt_view(e.market_id));
    assert(wire_entry_head_spec(e) =~= w1 + w2 + w3 + w4 + w5);
    lemma_holds_split(b, p, w1 + w2 + w3 + w4, w5);
    lemma_holds_split(b, p, w1 + w2 + w3, w4);
    lemma_holds_split(b, p, w1 + w2, w3);
    lemma_holds_split(b, p, w1, w2);
    let q1 = p + w1.len();
    let q2 = q1 + w2.len();
    let q3 = q2 + w3.len();
    let q4 = q3 + w4.len();
    lemma_str_at(b, p, e.command_id@);
    lemma_kind_at(b, q1, e.kind);
    lemma_opt_str_at(b, q2, opt_view(e.client_order_id));
    lemma_opt_str_at(b, q3, opt_view(e.order_id));
    lemma_opt_str_at(b, q4, opt_view(e.market_id));
}

proof fn lemma_entry_order_at(b: Seq<u8>, p: int, e: RunnerEntryV6)
    requires
        holds_at(b, p, wire_entry_order_spec(e)),
        b.len() <= u64::MAX,
    ensures
        entry_order_at(b, p) == Some((entry_order_model(e), p + wire_entry_order_spec(e).len())),
{
    reveal(entry_order_at);
    let w1 = wire_opt_action_spec(e.action);
    let w2 = wire_opt_side_spec(e.side);
    let w3 = varint(e.requested_quantity_hundredths as nat);
    let w4 = wire_opt_update_status_spec(e.last_status);
    let w5 = varint(e.filled_quantity_hundredths as nat);
    assert(wire_entry_order_spec(e) =~= w1 + w2 + w3 + w4 + w5);
    lemma_holds_split(b, p, w1 + w2 + w3 + w4, w5);
    lemma_holds_split(b, p, w1 + w2 + w3, w4);
    lemma_holds_split(b, p, w1 + w2, w3);
    lemma_holds_split(b, p, w1, w2);
    let q1 = p + w1.len();
    let q2 = q1 + w2.len();
    let q3 = q2 + w3.len();
    let q4 = q3 + w4.len();
    lemma_opt_action_v6_at(b, p, e.action);
    lemma_opt_side_v6_at(b, q1, e.side);
    lemma_u64_at(b, q2, e.requested_quantity_hundredths);
    lemma_opt_update_status_at(b, q3, e.last_status);
    lemma_u64_at(b, q4, e.filled_quantity_hundredths);
}

proof fn lemma_entry_tail_at(b: Seq<u8>, p: int, e: RunnerEntryV6)
    requires
        holds_at(b, p, wire_entry_tail_spec(e)),
    ensures
        entry_tail_at(b, p) == Some((entry_tail_model(e), p + wire_entry_tail_spec(e).len())),
{
    reveal(entry_tail_at);
    let w1 = varint(e.order_revision as nat);
    let w2 = varint(e.issued_broker_revision as nat);
    let w3 = wire_bool_spec(e.vanished);
    let w4 = varint(e.vanished_revision as nat);
    let w5 = varint(e.absent_views as nat);
    let w6 = seq![e.delivery_failures];
    let w7 = seq![e.delivery_deferrals];
    assert(wire_entry_tail_spec(e) =~= w1 + w2 + w3 + w4 + w5 + w6 + w7);
    lemma_holds_split(b, p, w1 + w2 + w3 + w4 + w5 + w6, w7);
    lemma_holds_split(b, p, w1 + w2 + w3 + w4 + w5, w6);
    lemma_holds_split(b, p, w1 + w2 + w3 + w4, w5);
    lemma_holds_split(b, p, w1 + w2 + w3, w4);
    lemma_holds_split(b, p, w1 + w2, w3);
    lemma_holds_split(b, p, w1, w2);
    let q1 = p + w1.len();
    let q2 = q1 + w2.len();
    let q3 = q2 + w3.len();
    let q4 = q3 + w4.len();
    let q5 = q4 + w5.len();
    let q6 = q5 + w6.len();
    lemma_u64_at(b, p, e.order_revision);
    lemma_u64_at(b, q1, e.issued_broker_revision);
    assert(b[q2] == b.subrange(q2, q2 + w3.len())[0]);
    lemma_u64_at(b, q3, e.vanished_revision);
    lemma_u16_at(b, q4, e.absent_views);
    assert(b[q5] == b.subrange(q5, q5 + 1)[0]);
    assert(b[q6] == b.subrange(q6, q6 + 1)[0]);
}

proof fn lemma_entry_at(b: Seq<u8>, p: int, e: RunnerEntryV6)
    requires
        holds_at(b, p, wire_runner_entry_spec(e)),
        b.len() <= u64::MAX,
    ensures
        entry_at(b, p) == Some((e@, p + wire_runner_entry_spec(e).len())),
{
    let h = wire_entry_head_spec(e);
    let o = wire_entry_order_spec(e);
    let t = wire_entry_tail_spec(e);
    lemma_holds_split(b, p, h + o, t);
    lemma_holds_split(b, p, h, o);
    lemma_entry_head_at(b, p, e);
    lemma_entry_order_at(b, p + h.len(), e);
    lemma_entry_tail_at(b, p + h.len() + o.len(), e);
}

pub open spec fn entry_encoder() -> spec_fn(RunnerEntryV6) -> Seq<u8> {
    |e: RunnerEntryV6| wire_runner_entry_spec(e)
}

proof fn lemma_entries_are_items(s: Seq<RunnerEntryV6>)
    ensures
        wire_runner_entries_spec(s) == wire_items(s, entry_encoder()),
    decreases s.len(),
{
    if s.len() > 0 {
        lemma_entries_are_items(s.drop_last());
    }
}

pub(crate) proof fn lemma_runner_at(b: Seq<u8>, p: int, r: RunnerSectionV6)
    requires
        holds_at(b, p, wire_runner_section_spec(r)),
        b.len() <= u64::MAX,
    ensures
        runner_at(b, p) == Some((r@, p + wire_runner_section_spec(r).len())),
{
    let w1 = wire_bool_spec(r.seeded);
    let w2 = varint(r.newest_view_revision as nat);
    let w3 = wire_list(r.entries@, entry_encoder());
    lemma_entries_are_items(r.entries@);
    assert(wire_runner_section_spec(r) =~= w1 + w2 + w3);
    lemma_holds_split(b, p, w1 + w2, w3);
    lemma_holds_split(b, p, w1, w2);
    assert(b[p] == b.subrange(p, p + w1.len())[0]);
    lemma_u64_at(b, p + 1, r.newest_view_revision);
    let es = r.entries@;
    assert forall|x: RunnerEntryV6| #[trigger] entry_encoder()(x).len() >= 1 by {
        assert(wire_str_spec(x.command_id@).len() >= 1);
    }
    assert forall|i: int, q: int|
        0 <= i < es.len() && #[trigger] holds_at(b, q, entry_encoder()(es[i])) implies entry_reader()(
        b,
        q,
    ) == Some((entry_viewer()(es[i]), q + entry_encoder()(es[i]).len())) by {
        lemma_entry_at(b, q, es[i]);
    }
    lemma_list_at(b, p + w1.len() + w2.len(), es, entry_encoder(), entry_viewer(), entry_reader());
}

proof fn lemma_checkpoint_v6_at(b: Seq<u8>, p: int, c: KernelCheckpointV6)
    requires
        holds_at(b, p, wire_checkpoint_v6_spec(c)),
        b.len() <= u64::MAX,
    ensures
        checkpoint_v6_at(b, p) == Some((c@, p + wire_checkpoint_v6_spec(c).len())),
{
    reveal(checkpoint_v6_at);
    let w1 = wire_str_spec(c.codec_profile@);
    let w2 = varint(c.codec_version as nat);
    let w3 = wire_str_spec(c.strategy_id@);
    let w4 = wire_str_spec(c.strategy_profile@);
    let w5 = wire_str_spec(c.profile_and_calculator_digest@);
    let w6 = varint(c.sequence as nat);
    let w7 = wire_bytes_spec(c.state@);
    let w8 = wire_runner_section_spec(c.runner);
    let w9 = c.state_sha256@;
    assert(wire_checkpoint_v6_spec(c) =~= w1 + w2 + w3 + w4 + w5 + w6 + w7 + w8 + w9);
    lemma_holds_split(b, p, w1 + w2 + w3 + w4 + w5 + w6 + w7 + w8, w9);
    lemma_holds_split(b, p, w1 + w2 + w3 + w4 + w5 + w6 + w7, w8);
    lemma_holds_split(b, p, w1 + w2 + w3 + w4 + w5 + w6, w7);
    lemma_holds_split(b, p, w1 + w2 + w3 + w4 + w5, w6);
    lemma_holds_split(b, p, w1 + w2 + w3 + w4, w5);
    lemma_holds_split(b, p, w1 + w2 + w3, w4);
    lemma_holds_split(b, p, w1 + w2, w3);
    lemma_holds_split(b, p, w1, w2);
    let q1 = p + w1.len();
    let q2 = q1 + w2.len();
    let q3 = q2 + w3.len();
    let q4 = q3 + w4.len();
    let q5 = q4 + w5.len();
    let q6 = q5 + w6.len();
    let q7 = q6 + w7.len();
    let q8 = q7 + w8.len();
    lemma_str_at(b, p, c.codec_profile@);
    lemma_u32_at(b, q1, c.codec_version);
    lemma_str_at(b, q2, c.strategy_id@);
    lemma_str_at(b, q3, c.strategy_profile@);
    lemma_str_at(b, q4, c.profile_and_calculator_digest@);
    lemma_u64_at(b, q5, c.sequence);
    lemma_bytes_at(b, q6, c.state@);
    lemma_runner_at(b, q7, c.runner);
    assert(array32_at(b, q8) == Some((w9, q8 + 32)));
}

proof fn lemma_opt_checkpoint_v6_at(b: Seq<u8>, p: int, c: Option<KernelCheckpointV6>)
    requires
        holds_at(b, p, wire_opt_checkpoint_v6_spec(c)),
        b.len() <= u64::MAX,
    ensures
        opt_checkpoint_v6_at(b, p) == Some(
            (opt_checkpoint_v6_model(c), p + wire_opt_checkpoint_v6_spec(c).len()),
        ),
{
    assert(b[p] == b.subrange(p, p + wire_opt_checkpoint_v6_spec(c).len())[0]);
    match c {
        Some(x) => {
            lemma_holds_split(b, p, seq![1u8], wire_checkpoint_v6_spec(x));
            lemma_checkpoint_v6_at(b, p + 1, x);
        },
        None => {},
    }
}

// ---------------------------------------------------------------------------------------------
// Reading what was written: commands
// ---------------------------------------------------------------------------------------------

pub open spec fn place_v6_head_model(o: PlaceOrderV6) -> PlaceV6HeadModel {
    PlaceV6HeadModel {
        command_id: o.command_id@,
        market_id: o.market_id@,
        action: o.action,
        side: o.side,
        order_type: o.order_type,
        quantity_hundredths: o.quantity_hundredths,
    }
}

pub open spec fn place_v6_tail_model(o: PlaceOrderV6) -> PlaceV6TailModel {
    PlaceV6TailModel {
        limit_price_micros: o.limit_price_micros,
        market_price_cap_micros: o.market_price_cap_micros,
        expires_after_ms: o.expires_after_ms,
        reduce_only: o.reduce_only,
        provider_client_id: o.provider_client_id@,
        signal_type: opt_view(o.signal_type),
        signal_metadata: opt_view(o.signal_metadata),
        metadata: o.metadata@,
    }
}

proof fn lemma_place_v6_head_at(b: Seq<u8>, p: int, o: PlaceOrderV6)
    requires
        holds_at(b, p, wire_place_v6_head_spec(o)),
        b.len() <= u64::MAX,
    ensures
        place_v6_head_at(b, p) == Some((place_v6_head_model(o), p + wire_place_v6_head_spec(o).len())),
{
    reveal(place_v6_head_at);
    let w1 = wire_str_spec(o.command_id@);
    let w2 = wire_str_spec(o.market_id@);
    let w3 = varint(action_index(o.action));
    let w4 = varint(side_index(o.side));
    let w5 = varint(order_type_v6_index(o.order_type));
    let w6 = varint(o.quantity_hundredths as nat);
    assert(wire_place_v6_head_spec(o) =~= w1 + w2 + w3 + w4 + w5 + w6);
    lemma_holds_split(b, p, w1 + w2 + w3 + w4 + w5, w6);
    lemma_holds_split(b, p, w1 + w2 + w3 + w4, w5);
    lemma_holds_split(b, p, w1 + w2 + w3, w4);
    lemma_holds_split(b, p, w1 + w2, w3);
    lemma_holds_split(b, p, w1, w2);
    let q1 = p + w1.len();
    let q2 = q1 + w2.len();
    let q3 = q2 + w3.len();
    let q4 = q3 + w4.len();
    let q5 = q4 + w5.len();
    lemma_str_at(b, p, o.command_id@);
    lemma_str_at(b, q1, o.market_id@);
    lemma_u32_at(b, q2, action_index(o.action) as u32);
    lemma_u32_at(b, q3, side_index(o.side) as u32);
    lemma_u32_at(b, q4, order_type_v6_index(o.order_type) as u32);
    lemma_u64_at(b, q5, o.quantity_hundredths);
}

proof fn lemma_place_v6_tail_at(b: Seq<u8>, p: int, o: PlaceOrderV6)
    requires
        holds_at(b, p, wire_place_v6_tail_spec(o)),
        b.len() <= u64::MAX,
    ensures
        place_v6_tail_at(b, p) == Some((place_v6_tail_model(o), p + wire_place_v6_tail_spec(o).len())),
{
    reveal(place_v6_tail_at);
    let t1 = wire_opt_u64_spec(o.limit_price_micros);
    let t2 = wire_opt_u64_spec(o.market_price_cap_micros);
    let t3 = wire_opt_i64_spec(o.expires_after_ms);
    let t4 = wire_bool_spec(o.reduce_only);
    let t5 = wire_str_spec(o.provider_client_id@);
    let t6 = wire_opt_str_spec(opt_view(o.signal_type));
    let t7 = wire_opt_str_spec(opt_view(o.signal_metadata));
    let t8 = wire_bytes_spec(o.metadata@);
    assert(wire_place_v6_tail_spec(o) =~= t1 + t2 + t3 + t4 + t5 + t6 + t7 + t8);
    lemma_holds_split(b, p, t1 + t2 + t3 + t4 + t5 + t6 + t7, t8);
    lemma_holds_split(b, p, t1 + t2 + t3 + t4 + t5 + t6, t7);
    lemma_holds_split(b, p, t1 + t2 + t3 + t4 + t5, t6);
    lemma_holds_split(b, p, t1 + t2 + t3 + t4, t5);
    lemma_holds_split(b, p, t1 + t2 + t3, t4);
    lemma_holds_split(b, p, t1 + t2, t3);
    lemma_holds_split(b, p, t1, t2);
    let r1 = p + t1.len();
    let r2 = r1 + t2.len();
    let r3 = r2 + t3.len();
    let r4 = r3 + t4.len();
    let r5 = r4 + t5.len();
    let r6 = r5 + t6.len();
    let r7 = r6 + t7.len();
    lemma_opt_u64_at(b, p, o.limit_price_micros);
    lemma_opt_u64_at(b, r1, o.market_price_cap_micros);
    lemma_opt_i64_at(b, r2, o.expires_after_ms);
    assert(b[r3] == b.subrange(r3, r3 + t4.len())[0]);
    assert(bool_at(b, r3) == Some((o.reduce_only, r4)));
    lemma_str_at(b, r4, o.provider_client_id@);
    lemma_opt_str_at(b, r5, opt_view(o.signal_type));
    lemma_opt_str_at(b, r6, opt_view(o.signal_metadata));
    lemma_bytes_at(b, r7, o.metadata@);
}

proof fn lemma_place_v6_at(b: Seq<u8>, p: int, o: PlaceOrderV6)
    requires
        holds_at(b, p, wire_place_v6_spec(o)),
        b.len() <= u64::MAX,
    ensures
        place_v6_at(b, p) == Some((o@, p + wire_place_v6_spec(o).len())),
{
    let head = wire_place_v6_head_spec(o);
    let tail = wire_place_v6_tail_spec(o);
    lemma_holds_split(b, p, head, tail);
    lemma_place_v6_head_at(b, p, o);
    lemma_place_v6_tail_at(b, p + head.len(), o);
    assert(place_v6_of(place_v6_head_model(o), place_v6_tail_model(o)) == o@);
}

proof fn lemma_cancel_target_at(b: Seq<u8>, p: int, t: CancelTargetV6)
    requires
        holds_at(b, p, wire_cancel_target_spec(t)),
        b.len() <= u64::MAX,
    ensures
        cancel_target_at(b, p) == Some((t@, p + wire_cancel_target_spec(t).len())),
{
    match t {
        CancelTargetV6::Order { order_id, expected_order_revision } => {
            let w1 = wire_str_spec(order_id@);
            let w2 = varint(expected_order_revision as nat);
            assert(wire_cancel_target_spec(t) =~= varint(0) + (w1 + w2));
            lemma_holds_split(b, p, varint(0), w1 + w2);
            lemma_u32_at(b, p, 0);
            lemma_holds_split(b, p + 1, w1, w2);
            lemma_str_at(b, p + 1, order_id@);
            lemma_u64_at(b, p + 1 + w1.len(), expected_order_revision);
        },
        CancelTargetV6::SameDecision { provider_client_id } => {
            let w1 = wire_str_spec(provider_client_id@);
            lemma_holds_split(b, p, varint(1), w1);
            lemma_u32_at(b, p, 1);
            lemma_str_at(b, p + 1, provider_client_id@);
        },
    }
}

proof fn lemma_cancel_order_v6_at(b: Seq<u8>, p: int, c: StrategyCommandV6)
    requires
        c is CancelOrder,
        holds_at(b, p, wire_command_v6_spec(c)),
        b.len() <= u64::MAX,
    ensures
        command_v6_at(b, p) == Some((c@, p + wire_command_v6_spec(c).len())),
{
    reveal(command_v6_fields_at);
    match c {
        StrategyCommandV6::CancelOrder { command_id, target } => {
            let w1 = wire_str_spec(command_id@);
            let w2 = wire_cancel_target_spec(target);
            assert(wire_command_v6_spec(c) =~= varint(1) + (w1 + w2));
            lemma_holds_split(b, p, varint(1), w1 + w2);
            lemma_u32_at(b, p, 1);
            lemma_holds_split(b, p + 1, w1, w2);
            lemma_str_at(b, p + 1, command_id@);
            lemma_cancel_target_at(b, p + 1 + w1.len(), target);
        },
        _ => {},
    }
}

proof fn lemma_schedule_timer_v6_at(b: Seq<u8>, p: int, c: StrategyCommandV6)
    requires
        c is ScheduleTimer,
        holds_at(b, p, wire_command_v6_spec(c)),
        b.len() <= u64::MAX,
    ensures
        command_v6_at(b, p) == Some((c@, p + wire_command_v6_spec(c).len())),
{
    reveal(command_v6_fields_at);
    match c {
        StrategyCommandV6::ScheduleTimer {
            command_id,
            key,
            scheduled_at_epoch_ns,
            generation,
            semantics,
        } => {
            let w1 = wire_str_spec(command_id@);
            let w2 = wire_str_spec(key@);
            let w3 = varint(scheduled_at_epoch_ns as nat);
            let w4 = wire_str_spec(generation@);
            let w5 = wire_bytes_spec(semantics@);
            assert(wire_command_v6_spec(c) =~= varint(3) + (w1 + w2 + w3 + w4 + w5));
            lemma_holds_split(b, p, varint(3), w1 + w2 + w3 + w4 + w5);
            lemma_u32_at(b, p, 3);
            let q = p + 1;
            lemma_holds_split(b, q, w1 + w2 + w3 + w4, w5);
            lemma_holds_split(b, q, w1 + w2 + w3, w4);
            lemma_holds_split(b, q, w1 + w2, w3);
            lemma_holds_split(b, q, w1, w2);
            lemma_str_at(b, q, command_id@);
            lemma_str_at(b, q + w1.len(), key@);
            lemma_u64_at(b, q + w1.len() + w2.len(), scheduled_at_epoch_ns);
            lemma_str_at(b, q + w1.len() + w2.len() + w3.len(), generation@);
            lemma_bytes_at(b, q + w1.len() + w2.len() + w3.len() + w4.len(), semantics@);
        },
        _ => {},
    }
}

proof fn lemma_cancel_timer_v6_at(b: Seq<u8>, p: int, c: StrategyCommandV6)
    requires
        c is CancelTimer,
        holds_at(b, p, wire_command_v6_spec(c)),
        b.len() <= u64::MAX,
    ensures
        command_v6_at(b, p) == Some((c@, p + wire_command_v6_spec(c).len())),
{
    reveal(command_v6_fields_at);
    match c {
        StrategyCommandV6::CancelTimer { command_id, key, generation } => {
            let w1 = wire_str_spec(command_id@);
            let w2 = wire_str_spec(key@);
            let w3 = wire_str_spec(generation@);
            assert(wire_command_v6_spec(c) =~= varint(4) + (w1 + w2 + w3));
            lemma_holds_split(b, p, varint(4), w1 + w2 + w3);
            lemma_u32_at(b, p, 4);
            let q = p + 1;
            lemma_holds_split(b, q, w1 + w2, w3);
            lemma_holds_split(b, q, w1, w2);
            lemma_str_at(b, q, command_id@);
            lemma_str_at(b, q + w1.len(), key@);
            lemma_str_at(b, q + w1.len() + w2.len(), generation@);
        },
        _ => {},
    }
}

proof fn lemma_short_command_v6_at(b: Seq<u8>, p: int, c: StrategyCommandV6)
    requires
        c is CancelAllOrders || c is Stop,
        holds_at(b, p, wire_command_v6_spec(c)),
        b.len() <= u64::MAX,
    ensures
        command_v6_at(b, p) == Some((c@, p + wire_command_v6_spec(c).len())),
{
    reveal(command_v6_fields_at);
    match c {
        StrategyCommandV6::CancelAllOrders { command_id } => {
            let w1 = wire_str_spec(command_id@);
            lemma_holds_split(b, p, varint(2), w1);
            lemma_u32_at(b, p, 2);
            lemma_str_at(b, p + 1, command_id@);
        },
        StrategyCommandV6::Stop { command_id, reason } => {
            let w1 = wire_str_spec(command_id@);
            let w2 = wire_str_spec(reason@);
            assert(wire_command_v6_spec(c) =~= varint(5) + (w1 + w2));
            lemma_holds_split(b, p, varint(5), w1 + w2);
            lemma_u32_at(b, p, 5);
            lemma_holds_split(b, p + 1, w1, w2);
            lemma_str_at(b, p + 1, command_id@);
            lemma_str_at(b, p + 1 + w1.len(), reason@);
        },
        _ => {},
    }
}

proof fn lemma_command_v6_at(b: Seq<u8>, p: int, c: StrategyCommandV6)
    requires
        holds_at(b, p, wire_command_v6_spec(c)),
        b.len() <= u64::MAX,
    ensures
        command_v6_at(b, p) == Some((c@, p + wire_command_v6_spec(c).len())),
{
    match c {
        StrategyCommandV6::PlaceOrder(o) => {
            reveal(command_v6_fields_at);
            lemma_holds_split(b, p, varint(0), wire_place_v6_spec(o));
            lemma_u32_at(b, p, 0);
            lemma_place_v6_at(b, p + 1, o);
        },
        StrategyCommandV6::CancelOrder { .. } => lemma_cancel_order_v6_at(b, p, c),
        StrategyCommandV6::CancelAllOrders { .. } => lemma_short_command_v6_at(b, p, c),
        StrategyCommandV6::ScheduleTimer { .. } => lemma_schedule_timer_v6_at(b, p, c),
        StrategyCommandV6::CancelTimer { .. } => lemma_cancel_timer_v6_at(b, p, c),
        StrategyCommandV6::Stop { .. } => lemma_short_command_v6_at(b, p, c),
    }
}

// ---------------------------------------------------------------------------------------------
// Reading what was written: telemetry and the result
// ---------------------------------------------------------------------------------------------

proof fn lemma_annotation_at(b: Seq<u8>, p: int, v: AnnotationValueV6)
    requires
        holds_at(b, p, wire_annotation_spec(v)),
        b.len() <= u64::MAX,
    ensures
        annotation_at(b, p) == Some((v@, p + wire_annotation_spec(v).len())),
{
    match v {
        AnnotationValueV6::Text(s) => {
            lemma_holds_split(b, p, varint(0), wire_str_spec(s@));
            lemma_u32_at(b, p, 0);
            lemma_str_at(b, p + 1, s@);
        },
        AnnotationValueV6::Integer(i) => {
            lemma_holds_split(b, p, varint(1), varint(zigzag(i as int)));
            lemma_u32_at(b, p, 1);
            lemma_i64_at(b, p + 1, i);
        },
        AnnotationValueV6::FloatBits(x) => {
            lemma_holds_split(b, p, varint(2), varint(x as nat));
            lemma_u32_at(b, p, 2);
            lemma_u64_at(b, p + 1, x);
        },
        AnnotationValueV6::Bool(x) => {
            lemma_holds_split(b, p, varint(3), wire_bool_spec(x));
            lemma_u32_at(b, p, 3);
            assert(b[p + 1] == b.subrange(p + 1, p + 2)[0]);
        },
        AnnotationValueV6::Null => {
            lemma_u32_at(b, p, 4);
        },
    }
}

proof fn lemma_fields_at(b: Seq<u8>, p: int, fields: Seq<(String, String)>)
    requires
        holds_at(b, p, wire_list(fields, field_encoder())),
        b.len() <= u64::MAX,
    ensures
        list_at(b, p, field_reader()) == Some(
            (fields.map_values(field_viewer()), p + wire_list(fields, field_encoder()).len()),
        ),
{
    assert forall|x: (String, String)| #[trigger] field_encoder()(x).len() >= 1 by {
        assert(wire_str_spec(x.0@).len() >= 1);
    }
    assert forall|i: int, q: int|
        0 <= i < fields.len() && #[trigger] holds_at(b, q, field_encoder()(fields[i])) implies field_reader()(
        b,
        q,
    ) == Some((field_viewer()(fields[i]), q + field_encoder()(fields[i]).len())) by {
        let w1 = wire_str_spec(fields[i].0@);
        let w2 = wire_str_spec(fields[i].1@);
        lemma_holds_split(b, q, w1, w2);
        lemma_str_at(b, q, fields[i].0@);
        lemma_str_at(b, q + w1.len(), fields[i].1@);
    }
    lemma_list_at(b, p, fields, field_encoder(), field_viewer(), field_reader());
}

proof fn lemma_telemetry_at(b: Seq<u8>, p: int, e: TelemetryEntryV6)
    requires
        holds_at(b, p, wire_telemetry_spec(e)),
        b.len() <= u64::MAX,
    ensures
        telemetry_at(b, p) == Some((e@, p + wire_telemetry_spec(e).len())),
{
    reveal(telemetry_at);
    match e {
        TelemetryEntryV6::Counter { name, value_bits, fields } => {
            let w1 = wire_str_spec(name@);
            let w2 = varint(value_bits as nat);
            let w3 = wire_list(fields@, field_encoder());
            assert(wire_telemetry_spec(e) =~= varint(0) + (w1 + w2 + w3));
            lemma_holds_split(b, p, varint(0), w1 + w2 + w3);
            lemma_u32_at(b, p, 0);
            lemma_holds_split(b, p + 1, w1 + w2, w3);
            lemma_holds_split(b, p + 1, w1, w2);
            lemma_str_at(b, p + 1, name@);
            lemma_u64_at(b, p + 1 + w1.len(), value_bits);
            lemma_fields_at(b, p + 1 + w1.len() + w2.len(), fields@);
        },
        TelemetryEntryV6::Gauge { name, value_bits, fields } => {
            let w1 = wire_str_spec(name@);
            let w2 = varint(value_bits as nat);
            let w3 = wire_list(fields@, field_encoder());
            assert(wire_telemetry_spec(e) =~= varint(1) + (w1 + w2 + w3));
            lemma_holds_split(b, p, varint(1), w1 + w2 + w3);
            lemma_u32_at(b, p, 1);
            lemma_holds_split(b, p + 1, w1 + w2, w3);
            lemma_holds_split(b, p + 1, w1, w2);
            lemma_str_at(b, p + 1, name@);
            lemma_u64_at(b, p + 1 + w1.len(), value_bits);
            lemma_fields_at(b, p + 1 + w1.len() + w2.len(), fields@);
        },
        TelemetryEntryV6::Annotation { name, value, fields } => {
            let w1 = wire_str_spec(name@);
            let w2 = wire_annotation_spec(value);
            let w3 = wire_list(fields@, field_encoder());
            assert(wire_telemetry_spec(e) =~= varint(2) + (w1 + w2 + w3));
            lemma_holds_split(b, p, varint(2), w1 + w2 + w3);
            lemma_u32_at(b, p, 2);
            lemma_holds_split(b, p + 1, w1 + w2, w3);
            lemma_holds_split(b, p + 1, w1, w2);
            lemma_str_at(b, p + 1, name@);
            lemma_annotation_at(b, p + 1 + w1.len(), value);
            lemma_fields_at(b, p + 1 + w1.len() + w2.len(), fields@);
        },
    }
}

proof fn lemma_commands_v6_at(b: Seq<u8>, p: int, cs: Seq<StrategyCommandV6>)
    requires
        holds_at(b, p, wire_list(cs, command_v6_encoder())),
        b.len() <= u64::MAX,
    ensures
        list_at(b, p, command_v6_reader()) == Some(
            (cs.map_values(command_v6_viewer()), p + wire_list(cs, command_v6_encoder()).len()),
        ),
{
    assert forall|x: StrategyCommandV6| #[trigger] command_v6_encoder()(x).len() >= 1 by {
        assert(wire_command_v6_spec(x).len() >= 1);
    }
    assert forall|i: int, q: int|
        0 <= i < cs.len() && #[trigger] holds_at(b, q, command_v6_encoder()(cs[i])) implies command_v6_reader()(
        b,
        q,
    ) == Some((command_v6_viewer()(cs[i]), q + command_v6_encoder()(cs[i]).len())) by {
        lemma_command_v6_at(b, q, cs[i]);
    }
    lemma_list_at(b, p, cs, command_v6_encoder(), command_v6_viewer(), command_v6_reader());
}

proof fn lemma_strings_at(b: Seq<u8>, p: int, ss: Seq<String>)
    requires
        holds_at(b, p, wire_list(ss, string_encoder())),
        b.len() <= u64::MAX,
    ensures
        list_at(b, p, string_reader()) == Some(
            (ss.map_values(string_viewer()), p + wire_list(ss, string_encoder()).len()),
        ),
{
    assert forall|x: String| #[trigger] string_encoder()(x).len() >= 1 by {
        assert(wire_str_spec(x@).len() >= 1);
    }
    assert forall|i: int, q: int|
        0 <= i < ss.len() && #[trigger] holds_at(b, q, string_encoder()(ss[i])) implies string_reader()(
        b,
        q,
    ) == Some((string_viewer()(ss[i]), q + string_encoder()(ss[i]).len())) by {
        lemma_str_at(b, q, ss[i]@);
    }
    lemma_list_at(b, p, ss, string_encoder(), string_viewer(), string_reader());
}

proof fn lemma_evidence_v6_list_at(b: Seq<u8>, p: int, es: Seq<ResultEvidenceV6>)
    requires
        holds_at(b, p, wire_list(es, evidence_v6_encoder())),
        b.len() <= u64::MAX,
    ensures
        list_at(b, p, evidence_v6_reader()) == Some(
            (es.map_values(evidence_v6_viewer()), p + wire_list(es, evidence_v6_encoder()).len()),
        ),
{
    assert forall|x: ResultEvidenceV6| #[trigger] evidence_v6_encoder()(x).len() >= 1 by {
        assert(wire_str_spec(x.code@).len() >= 1);
    }
    assert forall|i: int, q: int|
        0 <= i < es.len() && #[trigger] holds_at(b, q, evidence_v6_encoder()(es[i])) implies evidence_v6_reader()(
        b,
        q,
    ) == Some((evidence_v6_viewer()(es[i]), q + evidence_v6_encoder()(es[i]).len())) by {
        let w1 = wire_str_spec(es[i].code@);
        let w2 = wire_bytes_spec(es[i].payload@);
        lemma_holds_split(b, q, w1, w2);
        lemma_str_at(b, q, es[i].code@);
        lemma_bytes_at(b, q + w1.len(), es[i].payload@);
    }
    lemma_list_at(b, p, es, evidence_v6_encoder(), evidence_v6_viewer(), evidence_v6_reader());
}

proof fn lemma_diagnostics_v6_at(b: Seq<u8>, p: int, ds: Seq<ResultDiagnosticV6>)
    requires
        holds_at(b, p, wire_list(ds, diagnostic_v6_encoder())),
        b.len() <= u64::MAX,
    ensures
        list_at(b, p, diagnostic_v6_reader()) == Some(
            (
                ds.map_values(diagnostic_v6_viewer()),
                p + wire_list(ds, diagnostic_v6_encoder()).len(),
            ),
        ),
{
    assert forall|x: ResultDiagnosticV6| #[trigger] diagnostic_v6_encoder()(x).len() >= 1 by {
        assert(wire_str_spec(x.severity@).len() >= 1);
    }
    assert forall|i: int, q: int|
        0 <= i < ds.len() && #[trigger] holds_at(b, q, diagnostic_v6_encoder()(ds[i])) implies diagnostic_v6_reader()(
        b,
        q,
    ) == Some((diagnostic_v6_viewer()(ds[i]), q + diagnostic_v6_encoder()(ds[i]).len())) by {
        let w1 = wire_str_spec(ds[i].severity@);
        let w2 = wire_str_spec(ds[i].code@);
        let w3 = wire_str_spec(ds[i].message@);
        lemma_holds_split(b, q, w1 + w2, w3);
        lemma_holds_split(b, q, w1, w2);
        lemma_str_at(b, q, ds[i].severity@);
        lemma_str_at(b, q + w1.len(), ds[i].code@);
        lemma_str_at(b, q + w1.len() + w2.len(), ds[i].message@);
    }
    lemma_list_at(b, p, ds, diagnostic_v6_encoder(), diagnostic_v6_viewer(), diagnostic_v6_reader());
}

proof fn lemma_telemetry_list_at(b: Seq<u8>, p: int, ts: Seq<TelemetryEntryV6>)
    requires
        holds_at(b, p, wire_list(ts, telemetry_encoder())),
        b.len() <= u64::MAX,
    ensures
        list_at(b, p, telemetry_reader()) == Some(
            (ts.map_values(telemetry_viewer()), p + wire_list(ts, telemetry_encoder()).len()),
        ),
{
    assert forall|x: TelemetryEntryV6| #[trigger] telemetry_encoder()(x).len() >= 1 by {
        assert(wire_telemetry_spec(x).len() >= 1);
    }
    assert forall|i: int, q: int|
        0 <= i < ts.len() && #[trigger] holds_at(b, q, telemetry_encoder()(ts[i])) implies telemetry_reader()(
        b,
        q,
    ) == Some((telemetry_viewer()(ts[i]), q + telemetry_encoder()(ts[i]).len())) by {
        lemma_telemetry_at(b, q, ts[i]);
    }
    lemma_list_at(b, p, ts, telemetry_encoder(), telemetry_viewer(), telemetry_reader());
}

pub open spec fn wire_result_v6_head_spec(r: DecisionResultV6) -> Seq<u8> {
    wire_str_spec(r.delivery_id@) + wire_str_spec(r.sleeve_identity@) + wire_str_spec(
        r.state_fence@,
    ) + varint(r.expected_broker_revision as nat) + wire_disposition_v6_spec(r.disposition)
        + wire_opt_checkpoint_v6_spec(r.kernel_checkpoint)
}

pub open spec fn wire_result_v6_tail_spec(r: DecisionResultV6) -> Seq<u8> {
    wire_list(r.commands@, command_v6_encoder()) + wire_list(
        r.acknowledged_command_ids@,
        string_encoder(),
    ) + wire_list(r.evidence@, evidence_v6_encoder()) + wire_list(
        r.diagnostics@,
        diagnostic_v6_encoder(),
    ) + wire_list(r.telemetry@, telemetry_encoder())
}

proof fn lemma_result_v6_split(r: DecisionResultV6)
    ensures
        wire_result_v6_spec(r) == wire_result_v6_head_spec(r) + wire_result_v6_tail_spec(r),
{
    let h = wire_result_v6_head_spec(r);
    let t1 = wire_list(r.commands@, command_v6_encoder());
    let t2 = wire_list(r.acknowledged_command_ids@, string_encoder());
    let t3 = wire_list(r.evidence@, evidence_v6_encoder());
    let t4 = wire_list(r.diagnostics@, diagnostic_v6_encoder());
    let t5 = wire_list(r.telemetry@, telemetry_encoder());
    lemma_add_assoc(h, t1, t2);
    lemma_add_assoc(h, t1 + t2, t3);
    lemma_add_assoc(h, t1 + t2 + t3, t4);
    lemma_add_assoc(h, t1 + t2 + t3 + t4, t5);
}

proof fn lemma_result_v6_head_at(b: Seq<u8>, p: int, r: DecisionResultV6)
    requires
        holds_at(b, p, wire_result_v6_head_spec(r)),
        b.len() <= u64::MAX,
    ensures
        result_v6_head_at(b, p) == Some(
            (
                ResultHeadModel {
                    delivery_id: r.delivery_id@,
                    sleeve_identity: r.sleeve_identity@,
                    state_fence: r.state_fence@,
                    expected_broker_revision: r.expected_broker_revision,
                    disposition: r.disposition,
                    kernel_checkpoint: opt_checkpoint_v6_model(r.kernel_checkpoint),
                },
                p + wire_result_v6_head_spec(r).len(),
            ),
        ),
{
    reveal(result_v6_head_at);
    let w1 = wire_str_spec(r.delivery_id@);
    let w2 = wire_str_spec(r.sleeve_identity@);
    let w3 = wire_str_spec(r.state_fence@);
    let w4 = varint(r.expected_broker_revision as nat);
    let w5 = wire_disposition_v6_spec(r.disposition);
    let w6 = wire_opt_checkpoint_v6_spec(r.kernel_checkpoint);
    lemma_holds_split(b, p, w1 + w2 + w3 + w4 + w5, w6);
    lemma_holds_split(b, p, w1 + w2 + w3 + w4, w5);
    lemma_holds_split(b, p, w1 + w2 + w3, w4);
    lemma_holds_split(b, p, w1 + w2, w3);
    lemma_holds_split(b, p, w1, w2);
    let q1 = p + w1.len();
    let q2 = q1 + w2.len();
    let q3 = q2 + w3.len();
    let q4 = q3 + w4.len();
    let q5 = q4 + w5.len();
    lemma_str_at(b, p, r.delivery_id@);
    lemma_str_at(b, q1, r.sleeve_identity@);
    lemma_str_at(b, q2, r.state_fence@);
    lemma_u64_at(b, q3, r.expected_broker_revision);
    match r.disposition {
        DecisionDispositionV6::Completed => lemma_u32_at(b, q4, 0),
        DecisionDispositionV6::Rejected => lemma_u32_at(b, q4, 1),
    }
    lemma_opt_checkpoint_v6_at(b, q5, r.kernel_checkpoint);
}

proof fn lemma_result_v6_tail_at(b: Seq<u8>, p: int, r: DecisionResultV6)
    requires
        holds_at(b, p, wire_result_v6_tail_spec(r)),
        b.len() <= u64::MAX,
    ensures
        result_v6_tail_at(b, p) == Some(
            (
                ResultTailModel {
                    commands: r.commands@.map_values(command_v6_viewer()),
                    acknowledged_command_ids: r.acknowledged_command_ids@.map_values(
                        string_viewer(),
                    ),
                    evidence: r.evidence@.map_values(evidence_v6_viewer()),
                    diagnostics: r.diagnostics@.map_values(diagnostic_v6_viewer()),
                    telemetry: r.telemetry@.map_values(telemetry_viewer()),
                },
                p + wire_result_v6_tail_spec(r).len(),
            ),
        ),
{
    reveal(result_v6_tail_at);
    let w1 = wire_list(r.commands@, command_v6_encoder());
    let w2 = wire_list(r.acknowledged_command_ids@, string_encoder());
    let w3 = wire_list(r.evidence@, evidence_v6_encoder());
    let w4 = wire_list(r.diagnostics@, diagnostic_v6_encoder());
    let w5 = wire_list(r.telemetry@, telemetry_encoder());
    lemma_holds_split(b, p, w1 + w2 + w3 + w4, w5);
    lemma_holds_split(b, p, w1 + w2 + w3, w4);
    lemma_holds_split(b, p, w1 + w2, w3);
    lemma_holds_split(b, p, w1, w2);
    let q1 = p + w1.len();
    let q2 = q1 + w2.len();
    let q3 = q2 + w3.len();
    let q4 = q3 + w4.len();
    lemma_commands_v6_at(b, p, r.commands@);
    lemma_strings_at(b, q1, r.acknowledged_command_ids@);
    lemma_evidence_v6_list_at(b, q2, r.evidence@);
    lemma_diagnostics_v6_at(b, q3, r.diagnostics@);
    lemma_telemetry_list_at(b, q4, r.telemetry@);
}

/// Reading the payload of an encoded result gives the model of the result.
proof fn lemma_result_v6_at(b: Seq<u8>, p: int, r: DecisionResultV6)
    requires
        holds_at(b, p, wire_result_v6_spec(r)),
        b.len() <= u64::MAX,
    ensures
        result_v6_at(b, p) == Some((r@, p + wire_result_v6_spec(r).len())),
{
    let h = wire_result_v6_head_spec(r);
    let t = wire_result_v6_tail_spec(r);
    lemma_result_v6_split(r);
    lemma_holds_split(b, p, h, t);
    lemma_result_v6_head_at(b, p, r);
    lemma_result_v6_tail_at(b, p + h.len(), r);
}

/// The bytes of a result within the result bound read back as that result: the V6 magic, then
/// the encoded result, reads as the result's model.
pub proof fn result_v6_round_trip(result: DecisionResultV6)
    requires
        8 + wire_result_v6_spec(result).len() <= MAX_DECISION_RESULT_V6_BYTES,
    ensures
        decision_result_v6_read(DECISION_RESULT_V6_MAGIC@ + wire_result_v6_spec(result)) == Ok::<
            ResultV6Model,
            DecisionV6Error,
        >(result@),
{
    let w = wire_result_v6_spec(result);
    let b = DECISION_RESULT_V6_MAGIC@ + w;
    assert(b.subrange(0, 8) =~= DECISION_RESULT_V6_MAGIC@);
    assert(b.subrange(8, (8 + w.len()) as int) =~= w);
    lemma_result_v6_at(b, 8, result);
}

// ---------------------------------------------------------------------------------------------
// Reading, executably: the checkpoint
// ---------------------------------------------------------------------------------------------

fn take_u16(b: &[u8], pos: usize) -> (r: Option<(u16, usize)>)
    requires
        pos <= b@.len(),
    ensures
        match u16_at(b@, pos as int) {
            Some((v, e)) => r matches Some((x, end)) && x == v && end == e,
            None => r is None,
        },
        r matches Some((_, end)) ==> pos < end <= b@.len(),
{
    proof {
        reveal(u16_at);
    }
    let total: usize = b.len();
    let (_, rest) = b.split_at(pos);
    assert(rest@ =~= b@.skip(pos as int));
    proof {
        lemma_varint_read_bounds(rest@);
    }
    match read_u16(rest) {
        Some((v, n)) => Some((v, pos + n)),
        None => None,
    }
}

pub open spec fn opt_status_model(s: Option<crate::decision_v6::OrderUpdateStatusV6>) -> Option<
    UpdateStatusModel,
> {
    match s {
        Some(x) => Some(x@),
        None => None,
    }
}

fn take_opt_update_status(b: &[u8], pos: usize) -> (r: Option<
    (Option<crate::decision_v6::OrderUpdateStatusV6>, usize),
>)
    requires
        pos <= b@.len(),
    ensures
        match opt_update_status_at(b@, pos as int) {
            Some((m, e)) => r matches Some((v, end)) && opt_status_model(v) == m && end == e,
            None => r is None,
        },
        r matches Some((_, end)) ==> pos < end <= b@.len(),
{
    match take_u8(b, pos) {
        Some((0, e)) => Some((None, e)),
        Some((1, e)) => match take_update_status(b, e) {
            Some((v, e2)) => Some((Some(v), e2)),
            None => None,
        },
        _ => None,
    }
}

fn take_entry(b: &[u8], pos: usize) -> (r: Option<(RunnerEntryV6, usize)>)
    requires
        pos <= b@.len(),
    ensures
        match entry_at(b@, pos as int) {
            Some((m, e)) => r matches Some((v, end)) && v@ == m && end == e,
            None => r is None,
        },
        r matches Some((_, end)) ==> pos < end <= b@.len(),
{
    proof {
        reveal(entry_head_at);
        reveal(entry_order_at);
        reveal(entry_tail_at);
    }
    let (command_id, p1) = match take_str(b, pos) {
        Some(v) => v,
        None => return None,
    };
    let (kind, p2) = match take_kind(b, p1) {
        Some(v) => v,
        None => return None,
    };
    let (client_order_id, p3) = match take_opt_str(b, p2) {
        Some(v) => v,
        None => return None,
    };
    let (order_id, p4) = match take_opt_str(b, p3) {
        Some(v) => v,
        None => return None,
    };
    let (market_id, p5) = match take_opt_str(b, p4) {
        Some(v) => v,
        None => return None,
    };
    let (action, p6) = match take_opt_action_v6(b, p5) {
        Some(v) => v,
        None => return None,
    };
    let (side, p7) = match take_opt_side_v6(b, p6) {
        Some(v) => v,
        None => return None,
    };
    let (requested_quantity_hundredths, p8) = match take_u64(b, p7) {
        Some(v) => v,
        None => return None,
    };
    let (last_status, p9) = match take_opt_update_status(b, p8) {
        Some(v) => v,
        None => return None,
    };
    let (filled_quantity_hundredths, p10) = match take_u64(b, p9) {
        Some(v) => v,
        None => return None,
    };
    let (order_revision, p11) = match take_u64(b, p10) {
        Some(v) => v,
        None => return None,
    };
    let (issued_broker_revision, p12) = match take_u64(b, p11) {
        Some(v) => v,
        None => return None,
    };
    let (vanished, p13) = match take_bool(b, p12) {
        Some(v) => v,
        None => return None,
    };
    let (vanished_revision, p14) = match take_u64(b, p13) {
        Some(v) => v,
        None => return None,
    };
    let (absent_views, p15) = match take_u16(b, p14) {
        Some(v) => v,
        None => return None,
    };
    let (delivery_failures, p16) = match take_u8(b, p15) {
        Some(v) => v,
        None => return None,
    };
    let (delivery_deferrals, p17) = match take_u8(b, p16) {
        Some(v) => v,
        None => return None,
    };
    Some(
        (
            RunnerEntryV6 {
                command_id,
                kind,
                client_order_id,
                order_id,
                market_id,
                action,
                side,
                requested_quantity_hundredths,
                last_status,
                filled_quantity_hundredths,
                order_revision,
                issued_broker_revision,
                vanished,
                vanished_revision,
                absent_views,
                delivery_failures,
                delivery_deferrals,
            },
            p17,
        ),
    )
}

fn take_entries(b: &[u8], pos: usize) -> (r: Option<(Vec<RunnerEntryV6>, usize)>)
    requires
        pos <= b@.len(),
    ensures
        match list_at(b@, pos as int, entry_reader()) {
            Some((m, e)) => r matches Some((v, end)) && v@.map_values(entry_viewer()) == m && end
                == e,
            None => r is None,
        },
        r matches Some((_, end)) ==> pos < end <= b@.len(),
{
    let (n, start) = match take_u64(b, pos) {
        Some(v) => v,
        None => return None,
    };
    let mut out: Vec<RunnerEntryV6> = Vec::new();
    let mut p = start;
    let mut i: u64 = 0;
    while i < n
        invariant
            pos < start <= p <= b@.len(),
            i <= n,
            u64_at(b@, pos as int) matches Some((x, e)) && x == n && e == start,
            items_at(b@, start as int, i as nat, entry_reader()) == Some(
                (out@.map_values(entry_viewer()), p as int),
            ),
        decreases n - i,
    {
        match take_entry(b, p) {
            Some((item, e)) => {
                let ghost before = out@;
                out.push(item);
                assert(out@.map_values(entry_viewer()) =~= before.map_values(entry_viewer()).push(
                    entry_viewer()(item),
                ));
                p = e;
            },
            None => {
                proof {
                    assert(entry_reader()(b@, p as int) is None);
                    assert(items_at(b@, start as int, (i + 1) as nat, entry_reader()) is None);
                    lemma_items_stop(b@, start as int, (i + 1) as nat, n as nat, entry_reader());
                }
                return None;
            },
        }
        i += 1;
    }
    Some((out, p))
}

fn take_checkpoint_v6(b: &[u8], pos: usize) -> (r: Option<(KernelCheckpointV6, usize)>)
    requires
        pos <= b@.len(),
    ensures
        match checkpoint_v6_at(b@, pos as int) {
            Some((m, e)) => r matches Some((v, end)) && v@ == m && end == e,
            None => r is None,
        },
        r matches Some((_, end)) ==> pos < end <= b@.len(),
{
    proof {
        reveal(checkpoint_v6_at);
    }
    let (codec_profile, p1) = match take_str(b, pos) {
        Some(v) => v,
        None => return None,
    };
    let (codec_version, p2) = match take_u32(b, p1) {
        Some(v) => v,
        None => return None,
    };
    let (strategy_id, p3) = match take_str(b, p2) {
        Some(v) => v,
        None => return None,
    };
    let (strategy_profile, p4) = match take_str(b, p3) {
        Some(v) => v,
        None => return None,
    };
    let (profile_and_calculator_digest, p5) = match take_str(b, p4) {
        Some(v) => v,
        None => return None,
    };
    let (sequence, p6) = match take_u64(b, p5) {
        Some(v) => v,
        None => return None,
    };
    let (state, p7) = match take_bytes(b, p6) {
        Some(v) => v,
        None => return None,
    };
    let (seeded, p8) = match take_bool(b, p7) {
        Some(v) => v,
        None => return None,
    };
    let (newest_view_revision, p9) = match take_u64(b, p8) {
        Some(v) => v,
        None => return None,
    };
    let (entries, p10) = match take_entries(b, p9) {
        Some(v) => v,
        None => return None,
    };
    let (state_sha256, p11) = match take_array32(b, p10) {
        Some(v) => v,
        None => return None,
    };
    Some(
        (
            KernelCheckpointV6 {
                codec_profile,
                codec_version,
                strategy_id,
                strategy_profile,
                profile_and_calculator_digest,
                sequence,
                state,
                runner: RunnerSectionV6 { seeded, newest_view_revision, entries },
                state_sha256,
            },
            p11,
        ),
    )
}

fn take_opt_checkpoint_v6(b: &[u8], pos: usize) -> (r: Option<(Option<KernelCheckpointV6>, usize)>)
    requires
        pos <= b@.len(),
    ensures
        match opt_checkpoint_v6_at(b@, pos as int) {
            Some((m, e)) => r matches Some((v, end)) && opt_checkpoint_v6_model(v) == m && end == e,
            None => r is None,
        },
        r matches Some((_, end)) ==> pos < end <= b@.len(),
{
    match take_u8(b, pos) {
        Some((0, e)) => Some((None, e)),
        Some((1, e)) => match take_checkpoint_v6(b, e) {
            Some((v, e2)) => Some((Some(v), e2)),
            None => None,
        },
        _ => None,
    }
}

// ---------------------------------------------------------------------------------------------
// Reading, executably: commands and telemetry
// ---------------------------------------------------------------------------------------------

fn take_place_v6(b: &[u8], pos: usize) -> (r: Option<(PlaceOrderV6, usize)>)
    requires
        pos <= b@.len(),
    ensures
        match place_v6_at(b@, pos as int) {
            Some((m, e)) => r matches Some((v, end)) && v@ == m && end == e,
            None => r is None,
        },
        r matches Some((_, end)) ==> pos < end <= b@.len(),
{
    proof {
        reveal(place_v6_head_at);
        reveal(place_v6_tail_at);
    }
    let (command_id, p1) = match take_str(b, pos) {
        Some(v) => v,
        None => return None,
    };
    let (market_id, p2) = match take_str(b, p1) {
        Some(v) => v,
        None => return None,
    };
    let (action, p3) = match take_u32(b, p2) {
        Some((0, e)) => (OrderActionV6::Buy, e),
        Some((1, e)) => (OrderActionV6::Sell, e),
        _ => return None,
    };
    let (side, p4) = match take_u32(b, p3) {
        Some((0, e)) => (ContractSideV6::Yes, e),
        Some((1, e)) => (ContractSideV6::No, e),
        _ => return None,
    };
    let (order_type, p5) = match take_u32(b, p4) {
        Some((0, e)) => (OrderTypeV6::Market, e),
        Some((1, e)) => (OrderTypeV6::Limit, e),
        _ => return None,
    };
    let (quantity_hundredths, p6) = match take_u64(b, p5) {
        Some(v) => v,
        None => return None,
    };
    let (limit_price_micros, p7) = match take_opt_u64(b, p6) {
        Some(v) => v,
        None => return None,
    };
    let (market_price_cap_micros, p8) = match take_opt_u64(b, p7) {
        Some(v) => v,
        None => return None,
    };
    let (expires_after_ms, p9) = match take_opt_i64(b, p8) {
        Some(v) => v,
        None => return None,
    };
    let (reduce_only, p10) = match take_bool(b, p9) {
        Some(v) => v,
        None => return None,
    };
    let (provider_client_id, p11) = match take_str(b, p10) {
        Some(v) => v,
        None => return None,
    };
    let (signal_type, p12) = match take_opt_str(b, p11) {
        Some(v) => v,
        None => return None,
    };
    let (signal_metadata, p13) = match take_opt_str(b, p12) {
        Some(v) => v,
        None => return None,
    };
    let (metadata, p14) = match take_bytes(b, p13) {
        Some(v) => v,
        None => return None,
    };
    Some(
        (
            PlaceOrderV6 {
                command_id,
                market_id,
                action,
                side,
                order_type,
                quantity_hundredths,
                limit_price_micros,
                market_price_cap_micros,
                expires_after_ms,
                reduce_only,
                provider_client_id,
                signal_type,
                signal_metadata,
                metadata,
            },
            p14,
        ),
    )
}

fn take_cancel_target(b: &[u8], pos: usize) -> (r: Option<(CancelTargetV6, usize)>)
    requires
        pos <= b@.len(),
    ensures
        match cancel_target_at(b@, pos as int) {
            Some((m, e)) => r matches Some((v, end)) && v@ == m && end == e,
            None => r is None,
        },
        r matches Some((_, end)) ==> pos < end <= b@.len(),
{
    match take_u32(b, pos) {
        Some((0, p1)) => {
            let (order_id, p2) = match take_str(b, p1) {
                Some(v) => v,
                None => return None,
            };
            let (expected_order_revision, p3) = match take_u64(b, p2) {
                Some(v) => v,
                None => return None,
            };
            Some((CancelTargetV6::Order { order_id, expected_order_revision }, p3))
        },
        Some((1, p1)) => {
            let (provider_client_id, p2) = match take_str(b, p1) {
                Some(v) => v,
                None => return None,
            };
            Some((CancelTargetV6::SameDecision { provider_client_id }, p2))
        },
        _ => None,
    }
}

fn take_command_v6(b: &[u8], pos: usize) -> (r: Option<(StrategyCommandV6, usize)>)
    requires
        pos <= b@.len(),
    ensures
        match command_v6_at(b@, pos as int) {
            Some((m, e)) => r matches Some((v, end)) && v@ == m && end == e,
            None => r is None,
        },
        r matches Some((_, end)) ==> pos < end <= b@.len(),
{
    proof {
        reveal(command_v6_fields_at);
    }
    let (variant, p1) = match take_u32(b, pos) {
        Some(v) => v,
        None => return None,
    };
    if variant == 0 {
        let (o, e) = match take_place_v6(b, p1) {
            Some(v) => v,
            None => return None,
        };
        return Some((StrategyCommandV6::PlaceOrder(o), e));
    }
    let (command_id, p2) = match take_str(b, p1) {
        Some(v) => v,
        None => return None,
    };
    if variant == 1 {
        let (target, p3) = match take_cancel_target(b, p2) {
            Some(v) => v,
            None => return None,
        };
        Some((StrategyCommandV6::CancelOrder { command_id, target }, p3))
    } else if variant == 2 {
        Some((StrategyCommandV6::CancelAllOrders { command_id }, p2))
    } else if variant == 3 {
        let (key, p3) = match take_str(b, p2) {
            Some(v) => v,
            None => return None,
        };
        let (scheduled_at_epoch_ns, p4) = match take_u64(b, p3) {
            Some(v) => v,
            None => return None,
        };
        let (generation, p5) = match take_str(b, p4) {
            Some(v) => v,
            None => return None,
        };
        let (semantics, p6) = match take_bytes(b, p5) {
            Some(v) => v,
            None => return None,
        };
        Some(
            (
                StrategyCommandV6::ScheduleTimer {
                    command_id,
                    key,
                    scheduled_at_epoch_ns,
                    generation,
                    semantics,
                },
                p6,
            ),
        )
    } else if variant == 4 {
        let (key, p3) = match take_str(b, p2) {
            Some(v) => v,
            None => return None,
        };
        let (generation, p4) = match take_str(b, p3) {
            Some(v) => v,
            None => return None,
        };
        Some((StrategyCommandV6::CancelTimer { command_id, key, generation }, p4))
    } else if variant == 5 {
        let (reason, p3) = match take_str(b, p2) {
            Some(v) => v,
            None => return None,
        };
        Some((StrategyCommandV6::Stop { command_id, reason }, p3))
    } else {
        None
    }
}

fn take_annotation(b: &[u8], pos: usize) -> (r: Option<(AnnotationValueV6, usize)>)
    requires
        pos <= b@.len(),
    ensures
        match annotation_at(b@, pos as int) {
            Some((m, e)) => r matches Some((v, end)) && v@ == m && end == e,
            None => r is None,
        },
        r matches Some((_, end)) ==> pos < end <= b@.len(),
{
    match take_u32(b, pos) {
        Some((0, p1)) => match take_str(b, p1) {
            Some((s, e)) => Some((AnnotationValueV6::Text(s), e)),
            None => None,
        },
        Some((1, p1)) => match take_i64(b, p1) {
            Some((i, e)) => Some((AnnotationValueV6::Integer(i), e)),
            None => None,
        },
        Some((2, p1)) => match take_u64(b, p1) {
            Some((x, e)) => Some((AnnotationValueV6::FloatBits(x), e)),
            None => None,
        },
        Some((3, p1)) => match take_bool(b, p1) {
            Some((x, e)) => Some((AnnotationValueV6::Bool(x), e)),
            None => None,
        },
        Some((4, p1)) => Some((AnnotationValueV6::Null, p1)),
        _ => None,
    }
}

fn take_field(b: &[u8], pos: usize) -> (r: Option<((String, String), usize)>)
    requires
        pos <= b@.len(),
    ensures
        match field_at(b@, pos as int) {
            Some((m, e)) => r matches Some((v, end)) && field_viewer()(v) == m && end == e,
            None => r is None,
        },
        r matches Some((_, end)) ==> pos < end <= b@.len(),
{
    let (k, p1) = match take_str(b, pos) {
        Some(v) => v,
        None => return None,
    };
    let (v, p2) = match take_str(b, p1) {
        Some(x) => x,
        None => return None,
    };
    Some(((k, v), p2))
}

fn take_fields(b: &[u8], pos: usize) -> (r: Option<(Vec<(String, String)>, usize)>)
    requires
        pos <= b@.len(),
    ensures
        match list_at(b@, pos as int, field_reader()) {
            Some((m, e)) => r matches Some((v, end)) && v@.map_values(field_viewer()) == m && end
                == e,
            None => r is None,
        },
        r matches Some((_, end)) ==> pos < end <= b@.len(),
{
    let (n, start) = match take_u64(b, pos) {
        Some(v) => v,
        None => return None,
    };
    let mut out: Vec<(String, String)> = Vec::new();
    let mut p = start;
    let mut i: u64 = 0;
    while i < n
        invariant
            pos < start <= p <= b@.len(),
            i <= n,
            u64_at(b@, pos as int) matches Some((x, e)) && x == n && e == start,
            items_at(b@, start as int, i as nat, field_reader()) == Some(
                (out@.map_values(field_viewer()), p as int),
            ),
        decreases n - i,
    {
        match take_field(b, p) {
            Some((item, e)) => {
                let ghost before = out@;
                out.push(item);
                assert(out@.map_values(field_viewer()) =~= before.map_values(field_viewer()).push(
                    field_viewer()(item),
                ));
                p = e;
            },
            None => {
                proof {
                    assert(field_reader()(b@, p as int) is None);
                    assert(items_at(b@, start as int, (i + 1) as nat, field_reader()) is None);
                    lemma_items_stop(b@, start as int, (i + 1) as nat, n as nat, field_reader());
                }
                return None;
            },
        }
        i += 1;
    }
    Some((out, p))
}

fn take_telemetry_entry(b: &[u8], pos: usize) -> (r: Option<(TelemetryEntryV6, usize)>)
    requires
        pos <= b@.len(),
    ensures
        match telemetry_at(b@, pos as int) {
            Some((m, e)) => r matches Some((v, end)) && v@ == m && end == e,
            None => r is None,
        },
        r matches Some((_, end)) ==> pos < end <= b@.len(),
{
    proof {
        reveal(telemetry_at);
    }
    let (variant, p1) = match take_u32(b, pos) {
        Some(v) => v,
        None => return None,
    };
    if variant > 2 {
        return None;
    }
    let (name, p2) = match take_str(b, p1) {
        Some(v) => v,
        None => return None,
    };
    if variant == 2 {
        let (value, p3) = match take_annotation(b, p2) {
            Some(v) => v,
            None => return None,
        };
        let (fields, p4) = match take_fields(b, p3) {
            Some(v) => v,
            None => return None,
        };
        return Some((TelemetryEntryV6::Annotation { name, value, fields }, p4));
    }
    let (value_bits, p3) = match take_u64(b, p2) {
        Some(v) => v,
        None => return None,
    };
    let (fields, p4) = match take_fields(b, p3) {
        Some(v) => v,
        None => return None,
    };
    if variant == 0 {
        Some((TelemetryEntryV6::Counter { name, value_bits, fields }, p4))
    } else {
        Some((TelemetryEntryV6::Gauge { name, value_bits, fields }, p4))
    }
}

fn take_evidence_v6(b: &[u8], pos: usize) -> (r: Option<(ResultEvidenceV6, usize)>)
    requires
        pos <= b@.len(),
    ensures
        match evidence_v6_at(b@, pos as int) {
            Some((m, e)) => r matches Some((v, end)) && evidence_v6_viewer()(v) == m && end == e,
            None => r is None,
        },
        r matches Some((_, end)) ==> pos < end <= b@.len(),
{
    let (code, p1) = match take_str(b, pos) {
        Some(v) => v,
        None => return None,
    };
    let (payload, p2) = match take_bytes(b, p1) {
        Some(v) => v,
        None => return None,
    };
    Some((ResultEvidenceV6 { code, payload }, p2))
}

fn take_diagnostic_v6(b: &[u8], pos: usize) -> (r: Option<(ResultDiagnosticV6, usize)>)
    requires
        pos <= b@.len(),
    ensures
        match diagnostic_v6_at(b@, pos as int) {
            Some((m, e)) => r matches Some((v, end)) && diagnostic_v6_viewer()(v) == m && end == e,
            None => r is None,
        },
        r matches Some((_, end)) ==> pos < end <= b@.len(),
{
    let (severity, p1) = match take_str(b, pos) {
        Some(v) => v,
        None => return None,
    };
    let (code, p2) = match take_str(b, p1) {
        Some(v) => v,
        None => return None,
    };
    let (message, p3) = match take_str(b, p2) {
        Some(v) => v,
        None => return None,
    };
    Some((ResultDiagnosticV6 { severity, code, message }, p3))
}

fn take_commands_v6(b: &[u8], pos: usize) -> (r: Option<(Vec<StrategyCommandV6>, usize)>)
    requires
        pos <= b@.len(),
    ensures
        match list_at(b@, pos as int, command_v6_reader()) {
            Some((m, e)) => r matches Some((v, end)) && v@.map_values(command_v6_viewer()) == m && end
                == e,
            None => r is None,
        },
        r matches Some((_, end)) ==> pos < end <= b@.len(),
{
    let (n, start) = match take_u64(b, pos) {
        Some(v) => v,
        None => return None,
    };
    let mut out: Vec<StrategyCommandV6> = Vec::new();
    let mut p = start;
    let mut i: u64 = 0;
    while i < n
        invariant
            pos < start <= p <= b@.len(),
            i <= n,
            u64_at(b@, pos as int) matches Some((x, e)) && x == n && e == start,
            items_at(b@, start as int, i as nat, command_v6_reader()) == Some(
                (out@.map_values(command_v6_viewer()), p as int),
            ),
        decreases n - i,
    {
        match take_command_v6(b, p) {
            Some((item, e)) => {
                let ghost before = out@;
                out.push(item);
                assert(out@.map_values(command_v6_viewer()) =~= before.map_values(command_v6_viewer()).push(
                    command_v6_viewer()(item),
                ));
                p = e;
            },
            None => {
                proof {
                    assert(command_v6_reader()(b@, p as int) is None);
                    assert(items_at(b@, start as int, (i + 1) as nat, command_v6_reader()) is None);
                    lemma_items_stop(b@, start as int, (i + 1) as nat, n as nat, command_v6_reader());
                }
                return None;
            },
        }
        i += 1;
    }
    Some((out, p))
}

fn take_strings(b: &[u8], pos: usize) -> (r: Option<(Vec<String>, usize)>)
    requires
        pos <= b@.len(),
    ensures
        match list_at(b@, pos as int, string_reader()) {
            Some((m, e)) => r matches Some((v, end)) && v@.map_values(string_viewer()) == m && end
                == e,
            None => r is None,
        },
        r matches Some((_, end)) ==> pos < end <= b@.len(),
{
    let (n, start) = match take_u64(b, pos) {
        Some(v) => v,
        None => return None,
    };
    let mut out: Vec<String> = Vec::new();
    let mut p = start;
    let mut i: u64 = 0;
    while i < n
        invariant
            pos < start <= p <= b@.len(),
            i <= n,
            u64_at(b@, pos as int) matches Some((x, e)) && x == n && e == start,
            items_at(b@, start as int, i as nat, string_reader()) == Some(
                (out@.map_values(string_viewer()), p as int),
            ),
        decreases n - i,
    {
        match take_str(b, p) {
            Some((item, e)) => {
                let ghost before = out@;
                out.push(item);
                assert(out@.map_values(string_viewer()) =~= before.map_values(string_viewer()).push(
                    string_viewer()(item),
                ));
                p = e;
            },
            None => {
                proof {
                    assert(string_reader()(b@, p as int) is None);
                    assert(items_at(b@, start as int, (i + 1) as nat, string_reader()) is None);
                    lemma_items_stop(b@, start as int, (i + 1) as nat, n as nat, string_reader());
                }
                return None;
            },
        }
        i += 1;
    }
    Some((out, p))
}

fn take_evidence_v6_list(b: &[u8], pos: usize) -> (r: Option<(Vec<ResultEvidenceV6>, usize)>)
    requires
        pos <= b@.len(),
    ensures
        match list_at(b@, pos as int, evidence_v6_reader()) {
            Some((m, e)) => r matches Some((v, end)) && v@.map_values(evidence_v6_viewer()) == m && end
                == e,
            None => r is None,
        },
        r matches Some((_, end)) ==> pos < end <= b@.len(),
{
    let (n, start) = match take_u64(b, pos) {
        Some(v) => v,
        None => return None,
    };
    let mut out: Vec<ResultEvidenceV6> = Vec::new();
    let mut p = start;
    let mut i: u64 = 0;
    while i < n
        invariant
            pos < start <= p <= b@.len(),
            i <= n,
            u64_at(b@, pos as int) matches Some((x, e)) && x == n && e == start,
            items_at(b@, start as int, i as nat, evidence_v6_reader()) == Some(
                (out@.map_values(evidence_v6_viewer()), p as int),
            ),
        decreases n - i,
    {
        match take_evidence_v6(b, p) {
            Some((item, e)) => {
                let ghost before = out@;
                out.push(item);
                assert(out@.map_values(evidence_v6_viewer()) =~= before.map_values(evidence_v6_viewer()).push(
                    evidence_v6_viewer()(item),
                ));
                p = e;
            },
            None => {
                proof {
                    assert(evidence_v6_reader()(b@, p as int) is None);
                    assert(items_at(b@, start as int, (i + 1) as nat, evidence_v6_reader()) is None);
                    lemma_items_stop(b@, start as int, (i + 1) as nat, n as nat, evidence_v6_reader());
                }
                return None;
            },
        }
        i += 1;
    }
    Some((out, p))
}

fn take_diagnostics_v6(b: &[u8], pos: usize) -> (r: Option<(Vec<ResultDiagnosticV6>, usize)>)
    requires
        pos <= b@.len(),
    ensures
        match list_at(b@, pos as int, diagnostic_v6_reader()) {
            Some((m, e)) => r matches Some((v, end)) && v@.map_values(diagnostic_v6_viewer()) == m && end
                == e,
            None => r is None,
        },
        r matches Some((_, end)) ==> pos < end <= b@.len(),
{
    let (n, start) = match take_u64(b, pos) {
        Some(v) => v,
        None => return None,
    };
    let mut out: Vec<ResultDiagnosticV6> = Vec::new();
    let mut p = start;
    let mut i: u64 = 0;
    while i < n
        invariant
            pos < start <= p <= b@.len(),
            i <= n,
            u64_at(b@, pos as int) matches Some((x, e)) && x == n && e == start,
            items_at(b@, start as int, i as nat, diagnostic_v6_reader()) == Some(
                (out@.map_values(diagnostic_v6_viewer()), p as int),
            ),
        decreases n - i,
    {
        match take_diagnostic_v6(b, p) {
            Some((item, e)) => {
                let ghost before = out@;
                out.push(item);
                assert(out@.map_values(diagnostic_v6_viewer()) =~= before.map_values(diagnostic_v6_viewer()).push(
                    diagnostic_v6_viewer()(item),
                ));
                p = e;
            },
            None => {
                proof {
                    assert(diagnostic_v6_reader()(b@, p as int) is None);
                    assert(items_at(b@, start as int, (i + 1) as nat, diagnostic_v6_reader()) is None);
                    lemma_items_stop(b@, start as int, (i + 1) as nat, n as nat, diagnostic_v6_reader());
                }
                return None;
            },
        }
        i += 1;
    }
    Some((out, p))
}

fn take_telemetry(b: &[u8], pos: usize) -> (r: Option<(Vec<TelemetryEntryV6>, usize)>)
    requires
        pos <= b@.len(),
    ensures
        match list_at(b@, pos as int, telemetry_reader()) {
            Some((m, e)) => r matches Some((v, end)) && v@.map_values(telemetry_viewer()) == m && end
                == e,
            None => r is None,
        },
        r matches Some((_, end)) ==> pos < end <= b@.len(),
{
    let (n, start) = match take_u64(b, pos) {
        Some(v) => v,
        None => return None,
    };
    let mut out: Vec<TelemetryEntryV6> = Vec::new();
    let mut p = start;
    let mut i: u64 = 0;
    while i < n
        invariant
            pos < start <= p <= b@.len(),
            i <= n,
            u64_at(b@, pos as int) matches Some((x, e)) && x == n && e == start,
            items_at(b@, start as int, i as nat, telemetry_reader()) == Some(
                (out@.map_values(telemetry_viewer()), p as int),
            ),
        decreases n - i,
    {
        match take_telemetry_entry(b, p) {
            Some((item, e)) => {
                let ghost before = out@;
                out.push(item);
                assert(out@.map_values(telemetry_viewer()) =~= before.map_values(telemetry_viewer()).push(
                    telemetry_viewer()(item),
                ));
                p = e;
            },
            None => {
                proof {
                    assert(telemetry_reader()(b@, p as int) is None);
                    assert(items_at(b@, start as int, (i + 1) as nat, telemetry_reader()) is None);
                    lemma_items_stop(b@, start as int, (i + 1) as nat, n as nat, telemetry_reader());
                }
                return None;
            },
        }
        i += 1;
    }
    Some((out, p))
}

// ---------------------------------------------------------------------------------------------
// Decoding
// ---------------------------------------------------------------------------------------------

fn take_result_v6(b: &[u8], pos: usize) -> (r: Option<(DecisionResultV6, usize)>)
    requires
        pos <= b@.len(),
    ensures
        match result_v6_at(b@, pos as int) {
            Some((m, e)) => r matches Some((v, end)) && v@ == m && end == e,
            None => r is None,
        },
{
    proof {
        reveal(result_v6_head_at);
        reveal(result_v6_tail_at);
    }
    let (delivery_id, p1) = match take_str(b, pos) {
        Some(v) => v,
        None => return None,
    };
    let (sleeve_identity, p2) = match take_str(b, p1) {
        Some(v) => v,
        None => return None,
    };
    let (state_fence, p3) = match take_str(b, p2) {
        Some(v) => v,
        None => return None,
    };
    let (expected_broker_revision, p4) = match take_u64(b, p3) {
        Some(v) => v,
        None => return None,
    };
    let (disposition, p5) = match take_u32(b, p4) {
        Some((0, e)) => (DecisionDispositionV6::Completed, e),
        Some((1, e)) => (DecisionDispositionV6::Rejected, e),
        _ => return None,
    };
    let (kernel_checkpoint, p6) = match take_opt_checkpoint_v6(b, p5) {
        Some(v) => v,
        None => return None,
    };
    let (commands, p7) = match take_commands_v6(b, p6) {
        Some(v) => v,
        None => return None,
    };
    let (acknowledged_command_ids, p8) = match take_strings(b, p7) {
        Some(v) => v,
        None => return None,
    };
    let (evidence, p9) = match take_evidence_v6_list(b, p8) {
        Some(v) => v,
        None => return None,
    };
    let (diagnostics, p10) = match take_diagnostics_v6(b, p9) {
        Some(v) => v,
        None => return None,
    };
    let (telemetry, p11) = match take_telemetry(b, p10) {
        Some(v) => v,
        None => return None,
    };
    Some(
        (
            DecisionResultV6 {
                delivery_id,
                sleeve_identity,
                state_fence,
                expected_broker_revision,
                disposition,
                kernel_checkpoint,
                commands,
                acknowledged_command_ids,
                evidence,
                diagnostics,
                telemetry,
            },
            p11,
        ),
    )
}

/// Decodes a V6 result and checks it.
///
/// `Decode` when the bytes exceed `MAX_DECISION_RESULT_V6_BYTES`, do not begin with the V6
/// magic or do not read as a result; `TrailingBytes` when bytes follow the result; otherwise
/// the result's own error when it is not valid.
///
/// Not applied here: bincode's allocation limit, which charges each container read its claimed
/// length times the in-memory size of its item type before reading it. That size depends on
/// how the compiler lays the types out, so bytes that a decoder under bincode's limit refuses
/// with `Decode` can decode here.
pub fn decode_decision_result_v6(bytes: &[u8]) -> (r: Result<DecisionResultV6, DecisionV6Error>)
    ensures
        match decision_result_v6_read(bytes@) {
            Err(e) => r == Err::<DecisionResultV6, DecisionV6Error>(e),
            Ok(m) => match r {
                Ok(v) => v@ == m && result_verdict(v) is Ok,
                Err(e) => forall|v: DecisionResultV6|
                    v@ == m ==> #[trigger] result_verdict(v) == Err::<(), DecisionV6Error>(e),
            },
        },
{
    if bytes.len() > MAX_DECISION_RESULT_V6_BYTES || !has_magic(bytes, &DECISION_RESULT_V6_MAGIC) {
        return Err(DecisionV6Error::Decode);
    }
    let (result, end) = match take_result_v6(bytes, 8) {
        Some(v) => v,
        None => {
            return Err(DecisionV6Error::Decode);
        },
    };
    if end != bytes.len() {
        return Err(DecisionV6Error::TrailingBytes);
    }
    match result.validate() {
        Ok(()) => Ok(result),
        Err(e) => {
            proof {
                assert forall|v: DecisionResultV6| v@ == result@ implies #[trigger] result_verdict(
                    v,
                ) == Err::<(), DecisionV6Error>(e) by {
                    crate::result_view_v6::result_v6_verdict_depends_on_model(v, result);
                }
            }
            Err(e)
        },
    }
}

} // verus!
