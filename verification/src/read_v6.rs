//! Reading Decision V6 order update records back from the wire.
//!
//! A record read from bytes is described by its model (its view): the same fields with
//! strings as sequences. Reading what `encode_update_records` wrote gives the models of the
//! records it was given.
use crate::checkpoint_v6::{
    action_index, kind_index, side_index, update_status_index, wire_opt_action_spec,
    wire_opt_side_spec, wire_update_status_spec,
};
use crate::codec_v5::{
    bool_at, holds_at, items_at, lemma_holds_split, lemma_items_stop, lemma_list_at,
    lemma_opt_str_at, lemma_opt_u64_at, lemma_str_at, lemma_u32_at, lemma_u64_at, list_at,
    opt_str_at, opt_u64_at, str_at, take_bool, take_opt_str, take_opt_u64, take_str, take_u32,
    take_u64, take_u8, u32_at, u64_at, u8_at,
};
use crate::codec_v6::{record_encoder, wire_update_record_spec, wire_update_records_spec};
use crate::decision_v6::{
    BrokerCommandKindV6, ContractSideV6, DecisionV6Error, OrderActionV6, OrderUpdateRecordV6,
    OrderUpdateStatusV6,
};
use crate::decision_v6::ResultEvidenceV6;
use crate::result_v6::{
    is_order_updates_code, order_updates_code, update_record_ids_valid,
    validate_order_update_records,
};
use crate::text::{opt_view, spec_valid_identifier, spec_valid_optional_identifier};
use crate::wire::{varint, wire_bool_spec, wire_opt_str_spec, wire_opt_u64_spec, wire_str_spec};
use vstd::prelude::*;

verus! {

// ---------------------------------------------------------------------------------------------
// Models
// ---------------------------------------------------------------------------------------------

pub enum UpdateStatusModel {
    Accepted,
    Resting,
    PartiallyFilled,
    Filled,
    Cancelled,
    Expired,
    Refused { code: Seq<char>, reason: Seq<char> },
}

pub struct UpdateRecordModel {
    pub command_id: Seq<char>,
    pub kind: BrokerCommandKindV6,
    pub client_order_id: Option<Seq<char>>,
    pub order_id: Option<Seq<char>>,
    pub market_id: Option<Seq<char>>,
    pub action: Option<OrderActionV6>,
    pub side: Option<ContractSideV6>,
    pub status: UpdateStatusModel,
    pub requested_quantity_hundredths: u64,
    pub filled_quantity_hundredths: u64,
    pub remaining_quantity_hundredths: u64,
    pub newly_filled_quantity_hundredths: u64,
    pub average_fill_price_micros: Option<u64>,
    pub fees_micros: u64,
    pub is_final: bool,
    pub vanished: bool,
}

impl View for OrderUpdateStatusV6 {
    type V = UpdateStatusModel;

    open spec fn view(&self) -> UpdateStatusModel {
        match self {
            OrderUpdateStatusV6::Accepted => UpdateStatusModel::Accepted,
            OrderUpdateStatusV6::Resting => UpdateStatusModel::Resting,
            OrderUpdateStatusV6::PartiallyFilled => UpdateStatusModel::PartiallyFilled,
            OrderUpdateStatusV6::Filled => UpdateStatusModel::Filled,
            OrderUpdateStatusV6::Cancelled => UpdateStatusModel::Cancelled,
            OrderUpdateStatusV6::Expired => UpdateStatusModel::Expired,
            OrderUpdateStatusV6::Refused { code, reason } => UpdateStatusModel::Refused {
                code: code@,
                reason: reason@,
            },
        }
    }
}

impl View for OrderUpdateRecordV6 {
    type V = UpdateRecordModel;

    open spec fn view(&self) -> UpdateRecordModel {
        UpdateRecordModel {
            command_id: self.command_id@,
            kind: self.kind,
            client_order_id: opt_view(self.client_order_id),
            order_id: opt_view(self.order_id),
            market_id: opt_view(self.market_id),
            action: self.action,
            side: self.side,
            status: self.status@,
            requested_quantity_hundredths: self.requested_quantity_hundredths,
            filled_quantity_hundredths: self.filled_quantity_hundredths,
            remaining_quantity_hundredths: self.remaining_quantity_hundredths,
            newly_filled_quantity_hundredths: self.newly_filled_quantity_hundredths,
            average_fill_price_micros: self.average_fill_price_micros,
            fees_micros: self.fees_micros,
            is_final: self.is_final,
            vanished: self.vanished,
        }
    }
}

pub open spec fn record_viewer() -> spec_fn(OrderUpdateRecordV6) -> UpdateRecordModel {
    |r: OrderUpdateRecordV6| r@
}

// ---------------------------------------------------------------------------------------------
// Readers
// ---------------------------------------------------------------------------------------------

pub open spec fn kind_of(i: u32) -> Option<BrokerCommandKindV6> {
    if i == 0 {
        Some(BrokerCommandKindV6::PlaceOrder)
    } else if i == 1 {
        Some(BrokerCommandKindV6::CancelOrder)
    } else if i == 2 {
        Some(BrokerCommandKindV6::CancelAllOrders)
    } else {
        None
    }
}

pub open spec fn action_v6_of(i: u32) -> Option<OrderActionV6> {
    if i == 0 {
        Some(OrderActionV6::Buy)
    } else if i == 1 {
        Some(OrderActionV6::Sell)
    } else {
        None
    }
}

pub open spec fn side_v6_of(i: u32) -> Option<ContractSideV6> {
    if i == 0 {
        Some(ContractSideV6::Yes)
    } else if i == 1 {
        Some(ContractSideV6::No)
    } else {
        None
    }
}

pub open spec fn kind_at(b: Seq<u8>, p: int) -> Option<(BrokerCommandKindV6, int)> {
    match u32_at(b, p) {
        Some((i, q)) => match kind_of(i) {
            Some(k) => Some((k, q)),
            None => None,
        },
        None => None,
    }
}

pub open spec fn opt_action_v6_at(b: Seq<u8>, p: int) -> Option<(Option<OrderActionV6>, int)> {
    match u8_at(b, p) {
        Some((0, q)) => Some((None, q)),
        Some((1, q)) => match u32_at(b, q) {
            Some((i, e)) => match action_v6_of(i) {
                Some(a) => Some((Some(a), e)),
                None => None,
            },
            None => None,
        },
        _ => None,
    }
}

pub open spec fn opt_side_v6_at(b: Seq<u8>, p: int) -> Option<(Option<ContractSideV6>, int)> {
    match u8_at(b, p) {
        Some((0, q)) => Some((None, q)),
        Some((1, q)) => match u32_at(b, q) {
            Some((i, e)) => match side_v6_of(i) {
                Some(s) => Some((Some(s), e)),
                None => None,
            },
            None => None,
        },
        _ => None,
    }
}

pub open spec fn update_status_at(b: Seq<u8>, p: int) -> Option<(UpdateStatusModel, int)> {
    match u32_at(b, p) {
        Some((i, q)) => if i == 0 {
            Some((UpdateStatusModel::Accepted, q))
        } else if i == 1 {
            Some((UpdateStatusModel::Resting, q))
        } else if i == 2 {
            Some((UpdateStatusModel::PartiallyFilled, q))
        } else if i == 3 {
            Some((UpdateStatusModel::Filled, q))
        } else if i == 4 {
            Some((UpdateStatusModel::Cancelled, q))
        } else if i == 5 {
            Some((UpdateStatusModel::Expired, q))
        } else if i == 6 {
            match str_at(b, q) {
                Some((code, q1)) => match str_at(b, q1) {
                    Some((reason, q2)) => Some((UpdateStatusModel::Refused { code, reason }, q2)),
                    None => None,
                },
                None => None,
            }
        } else {
            None
        },
        None => None,
    }
}

/// The identities and optional fields of a record.
pub struct RecordHeadModel {
    pub command_id: Seq<char>,
    pub kind: BrokerCommandKindV6,
    pub client_order_id: Option<Seq<char>>,
    pub order_id: Option<Seq<char>>,
    pub market_id: Option<Seq<char>>,
    pub action: Option<OrderActionV6>,
    pub side: Option<ContractSideV6>,
    pub status: UpdateStatusModel,
}

/// The quantities and flags of a record.
pub struct RecordTailModel {
    pub requested_quantity_hundredths: u64,
    pub filled_quantity_hundredths: u64,
    pub remaining_quantity_hundredths: u64,
    pub newly_filled_quantity_hundredths: u64,
    pub average_fill_price_micros: Option<u64>,
    pub fees_micros: u64,
    pub is_final: bool,
    pub vanished: bool,
}

#[verifier::opaque]
pub open spec fn record_head_at(b: Seq<u8>, p: int) -> Option<(RecordHeadModel, int)> {
    match str_at(b, p) {
        Some((command_id, p1)) => match kind_at(b, p1) {
            Some((kind, p2)) => match opt_str_at(b, p2) {
                Some((client_order_id, p3)) => match opt_str_at(b, p3) {
                    Some((order_id, p4)) => match opt_str_at(b, p4) {
                        Some((market_id, p5)) => match opt_action_v6_at(b, p5) {
                            Some((action, p6)) => match opt_side_v6_at(b, p6) {
                                Some((side, p7)) => match update_status_at(b, p7) {
                                    Some((status, p8)) => Some(
                                        (
                                            RecordHeadModel {
                                                command_id,
                                                kind,
                                                client_order_id,
                                                order_id,
                                                market_id,
                                                action,
                                                side,
                                                status,
                                            },
                                            p8,
                                        ),
                                    ),
                                    None => None,
                                },
                                None => None,
                            },
                            None => None,
                        },
                        None => None,
                    },
                    None => None,
                },
                None => None,
            },
            None => None,
        },
        None => None,
    }
}

#[verifier::opaque]
pub open spec fn record_tail_at(b: Seq<u8>, p: int) -> Option<(RecordTailModel, int)> {
    match u64_at(b, p) {
        Some((requested_quantity_hundredths, p1)) => match u64_at(b, p1) {
            Some((filled_quantity_hundredths, p2)) => match u64_at(b, p2) {
                Some((remaining_quantity_hundredths, p3)) => match u64_at(b, p3) {
                    Some((newly_filled_quantity_hundredths, p4)) => match opt_u64_at(b, p4) {
                        Some((average_fill_price_micros, p5)) => match u64_at(b, p5) {
                            Some((fees_micros, p6)) => match bool_at(b, p6) {
                                Some((is_final, p7)) => match bool_at(b, p7) {
                                    Some((vanished, p8)) => Some(
                                        (
                                            RecordTailModel {
                                                requested_quantity_hundredths,
                                                filled_quantity_hundredths,
                                                remaining_quantity_hundredths,
                                                newly_filled_quantity_hundredths,
                                                average_fill_price_micros,
                                                fees_micros,
                                                is_final,
                                                vanished,
                                            },
                                            p8,
                                        ),
                                    ),
                                    None => None,
                                },
                                None => None,
                            },
                            None => None,
                        },
                        None => None,
                    },
                    None => None,
                },
                None => None,
            },
            None => None,
        },
        None => None,
    }
}

pub open spec fn record_of(h: RecordHeadModel, t: RecordTailModel) -> UpdateRecordModel {
    UpdateRecordModel {
        command_id: h.command_id,
        kind: h.kind,
        client_order_id: h.client_order_id,
        order_id: h.order_id,
        market_id: h.market_id,
        action: h.action,
        side: h.side,
        status: h.status,
        requested_quantity_hundredths: t.requested_quantity_hundredths,
        filled_quantity_hundredths: t.filled_quantity_hundredths,
        remaining_quantity_hundredths: t.remaining_quantity_hundredths,
        newly_filled_quantity_hundredths: t.newly_filled_quantity_hundredths,
        average_fill_price_micros: t.average_fill_price_micros,
        fees_micros: t.fees_micros,
        is_final: t.is_final,
        vanished: t.vanished,
    }
}

/// A record: its head, then its tail.
pub open spec fn record_at(b: Seq<u8>, p: int) -> Option<(UpdateRecordModel, int)> {
    match record_head_at(b, p) {
        Some((h, q)) => match record_tail_at(b, q) {
            Some((t, e)) => Some((record_of(h, t), e)),
            None => None,
        },
        None => None,
    }
}

pub open spec fn record_reader() -> spec_fn(Seq<u8>, int) -> Option<(UpdateRecordModel, int)> {
    |b: Seq<u8>, p: int| record_at(b, p)
}

/// What an `order_updates` payload reads as: a list of records that takes every byte;
/// `TrailingBytes` when bytes follow the list, `Decode` when the bytes do not read as a list.
pub open spec fn update_records_read(b: Seq<u8>) -> Result<Seq<UpdateRecordModel>, DecisionV6Error> {
    match list_at(b, 0, record_reader()) {
        Some((records, e)) => if e == b.len() {
            Ok(records)
        } else {
            Err(DecisionV6Error::TrailingBytes)
        },
        None => Err(DecisionV6Error::Decode),
    }
}

// ---------------------------------------------------------------------------------------------
// Reading what was written
// ---------------------------------------------------------------------------------------------

pub(crate) proof fn lemma_kind_at(b: Seq<u8>, p: int, k: BrokerCommandKindV6)
    requires
        holds_at(b, p, varint(kind_index(k))),
    ensures
        kind_at(b, p) == Some((k, p + varint(kind_index(k)).len())),
{
    lemma_u32_at(b, p, kind_index(k) as u32);
}

pub(crate) proof fn lemma_opt_action_v6_at(b: Seq<u8>, p: int, a: Option<OrderActionV6>)
    requires
        holds_at(b, p, wire_opt_action_spec(a)),
    ensures
        opt_action_v6_at(b, p) == Some((a, p + wire_opt_action_spec(a).len())),
{
    assert(b[p] == b.subrange(p, p + wire_opt_action_spec(a).len())[0]);
    match a {
        Some(x) => {
            lemma_holds_split(b, p, seq![1u8], varint(action_index(x)));
            lemma_u32_at(b, p + 1, action_index(x) as u32);
        },
        None => {},
    }
}

pub(crate) proof fn lemma_opt_side_v6_at(b: Seq<u8>, p: int, s: Option<ContractSideV6>)
    requires
        holds_at(b, p, wire_opt_side_spec(s)),
    ensures
        opt_side_v6_at(b, p) == Some((s, p + wire_opt_side_spec(s).len())),
{
    assert(b[p] == b.subrange(p, p + wire_opt_side_spec(s).len())[0]);
    match s {
        Some(x) => {
            lemma_holds_split(b, p, seq![1u8], varint(side_index(x)));
            lemma_u32_at(b, p + 1, side_index(x) as u32);
        },
        None => {},
    }
}

pub(crate) proof fn lemma_update_status_at(b: Seq<u8>, p: int, s: OrderUpdateStatusV6)
    requires
        holds_at(b, p, wire_update_status_spec(s)),
        b.len() <= u64::MAX,
    ensures
        update_status_at(b, p) == Some((s@, p + wire_update_status_spec(s).len())),
{
    match s {
        OrderUpdateStatusV6::Refused { code, reason } => {
            let w1 = varint(6);
            let w2 = wire_str_spec(code@);
            let w3 = wire_str_spec(reason@);
            assert(wire_update_status_spec(s) =~= w1 + w2 + w3);
            lemma_holds_split(b, p, w1 + w2, w3);
            lemma_holds_split(b, p, w1, w2);
            lemma_u32_at(b, p, 6);
            lemma_str_at(b, p + w1.len(), code@);
            lemma_str_at(b, p + w1.len() + w2.len(), reason@);
        },
        _ => {
            lemma_u32_at(b, p, update_status_index(s) as u32);
        },
    }
}

pub open spec fn record_head_model(r: OrderUpdateRecordV6) -> RecordHeadModel {
    RecordHeadModel {
        command_id: r.command_id@,
        kind: r.kind,
        client_order_id: opt_view(r.client_order_id),
        order_id: opt_view(r.order_id),
        market_id: opt_view(r.market_id),
        action: r.action,
        side: r.side,
        status: r.status@,
    }
}

pub open spec fn record_tail_model(r: OrderUpdateRecordV6) -> RecordTailModel {
    RecordTailModel {
        requested_quantity_hundredths: r.requested_quantity_hundredths,
        filled_quantity_hundredths: r.filled_quantity_hundredths,
        remaining_quantity_hundredths: r.remaining_quantity_hundredths,
        newly_filled_quantity_hundredths: r.newly_filled_quantity_hundredths,
        average_fill_price_micros: r.average_fill_price_micros,
        fees_micros: r.fees_micros,
        is_final: r.is_final,
        vanished: r.vanished,
    }
}

/// The record fields up to its status, on the wire.
pub open spec fn wire_record_head_spec(r: OrderUpdateRecordV6) -> Seq<u8> {
    wire_str_spec(r.command_id@) + varint(kind_index(r.kind)) + wire_opt_str_spec(
        opt_view(r.client_order_id),
    ) + wire_opt_str_spec(opt_view(r.order_id)) + wire_opt_str_spec(opt_view(r.market_id))
        + wire_opt_action_spec(r.action) + wire_opt_side_spec(r.side) + wire_update_status_spec(
        r.status,
    )
}

/// The record fields after its status, on the wire.
pub open spec fn wire_record_tail_spec(r: OrderUpdateRecordV6) -> Seq<u8> {
    varint(r.requested_quantity_hundredths as nat) + varint(r.filled_quantity_hundredths as nat)
        + varint(r.remaining_quantity_hundredths as nat) + varint(
        r.newly_filled_quantity_hundredths as nat,
    ) + wire_opt_u64_spec(r.average_fill_price_micros) + varint(r.fees_micros as nat)
        + wire_bool_spec(r.is_final) + wire_bool_spec(r.vanished)
}

proof fn lemma_record_head_at(b: Seq<u8>, p: int, r: OrderUpdateRecordV6)
    requires
        holds_at(b, p, wire_record_head_spec(r)),
        b.len() <= u64::MAX,
    ensures
        record_head_at(b, p) == Some((record_head_model(r), p + wire_record_head_spec(r).len())),
{
    reveal(record_head_at);
    let w1 = wire_str_spec(r.command_id@);
    let w2 = varint(kind_index(r.kind));
    let w3 = wire_opt_str_spec(opt_view(r.client_order_id));
    let w4 = wire_opt_str_spec(opt_view(r.order_id));
    let w5 = wire_opt_str_spec(opt_view(r.market_id));
    let w6 = wire_opt_action_spec(r.action);
    let w7 = wire_opt_side_spec(r.side);
    let w8 = wire_update_status_spec(r.status);
    assert(wire_record_head_spec(r) =~= w1 + w2 + w3 + w4 + w5 + w6 + w7 + w8);
    lemma_holds_split(b, p, w1 + w2 + w3 + w4 + w5 + w6 + w7, w8);
    lemma_holds_split(b, p, w1 + w2 + w3 + w4 + w5 + w6, w7);
    lemma_holds_split(b, p, w1 + w2 + w3 + w4 + w5, w6);
    lemma_holds_split(b, p, w1 + w2 + w3 + w4, w5);
    lemma_holds_split(b, p, w1 + w2 + w3, w4);
    lemma_holds_split(b, p, w1 + w2, w3);
    lemma_holds_split(b, p, w1, w2);
    let q1 = p + w1.len();
    let q2 = q1 + w2.len();
    let q3 = q2 + w3.len();
    let q4 = q3 + w4.len();
    let q5 = q4 + w5.len();
    let q6 = q5 + w6.len();
    let q7 = q6 + w7.len();
    lemma_str_at(b, p, r.command_id@);
    lemma_kind_at(b, q1, r.kind);
    lemma_opt_str_at(b, q2, opt_view(r.client_order_id));
    lemma_opt_str_at(b, q3, opt_view(r.order_id));
    lemma_opt_str_at(b, q4, opt_view(r.market_id));
    lemma_opt_action_v6_at(b, q5, r.action);
    lemma_opt_side_v6_at(b, q6, r.side);
    lemma_update_status_at(b, q7, r.status);
}

proof fn lemma_record_tail_at(b: Seq<u8>, p: int, r: OrderUpdateRecordV6)
    requires
        holds_at(b, p, wire_record_tail_spec(r)),
    ensures
        record_tail_at(b, p) == Some((record_tail_model(r), p + wire_record_tail_spec(r).len())),
{
    reveal(record_tail_at);
    let t1 = varint(r.requested_quantity_hundredths as nat);
    let t2 = varint(r.filled_quantity_hundredths as nat);
    let t3 = varint(r.remaining_quantity_hundredths as nat);
    let t4 = varint(r.newly_filled_quantity_hundredths as nat);
    let t5 = wire_opt_u64_spec(r.average_fill_price_micros);
    let t6 = varint(r.fees_micros as nat);
    let t7 = wire_bool_spec(r.is_final);
    let t8 = wire_bool_spec(r.vanished);
    assert(wire_record_tail_spec(r) =~= t1 + t2 + t3 + t4 + t5 + t6 + t7 + t8);
    lemma_holds_split(b, p, t1 + t2 + t3 + t4 + t5 + t6 + t7, t8);
    lemma_holds_split(b, p, t1 + t2 + t3 + t4 + t5 + t6, t7);
    lemma_holds_split(b, p, t1 + t2 + t3 + t4 + t5, t6);
    lemma_holds_split(b, p, t1 + t2 + t3 + t4, t5);
    lemma_holds_split(b, p, t1 + t2 + t3, t4);
    lemma_holds_split(b, p, t1 + t2, t3);
    lemma_holds_split(b, p, t1, t2);
    let q1 = p + t1.len();
    let q2 = q1 + t2.len();
    let q3 = q2 + t3.len();
    let q4 = q3 + t4.len();
    let q5 = q4 + t5.len();
    let q6 = q5 + t6.len();
    let q7 = q6 + t7.len();
    lemma_u64_at(b, p, r.requested_quantity_hundredths);
    lemma_u64_at(b, q1, r.filled_quantity_hundredths);
    lemma_u64_at(b, q2, r.remaining_quantity_hundredths);
    lemma_u64_at(b, q3, r.newly_filled_quantity_hundredths);
    lemma_opt_u64_at(b, q4, r.average_fill_price_micros);
    lemma_u64_at(b, q5, r.fees_micros);
    assert(b[q6] == b.subrange(q6, q6 + t7.len())[0]);
    assert(b[q7] == b.subrange(q7, q7 + t8.len())[0]);
}

pub(crate) proof fn lemma_add_assoc(a: Seq<u8>, b: Seq<u8>, c: Seq<u8>)
    ensures
        (a + b) + c == a + (b + c),
{
    assert((a + b) + c =~= a + (b + c));
}

/// A record is its head, then its tail.
proof fn lemma_record_split(r: OrderUpdateRecordV6)
    ensures
        wire_update_record_spec(r) == wire_record_head_spec(r) + wire_record_tail_spec(r),
{
    let h = wire_record_head_spec(r);
    let t1 = varint(r.requested_quantity_hundredths as nat);
    let t2 = varint(r.filled_quantity_hundredths as nat);
    let t3 = varint(r.remaining_quantity_hundredths as nat);
    let t4 = varint(r.newly_filled_quantity_hundredths as nat);
    let t5 = wire_opt_u64_spec(r.average_fill_price_micros);
    let t6 = varint(r.fees_micros as nat);
    let t7 = wire_bool_spec(r.is_final);
    let t8 = wire_bool_spec(r.vanished);
    lemma_add_assoc(h, t1, t2);
    lemma_add_assoc(h, t1 + t2, t3);
    lemma_add_assoc(h, t1 + t2 + t3, t4);
    lemma_add_assoc(h, t1 + t2 + t3 + t4, t5);
    lemma_add_assoc(h, t1 + t2 + t3 + t4 + t5, t6);
    lemma_add_assoc(h, t1 + t2 + t3 + t4 + t5 + t6, t7);
    lemma_add_assoc(h, t1 + t2 + t3 + t4 + t5 + t6 + t7, t8);
}

proof fn lemma_record_at(b: Seq<u8>, p: int, r: OrderUpdateRecordV6)
    requires
        holds_at(b, p, wire_update_record_spec(r)),
        b.len() <= u64::MAX,
    ensures
        record_at(b, p) == Some((r@, p + wire_update_record_spec(r).len())),
{
    let head = wire_record_head_spec(r);
    let tail = wire_record_tail_spec(r);
    lemma_record_split(r);
    lemma_holds_split(b, p, head, tail);
    lemma_record_head_at(b, p, r);
    lemma_record_tail_at(b, p + head.len(), r);
}

/// Reading the bytes `encode_update_records` writes for `records` gives the records back: the
/// payload reads as exactly their models, in order.
pub proof fn update_records_round_trip(records: Seq<OrderUpdateRecordV6>)
    requires
        wire_update_records_spec(records).len() <= u64::MAX,
    ensures
        update_records_read(wire_update_records_spec(records)) == Ok::<
            Seq<UpdateRecordModel>,
            DecisionV6Error,
        >(records.map_values(record_viewer())),
{
    let b = wire_update_records_spec(records);
    assert(b.subrange(0, b.len() as int) =~= b);
    assert forall|x: OrderUpdateRecordV6| #[trigger] record_encoder()(x).len() >= 1 by {
        lemma_record_split(x);
    }
    assert forall|i: int, q: int|
        0 <= i < records.len() && #[trigger] holds_at(b, q, record_encoder()(records[i])) implies record_reader()(
        b,
        q,
    ) == Some((record_viewer()(records[i]), q + record_encoder()(records[i]).len())) by {
        lemma_record_at(b, q, records[i]);
    }
    lemma_list_at(b, 0, records, record_encoder(), record_viewer(), record_reader());
}

// ---------------------------------------------------------------------------------------------
// Reading, executably
// ---------------------------------------------------------------------------------------------

pub(crate) fn take_kind(b: &[u8], pos: usize) -> (r: Option<(BrokerCommandKindV6, usize)>)
    requires
        pos <= b@.len(),
    ensures
        match kind_at(b@, pos as int) {
            Some((v, e)) => r matches Some((x, end)) && x == v && end == e,
            None => r is None,
        },
        r matches Some((_, end)) ==> pos < end <= b@.len(),
{
    match take_u32(b, pos) {
        Some((0, e)) => Some((BrokerCommandKindV6::PlaceOrder, e)),
        Some((1, e)) => Some((BrokerCommandKindV6::CancelOrder, e)),
        Some((2, e)) => Some((BrokerCommandKindV6::CancelAllOrders, e)),
        _ => None,
    }
}

pub(crate) fn take_opt_action_v6(b: &[u8], pos: usize) -> (r: Option<(Option<OrderActionV6>, usize)>)
    requires
        pos <= b@.len(),
    ensures
        match opt_action_v6_at(b@, pos as int) {
            Some((v, e)) => r matches Some((x, end)) && x == v && end == e,
            None => r is None,
        },
        r matches Some((_, end)) ==> pos < end <= b@.len(),
{
    match take_u8(b, pos) {
        Some((0, e)) => Some((None, e)),
        Some((1, e)) => match take_u32(b, e) {
            Some((0, e2)) => Some((Some(OrderActionV6::Buy), e2)),
            Some((1, e2)) => Some((Some(OrderActionV6::Sell), e2)),
            _ => None,
        },
        _ => None,
    }
}

pub(crate) fn take_opt_side_v6(b: &[u8], pos: usize) -> (r: Option<(Option<ContractSideV6>, usize)>)
    requires
        pos <= b@.len(),
    ensures
        match opt_side_v6_at(b@, pos as int) {
            Some((v, e)) => r matches Some((x, end)) && x == v && end == e,
            None => r is None,
        },
        r matches Some((_, end)) ==> pos < end <= b@.len(),
{
    match take_u8(b, pos) {
        Some((0, e)) => Some((None, e)),
        Some((1, e)) => match take_u32(b, e) {
            Some((0, e2)) => Some((Some(ContractSideV6::Yes), e2)),
            Some((1, e2)) => Some((Some(ContractSideV6::No), e2)),
            _ => None,
        },
        _ => None,
    }
}

pub(crate) fn take_update_status(b: &[u8], pos: usize) -> (r: Option<(OrderUpdateStatusV6, usize)>)
    requires
        pos <= b@.len(),
    ensures
        match update_status_at(b@, pos as int) {
            Some((m, e)) => r matches Some((v, end)) && v@ == m && end == e,
            None => r is None,
        },
        r matches Some((_, end)) ==> pos < end <= b@.len(),
{
    let (index, p1) = match take_u32(b, pos) {
        Some(v) => v,
        None => return None,
    };
    match index {
        0 => Some((OrderUpdateStatusV6::Accepted, p1)),
        1 => Some((OrderUpdateStatusV6::Resting, p1)),
        2 => Some((OrderUpdateStatusV6::PartiallyFilled, p1)),
        3 => Some((OrderUpdateStatusV6::Filled, p1)),
        4 => Some((OrderUpdateStatusV6::Cancelled, p1)),
        5 => Some((OrderUpdateStatusV6::Expired, p1)),
        6 => {
            let (code, p2) = match take_str(b, p1) {
                Some(v) => v,
                None => return None,
            };
            let (reason, p3) = match take_str(b, p2) {
                Some(v) => v,
                None => return None,
            };
            Some((OrderUpdateStatusV6::Refused { code, reason }, p3))
        },
        _ => None,
    }
}

fn take_record_head(b: &[u8], pos: usize) -> (r: Option<
    (
        (
            String,
            BrokerCommandKindV6,
            Option<String>,
            Option<String>,
            Option<String>,
            Option<OrderActionV6>,
            Option<ContractSideV6>,
            OrderUpdateStatusV6,
        ),
        usize,
    ),
>)
    requires
        pos <= b@.len(),
    ensures
        match record_head_at(b@, pos as int) {
            Some((m, e)) => r matches Some((v, end)) && v.0@ == m.command_id && v.1 == m.kind
                && opt_view(v.2) == m.client_order_id && opt_view(v.3) == m.order_id && opt_view(
                v.4,
            ) == m.market_id && v.5 == m.action && v.6 == m.side && v.7@ == m.status && end == e,
            None => r is None,
        },
        r matches Some((_, end)) ==> pos < end <= b@.len(),
{
    proof {
        reveal(record_head_at);
    }
    let (command_id, p1) = match take_str(b, pos) {
        Some(v) => v,
        None => return None,
    };
    let (kind, p2) = match take_kind(b, p1) {
        Some(v) => v,
        None => return None,
    };
    let (client_order_id, p3) = match take_opt_str(b, p2) {
        Some(v) => v,
        None => return None,
    };
    let (order_id, p4) = match take_opt_str(b, p3) {
        Some(v) => v,
        None => return None,
    };
    let (market_id, p5) = match take_opt_str(b, p4) {
        Some(v) => v,
        None => return None,
    };
    let (action, p6) = match take_opt_action_v6(b, p5) {
        Some(v) => v,
        None => return None,
    };
    let (side, p7) = match take_opt_side_v6(b, p6) {
        Some(v) => v,
        None => return None,
    };
    let (status, p8) = match take_update_status(b, p7) {
        Some(v) => v,
        None => return None,
    };
    Some(((command_id, kind, client_order_id, order_id, market_id, action, side, status), p8))
}

fn take_record_tail(b: &[u8], pos: usize) -> (r: Option<
    ((u64, u64, u64, u64, Option<u64>, u64, bool, bool), usize),
>)
    requires
        pos <= b@.len(),
    ensures
        match record_tail_at(b@, pos as int) {
            Some((m, e)) => r matches Some((v, end)) && v.0 == m.requested_quantity_hundredths
                && v.1 == m.filled_quantity_hundredths && v.2 == m.remaining_quantity_hundredths
                && v.3 == m.newly_filled_quantity_hundredths && v.4 == m.average_fill_price_micros
                && v.5 == m.fees_micros && v.6 == m.is_final && v.7 == m.vanished && end == e,
            None => r is None,
        },
        r matches Some((_, end)) ==> pos < end <= b@.len(),
{
    proof {
        reveal(record_tail_at);
    }
    let (requested, p1) = match take_u64(b, pos) {
        Some(v) => v,
        None => return None,
    };
    let (filled, p2) = match take_u64(b, p1) {
        Some(v) => v,
        None => return None,
    };
    let (remaining, p3) = match take_u64(b, p2) {
        Some(v) => v,
        None => return None,
    };
    let (newly_filled, p4) = match take_u64(b, p3) {
        Some(v) => v,
        None => return None,
    };
    let (average, p5) = match take_opt_u64(b, p4) {
        Some(v) => v,
        None => return None,
    };
    let (fees, p6) = match take_u64(b, p5) {
        Some(v) => v,
        None => return None,
    };
    let (is_final, p7) = match take_bool(b, p6) {
        Some(v) => v,
        None => return None,
    };
    let (vanished, p8) = match take_bool(b, p7) {
        Some(v) => v,
        None => return None,
    };
    Some(((requested, filled, remaining, newly_filled, average, fees, is_final, vanished), p8))
}

fn take_record(b: &[u8], pos: usize) -> (r: Option<(OrderUpdateRecordV6, usize)>)
    requires
        pos <= b@.len(),
    ensures
        match record_at(b@, pos as int) {
            Some((m, e)) => r matches Some((v, end)) && v@ == m && end == e,
            None => r is None,
        },
        r matches Some((_, end)) ==> pos < end <= b@.len(),
{
    let (head, p1) = match take_record_head(b, pos) {
        Some(v) => v,
        None => return None,
    };
    let (tail, p2) = match take_record_tail(b, p1) {
        Some(v) => v,
        None => return None,
    };
    let (command_id, kind, client_order_id, order_id, market_id, action, side, status) = head;
    let (
        requested_quantity_hundredths,
        filled_quantity_hundredths,
        remaining_quantity_hundredths,
        newly_filled_quantity_hundredths,
        average_fill_price_micros,
        fees_micros,
        is_final,
        vanished,
    ) = tail;
    Some(
        (
            OrderUpdateRecordV6 {
                command_id,
                kind,
                client_order_id,
                order_id,
                market_id,
                action,
                side,
                status,
                requested_quantity_hundredths,
                filled_quantity_hundredths,
                remaining_quantity_hundredths,
                newly_filled_quantity_hundredths,
                average_fill_price_micros,
                fees_micros,
                is_final,
                vanished,
            },
            p2,
        ),
    )
}

fn take_records(b: &[u8], pos: usize) -> (r: Option<(Vec<OrderUpdateRecordV6>, usize)>)
    requires
        pos <= b@.len(),
    ensures
        match list_at(b@, pos as int, record_reader()) {
            Some((m, e)) => r matches Some((v, end)) && v@.map_values(record_viewer()) == m && end
                == e,
            None => r is None,
        },
        r matches Some((_, end)) ==> pos < end <= b@.len(),
{
    let (n, start) = match take_u64(b, pos) {
        Some(v) => v,
        None => return None,
    };
    let mut out: Vec<OrderUpdateRecordV6> = Vec::new();
    let mut p = start;
    let mut i: u64 = 0;
    while i < n
        invariant
            pos < start <= p <= b@.len(),
            i <= n,
            u64_at(b@, pos as int) matches Some((x, e)) && x == n && e == start,
            items_at(b@, start as int, i as nat, record_reader()) == Some(
                (out@.map_values(record_viewer()), p as int),
            ),
        decreases n - i,
    {
        match take_record(b, p) {
            Some((record, e)) => {
                let ghost before = out@;
                out.push(record);
                assert(out@.map_values(record_viewer()) =~= before.map_values(
                    record_viewer(),
                ).push(record@));
                p = e;
            },
            None => {
                proof {
                    assert(record_reader()(b@, p as int) is None);
                    assert(items_at(b@, start as int, (i + 1) as nat, record_reader()) is None);
                    lemma_items_stop(b@, start as int, (i + 1) as nat, n as nat, record_reader());
                }
                return None;
            },
        }
        i += 1;
    }
    Some((out, p))
}

/// Decodes an `order_updates` payload: the records it lists, which must take every byte.
///
/// `Decode` when the bytes do not read as a list of records, `TrailingBytes` when bytes follow
/// it.
pub fn decode_update_records(payload: &[u8]) -> (r: Result<Vec<OrderUpdateRecordV6>, DecisionV6Error>)
    ensures
        match update_records_read(payload@) {
            Ok(m) => r matches Ok(v) && v@.map_values(record_viewer()) == m,
            Err(e) => r == Err::<Vec<OrderUpdateRecordV6>, DecisionV6Error>(e),
        },
{
    match take_records(payload, 0) {
        Some((records, end)) => {
            if end == payload.len() {
                Ok(records)
            } else {
                Err(DecisionV6Error::TrailingBytes)
            }
        },
        None => Err(DecisionV6Error::Decode),
    }
}

// ---------------------------------------------------------------------------------------------
// Order update evidence
// ---------------------------------------------------------------------------------------------

/// A record's command id is an identifier, and so is each of its other ids that is present.
pub open spec fn record_model_ids_valid(m: UpdateRecordModel) -> bool {
    &&& spec_valid_identifier(m.command_id)
    &&& spec_valid_optional_identifier(m.client_order_id)
    &&& spec_valid_optional_identifier(m.order_id)
    &&& spec_valid_optional_identifier(m.market_id)
}

/// What an evidence entry reads as when taken for order updates: `InvalidContract` unless its
/// code is `order_updates`; its payload's decoding error; `InvalidContract` when a record's ids
/// are not identifiers; else the records.
pub open spec fn update_evidence_read(e: ResultEvidenceV6) -> Result<
    Seq<UpdateRecordModel>,
    DecisionV6Error,
> {
    if e.code@ != order_updates_code() {
        Err(DecisionV6Error::InvalidContract)
    } else {
        match update_records_read(e.payload@) {
            Err(x) => Err(x),
            Ok(records) => if forall|i: int|
                0 <= i < records.len() ==> #[trigger] record_model_ids_valid(records[i]) {
                Ok(records)
            } else {
                Err(DecisionV6Error::InvalidContract)
            },
        }
    }
}

/// Decodes the order update records of an `order_updates` evidence entry.
///
/// Not applied here: bincode's allocation limit of `MAX_EVIDENCE_PAYLOAD_BYTES`, which charges
/// the record list its claimed length times the in-memory size of a record before reading it.
/// That size depends on how the compiler lays the type out, so a payload that a decoder under
/// bincode's limit refuses can decode here.
pub fn decode_order_update_evidence(evidence: &ResultEvidenceV6) -> (r: Result<
    Vec<OrderUpdateRecordV6>,
    DecisionV6Error,
>)
    ensures
        match update_evidence_read(*evidence) {
            Ok(m) => r matches Ok(v) && v@.map_values(record_viewer()) == m,
            Err(e) => r == Err::<Vec<OrderUpdateRecordV6>, DecisionV6Error>(e),
        },
{
    if !is_order_updates_code(&evidence.code) {
        return Err(DecisionV6Error::InvalidContract);
    }
    let records = match decode_update_records(evidence.payload.as_slice()) {
        Ok(v) => v,
        Err(e) => {
            return Err(e);
        },
    };
    let ghost models = records@.map_values(record_viewer());
    assert forall|i: int| 0 <= i < records@.len() implies #[trigger] update_record_ids_valid(
        records@[i],
    ) == record_model_ids_valid(models[i]) by {
        assert(models[i] == records@[i]@);
    }
    if validate_order_update_records(&records).is_err() {
        proof {
            let i = choose|i: int| 0 <= i < records@.len() && !#[trigger] update_record_ids_valid(
                records@[i],
            );
            assert(!record_model_ids_valid(models[i]));
        }
        return Err(DecisionV6Error::InvalidContract);
    }
    assert forall|i: int| 0 <= i < models.len() implies #[trigger] record_model_ids_valid(
        models[i],
    ) by {
        assert(update_record_ids_valid(records@[i]));
    }
    Ok(records)
}

} // verus!
