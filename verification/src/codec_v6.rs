//! The Decision V6 result and its order update evidence on the wire.
use crate::checkpoint_v6::{
    action_index, encode_runner_section, kind_code, kind_index, put_opt_action, put_opt_side,
    side_index, update_status_index, wire_opt_action_spec, wire_opt_side_spec,
    wire_runner_section_spec, wire_update_status_spec,
};
use crate::codec_v5::{wire_items, wire_list};
use crate::decision_v6::{
    AnnotationValueV6, CancelTargetV6, DecisionDispositionV6, DecisionResultV6, DecisionV6Error,
    KernelCheckpointV6, OrderTypeV6, OrderUpdateRecordV6, OrderUpdateStatusV6, PlaceOrderV6,
    ResultDiagnosticV6, ResultEvidenceV6, StrategyCommandV6, TelemetryEntryV6,
    DECISION_RESULT_V6_MAGIC, MAX_DECISION_RESULT_V6_BYTES, MAX_EVIDENCE_PAYLOAD_BYTES,
    ORDER_UPDATES_EVIDENCE_CODE,
};
use crate::digest::{extend, sha256, sha256_digest};
use crate::result_v6::{order_updates_code, result_verdict};
use crate::text::opt_view;
use crate::wire::{
    put, put_opt_i64, put_opt_str, put_opt_u64, varint, wire_array32, wire_bool, wire_bool_spec,
    wire_bytes, wire_bytes_spec, wire_i64, wire_opt_i64_spec, wire_opt_str_spec,
    wire_opt_u64_spec, wire_str, wire_str_spec, wire_u32, wire_u64, wire_u8, zigzag,
};
use vstd::prelude::*;
use vstd::string::StringExecFns;

verus! {

// ---------------------------------------------------------------------------------------------
// Order update records
// ---------------------------------------------------------------------------------------------

pub open spec fn wire_update_record_spec(r: OrderUpdateRecordV6) -> Seq<u8> {
    wire_str_spec(r.command_id@) + varint(kind_index(r.kind)) + wire_opt_str_spec(
        opt_view(r.client_order_id),
    ) + wire_opt_str_spec(opt_view(r.order_id)) + wire_opt_str_spec(opt_view(r.market_id))
        + wire_opt_action_spec(r.action) + wire_opt_side_spec(r.side) + wire_update_status_spec(
        r.status,
    ) + varint(r.requested_quantity_hundredths as nat) + varint(
        r.filled_quantity_hundredths as nat,
    ) + varint(r.remaining_quantity_hundredths as nat) + varint(
        r.newly_filled_quantity_hundredths as nat,
    ) + wire_opt_u64_spec(r.average_fill_price_micros) + varint(r.fees_micros as nat)
        + wire_bool_spec(r.is_final) + wire_bool_spec(r.vanished)
}

pub open spec fn record_encoder() -> spec_fn(OrderUpdateRecordV6) -> Seq<u8> {
    |r: OrderUpdateRecordV6| wire_update_record_spec(r)
}

/// The payload of an `order_updates` evidence entry: the records as a list.
pub open spec fn wire_update_records_spec(s: Seq<OrderUpdateRecordV6>) -> Seq<u8> {
    wire_list(s, record_encoder())
}

fn put_update_status(out: &mut Vec<u8>, s: &OrderUpdateStatusV6)
    ensures
        final(out)@ == old(out)@ + wire_update_status_spec(*s),
{
    let ghost start = out@;
    match s {
        OrderUpdateStatusV6::Refused { code, reason } => {
            put(out, wire_u32(6));
            put(out, wire_str(code));
            put(out, wire_str(reason));
            assert(out@ =~= start + wire_update_status_spec(*s));
        },
        OrderUpdateStatusV6::Accepted => put(out, wire_u32(0)),
        OrderUpdateStatusV6::Resting => put(out, wire_u32(1)),
        OrderUpdateStatusV6::PartiallyFilled => put(out, wire_u32(2)),
        OrderUpdateStatusV6::Filled => put(out, wire_u32(3)),
        OrderUpdateStatusV6::Cancelled => put(out, wire_u32(4)),
        OrderUpdateStatusV6::Expired => put(out, wire_u32(5)),
    }
}

/// One order update record in the wire configuration.
pub fn encode_update_record(r: &OrderUpdateRecordV6) -> (bytes: Vec<u8>)
    ensures
        bytes@ == wire_update_record_spec(*r),
{
    let mut out: Vec<u8> = Vec::new();
    put(&mut out, wire_str(&r.command_id));
    put(&mut out, wire_u32(kind_code(r.kind)));
    put_opt_str(&mut out, &r.client_order_id);
    put_opt_str(&mut out, &r.order_id);
    put_opt_str(&mut out, &r.market_id);
    put_opt_action(&mut out, r.action);
    put_opt_side(&mut out, r.side);
    put_update_status(&mut out, &r.status);
    put(&mut out, wire_u64(r.requested_quantity_hundredths));
    put(&mut out, wire_u64(r.filled_quantity_hundredths));
    put(&mut out, wire_u64(r.remaining_quantity_hundredths));
    put(&mut out, wire_u64(r.newly_filled_quantity_hundredths));
    put_opt_u64(&mut out, r.average_fill_price_micros);
    put(&mut out, wire_u64(r.fees_micros));
    put(&mut out, wire_bool(r.is_final));
    put(&mut out, wire_bool(r.vanished));
    assert(out@ =~= wire_update_record_spec(*r));
    out
}

/// Records as a list in the wire configuration.
pub fn encode_update_records(records: &[OrderUpdateRecordV6]) -> (bytes: Vec<u8>)
    ensures
        bytes@ == wire_update_records_spec(records@),
{
    let mut out: Vec<u8> = Vec::new();
    put(&mut out, wire_u64(records.len() as u64));
    let mut i: usize = 0;
    while i < records.len()
        invariant
            0 <= i <= records@.len(),
            out@ == varint(records@.len()) + wire_items(records@.take(i as int), record_encoder()),
        decreases records@.len() - i,
    {
        put(&mut out, encode_update_record(&records[i]));
        assert(records@.take(i + 1).drop_last() =~= records@.take(i as int));
        i += 1;
    }
    assert(records@.take(records@.len() as int) =~= records@);
    out
}

// ---------------------------------------------------------------------------------------------
// Chunking records into evidence entries
// ---------------------------------------------------------------------------------------------

/// Where chunking stands after some records: the chunks closed so far, the open chunk, and
/// the encoded size of the open chunk's records.
pub struct ChunkingModel {
    pub closed: Seq<Seq<OrderUpdateRecordV6>>,
    pub open: Seq<OrderUpdateRecordV6>,
    pub open_bytes: nat,
}

/// The next record joins the open chunk unless the chunk already holds a record and adding
/// this one (with a list length prefix of at most nine bytes) would pass the payload bound,
/// in which case the open chunk closes and the record opens the next one.
pub open spec fn chunking_step(m: ChunkingModel, r: OrderUpdateRecordV6) -> ChunkingModel {
    let size = wire_update_record_spec(r).len();
    if m.open.len() > 0 && m.open_bytes + size + 9 > MAX_EVIDENCE_PAYLOAD_BYTES {
        ChunkingModel { closed: m.closed.push(m.open), open: seq![r], open_bytes: size }
    } else {
        ChunkingModel { closed: m.closed, open: m.open.push(r), open_bytes: m.open_bytes + size }
    }
}

pub open spec fn chunking_after(s: Seq<OrderUpdateRecordV6>) -> ChunkingModel
    decreases s.len(),
{
    if s.len() == 0 {
        ChunkingModel { closed: Seq::empty(), open: Seq::empty(), open_bytes: 0 }
    } else {
        chunking_step(chunking_after(s.drop_last()), s.last())
    }
}

/// The chunks the records are grouped into, in order.
pub open spec fn update_chunks(s: Seq<OrderUpdateRecordV6>) -> Seq<Seq<OrderUpdateRecordV6>> {
    let m = chunking_after(s);
    if m.open.len() > 0 {
        m.closed.push(m.open)
    } else {
        m.closed
    }
}

/// Some chunk's payload passes the bound.
pub open spec fn some_chunk_too_large(chunks: Seq<Seq<OrderUpdateRecordV6>>) -> bool {
    exists|k: int|
        0 <= k < chunks.len() && #[trigger] wire_update_records_spec(chunks[k]).len()
            > MAX_EVIDENCE_PAYLOAD_BYTES
}

/// A closed chunk stays closed, unchanged, as more records are chunked.
proof fn lemma_closed_chunks_persist(s: Seq<OrderUpdateRecordV6>, n: nat, m: nat)
    requires
        n <= m <= s.len(),
    ensures
        chunking_after(s.take(n as int)).closed.len() <= chunking_after(s.take(m as int)).closed.len(),
        forall|k: int|
            0 <= k < chunking_after(s.take(n as int)).closed.len() ==> chunking_after(
                s.take(m as int),
            ).closed[k] == #[trigger] chunking_after(s.take(n as int)).closed[k],
    decreases m - n,
{
    if m > n {
        lemma_closed_chunks_persist(s, n, (m - 1) as nat);
        assert(s.take(m as int).drop_last() =~= s.take(m - 1));
    }
}

proof fn lemma_chunking_next(s: Seq<OrderUpdateRecordV6>, i: int)
    requires
        0 <= i < s.len(),
    ensures
        chunking_after(s.take(i + 1)) == chunking_step(chunking_after(s.take(i)), s[i]),
{
    assert(s.take(i + 1).drop_last() =~= s.take(i));
    assert(s.take(i + 1).last() == s[i]);
}

/// The chunks closed after `n` records are the first chunks of all the records.
proof fn lemma_chunk_stays_closed(s: Seq<OrderUpdateRecordV6>, n: nat)
    requires
        n <= s.len(),
    ensures
        chunking_after(s.take(n as int)).closed.len() <= update_chunks(s).len(),
        forall|k: int|
            0 <= k < chunking_after(s.take(n as int)).closed.len() ==> update_chunks(s)[k]
                == #[trigger] chunking_after(s.take(n as int)).closed[k],
{
    lemma_closed_chunks_persist(s, n, s.len());
    assert(s.take(s.len() as int) =~= s);
}

/// What holds after chunking any records: the closed chunks then the open one are the
/// records; closed chunks are not empty; a chunk of several records leaves room for its list
/// length in the payload bound; the open chunk's size is what its records take.
pub open spec fn chunking_sound(s: Seq<OrderUpdateRecordV6>, m: ChunkingModel) -> bool {
    &&& m.closed.flatten() + m.open == s
    &&& forall|k: int|
        0 <= k < m.closed.len() ==> (#[trigger] m.closed[k]).len() > 0 && (m.closed[k].len() > 1
            ==> wire_items(m.closed[k], record_encoder()).len() + 9 <= MAX_EVIDENCE_PAYLOAD_BYTES)
    &&& m.open_bytes == wire_items(m.open, record_encoder()).len()
    &&& m.open.len() > 1 ==> m.open_bytes + 9 <= MAX_EVIDENCE_PAYLOAD_BYTES
}

proof fn lemma_items_single(r: OrderUpdateRecordV6)
    ensures
        wire_items(seq![r], record_encoder()) == wire_update_record_spec(r),
{
    let one = seq![r];
    assert(one.drop_last() =~= Seq::<OrderUpdateRecordV6>::empty());
    assert(wire_items(Seq::<OrderUpdateRecordV6>::empty(), record_encoder()) == Seq::<u8>::empty());
    assert(wire_items(one, record_encoder()) == wire_items(one.drop_last(), record_encoder())
        + wire_update_record_spec(r));
    assert(Seq::<u8>::empty() + wire_update_record_spec(r) =~= wire_update_record_spec(r));
}

proof fn lemma_items_push(c: Seq<OrderUpdateRecordV6>, r: OrderUpdateRecordV6)
    ensures
        wire_items(c.push(r), record_encoder()).len() == wire_items(c, record_encoder()).len()
            + wire_update_record_spec(r).len(),
{
    assert(c.push(r).drop_last() =~= c);
}

proof fn lemma_chunking_close(s: Seq<OrderUpdateRecordV6>, m: ChunkingModel, r: OrderUpdateRecordV6)
    requires
        chunking_sound(s, m),
        m.open.len() > 0,
    ensures
        chunking_sound(
            s.push(r),
            ChunkingModel {
                closed: m.closed.push(m.open),
                open: seq![r],
                open_bytes: wire_update_record_spec(r).len(),
            },
        ),
{
    m.closed.lemma_flatten_push(m.open);
    lemma_items_single(r);
    assert(m.closed.push(m.open).flatten() + seq![r] =~= s.push(r));
    assert forall|k: int| 0 <= k < m.closed.push(m.open).len() implies (#[trigger] m.closed.push(
        m.open,
    )[k]).len() > 0 && (m.closed.push(m.open)[k].len() > 1 ==> wire_items(
        m.closed.push(m.open)[k],
        record_encoder(),
    ).len() + 9 <= MAX_EVIDENCE_PAYLOAD_BYTES) by {
        if k < m.closed.len() {
            assert(m.closed.push(m.open)[k] == m.closed[k]);
        }
    }
}

proof fn lemma_chunking_join(s: Seq<OrderUpdateRecordV6>, m: ChunkingModel, r: OrderUpdateRecordV6)
    requires
        chunking_sound(s, m),
        m.open.len() > 0 ==> m.open_bytes + wire_update_record_spec(r).len() + 9
            <= MAX_EVIDENCE_PAYLOAD_BYTES,
    ensures
        chunking_sound(
            s.push(r),
            ChunkingModel {
                closed: m.closed,
                open: m.open.push(r),
                open_bytes: m.open_bytes + wire_update_record_spec(r).len(),
            },
        ),
{
    lemma_items_push(m.open, r);
    assert(m.closed.flatten() + m.open.push(r) =~= s.push(r));
}

proof fn lemma_chunking_sound(s: Seq<OrderUpdateRecordV6>)
    ensures
        chunking_sound(s, chunking_after(s)),
    decreases s.len(),
{
    if s.len() == 0 {
        assert(Seq::<Seq<OrderUpdateRecordV6>>::empty().flatten() =~= Seq::<
            OrderUpdateRecordV6,
        >::empty());
        assert(wire_items(Seq::<OrderUpdateRecordV6>::empty(), record_encoder()).len() == 0);
        assert(Seq::<OrderUpdateRecordV6>::empty() + Seq::<OrderUpdateRecordV6>::empty() =~= s);
    } else {
        let init = s.drop_last();
        let r = s.last();
        lemma_chunking_sound(init);
        let m = chunking_after(init);
        assert(init.push(r) =~= s);
        let size = wire_update_record_spec(r).len();
        if m.open.len() > 0 && m.open_bytes + size + 9 > MAX_EVIDENCE_PAYLOAD_BYTES {
            lemma_chunking_close(init, m, r);
        } else {
            lemma_chunking_join(init, m, r);
        }
        assert(chunking_after(s) == chunking_step(m, r));
    }
}

proof fn lemma_varint_short(n: nat)
    ensures
        varint(n).len() <= 9,
{
}

/// Chunking order updates loses, repeats and reorders nothing: the chunks, one after another,
/// are the records. No chunk is empty, and a chunk of several records fits in an evidence
/// payload; only a record too large to fit on its own makes an oversized chunk.
pub proof fn order_update_chunks_are_lossless(s: Seq<OrderUpdateRecordV6>)
    ensures
        update_chunks(s).flatten() == s,
        forall|k: int| 0 <= k < update_chunks(s).len() ==> (#[trigger] update_chunks(s)[k]).len() > 0,
        forall|k: int|
            0 <= k < update_chunks(s).len() && (#[trigger] update_chunks(s)[k]).len() > 1
                ==> wire_update_records_spec(update_chunks(s)[k]).len()
                <= MAX_EVIDENCE_PAYLOAD_BYTES,
{
    lemma_chunking_sound(s);
    let m = chunking_after(s);
    let chunks = update_chunks(s);
    if m.open.len() > 0 {
        m.closed.lemma_flatten_push(m.open);
    } else {
        assert(m.closed.flatten() + m.open =~= m.closed.flatten());
    }
    assert forall|k: int|
        0 <= k < chunks.len() && (#[trigger] chunks[k]).len() > 1 implies wire_update_records_spec(
        chunks[k],
    ).len() <= MAX_EVIDENCE_PAYLOAD_BYTES by {
        lemma_varint_short(chunks[k].len());
    }
}

fn order_update_chunk(records: &[OrderUpdateRecordV6]) -> (r: Result<
    ResultEvidenceV6,
    DecisionV6Error,
>)
    ensures
        wire_update_records_spec(records@).len() > MAX_EVIDENCE_PAYLOAD_BYTES ==> r == Err::<
            ResultEvidenceV6,
            DecisionV6Error,
        >(DecisionV6Error::BoundExceeded),
        wire_update_records_spec(records@).len() <= MAX_EVIDENCE_PAYLOAD_BYTES ==> (r matches Ok(
            e,
        ) && e.code@ == order_updates_code() && e.payload@ == wire_update_records_spec(records@)),
{
    let payload = encode_update_records(records);
    if payload.len() > MAX_EVIDENCE_PAYLOAD_BYTES {
        return Err(DecisionV6Error::BoundExceeded);
    }
    proof {
        reveal_strlit("order_updates");
    }
    let code = String::from_str(ORDER_UPDATES_EVIDENCE_CODE);
    assert(code@ =~= order_updates_code());
    Ok(ResultEvidenceV6 { code, payload })
}

/// Encodes order update records as `order_updates` evidence entries, in order: each entry
/// holds as many further records as fit in the payload bound. `BoundExceeded` when a record
/// does not fit in an entry on its own.
#[verifier::rlimit(40)]
pub fn order_update_evidence(records: &[OrderUpdateRecordV6]) -> (r: Result<
    Vec<ResultEvidenceV6>,
    DecisionV6Error,
>)
    ensures
        some_chunk_too_large(update_chunks(records@)) ==> r == Err::<
            Vec<ResultEvidenceV6>,
            DecisionV6Error,
        >(DecisionV6Error::BoundExceeded),
        !some_chunk_too_large(update_chunks(records@)) ==> (r matches Ok(v) && v@.len()
            == update_chunks(records@).len() && forall|k: int|
            0 <= k < v@.len() ==> (#[trigger] v@[k]).code@ == order_updates_code()
                && v@[k].payload@ == wire_update_records_spec(update_chunks(records@)[k])),
{
    let mut evidence: Vec<ResultEvidenceV6> = Vec::new();
    let mut start: usize = 0;
    let mut chunk_bytes: usize = 0;
    let mut i: usize = 0;
    while i < records.len()
        invariant
            0 <= start <= i <= records@.len(),
            chunking_after(records@.take(i as int)).closed.len() == evidence@.len(),
            chunking_after(records@.take(i as int)).open == records@.subrange(start as int, i as int),
            chunking_after(records@.take(i as int)).open_bytes == chunk_bytes,
            forall|k: int|
                0 <= k < evidence@.len() ==> (#[trigger] evidence@[k]).code@
                    == order_updates_code() && evidence@[k].payload@ == wire_update_records_spec(
                    chunking_after(records@.take(i as int)).closed[k],
                ) && wire_update_records_spec(chunking_after(records@.take(i as int)).closed[k]).len()
                    <= MAX_EVIDENCE_PAYLOAD_BYTES,
        decreases records@.len() - i,
    {
        let bytes = encode_update_record(&records[i]).len();
        let ghost before = chunking_after(records@.take(i as int));
        proof {
            lemma_chunking_next(records@, i as int);
        }
        let too_large = match chunk_bytes.checked_add(bytes) {
            Some(sum) => sum > MAX_EVIDENCE_PAYLOAD_BYTES - 9,
            None => true,
        };
        let ghost old_evidence = evidence@;
        if start < i && too_large {
            let closed = order_update_chunk(&records[start..i]);
            match closed {
                Ok(e) => {
                    evidence.push(e);
                    proof {
                        let after = chunking_after(records@.take(i + 1));
                        assert(after.closed == before.closed.push(before.open));
                        assert forall|k: int| 0 <= k < evidence@.len() implies (
                        #[trigger] evidence@[k]).code@ == order_updates_code()
                            && evidence@[k].payload@ == wire_update_records_spec(after.closed[k])
                            && wire_update_records_spec(after.closed[k]).len()
                            <= MAX_EVIDENCE_PAYLOAD_BYTES by {
                            if k < old_evidence.len() {
                                assert(evidence@[k] == old_evidence[k]);
                                assert(after.closed[k] == before.closed[k]);
                            }
                        }
                    }
                },
                Err(e) => {
                    proof {
                        lemma_chunk_stays_closed(records@, (i + 1) as nat);
                        assert(chunking_after(records@.take(i + 1)).closed[evidence@.len() as int]
                            == before.open);
                    }
                    return Err(e);
                },
            }
            start = i;
            chunk_bytes = bytes;
        } else {
            chunk_bytes = chunk_bytes + bytes;
            proof {
                let after = chunking_after(records@.take(i + 1));
                assert(after.closed == before.closed);
                assert forall|k: int| 0 <= k < evidence@.len() implies (
                #[trigger] evidence@[k]).code@ == order_updates_code()
                    && evidence@[k].payload@ == wire_update_records_spec(after.closed[k])
                    && wire_update_records_spec(after.closed[k]).len()
                    <= MAX_EVIDENCE_PAYLOAD_BYTES by {
                    assert(after.closed[k] == before.closed[k]);
                }
            }
        }
        assert(records@.subrange(start as int, i + 1) =~= if start == i {
            seq![records@[i as int]]
        } else {
            records@.subrange(start as int, i as int).push(records@[i as int])
        });
        i += 1;
    }
    assert(records@.take(records@.len() as int) =~= records@);
    let ghost chunks = update_chunks(records@);
    if start < i {
        match order_update_chunk(&records[start..i]) {
            Ok(e) => evidence.push(e),
            Err(e) => {
                assert(chunks[evidence@.len() as int] == records@.subrange(start as int, i as int));
                return Err(e);
            },
        }
    }
    assert(!some_chunk_too_large(chunks)) by {
        assert forall|k: int| 0 <= k < chunks.len() implies wire_update_records_spec(
            #[trigger] chunks[k],
        ).len() <= MAX_EVIDENCE_PAYLOAD_BYTES by {
            assert(evidence@[k].payload@ == wire_update_records_spec(chunks[k]));
        }
    }
    Ok(evidence)
}

// ---------------------------------------------------------------------------------------------
// The result
// ---------------------------------------------------------------------------------------------

pub open spec fn order_type_v6_index(t: OrderTypeV6) -> nat {
    match t {
        OrderTypeV6::Market => 0,
        OrderTypeV6::Limit => 1,
    }
}

/// The fields of a place up to its quantity.
pub open spec fn wire_place_v6_head_spec(o: PlaceOrderV6) -> Seq<u8> {
    wire_str_spec(o.command_id@) + wire_str_spec(o.market_id@) + varint(action_index(o.action))
        + varint(side_index(o.side)) + varint(order_type_v6_index(o.order_type)) + varint(
        o.quantity_hundredths as nat,
    )
}

/// The fields of a place after its quantity.
pub open spec fn wire_place_v6_tail_spec(o: PlaceOrderV6) -> Seq<u8> {
    wire_opt_u64_spec(o.limit_price_micros) + wire_opt_u64_spec(o.market_price_cap_micros)
        + wire_opt_i64_spec(o.expires_after_ms) + wire_bool_spec(o.reduce_only) + wire_str_spec(
        o.provider_client_id@,
    ) + wire_opt_str_spec(opt_view(o.signal_type)) + wire_opt_str_spec(opt_view(o.signal_metadata))
        + wire_bytes_spec(o.metadata@)
}

pub open spec fn wire_place_v6_spec(o: PlaceOrderV6) -> Seq<u8> {
    wire_place_v6_head_spec(o) + wire_place_v6_tail_spec(o)
}

pub open spec fn wire_cancel_target_spec(t: CancelTargetV6) -> Seq<u8> {
    match t {
        CancelTargetV6::Order { order_id, expected_order_revision } => varint(0) + wire_str_spec(
            order_id@,
        ) + varint(expected_order_revision as nat),
        CancelTargetV6::SameDecision { provider_client_id } => varint(1) + wire_str_spec(
            provider_client_id@,
        ),
    }
}

pub open spec fn wire_command_v6_spec(c: StrategyCommandV6) -> Seq<u8> {
    match c {
        StrategyCommandV6::PlaceOrder(o) => varint(0) + wire_place_v6_spec(o),
        StrategyCommandV6::CancelOrder { command_id, target } => varint(1) + wire_str_spec(
            command_id@,
        ) + wire_cancel_target_spec(target),
        StrategyCommandV6::CancelAllOrders { command_id } => varint(2) + wire_str_spec(
            command_id@,
        ),
        StrategyCommandV6::ScheduleTimer {
            command_id,
            key,
            scheduled_at_epoch_ns,
            generation,
            semantics,
        } => varint(3) + wire_str_spec(command_id@) + wire_str_spec(key@) + varint(
            scheduled_at_epoch_ns as nat,
        ) + wire_str_spec(generation@) + wire_bytes_spec(semantics@),
        StrategyCommandV6::CancelTimer { command_id, key, generation } => varint(4)
            + wire_str_spec(command_id@) + wire_str_spec(key@) + wire_str_spec(generation@),
        StrategyCommandV6::Stop { command_id, reason } => varint(5) + wire_str_spec(command_id@)
            + wire_str_spec(reason@),
    }
}

pub open spec fn wire_checkpoint_v6_spec(c: KernelCheckpointV6) -> Seq<u8> {
    wire_str_spec(c.codec_profile@) + varint(c.codec_version as nat) + wire_str_spec(
        c.strategy_id@,
    ) + wire_str_spec(c.strategy_profile@) + wire_str_spec(c.profile_and_calculator_digest@)
        + varint(c.sequence as nat) + wire_bytes_spec(c.state@) + wire_runner_section_spec(c.runner)
        + c.state_sha256@
}

pub open spec fn wire_opt_checkpoint_v6_spec(c: Option<KernelCheckpointV6>) -> Seq<u8> {
    match c {
        Some(v) => seq![1u8] + wire_checkpoint_v6_spec(v),
        None => seq![0u8],
    }
}

pub open spec fn wire_disposition_v6_spec(d: DecisionDispositionV6) -> Seq<u8> {
    match d {
        DecisionDispositionV6::Completed => varint(0),
        DecisionDispositionV6::Rejected => varint(1),
    }
}

pub open spec fn wire_annotation_spec(v: AnnotationValueV6) -> Seq<u8> {
    match v {
        AnnotationValueV6::Text(s) => varint(0) + wire_str_spec(s@),
        AnnotationValueV6::Integer(i) => varint(1) + varint(zigzag(i as int)),
        AnnotationValueV6::FloatBits(b) => varint(2) + varint(b as nat),
        AnnotationValueV6::Bool(b) => varint(3) + wire_bool_spec(b),
        AnnotationValueV6::Null => varint(4),
    }
}

pub open spec fn field_encoder() -> spec_fn((String, String)) -> Seq<u8> {
    |f: (String, String)| wire_str_spec(f.0@) + wire_str_spec(f.1@)
}

pub open spec fn wire_telemetry_spec(e: TelemetryEntryV6) -> Seq<u8> {
    match e {
        TelemetryEntryV6::Counter { name, value_bits, fields } => varint(0) + wire_str_spec(name@)
            + varint(value_bits as nat) + wire_list(fields@, field_encoder()),
        TelemetryEntryV6::Gauge { name, value_bits, fields } => varint(1) + wire_str_spec(name@)
            + varint(value_bits as nat) + wire_list(fields@, field_encoder()),
        TelemetryEntryV6::Annotation { name, value, fields } => varint(2) + wire_str_spec(name@)
            + wire_annotation_spec(value) + wire_list(fields@, field_encoder()),
    }
}

pub open spec fn command_v6_encoder() -> spec_fn(StrategyCommandV6) -> Seq<u8> {
    |c: StrategyCommandV6| wire_command_v6_spec(c)
}

pub open spec fn string_encoder() -> spec_fn(String) -> Seq<u8> {
    |s: String| wire_str_spec(s@)
}

pub open spec fn evidence_v6_encoder() -> spec_fn(ResultEvidenceV6) -> Seq<u8> {
    |e: ResultEvidenceV6| wire_str_spec(e.code@) + wire_bytes_spec(e.payload@)
}

pub open spec fn diagnostic_v6_encoder() -> spec_fn(ResultDiagnosticV6) -> Seq<u8> {
    |d: ResultDiagnosticV6| wire_str_spec(d.severity@) + wire_str_spec(d.code@) + wire_str_spec(
        d.message@,
    )
}

pub open spec fn telemetry_encoder() -> spec_fn(TelemetryEntryV6) -> Seq<u8> {
    |e: TelemetryEntryV6| wire_telemetry_spec(e)
}

/// The payload of a V6 result, after its magic.
pub open spec fn wire_result_v6_spec(r: DecisionResultV6) -> Seq<u8> {
    wire_str_spec(r.delivery_id@) + wire_str_spec(r.sleeve_identity@) + wire_str_spec(
        r.state_fence@,
    ) + varint(r.expected_broker_revision as nat) + wire_disposition_v6_spec(r.disposition)
        + wire_opt_checkpoint_v6_spec(r.kernel_checkpoint) + wire_list(
        r.commands@,
        command_v6_encoder(),
    ) + wire_list(r.acknowledged_command_ids@, string_encoder()) + wire_list(
        r.evidence@,
        evidence_v6_encoder(),
    ) + wire_list(r.diagnostics@, diagnostic_v6_encoder()) + wire_list(
        r.telemetry@,
        telemetry_encoder(),
    )
}

fn put_place_v6_head(out: &mut Vec<u8>, o: &PlaceOrderV6)
    ensures
        final(out)@ == old(out)@ + wire_place_v6_head_spec(*o),
{
    let ghost start = out@;
    put(out, wire_str(&o.command_id));
    put(out, wire_str(&o.market_id));
    let action: u32 = match o.action {
        crate::decision_v6::OrderActionV6::Buy => 0,
        crate::decision_v6::OrderActionV6::Sell => 1,
    };
    let side: u32 = match o.side {
        crate::decision_v6::ContractSideV6::Yes => 0,
        crate::decision_v6::ContractSideV6::No => 1,
    };
    let order_type: u32 = match o.order_type {
        OrderTypeV6::Market => 0,
        OrderTypeV6::Limit => 1,
    };
    put(out, wire_u32(action));
    put(out, wire_u32(side));
    put(out, wire_u32(order_type));
    put(out, wire_u64(o.quantity_hundredths));
    assert(out@ =~= start + wire_place_v6_head_spec(*o));
}

fn put_place_v6_tail(out: &mut Vec<u8>, o: &PlaceOrderV6)
    ensures
        final(out)@ == old(out)@ + wire_place_v6_tail_spec(*o),
{
    let ghost start = out@;
    put_opt_u64(out, o.limit_price_micros);
    put_opt_u64(out, o.market_price_cap_micros);
    put_opt_i64(out, o.expires_after_ms);
    put(out, wire_bool(o.reduce_only));
    put(out, wire_str(&o.provider_client_id));
    put_opt_str(out, &o.signal_type);
    put_opt_str(out, &o.signal_metadata);
    put(out, wire_bytes(&o.metadata));
    assert(out@ =~= start + wire_place_v6_tail_spec(*o));
}

fn put_place_v6(out: &mut Vec<u8>, o: &PlaceOrderV6)
    ensures
        final(out)@ == old(out)@ + wire_place_v6_spec(*o),
{
    let ghost start = out@;
    put_place_v6_head(out, o);
    put_place_v6_tail(out, o);
    assert(out@ =~= start + wire_place_v6_spec(*o));
}

fn put_command_v6(out: &mut Vec<u8>, c: &StrategyCommandV6)
    ensures
        final(out)@ == old(out)@ + wire_command_v6_spec(*c),
{
    let ghost start = out@;
    match c {
        StrategyCommandV6::PlaceOrder(o) => {
            put(out, wire_u32(0));
            put_place_v6(out, o);
        },
        StrategyCommandV6::CancelOrder { command_id, target } => {
            put(out, wire_u32(1));
            put(out, wire_str(command_id));
            match target {
                CancelTargetV6::Order { order_id, expected_order_revision } => {
                    put(out, wire_u32(0));
                    put(out, wire_str(order_id));
                    put(out, wire_u64(*expected_order_revision));
                },
                CancelTargetV6::SameDecision { provider_client_id } => {
                    put(out, wire_u32(1));
                    put(out, wire_str(provider_client_id));
                },
            }
        },
        StrategyCommandV6::CancelAllOrders { command_id } => {
            put(out, wire_u32(2));
            put(out, wire_str(command_id));
        },
        StrategyCommandV6::ScheduleTimer {
            command_id,
            key,
            scheduled_at_epoch_ns,
            generation,
            semantics,
        } => {
            put(out, wire_u32(3));
            put(out, wire_str(command_id));
            put(out, wire_str(key));
            put(out, wire_u64(*scheduled_at_epoch_ns));
            put(out, wire_str(generation));
            put(out, wire_bytes(semantics));
        },
        StrategyCommandV6::CancelTimer { command_id, key, generation } => {
            put(out, wire_u32(4));
            put(out, wire_str(command_id));
            put(out, wire_str(key));
            put(out, wire_str(generation));
        },
        StrategyCommandV6::Stop { command_id, reason } => {
            put(out, wire_u32(5));
            put(out, wire_str(command_id));
            put(out, wire_str(reason));
        },
    }
    assert(out@ =~= start + wire_command_v6_spec(*c));
}

fn put_checkpoint_v6(out: &mut Vec<u8>, c: &KernelCheckpointV6)
    ensures
        final(out)@ == old(out)@ + wire_checkpoint_v6_spec(*c),
{
    let ghost start = out@;
    put(out, wire_str(&c.codec_profile));
    put(out, wire_u32(c.codec_version));
    put(out, wire_str(&c.strategy_id));
    put(out, wire_str(&c.strategy_profile));
    put(out, wire_str(&c.profile_and_calculator_digest));
    put(out, wire_u64(c.sequence));
    put(out, wire_bytes(&c.state));
    put(out, encode_runner_section(&c.runner));
    put(out, wire_array32(&c.state_sha256));
    assert(out@ =~= start + wire_checkpoint_v6_spec(*c));
}

fn put_annotation(out: &mut Vec<u8>, v: &AnnotationValueV6)
    ensures
        final(out)@ == old(out)@ + wire_annotation_spec(*v),
{
    let ghost start = out@;
    match v {
        AnnotationValueV6::Text(s) => {
            put(out, wire_u32(0));
            put(out, wire_str(s));
        },
        AnnotationValueV6::Integer(i) => {
            put(out, wire_u32(1));
            put(out, wire_i64(*i));
        },
        AnnotationValueV6::FloatBits(b) => {
            put(out, wire_u32(2));
            put(out, wire_u64(*b));
        },
        AnnotationValueV6::Bool(b) => {
            put(out, wire_u32(3));
            put(out, wire_bool(*b));
        },
        AnnotationValueV6::Null => {
            put(out, wire_u32(4));
        },
    }
    assert(out@ =~= start + wire_annotation_spec(*v));
}

fn put_fields(out: &mut Vec<u8>, s: &Vec<(String, String)>)
    ensures
        final(out)@ == old(out)@ + wire_list(s@, field_encoder()),
{
    let ghost start = out@;
    put(out, wire_u64(s.len() as u64));
    let mut i: usize = 0;
    while i < s.len()
        invariant
            0 <= i <= s@.len(),
            out@ == start + varint(s@.len()) + wire_items(s@.take(i as int), field_encoder()),
        decreases s@.len() - i,
    {
        let ghost before = out@;
        put(out, wire_str(&s[i].0));
        put(out, wire_str(&s[i].1));
        assert(out@ =~= before + field_encoder()(s@[i as int]));
        assert(s@.take(i + 1).drop_last() =~= s@.take(i as int));
        i += 1;
    }
    assert(s@.take(s@.len() as int) =~= s@);
}

fn put_telemetry_entry(out: &mut Vec<u8>, e: &TelemetryEntryV6)
    ensures
        final(out)@ == old(out)@ + wire_telemetry_spec(*e),
{
    let ghost start = out@;
    match e {
        TelemetryEntryV6::Counter { name, value_bits, fields } => {
            put(out, wire_u32(0));
            put(out, wire_str(name));
            put(out, wire_u64(*value_bits));
            put_fields(out, fields);
        },
        TelemetryEntryV6::Gauge { name, value_bits, fields } => {
            put(out, wire_u32(1));
            put(out, wire_str(name));
            put(out, wire_u64(*value_bits));
            put_fields(out, fields);
        },
        TelemetryEntryV6::Annotation { name, value, fields } => {
            put(out, wire_u32(2));
            put(out, wire_str(name));
            put_annotation(out, value);
            put_fields(out, fields);
        },
    }
    assert(out@ =~= start + wire_telemetry_spec(*e));
}

fn put_commands_v6(out: &mut Vec<u8>, s: &Vec<StrategyCommandV6>)
    ensures
        final(out)@ == old(out)@ + wire_list(s@, command_v6_encoder()),
{
    let ghost start = out@;
    put(out, wire_u64(s.len() as u64));
    let mut i: usize = 0;
    while i < s.len()
        invariant
            0 <= i <= s@.len(),
            out@ == start + varint(s@.len()) + wire_items(s@.take(i as int), command_v6_encoder()),
        decreases s@.len() - i,
    {
        put_command_v6(out, &s[i]);
        assert(s@.take(i + 1).drop_last() =~= s@.take(i as int));
        i += 1;
    }
    assert(s@.take(s@.len() as int) =~= s@);
}

fn put_strings(out: &mut Vec<u8>, s: &Vec<String>)
    ensures
        final(out)@ == old(out)@ + wire_list(s@, string_encoder()),
{
    let ghost start = out@;
    put(out, wire_u64(s.len() as u64));
    let mut i: usize = 0;
    while i < s.len()
        invariant
            0 <= i <= s@.len(),
            out@ == start + varint(s@.len()) + wire_items(s@.take(i as int), string_encoder()),
        decreases s@.len() - i,
    {
        put(out, wire_str(&s[i]));
        assert(s@.take(i + 1).drop_last() =~= s@.take(i as int));
        i += 1;
    }
    assert(s@.take(s@.len() as int) =~= s@);
}

fn put_evidence_v6(out: &mut Vec<u8>, s: &Vec<ResultEvidenceV6>)
    ensures
        final(out)@ == old(out)@ + wire_list(s@, evidence_v6_encoder()),
{
    let ghost start = out@;
    put(out, wire_u64(s.len() as u64));
    let mut i: usize = 0;
    while i < s.len()
        invariant
            0 <= i <= s@.len(),
            out@ == start + varint(s@.len()) + wire_items(s@.take(i as int), evidence_v6_encoder()),
        decreases s@.len() - i,
    {
        let ghost before = out@;
        put(out, wire_str(&s[i].code));
        put(out, wire_bytes(&s[i].payload));
        assert(out@ =~= before + evidence_v6_encoder()(s@[i as int]));
        assert(s@.take(i + 1).drop_last() =~= s@.take(i as int));
        i += 1;
    }
    assert(s@.take(s@.len() as int) =~= s@);
}

fn put_diagnostics_v6(out: &mut Vec<u8>, s: &Vec<ResultDiagnosticV6>)
    ensures
        final(out)@ == old(out)@ + wire_list(s@, diagnostic_v6_encoder()),
{
    let ghost start = out@;
    put(out, wire_u64(s.len() as u64));
    let mut i: usize = 0;
    while i < s.len()
        invariant
            0 <= i <= s@.len(),
            out@ == start + varint(s@.len()) + wire_items(s@.take(i as int), diagnostic_v6_encoder()),
        decreases s@.len() - i,
    {
        let ghost before = out@;
        put(out, wire_str(&s[i].severity));
        put(out, wire_str(&s[i].code));
        put(out, wire_str(&s[i].message));
        assert(out@ =~= before + diagnostic_v6_encoder()(s@[i as int]));
        assert(s@.take(i + 1).drop_last() =~= s@.take(i as int));
        i += 1;
    }
    assert(s@.take(s@.len() as int) =~= s@);
}

fn put_telemetry(out: &mut Vec<u8>, s: &Vec<TelemetryEntryV6>)
    ensures
        final(out)@ == old(out)@ + wire_list(s@, telemetry_encoder()),
{
    let ghost start = out@;
    put(out, wire_u64(s.len() as u64));
    let mut i: usize = 0;
    while i < s.len()
        invariant
            0 <= i <= s@.len(),
            out@ == start + varint(s@.len()) + wire_items(s@.take(i as int), telemetry_encoder()),
        decreases s@.len() - i,
    {
        put_telemetry_entry(out, &s[i]);
        assert(s@.take(i + 1).drop_last() =~= s@.take(i as int));
        i += 1;
    }
    assert(s@.take(s@.len() as int) =~= s@);
}

fn encode_result_payload_v6(result: &DecisionResultV6) -> (r: Vec<u8>)
    ensures
        r@ == wire_result_v6_spec(*result),
{
    let mut out: Vec<u8> = Vec::new();
    put(&mut out, wire_str(&result.delivery_id));
    put(&mut out, wire_str(&result.sleeve_identity));
    put(&mut out, wire_str(&result.state_fence));
    put(&mut out, wire_u64(result.expected_broker_revision));
    match result.disposition {
        DecisionDispositionV6::Completed => put(&mut out, wire_u32(0)),
        DecisionDispositionV6::Rejected => put(&mut out, wire_u32(1)),
    }
    let ghost before_checkpoint = out@;
    match &result.kernel_checkpoint {
        Some(c) => {
            put(&mut out, wire_u8(1));
            put_checkpoint_v6(&mut out, c);
        },
        None => put(&mut out, wire_u8(0)),
    }
    assert(out@ =~= before_checkpoint + wire_opt_checkpoint_v6_spec(result.kernel_checkpoint));
    put_commands_v6(&mut out, &result.commands);
    put_strings(&mut out, &result.acknowledged_command_ids);
    put_evidence_v6(&mut out, &result.evidence);
    put_diagnostics_v6(&mut out, &result.diagnostics);
    put_telemetry(&mut out, &result.telemetry);
    assert(out@ =~= wire_result_v6_spec(*result));
    out
}

/// Encodes a valid result under the V6 magic, within the result bound. Fails with the
/// result's error when it is not valid, and with `BoundExceeded` when the bytes would exceed
/// `MAX_DECISION_RESULT_V6_BYTES`.
///
/// Not checked here: that the bytes also decode under bincode's allocation limit of
/// `MAX_DECISION_RESULT_V6_BYTES`. That limit charges each container its length times the
/// in-memory size of its item type, which depends on how the compiler lays the types out, so
/// a result whose bytes fit can still be refused by a limited decoder (`BoundExceeded` in the
/// full encoder). Callers that need that check decode the bytes again with bincode's limit.
pub fn encode_decision_result_v6(result: &DecisionResultV6) -> (r: Result<Vec<u8>, DecisionV6Error>)
    ensures
        match result_verdict(*result) {
            Err(e) => r == Err::<Vec<u8>, DecisionV6Error>(e),
            Ok(_) => if 8 + wire_result_v6_spec(*result).len() > MAX_DECISION_RESULT_V6_BYTES {
                r == Err::<Vec<u8>, DecisionV6Error>(DecisionV6Error::BoundExceeded)
            } else {
                r matches Ok(b) && b@ == DECISION_RESULT_V6_MAGIC@ + wire_result_v6_spec(*result)
            },
        },
{
    match result.validate() {
        Err(e) => {
            return Err(e);
        },
        Ok(()) => {},
    }
    let payload = encode_result_payload_v6(result);
    if payload.len() > MAX_DECISION_RESULT_V6_BYTES - 8 {
        return Err(DecisionV6Error::BoundExceeded);
    }
    let mut bytes: Vec<u8> = Vec::new();
    extend(&mut bytes, &DECISION_RESULT_V6_MAGIC);
    extend(&mut bytes, payload.as_slice());
    Ok(bytes)
}

/// The SHA-256 of a valid result's encoding; the encoding's error otherwise. Like
/// [`encode_decision_result_v6`], it does not apply bincode's allocation-limit accounting.
pub fn decision_result_v6_sha256(result: &DecisionResultV6) -> (r: Result<[u8; 32], DecisionV6Error>)
    ensures
        match result_verdict(*result) {
            Err(e) => r == Err::<[u8; 32], DecisionV6Error>(e),
            Ok(_) => if 8 + wire_result_v6_spec(*result).len() > MAX_DECISION_RESULT_V6_BYTES {
                r == Err::<[u8; 32], DecisionV6Error>(DecisionV6Error::BoundExceeded)
            } else {
                r matches Ok(d) && d@ == sha256(
                    DECISION_RESULT_V6_MAGIC@ + wire_result_v6_spec(*result),
                )
            },
        },
{
    match encode_decision_result_v6(result) {
        Ok(bytes) => Ok(sha256_digest(bytes.as_slice())),
        Err(e) => Err(e),
    }
}

} // verus!
