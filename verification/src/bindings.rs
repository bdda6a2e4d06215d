//! What the contracts' digests and checks bind: an accepted result carries the fence of its
//! context, a valid context's commitment is the cash its Broker state holds, and the messages
//! the fence and checkpoint digests are taken over determine the fields they protect.
use crate::answer_v6::decision_result_v6_verdict;
use crate::codec_v4::{fx_fence, fx_fence_part0, fx_fence_part1, fx_list, fx_resource_revision,
    fx_resource_revision_encoder};
use crate::codec_v5::{holds_at, wire_items};
use crate::context_v6::context_v6_verdict;
use crate::decision_v4::{fixed_fence_spec, fixed_resource_spec, fixed_resources_spec, FenceV4,
    ResourceRevisionV4};
use crate::decision_v6::{BrokerOrderV6, BrokerPositionV6, DecisionContextV6, DecisionResultV6};
use crate::digest::sha256;
use crate::fence_v6::{fenced_checkpoint_spec, mode_index, state_fence_message, wire_capabilities_spec,
    wire_opt_strikes_spec, wire_parameters_spec, STATE_FENCE_DOMAIN};
use crate::read_v4::lemma_v4_fence_at;
use crate::result_read_v6::lemma_runner_at;
use crate::text::spec_hex;
use crate::context_v6::{position_commitment_sum, reserved_cash_sum};
use crate::checkpoint_v6::{checkpoint_v6_message, wire_runner_section_spec, CHECKPOINT_DIGEST_DOMAIN};
use crate::decision_v6::KernelCheckpointV6;
use crate::digest::{be_u32, be_u64, framed};
use crate::text::utf8;
use crate::wire_read::{lemma_be_value_u32, lemma_be_value_u64};
use vstd::prelude::*;
use vstd::utf8::*;
use crate::checkpoint_v6::kind_index;
use crate::decision_v6::{CommandOutcomeV6, CommandReceiptV6};
use crate::fence_v6::{wire_outcome_spec, wire_receipt_spec, wire_receipts_items_spec, wire_receipts_spec};
use crate::wire::{varint, wire_str_spec};
use crate::wire_read::{lemma_str_read, lemma_varint_u64_read, str_read, varint_u64_read};

verus! {

/// A result that validation accepts carries, as its `state_fence`, the lowercase hex of the
/// SHA-256 of its context's fence message: the digest `decision_fence_v6_sha256` returns for
/// that context.
pub proof fn accepted_result_carries_context_fence(context: DecisionContextV6, result: DecisionResultV6)
    requires
        decision_result_v6_verdict(context, result) is Ok,
    ensures
        context_v6_verdict(context) is Ok,
        result.state_fence@ == spec_hex(sha256(state_fence_message(context))),
{
}

/// The cash a Broker position commits: its cost basis and its fees.
pub open spec fn position_cash(p: BrokerPositionV6) -> int {
    p.cost_basis_micros + p.fees_micros
}

/// The cash a Broker order holds back: its reserved principal and its reserved fees.
pub open spec fn order_cash(o: BrokerOrderV6) -> int {
    o.reserved_principal_micros + o.reserved_fee_micros
}

/// The sum of a sequence of integers.
pub open spec fn total(s: Seq<int>) -> int {
    s.fold_left(0int, |acc: int, x: int| acc + x)
}

proof fn lemma_position_sum(s: Seq<BrokerPositionV6>)
    ensures
        position_commitment_sum(s) == total(s.map_values(|p: BrokerPositionV6| position_cash(p))),
    decreases s.len(),
{
    let f = |p: BrokerPositionV6| position_cash(p);
    if s.len() > 0 {
        lemma_position_sum(s.drop_last());
        assert(s.map_values(f).drop_last() =~= s.drop_last().map_values(f));
    } else {
        assert(s.map_values(f) =~= Seq::<int>::empty());
    }
}

proof fn lemma_order_sum(s: Seq<BrokerOrderV6>)
    ensures
        reserved_cash_sum(s) == total(s.map_values(|o: BrokerOrderV6| order_cash(o))),
    decreases s.len(),
{
    let f = |o: BrokerOrderV6| order_cash(o);
    if s.len() > 0 {
        lemma_order_sum(s.drop_last());
        assert(s.map_values(f).drop_last() =~= s.drop_last().map_values(f));
    } else {
        assert(s.map_values(f) =~= Seq::<int>::empty());
    }
}

/// A context that validates commits, by the owner's account, exactly the cash its Broker state
/// holds: the cost basis and fees of every position plus the reserved principal and fees of
/// every order. The reserved part is also the Broker's `reserved_cash_micros`.
pub proof fn valid_context_commitment_is_broker_cash(context: DecisionContextV6)
    requires
        context_v6_verdict(context) is Ok,
    ensures
        context.owner_state.broker.current_commitment == total(
            context.broker.positions@.map_values(|p: BrokerPositionV6| position_cash(p)),
        ) + total(context.broker.orders@.map_values(|o: BrokerOrderV6| order_cash(o))),
        context.broker.reserved_cash_micros == total(
            context.broker.orders@.map_values(|o: BrokerOrderV6| order_cash(o)),
        ),
{
    lemma_position_sum(context.broker.positions@);
    lemma_order_sum(context.broker.orders@);
}

proof fn lemma_resources_wire(v: Seq<ResourceRevisionV4>)
    ensures
        fixed_resources_spec(v) == wire_items(v, fx_resource_revision_encoder()),
    decreases v.len(),
{
    if v.len() > 0 {
        lemma_resources_wire(v.drop_last());
        reveal(fx_resource_revision);
        assert(fixed_resource_spec(v.last()) == fx_resource_revision(v.last()));
    }
}

/// The V4 fence encoding the fence digest is taken over is the context codec's encoding of the
/// fence.
proof fn lemma_fence_encoding(f: FenceV4)
    ensures
        fixed_fence_spec(f) == fx_fence(f),
{
    reveal(fx_fence);
    reveal(fx_fence_part0);
    reveal(fx_fence_part1);
    lemma_resources_wire(f.station_resources@);
    lemma_resources_wire(f.market_revisions@);
    reveal(fx_list);
    assert(fixed_fence_spec(f) =~= fx_fence_part0(f) + fx_fence_part1(f));
}

/// The V4 fence encoding determines the fence: two fences with the same encoding agree in every
/// field (broker revision, source and catalog revisions, route plan, resource revisions and
/// the rest), so the V4 fence digest is taken over all of them.
pub proof fn fence_v4_encoding_determines_fence(a: FenceV4, b: FenceV4)
    requires
        fixed_fence_spec(a) == fixed_fence_spec(b),
        fixed_fence_spec(a).len() <= u64::MAX,
    ensures
        a@ == b@,
        a.broker_revision == b.broker_revision,
{
    lemma_fence_encoding(a);
    lemma_fence_encoding(b);
    let w = fx_fence(a);
    assert(w.subrange(0, w.len() as int) =~= w);
    assert(holds_at(w, 0, fx_fence(a)));
    assert(holds_at(w, 0, fx_fence(b)));
    lemma_v4_fence_at(w, 0, a);
    lemma_v4_fence_at(w, 0, b);
}

// ---------------------------------------------------------------------------------------------
// Reading a message back part by part
// ---------------------------------------------------------------------------------------------

proof fn lemma_fixed_split(x: Seq<u8>, y: Seq<u8>, r1: Seq<u8>, r2: Seq<u8>)
    requires
        x.len() == y.len(),
        x + r1 == y + r2,
    ensures
        x == y,
        r1 == r2,
{
    let m = x + r1;
    assert(x =~= m.subrange(0, x.len() as int));
    assert(y =~= (y + r2).subrange(0, y.len() as int));
    assert(r1 =~= m.subrange(x.len() as int, m.len() as int));
    assert(r2 =~= (y + r2).subrange(y.len() as int, m.len() as int));
}

proof fn lemma_be_u64_split(a: u64, b: u64, r1: Seq<u8>, r2: Seq<u8>)
    requires
        be_u64(a) + r1 == be_u64(b) + r2,
    ensures
        a == b,
        r1 == r2,
{
    lemma_fixed_split(be_u64(a), be_u64(b), r1, r2);
    lemma_be_value_u64(a);
    lemma_be_value_u64(b);
}

proof fn lemma_be_u32_split(a: u32, b: u32, r1: Seq<u8>, r2: Seq<u8>)
    requires
        be_u32(a) + r1 == be_u32(b) + r2,
    ensures
        a == b,
        r1 == r2,
{
    lemma_fixed_split(be_u32(a), be_u32(b), r1, r2);
    lemma_be_value_u32(a);
    lemma_be_value_u32(b);
}

proof fn lemma_framed_split(x: Seq<u8>, y: Seq<u8>, r1: Seq<u8>, r2: Seq<u8>)
    requires
        framed(x) + r1 == framed(y) + r2,
        x.len() <= u64::MAX,
        y.len() <= u64::MAX,
    ensures
        x == y,
        r1 == r2,
{
    assert(framed(x) + r1 =~= be_u64(x.len() as u64) + (x + r1));
    assert(framed(y) + r2 =~= be_u64(y.len() as u64) + (y + r2));
    lemma_be_u64_split(x.len() as u64, y.len() as u64, x + r1, y + r2);
    lemma_fixed_split(x, y, r1, r2);
}

proof fn lemma_framed_text_split(s: Seq<char>, t: Seq<char>, r1: Seq<u8>, r2: Seq<u8>)
    requires
        framed(utf8(s)) + r1 == framed(utf8(t)) + r2,
        utf8(s).len() <= u64::MAX,
        utf8(t).len() <= u64::MAX,
    ensures
        s == t,
        r1 == r2,
{
    lemma_framed_split(utf8(s), utf8(t), r1, r2);
    encode_utf8_decode_utf8(s);
    encode_utf8_decode_utf8(t);
}

// ---------------------------------------------------------------------------------------------
// The checkpoint digest message
// ---------------------------------------------------------------------------------------------

spec fn checkpoint_message_tail(c: KernelCheckpointV6) -> Seq<u8> {
    framed(utf8(c.codec_profile@)) + (be_u32(c.codec_version) + (framed(utf8(c.strategy_id@)) + (
    framed(utf8(c.strategy_profile@)) + (framed(utf8(c.profile_and_calculator_digest@)) + (be_u64(
        c.sequence,
    ) + (framed(c.state@) + framed(wire_runner_section_spec(c.runner))))))))
}

proof fn lemma_checkpoint_message_tail(c: KernelCheckpointV6)
    ensures
        checkpoint_v6_message(c) == CHECKPOINT_DIGEST_DOMAIN@ + checkpoint_message_tail(c),
{
    assert(checkpoint_v6_message(c) =~= CHECKPOINT_DIGEST_DOMAIN@ + checkpoint_message_tail(c));
}

/// The message the checkpoint digest is taken over determines every field the digest protects:
/// two checkpoints with the same message agree in codec profile and version, Strategy,
/// profile, profile digest, sequence, kernel state and runner section. So the sequence is bound:
/// a renumbered checkpoint has another message.
#[verifier::spinoff_prover]
#[verifier::rlimit(40)]
pub proof fn checkpoint_message_determines_fields(a: KernelCheckpointV6, b: KernelCheckpointV6)
    requires
        checkpoint_v6_message(a) == checkpoint_v6_message(b),
        checkpoint_v6_message(a).len() <= u64::MAX,
    ensures
        a.codec_profile@ == b.codec_profile@,
        a.codec_version == b.codec_version,
        a.strategy_id@ == b.strategy_id@,
        a.strategy_profile@ == b.strategy_profile@,
        a.profile_and_calculator_digest@ == b.profile_and_calculator_digest@,
        a.sequence == b.sequence,
        a.state@ == b.state@,
        wire_runner_section_spec(a.runner) == wire_runner_section_spec(b.runner),
        a.runner@ == b.runner@,
{
    lemma_checkpoint_message_tail(a);
    lemma_checkpoint_message_tail(b);
    let d = CHECKPOINT_DIGEST_DOMAIN@;
    lemma_fixed_split(d, d, checkpoint_message_tail(a), checkpoint_message_tail(b));
    let a1 = be_u32(a.codec_version) + (framed(utf8(a.strategy_id@)) + (framed(utf8(a.strategy_profile@)) + (framed(utf8(a.profile_and_calculator_digest@)) + (be_u64(a.sequence) + (framed(a.state@) + framed(wire_runner_section_spec(a.runner)))))));
    let b1 = be_u32(b.codec_version) + (framed(utf8(b.strategy_id@)) + (framed(utf8(b.strategy_profile@)) + (framed(utf8(b.profile_and_calculator_digest@)) + (be_u64(b.sequence) + (framed(b.state@) + framed(wire_runner_section_spec(b.runner)))))));
    lemma_framed_text_split(a.codec_profile@, b.codec_profile@, a1, b1);
    let a2 = framed(utf8(a.strategy_id@)) + (framed(utf8(a.strategy_profile@)) + (framed(utf8(a.profile_and_calculator_digest@)) + (be_u64(a.sequence) + (framed(a.state@) + framed(wire_runner_section_spec(a.runner))))));
    let b2 = framed(utf8(b.strategy_id@)) + (framed(utf8(b.strategy_profile@)) + (framed(utf8(b.profile_and_calculator_digest@)) + (be_u64(b.sequence) + (framed(b.state@) + framed(wire_runner_section_spec(b.runner))))));
    lemma_be_u32_split(a.codec_version, b.codec_version, a2, b2);
    let a3 = framed(utf8(a.strategy_profile@)) + (framed(utf8(a.profile_and_calculator_digest@)) + (be_u64(a.sequence) + (framed(a.state@) + framed(wire_runner_section_spec(a.runner)))));
    let b3 = framed(utf8(b.strategy_profile@)) + (framed(utf8(b.profile_and_calculator_digest@)) + (be_u64(b.sequence) + (framed(b.state@) + framed(wire_runner_section_spec(b.runner)))));
    lemma_framed_text_split(a.strategy_id@, b.strategy_id@, a3, b3);
    let a4 = framed(utf8(a.profile_and_calculator_digest@)) + (be_u64(a.sequence) + (framed(a.state@) + framed(wire_runner_section_spec(a.runner))));
    let b4 = framed(utf8(b.profile_and_calculator_digest@)) + (be_u64(b.sequence) + (framed(b.state@) + framed(wire_runner_section_spec(b.runner))));
    lemma_framed_text_split(a.strategy_profile@, b.strategy_profile@, a4, b4);
    let a5 = be_u64(a.sequence) + (framed(a.state@) + framed(wire_runner_section_spec(a.runner)));
    let b5 = be_u64(b.sequence) + (framed(b.state@) + framed(wire_runner_section_spec(b.runner)));
    lemma_framed_text_split(a.profile_and_calculator_digest@, b.profile_and_calculator_digest@, a5, b5);
    let a6 = framed(a.state@) + framed(wire_runner_section_spec(a.runner));
    let b6 = framed(b.state@) + framed(wire_runner_section_spec(b.runner));
    lemma_be_u64_split(a.sequence, b.sequence, a6, b6);
    lemma_framed_split(a.state@, b.state@, framed(wire_runner_section_spec(a.runner)), framed(wire_runner_section_spec(b.runner)));
    assert(framed(wire_runner_section_spec(a.runner)) =~= framed(wire_runner_section_spec(a.runner)) + Seq::<u8>::empty());
    assert(framed(wire_runner_section_spec(b.runner)) =~= framed(wire_runner_section_spec(b.runner)) + Seq::<u8>::empty());
    lemma_framed_split(wire_runner_section_spec(a.runner), wire_runner_section_spec(b.runner), Seq::<u8>::empty(), Seq::<u8>::empty());
    let w = wire_runner_section_spec(a.runner);
    assert(w.subrange(0, w.len() as int) =~= w);
    lemma_runner_at(w, 0, a.runner);
    lemma_runner_at(w, 0, b.runner);
}

/// Renumbering a checkpoint changes the message its digest is taken over, whatever else it
/// holds: the digest binds the sequence.
pub proof fn checkpoint_message_binds_sequence(c: KernelCheckpointV6, sequence: u64)
    requires
        sequence != c.sequence,
    ensures
        checkpoint_v6_message(c) != checkpoint_v6_message(KernelCheckpointV6 { sequence, ..c }),
{
    let d = KernelCheckpointV6 { sequence, ..c };
    let head = CHECKPOINT_DIGEST_DOMAIN@ + framed(utf8(c.codec_profile@)) + be_u32(c.codec_version)
        + framed(utf8(c.strategy_id@)) + framed(utf8(c.strategy_profile@)) + framed(
        utf8(c.profile_and_calculator_digest@),
    );
    let tail = framed(c.state@) + framed(wire_runner_section_spec(c.runner));
    assert(checkpoint_v6_message(c) =~= head + (be_u64(c.sequence) + tail));
    assert(checkpoint_v6_message(d) =~= head + (be_u64(sequence) + tail));
    if checkpoint_v6_message(c) == checkpoint_v6_message(d) {
        lemma_fixed_split(head, head, be_u64(c.sequence) + tail, be_u64(sequence) + tail);
        lemma_be_u64_split(c.sequence, sequence, tail, tail);
    }
}

// ---------------------------------------------------------------------------------------------
// Command receipts on the wire
// ---------------------------------------------------------------------------------------------

/// Two receipts name the same command, kind and outcome.
pub open spec fn receipt_agrees(x: CommandReceiptV6, y: CommandReceiptV6) -> bool {
    &&& x.command_id@ == y.command_id@
    &&& x.kind == y.kind
    &&& outcome_agrees(x.outcome, y.outcome)
}

/// Two receipt lists hold the same receipts in the same order.
pub open spec fn receipts_agree(s: Seq<CommandReceiptV6>, t: Seq<CommandReceiptV6>) -> bool {
    &&& s.len() == t.len()
    &&& forall|i: int| 0 <= i < s.len() ==> #[trigger] receipt_agrees(s[i], t[i])
}

proof fn lemma_str_split(s: Seq<char>, t: Seq<char>, r1: Seq<u8>, r2: Seq<u8>)
    requires
        wire_str_spec(s) + r1 == wire_str_spec(t) + r2,
        wire_str_spec(s).len() <= u64::MAX,
        wire_str_spec(t).len() <= u64::MAX,
    ensures
        s == t,
        r1 == r2,
{
    lemma_str_read(s, r1);
    lemma_str_read(t, r2);
    lemma_fixed_split(wire_str_spec(s), wire_str_spec(t), r1, r2);
}

proof fn lemma_varint_split(a: nat, b: nat, r1: Seq<u8>, r2: Seq<u8>)
    requires
        varint(a) + r1 == varint(b) + r2,
        a <= u64::MAX,
        b <= u64::MAX,
    ensures
        a == b,
        r1 == r2,
{
    lemma_varint_u64_read(a as u64, r1);
    lemma_varint_u64_read(b as u64, r2);
    lemma_fixed_split(varint(a), varint(b), r1, r2);
}

pub open spec fn outcome_agrees(x: CommandOutcomeV6, y: CommandOutcomeV6) -> bool {
    match (x, y) {
        (CommandOutcomeV6::Accepted, CommandOutcomeV6::Accepted) => true,
        (
            CommandOutcomeV6::Refused { code: c1, reason: r1 },
            CommandOutcomeV6::Refused { code: c2, reason: r2 },
        ) => c1@ == c2@ && r1@ == r2@,
        _ => false,
    }
}

#[verifier::spinoff_prover]
proof fn lemma_outcome_split(x: CommandOutcomeV6, y: CommandOutcomeV6, r1: Seq<u8>, r2: Seq<u8>)
    requires
        wire_outcome_spec(x) + r1 == wire_outcome_spec(y) + r2,
        wire_outcome_spec(x).len() <= u64::MAX,
        wire_outcome_spec(y).len() <= u64::MAX,
    ensures
        outcome_agrees(x, y),
        r1 == r2,
{
    match x {
        CommandOutcomeV6::Accepted => {
            match y {
                CommandOutcomeV6::Accepted => {
                    lemma_varint_split(0, 0, r1, r2);
                },
                CommandOutcomeV6::Refused { code, reason } => {
                    let t = wire_str_spec(code@) + (wire_str_spec(reason@) + r2);
                    assert(wire_outcome_spec(y) + r2 =~= varint(1) + t);
                    lemma_varint_split(0, 1, r1, t);
                },
            }
        },
        CommandOutcomeV6::Refused { code: c1, reason: e1 } => {
            let t1 = wire_str_spec(c1@) + (wire_str_spec(e1@) + r1);
            assert(wire_outcome_spec(x) + r1 =~= varint(1) + t1);
            match y {
                CommandOutcomeV6::Accepted => {
                    lemma_varint_split(1, 0, t1, r2);
                },
                CommandOutcomeV6::Refused { code: c2, reason: e2 } => {
                    let t2 = wire_str_spec(c2@) + (wire_str_spec(e2@) + r2);
                    assert(wire_outcome_spec(y) + r2 =~= varint(1) + t2);
                    lemma_varint_split(1, 1, t1, t2);
                    lemma_str_split(c1@, c2@, wire_str_spec(e1@) + r1, wire_str_spec(e2@) + r2);
                    lemma_str_split(e1@, e2@, r1, r2);
                },
            }
        },
    }
}

#[verifier::spinoff_prover]
proof fn lemma_receipt_split(x: CommandReceiptV6, y: CommandReceiptV6, r1: Seq<u8>, r2: Seq<u8>)
    requires
        wire_receipt_spec(x) + r1 == wire_receipt_spec(y) + r2,
        wire_receipt_spec(x).len() <= u64::MAX,
        wire_receipt_spec(y).len() <= u64::MAX,
    ensures
        receipt_agrees(x, y),
        r1 == r2,
{
    let ox = wire_outcome_spec(x.outcome);
    let oy = wire_outcome_spec(y.outcome);
    let kx = varint(kind_index(x.kind));
    let ky = varint(kind_index(y.kind));
    assert(wire_receipt_spec(x) + r1 =~= wire_str_spec(x.command_id@) + (kx + (ox + r1)));
    assert(wire_receipt_spec(y) + r2 =~= wire_str_spec(y.command_id@) + (ky + (oy + r2)));
    lemma_str_split(x.command_id@, y.command_id@, kx + (ox + r1), ky + (oy + r2));
    lemma_varint_split(kind_index(x.kind), kind_index(y.kind), ox + r1, oy + r2);
    lemma_outcome_split(x.outcome, y.outcome, r1, r2);
}

proof fn lemma_receipts_front(s: Seq<CommandReceiptV6>)
    requires
        s.len() > 0,
    ensures
        wire_receipts_items_spec(s) == wire_receipt_spec(s[0]) + wire_receipts_items_spec(
            s.drop_first(),
        ),
    decreases s.len(),
{
    if s.len() == 1 {
        assert(s.drop_last().len() == 0);
        assert(s.drop_first().len() == 0);
        assert(wire_receipts_items_spec(s.drop_last()) =~= Seq::<u8>::empty());
        assert(wire_receipts_items_spec(s.drop_first()) =~= Seq::<u8>::empty());
        assert(wire_receipts_items_spec(s) =~= wire_receipt_spec(s[0]));
        assert(wire_receipt_spec(s[0]) + wire_receipts_items_spec(s.drop_first()) =~= wire_receipt_spec(s[0]));
    } else {
        lemma_receipts_front(s.drop_last());
        assert(s.drop_last().drop_first() =~= s.drop_first().drop_last());
        assert(s.drop_first().last() == s.last());
        assert(wire_receipts_items_spec(s) =~= wire_receipt_spec(s[0]) + wire_receipts_items_spec(
            s.drop_first(),
        ));
    }
}

proof fn lemma_receipts_len(s: Seq<CommandReceiptV6>)
    ensures
        wire_receipts_items_spec(s).len() >= s.len(),
    decreases s.len(),
{
    if s.len() > 0 {
        lemma_receipts_len(s.drop_last());
        assert(wire_str_spec(s.last().command_id@).len() >= 1);
    }
}

#[verifier::spinoff_prover]
#[verifier::rlimit(40)]
proof fn lemma_receipts_items_split(
    s: Seq<CommandReceiptV6>,
    t: Seq<CommandReceiptV6>,
    r1: Seq<u8>,
    r2: Seq<u8>,
)
    requires
        s.len() == t.len(),
        wire_receipts_items_spec(s) + r1 == wire_receipts_items_spec(t) + r2,
        wire_receipts_items_spec(s).len() <= u64::MAX,
        wire_receipts_items_spec(t).len() <= u64::MAX,
    ensures
        receipts_agree(s, t),
        r1 == r2,
    decreases s.len(),
{
    if s.len() == 0 {
        assert(wire_receipts_items_spec(s) =~= Seq::<u8>::empty());
        assert(wire_receipts_items_spec(t) =~= Seq::<u8>::empty());
        assert(r1 =~= Seq::<u8>::empty() + r1);
        assert(r2 =~= Seq::<u8>::empty() + r2);
    } else {
        lemma_receipts_front(s);
        lemma_receipts_front(t);
        let ws = wire_receipts_items_spec(s.drop_first());
        let wt = wire_receipts_items_spec(t.drop_first());
        assert(wire_receipts_items_spec(s) + r1 =~= wire_receipt_spec(s[0]) + (ws + r1));
        assert(wire_receipts_items_spec(t) + r2 =~= wire_receipt_spec(t[0]) + (wt + r2));
        lemma_receipt_split(s[0], t[0], ws + r1, wt + r2);
        lemma_receipts_items_split(s.drop_first(), t.drop_first(), r1, r2);
        assert forall|i: int| 0 <= i < s.len() implies #[trigger] receipt_agrees(s[i], t[i]) by {
            if i > 0 {
                assert(s[i] == s.drop_first()[i - 1]);
                assert(t[i] == t.drop_first()[i - 1]);
                assert(receipt_agrees(s.drop_first()[i - 1], t.drop_first()[i - 1]));
            }
        }
    }
}

/// The wire form of a receipt list determines the receipts: two lists with the same encoding
/// hold the same receipts in the same order.
pub proof fn receipts_encoding_determines_receipts(s: Seq<CommandReceiptV6>, t: Seq<CommandReceiptV6>)
    requires
        wire_receipts_spec(s) == wire_receipts_spec(t),
        wire_receipts_spec(s).len() <= u64::MAX,
    ensures
        receipts_agree(s, t),
{
    lemma_receipts_len(s);
    lemma_receipts_len(t);
    lemma_varint_split(s.len(), t.len(), wire_receipts_items_spec(s), wire_receipts_items_spec(t));
    assert(wire_receipts_items_spec(s) =~= wire_receipts_items_spec(s) + Seq::<u8>::empty());
    assert(wire_receipts_items_spec(t) =~= wire_receipts_items_spec(t) + Seq::<u8>::empty());
    lemma_receipts_items_split(s, t, Seq::<u8>::empty(), Seq::<u8>::empty());
}

// ---------------------------------------------------------------------------------------------
// The state fence message
// ---------------------------------------------------------------------------------------------

proof fn lemma_fenced_checkpoint_split(a: DecisionContextV6, b: DecisionContextV6, r1: Seq<u8>, r2: Seq<u8>)
    requires
        fenced_checkpoint_spec(a) + r1 == fenced_checkpoint_spec(b) + r2,
    ensures
        a.kernel_checkpoint is Some <==> b.kernel_checkpoint is Some,
        a.kernel_checkpoint is Some ==> a.kernel_checkpoint->0.state_sha256@
            == b.kernel_checkpoint->0.state_sha256@,
        r1 == r2,
{
    let m = fenced_checkpoint_spec(a) + r1;
    assert(m[0] == fenced_checkpoint_spec(a)[0]);
    assert(m[0] == (fenced_checkpoint_spec(b) + r2)[0]);
    match (a.kernel_checkpoint, b.kernel_checkpoint) {
        (Some(x), Some(y)) => {
            lemma_fixed_split(fenced_checkpoint_spec(a), fenced_checkpoint_spec(b), r1, r2);
            assert(x.state_sha256@ =~= fenced_checkpoint_spec(a).drop_first());
            assert(y.state_sha256@ =~= fenced_checkpoint_spec(b).drop_first());
        },
        (None, None) => {
            lemma_fixed_split(fenced_checkpoint_spec(a), fenced_checkpoint_spec(b), r1, r2);
        },
        _ => {},
    }
}

spec fn fence_message_tail(c: DecisionContextV6) -> Seq<u8> {
    framed(utf8(spec_hex(sha256(fixed_fence_spec(c.owner_state.fence))))) + (framed(
        utf8(c.strategy.strategy_id@),
    ) + (framed(utf8(c.strategy.binding_id@)) + (framed(wire_parameters_spec(c.strategy.parameters@))
        + (be_u64(c.broker.revision) + (fenced_checkpoint_spec(c) + (be_u64(
        c.decision_time_unix_ms as u64,
    ) + (framed(wire_opt_strikes_spec(c.market_strikes)) + (framed(
        varint(mode_index(c.deployment_mode)),
    ) + (framed(wire_capabilities_spec(c.capabilities)) + framed(
        wire_receipts_spec(c.command_receipts@),
    ))))))))))
}

/// The message the state fence is taken over determines what the fence protects: two contexts
/// with the same message have the same V4 fence digest, Strategy and binding, parameters,
/// Broker revision, input checkpoint digest, decision time, Market strikes, deployment mode,
/// capabilities and command receipts. So a context whose receipts changed has another fence
/// message.
proof fn lemma_assoc(x: Seq<u8>, y: Seq<u8>, z: Seq<u8>)
    ensures
        (x + y) + z == x + (y + z),
{
    assert((x + y) + z =~= x + (y + z));
}

proof fn lemma_fence_message_tail(c: DecisionContextV6)
    ensures
        state_fence_message(c) == STATE_FENCE_DOMAIN@ + fence_message_tail(c),
{
    let d = STATE_FENCE_DOMAIN@;
    let f0 = framed(utf8(spec_hex(sha256(fixed_fence_spec(c.owner_state.fence)))));
    let f1 = framed(utf8(c.strategy.strategy_id@));
    let f2 = framed(utf8(c.strategy.binding_id@));
    let f3 = framed(wire_parameters_spec(c.strategy.parameters@));
    let f4 = be_u64(c.broker.revision);
    let f5 = fenced_checkpoint_spec(c);
    let f6 = be_u64(c.decision_time_unix_ms as u64);
    let f7 = framed(wire_opt_strikes_spec(c.market_strikes));
    let f8 = framed(varint(mode_index(c.deployment_mode)));
    let f9 = framed(wire_capabilities_spec(c.capabilities));
    let f10 = framed(wire_receipts_spec(c.command_receipts@));
    let t9 = f9 + f10;
    let t8 = f8 + t9;
    let t7 = f7 + t8;
    let t6 = f6 + t7;
    let t5 = f5 + t6;
    let t4 = f4 + t5;
    let t3 = f3 + t4;
    let t2 = f2 + t3;
    let t1 = f1 + t2;
    let t0 = f0 + t1;
    let p1 = d + f0;
    let p2 = p1 + f1;
    let p3 = p2 + f2;
    let p4 = p3 + f3;
    let p5 = p4 + f4;
    let p6 = p5 + f5;
    let p7 = p6 + f6;
    let p8 = p7 + f7;
    let p9 = p8 + f8;
    let p10 = p9 + f9;
    assert(state_fence_message(c) == p10 + f10);
    lemma_assoc(p9, f9, f10);
    lemma_assoc(p8, f8, t9);
    lemma_assoc(p7, f7, t8);
    lemma_assoc(p6, f6, t7);
    lemma_assoc(p5, f5, t6);
    lemma_assoc(p4, f4, t5);
    lemma_assoc(p3, f3, t4);
    lemma_assoc(p2, f2, t3);
    lemma_assoc(p1, f1, t2);
    lemma_assoc(d, f0, t1);
    assert(fence_message_tail(c) == t0);
}

pub proof fn state_fence_message_determines_fields(a: DecisionContextV6, b: DecisionContextV6)
    requires
        state_fence_message(a) == state_fence_message(b),
        state_fence_message(a).len() <= u64::MAX,
    ensures
        spec_hex(sha256(fixed_fence_spec(a.owner_state.fence))) == spec_hex(
            sha256(fixed_fence_spec(b.owner_state.fence)),
        ),
        a.strategy.strategy_id@ == b.strategy.strategy_id@,
        a.strategy.binding_id@ == b.strategy.binding_id@,
        wire_parameters_spec(a.strategy.parameters@) == wire_parameters_spec(b.strategy.parameters@),
        a.broker.revision == b.broker.revision,
        a.kernel_checkpoint is Some <==> b.kernel_checkpoint is Some,
        a.kernel_checkpoint is Some ==> a.kernel_checkpoint->0.state_sha256@
            == b.kernel_checkpoint->0.state_sha256@,
        a.decision_time_unix_ms == b.decision_time_unix_ms,
        wire_opt_strikes_spec(a.market_strikes) == wire_opt_strikes_spec(b.market_strikes),
        a.deployment_mode == b.deployment_mode,
        wire_capabilities_spec(a.capabilities) == wire_capabilities_spec(b.capabilities),
        receipts_agree(a.command_receipts@, b.command_receipts@),
{
    let d = STATE_FENCE_DOMAIN@;
    lemma_fence_message_tail(a);
    lemma_fence_message_tail(b);
    lemma_fixed_split(d, d, fence_message_tail(a), fence_message_tail(b));
    lemma_fence_tail(a, b);
}

#[verifier::spinoff_prover]
#[verifier::rlimit(40)]
proof fn lemma_fence_tail(a: DecisionContextV6, b: DecisionContextV6)
    requires
        fence_message_tail(a) == fence_message_tail(b),
        fence_message_tail(a).len() <= u64::MAX,
    ensures
        spec_hex(sha256(fixed_fence_spec(a.owner_state.fence))) == spec_hex(
            sha256(fixed_fence_spec(b.owner_state.fence)),
        ),
        a.strategy.strategy_id@ == b.strategy.strategy_id@,
        a.strategy.binding_id@ == b.strategy.binding_id@,
        wire_parameters_spec(a.strategy.parameters@) == wire_parameters_spec(b.strategy.parameters@),
        a.broker.revision == b.broker.revision,
        a.kernel_checkpoint is Some <==> b.kernel_checkpoint is Some,
        a.kernel_checkpoint is Some ==> a.kernel_checkpoint->0.state_sha256@
            == b.kernel_checkpoint->0.state_sha256@,
        a.decision_time_unix_ms == b.decision_time_unix_ms,
        wire_opt_strikes_spec(a.market_strikes) == wire_opt_strikes_spec(b.market_strikes),
        a.deployment_mode == b.deployment_mode,
        wire_capabilities_spec(a.capabilities) == wire_capabilities_spec(b.capabilities),
        receipts_agree(a.command_receipts@, b.command_receipts@),
{
    let ha = spec_hex(sha256(fixed_fence_spec(a.owner_state.fence)));
    let hb = spec_hex(sha256(fixed_fence_spec(b.owner_state.fence)));
    let ra = wire_receipts_spec(a.command_receipts@);
    let rb = wire_receipts_spec(b.command_receipts@);
    let t9a = framed(wire_capabilities_spec(a.capabilities)) + framed(ra);
    let t9b = framed(wire_capabilities_spec(b.capabilities)) + framed(rb);
    let t8a = framed(varint(mode_index(a.deployment_mode))) + t9a;
    let t8b = framed(varint(mode_index(b.deployment_mode))) + t9b;
    let t7a = framed(wire_opt_strikes_spec(a.market_strikes)) + t8a;
    let t7b = framed(wire_opt_strikes_spec(b.market_strikes)) + t8b;
    let t6a = be_u64(a.decision_time_unix_ms as u64) + t7a;
    let t6b = be_u64(b.decision_time_unix_ms as u64) + t7b;
    let t5a = fenced_checkpoint_spec(a) + t6a;
    let t5b = fenced_checkpoint_spec(b) + t6b;
    let t4a = be_u64(a.broker.revision) + t5a;
    let t4b = be_u64(b.broker.revision) + t5b;
    let t3a = framed(wire_parameters_spec(a.strategy.parameters@)) + t4a;
    let t3b = framed(wire_parameters_spec(b.strategy.parameters@)) + t4b;
    let t2a = framed(utf8(a.strategy.binding_id@)) + t3a;
    let t2b = framed(utf8(b.strategy.binding_id@)) + t3b;
    let t1a = framed(utf8(a.strategy.strategy_id@)) + t2a;
    let t1b = framed(utf8(b.strategy.strategy_id@)) + t2b;
    assert(fence_message_tail(a) == framed(utf8(ha)) + t1a);
    assert(fence_message_tail(b) == framed(utf8(hb)) + t1b);
    lemma_framed_text_split(ha, hb, t1a, t1b);
    lemma_framed_text_split(a.strategy.strategy_id@, b.strategy.strategy_id@, t2a, t2b);
    lemma_framed_text_split(a.strategy.binding_id@, b.strategy.binding_id@, t3a, t3b);
    lemma_framed_split(
        wire_parameters_spec(a.strategy.parameters@),
        wire_parameters_spec(b.strategy.parameters@),
        t4a,
        t4b,
    );
    lemma_be_u64_split(a.broker.revision, b.broker.revision, t5a, t5b);
    lemma_fenced_checkpoint_split(a, b, t6a, t6b);
    lemma_be_u64_split(a.decision_time_unix_ms as u64, b.decision_time_unix_ms as u64, t7a, t7b);
    let x = a.decision_time_unix_ms;
    let y = b.decision_time_unix_ms;
    assert(x as u64 == y as u64 ==> x == y) by (bit_vector);
    lemma_framed_split(wire_opt_strikes_spec(a.market_strikes), wire_opt_strikes_spec(b.market_strikes), t8a, t8b);
    lemma_framed_split(
        varint(mode_index(a.deployment_mode)),
        varint(mode_index(b.deployment_mode)),
        t9a,
        t9b,
    );
    assert(varint(mode_index(a.deployment_mode)) =~= varint(mode_index(a.deployment_mode)) + Seq::<u8>::empty());
    assert(varint(mode_index(b.deployment_mode)) =~= varint(mode_index(b.deployment_mode)) + Seq::<u8>::empty());
    lemma_varint_split(mode_index(a.deployment_mode), mode_index(b.deployment_mode), Seq::<u8>::empty(), Seq::<u8>::empty());
    lemma_framed_split(wire_capabilities_spec(a.capabilities), wire_capabilities_spec(b.capabilities), framed(ra), framed(rb));
    assert(framed(ra) =~= framed(ra) + Seq::<u8>::empty());
    assert(framed(rb) =~= framed(rb) + Seq::<u8>::empty());
    lemma_framed_split(ra, rb, Seq::<u8>::empty(), Seq::<u8>::empty());
    receipts_encoding_determines_receipts(a.command_receipts@, b.command_receipts@);
}

/// Changing the command receipts of a context to a list that differs from them changes the
/// message its state fence is taken over: the fence binds the receipts.
pub proof fn state_fence_binds_receipts(c: DecisionContextV6, receipts: Vec<CommandReceiptV6>)
    requires
        !receipts_agree(c.command_receipts@, receipts@),
        state_fence_message(c).len() <= u64::MAX,
    ensures
        state_fence_message(c) != state_fence_message(
            DecisionContextV6 { command_receipts: receipts, ..c },
        ),
{
    let d = DecisionContextV6 { command_receipts: receipts, ..c };
    if state_fence_message(c) == state_fence_message(d) {
        state_fence_message_determines_fields(c, d);
    }
}

} // verus!
