//! Properties that span several operations of the library: what one call undoes, what a
//! sealed value satisfies, and what an accepted decision keeps.
use crate::answer_v6::{
    acknowledgeable, answer_commands_verdict, checkpoint_transition_verdict, command_allowed,
    decision_result_v6_verdict, optional_checkpoint_same, place_count, result_plan_rows,
};
use crate::decision_v6::{command_v6_id, spec_max_open_orders, MAX_DECISION_PLAN_ROWS};
use crate::identity_v6::spec_command_id_v6;
use crate::plan_v6::open_order_count;
use crate::checkpoint_v6::{
    checkpoint_fields_valid, checkpoint_v6_message, kernel_checkpoint_shape_verdict,
    runner_section_verdict, same_but_digest, spec_kernel_checkpoint_v6_sha256,
};
use crate::decision_v5::{
    spec_hundredths_to_whole, spec_whole_to_hundredths, StrategyCommandV5,
    MAX_KERNEL_CHECKPOINT_BYTES,
};
use crate::decision_v6::{
    DecisionContextV6, DecisionDispositionV6, DecisionResultV6, DecisionV6Error,
    KernelCheckpointV6, OrderUpdateRecordV6, DECISION_RESULT_V6_MAGIC,
    MAX_DECISION_RESULT_V6_BYTES,
};
use crate::codec_v6::wire_result_v6_spec;
use crate::result_read_v6::{decision_result_v6_read, result_v6_round_trip, ResultV6Model};
use crate::result_view_v6::result_v6_verdict_depends_on_model;
use crate::digest::all_zero_bytes;
use crate::legacy_v5::{
    command_matches_legacy, current_quantity, legacy_command_fits, wire_command_v5_spec,
    LegacyStrategyCommandV5,
};
use crate::result_v6::{disposition_verdict, result_verdict};
use crate::text::{
    hex_char, hex_value, is_lower_hex_byte, lemma_hex_is_ascii, spec_hex, spec_parse_hex_digest,
    utf8,
};
use vstd::prelude::*;
use vstd::utf8::*;

verus! {

/// Reading back the hex rendering of a 32-byte digest gives the digest.
pub proof fn hex_digest_round_trip(b: Seq<u8>)
    requires
        b.len() == 32,
    ensures
        spec_parse_hex_digest(spec_hex(b)) == Some(b),
{
    let s = spec_hex(b);
    lemma_hex_is_ascii(b);
    is_ascii_chars_encode_utf8(s);
    let u = utf8(s);
    assert(u.len() == 64);
    assert forall|i: int| 0 <= i < 64 implies #[trigger] is_lower_hex_byte(u[i]) by {
        assert(s[i] as u8 == u[i]);
    }
    let parsed = Seq::new(32, |i: int| (hex_value(u[2 * i]) * 16 + hex_value(u[2 * i + 1])) as u8);
    assert forall|i: int| 0 <= i < 32 implies parsed[i] == b[i] by {
        assert(s[2 * i] as u8 == u[2 * i]);
        assert(s[2 * i + 1] as u8 == u[2 * i + 1]);
        assert((2 * i) / 2 == i && (2 * i) % 2 == 0);
        assert((2 * i + 1) / 2 == i && (2 * i + 1) % 2 == 1);
        assert(s[2 * i] == hex_char(b[i] / 16));
        assert(s[2 * i + 1] == hex_char(b[i] % 16));
        assert(hex_value(hex_char(b[i] / 16) as u8) == b[i] / 16);
        assert(hex_value(hex_char(b[i] % 16) as u8) == b[i] % 16);
    }
    assert(parsed =~= b);
}

/// The checkpoint digest binds every field but the digest itself: two checkpoints that differ
/// only in `state_sha256` have the same digest.
pub proof fn checkpoint_digest_ignores_stored_digest(a: KernelCheckpointV6, b: KernelCheckpointV6)
    requires
        same_but_digest(a, b),
    ensures
        spec_kernel_checkpoint_v6_sha256(a) == spec_kernel_checkpoint_v6_sha256(b),
{
    assert(checkpoint_v6_message(a) == checkpoint_v6_message(b));
}

/// A sealed checkpoint passes validation whenever its fields, runner section and size do,
/// unless its digest happens to be all zero bytes.
pub proof fn sealed_checkpoint_is_valid(c: KernelCheckpointV6, sealed: KernelCheckpointV6)
    requires
        same_but_digest(sealed, c),
        sealed.state_sha256@ == spec_kernel_checkpoint_v6_sha256(c),
        c.state@.len() <= MAX_KERNEL_CHECKPOINT_BYTES,
        runner_section_verdict(c.runner) is Ok,
        checkpoint_fields_valid(c),
        !all_zero_bytes(spec_kernel_checkpoint_v6_sha256(c)),
    ensures
        kernel_checkpoint_shape_verdict(sealed) is Ok,
{
    checkpoint_digest_ignores_stored_digest(sealed, c);
}

/// Whole contracts and hundredths convert into each other without loss: a whole quantity that
/// fits comes back from its hundredths, and a whole number of hundredths comes back from its
/// contracts.
pub proof fn whole_and_hundredths_round_trip(whole: u64, hundredths: u64)
    ensures
        spec_whole_to_hundredths(whole) matches Some(h) ==> spec_hundredths_to_whole(h) == Some(
            whole,
        ),
        spec_hundredths_to_whole(hundredths) matches Some(w) ==> spec_whole_to_hundredths(w)
            == Some(hundredths),
{
}

/// A command converted to its legacy form and back has the same current wire form, hence the
/// same command digest; the conversion back always succeeds.
pub proof fn legacy_command_round_trip(
    command: StrategyCommandV5,
    legacy: LegacyStrategyCommandV5,
    back: StrategyCommandV5,
)
    requires
        command_matches_legacy(command, legacy),
        command_matches_legacy(back, legacy),
    ensures
        legacy_command_fits(legacy),
        wire_command_v5_spec(back, current_quantity(back)) == wire_command_v5_spec(
            command,
            current_quantity(command),
        ),
{
    match (command, legacy, back) {
        (
            StrategyCommandV5::PlaceOrder(a),
            LegacyStrategyCommandV5::PlaceOrder(l),
            StrategyCommandV5::PlaceOrder(b),
        ) => {
            assert(a.quantity_hundredths == b.quantity_hundredths);
            assert(crate::text::opt_view(a.signal_type) == crate::text::opt_view(b.signal_type));
        },
        _ => {},
    }
}

/// A result the contract accepts as rejected returns the input checkpoint unchanged and
/// carries no commands and no acknowledgements.
pub proof fn rejected_decision_keeps_checkpoint(
    context: DecisionContextV6,
    result: DecisionResultV6,
)
    requires
        decision_result_v6_verdict(context, result) is Ok,
        result.disposition == DecisionDispositionV6::Rejected,
    ensures
        optional_checkpoint_same(result.kernel_checkpoint, context.kernel_checkpoint),
        result.commands@.len() == 0,
        result.acknowledged_command_ids@.len() == 0,
{
    assert(result_verdict(result) is Ok);
    assert(disposition_verdict(result) is Ok);
    assert(checkpoint_transition_verdict(context, result) is Ok);
}

/// A result the contract accepts as completed carries a checkpoint whose sequence is one past
/// the input checkpoint's, or 1 when the context has none.
pub proof fn completed_decision_advances_sequence(
    context: DecisionContextV6,
    result: DecisionResultV6,
)
    requires
        decision_result_v6_verdict(context, result) is Ok,
        result.disposition == DecisionDispositionV6::Completed,
    ensures
        result.kernel_checkpoint is Some,
        result.kernel_checkpoint->0.sequence == match context.kernel_checkpoint {
            Some(previous) => previous.sequence + 1,
            None => 1,
        },
{
    assert(checkpoint_transition_verdict(context, result) is Ok);
}

/// An accepted result stays within what its context grants: its commands carry the ids of
/// their ordinals in the delivery, each is one the context allows (a place only in a scoped
/// Market, a cancel only of an order shown at the expected revision, timers only when granted,
/// a cancel-all only over a complete order view), it acknowledges only receipts and final
/// orders of the context, its plan fits the row limit, and its places keep the open orders
/// within the mode's cap.
pub proof fn accepted_result_stays_within_context(
    context: DecisionContextV6,
    result: DecisionResultV6,
)
    requires
        decision_result_v6_verdict(context, result) is Ok,
    ensures
        result.delivery_id@ == context.owner_state.delivery_id@,
        result.expected_broker_revision == context.broker.revision,
        forall|i: int|
            0 <= i < result.commands@.len() ==> Some(
                command_v6_id(#[trigger] result.commands@[i]),
            ) == spec_command_id_v6(
                context.owner_state.sleeve.sleeve_id@,
                context.owner_state.sleeve.incarnation,
                context.owner_state.delivery_id@,
                i as u32,
            ),
        forall|i: int|
            0 <= i < result.commands@.len() ==> #[trigger] command_allowed(
                context,
                result.commands@[i],
            ),
        forall|i: int|
            0 <= i < result.acknowledged_command_ids@.len() ==> acknowledgeable(
                context,
                #[trigger] result.acknowledged_command_ids@[i]@,
            ),
        result_plan_rows(context, result) <= MAX_DECISION_PLAN_ROWS,
        place_count(result.commands@) > 0 ==> open_order_count(context.broker.orders@)
            + place_count(result.commands@) <= spec_max_open_orders(context.deployment_mode),
{
    assert(answer_commands_verdict(context, result) is Ok);
}

/// A valid result within the result bound decodes to itself: the V6 magic and the encoding
/// `encode_decision_result_v6` writes for it read as its model, and every result with that
/// model is valid, so decoding returns a result equal to it field by field.
pub proof fn valid_result_v6_decodes_to_itself(result: DecisionResultV6)
    requires
        result_verdict(result) is Ok,
        8 + wire_result_v6_spec(result).len() <= MAX_DECISION_RESULT_V6_BYTES,
    ensures
        decision_result_v6_read(DECISION_RESULT_V6_MAGIC@ + wire_result_v6_spec(result)) == Ok::<
            ResultV6Model,
            DecisionV6Error,
        >(result@),
        forall|v: DecisionResultV6| v@ == result@ ==> #[trigger] result_verdict(v) is Ok,
{
    result_v6_round_trip(result);
    assert forall|v: DecisionResultV6| v@ == result@ implies #[trigger] result_verdict(v) is Ok by {
        result_v6_verdict_depends_on_model(v, result);
    }
}

} // verus!
