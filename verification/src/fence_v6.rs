//! The Decision V6 state fence: the digest a host recomputes from the context it sent and
//! compares with the result's `state_fence`. It binds the V4 fence, the Strategy's identity and
//! parameters, the Broker revision, the input checkpoint digest, the decision time, the Market
//! strikes, the mode, the capability grant and the command receipts.
use crate::checkpoint_v6::kind_index;
use crate::context_v6::{context_derives_sleeve, context_v6_verdict, sleeve_components_fit};
use crate::decision_v4::{decision_fence_v4_sha256, fixed_fence_spec};
use crate::decision_v6::{
    CapabilityGrantV6, CommandOutcomeV6, CommandReceiptV6, DecisionContextV6, DecisionV6Error,
    DeploymentModeV6, MarketStrikesV6, StrategyParameterValueV6,
};
use crate::digest::{be_u64, extend, extend_framed, framed, sha256, sha256_digest, u64_be_bytes};
use crate::text::{byte_len, spec_hex, string_bytes, string_views, utf8};
use crate::wire::{
    put, put_opt_i64, varint, wire_bool, wire_bool_spec, wire_i64, wire_opt_i64_spec, wire_str,
    wire_str_spec, wire_u32, wire_u64, wire_u8, zigzag,
};
use vstd::prelude::*;

verus! {

/// `strategy-core/decision-v6/state-fence/v1` and a NUL byte.
pub const STATE_FENCE_DOMAIN: [u8; 41] = [
    115, 116, 114, 97, 116, 101, 103, 121, 45, 99, 111, 114, 101, 47, 100, 101, 99, 105, 115,
    105, 111, 110, 45, 118, 54, 47, 115, 116, 97, 116, 101, 45, 102, 101, 110, 99, 101, 47, 118,
    49, 0,
];

// ---------------------------------------------------------------------------------------------
// Wire forms of the fenced fields
// ---------------------------------------------------------------------------------------------

pub open spec fn wire_parameter_value_spec(v: StrategyParameterValueV6) -> Seq<u8> {
    match v {
        StrategyParameterValueV6::Null => varint(0),
        StrategyParameterValueV6::Bool(b) => varint(1) + wire_bool_spec(b),
        StrategyParameterValueV6::I64(x) => varint(2) + varint(zigzag(x as int)),
        StrategyParameterValueV6::U64(x) => varint(3) + varint(x as nat),
        StrategyParameterValueV6::Decimal { coefficient, scale } => varint(4) + varint(
            zigzag(coefficient as int),
        ) + seq![scale],
        StrategyParameterValueV6::String(s) => varint(5) + wire_str_spec(s@),
    }
}

pub open spec fn wire_parameters_items_spec(s: Seq<(String, StrategyParameterValueV6)>) -> Seq<u8>
    decreases s.len(),
{
    if s.len() == 0 {
        Seq::empty()
    } else {
        wire_parameters_items_spec(s.drop_last()) + wire_str_spec(s.last().0@)
            + wire_parameter_value_spec(s.last().1)
    }
}

/// The parameter list on the wire: its length, then each key and value.
pub open spec fn wire_parameters_spec(s: Seq<(String, StrategyParameterValueV6)>) -> Seq<u8> {
    varint(s.len()) + wire_parameters_items_spec(s)
}

pub open spec fn wire_strike_spec(s: MarketStrikesV6) -> Seq<u8> {
    wire_str_spec(s.market_id@) + wire_opt_i64_spec(s.cap_strike_milli_f)
}

pub open spec fn wire_strikes_items_spec(s: Seq<MarketStrikesV6>) -> Seq<u8>
    decreases s.len(),
{
    if s.len() == 0 {
        Seq::empty()
    } else {
        wire_strikes_items_spec(s.drop_last()) + wire_strike_spec(s.last())
    }
}

/// Optional strikes on the wire: a tag, then the list's length and items.
pub open spec fn wire_opt_strikes_spec(s: Option<Vec<MarketStrikesV6>>) -> Seq<u8> {
    match s {
        Some(v) => seq![1u8] + varint(v@.len()) + wire_strikes_items_spec(v@),
        None => seq![0u8],
    }
}

pub open spec fn mode_index(m: DeploymentModeV6) -> nat {
    match m {
        DeploymentModeV6::Paper => 0,
        DeploymentModeV6::Live => 1,
    }
}

pub open spec fn wire_strings_items_spec(s: Seq<Seq<char>>) -> Seq<u8>
    decreases s.len(),
{
    if s.len() == 0 {
        Seq::empty()
    } else {
        wire_strings_items_spec(s.drop_last()) + wire_str_spec(s.last())
    }
}

pub open spec fn wire_capabilities_spec(g: CapabilityGrantV6) -> Seq<u8> {
    wire_bool_spec(g.timers) + varint(g.external_requests@.len()) + wire_strings_items_spec(
        string_views(g.external_requests@),
    )
}

pub open spec fn wire_outcome_spec(o: CommandOutcomeV6) -> Seq<u8> {
    match o {
        CommandOutcomeV6::Accepted => varint(0),
        CommandOutcomeV6::Refused { code, reason } => varint(1) + wire_str_spec(code@)
            + wire_str_spec(reason@),
    }
}

pub open spec fn wire_receipt_spec(r: CommandReceiptV6) -> Seq<u8> {
    wire_str_spec(r.command_id@) + varint(kind_index(r.kind)) + wire_outcome_spec(r.outcome)
}

pub open spec fn wire_receipts_items_spec(s: Seq<CommandReceiptV6>) -> Seq<u8>
    decreases s.len(),
{
    if s.len() == 0 {
        Seq::empty()
    } else {
        wire_receipts_items_spec(s.drop_last()) + wire_receipt_spec(s.last())
    }
}

pub open spec fn wire_receipts_spec(s: Seq<CommandReceiptV6>) -> Seq<u8> {
    varint(s.len()) + wire_receipts_items_spec(s)
}

fn put_parameter_value(out: &mut Vec<u8>, v: &StrategyParameterValueV6)
    ensures
        final(out)@ == old(out)@ + wire_parameter_value_spec(*v),
{
    let ghost start = out@;
    match v {
        StrategyParameterValueV6::Null => put(out, wire_u32(0)),
        StrategyParameterValueV6::Bool(b) => {
            put(out, wire_u32(1));
            put(out, wire_bool(*b));
        },
        StrategyParameterValueV6::I64(x) => {
            put(out, wire_u32(2));
            put(out, wire_i64(*x));
        },
        StrategyParameterValueV6::U64(x) => {
            put(out, wire_u32(3));
            put(out, wire_u64(*x));
        },
        StrategyParameterValueV6::Decimal { coefficient, scale } => {
            put(out, wire_u32(4));
            put(out, wire_i64(*coefficient));
            put(out, wire_u8(*scale));
        },
        StrategyParameterValueV6::String(s) => {
            put(out, wire_u32(5));
            put(out, wire_str(s));
        },
    }
    assert(out@ =~= start + wire_parameter_value_spec(*v));
}

/// The Strategy parameters in the wire configuration.
pub fn encode_parameters(parameters: &Vec<(String, StrategyParameterValueV6)>) -> (r: Vec<u8>)
    ensures
        r@ == wire_parameters_spec(parameters@),
{
    let mut out: Vec<u8> = Vec::new();
    put(&mut out, wire_u64(parameters.len() as u64));
    let ghost head = out@;
    let mut i: usize = 0;
    while i < parameters.len()
        invariant
            0 <= i <= parameters@.len(),
            out@ == head + wire_parameters_items_spec(parameters@.take(i as int)),
        decreases parameters@.len() - i,
    {
        let ghost before = out@;
        put(&mut out, wire_str(&parameters[i].0));
        put_parameter_value(&mut out, &parameters[i].1);
        proof {
            assert(parameters@.take(i + 1).drop_last() =~= parameters@.take(i as int));
            assert(out@ =~= before + wire_str_spec(parameters@[i as int].0@)
                + wire_parameter_value_spec(parameters@[i as int].1));
        }
        i += 1;
    }
    assert(parameters@.take(parameters@.len() as int) =~= parameters@);
    out
}

/// The optional Market strikes in the wire configuration.
pub fn encode_market_strikes(strikes: &Option<Vec<MarketStrikesV6>>) -> (r: Vec<u8>)
    ensures
        r@ == wire_opt_strikes_spec(*strikes),
{
    let mut out: Vec<u8> = Vec::new();
    match strikes {
        None => {
            put(&mut out, wire_u8(0));
        },
        Some(list) => {
            put(&mut out, wire_u8(1));
            put(&mut out, wire_u64(list.len() as u64));
            let ghost head = out@;
            let mut i: usize = 0;
            while i < list.len()
                invariant
                    0 <= i <= list@.len(),
                    out@ == head + wire_strikes_items_spec(list@.take(i as int)),
                decreases list@.len() - i,
            {
                let ghost before = out@;
                put(&mut out, wire_str(&list[i].market_id));
                put_opt_i64(&mut out, list[i].cap_strike_milli_f);
                proof {
                    assert(list@.take(i + 1).drop_last() =~= list@.take(i as int));
                    assert(out@ =~= before + wire_strike_spec(list@[i as int]));
                }
                i += 1;
            }
            assert(list@.take(list@.len() as int) =~= list@);
            assert(out@ =~= wire_opt_strikes_spec(*strikes));
        },
    }
    out
}

/// The deployment mode in the wire configuration.
pub fn encode_mode(mode: DeploymentModeV6) -> (r: Vec<u8>)
    ensures
        r@ == varint(mode_index(mode)),
{
    match mode {
        DeploymentModeV6::Paper => wire_u32(0),
        DeploymentModeV6::Live => wire_u32(1),
    }
}

/// The capability grant in the wire configuration.
pub fn encode_capabilities(capabilities: &CapabilityGrantV6) -> (r: Vec<u8>)
    ensures
        r@ == wire_capabilities_spec(*capabilities),
{
    let mut out: Vec<u8> = Vec::new();
    put(&mut out, wire_bool(capabilities.timers));
    let names = &capabilities.external_requests;
    put(&mut out, wire_u64(names.len() as u64));
    let ghost head = out@;
    let mut i: usize = 0;
    while i < names.len()
        invariant
            0 <= i <= names@.len(),
            out@ == head + wire_strings_items_spec(string_views(names@.take(i as int))),
        decreases names@.len() - i,
    {
        let ghost before = out@;
        put(&mut out, wire_str(&names[i]));
        proof {
            assert(string_views(names@.take(i + 1)).drop_last() =~= string_views(
                names@.take(i as int),
            ));
        }
        i += 1;
    }
    assert(names@.take(names@.len() as int) =~= names@);
    assert(out@ =~= wire_capabilities_spec(*capabilities));
    out
}

/// The command receipts in the wire configuration.
pub fn encode_receipts(receipts: &Vec<CommandReceiptV6>) -> (r: Vec<u8>)
    ensures
        r@ == wire_receipts_spec(receipts@),
{
    let mut out: Vec<u8> = Vec::new();
    put(&mut out, wire_u64(receipts.len() as u64));
    let ghost head = out@;
    let mut i: usize = 0;
    while i < receipts.len()
        invariant
            0 <= i <= receipts@.len(),
            out@ == head + wire_receipts_items_spec(receipts@.take(i as int)),
        decreases receipts@.len() - i,
    {
        let ghost before = out@;
        let receipt = &receipts[i];
        put(&mut out, wire_str(&receipt.command_id));
        let kind: u32 = match receipt.kind {
            crate::decision_v6::BrokerCommandKindV6::PlaceOrder => 0,
            crate::decision_v6::BrokerCommandKindV6::CancelOrder => 1,
            crate::decision_v6::BrokerCommandKindV6::CancelAllOrders => 2,
        };
        put(&mut out, wire_u32(kind));
        match &receipt.outcome {
            CommandOutcomeV6::Accepted => put(&mut out, wire_u32(0)),
            CommandOutcomeV6::Refused { code, reason } => {
                put(&mut out, wire_u32(1));
                put(&mut out, wire_str(code));
                put(&mut out, wire_str(reason));
            },
        }
        proof {
            assert(receipts@.take(i + 1).drop_last() =~= receipts@.take(i as int));
            assert(out@ =~= before + wire_receipt_spec(receipts@[i as int]));
        }
        i += 1;
    }
    assert(receipts@.take(receipts@.len() as int) =~= receipts@);
    out
}

// ---------------------------------------------------------------------------------------------
// The fence
// ---------------------------------------------------------------------------------------------

/// The input checkpoint as the fence binds it: a tag, then its digest.
pub open spec fn fenced_checkpoint_spec(c: DecisionContextV6) -> Seq<u8> {
    match c.kernel_checkpoint {
        Some(k) => seq![1u8] + k.state_sha256@,
        None => seq![0u8],
    }
}

/// The message the state fence is taken over.
pub open spec fn state_fence_message(c: DecisionContextV6) -> Seq<u8> {
    STATE_FENCE_DOMAIN@ + framed(utf8(spec_hex(sha256(fixed_fence_spec(c.owner_state.fence)))))
        + framed(utf8(c.strategy.strategy_id@)) + framed(utf8(c.strategy.binding_id@)) + framed(
        wire_parameters_spec(c.strategy.parameters@),
    ) + be_u64(c.broker.revision) + fenced_checkpoint_spec(c) + be_u64(
        c.decision_time_unix_ms as u64,
    ) + framed(wire_opt_strikes_spec(c.market_strikes)) + framed(
        varint(mode_index(c.deployment_mode)),
    ) + framed(wire_capabilities_spec(c.capabilities)) + framed(
        wire_receipts_spec(c.command_receipts@),
    )
}

/// The fence a host recomputes from the context it sent and compares with the result's
/// `state_fence`: the context's validation error, or the digest of its fence message.
pub fn decision_fence_v6_sha256(context: &DecisionContextV6) -> (r: Result<
    [u8; 32],
    DecisionV6Error,
>)
    requires
        context_derives_sleeve(*context) ==> sleeve_components_fit(*context),
    ensures
        match context_v6_verdict(*context) {
            Err(e) => r == Err::<[u8; 32], DecisionV6Error>(e),
            Ok(_) => r is Ok && r->Ok_0@ == sha256(state_fence_message(*context)),
        },
{
    let checked = context.validate();
    match checked {
        Err(e) => {
            return Err(e);
        },
        Ok(()) => {},
    }
    let v4 = match decision_fence_v4_sha256(&context.owner_state.fence) {
        Ok(hex) => hex,
        Err(e) => {
            return Err(DecisionV6Error::V4(e));
        },
    };
    let mut message: Vec<u8> = Vec::new();
    extend(&mut message, &STATE_FENCE_DOMAIN);
    extend_framed(&mut message, string_bytes(&v4));
    extend_framed(&mut message, string_bytes(&context.strategy.strategy_id));
    extend_framed(&mut message, string_bytes(&context.strategy.binding_id));
    let parameters = encode_parameters(&context.strategy.parameters);
    extend_framed(&mut message, parameters.as_slice());
    extend(&mut message, &u64_be_bytes(context.broker.revision));
    let ghost before_checkpoint = message@;
    match &context.kernel_checkpoint {
        Some(checkpoint) => {
            extend(&mut message, &[1u8]);
            extend(&mut message, &checkpoint.state_sha256);
        },
        None => {
            extend(&mut message, &[0u8]);
        },
    }
    assert(message@ =~= before_checkpoint + fenced_checkpoint_spec(*context));
    extend(&mut message, &u64_be_bytes(context.decision_time_unix_ms as u64));
    let strikes = encode_market_strikes(&context.market_strikes);
    extend_framed(&mut message, strikes.as_slice());
    let mode = encode_mode(context.deployment_mode);
    extend_framed(&mut message, mode.as_slice());
    let capabilities = encode_capabilities(&context.capabilities);
    extend_framed(&mut message, capabilities.as_slice());
    let receipts = encode_receipts(&context.command_receipts);
    extend_framed(&mut message, receipts.as_slice());
    assert(message@ =~= state_fence_message(*context));
    Ok(sha256_digest(message.as_slice()))
}

} // verus!
