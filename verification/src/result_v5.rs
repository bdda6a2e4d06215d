//! Decision V5 checks that need no context: the kernel checkpoint, each command and its fence,
//! and a result's bounds, commands and disposition.
use crate::checkpoint_v6::V5_CHECKPOINT_DIGEST_DOMAIN;
use crate::decision_v5::{
    command_v5_fence, command_v5_id, CommandFenceV5, DecisionDispositionV5, DecisionResultV5,
    DecisionV5Error, KernelCheckpointV5, OrderActionV5, OrderTypeV5, PlaceOrderV5,
    ResultDiagnosticV5, ResultEvidenceV5, StrategyCommandV5, StrategyScopeV5,
    MAX_COMMAND_METADATA_BYTES, MAX_KERNEL_CHECKPOINT_BYTES, MAX_PRICE_MICROS, MAX_REASON_BYTES,
    MAX_RESULT_DIAGNOSTICS, MAX_RESULT_DIAGNOSTIC_BYTES, MAX_RESULT_EVIDENCE,
    MAX_SHORT_TEXT_BYTES, MAX_STRATEGY_COMMANDS, MAX_TIMER_SEMANTICS_BYTES_V5,
};
use crate::digest::{
    all_zero_bytes, be_u32, be_u64, digest_eq, digest_is_zero, extend, extend_framed, framed,
    sha256, sha256_digest, u32_be_bytes, u64_be_bytes,
};
use crate::text::{
    opt_view, spec_valid_identifier, spec_valid_optional_text, spec_valid_text, string_bytes,
    string_eq, string_views, strings_unique, utf8, valid_identifier, valid_optional_text,
    valid_text,
};
use vstd::prelude::*;

verus! {

// ---------------------------------------------------------------------------------------------
// Kernel checkpoint
// ---------------------------------------------------------------------------------------------

/// The message of a V5 checkpoint digest: the domain, then each codec and scope field and the
/// state, variable ones length-prefixed.
pub open spec fn checkpoint_v5_message(c: KernelCheckpointV5) -> Seq<u8> {
    V5_CHECKPOINT_DIGEST_DOMAIN@ + framed(utf8(c.codec_profile@)) + be_u32(c.codec_version)
        + framed(utf8(c.strategy_id@)) + framed(utf8(c.strategy_profile@)) + framed(
        utf8(c.profile_and_calculator_digest@),
    ) + be_u64(c.sequence) + framed(c.state@)
}

/// The digest `state_sha256` must hold.
pub fn kernel_checkpoint_v5_sha256(checkpoint: &KernelCheckpointV5) -> (r: [u8; 32])
    ensures
        r@ == sha256(checkpoint_v5_message(*checkpoint)),
{
    let mut message: Vec<u8> = Vec::new();
    extend(&mut message, &V5_CHECKPOINT_DIGEST_DOMAIN);
    extend_framed(&mut message, string_bytes(&checkpoint.codec_profile));
    extend(&mut message, &u32_be_bytes(checkpoint.codec_version));
    extend_framed(&mut message, string_bytes(&checkpoint.strategy_id));
    extend_framed(&mut message, string_bytes(&checkpoint.strategy_profile));
    extend_framed(&mut message, string_bytes(&checkpoint.profile_and_calculator_digest));
    extend(&mut message, &u64_be_bytes(checkpoint.sequence));
    extend_framed(&mut message, checkpoint.state.as_slice());
    assert(message@ =~= checkpoint_v5_message(*checkpoint));
    sha256_digest(message.as_slice())
}

pub open spec fn checkpoint_v5_fields_valid(c: KernelCheckpointV5) -> bool {
    &&& spec_valid_identifier(c.codec_profile@)
    &&& c.codec_version != 0
    &&& spec_valid_identifier(c.strategy_id@)
    &&& spec_valid_identifier(c.strategy_profile@)
    &&& spec_valid_text(c.profile_and_calculator_digest@, MAX_SHORT_TEXT_BYTES as nat)
    &&& c.sequence != 0
    &&& c.state@.len() != 0
}

pub open spec fn kernel_checkpoint_v5_shape_verdict(c: KernelCheckpointV5) -> Result<
    (),
    DecisionV5Error,
> {
    if c.state@.len() > MAX_KERNEL_CHECKPOINT_BYTES {
        Err(DecisionV5Error::BoundExceeded)
    } else if !checkpoint_v5_fields_valid(c) || all_zero_bytes(c.state_sha256@) || c.state_sha256@
        != sha256(checkpoint_v5_message(c)) {
        Err(DecisionV5Error::InvalidContract)
    } else {
        Ok(())
    }
}

pub fn validate_kernel_checkpoint_shape(checkpoint: &KernelCheckpointV5) -> (r: Result<
    (),
    DecisionV5Error,
>)
    ensures
        r == kernel_checkpoint_v5_shape_verdict(*checkpoint),
{
    if checkpoint.state.len() > MAX_KERNEL_CHECKPOINT_BYTES {
        return Err(DecisionV5Error::BoundExceeded);
    }
    let expected = kernel_checkpoint_v5_sha256(checkpoint);
    if !valid_identifier(&checkpoint.codec_profile) || checkpoint.codec_version == 0
        || !valid_identifier(&checkpoint.strategy_id) || !valid_identifier(
        &checkpoint.strategy_profile,
    ) || !valid_text(&checkpoint.profile_and_calculator_digest, MAX_SHORT_TEXT_BYTES)
        || checkpoint.sequence == 0 || checkpoint.state.len() == 0 || digest_is_zero(
        &checkpoint.state_sha256,
    ) || !digest_eq(&checkpoint.state_sha256, &expected) {
        return Err(DecisionV5Error::InvalidContract);
    }
    Ok(())
}

pub open spec fn kernel_checkpoint_v5_verdict(s: StrategyScopeV5, c: KernelCheckpointV5) -> Result<
    (),
    DecisionV5Error,
> {
    if kernel_checkpoint_v5_shape_verdict(c) is Err {
        kernel_checkpoint_v5_shape_verdict(c)
    } else if c.strategy_id@ != s.strategy_id@ || c.strategy_profile@ != s.profile@
        || c.profile_and_calculator_digest@ != s.profile_and_calculator_digest@ {
        Err(DecisionV5Error::InvalidContract)
    } else {
        Ok(())
    }
}

/// Checks a checkpoint on its own and against the Strategy it belongs to.
pub fn validate_kernel_checkpoint(strategy: &StrategyScopeV5, checkpoint: &KernelCheckpointV5) -> (r:
    Result<(), DecisionV5Error>)
    ensures
        r == kernel_checkpoint_v5_verdict(*strategy, *checkpoint),
{
    let shape = validate_kernel_checkpoint_shape(checkpoint);
    if shape.is_err() {
        return shape;
    }
    if !string_eq(&checkpoint.strategy_id, &strategy.strategy_id) || !string_eq(
        &checkpoint.strategy_profile,
        &strategy.profile,
    ) || !string_eq(
        &checkpoint.profile_and_calculator_digest,
        &strategy.profile_and_calculator_digest,
    ) {
        return Err(DecisionV5Error::InvalidContract);
    }
    Ok(())
}

// ---------------------------------------------------------------------------------------------
// Commands
// ---------------------------------------------------------------------------------------------

pub open spec fn fence_valid(f: CommandFenceV5) -> bool {
    spec_valid_identifier(f.continuation_id@) && f.continuation_generation != 0
}

/// A fence names its continuation: an identifier id and a non-zero generation.
pub fn validate_fence(fence: &CommandFenceV5) -> (r: Result<(), DecisionV5Error>)
    ensures
        r == (if fence_valid(*fence) {
            Ok(())
        } else {
            Err(DecisionV5Error::InvalidContract)
        }),
{
    if !valid_identifier(&fence.continuation_id) || fence.continuation_generation == 0 {
        return Err(DecisionV5Error::InvalidContract);
    }
    Ok(())
}

pub open spec fn place_order_v5_prices_valid(o: PlaceOrderV5) -> bool {
    match (o.action, o.order_type) {
        (OrderActionV5::Buy, OrderTypeV5::Market) => {
            &&& o.limit_price_micros is None
            &&& match o.market_price_cap_micros {
                Some(p) => 1 <= p <= MAX_PRICE_MICROS,
                None => true,
            }
        },
        (OrderActionV5::Sell, OrderTypeV5::Market) => o.limit_price_micros is None
            && o.market_price_cap_micros is None,
        (_, OrderTypeV5::Limit) => {
            &&& o.limit_price_micros is Some
            &&& o.limit_price_micros->0 <= MAX_PRICE_MICROS
            &&& o.market_price_cap_micros is None
        },
    }
}

pub fn valid_place_order_prices(order: &PlaceOrderV5) -> (r: bool)
    ensures
        r == place_order_v5_prices_valid(*order),
{
    match (order.action, order.order_type) {
        (OrderActionV5::Buy, OrderTypeV5::Market) => {
            order.limit_price_micros.is_none() && match order.market_price_cap_micros {
                Some(p) => 1 <= p && p <= MAX_PRICE_MICROS,
                None => true,
            }
        },
        (OrderActionV5::Sell, OrderTypeV5::Market) => {
            order.limit_price_micros.is_none() && order.market_price_cap_micros.is_none()
        },
        (_, OrderTypeV5::Limit) => {
            let limit_valid = match order.limit_price_micros {
                Some(p) => p <= MAX_PRICE_MICROS,
                None => false,
            };
            limit_valid && order.market_price_cap_micros.is_none()
        },
    }
}

pub open spec fn place_order_v5_valid(o: PlaceOrderV5) -> bool {
    &&& spec_valid_identifier(o.market_id@)
    &&& o.quantity_hundredths != 0
    &&& o.quantity_hundredths <= i64::MAX
    &&& spec_valid_identifier(o.provider_client_id@)
    &&& o.metadata@.len() <= MAX_COMMAND_METADATA_BYTES
    &&& spec_valid_optional_text(opt_view(o.signal_type), MAX_SHORT_TEXT_BYTES as nat)
    &&& spec_valid_optional_text(opt_view(o.signal_metadata), MAX_COMMAND_METADATA_BYTES as nat)
    &&& match o.expires_after_ms {
        Some(ttl) => ttl > 0,
        None => true,
    }
    &&& place_order_v5_prices_valid(o)
}

/// What checking one command gives: the command id, the fence of a Broker command, then the
/// fields of its kind.
pub open spec fn command_v5_verdict(c: StrategyCommandV5) -> Result<(), DecisionV5Error> {
    if !spec_valid_identifier(command_v5_id(c)) {
        Err(DecisionV5Error::InvalidContract)
    } else {
        match c {
            StrategyCommandV5::PlaceOrder(o) => if fence_valid(o.fence) && place_order_v5_valid(o) {
                Ok(())
            } else {
                Err(DecisionV5Error::InvalidContract)
            },
            StrategyCommandV5::CancelOrder { fence, order_id, .. } => if fence_valid(fence)
                && spec_valid_identifier(order_id@) {
                Ok(())
            } else {
                Err(DecisionV5Error::InvalidContract)
            },
            StrategyCommandV5::CancelAllOrders { fence, .. } => if fence_valid(fence) {
                Ok(())
            } else {
                Err(DecisionV5Error::InvalidContract)
            },
            StrategyCommandV5::ScheduleTimer { key, generation, semantics, .. } => {
                if spec_valid_identifier(key@) && spec_valid_identifier(generation@)
                    && semantics@.len() <= MAX_TIMER_SEMANTICS_BYTES_V5 {
                    Ok(())
                } else {
                    Err(DecisionV5Error::BoundExceeded)
                }
            },
            StrategyCommandV5::CancelTimer { key, generation, .. } => {
                if spec_valid_identifier(key@) && spec_valid_identifier(generation@) {
                    Ok(())
                } else {
                    Err(DecisionV5Error::InvalidContract)
                }
            },
            StrategyCommandV5::Stop { reason, .. } => if spec_valid_text(
                reason@,
                MAX_REASON_BYTES as nat,
            ) {
                Ok(())
            } else {
                Err(DecisionV5Error::BoundExceeded)
            },
        }
    }
}

fn place_order_v5_ok(order: &PlaceOrderV5) -> (r: bool)
    ensures
        r == place_order_v5_valid(*order),
{
    let ttl_valid = match order.expires_after_ms {
        Some(ttl) => ttl > 0,
        None => true,
    };
    valid_identifier(&order.market_id) && order.quantity_hundredths != 0
        && order.quantity_hundredths <= i64::MAX as u64 && valid_identifier(
        &order.provider_client_id,
    ) && order.metadata.len() <= MAX_COMMAND_METADATA_BYTES && valid_optional_text(
        &order.signal_type,
        MAX_SHORT_TEXT_BYTES,
    ) && valid_optional_text(&order.signal_metadata, MAX_COMMAND_METADATA_BYTES) && ttl_valid
        && valid_place_order_prices(order)
}

/// Bounds of one command on its own.
pub fn validate_command(command: &StrategyCommandV5) -> (r: Result<(), DecisionV5Error>)
    ensures
        r == command_v5_verdict(*command),
{
    if !valid_identifier(command.command_id()) {
        return Err(DecisionV5Error::InvalidContract);
    }
    match command {
        StrategyCommandV5::PlaceOrder(order) => {
            if validate_fence(&order.fence).is_err() || !place_order_v5_ok(order) {
                return Err(DecisionV5Error::InvalidContract);
            }
        },
        StrategyCommandV5::CancelOrder { fence, order_id, .. } => {
            if validate_fence(fence).is_err() || !valid_identifier(order_id) {
                return Err(DecisionV5Error::InvalidContract);
            }
        },
        StrategyCommandV5::CancelAllOrders { fence, .. } => {
            if validate_fence(fence).is_err() {
                return Err(DecisionV5Error::InvalidContract);
            }
        },
        StrategyCommandV5::ScheduleTimer { key, generation, semantics, .. } => {
            if !valid_identifier(key) || !valid_identifier(generation) || semantics.len()
                > MAX_TIMER_SEMANTICS_BYTES_V5 {
                return Err(DecisionV5Error::BoundExceeded);
            }
        },
        StrategyCommandV5::CancelTimer { key, generation, .. } => {
            if !valid_identifier(key) || !valid_identifier(generation) {
                return Err(DecisionV5Error::InvalidContract);
            }
        },
        StrategyCommandV5::Stop { reason, .. } => {
            if !valid_text(reason, MAX_REASON_BYTES) {
                return Err(DecisionV5Error::BoundExceeded);
            }
        },
    }
    Ok(())
}

// ---------------------------------------------------------------------------------------------
// The result
// ---------------------------------------------------------------------------------------------

/// A command in a result: its own bounds, and a fence at the result's Broker revision.
pub open spec fn command_in_result_v5_verdict(c: StrategyCommandV5, revision: u64) -> Result<
    (),
    DecisionV5Error,
> {
    if command_v5_verdict(c) is Err {
        command_v5_verdict(c)
    } else {
        match command_v5_fence(c) {
            Some(f) => if f.expected_broker_revision != revision {
                Err(DecisionV5Error::InvalidContract)
            } else {
                Ok(())
            },
            None => Ok(()),
        }
    }
}

pub open spec fn commands_v5_verdict(s: Seq<StrategyCommandV5>, revision: u64, n: nat) -> Result<
    (),
    DecisionV5Error,
>
    decreases n,
{
    if n == 0 {
        Ok(())
    } else {
        let earlier = commands_v5_verdict(s, revision, (n - 1) as nat);
        if earlier is Err {
            earlier
        } else {
            command_in_result_v5_verdict(s[n - 1], revision)
        }
    }
}

/// The ids of the Broker (fenced) commands, in order.
pub open spec fn fenced_command_ids(s: Seq<StrategyCommandV5>) -> Seq<Seq<char>>
    decreases s.len(),
{
    if s.len() == 0 {
        Seq::empty()
    } else {
        let rest = fenced_command_ids(s.drop_last());
        if command_v5_fence(s.last()) is Some {
            rest.push(command_v5_id(s.last()))
        } else {
            rest
        }
    }
}

/// The fence of the first Broker command.
pub open spec fn first_fence(s: Seq<StrategyCommandV5>) -> Option<CommandFenceV5>
    decreases s.len(),
{
    if s.len() == 0 {
        None
    } else if command_v5_fence(s[0]) is Some {
        command_v5_fence(s[0])
    } else {
        first_fence(s.drop_first())
    }
}

pub open spec fn command_ids_v5(s: Seq<StrategyCommandV5>) -> Seq<Seq<char>> {
    s.map_values(|c: StrategyCommandV5| command_v5_id(c))
}

pub open spec fn result_v5_bounds_valid(r: DecisionResultV5) -> bool {
    &&& spec_valid_identifier(r.delivery_id@)
    &&& spec_valid_identifier(r.sleeve_identity@)
    &&& spec_valid_text(r.state_fence@, MAX_SHORT_TEXT_BYTES as nat)
    &&& r.commands@.len() <= MAX_STRATEGY_COMMANDS
    &&& r.evidence@.len() <= MAX_RESULT_EVIDENCE
    &&& r.diagnostics@.len() <= MAX_RESULT_DIAGNOSTICS
}

pub open spec fn evidence_v5_valid(e: ResultEvidenceV5) -> bool {
    spec_valid_identifier(e.code@) && e.payload@.len() <= MAX_COMMAND_METADATA_BYTES
}

pub open spec fn diagnostic_v5_valid(d: ResultDiagnosticV5) -> bool {
    &&& spec_valid_identifier(d.severity@)
    &&& spec_valid_identifier(d.code@)
    &&& spec_valid_text(d.message@, MAX_RESULT_DIAGNOSTIC_BYTES as nat)
}

/// A completed result issues no Broker command and carries a checkpoint; an awaiting one
/// issues exactly the awaited Broker command, fenced with its continuation, and carries a
/// checkpoint; a rejected one issues nothing.
pub open spec fn disposition_v5_verdict(r: DecisionResultV5) -> Result<(), DecisionV5Error> {
    let fenced = fenced_command_ids(r.commands@);
    match r.disposition {
        DecisionDispositionV5::Completed => if fenced.len() > 0 || r.kernel_checkpoint is None {
            Err(DecisionV5Error::InvalidContract)
        } else {
            Ok(())
        },
        DecisionDispositionV5::AwaitingBrokerOutcome {
            continuation_id,
            continuation_generation,
            awaited_command_id,
        } => if fenced != seq![awaited_command_id@] || !spec_valid_identifier(continuation_id@)
            || continuation_generation == 0 || r.kernel_checkpoint is None {
            Err(DecisionV5Error::InvalidContract)
        } else {
            match first_fence(r.commands@) {
                Some(f) => if f.continuation_id@ != continuation_id@ || f.continuation_generation
                    != continuation_generation {
                    Err(DecisionV5Error::InvalidContract)
                } else {
                    Ok(())
                },
                None => Err(DecisionV5Error::InvalidContract),
            }
        },
        DecisionDispositionV5::Rejected => if r.commands@.len() == 0 {
            Ok(())
        } else {
            Err(DecisionV5Error::InvalidContract)
        },
    }
}

/// What validating a V5 result on its own gives, check by check.
pub open spec fn result_v5_verdict(r: DecisionResultV5) -> Result<(), DecisionV5Error> {
    if !result_v5_bounds_valid(r) {
        Err(DecisionV5Error::BoundExceeded)
    } else if r.kernel_checkpoint is Some && kernel_checkpoint_v5_shape_verdict(
        r.kernel_checkpoint->0,
    ) is Err {
        kernel_checkpoint_v5_shape_verdict(r.kernel_checkpoint->0)
    } else if !(forall|i: int|
        0 <= i < r.evidence@.len() ==> #[trigger] evidence_v5_valid(r.evidence@[i])) || !(
    forall|i: int|
        0 <= i < r.diagnostics@.len() ==> #[trigger] diagnostic_v5_valid(r.diagnostics@[i])) {
        Err(DecisionV5Error::BoundExceeded)
    } else if !command_ids_v5(r.commands@).no_duplicates() {
        Err(DecisionV5Error::DuplicateIdentity)
    } else if commands_v5_verdict(r.commands@, r.expected_broker_revision, r.commands@.len())
        is Err {
        commands_v5_verdict(r.commands@, r.expected_broker_revision, r.commands@.len())
    } else {
        disposition_v5_verdict(r)
    }
}

proof fn lemma_commands_v5_verdict_sticks(s: Seq<StrategyCommandV5>, revision: u64, n: nat, m: nat)
    requires
        n <= m,
        commands_v5_verdict(s, revision, n) is Err,
    ensures
        commands_v5_verdict(s, revision, m) == commands_v5_verdict(s, revision, n),
    decreases m,
{
    if m > n {
        lemma_commands_v5_verdict_sticks(s, revision, n, (m - 1) as nat);
    }
}

fn entries_v5_ok(result: &DecisionResultV5) -> (r: bool)
    ensures
        r == ((forall|i: int|
            0 <= i < result.evidence@.len() ==> #[trigger] evidence_v5_valid(result.evidence@[i]))
            && (forall|i: int|
            0 <= i < result.diagnostics@.len() ==> #[trigger] diagnostic_v5_valid(
                result.diagnostics@[i],
            ))),
{
    let mut i: usize = 0;
    while i < result.evidence.len()
        invariant
            0 <= i <= result.evidence@.len(),
            forall|k: int| 0 <= k < i ==> #[trigger] evidence_v5_valid(result.evidence@[k]),
        decreases result.evidence@.len() - i,
    {
        if !valid_identifier(&result.evidence[i].code) || result.evidence[i].payload.len()
            > MAX_COMMAND_METADATA_BYTES {
            assert(!evidence_v5_valid(result.evidence@[i as int]));
            return false;
        }
        i += 1;
    }
    let mut j: usize = 0;
    while j < result.diagnostics.len()
        invariant
            0 <= j <= result.diagnostics@.len(),
            forall|k: int| 0 <= k < j ==> #[trigger] diagnostic_v5_valid(result.diagnostics@[k]),
        decreases result.diagnostics@.len() - j,
    {
        let d = &result.diagnostics[j];
        if !valid_identifier(&d.severity) || !valid_identifier(&d.code) || !valid_text(
            &d.message,
            MAX_RESULT_DIAGNOSTIC_BYTES,
        ) {
            assert(!diagnostic_v5_valid(result.diagnostics@[j as int]));
            return false;
        }
        j += 1;
    }
    true
}

fn collect_command_ids_v5(commands: &Vec<StrategyCommandV5>) -> (r: Vec<String>)
    ensures
        string_views(r@) == command_ids_v5(commands@),
{
    let mut ids: Vec<String> = Vec::new();
    let mut i: usize = 0;
    while i < commands.len()
        invariant
            0 <= i <= commands@.len(),
            string_views(ids@) =~= command_ids_v5(commands@.take(i as int)),
        decreases commands@.len() - i,
    {
        let ghost before = ids@;
        ids.push(commands[i].command_id().clone());
        proof {
            assert(string_views(ids@) =~= string_views(before).push(
                command_v5_id(commands@[i as int]),
            ));
            assert(command_ids_v5(commands@.take(i + 1)) =~= command_ids_v5(
                commands@.take(i as int),
            ).push(command_v5_id(commands@[i as int])));
        }
        i += 1;
    }
    assert(commands@.take(commands@.len() as int) =~= commands@);
    ids
}

/// The first fence among `s[i..]` is the first fence of `s` when `s[..i]` has none.
proof fn lemma_first_fence_skip(s: Seq<StrategyCommandV5>, i: int)
    requires
        0 <= i <= s.len(),
        forall|k: int| 0 <= k < i ==> command_v5_fence(#[trigger] s[k]) is None,
    ensures
        first_fence(s) == first_fence(s.skip(i)),
    decreases i,
{
    if i == 0 {
        assert(s.skip(0) =~= s);
    } else {
        assert(command_v5_fence(s[0]) is None);
        assert forall|k: int| 0 <= k < i - 1 implies command_v5_fence(
            #[trigger] s.drop_first()[k],
        ) is None by {
            assert(s.drop_first()[k] == s[k + 1]);
            assert(command_v5_fence(s[k + 1]) is None);
        }
        lemma_first_fence_skip(s.drop_first(), i - 1);
        assert(s.drop_first().skip(i - 1) =~= s.skip(i));
    }
}

impl DecisionResultV5 {
    /// Shape, bounds, commands and disposition of the result.
    #[verifier::loop_isolation(false)]
    pub fn validate(&self) -> (r: Result<(), DecisionV5Error>)
        ensures
            r == result_v5_verdict(*self),
    {
        if !valid_identifier(&self.delivery_id) || !valid_identifier(&self.sleeve_identity)
            || !valid_text(&self.state_fence, MAX_SHORT_TEXT_BYTES) || self.commands.len()
            > MAX_STRATEGY_COMMANDS || self.evidence.len() > MAX_RESULT_EVIDENCE
            || self.diagnostics.len() > MAX_RESULT_DIAGNOSTICS {
            return Err(DecisionV5Error::BoundExceeded);
        }
        if let Some(checkpoint) = &self.kernel_checkpoint {
            let shape = validate_kernel_checkpoint_shape(checkpoint);
            if shape.is_err() {
                return shape;
            }
        }
        if !entries_v5_ok(self) {
            return Err(DecisionV5Error::BoundExceeded);
        }
        let ids = collect_command_ids_v5(&self.commands);
        if !strings_unique(&ids) {
            return Err(DecisionV5Error::DuplicateIdentity);
        }
        let mut fenced: Vec<String> = Vec::new();
        let mut first: Option<usize> = None;
        let mut i: usize = 0;
        while i < self.commands.len()
            invariant
                0 <= i <= self.commands@.len(),
                commands_v5_verdict(self.commands@, self.expected_broker_revision, i as nat) is Ok,
                string_views(fenced@) == fenced_command_ids(self.commands@.take(i as int)),
                match first {
                    Some(k) => k < i && command_v5_fence(self.commands@[k as int]) is Some
                        && forall|q: int|
                        0 <= q < k ==> command_v5_fence(#[trigger] self.commands@[q]) is None,
                    None => forall|q: int|
                        0 <= q < i ==> command_v5_fence(#[trigger] self.commands@[q]) is None,
                },
            decreases self.commands@.len() - i,
        {
            let command = &self.commands[i];
            proof {
                assert(self.commands@.take(i + 1).drop_last() =~= self.commands@.take(i as int));
            }
            let checked = validate_command(command);
            if checked.is_err() {
                proof {
                    lemma_commands_v5_verdict_sticks(
                        self.commands@,
                        self.expected_broker_revision,
                        (i + 1) as nat,
                        self.commands@.len(),
                    );
                }
                return checked;
            }
            let ghost before = fenced@;
            if let Some(fence) = command.broker_fence() {
                if fence.expected_broker_revision != self.expected_broker_revision {
                    proof {
                        lemma_commands_v5_verdict_sticks(
                            self.commands@,
                            self.expected_broker_revision,
                            (i + 1) as nat,
                            self.commands@.len(),
                        );
                    }
                    return Err(DecisionV5Error::InvalidContract);
                }
                fenced.push(command.command_id().clone());
                assert(string_views(fenced@) =~= string_views(before).push(
                    command_v5_id(self.commands@[i as int]),
                ));
                if first.is_none() {
                    first = Some(i);
                }
            }
            i += 1;
        }
        assert(self.commands@.take(self.commands@.len() as int) =~= self.commands@);
        match &self.disposition {
            DecisionDispositionV5::Completed => {
                if fenced.len() > 0 || self.kernel_checkpoint.is_none() {
                    return Err(DecisionV5Error::InvalidContract);
                }
                Ok(())
            },
            DecisionDispositionV5::AwaitingBrokerOutcome {
                continuation_id,
                continuation_generation,
                awaited_command_id,
            } => {
                let awaited_only = fenced.len() == 1 && string_eq(&fenced[0], awaited_command_id);
                proof {
                    if fenced@.len() == 1 {
                        assert(string_views(fenced@)[0] == fenced@[0]@);
                        if awaited_only {
                            assert(string_views(fenced@) =~= seq![awaited_command_id@]);
                        }
                    }
                    if string_views(fenced@) == seq![awaited_command_id@] {
                        assert(string_views(fenced@)[0] == fenced@[0]@);
                    }
                }
                if !awaited_only || !valid_identifier(continuation_id) || *continuation_generation
                    == 0 || self.kernel_checkpoint.is_none() {
                    return Err(DecisionV5Error::InvalidContract);
                }
                match first {
                    Some(k) => {
                        proof {
                            lemma_first_fence_skip(self.commands@, k as int);
                            assert(self.commands@.skip(k as int)[0] == self.commands@[k as int]);
                        }
                        let fence = match self.commands[k].broker_fence() {
                            Some(f) => f,
                            None => {
                                return Err(DecisionV5Error::InvalidContract);
                            },
                        };
                        if !string_eq(&fence.continuation_id, continuation_id)
                            || fence.continuation_generation != *continuation_generation {
                            return Err(DecisionV5Error::InvalidContract);
                        }
                        Ok(())
                    },
                    None => {
                        proof {
                            lemma_first_fence_skip(self.commands@, self.commands@.len() as int);
                        }
                        Err(DecisionV5Error::InvalidContract)
                    },
                }
            },
            DecisionDispositionV5::Rejected => {
                if self.commands.len() == 0 {
                    Ok(())
                } else {
                    Err(DecisionV5Error::InvalidContract)
                }
            },
        }
    }
}

} // verus!
