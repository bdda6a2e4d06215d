//! Decision V6 kernel checkpoints: the runner section and its wire form, the checkpoint digest
//! (which binds the kernel state, the runner section and every codec and scope field), and the
//! checks a checkpoint must pass on its own and against the Strategy it belongs to.
use crate::decision_v6::{
    BrokerCommandKindV6, ContractSideV6, DecisionV6Error, KernelCheckpointV5Layout,
    KernelCheckpointV6, OrderActionV6, OrderUpdateStatusV6, RunnerEntryV6, RunnerSectionV6,
    StrategyScopeV6, update_status_is_terminal, MAX_DELIVERY_ATTEMPTS, MAX_DELIVERY_DEFERRALS,
    MAX_KERNEL_CHECKPOINT_BYTES, MAX_RUNNER_ENTRIES, MAX_RUNNER_SECTION_ENTRIES, MAX_SHORT_TEXT_BYTES,
    MAX_TOMBSTONES, TOMBSTONE_EXPIRY_VIEWS,
};
use crate::digest::{
    all_zero_bytes, be_u32, be_u64, digest_eq, digest_is_zero, extend, extend_framed, framed,
    sha256, sha256_digest, u32_be_bytes, u64_be_bytes,
};
use crate::text::{
    opt_view, spec_valid_identifier, spec_valid_optional_identifier, spec_valid_text, utf8,
    string_bytes, string_eq, strings_unique, string_views, valid_identifier,
    valid_optional_identifier, valid_text,
};
use crate::wire::{
    put, put_opt_str, varint, wire_bool, wire_bool_spec, wire_opt_str_spec, wire_str,
    wire_str_spec, wire_u16, wire_u32, wire_u64, wire_u8,
};
use vstd::prelude::*;

verus! {

/// `strategy-core/decision-v6/checkpoint/v1` and a NUL byte.
pub const CHECKPOINT_DIGEST_DOMAIN: [u8; 40] = [
    115, 116, 114, 97, 116, 101, 103, 121, 45, 99, 111, 114, 101, 47, 100, 101, 99, 105, 115,
    105, 111, 110, 45, 118, 54, 47, 99, 104, 101, 99, 107, 112, 111, 105, 110, 116, 47, 118, 49,
    0,
];

/// `strategy-core/decision-v5/checkpoint/v1` and a NUL byte.
pub const V5_CHECKPOINT_DIGEST_DOMAIN: [u8; 40] = [
    115, 116, 114, 97, 116, 101, 103, 121, 45, 99, 111, 114, 101, 47, 100, 101, 99, 105, 115,
    105, 111, 110, 45, 118, 53, 47, 99, 104, 101, 99, 107, 112, 111, 105, 110, 116, 47, 118, 49,
    0,
];

// ---------------------------------------------------------------------------------------------
// Wire form of the runner section
// ---------------------------------------------------------------------------------------------

pub open spec fn kind_index(k: BrokerCommandKindV6) -> nat {
    match k {
        BrokerCommandKindV6::PlaceOrder => 0,
        BrokerCommandKindV6::CancelOrder => 1,
        BrokerCommandKindV6::CancelAllOrders => 2,
    }
}

pub open spec fn action_index(a: OrderActionV6) -> nat {
    match a {
        OrderActionV6::Buy => 0,
        OrderActionV6::Sell => 1,
    }
}

pub open spec fn side_index(s: ContractSideV6) -> nat {
    match s {
        ContractSideV6::Yes => 0,
        ContractSideV6::No => 1,
    }
}

pub open spec fn update_status_index(s: OrderUpdateStatusV6) -> nat {
    match s {
        OrderUpdateStatusV6::Accepted => 0,
        OrderUpdateStatusV6::Resting => 1,
        OrderUpdateStatusV6::PartiallyFilled => 2,
        OrderUpdateStatusV6::Filled => 3,
        OrderUpdateStatusV6::Cancelled => 4,
        OrderUpdateStatusV6::Expired => 5,
        OrderUpdateStatusV6::Refused { .. } => 6,
    }
}

pub open spec fn wire_update_status_spec(s: OrderUpdateStatusV6) -> Seq<u8> {
    match s {
        OrderUpdateStatusV6::Refused { code, reason } => varint(6) + wire_str_spec(code@)
            + wire_str_spec(reason@),
        _ => varint(update_status_index(s)),
    }
}

pub open spec fn wire_opt_action_spec(a: Option<OrderActionV6>) -> Seq<u8> {
    match a {
        Some(x) => seq![1u8] + varint(action_index(x)),
        None => seq![0u8],
    }
}

pub open spec fn wire_opt_side_spec(s: Option<ContractSideV6>) -> Seq<u8> {
    match s {
        Some(x) => seq![1u8] + varint(side_index(x)),
        None => seq![0u8],
    }
}

pub open spec fn wire_opt_update_status_spec(s: Option<OrderUpdateStatusV6>) -> Seq<u8> {
    match s {
        Some(x) => seq![1u8] + wire_update_status_spec(x),
        None => seq![0u8],
    }
}

/// The first fields of a runner entry on the wire: command id, kind and the three optional
/// identifiers.
pub open spec fn wire_entry_head_spec(e: RunnerEntryV6) -> Seq<u8> {
    wire_str_spec(e.command_id@) + varint(kind_index(e.kind)) + wire_opt_str_spec(
        opt_view(e.client_order_id),
    ) + wire_opt_str_spec(opt_view(e.order_id)) + wire_opt_str_spec(opt_view(e.market_id))
}

/// The order fields of a runner entry on the wire: action, side, quantities and status.
pub open spec fn wire_entry_order_spec(e: RunnerEntryV6) -> Seq<u8> {
    wire_opt_action_spec(e.action) + wire_opt_side_spec(e.side) + varint(
        e.requested_quantity_hundredths as nat,
    ) + wire_opt_update_status_spec(e.last_status) + varint(e.filled_quantity_hundredths as nat)
}

/// The bookkeeping fields of a runner entry on the wire: revisions, tombstone and delivery
/// counters.
pub open spec fn wire_entry_tail_spec(e: RunnerEntryV6) -> Seq<u8> {
    varint(e.order_revision as nat) + varint(e.issued_broker_revision as nat) + wire_bool_spec(
        e.vanished,
    ) + varint(e.vanished_revision as nat) + varint(e.absent_views as nat) + seq![
        e.delivery_failures,
    ] + seq![e.delivery_deferrals]
}

/// One runner entry on the wire: its fields in declaration order.
pub open spec fn wire_runner_entry_spec(e: RunnerEntryV6) -> Seq<u8> {
    wire_entry_head_spec(e) + wire_entry_order_spec(e) + wire_entry_tail_spec(e)
}

pub open spec fn wire_runner_entries_spec(s: Seq<RunnerEntryV6>) -> Seq<u8>
    decreases s.len(),
{
    if s.len() == 0 {
        Seq::empty()
    } else {
        wire_runner_entries_spec(s.drop_last()) + wire_runner_entry_spec(s.last())
    }
}

/// The runner section on the wire: `seeded`, the newest view revision, then the entries as a
/// list.
pub open spec fn wire_runner_section_spec(r: RunnerSectionV6) -> Seq<u8> {
    wire_bool_spec(r.seeded) + varint(r.newest_view_revision as nat) + varint(r.entries@.len())
        + wire_runner_entries_spec(r.entries@)
}

pub(crate) fn kind_code(k: BrokerCommandKindV6) -> (r: u32)
    ensures
        r == kind_index(k),
{
    match k {
        BrokerCommandKindV6::PlaceOrder => 0,
        BrokerCommandKindV6::CancelOrder => 1,
        BrokerCommandKindV6::CancelAllOrders => 2,
    }
}

pub(crate) fn put_opt_action(out: &mut Vec<u8>, a: Option<OrderActionV6>)
    ensures
        final(out)@ == old(out)@ + wire_opt_action_spec(a),
{
    let ghost start = out@;
    match a {
        Some(x) => {
            put(out, wire_u8(1));
            let code: u32 = match x {
                OrderActionV6::Buy => 0,
                OrderActionV6::Sell => 1,
            };
            put(out, wire_u32(code));
            assert(out@ =~= start + wire_opt_action_spec(a));
        },
        None => put(out, wire_u8(0)),
    }
}

pub(crate) fn put_opt_side(out: &mut Vec<u8>, s: Option<ContractSideV6>)
    ensures
        final(out)@ == old(out)@ + wire_opt_side_spec(s),
{
    let ghost start = out@;
    match s {
        Some(x) => {
            put(out, wire_u8(1));
            let code: u32 = match x {
                ContractSideV6::Yes => 0,
                ContractSideV6::No => 1,
            };
            put(out, wire_u32(code));
            assert(out@ =~= start + wire_opt_side_spec(s));
        },
        None => put(out, wire_u8(0)),
    }
}

fn put_opt_update_status(out: &mut Vec<u8>, s: &Option<OrderUpdateStatusV6>)
    ensures
        final(out)@ == old(out)@ + wire_opt_update_status_spec(*s),
{
    let ghost start = out@;
    match s {
        Some(status) => {
            put(out, wire_u8(1));
            match status {
                OrderUpdateStatusV6::Refused { code, reason } => {
                    put(out, wire_u32(6));
                    put(out, wire_str(code));
                    put(out, wire_str(reason));
                },
                OrderUpdateStatusV6::Accepted => put(out, wire_u32(0)),
                OrderUpdateStatusV6::Resting => put(out, wire_u32(1)),
                OrderUpdateStatusV6::PartiallyFilled => put(out, wire_u32(2)),
                OrderUpdateStatusV6::Filled => put(out, wire_u32(3)),
                OrderUpdateStatusV6::Cancelled => put(out, wire_u32(4)),
                OrderUpdateStatusV6::Expired => put(out, wire_u32(5)),
            }
            assert(out@ =~= start + wire_opt_update_status_spec(*s));
        },
        None => put(out, wire_u8(0)),
    }
}

fn put_entry_head(out: &mut Vec<u8>, e: &RunnerEntryV6)
    ensures
        final(out)@ == old(out)@ + wire_entry_head_spec(*e),
{
    let ghost start = out@;
    put(out, wire_str(&e.command_id));
    put(out, wire_u32(kind_code(e.kind)));
    put_opt_str(out, &e.client_order_id);
    put_opt_str(out, &e.order_id);
    put_opt_str(out, &e.market_id);
    assert(out@ =~= start + wire_entry_head_spec(*e));
}

fn put_entry_order(out: &mut Vec<u8>, e: &RunnerEntryV6)
    ensures
        final(out)@ == old(out)@ + wire_entry_order_spec(*e),
{
    let ghost start = out@;
    put_opt_action(out, e.action);
    put_opt_side(out, e.side);
    put(out, wire_u64(e.requested_quantity_hundredths));
    put_opt_update_status(out, &e.last_status);
    put(out, wire_u64(e.filled_quantity_hundredths));
    assert(out@ =~= start + wire_entry_order_spec(*e));
}

fn put_entry_tail(out: &mut Vec<u8>, e: &RunnerEntryV6)
    ensures
        final(out)@ == old(out)@ + wire_entry_tail_spec(*e),
{
    let ghost start = out@;
    put(out, wire_u64(e.order_revision));
    put(out, wire_u64(e.issued_broker_revision));
    put(out, wire_bool(e.vanished));
    put(out, wire_u64(e.vanished_revision));
    put(out, wire_u16(e.absent_views));
    put(out, wire_u8(e.delivery_failures));
    put(out, wire_u8(e.delivery_deferrals));
    assert(out@ =~= start + wire_entry_tail_spec(*e));
}

fn put_runner_entry(out: &mut Vec<u8>, e: &RunnerEntryV6)
    ensures
        final(out)@ == old(out)@ + wire_runner_entry_spec(*e),
{
    let ghost start = out@;
    put_entry_head(out, e);
    put_entry_order(out, e);
    put_entry_tail(out, e);
    assert(out@ =~= start + wire_runner_entry_spec(*e));
}

/// The runner section in the wire configuration.
pub fn encode_runner_section(runner: &RunnerSectionV6) -> (r: Vec<u8>)
    ensures
        r@ == wire_runner_section_spec(*runner),
{
    let mut out: Vec<u8> = Vec::new();
    put(&mut out, wire_bool(runner.seeded));
    put(&mut out, wire_u64(runner.newest_view_revision));
    put(&mut out, wire_u64(runner.entries.len() as u64));
    let ghost head = out@;
    let entries = &runner.entries;
    let mut i: usize = 0;
    while i < entries.len()
        invariant
            0 <= i <= entries@.len(),
            out@ == head + wire_runner_entries_spec(entries@.take(i as int)),
        decreases entries@.len() - i,
    {
        put_runner_entry(&mut out, &entries[i]);
        proof {
            let s = entries@.take(i + 1);
            assert(s.drop_last() =~= entries@.take(i as int));
            assert(s.last() == entries@[i as int]);
        }
        i += 1;
    }
    assert(entries@.take(entries@.len() as int) =~= entries@);
    assert(out@ =~= wire_runner_section_spec(*runner));
    out
}

// ---------------------------------------------------------------------------------------------
// Checkpoint digest
// ---------------------------------------------------------------------------------------------

/// The message the checkpoint digest is taken over: the domain, then each codec and scope
/// field, the state and the encoded runner section, variable ones length-prefixed.
pub open spec fn checkpoint_v6_message(c: KernelCheckpointV6) -> Seq<u8> {
    CHECKPOINT_DIGEST_DOMAIN@ + framed(utf8(c.codec_profile@)) + be_u32(c.codec_version)
        + framed(utf8(c.strategy_id@)) + framed(utf8(c.strategy_profile@)) + framed(
        utf8(c.profile_and_calculator_digest@),
    ) + be_u64(c.sequence) + framed(c.state@) + framed(wire_runner_section_spec(c.runner))
}

pub open spec fn spec_kernel_checkpoint_v6_sha256(c: KernelCheckpointV6) -> Seq<u8> {
    sha256(checkpoint_v6_message(c))
}

/// The digest `state_sha256` must hold: it binds everything in the checkpoint but itself.
pub fn kernel_checkpoint_v6_sha256(checkpoint: &KernelCheckpointV6) -> (r: [u8; 32])
    ensures
        r@ == spec_kernel_checkpoint_v6_sha256(*checkpoint),
{
    let mut message: Vec<u8> = Vec::new();
    extend(&mut message, &CHECKPOINT_DIGEST_DOMAIN);
    extend_framed(&mut message, string_bytes(&checkpoint.codec_profile));
    extend(&mut message, &u32_be_bytes(checkpoint.codec_version));
    extend_framed(&mut message, string_bytes(&checkpoint.strategy_id));
    extend_framed(&mut message, string_bytes(&checkpoint.strategy_profile));
    extend_framed(&mut message, string_bytes(&checkpoint.profile_and_calculator_digest));
    extend(&mut message, &u64_be_bytes(checkpoint.sequence));
    extend_framed(&mut message, checkpoint.state.as_slice());
    let runner = encode_runner_section(&checkpoint.runner);
    extend_framed(&mut message, runner.as_slice());
    assert(message@ =~= checkpoint_v6_message(*checkpoint));
    sha256_digest(message.as_slice())
}

/// The checkpoint with every field but `state_sha256` unchanged.
pub open spec fn same_but_digest(a: KernelCheckpointV6, b: KernelCheckpointV6) -> bool {
    &&& a.codec_profile == b.codec_profile
    &&& a.codec_version == b.codec_version
    &&& a.strategy_id == b.strategy_id
    &&& a.strategy_profile == b.strategy_profile
    &&& a.profile_and_calculator_digest == b.profile_and_calculator_digest
    &&& a.sequence == b.sequence
    &&& a.state == b.state
    &&& a.runner == b.runner
}

impl KernelCheckpointV6 {
    /// Shape, bounds and digest of the checkpoint and its runner section.
    pub fn validate(&self) -> (r: Result<(), DecisionV6Error>)
        ensures
            r == kernel_checkpoint_shape_verdict(*self),
    {
        validate_kernel_checkpoint_shape(self)
    }

    /// Sets `state_sha256` to the digest of the rest of the checkpoint.
    pub fn seal(self) -> (r: Self)
        ensures
            same_but_digest(r, self),
            r.state_sha256@ == spec_kernel_checkpoint_v6_sha256(self),
    {
        let mut sealed = self;
        sealed.state_sha256 = kernel_checkpoint_v6_sha256(&sealed);
        sealed
    }
}

// ---------------------------------------------------------------------------------------------
// Runner section checks
// ---------------------------------------------------------------------------------------------

pub open spec fn tombstone_count(s: Seq<RunnerEntryV6>) -> nat
    decreases s.len(),
{
    if s.len() == 0 {
        0
    } else {
        tombstone_count(s.drop_last()) + if s.last().vanished {
            1nat
        } else {
            0nat
        }
    }
}

pub open spec fn entry_command_ids(s: Seq<RunnerEntryV6>) -> Seq<Seq<char>> {
    s.map_values(|e: RunnerEntryV6| e.command_id@)
}

/// The client order ids of the section's places, in entry order.
pub open spec fn place_client_ids(s: Seq<RunnerEntryV6>) -> Seq<Seq<char>>
    decreases s.len(),
{
    if s.len() == 0 {
        Seq::empty()
    } else {
        let rest = place_client_ids(s.drop_last());
        let e = s.last();
        if e.kind is PlaceOrder && e.client_order_id is Some {
            rest.push(e.client_order_id->0@)
        } else {
            rest
        }
    }
}

/// Delivery counters below their limits, and the tombstone fields set on tombstones only.
pub open spec fn entry_counters_valid(e: RunnerEntryV6) -> bool {
    &&& e.delivery_failures < MAX_DELIVERY_ATTEMPTS
    &&& e.delivery_deferrals < MAX_DELIVERY_DEFERRALS
    &&& (e.vanished || (e.vanished_revision == 0 && e.absent_views == 0))
    &&& e.absent_views < TOMBSTONE_EXPIRY_VIEWS
}

/// The fields each kind of entry carries: a place its order's client id, Market, action, side
/// and a positive quantity, and never a terminal status; a cancel no status; a cancel-all
/// nothing but its command id.
pub open spec fn entry_shape_valid(e: RunnerEntryV6) -> bool {
    &&& spec_valid_identifier(e.command_id@)
    &&& spec_valid_optional_identifier(opt_view(e.client_order_id))
    &&& spec_valid_optional_identifier(opt_view(e.order_id))
    &&& spec_valid_optional_identifier(opt_view(e.market_id))
    &&& e.filled_quantity_hundredths <= e.requested_quantity_hundredths
    &&& e.requested_quantity_hundredths <= i64::MAX
    &&& match e.kind {
        BrokerCommandKindV6::PlaceOrder => {
            &&& e.client_order_id is Some
            &&& e.market_id is Some
            &&& e.action is Some
            &&& e.side is Some
            &&& e.requested_quantity_hundredths > 0
            &&& match e.last_status {
                Some(s) => !update_status_is_terminal(s),
                None => true,
            }
        },
        BrokerCommandKindV6::CancelOrder => e.last_status is None,
        BrokerCommandKindV6::CancelAllOrders => {
            &&& e.last_status is None
            &&& e.client_order_id is None
            &&& e.order_id is None
            &&& e.market_id is None
            &&& e.action is None
            &&& e.side is None
            &&& e.requested_quantity_hundredths == 0
            &&& e.filled_quantity_hundredths == 0
        },
    }
}

/// What validating a runner section gives, check by check.
pub open spec fn runner_section_verdict(r: RunnerSectionV6) -> Result<(), DecisionV6Error> {
    let s = r.entries@;
    if s.len() > MAX_RUNNER_SECTION_ENTRIES || tombstone_count(s) > MAX_TOMBSTONES || s.len()
        - tombstone_count(s) > MAX_RUNNER_ENTRIES {
        Err(DecisionV6Error::BoundExceeded)
    } else if !(forall|i: int| 0 <= i < s.len() ==> #[trigger] entry_counters_valid(s[i])) {
        Err(DecisionV6Error::InvalidContract)
    } else if !entry_command_ids(s).no_duplicates() || !place_client_ids(s).no_duplicates() {
        Err(DecisionV6Error::DuplicateIdentity)
    } else if !(forall|i: int| 0 <= i < s.len() ==> #[trigger] entry_shape_valid(s[i])) {
        Err(DecisionV6Error::InvalidContract)
    } else {
        Ok(())
    }
}

fn count_tombstones(entries: &Vec<RunnerEntryV6>) -> (r: usize)
    ensures
        r == tombstone_count(entries@),
        r <= entries@.len(),
{
    let mut count: usize = 0;
    let mut i: usize = 0;
    while i < entries.len()
        invariant
            0 <= i <= entries@.len(),
            count == tombstone_count(entries@.take(i as int)),
            count <= i,
        decreases entries@.len() - i,
    {
        proof {
            let s = entries@.take(i + 1);
            assert(s.drop_last() =~= entries@.take(i as int));
        }
        if entries[i].vanished {
            count += 1;
        }
        i += 1;
    }
    assert(entries@.take(entries@.len() as int) =~= entries@);
    count
}

pub(crate) fn collect_command_ids(entries: &Vec<RunnerEntryV6>) -> (r: Vec<String>)
    ensures
        string_views(r@) == entry_command_ids(entries@),
{
    let mut ids: Vec<String> = Vec::new();
    let mut i: usize = 0;
    while i < entries.len()
        invariant
            0 <= i <= entries@.len(),
            string_views(ids@) =~= entry_command_ids(entries@.take(i as int)),
        decreases entries@.len() - i,
    {
        let ghost before = ids@;
        ids.push(entries[i].command_id.clone());
        proof {
            assert(string_views(ids@) =~= string_views(before).push(entries@[i as int].command_id@));
            assert(entry_command_ids(entries@.take(i + 1)) =~= entry_command_ids(
                entries@.take(i as int),
            ).push(entries@[i as int].command_id@));
        }
        i += 1;
    }
    assert(entries@.take(entries@.len() as int) =~= entries@);
    ids
}

fn collect_place_client_ids(entries: &Vec<RunnerEntryV6>) -> (r: Vec<String>)
    ensures
        string_views(r@) == place_client_ids(entries@),
{
    let mut ids: Vec<String> = Vec::new();
    let mut i: usize = 0;
    while i < entries.len()
        invariant
            0 <= i <= entries@.len(),
            string_views(ids@) =~= place_client_ids(entries@.take(i as int)),
        decreases entries@.len() - i,
    {
        proof {
            let s = entries@.take(i + 1);
            assert(s.drop_last() =~= entries@.take(i as int));
        }
        let e = &entries[i];
        let ghost before = ids@;
        if matches!(e.kind, BrokerCommandKindV6::PlaceOrder) {
            if let Some(client) = &e.client_order_id {
                ids.push(client.clone());
                assert(string_views(ids@) =~= string_views(before).push(client@));
            }
        }
        assert(string_views(ids@) =~= place_client_ids(entries@.take(i + 1)));
        i += 1;
    }
    assert(entries@.take(entries@.len() as int) =~= entries@);
    ids
}

fn entry_counters_ok(e: &RunnerEntryV6) -> (r: bool)
    ensures
        r == entry_counters_valid(*e),
{
    e.delivery_failures < MAX_DELIVERY_ATTEMPTS && e.delivery_deferrals < MAX_DELIVERY_DEFERRALS
        && (e.vanished || (e.vanished_revision == 0 && e.absent_views == 0)) && e.absent_views
        < TOMBSTONE_EXPIRY_VIEWS
}

fn entry_shape_ok(e: &RunnerEntryV6) -> (r: bool)
    ensures
        r == entry_shape_valid(*e),
{
    let order_fields_valid = valid_optional_identifier(&e.client_order_id)
        && valid_optional_identifier(&e.order_id) && valid_optional_identifier(&e.market_id)
        && e.filled_quantity_hundredths <= e.requested_quantity_hundredths
        && e.requested_quantity_hundredths <= i64::MAX as u64;
    let shape = match e.kind {
        BrokerCommandKindV6::PlaceOrder => {
            e.client_order_id.is_some() && e.market_id.is_some() && e.action.is_some()
                && e.side.is_some() && e.requested_quantity_hundredths > 0 && match &e.last_status {
                Some(status) => !status.is_terminal(),
                None => true,
            }
        },
        BrokerCommandKindV6::CancelOrder => e.last_status.is_none(),
        BrokerCommandKindV6::CancelAllOrders => {
            e.last_status.is_none() && e.client_order_id.is_none() && e.order_id.is_none()
                && e.market_id.is_none() && e.action.is_none() && e.side.is_none()
                && e.requested_quantity_hundredths == 0 && e.filled_quantity_hundredths == 0
        },
    };
    valid_identifier(&e.command_id) && order_fields_valid && shape
}

/// Bounds (at most `MAX_RUNNER_ENTRIES` live entries and `MAX_TOMBSTONES` tombstones),
/// counters, unique command ids and place client ids, and the shape of each entry.
#[verifier::loop_isolation(false)]
pub fn validate_runner_section(runner: &RunnerSectionV6) -> (r: Result<(), DecisionV6Error>)
    ensures
        r == runner_section_verdict(*runner),
{
    let entries = &runner.entries;
    let tombstones = count_tombstones(entries);
    if entries.len() > MAX_RUNNER_SECTION_ENTRIES || tombstones > MAX_TOMBSTONES || entries.len()
        - tombstones > MAX_RUNNER_ENTRIES {
        return Err(DecisionV6Error::BoundExceeded);
    }
    let mut i: usize = 0;
    while i < entries.len()
        invariant
            0 <= i <= entries@.len(),
            forall|k: int| 0 <= k < i ==> #[trigger] entry_counters_valid(entries@[k]),
        decreases entries@.len() - i,
    {
        if !entry_counters_ok(&entries[i]) {
            assert(!entry_counters_valid(runner.entries@[i as int]));
            return Err(DecisionV6Error::InvalidContract);
        }
        i += 1;
    }
    let command_ids = collect_command_ids(entries);
    let client_ids = collect_place_client_ids(entries);
    if !strings_unique(&command_ids) || !strings_unique(&client_ids) {
        return Err(DecisionV6Error::DuplicateIdentity);
    }
    let mut j: usize = 0;
    while j < entries.len()
        invariant
            0 <= j <= entries@.len(),
            forall|k: int| 0 <= k < j ==> #[trigger] entry_shape_valid(entries@[k]),
        decreases entries@.len() - j,
    {
        if !entry_shape_ok(&entries[j]) {
            assert(!entry_shape_valid(runner.entries@[j as int]));
            return Err(DecisionV6Error::InvalidContract);
        }
        j += 1;
    }
    Ok(())
}

// ---------------------------------------------------------------------------------------------
// Checkpoint checks
// ---------------------------------------------------------------------------------------------

/// The codec and scope fields are well formed and the state is present.
pub open spec fn checkpoint_fields_valid(c: KernelCheckpointV6) -> bool {
    &&& spec_valid_identifier(c.codec_profile@)
    &&& c.codec_version != 0
    &&& spec_valid_identifier(c.strategy_id@)
    &&& spec_valid_identifier(c.strategy_profile@)
    &&& spec_valid_text(c.profile_and_calculator_digest@, MAX_SHORT_TEXT_BYTES as nat)
    &&& c.sequence != 0
    &&& c.state@.len() != 0
}

/// What checking a checkpoint on its own gives, check by check.
pub open spec fn kernel_checkpoint_shape_verdict(c: KernelCheckpointV6) -> Result<
    (),
    DecisionV6Error,
> {
    if c.state@.len() > MAX_KERNEL_CHECKPOINT_BYTES {
        Err(DecisionV6Error::BoundExceeded)
    } else if runner_section_verdict(c.runner) is Err {
        runner_section_verdict(c.runner)
    } else if !checkpoint_fields_valid(c) || all_zero_bytes(c.state_sha256@) || c.state_sha256@
        != spec_kernel_checkpoint_v6_sha256(c) {
        Err(DecisionV6Error::InvalidContract)
    } else {
        Ok(())
    }
}

pub fn validate_kernel_checkpoint_shape(checkpoint: &KernelCheckpointV6) -> (r: Result<
    (),
    DecisionV6Error,
>)
    ensures
        r == kernel_checkpoint_shape_verdict(*checkpoint),
{
    if checkpoint.state.len() > MAX_KERNEL_CHECKPOINT_BYTES {
        return Err(DecisionV6Error::BoundExceeded);
    }
    let runner = validate_runner_section(&checkpoint.runner);
    if runner.is_err() {
        return runner;
    }
    let expected = kernel_checkpoint_v6_sha256(checkpoint);
    if !valid_identifier(&checkpoint.codec_profile) || checkpoint.codec_version == 0
        || !valid_identifier(&checkpoint.strategy_id) || !valid_identifier(
        &checkpoint.strategy_profile,
    ) || !valid_text(&checkpoint.profile_and_calculator_digest, MAX_SHORT_TEXT_BYTES)
        || checkpoint.sequence == 0 || checkpoint.state.len() == 0 || digest_is_zero(
        &checkpoint.state_sha256,
    ) || !digest_eq(&checkpoint.state_sha256, &expected) {
        return Err(DecisionV6Error::InvalidContract);
    }
    Ok(())
}

/// The checkpoint belongs to the Strategy's id, profile and profile digest.
pub open spec fn checkpoint_matches_scope(c: KernelCheckpointV6, s: StrategyScopeV6) -> bool {
    &&& c.strategy_id@ == s.strategy_id@
    &&& c.strategy_profile@ == s.profile@
    &&& c.profile_and_calculator_digest@ == s.profile_and_calculator_digest@
}

pub open spec fn kernel_checkpoint_verdict(s: StrategyScopeV6, c: KernelCheckpointV6) -> Result<
    (),
    DecisionV6Error,
> {
    if kernel_checkpoint_shape_verdict(c) is Err {
        kernel_checkpoint_shape_verdict(c)
    } else if !checkpoint_matches_scope(c, s) {
        Err(DecisionV6Error::InvalidContract)
    } else {
        Ok(())
    }
}

/// Checks a checkpoint on its own and against the Strategy it belongs to.
pub fn validate_kernel_checkpoint(
    strategy: &StrategyScopeV6,
    checkpoint: &KernelCheckpointV6,
) -> (r: Result<(), DecisionV6Error>)
    ensures
        r == kernel_checkpoint_verdict(*strategy, *checkpoint),
{
    let shape = validate_kernel_checkpoint_shape(checkpoint);
    if shape.is_err() {
        return shape;
    }
    if !string_eq(&checkpoint.strategy_id, &strategy.strategy_id) || !string_eq(
        &checkpoint.strategy_profile,
        &strategy.profile,
    ) || !string_eq(
        &checkpoint.profile_and_calculator_digest,
        &strategy.profile_and_calculator_digest,
    ) {
        return Err(DecisionV6Error::InvalidContract);
    }
    Ok(())
}

// ---------------------------------------------------------------------------------------------
// V5 checkpoints
// ---------------------------------------------------------------------------------------------

/// The message of a Decision V5 checkpoint digest: the V6 message without a runner section,
/// under the V5 domain.
pub open spec fn checkpoint_v5_layout_message(c: KernelCheckpointV5Layout) -> Seq<u8> {
    V5_CHECKPOINT_DIGEST_DOMAIN@ + framed(utf8(c.codec_profile@)) + be_u32(c.codec_version)
        + framed(utf8(c.strategy_id@)) + framed(utf8(c.strategy_profile@)) + framed(
        utf8(c.profile_and_calculator_digest@),
    ) + be_u64(c.sequence) + framed(c.state@)
}

fn checkpoint_v5_layout_sha256(c: &KernelCheckpointV5Layout) -> (r: [u8; 32])
    ensures
        r@ == sha256(checkpoint_v5_layout_message(*c)),
{
    let mut message: Vec<u8> = Vec::new();
    extend(&mut message, &V5_CHECKPOINT_DIGEST_DOMAIN);
    extend_framed(&mut message, string_bytes(&c.codec_profile));
    extend(&mut message, &u32_be_bytes(c.codec_version));
    extend_framed(&mut message, string_bytes(&c.strategy_id));
    extend_framed(&mut message, string_bytes(&c.strategy_profile));
    extend_framed(&mut message, string_bytes(&c.profile_and_calculator_digest));
    extend(&mut message, &u64_be_bytes(c.sequence));
    extend_framed(&mut message, c.state.as_slice());
    assert(message@ =~= checkpoint_v5_layout_message(*c));
    sha256_digest(message.as_slice())
}

/// The V6 checkpoint a V5 one becomes: the same codec, scope, sequence and state, an empty
/// runner section that is not yet seeded, and the V6 digest.
pub open spec fn converted_from_v5(r: KernelCheckpointV6, c: KernelCheckpointV5Layout) -> bool {
    &&& r.codec_profile == c.codec_profile
    &&& r.codec_version == c.codec_version
    &&& r.strategy_id == c.strategy_id
    &&& r.strategy_profile == c.strategy_profile
    &&& r.profile_and_calculator_digest == c.profile_and_calculator_digest
    &&& r.sequence == c.sequence
    &&& r.state == c.state
    &&& !r.runner.seeded
    &&& r.runner.newest_view_revision == 0
    &&& r.runner.entries@.len() == 0
    &&& r.state_sha256@ == spec_kernel_checkpoint_v6_sha256(r)
}

/// Converts a checkpoint saved under Decision V5. The kernel's state bytes carry over unchanged
/// (each kernel's codec owns its versions) and the runner section starts empty, so the first
/// decision records the current Broker state as seen without emitting updates.
///
/// Fails with `InvalidContract` when the V5 digest does not match, and with the V6 checkpoint
/// error when the converted checkpoint is not valid.
pub fn convert_v5_kernel_checkpoint(checkpoint: KernelCheckpointV5Layout) -> (r: Result<
    KernelCheckpointV6,
    DecisionV6Error,
>)
    ensures
        checkpoint.state_sha256@ != sha256(checkpoint_v5_layout_message(checkpoint)) ==> r
            == Err::<KernelCheckpointV6, DecisionV6Error>(DecisionV6Error::InvalidContract),
        checkpoint.state_sha256@ == sha256(checkpoint_v5_layout_message(checkpoint)) ==> match r {
            Ok(c) => converted_from_v5(c, checkpoint) && kernel_checkpoint_shape_verdict(c) is Ok,
            Err(e) => exists|c: KernelCheckpointV6|
                converted_from_v5(c, checkpoint) && kernel_checkpoint_shape_verdict(c) == Err::<
                    (),
                    DecisionV6Error,
                >(e),
        },
{
    let ghost given = checkpoint;
    let v5_digest = checkpoint_v5_layout_sha256(&checkpoint);
    if !digest_eq(&checkpoint.state_sha256, &v5_digest) {
        return Err(DecisionV6Error::InvalidContract);
    }
    let converted = KernelCheckpointV6 {
        codec_profile: checkpoint.codec_profile,
        codec_version: checkpoint.codec_version,
        strategy_id: checkpoint.strategy_id,
        strategy_profile: checkpoint.strategy_profile,
        profile_and_calculator_digest: checkpoint.profile_and_calculator_digest,
        sequence: checkpoint.sequence,
        state: checkpoint.state,
        runner: RunnerSectionV6 { seeded: false, newest_view_revision: 0, entries: Vec::new() },
        state_sha256: [0u8; 32],
    }.seal();
    let checked = converted.validate();
    assert(converted_from_v5(converted, given));
    match checked {
        Ok(()) => Ok(converted),
        Err(e) => Err(e),
    }
}

} // verus!
