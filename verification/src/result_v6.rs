//! Decision V6 results on their own: bounds, evidence, commands in issue order, and what the
//! disposition requires of the checkpoint, the commands and the acknowledgements.
//!
//! The `order_updates` evidence entries carry order update records on the wire; validation
//! decodes each one and checks the records' identities.
use crate::checkpoint_v6::{
    entry_command_ids, kernel_checkpoint_shape_verdict, validate_kernel_checkpoint_shape,
    collect_command_ids,
};
use crate::command_v6::{command_verdict, telemetry_entry_valid, validate_command};
use crate::decision_v6::{
    CancelTargetV6, DecisionDispositionV6, DecisionResultV6, DecisionV6Error, OrderUpdateRecordV6,
    ResultDiagnosticV6, ResultEvidenceV6, StrategyCommandV6, command_v6_broker_kind,
    command_v6_id, MAX_ACKNOWLEDGED_COMMANDS, MAX_EVIDENCE_PAYLOAD_BYTES,
    MAX_RESULT_DIAGNOSTICS, MAX_RESULT_DIAGNOSTIC_BYTES, MAX_RESULT_EVIDENCE,
    MAX_RESULT_TELEMETRY, MAX_SHORT_TEXT_BYTES, MAX_STRATEGY_COMMANDS,
    ORDER_UPDATES_EVIDENCE_CODE,
};
use crate::read_v6::{decode_order_update_evidence, update_evidence_read};
use crate::text::{
    opt_view, spec_valid_identifier, spec_valid_optional_identifier, spec_valid_text,
    string_eq, string_views, strings_contain, strings_unique, valid_identifier,
    valid_optional_identifier, valid_text,
};
use vstd::prelude::*;
use vstd::string::StringExecFns;

verus! {

/// `order_updates`.
pub open spec fn order_updates_code() -> Seq<char> {
    seq!['o', 'r', 'd', 'e', 'r', '_', 'u', 'p', 'd', 'a', 't', 'e', 's']
}

/// Whether an evidence code is the order updates code.
pub fn is_order_updates_code(code: &String) -> (r: bool)
    ensures
        r == (code@ == order_updates_code()),
{
    proof {
        reveal_strlit("order_updates");
    }
    let expected = String::from_str(ORDER_UPDATES_EVIDENCE_CODE);
    assert(expected@ =~= order_updates_code());
    code.eq(&expected)
}

/// The timer generation of a delivery: `timer.` and the delivery id.
pub open spec fn timer_generation_of(delivery_id: Seq<char>) -> Seq<char> {
    seq!['t', 'i', 'm', 'e', 'r', '.'] + delivery_id
}

pub fn timer_generation_for(delivery_id: &String) -> (r: String)
    ensures
        r@ == timer_generation_of(delivery_id@),
{
    proof {
        reveal_strlit("timer.");
    }
    let mut generation = String::from_str("timer.");
    generation.append(delivery_id.as_str());
    assert(generation@ =~= timer_generation_of(delivery_id@));
    generation
}

// ---------------------------------------------------------------------------------------------
// Order update evidence
// ---------------------------------------------------------------------------------------------

pub open spec fn update_record_ids_valid(r: OrderUpdateRecordV6) -> bool {
    &&& spec_valid_identifier(r.command_id@)
    &&& spec_valid_optional_identifier(opt_view(r.client_order_id))
    &&& spec_valid_optional_identifier(opt_view(r.order_id))
    &&& spec_valid_optional_identifier(opt_view(r.market_id))
}

pub open spec fn update_records_valid(s: Seq<OrderUpdateRecordV6>) -> bool {
    forall|i: int| 0 <= i < s.len() ==> #[trigger] update_record_ids_valid(s[i])
}

/// The identities of decoded order update records are well formed.
pub fn validate_order_update_records(records: &Vec<OrderUpdateRecordV6>) -> (r: Result<
    (),
    DecisionV6Error,
>)
    ensures
        r is Ok <==> update_records_valid(records@),
        r is Err ==> r == Err::<(), DecisionV6Error>(DecisionV6Error::InvalidContract),
{
    let mut i: usize = 0;
    while i < records.len()
        invariant
            0 <= i <= records@.len(),
            forall|k: int| 0 <= k < i ==> #[trigger] update_record_ids_valid(records@[k]),
        decreases records@.len() - i,
    {
        let record = &records[i];
        if !valid_identifier(&record.command_id) || !valid_optional_identifier(
            &record.client_order_id,
        ) || !valid_optional_identifier(&record.order_id) || !valid_optional_identifier(
            &record.market_id,
        ) {
            assert(!update_record_ids_valid(records@[i as int]));
            return Err(DecisionV6Error::InvalidContract);
        }
        i += 1;
    }
    Ok(())
}

/// What an `order_updates` evidence entry gives: its decoding error, or whether its records'
/// identities are well formed.
pub open spec fn update_evidence_verdict(e: ResultEvidenceV6) -> Result<(), DecisionV6Error> {
    match update_evidence_read(e) {
        Err(x) => Err(x),
        Ok(_) => Ok(()),
    }
}

/// The first failing `order_updates` entry among the first `n` evidence entries.
pub open spec fn evidence_updates_verdict(s: Seq<ResultEvidenceV6>, n: nat) -> Result<
    (),
    DecisionV6Error,
>
    decreases n,
{
    if n == 0 {
        Ok(())
    } else {
        let earlier = evidence_updates_verdict(s, (n - 1) as nat);
        if earlier is Err {
            earlier
        } else if s[n - 1].code@ == order_updates_code() {
            update_evidence_verdict(s[n - 1])
        } else {
            Ok(())
        }
    }
}

// ---------------------------------------------------------------------------------------------
// Commands in issue order
// ---------------------------------------------------------------------------------------------

/// The provider client ids of the places among `s`, in order.
pub open spec fn place_client_ids_of(s: Seq<StrategyCommandV6>) -> Seq<Seq<char>>
    decreases s.len(),
{
    if s.len() == 0 {
        Seq::empty()
    } else {
        let rest = place_client_ids_of(s.drop_last());
        match s.last() {
            StrategyCommandV6::PlaceOrder(o) => rest.push(o.provider_client_id@),
            _ => rest,
        }
    }
}

/// The timer keys scheduled or cancelled among `s`, in order.
pub open spec fn timer_keys_of(s: Seq<StrategyCommandV6>) -> Seq<Seq<char>>
    decreases s.len(),
{
    if s.len() == 0 {
        Seq::empty()
    } else {
        let rest = timer_keys_of(s.drop_last());
        match s.last() {
            StrategyCommandV6::ScheduleTimer { key, .. } => rest.push(key@),
            StrategyCommandV6::CancelTimer { key, .. } => rest.push(key@),
            _ => rest,
        }
    }
}

/// One command after the commands issued `earlier` in the same decision: its own bounds, then
/// a fresh client id for a place, a same-decision cancel target among the earlier places, the
/// decision's generation on a schedule, and a fresh key for each timer command.
pub open spec fn command_in_decision_verdict(
    c: StrategyCommandV6,
    earlier: Seq<StrategyCommandV6>,
    generation: Seq<char>,
) -> Result<(), DecisionV6Error> {
    if command_verdict(c) is Err {
        command_verdict(c)
    } else {
        match c {
            StrategyCommandV6::PlaceOrder(o) => if place_client_ids_of(earlier).contains(
                o.provider_client_id@,
            ) {
                Err(DecisionV6Error::DuplicateIdentity)
            } else {
                Ok(())
            },
            StrategyCommandV6::CancelOrder {
                target: CancelTargetV6::SameDecision { provider_client_id },
                ..
            } => if place_client_ids_of(earlier).contains(provider_client_id@) {
                Ok(())
            } else {
                Err(DecisionV6Error::InvalidContract)
            },
            StrategyCommandV6::ScheduleTimer { key, generation: scheduled, .. } => if scheduled@
                != generation {
                Err(DecisionV6Error::InvalidContract)
            } else if timer_keys_of(earlier).contains(key@) {
                Err(DecisionV6Error::DuplicateIdentity)
            } else {
                Ok(())
            },
            StrategyCommandV6::CancelTimer { key, .. } => if timer_keys_of(earlier).contains(
                key@,
            ) {
                Err(DecisionV6Error::DuplicateIdentity)
            } else {
                Ok(())
            },
            _ => Ok(()),
        }
    }
}

/// The first failing command among the first `n`.
pub open spec fn commands_verdict(s: Seq<StrategyCommandV6>, generation: Seq<char>, n: nat) -> Result<
    (),
    DecisionV6Error,
>
    decreases n,
{
    if n == 0 {
        Ok(())
    } else {
        let earlier = commands_verdict(s, generation, (n - 1) as nat);
        if earlier is Err {
            earlier
        } else {
            command_in_decision_verdict(s[n - 1], s.take(n - 1), generation)
        }
    }
}

pub open spec fn command_ids(s: Seq<StrategyCommandV6>) -> Seq<Seq<char>> {
    s.map_values(|c: StrategyCommandV6| command_v6_id(c))
}

// ---------------------------------------------------------------------------------------------
// The result
// ---------------------------------------------------------------------------------------------

pub open spec fn result_bounds_valid(r: DecisionResultV6) -> bool {
    &&& spec_valid_identifier(r.delivery_id@)
    &&& spec_valid_identifier(r.sleeve_identity@)
    &&& spec_valid_text(r.state_fence@, MAX_SHORT_TEXT_BYTES as nat)
    &&& r.commands@.len() <= MAX_STRATEGY_COMMANDS
    &&& r.acknowledged_command_ids@.len() <= MAX_ACKNOWLEDGED_COMMANDS
    &&& r.evidence@.len() <= MAX_RESULT_EVIDENCE
    &&& r.diagnostics@.len() <= MAX_RESULT_DIAGNOSTICS
    &&& r.telemetry@.len() <= MAX_RESULT_TELEMETRY
}

pub open spec fn evidence_entry_valid(e: ResultEvidenceV6) -> bool {
    spec_valid_identifier(e.code@) && e.payload@.len() <= MAX_EVIDENCE_PAYLOAD_BYTES
}

pub open spec fn diagnostic_valid(d: ResultDiagnosticV6) -> bool {
    &&& spec_valid_identifier(d.severity@)
    &&& spec_valid_identifier(d.code@)
    &&& spec_valid_text(d.message@, MAX_RESULT_DIAGNOSTIC_BYTES as nat)
}

pub open spec fn result_entries_valid(r: DecisionResultV6) -> bool {
    &&& forall|i: int|
        0 <= i < r.evidence@.len() ==> #[trigger] evidence_entry_valid(r.evidence@[i])
    &&& forall|i: int|
        0 <= i < r.diagnostics@.len() ==> #[trigger] diagnostic_valid(r.diagnostics@[i])
    &&& forall|i: int|
        0 <= i < r.telemetry@.len() ==> #[trigger] telemetry_entry_valid(r.telemetry@[i])
}

/// A completed result tracks every Broker command it issues in its runner section and
/// acknowledges nothing that is still watched.
pub open spec fn completed_tracking_valid(r: DecisionResultV6) -> bool {
    let watched = entry_command_ids(r.kernel_checkpoint->0.runner.entries@);
    &&& forall|i: int|
        0 <= i < r.commands@.len() ==> (#[trigger] command_v6_broker_kind(r.commands@[i])
            is Some ==> watched.contains(command_v6_id(r.commands@[i])))
    &&& forall|i: int|
        0 <= i < r.acknowledged_command_ids@.len() ==> !watched.contains(
            #[trigger] r.acknowledged_command_ids@[i]@,
        )
}

pub open spec fn disposition_verdict(r: DecisionResultV6) -> Result<(), DecisionV6Error> {
    match r.disposition {
        DecisionDispositionV6::Completed => if r.kernel_checkpoint is None {
            Err(DecisionV6Error::InvalidContract)
        } else if completed_tracking_valid(r) {
            Ok(())
        } else {
            Err(DecisionV6Error::InvalidContract)
        },
        DecisionDispositionV6::Rejected => if r.commands@.len() == 0
            && r.acknowledged_command_ids@.len() == 0 {
            Ok(())
        } else {
            Err(DecisionV6Error::InvalidContract)
        },
    }
}

/// What validating a result on its own gives, check by check.
pub open spec fn result_verdict(r: DecisionResultV6) -> Result<(), DecisionV6Error> {
    let acks = string_views(r.acknowledged_command_ids@);
    if !result_bounds_valid(r) {
        Err(DecisionV6Error::BoundExceeded)
    } else if r.kernel_checkpoint is Some && kernel_checkpoint_shape_verdict(
        r.kernel_checkpoint->0,
    ) is Err {
        kernel_checkpoint_shape_verdict(r.kernel_checkpoint->0)
    } else if !result_entries_valid(r) {
        Err(DecisionV6Error::BoundExceeded)
    } else if evidence_updates_verdict(r.evidence@, r.evidence@.len()) is Err {
        evidence_updates_verdict(r.evidence@, r.evidence@.len())
    } else if !(forall|i: int| 0 <= i < acks.len() ==> #[trigger] spec_valid_identifier(acks[i])) {
        Err(DecisionV6Error::InvalidContract)
    } else if !acks.no_duplicates() || !command_ids(r.commands@).no_duplicates() {
        Err(DecisionV6Error::DuplicateIdentity)
    } else if commands_verdict(
        r.commands@,
        timer_generation_of(r.delivery_id@),
        r.commands@.len(),
    ) is Err {
        commands_verdict(r.commands@, timer_generation_of(r.delivery_id@), r.commands@.len())
    } else {
        disposition_verdict(r)
    }
}

/// Once some entry fails, the verdict over any longer prefix is that first failure.
proof fn lemma_evidence_verdict_sticks(s: Seq<ResultEvidenceV6>, n: nat, m: nat)
    requires
        n <= m,
        evidence_updates_verdict(s, n) is Err,
    ensures
        evidence_updates_verdict(s, m) == evidence_updates_verdict(s, n),
    decreases m,
{
    if m > n {
        lemma_evidence_verdict_sticks(s, n, (m - 1) as nat);
    }
}

/// Once some command fails, the verdict over any longer prefix is that first failure.
proof fn lemma_commands_verdict_sticks(
    s: Seq<StrategyCommandV6>,
    generation: Seq<char>,
    n: nat,
    m: nat,
)
    requires
        n <= m,
        commands_verdict(s, generation, n) is Err,
    ensures
        commands_verdict(s, generation, m) == commands_verdict(s, generation, n),
    decreases m,
{
    if m > n {
        lemma_commands_verdict_sticks(s, generation, n, (m - 1) as nat);
    }
}

fn evidence_entries_ok(evidence: &Vec<ResultEvidenceV6>) -> (r: bool)
    ensures
        r == forall|i: int| 0 <= i < evidence@.len() ==> #[trigger] evidence_entry_valid(evidence@[i]),
{
    let mut i: usize = 0;
    while i < evidence.len()
        invariant
            0 <= i <= evidence@.len(),
            forall|k: int| 0 <= k < i ==> #[trigger] evidence_entry_valid(evidence@[k]),
        decreases evidence@.len() - i,
    {
        if !valid_identifier(&evidence[i].code) || evidence[i].payload.len()
            > MAX_EVIDENCE_PAYLOAD_BYTES {
            assert(!evidence_entry_valid(evidence@[i as int]));
            return false;
        }
        i += 1;
    }
    true
}

fn diagnostics_ok(diagnostics: &Vec<ResultDiagnosticV6>) -> (r: bool)
    ensures
        r == forall|i: int|
            0 <= i < diagnostics@.len() ==> #[trigger] diagnostic_valid(diagnostics@[i]),
{
    let mut i: usize = 0;
    while i < diagnostics.len()
        invariant
            0 <= i <= diagnostics@.len(),
            forall|k: int| 0 <= k < i ==> #[trigger] diagnostic_valid(diagnostics@[k]),
        decreases diagnostics@.len() - i,
    {
        let d = &diagnostics[i];
        if !valid_identifier(&d.severity) || !valid_identifier(&d.code) || !valid_text(
            &d.message,
            MAX_RESULT_DIAGNOSTIC_BYTES,
        ) {
            assert(!diagnostic_valid(diagnostics@[i as int]));
            return false;
        }
        i += 1;
    }
    true
}

fn telemetry_ok(telemetry: &Vec<crate::decision_v6::TelemetryEntryV6>) -> (r: bool)
    ensures
        r == forall|i: int|
            0 <= i < telemetry@.len() ==> #[trigger] telemetry_entry_valid(telemetry@[i]),
{
    let mut i: usize = 0;
    while i < telemetry.len()
        invariant
            0 <= i <= telemetry@.len(),
            forall|k: int| 0 <= k < i ==> #[trigger] telemetry_entry_valid(telemetry@[k]),
        decreases telemetry@.len() - i,
    {
        if !telemetry[i].is_valid() {
            return false;
        }
        i += 1;
    }
    true
}

fn check_order_update_evidence(evidence: &Vec<ResultEvidenceV6>) -> (r: Result<
    (),
    DecisionV6Error,
>)
    ensures
        r == evidence_updates_verdict(evidence@, evidence@.len()),
{
    let mut i: usize = 0;
    while i < evidence.len()
        invariant
            0 <= i <= evidence@.len(),
            evidence_updates_verdict(evidence@, i as nat) is Ok,
        decreases evidence@.len() - i,
    {
        if is_order_updates_code(&evidence[i].code) {
            match decode_order_update_evidence(&evidence[i]) {
                Err(e) => {
                    proof {
                        lemma_evidence_verdict_sticks(evidence@, (i + 1) as nat, evidence@.len());
                    }
                    return Err(e);
                },
                Ok(_) => {},
            }
        }
        i += 1;
    }
    Ok(())
}

fn collect_result_command_ids(commands: &Vec<StrategyCommandV6>) -> (r: Vec<String>)
    ensures
        string_views(r@) == command_ids(commands@),
{
    let mut ids: Vec<String> = Vec::new();
    let mut i: usize = 0;
    while i < commands.len()
        invariant
            0 <= i <= commands@.len(),
            string_views(ids@) =~= command_ids(commands@.take(i as int)),
        decreases commands@.len() - i,
    {
        let ghost before = ids@;
        ids.push(commands[i].command_id().clone());
        proof {
            assert(string_views(ids@) =~= string_views(before).push(
                command_v6_id(commands@[i as int]),
            ));
            assert(command_ids(commands@.take(i + 1)) =~= command_ids(
                commands@.take(i as int),
            ).push(command_v6_id(commands@[i as int])));
        }
        i += 1;
    }
    assert(commands@.take(commands@.len() as int) =~= commands@);
    ids
}

fn check_commands_in_order(commands: &Vec<StrategyCommandV6>, generation: &String) -> (r: Result<
    (),
    DecisionV6Error,
>)
    ensures
        r == commands_verdict(commands@, generation@, commands@.len()),
{
    let mut client_ids: Vec<String> = Vec::new();
    let mut timer_keys: Vec<String> = Vec::new();
    let mut i: usize = 0;
    while i < commands.len()
        invariant
            0 <= i <= commands@.len(),
            string_views(client_ids@) == place_client_ids_of(commands@.take(i as int)),
            string_views(timer_keys@) == timer_keys_of(commands@.take(i as int)),
            commands_verdict(commands@, generation@, i as nat) is Ok,
        decreases commands@.len() - i,
    {
        let command = &commands[i];
        proof {
            let s = commands@.take(i + 1);
            assert(s.drop_last() =~= commands@.take(i as int));
            assert(s.last() == commands@[i as int]);
        }
        let checked = validate_command(command);
        if checked.is_err() {
            proof {
                lemma_commands_verdict_sticks(
                    commands@,
                    generation@,
                    (i + 1) as nat,
                    commands@.len(),
                );
            }
            return checked;
        }
        let ghost clients_before = client_ids@;
        let ghost keys_before = timer_keys@;
        match command {
            StrategyCommandV6::PlaceOrder(order) => {
                if strings_contain(&client_ids, &order.provider_client_id) {
                    proof {
                        lemma_commands_verdict_sticks(
                            commands@,
                            generation@,
                            (i + 1) as nat,
                            commands@.len(),
                        );
                    }
                    return Err(DecisionV6Error::DuplicateIdentity);
                }
                client_ids.push(order.provider_client_id.clone());
                assert(string_views(client_ids@) =~= string_views(clients_before).push(
                    order.provider_client_id@,
                ));
            },
            StrategyCommandV6::CancelOrder {
                target: CancelTargetV6::SameDecision { provider_client_id },
                ..
            } => {
                if !strings_contain(&client_ids, provider_client_id) {
                    proof {
                        lemma_commands_verdict_sticks(
                            commands@,
                            generation@,
                            (i + 1) as nat,
                            commands@.len(),
                        );
                    }
                    return Err(DecisionV6Error::InvalidContract);
                }
            },
            StrategyCommandV6::ScheduleTimer { key, generation: scheduled, .. } => {
                if !string_eq(scheduled, generation) {
                    proof {
                        lemma_commands_verdict_sticks(
                            commands@,
                            generation@,
                            (i + 1) as nat,
                            commands@.len(),
                        );
                    }
                    return Err(DecisionV6Error::InvalidContract);
                }
                if strings_contain(&timer_keys, key) {
                    proof {
                        lemma_commands_verdict_sticks(
                            commands@,
                            generation@,
                            (i + 1) as nat,
                            commands@.len(),
                        );
                    }
                    return Err(DecisionV6Error::DuplicateIdentity);
                }
                timer_keys.push(key.clone());
                assert(string_views(timer_keys@) =~= string_views(keys_before).push(key@));
            },
            StrategyCommandV6::CancelTimer { key, .. } => {
                if strings_contain(&timer_keys, key) {
                    proof {
                        lemma_commands_verdict_sticks(
                            commands@,
                            generation@,
                            (i + 1) as nat,
                            commands@.len(),
                        );
                    }
                    return Err(DecisionV6Error::DuplicateIdentity);
                }
                timer_keys.push(key.clone());
                assert(string_views(timer_keys@) =~= string_views(keys_before).push(key@));
            },
            _ => {},
        }
        i += 1;
    }
    assert(commands@.take(commands@.len() as int) =~= commands@);
    Ok(())
}

fn check_disposition(result: &DecisionResultV6) -> (r: Result<(), DecisionV6Error>)
    ensures
        r == disposition_verdict(*result),
{
    match result.disposition {
        DecisionDispositionV6::Completed => {
            match &result.kernel_checkpoint {
                None => Err(DecisionV6Error::InvalidContract),
                Some(checkpoint) => {
                    let watched = collect_command_ids(&checkpoint.runner.entries);
                    let mut i: usize = 0;
                    while i < result.commands.len()
                        invariant
                            0 <= i <= result.commands@.len(),
                            string_views(watched@) == entry_command_ids(
                                checkpoint.runner.entries@,
                            ),
                            result.kernel_checkpoint == Some(*checkpoint),
                            forall|k: int|
                                0 <= k < i ==> (#[trigger] command_v6_broker_kind(
                                    result.commands@[k],
                                ) is Some ==> string_views(watched@).contains(
                                    command_v6_id(result.commands@[k]),
                                )),
                        decreases result.commands@.len() - i,
                    {
                        let command = &result.commands[i];
                        if command.broker_kind().is_some() && !strings_contain(
                            &watched,
                            command.command_id(),
                        ) {
                            assert(command_v6_broker_kind(result.commands@[i as int]) is Some);
                            return Err(DecisionV6Error::InvalidContract);
                        }
                        i += 1;
                    }
                    let mut j: usize = 0;
                    while j < result.acknowledged_command_ids.len()
                        invariant
                            0 <= j <= result.acknowledged_command_ids@.len(),
                            result.kernel_checkpoint == Some(*checkpoint),
                            completed_tracking_valid(*result) == forall|k: int|
                                0 <= k < result.acknowledged_command_ids@.len()
                                    ==> !string_views(watched@).contains(
                                    #[trigger] result.acknowledged_command_ids@[k]@,
                                ),
                            string_views(watched@) == entry_command_ids(
                                checkpoint.runner.entries@,
                            ),
                            forall|k: int|
                                0 <= k < j ==> !string_views(watched@).contains(
                                    #[trigger] result.acknowledged_command_ids@[k]@,
                                ),
                        decreases result.acknowledged_command_ids@.len() - j,
                    {
                        if strings_contain(&watched, &result.acknowledged_command_ids[j]) {
                            assert(string_views(watched@).contains(
                                result.acknowledged_command_ids@[j as int]@,
                            ));
                            return Err(DecisionV6Error::InvalidContract);
                        }
                        j += 1;
                    }
                    Ok(())
                },
            }
        },
        DecisionDispositionV6::Rejected => {
            if result.commands.len() == 0 && result.acknowledged_command_ids.len() == 0 {
                Ok(())
            } else {
                Err(DecisionV6Error::InvalidContract)
            }
        },
    }
}

fn all_identifiers(values: &Vec<String>) -> (r: bool)
    ensures
        r == forall|i: int|
            0 <= i < values@.len() ==> #[trigger] spec_valid_identifier(
                string_views(values@)[i],
            ),
{
    let mut i: usize = 0;
    while i < values.len()
        invariant
            0 <= i <= values@.len(),
            forall|k: int|
                0 <= k < i ==> #[trigger] spec_valid_identifier(string_views(values@)[k]),
        decreases values@.len() - i,
    {
        if !valid_identifier(&values[i]) {
            assert(!spec_valid_identifier(string_views(values@)[i as int]));
            return false;
        }
        i += 1;
    }
    true
}

impl DecisionResultV6 {
    /// Shape and bounds that need no context.
    pub fn validate(&self) -> (r: Result<(), DecisionV6Error>)
        ensures
            r == result_verdict(*self),
    {
        if !valid_identifier(&self.delivery_id) || !valid_identifier(&self.sleeve_identity)
            || !valid_text(&self.state_fence, MAX_SHORT_TEXT_BYTES) || self.commands.len()
            > MAX_STRATEGY_COMMANDS || self.acknowledged_command_ids.len()
            > MAX_ACKNOWLEDGED_COMMANDS || self.evidence.len() > MAX_RESULT_EVIDENCE
            || self.diagnostics.len() > MAX_RESULT_DIAGNOSTICS || self.telemetry.len()
            > MAX_RESULT_TELEMETRY {
            return Err(DecisionV6Error::BoundExceeded);
        }
        if let Some(checkpoint) = &self.kernel_checkpoint {
            let shape = validate_kernel_checkpoint_shape(checkpoint);
            if shape.is_err() {
                return shape;
            }
        }
        if !evidence_entries_ok(&self.evidence) || !diagnostics_ok(&self.diagnostics)
            || !telemetry_ok(&self.telemetry) {
            return Err(DecisionV6Error::BoundExceeded);
        }
        let updates = check_order_update_evidence(&self.evidence);
        if updates.is_err() {
            return updates;
        }
        if !all_identifiers(&self.acknowledged_command_ids) {
            return Err(DecisionV6Error::InvalidContract);
        }
        let ids = collect_result_command_ids(&self.commands);
        if !strings_unique(&self.acknowledged_command_ids) || !strings_unique(&ids) {
            return Err(DecisionV6Error::DuplicateIdentity);
        }
        let generation = timer_generation_for(&self.delivery_id);
        let commands = check_commands_in_order(&self.commands, &generation);
        if commands.is_err() {
            return commands;
        }
        check_disposition(self)
    }
}

} // verus!
