//! What validating a Decision V6 result reads of it is its view: two results with the same
//! model get the same verdict.
use crate::checkpoint_v6::{
    checkpoint_v6_message, entry_command_ids, entry_counters_valid, entry_shape_valid,
    kernel_checkpoint_shape_verdict, place_client_ids, runner_section_verdict, tombstone_count,
    wire_opt_update_status_spec, wire_runner_entries_spec, wire_runner_entry_spec,
    wire_runner_section_spec, wire_update_status_spec,
};
use crate::command_v6::{
    command_verdict, place_order_valid, telemetry_entry_valid, telemetry_field_valid,
    telemetry_fields, telemetry_name,
};
use crate::decision_v6::{
    command_v6_broker_kind, command_v6_id, update_status_is_terminal, DecisionResultV6,
    KernelCheckpointV6, OrderUpdateStatusV6, ResultEvidenceV6, RunnerEntryV6, StrategyCommandV6,
    TelemetryEntryV6,
};
use crate::result_read_v6::{
    command_v6_viewer, diagnostic_v6_viewer, entry_viewer, evidence_v6_viewer, field_viewer,
    string_viewer, telemetry_viewer,
};
use crate::result_v6::{
    command_ids, commands_verdict, completed_tracking_valid, diagnostic_valid, disposition_verdict, evidence_entry_valid,
    evidence_updates_verdict, place_client_ids_of, result_bounds_valid, result_entries_valid,
    result_verdict, timer_keys_of, update_evidence_verdict,
};
use crate::text::string_views;
use vstd::prelude::*;

verus! {

// ---------------------------------------------------------------------------------------------
// The checkpoint
// ---------------------------------------------------------------------------------------------

proof fn lemma_status_congruent(s: OrderUpdateStatusV6, t: OrderUpdateStatusV6)
    requires
        s@ == t@,
    ensures
        wire_update_status_spec(s) == wire_update_status_spec(t),
        update_status_is_terminal(s) == update_status_is_terminal(t),
{
}

proof fn lemma_entry_congruent(e: RunnerEntryV6, f: RunnerEntryV6)
    requires
        e@ == f@,
    ensures
        wire_runner_entry_spec(e) == wire_runner_entry_spec(f),
        entry_shape_valid(e) == entry_shape_valid(f),
        entry_counters_valid(e) == entry_counters_valid(f),
        e.vanished == f.vanished,
        e.command_id@ == f.command_id@,
        e.kind == f.kind,
        e.client_order_id is Some <==> f.client_order_id is Some,
        e.client_order_id is Some ==> e.client_order_id->0@ == f.client_order_id->0@,
{
    assert(e@.last_status == f@.last_status);
    match (e.last_status, f.last_status) {
        (Some(x), Some(y)) => {
            lemma_status_congruent(x, y);
        },
        _ => {},
    }
    assert(wire_opt_update_status_spec(e.last_status) == wire_opt_update_status_spec(
        f.last_status,
    ));
    assert(e@.client_order_id == f@.client_order_id);
}

/// Two entry lists with the same models, taken element by element.
proof fn lemma_entries_same(s: Seq<RunnerEntryV6>, t: Seq<RunnerEntryV6>)
    requires
        s.map_values(entry_viewer()) == t.map_values(entry_viewer()),
    ensures
        s.len() == t.len(),
        forall|i: int| 0 <= i < s.len() ==> (#[trigger] s[i])@ == t[i]@,
{
    assert(s.map_values(entry_viewer()).len() == s.len());
    assert(t.map_values(entry_viewer()).len() == t.len());
    assert forall|i: int| 0 <= i < s.len() implies (#[trigger] s[i])@ == t[i]@ by {
        assert(s.map_values(entry_viewer())[i] == s[i]@);
        assert(t.map_values(entry_viewer())[i] == t[i]@);
    }
}

proof fn lemma_entries_congruent(s: Seq<RunnerEntryV6>, t: Seq<RunnerEntryV6>)
    requires
        s.map_values(entry_viewer()) == t.map_values(entry_viewer()),
    ensures
        wire_runner_entries_spec(s) == wire_runner_entries_spec(t),
        tombstone_count(s) == tombstone_count(t),
        place_client_ids(s) == place_client_ids(t),
        entry_command_ids(s) == entry_command_ids(t),
    decreases s.len(),
{
    lemma_entries_same(s, t);
    if s.len() > 0 {
        assert(s.drop_last().map_values(entry_viewer()) =~= t.drop_last().map_values(
            entry_viewer(),
        ));
        lemma_entries_congruent(s.drop_last(), t.drop_last());
        lemma_entry_congruent(s.last(), t.last());
        assert forall|i: int| 0 <= i < s.len() implies entry_command_ids(s)[i] == entry_command_ids(
            t,
        )[i] by {
            lemma_entry_congruent(s[i], t[i]);
        }
        assert(entry_command_ids(s) =~= entry_command_ids(t));
    } else {
        assert(entry_command_ids(s) =~= entry_command_ids(t));
    }
}

proof fn lemma_checkpoint_congruent(c: KernelCheckpointV6, d: KernelCheckpointV6)
    requires
        c@ == d@,
    ensures
        kernel_checkpoint_shape_verdict(c) == kernel_checkpoint_shape_verdict(d),
        entry_command_ids(c.runner.entries@) == entry_command_ids(d.runner.entries@),
{
    let s = c.runner.entries@;
    let t = d.runner.entries@;
    assert(c@.runner.entries == d@.runner.entries);
    lemma_entries_congruent(s, t);
    lemma_entries_same(s, t);
    assert forall|i: int|
        #![trigger entry_shape_valid(s[i])]
        #![trigger entry_shape_valid(t[i])]
        0 <= i < s.len() implies entry_shape_valid(s[i]) == entry_shape_valid(t[i])
        && entry_counters_valid(s[i]) == entry_counters_valid(t[i]) by {
        lemma_entry_congruent(s[i], t[i]);
    }
    assert((forall|i: int| 0 <= i < s.len() ==> #[trigger] entry_counters_valid(s[i])) == (
    forall|i: int| 0 <= i < t.len() ==> #[trigger] entry_counters_valid(t[i]))) by {
        assert forall|i: int|
            #![trigger entry_counters_valid(s[i])]
            #![trigger entry_counters_valid(t[i])]
            0 <= i < s.len() implies entry_counters_valid(s[i]) == entry_counters_valid(t[i]) by {
            lemma_entry_congruent(s[i], t[i]);
        }
    }
    assert(runner_section_verdict(c.runner) == runner_section_verdict(d.runner));
    assert(wire_runner_section_spec(c.runner) == wire_runner_section_spec(d.runner));
    assert(checkpoint_v6_message(c) == checkpoint_v6_message(d));
}

// ---------------------------------------------------------------------------------------------
// Commands
// ---------------------------------------------------------------------------------------------

proof fn lemma_commands_same(s: Seq<StrategyCommandV6>, t: Seq<StrategyCommandV6>)
    requires
        s.map_values(command_v6_viewer()) == t.map_values(command_v6_viewer()),
    ensures
        s.len() == t.len(),
        forall|i: int| 0 <= i < s.len() ==> (#[trigger] s[i])@ == t[i]@,
{
    assert(s.map_values(command_v6_viewer()).len() == s.len());
    assert(t.map_values(command_v6_viewer()).len() == t.len());
    assert forall|i: int| 0 <= i < s.len() implies (#[trigger] s[i])@ == t[i]@ by {
        assert(s.map_values(command_v6_viewer())[i] == s[i]@);
        assert(t.map_values(command_v6_viewer())[i] == t[i]@);
    }
}

proof fn lemma_command_congruent(c: StrategyCommandV6, d: StrategyCommandV6)
    requires
        c@ == d@,
    ensures
        command_v6_id(c) == command_v6_id(d),
        command_verdict(c) == command_verdict(d),
        command_v6_broker_kind(c) == command_v6_broker_kind(d),
{
    match (c, d) {
        (StrategyCommandV6::PlaceOrder(x), StrategyCommandV6::PlaceOrder(y)) => {
            assert(x@ == y@);
            assert(x.command_id@ == y.command_id@);
            assert(place_order_valid(x) == place_order_valid(y));
        },
        (
            StrategyCommandV6::CancelOrder { target: x, .. },
            StrategyCommandV6::CancelOrder { target: y, .. },
        ) => {
            assert(x@ == y@);
        },
        _ => {},
    }
}

proof fn lemma_command_lists_congruent(s: Seq<StrategyCommandV6>, t: Seq<StrategyCommandV6>)
    requires
        s.map_values(command_v6_viewer()) == t.map_values(command_v6_viewer()),
    ensures
        place_client_ids_of(s) == place_client_ids_of(t),
        timer_keys_of(s) == timer_keys_of(t),
        command_ids(s) == command_ids(t),
    decreases s.len(),
{
    lemma_commands_same(s, t);
    assert forall|i: int| 0 <= i < s.len() implies command_ids(s)[i] == command_ids(t)[i] by {
        lemma_command_congruent(s[i], t[i]);
    }
    assert(command_ids(s) =~= command_ids(t));
    if s.len() > 0 {
        assert(s.drop_last().map_values(command_v6_viewer()) =~= t.drop_last().map_values(
            command_v6_viewer(),
        ));
        lemma_command_lists_congruent(s.drop_last(), t.drop_last());
        let x = s.last();
        let y = t.last();
        assert(x@ == y@);
        match (x, y) {
            (StrategyCommandV6::PlaceOrder(o), StrategyCommandV6::PlaceOrder(q)) => {
                assert(o@ == q@);
            },
            _ => {},
        }
    }
}

proof fn lemma_prefix_models(s: Seq<StrategyCommandV6>, t: Seq<StrategyCommandV6>, k: int)
    requires
        s.map_values(command_v6_viewer()) == t.map_values(command_v6_viewer()),
        0 <= k <= s.len(),
    ensures
        s.take(k).map_values(command_v6_viewer()) == t.take(k).map_values(command_v6_viewer()),
{
    lemma_commands_same(s, t);
    assert(s.take(k).map_values(command_v6_viewer()) =~= t.take(k).map_values(command_v6_viewer()));
}

proof fn lemma_commands_verdict_congruent(
    s: Seq<StrategyCommandV6>,
    t: Seq<StrategyCommandV6>,
    generation: Seq<char>,
    n: nat,
)
    requires
        s.map_values(command_v6_viewer()) == t.map_values(command_v6_viewer()),
        n <= s.len(),
    ensures
        commands_verdict(s, generation, n) == commands_verdict(t, generation, n),
    decreases n,
{
    if n > 0 {
        lemma_commands_same(s, t);
        lemma_commands_verdict_congruent(s, t, generation, (n - 1) as nat);
        lemma_prefix_models(s, t, n - 1);
        lemma_command_lists_congruent(s.take(n - 1), t.take(n - 1));
        let c = s[n - 1];
        let d = t[n - 1];
        lemma_command_congruent(c, d);
        match (c, d) {
            (StrategyCommandV6::PlaceOrder(o), StrategyCommandV6::PlaceOrder(q)) => {
                assert(o@ == q@);
            },
            (
                StrategyCommandV6::CancelOrder { target: x, .. },
                StrategyCommandV6::CancelOrder { target: y, .. },
            ) => {
                assert(x@ == y@);
            },
            _ => {},
        }
    }
}

// ---------------------------------------------------------------------------------------------
// Evidence, diagnostics and telemetry
// ---------------------------------------------------------------------------------------------

proof fn lemma_telemetry_congruent(x: TelemetryEntryV6, y: TelemetryEntryV6)
    requires
        x@ == y@,
    ensures
        telemetry_entry_valid(x) == telemetry_entry_valid(y),
{
    let fx = telemetry_fields(x);
    let fy = telemetry_fields(y);
    assert(fx.map_values(field_viewer()) == fy.map_values(field_viewer()));
    assert(fx.map_values(field_viewer()).len() == fx.len());
    assert(fy.map_values(field_viewer()).len() == fy.len());
    assert forall|i: int|
        #![trigger telemetry_field_valid(fx[i])]
        #![trigger telemetry_field_valid(fy[i])]
        0 <= i < fx.len() implies telemetry_field_valid(fx[i]) == telemetry_field_valid(fy[i]) by {
        assert(fx.map_values(field_viewer())[i] == field_viewer()(fx[i]));
        assert(fy.map_values(field_viewer())[i] == field_viewer()(fy[i]));
    }
    assert(telemetry_name(x) == telemetry_name(y));
}

proof fn lemma_evidence_verdict_congruent(s: Seq<ResultEvidenceV6>, t: Seq<ResultEvidenceV6>, n: nat)
    requires
        s.map_values(evidence_v6_viewer()) == t.map_values(evidence_v6_viewer()),
        n <= s.len(),
    ensures
        evidence_updates_verdict(s, n) == evidence_updates_verdict(t, n),
    decreases n,
{
    assert(s.map_values(evidence_v6_viewer()).len() == s.len());
    assert(t.map_values(evidence_v6_viewer()).len() == t.len());
    if n > 0 {
        lemma_evidence_verdict_congruent(s, t, (n - 1) as nat);
        assert(s.map_values(evidence_v6_viewer())[n - 1] == evidence_v6_viewer()(s[n - 1]));
        assert(t.map_values(evidence_v6_viewer())[n - 1] == evidence_v6_viewer()(t[n - 1]));
        assert(s[n - 1].code@ == t[n - 1].code@);
        assert(s[n - 1].payload@ == t[n - 1].payload@);
        assert(update_evidence_verdict(s[n - 1]) == update_evidence_verdict(t[n - 1]));
    }
}

proof fn lemma_entries_valid_congruent(a: DecisionResultV6, b: DecisionResultV6)
    requires
        a@ == b@,
    ensures
        result_entries_valid(a) == result_entries_valid(b),
        result_bounds_valid(a) == result_bounds_valid(b),
{
    let ea = a.evidence@;
    let eb = b.evidence@;
    assert(ea.map_values(evidence_v6_viewer()).len() == ea.len());
    assert(eb.map_values(evidence_v6_viewer()).len() == eb.len());
    assert forall|i: int|
        #![trigger evidence_entry_valid(ea[i])]
        #![trigger evidence_entry_valid(eb[i])]
        0 <= i < ea.len() implies evidence_entry_valid(ea[i]) == evidence_entry_valid(eb[i]) by {
        assert(ea.map_values(evidence_v6_viewer())[i] == evidence_v6_viewer()(ea[i]));
        assert(eb.map_values(evidence_v6_viewer())[i] == evidence_v6_viewer()(eb[i]));
    }
    let da = a.diagnostics@;
    let db = b.diagnostics@;
    assert(da.map_values(diagnostic_v6_viewer()).len() == da.len());
    assert(db.map_values(diagnostic_v6_viewer()).len() == db.len());
    assert forall|i: int|
        #![trigger diagnostic_valid(da[i])]
        #![trigger diagnostic_valid(db[i])]
        0 <= i < da.len() implies diagnostic_valid(da[i]) == diagnostic_valid(db[i]) by {
        assert(da.map_values(diagnostic_v6_viewer())[i] == diagnostic_v6_viewer()(da[i]));
        assert(db.map_values(diagnostic_v6_viewer())[i] == diagnostic_v6_viewer()(db[i]));
    }
    let ta = a.telemetry@;
    let tb = b.telemetry@;
    assert(ta.map_values(telemetry_viewer()).len() == ta.len());
    assert(tb.map_values(telemetry_viewer()).len() == tb.len());
    assert forall|i: int|
        #![trigger telemetry_entry_valid(ta[i])]
        #![trigger telemetry_entry_valid(tb[i])]
        0 <= i < ta.len() implies telemetry_entry_valid(ta[i]) == telemetry_entry_valid(tb[i]) by {
        assert(ta.map_values(telemetry_viewer())[i] == ta[i]@);
        assert(tb.map_values(telemetry_viewer())[i] == tb[i]@);
        lemma_telemetry_congruent(ta[i], tb[i]);
    }
    assert(a.commands@.map_values(command_v6_viewer()).len() == a.commands@.len());
    assert(b.commands@.map_values(command_v6_viewer()).len() == b.commands@.len());
    assert(a.acknowledged_command_ids@.map_values(string_viewer()).len()
        == a.acknowledged_command_ids@.len());
    assert(b.acknowledged_command_ids@.map_values(string_viewer()).len()
        == b.acknowledged_command_ids@.len());
}

proof fn lemma_acks_congruent(a: DecisionResultV6, b: DecisionResultV6)
    requires
        a@ == b@,
    ensures
        string_views(a.acknowledged_command_ids@) == string_views(b.acknowledged_command_ids@),
{
    let x = a.acknowledged_command_ids@;
    let y = b.acknowledged_command_ids@;
    assert(x.map_values(string_viewer()) == y.map_values(string_viewer()));
    assert(x.map_values(string_viewer()).len() == x.len());
    assert(y.map_values(string_viewer()).len() == y.len());
    assert forall|i: int| 0 <= i < x.len() implies string_views(x)[i] == string_views(y)[i] by {
        assert(x.map_values(string_viewer())[i] == x[i]@);
        assert(y.map_values(string_viewer())[i] == y[i]@);
    }
    assert(string_views(x) =~= string_views(y));
}

proof fn lemma_disposition_congruent(a: DecisionResultV6, b: DecisionResultV6)
    requires
        a@ == b@,
    ensures
        disposition_verdict(a) == disposition_verdict(b),
{
    lemma_commands_same(a.commands@, b.commands@);
    lemma_acks_congruent(a, b);
    let xa = a.acknowledged_command_ids@;
    let xb = b.acknowledged_command_ids@;
    assert(string_views(xa).len() == xa.len());
    assert(string_views(xb).len() == xb.len());
    if a.kernel_checkpoint is Some {
        let c = a.kernel_checkpoint->0;
        let d = b.kernel_checkpoint->0;
        assert(c@ == d@);
        lemma_checkpoint_congruent(c, d);
        let watched = entry_command_ids(c.runner.entries@);
        let ca = a.commands@;
        let cb = b.commands@;
        assert forall|i: int|
            #![trigger command_v6_broker_kind(ca[i])]
            #![trigger command_v6_broker_kind(cb[i])]
            0 <= i < ca.len() implies command_v6_broker_kind(ca[i]) == command_v6_broker_kind(
            cb[i],
        ) && command_v6_id(ca[i]) == command_v6_id(cb[i]) by {
            lemma_command_congruent(ca[i], cb[i]);
        }
        assert forall|i: int|
            #![trigger xa[i]]
            #![trigger xb[i]]
            0 <= i < xa.len() implies xa[i]@ == xb[i]@ by {
            assert(string_views(xa)[i] == xa[i]@);
            assert(string_views(xb)[i] == xb[i]@);
        }
        assert(completed_tracking_valid(a) == completed_tracking_valid(b));
    }
}

/// Whether a result is valid, and the error when it is not, depend on its model alone.
pub proof fn result_v6_verdict_depends_on_model(a: DecisionResultV6, b: DecisionResultV6)
    requires
        a@ == b@,
    ensures
        result_verdict(a) == result_verdict(b),
{
    lemma_entries_valid_congruent(a, b);
    if a.kernel_checkpoint is Some {
        assert(a.kernel_checkpoint->0@ == b.kernel_checkpoint->0@);
        lemma_checkpoint_congruent(a.kernel_checkpoint->0, b.kernel_checkpoint->0);
    }
    assert(a.evidence@.map_values(evidence_v6_viewer()).len() == a.evidence@.len());
    assert(b.evidence@.map_values(evidence_v6_viewer()).len() == b.evidence@.len());
    lemma_evidence_verdict_congruent(a.evidence@, b.evidence@, a.evidence@.len());
    lemma_acks_congruent(a, b);
    lemma_command_lists_congruent(a.commands@, b.commands@);
    lemma_commands_same(a.commands@, b.commands@);
    lemma_commands_verdict_congruent(
        a.commands@,
        b.commands@,
        crate::result_v6::timer_generation_of(a.delivery_id@),
        a.commands@.len(),
    );
    lemma_disposition_congruent(a, b);
}

} // verus!
