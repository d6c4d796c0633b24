use vstd::prelude::*;
use vstd::string::StringExecFns;

use crate::engine::{actual_config, honors, splice, Crdt, EngineId, OpSet};
use crate::report::{DocSizeReport, ReportTable};
use crate::rng::{draw_batch_size, seeded_rng};
use crate::Action;

verus! {

/// The name of the reference workload every report record is stamped with.
pub open spec fn dataset_label() -> Seq<char> {
    "automerge paper"@
}

/// The operation set after one action: the deletion first, then the
/// insertion, each skipped when it is a no-op.
pub open spec fn apply_spec<C: Crdt>(s: OpSet, a: Action) -> OpSet {
    let after_del = if a.del != 0 {
        C::del_state(s, a.pos as int, a.del as int)
    } else {
        s
    };
    if a.ins@.len() != 0 {
        C::ins_state(after_del, a.pos as int, a.ins@)
    } else {
        after_del
    }
}

/// The operation set of a fresh instance that has applied `actions` in order.
pub open spec fn state_after<C: Crdt>(actions: Seq<Action>) -> OpSet
    decreases actions.len(),
{
    if actions.len() == 0 {
        Set::<int>::empty()
    } else {
        apply_spec::<C>(state_after::<C>(actions.drop_last()), actions.last())
    }
}

/// The benchmark metric one run records: the byte length of the full snapshot
/// after the whole action sequence, or nothing when the engine cannot honor
/// the requested configuration and the run is skipped.
pub open spec fn doc_size_of<C: Crdt>(gc: bool, compression: bool, actions: Seq<Action>) -> Option<
    int,
> {
    if honors::<C>(gc, compression) {
        Some(
            C::encoding_of(
                actual_config::<C>(gc, compression),
                state_after::<C>(actions),
            ).len() as int,
        )
    } else {
        None
    }
}

/// What a driver's report record must hold for one (engine, configuration)
/// run over `actions`.
pub open spec fn report_matches<C: Crdt>(
    rec: DocSizeReport,
    gc: bool,
    compression: bool,
    actions: Seq<Action>,
) -> bool {
    &&& rec.name@ == C::id_spec().label_spec()
    &&& rec.dataset_name@ == dataset_label()
    &&& rec.gc == if C::gc_configurable() {
        Result::<bool, bool>::Ok(actual_config::<C>(gc, compression).gc)
    } else {
        Result::<bool, bool>::Err(actual_config::<C>(gc, compression).gc)
    }
    &&& rec.compression == if C::compression_configurable() {
        Result::<bool, bool>::Ok(actual_config::<C>(gc, compression).compression)
    } else {
        Result::<bool, bool>::Err(actual_config::<C>(gc, compression).compression)
    }
    &&& match rec.doc_size {
        Some(n) => doc_size_of::<C>(gc, compression, actions) == Some(n as int),
        None => doc_size_of::<C>(gc, compression, actions) is None,
    }
}

/// Apply one action to a document: the deletion, then the insertion, each
/// skipped when it is a no-op. When the edited range lies inside the current
/// text, the text afterwards is the old text with the action spliced in.
pub fn apply_action<C: Crdt>(doc: &mut C, action: &Action)
    ensures
        final(doc).state() == apply_spec::<C>(old(doc).state(), *action),
        old(doc).state() <= final(doc).state(),
        final(doc).config() == old(doc).config(),
        action.pos + action.del <= C::text_of(old(doc).state()).len() ==> C::text_of(
            final(doc).state(),
        ) == splice(
            C::text_of(old(doc).state()),
            action.pos as int,
            action.del as int,
            action.ins@,
        ),
{
    let ghost t0 = C::text_of(old(doc).state());
    let ghost pos = action.pos as int;
    let ghost del = action.del as int;
    if action.del != 0 {
        doc.text_del(action.pos, action.del);
    }
    let ghost t1 = C::text_of(doc.state());
    if !action.ins.as_str().is_empty() {
        doc.text_insert(action.pos, action.ins.as_str());
    }
    proof {
        if pos + del <= t0.len() {
            if del != 0 {
                assert(t1 == splice(t0, pos, del, Seq::<char>::empty()));
            } else {
                assert(t1 =~= splice(t0, pos, 0, Seq::<char>::empty()));
            }
            assert(t1.len() == t0.len() - del);
            if action.ins@.len() != 0 {
                assert(C::text_of(final(doc).state()) == splice(t1, pos, 0, action.ins@));
                assert(t1.subrange(0, pos) =~= t0.subrange(0, pos));
                assert(t1.subrange(pos, t1.len() as int) =~= t0.subrange(
                    pos + del,
                    t0.len() as int,
                ));
                assert(C::text_of(final(doc).state()) =~= splice(t0, pos, del, action.ins@));
            } else {
                assert(C::text_of(final(doc).state()) =~= splice(t0, pos, del, action.ins@));
            }
        }
    }
}

/// The sequential driver: one fresh instance under the requested
/// configuration. If the instance cannot honor the configuration the run is
/// skipped; otherwise every action is applied in order to the single instance
/// and the byte length of one final full snapshot is recorded. The record is
/// a function of the engine, the configuration and the action sequence alone,
/// so two runs over the same inputs yield the same record.
pub fn gen_report<C: Crdt>(gc: bool, compression: bool, actions: &Vec<Action>) -> (report:
    DocSizeReport)
    ensures
        report_matches::<C>(report, gc, compression, actions@),
{
    let mut doc = C::create(gc, compression);
    let mut run = true;
    if let Err(support_gc) = doc.gc() {
        if support_gc != gc {
            run = false;
        }
    }
    if let Err(support_compression) = doc.compression() {
        if support_compression != compression {
            run = false;
        }
    }
    proof {
        assert(run == honors::<C>(gc, compression));
    }
    if !run {
        return DocSizeReport {
            name: String::from_str(C::engine_id().label()),
            dataset_name: String::from_str("automerge paper"),
            gc: doc.gc(),
            compression: doc.compression(),
            doc_size: None,
        };
    }
    let mut i: usize = 0;
    proof {
        assert(actions@.take(0) =~= Seq::<Action>::empty());
    }
    while i < actions.len()
        invariant
            i <= actions@.len(),
            doc.state() == state_after::<C>(actions@.take(i as int)),
            doc.config() == actual_config::<C>(gc, compression),
        decreases actions@.len() - i,
    {
        apply_action(&mut doc, &actions[i]);
        proof {
            assert(actions@.take(i as int + 1).drop_last() =~= actions@.take(i as int));
            assert(actions@.take(i as int + 1).last() == actions@[i as int]);
        }
        i = i + 1;
    }
    proof {
        assert(actions@.take(actions@.len() as int) =~= actions@);
    }
    let encoded = doc.encode_full();
    DocSizeReport {
        name: String::from_str(C::engine_id().label()),
        dataset_name: String::from_str("automerge paper"),
        gc: doc.gc(),
        compression: doc.compression(),
        doc_size: Some(encoded.len()),
    }
}

/// First half of a two-site round: the full-rate site takes exactly the one
/// action at the cursor — never more — and the sites synchronize, so there is
/// a merge point after every single action that site applies.
pub fn two_site_step_a<C: Crdt>(a: &mut C, b: &mut C, actions: &Vec<Action>, i: usize) -> (j:
    usize)
    requires
        i < actions@.len(),
        old(a).state() == state_after::<C>(actions@.take(i as int)),
        old(b).state() == old(a).state(),
        old(b).config() == old(a).config(),
    ensures
        j == i + 1,
        final(a).state() == state_after::<C>(actions@.take(j as int)),
        final(b).state() == final(a).state(),
        final(a).config() == old(a).config(),
        final(b).config() == old(b).config(),
{
    // Binding the length gives the prover the machine bound on the cursor.
    let n = actions.len();
    apply_action(a, &actions[i]);
    proof {
        assert(actions@.take(i as int + 1).drop_last() =~= actions@.take(i as int));
        assert(actions@.take(i as int + 1).last() == actions@[i as int]);
    }
    crate::sync::merge(a, b);
    proof {
        assert(state_after::<C>(actions@.take(i as int + 1)).union(
            state_after::<C>(actions@.take(i as int)),
        ) =~= state_after::<C>(actions@.take(i as int + 1)));
    }
    i + 1
}

/// Second half of a two-site round: the batching site takes at most `r` — and
/// `r` is never more than ten — subsequent actions, fewer if the stream runs
/// out, and the sites synchronize again.
pub fn two_site_step_b<C: Crdt>(
    a: &mut C,
    b: &mut C,
    actions: &Vec<Action>,
    i: usize,
    r: usize,
) -> (j: usize)
    requires
        i <= actions@.len(),
        1 <= r && r <= 10,
        old(a).state() == state_after::<C>(actions@.take(i as int)),
        old(b).state() == old(a).state(),
        old(b).config() == old(a).config(),
    ensures
        i <= j && j <= actions@.len(),
        j <= i + r,
        j - i <= 10,
        final(a).state() == state_after::<C>(actions@.take(j as int)),
        final(b).state() == final(a).state(),
        final(a).config() == old(a).config(),
        final(b).config() == old(b).config(),
{
    let n = actions.len();
    let mut j = i;
    let mut applied: usize = 0;
    while applied < r && j < n
        invariant
            r <= 10,
            n == actions@.len(),
            i <= j && j <= actions@.len(),
            j == i + applied,
            applied <= r,
            b.state() == state_after::<C>(actions@.take(j as int)),
            a.state() == state_after::<C>(actions@.take(i as int)),
            a.state() <= b.state(),
            a.config() == old(a).config(),
            b.config() == old(b).config(),
        decreases r - applied,
    {
        apply_action(b, &actions[j]);
        proof {
            assert(actions@.take(j as int + 1).drop_last() =~= actions@.take(j as int));
            assert(actions@.take(j as int + 1).last() == actions@[j as int]);
        }
        j = j + 1;
        applied = applied + 1;
    }
    crate::sync::merge(a, b);
    proof {
        assert(state_after::<C>(actions@.take(i as int)).union(
            state_after::<C>(actions@.take(j as int)),
        ) =~= state_after::<C>(actions@.take(j as int)));
    }
    j
}

/// One round of the two-site driver: site A advances by exactly one action,
/// the sites merge, site B advances by at most ten, and the sites merge
/// again. Both sites stay converged on the state a single sequential replay
/// of the consumed prefix would have reached.
pub fn two_site_round<C: Crdt>(
    a: &mut C,
    b: &mut C,
    actions: &Vec<Action>,
    i: usize,
    r: usize,
) -> (j: usize)
    requires
        i < actions@.len(),
        1 <= r && r <= 10,
        old(a).state() == state_after::<C>(actions@.take(i as int)),
        old(b).state() == old(a).state(),
        old(b).config() == old(a).config(),
    ensures
        i < j && j <= actions@.len(),
        j <= i + 1 + r,
        j - (i + 1) <= 10,
        final(a).state() == state_after::<C>(actions@.take(j as int)),
        final(b).state() == final(a).state(),
        final(a).config() == old(a).config(),
        final(b).config() == old(b).config(),
{
    let after_a = two_site_step_a(a, b, actions, i);
    two_site_step_b(a, b, actions, after_a, r)
}

/// The two-site driver: two fresh instances A and B under the same requested
/// configuration, edited in rounds with a merge after every single action
/// applied to A and after every batch (of one to ten actions, drawn from a
/// generator seeded with the fixed value 1) applied to B. If the instances
/// cannot honor the configuration the run is skipped; otherwise the byte
/// length of A's final full snapshot is recorded. The sites end converged,
/// and the record pins the same value for every batching the generator can
/// draw — the same value the sequential driver records.
pub fn gen_report_parallel<C: Crdt>(gc: bool, compression: bool, actions: &Vec<Action>) -> (report:
    DocSizeReport)
    ensures
        report_matches::<C>(report, gc, compression, actions@),
{
    let mut a = C::create(gc, compression);
    let mut b = C::create(gc, compression);
    let mut run = true;
    if let Err(support_gc) = a.gc() {
        if support_gc != gc {
            run = false;
        }
    }
    if let Err(support_compression) = a.compression() {
        if support_compression != compression {
            run = false;
        }
    }
    proof {
        assert(run == honors::<C>(gc, compression));
    }
    if !run {
        return DocSizeReport {
            name: String::from_str(C::engine_id().label()),
            dataset_name: String::from_str("automerge paper"),
            gc: a.gc(),
            compression: a.compression(),
            doc_size: None,
        };
    }
    let mut rng = seeded_rng(1);
    let mut i: usize = 0;
    proof {
        assert(actions@.take(0) =~= Seq::<Action>::empty());
    }
    while i < actions.len()
        invariant
            i <= actions@.len(),
            a.state() == state_after::<C>(actions@.take(i as int)),
            b.state() == a.state(),
            b.config() == a.config(),
            a.config() == actual_config::<C>(gc, compression),
        decreases actions@.len() - i,
    {
        let r = draw_batch_size(&mut rng);
        i = two_site_round(&mut a, &mut b, actions, i, r);
    }
    proof {
        assert(actions@.take(actions@.len() as int) =~= actions@);
    }
    let encoded = a.encode_full();
    DocSizeReport {
        name: String::from_str(C::engine_id().label()),
        dataset_name: String::from_str("automerge paper"),
        gc: a.gc(),
        compression: a.compression(),
        doc_size: Some(encoded.len()),
    }
}

/// Capability honesty: an engine that answers `gc() == Err(false)` cannot
/// honor a `gc = true` request, so that run records no numeric size — the
/// drivers skip it and file `doc_size = None`.
pub proof fn lemma_capability_honesty<C: Crdt>(compression: bool, actions: Seq<Action>)
    requires
        !C::gc_configurable(),
        !C::inherent_gc(),
    ensures
        doc_size_of::<C>(true, compression, actions) is None,
{
}

/// Sequential determinism: the recorded size is a function of the engine, the
/// configuration and the action sequence alone, so two runs of a driver over
/// the same inputs record the same size.
pub proof fn lemma_run_determinism<C: Crdt>(
    gc: bool,
    compression: bool,
    actions: Seq<Action>,
    first: Option<int>,
    second: Option<int>,
)
    requires
        first == doc_size_of::<C>(gc, compression, actions),
        second == doc_size_of::<C>(gc, compression, actions),
    ensures
        first == second,
{
}

/// Whether four collected records are exactly one engine's sweep over the
/// four configurations, in the fixed order of `per_crdt`.
pub open spec fn engine_reports_match<C: Crdt>(
    recs: Seq<DocSizeReport>,
    actions: Seq<Action>,
) -> bool {
    &&& recs.len() == 4
    &&& report_matches::<C>(recs[0], false, false, actions)
    &&& report_matches::<C>(recs[1], true, false, actions)
    &&& report_matches::<C>(recs[2], false, true, actions)
    &&& report_matches::<C>(recs[3], true, true, actions)
}

/// Benchmark one engine under all four configurations, in the fixed order
/// (compression, gc) = (false,false), (false,true), (true,false), (true,true),
/// filing one record per run under the engine's identity.
pub fn per_crdt<C: Crdt>(table: &mut ReportTable, parallel: bool, actions: &Vec<Action>)
    ensures
        ({
            let before = old(table).reports_of(C::id_spec());
            let after = final(table).reports_of(C::id_spec());
            &&& after.len() == before.len() + 4
            &&& after.take(before.len() as int) == before
            &&& report_matches::<C>(after[before.len() as int], false, false, actions@)
            &&& report_matches::<C>(after[before.len() as int + 1], true, false, actions@)
            &&& report_matches::<C>(after[before.len() as int + 2], false, true, actions@)
            &&& report_matches::<C>(after[before.len() as int + 3], true, true, actions@)
        }),
        forall|e: EngineId|
            e != C::id_spec() ==> #[trigger] final(table).reports_of(e) == old(table).reports_of(
                e,
            ),
{
    let r0 = if parallel {
        gen_report_parallel::<C>(false, false, actions)
    } else {
        gen_report::<C>(false, false, actions)
    };
    table.insert_report::<C>(r0);
    let r1 = if parallel {
        gen_report_parallel::<C>(true, false, actions)
    } else {
        gen_report::<C>(true, false, actions)
    };
    table.insert_report::<C>(r1);
    let r2 = if parallel {
        gen_report_parallel::<C>(false, true, actions)
    } else {
        gen_report::<C>(false, true, actions)
    };
    table.insert_report::<C>(r2);
    let r3 = if parallel {
        gen_report_parallel::<C>(true, true, actions)
    } else {
        gen_report::<C>(true, true, actions)
    };
    table.insert_report::<C>(r3);
    proof {
        let before = old(table).reports_of(C::id_spec());
        let after = final(table).reports_of(C::id_spec());
        assert(after.take(before.len() as int) =~= before);
    }
}

/// Run every (engine, configuration) combination with the chosen driver and
/// collect the full report table: four records for each of the four engines.
pub fn bench_document_size<C1: Crdt, C2: Crdt, C3: Crdt, C4: Crdt>(
    parallel: bool,
    actions: &Vec<Action>,
) -> (table: ReportTable)
    requires
        C1::id_spec() == EngineId::Loro,
        C2::id_spec() == EngineId::Automerge,
        C3::id_spec() == EngineId::DiamondType,
        C4::id_spec() == EngineId::Yrs,
    ensures
        table.complete(),
        engine_reports_match::<C1>(table.reports_of(EngineId::Loro), actions@),
        engine_reports_match::<C2>(table.reports_of(EngineId::Automerge), actions@),
        engine_reports_match::<C3>(table.reports_of(EngineId::DiamondType), actions@),
        engine_reports_match::<C4>(table.reports_of(EngineId::Yrs), actions@),
{
    let mut table = ReportTable::new();
    per_crdt::<C1>(&mut table, parallel, actions);
    per_crdt::<C2>(&mut table, parallel, actions);
    per_crdt::<C3>(&mut table, parallel, actions);
    per_crdt::<C4>(&mut table, parallel, actions);
    table
}

/// The cell the table must show for a run's metric: the decimal size, or the
/// mark for a skipped run.
pub open spec fn expected_cell(o: Option<int>) -> Seq<char> {
    " "@ + (match o {
        Some(n) => crate::digits::dec_str(n as nat),
        None => crate::report::unsupported_mark(),
    }) + " |"@
}

/// The table row for one configuration: its label, then the four engines'
/// metrics in the fixed column order.
pub open spec fn expected_row<C1: Crdt, C2: Crdt, C3: Crdt, C4: Crdt>(
    gc: bool,
    compression: bool,
    title: Seq<char>,
    actions: Seq<Action>,
) -> Seq<char> {
    "\n|"@ + title + "|"@ + expected_cell(doc_size_of::<C1>(gc, compression, actions))
        + expected_cell(doc_size_of::<C2>(gc, compression, actions)) + expected_cell(
        doc_size_of::<C3>(gc, compression, actions),
    ) + expected_cell(doc_size_of::<C4>(gc, compression, actions))
}

/// The whole comparison table the benchmark must print for `actions`: it is a
/// function of the engines and the action sequence alone — in particular the
/// two-site driver's random batching cannot move it.
pub open spec fn expected_md<C1: Crdt, C2: Crdt, C3: Crdt, C4: Crdt>(
    actions: Seq<Action>,
) -> Seq<char> {
    "|     |  loro  | automerge | diamond-type | yrs |\n"@
        + "|  ----  | ----  |  ----  | ----  |  ----  |"@ + expected_row::<C1, C2, C3, C4>(
        false,
        false,
        ""@,
        actions,
    ) + expected_row::<C1, C2, C3, C4>(true, false, "gc"@, actions) + expected_row::<
        C1,
        C2,
        C3,
        C4,
    >(false, true, "compress"@, actions) + expected_row::<C1, C2, C3, C4>(
        true,
        true,
        "gc & compress"@,
        actions,
    ) + "\n"@
}

/// A report record's table cell shows exactly the run's pinned metric.
proof fn lemma_cell_matches<C: Crdt>(
    rec: DocSizeReport,
    gc: bool,
    compression: bool,
    actions: Seq<Action>,
)
    requires
        report_matches::<C>(rec, gc, compression, actions),
    ensures
        crate::report::md_cell(rec.doc_size) == expected_cell(
            doc_size_of::<C>(gc, compression, actions),
        ),
{
}

/// One table row built from collected records shows exactly the pinned metrics.
proof fn lemma_row_matches<C1: Crdt, C2: Crdt, C3: Crdt, C4: Crdt>(
    table: ReportTable,
    i: int,
    gc: bool,
    compression: bool,
    title: Seq<char>,
    actions: Seq<Action>,
)
    requires
        0 <= i < 4,
        table.complete(),
        report_matches::<C1>(table.reports_of(EngineId::Loro)[i], gc, compression, actions),
        report_matches::<C2>(table.reports_of(EngineId::Automerge)[i], gc, compression, actions),
        report_matches::<C3>(table.reports_of(EngineId::DiamondType)[i], gc, compression, actions),
        report_matches::<C4>(table.reports_of(EngineId::Yrs)[i], gc, compression, actions),
    ensures
        table.row_view(i, title) == expected_row::<C1, C2, C3, C4>(
            gc,
            compression,
            title,
            actions,
        ),
{
    lemma_cell_matches::<C1>(table.reports_of(EngineId::Loro)[i], gc, compression, actions);
    lemma_cell_matches::<C2>(table.reports_of(EngineId::Automerge)[i], gc, compression, actions);
    lemma_cell_matches::<C3>(table.reports_of(EngineId::DiamondType)[i], gc, compression, actions);
    lemma_cell_matches::<C4>(table.reports_of(EngineId::Yrs)[i], gc, compression, actions);
}

/// Benchmark the four engines under every configuration and render the
/// comparison table. The returned string is pinned: it is exactly the table
/// that the engines' metrics determine for this action sequence, whichever
/// driver ran.
pub fn run_doc_size<C1: Crdt, C2: Crdt, C3: Crdt, C4: Crdt>(
    parallel: bool,
    actions: &Vec<Action>,
) -> (r: String)
    requires
        C1::id_spec() == EngineId::Loro,
        C2::id_spec() == EngineId::Automerge,
        C3::id_spec() == EngineId::DiamondType,
        C4::id_spec() == EngineId::Yrs,
    ensures
        r@ == expected_md::<C1, C2, C3, C4>(actions@),
{
    let table = bench_document_size::<C1, C2, C3, C4>(parallel, actions);
    let md = table.to_all_md();
    proof {
        lemma_row_matches::<C1, C2, C3, C4>(table, 0, false, false, ""@, actions@);
        lemma_row_matches::<C1, C2, C3, C4>(table, 1, true, false, "gc"@, actions@);
        lemma_row_matches::<C1, C2, C3, C4>(table, 2, false, true, "compress"@, actions@);
        lemma_row_matches::<C1, C2, C3, C4>(table, 3, true, true, "gc & compress"@, actions@);
    }
    md
}

} // verus!
