// Exercises the benchmark harness with a small reference engine: a
// convergent operation-set document whose text is a deterministic replay of
// its operations. Four capability profiles of the same engine stand in for
// the four benchmarked engines.

use std::collections::BTreeSet;

use crdt_bench::driver::{
    apply_action, gen_report, gen_report_parallel, run_doc_size, two_site_round,
    two_site_step_a, two_site_step_b,
};
use crdt_bench::digits::usize_to_string;
use crdt_bench::engine::{BytesView, Crdt, DecodeError, EngineConfig, EngineId, GhostInt, OpSet, TextView};
use crdt_bench::report::{DocSizeReport, ReportTable};
use crdt_bench::sync::{load_snapshot, merge};
use crdt_bench::Action;

const MAGIC: u8 = 0xC7;

#[derive(Clone, Debug, PartialEq, Eq, PartialOrd, Ord)]
struct Op {
    seq: u64,
    pos: u64,
    del: u64,
    ins: String,
}

#[derive(Clone, Debug)]
struct Core {
    ops: BTreeSet<Op>,
    gc: bool,
    compression: bool,
}

impl Core {
    fn new(gc: bool, compression: bool) -> Core {
        Core {
            ops: BTreeSet::new(),
            gc,
            compression,
        }
    }

    fn push_op(&mut self, pos: usize, del: usize, ins: &str) {
        let op = Op {
            seq: self.ops.len() as u64,
            pos: pos as u64,
            del: del as u64,
            ins: ins.to_string(),
        };
        self.ops.insert(op);
    }

    fn text(&self) -> String {
        let mut chars: Vec<char> = Vec::new();
        for op in &self.ops {
            let pos = (op.pos as usize).min(chars.len());
            let del = (op.del as usize).min(chars.len() - pos);
            for _ in 0..del {
                chars.remove(pos);
            }
            for (k, ch) in op.ins.chars().enumerate() {
                chars.insert(pos + k, ch);
            }
        }
        chars.into_iter().collect()
    }

    fn encode(&self) -> Vec<u8> {
        let mut out = vec![MAGIC];
        for op in &self.ops {
            out.extend_from_slice(&op.seq.to_be_bytes());
            out.extend_from_slice(&op.pos.to_be_bytes());
            out.extend_from_slice(&op.del.to_be_bytes());
            out.extend_from_slice(&(op.ins.len() as u64).to_be_bytes());
            out.extend_from_slice(op.ins.as_bytes());
        }
        out
    }

    fn decode(&mut self, bytes: &Vec<u8>) -> Result<(), DecodeError> {
        if bytes.is_empty() || bytes[0] != MAGIC {
            return Err(DecodeError);
        }
        let read_u64 = |bytes: &Vec<u8>, at: usize| -> Result<u64, DecodeError> {
            if at + 8 > bytes.len() {
                return Err(DecodeError);
            }
            let mut raw = [0u8; 8];
            raw.copy_from_slice(&bytes[at..at + 8]);
            Ok(u64::from_be_bytes(raw))
        };
        let mut incoming: BTreeSet<Op> = BTreeSet::new();
        let mut at = 1usize;
        while at < bytes.len() {
            let seq = read_u64(bytes, at)?;
            let pos = read_u64(bytes, at + 8)?;
            let del = read_u64(bytes, at + 16)?;
            let ins_len = read_u64(bytes, at + 24)? as usize;
            at += 32;
            if at + ins_len > bytes.len() {
                return Err(DecodeError);
            }
            let ins = match String::from_utf8(bytes[at..at + ins_len].to_vec()) {
                Ok(s) => s,
                Err(_) => return Err(DecodeError),
            };
            at += ins_len;
            incoming.insert(Op { seq, pos, del, ins });
        }
        for op in incoming {
            self.ops.insert(op);
        }
        Ok(())
    }
}

// One engine, four capability profiles: which features `create` can toggle.
struct Toy<const PROFILE: u8>(Core);

type ToyLoro = Toy<0>; // both features togglable
type ToyAutomerge = Toy<1>; // gc fixed off, compression togglable
type ToyDiamond = Toy<2>; // gc togglable, compression fixed off
type ToyYrs = Toy<3>; // both features fixed off

fn gc_togglable(profile: u8) -> bool {
    profile == 0 || profile == 2
}

fn compression_togglable(profile: u8) -> bool {
    profile == 0 || profile == 1
}

impl<const PROFILE: u8> Crdt for Toy<PROFILE> {
    fn engine_id() -> EngineId {
        match PROFILE {
            0 => EngineId::Loro,
            1 => EngineId::Automerge,
            2 => EngineId::DiamondType,
            _ => EngineId::Yrs,
        }
    }

    fn create(gc: bool, compression: bool) -> Self {
        let actual_gc = if gc_togglable(PROFILE) { gc } else { false };
        let actual_compression = if compression_togglable(PROFILE) {
            compression
        } else {
            false
        };
        Toy(Core::new(actual_gc, actual_compression))
    }

    fn gc(&self) -> Result<bool, bool> {
        if gc_togglable(PROFILE) {
            Ok(self.0.gc)
        } else {
            Err(self.0.gc)
        }
    }

    fn compression(&self) -> Result<bool, bool> {
        if compression_togglable(PROFILE) {
            Ok(self.0.compression)
        } else {
            Err(self.0.compression)
        }
    }

    fn text_insert(&mut self, pos: usize, text: &str) {
        self.0.push_op(pos, 0, text);
    }

    fn text_del(&mut self, pos: usize, len: usize) {
        self.0.push_op(pos, len, "");
    }

    fn get_text(&self) -> String {
        self.0.text()
    }

    fn encode_full(&self) -> Vec<u8> {
        self.0.encode()
    }

    fn decode_full(&mut self, bytes: &Vec<u8>) -> Result<(), DecodeError> {
        self.0.decode(bytes)
    }

    fn version(&self) -> Vec<u8> {
        self.0.encode()
    }

    // The ghost half of the trait. Verus erases the bodies of these items,
    // but the compiled trait still lists them, so an unverified engine has to
    // provide them. None of them is ever called at run time.

    fn state(&self) -> OpSet {
        panic!("ghost item")
    }

    fn config(&self) -> EngineConfig {
        panic!("ghost item")
    }

    fn text_of(_: OpSet) -> TextView {
        panic!("ghost item")
    }

    fn ins_state(_: OpSet, _: GhostInt, _: TextView) -> OpSet {
        panic!("ghost item")
    }

    fn del_state(_: OpSet, _: GhostInt, _: GhostInt) -> OpSet {
        panic!("ghost item")
    }

    fn encoding_of(_: EngineConfig, _: OpSet) -> BytesView {
        panic!("ghost item")
    }

    fn snapshot_ok(_: BytesView) -> bool {
        panic!("ghost item")
    }

    fn snapshot_state(_: BytesView) -> OpSet {
        panic!("ghost item")
    }

    fn version_of(_: OpSet) -> BytesView {
        panic!("ghost item")
    }

    fn gc_configurable() -> bool {
        panic!("ghost item")
    }

    fn inherent_gc() -> bool {
        panic!("ghost item")
    }

    fn compression_configurable() -> bool {
        panic!("ghost item")
    }

    fn inherent_compression() -> bool {
        panic!("ghost item")
    }

    fn id_spec() -> EngineId {
        panic!("ghost item")
    }
}

fn act(pos: usize, del: usize, ins: &str) -> Action {
    Action {
        pos,
        del,
        ins: ins.to_string(),
    }
}

// The two-action reference workload: each executed run measures 68 bytes
// under the toy encoding (one magic byte, 34 bytes for the first insert,
// 33 for the second).
fn small_workload() -> Vec<Action> {
    vec![act(0, 0, "ab"), act(1, 0, "X")]
}

#[test]
fn sequential_scenario_yields_axb() {
    let mut doc = ToyLoro::create(false, false);
    let actions = small_workload();
    apply_action(&mut doc, &actions[0]);
    apply_action(&mut doc, &actions[1]);
    assert_eq!(doc.get_text(), "aXb");
}

#[test]
fn merge_propagates_to_empty_site() {
    let mut a = ToyLoro::create(false, false);
    let mut b = ToyLoro::create(false, false);
    a.text_insert(0, "hello");
    merge(&mut a, &mut b);
    assert_eq!(a.get_text(), "hello");
    assert_eq!(b.get_text(), "hello");
}

#[test]
fn merge_converges_distributed_edits() {
    let mut a = ToyLoro::create(false, false);
    let mut b = ToyLoro::create(false, false);
    a.text_insert(0, "abc");
    b.text_insert(0, "xyz");
    b.text_del(0, 1);
    merge(&mut a, &mut b);
    assert_eq!(a.get_text(), b.get_text());
    assert_eq!(a.version(), b.version());
}

#[test]
fn merge_idempotent_on_converged_sites() {
    let mut a = ToyLoro::create(false, false);
    let mut b = ToyLoro::create(false, false);
    a.text_insert(0, "shared");
    merge(&mut a, &mut b);
    let text_a = a.get_text();
    let size_a = a.encode_full().len();
    let text_b = b.get_text();
    let size_b = b.encode_full().len();
    merge(&mut a, &mut b);
    assert_eq!(a.get_text(), text_a);
    assert_eq!(a.encode_full().len(), size_a);
    assert_eq!(b.get_text(), text_b);
    assert_eq!(b.encode_full().len(), size_b);
}

#[test]
fn snapshot_round_trip_reproduces_text() {
    let mut e = ToyLoro::create(true, true);
    e.text_insert(0, "round trip");
    e.text_del(5, 1);
    let mut f = ToyLoro::create(true, true);
    load_snapshot(&e, &mut f);
    assert_eq!(f.get_text(), e.get_text());
}

#[test]
fn decode_rejects_corrupt_bytes() {
    let mut doc = ToyLoro::create(false, false);
    assert_eq!(doc.decode_full(&vec![0x00, 0x01, 0x02]), Err(DecodeError));
    let truncated = vec![MAGIC, 0x01];
    assert_eq!(doc.decode_full(&truncated), Err(DecodeError));
}

#[test]
fn sequential_driver_measures_size() {
    let actions = small_workload();
    let report = gen_report::<ToyLoro>(false, false, &actions);
    assert_eq!(report.doc_size, Some(68));
    assert_eq!(report.gc, Ok(false));
    assert_eq!(report.compression, Ok(false));
    assert_eq!(report.name, "loro");
    assert_eq!(report.dataset_name, "automerge paper");
}

#[test]
fn sequential_driver_is_deterministic() {
    let actions = small_workload();
    let first = gen_report::<ToyDiamond>(true, false, &actions);
    let second = gen_report::<ToyDiamond>(true, false, &actions);
    assert_eq!(first.doc_size, second.doc_size);
    assert_eq!(first.doc_size, Some(68));
}

#[test]
fn capability_mismatch_skips_run() {
    let actions = small_workload();
    let report = gen_report::<ToyYrs>(true, false, &actions);
    assert_eq!(report.doc_size, None);
    assert_eq!(report.gc, Err(false));
    let report = gen_report::<ToyAutomerge>(true, true, &actions);
    assert_eq!(report.doc_size, None);
    let honored = gen_report::<ToyAutomerge>(false, true, &actions);
    assert_eq!(honored.doc_size, Some(68));
}

#[test]
fn two_site_driver_matches_sequential() {
    let mut actions = Vec::new();
    for k in 0..25 {
        actions.push(act(k % 3, if k % 5 == 0 { 1 } else { 0 }, "word"));
    }
    let sequential = gen_report::<ToyLoro>(false, false, &actions);
    let parallel = gen_report_parallel::<ToyLoro>(false, false, &actions);
    assert_eq!(sequential.doc_size, parallel.doc_size);
    assert!(parallel.doc_size.is_some());
}

#[test]
fn two_site_driver_skips_mismatch() {
    let actions = small_workload();
    let report = gen_report_parallel::<ToyYrs>(false, true, &actions);
    assert_eq!(report.doc_size, None);
}

#[test]
fn two_site_round_bounds_batches() {
    let mut actions = Vec::new();
    for k in 0..30 {
        actions.push(act(k, 0, "z"));
    }
    let mut a = ToyLoro::create(false, false);
    let mut b = ToyLoro::create(false, false);
    let mut i = 0usize;
    while i < actions.len() {
        let j = two_site_round(&mut a, &mut b, &actions, i, 10);
        // A takes one action, B at most ten, before the closing merge.
        assert!(j > i);
        assert!(j - (i + 1) <= 10);
        assert!(j <= actions.len());
        assert_eq!(a.get_text(), b.get_text());
        i = j;
    }
    let mut replay = ToyLoro::create(false, false);
    for action in &actions {
        apply_action(&mut replay, action);
    }
    assert_eq!(a.get_text(), replay.get_text());
}

#[test]
fn two_site_steps_advance_cursor_exactly() {
    let actions = vec![act(0, 0, "a"), act(1, 0, "b"), act(2, 0, "c")];
    let mut a = ToyLoro::create(false, false);
    let mut b = ToyLoro::create(false, false);
    // The full-rate site takes exactly one action per synchronization point.
    let after_a = two_site_step_a(&mut a, &mut b, &actions, 0);
    assert_eq!(after_a, 1);
    assert_eq!(a.get_text(), "a");
    assert_eq!(b.get_text(), "a");
    // The batching site takes at most its draw, fewer when the stream ends.
    let after_b = two_site_step_b(&mut a, &mut b, &actions, after_a, 10);
    assert_eq!(after_b, actions.len());
    assert_eq!(a.get_text(), "abc");
    assert_eq!(b.get_text(), "abc");
}

#[test]
fn decode_merges_with_local_state() {
    let mut src = ToyLoro::create(false, false);
    src.text_insert(0, "aa");
    let mut dst = ToyLoro::create(false, false);
    dst.text_insert(0, "bb");
    load_snapshot(&src, &mut dst);
    // The snapshot joins the local edit instead of replacing it.
    assert_eq!(dst.get_text(), "bbaa");
}

#[test]
fn console_lines_render_reports() {
    let actions = small_workload();
    let loro = gen_report::<ToyLoro>(false, false, &actions);
    assert_eq!(
        loro.console_line(),
        "loro gc false compression false doc_size 68"
    );
    let yrs = gen_report::<ToyYrs>(false, false, &actions);
    assert_eq!(yrs.console_line(), "yrs gc x compression x doc_size 68");
    let skipped = gen_report::<ToyYrs>(true, true, &actions);
    assert_eq!(skipped.console_line(), "yrs gc x compression x doc_size x");
}

#[test]
fn report_table_renders_fixed_grid() {
    let actions = small_workload();
    let md = run_doc_size::<ToyLoro, ToyAutomerge, ToyDiamond, ToyYrs>(false, &actions);
    let expected = "|     |  loro  | automerge | diamond-type | yrs |\n\
                    |  ----  | ----  |  ----  | ----  |  ----  |\n\
                    || 68 | 68 | 68 | 68 |\n\
                    |gc| 68 | x | 68 | x |\n\
                    |compress| 68 | 68 | x | x |\n\
                    |gc & compress| 68 | x | x | x |\n";
    assert_eq!(md, expected);
}

#[test]
fn drivers_agree_on_the_table() {
    let actions = small_workload();
    let sequential = run_doc_size::<ToyLoro, ToyAutomerge, ToyDiamond, ToyYrs>(false, &actions);
    let parallel = run_doc_size::<ToyLoro, ToyAutomerge, ToyDiamond, ToyYrs>(true, &actions);
    assert_eq!(sequential, parallel);
}

#[test]
fn table_insertion_keeps_per_engine_order() {
    let actions = small_workload();
    let mut table = ReportTable::new();
    let first = gen_report::<ToyLoro>(false, false, &actions);
    let second = gen_report::<ToyLoro>(true, false, &actions);
    table.insert_report::<ToyLoro>(first);
    table.insert_report::<ToyLoro>(second);
    assert_eq!(table.loro.len(), 2);
    assert_eq!(table.loro[0].gc, Ok(false));
    assert_eq!(table.loro[1].gc, Ok(true));
    assert_eq!(table.automerge.len(), 0);
}

#[test]
fn decimal_rendering_is_exact() {
    assert_eq!(usize_to_string(0), "0");
    assert_eq!(usize_to_string(7), "7");
    assert_eq!(usize_to_string(68), "68");
    assert_eq!(usize_to_string(90210), "90210");
}

#[test]
fn empty_workload_measures_empty_snapshot() {
    let actions: Vec<Action> = Vec::new();
    let report = gen_report::<ToyLoro>(false, false, &actions);
    // Only the magic byte remains.
    assert_eq!(report.doc_size, Some(1));
    let parallel = gen_report_parallel::<ToyLoro>(false, false, &actions);
    assert_eq!(parallel.doc_size, Some(1));
}

#[test]
fn report_fields_without_table() {
    let rec = DocSizeReport {
        name: "loro".to_string(),
        dataset_name: "automerge paper".to_string(),
        gc: Err(true),
        compression: Ok(true),
        doc_size: None,
    };
    assert_eq!(rec.console_line(), "loro gc x compression true doc_size x");
}
