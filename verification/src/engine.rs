use vstd::prelude::*;

verus! {

/// Identity of one benchmarked CRDT engine. The comparison table has one
/// column per engine, in the fixed order listed here.
#[derive(Clone, Copy, PartialEq, Eq, Structural, Debug)]
pub enum EngineId {
    Loro,
    Automerge,
    DiamondType,
    Yrs,
}

impl EngineId {
    /// The engine's static name, used as a column header and in report records.
    pub open spec fn label_spec(self) -> Seq<char> {
        match self {
            EngineId::Loro => "loro"@,
            EngineId::Automerge => "automerge"@,
            EngineId::DiamondType => "diamond-type"@,
            EngineId::Yrs => "yrs"@,
        }
    }

    pub fn label(&self) -> (r: &'static str)
        ensures
            r@ == self.label_spec(),
    {
        match self {
            EngineId::Loro => "loro",
            EngineId::Automerge => "automerge",
            EngineId::DiamondType => "diamond-type",
            EngineId::Yrs => "yrs",
        }
    }
}

/// The feature toggles an instance actually runs with: garbage collection
/// and compression. Requested at creation, fixed for the instance's lifetime.
#[derive(Clone, Copy, PartialEq, Eq, Structural, Debug)]
pub struct EngineConfig {
    pub gc: bool,
    pub compression: bool,
}

/// The abstract operation history an instance carries.
pub type OpSet = Set<int>;

/// The ghost view of a document text.
pub type TextView = Seq<char>;

/// The ghost view of a byte string.
pub type BytesView = Seq<u8>;

/// A ghost integer, as positions and lengths appear in the engine model.
pub type GhostInt = int;

/// Failure of `decode_full` on corrupt or incompatible bytes. Fatal for the
/// benchmark run that hit it: a partially decoded document has no defined
/// convergence behaviour, so no recovery is attempted.
#[derive(Clone, Copy, PartialEq, Eq, Structural, Debug)]
pub struct DecodeError;

/// The capability interface every benchmarked CRDT engine implements.
///
/// The abstract model: an instance carries a set of operations (`state`) and
/// the configuration it was created under (`config`). The visible text, the
/// encoded snapshot and the version token are functions of that state, and
/// a snapshot decodes back to the state it was taken from. Merging is set
/// union of states, which is what makes snapshot exchange converge. Local
/// edits grow the state deterministically, which is what makes a benchmark
/// run reproducible for an engine without internal randomness.
///
/// The engines themselves are external collaborators: each adapter implements
/// this interface outside the library and thereby promises the model above.
pub trait Crdt: Sized {
    /// The operation history the instance has seen, as an abstract set.
    spec fn state(&self) -> OpSet;

    /// The feature toggles the instance actually runs with.
    spec fn config(&self) -> EngineConfig;

    /// The document text determined by an operation set.
    spec fn text_of(s: OpSet) -> TextView;

    /// The operation set after a local insertion of `text` at `pos`.
    spec fn ins_state(s: OpSet, pos: GhostInt, text: TextView) -> OpSet;

    /// The operation set after a local deletion of `len` units at `pos`.
    spec fn del_state(s: OpSet, pos: GhostInt, len: GhostInt) -> OpSet;

    /// The full snapshot bytes for a state under a configuration.
    spec fn encoding_of(c: EngineConfig, s: OpSet) -> BytesView;

    /// Whether `b` is a well-formed snapshot that `decode_full` accepts.
    spec fn snapshot_ok(b: BytesView) -> bool;

    /// The operation set a well-formed snapshot carries.
    spec fn snapshot_state(b: BytesView) -> OpSet;

    /// The opaque causal-position token for a state.
    spec fn version_of(s: OpSet) -> BytesView;

    /// Whether the engine supports toggling garbage collection.
    spec fn gc_configurable() -> bool;

    /// The fixed garbage-collection behaviour of an engine that cannot toggle it.
    spec fn inherent_gc() -> bool;

    /// Whether the engine supports toggling compression.
    spec fn compression_configurable() -> bool;

    /// The fixed compression behaviour of an engine that cannot toggle it.
    spec fn inherent_compression() -> bool;

    /// Which of the four benchmarked engines this is.
    spec fn id_spec() -> EngineId;

    fn engine_id() -> (r: EngineId)
        ensures
            r == Self::id_spec(),
    ;

    /// Construct a fresh, empty document. A requested toggle the engine cannot
    /// honor is coerced to the engine's inherent value; `gc()` and
    /// `compression()` report what is actually running.
    fn create(gc: bool, compression: bool) -> (r: Self)
        ensures
            r.state() == Set::<int>::empty(),
            Self::text_of(Set::<int>::empty()) == Seq::<char>::empty(),
            r.config().gc == if Self::gc_configurable() { gc } else { Self::inherent_gc() },
            r.config().compression == if Self::compression_configurable() {
                compression
            } else {
                Self::inherent_compression()
            },
    ;

    /// `Ok(v)`: garbage collection is togglable and `v` is the active setting.
    /// `Err(v)`: it is not togglable and `v` is the fixed, inherent value.
    fn gc(&self) -> (r: Result<bool, bool>)
        ensures
            r == if Self::gc_configurable() {
                Result::<bool, bool>::Ok(self.config().gc)
            } else {
                Result::<bool, bool>::Err(self.config().gc)
            },
    ;

    /// Same contract shape as `gc`, for compression.
    fn compression(&self) -> (r: Result<bool, bool>)
        ensures
            r == if Self::compression_configurable() {
                Result::<bool, bool>::Ok(self.config().compression)
            } else {
                Result::<bool, bool>::Err(self.config().compression)
            },
    ;

    /// Insert `text` at `pos` (native addressing). The new state grows from
    /// the old one; when `pos` is inside the current text the visible text is
    /// the old text with `text` spliced in at `pos`.
    fn text_insert(&mut self, pos: usize, text: &str)
        ensures
            final(self).state() == Self::ins_state(old(self).state(), pos as int, text@),
            old(self).state() <= final(self).state(),
            final(self).config() == old(self).config(),
            pos as int <= Self::text_of(old(self).state()).len() ==> Self::text_of(
                final(self).state(),
            ) == crate::engine::splice(
                Self::text_of(old(self).state()),
                pos as int,
                0,
                text@,
            ),
    ;

    /// Delete `len` units at `pos`. The new state grows from the old one; when
    /// the deleted range is inside the current text the visible text is the
    /// old text with that range removed.
    fn text_del(&mut self, pos: usize, len: usize)
        ensures
            final(self).state() == Self::del_state(old(self).state(), pos as int, len as int),
            old(self).state() <= final(self).state(),
            final(self).config() == old(self).config(),
            pos as int + len as int <= Self::text_of(old(self).state()).len() ==> Self::text_of(
                final(self).state(),
            ) == crate::engine::splice(
                Self::text_of(old(self).state()),
                pos as int,
                len as int,
                Seq::<char>::empty(),
            ),
    ;

    /// Materialize the current document content.
    fn get_text(&self) -> (r: String)
        ensures
            r@ == Self::text_of(self.state()),
    ;

    /// Produce a complete, self-contained snapshot of the document under the
    /// instance's active configuration. Its byte length is the benchmark metric.
    fn encode_full(&self) -> (r: Vec<u8>)
        ensures
            r@ == Self::encoding_of(self.config(), self.state()),
            Self::snapshot_ok(r@),
            Self::snapshot_state(r@) == self.state(),
    ;

    /// Ingest a full snapshot, merging it with the existing local state (never
    /// replacing it). A well-formed snapshot is always accepted.
    fn decode_full(&mut self, bytes: &Vec<u8>) -> (r: Result<(), DecodeError>)
        ensures
            final(self).config() == old(self).config(),
            Self::snapshot_ok(bytes@) ==> r is Ok,
            r is Ok ==> final(self).state() == old(self).state().union(
                Self::snapshot_state(bytes@),
            ),
    ;

    /// Snapshot of the instance's causal position, for identity comparison.
    fn version(&self) -> (r: Vec<u8>)
        ensures
            r@ == Self::version_of(self.state()),
    ;
}

/// The text that results from deleting `del` units at `pos` and inserting
/// `ins` there, when the deleted range lies inside `t`.
pub open spec fn splice(t: Seq<char>, pos: int, del: int, ins: Seq<char>) -> Seq<char> {
    t.subrange(0, pos) + ins + t.subrange(pos + del, t.len() as int)
}

/// The configuration an engine actually runs with after `create(gc, compression)`.
pub open spec fn actual_config<C: Crdt>(gc: bool, compression: bool) -> EngineConfig {
    EngineConfig {
        gc: if C::gc_configurable() {
            gc
        } else {
            C::inherent_gc()
        },
        compression: if C::compression_configurable() {
            compression
        } else {
            C::inherent_compression()
        },
    }
}

/// Whether the engine honors the requested configuration exactly. When it
/// does not, the benchmark run is skipped rather than run with wrong settings.
pub open spec fn honors<C: Crdt>(gc: bool, compression: bool) -> bool {
    actual_config::<C>(gc, compression) == EngineConfig { gc, compression }
}

} // verus!
