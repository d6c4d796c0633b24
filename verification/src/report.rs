use vstd::prelude::*;
use vstd::string::StringExecFns;

use crate::digits::{bool_str, bool_view, dec_str, usize_to_string};
use crate::engine::{Crdt, EngineId};

verus! {

/// The outcome of one benchmark run: one engine under one configuration.
/// `doc_size` is the length of the final full snapshot, or `None` when the
/// engine could not honor the requested configuration and the run was skipped.
pub struct DocSizeReport {
    pub name: String,
    pub dataset_name: String,
    pub gc: Result<bool, bool>,
    pub compression: Result<bool, bool>,
    pub doc_size: Option<usize>,
}

/// A skipped or unsupported value, as the console lines and the table print it.
pub open spec fn unsupported_mark() -> Seq<char> {
    "x"@
}

/// How a capability answer is printed: the active setting, or the mark for
/// an engine that cannot configure the feature.
pub open spec fn capability_view(r: Result<bool, bool>) -> Seq<char> {
    match r {
        Ok(v) => bool_view(v),
        Err(_) => unsupported_mark(),
    }
}

/// How a measured size is printed: the decimal size, or the mark for a
/// skipped run.
pub open spec fn size_view(o: Option<usize>) -> Seq<char> {
    match o {
        Some(n) => dec_str(n as nat),
        None => unsupported_mark(),
    }
}

/// The one console line a run emits:
/// `<engine> gc <val> compression <val> doc_size <val>`.
pub open spec fn console_line_view(rec: DocSizeReport) -> Seq<char> {
    rec.name@ + " gc "@ + capability_view(rec.gc) + " compression "@ + capability_view(
        rec.compression,
    ) + " doc_size "@ + size_view(rec.doc_size)
}

impl DocSizeReport {
    /// Render the run's console line.
    pub fn console_line(&self) -> (r: String)
        ensures
            r@ == console_line_view(*self),
    {
        let mut line = String::from_str(self.name.as_str());
        line.append(" gc ");
        push_capability(&mut line, &self.gc);
        line.append(" compression ");
        push_capability(&mut line, &self.compression);
        line.append(" doc_size ");
        push_size(&mut line, self.doc_size);
        proof {
            assert(line@ =~= console_line_view(*self));
        }
        line
    }
}

fn push_capability(line: &mut String, r: &Result<bool, bool>)
    ensures
        final(line)@ == old(line)@ + capability_view(*r),
{
    match r {
        Ok(v) => line.append(bool_str(*v)),
        Err(_) => line.append("x"),
    }
}

fn push_size(line: &mut String, o: Option<usize>)
    ensures
        final(line)@ == old(line)@ + size_view(o),
{
    match o {
        Some(n) => {
            let s = usize_to_string(n);
            line.append(s.as_str());
        },
        None => line.append("x"),
    }
}

/// One table cell: the size (or the mark), padded as the table prints it.
pub open spec fn md_cell(o: Option<usize>) -> Seq<char> {
    " "@ + size_view(o) + " |"@
}

/// One table data row: a configuration label and the four engines' cells, in
/// the fixed column order loro, automerge, diamond-type, yrs.
pub open spec fn md_row(
    title: Seq<char>,
    loro: Option<usize>,
    automerge: Option<usize>,
    diamond_type: Option<usize>,
    yrs: Option<usize>,
) -> Seq<char> {
    "\n|"@ + title + "|"@ + md_cell(loro) + md_cell(automerge) + md_cell(diamond_type) + md_cell(
        yrs,
    )
}

/// All report records, keyed by engine identity, in per-engine insertion
/// order. A fully benchmarked engine has exactly four records, one per
/// configuration, in the fixed order (compression, gc) =
/// (false,false), (false,true), (true,false), (true,true).
pub struct ReportTable {
    pub loro: Vec<DocSizeReport>,
    pub automerge: Vec<DocSizeReport>,
    pub diamond_type: Vec<DocSizeReport>,
    pub yrs: Vec<DocSizeReport>,
}

impl ReportTable {
    /// The records collected so far for one engine, oldest first.
    pub open spec fn reports_of(self, id: EngineId) -> Seq<DocSizeReport> {
        match id {
            EngineId::Loro => self.loro@,
            EngineId::Automerge => self.automerge@,
            EngineId::DiamondType => self.diamond_type@,
            EngineId::Yrs => self.yrs@,
        }
    }

    /// Every engine has its full set of four records, so the table can be
    /// rendered by positional lookup.
    pub open spec fn complete(self) -> bool {
        forall|e: EngineId| (#[trigger] self.reports_of(e)).len() == 4
    }

    pub fn new() -> (t: ReportTable)
        ensures
            forall|e: EngineId| #[trigger] t.reports_of(e) == Seq::<DocSizeReport>::empty(),
    {
        ReportTable {
            loro: Vec::new(),
            automerge: Vec::new(),
            diamond_type: Vec::new(),
            yrs: Vec::new(),
        }
    }

    /// File one run's record under the engine that produced it.
    pub fn insert_report<C: Crdt>(&mut self, report: DocSizeReport)
        ensures
            final(self).reports_of(C::id_spec()) == old(self).reports_of(C::id_spec()).push(
                report,
            ),
            forall|e: EngineId|
                e != C::id_spec() ==> #[trigger] final(self).reports_of(e) == old(
                    self,
                ).reports_of(e),
    {
        match C::engine_id() {
            EngineId::Loro => self.loro.push(report),
            EngineId::Automerge => self.automerge.push(report),
            EngineId::DiamondType => self.diamond_type.push(report),
            EngineId::Yrs => self.yrs.push(report),
        }
    }

    /// The row of the table that belongs to configuration index `i`.
    pub open spec fn row_view(self, i: int, title: Seq<char>) -> Seq<char> {
        md_row(
            title,
            self.loro@[i].doc_size,
            self.automerge@[i].doc_size,
            self.diamond_type@[i].doc_size,
            self.yrs@[i].doc_size,
        )
    }

    /// The complete rendered comparison table.
    pub open spec fn md_view(self) -> Seq<char> {
        "|     |  loro  | automerge | diamond-type | yrs |\n"@
            + "|  ----  | ----  |  ----  | ----  |  ----  |"@ + self.row_view(0, ""@)
            + self.row_view(1, "gc"@) + self.row_view(2, "compress"@) + self.row_view(
            3,
            "gc & compress"@,
        ) + "\n"@
    }

    /// Render the Markdown comparison table: a fixed header, one row per
    /// configuration label, one column per engine, sizes or the mark for
    /// skipped runs.
    pub fn to_all_md(&self) -> (r: String)
        requires
            self.complete(),
        ensures
            r@ == self.md_view(),
    {
        let mut md = String::from_str("|     |  loro  | automerge | diamond-type | yrs |\n");
        md.append("|  ----  | ----  |  ----  | ----  |  ----  |");
        self.push_row(&mut md, 0, "");
        self.push_row(&mut md, 1, "gc");
        self.push_row(&mut md, 2, "compress");
        self.push_row(&mut md, 3, "gc & compress");
        md.append("\n");
        proof {
            assert(md@ =~= self.md_view());
        }
        md
    }

    fn push_row(&self, md: &mut String, i: usize, title: &str)
        requires
            self.complete(),
            i < 4,
        ensures
            final(md)@ == old(md)@ + self.row_view(i as int, title@),
    {
        proof {
            assert(self.reports_of(EngineId::Loro).len() == 4);
            assert(self.reports_of(EngineId::Automerge).len() == 4);
            assert(self.reports_of(EngineId::DiamondType).len() == 4);
            assert(self.reports_of(EngineId::Yrs).len() == 4);
        }
        md.append("\n|");
        md.append(title);
        md.append("|");
        push_cell(md, self.loro[i].doc_size);
        push_cell(md, self.automerge[i].doc_size);
        push_cell(md, self.diamond_type[i].doc_size);
        push_cell(md, self.yrs[i].doc_size);
        proof {
            assert(md@ =~= old(md)@ + self.row_view(i as int, title@));
        }
    }
}

fn push_cell(md: &mut String, o: Option<usize>)
    ensures
        final(md)@ == old(md)@ + md_cell(o),
{
    md.append(" ");
    push_size(md, o);
    md.append(" |");
    proof {
        assert(md@ =~= old(md)@ + md_cell(o));
    }
}

} // verus!
