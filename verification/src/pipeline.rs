//! The run over all snapshots: the records of every page, one after the
//! other, the four totals, and a note for each page or row that gave nothing.

use crate::page::{
    extract_page, page_outcome, Content, ContentView, PageResult, PageResultView, PageStatus,
    Record, RecordView, RowDiagnostic,
};
use crate::markup::{lookups_available, table_of, Lookups};
use crate::row::RowFailure;
use crate::wof_date_format::Timestamp;
use vstd::prelude::*;

verus! {

/// One capture of the statistics page.
#[derive(Clone, Debug, PartialEq, Eq)]
pub struct Snapshot {
    /// Names the snapshot in diagnostics.
    pub id: i64,
    pub captured_at: Timestamp,
    pub html: String,
}

/// A snapshot whose markup was read.
#[derive(Debug)]
pub struct Page {
    pub id: i64,
    pub captured_at: Timestamp,
    pub content: Content,
}

/// A `Page` as plain values.
pub struct PageView {
    pub id: i64,
    pub captured_at: Timestamp,
    pub content: ContentView,
}

impl DeepView for Page {
    type V = PageView;

    open spec fn deep_view(&self) -> PageView {
        PageView { id: self.id, captured_at: self.captured_at, content: self.content.deep_view() }
    }
}

/// A page or a row that gave no record.
#[derive(Clone, Copy, Debug, PartialEq, Eq, Structural)]
pub enum Diagnostic {
    /// The snapshot's markup is too long to be parsed.
    TooLong { snapshot: i64 },
    /// The snapshot holds no table.
    NoTable { snapshot: i64 },
    /// The row at position `row`, from 0, of the snapshot's table gave no
    /// record.
    Row { snapshot: i64, row: usize, reason: RowFailure },
}

/// How many snapshots and rows were seen, and how many of them were read.
#[derive(Clone, Copy, Debug, PartialEq, Eq, Structural)]
pub struct Totals {
    pub snapshots_total: usize,
    /// The snapshots with a table of which every row gave a record.
    pub snapshots_fully_parsed: usize,
    /// The rows of all tables. A page can hold more failing rows than
    /// records fit in memory, so this total is wider than the others.
    pub rows_total: u128,
    /// The rows that gave a record.
    pub rows_parsed: usize,
}

/// `Totals` as natural numbers.
pub struct TotalsView {
    pub snapshots_total: nat,
    pub snapshots_fully_parsed: nat,
    pub rows_total: nat,
    pub rows_parsed: nat,
}

impl View for Totals {
    type V = TotalsView;

    open spec fn view(&self) -> TotalsView {
        TotalsView {
            snapshots_total: self.snapshots_total as nat,
            snapshots_fully_parsed: self.snapshots_fully_parsed as nat,
            rows_total: self.rows_total as nat,
            rows_parsed: self.rows_parsed as nat,
        }
    }
}

/// What a run gives.
#[derive(Debug)]
pub struct Extraction {
    /// The records of all pages, in the order of the snapshots and, within
    /// a snapshot, of its rows.
    pub records: Vec<Record>,
    pub totals: Totals,
    /// The pages and rows that gave nothing, in the order in which they
    /// were met.
    pub diagnostics: Vec<Diagnostic>,
}

/// An `Extraction` as plain values.
pub struct ExtractionView {
    pub records: Seq<RecordView>,
    pub totals: TotalsView,
    pub diagnostics: Seq<Diagnostic>,
}

impl DeepView for Extraction {
    type V = ExtractionView;

    open spec fn deep_view(&self) -> ExtractionView {
        ExtractionView {
            records: self.records.deep_view(),
            totals: self.totals@,
            diagnostics: self.diagnostics@,
        }
    }
}

/// A run over no snapshot.
pub open spec fn nothing_seen() -> ExtractionView {
    ExtractionView {
        records: Seq::empty(),
        totals: TotalsView {
            snapshots_total: 0,
            snapshots_fully_parsed: 0,
            rows_total: 0,
            rows_parsed: 0,
        },
        diagnostics: Seq::empty(),
    }
}

/// The notes for the failing rows of the snapshot `snapshot`.
pub open spec fn row_diagnostics(snapshot: i64, failures: Seq<RowDiagnostic>) -> Seq<Diagnostic> {
    failures.map_values(
        |f: RowDiagnostic| Diagnostic::Row { snapshot, row: f.row, reason: f.reason },
    )
}

/// The notes for one page: one where its markup is too long or holds no
/// table, and one for each failing row.
pub open spec fn page_diagnostics(snapshot: i64, page: PageResultView) -> Seq<Diagnostic> {
    if page.status == PageStatus::TooLong {
        seq![Diagnostic::TooLong { snapshot }] + row_diagnostics(snapshot, page.failures)
    } else if page.status == PageStatus::NoTable {
        seq![Diagnostic::NoTable { snapshot }] + row_diagnostics(snapshot, page.failures)
    } else {
        row_diagnostics(snapshot, page.failures)
    }
}

/// The run `so_far`, with what the next page gave added to it.
pub open spec fn absorbed(so_far: ExtractionView, snapshot: i64, page: PageResultView) -> ExtractionView {
    ExtractionView {
        records: so_far.records + page.records,
        totals: TotalsView {
            snapshots_total: so_far.totals.snapshots_total + 1,
            snapshots_fully_parsed: if page.status == PageStatus::FullyParsed {
                so_far.totals.snapshots_fully_parsed + 1
            } else {
                so_far.totals.snapshots_fully_parsed
            },
            rows_total: so_far.totals.rows_total + page.rows_total,
            rows_parsed: so_far.totals.rows_parsed + page.records.len(),
        },
        diagnostics: so_far.diagnostics + page_diagnostics(snapshot, page),
    }
}

/// What the run over the given pages gives, page by page in their order.
pub open spec fn extraction_of(pages: Seq<PageView>) -> ExtractionView
    decreases pages.len(),
{
    if pages.len() == 0 {
        nothing_seen()
    } else {
        let last = pages.last();
        absorbed(
            extraction_of(pages.drop_last()),
            last.id,
            page_outcome(last.captured_at, last.content),
        )
    }
}

impl Extraction {
    /// Tests `wf`.
    pub fn is_wf(&self) -> (ok: bool)
        ensures
            ok == self.wf(),
    {
        let held: u128 = self.records.len() as u128 + self.diagnostics.len() as u128;
        self.totals.rows_parsed == self.records.len() && self.totals.rows_parsed as u128
            <= self.totals.rows_total && self.totals.rows_total <= held
            && self.totals.snapshots_fully_parsed <= self.totals.snapshots_total
    }

    /// The totals agree with what is held: every record is a parsed row,
    /// no more rows are parsed than were seen, and no more snapshots fully
    /// parsed than were seen.
    pub open spec fn wf(&self) -> bool {
        &&& self.totals.rows_parsed == self.records@.len()
        &&& self.totals.rows_parsed <= self.totals.rows_total
        &&& self.totals.rows_total <= self.records@.len() + self.diagnostics@.len()
        &&& self.totals.snapshots_fully_parsed <= self.totals.snapshots_total
    }

    /// A run that has seen nothing yet.
    pub fn new() -> (fresh: Extraction)
        ensures
            fresh.wf(),
            fresh.deep_view() == nothing_seen(),
    {
        let fresh = Extraction {
            records: Vec::new(),
            totals: Totals {
                snapshots_total: 0,
                snapshots_fully_parsed: 0,
                rows_total: 0,
                rows_parsed: 0,
            },
            diagnostics: Vec::new(),
        };
        assert(fresh.records.deep_view() == Seq::<RecordView>::empty());
        fresh
    }

    /// Adds what the page of snapshot `snapshot` gave.
    pub fn absorb(&mut self, snapshot: i64, page: PageResult)
        requires
            old(self).wf(),
            page.wf(),
            old(self).totals.snapshots_total < usize::MAX,
        ensures
            final(self).wf(),
            final(self).deep_view() == absorbed(old(self).deep_view(), snapshot, page.deep_view()),
    {
        let ghost before = self.deep_view();
        let ghost noted = self.diagnostics@;
        let ghost given = page.deep_view();
        let PageResult { records, status, rows_total, failures } = page;
        assert(self.totals.rows_total <= 2 * usize::MAX) by {
            assert(self.diagnostics@.len() == self.diagnostics.len());
        }
        let rows_seen: u128 = self.totals.rows_total + (rows_total as u128);
        let mut incoming = records;
        self.records.append(&mut incoming);
        if status == PageStatus::TooLong {
            self.diagnostics.push(Diagnostic::TooLong { snapshot });
        } else if status == PageStatus::NoTable {
            self.diagnostics.push(Diagnostic::NoTable { snapshot });
        }
        let ghost start = self.diagnostics@;
        let mut at: usize = 0;
        while at < failures.len()
            invariant
                at <= failures@.len(),
                self.diagnostics@ == start + row_diagnostics(snapshot, failures@.take(at as int)),
                self.totals == old(self).totals,
                self.records.deep_view() == before.records + given.records,
            decreases failures@.len() - at,
        {
            let failure = failures[at];
            self.diagnostics.push(
                Diagnostic::Row { snapshot, row: failure.row, reason: failure.reason },
            );
            at = at + 1;
        }
        assert(self.diagnostics@ == noted + page_diagnostics(snapshot, given));
        let fully: usize = if status == PageStatus::FullyParsed {
            self.totals.snapshots_fully_parsed + 1
        } else {
            self.totals.snapshots_fully_parsed
        };
        self.totals = Totals {
            snapshots_total: self.totals.snapshots_total + 1,
            snapshots_fully_parsed: fully,
            rows_total: rows_seen,
            rows_parsed: self.records.len(),
        };
    }
}

/// Whether `all` is the run over the first `at` of `pages`.
pub open spec fn seen(all: &Extraction, pages: Seq<PageView>, at: int) -> bool {
    &&& all.wf()
    &&& all.totals.snapshots_total == at
    &&& all.deep_view() == extraction_of(pages.take(at))
}

/// Takes the run over the first `at` of `pages` one page further: reads
/// the rows of `page`, which is the page at `at`, and adds what they give.
fn step(all: &mut Extraction, page: &Page, Ghost(pages): Ghost<Seq<PageView>>, Ghost(at): Ghost<int>)
    requires
        0 <= at < pages.len() <= usize::MAX,
        pages[at] == page.deep_view(),
        seen(old(all), pages, at),
    ensures
        seen(final(all), pages, at + 1),
{
    proof {
        assert(pages.take(at + 1).drop_last() == pages.take(at));
    }
    let result = extract_page(page.captured_at, &page.content);
    all.absorb(page.id, result);
}

/// Reads every page in turn and adds up what they give.
pub fn run(pages: &Vec<Page>) -> (all: Extraction)
    ensures
        all.wf(),
        all.deep_view() == extraction_of(pages.deep_view()),
{
    let mut all = Extraction::new();
    let ghost views = pages.deep_view();
    let mut at: usize = 0;
    while at < pages.len()
        invariant
            at <= pages@.len(),
            views == pages.deep_view(),
            seen(&all, views, at as int),
        decreases pages@.len() - at,
    {
        step(&mut all, &pages[at], Ghost(views), Ghost(at as int));
        at = at + 1;
    }
    assert(views.take(at as int) == views);
    all
}

/// The pages of the given snapshots, as their markup reads.
pub open spec fn pages_of(snapshots: Seq<Snapshot>) -> Seq<PageView> {
    snapshots.map_values(
        |s: Snapshot| PageView { id: s.id, captured_at: s.captured_at, content: table_of(s.html@) },
    )
}

/// Reads the markup of one snapshot.
pub fn read_page(lookups: &Lookups, snapshot: &Snapshot) -> (page: Page)
    ensures
        page.deep_view() == (PageView {
            id: snapshot.id,
            captured_at: snapshot.captured_at,
            content: table_of(snapshot.html@),
        }),
{
    Page {
        id: snapshot.id,
        captured_at: snapshot.captured_at,
        content: lookups.read_table(snapshot.html.as_str()),
    }
}

/// Reads the snapshots one after the other, in their order, and adds up
/// what their pages give. The markup of a snapshot is dropped once its
/// page is read.
pub fn extract_all(lookups: &Lookups, snapshots: &Vec<Snapshot>) -> (all: Extraction)
    ensures
        all.wf(),
        all.deep_view() == extraction_of(pages_of(snapshots@)),
{
    let mut all = Extraction::new();
    let ghost views = pages_of(snapshots@);
    let mut at: usize = 0;
    while at < snapshots.len()
        invariant
            at <= snapshots@.len(),
            views == pages_of(snapshots@),
            seen(&all, views, at as int),
        decreases snapshots@.len() - at,
    {
        let page = read_page(lookups, &snapshots[at]);
        step(&mut all, &page, Ghost(views), Ghost(at as int));
        at = at + 1;
    }
    assert(views.take(at as int) == views);
    all
}

/// Extracts the records of all snapshots. `None` where scraper rejects one
/// of the selectors that the reading needs; no snapshot and no row stops
/// the run.
pub fn parse_wof_stats(snapshots: &Vec<Snapshot>) -> (r: Option<Extraction>)
    ensures
        r is Some <==> lookups_available(),
        r matches Some(all) ==> all.wf() && all.deep_view() == extraction_of(
            pages_of(snapshots@),
        ),
{
    match Lookups::new() {
        Some(lookups) => Some(extract_all(&lookups, snapshots)),
        None => None,
    }
}

/// After any run, no more rows are parsed than were seen, no more
/// snapshots fully parsed than were seen, every snapshot was counted, and
/// there are exactly as many records as parsed rows.
pub proof fn lemma_totals_are_ordered(pages: Seq<PageView>)
    ensures
        extraction_of(pages).totals.rows_parsed <= extraction_of(pages).totals.rows_total,
        extraction_of(pages).totals.snapshots_fully_parsed <= extraction_of(
            pages,
        ).totals.snapshots_total,
        extraction_of(pages).totals.snapshots_total == pages.len(),
        extraction_of(pages).records.len() == extraction_of(pages).totals.rows_parsed,
    decreases pages.len(),
{
    if pages.len() > 0 {
        lemma_totals_are_ordered(pages.drop_last());
        crate::page::lemma_rows_are_counted(
            pages.last().captured_at,
            match pages.last().content {
                ContentView::Table(rows) => rows,
                _ => Seq::empty(),
            },
        );
    }
}

/// A snapshot of which no table was read, because its markup holds none
/// or is too long, adds no record and no row, is counted as seen, and is
/// not counted as fully parsed.
pub proof fn lemma_page_without_table(
    pages: Seq<PageView>,
    id: i64,
    captured_at: Timestamp,
    content: ContentView,
)
    requires
        content is NoTable || content is TooLong,
    ensures
        ({
            let before = extraction_of(pages);
            let after = extraction_of(pages.push(PageView { id, captured_at, content }));
            let note = if content is NoTable {
                Diagnostic::NoTable { snapshot: id }
            } else {
                Diagnostic::TooLong { snapshot: id }
            };
            &&& after.records == before.records
            &&& after.totals.snapshots_total == before.totals.snapshots_total + 1
            &&& after.totals.snapshots_fully_parsed == before.totals.snapshots_fully_parsed
            &&& after.totals.rows_total == before.totals.rows_total
            &&& after.totals.rows_parsed == before.totals.rows_parsed
            &&& after.diagnostics == before.diagnostics.push(note)
        }),
{
    let added = pages.push(PageView { id, captured_at, content });
    assert(added.drop_last() == pages);
}

} // verus!
