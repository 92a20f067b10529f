//! One page: from the rows of its table to records, a status and the rows
//! that gave none.

use crate::row::{
    allocation_of, parse_studio_and_locker_allocation, row_outcome, Cell, CellView, RowFailure,
    CELLS_PER_ROW,
};
use crate::text::trimmed;
use crate::wof_date_format::Timestamp;
use vstd::prelude::*;

verus! {

/// One observation: at `date`, `studio` had `allocation` percent of the
/// lockers.
#[derive(Clone, Debug, PartialEq, Eq)]
pub struct Record {
    pub date: Timestamp,
    pub studio: String,
    pub allocation: u8,
}

/// A `Record` as plain values.
pub struct RecordView {
    pub date: Timestamp,
    pub studio: Seq<char>,
    pub allocation: u8,
}

impl DeepView for Record {
    type V = RecordView;

    open spec fn deep_view(&self) -> RecordView {
        RecordView { date: self.date, studio: self.studio@, allocation: self.allocation }
    }
}

/// What was read of a page's markup.
#[derive(Debug)]
pub enum Content {
    /// The markup is too long to be parsed, and was not.
    TooLong,
    /// The markup holds no table.
    NoTable,
    /// The cells of each body row of the first table.
    Table(Vec<Vec<Cell>>),
}

/// A `Content` as plain values.
pub enum ContentView {
    TooLong,
    NoTable,
    Table(Seq<Seq<CellView>>),
}

impl DeepView for Content {
    type V = ContentView;

    open spec fn deep_view(&self) -> ContentView {
        match self {
            Content::TooLong => ContentView::TooLong,
            Content::NoTable => ContentView::NoTable,
            Content::Table(rows) => ContentView::Table(rows.deep_view()),
        }
    }
}

/// How much of a page could be read.
#[derive(Clone, Copy, Debug, PartialEq, Eq, Structural)]
pub enum PageStatus {
    /// The page's markup is too long to be parsed.
    TooLong,
    /// The page holds no table.
    NoTable,
    /// The page holds a table, and every row of it gave a record.
    FullyParsed,
    /// The page holds a table, and at least one row of it gave none.
    PartiallyParsed,
}

/// A row that gave no record: its position in the table, from 0, and why.
#[derive(Clone, Copy, Debug, PartialEq, Eq, Structural)]
pub struct RowDiagnostic {
    pub row: usize,
    pub reason: RowFailure,
}

/// What one page gives.
#[derive(Debug)]
pub struct PageResult {
    /// The records of the rows that could be read, in the order of the rows.
    pub records: Vec<Record>,
    pub status: PageStatus,
    /// The number of rows of the table; 0 where no table was read.
    pub rows_total: usize,
    /// The rows that gave no record, in the order of the rows.
    pub failures: Vec<RowDiagnostic>,
}

/// A `PageResult` as plain values.
pub struct PageResultView {
    pub records: Seq<RecordView>,
    pub status: PageStatus,
    pub rows_total: nat,
    pub failures: Seq<RowDiagnostic>,
}

impl DeepView for PageResult {
    type V = PageResultView;

    open spec fn deep_view(&self) -> PageResultView {
        PageResultView {
            records: self.records.deep_view(),
            status: self.status,
            rows_total: self.rows_total as nat,
            failures: self.failures@,
        }
    }
}

impl PageResult {
    /// Tests `wf`.
    pub fn is_wf(&self) -> (ok: bool)
        ensures
            ok == self.wf(),
    {
        let held: u128 = self.records.len() as u128 + self.failures.len() as u128;
        let counted = self.rows_total as u128 == held;
        let told = match self.status {
            PageStatus::TooLong => self.rows_total == 0,
            PageStatus::NoTable => self.rows_total == 0,
            PageStatus::FullyParsed => self.failures.len() == 0,
            PageStatus::PartiallyParsed => self.failures.len() > 0,
        };
        counted && told
    }

    /// Every row gave a record or a failure, and the status says whether
    /// there was a failure.
    pub open spec fn wf(&self) -> bool {
        &&& self.rows_total == self.records@.len() + self.failures@.len()
        &&& self.status == PageStatus::TooLong ==> self.rows_total == 0
        &&& self.status == PageStatus::NoTable ==> self.rows_total == 0
        &&& self.status == PageStatus::FullyParsed ==> self.failures@.len() == 0
        &&& self.status == PageStatus::PartiallyParsed ==> self.failures@.len() > 0
    }
}

/// The records of the given rows taken at `date`: one for each row that has
/// a studio and an allocation, in the order of the rows.
pub open spec fn page_records(date: Timestamp, rows: Seq<Seq<CellView>>) -> Seq<RecordView>
    decreases rows.len(),
{
    if rows.len() == 0 {
        Seq::empty()
    } else {
        let before = page_records(date, rows.drop_last());
        match row_outcome(rows.last()) {
            Ok(pair) => before.push(RecordView { date, studio: pair.0, allocation: pair.1 }),
            Err(_) => before,
        }
    }
}

/// The rows that give no record, each with its position and the reason, in
/// the order of the rows.
pub open spec fn page_failures(rows: Seq<Seq<CellView>>) -> Seq<RowDiagnostic>
    decreases rows.len(),
{
    if rows.len() == 0 {
        Seq::empty()
    } else {
        let before = page_failures(rows.drop_last());
        match row_outcome(rows.last()) {
            Ok(_) => before,
            Err(reason) => before.push(
                RowDiagnostic { row: (rows.len() - 1) as usize, reason },
            ),
        }
    }
}

/// What a page without rows gives.
pub open spec fn nothing_read(status: PageStatus) -> PageResultView {
    PageResultView { records: Seq::empty(), status, rows_total: 0, failures: Seq::empty() }
}

/// What a page gives of which `content` was read.
pub open spec fn page_outcome(date: Timestamp, content: ContentView) -> PageResultView {
    match content {
        ContentView::TooLong => nothing_read(PageStatus::TooLong),
        ContentView::NoTable => nothing_read(PageStatus::NoTable),
        ContentView::Table(rows) => PageResultView {
            records: page_records(date, rows),
            status: if page_failures(rows).len() == 0 {
                PageStatus::FullyParsed
            } else {
                PageStatus::PartiallyParsed
            },
            rows_total: rows.len(),
            failures: page_failures(rows),
        },
    }
}

/// Each row gives exactly one record or one failure.
pub proof fn lemma_rows_are_counted(date: Timestamp, rows: Seq<Seq<CellView>>)
    ensures
        page_records(date, rows).len() + page_failures(rows).len() == rows.len(),
    decreases rows.len(),
{
    if rows.len() > 0 {
        lemma_rows_are_counted(date, rows.drop_last());
    }
}

/// The records of two runs of rows, one after the other, are the records of
/// the first followed by the records of the second: what a row gives depends
/// on that row alone.
pub proof fn lemma_records_of_concat(
    date: Timestamp,
    first: Seq<Seq<CellView>>,
    second: Seq<Seq<CellView>>,
)
    ensures
        page_records(date, first + second) == page_records(date, first) + page_records(
            date,
            second,
        ),
    decreases second.len(),
{
    if second.len() > 0 {
        assert((first + second).drop_last() == first + second.drop_last());
        lemma_records_of_concat(date, first, second.drop_last());
    }
}

/// A row with other than two cells gives no record, and the records of the
/// rows around it are what they would be without it.
pub proof fn lemma_miscounted_row_is_skipped(
    date: Timestamp,
    before: Seq<Seq<CellView>>,
    row: Seq<CellView>,
    after: Seq<Seq<CellView>>,
)
    requires
        row.len() != CELLS_PER_ROW,
    ensures
        row_outcome(row) is Err,
        page_records(date, seq![row]) == Seq::<RecordView>::empty(),
        page_records(date, before + seq![row] + after) == page_records(date, before + after),
{
    let one = seq![row];
    assert(page_records(date, one.drop_last()) == Seq::<RecordView>::empty());
    lemma_records_of_concat(date, before, one);
    lemma_records_of_concat(date, before + one, after);
    lemma_records_of_concat(date, before, after);
}

/// Where every row of a table has a studio and an allocation, the page
/// gives as many records as the table has rows, the record at each
/// position is that of the row at the same position, with the trimmed
/// content of its first cell as studio and the allocation that its nested
/// element states, and no row fails.
pub proof fn lemma_well_formed_rows(date: Timestamp, rows: Seq<Seq<CellView>>)
    requires
        forall|i: int| 0 <= i < rows.len() ==> row_outcome(#[trigger] rows[i]) is Ok,
    ensures
        page_records(date, rows).len() == rows.len(),
        page_failures(rows).len() == 0,
        page_outcome(date, ContentView::Table(rows)).status == PageStatus::FullyParsed,
        forall|i: int|
            0 <= i < rows.len() ==> {
                let record = #[trigger] page_records(date, rows)[i];
                &&& record.date == date
                &&& rows[i].len() == CELLS_PER_ROW
                &&& record.studio == trimmed(rows[i][0].content)
                &&& rows[i][1].nested matches Some(text) && allocation_of(text) == Ok::<
                    u8,
                    RowFailure,
                >(record.allocation)
            },
    decreases rows.len(),
{
    if rows.len() > 0 {
        let front = rows.drop_last();
        lemma_well_formed_rows(date, front);
    }
}

/// Reads the rows of a page's table, where one was read. A row that
/// cannot be read is noted and does not stop the rows after it.
pub fn extract_page(date: Timestamp, content: &Content) -> (page: PageResult)
    ensures
        page.deep_view() == page_outcome(date, content.deep_view()),
        page.wf(),
{
    let mut records: Vec<Record> = Vec::new();
    let mut failures: Vec<RowDiagnostic> = Vec::new();
    assert(records.deep_view() == Seq::<RecordView>::empty());
    match content {
        Content::TooLong => {
            PageResult { records, status: PageStatus::TooLong, rows_total: 0, failures }
        },
        Content::NoTable => {
            PageResult { records, status: PageStatus::NoTable, rows_total: 0, failures }
        },
        Content::Table(rows) => {
            let ghost all = rows.deep_view();
            let mut at: usize = 0;
            while at < rows.len()
                invariant
                    at <= rows@.len(),
                    all == rows.deep_view(),
                    records.deep_view() == page_records(date, all.take(at as int)),
                    failures@ == page_failures(all.take(at as int)),
                decreases rows@.len() - at,
            {
                proof {
                    assert(all.take(at + 1).drop_last() == all.take(at as int));
                }
                match parse_studio_and_locker_allocation(&rows[at]) {
                    Ok(pair) => {
                        let record = Record { date, studio: pair.0, allocation: pair.1 };
                        records.push(record);
                    },
                    Err(reason) => {
                        failures.push(RowDiagnostic { row: at, reason });
                    },
                }
                at = at + 1;
            }
            proof {
                assert(all.take(at as int) == all);
                lemma_rows_are_counted(date, all);
            }
            let status = if failures.len() == 0 {
                PageStatus::FullyParsed
            } else {
                PageStatus::PartiallyParsed
            };
            PageResult { records, status, rows_total: rows.len(), failures }
        },
    }
}

} // verus!
