//! The final table: one column of dates, one of studios and one of
//! allocations, row by row in the order of the records.

use crate::page::{Record, RecordView};
use crate::report::{decimal, write_decimal};
use crate::text::magnitude;
use crate::wof_date_format::Timestamp;
use vstd::prelude::*;
use vstd::string::StringExecFns;

verus! {

/// The name of the column of dates.
pub const DATE_COLUMN: &'static str = "Date";

/// The name of the column of studios.
pub const STUDIO_COLUMN: &'static str = "Studio";

/// The name of the column of allocations.
pub const ALLOCATION_COLUMN: &'static str = "NumAllocatedLockers";

/// The name of the zone whose clocks stand `offset_seconds` east of UTC
/// all year, as the time zone database lists it: `Etc/GMT`, or `Etc/GMT-`
/// and the hours for a zone east of UTC, or `Etc/GMT+` and the hours for one
/// west of it. It lists whole hours only, up to 14 east and 12 west.
pub open spec fn zone_text(offset_seconds: int) -> Option<Seq<char>> {
    let hours = magnitude(offset_seconds) / 3600;
    if magnitude(offset_seconds) % 3600 != 0 {
        None
    } else if offset_seconds == 0 {
        Some("Etc/GMT"@)
    } else if offset_seconds > 0 && hours <= 14 {
        Some("Etc/GMT-"@ + decimal(hours as nat))
    } else if offset_seconds < 0 && hours <= 12 {
        Some("Etc/GMT+"@ + decimal(hours as nat))
    } else {
        None
    }
}

/// Names the zone of a column of dates that were all taken
/// `offset_seconds` east of UTC, so that the dates keep their civil time.
pub fn zone_label(offset_seconds: i32) -> (label: Option<String>)
    ensures
        label.deep_view() == zone_text(offset_seconds as int),
{
    let wide: i64 = offset_seconds as i64;
    let size: u64 = if wide < 0 {
        (-wide) as u64
    } else {
        wide as u64
    };
    if size % 3600 != 0 {
        return None;
    }
    let hours: u64 = size / 3600;
    if offset_seconds == 0 {
        Some(String::from_str("Etc/GMT"))
    } else if offset_seconds > 0 && hours <= 14 {
        let mut label = String::from_str("Etc/GMT-");
        label.append(write_decimal(hours as u128).as_str());
        Some(label)
    } else if offset_seconds < 0 && hours <= 12 {
        let mut label = String::from_str("Etc/GMT+");
        label.append(write_decimal(hours as u128).as_str());
        Some(label)
    } else {
        None
    }
}

/// Three columns of one length.
#[derive(Debug)]
pub struct Dataset {
    dates: Vec<Timestamp>,
    studios: Vec<String>,
    allocations: Vec<u32>,
}

/// The columns of a `Dataset` as plain values.
pub struct DatasetView {
    pub dates: Seq<Timestamp>,
    pub studios: Seq<Seq<char>>,
    pub allocations: Seq<u32>,
}

/// Why three columns make no table.
#[derive(Clone, Copy, Debug, PartialEq, Eq, Structural)]
pub enum AssemblyError {
    /// The columns have these lengths, which are not all the same.
    LengthMismatch { dates: usize, studios: usize, allocations: usize },
}

/// The columns that hold the given records, row by row: the date as it
/// is, offset included, the studio, and the allocation widened.
pub open spec fn columns_of(records: Seq<RecordView>) -> DatasetView {
    DatasetView {
        dates: records.map_values(|r: RecordView| r.date),
        studios: records.map_values(|r: RecordView| r.studio),
        allocations: records.map_values(|r: RecordView| r.allocation as u32),
    }
}

impl DeepView for Dataset {
    type V = DatasetView;

    closed spec fn deep_view(&self) -> DatasetView {
        DatasetView {
            dates: self.dates@,
            studios: self.studios.deep_view(),
            allocations: self.allocations@,
        }
    }
}

impl Dataset {
    #[verifier::type_invariant]
    spec fn columns_align(self) -> bool {
        self.dates@.len() == self.studios@.len() == self.allocations@.len()
    }

    /// Makes a table of three columns. Columns of different lengths are
    /// refused.
    pub fn from_columns(dates: Vec<Timestamp>, studios: Vec<String>, allocations: Vec<u32>) -> (r:
        Result<Dataset, AssemblyError>)
        ensures
            match r {
                Ok(table) => {
                    &&& dates@.len() == studios@.len() == allocations@.len()
                    &&& table.deep_view() == (DatasetView {
                        dates: dates@,
                        studios: studios.deep_view(),
                        allocations: allocations@,
                    })
                },
                Err(e) => {
                    &&& !(dates@.len() == studios@.len() == allocations@.len())
                    &&& e == (AssemblyError::LengthMismatch {
                        dates: dates@.len() as usize,
                        studios: studios@.len() as usize,
                        allocations: allocations@.len() as usize,
                    })
                },
            },
    {
        if dates.len() == studios.len() && studios.len() == allocations.len() {
            Ok(Dataset { dates, studios, allocations })
        } else {
            Err(
                AssemblyError::LengthMismatch {
                    dates: dates.len(),
                    studios: studios.len(),
                    allocations: allocations.len(),
                },
            )
        }
    }

    /// The number of rows, which is the length of each column.
    pub fn height(&self) -> (rows: usize)
        ensures
            rows == self.deep_view().dates.len(),
            rows == self.deep_view().studios.len(),
            rows == self.deep_view().allocations.len(),
    {
        proof {
            use_type_invariant(self);
        }
        self.dates.len()
    }

    /// The column of dates.
    pub fn dates(&self) -> (column: &Vec<Timestamp>)
        ensures
            column@ == self.deep_view().dates,
    {
        &self.dates
    }

    /// The column of dates as milliseconds since 1970-01-01 00:00:00 UTC,
    /// for a table whose dates were all taken `offset_seconds` east of UTC;
    /// `None` where one of them was taken at another offset.
    pub fn millis_at(&self, offset_seconds: i32) -> (column: Option<Vec<i64>>)
        ensures
            column is Some <==> forall|i: int|
                0 <= i < self.deep_view().dates.len() ==> (
                #[trigger] self.deep_view().dates[i]).offset_seconds == offset_seconds,
            column matches Some(millis) ==> millis@ == self.deep_view().dates.map_values(
                |date: Timestamp| date.utc_millis,
            ),
    {
        let mut millis: Vec<i64> = Vec::new();
        let mut at: usize = 0;
        while at < self.dates.len()
            invariant
                at <= self.dates@.len(),
                millis@.len() == at,
                forall|i: int|
                    0 <= i < at ==> (#[trigger] self.dates@[i]).offset_seconds == offset_seconds,
                forall|i: int| 0 <= i < at ==> millis@[i] == (#[trigger] self.dates@[i]).utc_millis,
            decreases self.dates@.len() - at,
        {
            if self.dates[at].offset_seconds != offset_seconds {
                assert(self.deep_view().dates[at as int].offset_seconds != offset_seconds);
                return None;
            }
            millis.push(self.dates[at].utc_millis);
            at = at + 1;
        }
        assert(millis@ == self.dates@.map_values(|date: Timestamp| date.utc_millis));
        Some(millis)
    }

    /// The column of studios.
    pub fn studios(&self) -> (column: &Vec<String>)
        ensures
            column.deep_view() == self.deep_view().studios,
    {
        &self.studios
    }

    /// The column of allocations.
    pub fn allocations(&self) -> (column: &Vec<u32>)
        ensures
            column@ == self.deep_view().allocations,
    {
        &self.allocations
    }
}

/// Builds the table of the given records: one row for each record, in
/// their order. The check on the columns' lengths is made, and never fails.
pub fn assemble(records: &Vec<Record>) -> (r: Result<Dataset, AssemblyError>)
    ensures
        r matches Ok(table) && table.deep_view() == columns_of(records.deep_view()),
{
    let mut dates: Vec<Timestamp> = Vec::new();
    let mut studios: Vec<String> = Vec::new();
    let mut allocations: Vec<u32> = Vec::new();
    let mut at: usize = 0;
    while at < records.len()
        invariant
            at <= records@.len(),
            dates@.len() == at,
            studios@.len() == at,
            allocations@.len() == at,
            forall|i: int| 0 <= i < at ==> dates@[i] == (#[trigger] records@[i]).date,
            forall|i: int| 0 <= i < at ==> (#[trigger] studios@[i])@ == records@[i].studio@,
            forall|i: int|
                0 <= i < at ==> allocations@[i] == (#[trigger] records@[i]).allocation as u32,
        decreases records@.len() - at,
    {
        let record = &records[at];
        dates.push(record.date);
        studios.push(record.studio.clone());
        allocations.push(record.allocation as u32);
        at = at + 1;
    }
    proof {
        let wanted = columns_of(records.deep_view());
        assert(dates@ == wanted.dates);
        assert(studios.deep_view() == wanted.studios);
        assert(allocations@ == wanted.allocations);
    }
    Dataset::from_columns(dates, studios, allocations)
}

/// The table of any records has one row for each of them, in each of its
/// three columns.
pub proof fn lemma_columns_have_one_length(records: Seq<RecordView>)
    ensures
        columns_of(records).dates.len() == records.len(),
        columns_of(records).studios.len() == records.len(),
        columns_of(records).allocations.len() == records.len(),
{
}

} // verus!
