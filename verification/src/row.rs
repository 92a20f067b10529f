//! One table row: from the contents of its cells to a studio and its
//! allocation, or to the reason why the row gives none.

use crate::text::{
    before_percent, chars_of, find_percent, lemma_first_percent, lemma_parse_in_range, magnitude,
    narrow, narrowed, parse_i16, read_i16, trim, trim_bounds, trimmed, IntegerFault,
};
use vstd::prelude::*;

verus! {

/// What is read of one cell of a row.
#[derive(Debug)]
pub struct Cell {
    /// The text inside the cell, without its markup.
    pub content: String,
    /// The text inside the first element of the cell that is a `div`
    /// directly inside a `div`, where the cell holds one.
    pub nested: Option<String>,
}

/// A `Cell` as plain text.
pub struct CellView {
    pub content: Seq<char>,
    pub nested: Option<Seq<char>>,
}

impl DeepView for Cell {
    type V = CellView;

    open spec fn deep_view(&self) -> CellView {
        CellView { content: self.content@, nested: self.nested.deep_view() }
    }
}

/// Why a row gives no studio and allocation.
#[derive(Clone, Copy, Debug, PartialEq, Eq, Structural)]
pub enum RowFailure {
    /// The row has this many cells, and not two.
    CellCount(usize),
    /// The second cell holds no `div` directly inside a `div`.
    LocatorMissing,
    /// The allocation text holds no `%`.
    PercentMissing,
    /// What stands before the `%` is no signed 16-bit number.
    NotANumber(IntegerFault),
}

/// The number of cells that a row must have.
pub const CELLS_PER_ROW: usize = 2;

/// The allocation that a piece of text states: the text is trimmed, what
/// stands before its first `%` is read as a signed 16-bit number, and the
/// magnitude of that number is narrowed to eight bits. A number above 100
/// is kept as it is; of a magnitude above 255 the low eight bits remain.
pub open spec fn allocation_of(text: Seq<char>) -> Result<u8, RowFailure> {
    match before_percent(trimmed(text)) {
        None => Err(RowFailure::PercentMissing),
        Some(number) => match parse_i16(number) {
            Ok(n) => Ok(narrowed(n) as u8),
            Err(fault) => Err(RowFailure::NotANumber(fault)),
        },
    }
}

/// The studio and allocation of a row with the given cells, or why it has
/// none. The studio is the trimmed content of the first cell; the allocation
/// comes from the text of the nested element of the second.
pub open spec fn row_outcome(cells: Seq<CellView>) -> Result<(Seq<char>, u8), RowFailure> {
    if cells.len() != CELLS_PER_ROW {
        Err(RowFailure::CellCount(cells.len() as usize))
    } else {
        match cells[1].nested {
            None => Err(RowFailure::LocatorMissing),
            Some(text) => match allocation_of(text) {
                Ok(allocation) => Ok((trimmed(cells[0].content), allocation)),
                Err(failure) => Err(failure),
            },
        }
    }
}

/// Reads the allocation that `text` states, such as `42%`.
pub fn parse_allocation(text: &str) -> (r: Result<u8, RowFailure>)
    ensures
        r == allocation_of(text@),
{
    let chars = chars_of(text);
    let bounds = trim_bounds(&chars);
    let at = find_percent(&chars, bounds.0, bounds.1);
    let ghost kept = trimmed(text@);
    proof {
        lemma_first_percent(kept, 0);
        assert(kept.subrange(0, at - bounds.0) == chars@.subrange(bounds.0 as int, at as int));
    }
    if at == bounds.1 {
        return Err(RowFailure::PercentMissing);
    }
    match read_i16(&chars, bounds.0, at) {
        Ok(n) => {
            proof {
                lemma_parse_in_range(kept.subrange(0, at - bounds.0));
            }
            Ok(narrow(n))
        },
        Err(fault) => Err(RowFailure::NotANumber(fault)),
    }
}

/// Reads the studio and its allocation from the cells of one row.
pub fn parse_studio_and_locker_allocation(cells: &Vec<Cell>) -> (r: Result<
    (String, u8),
    RowFailure,
>)
    ensures
        match r {
            Ok(pair) => row_outcome(cells.deep_view()) == Ok::<(Seq<char>, u8), RowFailure>(
                (pair.0@, pair.1),
            ),
            Err(failure) => row_outcome(cells.deep_view()) == Err::<(Seq<char>, u8), RowFailure>(
                failure,
            ),
        },
{
    if cells.len() != CELLS_PER_ROW {
        return Err(RowFailure::CellCount(cells.len()));
    }
    let studio = trim(cells[0].content.as_str());
    match &cells[1].nested {
        None => Err(RowFailure::LocatorMissing),
        Some(text) => match parse_allocation(text.as_str()) {
            Ok(allocation) => Ok((studio, allocation)),
            Err(failure) => Err(failure),
        },
    }
}

/// A row with other than two cells gives no studio and allocation, whatever
/// its cells hold.
pub proof fn lemma_cell_count_decides(cells: Seq<CellView>)
    requires
        cells.len() != CELLS_PER_ROW,
    ensures
        row_outcome(cells) == Err::<(Seq<char>, u8), RowFailure>(
            RowFailure::CellCount(cells.len() as usize),
        ),
{
}

/// The allocation is the magnitude of the number before the `%`: a number
/// between -255 and 255 gives its distance from zero, never a negative value.
pub proof fn lemma_sign_is_stripped(text: Seq<char>, n: int)
    requires
        before_percent(trimmed(text)) matches Some(number) && parse_i16(number) == Ok::<
            int,
            IntegerFault,
        >(n),
        -255 <= n <= 255,
    ensures
        allocation_of(text) == Ok::<u8, RowFailure>(magnitude(n) as u8),
        allocation_of(text) matches Ok(a) && a == magnitude(n) && a == magnitude(-n),
{
}

} // verus!
