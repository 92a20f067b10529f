//! Reading a snapshot's markup: the first table of the page, its body
//! rows, their cells, and the nested element of each cell. The parsing and
//! the matching of selectors are scraper's; what is found is handed on as
//! the text that the elements hold, without their markup.

use crate::page::{Content, ContentView};
use crate::row::{Cell, CellView};
use vstd::string::StrSliceExecFns;
use vstd::prelude::*;

verus! {

/// scraper's parsed page. Nothing of its inside is read here.
#[verifier::external_type_specification]
#[verifier::external_body]
pub struct ExHtml(scraper::Html);

/// scraper's reference to one element of a parsed page.
#[verifier::external_type_specification]
#[verifier::external_body]
pub struct ExElementRef<'a>(scraper::ElementRef<'a>);

/// scraper's compiled selector.
#[verifier::external_type_specification]
#[verifier::external_body]
pub struct ExSelector(scraper::Selector);

/// The tree that scraper's `Html::parse_fragment` builds from `html`.
pub uninterp spec fn fragment(html: Seq<char>) -> scraper::Html;

/// The selector that scraper's `Selector::parse` reads from `css`; `None`
/// where it rejects the text.
pub uninterp spec fn compiled(css: Seq<char>) -> Option<scraper::Selector>;

/// The elements of `doc` that match `selector`, in the order in which
/// scraper's `Html::select` yields them.
pub uninterp spec fn document_matches(doc: scraper::Html, selector: scraper::Selector) -> Seq<
    scraper::ElementRef<'static>,
>;

/// The elements below `scope` that match `selector`, in the order in which
/// scraper's `ElementRef::select` yields them.
pub uninterp spec fn element_matches(
    scope: scraper::ElementRef<'_>,
    selector: scraper::Selector,
) -> Seq<scraper::ElementRef<'static>>;

/// The text inside `element`: the text nodes below it that scraper's
/// `ElementRef::text` yields, joined in the order in which it yields them.
pub uninterp spec fn text_content(element: scraper::ElementRef<'_>) -> Seq<char>;

/// The longest markup that is parsed, in characters. scraper holds the
/// markup, and each piece of text it reads from it, in buffers of at most
/// `u32::MAX` bytes and panics beyond that. A character takes at most four
/// bytes, and no piece of text takes more than four bytes for each character
/// of the markup, so a sixteenth of that figure is kept to.
pub const MARKUP_LIMIT: usize = 0x0FFF_FFFF;

/// Selects the tables of a page.
pub const TABLE: &'static str = "table";

/// Selects the body rows of a table.
pub const ROWS: &'static str = "tbody > tr";

/// Selects the cells of a row.
pub const CELLS: &'static str = "td";

/// Selects the nested elements of a cell.
pub const NESTED: &'static str = "div > div";

/// Calls scraper's `Html::parse_fragment`, which panics on a text that
/// does not fit its buffers: such a text is left out. Trusted: the tree
/// depends on the text alone.
#[verifier::external_body]
fn parse_fragment(html: &str) -> (doc: scraper::Html)
    requires
        html@.len() <= MARKUP_LIMIT,
    ensures
        doc == fragment(html@),
{
    scraper::Html::parse_fragment(html)
}

/// Calls scraper's `Selector::parse` and drops the error. Trusted: whether
/// the text is accepted, and as which selector, depends on the text alone.
#[verifier::external_body]
fn compile(css: &str) -> (selector: Option<scraper::Selector>)
    ensures
        selector == compiled(css@),
{
    scraper::Selector::parse(css).ok()
}

/// Calls scraper's `Html::select` and collects what it yields. Trusted:
/// the elements and their order depend on the tree and the selector alone.
#[verifier::external_body]
fn select_in_document<'a>(doc: &'a scraper::Html, selector: &scraper::Selector) -> (found: Vec<
    scraper::ElementRef<'a>,
>)
    ensures
        found@ == document_matches(*doc, *selector),
{
    doc.select(selector).collect()
}

/// Calls scraper's `ElementRef::select` and collects what it yields.
/// Trusted: the elements and their order depend on the scope and the
/// selector alone.
#[verifier::external_body]
fn select_in_element<'a>(scope: scraper::ElementRef<'a>, selector: &scraper::Selector) -> (found:
    Vec<scraper::ElementRef<'a>>)
    ensures
        found@ == element_matches(scope, *selector),
{
    scope.select(selector).collect()
}

/// Calls scraper's `ElementRef::text` and joins what it yields, in order.
/// Trusted: the text depends on the element alone.
#[verifier::external_body]
fn text_inside(element: scraper::ElementRef<'_>) -> (text: String)
    ensures
        text@ == text_content(element),
{
    element.text().collect()
}

/// The selector that `css` writes, where scraper accepts it.
pub open spec fn selector(css: Seq<char>) -> scraper::Selector {
    compiled(css)->0
}

/// Whether scraper accepts the four selectors that the reading needs.
pub open spec fn lookups_available() -> bool {
    &&& compiled(TABLE@) is Some
    &&& compiled(ROWS@) is Some
    &&& compiled(CELLS@) is Some
    &&& compiled(NESTED@) is Some
}

/// What is read of the cell `cell`: the text inside it, and the text
/// inside its first nested element, where it has one.
pub open spec fn cell_of(cell: scraper::ElementRef<'_>) -> CellView {
    let inner = element_matches(cell, selector(NESTED@));
    CellView {
        content: text_content(cell),
        nested: if inner.len() > 0 {
            Some(text_content(inner[0]))
        } else {
            None
        },
    }
}

/// The cells of the row `row`, in order.
pub open spec fn row_of(row: scraper::ElementRef<'_>) -> Seq<CellView> {
    element_matches(row, selector(CELLS@)).map_values(
        |cell: scraper::ElementRef<'static>| cell_of(cell),
    )
}

/// The body rows of the table `table`, in order.
pub open spec fn rows_of(table: scraper::ElementRef<'_>) -> Seq<Seq<CellView>> {
    element_matches(table, selector(ROWS@)).map_values(
        |row: scraper::ElementRef<'static>| row_of(row),
    )
}

/// What is read of the page `html`: nothing where it is longer than
/// `MARKUP_LIMIT` characters, and else the body rows of its first table,
/// where it holds a table.
pub open spec fn table_of(html: Seq<char>) -> ContentView {
    let tables = document_matches(fragment(html), selector(TABLE@));
    if html.len() > MARKUP_LIMIT {
        ContentView::TooLong
    } else if tables.len() > 0 {
        ContentView::Table(rows_of(tables[0]))
    } else {
        ContentView::NoTable
    }
}

/// The four selectors that the reading needs, compiled once.
pub struct Lookups {
    table: scraper::Selector,
    rows: scraper::Selector,
    cells: scraper::Selector,
    nested: scraper::Selector,
}

impl Lookups {
    #[verifier::type_invariant]
    spec fn holds_the_selectors(self) -> bool {
        &&& compiled(TABLE@) == Some(self.table)
        &&& compiled(ROWS@) == Some(self.rows)
        &&& compiled(CELLS@) == Some(self.cells)
        &&& compiled(NESTED@) == Some(self.nested)
    }

    /// Compiles the selectors; `None` where scraper rejects one of them.
    pub fn new() -> (made: Option<Lookups>)
        ensures
            made is Some <==> lookups_available(),
    {
        let table = compile(TABLE);
        let rows = compile(ROWS);
        let cells = compile(CELLS);
        let nested = compile(NESTED);
        match (table, rows, cells, nested) {
            (Some(table), Some(rows), Some(cells), Some(nested)) => Some(
                Lookups { table, rows, cells, nested },
            ),
            _ => None,
        }
    }

    /// Reads one cell.
    fn read_cell(&self, cell: scraper::ElementRef<'_>) -> (read: Cell)
        ensures
            read.deep_view() == cell_of(cell),
    {
        proof {
            use_type_invariant(self);
        }
        let inner = select_in_element(cell, &self.nested);
        let nested = if inner.len() > 0 {
            Some(text_inside(inner[0]))
        } else {
            None
        };
        Cell { content: text_inside(cell), nested }
    }

    /// Reads the cells of one row.
    fn read_row(&self, row: scraper::ElementRef<'_>) -> (read: Vec<Cell>)
        ensures
            read.deep_view() == row_of(row),
    {
        proof {
            use_type_invariant(self);
        }
        let found = select_in_element(row, &self.cells);
        let mut read: Vec<Cell> = Vec::new();
        let mut at: usize = 0;
        while at < found.len()
            invariant
                at <= found@.len(),
                found@ == element_matches(row, selector(CELLS@)),
                read@.len() == at,
                forall|i: int| 0 <= i < at ==> (#[trigger] read@[i]).deep_view() == cell_of(found@[i]),
            decreases found@.len() - at,
        {
            let cell = self.read_cell(found[at]);
            read.push(cell);
            at = at + 1;
        }
        read
    }

    /// Reads the body rows of one table.
    fn read_rows(&self, table: scraper::ElementRef<'_>) -> (read: Vec<Vec<Cell>>)
        ensures
            read.deep_view() == rows_of(table),
    {
        proof {
            use_type_invariant(self);
        }
        let found = select_in_element(table, &self.rows);
        let mut read: Vec<Vec<Cell>> = Vec::new();
        let mut at: usize = 0;
        while at < found.len()
            invariant
                at <= found@.len(),
                found@ == element_matches(table, selector(ROWS@)),
                read@.len() == at,
                forall|i: int| 0 <= i < at ==> (#[trigger] read@[i]).deep_view() == row_of(found@[i]),
            decreases found@.len() - at,
        {
            let row = self.read_row(found[at]);
            read.push(row);
            at = at + 1;
        }
        read
    }

    /// Reads the body rows of the first table of a page, with the cells of
    /// each. A page of more than `MARKUP_LIMIT` characters is not parsed.
    pub fn read_table(&self, html: &str) -> (read: Content)
        ensures
            read.deep_view() == table_of(html@),
    {
        proof {
            use_type_invariant(self);
        }
        if html.unicode_len() > MARKUP_LIMIT {
            return Content::TooLong;
        }
        let doc = parse_fragment(html);
        let tables = select_in_document(&doc, &self.table);
        if tables.len() > 0 {
            Content::Table(self.read_rows(tables[0]))
        } else {
            Content::NoTable
        }
    }
}

} // verus!
