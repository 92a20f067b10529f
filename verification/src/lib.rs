//! Locker allocations of fitness studios over time, read from archived
//! captures of a statistics page.
//!
//! Each capture is a snapshot: an id, the time of capture and the page's
//! markup. The first table of the page is read row by row; a row gives a
//! record (date, studio, allocation in percent) or a note on why it gave
//! none. The records of all snapshots, in order, make up a table of three
//! columns. A page without a table and a row that cannot be read are
//! skipped and counted; neither stops the run.
//!
//! The markup is parsed and searched by scraper, and capture times are
//! parsed by chrono. What is claimed of them without proof stands in
//! `markup` and `wof_date_format`, each claim beside the call it is about.

pub mod dataset;
pub mod markup;
pub mod page;
pub mod pipeline;
pub mod report;
pub mod row;
pub mod text;
pub mod wof_date_format;
