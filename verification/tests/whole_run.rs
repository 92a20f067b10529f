use wof_stats::dataset::{
    assemble, zone_label, AssemblyError, Dataset, ALLOCATION_COLUMN, DATE_COLUMN, STUDIO_COLUMN,
};
use wof_stats::markup::Lookups;
use wof_stats::page::{Content, PageStatus, Record};
use wof_stats::pipeline::{
    extract_all, parse_wof_stats, read_page, run, Diagnostic, Extraction, Page, Snapshot, Totals,
};
use wof_stats::row::{Cell, RowFailure};
use wof_stats::text::IntegerFault;
use wof_stats::wof_date_format::{deserialize, DateError, Timestamp, DATE_FORMAT, OFFSET_SECONDS};

fn snapshot(id: i64, date: &str, html: &str) -> Snapshot {
    Snapshot { id, captured_at: deserialize(date).unwrap(), html: html.to_string() }
}

fn table(rows: &[(&str, &str)]) -> String {
    let mut html = String::from("<h1>Stats</h1><table><thead><tr><th>Studio</th><th>Lockers</th></tr></thead><tbody>");
    for (studio, second) in rows {
        html.push_str(&format!("<tr><td>{}</td><td>{}</td></tr>", studio, second));
    }
    html.push_str("</tbody></table>");
    html
}

fn rows_of(content: Content) -> Vec<Vec<Cell>> {
    match content {
        Content::Table(rows) => rows,
        other => panic!("no table was read: {:?}", other),
    }
}

fn ten_o_clock() -> Timestamp {
    Timestamp { utc_millis: 1_672_560_000_000, offset_seconds: 7200 }
}

#[test]
fn deserialize_takes_the_civil_time_two_hours_east() {
    let read = deserialize("2023-01-01 10:00:00").unwrap();
    assert_eq!(read, ten_o_clock());
    let expected = chrono::DateTime::parse_from_rfc3339("2023-01-01T10:00:00+02:00").unwrap();
    assert_eq!(read.utc_millis, expected.timestamp_millis());
    assert_eq!(read.offset_seconds, expected.offset().local_minus_utc());
}

#[test]
fn deserialize_reads_the_epoch() {
    assert_eq!(
        deserialize("1970-01-01 02:00:00").unwrap(),
        Timestamp { utc_millis: 0, offset_seconds: 7200 }
    );
    assert_eq!(
        deserialize("1970-01-01 00:00:00").unwrap(),
        Timestamp { utc_millis: -7_200_000, offset_seconds: 7200 }
    );
}

#[test]
fn deserialize_refuses_other_formats() {
    for text in ["", "2023-01-01", "2023-01-01T10:00:00", "01.01.2023 10:00:00", "2023-13-01 10:00:00", "2023-01-01 24:00:00", "yesterday"] {
        match deserialize(text) {
            Err(DateError::Unreadable(reason)) => assert!(!reason.is_empty()),
            other => panic!("{:?} gave {:?}", text, other),
        }
    }
}

#[test]
fn from_civil_keeps_the_civil_time() {
    assert_eq!(
        Timestamp::from_civil(7_200_000, 7200),
        Some(Timestamp { utc_millis: 0, offset_seconds: 7200 })
    );
    assert_eq!(
        Timestamp::from_civil(0, -3600),
        Some(Timestamp { utc_millis: 3_600_000, offset_seconds: -3600 })
    );
    assert_eq!(Timestamp::from_civil(i64::MIN, 7200), None);
    assert_eq!(Timestamp::from_civil(i64::MAX, -1), None);
    assert_eq!(Timestamp::from_civil(i64::MAX, 0), Some(Timestamp { utc_millis: i64::MAX, offset_seconds: 0 }));
}

#[test]
fn format_and_offset_are_fixed() {
    assert_eq!(DATE_FORMAT, "%Y-%m-%d %H:%M:%S");
    assert_eq!(OFFSET_SECONDS, 2 * 3600);
}

#[test]
fn lookups_are_available() {
    assert!(Lookups::new().is_some());
}

#[test]
fn read_table_finds_rows_and_cells() {
    let lookups = Lookups::new().unwrap();
    let html = table(&[(" Studio A ", "<div><div>42%</div></div>"), ("B", "<div>7%</div>")]);
    let rows = rows_of(lookups.read_table(&html));
    assert_eq!(rows.len(), 2);
    assert_eq!(rows[0].len(), 2);
    assert_eq!(rows[0][0].content, " Studio A ");
    assert_eq!(rows[0][0].nested, None);
    assert_eq!(rows[0][1].content, "42%");
    assert_eq!(rows[0][1].nested, Some("42%".to_string()));
    assert_eq!(rows[1][1].content, "7%");
    assert_eq!(rows[1][1].nested, None);
}

#[test]
fn read_table_takes_the_first_table_only() {
    let lookups = Lookups::new().unwrap();
    let html = format!(
        "{}{}",
        table(&[("A", "<div><div>1%</div></div>")]),
        table(&[("B", "<div><div>2%</div></div>"), ("C", "<div><div>3%</div></div>")])
    );
    let rows = rows_of(lookups.read_table(&html));
    assert_eq!(rows.len(), 1);
    assert_eq!(rows[0][0].content, "A");
}

#[test]
fn read_table_leaves_header_rows_out() {
    let lookups = Lookups::new().unwrap();
    let rows = rows_of(lookups.read_table(&table(&[])));
    assert!(rows.is_empty());
}

#[test]
fn read_table_takes_the_first_nested_element() {
    let lookups = Lookups::new().unwrap();
    let html = table(&[("A", "<div><div>1%</div><div>2%</div></div>")]);
    let rows = rows_of(lookups.read_table(&html));
    assert_eq!(rows[0][1].nested, Some("1%".to_string()));
}

#[test]
fn read_table_gives_none_without_a_table() {
    let lookups = Lookups::new().unwrap();
    assert!(matches!(lookups.read_table("<p>Maintenance</p>"), Content::NoTable));
    assert!(matches!(lookups.read_table(""), Content::NoTable));
}

#[test]
fn read_page_keeps_id_and_date() {
    let lookups = Lookups::new().unwrap();
    let page = read_page(&lookups, &snapshot(9, "2023-01-01 10:00:00", "<p>nothing</p>"));
    assert_eq!(page.id, 9);
    assert_eq!(page.captured_at, ten_o_clock());
    assert!(matches!(page.content, Content::NoTable));
}

#[test]
fn one_snapshot_with_one_row_gives_one_record() {
    let html = "<table><tbody><tr><td>Studio A</td><td><div><div>42%</div></div></td></tr></tbody></table>";
    let all = parse_wof_stats(&vec![snapshot(1, "2023-01-01 10:00:00", html)]).unwrap();
    assert_eq!(
        all.records,
        vec![Record { date: ten_o_clock(), studio: "Studio A".to_string(), allocation: 42 }]
    );
    assert_eq!(
        all.totals,
        Totals { snapshots_total: 1, snapshots_fully_parsed: 1, rows_total: 1, rows_parsed: 1 }
    );
    assert!(all.diagnostics.is_empty());
}

#[test]
fn row_without_nested_element_is_noted_and_not_fatal() {
    let html = table(&[("Studio A", "42%")]);
    let all = parse_wof_stats(&vec![snapshot(5, "2023-01-01 10:00:00", &html)]).unwrap();
    assert!(all.records.is_empty());
    assert_eq!(
        all.totals,
        Totals { snapshots_total: 1, snapshots_fully_parsed: 0, rows_total: 1, rows_parsed: 0 }
    );
    assert_eq!(
        all.diagnostics,
        vec![Diagnostic::Row { snapshot: 5, row: 0, reason: RowFailure::LocatorMissing }]
    );
    let lookups = Lookups::new().unwrap();
    let page = read_page(&lookups, &snapshot(5, "2023-01-01 10:00:00", &html));
    let result = wof_stats::page::extract_page(page.captured_at, &page.content);
    assert_eq!(result.status, PageStatus::PartiallyParsed);
    assert_eq!(result.failures.len(), 1);
}

#[test]
fn snapshot_without_table_is_counted_and_skipped() {
    let all = parse_wof_stats(&vec![snapshot(3, "2023-01-01 10:00:00", "<div>down for maintenance</div>")])
        .unwrap();
    assert!(all.records.is_empty());
    assert_eq!(
        all.totals,
        Totals { snapshots_total: 1, snapshots_fully_parsed: 0, rows_total: 0, rows_parsed: 0 }
    );
    assert_eq!(all.diagnostics, vec![Diagnostic::NoTable { snapshot: 3 }]);
}

#[test]
fn no_snapshot_gives_an_empty_run() {
    let all = parse_wof_stats(&Vec::new()).unwrap();
    assert!(all.records.is_empty());
    assert_eq!(
        all.totals,
        Totals { snapshots_total: 0, snapshots_fully_parsed: 0, rows_total: 0, rows_parsed: 0 }
    );
    assert!(all.diagnostics.is_empty());
}

#[test]
fn records_come_in_snapshot_order_then_row_order() {
    let first = table(&[("B", "<div><div>20%</div></div>"), ("A", "<div><div>-15%</div></div>")]);
    let second = "<p>no table here</p>";
    let third = table(&[
        ("A", "<div><div>30%</div></div>"),
        ("broken", "<div>30%</div>"),
        ("C", "<div><div>abc%</div></div>"),
        ("A", "<div><div> 31% </div></div>"),
    ]);
    let fourth = "<table><tbody><tr><td>only one</td></tr><tr><td>D</td><td><div><div>5</div></div></td></tr></tbody></table>";
    let snapshots = vec![
        snapshot(10, "2023-01-01 10:00:00", &first),
        snapshot(11, "2023-01-02 10:00:00", second),
        snapshot(12, "2023-01-03 10:00:00", &third),
        snapshot(13, "2023-01-04 10:00:00", fourth),
    ];
    let day: i64 = 86_400_000;
    let at = |n: i64| Timestamp { utc_millis: 1_672_560_000_000 + n * day, offset_seconds: 7200 };
    let all = parse_wof_stats(&snapshots).unwrap();
    assert_eq!(
        all.records,
        vec![
            Record { date: at(0), studio: "B".to_string(), allocation: 20 },
            Record { date: at(0), studio: "A".to_string(), allocation: 15 },
            Record { date: at(2), studio: "A".to_string(), allocation: 30 },
            Record { date: at(2), studio: "A".to_string(), allocation: 31 },
        ]
    );
    assert_eq!(
        all.totals,
        Totals { snapshots_total: 4, snapshots_fully_parsed: 1, rows_total: 8, rows_parsed: 4 }
    );
    assert_eq!(
        all.diagnostics,
        vec![
            Diagnostic::NoTable { snapshot: 11 },
            Diagnostic::Row { snapshot: 12, row: 1, reason: RowFailure::LocatorMissing },
            Diagnostic::Row {
                snapshot: 12,
                row: 2,
                reason: RowFailure::NotANumber(IntegerFault::InvalidDigit)
            },
            Diagnostic::Row { snapshot: 13, row: 0, reason: RowFailure::CellCount(1) },
            Diagnostic::Row { snapshot: 13, row: 1, reason: RowFailure::PercentMissing },
        ]
    );
    assert!(all.totals.rows_parsed as u128 <= all.totals.rows_total);
    assert!(all.totals.snapshots_fully_parsed <= all.totals.snapshots_total);
    assert_eq!(all.records.len(), all.totals.rows_parsed);
}

#[test]
fn extract_all_and_run_agree() {
    let lookups = Lookups::new().unwrap();
    let snapshots = vec![
        snapshot(1, "2023-01-01 10:00:00", &table(&[("A", "<div><div>1%</div></div>"), ("B", "x")])),
        snapshot(2, "2023-01-01 11:00:00", "<p></p>"),
    ];
    let pages: Vec<Page> = snapshots.iter().map(|s| read_page(&lookups, s)).collect();
    let direct = extract_all(&lookups, &snapshots);
    let by_pages = run(&pages);
    assert_eq!(direct.records, by_pages.records);
    assert_eq!(direct.totals, by_pages.totals);
    assert_eq!(direct.diagnostics, by_pages.diagnostics);
}

#[test]
fn run_counts_pages_given_as_plain_values() {
    let good = vec![
        Cell { content: "A".to_string(), nested: None },
        Cell { content: String::new(), nested: Some("12%".to_string()) },
    ];
    let pages = vec![
        Page { id: 1, captured_at: ten_o_clock(), content: Content::Table(vec![good]) },
        Page { id: 2, captured_at: ten_o_clock(), content: Content::NoTable },
        Page { id: 3, captured_at: ten_o_clock(), content: Content::Table(Vec::new()) },
    ];
    let all = run(&pages);
    assert_eq!(
        all.totals,
        Totals { snapshots_total: 3, snapshots_fully_parsed: 2, rows_total: 1, rows_parsed: 1 }
    );
    assert_eq!(all.diagnostics, vec![Diagnostic::NoTable { snapshot: 2 }]);
    assert_eq!(all.records.len(), 1);
}

#[test]
fn absorb_adds_one_page() {
    let mut all = Extraction::new();
    let page = wof_stats::page::extract_page(ten_o_clock(), &Content::NoTable);
    all.absorb(77, page);
    assert_eq!(
        all.totals,
        Totals { snapshots_total: 1, snapshots_fully_parsed: 0, rows_total: 0, rows_parsed: 0 }
    );
    assert_eq!(all.diagnostics, vec![Diagnostic::NoTable { snapshot: 77 }]);
}

#[test]
fn assemble_gives_one_row_for_each_record() {
    let records = vec![
        Record { date: ten_o_clock(), studio: "Studio A".to_string(), allocation: 42 },
        Record { date: Timestamp { utc_millis: 5, offset_seconds: 0 }, studio: String::new(), allocation: 255 },
    ];
    let table = assemble(&records).unwrap();
    assert_eq!(table.height(), 2);
    assert_eq!(table.dates(), &vec![ten_o_clock(), Timestamp { utc_millis: 5, offset_seconds: 0 }]);
    assert_eq!(table.studios(), &vec!["Studio A".to_string(), String::new()]);
    assert_eq!(table.allocations(), &vec![42u32, 255u32]);
}

#[test]
fn millis_at_gives_the_dates_of_one_offset() {
    let records = vec![
        Record { date: ten_o_clock(), studio: "A".to_string(), allocation: 1 },
        Record { date: Timestamp { utc_millis: -5, offset_seconds: 7200 }, studio: "B".to_string(), allocation: 2 },
    ];
    let table = assemble(&records).unwrap();
    assert_eq!(table.millis_at(7200), Some(vec![1_672_560_000_000, -5]));
    assert_eq!(table.millis_at(3600), None);
    let mixed = vec![
        Record { date: ten_o_clock(), studio: "A".to_string(), allocation: 1 },
        Record { date: Timestamp { utc_millis: 0, offset_seconds: 0 }, studio: "B".to_string(), allocation: 2 },
    ];
    let table = assemble(&mixed).unwrap();
    assert_eq!(table.millis_at(7200), None);
    assert_eq!(table.millis_at(0), None);
    assert_eq!(assemble(&Vec::new()).unwrap().millis_at(1), Some(Vec::new()));
}

#[test]
fn deserialize_reads_the_ends_of_the_calendar() {
    let first = deserialize("-262143-01-01 00:00:00").unwrap();
    let last = deserialize("+262142-12-31 23:59:59").unwrap();
    assert_eq!(first.offset_seconds, 7200);
    assert_eq!(last.offset_seconds, 7200);
    assert_eq!(first.utc_millis, chrono::NaiveDateTime::MIN.and_utc().timestamp_millis() - 7_200_000);
    assert_eq!(last.utc_millis, chrono::NaiveDateTime::MAX.and_utc().timestamp_millis() / 1000 * 1000 - 7_200_000);
    assert!(first.utc_millis > -wof_stats::wof_date_format::CIVIL_LIMIT);
    assert!(last.utc_millis < wof_stats::wof_date_format::CIVIL_LIMIT);
}

#[test]
fn assemble_accepts_no_record() {
    let table = assemble(&Vec::new()).unwrap();
    assert_eq!(table.height(), 0);
    assert!(table.dates().is_empty());
    assert!(table.studios().is_empty());
    assert!(table.allocations().is_empty());
}

#[test]
fn assembled_rows_are_the_records_of_the_run() {
    let html = table(&[("A", "<div><div>1%</div></div>"), ("B", "x"), ("C", "<div><div>3%</div></div>")]);
    let all = parse_wof_stats(&vec![snapshot(1, "2023-01-01 10:00:00", &html)]).unwrap();
    let table = assemble(&all.records).unwrap();
    assert_eq!(table.height(), all.totals.rows_parsed);
    assert_eq!(table.dates().len(), table.height());
    assert_eq!(table.studios().len(), table.height());
    assert_eq!(table.allocations().len(), table.height());
    assert_eq!(table.studios(), &vec!["A".to_string(), "C".to_string()]);
}

#[test]
fn columns_of_different_lengths_are_refused() {
    let r = Dataset::from_columns(vec![ten_o_clock()], vec!["A".to_string(), "B".to_string()], vec![1]);
    match r {
        Err(e) => assert_eq!(e, AssemblyError::LengthMismatch { dates: 1, studios: 2, allocations: 1 }),
        Ok(_) => panic!("columns of different lengths were accepted"),
    }
    assert!(Dataset::from_columns(Vec::new(), Vec::new(), vec![1]).is_err());
    assert!(Dataset::from_columns(vec![ten_o_clock()], vec!["A".to_string()], vec![1]).is_ok());
}

#[test]
fn column_names_are_fixed() {
    assert_eq!(DATE_COLUMN, "Date");
    assert_eq!(STUDIO_COLUMN, "Studio");
    assert_eq!(ALLOCATION_COLUMN, "NumAllocatedLockers");
}

#[test]
fn markup_that_is_too_long_is_counted_and_skipped() {
    let long = " ".repeat(wof_stats::markup::MARKUP_LIMIT + 1);
    let lookups = Lookups::new().unwrap();
    assert!(matches!(lookups.read_table(&long), Content::TooLong));
    let short = table(&[("A", "<div><div>1%</div></div>")]);
    let snapshots = vec![
        Snapshot { id: 1, captured_at: ten_o_clock(), html: long },
        Snapshot { id: 2, captured_at: ten_o_clock(), html: short },
    ];
    let all = parse_wof_stats(&snapshots).unwrap();
    assert_eq!(
        all.records,
        vec![Record { date: ten_o_clock(), studio: "A".to_string(), allocation: 1 }]
    );
    assert_eq!(
        all.totals,
        Totals { snapshots_total: 2, snapshots_fully_parsed: 1, rows_total: 1, rows_parsed: 1 }
    );
    assert_eq!(all.diagnostics, vec![Diagnostic::TooLong { snapshot: 1 }]);
    assert_eq!(
        all.diagnostics[0].message(),
        "Skipping snapshot with id '1' because its markup is too long to be parsed."
    );
}

#[test]
fn run_counts_a_page_that_is_too_long() {
    let pages = vec![
        Page { id: 6, captured_at: ten_o_clock(), content: Content::TooLong },
        Page { id: 7, captured_at: ten_o_clock(), content: Content::NoTable },
    ];
    let all = run(&pages);
    assert_eq!(
        all.totals,
        Totals { snapshots_total: 2, snapshots_fully_parsed: 0, rows_total: 0, rows_parsed: 0 }
    );
    assert_eq!(
        all.diagnostics,
        vec![Diagnostic::TooLong { snapshot: 6 }, Diagnostic::NoTable { snapshot: 7 }]
    );
}

#[test]
fn is_wf_tells_a_run_whose_totals_disagree() {
    let html = table(&[("A", "<div><div>1%</div></div>"), ("B", "x")]);
    let mut all = parse_wof_stats(&vec![snapshot(1, "2023-01-01 10:00:00", &html)]).unwrap();
    assert!(all.is_wf());
    all.totals.rows_parsed = 2;
    assert!(!all.is_wf());
    all.totals.rows_parsed = 1;
    all.totals.rows_total = 0;
    assert!(!all.is_wf());
    all.totals.rows_total = 3;
    assert!(!all.is_wf());
    all.totals.rows_total = 2;
    all.totals.snapshots_fully_parsed = 2;
    assert!(!all.is_wf());
    all.totals.snapshots_fully_parsed = 0;
    assert!(all.is_wf());
    assert!(Extraction::new().is_wf());
}

#[test]
fn zone_label_names_the_fixed_offset() {
    assert_eq!(zone_label(OFFSET_SECONDS), Some("Etc/GMT-2".to_string()));
    assert_eq!(zone_label(0), Some("Etc/GMT".to_string()));
    assert_eq!(zone_label(3600), Some("Etc/GMT-1".to_string()));
    assert_eq!(zone_label(-3600), Some("Etc/GMT+1".to_string()));
    assert_eq!(zone_label(14 * 3600), Some("Etc/GMT-14".to_string()));
    assert_eq!(zone_label(-12 * 3600), Some("Etc/GMT+12".to_string()));
    assert_eq!(zone_label(15 * 3600), None);
    assert_eq!(zone_label(-13 * 3600), None);
    assert_eq!(zone_label(5400), None);
    assert_eq!(zone_label(1), None);
    assert_eq!(zone_label(i32::MIN), None);
    assert_eq!(zone_label(i32::MAX), None);
}
