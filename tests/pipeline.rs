use std::collections::HashMap;

use torrent_indexer::document::{build, locator, Torrent, DEFAULT_POSTER};
use torrent_indexer::publish::{check_status, PublishError};
use torrent_indexer::record::{decode_files, File, ParentRecord};
use torrent_indexer::row::{read_text, read_u64, read_usize, Cell, MalformedRow};
use torrent_indexer::summary::RunSummary;

fn text(s: &str) -> Cell {
    Cell::Text(s.as_bytes().to_vec())
}

fn parent_row(id: i64, hash: &str, name: &str) -> Vec<Cell> {
    vec![
        Cell::Integer(id),
        text(hash),
        text(name),
        Cell::Integer(1000),
        Cell::Integer(1_600_000_000),
        Cell::Integer(12),
        Cell::Integer(3),
        Cell::Integer(2),
    ]
}

fn file_row(id: i64, name: &str, size: i64) -> Vec<Cell> {
    vec![Cell::Integer(id), text(name), Cell::Integer(size)]
}

fn parent(id: u64, hash: &str, name: &str) -> ParentRecord {
    ParentRecord::from_row(&parent_row(id as i64, hash, name)).unwrap()
}

fn file(name: &str, size: usize) -> File {
    File { name: name.to_string(), size }
}

#[test]
fn locator_of_example_parent() {
    let doc = build(parent(42, "ABCDEF0123", "example.iso"), Vec::new());
    assert_eq!(doc.url, "magnet:?xt=urn:btih:ABCDEF0123&dn=example.iso");
    assert_eq!(doc.id, 42);
}

#[test]
fn locator_keeps_name_unescaped() {
    assert_eq!(locator("00FF", "a b&c"), "magnet:?xt=urn:btih:00FF&dn=a b&c");
    assert_eq!(locator("", ""), "magnet:?xt=urn:btih:&dn=");
}

#[test]
fn locator_is_recomputed_identically() {
    let a = build(parent(1, "ABCD", "x.iso"), vec![file("a", 1)]);
    let b = build(parent(2, "ABCD", "x.iso"), Vec::new());
    assert_eq!(a.url, b.url);
    assert_eq!(a.url, locator("ABCD", "x.iso"));
}

#[test]
fn document_carries_default_poster() {
    let doc = build(parent(7, "AA", "n"), Vec::new());
    assert_eq!(doc.poster, DEFAULT_POSTER);
    assert_eq!(doc.poster, "https://s3.jeykey.net/public/images/torrent.png");
}

#[test]
fn document_copies_parent_fields() {
    let doc = build(parent(9, "BEEF", "disk.img"), Vec::new());
    assert_eq!(doc.hash, "BEEF");
    assert_eq!(doc.name, "disk.img");
    assert_eq!(doc.size, 1000);
    assert_eq!(doc.uploaded, 1_600_000_000);
    assert_eq!(doc.seeders, 12);
    assert_eq!(doc.leechers, 3);
    assert_eq!(doc.num_files, 2);
}

#[test]
fn document_with_no_files() {
    let doc = build(parent(3, "AB", "empty"), Vec::new());
    assert!(doc.files.is_empty());
}

#[test]
fn document_keeps_files_in_order() {
    let doc = build(parent(3, "AB", "many"), vec![file("c", 3), file("a", 1), file("b", 2)]);
    let names: Vec<&str> = doc.files.iter().map(|f| f.name.as_str()).collect();
    assert_eq!(names, vec!["c", "a", "b"]);
    let sizes: Vec<usize> = doc.files.iter().map(|f| f.size).collect();
    assert_eq!(sizes, vec![3, 1, 2]);
}

#[test]
fn file_count_hint_does_not_bound_files() {
    let rows = vec![file_row(5, "a", 1), file_row(5, "b", 2), file_row(5, "c", 3), file_row(5, "d", 4)];
    let mut summary = RunSummary::new();
    let doc = summary.assemble(parent(5, "AB", "n"), &rows);
    assert_eq!(doc.num_files, 2);
    assert_eq!(doc.files.len(), 4);
    assert_eq!(summary.dropped_files, 0);
}

#[test]
fn malformed_file_rows_are_dropped_and_counted() {
    let rows = vec![
        file_row(5, "a", 1),
        vec![Cell::Integer(5), Cell::Null, Cell::Integer(2)],
        file_row(5, "c", -1),
        file_row(5, "d", 4),
        vec![Cell::Integer(5), text("e")],
    ];
    let (files, dropped) = decode_files(&rows);
    let names: Vec<&str> = files.iter().map(|f| f.name.as_str()).collect();
    assert_eq!(names, vec!["a", "d"]);
    assert_eq!(dropped, 3);
    let mut summary = RunSummary::new();
    let doc = summary.assemble(parent(5, "AB", "n"), &rows);
    assert_eq!(doc.files.len(), 2);
    assert_eq!(summary.dropped_files, 3);
}

#[test]
fn no_file_rows_give_no_files() {
    let (files, dropped) = decode_files(&Vec::new());
    assert!(files.is_empty());
    assert_eq!(dropped, 0);
}

#[test]
fn parent_row_decodes() {
    let p = parent(42, "ABCDEF0123", "example.iso");
    assert_eq!(p.id, 42);
    assert_eq!(p.hash, "ABCDEF0123");
    assert_eq!(p.name, "example.iso");
    assert_eq!(p.size, 1000);
    assert_eq!(p.uploaded, 1_600_000_000);
    assert_eq!(p.seeders, 12);
    assert_eq!(p.leechers, 3);
    assert_eq!(p.num_files, 2);
}

#[test]
fn parent_row_missing_column() {
    let mut row = parent_row(1, "AB", "n");
    row.truncate(7);
    assert_eq!(ParentRecord::from_row(&row).unwrap_err(), MalformedRow::Missing(7));
    assert_eq!(ParentRecord::from_row(&Vec::new()).unwrap_err(), MalformedRow::Missing(0));
}

#[test]
fn parent_row_wrong_shape_reports_first_column() {
    let mut row = parent_row(1, "AB", "n");
    row[5] = Cell::Real;
    row[3] = text("big");
    assert_eq!(ParentRecord::from_row(&row).unwrap_err(), MalformedRow::WrongShape(3));
    let mut row = parent_row(1, "AB", "n");
    row[0] = Cell::Integer(-1);
    assert_eq!(ParentRecord::from_row(&row).unwrap_err(), MalformedRow::WrongShape(0));
    let mut row = parent_row(1, "AB", "n");
    row[2] = Cell::Blob(vec![1, 2]);
    assert_eq!(ParentRecord::from_row(&row).unwrap_err(), MalformedRow::WrongShape(2));
}

#[test]
fn text_cell_decodes_utf8() {
    let row = vec![Cell::Text("caf\u{e9}.iso".as_bytes().to_vec())];
    assert_eq!(read_text(&row, 0).unwrap(), "caf\u{e9}.iso");
    assert_eq!(read_text(&row, 0).unwrap().chars().count(), 8);
}

#[test]
fn text_cell_with_invalid_utf8_is_wrong_shape() {
    let row = vec![Cell::Text(vec![0x66, 0xff, 0x66])];
    assert_eq!(read_text(&row, 0).unwrap_err(), MalformedRow::WrongShape(0));
    assert_eq!(read_text(&row, 1).unwrap_err(), MalformedRow::Missing(1));
}

#[test]
fn integer_cells_decode_by_range() {
    let row = vec![Cell::Integer(0), Cell::Integer(i64::MAX), Cell::Integer(i64::MIN), Cell::Null];
    assert_eq!(read_u64(&row, 0), Ok(0));
    assert_eq!(read_u64(&row, 1), Ok(i64::MAX as u64));
    assert_eq!(read_u64(&row, 2), Err(MalformedRow::WrongShape(2)));
    assert_eq!(read_u64(&row, 3), Err(MalformedRow::WrongShape(3)));
    assert_eq!(read_u64(&row, 4), Err(MalformedRow::Missing(4)));
    assert_eq!(read_usize(&row, 1), Ok(i64::MAX as usize));
    assert_eq!(read_usize(&row, 2), Err(MalformedRow::WrongShape(2)));
}

#[test]
fn status_is_judged_by_success_range() {
    assert_eq!(check_status(200), Ok(()));
    assert_eq!(check_status(204), Ok(()));
    assert_eq!(check_status(299), Ok(()));
    assert_eq!(check_status(199), Err(PublishError::Status(199)));
    assert_eq!(check_status(300), Err(PublishError::Status(300)));
    assert_eq!(check_status(500), Err(PublishError::Status(500)));
}

#[test]
fn malformed_parent_row_does_not_halt_pass() {
    let mut rows: Vec<Vec<Cell>> = (1..=5).map(|i| parent_row(i, "AB", "n")).collect();
    rows[2][1] = Cell::Integer(3);
    let mut summary = RunSummary::new();
    let mut seen = Vec::new();
    for row in &rows {
        if let Ok(p) = summary.accept_row(row) {
            let doc = summary.assemble(p, &Vec::new());
            seen.push(doc.id);
            summary.record(doc.id, &Ok(()));
        }
    }
    assert_eq!(seen, vec![1, 2, 4, 5]);
    assert_eq!(summary.attempted, 4);
    assert_eq!(summary.skipped, 1);
    assert_eq!(summary.succeeded, 4);
    assert_eq!(summary.failed, 0);
}

#[test]
fn publish_error_does_not_halt_pass() {
    let mut summary = RunSummary::new();
    let statuses = [200u16, 500, 201];
    for (i, status) in statuses.iter().enumerate() {
        summary.record(i as u64 + 1, &check_status(*status));
    }
    assert_eq!(summary.attempted, 3);
    assert_eq!(summary.succeeded, 2);
    assert_eq!(summary.failed, 1);
    assert_eq!(summary.failed_ids, vec![2]);
}

#[test]
fn transport_error_is_counted_as_failure() {
    let mut summary = RunSummary::new();
    summary.record(11, &Err(PublishError::Transport));
    summary.record(12, &Ok(()));
    assert_eq!(summary.attempted, 2);
    assert_eq!(summary.failed, 1);
    assert_eq!(summary.succeeded, 1);
    assert_eq!(summary.failed_ids, vec![11]);
    assert_eq!(summary.skipped, 0);
}

#[test]
fn new_summary_is_empty() {
    let s = RunSummary::new();
    assert_eq!((s.attempted, s.succeeded, s.failed, s.skipped, s.dropped_files), (0, 0, 0, 0, 0));
    assert!(s.failed_ids.is_empty());
}

fn run_pass(index: &mut HashMap<u64, (String, String, Vec<String>)>, parents: &[Vec<Cell>], children: &HashMap<u64, Vec<Vec<Cell>>>) {
    let mut summary = RunSummary::new();
    for row in parents {
        if let Ok(p) = summary.accept_row(row) {
            let rows = children.get(&p.id).cloned().unwrap_or_default();
            let doc: Torrent = summary.assemble(p, &rows);
            let files = doc.files.iter().map(|f| f.name.clone()).collect();
            index.insert(doc.id, (doc.url.clone(), doc.poster.clone(), files));
            summary.record(doc.id, &Ok(()));
        }
    }
}

#[test]
fn rerun_leaves_upsert_index_unchanged() {
    let parents = vec![parent_row(1, "AA", "one"), vec![Cell::Null], parent_row(2, "BB", "two"), parent_row(1, "CC", "again")];
    let mut children = HashMap::new();
    children.insert(1u64, vec![file_row(1, "x", 1), file_row(1, "y", 2)]);
    let mut index = HashMap::new();
    index.insert(9u64, ("old".to_string(), String::new(), Vec::new()));
    run_pass(&mut index, &parents, &children);
    let once = index.clone();
    run_pass(&mut index, &parents, &children);
    assert_eq!(index, once);
    assert_eq!(index.len(), 3);
    assert_eq!(index[&1].0, "magnet:?xt=urn:btih:CC&dn=again");
    assert_eq!(index[&1].2, vec!["x".to_string(), "y".to_string()]);
}
