//! The verified record mapping over a grid of plain cells.

use bulk_import::file::{grid_to_records, Cell};

fn text(s: &str) -> Cell {
    Cell { repr: s.to_string(), int: None, timestamp: None, empty: false, error: false }
}

fn num(n: i64) -> Cell {
    Cell { repr: format!("{}", n), int: Some(n), timestamp: None, empty: false, error: false }
}

fn stamp(micros: i64) -> Cell {
    Cell { repr: String::new(), int: None, timestamp: Some(micros), empty: false, error: false }
}

fn empty() -> Cell {
    Cell { repr: String::new(), int: None, timestamp: None, empty: true, error: false }
}

fn error_cell() -> Cell {
    Cell { repr: String::new(), int: None, timestamp: None, empty: false, error: true }
}

const HEADERS: [&str; 22] = [
    "域名", "建站年龄", "记录数", "开始时间", "结束时间", "标题", "语言", "评分", "DNS", "注册商",
    "注册商地址", "注册人", "Email", "注册时间", "到期时间", "更新时间", "备案状态", "备案时间",
    "备案主体", "备案类型", "备案号", "备案名",
];

fn header_row() -> Vec<Cell> {
    HEADERS.iter().map(|h| text(h)).collect()
}

/// A data row for the header order above, everything empty but the domain.
fn bare_row(domain: &str) -> Vec<Cell> {
    let mut row: Vec<Cell> = (0..22).map(|_| empty()).collect();
    row[0] = text(domain);
    row
}

#[test]
fn rows_parse_in_order_with_typed_fields() {
    let mut r1 = bare_row("a.example");
    r1[1] = num(3); // 建站年龄
    r1[5] = text("first"); // 标题
    r1[13] = stamp(1_700_000_000_000_000); // 注册时间
    let r2 = bare_row("b.example");
    let grid = vec![header_row(), r1, r2];
    let records = grid_to_records(&grid).unwrap();
    assert_eq!(records.len(), 2);
    assert_eq!(records[0].domain_name, "a.example");
    assert_eq!(records[0].age, Some(3));
    assert_eq!(records[0].title, Some("first".to_string()));
    assert_eq!(records[0].registrar_at, Some(1_700_000_000_000_000));
    assert_eq!(records[0].language, None);
    assert_eq!(records[1].domain_name, "b.example");
    assert_eq!(records[1].age, None);
}

#[test]
fn columns_match_by_name_not_position() {
    // swap the first two columns: 建站年龄 before 域名
    let mut hdr = header_row();
    hdr.swap(0, 1);
    let mut row: Vec<Cell> = (0..22).map(|_| empty()).collect();
    row[0] = num(9); // 建站年龄
    row[1] = text("c.example"); // 域名
    let grid = vec![hdr, row];
    let records = grid_to_records(&grid).unwrap();
    assert_eq!(records[0].domain_name, "c.example");
    assert_eq!(records[0].age, Some(9));
}

#[test]
fn unreadable_numeric_cell_degrades_to_absent() {
    let mut row = bare_row("d.example");
    row[1] = text("abc"); // no integer reading
    row[7] = num(999); // 评分 out of byte range
    let grid = vec![header_row(), row];
    let records = grid_to_records(&grid).unwrap();
    assert_eq!(records.len(), 1);
    assert_eq!(records[0].domain_name, "d.example");
    assert_eq!(records[0].age, None);
    assert_eq!(records[0].score, None);
}

#[test]
fn whitespace_around_header_names_is_ignored() {
    let mut hdr = header_row();
    hdr[0] = text(" 域名\u{3000}");
    hdr[1] = text("\t建站年龄 ");
    let mut row = bare_row("h.example");
    row[1] = num(4);
    let grid = vec![hdr, row];
    let records = grid_to_records(&grid).unwrap();
    assert_eq!(records[0].domain_name, "h.example");
    assert_eq!(records[0].age, Some(4));
}

#[test]
fn missing_header_fails() {
    let mut hdr = header_row();
    hdr[21] = text("备案别名"); // not the expected 备案名
    let grid = vec![hdr, bare_row("e.example")];
    assert_eq!(grid_to_records(&grid).unwrap_err(), "missing header");
}

#[test]
fn missing_domain_cell_aborts_parse() {
    let mut row = bare_row("f.example");
    row[0] = empty();
    let grid = vec![header_row(), bare_row("ok.example"), row];
    assert_eq!(grid_to_records(&grid).unwrap_err(), "invalid row");
}

#[test]
fn error_cell_aborts_parse() {
    let mut row = bare_row("g.example");
    row[8] = error_cell(); // DNS column
    let grid = vec![header_row(), row];
    assert_eq!(grid_to_records(&grid).unwrap_err(), "invalid row");
}

#[test]
fn empty_grid_gives_no_records() {
    let grid: Vec<Vec<Cell>> = Vec::new();
    assert!(grid_to_records(&grid).unwrap().is_empty());
}

#[test]
fn header_only_grid_gives_no_records() {
    let grid = vec![header_row()];
    assert!(grid_to_records(&grid).unwrap().is_empty());
}
