//! The record parser: an uploaded workbook's first sheet, handed over as a
//! grid of plain cells, is mapped to an ordered sequence of `Record`s. The
//! column layout is found by header name, not position; a numeric or
//! datetime field that cannot be read degrades to absent, while a row whose
//! required field is missing, or that holds a spreadsheet error value,
//! aborts the whole parse.

use vstd::prelude::*;
use crate::model::AppError;
use calamine::{DataType, Reader};

verus! {

/// One spreadsheet cell, reduced to the plain readings that the record
/// mapping needs.
#[derive(Debug)]
pub struct Cell {
    /// The textual form of the cell; empty for an empty cell.
    pub repr: String,
    /// The integer reading of the cell, when it has one.
    pub int: Option<i64>,
    /// The datetime reading of the cell as microseconds since the Unix
    /// epoch, when it has one.
    pub timestamp: Option<i64>,
    /// Whether the cell is empty.
    pub empty: bool,
    /// Whether the cell holds a spreadsheet error value.
    pub error: bool,
}

/// One parsed row: a domain-registration entity. Every field but the domain
/// name is optional; datetimes are microseconds since the Unix epoch.
#[derive(Debug)]
pub struct Record {
    pub domain_name: String,
    pub age: Option<u8>,
    pub order_no: Option<u8>,
    pub language: Option<String>,
    pub title: Option<String>,
    pub score: Option<u8>,
    pub dns: Option<String>,
    pub registrar_name: Option<String>,
    pub registrar_address: Option<String>,
    pub registrar_by: Option<String>,
    pub email: Option<String>,
    pub registrar_at: Option<i64>,
    pub expire_at: Option<i64>,
    pub updated_at: Option<i64>,
    pub record_status: Option<String>,
    pub record_at: Option<i64>,
    pub record_main_body: Option<String>,
    pub record_type: Option<String>,
    pub record_no: Option<String>,
    pub record_name: Option<String>,
}

/// Whether `c` has the Unicode `White_Space` property, as `str::trim`
/// understands whitespace.
pub open spec fn is_space(c: char) -> bool {
    ||| c == '\u{0009}'
    ||| c == '\u{000A}'
    ||| c == '\u{000B}'
    ||| c == '\u{000C}'
    ||| c == '\u{000D}'
    ||| c == '\u{0020}'
    ||| c == '\u{0085}'
    ||| c == '\u{00A0}'
    ||| c == '\u{1680}'
    ||| c == '\u{2000}'
    ||| c == '\u{2001}'
    ||| c == '\u{2002}'
    ||| c == '\u{2003}'
    ||| c == '\u{2004}'
    ||| c == '\u{2005}'
    ||| c == '\u{2006}'
    ||| c == '\u{2007}'
    ||| c == '\u{2008}'
    ||| c == '\u{2009}'
    ||| c == '\u{200A}'
    ||| c == '\u{2028}'
    ||| c == '\u{2029}'
    ||| c == '\u{202F}'
    ||| c == '\u{205F}'
    ||| c == '\u{3000}'
}

/// `s` without leading and trailing whitespace.
pub open spec fn trimmed(s: Seq<char>) -> Seq<char>
    decreases s.len(),
{
    if s.len() == 0 {
        s
    } else if is_space(s[0]) {
        trimmed(s.drop_first())
    } else if is_space(s[s.len() - 1]) {
        trimmed(s.drop_last())
    } else {
        s
    }
}

/// Relies on str::trim: the input without leading and trailing characters
/// that have the Unicode `White_Space` property.
#[verifier::external_body]
fn trim_str(s: &str) -> (r: &str)
    ensures
        r@ == trimmed(s@),
{
    s.trim()
}

/// The index of the first cell of `hdr` whose text, trimmed of surrounding
/// whitespace, is `name`, if any.
pub open spec fn find_col(hdr: Seq<Cell>, name: Seq<char>) -> Option<int>
    decreases hdr.len(),
{
    if hdr.len() == 0 {
        None
    } else if trimmed(hdr[0].repr@) == name {
        Some(0)
    } else {
        match find_col(hdr.drop_first(), name) {
            Some(i) => Some(i + 1),
            None => None,
        }
    }
}

/// `find_col` yields the first match: the returned index carries `name` and
/// no earlier one does; `None` means no cell carries it.
pub proof fn lemma_find_col(hdr: Seq<Cell>, name: Seq<char>)
    ensures
        match find_col(hdr, name) {
            Some(i) => 0 <= i < hdr.len() && trimmed(hdr[i].repr@) == name && (forall|j: int|
                0 <= j < i ==> trimmed(hdr[j].repr@) != name),
            None => forall|j: int| 0 <= j < hdr.len() ==> trimmed(hdr[j].repr@) != name,
        },
    decreases hdr.len(),
{
    if hdr.len() == 0 {
    } else if trimmed(hdr[0].repr@) == name {
    } else {
        lemma_find_col(hdr.drop_first(), name);
        assert forall|j: int| 1 <= j < hdr.len() implies hdr[j] == hdr.drop_first()[j - 1] by {
            assert(hdr.drop_first()[j - 1] == hdr[j]);
        }
    }
}

fn find_col_exec(hdr: &Vec<Cell>, name: &String) -> (r: Option<usize>)
    ensures
        r is Some <==> find_col(hdr@, name@) is Some,
        r matches Some(i) ==> find_col(hdr@, name@) == Some(i as int),
{
    let mut i: usize = 0;
    while i < hdr.len()
        invariant
            0 <= i <= hdr@.len(),
            forall|j: int| 0 <= j < i ==> trimmed(hdr@[j].repr@) != name@,
        decreases hdr@.len() - i,
    {
        if trim_str(hdr[i].repr.as_str()).to_string() == *name {
            proof {
                lemma_find_col(hdr@, name@);
            }
            return Some(i);
        }
        i += 1;
    }
    proof {
        lemma_find_col(hdr@, name@);
    }
    None
}

/// Whether position `i` of the row holds a spreadsheet error value.
pub open spec fn cell_error(row: Seq<Cell>, i: int) -> bool {
    0 <= i < row.len() && row[i].error
}

/// A text field: the cell's textual form, absent when the cell is empty or
/// the column is missing from this row.
pub open spec fn opt_text(row: Seq<Cell>, i: int) -> Option<String> {
    if 0 <= i < row.len() && !row[i].empty {
        Some(row[i].repr)
    } else {
        None
    }
}

/// A small numeric field: the cell's integer reading when it fits in a byte,
/// absent otherwise — an unreadable numeric cell degrades, it does not fail.
pub open spec fn opt_u8(row: Seq<Cell>, i: int) -> Option<u8> {
    if 0 <= i < row.len() && !row[i].empty {
        match row[i].int {
            Some(v) => if 0 <= v <= 255 {
                Some(v as u8)
            } else {
                None
            },
            None => None,
        }
    } else {
        None
    }
}

/// A datetime field: the cell's datetime reading, absent when the cell has
/// none — an unreadable datetime cell degrades, it does not fail.
pub open spec fn opt_time(row: Seq<Cell>, i: int) -> Option<i64> {
    if 0 <= i < row.len() && !row[i].empty {
        row[i].timestamp
    } else {
        None
    }
}

fn cell_error_exec(row: &Vec<Cell>, i: usize) -> (r: bool)
    ensures
        r == cell_error(row@, i as int),
{
    i < row.len() && row[i].error
}

fn opt_text_exec(row: &Vec<Cell>, i: usize) -> (r: Option<String>)
    ensures
        r == opt_text(row@, i as int),
{
    if i < row.len() && !row[i].empty {
        Some(row[i].repr.clone())
    } else {
        None
    }
}

fn opt_u8_exec(row: &Vec<Cell>, i: usize) -> (r: Option<u8>)
    ensures
        r == opt_u8(row@, i as int),
{
    if i < row.len() && !row[i].empty {
        match row[i].int {
            Some(v) => if 0 <= v && v <= 255 {
                Some(v as u8)
            } else {
                None
            },
            None => None,
        }
    } else {
        None
    }
}

fn opt_time_exec(row: &Vec<Cell>, i: usize) -> (r: Option<i64>)
    ensures
        r == opt_time(row@, i as int),
{
    if i < row.len() && !row[i].empty {
        row[i].timestamp
    } else {
        None
    }
}

/// Where each named column stands in this sheet.
pub struct ColsView {
    pub domain: int,
    pub age: int,
    pub order_no: int,
    pub start_at: int,
    pub end_at: int,
    pub title: int,
    pub language: int,
    pub score: int,
    pub dns: int,
    pub registrar_name: int,
    pub registrar_address: int,
    pub registrar_by: int,
    pub email: int,
    pub registrar_at: int,
    pub expire_at: int,
    pub updated_at: int,
    pub record_status: int,
    pub record_at: int,
    pub record_main_body: int,
    pub record_type: int,
    pub record_no: int,
    pub record_name: int,
}

/// Executable column map; mirrors `ColsView`.
pub struct Cols {
    pub domain: usize,
    pub age: usize,
    pub order_no: usize,
    pub start_at: usize,
    pub end_at: usize,
    pub title: usize,
    pub language: usize,
    pub score: usize,
    pub dns: usize,
    pub registrar_name: usize,
    pub registrar_address: usize,
    pub registrar_by: usize,
    pub email: usize,
    pub registrar_at: usize,
    pub expire_at: usize,
    pub updated_at: usize,
    pub record_status: usize,
    pub record_at: usize,
    pub record_main_body: usize,
    pub record_type: usize,
    pub record_no: usize,
    pub record_name: usize,
}

impl View for Cols {
    type V = ColsView;

    open spec fn view(&self) -> ColsView {
        ColsView {
            domain: self.domain as int,
            age: self.age as int,
            order_no: self.order_no as int,
            start_at: self.start_at as int,
            end_at: self.end_at as int,
            title: self.title as int,
            language: self.language as int,
            score: self.score as int,
            dns: self.dns as int,
            registrar_name: self.registrar_name as int,
            registrar_address: self.registrar_address as int,
            registrar_by: self.registrar_by as int,
            email: self.email as int,
            registrar_at: self.registrar_at as int,
            expire_at: self.expire_at as int,
            updated_at: self.updated_at as int,
            record_status: self.record_status as int,
            record_at: self.record_at as int,
            record_main_body: self.record_main_body as int,
            record_type: self.record_type as int,
            record_no: self.record_no as int,
            record_name: self.record_name as int,
        }
    }
}

pub open spec fn found_at(c: Option<int>) -> int {
    match c {
        Some(i) => i,
        None => -1,
    }
}

/// The header row carries every one of the fixed column names and no
/// spreadsheet error value.
pub open spec fn headers_found(hdr: Seq<Cell>) -> bool {
    &&& forall|j: int| 0 <= j < hdr.len() ==> !hdr[j].error
    &&& find_col(hdr, "域名"@) is Some
    &&& find_col(hdr, "建站年龄"@) is Some
    &&& find_col(hdr, "记录数"@) is Some
    &&& find_col(hdr, "开始时间"@) is Some
    &&& find_col(hdr, "结束时间"@) is Some
    &&& find_col(hdr, "标题"@) is Some
    &&& find_col(hdr, "语言"@) is Some
    &&& find_col(hdr, "评分"@) is Some
    &&& find_col(hdr, "DNS"@) is Some
    &&& find_col(hdr, "注册商"@) is Some
    &&& find_col(hdr, "注册商地址"@) is Some
    &&& find_col(hdr, "注册人"@) is Some
    &&& find_col(hdr, "Email"@) is Some
    &&& find_col(hdr, "注册时间"@) is Some
    &&& find_col(hdr, "到期时间"@) is Some
    &&& find_col(hdr, "更新时间"@) is Some
    &&& find_col(hdr, "备案状态"@) is Some
    &&& find_col(hdr, "备案时间"@) is Some
    &&& find_col(hdr, "备案主体"@) is Some
    &&& find_col(hdr, "备案类型"@) is Some
    &&& find_col(hdr, "备案号"@) is Some
    &&& find_col(hdr, "备案名"@) is Some
}

/// The column of each fixed header name within this sheet.
pub open spec fn cols_view(hdr: Seq<Cell>) -> ColsView {
    ColsView {
        domain: found_at(find_col(hdr, "域名"@)),
        age: found_at(find_col(hdr, "建站年龄"@)),
        order_no: found_at(find_col(hdr, "记录数"@)),
        start_at: found_at(find_col(hdr, "开始时间"@)),
        end_at: found_at(find_col(hdr, "结束时间"@)),
        title: found_at(find_col(hdr, "标题"@)),
        language: found_at(find_col(hdr, "语言"@)),
        score: found_at(find_col(hdr, "评分"@)),
        dns: found_at(find_col(hdr, "DNS"@)),
        registrar_name: found_at(find_col(hdr, "注册商"@)),
        registrar_address: found_at(find_col(hdr, "注册商地址"@)),
        registrar_by: found_at(find_col(hdr, "注册人"@)),
        email: found_at(find_col(hdr, "Email"@)),
        registrar_at: found_at(find_col(hdr, "注册时间"@)),
        expire_at: found_at(find_col(hdr, "到期时间"@)),
        updated_at: found_at(find_col(hdr, "更新时间"@)),
        record_status: found_at(find_col(hdr, "备案状态"@)),
        record_at: found_at(find_col(hdr, "备案时间"@)),
        record_main_body: found_at(find_col(hdr, "备案主体"@)),
        record_type: found_at(find_col(hdr, "备案类型"@)),
        record_no: found_at(find_col(hdr, "备案号"@)),
        record_name: found_at(find_col(hdr, "备案名"@)),
    }
}

/// A row can be deserialized when its required domain-name cell is present
/// and none of the mapped columns holds a spreadsheet error value.
pub open spec fn row_ok(row: Seq<Cell>, c: ColsView) -> bool {
    &&& 0 <= c.domain < row.len() && !row[c.domain].empty
    &&& !cell_error(row, c.domain)
    &&& !cell_error(row, c.age)
    &&& !cell_error(row, c.order_no)
    &&& !cell_error(row, c.start_at)
    &&& !cell_error(row, c.end_at)
    &&& !cell_error(row, c.title)
    &&& !cell_error(row, c.language)
    &&& !cell_error(row, c.score)
    &&& !cell_error(row, c.dns)
    &&& !cell_error(row, c.registrar_name)
    &&& !cell_error(row, c.registrar_address)
    &&& !cell_error(row, c.registrar_by)
    &&& !cell_error(row, c.email)
    &&& !cell_error(row, c.registrar_at)
    &&& !cell_error(row, c.expire_at)
    &&& !cell_error(row, c.updated_at)
    &&& !cell_error(row, c.record_status)
    &&& !cell_error(row, c.record_at)
    &&& !cell_error(row, c.record_main_body)
    &&& !cell_error(row, c.record_type)
    &&& !cell_error(row, c.record_no)
    &&& !cell_error(row, c.record_name)
}

/// The record read from one row under the column map `c`.
pub open spec fn record_of(row: Seq<Cell>, c: ColsView) -> Record {
    Record {
        domain_name: row[c.domain].repr,
        age: opt_u8(row, c.age),
        order_no: opt_u8(row, c.order_no),
        language: opt_text(row, c.language),
        title: opt_text(row, c.title),
        score: opt_u8(row, c.score),
        dns: opt_text(row, c.dns),
        registrar_name: opt_text(row, c.registrar_name),
        registrar_address: opt_text(row, c.registrar_address),
        registrar_by: opt_text(row, c.registrar_by),
        email: opt_text(row, c.email),
        registrar_at: opt_time(row, c.registrar_at),
        expire_at: opt_time(row, c.expire_at),
        updated_at: opt_time(row, c.updated_at),
        record_status: opt_text(row, c.record_status),
        record_at: opt_time(row, c.record_at),
        record_main_body: opt_text(row, c.record_main_body),
        record_type: opt_text(row, c.record_type),
        record_no: opt_text(row, c.record_no),
        record_name: opt_text(row, c.record_name),
    }
}

fn find_cols(hdr: &Vec<Cell>) -> (r: Option<Cols>)
    ensures
        r is Some <==> headers_found(hdr@),
        r matches Some(c) ==> c@ == cols_view(hdr@),
{
    let mut j: usize = 0;
    while j < hdr.len()
        invariant
            0 <= j <= hdr@.len(),
            forall|k: int| 0 <= k < j ==> !hdr@[k].error,
        decreases hdr@.len() - j,
    {
        if hdr[j].error {
            return None;
        }
        j += 1;
    }
    let domain = match find_col_exec(hdr, &"域名".to_string()) {
        Some(i) => i,
        None => {
            return None;
        },
    };
    let age = match find_col_exec(hdr, &"建站年龄".to_string()) {
        Some(i) => i,
        None => {
            return None;
        },
    };
    let order_no = match find_col_exec(hdr, &"记录数".to_string()) {
        Some(i) => i,
        None => {
            return None;
        },
    };
    let start_at = match find_col_exec(hdr, &"开始时间".to_string()) {
        Some(i) => i,
        None => {
            return None;
        },
    };
    let end_at = match find_col_exec(hdr, &"结束时间".to_string()) {
        Some(i) => i,
        None => {
            return None;
        },
    };
    let title = match find_col_exec(hdr, &"标题".to_string()) {
        Some(i) => i,
        None => {
            return None;
        },
    };
    let language = match find_col_exec(hdr, &"语言".to_string()) {
        Some(i) => i,
        None => {
            return None;
        },
    };
    let score = match find_col_exec(hdr, &"评分".to_string()) {
        Some(i) => i,
        None => {
            return None;
        },
    };
    let dns = match find_col_exec(hdr, &"DNS".to_string()) {
        Some(i) => i,
        None => {
            return None;
        },
    };
    let registrar_name = match find_col_exec(hdr, &"注册商".to_string()) {
        Some(i) => i,
        None => {
            return None;
        },
    };
    let registrar_address = match find_col_exec(hdr, &"注册商地址".to_string()) {
        Some(i) => i,
        None => {
            return None;
        },
    };
    let registrar_by = match find_col_exec(hdr, &"注册人".to_string()) {
        Some(i) => i,
        None => {
            return None;
        },
    };
    let email = match find_col_exec(hdr, &"Email".to_string()) {
        Some(i) => i,
        None => {
            return None;
        },
    };
    let registrar_at = match find_col_exec(hdr, &"注册时间".to_string()) {
        Some(i) => i,
        None => {
            return None;
        },
    };
    let expire_at = match find_col_exec(hdr, &"到期时间".to_string()) {
        Some(i) => i,
        None => {
            return None;
        },
    };
    let updated_at = match find_col_exec(hdr, &"更新时间".to_string()) {
        Some(i) => i,
        None => {
            return None;
        },
    };
    let record_status = match find_col_exec(hdr, &"备案状态".to_string()) {
        Some(i) => i,
        None => {
            return None;
        },
    };
    let record_at = match find_col_exec(hdr, &"备案时间".to_string()) {
        Some(i) => i,
        None => {
            return None;
        },
    };
    let record_main_body = match find_col_exec(hdr, &"备案主体".to_string()) {
        Some(i) => i,
        None => {
            return None;
        },
    };
    let record_type = match find_col_exec(hdr, &"备案类型".to_string()) {
        Some(i) => i,
        None => {
            return None;
        },
    };
    let record_no = match find_col_exec(hdr, &"备案号".to_string()) {
        Some(i) => i,
        None => {
            return None;
        },
    };
    let record_name = match find_col_exec(hdr, &"备案名".to_string()) {
        Some(i) => i,
        None => {
            return None;
        },
    };
    Some(
        Cols {
            domain,
            age,
            order_no,
            start_at,
            end_at,
            title,
            language,
            score,
            dns,
            registrar_name,
            registrar_address,
            registrar_by,
            email,
            registrar_at,
            expire_at,
            updated_at,
            record_status,
            record_at,
            record_main_body,
            record_type,
            record_no,
            record_name,
        },
    )
}

fn row_to_record(row: &Vec<Cell>, cols: &Cols) -> (r: Option<Record>)
    ensures
        r is Some <==> row_ok(row@, cols@),
        r matches Some(rec) ==> rec == record_of(row@, cols@),
{
    if cell_error_exec(row, cols.domain) || cell_error_exec(row, cols.age) || cell_error_exec(
        row,
        cols.order_no,
    ) || cell_error_exec(row, cols.start_at) || cell_error_exec(row, cols.end_at)
        || cell_error_exec(row, cols.title) || cell_error_exec(row, cols.language)
        || cell_error_exec(row, cols.score) || cell_error_exec(row, cols.dns) || cell_error_exec(
        row,
        cols.registrar_name,
    ) || cell_error_exec(row, cols.registrar_address) || cell_error_exec(row, cols.registrar_by)
        || cell_error_exec(row, cols.email) || cell_error_exec(row, cols.registrar_at)
        || cell_error_exec(row, cols.expire_at) || cell_error_exec(row, cols.updated_at)
        || cell_error_exec(row, cols.record_status) || cell_error_exec(row, cols.record_at)
        || cell_error_exec(row, cols.record_main_body) || cell_error_exec(row, cols.record_type)
        || cell_error_exec(row, cols.record_no) || cell_error_exec(row, cols.record_name) {
        return None;
    }
    match opt_text_exec(row, cols.domain) {
        None => None,
        Some(domain_name) => Some(
            Record {
                domain_name,
                age: opt_u8_exec(row, cols.age),
                order_no: opt_u8_exec(row, cols.order_no),
                language: opt_text_exec(row, cols.language),
                title: opt_text_exec(row, cols.title),
                score: opt_u8_exec(row, cols.score),
                dns: opt_text_exec(row, cols.dns),
                registrar_name: opt_text_exec(row, cols.registrar_name),
                registrar_address: opt_text_exec(row, cols.registrar_address),
                registrar_by: opt_text_exec(row, cols.registrar_by),
                email: opt_text_exec(row, cols.email),
                registrar_at: opt_time_exec(row, cols.registrar_at),
                expire_at: opt_time_exec(row, cols.expire_at),
                updated_at: opt_time_exec(row, cols.updated_at),
                record_status: opt_text_exec(row, cols.record_status),
                record_at: opt_time_exec(row, cols.record_at),
                record_main_body: opt_text_exec(row, cols.record_main_body),
                record_type: opt_text_exec(row, cols.record_type),
                record_no: opt_text_exec(row, cols.record_no),
                record_name: opt_text_exec(row, cols.record_name),
            },
        ),
    }
}

/// The grid, row by row, as mathematical sequences.
pub open spec fn grid_view(g: Seq<Vec<Cell>>) -> Seq<Seq<Cell>> {
    Seq::new(g.len(), |i: int| g[i]@)
}

/// What the whole grid parses to: an empty sheet yields no records; a sheet
/// whose header row lacks one of the fixed column names fails; a sheet with
/// an undeserializable row fails; otherwise every data row becomes a record,
/// in row order.
pub open spec fn parse_grid(g: Seq<Seq<Cell>>) -> Result<Seq<Record>, Seq<char>> {
    if g.len() == 0 {
        Ok(Seq::empty())
    } else if !headers_found(g[0]) {
        Err("missing header"@)
    } else if exists|i: int| 1 <= i < g.len() && !row_ok(g[i], cols_view(g[0])) {
        Err("invalid row"@)
    } else {
        Ok(Seq::new((g.len() - 1) as nat, |i: int| record_of(g[i + 1], cols_view(g[0]))))
    }
}

/// Maps a grid of cells to records, exactly as `parse_grid` says.
pub fn grid_to_records(g: &Vec<Vec<Cell>>) -> (r: Result<Vec<Record>, String>)
    ensures
        r matches Ok(v) ==> parse_grid(grid_view(g@)) matches Ok(rs) && v@ == rs,
        r matches Err(e) ==> parse_grid(grid_view(g@)) matches Err(m) && e@ == m,
{
    if g.len() == 0 {
        return Ok(Vec::new());
    }
    let cols = match find_cols(&g[0]) {
        None => {
            return Err("missing header".to_string());
        },
        Some(c) => c,
    };
    let mut recs: Vec<Record> = Vec::new();
    let mut i: usize = 1;
    while i < g.len()
        invariant
            1 <= i <= g@.len(),
            g@.len() >= 1,
            headers_found(grid_view(g@)[0]),
            cols@ == cols_view(grid_view(g@)[0]),
            forall|j: int| 1 <= j < i ==> row_ok(grid_view(g@)[j], cols@),
            recs@.len() == i - 1,
            forall|j: int| 1 <= j < i ==> recs@[j - 1] == record_of(grid_view(g@)[j], cols@),
        decreases g@.len() - i,
    {
        match row_to_record(&g[i], &cols) {
            None => {
                proof {
                    let gv = grid_view(g@);
                    assert(1 <= i < gv.len() && !row_ok(gv[i as int], cols_view(gv[0])));
                }
                return Err("invalid row".to_string());
            },
            Some(rec) => {
                recs.push(rec);
            },
        }
        i += 1;
    }
    proof {
        let gv = grid_view(g@);
        assert(!(exists|j: int| 1 <= j < gv.len() && !row_ok(gv[j], cols_view(gv[0]))));
        assert(recs@ =~= Seq::new(
            (gv.len() - 1) as nat,
            |k: int| record_of(gv[k + 1], cols_view(gv[0])),
        ));
    }
    Ok(recs)
}

/// How the bytes read as a workbook: the first sheet's cells, or a workbook
/// without any sheet, or bytes that are no readable workbook at all —
/// carrying the reader's error description.
pub enum SheetRead {
    Grid(Seq<Seq<Cell>>),
    NoSheet,
    Unreadable(Seq<char>),
}

/// What the bytes hold as a workbook, a function of the bytes alone.
pub uninterp spec fn sheet_cells(bytes: Seq<u8>) -> SheetRead;

/// Relies on calamine: `Xlsx::new` opens a workbook from bytes,
/// `sheet_names`/`worksheet_range` read its first sheet, and each cell's
/// `Display`, `as_i64`, `as_datetime` and `is_empty`/`is_error` readings are
/// functions of the bytes alone. Fails exactly when the workbook cannot be
/// read — with calamine's error description — or has no sheet, with a fixed
/// message.
#[verifier::external_body]
fn load_sheet_cells(bytes: &Vec<u8>) -> (r: Result<Vec<Vec<Cell>>, String>)
    ensures
        r matches Ok(g) ==> sheet_cells(bytes@) == SheetRead::Grid(grid_view(g@)),
        r matches Err(e) ==> match sheet_cells(bytes@) {
            SheetRead::Grid(_) => false,
            SheetRead::NoSheet => e@ == "文件缺少sheet name"@,
            SheetRead::Unreadable(m) => e@ == m,
        },
{
    let cell = |d: &calamine::Data| Cell {
        repr: d.to_string(),
        int: d.as_i64(),
        timestamp: d.as_datetime().map(|n| n.and_utc().timestamp_micros()),
        empty: d.is_empty(),
        error: d.is_error(),
    };
    let mut wb: calamine::Xlsx<_> = calamine::Xlsx::new(std::io::Cursor::new(bytes.as_slice()))
        .map_err(|e| e.to_string())?;
    let first = wb.sheet_names().first().ok_or("文件缺少sheet name")?.clone();
    let range = wb.worksheet_range(&first).map_err(|e| e.to_string())?;
    Ok(range.rows().map(|r| r.iter().map(cell).collect()).collect())
}

/// Parses an uploaded workbook into its ordered records: the first sheet is
/// read, its columns are mapped by header name, and each data row becomes
/// one record. Fails exactly when the bytes are no readable workbook, the
/// sheet is missing, a fixed column name is missing from the header row, or
/// a row cannot be deserialized — each with its error description.
pub fn excel_to_record(bytes: &Vec<u8>) -> (r: Result<Vec<Record>, AppError>)
    ensures
        r matches Ok(v) ==> sheet_cells(bytes@) matches SheetRead::Grid(g) && parse_grid(
            g,
        ) matches Ok(rs) && v@ == rs,
        r matches Err(e) ==> {
            ||| sheet_cells(bytes@) matches SheetRead::Unreadable(m) && e.0@ == m
            ||| sheet_cells(bytes@) is NoSheet && e.0@ == "文件缺少sheet name"@
            ||| sheet_cells(bytes@) matches SheetRead::Grid(g) && parse_grid(g) matches Err(m)
                && e.0@ == m
        },
{
    let cells = match load_sheet_cells(bytes) {
        Err(m) => {
            return Err(AppError::new(m));
        },
        Ok(c) => c,
    };
    match grid_to_records(&cells) {
        Ok(v) => Ok(v),
        Err(m) => Err(AppError::new(m)),
    }
}

} // verus!
