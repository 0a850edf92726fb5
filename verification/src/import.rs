//! The import coordinator: parses an upload synchronously, creates the job,
//! and hands back the job id together with the records that the caller's
//! background worker will drain. No record is inserted before it returns.

use vstd::prelude::*;
use crate::file::{excel_to_record, parse_grid, sheet_cells, Record, SheetRead};
use crate::model::AppError;
use crate::task::{StatusView, Task, TaskRegistry, TaskView};

verus! {

/// Validates and parses the uploaded workbook; on success registers a fresh
/// job — under an id that was no key of the registry before — with `total`
/// fixed to the record count and no record inserted yet, and returns the id
/// with the parsed records. On failure — an unreadable workbook, a missing
/// sheet, a malformed header row, an undeserializable row, a record count
/// beyond the progress counter's range, or a collision of the randomly
/// drawn id with an existing one — no job is created, the registry is
/// unchanged, and the error carries the matching description.
pub fn submit_import(reg: &mut TaskRegistry, title: &str, bytes: &Vec<u8>) -> (r: Result<
    (u128, Vec<Record>),
    AppError,
>)
    ensures
        r matches Ok(p) ==> {
            &&& sheet_cells(bytes@) matches SheetRead::Grid(g) && parse_grid(g) matches Ok(rs)
                && p.1@ == rs
            &&& p.1@.len() <= u32::MAX
            &&& !old(reg)@.contains_key(p.0)
            &&& final(reg)@ == old(reg)@.insert(
                p.0,
                (TaskView {
                    title: title@,
                    total: p.1@.len() as u32,
                    status: StatusView::Padding(0),
                }),
            )
        },
        r matches Err(e) ==> final(reg)@ == old(reg)@ && {
            ||| sheet_cells(bytes@) matches SheetRead::Unreadable(m) && e.0@ == m
            ||| sheet_cells(bytes@) is NoSheet && e.0@ == "文件缺少sheet name"@
            ||| sheet_cells(bytes@) matches SheetRead::Grid(g) && parse_grid(g) matches Err(m)
                && e.0@ == m
            ||| sheet_cells(bytes@) matches SheetRead::Grid(g) && parse_grid(g) matches Ok(rs)
                && rs.len() > u32::MAX && e.0@ == "too many records"@
            ||| sheet_cells(bytes@) matches SheetRead::Grid(g) && parse_grid(g) matches Ok(rs)
                && rs.len() <= u32::MAX && e.0@ == "task id collision"@
        },
        old(reg).wf() ==> final(reg).wf(),
{
    let records = match excel_to_record(bytes) {
        Err(e) => {
            return Err(e);
        },
        Ok(v) => v,
    };
    if records.len() > u32::MAX as usize {
        return Err(AppError::new("too many records".to_string()));
    }
    let task = Task::new(title, records.len());
    match reg.build_task(task) {
        Ok(id) => Ok((id, records)),
        Err(e) => Err(e),
    }
}

} // verus!
