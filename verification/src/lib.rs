//! Asynchronous bulk-import job lifecycle: a registry of import jobs, a
//! coordinator that parses an uploaded workbook and creates a job, a worker
//! step that advances a job's progress one record at a time, and a progress
//! reporter that serves polling reads.

pub mod file;
pub mod import;
pub mod model;
pub mod task;
