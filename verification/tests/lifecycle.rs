//! Job lifecycle: creation, worker steps, progress polling.

use bulk_import::model::{AppError, AuthBody, AuthError, AuthPayload, UserBody};
use bulk_import::task::{Task, TaskRegistry, TaskStatus};

fn fresh_job(total: usize) -> (TaskRegistry, u128) {
    let mut reg = TaskRegistry::new();
    let id = reg.build_task(Task::new("job", total)).unwrap();
    (reg, id)
}

#[test]
fn build_task_registers_each_job_under_its_own_id() {
    let mut reg = TaskRegistry::new();
    let first = reg.build_task(Task::new("one", 1)).unwrap();
    let second = reg.build_task(Task::new("two", 2)).unwrap();
    assert_ne!(first, second);
    assert_eq!(reg.task_count(), 2);
    assert_eq!(reg.get_status(first).unwrap().title, "one");
    assert_eq!(reg.get_status(second).unwrap().title, "two");
}

#[test]
fn new_job_is_padding_zero() {
    let (reg, id) = fresh_job(3);
    let body = reg.get_status(id).unwrap();
    assert_eq!(body.title, "job");
    assert_eq!(body.total, 3);
    assert_eq!(body.status, "padding");
    assert_eq!(body.progress, Some(0));
    assert_eq!(body.err_msg, None);
}

#[test]
fn all_success_reaches_done() {
    let (mut reg, id) = fresh_job(3);
    assert!(!reg.worker_step(id, Ok(())));
    assert!(!reg.worker_step(id, Ok(())));
    assert!(reg.worker_step(id, Ok(())));
    let body = reg.get_status(id).unwrap();
    assert_eq!(body.status, "done");
    assert_eq!(body.total, 3);
    assert_eq!(body.progress, None);
    assert_eq!(body.err_msg, None);
}

#[test]
fn progress_is_monotone_across_polls() {
    let (mut reg, id) = fresh_job(4);
    let mut last: u32 = 0;
    for _ in 0..4 {
        let body = reg.get_status(id).unwrap();
        if body.status == "padding" {
            let p = body.progress.unwrap();
            assert!(p >= last);
            last = p;
        }
        reg.worker_step(id, Ok(()));
    }
    assert_eq!(reg.get_status(id).unwrap().status, "done");
}

#[test]
fn done_job_never_regresses() {
    let (mut reg, id) = fresh_job(1);
    assert!(reg.worker_step(id, Ok(())));
    assert!(reg.worker_step(id, Ok(())));
    assert!(reg.worker_step(id, Err("late failure".to_string())));
    let body = reg.get_status(id).unwrap();
    assert_eq!(body.status, "done");
    assert_eq!(body.err_msg, None);
}

#[test]
fn failed_insert_records_reason_and_freezes() {
    let (mut reg, id) = fresh_job(3);
    assert!(!reg.worker_step(id, Ok(())));
    assert!(reg.worker_step(id, Err("disk full".to_string())));
    let body = reg.get_status(id).unwrap();
    assert_eq!(body.status, "error");
    assert_eq!(body.err_msg, Some("disk full".to_string()));
    assert_eq!(body.progress, None);
    // no later step changes the job again
    assert!(reg.worker_step(id, Ok(())));
    let body = reg.get_status(id).unwrap();
    assert_eq!(body.status, "error");
    assert_eq!(body.err_msg, Some("disk full".to_string()));
}

#[test]
fn empty_failure_description_still_gives_a_reason() {
    let (mut reg, id) = fresh_job(2);
    assert!(reg.worker_step(id, Err(String::new())));
    let body = reg.get_status(id).unwrap();
    assert_eq!(body.status, "error");
    let msg = body.err_msg.unwrap();
    assert!(!msg.is_empty());
    assert_eq!(msg, "record insert failed");
}

#[test]
fn unknown_id_is_not_found() {
    let reg = TaskRegistry::new();
    assert!(reg.get_status(42).is_none());
    let (reg, id) = fresh_job(1);
    assert!(reg.get_status(id.wrapping_add(1)).is_none());
}

#[test]
fn step_on_zero_total_job_finishes_it() {
    let (mut reg, id) = fresh_job(0);
    assert_eq!(reg.get_status(id).unwrap().status, "padding");
    assert!(reg.worker_step(id, Ok(())));
    assert_eq!(reg.get_status(id).unwrap().status, "done");
}

#[test]
fn step_on_unknown_id_changes_nothing() {
    let mut reg = TaskRegistry::new();
    assert!(reg.worker_step(7, Ok(())));
    assert_eq!(reg.task_count(), 0);
}

#[test]
fn task_new_fields() {
    let t = Task::new("导入数据", 5);
    assert_eq!(t.title, "导入数据");
    assert_eq!(t.total, 5);
    assert!(matches!(t.status, TaskStatus::Padding(0)));
}

#[test]
fn auth_body_new_is_bearer() {
    let b = AuthBody::new("tok".to_string());
    assert_eq!(b.access_token, "tok");
    assert_eq!(b.token_type, "Bearer");
}

#[test]
fn user_body_new_defaults() {
    let u = UserBody::new("katte");
    assert_eq!(u.name, "katte");
    assert_eq!(u.age, 36);
    assert_eq!(u.role, "administrator");
}

#[test]
fn auth_error_response_parts() {
    assert_eq!(AuthError::WrongCredentials.response_parts(), (401, "wrong credentials"));
    assert_eq!(AuthError::MissingCredentials.response_parts(), (400, "missing credentials"));
    assert_eq!(AuthError::InvalidToken.response_parts(), (400, "invalid token"));
    assert_eq!(AuthError::TokenCreation.response_parts(), (500, "token create error"));
}

#[test]
fn auth_payload_validation() {
    let full = AuthPayload { username: Some("u".to_string()), password: Some("p".to_string()) };
    assert!(full.validate().is_ok());
    let missing = AuthPayload { username: Some("u".to_string()), password: None };
    assert!(matches!(missing.validate(), Err(AuthError::MissingCredentials)));
}

#[test]
fn app_error_carries_message() {
    let e = AppError::new("boom".to_string());
    assert_eq!(e.message(), "boom");
}
