use task_api::common::errors::{AppError, StorageError};
use task_api::models::task::{CreateTaskPayload, Task, TaskStatus, TasksResponse, UpdateTaskPayload};
use task_api::services::task::TaskServices;
use uuid::Uuid;

fn task(id: u128, title: &str, owner: i64) -> Task {
    Task {
        id: Uuid::from_u128(id),
        title: title.to_string(),
        description: Some("old description".to_string()),
        status: "pending".to_string(),
        due_date: 500,
        user_id: owner,
        created_at: 100,
        updated_at: 200,
    }
}

fn no_change() -> UpdateTaskPayload {
    UpdateTaskPayload { title: None, description: None, status: None, due_date: None }
}

#[test]
fn status_is_written_in_lower_case() {
    assert_eq!(TaskStatus::Pending.to_string(), "pending");
    assert_eq!(TaskStatus::InProgress.to_string(), "in_progress");
    assert_eq!(TaskStatus::Done.to_string(), "done");
}

#[test]
fn listing_keeps_own_tasks_in_order() {
    let rows = vec![task(1, "a", 7), task(2, "b", 8), task(3, "c", 7), task(4, "d", 9), task(5, "e", 7)];
    let tasks = TaskServices::get_tasks(7, Ok(rows)).unwrap();
    let titles: Vec<&str> = tasks.iter().map(|t| t.title.as_str()).collect();
    assert_eq!(titles, vec!["a", "c", "e"]);
    assert!(tasks.iter().all(|t| t.user_id == 7));
    assert_eq!(tasks[1].id, Uuid::from_u128(3));
}

#[test]
fn listing_of_nothing_is_empty() {
    assert!(TaskServices::get_tasks(7, Ok(Vec::new())).unwrap().is_empty());
}

#[test]
fn listing_hides_tasks_of_others() {
    let rows = vec![task(1, "a", 8), task(2, "b", 9)];
    assert!(TaskServices::get_tasks(7, Ok(rows)).unwrap().is_empty());
}

#[test]
fn listing_failure_is_reported() {
    for failure in [
        StorageError::Other,
        StorageError::PoolTimedOut,
        StorageError::UniqueViolation,
        StorageError::RowNotFound,
    ] {
        assert_eq!(
            TaskServices::get_tasks(7, Err(failure)).unwrap_err(),
            AppError::ErrorFetchingTasks
        );
    }
}

#[test]
fn update_replaces_what_is_given() {
    let fields = UpdateTaskPayload {
        title: Some("new title".to_string()),
        description: Some("new description".to_string()),
        status: Some("done".to_string()),
        due_date: Some(900),
    };
    let stored = TaskServices::update_at(7, Ok(task(1, "old title", 7)), fields, 1234).unwrap();
    assert_eq!(stored.id, Uuid::from_u128(1));
    assert_eq!(stored.title, "new title");
    assert_eq!(stored.description.as_deref(), Some("new description"));
    assert_eq!(stored.status, "done");
    assert_eq!(stored.due_date, 900);
    assert_eq!(stored.user_id, 7);
    assert_eq!(stored.created_at, 100);
    assert_eq!(stored.updated_at, 1234);
}

#[test]
fn update_keeps_what_is_not_given() {
    let stored = TaskServices::update_at(7, Ok(task(1, "old title", 7)), no_change(), 1234).unwrap();
    assert_eq!(stored.title, "old title");
    assert_eq!(stored.description.as_deref(), Some("old description"));
    assert_eq!(stored.status, "pending");
    assert_eq!(stored.due_date, 500);
    assert_eq!(stored.created_at, 100);
    assert_eq!(stored.updated_at, 1234);
}

#[test]
fn update_of_one_field_leaves_the_others() {
    let fields = UpdateTaskPayload { status: Some("in_progress".to_string()), ..no_change() };
    let stored = TaskServices::update_at(7, Ok(task(1, "t", 7)), fields, 5).unwrap();
    assert_eq!(stored.status, "in_progress");
    assert_eq!(stored.title, "t");
    assert_eq!(stored.description.as_deref(), Some("old description"));
}

#[test]
fn update_of_a_foreign_task_finds_nothing() {
    let fields = UpdateTaskPayload { title: Some("mine now".to_string()), ..no_change() };
    assert_eq!(
        TaskServices::update_at(7, Ok(task(1, "bob's", 8)), fields, 5).unwrap_err(),
        AppError::TaskNotFound
    );
    assert_eq!(AppError::TaskNotFound.status_code(), 404);
}

#[test]
fn update_of_a_missing_task_finds_nothing() {
    assert_eq!(
        TaskServices::update_at(7, Err(StorageError::RowNotFound), no_change(), 5).unwrap_err(),
        AppError::TaskNotFound
    );
}

#[test]
fn update_that_the_store_fails_is_a_500() {
    for failure in [StorageError::Other, StorageError::PoolTimedOut, StorageError::UniqueViolation] {
        let error = TaskServices::update_at(7, Err(failure), no_change(), 5).unwrap_err();
        assert_eq!(error, AppError::ErrorUpdatingTask);
        assert_eq!(error.status_code(), 500);
    }
    assert_eq!(
        TaskServices::update(7, Err(StorageError::PoolTimedOut), no_change()).unwrap_err(),
        AppError::ErrorUpdatingTask
    );
}

#[test]
fn foreign_and_missing_task_look_the_same() {
    let foreign = TaskServices::update_at(7, Ok(task(1, "bob's", 8)), no_change(), 5).unwrap_err();
    let missing =
        TaskServices::update_at(7, Err(StorageError::RowNotFound), no_change(), 5).unwrap_err();
    assert_eq!(foreign, missing);
    let foreign = TaskServices::delete_allowed(7, Ok(task(1, "bob's", 8))).unwrap_err();
    let missing = TaskServices::delete_allowed(7, Err(StorageError::RowNotFound)).unwrap_err();
    assert_eq!(foreign, missing);
}

#[test]
fn owner_may_delete_the_task() {
    assert_eq!(TaskServices::delete_allowed(7, Ok(task(9, "mine", 7))).unwrap(), Uuid::from_u128(9));
}

#[test]
fn task_of_another_is_not_deleted() {
    let error = TaskServices::delete_allowed(7, Ok(task(9, "bob's", 8))).unwrap_err();
    assert_eq!(error, AppError::NotFound);
    assert_eq!(error.status_code(), 404);
    assert_eq!(
        TaskServices::delete_allowed(8, Ok(task(9, "bob's", 8))).unwrap(),
        Uuid::from_u128(9)
    );
}

#[test]
fn missing_task_is_not_deleted() {
    assert_eq!(
        TaskServices::delete_allowed(7, Err(StorageError::RowNotFound)).unwrap_err(),
        AppError::NotFound
    );
}

#[test]
fn deletion_that_the_store_fails_is_a_500() {
    for failure in [StorageError::Other, StorageError::PoolTimedOut, StorageError::UniqueViolation] {
        let error = TaskServices::delete_allowed(7, Err(failure)).unwrap_err();
        assert_eq!(error, AppError::ErrorDeletingTask);
        assert_eq!(error.status_code(), 500);
    }
}

#[test]
fn update_now_stamps_the_task() {
    let stored = TaskServices::update(7, Ok(task(1, "t", 7)), no_change()).unwrap();
    assert!(stored.updated_at > 1_600_000_000_000_000);
    assert_eq!(stored.created_at, 100);
    assert_eq!(
        TaskServices::update(7, Ok(task(1, "t", 8)), no_change()).unwrap_err(),
        AppError::TaskNotFound
    );
}

#[test]
fn store_answer_to_an_update_passes_through() {
    let reply = TasksResponse {
        title: "t".to_string(),
        description: None,
        status: "done".to_string(),
        due_date: 9,
    };
    let passed = TaskServices::updated(Ok(reply)).unwrap();
    assert_eq!(passed.title, "t");
    assert_eq!(passed.status, "done");
    assert_eq!(passed.due_date, 9);
    assert_eq!(
        TaskServices::updated(Err(StorageError::Other)).unwrap_err(),
        AppError::ErrorFetchingTasks
    );
}

#[test]
fn new_task_belongs_to_its_creator() {
    let payload = CreateTaskPayload {
        title: "write tests".to_string(),
        description: Some("all of them".to_string()),
        due_date: 777,
        status: Some(TaskStatus::InProgress),
    };
    let row = TaskServices::create_task_at(Uuid::from_u128(42), 7, payload, 10, 11);
    assert_eq!(row.id, Uuid::from_u128(42));
    assert_eq!(row.title, "write tests");
    assert_eq!(row.description.as_deref(), Some("all of them"));
    assert_eq!(row.status, "in_progress");
    assert_eq!(row.due_date, 777);
    assert_eq!(row.user_id, 7);
    assert_eq!(row.created_at, 10);
    assert_eq!(row.updated_at, 11);
}

#[test]
fn new_task_is_pending_by_default() {
    let payload =
        CreateTaskPayload { title: "t".to_string(), description: None, due_date: 1, status: None };
    let row = TaskServices::create_task_at(Uuid::from_u128(1), 7, payload, 10, 10);
    assert_eq!(row.status, "pending");
    assert_eq!(row.description, None);
}

#[test]
fn new_tasks_get_different_ids() {
    let payload = || CreateTaskPayload {
        title: "t".to_string(),
        description: None,
        due_date: 1,
        status: Some(TaskStatus::Done),
    };
    let first = TaskServices::create_task(7, payload());
    let second = TaskServices::create_task(7, payload());
    assert_ne!(first.id, second.id);
    assert_eq!(first.id.get_version_num(), 4);
    assert_eq!(first.user_id, 7);
    assert_eq!(first.status, "done");
    assert!(first.created_at > 1_600_000_000_000_000);
    assert!(first.updated_at >= first.created_at);
}

#[test]
fn store_answer_to_a_new_task_passes_through() {
    let reply = TasksResponse {
        title: "t".to_string(),
        description: Some("d".to_string()),
        status: "pending".to_string(),
        due_date: 9,
    };
    let passed = TaskServices::created(Ok(reply)).unwrap();
    assert_eq!(passed.title, "t");
    assert_eq!(passed.description.as_deref(), Some("d"));
    assert_eq!(
        TaskServices::created(Err(StorageError::Other)).unwrap_err(),
        AppError::TaskCreationFailed
    );
    assert_eq!(AppError::TaskCreationFailed.status_code(), 500);
    assert_eq!(
        TaskServices::created(Err(StorageError::PoolTimedOut)).unwrap_err().status_code(),
        500
    );
}

#[test]
fn deletion_outcomes() {
    assert_eq!(TaskServices::delete_task(Ok(1)).unwrap(), "Sucess deleting task");
    assert_eq!(TaskServices::delete_task(Ok(3)).unwrap(), "Sucess deleting task");
    assert_eq!(TaskServices::delete_task(Ok(0)).unwrap_err(), AppError::NotFound);
    assert_eq!(
        TaskServices::delete_task(Err(StorageError::Other)).unwrap_err(),
        AppError::ErrorDeletingTask
    );
    assert_eq!(
        TaskServices::delete_task(Err(StorageError::PoolTimedOut)).unwrap_err(),
        AppError::ErrorDeletingTask
    );
}
