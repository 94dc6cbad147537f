//! The decisions of the task endpoints.
//!
//! Every function here takes the caller's id from the identity that the
//! authentication of the request established, never from the request: a task belongs
//! to whoever created it, and nobody else sees or changes it.

use crate::common::clock::unix_now_micros;
use crate::common::errors::{AppError, StorageError};
use crate::models::task::{CreateTaskPayload, Task, TaskStatus, TasksResponse, UpdateTaskPayload};
use vstd::prelude::*;

verus! {

pub struct TaskServices;

/// `Uuid::new_v4`: a random identifier. Nothing is known of it. The call
/// panics where the operating system cannot supply random bytes.
#[verifier::external_body]
fn fresh_task_id() -> (id: uuid::Uuid) {
    uuid::Uuid::new_v4()
}

/// Whether the caller `user_id` owns `task`.
pub open spec fn owned_by(task: Task, user_id: i64) -> bool {
    task.user_id == user_id
}

/// The tasks among `tasks` that `user_id` owns, in their order.
pub open spec fn tasks_of(tasks: Seq<Task>, user_id: i64) -> Seq<Task> {
    tasks.filter(|task: Task| owned_by(task, user_id))
}

/// The status that a new task gets: the one asked for, else `pending`.
pub open spec fn initial_status(asked: Option<TaskStatus>) -> TaskStatus {
    match asked {
        Some(status) => status,
        None => TaskStatus::Pending,
    }
}

/// `task` after the changes in `fields`, made at `now`: a field that is
/// given replaces the old one, the others stay; the id, the owner and the
/// time of creation never change.
pub open spec fn changed(task: Task, fields: UpdateTaskPayload, now: i64) -> Task {
    Task {
        id: task.id,
        title: match fields.title {
            Some(title) => title,
            None => task.title,
        },
        description: match fields.description {
            Some(description) => Some(description),
            None => task.description,
        },
        status: match fields.status {
            Some(status) => status,
            None => task.status,
        },
        due_date: match fields.due_date {
            Some(due_date) => due_date,
            None => task.due_date,
        },
        user_id: task.user_id,
        created_at: task.created_at,
        updated_at: now,
    }
}

/// What a change asked by `user_id` at `now` comes to, given the task that
/// was found under the id: the changed task where the caller owns it;
/// `TaskNotFound` where there is no such task or it belongs to somebody
/// else; `ErrorUpdatingTask` where the store failed.
pub open spec fn change_decided(
    user_id: i64,
    found: Result<Task, StorageError>,
    fields: UpdateTaskPayload,
    now: i64,
) -> Result<Task, AppError> {
    match found {
        Ok(task) => if owned_by(task, user_id) {
            Ok(changed(task, fields, now))
        } else {
            Err(AppError::TaskNotFound)
        },
        Err(StorageError::RowNotFound) => Err(AppError::TaskNotFound),
        Err(_) => Err(AppError::ErrorUpdatingTask),
    }
}

/// What a deletion asked by `user_id` comes to, given the task that was
/// found under the id: the id of the task to delete where the caller owns
/// it; `NotFound` where there is no such task or it belongs to somebody
/// else; `ErrorDeletingTask` where the store failed.
pub open spec fn deletion_decided(user_id: i64, found: Result<Task, StorageError>) -> Result<
    uuid::Uuid,
    AppError,
> {
    match found {
        Ok(task) => if owned_by(task, user_id) {
            Ok(task.id)
        } else {
            Err(AppError::NotFound)
        },
        Err(StorageError::RowNotFound) => Err(AppError::NotFound),
        Err(_) => Err(AppError::ErrorDeletingTask),
    }
}

impl TaskServices {
    /// The task to store in place of the one found, for a change asked by
    /// `user_id` at `now`.
    ///
    /// Fails with `TaskNotFound` where no task was found, and also where
    /// the task found belongs to somebody else: to other callers a task
    /// does not exist. A failure of the store is `ErrorUpdatingTask`.
    pub fn update_at(
        user_id: i64,
        found: Result<Task, StorageError>,
        update_fields: UpdateTaskPayload,
        now: i64,
    ) -> (outcome: Result<Task, AppError>)
        ensures
            outcome == change_decided(user_id, found, update_fields, now),
    {
        let task = match found {
            Ok(task) => task,
            Err(StorageError::RowNotFound) => {
                return Err(AppError::TaskNotFound);
            },
            Err(_) => {
                return Err(AppError::ErrorUpdatingTask);
            },
        };
        if task.user_id != user_id {
            return Err(AppError::TaskNotFound);
        }
        Ok(
            Task {
                id: task.id,
                title: match update_fields.title {
                    Some(title) => title,
                    None => task.title,
                },
                description: match update_fields.description {
                    Some(description) => Some(description),
                    None => task.description,
                },
                status: match update_fields.status {
                    Some(status) => status,
                    None => task.status,
                },
                due_date: match update_fields.due_date {
                    Some(due_date) => due_date,
                    None => task.due_date,
                },
                user_id: task.user_id,
                created_at: task.created_at,
                updated_at: now,
            },
        )
    }

    /// The task to store in place of the one found, for a change asked by
    /// `user_id` now.
    pub fn update(user_id: i64, found: Result<Task, StorageError>, update_fields: UpdateTaskPayload) -> (outcome:
        Result<Task, AppError>)
        ensures
            exists|now: i64| outcome == #[trigger] change_decided(user_id, found, update_fields, now),
    {
        let now = unix_now_micros();
        Self::update_at(user_id, found, update_fields, now)
    }

    /// What the store's answer to a change becomes.
    pub fn updated(stored: Result<TasksResponse, StorageError>) -> (outcome: Result<
        TasksResponse,
        AppError,
    >)
        ensures
            match stored {
                Ok(task) => outcome matches Ok(reply) && reply == task,
                Err(_) => outcome matches Err(e) && e == AppError::ErrorFetchingTasks,
            },
    {
        match stored {
            Ok(task) => Ok(task),
            Err(_) => Err(AppError::ErrorFetchingTasks),
        }
    }

    /// The tasks of `user_id` among the rows read, in the order read.
    ///
    /// A row of another owner never reaches the caller, whatever the store
    /// returned. A failure of the store is `ErrorFetchingTasks`.
    pub fn get_tasks(user_id: i64, rows: Result<Vec<Task>, StorageError>) -> (outcome: Result<
        Vec<Task>,
        AppError,
    >)
        ensures
            match rows {
                Ok(found) => outcome matches Ok(tasks) && tasks@ == tasks_of(found@, user_id),
                Err(_) => outcome matches Err(e) && e == AppError::ErrorFetchingTasks,
            },
    {
        let found = match rows {
            Ok(found) => found,
            Err(_) => {
                return Err(AppError::ErrorFetchingTasks);
            },
        };
        let ghost all = found@;
        let mut tasks: Vec<Task> = Vec::new();
        proof {
            reveal(Seq::filter);
        }
        for task in it: found
            invariant
                it.seq() == all,
                tasks@ == tasks_of(all.take(it.index() as int), user_id),
        {
            proof {
                reveal(Seq::filter);
                let before = all.take(it.index() as int);
                let after = all.take(it.index() + 1);
                assert(after.drop_last() == before);
                assert(after.last() == task);
            }
            if task.user_id == user_id {
                tasks.push(task);
            }
        }
        proof {
            assert(all.take(all.len() as int) == all);
        }
        Ok(tasks)
    }

    /// The task that `user_id` creates from `task`, with the given id and
    /// times. Its owner is `user_id`; its status is the one asked for, else
    /// `pending`.
    pub fn create_task_at(
        id: uuid::Uuid,
        user_id: i64,
        task: CreateTaskPayload,
        created_at: i64,
        updated_at: i64,
    ) -> (row: Task)
        ensures
            row.id == id,
            row.title == task.title,
            row.description == task.description,
            row.status@ == initial_status(task.status).spec_to_string(),
            row.due_date == task.due_date,
            row.user_id == user_id,
            row.created_at == created_at,
            row.updated_at == updated_at,
    {
        let status = match task.status {
            Some(status) => status,
            None => TaskStatus::Pending,
        };
        Task {
            id,
            title: task.title,
            description: task.description,
            status: status.to_string(),
            due_date: task.due_date,
            user_id,
            created_at,
            updated_at,
        }
    }

    /// The task that `user_id` creates from `task` now, under a fresh
    /// random id.
    pub fn create_task(user_id: i64, task: CreateTaskPayload) -> (row: Task)
        ensures
            row.title == task.title,
            row.description == task.description,
            row.status@ == initial_status(task.status).spec_to_string(),
            row.due_date == task.due_date,
            row.user_id == user_id,
    {
        let id = fresh_task_id();
        let created_at = unix_now_micros();
        let updated_at = unix_now_micros();
        Self::create_task_at(id, user_id, task, created_at, updated_at)
    }

    /// What the store's answer to a new task becomes.
    pub fn created(stored: Result<TasksResponse, StorageError>) -> (outcome: Result<
        TasksResponse,
        AppError,
    >)
        ensures
            match stored {
                Ok(task) => outcome matches Ok(reply) && reply == task,
                Err(_) => outcome matches Err(e) && e == AppError::TaskCreationFailed,
            },
    {
        match stored {
            Ok(task) => Ok(task),
            Err(_) => Err(AppError::TaskCreationFailed),
        }
    }

    /// Whether `user_id` may delete the task found under an id: the id of
    /// the task to delete, or why there is nothing to delete.
    ///
    /// A task of somebody else is `NotFound`, as a task that does not
    /// exist: nothing is deleted, and the caller does not learn that the
    /// task is there.
    pub fn delete_allowed(user_id: i64, found: Result<Task, StorageError>) -> (outcome: Result<
        uuid::Uuid,
        AppError,
    >)
        ensures
            outcome == deletion_decided(user_id, found),
    {
        match found {
            Ok(task) => {
                if task.user_id == user_id {
                    Ok(task.id)
                } else {
                    Err(AppError::NotFound)
                }
            },
            Err(StorageError::RowNotFound) => Err(AppError::NotFound),
            Err(_) => Err(AppError::ErrorDeletingTask),
        }
    }

    /// What the store's answer to a deletion becomes, given the number of
    /// rows that it removed.
    ///
    /// A deletion that removed nothing is `NotFound`: the task went away
    /// in the meantime. A failure of the store is `ErrorDeletingTask`.
    pub fn delete_task(removed: Result<u64, StorageError>) -> (outcome: Result<String, AppError>)
        ensures
            match removed {
                Ok(rows) if rows > 0 => outcome matches Ok(text) && text@ == "Sucess deleting task"@,
                Ok(_) => outcome matches Err(e) && e == AppError::NotFound,
                Err(_) => outcome matches Err(e) && e == AppError::ErrorDeletingTask,
            },
    {
        match removed {
            Ok(rows) => {
                if rows == 0 {
                    Err(AppError::NotFound)
                } else {
                    Ok("Sucess deleting task".to_owned())
                }
            },
            Err(_) => Err(AppError::ErrorDeletingTask),
        }
    }
}

/// A caller neither changes, deletes nor sees the task of another:
/// whatever the change and the time, the answer is that there is no such
/// task, as for a task that does not exist; and a listing leaves the task
/// out.
pub proof fn foreign_task_is_hidden(caller: i64, task: Task, fields: UpdateTaskPayload, now: i64)
    requires
        task.user_id != caller,
    ensures
        change_decided(caller, Ok(task), fields, now) matches Err(e) && e
            == AppError::TaskNotFound,
        change_decided(caller, Ok(task), fields, now) == change_decided(
            caller,
            Err(StorageError::RowNotFound),
            fields,
            now,
        ),
        deletion_decided(caller, Ok(task)) matches Err(e) && e == AppError::NotFound,
        deletion_decided(caller, Ok(task)) == deletion_decided(
            caller,
            Err(StorageError::RowNotFound),
        ),
        tasks_of(seq![task], caller) == Seq::<Task>::empty(),
{
    reveal(Seq::filter);
    let only = seq![task];
    assert(only.drop_last() == Seq::<Task>::empty());
    assert(only.last() == task);
    assert(only.drop_last().filter(|t: Task| owned_by(t, caller)) == Seq::<Task>::empty());
}

/// The owner of a task changes it and deletes it, and a change leaves the
/// owner as it was.
pub proof fn own_task_is_changed(caller: i64, task: Task, fields: UpdateTaskPayload, now: i64)
    requires
        task.user_id == caller,
    ensures
        change_decided(caller, Ok(task), fields, now) matches Ok(stored) && stored == changed(
            task,
            fields,
            now,
        ),
        changed(task, fields, now).user_id == caller,
        changed(task, fields, now).id == task.id,
        deletion_decided(caller, Ok(task)) matches Ok(id) && id == task.id,
{
}

/// Every task that a listing returns belongs to the caller.
pub proof fn listing_holds_own_tasks_only(tasks: Seq<Task>, caller: i64, i: int)
    requires
        0 <= i < tasks_of(tasks, caller).len(),
    ensures
        tasks_of(tasks, caller)[i].user_id == caller,
{
    tasks.lemma_filter_pred(|task: Task| owned_by(task, caller), i);
}

} // verus!
