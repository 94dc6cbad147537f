use vstd::prelude::*;

verus! {

#[verifier::external_type_specification]
#[verifier::external_body]
pub struct ExUuid(uuid::Uuid);

/// The body of a request that creates a task. Times are in microseconds
/// since the Unix epoch.
#[derive(Debug)]
pub struct CreateTaskPayload {
    pub title: String,
    pub description: Option<String>,
    pub due_date: i64,
    pub status: Option<TaskStatus>,
}

/// The body of a request that changes a task: what is `None` stays as it
/// was.
#[derive(Debug)]
pub struct UpdateTaskPayload {
    pub title: Option<String>,
    pub description: Option<String>,
    pub status: Option<String>,
    pub due_date: Option<i64>,
}

#[derive(Debug, Clone, Copy, PartialEq, Eq, Structural)]
pub enum TaskStatus {
    Pending,
    InProgress,
    Done,
}

impl TaskStatus {
    /// The status as it is stored and sent.
    pub open spec fn spec_to_string(self) -> Seq<char> {
        match self {
            TaskStatus::Pending => "pending"@,
            TaskStatus::InProgress => "in_progress"@,
            TaskStatus::Done => "done"@,
        }
    }

    pub fn to_string(&self) -> (text: String)
        ensures
            text@ == self.spec_to_string(),
    {
        match self {
            TaskStatus::Pending => "pending".to_owned(),
            TaskStatus::InProgress => "in_progress".to_owned(),
            TaskStatus::Done => "done".to_owned(),
        }
    }
}

/// A task as stored. `user_id` is the owner: it is set from the identity of
/// the caller who creates the task and never changes.
#[derive(Debug)]
pub struct Task {
    pub id: uuid::Uuid,
    pub title: String,
    pub description: Option<String>,
    pub status: String,
    pub due_date: i64,
    pub user_id: i64,
    pub created_at: i64,
    pub updated_at: i64,
}

/// What a client sees of a task.
#[derive(Debug)]
pub struct TasksResponse {
    pub title: String,
    pub description: Option<String>,
    pub status: String,
    pub due_date: i64,
}

} // verus!
