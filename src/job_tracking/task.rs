use vstd::prelude::*;

verus! {

/// Kind of a background job.
#[derive(Debug, Clone, Copy, PartialEq, Eq, Hash, Structural)]
pub enum TaskType {
    RefreshIndex,
    DownloadVideo,
}

/// Stable name of a task kind, used in logs and views.
pub open spec fn task_type_name(t: TaskType) -> Seq<char> {
    match t {
        TaskType::RefreshIndex => "refresh_index"@,
        TaskType::DownloadVideo => "download_video"@,
    }
}

impl TaskType {
    pub fn as_str(&self) -> (r: &'static str)
        ensures
            r@ == task_type_name(*self),
    {
        match self {
            TaskType::RefreshIndex => "refresh_index",
            TaskType::DownloadVideo => "download_video",
        }
    }
}

/// Lifecycle state of a task.
#[derive(Debug, Clone, PartialEq, Eq)]
pub enum TaskState {
    Queued,
    InProgress,
    Completed,
    Failed(String),
}

impl TaskState {
    /// A copy of the state whose equality with the original Verus knows.
    pub fn duplicate(&self) -> (r: TaskState)
        ensures
            r == *self,
    {
        match self {
            TaskState::Queued => TaskState::Queued,
            TaskState::InProgress => TaskState::InProgress,
            TaskState::Completed => TaskState::Completed,
            TaskState::Failed(m) => TaskState::Failed(m.clone()),
        }
    }
}

pub fn duplicate_text(o: &Option<String>) -> (r: Option<String>)
    ensures
        r == *o,
{
    match o {
        Some(s) => Some(s.clone()),
        None => None,
    }
}

/// Record of one task in the registry. Instants are milliseconds on the
/// registry's monotonic clock.
#[derive(Debug, Clone)]
pub struct TaskStatus {
    pub id: String,
    pub task_type: TaskType,
    pub title: String,
    pub created_at: u64,
    pub state: TaskState,
    pub completed_at: Option<u64>,
    pub status: Option<String>,
}

/// The part of a task record that is published to observers.
#[derive(Debug, Clone)]
pub struct SerializableTaskStatus {
    pub id: String,
    pub task_type: TaskType,
    pub title: String,
    pub state: TaskState,
    pub status: Option<String>,
}

/// Snapshot of the task list handed to observers.
#[derive(Debug, Clone)]
pub struct TaskUpdate {
    pub tasks: Vec<SerializableTaskStatus>,
}

pub open spec fn published(t: TaskStatus) -> SerializableTaskStatus {
    SerializableTaskStatus {
        id: t.id,
        task_type: t.task_type,
        title: t.title,
        state: t.state,
        status: t.status,
    }
}

impl TaskStatus {
    pub fn duplicate(&self) -> (r: TaskStatus)
        ensures
            r == *self,
    {
        TaskStatus {
            id: self.id.clone(),
            task_type: self.task_type,
            title: self.title.clone(),
            created_at: self.created_at,
            state: self.state.duplicate(),
            completed_at: self.completed_at,
            status: duplicate_text(&self.status),
        }
    }

    pub fn to_serializable(&self) -> (r: SerializableTaskStatus)
        ensures
            r == published(*self),
    {
        SerializableTaskStatus {
            id: self.id.clone(),
            task_type: self.task_type,
            title: self.title.clone(),
            state: self.state.duplicate(),
            status: duplicate_text(&self.status),
        }
    }
}

} // verus!
