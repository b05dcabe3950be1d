use vstd::prelude::*;

use super::session::SessionId;
use super::study_block::StudyBlockId;

verus! {

#[derive(Debug, PartialEq, Eq, Hash)]
pub struct TaskId(pub String);

impl Clone for TaskId {
    fn clone(&self) -> (r: Self)
        ensures
            r == *self,
    {
        TaskId(self.0.clone())
    }
}

#[derive(Debug, PartialEq, Eq, Structural, Clone, Copy)]
pub enum TaskStatus {
    Open,
    Completed,
    Abandoned,
}

#[derive(Debug, PartialEq, Eq, Structural, Clone, Copy)]
pub enum Priority {
    Low,
    Medium,
    High,
    Urgent,
}

/// Something to do, optionally tied to a planned session or a study block.
#[derive(Debug)]
pub struct Task {
    pub id: TaskId,
    pub title: String,
    pub description: Option<String>,
    pub status: TaskStatus,
    pub priority: Priority,
    /// Link to a planned session, if any.
    pub session_id: Option<SessionId>,
    /// Link to an active or past study block, if any.
    pub study_block_id: Option<StudyBlockId>,
    pub due_date: Option<u64>,
    pub created_at: u64,
    pub updated_at: u64,
}

impl View for Task {
    type V = Task;

    open spec fn view(&self) -> Task {
        *self
    }
}

impl Clone for Task {
    fn clone(&self) -> (r: Self)
        ensures
            r == *self,
    {
        let description = match &self.description {
            Some(s) => Some(s.clone()),
            None => None,
        };
        let session_id = match &self.session_id {
            Some(s) => Some(s.clone()),
            None => None,
        };
        let study_block_id = match &self.study_block_id {
            Some(s) => Some(s.clone()),
            None => None,
        };
        Task {
            id: self.id.clone(),
            title: self.title.clone(),
            description,
            status: self.status,
            priority: self.priority,
            session_id,
            study_block_id,
            due_date: self.due_date,
            created_at: self.created_at,
            updated_at: self.updated_at,
        }
    }
}

} // verus!
