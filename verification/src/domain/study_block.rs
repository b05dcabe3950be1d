use vstd::prelude::*;

use super::session::SessionId;

verus! {

#[derive(Debug, PartialEq, Eq, Hash)]
pub struct StudyBlockId(pub String);

impl Clone for StudyBlockId {
    fn clone(&self) -> (r: Self)
        ensures
            r == *self,
    {
        StudyBlockId(self.0.clone())
    }
}

#[derive(Debug, PartialEq, Eq, Structural, Clone, Copy)]
pub enum StudyBlockStatus {
    Active,
    Completed,
    Paused,
}

/// A span of time actually spent studying.
#[derive(Debug)]
pub struct StudyBlock {
    pub id: StudyBlockId,
    /// The session (plan) that triggered this block, if any.
    pub session_id: Option<SessionId>,
    pub start_time: u64,
    pub end_time: Option<u64>,
    pub status: StudyBlockStatus,
    pub created_at: u64,
}

impl View for StudyBlock {
    type V = StudyBlock;

    open spec fn view(&self) -> StudyBlock {
        *self
    }
}

impl Clone for StudyBlock {
    fn clone(&self) -> (r: Self)
        ensures
            r == *self,
    {
        let session_id = match &self.session_id {
            Some(s) => Some(s.clone()),
            None => None,
        };
        StudyBlock {
            id: self.id.clone(),
            session_id,
            start_time: self.start_time,
            end_time: self.end_time,
            status: self.status,
            created_at: self.created_at,
        }
    }
}

} // verus!
