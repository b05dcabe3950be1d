use vstd::prelude::*;

use super::subject::{SubjectId, SubjectStats};

verus! {

#[derive(Debug, PartialEq, Eq, Hash)]
pub struct StudyBlockId(pub String);

impl Clone for StudyBlockId {
    fn clone(&self) -> (r: Self)
        ensures
            r == *self,
    {
        StudyBlockId(self.0.clone())
    }
}

/// A span of time studied, possibly still running (no end time yet).
#[derive(Debug)]
pub struct StudyBlock {
    pub id: StudyBlockId,
    pub subject_id: Option<SubjectId>,
    pub start_time: i64,
    pub end_time: Option<i64>,
    /// Seconds studied; 0 while the block runs.
    pub duration: i64,
    pub created_at: i64,
}

impl Clone for StudyBlock {
    fn clone(&self) -> (r: Self)
        ensures
            r == *self,
    {
        let subject_id = match &self.subject_id {
            Some(s) => Some(s.clone()),
            None => None,
        };
        StudyBlock {
            id: self.id.clone(),
            subject_id,
            start_time: self.start_time,
            end_time: self.end_time,
            duration: self.duration,
            created_at: self.created_at,
        }
    }
}

impl StudyBlock {
    /// A block for `subject_id` that starts at `now` and is still running.
    pub fn started(id: StudyBlockId, subject_id: SubjectId, now: i64) -> (r: Self)
        ensures
            r == (StudyBlock {
                id,
                subject_id: Some(subject_id),
                start_time: now,
                end_time: None,
                duration: 0,
                created_at: now,
            }),
    {
        StudyBlock {
            id,
            subject_id: Some(subject_id),
            start_time: now,
            end_time: None,
            duration: 0,
            created_at: now,
        }
    }
}

/// A study block together with its subject.
#[derive(Debug)]
pub struct StudyBlockWithSubject {
    pub block: StudyBlock,
    pub subject: SubjectStats,
}

impl StudyBlockWithSubject {
    /// Joins a block with the subject read beside it; the subject's id is
    /// the block's `subject_id` column.
    pub fn join(block: StudyBlock, subject: SubjectStats, subject_id: SubjectId) -> (r: Self)
        ensures
            r.block == block,
            r.subject == (SubjectStats { id: subject_id, ..subject }),
    {
        StudyBlockWithSubject { block, subject: SubjectStats { id: subject_id, ..subject } }
    }
}

/// Time studied on one day.
#[derive(Debug)]
pub struct DailyStudyTime {
    /// The day, as `YYYY-MM-DD`.
    pub day: String,
    pub duration_secs: i64,
}

} // verus!
