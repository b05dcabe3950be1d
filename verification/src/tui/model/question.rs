use vstd::prelude::*;

use super::study_block::StudyBlockId;
use super::subject::SubjectId;
use crate::text::str_eq;

verus! {

#[derive(Debug, PartialEq, Eq)]
pub struct QuestionId(pub String);

impl Clone for QuestionId {
    fn clone(&self) -> (r: Self)
        ensures
            r == *self,
    {
        QuestionId(self.0.clone())
    }
}

#[derive(Debug, PartialEq, Eq, Structural, Clone, Copy)]
pub enum QuestionStatus {
    Open,
    Resolved,
}

impl QuestionStatus {
    /// The status stored under `name`: "Open" or "Resolved".
    pub fn parse(name: &str) -> (r: Option<Self>)
        ensures
            r == if name@ == "Open"@ {
                Some(QuestionStatus::Open)
            } else if name@ == "Resolved"@ {
                Some(QuestionStatus::Resolved)
            } else {
                None
            },
    {
        if str_eq(name, "Open") {
            Some(QuestionStatus::Open)
        } else if str_eq(name, "Resolved") {
            Some(QuestionStatus::Resolved)
        } else {
            None
        }
    }
}

/// A question raised while studying a subject, possibly answered.
#[derive(Debug)]
pub struct Question {
    pub id: QuestionId,
    pub subject_id: SubjectId,
    pub text: String,
    pub answer: Option<String>,
    pub status: QuestionStatus,
    pub created_in_block_id: Option<StudyBlockId>,
    pub resolved_in_block_id: Option<StudyBlockId>,
    pub created_at: i64,
    pub resolved_at: Option<i64>,
    pub updated_at: Option<i64>,
}

impl Clone for Question {
    fn clone(&self) -> (r: Self)
        ensures
            r == *self,
    {
        let answer = match &self.answer {
            Some(a) => Some(a.clone()),
            None => None,
        };
        let created_in_block_id = match &self.created_in_block_id {
            Some(b) => Some(b.clone()),
            None => None,
        };
        let resolved_in_block_id = match &self.resolved_in_block_id {
            Some(b) => Some(b.clone()),
            None => None,
        };
        Question {
            id: self.id.clone(),
            subject_id: self.subject_id.clone(),
            text: self.text.clone(),
            answer,
            status: self.status,
            created_in_block_id,
            resolved_in_block_id,
            created_at: self.created_at,
            resolved_at: self.resolved_at,
            updated_at: self.updated_at,
        }
    }
}

/// `q` with its status flipped between open and resolved.
pub open spec fn toggled(q: Question) -> Question {
    Question {
        status: if q.status == QuestionStatus::Open {
            QuestionStatus::Resolved
        } else {
            QuestionStatus::Open
        },
        ..q
    }
}

} // verus!
