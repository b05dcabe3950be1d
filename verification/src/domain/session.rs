use vstd::prelude::*;

use super::subject::SubjectId;

verus! {

#[derive(Debug, PartialEq, Eq, Hash)]
pub struct SessionId(pub String);

impl Clone for SessionId {
    fn clone(&self) -> (r: Self)
        ensures
            r == *self,
    {
        SessionId(self.0.clone())
    }
}

/// A scheduled intent to study a subject, after RFC 5545 (iCalendar).
#[derive(Debug)]
pub struct Session {
    pub id: SessionId,
    /// A session belongs to exactly one subject.
    pub subject_id: SubjectId,
    pub name: String,
    /// Start time of the first occurrence (Unix timestamp).
    pub dtstart: u64,
    /// Duration of the study session in minutes.
    pub duration_minutes: u32,
    /// Recurrence rule (e.g. "FREQ=WEEKLY;BYDAY=SU"); `None` for a one-off session.
    pub rrule: Option<String>,
    /// Timestamps of excluded occurrences.
    pub exdates: Vec<u64>,
    pub created_at: u64,
}

/// The mathematical value of a [`Session`]: its excluded dates as a sequence.
pub struct SessionView {
    pub id: SessionId,
    pub subject_id: SubjectId,
    pub name: String,
    pub dtstart: u64,
    pub duration_minutes: u32,
    pub rrule: Option<String>,
    pub exdates: Seq<u64>,
    pub created_at: u64,
}

impl View for Session {
    type V = SessionView;

    open spec fn view(&self) -> SessionView {
        SessionView {
            id: self.id,
            subject_id: self.subject_id,
            name: self.name,
            dtstart: self.dtstart,
            duration_minutes: self.duration_minutes,
            rrule: self.rrule,
            exdates: self.exdates@,
            created_at: self.created_at,
        }
    }
}

impl Clone for Session {
    fn clone(&self) -> (r: Self)
        ensures
            r@ == self@,
    {
        let rrule = match &self.rrule {
            Some(s) => Some(s.clone()),
            None => None,
        };
        let exdates = self.exdates.clone();
        assert(exdates@ == self.exdates@);
        Session {
            id: self.id.clone(),
            subject_id: self.subject_id.clone(),
            name: self.name.clone(),
            dtstart: self.dtstart,
            duration_minutes: self.duration_minutes,
            rrule,
            exdates,
            created_at: self.created_at,
        }
    }
}

impl Session {
    /// A session recurs exactly when it has a recurrence rule.
    pub fn is_recurring(&self) -> (r: bool)
        ensures
            r == self.rrule is Some,
    {
        self.rrule.is_some()
    }
}

} // verus!
