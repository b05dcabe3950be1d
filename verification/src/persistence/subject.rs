//! The subjects lookup table kept in memory: seeded once, read-only after.

use vstd::prelude::*;

use super::store::{unique_keys, Store};
use crate::application::subject::SubjectRepository;
use crate::domain::{DomainError, DomainErrorView, Subject, SubjectId, SubjectView, Topic, TopicId};

verus! {

/// The subjects every planner starts with, read-only.
pub struct InMemorySubjectRepository {
    subjects: Store<Subject>,
}

/// A topic created at the epoch and never updated.
pub open spec fn seed_topic_ok(t: Topic, id: u64, name: Seq<char>) -> bool {
    t.id == TopicId(id) && t.name@ == name && t.created_at == 0 && t.updated_at == 0
}

/// A seeded subject: created at the epoch, never updated, with two topics.
pub open spec fn seed_subject_ok(
    s: SubjectView,
    id: Seq<char>,
    name: Seq<char>,
    color_hex: Seq<char>,
    first_topic: (u64, Seq<char>),
    second_topic: (u64, Seq<char>),
) -> bool {
    &&& s.id.0@ == id
    &&& s.name@ == name
    &&& s.color_hex@ == color_hex
    &&& s.created_at == 0
    &&& s.updated_at == 0
    &&& s.topics.len() == 2
    &&& seed_topic_ok(s.topics[0], first_topic.0, first_topic.1)
    &&& seed_topic_ok(s.topics[1], second_topic.0, second_topic.1)
}

fn topic(id: u64, name: &str) -> (r: Topic)
    ensures
        seed_topic_ok(r, id, name@),
{
    Topic { id: TopicId(id), name: name.to_owned(), created_at: 0, updated_at: 0 }
}

fn seed_subject(
    id: &str,
    name: &str,
    color_hex: &str,
    first: (u64, &str),
    second: (u64, &str),
) -> (r: Subject)
    ensures
        seed_subject_ok(r@, id@, name@, color_hex@, (first.0, first.1@), (second.0, second.1@)),
{
    let topics = vec![topic(first.0, first.1), topic(second.0, second.1)];
    Subject {
        id: SubjectId(id.to_owned()),
        name: name.to_owned(),
        color_hex: color_hex.to_owned(),
        topics,
        created_at: 0,
        updated_at: 0,
    }
}

impl InMemorySubjectRepository {
    /// The table seeded with Computer Science, Mathematics and English, in
    /// that order, each with two topics.
    pub fn new() -> (r: Self)
        ensures
            r.subjects().len() == 3,
            seed_subject_ok(
                r.subjects()[0],
                "cs"@,
                "Computer Science"@,
                "#3b82f6"@,
                (1, "Algorithms"@),
                (2, "Data Structures"@),
            ),
            seed_subject_ok(
                r.subjects()[1],
                "math"@,
                "Mathematics"@,
                "#ef4444"@,
                (3, "Calculus"@),
                (4, "Linear Algebra"@),
            ),
            seed_subject_ok(
                r.subjects()[2],
                "eng"@,
                "English"@,
                "#10b981"@,
                (5, "Grammar"@),
                (6, "Literature"@),
            ),
    {
        let cs = seed_subject(
            "cs",
            "Computer Science",
            "#3b82f6",
            (1, "Algorithms"),
            (2, "Data Structures"),
        );
        let math = seed_subject("math", "Mathematics", "#ef4444", (3, "Calculus"), (4, "Linear Algebra"));
        let eng = seed_subject("eng", "English", "#10b981", (5, "Grammar"), (6, "Literature"));
        let ghost (a, b, c) = (cs@, math@, eng@);
        proof {
            reveal_strlit("cs");
            reveal_strlit("math");
            reveal_strlit("eng");
        }
        let mut subjects = Store::new();
        subjects.upsert(cs);
        assert(subjects@ =~= seq![a]);
        subjects.upsert(math);
        assert("cs"@.len() == 2 && "math"@.len() == 4 && "eng"@.len() == 3);
        assert(b.id.0@.len() != a.id.0@.len());
        assert(subjects@ =~= seq![a, b]);
        subjects.upsert(eng);
        assert(c.id.0@.len() != a.id.0@.len() && c.id.0@.len() != b.id.0@.len());
        assert(subjects@ =~= seq![a, b, c]);
        InMemorySubjectRepository { subjects }
    }
}

impl SubjectRepository for InMemorySubjectRepository {
    closed spec fn subjects(&self) -> Seq<SubjectView> {
        self.subjects@
    }

    open spec fn save_error(&self, subject: SubjectView) -> Option<DomainErrorView> {
        Some(DomainErrorView::Validation("Subject lookup table is read-only"@))
    }

    open spec fn read_error(&self) -> Option<DomainErrorView> {
        None
    }

    /// The table is read-only: every save is refused.
    fn save(&mut self, _subject: Subject) -> (r: Result<(), DomainError>)
        ensures
            r matches Err(DomainError::Validation(m)) && m@ == "Subject lookup table is read-only"@,
    {
        Err(DomainError::Validation("Subject lookup table is read-only".to_owned()))
    }

    fn find_all(&self) -> (r: Result<Vec<Subject>, DomainError>)
        ensures
            unique_keys::<Subject>(self.subjects()),
    {
        Ok(self.subjects.all())
    }

    fn find_by_id(&self, id: SubjectId) -> (r: Result<Option<Subject>, DomainError>)
        ensures
            unique_keys::<Subject>(self.subjects()),
    {
        Ok(self.subjects.find(&id.0))
    }
}

} // verus!
