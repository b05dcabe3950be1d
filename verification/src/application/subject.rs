//! Subjects: the repository port and the use cases.

use vstd::prelude::*;

use super::helpers::{generate_uuid, now_secs, v4_uuid_text};
use crate::domain::{replies, DomainError, DomainErrorView, Subject, SubjectId, SubjectView, Topic};
use crate::persistence::store::{lookup, upserted};

verus! {

/// Where subjects are kept. Each implementation decides which calls fail
/// and with what error (`save_error`, `read_error`); what a call that
/// succeeds does is fixed here.
pub trait SubjectRepository {
    /// The subjects held, in order.
    spec fn subjects(&self) -> Seq<SubjectView>;

    /// The error that saving `subject` reports now, or `None` when the save
    /// succeeds.
    spec fn save_error(&self, subject: SubjectView) -> Option<DomainErrorView>;

    /// The error that a read reports now, or `None` when reads succeed.
    spec fn read_error(&self) -> Option<DomainErrorView>;

    /// Saves `subject`, replacing the one with the same id.
    fn save(&mut self, subject: Subject) -> (r: Result<(), DomainError>)
        ensures
            replies(r, old(self).save_error(subject@)),
            final(self).subjects() == if r is Ok {
                upserted::<Subject>(old(self).subjects(), subject@)
            } else {
                old(self).subjects()
            },
    ;

    /// All subjects, in order.
    fn find_all(&self) -> (r: Result<Vec<Subject>, DomainError>)
        ensures
            replies(r, self.read_error()),
            r matches Ok(v) ==> v@.map_values(|s: Subject| s@) == self.subjects(),
    ;

    /// The subject with id `id`, if any.
    fn find_by_id(&self, id: SubjectId) -> (r: Result<Option<Subject>, DomainError>)
        ensures
            replies(r, self.read_error()),
            r matches Ok(Some(s)) ==> lookup::<Subject>(self.subjects(), id.0@) == Some(s@),
            r matches Ok(None) ==> lookup::<Subject>(self.subjects(), id.0@) is None,
    ;
}

/// `r` is what saving `subject` into `pre` replies, `post` the repository
/// after it: the saved subject, or the save's own error with nothing changed.
pub open spec fn subject_saved<R: SubjectRepository>(
    pre: R,
    post: R,
    subject: SubjectView,
    r: Result<Subject, DomainError>,
) -> bool {
    &&& replies(r, pre.save_error(subject))
    &&& r matches Ok(s) ==> s@ == subject
    &&& post.subjects() == if r is Ok {
        upserted::<Subject>(pre.subjects(), subject)
    } else {
        pre.subjects()
    }
}

/// The subject that [`CreateSubjectUseCase`] makes from its inputs.
pub open spec fn new_subject(id: SubjectId, name: String, color_hex: String, now: u64) -> SubjectView {
    SubjectView {
        id,
        name,
        color_hex,
        topics: Seq::<Topic>::empty(),
        created_at: now,
        updated_at: now,
    }
}

/// Adds a subject. The repository is lent to each call.
pub struct CreateSubjectUseCase {}

impl CreateSubjectUseCase {
    pub fn new() -> Self {
        CreateSubjectUseCase {  }
    }

    /// Creates a subject with a fresh id, no topics, created and updated
    /// now, and saves it. Returns the subject, or the repository's error.
    pub fn execute<R: SubjectRepository>(
        &self,
        repo: &mut R,
        name: String,
        color_hex: String,
    ) -> (r: Result<Subject, DomainError>)
        ensures
            exists|id: SubjectId, now: u64|
                v4_uuid_text(id.0@) && #[trigger] subject_saved(*old(repo), *final(repo), new_subject(id, name, color_hex, now), r),
    {
        let id = SubjectId(generate_uuid());
        let now = now_secs();
        let ghost args = (id, name, color_hex);
        let r = self.execute_with(repo, id, now, name, color_hex);
        assert(subject_saved(*old(repo), *repo, new_subject(args.0, args.1, args.2, now), r));
        r
    }

    /// Creates the subject with id `id` at time `now` and saves it.
    pub fn execute_with<R: SubjectRepository>(
        &self,
        repo: &mut R,
        id: SubjectId,
        now: u64,
        name: String,
        color_hex: String,
    ) -> (r: Result<Subject, DomainError>)
        ensures
            subject_saved(*old(repo), *final(repo), new_subject(id, name, color_hex, now), r),
    {
        let subject = Subject {
            id,
            name,
            color_hex,
            topics: Vec::new(),
            created_at: now,
            updated_at: now,
        };
        assert(subject.topics@ =~= Seq::<Topic>::empty());
        match repo.save(subject.clone()) {
            Ok(()) => Ok(subject),
            Err(e) => Err(e),
        }
    }
}

/// Lists the subjects.
pub struct GetSubjectsUseCase {}

impl GetSubjectsUseCase {
    pub fn new() -> Self {
        GetSubjectsUseCase {  }
    }

    /// All subjects of the repository, in order.
    pub fn execute<R: SubjectRepository>(&self, repo: &R) -> (r: Result<Vec<Subject>, DomainError>)
        ensures
            replies(r, repo.read_error()),
            r matches Ok(v) ==> v@.map_values(|s: Subject| s@) == repo.subjects(),
    {
        repo.find_all()
    }
}

} // verus!
