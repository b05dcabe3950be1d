//! Planned study sessions: the repository port and the use cases.

use vstd::prelude::*;

use super::helpers::{generate_uuid, now_secs, v4_uuid_text};
use crate::domain::{replies, DomainError, DomainErrorView, Session, SessionId, SessionView, SubjectId};
use crate::persistence::store::{has_key, lookup, upserted};

verus! {

/// Where sessions are kept. Each implementation decides which calls fail
/// and with what error (`save_error`, `read_error`); what a call that
/// succeeds does is fixed here.
pub trait SessionRepository {
    /// The sessions held, in order.
    spec fn sessions(&self) -> Seq<SessionView>;

    /// The error that saving `session` reports now, or `None` when the save
    /// succeeds.
    spec fn save_error(&self, session: SessionView) -> Option<DomainErrorView>;

    /// The error that a read reports now, or `None` when reads succeed.
    spec fn read_error(&self) -> Option<DomainErrorView>;

    /// Saves `session`, replacing the one with the same id.
    fn save(&mut self, session: Session) -> (r: Result<(), DomainError>)
        ensures
            replies(r, old(self).save_error(session@)),
            final(self).sessions() == if r is Ok {
                upserted::<Session>(old(self).sessions(), session@)
            } else {
                old(self).sessions()
            },
    ;

    /// All sessions, in order.
    fn find_all(&self) -> (r: Result<Vec<Session>, DomainError>)
        ensures
            replies(r, self.read_error()),
            r matches Ok(v) ==> v@.map_values(|s: Session| s@) == self.sessions(),
    ;

    /// The session with id `id`, if any.
    fn find_by_id(&self, id: SessionId) -> (r: Result<Option<Session>, DomainError>)
        ensures
            replies(r, self.read_error()),
            r matches Ok(Some(s)) ==> lookup::<Session>(self.sessions(), id.0@) == Some(s@),
            r matches Ok(None) ==> lookup::<Session>(self.sessions(), id.0@) is None,
    ;
}

/// `r` is what saving `session` into `pre` replies, `post` the repository
/// after it: the saved session, or the save's own error with nothing changed.
pub open spec fn session_saved<R: SessionRepository>(
    pre: R,
    post: R,
    session: SessionView,
    r: Result<Session, DomainError>,
) -> bool {
    &&& replies(r, pre.save_error(session))
    &&& r matches Ok(s) ==> s@ == session
    &&& post.sessions() == if r is Ok {
        upserted::<Session>(pre.sessions(), session)
    } else {
        pre.sessions()
    }
}

/// The session that [`CreateSessionUseCase`] makes from its inputs.
pub open spec fn new_session(
    id: SessionId,
    name: String,
    subject_id: SubjectId,
    dtstart: u64,
    duration_minutes: u32,
    rrule: Option<String>,
    created_at: u64,
) -> SessionView {
    SessionView {
        id,
        subject_id,
        name,
        dtstart,
        duration_minutes,
        rrule,
        exdates: Seq::empty(),
        created_at,
    }
}

/// Plans a new session. The repository is lent to each call.
pub struct CreateSessionUseCase {}

impl CreateSessionUseCase {
    pub fn new() -> Self {
        CreateSessionUseCase {  }
    }

    /// Creates a session with a fresh id, created now, with no excluded
    /// dates, and saves it. Returns the session, or the repository's error.
    pub fn execute<R: SessionRepository>(
        &self,
        repo: &mut R,
        name: String,
        subject_id: SubjectId,
        dtstart: u64,
        duration_minutes: u32,
        rrule: Option<String>,
    ) -> (r: Result<Session, DomainError>)
        ensures
            exists|id: SessionId, created_at: u64|
                v4_uuid_text(id.0@) && #[trigger] session_saved(
                    *old(repo),
                    *final(repo),
                    new_session(id, name, subject_id, dtstart, duration_minutes, rrule, created_at),
                    r,
                ),
    {
        let id = SessionId(generate_uuid());
        let created_at = now_secs();
        let ghost gid = id;
        let ghost args = (name, subject_id, dtstart, duration_minutes, rrule);
        let r = self.execute_with(repo, id, created_at, name, subject_id, dtstart, duration_minutes, rrule);
        assert(session_saved(
            *old(repo),
            *repo,
            new_session(gid, args.0, args.1, args.2, args.3, args.4, created_at),
            r,
        ));
        r
    }

    /// Creates the session with id `id`, created at `created_at`, and saves it.
    pub fn execute_with<R: SessionRepository>(
        &self,
        repo: &mut R,
        id: SessionId,
        created_at: u64,
        name: String,
        subject_id: SubjectId,
        dtstart: u64,
        duration_minutes: u32,
        rrule: Option<String>,
    ) -> (r: Result<Session, DomainError>)
        ensures
            session_saved(
                *old(repo),
                *final(repo),
                new_session(id, name, subject_id, dtstart, duration_minutes, rrule, created_at),
                r,
            ),
    {
        let session = Session {
            id,
            name,
            subject_id,
            dtstart,
            duration_minutes,
            rrule,
            exdates: Vec::new(),
            created_at,
        };
        assert(session.exdates@ =~= Seq::<u64>::empty());
        match repo.save(session.clone()) {
            Ok(()) => Ok(session),
            Err(e) => Err(e),
        }
    }
}

/// Lists the planned sessions.
pub struct GetSessionsUseCase {}

impl GetSessionsUseCase {
    pub fn new() -> Self {
        GetSessionsUseCase {  }
    }

    /// All sessions of the repository, in order.
    pub fn execute<R: SessionRepository>(&self, repo: &R) -> (r: Result<Vec<Session>, DomainError>)
        ensures
            replies(r, repo.read_error()),
            r matches Ok(v) ==> v@.map_values(|s: Session| s@) == repo.sessions(),
    {
        repo.find_all()
    }
}

/// A session created under an id that no stored session has is added after
/// the stored ones, which all stay as they were: the repository grows by one.
pub proof fn lemma_created_session_is_added<R: SessionRepository>(
    pre: R,
    post: R,
    session: SessionView,
    r: Result<Session, DomainError>,
)
    requires
        session_saved(pre, post, session, r),
        r is Ok,
        !has_key::<Session>(pre.sessions(), session.id.0@),
    ensures
        post.sessions() == pre.sessions().push(session),
        post.sessions().len() == pre.sessions().len() + 1,
        forall|i: int| 0 <= i < pre.sessions().len() ==> post.sessions()[i] == pre.sessions()[i],
{
}

/// The id of a created session is a v4 UUID, so it never equals a text of
/// another shape, such as a subject id, a name or a seeded id like `cs`.
pub proof fn lemma_created_session_id_is_fresh_shaped(id: SessionId, other: Seq<char>)
    requires
        v4_uuid_text(id.0@),
        !v4_uuid_text(other),
    ensures
        id.0@ != other,
{
}

} // verus!
