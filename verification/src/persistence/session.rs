//! Sessions kept in memory.

use vstd::prelude::*;

use super::store::{unique_keys, Store};
use crate::application::session::SessionRepository;
use crate::domain::{DomainError, DomainErrorView, Session, SessionId, SessionView};

verus! {

/// Sessions kept in memory, in the order they were first saved.
pub struct InMemorySessionRepository {
    sessions: Store<Session>,
}

impl InMemorySessionRepository {
    /// A repository without sessions.
    pub fn new() -> (r: Self)
        ensures
            r.sessions() == Seq::<SessionView>::empty(),
    {
        InMemorySessionRepository { sessions: Store::new() }
    }
}

impl SessionRepository for InMemorySessionRepository {
    closed spec fn sessions(&self) -> Seq<SessionView> {
        self.sessions@
    }

    open spec fn save_error(&self, session: SessionView) -> Option<DomainErrorView> {
        None
    }

    open spec fn read_error(&self) -> Option<DomainErrorView> {
        None
    }

    fn save(&mut self, session: Session) -> (r: Result<(), DomainError>)
        ensures
            unique_keys::<Session>(old(self).sessions()),
            unique_keys::<Session>(final(self).sessions()),
    {
        self.sessions.upsert(session);
        Ok(())
    }

    fn find_all(&self) -> (r: Result<Vec<Session>, DomainError>)
        ensures
            unique_keys::<Session>(self.sessions()),
    {
        Ok(self.sessions.all())
    }

    fn find_by_id(&self, id: SessionId) -> (r: Result<Option<Session>, DomainError>)
        ensures
            unique_keys::<Session>(self.sessions()),
    {
        Ok(self.sessions.find(&id.0))
    }
}

} // verus!
