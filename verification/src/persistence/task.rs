//! Tasks kept in memory.

use vstd::prelude::*;

use super::store::{unique_keys, Store};
use crate::application::task::{in_session, in_study_block, TaskRepository};
use crate::domain::{DomainError, DomainErrorView, SessionId, StudyBlockId, Task, TaskId};

verus! {

/// Tasks kept in memory, in the order they were first saved.
pub struct InMemoryTaskRepository {
    tasks: Store<Task>,
}

impl InMemoryTaskRepository {
    /// A repository without tasks.
    pub fn new() -> (r: Self)
        ensures
            r.tasks() == Seq::<Task>::empty(),
    {
        InMemoryTaskRepository { tasks: Store::new() }
    }
}

/// `t` is linked to a session whose id equals `session_id`.
fn links_session(t: &Task, session_id: &SessionId) -> (r: bool)
    ensures
        r == in_session(*t, session_id.0@),
{
    match &t.session_id {
        Some(s) => s.0 == session_id.0,
        None => false,
    }
}

/// `t` is linked to a study block whose id equals `block_id`.
fn links_study_block(t: &Task, block_id: &StudyBlockId) -> (r: bool)
    ensures
        r == in_study_block(*t, block_id.0@),
{
    match &t.study_block_id {
        Some(b) => b.0 == block_id.0,
        None => false,
    }
}

impl TaskRepository for InMemoryTaskRepository {
    closed spec fn tasks(&self) -> Seq<Task> {
        self.tasks@
    }

    open spec fn save_error(&self, task: Task) -> Option<DomainErrorView> {
        None
    }

    open spec fn read_error(&self) -> Option<DomainErrorView> {
        None
    }

    fn save(&mut self, task: Task) -> (r: Result<(), DomainError>)
        ensures
            unique_keys::<Task>(old(self).tasks()),
            unique_keys::<Task>(final(self).tasks()),
    {
        self.tasks.upsert(task);
        Ok(())
    }

    fn find_all(&self) -> (r: Result<Vec<Task>, DomainError>)
        ensures
            unique_keys::<Task>(self.tasks()),
    {
        let v = self.tasks.all();
        assert(v@.map_values(|t: Task| t@) =~= v@);
        Ok(v)
    }

    fn find_by_id(&self, id: TaskId) -> (r: Result<Option<Task>, DomainError>)
        ensures
            unique_keys::<Task>(self.tasks()),
    {
        Ok(self.tasks.find(&id.0))
    }

    fn find_by_session_id(&self, session_id: SessionId) -> (r: Result<Vec<Task>, DomainError>) {
        let items = self.tasks.items();
        let ghost all = self.tasks@;
        let ghost pred = |t: Task| in_session(t, session_id.0@);
        assert(items@.map_values(|t: Task| t@) =~= items@);
        let mut out: Vec<Task> = Vec::new();
        let mut i: usize = 0;
        while i < items.len()
            invariant
                i <= items.len(),
                items@ == all,
                pred == (|t: Task| in_session(t, session_id.0@)),
                out@ == all.take(i as int).filter(pred),
            decreases items.len() - i,
        {
            proof {
                reveal(Seq::filter);
                assert(all.take(i + 1).drop_last() =~= all.take(i as int));
                assert(all.take(i + 1).last() == all[i as int]);
            }
            if links_session(&items[i], &session_id) {
                out.push(items[i].clone());
            }
            i = i + 1;
        }
        assert(all.take(items.len() as int) =~= all);
        Ok(out)
    }

    fn find_by_study_block_id(&self, study_block_id: StudyBlockId) -> (r: Result<
        Vec<Task>,
        DomainError,
    >) {
        let items = self.tasks.items();
        let ghost all = self.tasks@;
        let ghost pred = |t: Task| in_study_block(t, study_block_id.0@);
        assert(items@.map_values(|t: Task| t@) =~= items@);
        let mut out: Vec<Task> = Vec::new();
        let mut i: usize = 0;
        while i < items.len()
            invariant
                i <= items.len(),
                items@ == all,
                pred == (|t: Task| in_study_block(t, study_block_id.0@)),
                out@ == all.take(i as int).filter(pred),
            decreases items.len() - i,
        {
            proof {
                reveal(Seq::filter);
                assert(all.take(i + 1).drop_last() =~= all.take(i as int));
                assert(all.take(i + 1).last() == all[i as int]);
            }
            if links_study_block(&items[i], &study_block_id) {
                out.push(items[i].clone());
            }
            i = i + 1;
        }
        assert(all.take(items.len() as int) =~= all);
        Ok(out)
    }
}

} // verus!
