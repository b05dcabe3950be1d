//! Tasks: the repository port and the use cases.

use vstd::prelude::*;

use super::helpers::{generate_uuid, now_secs, v4_uuid_text};
use crate::domain::{replies, DomainError, DomainErrorView, Priority, SessionId, StudyBlockId, Task, TaskId, TaskStatus};
use crate::persistence::store::{has_key, lookup, upserted};

verus! {

/// `t` is linked to the session whose id reads `session_id`.
pub open spec fn in_session(t: Task, session_id: Seq<char>) -> bool {
    t.session_id matches Some(s) && s.0@ == session_id
}

/// `t` is linked to the study block whose id reads `block_id`.
pub open spec fn in_study_block(t: Task, block_id: Seq<char>) -> bool {
    t.study_block_id matches Some(b) && b.0@ == block_id
}

/// Where tasks are kept. Each implementation decides which calls fail and
/// with what error (`save_error`, `read_error`); what a call that succeeds
/// does is fixed here.
pub trait TaskRepository {
    /// The tasks held, in order.
    spec fn tasks(&self) -> Seq<Task>;

    /// The error that saving `task` reports now, or `None` when the save
    /// succeeds.
    spec fn save_error(&self, task: Task) -> Option<DomainErrorView>;

    /// The error that a read reports now, or `None` when reads succeed.
    spec fn read_error(&self) -> Option<DomainErrorView>;

    /// Saves `task`, replacing the one with the same id.
    fn save(&mut self, task: Task) -> (r: Result<(), DomainError>)
        ensures
            replies(r, old(self).save_error(task)),
            final(self).tasks() == if r is Ok {
                upserted::<Task>(old(self).tasks(), task)
            } else {
                old(self).tasks()
            },
    ;

    /// All tasks, in order.
    fn find_all(&self) -> (r: Result<Vec<Task>, DomainError>)
        ensures
            replies(r, self.read_error()),
            r matches Ok(v) ==> v@ == self.tasks(),
    ;

    /// The task with id `id`, if any.
    fn find_by_id(&self, id: TaskId) -> (r: Result<Option<Task>, DomainError>)
        ensures
            replies(r, self.read_error()),
            r matches Ok(Some(t)) ==> lookup::<Task>(self.tasks(), id.0@) == Some(t),
            r matches Ok(None) ==> lookup::<Task>(self.tasks(), id.0@) is None,
    ;

    /// The tasks linked to session `session_id`, in order.
    fn find_by_session_id(&self, session_id: SessionId) -> (r: Result<Vec<Task>, DomainError>)
        ensures
            replies(r, self.read_error()),
            r matches Ok(v) ==> v@ == self.tasks().filter(|t: Task| in_session(t, session_id.0@)),
    ;

    /// The tasks linked to study block `study_block_id`, in order.
    fn find_by_study_block_id(&self, study_block_id: StudyBlockId) -> (r: Result<
        Vec<Task>,
        DomainError,
    >)
        ensures
            replies(r, self.read_error()),
            r matches Ok(v) ==> v@ == self.tasks().filter(
                |t: Task| in_study_block(t, study_block_id.0@),
            ),
    ;
}

/// The task that [`CreateTaskUseCase`] makes: open, without description or
/// due date, created and updated at `now`.
pub open spec fn new_task(
    id: TaskId,
    title: String,
    priority: Priority,
    session_id: Option<SessionId>,
    study_block_id: Option<StudyBlockId>,
    now: u64,
) -> Task {
    Task {
        id,
        title,
        description: None,
        status: TaskStatus::Open,
        priority,
        session_id,
        study_block_id,
        due_date: None,
        created_at: now,
        updated_at: now,
    }
}

/// `t` linked to `session_id` (or to none) at time `now`; nothing else changes.
pub open spec fn reassigned(t: Task, session_id: Option<SessionId>, now: u64) -> Task {
    Task { session_id, updated_at: now, ..t }
}

/// `r` is what saving the new task `task` into `pre` replies, `post` the
/// repository after it: the task, or the save's own error with nothing changed.
pub open spec fn task_created<R: TaskRepository>(
    pre: R,
    post: R,
    task: Task,
    r: Result<Task, DomainError>,
) -> bool {
    &&& replies(r, pre.save_error(task))
    &&& r matches Ok(t) ==> t == task
    &&& post.tasks() == if r is Ok {
        upserted::<Task>(pre.tasks(), task)
    } else {
        pre.tasks()
    }
}

/// `r` is what linking task `task_id` of `pre` to `session_id` at time `now`
/// replies, `post` the repository after it: a failed read's error; `NotFound`
/// when no task has that id; otherwise the reply of saving the task relinked
/// at `now`. Nothing changes unless that save succeeds.
pub open spec fn task_assigned<R: TaskRepository>(
    pre: R,
    post: R,
    task_id: Seq<char>,
    session_id: Option<SessionId>,
    now: u64,
    r: Result<(), DomainError>,
) -> bool {
    match pre.read_error() {
        Some(e) => replies(r, Some(e)) && post.tasks() == pre.tasks(),
        None => match lookup::<Task>(pre.tasks(), task_id) {
            None => r matches Err(DomainError::NotFound) && post.tasks() == pre.tasks(),
            Some(t) => {
                &&& replies(r, pre.save_error(reassigned(t, session_id, now)))
                &&& post.tasks() == if r is Ok {
                    upserted::<Task>(pre.tasks(), reassigned(t, session_id, now))
                } else {
                    pre.tasks()
                }
            },
        },
    }
}

/// Adds a task. The repository is lent to each call.
pub struct CreateTaskUseCase {}

impl CreateTaskUseCase {
    pub fn new() -> Self {
        CreateTaskUseCase {  }
    }

    /// Creates an open task with a fresh id at the current time and saves it.
    pub fn execute<R: TaskRepository>(
        &self,
        repo: &mut R,
        title: String,
        priority: Priority,
        session_id: Option<SessionId>,
        study_block_id: Option<StudyBlockId>,
    ) -> (r: Result<Task, DomainError>)
        ensures
            exists|id: TaskId, now: u64|
                v4_uuid_text(id.0@) && #[trigger] task_created(
                    *old(repo),
                    *final(repo),
                    new_task(id, title, priority, session_id, study_block_id, now),
                    r,
                ),
    {
        let id = TaskId(generate_uuid());
        let now = now_secs();
        let ghost args = (id, title, priority, session_id, study_block_id);
        let r = self.execute_with(repo, id, now, title, priority, session_id, study_block_id);
        assert(task_created(
            *old(repo),
            *repo,
            new_task(args.0, args.1, args.2, args.3, args.4, now),
            r,
        ));
        r
    }

    /// Creates the task with id `id` at time `now` and saves it.
    pub fn execute_with<R: TaskRepository>(
        &self,
        repo: &mut R,
        id: TaskId,
        now: u64,
        title: String,
        priority: Priority,
        session_id: Option<SessionId>,
        study_block_id: Option<StudyBlockId>,
    ) -> (r: Result<Task, DomainError>)
        ensures
            task_created(
                *old(repo),
                *final(repo),
                new_task(id, title, priority, session_id, study_block_id, now),
                r,
            ),
    {
        let task = Task {
            id,
            title,
            description: None,
            status: TaskStatus::Open,
            priority,
            session_id,
            study_block_id,
            due_date: None,
            created_at: now,
            updated_at: now,
        };
        match repo.save(task.clone()) {
            Ok(()) => Ok(task),
            Err(e) => Err(e),
        }
    }
}

/// Links a task to a session, or unlinks it. The repository is lent to each call.
pub struct AssignTaskToSessionUseCase {}

impl AssignTaskToSessionUseCase {
    pub fn new() -> Self {
        AssignTaskToSessionUseCase {  }
    }

    /// Links task `task_id` to `session_id` (or to none) and stamps it
    /// updated now. `NotFound` when there is no such task.
    pub fn execute<R: TaskRepository>(
        &self,
        repo: &mut R,
        task_id: TaskId,
        session_id: Option<SessionId>,
    ) -> (r: Result<(), DomainError>)
        ensures
            exists|now: u64|
                #[trigger] task_assigned(*old(repo), *final(repo), task_id.0@, session_id, now, r),
    {
        let now = now_secs();
        let ghost args = (task_id.0@, session_id);
        let r = self.execute_with(repo, task_id, session_id, now);
        assert(task_assigned(*old(repo), *repo, args.0, args.1, now, r));
        r
    }

    /// Links task `task_id` to `session_id` at time `now`.
    pub fn execute_with<R: TaskRepository>(
        &self,
        repo: &mut R,
        task_id: TaskId,
        session_id: Option<SessionId>,
        now: u64,
    ) -> (r: Result<(), DomainError>)
        ensures
            task_assigned(*old(repo), *final(repo), task_id.0@, session_id, now, r),
    {
        let found = match repo.find_by_id(task_id) {
            Ok(found) => found,
            Err(e) => {
                return Err(e);
            },
        };
        let task = match found {
            Some(t) => t,
            None => {
                return Err(DomainError::NotFound);
            },
        };
        let updated = Task { session_id, updated_at: now, ..task };
        repo.save(updated)
    }
}

/// Lists all tasks.
pub struct GetTasksUseCase {}

impl GetTasksUseCase {
    pub fn new() -> Self {
        GetTasksUseCase {  }
    }

    /// All tasks of the repository, in order.
    pub fn execute<R: TaskRepository>(&self, repo: &R) -> (r: Result<Vec<Task>, DomainError>)
        ensures
            replies(r, repo.read_error()),
            r matches Ok(v) ==> v@ == repo.tasks(),
    {
        repo.find_all()
    }
}

/// Lists the tasks of a session.
pub struct GetTasksBySessionUseCase {}

impl GetTasksBySessionUseCase {
    pub fn new() -> Self {
        GetTasksBySessionUseCase {  }
    }

    /// The tasks linked to session `session_id`, in order.
    pub fn execute<R: TaskRepository>(&self, repo: &R, session_id: SessionId) -> (r: Result<
        Vec<Task>,
        DomainError,
    >)
        ensures
            replies(r, repo.read_error()),
            r matches Ok(v) ==> v@ == repo.tasks().filter(|t: Task| in_session(t, session_id.0@)),
    {
        repo.find_by_session_id(session_id)
    }
}

/// Lists the tasks of a study block.
pub struct GetTasksByStudyBlockUseCase {}

impl GetTasksByStudyBlockUseCase {
    pub fn new() -> Self {
        GetTasksByStudyBlockUseCase {  }
    }

    /// The tasks linked to study block `study_block_id`, in order.
    pub fn execute<R: TaskRepository>(&self, repo: &R, study_block_id: StudyBlockId) -> (r: Result<
        Vec<Task>,
        DomainError,
    >)
        ensures
            replies(r, repo.read_error()),
            r matches Ok(v) ==> v@ == repo.tasks().filter(
                |t: Task| in_study_block(t, study_block_id.0@),
            ),
    {
        repo.find_by_study_block_id(study_block_id)
    }
}

/// A saved task linked to a session is among the tasks that
/// `find_by_session_id` lists for that session.
pub proof fn lemma_saved_task_listed_by_session(tasks: Seq<Task>, t: Task, session_id: Seq<char>)
    requires
        in_session(t, session_id),
    ensures
        upserted::<Task>(tasks, t).filter(|x: Task| in_session(x, session_id)).contains(t),
{
    let s = upserted::<Task>(tasks, t);
    let k = if crate::persistence::store::has_key::<Task>(tasks, t.id.0@) {
        crate::persistence::store::key_index::<Task>(tasks, t.id.0@)
    } else {
        tasks.len() as int
    };
    assert(s[k] == t);
    s.lemma_filter_contains(|x: Task| in_session(x, session_id), k);
}

/// A saved task linked to a study block is among the tasks that
/// `find_by_study_block_id` lists for that block.
pub proof fn lemma_saved_task_listed_by_study_block(tasks: Seq<Task>, t: Task, block_id: Seq<char>)
    requires
        in_study_block(t, block_id),
    ensures
        upserted::<Task>(tasks, t).filter(|x: Task| in_study_block(x, block_id)).contains(t),
{
    let s = upserted::<Task>(tasks, t);
    let k = if crate::persistence::store::has_key::<Task>(tasks, t.id.0@) {
        crate::persistence::store::key_index::<Task>(tasks, t.id.0@)
    } else {
        tasks.len() as int
    };
    assert(s[k] == t);
    s.lemma_filter_contains(|x: Task| in_study_block(x, block_id), k);
}

/// Every task `find_by_session_id` lists is linked to that session.
pub proof fn lemma_listed_tasks_belong_to_session(tasks: Seq<Task>, session_id: Seq<char>, i: int)
    requires
        0 <= i < tasks.filter(|x: Task| in_session(x, session_id)).len(),
    ensures
        in_session(tasks.filter(|x: Task| in_session(x, session_id))[i], session_id),
{
    tasks.lemma_filter_pred(|x: Task| in_session(x, session_id), i);
}

/// A task created under an id that no stored task has is added after the
/// stored ones, which all stay as they were: the repository grows by one,
/// and a task linked to a session is then listed for it.
pub proof fn lemma_created_task_is_added<R: TaskRepository>(
    pre: R,
    post: R,
    task: Task,
    r: Result<Task, DomainError>,
)
    requires
        task_created(pre, post, task, r),
        r is Ok,
        !has_key::<Task>(pre.tasks(), task.id.0@),
    ensures
        post.tasks() == pre.tasks().push(task),
        post.tasks().len() == pre.tasks().len() + 1,
        forall|i: int| 0 <= i < pre.tasks().len() ==> post.tasks()[i] == pre.tasks()[i],
        forall|s: Seq<char>|
            in_session(task, s) ==> post.tasks().filter(|x: Task| in_session(x, s)).contains(task),
{
    assert forall|s: Seq<char>|
        in_session(task, s) implies post.tasks().filter(|x: Task| in_session(x, s)).contains(task) by {
        lemma_saved_task_listed_by_session(pre.tasks(), task, s);
    }
}

/// The id of a created task is a v4 UUID, so it never equals a text of
/// another shape, such as its title.
pub proof fn lemma_created_task_id_is_fresh_shaped(id: TaskId, other: Seq<char>)
    requires
        v4_uuid_text(id.0@),
        !v4_uuid_text(other),
    ensures
        id.0@ != other,
{
}

} // verus!
