//! The use cases of each aggregate together with the repository they share.

use vstd::prelude::*;

use super::session::{CreateSessionUseCase, GetSessionsUseCase, SessionRepository};
use super::study_block::{
    CompleteStudyBlockUseCase, GetStudyBlocksUseCase, StartStudyBlockUseCase, StudyBlockRepository,
};
use super::subject::{CreateSubjectUseCase, GetSubjectsUseCase, SubjectRepository};
use super::task::{
    AssignTaskToSessionUseCase, CreateTaskUseCase, GetTasksBySessionUseCase,
    GetTasksByStudyBlockUseCase, GetTasksUseCase, TaskRepository,
};

verus! {

/// The session use cases and the repository they share.
pub struct SessionContainer<R> {
    pub repo: R,
    pub create_session: CreateSessionUseCase,
    pub get_sessions: GetSessionsUseCase,
}

/// The subject use cases and the repository they share.
pub struct SubjectContainer<R> {
    pub repo: R,
    pub create_subject: CreateSubjectUseCase,
    pub get_subjects: GetSubjectsUseCase,
}

/// The task use cases and the repository they share.
pub struct TaskContainer<R> {
    pub repo: R,
    pub create_task: CreateTaskUseCase,
    pub assign_task_to_session: AssignTaskToSessionUseCase,
    pub get_tasks: GetTasksUseCase,
    pub get_tasks_by_session: GetTasksBySessionUseCase,
    pub get_tasks_by_study_block: GetTasksByStudyBlockUseCase,
}

/// The study block use cases and the repository they share.
pub struct StudyBlockContainer<R> {
    pub repo: R,
    pub start_study_block: StartStudyBlockUseCase,
    pub complete_study_block: CompleteStudyBlockUseCase,
    pub get_study_blocks: GetStudyBlocksUseCase,
}

/// Every use case of the planner, each group with its repository.
pub struct AppContainer<S, T, J, B> {
    pub session: SessionContainer<S>,
    pub subject: SubjectContainer<J>,
    pub task: TaskContainer<T>,
    pub study_block: StudyBlockContainer<B>,
}

impl<
    S: SessionRepository,
    T: TaskRepository,
    J: SubjectRepository,
    B: StudyBlockRepository,
> AppContainer<S, T, J, B> {
    /// Wires the use cases to the given repositories: one repository per
    /// aggregate, shared by all of its use cases.
    pub fn new(session_repo: S, task_repo: T, subject_repo: J, study_block_repo: B) -> (r: Self)
        ensures
            r.session.repo == session_repo,
            r.task.repo == task_repo,
            r.subject.repo == subject_repo,
            r.study_block.repo == study_block_repo,
    {
        AppContainer {
            session: SessionContainer {
                repo: session_repo,
                create_session: CreateSessionUseCase::new(),
                get_sessions: GetSessionsUseCase::new(),
            },
            subject: SubjectContainer {
                repo: subject_repo,
                create_subject: CreateSubjectUseCase::new(),
                get_subjects: GetSubjectsUseCase::new(),
            },
            task: TaskContainer {
                repo: task_repo,
                create_task: CreateTaskUseCase::new(),
                assign_task_to_session: AssignTaskToSessionUseCase::new(),
                get_tasks: GetTasksUseCase::new(),
                get_tasks_by_session: GetTasksBySessionUseCase::new(),
                get_tasks_by_study_block: GetTasksByStudyBlockUseCase::new(),
            },
            study_block: StudyBlockContainer {
                repo: study_block_repo,
                start_study_block: StartStudyBlockUseCase::new(),
                complete_study_block: CompleteStudyBlockUseCase::new(),
                get_study_blocks: GetStudyBlocksUseCase::new(),
            },
        }
    }
}

} // verus!
