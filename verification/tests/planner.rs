use horae::application::container::AppContainer;
use horae::application::helpers::{generate_uuid, now_secs};
use horae::application::session::{CreateSessionUseCase, GetSessionsUseCase, SessionRepository};
use horae::application::study_block::{
    CompleteStudyBlockUseCase, GetStudyBlocksUseCase, StartStudyBlockUseCase, StudyBlockRepository,
};
use horae::application::subject::{CreateSubjectUseCase, GetSubjectsUseCase, SubjectRepository};
use horae::application::task::{
    AssignTaskToSessionUseCase, CreateTaskUseCase, GetTasksBySessionUseCase,
    GetTasksByStudyBlockUseCase, GetTasksUseCase, TaskRepository,
};
use horae::domain::{
    DomainError, Priority, SessionId, StudyBlockId, StudyBlockStatus, SubjectId, TaskId, TaskStatus,
};
use horae::persistence::session::InMemorySessionRepository;
use horae::persistence::study_block::InMemoryStudyBlockRepository;
use horae::persistence::subject::InMemorySubjectRepository;
use horae::persistence::task::InMemoryTaskRepository;

fn container() -> AppContainer<
    InMemorySessionRepository,
    InMemoryTaskRepository,
    InMemorySubjectRepository,
    InMemoryStudyBlockRepository,
> {
    AppContainer::new(
        InMemorySessionRepository::new(),
        InMemoryTaskRepository::new(),
        InMemorySubjectRepository::new(),
        InMemoryStudyBlockRepository::new(),
    )
}

#[test]
fn new_session_repository_is_empty() {
    let repo = InMemorySessionRepository::new();
    assert_eq!(repo.find_all().unwrap().len(), 0);
}

#[test]
fn created_session_is_listed_and_found() {
    let mut app = container();
    let session = app
        .session
        .create_session
        .execute(
            &mut app.session.repo,
            "Algorithms".to_string(),
            SubjectId("cs".to_string()),
            1_700_000_000,
            45,
            Some("FREQ=WEEKLY;BYDAY=SU".to_string()),
        )
        .unwrap();
    assert_eq!(session.name, "Algorithms");
    assert_eq!(session.subject_id, SubjectId("cs".to_string()));
    assert_eq!(session.dtstart, 1_700_000_000);
    assert_eq!(session.duration_minutes, 45);
    assert!(session.exdates.is_empty());
    assert!(session.is_recurring());
    let all = app.session.get_sessions.execute(&app.session.repo).unwrap();
    assert_eq!(all.len(), 1);
    assert_eq!(all[0].id, session.id);
    let found = app.session.repo.find_by_id(session.id.clone()).unwrap().unwrap();
    assert_eq!(found.name, "Algorithms");
}

#[test]
fn one_off_session_is_not_recurring() {
    let mut repo = InMemorySessionRepository::new();
    let session = CreateSessionUseCase::new()
        .execute_with(
            &mut repo,
            SessionId("s1".to_string()),
            42,
            "Once".to_string(),
            SubjectId("math".to_string()),
            100,
            30,
            None,
        )
        .unwrap();
    assert!(!session.is_recurring());
    assert_eq!(session.id, SessionId("s1".to_string()));
    assert_eq!(session.created_at, 42);
    assert_eq!(GetSessionsUseCase::new().execute(&repo).unwrap().len(), 1);
}

#[test]
fn saving_an_existing_id_replaces_it_in_place() {
    let mut repo = InMemoryTaskRepository::new();
    let uc = CreateTaskUseCase::new();
    uc.execute_with(&mut repo, TaskId("a".into()), 1, "first".into(), Priority::Low, None, None)
        .unwrap();
    uc.execute_with(&mut repo, TaskId("b".into()), 2, "second".into(), Priority::High, None, None)
        .unwrap();
    uc.execute_with(&mut repo, TaskId("a".into()), 3, "again".into(), Priority::Urgent, None, None)
        .unwrap();
    let all = repo.find_all().unwrap();
    assert_eq!(all.len(), 2);
    assert_eq!(all[0].id, TaskId("a".into()));
    assert_eq!(all[0].title, "again");
    assert_eq!(all[0].priority, Priority::Urgent);
    assert_eq!(all[1].title, "second");
}

#[test]
fn created_task_is_open_without_description() {
    let mut repo = InMemoryTaskRepository::new();
    let task = CreateTaskUseCase::new()
        .execute_with(
            &mut repo,
            TaskId("t".into()),
            77,
            "Read chapter".into(),
            Priority::Medium,
            Some(SessionId("s".into())),
            Some(StudyBlockId("b".into())),
        )
        .unwrap();
    assert_eq!(task.status, TaskStatus::Open);
    assert_eq!(task.description, None);
    assert_eq!(task.due_date, None);
    assert_eq!(task.created_at, 77);
    assert_eq!(task.updated_at, 77);
    assert_eq!(task.session_id, Some(SessionId("s".into())));
}

#[test]
fn tasks_are_listed_by_session_and_block() {
    let mut app = container();
    let repo = &mut app.task.repo;
    let uc = CreateTaskUseCase::new();
    uc.execute(repo, "one".into(), Priority::Low, Some(SessionId("s1".into())), None).unwrap();
    uc.execute(repo, "two".into(), Priority::Low, Some(SessionId("s2".into())), Some(StudyBlockId("b1".into())))
        .unwrap();
    uc.execute(repo, "three".into(), Priority::Low, Some(SessionId("s1".into())), Some(StudyBlockId("b1".into())))
        .unwrap();
    let s1 = app.task.get_tasks_by_session.execute(&app.task.repo, SessionId("s1".into())).unwrap();
    assert_eq!(s1.iter().map(|t| t.title.as_str()).collect::<Vec<_>>(), vec!["one", "three"]);
    let b1 = app
        .task
        .get_tasks_by_study_block
        .execute(&app.task.repo, StudyBlockId("b1".into()))
        .unwrap();
    assert_eq!(b1.iter().map(|t| t.title.as_str()).collect::<Vec<_>>(), vec!["two", "three"]);
    let none = GetTasksBySessionUseCase::new().execute(&app.task.repo, SessionId("zz".into())).unwrap();
    assert!(none.is_empty());
    let none = GetTasksByStudyBlockUseCase::new().execute(&app.task.repo, StudyBlockId("zz".into())).unwrap();
    assert!(none.is_empty());
    assert_eq!(GetTasksUseCase::new().execute(&app.task.repo).unwrap().len(), 3);
}

#[test]
fn assigning_a_task_moves_it_to_the_session() {
    let mut repo = InMemoryTaskRepository::new();
    CreateTaskUseCase::new()
        .execute_with(&mut repo, TaskId("t".into()), 10, "x".into(), Priority::High, None, None)
        .unwrap();
    AssignTaskToSessionUseCase::new()
        .execute_with(&mut repo, TaskId("t".into()), Some(SessionId("s".into())), 20)
        .unwrap();
    let t = repo.find_by_id(TaskId("t".into())).unwrap().unwrap();
    assert_eq!(t.session_id, Some(SessionId("s".into())));
    assert_eq!(t.updated_at, 20);
    assert_eq!(t.created_at, 10);
    assert_eq!(t.title, "x");
    let listed = repo.find_by_session_id(SessionId("s".into())).unwrap();
    assert_eq!(listed.len(), 1);
    AssignTaskToSessionUseCase::new().execute(&mut repo, TaskId("t".into()), None).unwrap();
    assert_eq!(repo.find_by_id(TaskId("t".into())).unwrap().unwrap().session_id, None);
}

#[test]
fn assigning_an_unknown_task_is_not_found() {
    let mut repo = InMemoryTaskRepository::new();
    let r = AssignTaskToSessionUseCase::new().execute(&mut repo, TaskId("nope".into()), None);
    assert!(matches!(r, Err(DomainError::NotFound)));
    assert!(repo.find_all().unwrap().is_empty());
}

#[test]
fn study_block_starts_active_and_completes() {
    let mut repo = InMemoryStudyBlockRepository::new();
    let block = StartStudyBlockUseCase::new()
        .execute_with(&mut repo, StudyBlockId("b".into()), 500, Some(SessionId("s".into())))
        .unwrap();
    assert_eq!(block.status, StudyBlockStatus::Active);
    assert_eq!(block.start_time, 500);
    assert_eq!(block.created_at, 500);
    assert_eq!(block.end_time, None);
    CompleteStudyBlockUseCase::new().execute_with(&mut repo, StudyBlockId("b".into()), 900).unwrap();
    let done = repo.find_by_id(StudyBlockId("b".into())).unwrap().unwrap();
    assert_eq!(done.status, StudyBlockStatus::Completed);
    assert_eq!(done.end_time, Some(900));
    assert_eq!(done.start_time, 500);
    assert_eq!(GetStudyBlocksUseCase::new().execute(&repo).unwrap().len(), 1);
}

#[test]
fn completing_an_unknown_block_is_not_found() {
    let mut app = container();
    let r = app
        .study_block
        .complete_study_block
        .execute(&mut app.study_block.repo, StudyBlockId("missing".into()));
    assert!(matches!(r, Err(DomainError::NotFound)));
}

#[test]
fn started_block_gets_a_fresh_id() {
    let mut app = container();
    let a = app.study_block.start_study_block.execute(&mut app.study_block.repo, None).unwrap();
    let b = app.study_block.start_study_block.execute(&mut app.study_block.repo, None).unwrap();
    assert_ne!(a.id, b.id);
    assert_eq!(app.study_block.get_study_blocks.execute(&app.study_block.repo).unwrap().len(), 2);
}

#[test]
fn subjects_start_seeded() {
    let repo = InMemorySubjectRepository::new();
    let all = GetSubjectsUseCase::new().execute(&repo).unwrap();
    let names: Vec<&str> = all.iter().map(|s| s.name.as_str()).collect();
    assert_eq!(names, vec!["Computer Science", "Mathematics", "English"]);
    assert_eq!(all[1].color_hex, "#ef4444");
    assert_eq!(all[2].topics[1].name, "Literature");
    let math = repo.find_by_id(SubjectId("math".into())).unwrap().unwrap();
    assert_eq!(math.topics.len(), 2);
    assert_eq!(math.topics[0].name, "Calculus");
    assert!(repo.find_by_id(SubjectId("bio".into())).unwrap().is_none());
}

#[test]
fn subject_table_is_read_only() {
    let mut app = container();
    let r = app
        .subject
        .create_subject
        .execute(&mut app.subject.repo, "Biology".into(), "#00ff00".into());
    match r {
        Err(DomainError::Validation(m)) => assert_eq!(m, "Subject lookup table is read-only"),
        other => panic!("unexpected: {other:?}"),
    }
    assert_eq!(app.subject.get_subjects.execute(&app.subject.repo).unwrap().len(), 3);
    let r = CreateSubjectUseCase::new().execute_with(
        &mut app.subject.repo,
        SubjectId("x".into()),
        0,
        "X".into(),
        "#000000".into(),
    );
    assert!(matches!(r, Err(DomainError::Validation(_))));
}

#[test]
fn uuids_are_fresh() {
    let a = generate_uuid();
    let b = generate_uuid();
    assert_ne!(a, b);
    assert_eq!(a.len(), 36);
}

#[test]
fn clock_reads_after_2020() {
    assert!(now_secs() > 1_577_836_800);
}

