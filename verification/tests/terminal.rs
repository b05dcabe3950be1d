use horae::tui::components::analytics::{AnalyticsComponent, Mode as AnalyticsMode};
use horae::tui::components::input::{apply_input, TextInput};
use horae::tui::components::questions::{QAMode, QuestionsComponent};
use horae::tui::components::subjects::{Mode as SubjectsMode, SubjectsComponent};
use horae::tui::components::tasks::{priority_at, CreatingStep, Mode as TasksMode, TasksComponent};
use horae::tui::components::timer::TimerComponent;
use horae::tui::components::{Action, Key};
use horae::tui::db::{now_secs, priority_str};
use horae::tui::model::{
    DailyStudyTime, Priority, Question, QuestionId, QuestionStatus, StudyBlock, StudyBlockId,
    StudyBlockWithSubject, SubjectId, SubjectStats, Task, TaskId, TaskStatus,
};
use horae::tui::util::{fmt_datetime, fmt_datetime_from, fmt_duration, random_color, ChartColor};

fn task(id: &str, title: &str, status: TaskStatus, priority: Priority) -> Task {
    Task {
        id: TaskId(id.to_string()),
        title: title.to_string(),
        description: None,
        status,
        priority,
        created_at: 0,
        updated_at: None,
    }
}

fn subject(id: &str, name: &str, is_default: bool) -> SubjectStats {
    SubjectStats {
        id: SubjectId(id.to_string()),
        name: name.to_string(),
        color_hex: "#123456".to_string(),
        is_default,
        total_seconds: 3600,
        last_session: None,
    }
}

fn question(id: &str, text: &str, status: QuestionStatus) -> Question {
    Question {
        id: QuestionId(id.to_string()),
        subject_id: SubjectId("s".to_string()),
        text: text.to_string(),
        answer: None,
        status,
        created_in_block_id: None,
        resolved_in_block_id: None,
        created_at: 0,
        resolved_at: None,
        updated_at: None,
    }
}

fn type_text<F: FnMut(Key) -> Option<Action>>(mut f: F, text: &str) {
    for c in text.chars() {
        assert!(f(Key::Char(c)).is_none());
    }
}

#[test]
fn durations_are_zero_padded() {
    assert_eq!(fmt_duration(0), "00:00:00");
    assert_eq!(fmt_duration(3661), "01:01:01");
    assert_eq!(fmt_duration(59), "00:00:59");
    assert_eq!(fmt_duration(360_000), "100:00:00");
    assert_eq!(fmt_duration(-5), "00:00:-5");
    assert_eq!(fmt_duration(-3725), "-1:-2:-5");
    assert_eq!(TimerComponent::fmt(7322), "02:02:02");
}

#[test]
fn datetime_falls_back_to_the_number() {
    assert_eq!(fmt_datetime_from(-42, None), "-42");
    assert_eq!(fmt_datetime_from(1234, None), "1234");
    assert_eq!(fmt_datetime_from(1234, Some("x".to_string())), "x");
    let text = fmt_datetime(0);
    assert_eq!(text.len(), 16);
}

#[test]
fn day_colors_follow_the_djb2_hash() {
    let palette = [
        ChartColor::Red,
        ChartColor::Green,
        ChartColor::Yellow,
        ChartColor::Blue,
        ChartColor::Magenta,
        ChartColor::Cyan,
        ChartColor::LightRed,
        ChartColor::LightGreen,
        ChartColor::LightYellow,
        ChartColor::LightBlue,
        ChartColor::LightMagenta,
        ChartColor::LightCyan,
    ];
    for seed in ["", "2024-01-15", "2025-12-31", "héllo"] {
        let mut hash: u32 = 5381;
        for c in seed.chars() {
            hash = ((hash << 5).wrapping_add(hash)).wrapping_add(c as u32);
        }
        assert_eq!(random_color(seed), palette[(hash as usize) % 12]);
    }
    assert_eq!(random_color(""), palette[5381 % 12]);
    assert_eq!(random_color("2024-01-15"), random_color("2024-01-15"));
}

#[test]
fn priorities_round_trip_through_their_names() {
    for p in [Priority::Low, Priority::Medium, Priority::High, Priority::Urgent] {
        assert_eq!(Priority::parse(priority_str(p)), Some(p));
    }
    assert_eq!(priority_str(Priority::High), "High");
    assert_eq!(Priority::parse("urgent"), None);
    assert_eq!(TaskStatus::parse("Completed"), Some(TaskStatus::Completed));
    assert_eq!(TaskStatus::parse("Done"), None);
    assert_eq!(QuestionStatus::parse("Resolved"), Some(QuestionStatus::Resolved));
    assert_eq!(QuestionStatus::parse(""), None);
}

#[test]
fn subject_without_color_gets_the_fallback() {
    let s = SubjectStats::from_columns(SubjectId("g".into()), "General".into(), None, 1, 0, None);
    assert_eq!(s.color_hex, "#c0c0c0");
    assert!(s.is_default);
    let t = SubjectStats::from_columns(SubjectId("m".into()), "Math".into(), Some("#ff0000".into()), 0, 5, Some(9));
    assert_eq!(t.color_hex, "#ff0000");
    assert!(!t.is_default);
    assert_eq!(t.last_session, Some(9));
}

#[test]
fn started_block_runs_from_now() {
    let b = StudyBlock::started(StudyBlockId("b".into()), SubjectId("s".into()), 100);
    assert_eq!(b.start_time, 100);
    assert_eq!(b.created_at, 100);
    assert_eq!(b.end_time, None);
    assert_eq!(b.duration, 0);
    let joined = StudyBlockWithSubject::join(b, subject("x", "X", false), SubjectId("s".into()));
    assert_eq!(joined.subject.id, SubjectId("s".into()));
    assert!(now_secs() > 0);
}

#[test]
fn timer_keys() {
    let mut t = TimerComponent::new(120);
    assert!(!t.is_studying());
    assert!(matches!(t.handle_key(Key::Char(' ')), Some(Action::RequestStart)));
    assert!(matches!(t.handle_key(Key::Char('a')), Some(Action::OpenAnalytics)));
    assert!(matches!(t.handle_key(Key::Char('s')), Some(Action::OpenSubjects)));
    t.start();
    t.set_subject("Math".into());
    assert!(t.is_studying());
    assert!(matches!(t.handle_key(Key::Char(' ')), Some(Action::StopStudy)));
    assert!(t.handle_key(Key::Char('a')).is_none());
    assert!(t.handle_key(Key::Char('s')).is_none());
    assert!(matches!(t.handle_key(Key::Char('t')), Some(Action::OpenTasks)));
    assert!(matches!(t.handle_key(Key::Char('q')), Some(Action::Quit)));
    assert!(t.handle_key(Key::Enter).is_none());
    assert_eq!(t.current_subject.as_deref(), Some("Math"));
    t.stop();
    assert!(!t.is_studying());
    assert_eq!(t.current_subject, None);
    assert!(t.today_secs >= 120);
    let before = t.today_secs;
    t.stop();
    assert_eq!(t.today_secs, before);
    assert_eq!(t.total_secs(), before);
}

#[test]
fn timer_draws_big_digits() {
    assert_eq!(TimerComponent::char_rows('1'), ["  █  ", " ██  ", "  █  ", "  █  ", " ███ "]);
    assert_eq!(TimerComponent::char_rows('x'), ["     "; 5]);
    let rows = TimerComponent::big_lines("1:0");
    assert_eq!(rows[0], "  █        ███ ");
    assert_eq!(rows[2], "  █    █  █   █");
    assert_eq!(TimerComponent::big_lines(""), ["", "", "", "", ""].map(String::from));
}

#[test]
fn selection_moves_like_ratatui() {
    let mut c = TasksComponent::new(vec![]);
    c.handle_key(Key::Char('k'));
    assert_eq!(c.selected(), Some(usize::MAX));
    c.handle_key(Key::Char('j'));
    assert_eq!(c.selected(), Some(usize::MAX));
    c.select(None);
    c.handle_key(Key::Down);
    assert_eq!(c.selected(), Some(0));
    c.handle_key(Key::Up);
    assert_eq!(c.selected(), Some(0));
    c.select(Some(3));
    c.handle_key(Key::Char('j'));
    assert_eq!(c.selected(), Some(4));
    let mut a = AnalyticsComponent::new(vec![], vec![], vec![]);
    a.handle_key(Key::Up);
    assert_eq!(a.selected_row(), Some(usize::MAX));
    a.select(Some(1));
    a.handle_key(Key::Down);
    assert_eq!(a.selected_row(), Some(2));
}

#[test]
fn text_input_deletes_whole_graphemes() {
    let mut input = TextInput::new();
    for c in "ae\u{301}".chars() {
        apply_input(&mut input, Key::Char(c));
    }
    assert_eq!(input.value(), "ae\u{301}");
    apply_input(&mut input, Key::Backspace);
    assert_eq!(input.value(), "a");
    apply_input(&mut input, Key::Enter);
    assert_eq!(input.value(), "a");
    apply_input(&mut input, Key::Backspace);
    apply_input(&mut input, Key::Backspace);
    assert_eq!(input.value(), "");
}

#[test]
fn task_form_creates_a_trimmed_task() {
    let mut c = TasksComponent::new(vec![]);
    assert_eq!(c.selected(), None);
    assert!(c.handle_key(Key::Char('n')).is_none());
    assert!(c.handle_key(Key::Enter).is_none());
    assert!(matches!(c.mode(), TasksMode::Creating(CreatingStep::Title(t)) if t.is_empty()));
    type_text(|k| c.handle_key(k), "  Read ch. 4x");
    c.handle_key(Key::Backspace);
    c.handle_key(Key::Enter);
    assert!(matches!(c.mode(), TasksMode::Creating(CreatingStep::Description { title, .. }) if title == "Read ch. 4"));
    type_text(|k| c.handle_key(k), "   ");
    c.handle_key(Key::Enter);
    c.handle_key(Key::Char('j'));
    c.handle_key(Key::Down);
    c.handle_key(Key::Char('j'));
    c.handle_key(Key::Char('j'));
    c.handle_key(Key::Char('k'));
    match c.handle_key(Key::Enter) {
        Some(Action::CreateTask { title, description, priority }) => {
            assert_eq!(title, "Read ch. 4");
            assert_eq!(description, None);
            assert_eq!(priority, Priority::High);
        }
        other => panic!("unexpected {other:?}"),
    }
    assert!(matches!(c.mode(), TasksMode::Browsing));
}

#[test]
fn task_form_keeps_a_description_and_can_be_cancelled() {
    let mut c = TasksComponent::new(vec![]);
    c.handle_key(Key::Char('n'));
    type_text(|k| c.handle_key(k), "T");
    c.handle_key(Key::Enter);
    type_text(|k| c.handle_key(k), " notes ");
    c.handle_key(Key::Enter);
    match c.handle_key(Key::Enter) {
        Some(Action::CreateTask { description, priority, .. }) => {
            assert_eq!(description.as_deref(), Some("notes"));
            assert_eq!(priority, Priority::Low);
        }
        other => panic!("unexpected {other:?}"),
    }
    c.handle_key(Key::Char('n'));
    type_text(|k| c.handle_key(k), "abc");
    assert!(c.handle_key(Key::Esc).is_none());
    assert!(matches!(c.mode(), TasksMode::Browsing));
    assert_eq!(priority_at(7), Priority::Urgent);
}

#[test]
fn task_list_toggles_and_deletes_the_selected_task() {
    let tasks = vec![
        task("a", "A", TaskStatus::Open, Priority::Low),
        task("b", "B", TaskStatus::Completed, Priority::High),
    ];
    let mut c = TasksComponent::new(tasks);
    assert_eq!(c.selected(), Some(0));
    c.handle_key(Key::Char('j'));
    assert!(matches!(c.handle_key(Key::Enter), Some(Action::ToggleTask(id)) if id == "b"));
    assert!(matches!(c.handle_key(Key::Char('d')), Some(Action::DeleteTask(id)) if id == "b"));
    c.handle_key(Key::Char('j'));
    assert_eq!(c.selected(), Some(2));
    assert!(c.handle_key(Key::Enter).is_none());
    c.select(Some(1));
    c.handle_key(Key::Char('l'));
    assert!(matches!(c.mode(), TasksMode::Expanded));
    c.handle_key(Key::Char('x'));
    assert!(matches!(c.mode(), TasksMode::Expanded));
    c.handle_key(Key::Left);
    assert!(matches!(c.mode(), TasksMode::Browsing));
    assert!(matches!(c.handle_key(Key::Esc), Some(Action::CloseTasks)));
    assert!(matches!(c.handle_key(Key::Char('q')), Some(Action::Quit)));
    c.update_tasks(vec![task("c", "C", TaskStatus::Open, Priority::Low)]);
    assert_eq!(c.selected(), Some(0));
    c.update_tasks(vec![]);
    assert_eq!(c.selected(), None);
    assert!(c.handle_key(Key::Char('l')).is_none());
    assert!(matches!(c.mode(), TasksMode::Browsing));
}

#[test]
fn task_rows_truncate_long_titles() {
    let long = "x".repeat(50);
    let row = TasksComponent::item_text(&task("a", &long, TaskStatus::Completed, Priority::Low));
    assert_eq!(row.checkbox, "[✓]");
    assert_eq!(row.title, format!("{}…", "x".repeat(44)));
    assert_eq!(row.priority, "Low   ");
    assert_eq!(row.status, "Done");
    let row = TasksComponent::item_text(&task("a", "Short", TaskStatus::Abandoned, Priority::Urgent));
    assert_eq!(row.title, format!("Short {}", " ".repeat(39)));
    assert_eq!(row.title.chars().count(), 45);
    assert_eq!(row.status, "Abandoned");
}

#[test]
fn subjects_never_delete_the_default() {
    let mut c = SubjectsComponent::new(vec![subject("g", "General", true), subject("m", "Math", false)]);
    assert!(c.handle_key(Key::Char('d')).is_none());
    c.handle_key(Key::Down);
    assert!(matches!(c.handle_key(Key::Char('d')), Some(Action::DeleteSubject(id)) if id == "m"));
    assert!(matches!(c.handle_key(Key::Char('?')), Some(Action::OpenSubjectQuestions(id)) if id == "m"));
    assert!(matches!(c.handle_key(Key::Char('l')), Some(Action::FetchSubjectSessions(id)) if id == "m"));
    c.set_expanded_sessions(vec![StudyBlock::started(StudyBlockId("b".into()), SubjectId("m".into()), 5)]);
    assert!(matches!(c.mode(), SubjectsMode::Expanded { sessions } if sessions.len() == 1));
    c.handle_key(Key::Esc);
    assert!(matches!(c.mode(), SubjectsMode::Browsing));
    c.update_subjects(vec![subject("g", "General", true)]);
    assert_eq!(c.selected_row(), Some(0));
}

#[test]
fn subject_form_asks_for_a_trimmed_name() {
    let mut c = SubjectsComponent::new(vec![]);
    c.handle_key(Key::Char('n'));
    type_text(|k| c.handle_key(k), " Chem ");
    match c.handle_key(Key::Enter) {
        Some(Action::CreateSubject { name, color_hex }) => {
            assert_eq!(name, "Chem");
            assert_eq!(color_hex, "#c0c0c0");
        }
        other => panic!("unexpected {other:?}"),
    }
    c.handle_key(Key::Char('n'));
    type_text(|k| c.handle_key(k), "  ");
    assert!(c.handle_key(Key::Enter).is_none());
    assert!(matches!(c.mode(), SubjectsMode::Browsing));
}

#[test]
fn subject_questions_toggle_and_answer() {
    let mut c = SubjectsComponent::new(vec![subject("m", "Math", false)]);
    c.set_questions(
        vec![question("q1", "Why?", QuestionStatus::Open), question("q2", "How?", QuestionStatus::Resolved)],
        "m".into(),
    );
    assert_eq!(c.questions_subject_id(), Some("m"));
    assert!(matches!(
        c.handle_key(Key::Char(' ')),
        Some(Action::ToggleSubjectQuestionResolved { id, resolved: true }) if id == "q1"
    ));
    c.handle_key(Key::Char('j'));
    c.handle_key(Key::Char('j'));
    assert!(matches!(
        c.handle_key(Key::Char(' ')),
        Some(Action::ToggleSubjectQuestionResolved { id, resolved: false }) if id == "q2"
    ));
    c.handle_key(Key::Char('a'));
    type_text(|k| c.handle_key(k), " Because ");
    match c.handle_key(Key::Enter) {
        Some(Action::AnswerSubjectQuestion { id, answer }) => {
            assert_eq!(id, "q2");
            assert_eq!(answer, "Because");
        }
        other => panic!("unexpected {other:?}"),
    }
    match c.mode() {
        SubjectsMode::Questions { questions, cursor, answer, .. } => {
            assert_eq!(*cursor, 1);
            assert!(answer.is_none());
            assert_eq!(questions[1].status, QuestionStatus::Resolved);
            assert_eq!(questions[1].answer.as_deref(), Some("Because"));
            assert_eq!(questions[0].status, QuestionStatus::Resolved);
        }
        _ => panic!("not in questions"),
    }
    c.update_questions(vec![question("q3", "?", QuestionStatus::Open)]);
    assert!(matches!(c.mode(), SubjectsMode::Questions { cursor: 0, .. }));
    c.handle_key(Key::Esc);
    assert!(matches!(c.mode(), SubjectsMode::Browsing));
    assert_eq!(c.questions_subject_id(), None);
}

#[test]
fn subject_rows_pad_the_name() {
    let row = SubjectsComponent::item_text(&subject("g", "General", true));
    assert_eq!(row.name, format!("{:<36}", "General [default]"));
    assert_eq!(row.total, "01:00:00");
    assert_eq!(row.last, "—");
}

#[test]
fn end_of_block_questions_are_resolved_then_captured() {
    let mut c = QuestionsComponent::new(
        "s".into(),
        "b".into(),
        vec![question("q1", "A", QuestionStatus::Open), question("q2", "B", QuestionStatus::Open)],
    );
    assert!(matches!(c.mode(), QAMode::Resolving));
    c.handle_key(Key::Char('j'));
    c.handle_key(Key::Char('j'));
    assert_eq!(c.cursor(), 1);
    assert!(matches!(
        c.handle_key(Key::Char(' ')),
        Some(Action::ToggleQuestionResolved { id, block_id, resolved: true }) if id == "q2" && block_id == "b"
    ));
    c.handle_key(Key::Up);
    c.handle_key(Key::Char('a'));
    type_text(|k| c.handle_key(k), "yes");
    match c.handle_key(Key::Enter) {
        Some(Action::AnswerQuestion { id, answer, block_id }) => {
            assert_eq!((id.as_str(), answer.as_str(), block_id.as_str()), ("q1", "yes", "b"));
        }
        other => panic!("unexpected {other:?}"),
    }
    assert_eq!(c.questions()[0].answer.as_deref(), Some("yes"));
    c.handle_key(Key::Enter);
    assert!(matches!(c.mode(), QAMode::Capturing { .. }));
    type_text(|k| c.handle_key(k), " new one ");
    assert!(c.handle_key(Key::Enter).is_none());
    match c.handle_key(Key::Enter) {
        Some(Action::SaveCapturedQuestions { questions, subject_id, block_id }) => {
            assert_eq!(questions, vec!["new one".to_string()]);
            assert_eq!(subject_id, "s");
            assert_eq!(block_id, "b");
        }
        other => panic!("unexpected {other:?}"),
    }
    assert!(matches!(c.handle_key(Key::Esc), Some(Action::QADone)));
}

#[test]
fn end_of_block_without_questions_captures_at_once() {
    let mut c = QuestionsComponent::new("s".into(), "b".into(), vec![]);
    assert!(matches!(c.mode(), QAMode::Capturing { .. }));
    assert!(matches!(c.handle_key(Key::Enter), Some(Action::QADone)));
    type_text(|k| c.handle_key(k), "q");
    assert!(matches!(c.handle_key(Key::Esc), Some(Action::QADone)));
    type_text(|k| c.handle_key(k), "q");
    assert!(c.handle_key(Key::Enter).is_none());
    assert!(matches!(c.handle_key(Key::Esc), Some(Action::SaveCapturedQuestions { questions, .. }) if questions.len() == 1));
}

#[test]
fn analytics_navigates_weeks_and_filters() {
    let subjects = vec![subject("a", "A", false), subject("b", "B", false)];
    let stats = vec![DailyStudyTime { day: "2024-01-01".into(), duration_secs: 60 }];
    let mut c = AnalyticsComponent::new(vec![], stats, subjects);
    assert_eq!(c.selected_row(), None);
    assert!(c.handle_key(Key::Char('l')).is_none());
    assert!(matches!(
        c.handle_key(Key::Char('h')),
        Some(Action::NavigateAnalyticsWeek { offset: -1, subject_id: None })
    ));
    c.update_stats(vec![], Some(SubjectId("b".into())), -2);
    assert_eq!(c.active_subject().map(|s| s.name.as_str()), Some("B"));
    assert!(matches!(
        c.handle_key(Key::Right),
        Some(Action::NavigateAnalyticsWeek { offset: -1, subject_id: Some(id) }) if id == "b"
    ));
    c.handle_key(Key::Char('s'));
    assert!(matches!(c.mode(), AnalyticsMode::FilteringBySubject { selected: Some(2) }));
    c.handle_key(Key::Char('k'));
    c.handle_key(Key::Char('k'));
    assert!(matches!(
        c.handle_key(Key::Enter),
        Some(Action::FilterAnalyticsBySubject { subject_id: None, week_offset: -2 })
    ));
    c.handle_key(Key::Char('s'));
    c.handle_key(Key::Char('k'));
    assert!(matches!(
        c.handle_key(Key::Enter),
        Some(Action::FilterAnalyticsBySubject { subject_id: Some(id), week_offset: -2 }) if id == "a"
    ));
    c.update_stats(vec![], Some(SubjectId("zz".into())), 0);
    assert!(c.active_subject().is_none());
    c.handle_key(Key::Char('s'));
    assert!(matches!(c.mode(), AnalyticsMode::FilteringBySubject { selected: Some(0) }));
    assert!(c.handle_key(Key::Esc).is_none());
    assert!(matches!(c.handle_key(Key::Esc), Some(Action::CloseAnalytics)));
    c.handle_key(Key::Down);
    assert_eq!(c.selected_row(), Some(0));
}

#[test]
fn session_time_is_added_to_today() {
    let mut t = TimerComponent::new(100);
    assert_eq!(t.total_with(25), 125);
    assert_eq!(t.total_with(i64::MAX), i64::MAX);
    t.start();
    t.set_subject("Math".into());
    t.add_session_secs(30);
    assert_eq!(t.today_secs, 130);
    assert!(t.is_studying());
    assert_eq!(t.current_subject.as_deref(), Some("Math"));
    t.add_session_secs(i64::MAX);
    assert_eq!(t.today_secs, i64::MAX);
    let mut low = TimerComponent::new(-10);
    low.add_session_secs(i64::MIN);
    assert_eq!(low.today_secs, i64::MIN);
}

#[test]
fn local_datetimes_have_four_digit_years() {
    for secs in [0i64, 1_700_000_000, 253_402_128_000] {
        let text: Vec<char> = fmt_datetime(secs).chars().collect();
        assert_eq!(text.len(), 16);
        assert_eq!((text[4], text[7], text[10], text[13]), ('-', '-', ' ', ':'));
        for (i, c) in text.iter().enumerate() {
            if ![4, 7, 10, 13].contains(&i) {
                assert!(c.is_ascii_digit());
            }
        }
    }
    let mut subj = subject("g", "General", true);
    subj.last_session = Some(1_700_000_000);
    let row = SubjectsComponent::item_text(&subj);
    assert_eq!(row.last.chars().count(), 16);
    assert_ne!(row.last, "—");
}
