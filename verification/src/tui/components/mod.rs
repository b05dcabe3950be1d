//! The screens of the terminal front end: how each reacts to a key, and
//! the action it asks the application to carry out.

use vstd::prelude::*;

use super::model::Priority;

pub mod analytics;
pub mod input;
pub mod questions;
pub mod selection;
pub mod subjects;
pub mod tasks;
pub mod timer;

verus! {

/// A key press, as the screens tell keys apart.
#[derive(Debug, PartialEq, Eq, Structural, Clone, Copy)]
pub enum Key {
    Char(char),
    Up,
    Down,
    Left,
    Right,
    Enter,
    Esc,
    Backspace,
    /// Any other key.
    Other,
}

/// What a screen asks the application to do.
#[derive(Debug)]
#[allow(inconsistent_fields)]
pub enum Action {
    // Timer
    RequestStart,
    StopStudy,
    // Navigation
    OpenAnalytics,
    CloseAnalytics,
    FilterAnalyticsBySubject { subject_id: Option<String>, week_offset: i32 },
    NavigateAnalyticsWeek { offset: i32, subject_id: Option<String> },
    OpenTasks,
    CloseTasks,
    OpenSubjects,
    CloseSubjects,
    FetchSubjectSessions(String),
    // Task mutations
    CreateTask { title: String, description: Option<String>, priority: Priority },
    DeleteTask(String),
    ToggleTask(String),
    // Subject mutations
    CreateSubject { name: String, color_hex: String },
    DeleteSubject(String),
    // Q&A at the end of a study block
    ToggleQuestionResolved { id: String, block_id: String, resolved: bool },
    AnswerQuestion { id: String, answer: String, block_id: String },
    SaveCapturedQuestions { questions: Vec<String>, subject_id: String, block_id: String },
    QADone,
    // Questions of a subject
    OpenSubjectQuestions(String),
    ToggleSubjectQuestionResolved { id: String, resolved: bool },
    AnswerSubjectQuestion { id: String, answer: String },
    // Global
    Quit,
}

} // verus!
