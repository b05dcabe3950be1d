//! The subjects screen: the subjects with their totals, a detail view with
//! recent sessions, a form for a new subject, and a subject's questions.

use vstd::prelude::*;
use vstd::string::StringExecFns;

use super::input::{apply_input, delete_prev_grapheme, TextInput};
use super::selection::{list_select_next, list_select_previous, next_row, previous_row, reselected};
use super::{Action, Key};
use crate::text::{
    is_clean, lemma_trimmed_is_clean, pad_right, padded, pop_char, push_char, trimmed, trimmed_string,
};
use crate::tui::util::{date_time_shaped, duration_text, fmt_datetime, fmt_duration, FOUR_DIGIT_YEAR_LIMIT};
use crate::tui::model::subject::fallback_color;
use crate::tui::model::question::toggled;
use crate::tui::model::{Question, QuestionStatus, StudyBlock, SubjectStats};

verus! {

/// What the subjects screen shows.
pub enum Mode {
    Browsing,
    /// The selected subject in full, with its recent sessions.
    Expanded { sessions: Vec<StudyBlock> },
    /// Typing the name of a new subject.
    Creating(String),
    /// The questions of subject `subject_id`; `answer` holds an answer being typed.
    Questions { questions: Vec<Question>, cursor: usize, answer: Option<TextInput>, subject_id: String },
}

/// The question cursor names a question whenever there is one.
pub open spec fn mode_wf(mode: Mode) -> bool {
    mode matches Mode::Questions { questions, cursor, .. } ==> cursor == 0 || cursor
        < questions@.len()
}

/// The value of a subjects screen.
pub struct SubjectsState {
    pub subjects: Seq<SubjectStats>,
    pub selected: Option<usize>,
    pub mode: Mode,
}

/// The subjects screen.
pub struct SubjectsComponent {
    subjects: Vec<SubjectStats>,
    selected: Option<usize>,
    mode: Mode,
}

impl View for SubjectsComponent {
    type V = SubjectsState;

    closed spec fn view(&self) -> SubjectsState {
        SubjectsState { subjects: self.subjects@, selected: self.selected, mode: self.mode }
    }
}

/// The selected subject, when the selection names one.
pub open spec fn selected_subject(s: SubjectsState) -> Option<SubjectStats> {
    match s.selected {
        Some(i) => if i < s.subjects.len() {
            Some(s.subjects[i as int])
        } else {
            None
        },
        None => None,
    }
}

/// The browsing list on `key`.
pub open spec fn browsing_step(
    pre: SubjectsState,
    key: Key,
    post: SubjectsState,
    action: Option<Action>,
) -> bool {
    if key == Key::Char('j') || key == Key::Down {
        post.mode is Browsing && post.selected == Some(next_row(pre.selected)) && action is None
    } else if key == Key::Char('k') || key == Key::Up {
        post.mode is Browsing && post.selected == Some(previous_row(pre.selected)) && action is None
    } else {
        &&& post.selected == pre.selected
        &&& if key == Key::Char('l') || key == Key::Right {
            match selected_subject(pre) {
                Some(s) => post.mode matches Mode::Expanded { sessions } && sessions@.len() == 0
                    && action == Some(Action::FetchSubjectSessions(s.id.0)),
                None => post.mode is Browsing && action is None,
            }
        } else if key == Key::Char('?') {
            &&& post.mode is Browsing
            &&& match selected_subject(pre) {
                Some(s) => action == Some(Action::OpenSubjectQuestions(s.id.0)),
                None => action is None,
            }
        } else if key == Key::Char('d') {
            &&& post.mode is Browsing
            &&& match selected_subject(pre) {
                Some(s) => if s.is_default {
                    action is None
                } else {
                    action == Some(Action::DeleteSubject(s.id.0))
                },
                None => action is None,
            }
        } else if key == Key::Char('n') {
            post.mode matches Mode::Creating(name) && name@.len() == 0 && action is None
        } else if key == Key::Esc {
            post.mode is Browsing && action == Some(Action::CloseSubjects)
        } else if key == Key::Char('q') {
            post.mode is Browsing && action == Some(Action::Quit)
        } else {
            post.mode is Browsing && action is None
        }
    }
}

/// The new-subject form, holding `input`, on `key`.
pub open spec fn creating_step(input: String, key: Key, post: Mode, action: Option<Action>) -> bool {
    match key {
        Key::Char(c) => post matches Mode::Creating(s) && s@ == input@.push(c) && action is None,
        Key::Backspace => post matches Mode::Creating(s) && s@ == (if input@.len() > 0 {
            input@.drop_last()
        } else {
            input@
        }) && action is None,
        Key::Enter => {
            &&& post is Browsing
            &&& if trimmed(input@).len() > 0 {
                &&& action matches Some(Action::CreateSubject { name, color_hex })
                &&& action->0->CreateSubject_name@ == trimmed(input@)
                &&& action->0->CreateSubject_color_hex@ == fallback_color()
            } else {
                action is None
            }
        },
        Key::Esc => post is Browsing && action is None,
        _ => post == Mode::Creating(input) && action is None,
    }
}

/// A subject's questions on `key`.
pub open spec fn questions_step(
    questions: Vec<Question>,
    cursor: usize,
    answer: Option<TextInput>,
    subject_id: String,
    key: Key,
    post: Mode,
    action: Option<Action>,
) -> bool {
    match answer {
        Some(input) => match key {
            Key::Enter => {
                &&& post matches Mode::Questions { questions: q2, cursor: c2, answer: a2, subject_id: s2 }
                &&& post->cursor == cursor && post->answer is None && post->subject_id == subject_id
                &&& if trimmed(input@).len() > 0 && cursor < questions@.len() {
                    let q = questions@[cursor as int];
                    &&& action matches Some(Action::AnswerSubjectQuestion { id, answer })
                    &&& action->0->AnswerSubjectQuestion_id == q.id.0
                    &&& action->0->AnswerSubjectQuestion_answer@ == trimmed(input@)
                    &&& post->questions@ == questions@.update(
                        cursor as int,
                        Question {
                            status: QuestionStatus::Resolved,
                            answer: Some(action->0->AnswerSubjectQuestion_answer),
                            ..q
                        },
                    )
                } else {
                    post->questions == questions && action is None
                }
            },
            Key::Esc => post == Mode::Questions { questions, cursor, answer: None, subject_id }
                && action is None,
            Key::Char(c) => {
                &&& post matches Mode::Questions { questions: q2, cursor: c2, answer: Some(i), subject_id: s2 }
                &&& post->questions == questions && post->cursor == cursor && post->subject_id == subject_id
                &&& (input@.len() < usize::MAX - 1 ==> post->answer->0@ == input@.push(c))
                &&& action is None
            },
            Key::Backspace => {
                &&& post matches Mode::Questions { questions: q2, cursor: c2, answer: Some(i), subject_id: s2 }
                &&& post->questions == questions && post->cursor == cursor && post->subject_id == subject_id
                &&& post->answer->0@ == delete_prev_grapheme(input@, input@.len()).0
                &&& action is None
            },
            _ => {
                &&& post matches Mode::Questions { questions: q2, cursor: c2, answer: Some(i), subject_id: s2 }
                &&& post->questions == questions && post->cursor == cursor && post->subject_id == subject_id
                &&& post->answer->0@ == input@
                &&& action is None
            },
        },
        None => if key == Key::Char('j') || key == Key::Down {
            &&& action is None
            &&& post == Mode::Questions {
                questions,
                cursor: if cursor + 1 < questions@.len() {
                    (cursor + 1) as usize
                } else if questions@.len() == 0 {
                    0
                } else {
                    (questions@.len() - 1) as usize
                },
                answer,
                subject_id,
            }
        } else if key == Key::Char('k') || key == Key::Up {
            &&& action is None
            &&& post == Mode::Questions {
                questions,
                cursor: if cursor == 0 {
                    0
                } else {
                    (cursor - 1) as usize
                },
                answer,
                subject_id,
            }
        } else if key == Key::Char(' ') {
            &&& post matches Mode::Questions { questions: q2, cursor: c2, answer: None, subject_id: s2 }
            &&& post->cursor == cursor && post->subject_id == subject_id
            &&& if cursor < questions@.len() {
                let q = questions@[cursor as int];
                &&& post->questions@ == questions@.update(cursor as int, toggled(q))
                &&& action == Some(
                    Action::ToggleSubjectQuestionResolved {
                        id: q.id.0,
                        resolved: q.status == QuestionStatus::Open,
                    },
                )
            } else {
                post->questions@ == questions@ && action is None
            }
        } else if key == Key::Char('a') {
            &&& post matches Mode::Questions { questions: q2, cursor: c2, answer: Some(i), subject_id: s2 }
            &&& post->questions == questions && post->cursor == cursor && post->subject_id == subject_id
            &&& post->answer->0@.len() == 0
            &&& action is None
        } else if key == Key::Esc {
            post is Browsing && action is None
        } else {
            post == Mode::Questions { questions, cursor, answer, subject_id } && action is None
        },
    }
}

/// The subjects screen on `key`: what it becomes and what it asks for.
pub open spec fn subjects_step(
    pre: SubjectsState,
    key: Key,
    post: SubjectsState,
    action: Option<Action>,
) -> bool {
    &&& post.subjects == pre.subjects
    &&& match pre.mode {
        Mode::Browsing => browsing_step(pre, key, post, action),
        Mode::Expanded { sessions } => {
            &&& post.selected == pre.selected
            &&& action is None
            &&& if key == Key::Char('h') || key == Key::Left || key == Key::Esc {
                post.mode is Browsing
            } else {
                post.mode == Mode::Expanded { sessions }
            }
        },
        Mode::Creating(input) => post.selected == pre.selected && creating_step(
            input,
            key,
            post.mode,
            action,
        ),
        Mode::Questions { questions, cursor, answer, subject_id } => post.selected == pre.selected
            && questions_step(questions, cursor, answer, subject_id, key, post.mode, action),
    }
}

/// The detail view showing `sessions`; any other view as it is.
pub open spec fn sessions_shown(mode: Mode, sessions: Vec<StudyBlock>) -> Mode {
    match mode {
        Mode::Expanded { .. } => Mode::Expanded { sessions },
        other => other,
    }
}

/// The questions view showing `questions`, its cursor clamped to the last
/// question; any other view as it is.
pub open spec fn questions_replaced(mode: Mode, questions: Vec<Question>) -> Mode {
    match mode {
        Mode::Questions { cursor, answer, subject_id, .. } => Mode::Questions {
            questions,
            cursor: if cursor < questions@.len() {
                cursor
            } else if questions@.len() == 0 {
                0
            } else {
                (questions@.len() - 1) as usize
            },
            answer,
            subject_id,
        },
        other => other,
    }
}

/// `q` toggled at `cursor` of `questions`, with the action that reports it.
fn toggle_at(questions: &mut Vec<Question>, cursor: usize) -> (r: Option<Action>)
    ensures
        cursor < old(questions)@.len() ==> {
            let q = old(questions)@[cursor as int];
            &&& final(questions)@ == old(questions)@.update(cursor as int, toggled(q))
            &&& r == Some(
                Action::ToggleSubjectQuestionResolved {
                    id: q.id.0,
                    resolved: q.status == QuestionStatus::Open,
                },
            )
        },
        cursor >= old(questions)@.len() ==> final(questions)@ == old(questions)@ && r is None,
{
    if cursor < questions.len() {
        let mut q = questions[cursor].clone();
        let resolving = q.status == QuestionStatus::Open;
        q.status = if resolving {
            QuestionStatus::Resolved
        } else {
            QuestionStatus::Open
        };
        let action = Some(Action::ToggleSubjectQuestionResolved { id: q.id.0.clone(), resolved: resolving });
        questions.set(cursor, q);
        action
    } else {
        None
    }
}

/// Records `answer` on the question at `cursor`, with the action that reports it.
fn answer_at(questions: &mut Vec<Question>, cursor: usize, answer: String) -> (r: Option<Action>)
    requires
        cursor < old(questions)@.len(),
    ensures
        ({
            let q = old(questions)@[cursor as int];
            &&& r matches Some(Action::AnswerSubjectQuestion { id, answer: a })
            &&& r->0->AnswerSubjectQuestion_id == q.id.0
            &&& r->0->AnswerSubjectQuestion_answer == answer
            &&& final(questions)@ == old(questions)@.update(
                cursor as int,
                Question { status: QuestionStatus::Resolved, answer: Some(answer), ..q },
            )
        }),
{
    let mut q = questions[cursor].clone();
    q.status = QuestionStatus::Resolved;
    q.answer = Some(answer.clone());
    let action = Some(Action::AnswerSubjectQuestion { id: q.id.0.clone(), answer });
    questions.set(cursor, q);
    action
}

/// Escape leaves the new-subject form, back to the list, without asking
/// for anything.
pub proof fn lemma_escape_cancels_form(pre: SubjectsState, post: SubjectsState, action: Option<Action>)
    requires
        pre.mode is Creating,
        subjects_step(pre, Key::Esc, post, action),
    ensures
        post.mode is Browsing,
        action is None,
        post.subjects == pre.subjects,
{
}

/// How wide the name column of the list is.
pub const NAME_WIDTH: usize = 36;

/// The text of a subject's row in the list, column by column.
pub struct SubjectRowText {
    pub name: String,
    pub total: String,
    pub last: String,
}

/// The name column: the name, tagged when it is the default subject,
/// padded to [`NAME_WIDTH`].
pub open spec fn name_column(subj: SubjectStats) -> Seq<char> {
    pad_right(
        subj.name@ + (if subj.is_default {
            " [default]"@
        } else {
            ""@
        }),
        NAME_WIDTH as nat,
    )
}

impl SubjectsComponent {
    /// The text of `subj`'s row in the list: its name, its total time as
    /// `HH:MM:SS`, and when it was last studied (a dash if never).
    pub fn item_text(subj: &SubjectStats) -> (r: SubjectRowText)
        ensures
            r.name@ == name_column(*subj),
            r.total@ == duration_text(subj.total_seconds as int),
            subj.last_session is None ==> r.last@ == "—"@,
            subj.last_session matches Some(t) && 0 <= t <= FOUR_DIGIT_YEAR_LIMIT
                ==> date_time_shaped(r.last@),
    {
        let mut name = subj.name.clone();
        if subj.is_default {
            name.append(" [default]");
        } else {
            name.append("");
        }
        let name = padded(name.as_str(), NAME_WIDTH);
        let total = fmt_duration(subj.total_seconds);
        let last = match subj.last_session {
            Some(t) => fmt_datetime(t),
            None => "—".to_owned(),
        };
        SubjectRowText { name, total, last }
    }
}

impl SubjectsComponent {
    #[verifier::type_invariant]
    closed spec fn well_formed(&self) -> bool {
        mode_wf(self.mode)
    }

    /// The screen browsing `subjects`, the first one selected (none if empty).
    pub fn new(subjects: Vec<SubjectStats>) -> (r: Self)
        ensures
            r@.subjects == subjects@,
            r@.selected == (if subjects@.len() == 0 {
                None
            } else {
                Some(0usize)
            }),
            r@.mode is Browsing,
    {
        let selected = if subjects.len() == 0 {
            None
        } else {
            Some(0)
        };
        SubjectsComponent { subjects, selected, mode: Mode::Browsing }
    }

    /// Replaces the subjects, keeping the selected row where it can be.
    pub fn update_subjects(&mut self, subjects: Vec<SubjectStats>)
        ensures
            final(self)@.subjects == subjects@,
            final(self)@.selected == reselected(old(self)@.selected, subjects@.len()),
            final(self)@.mode == old(self)@.mode,
    {
        proof {
            use_type_invariant(&*self);
        }
        let prev = match self.selected {
            Some(i) => i,
            None => 0,
        };
        self.subjects = subjects;
        if self.subjects.len() == 0 {
            self.selected = None;
        } else {
            let last = self.subjects.len() - 1;
            self.selected = Some(if prev < last {
                prev
            } else {
                last
            });
        }
    }

    /// Shows `sessions` in the detail view, if it is open.
    pub fn set_expanded_sessions(&mut self, sessions: Vec<StudyBlock>)
        ensures
            final(self)@.subjects == old(self)@.subjects,
            final(self)@.selected == old(self)@.selected,
            final(self)@.mode == sessions_shown(old(self)@.mode, sessions),
    {
        proof {
            use_type_invariant(&*self);
        }
        if let Mode::Expanded { .. } = &self.mode {
            self.mode = Mode::Expanded { sessions };
        }
    }

    /// Opens the questions of subject `subject_id`, the first one under the cursor.
    pub fn set_questions(&mut self, questions: Vec<Question>, subject_id: String)
        ensures
            final(self)@.subjects == old(self)@.subjects,
            final(self)@.selected == old(self)@.selected,
            final(self)@.mode == (Mode::Questions { questions, cursor: 0, answer: None, subject_id }),
    {
        proof {
            use_type_invariant(&*self);
        }
        self.mode = Mode::Questions { questions, cursor: 0, answer: None, subject_id };
    }

    /// Replaces the questions shown, if the questions view is open, keeping
    /// the cursor where it can be.
    pub fn update_questions(&mut self, questions: Vec<Question>)
        ensures
            final(self)@.subjects == old(self)@.subjects,
            final(self)@.selected == old(self)@.selected,
            final(self)@.mode == questions_replaced(old(self)@.mode, questions),
    {
        proof {
            use_type_invariant(&*self);
        }
        let mut mode = Mode::Browsing;
        std::mem::swap(&mut mode, &mut self.mode);
        let next = match mode {
            Mode::Questions { questions: _, cursor, answer, subject_id } => {
                let cursor = if cursor < questions.len() {
                    cursor
                } else if questions.len() == 0 {
                    0
                } else {
                    questions.len() - 1
                };
                Mode::Questions { questions, cursor, answer, subject_id }
            },
            other => other,
        };
        self.mode = next;
    }

    /// The subject whose questions are open, if the questions view is open.
    pub fn questions_subject_id(&self) -> (r: Option<&str>)
        ensures
            self@.mode matches Mode::Questions { subject_id, .. } ==> r matches Some(s) && s@
                == subject_id@,
            !(self@.mode is Questions) ==> r is None,
    {
        if let Mode::Questions { subject_id, .. } = &self.mode {
            Some(subject_id.as_str())
        } else {
            None
        }
    }

    /// The subjects shown.
    pub fn subjects(&self) -> (r: &Vec<SubjectStats>)
        ensures
            r@ == self@.subjects,
    {
        &self.subjects
    }

    /// The highlighted row.
    pub fn selected_row(&self) -> (r: Option<usize>)
        ensures
            r == self@.selected,
    {
        self.selected
    }

    /// Moves the highlight, as drawing the list does when it clamps it.
    pub fn select(&mut self, index: Option<usize>)
        ensures
            final(self)@.selected == index,
            final(self)@.subjects == old(self)@.subjects,
            final(self)@.mode == old(self)@.mode,
    {
        proof {
            use_type_invariant(&*self);
        }
        self.selected = index;
    }

    /// What the screen shows.
    pub fn mode(&self) -> (r: &Mode)
        ensures
            *r == self@.mode,
            mode_wf(*r),
    {
        proof {
            use_type_invariant(self);
        }
        &self.mode
    }

    /// The selected subject, when the selection names one.
    pub fn selected(&self) -> (r: Option<&SubjectStats>)
        ensures
            match r {
                Some(s) => selected_subject(self@) == Some(*s),
                None => selected_subject(self@) is None,
            },
    {
        match self.selected {
            Some(i) => if i < self.subjects.len() {
                Some(&self.subjects[i])
            } else {
                None
            },
            None => None,
        }
    }

    /// Reacts to `key`: moves the highlight, opens a subject's details or
    /// questions, asks to delete a subject (never the default one), walks
    /// the new-subject form, or works through a subject's questions.
    pub fn handle_key(&mut self, key: Key) -> (r: Option<Action>)
        ensures
            subjects_step(old(self)@, key, final(self)@, r),
            r matches Some(Action::DeleteSubject(id)) ==> selected_subject(old(self)@) matches Some(
                s,
            ) && !s.is_default && s.id.0 == id,
            r matches Some(Action::CreateSubject { name, .. }) ==> is_clean(name@),
    {
        proof {
            use_type_invariant(&*self);
        }
        let ghost pre = self@;
        let mut mode = Mode::Browsing;
        std::mem::swap(&mut mode, &mut self.mode);
        assert(mode == pre.mode);
        let mut action: Option<Action> = None;
        let next: Mode = match mode {
            Mode::Browsing => {
                if key == Key::Char('j') || key == Key::Down {
                    self.selected = list_select_next(self.selected);
                    Mode::Browsing
                } else if key == Key::Char('k') || key == Key::Up {
                    self.selected = list_select_previous(self.selected);
                    Mode::Browsing
                } else if key == Key::Char('l') || key == Key::Right {
                    match self.selected() {
                        Some(subj) => {
                            action = Some(Action::FetchSubjectSessions(subj.id.0.clone()));
                            Mode::Expanded { sessions: Vec::new() }
                        },
                        None => Mode::Browsing,
                    }
                } else if key == Key::Char('?') {
                    if let Some(subj) = self.selected() {
                        action = Some(Action::OpenSubjectQuestions(subj.id.0.clone()));
                    }
                    Mode::Browsing
                } else if key == Key::Char('d') {
                    if let Some(subj) = self.selected() {
                        if !subj.is_default {
                            action = Some(Action::DeleteSubject(subj.id.0.clone()));
                        }
                    }
                    Mode::Browsing
                } else if key == Key::Char('n') {
                    Mode::Creating(String::new())
                } else if key == Key::Esc {
                    action = Some(Action::CloseSubjects);
                    Mode::Browsing
                } else if key == Key::Char('q') {
                    action = Some(Action::Quit);
                    Mode::Browsing
                } else {
                    Mode::Browsing
                }
            },
            Mode::Expanded { sessions } => {
                if key == Key::Char('h') || key == Key::Left || key == Key::Esc {
                    Mode::Browsing
                } else {
                    Mode::Expanded { sessions }
                }
            },
            Mode::Creating(mut input) => match key {
                Key::Char(c) => {
                    push_char(&mut input, c);
                    Mode::Creating(input)
                },
                Key::Backspace => {
                    pop_char(&mut input);
                    Mode::Creating(input)
                },
                Key::Enter => {
                    let name = trimmed_string(input.as_str());
                    if !name.as_str().is_empty() {
                        proof {
                            lemma_trimmed_is_clean(input@);
                        }
                        action = Some(Action::CreateSubject { name, color_hex: "#c0c0c0".to_owned() });
                    }
                    Mode::Browsing
                },
                Key::Esc => Mode::Browsing,
                _ => Mode::Creating(input),
            },
            Mode::Questions { mut questions, mut cursor, answer, subject_id } => {
                match answer {
                    Some(mut input) => match key {
                        Key::Enter => {
                            let text = trimmed_string(input.value());
                            if !text.as_str().is_empty() && cursor < questions.len() {
                                action = answer_at(&mut questions, cursor, text);
                            }
                            Mode::Questions { questions, cursor, answer: None, subject_id }
                        },
                        Key::Esc => Mode::Questions { questions, cursor, answer: None, subject_id },
                        code => {
                            apply_input(&mut input, code);
                            Mode::Questions { questions, cursor, answer: Some(input), subject_id }
                        },
                    },
                    None => {
                        if key == Key::Char('j') || key == Key::Down {
                            let len = questions.len();
                            cursor = if cursor < len && len - cursor > 1 {
                                cursor + 1
                            } else if len == 0 {
                                0
                            } else {
                                len - 1
                            };
                            Mode::Questions { questions, cursor, answer: None, subject_id }
                        } else if key == Key::Char('k') || key == Key::Up {
                            if cursor > 0 {
                                cursor = cursor - 1;
                            }
                            Mode::Questions { questions, cursor, answer: None, subject_id }
                        } else if key == Key::Char(' ') {
                            action = toggle_at(&mut questions, cursor);
                            Mode::Questions { questions, cursor, answer: None, subject_id }
                        } else if key == Key::Char('a') {
                            Mode::Questions { questions, cursor, answer: Some(TextInput::new()), subject_id }
                        } else if key == Key::Esc {
                            Mode::Browsing
                        } else {
                            Mode::Questions { questions, cursor, answer: None, subject_id }
                        }
                    },
                }
            },
        };
        proof {
            reveal_strlit("#c0c0c0");
        }
        self.mode = next;
        action
    }
}

} // verus!
