//! The questions screen shown when a study block ends: first resolve or
//! answer the subject's open questions, then capture new ones.

use vstd::prelude::*;

use super::input::{apply_input, delete_prev_grapheme, TextInput};
use super::{Action, Key};
use crate::text::{is_clean, lemma_trimmed_is_clean, trimmed, trimmed_string};
use crate::tui::model::question::toggled;
use crate::tui::model::{Question, QuestionStatus};

verus! {

/// What the questions screen is doing.
pub enum QAMode {
    /// Walking the open questions.
    Resolving,
    /// Typing an answer to the question under the cursor.
    Answering(TextInput),
    /// Typing new questions; `captured` holds those entered so far.
    Capturing { captured: Vec<String>, input: TextInput },
}

/// The value of a questions screen.
pub struct QuestionsState {
    pub questions: Seq<Question>,
    pub cursor: usize,
    pub mode: QAMode,
    pub subject_id: String,
    pub block_id: String,
}

/// The questions screen.
pub struct QuestionsComponent {
    questions: Vec<Question>,
    cursor: usize,
    mode: QAMode,
    subject_id: String,
    block_id: String,
}

impl View for QuestionsComponent {
    type V = QuestionsState;

    closed spec fn view(&self) -> QuestionsState {
        QuestionsState {
            questions: self.questions@,
            cursor: self.cursor,
            mode: self.mode,
            subject_id: self.subject_id,
            block_id: self.block_id,
        }
    }
}

/// The cursor names a question whenever there is one, and every captured
/// question is clean text.
pub open spec fn qa_wf(s: QuestionsState) -> bool {
    &&& (s.cursor == 0 || s.cursor < s.questions.len())
    &&& (s.mode matches QAMode::Capturing { captured, .. } ==> forall|i: int|
        0 <= i < captured@.len() ==> is_clean(#[trigger] captured@[i]@))
}

/// `q` resolved with `answer`.
pub open spec fn answered(q: Question, answer: String) -> Question {
    Question { status: QuestionStatus::Resolved, answer: Some(answer), ..q }
}

/// What finishing the capture asks for: done when nothing was captured,
/// otherwise to save the captured questions for the subject and block.
pub open spec fn finish_action(captured: Vec<String>, s: QuestionsState) -> Option<Action> {
    if captured@.len() == 0 {
        Some(Action::QADone)
    } else {
        Some(
            Action::SaveCapturedQuestions {
                questions: captured,
                subject_id: s.subject_id,
                block_id: s.block_id,
            },
        )
    }
}

/// An empty capture form.
pub open spec fn fresh_capture(mode: QAMode) -> bool {
    mode matches QAMode::Capturing { captured, input } && captured@.len() == 0 && input@.len() == 0
}

/// The questions screen on `key`: what it becomes and what it asks for.
pub open spec fn qa_step(pre: QuestionsState, key: Key, post: QuestionsState, action: Option<Action>) -> bool {
    &&& post.subject_id == pre.subject_id
    &&& post.block_id == pre.block_id
    &&& match pre.mode {
        QAMode::Resolving => {
            if key == Key::Char('j') || key == Key::Down {
                &&& post.mode is Resolving
                &&& post.questions == pre.questions
                &&& action is None
                &&& post.cursor == if pre.cursor + 1 < pre.questions.len() {
                    (pre.cursor + 1) as usize
                } else {
                    pre.cursor
                }
            } else if key == Key::Char('k') || key == Key::Up {
                &&& post.mode is Resolving
                &&& post.questions == pre.questions
                &&& action is None
                &&& post.cursor == if pre.cursor == 0 {
                    0
                } else {
                    (pre.cursor - 1) as usize
                }
            } else if key == Key::Char(' ') {
                &&& post.mode is Resolving
                &&& post.cursor == pre.cursor
                &&& if pre.cursor < pre.questions.len() {
                    let q = pre.questions[pre.cursor as int];
                    &&& post.questions == pre.questions.update(pre.cursor as int, toggled(q))
                    &&& action == Some(
                        Action::ToggleQuestionResolved {
                            id: q.id.0,
                            block_id: pre.block_id,
                            resolved: q.status == QuestionStatus::Open,
                        },
                    )
                } else {
                    post.questions == pre.questions && action is None
                }
            } else if key == Key::Char('a') {
                &&& post.mode matches QAMode::Answering(input) && input@.len() == 0
                &&& post.questions == pre.questions
                &&& post.cursor == pre.cursor
                &&& action is None
            } else if key == Key::Enter || key == Key::Esc {
                &&& fresh_capture(post.mode)
                &&& post.questions == pre.questions
                &&& post.cursor == pre.cursor
                &&& action is None
            } else {
                &&& post.mode is Resolving
                &&& post.questions == pre.questions
                &&& post.cursor == pre.cursor
                &&& action is None
            }
        },
        QAMode::Answering(input) => {
            &&& post.cursor == pre.cursor
            &&& match key {
                Key::Enter => {
                    &&& post.mode is Resolving
                    &&& if trimmed(input@).len() > 0 && pre.cursor < pre.questions.len() {
                        let q = pre.questions[pre.cursor as int];
                        &&& action matches Some(Action::AnswerQuestion { id, answer, block_id })
                        &&& action->0->AnswerQuestion_id == q.id.0
                        &&& action->0->AnswerQuestion_block_id == pre.block_id
                        &&& action->0->AnswerQuestion_answer@ == trimmed(input@)
                        &&& post.questions == pre.questions.update(
                            pre.cursor as int,
                            answered(q, action->0->AnswerQuestion_answer),
                        )
                    } else {
                        post.questions == pre.questions && action is None
                    }
                },
                Key::Esc => post.mode is Resolving && post.questions == pre.questions && action is None,
                Key::Char(c) => {
                    &&& post.mode matches QAMode::Answering(i) && (input@.len() < usize::MAX - 1
                        ==> i@ == input@.push(c))
                    &&& post.questions == pre.questions
                    &&& action is None
                },
                Key::Backspace => {
                    &&& post.mode matches QAMode::Answering(i) && i@ == delete_prev_grapheme(
                        input@,
                        input@.len(),
                    ).0
                    &&& post.questions == pre.questions
                    &&& action is None
                },
                _ => post.mode matches QAMode::Answering(i) && i@ == input@ && post.questions
                    == pre.questions && action is None,
            }
        },
        QAMode::Capturing { captured, input } => {
            &&& post.cursor == pre.cursor
            &&& post.questions == pre.questions
            &&& match key {
                Key::Enter => if trimmed(input@).len() == 0 {
                    fresh_capture(post.mode) && action == finish_action(captured, pre)
                } else {
                    &&& post.mode matches QAMode::Capturing { captured: c, input: i }
                    &&& post.mode->captured@.len() == captured@.len() + 1
                    &&& post.mode->captured@.take(captured@.len() as int) == captured@
                    &&& post.mode->captured@.last()@ == trimmed(input@)
                    &&& post.mode->input@.len() == 0
                    &&& action is None
                },
                Key::Esc => fresh_capture(post.mode) && action == finish_action(captured, pre),
                Key::Char(c) => {
                    &&& post.mode matches QAMode::Capturing { captured: c2, input: i }
                    &&& post.mode->captured == captured
                    &&& (input@.len() < usize::MAX - 1 ==> post.mode->input@ == input@.push(c))
                    &&& action is None
                },
                Key::Backspace => {
                    &&& post.mode matches QAMode::Capturing { captured: c2, input: i }
                    &&& post.mode->captured == captured
                    &&& post.mode->input@ == delete_prev_grapheme(input@, input@.len()).0
                    &&& action is None
                },
                _ => {
                    &&& post.mode matches QAMode::Capturing { captured: c2, input: i }
                    &&& post.mode->captured == captured
                    &&& post.mode->input@ == input@
                    &&& action is None
                },
            }
        },
    }
}

/// Ends the capture: the action it asks for, and an empty form.
fn finish_capture(captured: Vec<String>, subject_id: &String, block_id: &String) -> (r: (
    Option<Action>,
    QAMode,
))
    ensures
        r.1 matches QAMode::Capturing { captured: c, input: i } && c@.len() == 0 && i@.len() == 0,
        r.0 == if captured@.len() == 0 {
            Some(Action::QADone)
        } else {
            Some(
                Action::SaveCapturedQuestions {
                    questions: captured,
                    subject_id: *subject_id,
                    block_id: *block_id,
                },
            )
        },
{
    let action = if captured.len() == 0 {
        Some(Action::QADone)
    } else {
        Some(
            Action::SaveCapturedQuestions {
                questions: captured,
                subject_id: subject_id.clone(),
                block_id: block_id.clone(),
            },
        )
    };
    (action, QAMode::Capturing { captured: Vec::new(), input: TextInput::new() })
}

impl QuestionsComponent {
    #[verifier::type_invariant]
    closed spec fn well_formed(&self) -> bool {
        qa_wf(self@)
    }

    /// The screen for the questions of `subject_id` at the end of block
    /// `block_id`: resolving them, or capturing new ones when there are none.
    pub fn new(subject_id: String, block_id: String, questions: Vec<Question>) -> (r: Self)
        ensures
            r@.questions == questions@,
            r@.cursor == 0,
            r@.subject_id == subject_id,
            r@.block_id == block_id,
            questions@.len() == 0 ==> fresh_capture(r@.mode),
            questions@.len() > 0 ==> r@.mode is Resolving,
    {
        let mode = if questions.len() == 0 {
            QAMode::Capturing { captured: Vec::new(), input: TextInput::new() }
        } else {
            QAMode::Resolving
        };
        QuestionsComponent { questions, cursor: 0, mode, subject_id, block_id }
    }

    /// The questions shown.
    pub fn questions(&self) -> (r: &Vec<Question>)
        ensures
            r@ == self@.questions,
    {
        &self.questions
    }

    /// The row under the cursor.
    pub fn cursor(&self) -> (r: usize)
        ensures
            r == self@.cursor,
            r == 0 || r < self@.questions.len(),
    {
        proof {
            use_type_invariant(self);
        }
        self.cursor
    }

    /// What the screen is doing.
    pub fn mode(&self) -> (r: &QAMode)
        ensures
            *r == self@.mode,
    {
        &self.mode
    }

    /// Reacts to `key`: moves the cursor, toggles or answers the question
    /// under it, or captures new questions and finally asks to save them.
    pub fn handle_key(&mut self, key: Key) -> (r: Option<Action>)
        ensures
            qa_step(old(self)@, key, final(self)@, r),
            r matches Some(Action::SaveCapturedQuestions { questions, .. }) ==> questions@.len() > 0
                && forall|i: int| 0 <= i < questions@.len() ==> is_clean(#[trigger] questions@[i]@),
    {
        proof {
            use_type_invariant(&*self);
        }
        let ghost pre = self@;
        let mut mode = QAMode::Resolving;
        std::mem::swap(&mut mode, &mut self.mode);
        assert(mode == pre.mode);
        let mut action: Option<Action> = None;
        let next: QAMode = match mode {
            QAMode::Resolving => {
                if key == Key::Char('j') || key == Key::Down {
                    let len = self.questions.len();
                    if self.cursor < len && len - self.cursor > 1 {
                        self.cursor = self.cursor + 1;
                    }
                    QAMode::Resolving
                } else if key == Key::Char('k') || key == Key::Up {
                    if self.cursor > 0 {
                        self.cursor = self.cursor - 1;
                    }
                    QAMode::Resolving
                } else if key == Key::Char(' ') {
                    if self.cursor < self.questions.len() {
                        let mut q = self.questions[self.cursor].clone();
                        let resolving = q.status == QuestionStatus::Open;
                        q.status = if resolving {
                            QuestionStatus::Resolved
                        } else {
                            QuestionStatus::Open
                        };
                        action = Some(
                            Action::ToggleQuestionResolved {
                                id: q.id.0.clone(),
                                block_id: self.block_id.clone(),
                                resolved: resolving,
                            },
                        );
                        let cursor = self.cursor;
                        self.cursor = 0;
                        let mut questions: Vec<Question> = Vec::new();
                        std::mem::swap(&mut questions, &mut self.questions);
                        questions.set(cursor, q);
                        self.questions = questions;
                        self.cursor = cursor;
                    }
                    QAMode::Resolving
                } else if key == Key::Char('a') {
                    QAMode::Answering(TextInput::new())
                } else if key == Key::Enter || key == Key::Esc {
                    QAMode::Capturing { captured: Vec::new(), input: TextInput::new() }
                } else {
                    QAMode::Resolving
                }
            },
            QAMode::Answering(mut input) => match key {
                Key::Enter => {
                    let answer = trimmed_string(input.value());
                    if !answer.as_str().is_empty() && self.cursor < self.questions.len() {
                        let mut q = self.questions[self.cursor].clone();
                        q.status = QuestionStatus::Resolved;
                        q.answer = Some(answer.clone());
                        action = Some(
                            Action::AnswerQuestion {
                                id: q.id.0.clone(),
                                answer,
                                block_id: self.block_id.clone(),
                            },
                        );
                        let cursor = self.cursor;
                        self.cursor = 0;
                        let mut questions: Vec<Question> = Vec::new();
                        std::mem::swap(&mut questions, &mut self.questions);
                        questions.set(cursor, q);
                        self.questions = questions;
                        self.cursor = cursor;
                    }
                    QAMode::Resolving
                },
                Key::Esc => QAMode::Resolving,
                code => {
                    apply_input(&mut input, code);
                    QAMode::Answering(input)
                },
            },
            QAMode::Capturing { mut captured, mut input } => match key {
                Key::Enter => {
                    let text = trimmed_string(input.value());
                    if text.as_str().is_empty() {
                        let (a, m) = finish_capture(captured, &self.subject_id, &self.block_id);
                        action = a;
                        m
                    } else {
                        proof {
                            lemma_trimmed_is_clean(input@);
                        }
                        let ghost before = captured@;
                        captured.push(text);
                        assert(captured@.take(before.len() as int) =~= before);
                        QAMode::Capturing { captured, input: TextInput::new() }
                    }
                },
                Key::Esc => {
                    let (a, m) = finish_capture(captured, &self.subject_id, &self.block_id);
                    action = a;
                    m
                },
                code => {
                    apply_input(&mut input, code);
                    QAMode::Capturing { captured, input }
                },
            },
        };
        self.mode = next;
        action
    }
}

} // verus!
