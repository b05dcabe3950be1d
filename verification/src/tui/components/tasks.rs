//! The tasks screen: a list of tasks, a detail view, and a three-step form
//! (title, optional description, priority) that asks for a new task.

use vstd::prelude::*;
use vstd::string::{StrSliceExecFns, StringExecFns};

use super::selection::{list_select_next, list_select_previous, next_row, previous_row, reselected};
use super::{Action, Key};
use crate::text::{
    is_clean, lemma_trimmed_is_clean, pop_char, push_char, push_prefix, push_spaces, spaces, trimmed,
    trimmed_string,
};
use crate::tui::model::{Priority, Task, TaskStatus};

verus! {

/// How many priorities the form offers.
pub const PRIORITY_LEVELS: usize = 4;

/// The priority offered at row `cursor` of the form.
pub open spec fn priority_of(cursor: usize) -> Priority {
    if cursor == 0 {
        Priority::Low
    } else if cursor == 1 {
        Priority::Medium
    } else if cursor == 2 {
        Priority::High
    } else {
        Priority::Urgent
    }
}

/// The priority offered at row `cursor` of the form.
pub fn priority_at(cursor: usize) -> (r: Priority)
    ensures
        r == priority_of(cursor),
{
    match cursor {
        0 => Priority::Low,
        1 => Priority::Medium,
        2 => Priority::High,
        _ => Priority::Urgent,
    }
}

/// A step of the new-task form.
pub enum CreatingStep {
    /// Typing the title.
    Title(String),
    /// Typing the optional description of the task titled `title`.
    Description { title: String, input: String },
    /// Choosing the priority, the row under `cursor`.
    Priority { title: String, description: Option<String>, cursor: usize },
}

/// What the tasks screen shows.
pub enum Mode {
    Browsing,
    /// The selected task in full.
    Expanded,
    Creating(CreatingStep),
}

/// The form keeps what it has accepted: a clean title, a clean description
/// if any, and a priority row within range.
pub open spec fn mode_wf(mode: Mode) -> bool {
    match mode {
        Mode::Creating(CreatingStep::Description { title, .. }) => is_clean(title@),
        Mode::Creating(CreatingStep::Priority { title, description, cursor }) => {
            &&& is_clean(title@)
            &&& (description matches Some(d) ==> is_clean(d@))
            &&& cursor < PRIORITY_LEVELS
        },
        _ => true,
    }
}

/// The value of a tasks screen.
pub struct TasksState {
    pub tasks: Seq<Task>,
    pub selected: Option<usize>,
    pub mode: Mode,
}

/// The tasks screen.
pub struct TasksComponent {
    tasks: Vec<Task>,
    selected: Option<usize>,
    mode: Mode,
}

impl View for TasksComponent {
    type V = TasksState;

    closed spec fn view(&self) -> TasksState {
        TasksState { tasks: self.tasks@, selected: self.selected, mode: self.mode }
    }
}

/// The id of the selected task, when the selection names a task.
pub open spec fn selected_task_id(s: TasksState) -> Option<Seq<char>> {
    match s.selected {
        Some(i) => if i < s.tasks.len() {
            Some(s.tasks[i as int].id.0@)
        } else {
            None
        },
        None => None,
    }
}

/// `action` asks to toggle the selected task, or is `None` when no task is selected.
pub open spec fn toggles_selected(action: Option<Action>, s: TasksState) -> bool {
    match selected_task_id(s) {
        Some(id) => action matches Some(Action::ToggleTask(t)) && t@ == id,
        None => action is None,
    }
}

/// `action` asks to delete the selected task, or is `None` when no task is selected.
pub open spec fn deletes_selected(action: Option<Action>, s: TasksState) -> bool {
    match selected_task_id(s) {
        Some(id) => action matches Some(Action::DeleteTask(t)) && t@ == id,
        None => action is None,
    }
}

/// The browsing list on `key`.
pub open spec fn browsing_step(pre: TasksState, key: Key, post: TasksState, action: Option<Action>) -> bool {
    if key == Key::Char('j') || key == Key::Down {
        post.mode is Browsing && post.selected == Some(next_row(pre.selected)) && action is None
    } else if key == Key::Char('k') || key == Key::Up {
        post.mode is Browsing && post.selected == Some(previous_row(pre.selected)) && action is None
    } else if key == Key::Char('l') || key == Key::Right {
        &&& post.selected == pre.selected
        &&& action is None
        &&& if pre.selected is Some {
            post.mode is Expanded
        } else {
            post.mode is Browsing
        }
    } else if key == Key::Enter {
        post.mode is Browsing && post.selected == pre.selected && toggles_selected(action, pre)
    } else if key == Key::Char('d') {
        post.mode is Browsing && post.selected == pre.selected && deletes_selected(action, pre)
    } else if key == Key::Char('n') {
        &&& post.mode matches Mode::Creating(CreatingStep::Title(t)) && t@.len() == 0
        &&& post.selected == pre.selected
        &&& action is None
    } else if key == Key::Esc {
        post.mode is Browsing && post.selected == pre.selected && action == Some(Action::CloseTasks)
    } else if key == Key::Char('q') {
        post.mode is Browsing && post.selected == pre.selected && action == Some(Action::Quit)
    } else {
        post.mode is Browsing && post.selected == pre.selected && action is None
    }
}

/// The form on `key`, from `step`.
pub open spec fn creating_step(step: CreatingStep, key: Key, post: Mode, action: Option<Action>) -> bool {
    match step {
        CreatingStep::Title(input) => {
            &&& action is None
            &&& match key {
                Key::Char(c) => post matches Mode::Creating(CreatingStep::Title(t)) && t@
                    == input@.push(c),
                Key::Backspace => post matches Mode::Creating(CreatingStep::Title(t)) && t@ == (
                if input@.len() > 0 {
                    input@.drop_last()
                } else {
                    input@
                }),
                Key::Enter => if trimmed(input@).len() == 0 {
                    post == Mode::Creating(CreatingStep::Title(input))
                } else {
                    post matches Mode::Creating(CreatingStep::Description { title, input: i })
                        && title@ == trimmed(input@) && i@.len() == 0
                },
                Key::Esc => post is Browsing,
                _ => post == Mode::Creating(CreatingStep::Title(input)),
            }
        },
        CreatingStep::Description { title, input } => {
            &&& action is None
            &&& match key {
                Key::Char(c) => post matches Mode::Creating(
                    CreatingStep::Description { title: t, input: i },
                ) && t == title && i@ == input@.push(c),
                Key::Backspace => post matches Mode::Creating(
                    CreatingStep::Description { title: t, input: i },
                ) && t == title && i@ == (if input@.len() > 0 {
                    input@.drop_last()
                } else {
                    input@
                }),
                Key::Enter => post matches Mode::Creating(
                    CreatingStep::Priority { title: t, description: d, cursor },
                ) && t == title && cursor == 0 && (if trimmed(input@).len() == 0 {
                    d is None
                } else {
                    d matches Some(text) && text@ == trimmed(input@)
                }),
                Key::Esc => post is Browsing,
                _ => post == Mode::Creating(CreatingStep::Description { title, input }),
            }
        },
        CreatingStep::Priority { title, description, cursor } => {
            if key == Key::Char('j') || key == Key::Down {
                &&& action is None
                &&& post == Mode::Creating(
                    CreatingStep::Priority {
                        title,
                        description,
                        cursor: if cursor + 1 < PRIORITY_LEVELS - 1 {
                            (cursor + 1) as usize
                        } else {
                            (PRIORITY_LEVELS - 1) as usize
                        },
                    },
                )
            } else if key == Key::Char('k') || key == Key::Up {
                &&& action is None
                &&& post == Mode::Creating(
                    CreatingStep::Priority {
                        title,
                        description,
                        cursor: if cursor == 0 {
                            0
                        } else {
                            (cursor - 1) as usize
                        },
                    },
                )
            } else if key == Key::Enter {
                post is Browsing && action == Some(
                    Action::CreateTask { title, description, priority: priority_of(cursor) },
                )
            } else if key == Key::Esc {
                post is Browsing && action is None
            } else {
                post == Mode::Creating(CreatingStep::Priority { title, description, cursor })
                    && action is None
            }
        },
    }
}

/// The tasks screen on `key`: what it becomes and what it asks for.
pub open spec fn tasks_step(pre: TasksState, key: Key, post: TasksState, action: Option<Action>) -> bool {
    &&& post.tasks == pre.tasks
    &&& match pre.mode {
        Mode::Browsing => browsing_step(pre, key, post, action),
        Mode::Expanded => {
            &&& post.selected == pre.selected
            &&& action is None
            &&& if key == Key::Char('h') || key == Key::Left || key == Key::Esc {
                post.mode is Browsing
            } else {
                post.mode is Expanded
            }
        },
        Mode::Creating(step) => post.selected == pre.selected && creating_step(
            step,
            key,
            post.mode,
            action,
        ),
    }
}

/// Escape leaves the new-task form at any step, back to the list, without
/// asking for anything.
pub proof fn lemma_escape_cancels_form(pre: TasksState, post: TasksState, action: Option<Action>)
    requires
        pre.mode is Creating,
        tasks_step(pre, Key::Esc, post, action),
    ensures
        post.mode is Browsing,
        action is None,
        post.tasks == pre.tasks,
        post.selected == pre.selected,
{
}

/// Only Enter on the priority step asks to create a task.
pub proof fn lemma_only_priority_step_creates(pre: TasksState, key: Key, post: TasksState, action: Option<Action>)
    requires
        tasks_step(pre, key, post, action),
        action matches Some(Action::CreateTask { .. }),
    ensures
        pre.mode matches Mode::Creating(CreatingStep::Priority { .. }),
        key == Key::Enter,
        post.mode is Browsing,
{
}

/// How many chars of a title the list shows.
pub const TITLE_WIDTH: usize = 44;

/// The text of a task's row in the list, column by column.
pub struct TaskRowText {
    pub checkbox: &'static str,
    pub title: String,
    pub priority: &'static str,
    pub status: &'static str,
}

/// The checkbox of a task with `status`.
pub open spec fn checkbox_text(status: TaskStatus) -> Seq<char> {
    match status {
        TaskStatus::Open => "[ ]"@,
        TaskStatus::Completed => "[✓]"@,
        TaskStatus::Abandoned => "[x]"@,
    }
}

/// The priority column, six chars wide.
pub open spec fn priority_column(p: Priority) -> Seq<char> {
    match p {
        Priority::Low => "Low   "@,
        Priority::Medium => "Medium"@,
        Priority::High => "High  "@,
        Priority::Urgent => "Urgent"@,
    }
}

/// The status column of the list.
pub open spec fn status_column(status: TaskStatus) -> Seq<char> {
    match status {
        TaskStatus::Open => "Open"@,
        TaskStatus::Completed => "Done"@,
        TaskStatus::Abandoned => "Abandoned"@,
    }
}

/// The title column: the first [`TITLE_WIDTH`] chars, then an ellipsis when
/// the title is longer or a space when not, then spaces up to the width.
pub open spec fn title_column(title: Seq<char>) -> Seq<char> {
    let shown = if title.len() < TITLE_WIDTH { title.len() } else { TITLE_WIDTH as nat };
    title.take(shown as int) + (if title.len() > TITLE_WIDTH {
        "…"@
    } else {
        " "@
    }) + spaces((TITLE_WIDTH - shown) as nat)
}

/// Every title column is one char wider than [`TITLE_WIDTH`], so the
/// columns after it line up.
pub proof fn lemma_title_column_width(title: Seq<char>)
    ensures
        title_column(title).len() == TITLE_WIDTH + 1,
{
    reveal_strlit("…");
    reveal_strlit(" ");
}

impl TasksComponent {
    /// The text of `task`'s row in the list.
    pub fn item_text(task: &Task) -> (r: TaskRowText)
        ensures
            r.checkbox@ == checkbox_text(task.status),
            r.title@ == title_column(task.title@),
            r.priority@ == priority_column(task.priority),
            r.status@ == status_column(task.status),
    {
        let checkbox = match task.status {
            TaskStatus::Open => "[ ]",
            TaskStatus::Completed => "[✓]",
            TaskStatus::Abandoned => "[x]",
        };
        let priority = match task.priority {
            Priority::Low => "Low   ",
            Priority::Medium => "Medium",
            Priority::High => "High  ",
            Priority::Urgent => "Urgent",
        };
        let status = match task.status {
            TaskStatus::Open => "Open",
            TaskStatus::Completed => "Done",
            TaskStatus::Abandoned => "Abandoned",
        };
        let title_str = task.title.as_str();
        let len = title_str.unicode_len();
        let mut title = String::new();
        push_prefix(&mut title, title_str, TITLE_WIDTH);
        if len > TITLE_WIDTH {
            title.append("…");
        } else {
            title.append(" ");
        }
        let shown = if len < TITLE_WIDTH {
            len
        } else {
            TITLE_WIDTH
        };
        push_spaces(&mut title, TITLE_WIDTH - shown);
        assert(title@ =~= title_column(task.title@));
        TaskRowText { checkbox, title, priority, status }
    }
}

impl TasksComponent {
    #[verifier::type_invariant]
    closed spec fn form_is_wf(&self) -> bool {
        mode_wf(self.mode)
    }

    /// The screen browsing `tasks`, the first one selected (none if empty).
    pub fn new(tasks: Vec<Task>) -> (r: Self)
        ensures
            r@.tasks == tasks@,
            r@.selected == (if tasks@.len() == 0 {
                None
            } else {
                Some(0usize)
            }),
            r@.mode is Browsing,
    {
        let selected = if tasks.len() == 0 {
            None
        } else {
            Some(0)
        };
        TasksComponent { tasks, selected, mode: Mode::Browsing }
    }

    /// Replaces the tasks, keeping the selected row where it can be.
    pub fn update_tasks(&mut self, tasks: Vec<Task>)
        ensures
            final(self)@.tasks == tasks@,
            final(self)@.selected == reselected(old(self)@.selected, tasks@.len()),
            final(self)@.mode == old(self)@.mode,
    {
        proof {
            use_type_invariant(&*self);
        }
        let prev = match self.selected {
            Some(i) => i,
            None => 0,
        };
        self.tasks = tasks;
        if self.tasks.len() == 0 {
            self.selected = None;
        } else {
            let last = self.tasks.len() - 1;
            self.selected = Some(if prev < last {
                prev
            } else {
                last
            });
        }
    }

    /// The tasks shown.
    pub fn tasks(&self) -> (r: &Vec<Task>)
        ensures
            r@ == self@.tasks,
    {
        &self.tasks
    }

    /// The highlighted row.
    pub fn selected(&self) -> (r: Option<usize>)
        ensures
            r == self@.selected,
    {
        self.selected
    }

    /// Moves the highlight, as drawing the list does when it clamps it.
    pub fn select(&mut self, index: Option<usize>)
        ensures
            final(self)@.selected == index,
            final(self)@.tasks == old(self)@.tasks,
            final(self)@.mode == old(self)@.mode,
    {
        proof {
            use_type_invariant(&*self);
        }
        self.selected = index;
    }

    /// What the screen shows.
    pub fn mode(&self) -> (r: &Mode)
        ensures
            *r == self@.mode,
            mode_wf(*r),
    {
        proof {
            use_type_invariant(self);
        }
        &self.mode
    }

    /// The id of the selected task, when the selection names a task.
    pub fn selected_id(&self) -> (r: Option<&str>)
        ensures
            match r {
                Some(id) => selected_task_id(self@) == Some(id@),
                None => selected_task_id(self@) is None,
            },
    {
        match self.selected {
            Some(i) => if i < self.tasks.len() {
                Some(self.tasks[i].id.0.as_str())
            } else {
                None
            },
            None => None,
        }
    }

    /// Reacts to `key`: moves the highlight, opens the detail view, asks to
    /// toggle or delete the selected task, or walks the new-task form.
    pub fn handle_key(&mut self, key: Key) -> (r: Option<Action>)
        ensures
            tasks_step(old(self)@, key, final(self)@, r),
            r matches Some(Action::CreateTask { title, description, .. }) ==> is_clean(title@) && (
            description matches Some(d) ==> is_clean(d@)),
    {
        proof {
            use_type_invariant(&*self);
        }
        let mut mode = Mode::Browsing;
        std::mem::swap(&mut mode, &mut self.mode);
        let ghost pre = old(self)@;
        assert(mode == pre.mode);
        let mut action: Option<Action> = None;
        let next: Mode = match mode {
            Mode::Browsing => {
                if key == Key::Char('j') || key == Key::Down {
                    self.selected = list_select_next(self.selected);
                    Mode::Browsing
                } else if key == Key::Char('k') || key == Key::Up {
                    self.selected = list_select_previous(self.selected);
                    Mode::Browsing
                } else if key == Key::Char('l') || key == Key::Right {
                    if self.selected.is_some() {
                        Mode::Expanded
                    } else {
                        Mode::Browsing
                    }
                } else if key == Key::Enter {
                    action = match self.selected_id() {
                        Some(id) => Some(Action::ToggleTask(id.to_owned())),
                        None => None,
                    };
                    Mode::Browsing
                } else if key == Key::Char('d') {
                    action = match self.selected_id() {
                        Some(id) => Some(Action::DeleteTask(id.to_owned())),
                        None => None,
                    };
                    Mode::Browsing
                } else if key == Key::Char('n') {
                    Mode::Creating(CreatingStep::Title(String::new()))
                } else if key == Key::Esc {
                    action = Some(Action::CloseTasks);
                    Mode::Browsing
                } else if key == Key::Char('q') {
                    action = Some(Action::Quit);
                    Mode::Browsing
                } else {
                    Mode::Browsing
                }
            },
            Mode::Expanded => {
                if key == Key::Char('h') || key == Key::Left || key == Key::Esc {
                    Mode::Browsing
                } else {
                    Mode::Expanded
                }
            },
            Mode::Creating(step) => match step {
                CreatingStep::Title(mut input) => match key {
                    Key::Char(c) => {
                        push_char(&mut input, c);
                        Mode::Creating(CreatingStep::Title(input))
                    },
                    Key::Backspace => {
                        pop_char(&mut input);
                        Mode::Creating(CreatingStep::Title(input))
                    },
                    Key::Enter => {
                        let title = trimmed_string(input.as_str());
                        if title.as_str().is_empty() {
                            Mode::Creating(CreatingStep::Title(input))
                        } else {
                            proof {
                                lemma_trimmed_is_clean(input@);
                            }
                            Mode::Creating(CreatingStep::Description { title, input: String::new() })
                        }
                    },
                    Key::Esc => Mode::Browsing,
                    _ => Mode::Creating(CreatingStep::Title(input)),
                },
                CreatingStep::Description { title, mut input } => match key {
                    Key::Char(c) => {
                        push_char(&mut input, c);
                        Mode::Creating(CreatingStep::Description { title, input })
                    },
                    Key::Backspace => {
                        pop_char(&mut input);
                        Mode::Creating(CreatingStep::Description { title, input })
                    },
                    Key::Enter => {
                        let text = trimmed_string(input.as_str());
                        let description = if text.as_str().is_empty() {
                            None
                        } else {
                            proof {
                                lemma_trimmed_is_clean(input@);
                            }
                            Some(text)
                        };
                        Mode::Creating(CreatingStep::Priority { title, description, cursor: 0 })
                    },
                    Key::Esc => Mode::Browsing,
                    _ => Mode::Creating(CreatingStep::Description { title, input }),
                },
                CreatingStep::Priority { title, description, cursor } => {
                    if key == Key::Char('j') || key == Key::Down {
                        let up = cursor + 1;
                        let cursor = if up < PRIORITY_LEVELS - 1 {
                            up
                        } else {
                            PRIORITY_LEVELS - 1
                        };
                        Mode::Creating(CreatingStep::Priority { title, description, cursor })
                    } else if key == Key::Char('k') || key == Key::Up {
                        let cursor = if cursor == 0 {
                            0
                        } else {
                            cursor - 1
                        };
                        Mode::Creating(CreatingStep::Priority { title, description, cursor })
                    } else if key == Key::Enter {
                        action = Some(
                            Action::CreateTask { title, description, priority: priority_at(cursor) },
                        );
                        Mode::Browsing
                    } else if key == Key::Esc {
                        Mode::Browsing
                    } else {
                        Mode::Creating(CreatingStep::Priority { title, description, cursor })
                    }
                },
            },
        };
        self.mode = next;
        action
    }
}

} // verus!
