//! The analytics screen: weekly study time, the study blocks, and a subject
//! filter. Weeks are counted back from the current one (offset 0).

use vstd::prelude::*;

use super::selection::{
    list_select_next, list_select_previous, next_row, previous_row, table_select_next,
    table_select_previous,
};
use super::{Action, Key};
use crate::tui::model::{DailyStudyTime, StudyBlockWithSubject, SubjectId, SubjectStats};

verus! {

/// What the analytics screen is doing.
pub enum Mode {
    Browsing,
    /// Choosing a subject to filter by: row 0 is "all subjects", row `i + 1`
    /// is subject `i`.
    FilteringBySubject { selected: Option<usize> },
}

/// The value of an analytics screen.
pub struct AnalyticsState {
    pub blocks: Seq<StudyBlockWithSubject>,
    pub stats: Seq<DailyStudyTime>,
    pub subjects: Seq<SubjectStats>,
    pub active_filter: Option<SubjectId>,
    pub week_offset: i32,
    pub mode: Mode,
    pub selected: Option<usize>,
}

/// The analytics screen.
pub struct AnalyticsComponent {
    blocks: Vec<StudyBlockWithSubject>,
    stats: Vec<DailyStudyTime>,
    subjects: Vec<SubjectStats>,
    active_filter: Option<SubjectId>,
    week_offset: i32,
    mode: Mode,
    selected: Option<usize>,
}

impl View for AnalyticsComponent {
    type V = AnalyticsState;

    closed spec fn view(&self) -> AnalyticsState {
        AnalyticsState {
            blocks: self.blocks@,
            stats: self.stats@,
            subjects: self.subjects@,
            active_filter: self.active_filter,
            week_offset: self.week_offset,
            mode: self.mode,
            selected: self.selected,
        }
    }
}

/// `i` is the first position of `subjects` whose id reads `id`.
pub open spec fn first_with_id(subjects: Seq<SubjectStats>, id: Seq<char>, i: int) -> bool {
    &&& 0 <= i < subjects.len()
    &&& subjects[i].id.0@ == id
    &&& forall|j: int| 0 <= j < i ==> (#[trigger] subjects[j]).id.0@ != id
}

/// No subject's id reads `id`.
pub open spec fn none_with_id(subjects: Seq<SubjectStats>, id: Seq<char>) -> bool {
    forall|j: int| 0 <= j < subjects.len() ==> (#[trigger] subjects[j]).id.0@ != id
}

/// The filter row that shows the active filter: its subject's row, or row 0
/// ("all subjects") when there is no filter or no such subject.
pub open spec fn filter_row_of(s: AnalyticsState, row: usize) -> bool {
    match s.active_filter {
        Some(f) => if row == 0 {
            none_with_id(s.subjects, f.0@)
        } else {
            first_with_id(s.subjects, f.0@, row - 1)
        },
        None => row == 0,
    }
}

/// The id chosen at filter row `row`: none at row 0 or past the last subject.
pub open spec fn chosen_subject(s: AnalyticsState, row: usize) -> Option<String> {
    if row == 0 || row - 1 >= s.subjects.len() {
        None
    } else {
        Some(s.subjects[row - 1].id.0)
    }
}

/// The request for another week at `offset`, keeping the active filter.
pub open spec fn navigate_to(s: AnalyticsState, offset: int) -> Option<Action> {
    Some(
        Action::NavigateAnalyticsWeek {
            offset: offset as i32,
            subject_id: match s.active_filter {
                Some(f) => Some(f.0),
                None => None,
            },
        },
    )
}

/// The analytics screen on `key`: what it becomes and what it asks for.
pub open spec fn analytics_step(
    pre: AnalyticsState,
    key: Key,
    post: AnalyticsState,
    action: Option<Action>,
) -> bool {
    &&& post.blocks == pre.blocks
    &&& post.stats == pre.stats
    &&& post.subjects == pre.subjects
    &&& post.active_filter == pre.active_filter
    &&& post.week_offset == pre.week_offset
    &&& match pre.mode {
        Mode::Browsing => if key == Key::Char('j') || key == Key::Down {
            post.mode is Browsing && post.selected == Some(next_row(pre.selected)) && action is None
        } else if key == Key::Char('k') || key == Key::Up {
            post.mode is Browsing && post.selected == Some(previous_row(pre.selected))
                && action is None
        } else {
            &&& post.selected == pre.selected
            &&& if key == Key::Char('h') || key == Key::Left {
                post.mode is Browsing && action == navigate_to(pre, pre.week_offset - 1)
            } else if (key == Key::Char('l') || key == Key::Right) && pre.week_offset < 0 {
                post.mode is Browsing && action == navigate_to(pre, pre.week_offset + 1)
            } else if key == Key::Char('s') {
                &&& post.mode matches Mode::FilteringBySubject { selected: Some(row) }
                &&& filter_row_of(pre, post.mode->selected->0)
                &&& action is None
            } else if key == Key::Esc {
                post.mode is Browsing && action == Some(Action::CloseAnalytics)
            } else if key == Key::Char('q') {
                post.mode is Browsing && action == Some(Action::Quit)
            } else {
                post.mode is Browsing && action is None
            }
        },
        Mode::FilteringBySubject { selected } => {
            &&& post.selected == pre.selected
            &&& if key == Key::Char('j') || key == Key::Down {
                post.mode == (Mode::FilteringBySubject { selected: Some(next_row(selected)) })
                    && action is None
            } else if key == Key::Char('k') || key == Key::Up {
                post.mode == (Mode::FilteringBySubject { selected: Some(previous_row(selected)) })
                    && action is None
            } else if key == Key::Enter {
                let row = match selected {
                    Some(i) => i,
                    None => 0,
                };
                post.mode is Browsing && action == Some(
                    Action::FilterAnalyticsBySubject {
                        subject_id: chosen_subject(pre, row),
                        week_offset: pre.week_offset,
                    },
                )
            } else if key == Key::Esc {
                post.mode is Browsing && action is None
            } else {
                post.mode == (Mode::FilteringBySubject { selected }) && action is None
            }
        },
    }
}

impl AnalyticsComponent {
    /// The screen for the current week without a filter, the first block
    /// selected (none if there are no blocks).
    pub fn new(
        blocks: Vec<StudyBlockWithSubject>,
        stats: Vec<DailyStudyTime>,
        subjects: Vec<SubjectStats>,
    ) -> (r: Self)
        ensures
            r@.blocks == blocks@,
            r@.stats == stats@,
            r@.subjects == subjects@,
            r@.active_filter is None,
            r@.week_offset == 0,
            r@.mode is Browsing,
            r@.selected == (if blocks@.len() == 0 {
                None
            } else {
                Some(0usize)
            }),
    {
        let selected = if blocks.len() == 0 {
            None
        } else {
            Some(0)
        };
        AnalyticsComponent {
            blocks,
            stats,
            subjects,
            active_filter: None,
            week_offset: 0,
            mode: Mode::Browsing,
            selected,
        }
    }

    /// Shows `stats` for the week at `week_offset`, filtered by `filter`.
    pub fn update_stats(&mut self, stats: Vec<DailyStudyTime>, filter: Option<SubjectId>, week_offset: i32)
        ensures
            final(self)@ == (AnalyticsState {
                stats: stats@,
                active_filter: filter,
                week_offset,
                ..old(self)@
            }),
    {
        self.stats = stats;
        self.active_filter = filter;
        self.week_offset = week_offset;
    }

    /// The position of the first subject of the active filter, if any.
    fn filter_position(&self) -> (r: Option<usize>)
        ensures
            match self@.active_filter {
                Some(f) => match r {
                    Some(i) => first_with_id(self@.subjects, f.0@, i as int),
                    None => none_with_id(self@.subjects, f.0@),
                },
                None => r is None,
            },
    {
        match &self.active_filter {
            None => None,
            Some(id) => {
                let mut i: usize = 0;
                while i < self.subjects.len()
                    invariant
                        i <= self.subjects@.len(),
                        self.active_filter == Some(*id),
                        forall|j: int| 0 <= j < i ==> (#[trigger] self.subjects@[j]).id.0@ != id.0@,
                    decreases self.subjects.len() - i,
                {
                    if self.subjects[i].id.0 == id.0 {
                        return Some(i);
                    }
                    i = i + 1;
                }
                None
            },
        }
    }

    /// The subject of the active filter, if it is among the subjects.
    pub fn active_subject(&self) -> (r: Option<&SubjectStats>)
        ensures
            match self@.active_filter {
                Some(f) => match r {
                    Some(s) => exists|i: int|
                        first_with_id(self@.subjects, f.0@, i) && #[trigger] self@.subjects[i] == *s,
                    None => none_with_id(self@.subjects, f.0@),
                },
                None => r is None,
            },
    {
        match self.filter_position() {
            Some(i) => Some(&self.subjects[i]),
            None => None,
        }
    }

    /// The request to filter by `subject_id` (none: all subjects) in the current week.
    pub fn filter_action(&self, subject_id: Option<String>) -> (r: Action)
        ensures
            r == (Action::FilterAnalyticsBySubject { subject_id, week_offset: self@.week_offset }),
    {
        Action::FilterAnalyticsBySubject { subject_id, week_offset: self.week_offset }
    }

    /// The request for the week at `offset`, keeping the active filter.
    pub fn navigate_action(&self, offset: i32) -> (r: Action)
        ensures
            Some(r) == navigate_to(self@, offset as int),
    {
        Action::NavigateAnalyticsWeek {
            offset,
            subject_id: match &self.active_filter {
                Some(id) => Some(id.0.clone()),
                None => None,
            },
        }
    }

    /// The study blocks shown.
    pub fn blocks(&self) -> (r: &Vec<StudyBlockWithSubject>)
        ensures
            r@ == self@.blocks,
    {
        &self.blocks
    }

    /// The daily totals shown.
    pub fn stats(&self) -> (r: &Vec<DailyStudyTime>)
        ensures
            r@ == self@.stats,
    {
        &self.stats
    }

    /// The subjects the filter offers.
    pub fn subjects(&self) -> (r: &Vec<SubjectStats>)
        ensures
            r@ == self@.subjects,
    {
        &self.subjects
    }

    /// The subject filter, if any.
    pub fn active_filter(&self) -> (r: Option<&SubjectId>)
        ensures
            match r {
                Some(f) => self@.active_filter == Some(*f),
                None => self@.active_filter is None,
            },
    {
        match &self.active_filter {
            Some(f) => Some(f),
            None => None,
        }
    }

    /// The week shown, counted back from the current one.
    pub fn week_offset(&self) -> (r: i32)
        ensures
            r == self@.week_offset,
    {
        self.week_offset
    }

    /// What the screen is doing.
    pub fn mode(&self) -> (r: &Mode)
        ensures
            *r == self@.mode,
    {
        &self.mode
    }

    /// The highlighted block.
    pub fn selected_row(&self) -> (r: Option<usize>)
        ensures
            r == self@.selected,
    {
        self.selected
    }

    /// Moves the highlighted block, as drawing the table does when it clamps it.
    pub fn select(&mut self, index: Option<usize>)
        ensures
            final(self)@ == (AnalyticsState { selected: index, ..old(self)@ }),
    {
        self.selected = index;
    }

    /// Moves the highlighted filter row, as drawing the filter list does
    /// when it clamps it; nothing when the filter is closed.
    pub fn select_filter_row(&mut self, index: Option<usize>)
        ensures
            old(self)@.mode is FilteringBySubject ==> final(self)@ == (AnalyticsState {
                mode: Mode::FilteringBySubject { selected: index },
                ..old(self)@
            }),
            old(self)@.mode is Browsing ==> final(self)@ == old(self)@,
    {
        if let Mode::FilteringBySubject { .. } = &self.mode {
            self.mode = Mode::FilteringBySubject { selected: index };
        }
    }

    /// Reacts to `key`: scrolls the blocks, asks for an earlier or later
    /// week (never past the current one), opens the subject filter, or asks
    /// to filter by the chosen subject.
    pub fn handle_key(&mut self, key: Key) -> (r: Option<Action>)
        requires
            !(old(self)@.mode is Browsing && (key == Key::Char('h') || key == Key::Left)
                && old(self)@.week_offset == i32::MIN),
        ensures
            analytics_step(old(self)@, key, final(self)@, r),
            r matches Some(Action::NavigateAnalyticsWeek { offset, .. }) ==> (old(self)@.week_offset
                <= 0 ==> offset <= 0),
    {
        let ghost pre = self@;
        let mut action: Option<Action> = None;
        let next: Mode = match &self.mode {
            Mode::Browsing => {
                if key == Key::Char('j') || key == Key::Down {
                    self.selected = table_select_next(self.selected);
                } else if key == Key::Char('k') || key == Key::Up {
                    self.selected = table_select_previous(self.selected);
                } else if key == Key::Char('h') || key == Key::Left {
                    action = Some(self.navigate_action(self.week_offset - 1));
                } else if (key == Key::Char('l') || key == Key::Right) && self.week_offset < 0 {
                    action = Some(self.navigate_action(self.week_offset + 1));
                } else if key == Key::Char('s') {
                    let len = self.subjects.len();
                    let row = match self.filter_position() {
                        Some(i) => {
                            assert(i < len);
                            i + 1
                        },
                        None => 0,
                    };
                    self.mode = Mode::FilteringBySubject { selected: Some(row) };
                    return action;
                } else if key == Key::Esc {
                    action = Some(Action::CloseAnalytics);
                } else if key == Key::Char('q') {
                    action = Some(Action::Quit);
                }
                Mode::Browsing
            },
            Mode::FilteringBySubject { selected } => {
                let selected = *selected;
                if key == Key::Char('j') || key == Key::Down {
                    Mode::FilteringBySubject { selected: list_select_next(selected) }
                } else if key == Key::Char('k') || key == Key::Up {
                    Mode::FilteringBySubject { selected: list_select_previous(selected) }
                } else if key == Key::Enter {
                    let row = match selected {
                        Some(i) => i,
                        None => 0,
                    };
                    let subject_id = if row == 0 || row - 1 >= self.subjects.len() {
                        None
                    } else {
                        Some(self.subjects[row - 1].id.0.clone())
                    };
                    action = Some(self.filter_action(subject_id));
                    Mode::Browsing
                } else if key == Key::Esc {
                    Mode::Browsing
                } else {
                    Mode::FilteringBySubject { selected }
                }
            },
        };
        self.mode = next;
        action
    }
}

} // verus!
