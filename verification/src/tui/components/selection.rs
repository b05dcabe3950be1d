//! Moving the highlighted row of a list or a table, as ratatui's
//! `ListState` and `TableState` move it. The index is not bounded by the
//! number of rows: ratatui clamps it when it draws.

use vstd::prelude::*;

use ratatui::widgets::{ListState, TableState};

verus! {

/// The row after `selected`: the first row when none is selected.
pub open spec fn next_row(selected: Option<usize>) -> usize {
    match selected {
        None => 0,
        Some(i) => if i == usize::MAX { i } else { (i + 1) as usize },
    }
}

/// The row before `selected`: `usize::MAX` (the last row, once clamped)
/// when none is selected.
pub open spec fn previous_row(selected: Option<usize>) -> usize {
    match selected {
        None => usize::MAX,
        Some(i) => if i == 0 { 0 } else { (i - 1) as usize },
    }
}

/// The highlighted row after a new list replaces the old one: the previous
/// row (the first if none), clamped to the last row; none for an empty list.
pub open spec fn reselected(previous: Option<usize>, len: nat) -> Option<usize> {
    if len == 0 {
        None
    } else {
        let prev = match previous {
            Some(i) => i as int,
            None => 0,
        };
        Some(if prev < len - 1 { prev as usize } else { (len - 1) as usize })
    }
}

/// After a new list replaces the old one, a row is highlighted exactly when
/// the list has rows, and it is one of them.
pub proof fn lemma_reselected_in_bounds(previous: Option<usize>, len: nat)
    ensures
        reselected(previous, len) is None <==> len == 0,
        reselected(previous, len) matches Some(i) ==> i < len,
{
}

/// ratatui: `ListState::select_next` on a list state whose selection is
/// `selected`; the selection becomes the next row (saturating), or the first
/// row when there was none.
#[verifier::external_body]
pub(crate) fn list_select_next(selected: Option<usize>) -> (r: Option<usize>)
    ensures
        r == Some(next_row(selected)),
{
    let mut state = ListState::default().with_selected(selected);
    state.select_next();
    state.selected()
}

/// ratatui: `ListState::select_previous` on a list state whose selection is
/// `selected`; the selection becomes the previous row (saturating at 0), or
/// `usize::MAX` when there was none.
#[verifier::external_body]
pub(crate) fn list_select_previous(selected: Option<usize>) -> (r: Option<usize>)
    ensures
        r == Some(previous_row(selected)),
{
    let mut state = ListState::default().with_selected(selected);
    state.select_previous();
    state.selected()
}

/// ratatui: `TableState::select_next` on a table state whose selected row is
/// `selected`; same rule as for lists.
#[verifier::external_body]
pub(crate) fn table_select_next(selected: Option<usize>) -> (r: Option<usize>)
    ensures
        r == Some(next_row(selected)),
{
    let mut state = TableState::default().with_selected(selected);
    state.select_next();
    state.selected()
}

/// ratatui: `TableState::select_previous` on a table state whose selected row
/// is `selected`; same rule as for lists.
#[verifier::external_body]
pub(crate) fn table_select_previous(selected: Option<usize>) -> (r: Option<usize>)
    ensures
        r == Some(previous_row(selected)),
{
    let mut state = TableState::default().with_selected(selected);
    state.select_previous();
    state.selected()
}

} // verus!
