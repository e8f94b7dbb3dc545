//! The list widget's selection state, as far as the role logic reads and
//! writes it.
//!
//! `tui::widgets::ListState` remembers which entry of a list is highlighted.
//! Verus cannot look inside it, so the highlighted entry gets a name here and
//! the two accessors are given contracts over that name.

use crate::app::{App, AppView};
use crate::role::{select_role, Role};
use tui::widgets::ListState;
use vstd::prelude::*;

verus! {

/// `tui::widgets::ListState`, carried as an opaque value.
#[verifier::external_type_specification]
#[verifier::external_body]
pub struct ExListState(ListState);

/// The entry that a `ListState` holds as highlighted, if any: the value of
/// its `selected` field.
pub uninterp spec fn highlighted(state: ListState) -> Option<usize>;

/// `ListState::selected` returns the `selected` field unchanged.
pub assume_specification[ ListState::selected ](state: &ListState) -> (index: Option<usize>)
    ensures
        index == highlighted(*state),
;

/// `ListState::select` stores `index` in the `selected` field (and resets the
/// scroll offset when `index` is `None`, which nothing here observes).
pub assume_specification[ ListState::select ](state: &mut ListState, index: Option<usize>)
    ensures
        highlighted(*final(state)) == index,
;

/// The mathematical index behind what a list widget highlights.
pub open spec fn widget_index(index: Option<usize>) -> Option<int> {
    match index {
        Some(i) => Some(i as int),
        None => None,
    }
}

impl From<&ListState> for Role {
    /// The role that the widget's highlighted entry stands for; a widget with
    /// nothing highlighted selects nothing.
    fn from(value: &ListState) -> (role: Role)
        ensures
            role == Role::of_index(widget_index(highlighted(*value))),
    {
        match value.selected() {
            Some(i) => {
                if i <= 1 {
                    select_role(Some(i as i64))
                } else {
                    Role::Unselected
                }
            },
            None => select_role(None),
        }
    }
}

impl vstd::std_specs::convert::FromSpecImpl<&ListState> for Role {
    open spec fn obeys_from_spec() -> bool {
        true
    }

    open spec fn from_spec(value: &ListState) -> Role {
        Role::of_index(widget_index(highlighted(*value)))
    }
}

/// What a list widget has to highlight for `state`: the selected entry while
/// the menu shows, nothing while a role is active.
pub open spec fn menu_highlight(state: AppView) -> Option<usize> {
    if state.role == Role::Unselected {
        Some(state.selection as usize)
    } else {
        None
    }
}

/// Makes `state` highlight what the application has selected.
pub fn show_selection(app: &App, state: &mut ListState)
    requires
        app.wf(),
    ensures
        highlighted(*final(state)) == menu_highlight(app@),
{
    match app.selection() {
        Some(index) => state.select(Some(index as usize)),
        None => state.select(None),
    }
}

} // verus!
