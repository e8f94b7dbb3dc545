//! The role of the process and how a menu index picks one.

use vstd::prelude::*;

verus! {

/// What the process currently is.
///
/// `Unselected` is both the initial value and the value every session ends
/// in; `Server` and `Client` are only ever entered from `Unselected`.
#[derive(Clone, Copy, Debug, PartialEq, Eq, Structural)]
pub enum Role {
    Client,
    Server,
    Unselected,
}

impl Role {
    /// The role that the menu entry at `index` stands for: the first entry is
    /// the server, the second the client, and every other index, like no
    /// index at all, selects nothing.
    pub open spec fn of_index(index: Option<int>) -> Role {
        match index {
            Some(i) => if i == 0 {
                Role::Server
            } else if i == 1 {
                Role::Client
            } else {
                Role::Unselected
            },
            None => Role::Unselected,
        }
    }

    /// True for the two roles that own a network session.
    pub open spec fn is_active(self) -> bool {
        self != Role::Unselected
    }

    /// Executable form of [`Role::is_active`].
    pub fn active(self) -> (r: bool)
        ensures
            r == self.is_active(),
    {
        match self {
            Role::Unselected => false,
            _ => true,
        }
    }
}

impl Default for Role {
    fn default() -> (r: Role)
        ensures
            r == Role::Unselected,
    {
        Role::Unselected
    }
}

/// The mathematical index behind an optional machine index.
pub open spec fn index_value(index: Option<i64>) -> Option<int> {
    match index {
        Some(i) => Some(i as int),
        None => None,
    }
}

/// Maps the highlighted menu index to a role. Total: an index that is
/// negative, past the second entry, or absent yields `Role::Unselected`.
pub fn select_role(current_index: Option<i64>) -> (role: Role)
    ensures
        role == Role::of_index(index_value(current_index)),
{
    match current_index {
        Some(0) => Role::Server,
        Some(1) => Role::Client,
        _ => Role::Unselected,
    }
}

} // verus!
