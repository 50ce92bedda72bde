use vstd::prelude::*;

verus! {

/// What a close request leads to.
#[derive(Clone, Copy, Debug, PartialEq, Eq, Structural)]
pub enum Action {
    /// The window is hidden and the process keeps running behind its tray icon.
    Hide,
    /// The process ends.
    Terminate,
}

/// The rule of the close handler: a set preference hides, a cleared one terminates.
pub open spec fn close_action(close_to_tray: bool) -> Action {
    if close_to_tray {
        Action::Hide
    } else {
        Action::Terminate
    }
}

impl Action {
    /// Decides a close request from the preference value that was read.
    pub fn for_preference(close_to_tray: bool) -> (action: Action)
        ensures
            action == close_action(close_to_tray),
    {
        if close_to_tray {
            Action::Hide
        } else {
            Action::Terminate
        }
    }
}

} // verus!
