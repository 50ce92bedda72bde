use crate::action::close_action;
use crate::action::Action;
use vstd::prelude::*;

verus! {

/// The exit status with which the application ends.
pub const EXIT_STATUS: i32 = 0;

/// Whether the widget's window is on screen.
#[derive(Clone, Copy, Debug, PartialEq, Eq, Structural)]
pub enum WindowState {
    Visible,
    Hidden,
}

/// What the user can do to the window and the tray.
#[derive(Clone, Copy, Debug, PartialEq, Eq, Structural)]
pub enum Event {
    /// The window was asked to close.
    CloseRequested,
    /// The tray menu's entry that brings the window back was chosen.
    TrayShow,
    /// The tray menu's entry that ends the application was chosen.
    TrayQuit,
    /// The tray icon was clicked with the left button.
    TrayLeftClick,
}

/// One request to the windowing host. The host carries the requests of a list out in order;
/// one that fails is reported and the ones after it are still carried out.
#[derive(Clone, Copy, Debug, PartialEq, Eq, Structural)]
pub enum Effect {
    ShowWindow,
    FocusWindow,
    HideWindow,
    /// Veto the close that is under way, so that the window survives it.
    PreventClose,
    /// End the process with this status.
    Exit(i32),
    /// Report that the preference lock was found poisoned.
    ReportPoisonedLock,
}

/// Where the application stands: running with its window in some state, or ended with a
/// status.
#[derive(Clone, Copy, Debug, PartialEq, Eq, Structural)]
pub enum Stage {
    Running(WindowState),
    Terminated(i32),
}

/// The decision taken on an event: where the application goes and what the host is asked to do.
#[derive(Debug, PartialEq, Eq)]
pub struct Transition {
    pub next: Stage,
    pub effects: Vec<Effect>,
}

/// The other state of the window.
pub open spec fn toggled(window: WindowState) -> WindowState {
    match window {
        WindowState::Visible => WindowState::Hidden,
        WindowState::Hidden => WindowState::Visible,
    }
}

/// The stage that follows `event` when the window is in state `window` and the close-to-tray
/// preference reads `close_to_tray`. Only a close request looks at the preference, and only a
/// click on the tray icon looks at the window.
pub open spec fn next_stage(window: WindowState, event: Event, close_to_tray: bool) -> Stage {
    match event {
        Event::CloseRequested => match close_action(close_to_tray) {
            Action::Hide => Stage::Running(WindowState::Hidden),
            Action::Terminate => Stage::Terminated(EXIT_STATUS),
        },
        Event::TrayShow => Stage::Running(WindowState::Visible),
        Event::TrayQuit => Stage::Terminated(EXIT_STATUS),
        Event::TrayLeftClick => Stage::Running(toggled(window)),
    }
}

/// The requests that bring the window into view: show it, then give it the focus.
pub open spec fn reveal_effects() -> Seq<Effect> {
    seq![Effect::ShowWindow, Effect::FocusWindow]
}

/// The request that ends the application.
pub open spec fn quit_effects() -> Seq<Effect> {
    seq![Effect::Exit(EXIT_STATUS)]
}

/// The requests that carry out a close decision: hiding also vetoes the close.
pub open spec fn action_effects(action: Action) -> Seq<Effect> {
    match action {
        Action::Hide => seq![Effect::HideWindow, Effect::PreventClose],
        Action::Terminate => quit_effects(),
    }
}

/// The requests that flip the window between its two states.
pub open spec fn toggle_effects(window: WindowState) -> Seq<Effect> {
    match window {
        WindowState::Visible => seq![Effect::HideWindow],
        WindowState::Hidden => reveal_effects(),
    }
}

/// The requests made of the host on `event`, in order.
pub open spec fn effects_of(window: WindowState, event: Event, close_to_tray: bool) -> Seq<
    Effect,
> {
    match event {
        Event::CloseRequested => action_effects(close_action(close_to_tray)),
        Event::TrayShow => reveal_effects(),
        Event::TrayQuit => quit_effects(),
        Event::TrayLeftClick => toggle_effects(window),
    }
}

/// What one request does to the stage when the host carries it out. Nothing happens any more
/// once the process has ended.
pub open spec fn perform(stage: Stage, effect: Effect) -> Stage {
    match stage {
        Stage::Terminated(_) => stage,
        Stage::Running(_) => match effect {
            Effect::ShowWindow => Stage::Running(WindowState::Visible),
            Effect::HideWindow => Stage::Running(WindowState::Hidden),
            Effect::Exit(status) => Stage::Terminated(status),
            _ => stage,
        },
    }
}

/// The stage after the host has carried out all of `effects`, first to last.
pub open spec fn perform_all(stage: Stage, effects: Seq<Effect>) -> Stage
    decreases effects.len(),
{
    if effects.len() == 0 {
        stage
    } else {
        perform(perform_all(stage, effects.drop_last()), effects.last())
    }
}

/// How often `effect` stands in `effects`.
pub open spec fn count_of(effects: Seq<Effect>, effect: Effect) -> nat
    decreases effects.len(),
{
    if effects.len() == 0 {
        0
    } else {
        count_of(effects.drop_last(), effect) + if effects.last() == effect {
            1nat
        } else {
            0nat
        }
    }
}

impl WindowState {
    /// The state that the host's answer to a visibility query stands for. A query that
    /// failed (`None`) counts as a hidden window.
    pub open spec fn from_query_spec(visible: Option<bool>) -> WindowState {
        if visible == Some(true) {
            WindowState::Visible
        } else {
            WindowState::Hidden
        }
    }

    /// Reads a window state off the host's answer to a visibility query.
    pub fn from_query(visible: Option<bool>) -> (window: WindowState)
        ensures
            window == Self::from_query_spec(visible),
    {
        match visible {
            Some(true) => WindowState::Visible,
            _ => WindowState::Hidden,
        }
    }
}

/// The requests that carry out `action` on a close request.
pub fn effects_for_action(action: Action) -> (effects: Vec<Effect>)
    ensures
        effects@ == action_effects(action),
{
    match action {
        Action::Hide => vec![Effect::HideWindow, Effect::PreventClose],
        Action::Terminate => vec![Effect::Exit(EXIT_STATUS)],
    }
}

/// Decides what follows `event` for a window in state `window`, with the preference value
/// `close_to_tray` as it was read for this event.
pub fn step(window: WindowState, event: Event, close_to_tray: bool) -> (transition: Transition)
    ensures
        transition.next == next_stage(window, event, close_to_tray),
        transition.effects@ == effects_of(window, event, close_to_tray),
{
    match event {
        Event::CloseRequested => {
            let action = Action::for_preference(close_to_tray);
            let next = match action {
                Action::Hide => Stage::Running(WindowState::Hidden),
                Action::Terminate => Stage::Terminated(EXIT_STATUS),
            };
            Transition { next, effects: effects_for_action(action) }
        },
        Event::TrayShow => Transition {
            next: Stage::Running(WindowState::Visible),
            effects: vec![Effect::ShowWindow, Effect::FocusWindow],
        },
        Event::TrayQuit => Transition {
            next: Stage::Terminated(EXIT_STATUS),
            effects: vec![Effect::Exit(EXIT_STATUS)],
        },
        Event::TrayLeftClick => match window {
            WindowState::Visible => Transition {
                next: Stage::Running(WindowState::Hidden),
                effects: vec![Effect::HideWindow],
            },
            WindowState::Hidden => Transition {
                next: Stage::Running(WindowState::Visible),
                effects: vec![Effect::ShowWindow, Effect::FocusWindow],
            },
        },
    }
}

/// Carrying out the requests of an event, in order and each with success, takes a running
/// application to the stage that the transition names.
pub proof fn effects_realise_transition(window: WindowState, event: Event, close_to_tray: bool)
    ensures
        perform_all(Stage::Running(window), effects_of(window, event, close_to_tray))
            == next_stage(window, event, close_to_tray),
{
    let effects = effects_of(window, event, close_to_tray);
    reveal_with_fuel(perform_all, 3);
    if effects.len() == 2 {
        assert(effects.drop_last().len() == 1);
        assert(effects.drop_last().drop_last().len() == 0);
        assert(effects.drop_last().last() == effects[0]);
    } else {
        assert(effects.len() == 1);
        assert(effects.drop_last().len() == 0);
    }
}

/// A close request with the preference set hides the window and vetoes the close: the
/// application keeps running, and nothing asks the process to end.
pub proof fn close_with_preference_set_hides(window: WindowState)
    ensures
        next_stage(window, Event::CloseRequested, true) == Stage::Running(WindowState::Hidden),
        effects_of(window, Event::CloseRequested, true) == seq![
            Effect::HideWindow,
            Effect::PreventClose,
        ],
        forall|status: i32|
            count_of(effects_of(window, Event::CloseRequested, true), Effect::Exit(status)) == 0,
{
    let effects = effects_of(window, Event::CloseRequested, true);
    reveal_with_fuel(count_of, 3);
    assert(effects.drop_last().len() == 1);
    assert(effects.drop_last().drop_last().len() == 0);
}

/// A close request with the preference cleared ends the process with status 0, and the close
/// is not vetoed.
pub proof fn close_with_preference_cleared_terminates(window: WindowState)
    ensures
        next_stage(window, Event::CloseRequested, false) == Stage::Terminated(0),
        effects_of(window, Event::CloseRequested, false) == seq![Effect::Exit(0)],
{
}

/// Quitting from the tray ends the process with status 0, whatever the window's state and
/// whatever the preference.
pub proof fn tray_quit_always_terminates(window: WindowState, close_to_tray: bool)
    ensures
        next_stage(window, Event::TrayQuit, close_to_tray) == Stage::Terminated(0),
        effects_of(window, Event::TrayQuit, close_to_tray) == seq![Effect::Exit(0)],
{
}

/// Showing a hidden window from the tray makes it visible and then asks for the focus,
/// whatever the preference.
pub proof fn tray_show_reveals_hidden_window(close_to_tray: bool)
    ensures
        next_stage(WindowState::Hidden, Event::TrayShow, close_to_tray) == Stage::Running(
            WindowState::Visible,
        ),
        effects_of(WindowState::Hidden, Event::TrayShow, close_to_tray) == seq![
            Effect::ShowWindow,
            Effect::FocusWindow,
        ],
{
}

} // verus!
