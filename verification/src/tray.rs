use crate::window::effects_of;
use crate::window::quit_effects;
use crate::window::reveal_effects;
use crate::window::toggle_effects;
use crate::window::Effect;
use crate::window::Event;
use crate::window::WindowState;
use crate::window::EXIT_STATUS;
use vstd::prelude::*;
use vstd::string::StringExecFns;

verus! {

/// The identifier of the tray icon.
pub const TRAY_ID: &'static str = "main-tray";

/// The text shown when the pointer rests on the tray icon.
pub const TRAY_TOOLTIP: &'static str = "Torn Status Widget";

/// The label of the window that the tray acts on.
pub const MAIN_WINDOW: &'static str = "main";

/// The identifier of the menu entry that brings the window back.
pub const SHOW_WIDGET_ID: &'static str = "show_widget";

/// The identifier of the menu entry that ends the application.
pub const QUIT_APP_ID: &'static str = "quit_app";

/// The text of the menu entry that brings the window back.
pub const SHOW_WIDGET_LABEL: &'static str = "Show Widget";

/// The text of the menu entry that ends the application.
pub const QUIT_APP_LABEL: &'static str = "Quit";

/// One line of the tray's context menu.
#[derive(Clone, Copy, Debug, PartialEq, Eq)]
pub enum MenuEntry {
    /// An entry that can be chosen: the identifier that its click reports, and its text.
    Item { id: &'static str, label: &'static str },
    /// A dividing line.
    Separator,
}

/// What choosing an entry of the tray menu asks for.
#[derive(Clone, Copy, Debug, PartialEq, Eq, Structural)]
pub enum MenuCommand {
    ShowWidget,
    QuitApp,
}

/// A button of the pointer.
#[derive(Clone, Copy, Debug, PartialEq, Eq, Structural)]
pub enum MouseButton {
    Left,
    Right,
    Middle,
}

/// The command that a menu identifier stands for, if any.
pub open spec fn command_of(id: Seq<char>) -> Option<MenuCommand> {
    if id == SHOW_WIDGET_ID@ {
        Some(MenuCommand::ShowWidget)
    } else if id == QUIT_APP_ID@ {
        Some(MenuCommand::QuitApp)
    } else {
        None
    }
}

/// The event that a menu command raises.
pub open spec fn event_of(command: MenuCommand) -> Event {
    match command {
        MenuCommand::ShowWidget => Event::TrayShow,
        MenuCommand::QuitApp => Event::TrayQuit,
    }
}

/// The requests that carry a menu command out.
pub open spec fn command_effects(command: MenuCommand) -> Seq<Effect> {
    match command {
        MenuCommand::ShowWidget => reveal_effects(),
        MenuCommand::QuitApp => quit_effects(),
    }
}

/// The requests that a click on the menu entry `id` leads to: those of the entry's command, or
/// none where the identifier is not one of the menu's.
pub open spec fn menu_effects(id: Seq<char>) -> Seq<Effect> {
    match command_of(id) {
        Some(command) => command_effects(command),
        None => Seq::<Effect>::empty(),
    }
}

/// The requests that a click on the tray icon leads to: the left button toggles the window,
/// the others do nothing.
pub open spec fn click_effects(button: MouseButton, window: WindowState) -> Seq<Effect> {
    match button {
        MouseButton::Left => toggle_effects(window),
        _ => Seq::<Effect>::empty(),
    }
}

/// Whether `entries` is the tray's menu: show, a dividing line, quit.
pub open spec fn is_tray_menu(entries: Seq<MenuEntry>) -> bool {
    &&& entries.len() == 3
    &&& entries[0] matches MenuEntry::Item { id, label } && id@ == SHOW_WIDGET_ID@ && label@
        == SHOW_WIDGET_LABEL@
    &&& entries[1] is Separator
    &&& entries[2] matches MenuEntry::Item { id, label } && id@ == QUIT_APP_ID@ && label@
        == QUIT_APP_LABEL@
}

/// The tray's context menu, top to bottom.
pub fn tray_menu() -> (entries: Vec<MenuEntry>)
    ensures
        is_tray_menu(entries@),
{
    vec![
        MenuEntry::Item { id: SHOW_WIDGET_ID, label: SHOW_WIDGET_LABEL },
        MenuEntry::Separator,
        MenuEntry::Item { id: QUIT_APP_ID, label: QUIT_APP_LABEL },
    ]
}

/// Reads a menu identifier.
pub fn menu_command(id: &str) -> (command: Option<MenuCommand>)
    ensures
        command == command_of(id@),
{
    let given = id.to_owned();
    if given == String::from_str(SHOW_WIDGET_ID) {
        Some(MenuCommand::ShowWidget)
    } else if given == String::from_str(QUIT_APP_ID) {
        Some(MenuCommand::QuitApp)
    } else {
        None
    }
}

impl MenuCommand {
    /// The event that the command raises.
    pub fn event(self) -> (event: Event)
        ensures
            event == event_of(self),
    {
        match self {
            MenuCommand::ShowWidget => Event::TrayShow,
            MenuCommand::QuitApp => Event::TrayQuit,
        }
    }

    /// The requests that carry the command out.
    pub fn effects(self) -> (effects: Vec<Effect>)
        ensures
            effects@ == command_effects(self),
    {
        match self {
            MenuCommand::ShowWidget => vec![Effect::ShowWindow, Effect::FocusWindow],
            MenuCommand::QuitApp => vec![Effect::Exit(EXIT_STATUS)],
        }
    }
}

/// Answers a click on the menu entry `id`.
pub fn on_menu_event(id: &str) -> (effects: Vec<Effect>)
    ensures
        effects@ == menu_effects(id@),
{
    match menu_command(id) {
        Some(command) => command.effects(),
        None => Vec::new(),
    }
}

/// Answers a click on the tray icon. `visible` is what the host said when asked whether the
/// window is on screen, `None` where it could not say.
pub fn on_tray_click(button: MouseButton, visible: Option<bool>) -> (effects: Vec<Effect>)
    ensures
        effects@ == click_effects(button, WindowState::from_query_spec(visible)),
{
    match button {
        MouseButton::Left => match WindowState::from_query(visible) {
            WindowState::Visible => vec![Effect::HideWindow],
            WindowState::Hidden => vec![Effect::ShowWindow, Effect::FocusWindow],
        },
        _ => Vec::new(),
    }
}

/// Each entry of the menu is wired to its own command: the identifier of the first stands for
/// showing the widget, that of the last for quitting.
pub proof fn menu_entries_are_wired(entries: Seq<MenuEntry>)
    requires
        is_tray_menu(entries),
    ensures
        entries[0] matches MenuEntry::Item { id, .. } && command_of(id@) == Some(
            MenuCommand::ShowWidget,
        ),
        entries[2] matches MenuEntry::Item { id, .. } && command_of(id@) == Some(
            MenuCommand::QuitApp,
        ),
{
    reveal_strlit("show_widget");
    reveal_strlit("quit_app");
    assert(SHOW_WIDGET_ID@.len() != QUIT_APP_ID@.len());
}

/// A menu command asks of the host what its event asks in the state machine, whatever the
/// window's state and whatever the preference.
pub proof fn command_effects_are_event_effects(
    command: MenuCommand,
    window: WindowState,
    close_to_tray: bool,
)
    ensures
        command_effects(command) == effects_of(window, event_of(command), close_to_tray),
{
}

/// A left click on the tray icon asks of the host what the state machine asks on that event,
/// whatever the preference.
pub proof fn left_click_effects_are_event_effects(window: WindowState, close_to_tray: bool)
    ensures
        click_effects(MouseButton::Left, window) == effects_of(
            window,
            Event::TrayLeftClick,
            close_to_tray,
        ),
{
}

} // verus!
