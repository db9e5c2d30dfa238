//! The tray icon: what its menu holds, what a menu entry does, and whether a
//! click on the icon shows or hides the main window.
//!
//! The caller owns the icon and the window. It tells the tray state what
//! happened and does what the state answers.

use vstd::prelude::*;

verus! {

/// The labels of the tray menu, in the user's language.
#[derive(Debug, Clone, PartialEq, Eq)]
pub struct Tray {
    pub settings: String,
    pub check_update: String,
    pub about: String,
    pub restart: String,
    pub exit: String,
    pub clipboard_monitor: String,
}

/// Mathematical value of a [`Tray`].
pub struct TrayView {
    pub settings: Seq<char>,
    pub check_update: Seq<char>,
    pub about: Seq<char>,
    pub restart: Seq<char>,
    pub exit: Seq<char>,
    pub clipboard_monitor: Seq<char>,
}

impl View for Tray {
    type V = TrayView;

    open spec fn view(&self) -> TrayView {
        TrayView {
            settings: self.settings@,
            check_update: self.check_update@,
            about: self.about@,
            restart: self.restart@,
            exit: self.exit@,
            clipboard_monitor: self.clipboard_monitor@,
        }
    }
}

/// The labels that are used where no language file is found.
pub open spec fn default_labels() -> TrayView {
    TrayView {
        settings: "设置"@,
        check_update: "检查更新"@,
        about: "关于"@,
        restart: "重启"@,
        exit: "退出"@,
        clipboard_monitor: "剪贴板监听"@,
    }
}

impl Tray {
    /// The labels that are used where no language file is found.
    pub fn fallback() -> (labels: Tray)
        ensures
            labels@ == default_labels(),
    {
        Tray {
            settings: "设置".to_owned(),
            check_update: "检查更新".to_owned(),
            about: "关于".to_owned(),
            restart: "重启".to_owned(),
            exit: "退出".to_owned(),
            clipboard_monitor: "剪贴板监听".to_owned(),
        }
    }
}

/// The labels to build the menu with: those that were loaded, or the default
/// ones where none were.
pub fn load_language(loaded: Option<Tray>) -> (labels: Tray)
    ensures
        labels@ == match loaded {
            Some(l) => l@,
            None => default_labels(),
        },
{
    match loaded {
        Some(l) => l,
        None => Tray::fallback(),
    }
}

/// One line of the tray menu.
#[derive(Debug, Clone, PartialEq, Eq)]
pub enum MenuEntry {
    /// An entry to click.
    Item { id: String, label: String },
    /// An entry with a check mark.
    Check { id: String, label: String, checked: bool },
    /// A line between groups of entries.
    Separator,
}

/// Mathematical value of a [`MenuEntry`].
pub enum MenuEntryView {
    Item { id: Seq<char>, label: Seq<char> },
    Check { id: Seq<char>, label: Seq<char>, checked: bool },
    Separator,
}

impl View for MenuEntry {
    type V = MenuEntryView;

    open spec fn view(&self) -> MenuEntryView {
        match self {
            MenuEntry::Item { id, label } => MenuEntryView::Item { id: id@, label: label@ },
            MenuEntry::Check { id, label, checked } => MenuEntryView::Check {
                id: id@,
                label: label@,
                checked: *checked,
            },
            MenuEntry::Separator => MenuEntryView::Separator,
        }
    }
}

/// The lines of a menu, each by its value.
pub open spec fn entries_view(entries: Seq<MenuEntry>) -> Seq<MenuEntryView> {
    Seq::new(entries.len(), |i: int| entries[i]@)
}

/// The tray menu: settings, the listener's check mark, a separator, the update
/// check, the about box, a separator, restart and exit.
pub open spec fn menu_layout(labels: TrayView, listening: bool) -> Seq<MenuEntryView> {
    seq![
        MenuEntryView::Item { id: "settings"@, label: labels.settings },
        MenuEntryView::Check {
            id: "clipboard_monitor"@,
            label: labels.clipboard_monitor,
            checked: listening,
        },
        MenuEntryView::Separator,
        MenuEntryView::Item { id: "check_update"@, label: labels.check_update },
        MenuEntryView::Item { id: "about"@, label: labels.about },
        MenuEntryView::Separator,
        MenuEntryView::Item { id: "restart"@, label: labels.restart },
        MenuEntryView::Item { id: "exit"@, label: labels.exit },
    ]
}

/// The lines of the tray menu, top to bottom. The listener's entry is checked
/// while the listener runs.
pub fn menu_entries(labels: &Tray, listening: bool) -> (entries: Vec<MenuEntry>)
    ensures
        entries_view(entries@) == menu_layout(labels@, listening),
{
    let mut entries: Vec<MenuEntry> = Vec::new();
    entries.push(MenuEntry::Item { id: "settings".to_owned(), label: labels.settings.clone() });
    entries.push(
        MenuEntry::Check {
            id: "clipboard_monitor".to_owned(),
            label: labels.clipboard_monitor.clone(),
            checked: listening,
        },
    );
    entries.push(MenuEntry::Separator);
    entries.push(
        MenuEntry::Item { id: "check_update".to_owned(), label: labels.check_update.clone() },
    );
    entries.push(MenuEntry::Item { id: "about".to_owned(), label: labels.about.clone() });
    entries.push(MenuEntry::Separator);
    entries.push(MenuEntry::Item { id: "restart".to_owned(), label: labels.restart.clone() });
    entries.push(MenuEntry::Item { id: "exit".to_owned(), label: labels.exit.clone() });
    assert(entries_view(entries@) =~= menu_layout(labels@, listening));
    entries
}

/// What choosing a menu entry asks for.
#[derive(Debug, Clone, Copy, PartialEq, Eq, Structural)]
pub enum MenuAction {
    /// Tell the window to open the settings page.
    OpenSettings,
    /// Stop the clipboard listener.
    StopListening,
    /// Start the clipboard listener.
    StartListening,
    /// Tell the window to look for an update.
    CheckUpdate,
    /// Tell the window to open the about box.
    OpenAbout,
    /// Leave, then start the application again.
    Restart,
    /// Leave.
    Exit,
    /// The entry is not one of the menu's.
    Unhandled,
}

/// What the entry with the identifier `id` asks for. The listener's entry
/// stops a running listener and starts a stopped one.
pub open spec fn action_of(id: Seq<char>, listening: bool) -> MenuAction {
    if id == "settings"@ {
        MenuAction::OpenSettings
    } else if id == "clipboard_monitor"@ {
        if listening {
            MenuAction::StopListening
        } else {
            MenuAction::StartListening
        }
    } else if id == "check_update"@ {
        MenuAction::CheckUpdate
    } else if id == "about"@ {
        MenuAction::OpenAbout
    } else if id == "restart"@ {
        MenuAction::Restart
    } else if id == "exit"@ {
        MenuAction::Exit
    } else {
        MenuAction::Unhandled
    }
}

/// What the chosen menu entry asks for.
pub fn menu_action(id: &str, listening: bool) -> (action: MenuAction)
    ensures
        action == action_of(id@, listening),
{
    if id.eq("settings") {
        MenuAction::OpenSettings
    } else if id.eq("clipboard_monitor") {
        if listening {
            MenuAction::StopListening
        } else {
            MenuAction::StartListening
        }
    } else if id.eq("check_update") {
        MenuAction::CheckUpdate
    } else if id.eq("about") {
        MenuAction::OpenAbout
    } else if id.eq("restart") {
        MenuAction::Restart
    } else if id.eq("exit") {
        MenuAction::Exit
    } else {
        MenuAction::Unhandled
    }
}

/// The name of the event that an action sends to the window, for the three
/// actions that send one.
pub open spec fn window_event_of(action: MenuAction) -> Option<Seq<char>> {
    match action {
        MenuAction::OpenSettings => Some("open-settings"@),
        MenuAction::CheckUpdate => Some("check-update"@),
        MenuAction::OpenAbout => Some("open-about"@),
        _ => None,
    }
}

/// The name of the event that an action sends to the window, if it sends one.
pub fn window_event(action: MenuAction) -> (name: Option<&'static str>)
    ensures
        match window_event_of(action) {
            Some(expected) => name matches Some(n) && n@ == expected,
            None => name is None,
        },
{
    match action {
        MenuAction::OpenSettings => Some("open-settings"),
        MenuAction::CheckUpdate => Some("check-update"),
        MenuAction::OpenAbout => Some("open-about"),
        _ => None,
    }
}

/// What the tray remembers between events.
#[derive(Debug, Clone, Copy, PartialEq, Eq, Structural)]
pub struct TrayState {
    /// An icon was created.
    pub is_loaded: bool,
    /// The window is shown, as far as the tray knows.
    pub win_current_visible: bool,
    /// The window was shown when the pointer last came over the icon.
    pub win_enter_visible: bool,
    /// The window was hidden since, and no click was taken for it yet.
    pub is_first_hide: bool,
}

/// What a released left click on the icon leads to first.
#[derive(Debug, Clone, Copy, PartialEq, Eq, Structural)]
pub enum ClickStep {
    /// The click is taken for the hiding that went before it. Nothing more is
    /// done.
    Swallowed,
    /// Ask the window whether it is shown, and report to
    /// [`TrayState::window_probed`].
    ProbeWindow,
}

/// What to do with the window after a click.
#[derive(Debug, Clone, Copy, PartialEq, Eq, Structural)]
pub enum WindowAction {
    /// Show the window and give it the focus.
    Show,
    /// Hide the window.
    Hide,
    /// Leave it.
    Nothing,
}

/// What is done for a menu that was built anew.
#[derive(Debug, Clone, Copy, PartialEq, Eq, Structural)]
pub enum MenuTarget {
    /// Give the menu to the icon that is there.
    ExistingIcon,
    /// Create an icon with the menu, then report to
    /// [`TrayState::icon_created`].
    NewIcon,
}

impl TrayState {
    /// A click is swallowed where the window was shown when the pointer came
    /// over the icon and has been hidden since: the click that follows is the
    /// one that hid it, by taking the focus away.
    pub open spec fn swallows_click(self) -> bool {
        self.win_enter_visible && !self.win_current_visible && self.is_first_hide
    }

    /// The state after a released left click, before the window is asked.
    pub open spec fn after_click(self) -> (ClickStep, TrayState) {
        if self.swallows_click() {
            (ClickStep::Swallowed, TrayState { is_first_hide: false, ..self })
        } else {
            (ClickStep::ProbeWindow, self)
        }
    }

    /// The state after the window answered whether it is shown: a hidden
    /// window is shown, a shown one is hidden, and where the window gave no
    /// answer nothing changes.
    pub open spec fn after_probe(self, visible: Option<bool>) -> (WindowAction, TrayState) {
        match visible {
            Some(false) => (
                WindowAction::Show,
                TrayState {
                    win_current_visible: true,
                    win_enter_visible: true,
                    is_first_hide: false,
                    ..self
                },
            ),
            Some(true) => (
                WindowAction::Hide,
                TrayState {
                    win_current_visible: false,
                    win_enter_visible: false,
                    is_first_hide: true,
                    ..self
                },
            ),
            None => (WindowAction::Nothing, self),
        }
    }

    /// The state in which nothing happened yet.
    pub fn new() -> (state: TrayState)
        ensures
            state == (TrayState {
                is_loaded: false,
                win_current_visible: false,
                win_enter_visible: false,
                is_first_hide: false,
            }),
    {
        TrayState {
            is_loaded: false,
            win_current_visible: false,
            win_enter_visible: false,
            is_first_hide: false,
        }
    }

    /// Where a menu that was built anew goes: to the icon that is there, if
    /// one was created and the caller still holds it, to a new icon otherwise.
    pub fn menu_target(&self, holds_icon: bool) -> (target: MenuTarget)
        ensures
            target == if self.is_loaded && holds_icon {
                MenuTarget::ExistingIcon
            } else {
                MenuTarget::NewIcon
            },
    {
        if self.is_loaded && holds_icon {
            MenuTarget::ExistingIcon
        } else {
            MenuTarget::NewIcon
        }
    }

    /// Notes that an icon was created: the window counts as hidden, and no
    /// click is owed to a hiding.
    pub fn icon_created(&mut self)
        ensures
            *final(self) == (TrayState {
                is_loaded: true,
                win_current_visible: false,
                is_first_hide: false,
                ..*old(self)
            }),
    {
        self.is_loaded = true;
        self.win_current_visible = false;
        self.is_first_hide = false;
    }

    /// Takes a released left click on the icon.
    pub fn click_released(&mut self) -> (step: ClickStep)
        ensures
            (step, *final(self)) == old(self).after_click(),
    {
        if self.win_enter_visible && !self.win_current_visible && self.is_first_hide {
            self.is_first_hide = false;
            ClickStep::Swallowed
        } else {
            ClickStep::ProbeWindow
        }
    }

    /// Takes the window's answer to whether it is shown, `None` where it gave
    /// none, and says what to do with the window.
    pub fn window_probed(&mut self, visible: Option<bool>) -> (action: WindowAction)
        ensures
            (action, *final(self)) == old(self).after_probe(visible),
    {
        match visible {
            Some(false) => {
                self.win_current_visible = true;
                self.win_enter_visible = true;
                self.is_first_hide = false;
                WindowAction::Show
            },
            Some(true) => {
                self.win_current_visible = false;
                self.win_enter_visible = false;
                self.is_first_hide = true;
                WindowAction::Hide
            },
            None => WindowAction::Nothing,
        }
    }

    /// Notes that the pointer came over the icon, and whether the window was
    /// shown at that moment. Where there is no window nothing is noted.
    pub fn pointer_entered(&mut self, visible: Option<bool>)
        ensures
            *final(self) == match visible {
                Some(v) => TrayState { win_enter_visible: v, ..*old(self) },
                None => *old(self),
            },
    {
        match visible {
            Some(v) => {
                self.win_enter_visible = v;
            },
            None => {},
        }
    }
}

/// Notes that the window hid itself: it is hidden now, and the next click may
/// be the one that caused it.
pub fn hide_win_msg(state: &mut TrayState)
    ensures
        *final(state) == (TrayState {
            win_current_visible: false,
            is_first_hide: true,
            ..*old(state)
        }),
{
    state.win_current_visible = false;
    state.is_first_hide = true;
}

/// A click toggles the window: a click that is not swallowed shows a hidden
/// window and hides a shown one, and after it the tray knows the window as it
/// then is.
pub proof fn law_click_toggles(state: TrayState, visible: bool)
    ensures
        state.after_probe(Some(visible)).0 == if visible {
            WindowAction::Hide
        } else {
            WindowAction::Show
        },
        state.after_probe(Some(visible)).1.win_current_visible == !visible,
        !state.after_probe(Some(visible)).1.swallows_click(),
{
}

/// At most one click is swallowed in a row: the state after a swallowed click
/// swallows none.
pub proof fn law_swallows_once(state: TrayState)
    requires
        state.swallows_click(),
    ensures
        state.after_click().0 == ClickStep::Swallowed,
        !state.after_click().1.swallows_click(),
{
}

} // verus!
