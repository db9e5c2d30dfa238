use easy_paste::tray::{
    hide_win_msg, load_language, menu_action, menu_entries, window_event, ClickStep, MenuAction,
    MenuEntry, MenuTarget, Tray, TrayState, WindowAction,
};

fn item(id: &str, label: &str) -> MenuEntry {
    MenuEntry::Item { id: id.to_string(), label: label.to_string() }
}

#[test]
fn default_labels_are_used_without_a_language_file() {
    let labels = load_language(None);
    assert_eq!(labels, Tray::fallback());
    assert_eq!(labels.settings, "设置");
    assert_eq!(labels.clipboard_monitor, "剪贴板监听");
    assert_eq!(labels.check_update, "检查更新");
    assert_eq!(labels.about, "关于");
    assert_eq!(labels.restart, "重启");
    assert_eq!(labels.exit, "退出");
    let english = Tray {
        settings: "Settings".to_string(),
        check_update: "Check for updates".to_string(),
        about: "About".to_string(),
        restart: "Restart".to_string(),
        exit: "Quit".to_string(),
        clipboard_monitor: "Watch clipboard".to_string(),
    };
    assert_eq!(load_language(Some(english.clone())), english);
}

#[test]
fn menu_lists_its_entries_in_order() {
    let labels = Tray {
        settings: "S".to_string(),
        check_update: "U".to_string(),
        about: "A".to_string(),
        restart: "R".to_string(),
        exit: "E".to_string(),
        clipboard_monitor: "M".to_string(),
    };
    let expected = |checked: bool| {
        vec![
            item("settings", "S"),
            MenuEntry::Check { id: "clipboard_monitor".to_string(), label: "M".to_string(), checked },
            MenuEntry::Separator,
            item("check_update", "U"),
            item("about", "A"),
            MenuEntry::Separator,
            item("restart", "R"),
            item("exit", "E"),
        ]
    };
    assert_eq!(menu_entries(&labels, true), expected(true));
    assert_eq!(menu_entries(&labels, false), expected(false));
}

#[test]
fn menu_entries_map_to_actions() {
    assert_eq!(menu_action("settings", false), MenuAction::OpenSettings);
    assert_eq!(menu_action("clipboard_monitor", true), MenuAction::StopListening);
    assert_eq!(menu_action("clipboard_monitor", false), MenuAction::StartListening);
    assert_eq!(menu_action("check_update", true), MenuAction::CheckUpdate);
    assert_eq!(menu_action("about", true), MenuAction::OpenAbout);
    assert_eq!(menu_action("restart", true), MenuAction::Restart);
    assert_eq!(menu_action("exit", true), MenuAction::Exit);
    assert_eq!(menu_action("other", true), MenuAction::Unhandled);
    assert_eq!(menu_action("", false), MenuAction::Unhandled);
    assert_eq!(window_event(MenuAction::OpenSettings), Some("open-settings"));
    assert_eq!(window_event(MenuAction::CheckUpdate), Some("check-update"));
    assert_eq!(window_event(MenuAction::OpenAbout), Some("open-about"));
    assert_eq!(window_event(MenuAction::Exit), None);
    assert_eq!(window_event(MenuAction::Restart), None);
    assert_eq!(window_event(MenuAction::StartListening), None);
}

#[test]
fn click_shows_a_hidden_window_and_hides_a_shown_one() {
    let mut state = TrayState::new();
    assert_eq!(state.click_released(), ClickStep::ProbeWindow);
    assert_eq!(state.window_probed(Some(false)), WindowAction::Show);
    assert_eq!(state, TrayState {
        is_loaded: false,
        win_current_visible: true,
        win_enter_visible: true,
        is_first_hide: false,
    });
    assert_eq!(state.click_released(), ClickStep::ProbeWindow);
    assert_eq!(state.window_probed(Some(true)), WindowAction::Hide);
    assert_eq!(state, TrayState {
        is_loaded: false,
        win_current_visible: false,
        win_enter_visible: false,
        is_first_hide: true,
    });
    let before = state;
    assert_eq!(state.window_probed(None), WindowAction::Nothing);
    assert_eq!(state, before);
}

#[test]
fn click_after_focus_loss_is_swallowed_once() {
    let mut state = TrayState::new();
    state.window_probed(Some(false));
    state.pointer_entered(Some(true));
    hide_win_msg(&mut state);
    assert_eq!(state, TrayState {
        is_loaded: false,
        win_current_visible: false,
        win_enter_visible: true,
        is_first_hide: true,
    });
    assert_eq!(state.click_released(), ClickStep::Swallowed);
    assert!(!state.is_first_hide);
    assert_eq!(state.click_released(), ClickStep::ProbeWindow);
}

#[test]
fn pointer_entering_notes_the_window() {
    let mut state = TrayState::new();
    state.pointer_entered(Some(true));
    assert!(state.win_enter_visible);
    state.pointer_entered(None);
    assert!(state.win_enter_visible);
    state.pointer_entered(Some(false));
    assert!(!state.win_enter_visible);
}

#[test]
fn menu_goes_to_the_icon_that_exists() {
    let mut state = TrayState::new();
    assert_eq!(state.menu_target(false), MenuTarget::NewIcon);
    assert_eq!(state.menu_target(true), MenuTarget::NewIcon);
    state.win_current_visible = true;
    state.is_first_hide = true;
    state.icon_created();
    assert_eq!(state, TrayState {
        is_loaded: true,
        win_current_visible: false,
        win_enter_visible: false,
        is_first_hide: false,
    });
    assert_eq!(state.menu_target(true), MenuTarget::ExistingIcon);
    assert_eq!(state.menu_target(false), MenuTarget::NewIcon);
}
