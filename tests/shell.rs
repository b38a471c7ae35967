use voice_shell::shell::{
    dictation_hotkey, start_dictation_event, tray_menu, tray_tooltip, ButtonState, Effect,
    HotkeyCode, MenuItemId, MouseButton, Shell, ShellEvent,
};

#[test]
fn menu_has_show_then_quit() {
    assert_eq!(tray_menu(), vec![MenuItemId::Show, MenuItemId::Quit]);
    assert_eq!(MenuItemId::Show.id(), "show");
    assert_eq!(MenuItemId::Quit.id(), "quit");
    assert_eq!(MenuItemId::Show.label(), "Mostrar");
    assert_eq!(MenuItemId::Quit.label(), "Salir");
    assert_eq!(tray_tooltip(), "Antigravity Voice");
}

#[test]
fn menu_ids_parse() {
    assert_eq!(MenuItemId::from_id("show"), Some(MenuItemId::Show));
    assert_eq!(MenuItemId::from_id("quit"), Some(MenuItemId::Quit));
    assert_eq!(MenuItemId::from_id("Quit"), None);
    assert_eq!(MenuItemId::from_id(""), None);
}

#[test]
fn hotkey_is_control_super_space() {
    let h = dictation_hotkey();
    assert!(h.control && h.super_key && !h.shift && !h.alt);
    assert_eq!(h.code, HotkeyCode::Space);
    assert_eq!(start_dictation_event(), "start-dictation");
}

#[test]
fn quit_exits_and_nothing_follows() {
    let mut shell = Shell::new(true);
    assert_eq!(shell.react(ShellEvent::Menu("quit".to_string())), vec![Effect::Exit(0)]);
    assert!(!shell.running);
    assert_eq!(shell.react(ShellEvent::Hotkey), vec![]);
    assert_eq!(shell.react(ShellEvent::Menu("show".to_string())), vec![]);
    assert_eq!(
        shell.react(ShellEvent::TrayClick { button: MouseButton::Left, state: ButtonState::Up }),
        vec![]
    );
    assert!(!shell.running);
}

#[test]
fn hotkey_while_hidden_shows_focuses_and_notifies_once() {
    let mut shell = Shell::new(false);
    let effects = shell.react(ShellEvent::Hotkey);
    assert_eq!(effects, vec![Effect::ShowWindow, Effect::FocusWindow, Effect::StartDictation]);
    assert_eq!(effects.iter().filter(|e| **e == Effect::StartDictation).count(), 1);
    assert!(shell.visible && shell.focused && shell.running);
}

#[test]
fn show_item_reveals_window() {
    let mut shell = Shell::new(false);
    assert_eq!(
        shell.react(ShellEvent::Menu("show".to_string())),
        vec![Effect::ShowWindow, Effect::FocusWindow]
    );
    assert!(shell.visible && shell.focused);
}

#[test]
fn unknown_menu_item_does_nothing() {
    let mut shell = Shell::new(false);
    assert_eq!(shell.react(ShellEvent::Menu("settings".to_string())), vec![]);
    assert_eq!(shell, Shell::new(false));
}

#[test]
fn left_click_release_on_tray_reveals_window() {
    let mut shell = Shell::new(false);
    assert_eq!(
        shell.react(ShellEvent::TrayClick { button: MouseButton::Left, state: ButtonState::Up }),
        vec![Effect::ShowWindow, Effect::FocusWindow]
    );
    assert!(shell.visible);
}

#[test]
fn other_tray_clicks_do_nothing() {
    let mut shell = Shell::new(false);
    assert_eq!(
        shell.react(ShellEvent::TrayClick { button: MouseButton::Left, state: ButtonState::Down }),
        vec![]
    );
    assert_eq!(
        shell.react(ShellEvent::TrayClick { button: MouseButton::Right, state: ButtonState::Up }),
        vec![]
    );
    assert_eq!(
        shell.react(ShellEvent::TrayClick { button: MouseButton::Middle, state: ButtonState::Up }),
        vec![]
    );
    assert!(!shell.visible && !shell.focused);
}
