use voice_shell::keys::{paste_chord, same_text, Chord, Key, Platform};
use voice_shell::script::{
    copy_and_paste, copy_to_clipboard, get_clipboard_text, simulate_paste, type_text, Step,
};

#[test]
fn platform_from_os_name() {
    assert_eq!(Platform::from_os_name("macos"), Platform::MacOs);
    assert_eq!(Platform::from_os_name("linux"), Platform::Other);
    assert_eq!(Platform::from_os_name("windows"), Platform::Other);
    assert_eq!(Platform::from_os_name("macosx"), Platform::Other);
    assert_eq!(Platform::from_os_name(""), Platform::Other);
}

#[test]
fn same_text_compares_characters() {
    assert!(same_text("ñandú", "ñandú"));
    assert!(!same_text("ñandú", "ñandu"));
    assert!(!same_text("ab", "abc"));
    assert!(same_text("", ""));
}

#[test]
fn paste_chord_per_platform() {
    assert_eq!(paste_chord(Platform::MacOs), Chord { modifier: Key::Meta, key: Key::Layout('v') });
    assert_eq!(paste_chord(Platform::Other), Chord { modifier: Key::Control, key: Key::Layout('v') });
}

#[test]
fn copy_script_writes_the_text() {
    assert_eq!(copy_to_clipboard("X".to_string()), vec![Step::SetClipboard("X".to_string())]);
}

#[test]
fn read_script_reads_once() {
    assert_eq!(get_clipboard_text(), vec![Step::ReadClipboard]);
}

#[test]
fn paste_script_waits_then_sends_control_v() {
    assert_eq!(
        simulate_paste(Platform::Other),
        vec![
            Step::Pause(50),
            Step::Press(Key::Control),
            Step::Click(Key::Layout('v')),
            Step::Release(Key::Control),
        ]
    );
}

#[test]
fn paste_script_on_macos_uses_meta() {
    assert_eq!(
        simulate_paste(Platform::MacOs),
        vec![
            Step::Pause(50),
            Step::Press(Key::Meta),
            Step::Click(Key::Layout('v')),
            Step::Release(Key::Meta),
        ]
    );
}

#[test]
fn copy_and_paste_copies_first() {
    assert_eq!(
        copy_and_paste("hola".to_string(), Platform::Other),
        vec![
            Step::SetClipboard("hola".to_string()),
            Step::Pause(100),
            Step::Press(Key::Control),
            Step::Click(Key::Layout('v')),
            Step::Release(Key::Control),
        ]
    );
}

#[test]
fn typing_two_chars_without_delay() {
    assert_eq!(type_text("ab".to_string(), Some(0)), vec![Step::TypeChar('a'), Step::TypeChar('b')]);
}

#[test]
fn typing_uses_ten_ms_by_default() {
    assert_eq!(
        type_text("ab".to_string(), None),
        vec![Step::TypeChar('a'), Step::Pause(10), Step::TypeChar('b'), Step::Pause(10)]
    );
}

#[test]
fn typing_with_given_delay_and_wide_chars() {
    assert_eq!(
        type_text("ñé".to_string(), Some(25)),
        vec![Step::TypeChar('ñ'), Step::Pause(25), Step::TypeChar('é'), Step::Pause(25)]
    );
}

#[test]
fn typing_nothing_is_empty() {
    assert_eq!(type_text("".to_string(), Some(5)), vec![]);
    assert_eq!(type_text("".to_string(), None), vec![]);
    assert_eq!(type_text("".to_string(), Some(0)), vec![]);
}
