//! Keyboard usages of physical keys.

use vivido::hid::{usage, KeyCode};


#[test]
fn the_mapped_range_matches_the_keyboard_page() {
    // The keyboard page accepts `0x04..=0xe7`, so nothing may map outside it.
    for code in [
        KeyCode::KeyA,
        KeyCode::Digit0,
        KeyCode::Escape,
        KeyCode::F12,
        KeyCode::Numpad0,
        KeyCode::SuperRight,
    ] {
        let usage = usage(code).expect("a named key maps");
        assert!((0x04..=0xe7).contains(&usage), "{code:?} mapped outside the page");
    }
}

#[test]
fn the_mapping_is_injective() {
    // Two physical keys sharing a usage would make the producer's held-key set unbalanced.
    let codes = [
        KeyCode::KeyA,
        KeyCode::KeyZ,
        KeyCode::Digit1,
        KeyCode::Digit0,
        KeyCode::Enter,
        KeyCode::Escape,
        KeyCode::Backspace,
        KeyCode::Tab,
        KeyCode::Space,
        KeyCode::Minus,
        KeyCode::Equal,
        KeyCode::BracketLeft,
        KeyCode::BracketRight,
        KeyCode::Backslash,
        KeyCode::Semicolon,
        KeyCode::Quote,
        KeyCode::Backquote,
        KeyCode::Comma,
        KeyCode::Period,
        KeyCode::Slash,
        KeyCode::CapsLock,
        KeyCode::F1,
        KeyCode::F12,
        KeyCode::PrintScreen,
        KeyCode::ScrollLock,
        KeyCode::Pause,
        KeyCode::Insert,
        KeyCode::Home,
        KeyCode::PageUp,
        KeyCode::Delete,
        KeyCode::End,
        KeyCode::PageDown,
        KeyCode::ArrowRight,
        KeyCode::ArrowLeft,
        KeyCode::ArrowDown,
        KeyCode::ArrowUp,
        KeyCode::NumLock,
        KeyCode::NumpadDivide,
        KeyCode::NumpadMultiply,
        KeyCode::NumpadSubtract,
        KeyCode::NumpadAdd,
        KeyCode::NumpadEnter,
        KeyCode::Numpad0,
        KeyCode::Numpad9,
        KeyCode::NumpadDecimal,
        KeyCode::ContextMenu,
        KeyCode::ControlLeft,
        KeyCode::ShiftLeft,
        KeyCode::AltLeft,
        KeyCode::SuperLeft,
        KeyCode::ControlRight,
        KeyCode::ShiftRight,
        KeyCode::AltRight,
        KeyCode::SuperRight,
    ];
    let mut seen = Vec::new();
    for code in codes {
        let usage = usage(code).expect("every listed key maps");
        assert!(!seen.contains(&usage), "{code:?} reuses usage {usage:#04x}");
        seen.push(usage);
    }
}

#[test]
fn an_unnamed_key_maps_to_nothing() {
    // A key with no keyboard-page usage is dropped rather than guessed at.
    assert!(usage(KeyCode::Fn).is_none());
}
