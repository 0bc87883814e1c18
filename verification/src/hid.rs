//! Physical key to USB HID keyboard-page usage.
//!
//! Keys travel as HID keyboard-page usages in `0x04..=0xe7`. A key is a physical position, so
//! producers need not know which presenter an event came from.

use vstd::prelude::*;

verus! {

/// A physical key position.
#[derive(Debug, Clone, Copy, PartialEq, Eq, Structural)]
pub enum KeyCode {
    KeyA,
    KeyB,
    KeyC,
    KeyD,
    KeyE,
    KeyF,
    KeyG,
    KeyH,
    KeyI,
    KeyJ,
    KeyK,
    KeyL,
    KeyM,
    KeyN,
    KeyO,
    KeyP,
    KeyQ,
    KeyR,
    KeyS,
    KeyT,
    KeyU,
    KeyV,
    KeyW,
    KeyX,
    KeyY,
    KeyZ,
    Digit1,
    Digit2,
    Digit3,
    Digit4,
    Digit5,
    Digit6,
    Digit7,
    Digit8,
    Digit9,
    Digit0,
    Enter,
    Escape,
    Backspace,
    Tab,
    Space,
    Minus,
    Equal,
    BracketLeft,
    BracketRight,
    Backslash,
    Semicolon,
    Quote,
    Backquote,
    Comma,
    Period,
    Slash,
    CapsLock,
    F1,
    F2,
    F3,
    F4,
    F5,
    F6,
    F7,
    F8,
    F9,
    F10,
    F11,
    F12,
    PrintScreen,
    ScrollLock,
    Pause,
    Insert,
    Home,
    PageUp,
    Delete,
    End,
    PageDown,
    ArrowRight,
    ArrowLeft,
    ArrowDown,
    ArrowUp,
    NumLock,
    NumpadDivide,
    NumpadMultiply,
    NumpadSubtract,
    NumpadAdd,
    NumpadEnter,
    Numpad1,
    Numpad2,
    Numpad3,
    Numpad4,
    Numpad5,
    Numpad6,
    Numpad7,
    Numpad8,
    Numpad9,
    Numpad0,
    NumpadDecimal,
    ContextMenu,
    ControlLeft,
    ShiftLeft,
    AltLeft,
    SuperLeft,
    ControlRight,
    ShiftRight,
    AltRight,
    SuperRight,
    /// The laptop function key, which the keyboard page does not name.
    Fn,
    /// Any other key that the keyboard page does not name.
    Unnamed,
}

/// The HID keyboard-page usage of a key.
pub open spec fn usage_of(code: KeyCode) -> Option<u16> {
    match code {
        KeyCode::KeyA => Some(0x04),
        KeyCode::KeyB => Some(0x05),
        KeyCode::KeyC => Some(0x06),
        KeyCode::KeyD => Some(0x07),
        KeyCode::KeyE => Some(0x08),
        KeyCode::KeyF => Some(0x09),
        KeyCode::KeyG => Some(0x0a),
        KeyCode::KeyH => Some(0x0b),
        KeyCode::KeyI => Some(0x0c),
        KeyCode::KeyJ => Some(0x0d),
        KeyCode::KeyK => Some(0x0e),
        KeyCode::KeyL => Some(0x0f),
        KeyCode::KeyM => Some(0x10),
        KeyCode::KeyN => Some(0x11),
        KeyCode::KeyO => Some(0x12),
        KeyCode::KeyP => Some(0x13),
        KeyCode::KeyQ => Some(0x14),
        KeyCode::KeyR => Some(0x15),
        KeyCode::KeyS => Some(0x16),
        KeyCode::KeyT => Some(0x17),
        KeyCode::KeyU => Some(0x18),
        KeyCode::KeyV => Some(0x19),
        KeyCode::KeyW => Some(0x1a),
        KeyCode::KeyX => Some(0x1b),
        KeyCode::KeyY => Some(0x1c),
        KeyCode::KeyZ => Some(0x1d),
        KeyCode::Digit1 => Some(0x1e),
        KeyCode::Digit2 => Some(0x1f),
        KeyCode::Digit3 => Some(0x20),
        KeyCode::Digit4 => Some(0x21),
        KeyCode::Digit5 => Some(0x22),
        KeyCode::Digit6 => Some(0x23),
        KeyCode::Digit7 => Some(0x24),
        KeyCode::Digit8 => Some(0x25),
        KeyCode::Digit9 => Some(0x26),
        KeyCode::Digit0 => Some(0x27),
        KeyCode::Enter => Some(0x28),
        KeyCode::Escape => Some(0x29),
        KeyCode::Backspace => Some(0x2a),
        KeyCode::Tab => Some(0x2b),
        KeyCode::Space => Some(0x2c),
        KeyCode::Minus => Some(0x2d),
        KeyCode::Equal => Some(0x2e),
        KeyCode::BracketLeft => Some(0x2f),
        KeyCode::BracketRight => Some(0x30),
        KeyCode::Backslash => Some(0x31),
        KeyCode::Semicolon => Some(0x33),
        KeyCode::Quote => Some(0x34),
        KeyCode::Backquote => Some(0x35),
        KeyCode::Comma => Some(0x36),
        KeyCode::Period => Some(0x37),
        KeyCode::Slash => Some(0x38),
        KeyCode::CapsLock => Some(0x39),
        KeyCode::F1 => Some(0x3a),
        KeyCode::F2 => Some(0x3b),
        KeyCode::F3 => Some(0x3c),
        KeyCode::F4 => Some(0x3d),
        KeyCode::F5 => Some(0x3e),
        KeyCode::F6 => Some(0x3f),
        KeyCode::F7 => Some(0x40),
        KeyCode::F8 => Some(0x41),
        KeyCode::F9 => Some(0x42),
        KeyCode::F10 => Some(0x43),
        KeyCode::F11 => Some(0x44),
        KeyCode::F12 => Some(0x45),
        KeyCode::PrintScreen => Some(0x46),
        KeyCode::ScrollLock => Some(0x47),
        KeyCode::Pause => Some(0x48),
        KeyCode::Insert => Some(0x49),
        KeyCode::Home => Some(0x4a),
        KeyCode::PageUp => Some(0x4b),
        KeyCode::Delete => Some(0x4c),
        KeyCode::End => Some(0x4d),
        KeyCode::PageDown => Some(0x4e),
        KeyCode::ArrowRight => Some(0x4f),
        KeyCode::ArrowLeft => Some(0x50),
        KeyCode::ArrowDown => Some(0x51),
        KeyCode::ArrowUp => Some(0x52),
        KeyCode::NumLock => Some(0x53),
        KeyCode::NumpadDivide => Some(0x54),
        KeyCode::NumpadMultiply => Some(0x55),
        KeyCode::NumpadSubtract => Some(0x56),
        KeyCode::NumpadAdd => Some(0x57),
        KeyCode::NumpadEnter => Some(0x58),
        KeyCode::Numpad1 => Some(0x59),
        KeyCode::Numpad2 => Some(0x5a),
        KeyCode::Numpad3 => Some(0x5b),
        KeyCode::Numpad4 => Some(0x5c),
        KeyCode::Numpad5 => Some(0x5d),
        KeyCode::Numpad6 => Some(0x5e),
        KeyCode::Numpad7 => Some(0x5f),
        KeyCode::Numpad8 => Some(0x60),
        KeyCode::Numpad9 => Some(0x61),
        KeyCode::Numpad0 => Some(0x62),
        KeyCode::NumpadDecimal => Some(0x63),
        KeyCode::ContextMenu => Some(0x65),
        KeyCode::ControlLeft => Some(0xe0),
        KeyCode::ShiftLeft => Some(0xe1),
        KeyCode::AltLeft => Some(0xe2),
        KeyCode::SuperLeft => Some(0xe3),
        KeyCode::ControlRight => Some(0xe4),
        KeyCode::ShiftRight => Some(0xe5),
        KeyCode::AltRight => Some(0xe6),
        KeyCode::SuperRight => Some(0xe7),
        KeyCode::Fn | KeyCode::Unnamed => None,
    }
}

/// The key that has a usage.
pub open spec fn key_of(usage: u16) -> KeyCode {
    match usage {
        0x04 => KeyCode::KeyA,
        0x05 => KeyCode::KeyB,
        0x06 => KeyCode::KeyC,
        0x07 => KeyCode::KeyD,
        0x08 => KeyCode::KeyE,
        0x09 => KeyCode::KeyF,
        0x0a => KeyCode::KeyG,
        0x0b => KeyCode::KeyH,
        0x0c => KeyCode::KeyI,
        0x0d => KeyCode::KeyJ,
        0x0e => KeyCode::KeyK,
        0x0f => KeyCode::KeyL,
        0x10 => KeyCode::KeyM,
        0x11 => KeyCode::KeyN,
        0x12 => KeyCode::KeyO,
        0x13 => KeyCode::KeyP,
        0x14 => KeyCode::KeyQ,
        0x15 => KeyCode::KeyR,
        0x16 => KeyCode::KeyS,
        0x17 => KeyCode::KeyT,
        0x18 => KeyCode::KeyU,
        0x19 => KeyCode::KeyV,
        0x1a => KeyCode::KeyW,
        0x1b => KeyCode::KeyX,
        0x1c => KeyCode::KeyY,
        0x1d => KeyCode::KeyZ,
        0x1e => KeyCode::Digit1,
        0x1f => KeyCode::Digit2,
        0x20 => KeyCode::Digit3,
        0x21 => KeyCode::Digit4,
        0x22 => KeyCode::Digit5,
        0x23 => KeyCode::Digit6,
        0x24 => KeyCode::Digit7,
        0x25 => KeyCode::Digit8,
        0x26 => KeyCode::Digit9,
        0x27 => KeyCode::Digit0,
        0x28 => KeyCode::Enter,
        0x29 => KeyCode::Escape,
        0x2a => KeyCode::Backspace,
        0x2b => KeyCode::Tab,
        0x2c => KeyCode::Space,
        0x2d => KeyCode::Minus,
        0x2e => KeyCode::Equal,
        0x2f => KeyCode::BracketLeft,
        0x30 => KeyCode::BracketRight,
        0x31 => KeyCode::Backslash,
        0x33 => KeyCode::Semicolon,
        0x34 => KeyCode::Quote,
        0x35 => KeyCode::Backquote,
        0x36 => KeyCode::Comma,
        0x37 => KeyCode::Period,
        0x38 => KeyCode::Slash,
        0x39 => KeyCode::CapsLock,
        0x3a => KeyCode::F1,
        0x3b => KeyCode::F2,
        0x3c => KeyCode::F3,
        0x3d => KeyCode::F4,
        0x3e => KeyCode::F5,
        0x3f => KeyCode::F6,
        0x40 => KeyCode::F7,
        0x41 => KeyCode::F8,
        0x42 => KeyCode::F9,
        0x43 => KeyCode::F10,
        0x44 => KeyCode::F11,
        0x45 => KeyCode::F12,
        0x46 => KeyCode::PrintScreen,
        0x47 => KeyCode::ScrollLock,
        0x48 => KeyCode::Pause,
        0x49 => KeyCode::Insert,
        0x4a => KeyCode::Home,
        0x4b => KeyCode::PageUp,
        0x4c => KeyCode::Delete,
        0x4d => KeyCode::End,
        0x4e => KeyCode::PageDown,
        0x4f => KeyCode::ArrowRight,
        0x50 => KeyCode::ArrowLeft,
        0x51 => KeyCode::ArrowDown,
        0x52 => KeyCode::ArrowUp,
        0x53 => KeyCode::NumLock,
        0x54 => KeyCode::NumpadDivide,
        0x55 => KeyCode::NumpadMultiply,
        0x56 => KeyCode::NumpadSubtract,
        0x57 => KeyCode::NumpadAdd,
        0x58 => KeyCode::NumpadEnter,
        0x59 => KeyCode::Numpad1,
        0x5a => KeyCode::Numpad2,
        0x5b => KeyCode::Numpad3,
        0x5c => KeyCode::Numpad4,
        0x5d => KeyCode::Numpad5,
        0x5e => KeyCode::Numpad6,
        0x5f => KeyCode::Numpad7,
        0x60 => KeyCode::Numpad8,
        0x61 => KeyCode::Numpad9,
        0x62 => KeyCode::Numpad0,
        0x63 => KeyCode::NumpadDecimal,
        0x65 => KeyCode::ContextMenu,
        0xe0 => KeyCode::ControlLeft,
        0xe1 => KeyCode::ShiftLeft,
        0xe2 => KeyCode::AltLeft,
        0xe3 => KeyCode::SuperLeft,
        0xe4 => KeyCode::ControlRight,
        0xe5 => KeyCode::ShiftRight,
        0xe6 => KeyCode::AltRight,
        0xe7 => KeyCode::SuperRight,
        _ => KeyCode::Unnamed,
    }
}

/// The HID keyboard-page usage for a physical key, or `None` for one the page does not name.
pub fn usage(code: KeyCode) -> (r: Option<u16>)
    ensures
        r == usage_of(code),
        r is None <==> (code is Fn || code is Unnamed),
        r matches Some(usage) ==> key_of(usage) == code,
{
    match code {
        KeyCode::KeyA => Some(0x04),
        KeyCode::KeyB => Some(0x05),
        KeyCode::KeyC => Some(0x06),
        KeyCode::KeyD => Some(0x07),
        KeyCode::KeyE => Some(0x08),
        KeyCode::KeyF => Some(0x09),
        KeyCode::KeyG => Some(0x0a),
        KeyCode::KeyH => Some(0x0b),
        KeyCode::KeyI => Some(0x0c),
        KeyCode::KeyJ => Some(0x0d),
        KeyCode::KeyK => Some(0x0e),
        KeyCode::KeyL => Some(0x0f),
        KeyCode::KeyM => Some(0x10),
        KeyCode::KeyN => Some(0x11),
        KeyCode::KeyO => Some(0x12),
        KeyCode::KeyP => Some(0x13),
        KeyCode::KeyQ => Some(0x14),
        KeyCode::KeyR => Some(0x15),
        KeyCode::KeyS => Some(0x16),
        KeyCode::KeyT => Some(0x17),
        KeyCode::KeyU => Some(0x18),
        KeyCode::KeyV => Some(0x19),
        KeyCode::KeyW => Some(0x1a),
        KeyCode::KeyX => Some(0x1b),
        KeyCode::KeyY => Some(0x1c),
        KeyCode::KeyZ => Some(0x1d),
        KeyCode::Digit1 => Some(0x1e),
        KeyCode::Digit2 => Some(0x1f),
        KeyCode::Digit3 => Some(0x20),
        KeyCode::Digit4 => Some(0x21),
        KeyCode::Digit5 => Some(0x22),
        KeyCode::Digit6 => Some(0x23),
        KeyCode::Digit7 => Some(0x24),
        KeyCode::Digit8 => Some(0x25),
        KeyCode::Digit9 => Some(0x26),
        KeyCode::Digit0 => Some(0x27),
        KeyCode::Enter => Some(0x28),
        KeyCode::Escape => Some(0x29),
        KeyCode::Backspace => Some(0x2a),
        KeyCode::Tab => Some(0x2b),
        KeyCode::Space => Some(0x2c),
        KeyCode::Minus => Some(0x2d),
        KeyCode::Equal => Some(0x2e),
        KeyCode::BracketLeft => Some(0x2f),
        KeyCode::BracketRight => Some(0x30),
        KeyCode::Backslash => Some(0x31),
        KeyCode::Semicolon => Some(0x33),
        KeyCode::Quote => Some(0x34),
        KeyCode::Backquote => Some(0x35),
        KeyCode::Comma => Some(0x36),
        KeyCode::Period => Some(0x37),
        KeyCode::Slash => Some(0x38),
        KeyCode::CapsLock => Some(0x39),
        KeyCode::F1 => Some(0x3a),
        KeyCode::F2 => Some(0x3b),
        KeyCode::F3 => Some(0x3c),
        KeyCode::F4 => Some(0x3d),
        KeyCode::F5 => Some(0x3e),
        KeyCode::F6 => Some(0x3f),
        KeyCode::F7 => Some(0x40),
        KeyCode::F8 => Some(0x41),
        KeyCode::F9 => Some(0x42),
        KeyCode::F10 => Some(0x43),
        KeyCode::F11 => Some(0x44),
        KeyCode::F12 => Some(0x45),
        KeyCode::PrintScreen => Some(0x46),
        KeyCode::ScrollLock => Some(0x47),
        KeyCode::Pause => Some(0x48),
        KeyCode::Insert => Some(0x49),
        KeyCode::Home => Some(0x4a),
        KeyCode::PageUp => Some(0x4b),
        KeyCode::Delete => Some(0x4c),
        KeyCode::End => Some(0x4d),
        KeyCode::PageDown => Some(0x4e),
        KeyCode::ArrowRight => Some(0x4f),
        KeyCode::ArrowLeft => Some(0x50),
        KeyCode::ArrowDown => Some(0x51),
        KeyCode::ArrowUp => Some(0x52),
        KeyCode::NumLock => Some(0x53),
        KeyCode::NumpadDivide => Some(0x54),
        KeyCode::NumpadMultiply => Some(0x55),
        KeyCode::NumpadSubtract => Some(0x56),
        KeyCode::NumpadAdd => Some(0x57),
        KeyCode::NumpadEnter => Some(0x58),
        KeyCode::Numpad1 => Some(0x59),
        KeyCode::Numpad2 => Some(0x5a),
        KeyCode::Numpad3 => Some(0x5b),
        KeyCode::Numpad4 => Some(0x5c),
        KeyCode::Numpad5 => Some(0x5d),
        KeyCode::Numpad6 => Some(0x5e),
        KeyCode::Numpad7 => Some(0x5f),
        KeyCode::Numpad8 => Some(0x60),
        KeyCode::Numpad9 => Some(0x61),
        KeyCode::Numpad0 => Some(0x62),
        KeyCode::NumpadDecimal => Some(0x63),
        KeyCode::ContextMenu => Some(0x65),
        KeyCode::ControlLeft => Some(0xe0),
        KeyCode::ShiftLeft => Some(0xe1),
        KeyCode::AltLeft => Some(0xe2),
        KeyCode::SuperLeft => Some(0xe3),
        KeyCode::ControlRight => Some(0xe4),
        KeyCode::ShiftRight => Some(0xe5),
        KeyCode::AltRight => Some(0xe6),
        KeyCode::SuperRight => Some(0xe7),
        KeyCode::Fn | KeyCode::Unnamed => None,
    }
}

/// Every usage lies on the keyboard page.
pub proof fn usages_lie_on_the_keyboard_page(code: KeyCode)
    ensures
        usage_of(code) matches Some(usage) ==> 0x04 <= usage <= 0xe7,
{
}

/// No two physical keys share a usage, so a producer's set of held keys stays balanced.
pub proof fn no_two_keys_share_a_usage(left: KeyCode, right: KeyCode)
    requires
        usage_of(left) is Some,
        usage_of(left) == usage_of(right),
    ensures
        left == right,
{
    lemma_key_of(left);
    lemma_key_of(right);
}

proof fn lemma_key_of(code: KeyCode)
    requires
        usage_of(code) is Some,
    ensures
        key_of(usage_of(code).unwrap()) == code,
{
}

/// Whether a key stands right behind another on the keyboard page.
pub open spec fn stands_behind(next: KeyCode, key: KeyCode) -> bool {
    &&& usage_of(key) is Some
    &&& usage_of(next) is Some
    &&& usage_of(next)->0 == usage_of(key)->0 + 1
}

/// Every key has a usage, but for the two that the keyboard page does not name.
pub proof fn every_named_key_has_a_usage(code: KeyCode)
    ensures
        usage_of(code) is None <==> (code is Fn || code is Unnamed),
{
}

/// A usage goes back to its key, and a key to its usage: each of the two tables undoes the other.
pub proof fn keys_and_usages_go_back_to_each_other(code: KeyCode, usage: u16)
    ensures
        key_of(usage) != KeyCode::Unnamed ==> usage_of(key_of(usage)) == Some(usage),
        usage_of(code) matches Some(given) ==> key_of(given) == code,
        key_of(usage) == KeyCode::Unnamed ==> usage_of(code) != Some(usage),
{
    if usage_of(code) is Some {
        lemma_key_of(code);
    }
}

/// The letters stand on the keyboard page in alphabetical order, with none between them.
pub proof fn the_letters_stand_in_order()
    ensures
        usage_of(KeyCode::KeyA) == Some(0x04u16),
        stands_behind(KeyCode::KeyB, KeyCode::KeyA),
        stands_behind(KeyCode::KeyC, KeyCode::KeyB),
        stands_behind(KeyCode::KeyD, KeyCode::KeyC),
        stands_behind(KeyCode::KeyE, KeyCode::KeyD),
        stands_behind(KeyCode::KeyF, KeyCode::KeyE),
        stands_behind(KeyCode::KeyG, KeyCode::KeyF),
        stands_behind(KeyCode::KeyH, KeyCode::KeyG),
        stands_behind(KeyCode::KeyI, KeyCode::KeyH),
        stands_behind(KeyCode::KeyJ, KeyCode::KeyI),
        stands_behind(KeyCode::KeyK, KeyCode::KeyJ),
        stands_behind(KeyCode::KeyL, KeyCode::KeyK),
        stands_behind(KeyCode::KeyM, KeyCode::KeyL),
        stands_behind(KeyCode::KeyN, KeyCode::KeyM),
        stands_behind(KeyCode::KeyO, KeyCode::KeyN),
        stands_behind(KeyCode::KeyP, KeyCode::KeyO),
        stands_behind(KeyCode::KeyQ, KeyCode::KeyP),
        stands_behind(KeyCode::KeyR, KeyCode::KeyQ),
        stands_behind(KeyCode::KeyS, KeyCode::KeyR),
        stands_behind(KeyCode::KeyT, KeyCode::KeyS),
        stands_behind(KeyCode::KeyU, KeyCode::KeyT),
        stands_behind(KeyCode::KeyV, KeyCode::KeyU),
        stands_behind(KeyCode::KeyW, KeyCode::KeyV),
        stands_behind(KeyCode::KeyX, KeyCode::KeyW),
        stands_behind(KeyCode::KeyY, KeyCode::KeyX),
        stands_behind(KeyCode::KeyZ, KeyCode::KeyY),
{
}

/// The digits stand on the keyboard page from one to nine with zero last, behind the letters.
pub proof fn the_digits_stand_in_order()
    ensures
        stands_behind(KeyCode::Digit1, KeyCode::KeyZ),
        stands_behind(KeyCode::Digit2, KeyCode::Digit1),
        stands_behind(KeyCode::Digit3, KeyCode::Digit2),
        stands_behind(KeyCode::Digit4, KeyCode::Digit3),
        stands_behind(KeyCode::Digit5, KeyCode::Digit4),
        stands_behind(KeyCode::Digit6, KeyCode::Digit5),
        stands_behind(KeyCode::Digit7, KeyCode::Digit6),
        stands_behind(KeyCode::Digit8, KeyCode::Digit7),
        stands_behind(KeyCode::Digit9, KeyCode::Digit8),
        stands_behind(KeyCode::Digit0, KeyCode::Digit9),
{
}

/// The keys that write or end a line stand behind the digits, and the signs behind them; one place
/// between the two rows of signs is left free.
pub proof fn the_signs_stand_in_order()
    ensures
        stands_behind(KeyCode::Enter, KeyCode::Digit0),
        usage_of(KeyCode::Semicolon)->0 == usage_of(KeyCode::Backslash)->0 + 2,
        stands_behind(KeyCode::Escape, KeyCode::Enter),
        stands_behind(KeyCode::Backspace, KeyCode::Escape),
        stands_behind(KeyCode::Tab, KeyCode::Backspace),
        stands_behind(KeyCode::Space, KeyCode::Tab),
        stands_behind(KeyCode::Minus, KeyCode::Space),
        stands_behind(KeyCode::Equal, KeyCode::Minus),
        stands_behind(KeyCode::BracketLeft, KeyCode::Equal),
        stands_behind(KeyCode::BracketRight, KeyCode::BracketLeft),
        stands_behind(KeyCode::Backslash, KeyCode::BracketRight),
        stands_behind(KeyCode::Quote, KeyCode::Semicolon),
        stands_behind(KeyCode::Backquote, KeyCode::Quote),
        stands_behind(KeyCode::Comma, KeyCode::Backquote),
        stands_behind(KeyCode::Period, KeyCode::Comma),
        stands_behind(KeyCode::Slash, KeyCode::Period),
        stands_behind(KeyCode::CapsLock, KeyCode::Slash),
{
}

/// The function keys stand in the order of their numbers, and the editing and arrow keys behind
/// them.
pub proof fn the_function_keys_stand_in_order()
    ensures
        stands_behind(KeyCode::F1, KeyCode::CapsLock),
        stands_behind(KeyCode::PrintScreen, KeyCode::F12),
        stands_behind(KeyCode::F2, KeyCode::F1),
        stands_behind(KeyCode::F3, KeyCode::F2),
        stands_behind(KeyCode::F4, KeyCode::F3),
        stands_behind(KeyCode::F5, KeyCode::F4),
        stands_behind(KeyCode::F6, KeyCode::F5),
        stands_behind(KeyCode::F7, KeyCode::F6),
        stands_behind(KeyCode::F8, KeyCode::F7),
        stands_behind(KeyCode::F9, KeyCode::F8),
        stands_behind(KeyCode::F10, KeyCode::F9),
        stands_behind(KeyCode::F11, KeyCode::F10),
        stands_behind(KeyCode::F12, KeyCode::F11),
        stands_behind(KeyCode::ScrollLock, KeyCode::PrintScreen),
        stands_behind(KeyCode::Pause, KeyCode::ScrollLock),
        stands_behind(KeyCode::Insert, KeyCode::Pause),
        stands_behind(KeyCode::Home, KeyCode::Insert),
        stands_behind(KeyCode::PageUp, KeyCode::Home),
        stands_behind(KeyCode::Delete, KeyCode::PageUp),
        stands_behind(KeyCode::End, KeyCode::Delete),
        stands_behind(KeyCode::PageDown, KeyCode::End),
        stands_behind(KeyCode::ArrowRight, KeyCode::PageDown),
        stands_behind(KeyCode::ArrowLeft, KeyCode::ArrowRight),
        stands_behind(KeyCode::ArrowDown, KeyCode::ArrowLeft),
        stands_behind(KeyCode::ArrowUp, KeyCode::ArrowDown),
{
}

/// The keypad stands behind the arrows, its digits from one to nine with zero last.
pub proof fn the_keypad_stands_in_order()
    ensures
        stands_behind(KeyCode::NumLock, KeyCode::ArrowUp),
        usage_of(KeyCode::ContextMenu)->0 == usage_of(KeyCode::NumpadDecimal)->0 + 2,
        stands_behind(KeyCode::NumpadDivide, KeyCode::NumLock),
        stands_behind(KeyCode::NumpadMultiply, KeyCode::NumpadDivide),
        stands_behind(KeyCode::NumpadSubtract, KeyCode::NumpadMultiply),
        stands_behind(KeyCode::NumpadAdd, KeyCode::NumpadSubtract),
        stands_behind(KeyCode::NumpadEnter, KeyCode::NumpadAdd),
        stands_behind(KeyCode::Numpad1, KeyCode::NumpadEnter),
        stands_behind(KeyCode::Numpad2, KeyCode::Numpad1),
        stands_behind(KeyCode::Numpad3, KeyCode::Numpad2),
        stands_behind(KeyCode::Numpad4, KeyCode::Numpad3),
        stands_behind(KeyCode::Numpad5, KeyCode::Numpad4),
        stands_behind(KeyCode::Numpad6, KeyCode::Numpad5),
        stands_behind(KeyCode::Numpad7, KeyCode::Numpad6),
        stands_behind(KeyCode::Numpad8, KeyCode::Numpad7),
        stands_behind(KeyCode::Numpad9, KeyCode::Numpad8),
        stands_behind(KeyCode::Numpad0, KeyCode::Numpad9),
        stands_behind(KeyCode::NumpadDecimal, KeyCode::Numpad0),
{
}

/// The modifiers stand in order from the left control key, and each right one four places behind
/// the left one.
pub proof fn the_modifiers_stand_in_order()
    ensures
        usage_of(KeyCode::ControlLeft) == Some(0xe0u16),
        usage_of(KeyCode::ControlRight)->0 == usage_of(KeyCode::ControlLeft)->0 + 4,
        usage_of(KeyCode::ShiftRight)->0 == usage_of(KeyCode::ShiftLeft)->0 + 4,
        usage_of(KeyCode::AltRight)->0 == usage_of(KeyCode::AltLeft)->0 + 4,
        usage_of(KeyCode::SuperRight)->0 == usage_of(KeyCode::SuperLeft)->0 + 4,
        stands_behind(KeyCode::ShiftLeft, KeyCode::ControlLeft),
        stands_behind(KeyCode::AltLeft, KeyCode::ShiftLeft),
        stands_behind(KeyCode::SuperLeft, KeyCode::AltLeft),
        stands_behind(KeyCode::ControlRight, KeyCode::SuperLeft),
        stands_behind(KeyCode::ShiftRight, KeyCode::ControlRight),
        stands_behind(KeyCode::AltRight, KeyCode::ShiftRight),
        stands_behind(KeyCode::SuperRight, KeyCode::AltRight),
{
}

} // verus!
