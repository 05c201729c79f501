//! How GLFW's key, action and button codes map to the engine's, which
//! window system the session runs, and the listeners of a window.
use vstd::prelude::*;
use crate::window::{KeyboardKey, KeyState, MouseButton, WindowEventType, WINDOW_EVENT_TYPE_COUNT, event_type_index, event_type_index_spec};

verus! {

pub const GLFW_KEY_SPACE: u32 = 32;
pub const GLFW_KEY_APOSTROPHE: u32 = 39;
pub const GLFW_KEY_COMMA: u32 = 44;
pub const GLFW_KEY_MINUS: u32 = 45;
pub const GLFW_KEY_PERIOD: u32 = 46;
pub const GLFW_KEY_SLASH: u32 = 47;
pub const GLFW_KEY_0: u32 = 48;
pub const GLFW_KEY_1: u32 = 49;
pub const GLFW_KEY_2: u32 = 50;
pub const GLFW_KEY_3: u32 = 51;
pub const GLFW_KEY_4: u32 = 52;
pub const GLFW_KEY_5: u32 = 53;
pub const GLFW_KEY_6: u32 = 54;
pub const GLFW_KEY_7: u32 = 55;
pub const GLFW_KEY_8: u32 = 56;
pub const GLFW_KEY_9: u32 = 57;
pub const GLFW_KEY_SEMICOLON: u32 = 59;
pub const GLFW_KEY_EQUAL: u32 = 61;
pub const GLFW_KEY_A: u32 = 65;
pub const GLFW_KEY_B: u32 = 66;
pub const GLFW_KEY_C: u32 = 67;
pub const GLFW_KEY_D: u32 = 68;
pub const GLFW_KEY_E: u32 = 69;
pub const GLFW_KEY_F: u32 = 70;
pub const GLFW_KEY_G: u32 = 71;
pub const GLFW_KEY_H: u32 = 72;
pub const GLFW_KEY_I: u32 = 73;
pub const GLFW_KEY_J: u32 = 74;
pub const GLFW_KEY_K: u32 = 75;
pub const GLFW_KEY_L: u32 = 76;
pub const GLFW_KEY_M: u32 = 77;
pub const GLFW_KEY_N: u32 = 78;
pub const GLFW_KEY_O: u32 = 79;
pub const GLFW_KEY_P: u32 = 80;
pub const GLFW_KEY_Q: u32 = 81;
pub const GLFW_KEY_R: u32 = 82;
pub const GLFW_KEY_S: u32 = 83;
pub const GLFW_KEY_T: u32 = 84;
pub const GLFW_KEY_U: u32 = 85;
pub const GLFW_KEY_V: u32 = 86;
pub const GLFW_KEY_W: u32 = 87;
pub const GLFW_KEY_X: u32 = 88;
pub const GLFW_KEY_Y: u32 = 89;
pub const GLFW_KEY_Z: u32 = 90;
pub const GLFW_KEY_LEFT_BRACKET: u32 = 91;
pub const GLFW_KEY_BACKSLASH: u32 = 92;
pub const GLFW_KEY_RIGHT_BRACKET: u32 = 93;
pub const GLFW_KEY_GRAVE_ACCENT: u32 = 96;
pub const GLFW_KEY_WORLD_1: u32 = 161;
pub const GLFW_KEY_WORLD_2: u32 = 162;
pub const GLFW_KEY_ESCAPE: u32 = 256;
pub const GLFW_KEY_ENTER: u32 = 257;
pub const GLFW_KEY_TAB: u32 = 258;
pub const GLFW_KEY_BACKSPACE: u32 = 259;
pub const GLFW_KEY_INSERT: u32 = 260;
pub const GLFW_KEY_DELETE: u32 = 261;
pub const GLFW_KEY_RIGHT: u32 = 262;
pub const GLFW_KEY_LEFT: u32 = 263;
pub const GLFW_KEY_DOWN: u32 = 264;
pub const GLFW_KEY_UP: u32 = 265;
pub const GLFW_KEY_PAGE_UP: u32 = 266;
pub const GLFW_KEY_PAGE_DOWN: u32 = 267;
pub const GLFW_KEY_HOME: u32 = 268;
pub const GLFW_KEY_END: u32 = 269;
pub const GLFW_KEY_CAPS_LOCK: u32 = 280;
pub const GLFW_KEY_SCROLL_LOCK: u32 = 281;
pub const GLFW_KEY_NUM_LOCK: u32 = 282;
pub const GLFW_KEY_PRINT_SCREEN: u32 = 283;
pub const GLFW_KEY_PAUSE: u32 = 284;
pub const GLFW_KEY_F1: u32 = 290;
pub const GLFW_KEY_F2: u32 = 291;
pub const GLFW_KEY_F3: u32 = 292;
pub const GLFW_KEY_F4: u32 = 293;
pub const GLFW_KEY_F5: u32 = 294;
pub const GLFW_KEY_F6: u32 = 295;
pub const GLFW_KEY_F7: u32 = 296;
pub const GLFW_KEY_F8: u32 = 297;
pub const GLFW_KEY_F9: u32 = 298;
pub const GLFW_KEY_F10: u32 = 299;
pub const GLFW_KEY_F11: u32 = 300;
pub const GLFW_KEY_F12: u32 = 301;
pub const GLFW_KEY_F13: u32 = 302;
pub const GLFW_KEY_F14: u32 = 303;
pub const GLFW_KEY_F15: u32 = 304;
pub const GLFW_KEY_F16: u32 = 305;
pub const GLFW_KEY_F17: u32 = 306;
pub const GLFW_KEY_F18: u32 = 307;
pub const GLFW_KEY_F19: u32 = 308;
pub const GLFW_KEY_F20: u32 = 309;
pub const GLFW_KEY_F21: u32 = 310;
pub const GLFW_KEY_F22: u32 = 311;
pub const GLFW_KEY_F23: u32 = 312;
pub const GLFW_KEY_F24: u32 = 313;
pub const GLFW_KEY_F25: u32 = 314;
pub const GLFW_KEY_KP_0: u32 = 320;
pub const GLFW_KEY_KP_1: u32 = 321;
pub const GLFW_KEY_KP_2: u32 = 322;
pub const GLFW_KEY_KP_3: u32 = 323;
pub const GLFW_KEY_KP_4: u32 = 324;
pub const GLFW_KEY_KP_5: u32 = 325;
pub const GLFW_KEY_KP_6: u32 = 326;
pub const GLFW_KEY_KP_7: u32 = 327;
pub const GLFW_KEY_KP_8: u32 = 328;
pub const GLFW_KEY_KP_9: u32 = 329;
pub const GLFW_KEY_KP_DECIMAL: u32 = 330;
pub const GLFW_KEY_KP_DIVIDE: u32 = 331;
pub const GLFW_KEY_KP_MULTIPLY: u32 = 332;
pub const GLFW_KEY_KP_SUBTRACT: u32 = 333;
pub const GLFW_KEY_KP_ADD: u32 = 334;
pub const GLFW_KEY_KP_ENTER: u32 = 335;
pub const GLFW_KEY_KP_EQUAL: u32 = 336;
pub const GLFW_KEY_LEFT_SHIFT: u32 = 340;
pub const GLFW_KEY_LEFT_CONTROL: u32 = 341;
pub const GLFW_KEY_LEFT_ALT: u32 = 342;
pub const GLFW_KEY_LEFT_SUPER: u32 = 343;
pub const GLFW_KEY_RIGHT_SHIFT: u32 = 344;
pub const GLFW_KEY_RIGHT_CONTROL: u32 = 345;
pub const GLFW_KEY_RIGHT_ALT: u32 = 346;
pub const GLFW_KEY_RIGHT_SUPER: u32 = 347;
pub const GLFW_KEY_MENU: u32 = 348;
pub const GLFW_KEY_LAST: u32 = 348;

pub const GLFW_RELEASE: u32 = 0;
pub const GLFW_PRESS: u32 = 1;
pub const GLFW_REPEAT: u32 = 2;

pub const GLFW_MOUSE_BUTTON_1: u32 = 0;
pub const GLFW_MOUSE_BUTTON_2: u32 = 1;
pub const GLFW_MOUSE_BUTTON_3: u32 = 2;
pub const GLFW_MOUSE_BUTTON_4: u32 = 3;
pub const GLFW_MOUSE_BUTTON_5: u32 = 4;
pub const GLFW_MOUSE_BUTTON_6: u32 = 5;
pub const GLFW_MOUSE_BUTTON_7: u32 = 6;
pub const GLFW_MOUSE_BUTTON_8: u32 = 7;

/// The key a GLFW key code stands for: the first entry of the table whose
/// code matches, or `Unknown`. (GLFW's last key code is the menu key's, so
/// the menu key wins and `Last` is never reported.)
pub open spec fn key_for_code(code: u32) -> KeyboardKey {
    if code == GLFW_KEY_SPACE {
        KeyboardKey::Space
    } else if code == GLFW_KEY_APOSTROPHE {
        KeyboardKey::Apostrophe
    } else if code == GLFW_KEY_COMMA {
        KeyboardKey::Comma
    } else if code == GLFW_KEY_MINUS {
        KeyboardKey::Minus
    } else if code == GLFW_KEY_PERIOD {
        KeyboardKey::Period
    } else if code == GLFW_KEY_SLASH {
        KeyboardKey::Slash
    } else if code == GLFW_KEY_0 {
        KeyboardKey::Zero
    } else if code == GLFW_KEY_1 {
        KeyboardKey::One
    } else if code == GLFW_KEY_2 {
        KeyboardKey::Two
    } else if code == GLFW_KEY_3 {
        KeyboardKey::Three
    } else if code == GLFW_KEY_4 {
        KeyboardKey::Four
    } else if code == GLFW_KEY_5 {
        KeyboardKey::Five
    } else if code == GLFW_KEY_6 {
        KeyboardKey::Six
    } else if code == GLFW_KEY_7 {
        KeyboardKey::Seven
    } else if code == GLFW_KEY_8 {
        KeyboardKey::Eight
    } else if code == GLFW_KEY_9 {
        KeyboardKey::Nine
    } else if code == GLFW_KEY_SEMICOLON {
        KeyboardKey::Semicolon
    } else if code == GLFW_KEY_EQUAL {
        KeyboardKey::Equal
    } else if code == GLFW_KEY_A {
        KeyboardKey::A
    } else if code == GLFW_KEY_B {
        KeyboardKey::B
    } else if code == GLFW_KEY_C {
        KeyboardKey::C
    } else if code == GLFW_KEY_D {
        KeyboardKey::D
    } else if code == GLFW_KEY_E {
        KeyboardKey::E
    } else if code == GLFW_KEY_F {
        KeyboardKey::F
    } else if code == GLFW_KEY_G {
        KeyboardKey::G
    } else if code == GLFW_KEY_H {
        KeyboardKey::H
    } else if code == GLFW_KEY_I {
        KeyboardKey::I
    } else if code == GLFW_KEY_J {
        KeyboardKey::J
    } else if code == GLFW_KEY_K {
        KeyboardKey::K
    } else if code == GLFW_KEY_L {
        KeyboardKey::L
    } else if code == GLFW_KEY_M {
        KeyboardKey::M
    } else if code == GLFW_KEY_N {
        KeyboardKey::N
    } else if code == GLFW_KEY_O {
        KeyboardKey::O
    } else if code == GLFW_KEY_P {
        KeyboardKey::P
    } else if code == GLFW_KEY_Q {
        KeyboardKey::Q
    } else if code == GLFW_KEY_R {
        KeyboardKey::R
    } else if code == GLFW_KEY_S {
        KeyboardKey::S
    } else if code == GLFW_KEY_T {
        KeyboardKey::T
    } else if code == GLFW_KEY_U {
        KeyboardKey::U
    } else if code == GLFW_KEY_V {
        KeyboardKey::V
    } else if code == GLFW_KEY_W {
        KeyboardKey::W
    } else if code == GLFW_KEY_X {
        KeyboardKey::X
    } else if code == GLFW_KEY_Y {
        KeyboardKey::Y
    } else if code == GLFW_KEY_Z {
        KeyboardKey::Z
    } else if code == GLFW_KEY_LEFT_BRACKET {
        KeyboardKey::LeftBracket
    } else if code == GLFW_KEY_BACKSLASH {
        KeyboardKey::Backslash
    } else if code == GLFW_KEY_RIGHT_BRACKET {
        KeyboardKey::RightBracket
    } else if code == GLFW_KEY_GRAVE_ACCENT {
        KeyboardKey::GraveAccent
    } else if code == GLFW_KEY_WORLD_1 {
        KeyboardKey::World1
    } else if code == GLFW_KEY_WORLD_2 {
        KeyboardKey::World2
    } else if code == GLFW_KEY_ESCAPE {
        KeyboardKey::Escape
    } else if code == GLFW_KEY_ENTER {
        KeyboardKey::Enter
    } else if code == GLFW_KEY_TAB {
        KeyboardKey::Tab
    } else if code == GLFW_KEY_BACKSPACE {
        KeyboardKey::Backspace
    } else if code == GLFW_KEY_INSERT {
        KeyboardKey::Insert
    } else if code == GLFW_KEY_DELETE {
        KeyboardKey::Delete
    } else if code == GLFW_KEY_RIGHT {
        KeyboardKey::Right
    } else if code == GLFW_KEY_LEFT {
        KeyboardKey::Left
    } else if code == GLFW_KEY_DOWN {
        KeyboardKey::Down
    } else if code == GLFW_KEY_UP {
        KeyboardKey::Up
    } else if code == GLFW_KEY_PAGE_UP {
        KeyboardKey::PageUp
    } else if code == GLFW_KEY_PAGE_DOWN {
        KeyboardKey::PageDown
    } else if code == GLFW_KEY_HOME {
        KeyboardKey::Home
    } else if code == GLFW_KEY_END {
        KeyboardKey::End
    } else if code == GLFW_KEY_CAPS_LOCK {
        KeyboardKey::CapsLock
    } else if code == GLFW_KEY_SCROLL_LOCK {
        KeyboardKey::ScollLock
    } else if code == GLFW_KEY_NUM_LOCK {
        KeyboardKey::NumLock
    } else if code == GLFW_KEY_PRINT_SCREEN {
        KeyboardKey::PrintScreen
    } else if code == GLFW_KEY_PAUSE {
        KeyboardKey::Pause
    } else if code == GLFW_KEY_F1 {
        KeyboardKey::F1
    } else if code == GLFW_KEY_F2 {
        KeyboardKey::F2
    } else if code == GLFW_KEY_F3 {
        KeyboardKey::F3
    } else if code == GLFW_KEY_F4 {
        KeyboardKey::F4
    } else if code == GLFW_KEY_F5 {
        KeyboardKey::F5
    } else if code == GLFW_KEY_F6 {
        KeyboardKey::F6
    } else if code == GLFW_KEY_F7 {
        KeyboardKey::F7
    } else if code == GLFW_KEY_F8 {
        KeyboardKey::F8
    } else if code == GLFW_KEY_F9 {
        KeyboardKey::F9
    } else if code == GLFW_KEY_F10 {
        KeyboardKey::F10
    } else if code == GLFW_KEY_F11 {
        KeyboardKey::F11
    } else if code == GLFW_KEY_F12 {
        KeyboardKey::F12
    } else if code == GLFW_KEY_F13 {
        KeyboardKey::F13
    } else if code == GLFW_KEY_F14 {
        KeyboardKey::F14
    } else if code == GLFW_KEY_F15 {
        KeyboardKey::F15
    } else if code == GLFW_KEY_F16 {
        KeyboardKey::F16
    } else if code == GLFW_KEY_F17 {
        KeyboardKey::F17
    } else if code == GLFW_KEY_F18 {
        KeyboardKey::F18
    } else if code == GLFW_KEY_F19 {
        KeyboardKey::F19
    } else if code == GLFW_KEY_F20 {
        KeyboardKey::F20
    } else if code == GLFW_KEY_F21 {
        KeyboardKey::F21
    } else if code == GLFW_KEY_F22 {
        KeyboardKey::F22
    } else if code == GLFW_KEY_F23 {
        KeyboardKey::F23
    } else if code == GLFW_KEY_F24 {
        KeyboardKey::F24
    } else if code == GLFW_KEY_F25 {
        KeyboardKey::F25
    } else if code == GLFW_KEY_KP_0 {
        KeyboardKey::KP0
    } else if code == GLFW_KEY_KP_1 {
        KeyboardKey::KP1
    } else if code == GLFW_KEY_KP_2 {
        KeyboardKey::KP2
    } else if code == GLFW_KEY_KP_3 {
        KeyboardKey::KP3
    } else if code == GLFW_KEY_KP_4 {
        KeyboardKey::KP4
    } else if code == GLFW_KEY_KP_5 {
        KeyboardKey::KP5
    } else if code == GLFW_KEY_KP_6 {
        KeyboardKey::KP6
    } else if code == GLFW_KEY_KP_7 {
        KeyboardKey::KP7
    } else if code == GLFW_KEY_KP_8 {
        KeyboardKey::KP8
    } else if code == GLFW_KEY_KP_9 {
        KeyboardKey::KP9
    } else if code == GLFW_KEY_KP_DECIMAL {
        KeyboardKey::KPDecimal
    } else if code == GLFW_KEY_KP_DIVIDE {
        KeyboardKey::KPDivide
    } else if code == GLFW_KEY_KP_MULTIPLY {
        KeyboardKey::KPMultiply
    } else if code == GLFW_KEY_KP_SUBTRACT {
        KeyboardKey::KPSubtract
    } else if code == GLFW_KEY_KP_ADD {
        KeyboardKey::KPAdd
    } else if code == GLFW_KEY_KP_ENTER {
        KeyboardKey::KPEnter
    } else if code == GLFW_KEY_KP_EQUAL {
        KeyboardKey::KPEqual
    } else if code == GLFW_KEY_LEFT_SHIFT {
        KeyboardKey::LeftShift
    } else if code == GLFW_KEY_LEFT_CONTROL {
        KeyboardKey::LeftControl
    } else if code == GLFW_KEY_LEFT_ALT {
        KeyboardKey::LeftAlt
    } else if code == GLFW_KEY_LEFT_SUPER {
        KeyboardKey::LeftSuper
    } else if code == GLFW_KEY_RIGHT_SHIFT {
        KeyboardKey::RightShift
    } else if code == GLFW_KEY_RIGHT_CONTROL {
        KeyboardKey::RightControl
    } else if code == GLFW_KEY_RIGHT_ALT {
        KeyboardKey::RightAlt
    } else if code == GLFW_KEY_RIGHT_SUPER {
        KeyboardKey::RightSuper
    } else if code == GLFW_KEY_MENU {
        KeyboardKey::Menu
    } else if code == GLFW_KEY_LAST {
        KeyboardKey::Last
    } else {
        KeyboardKey::Unknown
    }
}

/// The engine's key for a GLFW key code; codes it does not know, negative
/// ones among them, are `Unknown`.
/// The GLFW code of a key the table maps to; codes of keys outside it are
/// never asked for.
spec fn code_of_key(k: KeyboardKey) -> u32 {
    match k {
        KeyboardKey::Space => GLFW_KEY_SPACE,
        KeyboardKey::Apostrophe => GLFW_KEY_APOSTROPHE,
        KeyboardKey::Comma => GLFW_KEY_COMMA,
        KeyboardKey::Minus => GLFW_KEY_MINUS,
        KeyboardKey::Period => GLFW_KEY_PERIOD,
        KeyboardKey::Slash => GLFW_KEY_SLASH,
        KeyboardKey::Zero => GLFW_KEY_0,
        KeyboardKey::One => GLFW_KEY_1,
        KeyboardKey::Two => GLFW_KEY_2,
        KeyboardKey::Three => GLFW_KEY_3,
        KeyboardKey::Four => GLFW_KEY_4,
        KeyboardKey::Five => GLFW_KEY_5,
        KeyboardKey::Six => GLFW_KEY_6,
        KeyboardKey::Seven => GLFW_KEY_7,
        KeyboardKey::Eight => GLFW_KEY_8,
        KeyboardKey::Nine => GLFW_KEY_9,
        KeyboardKey::Semicolon => GLFW_KEY_SEMICOLON,
        KeyboardKey::Equal => GLFW_KEY_EQUAL,
        KeyboardKey::A => GLFW_KEY_A,
        KeyboardKey::B => GLFW_KEY_B,
        KeyboardKey::C => GLFW_KEY_C,
        KeyboardKey::D => GLFW_KEY_D,
        KeyboardKey::E => GLFW_KEY_E,
        KeyboardKey::F => GLFW_KEY_F,
        KeyboardKey::G => GLFW_KEY_G,
        KeyboardKey::H => GLFW_KEY_H,
        KeyboardKey::I => GLFW_KEY_I,
        KeyboardKey::J => GLFW_KEY_J,
        KeyboardKey::K => GLFW_KEY_K,
        KeyboardKey::L => GLFW_KEY_L,
        KeyboardKey::M => GLFW_KEY_M,
        KeyboardKey::N => GLFW_KEY_N,
        KeyboardKey::O => GLFW_KEY_O,
        KeyboardKey::P => GLFW_KEY_P,
        KeyboardKey::Q => GLFW_KEY_Q,
        KeyboardKey::R => GLFW_KEY_R,
        KeyboardKey::S => GLFW_KEY_S,
        KeyboardKey::T => GLFW_KEY_T,
        KeyboardKey::U => GLFW_KEY_U,
        KeyboardKey::V => GLFW_KEY_V,
        KeyboardKey::W => GLFW_KEY_W,
        KeyboardKey::X => GLFW_KEY_X,
        KeyboardKey::Y => GLFW_KEY_Y,
        KeyboardKey::Z => GLFW_KEY_Z,
        KeyboardKey::LeftBracket => GLFW_KEY_LEFT_BRACKET,
        KeyboardKey::Backslash => GLFW_KEY_BACKSLASH,
        KeyboardKey::RightBracket => GLFW_KEY_RIGHT_BRACKET,
        KeyboardKey::GraveAccent => GLFW_KEY_GRAVE_ACCENT,
        KeyboardKey::World1 => GLFW_KEY_WORLD_1,
        KeyboardKey::World2 => GLFW_KEY_WORLD_2,
        KeyboardKey::Escape => GLFW_KEY_ESCAPE,
        KeyboardKey::Enter => GLFW_KEY_ENTER,
        KeyboardKey::Tab => GLFW_KEY_TAB,
        KeyboardKey::Backspace => GLFW_KEY_BACKSPACE,
        KeyboardKey::Insert => GLFW_KEY_INSERT,
        KeyboardKey::Delete => GLFW_KEY_DELETE,
        KeyboardKey::Right => GLFW_KEY_RIGHT,
        KeyboardKey::Left => GLFW_KEY_LEFT,
        KeyboardKey::Down => GLFW_KEY_DOWN,
        KeyboardKey::Up => GLFW_KEY_UP,
        KeyboardKey::PageUp => GLFW_KEY_PAGE_UP,
        KeyboardKey::PageDown => GLFW_KEY_PAGE_DOWN,
        KeyboardKey::Home => GLFW_KEY_HOME,
        KeyboardKey::End => GLFW_KEY_END,
        KeyboardKey::CapsLock => GLFW_KEY_CAPS_LOCK,
        KeyboardKey::ScollLock => GLFW_KEY_SCROLL_LOCK,
        KeyboardKey::NumLock => GLFW_KEY_NUM_LOCK,
        KeyboardKey::PrintScreen => GLFW_KEY_PRINT_SCREEN,
        KeyboardKey::Pause => GLFW_KEY_PAUSE,
        KeyboardKey::F1 => GLFW_KEY_F1,
        KeyboardKey::F2 => GLFW_KEY_F2,
        KeyboardKey::F3 => GLFW_KEY_F3,
        KeyboardKey::F4 => GLFW_KEY_F4,
        KeyboardKey::F5 => GLFW_KEY_F5,
        KeyboardKey::F6 => GLFW_KEY_F6,
        KeyboardKey::F7 => GLFW_KEY_F7,
        KeyboardKey::F8 => GLFW_KEY_F8,
        KeyboardKey::F9 => GLFW_KEY_F9,
        KeyboardKey::F10 => GLFW_KEY_F10,
        KeyboardKey::F11 => GLFW_KEY_F11,
        KeyboardKey::F12 => GLFW_KEY_F12,
        KeyboardKey::F13 => GLFW_KEY_F13,
        KeyboardKey::F14 => GLFW_KEY_F14,
        KeyboardKey::F15 => GLFW_KEY_F15,
        KeyboardKey::F16 => GLFW_KEY_F16,
        KeyboardKey::F17 => GLFW_KEY_F17,
        KeyboardKey::F18 => GLFW_KEY_F18,
        KeyboardKey::F19 => GLFW_KEY_F19,
        KeyboardKey::F20 => GLFW_KEY_F20,
        KeyboardKey::F21 => GLFW_KEY_F21,
        KeyboardKey::F22 => GLFW_KEY_F22,
        KeyboardKey::F23 => GLFW_KEY_F23,
        KeyboardKey::F24 => GLFW_KEY_F24,
        KeyboardKey::F25 => GLFW_KEY_F25,
        KeyboardKey::KP0 => GLFW_KEY_KP_0,
        KeyboardKey::KP1 => GLFW_KEY_KP_1,
        KeyboardKey::KP2 => GLFW_KEY_KP_2,
        KeyboardKey::KP3 => GLFW_KEY_KP_3,
        KeyboardKey::KP4 => GLFW_KEY_KP_4,
        KeyboardKey::KP5 => GLFW_KEY_KP_5,
        KeyboardKey::KP6 => GLFW_KEY_KP_6,
        KeyboardKey::KP7 => GLFW_KEY_KP_7,
        KeyboardKey::KP8 => GLFW_KEY_KP_8,
        KeyboardKey::KP9 => GLFW_KEY_KP_9,
        KeyboardKey::KPDecimal => GLFW_KEY_KP_DECIMAL,
        KeyboardKey::KPDivide => GLFW_KEY_KP_DIVIDE,
        KeyboardKey::KPMultiply => GLFW_KEY_KP_MULTIPLY,
        KeyboardKey::KPSubtract => GLFW_KEY_KP_SUBTRACT,
        KeyboardKey::KPAdd => GLFW_KEY_KP_ADD,
        KeyboardKey::KPEnter => GLFW_KEY_KP_ENTER,
        KeyboardKey::KPEqual => GLFW_KEY_KP_EQUAL,
        KeyboardKey::LeftShift => GLFW_KEY_LEFT_SHIFT,
        KeyboardKey::LeftControl => GLFW_KEY_LEFT_CONTROL,
        KeyboardKey::LeftAlt => GLFW_KEY_LEFT_ALT,
        KeyboardKey::LeftSuper => GLFW_KEY_LEFT_SUPER,
        KeyboardKey::RightShift => GLFW_KEY_RIGHT_SHIFT,
        KeyboardKey::RightControl => GLFW_KEY_RIGHT_CONTROL,
        KeyboardKey::RightAlt => GLFW_KEY_RIGHT_ALT,
        KeyboardKey::RightSuper => GLFW_KEY_RIGHT_SUPER,
        KeyboardKey::Menu => GLFW_KEY_MENU,
        _ => GLFW_KEY_LAST,
    }
}

/// Every code the table knows gives back its code through `code_of_key`.
proof fn lemma_code_of_key_inverts(code: u32)
    requires
        key_for_code(code) != KeyboardKey::Unknown,
    ensures
        code_of_key(key_for_code(code)) == code,
{
}

/// No two GLFW key codes map to the same known key.
pub proof fn lemma_key_codes_distinct(c1: u32, c2: u32)
    requires
        key_for_code(c1) == key_for_code(c2),
        key_for_code(c1) != KeyboardKey::Unknown,
    ensures
        c1 == c2,
{
    lemma_code_of_key_inverts(c1);
    lemma_code_of_key_inverts(c2);
}

/// The letter keys: GLFW's codes from `A` on, in alphabetical order, map to
/// the engine's keys of the same letters.
pub proof fn lemma_letter_keys()
    ensures
        forall|i: int|
            0 <= i < 26 ==> #[trigger] key_for_code((GLFW_KEY_A + i) as u32) == seq![
                KeyboardKey::A, KeyboardKey::B, KeyboardKey::C, KeyboardKey::D, KeyboardKey::E,
                KeyboardKey::F, KeyboardKey::G, KeyboardKey::H, KeyboardKey::I, KeyboardKey::J,
                KeyboardKey::K, KeyboardKey::L, KeyboardKey::M, KeyboardKey::N, KeyboardKey::O,
                KeyboardKey::P, KeyboardKey::Q, KeyboardKey::R, KeyboardKey::S, KeyboardKey::T,
                KeyboardKey::U, KeyboardKey::V, KeyboardKey::W, KeyboardKey::X, KeyboardKey::Y,
                KeyboardKey::Z,
            ][i],
{
}

/// The digit keys: GLFW's codes from `0` on map to the engine's keys of the
/// same digits.
pub proof fn lemma_digit_keys()
    ensures
        forall|i: int|
            0 <= i < 10 ==> #[trigger] key_for_code((GLFW_KEY_0 + i) as u32) == seq![
                KeyboardKey::Zero, KeyboardKey::One, KeyboardKey::Two, KeyboardKey::Three,
                KeyboardKey::Four, KeyboardKey::Five, KeyboardKey::Six, KeyboardKey::Seven,
                KeyboardKey::Eight, KeyboardKey::Nine,
            ][i],
{
}

/// The function keys: GLFW's codes from `F1` on map to the engine's `F1` to
/// `F25`, in order.
pub proof fn lemma_function_keys()
    ensures
        forall|i: int|
            0 <= i < 25 ==> #[trigger] key_for_code((GLFW_KEY_F1 + i) as u32) == seq![
                KeyboardKey::F1, KeyboardKey::F2, KeyboardKey::F3, KeyboardKey::F4,
                KeyboardKey::F5, KeyboardKey::F6, KeyboardKey::F7, KeyboardKey::F8,
                KeyboardKey::F9, KeyboardKey::F10, KeyboardKey::F11, KeyboardKey::F12,
                KeyboardKey::F13, KeyboardKey::F14, KeyboardKey::F15, KeyboardKey::F16,
                KeyboardKey::F17, KeyboardKey::F18, KeyboardKey::F19, KeyboardKey::F20,
                KeyboardKey::F21, KeyboardKey::F22, KeyboardKey::F23, KeyboardKey::F24,
                KeyboardKey::F25,
            ][i],
{
}

/// The keypad digits: GLFW's codes from keypad `0` on map to the engine's
/// keypad digits, in order.
pub proof fn lemma_keypad_digit_keys()
    ensures
        forall|i: int|
            0 <= i < 10 ==> #[trigger] key_for_code((GLFW_KEY_KP_0 + i) as u32) == seq![
                KeyboardKey::KP0, KeyboardKey::KP1, KeyboardKey::KP2, KeyboardKey::KP3,
                KeyboardKey::KP4, KeyboardKey::KP5, KeyboardKey::KP6, KeyboardKey::KP7,
                KeyboardKey::KP8, KeyboardKey::KP9,
            ][i],
{
}

/// The editing and navigation keys: GLFW's codes from `Escape` to `End` map
/// to the engine's keys of the same names, in order.
pub proof fn lemma_navigation_keys()
    ensures
        forall|i: int|
            0 <= i < 14 ==> #[trigger] key_for_code((GLFW_KEY_ESCAPE + i) as u32) == seq![
                KeyboardKey::Escape, KeyboardKey::Enter, KeyboardKey::Tab, KeyboardKey::Backspace,
                KeyboardKey::Insert, KeyboardKey::Delete, KeyboardKey::Right, KeyboardKey::Left,
                KeyboardKey::Down, KeyboardKey::Up, KeyboardKey::PageUp, KeyboardKey::PageDown,
                KeyboardKey::Home, KeyboardKey::End,
            ][i],
{
}

/// The modifier keys and the menu key: GLFW's codes from left shift to menu
/// map to the engine's keys of the same names, in order.
pub proof fn lemma_modifier_keys()
    ensures
        forall|i: int|
            0 <= i < 9 ==> #[trigger] key_for_code((GLFW_KEY_LEFT_SHIFT + i) as u32) == seq![
                KeyboardKey::LeftShift, KeyboardKey::LeftControl, KeyboardKey::LeftAlt,
                KeyboardKey::LeftSuper, KeyboardKey::RightShift, KeyboardKey::RightControl,
                KeyboardKey::RightAlt, KeyboardKey::RightSuper, KeyboardKey::Menu,
            ][i],
{
}

pub fn glfw_to_window_key(key: i32) -> (r: KeyboardKey)
    ensures
        r == key_for_code(key as u32),
{
    let code = key as u32;
    if code == GLFW_KEY_SPACE {
        KeyboardKey::Space
    } else if code == GLFW_KEY_APOSTROPHE {
        KeyboardKey::Apostrophe
    } else if code == GLFW_KEY_COMMA {
        KeyboardKey::Comma
    } else if code == GLFW_KEY_MINUS {
        KeyboardKey::Minus
    } else if code == GLFW_KEY_PERIOD {
        KeyboardKey::Period
    } else if code == GLFW_KEY_SLASH {
        KeyboardKey::Slash
    } else if code == GLFW_KEY_0 {
        KeyboardKey::Zero
    } else if code == GLFW_KEY_1 {
        KeyboardKey::One
    } else if code == GLFW_KEY_2 {
        KeyboardKey::Two
    } else if code == GLFW_KEY_3 {
        KeyboardKey::Three
    } else if code == GLFW_KEY_4 {
        KeyboardKey::Four
    } else if code == GLFW_KEY_5 {
        KeyboardKey::Five
    } else if code == GLFW_KEY_6 {
        KeyboardKey::Six
    } else if code == GLFW_KEY_7 {
        KeyboardKey::Seven
    } else if code == GLFW_KEY_8 {
        KeyboardKey::Eight
    } else if code == GLFW_KEY_9 {
        KeyboardKey::Nine
    } else if code == GLFW_KEY_SEMICOLON {
        KeyboardKey::Semicolon
    } else if code == GLFW_KEY_EQUAL {
        KeyboardKey::Equal
    } else if code == GLFW_KEY_A {
        KeyboardKey::A
    } else if code == GLFW_KEY_B {
        KeyboardKey::B
    } else if code == GLFW_KEY_C {
        KeyboardKey::C
    } else if code == GLFW_KEY_D {
        KeyboardKey::D
    } else if code == GLFW_KEY_E {
        KeyboardKey::E
    } else if code == GLFW_KEY_F {
        KeyboardKey::F
    } else if code == GLFW_KEY_G {
        KeyboardKey::G
    } else if code == GLFW_KEY_H {
        KeyboardKey::H
    } else if code == GLFW_KEY_I {
        KeyboardKey::I
    } else if code == GLFW_KEY_J {
        KeyboardKey::J
    } else if code == GLFW_KEY_K {
        KeyboardKey::K
    } else if code == GLFW_KEY_L {
        KeyboardKey::L
    } else if code == GLFW_KEY_M {
        KeyboardKey::M
    } else if code == GLFW_KEY_N {
        KeyboardKey::N
    } else if code == GLFW_KEY_O {
        KeyboardKey::O
    } else if code == GLFW_KEY_P {
        KeyboardKey::P
    } else if code == GLFW_KEY_Q {
        KeyboardKey::Q
    } else if code == GLFW_KEY_R {
        KeyboardKey::R
    } else if code == GLFW_KEY_S {
        KeyboardKey::S
    } else if code == GLFW_KEY_T {
        KeyboardKey::T
    } else if code == GLFW_KEY_U {
        KeyboardKey::U
    } else if code == GLFW_KEY_V {
        KeyboardKey::V
    } else if code == GLFW_KEY_W {
        KeyboardKey::W
    } else if code == GLFW_KEY_X {
        KeyboardKey::X
    } else if code == GLFW_KEY_Y {
        KeyboardKey::Y
    } else if code == GLFW_KEY_Z {
        KeyboardKey::Z
    } else if code == GLFW_KEY_LEFT_BRACKET {
        KeyboardKey::LeftBracket
    } else if code == GLFW_KEY_BACKSLASH {
        KeyboardKey::Backslash
    } else if code == GLFW_KEY_RIGHT_BRACKET {
        KeyboardKey::RightBracket
    } else if code == GLFW_KEY_GRAVE_ACCENT {
        KeyboardKey::GraveAccent
    } else if code == GLFW_KEY_WORLD_1 {
        KeyboardKey::World1
    } else if code == GLFW_KEY_WORLD_2 {
        KeyboardKey::World2
    } else if code == GLFW_KEY_ESCAPE {
        KeyboardKey::Escape
    } else if code == GLFW_KEY_ENTER {
        KeyboardKey::Enter
    } else if code == GLFW_KEY_TAB {
        KeyboardKey::Tab
    } else if code == GLFW_KEY_BACKSPACE {
        KeyboardKey::Backspace
    } else if code == GLFW_KEY_INSERT {
        KeyboardKey::Insert
    } else if code == GLFW_KEY_DELETE {
        KeyboardKey::Delete
    } else if code == GLFW_KEY_RIGHT {
        KeyboardKey::Right
    } else if code == GLFW_KEY_LEFT {
        KeyboardKey::Left
    } else if code == GLFW_KEY_DOWN {
        KeyboardKey::Down
    } else if code == GLFW_KEY_UP {
        KeyboardKey::Up
    } else if code == GLFW_KEY_PAGE_UP {
        KeyboardKey::PageUp
    } else if code == GLFW_KEY_PAGE_DOWN {
        KeyboardKey::PageDown
    } else if code == GLFW_KEY_HOME {
        KeyboardKey::Home
    } else if code == GLFW_KEY_END {
        KeyboardKey::End
    } else if code == GLFW_KEY_CAPS_LOCK {
        KeyboardKey::CapsLock
    } else if code == GLFW_KEY_SCROLL_LOCK {
        KeyboardKey::ScollLock
    } else if code == GLFW_KEY_NUM_LOCK {
        KeyboardKey::NumLock
    } else if code == GLFW_KEY_PRINT_SCREEN {
        KeyboardKey::PrintScreen
    } else if code == GLFW_KEY_PAUSE {
        KeyboardKey::Pause
    } else if code == GLFW_KEY_F1 {
        KeyboardKey::F1
    } else if code == GLFW_KEY_F2 {
        KeyboardKey::F2
    } else if code == GLFW_KEY_F3 {
        KeyboardKey::F3
    } else if code == GLFW_KEY_F4 {
        KeyboardKey::F4
    } else if code == GLFW_KEY_F5 {
        KeyboardKey::F5
    } else if code == GLFW_KEY_F6 {
        KeyboardKey::F6
    } else if code == GLFW_KEY_F7 {
        KeyboardKey::F7
    } else if code == GLFW_KEY_F8 {
        KeyboardKey::F8
    } else if code == GLFW_KEY_F9 {
        KeyboardKey::F9
    } else if code == GLFW_KEY_F10 {
        KeyboardKey::F10
    } else if code == GLFW_KEY_F11 {
        KeyboardKey::F11
    } else if code == GLFW_KEY_F12 {
        KeyboardKey::F12
    } else if code == GLFW_KEY_F13 {
        KeyboardKey::F13
    } else if code == GLFW_KEY_F14 {
        KeyboardKey::F14
    } else if code == GLFW_KEY_F15 {
        KeyboardKey::F15
    } else if code == GLFW_KEY_F16 {
        KeyboardKey::F16
    } else if code == GLFW_KEY_F17 {
        KeyboardKey::F17
    } else if code == GLFW_KEY_F18 {
        KeyboardKey::F18
    } else if code == GLFW_KEY_F19 {
        KeyboardKey::F19
    } else if code == GLFW_KEY_F20 {
        KeyboardKey::F20
    } else if code == GLFW_KEY_F21 {
        KeyboardKey::F21
    } else if code == GLFW_KEY_F22 {
        KeyboardKey::F22
    } else if code == GLFW_KEY_F23 {
        KeyboardKey::F23
    } else if code == GLFW_KEY_F24 {
        KeyboardKey::F24
    } else if code == GLFW_KEY_F25 {
        KeyboardKey::F25
    } else if code == GLFW_KEY_KP_0 {
        KeyboardKey::KP0
    } else if code == GLFW_KEY_KP_1 {
        KeyboardKey::KP1
    } else if code == GLFW_KEY_KP_2 {
        KeyboardKey::KP2
    } else if code == GLFW_KEY_KP_3 {
        KeyboardKey::KP3
    } else if code == GLFW_KEY_KP_4 {
        KeyboardKey::KP4
    } else if code == GLFW_KEY_KP_5 {
        KeyboardKey::KP5
    } else if code == GLFW_KEY_KP_6 {
        KeyboardKey::KP6
    } else if code == GLFW_KEY_KP_7 {
        KeyboardKey::KP7
    } else if code == GLFW_KEY_KP_8 {
        KeyboardKey::KP8
    } else if code == GLFW_KEY_KP_9 {
        KeyboardKey::KP9
    } else if code == GLFW_KEY_KP_DECIMAL {
        KeyboardKey::KPDecimal
    } else if code == GLFW_KEY_KP_DIVIDE {
        KeyboardKey::KPDivide
    } else if code == GLFW_KEY_KP_MULTIPLY {
        KeyboardKey::KPMultiply
    } else if code == GLFW_KEY_KP_SUBTRACT {
        KeyboardKey::KPSubtract
    } else if code == GLFW_KEY_KP_ADD {
        KeyboardKey::KPAdd
    } else if code == GLFW_KEY_KP_ENTER {
        KeyboardKey::KPEnter
    } else if code == GLFW_KEY_KP_EQUAL {
        KeyboardKey::KPEqual
    } else if code == GLFW_KEY_LEFT_SHIFT {
        KeyboardKey::LeftShift
    } else if code == GLFW_KEY_LEFT_CONTROL {
        KeyboardKey::LeftControl
    } else if code == GLFW_KEY_LEFT_ALT {
        KeyboardKey::LeftAlt
    } else if code == GLFW_KEY_LEFT_SUPER {
        KeyboardKey::LeftSuper
    } else if code == GLFW_KEY_RIGHT_SHIFT {
        KeyboardKey::RightShift
    } else if code == GLFW_KEY_RIGHT_CONTROL {
        KeyboardKey::RightControl
    } else if code == GLFW_KEY_RIGHT_ALT {
        KeyboardKey::RightAlt
    } else if code == GLFW_KEY_RIGHT_SUPER {
        KeyboardKey::RightSuper
    } else if code == GLFW_KEY_MENU {
        KeyboardKey::Menu
    } else if code == GLFW_KEY_LAST {
        KeyboardKey::Last
    } else {
        KeyboardKey::Unknown
    }
}

/// The state a GLFW key action reports.
pub fn glfw_to_window_key_action(action: i32) -> (r: KeyState)
    ensures
        r == (if action as u32 == GLFW_RELEASE {
            KeyState::Released
        } else if action as u32 == GLFW_PRESS {
            KeyState::Pressed
        } else if action as u32 == GLFW_REPEAT {
            KeyState::Held
        } else {
            KeyState::Unknown
        }),
{
    let code = action as u32;
    if code == GLFW_RELEASE {
        KeyState::Released
    } else if code == GLFW_PRESS {
        KeyState::Pressed
    } else if code == GLFW_REPEAT {
        KeyState::Held
    } else {
        KeyState::Unknown
    }
}

/// The engine's button for a GLFW mouse button: GLFW's buttons one to eight,
/// numbered from zero, are the left, right and middle buttons, then buttons
/// four to eight.
pub fn glfw_to_mouse_button(button: i32) -> (r: MouseButton)
    ensures
        r == (match button as u32 {
            0u32 => MouseButton::ButtonLeft,
            1u32 => MouseButton::ButtonRight,
            2u32 => MouseButton::ButtonMiddle,
            3u32 => MouseButton::Button4,
            4u32 => MouseButton::Button5,
            5u32 => MouseButton::Button6,
            6u32 => MouseButton::Button7,
            7u32 => MouseButton::Button8,
            _ => MouseButton::Unknown,
        }),
{
    let code = button as u32;
    if code == GLFW_MOUSE_BUTTON_1 {
        MouseButton::ButtonLeft
    } else if code == GLFW_MOUSE_BUTTON_2 {
        MouseButton::ButtonRight
    } else if code == GLFW_MOUSE_BUTTON_3 {
        MouseButton::ButtonMiddle
    } else if code == GLFW_MOUSE_BUTTON_4 {
        MouseButton::Button4
    } else if code == GLFW_MOUSE_BUTTON_5 {
        MouseButton::Button5
    } else if code == GLFW_MOUSE_BUTTON_6 {
        MouseButton::Button6
    } else if code == GLFW_MOUSE_BUTTON_7 {
        MouseButton::Button7
    } else if code == GLFW_MOUSE_BUTTON_8 {
        MouseButton::Button8
    } else {
        MouseButton::Unknown
    }
}

/// The window systems a window can run on.
#[derive(Debug, Clone, Copy, PartialEq, Eq, Structural)]
pub enum SupportedPlatform {
    Unknown,
    Xlib,
    Wayland,
    Win32,
}

/// The window system a session type names, where it is supported.
pub fn platform_for_session(session_type: &String) -> (r: Option<SupportedPlatform>)
    ensures
        r == (if session_type@ == "x11"@ {
            Some(SupportedPlatform::Xlib)
        } else if session_type@ == "wayland"@ {
            Some(SupportedPlatform::Wayland)
        } else {
            None::<SupportedPlatform>
        }),
{
    let x11 = String::from_str("x11");
    let wayland = String::from_str("wayland");
    if *session_type == x11 {
        Some(SupportedPlatform::Xlib)
    } else if *session_type == wayland {
        Some(SupportedPlatform::Wayland)
    } else {
        None
    }
}

/// The GLFW window system; it holds nothing.
pub struct WindowSystem {}

/// The listeners registered for each kind of event, by the numbers the
/// caller gave them.
pub struct WindowEventSystem {
    pub listeners: Vec<Vec<u64>>,
}

/// A GLFW window: its handle, the window system it runs on, and its
/// listeners.
pub struct Window {
    pub handle: u64,
    pub platform: SupportedPlatform,
    pub events: WindowEventSystem,
}

impl Window {
    /// The listener lists are one per kind of event.
    pub open spec fn wf(&self) -> bool {
        self.events.listeners@.len() == WINDOW_EVENT_TYPE_COUNT
    }

    /// The listeners of the given kind of event, in the order they were
    /// registered.
    pub open spec fn listeners_of(&self, ev_type: WindowEventType) -> Seq<u64> {
        self.events.listeners@[event_type_index_spec(ev_type)]@
    }

    /// A window with no listeners.
    pub fn new(handle: u64, platform: SupportedPlatform) -> (r: Self)
        ensures
            r.wf(),
            r.handle == handle,
            r.platform == platform,
            forall|t: WindowEventType| t != WindowEventType::Count ==> r.listeners_of(t) == Seq::<u64>::empty(),
    {
        let listeners: Vec<Vec<u64>> = vec![Vec::new(), Vec::new(), Vec::new(), Vec::new(), Vec::new()];
        Window { handle, platform, events: WindowEventSystem { listeners } }
    }

    /// Adds a listener of one kind of event.
    pub fn register_event(&mut self, event: WindowEventType, listener: u64)
        requires
            old(self).wf(),
            event != WindowEventType::Count,
        ensures
            final(self).wf(),
            final(self).handle == old(self).handle,
            final(self).platform == old(self).platform,
            final(self).listeners_of(event) == old(self).listeners_of(event).push(listener),
            forall|t: WindowEventType| t != event && t != WindowEventType::Count ==> #[trigger] final(self).listeners_of(t)
                == old(self).listeners_of(t),
            registration_step(*old(self), (event, listener), *final(self)),
    {
        let index = event_type_index(event);
        let mut list = Vec::new();
        std::mem::swap(&mut list, &mut self.events.listeners[index]);
        list.push(listener);
        self.events.listeners.set(index, list);
    }

    /// The listeners an event of the given kind is sent to, in the order they
    /// were registered.
    pub fn send_event(&self, ev_type: WindowEventType) -> (r: Vec<u64>)
        requires
            self.wf(),
            ev_type != WindowEventType::Count,
        ensures
            r@ == self.listeners_of(ev_type),
    {
        let index = event_type_index(ev_type);
        let listeners = &self.events.listeners[index];
        let mut out: Vec<u64> = Vec::new();
        let mut i: usize = 0;
        while i < listeners.len()
            invariant
                i <= listeners@.len(),
                out@ == listeners@.take(i as int),
            decreases listeners@.len() - i,
        {
            out.push(listeners[i]);
            assert(out@ =~= listeners@.take(i as int + 1));
            i = i + 1;
        }
        assert(listeners@.take(i as int) =~= listeners@);
        out
    }
}

/// The listeners a run of registrations gives a kind of event, in the order
/// they were registered.
pub open spec fn listeners_registered(regs: Seq<(WindowEventType, u64)>, t: WindowEventType) -> Seq<u64>
    decreases regs.len(),
{
    if regs.len() == 0 {
        Seq::empty()
    } else {
        let prev = listeners_registered(regs.drop_last(), t);
        if regs.last().0 == t {
            prev.push(regs.last().1)
        } else {
            prev
        }
    }
}

/// One registration as `register_event` states it: the listener joins the
/// end of its kind's list and the other kinds keep theirs.
pub open spec fn registration_step(before: Window, reg: (WindowEventType, u64), after: Window) -> bool {
    &&& after.wf()
    &&& after.listeners_of(reg.0) == before.listeners_of(reg.0).push(reg.1)
    &&& forall|t: WindowEventType|
        t != reg.0 && t != WindowEventType::Count ==> #[trigger] after.listeners_of(t) == before.listeners_of(t)
}

/// Over any run of registrations on a window with no listeners (as
/// `Window::new` makes it), the listeners of a kind of event, which
/// `send_event` returns, are those registered for it, in registration
/// order.
pub proof fn lemma_listeners_in_registration_order(
    windows: Seq<Window>,
    regs: Seq<(WindowEventType, u64)>,
    t: WindowEventType,
)
    requires
        windows.len() == regs.len() + 1,
        t != WindowEventType::Count,
        forall|u: WindowEventType| u != WindowEventType::Count ==> #[trigger] windows[0].listeners_of(u) == Seq::<u64>::empty(),
        forall|i: int| 0 <= i < regs.len() ==> (#[trigger] regs[i]).0 != WindowEventType::Count,
        forall|i: int| 0 <= i < regs.len() ==> #[trigger] registration_step(windows[i], regs[i], windows[i + 1]),
    ensures
        windows.last().listeners_of(t) == listeners_registered(regs, t),
    decreases regs.len(),
{
    let n = regs.len();
    if n > 0 {
        let ws = windows.drop_last();
        let rs = regs.drop_last();
        assert forall|i: int| 0 <= i < rs.len() implies #[trigger] registration_step(ws[i], rs[i], ws[i + 1]) by {
            assert(registration_step(windows[i], regs[i], windows[i + 1]));
        }
        assert forall|i: int| 0 <= i < rs.len() implies (#[trigger] rs[i]).0 != WindowEventType::Count by {
            assert(regs[i].0 != WindowEventType::Count);
        }
        lemma_listeners_in_registration_order(ws, rs, t);
        assert(registration_step(windows[n - 1], regs[n - 1], windows[n as int]));
        assert(ws.last() == windows[n - 1]);
    }
}

} // verus!
