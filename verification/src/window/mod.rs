//! The keys, buttons and events a window reports, and which listeners
//! get each kind of event.
pub mod glfw;

use vstd::prelude::*;

verus! {

pub type KeyModMask = u16;

pub const KEY_MOD_FLAG_NONE: u16 = 0x000;
pub const KEY_MOD_FLAG_SHIFT: u16 = 0x001;
pub const KEY_MOD_FLAG_CONTROL: u16 = 0x002;
pub const KEY_MOD_FLAG_ALT: u16 = 0x004;
pub const KEY_MOD_FLAG_SUPER: u16 = 0x008;
pub const KEY_MOD_FLAG_CAPS_LOCK: u16 = 0x010;
pub const KEY_MOD_FLAG_NUM_LOCK: u16 = 0x020;

/// The modifier keys, in the order of their flags; `Count` is their number.
#[derive(Debug, Clone, Copy, PartialEq, Eq, Structural)]
pub enum KeyMod {
    NoMod,
    Shift,
    Control,
    Alt,
    Super,
    CapsLock,
    NumLock,
    Count,
}

/// The flag of a modifier in a modifier mask.
pub open spec fn key_mod_flag(modifier: KeyMod) -> u16 {
    match modifier {
        KeyMod::NoMod => KEY_MOD_FLAG_NONE,
        KeyMod::Shift => KEY_MOD_FLAG_SHIFT,
        KeyMod::Control => KEY_MOD_FLAG_CONTROL,
        KeyMod::Alt => KEY_MOD_FLAG_ALT,
        KeyMod::Super => KEY_MOD_FLAG_SUPER,
        KeyMod::CapsLock => KEY_MOD_FLAG_CAPS_LOCK,
        KeyMod::NumLock => KEY_MOD_FLAG_NUM_LOCK,
        KeyMod::Count => 0,
    }
}

/// Whether a modifier is held in a mask. The empty modifier never is.
pub fn is_key_mod_flag_set(mask: KeyModMask, modifier: KeyMod) -> (r: bool)
    requires
        modifier != KeyMod::Count,
    ensures
        r == (mask & key_mod_flag(modifier) != 0),
{
    let flag: u16 = match modifier {
        KeyMod::NoMod => KEY_MOD_FLAG_NONE,
        KeyMod::Shift => KEY_MOD_FLAG_SHIFT,
        KeyMod::Control => KEY_MOD_FLAG_CONTROL,
        KeyMod::Alt => KEY_MOD_FLAG_ALT,
        KeyMod::Super => KEY_MOD_FLAG_SUPER,
        KeyMod::CapsLock => KEY_MOD_FLAG_CAPS_LOCK,
        KeyMod::NumLock => KEY_MOD_FLAG_NUM_LOCK,
        KeyMod::Count => 0,
    };
    mask & flag != 0
}

/// The keys of a keyboard.
#[derive(Debug, Clone, Copy, PartialEq, Eq, Structural)]
pub enum KeyboardKey {
    Unknown,
    Space,
    Apostrophe,
    Comma,
    Minus,
    Period,
    Slash,
    Zero,
    One,
    Two,
    Three,
    Four,
    Five,
    Six,
    Seven,
    Eight,
    Nine,
    Semicolon,
    Equal,
    A,
    B,
    C,
    D,
    E,
    F,
    G,
    H,
    I,
    J,
    K,
    L,
    M,
    N,
    O,
    P,
    Q,
    R,
    S,
    T,
    U,
    V,
    W,
    X,
    Y,
    Z,
    LeftBracket,
    Backslash,
    RightBracket,
    GraveAccent,
    World1,
    World2,
    Escape,
    Enter,
    Tab,
    Backspace,
    Insert,
    Delete,
    Right,
    Left,
    Down,
    Up,
    PageUp,
    PageDown,
    Home,
    End,
    CapsLock,
    ScollLock,
    NumLock,
    PrintScreen,
    Pause,
    F1,
    F2,
    F3,
    F4,
    F5,
    F6,
    F7,
    F8,
    F9,
    F10,
    F11,
    F12,
    F13,
    F14,
    F15,
    F16,
    F17,
    F18,
    F19,
    F20,
    F21,
    F22,
    F23,
    F24,
    F25,
    KP0,
    KP1,
    KP2,
    KP3,
    KP4,
    KP5,
    KP6,
    KP7,
    KP8,
    KP9,
    KPDecimal,
    KPDivide,
    KPMultiply,
    KPSubtract,
    KPAdd,
    KPEnter,
    KPEqual,
    LeftShift,
    LeftControl,
    LeftAlt,
    LeftSuper,
    RightShift,
    RightControl,
    RightAlt,
    RightSuper,
    Menu,
    Last,
}

/// The buttons of a mouse.
#[derive(Debug, Clone, Copy, PartialEq, Eq, Structural)]
pub enum MouseButton {
    Unknown,
    ButtonLeft,
    ButtonRight,
    ButtonMiddle,
    Button4,
    Button5,
    Button6,
    Button7,
    Button8,
}

/// The number of a mouse button: its position in the list above.
pub fn mouse_button_number(button: MouseButton) -> (r: u32)
    ensures
        r == (match button {
            MouseButton::Unknown => 0u32,
            MouseButton::ButtonLeft => 1,
            MouseButton::ButtonRight => 2,
            MouseButton::ButtonMiddle => 3,
            MouseButton::Button4 => 4,
            MouseButton::Button5 => 5,
            MouseButton::Button6 => 6,
            MouseButton::Button7 => 7,
            MouseButton::Button8 => 8,
        }),
{
    match button {
        MouseButton::Unknown => 0,
        MouseButton::ButtonLeft => 1,
        MouseButton::ButtonRight => 2,
        MouseButton::ButtonMiddle => 3,
        MouseButton::Button4 => 4,
        MouseButton::Button5 => 5,
        MouseButton::Button6 => 6,
        MouseButton::Button7 => 7,
        MouseButton::Button8 => 8,
    }
}

/// What happened to a key or button.
#[derive(Debug, Clone, Copy, PartialEq, Eq, Structural)]
pub enum KeyState {
    Unknown,
    Pressed,
    Released,
    Held,
}

/// A key that changed, how, and the modifiers held.
#[derive(Debug, Clone, Copy, PartialEq, Eq, Structural)]
pub struct KeyEvent {
    pub key: KeyboardKey,
    pub state: KeyState,
    pub mods: KeyModMask,
}

/// A mouse button that changed, how, and the modifiers held.
#[derive(Debug, Clone, Copy, PartialEq, Eq, Structural)]
pub struct MouseEvent {
    pub button: MouseButton,
    pub state: KeyState,
    pub mods: KeyModMask,
}

/// The new size of a window.
#[derive(Debug, Clone, Copy, PartialEq, Eq, Structural)]
pub struct WindowResizeEvent {
    pub width: u32,
    pub height: u32,
}

/// The kinds of window event a listener registers for; `Count` is their
/// number.
#[derive(Debug, Clone, Copy, PartialEq, Eq, Structural)]
pub enum WindowEventType {
    /// Key presses, releases and repeats.
    OnKeyboardKey,
    /// Mouse button presses, releases and repeats.
    OnMouseButton,
    OnMouseMove,
    OnMouseScroll,
    OnResize,
    Count,
}

/// The number of kinds of window event.
pub const WINDOW_EVENT_TYPE_COUNT: usize = 5;

pub open spec fn event_type_index_spec(t: WindowEventType) -> int {
    match t {
        WindowEventType::OnKeyboardKey => 0,
        WindowEventType::OnMouseButton => 1,
        WindowEventType::OnMouseMove => 2,
        WindowEventType::OnMouseScroll => 3,
        WindowEventType::OnResize => 4,
        WindowEventType::Count => 5,
    }
}

/// The position of a kind of event in the list above.
pub fn event_type_index(t: WindowEventType) -> (r: usize)
    ensures
        r == event_type_index_spec(t),
{
    match t {
        WindowEventType::OnKeyboardKey => 0,
        WindowEventType::OnMouseButton => 1,
        WindowEventType::OnMouseMove => 2,
        WindowEventType::OnMouseScroll => 3,
        WindowEventType::OnResize => 4,
        WindowEventType::Count => 5,
    }
}

} // verus!
