//! Global shortcuts: the keys that can be bound, how a captured key
//! combination becomes a shortcut, how shortcuts are written for display,
//! and how a registration replaces the previous shortcut.
use crate::state::NativeAppState;
use crate::text::{str_eq, to_owned_string};
use vstd::prelude::*;
use vstd::string::StringExecFns;

verus! {

broadcast use vstd::string::group_string_axioms;

/// A key as the window reports it (the keys that matter here; every other
/// key is `Other`).
#[derive(Debug, Clone, Copy, PartialEq, Eq, Structural)]
pub enum Key {
    A,
    B,
    C,
    D,
    E,
    F,
    G,
    H,
    I,
    J,
    K,
    L,
    M,
    N,
    O,
    P,
    Q,
    R,
    S,
    T,
    U,
    V,
    W,
    X,
    Y,
    Z,
    Num0,
    Num1,
    Num2,
    Num3,
    Num4,
    Num5,
    Num6,
    Num7,
    Num8,
    Num9,
    F1,
    F2,
    F3,
    F4,
    F5,
    F6,
    F7,
    F8,
    F9,
    F10,
    F11,
    F12,
    Space,
    Enter,
    Tab,
    Escape,
    Backspace,
    Delete,
    Insert,
    Home,
    End,
    PageUp,
    PageDown,
    ArrowUp,
    ArrowDown,
    ArrowLeft,
    ArrowRight,
    Other,
}

/// A physical key code of a global shortcut (W3C `code` names); codes
/// without a variant of their own are kept by name in `Other`.
#[derive(Debug, Clone, PartialEq, Eq)]
pub enum KeyCode {
    KeyA,
    KeyB,
    KeyC,
    KeyD,
    KeyE,
    KeyF,
    KeyG,
    KeyH,
    KeyI,
    KeyJ,
    KeyK,
    KeyL,
    KeyM,
    KeyN,
    KeyO,
    KeyP,
    KeyQ,
    KeyR,
    KeyS,
    KeyT,
    KeyU,
    KeyV,
    KeyW,
    KeyX,
    KeyY,
    KeyZ,
    Digit0,
    Digit1,
    Digit2,
    Digit3,
    Digit4,
    Digit5,
    Digit6,
    Digit7,
    Digit8,
    Digit9,
    F1,
    F2,
    F3,
    F4,
    F5,
    F6,
    F7,
    F8,
    F9,
    F10,
    F11,
    F12,
    Space,
    Enter,
    Tab,
    Escape,
    Backspace,
    Delete,
    Insert,
    Home,
    End,
    PageUp,
    PageDown,
    ArrowUp,
    ArrowDown,
    ArrowLeft,
    ArrowRight,
    Other(String),
}

/// The code bound for a key, for the keys that can be bound: letters,
/// digits, function keys, arrows and the common control keys.
pub open spec fn map_key_spec(key: Key) -> Option<KeyCode> {
    match key {
        Key::A => Some(KeyCode::KeyA),
        Key::B => Some(KeyCode::KeyB),
        Key::C => Some(KeyCode::KeyC),
        Key::D => Some(KeyCode::KeyD),
        Key::E => Some(KeyCode::KeyE),
        Key::F => Some(KeyCode::KeyF),
        Key::G => Some(KeyCode::KeyG),
        Key::H => Some(KeyCode::KeyH),
        Key::I => Some(KeyCode::KeyI),
        Key::J => Some(KeyCode::KeyJ),
        Key::K => Some(KeyCode::KeyK),
        Key::L => Some(KeyCode::KeyL),
        Key::M => Some(KeyCode::KeyM),
        Key::N => Some(KeyCode::KeyN),
        Key::O => Some(KeyCode::KeyO),
        Key::P => Some(KeyCode::KeyP),
        Key::Q => Some(KeyCode::KeyQ),
        Key::R => Some(KeyCode::KeyR),
        Key::S => Some(KeyCode::KeyS),
        Key::T => Some(KeyCode::KeyT),
        Key::U => Some(KeyCode::KeyU),
        Key::V => Some(KeyCode::KeyV),
        Key::W => Some(KeyCode::KeyW),
        Key::X => Some(KeyCode::KeyX),
        Key::Y => Some(KeyCode::KeyY),
        Key::Z => Some(KeyCode::KeyZ),
        Key::Num0 => Some(KeyCode::Digit0),
        Key::Num1 => Some(KeyCode::Digit1),
        Key::Num2 => Some(KeyCode::Digit2),
        Key::Num3 => Some(KeyCode::Digit3),
        Key::Num4 => Some(KeyCode::Digit4),
        Key::Num5 => Some(KeyCode::Digit5),
        Key::Num6 => Some(KeyCode::Digit6),
        Key::Num7 => Some(KeyCode::Digit7),
        Key::Num8 => Some(KeyCode::Digit8),
        Key::Num9 => Some(KeyCode::Digit9),
        Key::F1 => Some(KeyCode::F1),
        Key::F2 => Some(KeyCode::F2),
        Key::F3 => Some(KeyCode::F3),
        Key::F4 => Some(KeyCode::F4),
        Key::F5 => Some(KeyCode::F5),
        Key::F6 => Some(KeyCode::F6),
        Key::F7 => Some(KeyCode::F7),
        Key::F8 => Some(KeyCode::F8),
        Key::F9 => Some(KeyCode::F9),
        Key::F10 => Some(KeyCode::F10),
        Key::F11 => Some(KeyCode::F11),
        Key::F12 => Some(KeyCode::F12),
        Key::Space => Some(KeyCode::Space),
        Key::Enter => Some(KeyCode::Enter),
        Key::Tab => Some(KeyCode::Tab),
        Key::Escape => Some(KeyCode::Escape),
        Key::Backspace => Some(KeyCode::Backspace),
        Key::Delete => Some(KeyCode::Delete),
        Key::Insert => Some(KeyCode::Insert),
        Key::Home => Some(KeyCode::Home),
        Key::End => Some(KeyCode::End),
        Key::PageUp => Some(KeyCode::PageUp),
        Key::PageDown => Some(KeyCode::PageDown),
        Key::ArrowUp => Some(KeyCode::ArrowUp),
        Key::ArrowDown => Some(KeyCode::ArrowDown),
        Key::ArrowLeft => Some(KeyCode::ArrowLeft),
        Key::ArrowRight => Some(KeyCode::ArrowRight),
        Key::Other => None,
    }
}

pub open spec fn unsupported_key_message() -> Seq<char> {
    "当前只支持字母、数字、功能键、方向键和常见控制键。"@
}

/// The shortcut code for a captured key; keys outside the supported set are refused.
pub fn map_egui_key(key: Key) -> (r: Result<KeyCode, String>)
    ensures
        map_key_spec(key) matches Some(c) ==> r == Ok::<KeyCode, String>(c),
        map_key_spec(key) is None ==> r is Err && r->Err_0@ == unsupported_key_message(),
{
    let code = match key {
        Key::A => KeyCode::KeyA,
        Key::B => KeyCode::KeyB,
        Key::C => KeyCode::KeyC,
        Key::D => KeyCode::KeyD,
        Key::E => KeyCode::KeyE,
        Key::F => KeyCode::KeyF,
        Key::G => KeyCode::KeyG,
        Key::H => KeyCode::KeyH,
        Key::I => KeyCode::KeyI,
        Key::J => KeyCode::KeyJ,
        Key::K => KeyCode::KeyK,
        Key::L => KeyCode::KeyL,
        Key::M => KeyCode::KeyM,
        Key::N => KeyCode::KeyN,
        Key::O => KeyCode::KeyO,
        Key::P => KeyCode::KeyP,
        Key::Q => KeyCode::KeyQ,
        Key::R => KeyCode::KeyR,
        Key::S => KeyCode::KeyS,
        Key::T => KeyCode::KeyT,
        Key::U => KeyCode::KeyU,
        Key::V => KeyCode::KeyV,
        Key::W => KeyCode::KeyW,
        Key::X => KeyCode::KeyX,
        Key::Y => KeyCode::KeyY,
        Key::Z => KeyCode::KeyZ,
        Key::Num0 => KeyCode::Digit0,
        Key::Num1 => KeyCode::Digit1,
        Key::Num2 => KeyCode::Digit2,
        Key::Num3 => KeyCode::Digit3,
        Key::Num4 => KeyCode::Digit4,
        Key::Num5 => KeyCode::Digit5,
        Key::Num6 => KeyCode::Digit6,
        Key::Num7 => KeyCode::Digit7,
        Key::Num8 => KeyCode::Digit8,
        Key::Num9 => KeyCode::Digit9,
        Key::F1 => KeyCode::F1,
        Key::F2 => KeyCode::F2,
        Key::F3 => KeyCode::F3,
        Key::F4 => KeyCode::F4,
        Key::F5 => KeyCode::F5,
        Key::F6 => KeyCode::F6,
        Key::F7 => KeyCode::F7,
        Key::F8 => KeyCode::F8,
        Key::F9 => KeyCode::F9,
        Key::F10 => KeyCode::F10,
        Key::F11 => KeyCode::F11,
        Key::F12 => KeyCode::F12,
        Key::Space => KeyCode::Space,
        Key::Enter => KeyCode::Enter,
        Key::Tab => KeyCode::Tab,
        Key::Escape => KeyCode::Escape,
        Key::Backspace => KeyCode::Backspace,
        Key::Delete => KeyCode::Delete,
        Key::Insert => KeyCode::Insert,
        Key::Home => KeyCode::Home,
        Key::End => KeyCode::End,
        Key::PageUp => KeyCode::PageUp,
        Key::PageDown => KeyCode::PageDown,
        Key::ArrowUp => KeyCode::ArrowUp,
        Key::ArrowDown => KeyCode::ArrowDown,
        Key::ArrowLeft => KeyCode::ArrowLeft,
        Key::ArrowRight => KeyCode::ArrowRight,
        Key::Other => {
            return Err(String::from_str("当前只支持字母、数字、功能键、方向键和常见控制键。"));
        },
    };
    Ok(code)
}

/// The label of a code in shortcut texts (`Unknown` for codes without one).
pub open spec fn key_label_spec(code: KeyCode) -> Seq<char> {
    match code {
        KeyCode::KeyA => "A"@,
        KeyCode::KeyB => "B"@,
        KeyCode::KeyC => "C"@,
        KeyCode::KeyD => "D"@,
        KeyCode::KeyE => "E"@,
        KeyCode::KeyF => "F"@,
        KeyCode::KeyG => "G"@,
        KeyCode::KeyH => "H"@,
        KeyCode::KeyI => "I"@,
        KeyCode::KeyJ => "J"@,
        KeyCode::KeyK => "K"@,
        KeyCode::KeyL => "L"@,
        KeyCode::KeyM => "M"@,
        KeyCode::KeyN => "N"@,
        KeyCode::KeyO => "O"@,
        KeyCode::KeyP => "P"@,
        KeyCode::KeyQ => "Q"@,
        KeyCode::KeyR => "R"@,
        KeyCode::KeyS => "S"@,
        KeyCode::KeyT => "T"@,
        KeyCode::KeyU => "U"@,
        KeyCode::KeyV => "V"@,
        KeyCode::KeyW => "W"@,
        KeyCode::KeyX => "X"@,
        KeyCode::KeyY => "Y"@,
        KeyCode::KeyZ => "Z"@,
        KeyCode::Digit0 => "0"@,
        KeyCode::Digit1 => "1"@,
        KeyCode::Digit2 => "2"@,
        KeyCode::Digit3 => "3"@,
        KeyCode::Digit4 => "4"@,
        KeyCode::Digit5 => "5"@,
        KeyCode::Digit6 => "6"@,
        KeyCode::Digit7 => "7"@,
        KeyCode::Digit8 => "8"@,
        KeyCode::Digit9 => "9"@,
        KeyCode::F1 => "F1"@,
        KeyCode::F2 => "F2"@,
        KeyCode::F3 => "F3"@,
        KeyCode::F4 => "F4"@,
        KeyCode::F5 => "F5"@,
        KeyCode::F6 => "F6"@,
        KeyCode::F7 => "F7"@,
        KeyCode::F8 => "F8"@,
        KeyCode::F9 => "F9"@,
        KeyCode::F10 => "F10"@,
        KeyCode::F11 => "F11"@,
        KeyCode::F12 => "F12"@,
        KeyCode::Space => "Space"@,
        KeyCode::Enter => "Enter"@,
        KeyCode::Tab => "Tab"@,
        KeyCode::Escape => "Esc"@,
        KeyCode::Backspace => "Backspace"@,
        KeyCode::Delete => "Delete"@,
        KeyCode::Insert => "Insert"@,
        KeyCode::Home => "Home"@,
        KeyCode::End => "End"@,
        KeyCode::PageUp => "PageUp"@,
        KeyCode::PageDown => "PageDown"@,
        KeyCode::ArrowUp => "Up"@,
        KeyCode::ArrowDown => "Down"@,
        KeyCode::ArrowLeft => "Left"@,
        KeyCode::ArrowRight => "Right"@,
        KeyCode::Other(_) => "Unknown"@,
    }
}

/// The label of a code in shortcut texts.
pub fn format_key(code: &KeyCode) -> (r: &'static str)
    ensures
        r@ == key_label_spec(*code),
{
    match code {
        KeyCode::KeyA => "A",
        KeyCode::KeyB => "B",
        KeyCode::KeyC => "C",
        KeyCode::KeyD => "D",
        KeyCode::KeyE => "E",
        KeyCode::KeyF => "F",
        KeyCode::KeyG => "G",
        KeyCode::KeyH => "H",
        KeyCode::KeyI => "I",
        KeyCode::KeyJ => "J",
        KeyCode::KeyK => "K",
        KeyCode::KeyL => "L",
        KeyCode::KeyM => "M",
        KeyCode::KeyN => "N",
        KeyCode::KeyO => "O",
        KeyCode::KeyP => "P",
        KeyCode::KeyQ => "Q",
        KeyCode::KeyR => "R",
        KeyCode::KeyS => "S",
        KeyCode::KeyT => "T",
        KeyCode::KeyU => "U",
        KeyCode::KeyV => "V",
        KeyCode::KeyW => "W",
        KeyCode::KeyX => "X",
        KeyCode::KeyY => "Y",
        KeyCode::KeyZ => "Z",
        KeyCode::Digit0 => "0",
        KeyCode::Digit1 => "1",
        KeyCode::Digit2 => "2",
        KeyCode::Digit3 => "3",
        KeyCode::Digit4 => "4",
        KeyCode::Digit5 => "5",
        KeyCode::Digit6 => "6",
        KeyCode::Digit7 => "7",
        KeyCode::Digit8 => "8",
        KeyCode::Digit9 => "9",
        KeyCode::F1 => "F1",
        KeyCode::F2 => "F2",
        KeyCode::F3 => "F3",
        KeyCode::F4 => "F4",
        KeyCode::F5 => "F5",
        KeyCode::F6 => "F6",
        KeyCode::F7 => "F7",
        KeyCode::F8 => "F8",
        KeyCode::F9 => "F9",
        KeyCode::F10 => "F10",
        KeyCode::F11 => "F11",
        KeyCode::F12 => "F12",
        KeyCode::Space => "Space",
        KeyCode::Enter => "Enter",
        KeyCode::Tab => "Tab",
        KeyCode::Escape => "Esc",
        KeyCode::Backspace => "Backspace",
        KeyCode::Delete => "Delete",
        KeyCode::Insert => "Insert",
        KeyCode::Home => "Home",
        KeyCode::End => "End",
        KeyCode::PageUp => "PageUp",
        KeyCode::PageDown => "PageDown",
        KeyCode::ArrowUp => "Up",
        KeyCode::ArrowDown => "Down",
        KeyCode::ArrowLeft => "Left",
        KeyCode::ArrowRight => "Right",
        KeyCode::Other(_) => "Unknown",
    }
}

/// The W3C `code` name of a code.
pub open spec fn code_name_spec(code: KeyCode) -> Seq<char> {
    match code {
        KeyCode::KeyA => "KeyA"@,
        KeyCode::KeyB => "KeyB"@,
        KeyCode::KeyC => "KeyC"@,
        KeyCode::KeyD => "KeyD"@,
        KeyCode::KeyE => "KeyE"@,
        KeyCode::KeyF => "KeyF"@,
        KeyCode::KeyG => "KeyG"@,
        KeyCode::KeyH => "KeyH"@,
        KeyCode::KeyI => "KeyI"@,
        KeyCode::KeyJ => "KeyJ"@,
        KeyCode::KeyK => "KeyK"@,
        KeyCode::KeyL => "KeyL"@,
        KeyCode::KeyM => "KeyM"@,
        KeyCode::KeyN => "KeyN"@,
        KeyCode::KeyO => "KeyO"@,
        KeyCode::KeyP => "KeyP"@,
        KeyCode::KeyQ => "KeyQ"@,
        KeyCode::KeyR => "KeyR"@,
        KeyCode::KeyS => "KeyS"@,
        KeyCode::KeyT => "KeyT"@,
        KeyCode::KeyU => "KeyU"@,
        KeyCode::KeyV => "KeyV"@,
        KeyCode::KeyW => "KeyW"@,
        KeyCode::KeyX => "KeyX"@,
        KeyCode::KeyY => "KeyY"@,
        KeyCode::KeyZ => "KeyZ"@,
        KeyCode::Digit0 => "Digit0"@,
        KeyCode::Digit1 => "Digit1"@,
        KeyCode::Digit2 => "Digit2"@,
        KeyCode::Digit3 => "Digit3"@,
        KeyCode::Digit4 => "Digit4"@,
        KeyCode::Digit5 => "Digit5"@,
        KeyCode::Digit6 => "Digit6"@,
        KeyCode::Digit7 => "Digit7"@,
        KeyCode::Digit8 => "Digit8"@,
        KeyCode::Digit9 => "Digit9"@,
        KeyCode::F1 => "F1"@,
        KeyCode::F2 => "F2"@,
        KeyCode::F3 => "F3"@,
        KeyCode::F4 => "F4"@,
        KeyCode::F5 => "F5"@,
        KeyCode::F6 => "F6"@,
        KeyCode::F7 => "F7"@,
        KeyCode::F8 => "F8"@,
        KeyCode::F9 => "F9"@,
        KeyCode::F10 => "F10"@,
        KeyCode::F11 => "F11"@,
        KeyCode::F12 => "F12"@,
        KeyCode::Space => "Space"@,
        KeyCode::Enter => "Enter"@,
        KeyCode::Tab => "Tab"@,
        KeyCode::Escape => "Escape"@,
        KeyCode::Backspace => "Backspace"@,
        KeyCode::Delete => "Delete"@,
        KeyCode::Insert => "Insert"@,
        KeyCode::Home => "Home"@,
        KeyCode::End => "End"@,
        KeyCode::PageUp => "PageUp"@,
        KeyCode::PageDown => "PageDown"@,
        KeyCode::ArrowUp => "ArrowUp"@,
        KeyCode::ArrowDown => "ArrowDown"@,
        KeyCode::ArrowLeft => "ArrowLeft"@,
        KeyCode::ArrowRight => "ArrowRight"@,
        KeyCode::Other(n) => n@,
    }
}

/// The W3C `code` name of a code (how `global_hotkey` names it).
pub fn code_name(code: &KeyCode) -> (r: String)
    ensures
        r@ == code_name_spec(*code),
{
    match code {
        KeyCode::KeyA => String::from_str("KeyA"),
        KeyCode::KeyB => String::from_str("KeyB"),
        KeyCode::KeyC => String::from_str("KeyC"),
        KeyCode::KeyD => String::from_str("KeyD"),
        KeyCode::KeyE => String::from_str("KeyE"),
        KeyCode::KeyF => String::from_str("KeyF"),
        KeyCode::KeyG => String::from_str("KeyG"),
        KeyCode::KeyH => String::from_str("KeyH"),
        KeyCode::KeyI => String::from_str("KeyI"),
        KeyCode::KeyJ => String::from_str("KeyJ"),
        KeyCode::KeyK => String::from_str("KeyK"),
        KeyCode::KeyL => String::from_str("KeyL"),
        KeyCode::KeyM => String::from_str("KeyM"),
        KeyCode::KeyN => String::from_str("KeyN"),
        KeyCode::KeyO => String::from_str("KeyO"),
        KeyCode::KeyP => String::from_str("KeyP"),
        KeyCode::KeyQ => String::from_str("KeyQ"),
        KeyCode::KeyR => String::from_str("KeyR"),
        KeyCode::KeyS => String::from_str("KeyS"),
        KeyCode::KeyT => String::from_str("KeyT"),
        KeyCode::KeyU => String::from_str("KeyU"),
        KeyCode::KeyV => String::from_str("KeyV"),
        KeyCode::KeyW => String::from_str("KeyW"),
        KeyCode::KeyX => String::from_str("KeyX"),
        KeyCode::KeyY => String::from_str("KeyY"),
        KeyCode::KeyZ => String::from_str("KeyZ"),
        KeyCode::Digit0 => String::from_str("Digit0"),
        KeyCode::Digit1 => String::from_str("Digit1"),
        KeyCode::Digit2 => String::from_str("Digit2"),
        KeyCode::Digit3 => String::from_str("Digit3"),
        KeyCode::Digit4 => String::from_str("Digit4"),
        KeyCode::Digit5 => String::from_str("Digit5"),
        KeyCode::Digit6 => String::from_str("Digit6"),
        KeyCode::Digit7 => String::from_str("Digit7"),
        KeyCode::Digit8 => String::from_str("Digit8"),
        KeyCode::Digit9 => String::from_str("Digit9"),
        KeyCode::F1 => String::from_str("F1"),
        KeyCode::F2 => String::from_str("F2"),
        KeyCode::F3 => String::from_str("F3"),
        KeyCode::F4 => String::from_str("F4"),
        KeyCode::F5 => String::from_str("F5"),
        KeyCode::F6 => String::from_str("F6"),
        KeyCode::F7 => String::from_str("F7"),
        KeyCode::F8 => String::from_str("F8"),
        KeyCode::F9 => String::from_str("F9"),
        KeyCode::F10 => String::from_str("F10"),
        KeyCode::F11 => String::from_str("F11"),
        KeyCode::F12 => String::from_str("F12"),
        KeyCode::Space => String::from_str("Space"),
        KeyCode::Enter => String::from_str("Enter"),
        KeyCode::Tab => String::from_str("Tab"),
        KeyCode::Escape => String::from_str("Escape"),
        KeyCode::Backspace => String::from_str("Backspace"),
        KeyCode::Delete => String::from_str("Delete"),
        KeyCode::Insert => String::from_str("Insert"),
        KeyCode::Home => String::from_str("Home"),
        KeyCode::End => String::from_str("End"),
        KeyCode::PageUp => String::from_str("PageUp"),
        KeyCode::PageDown => String::from_str("PageDown"),
        KeyCode::ArrowUp => String::from_str("ArrowUp"),
        KeyCode::ArrowDown => String::from_str("ArrowDown"),
        KeyCode::ArrowLeft => String::from_str("ArrowLeft"),
        KeyCode::ArrowRight => String::from_str("ArrowRight"),
        KeyCode::Other(n) => n.clone(),
    }
}

/// Whether `n` is the name of one of the codes that have a variant.
pub open spec fn is_named_code(n: Seq<char>) -> bool {
    n == "KeyA"@
    || n == "KeyB"@
    || n == "KeyC"@
    || n == "KeyD"@
    || n == "KeyE"@
    || n == "KeyF"@
    || n == "KeyG"@
    || n == "KeyH"@
    || n == "KeyI"@
    || n == "KeyJ"@
    || n == "KeyK"@
    || n == "KeyL"@
    || n == "KeyM"@
    || n == "KeyN"@
    || n == "KeyO"@
    || n == "KeyP"@
    || n == "KeyQ"@
    || n == "KeyR"@
    || n == "KeyS"@
    || n == "KeyT"@
    || n == "KeyU"@
    || n == "KeyV"@
    || n == "KeyW"@
    || n == "KeyX"@
    || n == "KeyY"@
    || n == "KeyZ"@
    || n == "Digit0"@
    || n == "Digit1"@
    || n == "Digit2"@
    || n == "Digit3"@
    || n == "Digit4"@
    || n == "Digit5"@
    || n == "Digit6"@
    || n == "Digit7"@
    || n == "Digit8"@
    || n == "Digit9"@
    || n == "F1"@
    || n == "F2"@
    || n == "F3"@
    || n == "F4"@
    || n == "F5"@
    || n == "F6"@
    || n == "F7"@
    || n == "F8"@
    || n == "F9"@
    || n == "F10"@
    || n == "F11"@
    || n == "F12"@
    || n == "Space"@
    || n == "Enter"@
    || n == "Tab"@
    || n == "Escape"@
    || n == "Backspace"@
    || n == "Delete"@
    || n == "Insert"@
    || n == "Home"@
    || n == "End"@
    || n == "PageUp"@
    || n == "PageDown"@
    || n == "ArrowUp"@
    || n == "ArrowDown"@
    || n == "ArrowLeft"@
    || n == "ArrowRight"@
}

/// The code with W3C name `n`.
pub open spec fn code_from_name_spec(n: Seq<char>) -> KeyCode {
    if n == "KeyA"@ {
        KeyCode::KeyA
    }
    else if n == "KeyB"@ {
        KeyCode::KeyB
    }
    else if n == "KeyC"@ {
        KeyCode::KeyC
    }
    else if n == "KeyD"@ {
        KeyCode::KeyD
    }
    else if n == "KeyE"@ {
        KeyCode::KeyE
    }
    else if n == "KeyF"@ {
        KeyCode::KeyF
    }
    else if n == "KeyG"@ {
        KeyCode::KeyG
    }
    else if n == "KeyH"@ {
        KeyCode::KeyH
    }
    else if n == "KeyI"@ {
        KeyCode::KeyI
    }
    else if n == "KeyJ"@ {
        KeyCode::KeyJ
    }
    else if n == "KeyK"@ {
        KeyCode::KeyK
    }
    else if n == "KeyL"@ {
        KeyCode::KeyL
    }
    else if n == "KeyM"@ {
        KeyCode::KeyM
    }
    else if n == "KeyN"@ {
        KeyCode::KeyN
    }
    else if n == "KeyO"@ {
        KeyCode::KeyO
    }
    else if n == "KeyP"@ {
        KeyCode::KeyP
    }
    else if n == "KeyQ"@ {
        KeyCode::KeyQ
    }
    else if n == "KeyR"@ {
        KeyCode::KeyR
    }
    else if n == "KeyS"@ {
        KeyCode::KeyS
    }
    else if n == "KeyT"@ {
        KeyCode::KeyT
    }
    else if n == "KeyU"@ {
        KeyCode::KeyU
    }
    else if n == "KeyV"@ {
        KeyCode::KeyV
    }
    else if n == "KeyW"@ {
        KeyCode::KeyW
    }
    else if n == "KeyX"@ {
        KeyCode::KeyX
    }
    else if n == "KeyY"@ {
        KeyCode::KeyY
    }
    else if n == "KeyZ"@ {
        KeyCode::KeyZ
    }
    else if n == "Digit0"@ {
        KeyCode::Digit0
    }
    else if n == "Digit1"@ {
        KeyCode::Digit1
    }
    else if n == "Digit2"@ {
        KeyCode::Digit2
    }
    else if n == "Digit3"@ {
        KeyCode::Digit3
    }
    else if n == "Digit4"@ {
        KeyCode::Digit4
    }
    else if n == "Digit5"@ {
        KeyCode::Digit5
    }
    else if n == "Digit6"@ {
        KeyCode::Digit6
    }
    else if n == "Digit7"@ {
        KeyCode::Digit7
    }
    else if n == "Digit8"@ {
        KeyCode::Digit8
    }
    else if n == "Digit9"@ {
        KeyCode::Digit9
    }
    else if n == "F1"@ {
        KeyCode::F1
    }
    else if n == "F2"@ {
        KeyCode::F2
    }
    else if n == "F3"@ {
        KeyCode::F3
    }
    else if n == "F4"@ {
        KeyCode::F4
    }
    else if n == "F5"@ {
        KeyCode::F5
    }
    else if n == "F6"@ {
        KeyCode::F6
    }
    else if n == "F7"@ {
        KeyCode::F7
    }
    else if n == "F8"@ {
        KeyCode::F8
    }
    else if n == "F9"@ {
        KeyCode::F9
    }
    else if n == "F10"@ {
        KeyCode::F10
    }
    else if n == "F11"@ {
        KeyCode::F11
    }
    else if n == "F12"@ {
        KeyCode::F12
    }
    else if n == "Space"@ {
        KeyCode::Space
    }
    else if n == "Enter"@ {
        KeyCode::Enter
    }
    else if n == "Tab"@ {
        KeyCode::Tab
    }
    else if n == "Escape"@ {
        KeyCode::Escape
    }
    else if n == "Backspace"@ {
        KeyCode::Backspace
    }
    else if n == "Delete"@ {
        KeyCode::Delete
    }
    else if n == "Insert"@ {
        KeyCode::Insert
    }
    else if n == "Home"@ {
        KeyCode::Home
    }
    else if n == "End"@ {
        KeyCode::End
    }
    else if n == "PageUp"@ {
        KeyCode::PageUp
    }
    else if n == "PageDown"@ {
        KeyCode::PageDown
    }
    else if n == "ArrowUp"@ {
        KeyCode::ArrowUp
    }
    else if n == "ArrowDown"@ {
        KeyCode::ArrowDown
    }
    else if n == "ArrowLeft"@ {
        KeyCode::ArrowLeft
    }
    else if n == "ArrowRight"@ {
        KeyCode::ArrowRight
    }
    else {
        KeyCode::Other(arbitrary())
    }
}

/// The code with W3C name `name`: a named variant when there is one,
/// `Other(name)` otherwise.
pub fn code_from_name(name: &str) -> (r: KeyCode)
    ensures
        is_named_code(name@) ==> r == code_from_name_spec(name@),
        !is_named_code(name@) ==> (r matches KeyCode::Other(n) && n@ == name@),
{
    if str_eq(name, "KeyA") {
        return KeyCode::KeyA;
    }
    if str_eq(name, "KeyB") {
        return KeyCode::KeyB;
    }
    if str_eq(name, "KeyC") {
        return KeyCode::KeyC;
    }
    if str_eq(name, "KeyD") {
        return KeyCode::KeyD;
    }
    if str_eq(name, "KeyE") {
        return KeyCode::KeyE;
    }
    if str_eq(name, "KeyF") {
        return KeyCode::KeyF;
    }
    if str_eq(name, "KeyG") {
        return KeyCode::KeyG;
    }
    if str_eq(name, "KeyH") {
        return KeyCode::KeyH;
    }
    if str_eq(name, "KeyI") {
        return KeyCode::KeyI;
    }
    if str_eq(name, "KeyJ") {
        return KeyCode::KeyJ;
    }
    if str_eq(name, "KeyK") {
        return KeyCode::KeyK;
    }
    if str_eq(name, "KeyL") {
        return KeyCode::KeyL;
    }
    if str_eq(name, "KeyM") {
        return KeyCode::KeyM;
    }
    if str_eq(name, "KeyN") {
        return KeyCode::KeyN;
    }
    if str_eq(name, "KeyO") {
        return KeyCode::KeyO;
    }
    if str_eq(name, "KeyP") {
        return KeyCode::KeyP;
    }
    if str_eq(name, "KeyQ") {
        return KeyCode::KeyQ;
    }
    if str_eq(name, "KeyR") {
        return KeyCode::KeyR;
    }
    if str_eq(name, "KeyS") {
        return KeyCode::KeyS;
    }
    if str_eq(name, "KeyT") {
        return KeyCode::KeyT;
    }
    if str_eq(name, "KeyU") {
        return KeyCode::KeyU;
    }
    if str_eq(name, "KeyV") {
        return KeyCode::KeyV;
    }
    if str_eq(name, "KeyW") {
        return KeyCode::KeyW;
    }
    if str_eq(name, "KeyX") {
        return KeyCode::KeyX;
    }
    if str_eq(name, "KeyY") {
        return KeyCode::KeyY;
    }
    if str_eq(name, "KeyZ") {
        return KeyCode::KeyZ;
    }
    if str_eq(name, "Digit0") {
        return KeyCode::Digit0;
    }
    if str_eq(name, "Digit1") {
        return KeyCode::Digit1;
    }
    if str_eq(name, "Digit2") {
        return KeyCode::Digit2;
    }
    if str_eq(name, "Digit3") {
        return KeyCode::Digit3;
    }
    if str_eq(name, "Digit4") {
        return KeyCode::Digit4;
    }
    if str_eq(name, "Digit5") {
        return KeyCode::Digit5;
    }
    if str_eq(name, "Digit6") {
        return KeyCode::Digit6;
    }
    if str_eq(name, "Digit7") {
        return KeyCode::Digit7;
    }
    if str_eq(name, "Digit8") {
        return KeyCode::Digit8;
    }
    if str_eq(name, "Digit9") {
        return KeyCode::Digit9;
    }
    if str_eq(name, "F1") {
        return KeyCode::F1;
    }
    if str_eq(name, "F2") {
        return KeyCode::F2;
    }
    if str_eq(name, "F3") {
        return KeyCode::F3;
    }
    if str_eq(name, "F4") {
        return KeyCode::F4;
    }
    if str_eq(name, "F5") {
        return KeyCode::F5;
    }
    if str_eq(name, "F6") {
        return KeyCode::F6;
    }
    if str_eq(name, "F7") {
        return KeyCode::F7;
    }
    if str_eq(name, "F8") {
        return KeyCode::F8;
    }
    if str_eq(name, "F9") {
        return KeyCode::F9;
    }
    if str_eq(name, "F10") {
        return KeyCode::F10;
    }
    if str_eq(name, "F11") {
        return KeyCode::F11;
    }
    if str_eq(name, "F12") {
        return KeyCode::F12;
    }
    if str_eq(name, "Space") {
        return KeyCode::Space;
    }
    if str_eq(name, "Enter") {
        return KeyCode::Enter;
    }
    if str_eq(name, "Tab") {
        return KeyCode::Tab;
    }
    if str_eq(name, "Escape") {
        return KeyCode::Escape;
    }
    if str_eq(name, "Backspace") {
        return KeyCode::Backspace;
    }
    if str_eq(name, "Delete") {
        return KeyCode::Delete;
    }
    if str_eq(name, "Insert") {
        return KeyCode::Insert;
    }
    if str_eq(name, "Home") {
        return KeyCode::Home;
    }
    if str_eq(name, "End") {
        return KeyCode::End;
    }
    if str_eq(name, "PageUp") {
        return KeyCode::PageUp;
    }
    if str_eq(name, "PageDown") {
        return KeyCode::PageDown;
    }
    if str_eq(name, "ArrowUp") {
        return KeyCode::ArrowUp;
    }
    if str_eq(name, "ArrowDown") {
        return KeyCode::ArrowDown;
    }
    if str_eq(name, "ArrowLeft") {
        return KeyCode::ArrowLeft;
    }
    if str_eq(name, "ArrowRight") {
        return KeyCode::ArrowRight;
    }
    KeyCode::Other(to_owned_string(name))
}

/// The code read from the name of a named code carries that name again.
pub proof fn law_code_from_name_keeps_name(n: Seq<char>)
    requires
        is_named_code(n),
    ensures
        code_name_spec(code_from_name_spec(n)) == n,
        !(code_from_name_spec(n) is Other),
{
}

/// Every key that can be bound has a label of its own.
pub proof fn law_bound_keys_have_labels(key: Key)
    ensures
        map_key_spec(key) matches Some(c) ==> key_label_spec(c) != "Unknown"@,
{
    reveal_strlit("Unknown");
    assert("Unknown"@.len() == 7);
    match key {
        Key::A => {
            reveal_strlit("A");
            assert(map_key_spec(key) == Some(KeyCode::KeyA));
            assert(key_label_spec(KeyCode::KeyA) == "A"@);
            assert("A"@.len() == 1);
        },
        Key::B => {
            reveal_strlit("B");
            assert(map_key_spec(key) == Some(KeyCode::KeyB));
            assert(key_label_spec(KeyCode::KeyB) == "B"@);
            assert("B"@.len() == 1);
        },
        Key::C => {
            reveal_strlit("C");
            assert(map_key_spec(key) == Some(KeyCode::KeyC));
            assert(key_label_spec(KeyCode::KeyC) == "C"@);
            assert("C"@.len() == 1);
        },
        Key::D => {
            reveal_strlit("D");
            assert(map_key_spec(key) == Some(KeyCode::KeyD));
            assert(key_label_spec(KeyCode::KeyD) == "D"@);
            assert("D"@.len() == 1);
        },
        Key::E => {
            reveal_strlit("E");
            assert(map_key_spec(key) == Some(KeyCode::KeyE));
            assert(key_label_spec(KeyCode::KeyE) == "E"@);
            assert("E"@.len() == 1);
        },
        Key::F => {
            reveal_strlit("F");
            assert(map_key_spec(key) == Some(KeyCode::KeyF));
            assert(key_label_spec(KeyCode::KeyF) == "F"@);
            assert("F"@.len() == 1);
        },
        Key::G => {
            reveal_strlit("G");
            assert(map_key_spec(key) == Some(KeyCode::KeyG));
            assert(key_label_spec(KeyCode::KeyG) == "G"@);
            assert("G"@.len() == 1);
        },
        Key::H => {
            reveal_strlit("H");
            assert(map_key_spec(key) == Some(KeyCode::KeyH));
            assert(key_label_spec(KeyCode::KeyH) == "H"@);
            assert("H"@.len() == 1);
        },
        Key::I => {
            reveal_strlit("I");
            assert(map_key_spec(key) == Some(KeyCode::KeyI));
            assert(key_label_spec(KeyCode::KeyI) == "I"@);
            assert("I"@.len() == 1);
        },
        Key::J => {
            reveal_strlit("J");
            assert(map_key_spec(key) == Some(KeyCode::KeyJ));
            assert(key_label_spec(KeyCode::KeyJ) == "J"@);
            assert("J"@.len() == 1);
        },
        Key::K => {
            reveal_strlit("K");
            assert(map_key_spec(key) == Some(KeyCode::KeyK));
            assert(key_label_spec(KeyCode::KeyK) == "K"@);
            assert("K"@.len() == 1);
        },
        Key::L => {
            reveal_strlit("L");
            assert(map_key_spec(key) == Some(KeyCode::KeyL));
            assert(key_label_spec(KeyCode::KeyL) == "L"@);
            assert("L"@.len() == 1);
        },
        Key::M => {
            reveal_strlit("M");
            assert(map_key_spec(key) == Some(KeyCode::KeyM));
            assert(key_label_spec(KeyCode::KeyM) == "M"@);
            assert("M"@.len() == 1);
        },
        Key::N => {
            reveal_strlit("N");
            assert(map_key_spec(key) == Some(KeyCode::KeyN));
            assert(key_label_spec(KeyCode::KeyN) == "N"@);
            assert("N"@.len() == 1);
        },
        Key::O => {
            reveal_strlit("O");
            assert(map_key_spec(key) == Some(KeyCode::KeyO));
            assert(key_label_spec(KeyCode::KeyO) == "O"@);
            assert("O"@.len() == 1);
        },
        Key::P => {
            reveal_strlit("P");
            assert(map_key_spec(key) == Some(KeyCode::KeyP));
            assert(key_label_spec(KeyCode::KeyP) == "P"@);
            assert("P"@.len() == 1);
        },
        Key::Q => {
            reveal_strlit("Q");
            assert(map_key_spec(key) == Some(KeyCode::KeyQ));
            assert(key_label_spec(KeyCode::KeyQ) == "Q"@);
            assert("Q"@.len() == 1);
        },
        Key::R => {
            reveal_strlit("R");
            assert(map_key_spec(key) == Some(KeyCode::KeyR));
            assert(key_label_spec(KeyCode::KeyR) == "R"@);
            assert("R"@.len() == 1);
        },
        Key::S => {
            reveal_strlit("S");
            assert(map_key_spec(key) == Some(KeyCode::KeyS));
            assert(key_label_spec(KeyCode::KeyS) == "S"@);
            assert("S"@.len() == 1);
        },
        Key::T => {
            reveal_strlit("T");
            assert(map_key_spec(key) == Some(KeyCode::KeyT));
            assert(key_label_spec(KeyCode::KeyT) == "T"@);
            assert("T"@.len() == 1);
        },
        Key::U => {
            reveal_strlit("U");
            assert(map_key_spec(key) == Some(KeyCode::KeyU));
            assert(key_label_spec(KeyCode::KeyU) == "U"@);
            assert("U"@.len() == 1);
        },
        Key::V => {
            reveal_strlit("V");
            assert(map_key_spec(key) == Some(KeyCode::KeyV));
            assert(key_label_spec(KeyCode::KeyV) == "V"@);
            assert("V"@.len() == 1);
        },
        Key::W => {
            reveal_strlit("W");
            assert(map_key_spec(key) == Some(KeyCode::KeyW));
            assert(key_label_spec(KeyCode::KeyW) == "W"@);
            assert("W"@.len() == 1);
        },
        Key::X => {
            reveal_strlit("X");
            assert(map_key_spec(key) == Some(KeyCode::KeyX));
            assert(key_label_spec(KeyCode::KeyX) == "X"@);
            assert("X"@.len() == 1);
        },
        Key::Y => {
            reveal_strlit("Y");
            assert(map_key_spec(key) == Some(KeyCode::KeyY));
            assert(key_label_spec(KeyCode::KeyY) == "Y"@);
            assert("Y"@.len() == 1);
        },
        Key::Z => {
            reveal_strlit("Z");
            assert(map_key_spec(key) == Some(KeyCode::KeyZ));
            assert(key_label_spec(KeyCode::KeyZ) == "Z"@);
            assert("Z"@.len() == 1);
        },
        Key::Num0 => {
            reveal_strlit("0");
            assert(map_key_spec(key) == Some(KeyCode::Digit0));
            assert(key_label_spec(KeyCode::Digit0) == "0"@);
            assert("0"@.len() == 1);
        },
        Key::Num1 => {
            reveal_strlit("1");
            assert(map_key_spec(key) == Some(KeyCode::Digit1));
            assert(key_label_spec(KeyCode::Digit1) == "1"@);
            assert("1"@.len() == 1);
        },
        Key::Num2 => {
            reveal_strlit("2");
            assert(map_key_spec(key) == Some(KeyCode::Digit2));
            assert(key_label_spec(KeyCode::Digit2) == "2"@);
            assert("2"@.len() == 1);
        },
        Key::Num3 => {
            reveal_strlit("3");
            assert(map_key_spec(key) == Some(KeyCode::Digit3));
            assert(key_label_spec(KeyCode::Digit3) == "3"@);
            assert("3"@.len() == 1);
        },
        Key::Num4 => {
            reveal_strlit("4");
            assert(map_key_spec(key) == Some(KeyCode::Digit4));
            assert(key_label_spec(KeyCode::Digit4) == "4"@);
            assert("4"@.len() == 1);
        },
        Key::Num5 => {
            reveal_strlit("5");
            assert(map_key_spec(key) == Some(KeyCode::Digit5));
            assert(key_label_spec(KeyCode::Digit5) == "5"@);
            assert("5"@.len() == 1);
        },
        Key::Num6 => {
            reveal_strlit("6");
            assert(map_key_spec(key) == Some(KeyCode::Digit6));
            assert(key_label_spec(KeyCode::Digit6) == "6"@);
            assert("6"@.len() == 1);
        },
        Key::Num7 => {
            reveal_strlit("7");
            assert(map_key_spec(key) == Some(KeyCode::Digit7));
            assert(key_label_spec(KeyCode::Digit7) == "7"@);
            assert("7"@.len() == 1);
        },
        Key::Num8 => {
            reveal_strlit("8");
            assert(map_key_spec(key) == Some(KeyCode::Digit8));
            assert(key_label_spec(KeyCode::Digit8) == "8"@);
            assert("8"@.len() == 1);
        },
        Key::Num9 => {
            reveal_strlit("9");
            assert(map_key_spec(key) == Some(KeyCode::Digit9));
            assert(key_label_spec(KeyCode::Digit9) == "9"@);
            assert("9"@.len() == 1);
        },
        Key::F1 => {
            reveal_strlit("F1");
            assert(map_key_spec(key) == Some(KeyCode::F1));
            assert(key_label_spec(KeyCode::F1) == "F1"@);
            assert("F1"@.len() == 2);
        },
        Key::F2 => {
            reveal_strlit("F2");
            assert(map_key_spec(key) == Some(KeyCode::F2));
            assert(key_label_spec(KeyCode::F2) == "F2"@);
            assert("F2"@.len() == 2);
        },
        Key::F3 => {
            reveal_strlit("F3");
            assert(map_key_spec(key) == Some(KeyCode::F3));
            assert(key_label_spec(KeyCode::F3) == "F3"@);
            assert("F3"@.len() == 2);
        },
        Key::F4 => {
            reveal_strlit("F4");
            assert(map_key_spec(key) == Some(KeyCode::F4));
            assert(key_label_spec(KeyCode::F4) == "F4"@);
            assert("F4"@.len() == 2);
        },
        Key::F5 => {
            reveal_strlit("F5");
            assert(map_key_spec(key) == Some(KeyCode::F5));
            assert(key_label_spec(KeyCode::F5) == "F5"@);
            assert("F5"@.len() == 2);
        },
        Key::F6 => {
            reveal_strlit("F6");
            assert(map_key_spec(key) == Some(KeyCode::F6));
            assert(key_label_spec(KeyCode::F6) == "F6"@);
            assert("F6"@.len() == 2);
        },
        Key::F7 => {
            reveal_strlit("F7");
            assert(map_key_spec(key) == Some(KeyCode::F7));
            assert(key_label_spec(KeyCode::F7) == "F7"@);
            assert("F7"@.len() == 2);
        },
        Key::F8 => {
            reveal_strlit("F8");
            assert(map_key_spec(key) == Some(KeyCode::F8));
            assert(key_label_spec(KeyCode::F8) == "F8"@);
            assert("F8"@.len() == 2);
        },
        Key::F9 => {
            reveal_strlit("F9");
            assert(map_key_spec(key) == Some(KeyCode::F9));
            assert(key_label_spec(KeyCode::F9) == "F9"@);
            assert("F9"@.len() == 2);
        },
        Key::F10 => {
            reveal_strlit("F10");
            assert(map_key_spec(key) == Some(KeyCode::F10));
            assert(key_label_spec(KeyCode::F10) == "F10"@);
            assert("F10"@.len() == 3);
        },
        Key::F11 => {
            reveal_strlit("F11");
            assert(map_key_spec(key) == Some(KeyCode::F11));
            assert(key_label_spec(KeyCode::F11) == "F11"@);
            assert("F11"@.len() == 3);
        },
        Key::F12 => {
            reveal_strlit("F12");
            assert(map_key_spec(key) == Some(KeyCode::F12));
            assert(key_label_spec(KeyCode::F12) == "F12"@);
            assert("F12"@.len() == 3);
        },
        Key::Space => {
            reveal_strlit("Space");
            assert(map_key_spec(key) == Some(KeyCode::Space));
            assert(key_label_spec(KeyCode::Space) == "Space"@);
            assert("Space"@.len() == 5);
        },
        Key::Enter => {
            reveal_strlit("Enter");
            assert(map_key_spec(key) == Some(KeyCode::Enter));
            assert(key_label_spec(KeyCode::Enter) == "Enter"@);
            assert("Enter"@.len() == 5);
        },
        Key::Tab => {
            reveal_strlit("Tab");
            assert(map_key_spec(key) == Some(KeyCode::Tab));
            assert(key_label_spec(KeyCode::Tab) == "Tab"@);
            assert("Tab"@.len() == 3);
        },
        Key::Escape => {
            reveal_strlit("Esc");
            assert(map_key_spec(key) == Some(KeyCode::Escape));
            assert(key_label_spec(KeyCode::Escape) == "Esc"@);
            assert("Esc"@.len() == 3);
        },
        Key::Backspace => {
            reveal_strlit("Backspace");
            assert(map_key_spec(key) == Some(KeyCode::Backspace));
            assert(key_label_spec(KeyCode::Backspace) == "Backspace"@);
            assert("Backspace"@.len() == 9);
        },
        Key::Delete => {
            reveal_strlit("Delete");
            assert(map_key_spec(key) == Some(KeyCode::Delete));
            assert(key_label_spec(KeyCode::Delete) == "Delete"@);
            assert("Delete"@.len() == 6);
        },
        Key::Insert => {
            reveal_strlit("Insert");
            assert(map_key_spec(key) == Some(KeyCode::Insert));
            assert(key_label_spec(KeyCode::Insert) == "Insert"@);
            assert("Insert"@.len() == 6);
        },
        Key::Home => {
            reveal_strlit("Home");
            assert(map_key_spec(key) == Some(KeyCode::Home));
            assert(key_label_spec(KeyCode::Home) == "Home"@);
            assert("Home"@.len() == 4);
        },
        Key::End => {
            reveal_strlit("End");
            assert(map_key_spec(key) == Some(KeyCode::End));
            assert(key_label_spec(KeyCode::End) == "End"@);
            assert("End"@.len() == 3);
        },
        Key::PageUp => {
            reveal_strlit("PageUp");
            assert(map_key_spec(key) == Some(KeyCode::PageUp));
            assert(key_label_spec(KeyCode::PageUp) == "PageUp"@);
            assert("PageUp"@.len() == 6);
        },
        Key::PageDown => {
            reveal_strlit("PageDown");
            assert(map_key_spec(key) == Some(KeyCode::PageDown));
            assert(key_label_spec(KeyCode::PageDown) == "PageDown"@);
            assert("PageDown"@.len() == 8);
        },
        Key::ArrowUp => {
            reveal_strlit("Up");
            assert(map_key_spec(key) == Some(KeyCode::ArrowUp));
            assert(key_label_spec(KeyCode::ArrowUp) == "Up"@);
            assert("Up"@.len() == 2);
        },
        Key::ArrowDown => {
            reveal_strlit("Down");
            assert(map_key_spec(key) == Some(KeyCode::ArrowDown));
            assert(key_label_spec(KeyCode::ArrowDown) == "Down"@);
            assert("Down"@.len() == 4);
        },
        Key::ArrowLeft => {
            reveal_strlit("Left");
            assert(map_key_spec(key) == Some(KeyCode::ArrowLeft));
            assert(key_label_spec(KeyCode::ArrowLeft) == "Left"@);
            assert("Left"@.len() == 4);
        },
        Key::ArrowRight => {
            reveal_strlit("Right");
            assert(map_key_spec(key) == Some(KeyCode::ArrowRight));
            assert(key_label_spec(KeyCode::ArrowRight) == "Right"@);
            assert("Right"@.len() == 5);
        },
        Key::Other => {},
    }
}

/// The name of a window key as the `Key` type spells it.
pub open spec fn key_variant_name(key: Key) -> Seq<char> {
    match key {
        Key::A => "A"@,
        Key::B => "B"@,
        Key::C => "C"@,
        Key::D => "D"@,
        Key::E => "E"@,
        Key::F => "F"@,
        Key::G => "G"@,
        Key::H => "H"@,
        Key::I => "I"@,
        Key::J => "J"@,
        Key::K => "K"@,
        Key::L => "L"@,
        Key::M => "M"@,
        Key::N => "N"@,
        Key::O => "O"@,
        Key::P => "P"@,
        Key::Q => "Q"@,
        Key::R => "R"@,
        Key::S => "S"@,
        Key::T => "T"@,
        Key::U => "U"@,
        Key::V => "V"@,
        Key::W => "W"@,
        Key::X => "X"@,
        Key::Y => "Y"@,
        Key::Z => "Z"@,
        Key::Num0 => "Num0"@,
        Key::Num1 => "Num1"@,
        Key::Num2 => "Num2"@,
        Key::Num3 => "Num3"@,
        Key::Num4 => "Num4"@,
        Key::Num5 => "Num5"@,
        Key::Num6 => "Num6"@,
        Key::Num7 => "Num7"@,
        Key::Num8 => "Num8"@,
        Key::Num9 => "Num9"@,
        Key::F1 => "F1"@,
        Key::F2 => "F2"@,
        Key::F3 => "F3"@,
        Key::F4 => "F4"@,
        Key::F5 => "F5"@,
        Key::F6 => "F6"@,
        Key::F7 => "F7"@,
        Key::F8 => "F8"@,
        Key::F9 => "F9"@,
        Key::F10 => "F10"@,
        Key::F11 => "F11"@,
        Key::F12 => "F12"@,
        Key::Space => "Space"@,
        Key::Enter => "Enter"@,
        Key::Tab => "Tab"@,
        Key::Escape => "Escape"@,
        Key::Backspace => "Backspace"@,
        Key::Delete => "Delete"@,
        Key::Insert => "Insert"@,
        Key::Home => "Home"@,
        Key::End => "End"@,
        Key::PageUp => "PageUp"@,
        Key::PageDown => "PageDown"@,
        Key::ArrowUp => "ArrowUp"@,
        Key::ArrowDown => "ArrowDown"@,
        Key::ArrowLeft => "ArrowLeft"@,
        Key::ArrowRight => "ArrowRight"@,
        Key::Other => "Other"@,
    }
}

/// The W3C `code` name of the physical key that a window key names: the
/// letter key `X` is `KeyX`, the digit key `NumD` is `DigitD`, and every
/// other key (function keys, arrows, editing keys) keeps its name.
pub open spec fn w3c_name_of(key_name: Seq<char>) -> Seq<char> {
    if key_name.len() == 1 && 65 <= (key_name[0] as u32) <= 90 {
        "Key"@ + key_name
    } else if key_name.len() == 4 && key_name.take(3) == "Num"@ {
        "Digit"@ + key_name.skip(3)
    } else {
        key_name
    }
}

/// A pressed key is bound to the code of that same physical key: every key
/// other than `Other` is bound, to the code whose W3C name belongs to the
/// key (`Z` to `KeyZ`, `Num7` to `Digit7`, `F5` to `F5`, `ArrowUp` to
/// `ArrowUp`), and `Other` is refused.
#[verifier::rlimit(100)]
pub proof fn law_bound_code_is_the_pressed_key(key: Key)
    ensures
        key != Key::Other ==> (map_key_spec(key) matches Some(c) && code_name_spec(c)
            == w3c_name_of(key_variant_name(key))),
        key == Key::Other ==> map_key_spec(key) is None,
{
    reveal_strlit("Key");
    reveal_strlit("Num");
    reveal_strlit("Digit");
    match key {
        Key::A => {
            reveal_strlit("A");
            reveal_strlit("KeyA");
            assert("A"@.len() == 1);
            assert("Key"@ + "A"@ =~= "KeyA"@);
        },
        Key::B => {
            reveal_strlit("B");
            reveal_strlit("KeyB");
            assert("B"@.len() == 1);
            assert("Key"@ + "B"@ =~= "KeyB"@);
        },
        Key::C => {
            reveal_strlit("C");
            reveal_strlit("KeyC");
            assert("C"@.len() == 1);
            assert("Key"@ + "C"@ =~= "KeyC"@);
        },
        Key::D => {
            reveal_strlit("D");
            reveal_strlit("KeyD");
            assert("D"@.len() == 1);
            assert("Key"@ + "D"@ =~= "KeyD"@);
        },
        Key::E => {
            reveal_strlit("E");
            reveal_strlit("KeyE");
            assert("E"@.len() == 1);
            assert("Key"@ + "E"@ =~= "KeyE"@);
        },
        Key::F => {
            reveal_strlit("F");
            reveal_strlit("KeyF");
            assert("F"@.len() == 1);
            assert("Key"@ + "F"@ =~= "KeyF"@);
        },
        Key::G => {
            reveal_strlit("G");
            reveal_strlit("KeyG");
            assert("G"@.len() == 1);
            assert("Key"@ + "G"@ =~= "KeyG"@);
        },
        Key::H => {
            reveal_strlit("H");
            reveal_strlit("KeyH");
            assert("H"@.len() == 1);
            assert("Key"@ + "H"@ =~= "KeyH"@);
        },
        Key::I => {
            reveal_strlit("I");
            reveal_strlit("KeyI");
            assert("I"@.len() == 1);
            assert("Key"@ + "I"@ =~= "KeyI"@);
        },
        Key::J => {
            reveal_strlit("J");
            reveal_strlit("KeyJ");
            assert("J"@.len() == 1);
            assert("Key"@ + "J"@ =~= "KeyJ"@);
        },
        Key::K => {
            reveal_strlit("K");
            reveal_strlit("KeyK");
            assert("K"@.len() == 1);
            assert("Key"@ + "K"@ =~= "KeyK"@);
        },
        Key::L => {
            reveal_strlit("L");
            reveal_strlit("KeyL");
            assert("L"@.len() == 1);
            assert("Key"@ + "L"@ =~= "KeyL"@);
        },
        Key::M => {
            reveal_strlit("M");
            reveal_strlit("KeyM");
            assert("M"@.len() == 1);
            assert("Key"@ + "M"@ =~= "KeyM"@);
        },
        Key::N => {
            reveal_strlit("N");
            reveal_strlit("KeyN");
            assert("N"@.len() == 1);
            assert("Key"@ + "N"@ =~= "KeyN"@);
        },
        Key::O => {
            reveal_strlit("O");
            reveal_strlit("KeyO");
            assert("O"@.len() == 1);
            assert("Key"@ + "O"@ =~= "KeyO"@);
        },
        Key::P => {
            reveal_strlit("P");
            reveal_strlit("KeyP");
            assert("P"@.len() == 1);
            assert("Key"@ + "P"@ =~= "KeyP"@);
        },
        Key::Q => {
            reveal_strlit("Q");
            reveal_strlit("KeyQ");
            assert("Q"@.len() == 1);
            assert("Key"@ + "Q"@ =~= "KeyQ"@);
        },
        Key::R => {
            reveal_strlit("R");
            reveal_strlit("KeyR");
            assert("R"@.len() == 1);
            assert("Key"@ + "R"@ =~= "KeyR"@);
        },
        Key::S => {
            reveal_strlit("S");
            reveal_strlit("KeyS");
            assert("S"@.len() == 1);
            assert("Key"@ + "S"@ =~= "KeyS"@);
        },
        Key::T => {
            reveal_strlit("T");
            reveal_strlit("KeyT");
            assert("T"@.len() == 1);
            assert("Key"@ + "T"@ =~= "KeyT"@);
        },
        Key::U => {
            reveal_strlit("U");
            reveal_strlit("KeyU");
            assert("U"@.len() == 1);
            assert("Key"@ + "U"@ =~= "KeyU"@);
        },
        Key::V => {
            reveal_strlit("V");
            reveal_strlit("KeyV");
            assert("V"@.len() == 1);
            assert("Key"@ + "V"@ =~= "KeyV"@);
        },
        Key::W => {
            reveal_strlit("W");
            reveal_strlit("KeyW");
            assert("W"@.len() == 1);
            assert("Key"@ + "W"@ =~= "KeyW"@);
        },
        Key::X => {
            reveal_strlit("X");
            reveal_strlit("KeyX");
            assert("X"@.len() == 1);
            assert("Key"@ + "X"@ =~= "KeyX"@);
        },
        Key::Y => {
            reveal_strlit("Y");
            reveal_strlit("KeyY");
            assert("Y"@.len() == 1);
            assert("Key"@ + "Y"@ =~= "KeyY"@);
        },
        Key::Z => {
            reveal_strlit("Z");
            reveal_strlit("KeyZ");
            assert("Z"@.len() == 1);
            assert("Key"@ + "Z"@ =~= "KeyZ"@);
        },
        Key::Num0 => {
            reveal_strlit("Num0");
            reveal_strlit("Digit0");
            assert("Num0"@.len() == 4);
            reveal_strlit("0");
            assert("Num0"@.take(3) =~= "Num"@);
            assert("Num0"@.skip(3) =~= "0"@);
            assert("Digit"@ + "0"@ =~= "Digit0"@);
        },
        Key::Num1 => {
            reveal_strlit("Num1");
            reveal_strlit("Digit1");
            assert("Num1"@.len() == 4);
            reveal_strlit("1");
            assert("Num1"@.take(3) =~= "Num"@);
            assert("Num1"@.skip(3) =~= "1"@);
            assert("Digit"@ + "1"@ =~= "Digit1"@);
        },
        Key::Num2 => {
            reveal_strlit("Num2");
            reveal_strlit("Digit2");
            assert("Num2"@.len() == 4);
            reveal_strlit("2");
            assert("Num2"@.take(3) =~= "Num"@);
            assert("Num2"@.skip(3) =~= "2"@);
            assert("Digit"@ + "2"@ =~= "Digit2"@);
        },
        Key::Num3 => {
            reveal_strlit("Num3");
            reveal_strlit("Digit3");
            assert("Num3"@.len() == 4);
            reveal_strlit("3");
            assert("Num3"@.take(3) =~= "Num"@);
            assert("Num3"@.skip(3) =~= "3"@);
            assert("Digit"@ + "3"@ =~= "Digit3"@);
        },
        Key::Num4 => {
            reveal_strlit("Num4");
            reveal_strlit("Digit4");
            assert("Num4"@.len() == 4);
            reveal_strlit("4");
            assert("Num4"@.take(3) =~= "Num"@);
            assert("Num4"@.skip(3) =~= "4"@);
            assert("Digit"@ + "4"@ =~= "Digit4"@);
        },
        Key::Num5 => {
            reveal_strlit("Num5");
            reveal_strlit("Digit5");
            assert("Num5"@.len() == 4);
            reveal_strlit("5");
            assert("Num5"@.take(3) =~= "Num"@);
            assert("Num5"@.skip(3) =~= "5"@);
            assert("Digit"@ + "5"@ =~= "Digit5"@);
        },
        Key::Num6 => {
            reveal_strlit("Num6");
            reveal_strlit("Digit6");
            assert("Num6"@.len() == 4);
            reveal_strlit("6");
            assert("Num6"@.take(3) =~= "Num"@);
            assert("Num6"@.skip(3) =~= "6"@);
            assert("Digit"@ + "6"@ =~= "Digit6"@);
        },
        Key::Num7 => {
            reveal_strlit("Num7");
            reveal_strlit("Digit7");
            assert("Num7"@.len() == 4);
            reveal_strlit("7");
            assert("Num7"@.take(3) =~= "Num"@);
            assert("Num7"@.skip(3) =~= "7"@);
            assert("Digit"@ + "7"@ =~= "Digit7"@);
        },
        Key::Num8 => {
            reveal_strlit("Num8");
            reveal_strlit("Digit8");
            assert("Num8"@.len() == 4);
            reveal_strlit("8");
            assert("Num8"@.take(3) =~= "Num"@);
            assert("Num8"@.skip(3) =~= "8"@);
            assert("Digit"@ + "8"@ =~= "Digit8"@);
        },
        Key::Num9 => {
            reveal_strlit("Num9");
            reveal_strlit("Digit9");
            assert("Num9"@.len() == 4);
            reveal_strlit("9");
            assert("Num9"@.take(3) =~= "Num"@);
            assert("Num9"@.skip(3) =~= "9"@);
            assert("Digit"@ + "9"@ =~= "Digit9"@);
        },
        Key::F1 => {
            reveal_strlit("F1");
            reveal_strlit("F1");
            assert("F1"@.len() == 2);
        },
        Key::F2 => {
            reveal_strlit("F2");
            reveal_strlit("F2");
            assert("F2"@.len() == 2);
        },
        Key::F3 => {
            reveal_strlit("F3");
            reveal_strlit("F3");
            assert("F3"@.len() == 2);
        },
        Key::F4 => {
            reveal_strlit("F4");
            reveal_strlit("F4");
            assert("F4"@.len() == 2);
        },
        Key::F5 => {
            reveal_strlit("F5");
            reveal_strlit("F5");
            assert("F5"@.len() == 2);
        },
        Key::F6 => {
            reveal_strlit("F6");
            reveal_strlit("F6");
            assert("F6"@.len() == 2);
        },
        Key::F7 => {
            reveal_strlit("F7");
            reveal_strlit("F7");
            assert("F7"@.len() == 2);
        },
        Key::F8 => {
            reveal_strlit("F8");
            reveal_strlit("F8");
            assert("F8"@.len() == 2);
        },
        Key::F9 => {
            reveal_strlit("F9");
            reveal_strlit("F9");
            assert("F9"@.len() == 2);
        },
        Key::F10 => {
            reveal_strlit("F10");
            reveal_strlit("F10");
            assert("F10"@.len() == 3);
        },
        Key::F11 => {
            reveal_strlit("F11");
            reveal_strlit("F11");
            assert("F11"@.len() == 3);
        },
        Key::F12 => {
            reveal_strlit("F12");
            reveal_strlit("F12");
            assert("F12"@.len() == 3);
        },
        Key::Space => {
            reveal_strlit("Space");
            reveal_strlit("Space");
            assert("Space"@.len() == 5);
        },
        Key::Enter => {
            reveal_strlit("Enter");
            reveal_strlit("Enter");
            assert("Enter"@.len() == 5);
        },
        Key::Tab => {
            reveal_strlit("Tab");
            reveal_strlit("Tab");
            assert("Tab"@.len() == 3);
        },
        Key::Escape => {
            reveal_strlit("Escape");
            reveal_strlit("Escape");
            assert("Escape"@.len() == 6);
        },
        Key::Backspace => {
            reveal_strlit("Backspace");
            reveal_strlit("Backspace");
            assert("Backspace"@.len() == 9);
        },
        Key::Delete => {
            reveal_strlit("Delete");
            reveal_strlit("Delete");
            assert("Delete"@.len() == 6);
        },
        Key::Insert => {
            reveal_strlit("Insert");
            reveal_strlit("Insert");
            assert("Insert"@.len() == 6);
        },
        Key::Home => {
            reveal_strlit("Home");
            reveal_strlit("Home");
            assert("Home"@.len() == 4);
            assert("Home"@.take(3)[0] != "Num"@[0]);
        },
        Key::End => {
            reveal_strlit("End");
            reveal_strlit("End");
            assert("End"@.len() == 3);
        },
        Key::PageUp => {
            reveal_strlit("PageUp");
            reveal_strlit("PageUp");
            assert("PageUp"@.len() == 6);
        },
        Key::PageDown => {
            reveal_strlit("PageDown");
            reveal_strlit("PageDown");
            assert("PageDown"@.len() == 8);
        },
        Key::ArrowUp => {
            reveal_strlit("ArrowUp");
            reveal_strlit("ArrowUp");
            assert("ArrowUp"@.len() == 7);
        },
        Key::ArrowDown => {
            reveal_strlit("ArrowDown");
            reveal_strlit("ArrowDown");
            assert("ArrowDown"@.len() == 9);
        },
        Key::ArrowLeft => {
            reveal_strlit("ArrowLeft");
            reveal_strlit("ArrowLeft");
            assert("ArrowLeft"@.len() == 9);
        },
        Key::ArrowRight => {
            reveal_strlit("ArrowRight");
            reveal_strlit("ArrowRight");
            assert("ArrowRight"@.len() == 10);
        },
        Key::Other => {},
    }
}

/// The label a W3C code name is shown with: a letter code `KeyX` shows `X`,
/// a digit code `DigitD` shows `D`, an arrow `ArrowUp` shows `Up`, `Escape`
/// shows `Esc`, and every other code shows its name.
pub open spec fn label_for_name(n: Seq<char>) -> Seq<char> {
    if n.len() == 4 && n.take(3) == "Key"@ {
        n.skip(3)
    } else if n.len() == 6 && n.take(5) == "Digit"@ {
        n.skip(5)
    } else if n.len() > 5 && n.take(5) == "Arrow"@ {
        n.skip(5)
    } else if n == "Escape"@ {
        "Esc"@
    } else {
        n
    }
}

/// The label shown for a code is the one its W3C name stands for, so a
/// shortcut is displayed with the key it binds (`KeyX` as `X`).
#[verifier::rlimit(100)]
pub proof fn law_label_shows_the_code(c: KeyCode)
    ensures
        !(c is Other) ==> key_label_spec(c) == label_for_name(code_name_spec(c)),
{
    reveal_strlit("Key");
    reveal_strlit("Digit");
    reveal_strlit("Arrow");
    reveal_strlit("Escape");
    reveal_strlit("Esc");
    match c {
        KeyCode::KeyA => {
            reveal_strlit("KeyA");
            reveal_strlit("A");
            assert("KeyA"@.len() == 4);
            assert("KeyA"@.take(3) =~= "Key"@);
            assert("KeyA"@.skip(3) =~= "A"@);
        },
        KeyCode::KeyB => {
            reveal_strlit("KeyB");
            reveal_strlit("B");
            assert("KeyB"@.len() == 4);
            assert("KeyB"@.take(3) =~= "Key"@);
            assert("KeyB"@.skip(3) =~= "B"@);
        },
        KeyCode::KeyC => {
            reveal_strlit("KeyC");
            reveal_strlit("C");
            assert("KeyC"@.len() == 4);
            assert("KeyC"@.take(3) =~= "Key"@);
            assert("KeyC"@.skip(3) =~= "C"@);
        },
        KeyCode::KeyD => {
            reveal_strlit("KeyD");
            reveal_strlit("D");
            assert("KeyD"@.len() == 4);
            assert("KeyD"@.take(3) =~= "Key"@);
            assert("KeyD"@.skip(3) =~= "D"@);
        },
        KeyCode::KeyE => {
            reveal_strlit("KeyE");
            reveal_strlit("E");
            assert("KeyE"@.len() == 4);
            assert("KeyE"@.take(3) =~= "Key"@);
            assert("KeyE"@.skip(3) =~= "E"@);
        },
        KeyCode::KeyF => {
            reveal_strlit("KeyF");
            reveal_strlit("F");
            assert("KeyF"@.len() == 4);
            assert("KeyF"@.take(3) =~= "Key"@);
            assert("KeyF"@.skip(3) =~= "F"@);
        },
        KeyCode::KeyG => {
            reveal_strlit("KeyG");
            reveal_strlit("G");
            assert("KeyG"@.len() == 4);
            assert("KeyG"@.take(3) =~= "Key"@);
            assert("KeyG"@.skip(3) =~= "G"@);
        },
        KeyCode::KeyH => {
            reveal_strlit("KeyH");
            reveal_strlit("H");
            assert("KeyH"@.len() == 4);
            assert("KeyH"@.take(3) =~= "Key"@);
            assert("KeyH"@.skip(3) =~= "H"@);
        },
        KeyCode::KeyI => {
            reveal_strlit("KeyI");
            reveal_strlit("I");
            assert("KeyI"@.len() == 4);
            assert("KeyI"@.take(3) =~= "Key"@);
            assert("KeyI"@.skip(3) =~= "I"@);
        },
        KeyCode::KeyJ => {
            reveal_strlit("KeyJ");
            reveal_strlit("J");
            assert("KeyJ"@.len() == 4);
            assert("KeyJ"@.take(3) =~= "Key"@);
            assert("KeyJ"@.skip(3) =~= "J"@);
        },
        KeyCode::KeyK => {
            reveal_strlit("KeyK");
            reveal_strlit("K");
            assert("KeyK"@.len() == 4);
            assert("KeyK"@.take(3) =~= "Key"@);
            assert("KeyK"@.skip(3) =~= "K"@);
        },
        KeyCode::KeyL => {
            reveal_strlit("KeyL");
            reveal_strlit("L");
            assert("KeyL"@.len() == 4);
            assert("KeyL"@.take(3) =~= "Key"@);
            assert("KeyL"@.skip(3) =~= "L"@);
        },
        KeyCode::KeyM => {
            reveal_strlit("KeyM");
            reveal_strlit("M");
            assert("KeyM"@.len() == 4);
            assert("KeyM"@.take(3) =~= "Key"@);
            assert("KeyM"@.skip(3) =~= "M"@);
        },
        KeyCode::KeyN => {
            reveal_strlit("KeyN");
            reveal_strlit("N");
            assert("KeyN"@.len() == 4);
            assert("KeyN"@.take(3) =~= "Key"@);
            assert("KeyN"@.skip(3) =~= "N"@);
        },
        KeyCode::KeyO => {
            reveal_strlit("KeyO");
            reveal_strlit("O");
            assert("KeyO"@.len() == 4);
            assert("KeyO"@.take(3) =~= "Key"@);
            assert("KeyO"@.skip(3) =~= "O"@);
        },
        KeyCode::KeyP => {
            reveal_strlit("KeyP");
            reveal_strlit("P");
            assert("KeyP"@.len() == 4);
            assert("KeyP"@.take(3) =~= "Key"@);
            assert("KeyP"@.skip(3) =~= "P"@);
        },
        KeyCode::KeyQ => {
            reveal_strlit("KeyQ");
            reveal_strlit("Q");
            assert("KeyQ"@.len() == 4);
            assert("KeyQ"@.take(3) =~= "Key"@);
            assert("KeyQ"@.skip(3) =~= "Q"@);
        },
        KeyCode::KeyR => {
            reveal_strlit("KeyR");
            reveal_strlit("R");
            assert("KeyR"@.len() == 4);
            assert("KeyR"@.take(3) =~= "Key"@);
            assert("KeyR"@.skip(3) =~= "R"@);
        },
        KeyCode::KeyS => {
            reveal_strlit("KeyS");
            reveal_strlit("S");
            assert("KeyS"@.len() == 4);
            assert("KeyS"@.take(3) =~= "Key"@);
            assert("KeyS"@.skip(3) =~= "S"@);
        },
        KeyCode::KeyT => {
            reveal_strlit("KeyT");
            reveal_strlit("T");
            assert("KeyT"@.len() == 4);
            assert("KeyT"@.take(3) =~= "Key"@);
            assert("KeyT"@.skip(3) =~= "T"@);
        },
        KeyCode::KeyU => {
            reveal_strlit("KeyU");
            reveal_strlit("U");
            assert("KeyU"@.len() == 4);
            assert("KeyU"@.take(3) =~= "Key"@);
            assert("KeyU"@.skip(3) =~= "U"@);
        },
        KeyCode::KeyV => {
            reveal_strlit("KeyV");
            reveal_strlit("V");
            assert("KeyV"@.len() == 4);
            assert("KeyV"@.take(3) =~= "Key"@);
            assert("KeyV"@.skip(3) =~= "V"@);
        },
        KeyCode::KeyW => {
            reveal_strlit("KeyW");
            reveal_strlit("W");
            assert("KeyW"@.len() == 4);
            assert("KeyW"@.take(3) =~= "Key"@);
            assert("KeyW"@.skip(3) =~= "W"@);
        },
        KeyCode::KeyX => {
            reveal_strlit("KeyX");
            reveal_strlit("X");
            assert("KeyX"@.len() == 4);
            assert("KeyX"@.take(3) =~= "Key"@);
            assert("KeyX"@.skip(3) =~= "X"@);
        },
        KeyCode::KeyY => {
            reveal_strlit("KeyY");
            reveal_strlit("Y");
            assert("KeyY"@.len() == 4);
            assert("KeyY"@.take(3) =~= "Key"@);
            assert("KeyY"@.skip(3) =~= "Y"@);
        },
        KeyCode::KeyZ => {
            reveal_strlit("KeyZ");
            reveal_strlit("Z");
            assert("KeyZ"@.len() == 4);
            assert("KeyZ"@.take(3) =~= "Key"@);
            assert("KeyZ"@.skip(3) =~= "Z"@);
        },
        KeyCode::Digit0 => {
            reveal_strlit("Digit0");
            reveal_strlit("0");
            assert("Digit0"@.len() == 6);
            assert("Digit0"@.take(5) =~= "Digit"@);
            assert("Digit0"@.skip(5) =~= "0"@);
        },
        KeyCode::Digit1 => {
            reveal_strlit("Digit1");
            reveal_strlit("1");
            assert("Digit1"@.len() == 6);
            assert("Digit1"@.take(5) =~= "Digit"@);
            assert("Digit1"@.skip(5) =~= "1"@);
        },
        KeyCode::Digit2 => {
            reveal_strlit("Digit2");
            reveal_strlit("2");
            assert("Digit2"@.len() == 6);
            assert("Digit2"@.take(5) =~= "Digit"@);
            assert("Digit2"@.skip(5) =~= "2"@);
        },
        KeyCode::Digit3 => {
            reveal_strlit("Digit3");
            reveal_strlit("3");
            assert("Digit3"@.len() == 6);
            assert("Digit3"@.take(5) =~= "Digit"@);
            assert("Digit3"@.skip(5) =~= "3"@);
        },
        KeyCode::Digit4 => {
            reveal_strlit("Digit4");
            reveal_strlit("4");
            assert("Digit4"@.len() == 6);
            assert("Digit4"@.take(5) =~= "Digit"@);
            assert("Digit4"@.skip(5) =~= "4"@);
        },
        KeyCode::Digit5 => {
            reveal_strlit("Digit5");
            reveal_strlit("5");
            assert("Digit5"@.len() == 6);
            assert("Digit5"@.take(5) =~= "Digit"@);
            assert("Digit5"@.skip(5) =~= "5"@);
        },
        KeyCode::Digit6 => {
            reveal_strlit("Digit6");
            reveal_strlit("6");
            assert("Digit6"@.len() == 6);
            assert("Digit6"@.take(5) =~= "Digit"@);
            assert("Digit6"@.skip(5) =~= "6"@);
        },
        KeyCode::Digit7 => {
            reveal_strlit("Digit7");
            reveal_strlit("7");
            assert("Digit7"@.len() == 6);
            assert("Digit7"@.take(5) =~= "Digit"@);
            assert("Digit7"@.skip(5) =~= "7"@);
        },
        KeyCode::Digit8 => {
            reveal_strlit("Digit8");
            reveal_strlit("8");
            assert("Digit8"@.len() == 6);
            assert("Digit8"@.take(5) =~= "Digit"@);
            assert("Digit8"@.skip(5) =~= "8"@);
        },
        KeyCode::Digit9 => {
            reveal_strlit("Digit9");
            reveal_strlit("9");
            assert("Digit9"@.len() == 6);
            assert("Digit9"@.take(5) =~= "Digit"@);
            assert("Digit9"@.skip(5) =~= "9"@);
        },
        KeyCode::F1 => {
            reveal_strlit("F1");
            reveal_strlit("F1");
            assert("F1"@.len() == 2);
        },
        KeyCode::F2 => {
            reveal_strlit("F2");
            reveal_strlit("F2");
            assert("F2"@.len() == 2);
        },
        KeyCode::F3 => {
            reveal_strlit("F3");
            reveal_strlit("F3");
            assert("F3"@.len() == 2);
        },
        KeyCode::F4 => {
            reveal_strlit("F4");
            reveal_strlit("F4");
            assert("F4"@.len() == 2);
        },
        KeyCode::F5 => {
            reveal_strlit("F5");
            reveal_strlit("F5");
            assert("F5"@.len() == 2);
        },
        KeyCode::F6 => {
            reveal_strlit("F6");
            reveal_strlit("F6");
            assert("F6"@.len() == 2);
        },
        KeyCode::F7 => {
            reveal_strlit("F7");
            reveal_strlit("F7");
            assert("F7"@.len() == 2);
        },
        KeyCode::F8 => {
            reveal_strlit("F8");
            reveal_strlit("F8");
            assert("F8"@.len() == 2);
        },
        KeyCode::F9 => {
            reveal_strlit("F9");
            reveal_strlit("F9");
            assert("F9"@.len() == 2);
        },
        KeyCode::F10 => {
            reveal_strlit("F10");
            reveal_strlit("F10");
            assert("F10"@.len() == 3);
        },
        KeyCode::F11 => {
            reveal_strlit("F11");
            reveal_strlit("F11");
            assert("F11"@.len() == 3);
        },
        KeyCode::F12 => {
            reveal_strlit("F12");
            reveal_strlit("F12");
            assert("F12"@.len() == 3);
        },
        KeyCode::Space => {
            reveal_strlit("Space");
            reveal_strlit("Space");
            assert("Space"@.len() == 5);
        },
        KeyCode::Enter => {
            reveal_strlit("Enter");
            reveal_strlit("Enter");
            assert("Enter"@.len() == 5);
        },
        KeyCode::Tab => {
            reveal_strlit("Tab");
            reveal_strlit("Tab");
            assert("Tab"@.len() == 3);
        },
        KeyCode::Escape => {
            reveal_strlit("Escape");
            reveal_strlit("Esc");
            assert("Escape"@.len() == 6);
            assert("Escape"@.take(5)[0] != "Digit"@[0]);
            assert("Escape"@.take(5)[0] != "Arrow"@[0]);
        },
        KeyCode::Backspace => {
            reveal_strlit("Backspace");
            reveal_strlit("Backspace");
            assert("Backspace"@.len() == 9);
            assert("Backspace"@.take(5)[0] != "Arrow"@[0]);
        },
        KeyCode::Delete => {
            reveal_strlit("Delete");
            reveal_strlit("Delete");
            assert("Delete"@.len() == 6);
            assert("Delete"@.take(5)[1] != "Digit"@[1]);
            assert("Delete"@.take(5)[0] != "Arrow"@[0]);
            assert("Delete"@[0] != "Escape"@[0] || "Delete"@[1] != "Escape"@[1]);
        },
        KeyCode::Insert => {
            reveal_strlit("Insert");
            reveal_strlit("Insert");
            assert("Insert"@.len() == 6);
            assert("Insert"@.take(5)[0] != "Digit"@[0]);
            assert("Insert"@.take(5)[0] != "Arrow"@[0]);
            assert("Insert"@[0] != "Escape"@[0] || "Insert"@[1] != "Escape"@[1]);
        },
        KeyCode::Home => {
            reveal_strlit("Home");
            reveal_strlit("Home");
            assert("Home"@.len() == 4);
            assert("Home"@.take(3)[0] != "Key"@[0]);
        },
        KeyCode::End => {
            reveal_strlit("End");
            reveal_strlit("End");
            assert("End"@.len() == 3);
        },
        KeyCode::PageUp => {
            reveal_strlit("PageUp");
            reveal_strlit("PageUp");
            assert("PageUp"@.len() == 6);
            assert("PageUp"@.take(5)[0] != "Digit"@[0]);
            assert("PageUp"@.take(5)[0] != "Arrow"@[0]);
            assert("PageUp"@[0] != "Escape"@[0] || "PageUp"@[1] != "Escape"@[1]);
        },
        KeyCode::PageDown => {
            reveal_strlit("PageDown");
            reveal_strlit("PageDown");
            assert("PageDown"@.len() == 8);
            assert("PageDown"@.take(5)[0] != "Arrow"@[0]);
        },
        KeyCode::ArrowUp => {
            reveal_strlit("ArrowUp");
            reveal_strlit("Up");
            assert("ArrowUp"@.len() == 7);
            assert("ArrowUp"@.take(5) =~= "Arrow"@);
            assert("ArrowUp"@.skip(5) =~= "Up"@);
        },
        KeyCode::ArrowDown => {
            reveal_strlit("ArrowDown");
            reveal_strlit("Down");
            assert("ArrowDown"@.len() == 9);
            assert("ArrowDown"@.take(5) =~= "Arrow"@);
            assert("ArrowDown"@.skip(5) =~= "Down"@);
        },
        KeyCode::ArrowLeft => {
            reveal_strlit("ArrowLeft");
            reveal_strlit("Left");
            assert("ArrowLeft"@.len() == 9);
            assert("ArrowLeft"@.take(5) =~= "Arrow"@);
            assert("ArrowLeft"@.skip(5) =~= "Left"@);
        },
        KeyCode::ArrowRight => {
            reveal_strlit("ArrowRight");
            reveal_strlit("Right");
            assert("ArrowRight"@.len() == 10);
            assert("ArrowRight"@.take(5) =~= "Arrow"@);
            assert("ArrowRight"@.skip(5) =~= "Right"@);
        },
        KeyCode::Other(_) => {},
    }
}

/// Modifier keys held while a key was pressed, as the window reports them.
#[derive(Debug, Clone, Copy, PartialEq, Eq, Structural)]
pub struct Modifiers {
    pub alt: bool,
    pub ctrl: bool,
    pub shift: bool,
    pub mac_cmd: bool,
    pub command: bool,
}

/// A global shortcut: modifier keys and one key.
#[derive(Debug, Clone, PartialEq, Eq)]
pub struct HotKeySpec {
    pub control: bool,
    pub alt: bool,
    pub shift: bool,
    pub super_key: bool,
    pub key: KeyCode,
}

impl HotKeySpec {
    /// Whether the shortcut has no modifier key.
    pub open spec fn no_modifiers(self) -> bool {
        !self.control && !self.alt && !self.shift && !self.super_key
    }

    /// A copy of the shortcut.
    pub fn duplicate(&self) -> (r: HotKeySpec)
        ensures
            r == *self,
    {
        let key = match &self.key {
            KeyCode::KeyA => KeyCode::KeyA,
            KeyCode::KeyB => KeyCode::KeyB,
            KeyCode::KeyC => KeyCode::KeyC,
            KeyCode::KeyD => KeyCode::KeyD,
            KeyCode::KeyE => KeyCode::KeyE,
            KeyCode::KeyF => KeyCode::KeyF,
            KeyCode::KeyG => KeyCode::KeyG,
            KeyCode::KeyH => KeyCode::KeyH,
            KeyCode::KeyI => KeyCode::KeyI,
            KeyCode::KeyJ => KeyCode::KeyJ,
            KeyCode::KeyK => KeyCode::KeyK,
            KeyCode::KeyL => KeyCode::KeyL,
            KeyCode::KeyM => KeyCode::KeyM,
            KeyCode::KeyN => KeyCode::KeyN,
            KeyCode::KeyO => KeyCode::KeyO,
            KeyCode::KeyP => KeyCode::KeyP,
            KeyCode::KeyQ => KeyCode::KeyQ,
            KeyCode::KeyR => KeyCode::KeyR,
            KeyCode::KeyS => KeyCode::KeyS,
            KeyCode::KeyT => KeyCode::KeyT,
            KeyCode::KeyU => KeyCode::KeyU,
            KeyCode::KeyV => KeyCode::KeyV,
            KeyCode::KeyW => KeyCode::KeyW,
            KeyCode::KeyX => KeyCode::KeyX,
            KeyCode::KeyY => KeyCode::KeyY,
            KeyCode::KeyZ => KeyCode::KeyZ,
            KeyCode::Digit0 => KeyCode::Digit0,
            KeyCode::Digit1 => KeyCode::Digit1,
            KeyCode::Digit2 => KeyCode::Digit2,
            KeyCode::Digit3 => KeyCode::Digit3,
            KeyCode::Digit4 => KeyCode::Digit4,
            KeyCode::Digit5 => KeyCode::Digit5,
            KeyCode::Digit6 => KeyCode::Digit6,
            KeyCode::Digit7 => KeyCode::Digit7,
            KeyCode::Digit8 => KeyCode::Digit8,
            KeyCode::Digit9 => KeyCode::Digit9,
            KeyCode::F1 => KeyCode::F1,
            KeyCode::F2 => KeyCode::F2,
            KeyCode::F3 => KeyCode::F3,
            KeyCode::F4 => KeyCode::F4,
            KeyCode::F5 => KeyCode::F5,
            KeyCode::F6 => KeyCode::F6,
            KeyCode::F7 => KeyCode::F7,
            KeyCode::F8 => KeyCode::F8,
            KeyCode::F9 => KeyCode::F9,
            KeyCode::F10 => KeyCode::F10,
            KeyCode::F11 => KeyCode::F11,
            KeyCode::F12 => KeyCode::F12,
            KeyCode::Space => KeyCode::Space,
            KeyCode::Enter => KeyCode::Enter,
            KeyCode::Tab => KeyCode::Tab,
            KeyCode::Escape => KeyCode::Escape,
            KeyCode::Backspace => KeyCode::Backspace,
            KeyCode::Delete => KeyCode::Delete,
            KeyCode::Insert => KeyCode::Insert,
            KeyCode::Home => KeyCode::Home,
            KeyCode::End => KeyCode::End,
            KeyCode::PageUp => KeyCode::PageUp,
            KeyCode::PageDown => KeyCode::PageDown,
            KeyCode::ArrowUp => KeyCode::ArrowUp,
            KeyCode::ArrowDown => KeyCode::ArrowDown,
            KeyCode::ArrowLeft => KeyCode::ArrowLeft,
            KeyCode::ArrowRight => KeyCode::ArrowRight,
            KeyCode::Other(n) => KeyCode::Other(n.clone()),
        };
        HotKeySpec {
            control: self.control,
            alt: self.alt,
            shift: self.shift,
            super_key: self.super_key,
            key,
        }
    }
}

/// The shortcut for a captured key: Ctrl (or Command) gives Control, Alt
/// gives Alt, Shift gives Shift and the Mac Command key gives Super.
pub open spec fn build_hotkey_spec(modifiers: Modifiers, code: KeyCode) -> HotKeySpec {
    HotKeySpec {
        control: modifiers.ctrl || modifiers.command,
        alt: modifiers.alt,
        shift: modifiers.shift,
        super_key: modifiers.mac_cmd,
        key: code,
    }
}

/// The shortcut for a key captured with the given modifiers; unsupported
/// keys are refused.
pub fn build_hotkey(modifiers: Modifiers, key: Key) -> (r: Result<HotKeySpec, String>)
    ensures
        map_key_spec(key) matches Some(c) ==> r == Ok::<HotKeySpec, String>(
            build_hotkey_spec(modifiers, c),
        ),
        map_key_spec(key) is None ==> r is Err && r->Err_0@ == unsupported_key_message(),
{
    let code = map_egui_key(key)?;
    Ok(
        HotKeySpec {
            control: modifiers.ctrl || modifiers.command,
            alt: modifiers.alt,
            shift: modifiers.shift,
            super_key: modifiers.mac_cmd,
            key: code,
        },
    )
}

/// The display text of a shortcut: the held modifiers in the order Ctrl,
/// Alt, Shift, Win, then the key, joined by `+`.
pub open spec fn hotkey_text_spec(h: HotKeySpec) -> Seq<char> {
    (if h.control {
        "Ctrl+"@
    } else {
        Seq::empty()
    }) + (if h.alt {
        "Alt+"@
    } else {
        Seq::empty()
    }) + (if h.shift {
        "Shift+"@
    } else {
        Seq::empty()
    }) + (if h.super_key {
        "Win+"@
    } else {
        Seq::empty()
    }) + key_label_spec(h.key)
}

/// The display text of a shortcut, such as `Ctrl+Shift+Z`.
pub fn format_hotkey(hotkey: &HotKeySpec) -> (r: String)
    ensures
        r@ == hotkey_text_spec(*hotkey),
{
    let mut r = String::new();
    if hotkey.control {
        r.append("Ctrl+");
    }
    if hotkey.alt {
        r.append("Alt+");
    }
    if hotkey.shift {
        r.append("Shift+");
    }
    if hotkey.super_key {
        r.append("Win+");
    }
    r.append(format_key(&hotkey.key));
    proof {
        assert(Seq::<char>::empty() + Seq::<char>::empty() =~= Seq::<char>::empty());
    }
    assert(r@ =~= hotkey_text_spec(*hotkey));
    r
}

// ------------------------------------------------------------ parsing

/// What `global_hotkey` parses from a shortcut text: whether Control, Alt,
/// Shift and Super are held, and the W3C name of the key; `None` when the
/// text is not a shortcut. The parse depends on the build target (the
/// `CmdOrCtrl` modifier means Super on macOS and Control elsewhere); within
/// one build it is a function of the text alone.
pub uninterp spec fn global_hotkey_parse(text: Seq<char>) -> Option<(bool, bool, bool, bool, Seq<char>)>;

#[verifier::external_type_specification]
#[verifier::external_body]
pub struct ExHotKeyParseError(global_hotkey::hotkey::HotKeyParseError);

/// `str::parse::<global_hotkey::hotkey::HotKey>`, read back through
/// `Modifiers::contains` and the key's `Display` name. Claimed: it succeeds
/// exactly when `global_hotkey_parse` gives a shortcut, and returns its
/// parts; which texts parse, and to what, is left to `global_hotkey`.
#[verifier::external_body]
fn parse_hotkey_parts(text: &str) -> (r: Result<(bool, bool, bool, bool, String), global_hotkey::hotkey::HotKeyParseError>)
    ensures
        r is Ok <==> global_hotkey_parse(text@) is Some,
        r matches Ok(p) ==> global_hotkey_parse(text@) == Some((p.0, p.1, p.2, p.3, p.4@)),
{
    let h: global_hotkey::hotkey::HotKey = text.parse()?;
    let m = h.mods;
    Ok((
        m.contains(global_hotkey::hotkey::Modifiers::CONTROL),
        m.contains(global_hotkey::hotkey::Modifiers::ALT),
        m.contains(global_hotkey::hotkey::Modifiers::SHIFT),
        m.contains(global_hotkey::hotkey::Modifiers::SUPER),
        h.key.to_string(),
    ))
}

/// `HotKeyParseError`'s `Display` text. Nothing is claimed of the text.
#[verifier::external_body]
fn parse_error_text(e: &global_hotkey::hotkey::HotKeyParseError) -> String {
    e.to_string()
}

pub open spec fn invalid_shortcut_prefix() -> Seq<char> {
    "快捷键格式无效: "@
}

/// The shortcut written in `text` (as stored in the settings, such as `ctrl+z`).
pub fn parse_shortcut(text: &str) -> (r: Result<HotKeySpec, String>)
    ensures
        r is Ok <==> global_hotkey_parse(text@) is Some,
        r matches Ok(h) ==> ({
            let p = global_hotkey_parse(text@)->0;
            &&& h.control == p.0
            &&& h.alt == p.1
            &&& h.shift == p.2
            &&& h.super_key == p.3
            &&& code_name_spec(h.key) == p.4
            &&& is_named_code(p.4) ==> h.key == code_from_name_spec(p.4)
            &&& !is_named_code(p.4) ==> (h.key matches KeyCode::Other(n) && n@ == p.4)
        }),
        r matches Err(m) ==> invalid_shortcut_prefix().len() <= m@.len() && m@.take(
            invalid_shortcut_prefix().len() as int,
        ) == invalid_shortcut_prefix(),
{
    match parse_hotkey_parts(text) {
        Ok((control, alt, shift, super_key, name)) => {
            let key = code_from_name(name.as_str());
            proof {
                if is_named_code(name@) {
                    assert(code_name_spec(code_from_name_spec(name@)) == name@);
                }
            }
            Ok(HotKeySpec { control, alt, shift, super_key, key })
        },
        Err(e) => {
            let mut m = String::from_str("快捷键格式无效: ");
            let ghost prefix = m@;
            m.append(parse_error_text(&e).as_str());
            assert(m@.take(prefix.len() as int) =~= prefix);
            Err(m)
        },
    }
}

// ----------------------------------------------------------- capturing

/// What a key press does while a new shortcut is being captured.
pub enum CaptureOutcome {
    /// Escape without modifiers: capturing stops.
    Cancelled,
    /// The key cannot be bound; capturing goes on.
    Unsupported,
    /// The combination lacks a modifier; capturing goes on.
    NeedsModifier,
    /// Register this shortcut.
    Register(HotKeySpec),
}

pub open spec fn capture_cancelled_message() -> Seq<char> {
    "已取消快捷键录入。"@
}

pub open spec fn needs_modifier_message() -> Seq<char> {
    "建议至少带一个 Ctrl / Alt / Shift，或直接使用 F1-F12。"@
}

/// Whether a code is one of the function keys F1 to F12.
pub open spec fn is_function_key(code: KeyCode) -> bool {
    match code {
        KeyCode::F1 | KeyCode::F2 | KeyCode::F3 | KeyCode::F4 | KeyCode::F5 | KeyCode::F6
        | KeyCode::F7 | KeyCode::F8 | KeyCode::F9 | KeyCode::F10 | KeyCode::F11
        | KeyCode::F12 => true,
        _ => false,
    }
}

fn function_key(code: &KeyCode) -> (b: bool)
    ensures
        b == is_function_key(*code),
{
    match code {
        KeyCode::F1 | KeyCode::F2 | KeyCode::F3 | KeyCode::F4 | KeyCode::F5 | KeyCode::F6
        | KeyCode::F7 | KeyCode::F8 | KeyCode::F9 | KeyCode::F10 | KeyCode::F11
        | KeyCode::F12 => true,
        _ => false,
    }
}

/// Handles a key pressed while a new shortcut is being captured (only
/// called when capturing is on). Escape without Alt, Ctrl or Shift cancels;
/// an unsupported key or a combination without modifiers other than F1 to
/// F12 is refused with a message; otherwise the shortcut is to be registered.
pub fn capture_shortcut(state: &mut NativeAppState, key: Key, modifiers: Modifiers) -> (r: CaptureOutcome)
    ensures
        key == Key::Escape && !modifiers.alt && !modifiers.ctrl && !modifiers.shift ==> r is Cancelled
            && !final(state).shortcut_recording && final(state).shortcut_status@
            == capture_cancelled_message(),
        !(key == Key::Escape && !modifiers.alt && !modifiers.ctrl && !modifiers.shift) ==> match map_key_spec(key) {
            None => r is Unsupported && final(state).shortcut_status@ == "这个按键暂时不支持: "@
                + unsupported_key_message() && final(state).shortcut_recording
                == old(state).shortcut_recording,
            Some(c) => {
                let h = build_hotkey_spec(modifiers, c);
                if h.no_modifiers() && !is_function_key(c) {
                    r is NeedsModifier && final(state).shortcut_status@ == needs_modifier_message()
                        && final(state).shortcut_recording == old(state).shortcut_recording
                } else {
                    r == CaptureOutcome::Register(h) && final(state).shortcut_status@
                        == old(state).shortcut_status@ && final(state).shortcut_recording
                        == old(state).shortcut_recording
                }
            },
        },
        final(state).shortcut@ == old(state).shortcut@,
        final(state).shortcut_registered == old(state).shortcut_registered,
        final(state).input_state == old(state).input_state,
        final(state).same_settings(*old(state)),
        final(state).same_model_facts(*old(state)),
        final(state).same_dictation(*old(state)),
{
    if key == Key::Escape && !modifiers.alt && !modifiers.ctrl && !modifiers.shift {
        state.shortcut_recording = false;
        state.shortcut_status = String::from_str("已取消快捷键录入。");
        return CaptureOutcome::Cancelled;
    }
    let hotkey = match build_hotkey(modifiers, key) {
        Ok(h) => h,
        Err(e) => {
            let mut m = String::from_str("这个按键暂时不支持: ");
            m.append(e.as_str());
            state.shortcut_status = m;
            return CaptureOutcome::Unsupported;
        },
    };
    if !hotkey.control && !hotkey.alt && !hotkey.shift && !hotkey.super_key && !function_key(
        &hotkey.key,
    ) {
        state.shortcut_status = String::from_str(
            "建议至少带一个 Ctrl / Alt / Shift，或直接使用 F1-F12。",
        );
        return CaptureOutcome::NeedsModifier;
    }
    CaptureOutcome::Register(hotkey)
}

pub open spec fn registered_new_message(display: Seq<char>) -> Seq<char> {
    "已注册新的全局快捷键 `"@ + display + "`。"@
}

pub open spec fn no_manager_message() -> Seq<char> {
    "全局快捷键管理器还没有初始化成功。"@
}

/// The error of registering a shortcut when no shortcut manager could be created.
pub fn no_manager_error() -> (r: String)
    ensures
        r@ == no_manager_message(),
{
    String::from_str("全局快捷键管理器还没有初始化成功。")
}

/// Records the outcome of registering a captured shortcut: its display text,
/// or the error (which leaves capturing on).
pub fn apply_shortcut(state: &mut NativeAppState, outcome: Result<String, String>)
    ensures
        match outcome {
            Ok(d) => final(state).shortcut@ == d@ && final(state).shortcut_registered
                && final(state).shortcut_status@ == registered_new_message(d@)
                && !final(state).shortcut_recording,
            Err(e) => final(state).shortcut_status@ == e@ && final(state).shortcut@
                == old(state).shortcut@ && final(state).shortcut_registered
                == old(state).shortcut_registered && final(state).shortcut_recording
                == old(state).shortcut_recording,
        },
        final(state).input_state == old(state).input_state,
        final(state).same_settings(*old(state)),
        final(state).same_model_facts(*old(state)),
        final(state).same_dictation(*old(state)),
{
    match outcome {
        Ok(display) => {
            let mut m = String::from_str("已注册新的全局快捷键 `");
            m.append(display.as_str());
            m.append("`。");
            state.shortcut = display;
            state.shortcut_registered = true;
            state.shortcut_status = m;
            state.shortcut_recording = false;
        },
        Err(e) => {
            state.shortcut_status = e;
        },
    }
}

pub open spec fn capture_prompt_message() -> Seq<char> {
    "快捷键录入中。请直接按下新的组合键，按 Esc 可取消。"@
}

pub open spec fn kept_shortcut_message(shortcut: Seq<char>) -> Seq<char> {
    "已保留当前快捷键 `"@ + shortcut + "`。"@
}

/// Switches capturing of a new shortcut on or off, with the matching status.
pub fn toggle_shortcut_recording(state: &mut NativeAppState)
    ensures
        final(state).shortcut_recording == !old(state).shortcut_recording,
        final(state).shortcut_recording ==> final(state).shortcut_status@
            == capture_prompt_message(),
        !final(state).shortcut_recording && old(state).shortcut_registered
            ==> final(state).shortcut_status@ == kept_shortcut_message(old(state).shortcut@),
        !final(state).shortcut_recording && !old(state).shortcut_registered
            ==> final(state).shortcut_status@ == capture_cancelled_message(),
        final(state).shortcut@ == old(state).shortcut@,
        final(state).shortcut_registered == old(state).shortcut_registered,
        final(state).same_settings(*old(state)),
        final(state).same_model_facts(*old(state)),
        final(state).same_dictation(*old(state)),
{
    state.shortcut_recording = !state.shortcut_recording;
    if state.shortcut_recording {
        state.shortcut_status = String::from_str(
            "快捷键录入中。请直接按下新的组合键，按 Esc 可取消。",
        );
    } else if state.shortcut_registered {
        let mut m = String::from_str("已保留当前快捷键 `");
        m.append(state.shortcut.as_str());
        m.append("`。");
        state.shortcut_status = m;
    } else {
        state.shortcut_status = String::from_str("已取消快捷键录入。");
    }
}

/// Records the outcome of registering the stored shortcut at start-up: its
/// display text, or the error.
pub fn record_initial_registration(state: &mut NativeAppState, outcome: Result<String, String>)
    ensures
        match outcome {
            Ok(d) => final(state).shortcut@ == d@ && final(state).shortcut_registered
                && final(state).shortcut_status@ == "已注册全局快捷键 `"@ + d@ + "`。"@,
            Err(e) => !final(state).shortcut_registered && final(state).shortcut_status@
                == "快捷键初始化失败，请重新设置: "@ + e@ && final(state).shortcut@
                == old(state).shortcut@,
        },
        final(state).shortcut_recording == old(state).shortcut_recording,
        final(state).same_settings(*old(state)),
        final(state).same_model_facts(*old(state)),
        final(state).same_dictation(*old(state)),
{
    match outcome {
        Ok(display) => {
            let mut m = String::from_str("已注册全局快捷键 `");
            m.append(display.as_str());
            m.append("`。");
            state.shortcut = display;
            state.shortcut_registered = true;
            state.shortcut_status = m;
        },
        Err(e) => {
            let mut m = String::from_str("快捷键初始化失败，请重新设置: ");
            m.append(e.as_str());
            state.shortcut_registered = false;
            state.shortcut_status = m;
        },
    }
}

/// Records that global shortcuts are unavailable on this system.
pub fn record_hotkeys_unavailable(state: &mut NativeAppState, error: &str)
    ensures
        !final(state).shortcut_registered,
        final(state).shortcut_status@ == "系统级快捷键不可用: "@ + error@,
        final(state).shortcut@ == old(state).shortcut@,
        final(state).shortcut_recording == old(state).shortcut_recording,
        final(state).same_settings(*old(state)),
        final(state).same_model_facts(*old(state)),
        final(state).same_dictation(*old(state)),
{
    let mut m = String::from_str("系统级快捷键不可用: ");
    m.append(error);
    state.shortcut_registered = false;
    state.shortcut_status = m;
}

// --------------------------------------------------------- registration

/// The shortcut currently registered with the system, if any.
pub struct HotkeySlot {
    pub registered: Option<HotKeySpec>,
}

/// A registration under way: the shortcut it replaces and the new one.
pub struct Registration {
    pub previous: Option<HotKeySpec>,
    pub target: HotKeySpec,
}

/// How a registration ended.
pub enum RegisterOutcome {
    /// The new shortcut is registered; its display text.
    Registered(String),
    /// Registering failed; the message, and the previous shortcut that has
    /// to be registered again (it is recorded as registered either way).
    Failed { message: String, restore: Option<HotKeySpec> },
}

impl HotkeySlot {
    /// No shortcut registered.
    pub fn new() -> (s: HotkeySlot)
        ensures
            s.registered is None,
    {
        HotkeySlot { registered: None }
    }

    /// Starts registering `target`: the current shortcut is taken out of the
    /// slot, to be unregistered first.
    pub fn begin_register(&mut self, target: HotKeySpec) -> (r: Registration)
        ensures
            final(self).registered is None,
            r.previous == old(self).registered,
            r.target == target,
    {
        let previous = self.registered.take();
        Registration { previous, target }
    }
}

pub open spec fn unregister_failed_message(previous: HotKeySpec, e: Seq<char>) -> Seq<char> {
    "取消旧快捷键 `"@ + hotkey_text_spec(previous) + "` 失败。: "@ + e
}

pub open spec fn register_failed_message(target: HotKeySpec, e: Seq<char>) -> Seq<char> {
    "注册快捷键 `"@ + hotkey_text_spec(target) + "` 失败: "@ + e
}

impl Registration {
    /// The outcome of unregistering the previous shortcut (only attempted
    /// when there was one); a failure ends the registration with no shortcut
    /// registered.
    pub fn after_unregister(self, outcome: Result<(), String>) -> (r: Result<Registration, String>)
        ensures
            match (self.previous, outcome) {
                (Some(p), Err(e)) => r is Err && r->Err_0@ == unregister_failed_message(p, e@),
                _ => r == Ok::<Registration, String>(self),
            },
    {
        match (&self.previous, outcome) {
            (Some(p), Err(e)) => {
                let mut m = String::from_str("取消旧快捷键 `");
                m.append(format_hotkey(p).as_str());
                m.append("` 失败。: ");
                m.append(e.as_str());
                Err(m)
            },
            _ => Ok(self),
        }
    }

    /// The outcome of registering the new shortcut. On success the slot
    /// holds it; on failure the slot holds the previous shortcut again.
    pub fn after_register(self, slot: &mut HotkeySlot, outcome: Result<(), String>) -> (r: RegisterOutcome)
        ensures
            match outcome {
                Ok(_) => final(slot).registered == Some(self.target) && (r matches RegisterOutcome::Registered(d)
                    && d@ == hotkey_text_spec(self.target)),
                Err(e) => final(slot).registered == self.previous && (r matches RegisterOutcome::Failed { message, restore }
                    && message@ == register_failed_message(self.target, e@) && restore == self.previous),
            },
    {
        match outcome {
            Ok(()) => {
                let display = format_hotkey(&self.target);
                slot.registered = Some(self.target);
                RegisterOutcome::Registered(display)
            },
            Err(e) => {
                let mut m = String::from_str("注册快捷键 `");
                m.append(format_hotkey(&self.target).as_str());
                m.append("` 失败: ");
                m.append(e.as_str());
                let restore = match &self.previous {
                    Some(p) => Some(p.duplicate()),
                    None => None,
                };
                slot.registered = self.previous;
                RegisterOutcome::Failed { message: m, restore }
            },
        }
    }
}

// ----------------------------------------------------------- triggering

/// A shortcut event from the system: which shortcut, and whether it was a press.
pub struct HotkeyEvent {
    pub id: u32,
    pub pressed: bool,
}

/// Whether the pending events include a press of the shortcut `active_id`.
pub fn poll_triggered(events: &Vec<HotkeyEvent>, active_id: u32) -> (b: bool)
    ensures
        b == exists|i: int| 0 <= i < events@.len() && events@[i].id == active_id && events@[i].pressed,
{
    let mut triggered = false;
    let mut i: usize = 0;
    while i < events.len()
        invariant
            i <= events@.len(),
            triggered == exists|k: int| 0 <= k < i && events@[k].id == active_id && events@[k].pressed,
        decreases events@.len() - i,
    {
        if events[i].id == active_id && events[i].pressed {
            triggered = true;
        }
        i = i + 1;
    }
    triggered
}

/// The elapsed-time label of a running recording, `m:ss`.
pub open spec fn elapsed_label_spec(secs: nat) -> Seq<char> {
    let m = secs / 60;
    let s = secs % 60;
    crate::text::decimal_spec(m) + ":"@ + (if s < 10 {
        "0"@
    } else {
        Seq::empty()
    }) + crate::text::decimal_spec(s)
}

/// The elapsed-time label shown under the record button.
pub fn recording_elapsed_label(elapsed_secs: u64) -> (r: String)
    ensures
        r@ == elapsed_label_spec(elapsed_secs as nat),
{
    let minutes = elapsed_secs / 60;
    let seconds = elapsed_secs % 60;
    let mut r = crate::text::decimal(minutes);
    r.append(":");
    if seconds < 10 {
        r.append("0");
    }
    r.append(crate::text::decimal(seconds).as_str());
    r
}

} // verus!
