//! Abstract key identities and the translation of platform virtual-key codes.

use vstd::prelude::*;
use crate::text::{decimal, is_digit, lemma_decimal_parses, parse_u32, parsed_decimal, u32_text};

verus! {

/// An abstract key. Every key the translator knows by name has its own variant;
/// any other virtual-key code is carried unchanged in `Unknown`.
#[derive(Clone, Copy, Debug, PartialEq, Eq, Structural, Hash)]
pub enum Key {
        Alt,
        AltGr,
        Backspace,
        CapsLock,
        ControlLeft,
        ControlRight,
        Delete,
        DownArrow,
        End,
        Escape,
        F1,
        F10,
        F11,
        F12,
        F2,
        F3,
        F4,
        F5,
        F6,
        F7,
        F8,
        F9,
        Home,
        LeftArrow,
        MetaLeft,
        PageDown,
        PageUp,
        Return,
        RightArrow,
        ShiftLeft,
        ShiftRight,
        Space,
        Tab,
        UpArrow,
        PrintScreen,
        ScrollLock,
        Pause,
        NumLock,
        BackQuote,
        Num1,
        Num2,
        Num3,
        Num4,
        Num5,
        Num6,
        Num7,
        Num8,
        Num9,
        Num0,
        Minus,
        Equal,
        Q,
        W,
        E,
        R,
        T,
        Y,
        U,
        I,
        O,
        P,
        LeftBracket,
        RightBracket,
        A,
        S,
        D,
        F,
        G,
        H,
        J,
        K,
        L,
        SemiColon,
        Quote,
        BackSlash,
        IntlBackslash,
        Z,
        X,
        C,
        V,
        B,
        N,
        M,
        Comma,
        Dot,
        Slash,
        Insert,
        KpMinus,
        KpPlus,
        KpMultiply,
        KpDivide,
        Kp0,
        Kp1,
        Kp2,
        Kp3,
        Kp4,
        Kp5,
        Kp6,
        Kp7,
        Kp8,
        Kp9,
        KpDelete,
        Unknown(u32),
}

/// A keyboard event after decoding: a key went down or came up.
#[derive(Clone, Copy, Debug, PartialEq, Eq, Structural, Hash)]
pub enum EventType {
    KeyPress(Key),
    KeyRelease(Key),
}

/// The virtual-key code that stands for a named key; `None` for `Unknown`,
/// which has no entry in the table.
pub open spec fn key_code(k: Key) -> Option<u32> {
    match k {
        Key::Alt => Some(164u32),
        Key::AltGr => Some(165u32),
        Key::Backspace => Some(8u32),
        Key::CapsLock => Some(20u32),
        Key::ControlLeft => Some(162u32),
        Key::ControlRight => Some(163u32),
        Key::Delete => Some(46u32),
        Key::DownArrow => Some(40u32),
        Key::End => Some(35u32),
        Key::Escape => Some(27u32),
        Key::F1 => Some(112u32),
        Key::F10 => Some(121u32),
        Key::F11 => Some(122u32),
        Key::F12 => Some(123u32),
        Key::F2 => Some(113u32),
        Key::F3 => Some(114u32),
        Key::F4 => Some(115u32),
        Key::F5 => Some(116u32),
        Key::F6 => Some(117u32),
        Key::F7 => Some(118u32),
        Key::F8 => Some(119u32),
        Key::F9 => Some(120u32),
        Key::Home => Some(36u32),
        Key::LeftArrow => Some(37u32),
        Key::MetaLeft => Some(91u32),
        Key::PageDown => Some(34u32),
        Key::PageUp => Some(33u32),
        Key::Return => Some(13u32),
        Key::RightArrow => Some(39u32),
        Key::ShiftLeft => Some(160u32),
        Key::ShiftRight => Some(161u32),
        Key::Space => Some(32u32),
        Key::Tab => Some(9u32),
        Key::UpArrow => Some(38u32),
        Key::PrintScreen => Some(44u32),
        Key::ScrollLock => Some(145u32),
        Key::Pause => Some(19u32),
        Key::NumLock => Some(144u32),
        Key::BackQuote => Some(192u32),
        Key::Num1 => Some(49u32),
        Key::Num2 => Some(50u32),
        Key::Num3 => Some(51u32),
        Key::Num4 => Some(52u32),
        Key::Num5 => Some(53u32),
        Key::Num6 => Some(54u32),
        Key::Num7 => Some(55u32),
        Key::Num8 => Some(56u32),
        Key::Num9 => Some(57u32),
        Key::Num0 => Some(48u32),
        Key::Minus => Some(189u32),
        Key::Equal => Some(187u32),
        Key::Q => Some(81u32),
        Key::W => Some(87u32),
        Key::E => Some(69u32),
        Key::R => Some(82u32),
        Key::T => Some(84u32),
        Key::Y => Some(89u32),
        Key::U => Some(85u32),
        Key::I => Some(73u32),
        Key::O => Some(79u32),
        Key::P => Some(80u32),
        Key::LeftBracket => Some(219u32),
        Key::RightBracket => Some(221u32),
        Key::A => Some(65u32),
        Key::S => Some(83u32),
        Key::D => Some(68u32),
        Key::F => Some(70u32),
        Key::G => Some(71u32),
        Key::H => Some(72u32),
        Key::J => Some(74u32),
        Key::K => Some(75u32),
        Key::L => Some(76u32),
        Key::SemiColon => Some(186u32),
        Key::Quote => Some(222u32),
        Key::BackSlash => Some(220u32),
        Key::IntlBackslash => Some(226u32),
        Key::Z => Some(90u32),
        Key::X => Some(88u32),
        Key::C => Some(67u32),
        Key::V => Some(86u32),
        Key::B => Some(66u32),
        Key::N => Some(78u32),
        Key::M => Some(77u32),
        Key::Comma => Some(188u32),
        Key::Dot => Some(190u32),
        Key::Slash => Some(191u32),
        Key::Insert => Some(45u32),
        Key::KpMinus => Some(109u32),
        Key::KpPlus => Some(107u32),
        Key::KpMultiply => Some(106u32),
        Key::KpDivide => Some(111u32),
        Key::Kp0 => Some(96u32),
        Key::Kp1 => Some(97u32),
        Key::Kp2 => Some(98u32),
        Key::Kp3 => Some(99u32),
        Key::Kp4 => Some(100u32),
        Key::Kp5 => Some(101u32),
        Key::Kp6 => Some(102u32),
        Key::Kp7 => Some(103u32),
        Key::Kp8 => Some(104u32),
        Key::Kp9 => Some(105u32),
        Key::KpDelete => Some(110u32),
        Key::Unknown(_) => None,
    }
}

/// True when some named key has virtual-key code `code`.
pub open spec fn is_known_code(code: u32) -> bool {
    exists|k: Key| key_code(k) == Some(code)
}

/// Translates a virtual-key code into a `Key`. Total: a code that names a key
/// gives that key, every other code gives `Unknown(code)`.
pub fn key_from_code(code: u32) -> (r: Key)
    ensures
        is_known_code(code) ==> key_code(r) == Some(code),
        !is_known_code(code) ==> r == Key::Unknown(code),
{
    match code {
        164 => Key::Alt,
        165 => Key::AltGr,
        8 => Key::Backspace,
        20 => Key::CapsLock,
        162 => Key::ControlLeft,
        163 => Key::ControlRight,
        46 => Key::Delete,
        40 => Key::DownArrow,
        35 => Key::End,
        27 => Key::Escape,
        112 => Key::F1,
        121 => Key::F10,
        122 => Key::F11,
        123 => Key::F12,
        113 => Key::F2,
        114 => Key::F3,
        115 => Key::F4,
        116 => Key::F5,
        117 => Key::F6,
        118 => Key::F7,
        119 => Key::F8,
        120 => Key::F9,
        36 => Key::Home,
        37 => Key::LeftArrow,
        91 => Key::MetaLeft,
        34 => Key::PageDown,
        33 => Key::PageUp,
        13 => Key::Return,
        39 => Key::RightArrow,
        160 => Key::ShiftLeft,
        161 => Key::ShiftRight,
        32 => Key::Space,
        9 => Key::Tab,
        38 => Key::UpArrow,
        44 => Key::PrintScreen,
        145 => Key::ScrollLock,
        19 => Key::Pause,
        144 => Key::NumLock,
        192 => Key::BackQuote,
        49 => Key::Num1,
        50 => Key::Num2,
        51 => Key::Num3,
        52 => Key::Num4,
        53 => Key::Num5,
        54 => Key::Num6,
        55 => Key::Num7,
        56 => Key::Num8,
        57 => Key::Num9,
        48 => Key::Num0,
        189 => Key::Minus,
        187 => Key::Equal,
        81 => Key::Q,
        87 => Key::W,
        69 => Key::E,
        82 => Key::R,
        84 => Key::T,
        89 => Key::Y,
        85 => Key::U,
        73 => Key::I,
        79 => Key::O,
        80 => Key::P,
        219 => Key::LeftBracket,
        221 => Key::RightBracket,
        65 => Key::A,
        83 => Key::S,
        68 => Key::D,
        70 => Key::F,
        71 => Key::G,
        72 => Key::H,
        74 => Key::J,
        75 => Key::K,
        76 => Key::L,
        186 => Key::SemiColon,
        222 => Key::Quote,
        220 => Key::BackSlash,
        226 => Key::IntlBackslash,
        90 => Key::Z,
        88 => Key::X,
        67 => Key::C,
        86 => Key::V,
        66 => Key::B,
        78 => Key::N,
        77 => Key::M,
        188 => Key::Comma,
        190 => Key::Dot,
        191 => Key::Slash,
        45 => Key::Insert,
        109 => Key::KpMinus,
        107 => Key::KpPlus,
        106 => Key::KpMultiply,
        111 => Key::KpDivide,
        96 => Key::Kp0,
        97 => Key::Kp1,
        98 => Key::Kp2,
        99 => Key::Kp3,
        100 => Key::Kp4,
        101 => Key::Kp5,
        102 => Key::Kp6,
        103 => Key::Kp7,
        104 => Key::Kp8,
        105 => Key::Kp9,
        110 => Key::KpDelete,
        _ => Key::Unknown(code),
    }
}


/// The canonical name of a key: its variant name, or for `Unknown` the code in
/// decimal.
pub open spec fn key_name(k: Key) -> Seq<char> {
    match k {
        Key::Alt => "Alt"@,
        Key::AltGr => "AltGr"@,
        Key::Backspace => "Backspace"@,
        Key::CapsLock => "CapsLock"@,
        Key::ControlLeft => "ControlLeft"@,
        Key::ControlRight => "ControlRight"@,
        Key::Delete => "Delete"@,
        Key::DownArrow => "DownArrow"@,
        Key::End => "End"@,
        Key::Escape => "Escape"@,
        Key::F1 => "F1"@,
        Key::F10 => "F10"@,
        Key::F11 => "F11"@,
        Key::F12 => "F12"@,
        Key::F2 => "F2"@,
        Key::F3 => "F3"@,
        Key::F4 => "F4"@,
        Key::F5 => "F5"@,
        Key::F6 => "F6"@,
        Key::F7 => "F7"@,
        Key::F8 => "F8"@,
        Key::F9 => "F9"@,
        Key::Home => "Home"@,
        Key::LeftArrow => "LeftArrow"@,
        Key::MetaLeft => "MetaLeft"@,
        Key::PageDown => "PageDown"@,
        Key::PageUp => "PageUp"@,
        Key::Return => "Return"@,
        Key::RightArrow => "RightArrow"@,
        Key::ShiftLeft => "ShiftLeft"@,
        Key::ShiftRight => "ShiftRight"@,
        Key::Space => "Space"@,
        Key::Tab => "Tab"@,
        Key::UpArrow => "UpArrow"@,
        Key::PrintScreen => "PrintScreen"@,
        Key::ScrollLock => "ScrollLock"@,
        Key::Pause => "Pause"@,
        Key::NumLock => "NumLock"@,
        Key::BackQuote => "BackQuote"@,
        Key::Num1 => "Num1"@,
        Key::Num2 => "Num2"@,
        Key::Num3 => "Num3"@,
        Key::Num4 => "Num4"@,
        Key::Num5 => "Num5"@,
        Key::Num6 => "Num6"@,
        Key::Num7 => "Num7"@,
        Key::Num8 => "Num8"@,
        Key::Num9 => "Num9"@,
        Key::Num0 => "Num0"@,
        Key::Minus => "Minus"@,
        Key::Equal => "Equal"@,
        Key::Q => "Q"@,
        Key::W => "W"@,
        Key::E => "E"@,
        Key::R => "R"@,
        Key::T => "T"@,
        Key::Y => "Y"@,
        Key::U => "U"@,
        Key::I => "I"@,
        Key::O => "O"@,
        Key::P => "P"@,
        Key::LeftBracket => "LeftBracket"@,
        Key::RightBracket => "RightBracket"@,
        Key::A => "A"@,
        Key::S => "S"@,
        Key::D => "D"@,
        Key::F => "F"@,
        Key::G => "G"@,
        Key::H => "H"@,
        Key::J => "J"@,
        Key::K => "K"@,
        Key::L => "L"@,
        Key::SemiColon => "SemiColon"@,
        Key::Quote => "Quote"@,
        Key::BackSlash => "BackSlash"@,
        Key::IntlBackslash => "IntlBackslash"@,
        Key::Z => "Z"@,
        Key::X => "X"@,
        Key::C => "C"@,
        Key::V => "V"@,
        Key::B => "B"@,
        Key::N => "N"@,
        Key::M => "M"@,
        Key::Comma => "Comma"@,
        Key::Dot => "Dot"@,
        Key::Slash => "Slash"@,
        Key::Insert => "Insert"@,
        Key::KpMinus => "KpMinus"@,
        Key::KpPlus => "KpPlus"@,
        Key::KpMultiply => "KpMultiply"@,
        Key::KpDivide => "KpDivide"@,
        Key::Kp0 => "Kp0"@,
        Key::Kp1 => "Kp1"@,
        Key::Kp2 => "Kp2"@,
        Key::Kp3 => "Kp3"@,
        Key::Kp4 => "Kp4"@,
        Key::Kp5 => "Kp5"@,
        Key::Kp6 => "Kp6"@,
        Key::Kp7 => "Kp7"@,
        Key::Kp8 => "Kp8"@,
        Key::Kp9 => "Kp9"@,
        Key::KpDelete => "KpDelete"@,
        Key::Unknown(code) => decimal(code as nat),
    }
}

/// Some key other than `Unknown` has name `s`.
pub open spec fn names_a_key(s: Seq<char>) -> bool {
    exists|k: Key| k !is Unknown && key_name(k) == s
}

/// `s` read as a key name gives `k`: the key of that variant name, else
/// `Unknown` of the decimal value.
pub open spec fn reads_as(s: Seq<char>, k: Key) -> bool {
    if names_a_key(s) {
        k !is Unknown && key_name(k) == s
    } else {
        match parsed_decimal(s) {
            Some(n) => k == Key::Unknown(n),
            None => false,
        }
    }
}

/// `s` is neither a variant name nor decimal text that fits a `u32`.
pub open spec fn name_unreadable(s: Seq<char>) -> bool {
    !names_a_key(s) && parsed_decimal(s) is None
}

impl Key {
    /// The canonical name of this key.
    pub fn name(&self) -> (r: String)
        ensures
            r@ == key_name(*self),
    {
        match self {
            Key::Alt => "Alt".to_owned(),
            Key::AltGr => "AltGr".to_owned(),
            Key::Backspace => "Backspace".to_owned(),
            Key::CapsLock => "CapsLock".to_owned(),
            Key::ControlLeft => "ControlLeft".to_owned(),
            Key::ControlRight => "ControlRight".to_owned(),
            Key::Delete => "Delete".to_owned(),
            Key::DownArrow => "DownArrow".to_owned(),
            Key::End => "End".to_owned(),
            Key::Escape => "Escape".to_owned(),
            Key::F1 => "F1".to_owned(),
            Key::F10 => "F10".to_owned(),
            Key::F11 => "F11".to_owned(),
            Key::F12 => "F12".to_owned(),
            Key::F2 => "F2".to_owned(),
            Key::F3 => "F3".to_owned(),
            Key::F4 => "F4".to_owned(),
            Key::F5 => "F5".to_owned(),
            Key::F6 => "F6".to_owned(),
            Key::F7 => "F7".to_owned(),
            Key::F8 => "F8".to_owned(),
            Key::F9 => "F9".to_owned(),
            Key::Home => "Home".to_owned(),
            Key::LeftArrow => "LeftArrow".to_owned(),
            Key::MetaLeft => "MetaLeft".to_owned(),
            Key::PageDown => "PageDown".to_owned(),
            Key::PageUp => "PageUp".to_owned(),
            Key::Return => "Return".to_owned(),
            Key::RightArrow => "RightArrow".to_owned(),
            Key::ShiftLeft => "ShiftLeft".to_owned(),
            Key::ShiftRight => "ShiftRight".to_owned(),
            Key::Space => "Space".to_owned(),
            Key::Tab => "Tab".to_owned(),
            Key::UpArrow => "UpArrow".to_owned(),
            Key::PrintScreen => "PrintScreen".to_owned(),
            Key::ScrollLock => "ScrollLock".to_owned(),
            Key::Pause => "Pause".to_owned(),
            Key::NumLock => "NumLock".to_owned(),
            Key::BackQuote => "BackQuote".to_owned(),
            Key::Num1 => "Num1".to_owned(),
            Key::Num2 => "Num2".to_owned(),
            Key::Num3 => "Num3".to_owned(),
            Key::Num4 => "Num4".to_owned(),
            Key::Num5 => "Num5".to_owned(),
            Key::Num6 => "Num6".to_owned(),
            Key::Num7 => "Num7".to_owned(),
            Key::Num8 => "Num8".to_owned(),
            Key::Num9 => "Num9".to_owned(),
            Key::Num0 => "Num0".to_owned(),
            Key::Minus => "Minus".to_owned(),
            Key::Equal => "Equal".to_owned(),
            Key::Q => "Q".to_owned(),
            Key::W => "W".to_owned(),
            Key::E => "E".to_owned(),
            Key::R => "R".to_owned(),
            Key::T => "T".to_owned(),
            Key::Y => "Y".to_owned(),
            Key::U => "U".to_owned(),
            Key::I => "I".to_owned(),
            Key::O => "O".to_owned(),
            Key::P => "P".to_owned(),
            Key::LeftBracket => "LeftBracket".to_owned(),
            Key::RightBracket => "RightBracket".to_owned(),
            Key::A => "A".to_owned(),
            Key::S => "S".to_owned(),
            Key::D => "D".to_owned(),
            Key::F => "F".to_owned(),
            Key::G => "G".to_owned(),
            Key::H => "H".to_owned(),
            Key::J => "J".to_owned(),
            Key::K => "K".to_owned(),
            Key::L => "L".to_owned(),
            Key::SemiColon => "SemiColon".to_owned(),
            Key::Quote => "Quote".to_owned(),
            Key::BackSlash => "BackSlash".to_owned(),
            Key::IntlBackslash => "IntlBackslash".to_owned(),
            Key::Z => "Z".to_owned(),
            Key::X => "X".to_owned(),
            Key::C => "C".to_owned(),
            Key::V => "V".to_owned(),
            Key::B => "B".to_owned(),
            Key::N => "N".to_owned(),
            Key::M => "M".to_owned(),
            Key::Comma => "Comma".to_owned(),
            Key::Dot => "Dot".to_owned(),
            Key::Slash => "Slash".to_owned(),
            Key::Insert => "Insert".to_owned(),
            Key::KpMinus => "KpMinus".to_owned(),
            Key::KpPlus => "KpPlus".to_owned(),
            Key::KpMultiply => "KpMultiply".to_owned(),
            Key::KpDivide => "KpDivide".to_owned(),
            Key::Kp0 => "Kp0".to_owned(),
            Key::Kp1 => "Kp1".to_owned(),
            Key::Kp2 => "Kp2".to_owned(),
            Key::Kp3 => "Kp3".to_owned(),
            Key::Kp4 => "Kp4".to_owned(),
            Key::Kp5 => "Kp5".to_owned(),
            Key::Kp6 => "Kp6".to_owned(),
            Key::Kp7 => "Kp7".to_owned(),
            Key::Kp8 => "Kp8".to_owned(),
            Key::Kp9 => "Kp9".to_owned(),
            Key::KpDelete => "KpDelete".to_owned(),
            Key::Unknown(code) => u32_text(*code),
        }
    }

    /// The key whose variant name is `t`, if any.
    #[verifier::rlimit(100)]
    fn named(t: String) -> (r: Option<Key>)
        ensures
            r matches Some(k) ==> k !is Unknown && key_name(k) == t@,
            r is None ==> forall|k: Key| k !is Unknown ==> key_name(k) != t@,
    {
        if t == "Alt".to_owned() {
            return Some(Key::Alt);
        }
        if t == "AltGr".to_owned() {
            return Some(Key::AltGr);
        }
        if t == "Backspace".to_owned() {
            return Some(Key::Backspace);
        }
        if t == "CapsLock".to_owned() {
            return Some(Key::CapsLock);
        }
        if t == "ControlLeft".to_owned() {
            return Some(Key::ControlLeft);
        }
        if t == "ControlRight".to_owned() {
            return Some(Key::ControlRight);
        }
        if t == "Delete".to_owned() {
            return Some(Key::Delete);
        }
        if t == "DownArrow".to_owned() {
            return Some(Key::DownArrow);
        }
        if t == "End".to_owned() {
            return Some(Key::End);
        }
        if t == "Escape".to_owned() {
            return Some(Key::Escape);
        }
        if t == "F1".to_owned() {
            return Some(Key::F1);
        }
        if t == "F10".to_owned() {
            return Some(Key::F10);
        }
        if t == "F11".to_owned() {
            return Some(Key::F11);
        }
        if t == "F12".to_owned() {
            return Some(Key::F12);
        }
        if t == "F2".to_owned() {
            return Some(Key::F2);
        }
        if t == "F3".to_owned() {
            return Some(Key::F3);
        }
        if t == "F4".to_owned() {
            return Some(Key::F4);
        }
        if t == "F5".to_owned() {
            return Some(Key::F5);
        }
        if t == "F6".to_owned() {
            return Some(Key::F6);
        }
        if t == "F7".to_owned() {
            return Some(Key::F7);
        }
        if t == "F8".to_owned() {
            return Some(Key::F8);
        }
        if t == "F9".to_owned() {
            return Some(Key::F9);
        }
        if t == "Home".to_owned() {
            return Some(Key::Home);
        }
        if t == "LeftArrow".to_owned() {
            return Some(Key::LeftArrow);
        }
        if t == "MetaLeft".to_owned() {
            return Some(Key::MetaLeft);
        }
        if t == "PageDown".to_owned() {
            return Some(Key::PageDown);
        }
        if t == "PageUp".to_owned() {
            return Some(Key::PageUp);
        }
        if t == "Return".to_owned() {
            return Some(Key::Return);
        }
        if t == "RightArrow".to_owned() {
            return Some(Key::RightArrow);
        }
        if t == "ShiftLeft".to_owned() {
            return Some(Key::ShiftLeft);
        }
        if t == "ShiftRight".to_owned() {
            return Some(Key::ShiftRight);
        }
        if t == "Space".to_owned() {
            return Some(Key::Space);
        }
        if t == "Tab".to_owned() {
            return Some(Key::Tab);
        }
        if t == "UpArrow".to_owned() {
            return Some(Key::UpArrow);
        }
        if t == "PrintScreen".to_owned() {
            return Some(Key::PrintScreen);
        }
        if t == "ScrollLock".to_owned() {
            return Some(Key::ScrollLock);
        }
        if t == "Pause".to_owned() {
            return Some(Key::Pause);
        }
        if t == "NumLock".to_owned() {
            return Some(Key::NumLock);
        }
        if t == "BackQuote".to_owned() {
            return Some(Key::BackQuote);
        }
        if t == "Num1".to_owned() {
            return Some(Key::Num1);
        }
        if t == "Num2".to_owned() {
            return Some(Key::Num2);
        }
        if t == "Num3".to_owned() {
            return Some(Key::Num3);
        }
        if t == "Num4".to_owned() {
            return Some(Key::Num4);
        }
        if t == "Num5".to_owned() {
            return Some(Key::Num5);
        }
        if t == "Num6".to_owned() {
            return Some(Key::Num6);
        }
        if t == "Num7".to_owned() {
            return Some(Key::Num7);
        }
        if t == "Num8".to_owned() {
            return Some(Key::Num8);
        }
        if t == "Num9".to_owned() {
            return Some(Key::Num9);
        }
        if t == "Num0".to_owned() {
            return Some(Key::Num0);
        }
        if t == "Minus".to_owned() {
            return Some(Key::Minus);
        }
        if t == "Equal".to_owned() {
            return Some(Key::Equal);
        }
        if t == "Q".to_owned() {
            return Some(Key::Q);
        }
        if t == "W".to_owned() {
            return Some(Key::W);
        }
        if t == "E".to_owned() {
            return Some(Key::E);
        }
        if t == "R".to_owned() {
            return Some(Key::R);
        }
        if t == "T".to_owned() {
            return Some(Key::T);
        }
        if t == "Y".to_owned() {
            return Some(Key::Y);
        }
        if t == "U".to_owned() {
            return Some(Key::U);
        }
        if t == "I".to_owned() {
            return Some(Key::I);
        }
        if t == "O".to_owned() {
            return Some(Key::O);
        }
        if t == "P".to_owned() {
            return Some(Key::P);
        }
        if t == "LeftBracket".to_owned() {
            return Some(Key::LeftBracket);
        }
        if t == "RightBracket".to_owned() {
            return Some(Key::RightBracket);
        }
        if t == "A".to_owned() {
            return Some(Key::A);
        }
        if t == "S".to_owned() {
            return Some(Key::S);
        }
        if t == "D".to_owned() {
            return Some(Key::D);
        }
        if t == "F".to_owned() {
            return Some(Key::F);
        }
        if t == "G".to_owned() {
            return Some(Key::G);
        }
        if t == "H".to_owned() {
            return Some(Key::H);
        }
        if t == "J".to_owned() {
            return Some(Key::J);
        }
        if t == "K".to_owned() {
            return Some(Key::K);
        }
        if t == "L".to_owned() {
            return Some(Key::L);
        }
        if t == "SemiColon".to_owned() {
            return Some(Key::SemiColon);
        }
        if t == "Quote".to_owned() {
            return Some(Key::Quote);
        }
        if t == "BackSlash".to_owned() {
            return Some(Key::BackSlash);
        }
        if t == "IntlBackslash".to_owned() {
            return Some(Key::IntlBackslash);
        }
        if t == "Z".to_owned() {
            return Some(Key::Z);
        }
        if t == "X".to_owned() {
            return Some(Key::X);
        }
        if t == "C".to_owned() {
            return Some(Key::C);
        }
        if t == "V".to_owned() {
            return Some(Key::V);
        }
        if t == "B".to_owned() {
            return Some(Key::B);
        }
        if t == "N".to_owned() {
            return Some(Key::N);
        }
        if t == "M".to_owned() {
            return Some(Key::M);
        }
        if t == "Comma".to_owned() {
            return Some(Key::Comma);
        }
        if t == "Dot".to_owned() {
            return Some(Key::Dot);
        }
        if t == "Slash".to_owned() {
            return Some(Key::Slash);
        }
        if t == "Insert".to_owned() {
            return Some(Key::Insert);
        }
        if t == "KpMinus".to_owned() {
            return Some(Key::KpMinus);
        }
        if t == "KpPlus".to_owned() {
            return Some(Key::KpPlus);
        }
        if t == "KpMultiply".to_owned() {
            return Some(Key::KpMultiply);
        }
        if t == "KpDivide".to_owned() {
            return Some(Key::KpDivide);
        }
        if t == "Kp0".to_owned() {
            return Some(Key::Kp0);
        }
        if t == "Kp1".to_owned() {
            return Some(Key::Kp1);
        }
        if t == "Kp2".to_owned() {
            return Some(Key::Kp2);
        }
        if t == "Kp3".to_owned() {
            return Some(Key::Kp3);
        }
        if t == "Kp4".to_owned() {
            return Some(Key::Kp4);
        }
        if t == "Kp5".to_owned() {
            return Some(Key::Kp5);
        }
        if t == "Kp6".to_owned() {
            return Some(Key::Kp6);
        }
        if t == "Kp7".to_owned() {
            return Some(Key::Kp7);
        }
        if t == "Kp8".to_owned() {
            return Some(Key::Kp8);
        }
        if t == "Kp9".to_owned() {
            return Some(Key::Kp9);
        }
        if t == "KpDelete".to_owned() {
            return Some(Key::KpDelete);
        }
        None
    }

    /// Reads a canonical key name: a variant name gives that key, decimal
    /// text gives `Unknown` of its value, anything else is refused.
    pub fn from_name(s: &str) -> (r: Option<Key>)
        ensures
            r matches Some(k) ==> reads_as(s@, k),
            r is None <==> name_unreadable(s@),
    {
        match Key::named(s.to_owned()) {
            Some(k) => Some(k),
            None => match parse_u32(s) {
                Some(n) => Some(Key::Unknown(n)),
                None => None,
            },
        }
    }
}


/// The named key whose name is `s`, if any, spelled out character by
/// character.
pub open spec fn key_of_name(s: Seq<char>) -> Option<Key> {
    if s.len() == 3 && s[0] == 'A' && s[1] == 'l' && s[2] == 't' {
        Some(Key::Alt)
    } else if s.len() == 5 && s[0] == 'A' && s[1] == 'l' && s[2] == 't' && s[3] == 'G' && s[4] == 'r' {
        Some(Key::AltGr)
    } else if s.len() == 9 && s[0] == 'B' && s[1] == 'a' && s[2] == 'c' && s[3] == 'k' && s[4] == 's' && s[5] == 'p' && s[6] == 'a' && s[7] == 'c' && s[8] == 'e' {
        Some(Key::Backspace)
    } else if s.len() == 8 && s[0] == 'C' && s[1] == 'a' && s[2] == 'p' && s[3] == 's' && s[4] == 'L' && s[5] == 'o' && s[6] == 'c' && s[7] == 'k' {
        Some(Key::CapsLock)
    } else if s.len() == 11 && s[0] == 'C' && s[1] == 'o' && s[2] == 'n' && s[3] == 't' && s[4] == 'r' && s[5] == 'o' && s[6] == 'l' && s[7] == 'L' && s[8] == 'e' && s[9] == 'f' && s[10] == 't' {
        Some(Key::ControlLeft)
    } else if s.len() == 12 && s[0] == 'C' && s[1] == 'o' && s[2] == 'n' && s[3] == 't' && s[4] == 'r' && s[5] == 'o' && s[6] == 'l' && s[7] == 'R' && s[8] == 'i' && s[9] == 'g' && s[10] == 'h' && s[11] == 't' {
        Some(Key::ControlRight)
    } else if s.len() == 6 && s[0] == 'D' && s[1] == 'e' && s[2] == 'l' && s[3] == 'e' && s[4] == 't' && s[5] == 'e' {
        Some(Key::Delete)
    } else if s.len() == 9 && s[0] == 'D' && s[1] == 'o' && s[2] == 'w' && s[3] == 'n' && s[4] == 'A' && s[5] == 'r' && s[6] == 'r' && s[7] == 'o' && s[8] == 'w' {
        Some(Key::DownArrow)
    } else if s.len() == 3 && s[0] == 'E' && s[1] == 'n' && s[2] == 'd' {
        Some(Key::End)
    } else if s.len() == 6 && s[0] == 'E' && s[1] == 's' && s[2] == 'c' && s[3] == 'a' && s[4] == 'p' && s[5] == 'e' {
        Some(Key::Escape)
    } else if s.len() == 2 && s[0] == 'F' && s[1] == '1' {
        Some(Key::F1)
    } else if s.len() == 3 && s[0] == 'F' && s[1] == '1' && s[2] == '0' {
        Some(Key::F10)
    } else if s.len() == 3 && s[0] == 'F' && s[1] == '1' && s[2] == '1' {
        Some(Key::F11)
    } else if s.len() == 3 && s[0] == 'F' && s[1] == '1' && s[2] == '2' {
        Some(Key::F12)
    } else if s.len() == 2 && s[0] == 'F' && s[1] == '2' {
        Some(Key::F2)
    } else if s.len() == 2 && s[0] == 'F' && s[1] == '3' {
        Some(Key::F3)
    } else if s.len() == 2 && s[0] == 'F' && s[1] == '4' {
        Some(Key::F4)
    } else if s.len() == 2 && s[0] == 'F' && s[1] == '5' {
        Some(Key::F5)
    } else if s.len() == 2 && s[0] == 'F' && s[1] == '6' {
        Some(Key::F6)
    } else if s.len() == 2 && s[0] == 'F' && s[1] == '7' {
        Some(Key::F7)
    } else if s.len() == 2 && s[0] == 'F' && s[1] == '8' {
        Some(Key::F8)
    } else if s.len() == 2 && s[0] == 'F' && s[1] == '9' {
        Some(Key::F9)
    } else if s.len() == 4 && s[0] == 'H' && s[1] == 'o' && s[2] == 'm' && s[3] == 'e' {
        Some(Key::Home)
    } else if s.len() == 9 && s[0] == 'L' && s[1] == 'e' && s[2] == 'f' && s[3] == 't' && s[4] == 'A' && s[5] == 'r' && s[6] == 'r' && s[7] == 'o' && s[8] == 'w' {
        Some(Key::LeftArrow)
    } else if s.len() == 8 && s[0] == 'M' && s[1] == 'e' && s[2] == 't' && s[3] == 'a' && s[4] == 'L' && s[5] == 'e' && s[6] == 'f' && s[7] == 't' {
        Some(Key::MetaLeft)
    } else if s.len() == 8 && s[0] == 'P' && s[1] == 'a' && s[2] == 'g' && s[3] == 'e' && s[4] == 'D' && s[5] == 'o' && s[6] == 'w' && s[7] == 'n' {
        Some(Key::PageDown)
    } else if s.len() == 6 && s[0] == 'P' && s[1] == 'a' && s[2] == 'g' && s[3] == 'e' && s[4] == 'U' && s[5] == 'p' {
        Some(Key::PageUp)
    } else if s.len() == 6 && s[0] == 'R' && s[1] == 'e' && s[2] == 't' && s[3] == 'u' && s[4] == 'r' && s[5] == 'n' {
        Some(Key::Return)
    } else if s.len() == 10 && s[0] == 'R' && s[1] == 'i' && s[2] == 'g' && s[3] == 'h' && s[4] == 't' && s[5] == 'A' && s[6] == 'r' && s[7] == 'r' && s[8] == 'o' && s[9] == 'w' {
        Some(Key::RightArrow)
    } else if s.len() == 9 && s[0] == 'S' && s[1] == 'h' && s[2] == 'i' && s[3] == 'f' && s[4] == 't' && s[5] == 'L' && s[6] == 'e' && s[7] == 'f' && s[8] == 't' {
        Some(Key::ShiftLeft)
    } else if s.len() == 10 && s[0] == 'S' && s[1] == 'h' && s[2] == 'i' && s[3] == 'f' && s[4] == 't' && s[5] == 'R' && s[6] == 'i' && s[7] == 'g' && s[8] == 'h' && s[9] == 't' {
        Some(Key::ShiftRight)
    } else if s.len() == 5 && s[0] == 'S' && s[1] == 'p' && s[2] == 'a' && s[3] == 'c' && s[4] == 'e' {
        Some(Key::Space)
    } else if s.len() == 3 && s[0] == 'T' && s[1] == 'a' && s[2] == 'b' {
        Some(Key::Tab)
    } else if s.len() == 7 && s[0] == 'U' && s[1] == 'p' && s[2] == 'A' && s[3] == 'r' && s[4] == 'r' && s[5] == 'o' && s[6] == 'w' {
        Some(Key::UpArrow)
    } else if s.len() == 11 && s[0] == 'P' && s[1] == 'r' && s[2] == 'i' && s[3] == 'n' && s[4] == 't' && s[5] == 'S' && s[6] == 'c' && s[7] == 'r' && s[8] == 'e' && s[9] == 'e' && s[10] == 'n' {
        Some(Key::PrintScreen)
    } else if s.len() == 10 && s[0] == 'S' && s[1] == 'c' && s[2] == 'r' && s[3] == 'o' && s[4] == 'l' && s[5] == 'l' && s[6] == 'L' && s[7] == 'o' && s[8] == 'c' && s[9] == 'k' {
        Some(Key::ScrollLock)
    } else if s.len() == 5 && s[0] == 'P' && s[1] == 'a' && s[2] == 'u' && s[3] == 's' && s[4] == 'e' {
        Some(Key::Pause)
    } else if s.len() == 7 && s[0] == 'N' && s[1] == 'u' && s[2] == 'm' && s[3] == 'L' && s[4] == 'o' && s[5] == 'c' && s[6] == 'k' {
        Some(Key::NumLock)
    } else if s.len() == 9 && s[0] == 'B' && s[1] == 'a' && s[2] == 'c' && s[3] == 'k' && s[4] == 'Q' && s[5] == 'u' && s[6] == 'o' && s[7] == 't' && s[8] == 'e' {
        Some(Key::BackQuote)
    } else if s.len() == 4 && s[0] == 'N' && s[1] == 'u' && s[2] == 'm' && s[3] == '1' {
        Some(Key::Num1)
    } else if s.len() == 4 && s[0] == 'N' && s[1] == 'u' && s[2] == 'm' && s[3] == '2' {
        Some(Key::Num2)
    } else if s.len() == 4 && s[0] == 'N' && s[1] == 'u' && s[2] == 'm' && s[3] == '3' {
        Some(Key::Num3)
    } else if s.len() == 4 && s[0] == 'N' && s[1] == 'u' && s[2] == 'm' && s[3] == '4' {
        Some(Key::Num4)
    } else if s.len() == 4 && s[0] == 'N' && s[1] == 'u' && s[2] == 'm' && s[3] == '5' {
        Some(Key::Num5)
    } else if s.len() == 4 && s[0] == 'N' && s[1] == 'u' && s[2] == 'm' && s[3] == '6' {
        Some(Key::Num6)
    } else if s.len() == 4 && s[0] == 'N' && s[1] == 'u' && s[2] == 'm' && s[3] == '7' {
        Some(Key::Num7)
    } else if s.len() == 4 && s[0] == 'N' && s[1] == 'u' && s[2] == 'm' && s[3] == '8' {
        Some(Key::Num8)
    } else if s.len() == 4 && s[0] == 'N' && s[1] == 'u' && s[2] == 'm' && s[3] == '9' {
        Some(Key::Num9)
    } else if s.len() == 4 && s[0] == 'N' && s[1] == 'u' && s[2] == 'm' && s[3] == '0' {
        Some(Key::Num0)
    } else if s.len() == 5 && s[0] == 'M' && s[1] == 'i' && s[2] == 'n' && s[3] == 'u' && s[4] == 's' {
        Some(Key::Minus)
    } else if s.len() == 5 && s[0] == 'E' && s[1] == 'q' && s[2] == 'u' && s[3] == 'a' && s[4] == 'l' {
        Some(Key::Equal)
    } else if s.len() == 1 && s[0] == 'Q' {
        Some(Key::Q)
    } else if s.len() == 1 && s[0] == 'W' {
        Some(Key::W)
    } else if s.len() == 1 && s[0] == 'E' {
        Some(Key::E)
    } else if s.len() == 1 && s[0] == 'R' {
        Some(Key::R)
    } else if s.len() == 1 && s[0] == 'T' {
        Some(Key::T)
    } else if s.len() == 1 && s[0] == 'Y' {
        Some(Key::Y)
    } else if s.len() == 1 && s[0] == 'U' {
        Some(Key::U)
    } else if s.len() == 1 && s[0] == 'I' {
        Some(Key::I)
    } else if s.len() == 1 && s[0] == 'O' {
        Some(Key::O)
    } else if s.len() == 1 && s[0] == 'P' {
        Some(Key::P)
    } else if s.len() == 11 && s[0] == 'L' && s[1] == 'e' && s[2] == 'f' && s[3] == 't' && s[4] == 'B' && s[5] == 'r' && s[6] == 'a' && s[7] == 'c' && s[8] == 'k' && s[9] == 'e' && s[10] == 't' {
        Some(Key::LeftBracket)
    } else if s.len() == 12 && s[0] == 'R' && s[1] == 'i' && s[2] == 'g' && s[3] == 'h' && s[4] == 't' && s[5] == 'B' && s[6] == 'r' && s[7] == 'a' && s[8] == 'c' && s[9] == 'k' && s[10] == 'e' && s[11] == 't' {
        Some(Key::RightBracket)
    } else if s.len() == 1 && s[0] == 'A' {
        Some(Key::A)
    } else if s.len() == 1 && s[0] == 'S' {
        Some(Key::S)
    } else if s.len() == 1 && s[0] == 'D' {
        Some(Key::D)
    } else if s.len() == 1 && s[0] == 'F' {
        Some(Key::F)
    } else if s.len() == 1 && s[0] == 'G' {
        Some(Key::G)
    } else if s.len() == 1 && s[0] == 'H' {
        Some(Key::H)
    } else if s.len() == 1 && s[0] == 'J' {
        Some(Key::J)
    } else if s.len() == 1 && s[0] == 'K' {
        Some(Key::K)
    } else if s.len() == 1 && s[0] == 'L' {
        Some(Key::L)
    } else if s.len() == 9 && s[0] == 'S' && s[1] == 'e' && s[2] == 'm' && s[3] == 'i' && s[4] == 'C' && s[5] == 'o' && s[6] == 'l' && s[7] == 'o' && s[8] == 'n' {
        Some(Key::SemiColon)
    } else if s.len() == 5 && s[0] == 'Q' && s[1] == 'u' && s[2] == 'o' && s[3] == 't' && s[4] == 'e' {
        Some(Key::Quote)
    } else if s.len() == 9 && s[0] == 'B' && s[1] == 'a' && s[2] == 'c' && s[3] == 'k' && s[4] == 'S' && s[5] == 'l' && s[6] == 'a' && s[7] == 's' && s[8] == 'h' {
        Some(Key::BackSlash)
    } else if s.len() == 13 && s[0] == 'I' && s[1] == 'n' && s[2] == 't' && s[3] == 'l' && s[4] == 'B' && s[5] == 'a' && s[6] == 'c' && s[7] == 'k' && s[8] == 's' && s[9] == 'l' && s[10] == 'a' && s[11] == 's' && s[12] == 'h' {
        Some(Key::IntlBackslash)
    } else if s.len() == 1 && s[0] == 'Z' {
        Some(Key::Z)
    } else if s.len() == 1 && s[0] == 'X' {
        Some(Key::X)
    } else if s.len() == 1 && s[0] == 'C' {
        Some(Key::C)
    } else if s.len() == 1 && s[0] == 'V' {
        Some(Key::V)
    } else if s.len() == 1 && s[0] == 'B' {
        Some(Key::B)
    } else if s.len() == 1 && s[0] == 'N' {
        Some(Key::N)
    } else if s.len() == 1 && s[0] == 'M' {
        Some(Key::M)
    } else if s.len() == 5 && s[0] == 'C' && s[1] == 'o' && s[2] == 'm' && s[3] == 'm' && s[4] == 'a' {
        Some(Key::Comma)
    } else if s.len() == 3 && s[0] == 'D' && s[1] == 'o' && s[2] == 't' {
        Some(Key::Dot)
    } else if s.len() == 5 && s[0] == 'S' && s[1] == 'l' && s[2] == 'a' && s[3] == 's' && s[4] == 'h' {
        Some(Key::Slash)
    } else if s.len() == 6 && s[0] == 'I' && s[1] == 'n' && s[2] == 's' && s[3] == 'e' && s[4] == 'r' && s[5] == 't' {
        Some(Key::Insert)
    } else if s.len() == 7 && s[0] == 'K' && s[1] == 'p' && s[2] == 'M' && s[3] == 'i' && s[4] == 'n' && s[5] == 'u' && s[6] == 's' {
        Some(Key::KpMinus)
    } else if s.len() == 6 && s[0] == 'K' && s[1] == 'p' && s[2] == 'P' && s[3] == 'l' && s[4] == 'u' && s[5] == 's' {
        Some(Key::KpPlus)
    } else if s.len() == 10 && s[0] == 'K' && s[1] == 'p' && s[2] == 'M' && s[3] == 'u' && s[4] == 'l' && s[5] == 't' && s[6] == 'i' && s[7] == 'p' && s[8] == 'l' && s[9] == 'y' {
        Some(Key::KpMultiply)
    } else if s.len() == 8 && s[0] == 'K' && s[1] == 'p' && s[2] == 'D' && s[3] == 'i' && s[4] == 'v' && s[5] == 'i' && s[6] == 'd' && s[7] == 'e' {
        Some(Key::KpDivide)
    } else if s.len() == 3 && s[0] == 'K' && s[1] == 'p' && s[2] == '0' {
        Some(Key::Kp0)
    } else if s.len() == 3 && s[0] == 'K' && s[1] == 'p' && s[2] == '1' {
        Some(Key::Kp1)
    } else if s.len() == 3 && s[0] == 'K' && s[1] == 'p' && s[2] == '2' {
        Some(Key::Kp2)
    } else if s.len() == 3 && s[0] == 'K' && s[1] == 'p' && s[2] == '3' {
        Some(Key::Kp3)
    } else if s.len() == 3 && s[0] == 'K' && s[1] == 'p' && s[2] == '4' {
        Some(Key::Kp4)
    } else if s.len() == 3 && s[0] == 'K' && s[1] == 'p' && s[2] == '5' {
        Some(Key::Kp5)
    } else if s.len() == 3 && s[0] == 'K' && s[1] == 'p' && s[2] == '6' {
        Some(Key::Kp6)
    } else if s.len() == 3 && s[0] == 'K' && s[1] == 'p' && s[2] == '7' {
        Some(Key::Kp7)
    } else if s.len() == 3 && s[0] == 'K' && s[1] == 'p' && s[2] == '8' {
        Some(Key::Kp8)
    } else if s.len() == 3 && s[0] == 'K' && s[1] == 'p' && s[2] == '9' {
        Some(Key::Kp9)
    } else if s.len() == 8 && s[0] == 'K' && s[1] == 'p' && s[2] == 'D' && s[3] == 'e' && s[4] == 'l' && s[5] == 'e' && s[6] == 't' && s[7] == 'e' {
        Some(Key::KpDelete)
    } else {
        None
    }
}

/// Reading a named key's name gives that key back.
#[verifier::rlimit(100)]
pub proof fn lemma_key_of_name(k: Key)
    requires
        k !is Unknown,
    ensures
        key_of_name(key_name(k)) == Some(k),
        key_name(k).len() > 0,
        !is_digit(key_name(k)[0]),
{
    reveal_strlit("Alt");
    reveal_strlit("AltGr");
    reveal_strlit("Backspace");
    reveal_strlit("CapsLock");
    reveal_strlit("ControlLeft");
    reveal_strlit("ControlRight");
    reveal_strlit("Delete");
    reveal_strlit("DownArrow");
    reveal_strlit("End");
    reveal_strlit("Escape");
    reveal_strlit("F1");
    reveal_strlit("F10");
    reveal_strlit("F11");
    reveal_strlit("F12");
    reveal_strlit("F2");
    reveal_strlit("F3");
    reveal_strlit("F4");
    reveal_strlit("F5");
    reveal_strlit("F6");
    reveal_strlit("F7");
    reveal_strlit("F8");
    reveal_strlit("F9");
    reveal_strlit("Home");
    reveal_strlit("LeftArrow");
    reveal_strlit("MetaLeft");
    reveal_strlit("PageDown");
    reveal_strlit("PageUp");
    reveal_strlit("Return");
    reveal_strlit("RightArrow");
    reveal_strlit("ShiftLeft");
    reveal_strlit("ShiftRight");
    reveal_strlit("Space");
    reveal_strlit("Tab");
    reveal_strlit("UpArrow");
    reveal_strlit("PrintScreen");
    reveal_strlit("ScrollLock");
    reveal_strlit("Pause");
    reveal_strlit("NumLock");
    reveal_strlit("BackQuote");
    reveal_strlit("Num1");
    reveal_strlit("Num2");
    reveal_strlit("Num3");
    reveal_strlit("Num4");
    reveal_strlit("Num5");
    reveal_strlit("Num6");
    reveal_strlit("Num7");
    reveal_strlit("Num8");
    reveal_strlit("Num9");
    reveal_strlit("Num0");
    reveal_strlit("Minus");
    reveal_strlit("Equal");
    reveal_strlit("Q");
    reveal_strlit("W");
    reveal_strlit("E");
    reveal_strlit("R");
    reveal_strlit("T");
    reveal_strlit("Y");
    reveal_strlit("U");
    reveal_strlit("I");
    reveal_strlit("O");
    reveal_strlit("P");
    reveal_strlit("LeftBracket");
    reveal_strlit("RightBracket");
    reveal_strlit("A");
    reveal_strlit("S");
    reveal_strlit("D");
    reveal_strlit("F");
    reveal_strlit("G");
    reveal_strlit("H");
    reveal_strlit("J");
    reveal_strlit("K");
    reveal_strlit("L");
    reveal_strlit("SemiColon");
    reveal_strlit("Quote");
    reveal_strlit("BackSlash");
    reveal_strlit("IntlBackslash");
    reveal_strlit("Z");
    reveal_strlit("X");
    reveal_strlit("C");
    reveal_strlit("V");
    reveal_strlit("B");
    reveal_strlit("N");
    reveal_strlit("M");
    reveal_strlit("Comma");
    reveal_strlit("Dot");
    reveal_strlit("Slash");
    reveal_strlit("Insert");
    reveal_strlit("KpMinus");
    reveal_strlit("KpPlus");
    reveal_strlit("KpMultiply");
    reveal_strlit("KpDivide");
    reveal_strlit("Kp0");
    reveal_strlit("Kp1");
    reveal_strlit("Kp2");
    reveal_strlit("Kp3");
    reveal_strlit("Kp4");
    reveal_strlit("Kp5");
    reveal_strlit("Kp6");
    reveal_strlit("Kp7");
    reveal_strlit("Kp8");
    reveal_strlit("Kp9");
    reveal_strlit("KpDelete");
    match k {
        Key::Alt => {},
        Key::AltGr => {},
        Key::Backspace => {},
        Key::CapsLock => {},
        Key::ControlLeft => {},
        Key::ControlRight => {},
        Key::Delete => {},
        Key::DownArrow => {},
        Key::End => {},
        Key::Escape => {},
        Key::F1 => {},
        Key::F10 => {},
        Key::F11 => {},
        Key::F12 => {},
        Key::F2 => {},
        Key::F3 => {},
        Key::F4 => {},
        Key::F5 => {},
        Key::F6 => {},
        Key::F7 => {},
        Key::F8 => {},
        Key::F9 => {},
        Key::Home => {},
        Key::LeftArrow => {},
        Key::MetaLeft => {},
        Key::PageDown => {},
        Key::PageUp => {},
        Key::Return => {},
        Key::RightArrow => {},
        Key::ShiftLeft => {},
        Key::ShiftRight => {},
        Key::Space => {},
        Key::Tab => {},
        Key::UpArrow => {},
        Key::PrintScreen => {},
        Key::ScrollLock => {},
        Key::Pause => {},
        Key::NumLock => {},
        Key::BackQuote => {},
        Key::Num1 => {},
        Key::Num2 => {},
        Key::Num3 => {},
        Key::Num4 => {},
        Key::Num5 => {},
        Key::Num6 => {},
        Key::Num7 => {},
        Key::Num8 => {},
        Key::Num9 => {},
        Key::Num0 => {},
        Key::Minus => {},
        Key::Equal => {},
        Key::Q => {},
        Key::W => {},
        Key::E => {},
        Key::R => {},
        Key::T => {},
        Key::Y => {},
        Key::U => {},
        Key::I => {},
        Key::O => {},
        Key::P => {},
        Key::LeftBracket => {},
        Key::RightBracket => {},
        Key::A => {},
        Key::S => {},
        Key::D => {},
        Key::F => {},
        Key::G => {},
        Key::H => {},
        Key::J => {},
        Key::K => {},
        Key::L => {},
        Key::SemiColon => {},
        Key::Quote => {},
        Key::BackSlash => {},
        Key::IntlBackslash => {},
        Key::Z => {},
        Key::X => {},
        Key::C => {},
        Key::V => {},
        Key::B => {},
        Key::N => {},
        Key::M => {},
        Key::Comma => {},
        Key::Dot => {},
        Key::Slash => {},
        Key::Insert => {},
        Key::KpMinus => {},
        Key::KpPlus => {},
        Key::KpMultiply => {},
        Key::KpDivide => {},
        Key::Kp0 => {},
        Key::Kp1 => {},
        Key::Kp2 => {},
        Key::Kp3 => {},
        Key::Kp4 => {},
        Key::Kp5 => {},
        Key::Kp6 => {},
        Key::Kp7 => {},
        Key::Kp8 => {},
        Key::Kp9 => {},
        Key::KpDelete => {},
        Key::Unknown(_) => {},
    }
}

/// Distinct named keys have distinct names.
pub proof fn lemma_key_name_injective(a: Key, b: Key)
    requires
        a !is Unknown,
        b !is Unknown,
        key_name(a) == key_name(b),
    ensures
        a == b,
{
    lemma_key_of_name(a);
    lemma_key_of_name(b);
}

/// Reading a key's name gives back that key, named or not.
pub proof fn lemma_key_name_reads_back(k: Key, r: Key)
    requires
        reads_as(key_name(k), r),
    ensures
        r == k,
{
    match k {
        Key::Unknown(n) => {
            lemma_decimal_parses(n);
            if names_a_key(key_name(k)) {
                let w = choose|w: Key| w !is Unknown && key_name(w) == key_name(k);
                lemma_key_of_name(w);
            }
        },
        _ => {
            lemma_key_of_name(k);
            lemma_key_name_injective(k, r);
        },
    }
}

} // verus!
