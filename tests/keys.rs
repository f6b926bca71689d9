use recon::keys::{key_from_code, EventType, Key};
use recon::watcher::convert;

fn table() -> Vec<(u32, Key, &'static str)> {
    vec![
        (164, Key::Alt, "Alt"),
        (165, Key::AltGr, "AltGr"),
        (8, Key::Backspace, "Backspace"),
        (20, Key::CapsLock, "CapsLock"),
        (162, Key::ControlLeft, "ControlLeft"),
        (163, Key::ControlRight, "ControlRight"),
        (46, Key::Delete, "Delete"),
        (40, Key::DownArrow, "DownArrow"),
        (35, Key::End, "End"),
        (27, Key::Escape, "Escape"),
        (112, Key::F1, "F1"),
        (121, Key::F10, "F10"),
        (122, Key::F11, "F11"),
        (123, Key::F12, "F12"),
        (113, Key::F2, "F2"),
        (114, Key::F3, "F3"),
        (115, Key::F4, "F4"),
        (116, Key::F5, "F5"),
        (117, Key::F6, "F6"),
        (118, Key::F7, "F7"),
        (119, Key::F8, "F8"),
        (120, Key::F9, "F9"),
        (36, Key::Home, "Home"),
        (37, Key::LeftArrow, "LeftArrow"),
        (91, Key::MetaLeft, "MetaLeft"),
        (34, Key::PageDown, "PageDown"),
        (33, Key::PageUp, "PageUp"),
        (13, Key::Return, "Return"),
        (39, Key::RightArrow, "RightArrow"),
        (160, Key::ShiftLeft, "ShiftLeft"),
        (161, Key::ShiftRight, "ShiftRight"),
        (32, Key::Space, "Space"),
        (9, Key::Tab, "Tab"),
        (38, Key::UpArrow, "UpArrow"),
        (44, Key::PrintScreen, "PrintScreen"),
        (145, Key::ScrollLock, "ScrollLock"),
        (19, Key::Pause, "Pause"),
        (144, Key::NumLock, "NumLock"),
        (192, Key::BackQuote, "BackQuote"),
        (49, Key::Num1, "Num1"),
        (50, Key::Num2, "Num2"),
        (51, Key::Num3, "Num3"),
        (52, Key::Num4, "Num4"),
        (53, Key::Num5, "Num5"),
        (54, Key::Num6, "Num6"),
        (55, Key::Num7, "Num7"),
        (56, Key::Num8, "Num8"),
        (57, Key::Num9, "Num9"),
        (48, Key::Num0, "Num0"),
        (189, Key::Minus, "Minus"),
        (187, Key::Equal, "Equal"),
        (81, Key::Q, "Q"),
        (87, Key::W, "W"),
        (69, Key::E, "E"),
        (82, Key::R, "R"),
        (84, Key::T, "T"),
        (89, Key::Y, "Y"),
        (85, Key::U, "U"),
        (73, Key::I, "I"),
        (79, Key::O, "O"),
        (80, Key::P, "P"),
        (219, Key::LeftBracket, "LeftBracket"),
        (221, Key::RightBracket, "RightBracket"),
        (65, Key::A, "A"),
        (83, Key::S, "S"),
        (68, Key::D, "D"),
        (70, Key::F, "F"),
        (71, Key::G, "G"),
        (72, Key::H, "H"),
        (74, Key::J, "J"),
        (75, Key::K, "K"),
        (76, Key::L, "L"),
        (186, Key::SemiColon, "SemiColon"),
        (222, Key::Quote, "Quote"),
        (220, Key::BackSlash, "BackSlash"),
        (226, Key::IntlBackslash, "IntlBackslash"),
        (90, Key::Z, "Z"),
        (88, Key::X, "X"),
        (67, Key::C, "C"),
        (86, Key::V, "V"),
        (66, Key::B, "B"),
        (78, Key::N, "N"),
        (77, Key::M, "M"),
        (188, Key::Comma, "Comma"),
        (190, Key::Dot, "Dot"),
        (191, Key::Slash, "Slash"),
        (45, Key::Insert, "Insert"),
        (109, Key::KpMinus, "KpMinus"),
        (107, Key::KpPlus, "KpPlus"),
        (106, Key::KpMultiply, "KpMultiply"),
        (111, Key::KpDivide, "KpDivide"),
        (96, Key::Kp0, "Kp0"),
        (97, Key::Kp1, "Kp1"),
        (98, Key::Kp2, "Kp2"),
        (99, Key::Kp3, "Kp3"),
        (100, Key::Kp4, "Kp4"),
        (101, Key::Kp5, "Kp5"),
        (102, Key::Kp6, "Kp6"),
        (103, Key::Kp7, "Kp7"),
        (104, Key::Kp8, "Kp8"),
        (105, Key::Kp9, "Kp9"),
        (110, Key::KpDelete, "KpDelete"),
    ]
}

#[test]
fn every_documented_code_translates_to_its_key() {
    for (code, key, _) in table() {
        assert_eq!(key_from_code(code), key, "code {}", code);
    }
}

#[test]
fn every_key_name_reads_back_as_its_key() {
    for (_, key, name) in table() {
        assert_eq!(key.name(), name);
        assert_eq!(Key::from_name(name), Some(key));
    }
}

#[test]
fn unknown_code_translates_to_unknown_and_compares_equal() {
    let a = key_from_code(9999);
    let b = key_from_code(9999);
    assert_eq!(a, Key::Unknown(9999));
    assert_eq!(a, b);
    assert_ne!(key_from_code(9998), a);
}

#[test]
fn unlisted_codes_are_unknown() {
    assert_eq!(key_from_code(0), Key::Unknown(0));
    assert_eq!(key_from_code(13 + 1), Key::Unknown(14));
    assert_eq!(key_from_code(u32::MAX), Key::Unknown(u32::MAX));
}

#[test]
fn hex_listed_codes_translate() {
    assert_eq!(key_from_code(0x08), Key::Backspace);
    assert_eq!(key_from_code(0x09), Key::Tab);
    assert_eq!(key_from_code(0x0D), Key::Return);
}

#[test]
fn unknown_key_name_is_its_code_in_decimal() {
    assert_eq!(Key::Unknown(9999).name(), "9999");
    assert_eq!(Key::Unknown(0).name(), "0");
    assert_eq!(Key::from_name("9999"), Some(Key::Unknown(9999)));
    assert_eq!(Key::from_name("+7"), Some(Key::Unknown(7)));
}

#[test]
fn unreadable_key_names_are_refused() {
    assert_eq!(Key::from_name(""), None);
    assert_eq!(Key::from_name("Banana"), None);
    assert_eq!(Key::from_name("alt"), None);
    assert_eq!(Key::from_name("-1"), None);
    assert_eq!(Key::from_name("4294967296"), None);
}

#[test]
fn convert_decodes_key_messages() {
    assert_eq!(convert(0x0100, 65), (Some(EventType::KeyPress(Key::A)), Key::A));
    assert_eq!(convert(0x0104, 164), (Some(EventType::KeyPress(Key::Alt)), Key::Alt));
    assert_eq!(convert(0x0101, 65), (Some(EventType::KeyRelease(Key::A)), Key::A));
    assert_eq!(convert(0x0200, 65), (None, Key::A));
}
