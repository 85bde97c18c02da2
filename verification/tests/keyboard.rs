use monitor_controller::keyboard::{apply_to_text, numeric_input_from_keys, KeyPresses, NavKey};

fn no_keys() -> KeyPresses {
    KeyPresses {
        row_digits: [false; 10],
        numpad_digits: [false; 10],
        period: false,
        decimal: false,
        backspace: false,
        delete: false,
        left: false,
        right: false,
        home: false,
        end: false,
    }
}

#[test]
fn digits_come_row_first_then_keypad_then_dot() {
    let mut k = no_keys();
    k.row_digits[7] = true;
    k.row_digits[1] = true;
    k.numpad_digits[0] = true;
    k.decimal = true;
    let (chars, back, del, nav) = numeric_input_from_keys(&k);
    assert_eq!(chars, "170.");
    assert!(!back && !del);
    assert_eq!(nav, None);
}

#[test]
fn period_and_decimal_type_one_dot() {
    let mut k = no_keys();
    k.period = true;
    k.decimal = true;
    assert_eq!(numeric_input_from_keys(&k).0, ".");
}

#[test]
fn navigation_keys_by_priority() {
    let mut k = no_keys();
    k.end = true;
    k.home = true;
    assert_eq!(numeric_input_from_keys(&k).3, Some(NavKey::Home));
    k.left = true;
    assert_eq!(numeric_input_from_keys(&k).3, Some(NavKey::Left));
    let mut r = no_keys();
    r.right = true;
    r.backspace = true;
    let (_, back, _, nav) = numeric_input_from_keys(&r);
    assert!(back);
    assert_eq!(nav, Some(NavKey::Right));
}

#[test]
fn apply_appends_then_removes() {
    let mut t = String::from("192.168");
    assert!(apply_to_text(&mut t, ".1", false, false));
    assert_eq!(t, "192.168.1");
    assert!(apply_to_text(&mut t, "", true, false));
    assert_eq!(t, "192.168.");
    assert!(apply_to_text(&mut t, "5", true, true));
    assert_eq!(t, "192.168");
}

#[test]
fn apply_on_empty_text_changes_nothing_without_chars() {
    let mut t = String::new();
    assert!(!apply_to_text(&mut t, "", true, true));
    assert_eq!(t, "");
    assert!(!apply_to_text(&mut t, "", false, false));
}

#[test]
fn delete_after_backspace_finds_nothing_on_one_char() {
    let mut t = String::from("9");
    assert!(apply_to_text(&mut t, "", true, true));
    assert_eq!(t, "");
}
