//! Numeric text entry from polled key presses (used where the host swallows
//! keyboard messages): which keys give which characters, and how they edit
//! a text field.
use vstd::prelude::*;
use vstd::string::{StrSliceExecFns, StringExecFns};
use crate::text::{digit_chars, digit_str};

verus! {

/// A navigation key.
#[derive(Debug, Clone, Copy, PartialEq, Eq)]
pub enum NavKey {
    Left,
    Right,
    Home,
    End,
}

/// The keys that went down since the last poll.
#[derive(Debug, Clone, Copy)]
pub struct KeyPresses {
    /// Digit keys 0 to 9 of the number row.
    pub row_digits: [bool; 10],
    /// Digit keys 0 to 9 of the numeric keypad.
    pub numpad_digits: [bool; 10],
    /// The period key.
    pub period: bool,
    /// The keypad's decimal key.
    pub decimal: bool,
    pub backspace: bool,
    pub delete: bool,
    pub left: bool,
    pub right: bool,
    pub home: bool,
    pub end: bool,
}

/// The digits whose flags are set among the first `n` flags, in order.
pub open spec fn pressed_digits(flags: Seq<bool>, n: int) -> Seq<char>
    decreases n,
{
    if n <= 0 {
        Seq::empty()
    } else {
        pressed_digits(flags, n - 1) + if flags[n - 1] { seq![digit_chars()[n - 1]] } else { Seq::empty() }
    }
}

/// The characters that the pressed keys type: number-row digits, keypad
/// digits, then one '.' for the period or the decimal key.
pub open spec fn typed_chars(k: KeyPresses) -> Seq<char> {
    pressed_digits(k.row_digits@, 10) + pressed_digits(k.numpad_digits@, 10)
        + if k.period || k.decimal { seq!['.'] } else { Seq::empty() }
}

/// The navigation key pressed, by priority Left, Right, Home, End.
pub open spec fn nav_of(k: KeyPresses) -> Option<NavKey> {
    if k.left {
        Some(NavKey::Left)
    } else if k.right {
        Some(NavKey::Right)
    } else if k.home {
        Some(NavKey::Home)
    } else if k.end {
        Some(NavKey::End)
    } else {
        None
    }
}

fn append_pressed_digits(s: &mut String, flags: &[bool; 10])
    ensures
        final(s)@ == old(s)@ + pressed_digits(flags@, 10),
{
    let mut i: usize = 0;
    while i < 10
        invariant
            i <= 10,
            s@ == old(s)@ + pressed_digits(flags@, i as int),
        decreases 10 - i,
    {
        if flags[i] {
            s.append(digit_str(i as u64));
        }
        proof {
            assert(s@ =~= old(s)@ + pressed_digits(flags@, i + 1));
        }
        i = i + 1;
    }
}

/// What the pressed keys mean for a numeric text field: the characters to
/// insert, whether Backspace and Delete were pressed, and the navigation key.
pub fn numeric_input_from_keys(keys: &KeyPresses) -> (r: (String, bool, bool, Option<NavKey>))
    ensures
        r.0@ == typed_chars(*keys),
        r.1 == keys.backspace,
        r.2 == keys.delete,
        r.3 == nav_of(*keys),
{
    let mut chars = String::new();
    append_pressed_digits(&mut chars, &keys.row_digits);
    append_pressed_digits(&mut chars, &keys.numpad_digits);
    if keys.period || keys.decimal {
        proof { reveal_strlit("."); }
        chars.append(".");
    }
    proof {
        assert(chars@ =~= typed_chars(*keys));
    }
    let nav = if keys.left {
        Some(NavKey::Left)
    } else if keys.right {
        Some(NavKey::Right)
    } else if keys.home {
        Some(NavKey::Home)
    } else if keys.end {
        Some(NavKey::End)
    } else {
        None
    };
    (chars, keys.backspace, keys.delete, nav)
}

/// `s` without its last character, if it has one.
pub open spec fn drop_last_char(s: Seq<char>) -> Seq<char> {
    if s.len() > 0 { s.drop_last() } else { s }
}

/// The text after an edit: `chars` appended, then one character removed for
/// Backspace and one more for Delete (the field has no cursor here).
pub open spec fn edited_text(text: Seq<char>, chars: Seq<char>, backspace: bool, delete: bool) -> Seq<char> {
    let appended = text + chars;
    let after_back = if backspace { drop_last_char(appended) } else { appended };
    if delete { drop_last_char(after_back) } else { after_back }
}

/// Whether an edit changes anything: characters were inserted, or a removal
/// found a character to remove.
pub open spec fn edit_changes(text: Seq<char>, chars: Seq<char>, backspace: bool, delete: bool) -> bool {
    let appended = text + chars;
    let after_back = if backspace { drop_last_char(appended) } else { appended };
    chars.len() > 0 || (backspace && appended.len() > 0) || (delete && after_back.len() > 0)
}

fn pop_char(text: &mut String)
    requires
        old(text)@.len() > 0,
    ensures
        final(text)@ == old(text)@.drop_last(),
{
    let n = text.as_str().unicode_len();
    let kept = String::from_str(text.as_str().substring_char(0, n - 1));
    *text = kept;
}

/// Applies polled input to a text field; true when the text was modified.
pub fn apply_to_text(text: &mut String, chars: &str, backspace: bool, delete: bool) -> (modified: bool)
    ensures
        final(text)@ == edited_text(old(text)@, chars@, backspace, delete),
        modified == edit_changes(old(text)@, chars@, backspace, delete),
{
    let mut modified = false;
    if !chars.is_empty() {
        text.append(chars);
        modified = true;
    }
    if backspace && !text.as_str().is_empty() {
        pop_char(text);
        modified = true;
    }
    if delete && !text.as_str().is_empty() {
        pop_char(text);
        modified = true;
    }
    modified
}

} // verus!
