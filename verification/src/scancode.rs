//! Decoding of keyboard scancodes (set 1) into characters.
//!
//! Only the presses of the letter keys and of the space bar have a meaning.
//! Every other code, the release of a key among them, yields the placeholder,
//! which is a space: a key without a meaning prints as a blank.

use vstd::prelude::*;

verus! {

/// What a scancode without a meaning yields.
pub const PLACEHOLDER: char = ' ';

/// Scancode of the space bar.
pub const SPACE_BAR: u8 = 0x39;

/// Scancode of the leftmost letter key of the top row.
pub const TOP_ROW_START: u8 = 0x10;

/// Scancode of the leftmost letter key of the home row.
pub const HOME_ROW_START: u8 = 0x1E;

/// Scancode of the leftmost letter key of the bottom row.
pub const BOTTOM_ROW_START: u8 = 0x2C;

/// The letters of the top row, from left to right.
pub open spec fn top_row() -> Seq<char> {
    seq!['q', 'w', 'e', 'r', 't', 'y', 'u', 'i', 'o', 'p']
}

/// The letters of the home row, from left to right.
pub open spec fn home_row() -> Seq<char> {
    seq!['a', 's', 'd', 'f', 'g', 'h', 'j', 'k', 'l']
}

/// The letters of the bottom row, from left to right.
pub open spec fn bottom_row() -> Seq<char> {
    seq!['z', 'x', 'c', 'v', 'b', 'n', 'm']
}

/// Whether the scancode is the press of a letter key.
pub open spec fn is_letter_key(scancode: u8) -> bool {
    ||| TOP_ROW_START <= scancode < TOP_ROW_START + top_row().len()
    ||| HOME_ROW_START <= scancode < HOME_ROW_START + home_row().len()
    ||| BOTTOM_ROW_START <= scancode < BOTTOM_ROW_START + bottom_row().len()
}

/// The meaning of a scancode, where it has one. The letter keys of a
/// row have consecutive scancodes, so a letter is found by the key's place
/// in its row.
pub open spec fn meaning(scancode: u8) -> Option<char> {
    if TOP_ROW_START <= scancode < TOP_ROW_START + top_row().len() {
        Some(top_row()[scancode - TOP_ROW_START])
    } else if HOME_ROW_START <= scancode < HOME_ROW_START + home_row().len() {
        Some(home_row()[scancode - HOME_ROW_START])
    } else if BOTTOM_ROW_START <= scancode < BOTTOM_ROW_START + bottom_row().len() {
        Some(bottom_row()[scancode - BOTTOM_ROW_START])
    } else if scancode == SPACE_BAR {
        Some(' ')
    } else {
        None
    }
}

/// The character of a scancode: its meaning, or the placeholder.
pub open spec fn key_char(scancode: u8) -> char {
    match meaning(scancode) {
        Some(ch) => ch,
        None => PLACEHOLDER,
    }
}

/// Decodes a scancode. Unlike `scancode_to_char` it keeps a key without a
/// meaning apart from the space bar.
pub fn decode(scancode: u8) -> (key: Option<char>)
    ensures
        key == meaning(scancode),
{
    match scancode {
        0x1E => Some('a'),
        0x30 => Some('b'),
        0x2E => Some('c'),
        0x20 => Some('d'),
        0x12 => Some('e'),
        0x21 => Some('f'),
        0x22 => Some('g'),
        0x23 => Some('h'),
        0x17 => Some('i'),
        0x24 => Some('j'),
        0x25 => Some('k'),
        0x26 => Some('l'),
        0x32 => Some('m'),
        0x31 => Some('n'),
        0x18 => Some('o'),
        0x19 => Some('p'),
        0x10 => Some('q'),
        0x13 => Some('r'),
        0x1F => Some('s'),
        0x14 => Some('t'),
        0x16 => Some('u'),
        0x2F => Some('v'),
        0x11 => Some('w'),
        0x2D => Some('x'),
        0x15 => Some('y'),
        0x2C => Some('z'),
        0x39 => Some(' '),
        _ => None,
    }
}

/// The character to print for a scancode.
pub fn scancode_to_char(scancode: u8) -> (ch: char)
    ensures
        ch == key_char(scancode),
{
    match decode(scancode) {
        Some(ch) => ch,
        None => PLACEHOLDER,
    }
}

/// A key's release has the scancode of its press with the top bit set, and
/// no such code has a meaning: releasing a key prints the placeholder.
pub proof fn lemma_release_has_no_meaning(scancode: u8)
    requires
        scancode >= 0x80,
    ensures
        meaning(scancode) is None,
        key_char(scancode) == PLACEHOLDER,
{
}

/// Whatever the scancode, the character is a lowercase letter or a space, and
/// it is a letter exactly for the press of a letter key. Only the letter
/// keys and the space bar have a meaning.
pub proof fn lemma_char_is_letter_or_space(scancode: u8)
    ensures
        is_letter_key(scancode) <==> 'a' <= key_char(scancode) <= 'z',
        !is_letter_key(scancode) ==> key_char(scancode) == ' ',
        meaning(scancode) is Some <==> is_letter_key(scancode) || scancode == SPACE_BAR,
{
}

/// No two letter keys share a letter.
pub proof fn lemma_letter_keys_differ(first: u8, second: u8)
    requires
        is_letter_key(first),
        is_letter_key(second),
        first != second,
    ensures
        key_char(first) != key_char(second),
{
}

/// Every lowercase letter has its key.
pub proof fn lemma_every_letter_has_a_key(letter: char)
    requires
        'a' <= letter <= 'z',
    ensures
        exists|scancode: u8| is_letter_key(scancode) && #[trigger] key_char(scancode) == letter,
{
    let scancode: u8 = if letter == 'a' {
        0x1E
    } else if letter == 'b' {
        0x30
    } else if letter == 'c' {
        0x2E
    } else if letter == 'd' {
        0x20
    } else if letter == 'e' {
        0x12
    } else if letter == 'f' {
        0x21
    } else if letter == 'g' {
        0x22
    } else if letter == 'h' {
        0x23
    } else if letter == 'i' {
        0x17
    } else if letter == 'j' {
        0x24
    } else if letter == 'k' {
        0x25
    } else if letter == 'l' {
        0x26
    } else if letter == 'm' {
        0x32
    } else if letter == 'n' {
        0x31
    } else if letter == 'o' {
        0x18
    } else if letter == 'p' {
        0x19
    } else if letter == 'q' {
        0x10
    } else if letter == 'r' {
        0x13
    } else if letter == 's' {
        0x1F
    } else if letter == 't' {
        0x14
    } else if letter == 'u' {
        0x16
    } else if letter == 'v' {
        0x2F
    } else if letter == 'w' {
        0x11
    } else if letter == 'x' {
        0x2D
    } else if letter == 'y' {
        0x15
    } else {
        0x2C
    };
    assert(is_letter_key(scancode) && key_char(scancode) == letter);
}

} // verus!
