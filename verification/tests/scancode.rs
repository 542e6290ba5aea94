use rustos::scancode::{decode, scancode_to_char, PLACEHOLDER, SPACE_BAR};

#[test]
fn make_code_of_a_decodes_to_a() {
    assert_eq!(scancode_to_char(0x1E), 'a');
}

#[test]
fn space_bar_decodes_to_space() {
    assert_eq!(SPACE_BAR, 0x39);
    assert_eq!(scancode_to_char(0x39), ' ');
}

#[test]
fn break_code_of_a_decodes_to_the_placeholder() {
    assert_eq!(scancode_to_char(0x9E), PLACEHOLDER);
    assert_ne!(scancode_to_char(0x9E), 'a');
}

#[test]
fn placeholder_is_a_space() {
    assert_eq!(PLACEHOLDER, ' ');
}

#[test]
fn every_letter_key_decodes_to_its_letter() {
    let table: [(u8, char); 26] = [
        (0x1E, 'a'),
        (0x30, 'b'),
        (0x2E, 'c'),
        (0x20, 'd'),
        (0x12, 'e'),
        (0x21, 'f'),
        (0x22, 'g'),
        (0x23, 'h'),
        (0x17, 'i'),
        (0x24, 'j'),
        (0x25, 'k'),
        (0x26, 'l'),
        (0x32, 'm'),
        (0x31, 'n'),
        (0x18, 'o'),
        (0x19, 'p'),
        (0x10, 'q'),
        (0x13, 'r'),
        (0x1F, 's'),
        (0x14, 't'),
        (0x16, 'u'),
        (0x2F, 'v'),
        (0x11, 'w'),
        (0x2D, 'x'),
        (0x15, 'y'),
        (0x2C, 'z'),
    ];
    for (scancode, letter) in table {
        assert_eq!(scancode_to_char(scancode), letter, "scancode {:#04x}", scancode);
    }
}

#[test]
fn every_letter_has_exactly_one_scancode() {
    for letter in 'a'..='z' {
        let keys = (0..=255u8).filter(|&scancode| scancode_to_char(scancode) == letter).count();
        assert_eq!(keys, 1, "letter {}", letter);
    }
}

#[test]
fn whatever_is_no_letter_key_decodes_to_a_space() {
    let mut letters = 0;
    for scancode in 0..=255u8 {
        let ch = scancode_to_char(scancode);
        if ch.is_ascii_lowercase() {
            letters += 1;
        } else {
            assert_eq!(ch, ' ', "scancode {:#04x}", scancode);
        }
    }
    assert_eq!(letters, 26);
}

#[test]
fn no_release_of_a_key_has_a_meaning() {
    for scancode in 0x80..=0xFFu8 {
        assert_eq!(scancode_to_char(scancode), PLACEHOLDER, "scancode {:#04x}", scancode);
    }
}

#[test]
fn keys_next_to_the_letter_rows_have_no_meaning() {
    for scancode in [0x00u8, 0x0F, 0x1A, 0x1D, 0x27, 0x2B, 0x33, 0x38, 0x3A, 0x7F] {
        assert_eq!(scancode_to_char(scancode), PLACEHOLDER, "scancode {:#04x}", scancode);
    }
}

#[test]
fn decode_keeps_the_space_bar_apart_from_keys_without_a_meaning() {
    assert_eq!(decode(0x39), Some(' '));
    assert_eq!(decode(0x1E), Some('a'));
    assert_eq!(decode(0x9E), None);
    assert_eq!(decode(0x00), None);
    assert_eq!(decode(0xB9), None);
    for scancode in 0..=255u8 {
        assert_eq!(scancode_to_char(scancode), decode(scancode).unwrap_or(PLACEHOLDER));
    }
    assert_eq!((0..=255u8).filter(|&scancode| decode(scancode).is_some()).count(), 27);
}
