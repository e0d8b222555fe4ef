use c_to_wasm_compiler::char_class::{decimal_digit, word_char};

#[test]
fn classes_on_sample_characters() {
    for c in ['0', '9', '٣', '१', '𝟘'] {
        assert!(decimal_digit(c), "{c:?}");
        assert!(word_char(c), "{c:?}");
    }
    for c in ['a', 'Z', 'é', 'ß', 'Ж', '中', '_', '‿', '\u{301}', '\u{200D}', 'Ⓐ', 'Ⅻ'] {
        assert!(word_char(c), "{c:?}");
    }
    for c in ['.', ' ', '(', ')', '-', '·', '½', '²', 'Ⅻ'] {
        assert!(!decimal_digit(c), "{c:?}");
    }
    for c in ['.', ' ', '(', ')', '-', '·', '$', '\u{0}'] {
        assert!(!word_char(c), "{c:?}");
    }
}

/// Code points that std's newer Unicode makes alphabetic but that Unicode 15.1,
/// the version of the library's tables, leaves unassigned.
const ASSIGNED_AFTER_15_1: [(u32, u32); 35] = [
    (0x88F, 0x88F), (0x897, 0x897), (0xC5C, 0xC5C), (0xCDC, 0xCDC), (0x1C89, 0x1C8A),
    (0xA7CB, 0xA7CF), (0xA7D2, 0xA7D2), (0xA7D4, 0xA7D4), (0xA7DA, 0xA7DC), (0xA7F1, 0xA7F1),
    (0x105C0, 0x105F3), (0x10940, 0x10959), (0x10D4A, 0x10D65), (0x10D69, 0x10D69),
    (0x10D6F, 0x10D85), (0x10EC2, 0x10EC7), (0x10EFA, 0x10EFC), (0x11380, 0x113D3),
    (0x11B60, 0x11B67), (0x11BC0, 0x11BE0), (0x11DB0, 0x11DDB), (0x13460, 0x143FA),
    (0x16100, 0x1612E), (0x16D40, 0x16D6C), (0x16EA0, 0x16ED3), (0x16FF2, 0x16FF6),
    (0x187F8, 0x187FF), (0x18CFF, 0x18CFF), (0x18D09, 0x18D1E), (0x18D80, 0x18DF2),
    (0x1E5D0, 0x1E5F0), (0x1E6C0, 0x1E6FF), (0x2B73A, 0x2B73F), (0x2CEA2, 0x2CEAD),
    (0x323B0, 0x33479),
];

#[test]
fn every_alphabetic_character_is_a_word_character() {
    let later = |c: char| ASSIGNED_AFTER_15_1.iter().any(|&(a, b)| a <= c as u32 && c as u32 <= b);
    let missing: Vec<u32> = (0..=0x10FFFFu32)
        .filter_map(char::from_u32)
        .filter(|c| c.is_alphabetic() && !word_char(*c) && !later(*c))
        .map(|c| c as u32)
        .collect();
    assert!(missing.is_empty(), "{:X?}", missing);
}

#[test]
fn every_decimal_digit_is_numeric_and_alphanumeric_words() {
    for c in (0..=0x10FFFFu32).filter_map(char::from_u32) {
        if decimal_digit(c) {
            assert!(c.is_numeric() && word_char(c), "{:X}", c as u32);
        }
    }
}
