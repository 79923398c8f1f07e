use kitty_placeholders::diacritics::{
    decode_diacritics, diacritic_value, DIACRITIC_VALUES, UNICODE_PLACEHOLDER,
};

fn diacritic(value: usize) -> char {
    char::from_u32(DIACRITIC_VALUES[value].0).unwrap()
}

fn grapheme(values: &[usize]) -> String {
    let mut text = String::new();
    text.push(UNICODE_PLACEHOLDER);
    for v in values {
        text.push(diacritic(*v));
    }
    text
}

#[test]
fn placeholder_character() {
    assert_eq!(UNICODE_PLACEHOLDER as u32, 0x10EEEE);
}

#[test]
fn table_is_sorted_and_numbered() {
    assert_eq!(DIACRITIC_VALUES.len(), 297);
    for i in 0..DIACRITIC_VALUES.len() {
        assert_eq!(DIACRITIC_VALUES[i].1 as usize, i);
        if i > 0 {
            assert!(DIACRITIC_VALUES[i - 1].0 < DIACRITIC_VALUES[i].0);
        }
    }
}

#[test]
fn known_diacritics() {
    assert_eq!(diacritic_value('\u{0305}'), Some(0));
    assert_eq!(diacritic_value('\u{030d}'), Some(1));
    assert_eq!(diacritic_value('\u{030e}'), Some(2));
    assert_eq!(diacritic_value('\u{036f}'), Some(29));
    assert_eq!(diacritic_value('\u{0483}'), Some(30));
    assert_eq!(diacritic_value('\u{1de6}'), Some(196));
    assert_eq!(diacritic_value('\u{a8e5}'), Some(255));
    assert_eq!(diacritic_value('\u{1d244}'), Some(296));
}

#[test]
fn every_diacritic_is_found() {
    for i in 0..DIACRITIC_VALUES.len() {
        assert_eq!(diacritic_value(diacritic(i)), Some(i as u32));
    }
}

#[test]
fn other_characters_are_no_diacritics() {
    for c in ['a', '\u{0}', '\u{0301}', '\u{0304}', '\u{0306}', '\u{030f}', '\u{1d245}', '\u{10ffff}'] {
        assert_eq!(diacritic_value(c), None);
    }
    assert_eq!(diacritic_value(UNICODE_PLACEHOLDER), None);
}

#[test]
fn decodes_up_to_three_diacritics() {
    assert_eq!(decode_diacritics(&grapheme(&[])), Some((None, None, None)));
    assert_eq!(decode_diacritics(&grapheme(&[7])), Some((Some(7), None, None)));
    assert_eq!(decode_diacritics(&grapheme(&[7, 0])), Some((Some(7), Some(0), None)));
    assert_eq!(
        decode_diacritics(&grapheme(&[7, 0, 296])),
        Some((Some(7), Some(0), Some(296)))
    );
}

#[test]
fn decodes_a_literal_grapheme() {
    assert_eq!(
        decode_diacritics("\u{10EEEE}\u{030d}\u{030e}\u{0310}"),
        Some((Some(1), Some(2), Some(3)))
    );
}

#[test]
fn further_diacritics_are_ignored() {
    assert_eq!(
        decode_diacritics(&grapheme(&[1, 2, 3, 4])),
        Some((Some(1), Some(2), Some(3)))
    );
    assert_eq!(
        decode_diacritics(&grapheme(&[1, 2, 3, 4, 296, 0])),
        Some((Some(1), Some(2), Some(3)))
    );
}

#[test]
fn rejects_what_is_no_placeholder() {
    assert_eq!(decode_diacritics(""), None);
    assert_eq!(decode_diacritics("a"), None);
    assert_eq!(decode_diacritics("a\u{0305}"), None);
    assert_eq!(decode_diacritics("\u{0305}\u{10EEEE}"), None);
}

#[test]
fn rejects_unknown_diacritics() {
    assert_eq!(decode_diacritics("\u{10EEEE}\u{0301}"), None);
    assert_eq!(decode_diacritics("\u{10EEEE}\u{0305}\u{0301}"), None);
    assert_eq!(decode_diacritics("\u{10EEEE}\u{0305}\u{0305}\u{0301}"), None);
    assert_eq!(decode_diacritics("\u{10EEEE}\u{0305}\u{030D}\u{030E}\u{0301}"), None);
    assert_eq!(
        decode_diacritics("\u{10EEEE}\u{0305}\u{030D}\u{030E}\u{0310}\u{0301}"),
        None
    );
    assert_eq!(decode_diacritics("\u{10EEEE}\u{0305}\u{030D}\u{030E}a"), None);
}
