use scantext::classify::{is_alpha, is_alphanum, is_digit, is_print, is_whitespace, lower_char};

fn every_scalar() -> Vec<char> {
    let mut all: Vec<char> = Vec::new();
    let mut code: u32 = 0;
    while code <= 0x10FFFF {
        if let Some(ch) = char::from_u32(code) {
            all.push(ch);
        }
        code += 1;
    }
    all
}

#[test]
fn letters_are_the_two_ascii_ranges() {
    for ch in every_scalar() {
        let expected = ('a'..='z').contains(&ch) || ('A'..='Z').contains(&ch);
        assert_eq!(is_alpha(ch), expected, "{:?}", ch);
    }
}

#[test]
fn digits_are_zero_to_nine() {
    for ch in every_scalar() {
        assert_eq!(is_digit(ch), ('0'..='9').contains(&ch), "{:?}", ch);
    }
}

#[test]
fn alphanumeric_is_letter_or_digit() {
    for ch in every_scalar() {
        assert_eq!(is_alphanum(ch), is_alpha(ch) || is_digit(ch), "{:?}", ch);
    }
}

#[test]
fn printable_is_space_to_tilde() {
    for ch in every_scalar() {
        assert_eq!(is_print(ch), (' '..='~').contains(&ch), "{:?}", ch);
    }
}

#[test]
fn whitespace_is_four_values() {
    for ch in every_scalar() {
        let expected = ch == ' ' || ch == '\t' || ch == '\r' || ch == '\n';
        assert_eq!(is_whitespace(ch), expected, "{:?}", ch);
    }
}

#[test]
fn class_boundaries() {
    assert!(is_alpha('a') && is_alpha('z') && is_alpha('A') && is_alpha('Z'));
    assert!(!is_alpha('`') && !is_alpha('{') && !is_alpha('@') && !is_alpha('['));
    assert!(is_digit('0') && is_digit('9'));
    assert!(!is_digit('/') && !is_digit(':'));
    assert!(is_alphanum('g') && is_alphanum('7') && !is_alphanum('_'));
    assert!(is_print(' ') && is_print('~'));
    assert!(!is_print('\u{1f}') && !is_print('\u{7f}'));
    assert!(!is_whitespace('\u{b}') && !is_whitespace('\u{c}') && !is_whitespace('\u{a0}'));
}

#[test]
fn non_ascii_belongs_to_no_class() {
    for ch in ['é', 'ß', 'Ω', '٣', '中', '\u{2003}', '\u{10FFFF}'] {
        assert!(!is_alpha(ch));
        assert!(!is_digit(ch));
        assert!(!is_alphanum(ch));
        assert!(!is_print(ch));
        assert!(!is_whitespace(ch));
    }
}

#[test]
fn lowercase_moves_only_upper_case_ascii() {
    for ch in every_scalar() {
        let expected = if ('A'..='Z').contains(&ch) {
            char::from_u32(ch as u32 + 32).unwrap()
        } else {
            ch
        };
        assert_eq!(lower_char(ch), expected, "{:?}", ch);
    }
}

#[test]
fn lowercase_maps_the_alphabet_in_order() {
    let upper: Vec<char> = "ABCDEFGHIJKLMNOPQRSTUVWXYZ".chars().collect();
    let lower: Vec<char> = "abcdefghijklmnopqrstuvwxyz".chars().collect();
    for i in 0..26 {
        assert_eq!(lower_char(upper[i]), lower[i]);
        assert_eq!(lower_char(lower[i]), lower[i]);
    }
}

#[test]
fn lowercase_leaves_neighbours_and_non_ascii() {
    assert_eq!(lower_char('@'), '@');
    assert_eq!(lower_char('['), '[');
    assert_eq!(lower_char('5'), '5');
    assert_eq!(lower_char('É'), 'É');
    assert_eq!(lower_char('Ω'), 'Ω');
}
