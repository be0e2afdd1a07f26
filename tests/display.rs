use life_sandbox::display::{gen_toolbar, is_ascii_punctuation, push_decimal, valid_chars};

#[test]
fn toolbar_default() {
    assert_eq!(gen_toolbar('O', ' ', 2, 3, 150), "FG:'O' BG:' ' Live:2 Birth:3 FPS:15.0");
}

#[test]
fn toolbar_fractional_and_large_rates() {
    assert_eq!(gen_toolbar('#', '.', 0, 9, 5), "FG:'#' BG:'.' Live:0 Birth:9 FPS:0.5");
    assert_eq!(gen_toolbar('a', 'b', 10, 123, 9990), "FG:'a' BG:'b' Live:10 Birth:123 FPS:999.0");
}

#[test]
fn decimal_digits() {
    let mut v = vec!['x'];
    push_decimal(&mut v, 0);
    push_decimal(&mut v, 4096);
    assert_eq!(v, vec!['x', '0', '4', '0', '9', '6']);
}

#[test]
fn valid_glyphs() {
    assert!(valid_chars('O'));
    assert!(valid_chars('7'));
    assert!(valid_chars(' '));
    assert!(valid_chars('\t'));
    assert!(valid_chars('#'));
    assert!(valid_chars('~'));
    assert!(valid_chars('é'));
    assert!(!valid_chars('\u{7f}'));
    assert!(!valid_chars('\u{1}'));
    assert!(!valid_chars('€'));
}

#[test]
fn punctuation_ranges() {
    for c in ['!', '/', ':', '@', '[', '`', '{', '~'] {
        assert!(is_ascii_punctuation(c));
    }
    for c in ['a', '0', ' ', '\u{7f}', '§'] {
        assert!(!is_ascii_punctuation(c));
    }
}
