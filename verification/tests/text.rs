use caret_context::text::{head, is_blank, is_white_space, tail, TEXT_WINDOW};

#[test]
fn tail_keeps_the_end_nearest_the_caret() {
    assert_eq!(tail("hello world", 5), "world");
    assert_eq!(tail("hi", 5), "hi");
}

#[test]
fn head_keeps_the_start_nearest_the_caret() {
    assert_eq!(head("hello world", 5), "hello");
    assert_eq!(head("hi", 5), "hi");
}

#[test]
fn truncation_is_character_aware() {
    // Byte slicing would panic or split these; character slicing must not.
    assert_eq!(tail("añodèé", 3), "dèé");
    assert_eq!(head("añodèé", 3), "año");
}

#[test]
fn truncation_at_the_edges() {
    assert_eq!(tail("", 3), "");
    assert_eq!(head("", 3), "");
    assert_eq!(tail("abc", 0), "");
    assert_eq!(head("abc", 0), "");
    assert_eq!(tail("abc", 3), "abc");
    assert_eq!(head("abc", 3), "abc");
    assert_eq!(tail("abc", usize::MAX), "abc");
    assert_eq!(TEXT_WINDOW, 200);
}

#[test]
fn head_and_tail_put_together_are_the_text() {
    let text = "a\u{1f600}ñ  z";
    let n = text.chars().count();
    for at in 0..=n {
        assert_eq!(format!("{}{}", head(text, at), tail(text, n - at)), text);
    }
}

#[test]
fn truncating_twice_changes_nothing() {
    for max in 0..8 {
        let once = tail("añodèé", max);
        assert_eq!(tail(&once, max), once);
        assert_eq!(once.chars().count(), max.min(6));
        let once = head("añodèé", max);
        assert_eq!(head(&once, max), once);
    }
}

#[test]
fn white_space_is_that_of_the_standard_library() {
    for n in 0..=0x10ffffu32 {
        if let Some(c) = char::from_u32(n) {
            assert_eq!(is_white_space(c), c.is_whitespace(), "{:x}", n);
        }
    }
}

#[test]
fn blank_text_trims_to_nothing() {
    for text in ["", " ", "\t\n\r ", "\u{a0}\u{3000}", " a ", "\u{200b}", "\u{feff}", "x"] {
        assert_eq!(is_blank(text), text.trim().is_empty(), "{:?}", text);
    }
    assert!(is_blank(&tail("a   ", 3)));
    assert!(!is_blank(&head("a   ", 3)));
}
