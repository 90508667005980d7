use caret_context::context_capture::{
    capture_for_dictation, clear, take, CaretContext, Pending, PlatformCapture, SecureInputCheck,
};
use caret_context::unsupported;

fn context(before: &str) -> CaretContext {
    CaretContext {
        before: before.to_string(),
        ..Default::default()
    }
}

#[test]
fn empty_context_is_detected() {
    assert!(CaretContext::default().is_empty());
    assert!(CaretContext {
        before: "   ".to_string(),
        ..Default::default()
    }
    .is_empty());
    assert!(!CaretContext {
        before: "Hello".to_string(),
        ..Default::default()
    }
    .is_empty());
    assert!(!CaretContext {
        screenshot_png_base64: Some("abc".to_string()),
        ..Default::default()
    }
    .is_empty());
}

#[test]
fn text_on_either_side_counts() {
    let after = CaretContext {
        after: "x".to_string(),
        ..Default::default()
    };
    assert!(after.has_text());
    assert!(!after.is_empty());
    assert!(context("x").has_text());
    assert!(!context(" \n").has_text());
    let image = CaretContext {
        screenshot_png_base64: Some("abc".to_string()),
        ..Default::default()
    };
    assert!(!image.has_text());
    let named = CaretContext {
        app_name: Some("Notes".to_string()),
        ..Default::default()
    };
    assert!(named.is_empty());
}

#[test]
fn pending_context_is_taken_only_once() {
    let mut pending = Pending::new();
    clear(&mut pending);
    pending.context = Some(CaretContext {
        before: "Hello ".to_string(),
        ..Default::default()
    });
    assert!(take(&mut pending).is_some());
    assert!(take(&mut pending).is_none());
}

#[test]
fn a_clone_holds_the_same() {
    let original = CaretContext {
        before: "a".to_string(),
        after: "b".to_string(),
        app_name: Some("c".to_string()),
        screenshot_png_base64: Some("d".to_string()),
    };
    let copy = original.clone();
    assert_eq!(copy.before, "a");
    assert_eq!(copy.after, "b");
    assert_eq!(copy.app_name, Some("c".to_string()));
    assert_eq!(copy.screenshot_png_base64, Some("d".to_string()));
}

#[test]
fn nothing_wanted_empties_the_slot() {
    let mut pending = Pending::new();
    pending.context = Some(context("old"));
    assert_eq!(capture_for_dictation(&mut pending, false, false), None);
    assert!(pending.context.is_none());
}

#[test]
fn secure_input_empties_the_slot() {
    let mut pending = Pending::new();
    pending.context = Some(context("old"));
    let check = capture_for_dictation(&mut pending, false, true).unwrap();
    assert_eq!(
        check,
        SecureInputCheck {
            want_text: false,
            want_screenshot: true
        }
    );
    assert!(pending.context.is_some());
    assert_eq!(check.resume(&mut pending, true), None);
    assert!(pending.context.is_none());
}

#[test]
fn a_capture_replaces_the_previous_one() {
    let mut pending = Pending::new();
    pending.context = Some(context("old"));
    let check = capture_for_dictation(&mut pending, true, false).unwrap();
    let capture = check.resume(&mut pending, false).unwrap();
    assert_eq!(
        capture,
        PlatformCapture {
            want_text: true,
            want_screenshot: false
        }
    );
    capture.resume(&mut pending, Some(context("new")));
    assert_eq!(take(&mut pending).unwrap().before, "new");

    pending.context = Some(context("old"));
    let check = capture_for_dictation(&mut pending, true, true).unwrap();
    let capture = check.resume(&mut pending, false).unwrap();
    capture.resume(&mut pending, unsupported::capture(true, true));
    assert!(take(&mut pending).is_none());
}

#[test]
fn a_poisoned_slot_is_left_alone() {
    let mut pending = Pending {
        context: Some(context("old")),
        poisoned: true,
    };
    clear(&mut pending);
    assert!(pending.context.is_some());
    assert!(take(&mut pending).is_none());
    assert_eq!(capture_for_dictation(&mut pending, false, false), None);
    let check = capture_for_dictation(&mut pending, true, true).unwrap();
    assert_eq!(check.resume(&mut pending, true), None);
    let capture = check.resume(&mut pending, false).unwrap();
    capture.resume(&mut pending, Some(context("new")));
    assert_eq!(pending.context.unwrap().before, "old");
}
