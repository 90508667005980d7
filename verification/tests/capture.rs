use caret_context::accessibility::{capture, Answer, Capture, Query};
use caret_context::context_capture::CaretContext;
use caret_context::geometry::{element_bounds, is_finite, Point, Rect, Size, SCREENSHOT_SIDE};
use caret_context::screenshot::{capture_rect, capture_square, encode_png, Shot, Square, SquareEvent};
use caret_context::text_range::{
    caret_position, range_after, range_before, selected_caret, slice_full_value, string_for_range,
    Caret, TextRange,
};

fn rect(x: f64, y: f64, width: f64, height: f64) -> Rect {
    Rect {
        origin: Point {
            x: x.to_bits(),
            y: y.to_bits(),
        },
        size: Size {
            width: width.to_bits(),
            height: height.to_bits(),
        },
    }
}

struct Desktop {
    trusted: bool,
    system_wide: bool,
    focused: bool,
    subrole: Option<String>,
    title: Option<String>,
    range: Option<TextRange>,
    ranged: bool,
    units: Vec<u16>,
    value: Option<String>,
    caret_bounds: Option<Rect>,
    position: Option<Point>,
    size: Option<Size>,
    screenshot: Option<String>,
    asked: Vec<Query>,
}

impl Desktop {
    fn with_text(text: &str, location: isize, length: isize) -> Desktop {
        Desktop {
            trusted: true,
            system_wide: true,
            focused: true,
            subrole: None,
            title: Some("Notes".to_string()),
            range: Some(TextRange { location, length }),
            ranged: true,
            units: text.encode_utf16().collect(),
            value: Some(text.to_string()),
            caret_bounds: None,
            position: None,
            size: None,
            screenshot: None,
            asked: Vec::new(),
        }
    }

    fn answer(&mut self, query: Query) -> Answer {
        self.asked.push(query);
        match query {
            Query::ProcessTrusted => Answer::Flag(self.trusted),
            Query::SystemWideElement => Answer::Flag(self.system_wide),
            Query::FocusedElement => Answer::Flag(self.focused),
            Query::Subrole => Answer::Text(self.subrole.clone()),
            Query::FocusedApplication => Answer::Flag(self.title.is_some()),
            Query::ApplicationTitle => Answer::Text(self.title.clone()),
            Query::SelectedRange => Answer::Range(self.range),
            Query::StringForRange(range) => {
                if !self.ranged {
                    return Answer::Text(None);
                }
                let start = (range.location as usize).min(self.units.len());
                let end = (start + range.length as usize).min(self.units.len());
                Answer::Text(Some(String::from_utf16_lossy(&self.units[start..end])))
            }
            Query::FullValue => Answer::Text(self.value.clone()),
            Query::BoundsForRange(_) => Answer::Bounds(self.caret_bounds),
            Query::Position => Answer::Position(self.position),
            Query::ElementSize => Answer::Size(self.size),
            Query::Screenshot(_) => Answer::Text(self.screenshot.clone()),
        }
    }

    fn run(&mut self, want_text: bool, want_screenshot: bool) -> Option<CaretContext> {
        let mut running: Capture = capture(want_text, want_screenshot);
        let mut steps = 0;
        while let Some(query) = running.query() {
            steps += 1;
            assert!(steps <= 14);
            running = running.resume(self.answer(query));
        }
        running.into_context()
    }
}

#[test]
fn text_around_the_caret_is_captured() {
    let mut desktop = Desktop::with_text("Hello brave world", 6, 0);
    let context = desktop.run(true, true).unwrap();
    assert_eq!(context.before, "Hello ");
    assert_eq!(context.after, "brave world");
    assert_eq!(context.app_name, Some("Notes".to_string()));
    assert_eq!(context.screenshot_png_base64, None);
    assert_eq!(
        desktop.asked,
        vec![
            Query::ProcessTrusted,
            Query::SystemWideElement,
            Query::FocusedElement,
            Query::Subrole,
            Query::FocusedApplication,
            Query::ApplicationTitle,
            Query::SelectedRange,
            Query::StringForRange(TextRange {
                location: 0,
                length: 6
            }),
            Query::StringForRange(TextRange {
                location: 6,
                length: 200
            }),
        ]
    );
}

#[test]
fn a_selection_is_skipped() {
    let context = Desktop::with_text("Hello brave world", 6, 6)
        .run(true, false)
        .unwrap();
    assert_eq!(context.before, "Hello ");
    assert_eq!(context.after, "world");
}

#[test]
fn captured_text_never_exceeds_the_window() {
    let long: String = "abcdefghij".repeat(100);
    let context = Desktop::with_text(&long, 505, 0).run(true, false).unwrap();
    assert_eq!(context.before, long[305..505]);
    assert_eq!(context.after, long[505..705]);

    // An interface that hands over more than it was asked for is cut short.
    let mut running = capture(true, false);
    for answer in [
        Answer::Flag(true),
        Answer::Flag(true),
        Answer::Flag(true),
        Answer::Text(None),
        Answer::Flag(false),
        Answer::Range(Some(TextRange {
            location: 500,
            length: 0,
        })),
        Answer::Text(Some(long.clone())),
        Answer::Text(Some(long.clone())),
    ] {
        running = running.resume(answer);
    }
    let context = running.into_context().unwrap();
    assert_eq!(context.before, long[800..]);
    assert_eq!(context.after, long[..200]);
    assert_eq!(context.app_name, None);
}

#[test]
fn nothing_is_read_before_a_caret_at_the_start() {
    let mut desktop = Desktop::with_text("world", 0, 0);
    let context = desktop.run(true, false).unwrap();
    assert_eq!(context.before, "");
    assert_eq!(context.after, "world");
    assert!(!desktop.asked.contains(&Query::StringForRange(TextRange {
        location: 0,
        length: 0
    })));
    let context = Desktop::with_text("world", -3, -5).run(true, false).unwrap();
    assert_eq!(context.after, "world");
}

#[test]
fn the_full_value_is_cut_when_ranges_are_unknown() {
    let mut desktop = Desktop::with_text("a\u{1f600}b\u{1f600}c", 3, 0);
    desktop.ranged = false;
    let context = desktop.run(true, false).unwrap();
    assert_eq!(context.before, "a\u{1f600}");
    assert_eq!(context.after, "b\u{1f600}c");
    assert_eq!(desktop.asked.last(), Some(&Query::FullValue));
    desktop.value = None;
    assert!(desktop.run(true, false).is_none());
}

#[test]
fn a_selection_is_skipped_in_the_full_value() {
    let mut desktop = Desktop::with_text("abcDEFghi", 3, 3);
    desktop.ranged = false;
    let context = desktop.run(true, false).unwrap();
    assert_eq!(context.before, "abc");
    assert_eq!(context.after, "ghi");

    let mut desktop = Desktop::with_text("a\u{1f600}DE\u{1f600}c", 3, 4);
    desktop.ranged = false;
    let context = desktop.run(true, false).unwrap();
    assert_eq!(context.before, "a\u{1f600}");
    assert_eq!(context.after, "c");

    // A selection that is said to end past the text leaves nothing after it.
    let mut desktop = Desktop::with_text("abc", 1, 99);
    desktop.ranged = false;
    let context = desktop.run(true, false).unwrap();
    assert_eq!(context.before, "a");
    assert_eq!(context.after, "");
}

#[test]
fn a_secure_text_field_is_never_read() {
    for want_text in [false, true] {
        let mut desktop = Desktop::with_text("secret", 3, 0);
        desktop.subrole = Some("AXSecureTextField".to_string());
        desktop.position = Some(rect(0.0, 0.0, 1.0, 1.0).origin);
        desktop.size = Some(rect(0.0, 0.0, 1.0, 1.0).size);
        desktop.screenshot = Some("abc".to_string());
        assert!(desktop.run(want_text, true).is_none());
        assert_eq!(desktop.asked.last(), Some(&Query::Subrole));
    }
    let mut desktop = Desktop::with_text("search", 3, 0);
    desktop.subrole = Some("AXSearchField".to_string());
    assert!(desktop.run(true, false).is_some());
}

#[test]
fn nothing_is_captured_without_permission_or_focus() {
    let mut desktop = Desktop::with_text("text", 2, 0);
    desktop.trusted = false;
    assert!(desktop.run(true, true).is_none());
    assert_eq!(desktop.asked, vec![Query::ProcessTrusted]);
    let mut desktop = Desktop::with_text("text", 2, 0);
    desktop.system_wide = false;
    assert!(desktop.run(true, true).is_none());
    assert_eq!(desktop.asked.len(), 2);
    let mut desktop = Desktop::with_text("text", 2, 0);
    desktop.focused = false;
    assert!(desktop.run(true, true).is_none());
    assert_eq!(desktop.asked.len(), 3);
}

#[test]
fn the_screenshot_stands_in_for_missing_text() {
    let mut desktop = Desktop::with_text("  ", 1, 0);
    desktop.caret_bounds = Some(rect(10.0, 20.0, 0.0, 16.0));
    desktop.screenshot = Some("abc".to_string());
    let context = desktop.run(true, true).unwrap();
    assert_eq!(context.screenshot_png_base64, Some("abc".to_string()));
    assert_eq!(context.before, " ");
    assert!(desktop.asked.contains(&Query::BoundsForRange(TextRange {
        location: 1,
        length: 1
    })));
    assert_eq!(
        desktop.asked.last(),
        Some(&Query::Screenshot(rect(10.0, 20.0, 0.0, 16.0)))
    );
    assert!(desktop.run(true, false).is_none());
}

#[test]
fn the_screenshot_alone_reads_no_text() {
    let mut desktop = Desktop::with_text("Hello", 2, 0);
    desktop.caret_bounds = Some(rect(1.0, 2.0, 3.0, 4.0));
    desktop.screenshot = Some("abc".to_string());
    let context = desktop.run(false, true).unwrap();
    assert_eq!(context.before, "");
    assert_eq!(context.after, "");
    assert_eq!(context.screenshot_png_base64, Some("abc".to_string()));
    assert!(!desktop
        .asked
        .iter()
        .any(|q| matches!(q, Query::StringForRange(_) | Query::FullValue)));
}

#[test]
fn the_element_is_the_anchor_when_the_caret_is_not_finite() {
    let element = rect(5.0, 6.0, 7.0, 8.0);
    for caret in [
        None,
        Some(rect(1.0, 1.0, f64::INFINITY, 2.0)),
        Some(rect(1.0, 1.0, 2.0, f64::NAN)),
    ] {
        let mut desktop = Desktop::with_text("", 0, 0);
        desktop.caret_bounds = caret;
        desktop.position = Some(element.origin);
        desktop.size = Some(element.size);
        desktop.screenshot = Some("abc".to_string());
        assert!(desktop.run(true, true).is_some());
        assert_eq!(desktop.asked.last(), Some(&Query::Screenshot(element)));
    }
    // The origin of the caret rectangle does not matter for the choice.
    let odd = rect(f64::NAN, 1.0, 2.0, 3.0);
    let mut desktop = Desktop::with_text("", 0, 0);
    desktop.caret_bounds = Some(odd);
    desktop.screenshot = Some("abc".to_string());
    assert!(desktop.run(true, true).is_some());
    assert_eq!(desktop.asked.last(), Some(&Query::Screenshot(odd)));
}

#[test]
fn without_any_anchor_there_is_no_screenshot() {
    let element = rect(5.0, 6.0, 7.0, 8.0);
    let mut desktop = Desktop::with_text("", 0, 0);
    desktop.range = None;
    desktop.screenshot = Some("abc".to_string());
    assert!(desktop.run(true, true).is_none());
    assert_eq!(desktop.asked.last(), Some(&Query::Position));
    desktop.position = Some(element.origin);
    assert!(desktop.run(true, true).is_none());
    assert_eq!(desktop.asked.last(), Some(&Query::ElementSize));
    desktop.size = Some(element.size);
    assert!(desktop.run(true, true).is_some());
    desktop.screenshot = None;
    assert!(desktop.run(true, true).is_none());
}

#[test]
fn an_answer_to_another_query_is_ignored() {
    let running = capture(true, true).resume(Answer::Text(Some("x".to_string())));
    assert_eq!(running.query(), Some(Query::ProcessTrusted));
    assert!(running.into_context().is_none());
}

#[test]
fn ranges_meet_the_caret() {
    let caret = selected_caret(TextRange {
        location: 450,
        length: 30,
    });
    assert_eq!(
        caret,
        Caret {
            before: 450,
            after: 480
        }
    );
    assert_eq!(
        range_before(caret),
        TextRange {
            location: 250,
            length: 200
        }
    );
    assert_eq!(
        range_after(caret),
        TextRange {
            location: 480,
            length: 200
        }
    );
    let near = selected_caret(TextRange {
        location: 199,
        length: -1,
    });
    assert_eq!(
        range_before(near),
        TextRange {
            location: 0,
            length: 199
        }
    );
    assert_eq!(range_after(near).location, 199);
    assert_eq!(
        caret_position(TextRange {
            location: -7,
            length: 3
        }),
        0
    );
    assert_eq!(string_for_range(4, 0), None);
    assert_eq!(string_for_range(4, -2), None);
    assert_eq!(
        string_for_range(4, 2),
        Some(TextRange {
            location: 4,
            length: 2
        })
    );
}

#[test]
fn a_cut_through_the_full_text() {
    assert_eq!(slice_full_value("abc", 1), ("a".to_string(), "bc".to_string()));
    assert_eq!(slice_full_value("abc", -4), ("".to_string(), "abc".to_string()));
    assert_eq!(slice_full_value("abc", 99), ("abc".to_string(), "".to_string()));
    assert_eq!(slice_full_value("", 0), ("".to_string(), "".to_string()));
    // A caret inside a surrogate pair belongs to neither side.
    assert_eq!(
        slice_full_value("\u{1f600}", 1),
        ("\u{fffd}".to_string(), "\u{fffd}".to_string())
    );
    let before = "\u{1f600}".repeat(100);
    let after = "é".repeat(200);
    let full = format!("far{}{}away", before, after);
    assert_eq!(slice_full_value(&full, 203), (before, after));
}

#[test]
fn finiteness_is_that_of_doubles() {
    for number in [
        0.0,
        -0.0,
        1.5,
        -300.0,
        f64::MAX,
        f64::MIN,
        f64::MIN_POSITIVE,
        f64::INFINITY,
        f64::NEG_INFINITY,
        f64::NAN,
        -f64::NAN,
    ] {
        assert_eq!(is_finite(number.to_bits()), number.is_finite(), "{}", number);
    }
    assert_eq!(SCREENSHOT_SIDE, 300);
}

#[test]
fn an_element_has_bounds_when_it_reports_both() {
    let whole = rect(1.0, 2.0, 3.0, 4.0);
    assert_eq!(element_bounds(Some(whole.origin), Some(whole.size)), Some(whole));
    assert_eq!(element_bounds(None, Some(whole.size)), None);
    assert_eq!(element_bounds(Some(whole.origin), None), None);
    assert_eq!(element_bounds(None, None), None);
}

fn png() -> Shot {
    Shot::Png(b"foobar".to_vec())
}

#[test]
fn an_image_becomes_text() {
    assert_eq!(encode_png(b"foo"), Some("Zm9v".to_string()));
    assert_eq!(encode_png(b""), None);
    assert_eq!(capture_rect(png()), Some("Zm9vYmFy".to_string()));
    assert_eq!(capture_rect(Shot::Png(vec![])), None);
    assert_eq!(capture_rect(Shot::NoImage), None);
    assert_eq!(capture_rect(Shot::TimedOut), None);
}

#[test]
fn the_square_needs_the_permission() {
    let anchor = rect(1.0, 2.0, 3.0, 4.0);
    let step = capture_square(anchor).resume(SquareEvent::Shot(png()));
    assert!(matches!(step, Square::CheckPermission(a) if a == anchor));
    let step = step.resume(SquareEvent::Checked(false));
    assert!(matches!(step, Square::Finished(None)));
}

#[test]
fn the_older_interface_is_the_last_resort() {
    let anchor = rect(1.0, 2.0, 3.0, 4.0);
    let step = capture_square(anchor).resume(SquareEvent::Checked(true));
    assert!(matches!(step, Square::CheckAvailable(a) if a == anchor));
    let step = step.resume(SquareEvent::Available(true));
    assert!(matches!(step, Square::Capture(a) if a == anchor));
    match step.resume(SquareEvent::Shot(png())) {
        Square::Finished(text) => assert_eq!(text, Some("Zm9vYmFy".to_string())),
        _ => panic!("not finished"),
    }
    for failed in [Shot::Png(vec![]), Shot::TimedOut, Shot::NoImage] {
        let step = capture_square(anchor)
            .resume(SquareEvent::Checked(true))
            .resume(SquareEvent::Available(true))
            .resume(SquareEvent::Shot(failed));
        assert!(matches!(step, Square::CaptureLegacy(a) if a == anchor));
        match step.resume(SquareEvent::Shot(png())) {
            Square::Finished(text) => assert_eq!(text, Some("Zm9vYmFy".to_string())),
            _ => panic!("not finished"),
        }
    }
    let step = capture_square(anchor)
        .resume(SquareEvent::Checked(true))
        .resume(SquareEvent::Available(false));
    assert!(matches!(step, Square::CaptureLegacy(a) if a == anchor));
    let step = step.resume(SquareEvent::Shot(Shot::NoImage));
    assert!(matches!(step, Square::Finished(None)));
}
