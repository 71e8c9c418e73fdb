use std::cell::Cell;
use wand::paint::DrawCommand;
use wand::registry::StateProto;
use wand::section::Section;
use wand::span::text_span::{FIT_LIMIT, FONT_MAX, FONT_MIN};
use wand::span::{Payload, Span, SpanTrait, TextSpan, WorldSpan};
use wand::utils::{get_font_with_limit, is_blank, is_space, FIT_START};

#[test]
fn blank_text_is_not_measured() {
    let calls = Cell::new(0u32);
    let measure = |_px: u32| {
        calls.set(calls.get() + 1);
        1000i64
    };
    assert_eq!(get_font_with_limit(&measure, "", 50), 5);
    assert_eq!(get_font_with_limit(&measure, "  \t\n", 50), 5);
    assert_eq!(get_font_with_limit(&measure, "\u{3000}\u{a0}", 50), 5);
    assert_eq!(calls.get(), 0);
    assert_eq!(FIT_START, 5);
}

#[test]
fn first_size_that_reaches_the_width_is_taken() {
    let calls = Cell::new(0u32);
    // two letters, each as wide as the font is high
    let measure = |px: u32| {
        calls.set(calls.get() + 1);
        2 * px as i64
    };
    assert_eq!(get_font_with_limit(&measure, "Hi", 30), 15);
    // sizes 5, 7, 9, 11, 13 and 15 were tried
    assert_eq!(calls.get(), 6);
    assert_eq!(get_font_with_limit(&measure, "Hi", 10), 5);
    assert_eq!(get_font_with_limit(&measure, "Hi", 11), 7);
    assert_eq!(get_font_with_limit(&measure, "Hi", -3), 5);
}

#[test]
fn search_gives_up_after_a_thousand_sizes() {
    let calls = Cell::new(0u32);
    let measure = |_px: u32| {
        calls.set(calls.get() + 1);
        0i64
    };
    assert_eq!(get_font_with_limit(&measure, "x", 1), 2005);
    assert_eq!(calls.get(), 1000);
}

#[test]
fn white_space_is_told_apart() {
    assert!(is_space(' '));
    assert!(is_space('\n'));
    assert!(is_space('\u{2003}'));
    assert!(!is_space('a'));
    assert!(!is_space('\u{200b}'));
    assert!(is_blank(""));
    assert!(!is_blank(" a "));
    for c in ['\t', '\u{b}', '\u{c}', '\r', '\u{85}', '\u{1680}', '\u{2028}', '\u{2029}', '\u{202f}', '\u{205f}'] {
        assert_eq!(is_space(c), c.is_whitespace());
    }
    for c in ['\u{8}', '\u{e}', '\u{1f}', '!', '\u{84}', '\u{86}', '\u{1fff}', '\u{200b}', '\u{3001}'] {
        assert_eq!(is_space(c), c.is_whitespace());
    }
}

#[test]
fn text_span_in_a_section() {
    let mut state = StateProto::new();
    let mut section = Section::new(&mut state, "s", 1000, 1000, 0);
    let mut span = TextSpan::new(&mut state, "hello", "", 1000, 1000);
    span.set_text("Hi");
    assert_eq!(span.get_name(), "hello");
    assert_eq!(span.get_text(), "Hi");
    section.add_span(Span::Text(span));
    section.on_resize(0, 0, 200, 60);
    let mut list = Vec::new();
    section.render_tick(&mut list);
    assert_eq!(list.len(), 2);
    match &list[1] {
        DrawCommand::Text { text, font, fit, x, y, .. } => {
            assert_eq!(text, "Hi");
            assert_eq!(*font, None);
            // four fifths of 196 pixels, held to 100
            assert_eq!(*fit, 100);
            assert_eq!((*x, *y), (100, 30));
        },
        _ => panic!("no text"),
    }
}

#[test]
fn fitted_font_is_held_between_10_and_20() {
    let mut state = StateProto::new();
    assert_eq!((FONT_MIN, FONT_MAX, FIT_LIMIT), (10, 20, 100));
    for (best, size) in [(5, 10), (9, 10), (10, 10), (15, 15), (20, 20), (21, 20), (2005, 20)] {
        let mut span = TextSpan::new(&mut state, "t", "Hi", 1000, 1000);
        assert_eq!(span.fit_font(best), size);
        assert_eq!(span.font_size(), Some(size));
    }
}

#[test]
fn cached_font_is_kept_until_a_resize() {
    let mut state = StateProto::new();
    let mut span = TextSpan::new(&mut state, "t", "Hi", 1000, 1000);
    span.on_resize(0, 0, 100, 50);
    assert_eq!(span.fit_width(), 80);
    assert_eq!(span.fit_font(13), 13);
    // a second fit is not taken, and setting a text leaves the font alone
    assert_eq!(span.fit_font(19), 13);
    span.set_text("Hi");
    span.set_text("Hi");
    assert_eq!(span.font_size(), Some(13));
    assert_eq!(span.on_resize(0, 0, 100, 50), (0, 0, true));
    assert_eq!(span.font_size(), None);
    assert_eq!(span.rect(), (0, 0, 100, 50));
}

#[test]
fn message_with_a_text_clears_the_font() {
    let mut state = StateProto::new();
    let mut span = TextSpan::new(&mut state, "t", "Hi", 1000, 1000);
    span.dispatch(&Payload::Fit(30));
    assert_eq!(span.font_size(), Some(20));
    span.dispatch(&Payload::Viewport(1, 2, 3, 4));
    assert_eq!(span.font_size(), Some(20));
    assert_eq!(span.get_text(), "Hi");
    span.dispatch(&Payload::Text("Ho".to_string()));
    assert_eq!(span.font_size(), None);
    assert_eq!(span.get_text(), "Ho");
}

#[test]
fn narrow_span_fits_to_four_fifths() {
    let mut state = StateProto::new();
    let mut span = TextSpan::new(&mut state, "t", "Hi", 500, 1000);
    span.on_resize(10, 0, 110, 50);
    assert_eq!(span.rect(), (10, 0, 50, 50));
    assert_eq!(span.fit_width(), 40);
}

#[test]
fn world_span_takes_a_text_and_nothing_else() {
    let mut state = StateProto::new();
    let mut span = WorldSpan::new(&mut state, "w", "", 1000, 500);
    assert_eq!(span.get_name(), "w");
    assert_eq!(span.get_order(), 0);
    assert_eq!(span.on_resize(10, 10, 110, 110), (0, 0, true));
    span.dispatch(&Payload::Fit(12));
    span.dispatch(&Payload::Text("t".to_string()));
    span.set_text("u");
    assert_eq!(span.viewport(), (10, 10, 100, 50));
    let mut due = vec![7];
    span.tick(&mut due);
    assert_eq!(due, vec![7, span.get_id()]);
    let mut list = Vec::new();
    span.render_tick(&mut list);
    assert!(matches!(list[0], DrawCommand::World { x: 10, y: 10, w: 100, h: 50, .. }));
}

#[test]
fn text_span_is_no_world() {
    let mut state = StateProto::new();
    let mut span = Span::Text(TextSpan::new(&mut state, "t", "Hi", 1000, 1000));
    let mut due = Vec::new();
    span.tick(&mut due);
    assert!(due.is_empty());
    assert_eq!(span.get_order(), 0);
    assert_eq!(span.get_name(), "t");
}
