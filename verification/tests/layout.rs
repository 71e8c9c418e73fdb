use wand::component::Event;
use wand::container::{advance, Container, Scrollable};
use wand::paint::{Color, DrawCommand};
use wand::traits::DrawOutline;
use wand::content::Content;
use wand::registry::StateProto;
use wand::scene::{CanvasMeta, Scene};
use wand::section::Section;
use wand::span::{Span, TextSpan, WorldSpan};

fn section_rect(container: &Container, i: usize) -> (i64, i64, i64, i64) {
    match container.item(i) {
        Some(Content::Section { section }) => section.rect(),
        _ => panic!("no section at {}", i),
    }
}

#[test]
fn two_section_flow() {
    let mut state = StateProto::new();
    let mut scene = Scene::default();
    let a = Section::new(&mut state, "sectionA", 1000, 500, 20);
    let b = Section::new(&mut state, "sectionB", 1000, 500, 20);
    scene.register_section(&mut state, a);
    scene.register_section(&mut state, b);
    scene.on_resize(&CanvasMeta { w: 800, h: 600 });
    // margins: a fifth of each side, held to 20 pixels
    assert_eq!(scene.rect(), (20, 20, 760, 560));
    // the scene's container pads by 4 across and 8 down
    assert_eq!(scene.get_container().edges(), (24, 28, 776, 572));
    assert_eq!(section_rect(scene.get_container(), 0), (24, 28, 752, 272));
    // the first section fills the row, so the second starts the next row
    // and takes half of what is left below it
    assert_eq!(section_rect(scene.get_container(), 1), (24, 300, 752, 136));
    assert_eq!(scene.get_container().cursor(), (24, 436));
}

#[test]
fn layout_is_the_same_when_repeated() {
    let mut state = StateProto::new();
    let mut scene = Scene::default();
    let mut a = Section::new(&mut state, "a", 600, 500, 20);
    let inner = Section::new(&mut state, "inner", 500, 500, 0);
    a.add_section(inner);
    let b = Section::new(&mut state, "b", 400, 500, 20);
    scene.add_section(a);
    scene.add_section(b);
    let meta = CanvasMeta { w: 640, h: 480 };
    scene.on_resize(&meta);
    let first = (
        scene.rect(),
        scene.get_container().edges(),
        scene.get_container().cursor(),
        section_rect(scene.get_container(), 0),
        section_rect(scene.get_container(), 1),
    );
    scene.on_resize(&CanvasMeta { w: 100, h: 100 });
    scene.on_resize(&meta);
    scene.on_resize(&meta);
    let second = (
        scene.rect(),
        scene.get_container().edges(),
        scene.get_container().cursor(),
        section_rect(scene.get_container(), 0),
        section_rect(scene.get_container(), 1),
    );
    assert_eq!(first, second);
    assert_eq!(first.3, (24, 28, 355, 212));
    assert_eq!(first.4, (379, 28, 94, 212));
}

#[test]
fn sections_stay_inside_their_container() {
    let mut state = StateProto::new();
    let mut outer = Section::new(&mut state, "outer", 1000, 1000, 0);
    for name in ["a", "b", "c", "d", "e"] {
        let s = Section::new(&mut state, name, 400, 300, 0);
        outer.add_section(s);
    }
    outer.on_resize(0, 0, 300, 200);
    let (left, top, right, bottom) = outer.get_container().edges();
    assert_eq!((left, top, right, bottom), (2, 4, 298, 196));
    for i in 0..5 {
        let (x, y, w, h) = section_rect(outer.get_container(), i);
        assert!(w >= 0 && h >= 0);
        assert!(left <= x && x + w <= right);
        assert!(top <= y && y + h <= bottom);
    }
}

#[test]
fn section_reply_is_its_size() {
    let mut state = StateProto::new();
    let mut s = Section::new(&mut state, "s", 1000, 1000, 0);
    assert_eq!(s.on_resize(50, 50, 150, 150), (100, 100, true));
    assert_eq!(s.rect(), (50, 50, 100, 100));
    assert_eq!(s.get_container().edges(), (52, 54, 148, 146));
}

#[test]
fn fractions_above_the_whole_count_as_the_whole() {
    let mut state = StateProto::new();
    let mut s = Section::new(&mut state, "s", 5000, 1001, 0);
    assert_eq!(s.on_resize(0, 0, 100, 100), (100, 100, true));
}

#[test]
fn spans_ask_for_no_room() {
    let mut state = StateProto::new();
    let mut section = Section::new(&mut state, "s", 1000, 1000, 0);
    let one = TextSpan::new(&mut state, "one", "1", 1000, 1000);
    let two = WorldSpan::new(&mut state, "two", "2", 500, 500);
    section.add_span(Span::Text(one));
    section.add_span(Span::World(two));
    section.on_resize(0, 0, 200, 60);
    // both spans are placed at the same cursor
    match section.get_container().item(0) {
        Some(Content::Span { span: Span::Text(t) }) => assert_eq!(t.rect(), (2, 4, 196, 52)),
        _ => panic!("no text span"),
    }
    match section.get_container().item(1) {
        Some(Content::Span { span: Span::World(w) }) => assert_eq!(w.viewport(), (2, 4, 98, 26)),
        _ => panic!("no world span"),
    }
    assert_eq!(section.get_container().cursor(), (2, 4));
}

#[test]
fn zero_size_parent_without_padding_gives_zero_rects() {
    let mut state = StateProto::new();
    let mut container = Container::new(0, 0, 0, 0, 0, 0, Scrollable::Flow);
    for name in ["a", "b", "c"] {
        let inner = Container::new(0, 0, 0, 0, 0, 0, Scrollable::Flow);
        let s = Section::new_with_container(&mut state, name, 1000, 1000, inner);
        container.register(Content::Section { section: s });
    }
    container.on_resize(7, 9, 0, 0);
    assert_eq!(container.edges(), (7, 9, 7, 9));
    assert_eq!(container.len(), 3);
    for i in 0..3 {
        assert_eq!(section_rect(&container, i), (7, 9, 0, 0));
    }
}

#[test]
fn zero_size_parent_with_padding_turns_inside_out() {
    let mut state = StateProto::new();
    let mut s = Section::new(&mut state, "s", 1000, 1000, 0);
    let inner = Section::new(&mut state, "inner", 1000, 1000, 0);
    s.add_section(inner);
    s.on_resize(10, 10, 10, 10);
    assert_eq!(s.rect(), (10, 10, 0, 0));
    // 2 pixels across and 4 down are taken from a rectangle that has none
    assert_eq!(s.get_container().edges(), (12, 14, 8, 6));
    assert_eq!(section_rect(s.get_container(), 0), (12, 14, -4, -8));
}

#[test]
fn cursor_moves_by_the_wrap_policy() {
    // along a row: the column is reset only at the bottom edge
    assert_eq!(advance(Scrollable::X, 10, 20, 5, 7, 0, 0, 100, 100), (15, 20));
    assert_eq!(advance(Scrollable::X, 10, 100, 5, 7, 0, 3, 100, 100), (15, 3));
    // down a column: the row is reset only at the right edge
    assert_eq!(advance(Scrollable::Y, 10, 20, 5, 7, 0, 0, 100, 100), (10, 27));
    assert_eq!(advance(Scrollable::Y, 100, 20, 5, 7, 4, 0, 100, 100), (4, 27));
    // flowing: a new row starts at the right edge
    assert_eq!(advance(Scrollable::Flow, 10, 20, 5, 7, 0, 0, 100, 100), (15, 20));
    assert_eq!(advance(Scrollable::Flow, 95, 20, 5, 7, 1, 0, 100, 100), (1, 27));
}

#[test]
fn column_container_stacks_sections() {
    let mut state = StateProto::new();
    let mut container = Container::new(0, 0, 0, 0, 0, 0, Scrollable::Y);
    for name in ["a", "b"] {
        let s = Section::new(&mut state, name, 1000, 500, 0);
        container.register(Content::Section { section: s });
    }
    container.on_resize(0, 0, 100, 80);
    assert_eq!(section_rect(&container, 0), (0, 0, 100, 40));
    assert_eq!(section_rect(&container, 1), (0, 40, 100, 20));
    assert_eq!(container.cursor(), (0, 60));
    container.update_cursor(0, 5);
    assert_eq!(container.cursor(), (0, 65));
}

#[test]
fn scene_margins_cross_over() {
    // the width loses the margin that was taken from the height, and the
    // height the one taken from the width
    let container = Container::new(0, 0, 0, 0, 0, 0, Scrollable::Flow);
    let mut scene = Scene::new("wide", 100, 100, 0, 1000, 0, 1000, container);
    scene.on_resize(&CanvasMeta { w: 1000, h: 200 });
    assert_eq!(scene.get_path(), "wide");
    // margin across: 100, margin down: 20
    assert_eq!(scene.rect(), (100, 20, 960, 0));
}

#[test]
fn mouse_move_reaches_the_section_under_it() {
    let mut state = StateProto::new();
    let mut x = Section::new(&mut state, "sectionX", 1000, 1000, 0);
    x.on_resize(50, 50, 150, 150);
    assert_eq!(x.rect(), (50, 50, 100, 100));
    let mut hit = Event::mouse_move(60, 60);
    x.dispatch_event(&mut hit);
    assert_eq!(hit.trail, vec![x.get_id()]);
    assert!(!hit.consumed);
    let mut miss = Event::mouse_move(10, 10);
    x.dispatch_event(&mut miss);
    assert!(miss.trail.is_empty());
}

#[test]
fn mouse_move_visits_inner_sections_first() {
    let mut state = StateProto::new();
    let mut outer = Section::new(&mut state, "outer", 1000, 1000, 0);
    let left = Section::new(&mut state, "left", 500, 1000, 0);
    let right = Section::new(&mut state, "right", 500, 1000, 0);
    let (o, l, r) = (outer.get_id(), left.get_id(), right.get_id());
    outer.add_section(left);
    outer.add_section(right);
    outer.on_resize(0, 0, 204, 108);
    assert_eq!(section_rect(outer.get_container(), 0), (2, 4, 100, 100));
    assert_eq!(section_rect(outer.get_container(), 1), (102, 4, 50, 100));
    let mut ev = Event::mouse_move(50, 50);
    outer.dispatch_event(&mut ev);
    assert_eq!(ev.trail, vec![l, o]);
    let mut ev = Event::mouse_move(120, 50);
    outer.dispatch_event(&mut ev);
    assert_eq!(ev.trail, vec![r, o]);
    // on the padding: inside the section, outside its container
    let mut ev = Event::mouse_move(1, 50);
    outer.dispatch_event(&mut ev);
    assert_eq!(ev.trail, vec![o]);
    // on the shared edge of the two inner sections: strictly inside neither
    let mut ev = Event::mouse_move(102, 50);
    outer.dispatch_event(&mut ev);
    assert_eq!(ev.trail, vec![o]);
}

#[test]
fn containers_are_outlined_on_request() {
    let mut state = StateProto::new();
    let mut scene = Scene::default();
    let mut section = Section::new(&mut state, "s", 1000, 1000, 0);
    section.add_span(Span::Text(TextSpan::new(&mut state, "t", "Hi", 1000, 1000)));
    section.add_span(Span::World(WorldSpan::new(&mut state, "w", "", 1000, 1000)));
    scene.add_section(section);
    scene.on_resize(&CanvasMeta { w: 400, h: 300 });
    let mut list = Vec::new();
    scene.draw(&mut list);
    // the scene's container, the section, the section's container, the text
    assert_eq!(list.len(), 4);
    assert!(matches!(list[0], DrawCommand::Outline { color: Color::White, x: 24, y: 28, w: 352, h: 244 }));
    assert!(matches!(list[1], DrawCommand::Outline { color: Color::Accent, x: 24, y: 28, w: 352, h: 244 }));
    assert!(matches!(list[2], DrawCommand::Outline { color: Color::White, x: 26, y: 32, w: 348, h: 236 }));
    assert!(matches!(list[3], DrawCommand::Text { x: 200, y: 150, .. }));
    let mut own = Vec::new();
    scene.draw_outline(&mut own);
    assert!(matches!(own[0], DrawCommand::Outline { color: Color::Accent, x: 20, y: 20, w: 360, h: 260 }));
}

#[test]
fn logical_update_names_the_worlds() {
    let mut state = StateProto::new();
    let mut section = Section::new(&mut state, "s", 1000, 1000, 0);
    let w = WorldSpan::new(&mut state, "w", "", 1000, 1000);
    let id = w.get_id();
    section.add_span(Span::Text(TextSpan::new(&mut state, "t", "Hi", 1000, 1000)));
    section.add_span(Span::World(w));
    section.on_resize(0, 0, 100, 100);
    let before = section.rect();
    let mut due = Vec::new();
    section.tick(&mut due);
    assert_eq!(due, vec![id]);
    assert_eq!(section.rect(), before);
}

#[test]
fn item_reports_the_order_of_its_section() {
    let mut state = StateProto::new();
    let mut section = Section::new(&mut state, "s", 1000, 1000, 0);
    assert_eq!(section.get_order(), 0);
    section.set_order(3);
    assert_eq!(section.get_order(), 3);
    assert_eq!(section.rect(), (0, 0, 0, 0));
    let item = Content::Section { section };
    assert_eq!(item.get_order_value(), 3);
    let leaf = Content::Span { span: Span::Text(TextSpan::new(&mut state, "t", "Hi", 1000, 1000)) };
    assert_eq!(leaf.get_order_value(), 0);
}

#[test]
fn items_are_drawn_as_added_whatever_their_order() {
    let mut state = StateProto::new();
    let mut outer = Section::new(&mut state, "outer", 1000, 1000, 0);
    let mut late = Section::new(&mut state, "late", 500, 1000, 0);
    late.set_order(9);
    let early = Section::new(&mut state, "early", 500, 1000, 0);
    outer.add_section(late);
    outer.add_section(early);
    outer.on_resize(0, 0, 204, 108);
    let mut list = Vec::new();
    outer.render_tick(&mut list);
    assert_eq!(list.len(), 3);
    assert!(matches!(list[1], DrawCommand::Outline { x: 2, y: 4, w: 100, h: 100, .. }));
    assert!(matches!(list[2], DrawCommand::Outline { x: 102, y: 4, w: 50, h: 100, .. }));
    assert_eq!(outer.get_container().item(0).map(|c| c.get_order_value()), Some(9));
    assert_eq!(outer.get_container().item(1).map(|c| c.get_order_value()), Some(0));
}
