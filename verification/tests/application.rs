use wand::application::{AppError, Application};
use wand::container::{Container, Scrollable};
use wand::content::Content;
use wand::paint::{Color, DrawCommand};
use wand::scene::{CanvasMeta, Scene};
use wand::span::{Payload, Span, TextSpan, WorldSpan};

fn surface(w: u32, h: u32) -> CanvasMeta {
    CanvasMeta { w, h }
}

#[test]
fn new_application_has_the_default_scene_laid_out() {
    let app = Application::starting_at(surface(800, 600), 0);
    assert_eq!(app.scene_count(), 1);
    assert_eq!(app.get_meta(), surface(800, 600));
    assert_eq!(app.get_fps(), 0);
    let scene = app.active_scene().unwrap();
    assert_eq!(scene.get_path(), "");
    assert_eq!(scene.rect(), (20, 20, 760, 560));
    assert_eq!(scene.get_container().edges(), (24, 28, 776, 572));
}

#[test]
fn first_registration_discards_the_default_scene() {
    let mut app = Application::starting_at(surface(800, 600), 0);
    let container = Container::new(0, 0, 0, 0, 0, 0, Scrollable::Flow);
    app.register(Scene::new("home", 0, 0, 0, 0, 0, 0, container));
    assert_eq!(app.scene_count(), 1);
    assert_eq!(app.active_scene().unwrap().get_path(), "home");
    // the new scene is laid out by the next resize only
    assert_eq!(app.active_scene().unwrap().rect(), (0, 0, 0, 0));
    assert_eq!(app.on_resize(800, 600), Ok(()));
    assert_eq!(app.active_scene().unwrap().rect(), (0, 0, 800, 600));
}

#[test]
fn duplicate_path_is_left_out() {
    let mut app = Application::starting_at(surface(800, 600), 0);
    let first = Container::new(0, 0, 0, 0, 0, 0, Scrollable::X);
    app.register(Scene::new("home", 0, 0, 0, 0, 0, 0, first));
    let other = Container::new(0, 0, 0, 0, 0, 0, Scrollable::Y);
    app.register(Scene::new("other", 0, 0, 0, 0, 0, 0, other));
    assert_eq!(app.scene_count(), 2);
    assert_eq!(app.active_scene().unwrap().get_path(), "other");
    let again = Container::new(0, 0, 0, 0, 0, 0, Scrollable::Flow);
    let mut twin = Scene::new("home", 500, 500, 0, 100, 0, 100, again);
    twin.on_resize(&surface(10, 10));
    app.register(twin);
    assert_eq!(app.scene_count(), 2);
    assert_eq!(app.active_scene().unwrap().get_path(), "other");
}

#[test]
fn empty_path_keeps_discarding() {
    let mut app = Application::starting_at(surface(800, 600), 0);
    app.register(Scene::default());
    assert_eq!(app.scene_count(), 1);
    // the scene that took the default's place is not laid out yet
    assert_eq!(app.active_scene().unwrap().rect(), (0, 0, 0, 0));
    let container = Container::new(0, 0, 0, 0, 0, 0, Scrollable::Flow);
    app.register(Scene::new("home", 0, 0, 0, 0, 0, 0, container));
    assert_eq!(app.scene_count(), 1);
    assert_eq!(app.active_scene().unwrap().get_path(), "home");
}

#[test]
fn only_the_active_scene_is_laid_out() {
    let mut app = Application::starting_at(surface(100, 100), 0);
    let a = Container::new(0, 0, 0, 0, 0, 0, Scrollable::Flow);
    app.register(Scene::new("a", 0, 0, 0, 0, 0, 0, a));
    assert_eq!(app.on_resize(100, 100), Ok(()));
    let b = Container::new(0, 0, 0, 0, 0, 0, Scrollable::Flow);
    app.register(Scene::new("b", 0, 0, 0, 0, 0, 0, b));
    assert_eq!(app.on_resize(300, 200), Ok(()));
    assert_eq!(app.get_meta(), surface(300, 200));
    assert_eq!(app.active_scene().unwrap().get_path(), "b");
    assert_eq!(app.active_scene().unwrap().rect(), (0, 0, 300, 200));
}

#[test]
fn render_clears_then_paints_the_active_scene() {
    let mut app = Application::starting_at(surface(400, 300), 0);
    let mut scene = Scene::default();
    let mut section = app.new_section("box", 1000, 1000, 0);
    let text = TextSpan::new(app.get_state_mut(), "label", "Hi", 1000, 1000);
    let world = WorldSpan::new(app.get_state_mut(), "world", "", 1000, 500);
    let (sid, tid, wid) = (section.get_id(), text.get_id(), world.get_id());
    assert_eq!((sid, tid, wid), (0, 1, 2));
    section.add_span(Span::Text(text));
    section.add_span(Span::World(world));
    scene.add_section(section);
    app.register(scene);
    app.on_resize(400, 300).unwrap();
    let list = app.render_tick().unwrap();
    assert_eq!(list.len(), 5);
    assert!(matches!(list[0], DrawCommand::Clear { x: 0, y: 0, w: 400, h: 300 }));
    assert!(matches!(list[1], DrawCommand::Outline { color: Color::Accent, x: 20, y: 20, w: 360, h: 260 }));
    assert!(matches!(list[2], DrawCommand::Outline { color: Color::Accent, x: 24, y: 28, w: 352, h: 244 }));
    match &list[3] {
        DrawCommand::Text { id, text, font, fit, x, y } => {
            assert_eq!(*id, tid);
            assert_eq!(text, "Hi");
            assert_eq!(*font, None);
            assert_eq!(*fit, 100);
            // the span fills (26, 32, 348, 236)
            assert_eq!((*x, *y), (200, 150));
        },
        _ => panic!("no text"),
    }
    assert!(matches!(list[4], DrawCommand::World { id: 2, x: 26, y: 32, w: 348, h: 118 }));
    assert_eq!(Color::Accent.css(), "#07ce88");
    assert_eq!(Color::White.css(), "white");
    // the short name of a render pass draws the same
    assert_eq!(app.draw().unwrap().len(), 5);
}

#[test]
fn mouse_move_goes_into_the_active_scene_only() {
    let mut app = Application::starting_at(surface(400, 300), 0);
    let mut scene = Scene::default();
    let x = app.new_section("sectionX", 500, 500, 0);
    let id = x.get_id();
    scene.add_section(x);
    app.register(scene);
    app.on_resize(400, 300).unwrap();
    match app.active_scene().unwrap().get_container().item(0) {
        Some(Content::Section { section }) => assert_eq!(section.rect(), (24, 28, 176, 122)),
        _ => panic!("no section"),
    }
    let hit = app.on_mouse_move(60, 60).unwrap();
    assert_eq!(hit.trail, vec![id]);
    assert!(!hit.consumed);
    let miss = app.on_mouse_move(10, 10).unwrap();
    assert!(miss.trail.is_empty());
    // inside the scene and its container, outside the section
    let beside = app.on_mouse_move(300, 200).unwrap();
    assert!(beside.trail.is_empty());
}

#[test]
fn frames_are_counted() {
    let mut app = Application::starting_at(surface(100, 100), 0);
    let mut now: u128 = 0;
    for _ in 0..9 {
        now += 10;
        assert!(app.tick_at(now).is_ok());
        assert_eq!(app.get_fps(), 0);
    }
    now += 10;
    let frame = app.tick_at(now).unwrap();
    assert_eq!(app.get_fps(), 100);
    assert_eq!(frame.list.len(), 2);
    assert!(frame.due.is_empty());
}

#[test]
fn every_scene_is_updated_on_a_frame() {
    let mut app = Application::starting_at(surface(100, 100), 0);
    let mut first = Scene::new("first", 0, 0, 0, 0, 0, 0, Container::new(0, 0, 0, 0, 0, 0, Scrollable::Flow));
    let mut inner = app.new_section("inner", 1000, 1000, 0);
    let a = WorldSpan::new(app.get_state_mut(), "a", "", 1000, 1000);
    let t = TextSpan::new(app.get_state_mut(), "t", "", 1000, 1000);
    let b = WorldSpan::new(app.get_state_mut(), "b", "", 1000, 1000);
    let (ia, ib) = (a.get_id(), b.get_id());
    inner.add_span(Span::World(a));
    first.add_section(inner);
    first.add_span(Span::Text(t));
    let mut second = Scene::new("second", 0, 0, 0, 0, 0, 0, Container::new(0, 0, 0, 0, 0, 0, Scrollable::Flow));
    second.add_span(Span::World(b));
    app.register(first);
    app.register(second);
    let frame = app.tick_at(1).unwrap();
    // the worlds of both scenes are due, the inactive scene's first
    assert_eq!(frame.due, vec![ia, ib]);
    // only the active scene is drawn: cleared surface, outline, one world
    assert_eq!(frame.list.len(), 3);
    assert!(matches!(frame.list[2], DrawCommand::World { id, .. } if id == ib));
}

#[test]
fn span_is_told_by_identifier() {
    let mut app = Application::starting_at(surface(400, 300), 0);
    let mut scene = Scene::default();
    let label = TextSpan::new(app.get_state_mut(), "label", "Hi", 1000, 1000);
    let id = label.get_id();
    scene.add_span(Span::Text(label));
    app.register(scene);
    app.dispatch(id, &Payload::Fit(17));
    app.dispatch(id + 1, &Payload::Fit(12));
    let list = app.render_tick().unwrap();
    assert!(matches!(&list[2], DrawCommand::Text { font: Some(17), .. }));
}

#[test]
fn keys_reach_the_buffer() {
    let mut app = Application::starting_at(surface(100, 100), 0);
    app.on_keydown("A");
    app.on_keyup("A");
    assert!(app.keydown("A"));
    assert!(!app.keydown("A"));
}

#[test]
fn span_is_told_by_name() {
    let mut app = Application::starting_at(surface(400, 300), 0);
    let mut scene = Scene::default();
    let mut section = app.new_section("box", 1000, 1000, 0);
    let cursor = TextSpan::new(app.get_state_mut(), "cursor", "Cursor:(N/A)", 1000, 1000);
    let id = cursor.get_id();
    section.register_span(app.get_state_mut(), Span::Text(cursor));
    scene.add_section(section);
    app.register(scene);
    app.on_resize(400, 300).unwrap();
    assert_eq!(app.get_state().fetch_span("cursor"), Some(id));
    assert!(app.dispatch_span("cursor", &Payload::Fit(3)));
    assert!(app.dispatch_span("cursor", &Payload::Viewport(0, 0, 1, 1)));
    let list = app.render_tick().unwrap();
    assert!(matches!(&list[3], DrawCommand::Text { font: Some(10), text, .. } if text == "Cursor:(N/A)"));
    assert!(app.dispatch_span("cursor", &Payload::Text("Cursor: x: 1, y: 2".to_string())));
    let list = app.render_tick().unwrap();
    assert!(matches!(&list[3], DrawCommand::Text { font: None, text, .. } if text == "Cursor: x: 1, y: 2"));
    assert!(!app.dispatch_span("nobody", &Payload::Fit(3)));
    app.get_state_mut().release(id);
    assert_eq!(app.get_state().fetch_span("cursor"), None);
    assert!(!app.dispatch_span("cursor", &Payload::Fit(3)));
}

#[test]
fn error_names_the_missing_scene() {
    assert_eq!(AppError::NoActiveScene, AppError::NoActiveScene);
}

#[test]
fn nodes_of_a_scene_that_is_left_out_are_gone() {
    let mut app = Application::starting_at(surface(800, 600), 0);
    let mut home = Scene::new("home", 0, 0, 0, 0, 0, 0, Container::new(0, 0, 0, 0, 0, 0, Scrollable::Flow));
    let kept = app.new_section("kept", 1000, 1000, 0);
    let kept_id = kept.get_id();
    home.register_section(app.get_state_mut(), kept);
    app.register(home);
    let mut twin = Scene::new("home", 0, 0, 0, 0, 0, 0, Container::new(0, 0, 0, 0, 0, 0, Scrollable::Flow));
    let mut lost = app.new_section("lost", 1000, 1000, 0);
    let label = TextSpan::new(app.get_state_mut(), "label", "Hi", 1000, 1000);
    lost.register_span(app.get_state_mut(), Span::Text(label));
    twin.register_section(app.get_state_mut(), lost);
    assert!(app.get_state().fetch_section("lost").is_some());
    assert!(app.get_state().fetch_span("label").is_some());
    app.register(twin);
    assert_eq!(app.scene_count(), 1);
    assert_eq!(app.get_state().fetch_section("lost"), None);
    assert_eq!(app.get_state().fetch_span("label"), None);
    assert_eq!(app.get_state().fetch_section("kept"), Some(kept_id));
}

#[test]
fn nodes_of_a_discarded_scene_are_gone() {
    let mut app = Application::starting_at(surface(800, 600), 0);
    let mut nameless = Scene::default();
    let first = app.new_section("first", 1000, 1000, 0);
    nameless.register_section(app.get_state_mut(), first);
    app.register(nameless);
    assert!(app.get_state().fetch_section("first").is_some());
    // the active path is still empty, so the next registration discards the scene
    let home = Scene::new("home", 0, 0, 0, 0, 0, 0, Container::new(0, 0, 0, 0, 0, 0, Scrollable::Flow));
    app.register(home);
    assert_eq!(app.scene_count(), 1);
    assert_eq!(app.get_state().fetch_section("first"), None);
}

#[test]
fn frame_that_cannot_be_counted_is_told_apart() {
    let mut app = Application::starting_at(surface(100, 100), 100);
    for now in 101..110 {
        assert!(app.accepts(now));
        app.tick_at(now).unwrap();
    }
    // the tenth frame closes the window: it must come after the window began
    assert!(!app.accepts(100));
    assert!(app.accepts(110));
    app.tick_at(110).unwrap();
    assert_eq!(app.get_fps(), 1000);
}

#[test]
fn axis_is_read_from_the_buffer() {
    let mut app = Application::starting_at(surface(100, 100), 0);
    app.on_keydown("ArrowRight");
    assert_eq!(app.axis("ArrowRight", "ArrowLeft"), 1);
    assert_eq!(app.axis("ArrowLeft", "ArrowRight"), -1);
    assert!(!app.get_input().keyup("ArrowRight"));
}
