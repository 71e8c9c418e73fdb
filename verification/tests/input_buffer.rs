use wand::input::InputProto;

#[test]
fn fresh_buffer_sees_nothing() {
    let mut input = InputProto::new();
    assert!(!input.keydown("A"));
    assert!(!input.keyup("A"));
    assert_eq!(input.axis("D", "A"), 0);
}

#[test]
fn held_key_is_seen_on_every_poll() {
    let mut input = InputProto::new();
    input.on_keydown("A");
    assert!(input.keydown("A"));
    assert!(input.keydown("A"));
    assert!(!input.keydown("B"));
}

#[test]
fn key_latch_is_one_shot() {
    let mut input = InputProto::new();
    input.on_keydown("A");
    input.on_keyup("A");
    assert!(input.keydown("A"));
    assert!(!input.keydown("A"));
}

#[test]
fn release_without_press_latches_nothing() {
    let mut input = InputProto::new();
    input.on_keyup("A");
    assert!(!input.keydown("A"));
}

#[test]
fn repeated_press_is_released_by_one_release() {
    let mut input = InputProto::new();
    input.on_keydown("A");
    input.on_keydown("A");
    input.on_keyup("A");
    assert!(input.keydown("A"));
    assert!(!input.keydown("A"));
}

#[test]
fn held_key_keeps_an_earlier_latch() {
    let mut input = InputProto::new();
    input.on_keydown("A");
    input.on_keyup("A");
    input.on_keydown("A");
    assert!(input.keydown("A"));
    input.on_keyup("A");
    assert!(input.keydown("A"));
    assert!(!input.keydown("A"));
}

#[test]
fn axis_reads_both_keys() {
    let mut input = InputProto::new();
    input.on_keydown("D");
    assert_eq!(input.axis("D", "A"), 1);
    input.on_keydown("A");
    assert_eq!(input.axis("D", "A"), 0);
    input.on_keyup("D");
    // the release of D is latched: one more poll still sees it
    assert_eq!(input.axis("D", "A"), 0);
    assert_eq!(input.axis("D", "A"), -1);
}

#[test]
fn axis_of_one_latched_key_against_itself() {
    let mut input = InputProto::new();
    input.on_keydown("A");
    input.on_keyup("A");
    // the first poll lets the latch go, so the second poll of the same key misses it
    assert_eq!(input.axis("A", "A"), 1);
    assert_eq!(input.axis("A", "A"), 0);
}

#[test]
fn keyup_set_is_never_filled() {
    let mut input = InputProto::new();
    input.on_keydown("A");
    input.on_keyup("A");
    assert!(!input.keyup("A"));
}
