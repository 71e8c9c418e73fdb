use wand::counter::FpsCounterProto;

#[test]
fn fps_is_zero_before_the_first_window_closes() {
    let mut counter = FpsCounterProto::starting_at(10, 0);
    assert_eq!(counter.get(), 0);
    let mut now: u128 = 0;
    for _ in 0..9 {
        now += 10;
        assert!(counter.accepts(now));
        counter.tick_at(now);
        assert_eq!(counter.get(), 0);
    }
}

#[test]
fn ten_ticks_ten_ms_apart_give_100_fps() {
    let mut counter = FpsCounterProto::starting_at(10, 0);
    let mut now: u128 = 0;
    for _ in 0..10 {
        now += 10;
        counter.tick_at(now);
    }
    assert_eq!(counter.get(), 100);
}

#[test]
fn rate_is_kept_until_the_next_window_closes() {
    let mut counter = FpsCounterProto::starting_at(2, 1000);
    counter.tick_at(1010);
    counter.tick_at(1020);
    assert_eq!(counter.get(), 100);
    counter.tick_at(1520);
    assert_eq!(counter.get(), 100);
    counter.tick_at(2020);
    assert_eq!(counter.get(), 2);
}

#[test]
fn rate_rounds_down() {
    let mut counter = FpsCounterProto::starting_at(3, 0);
    counter.tick_at(1);
    counter.tick_at(2);
    counter.tick_at(7);
    // 3000 / 7
    assert_eq!(counter.get(), 428);
}

#[test]
fn closing_tick_needs_a_later_time() {
    let mut counter = FpsCounterProto::starting_at(1, 50);
    assert!(!counter.accepts(50));
    assert!(!counter.accepts(49));
    assert!(counter.accepts(51));
    counter.tick_at(51);
    assert_eq!(counter.get(), 1000);
}

#[test]
fn window_of_zero_ticks_closes_on_every_tick() {
    let mut counter = FpsCounterProto::starting_at(0, 0);
    assert!(!counter.accepts(0));
    counter.tick_at(5);
    assert_eq!(counter.get(), 0);
}

#[test]
fn open_window_accepts_any_time() {
    let counter = FpsCounterProto::starting_at(10, 500);
    assert!(counter.accepts(0));
}
