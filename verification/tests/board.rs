use relationship_simulator::board::{
    apply_delta, boyfriend_event, girlfriend_turn, monitor_step, next_random, other_hot_guy_turn,
    Boyfriend, Girlfriend, Led, MonitorAction, OtherHotGuy, INITIAL_HEALTH, MAX_WAIT_MS,
    MIN_WAIT_MS,
};

#[test]
fn next_random_is_min_plus_remainder() {
    assert_eq!(next_random([0, 0, 0, 0], 0, 3), 0);
    assert_eq!(next_random([5, 0, 0, 0], 0, 3), 2);
    assert_eq!(next_random([1, 1, 0, 0], 0, 3), 257 % 3);
    assert_eq!(next_random([0xff, 0xff, 0xff, 0xff], 0, 3), (u32::MAX % 3));
    assert_eq!(next_random([0x78, 0x56, 0x34, 0x12], 200, 2000), 200 + 0x1234_5678 % 1800);
    assert_eq!(next_random([0xff, 0xff, 0xff, 0xff], 200, 2000), 200 + u32::MAX % 1800);
}

#[test]
fn next_random_stays_in_range() {
    for b in 0..=255u8 {
        let bytes = [b, b.wrapping_mul(7), b.wrapping_add(13), 255 - b];
        let v = next_random(bytes, MIN_WAIT_MS, MAX_WAIT_MS);
        assert!(v >= MIN_WAIT_MS && v < MAX_WAIT_MS);
        assert_eq!(v, MIN_WAIT_MS + u32::from_le_bytes(bytes) % (MAX_WAIT_MS - MIN_WAIT_MS));
    }
}

#[test]
fn board_apply_delta_reports_change() {
    let mut health = INITIAL_HEALTH;
    assert_eq!(health, 20);
    let line = apply_delta(&mut health, 10, "Boyfriend", "actually did something nice");
    assert_eq!(health, 30);
    assert_eq!(line, "[Boyfriend] actually did something nice -> health = 30");
    let line = apply_delta(&mut health, -100, "Girlfriend", "went completely cold on NYE");
    assert_eq!(health, 0);
    assert_eq!(line, "[Girlfriend] went completely cold on NYE -> health = 0");
    let mut health: i8 = 95;
    apply_delta(&mut health, 10, "Boyfriend", "actually did something nice");
    assert_eq!(health, 100);
    let line = apply_delta(&mut health, 30, "Boyfriend", "x");
    assert_eq!(health, 100);
    assert_eq!(line, "[Boyfriend] x -> health = 100");
    let mut health: i8 = i8::MIN;
    apply_delta(&mut health, i8::MIN, "Nobody", "x");
    assert_eq!(health, 0);
}

#[test]
fn board_events() {
    assert_eq!(Boyfriend::actually_did_something_nice(), (10, "actually did something nice"));
    assert_eq!(
        Boyfriend::used_word_optimised_too_often(),
        (-3, "used the word 'optimized' unprompted")
    );
    assert_eq!(
        Boyfriend::explained_something_nobody_asked_about(),
        (-5, "explained something nobody asked about")
    );
    assert_eq!(Girlfriend::planned_a_nice_evening(), (6, "planned a nice evening"));
    assert_eq!(Girlfriend::gave_the_silent_treatment(), (-4, "gave the silent treatment"));
    assert_eq!(Girlfriend::went_completely_cold_on_nye(), (-10, "went completely cold on NYE"));
    assert_eq!(OtherHotGuy::liked_a_story(), (-2, "liked a story"));
    assert_eq!(OtherHotGuy::showed_up_at_the_gym(), (-2, "showed up at the gym"));
}

#[test]
fn button_press_turn() {
    let mut health = INITIAL_HEALTH;
    let turn = boyfriend_event(&mut health, [2, 0, 0, 0]);
    assert_eq!(health, 30);
    assert_eq!(turn.change_line, "[Boyfriend] actually did something nice -> health = 30");
    assert_eq!(turn.event_line, "[Boyfriend Button] actually did something nice");
    assert_eq!(turn.led, Led::Boyfriend);
    assert_eq!(turn.flash_ms, 80);
    assert_eq!(turn.pause_ms, None);
    let turn = boyfriend_event(&mut health, [4, 0, 0, 0]);
    assert_eq!(health, 25);
    assert_eq!(turn.event_line, "[Boyfriend Button] explained something nobody asked about");
}

#[test]
fn girlfriend_turn_on_board() {
    let mut health: i8 = 5;
    let turn = girlfriend_turn(&mut health, [2, 0, 0, 0], [0, 0, 0, 0]);
    assert_eq!(health, 0);
    assert_eq!(turn.pause_ms, Some(200));
    assert_eq!(turn.change_line, "[Girlfriend] went completely cold on NYE -> health = 0");
    assert_eq!(turn.event_line, "[Girlfriend] went completely cold on NYE");
    assert_eq!(turn.led, Led::Girlfriend);
    assert_eq!(turn.flash_ms, 150);
    let turn = girlfriend_turn(&mut health, [0, 0, 0, 0], [0x78, 0x56, 0x34, 0x12]);
    assert_eq!(health, 6);
    assert_eq!(turn.pause_ms, Some(200 + 0x1234_5678 % 1800));
    assert_eq!(turn.event_line, "[Girlfriend] planned a nice evening");
}

#[test]
fn other_hot_guy_turn_on_board() {
    let mut health: i8 = 1;
    let turn = other_hot_guy_turn(&mut health, [1, 0, 0, 0], [0xff, 0xff, 0xff, 0xff]);
    assert_eq!(health, 0);
    assert_eq!(turn.pause_ms, Some(200 + u32::MAX % 1800));
    assert_eq!(turn.change_line, "[Other Hot Guy] showed up at the gym -> health = 0");
    assert_eq!(turn.event_line, "[Other Hot Guy] showed up at the gym");
    assert_eq!(turn.led, Led::OtherHotGuy);
    assert_eq!(turn.flash_ms, 150);
}

#[test]
fn automatic_turns_pause_between_200_and_2000_ms() {
    for b in 0..=255u8 {
        let mut health: i8 = 50;
        let wait = [b, b.wrapping_mul(31), 255 - b, b / 3];
        let turn = girlfriend_turn(&mut health, [b, 0, 0, 0], wait);
        let pause = turn.pause_ms.unwrap();
        assert!((200..2000).contains(&pause));
        assert!(turn.flash_ms + pause as u64 >= 350);
        let turn = other_hot_guy_turn(&mut health, [b, 0, 0, 0], wait);
        assert_eq!(turn.pause_ms, Some(pause));
    }
}

#[test]
fn monitor_waits_then_terminates() {
    assert_eq!(monitor_step(20), MonitorAction::Wait { wait_ms: 100 });
    assert_eq!(monitor_step(1), MonitorAction::Wait { wait_ms: 100 });
    assert_eq!(
        monitor_step(0),
        MonitorAction::Terminate { led: Led::Girlfriend, flashes: 20, flash_ms: 20, gap_ms: 40 }
    );
    assert_eq!(
        monitor_step(-3),
        MonitorAction::Terminate { led: Led::Girlfriend, flashes: 20, flash_ms: 20, gap_ms: 40 }
    );
}
