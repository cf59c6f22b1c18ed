use shaded::snapshot::push_decimal;
use shaded::{next_turn, parse_command, Command, Output, ShadeState, Turn, PRESS_TIME};
use std::time::Instant;

#[test]
fn the_three_commands_are_recognised() {
    assert_eq!(parse_command(b"up\n"), Command::Up);
    assert_eq!(parse_command(b"down\n"), Command::Down);
    assert_eq!(parse_command(b"stop\n"), Command::Stop);
    assert_eq!(parse_command("up\n".as_bytes()), Command::Up);
}

#[test]
fn every_other_line_is_a_query() {
    for line in [
        "", "\n", "up", "down", "stop", "UP\n", "Up\n", "up\r\n", " up\n", "up \n", "up\n\n",
        "upp\n", "dowm\n", "stap\n", "status\n", "up\ndown\n", "stop\nstop\n",
    ] {
        assert_eq!(parse_command(line.as_bytes()), Command::Query, "{:?}", line);
    }
    assert_eq!(parse_command(&[0xff, 0xfe, 0x0a]), Command::Query);
}

#[test]
fn decimal_text_of_numbers() {
    for n in [0u16, 1, 9, 10, 11, 99, 100, 101, 1000, 9999, 10000, 32767, 49150, 65534, 65535] {
        let mut text = String::from("x=");
        push_decimal(&mut text, n);
        assert_eq!(text, format!("x={}", n));
    }
}

#[test]
fn report_of_a_fresh_estimator() {
    let state = ShadeState::default();
    assert_eq!(
        state.json(),
        "{\"state\": \"stopped\",\"max_pos\":65535,\"min_pos\":0,\"probably\":32767}"
    );
}

#[test]
fn report_while_rising() {
    let mut state = ShadeState::default();
    state.move_up();
    state.reconcile(8_394_000, Instant::now());
    assert_eq!(
        state.json(),
        "{\"state\": \"up\",\"max_pos\":65535,\"min_pos\":32767,\"probably\":49150}"
    );
}

#[test]
fn report_while_falling_and_at_the_bottom() {
    let mut state = ShadeState::default();
    state.move_down();
    state.reconcile(8_359_000, Instant::now());
    assert_eq!(
        state.json(),
        "{\"state\": \"down\",\"max_pos\":32768,\"min_pos\":0,\"probably\":16384}"
    );
    state.reconcile(16_718_000, Instant::now());
    assert_eq!(
        state.json(),
        "{\"state\": \"stopped\",\"max_pos\":0,\"min_pos\":0,\"probably\":0}"
    );
}

#[test]
fn movement_names() {
    let mut state = ShadeState::default();
    assert_eq!(state.movement().name(), "stopped");
    state.move_up();
    assert_eq!(state.movement().name(), "up");
    state.move_down();
    assert_eq!(state.movement().name(), "down");
}

#[test]
fn raising_and_lowering_always_pulse() {
    let mut state = ShadeState::default();
    assert_eq!(state.plan(Command::Up), Some(Output::Raise));
    assert_eq!(state.movement().name(), "stopped");
    assert_eq!(state.commit(Output::Raise, true), PRESS_TIME);
    assert_eq!(state.movement().name(), "up");
    assert_eq!(state.plan(Command::Down), Some(Output::Lower));
    assert_eq!(state.movement().name(), "up");
    assert_eq!(state.commit(Output::Lower, true), 100);
    assert_eq!(state.movement().name(), "down");
    assert!(state.min_pos() <= state.max_pos());
}

#[test]
fn stopping_a_stopped_shade_pulses_nothing() {
    let mut state = ShadeState::default();
    assert_eq!(state.plan(Command::Stop), None);
    assert_eq!((state.min_pos(), state.max_pos()), (0, 65535));
    assert_eq!(state.movement().name(), "stopped");
}

#[test]
fn stopping_a_moving_shade_pulses_stop() {
    let mut state = ShadeState::default();
    state.move_up();
    assert_eq!(state.plan(Command::Stop), Some(Output::Stop));
    assert_eq!(state.movement().name(), "up");
    assert_eq!(state.commit(Output::Stop, true), PRESS_TIME);
    assert_eq!(state.movement().name(), "stopped");
    assert_eq!(state.plan(Command::Stop), None);
}

#[test]
fn stopping_a_shade_that_has_arrived_pulses_nothing() {
    let mut state = ShadeState::default();
    state.move_up();
    state.reconcile(16_788_000, Instant::now());
    assert_eq!(state.plan(Command::Stop), None);
    assert_eq!((state.min_pos(), state.max_pos()), (65535, 65535));
}

#[test]
fn a_query_pulses_nothing() {
    let mut state = ShadeState::default();
    assert_eq!(state.plan(Command::Query), None);
    state.move_down();
    assert_eq!(state.plan(Command::Query), None);
    assert_eq!(state.movement().name(), "down");
    assert!(state.min_pos() <= state.max_pos());
}

#[test]
fn a_failed_output_is_not_held() {
    let mut state = ShadeState::default();
    assert_eq!(state.commit(Output::Raise, false), 0);
    assert_eq!(state.movement().name(), "up");
    assert_eq!(state.commit(Output::Lower, false), 0);
    assert_eq!(state.movement().name(), "down");
    assert_eq!(state.commit(Output::Stop, false), 0);
    assert_eq!(state.movement().name(), "down");
    assert_eq!(state.commit(Output::Stop, true), 100);
    assert_eq!(state.movement().name(), "stopped");
}

#[test]
fn up_then_down_in_sequence_reports_ordered_bounds() {
    let mut state = ShadeState::default();
    for command in [Command::Up, Command::Down, Command::Up, Command::Stop, Command::Down] {
        if let Some(output) = state.plan(command) {
            state.commit(output, true);
        }
        assert!(state.min_pos() <= state.max_pos());
        let report = state.json();
        assert!(report.starts_with("{\"state\": \""));
        assert!(report.ends_with('}'));
    }
    assert_eq!(state.movement().name(), "down");
}

#[test]
fn a_read_of_nothing_closes_the_connection() {
    assert_eq!(next_turn(Some(0), b""), Turn::Close);
    assert_eq!(next_turn(Some(0), b"up\n"), Turn::Close);
    assert_eq!(next_turn(None, b"up\n"), Turn::Close);
    assert_eq!(next_turn(None, b""), Turn::Close);
}

#[test]
fn a_line_that_arrived_is_served() {
    assert_eq!(next_turn(Some(3), b"up\n"), Turn::Serve(Command::Up));
    assert_eq!(next_turn(Some(5), b"down\n"), Turn::Serve(Command::Down));
    assert_eq!(next_turn(Some(5), b"stop\n"), Turn::Serve(Command::Stop));
    assert_eq!(next_turn(Some(1), b"\n"), Turn::Serve(Command::Query));
    assert_eq!(next_turn(Some(4), b"what"), Turn::Serve(Command::Query));
}
