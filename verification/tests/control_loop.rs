use tiltcore::command::Command;
use tiltcore::control::dispatch;
use tiltcore::control::sample_response;
use tiltcore::control::Action;
use tiltcore::control::ControlLoop;
use tiltcore::time::Timer;

fn respond_text(action: Action) -> String {
    match action {
        Action::Respond(text) => text,
        Action::ReadSensor => panic!("expected a textual response"),
    }
}

#[test]
fn clock_counts_ticks_one_by_one() {
    let mut timer = Timer::new();
    assert_eq!(timer.millis(), 0);
    for expected in 1..=100u64 {
        let before = timer.millis();
        timer.tick();
        assert_eq!(timer.millis(), before + 1);
        assert_eq!(timer.millis(), expected);
    }
}

#[test]
fn ping_answers_pong() {
    let action = dispatch(&Command::Ping, 7);
    assert_eq!(respond_text(action), "pong\n");
}

#[test]
fn clock_report_prints_the_decimal_millis() {
    let action = dispatch(&Command::ReportClock, 12345);
    assert_eq!(respond_text(action), "rtc: 12345\n");
}

#[test]
fn clock_report_of_zero() {
    let action = dispatch(&Command::ReportClock, 0);
    assert_eq!(respond_text(action), "rtc: 0\n");
}

#[test]
fn clock_report_of_the_largest_reading() {
    let action = dispatch(&Command::ReportClock, u64::MAX);
    assert_eq!(respond_text(action), "rtc: 18446744073709551615\n");
}

#[test]
fn orientation_request_asks_for_a_sample() {
    let action = dispatch(&Command::ReportOrientation, 7);
    assert!(matches!(action, Action::ReadSensor));
}

#[test]
fn unrecognized_answers_unknown_command() {
    let action = dispatch(&Command::Unrecognized(String::from("xyz")), 7);
    assert_eq!(respond_text(action), "unknown command\n");
}

#[test]
fn sample_response_is_the_display_string_and_newline() {
    assert_eq!(sample_response(0, 0, 9800), "Right side up\n");
    assert_eq!(sample_response(-9800, 0, 0), "USB down\n");
}

#[test]
fn heartbeat_toggles_once_at_the_single_crossing() {
    let mut control = ControlLoop::new();
    let mut toggles = 0u32;
    let mut toggle_time = None;
    for _ in 0..600 {
        let out = control.step(&[]);
        assert!(out.action.is_none());
        if out.toggle_heartbeat {
            toggles += 1;
            toggle_time = Some(control.millis());
        }
    }
    // The first reading strictly beyond the threshold is 501, and within
    // 600 cycles no second crossing occurs.
    assert_eq!(toggles, 1);
    assert_eq!(toggle_time, Some(501));
}

#[test]
fn heartbeat_keeps_toggling_every_period() {
    let mut control = ControlLoop::new();
    let mut toggle_times = Vec::new();
    for _ in 0..1600 {
        let out = control.step(&[]);
        if out.toggle_heartbeat {
            toggle_times.push(control.millis());
        }
    }
    assert_eq!(toggle_times, vec![501, 1002, 1503]);
}

#[test]
fn a_step_serves_a_command_with_the_advanced_clock() {
    let mut control = ControlLoop::new();
    let out = control.step(b"tick\n");
    assert!(!out.toggle_heartbeat);
    assert_eq!(respond_text(out.action.expect("a command arrived")), "rtc: 1\n");
}

#[test]
fn a_step_with_a_ping() {
    let mut control = ControlLoop::new();
    let out = control.step(b"ping\n");
    assert_eq!(respond_text(out.action.expect("a command arrived")), "pong\n");
}

#[test]
fn a_step_with_garbage_bytes_skips_the_cycle() {
    let mut control = ControlLoop::new();
    let out = control.step(&[0xc0, b'\n']);
    assert!(out.action.is_none());
}
