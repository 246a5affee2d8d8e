use sprinklers::Device;
use sprinklers::Schedule;

#[test]
fn window_is_half_open() {
    // 06:00 for 45 minutes.
    let s = Schedule::new(21600, 2700);
    assert!(!s.should_be_on(21599));
    assert!(s.should_be_on(21600));
    assert!(s.should_be_on(24299));
    assert!(!s.should_be_on(24300));
}

#[test]
fn zero_duration_is_always_off() {
    let s = Schedule::new(21600, 0);
    assert!(!s.should_be_on(21599));
    assert!(!s.should_be_on(21600));
    assert!(!s.should_be_on(21601));
    assert!(!s.should_be_on(0));
}

#[test]
fn window_does_not_wrap_past_midnight() {
    // 23:00 for 5 hours ends arithmetically at 28:00 of the same day.
    let s = Schedule::new(23 * 3600, 5 * 3600);
    assert!(s.should_be_on(23 * 3600));
    assert!(s.should_be_on(86399));
    // Early next morning the window is over; no wrap-around "on" state.
    assert!(!s.should_be_on(1000));
    assert!(!s.should_be_on(4 * 3600 - 1));
}

#[test]
fn extreme_schedule_values_stay_well_formed() {
    // No range validation is performed; arithmetic must still not trap.
    let s = Schedule::new(u32::MAX, u32::MAX);
    assert!(!s.should_be_on(0));
    assert!(!s.should_be_on(86399));
    let t = Schedule::new(0, u32::MAX);
    assert!(t.should_be_on(0));
    assert!(t.should_be_on(86399));
}

#[test]
fn valve_a_scenario_six_am_window() {
    let mut d = Device::new_with_settings(String::from("valve_a"), 2700, 21600);
    d.update(21600);
    assert!(d.actuator.is_on);
    d.update(24299);
    assert!(d.actuator.is_on);
    d.update(24300);
    assert!(!d.actuator.is_on);
    d.update(21599);
    assert!(!d.actuator.is_on);
}

#[test]
fn update_is_edge_triggered_and_idempotent() {
    let mut d = Device::new_with_settings(String::from("valve_a"), 2700, 21600);
    // First evaluation inside the window drives the line: one write.
    assert!(d.update(22000));
    assert!(d.actuator.is_on);
    // Same time of day again: no additional hardware write.
    assert!(!d.update(22000));
    assert!(d.actuator.is_on);
    assert!(!d.update(22001));
    // Leaving the window writes once, then settles.
    assert!(d.update(24300));
    assert!(!d.actuator.is_on);
    assert!(!d.update(24300));
}

#[test]
fn update_result_is_independent_of_prior_state() {
    let mut fresh = Device::new_with_settings(String::from("valve_a"), 2700, 21600);
    let mut toggled = Device::new_with_settings(String::from("valve_a"), 2700, 21600);
    toggled.toggle();
    assert!(toggled.actuator.is_on);
    fresh.update(22000);
    toggled.update(22000);
    assert_eq!(fresh.actuator.is_on, toggled.actuator.is_on);
    fresh.update(50000);
    toggled.update(50000);
    assert!(!fresh.actuator.is_on);
    assert!(!toggled.actuator.is_on);
}

#[test]
fn toggle_inverts_without_consulting_schedule() {
    let mut d = Device::new_with_settings(String::from("valve_a"), 2700, 21600);
    assert!(!d.actuator.is_on);
    d.toggle();
    assert!(d.actuator.is_on);
    d.toggle();
    assert!(!d.actuator.is_on);
}

#[test]
fn set_schedule_takes_effect_on_next_update() {
    let mut d = Device::new_with_settings(String::from("valve_a"), 2700, 21600);
    d.update(22000);
    assert!(d.actuator.is_on);
    d.set_schedule(Schedule::new(30000, 100));
    // State unchanged until the next evaluation.
    assert!(d.actuator.is_on);
    d.update(22000);
    assert!(!d.actuator.is_on);
    d.update(30050);
    assert!(d.actuator.is_on);
}
