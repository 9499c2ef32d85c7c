use camloop::gate::{Gate, GateDecision, GpioPins};

#[test]
fn active_low_input_low_permits() {
    let mut g = GpioPins::new();
    assert!(g.check_low);
    let permitted = g.can_record(false, true);
    assert!(permitted);
    assert!(g.led_on);
}

#[test]
fn active_low_input_high_blocks() {
    let mut g = GpioPins::new();
    let permitted = g.can_record(false, false);
    assert!(!permitted);
    assert!(!g.led_on);
}

#[test]
fn toggle_flips_polarity_once() {
    let mut g = GpioPins::new();
    // Polarity is active-low and the input reads high: blocked.
    assert!(!g.can_record(false, false));
    // One toggle signal arrives; the next tick flips to active-high and the
    // still-high input now permits capture.
    let permitted = g.can_record(true, false);
    assert!(permitted);
    assert!(!g.check_low);
    assert!(g.led_on);
    // The toggle was consumed exactly once: without a new signal the
    // polarity stays active-high.
    assert!(g.can_record(false, false));
    assert!(!g.check_low);
}

#[test]
fn toggle_twice_restores_polarity() {
    let mut g = GpioPins::new();
    g.can_record(true, true);
    assert!(!g.check_low);
    g.can_record(true, true);
    assert!(g.check_low);
}

#[test]
fn led_mirrors_every_decision() {
    let mut g = GpioPins::new();
    for &(toggle, input_low) in
        &[(false, true), (false, false), (true, true), (false, false), (true, true)]
    {
        let permitted = g.can_record(toggle, input_low);
        assert_eq!(g.led_on, permitted);
    }
}

#[test]
fn set_led_drives_requested_level() {
    let mut g = GpioPins::new();
    g.set_led(true);
    assert!(g.led_on);
    g.set_led(false);
    assert!(!g.led_on);
}

#[test]
fn disabled_gate_always_permits() {
    let mut gate = Gate::Disabled;
    let d = gate.tick(false, false);
    assert!(d.permitted);
    assert_eq!(d.drive_led, None);
    let d2 = gate.tick(true, true);
    assert!(d2.permitted);
    assert_eq!(d2.drive_led, None);
}

#[test]
fn enabled_gate_reports_led_level() {
    let mut gate = Gate::Enabled { pins: GpioPins::new() };
    let d = gate.tick(false, true);
    assert_eq!(d, GateDecision { permitted: true, drive_led: Some(true) });
    let d2 = gate.tick(false, false);
    assert_eq!(d2, GateDecision { permitted: false, drive_led: Some(false) });
}
