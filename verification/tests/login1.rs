use niri::login1::{prepare_for_sleep, InhibitorAction, LidMonitor, Login1ToNiri, PropertyChange};

fn change(name: &str, value: Option<bool>) -> PropertyChange {
    PropertyChange {
        name: name.to_owned(),
        value,
    }
}

#[test]
fn initial_lid_state_is_announced_and_defaults_to_open() {
    let (monitor, message) = LidMonitor::new(Some(true));
    assert!(monitor.lid_closed());
    assert_eq!(message, Login1ToNiri::LidClosedChanged(true));

    let (monitor, message) = LidMonitor::new(None);
    assert!(!monitor.lid_closed());
    assert_eq!(message, Login1ToNiri::LidClosedChanged(false));
}

#[test]
fn lid_changes_are_reported_once() {
    let (mut monitor, _) = LidMonitor::new(Some(false));
    assert_eq!(
        monitor.properties_changed(&vec![change("LidClosed", Some(true))]),
        Some(Login1ToNiri::LidClosedChanged(true))
    );
    assert!(monitor.lid_closed());
    // The same value again is not news.
    assert_eq!(
        monitor.properties_changed(&vec![change("LidClosed", Some(true))]),
        None
    );
    assert_eq!(
        monitor.properties_changed(&vec![change("LidClosed", Some(false))]),
        Some(Login1ToNiri::LidClosedChanged(false))
    );
}

#[test]
fn other_properties_and_bad_values_leave_the_lid_alone() {
    let (mut monitor, _) = LidMonitor::new(Some(false));
    assert_eq!(
        monitor.properties_changed(&vec![
            change("Docked", Some(true)),
            change("LidClosed", None),
        ]),
        None
    );
    assert!(!monitor.lid_closed());
    assert_eq!(monitor.properties_changed(&vec![]), None);
    // The last LidClosed entry of a signal wins.
    assert_eq!(
        monitor.properties_changed(&vec![
            change("LidClosed", Some(true)),
            change("Docked", Some(false)),
            change("LidClosed", Some(false)),
        ]),
        None
    );
    assert_eq!(
        monitor.properties_changed(&vec![
            change("LidClosed", Some(false)),
            change("LidClosed", Some(true)),
            change("LidClosed", None),
        ]),
        Some(Login1ToNiri::LidClosedChanged(true))
    );
}

#[test]
fn sleep_releases_and_resume_reacquires_the_inhibitor() {
    assert_eq!(
        prepare_for_sleep(true),
        (Login1ToNiri::PrepareForSleep(true), InhibitorAction::Release)
    );
    assert_eq!(
        prepare_for_sleep(false),
        (Login1ToNiri::PrepareForSleep(false), InhibitorAction::Reacquire)
    );
}

#[test]
fn a_run_of_signals_reports_exactly_the_lid_changes() {
    let signals = vec![
        vec![change("LidClosed", Some(false))],
        vec![change("LidClosed", Some(true))],
        vec![change("Docked", Some(true))],
        vec![change("LidClosed", Some(true))],
        vec![change("LidClosed", None)],
        vec![change("LidClosed", Some(false))],
    ];
    let (mut monitor, first) = LidMonitor::new(None);
    let mut sent = vec![first];
    for signal in &signals {
        if let Some(message) = monitor.properties_changed(signal) {
            sent.push(message);
        }
    }
    assert_eq!(
        sent,
        vec![
            Login1ToNiri::LidClosedChanged(false),
            Login1ToNiri::LidClosedChanged(true),
            Login1ToNiri::LidClosedChanged(false),
        ]
    );
    assert!(!monitor.lid_closed());
}
