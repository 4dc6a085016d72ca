use niri::backlight::{
    invalid_data, is_permission_denied, logind_brightness, respond_to_ratio, BacklightControl,
    IoErrorKind, OverrideCheck, RatioEvent, RatioResponse,
};

const SECOND: u128 = 1_000_000_000;

/// Runs both halves of the manual-override check against a panel reading `panel`.
fn manual_override_active(
    control: &mut BacklightControl,
    hold: u128,
    now: u128,
    panel: u64,
) -> bool {
    match control.check_manual_override(hold, now) {
        OverrideCheck::Held => true,
        OverrideCheck::Clear => false,
        OverrideCheck::ReadPanel => control.finish_manual_override(hold, now, Some(panel)),
    }
}

#[test]
fn manual_change_pauses_adaptive_backlight() {
    let mut backlight = BacklightControl::new();
    let hold = 60 * SECOND;
    let mut panel = 400;

    // Nothing written yet: whatever the panel says is not an override.
    assert!(!manual_override_active(&mut backlight, hold, 0, panel));

    // set_ratio(0.5) of 800 wrote 400.
    backlight.record_write(400);
    assert!(!manual_override_active(&mut backlight, hold, 1, panel));

    // The user hit the brightness keys.
    panel = 700;
    assert!(manual_override_active(&mut backlight, hold, 2, panel));
    // Still held on the next tick, and the user's value became the baseline.
    assert!(manual_override_active(&mut backlight, hold, 3, panel));
    assert_eq!(backlight.last_written(), Some(700));

    // Holds are opt-out.
    let mut fresh = BacklightControl::new();
    fresh.record_write(200);
    assert!(!manual_override_active(&mut fresh, 0, 4, 700));
}

#[test]
fn panel_rounding_is_not_a_manual_change() {
    let mut backlight = BacklightControl::new();
    backlight.record_write(400);
    assert!(!manual_override_active(&mut backlight, 60 * SECOND, 0, 401));
    assert!(!manual_override_active(&mut backlight, 60 * SECOND, 0, 399));
    assert!(manual_override_active(&mut backlight, 60 * SECOND, 0, 402));
}

#[test]
fn hold_expires_and_adaptive_resumes() {
    let millisecond = SECOND / 1000;
    let mut backlight = BacklightControl::new();
    backlight.record_write(400);
    assert!(manual_override_active(&mut backlight, millisecond, 0, 700));
    // Five milliseconds later the hold is over and the panel still shows the user's value.
    assert!(!manual_override_active(&mut backlight, millisecond, 5 * millisecond, 700));
}

#[test]
fn unreadable_panel_is_not_a_manual_change() {
    let mut backlight = BacklightControl::new();
    backlight.record_write(400);
    assert_eq!(
        backlight.check_manual_override(SECOND, 0),
        OverrideCheck::ReadPanel
    );
    assert!(!backlight.finish_manual_override(SECOND, 0, None));
    assert_eq!(backlight.last_written(), Some(400));
}

#[test]
fn permission_errors_move_writes_to_logind_for_good() {
    let mut backlight = BacklightControl::new();
    assert!(!backlight.use_logind());
    assert!(!backlight.sysfs_write_failed(IoErrorKind::NotFound));
    assert!(!backlight.use_logind());
    assert!(backlight.sysfs_write_failed(IoErrorKind::PermissionDenied));
    assert!(backlight.use_logind());
    assert!(!backlight.sysfs_write_failed(IoErrorKind::Other));
    assert!(backlight.use_logind());

    let mut read_only = BacklightControl::new();
    assert!(read_only.sysfs_write_failed(IoErrorKind::ReadOnlyFilesystem));
    assert!(read_only.use_logind());
}

#[test]
fn permission_denied_covers_read_only_filesystems() {
    assert!(is_permission_denied(IoErrorKind::PermissionDenied));
    assert!(is_permission_denied(IoErrorKind::ReadOnlyFilesystem));
    assert!(!is_permission_denied(IoErrorKind::InvalidData));
    assert!(!is_permission_denied(IoErrorKind::NotFound));
    assert!(!is_permission_denied(IoErrorKind::Other));
}

#[test]
fn invalid_data_keeps_its_message() {
    let fault = invalid_data("invalid integer value");
    assert_eq!(fault.kind, IoErrorKind::InvalidData);
    assert_eq!(fault.message, "invalid integer value");
}

#[test]
fn logind_brightness_saturates_at_u32() {
    assert_eq!(logind_brightness(0), 0);
    assert_eq!(logind_brightness(800), 800);
    assert_eq!(logind_brightness(u32::MAX as u64), u32::MAX);
    assert_eq!(logind_brightness(u32::MAX as u64 + 1), u32::MAX);
    assert_eq!(logind_brightness(u64::MAX), u32::MAX);
}

#[test]
fn unapplied_backlight_targets_are_forgotten() {
    assert_eq!(
        respond_to_ratio(RatioEvent::OpenFailed),
        RatioResponse { forget_target: true, drop_device: false, succeeded: false }
    );
    assert_eq!(
        respond_to_ratio(RatioEvent::HeldByUser),
        RatioResponse { forget_target: true, drop_device: false, succeeded: true }
    );
    assert_eq!(
        respond_to_ratio(RatioEvent::WriteFailed),
        RatioResponse { forget_target: true, drop_device: true, succeeded: false }
    );
    assert_eq!(
        respond_to_ratio(RatioEvent::Written),
        RatioResponse { forget_target: false, drop_device: false, succeeded: true }
    );
}
