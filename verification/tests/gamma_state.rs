use niri::gamma_state::GammaState;
use niri::schedule::config_enabled;

/// A night light that has already sent its first ramps, like the tests' typical instance.
fn settled() -> GammaState {
    let mut state = GammaState::new(6500);
    assert!(state.tick(6500, false));
    state
}

#[test]
fn should_apply_when_enabled() {
    let nl = settled();
    assert!(nl.should_apply());
}

#[test]
fn should_not_apply_when_disabled() {
    let mut nl = settled();
    nl.update_config(false);
    assert!(!nl.should_apply());
}

#[test]
fn should_not_apply_when_external_gamma() {
    let mut nl = settled();
    nl.set_external_gamma_active(true);
    assert!(!nl.should_apply());
}

#[test]
fn tick_returns_none_when_disabled() {
    let mut nl = settled();
    nl.update_config(false);
    assert!(!nl.is_enabled());
}

#[test]
fn tick_returns_none_when_external_gamma() {
    let mut nl = settled();
    nl.set_external_gamma_active(true);
    assert!(!nl.tick(4000, true));
    assert_eq!(nl.current_temp(), 6500);
}

#[test]
fn first_tick_applies_gamma_even_when_nothing_changed() {
    let mut nl = GammaState::new(6500);
    assert!(nl.tick(6500, false));
    assert!(!nl.tick(6500, false));
}

#[test]
fn reapply_is_requested_after_external_gamma_releases_and_new_outputs() {
    let mut nl = settled();
    assert!(!nl.tick(6500, false));

    // The client reset the ramps on its way out: ours go back without waiting for drift.
    nl.set_external_gamma_active(true);
    assert!(!nl.needs_reapply());
    nl.set_external_gamma_active(false);
    assert!(nl.needs_reapply());
    assert!(nl.tick(6500, false));
    assert!(!nl.needs_reapply());

    // Same for a connector that came up with identity gamma.
    nl.request_reapply();
    assert!(nl.tick(6500, false));
    assert!(!nl.tick(6500, false));
}

#[test]
fn switching_off_reports_that_gamma_must_be_reset() {
    let on = config_enabled(false, true, false, false, false);
    let off = config_enabled(true, true, false, false, false);
    let mut nl = GammaState::new(6500);
    assert!(!nl.update_config(on));

    assert!(nl.update_config(off));
    assert!(!nl.should_apply());
    // Only the transition reports it, not every reload while off.
    assert!(!nl.update_config(off));
}

#[test]
fn target_and_brightness_changes_send_ramps() {
    let mut nl = settled();
    assert!(nl.tick(4000, false));
    assert_eq!(nl.current_temp(), 4000);
    assert!(!nl.tick(4000, false));
    assert!(nl.tick(4000, true));
    // Switching back on re-sends the ramps once.
    nl.update_config(false);
    nl.update_config(true);
    assert!(nl.needs_reapply());
    assert!(nl.tick(4000, false));
    assert!(!nl.tick(4000, false));
}
