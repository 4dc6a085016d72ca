use niri::schedule::{
    clamp_temperature, config_enabled, lux_warm_end, room_capped_temperature, valid_temperature,
    BedtimeRamp, BedtimeSchedule,
};

/// The fraction of the ramp a position stands for: 0.0 at the start, 1.0 once fully warm.
fn fraction(ramp: Option<BedtimeRamp>) -> Option<f64> {
    ramp.map(|ramp| {
        if ramp.duration == 0 {
            1.0
        } else {
            (ramp.elapsed as f64 / ramp.duration as f64).min(1.0)
        }
    })
}

fn schedule() -> BedtimeSchedule {
    BedtimeSchedule {
        bedtime: Some(23 * 60),
        wake: 6 * 60,
        temperature: 2000,
        lead_mins: 180,
        ramp_mins: 60,
    }
}

#[test]
fn bedtime_stage_ramps_from_the_current_target_and_wraps_midnight() {
    let mut nl = schedule();
    let at = |nl: &BedtimeSchedule, minute: u32| fraction(nl.bedtime_ramp(minute));

    // 19:59 is before the stage; 20:00 starts it; 20:30 is halfway up the ramp.
    assert_eq!(at(&nl, 19 * 60 + 59), None);
    assert_eq!(at(&nl, 20 * 60), Some(0.0));
    assert_eq!(at(&nl, 20 * 60 + 30), Some(0.5));
    assert_eq!(at(&nl, 21 * 60), Some(1.0));
    // Past midnight it is still on, and it lets go at wake.
    assert_eq!(at(&nl, 2 * 60), Some(1.0));
    assert_eq!(at(&nl, 5 * 60 + 59), Some(1.0));
    assert_eq!(at(&nl, 6 * 60), None);
    assert_eq!(at(&nl, 12 * 60), None);

    // A lead that crosses midnight the other way: bedtime 01:00, lead 3 h -> 22:00.
    nl.bedtime = Some(60);
    assert_eq!(at(&nl, 21 * 60 + 59), None);
    assert_eq!(at(&nl, 22 * 60), Some(0.0));
    assert_eq!(at(&nl, 23 * 60), Some(1.0));

    // No ramp: fully warm the moment the stage starts.
    nl.ramp_mins = 0;
    assert_eq!(at(&nl, 22 * 60), Some(1.0));

    // Ambiguous or out-of-range schedules fail closed instead of silently aliasing.
    nl.bedtime = Some(23 * 60);
    nl.wake = 20 * 60; // start == wake with the three-hour lead
    assert_eq!(at(&nl, 21 * 60), None);
    nl.wake = 23 * 60; // bedtime == wake is ambiguous too
    assert_eq!(at(&nl, 21 * 60), None);
    nl.wake = 6 * 60;
    nl.lead_mins = 24 * 60;
    assert_eq!(at(&nl, 23 * 60), None);
    nl.lead_mins = 180;
    nl.ramp_mins = 11 * 60; // longer than the 10-hour active interval
    assert_eq!(at(&nl, 21 * 60), None);
    nl.ramp_mins = 60;
    nl.temperature = 0;
    assert_eq!(at(&nl, 21 * 60), None);
}

#[test]
fn bedtime_ramp_reports_elapsed_minutes_and_duration() {
    let nl = schedule();
    assert_eq!(
        nl.bedtime_ramp(20 * 60 + 30),
        Some(BedtimeRamp { elapsed: 30, duration: 60 })
    );
    // Around midnight the count goes on: 23:59 is 239 minutes in, 00:00 is 240.
    assert_eq!(
        nl.bedtime_ramp(23 * 60 + 59),
        Some(BedtimeRamp { elapsed: 239, duration: 60 })
    );
    assert_eq!(
        nl.bedtime_ramp(0),
        Some(BedtimeRamp { elapsed: 240, duration: 60 })
    );
    // The stage repeats every day.
    assert_eq!(nl.bedtime_ramp(20 * 60 + 1440), nl.bedtime_ramp(20 * 60));
    // Without a bedtime there is no stage at all.
    let off = BedtimeSchedule { bedtime: None, ..nl };
    assert_eq!(off.bedtime_ramp(20 * 60), None);
}

#[test]
fn bedtime_alone_enables_night_light() {
    assert!(config_enabled(false, false, true, false, false));
    assert!(!config_enabled(false, false, false, false, false));
}

#[test]
fn adaptive_night_light_can_start_without_coordinates() {
    assert!(config_enabled(false, true, false, false, false));
}

#[test]
fn coordinates_need_both_halves_and_off_wins() {
    assert!(config_enabled(false, false, false, true, true));
    assert!(!config_enabled(false, false, false, true, false));
    assert!(!config_enabled(false, false, false, false, true));
    assert!(!config_enabled(true, true, true, true, true));
}

#[test]
fn measured_room_temperature_drives_the_screen_within_configured_bounds() {
    // Without coordinates the solar target is temperature-day.
    let (day, night) = (6500, 2700);
    let target = |kelvin: f64| room_capped_temperature(day, Some(kelvin.round() as i64), day, night);

    // A daylit room pulls the screen neutral...
    assert_eq!(target(6400.0), 6400);
    // ...a warm bulb pulls it warm.
    assert_eq!(target(2900.0), 2900);
    // Readings outside the configured range are clamped, not obeyed.
    assert_eq!(target(9000.0), 6500);
    assert_eq!(target(1200.0), 2700);
}

#[test]
fn the_sun_caps_the_measured_room_temperature() {
    // Pretend the solar curve says full night.
    assert_eq!(room_capped_temperature(4000, Some(6300), 4000, 4000), 4000);
    // ...but a warm bulb still pulls it warmer than the schedule allows for.
    assert_eq!(room_capped_temperature(4000, Some(2900), 4000, 2700), 2900);
}

#[test]
fn without_a_temperature_sensor_the_sun_still_decides() {
    assert_eq!(room_capped_temperature(6500, None, 6500, 2700), 6500);
    assert_eq!(room_capped_temperature(4952, None, 6500, 4000), 4952);
}

#[test]
fn measured_temperatures_are_clamped_to_the_configured_range() {
    // Day 6500 K, night 2700 K: readings inside pass, outside are clamped.
    assert_eq!(clamp_temperature(6400, 6500, 2700), 6400);
    assert_eq!(clamp_temperature(2900, 6500, 2700), 2900);
    assert_eq!(clamp_temperature(9000, 6500, 2700), 6500);
    assert_eq!(clamp_temperature(1200, 6500, 2700), 2700);
    // Swapped bounds still clamp into the same range.
    assert_eq!(clamp_temperature(9000, 2700, 6500), 6500);
    assert_eq!(clamp_temperature(-5, 2700, 6500), 2700);
    assert_eq!(clamp_temperature(i64::MAX, 4000, 4000), 4000);
}

#[test]
fn lux_warm_end_defaults_to_night_and_never_passes_day() {
    assert_eq!(lux_warm_end(None, 2700, 6500), 2700);
    assert_eq!(lux_warm_end(Some(4000), 2700, 6500), 4000);
    // An invalid temperature-dim falls back to temperature-night.
    assert_eq!(lux_warm_end(Some(0), 2700, 6500), 2700);
    assert_eq!(lux_warm_end(Some(30_000), 2700, 6500), 2700);
    // Capped at temperature-day.
    assert_eq!(lux_warm_end(Some(9000), 2700, 6500), 6500);
    assert_eq!(lux_warm_end(None, 7000, 6500), 6500);
}

#[test]
fn valid_temperatures_span_the_gamma_curve() {
    assert!(valid_temperature(1000));
    assert!(valid_temperature(25_000));
    assert!(!valid_temperature(999));
    assert!(!valid_temperature(25_001));
    assert!(!valid_temperature(0));
}
