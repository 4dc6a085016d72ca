use vstd::prelude::*;

use vstd::arithmetic::div_mod::{
    lemma_mod_add_multiples_vanish, lemma_mod_adds, lemma_mod_bound, lemma_mod_self_0,
};

use crate::clock::MINUTES_PER_DAY;

verus! {

/// Whether `temperature` is a colour temperature the gamma curve covers: 1000 K to 25000 K.
pub open spec fn is_valid_temperature(temperature: u32) -> bool {
    1000 <= temperature <= 25_000
}

/// Whether `temperature` is a colour temperature the gamma curve covers: 1000 K to 25000 K.
pub fn valid_temperature(temperature: u32) -> (res: bool)
    ensures
        res == is_valid_temperature(temperature),
{
    1000 <= temperature && temperature <= 25_000
}

/// Whether the night-light configuration switches the feature on.
///
/// It is on unless it is explicitly off, and only when something drives it: the adaptive
/// sensors, a bedtime, or both coordinates for the sun.
pub fn config_enabled(
    off: bool,
    adaptive_on: bool,
    has_bedtime: bool,
    has_latitude: bool,
    has_longitude: bool,
) -> (res: bool)
    ensures
        res == (!off && (adaptive_on || has_bedtime || (has_latitude && has_longitude))),
{
    !off && (adaptive_on || has_bedtime || (has_latitude && has_longitude))
}

/// The smaller of two temperatures.
pub open spec fn min_u32(a: u32, b: u32) -> u32 {
    if a <= b {
        a
    } else {
        b
    }
}

/// The larger of two temperatures.
pub open spec fn max_u32(a: u32, b: u32) -> u32 {
    if a >= b {
        a
    } else {
        b
    }
}

/// A measured room temperature, rounded to whole kelvin, restricted to the range spanned by
/// the night and day temperatures.
pub open spec fn clamped_temperature(rounded_kelvin: int, temp_day: u32, temp_night: u32) -> u32 {
    let low = min_u32(temp_night, temp_day);
    let high = max_u32(temp_night, temp_day);
    if rounded_kelvin < low {
        low
    } else if rounded_kelvin > high {
        high
    } else {
        rounded_kelvin as u32
    }
}

/// The target temperature once the room has its say: the clamped room reading, but never
/// above the solar target; without a reading the solar target stands.
pub open spec fn room_capped(
    solar_temp: u32,
    room_rounded_kelvin: Option<i64>,
    temp_day: u32,
    temp_night: u32,
) -> u32 {
    match room_rounded_kelvin {
        Some(k) => min_u32(clamped_temperature(k as int, temp_day, temp_night), solar_temp),
        None => solar_temp,
    }
}

/// Restricts a measured room temperature, already rounded to whole kelvin, to the range
/// spanned by the night and day temperatures.
pub fn clamp_temperature(rounded_kelvin: i64, temp_day: u32, temp_night: u32) -> (res: u32)
    ensures
        res == clamped_temperature(rounded_kelvin as int, temp_day, temp_night),
{
    let low = if temp_night <= temp_day {
        temp_night
    } else {
        temp_day
    };
    let high = if temp_night >= temp_day {
        temp_night
    } else {
        temp_day
    };
    if rounded_kelvin < low as i64 {
        low
    } else if rounded_kelvin > high as i64 {
        high
    } else {
        rounded_kelvin as u32
    }
}

/// The target temperature once the room has its say; see `room_capped`.
pub fn room_capped_temperature(
    solar_temp: u32,
    room_rounded_kelvin: Option<i64>,
    temp_day: u32,
    temp_night: u32,
) -> (res: u32)
    ensures
        res == room_capped(solar_temp, room_rounded_kelvin, temp_day, temp_night),
{
    match room_rounded_kelvin {
        Some(kelvin) => {
            let room = clamp_temperature(kelvin, temp_day, temp_night);
            if room <= solar_temp {
                room
            } else {
                solar_temp
            }
        },
        None => solar_temp,
    }
}

/// The warm end of the lux-to-temperature mapping.
///
/// `temperature-dim` when it is set to a valid temperature, `temperature-night` otherwise;
/// never warmer-than-day inverted, so it is capped at `temperature-day`.
pub fn lux_warm_end(temperature_dim: Option<u32>, temp_night: u32, temp_day: u32) -> (res: u32)
    ensures
        res == min_u32(
            match temperature_dim {
                Some(dim) => if is_valid_temperature(dim) {
                    dim
                } else {
                    temp_night
                },
                None => temp_night,
            },
            temp_day,
        ),
{
    let end = match temperature_dim {
        Some(dim) => if valid_temperature(dim) {
            dim
        } else {
            temp_night
        },
        None => temp_night,
    };
    if end <= temp_day {
        end
    } else {
        temp_day
    }
}

/// How far into the bedtime ramp the clock is: `elapsed` minutes of a ramp of `duration`
/// minutes. The ramp is complete (fully warm) once `elapsed >= duration`, and at once when
/// `duration` is zero.
#[derive(Debug, Clone, Copy, PartialEq, Eq, Structural)]
pub struct BedtimeRamp {
    pub elapsed: u32,
    pub duration: u32,
}

/// The clock-anchored bedtime stage: from `bedtime - lead` until `wake`, wrapping past
/// midnight, with the first `ramp` minutes ramping towards `temperature`.
#[derive(Debug, Clone, Copy, PartialEq, Eq, Structural)]
pub struct BedtimeSchedule {
    /// Start of bedtime, in minutes of the local day; `None` disables the stage.
    pub bedtime: Option<u32>,
    /// End of the stage, in minutes of the local day.
    pub wake: u32,
    /// Colour temperature at the end of the ramp.
    pub temperature: u32,
    /// How long before `bedtime` the ramp starts, in minutes.
    pub lead_mins: u32,
    /// How long the ramp takes, in minutes.
    pub ramp_mins: u32,
}

impl BedtimeSchedule {
    /// Whether the schedule describes a stage at all: a bedtime, a lead shorter than a day, a
    /// wake time other than bedtime, and a valid temperature.
    pub open spec fn is_plausible(self) -> bool {
        &&& self.bedtime is Some
        &&& self.lead_mins < MINUTES_PER_DAY
        &&& self.wake != self.bedtime->0
        &&& is_valid_temperature(self.temperature)
    }

    /// Minute of the day at which the stage starts.
    pub open spec fn start(self) -> int {
        (self.bedtime->0 + MINUTES_PER_DAY - self.lead_mins) % (MINUTES_PER_DAY as int)
    }

    /// Length of the stage in minutes.
    pub open spec fn length(self) -> int {
        (self.wake + MINUTES_PER_DAY - self.start()) % (MINUTES_PER_DAY as int)
    }

    /// Whether the stage is well-formed: plausible, of positive length, and long enough to
    /// hold its ramp.
    pub open spec fn is_active_schedule(self) -> bool {
        &&& self.is_plausible()
        &&& self.length() != 0
        &&& self.ramp_mins <= self.length()
    }

    /// Minutes since the start of the stage at `minute_of_day`, counted around the clock.
    pub open spec fn since_start(self, minute_of_day: int) -> int {
        (minute_of_day + MINUTES_PER_DAY - self.start()) % (MINUTES_PER_DAY as int)
    }

    /// Where the bedtime stage stands at `minute_of_day`: `None` outside the stage or for a
    /// schedule that is not well-formed.
    pub open spec fn ramp_at(self, minute_of_day: int) -> Option<BedtimeRamp> {
        if !self.is_active_schedule() || self.since_start(minute_of_day) >= self.length() {
            None
        } else {
            Some(
                BedtimeRamp {
                    elapsed: self.since_start(minute_of_day) as u32,
                    duration: self.ramp_mins,
                },
            )
        }
    }

    /// Whether evaluating the stage at `minute_of_day` stays within `u32` arithmetic.
    pub open spec fn fits_in_u32(self, minute_of_day: u32) -> bool {
        self.is_plausible() ==> {
            &&& self.bedtime->0 + MINUTES_PER_DAY <= u32::MAX
            &&& self.wake + MINUTES_PER_DAY <= u32::MAX
            &&& (self.length() != 0 && self.ramp_mins <= self.length()) ==> minute_of_day
                + MINUTES_PER_DAY <= u32::MAX
        }
    }

    /// Whether `bedtime_ramp(minute_of_day)` may be evaluated: tests `fits_in_u32`.
    pub fn stays_in_u32(&self, minute_of_day: u32) -> (res: bool)
        ensures
            res == self.fits_in_u32(minute_of_day),
    {
        let bedtime = match self.bedtime {
            Some(bedtime) => bedtime,
            None => return true,
        };
        if self.lead_mins >= MINUTES_PER_DAY || self.wake == bedtime || !valid_temperature(
            self.temperature,
        ) {
            return true;
        }
        let day = MINUTES_PER_DAY as u64;
        let max = u32::MAX as u64;
        if bedtime as u64 + day > max || self.wake as u64 + day > max {
            return false;
        }
        let start = (bedtime as u64 + day - self.lead_mins as u64) % day;
        let length = (self.wake as u64 + day - start) % day;
        assert(start == self.start());
        assert(length == self.length());
        if length != 0 && self.ramp_mins as u64 <= length {
            minute_of_day as u64 + day <= max
        } else {
            true
        }
    }

    /// How far into the bedtime ramp the clock is at `minute_of_day`, or `None` outside the
    /// stage.
    pub fn bedtime_ramp(&self, minute_of_day: u32) -> (res: Option<BedtimeRamp>)
        requires
            self.fits_in_u32(minute_of_day),
        ensures
            res == self.ramp_at(minute_of_day as int),
    {
        let bedtime = match self.bedtime {
            Some(bedtime) => bedtime,
            None => return None,
        };
        if self.lead_mins >= MINUTES_PER_DAY || self.wake == bedtime || !valid_temperature(
            self.temperature,
        ) {
            return None;
        }
        let start = (bedtime + MINUTES_PER_DAY - self.lead_mins) % MINUTES_PER_DAY;
        let length = (self.wake + MINUTES_PER_DAY - start) % MINUTES_PER_DAY;
        assert(start == self.start());
        assert(length == self.length());
        if length == 0 || self.ramp_mins > length {
            return None;
        }
        let since_start = (minute_of_day + MINUTES_PER_DAY - start) % MINUTES_PER_DAY;
        if since_start >= length {
            return None;
        }
        Some(BedtimeRamp { elapsed: since_start, duration: self.ramp_mins })
    }
}

/// The bedtime stage repeats every day: a minute and the same minute a day later are at the
/// same point of the stage, so the stage wraps past midnight.
pub proof fn law_bedtime_stage_is_daily(schedule: BedtimeSchedule, minute_of_day: int)
    ensures
        schedule.ramp_at(minute_of_day + MINUTES_PER_DAY) == schedule.ramp_at(minute_of_day),
{
    let d = MINUTES_PER_DAY as int;
    lemma_mod_add_multiples_vanish(minute_of_day + d - schedule.start(), d);
    assert(minute_of_day + d + d - schedule.start() == d + (minute_of_day + d
        - schedule.start()));
}

/// A well-formed stage begins at its start minute with nothing of the ramp elapsed.
pub proof fn law_bedtime_stage_starts_cold(schedule: BedtimeSchedule)
    requires
        schedule.is_active_schedule(),
    ensures
        schedule.ramp_at(schedule.start()) == Some(
            BedtimeRamp { elapsed: 0, duration: schedule.ramp_mins },
        ),
{
    let d = MINUTES_PER_DAY as int;
    lemma_mod_self_0(d);
    lemma_mod_bound(schedule.wake + d - schedule.start(), d);
    assert(schedule.start() + d - schedule.start() == d);
}

/// Readings outside the configured range are clamped, not obeyed; readings inside it are
/// taken as they are.
pub proof fn law_room_readings_stay_in_range(rounded_kelvin: int, temp_day: u32, temp_night: u32)
    ensures
        min_u32(temp_night, temp_day) <= clamped_temperature(rounded_kelvin, temp_day, temp_night)
            <= max_u32(temp_night, temp_day),
        min_u32(temp_night, temp_day) <= rounded_kelvin <= max_u32(temp_night, temp_day)
            ==> clamped_temperature(rounded_kelvin, temp_day, temp_night) == rounded_kelvin,
{
}

/// The sun sets the ceiling: the room can pull the screen warmer than the solar target but
/// never cooler, and without a reading the sun alone decides.
pub proof fn law_sun_caps_the_room(
    solar_temp: u32,
    room_rounded_kelvin: Option<i64>,
    temp_day: u32,
    temp_night: u32,
)
    ensures
        room_capped(solar_temp, room_rounded_kelvin, temp_day, temp_night) <= solar_temp,
        room_rounded_kelvin is None ==> room_capped(
            solar_temp,
            room_rounded_kelvin,
            temp_day,
            temp_night,
        ) == solar_temp,
{
}

/// With a room reading, the target is the reading restricted to the range between the night
/// and day temperatures, unless that is cooler than the solar target, in which case the
/// solar target stands: a room at or above the sun's temperature leaves the sun's target
/// unchanged, and a warmer room pulls the screen to the room's (clamped) temperature.
pub proof fn law_room_target_is_the_cooler_of_room_and_sun(
    solar_temp: u32,
    rounded_kelvin: i64,
    temp_day: u32,
    temp_night: u32,
)
    ensures
        ({
            let low: int = if temp_night <= temp_day {
                temp_night as int
            } else {
                temp_day as int
            };
            let high: int = if temp_night <= temp_day {
                temp_day as int
            } else {
                temp_night as int
            };
            let room: int = if rounded_kelvin < low {
                low
            } else if rounded_kelvin > high {
                high
            } else {
                rounded_kelvin as int
            };
            let target = room_capped(solar_temp, Some(rounded_kelvin), temp_day, temp_night) as int;
            &&& room >= solar_temp ==> target == solar_temp
            &&& room < solar_temp ==> target == room
        }),
{
}

/// The bedtime stage starts exactly `lead_mins` minutes before bedtime, counted around the
/// clock, and runs until wake: `k` minutes after `bedtime - lead_mins` the ramp has run for
/// `k` minutes, for every minute before wake, and the rest of the day is outside the stage.
pub proof fn law_bedtime_stage_runs_from_lead_before_bedtime_to_wake(
    schedule: BedtimeSchedule,
    bedtime: u32,
    k: int,
)
    requires
        schedule.bedtime == Some(bedtime),
        schedule.lead_mins < 1440,
        schedule.wake != bedtime,
        1000 <= schedule.temperature <= 25_000,
        ({
            let start = (bedtime + 1440 - schedule.lead_mins) % 1440;
            let length = (schedule.wake + 1440 - start) % 1440;
            length != 0 && schedule.ramp_mins <= length
        }),
        0 <= k < 1440,
    ensures
        ({
            let start = (bedtime + 1440 - schedule.lead_mins) % 1440;
            let length = (schedule.wake + 1440 - start) % 1440;
            &&& k < length ==> schedule.ramp_at(start + k) == Some(
                BedtimeRamp { elapsed: k as u32, duration: schedule.ramp_mins },
            )
            &&& k >= length ==> schedule.ramp_at(start + k) is None
            &&& schedule.ramp_at(start) == Some(
                BedtimeRamp { elapsed: 0, duration: schedule.ramp_mins },
            )
        }),
{
    law_bedtime_stage_spans_start_to_wake(schedule, k);
    law_bedtime_stage_spans_start_to_wake(schedule, 0);
}

/// Ambiguous or out-of-range schedules fail closed: no bedtime, a lead of a day or more,
/// wake at bedtime, an invalid temperature, an empty stage or a ramp longer than the stage
/// never warm the screen.
pub proof fn law_bedtime_stage_fails_closed(schedule: BedtimeSchedule, minute_of_day: int)
    requires
        !schedule.is_active_schedule(),
    ensures
        schedule.ramp_at(minute_of_day) is None,
{
}

/// A well-formed stage covers exactly the `length()` minutes from its start, and `k` minutes
/// in, `k` minutes of the ramp have elapsed; the rest of the day is outside it.
pub proof fn law_bedtime_stage_spans_start_to_wake(schedule: BedtimeSchedule, k: int)
    requires
        schedule.is_active_schedule(),
        0 <= k < MINUTES_PER_DAY,
    ensures
        k < schedule.length() ==> schedule.ramp_at(schedule.start() + k) == Some(
            BedtimeRamp { elapsed: k as u32, duration: schedule.ramp_mins },
        ),
        k >= schedule.length() ==> schedule.ramp_at(schedule.start() + k) is None,
{
    let d = MINUTES_PER_DAY as int;
    lemma_mod_bound(schedule.wake + d - schedule.start(), d);
    lemma_mod_add_multiples_vanish(k, d);
    assert(schedule.start() + k + d - schedule.start() == d + k);
    assert(k % d == k);
}

/// The stage lets go at wake: the wake minute itself is outside it.
pub proof fn law_bedtime_stage_ends_at_wake(schedule: BedtimeSchedule)
    ensures
        schedule.ramp_at(schedule.wake as int) is None,
{
}

/// Inside the stage the ramp advances one minute per minute of the clock.
pub proof fn law_bedtime_ramp_advances_with_the_clock(
    schedule: BedtimeSchedule,
    minute_of_day: int,
)
    requires
        schedule.ramp_at(minute_of_day) is Some,
        schedule.ramp_at(minute_of_day + 1) is Some,
    ensures
        schedule.ramp_at(minute_of_day + 1)->0.elapsed == schedule.ramp_at(minute_of_day)->0.elapsed
            + 1,
{
    let d = MINUTES_PER_DAY as int;
    let x = minute_of_day + d - schedule.start();
    lemma_mod_bound(schedule.wake + d - schedule.start(), d);
    lemma_mod_bound(x, d);
    lemma_mod_adds(x, 1, d);
    assert(1int % d == 1);
    assert(x + 1 == minute_of_day + 1 + d - schedule.start());
}

} // verus!
