use vstd::prelude::*;

verus! {

/// The classes of I/O error that the backlight logic tells apart.
#[derive(Debug, Clone, Copy, PartialEq, Eq, Structural)]
pub enum IoErrorKind {
    PermissionDenied,
    ReadOnlyFilesystem,
    InvalidData,
    NotFound,
    Other,
}

/// An I/O failure the library reports: its kind and a fixed message.
#[derive(Debug, Clone, Copy, PartialEq, Eq)]
pub struct IoFault {
    pub kind: IoErrorKind,
    pub message: &'static str,
}

/// Whether a failed sysfs write means we may not write there, so logind should do it.
pub fn is_permission_denied(kind: IoErrorKind) -> (res: bool)
    ensures
        res == (kind == IoErrorKind::PermissionDenied || kind == IoErrorKind::ReadOnlyFilesystem),
{
    match kind {
        IoErrorKind::PermissionDenied | IoErrorKind::ReadOnlyFilesystem => true,
        _ => false,
    }
}

/// The failure for a sysfs file whose contents make no sense.
pub fn invalid_data(message: &'static str) -> (res: IoFault)
    ensures
        res.kind == IoErrorKind::InvalidData,
        res.message == message,
{
    IoFault { kind: IoErrorKind::InvalidData, message }
}

/// The brightness value logind's `SetBrightness` takes: the raw target, saturated to `u32`.
pub fn logind_brightness(target: u64) -> (res: u32)
    ensures
        res == (if target <= u32::MAX {
            target as int
        } else {
            u32::MAX as int
        }),
{
    if target <= u32::MAX as u64 {
        target as u32
    } else {
        u32::MAX
    }
}

/// Whether two raw backlight values differ by more than the panel's rounding.
pub open spec fn moved_externally(current: u64, last: u64) -> bool {
    current > last + 1 || last > current + 1
}

/// The abstract state of the backlight writer.
pub struct BacklightView {
    /// Whether sysfs refused a write, so logind does them from now on.
    pub use_logind: bool,
    /// The raw value of our last successful write.
    pub last_written: Option<u64>,
    /// End of the current manual hold, in nanoseconds of the caller's clock.
    pub manual_hold_until: Option<u128>,
}

/// What the first half of the manual-override check found.
#[derive(Debug, Clone, Copy, PartialEq, Eq, Structural)]
pub enum OverrideCheck {
    /// A manual change is being honoured: leave the backlight alone.
    Held,
    /// No manual change can be pending: drive the backlight.
    Clear,
    /// Read the panel's current value and finish the check with it.
    ReadPanel,
}

impl BacklightView {
    /// The outcome of the first half of the check at `now` with a hold of `hold` nanoseconds.
    pub open spec fn check(self, hold: u128, now: u128) -> OverrideCheck {
        if hold == 0 {
            OverrideCheck::Clear
        } else if self.manual_hold_until is Some && now < self.manual_hold_until->0 {
            OverrideCheck::Held
        } else if self.last_written is None {
            OverrideCheck::Clear
        } else {
            OverrideCheck::ReadPanel
        }
    }

    /// The state after the first half of the check: an expired hold is forgotten.
    pub open spec fn after_check(self, hold: u128, now: u128) -> BacklightView {
        if hold != 0 && self.manual_hold_until is Some && now >= self.manual_hold_until->0 {
            BacklightView { manual_hold_until: None, ..self }
        } else {
            self
        }
    }

    /// Whether the panel reading `reading` (`None` when it could not be read) shows a manual
    /// change against our last write.
    pub open spec fn reading_overrides(self, reading: Option<u64>) -> bool {
        reading is Some && self.last_written is Some && moved_externally(
            reading->0,
            self.last_written->0,
        )
    }

    /// The state after sysfs refused a write with an error of `kind`: permission errors
    /// move the writer to logind for good.
    pub open spec fn after_sysfs_failure(self, kind: IoErrorKind) -> BacklightView {
        BacklightView {
            use_logind: self.use_logind || kind == IoErrorKind::PermissionDenied || kind
                == IoErrorKind::ReadOnlyFilesystem,
            ..self
        }
    }

    /// The state after the second half of the check.
    pub open spec fn after_reading(self, hold: u128, now: u128, reading: Option<u64>) -> BacklightView {
        if self.reading_overrides(reading) {
            BacklightView {
                manual_hold_until: Some((now + hold) as u128),
                last_written: reading,
                ..self
            }
        } else {
            self
        }
    }
}

/// The decisions of the adaptive backlight writer: whether a manual change is being honoured,
/// and whether writes go to sysfs or through logind.
pub struct BacklightControl {
    use_logind: bool,
    last_written: Option<u64>,
    manual_hold_until: Option<u128>,
}

impl View for BacklightControl {
    type V = BacklightView;

    closed spec fn view(&self) -> BacklightView {
        BacklightView {
            use_logind: self.use_logind,
            last_written: self.last_written,
            manual_hold_until: self.manual_hold_until,
        }
    }
}

impl BacklightControl {
    /// A writer that has written nothing yet and tries sysfs first.
    pub fn new() -> (res: Self)
        ensures
            res@ == (BacklightView { use_logind: false, last_written: None, manual_hold_until: None }),
    {
        BacklightControl { use_logind: false, last_written: None, manual_hold_until: None }
    }

    /// Whether writes go through logind.
    pub fn use_logind(&self) -> (res: bool)
        ensures
            res == self@.use_logind,
    {
        self.use_logind
    }

    /// The raw value of our last successful write.
    pub fn last_written(&self) -> (res: Option<u64>)
        ensures
            res == self@.last_written,
    {
        self.last_written
    }

    /// First half of the manual-override check, at `now` with a hold of `hold` nanoseconds;
    /// `hold == 0` disables holds.
    pub fn check_manual_override(&mut self, hold: u128, now: u128) -> (res: OverrideCheck)
        ensures
            res == old(self)@.check(hold, now),
            final(self)@ == old(self)@.after_check(hold, now),
    {
        if hold == 0 {
            return OverrideCheck::Clear;
        }
        if let Some(until) = self.manual_hold_until {
            if now < until {
                return OverrideCheck::Held;
            }
            self.manual_hold_until = None;
        }
        match self.last_written {
            None => OverrideCheck::Clear,
            Some(_) => OverrideCheck::ReadPanel,
        }
    }

    /// Second half of the check, after `ReadPanel`: `reading` is the panel's current value,
    /// `None` if it could not be read.
    ///
    /// A difference beyond the panel's rounding is a manual change: it is honoured until
    /// `now + hold`, and the user's value becomes the new baseline.
    pub fn finish_manual_override(&mut self, hold: u128, now: u128, reading: Option<u64>) -> (res:
        bool)
        requires
            now + hold <= u128::MAX,
        ensures
            res == old(self)@.reading_overrides(reading),
            final(self)@ == old(self)@.after_reading(hold, now, reading),
    {
        match (reading, self.last_written) {
            (Some(current), Some(last)) => {
                let moved = if current > last {
                    current - last > 1
                } else {
                    last - current > 1
                };
                if moved {
                    self.manual_hold_until = Some(now + hold);
                    self.last_written = Some(current);
                    true
                } else {
                    false
                }
            },
            _ => false,
        }
    }

    /// Records a successful write of the raw value `target`.
    pub fn record_write(&mut self, target: u64)
        ensures
            final(self)@ == (BacklightView { last_written: Some(target), ..old(self)@ }),
    {
        self.last_written = Some(target);
    }

    /// Decides what to do after sysfs refused a write with an error of `kind`: `true` to
    /// switch to logind for good and retry there, `false` to report the error.
    pub fn sysfs_write_failed(&mut self, kind: IoErrorKind) -> (retry_with_logind: bool)
        ensures
            retry_with_logind == (kind == IoErrorKind::PermissionDenied || kind
                == IoErrorKind::ReadOnlyFilesystem),
            final(self)@ == old(self)@.after_sysfs_failure(kind),
    {
        if is_permission_denied(kind) {
            self.use_logind = true;
            true
        } else {
            false
        }
    }
}

/// With holds disabled the user's changes are never honoured: the check always clears.
pub proof fn law_zero_hold_never_pauses(state: BacklightView, now: u128)
    ensures
        state.check(0, now) == OverrideCheck::Clear,
        state.after_check(0, now) == state,
{
}

/// The panel may round our value by one either way; that is never a manual change.
pub proof fn law_panel_rounding_is_not_manual(state: BacklightView, last: u64, reading: u64)
    requires
        state.last_written == Some(last),
        reading <= last + 1,
        last <= reading + 1,
    ensures
        !state.reading_overrides(Some(reading)),
{
}

/// Any move of the panel by more than one step from our last write, up or down, is a manual
/// change: it is reported, held until `now + hold`, and the user's value becomes the baseline.
/// Dimming with the brightness keys counts as much as brightening.
pub proof fn law_moves_either_way_are_manual(
    state: BacklightView,
    last: u64,
    reading: u64,
    hold: u128,
    now: u128,
)
    requires
        state.last_written == Some(last),
        reading + 1 < last || last + 1 < reading,
        now + hold <= u128::MAX,
    ensures
        state.reading_overrides(Some(reading)),
        state.after_reading(hold, now, Some(reading)).manual_hold_until == Some((now + hold) as u128),
        state.after_reading(hold, now, Some(reading)).last_written == Some(reading),
        state.after_reading(hold, now, Some(reading)).use_logind == state.use_logind,
{
}

/// A reading that shows no manual change, or no reading at all, leaves the writer exactly as
/// it was.
pub proof fn law_no_manual_change_changes_nothing(
    state: BacklightView,
    reading: Option<u64>,
    hold: u128,
    now: u128,
)
    requires
        match (reading, state.last_written) {
            (Some(r), Some(l)) => r <= l + 1 && l <= r + 1,
            _ => true,
        },
    ensures
        !state.reading_overrides(reading),
        state.after_reading(hold, now, reading) == state,
{
}

/// A detected manual change is honoured for the whole hold, and then the writer resumes
/// against the user's value as its baseline.
pub proof fn law_manual_change_is_held(
    state: BacklightView,
    hold: u128,
    now: u128,
    reading: u64,
    later: u128,
)
    requires
        hold > 0,
        now + hold <= u128::MAX,
        state.reading_overrides(Some(reading)),
    ensures
        later < now + hold ==> state.after_reading(hold, now, Some(reading)).check(hold, later)
            == OverrideCheck::Held,
        later >= now + hold ==> state.after_reading(hold, now, Some(reading)).check(hold, later)
            == OverrideCheck::ReadPanel,
        later >= now + hold ==> !state.after_reading(hold, now, Some(reading)).after_check(
            hold,
            later,
        ).reading_overrides(Some(reading)),
{
}

/// Our own successful write is the baseline: reading it back is not a manual change.
pub proof fn law_own_write_is_not_manual(state: BacklightView, target: u64)
    ensures
        !(BacklightView { last_written: Some(target), ..state }).reading_overrides(Some(target)),
{
}

/// Once sysfs has refused a write, the writer never goes back to it.
pub proof fn law_logind_is_sticky(state: BacklightView, kind: IoErrorKind)
    requires
        state.use_logind,
    ensures
        state.after_sysfs_failure(kind).use_logind,
        state.after_sysfs_failure(kind).last_written == state.last_written,
{
}

/// How an attempt to apply a backlight ratio ended.
#[derive(Debug, Clone, Copy, PartialEq, Eq, Structural)]
pub enum RatioEvent {
    /// The backlight device could not be resolved.
    OpenFailed,
    /// A manual change is being honoured, so nothing was written.
    HeldByUser,
    /// Writing the ratio failed.
    WriteFailed,
    /// The ratio was written.
    Written,
}

/// What the night light does after an attempt to apply a backlight ratio.
#[derive(Debug, Clone, Copy, PartialEq, Eq, Structural)]
pub struct RatioResponse {
    /// Forget the target the adaptive controller recorded, so it is offered again instead of
    /// being held back by hysteresis as if it had been applied.
    pub forget_target: bool,
    /// Drop the resolved device, so the next attempt resolves it afresh.
    pub drop_device: bool,
    /// Report success to the caller.
    pub succeeded: bool,
}

/// The response to `event`: the target is forgotten whenever it was not applied, the device
/// is dropped after a failed write, and only failures are reported as errors.
pub open spec fn ratio_response(event: RatioEvent) -> RatioResponse {
    RatioResponse {
        forget_target: event != RatioEvent::Written,
        drop_device: event == RatioEvent::WriteFailed,
        succeeded: event == RatioEvent::HeldByUser || event == RatioEvent::Written,
    }
}

/// Decides what follows an attempt to apply a backlight ratio; see `ratio_response`.
pub fn respond_to_ratio(event: RatioEvent) -> (res: RatioResponse)
    ensures
        res == ratio_response(event),
{
    match event {
        RatioEvent::OpenFailed => RatioResponse {
            forget_target: true,
            drop_device: false,
            succeeded: false,
        },
        RatioEvent::HeldByUser => RatioResponse {
            forget_target: true,
            drop_device: false,
            succeeded: true,
        },
        RatioEvent::WriteFailed => RatioResponse {
            forget_target: true,
            drop_device: true,
            succeeded: false,
        },
        RatioEvent::Written => RatioResponse {
            forget_target: false,
            drop_device: false,
            succeeded: true,
        },
    }
}

/// A target that never reached the panel is never kept as applied: one failed or held
/// attempt cannot leave hysteresis suppressing every later one.
pub proof fn law_unapplied_targets_are_forgotten(event: RatioEvent)
    ensures
        ratio_response(event).forget_target <==> event != RatioEvent::Written,
        ratio_response(event).drop_device ==> !ratio_response(event).succeeded,
        ratio_response(event).drop_device <==> event == RatioEvent::WriteFailed,
        ratio_response(event).succeeded <==> (event == RatioEvent::HeldByUser || event
            == RatioEvent::Written),
{
}

} // verus!
