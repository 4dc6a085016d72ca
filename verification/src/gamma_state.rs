use vstd::prelude::*;

verus! {

/// The abstract state of the night-light's gamma output.
pub struct GammaView {
    /// The temperature last sent to the outputs.
    pub current_temp: u32,
    /// Whether an external gamma client has taken over the outputs.
    pub external_gamma_active: bool,
    /// Whether the feature is switched on.
    pub enabled: bool,
    /// Whether the ramps on the outputs are known to be stale.
    pub needs_reapply: bool,
}

impl GammaView {
    /// A freshly created night light: day temperature, on, and owing a first application.
    pub open spec fn initial(temperature_day: u32) -> GammaView {
        GammaView {
            current_temp: temperature_day,
            external_gamma_active: false,
            enabled: true,
            needs_reapply: true,
        }
    }

    /// Whether we apply gamma ourselves.
    pub open spec fn should_apply(self) -> bool {
        self.enabled && !self.external_gamma_active
    }

    /// Whether the output ramps are known to be out of date and ours to fix.
    pub open spec fn reapply_pending(self) -> bool {
        self.enabled && !self.external_gamma_active && self.needs_reapply
    }

    /// Whether a tick towards `target_temp` sends new ramps.
    pub open spec fn gamma_changes(self, target_temp: u32, brightness_moved: bool) -> bool {
        !self.external_gamma_active && (self.needs_reapply || target_temp != self.current_temp
            || brightness_moved)
    }

    /// The state after a tick towards `target_temp`.
    pub open spec fn after_tick(self, target_temp: u32, brightness_moved: bool) -> GammaView {
        if self.gamma_changes(target_temp, brightness_moved) {
            GammaView { current_temp: target_temp, needs_reapply: false, ..self }
        } else {
            self
        }
    }

    /// The state after an external gamma client connects (`active`) or lets go.
    pub open spec fn after_external_gamma(self, active: bool) -> GammaView {
        GammaView {
            external_gamma_active: active,
            needs_reapply: self.needs_reapply || (self.external_gamma_active && !active),
            ..self
        }
    }

    /// Whether a reload that leaves the feature `enabled` or not switches it off, so the
    /// caller must reset the output ramps.
    pub open spec fn reload_switches_off(self, enabled: bool) -> bool {
        self.enabled && !enabled
    }

    /// The state after a configuration reload that leaves the feature `enabled` or not.
    pub open spec fn after_config(self, enabled: bool) -> GammaView {
        GammaView { enabled, needs_reapply: true, ..self }
    }
}

/// What the night light knows about the gamma ramps on the outputs, and the decisions on
/// when to send new ones.
pub struct GammaState {
    current_temp: u32,
    external_gamma_active: bool,
    enabled: bool,
    needs_reapply: bool,
}

impl View for GammaState {
    type V = GammaView;

    closed spec fn view(&self) -> GammaView {
        GammaView {
            current_temp: self.current_temp,
            external_gamma_active: self.external_gamma_active,
            enabled: self.enabled,
            needs_reapply: self.needs_reapply,
        }
    }
}

impl GammaState {
    /// A switched-on night light starting at `temperature_day`; its first tick sends ramps
    /// even if the target does not move, since the hardware starts at identity.
    pub fn new(temperature_day: u32) -> (res: Self)
        ensures
            res@ == GammaView::initial(temperature_day),
    {
        GammaState {
            current_temp: temperature_day,
            external_gamma_active: false,
            enabled: true,
            needs_reapply: true,
        }
    }

    /// Whether the feature is switched on.
    pub fn is_enabled(&self) -> (res: bool)
        ensures
            res == self@.enabled,
    {
        self.enabled
    }

    /// Notes that an external wlr-gamma-control client connected (`true`) or left (`false`).
    ///
    /// A client resets the ramps to identity on its way out, so ours go back afterwards.
    pub fn set_external_gamma_active(&mut self, active: bool)
        ensures
            final(self)@ == old(self)@.after_external_gamma(active),
    {
        if self.external_gamma_active && !active {
            self.needs_reapply = true;
        }
        self.external_gamma_active = active;
    }

    /// Whether the output ramps are known to be out of date.
    pub fn needs_reapply(&self) -> (res: bool)
        ensures
            res == self@.reapply_pending(),
    {
        self.enabled && !self.external_gamma_active && self.needs_reapply
    }

    /// Forces the next tick to re-apply the current ramps, after something reset the
    /// hardware gamma behind our back.
    pub fn request_reapply(&mut self)
        ensures
            final(self)@ == (GammaView { needs_reapply: true, ..old(self)@ }),
    {
        self.needs_reapply = true;
    }

    /// Whether we should be applying gamma ourselves.
    pub fn should_apply(&self) -> (res: bool)
        ensures
            res == self@.should_apply(),
    {
        self.enabled && !self.external_gamma_active
    }

    /// The temperature last sent to the outputs.
    pub fn current_temp(&self) -> (res: u32)
        ensures
            res == self@.current_temp,
    {
        self.current_temp
    }

    /// Records a configuration reload; the ramps are re-sent on the next tick.
    ///
    /// Returns `true` when the feature was just switched off, so the caller resets the output
    /// ramps instead of leaving the last tint on screen.
    pub fn update_config(&mut self, enabled: bool) -> (switched_off: bool)
        ensures
            final(self)@ == old(self)@.after_config(enabled),
            switched_off == old(self)@.reload_switches_off(enabled),
    {
        let was_enabled = self.enabled;
        self.enabled = enabled;
        self.needs_reapply = true;
        was_enabled && !self.enabled
    }

    /// Decides whether a tick towards `target_temp` sends new ramps, and records it.
    ///
    /// `brightness_moved` says whether the target brightness differs noticeably from the
    /// current one. Nothing is sent while an external client owns the ramps.
    pub fn tick(&mut self, target_temp: u32, brightness_moved: bool) -> (gamma_changed: bool)
        ensures
            gamma_changed == old(self)@.gamma_changes(target_temp, brightness_moved),
            final(self)@ == old(self)@.after_tick(target_temp, brightness_moved),
    {
        let gamma_changed = !self.external_gamma_active && (self.needs_reapply || target_temp
            != self.current_temp || brightness_moved);
        if gamma_changed {
            self.current_temp = target_temp;
            self.needs_reapply = false;
        }
        gamma_changed
    }
}

/// A tick that sends ramps settles the outputs: they show the target, nothing is pending,
/// and ticking again towards the same target with the brightness in place sends nothing.
pub proof fn law_tick_settles(state: GammaView, target_temp: u32, brightness_moved: bool)
    requires
        state.gamma_changes(target_temp, brightness_moved),
    ensures
        state.after_tick(target_temp, brightness_moved).current_temp == target_temp,
        !state.after_tick(target_temp, brightness_moved).reapply_pending(),
        !state.after_tick(target_temp, brightness_moved).gamma_changes(target_temp, false),
{
}

/// Without an external client, a tick towards any target other than the current
/// temperature, warmer or cooler, sends ramps and records the target; so does any tick while
/// a re-application is pending or the brightness moved.
pub proof fn law_any_change_sends_ramps(state: GammaView, target_temp: u32, brightness_moved: bool)
    requires
        !state.external_gamma_active,
        target_temp != state.current_temp || state.needs_reapply || brightness_moved,
    ensures
        state.gamma_changes(target_temp, brightness_moved),
        state.after_tick(target_temp, brightness_moved).current_temp == target_temp,
        !state.after_tick(target_temp, brightness_moved).needs_reapply,
        state.after_tick(target_temp, brightness_moved).enabled == state.enabled,
{
}

/// Nothing is sent when nothing changed: the same target, no pending re-application and the
/// brightness in place leave the outputs and the state alone.
pub proof fn law_unchanged_target_sends_nothing(state: GammaView)
    requires
        !state.needs_reapply,
    ensures
        !state.gamma_changes(state.current_temp, false),
        state.after_tick(state.current_temp, false) == state,
{
}

/// While an external client owns the ramps, ticks send nothing and change nothing.
pub proof fn law_external_client_owns_the_ramps(
    state: GammaView,
    target_temp: u32,
    brightness_moved: bool,
)
    requires
        state.external_gamma_active,
    ensures
        !state.gamma_changes(target_temp, brightness_moved),
        state.after_tick(target_temp, brightness_moved) == state,
        !state.should_apply(),
{
}

/// When an external client lets go, our ramps go back on the next tick without waiting for
/// the target to drift.
pub proof fn law_ramps_return_after_external_client(state: GammaView, target_temp: u32)
    requires
        state.external_gamma_active,
        state.enabled,
    ensures
        state.after_external_gamma(false).reapply_pending(),
        state.after_external_gamma(false).gamma_changes(target_temp, false),
{
}

/// A fresh night light sends ramps on its first tick, whatever the target.
pub proof fn law_first_tick_applies(temperature_day: u32, target_temp: u32)
    ensures
        GammaView::initial(temperature_day).gamma_changes(target_temp, false),
{
}

/// Only the switch from on to off asks for a reset; reloading while off does not ask again,
/// and every reload re-sends the ramps once the feature is on.
pub proof fn law_switch_off_reported_once(state: GammaView)
    ensures
        state.reload_switches_off(false) == state.enabled,
        !state.after_config(false).reload_switches_off(false),
        !state.reload_switches_off(true),
        !state.after_config(false).should_apply(),
        state.after_config(true).gamma_changes(state.current_temp, false)
            == !state.external_gamma_active,
{
}

} // verus!
