use vstd::prelude::*;

verus! {

/// Messages from the logind watcher to the compositor.
#[derive(Debug, Clone, Copy, PartialEq, Eq, Structural)]
pub enum Login1ToNiri {
    LidClosedChanged(bool),
    PrepareForSleep(bool),
}

/// One entry of a `PropertiesChanged` signal: the property's name, and its new value when
/// that value is a boolean.
pub struct PropertyChange {
    pub name: String,
    pub value: Option<bool>,
}

/// The lid state after the changes `changes`, starting from `lid_closed`, and whether any of
/// them touched `LidClosed` at all. A `LidClosed` entry that is not a boolean keeps the
/// previous state.
pub open spec fn lid_after(lid_closed: bool, changes: Seq<PropertyChange>) -> (bool, bool)
    decreases changes.len(),
{
    if changes.len() == 0 {
        (lid_closed, false)
    } else {
        let (before, touched) = lid_after(lid_closed, changes.drop_last());
        let change = changes.last();
        if change.name@ == "LidClosed"@ {
            (
                match change.value {
                    Some(closed) => closed,
                    None => before,
                },
                true,
            )
        } else {
            (before, touched)
        }
    }
}

/// What the watcher reports for a `PropertiesChanged` signal while the lid is `lid_closed`:
/// a message only when `LidClosed` is among the changes and its value really changed.
pub open spec fn lid_report(lid_closed: bool, changes: Seq<PropertyChange>) -> Option<
    Login1ToNiri,
> {
    let (closed, touched) = lid_after(lid_closed, changes);
    if touched && closed != lid_closed {
        Some(Login1ToNiri::LidClosedChanged(closed))
    } else {
        None
    }
}

/// Tracks the lid switch as logind reports it, and turns property changes into messages.
pub struct LidMonitor {
    lid_closed: bool,
}

impl View for LidMonitor {
    type V = bool;

    closed spec fn view(&self) -> bool {
        self.lid_closed
    }
}

impl LidMonitor {
    /// Starts from logind's initial `LidClosed` property (`None` when missing or not a
    /// boolean, which counts as open) and returns the message announcing it.
    pub fn new(initial: Option<bool>) -> (res: (LidMonitor, Login1ToNiri))
        ensures
            res.0@ == initial_lid(initial),
            res.1 == Login1ToNiri::LidClosedChanged(res.0@),
    {
        let lid_closed = match initial {
            Some(closed) => closed,
            None => false,
        };
        (LidMonitor { lid_closed }, Login1ToNiri::LidClosedChanged(lid_closed))
    }

    /// Whether the lid is closed, as last reported.
    pub fn lid_closed(&self) -> (res: bool)
        ensures
            res == self@,
    {
        self.lid_closed
    }

    /// Handles the changed properties of one `PropertiesChanged` signal, in order.
    pub fn properties_changed(&mut self, changes: &Vec<PropertyChange>) -> (res: Option<
        Login1ToNiri,
    >)
        ensures
            res == lid_report(old(self)@, changes@),
            final(self)@ == (match res {
                Some(Login1ToNiri::LidClosedChanged(closed)) => closed,
                _ => old(self)@,
            }),
    {
        let lid_name = "LidClosed".to_owned();
        let mut closed = self.lid_closed;
        let mut touched = false;
        let mut i: usize = 0;
        while i < changes.len()
            invariant
                i <= changes@.len(),
                lid_name@ == "LidClosed"@,
                (closed, touched) == lid_after(self.lid_closed, changes@.take(i as int)),
            decreases changes@.len() - i,
        {
            let change = &changes[i];
            let ghost next = changes@.take(i + 1);
            assert(next.drop_last() =~= changes@.take(i as int));
            assert(next.last() == changes@[i as int]);
            if change.name == lid_name {
                closed = match change.value {
                    Some(value) => value,
                    None => closed,
                };
                touched = true;
            }
            i = i + 1;
        }
        assert(changes@.take(changes@.len() as int) =~= changes@);
        if !touched || closed == self.lid_closed {
            return None;
        }
        self.lid_closed = closed;
        Some(Login1ToNiri::LidClosedChanged(closed))
    }
}

/// What to do with the sleep inhibitor when logind announces a sleep transition.
#[derive(Debug, Clone, Copy, PartialEq, Eq, Structural)]
pub enum InhibitorAction {
    /// Drop the delay lock so the system may go to sleep.
    Release,
    /// Take a new delay lock for the next sleep.
    Reacquire,
}

/// What happens to the sleep inhibitor on `PrepareForSleep(going_to_sleep)`: released before
/// a sleep, taken again after a resume.
pub open spec fn sleep_action(going_to_sleep: bool) -> InhibitorAction {
    if going_to_sleep {
        InhibitorAction::Release
    } else {
        InhibitorAction::Reacquire
    }
}

/// Handles `PrepareForSleep(going_to_sleep)`: the message for the compositor, and what to do
/// with the inhibitor once it is sent.
pub fn prepare_for_sleep(going_to_sleep: bool) -> (res: (Login1ToNiri, InhibitorAction))
    ensures
        res.0 == Login1ToNiri::PrepareForSleep(going_to_sleep),
        res.1 == sleep_action(going_to_sleep),
{
    let action = if going_to_sleep {
        InhibitorAction::Release
    } else {
        InhibitorAction::Reacquire
    };
    (Login1ToNiri::PrepareForSleep(going_to_sleep), action)
}

/// Signals that do not mention `LidClosed` leave the lid alone and report nothing.
pub proof fn law_unrelated_properties_are_ignored(lid_closed: bool, changes: Seq<PropertyChange>)
    requires
        forall|i: int| 0 <= i < changes.len() ==> changes[i].name@ != "LidClosed"@,
    ensures
        lid_after(lid_closed, changes) == (lid_closed, false),
        lid_report(lid_closed, changes) is None,
    decreases changes.len(),
{
    if changes.len() > 0 {
        let prefix = changes.drop_last();
        assert forall|i: int| 0 <= i < prefix.len() implies prefix[i].name@ != "LidClosed"@ by {
            assert(prefix[i] == changes[i]);
        }
        law_unrelated_properties_are_ignored(lid_closed, prefix);
        assert(changes.last() == changes[changes.len() - 1]);
    }
}

/// A single `LidClosed` entry sets the lid to its value when that is a boolean and leaves it
/// alone otherwise; a watcher started without a usable initial value assumes an open lid.
pub proof fn law_lid_entry_sets_the_lid(lid_closed: bool, change: PropertyChange)
    requires
        change.name@ == "LidClosed"@,
    ensures
        lid_after(lid_closed, seq![change]) == (
            match change.value {
                Some(closed) => closed,
                None => lid_closed,
            },
            true,
        ),
        lid_report(lid_closed, seq![change]) == (match change.value {
            Some(closed) => if closed != lid_closed {
                Some(Login1ToNiri::LidClosedChanged(closed))
            } else {
                None
            },
            None => None,
        }),
        !initial_lid(None),
        initial_lid(Some(true)),
        !initial_lid(Some(false)),
{
    let one = seq![change];
    assert(one.len() == 1);
    assert(one.drop_last() =~= Seq::<PropertyChange>::empty());
    assert(one.last() == change);
    assert(lid_after(lid_closed, Seq::<PropertyChange>::empty()) == (lid_closed, false));
    assert(lid_after(lid_closed, one) == (
        match change.value {
            Some(closed) => closed,
            None => lid_closed,
        },
        true,
    ));
}

/// A report always carries a new lid state: reporting the same signal again from the state
/// it produced reports nothing.
pub proof fn law_lid_reports_only_changes(lid_closed: bool, changes: Seq<PropertyChange>)
    ensures
        lid_report(lid_closed, changes) matches Some(Login1ToNiri::LidClosedChanged(closed))
            ==> closed != lid_closed,
{
}

/// The lid state logind reports through a run of `PropertiesChanged` signals, starting from
/// `lid_closed`: each signal leaves the lid as its `LidClosed` entries say.
pub open spec fn lid_state_after(lid_closed: bool, signals: Seq<Seq<PropertyChange>>) -> bool
    decreases signals.len(),
{
    if signals.len() == 0 {
        lid_closed
    } else {
        lid_after(lid_state_after(lid_closed, signals.drop_last()), signals.last()).0
    }
}

/// The changes of the lid state through a run of signals: one `LidClosedChanged` for every
/// signal after which the lid differs from before it.
pub open spec fn lid_changes(lid_closed: bool, signals: Seq<Seq<PropertyChange>>) -> Seq<
    Login1ToNiri,
>
    decreases signals.len(),
{
    if signals.len() == 0 {
        seq![]
    } else {
        let before = lid_state_after(lid_closed, signals.drop_last());
        let after = lid_state_after(lid_closed, signals);
        lid_changes(lid_closed, signals.drop_last()) + if after != before {
            seq![Login1ToNiri::LidClosedChanged(after)]
        } else {
            seq![]
        }
    }
}

/// What a `LidMonitor` started at `lid_closed` ends at, and the messages it reports, when
/// `properties_changed` is called for each signal of `signals` in turn.
pub open spec fn monitor_run(lid_closed: bool, signals: Seq<Seq<PropertyChange>>) -> (
    bool,
    Seq<Login1ToNiri>,
)
    decreases signals.len(),
{
    if signals.len() == 0 {
        (lid_closed, seq![])
    } else {
        let (lid, sent) = monitor_run(lid_closed, signals.drop_last());
        match lid_report(lid, signals.last()) {
            Some(Login1ToNiri::LidClosedChanged(closed)) => (
                closed,
                sent.push(Login1ToNiri::LidClosedChanged(closed)),
            ),
            _ => (lid, sent),
        }
    }
}

/// The lid state the watcher starts from: logind's initial `LidClosed`, open when missing
/// or not a boolean.
pub open spec fn initial_lid(initial: Option<bool>) -> bool {
    match initial {
        Some(closed) => closed,
        None => false,
    }
}

/// Everything the lid watcher sends to the compositor: the initial state, then what
/// `properties_changed` reports for each signal in turn.
pub open spec fn lid_messages_sent(initial: Option<bool>, signals: Seq<Seq<PropertyChange>>) -> Seq<
    Login1ToNiri,
> {
    seq![Login1ToNiri::LidClosedChanged(initial_lid(initial))] + monitor_run(
        initial_lid(initial),
        signals,
    ).1
}

proof fn lemma_untouched_keeps_lid(lid_closed: bool, changes: Seq<PropertyChange>)
    ensures
        !lid_after(lid_closed, changes).1 ==> lid_after(lid_closed, changes).0 == lid_closed,
    decreases changes.len(),
{
    if changes.len() > 0 {
        lemma_untouched_keeps_lid(lid_closed, changes.drop_last());
    }
}

/// Over a whole run of signals the watcher reports exactly the changes of the lid state:
/// a monitor started at `lid_closed` ends at the lid state logind last reported, and the
/// messages it sends are one `LidClosedChanged` per signal that changed the lid, carrying
/// the new state, in order.
pub proof fn law_lid_messages_are_the_lid_changes(
    lid_closed: bool,
    signals: Seq<Seq<PropertyChange>>,
)
    ensures
        monitor_run(lid_closed, signals) == (
            lid_state_after(lid_closed, signals),
            lid_changes(lid_closed, signals),
        ),
    decreases signals.len(),
{
    if signals.len() > 0 {
        let prefix = signals.drop_last();
        law_lid_messages_are_the_lid_changes(lid_closed, prefix);
        let lid = lid_state_after(lid_closed, prefix);
        lemma_untouched_keeps_lid(lid, signals.last());
    }
}

/// The watcher's whole output is the initial lid state followed by exactly its changes, and
/// every message after the first differs from the one before it.
pub proof fn law_lid_watcher_sends_state_then_changes(
    initial: Option<bool>,
    signals: Seq<Seq<PropertyChange>>,
)
    ensures
        lid_messages_sent(initial, signals) == seq![
            Login1ToNiri::LidClosedChanged(initial_lid(initial)),
        ] + lid_changes(initial_lid(initial), signals),
        forall|i: int|
            0 < i < lid_messages_sent(initial, signals).len() ==> #[trigger] lid_messages_sent(
                initial,
                signals,
            )[i] != lid_messages_sent(initial, signals)[i - 1],
{
    law_lid_messages_are_the_lid_changes(initial_lid(initial), signals);
    lemma_changes_alternate(initial_lid(initial), signals);
    let sent = lid_messages_sent(initial, signals);
    let changes = lid_changes(initial_lid(initial), signals);
    assert forall|i: int| 0 < i < sent.len() implies #[trigger] sent[i] != sent[i - 1] by {
        assert(sent[i] == changes[i - 1]);
        if i == 1 {
            assert(sent[0] == Login1ToNiri::LidClosedChanged(initial_lid(initial)));
        } else {
            assert(sent[i - 1] == changes[i - 2]);
        }
    }
}

/// The value a run of changes ends on: the last change's state, or the start if none.
spec fn last_state(lid_closed: bool, changes: Seq<Login1ToNiri>) -> bool {
    if changes.len() == 0 {
        lid_closed
    } else {
        match changes.last() {
            Login1ToNiri::LidClosedChanged(closed) => closed,
            Login1ToNiri::PrepareForSleep(_) => lid_closed,
        }
    }
}

proof fn lemma_changes_alternate(lid_closed: bool, signals: Seq<Seq<PropertyChange>>)
    ensures
        last_state(lid_closed, lid_changes(lid_closed, signals)) == lid_state_after(
            lid_closed,
            signals,
        ),
        forall|i: int|
            0 <= i < lid_changes(lid_closed, signals).len() ==> (#[trigger] lid_changes(
                lid_closed,
                signals,
            )[i]) is LidClosedChanged,
        lid_changes(lid_closed, signals).len() > 0 ==> lid_changes(lid_closed, signals)[0]
            != Login1ToNiri::LidClosedChanged(lid_closed),
        forall|i: int|
            0 < i < lid_changes(lid_closed, signals).len() ==> #[trigger] lid_changes(
                lid_closed,
                signals,
            )[i] != lid_changes(lid_closed, signals)[i - 1],
    decreases signals.len(),
{
    if signals.len() > 0 {
        let prefix = signals.drop_last();
        lemma_changes_alternate(lid_closed, prefix);
        let before = lid_state_after(lid_closed, prefix);
        let after = lid_state_after(lid_closed, signals);
        let old = lid_changes(lid_closed, prefix);
        let new = lid_changes(lid_closed, signals);
        if after != before {
            assert(new == old.push(Login1ToNiri::LidClosedChanged(after)));
            assert forall|i: int| 0 <= i < new.len() implies (#[trigger] new[i]) is LidClosedChanged by {
                if i < old.len() {
                    assert(new[i] == old[i]);
                }
            }
            assert forall|i: int| 0 < i < new.len() implies #[trigger] new[i] != new[i - 1] by {
                if i < old.len() {
                    assert(new[i] == old[i]);
                    assert(new[i - 1] == old[i - 1]);
                } else {
                    assert(new[i - 1] == old[i - 1]);
                    assert(old[i - 1] is LidClosedChanged);
                    assert(old.last() == old[i - 1]);
                }
            }
            if old.len() > 0 {
                assert(new[0] == old[0]);
            }
        } else {
            assert(new =~= old);
        }
    }
}

/// Whether the watcher holds its sleep delay lock after logind announced the sleep
/// transitions `going_to_sleep`, in order: it starts with one, drops it before each sleep
/// and takes a new one on each resume.
pub open spec fn inhibitor_held_after(going_to_sleep: Seq<bool>) -> bool
    decreases going_to_sleep.len(),
{
    if going_to_sleep.len() == 0 {
        true
    } else {
        match sleep_action(going_to_sleep.last()) {
            InhibitorAction::Release => false,
            InhibitorAction::Reacquire => true,
        }
    }
}

/// After any run of sleep announcements the watcher holds a delay lock exactly when the
/// last announcement was a resume (or there was none): it never blocks a sleep it was told
/// of, and is ready for the next one after every resume.
pub proof fn law_inhibitor_follows_the_last_announcement(going_to_sleep: Seq<bool>)
    ensures
        inhibitor_held_after(going_to_sleep) == (going_to_sleep.len() == 0
            || !going_to_sleep.last()),
{
}

} // verus!
