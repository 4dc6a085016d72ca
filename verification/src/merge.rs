use vstd::prelude::*;

verus! {

/// A setting after merging a configuration part into it: the part's value when it sets one.
pub open spec fn merged<T>(current: T, part: Option<T>) -> T {
    match part {
        Some(value) => value,
        None => current,
    }
}

/// Merges an optional setting of a configuration part; see `merged`.
pub fn merge_setting<T>(current: T, part: Option<T>) -> (res: T)
    ensures
        res == merged(current, part),
{
    match part {
        Some(value) => value,
        None => current,
    }
}

/// An on/off switch after merging a part's `on` and `off` flags: `off` wins over `on`, and a
/// part with neither leaves it alone.
pub open spec fn merged_switch(current: bool, on: bool, off: bool) -> bool {
    if off {
        false
    } else if on {
        true
    } else {
        current
    }
}

/// Merges a part's `on` and `off` flags into a switch; see `merged_switch`.
pub fn merge_switch(current: bool, on: bool, off: bool) -> (res: bool)
    ensures
        res == merged_switch(current, on, off),
{
    let mut res = current;
    if on {
        res = true;
    }
    if off {
        res = false;
    }
    res
}

/// Merges a flag that a part can only set, never clear (such as `off` or
/// `temperature-from-lux`).
pub fn merge_flag(current: bool, set: bool) -> (res: bool)
    ensures
        res == (current || set),
{
    current || set
}

/// Merging a part that sets nothing changes nothing, and merging the same part twice is the
/// same as merging it once.
pub proof fn law_merge_is_idempotent<T>(
    current: T,
    part: Option<T>,
    switch: bool,
    on: bool,
    off: bool,
    flag: bool,
    set: bool,
)
    ensures
        merged(current, None::<T>) == current,
        merged(merged(current, part), part) == merged(current, part),
        merged_switch(switch, false, false) == switch,
        merged_switch(merged_switch(switch, on, off), on, off) == merged_switch(switch, on, off),
        (flag || false) == flag,
        ((flag || set) || set) == (flag || set),
{
}

/// A later part overrides an earlier one wherever it sets a value.
pub proof fn law_later_part_wins<T>(current: T, first: T, second: T)
    ensures
        merged(merged(current, Some(first)), Some(second)) == second,
{
}

} // verus!
