use niri::merge::{merge_flag, merge_setting, merge_switch};

#[test]
fn settings_are_overridden_only_when_the_part_sets_them() {
    assert_eq!(merge_setting(6500u32, None), 6500);
    assert_eq!(merge_setting(6500u32, Some(5000)), 5000);
    assert_eq!(merge_setting(merge_setting(1u64, Some(2)), Some(3)), 3);
    assert_eq!(merge_setting(Some("a"), Some(None)), None);
}

#[test]
fn off_wins_over_on() {
    assert!(merge_switch(false, true, false));
    assert!(!merge_switch(true, false, true));
    assert!(!merge_switch(false, true, true));
    assert!(merge_switch(true, false, false));
    assert!(!merge_switch(false, false, false));
}

#[test]
fn flags_are_sticky() {
    assert!(merge_flag(true, false));
    assert!(merge_flag(false, true));
    assert!(!merge_flag(false, false));
}
