use std::path::PathBuf;

use niri::sensor::{runtime_expansion, sensor_is_fresh, RuntimeExpansion};
use niri::text::parse_first_u64;

/// Expands `path` against `runtime_dir` the way the sysfs reader does.
fn expand(path: &str, runtime_dir: &str) -> PathBuf {
    match runtime_expansion(path) {
        RuntimeExpansion::Unchanged => PathBuf::from(path),
        RuntimeExpansion::RuntimeDir => PathBuf::from(runtime_dir),
        RuntimeExpansion::UnderRuntimeDir(rest) => PathBuf::from(runtime_dir).join(rest),
    }
}

#[test]
fn expands_xdg_runtime_dir_paths() {
    let runtime_dir = "/run/user/1000";

    assert_eq!(
        expand("$XDG_RUNTIME_DIR/niri-ambient-lux", runtime_dir),
        PathBuf::from("/run/user/1000/niri-ambient-lux")
    );
    assert_eq!(
        expand("${XDG_RUNTIME_DIR}/niri-ambient-lux", runtime_dir),
        PathBuf::from("/run/user/1000/niri-ambient-lux")
    );
}

#[test]
fn runtime_dir_itself_and_other_paths() {
    assert_eq!(runtime_expansion("$XDG_RUNTIME_DIR"), RuntimeExpansion::RuntimeDir);
    assert_eq!(runtime_expansion("${XDG_RUNTIME_DIR}"), RuntimeExpansion::RuntimeDir);
    assert_eq!(
        runtime_expansion("$XDG_RUNTIME_DIR/"),
        RuntimeExpansion::UnderRuntimeDir(String::new())
    );
    assert_eq!(runtime_expansion("/tmp/lux"), RuntimeExpansion::Unchanged);
    assert_eq!(runtime_expansion("$XDG_RUNTIME_DIRX"), RuntimeExpansion::Unchanged);
    assert_eq!(runtime_expansion("x/$XDG_RUNTIME_DIR/a"), RuntimeExpansion::Unchanged);
    assert_eq!(runtime_expansion(""), RuntimeExpansion::Unchanged);
}

#[test]
fn ignores_a_stale_sensor_file() {
    // Just written: fresh.
    assert!(sensor_is_fresh(60, 0, 1_000));
    // A sampler that died an hour ago leaves a perfectly readable file.
    assert!(!sensor_is_fresh(60, 3600, 0));
    // Age checking is opt-out for sensors that legitimately never change.
    assert!(sensor_is_fresh(0, 3600, 0));
}

#[test]
fn freshness_boundary_is_inclusive() {
    assert!(sensor_is_fresh(60, 60, 0));
    assert!(!sensor_is_fresh(60, 60, 1));
    assert!(sensor_is_fresh(60, 59, 999_999_999));
    assert!(!sensor_is_fresh(1, u64::MAX, 0));
}

#[test]
fn sysfs_integers_are_read_from_the_first_word() {
    assert_eq!(parse_first_u64("800\n"), Some(800));
    assert_eq!(parse_first_u64("  42 17"), Some(42));
    assert_eq!(parse_first_u64("+7"), Some(7));
    assert_eq!(parse_first_u64(""), None);
    assert_eq!(parse_first_u64(" \n\t"), None);
    assert_eq!(parse_first_u64("-1"), None);
    assert_eq!(parse_first_u64("12abc 3"), None);
    assert_eq!(parse_first_u64("18446744073709551615"), Some(u64::MAX));
    assert_eq!(parse_first_u64("18446744073709551616"), None);
    assert_eq!(parse_first_u64("0000000000000000000000001"), Some(1));
}
