use vstd::prelude::*;
use vstd::string::*;

use crate::text::{chars_of, has_prefix};

verus! {

/// Nanoseconds in a second.
pub const NANOS_PER_SEC: u32 = 1_000_000_000;

/// Whether a sensor file last written `age_secs` seconds and `age_nanos` nanoseconds ago may
/// still be trusted when files older than `max_age_secs` are stale; `0` turns the check off.
///
/// A sampler that dies leaves its last value on disk forever; without an age check that is
/// indistinguishable from a live reading.
pub fn sensor_is_fresh(max_age_secs: u64, age_secs: u64, age_nanos: u32) -> (res: bool)
    requires
        age_nanos < NANOS_PER_SEC,
    ensures
        res == (max_age_secs == 0 || age_secs * (NANOS_PER_SEC as int) + age_nanos
            <= max_age_secs * (NANOS_PER_SEC as int)),
{
    if max_age_secs == 0 {
        return true;
    }
    proof {
        assert(age_secs < max_age_secs ==> age_secs * (NANOS_PER_SEC as int) + age_nanos
            < max_age_secs * (NANOS_PER_SEC as int)) by (nonlinear_arith)
            requires
                age_nanos < NANOS_PER_SEC,
        ;
        assert(age_secs > max_age_secs ==> age_secs * (NANOS_PER_SEC as int) >= max_age_secs
            * (NANOS_PER_SEC as int) + NANOS_PER_SEC) by (nonlinear_arith);
    }
    age_secs < max_age_secs || (age_secs == max_age_secs && age_nanos == 0)
}

/// How a configured sensor or backlight path refers to `$XDG_RUNTIME_DIR`.
#[derive(Debug, PartialEq, Eq)]
pub enum RuntimeExpansion {
    /// The path does not mention the runtime directory and is used as written.
    Unchanged,
    /// The path is the runtime directory itself.
    RuntimeDir,
    /// The path is the given relative path under the runtime directory.
    UnderRuntimeDir(String),
}

/// Whether `text` names the runtime directory itself.
pub open spec fn names_runtime_dir(text: Seq<char>) -> bool {
    text == "$XDG_RUNTIME_DIR"@ || text == "${XDG_RUNTIME_DIR}"@
}

/// Whether `text` starts with `prefix`.
pub open spec fn starts_with(text: Seq<char>, prefix: Seq<char>) -> bool {
    prefix.len() <= text.len() && text.subrange(0, prefix.len() as int) == prefix
}

/// The part of `text` under the runtime directory, if it starts with `$XDG_RUNTIME_DIR/`
/// or `${XDG_RUNTIME_DIR}/`.
pub open spec fn under_runtime_dir(text: Seq<char>) -> Option<Seq<char>> {
    let plain = "$XDG_RUNTIME_DIR/"@;
    let braced = "${XDG_RUNTIME_DIR}/"@;
    if starts_with(text, plain) {
        Some(text.subrange(plain.len() as int, text.len() as int))
    } else if starts_with(text, braced) {
        Some(text.subrange(braced.len() as int, text.len() as int))
    } else {
        None
    }
}

/// Both spellings of the runtime directory expand, alone or followed by `/` and a path:
/// whatever follows the `/` is the path under the runtime directory, and text that does
/// not start with `$` is left alone.
pub proof fn law_runtime_dir_spellings(rest: Seq<char>, other: Seq<char>)
    requires
        other.len() == 0 || other[0] != '$',
    ensures
        names_runtime_dir("$XDG_RUNTIME_DIR"@),
        names_runtime_dir("${XDG_RUNTIME_DIR}"@),
        under_runtime_dir("$XDG_RUNTIME_DIR/"@ + rest) == Some(rest),
        under_runtime_dir("${XDG_RUNTIME_DIR}/"@ + rest) == Some(rest),
        !names_runtime_dir(other),
        under_runtime_dir(other) is None,
{
    reveal_strlit("$XDG_RUNTIME_DIR/");
    reveal_strlit("${XDG_RUNTIME_DIR}/");
    reveal_strlit("$XDG_RUNTIME_DIR");
    reveal_strlit("${XDG_RUNTIME_DIR}");
    let plain = "$XDG_RUNTIME_DIR/"@;
    let braced = "${XDG_RUNTIME_DIR}/"@;
    let p = plain + rest;
    let b = braced + rest;
    assert(p.subrange(0, plain.len() as int) =~= plain);
    assert(p.subrange(plain.len() as int, p.len() as int) =~= rest);
    assert(b.subrange(0, plain.len() as int)[1] != plain[1]);
    assert(b.subrange(0, braced.len() as int) =~= braced);
    assert(b.subrange(braced.len() as int, b.len() as int) =~= rest);
    if other.len() > 0 {
        assert(other != "$XDG_RUNTIME_DIR"@ ) by {
            assert("$XDG_RUNTIME_DIR"@[0] == '$');
        }
        assert(other != "${XDG_RUNTIME_DIR}"@ ) by {
            assert("${XDG_RUNTIME_DIR}"@[0] == '$');
        }
        if plain.len() <= other.len() {
            assert(other.subrange(0, plain.len() as int)[0] != plain[0]);
        }
        if braced.len() <= other.len() {
            assert(other.subrange(0, braced.len() as int)[0] != braced[0]);
        }
    } else {
        assert(other != "$XDG_RUNTIME_DIR"@ );
        assert(other != "${XDG_RUNTIME_DIR}"@ );
    }
}

/// How the path spelled `text` expands when `$XDG_RUNTIME_DIR` is set.
pub fn runtime_expansion(text: &str) -> (res: RuntimeExpansion)
    ensures
        match res {
            RuntimeExpansion::RuntimeDir => names_runtime_dir(text@),
            RuntimeExpansion::UnderRuntimeDir(rest) => !names_runtime_dir(text@)
                && under_runtime_dir(text@) == Some(rest@),
            RuntimeExpansion::Unchanged => !names_runtime_dir(text@) && under_runtime_dir(text@)
                is None,
        },
{
    let v = chars_of(text);
    let plain_dir = chars_of("$XDG_RUNTIME_DIR");
    let braced_dir = chars_of("${XDG_RUNTIME_DIR}");
    if (v.len() == plain_dir.len() && has_prefix(&v, &plain_dir)) || (v.len() == braced_dir.len()
        && has_prefix(&v, &braced_dir)) {
        proof {
            if v@.len() == plain_dir@.len() && v@.subrange(0, plain_dir@.len() as int)
                == plain_dir@ {
                assert(v@ =~= v@.subrange(0, v@.len() as int));
            } else {
                assert(v@ =~= v@.subrange(0, v@.len() as int));
            }
        }
        return RuntimeExpansion::RuntimeDir;
    }
    proof {
        if v@ == plain_dir@ {
            assert(v@.subrange(0, v@.len() as int) =~= v@);
        }
        if v@ == braced_dir@ {
            assert(v@.subrange(0, v@.len() as int) =~= v@);
        }
    }
    let plain = chars_of("$XDG_RUNTIME_DIR/");
    if has_prefix(&v, &plain) {
        let rest = text.substring_char(plain.len(), v.len()).to_owned();
        return RuntimeExpansion::UnderRuntimeDir(rest);
    }
    let braced = chars_of("${XDG_RUNTIME_DIR}/");
    if has_prefix(&v, &braced) {
        let rest = text.substring_char(braced.len(), v.len()).to_owned();
        return RuntimeExpansion::UnderRuntimeDir(rest);
    }
    RuntimeExpansion::Unchanged
}

} // verus!
