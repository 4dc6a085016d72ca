use niri::spawning::{
    child_env_changes, systemd_scope_name, EnvChange, ParentWait, PollOutcome, Transfer,
    TransferStep, WaitStep, EXEC_OK,
};

fn scope(name: &str, pid: u32) -> String {
    String::from_utf8(systemd_scope_name(name.as_bytes(), pid)).unwrap()
}

#[test]
fn scope_names_escape_like_systemd() {
    assert_eq!(scope("alacritty", 1234), "app-niri-alacritty-1234.scope");
    assert_eq!(scope("org.gnome.Nautilus", 7), "app-niri-org.gnome.Nautilus-7.scope");
    assert_eq!(scope("my app", 0), "app-niri-my\\x20app-0.scope");
    assert_eq!(scope("a-b_c:d", 10), "app-niri-a\\x2db_c:d-10.scope");
    assert_eq!(scope("", 4294967295), "app-niri--4294967295.scope");
    assert_eq!(
        String::from_utf8(systemd_scope_name(&[0xff, b'Z'], 5)).unwrap(),
        "app-niri-\\xffZ-5.scope"
    );
    assert_eq!(scope("é", 1), "app-niri-\\xc3\\xa9-1.scope");
}

fn env(name: &str, value: Option<&str>) -> (String, Option<String>) {
    (name.to_owned(), value.map(str::to_owned))
}

fn flat(changes: Vec<EnvChange>) -> Vec<(String, Option<String>)> {
    changes.into_iter().map(|c| (c.name, c.value)).collect()
}

#[test]
fn child_environment_changes_apply_in_order() {
    let configured = vec![EnvChange {
        name: "FOO".to_owned(),
        value: Some("bar".to_owned()),
    }];
    let changes = child_env_changes(
        true,
        false,
        Some(":0".to_owned()),
        configured,
        Some("token".to_owned()),
    );
    assert_eq!(
        flat(changes),
        vec![
            env("RUST_BACKTRACE", None),
            env("NOTIFY_SOCKET", None),
            env("DISPLAY", Some(":0")),
            env("FOO", Some("bar")),
            env("XDG_ACTIVATION_TOKEN", Some("token")),
            env("DESKTOP_STARTUP_ID", Some("token")),
        ]
    );

    let changes = child_env_changes(false, true, None, vec![], None);
    assert_eq!(
        flat(changes),
        vec![
            env("RUST_LIB_BACKTRACE", None),
            env("NOTIFY_SOCKET", None),
            env("DISPLAY", None),
        ]
    );
}

#[test]
fn intermediate_child_waits_for_exec_confirmation() {
    let mut wait = ParentWait::new();
    assert_eq!(wait.poll_count(), 2);
    // A dying grandchild before confirmation means exec failed: let the parent go.
    assert_eq!(
        wait.after_poll(PollOutcome::Ready { pipe: false, grandchild_exited: true }),
        WaitStep::Exit
    );
    assert_eq!(wait.after_poll(PollOutcome::Failed { interrupted: true }), WaitStep::Poll);
    assert_eq!(wait.after_poll(PollOutcome::Failed { interrupted: false }), WaitStep::Exit);
    assert_eq!(
        wait.after_poll(PollOutcome::Ready { pipe: true, grandchild_exited: true }),
        WaitStep::ReadPipe
    );
    assert_eq!(wait.after_read(Some(EXEC_OK)), WaitStep::Poll);
    assert_eq!(wait.poll_count(), 1);
    // After confirmation only the pipe matters.
    assert_eq!(
        wait.after_poll(PollOutcome::Ready { pipe: false, grandchild_exited: true }),
        WaitStep::Poll
    );
    assert_eq!(wait.after_read(None), WaitStep::Exit);
    assert_eq!(ParentWait::new().after_read(Some(7)), WaitStep::Exit);
}

#[test]
fn transfers_finish_when_every_byte_moved() {
    let mut transfer = Transfer::new(4);
    assert_eq!(transfer.advance(1), TransferStep::Continue);
    assert_eq!(transfer.done(), 1);
    assert_eq!(transfer.advance(3), TransferStep::Complete);

    let mut stuck = Transfer::new(4);
    assert_eq!(stuck.advance(2), TransferStep::Continue);
    assert_eq!(stuck.advance(0), TransferStep::Cancelled);
    assert_eq!(stuck.done(), 2);

    assert_eq!(Transfer::new(0).advance(0), TransferStep::Cancelled);
}
