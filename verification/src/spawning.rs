use vstd::prelude::*;
use vstd::string::*;

verus! {

/// Whether the byte `c` stays as it is in a systemd unit name: ASCII letters and digits,
/// `:`, `_` and `.`.
pub open spec fn is_unit_name_byte(c: u8) -> bool {
    ||| 0x30 <= c <= 0x39
    ||| 0x41 <= c <= 0x5a
    ||| 0x61 <= c <= 0x7a
    ||| c == 0x3a
    ||| c == 0x5f
    ||| c == 0x2e
}

/// The lower-case hexadecimal digit for `n < 16`.
pub open spec fn hex_digit(n: u8) -> u8 {
    if n < 10 {
        (0x30 + n) as u8
    } else {
        (0x61 + n - 10) as u8
    }
}

/// How one byte of a command's name appears in a unit name: as itself, or as `\xNN` in
/// lower-case hexadecimal.
pub open spec fn escape_byte(c: u8) -> Seq<u8> {
    if is_unit_name_byte(c) {
        seq![c]
    } else {
        seq![0x5cu8, 0x78u8, hex_digit(c / 16), hex_digit(c % 16)]
    }
}

/// The escaped form of `name`, byte by byte.
pub open spec fn escape_unit_name(name: Seq<u8>) -> Seq<u8>
    decreases name.len(),
{
    if name.len() == 0 {
        seq![]
    } else {
        escape_unit_name(name.drop_last()) + escape_byte(name.last())
    }
}

/// The decimal digits of `n`, without leading zeros.
pub open spec fn decimal(n: nat) -> Seq<u8>
    decreases n,
{
    if n < 10 {
        seq![(0x30 + n) as u8]
    } else {
        decimal(n / 10) + seq![(0x30 + n % 10) as u8]
    }
}

/// The prefix of every scope niri starts for a child.
pub open spec fn scope_prefix() -> Seq<u8> {
    seq![0x61u8, 0x70u8, 0x70u8, 0x2du8, 0x6eu8, 0x69u8, 0x72u8, 0x69u8, 0x2du8]
}

/// The suffix of every scope unit name.
pub open spec fn scope_suffix() -> Seq<u8> {
    seq![0x2eu8, 0x73u8, 0x63u8, 0x6fu8, 0x70u8, 0x65u8]
}

/// The transient scope unit for the child `child_pid` of the command whose base name is
/// `name`: `app-niri-<escaped name>-<pid>.scope`.
pub open spec fn scope_name(name: Seq<u8>, child_pid: nat) -> Seq<u8> {
    scope_prefix() + escape_unit_name(name) + seq![0x2du8] + decimal(child_pid) + scope_suffix()
}

/// Whether every byte of `s` is ASCII.
pub open spec fn is_ascii_bytes(s: Seq<u8>) -> bool {
    forall|i: int| 0 <= i < s.len() ==> #[trigger] s[i] < 0x80
}

proof fn lemma_escape_is_ascii(name: Seq<u8>)
    ensures
        is_ascii_bytes(escape_unit_name(name)),
    decreases name.len(),
{
    if name.len() > 0 {
        lemma_escape_is_ascii(name.drop_last());
        let c = name.last();
        let head = escape_unit_name(name.drop_last());
        let tail = escape_byte(c);
        assert(c / 16 < 16 && c % 16 < 16);
        assert forall|i: int| 0 <= i < head.len() + tail.len() implies #[trigger] (head
            + tail)[i] < 0x80 by {
            if i >= head.len() {
                assert((head + tail)[i] == tail[i - head.len()]);
            } else {
                assert((head + tail)[i] == head[i]);
            }
        }
    }
}

proof fn lemma_decimal_is_ascii(n: nat)
    ensures
        is_ascii_bytes(decimal(n)),
    decreases n,
{
    if n >= 10 {
        lemma_decimal_is_ascii(n / 10);
        let head = decimal(n / 10);
        let tail = seq![(0x30 + n % 10) as u8];
        assert forall|i: int| 0 <= i < head.len() + 1 implies #[trigger] (head + tail)[i] < 0x80 by {
            if i < head.len() {
                assert((head + tail)[i] == head[i]);
            }
        }
    }
}

/// A scope name is plain ASCII whatever bytes the command's name holds, so it is always a
/// valid UTF-8 string for D-Bus.
pub proof fn law_scope_name_is_ascii(name: Seq<u8>, child_pid: nat)
    ensures
        is_ascii_bytes(scope_name(name, child_pid)),
{
    lemma_escape_is_ascii(name);
    lemma_decimal_is_ascii(child_pid);
    let s = scope_name(name, child_pid);
    let a = scope_prefix();
    let b = escape_unit_name(name);
    let c = seq![0x2du8];
    let d = decimal(child_pid);
    let e = scope_suffix();
    assert forall|i: int| 0 <= i < s.len() implies #[trigger] s[i] < 0x80 by {
        let ab = a + b;
        let abc = ab + c;
        let abcd = abc + d;
        assert(s == abcd + e);
        if i < a.len() {
            assert(s[i] == a[i]);
        } else if i < ab.len() {
            assert(s[i] == b[i - a.len()]);
        } else if i < abc.len() {
            assert(s[i] == c[i - ab.len()]);
        } else if i < abcd.len() {
            assert(s[i] == d[i - abc.len()]);
        } else {
            assert(s[i] == e[i - abcd.len()]);
        }
    }
}

/// Whether `c` is an ASCII letter or digit, `:`, `_` or `.`, spelled out byte by byte.
pub open spec fn is_plain_name_byte(c: u8) -> bool {
    ||| (c as int) >= '0' as int && (c as int) <= '9' as int
    ||| (c as int) >= 'A' as int && (c as int) <= 'Z' as int
    ||| (c as int) >= 'a' as int && (c as int) <= 'z' as int
    ||| c as int == ':' as int
    ||| c as int == '_' as int
    ||| c as int == '.' as int
}

/// A command name made only of ASCII letters, digits, `:`, `_` and `.` appears in its scope
/// name unchanged: `app-niri-<name>-<pid>.scope`.
pub proof fn law_plain_names_are_not_escaped(name: Seq<u8>, child_pid: nat)
    requires
        forall|i: int| 0 <= i < name.len() ==> is_plain_name_byte(#[trigger] name[i]),
    ensures
        scope_name(name, child_pid) == scope_prefix() + name + seq![0x2du8] + decimal(child_pid)
            + scope_suffix(),
{
    lemma_plain_names_are_not_escaped(name);
}

proof fn lemma_plain_names_are_not_escaped(name: Seq<u8>)
    requires
        forall|i: int| 0 <= i < name.len() ==> is_plain_name_byte(#[trigger] name[i]),
    ensures
        escape_unit_name(name) == name,
    decreases name.len(),
{
    if name.len() > 0 {
        let prefix = name.drop_last();
        assert forall|i: int| 0 <= i < prefix.len() implies is_plain_name_byte(
            #[trigger] prefix[i],
        ) by {
            assert(prefix[i] == name[i]);
        }
        lemma_plain_names_are_not_escaped(prefix);
        assert(is_plain_name_byte(name[name.len() - 1]));
        assert(name.last() == name[name.len() - 1]);
        assert(escape_byte(name.last()) == seq![name.last()]);
        assert(prefix.push(name.last()) =~= name);
        assert(prefix + seq![name.last()] =~= name);
    }
}

/// Any other byte appears as `\x` followed by its two lower-case hexadecimal digits.
pub proof fn law_other_bytes_are_hex_escaped(c: u8)
    requires
        !is_plain_name_byte(c),
    ensures
        escape_byte(c) == seq![
            '\\' as u8,
            'x' as u8,
            if c / 16 < 10 {
                ('0' as u8 + c / 16) as u8
            } else {
                ('a' as u8 + c / 16 - 10) as u8
            },
            if c % 16 < 10 {
                ('0' as u8 + c % 16) as u8
            } else {
                ('a' as u8 + c % 16 - 10) as u8
            },
        ],
{
}

fn push_hex_digit(out: &mut Vec<u8>, n: u8)
    requires
        n < 16,
    ensures
        final(out)@ == old(out)@.push(hex_digit(n)),
{
    if n < 10 {
        out.push(0x30 + n);
    } else {
        out.push(0x61 + n - 10);
    }
}

fn push_decimal(out: &mut Vec<u8>, n: u32)
    ensures
        final(out)@ == old(out)@ + decimal(n as nat),
    decreases n,
{
    if n >= 10 {
        push_decimal(out, n / 10);
    }
    let digit = (n % 10) as u8;
    out.push(0x30 + digit);
    assert(final(out)@ =~= old(out)@ + decimal(n as nat)) by {
        if n >= 10 {
            assert(decimal(n as nat) == decimal((n / 10) as nat) + seq![(0x30 + n % 10) as u8]);
        }
    }
}

/// Builds the name of the transient scope for a spawned child, escaping the command's base
/// name as systemd and libgnome-desktop do.
pub fn systemd_scope_name(name: &[u8], child_pid: u32) -> (res: Vec<u8>)
    ensures
        res@ == scope_name(name@, child_pid as nat),
{
    let mut out: Vec<u8> = Vec::new();
    out.push(0x61);
    out.push(0x70);
    out.push(0x70);
    out.push(0x2d);
    out.push(0x6e);
    out.push(0x69);
    out.push(0x72);
    out.push(0x69);
    out.push(0x2d);
    assert(out@ =~= scope_prefix());
    let mut i: usize = 0;
    while i < name.len()
        invariant
            i <= name@.len(),
            out@ == scope_prefix() + escape_unit_name(name@.take(i as int)),
        decreases name@.len() - i,
    {
        let c = name[i];
        let ghost before = out@;
        let keep = (0x30 <= c && c <= 0x39) || (0x41 <= c && c <= 0x5a) || (0x61 <= c && c <= 0x7a)
            || c == 0x3a || c == 0x5f || c == 0x2e;
        if keep {
            out.push(c);
        } else {
            out.push(0x5c);
            out.push(0x78);
            push_hex_digit(&mut out, c / 16);
            push_hex_digit(&mut out, c % 16);
        }
        assert(out@ =~= before + escape_byte(c));
        let ghost next = name@.take(i + 1);
        assert(next.drop_last() =~= name@.take(i as int));
        assert(next.last() == c);
        i = i + 1;
    }
    assert(name@.take(name@.len() as int) =~= name@);
    out.push(0x2d);
    push_decimal(&mut out, child_pid);
    out.push(0x2e);
    out.push(0x73);
    out.push(0x63);
    out.push(0x6f);
    out.push(0x70);
    out.push(0x65);
    assert(out@ =~= scope_name(name@, child_pid as nat));
    out
}

/// One change to a child's environment: set `name` to `value`, or remove it when `value` is
/// `None`.
pub struct EnvChange {
    pub name: String,
    pub value: Option<String>,
}

/// The abstract form of an optional string.
pub open spec fn opt_view(value: Option<String>) -> Option<Seq<char>> {
    match value {
        Some(value) => Some(value@),
        None => None,
    }
}

/// The abstract form of an environment change.
pub open spec fn env_view(change: EnvChange) -> (Seq<char>, Option<Seq<char>>) {
    (
        change.name@,
        opt_view(change.value),
    )
}

/// The changes made to a spawned child's environment, in the order they apply (a later
/// change to a name wins).
///
/// The backtrace variables go when niri set them for itself; systemd's notify socket always
/// goes; `DISPLAY` is set to the Xwayland display or removed; the configured variables follow;
/// an activation token is passed under both of its names.
pub open spec fn child_env_plan(
    remove_rust_backtrace: bool,
    remove_rust_lib_backtrace: bool,
    display: Option<Seq<char>>,
    configured: Seq<(Seq<char>, Option<Seq<char>>)>,
    activation_token: Option<Seq<char>>,
) -> Seq<(Seq<char>, Option<Seq<char>>)> {
    (if remove_rust_backtrace {
        seq![("RUST_BACKTRACE"@, None::<Seq<char>>)]
    } else {
        seq![]
    }) + (if remove_rust_lib_backtrace {
        seq![("RUST_LIB_BACKTRACE"@, None::<Seq<char>>)]
    } else {
        seq![]
    }) + seq![("NOTIFY_SOCKET"@, None::<Seq<char>>), ("DISPLAY"@, display)] + configured + (
    match activation_token {
        Some(token) => seq![
            ("XDG_ACTIVATION_TOKEN"@, Some(token)),
            ("DESKTOP_STARTUP_ID"@, Some(token)),
        ],
        None => seq![],
    })
}

fn removal(name: &str) -> (res: EnvChange)
    ensures
        env_view(res) == (name@, None::<Seq<char>>),
{
    EnvChange { name: name.to_owned(), value: None }
}

/// Lists the changes to make to a spawned child's environment; see `child_env_plan`.
pub fn child_env_changes(
    remove_rust_backtrace: bool,
    remove_rust_lib_backtrace: bool,
    display: Option<String>,
    configured: Vec<EnvChange>,
    activation_token: Option<String>,
) -> (res: Vec<EnvChange>)
    ensures
        res@.map_values(|c: EnvChange| env_view(c)) == child_env_plan(
            remove_rust_backtrace,
            remove_rust_lib_backtrace,
            opt_view(display),
            configured@.map_values(|c: EnvChange| env_view(c)),
            opt_view(activation_token),
        ),
{
    let ghost display_view = opt_view(display);
    let ghost token_view = opt_view(activation_token);
    let ghost configured_view = configured@.map_values(|c: EnvChange| env_view(c));
    let mut changes: Vec<EnvChange> = Vec::new();
    if remove_rust_backtrace {
        changes.push(removal("RUST_BACKTRACE"));
    }
    if remove_rust_lib_backtrace {
        changes.push(removal("RUST_LIB_BACKTRACE"));
    }
    changes.push(removal("NOTIFY_SOCKET"));
    changes.push(EnvChange { name: "DISPLAY".to_owned(), value: display });
    let ghost head = changes@.map_values(|c: EnvChange| env_view(c));
    assert(head =~= (if remove_rust_backtrace {
        seq![("RUST_BACKTRACE"@, None::<Seq<char>>)]
    } else {
        seq![]
    }) + (if remove_rust_lib_backtrace {
        seq![("RUST_LIB_BACKTRACE"@, None::<Seq<char>>)]
    } else {
        seq![]
    }) + seq![("NOTIFY_SOCKET"@, None::<Seq<char>>), ("DISPLAY"@, display_view)]);
    let mut configured = configured;
    changes.append(&mut configured);
    assert(changes@.map_values(|c: EnvChange| env_view(c)) =~= head + configured_view);
    let ghost middle = changes@.map_values(|c: EnvChange| env_view(c));
    if let Some(token) = activation_token {
        changes.push(EnvChange { name: "XDG_ACTIVATION_TOKEN".to_owned(), value: Some(token.clone()) });
        changes.push(EnvChange { name: "DESKTOP_STARTUP_ID".to_owned(), value: Some(token) });
    }
    assert(changes@.map_values(|c: EnvChange| env_view(c)) =~= middle + (match token_view {
        Some(token) => seq![
            ("XDG_ACTIVATION_TOKEN"@, Some(token)),
            ("DESKTOP_STARTUP_ID"@, Some(token)),
        ],
        None => seq![],
    }));
    changes
}

/// The byte the parent writes to the wait pipe once `Command::spawn()` has returned
/// successfully.
pub const EXEC_OK: u8 = 1;

/// What `poll` reported to the intermediate child.
#[derive(Debug, Clone, Copy, PartialEq, Eq, Structural)]
pub enum PollOutcome {
    /// `poll` failed; `interrupted` when by a signal.
    Failed { interrupted: bool },
    /// `poll` returned: whether the wait pipe and the grandchild's pidfd have events.
    Ready { pipe: bool, grandchild_exited: bool },
}

/// What the intermediate child does next while it waits for the parent.
#[derive(Debug, Clone, Copy, PartialEq, Eq, Structural)]
pub enum WaitStep {
    /// Poll again.
    Poll,
    /// Read one byte from the wait pipe.
    ReadPipe,
    /// Stop waiting and exit.
    Exit,
}

/// The intermediate child of a double fork, waiting until the parent is done with it.
///
/// Until the parent confirms that exec succeeded it also watches the grandchild, and exits
/// as soon as that dies: a failed exec has the parent waiting for us. After the confirmation
/// only the pipe closing ends the wait, which keeps a systemd scope non-empty.
pub struct ParentWait {
    exec_confirmed: bool,
}

impl View for ParentWait {
    type V = bool;

    closed spec fn view(&self) -> bool {
        self.exec_confirmed
    }
}

/// The step after `poll` reported `outcome`, with exec confirmed or not.
pub open spec fn step_after_poll(exec_confirmed: bool, outcome: PollOutcome) -> WaitStep {
    match outcome {
        PollOutcome::Failed { interrupted } => if interrupted {
            WaitStep::Poll
        } else {
            WaitStep::Exit
        },
        PollOutcome::Ready { pipe, grandchild_exited } => if pipe {
            WaitStep::ReadPipe
        } else if !exec_confirmed && grandchild_exited {
            WaitStep::Exit
        } else {
            WaitStep::Poll
        },
    }
}

impl ParentWait {
    /// Starts waiting, exec not yet confirmed.
    pub fn new() -> (res: Self)
        ensures
            !res@,
    {
        ParentWait { exec_confirmed: false }
    }

    /// How many descriptors to poll: the pipe, and the pidfd until exec is confirmed.
    pub fn poll_count(&self) -> (res: usize)
        ensures
            res == (if self@ {
                1usize
            } else {
                2usize
            }),
    {
        if self.exec_confirmed {
            1
        } else {
            2
        }
    }

    /// The step after `poll` reported `outcome`.
    pub fn after_poll(&self, outcome: PollOutcome) -> (res: WaitStep)
        ensures
            res == step_after_poll(self@, outcome),
    {
        match outcome {
            PollOutcome::Failed { interrupted } => if interrupted {
                WaitStep::Poll
            } else {
                WaitStep::Exit
            },
            PollOutcome::Ready { pipe, grandchild_exited } => if pipe {
                WaitStep::ReadPipe
            } else if !self.exec_confirmed && grandchild_exited {
                WaitStep::Exit
            } else {
                WaitStep::Poll
            },
        }
    }

    /// The step after reading the pipe: `byte` is the byte read, `None` on end of file or an
    /// error. The confirmation byte keeps us waiting; anything else means the parent is done.
    pub fn after_read(&mut self, byte: Option<u8>) -> (res: WaitStep)
        ensures
            res == (if byte == Some(EXEC_OK) {
                WaitStep::Poll
            } else {
                WaitStep::Exit
            }),
            final(self)@ == (old(self)@ || byte == Some(EXEC_OK)),
    {
        let confirmed = match byte {
            Some(b) => b == EXEC_OK,
            None => false,
        };
        if confirmed {
            self.exec_confirmed = true;
            WaitStep::Poll
        } else {
            WaitStep::Exit
        }
    }
}

/// Before exec is confirmed the grandchild's death ends the wait; afterwards only the pipe
/// does, and a signal interrupting `poll` never does.
pub proof fn law_confirmation_decides_what_ends_the_wait(exec_confirmed: bool)
    ensures
        step_after_poll(exec_confirmed, PollOutcome::Ready { pipe: false, grandchild_exited: true })
            == (if exec_confirmed {
            WaitStep::Poll
        } else {
            WaitStep::Exit
        }),
        step_after_poll(exec_confirmed, PollOutcome::Failed { interrupted: true }) == WaitStep::Poll,
        step_after_poll(exec_confirmed, PollOutcome::Ready { pipe: true, grandchild_exited: true })
            == WaitStep::ReadPipe,
{
}

/// A byte on the pipe is always read, whatever the grandchild did; a failed `poll` that a
/// signal did not cause ends the wait; and with nothing ready the wait goes on.
pub proof fn law_pipe_first_and_failures_end_the_wait(exec_confirmed: bool, grandchild_exited: bool)
    ensures
        step_after_poll(exec_confirmed, PollOutcome::Ready { pipe: true, grandchild_exited })
            == WaitStep::ReadPipe,
        step_after_poll(exec_confirmed, PollOutcome::Failed { interrupted: false })
            == WaitStep::Exit,
        step_after_poll(exec_confirmed, PollOutcome::Ready { pipe: false, grandchild_exited: false })
            == WaitStep::Poll,
{
}

/// The child's environment changes: the notify socket always goes, `DISPLAY` is set or
/// removed before the configured variables, the configured variables follow in their own
/// order (so one of them can override `DISPLAY`), and an activation token comes last, under
/// both of its names, overriding any configured value of them.
pub proof fn law_child_env_order(
    remove_rust_backtrace: bool,
    remove_rust_lib_backtrace: bool,
    display: Option<Seq<char>>,
    configured: Seq<(Seq<char>, Option<Seq<char>>)>,
    activation_token: Option<Seq<char>>,
)
    ensures
        ({
            let plan = child_env_plan(
                remove_rust_backtrace,
                remove_rust_lib_backtrace,
                display,
                configured,
                activation_token,
            );
            let tail: int = if activation_token is Some {
                2
            } else {
                0
            };
            let head: int = plan.len() - tail - configured.len();
            &&& head >= 2
            &&& plan[head - 2] == ("NOTIFY_SOCKET"@, None::<Seq<char>>)
            &&& plan[head - 1] == ("DISPLAY"@, display)
            &&& plan.subrange(head, head + configured.len()) == configured
            &&& activation_token matches Some(token) ==> {
                &&& plan[plan.len() - 2] == ("XDG_ACTIVATION_TOKEN"@, Some(token))
                &&& plan[plan.len() - 1] == ("DESKTOP_STARTUP_ID"@, Some(token))
            }
            &&& (remove_rust_backtrace ==> plan[0] == ("RUST_BACKTRACE"@, None::<Seq<char>>))
            &&& plan.len() == (if remove_rust_backtrace {
                1int
            } else {
                0
            }) + (if remove_rust_lib_backtrace {
                1int
            } else {
                0
            }) + 2 + configured.len() + tail
        }),
{
    let plan = child_env_plan(
        remove_rust_backtrace,
        remove_rust_lib_backtrace,
        display,
        configured,
        activation_token,
    );
    let a: Seq<(Seq<char>, Option<Seq<char>>)> = if remove_rust_backtrace {
        seq![("RUST_BACKTRACE"@, None::<Seq<char>>)]
    } else {
        seq![]
    };
    let b: Seq<(Seq<char>, Option<Seq<char>>)> = if remove_rust_lib_backtrace {
        seq![("RUST_LIB_BACKTRACE"@, None::<Seq<char>>)]
    } else {
        seq![]
    };
    let c = seq![("NOTIFY_SOCKET"@, None::<Seq<char>>), ("DISPLAY"@, display)];
    let d: Seq<(Seq<char>, Option<Seq<char>>)> = match activation_token {
        Some(token) => seq![
            ("XDG_ACTIVATION_TOKEN"@, Some(token)),
            ("DESKTOP_STARTUP_ID"@, Some(token)),
        ],
        None => seq![],
    };
    let abc = a + b + c;
    assert(plan == abc + configured + d);
    let head = abc.len() as int;
    assert(plan[head - 2] == abc[head - 2]);
    assert(plan[head - 1] == abc[head - 1]);
    assert(abc[head - 2] == c[0]);
    assert(abc[head - 1] == c[1]);
    assert(plan.subrange(head, head + configured.len()) =~= configured);
    if remove_rust_backtrace {
        assert(plan[0] == a[0]);
    }
    if activation_token is Some {
        assert(plan[plan.len() - 2] == d[0]);
        assert(plan[plan.len() - 1] == d[1]);
    }
}

/// What a chunked read or write does after one call moved some bytes.
#[derive(Debug, Clone, Copy, PartialEq, Eq, Structural)]
pub enum TransferStep {
    /// Call again for the rest.
    Continue,
    /// Every byte has moved.
    Complete,
    /// The call moved nothing: give up.
    Cancelled,
}

/// Progress of moving `total` bytes through a pipe in as many calls as it takes.
pub struct Transfer {
    done: usize,
    total: usize,
}

impl View for Transfer {
    type V = (nat, nat);

    closed spec fn view(&self) -> (nat, nat) {
        (self.done as nat, self.total as nat)
    }
}

impl Transfer {
    /// Nothing moved yet of `total` bytes.
    pub fn new(total: usize) -> (res: Self)
        ensures
            res@ == (0nat, total as nat),
    {
        Transfer { done: 0, total }
    }

    /// How many bytes have moved; the next call starts there.
    pub fn done(&self) -> (res: usize)
        ensures
            res == self@.0,
    {
        self.done
    }

    /// Accounts for a call that moved `n` bytes, at most the ones still to go.
    pub fn advance(&mut self, n: usize) -> (res: TransferStep)
        requires
            old(self)@.0 + n <= old(self)@.1,
        ensures
            n == 0 ==> res == TransferStep::Cancelled && final(self)@ == old(self)@,
            n > 0 ==> final(self)@ == ((old(self)@.0 + n) as nat, old(self)@.1),
            n > 0 ==> res == (if old(self)@.0 + n == old(self)@.1 {
                TransferStep::Complete
            } else {
                TransferStep::Continue
            }),
    {
        if n == 0 {
            return TransferStep::Cancelled;
        }
        self.done = self.done + n;
        if self.done == self.total {
            TransferStep::Complete
        } else {
            TransferStep::Continue
        }
    }
}

} // verus!
