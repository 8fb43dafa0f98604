//! What to launch for an applet: its command line, environment and
//! inherited handles, and what to hand a running supervisor on restart.
use vstd::prelude::*;

verus! {

/// The words that `shlex` splits a command line into.
pub uninterp spec fn shell_words_of(s: Seq<char>) -> Seq<Seq<char>>;

/// Relies on `shlex::Shlex`: splits a command line into words as a POSIX
/// shell would. The words depend on the text alone.
#[verifier::external_body]
fn split_words(s: &str) -> (r: Vec<String>)
    ensures
        r@.map_values(|w: String| w@) == shell_words_of(s@),
{
    shlex::Shlex::new(s).collect()
}

/// The value of an environment variable: text, or the number under which
/// an inherited handle reaches the child.
#[derive(Debug, Clone, PartialEq, Eq)]
pub enum EnvValue {
    Text(String),
    Handle(u64),
}

/// One environment variable for a child process.
#[derive(Debug, Clone, PartialEq, Eq)]
pub struct EnvVar {
    pub key: String,
    pub value: EnvValue,
}

/// An environment variable as plain values.
pub enum EnvSpec {
    Text(Seq<char>, Seq<char>),
    Handle(Seq<char>, u64),
}

/// The plain-value form of `e`.
pub open spec fn env_spec(e: EnvVar) -> EnvSpec {
    match e.value {
        EnvValue::Text(t) => EnvSpec::Text(e.key@, t@),
        EnvValue::Handle(h) => EnvSpec::Handle(e.key@, h),
    }
}

/// The plain-value form of a list of variables.
pub open spec fn env_specs(v: Seq<EnvVar>) -> Seq<EnvSpec> {
    v.map_values(|e: EnvVar| env_spec(e))
}

/// The variable naming the applet's protocol socket.
pub open spec fn socket_key() -> Seq<char> {
    "WAYLAND_SOCKET"@
}

/// The variable naming the privileged listener socket.
pub open spec fn privileged_key() -> Seq<char> {
    "X_PRIVILEGED_WAYLAND_SOCKET"@
}

/// The variable naming the notifications handle.
pub open spec fn notifications_key() -> Seq<char> {
    "COSMIC_NOTIFICATIONS"@
}

/// The variable naming the host's display, passed on only to applets that
/// ask for direct host access.
pub open spec fn display_key() -> Seq<char> {
    "WAYLAND_DISPLAY"@
}

/// The panel's own variables that an applet gets, in order.
pub open spec fn passed_env(base: Seq<(String, String)>, host_access: bool) -> Seq<EnvSpec>
    decreases base.len(),
{
    if base.len() == 0 {
        seq![]
    } else {
        let last = base.last();
        let rest = passed_env(base.drop_last(), host_access);
        if !host_access && last.0@ == display_key() {
            rest
        } else {
            rest.push(EnvSpec::Text(last.0@, last.1@))
        }
    }
}

/// Everything needed to launch an applet.
#[derive(Debug, Clone)]
pub struct SpawnPlan {
    pub executable: String,
    pub args: Vec<String>,
    pub env: Vec<EnvVar>,
    /// The handles the child inherits, in order.
    pub handles: Vec<u64>,
}

/// Why an applet could not be launched.
#[derive(Debug, Clone, Copy, PartialEq, Eq, Structural)]
pub enum SpawnError {
    EmptyCommand,
}

/// The privileged listener that an applet gets: one only where it asks for
/// direct host access and a listener could be made.
pub open spec fn used_listener(host_access: bool, listener: Option<u64>) -> Option<u64> {
    if host_access {
        listener
    } else {
        None
    }
}

/// The environment of a launch: the privileged listener first where there
/// is one, then the panel's variables, then the protocol socket.
pub open spec fn launch_env(
    base: Seq<(String, String)>,
    host_access: bool,
    listener: Option<u64>,
    socket: u64,
) -> Seq<EnvSpec> {
    let head = match used_listener(host_access, listener) {
        Some(l) => seq![EnvSpec::Handle(privileged_key(), l)],
        None => seq![],
    };
    head + passed_env(base, host_access) + seq![EnvSpec::Handle(socket_key(), socket)]
}

/// The inherited handles of a launch: the privileged listener first where
/// there is one, then the protocol socket.
pub open spec fn launch_handles(host_access: bool, listener: Option<u64>, socket: u64) -> Seq<u64> {
    match used_listener(host_access, listener) {
        Some(l) => seq![l, socket],
        None => seq![socket],
    }
}

fn env_handle(key: &str, h: u64) -> (r: EnvVar)
    ensures
        env_spec(r) == EnvSpec::Handle(key@, h),
{
    EnvVar { key: key.to_owned(), value: EnvValue::Handle(h) }
}

fn panel_env(base: &Vec<(String, String)>, host_access: bool) -> (r: Vec<EnvVar>)
    ensures
        env_specs(r@) == passed_env(base@, host_access),
{
    let display = "WAYLAND_DISPLAY".to_owned();
    let mut out: Vec<EnvVar> = Vec::new();
    let mut i: usize = 0;
    while i < base.len()
        invariant
            i <= base@.len(),
            display@ == display_key(),
            env_specs(out@) == passed_env(base@.take(i as int), host_access),
        decreases base@.len() - i,
    {
        let ghost pre = base@.take(i as int);
        let ghost post = base@.take(i + 1);
        assert(post.drop_last() =~= pre);
        let (k, v) = &base[i];
        let ghost before = out@;
        if host_access || *k != display {
            out.push(EnvVar { key: k.clone(), value: EnvValue::Text(v.clone()) });
            assert(env_specs(out@) =~= env_specs(before).push(EnvSpec::Text(k@, v@)));
        }
        i = i + 1;
    }
    assert(base@.take(i as int) =~= base@);
    out
}

/// Builds the launch of an applet from the words of its command line.
/// The first word is the executable and the rest its arguments.
pub fn plan_from_words(
    words: Vec<String>,
    host_access: bool,
    listener: Option<u64>,
    socket: u64,
    base: &Vec<(String, String)>,
) -> (r: Result<SpawnPlan, SpawnError>)
    ensures
        words@.len() == 0 ==> r == Err::<SpawnPlan, SpawnError>(SpawnError::EmptyCommand),
        words@.len() > 0 ==> (r matches Ok(p) && {
            &&& p.executable@ == words@[0]@
            &&& p.args@.map_values(|a: String| a@) == words@.drop_first().map_values(
                |w: String| w@,
            )
            &&& env_specs(p.env@) == launch_env(base@, host_access, listener, socket)
            &&& p.handles@ == launch_handles(host_access, listener, socket)
        }),
{
    if words.len() == 0 {
        return Err(SpawnError::EmptyCommand);
    }
    let mut args = words;
    let ghost w0 = args@;
    let executable = args.remove(0);
    assert(args@ =~= w0.drop_first());
    let mut env: Vec<EnvVar> = Vec::new();
    let mut handles: Vec<u64> = Vec::new();
    let used = if host_access {
        listener
    } else {
        None
    };
    if let Some(l) = used {
        env.push(env_handle("X_PRIVILEGED_WAYLAND_SOCKET", l));
        handles.push(l);
    }
    let mut mid = panel_env(base, host_access);
    env.append(&mut mid);
    env.push(env_handle("WAYLAND_SOCKET", socket));
    handles.push(socket);
    proof {
        assert(env_specs(env@) =~= launch_env(base@, host_access, listener, socket));
        assert(handles@ =~= launch_handles(host_access, listener, socket));
    }
    Ok(SpawnPlan { executable, args, env, handles })
}

/// Builds the launch of an applet from its command line, split into words
/// by `shlex`.
pub fn plan_spawn(
    exec: &str,
    host_access: bool,
    listener: Option<u64>,
    socket: u64,
    base: &Vec<(String, String)>,
) -> (r: Result<SpawnPlan, SpawnError>)
    ensures
        shell_words_of(exec@).len() == 0 ==> r == Err::<SpawnPlan, SpawnError>(
            SpawnError::EmptyCommand,
        ),
        shell_words_of(exec@).len() > 0 ==> (r matches Ok(p) && {
            &&& p.executable@ == shell_words_of(exec@)[0]
            &&& p.args@.map_values(|a: String| a@) == shell_words_of(exec@).drop_first()
            &&& env_specs(p.env@) == launch_env(base@, host_access, listener, socket)
            &&& p.handles@ == launch_handles(host_access, listener, socket)
        }),
{
    let words = split_words(exec);
    proof {
        let ws = words@.map_values(|w: String| w@);
        assert(words@.len() == ws.len());
        if words@.len() > 0 {
            assert(ws[0] == words@[0]@);
            assert(words@.drop_first().map_values(|w: String| w@) =~= ws.drop_first());
        }
    }
    plan_from_words(words, host_access, listener, socket, base)
}

/// `i` is the first place in `ids` that holds `name`.
pub open spec fn first_place(ids: Seq<String>, name: Seq<char>, i: int) -> bool {
    &&& 0 <= i < ids.len()
    &&& ids[i]@ == name
    &&& forall|j: int| 0 <= j < i ==> #[trigger] ids[j]@ != name
}

/// A desktop file named `stem` was found: where an applet of that id still
/// waits to be started, its first entry is taken from `pending` and `true`
/// returned, so that each applet starts at most once however many desktop
/// files match it.
pub fn take_pending(pending: &mut Vec<String>, stem: &String) -> (r: bool)
    ensures
        r == (exists|i: int| 0 <= i < old(pending)@.len() && #[trigger] old(pending)@[i]@ == stem@),
        !r ==> final(pending)@ == old(pending)@,
        forall|i: int|
            first_place(old(pending)@, stem@, i) ==> final(pending)@ == old(pending)@.remove(i),
{
    let mut i: usize = 0;
    while i < pending.len()
        invariant
            i <= pending@.len(),
            pending@ == old(pending)@,
            forall|j: int| 0 <= j < i ==> #[trigger] pending@[j]@ != stem@,
        decreases pending@.len() - i,
    {
        if pending[i] == *stem {
            let ghost before = pending@;
            pending.remove(i);
            proof {
                assert forall|k: int| first_place(before, stem@, k) implies k == i by {
                    if k < i {
                        assert(before[k]@ != stem@);
                    } else if k > i {
                        assert(before[i as int]@ != stem@);
                    }
                }
            }
            return true;
        }
        i = i + 1;
    }
    false
}

/// What a supervisor hands a restarting applet: the new handles and the
/// variables that name them.
#[derive(Debug, Clone)]
pub struct RestartPlan {
    pub handles: Vec<u64>,
    pub env: Vec<EnvVar>,
}

/// The handles of a restart: the privileged listener, then the
/// notifications handle, then the new protocol socket, each where present.
pub open spec fn restart_handles(listener: Option<u64>, notifications: Option<u64>, socket: u64) -> Seq<u64> {
    (match listener {
        Some(l) => seq![l],
        None => seq![],
    }) + (match notifications {
        Some(n) => seq![n],
        None => seq![],
    }) + seq![socket]
}

/// The variables of a restart, in the order of the handles they name.
pub open spec fn restart_env(listener: Option<u64>, notifications: Option<u64>, socket: u64) -> Seq<EnvSpec> {
    (match listener {
        Some(l) => seq![EnvSpec::Handle(privileged_key(), l)],
        None => seq![],
    }) + (match notifications {
        Some(n) => seq![EnvSpec::Handle(notifications_key(), n)],
        None => seq![],
    }) + seq![EnvSpec::Handle(socket_key(), socket)]
}

/// Builds what a restart hands the running supervisor.
pub fn plan_restart(listener: Option<u64>, notifications: Option<u64>, socket: u64) -> (r: RestartPlan)
    ensures
        r.handles@ == restart_handles(listener, notifications, socket),
        env_specs(r.env@) == restart_env(listener, notifications, socket),
{
    let mut handles: Vec<u64> = Vec::new();
    let mut env: Vec<EnvVar> = Vec::new();
    if let Some(l) = listener {
        handles.push(l);
        env.push(env_handle("X_PRIVILEGED_WAYLAND_SOCKET", l));
    }
    if let Some(n) = notifications {
        handles.push(n);
        env.push(env_handle("COSMIC_NOTIFICATIONS", n));
    }
    handles.push(socket);
    env.push(env_handle("WAYLAND_SOCKET", socket));
    proof {
        assert(handles@ =~= restart_handles(listener, notifications, socket));
        assert(env_specs(env@) =~= restart_env(listener, notifications, socket));
    }
    RestartPlan { handles, env }
}

} // verus!
