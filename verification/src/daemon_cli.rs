//! The daemon's start-up decisions: what its command line asks for, how it
//! re-execs itself into the background, the systemd user unit it installs,
//! the log level, the profile it starts on, and the session checks it makes.

use vstd::prelude::*;

use crate::pool::{path_relative, strip_path_prefix};
use crate::text::{
    chars_of, eq_ignore_ascii_case, eq_ignore_case, opt_str, opt_view, push_str, str_eq, texts,
};

verus! {

/// The daemon's command line.
#[derive(Debug, Clone)]
pub struct DaemonCli {
    /// Stay in the foreground instead of re-execing into the background.
    pub foreground: bool,
    /// Alternate socket path.
    pub socket: Option<String>,
    /// Alternate config file.
    pub config: Option<String>,
    /// Install the systemd user unit, then exit.
    pub install_unit: bool,
    /// How many `-v` flags were given.
    pub verbose: u8,
    /// Suppress non-error output.
    pub quiet: bool,
}

/// What a start of the daemon does.
#[derive(Debug, Clone, Copy, PartialEq, Eq, Structural)]
pub enum LaunchMode {
    /// Write the systemd user unit and exit; no runtime, no socket.
    InstallUnit,
    /// Re-exec `--foreground` as a detached child and exit.
    Background,
    /// Run the daemon in this process.
    Foreground,
}

/// Decide what a start with `cli` does.
pub fn launch_mode(cli: &DaemonCli) -> (m: LaunchMode)
    ensures
        m == (if cli.install_unit {
            LaunchMode::InstallUnit
        } else if !cli.foreground {
            LaunchMode::Background
        } else {
            LaunchMode::Foreground
        }),
{
    if cli.install_unit {
        LaunchMode::InstallUnit
    } else if !cli.foreground {
        LaunchMode::Background
    } else {
        LaunchMode::Foreground
    }
}

/// The default log filter for the flags: `error` when quiet, else `info`,
/// `debug` or `trace` for zero, one or more `-v`.
pub open spec fn log_level_spec(verbose: u8, quiet: bool) -> Seq<char> {
    if quiet {
        "error"@
    } else if verbose == 0 {
        "info"@
    } else if verbose == 1 {
        "debug"@
    } else {
        "trace"@
    }
}

/// The default log filter for the flags.
pub fn log_level(verbose: u8, quiet: bool) -> (s: &'static str)
    ensures
        s@ == log_level_spec(verbose, quiet),
{
    if quiet {
        "error"
    } else if verbose == 0 {
        "info"
    } else if verbose == 1 {
        "debug"
    } else {
        "trace"
    }
}

/// The command that re-execs the daemon in the background.
#[derive(Debug, Clone)]
pub struct DaemonCommand {
    /// The program to run.
    pub program: String,
    /// Its arguments, in order.
    pub args: Vec<String>,
    /// Whether the child starts in a process group of its own (the
    /// fallback when `setsid(1)` is absent).
    pub own_process_group: bool,
}

/// The arguments the background daemon is started with: the daemon path
/// first when `setsid` runs it, then `--foreground`, the socket and config
/// overrides, one `-v` per verbosity level and `--quiet`.
pub open spec fn daemon_args(exe: Seq<char>, cli: DaemonCli, via_setsid: bool) -> Seq<Seq<char>> {
    (if via_setsid {
        seq![exe]
    } else {
        Seq::empty()
    }) + seq!["--foreground"@] + match cli.socket {
        Some(s) => seq!["--socket"@, s@],
        None => Seq::empty(),
    } + match cli.config {
        Some(c) => seq!["--config"@, c@],
        None => Seq::empty(),
    } + Seq::new(cli.verbose as nat, |i: int| "-v"@) + (if cli.quiet {
        seq!["--quiet"@]
    } else {
        Seq::empty()
    })
}

fn owned(s: &str) -> (r: String)
    ensures
        r@ == s@,
{
    let mut r = String::new();
    push_str(&mut r, s);
    r
}

fn push_arg(args: &mut Vec<String>, a: &str)
    ensures
        texts(final(args)@) == texts(old(args)@).push(a@),
{
    let ghost before = texts(args@);
    args.push(owned(a));
    assert(texts(args@) =~= before.push(a@));
}

/// Build the background re-exec command. With `setsid(1)` the daemon gets a
/// fresh session and no controlling terminal, so a terminal hangup cannot
/// reach it; without, it runs directly in a new process group.
pub fn build_daemon_command(exe: &str, cli: &DaemonCli, setsid: Option<&str>) -> (c: DaemonCommand)
    ensures
        c.program@ == match setsid {
            Some(s) => s@,
            None => exe@,
        },
        c.own_process_group == (setsid is None),
        texts(c.args@) == daemon_args(exe@, *cli, setsid is Some),
{
    let mut args: Vec<String> = Vec::new();
    let program = match setsid {
        Some(s) => {
            push_arg(&mut args, exe);
            owned(s)
        },
        None => owned(exe),
    };
    push_arg(&mut args, "--foreground");
    match &cli.socket {
        Some(s) => {
            push_arg(&mut args, "--socket");
            push_arg(&mut args, s.as_str());
        },
        None => {},
    }
    match &cli.config {
        Some(c) => {
            push_arg(&mut args, "--config");
            push_arg(&mut args, c.as_str());
        },
        None => {},
    }
    let ghost before_v = texts(args@);
    let mut k: u8 = 0;
    while k < cli.verbose
        invariant
            k <= cli.verbose,
            texts(args@) == before_v + Seq::new(k as nat, |i: int| "-v"@),
        decreases cli.verbose - k,
    {
        push_arg(&mut args, "-v");
        assert(Seq::new((k + 1) as nat, |i: int| "-v"@) =~= Seq::new(k as nat, |i: int| "-v"@).push(
            "-v"@,
        ));
        k += 1;
    }
    if cli.quiet {
        push_arg(&mut args, "--quiet");
    }
    proof {
        let pre = if setsid is Some {
            seq![exe@]
        } else {
            Seq::<Seq<char>>::empty()
        };
        let sock = match &cli.socket {
            Some(s) => seq!["--socket"@, s@],
            None => Seq::<Seq<char>>::empty(),
        };
        let conf = match &cli.config {
            Some(c) => seq!["--config"@, c@],
            None => Seq::<Seq<char>>::empty(),
        };
        let vs = Seq::new(cli.verbose as nat, |i: int| "-v"@);
        let q = if cli.quiet {
            seq!["--quiet"@]
        } else {
            Seq::<Seq<char>>::empty()
        };
        assert(before_v =~= pre + seq!["--foreground"@] + sock + conf);
        assert(texts(args@) =~= pre + seq!["--foreground"@] + sock + conf + vs + q);
    }
    DaemonCommand { program, args, own_process_group: setsid.is_none() }
}

/// The systemd user unit that runs the daemon in the foreground on
/// `socket`, tied to the graphical session.
pub open spec fn unit_text(exe: Seq<char>, socket: Seq<char>) -> Seq<char> {
    "[Unit]\nDescription=Superpanels wallpaper daemon\nAfter=graphical-session.target\nPartOf=graphical-session.target\n\n[Service]\nType=simple\nExecStart="@
        + exe + " --foreground --socket "@ + socket
        + "\nRestart=on-failure\nRestartSec=5s\n\n[Install]\nWantedBy=graphical-session.target\n"@
}

/// Render the systemd user unit.
pub fn unit_contents(exe: &str, socket: &str) -> (s: String)
    ensures
        s@ == unit_text(exe@, socket@),
{
    let mut s = String::new();
    push_str(
        &mut s,
        "[Unit]\nDescription=Superpanels wallpaper daemon\nAfter=graphical-session.target\nPartOf=graphical-session.target\n\n[Service]\nType=simple\nExecStart=",
    );
    push_str(&mut s, exe);
    push_str(&mut s, " --foreground --socket ");
    push_str(&mut s, socket);
    push_str(
        &mut s,
        "\nRestart=on-failure\nRestartSec=5s\n\n[Install]\nWantedBy=graphical-session.target\n",
    );
    s
}

/// The profile the daemon starts on: an explicit default is honoured
/// unconditionally (a not-found apply error is more actionable than a
/// silent skip); a resumed profile must still exist in the config.
pub open spec fn initial_profile_spec(
    default_profile: Option<Seq<char>>,
    resumed: Option<Seq<char>>,
    names: Seq<Seq<char>>,
) -> Option<Seq<char>> {
    match default_profile {
        Some(d) => Some(d),
        None => match resumed {
            Some(r) => if names.contains(r) {
                Some(r)
            } else {
                None
            },
            None => None,
        },
    }
}

/// Choose the start-up profile from the configured default, the resumed
/// profile and the names of the configured profiles.
pub fn choose_initial_profile(
    default_profile: Option<&str>,
    resumed: Option<&str>,
    names: &Vec<String>,
) -> (r: Option<String>)
    ensures
        opt_view(r) == initial_profile_spec(
            opt_str(default_profile),
            opt_str(resumed),
            texts(names@),
        ),
{
    if let Some(d) = default_profile {
        return Some(owned(d));
    }
    let r = match resumed {
        Some(r) => r,
        None => return None,
    };
    let ghost ns = texts(names@);
    let mut i: usize = 0;
    while i < names.len()
        invariant
            default_profile is None,
            resumed == Some(r),
            i <= names@.len(),
            ns == texts(names@),
            forall|j: int| 0 <= j < i ==> ns[j] != r@,
        decreases names@.len() - i,
    {
        if str_eq(names[i].as_str(), r) {
            assert(ns[i as int] == r@);
            assert(ns.contains(r@));
            return Some(owned(r));
        }
        i += 1;
    }
    None
}

/// Whether `desktops` (a `:`-separated `$XDG_CURRENT_DESKTOP`) lists KDE,
/// in any letter case.
pub open spec fn lists_kde(desktops: Seq<char>) -> bool {
    exists|i: int|
        0 <= i && i + 3 <= desktops.len() && #[trigger] eq_ignore_case(
            desktops.subrange(i, i + 3),
            "KDE"@,
        ) && (i == 0 || desktops[i - 1] == ':') && (i + 3 == desktops.len() || desktops[i + 3]
            == ':')
}

/// Whether the session is KDE Plasma: `$KDE_FULL_SESSION` is set, or
/// `$XDG_CURRENT_DESKTOP` lists KDE.
pub fn kde_session_present(kde_full_session: bool, current_desktop: Option<&str>) -> (r: bool)
    ensures
        r == (kde_full_session || match current_desktop {
            Some(d) => lists_kde(d@),
            None => false,
        }),
{
    if kde_full_session {
        return true;
    }
    let d = match current_desktop {
        Some(d) => d,
        None => return false,
    };
    let cs = chars_of(d);
    let kde = chars_of("KDE");
    proof {
        reveal_strlit("KDE");
    }
    let n = cs.len();
    let mut i: usize = 0;
    while i < n && 3 <= n - i
        invariant
            !kde_full_session,
            current_desktop == Some(d),
            i <= n,
            n == cs@.len(),
            cs@ == d@,
            kde@ == "KDE"@,
            forall|j: int|
                0 <= j < i && j + 3 <= n ==> !(#[trigger] eq_ignore_case(
                    d@.subrange(j, j + 3),
                    "KDE"@,
                ) && (j == 0 || d@[j - 1] == ':') && (j + 3 == n || d@[j + 3] == ':')),
        decreases n - i,
    {
        let starts = i == 0 || cs[i - 1] == ':';
        let ends = i + 3 == n || cs[i + 3] == ':';
        if starts && ends {
            let seg = crate::text::copy_range(cs.as_slice(), i, i + 3);
            if eq_ignore_ascii_case(seg.as_slice(), kde.as_slice()) {
                assert(seg@ == d@.subrange(i as int, i + 3));
                assert(eq_ignore_case(d@.subrange(i as int, i + 3), "KDE"@));
                assert(i == 0 || d@[i - 1] == ':');
                assert(i + 3 == d@.len() || d@[i + 3] == ':');
                return true;
            }
        }
        i += 1;
    }
    proof {
        assert forall|j: int|
            0 <= j && j + 3 <= d@.len() implies !(#[trigger] eq_ignore_case(
            d@.subrange(j, j + 3),
            "KDE"@,
        ) && (j == 0 || d@[j - 1] == ':') && (j + 3 == d@.len() || d@[j + 3] == ':')) by {
            assert(j < i);
        }
    }
    false
}

/// Whether the socket lies under a set, non-empty `$XDG_RUNTIME_DIR`.
pub open spec fn in_runtime_dir(socket: Seq<char>, runtime_dir: Option<Seq<char>>) -> bool {
    match runtime_dir {
        Some(d) => d.len() > 0 && path_relative(socket, d) is Some,
        None => false,
    }
}

/// Whether failing to make the socket directory owner-only stops the
/// daemon: `$XDG_RUNTIME_DIR` is owner-only by its spec, so there a failure
/// is only warned about; anywhere else the socket would be reachable by
/// other users on a shared host.
pub fn socket_dir_chmod_failure_is_fatal(socket: &str, runtime_dir: Option<&str>) -> (r: bool)
    ensures
        r == !in_runtime_dir(socket@, opt_str(runtime_dir)),
{
    match runtime_dir {
        None => true,
        Some(d) => {
            if chars_of(d).len() == 0 {
                return true;
            }
            strip_path_prefix(socket, d).is_none()
        },
    }
}

} // verus!
