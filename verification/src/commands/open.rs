//! The decisions behind opening a project session: which configuration
//! directory the multiplexer uses, how its exit status after deleting a
//! session is judged, and with which argument vector it is launched.

use vstd::prelude::*;

verus! {

/// Which directory the multiplexer configuration is read from.
#[derive(Debug, Clone, Copy, PartialEq, Eq, Structural)]
pub enum ZellijConfigDir {
    /// The project's own configuration directory.
    Local,
    /// The configuration directory under the user's home.
    Home,
}

/// Chooses the multiplexer configuration directory: the project's own when it
/// exists, otherwise the one under the user's home when that exists,
/// otherwise nothing — which the caller treats as a hard error.
pub fn choose_config_dir(local_exists: bool, home_exists: bool) -> (r: Option<ZellijConfigDir>)
    ensures
        r == if local_exists {
            Some(ZellijConfigDir::Local)
        } else if home_exists {
            Some(ZellijConfigDir::Home)
        } else {
            None::<ZellijConfigDir>
        },
{
    if local_exists {
        Some(ZellijConfigDir::Local)
    } else if home_exists {
        Some(ZellijConfigDir::Home)
    } else {
        None
    }
}

/// Judges the exit code of the multiplexer's delete-session command: code 0
/// means the exited session was deleted and code 2 means there was nothing to
/// delete — both fine; code 1 (a still-running session) and anything else is
/// a failure.
pub fn delete_session_ok(exit_code: Option<i32>) -> (r: bool)
    ensures
        r == (exit_code == Some(0i32) || exit_code == Some(2i32)),
{
    match exit_code {
        Some(0i32) => true,
        Some(2i32) => true,
        _ => false,
    }
}

/// The arguments with which the multiplexer itself is launched.
pub open spec fn spec_zellij_launch_args(session: Seq<char>, config_dir: Seq<char>) -> Seq<
    Seq<char>,
> {
    seq!["--session"@, session, "--config-dir"@, config_dir]
}

/// Builds the multiplexer's launch arguments for a session and configuration
/// directory.
pub fn zellij_launch_args(session: &str, config_dir: &str) -> (r: Vec<String>)
    ensures
        r.deep_view() == spec_zellij_launch_args(session@, config_dir@),
{
    let mut v: Vec<String> = Vec::new();
    v.push(String::from_str("--session"));
    v.push(String::from_str(session));
    v.push(String::from_str("--config-dir"));
    v.push(String::from_str(config_dir));
    proof {
        assert(v.deep_view() =~= spec_zellij_launch_args(session@, config_dir@));
    }
    v
}

/// How the session is started.
#[derive(Debug)]
pub enum LaunchPlan {
    /// Run the multiplexer in the foreground, with these arguments, and wait
    /// for it to exit.
    Foreground(Vec<String>),
    /// Spawn this full command line — a terminal emulator that runs the
    /// multiplexer — and do not wait for it.
    Terminal(Vec<String>),
}

/// Decides how the session is started: with no configured terminal command
/// (or an empty one) the multiplexer runs in the foreground; otherwise the
/// configured terminal command is spawned with the multiplexer invocation
/// appended to its arguments.
pub fn launch_plan(terminal: &Option<Vec<String>>, session: &str, config_dir: &str) -> (r:
    LaunchPlan)
    ensures
        ({
            let base = spec_zellij_launch_args(session@, config_dir@);
            match terminal {
                Some(t) => if t@.len() == 0 {
                    r matches LaunchPlan::Foreground(a) && a.deep_view() == base
                } else {
                    r matches LaunchPlan::Terminal(a) && a.deep_view() == t.deep_view() + seq![
                        "zellij"@,
                    ] + base
                },
                None => r matches LaunchPlan::Foreground(a) && a.deep_view() == base,
            }
        }),
{
    let base = zellij_launch_args(session, config_dir);
    match terminal {
        None => LaunchPlan::Foreground(base),
        Some(t) => {
            if t.len() == 0 {
                LaunchPlan::Foreground(base)
            } else {
                let mut argv: Vec<String> = Vec::new();
                let mut i: usize = 0;
                while i < t.len()
                    invariant
                        0 <= i <= t@.len(),
                        argv.deep_view() =~= t.deep_view().take(i as int),
                    decreases t@.len() - i,
                {
                    let ghost prev = argv.deep_view();
                    argv.push(t[i].clone());
                    proof {
                        assert(argv.deep_view() =~= prev.push(t.deep_view()[i as int]));
                        assert(argv.deep_view() =~= t.deep_view().take(i + 1));
                    }
                    i += 1;
                }
                proof {
                    assert(t.deep_view().take(t.deep_view().len() as int) =~= t.deep_view());
                }
                argv.push(String::from_str("zellij"));
                let ghost with_zellij = argv.deep_view();
                proof {
                    assert(with_zellij =~= t.deep_view() + seq!["zellij"@]);
                }
                let mut j: usize = 0;
                let base_len = base.len();
                while j < base_len
                    invariant
                        0 <= j <= base@.len() == base_len,
                        base.deep_view() == spec_zellij_launch_args(session@, config_dir@),
                        argv.deep_view() =~= with_zellij + base.deep_view().take(j as int),
                    decreases base_len - j,
                {
                    let ghost prev = argv.deep_view();
                    argv.push(base[j].clone());
                    proof {
                        assert(argv.deep_view() =~= prev.push(base.deep_view()[j as int]));
                        assert(argv.deep_view() =~= with_zellij + base.deep_view().take(j + 1));
                    }
                    j += 1;
                }
                proof {
                    assert(base.deep_view().take(base.deep_view().len() as int) =~= base.deep_view());
                    assert(argv.deep_view() =~= t.deep_view() + seq!["zellij"@] + base.deep_view());
                }
                LaunchPlan::Terminal(argv)
            }
        },
    }
}

} // verus!
