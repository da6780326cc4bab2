//! How a background instance is started: through the compositor's own
//! spawn command, so that it outlives the process that asked for it.

use vstd::prelude::*;

verus! {

/// The compositor the session runs.
#[derive(Debug, Clone, PartialEq, Eq)]
pub enum Compositor {
    Niri,
    Hyprland,
    Sway,
    Other(String),
}

/// A command to run: the program and its arguments; `direct` when the
/// instance itself is started (not waited for), otherwise the compositor's
/// tool, whose exit status is checked.
#[derive(Debug, Clone)]
pub struct SpawnCommand {
    pub program: String,
    pub args: Vec<String>,
    pub direct: bool,
}

pub open spec fn config_args(config_dir: Option<Seq<char>>) -> Seq<Seq<char>> {
    match config_dir {
        Some(d) => seq!["--config"@, d],
        None => Seq::empty(),
    }
}

/// The command for `compositor` that starts the executable `exe`, passing
/// on a custom configuration directory.
pub open spec fn spec_spawn_command(compositor: Compositor, exe: Seq<char>, config_dir: Option<Seq<char>>) -> (Seq<char>, Seq<Seq<char>>, bool) {
    match compositor {
        Compositor::Niri => ("niri"@, seq!["msg"@, "action"@, "spawn"@, "--"@, exe] + config_args(config_dir), false),
        Compositor::Hyprland => ("hyprctl"@, seq!["dispatch"@, "exec"@, "--"@, exe] + config_args(config_dir), false),
        Compositor::Sway => ("swaymsg"@, seq!["exec"@, match config_dir {
            Some(d) => "'"@ + exe + " --config "@ + d + "'"@,
            None => "'"@ + exe + "'"@,
        }], false),
        Compositor::Other(_) => (exe, config_args(config_dir), true),
    }
}

fn push_config_args(args: &mut Vec<String>, config_dir: Option<&str>)
    ensures
        final(args)@.map_values(|s: String| s@) == old(args)@.map_values(|s: String| s@)
            + config_args(match config_dir { Some(d) => Some(d@), None => None }),
{
    proof {
        reveal_strlit("--config");
    }
    let ghost before = args@.map_values(|s: String| s@);
    match config_dir {
        Some(d) => {
            args.push(String::from_str("--config"));
            args.push(String::from_str(d));
            proof {
                assert(args@.map_values(|s: String| s@) =~= before + seq!["--config"@, d@]);
            }
        },
        None => {
            proof {
                assert(args@.map_values(|s: String| s@) =~= before + Seq::<Seq<char>>::empty());
            }
        },
    }
}

pub fn spawn_command(compositor: &Compositor, exe: &str, config_dir: Option<&str>) -> (c: SpawnCommand)
    ensures
        ({
            let (p, a, d) = spec_spawn_command(*compositor, exe@, match config_dir { Some(x) => Some(x@), None => None });
            &&& c.program@ == p
            &&& c.args@.map_values(|s: String| s@) == a
            &&& c.direct == d
        }),
{
    proof {
        reveal_strlit("niri");
        reveal_strlit("msg");
        reveal_strlit("action");
        reveal_strlit("spawn");
        reveal_strlit("--");
        reveal_strlit("hyprctl");
        reveal_strlit("dispatch");
        reveal_strlit("exec");
        reveal_strlit("swaymsg");
        reveal_strlit("'");
        reveal_strlit(" --config ");
    }
    let mut args: Vec<String> = Vec::new();
    match compositor {
        Compositor::Niri => {
            args.push(String::from_str("msg"));
            args.push(String::from_str("action"));
            args.push(String::from_str("spawn"));
            args.push(String::from_str("--"));
            args.push(String::from_str(exe));
            proof {
                assert(args@.map_values(|s: String| s@) =~= seq!["msg"@, "action"@, "spawn"@, "--"@, exe@]);
            }
            push_config_args(&mut args, config_dir);
            SpawnCommand { program: String::from_str("niri"), args, direct: false }
        },
        Compositor::Hyprland => {
            args.push(String::from_str("dispatch"));
            args.push(String::from_str("exec"));
            args.push(String::from_str("--"));
            args.push(String::from_str(exe));
            proof {
                assert(args@.map_values(|s: String| s@) =~= seq!["dispatch"@, "exec"@, "--"@, exe@]);
            }
            push_config_args(&mut args, config_dir);
            SpawnCommand { program: String::from_str("hyprctl"), args, direct: false }
        },
        Compositor::Sway => {
            let mut line = String::from_str("'");
            line.append(exe);
            match config_dir {
                Some(d) => {
                    line.append(" --config ");
                    line.append(d);
                },
                None => {},
            }
            line.append("'");
            args.push(String::from_str("exec"));
            args.push(line);
            proof {
                assert(args@.map_values(|s: String| s@) =~= spec_spawn_command(*compositor, exe@, match config_dir { Some(x) => Some(x@), None => None }).1);
            }
            SpawnCommand { program: String::from_str("swaymsg"), args, direct: false }
        },
        Compositor::Other(_) => {
            proof {
                assert(args@.map_values(|s: String| s@) =~= Seq::<Seq<char>>::empty());
            }
            push_config_args(&mut args, config_dir);
            proof {
                assert(Seq::<Seq<char>>::empty() + config_args(match config_dir { Some(x) => Some(x@), None => None })
                    =~= config_args(match config_dir { Some(x) => Some(x@), None => None }));
            }
            SpawnCommand { program: String::from_str(exe), args, direct: true }
        },
    }
}

/// The line announcing the start, and the prefix of the failure message of
/// the compositor's tool (none for a direct start).
pub fn spawn_texts(compositor: &Compositor) -> (r: (&'static str, Option<&'static str>))
    ensures
        match *compositor {
            Compositor::Niri => r.0@ == "Starting sunsetr via niri compositor..."@ && (r.1 matches Some(f) && f@ == "niri spawn command failed: "@),
            Compositor::Hyprland => r.0@ == "Starting sunsetr via Hyprland compositor..."@ && (r.1 matches Some(f) && f@ == "hyprctl dispatch exec command failed: "@),
            Compositor::Sway => r.0@ == "Starting sunsetr via Sway compositor..."@ && (r.1 matches Some(f) && f@ == "swaymsg exec command failed: "@),
            Compositor::Other(_) => r.0@ == "Starting sunsetr directly (may not have proper parent relationship)"@ && r.1 is None,
        },
{
    match compositor {
        Compositor::Niri => ("Starting sunsetr via niri compositor...", Some("niri spawn command failed: ")),
        Compositor::Hyprland => ("Starting sunsetr via Hyprland compositor...", Some("hyprctl dispatch exec command failed: ")),
        Compositor::Sway => ("Starting sunsetr via Sway compositor...", Some("swaymsg exec command failed: ")),
        Compositor::Other(_) => ("Starting sunsetr directly (may not have proper parent relationship)", None),
    }
}

} // verus!
