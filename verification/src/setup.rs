//! Finding the external tool: which path the client is made for, and
//! whether the tool is installed there.

use crate::client::DevTunnelClient;
use crate::process::{Completion, Invocation, Step};
use crate::text::{trim, trimmed};
use crate::types::DevTunnelInfo;
use crate::args::push_text;
use vstd::prelude::*;

verus! {

/// The name under which the tool is looked for where no path is known.
pub const DEFAULT_BINARY: &'static str = "devtunnel";

/// The path of the tool: the configured one where there is one, else the
/// one that a search of the program path discovered, else the bare name.
pub open spec fn resolved_path(configured: Option<Seq<char>>, discovered: Option<Seq<char>>) -> Seq<
    char,
> {
    match configured {
        Some(path) => path,
        None => match discovered {
            Some(path) => path,
            None => DEFAULT_BINARY@,
        },
    }
}

/// Chooses the path of the tool.
pub fn get_devtunnel_path(configured: Option<String>, discovered: Option<String>) -> (path: String)
    ensures
        path@ == resolved_path(configured.deep_view(), discovered.deep_view()),
{
    match configured {
        Some(path) => path,
        None => match discovered {
            Some(path) => path,
            None => DEFAULT_BINARY.to_owned(),
        },
    }
}

/// The state of the application: the one client that every operation
/// goes through. It is made once, owned by the caller and handed to the
/// operations; the caller guards it with a lock where several threads use
/// it.
pub struct AppState {
    pub client: DevTunnelClient,
}

impl AppState {
    /// The state at the start: a client for the tool at the resolved
    /// path that tracks no host process.
    pub fn new(configured: Option<String>, discovered: Option<String>) -> (state: Self)
        ensures
            state.client.program() == resolved_path(
                configured.deep_view(),
                discovered.deep_view(),
            ),
            state.client.hosts() == Map::<Seq<char>, u32>::empty(),
    {
        AppState { client: DevTunnelClient::new(get_devtunnel_path(configured, discovered)) }
    }
}

/// The version that a run of the tool with `--version` printed, if the
/// run succeeded.
pub open spec fn version_of(how: Completion) -> Option<Seq<char>> {
    match how {
        Completion::Exited(out) => if out.success {
            Some(trim(out.stdout@))
        } else {
            None
        },
        Completion::SpawnFailed => None,
    }
}

/// The path that a search of the program path printed, if it found one.
pub open spec fn located(how: Completion) -> Option<Seq<char>> {
    match how {
        Completion::Exited(out) => if out.success && trim(out.stdout@).len() > 0 {
            Some(trim(out.stdout@))
        } else {
            None
        },
        Completion::SpawnFailed => None,
    }
}

/// Whether `step` ends the check with this report.
pub open spec fn reports(
    step: Step<DevTunnelInfo>,
    installed: bool,
    path: Option<Seq<char>>,
    version: Option<Seq<char>>,
) -> bool {
    step matches Step::Done(Ok(info)) && info.installed == installed && info.path.deep_view()
        == path && info.version.deep_view() == version
}

/// What the installation check does next, given the path of the tool,
/// whether a file exists there, and the runs completed so far.
///
/// A tool that exists at its path is installed, and is asked for its
/// version. Otherwise the program path is searched; a tool found there is
/// installed and asked for its version; one not found is not installed.
/// A version that cannot be had is left out. The check itself never
/// fails.
pub open spec fn installation_step(
    step: Step<DevTunnelInfo>,
    path: Seq<char>,
    exists: bool,
    completed: Seq<Completion>,
) -> bool {
    if exists {
        if completed.len() == 0 {
            step.runs(path, seq!["--version"@])
        } else {
            reports(step, true, Some(path), version_of(completed[0]))
        }
    } else if completed.len() == 0 {
        step.runs("which"@, seq![DEFAULT_BINARY@])
    } else {
        match located(completed[0]) {
            None => reports(step, false, None, None),
            Some(found) => if completed.len() == 1 {
                step.runs(found, seq!["--version"@])
            } else {
                reports(step, true, Some(found), version_of(completed[1]))
            },
        }
    }
}

/// The version that a run of the tool with `--version` printed.
fn read_version(how: &Completion) -> (version: Option<String>)
    ensures
        version.deep_view() == version_of(*how),
{
    match how {
        Completion::Exited(out) => {
            if out.success {
                Some(trimmed(out.stdout.as_str()))
            } else {
                None
            }
        },
        Completion::SpawnFailed => None,
    }
}

/// The step that asks the tool at `path` for its version.
fn ask_version(path: String) -> (step: Step<DevTunnelInfo>)
    ensures
        step.runs(path@, seq!["--version"@]),
{
    let mut args: Vec<String> = Vec::new();
    push_text(&mut args, "--version");
    assert(args.deep_view() =~= seq!["--version"@]);
    Step::Run(Invocation { program: path, args })
}

/// Checks whether the tool is installed. See `installation_step`.
pub fn check_devtunnel_installation(binary_path: &str, exists: bool, completed: &Vec<Completion>) -> (step:
    Step<DevTunnelInfo>)
    ensures
        installation_step(step, binary_path@, exists, completed@),
{
    if exists {
        if completed.len() == 0 {
            return ask_version(binary_path.to_owned());
        }
        return Step::Done(
            Ok(
                DevTunnelInfo {
                    installed: true,
                    path: Some(binary_path.to_owned()),
                    version: read_version(&completed[0]),
                },
            ),
        );
    }
    if completed.len() == 0 {
        let mut args: Vec<String> = Vec::new();
        push_text(&mut args, DEFAULT_BINARY);
        assert(args.deep_view() =~= seq![DEFAULT_BINARY@]);
        return Step::Run(Invocation { program: "which".to_owned(), args });
    }
    let found = match &completed[0] {
        Completion::Exited(out) => {
            if out.success {
                let path = trimmed(out.stdout.as_str());
                if path.as_str().is_empty() {
                    None
                } else {
                    Some(path)
                }
            } else {
                None
            }
        },
        Completion::SpawnFailed => None,
    };
    match found {
        None => Step::Done(Ok(DevTunnelInfo { installed: false, path: None, version: None })),
        Some(path) => {
            if completed.len() == 1 {
                ask_version(path)
            } else {
                Step::Done(
                    Ok(
                        DevTunnelInfo {
                            installed: true,
                            path: Some(path),
                            version: read_version(&completed[1]),
                        },
                    ),
                )
            }
        },
    }
}

} // verus!
