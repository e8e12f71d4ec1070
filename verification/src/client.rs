//! The adapter to the external tool: one method per operation.
//!
//! The client starts no process. Every operation is a function from what
//! has been run for it so far to what is to happen next: either a command
//! to run, or the outcome. The caller runs each command it is handed and
//! calls again with the completions so far, until it is handed an outcome.

use crate::args::{
    build_create_access_args, build_create_port_args, build_create_tunnel_args,
    build_delete_all_tunnels_args, build_delete_port_args, build_delete_tunnel_args,
    build_list_access_args, build_list_clusters_args, build_list_ports_args,
    build_list_tunnels_args, build_login_args, build_logout_args, build_reset_access_args,
    build_show_port_args, build_show_tunnel_args, build_update_port_description_args,
    build_update_tunnel_args, build_user_show_args, create_access_args, create_port_args,
    create_tunnel_args, delete_all_tunnels_args, delete_port_args, delete_tunnel_args,
    list_access_args, list_clusters_args, list_ports_args, list_tunnels_args, login_args,
    logout_args, reset_access_args, show_port_args, show_tunnel_args,
    update_port_description_args, update_tunnel_args, user_show_args,
};
use crate::parser::{
    is_listing, parse_port_show, parse_tunnel_list, parse_user_info, port_shown,
    user_from_groups, USER_PATTERN,
};
use crate::pattern::regex_captures;
use crate::process::{failure, failure_with, Completion, ErrorKind, Invocation, Step, TunnelError};
use crate::registry::ProcessRegistry;
use crate::types::{
    Cluster, CreateAccessRequest, CreatePortRequest, CreateTunnelRequest, ListTunnelsRequest,
    Port, TunnelListItem, UpdatePortRequest, UpdateTunnelRequest, UserInfo,
};
use vstd::prelude::*;

verus! {

/// The adapter: the path of the external tool and the registry of the host
/// processes started through it.
pub struct DevTunnelClient {
    pub(crate) binary_path: String,
    pub(crate) active_processes: ProcessRegistry,
}

/// How a bounded run of the tool ended, as an operation sees it: the text
/// on standard output where it reported success; a spawn failure with the
/// message `context` where it could not be started; an exit failure whose
/// message is `prefix` followed by its standard error otherwise.
pub open spec fn outcome(how: Completion, context: Seq<char>, prefix: Seq<char>) -> Result<
    Seq<char>,
    (ErrorKind, Seq<char>),
> {
    match how {
        Completion::SpawnFailed => Err((ErrorKind::Spawn, context)),
        Completion::Exited(out) => if out.success {
            Ok(out.stdout@)
        } else {
            Err((ErrorKind::Exit, prefix + out.stderr@))
        },
    }
}

/// Whether `step` ends an operation with the text, or the failure, that
/// `result` holds.
pub open spec fn ends(step: Step<String>, result: Result<Seq<char>, (ErrorKind, Seq<char>)>) -> bool {
    match result {
        Ok(text) => step.gives(text),
        Err(e) => step.fails(e.0, e.1),
    }
}

/// `result` with the text of a success replaced by `message`.
pub open spec fn confirmed(
    result: Result<Seq<char>, (ErrorKind, Seq<char>)>,
    message: Seq<char>,
) -> Result<Seq<char>, (ErrorKind, Seq<char>)> {
    match result {
        Ok(_) => Ok(message),
        Err(e) => Err(e),
    }
}

/// Reads how a bounded run ended.
pub fn check<'a>(how: &'a Completion, context: &str, prefix: &str) -> (r: Result<
    &'a String,
    TunnelError,
>)
    ensures
        match r {
            Ok(text) => outcome(*how, context@, prefix@) == Ok::<Seq<char>, (ErrorKind, Seq<char>)>(
                text@,
            ),
            Err(e) => outcome(*how, context@, prefix@) matches Err(x) && e.is(x.0, x.1),
        },
{
    match how {
        Completion::SpawnFailed => Err(failure(ErrorKind::Spawn, context)),
        Completion::Exited(out) => {
            if out.success {
                Ok(&out.stdout)
            } else {
                Err(failure_with(ErrorKind::Exit, prefix, out.stderr.as_str()))
            }
        },
    }
}

/// Ends an operation with the tool's output.
pub fn echo(how: &Completion, context: &str, prefix: &str) -> (step: Step<String>)
    ensures
        ends(step, outcome(*how, context@, prefix@)),
{
    match check(how, context, prefix) {
        Ok(text) => Step::Done(Ok(text.clone())),
        Err(e) => Step::Done(Err(e)),
    }
}

/// Ends an operation with `message` where the tool succeeded.
pub fn confirm(how: &Completion, context: &str, message: &str, prefix: &str) -> (step: Step<String>)
    ensures
        ends(step, confirmed(outcome(*how, context@, prefix@), message@)),
{
    match check(how, context, prefix) {
        Ok(_) => Step::Done(Ok(message.to_owned())),
        Err(e) => Step::Done(Err(e)),
    }
}

impl DevTunnelClient {
    /// The path of the external tool.
    pub open(crate) spec fn program(&self) -> Seq<char> {
        self.binary_path@
    }

    /// The registry: the tracked host processes, by tunnel.
    pub open(crate) spec fn hosts(&self) -> Map<Seq<char>, u32> {
        self.active_processes@
    }

    /// A client for the tool at `binary_path` that tracks no host process
    /// yet.
    pub fn new(binary_path: String) -> (client: Self)
        ensures
            client.program() == binary_path@,
            client.hosts() == Map::<Seq<char>, u32>::empty(),
    {
        DevTunnelClient { binary_path, active_processes: ProcessRegistry::new() }
    }

    /// The tool's path.
    pub fn binary_path(&self) -> (path: &String)
        ensures
            path@ == self.program(),
    {
        &self.binary_path
    }

    /// The step that has the tool run with `args`.
    pub fn run<T>(&self, args: Vec<String>) -> (step: Step<T>)
        ensures
            step.runs(self.program(), args.deep_view()),
    {
        Step::Run(Invocation { program: self.binary_path.clone(), args })
    }

    /// Logs in with `provider`, by device code where asked.
    pub fn login(&self, provider: &str, use_device_code: bool, completed: &Vec<Completion>) -> (step:
        Step<String>)
        ensures
            completed.len() == 0 ==> step.runs(
                self.program(),
                login_args(provider@, use_device_code),
            ),
            completed.len() > 0 ==> ends(
                step,
                outcome(completed[0], "Failed to execute devtunnel login"@, "Login failed: "@),
            ),
    {
        if completed.len() == 0 {
            self.run(build_login_args(provider, use_device_code))
        } else {
            echo(&completed[0], "Failed to execute devtunnel login", "Login failed: ")
        }
    }

    /// Logs out.
    pub fn logout(&self, completed: &Vec<Completion>) -> (step: Step<String>)
        ensures
            completed.len() == 0 ==> step.runs(self.program(), logout_args()),
            completed.len() > 0 ==> ends(
                step,
                confirmed(
                    outcome(
                        completed[0],
                        "Failed to execute devtunnel logout"@,
                        "Logout failed: "@,
                    ),
                    "Logged out successfully"@,
                ),
            ),
    {
        if completed.len() == 0 {
            self.run(build_logout_args())
        } else {
            confirm(
                &completed[0],
                "Failed to execute devtunnel logout",
                "Logged out successfully",
                "Logout failed: ",
            )
        }
    }

    /// Asks who is logged in. A run that fails means that nobody is; output
    /// without the line that names the user is a parse failure.
    pub fn get_user_info(&self, completed: &Vec<Completion>) -> (step: Step<UserInfo>)
        ensures
            completed.len() == 0 ==> step.runs(self.program(), user_show_args()),
            completed.len() > 0 ==> match completed[0] {
                Completion::SpawnFailed => step.fails(
                    ErrorKind::Spawn,
                    "Failed to get user info"@,
                ),
                Completion::Exited(out) => if !out.success {
                    step.fails(ErrorKind::Exit, "Not authenticated"@)
                } else {
                    match user_from_groups(
                        out.stdout@,
                        regex_captures(USER_PATTERN@, out.stdout@),
                    ) {
                        Some(user) => step matches Step::Done(Ok(info)) && info.deep_view()
                            == user,
                        None => step.fails(ErrorKind::Parse, "Failed to parse user info"@),
                    }
                },
            },
    {
        if completed.len() == 0 {
            return self.run(build_user_show_args());
        }
        match &completed[0] {
            Completion::SpawnFailed => Step::Done(
                Err(failure(ErrorKind::Spawn, "Failed to get user info")),
            ),
            Completion::Exited(out) => {
                if !out.success {
                    Step::Done(Err(failure(ErrorKind::Exit, "Not authenticated")))
                } else {
                    match parse_user_info(out.stdout.as_str()) {
                        Some(info) => Step::Done(Ok(info)),
                        None => Step::Done(
                            Err(failure(ErrorKind::Parse, "Failed to parse user info")),
                        ),
                    }
                }
            },
        }
    }

    /// Creates a tunnel.
    pub fn create_tunnel(&self, req: &CreateTunnelRequest, completed: &Vec<Completion>) -> (step:
        Step<String>)
        ensures
            completed.len() == 0 ==> step.runs(self.program(), create_tunnel_args(req)),
            completed.len() > 0 ==> ends(
                step,
                outcome(completed[0], "Failed to create tunnel"@, "Failed to create tunnel: "@),
            ),
    {
        if completed.len() == 0 {
            self.run(build_create_tunnel_args(req))
        } else {
            echo(&completed[0], "Failed to create tunnel", "Failed to create tunnel: ")
        }
    }

    /// Lists the tunnels without their ports.
    pub fn list_tunnels_light(
        &self,
        req: &Option<ListTunnelsRequest>,
        completed: &Vec<Completion>,
    ) -> (step: Step<Vec<TunnelListItem>>)
        ensures
            completed.len() == 0 ==> step.runs(self.program(), list_tunnels_args(req)),
            completed.len() > 0 ==> match outcome(
                completed[0],
                "Failed to list tunnels"@,
                "Failed to list tunnels: "@,
            ) {
                Ok(text) => step matches Step::Done(Ok(tunnels)) && is_listing(
                    tunnels.deep_view(),
                    text,
                ),
                Err(e) => step.fails(e.0, e.1),
            },
    {
        if completed.len() == 0 {
            return self.run(build_list_tunnels_args(req));
        }
        match check(&completed[0], "Failed to list tunnels", "Failed to list tunnels: ") {
            Ok(text) => Step::Done(Ok(parse_tunnel_list(text.as_str()))),
            Err(e) => Step::Done(Err(e)),
        }
    }

    /// Shows a tunnel, or the current one where none is named.
    pub fn show_tunnel(&self, tunnel_id: &Option<String>, completed: &Vec<Completion>) -> (step:
        Step<String>)
        ensures
            completed.len() == 0 ==> step.runs(
                self.program(),
                show_tunnel_args(tunnel_id.deep_view()),
            ),
            completed.len() > 0 ==> ends(
                step,
                outcome(completed[0], "Failed to show tunnel"@, "Failed to show tunnel: "@),
            ),
    {
        if completed.len() == 0 {
            self.run(build_show_tunnel_args(tunnel_id))
        } else {
            echo(&completed[0], "Failed to show tunnel", "Failed to show tunnel: ")
        }
    }

    /// Updates a tunnel.
    pub fn update_tunnel(&self, req: &UpdateTunnelRequest, completed: &Vec<Completion>) -> (step:
        Step<String>)
        ensures
            completed.len() == 0 ==> step.runs(self.program(), update_tunnel_args(req)),
            completed.len() > 0 ==> ends(
                step,
                outcome(completed[0], "Failed to update tunnel"@, "Failed to update tunnel: "@),
            ),
    {
        if completed.len() == 0 {
            self.run(build_update_tunnel_args(req))
        } else {
            echo(&completed[0], "Failed to update tunnel", "Failed to update tunnel: ")
        }
    }

    /// Deletes a tunnel.
    pub fn delete_tunnel(&self, tunnel_id: &str, completed: &Vec<Completion>) -> (step: Step<
        String,
    >)
        ensures
            completed.len() == 0 ==> step.runs(self.program(), delete_tunnel_args(tunnel_id@)),
            completed.len() > 0 ==> ends(
                step,
                confirmed(
                    outcome(
                        completed[0],
                        "Failed to delete tunnel"@,
                        "Failed to delete tunnel: "@,
                    ),
                    "Tunnel deleted successfully"@,
                ),
            ),
    {
        if completed.len() == 0 {
            self.run(build_delete_tunnel_args(tunnel_id))
        } else {
            confirm(
                &completed[0],
                "Failed to delete tunnel",
                "Tunnel deleted successfully",
                "Failed to delete tunnel: ",
            )
        }
    }

    /// Deletes every tunnel.
    pub fn delete_all_tunnels(&self, completed: &Vec<Completion>) -> (step: Step<String>)
        ensures
            completed.len() == 0 ==> step.runs(self.program(), delete_all_tunnels_args()),
            completed.len() > 0 ==> ends(
                step,
                confirmed(
                    outcome(
                        completed[0],
                        "Failed to delete all tunnels"@,
                        "Failed to delete all tunnels: "@,
                    ),
                    "All tunnels deleted successfully"@,
                ),
            ),
    {
        if completed.len() == 0 {
            self.run(build_delete_all_tunnels_args())
        } else {
            confirm(
                &completed[0],
                "Failed to delete all tunnels",
                "All tunnels deleted successfully",
                "Failed to delete all tunnels: ",
            )
        }
    }

    /// Adds a port to a tunnel.
    pub fn create_port(&self, req: &CreatePortRequest, completed: &Vec<Completion>) -> (step: Step<
        String,
    >)
        ensures
            completed.len() == 0 ==> step.runs(self.program(), create_port_args(req)),
            completed.len() > 0 ==> ends(
                step,
                outcome(completed[0], "Failed to create port"@, "Failed to create port: "@),
            ),
    {
        if completed.len() == 0 {
            self.run(build_create_port_args(req))
        } else {
            echo(&completed[0], "Failed to create port", "Failed to create port: ")
        }
    }

    /// Lists the ports of a tunnel. The tool answers in JSON, which the
    /// caller decodes once the run has succeeded: `decoded` is what the
    /// decoding gave, `None` where the output was not the expected JSON,
    /// and then the list is empty.
    pub fn list_ports(
        &self,
        tunnel_id: &str,
        completed: &Vec<Completion>,
        decoded: Option<Vec<Port>>,
    ) -> (step: Step<Vec<Port>>)
        ensures
            completed.len() == 0 ==> step.runs(self.program(), list_ports_args(tunnel_id@)),
            completed.len() > 0 ==> match outcome(
                completed[0],
                "Failed to list ports"@,
                "Failed to list ports: "@,
            ) {
                Ok(_) => step matches Step::Done(Ok(ports)) && match decoded {
                    Some(d) => ports == d,
                    None => ports@.len() == 0,
                },
                Err(e) => step.fails(e.0, e.1),
            },
    {
        if completed.len() == 0 {
            return self.run(build_list_ports_args(tunnel_id));
        }
        match check(&completed[0], "Failed to list ports", "Failed to list ports: ") {
            Ok(_) => match decoded {
                Some(ports) => Step::Done(Ok(ports)),
                None => Step::Done(Ok(Vec::new())),
            },
            Err(e) => Step::Done(Err(e)),
        }
    }

    /// Shows one port of a tunnel. Output that does not describe a port is
    /// a parse failure.
    pub fn show_port(&self, tunnel_id: &str, port_number: u16, completed: &Vec<Completion>) -> (step:
        Step<Port>)
        ensures
            completed.len() == 0 ==> step.runs(
                self.program(),
                show_port_args(tunnel_id@, port_number),
            ),
            completed.len() > 0 ==> shows_port(step, completed[0]),
    {
        if completed.len() == 0 {
            return self.run(build_show_port_args(tunnel_id, port_number));
        }
        match check(&completed[0], "Failed to show port", "Failed to show port: ") {
            Ok(text) => match parse_port_show(text.as_str()) {
                Some(port) => Step::Done(Ok(port)),
                None => Step::Done(Err(failure(ErrorKind::Parse, "Failed to parse port details"))),
            },
            Err(e) => Step::Done(Err(e)),
        }
    }

    /// Sets the description of a port.
    pub fn update_port_description(&self, req: &UpdatePortRequest, completed: &Vec<Completion>) -> (step:
        Step<String>)
        ensures
            completed.len() == 0 ==> step.runs(
                self.program(),
                update_port_description_args(req),
            ),
            completed.len() > 0 ==> ends(
                step,
                outcome(completed[0], "Failed to update port"@, "Failed to update port: "@),
            ),
    {
        if completed.len() == 0 {
            self.run(build_update_port_description_args(req))
        } else {
            echo(&completed[0], "Failed to update port", "Failed to update port: ")
        }
    }

    /// Removes a port from a tunnel.
    pub fn delete_port(&self, tunnel_id: &str, port: u16, completed: &Vec<Completion>) -> (step:
        Step<String>)
        ensures
            completed.len() == 0 ==> step.runs(self.program(), delete_port_args(tunnel_id@, port)),
            completed.len() > 0 ==> ends(
                step,
                confirmed(
                    outcome(completed[0], "Failed to delete port"@, "Failed to delete port: "@),
                    "Port deleted successfully"@,
                ),
            ),
    {
        if completed.len() == 0 {
            self.run(build_delete_port_args(tunnel_id, port))
        } else {
            confirm(
                &completed[0],
                "Failed to delete port",
                "Port deleted successfully",
                "Failed to delete port: ",
            )
        }
    }

    /// Grants access to a tunnel.
    pub fn create_access(&self, req: &CreateAccessRequest, completed: &Vec<Completion>) -> (step:
        Step<String>)
        ensures
            completed.len() == 0 ==> step.runs(self.program(), create_access_args(req)),
            completed.len() > 0 ==> ends(
                step,
                outcome(completed[0], "Failed to create access"@, "Failed to create access: "@),
            ),
    {
        if completed.len() == 0 {
            self.run(build_create_access_args(req))
        } else {
            echo(&completed[0], "Failed to create access", "Failed to create access: ")
        }
    }

    /// Lists the access entries of a tunnel, as the tool prints them.
    pub fn list_access(&self, tunnel_id: &str, completed: &Vec<Completion>) -> (step: Step<String>)
        ensures
            completed.len() == 0 ==> step.runs(self.program(), list_access_args(tunnel_id@)),
            completed.len() > 0 ==> ends(
                step,
                outcome(completed[0], "Failed to list access"@, "Failed to list access: "@),
            ),
    {
        if completed.len() == 0 {
            self.run(build_list_access_args(tunnel_id))
        } else {
            echo(&completed[0], "Failed to list access", "Failed to list access: ")
        }
    }

    /// Resets the access entries of a tunnel.
    pub fn reset_access(&self, tunnel_id: &str, completed: &Vec<Completion>) -> (step: Step<
        String,
    >)
        ensures
            completed.len() == 0 ==> step.runs(self.program(), reset_access_args(tunnel_id@)),
            completed.len() > 0 ==> ends(
                step,
                confirmed(
                    outcome(
                        completed[0],
                        "Failed to reset access"@,
                        "Failed to reset access: "@,
                    ),
                    "Access reset successfully"@,
                ),
            ),
    {
        if completed.len() == 0 {
            self.run(build_reset_access_args(tunnel_id))
        } else {
            confirm(
                &completed[0],
                "Failed to reset access",
                "Access reset successfully",
                "Failed to reset access: ",
            )
        }
    }

    /// Lists the clusters, with their latency where `ping` asks for it.
    /// The tool answers in JSON, which the caller decodes once the run has
    /// succeeded: `decoded` is what the decoding gave, `None` where the
    /// output was not the expected JSON, and then the list is empty.
    pub fn list_clusters(
        &self,
        ping: bool,
        completed: &Vec<Completion>,
        decoded: Option<Vec<Cluster>>,
    ) -> (step: Step<Vec<Cluster>>)
        ensures
            completed.len() == 0 ==> step.runs(self.program(), list_clusters_args(ping)),
            completed.len() > 0 ==> match outcome(
                completed[0],
                "Failed to list clusters"@,
                "Failed to list clusters: "@,
            ) {
                Ok(_) => step matches Step::Done(Ok(clusters)) && match decoded {
                    Some(d) => clusters == d,
                    None => clusters@.len() == 0,
                },
                Err(e) => step.fails(e.0, e.1),
            },
    {
        if completed.len() == 0 {
            return self.run(build_list_clusters_args(ping));
        }
        match check(&completed[0], "Failed to list clusters", "Failed to list clusters: ") {
            Ok(_) => match decoded {
                Some(clusters) => Step::Done(Ok(clusters)),
                None => Step::Done(Ok(Vec::new())),
            },
            Err(e) => Step::Done(Err(e)),
        }
    }
}

/// Whether `step` ends `show_port` as the run `how` requires: with the port
/// that the output describes, with a parse failure where it describes
/// none, or with the failure of the run.
pub open spec fn shows_port(step: Step<Port>, how: Completion) -> bool {
    match outcome(how, "Failed to show port"@, "Failed to show port: "@) {
        Ok(text) => match port_shown(text) {
            Some(shown) => step matches Step::Done(Ok(port)) && port.deep_view() == shown,
            None => step.fails(ErrorKind::Parse, "Failed to parse port details"@),
        },
        Err(e) => step.fails(e.0, e.1),
    }
}

} // verus!
