//! The life of a host process: started detached, tracked once it has
//! survived its start, stopped by a search of the process table.
//!
//! For each tunnel the registry goes from absent to running when a host
//! process is seen alive after its grace interval, and back to absent when
//! the tunnel is stopped. A process that dies during the grace interval was
//! never running.

use crate::args::{build_host_tunnel_args, host_tunnel_args, push_string, push_text};
use crate::client::DevTunnelClient;
use crate::parser::{creation_date, parse_creation_date, parse_start_time, start_time};
use crate::pattern::{is_match, regex_is_match};
use crate::process::{failure, failure_with, Completion, ErrorKind, Invocation, Launch, Step};
use crate::text::{chars_of, parse_u16, slice_parse_u16, trim, trim_slice};
use crate::types::{HostTunnelRequest, PingResult, PingResultView};
use vstd::prelude::*;
use vstd::string::StringExecFns;

verus! {

/// How long a host process is given before it is looked at, in
/// milliseconds.
pub const PROCESS_START_DELAY_MS: u64 = 1500;

/// How long a stopped host process is given to go away before it is
/// started again, in milliseconds.
pub const PROCESS_STOP_DELAY_MS: u64 = 500;

/// The tunnel identifiers that may be put into a process search: letters,
/// digits, dots, hyphens and underscores, at least one.
pub const TUNNEL_ID_PATTERN: &'static str = r"^[a-zA-Z0-9.\-_]+$";

/// What a refused tunnel identifier is answered with.
pub const INVALID_TUNNEL_ID: &'static str =
    "Invalid tunnel ID format: contains potentially dangerous characters. Only alphanumeric, dots, hyphens, and underscores are allowed.";

/// The family of the operating system, which decides how processes are
/// searched and ended.
#[derive(Debug, Clone, Copy, PartialEq, Eq, Structural)]
pub enum Platform {
    Linux,
    MacOs,
    Windows,
}

/// Whether `c` may stand in a tunnel identifier that goes into a process
/// search: an ASCII letter or digit, a dot, a hyphen or an underscore.
pub open spec fn is_id_char(c: char) -> bool {
    ('a' <= c && c <= 'z') || ('A' <= c && c <= 'Z') || ('0' <= c && c <= '9') || c == '.' || c
        == '-' || c == '_'
}

/// Whether `id` is made of allowed characters, and of at least one.
pub open spec fn is_allow_listed(id: Seq<char>) -> bool {
    id.len() > 0 && forall|i: int| 0 <= i < id.len() ==> is_id_char(#[trigger] id[i])
}

/// Whether `id` may be put into a process search: it is made of allowed
/// characters and `TUNNEL_ID_PATTERN`, which says the same, matches it.
/// The pattern is the rule as it is written down; the characters are
/// looked at one by one besides, so that nothing outside the allow-list
/// reaches a process search whatever the matcher makes of the pattern.
pub open spec fn is_valid_tunnel_id(id: Seq<char>) -> bool {
    is_allow_listed(id) && regex_is_match(TUNNEL_ID_PATTERN@, id) == Some(true)
}

/// Whether a search result is a match.
pub fn is_found(found: Option<bool>) -> (yes: bool)
    ensures
        yes == (found == Some(true)),
{
    match found {
        Some(b) => b,
        None => false,
    }
}

/// Whether `tunnel_id` is made of allowed characters, and of at least one.
pub fn allow_listed(tunnel_id: &str) -> (ok: bool)
    ensures
        ok == is_allow_listed(tunnel_id@),
{
    let id = chars_of(tunnel_id);
    let mut i: usize = 0;
    while i < id.len()
        invariant
            i <= id.len(),
            id@ == tunnel_id@,
            forall|k: int| 0 <= k < i ==> is_id_char(#[trigger] id@[k]),
        decreases id.len() - i,
    {
        let c = id[i];
        let allowed = ('a' <= c && c <= 'z') || ('A' <= c && c <= 'Z') || ('0' <= c && c <= '9')
            || c == '.' || c == '-' || c == '_';
        if !allowed {
            assert(!is_id_char(tunnel_id@[i as int]));
            return false;
        }
        i += 1;
    }
    id.len() > 0
}

/// Whether `tunnel_id` may be put into a process search.
pub fn validate_tunnel_id(tunnel_id: &str) -> (ok: bool)
    ensures
        ok == is_valid_tunnel_id(tunnel_id@),
{
    allow_listed(tunnel_id) && is_found(is_match(TUNNEL_ID_PATTERN, tunnel_id))
}

/// The program that ends processes.
pub open spec fn kill_program(platform: Platform) -> Seq<char> {
    match platform {
        Platform::Linux | Platform::MacOs => "pkill"@,
        Platform::Windows => "taskkill"@,
    }
}

/// The arguments that end the processes hosting the tunnel `id`: a search
/// of the command lines for the tool hosting that tunnel.
pub open spec fn kill_args(platform: Platform, id: Seq<char>) -> Seq<Seq<char>> {
    match platform {
        Platform::Linux | Platform::MacOs => seq!["-f"@, "devtunnel host "@ + id],
        Platform::Windows => seq![
            "/F"@,
            "/FI"@,
            "COMMANDLINE eq *devtunnel host "@ + id + "*"@,
        ],
    }
}

/// The message of the failure to start the program that ends processes.
pub open spec fn kill_context(platform: Platform) -> Seq<char> {
    match platform {
        Platform::Linux | Platform::MacOs => "Failed to execute pkill"@,
        Platform::Windows => "Failed to execute taskkill"@,
    }
}

/// The message that a stop ends with: the search either ended a process
/// or found none, and both are a success.
pub open spec fn stop_message(id: Seq<char>, ended_one: bool) -> Seq<char> {
    if ended_one {
        "Tunnel "@ + id + " stopped successfully"@
    } else {
        "No active host process found for tunnel "@ + id
    }
}

/// What stopping the tunnel `id` does next and to the registry, given
/// whether the identifier is valid and the runs completed so far.
///
/// An invalid identifier is refused before anything is run. A valid one
/// has the process search run. Once the search has run, the tunnel is no
/// longer tracked and the stop has succeeded, whether or not a process was
/// found. Only a search that could not be started is a failure, and it
/// leaves the registry as it was.
pub open spec fn stop_step(
    step: Step<String>,
    before: Map<Seq<char>, u32>,
    after: Map<Seq<char>, u32>,
    valid: bool,
    id: Seq<char>,
    platform: Platform,
    completed: Seq<Completion>,
) -> bool {
    if !valid {
        step.fails(ErrorKind::Validation, INVALID_TUNNEL_ID@) && after == before
    } else if completed.len() == 0 {
        step.runs(kill_program(platform), kill_args(platform, id)) && after == before
    } else {
        match completed[0] {
            Completion::SpawnFailed => step.fails(ErrorKind::Spawn, kill_context(platform))
                && after == before,
            Completion::Exited(out) => step.gives(stop_message(id, out.success)) && after
                == before.remove(id),
        }
    }
}

/// The outcome of a host process's start.
pub open spec fn hosting(launched: Launch) -> Result<(), (ErrorKind, Seq<char>)> {
    match launched {
        Launch::SpawnFailed(_) => Err((ErrorKind::Spawn, "Failed to spawn devtunnel host"@)),
        Launch::Exited(status) => Err(
            (
                ErrorKind::Startup,
                "devtunnel host process exited immediately with status: "@ + status@,
            ),
        ),
        Launch::Running(_) => Ok(()),
        Launch::Unknown(reason) => Err(
            (ErrorKind::Startup, "Failed to check process status: "@ + reason@),
        ),
    }
}

/// The registry after a host process's start: a process seen running is
/// tracked under its tunnel where both the tunnel and the process id are
/// known; anything else changes nothing.
pub open spec fn tracked_after(
    before: Map<Seq<char>, u32>,
    tunnel_id: Option<Seq<char>>,
    launched: Launch,
) -> Map<Seq<char>, u32> {
    match (tunnel_id, launched) {
        (Some(id), Launch::Running(Some(pid))) => before.insert(id, pid),
        _ => before,
    }
}

/// What hosting does next and to the registry.
pub open spec fn host_step(
    step: Step<()>,
    program: Seq<char>,
    before: Map<Seq<char>, u32>,
    after: Map<Seq<char>, u32>,
    req: &HostTunnelRequest,
    launched: Option<Launch>,
) -> bool {
    match launched {
        None => step.launches(program, host_tunnel_args(req), PROCESS_START_DELAY_MS) && after
            == before,
        Some(l) => {
            &&& after == tracked_after(before, req.tunnel_id.deep_view(), l)
            &&& match hosting(l) {
                Ok(_) => step matches Step::Done(Ok(_)),
                Err(e) => step.fails(e.0, e.1),
            }
        },
    }
}

/// How far a restart has come: what the caller has done for it so far.
#[derive(Debug, Clone, PartialEq, Eq)]
pub struct RestartProgress {
    /// How the process search ended, once it has run.
    pub stopped: Option<Completion>,
    /// Whether the settle interval has passed.
    pub settled: bool,
    /// How the new host process fared, once it was started.
    pub launched: Option<Launch>,
}

/// The registry after the stop of a restart: the tunnel is no longer
/// tracked once the process search has run.
pub open spec fn tracked_after_stop(
    before: Map<Seq<char>, u32>,
    valid: bool,
    id: Seq<char>,
    stopped: Option<Completion>,
) -> Map<Seq<char>, u32> {
    if valid && stopped matches Some(Completion::Exited(_)) {
        before.remove(id)
    } else {
        before
    }
}

/// What a restart does next and to the registry, given whether the
/// tunnel's identifier is valid and how far the restart has come.
///
/// Without a tunnel identifier the restart fails at once. Otherwise the
/// process search runs first, unless the identifier is invalid; its
/// outcome is not looked at. Then comes the settle interval, then the
/// start of the new host process, and with the look at that process the
/// restart ends as hosting would, a success naming the tunnel.
pub open spec fn restart_step(
    step: Step<String>,
    program: Seq<char>,
    before: Map<Seq<char>, u32>,
    after: Map<Seq<char>, u32>,
    valid: bool,
    req: &HostTunnelRequest,
    platform: Platform,
    progress: RestartProgress,
) -> bool {
    match req.tunnel_id {
        None => step.fails(ErrorKind::Validation, "Tunnel ID is required for restart"@) && after
            == before,
        Some(id) => {
            let stopped = tracked_after_stop(before, valid, id@, progress.stopped);
            if valid && progress.stopped is None {
                step.runs(kill_program(platform), kill_args(platform, id@)) && after == before
            } else if !progress.settled {
                step.pauses(PROCESS_STOP_DELAY_MS) && after == stopped
            } else {
                match progress.launched {
                    None => step.launches(
                        program,
                        host_tunnel_args(req),
                        PROCESS_START_DELAY_MS,
                    ) && after == stopped,
                    Some(l) => {
                        &&& after == tracked_after(stopped, Some(id@), l)
                        &&& match hosting(l) {
                            Ok(_) => step.gives("Tunnel "@ + id@ + " restarted successfully"@),
                            Err(e) => step.fails(e.0, e.1),
                        }
                    },
                }
            }
        },
    }
}

/// The program that lists processes.
pub open spec fn table_program(platform: Platform) -> Seq<char> {
    match platform {
        Platform::Linux | Platform::MacOs => "ps"@,
        Platform::Windows => "wmic"@,
    }
}

/// The arguments that list the processes with their start times.
pub open spec fn table_args(platform: Platform, id: Seq<char>) -> Seq<Seq<char>> {
    match platform {
        Platform::Linux | Platform::MacOs => seq!["-eo"@, "pid,lstart,cmd"@],
        Platform::Windows => seq![
            "process"@,
            "where"@,
            "CommandLine like '%devtunnel host "@ + id + "%'"@,
            "get"@,
            "CreationDate"@,
        ],
    }
}

/// The start time of the host process of `id` that a process table
/// gives.
pub open spec fn started(platform: Platform, table: Seq<char>, id: Seq<char>) -> Option<Seq<char>> {
    match platform {
        Platform::Linux | Platform::MacOs => start_time(table, id),
        Platform::Windows => creation_date(table),
    }
}

/// What asking for a host process's start time does next.
pub open spec fn start_time_step(
    step: Step<String>,
    id: Seq<char>,
    platform: Platform,
    completed: Seq<Completion>,
) -> bool {
    if completed.len() == 0 {
        step.runs(table_program(platform), table_args(platform, id))
    } else {
        match completed[0] {
            Completion::SpawnFailed => step.fails(
                ErrorKind::Spawn,
                match platform {
                    Platform::Linux | Platform::MacOs => "Failed to execute ps"@,
                    Platform::Windows => "Failed to execute wmic"@,
                },
            ),
            Completion::Exited(out) => if !out.success {
                step.fails(ErrorKind::Exit, "Failed to get process information"@)
            } else {
                match started(platform, out.stdout@, id) {
                    Some(at) => step.gives(at),
                    None => step.fails(
                        ErrorKind::NotFound,
                        "No active host process found for tunnel "@ + id,
                    ),
                }
            },
        }
    }
}

/// The arguments of the reachability probe of `url`: the status code of
/// the answer is printed, everything else is discarded, and the probe
/// gives up after five seconds.
pub open spec fn ping_args(url: Seq<char>) -> Seq<Seq<char>> {
    seq!["-s"@, "-o"@, "/dev/null"@, "-w"@, "%{http_code}"@, "--max-time"@, "5"@, url]
}

/// The status code that the probe printed; 0 where it printed none.
pub open spec fn status_code(printed: Seq<char>) -> u16 {
    match parse_u16(trim(printed)) {
        Some(code) => code,
        None => 0,
    }
}

/// What a probe found, given how its run ended and how long it took. A
/// probe that ran to success found the status code it printed, and the
/// port is reachable where that code is above 0 and below 600. Any other
/// probe found the port unreachable: one that ran to failure for the
/// reason on its standard error, one that could not be started for that
/// reason.
pub open spec fn ping_result(how: Completion, elapsed_ms: u64) -> PingResultView {
    match how {
        Completion::Exited(out) => if out.success {
            PingResultView {
                success: 0 < status_code(out.stdout@) < 600,
                status_code: Some(status_code(out.stdout@)),
                response_time_ms: elapsed_ms,
                error: None,
            }
        } else {
            PingResultView {
                success: false,
                status_code: None,
                response_time_ms: elapsed_ms,
                error: Some(
                    if out.stderr@.len() == 0 {
                        "Connection failed"@
                    } else {
                        out.stderr@
                    },
                ),
            }
        },
        Completion::SpawnFailed => PingResultView {
            success: false,
            status_code: None,
            response_time_ms: elapsed_ms,
            error: Some("Failed to execute curl"@),
        },
    }
}

/// A failed ping is a result, never a failure of the operation. Whatever
/// came of the probe, its result has the time it took; a probe that ran
/// to success has a status code and no error; any other has no status
/// code, is no success, and says why in a text that is not empty.
pub proof fn lemma_ping_is_always_a_result(how: Completion, elapsed_ms: u64)
    ensures
        ping_result(how, elapsed_ms).response_time_ms == elapsed_ms,
        how matches Completion::Exited(out) && out.success ==> {
            &&& ping_result(how, elapsed_ms).status_code is Some
            &&& ping_result(how, elapsed_ms).error is None
            &&& ping_result(how, elapsed_ms).success == (0 < ping_result(
                how,
                elapsed_ms,
            ).status_code->0 < 600)
        },
        !(how matches Completion::Exited(out) && out.success) ==> {
            &&& !ping_result(how, elapsed_ms).success
            &&& ping_result(how, elapsed_ms).status_code is None
            &&& ping_result(how, elapsed_ms).error is Some
            &&& ping_result(how, elapsed_ms).error->0.len() > 0
        },
{
    reveal_strlit("Connection failed");
    reveal_strlit("Failed to execute curl");
}

/// `prefix` followed by `middle` followed by `suffix`.
fn glue(prefix: &str, middle: &str, suffix: &str) -> (s: String)
    ensures
        s@ == prefix@ + middle@ + suffix@,
{
    let mut s = prefix.to_owned();
    s.append(middle);
    s.append(suffix);
    s
}

impl DevTunnelClient {
    /// The tunnels whose host process is tracked: every one of them once,
    /// in no particular order.
    pub fn get_active_hosts(&self) -> (ids: Vec<String>)
        ensures
            ids.len() == self.hosts().dom().len(),
            ids.deep_view().no_duplicates(),
            forall|id: Seq<char>| ids.deep_view().contains(id) <==> self.hosts().dom().contains(id),
    {
        self.active_processes.tunnel_ids()
    }

    /// The process that is tracked as the host of `tunnel_id`, if any.
    pub fn host_process(&self, tunnel_id: &str) -> (pid: Option<u32>)
        ensures
            pid == if self.hosts().dom().contains(tunnel_id@) {
                Some(self.hosts()[tunnel_id@])
            } else {
                None
            },
    {
        self.active_processes.get(tunnel_id)
    }

    /// Stops hosting `tunnel_id`, given whether the identifier is valid.
    /// See `stop_step`.
    pub fn stop_validated(
        &mut self,
        valid: bool,
        tunnel_id: &str,
        platform: Platform,
        completed: &Vec<Completion>,
    ) -> (step: Step<String>)
        ensures
            final(self).program() == old(self).program(),
            stop_step(
                step,
                old(self).hosts(),
                final(self).hosts(),
                valid,
                tunnel_id@,
                platform,
                completed@,
            ),
    {
        if !valid {
            return Step::Done(Err(failure(ErrorKind::Validation, INVALID_TUNNEL_ID)));
        }
        if completed.len() == 0 {
            let mut args: Vec<String> = Vec::new();
            let program = match platform {
                Platform::Linux | Platform::MacOs => {
                    push_text(&mut args, "-f");
                    push_string(&mut args, glue("devtunnel host ", tunnel_id, ""));
                    "pkill"
                },
                Platform::Windows => {
                    push_text(&mut args, "/F");
                    push_text(&mut args, "/FI");
                    push_string(&mut args, glue("COMMANDLINE eq *devtunnel host ", tunnel_id, "*"));
                    "taskkill"
                },
            };
            proof {
                reveal_strlit("");
                assert("devtunnel host "@ + tunnel_id@ + ""@ =~= "devtunnel host "@ + tunnel_id@);
                assert(args.deep_view() =~= kill_args(platform, tunnel_id@));
            }
            return Step::Run(Invocation { program: program.to_owned(), args });
        }
        match &completed[0] {
            Completion::SpawnFailed => match platform {
                Platform::Linux | Platform::MacOs => Step::Done(
                    Err(failure(ErrorKind::Spawn, "Failed to execute pkill")),
                ),
                Platform::Windows => Step::Done(
                    Err(failure(ErrorKind::Spawn, "Failed to execute taskkill")),
                ),
            },
            Completion::Exited(out) => {
                self.active_processes.remove(tunnel_id);
                if out.success {
                    Step::Done(Ok(glue("Tunnel ", tunnel_id, " stopped successfully")))
                } else {
                    let text = glue("No active host process found for tunnel ", tunnel_id, "");
                    proof {
                        reveal_strlit("");
                        assert(text@ =~= stop_message(tunnel_id@, false));
                    }
                    Step::Done(Ok(text))
                }
            },
        }
    }

    /// Stops hosting `tunnel_id` by ending every process whose command
    /// line shows the tool hosting it. No tracked process is needed for
    /// that. The identifier goes into the search, so one that
    /// `TUNNEL_ID_PATTERN` does not match is refused before anything is
    /// run. See `stop_step`.
    pub fn stop_tunnel(&mut self, tunnel_id: &str, platform: Platform, completed: &Vec<Completion>) -> (step:
        Step<String>)
        ensures
            final(self).program() == old(self).program(),
            stop_step(
                step,
                old(self).hosts(),
                final(self).hosts(),
                is_valid_tunnel_id(tunnel_id@),
                tunnel_id@,
                platform,
                completed@,
            ),
    {
        let valid = validate_tunnel_id(tunnel_id);
        self.stop_validated(valid, tunnel_id, platform, completed)
    }

    /// Hosts a tunnel: starts the host process detached and, once the
    /// caller has looked at it after the grace interval, tracks it if it
    /// is still running. See `host_step`.
    pub fn host_tunnel(&mut self, req: &HostTunnelRequest, launched: Option<&Launch>) -> (step: Step<
        (),
    >)
        ensures
            final(self).program() == old(self).program(),
            host_step(
                step,
                old(self).program(),
                old(self).hosts(),
                final(self).hosts(),
                req,
                match launched {
                    Some(l) => Some(*l),
                    None => None,
                },
            ),
    {
        match launched {
            None => Step::Launch(
                Invocation {
                    program: self.binary_path.clone(),
                    args: build_host_tunnel_args(req),
                },
                PROCESS_START_DELAY_MS,
            ),
            Some(Launch::SpawnFailed(_)) => Step::Done(
                Err(failure(ErrorKind::Spawn, "Failed to spawn devtunnel host")),
            ),
            Some(Launch::Exited(status)) => Step::Done(
                Err(
                    failure_with(
                        ErrorKind::Startup,
                        "devtunnel host process exited immediately with status: ",
                        status.as_str(),
                    ),
                ),
            ),
            Some(Launch::Running(pid)) => {
                match (&req.tunnel_id, pid) {
                    (Some(id), Some(p)) => {
                        self.active_processes.insert(id.clone(), *p);
                    },
                    _ => {},
                }
                Step::Done(Ok(()))
            },
            Some(Launch::Unknown(reason)) => Step::Done(
                Err(
                    failure_with(
                        ErrorKind::Startup,
                        "Failed to check process status: ",
                        reason.as_str(),
                    ),
                ),
            ),
        }
    }

    /// Restarts the hosting of a tunnel, given whether its identifier is
    /// valid. See `restart_step`.
    pub fn restart_validated(
        &mut self,
        valid: bool,
        req: &HostTunnelRequest,
        platform: Platform,
        progress: &RestartProgress,
    ) -> (step: Step<String>)
        ensures
            final(self).program() == old(self).program(),
            restart_step(
                step,
                old(self).program(),
                old(self).hosts(),
                final(self).hosts(),
                valid,
                req,
                platform,
                *progress,
            ),
    {
        let id = match &req.tunnel_id {
            Some(id) => id,
            None => {
                return Step::Done(
                    Err(failure(ErrorKind::Validation, "Tunnel ID is required for restart")),
                );
            },
        };
        let mut done: Vec<Completion> = Vec::new();
        match &progress.stopped {
            Some(how) => done.push(how.duplicate()),
            None => {},
        }
        match self.stop_validated(valid, id.as_str(), platform, &done) {
            Step::Run(search) => {
                return Step::Run(search);
            },
            _ => {},
        }
        if !progress.settled {
            return Step::Pause(PROCESS_STOP_DELAY_MS);
        }
        match self.host_tunnel(req, progress.launched.as_ref()) {
            Step::Launch(host, grace) => Step::Launch(host, grace),
            Step::Done(Err(e)) => Step::Done(Err(e)),
            _ => Step::Done(Ok(glue("Tunnel ", id.as_str(), " restarted successfully"))),
        }
    }

    /// Restarts the hosting of a tunnel: stops it, waits for the old
    /// process to go away, and hosts it again. A request that names no
    /// tunnel fails at once. A stop that fails, or is refused, does not
    /// keep the tunnel from being hosted again. See `restart_step`.
    pub fn restart_tunnel(
        &mut self,
        req: &HostTunnelRequest,
        platform: Platform,
        progress: &RestartProgress,
    ) -> (step: Step<String>)
        ensures
            final(self).program() == old(self).program(),
            restart_step(
                step,
                old(self).program(),
                old(self).hosts(),
                final(self).hosts(),
                match req.tunnel_id {
                    Some(id) => is_valid_tunnel_id(id@),
                    None => false,
                },
                req,
                platform,
                *progress,
            ),
    {
        let valid = match &req.tunnel_id {
            Some(id) => validate_tunnel_id(id.as_str()),
            None => false,
        };
        self.restart_validated(valid, req, platform, progress)
    }

    /// Asks when the host process of `tunnel_id` started. See
    /// `start_time_step`.
    pub fn get_tunnel_start_time(
        &self,
        tunnel_id: &str,
        platform: Platform,
        completed: &Vec<Completion>,
    ) -> (step: Step<String>)
        ensures
            start_time_step(step, tunnel_id@, platform, completed@),
    {
        if completed.len() == 0 {
            let mut args: Vec<String> = Vec::new();
            let program = match platform {
                Platform::Linux | Platform::MacOs => {
                    push_text(&mut args, "-eo");
                    push_text(&mut args, "pid,lstart,cmd");
                    "ps"
                },
                Platform::Windows => {
                    push_text(&mut args, "process");
                    push_text(&mut args, "where");
                    push_string(&mut args, glue("CommandLine like '%devtunnel host ", tunnel_id, "%'"));
                    push_text(&mut args, "get");
                    push_text(&mut args, "CreationDate");
                    "wmic"
                },
            };
            assert(args.deep_view() =~= table_args(platform, tunnel_id@));
            return Step::Run(Invocation { program: program.to_owned(), args });
        }
        match &completed[0] {
            Completion::SpawnFailed => match platform {
                Platform::Linux | Platform::MacOs => Step::Done(Err(failure(ErrorKind::Spawn, "Failed to execute ps"))),
                Platform::Windows => Step::Done(
                    Err(failure(ErrorKind::Spawn, "Failed to execute wmic")),
                ),
            },
            Completion::Exited(out) => {
                if !out.success {
                    return Step::Done(
                        Err(failure(ErrorKind::Exit, "Failed to get process information")),
                    );
                }
                let found = match platform {
                    Platform::Linux | Platform::MacOs => parse_start_time(out.stdout.as_str(), tunnel_id),
                    Platform::Windows => parse_creation_date(out.stdout.as_str()),
                };
                match found {
                    Some(at) => Step::Done(Ok(at)),
                    None => Step::Done(
                        Err(
                            failure_with(
                                ErrorKind::NotFound,
                                "No active host process found for tunnel ",
                                tunnel_id,
                            ),
                        ),
                    ),
                }
            },
        }
    }

    /// Probes whether `url` answers. `elapsed_ms` is how long the run of
    /// the probe took. The operation never fails: an unreachable port is
    /// a result, and so is a probe that could not be started. See
    /// `ping_result`.
    pub fn ping_port(&self, url: &str, completed: &Vec<Completion>, elapsed_ms: u64) -> (step: Step<
        PingResult,
    >)
        ensures
            completed.len() == 0 ==> step.runs("curl"@, ping_args(url@)),
            completed.len() > 0 ==> (step matches Step::Done(Ok(result)) && result.deep_view()
                == ping_result(completed[0], elapsed_ms)),
    {
        if completed.len() == 0 {
            let mut args: Vec<String> = Vec::new();
            push_text(&mut args, "-s");
            push_text(&mut args, "-o");
            push_text(&mut args, "/dev/null");
            push_text(&mut args, "-w");
            push_text(&mut args, "%{http_code}");
            push_text(&mut args, "--max-time");
            push_text(&mut args, "5");
            push_text(&mut args, url);
            assert(args.deep_view() =~= ping_args(url@));
            return Step::Run(Invocation { program: "curl".to_owned(), args });
        }
        match &completed[0] {
            Completion::SpawnFailed => Step::Done(
                Ok(
                    PingResult {
                        success: false,
                        status_code: None,
                        response_time_ms: elapsed_ms,
                        error: Some("Failed to execute curl".to_owned()),
                    },
                ),
            ),
            Completion::Exited(out) => {
                if out.success {
                    let printed = chars_of(out.stdout.as_str());
                    let code = match slice_parse_u16(trim_slice(printed.as_slice())) {
                        Some(c) => c,
                        None => 0,
                    };
                    Step::Done(
                        Ok(
                            PingResult {
                                success: code > 0 && code < 600,
                                status_code: Some(code),
                                response_time_ms: elapsed_ms,
                                error: None,
                            },
                        ),
                    )
                } else {
                    let reason = if out.stderr.as_str().is_empty() {
                        "Connection failed".to_owned()
                    } else {
                        out.stderr.clone()
                    };
                    Step::Done(
                        Ok(
                            PingResult {
                                success: false,
                                status_code: None,
                                response_time_ms: elapsed_ms,
                                error: Some(reason),
                            },
                        ),
                    )
                }
            },
        }
    }
}

/// Stopping needs no tracked process. Once the process search has run
/// for a valid identifier, the stop has succeeded whatever the registry
/// held: where the search found no process the outcome is the message
/// that none was found, not a failure, and in either case the tunnel is
/// not tracked afterwards.
pub proof fn lemma_stop_succeeds_without_tracked_process(
    step: Step<String>,
    before: Map<Seq<char>, u32>,
    after: Map<Seq<char>, u32>,
    id: Seq<char>,
    platform: Platform,
    out: crate::process::ProcessOutput,
)
    requires
        stop_step(step, before, after, true, id, platform, seq![Completion::Exited(out)]),
    ensures
        step matches Step::Done(Ok(_)),
        !out.success ==> step.gives("No active host process found for tunnel "@ + id),
        !after.dom().contains(id),
        !before.dom().contains(id) ==> after == before,
{
    if !before.dom().contains(id) {
        assert(before.remove(id) =~= before);
    }
}

/// The injection guard: a process search is asked for only with an
/// identifier made of allowed characters, and the identifier goes into
/// the search as it is.
pub proof fn lemma_only_allow_listed_identifiers_are_searched(
    step: Step<String>,
    before: Map<Seq<char>, u32>,
    after: Map<Seq<char>, u32>,
    id: Seq<char>,
    platform: Platform,
    completed: Seq<Completion>,
)
    requires
        stop_step(step, before, after, is_valid_tunnel_id(id), id, platform, completed),
        step is Run,
    ensures
        is_allow_listed(id),
        step.runs(kill_program(platform), kill_args(platform, id)),
{
}

/// An identifier that is not valid starts no process search, whatever
/// has been reported as run.
pub proof fn lemma_invalid_identifier_runs_nothing(
    step: Step<String>,
    before: Map<Seq<char>, u32>,
    after: Map<Seq<char>, u32>,
    id: Seq<char>,
    platform: Platform,
    completed: Seq<Completion>,
)
    requires
        stop_step(step, before, after, false, id, platform, completed),
    ensures
        step.fails(ErrorKind::Validation, INVALID_TUNNEL_ID@),
        !(step is Run),
        after == before,
{
}

/// A tunnel is tracked only after its host process was seen running: a
/// start that did not find the process running leaves the registry as it
/// was, and one that did tracks the tunnel under the process seen.
pub proof fn lemma_tracked_only_when_seen_running(
    before: Map<Seq<char>, u32>,
    id: Seq<char>,
    launched: Launch,
)
    ensures
        !(launched is Running) ==> tracked_after(before, Some(id), launched) == before,
        launched matches Launch::Running(Some(pid)) ==> tracked_after(before, Some(id), launched)
            == before.insert(id, pid),
        hosting(launched) is Ok <==> launched is Running,
{
}

} // verus!
