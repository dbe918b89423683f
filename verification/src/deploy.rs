//! The deploy cycle: pull the tracked branch, then restart the service.
//!
//! The cycle is a small state machine from process exit codes to the next
//! command, so the surrounding runtime only spawns what the machine hands
//! out and reports what it concludes. A pull failure ends the cycle without
//! a restart; nothing is retried; there is no rollback after a failed
//! restart.
use vstd::prelude::*;
use crate::config::ServerConfig;
use crate::events::Event;
use crate::policy::spec_matches;

verus! {

/// A command for the runtime to spawn: program, arguments, working
/// directory and extra environment.
#[derive(Debug, PartialEq)]
pub struct CommandSpec {
    pub program: String,
    pub args: Vec<String>,
    pub cwd: Option<String>,
    pub env: Vec<(String, String)>,
}

/// Why a deploy cycle failed: the exit code of the failing step, or `None`
/// when it was ended by a signal.
#[derive(Debug, PartialEq, Eq)]
pub enum DeployError {
    /// The pull step exited nonzero or by signal.
    PullFailed(Option<i64>),
    /// The restart step exited nonzero or by signal.
    RestartFailed(Option<i64>),
}

/// The shell line the pull runs: a pull of the remote and branch, each
/// single-quoted.
pub open spec fn pull_shell_line(remote: Seq<char>, branch: Seq<char>) -> Seq<char> {
    "git pull '"@ + remote + "' '"@ + branch + "'"@
}

/// The pull command: the pull shell line run as the configured user inside
/// the repository, with interactive credential prompting switched off so a
/// failed authentication fails fast instead of hanging.
pub open spec fn spec_pull_command(c: ServerConfig, cmd: CommandSpec) -> bool {
    &&& cmd.program@ == "su"@
    &&& cmd.args.deep_view() =~= seq![c.username@, "-c"@, pull_shell_line(c.remote@, c.branch@)]
    &&& cmd.cwd matches Some(p) && p@ == c.repo_path@
    &&& cmd.env.deep_view() =~= seq![("GIT_TERMINAL_PROMPT"@, "0"@)]
}

/// Build the pull command for a configuration.
pub fn pull_command(c: &ServerConfig) -> (r: CommandSpec)
    ensures
        spec_pull_command(*c, r),
{
    let mut line = String::from_str("git pull '");
    line.append(c.remote.as_str());
    line.append("' '");
    line.append(c.branch.as_str());
    line.append("'");
    let mut args: Vec<String> = Vec::new();
    args.push(c.username.clone());
    args.push(String::from_str("-c"));
    args.push(line);
    let mut env: Vec<(String, String)> = Vec::new();
    env.push((String::from_str("GIT_TERMINAL_PROMPT"), String::from_str("0")));
    let r = CommandSpec {
        program: String::from_str("su"),
        args,
        cwd: Some(c.repo_path.clone()),
        env,
    };
    proof {
        assert(r.args.deep_view() =~= seq![
            c.username@,
            "-c"@,
            pull_shell_line(c.remote@, c.branch@),
        ]);
        assert(r.env.deep_view() =~= seq![("GIT_TERMINAL_PROMPT"@, "0"@)]);
    }
    r
}

/// The restart command: the service manager restarting the configured
/// service, with no working directory or environment of its own.
pub open spec fn spec_restart_command(c: ServerConfig, cmd: CommandSpec) -> bool {
    &&& cmd.program@ == "systemctl"@
    &&& cmd.args.deep_view() =~= seq!["restart"@, c.system_name@]
    &&& cmd.cwd is None
    &&& cmd.env.deep_view() =~= Seq::<(Seq<char>, Seq<char>)>::empty()
}

/// Build the restart command for a configuration.
pub fn restart_command(c: &ServerConfig) -> (r: CommandSpec)
    ensures
        spec_restart_command(*c, r),
{
    let mut args: Vec<String> = Vec::new();
    args.push(String::from_str("restart"));
    args.push(c.system_name.clone());
    let r = CommandSpec { program: String::from_str("systemctl"), args, cwd: None, env: Vec::new() };
    proof {
        assert(r.args.deep_view() =~= seq!["restart"@, c.system_name@]);
        assert(r.env.deep_view() =~= Seq::<(Seq<char>, Seq<char>)>::empty());
    }
    r
}

/// A step succeeded exactly when the process exited with code zero; any
/// other code, and an end by signal, is failure.
pub open spec fn spec_exit_ok(code: Option<i64>) -> bool {
    code == Some(0i64)
}

/// Did the process exit successfully?
pub fn exit_ok(code: &Option<i64>) -> (r: bool)
    ensures
        r == spec_exit_ok(*code),
{
    match code {
        Some(c) => *c == 0,
        None => false,
    }
}

/// Where a deploy cycle stands.
#[derive(Debug, PartialEq, Eq)]
pub enum DeployPhase {
    /// The pull command has been handed out; its exit is awaited.
    Pulling,
    /// The pull succeeded and the restart command has been handed out.
    Restarting,
    /// The cycle is over, successfully or not.
    Done(Result<(), DeployError>),
}

/// One deploy cycle.
#[derive(Debug, PartialEq, Eq)]
pub struct DeployCycle {
    pub phase: DeployPhase,
}

impl DeployCycle {
    /// Start a cycle: the first step is the pull.
    pub fn start(c: &ServerConfig) -> (r: (DeployCycle, CommandSpec))
        ensures
            r.0.phase == DeployPhase::Pulling,
            spec_pull_command(*c, r.1),
    {
        (DeployCycle { phase: DeployPhase::Pulling }, pull_command(c))
    }

    /// Feed the exit code of the last handed-out command into the cycle and
    /// get the next command, if there is one.
    ///
    /// A successful pull hands out the restart; a failed pull ends the
    /// cycle at once, so the restart is never run after a failed pull. A
    /// finished cycle stays finished.
    pub fn on_exit(&mut self, c: &ServerConfig, code: Option<i64>) -> (r: Option<CommandSpec>)
        ensures
            old(self).phase == DeployPhase::Pulling && spec_exit_ok(code) ==> final(self).phase
                == DeployPhase::Restarting && (r matches Some(cmd) && spec_restart_command(*c, cmd)),
            old(self).phase == DeployPhase::Pulling && !spec_exit_ok(code) ==> final(self).phase
                == DeployPhase::Done(Err(DeployError::PullFailed(code))) && r is None,
            old(self).phase == DeployPhase::Restarting && spec_exit_ok(code) ==> final(self).phase
                == DeployPhase::Done(Ok(())) && r is None,
            old(self).phase == DeployPhase::Restarting && !spec_exit_ok(code) ==> final(self).phase
                == DeployPhase::Done(Err(DeployError::RestartFailed(code))) && r is None,
            (old(self).phase matches DeployPhase::Done(_)) ==> *final(self) == *old(self) && r
                is None,
    {
        match &self.phase {
            DeployPhase::Pulling => {
                if exit_ok(&code) {
                    self.phase = DeployPhase::Restarting;
                    Some(restart_command(c))
                } else {
                    self.phase = DeployPhase::Done(Err(DeployError::PullFailed(code)));
                    None
                }
            },
            DeployPhase::Restarting => {
                if exit_ok(&code) {
                    self.phase = DeployPhase::Done(Ok(()));
                } else {
                    self.phase = DeployPhase::Done(Err(DeployError::RestartFailed(code)));
                }
                None
            },
            DeployPhase::Done(_) => None,
        }
    }
}

/// Decide what a delivery triggers: a deploy cycle when the event's kind is
/// allowed, nothing otherwise — an unmatched event spawns no process at all.
pub fn handle_event(c: &ServerConfig, event: &Event) -> (r: Option<(DeployCycle, CommandSpec)>)
    ensures
        spec_matches(*event, c.update_events@) <==> r is Some,
        r matches Some(p) ==> p.0.phase == DeployPhase::Pulling && spec_pull_command(*c, p.1),
{
    if crate::policy::matches(event, &c.update_events) {
        Some(DeployCycle::start(c))
    } else {
        None
    }
}

} // verus!
