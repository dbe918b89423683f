//! Daemon control: which service-manager command a daemon action stands
//! for. The command is handed to the runtime to spawn; its exit code is
//! judged like any other step.
use vstd::prelude::*;
use crate::config::DaemonAction;
use crate::deploy::CommandSpec;

verus! {

/// The service-manager verb a daemon action stands for.
pub open spec fn daemon_verb(a: DaemonAction) -> Seq<char> {
    match a {
        DaemonAction::Start(_) => "start"@,
        DaemonAction::Enable(_) => "enable"@,
        DaemonAction::Stop(_) => "stop"@,
    }
}

/// The service-manager command for a daemon action on a named service.
pub fn daemon_command(a: &DaemonAction, service_name: &String) -> (r: CommandSpec)
    ensures
        r.program@ == "systemctl"@,
        r.args.deep_view() =~= seq![daemon_verb(*a), service_name@],
        r.cwd is None,
        r.env.deep_view() =~= Seq::<(Seq<char>, Seq<char>)>::empty(),
{
    let verb = match a {
        DaemonAction::Start(_) => String::from_str("start"),
        DaemonAction::Enable(_) => String::from_str("enable"),
        DaemonAction::Stop(_) => String::from_str("stop"),
    };
    let mut args: Vec<String> = Vec::new();
    args.push(verb);
    args.push(service_name.clone());
    let r = CommandSpec { program: String::from_str("systemctl"), args, cwd: None, env: Vec::new() };
    proof {
        assert(r.args.deep_view() =~= seq![daemon_verb(*a), service_name@]);
        assert(r.env.deep_view() =~= Seq::<(Seq<char>, Seq<char>)>::empty());
    }
    r
}

} // verus!
