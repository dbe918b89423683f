use shook::config::{parse_multiple_events, Serve, ServerConfig, TcpOrUnix};
use shook::daemon::daemon_command;
use shook::config::{DaemonAction, DaemonStart, DaemonStop};
use shook::deploy::{
    exit_ok, handle_event, pull_command, restart_command, DeployCycle, DeployError, DeployPhase,
};
use shook::events::{Event, EventKind};
use shook::json::JsonValue;

fn test_config() -> ServerConfig {
    ServerConfig {
        username: "deploy".to_string(),
        repo_path: "/srv/app".to_string(),
        remote: "origin".to_string(),
        branch: "main".to_string(),
        system_name: "app.service".to_string(),
        update_events: vec![EventKind::Push],
        addr: TcpOrUnix::Unix("/var/run/shook.sock".to_string()),
        socket_group: "www-data".to_string(),
        socket_user: "www-data".to_string(),
        pre_restart_command: ":".to_string(),
    }
}

fn ping_event() -> Event {
    Event::Ping {
        hook: None,
        hook_id: None,
        organization: None,
        repository: None,
        sender: JsonValue::Null,
        zen: "z".to_string(),
    }
}

fn push_event() -> Event {
    // a placeholder-free push is heavy to build; policy only reads the kind,
    // so a minimal one with empty collections is enough
    Event::Watch { payload: JsonValue::Null }
}

#[test]
fn unmatched_event_spawns_nothing() {
    let config = test_config();
    let ping = ping_event();
    assert!(!shook::policy::matches(&ping, &config.update_events));
    assert!(handle_event(&config, &ping).is_none());
}

#[test]
fn matched_event_starts_with_the_pull() {
    let mut config = test_config();
    config.update_events = vec![EventKind::Ping, EventKind::Push];
    let ping = ping_event();
    let (cycle, cmd) = handle_event(&config, &ping).expect("ping is allowed here");
    assert_eq!(cycle.phase, DeployPhase::Pulling);
    assert_eq!(cmd.program, "su".to_string());
    assert_eq!(
        cmd.args,
        vec![
            "deploy".to_string(),
            "-c".to_string(),
            "git pull 'origin' 'main'".to_string(),
        ]
    );
    assert_eq!(cmd.cwd, Some("/srv/app".to_string()));
    assert_eq!(
        cmd.env,
        vec![("GIT_TERMINAL_PROMPT".to_string(), "0".to_string())]
    );
}

#[test]
fn policy_reads_only_the_kind() {
    let config = test_config();
    let watch = push_event();
    assert!(!shook::policy::matches(&watch, &config.update_events));
    let mut allowed = config.update_events.clone();
    allowed.push(EventKind::Watch);
    assert!(shook::policy::matches(&watch, &allowed));
}

#[test]
fn failed_pull_never_restarts() {
    let config = test_config();
    let (mut cycle, _pull) = DeployCycle::start(&config);
    let next = cycle.on_exit(&config, Some(1));
    assert!(next.is_none());
    assert_eq!(
        cycle.phase,
        DeployPhase::Done(Err(DeployError::PullFailed(Some(1))))
    );
    // the cycle stays finished
    let next = cycle.on_exit(&config, Some(0));
    assert!(next.is_none());
    assert_eq!(
        cycle.phase,
        DeployPhase::Done(Err(DeployError::PullFailed(Some(1))))
    );
}

#[test]
fn signalled_pull_is_a_pull_failure() {
    let config = test_config();
    let (mut cycle, _pull) = DeployCycle::start(&config);
    let next = cycle.on_exit(&config, None);
    assert!(next.is_none());
    assert_eq!(cycle.phase, DeployPhase::Done(Err(DeployError::PullFailed(None))));
}

#[test]
fn successful_cycle_pulls_then_restarts() {
    let config = test_config();
    let (mut cycle, pull) = DeployCycle::start(&config);
    assert_eq!(pull, pull_command(&config));
    let restart = cycle.on_exit(&config, Some(0)).expect("pull ok hands out restart");
    assert_eq!(cycle.phase, DeployPhase::Restarting);
    assert_eq!(restart, restart_command(&config));
    assert_eq!(restart.program, "systemctl".to_string());
    assert_eq!(
        restart.args,
        vec!["restart".to_string(), "app.service".to_string()]
    );
    assert!(cycle.on_exit(&config, Some(0)).is_none());
    assert_eq!(cycle.phase, DeployPhase::Done(Ok(())));
}

#[test]
fn failed_restart_is_reported_with_its_code() {
    let config = test_config();
    let (mut cycle, _pull) = DeployCycle::start(&config);
    cycle.on_exit(&config, Some(0));
    cycle.on_exit(&config, Some(5));
    assert_eq!(
        cycle.phase,
        DeployPhase::Done(Err(DeployError::RestartFailed(Some(5))))
    );
}

#[test]
fn only_exit_zero_counts_as_success() {
    assert!(exit_ok(&Some(0)));
    assert!(!exit_ok(&Some(1)));
    assert!(!exit_ok(&Some(-1)));
    assert!(!exit_ok(&None));
}

#[test]
fn merge_prefers_command_line_values() {
    let mut config = test_config();
    let cli = Serve {
        branch: Some("release".to_string()),
        system_name: Some("other.service".to_string()),
        ..Serve::default()
    };
    config.merge(cli);
    assert_eq!(config.branch, "release".to_string());
    assert_eq!(config.system_name, "other.service".to_string());
    assert_eq!(config.remote, "origin".to_string());
    assert_eq!(config.username, "deploy".to_string());
}

#[test]
fn event_lists_parse_by_name() {
    assert_eq!(
        parse_multiple_events("push"),
        Ok(vec![EventKind::Push])
    );
    assert_eq!(
        parse_multiple_events("ping,push,watch"),
        Ok(vec![EventKind::Ping, EventKind::Push, EventKind::Watch])
    );
    assert_eq!(parse_multiple_events("push,bogus"), Err("bogus".to_string()));
    assert_eq!(parse_multiple_events(""), Err("".to_string()));
}

#[test]
fn daemon_actions_name_their_verbs() {
    let service = "shook.service".to_string();
    let start = daemon_command(&DaemonAction::Start(DaemonStart {}), &service);
    assert_eq!(start.program, "systemctl".to_string());
    assert_eq!(start.args, vec!["start".to_string(), "shook.service".to_string()]);
    let stop = daemon_command(&DaemonAction::Stop(DaemonStop {}), &service);
    assert_eq!(stop.args, vec!["stop".to_string(), "shook.service".to_string()]);
}

#[test]
fn address_text_is_the_address() {
    let tcp = TcpOrUnix::Tcp("127.0.0.1:8080".to_string());
    assert_eq!(tcp.to_text(), "127.0.0.1:8080".to_string());
    let unix = TcpOrUnix::Unix("/var/run/shook.sock".to_string());
    assert_eq!(unix.to_text(), "/var/run/shook.sock".to_string());
}
