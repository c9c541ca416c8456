use std::path::PathBuf;

use oqto::pi_session::{
    CreateDecision, CreationGuard,
    last_activity_ms, listed_history_id, resolve_session_key,
    chosen_session_file, command_transition, env_additions, pi_args, plan_pi_launch, response_id,
    state_after_event, state_after_exit, sweep_action, validate_command, CommandRejection,
    Delivery, LaunchError, PiEventKind, PiLaunch, PiManagerConfig, PiSessionCommand,
    PiSessionConfig, SandboxSetting, SweepAction, HEALTH_CHECK_AFTER_NS,
    HARD_TIMEOUT_STREAMING_NS, HARD_TIMEOUT_TRANSIENT_NS,
};
use oqto::protocol::PiSessionState;

#[test]
fn test_session_state_display() {
    assert_eq!(PiSessionState::Starting.to_string(), "starting");
    assert_eq!(PiSessionState::Idle.to_string(), "idle");
    assert_eq!(PiSessionState::Streaming.to_string(), "streaming");
    assert_eq!(PiSessionState::Compacting.to_string(), "compacting");
    assert_eq!(PiSessionState::Aborting.to_string(), "aborting");
    assert_eq!(PiSessionState::Stopping.to_string(), "stopping");
}

#[test]
fn test_default_config() {
    // The defaults on a host without a system-wide /usr/local/bin/pi.
    let config = PiManagerConfig::from_environment(Some("/home/tester"), None, None, false);
    assert!(config.pi_binary.to_string_lossy().contains(".bun/bin/pi"));
    assert_eq!(config.idle_timeout_secs, 300);
    assert_eq!(config.cleanup_interval_secs, 60);
}

#[test]
fn test_session_config_default() {
    let config = PiSessionConfig::for_home(Some("/home/tester"));
    assert!(config.provider.is_none());
    assert!(config.model.is_none());
    assert!(config.continue_session.is_none());
    assert!(config.env.is_empty());
}

#[test]
fn manager_config_paths_follow_home_and_xdg() {
    let config = PiManagerConfig::from_environment(Some("/home/u"), None, Some("/state"), false);
    assert_eq!(config.pi_binary, PathBuf::from("/home/u/.bun/bin/pi"));
    assert_eq!(config.default_cwd, PathBuf::from("/home/u/projects"));
    assert_eq!(
        config.hstry_db_path,
        Some(PathBuf::from("/home/u/.local/share/hstry/hstry.db"))
    );
    assert_eq!(
        config.model_cache_dir,
        Some(PathBuf::from("/state/oqto/model-cache"))
    );
    assert_eq!(config.runner_id, "local");
    let system = PiManagerConfig::from_environment(None, Some("/data"), None, true);
    assert_eq!(system.pi_binary, PathBuf::from("/usr/local/bin/pi"));
    assert_eq!(system.default_cwd, PathBuf::from("/tmp/projects"));
    assert_eq!(system.hstry_db_path, Some(PathBuf::from("/data/hstry/hstry.db")));
}

#[test]
fn session_config_without_home_uses_tmp() {
    let config = PiSessionConfig::for_home(None);
    assert_eq!(config.cwd, PathBuf::from("/tmp/projects"));
}

fn prompt() -> PiSessionCommand {
    PiSessionCommand::Prompt {
        message: "hi".to_string(),
        client_id: None,
    }
}

fn steer() -> PiSessionCommand {
    PiSessionCommand::Steer {
        message: "stop".to_string(),
        client_id: None,
    }
}

#[test]
fn prompts_need_an_idle_session() {
    assert!(validate_command("s", PiSessionState::Idle, &prompt()).is_ok());
    assert!(validate_command("s", PiSessionState::Starting, &prompt()).is_ok());
    let err = validate_command("s", PiSessionState::Streaming, &prompt()).unwrap_err();
    assert_eq!(err.reason, CommandRejection::NotIdle);
    assert_eq!(err.session_id, "s");
    assert_eq!(err.state, PiSessionState::Streaming);
}

#[test]
fn steering_compaction_and_switching_are_refused_when_busy() {
    assert!(validate_command("s", PiSessionState::Streaming, &steer()).is_ok());
    assert_eq!(
        validate_command("s", PiSessionState::Compacting, &steer())
            .unwrap_err()
            .reason,
        CommandRejection::NotReadyForSteer
    );
    assert_eq!(
        validate_command("s", PiSessionState::Streaming, &PiSessionCommand::Compact(None))
            .unwrap_err()
            .reason,
        CommandRejection::NotIdleForCompaction
    );
    assert_eq!(
        validate_command(
            "s",
            PiSessionState::Aborting,
            &PiSessionCommand::SwitchSession("f".to_string())
        )
        .unwrap_err()
        .reason,
        CommandRejection::NotIdleForSwitch
    );
    assert!(validate_command("s", PiSessionState::Streaming, &PiSessionCommand::GetState).is_ok());
}

#[test]
fn an_accepted_prompt_streams() {
    assert_eq!(
        command_transition(PiSessionState::Idle, &prompt()),
        (PiSessionState::Streaming, Delivery::Prompt, Some(None))
    );
}

#[test]
fn steering_an_idle_session_starts_a_turn() {
    assert_eq!(
        command_transition(PiSessionState::Idle, &steer()),
        (PiSessionState::Streaming, Delivery::Prompt, Some(None))
    );
    assert_eq!(
        command_transition(PiSessionState::Streaming, &steer()),
        (PiSessionState::Streaming, Delivery::Steer, Some(None))
    );
}

#[test]
fn abort_moves_a_running_turn_to_aborting() {
    assert_eq!(
        command_transition(PiSessionState::Streaming, &PiSessionCommand::Abort),
        (PiSessionState::Aborting, Delivery::Forward, None)
    );
    assert_eq!(
        command_transition(PiSessionState::Idle, &PiSessionCommand::Abort),
        (PiSessionState::Idle, Delivery::Forward, None)
    );
    assert_eq!(
        command_transition(PiSessionState::Idle, &PiSessionCommand::Close),
        (PiSessionState::Idle, Delivery::Stop, None)
    );
}

#[test]
fn queries_carry_their_response_ids() {
    assert_eq!(
        response_id(&PiSessionCommand::GetState),
        Some("get_state".to_string())
    );
    assert_eq!(
        response_id(&PiSessionCommand::IncrementalPersist),
        Some("_incremental_persist".to_string())
    );
    assert_eq!(response_id(&prompt()), None);
}

#[test]
fn turn_events_bring_the_session_back_to_idle() {
    let s = state_after_event(PiSessionState::Idle, PiEventKind::AgentStart, false);
    assert_eq!(s, PiSessionState::Streaming);
    assert_eq!(
        state_after_event(s, PiEventKind::AgentEnd, false),
        PiSessionState::Idle
    );
    assert_eq!(
        state_after_event(PiSessionState::Starting, PiEventKind::Other, true),
        PiSessionState::Idle
    );
    assert_eq!(
        state_after_event(PiSessionState::Starting, PiEventKind::Other, false),
        PiSessionState::Starting
    );
    assert_eq!(state_after_exit(PiSessionState::Streaming), PiSessionState::Stopping);
}

#[test]
fn sweep_closes_only_unwatched_idle_sessions() {
    let idle_timeout = 300_000_000_000u128;
    assert_eq!(
        sweep_action(PiSessionState::Idle, idle_timeout + 1, 0, idle_timeout, Some(true)),
        SweepAction::Close
    );
    assert_eq!(
        sweep_action(PiSessionState::Idle, idle_timeout + 1, 1, idle_timeout, Some(true)),
        SweepAction::Keep
    );
    assert_eq!(
        sweep_action(PiSessionState::Idle, idle_timeout, 0, idle_timeout, Some(true)),
        SweepAction::Keep
    );
}

#[test]
fn sweep_unsticks_busy_sessions() {
    assert_eq!(
        sweep_action(PiSessionState::Streaming, 1, 0, 0, Some(false)),
        SweepAction::ForceIdleDead
    );
    assert_eq!(
        sweep_action(PiSessionState::Streaming, HEALTH_CHECK_AFTER_NS + 1, 0, 0, Some(true)),
        SweepAction::HealthCheck
    );
    assert_eq!(
        sweep_action(PiSessionState::Streaming, HARD_TIMEOUT_STREAMING_NS + 1, 0, 0, None),
        SweepAction::ForceIdleTimeout
    );
    assert_eq!(
        sweep_action(PiSessionState::Compacting, HARD_TIMEOUT_TRANSIENT_NS + 1, 0, 0, None),
        SweepAction::ForceIdleTimeout
    );
    assert_eq!(
        sweep_action(PiSessionState::Streaming, HEALTH_CHECK_AFTER_NS, 0, 0, Some(true)),
        SweepAction::Keep
    );
}

#[test]
fn pi_is_started_in_rpc_mode() {
    let args = pi_args(
        &Some("anthropic".to_string()),
        &None,
        &Some("/s.jsonl".to_string()),
    );
    assert_eq!(
        args,
        vec!["--mode", "rpc", "--provider", "anthropic", "--session", "/s.jsonl"]
    );
}

#[test]
fn explicit_session_file_wins() {
    assert_eq!(
        chosen_session_file(Some("a".to_string()), Some("b".to_string()), Some("c".to_string())),
        Some("a".to_string())
    );
    assert_eq!(
        chosen_session_file(None, None, Some("c".to_string())),
        Some("c".to_string())
    );
    assert_eq!(chosen_session_file(None, None, None), None);
}

#[test]
fn configured_environment_is_not_overridden() {
    let adds = env_additions(
        &vec!["AGENT_BROWSER_SESSION".to_string()],
        "/run/x",
        "b1",
        "ses_1",
    );
    assert_eq!(
        adds,
        vec![
            ("AGENT_BROWSER_SOCKET_DIR".to_string(), "/run/x".to_string()),
            ("OQTO_SESSION_ID".to_string(), "ses_1".to_string()),
        ]
    );
}

#[test]
fn sandbox_without_bwrap_refuses_the_session() {
    assert!(matches!(
        plan_pi_launch(SandboxSetting::Enabled(None), "pi", vec![]),
        Err(LaunchError::SandboxUnavailable)
    ));
    match plan_pi_launch(
        SandboxSetting::Enabled(Some(vec!["--ro-bind".to_string()])),
        "/usr/bin/pi",
        vec!["--mode".to_string()],
    ) {
        Ok(PiLaunch::Sandboxed { bwrap_args }) => {
            assert_eq!(bwrap_args, vec!["--ro-bind", "/usr/bin/pi", "--mode"])
        }
        _ => panic!("expected a sandboxed launch"),
    }
    assert!(matches!(
        plan_pi_launch(SandboxSetting::Disabled, "pi", vec![]),
        Ok(PiLaunch::Direct { .. })
    ));
}

#[test]
fn sessions_are_found_by_id_or_alias() {
    let running = vec!["s1".to_string(), "s2".to_string()];
    let aliases = vec![
        ("pi-a".to_string(), "s1".to_string()),
        ("s2".to_string(), "s9".to_string()),
    ];
    assert_eq!(resolve_session_key("s2", &running, &aliases).as_deref(), Some("s2"));
    assert_eq!(resolve_session_key("pi-a", &running, &aliases).as_deref(), Some("s1"));
    assert_eq!(resolve_session_key("pi-b", &running, &aliases), None);
}

#[test]
fn history_id_is_listed_only_when_it_differs() {
    assert_eq!(listed_history_id("s1", ""), None);
    assert_eq!(listed_history_id("s1", "s1"), None);
    assert_eq!(listed_history_id("s1", "pi-a").as_deref(), Some("pi-a"));
}

#[test]
fn last_activity_is_now_less_elapsed() {
    assert_eq!(last_activity_ms(1_700_000_000_000, 2_500), 1_699_999_997_500);
}

#[test]
fn messages_set_the_pending_client_id() {
    let with_id = |id: &str| PiSessionCommand::FollowUp {
        message: "later".to_string(),
        client_id: Some(id.to_string()),
    };
    assert_eq!(
        command_transition(PiSessionState::Streaming, &with_id("c-1")),
        (PiSessionState::Streaming, Delivery::FollowUp, Some(Some("c-1".to_string())))
    );
    assert_eq!(
        command_transition(
            PiSessionState::Idle,
            &PiSessionCommand::Prompt { message: "hi".to_string(), client_id: Some("c-2".to_string()) }
        ),
        (PiSessionState::Streaming, Delivery::Prompt, Some(Some("c-2".to_string())))
    );
    assert_eq!(
        command_transition(PiSessionState::Idle, &PiSessionCommand::GetState),
        (PiSessionState::Idle, Delivery::Forward, None)
    );
}

#[test]
fn a_session_is_spawned_once_while_its_creation_runs() {
    let mut guard = CreationGuard::new();
    assert_eq!(guard.begin("s1", None), CreateDecision::Spawn);
    assert!(guard.contains("s1"));
    assert_eq!(guard.begin("s1", None), CreateDecision::InProgress("s1".to_string()));
    assert_eq!(guard.begin("s2", None), CreateDecision::Spawn);
    assert_eq!(
        guard.begin("s1", Some("pi-123".to_string())),
        CreateDecision::Existing("pi-123".to_string())
    );
    guard.finish("s1");
    assert!(!guard.contains("s1"));
    assert!(guard.contains("s2"));
    assert_eq!(guard.begin("s1", None), CreateDecision::Spawn);
}
