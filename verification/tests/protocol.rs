use std::path::PathBuf;

use oqto::commands::{Command, CommandPayload, SessionConfig};
use oqto::protocol::{
    default_memory_limit, default_true, ErrorCode, ErrorResponse, PiCreateSessionRequest,
    PiSessionConfig, PiSessionInfo, PiSessionState, RunnerRequest, SpawnProcessRequest,
};

#[test]
fn protocol_session_config_defaults_to_current_dir() {
    let c = PiSessionConfig::default();
    assert_eq!(c.cwd, PathBuf::from("."));
    assert!(c.provider.is_none() && c.model.is_none());
    assert!(c.session_file.is_none() && c.continue_session.is_none());
    assert!(c.env.is_empty());
}

#[test]
fn serde_defaults() {
    assert!(default_true());
    assert_eq!(default_memory_limit(), 20);
}

#[test]
fn requests_carry_their_payloads() {
    let req = RunnerRequest::SpawnProcess(SpawnProcessRequest {
        id: "proc-1".to_string(),
        binary: "/usr/bin/pi".to_string(),
        args: vec!["serve".to_string()],
        cwd: PathBuf::from("/home/user/project"),
        env: std::collections::HashMap::new(),
        sandboxed: false,
    });
    match req {
        RunnerRequest::SpawnProcess(p) => assert_eq!(p.id, "proc-1"),
        _ => panic!("wrong variant"),
    }
    let req = RunnerRequest::PiCreateSession(PiCreateSessionRequest {
        session_id: "ses_123".to_string(),
        config: PiSessionConfig::default(),
    });
    assert!(matches!(req, RunnerRequest::PiCreateSession(ref p) if p.session_id == "ses_123"));
}

#[test]
fn error_codes_compare() {
    let e = ErrorResponse {
        code: ErrorCode::ProcessNotFound,
        message: "No such process: foo".to_string(),
    };
    assert_eq!(e.code, ErrorCode::ProcessNotFound);
    assert!(e.message.contains("foo"));
}

#[test]
fn session_info_holds_its_state() {
    let info = PiSessionInfo {
        session_id: "ses_123".to_string(),
        hstry_id: None,
        state: PiSessionState::Streaming,
        last_activity: 1234567890000,
        subscriber_count: 2,
        cwd: PathBuf::from("/home/user/project"),
        provider: Some("anthropic".to_string()),
        model: None,
    };
    assert_eq!(info.state.to_string(), "streaming");
}

#[test]
fn canonical_commands() {
    let cmd = Command {
        id: Some("req-2".to_string()),
        session_id: "ses_new".to_string(),
        runner_id: Some("local".to_string()),
        payload: CommandPayload::SessionCreate {
            config: SessionConfig {
                harness: "pi".to_string(),
                cwd: Some("/home/user/project".to_string()),
                provider: Some("anthropic".to_string()),
                model: None,
                continue_session: None,
            },
        },
    };
    assert!(matches!(cmd.payload, CommandPayload::SessionCreate { ref config } if config.harness == "pi"));
}
