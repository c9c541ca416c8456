//! Pi session manager decisions.
//!
//! The runner keeps one Pi agent process per session and tracks the
//! session's lifecycle state. This module holds the decisions of that
//! manager as functions from the current state and an incoming command,
//! event or timer tick to the next state and the action to take; the
//! process, pipes and timers stay with the caller.
use vstd::prelude::*;
use std::collections::HashMap;
use std::path::PathBuf;
use crate::protocol::{path_from, path_from_str, path_join, path_joined, PiSessionState};
use crate::text::{push_char, push_str, str_eq, to_owned_string};

verus! {

/// Configuration for the Pi session manager.
#[derive(Debug, Clone)]
pub struct PiManagerConfig {
    /// Path to the Pi binary.
    pub pi_binary: PathBuf,
    /// Default working directory for sessions.
    pub default_cwd: PathBuf,
    /// Idle timeout before session cleanup (seconds).
    pub idle_timeout_secs: u64,
    /// Cleanup check interval (seconds).
    pub cleanup_interval_secs: u64,
    /// Path to hstry database (for direct writes).
    pub hstry_db_path: Option<PathBuf>,
    /// Runner identifier (human-readable).
    pub runner_id: String,
    /// Directory for persisting the model cache across restarts.
    pub model_cache_dir: Option<PathBuf>,
}

/// Configuration for creating a Pi session.
#[derive(Debug, Clone)]
pub struct PiSessionConfig {
    /// Working directory for Pi.
    pub cwd: PathBuf,
    /// Provider (anthropic, openai, etc.).
    pub provider: Option<String>,
    /// Model ID.
    pub model: Option<String>,
    /// Explicit session file to use (new or resume).
    pub session_file: Option<PathBuf>,
    /// Session file to continue from.
    pub continue_session: Option<PathBuf>,
    /// Environment variables.
    pub env: HashMap<String, String>,
}

/// The home directory to use: `HOME` where it is set, `/tmp` otherwise.
pub open spec fn home_or_tmp(home: Option<&str>) -> Seq<char> {
    match home {
        Some(h) => h@,
        None => "/tmp"@,
    }
}

fn home_path(home: Option<&str>) -> (p: PathBuf)
    ensures
        p == path_from(home_or_tmp(home)),
{
    match home {
        Some(h) => path_from_str(h),
        None => path_from_str("/tmp"),
    }
}

impl PiManagerConfig {
    /// The default configuration, from the environment: `HOME`,
    /// `XDG_DATA_HOME` and `XDG_STATE_HOME` where set, and whether a
    /// system-wide `/usr/local/bin/pi` exists (it is preferred to the
    /// user's `~/.bun/bin/pi`).
    pub fn from_environment(
        home: Option<&str>,
        xdg_data_home: Option<&str>,
        xdg_state_home: Option<&str>,
        system_pi_exists: bool,
    ) -> (r: Self)
        ensures
            r.pi_binary == (if system_pi_exists {
                path_from("/usr/local/bin/pi"@)
            } else {
                path_joined(path_from(home_or_tmp(home)), ".bun/bin/pi"@)
            }),
            r.default_cwd == path_joined(path_from(home_or_tmp(home)), "projects"@),
            r.idle_timeout_secs == 300,
            r.cleanup_interval_secs == 60,
            r.hstry_db_path == Some(
                path_joined(
                    path_joined(
                        match xdg_data_home {
                            Some(d) => path_from(d@),
                            None => path_joined(
                                path_joined(path_from(home_or_tmp(home)), ".local"@),
                                "share"@,
                            ),
                        },
                        "hstry"@,
                    ),
                    "hstry.db"@,
                ),
            ),
            r.runner_id@ == "local"@,
            r.model_cache_dir == Some(
                path_joined(
                    path_joined(
                        match xdg_state_home {
                            Some(d) => path_from(d@),
                            None => path_joined(
                                path_joined(path_from(home_or_tmp(home)), ".local"@),
                                "state"@,
                            ),
                        },
                        "oqto"@,
                    ),
                    "model-cache"@,
                ),
            ),
    {
        let h = home_path(home);
        let data_dir = match xdg_data_home {
            Some(d) => path_from_str(d),
            None => path_join(&path_join(&h, ".local"), "share"),
        };
        let state_dir = match xdg_state_home {
            Some(d) => path_from_str(d),
            None => path_join(&path_join(&h, ".local"), "state"),
        };
        let pi_binary = if system_pi_exists {
            path_from_str("/usr/local/bin/pi")
        } else {
            path_join(&h, ".bun/bin/pi")
        };
        PiManagerConfig {
            pi_binary,
            default_cwd: path_join(&h, "projects"),
            idle_timeout_secs: 300,
            cleanup_interval_secs: 60,
            hstry_db_path: Some(path_join(&path_join(&data_dir, "hstry"), "hstry.db")),
            runner_id: to_owned_string("local"),
            model_cache_dir: Some(path_join(&path_join(&state_dir, "oqto"), "model-cache")),
        }
    }
}

impl PiSessionConfig {
    /// The default session configuration: `~/projects` (with `HOME` where
    /// set, `/tmp` otherwise), no provider, model or session file, and no
    /// extra environment.
    pub fn for_home(home: Option<&str>) -> (r: Self)
        ensures
            r.cwd == path_joined(path_from(home_or_tmp(home)), "projects"@),
            r.provider is None,
            r.model is None,
            r.session_file is None,
            r.continue_session is None,
            r.env@ == Map::<String, String>::empty(),
    {
        let h = home_path(home);
        PiSessionConfig {
            cwd: path_join(&h, "projects"),
            provider: None,
            model: None,
            session_file: None,
            continue_session: None,
            env: HashMap::new(),
        }
    }
}

// ---------------------------------------------------------------------------
// Launching a session
// ---------------------------------------------------------------------------

/// The arguments of Pi in RPC mode: `--mode rpc`, then the provider, the
/// model and the session file where given.
pub open spec fn pi_args_spec(provider: Option<Seq<char>>, model: Option<Seq<char>>, session_file: Option<Seq<char>>) -> Seq<Seq<char>> {
    seq!["--mode"@, "rpc"@] + (match provider {
        Some(p) => seq!["--provider"@, p],
        None => Seq::empty(),
    }) + (match model {
        Some(m) => seq!["--model"@, m],
        None => Seq::empty(),
    }) + (match session_file {
        Some(f) => seq!["--session"@, f],
        None => Seq::empty(),
    })
}

/// Pi is started in RPC mode and gets every configured setting: each of
/// the provider, the model and the session file that is given appears as
/// its flag immediately followed by its value, and nothing else is added.
pub proof fn law_pi_args_carry_config(
    provider: Option<Seq<char>>,
    model: Option<Seq<char>>,
    session_file: Option<Seq<char>>,
)
    ensures
        ({
            let a = pi_args_spec(provider, model, session_file);
            &&& a.len() >= 2 && a[0] == "--mode"@ && a[1] == "rpc"@
            &&& a.len() == 2 + (if provider is Some { 2int } else { 0 }) + (if model is Some { 2int } else { 0 }) + (
            if session_file is Some {
                2int
            } else {
                0
            })
            &&& provider matches Some(p) ==> exists|i: int| #![trigger a[i]] 0 <= i && i + 1 < a.len() && a[i] == "--provider"@ && a[i + 1] == p
            &&& model matches Some(m) ==> exists|i: int| #![trigger a[i]] 0 <= i && i + 1 < a.len() && a[i] == "--model"@ && a[i + 1] == m
            &&& session_file matches Some(f) ==> exists|i: int|
                #![trigger a[i]]
                0 <= i && i + 1 < a.len() && a[i] == "--session"@ && a[i + 1] == f
        }),
{
    let a = pi_args_spec(provider, model, session_file);
    let np: int = if provider is Some { 2 } else { 0 };
    let nm: int = if model is Some { 2 } else { 0 };
    if let Some(p) = provider {
        assert(a[2] == "--provider"@ && a[3] == p);
    }
    if let Some(m) = model {
        assert(a[2 + np] == "--model"@ && a[3 + np] == m);
    }
    if let Some(f) = session_file {
        assert(a[2 + np + nm] == "--session"@ && a[3 + np + nm] == f);
    }
}

/// The view of an optional string.
pub open spec fn opt_string_view(o: Option<String>) -> Option<Seq<char>> {
    match o {
        Some(s) => Some(s@),
        None => None,
    }
}

/// The view of a sequence of strings.
pub open spec fn strings_view(v: Seq<String>) -> Seq<Seq<char>> {
    v.map_values(|s: String| s@)
}

fn push_flag(args: &mut Vec<String>, flag: &str, value: &Option<String>)
    ensures
        strings_view(final(args)@) == strings_view(old(args)@) + match value {
            Some(v) => seq![flag@, v@],
            None => Seq::<Seq<char>>::empty(),
        },
{
    let ghost before = strings_view(args@);
    if let Some(v) = value {
        args.push(to_owned_string(flag));
        args.push(to_owned_string(v.as_str()));
        assert(strings_view(args@) =~= before + seq![flag@, v@]);
    } else {
        assert(strings_view(args@) =~= before);
    }
}

/// The arguments Pi is started with.
pub fn pi_args(provider: &Option<String>, model: &Option<String>, session_file: &Option<String>) -> (r:
    Vec<String>)
    ensures
        strings_view(r@) == pi_args_spec(
            opt_string_view(*provider),
            opt_string_view(*model),
            opt_string_view(*session_file),
        ),
{
    let mut r: Vec<String> = Vec::new();
    r.push(to_owned_string("--mode"));
    r.push(to_owned_string("rpc"));
    assert(strings_view(r@) =~= seq!["--mode"@, "rpc"@]);
    push_flag(&mut r, "--provider", provider);
    push_flag(&mut r, "--model", model);
    push_flag(&mut r, "--session", session_file);
    r
}

/// The session file Pi opens: the configured one, else the one to continue
/// from, which is the configured one or else the one found on disk for the
/// session.
pub fn chosen_session_file(
    session_file: Option<String>,
    continue_session: Option<String>,
    discovered: Option<String>,
) -> (r: Option<String>)
    ensures
        opt_string_view(r) == match session_file {
            Some(f) => Some(f@),
            None => match continue_session {
                Some(c) => Some(c@),
                None => opt_string_view(discovered),
            },
        },
{
    match session_file {
        Some(f) => Some(f),
        None => match continue_session {
            Some(c) => Some(c),
            None => discovered,
        },
    }
}

/// Whether `keys` holds `key`.
pub open spec fn has_key(keys: Seq<String>, key: Seq<char>) -> bool {
    exists|i: int| 0 <= i < keys.len() && (#[trigger] keys[i])@ == key
}

fn key_present(keys: &Vec<String>, key: &str) -> (r: bool)
    ensures
        r == has_key(keys@, key@),
{
    let mut i: usize = 0;
    while i < keys.len()
        invariant
            0 <= i <= keys@.len(),
            forall|j: int| 0 <= j < i ==> (#[trigger] keys@[j])@ != key@,
        decreases keys.len() - i,
    {
        if str_eq(keys[i].as_str(), key) {
            return true;
        }
        i += 1;
    }
    false
}

/// The variables set for Pi besides the configured environment: the
/// agent-browser socket directory and session and the Oqto session ID,
/// each unless the configuration sets it.
pub open spec fn env_additions_spec(
    keys: Seq<String>,
    socket_dir: Seq<char>,
    browser_session: Seq<char>,
    session_id: Seq<char>,
) -> Seq<(Seq<char>, Seq<char>)> {
    (if has_key(keys, "AGENT_BROWSER_SOCKET_DIR"@) {
        Seq::empty()
    } else {
        seq![("AGENT_BROWSER_SOCKET_DIR"@, socket_dir)]
    }) + (if has_key(keys, "AGENT_BROWSER_SESSION"@) {
        Seq::empty()
    } else {
        seq![("AGENT_BROWSER_SESSION"@, browser_session)]
    }) + (if has_key(keys, "OQTO_SESSION_ID"@) {
        Seq::empty()
    } else {
        seq![("OQTO_SESSION_ID"@, session_id)]
    })
}

/// The view of name-value pairs.
pub open spec fn pairs_view(v: Seq<(String, String)>) -> Seq<(Seq<char>, Seq<char>)> {
    v.map_values(|p: (String, String)| (p.0@, p.1@))
}

fn push_pair_unless(out: &mut Vec<(String, String)>, keys: &Vec<String>, key: &str, value: &str)
    ensures
        pairs_view(final(out)@) == pairs_view(old(out)@) + if has_key(keys@, key@) {
            Seq::<(Seq<char>, Seq<char>)>::empty()
        } else {
            seq![(key@, value@)]
        },
{
    let ghost before = pairs_view(out@);
    if !key_present(keys, key) {
        out.push((to_owned_string(key), to_owned_string(value)));
        assert(pairs_view(out@) =~= before + seq![(key@, value@)]);
    } else {
        assert(pairs_view(out@) =~= before);
    }
}

/// The variables to set for Pi besides the configured environment, whose
/// names are `configured_keys`.
pub fn env_additions(
    configured_keys: &Vec<String>,
    socket_dir: &str,
    browser_session: &str,
    session_id: &str,
) -> (r: Vec<(String, String)>)
    ensures
        pairs_view(r@) == env_additions_spec(configured_keys@, socket_dir@, browser_session@, session_id@),
{
    let mut r: Vec<(String, String)> = Vec::new();
    assert(pairs_view(r@) =~= Seq::<(Seq<char>, Seq<char>)>::empty());
    push_pair_unless(&mut r, configured_keys, "AGENT_BROWSER_SOCKET_DIR", socket_dir);
    push_pair_unless(&mut r, configured_keys, "AGENT_BROWSER_SESSION", browser_session);
    push_pair_unless(&mut r, configured_keys, "OQTO_SESSION_ID", session_id);
    r
}

/// The sandbox as configured for the runner.
#[derive(Debug, Clone)]
pub enum SandboxSetting {
    /// No sandbox configuration.
    Absent,
    /// A sandbox configuration that is switched off.
    Disabled,
    /// An enabled sandbox, with the `bwrap` arguments for the workspace
    /// where bubblewrap is available.
    Enabled(Option<Vec<String>>),
}

/// How Pi is started: directly in the workspace, or inside bubblewrap.
#[derive(Debug, Clone)]
pub enum PiLaunch {
    /// Run the Pi binary with these arguments in the session's directory.
    Direct { args: Vec<String> },
    /// Run `bwrap` with these arguments (its own, then the Pi binary and
    /// Pi's arguments).
    Sandboxed { bwrap_args: Vec<String> },
}

/// Why a session cannot start.
#[derive(Debug, Clone, Copy, PartialEq, Eq, Structural)]
pub enum LaunchError {
    /// Sandbox requested but bwrap not available. Install bubblewrap (bwrap)
    /// or disable sandboxing.
    SandboxUnavailable,
}

/// Decide how Pi is started. An enabled sandbox without bubblewrap refuses
/// the session: Pi never runs unsandboxed when a sandbox was asked for.
pub fn plan_pi_launch(sandbox: SandboxSetting, pi_binary: &str, pi_args: Vec<String>) -> (r: Result<
    PiLaunch,
    LaunchError,
>)
    ensures
        match sandbox {
            SandboxSetting::Enabled(None) => r == Err::<PiLaunch, LaunchError>(
                LaunchError::SandboxUnavailable,
            ),
            SandboxSetting::Enabled(Some(b)) => r matches Ok(PiLaunch::Sandboxed { bwrap_args })
                && strings_view(bwrap_args@) == strings_view(b@) + seq![pi_binary@] + strings_view(
                pi_args@,
            ),
            _ => r matches Ok(PiLaunch::Direct { args }) && strings_view(args@) == strings_view(
                pi_args@,
            ),
        },
{
    match sandbox {
        SandboxSetting::Enabled(None) => Err(LaunchError::SandboxUnavailable),
        SandboxSetting::Enabled(Some(b)) => {
            let mut bwrap_args = b;
            let ghost head = strings_view(bwrap_args@);
            bwrap_args.push(to_owned_string(pi_binary));
            let mut i: usize = 0;
            while i < pi_args.len()
                invariant
                    0 <= i <= pi_args@.len(),
                    strings_view(bwrap_args@) == head + seq![pi_binary@] + strings_view(
                        pi_args@.take(i as int),
                    ),
                decreases pi_args.len() - i,
            {
                let ghost before = strings_view(bwrap_args@);
                bwrap_args.push(to_owned_string(pi_args[i].as_str()));
                assert(strings_view(bwrap_args@) =~= before.push(pi_args@[i as int]@));
                assert(strings_view(pi_args@.take(i + 1)) =~= strings_view(pi_args@.take(i as int)).push(
                    pi_args@[i as int]@,
                ));
                i += 1;
            }
            assert(pi_args@.take(pi_args@.len() as int) =~= pi_args@);
            Ok(PiLaunch::Sandboxed { bwrap_args })
        },
        _ => Ok(PiLaunch::Direct { args: pi_args }),
    }
}

/// Commands sent to a Pi session's command loop.
#[derive(Debug)]
pub enum PiSessionCommand {
    /// Send a user prompt with optional client-generated ID for matching.
    Prompt { message: String, client_id: Option<String> },
    /// Send a steering message (interrupt mid-run).
    Steer { message: String, client_id: Option<String> },
    /// Send a follow-up message (queue for after completion).
    FollowUp { message: String, client_id: Option<String> },
    /// Abort current operation.
    Abort,
    /// Start a new session (optionally forking from parent).
    NewSession(Option<String>),
    /// Switch to a different session file.
    SwitchSession(String),
    /// Set session display name.
    SetSessionName(String),
    /// Export session to HTML.
    ExportHtml(Option<String>),
    /// Get current Pi state.
    GetState,
    /// Get all messages in the conversation.
    GetMessages,
    /// Get the last assistant message text.
    GetLastAssistantText,
    /// Get session statistics.
    GetSessionStats,
    /// Get available commands.
    GetCommands,
    /// Set the model.
    SetModel { provider: String, model_id: String },
    /// Cycle to the next model.
    CycleModel,
    /// Get available models.
    GetAvailableModels,
    /// Set thinking level.
    SetThinkingLevel(String),
    /// Cycle thinking level.
    CycleThinkingLevel,
    /// Set steering message delivery mode.
    SetSteeringMode(String),
    /// Set follow-up message delivery mode.
    SetFollowUpMode(String),
    /// Compact conversation history.
    Compact(Option<String>),
    /// Enable/disable auto-compaction.
    SetAutoCompaction(bool),
    /// Enable/disable auto-retry.
    SetAutoRetry(bool),
    /// Abort in-progress retry.
    AbortRetry,
    /// Request Pi's current messages for incremental hstry persistence.
    IncrementalPersist,
    /// Fork from a previous user message.
    Fork(String),
    /// Get messages available for forking.
    GetForkMessages,
    /// Execute a shell command.
    Bash(String),
    /// Abort running bash command.
    AbortBash,
    /// Respond to extension UI dialog.
    ExtensionUiResponse {
        id: String,
        value: Option<String>,
        confirmed: Option<bool>,
        cancelled: Option<bool>,
    },
    /// Close the session.
    Close,
}

// ---------------------------------------------------------------------------
// Accepting commands
// ---------------------------------------------------------------------------

/// Why a command was refused in the session's current state.
#[derive(Debug, Clone, Copy, PartialEq, Eq)]
pub enum CommandRejection {
    /// A prompt needs an idle (or starting) session.
    NotIdle,
    /// Steer and follow-up need an idle, starting or streaming session.
    NotReadyForSteer,
    /// Compaction needs an idle session.
    NotIdleForCompaction,
    /// New and switched session files need an idle session.
    NotIdleForSwitch,
}

/// A command refused by [`validate_command`].
#[derive(Debug, Clone, PartialEq, Eq)]
pub struct SessionCommandError {
    pub session_id: String,
    pub state: PiSessionState,
    pub reason: CommandRejection,
}

/// The reason a command is refused in a state, if it is.
pub open spec fn rejection(state: PiSessionState, cmd: PiSessionCommand) -> Option<CommandRejection> {
    match cmd {
        PiSessionCommand::Prompt { .. } => if state == PiSessionState::Idle || state
            == PiSessionState::Starting {
            None
        } else {
            Some(CommandRejection::NotIdle)
        },
        PiSessionCommand::FollowUp { .. } | PiSessionCommand::Steer { .. } => if state
            == PiSessionState::Idle || state == PiSessionState::Starting || state
            == PiSessionState::Streaming {
            None
        } else {
            Some(CommandRejection::NotReadyForSteer)
        },
        PiSessionCommand::Compact(_) => if state == PiSessionState::Idle {
            None
        } else {
            Some(CommandRejection::NotIdleForCompaction)
        },
        PiSessionCommand::NewSession(_) | PiSessionCommand::SwitchSession(_) => if state
            == PiSessionState::Idle {
            None
        } else {
            Some(CommandRejection::NotIdleForSwitch)
        },
        _ => None,
    }
}

/// Which commands a session takes in which state: a prompt when idle or
/// starting; a steer or follow-up also while streaming; a compaction, a new
/// session or a session switch only when idle; every other command in any
/// state. An idle session takes every command.
pub proof fn law_command_acceptance(state: PiSessionState, cmd: PiSessionCommand)
    ensures
        cmd is Prompt ==> (rejection(state, cmd) is None <==> (state == PiSessionState::Idle || state
            == PiSessionState::Starting)),
        (cmd is Steer || cmd is FollowUp) ==> (rejection(state, cmd) is None <==> (state == PiSessionState::Idle
            || state == PiSessionState::Starting || state == PiSessionState::Streaming)),
        cmd is Compact ==> (rejection(state, cmd) is None <==> state == PiSessionState::Idle),
        cmd is Compact && state != PiSessionState::Idle ==> rejection(state, cmd) == Some(
            CommandRejection::NotIdleForCompaction,
        ),
        (cmd is NewSession || cmd is SwitchSession) ==> (rejection(state, cmd) is None <==> state
            == PiSessionState::Idle),
        !(cmd is Prompt || cmd is Steer || cmd is FollowUp || cmd is Compact || cmd is NewSession
            || cmd is SwitchSession) ==> rejection(state, cmd) is None,
        rejection(PiSessionState::Idle, cmd) is None,
{
}

/// Check that a command may be sent to a session in its current state.
pub fn validate_command(session_id: &str, state: PiSessionState, cmd: &PiSessionCommand) -> (res:
    Result<(), SessionCommandError>)
    ensures
        match rejection(state, *cmd) {
            None => res is Ok,
            Some(reason) => res matches Err(e) && e.session_id@ == session_id@ && e.state == state
                && e.reason == reason,
        },
{
    let is_idle = state == PiSessionState::Idle;
    let is_starting = state == PiSessionState::Starting;
    let is_streaming = state == PiSessionState::Streaming;
    let reason = match cmd {
        PiSessionCommand::Prompt { .. } => if !(is_idle || is_starting) {
            Some(CommandRejection::NotIdle)
        } else {
            None
        },
        PiSessionCommand::FollowUp { .. } | PiSessionCommand::Steer { .. } => if !(is_idle
            || is_starting || is_streaming) {
            Some(CommandRejection::NotReadyForSteer)
        } else {
            None
        },
        PiSessionCommand::Compact(_) => if !is_idle {
            Some(CommandRejection::NotIdleForCompaction)
        } else {
            None
        },
        PiSessionCommand::NewSession(_) | PiSessionCommand::SwitchSession(_) => if !is_idle {
            Some(CommandRejection::NotIdleForSwitch)
        } else {
            None
        },
        _ => None,
    };
    match reason {
        None => Ok(()),
        Some(reason) => Err(SessionCommandError { session_id: to_owned_string(session_id), state, reason }),
    }
}

// ---------------------------------------------------------------------------
// Delivering commands
// ---------------------------------------------------------------------------

/// How the command processor hands a command to Pi.
#[derive(Debug, Clone, Copy, PartialEq, Eq)]
pub enum Delivery {
    /// Send a `prompt`, starting a new turn.
    Prompt,
    /// Send a `steer`, interrupting the running turn.
    Steer,
    /// Send a `follow_up`, queued until the running turn ends.
    FollowUp,
    /// Send the command's own Pi request.
    Forward,
    /// Stop the command loop.
    Stop,
}

/// Whether a session is between turns (or never got going), so that a
/// message must start a new turn.
pub open spec fn accepts_new_turn(state: PiSessionState) -> bool {
    state == PiSessionState::Idle || state == PiSessionState::Starting || state
        == PiSessionState::Stopping || state == PiSessionState::Aborting
}

/// The state after the command processor has sent a command, and how it
/// sent it.
pub open spec fn command_step(state: PiSessionState, cmd: PiSessionCommand) -> (
    PiSessionState,
    Delivery,
) {
    match cmd {
        PiSessionCommand::Prompt { .. } => (PiSessionState::Streaming, Delivery::Prompt),
        PiSessionCommand::Steer { .. } => if accepts_new_turn(state) {
            (PiSessionState::Streaming, Delivery::Prompt)
        } else {
            (state, Delivery::Steer)
        },
        PiSessionCommand::FollowUp { .. } => if accepts_new_turn(state) {
            (PiSessionState::Streaming, Delivery::Prompt)
        } else {
            (state, Delivery::FollowUp)
        },
        PiSessionCommand::Abort => if state == PiSessionState::Streaming || state
            == PiSessionState::Compacting {
            (PiSessionState::Aborting, Delivery::Forward)
        } else {
            (state, Delivery::Forward)
        },
        PiSessionCommand::Compact(_) => (PiSessionState::Compacting, Delivery::Forward),
        PiSessionCommand::Close => (state, Delivery::Stop),
        _ => (state, Delivery::Forward),
    }
}

/// How a command changes the client id waiting to be attached to the
/// turn's user message: prompts, steering and follow-up messages set it to
/// their own (possibly none); every other command leaves it (`None`).
pub open spec fn client_id_update(cmd: PiSessionCommand) -> Option<Option<Seq<char>>> {
    match cmd {
        PiSessionCommand::Prompt { client_id, .. } => Some(opt_string_view(client_id)),
        PiSessionCommand::Steer { client_id, .. } => Some(opt_string_view(client_id)),
        PiSessionCommand::FollowUp { client_id, .. } => Some(opt_string_view(client_id)),
        _ => None,
    }
}

/// The view of a pending-client-id update.
pub open spec fn update_view(u: Option<Option<String>>) -> Option<Option<Seq<char>>> {
    match u {
        Some(c) => Some(opt_string_view(c)),
        None => None,
    }
}

fn copy_client_id(c: &Option<String>) -> (r: Option<Option<String>>)
    ensures
        update_view(r) == Some(opt_string_view(*c)),
{
    match c {
        Some(id) => Some(Some(to_owned_string(id.as_str()))),
        None => Some(None),
    }
}

/// The command processor's step: the session state after sending `cmd`,
/// how it is sent, and what becomes of the pending client id (`Some(c)`:
/// it becomes `c`; `None`: it stays). Steering and follow-up messages to a
/// session that is not mid-turn are sent as prompts.
pub fn command_transition(state: PiSessionState, cmd: &PiSessionCommand) -> (res: (
    PiSessionState,
    Delivery,
    Option<Option<String>>,
))
    ensures
        (res.0, res.1) == command_step(state, *cmd),
        update_view(res.2) == client_id_update(*cmd),
{
    let new_turn = state == PiSessionState::Idle || state == PiSessionState::Starting || state
        == PiSessionState::Stopping || state == PiSessionState::Aborting;
    match cmd {
        PiSessionCommand::Prompt { client_id, .. } => (
            PiSessionState::Streaming,
            Delivery::Prompt,
            copy_client_id(client_id),
        ),
        PiSessionCommand::Steer { client_id, .. } => if new_turn {
            (PiSessionState::Streaming, Delivery::Prompt, copy_client_id(client_id))
        } else {
            (state, Delivery::Steer, copy_client_id(client_id))
        },
        PiSessionCommand::FollowUp { client_id, .. } => if new_turn {
            (PiSessionState::Streaming, Delivery::Prompt, copy_client_id(client_id))
        } else {
            (state, Delivery::FollowUp, copy_client_id(client_id))
        },
        PiSessionCommand::Abort => if state == PiSessionState::Streaming || state
            == PiSessionState::Compacting {
            (PiSessionState::Aborting, Delivery::Forward, None)
        } else {
            (state, Delivery::Forward, None)
        },
        PiSessionCommand::Compact(_) => (PiSessionState::Compacting, Delivery::Forward, None),
        PiSessionCommand::Close => (state, Delivery::Stop, None),
        _ => (state, Delivery::Forward, None),
    }
}

/// The request ID the command processor puts on a command whose response
/// a caller waits for.
pub open spec fn response_id_spec(cmd: PiSessionCommand) -> Option<Seq<char>> {
    match cmd {
        PiSessionCommand::GetState => Some("get_state"@),
        PiSessionCommand::NewSession(_) => Some("new_session"@),
        PiSessionCommand::GetMessages => Some("get_messages"@),
        PiSessionCommand::IncrementalPersist => Some("_incremental_persist"@),
        PiSessionCommand::SetModel { .. } => Some("set_model"@),
        PiSessionCommand::GetAvailableModels => Some("get_available_models"@),
        PiSessionCommand::GetSessionStats => Some("get_session_stats"@),
        PiSessionCommand::SwitchSession(_) => Some("switch_session"@),
        PiSessionCommand::SetSessionName(_) => Some("set_session_name"@),
        PiSessionCommand::ExportHtml(_) => Some("export_html"@),
        PiSessionCommand::GetLastAssistantText => Some("get_last_assistant_text"@),
        PiSessionCommand::GetCommands => Some("get_commands"@),
        PiSessionCommand::CycleModel => Some("cycle_model"@),
        PiSessionCommand::SetThinkingLevel(_) => Some("set_thinking_level"@),
        PiSessionCommand::CycleThinkingLevel => Some("cycle_thinking_level"@),
        PiSessionCommand::SetSteeringMode(_) => Some("set_steering_mode"@),
        PiSessionCommand::SetFollowUpMode(_) => Some("set_follow_up_mode"@),
        PiSessionCommand::SetAutoCompaction(_) => Some("set_auto_compaction"@),
        PiSessionCommand::SetAutoRetry(_) => Some("set_auto_retry"@),
        PiSessionCommand::AbortRetry => Some("abort_retry"@),
        PiSessionCommand::Fork(_) => Some("fork"@),
        PiSessionCommand::GetForkMessages => Some("get_fork_messages"@),
        PiSessionCommand::Bash(_) => Some("bash"@),
        PiSessionCommand::AbortBash => Some("abort_bash"@),
        _ => None,
    }
}

fn some_id(s: &str) -> (r: Option<String>)
    ensures
        r matches Some(v) && v@ == s@,
{
    Some(to_owned_string(s))
}

/// The request ID the command processor puts on a command, if any.
pub fn response_id(cmd: &PiSessionCommand) -> (res: Option<String>)
    ensures
        match res {
            Some(id) => response_id_spec(*cmd) == Some(id@),
            None => response_id_spec(*cmd) is None,
        },
{
    match cmd {
        PiSessionCommand::GetState => some_id("get_state"),
        PiSessionCommand::NewSession(_) => some_id("new_session"),
        PiSessionCommand::GetMessages => some_id("get_messages"),
        PiSessionCommand::IncrementalPersist => some_id("_incremental_persist"),
        PiSessionCommand::SetModel { .. } => some_id("set_model"),
        PiSessionCommand::GetAvailableModels => some_id("get_available_models"),
        PiSessionCommand::GetSessionStats => some_id("get_session_stats"),
        PiSessionCommand::SwitchSession(_) => some_id("switch_session"),
        PiSessionCommand::SetSessionName(_) => some_id("set_session_name"),
        PiSessionCommand::ExportHtml(_) => some_id("export_html"),
        PiSessionCommand::GetLastAssistantText => some_id("get_last_assistant_text"),
        PiSessionCommand::GetCommands => some_id("get_commands"),
        PiSessionCommand::CycleModel => some_id("cycle_model"),
        PiSessionCommand::SetThinkingLevel(_) => some_id("set_thinking_level"),
        PiSessionCommand::CycleThinkingLevel => some_id("cycle_thinking_level"),
        PiSessionCommand::SetSteeringMode(_) => some_id("set_steering_mode"),
        PiSessionCommand::SetFollowUpMode(_) => some_id("set_follow_up_mode"),
        PiSessionCommand::SetAutoCompaction(_) => some_id("set_auto_compaction"),
        PiSessionCommand::SetAutoRetry(_) => some_id("set_auto_retry"),
        PiSessionCommand::AbortRetry => some_id("abort_retry"),
        PiSessionCommand::Fork(_) => some_id("fork"),
        PiSessionCommand::GetForkMessages => some_id("get_fork_messages"),
        PiSessionCommand::Bash(_) => some_id("bash"),
        PiSessionCommand::AbortBash => some_id("abort_bash"),
        _ => None,
    }
}

// ---------------------------------------------------------------------------
// Reacting to Pi events
// ---------------------------------------------------------------------------

/// The Pi events that move the session state.
#[derive(Debug, Clone, Copy, PartialEq, Eq)]
pub enum PiEventKind {
    AgentStart,
    AgentEnd,
    AutoCompactionStart,
    AutoCompactionEnd,
    /// Any other event.
    Other,
}

/// The state after the reader task has seen an event. The first event of a
/// session also marks a still-starting session as ready.
pub open spec fn event_step(state: PiSessionState, event: PiEventKind, first_event: bool) -> PiSessionState {
    let after = match event {
        PiEventKind::AgentStart => PiSessionState::Streaming,
        PiEventKind::AgentEnd => PiSessionState::Idle,
        PiEventKind::AutoCompactionStart => PiSessionState::Compacting,
        PiEventKind::AutoCompactionEnd => PiSessionState::Idle,
        PiEventKind::Other => state,
    };
    if first_event && after == PiSessionState::Starting {
        PiSessionState::Idle
    } else {
        after
    }
}

/// Update the session state on a Pi event.
pub fn state_after_event(state: PiSessionState, event: PiEventKind, first_event: bool) -> (res:
    PiSessionState)
    ensures
        res == event_step(state, event, first_event),
{
    let after = match event {
        PiEventKind::AgentStart => PiSessionState::Streaming,
        PiEventKind::AgentEnd => PiSessionState::Idle,
        PiEventKind::AutoCompactionStart => PiSessionState::Compacting,
        PiEventKind::AutoCompactionEnd => PiSessionState::Idle,
        PiEventKind::Other => state,
    };
    if first_event && after == PiSessionState::Starting {
        PiSessionState::Idle
    } else {
        after
    }
}

/// The state once the Pi process has exited.
pub fn state_after_exit(_state: PiSessionState) -> (res: PiSessionState)
    ensures
        res == PiSessionState::Stopping,
{
    PiSessionState::Stopping
}

// ---------------------------------------------------------------------------
// Idle cleanup
// ---------------------------------------------------------------------------

/// Nanoseconds without stdout after which a busy session gets a health check.
pub const HEALTH_CHECK_AFTER_NS: u128 = 90_000_000_000;
/// Nanoseconds after which a session in a transient state is reset.
pub const HARD_TIMEOUT_TRANSIENT_NS: u128 = 120_000_000_000;
/// Nanoseconds after which a streaming or starting session is reset.
pub const HARD_TIMEOUT_STREAMING_NS: u128 = 600_000_000_000;

/// What the cleanup sweep does with one session.
#[derive(Debug, Clone, Copy, PartialEq, Eq)]
pub enum SweepAction {
    /// Leave the session alone.
    Keep,
    /// The Pi process is dead: force the session idle and report an
    /// unrecoverable error.
    ForceIdleDead,
    /// No response within the hard timeout: force the session idle and
    /// report a recoverable timeout error.
    ForceIdleTimeout,
    /// Ask Pi for its state to prove it is alive.
    HealthCheck,
    /// Close the idle session.
    Close,
}

/// The hard timeout for a busy session in a state.
pub open spec fn hard_timeout(state: PiSessionState) -> u128 {
    if state == PiSessionState::Streaming || state == PiSessionState::Starting {
        HARD_TIMEOUT_STREAMING_NS
    } else {
        HARD_TIMEOUT_TRANSIENT_NS
    }
}

/// The sweep's decision for a session: `elapsed_ns` since its last activity,
/// `process_alive` the result of probing its PID (`None` when no PID is
/// known).
pub open spec fn sweep_decision(
    state: PiSessionState,
    elapsed_ns: u128,
    subscriber_count: usize,
    idle_timeout_ns: u128,
    process_alive: Option<bool>,
) -> SweepAction {
    if state != PiSessionState::Idle {
        if process_alive == Some(false) {
            SweepAction::ForceIdleDead
        } else if elapsed_ns > HEALTH_CHECK_AFTER_NS {
            if elapsed_ns > hard_timeout(state) {
                SweepAction::ForceIdleTimeout
            } else {
                SweepAction::HealthCheck
            }
        } else {
            SweepAction::Keep
        }
    } else if subscriber_count == 0 && elapsed_ns > idle_timeout_ns {
        SweepAction::Close
    } else {
        SweepAction::Keep
    }
}

/// Decide what the idle-cleanup sweep does with a session.
pub fn sweep_action(
    state: PiSessionState,
    elapsed_ns: u128,
    subscriber_count: usize,
    idle_timeout_ns: u128,
    process_alive: Option<bool>,
) -> (res: SweepAction)
    ensures
        res == sweep_decision(state, elapsed_ns, subscriber_count, idle_timeout_ns, process_alive),
{
    let is_idle = state == PiSessionState::Idle;
    if !is_idle {
        if process_alive == Some(false) {
            return SweepAction::ForceIdleDead;
        }
        if elapsed_ns > HEALTH_CHECK_AFTER_NS {
            let hard = if state == PiSessionState::Streaming || state == PiSessionState::Starting {
                HARD_TIMEOUT_STREAMING_NS
            } else {
                HARD_TIMEOUT_TRANSIENT_NS
            };
            if elapsed_ns > hard {
                return SweepAction::ForceIdleTimeout;
            }
            return SweepAction::HealthCheck;
        }
    }
    if is_idle && subscriber_count == 0 && elapsed_ns > idle_timeout_ns {
        SweepAction::Close
    } else {
        SweepAction::Keep
    }
}

/// The state after the sweep has acted on a session.
pub open spec fn sweep_state(state: PiSessionState, action: SweepAction) -> PiSessionState {
    match action {
        SweepAction::ForceIdleDead | SweepAction::ForceIdleTimeout => PiSessionState::Idle,
        _ => state,
    }
}

// ---------------------------------------------------------------------------
// Finding sessions
// ---------------------------------------------------------------------------

pub open spec fn first_alias(aliases: Seq<(String, String)>, key: Seq<char>) -> Option<Seq<char>>
    decreases aliases.len(),
{
    if aliases.len() == 0 {
        None
    } else if aliases[0].0@ == key {
        Some(aliases[0].1@)
    } else {
        first_alias(aliases.drop_first(), key)
    }
}

/// The key a session is held under: its own id when such a session runs,
/// else the session an alias (Pi's own session id) points to.
pub open spec fn session_key(session_id: Seq<char>, running: Seq<Seq<char>>, aliases: Seq<(String, String)>) -> Option<
    Seq<char>,
> {
    if running.contains(session_id) {
        Some(session_id)
    } else {
        first_alias(aliases, session_id)
    }
}

/// Looks a session up by its id or by an alias.
pub fn resolve_session_key(session_id: &str, running: &Vec<String>, aliases: &Vec<(String, String)>) -> (res: Option<
    String,
>)
    ensures
        match res {
            Some(k) => session_key(session_id@, running@.map_values(|s: String| s@), aliases@) == Some(k@),
            None => session_key(session_id@, running@.map_values(|s: String| s@), aliases@) is None,
        },
{
    let ghost rv = running@.map_values(|s: String| s@);
    let mut i: usize = 0;
    while i < running.len()
        invariant
            0 <= i <= running@.len(),
            rv == running@.map_values(|s: String| s@),
            forall|j: int| 0 <= j < i ==> rv[j] != session_id@,
        decreases running.len() - i,
    {
        if str_eq(running[i].as_str(), session_id) {
            assert(rv[i as int] == session_id@);
            return Some(to_owned_string(session_id));
        }
        i = i + 1;
    }
    assert(!rv.contains(session_id@));
    assert(aliases@.skip(0) == aliases@);
    let mut k: usize = 0;
    while k < aliases.len()
        invariant
            0 <= k <= aliases@.len(),
            rv == running@.map_values(|s: String| s@),
            !rv.contains(session_id@),
            first_alias(aliases@, session_id@) == first_alias(aliases@.skip(k as int), session_id@),
        decreases aliases.len() - k,
    {
        assert(aliases@.skip(k as int).drop_first() == aliases@.skip(k + 1));
        assert(aliases@.skip(k as int)[0] == aliases@[k as int]);
        if str_eq(aliases[k].0.as_str(), session_id) {
            return Some(to_owned_string(aliases[k].1.as_str()));
        }
        k = k + 1;
    }
    None
}

/// The history id listed for a session: its history key when that is set
/// and differs from the session's own id.
pub fn listed_history_id(session_id: &str, external_id: &str) -> (res: Option<String>)
    ensures
        match res {
            Some(h) => external_id@.len() > 0 && external_id@ != session_id@ && h@ == external_id@,
            None => external_id@.len() == 0 || external_id@ == session_id@,
        },
{
    if external_id.is_empty() || str_eq(external_id, session_id) {
        None
    } else {
        Some(to_owned_string(external_id))
    }
}

/// The wall-clock time of a session's last activity, in milliseconds since
/// the epoch: now less the time since.
pub fn last_activity_ms(now_ms: i64, elapsed_ms: i64) -> (res: i64)
    requires
        i64::MIN <= now_ms - elapsed_ms <= i64::MAX,
    ensures
        res == now_ms - elapsed_ms,
{
    now_ms - elapsed_ms
}

// ---------------------------------------------------------------------------
// Laws of the session state machine
// ---------------------------------------------------------------------------

/// A prompt that passes validation always starts a turn: it is sent as a
/// prompt and leaves the session streaming.
pub proof fn law_accepted_prompt_streams(state: PiSessionState, message: String, client_id: Option<String>)
    requires
        rejection(state, PiSessionCommand::Prompt { message, client_id }) is None,
    ensures
        command_step(state, PiSessionCommand::Prompt { message, client_id }) == (
            PiSessionState::Streaming,
            Delivery::Prompt,
        ),
{
}

/// A steering message reaches Pi as a steer only while a turn is running
/// (streaming or compacting); otherwise it starts a new turn.
pub proof fn law_steer_only_mid_turn(state: PiSessionState, message: String, client_id: Option<String>)
    ensures
        command_step(state, PiSessionCommand::Steer { message, client_id }).1 == Delivery::Steer
            <==> (state == PiSessionState::Streaming || state == PiSessionState::Compacting),
        command_step(state, PiSessionCommand::FollowUp { message, client_id }).1
            == Delivery::FollowUp <==> (state == PiSessionState::Streaming || state
            == PiSessionState::Compacting),
{
}

/// Every accepted message (prompt, steer or follow-up) leaves the session
/// streaming or still running its turn: a message is never lost into an
/// idle session.
pub proof fn law_messages_leave_session_busy(state: PiSessionState, cmd: PiSessionCommand)
    requires
        cmd is Prompt || cmd is Steer || cmd is FollowUp,
        rejection(state, cmd) is None,
    ensures
        command_step(state, cmd).0 == PiSessionState::Streaming,
{
}

/// Aborting moves a running turn to `Aborting` and leaves any other state
/// unchanged.
pub proof fn law_abort(state: PiSessionState)
    ensures
        command_step(state, PiSessionCommand::Abort).0 == if state == PiSessionState::Streaming
            || state == PiSessionState::Compacting {
            PiSessionState::Aborting
        } else {
            state
        },
{
}

/// A compaction puts the session into `Compacting` and is forwarded to Pi;
/// closing stops the process without changing the state; queries and
/// settings are forwarded and leave the state as it is.
pub proof fn law_compact_and_close(state: PiSessionState, c: Option<String>)
    ensures
        command_step(state, PiSessionCommand::Compact(c)) == (PiSessionState::Compacting, Delivery::Forward),
        command_step(state, PiSessionCommand::Close) == (state, Delivery::Stop),
        command_step(state, PiSessionCommand::GetState) == (state, Delivery::Forward),
        command_step(state, PiSessionCommand::GetMessages) == (state, Delivery::Forward),
{
}

/// The cleanup sweep only closes idle sessions that nobody watches and that
/// have been inactive longer than the idle timeout.
pub proof fn law_sweep_closes_only_unwatched_idle(
    state: PiSessionState,
    elapsed_ns: u128,
    subscriber_count: usize,
    idle_timeout_ns: u128,
    process_alive: Option<bool>,
)
    ensures
        sweep_decision(state, elapsed_ns, subscriber_count, idle_timeout_ns, process_alive)
            == SweepAction::Close ==> state == PiSessionState::Idle && subscriber_count == 0
            && elapsed_ns > idle_timeout_ns,
{
}

/// No busy session stays stuck: past its hard timeout, or with a dead
/// process, the sweep resets it to idle.
pub proof fn law_sweep_unsticks_busy_sessions(
    state: PiSessionState,
    elapsed_ns: u128,
    subscriber_count: usize,
    idle_timeout_ns: u128,
    process_alive: Option<bool>,
)
    requires
        state != PiSessionState::Idle,
        elapsed_ns > hard_timeout(state) || process_alive == Some(false),
    ensures
        sweep_state(
            state,
            sweep_decision(state, elapsed_ns, subscriber_count, idle_timeout_ns, process_alive),
        ) == PiSessionState::Idle,
{
}

/// The sweep never touches an idle session that is watched or recently
/// active, and never resets a busy session that is alive and within its
/// health-check window.
pub proof fn law_sweep_keeps_active_sessions(
    state: PiSessionState,
    elapsed_ns: u128,
    subscriber_count: usize,
    idle_timeout_ns: u128,
    process_alive: Option<bool>,
)
    requires
        process_alive != Some(false),
        elapsed_ns <= HEALTH_CHECK_AFTER_NS,
        state != PiSessionState::Idle || subscriber_count > 0 || elapsed_ns <= idle_timeout_ns,
    ensures
        sweep_decision(state, elapsed_ns, subscriber_count, idle_timeout_ns, process_alive)
            == SweepAction::Keep,
{
}

/// The events of a completed turn bring a session back to idle: after
/// `AgentStart` it streams, after `AgentEnd` it is idle, whatever it was.
pub proof fn law_turn_events(state: PiSessionState, first_event: bool)
    ensures
        event_step(state, PiEventKind::AgentStart, first_event) == PiSessionState::Streaming,
        event_step(
            event_step(state, PiEventKind::AgentStart, first_event),
            PiEventKind::AgentEnd,
            false,
        ) == PiSessionState::Idle,
        event_step(state, PiEventKind::AutoCompactionEnd, first_event) == PiSessionState::Idle,
{
}

/// Once a session has produced its first event it is never left starting.
pub proof fn law_first_event_leaves_starting(state: PiSessionState, event: PiEventKind)
    ensures
        event_step(state, event, true) != PiSessionState::Starting,
{
}


// ---------------------------------------------------------------------------
// Creating a session once
// ---------------------------------------------------------------------------

/// The session IDs whose creation is under way, so that two callers asking
/// for the same absent session do not both spawn a Pi process.
pub struct CreationGuard {
    creating: Vec<String>,
}

/// What `get_or_create_session` does for a session ID.
#[derive(Debug, Clone, PartialEq, Eq)]
pub enum CreateDecision {
    /// The session exists under this key: use it.
    Existing(String),
    /// Another caller is creating it: answer with the ID, spawn nothing.
    InProgress(String),
    /// Spawn it; the ID is now marked as being created.
    Spawn,
}

/// The decision for `id` given the IDs being created and the key the
/// session already has, if any.
pub open spec fn create_decision(creating: Set<Seq<char>>, id: Seq<char>, existing: Option<Seq<char>>) -> (
    bool,
    bool,
    Seq<char>,
) {
    match existing {
        Some(k) => (false, false, k),
        None => if creating.contains(id) {
            (true, false, id)
        } else {
            (true, true, id)
        },
    }
}

/// `(found, spawn, id)` of a decision: `(false, false, key)` for an existing
/// session, `(true, false, id)` for one in progress, `(true, true, _)` for a
/// spawn.
pub open spec fn decision_view(d: CreateDecision, id: Seq<char>) -> (bool, bool, Seq<char>) {
    match d {
        CreateDecision::Existing(k) => (false, false, k@),
        CreateDecision::InProgress(i) => (true, false, i@),
        CreateDecision::Spawn => (true, true, id),
    }
}

impl CreationGuard {
    /// The IDs being created.
    pub closed spec fn view(&self) -> Set<Seq<char>> {
        Set::new(|s: Seq<char>| exists|i: int| 0 <= i < self.creating@.len() && #[trigger] self.creating@[i]@ == s)
    }

    /// No creation under way.
    pub fn new() -> (g: Self)
        ensures
            g@ == Set::<Seq<char>>::empty(),
    {
        let g = CreationGuard { creating: Vec::new() };
        assert(g@ =~= Set::<Seq<char>>::empty());
        g
    }

    /// Whether the creation of `id` is under way.
    pub fn contains(&self, id: &str) -> (r: bool)
        ensures
            r == self@.contains(id@),
    {
        let mut i: usize = 0;
        while i < self.creating.len()
            invariant
                i <= self.creating@.len(),
                forall|j: int| 0 <= j < i ==> #[trigger] self.creating@[j]@ != id@,
            decreases self.creating.len() - i,
        {
            if str_eq(self.creating[i].as_str(), id) {
                return true;
            }
            i += 1;
        }
        false
    }

    /// Decide what to do for `id`, where `existing` is the key the session
    /// already has (an alias resolved), checked under the guard. A spawn
    /// marks the ID as being created; nothing else changes the guard.
    pub fn begin(&mut self, id: &str, existing: Option<String>) -> (d: CreateDecision)
        ensures
            decision_view(d, id@) == create_decision(old(self)@, id@, opt_string_view(existing)),
            d is Spawn ==> final(self)@ == old(self)@.insert(id@),
            !(d is Spawn) ==> final(self)@ == old(self)@,
    {
        match existing {
            Some(k) => CreateDecision::Existing(k),
            None => {
                if self.contains(id) {
                    CreateDecision::InProgress(to_owned_string(id))
                } else {
                    let ghost before = self.creating@;
                    self.creating.push(to_owned_string(id));
                    proof {
                        assert forall|s: Seq<char>| #[trigger] self@.contains(s) == old(self)@.insert(id@).contains(s) by {
                            if old(self)@.contains(s) {
                                let i = choose|i: int| 0 <= i < before.len() && #[trigger] before[i]@ == s;
                                assert(self.creating@[i] == before[i]);
                            }
                            if s == id@ {
                                assert(self.creating@[before.len() as int]@ == s);
                            }
                            if self@.contains(s) {
                                let i = choose|i: int| 0 <= i < self.creating@.len() && #[trigger] self.creating@[i]@ == s;
                                if i < before.len() {
                                    assert(before[i]@ == s);
                                }
                            }
                        }
                        assert(self@ =~= old(self)@.insert(id@));
                    }
                    CreateDecision::Spawn
                }
            },
        }
    }

    /// The creation of `id` has ended, whether or not it succeeded.
    pub fn finish(&mut self, id: &str)
        ensures
            final(self)@ == old(self)@.remove(id@),
    {
        let ghost before = self.creating@;
        let mut kept: Vec<String> = Vec::new();
        let mut i: usize = 0;
        while i < self.creating.len()
            invariant
                self.creating@ == before,
                i <= before.len(),
                forall|k: int|
                    0 <= k < kept@.len() ==> (#[trigger] kept@[k])@ != id@ && exists|j: int|
                        0 <= j < i && #[trigger] before[j]@ == kept@[k]@,
                forall|j: int|
                    0 <= j < i && (#[trigger] before[j])@ != id@ ==> exists|k: int|
                        0 <= k < kept@.len() && #[trigger] kept@[k]@ == before[j]@,
            decreases before.len() - i,
        {
            if !str_eq(self.creating[i].as_str(), id) {
                let ghost old_kept = kept@;
                kept.push(to_owned_string(self.creating[i].as_str()));
                proof {
                    assert(kept@[old_kept.len() as int]@ == before[i as int]@);
                    assert forall|k: int| 0 <= k < kept@.len() implies (#[trigger] kept@[k])@ != id@ && exists|j: int|
                        0 <= j < i + 1 && #[trigger] before[j]@ == kept@[k]@ by {
                        if k < old_kept.len() {
                            assert(kept@[k] == old_kept[k]);
                        } else {
                            assert(before[i as int]@ == kept@[k]@);
                        }
                    }
                    assert forall|j: int| 0 <= j < i + 1 && (#[trigger] before[j])@ != id@ implies exists|k: int|
                        0 <= k < kept@.len() && #[trigger] kept@[k]@ == before[j]@ by {
                        if j < i {
                            let k = choose|k: int| 0 <= k < old_kept.len() && #[trigger] old_kept[k]@ == before[j]@;
                            assert(kept@[k] == old_kept[k]);
                        } else {
                            assert(kept@[old_kept.len() as int]@ == before[j]@);
                        }
                    }
                }
            }
            i += 1;
        }
        self.creating = kept;
        proof {
            assert forall|s: Seq<char>| #[trigger] self@.contains(s) == old(self)@.remove(id@).contains(s) by {
                if self@.contains(s) {
                    let k = choose|k: int| 0 <= k < self.creating@.len() && #[trigger] self.creating@[k]@ == s;
                    assert(self.creating@[k]@ != id@);
                    let j = choose|j: int| 0 <= j < before.len() && #[trigger] before[j]@ == self.creating@[k]@;
                    assert(old(self).creating@[j]@ == s);
                }
                if old(self)@.remove(id@).contains(s) {
                    let j = choose|j: int| 0 <= j < before.len() && #[trigger] before[j]@ == s;
                    let k = choose|k: int| 0 <= k < self.creating@.len() && #[trigger] self.creating@[k]@ == before[j]@;
                    assert(self.creating@[k]@ == s);
                }
            }
            assert(self@ =~= old(self)@.remove(id@));
        }
    }
}

/// While one caller is creating a session, a second caller asking for the
/// same absent session spawns nothing; once the first has finished, the ID
/// is free again.
pub proof fn law_one_spawn_per_session(creating: Set<Seq<char>>, id: Seq<char>)
    requires
        create_decision(creating, id, None).1,
    ensures
        !create_decision(creating.insert(id), id, None).1,
        create_decision(creating.insert(id), id, None) == (true, false, id),
        create_decision(creating.insert(id).remove(id), id, None).1,
{
}

} // verus!
