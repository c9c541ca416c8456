//! Canonical command types.
//!
//! Commands flow from frontend through backend to the appropriate runner.
//! Every command gets exactly one response (delivered as an event). On the
//! wire a command is a JSON object whose `cmd` field names the payload.
use vstd::prelude::*;

verus! {

/// A canonical command with routing metadata.
#[derive(Debug, Clone)]
pub struct Command {
    /// Correlation ID for response matching.
    pub id: Option<String>,

    /// Target session.
    pub session_id: String,

    /// Target runner (backend resolves if omitted).
    pub runner_id: Option<String>,

    /// The command payload.
    pub payload: CommandPayload,
}

/// All possible command types, tagged by `cmd` field.
#[derive(Debug, Clone)]
pub enum CommandPayload {
    /// Create a new agent session.
    SessionCreate { config: SessionConfig },

    /// Close/destroy the session.
    SessionClose,

    /// Delete the session: close the agent process, remove from hstry,
    /// and delete the Pi JSONL session file.
    SessionDelete,

    /// Start a new session within existing agent process.
    SessionNew {
        parent_session: Option<String>,
    },

    /// Switch to a different session file.
    SessionSwitch { session_path: String },

    /// Send a user prompt.
    Prompt {
        message: String,
        images: Option<Vec<ImageAttachment>>,
        /// Client-generated ID for optimistic message matching.
        /// The frontend creates an optimistic user message with this ID,
        /// and expects it back in the persisted message so it can reconcile.
        client_id: Option<String>,
    },

    /// Steering message (interrupt mid-run).
    Steer {
        message: String,
        /// Client-generated ID for optimistic message matching.
        client_id: Option<String>,
    },

    /// Follow-up message (queued for after current run).
    FollowUp {
        message: String,
        /// Client-generated ID for optimistic message matching.
        client_id: Option<String>,
    },

    /// Abort current operation.
    Abort,

    /// Respond to an input_needed request.
    InputResponse {
        request_id: String,
        value: Option<String>,
        confirmed: Option<bool>,
        cancelled: Option<bool>,
    },

    /// Get current session state.
    GetState,

    /// Get all messages.
    GetMessages,

    /// Get session statistics.
    GetStats,

    /// Get available models.
    GetModels {
        workdir: Option<String>,
    },

    /// Get available commands (extensions, templates, skills).
    GetCommands,

    /// Get messages available for forking.
    GetForkPoints,

    /// List all active Pi sessions on the runner.
    /// Returns session IDs, states (idle/streaming/etc.), and working directories.
    /// Used by the frontend on reconnect to discover running sessions.
    ListSessions,

    /// Set model.
    SetModel { provider: String, model_id: String },

    /// Cycle to next model.
    CycleModel,

    /// Set thinking/reasoning level.
    SetThinkingLevel { level: String },

    /// Cycle through thinking levels.
    CycleThinkingLevel,

    /// Enable/disable auto-compaction.
    SetAutoCompaction { enabled: bool },

    /// Enable/disable auto-retry.
    SetAutoRetry { enabled: bool },

    /// Manually compact conversation.
    Compact {
        instructions: Option<String>,
    },

    /// Abort an in-progress retry.
    AbortRetry,

    /// Set session display name.
    SetSessionName { name: String },

    /// Fork from a previous message.
    Fork { entry_id: String },

}

/// Configuration for creating a new agent session.
#[derive(Debug, Clone)]
pub struct SessionConfig {
    /// Which agent harness to run ("pi", "opencode", etc.).
    pub harness: String,

    /// Working directory.
    pub cwd: Option<String>,

    /// LLM provider hint.
    pub provider: Option<String>,

    /// Model ID hint.
    pub model: Option<String>,

    /// Resume from existing session file.
    pub continue_session: Option<String>,
}

/// Image attachment for prompts.
#[derive(Debug, Clone)]
pub struct ImageAttachment {
    /// Base64-encoded image data.
    pub data: String,
    /// MIME type (e.g. "image/png").
    pub media_type: String,
}

} // verus!
