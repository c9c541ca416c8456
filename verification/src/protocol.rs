//! Runner RPC protocol types.
//!
//! Defines the request/response types for communication between oqto and
//! the runner daemon. On the wire the protocol is newline-delimited JSON over
//! Unix sockets; the encoding is done outside the library.
use vstd::prelude::*;
use std::collections::HashMap;
use std::path::PathBuf;
use crate::text::to_owned_string;

verus! {

#[verifier::external_type_specification]
#[verifier::external_body]
pub struct ExPathBuf(PathBuf);

/// `PathBuf::clone`; nothing is stated of the copy.
pub assume_specification[ <PathBuf as Clone>::clone ](p: &PathBuf) -> PathBuf;

/// What `PathBuf::from` gives for a string.
pub uninterp spec fn path_from(s: Seq<char>) -> PathBuf;

/// Wraps `PathBuf::from` on a string slice: the result is the named path.
#[verifier::external_body]
pub(crate) fn path_from_str(s: &str) -> (p: PathBuf)
    ensures
        p == path_from(s@),
{
    PathBuf::from(s)
}

/// What `Path::join` gives for a base path and a relative path.
pub uninterp spec fn path_joined(base: PathBuf, rel: Seq<char>) -> PathBuf;

/// Wraps `Path::join`: the result is the named joined path.
#[verifier::external_body]
pub(crate) fn path_join(base: &PathBuf, rel: &str) -> (p: PathBuf)
    ensures
        p == path_joined(*base, rel@),
{
    base.join(rel)
}

/// Request sent from oqto to the runner.
#[derive(Debug, Clone)]
pub enum RunnerRequest {
    /// Spawn a detached process (fire and forget, no stdin/stdout).
    SpawnProcess(SpawnProcessRequest),

    /// Spawn a process with stdin/stdout pipes for RPC communication.
    /// Used for Pi agent which communicates via JSON-RPC over stdio.
    SpawnRpcProcess(SpawnRpcProcessRequest),

    /// Kill a process by PID.
    KillProcess(KillProcessRequest),

    /// Get status of a process.
    GetStatus(GetStatusRequest),

    /// List all managed processes.
    ListProcesses,

    /// Send data to a process's stdin (for RPC processes).
    WriteStdin(WriteStdinRequest),

    /// Read available data from a process's stdout (for RPC processes).
    ReadStdout(ReadStdoutRequest),

    /// Subscribe to stdout stream (for RPC processes).
    /// Lines are pushed as they arrive via StdoutLine responses.
    /// The subscription ends when the process exits or client disconnects.
    SubscribeStdout(SubscribeStdoutRequest),

    /// Health check.
    Ping,

    /// Shutdown the runner gracefully.
    Shutdown,

    /// Read a file from the user's workspace.
    ReadFile(ReadFileRequest),

    /// Write a file to the user's workspace.
    WriteFile(WriteFileRequest),

    /// List contents of a directory.
    ListDirectory(ListDirectoryRequest),

    /// Get file/directory metadata (stat).
    Stat(StatRequest),

    /// Delete a file or directory.
    DeletePath(DeletePathRequest),

    /// Create a directory (with parents if needed).
    CreateDirectory(CreateDirectoryRequest),

    /// List all sessions for this user.
    ListSessions,

    /// Get a specific session by ID.
    GetSession(GetSessionRequest),

    /// Start services for a session.
    StartSession(StartSessionRequest),

    /// Stop a running session.
    StopSession(StopSessionRequest),

    /// List main chat session files.
    ListMainChatSessions,

    /// Get messages from a main chat session.
    GetMainChatMessages(GetMainChatMessagesRequest),
    /// Get messages from a workspace Pi session (hstry-backed).
    GetWorkspaceChatMessages(GetWorkspaceChatMessagesRequest),
    /// List workspace Pi chat sessions (hstry-backed).
    ListWorkspaceChatSessions(ListWorkspaceChatSessionsRequest),
    /// Get a workspace Pi chat session (hstry-backed).
    GetWorkspaceChatSession(GetWorkspaceChatSessionRequest),
    /// Get workspace Pi chat session messages (hstry-backed, parts preserved).
    GetWorkspaceChatSessionMessages(GetWorkspaceChatSessionMessagesRequest),

    /// Update a workspace Pi chat session (e.g., rename title).
    UpdateWorkspaceChatSession(UpdateWorkspaceChatSessionRequest),

    /// Search memories.
    SearchMemories(SearchMemoriesRequest),

    /// Add a new memory.
    AddMemory(AddMemoryRequest),

    /// Delete a memory by ID.
    DeleteMemory(DeleteMemoryRequest),

    /// Create or resume a Pi session.
    PiCreateSession(PiCreateSessionRequest),

    /// Close a Pi session (stop the process).
    PiCloseSession(PiCloseSessionRequest),

    /// Delete a Pi session: close the process, remove from hstry, and delete the JSONL file.
    PiDeleteSession(PiDeleteSessionRequest),

    /// Start a new session within existing Pi process.
    PiNewSession(PiNewSessionRequest),

    /// Switch to a different session file.
    PiSwitchSession(PiSwitchSessionRequest),

    /// List all active Pi sessions.
    PiListSessions,

    /// Subscribe to events from a Pi session.
    PiSubscribe(PiSubscribeRequest),

    /// Unsubscribe from a Pi session's events.
    PiUnsubscribe(PiUnsubscribeRequest),

    /// Send a user prompt to a Pi session.
    PiPrompt(PiPromptRequest),

    /// Send a steering message to interrupt a Pi session mid-run.
    PiSteer(PiSteerRequest),

    /// Queue a follow-up message for after the Pi session finishes.
    PiFollowUp(PiFollowUpRequest),

    /// Abort the current Pi session operation.
    PiAbort(PiAbortRequest),

    /// Get the state of a Pi session.
    PiGetState(PiGetStateRequest),

    /// Get all messages from a Pi session.
    PiGetMessages(PiGetMessagesRequest),

    /// Get session statistics (tokens, cost, etc.).
    PiGetSessionStats(PiGetSessionStatsRequest),

    /// Get the last assistant message text.
    PiGetLastAssistantText(PiGetLastAssistantTextRequest),

    /// Set the model for a Pi session.
    PiSetModel(PiSetModelRequest),

    /// Cycle to the next available model.
    PiCycleModel(PiCycleModelRequest),

    /// Get list of available models.
    PiGetAvailableModels(PiGetAvailableModelsRequest),

    /// Set the thinking/reasoning level.
    PiSetThinkingLevel(PiSetThinkingLevelRequest),

    /// Cycle through thinking levels.
    PiCycleThinkingLevel(PiCycleThinkingLevelRequest),

    /// Compact the Pi session's conversation.
    PiCompact(PiCompactRequest),

    /// Enable/disable auto-compaction.
    PiSetAutoCompaction(PiSetAutoCompactionRequest),

    /// Set steering message delivery mode.
    PiSetSteeringMode(PiSetSteeringModeRequest),

    /// Set follow-up message delivery mode.
    PiSetFollowUpMode(PiSetFollowUpModeRequest),

    /// Enable/disable auto-retry on transient errors.
    PiSetAutoRetry(PiSetAutoRetryRequest),

    /// Abort an in-progress retry.
    PiAbortRetry(PiAbortRetryRequest),

    /// Fork from a previous message.
    PiFork(PiForkRequest),

    /// Get messages available for forking.
    PiGetForkMessages(PiGetForkMessagesRequest),

    /// Set a display name for the session.
    PiSetSessionName(PiSetSessionNameRequest),

    /// Export session to HTML.
    PiExportHtml(PiExportHtmlRequest),

    /// Get available commands (extensions, templates, skills).
    PiGetCommands(PiGetCommandsRequest),

    /// Execute a bash command and add output to conversation.
    PiBash(PiBashRequest),

    /// Abort a running bash command.
    PiAbortBash(PiAbortBashRequest),

    /// Send response to an extension UI request.
    PiExtensionUiResponse(PiExtensionUiResponseRequest),
}


/// Request to spawn a detached process.
#[derive(Debug, Clone)]
pub struct SpawnProcessRequest {
    /// Unique ID for this process (provided by caller for tracking).
    pub id: String,
    /// Path to the binary to execute.
    pub binary: String,
    /// Command line arguments.
    pub args: Vec<String>,
    /// Working directory (also used as sandbox workspace).
    pub cwd: PathBuf,
    /// Environment variables (merged with runner's environment).
    pub env: HashMap<String, String>,
    /// Whether to run this process in a sandbox.
    /// The runner controls sandbox configuration from its own trusted config.
    pub sandboxed: bool,
}

/// Request to spawn a process with RPC pipes.
#[derive(Debug, Clone)]
pub struct SpawnRpcProcessRequest {
    /// Unique ID for this process (provided by caller for tracking).
    pub id: String,
    /// Path to the binary to execute.
    pub binary: String,
    /// Command line arguments.
    pub args: Vec<String>,
    /// Working directory (also used as sandbox workspace).
    pub cwd: PathBuf,
    /// Environment variables (merged with runner's environment).
    pub env: HashMap<String, String>,
    /// Whether to run this process in a sandbox.
    /// The runner controls sandbox configuration from its own trusted config.
    pub sandboxed: bool,
}

/// Request to kill a process.
#[derive(Debug, Clone)]
pub struct KillProcessRequest {
    /// Process ID assigned by the runner.
    pub id: String,
    /// Force kill (SIGKILL) instead of graceful (SIGTERM).
    pub force: bool,
}

/// Request to get process status.
#[derive(Debug, Clone)]
pub struct GetStatusRequest {
    /// Process ID assigned by the runner.
    pub id: String,
}

/// Request to write to process stdin.
#[derive(Debug, Clone)]
pub struct WriteStdinRequest {
    /// Process ID.
    pub id: String,
    /// Data to write (will be UTF-8 encoded).
    pub data: String,
}

/// Request to read from process stdout.
#[derive(Debug, Clone)]
pub struct ReadStdoutRequest {
    /// Process ID.
    pub id: String,
    /// Timeout in milliseconds (0 = non-blocking).
    pub timeout_ms: u64,
}

/// Request to subscribe to stdout stream.
#[derive(Debug, Clone)]
pub struct SubscribeStdoutRequest {
    /// Process ID.
    pub id: String,
}

/// Request to read a file.
#[derive(Debug, Clone)]
pub struct ReadFileRequest {
    /// Path to the file (relative to workspace root or absolute within allowed roots).
    pub path: PathBuf,
    /// Optional byte offset to start reading from.
    pub offset: Option<u64>,
    /// Optional maximum bytes to read.
    pub limit: Option<u64>,
}

/// Request to write a file.
#[derive(Debug, Clone)]
pub struct WriteFileRequest {
    /// Path to the file.
    pub path: PathBuf,
    /// File content (base64 encoded for binary safety).
    pub content_base64: String,
    /// Whether to create parent directories if they don't exist.
    pub create_parents: bool,
}

/// Request to list a directory.
#[derive(Debug, Clone)]
pub struct ListDirectoryRequest {
    /// Path to the directory.
    pub path: PathBuf,
    /// Whether to include hidden files (starting with .).
    pub include_hidden: bool,
}

/// Request to get file/directory metadata.
#[derive(Debug, Clone)]
pub struct StatRequest {
    /// Path to stat.
    pub path: PathBuf,
}

/// Request to delete a path.
#[derive(Debug, Clone)]
pub struct DeletePathRequest {
    /// Path to delete.
    pub path: PathBuf,
    /// If true and path is a directory, delete recursively.
    pub recursive: bool,
}

/// Request to create a directory.
#[derive(Debug, Clone)]
pub struct CreateDirectoryRequest {
    /// Path to create.
    pub path: PathBuf,
    /// Create parent directories if they don't exist.
    pub create_parents: bool,
}

/// Request to get a specific session.
#[derive(Debug, Clone)]
pub struct GetSessionRequest {
    /// Session ID.
    pub session_id: String,
}

/// Request to start session services.
#[derive(Debug, Clone)]
pub struct StartSessionRequest {
    /// Session ID.
    pub session_id: String,
    /// Workspace path for the session.
    pub workspace_path: PathBuf,
    /// Reserved port for agent runtime.
    pub agent_port: u16,
    /// Port for fileserver.
    pub fileserver_port: u16,
    /// Port for ttyd terminal.
    pub ttyd_port: u16,
    /// Optional agent name.
    pub agent: Option<String>,
    /// Additional environment variables.
    pub env: HashMap<String, String>,
}

/// Request to stop a session.
#[derive(Debug, Clone)]
pub struct StopSessionRequest {
    /// Session ID.
    pub session_id: String,
}

/// Request to get messages from a main chat session.
#[derive(Debug, Clone)]
pub struct GetMainChatMessagesRequest {
    /// Session ID (Pi session file ID).
    pub session_id: String,
    /// Optional limit on number of messages.
    pub limit: Option<usize>,
}

/// Request to get messages from a workspace Pi session.
#[derive(Debug, Clone)]
pub struct GetWorkspaceChatMessagesRequest {
    /// Session ID (Pi session file ID).
    pub session_id: String,
    /// Workspace path to filter conversations.
    pub workspace_path: String,
    /// Optional limit on number of messages.
    pub limit: Option<usize>,
}

/// Request to list workspace Pi chat sessions (hstry-backed).
#[derive(Debug, Clone)]
pub struct ListWorkspaceChatSessionsRequest {
    /// Filter by workspace path.
    pub workspace: Option<String>,
    /// Include child sessions (default: false).
    pub include_children: bool,
    /// Maximum number of sessions to return.
    pub limit: Option<usize>,
}

/// Request to get a workspace Pi chat session (hstry-backed).
#[derive(Debug, Clone)]
pub struct GetWorkspaceChatSessionRequest {
    /// Session ID.
    pub session_id: String,
}

/// Request to get messages from a workspace Pi chat session (hstry-backed).
#[derive(Debug, Clone)]
pub struct GetWorkspaceChatSessionMessagesRequest {
    /// Session ID.
    pub session_id: String,
    /// Include pre-rendered HTML for text parts (if supported).
    pub render: bool,
    /// Optional limit on number of messages.
    pub limit: Option<usize>,
}

/// Request to update a workspace Pi chat session (e.g., rename title).
#[derive(Debug, Clone)]
pub struct UpdateWorkspaceChatSessionRequest {
    /// Session ID.
    pub session_id: String,
    /// New title (if updating).
    pub title: Option<String>,
}

/// Request to search memories.
#[derive(Debug, Clone)]
pub struct SearchMemoriesRequest {
    /// Search query.
    pub query: String,
    /// Maximum results to return.
    pub limit: usize,
    /// Optional category filter.
    pub category: Option<String>,
}

/// Request to add a memory.
#[derive(Debug, Clone)]
pub struct AddMemoryRequest {
    /// Memory content.
    pub content: String,
    /// Category (e.g., "api", "architecture", "debugging").
    pub category: Option<String>,
    /// Importance level (1-10).
    pub importance: Option<u8>,
}

/// Request to delete a memory.
#[derive(Debug, Clone)]
pub struct DeleteMemoryRequest {
    /// Memory ID.
    pub memory_id: String,
}

/// Request to create or resume a Pi session.
#[derive(Debug, Clone)]
pub struct PiCreateSessionRequest {
    /// Unique session ID (caller-provided or generated).
    pub session_id: String,
    /// Session configuration.
    pub config: PiSessionConfig,
}

/// Configuration for a Pi session.
#[derive(Debug, Clone)]
pub struct PiSessionConfig {
    /// Working directory for Pi.
    pub cwd: PathBuf,
    /// Provider (anthropic, openai, etc.).
    pub provider: Option<String>,
    /// Model ID.
    pub model: Option<String>,
    /// Explicit session file to use (new or resume).
    pub session_file: Option<PathBuf>,
    /// Session file to continue from.
    pub continue_session: Option<PathBuf>,
    /// Environment variables for the Pi process.
    pub env: HashMap<String, String>,
}

/// Request to send a prompt to a Pi session.
#[derive(Debug, Clone)]
pub struct PiPromptRequest {
    /// Session ID.
    pub session_id: String,
    /// User message content.
    pub message: String,
    /// Client-generated ID for optimistic message matching.
    pub client_id: Option<String>,
}

/// Request to send a steering message to a Pi session.
#[derive(Debug, Clone)]
pub struct PiSteerRequest {
    /// Session ID.
    pub session_id: String,
    /// Steering message content.
    pub message: String,
    /// Client-generated ID for optimistic message matching.
    pub client_id: Option<String>,
}

/// Request to abort a Pi session's current operation.
#[derive(Debug, Clone)]
pub struct PiAbortRequest {
    /// Session ID.
    pub session_id: String,
}

/// Request to compact a Pi session's conversation.
#[derive(Debug, Clone)]
pub struct PiCompactRequest {
    /// Session ID.
    pub session_id: String,
    /// Optional custom instructions for compaction.
    pub instructions: Option<String>,
}

/// Request to subscribe to a Pi session's events.
#[derive(Debug, Clone)]
pub struct PiSubscribeRequest {
    /// Session ID to subscribe to.
    pub session_id: String,
}

/// Request to unsubscribe from a Pi session's events.
#[derive(Debug, Clone)]
pub struct PiUnsubscribeRequest {
    /// Session ID to unsubscribe from.
    pub session_id: String,
}

/// Request to get a Pi session's state.
#[derive(Debug, Clone)]
pub struct PiGetStateRequest {
    /// Session ID.
    pub session_id: String,
}

/// Request to close a Pi session.
#[derive(Debug, Clone)]
pub struct PiCloseSessionRequest {
    /// Session ID.
    pub session_id: String,
}

/// Request to delete a Pi session (close + remove from hstry + delete JSONL file).
#[derive(Debug, Clone)]
pub struct PiDeleteSessionRequest {
    /// Session ID.
    pub session_id: String,
}

/// Request to start a new session within existing Pi process.
#[derive(Debug, Clone)]
pub struct PiNewSessionRequest {
    /// Session ID.
    pub session_id: String,
    /// Optional parent session for tracking.
    pub parent_session: Option<String>,
}

/// Request to switch to a different session file.
#[derive(Debug, Clone)]
pub struct PiSwitchSessionRequest {
    /// Session ID.
    pub session_id: String,
    /// Path to the session file to load.
    pub session_path: String,
}

/// Request to queue a follow-up message.
#[derive(Debug, Clone)]
pub struct PiFollowUpRequest {
    /// Session ID.
    pub session_id: String,
    /// Follow-up message content.
    pub message: String,
    /// Client-generated ID for optimistic message matching.
    pub client_id: Option<String>,
}

/// Request to get all messages from a Pi session.
#[derive(Debug, Clone)]
pub struct PiGetMessagesRequest {
    /// Session ID.
    pub session_id: String,
}

/// Request to get session statistics.
#[derive(Debug, Clone)]
pub struct PiGetSessionStatsRequest {
    /// Session ID.
    pub session_id: String,
}

/// Request to get the last assistant message text.
#[derive(Debug, Clone)]
pub struct PiGetLastAssistantTextRequest {
    /// Session ID.
    pub session_id: String,
}

/// Request to set the model for a Pi session.
#[derive(Debug, Clone)]
pub struct PiSetModelRequest {
    /// Session ID.
    pub session_id: String,
    /// Provider name.
    pub provider: String,
    /// Model ID.
    pub model_id: String,
}

/// Request to cycle to the next model.
#[derive(Debug, Clone)]
pub struct PiCycleModelRequest {
    /// Session ID.
    pub session_id: String,
}

/// Request to get available models.
#[derive(Debug, Clone)]
pub struct PiGetAvailableModelsRequest {
    /// Session ID (optional placeholder when requesting cached models by workdir).
    pub session_id: String,
    /// Optional workdir to fetch cached models without a live session.
    pub workdir: Option<String>,
}

/// Request to set the thinking level.
#[derive(Debug, Clone)]
pub struct PiSetThinkingLevelRequest {
    /// Session ID.
    pub session_id: String,
    /// Thinking level: off, minimal, low, medium, high, xhigh.
    pub level: String,
}

/// Request to cycle through thinking levels.
#[derive(Debug, Clone)]
pub struct PiCycleThinkingLevelRequest {
    /// Session ID.
    pub session_id: String,
}

/// Request to enable/disable auto-compaction.
#[derive(Debug, Clone)]
pub struct PiSetAutoCompactionRequest {
    /// Session ID.
    pub session_id: String,
    /// Whether auto-compaction is enabled.
    pub enabled: bool,
}

/// Request to set steering message delivery mode.
#[derive(Debug, Clone)]
pub struct PiSetSteeringModeRequest {
    /// Session ID.
    pub session_id: String,
    /// Mode: "all" or "one-at-a-time".
    pub mode: String,
}

/// Request to set follow-up message delivery mode.
#[derive(Debug, Clone)]
pub struct PiSetFollowUpModeRequest {
    /// Session ID.
    pub session_id: String,
    /// Mode: "all" or "one-at-a-time".
    pub mode: String,
}

/// Request to enable/disable auto-retry.
#[derive(Debug, Clone)]
pub struct PiSetAutoRetryRequest {
    /// Session ID.
    pub session_id: String,
    /// Whether auto-retry is enabled.
    pub enabled: bool,
}

/// Request to abort an in-progress retry.
#[derive(Debug, Clone)]
pub struct PiAbortRetryRequest {
    /// Session ID.
    pub session_id: String,
}

/// Request to fork from a previous message.
#[derive(Debug, Clone)]
pub struct PiForkRequest {
    /// Session ID.
    pub session_id: String,
    /// Entry ID of the message to fork from.
    pub entry_id: String,
}

/// Request to get messages available for forking.
#[derive(Debug, Clone)]
pub struct PiGetForkMessagesRequest {
    /// Session ID.
    pub session_id: String,
}

/// Request to set a display name for the session.
#[derive(Debug, Clone)]
pub struct PiSetSessionNameRequest {
    /// Session ID.
    pub session_id: String,
    /// Display name for the session.
    pub name: String,
}

/// Request to export session to HTML.
#[derive(Debug, Clone)]
pub struct PiExportHtmlRequest {
    /// Session ID.
    pub session_id: String,
    /// Optional output path (default: auto-generated).
    pub output_path: Option<String>,
}

/// Request to get available commands.
#[derive(Debug, Clone)]
pub struct PiGetCommandsRequest {
    /// Session ID.
    pub session_id: String,
}

/// Request to execute a bash command.
#[derive(Debug, Clone)]
pub struct PiBashRequest {
    /// Session ID.
    pub session_id: String,
    /// Bash command to execute.
    pub command: String,
}

/// Request to abort a running bash command.
#[derive(Debug, Clone)]
pub struct PiAbortBashRequest {
    /// Session ID.
    pub session_id: String,
}

/// Request to respond to an extension UI prompt.
#[derive(Debug, Clone)]
pub struct PiExtensionUiResponseRequest {
    /// Session ID.
    pub session_id: String,
    /// Request ID from the extension_ui_request event.
    pub id: String,
    /// Value for select/input/editor responses.
    pub value: Option<String>,
    /// Confirmation for confirm responses.
    pub confirmed: Option<bool>,
    /// Whether the dialog was cancelled.
    pub cancelled: Option<bool>,
}

/// Response when a process is spawned.
#[derive(Debug, Clone)]
pub struct ProcessSpawnedResponse {
    /// The ID provided in the request.
    pub id: String,
    /// OS process ID.
    pub pid: u32,
}

/// Response when a process is killed.
#[derive(Debug, Clone)]
pub struct ProcessKilledResponse {
    /// The process ID.
    pub id: String,
    /// Whether the process was actually running when killed.
    pub was_running: bool,
}

/// Process status response.
#[derive(Debug, Clone)]
pub struct ProcessStatusResponse {
    /// The process ID.
    pub id: String,
    /// Whether the process is currently running.
    pub running: bool,
    /// OS process ID (if known).
    pub pid: Option<u32>,
    /// Exit code if process has exited.
    pub exit_code: Option<i32>,
}

/// List of all managed processes.
#[derive(Debug, Clone)]
pub struct ProcessListResponse {
    /// List of process info.
    pub processes: Vec<ProcessInfo>,
}

/// Information about a managed process.
#[derive(Debug, Clone)]
pub struct ProcessInfo {
    /// Process ID assigned by runner.
    pub id: String,
    /// OS process ID.
    pub pid: u32,
    /// Binary name.
    pub binary: String,
    /// Working directory.
    pub cwd: PathBuf,
    /// Whether this is an RPC process (has stdin/stdout pipes).
    pub is_rpc: bool,
    /// Whether currently running.
    pub running: bool,
}

/// Response when stdin data is written.
#[derive(Debug, Clone)]
pub struct StdinWrittenResponse {
    /// Process ID.
    pub id: String,
    /// Number of bytes written.
    pub bytes_written: usize,
}

/// Response with stdout data.
#[derive(Debug, Clone)]
pub struct StdoutReadResponse {
    /// Process ID.
    pub id: String,
    /// Data read from stdout.
    pub data: String,
    /// Whether there's more data available.
    pub has_more: bool,
}

/// Response confirming stdout subscription started.
#[derive(Debug, Clone)]
pub struct StdoutSubscribedResponse {
    /// Process ID.
    pub id: String,
}

/// A line from stdout (pushed during subscription).
#[derive(Debug, Clone)]
pub struct StdoutLineResponse {
    /// Process ID.
    pub id: String,
    /// The line content.
    pub line: String,
}

/// Stdout subscription ended.
#[derive(Debug, Clone)]
pub struct StdoutEndResponse {
    /// Process ID.
    pub id: String,
    /// Exit code if process exited.
    pub exit_code: Option<i32>,
}

/// Response with file content.
#[derive(Debug, Clone)]
pub struct FileContentResponse {
    /// Path that was read.
    pub path: PathBuf,
    /// File content (base64 encoded).
    pub content_base64: String,
    /// Total file size in bytes.
    pub size: u64,
    /// Whether the response is truncated (more data available).
    pub truncated: bool,
}

/// Response when file is written.
#[derive(Debug, Clone)]
pub struct FileWrittenResponse {
    /// Path that was written.
    pub path: PathBuf,
    /// Bytes written.
    pub bytes_written: u64,
}

/// Directory listing entry.
#[derive(Debug, Clone)]
pub struct DirEntry {
    /// Entry name (not full path).
    pub name: String,
    /// Whether this is a directory.
    pub is_dir: bool,
    /// Whether this is a symlink.
    pub is_symlink: bool,
    /// File size in bytes (0 for directories).
    pub size: u64,
    /// Last modification time (Unix timestamp ms).
    pub modified_at: i64,
}

/// Response with directory listing.
#[derive(Debug, Clone)]
pub struct DirectoryListingResponse {
    /// Path that was listed.
    pub path: PathBuf,
    /// Directory entries.
    pub entries: Vec<DirEntry>,
}

/// Response with file metadata.
#[derive(Debug, Clone)]
pub struct FileStatResponse {
    /// Path that was stat'd.
    pub path: PathBuf,
    /// Whether the path exists.
    pub exists: bool,
    /// Whether this is a file.
    pub is_file: bool,
    /// Whether this is a directory.
    pub is_dir: bool,
    /// Whether this is a symlink.
    pub is_symlink: bool,
    /// File size in bytes.
    pub size: u64,
    /// Last modification time (Unix timestamp ms).
    pub modified_at: i64,
    /// Creation time (Unix timestamp ms), if available.
    pub created_at: Option<i64>,
    /// File permissions (octal, e.g., 0o644).
    pub mode: u32,
}

/// Response when path is deleted.
#[derive(Debug, Clone)]
pub struct PathDeletedResponse {
    /// Path that was deleted.
    pub path: PathBuf,
}

/// Response when directory is created.
#[derive(Debug, Clone)]
pub struct DirectoryCreatedResponse {
    /// Path that was created.
    pub path: PathBuf,
}

/// Session information.
#[derive(Debug, Clone)]
pub struct SessionInfo {
    /// Session ID.
    pub id: String,
    /// Workspace path.
    pub workspace_path: PathBuf,
    /// Session status.
    pub status: String,
    /// Agent runtime port (reserved).
    pub agent_port: Option<u16>,
    /// Fileserver port.
    pub fileserver_port: Option<u16>,
    /// ttyd port.
    pub ttyd_port: Option<u16>,
    /// PIDs of running processes (comma-separated).
    pub pids: Option<String>,
    /// Created at timestamp (RFC3339).
    pub created_at: String,
    /// Started at timestamp (RFC3339).
    pub started_at: Option<String>,
    /// Last activity timestamp (RFC3339).
    pub last_activity_at: Option<String>,
}

/// Response with list of sessions.
#[derive(Debug, Clone)]
pub struct SessionListResponse {
    /// List of sessions.
    pub sessions: Vec<SessionInfo>,
}

/// Response with single session.
#[derive(Debug, Clone)]
pub struct SessionResponse {
    /// Session info, or None if not found.
    pub session: Option<SessionInfo>,
}

/// Response when session is started.
#[derive(Debug, Clone)]
pub struct SessionStartedResponse {
    /// Session ID.
    pub session_id: String,
    /// PIDs of started processes (comma-separated).
    pub pids: String,
}

/// Response when session is stopped.
#[derive(Debug, Clone)]
pub struct SessionStoppedResponse {
    /// Session ID.
    pub session_id: String,
}

/// Main chat session info.
#[derive(Debug, Clone)]
pub struct MainChatSessionInfo {
    /// Session ID.
    pub id: String,
    /// Session title (from first user message).
    pub title: Option<String>,
    /// Number of messages.
    pub message_count: usize,
    /// File size in bytes.
    pub size: u64,
    /// Last modified timestamp (Unix ms).
    pub modified_at: i64,
    /// Session start timestamp (ISO 8601).
    pub started_at: String,
}

/// Response with list of main chat sessions.
#[derive(Debug, Clone)]
pub struct MainChatSessionListResponse {
    /// List of sessions.
    pub sessions: Vec<MainChatSessionInfo>,
}

/// Workspace chat session info.
#[derive(Debug, Clone)]
pub struct WorkspaceChatSessionInfo {
    /// Session ID.
    pub id: String,
    /// Human-readable ID.
    pub readable_id: String,
    /// Session title.
    pub title: Option<String>,
    /// Parent session ID (if any).
    pub parent_id: Option<String>,
    /// Workspace/project path.
    pub workspace_path: String,
    /// Project name (derived from path).
    pub project_name: String,
    /// Created timestamp (ms since epoch).
    pub created_at: i64,
    /// Updated timestamp (ms since epoch).
    pub updated_at: i64,
    /// Session version (if available).
    pub version: Option<String>,
    /// Whether this is a child session.
    pub is_child: bool,
    /// Last used model ID.
    pub model: Option<String>,
    /// Last used provider ID.
    pub provider: Option<String>,
}

/// Response with list of workspace chat sessions.
#[derive(Debug, Clone)]
pub struct WorkspaceChatSessionListResponse {
    /// List of sessions.
    pub sessions: Vec<WorkspaceChatSessionInfo>,
}

/// Response with single workspace chat session.
#[derive(Debug, Clone)]
pub struct WorkspaceChatSessionResponse {
    /// Session info, or None if not found.
    pub session: Option<WorkspaceChatSessionInfo>,
}

/// Response when a workspace chat session is updated.
#[derive(Debug, Clone)]
pub struct WorkspaceChatSessionUpdatedResponse {
    /// Updated session info.
    pub session: WorkspaceChatSessionInfo,
}

/// Response when memory is added.
#[derive(Debug, Clone)]
pub struct MemoryAddedResponse {
    /// Assigned memory ID.
    pub memory_id: String,
}

/// Response when memory is deleted.
#[derive(Debug, Clone)]
pub struct MemoryDeletedResponse {
    /// Deleted memory ID.
    pub memory_id: String,
}

/// Response when a Pi session is created.
#[derive(Debug, Clone)]
pub struct PiSessionCreatedResponse {
    /// The session ID.
    pub session_id: String,
}

/// Information about a Pi session.
#[derive(Debug, Clone)]
pub struct PiSessionInfo {
    /// Session ID (the Oqto session ID used in events and commands).
    pub session_id: String,
    /// The hstry external_id (Pi's native session ID).
    /// Used to correlate runner sessions with hstry conversations.
    pub hstry_id: Option<String>,
    /// Current session state.
    pub state: PiSessionState,
    /// Last activity timestamp (Unix ms).
    pub last_activity: i64,
    /// Number of subscribers to this session's events.
    pub subscriber_count: usize,
    /// Working directory.
    pub cwd: PathBuf,
    /// Provider (if set).
    pub provider: Option<String>,
    /// Model (if set).
    pub model: Option<String>,
}

/// Response with list of Pi sessions.
#[derive(Debug, Clone)]
pub struct PiSessionListResponse {
    /// List of sessions.
    pub sessions: Vec<PiSessionInfo>,
}

/// Response confirming Pi subscription started.
#[derive(Debug, Clone)]
pub struct PiSubscribedResponse {
    /// Session ID.
    pub session_id: String,
}

/// Response when Pi subscription ends.
#[derive(Debug, Clone)]
pub struct PiSubscriptionEndResponse {
    /// Session ID.
    pub session_id: String,
    /// Reason for ending (e.g., "session_closed", "unsubscribed").
    pub reason: String,
}

/// Response with last assistant text.
#[derive(Debug, Clone)]
pub struct PiLastAssistantTextResponse {
    /// Session ID.
    pub session_id: String,
    /// The text, or None if no assistant messages.
    pub text: Option<String>,
}

/// Response when thinking level is changed.
#[derive(Debug, Clone)]
pub struct PiThinkingLevelChangedResponse {
    /// Session ID.
    pub session_id: String,
    /// The new thinking level.
    pub level: String,
}

/// Message available for forking.
#[derive(Debug, Clone)]
pub struct PiForkMessage {
    /// Entry ID.
    pub entry_id: String,
    /// Message text.
    pub text: String,
}

/// Response with messages available for forking.
#[derive(Debug, Clone)]
pub struct PiForkMessagesResponse {
    /// Session ID.
    pub session_id: String,
    /// Messages available for forking.
    pub messages: Vec<PiForkMessage>,
}

/// Response with fork result.
#[derive(Debug, Clone)]
pub struct PiForkResultResponse {
    /// Session ID.
    pub session_id: String,
    /// The text of the message being forked from.
    pub text: String,
    /// Whether an extension cancelled the fork.
    pub cancelled: bool,
}

/// Command info (extension, template, or skill).
#[derive(Debug, Clone)]
pub struct PiCommandInfo {
    /// Command name (invoke with /name).
    pub name: String,
    /// Human-readable description.
    pub description: Option<String>,
    /// Source: "extension", "template", or "skill".
    pub source: String,
    /// Location: "user", "project", or "path".
    pub location: Option<String>,
    /// Absolute file path to the command source.
    pub path: Option<String>,
}

/// Response with available commands.
#[derive(Debug, Clone)]
pub struct PiCommandsResponse {
    /// Session ID.
    pub session_id: String,
    /// Available commands.
    pub commands: Vec<PiCommandInfo>,
}

/// Response with bash execution result.
#[derive(Debug, Clone)]
pub struct PiBashResultResponse {
    /// Session ID.
    pub session_id: String,
    /// Command output.
    pub output: String,
    /// Exit code.
    pub exit_code: i32,
    /// Whether the command was cancelled.
    pub cancelled: bool,
    /// Whether output was truncated.
    pub truncated: bool,
    /// Path to full output if truncated.
    pub full_output_path: Option<String>,
}

/// Response with HTML export result.
#[derive(Debug, Clone)]
pub struct PiExportHtmlResultResponse {
    /// Session ID.
    pub session_id: String,
    /// Path to the exported HTML file.
    pub path: String,
}

/// Error response.
#[derive(Debug, Clone)]
pub struct ErrorResponse {
    /// Error code.
    pub code: ErrorCode,
    /// Human-readable error message.
    pub message: String,
}

/// Error codes.
#[derive(Debug, Clone, Copy, PartialEq, Eq, Structural)]
pub enum ErrorCode {
    /// Process not found.
    ProcessNotFound,
    /// Process already exists with this ID.
    ProcessAlreadyExists,
    /// Failed to spawn process.
    SpawnFailed,
    /// Failed to kill process.
    KillFailed,
    /// Process is not an RPC process (no stdin/stdout).
    NotRpcProcess,

    /// File or directory not found.
    PathNotFound,
    /// Path is outside allowed workspace.
    PathNotAllowed,
    /// Permission denied.
    PermissionDenied,
    /// Path already exists.
    PathExists,
    /// Not a directory.
    NotADirectory,
    /// Not a file.
    NotAFile,

    /// Session not found.
    SessionNotFound,
    /// Session already exists.
    SessionExists,
    /// Session is not running.
    SessionNotRunning,
    /// Session is already running.
    SessionAlreadyRunning,

    /// Pi session not found.
    PiSessionNotFound,
    /// Pi session already exists.
    PiSessionExists,
    /// Pi session is not in a valid state for this operation.
    PiSessionInvalidState,

    /// Memory not found.
    MemoryNotFound,

    /// Sandbox requested but not available or misconfigured.
    SandboxError,

    /// IO error.
    IoError,
    /// Invalid request.
    InvalidRequest,
    /// Database error.
    DatabaseError,
    /// Internal error.
    Internal,
}

/// The default of `CreateDirectoryRequest::create_parents`.
pub fn default_true() -> (r: bool)
    ensures
        r,
{
    true
}

/// The default of `SearchMemoriesRequest::limit`.
pub fn default_memory_limit() -> (r: usize)
    ensures
        r == 20,
{
    20
}

impl Default for PiSessionConfig {
    /// A session in the current directory, with no provider, model or
    /// session file, and no extra environment.
    fn default() -> (r: Self)
        ensures
            r.cwd == path_from("."@),
            r.provider is None,
            r.model is None,
            r.session_file is None,
            r.continue_session is None,
            r.env@ == Map::<String, String>::empty(),
    {
        PiSessionConfig {
            cwd: path_from_str("."),
            provider: None,
            model: None,
            session_file: None,
            continue_session: None,
            env: HashMap::new(),
        }
    }
}

/// Pi session lifecycle state.
#[derive(Debug, Clone, Copy, PartialEq, Eq, Structural)]
pub enum PiSessionState {
    /// Session is starting up.
    Starting,
    /// Session is idle, waiting for input.
    Idle,
    /// Session is streaming a response.
    Streaming,
    /// Session is compacting its context.
    Compacting,
    /// Session is aborting a running turn.
    Aborting,
    /// Session is stopping.
    Stopping,
}

/// The lowercase name of a session state.
pub open spec fn state_name(s: PiSessionState) -> Seq<char> {
    match s {
        PiSessionState::Starting => "starting"@,
        PiSessionState::Idle => "idle"@,
        PiSessionState::Streaming => "streaming"@,
        PiSessionState::Compacting => "compacting"@,
        PiSessionState::Aborting => "aborting"@,
        PiSessionState::Stopping => "stopping"@,
    }
}

impl PiSessionState {
    /// The lowercase name of the state, as it is displayed and serialized.
    pub fn to_string(&self) -> (res: String)
        ensures
            res@ == state_name(*self),
    {
        match self {
            PiSessionState::Starting => to_owned_string("starting"),
            PiSessionState::Idle => to_owned_string("idle"),
            PiSessionState::Streaming => to_owned_string("streaming"),
            PiSessionState::Compacting => to_owned_string("compacting"),
            PiSessionState::Aborting => to_owned_string("aborting"),
            PiSessionState::Stopping => to_owned_string("stopping"),
        }
    }
}

} // verus!
