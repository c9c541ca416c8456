//! Settings held by the API layer: the memory service, the project
//! template repository, and the eavs configuration files.
use vstd::prelude::*;
use std::path::PathBuf;
use crate::text::to_owned_string;

verus! {

/// Memory service (mmry) configuration for the API layer.
#[derive(Clone, Debug)]
pub struct MmryState {
    /// Whether mmry integration is enabled.
    pub enabled: bool,
    /// Whether we're in single-user mode (proxy to local service).
    pub single_user: bool,
    /// URL of the local mmry service (for single-user mode).
    pub local_service_url: String,
    /// URL of the central mmry service (for multi-user mode).
    pub host_service_url: String,
    /// API key for authenticating with host mmry (optional).
    pub host_api_key: Option<String>,
    /// Default embedding model name for per-user config.
    pub default_model: String,
    /// Embedding dimension for per-user config.
    pub dimension: u16,
    /// Dedicated base port for per-user mmry instances (local multi-user mode).
    pub user_base_port: u16,
    /// Size of the per-user mmry port range (local multi-user mode).
    pub user_port_range: u16,
}

impl Default for MmryState {
    fn default() -> (s: Self)
        ensures
            !s.enabled,
            s.single_user,
            s.local_service_url@ == "http://localhost:8081"@,
            s.host_service_url@ == "http://localhost:8081"@,
            s.host_api_key is None,
            s.default_model@ == "Xenova/all-MiniLM-L6-v2"@,
            s.dimension == 384,
            s.user_base_port == 48_000,
            s.user_port_range == 1_000,
    {
        MmryState {
            enabled: false,
            single_user: true,
            local_service_url: to_owned_string("http://localhost:8081"),
            host_service_url: to_owned_string("http://localhost:8081"),
            host_api_key: None,
            default_model: to_owned_string("Xenova/all-MiniLM-L6-v2"),
            dimension: 384,
            user_base_port: 48_000,
            user_port_range: 1_000,
        }
    }
}

/// Where project templates come from.
#[derive(Clone, Copy, Debug, PartialEq, Eq, Structural)]
pub enum TemplatesRepoType {
    Remote,
    Local,
}

/// Whether the template repository is pulled in the background: only a
/// remote repository with a known path, and only when syncing is on.
pub fn background_sync_enabled(has_repo_path: bool, repo_type: TemplatesRepoType, sync_on_list: bool) -> (r: bool)
    ensures
        r == (has_repo_path && repo_type == TemplatesRepoType::Remote && sync_on_list),
{
    if !has_repo_path {
        return false;
    }
    if repo_type == TemplatesRepoType::Local {
        return false;
    }
    sync_on_list
}

/// The arguments of the `git` run that syncs the template repository:
/// a fast-forward-only pull in the repository.
pub fn templates_pull_args(repo_path: &str) -> (res: Vec<String>)
    ensures
        res@.len() == 4,
        res@[0]@ == "-C"@,
        res@[1]@ == repo_path@,
        res@[2]@ == "pull"@,
        res@[3]@ == "--ff-only"@,
{
    vec![
        to_owned_string("-C"),
        to_owned_string(repo_path),
        to_owned_string("pull"),
        to_owned_string("--ff-only"),
    ]
}

/// Paths to eavs configuration files for admin provider management.
#[derive(Debug, Clone)]
pub struct EavsConfigPaths {
    /// Path to eavs config.toml.
    pub config_path: PathBuf,
    /// Path to eavs env file (API keys).
    pub env_path: PathBuf,
}

} // verus!
