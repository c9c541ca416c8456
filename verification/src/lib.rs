//! Verified core logic of the oqto backend.
pub mod admin;
pub mod api_keys;
pub mod auth;
pub mod commands;
pub mod eavs;
pub mod history;
pub mod json;
pub mod linux_users;
pub mod mmry_config;
pub mod num;
pub mod oauth;
pub mod pi_history;
pub mod pi_models;
pub mod pi_reader;
pub mod pi_session;
pub mod protocol;
pub mod routes;
pub mod shared_workspace;
pub mod state;
pub mod text;
pub mod usermgr;
