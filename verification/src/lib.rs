pub mod error;
pub mod text;
pub mod env_sanitization;
pub mod layer_registry;
pub mod attestation;
pub mod network;
pub mod health;
pub mod claude_code_hook;
pub mod hook_cwd_guard;
pub mod hook_json;
pub mod authenticode;
pub mod network_policy;
pub mod supervisor_macos;
pub mod command_runtime;
pub mod hook_runtime_windows;
pub mod dacl_guard;
pub mod cli_bootstrap;
pub mod random;
pub mod execution_runtime;
pub mod attestation_downgrade_event;
