//! Settings resolution, settings-file editing, command completion and
//! server invocation for the DCM editor integration.
pub mod commands;
pub mod document;
pub mod invocation;
pub mod json;
pub mod paths;
pub mod settings;
pub mod text;

pub use commands::{complete, run, Completion, CommandError, CommandOutput, RunStep};
pub use document::SettingsError;
pub use invocation::{build_command, initialization_options, join_paths, workspace_configuration, ResolvedSettings};
pub use paths::{path_to_string, resolve_path, EnvVars};
pub use settings::{ToggleTarget, UserSettings};
pub use text::{is_blank, trim};
