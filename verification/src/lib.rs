//! A configuration-driven command dispatcher for a developer CLI tool.
//!
//! A repository declares named scripts in a small JSON file; an invocation is
//! resolved either to a built-in subcommand or, when its first token matches a
//! configured script name, to a script lookup and execution.

pub mod json;
pub mod string_or_struct;
pub mod config;
pub mod load;
pub mod git;
pub mod resolve;
pub mod script;

pub use json::Json;
pub use json::parse_json;
pub use string_or_struct::DecodeStringOrStruct;
pub use string_or_struct::de_string_or_struct;
pub use string_or_struct::de_string_or_struct_hashmap;
pub use config::Config;
pub use config::Script;
pub use config::Error;
pub use config::parse;
pub use load::FileRead;
pub use load::LoadedConfig;
pub use load::OptionalLoadedConfig;
pub use load::config_filenames;
pub use load::load;
pub use load::auto_load;
pub use load::auto_load_for_repo;
pub use load::config_for_resolution;
pub use git::G;
pub use git::root_from_stdout;
pub use git::SuccessOutput;
pub use resolve::Resolution;
pub use resolve::builtin_names;
pub use resolve::resolve_tokens;
pub use resolve::unknown_subcommand_message;
pub use script::RunError;
pub use script::RunPlan;
pub use script::build_command_line;
pub use script::build_command_tokens;
pub use script::plan_run;
