//! Verified core of CompactVeteran: the decisions and documents behind a
//! compaction handoff (session and project state, the project map, the Git
//! checkpoint, the credential guard, the project lock, the catalog overlay and
//! the configuration edit, and the supervisor's restart protocol).
pub mod text;
pub mod guard;
pub mod hook_input;
pub mod state;
pub mod digest;
pub mod project_map;
pub mod git_checkpoint;
pub mod project_lock;
pub mod catalog;
pub mod config;
pub mod control;
pub mod supervisor;
pub mod paths;
pub mod trust;
