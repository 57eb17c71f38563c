//! A minimal task-runner shell abstraction for build-automation scripts.
//!
//! A [`shell::Shell`] resolves a project root and an output directory from an
//! environment snapshot taken once at construction.  From it, callers obtain
//! [`subprocess::Subprocess`] builders that accumulate arguments and
//! environment overrides for one external command and decide, from a dry-run
//! flag captured out of the same snapshot, whether the command is to be
//! spawned at all.  Filesystem helpers are planned here as explicit actions;
//! the thin unverified layer around this crate carries the actions out.

pub mod decimal;
pub mod envmap;
pub mod envsource;
pub mod error;
pub mod flags;
pub mod fsops;
pub mod pathops;
pub mod shell;
pub mod subprocess;

pub use error::Error;
pub use error::ErrorKind;
pub use flags::CreateFlags;
pub use flags::RemoveFlags;
pub use fsops::CreateAction;
pub use fsops::EntryKind;
pub use fsops::RemoveAction;
pub use shell::Shell;
pub use subprocess::RunDecision;
pub use subprocess::SpawnOutcome;
pub use subprocess::Subprocess;
