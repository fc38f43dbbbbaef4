//! A stacked application-state engine for an interactive, full-screen
//! terminal program.
//!
//! The engine keeps an ordered, never-empty stack of screens ("states"),
//! hands each user command to the active (top) state, and interprets the
//! closed set of outcomes a state may produce: keep going, replace the top,
//! pop, replay a command on the state beneath, launch an external process,
//! show an error, refresh, or quit.  Concrete screens, terminal rendering,
//! command parsing and process spawning are collaborators outside this
//! crate; the engine only coordinates them.

pub mod app;
pub mod app_state;
pub mod command;
pub mod context;
pub mod errors;
pub mod launchable;
pub mod laws;
pub mod quoting;
pub mod screen;
pub mod task_sync;

pub use app::App;
pub use app::DispatchEnd;
pub use app::Step;
pub use app_state::AppState;
pub use app_state::AppStateCmdResult;
pub use command::Command;
pub use command::VerbInvocation;
pub use context::AppContext;
pub use errors::ProgramError;
pub use errors::TreeBuildError;
pub use launchable::Launchable;
pub use screen::Screen;
pub use task_sync::TaskLifetime;
