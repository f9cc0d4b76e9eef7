//! Process execution core for a package-update tool: a memoizing cache of
//! which external tools are installed, a multiplexer that funnels the lines of
//! two output streams through one consumer while capturing the primary stream,
//! and the per-invocation bookkeeping of running a command, with the decisions
//! the update steps take on the results.
pub mod buffer;
pub mod cache;
pub mod multiplex;
pub mod runner;
pub mod sysinfo;
pub mod update;

pub use buffer::{StringBuffer, StringBufferPool, DEFAULT_LINE_CAPACITY, STRING_POOL_SIZE};
pub use cache::{common_commands, CommandCache};
pub use multiplex::{Multiplexer, OutputLine, OutputSource, StreamEvent};
pub use runner::{CommandResult, Invocation, RunError, RunSession};
pub use sysinfo::{distribution_name, version_text};
pub use update::{
    choose_mode, flatpak_outcome, mode_for_answer, summarize, updates_available, upgrade_args,
    upgrade_outcome, Summary, UpdateError, UpdateMode, UPDATES_AVAILABLE_CODE,
};
