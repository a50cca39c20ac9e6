//! Filesystem-watch engine: classifies change events, filters them by
//! category, dispatches them to a handler (inline or on a worker pool), and
//! coordinates a drain-before-exit shutdown.
//!
//! The OS-level watch source, signal registration, command execution and log
//! output live outside this crate; the engine consumes plain events from an
//! intake channel and a one-shot cancellation channel.

pub mod channel;
pub mod dispatch;
pub mod event;
pub mod filter;
pub mod handler;
pub mod lifecycle;
pub mod pool;
pub mod util;
pub mod watch;

pub use event::EventCategory;
pub use event::EventKind;
pub use event::IntakeItem;
pub use event::RawEvent;
pub use watch::Watch;
