//! A process-local debug-log writer.
//!
//! Application code emits diagnostic entries (content plus optional header
//! and context metadata) to named log files inside a resolved debug
//! directory. Each named file is truncated exactly once per process lifetime,
//! on its first write, and appended to for the remainder of the run.
//!
//! The verified core consists of the directory-resolution policy, the
//! truncate-once write registry, the entry formatter, and the write planner
//! that ties them together. The thin shell that performs the actual
//! filesystem calls lives outside this crate and consumes the plans
//! produced here.

pub mod entry;
pub mod format;
pub mod registry;
pub mod resolve;
pub mod writer;

pub use entry::LogEntry;
pub use format::render_entry;
pub use registry::WriteRegistry;
pub use writer::WritePlan;
pub use writer::plan_write;
