//! Terminate a process gracefully when an operation fails.
//!
//! The crate renders one styled diagnostic line per cause of a failure
//! (`error: ...` followed by `caused by: ...` lines) and signals that the
//! process should exit with status 1.  Labels, separator, message style and
//! the message shown for an absent value are drawn from a write-once
//! [`Registry`] of configuration slots.

mod internal;
mod ops;
mod printer;
mod registry;
mod style;

pub use ops::report_failure;
pub use ops::report_none;
pub use ops::ExitOnError;
pub use ops::QuitOnError;
pub use ops::Report;
pub use ops::Termination;
pub use printer::Line;
pub use printer::print;
pub use printer::print_caused_by;
pub use printer::print_error;
pub use registry::Registry;
pub use registry::Segment;
pub use style::Color;
pub use style::TextStyle;
