//! The verified core of a small desktop greeter: the text of a greeting, and
//! the line that a failed start of the application leaves behind.

pub mod greeting;
pub mod startup;

pub use greeting::greet;
pub use startup::{failure_line, failure_report};
