//! Publish orchestration for a game project: the project tree is staged into
//! an installed toolchain's directory, the toolchain's publish executable is
//! invoked there, and its output (build artifacts, logs, exception reports)
//! is reconciled back into the project directory, with the staging area torn
//! down whether or not the invocation succeeded.
//!
//! The orchestration itself is a verified state machine ([`machine`]): each
//! step consumes the outcome of one outside operation (a configuration load,
//! a directory copy, a process exit) and decides the next operation. The
//! filesystem operations the machine requests are specified against a
//! mathematical model of a file tree ([`fs_model`]), over which the library's
//! guarantees ([`laws`]) are proved.

pub mod fs_model;
pub mod laws;
pub mod machine;
pub mod path;
