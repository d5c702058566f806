//! Dispatch core of a line-oriented command interpreter.
//!
//! The library is pure: it parses one input line, decides whether the leading
//! token names a builtin or an external executable, and describes the effect
//! to perform.  All interaction with the operating system (reading lines,
//! querying the filesystem, spawning processes) happens outside, driven by
//! the [`shell::Effect`] values that [`shell::ShellState::step`] returns.

pub mod builtins;
pub mod laws;
pub mod numbers;
pub mod path_search;
pub mod shell;
pub mod text;
