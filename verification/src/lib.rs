//! Core of a small POSIX-style shell.
//!
//! A line of input is split into tokens (`parsing::tokenize_input`), the
//! tokens are turned into a command tree (`parsing::parse`), and the tree is
//! interpreted against the operating system's process and file-descriptor
//! primitives (`Command::execute`).
//!
//! The grammar and the interpreter are verified: every function carries a
//! contract relating its result to the mathematical models in
//! `command::CommandModel` and `parsing`.

pub mod builtin;
pub mod command;
pub mod execution;
pub mod interaction;
pub mod parsing;
mod sys;
