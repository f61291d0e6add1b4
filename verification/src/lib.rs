//! The core of a small interactive command shell: splitting a line into
//! words, separating output redirections from the command, resolving the
//! command name and deciding what each builtin does.
//!
//! Everything here works on plain values. Reading lines, opening files,
//! spawning processes and touching the environment are left to the caller,
//! which hands the results in and carries the decisions out.

pub mod text;
pub mod error;
pub mod lexer;
pub mod redirect;
pub mod output;
pub mod commands;
pub mod shell;
pub mod repl;
