//! The engine of a small interactive shell.
//!
//! The shell knows three commands: `cd` and `pwd`, which it carries out
//! itself, and `ls`, which it hands to the program of that name. The word
//! `exit` at the start of a line ends the session, and so does the end of the
//! input.
//!
//! The engine decides; its host acts. The engine never reads, prints, looks
//! at the filesystem or starts a program. The host prints the prompt, reads a
//! line and calls [`shell::Shell::run`], which gives the turn that the line
//! comes to: either the loop ends, or a command has been started. A started
//! command is complete at once, or it names the one piece of outside work
//! that stands between it and its completion: a path to resolve for `cd`, a
//! program to run for `ls`. The host does that work and hands the answer to
//! [`shell::Shell::resolved`] or [`shell::Shell::spawned`]. Every step ends
//! in the lines to print, each with its stream.
//!
//! The modules:
//!
//! - [`text`]: whitespace, tokens, and the comparison of texts;
//! - [`path`]: paths as bytes, and how one path is seen from another;
//! - [`error`]: the failures and their messages;
//! - [`report`]: the lines to print;
//! - [`host`]: what the host is asked and what it answers;
//! - [`shell`]: the state of the shell;
//! - [`builtin`]: `cd` and `pwd`;
//! - [`external`]: `ls`;
//! - [`dispatch`]: from a command line to its command and to its lines;
//! - [`repl`]: a turn of the loop;
//! - [`laws`]: what holds of all of it, proved.
//!
//! Contracts are stated over mathematical values: a text is a `Seq<char>`, a
//! path a `Seq<u8>`, and each type of the crate has a view (`@`) made of
//! these.

pub mod builtin;
pub mod dispatch;
pub mod error;
pub mod external;
pub mod host;
pub mod laws;
pub mod path;
pub mod repl;
pub mod report;
pub mod shell;
pub mod text;
