//! The deciding part of a small interactive command interpreter.
//!
//! A line is split into tokens, the tokens are classified as a built-in or
//! an external command, and the command is carried out step by step.  The
//! library reads no input, writes no output and touches neither the file
//! system nor the working directory: every step says what its host has to
//! do, and the host tells the step how that went.  The one thing it finds
//! out by itself is the user's home directory, for `cd ~`.

pub mod command;
pub mod execute;
mod home;
pub mod lookup;
pub mod number;
pub mod path;
pub mod search;
pub mod step;
pub mod text;
pub mod token;
