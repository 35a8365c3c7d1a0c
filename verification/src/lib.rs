//! Bot commands in GitHub comments, and the tagged comment on a pull request.
//!
//! The library reads an `issue_comment` webhook event out of a JSON document
//! ([`webhook`]), decides whether its author may give commands ([`guard`]),
//! and extracts the commands that the comment addresses to a list of bots
//! ([`webhook_command_utils`], and word by word in [`read_command`]). For the
//! tagged comment it chooses the pull request and the comment among those
//! that the GitHub API returned ([`api`]).
//!
//! The two runs of the program are state machines: [`relay`] leads from a
//! webhook document to the requests for the pipeline trigger, [`comment`]
//! from a text to the comment that holds it. A run says what is to be done
//! next and takes what came back; whoever drives it reads the files and
//! talks to the network. [`run`] starts the run that the arguments
//! ([`args`]) ask for.
//!
//! Every function is stated over a mathematical model of its data and proved
//! against it. The only code taken on trust is the reading of JSON and UTF-8
//! in [`json`]. The library does no input or output.

pub mod api;
pub mod args;
pub mod comment;
pub mod guard;
pub mod json;
pub mod mention;
pub mod read_command;
pub mod relay;
pub mod run;
pub mod text;
pub mod webhook;
pub mod webhook_command_utils;
