//! The program as a whole: which run the arguments ask for.

use crate::args::{Args, Subcommands};
use vstd::prelude::*;

verus! {

/// A run that has just started: where it stands and what it does first.
#[derive(PartialEq, Debug)]
pub enum Run {
    /// A run that posts a comment.
    WriteComment(crate::comment::State, crate::comment::Action),
    /// A run that relays the commands of a webhook event.
    TriggerWebhookCommands(crate::relay::State, crate::relay::Action),
}

/// Starts the run that `args` ask for.
pub fn start(args: Args) -> (run: Run)
    ensures
        match args.command {
            Subcommands::WriteComment(args) => run matches Run::WriteComment(state, action) && (
                state@,
                action@,
            ) == crate::comment::start_spec(args),
            Subcommands::TriggerWebhookCommands(args) => run matches Run::TriggerWebhookCommands(
                state,
                action,
            ) && (state@, action@) == crate::relay::start_spec(args),
        },
{
    match args.command {
        Subcommands::WriteComment(args) => {
            let (state, action) = crate::comment::start(args);
            Run::WriteComment(state, action)
        },
        Subcommands::TriggerWebhookCommands(args) => {
            let (state, action) = crate::relay::start(args);
            Run::TriggerWebhookCommands(state, action)
        },
    }
}

} // verus!
