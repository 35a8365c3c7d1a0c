//! The arguments of the program, as plain values.

use std::path::PathBuf;
use vstd::prelude::*;

verus! {

/// A path in the file system. The library hands paths on and never reads
/// them.
#[verifier::external_type_specification]
#[verifier::external_body]
pub struct ExPathBuf(PathBuf);

/// Interact with GitHub PR comments.
pub struct Args {
    pub command: Subcommands,
}

/// The arguments for posting a comment.
pub struct WriteCommentArgs {
    /// The owner of the repository to post the comment to.
    pub owner: String,
    /// The repository to post the comment to.
    pub repo: String,
    /// The commit that identifies the pull request.
    pub commit: String,
    /// The identifier of the comment, which is embedded into its text.
    pub id: String,
    /// A file that holds the text of the comment.
    pub text: PathBuf,
}

/// The arguments for triggering the commands of a webhook event.
pub struct TriggerWebhookCommandsArgs {
    /// A JSON file that holds the webhook event.
    pub webhook: PathBuf,
    /// The GitLab instance that runs the commands.
    pub gl_instance: String,
    /// The GitLab job token.
    pub job_token: String,
    /// The names of the bots that commands may be addressed to, in the order
    /// in which their commands are relayed.
    pub bot: Vec<String>,
}

/// What the program is asked to do.
pub enum Subcommands {
    /// Post or update a comment to a GitHub pull request.
    WriteComment(WriteCommentArgs),
    /// Read commands from an `issue_comment` webhook event and trigger
    /// GitLab pipelines for them.
    TriggerWebhookCommands(TriggerWebhookCommandsArgs),
}

} // verus!
