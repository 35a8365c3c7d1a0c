//! The guards that stand in front of every extraction of commands.

use crate::webhook::{Webhook, WebhookView};
use vstd::prelude::*;

verus! {

/// What the guards in front of the extraction decide for an event.
#[derive(Clone, Copy, PartialEq, Eq, Debug, Structural)]
pub enum Guard {
    /// The author is one of the bots: a bot's own comment triggers nothing.
    SelfTrigger,
    /// The comment was deleted.
    Deleted,
    /// The author is neither owner nor collaborator of the repository.
    Denied,
    /// The comment may give commands.
    Pass,
}

/// The associations that may give commands: exactly `OWNER` and
/// `COLLABORATOR`, compared character by character.
pub open spec fn is_privileged(association: Seq<char>) -> bool {
    association == "OWNER"@ || association == "COLLABORATOR"@
}

/// The guards in their order: the author's own trigger first, then the
/// deletion, then the author's rights.
pub open spec fn guard_spec(webhook: WebhookView, bots: Seq<Seq<char>>) -> Guard {
    if bots.contains(webhook.author) {
        Guard::SelfTrigger
    } else if webhook.action == "deleted"@ {
        Guard::Deleted
    } else if !is_privileged(webhook.author_association) {
        Guard::Denied
    } else {
        Guard::Pass
    }
}

/// Whether `text` reads exactly as `literal`.
fn reads(text: &String, literal: &str) -> (same: bool)
    ensures
        same == (text@ == literal@),
{
    let other = String::from_str(literal);
    *text == other
}

/// Whether `name` is one of `bots`.
fn is_listed(bots: &Vec<String>, name: &String) -> (listed: bool)
    ensures
        listed == bots.deep_view().contains(name@),
{
    let ghost names = bots.deep_view();
    let mut i: usize = 0;
    while i < bots.len()
        invariant
            i <= bots.len(),
            names == bots.deep_view(),
            forall|j: int| 0 <= j < i ==> names[j] != name@,
        decreases bots.len() - i,
    {
        if bots[i] == *name {
            assert(names[i as int] == name@);
            return true;
        }
        i += 1;
    }
    false
}

/// Decides whether the comment of `webhook` may give commands to `bots`.
pub fn guard(webhook: &Webhook, bots: &Vec<String>) -> (decision: Guard)
    ensures
        decision == guard_spec(webhook@, bots.deep_view()),
{
    if is_listed(bots, &webhook.author) {
        Guard::SelfTrigger
    } else if reads(&webhook.action, "deleted") {
        Guard::Deleted
    } else if !(reads(&webhook.author_association, "OWNER") || reads(
        &webhook.author_association,
        "COLLABORATOR",
    )) {
        Guard::Denied
    } else {
        Guard::Pass
    }
}

} // verus!
