//! The tagged comment: its tag, its text, what to do about the comment that
//! is already there, and the run that posts it.

use crate::api::{
    find_comment, find_comment_spec, find_pull_request, find_pull_request_spec,
    law_the_matching_comment_is_found, starts_with, ApiError, Comment, CommentView, PullRequest,
    PullRequestView,
};
use crate::args::WriteCommentArgs;
use crate::webhook::{Repository, RepositoryView};
use std::path::PathBuf;
use vstd::prelude::*;

verus! {

/// The tag that marks the comment with identifier `id`.
pub open spec fn comment_tag_spec(id: Seq<char>) -> Seq<char> {
    "<!-- github-comment: "@ + id + " -->"@
}

/// The text of a comment: the tag, a line feed, the text to post.
pub open spec fn comment_body_spec(tag: Seq<char>, text: Seq<char>) -> Seq<char> {
    tag + "\n"@ + text
}

/// Writes the tag that marks the comment with identifier `id`. The tag is an
/// HTML comment, so it does not show where the comment is rendered.
pub fn comment_tag(id: &str) -> (tag: String)
    ensures
        tag@ == comment_tag_spec(id@),
{
    String::from_str("<!-- github-comment: ").concat(id).concat(" -->")
}

/// Writes the text of the comment: `tag` on a line of its own, then `text`.
pub fn comment_body(tag: &str, text: &str) -> (body: String)
    ensures
        body@ == comment_body_spec(tag@, text@),
{
    String::from_str(tag).concat("\n").concat(text)
}

/// What is to be done so that the pull request carries the comment.
#[derive(Clone, Copy, PartialEq, Eq, Debug, Structural)]
pub enum Plan {
    /// No comment with the tag is there: create one.
    Create,
    /// The comment with this identifier has another text: update it.
    Update { id: u64 },
    /// The comment with this identifier has the text already: leave it.
    Keep { id: u64 },
}

/// The plan for the comment `found` under the tag and the text `body`.
pub open spec fn plan_spec(found: Option<CommentView>, body: Seq<char>) -> Plan {
    match found {
        None => Plan::Create,
        Some(comment) => if comment.body == Some(body) {
            Plan::Keep { id: comment.id }
        } else {
            Plan::Update { id: comment.id }
        },
    }
}

/// Decides what to do with the comment `found` under the tag, so that the
/// pull request carries a comment with the text `body`.
pub fn plan(found: Option<&Comment>, body: &String) -> (decision: Plan)
    ensures
        decision == plan_spec(
            match found {
                Some(comment) => Some(comment@),
                None => None,
            },
            body@,
        ),
{
    match found {
        None => Plan::Create,
        Some(comment) => {
            let same = match &comment.body {
                Some(text) => *text == *body,
                None => false,
            };
            if same {
                Plan::Keep { id: comment.id }
            } else {
                Plan::Update { id: comment.id }
            }
        },
    }
}

/// Why a run ends without the comment in place.
#[derive(Clone, Copy, PartialEq, Eq, Debug, Structural)]
pub enum Failure {
    /// No single pull request or comment could be chosen.
    Api(ApiError),
    /// The event is not the answer to the action that is under way.
    OutOfTurn,
}

/// Where a run stands: what it waits for, and what it keeps for later.
#[derive(PartialEq, Debug)]
pub enum State {
    /// Waiting for the text to post.
    ReadingText { repo: Repository, commit: String, id: String },
    /// Waiting for the pull requests that hold the commit.
    FindingPullRequest { repo: Repository, tag: String, body: String },
    /// Waiting for the comments of the pull request.
    FindingComment { repo: Repository, number: u64, tag: String, body: String },
    /// Waiting for the comment to be created or updated.
    Writing,
    /// The run is over.
    Done,
}

/// Mathematical value of a [`State`].
pub enum StateView {
    ReadingText { repo: RepositoryView, commit: Seq<char>, id: Seq<char> },
    FindingPullRequest { repo: RepositoryView, tag: Seq<char>, body: Seq<char> },
    FindingComment { repo: RepositoryView, number: u64, tag: Seq<char>, body: Seq<char> },
    Writing,
    Done,
}

impl View for State {
    type V = StateView;

    open spec fn view(&self) -> StateView {
        match self {
            State::ReadingText { repo, commit, id } => StateView::ReadingText {
                repo: repo@,
                commit: commit@,
                id: id@,
            },
            State::FindingPullRequest { repo, tag, body } => StateView::FindingPullRequest {
                repo: repo@,
                tag: tag@,
                body: body@,
            },
            State::FindingComment { repo, number, tag, body } => StateView::FindingComment {
                repo: repo@,
                number: *number,
                tag: tag@,
                body: body@,
            },
            State::Writing => StateView::Writing,
            State::Done => StateView::Done,
        }
    }
}

/// What came back from the action that was under way.
#[derive(PartialEq, Debug)]
pub enum Event {
    /// The text of the file.
    Text(String),
    /// The pull requests that hold the commit.
    PullRequests(Vec<PullRequest>),
    /// The comments of the pull request.
    Comments(Vec<Comment>),
    /// The comment was created or updated.
    Written,
}

/// Mathematical value of an [`Event`].
pub enum EventView {
    Text(Seq<char>),
    PullRequests(Seq<PullRequestView>),
    Comments(Seq<CommentView>),
    Written,
}

impl View for Event {
    type V = EventView;

    open spec fn view(&self) -> EventView {
        match self {
            Event::Text(text) => EventView::Text(text@),
            Event::PullRequests(pull_requests) => EventView::PullRequests(
                pull_requests.deep_view(),
            ),
            Event::Comments(comments) => EventView::Comments(comments.deep_view()),
            Event::Written => EventView::Written,
        }
    }
}

/// What is to be done next. The last three actions end the run.
#[derive(PartialEq, Debug)]
pub enum Action {
    /// Read the text to post from this file; answer with `Event::Text`.
    ReadText { path: PathBuf },
    /// Ask for the pull requests that hold the commit; answer with
    /// `Event::PullRequests`.
    ListPullRequests { repo: Repository, commit: String },
    /// Ask for the comments of the pull request; answer with
    /// `Event::Comments`.
    ListComments { repo: Repository, number: u64 },
    /// Create the comment on the pull request; answer with `Event::Written`.
    CreateComment { repo: Repository, number: u64, body: String },
    /// Give the comment its new text; answer with `Event::Written`.
    UpdateComment { repo: Repository, id: u64, body: String },
    /// The comment holds the text already: end the run.
    KeepComment { id: u64 },
    /// The comment is written: end the run.
    Finish,
    /// End the run with a failure.
    Fail(Failure),
}

/// Mathematical value of an [`Action`].
pub enum ActionView {
    ReadText { path: PathBuf },
    ListPullRequests { repo: RepositoryView, commit: Seq<char> },
    ListComments { repo: RepositoryView, number: u64 },
    CreateComment { repo: RepositoryView, number: u64, body: Seq<char> },
    UpdateComment { repo: RepositoryView, id: u64, body: Seq<char> },
    KeepComment { id: u64 },
    Finish,
    Fail(Failure),
}

impl View for Action {
    type V = ActionView;

    open spec fn view(&self) -> ActionView {
        match self {
            Action::ReadText { path } => ActionView::ReadText { path: *path },
            Action::ListPullRequests { repo, commit } => ActionView::ListPullRequests {
                repo: repo@,
                commit: commit@,
            },
            Action::ListComments { repo, number } => ActionView::ListComments {
                repo: repo@,
                number: *number,
            },
            Action::CreateComment { repo, number, body } => ActionView::CreateComment {
                repo: repo@,
                number: *number,
                body: body@,
            },
            Action::UpdateComment { repo, id, body } => ActionView::UpdateComment {
                repo: repo@,
                id: *id,
                body: body@,
            },
            Action::KeepComment { id } => ActionView::KeepComment { id: *id },
            Action::Finish => ActionView::Finish,
            Action::Fail(failure) => ActionView::Fail(*failure),
        }
    }
}

impl ActionView {
    /// The action ends the run.
    pub open spec fn is_final(self) -> bool {
        self is KeepComment || self is Finish || self is Fail
    }

    /// The action writes to the pull request.
    pub open spec fn writes(self) -> bool {
        self is CreateComment || self is UpdateComment
    }
}

impl Action {
    /// Whether the action ends the run.
    pub fn is_final(&self) -> (last: bool)
        ensures
            last == self@.is_final(),
    {
        match self {
            Action::KeepComment { .. } | Action::Finish | Action::Fail(_) => true,
            _ => false,
        }
    }
}

/// How a run starts: by reading the text to post.
pub open spec fn start_spec(args: WriteCommentArgs) -> (StateView, ActionView) {
    (
        StateView::ReadingText {
            repo: RepositoryView { owner: args.owner@, name: args.repo@ },
            commit: args.commit@,
            id: args.id@,
        },
        ActionView::ReadText { path: args.text },
    )
}

/// How a run goes on when `event` comes back in `state`.
///
/// The text gives the tag and the body, and the search for the pull request
/// starts. The pull requests must hold exactly one open pull request, whose
/// comments are asked for. Among the comments at most one may start with the
/// tag; the plan for it decides whether the comment is created, updated or
/// kept. After the write the run is over. An event that does not answer the
/// action under way ends the run with a failure.
pub open spec fn step_spec(state: StateView, event: EventView) -> (StateView, ActionView) {
    match (state, event) {
        (StateView::ReadingText { repo, commit, id }, EventView::Text(text)) => (
            StateView::FindingPullRequest {
                repo,
                tag: comment_tag_spec(id),
                body: comment_body_spec(comment_tag_spec(id), text),
            },
            ActionView::ListPullRequests { repo, commit },
        ),
        (
            StateView::FindingPullRequest { repo, tag, body },
            EventView::PullRequests(pull_requests),
        ) => match find_pull_request_spec(pull_requests) {
            Ok(pull_request) => (
                StateView::FindingComment { repo, number: pull_request.number, tag, body },
                ActionView::ListComments { repo, number: pull_request.number },
            ),
            Err(error) => (StateView::Done, ActionView::Fail(Failure::Api(error))),
        },
        (
            StateView::FindingComment { repo, number, tag, body },
            EventView::Comments(comments),
        ) => match find_comment_spec(comments, tag) {
            Ok(found) => match plan_spec(found, body) {
                Plan::Create => (
                    StateView::Writing,
                    ActionView::CreateComment { repo, number, body },
                ),
                Plan::Update { id } => (
                    StateView::Writing,
                    ActionView::UpdateComment { repo, id, body },
                ),
                Plan::Keep { id } => (StateView::Done, ActionView::KeepComment { id }),
            },
            Err(error) => (StateView::Done, ActionView::Fail(Failure::Api(error))),
        },
        (StateView::Writing, EventView::Written) => (StateView::Done, ActionView::Finish),
        _ => (StateView::Done, ActionView::Fail(Failure::OutOfTurn)),
    }
}

/// Starts a run that posts the comment which `args` describe.
pub fn start(args: WriteCommentArgs) -> (first: (State, Action))
    ensures
        (first.0@, first.1@) == start_spec(args),
{
    let WriteCommentArgs { owner, repo, commit, id, text } = args;
    (
        State::ReadingText { repo: Repository { owner, name: repo }, commit, id },
        Action::ReadText { path: text },
    )
}

/// Takes the answer to the action under way and says what to do next.
pub fn step(state: State, event: Event) -> (next: (State, Action))
    ensures
        (next.0@, next.1@) == step_spec(state@, event@),
{
    match state {
        State::ReadingText { repo, commit, id } => match event {
            Event::Text(text) => {
                let tag = comment_tag(id.as_str());
                let body = comment_body(tag.as_str(), text.as_str());
                let target = repo.clone();
                (
                    State::FindingPullRequest { repo, tag, body },
                    Action::ListPullRequests { repo: target, commit },
                )
            },
            _ => (State::Done, Action::Fail(Failure::OutOfTurn)),
        },
        State::FindingPullRequest { repo, tag, body } => match event {
            Event::PullRequests(pull_requests) => match find_pull_request(&pull_requests) {
                Ok(pull_request) => {
                    let number = pull_request.number;
                    let target = repo.clone();
                    (
                        State::FindingComment { repo, number, tag, body },
                        Action::ListComments { repo: target, number },
                    )
                },
                Err(error) => (State::Done, Action::Fail(Failure::Api(error))),
            },
            _ => (State::Done, Action::Fail(Failure::OutOfTurn)),
        },
        State::FindingComment { repo, number, tag, body } => match event {
            Event::Comments(comments) => match find_comment(&comments, tag.as_str()) {
                Ok(found) => match plan(found, &body) {
                    Plan::Create => (State::Writing, Action::CreateComment { repo, number, body }),
                    Plan::Update { id } => (
                        State::Writing,
                        Action::UpdateComment { repo, id, body },
                    ),
                    Plan::Keep { id } => (State::Done, Action::KeepComment { id }),
                },
                Err(error) => (State::Done, Action::Fail(Failure::Api(error))),
            },
            _ => (State::Done, Action::Fail(Failure::OutOfTurn)),
        },
        State::Writing => match event {
            Event::Written => (State::Done, Action::Finish),
            _ => (State::Done, Action::Fail(Failure::OutOfTurn)),
        },
        State::Done => (State::Done, Action::Fail(Failure::OutOfTurn)),
    }
}

impl StateView {
    /// How many answers the run may still take.
    pub open spec fn steps_left(self) -> nat {
        match self {
            StateView::ReadingText { .. } => 4,
            StateView::FindingPullRequest { .. } => 3,
            StateView::FindingComment { .. } => 2,
            StateView::Writing => 1,
            StateView::Done => 0,
        }
    }
}

/// Every answer brings the run nearer to its end, and the run is over
/// exactly when the action ends it: a run takes four answers at most.
pub proof fn law_run_ends(state: StateView, event: EventView)
    ensures
        step_spec(state, event).1.is_final() <==> step_spec(state, event).0 is Done,
        !(state is Done) ==> step_spec(state, event).0.steps_left() < state.steps_left(),
        state is Done ==> step_spec(state, event) == (
            StateView::Done,
            ActionView::Fail(Failure::OutOfTurn),
        ),
{
}

/// A run writes once at most: whatever comes back after a write, the next
/// action ends the run and writes nothing.
pub proof fn law_one_write_at_most(state: StateView, event: EventView, later: EventView)
    requires
        step_spec(state, event).1.writes(),
    ensures
        step_spec(step_spec(state, event).0, later).1.is_final(),
        !step_spec(step_spec(state, event).0, later).1.writes(),
{
}

/// A run writes only after it has looked for the comment: every write is the
/// answer to the comments of the pull request, and goes to the pull request
/// that was found, or to the comment that was found on it.
pub proof fn law_write_follows_the_search(state: StateView, event: EventView)
    requires
        step_spec(state, event).1.writes(),
    ensures
        state matches StateView::FindingComment { repo, number, tag, body }
            && event matches EventView::Comments(comments) && find_comment_spec(comments, tag)
            matches Ok(found) && (match found {
            None => step_spec(state, event).1 == (ActionView::CreateComment {
                repo,
                number,
                body,
            }),
            Some(comment) => comment.body != Some(body) && step_spec(state, event).1 == (
                ActionView::UpdateComment { repo, id: comment.id, body }
            ),
        }),
{
}

/// Posting the same text again writes nothing: where the one comment that
/// starts with the tag holds the body already, the run ends by keeping it.
pub proof fn law_same_text_is_kept(
    repo: RepositoryView,
    number: u64,
    tag: Seq<char>,
    body: Seq<char>,
    comments: Seq<CommentView>,
    at: int,
)
    requires
        0 <= at < comments.len(),
        comments[at].body == Some(body),
        tag.is_prefix_of(body),
        forall|i: int| 0 <= i < comments.len() && i != at ==> !starts_with(comments[i], tag),
    ensures
        step_spec(
            StateView::FindingComment { repo, number, tag, body },
            EventView::Comments(comments),
        ) == (StateView::Done, ActionView::KeepComment { id: comments[at].id }),
{
    law_the_matching_comment_is_found(comments, tag, at);
}

/// The text of a comment starts with its tag.
pub proof fn law_body_starts_with_tag(tag: Seq<char>, text: Seq<char>)
    ensures
        tag.is_prefix_of(comment_body_spec(tag, text)),
{
}

/// Writing the same text again changes nothing: a comment that holds the
/// text of this tag is found by the tag, where no other comment starts with
/// it, and the plan is to keep it.
pub proof fn law_second_write_keeps(
    comments: Seq<CommentView>,
    at: int,
    tag: Seq<char>,
    text: Seq<char>,
)
    requires
        0 <= at < comments.len(),
        comments[at].body == Some(comment_body_spec(tag, text)),
        forall|i: int| 0 <= i < comments.len() && i != at ==> !starts_with(comments[i], tag),
    ensures
        find_comment_spec(comments, tag) == Ok::<Option<CommentView>, ApiError>(
            Some(comments[at]),
        ),
        plan_spec(Some(comments[at]), comment_body_spec(tag, text)) == (Plan::Keep {
            id: comments[at].id,
        }),
{
    law_body_starts_with_tag(tag, text);
    law_the_matching_comment_is_found(comments, tag, at);
}

} // verus!
