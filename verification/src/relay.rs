//! From a webhook document to the pipelines to trigger: the decision about
//! an event, the requests for its commands, and the run that sends them.

use crate::api::{PullRequest, PullRequestView};
use crate::args::TriggerWebhookCommandsArgs;
use crate::guard::{guard, guard_spec, is_privileged, Guard};
use crate::webhook::{
    law_missing_author_association_fails, parse, parse_spec, text_fields, ParseError, Repository,
    RepositoryView, Webhook, WebhookView,
};
use crate::webhook_command_utils::{
    extract_commands_spec, parse_commands, BotCommand, BotCommandView,
};
use std::path::PathBuf;
use vstd::prelude::*;

verus! {

/// Why an event triggers nothing.
#[derive(Clone, Copy, PartialEq, Eq, Debug, Structural)]
pub enum Reason {
    /// The author is one of the bots.
    SelfTrigger,
    /// The comment was deleted.
    Deleted,
    /// The author is neither owner nor collaborator.
    Denied,
    /// The comment holds no command for any of the bots.
    NoCommands,
}

impl Reason {
    /// Only a denial is a failure; the other reasons end the run in peace.
    pub open spec fn is_failure_spec(self) -> bool {
        self == Reason::Denied
    }

    /// Whether the program is to end with a failure for this reason.
    pub fn is_failure(&self) -> (failure: bool)
        ensures
            failure == self.is_failure_spec(),
    {
        match self {
            Reason::Denied => true,
            _ => false,
        }
    }
}

/// What to do about an event.
#[derive(PartialEq, Debug)]
pub enum Decision {
    /// Send nothing.
    Stop(Reason),
    /// Send these commands, one request each, in this order.
    Relay(Vec<BotCommand>),
}

/// Mathematical value of a [`Decision`].
pub enum DecisionView {
    Stop(Reason),
    Relay(Seq<BotCommandView>),
}

impl View for Decision {
    type V = DecisionView;

    open spec fn view(&self) -> DecisionView {
        match self {
            Decision::Stop(reason) => DecisionView::Stop(*reason),
            Decision::Relay(commands) => DecisionView::Relay(commands.deep_view()),
        }
    }
}

/// The decision for an event: the guard that stops it, or the lack of
/// commands, or else the commands of its comment.
pub open spec fn decide_spec(webhook: WebhookView, bots: Seq<Seq<char>>) -> DecisionView {
    match guard_spec(webhook, bots) {
        Guard::SelfTrigger => DecisionView::Stop(Reason::SelfTrigger),
        Guard::Deleted => DecisionView::Stop(Reason::Deleted),
        Guard::Denied => DecisionView::Stop(Reason::Denied),
        Guard::Pass => if extract_commands_spec(webhook, bots).len() == 0 {
            DecisionView::Stop(Reason::NoCommands)
        } else {
            DecisionView::Relay(extract_commands_spec(webhook, bots))
        },
    }
}

/// Decides what to do about an event.
///
/// Commands are relayed only where the guards let the event pass and its
/// comment holds at least one command for `bots`.
pub fn decide(webhook: &Webhook, bots: &Vec<String>) -> (decision: Decision)
    ensures
        decision@ == decide_spec(webhook@, bots.deep_view()),
        decision@ matches DecisionView::Relay(commands) ==> commands.len() > 0 && commands
            == extract_commands_spec(webhook@, bots.deep_view()),
        decision@ is Stop ==> extract_commands_spec(webhook@, bots.deep_view()).len() == 0,
{
    match guard(webhook, bots) {
        Guard::SelfTrigger => Decision::Stop(Reason::SelfTrigger),
        Guard::Deleted => Decision::Stop(Reason::Deleted),
        Guard::Denied => Decision::Stop(Reason::Denied),
        Guard::Pass => {
            let commands = parse_commands(webhook.comment.as_str(), bots);
            if commands.len() == 0 {
                Decision::Stop(Reason::NoCommands)
            } else {
                Decision::Relay(commands)
            }
        },
    }
}

/// The decision for a document, where the document gives an event.
pub open spec fn read_commands_spec(document: Seq<u8>, bots: Seq<Seq<char>>) -> Result<
    DecisionView,
    ParseError,
> {
    match parse_spec(document) {
        Ok(webhook) => Ok(decide_spec(webhook, bots)),
        Err(error) => Err(error),
    }
}

/// Parses a webhook document and decides what to do about its event.
///
/// A document that gives no event gives no decision either: the error of the
/// parser is returned as it is, and nothing is extracted.
pub fn read_commands(document: &[u8], bots: &Vec<String>) -> (outcome: Result<
    (Webhook, Decision),
    ParseError,
>)
    ensures
        match outcome {
            Ok((webhook, decision)) => parse_spec(document@) == Ok::<WebhookView, ParseError>(
                webhook@,
            ) && decision@ == decide_spec(webhook@, bots.deep_view()),
            Err(error) => parse_spec(document@) == Err::<WebhookView, ParseError>(error),
        },
{
    match parse(document) {
        Ok(webhook) => {
            let decision = decide(&webhook, bots);
            Ok((webhook, decision))
        },
        Err(error) => Err(error),
    }
}

/// A document without a string at `comment.author_association` never reaches
/// the extraction: it gives an error, which names a field, and no decision.
pub proof fn law_missing_author_association_gives_no_decision(
    document: Seq<u8>,
    bots: Seq<Seq<char>>,
)
    requires
        vstd::utf8::valid_utf8(document),
        text_fields(vstd::utf8::decode_utf8(document)) matches Some(fields)
            && fields.author_association is None,
    ensures
        read_commands_spec(document, bots) is Err,
        read_commands_spec(document, bots)->Err_0.names_field(),
{
    law_missing_author_association_fails(vstd::utf8::decode_utf8(document));
}

/// A decision to relay is made only for events that pass every guard: the
/// author is none of the bots, the comment is not deleted, and the author is
/// owner or collaborator.
pub proof fn law_relay_needs_every_guard(webhook: WebhookView, bots: Seq<Seq<char>>)
    requires
        decide_spec(webhook, bots) is Relay,
    ensures
        !bots.contains(webhook.author),
        webhook.action != "deleted"@,
        is_privileged(webhook.author_association),
{
}

/// The text that reports a denial; it names the association that was turned
/// away.
pub open spec fn denial_message_spec(association: Seq<char>) -> Seq<char> {
    "Commenter does not have sufficient rights: "@ + association
}

/// Writes the message that turns `association` away.
fn denial_text(association: &str) -> (message: String)
    ensures
        message@ == denial_message_spec(association@),
{
    String::from_str("Commenter does not have sufficient rights: ").concat(association)
}

/// Writes the message for an event whose author may not give commands.
pub fn denial_message(webhook: &Webhook) -> (message: String)
    ensures
        message@ == denial_message_spec(webhook@.author_association),
{
    denial_text(webhook.author_association.as_str())
}

/// One request to the pipeline trigger.
#[derive(PartialEq, Debug)]
pub struct RelayRequest {
    /// Branch of the pull request that the comment belongs to.
    pub branch: String,
    /// The command to run.
    pub command: String,
    /// The arguments of the command.
    pub args: String,
    /// Identifier of the comment that gave the command.
    pub comment_id: String,
}

/// Mathematical value of a [`RelayRequest`].
pub struct RelayRequestView {
    pub branch: Seq<char>,
    pub command: Seq<char>,
    pub args: Seq<char>,
    pub comment_id: Seq<char>,
}

impl View for RelayRequest {
    type V = RelayRequestView;

    open spec fn view(&self) -> RelayRequestView {
        RelayRequestView {
            branch: self.branch@,
            command: self.command@,
            args: self.args@,
            comment_id: self.comment_id@,
        }
    }
}

impl DeepView for RelayRequest {
    type V = RelayRequestView;

    open spec fn deep_view(&self) -> RelayRequestView {
        self@
    }
}

impl Clone for RelayRequest {
    fn clone(&self) -> (copy: Self)
        ensures
            copy@ == self@,
    {
        RelayRequest {
            branch: self.branch.clone(),
            command: self.command.clone(),
            args: self.args.clone(),
            comment_id: self.comment_id.clone(),
        }
    }
}

/// The request for one command.
pub open spec fn relay_request_spec(
    branch: Seq<char>,
    comment_id: Seq<char>,
    command: BotCommandView,
) -> RelayRequestView {
    RelayRequestView { branch, command: command.command, args: command.args, comment_id }
}

/// The requests for the commands of an event: one for each command, in the
/// order of the commands.
pub open spec fn relay_requests_spec(
    branch: Seq<char>,
    comment_id: Seq<char>,
    commands: Seq<BotCommandView>,
) -> Seq<RelayRequestView> {
    Seq::new(commands.len(), |i: int| relay_request_spec(branch, comment_id, commands[i]))
}

/// Prepares the requests that relay `commands`, which the comment of
/// `webhook` gave, for the pull request with the branch `branch`.
///
/// There is one request per command, and the requests stand in the order of
/// the commands.
pub fn relay_requests(webhook: &Webhook, branch: &str, commands: &Vec<BotCommand>) -> (requests:
    Vec<RelayRequest>)
    ensures
        requests.deep_view() == relay_requests_spec(
            branch@,
            webhook@.comment_id,
            commands.deep_view(),
        ),
        requests@.len() == commands@.len(),
{
    let ghost wanted = relay_requests_spec(branch@, webhook@.comment_id, commands.deep_view());
    let mut requests: Vec<RelayRequest> = Vec::new();
    let mut i: usize = 0;
    while i < commands.len()
        invariant
            i <= commands.len(),
            wanted == relay_requests_spec(branch@, webhook@.comment_id, commands.deep_view()),
            requests.deep_view() == wanted.take(i as int),
            requests@.len() == i,
        decreases commands.len() - i,
    {
        let command = &commands[i];
        requests.push(
            RelayRequest {
                branch: String::from_str(branch),
                command: command.command.clone(),
                args: command.args.clone(),
                comment_id: webhook.comment_id.clone(),
            },
        );
        i += 1;
    }
    requests
}

/// The pipeline trigger that the requests go to.
#[derive(PartialEq, Debug)]
pub struct Pipeline {
    /// The GitLab instance that runs the pipelines.
    pub gl_instance: String,
    /// The token that lets the requests in.
    pub job_token: String,
}

/// Mathematical value of a [`Pipeline`].
pub struct PipelineView {
    pub gl_instance: Seq<char>,
    pub job_token: Seq<char>,
}

impl View for Pipeline {
    type V = PipelineView;

    open spec fn view(&self) -> PipelineView {
        PipelineView { gl_instance: self.gl_instance@, job_token: self.job_token@ }
    }
}

impl Clone for Pipeline {
    fn clone(&self) -> (copy: Self)
        ensures
            copy@ == self@,
    {
        Pipeline { gl_instance: self.gl_instance.clone(), job_token: self.job_token.clone() }
    }
}

/// Why a run ends in failure.
#[derive(PartialEq, Debug)]
pub enum Failure {
    /// The document gives no event.
    Parse(ParseError),
    /// The author, who has this association, may not give commands.
    Denied(String),
    /// The event is not the answer to the action that is under way.
    OutOfTurn,
}

/// Mathematical value of a [`Failure`].
pub enum FailureView {
    Parse(ParseError),
    Denied(Seq<char>),
    OutOfTurn,
}

impl View for Failure {
    type V = FailureView;

    open spec fn view(&self) -> FailureView {
        match self {
            Failure::Parse(error) => FailureView::Parse(*error),
            Failure::Denied(association) => FailureView::Denied(association@),
            Failure::OutOfTurn => FailureView::OutOfTurn,
        }
    }
}

impl FailureView {
    /// The text that reports the failure.
    pub open spec fn message_spec(self) -> Seq<char> {
        match self {
            FailureView::Parse(error) => error.message_spec(),
            FailureView::Denied(association) => denial_message_spec(association),
            FailureView::OutOfTurn => "the event does not answer the action under way"@,
        }
    }
}

impl Failure {
    /// A message for people. For a denial it names the association that was
    /// turned away, for a document that gives no event the field at fault.
    pub fn message(&self) -> (text: String)
        ensures
            text@ == self@.message_spec(),
    {
        match self {
            Failure::Parse(error) => error.message(),
            Failure::Denied(association) => denial_text(association.as_str()),
            Failure::OutOfTurn => String::from_str(
                "the event does not answer the action under way",
            ),
        }
    }
}

/// Where a run stands: what it waits for, and what it keeps for later.
#[derive(PartialEq, Debug)]
pub enum State {
    /// Waiting for the webhook document.
    ReadingWebhook { pipeline: Pipeline, bots: Vec<String> },
    /// Waiting for the pull request that the comment belongs to.
    FindingBranch { pipeline: Pipeline, webhook: Webhook, commands: Vec<BotCommand> },
    /// Waiting for the answer to the request at `sent`; the requests before
    /// it are answered, those after it are still to go.
    Relaying { pipeline: Pipeline, repo: Repository, requests: Vec<RelayRequest>, sent: usize },
    /// The run is over.
    Done,
}

/// Mathematical value of a [`State`].
pub enum StateView {
    ReadingWebhook { pipeline: PipelineView, bots: Seq<Seq<char>> },
    FindingBranch { pipeline: PipelineView, webhook: WebhookView, commands: Seq<BotCommandView> },
    Relaying {
        pipeline: PipelineView,
        repo: RepositoryView,
        requests: Seq<RelayRequestView>,
        sent: nat,
    },
    Done,
}

impl View for State {
    type V = StateView;

    open spec fn view(&self) -> StateView {
        match self {
            State::ReadingWebhook { pipeline, bots } => StateView::ReadingWebhook {
                pipeline: pipeline@,
                bots: bots.deep_view(),
            },
            State::FindingBranch { pipeline, webhook, commands } => StateView::FindingBranch {
                pipeline: pipeline@,
                webhook: webhook@,
                commands: commands.deep_view(),
            },
            State::Relaying { pipeline, repo, requests, sent } => StateView::Relaying {
                pipeline: pipeline@,
                repo: repo@,
                requests: requests.deep_view(),
                sent: *sent as nat,
            },
            State::Done => StateView::Done,
        }
    }
}

/// What came back from the action that was under way.
#[derive(PartialEq, Debug)]
pub enum Event {
    /// The bytes of the webhook document.
    Document(Vec<u8>),
    /// The pull request that the comment belongs to.
    PullRequest(PullRequest),
    /// The pipeline trigger has answered the request.
    Response,
}

/// Mathematical value of an [`Event`].
pub enum EventView {
    Document(Seq<u8>),
    PullRequest(PullRequestView),
    Response,
}

impl View for Event {
    type V = EventView;

    open spec fn view(&self) -> EventView {
        match self {
            Event::Document(document) => EventView::Document(document@),
            Event::PullRequest(pull_request) => EventView::PullRequest(pull_request@),
            Event::Response => EventView::Response,
        }
    }
}

/// What is to be done next. The last three actions end the run.
#[derive(PartialEq, Debug)]
pub enum Action {
    /// Read the webhook document from this file; answer with
    /// `Event::Document`.
    ReadWebhook { path: PathBuf },
    /// Ask for the pull request with this number; answer with
    /// `Event::PullRequest`.
    GetPullRequest { repo: Repository, number: u64 },
    /// Send the request to the pipeline trigger; answer with
    /// `Event::Response`.
    TriggerPipeline { pipeline: Pipeline, repo: Repository, request: RelayRequest },
    /// There is nothing to relay, for a reason that is no failure: end the
    /// run.
    Stop(Reason),
    /// Every request is answered: end the run.
    Finish,
    /// End the run with a failure.
    Fail(Failure),
}

/// Mathematical value of an [`Action`].
pub enum ActionView {
    ReadWebhook { path: PathBuf },
    GetPullRequest { repo: RepositoryView, number: u64 },
    TriggerPipeline { pipeline: PipelineView, repo: RepositoryView, request: RelayRequestView },
    Stop(Reason),
    Finish,
    Fail(FailureView),
}

impl View for Action {
    type V = ActionView;

    open spec fn view(&self) -> ActionView {
        match self {
            Action::ReadWebhook { path } => ActionView::ReadWebhook { path: *path },
            Action::GetPullRequest { repo, number } => ActionView::GetPullRequest {
                repo: repo@,
                number: *number,
            },
            Action::TriggerPipeline { pipeline, repo, request } => ActionView::TriggerPipeline {
                pipeline: pipeline@,
                repo: repo@,
                request: request@,
            },
            Action::Stop(reason) => ActionView::Stop(*reason),
            Action::Finish => ActionView::Finish,
            Action::Fail(failure) => ActionView::Fail(failure@),
        }
    }
}

impl ActionView {
    /// The action ends the run.
    pub open spec fn is_final(self) -> bool {
        self is Stop || self is Finish || self is Fail
    }
}

impl Action {
    /// Whether the action ends the run.
    pub fn is_final(&self) -> (last: bool)
        ensures
            last == self@.is_final(),
    {
        match self {
            Action::Stop(_) | Action::Finish | Action::Fail(_) => true,
            _ => false,
        }
    }
}

/// How a run starts: by reading the webhook document.
pub open spec fn start_spec(args: TriggerWebhookCommandsArgs) -> (StateView, ActionView) {
    (
        StateView::ReadingWebhook {
            pipeline: PipelineView { gl_instance: args.gl_instance@, job_token: args.job_token@ },
            bots: args.bot.deep_view(),
        },
        ActionView::ReadWebhook { path: args.webhook },
    )
}

/// What the run does about the event of the document.
pub open spec fn on_event(
    pipeline: PipelineView,
    webhook: WebhookView,
    bots: Seq<Seq<char>>,
) -> (StateView, ActionView) {
    match decide_spec(webhook, bots) {
        DecisionView::Stop(reason) => if reason.is_failure_spec() {
            (
                StateView::Done,
                ActionView::Fail(FailureView::Denied(webhook.author_association)),
            )
        } else {
            (StateView::Done, ActionView::Stop(reason))
        },
        DecisionView::Relay(commands) => (
            StateView::FindingBranch { pipeline, webhook, commands },
            ActionView::GetPullRequest { repo: webhook.repo, number: webhook.issue_number },
        ),
    }
}

/// The request at `at` goes out, or the run is over where there is none.
pub open spec fn send(
    pipeline: PipelineView,
    repo: RepositoryView,
    requests: Seq<RelayRequestView>,
    at: nat,
) -> (StateView, ActionView) {
    if at < requests.len() {
        (
            StateView::Relaying { pipeline, repo, requests, sent: at },
            ActionView::TriggerPipeline { pipeline, repo, request: requests[at as int] },
        )
    } else {
        (StateView::Done, ActionView::Finish)
    }
}

/// How a run goes on when `event` comes back in `state`.
///
/// The document is parsed and its event decided on: a document that gives no
/// event and an author without the rights end the run in failure, an event
/// with nothing to relay ends it in peace. Otherwise the pull request of the
/// comment is asked for, and its branch goes into the requests, one for each
/// command. The requests go out one at a time in the order of the commands,
/// each after the answer to the one before. An event that does not answer
/// the action under way ends the run with a failure.
pub open spec fn step_spec(state: StateView, event: EventView) -> (StateView, ActionView) {
    match (state, event) {
        (StateView::ReadingWebhook { pipeline, bots }, EventView::Document(document)) => {
            match parse_spec(document) {
                Ok(webhook) => on_event(pipeline, webhook, bots),
                Err(error) => (StateView::Done, ActionView::Fail(FailureView::Parse(error))),
            }
        },
        (
            StateView::FindingBranch { pipeline, webhook, commands },
            EventView::PullRequest(pull_request),
        ) => send(
            pipeline,
            webhook.repo,
            relay_requests_spec(pull_request.branch, webhook.comment_id, commands),
            0,
        ),
        (StateView::Relaying { pipeline, repo, requests, sent }, EventView::Response) => send(
            pipeline,
            repo,
            requests,
            sent + 1,
        ),
        _ => (StateView::Done, ActionView::Fail(FailureView::OutOfTurn)),
    }
}

/// Starts a run that relays the commands of the webhook which `args`
/// describe.
pub fn start(args: TriggerWebhookCommandsArgs) -> (first: (State, Action))
    ensures
        (first.0@, first.1@) == start_spec(args),
{
    let TriggerWebhookCommandsArgs { webhook, gl_instance, job_token, bot } = args;
    (
        State::ReadingWebhook { pipeline: Pipeline { gl_instance, job_token }, bots: bot },
        Action::ReadWebhook { path: webhook },
    )
}

/// Sends the request at `at`, or ends the run where there is none.
fn send_next(pipeline: Pipeline, repo: Repository, requests: Vec<RelayRequest>, at: usize) -> (next:
    (State, Action))
    ensures
        (next.0@, next.1@) == send(pipeline@, repo@, requests.deep_view(), at as nat),
{
    if at < requests.len() {
        let action = Action::TriggerPipeline {
            pipeline: pipeline.clone(),
            repo: repo.clone(),
            request: requests[at].clone(),
        };
        assert(requests.deep_view()[at as int] == requests@[at as int]@);
        (State::Relaying { pipeline, repo, requests, sent: at }, action)
    } else {
        (State::Done, Action::Finish)
    }
}

/// Takes the answer to the action under way and says what to do next.
pub fn step(state: State, event: Event) -> (next: (State, Action))
    ensures
        (next.0@, next.1@) == step_spec(state@, event@),
{
    match state {
        State::ReadingWebhook { pipeline, bots } => match event {
            Event::Document(document) => match read_commands(document.as_slice(), &bots) {
                Ok((webhook, Decision::Relay(commands))) => {
                    let action = Action::GetPullRequest {
                        repo: webhook.repo.clone(),
                        number: webhook.issue_number,
                    };
                    (State::FindingBranch { pipeline, webhook, commands }, action)
                },
                Ok((webhook, Decision::Stop(reason))) => if reason.is_failure() {
                    (State::Done, Action::Fail(Failure::Denied(webhook.author_association)))
                } else {
                    (State::Done, Action::Stop(reason))
                },
                Err(error) => (State::Done, Action::Fail(Failure::Parse(error))),
            },
            _ => (State::Done, Action::Fail(Failure::OutOfTurn)),
        },
        State::FindingBranch { pipeline, webhook, commands } => match event {
            Event::PullRequest(pull_request) => {
                let requests = relay_requests(&webhook, pull_request.branch.as_str(), &commands);
                send_next(pipeline, webhook.repo, requests, 0)
            },
            _ => (State::Done, Action::Fail(Failure::OutOfTurn)),
        },
        State::Relaying { pipeline, repo, requests, sent } => match event {
            Event::Response => if sent < requests.len() {
                send_next(pipeline, repo, requests, sent + 1)
            } else {
                (State::Done, Action::Finish)
            },
            _ => (State::Done, Action::Fail(Failure::OutOfTurn)),
        },
        State::Done => (State::Done, Action::Fail(Failure::OutOfTurn)),
    }
}

/// The state of a run after `responses` answers of the pipeline trigger.
pub open spec fn after(state: StateView, responses: nat) -> StateView
    decreases responses,
{
    if responses == 0 {
        state
    } else {
        step_spec(after(state, (responses - 1) as nat), EventView::Response).0
    }
}

/// The requests go out in their order, one at a time: once the first
/// request is out, `answered` answers later the request at `answered` is
/// the one under way, and its answer sends the next one out, or ends the run
/// where it was the last.
pub proof fn law_requests_go_out_in_order(
    pipeline: PipelineView,
    repo: RepositoryView,
    requests: Seq<RelayRequestView>,
    answered: nat,
)
    requires
        answered < requests.len(),
    ensures
        after(send(pipeline, repo, requests, 0).0, answered) == (StateView::Relaying {
            pipeline,
            repo,
            requests,
            sent: answered,
        }),
        step_spec(after(send(pipeline, repo, requests, 0).0, answered), EventView::Response)
            == send(pipeline, repo, requests, answered + 1),
        answered + 1 < requests.len() ==> step_spec(
            after(send(pipeline, repo, requests, 0).0, answered),
            EventView::Response,
        ).1 == (ActionView::TriggerPipeline {
            pipeline,
            repo,
            request: requests[answered as int + 1],
        }),
        answered + 1 == requests.len() ==> step_spec(
            after(send(pipeline, repo, requests, 0).0, answered),
            EventView::Response,
        ) == (StateView::Done, ActionView::Finish),
    decreases answered,
{
    if answered > 0 {
        law_requests_go_out_in_order(pipeline, repo, requests, (answered - 1) as nat);
    }
}

/// The requests of a run are those of the commands of the event, with the
/// branch of its pull request: once the pull request is known, the first of
/// them goes out.
pub proof fn law_commands_become_requests(
    pipeline: PipelineView,
    webhook: WebhookView,
    commands: Seq<BotCommandView>,
    pull_request: PullRequestView,
)
    requires
        commands.len() > 0,
    ensures
        step_spec(
            StateView::FindingBranch { pipeline, webhook, commands },
            EventView::PullRequest(pull_request),
        ) == send(
            pipeline,
            webhook.repo,
            relay_requests_spec(pull_request.branch, webhook.comment_id, commands),
            0,
        ),
        relay_requests_spec(pull_request.branch, webhook.comment_id, commands).len()
            == commands.len(),
        step_spec(
            StateView::FindingBranch { pipeline, webhook, commands },
            EventView::PullRequest(pull_request),
        ).1 == (ActionView::TriggerPipeline {
            pipeline,
            repo: webhook.repo,
            request: relay_request_spec(pull_request.branch, webhook.comment_id, commands[0]),
        }),
{
}

/// Nothing is asked of GitHub or sent to the pipeline trigger for an event
/// that a guard stops: the run goes on after the document only where the
/// document gives an event, the event passes every guard, and its comment
/// holds a command. The commands that it keeps are those of the extraction.
pub proof fn law_only_permitted_events_go_on(
    pipeline: PipelineView,
    bots: Seq<Seq<char>>,
    document: Seq<u8>,
)
    ensures
        ({
            let next = step_spec(
                StateView::ReadingWebhook { pipeline, bots },
                EventView::Document(document),
            );
            let webhook = parse_spec(document)->Ok_0;
            &&& next.1.is_final() <==> next.0 is Done
            &&& !next.1.is_final() ==> {
                &&& parse_spec(document) is Ok
                &&& guard_spec(webhook, bots) is Pass
                &&& extract_commands_spec(webhook, bots).len() > 0
                &&& next.0 == (StateView::FindingBranch {
                    pipeline,
                    webhook,
                    commands: extract_commands_spec(webhook, bots),
                })
                &&& next.1 == (ActionView::GetPullRequest {
                    repo: webhook.repo,
                    number: webhook.issue_number,
                })
            }
        }),
{
}

/// An author without the rights ends the run in failure, and the failure
/// names the association that was turned away.
pub proof fn law_denied_author_fails(
    pipeline: PipelineView,
    bots: Seq<Seq<char>>,
    document: Seq<u8>,
)
    requires
        parse_spec(document) matches Ok(webhook) && guard_spec(webhook, bots) is Denied,
    ensures
        step_spec(StateView::ReadingWebhook { pipeline, bots }, EventView::Document(document))
            == (
            StateView::Done,
            ActionView::Fail(FailureView::Denied(parse_spec(document)->Ok_0.author_association)),
        ),
{
}

/// A run is over exactly when its action ends it, and a run that is over
/// stays so.
pub proof fn law_run_ends(state: StateView, event: EventView)
    ensures
        step_spec(state, event).1.is_final() <==> step_spec(state, event).0 is Done,
        state is Done ==> step_spec(state, event) == (
            StateView::Done,
            ActionView::Fail(FailureView::OutOfTurn),
        ),
{
}

} // verus!
