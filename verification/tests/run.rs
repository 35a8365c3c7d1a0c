use std::path::PathBuf;

use github_comment::api::{ApiError, Comment, PullRequest};
use github_comment::args::{Args, Subcommands, TriggerWebhookCommandsArgs, WriteCommentArgs};
use github_comment::run::{start, Run};
use github_comment::relay::{Pipeline, Reason, RelayRequest};
use github_comment::webhook::{ParseError, Repository};
use github_comment::{comment, relay};

fn write_args() -> WriteCommentArgs {
    WriteCommentArgs {
        owner: "namespace".to_string(),
        repo: "reponame".to_string(),
        commit: "0123abc".to_string(),
        id: "ci".to_string(),
        text: PathBuf::from("report.md"),
    }
}

fn trigger_args(bots: &[&str]) -> TriggerWebhookCommandsArgs {
    TriggerWebhookCommandsArgs {
        webhook: PathBuf::from("event.json"),
        gl_instance: "gitlab.example.com".to_string(),
        job_token: "SECRET-REDACTED".to_string(),
        bot: bots.iter().map(|name| name.to_string()).collect(),
    }
}

fn repo() -> Repository {
    Repository {
        owner: "namespace".to_string(),
        name: "reponame".to_string(),
    }
}

fn pipeline() -> Pipeline {
    Pipeline {
        gl_instance: "gitlab.example.com".to_string(),
        job_token: "SECRET-REDACTED".to_string(),
    }
}

fn pull_request(number: u64, open: bool) -> PullRequest {
    PullRequest {
        number,
        open,
        branch: format!("branch-{}", number),
    }
}

fn comment_with(id: u64, body: &str) -> Comment {
    Comment {
        id,
        body: Some(body.to_string()),
    }
}

fn document(action: &str, author: &str, association: &str, body: &str) -> Vec<u8> {
    format!(
        r#"{{"action":"{}","comment":{{"body":"{}","id":77,"author_association":"{}","user":{{"login":"{}"}}}},"issue":{{"number":5}},"repository":{{"full_name":"namespace/reponame"}}}}"#,
        action, body, association, author
    )
    .into_bytes()
}

const BODY: &str = "<!-- github-comment: ci -->\nall green";

fn until_comments(fetched: Vec<PullRequest>) -> (comment::State, comment::Action) {
    let (state, action) = comment::start(write_args());
    assert_eq!(
        action,
        comment::Action::ReadText {
            path: PathBuf::from("report.md")
        }
    );
    let (state, action) = comment::step(state, comment::Event::Text("all green".to_string()));
    assert_eq!(
        action,
        comment::Action::ListPullRequests {
            repo: repo(),
            commit: "0123abc".to_string()
        }
    );
    comment::step(state, comment::Event::PullRequests(fetched))
}

fn found_pull_request() -> comment::State {
    let (state, action) = until_comments(vec![pull_request(4, false), pull_request(9, true)]);
    assert_eq!(
        action,
        comment::Action::ListComments {
            repo: repo(),
            number: 9
        }
    );
    state
}

#[test]
fn write_run_creates_the_comment_where_there_is_none() {
    let state = found_pull_request();
    let (state, action) = comment::step(
        state,
        comment::Event::Comments(vec![comment_with(1, "unrelated")]),
    );
    assert_eq!(state, comment::State::Writing);
    assert_eq!(
        action,
        comment::Action::CreateComment {
            repo: repo(),
            number: 9,
            body: BODY.to_string()
        }
    );
    assert!(!action.is_final());
    let (state, action) = comment::step(state, comment::Event::Written);
    assert_eq!(state, comment::State::Done);
    assert_eq!(action, comment::Action::Finish);
    assert!(action.is_final());
}

#[test]
fn write_run_updates_the_comment_with_another_text() {
    let state = found_pull_request();
    let (state, action) = comment::step(
        state,
        comment::Event::Comments(vec![
            comment_with(1, "unrelated"),
            comment_with(2, "<!-- github-comment: ci -->\nall red"),
        ]),
    );
    assert_eq!(state, comment::State::Writing);
    assert_eq!(
        action,
        comment::Action::UpdateComment {
            repo: repo(),
            id: 2,
            body: BODY.to_string()
        }
    );
    let (state, action) = comment::step(state, comment::Event::Written);
    assert_eq!((state, action), (comment::State::Done, comment::Action::Finish));
}

#[test]
fn write_run_keeps_the_comment_with_the_same_text() {
    let state = found_pull_request();
    let (state, action) = comment::step(
        state,
        comment::Event::Comments(vec![comment_with(2, BODY), comment_with(3, "later")]),
    );
    assert_eq!(state, comment::State::Done);
    assert_eq!(action, comment::Action::KeepComment { id: 2 });
    assert!(action.is_final());
}

#[test]
fn write_run_fails_without_a_single_open_pull_request() {
    let (state, action) = until_comments(vec![pull_request(4, false)]);
    assert_eq!(state, comment::State::Done);
    assert_eq!(
        action,
        comment::Action::Fail(comment::Failure::Api(ApiError::NoOpenPullRequest))
    );
    let (state, action) = until_comments(vec![pull_request(4, true), pull_request(5, true)]);
    assert_eq!(state, comment::State::Done);
    assert_eq!(
        action,
        comment::Action::Fail(comment::Failure::Api(ApiError::MultipleOpenPullRequests))
    );
    assert!(action.is_final());
}

#[test]
fn write_run_fails_on_several_tagged_comments() {
    let state = found_pull_request();
    let (state, action) = comment::step(
        state,
        comment::Event::Comments(vec![
            comment_with(1, "<!-- github-comment: ci -->\nfirst"),
            comment_with(2, "<!-- github-comment: ci -->\nsecond"),
        ]),
    );
    assert_eq!(state, comment::State::Done);
    assert_eq!(
        action,
        comment::Action::Fail(comment::Failure::Api(ApiError::MultipleComments))
    );
}

#[test]
fn write_run_refuses_events_out_of_turn() {
    let out_of_turn = (
        comment::State::Done,
        comment::Action::Fail(comment::Failure::OutOfTurn),
    );
    let (state, _) = comment::start(write_args());
    assert_eq!(comment::step(state, comment::Event::Written), out_of_turn);
    let (state, _) = comment::start(write_args());
    assert_eq!(
        comment::step(state, comment::Event::Comments(vec![])),
        out_of_turn
    );
    assert_eq!(
        comment::step(found_pull_request(), comment::Event::PullRequests(vec![])),
        out_of_turn
    );
    assert_eq!(
        comment::step(comment::State::Writing, comment::Event::Text(String::new())),
        out_of_turn
    );
    assert_eq!(
        comment::step(comment::State::Done, comment::Event::Written),
        out_of_turn
    );
}

fn read_document(bots: &[&str], bytes: Vec<u8>) -> (relay::State, relay::Action) {
    let (state, action) = relay::start(trigger_args(bots));
    assert_eq!(
        action,
        relay::Action::ReadWebhook {
            path: PathBuf::from("event.json")
        }
    );
    relay::step(state, relay::Event::Document(bytes))
}

fn request(command: &str, args: &str) -> RelayRequest {
    RelayRequest {
        branch: "feature".to_string(),
        command: command.to_string(),
        args: args.to_string(),
        comment_id: "77".to_string(),
    }
}

fn send(command: &str, args: &str) -> relay::Action {
    relay::Action::TriggerPipeline {
        pipeline: pipeline(),
        repo: repo(),
        request: request(command, args),
    }
}

#[test]
fn trigger_run_relays_the_commands_in_order() {
    let (state, action) = read_document(
        &["bot", "bot2"],
        document(
            "created",
            "someone",
            "OWNER",
            "@bot2 check\\r\\n@bot deploy now\\r\\n@bot test all of it",
        ),
    );
    assert_eq!(
        action,
        relay::Action::GetPullRequest {
            repo: repo(),
            number: 5
        }
    );
    assert!(!action.is_final());
    let fetched = PullRequest {
        number: 5,
        open: true,
        branch: "feature".to_string(),
    };
    let (state, action) = relay::step(state, relay::Event::PullRequest(fetched));
    assert_eq!(action, send("deploy", "now"));
    let (state, action) = relay::step(state, relay::Event::Response);
    assert_eq!(action, send("test", "all of it"));
    let (state, action) = relay::step(state, relay::Event::Response);
    assert_eq!(action, send("check", ""));
    assert_eq!(
        state,
        relay::State::Relaying {
            pipeline: pipeline(),
            repo: repo(),
            requests: vec![
                request("deploy", "now"),
                request("test", "all of it"),
                request("check", ""),
            ],
            sent: 2,
        }
    );
    let (state, action) = relay::step(state, relay::Event::Response);
    assert_eq!(state, relay::State::Done);
    assert_eq!(action, relay::Action::Finish);
    assert!(action.is_final());
}

#[test]
fn trigger_run_stops_in_peace_without_commands() {
    let (state, action) =
        read_document(&["bot"], document("created", "bot", "OWNER", "@bot run"));
    assert_eq!(state, relay::State::Done);
    assert_eq!(action, relay::Action::Stop(Reason::SelfTrigger));
    assert!(action.is_final());
    let (_, action) =
        read_document(&["bot"], document("deleted", "someone", "OWNER", "@bot run"));
    assert_eq!(action, relay::Action::Stop(Reason::Deleted));
    let (_, action) =
        read_document(&["bot"], document("created", "someone", "OWNER", "hello"));
    assert_eq!(action, relay::Action::Stop(Reason::NoCommands));
}

#[test]
fn trigger_run_fails_for_an_author_without_rights() {
    let (state, action) = read_document(
        &["bot"],
        document("created", "someone", "CONTRIBUTOR", "@bot run"),
    );
    assert_eq!(state, relay::State::Done);
    assert_eq!(
        action,
        relay::Action::Fail(relay::Failure::Denied("CONTRIBUTOR".to_string()))
    );
    assert_eq!(
        relay::Failure::Denied("CONTRIBUTOR".to_string()).message(),
        "Commenter does not have sufficient rights: CONTRIBUTOR"
    );
}

#[test]
fn trigger_run_fails_for_a_document_without_event() {
    let (state, action) = read_document(&["bot"], b"{}".to_vec());
    assert_eq!(state, relay::State::Done);
    assert_eq!(
        action,
        relay::Action::Fail(relay::Failure::Parse(ParseError::MissingAction))
    );
    let (_, action) = read_document(&["bot"], vec![0xff, 0xfe]);
    assert_eq!(
        action,
        relay::Action::Fail(relay::Failure::Parse(ParseError::MalformedJson))
    );
    assert_eq!(
        relay::Failure::Parse(ParseError::MissingIssueNumber).message(),
        "missing or non-numeric field `issue.number`"
    );
    assert_eq!(
        relay::Failure::OutOfTurn.message(),
        "the event does not answer the action under way"
    );
}

#[test]
fn trigger_run_refuses_events_out_of_turn() {
    let out_of_turn = (
        relay::State::Done,
        relay::Action::Fail(relay::Failure::OutOfTurn),
    );
    let (state, _) = relay::start(trigger_args(&["bot"]));
    assert_eq!(relay::step(state, relay::Event::Response), out_of_turn);
    let (state, _) = read_document(
        &["bot"],
        document("created", "someone", "OWNER", "@bot run"),
    );
    assert_eq!(
        relay::step(state, relay::Event::Document(vec![])),
        out_of_turn
    );
    assert_eq!(
        relay::step(relay::State::Done, relay::Event::Response),
        out_of_turn
    );
    let relaying = relay::State::Relaying {
        pipeline: pipeline(),
        repo: repo(),
        requests: vec![request("a", "")],
        sent: 0,
    };
    assert_eq!(
        relay::step(relaying, relay::Event::PullRequest(pull_request(1, true))),
        out_of_turn
    );
}

#[test]
fn trigger_run_ends_when_no_request_is_left() {
    for sent in [0, 1, 7, usize::MAX] {
        let relaying = relay::State::Relaying {
            pipeline: pipeline(),
            repo: repo(),
            requests: vec![request("a", "")],
            sent,
        };
        assert_eq!(
            relay::step(relaying, relay::Event::Response),
            (relay::State::Done, relay::Action::Finish)
        );
    }
    let finding = relay::State::FindingBranch {
        pipeline: pipeline(),
        webhook: github_comment::webhook::parse(&document("created", "x", "OWNER", "hi"))
            .unwrap(),
        commands: vec![],
    };
    assert_eq!(
        relay::step(finding, relay::Event::PullRequest(pull_request(1, true))),
        (relay::State::Done, relay::Action::Finish)
    );
}

#[test]
fn start_begins_the_run_that_is_asked_for() {
    let run = start(Args {
        command: Subcommands::WriteComment(write_args()),
    });
    assert_eq!(
        run,
        Run::WriteComment(
            comment::State::ReadingText {
                repo: repo(),
                commit: "0123abc".to_string(),
                id: "ci".to_string(),
            },
            comment::Action::ReadText {
                path: PathBuf::from("report.md")
            },
        )
    );
    let run = start(Args {
        command: Subcommands::TriggerWebhookCommands(trigger_args(&["bot", "bot2"])),
    });
    assert_eq!(
        run,
        Run::TriggerWebhookCommands(
            relay::State::ReadingWebhook {
                pipeline: pipeline(),
                bots: vec!["bot".to_string(), "bot2".to_string()],
            },
            relay::Action::ReadWebhook {
                path: PathBuf::from("event.json")
            },
        )
    );
}
