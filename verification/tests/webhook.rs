use github_comment::webhook::{parse, ParseError, Repository, Webhook, WebhookFields};

const WEBHOOK_DATA: &str = r#"{
  "action": "created",
  "issue": {
    "url": "https://api.github.com/repos/namespace/reponame/issues/3",
    "id": 1234567890,
    "number": 3,
    "title": "Update the README",
    "user": { "login": "authorlogin", "id": 1111, "type": "User" },
    "labels": [],
    "state": "open",
    "locked": false,
    "comments": 7,
    "pull_request": {
      "url": "https://api.github.com/repos/namespace/reponame/pulls/3"
    },
    "body": null
  },
  "comment": {
    "url": "https://api.github.com/repos/namespace/reponame/issues/comments/4242424242",
    "id": 4242424242,
    "user": { "login": "authorlogin", "id": 1111, "type": "User", "site_admin": false },
    "created_at": "2023-03-01T10:00:00Z",
    "updated_at": "2023-03-01T10:00:00Z",
    "author_association": "OWNER",
    "body": "@bot test_command test2\r\n@bot command2 3\r\nthis is a reponame",
    "reactions": { "total_count": 0, "+1": 0, "-1": 0 }
  },
  "repository": {
    "id": 987654321,
    "name": "reponame",
    "full_name": "namespace/reponame",
    "private": false,
    "owner": { "login": "namespace", "id": 2222, "type": "Organization" },
    "default_branch": "main",
    "stargazers_count": 12.5e1
  },
  "sender": { "login": "authorlogin", "id": 1111 }
}"#;

fn minimal(comment: &str, issue: &str, repository: &str) -> String {
    format!(
        r#"{{"action":"created","comment":{},"issue":{},"repository":{}}}"#,
        comment, issue, repository
    )
}

const COMMENT: &str =
    r#"{"body":"hello","id":7,"author_association":"MEMBER","user":{"login":"someone"}}"#;
const ISSUE: &str = r#"{"number":12}"#;
const REPOSITORY: &str = r#"{"full_name":"o/n"}"#;

fn error_of(text: &str) -> ParseError {
    match Webhook::parse_from_str(text) {
        Ok(_) => panic!("the document was read as an event"),
        Err(error) => error,
    }
}

fn fields() -> WebhookFields {
    WebhookFields {
        action: Some("created".to_string()),
        comment_body: Some("hello".to_string()),
        comment_id: Some(18446744073709551615),
        author: Some("someone".to_string()),
        author_association: Some("NONE".to_string()),
        issue_number: Some(0),
        full_name: Some("owner/name".to_string()),
        owner: Some("other".to_string()),
        name: Some("names".to_string()),
    }
}

fn repository_of(fields: WebhookFields) -> Result<Repository, ParseError> {
    Webhook::from_fields(fields).map(|webhook| webhook.repo)
}

#[test]
fn test_parse_webhook() {
    let webhook = Webhook::parse_from_str(WEBHOOK_DATA).unwrap();
    assert_eq!(webhook.action, "created".to_string());
    assert_eq!(
        webhook.comment,
        "@bot test_command test2\r\n@bot command2 3\r\nthis is a reponame".to_string()
    );
    assert_eq!(webhook.comment_id, "4242424242".to_string());
    assert_eq!(webhook.author, "authorlogin".to_string());
    assert_eq!(webhook.author_association, "OWNER".to_string());
    assert_eq!(webhook.issue_number, 3);
    assert_eq!(
        webhook.repo,
        Repository {
            owner: "namespace".to_string(),
            name: "reponame".to_string()
        }
    );
}

#[test]
fn parse_reads_the_bytes_of_the_fixture() {
    let webhook = parse(WEBHOOK_DATA.as_bytes()).unwrap();
    assert_eq!(webhook.issue_number, 3);
    assert_eq!(webhook.comment_id, "4242424242");
    assert_eq!(
        webhook.repo,
        Repository {
            owner: "namespace".to_string(),
            name: "reponame".to_string()
        }
    );
}

#[test]
fn parse_rejects_bytes_that_are_not_utf8() {
    let mut bytes = minimal(COMMENT, ISSUE, REPOSITORY).into_bytes();
    assert!(parse(&bytes).is_ok());
    bytes[12] = 0xff;
    assert_eq!(parse(&bytes).err(), Some(ParseError::MalformedJson));
    assert_eq!(parse(&[0xc3]).err(), Some(ParseError::MalformedJson));
    assert_eq!(parse(&[]).err(), Some(ParseError::MalformedJson));
}

#[test]
fn minimal_document_parses() {
    let webhook = Webhook::parse_from_str(&minimal(COMMENT, ISSUE, REPOSITORY)).unwrap();
    assert_eq!(webhook.action, "created");
    assert_eq!(webhook.comment, "hello");
    assert_eq!(webhook.comment_id, "7");
    assert_eq!(webhook.author, "someone");
    assert_eq!(webhook.author_association, "MEMBER");
    assert_eq!(webhook.issue_number, 12);
    assert_eq!(webhook.repo.owner, "o");
    assert_eq!(webhook.repo.name, "n");
}

#[test]
fn text_that_is_no_json_is_malformed() {
    assert_eq!(error_of(""), ParseError::MalformedJson);
    assert_eq!(error_of("{"), ParseError::MalformedJson);
    assert_eq!(error_of("{\"action\": created}"), ParseError::MalformedJson);
    assert_eq!(
        error_of(&format!("{} trailing", minimal(COMMENT, ISSUE, REPOSITORY))),
        ParseError::MalformedJson
    );
}

#[test]
fn json_that_is_no_object_misses_the_action() {
    assert_eq!(error_of("null"), ParseError::MissingAction);
    assert_eq!(error_of("[1, 2]"), ParseError::MissingAction);
    assert_eq!(error_of("\"created\""), ParseError::MissingAction);
    assert_eq!(error_of("{}"), ParseError::MissingAction);
}

#[test]
fn missing_action_is_reported() {
    let text = format!(
        r#"{{"comment":{},"issue":{},"repository":{}}}"#,
        COMMENT, ISSUE, REPOSITORY
    );
    assert_eq!(error_of(&text), ParseError::MissingAction);
    let text = format!(
        r#"{{"action":7,"comment":{},"issue":{},"repository":{}}}"#,
        COMMENT, ISSUE, REPOSITORY
    );
    assert_eq!(error_of(&text), ParseError::MissingAction);
}

#[test]
fn missing_comment_body_is_reported() {
    let comment = r#"{"id":7,"author_association":"MEMBER","user":{"login":"someone"}}"#;
    assert_eq!(
        error_of(&minimal(comment, ISSUE, REPOSITORY)),
        ParseError::MissingCommentBody
    );
    assert_eq!(
        error_of(&minimal("null", ISSUE, REPOSITORY)),
        ParseError::MissingCommentBody
    );
    let comment =
        r#"{"body":null,"id":7,"author_association":"MEMBER","user":{"login":"someone"}}"#;
    assert_eq!(
        error_of(&minimal(comment, ISSUE, REPOSITORY)),
        ParseError::MissingCommentBody
    );
}

#[test]
fn missing_comment_id_is_reported() {
    for id in ["\"7\"", "-7", "7.5", "null", "18446744073709551616"] {
        let comment = format!(
            r#"{{"body":"hello","id":{},"author_association":"MEMBER","user":{{"login":"someone"}}}}"#,
            id
        );
        assert_eq!(
            error_of(&minimal(&comment, ISSUE, REPOSITORY)),
            ParseError::MissingCommentId
        );
    }
    let comment = r#"{"body":"hello","author_association":"MEMBER","user":{"login":"someone"}}"#;
    assert_eq!(
        error_of(&minimal(comment, ISSUE, REPOSITORY)),
        ParseError::MissingCommentId
    );
}

#[test]
fn missing_author_is_reported() {
    let comment = r#"{"body":"hello","id":7,"author_association":"MEMBER","user":{}}"#;
    assert_eq!(
        error_of(&minimal(comment, ISSUE, REPOSITORY)),
        ParseError::MissingAuthor
    );
    let comment = r#"{"body":"hello","id":7,"author_association":"MEMBER"}"#;
    assert_eq!(
        error_of(&minimal(comment, ISSUE, REPOSITORY)),
        ParseError::MissingAuthor
    );
}

#[test]
fn missing_author_association_is_reported() {
    let comment = r#"{"body":"@bot run","id":7,"user":{"login":"someone"}}"#;
    assert_eq!(
        error_of(&minimal(comment, ISSUE, REPOSITORY)),
        ParseError::MissingAuthorAssociation
    );
    let comment =
        r#"{"body":"@bot run","id":7,"author_association":["OWNER"],"user":{"login":"someone"}}"#;
    assert_eq!(
        error_of(&minimal(comment, ISSUE, REPOSITORY)),
        ParseError::MissingAuthorAssociation
    );
}

#[test]
fn missing_or_non_numeric_issue_number_is_reported() {
    for issue in [
        "{}",
        "null",
        r#"{"number":"3"}"#,
        r#"{"number":-3}"#,
        r#"{"number":3.0}"#,
        r#"{"number":null}"#,
    ] {
        assert_eq!(
            error_of(&minimal(COMMENT, issue, REPOSITORY)),
            ParseError::MissingIssueNumber
        );
    }
    let text = format!(
        r#"{{"action":"created","comment":{},"repository":{}}}"#,
        COMMENT, REPOSITORY
    );
    assert_eq!(error_of(&text), ParseError::MissingIssueNumber);
}

#[test]
fn missing_repository_is_reported() {
    for repository in [
        "{}",
        "null",
        r#"{"name":"n"}"#,
        r#"{"owner":{"login":"o"}}"#,
        r#"{"owner":{},"name":"n"}"#,
        r#"{"full_name":null,"name":"n"}"#,
    ] {
        assert_eq!(
            error_of(&minimal(COMMENT, ISSUE, repository)),
            ParseError::MissingRepository
        );
    }
}

#[test]
fn full_name_needs_exactly_one_slash() {
    for full_name in ["", "namespace", "a/b/c", "a//b", "/a/", "//"] {
        let repository = format!(r#"{{"full_name":"{}"}}"#, full_name);
        assert_eq!(
            error_of(&minimal(COMMENT, ISSUE, &repository)),
            ParseError::InvalidFullName
        );
    }
    let repository = r#"{"full_name":"a/b/c","owner":{"login":"a"},"name":"b"}"#;
    assert_eq!(
        error_of(&minimal(COMMENT, ISSUE, repository)),
        ParseError::InvalidFullName
    );
}

#[test]
fn repository_falls_back_to_owner_and_name() {
    let repository = r#"{"owner":{"login":"o"},"name":"n"}"#;
    let webhook = Webhook::parse_from_str(&minimal(COMMENT, ISSUE, repository)).unwrap();
    assert_eq!(
        webhook.repo,
        Repository {
            owner: "o".to_string(),
            name: "n".to_string()
        }
    );
}

#[test]
fn the_first_missing_field_decides_the_error() {
    assert_eq!(
        error_of(r#"{"action":"created"}"#),
        ParseError::MissingCommentBody
    );
    assert_eq!(
        error_of(r#"{"action":"created","comment":{"body":""}}"#),
        ParseError::MissingCommentId
    );
    let mut given = fields();
    given.author = None;
    given.issue_number = None;
    given.full_name = Some("x".to_string());
    assert_eq!(
        Webhook::from_fields(given).err(),
        Some(ParseError::MissingAuthor)
    );
}

#[test]
fn from_fields_builds_the_event() {
    let webhook = Webhook::from_fields(fields()).unwrap();
    assert_eq!(webhook.action, "created");
    assert_eq!(webhook.comment, "hello");
    assert_eq!(webhook.comment_id, "18446744073709551615");
    assert_eq!(webhook.author, "someone");
    assert_eq!(webhook.author_association, "NONE");
    assert_eq!(webhook.issue_number, 0);
    assert_eq!(
        webhook.repo,
        Repository {
            owner: "owner".to_string(),
            name: "name".to_string()
        }
    );
}

#[test]
fn from_fields_reports_each_missing_field() {
    let mut given = fields();
    given.action = None;
    assert_eq!(Webhook::from_fields(given).err(), Some(ParseError::MissingAction));
    let mut given = fields();
    given.comment_body = None;
    assert_eq!(
        Webhook::from_fields(given).err(),
        Some(ParseError::MissingCommentBody)
    );
    let mut given = fields();
    given.comment_id = None;
    assert_eq!(
        Webhook::from_fields(given).err(),
        Some(ParseError::MissingCommentId)
    );
    let mut given = fields();
    given.author = None;
    assert_eq!(Webhook::from_fields(given).err(), Some(ParseError::MissingAuthor));
    let mut given = fields();
    given.author_association = None;
    assert_eq!(
        Webhook::from_fields(given).err(),
        Some(ParseError::MissingAuthorAssociation)
    );
    let mut given = fields();
    given.issue_number = None;
    assert_eq!(
        Webhook::from_fields(given).err(),
        Some(ParseError::MissingIssueNumber)
    );
    let mut given = fields();
    given.full_name = None;
    given.owner = None;
    assert_eq!(
        Webhook::from_fields(given).err(),
        Some(ParseError::MissingRepository)
    );
}

#[test]
fn full_name_splits_at_its_slash() {
    let mut given = fields();
    given.full_name = Some("/".to_string());
    assert_eq!(
        repository_of(given).ok(),
        Some(Repository {
            owner: "".to_string(),
            name: "".to_string()
        })
    );
    let mut given = fields();
    given.full_name = Some("größe/näme".to_string());
    assert_eq!(
        repository_of(given).ok(),
        Some(Repository {
            owner: "größe".to_string(),
            name: "näme".to_string()
        })
    );
    let mut given = fields();
    given.full_name = Some("a/b/".to_string());
    assert_eq!(repository_of(given).err(), Some(ParseError::InvalidFullName));
}

#[test]
fn comment_id_is_written_in_decimal() {
    for (id, text) in [
        (0u64, "0"),
        (9, "9"),
        (10, "10"),
        (1203, "1203"),
        (4242424242, "4242424242"),
        (10000000000000000000, "10000000000000000000"),
    ] {
        let mut given = fields();
        given.comment_id = Some(id);
        assert_eq!(Webhook::from_fields(given).unwrap().comment_id, text);
    }
}

#[test]
fn messages_name_the_field() {
    assert_eq!(
        ParseError::MissingAuthorAssociation.message(),
        "missing field `comment.author_association`"
    );
    assert_eq!(
        ParseError::MissingCommentBody.message(),
        "missing field `comment.body`"
    );
    assert_eq!(
        ParseError::MissingIssueNumber.message(),
        "missing or non-numeric field `issue.number`"
    );
    assert_eq!(
        ParseError::InvalidFullName.message(),
        "field `repository.full_name` is not `owner/name`"
    );
    assert_eq!(
        ParseError::MalformedJson.message(),
        "the issue_comment data is not JSON"
    );
}

#[test]
fn decimal_agrees_with_the_standard_library() {
    let mut n: u64 = 0;
    for step in 0..2000u64 {
        assert_eq!(github_comment::text::decimal_string(n), n.to_string());
        n = n.wrapping_mul(6364136223846793005).wrapping_add(step);
    }
    for n in 0..1200u64 {
        assert_eq!(github_comment::text::decimal_string(n), n.to_string());
    }
    assert_eq!(
        github_comment::text::decimal_string(u64::MAX),
        "18446744073709551615"
    );
}

#[test]
fn to_chars_lists_the_characters() {
    assert_eq!(github_comment::text::to_chars(""), Vec::<char>::new());
    assert_eq!(
        github_comment::text::to_chars("aü✓\n"),
        vec!['a', 'ü', '✓', '\n']
    );
}

#[test]
fn fields_are_read_as_they_are_found() {
    let document: serde_json::Value = serde_json::from_str(WEBHOOK_DATA).unwrap();
    assert_eq!(
        WebhookFields::read(&document),
        WebhookFields {
            action: Some("created".to_string()),
            comment_body: Some(
                "@bot test_command test2\r\n@bot command2 3\r\nthis is a reponame".to_string()
            ),
            comment_id: Some(4242424242),
            author: Some("authorlogin".to_string()),
            author_association: Some("OWNER".to_string()),
            issue_number: Some(3),
            full_name: Some("namespace/reponame".to_string()),
            owner: Some("namespace".to_string()),
            name: Some("reponame".to_string()),
        }
    );
    let document: serde_json::Value = serde_json::from_str(
        r#"{"action":["created"],"comment":{"body":{"text":"x"},"id":"7","user":"someone"},
            "issue":[{"number":3}],"repository":{"name":"n","owner":{"login":null}}}"#,
    )
    .unwrap();
    assert_eq!(
        WebhookFields::read(&document),
        WebhookFields {
            action: None,
            comment_body: None,
            comment_id: None,
            author: None,
            author_association: None,
            issue_number: None,
            full_name: None,
            owner: None,
            name: Some("n".to_string()),
        }
    );
    assert_eq!(
        Webhook::from_document(&document).err(),
        Some(ParseError::MissingAction)
    );
}

#[test]
fn the_last_of_two_members_with_one_key_counts() {
    let text = minimal(
        r#"{"body":"first","body":"second","id":7,"author_association":"MEMBER","user":{"login":"someone"}}"#,
        ISSUE,
        REPOSITORY,
    );
    assert_eq!(Webhook::parse_from_str(&text).unwrap().comment, "second");
}

#[test]
fn errors_name_their_field() {
    assert_eq!(ParseError::MalformedJson.field(), "");
    assert_eq!(ParseError::MissingAction.field(), "action");
    assert_eq!(ParseError::MissingCommentBody.field(), "comment.body");
    assert_eq!(ParseError::MissingCommentId.field(), "comment.id");
    assert_eq!(ParseError::MissingAuthor.field(), "comment.user.login");
    assert_eq!(
        ParseError::MissingAuthorAssociation.field(),
        "comment.author_association"
    );
    assert_eq!(ParseError::MissingIssueNumber.field(), "issue.number");
    assert_eq!(ParseError::MissingRepository.field(), "repository.full_name");
    assert_eq!(ParseError::InvalidFullName.field(), "repository.full_name");
    for error in [
        ParseError::MissingAction,
        ParseError::MissingCommentBody,
        ParseError::MissingCommentId,
        ParseError::MissingAuthor,
        ParseError::MissingAuthorAssociation,
        ParseError::MissingIssueNumber,
        ParseError::MissingRepository,
        ParseError::InvalidFullName,
    ] {
        assert!(error.message().contains(&format!("`{}`", error.field())));
    }
    assert_eq!(
        ParseError::MissingCommentId.message(),
        "missing or non-numeric field `comment.id`"
    );
    assert_eq!(ParseError::MissingAction.message(), "missing field `action`");
    assert_eq!(
        ParseError::MissingAuthor.message(),
        "missing field `comment.user.login`"
    );
    assert_eq!(
        ParseError::MissingRepository.message(),
        "missing field `repository.full_name`"
    );
}
