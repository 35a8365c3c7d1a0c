//! The `issue_comment` webhook event and its parser.

use crate::json::{
    as_number, as_text, as_utf8, below, json_document, json_numbers, json_strings, member,
    numbers_in, read_document, strings_in,
};
use crate::text::{
    decimal, decimal_string, find_char, first_index_of, lemma_first_index_of, slice, to_chars,
};
use vstd::prelude::*;

verus! {

/// Why a document gives no webhook event.
#[derive(Clone, Copy, PartialEq, Eq, Debug, Structural)]
pub enum ParseError {
    /// The document is not UTF-8 text, or the text is not JSON.
    MalformedJson,
    /// `action` is missing or no string.
    MissingAction,
    /// `comment.body` is missing or no string.
    MissingCommentBody,
    /// `comment.id` is missing or no unsigned integer.
    MissingCommentId,
    /// `comment.user.login` is missing or no string.
    MissingAuthor,
    /// `comment.author_association` is missing or no string.
    MissingAuthorAssociation,
    /// `issue.number` is missing or no unsigned integer.
    MissingIssueNumber,
    /// Neither `repository.full_name` nor both of `repository.owner.login`
    /// and `repository.name` are there as strings.
    MissingRepository,
    /// `repository.full_name` does not hold exactly one slash.
    InvalidFullName,
}

impl ParseError {
    /// The error blames one field of a document that is JSON.
    pub open spec fn names_field(self) -> bool {
        self != ParseError::MalformedJson
    }

    /// The path of the field that the error blames; empty where it blames
    /// none. A missing repository is laid at the door of the full name.
    pub open spec fn field_spec(self) -> Seq<char> {
        match self {
            ParseError::MalformedJson => ""@,
            ParseError::MissingAction => "action"@,
            ParseError::MissingCommentBody => "comment.body"@,
            ParseError::MissingCommentId => "comment.id"@,
            ParseError::MissingAuthor => "comment.user.login"@,
            ParseError::MissingAuthorAssociation => "comment.author_association"@,
            ParseError::MissingIssueNumber => "issue.number"@,
            ParseError::MissingRepository => "repository.full_name"@,
            ParseError::InvalidFullName => "repository.full_name"@,
        }
    }

    /// The text that reports the error: it says what is wrong and names the
    /// field between backquotes.
    pub open spec fn message_spec(self) -> Seq<char> {
        match self {
            ParseError::MalformedJson => "the issue_comment data is not JSON"@,
            ParseError::MissingCommentId | ParseError::MissingIssueNumber => {
                "missing or non-numeric field `"@ + self.field_spec() + "`"@
            },
            ParseError::InvalidFullName => {
                "field `"@ + self.field_spec() + "` is not `owner/name`"@
            },
            _ => "missing field `"@ + self.field_spec() + "`"@,
        }
    }

    /// The path of the field at fault, as the document would name it.
    pub fn field(&self) -> (path: &'static str)
        ensures
            path@ == self.field_spec(),
    {
        match self {
            ParseError::MalformedJson => "",
            ParseError::MissingAction => "action",
            ParseError::MissingCommentBody => "comment.body",
            ParseError::MissingCommentId => "comment.id",
            ParseError::MissingAuthor => "comment.user.login",
            ParseError::MissingAuthorAssociation => "comment.author_association",
            ParseError::MissingIssueNumber => "issue.number",
            ParseError::MissingRepository => "repository.full_name",
            ParseError::InvalidFullName => "repository.full_name",
        }
    }

    /// A message for people, which names the field at fault.
    pub fn message(&self) -> (text: String)
        ensures
            text@ == self.message_spec(),
    {
        match self {
            ParseError::MalformedJson => String::from_str("the issue_comment data is not JSON"),
            ParseError::MissingCommentId | ParseError::MissingIssueNumber => String::from_str(
                "missing or non-numeric field `",
            ).concat(self.field()).concat("`"),
            ParseError::InvalidFullName => String::from_str("field `").concat(
                self.field(),
            ).concat("` is not `owner/name`"),
            _ => String::from_str("missing field `").concat(self.field()).concat("`"),
        }
    }
}

/// The repository a webhook event originates from.
#[derive(PartialEq, Debug)]
pub struct Repository {
    pub owner: String,
    pub name: String,
}

/// Mathematical value of a [`Repository`].
pub struct RepositoryView {
    pub owner: Seq<char>,
    pub name: Seq<char>,
}

impl View for Repository {
    type V = RepositoryView;

    open spec fn view(&self) -> RepositoryView {
        RepositoryView { owner: self.owner@, name: self.name@ }
    }
}

impl Clone for Repository {
    fn clone(&self) -> (copy: Self)
        ensures
            copy@ == self@,
    {
        Repository { owner: self.owner.clone(), name: self.name.clone() }
    }
}

/// One `issue_comment` event, as far as this library reads it.
///
/// A value is built once from a document and only read afterwards.
#[derive(PartialEq, Debug)]
pub struct Webhook {
    /// Lifecycle action of the comment: `created`, `edited`, `deleted`.
    pub action: String,
    /// Raw text of the comment.
    pub comment: String,
    /// Identifier of the comment, in decimal, handed on unchanged.
    pub comment_id: String,
    /// Login of the commenter.
    pub author: String,
    /// Relationship of the commenter to the repository, as the event names it.
    pub author_association: String,
    /// Number of the issue or pull request the comment belongs to.
    pub issue_number: u64,
    /// Repository the event comes from.
    pub repo: Repository,
}

/// Mathematical value of a [`Webhook`].
pub struct WebhookView {
    pub action: Seq<char>,
    pub comment: Seq<char>,
    pub comment_id: Seq<char>,
    pub author: Seq<char>,
    pub author_association: Seq<char>,
    pub issue_number: u64,
    pub repo: RepositoryView,
}

impl View for Webhook {
    type V = WebhookView;

    open spec fn view(&self) -> WebhookView {
        WebhookView {
            action: self.action@,
            comment: self.comment@,
            comment_id: self.comment_id@,
            author: self.author@,
            author_association: self.author_association@,
            issue_number: self.issue_number,
            repo: self.repo@,
        }
    }
}

impl Clone for Webhook {
    fn clone(&self) -> (copy: Self)
        ensures
            copy@ == self@,
    {
        Webhook {
            action: self.action.clone(),
            comment: self.comment.clone(),
            comment_id: self.comment_id.clone(),
            author: self.author.clone(),
            author_association: self.author_association.clone(),
            issue_number: self.issue_number,
            repo: self.repo.clone(),
        }
    }
}

/// The fields of a document that the parser reads, each as it was found:
/// `None` where the document has no such member or the member is of another
/// kind.
#[derive(PartialEq, Debug)]
pub struct WebhookFields {
    /// `action`
    pub action: Option<String>,
    /// `comment.body`
    pub comment_body: Option<String>,
    /// `comment.id`
    pub comment_id: Option<u64>,
    /// `comment.user.login`
    pub author: Option<String>,
    /// `comment.author_association`
    pub author_association: Option<String>,
    /// `issue.number`
    pub issue_number: Option<u64>,
    /// `repository.full_name`
    pub full_name: Option<String>,
    /// `repository.owner.login`
    pub owner: Option<String>,
    /// `repository.name`
    pub name: Option<String>,
}

/// Mathematical value of [`WebhookFields`].
pub struct WebhookFieldsView {
    pub action: Option<Seq<char>>,
    pub comment_body: Option<Seq<char>>,
    pub comment_id: Option<u64>,
    pub author: Option<Seq<char>>,
    pub author_association: Option<Seq<char>>,
    pub issue_number: Option<u64>,
    pub full_name: Option<Seq<char>>,
    pub owner: Option<Seq<char>>,
    pub name: Option<Seq<char>>,
}

impl View for WebhookFields {
    type V = WebhookFieldsView;

    open spec fn view(&self) -> WebhookFieldsView {
        WebhookFieldsView {
            action: self.action.deep_view(),
            comment_body: self.comment_body.deep_view(),
            comment_id: self.comment_id,
            author: self.author.deep_view(),
            author_association: self.author_association.deep_view(),
            issue_number: self.issue_number,
            full_name: self.full_name.deep_view(),
            owner: self.owner.deep_view(),
            name: self.name.deep_view(),
        }
    }
}

/// Owner and name in a full name: the parts before and after its slash. A
/// full name with no slash, or with more than one, has no parts.
pub open spec fn split_full_name(full_name: Seq<char>) -> Option<RepositoryView> {
    let cut = first_index_of(full_name, '/') as int;
    if cut < full_name.len() && !full_name.skip(cut + 1).contains('/') {
        Some(RepositoryView { owner: full_name.take(cut), name: full_name.skip(cut + 1) })
    } else {
        None
    }
}

/// The repository that the three repository fields name. The full name
/// decides where it is there; owner and name stand in for it where it is not.
pub open spec fn repository_of(
    full_name: Option<Seq<char>>,
    owner: Option<Seq<char>>,
    name: Option<Seq<char>>,
) -> Result<RepositoryView, ParseError> {
    match full_name {
        Some(full_name) => match split_full_name(full_name) {
            Some(repo) => Ok(repo),
            None => Err(ParseError::InvalidFullName),
        },
        None => match (owner, name) {
            (Some(owner), Some(name)) => Ok(RepositoryView { owner, name }),
            _ => Err(ParseError::MissingRepository),
        },
    }
}

/// The event that the fields give, or the error for the first field that is
/// missing, in the order in which `ParseError` lists them.
pub open spec fn webhook_of(fields: WebhookFieldsView) -> Result<WebhookView, ParseError> {
    if fields.action is None {
        Err(ParseError::MissingAction)
    } else if fields.comment_body is None {
        Err(ParseError::MissingCommentBody)
    } else if fields.comment_id is None {
        Err(ParseError::MissingCommentId)
    } else if fields.author is None {
        Err(ParseError::MissingAuthor)
    } else if fields.author_association is None {
        Err(ParseError::MissingAuthorAssociation)
    } else if fields.issue_number is None {
        Err(ParseError::MissingIssueNumber)
    } else {
        match repository_of(fields.full_name, fields.owner, fields.name) {
            Err(error) => Err(error),
            Ok(repo) => Ok(
                WebhookView {
                    action: fields.action->0,
                    comment: fields.comment_body->0,
                    comment_id: decimal(fields.comment_id->0 as nat),
                    author: fields.author->0,
                    author_association: fields.author_association->0,
                    issue_number: fields.issue_number->0,
                    repo,
                },
            ),
        }
    }
}

/// The fields that the parser finds in a document with these strings and
/// numbers.
pub open spec fn document_fields(
    strings: Map<Seq<Seq<char>>, Seq<char>>,
    numbers: Map<Seq<Seq<char>>, u64>,
) -> WebhookFieldsView {
    WebhookFieldsView {
        action: strings.get(seq!["action"@]),
        comment_body: strings.get(seq!["comment"@, "body"@]),
        comment_id: numbers.get(seq!["comment"@, "id"@]),
        author: strings.get(seq!["comment"@, "user"@, "login"@]),
        author_association: strings.get(seq!["comment"@, "author_association"@]),
        issue_number: numbers.get(seq!["issue"@, "number"@]),
        full_name: strings.get(seq!["repository"@, "full_name"@]),
        owner: strings.get(seq!["repository"@, "owner"@, "login"@]),
        name: strings.get(seq!["repository"@, "name"@]),
    }
}

/// The fields that the parser finds in a text; `None` where the text is no
/// JSON document.
pub open spec fn text_fields(text: Seq<char>) -> Option<WebhookFieldsView> {
    match json_document(text) {
        Some((strings, numbers)) => Some(document_fields(strings, numbers)),
        None => None,
    }
}

/// The event that a JSON text gives.
pub open spec fn parse_from_str_spec(text: Seq<char>) -> Result<WebhookView, ParseError> {
    match text_fields(text) {
        Some(fields) => webhook_of(fields),
        None => Err(ParseError::MalformedJson),
    }
}

/// The event that the bytes of a document give.
pub open spec fn parse_spec(document: Seq<u8>) -> Result<WebhookView, ParseError> {
    if vstd::utf8::valid_utf8(document) {
        parse_from_str_spec(vstd::utf8::decode_utf8(document))
    } else {
        Err(ParseError::MalformedJson)
    }
}

/// The outcome of a parser as a mathematical value.
pub open spec fn outcome_view(outcome: Result<Webhook, ParseError>) -> Result<
    WebhookView,
    ParseError,
> {
    match outcome {
        Ok(webhook) => Ok(webhook@),
        Err(error) => Err(error),
    }
}

/// `found` is what `root` holds behind `path`.
spec fn lies_at(
    found: Option<&serde_json::Value>,
    root: serde_json::Value,
    path: Seq<Seq<char>>,
) -> bool {
    &&& strings_in(found) == below(json_strings(root), path)
    &&& numbers_in(found) == below(json_numbers(root), path)
}

/// Going behind `first` and then behind `second` is going behind both.
proof fn lemma_below_twice<V>(
    contents: Map<Seq<Seq<char>>, V>,
    first: Seq<Seq<char>>,
    second: Seq<Seq<char>>,
)
    ensures
        below(below(contents, first), second) == below(contents, first + second),
{
    assert forall|path: Seq<Seq<char>>| first + (second + path) == (first + second) + path by {
        assert(first + (second + path) =~= (first + second) + path);
    }
    assert(below(below(contents, first), second) =~= below(contents, first + second));
}

/// Steps from a value that may be absent to its member under `key`.
fn step<'a>(
    parent: Option<&'a serde_json::Value>,
    key: &str,
    Ghost(root): Ghost<serde_json::Value>,
    Ghost(path): Ghost<Seq<Seq<char>>>,
) -> (found: Option<&'a serde_json::Value>)
    requires
        lies_at(parent, root, path),
    ensures
        lies_at(found, root, path.push(key@)),
{
    proof {
        lemma_below_twice(json_strings(root), path, seq![key@]);
        lemma_below_twice(json_numbers(root), path, seq![key@]);
        assert(path + seq![key@] == path.push(key@));
    }
    match parent {
        Some(value) => member(value, key),
        None => {
            assert(below(Map::<Seq<Seq<char>>, Seq<char>>::empty(), seq![key@]) =~= Map::empty());
            assert(below(Map::<Seq<Seq<char>>, u64>::empty(), seq![key@]) =~= Map::empty());
            None
        },
    }
}

/// Reads a value that may be absent as a string.
fn string_in(
    value: Option<&serde_json::Value>,
    Ghost(root): Ghost<serde_json::Value>,
    Ghost(path): Ghost<Seq<Seq<char>>>,
) -> (found: Option<String>)
    requires
        lies_at(value, root, path),
    ensures
        found.deep_view() == json_strings(root).get(path),
{
    proof {
        let end = Seq::<Seq<char>>::empty();
        assert(path + end == path);
        assert(below(json_strings(root), path).contains_key(end) == json_strings(
            root,
        ).contains_key(path + end));
    }
    match value {
        Some(value) => match as_text(value) {
            Some(text) => Some(text.to_owned()),
            None => None,
        },
        None => None,
    }
}

/// Reads a value that may be absent as an unsigned integer.
fn number_in(
    value: Option<&serde_json::Value>,
    Ghost(root): Ghost<serde_json::Value>,
    Ghost(path): Ghost<Seq<Seq<char>>>,
) -> (found: Option<u64>)
    requires
        lies_at(value, root, path),
    ensures
        found == json_numbers(root).get(path),
{
    proof {
        let end = Seq::<Seq<char>>::empty();
        assert(path + end == path);
        assert(below(json_numbers(root), path).contains_key(end) == json_numbers(
            root,
        ).contains_key(path + end));
    }
    match value {
        Some(value) => as_number(value),
        None => None,
    }
}

/// Cuts a full name at its one slash.
fn split(full_name: &str) -> (parts: Option<Repository>)
    ensures
        parts.deep_view() == split_full_name(full_name@),
{
    let chars = to_chars(full_name);
    let n: usize = chars.len();
    let cut: usize = find_char(&chars, 0, n, '/');
    proof {
        assert(chars@.subrange(0, n as int) == full_name@);
    }
    if cut == n {
        return None;
    }
    let next: usize = find_char(&chars, cut + 1, n, '/');
    proof {
        let rest = full_name@.skip(cut + 1);
        assert(chars@.subrange(cut + 1, n as int) == rest);
        lemma_first_index_of(rest, '/');
        if next < n {
            assert(rest.contains(rest[next - cut - 1]));
        }
    }
    if next < n {
        return None;
    }
    Some(Repository { owner: slice(full_name, 0, cut), name: slice(full_name, cut + 1, n) })
}

impl DeepView for Repository {
    type V = RepositoryView;

    open spec fn deep_view(&self) -> RepositoryView {
        self@
    }
}

impl WebhookFields {
    /// Reads the fields of an event out of a JSON document.
    pub fn read(document: &serde_json::Value) -> (fields: WebhookFields)
        ensures
            fields@ == document_fields(json_strings(*document), json_numbers(*document)),
    {
        let ghost top = *document;
        let ghost here = Seq::<Seq<char>>::empty();
        let ghost at_action = seq!["action"@];
        let ghost at_comment = seq!["comment"@];
        let ghost at_body = seq!["comment"@, "body"@];
        let ghost at_id = seq!["comment"@, "id"@];
        let ghost at_user = seq!["comment"@, "user"@];
        let ghost at_login = seq!["comment"@, "user"@, "login"@];
        let ghost at_association = seq!["comment"@, "author_association"@];
        let ghost at_issue = seq!["issue"@];
        let ghost at_number = seq!["issue"@, "number"@];
        let ghost at_repository = seq!["repository"@];
        let ghost at_full_name = seq!["repository"@, "full_name"@];
        let ghost at_owner = seq!["repository"@, "owner"@];
        let ghost at_owner_login = seq!["repository"@, "owner"@, "login"@];
        let ghost at_name = seq!["repository"@, "name"@];
        let root = Some(document);
        proof {
            assert forall|path: Seq<Seq<char>>| here + path == path by {
                assert(here + path =~= path);
            }
            assert(below(json_strings(top), here) =~= json_strings(top));
            assert(below(json_numbers(top), here) =~= json_numbers(top));
            assert(here.push("action"@) == at_action);
            assert(here.push("comment"@) == at_comment);
            assert(here.push("issue"@) == at_issue);
            assert(here.push("repository"@) == at_repository);
            assert(at_comment.push("body"@) == at_body);
            assert(at_comment.push("id"@) == at_id);
            assert(at_comment.push("user"@) == at_user);
            assert(at_user.push("login"@) == at_login);
            assert(at_comment.push("author_association"@) == at_association);
            assert(at_issue.push("number"@) == at_number);
            assert(at_repository.push("full_name"@) == at_full_name);
            assert(at_repository.push("owner"@) == at_owner);
            assert(at_owner.push("login"@) == at_owner_login);
            assert(at_repository.push("name"@) == at_name);
        }
        let action = step(root, "action", Ghost(top), Ghost(here));
        let comment = step(root, "comment", Ghost(top), Ghost(here));
        let issue = step(root, "issue", Ghost(top), Ghost(here));
        let repository = step(root, "repository", Ghost(top), Ghost(here));
        let body = step(comment, "body", Ghost(top), Ghost(at_comment));
        let id = step(comment, "id", Ghost(top), Ghost(at_comment));
        let user = step(comment, "user", Ghost(top), Ghost(at_comment));
        let login = step(user, "login", Ghost(top), Ghost(at_user));
        let association = step(comment, "author_association", Ghost(top), Ghost(at_comment));
        let number = step(issue, "number", Ghost(top), Ghost(at_issue));
        let full_name = step(repository, "full_name", Ghost(top), Ghost(at_repository));
        let owner = step(repository, "owner", Ghost(top), Ghost(at_repository));
        let owner_login = step(owner, "login", Ghost(top), Ghost(at_owner));
        let name = step(repository, "name", Ghost(top), Ghost(at_repository));
        WebhookFields {
            action: string_in(action, Ghost(top), Ghost(at_action)),
            comment_body: string_in(body, Ghost(top), Ghost(at_body)),
            comment_id: number_in(id, Ghost(top), Ghost(at_id)),
            author: string_in(login, Ghost(top), Ghost(at_login)),
            author_association: string_in(association, Ghost(top), Ghost(at_association)),
            issue_number: number_in(number, Ghost(top), Ghost(at_number)),
            full_name: string_in(full_name, Ghost(top), Ghost(at_full_name)),
            owner: string_in(owner_login, Ghost(top), Ghost(at_owner_login)),
            name: string_in(name, Ghost(top), Ghost(at_name)),
        }
    }

    /// Names the repository of the event.
    fn repository(full_name: Option<String>, owner: Option<String>, name: Option<String>) -> (repo:
        Result<Repository, ParseError>)
        ensures
            match repo {
                Ok(repo) => Ok(repo@),
                Err(error) => Err(error),
            } == repository_of(full_name.deep_view(), owner.deep_view(), name.deep_view()),
    {
        match full_name {
            Some(full_name) => match split(full_name.as_str()) {
                Some(repo) => Ok(repo),
                None => Err(ParseError::InvalidFullName),
            },
            None => match (owner, name) {
                (Some(owner), Some(name)) => Ok(Repository { owner, name }),
                _ => Err(ParseError::MissingRepository),
            },
        }
    }
}

impl Webhook {
    /// Builds the event from the fields of a document.
    ///
    /// Every field of the event must be there. The first that is missing, in
    /// the order in which `ParseError` lists them, decides the error. The
    /// repository is taken from the full name, which must hold exactly one
    /// slash; where the document has no full name, from owner and name.
    pub fn from_fields(fields: WebhookFields) -> (outcome: Result<Webhook, ParseError>)
        ensures
            outcome_view(outcome) == webhook_of(fields@),
    {
        let WebhookFields {
            action,
            comment_body,
            comment_id,
            author,
            author_association,
            issue_number,
            full_name,
            owner,
            name,
        } = fields;
        let action = match action {
            Some(action) => action,
            None => { return Err(ParseError::MissingAction); },
        };
        let comment = match comment_body {
            Some(comment) => comment,
            None => { return Err(ParseError::MissingCommentBody); },
        };
        let comment_id = match comment_id {
            Some(id) => decimal_string(id),
            None => { return Err(ParseError::MissingCommentId); },
        };
        let author = match author {
            Some(author) => author,
            None => { return Err(ParseError::MissingAuthor); },
        };
        let author_association = match author_association {
            Some(association) => association,
            None => { return Err(ParseError::MissingAuthorAssociation); },
        };
        let issue_number = match issue_number {
            Some(number) => number,
            None => { return Err(ParseError::MissingIssueNumber); },
        };
        let repo = match WebhookFields::repository(full_name, owner, name) {
            Ok(repo) => repo,
            Err(error) => { return Err(error); },
        };
        Ok(Webhook { action, comment, comment_id, author, author_association, issue_number, repo })
    }

    /// Builds the event from a JSON document.
    pub fn from_document(document: &serde_json::Value) -> (outcome: Result<Webhook, ParseError>)
        ensures
            outcome_view(outcome) == webhook_of(
                document_fields(json_strings(*document), json_numbers(*document)),
            ),
    {
        Webhook::from_fields(WebhookFields::read(document))
    }

    /// Parses the text of an `issue_comment` event.
    ///
    /// The text must be one JSON document; members that the event does not
    /// need are passed over. Fails with `MalformedJson` where the text is no
    /// JSON, and with the error of `from_fields` where a field is missing.
    pub fn parse_from_str(text: &str) -> (outcome: Result<Webhook, ParseError>)
        ensures
            outcome_view(outcome) == parse_from_str_spec(text@),
    {
        match read_document(text) {
            Ok(document) => Webhook::from_document(&document),
            Err(_) => Err(ParseError::MalformedJson),
        }
    }
}

/// Parses the bytes of an `issue_comment` event: UTF-8 text that holds one
/// JSON document with the fields of the event.
///
/// Fails with `MalformedJson` where the bytes are not UTF-8 or the text is no
/// JSON, and with the error of `Webhook::from_fields` where a field is
/// missing.
pub fn parse(document: &[u8]) -> (outcome: Result<Webhook, ParseError>)
    ensures
        outcome_view(outcome) == parse_spec(document@),
{
    match as_utf8(document) {
        Some(text) => {
            proof {
                vstd::utf8::encode_utf8_decode_utf8(text@);
            }
            Webhook::parse_from_str(text)
        },
        None => Err(ParseError::MalformedJson),
    }
}

/// A full name that splits is its owner, a slash and its name, and neither
/// part holds a slash.
pub proof fn law_full_name_splits_at_its_slash(full_name: Seq<char>)
    requires
        split_full_name(full_name) is Some,
    ensures
        ({
            let repo = split_full_name(full_name)->0;
            &&& full_name == repo.owner + seq!['/'] + repo.name
            &&& !repo.owner.contains('/')
            &&& !repo.name.contains('/')
        }),
{
    let repo = split_full_name(full_name)->0;
    lemma_first_index_of(full_name, '/');
    assert(full_name == repo.owner + seq!['/'] + repo.name);
    if repo.owner.contains('/') {
        let at = choose|at: int| 0 <= at < repo.owner.len() && repo.owner[at] == '/';
        assert(full_name[at] == '/');
    }
}

/// An owner and a name without a slash, joined by a slash, split into the
/// two again.
pub proof fn law_owner_slash_name_splits(owner: Seq<char>, name: Seq<char>)
    requires
        !owner.contains('/'),
        !name.contains('/'),
    ensures
        split_full_name(owner + seq!['/'] + name) == Some(RepositoryView { owner, name }),
{
    let full_name = owner + seq!['/'] + name;
    assert forall|j: int| 0 <= j < owner.len() implies full_name[j] != '/' by {
        assert(owner.contains(full_name[j]));
    }
    crate::text::lemma_first_index_is(full_name, '/', owner.len() as int);
    assert(full_name.take(owner.len() as int) == owner);
    assert(full_name.skip(owner.len() as int + 1) == name);
}

/// A document without a string at `comment.author_association` gives no
/// event: parsing it fails, and the error names a field. Where the four
/// fields that are read before it are there, the error names this one.
pub proof fn law_missing_author_association_fails(text: Seq<char>)
    requires
        text_fields(text) matches Some(fields) && fields.author_association is None,
    ensures
        parse_from_str_spec(text) is Err,
        parse_from_str_spec(text)->Err_0.names_field(),
        ({
            let fields = text_fields(text)->0;
            fields.action is Some && fields.comment_body is Some && fields.comment_id is Some
                && fields.author is Some
        }) ==> parse_from_str_spec(text) == Err::<WebhookView, ParseError>(
            ParseError::MissingAuthorAssociation,
        ),
{
}

/// An event exists only where all of its fields were found: parsing succeeds
/// exactly on JSON documents that hold the six plain fields and name a
/// repository.
pub proof fn law_parse_succeeds_iff_complete(text: Seq<char>)
    ensures
        parse_from_str_spec(text) is Ok <==> text_fields(text) is Some && ({
            let fields = text_fields(text)->0;
            &&& fields.action is Some
            &&& fields.comment_body is Some
            &&& fields.comment_id is Some
            &&& fields.author is Some
            &&& fields.author_association is Some
            &&& fields.issue_number is Some
            &&& repository_of(fields.full_name, fields.owner, fields.name) is Ok
        }),
{
}

/// The event is determined by the document: two parses of the same bytes
/// end in the same way, with the same event or the same error.
pub proof fn law_parse_is_repeatable(
    document: Seq<u8>,
    once: Result<Webhook, ParseError>,
    again: Result<Webhook, ParseError>,
)
    requires
        outcome_view(once) == parse_spec(document),
        outcome_view(again) == parse_spec(document),
    ensures
        outcome_view(once) == outcome_view(again),
{
}

} // verus!
