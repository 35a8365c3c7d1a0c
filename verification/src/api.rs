//! What the library reads of the answers of the GitHub API, and the choices
//! it makes among them.
//!
//! The requests themselves are made elsewhere; the functions here take what
//! came back as plain values.

use crate::text::to_chars;
use vstd::prelude::*;

verus! {

/// A pull request, as far as the library reads it.
#[derive(PartialEq, Debug)]
pub struct PullRequest {
    /// Number of the pull request in its repository.
    pub number: u64,
    /// Whether the pull request is open.
    pub open: bool,
    /// Name of the branch that the pull request wants to merge.
    pub branch: String,
}

/// Mathematical value of a [`PullRequest`].
pub struct PullRequestView {
    pub number: u64,
    pub open: bool,
    pub branch: Seq<char>,
}

impl View for PullRequest {
    type V = PullRequestView;

    open spec fn view(&self) -> PullRequestView {
        PullRequestView { number: self.number, open: self.open, branch: self.branch@ }
    }
}

impl DeepView for PullRequest {
    type V = PullRequestView;

    open spec fn deep_view(&self) -> PullRequestView {
        self@
    }
}

impl Clone for PullRequest {
    fn clone(&self) -> (copy: Self)
        ensures
            copy@ == self@,
    {
        PullRequest { number: self.number, open: self.open, branch: self.branch.clone() }
    }
}

/// A comment on an issue or pull request, as far as the library reads it.
#[derive(PartialEq, Debug)]
pub struct Comment {
    /// Identifier of the comment.
    pub id: u64,
    /// Text of the comment, where it has one.
    pub body: Option<String>,
}

/// Mathematical value of a [`Comment`].
pub struct CommentView {
    pub id: u64,
    pub body: Option<Seq<char>>,
}

impl View for Comment {
    type V = CommentView;

    open spec fn view(&self) -> CommentView {
        CommentView { id: self.id, body: self.body.deep_view() }
    }
}

impl DeepView for Comment {
    type V = CommentView;

    open spec fn deep_view(&self) -> CommentView {
        self@
    }
}

impl Clone for Comment {
    fn clone(&self) -> (copy: Self)
        ensures
            copy@ == self@,
    {
        let body = match &self.body {
            Some(text) => Some(text.clone()),
            None => None,
        };
        Comment { id: self.id, body }
    }
}

/// Why no single pull request or comment could be chosen.
#[derive(Clone, Copy, PartialEq, Eq, Debug, Structural)]
pub enum ApiError {
    /// None of the pull requests is open.
    NoOpenPullRequest,
    /// More than one of the pull requests is open.
    MultipleOpenPullRequests,
    /// More than one comment starts with the text looked for.
    MultipleComments,
}

impl ApiError {
    /// The text that reports the error.
    pub open spec fn message_spec(self) -> Seq<char> {
        match self {
            ApiError::NoOpenPullRequest => "no open pull request found"@,
            ApiError::MultipleOpenPullRequests => "multiple open pull request found"@,
            ApiError::MultipleComments => "multiple match comments found"@,
        }
    }

    /// A message for people.
    pub fn message(&self) -> (text: String)
        ensures
            text@ == self.message_spec(),
    {
        let text = match self {
            ApiError::NoOpenPullRequest => "no open pull request found",
            ApiError::MultipleOpenPullRequests => "multiple open pull request found",
            ApiError::MultipleComments => "multiple match comments found",
        };
        String::from_str(text)
    }
}

/// The test for an open pull request.
pub open spec fn is_open() -> spec_fn(PullRequestView) -> bool {
    |pull_request: PullRequestView| pull_request.open
}

/// The pull request to comment on: the one that is open. No open one and
/// several open ones are errors.
pub open spec fn find_pull_request_spec(pull_requests: Seq<PullRequestView>) -> Result<
    PullRequestView,
    ApiError,
> {
    let open = pull_requests.filter(is_open());
    if open.len() == 0 {
        Err(ApiError::NoOpenPullRequest)
    } else if open.len() > 1 {
        Err(ApiError::MultipleOpenPullRequests)
    } else {
        Ok(open[0])
    }
}

/// Whether the text of `comment` starts with `filter`.
pub open spec fn starts_with(comment: CommentView, filter: Seq<char>) -> bool {
    match comment.body {
        Some(body) => filter.is_prefix_of(body),
        None => false,
    }
}

/// `starts_with` for a fixed `filter`.
pub open spec fn starting_with(filter: Seq<char>) -> spec_fn(CommentView) -> bool {
    |comment: CommentView| starts_with(comment, filter)
}

/// The comment that starts with `filter`, if there is one. Several such
/// comments are an error.
pub open spec fn find_comment_spec(comments: Seq<CommentView>, filter: Seq<char>) -> Result<
    Option<CommentView>,
    ApiError,
> {
    let matching = comments.filter(starting_with(filter));
    if matching.len() == 0 {
        Ok(None)
    } else if matching.len() > 1 {
        Err(ApiError::MultipleComments)
    } else {
        Ok(Some(matching[0]))
    }
}

/// Chooses the open pull request among those that the API returned for a
/// commit.
///
/// Succeeds where exactly one of them is open, and returns that one.
pub fn find_pull_request(pull_requests: &Vec<PullRequest>) -> (found: Result<
    &PullRequest,
    ApiError,
>)
    ensures
        match found {
            Ok(pull_request) => Ok(pull_request@),
            Err(error) => Err(error),
        } == find_pull_request_spec(pull_requests.deep_view()),
{
    let ghost all = pull_requests.deep_view();
    let mut found: Option<&PullRequest> = None;
    let mut several: bool = false;
    let mut i: usize = 0;
    proof {
        reveal(Seq::filter);
    }
    while i < pull_requests.len()
        invariant
            i <= pull_requests.len(),
            all == pull_requests.deep_view(),
            several == (all.take(i as int).filter(is_open()).len() > 1),
            match found {
                Some(pull_request) => all.take(i as int).filter(is_open()).len() > 0
                    && all.take(i as int).filter(is_open())[0] == pull_request@,
                None => all.take(i as int).filter(is_open()).len() == 0,
            },
        decreases pull_requests.len() - i,
    {
        proof {
            assert(all.take(i + 1) == all.take(i as int).push(all[i as int]));
            all.take(i as int).lemma_filter_push(all[i as int], is_open());
        }
        if pull_requests[i].open {
            if found.is_some() {
                several = true;
            } else {
                found = Some(&pull_requests[i]);
            }
        }
        i += 1;
    }
    assert(all.take(pull_requests.len() as int) == all);
    match found {
        None => Err(ApiError::NoOpenPullRequest),
        Some(pull_request) => if several {
            Err(ApiError::MultipleOpenPullRequests)
        } else {
            Ok(pull_request)
        },
    }
}

/// Whether `body` starts with the characters `filter`.
fn has_prefix(body: &str, filter: &Vec<char>) -> (found: bool)
    ensures
        found == filter@.is_prefix_of(body@),
{
    let chars = to_chars(body);
    if filter.len() > chars.len() {
        return false;
    }
    let mut i: usize = 0;
    while i < filter.len()
        invariant
            i <= filter.len() <= chars.len(),
            chars@ == body@,
            forall|j: int| 0 <= j < i ==> chars@[j] == filter@[j],
        decreases filter.len() - i,
    {
        if chars[i] != filter[i] {
            return false;
        }
        i += 1;
    }
    true
}

/// Chooses the comment that starts with `filter` among the comments of a
/// pull request.
///
/// Succeeds where at most one comment starts with `filter`, and returns it,
/// or nothing where there is none. A comment without text does not start
/// with anything.
pub fn find_comment<'a>(comments: &'a Vec<Comment>, filter: &str) -> (found: Result<
    Option<&'a Comment>,
    ApiError,
>)
    ensures
        match found {
            Ok(Some(comment)) => Ok(Some(comment@)),
            Ok(None) => Ok(None),
            Err(error) => Err(error),
        } == find_comment_spec(comments.deep_view(), filter@),
{
    let ghost all = comments.deep_view();
    let ghost test = starting_with(filter@);
    let pattern = to_chars(filter);
    let mut found: Option<&Comment> = None;
    let mut several: bool = false;
    let mut i: usize = 0;
    proof {
        reveal(Seq::filter);
    }
    while i < comments.len()
        invariant
            i <= comments.len(),
            all == comments.deep_view(),
            test == starting_with(filter@),
            pattern@ == filter@,
            several == (all.take(i as int).filter(test).len() > 1),
            match found {
                Some(comment) => all.take(i as int).filter(test).len() > 0 && all.take(
                    i as int,
                ).filter(test)[0] == comment@,
                None => all.take(i as int).filter(test).len() == 0,
            },
        decreases comments.len() - i,
    {
        proof {
            assert(all.take(i + 1) == all.take(i as int).push(all[i as int]));
            all.take(i as int).lemma_filter_push(all[i as int], test);
        }
        let matches = match &comments[i].body {
            Some(body) => has_prefix(body.as_str(), &pattern),
            None => false,
        };
        if matches {
            if found.is_some() {
                several = true;
            } else {
                found = Some(&comments[i]);
            }
        }
        i += 1;
    }
    assert(all.take(comments.len() as int) == all);
    if several {
        Err(ApiError::MultipleComments)
    } else {
        Ok(found)
    }
}

/// Where nothing passes the test, nothing is kept.
proof fn lemma_filter_none<A>(s: Seq<A>, test: spec_fn(A) -> bool)
    requires
        forall|i: int| 0 <= i < s.len() ==> !test(s[i]),
    ensures
        s.filter(test) == Seq::<A>::empty(),
    decreases s.len(),
{
    reveal(Seq::filter);
    if s.len() > 0 {
        lemma_filter_none(s.drop_last(), test);
    }
}

/// Where only the item at `at` passes the test, it alone is kept.
proof fn lemma_filter_one<A>(s: Seq<A>, test: spec_fn(A) -> bool, at: int)
    requires
        0 <= at < s.len(),
        test(s[at]),
        forall|i: int| 0 <= i < s.len() && i != at ==> !test(s[i]),
    ensures
        s.filter(test) == seq![s[at]],
{
    let before = s.take(at);
    let after = s.skip(at + 1);
    assert(s == before.push(s[at]) + after);
    Seq::filter_distributes_over_add(before.push(s[at]), after, test);
    before.lemma_filter_push(s[at], test);
    lemma_filter_none(before, test);
    lemma_filter_none(after, test);
}

/// Where two items pass the test, at least two are kept.
proof fn lemma_filter_two<A>(s: Seq<A>, test: spec_fn(A) -> bool, first: int, second: int)
    requires
        0 <= first < second < s.len(),
        test(s[first]),
        test(s[second]),
    ensures
        s.filter(test).len() >= 2,
{
    let before = s.take(second);
    let after = s.skip(second);
    assert(s == before + after);
    Seq::filter_distributes_over_add(before, after, test);
    before.lemma_filter_contains(test, first);
    after.lemma_filter_contains(test, 0);
}

/// Where exactly one pull request is open, that one is found.
pub proof fn law_the_open_pull_request_is_found(pull_requests: Seq<PullRequestView>, at: int)
    requires
        0 <= at < pull_requests.len(),
        pull_requests[at].open,
        forall|i: int| 0 <= i < pull_requests.len() && i != at ==> !pull_requests[i].open,
    ensures
        find_pull_request_spec(pull_requests) == Ok::<PullRequestView, ApiError>(
            pull_requests[at],
        ),
{
    lemma_filter_one(pull_requests, is_open(), at);
}

/// Where no pull request is open, the search fails for want of one.
pub proof fn law_no_open_pull_request(pull_requests: Seq<PullRequestView>)
    requires
        forall|i: int| 0 <= i < pull_requests.len() ==> !pull_requests[i].open,
    ensures
        find_pull_request_spec(pull_requests) == Err::<PullRequestView, ApiError>(
            ApiError::NoOpenPullRequest,
        ),
{
    lemma_filter_none(pull_requests, is_open());
}

/// Where two pull requests are open, the search fails for having several.
pub proof fn law_several_open_pull_requests(
    pull_requests: Seq<PullRequestView>,
    first: int,
    second: int,
)
    requires
        0 <= first < second < pull_requests.len(),
        pull_requests[first].open,
        pull_requests[second].open,
    ensures
        find_pull_request_spec(pull_requests) == Err::<PullRequestView, ApiError>(
            ApiError::MultipleOpenPullRequests,
        ),
{
    lemma_filter_two(pull_requests, is_open(), first, second);
}

/// Where exactly one comment starts with the filter, that one is found.
pub proof fn law_the_matching_comment_is_found(
    comments: Seq<CommentView>,
    filter: Seq<char>,
    at: int,
)
    requires
        0 <= at < comments.len(),
        starts_with(comments[at], filter),
        forall|i: int| 0 <= i < comments.len() && i != at ==> !starts_with(comments[i], filter),
    ensures
        find_comment_spec(comments, filter) == Ok::<Option<CommentView>, ApiError>(
            Some(comments[at]),
        ),
{
    lemma_filter_one(comments, starting_with(filter), at);
}

/// Where no comment starts with the filter, none is found, and that is no
/// error.
pub proof fn law_no_matching_comment(comments: Seq<CommentView>, filter: Seq<char>)
    requires
        forall|i: int| 0 <= i < comments.len() ==> !starts_with(comments[i], filter),
    ensures
        find_comment_spec(comments, filter) == Ok::<Option<CommentView>, ApiError>(None),
{
    lemma_filter_none(comments, starting_with(filter));
}

/// Where two comments start with the filter, the search fails.
pub proof fn law_several_matching_comments(
    comments: Seq<CommentView>,
    filter: Seq<char>,
    first: int,
    second: int,
)
    requires
        0 <= first < second < comments.len(),
        starts_with(comments[first], filter),
        starts_with(comments[second], filter),
    ensures
        find_comment_spec(comments, filter) == Err::<Option<CommentView>, ApiError>(
            ApiError::MultipleComments,
        ),
{
    lemma_filter_two(comments, starting_with(filter), first, second);
}

} // verus!
