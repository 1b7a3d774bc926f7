//! The pull-request domain model, and the decoding of each record from a
//! JSON payload.
use vstd::prelude::*;
use crate::error::{DecodeError, DecodeFailure, Expected};
use crate::field::{
    mismatch, objects_at, optional_error, optional_is, required_error, str_value, uint_value,
    bool_value, object_value, Rule, required_str, optional_str, required_u64, optional_u64,
    required_bool, optional_bool, required_object_id, optional_object_id, required_timestamp,
    optional_timestamp, required_object, optional_object, required_objects, keeps_others,
};
use crate::json::{member, take_member, JsonObject, JsonValue};

verus! {

/// A GitHub user, as the payload gives it.
pub type User = JsonObject;

/// A GitHub team, as the payload gives it.
pub type Team = JsonObject;

/// An issue label, as the payload gives it.
pub type Label = JsonObject;

/// A milestone, as the payload gives it.
pub type Milestone = JsonObject;

/// A repository, as the payload gives it.
pub type Repository = JsonObject;

/// A reaction summary, as the payload gives it.
pub type ReactionSummary = JsonObject;

/// A git object id: forty hexadecimal digits.
pub type Oid = String;

/// GitHub's opaque global node identifier.
pub type NodeId = String;

/// An ISO-8601 UTC instant, `YYYY-MM-DDTHH:MM:SSZ`.
pub type DateTime = String;

/// The state of a pull request.
#[derive(Clone, Copy, Debug, PartialEq, Eq, Structural)]
pub enum PullRequestState {
    Open,
    Closed,
    Merged,
}

/// The pull-request state named by a wire token, if any.
pub open spec fn pull_request_state_of(s: Seq<char>) -> Option<PullRequestState> {
    if s == "open"@ {
        Some(PullRequestState::Open)
    } else if s == "closed"@ {
        Some(PullRequestState::Closed)
    } else if s == "merged"@ {
        Some(PullRequestState::Merged)
    } else {
        None
    }
}

/// The state of a review when it was fetched.
#[derive(Clone, Copy, Debug, PartialEq, Eq, Structural)]
pub enum ReviewState {
    Approved,
    ChangesRequested,
    Commented,
    Dismissed,
}

/// The review state named by a wire token, if any.
pub open spec fn review_state_of(s: Seq<char>) -> Option<ReviewState> {
    if s == "approved"@ {
        Some(ReviewState::Approved)
    } else if s == "changes_requested"@ {
        Some(ReviewState::ChangesRequested)
    } else if s == "commented"@ {
        Some(ReviewState::Commented)
    } else if s == "dismissed"@ {
        Some(ReviewState::Dismissed)
    } else {
        None
    }
}

/// Reads a pull-request state token. Tokens are matched exactly.
pub fn parse_pull_request_state(s: &str) -> (r: Option<PullRequestState>)
    ensures
        r == pull_request_state_of(s@),
{
    let t = s.to_owned();
    if t == "open".to_owned() {
        Some(PullRequestState::Open)
    } else if t == "closed".to_owned() {
        Some(PullRequestState::Closed)
    } else if t == "merged".to_owned() {
        Some(PullRequestState::Merged)
    } else {
        None
    }
}

/// Reads a review state token. Tokens are matched exactly.
pub fn parse_review_state(s: &str) -> (r: Option<ReviewState>)
    ensures
        r == review_state_of(s@),
{
    let t = s.to_owned();
    if t == "approved".to_owned() {
        Some(ReviewState::Approved)
    } else if t == "changes_requested".to_owned() {
        Some(ReviewState::ChangesRequested)
    } else if t == "commented".to_owned() {
        Some(ReviewState::Commented)
    } else if t == "dismissed".to_owned() {
        Some(ReviewState::Dismissed)
    } else {
        None
    }
}

/// A required pull-request state member must be a string naming a state.
pub open spec fn pull_request_state_error(o: Seq<(String, JsonValue)>, key: Seq<char>) -> Option<
    DecodeFailure,
> {
    match member(o, key) {
        None => Some(DecodeFailure::MissingField(key)),
        Some(JsonValue::Str(s)) => if pull_request_state_of(s@) is Some {
            None
        } else {
            Some(DecodeFailure::UnrecognizedEnumValue(key, s@))
        },
        Some(v) => mismatch(key, Expected::Str, v),
    }
}

pub open spec fn state_at(o: Seq<(String, JsonValue)>, key: Seq<char>, x: PullRequestState) -> bool {
    member(o, key) matches Some(JsonValue::Str(s)) && pull_request_state_of(s@) == Some(x)
}

/// A required review state member must be a string naming a state.
pub open spec fn review_state_error(o: Seq<(String, JsonValue)>, key: Seq<char>) -> Option<
    DecodeFailure,
> {
    match member(o, key) {
        None => Some(DecodeFailure::MissingField(key)),
        Some(JsonValue::Str(s)) => if review_state_of(s@) is Some {
            None
        } else {
            Some(DecodeFailure::UnrecognizedEnumValue(key, s@))
        },
        Some(v) => mismatch(key, Expected::Str, v),
    }
}

pub open spec fn review_state_at(o: Seq<(String, JsonValue)>, key: Seq<char>, x: ReviewState) -> bool {
    member(o, key) matches Some(JsonValue::Str(s)) && review_state_of(s@) == Some(x)
}

fn required_pull_request_state(o: &mut JsonObject, key: &str) -> (r: Result<PullRequestState, DecodeError>)
    ensures
        keeps_others(old(o)@, final(o)@, key@),
        match r {
            Ok(x) => pull_request_state_error(old(o)@, key@) is None && state_at(old(o)@, key@, x),
            Err(e) => pull_request_state_error(old(o)@, key@) == Some(e@),
        },
{
    match take_member(o, key) {
        None => Err(DecodeError::MissingField(key.to_owned())),
        Some(JsonValue::Str(s)) => match parse_pull_request_state(s.as_str()) {
            Some(x) => Ok(x),
            None => Err(DecodeError::UnrecognizedEnumValue(key.to_owned(), s)),
        },
        Some(v) => Err(DecodeError::TypeMismatch(key.to_owned(), Expected::Str, v.kind_of())),
    }
}

fn required_review_state(o: &mut JsonObject, key: &str) -> (r: Result<ReviewState, DecodeError>)
    ensures
        keeps_others(old(o)@, final(o)@, key@),
        match r {
            Ok(x) => review_state_error(old(o)@, key@) is None && review_state_at(old(o)@, key@, x),
            Err(e) => review_state_error(old(o)@, key@) == Some(e@),
        },
{
    match take_member(o, key) {
        None => Err(DecodeError::MissingField(key.to_owned())),
        Some(JsonValue::Str(s)) => match parse_review_state(s.as_str()) {
            Some(x) => Ok(x),
            None => Err(DecodeError::UnrecognizedEnumValue(key.to_owned(), s)),
        },
        Some(v) => Err(DecodeError::TypeMismatch(key.to_owned(), Expected::Str, v.kind_of())),
    }
}

/// One end (head or base) of a pull request's diff range.
#[derive(Debug)]
pub struct CommitRef {
    /// Display label, e.g. `owner:branch`; not checked against the other fields.
    pub label: String,
    /// Branch or ref name.
    pub git_ref: String,
    pub sha: Oid,
    pub user: User,
    /// Absent where the source repository was deleted.
    pub repo: Option<Repository>,
}

/// The first field of `o`, in declaration order, that breaks its rule, and why.
pub open spec fn commit_ref_error(o: Seq<(String, JsonValue)>) -> Option<DecodeFailure> {
    if let Some(e) = required_error(o, "label"@, Rule::Str) {
        Some(e)
    } else if let Some(e) = required_error(o, "ref"@, Rule::Str) {
        Some(e)
    } else if let Some(e) = required_error(o, "sha"@, Rule::ObjectId) {
        Some(e)
    } else if let Some(e) = required_error(o, "user"@, Rule::Object) {
        Some(e)
    } else if let Some(e) = optional_error(o, "repo"@, Rule::Object) {
        Some(e)
    } else {
        None
    }
}

/// Every field of `x` holds what `o` has under that field's name.
pub open spec fn commit_ref_matches(x: CommitRef, o: Seq<(String, JsonValue)>) -> bool {
    &&& member(o, "label"@) == Some(JsonValue::Str(x.label))
    &&& member(o, "ref"@) == Some(JsonValue::Str(x.git_ref))
    &&& member(o, "sha"@) == Some(JsonValue::Str(x.sha))
    &&& member(o, "user"@) == Some(JsonValue::Object(x.user))
    &&& optional_is(o, "repo"@, object_value(x.repo))
}

pub(crate) fn commit_ref_from(o: JsonObject) -> (r: Result<CommitRef, DecodeError>)
    ensures
        match r {
            Ok(x) => commit_ref_error(o@) is None && commit_ref_matches(x, o@),
            Err(e) => commit_ref_error(o@) == Some(e@),
        },
{
    let mut o = o;
    proof {
        // Field names are told apart by their length and a few characters.
        reveal_strlit("label");
        assert("label"@.len() == 5 && "label"@[0] == 'l');
        reveal_strlit("ref");
        assert("ref"@.len() == 3 && "ref"@[0] == 'r');
        reveal_strlit("repo");
        assert("repo"@.len() == 4 && "repo"@[0] == 'r');
        reveal_strlit("sha");
        assert("sha"@.len() == 3 && "sha"@[0] == 's');
        reveal_strlit("user");
        assert("user"@.len() == 4 && "user"@[0] == 'u');
    }
    let label = required_str(&mut o, "label")?;
    let git_ref = required_str(&mut o, "ref")?;
    let sha = required_object_id(&mut o, "sha")?;
    let user = required_object(&mut o, "user")?;
    let repo = optional_object(&mut o, "repo")?;
    Ok(CommitRef {
        label,
        git_ref,
        sha,
        user,
        repo,
    })
}

/// A required commit-reference member must be an object that decodes as one.
pub open spec fn commit_ref_member_error(o: Seq<(String, JsonValue)>, key: Seq<char>) -> Option<
    DecodeFailure,
> {
    match member(o, key) {
        None => Some(DecodeFailure::MissingField(key)),
        Some(JsonValue::Object(m)) => commit_ref_error(m@),
        Some(v) => mismatch(key, Expected::Object, v),
    }
}

pub open spec fn commit_ref_at(o: Seq<(String, JsonValue)>, key: Seq<char>, x: CommitRef) -> bool {
    member(o, key) matches Some(JsonValue::Object(m)) && commit_ref_matches(x, m@)
}

fn required_commit_ref(o: &mut JsonObject, key: &str) -> (r: Result<CommitRef, DecodeError>)
    ensures
        keeps_others(old(o)@, final(o)@, key@),
        match r {
            Ok(x) => commit_ref_member_error(old(o)@, key@) is None && commit_ref_at(old(o)@, key@, x),
            Err(e) => commit_ref_member_error(old(o)@, key@) == Some(e@),
        },
{
    let m = required_object(o, key)?;
    commit_ref_from(m)
}

/// One review verdict on a pull request.
#[derive(Debug)]
pub struct Review {
    pub id: u64,
    pub node_id: NodeId,
    pub user: User,
    /// Absent for a review without text.
    pub body: Option<String>,
    /// The head commit when the review was submitted.
    pub commit_id: Oid,
    pub submitted_at: DateTime,
    pub state: ReviewState,
    pub html_url: String,
    pub pull_request_url: String,
    pub author_association: String,
}

/// The first field of `o`, in declaration order, that breaks its rule, and why.
pub open spec fn review_error(o: Seq<(String, JsonValue)>) -> Option<DecodeFailure> {
    if let Some(e) = required_error(o, "id"@, Rule::UInt) {
        Some(e)
    } else if let Some(e) = required_error(o, "node_id"@, Rule::Str) {
        Some(e)
    } else if let Some(e) = required_error(o, "user"@, Rule::Object) {
        Some(e)
    } else if let Some(e) = optional_error(o, "body"@, Rule::Str) {
        Some(e)
    } else if let Some(e) = required_error(o, "commit_id"@, Rule::ObjectId) {
        Some(e)
    } else if let Some(e) = required_error(o, "submitted_at"@, Rule::Timestamp) {
        Some(e)
    } else if let Some(e) = review_state_error(o, "state"@) {
        Some(e)
    } else if let Some(e) = required_error(o, "html_url"@, Rule::Str) {
        Some(e)
    } else if let Some(e) = required_error(o, "pull_request_url"@, Rule::Str) {
        Some(e)
    } else if let Some(e) = required_error(o, "author_association"@, Rule::Str) {
        Some(e)
    } else {
        None
    }
}

/// Every field of `x` holds what `o` has under that field's name.
pub open spec fn review_matches(x: Review, o: Seq<(String, JsonValue)>) -> bool {
    &&& member(o, "id"@) == Some(JsonValue::UInt(x.id))
    &&& member(o, "node_id"@) == Some(JsonValue::Str(x.node_id))
    &&& member(o, "user"@) == Some(JsonValue::Object(x.user))
    &&& optional_is(o, "body"@, str_value(x.body))
    &&& member(o, "commit_id"@) == Some(JsonValue::Str(x.commit_id))
    &&& member(o, "submitted_at"@) == Some(JsonValue::Str(x.submitted_at))
    &&& review_state_at(o, "state"@, x.state)
    &&& member(o, "html_url"@) == Some(JsonValue::Str(x.html_url))
    &&& member(o, "pull_request_url"@) == Some(JsonValue::Str(x.pull_request_url))
    &&& member(o, "author_association"@) == Some(JsonValue::Str(x.author_association))
}

pub(crate) fn review_from(o: JsonObject) -> (r: Result<Review, DecodeError>)
    ensures
        match r {
            Ok(x) => review_error(o@) is None && review_matches(x, o@),
            Err(e) => review_error(o@) == Some(e@),
        },
{
    let mut o = o;
    proof {
        // Field names are told apart by their length and a few characters.
        reveal_strlit("author_association");
        assert("author_association"@.len() == 18 && "author_association"@[0] == 'a');
        reveal_strlit("body");
        assert("body"@.len() == 4 && "body"@[0] == 'b');
        reveal_strlit("commit_id");
        assert("commit_id"@.len() == 9 && "commit_id"@[0] == 'c');
        reveal_strlit("html_url");
        assert("html_url"@.len() == 8 && "html_url"@[0] == 'h');
        reveal_strlit("id");
        assert("id"@.len() == 2 && "id"@[0] == 'i');
        reveal_strlit("node_id");
        assert("node_id"@.len() == 7 && "node_id"@[0] == 'n');
        reveal_strlit("pull_request_url");
        assert("pull_request_url"@.len() == 16 && "pull_request_url"@[0] == 'p');
        reveal_strlit("state");
        assert("state"@.len() == 5 && "state"@[0] == 's');
        reveal_strlit("submitted_at");
        assert("submitted_at"@.len() == 12 && "submitted_at"@[0] == 's');
        reveal_strlit("user");
        assert("user"@.len() == 4 && "user"@[0] == 'u');
    }
    let id = required_u64(&mut o, "id")?;
    let node_id = required_str(&mut o, "node_id")?;
    let user = required_object(&mut o, "user")?;
    let body = optional_str(&mut o, "body")?;
    let commit_id = required_object_id(&mut o, "commit_id")?;
    let submitted_at = required_timestamp(&mut o, "submitted_at")?;
    let state = required_review_state(&mut o, "state")?;
    let html_url = required_str(&mut o, "html_url")?;
    let pull_request_url = required_str(&mut o, "pull_request_url")?;
    let author_association = required_str(&mut o, "author_association")?;
    Ok(Review {
        id,
        node_id,
        user,
        body,
        commit_id,
        submitted_at,
        state,
        html_url,
        pull_request_url,
        author_association,
    })
}

/// An inline comment on a pull request's diff.
#[derive(Debug)]
pub struct ReviewComment {
    pub url: String,
    pub id: u64,
    pub node_id: NodeId,
    pub pull_request_review_id: u64,
    pub diff_hunk: String,
    pub path: String,
    /// Absent once a force-push invalidates the line mapping.
    pub position: Option<u64>,
    pub original_position: u64,
    pub commit_id: Oid,
    pub original_commit_id: Oid,
    /// The comment this one answers, if any.
    pub in_reply_to_id: Option<u64>,
    pub user: User,
    pub body: Option<String>,
    pub created_at: DateTime,
    pub updated_at: DateTime,
    pub html_url: String,
    pub pull_request_url: String,
    pub author_association: String,
    pub start_line: Option<u64>,
    pub original_start_line: Option<u64>,
    pub start_side: Option<String>,
    pub line: Option<u64>,
    pub original_line: Option<u64>,
    pub side: Option<String>,
    pub reactions: Option<ReactionSummary>,
}

/// The first field of `o`, in declaration order, that breaks its rule, and why.
pub open spec fn review_comment_error(o: Seq<(String, JsonValue)>) -> Option<DecodeFailure> {
    if let Some(e) = required_error(o, "url"@, Rule::Str) {
        Some(e)
    } else if let Some(e) = required_error(o, "id"@, Rule::UInt) {
        Some(e)
    } else if let Some(e) = required_error(o, "node_id"@, Rule::Str) {
        Some(e)
    } else if let Some(e) = required_error(o, "pull_request_review_id"@, Rule::UInt) {
        Some(e)
    } else if let Some(e) = required_error(o, "diff_hunk"@, Rule::Str) {
        Some(e)
    } else if let Some(e) = required_error(o, "path"@, Rule::Str) {
        Some(e)
    } else if let Some(e) = optional_error(o, "position"@, Rule::UInt) {
        Some(e)
    } else if let Some(e) = required_error(o, "original_position"@, Rule::UInt) {
        Some(e)
    } else if let Some(e) = required_error(o, "commit_id"@, Rule::ObjectId) {
        Some(e)
    } else if let Some(e) = required_error(o, "original_commit_id"@, Rule::ObjectId) {
        Some(e)
    } else if let Some(e) = optional_error(o, "in_reply_to_id"@, Rule::UInt) {
        Some(e)
    } else if let Some(e) = required_error(o, "user"@, Rule::Object) {
        Some(e)
    } else if let Some(e) = optional_error(o, "body"@, Rule::Str) {
        Some(e)
    } else if let Some(e) = required_error(o, "created_at"@, Rule::Timestamp) {
        Some(e)
    } else if let Some(e) = required_error(o, "updated_at"@, Rule::Timestamp) {
        Some(e)
    } else if let Some(e) = required_error(o, "html_url"@, Rule::Str) {
        Some(e)
    } else if let Some(e) = required_error(o, "pull_request_url"@, Rule::Str) {
        Some(e)
    } else if let Some(e) = required_error(o, "author_association"@, Rule::Str) {
        Some(e)
    } else if let Some(e) = optional_error(o, "start_line"@, Rule::UInt) {
        Some(e)
    } else if let Some(e) = optional_error(o, "original_start_line"@, Rule::UInt) {
        Some(e)
    } else if let Some(e) = optional_error(o, "start_side"@, Rule::Str) {
        Some(e)
    } else if let Some(e) = optional_error(o, "line"@, Rule::UInt) {
        Some(e)
    } else if let Some(e) = optional_error(o, "original_line"@, Rule::UInt) {
        Some(e)
    } else if let Some(e) = optional_error(o, "side"@, Rule::Str) {
        Some(e)
    } else if let Some(e) = optional_error(o, "reactions"@, Rule::Object) {
        Some(e)
    } else {
        None
    }
}

/// Every field of `x` holds what `o` has under that field's name.
pub open spec fn review_comment_matches(x: ReviewComment, o: Seq<(String, JsonValue)>) -> bool {
    &&& member(o, "url"@) == Some(JsonValue::Str(x.url))
    &&& member(o, "id"@) == Some(JsonValue::UInt(x.id))
    &&& member(o, "node_id"@) == Some(JsonValue::Str(x.node_id))
    &&& member(o, "pull_request_review_id"@) == Some(JsonValue::UInt(x.pull_request_review_id))
    &&& member(o, "diff_hunk"@) == Some(JsonValue::Str(x.diff_hunk))
    &&& member(o, "path"@) == Some(JsonValue::Str(x.path))
    &&& optional_is(o, "position"@, uint_value(x.position))
    &&& member(o, "original_position"@) == Some(JsonValue::UInt(x.original_position))
    &&& member(o, "commit_id"@) == Some(JsonValue::Str(x.commit_id))
    &&& member(o, "original_commit_id"@) == Some(JsonValue::Str(x.original_commit_id))
    &&& optional_is(o, "in_reply_to_id"@, uint_value(x.in_reply_to_id))
    &&& member(o, "user"@) == Some(JsonValue::Object(x.user))
    &&& optional_is(o, "body"@, str_value(x.body))
    &&& member(o, "created_at"@) == Some(JsonValue::Str(x.created_at))
    &&& member(o, "updated_at"@) == Some(JsonValue::Str(x.updated_at))
    &&& member(o, "html_url"@) == Some(JsonValue::Str(x.html_url))
    &&& member(o, "pull_request_url"@) == Some(JsonValue::Str(x.pull_request_url))
    &&& member(o, "author_association"@) == Some(JsonValue::Str(x.author_association))
    &&& optional_is(o, "start_line"@, uint_value(x.start_line))
    &&& optional_is(o, "original_start_line"@, uint_value(x.original_start_line))
    &&& optional_is(o, "start_side"@, str_value(x.start_side))
    &&& optional_is(o, "line"@, uint_value(x.line))
    &&& optional_is(o, "original_line"@, uint_value(x.original_line))
    &&& optional_is(o, "side"@, str_value(x.side))
    &&& optional_is(o, "reactions"@, object_value(x.reactions))
}

pub(crate) fn review_comment_from(o: JsonObject) -> (r: Result<ReviewComment, DecodeError>)
    ensures
        match r {
            Ok(x) => review_comment_error(o@) is None && review_comment_matches(x, o@),
            Err(e) => review_comment_error(o@) == Some(e@),
        },
{
    let mut o = o;
    proof {
        // Field names are told apart by their length and a few characters.
        reveal_strlit("author_association");
        assert("author_association"@.len() == 18 && "author_association"@[0] == 'a' && "author_association"@[6] == '_');
        reveal_strlit("body");
        assert("body"@.len() == 4 && "body"@[0] == 'b');
        reveal_strlit("commit_id");
        assert("commit_id"@.len() == 9 && "commit_id"@[0] == 'c' && "commit_id"@[6] == '_');
        reveal_strlit("created_at");
        assert("created_at"@.len() == 10 && "created_at"@[0] == 'c' && "created_at"@[6] == 'd');
        reveal_strlit("diff_hunk");
        assert("diff_hunk"@.len() == 9 && "diff_hunk"@[0] == 'd' && "diff_hunk"@[6] == 'u');
        reveal_strlit("html_url");
        assert("html_url"@.len() == 8 && "html_url"@[0] == 'h' && "html_url"@[6] == 'r');
        reveal_strlit("id");
        assert("id"@.len() == 2 && "id"@[0] == 'i');
        reveal_strlit("in_reply_to_id");
        assert("in_reply_to_id"@.len() == 14 && "in_reply_to_id"@[0] == 'i' && "in_reply_to_id"@[6] == 'l');
        reveal_strlit("line");
        assert("line"@.len() == 4 && "line"@[0] == 'l');
        reveal_strlit("node_id");
        assert("node_id"@.len() == 7 && "node_id"@[0] == 'n' && "node_id"@[6] == 'd');
        reveal_strlit("original_commit_id");
        assert("original_commit_id"@.len() == 18 && "original_commit_id"@[0] == 'o' && "original_commit_id"@[6] == 'a');
        reveal_strlit("original_line");
        assert("original_line"@.len() == 13 && "original_line"@[0] == 'o' && "original_line"@[6] == 'a');
        reveal_strlit("original_position");
        assert("original_position"@.len() == 17 && "original_position"@[0] == 'o' && "original_position"@[6] == 'a');
        reveal_strlit("original_start_line");
        assert("original_start_line"@.len() == 19 && "original_start_line"@[0] == 'o' && "original_start_line"@[6] == 'a');
        reveal_strlit("path");
        assert("path"@.len() == 4 && "path"@[0] == 'p');
        reveal_strlit("position");
        assert("position"@.len() == 8 && "position"@[0] == 'p' && "position"@[6] == 'o');
        reveal_strlit("pull_request_review_id");
        assert("pull_request_review_id"@.len() == 22 && "pull_request_review_id"@[0] == 'p' && "pull_request_review_id"@[6] == 'e');
        reveal_strlit("pull_request_url");
        assert("pull_request_url"@.len() == 16 && "pull_request_url"@[0] == 'p' && "pull_request_url"@[6] == 'e');
        reveal_strlit("reactions");
        assert("reactions"@.len() == 9 && "reactions"@[0] == 'r' && "reactions"@[6] == 'o');
        reveal_strlit("side");
        assert("side"@.len() == 4 && "side"@[0] == 's');
        reveal_strlit("start_line");
        assert("start_line"@.len() == 10 && "start_line"@[0] == 's' && "start_line"@[6] == 'l');
        reveal_strlit("start_side");
        assert("start_side"@.len() == 10 && "start_side"@[0] == 's' && "start_side"@[6] == 's');
        reveal_strlit("updated_at");
        assert("updated_at"@.len() == 10 && "updated_at"@[0] == 'u' && "updated_at"@[6] == 'd');
        reveal_strlit("url");
        assert("url"@.len() == 3 && "url"@[0] == 'u');
        reveal_strlit("user");
        assert("user"@.len() == 4 && "user"@[0] == 'u');
    }
    let url = required_str(&mut o, "url")?;
    let id = required_u64(&mut o, "id")?;
    let node_id = required_str(&mut o, "node_id")?;
    let pull_request_review_id = required_u64(&mut o, "pull_request_review_id")?;
    let diff_hunk = required_str(&mut o, "diff_hunk")?;
    let path = required_str(&mut o, "path")?;
    let position = optional_u64(&mut o, "position")?;
    let original_position = required_u64(&mut o, "original_position")?;
    let commit_id = required_object_id(&mut o, "commit_id")?;
    let original_commit_id = required_object_id(&mut o, "original_commit_id")?;
    let in_reply_to_id = optional_u64(&mut o, "in_reply_to_id")?;
    let user = required_object(&mut o, "user")?;
    let body = optional_str(&mut o, "body")?;
    let created_at = required_timestamp(&mut o, "created_at")?;
    let updated_at = required_timestamp(&mut o, "updated_at")?;
    let html_url = required_str(&mut o, "html_url")?;
    let pull_request_url = required_str(&mut o, "pull_request_url")?;
    let author_association = required_str(&mut o, "author_association")?;
    let start_line = optional_u64(&mut o, "start_line")?;
    let original_start_line = optional_u64(&mut o, "original_start_line")?;
    let start_side = optional_str(&mut o, "start_side")?;
    let line = optional_u64(&mut o, "line")?;
    let original_line = optional_u64(&mut o, "original_line")?;
    let side = optional_str(&mut o, "side")?;
    let reactions = optional_object(&mut o, "reactions")?;
    Ok(ReviewComment {
        url,
        id,
        node_id,
        pull_request_review_id,
        diff_hunk,
        path,
        position,
        original_position,
        commit_id,
        original_commit_id,
        in_reply_to_id,
        user,
        body,
        created_at,
        updated_at,
        html_url,
        pull_request_url,
        author_association,
        start_line,
        original_start_line,
        start_side,
        line,
        original_line,
        side,
        reactions,
    })
}

/// A snapshot of one pull request at fetch time. The merge, mergeability and
/// statistics fields are present only where a single pull request was fetched.
#[derive(Debug)]
pub struct PullRequest {
    pub url: String,
    pub id: u64,
    pub node_id: NodeId,
    pub html_url: String,
    pub diff_url: String,
    pub patch_url: String,
    pub issue_url: String,
    pub number: u64,
    pub state: PullRequestState,
    pub locked: bool,
    pub title: String,
    pub user: User,
    pub body: Option<String>,
    pub created_at: DateTime,
    pub updated_at: DateTime,
    pub closed_at: Option<DateTime>,
    pub merged_at: Option<DateTime>,
    pub merge_commit_sha: Option<Oid>,
    pub assignee: Option<User>,
    pub assignees: Vec<User>,
    pub requested_reviewers: Vec<User>,
    pub requested_teams: Vec<Team>,
    pub labels: Vec<Label>,
    pub milestone: Option<Milestone>,
    pub commits_url: String,
    pub review_comments_url: String,
    pub review_comment_url: String,
    pub comments_url: String,
    pub statuses_url: String,
    pub head: CommitRef,
    pub base: CommitRef,
    pub author_association: String,
    pub draft: Option<bool>,
    pub merged: Option<bool>,
    pub mergeable: Option<bool>,
    pub rebaseable: Option<bool>,
    pub mergeable_state: Option<String>,
    pub merged_by: Option<User>,
    pub comments: Option<u64>,
    pub review_comments: Option<u64>,
    pub maintainer_can_modify: Option<bool>,
    pub commits: Option<u64>,
    pub additions: Option<u64>,
    pub deletions: Option<u64>,
    pub changed_files: Option<u64>,
}

/// The first field of `o`, in declaration order, that breaks its rule, and why.
pub open spec fn pull_request_error(o: Seq<(String, JsonValue)>) -> Option<DecodeFailure> {
    if let Some(e) = required_error(o, "url"@, Rule::Str) {
        Some(e)
    } else if let Some(e) = required_error(o, "id"@, Rule::UInt) {
        Some(e)
    } else if let Some(e) = required_error(o, "node_id"@, Rule::Str) {
        Some(e)
    } else if let Some(e) = required_error(o, "html_url"@, Rule::Str) {
        Some(e)
    } else if let Some(e) = required_error(o, "diff_url"@, Rule::Str) {
        Some(e)
    } else if let Some(e) = required_error(o, "patch_url"@, Rule::Str) {
        Some(e)
    } else if let Some(e) = required_error(o, "issue_url"@, Rule::Str) {
        Some(e)
    } else if let Some(e) = required_error(o, "number"@, Rule::UInt) {
        Some(e)
    } else if let Some(e) = pull_request_state_error(o, "state"@) {
        Some(e)
    } else if let Some(e) = required_error(o, "locked"@, Rule::Bool) {
        Some(e)
    } else if let Some(e) = required_error(o, "title"@, Rule::Str) {
        Some(e)
    } else if let Some(e) = required_error(o, "user"@, Rule::Object) {
        Some(e)
    } else if let Some(e) = optional_error(o, "body"@, Rule::Str) {
        Some(e)
    } else if let Some(e) = required_error(o, "created_at"@, Rule::Timestamp) {
        Some(e)
    } else if let Some(e) = required_error(o, "updated_at"@, Rule::Timestamp) {
        Some(e)
    } else if let Some(e) = optional_error(o, "closed_at"@, Rule::Timestamp) {
        Some(e)
    } else if let Some(e) = optional_error(o, "merged_at"@, Rule::Timestamp) {
        Some(e)
    } else if let Some(e) = optional_error(o, "merge_commit_sha"@, Rule::ObjectId) {
        Some(e)
    } else if let Some(e) = optional_error(o, "assignee"@, Rule::Object) {
        Some(e)
    } else if let Some(e) = required_error(o, "assignees"@, Rule::Objects) {
        Some(e)
    } else if let Some(e) = required_error(o, "requested_reviewers"@, Rule::Objects) {
        Some(e)
    } else if let Some(e) = required_error(o, "requested_teams"@, Rule::Objects) {
        Some(e)
    } else if let Some(e) = required_error(o, "labels"@, Rule::Objects) {
        Some(e)
    } else if let Some(e) = optional_error(o, "milestone"@, Rule::Object) {
        Some(e)
    } else if let Some(e) = required_error(o, "commits_url"@, Rule::Str) {
        Some(e)
    } else if let Some(e) = required_error(o, "review_comments_url"@, Rule::Str) {
        Some(e)
    } else if let Some(e) = required_error(o, "review_comment_url"@, Rule::Str) {
        Some(e)
    } else if let Some(e) = required_error(o, "comments_url"@, Rule::Str) {
        Some(e)
    } else if let Some(e) = required_error(o, "statuses_url"@, Rule::Str) {
        Some(e)
    } else if let Some(e) = commit_ref_member_error(o, "head"@) {
        Some(e)
    } else if let Some(e) = commit_ref_member_error(o, "base"@) {
        Some(e)
    } else if let Some(e) = required_error(o, "author_association"@, Rule::Str) {
        Some(e)
    } else if let Some(e) = optional_error(o, "draft"@, Rule::Bool) {
        Some(e)
    } else if let Some(e) = optional_error(o, "merged"@, Rule::Bool) {
        Some(e)
    } else if let Some(e) = optional_error(o, "mergeable"@, Rule::Bool) {
        Some(e)
    } else if let Some(e) = optional_error(o, "rebaseable"@, Rule::Bool) {
        Some(e)
    } else if let Some(e) = optional_error(o, "mergeable_state"@, Rule::Str) {
        Some(e)
    } else if let Some(e) = optional_error(o, "merged_by"@, Rule::Object) {
        Some(e)
    } else if let Some(e) = optional_error(o, "comments"@, Rule::UInt) {
        Some(e)
    } else if let Some(e) = optional_error(o, "review_comments"@, Rule::UInt) {
        Some(e)
    } else if let Some(e) = optional_error(o, "maintainer_can_modify"@, Rule::Bool) {
        Some(e)
    } else if let Some(e) = optional_error(o, "commits"@, Rule::UInt) {
        Some(e)
    } else if let Some(e) = optional_error(o, "additions"@, Rule::UInt) {
        Some(e)
    } else if let Some(e) = optional_error(o, "deletions"@, Rule::UInt) {
        Some(e)
    } else if let Some(e) = optional_error(o, "changed_files"@, Rule::UInt) {
        Some(e)
    } else {
        None
    }
}

/// Every field of `x` holds what `o` has under that field's name.
pub open spec fn pull_request_matches(x: PullRequest, o: Seq<(String, JsonValue)>) -> bool {
    &&& member(o, "url"@) == Some(JsonValue::Str(x.url))
    &&& member(o, "id"@) == Some(JsonValue::UInt(x.id))
    &&& member(o, "node_id"@) == Some(JsonValue::Str(x.node_id))
    &&& member(o, "html_url"@) == Some(JsonValue::Str(x.html_url))
    &&& member(o, "diff_url"@) == Some(JsonValue::Str(x.diff_url))
    &&& member(o, "patch_url"@) == Some(JsonValue::Str(x.patch_url))
    &&& member(o, "issue_url"@) == Some(JsonValue::Str(x.issue_url))
    &&& member(o, "number"@) == Some(JsonValue::UInt(x.number))
    &&& state_at(o, "state"@, x.state)
    &&& member(o, "locked"@) == Some(JsonValue::Bool(x.locked))
    &&& member(o, "title"@) == Some(JsonValue::Str(x.title))
    &&& member(o, "user"@) == Some(JsonValue::Object(x.user))
    &&& optional_is(o, "body"@, str_value(x.body))
    &&& member(o, "created_at"@) == Some(JsonValue::Str(x.created_at))
    &&& member(o, "updated_at"@) == Some(JsonValue::Str(x.updated_at))
    &&& optional_is(o, "closed_at"@, str_value(x.closed_at))
    &&& optional_is(o, "merged_at"@, str_value(x.merged_at))
    &&& optional_is(o, "merge_commit_sha"@, str_value(x.merge_commit_sha))
    &&& optional_is(o, "assignee"@, object_value(x.assignee))
    &&& objects_at(o, "assignees"@, x.assignees@)
    &&& objects_at(o, "requested_reviewers"@, x.requested_reviewers@)
    &&& objects_at(o, "requested_teams"@, x.requested_teams@)
    &&& objects_at(o, "labels"@, x.labels@)
    &&& optional_is(o, "milestone"@, object_value(x.milestone))
    &&& member(o, "commits_url"@) == Some(JsonValue::Str(x.commits_url))
    &&& member(o, "review_comments_url"@) == Some(JsonValue::Str(x.review_comments_url))
    &&& member(o, "review_comment_url"@) == Some(JsonValue::Str(x.review_comment_url))
    &&& member(o, "comments_url"@) == Some(JsonValue::Str(x.comments_url))
    &&& member(o, "statuses_url"@) == Some(JsonValue::Str(x.statuses_url))
    &&& commit_ref_at(o, "head"@, x.head)
    &&& commit_ref_at(o, "base"@, x.base)
    &&& member(o, "author_association"@) == Some(JsonValue::Str(x.author_association))
    &&& optional_is(o, "draft"@, bool_value(x.draft))
    &&& optional_is(o, "merged"@, bool_value(x.merged))
    &&& optional_is(o, "mergeable"@, bool_value(x.mergeable))
    &&& optional_is(o, "rebaseable"@, bool_value(x.rebaseable))
    &&& optional_is(o, "mergeable_state"@, str_value(x.mergeable_state))
    &&& optional_is(o, "merged_by"@, object_value(x.merged_by))
    &&& optional_is(o, "comments"@, uint_value(x.comments))
    &&& optional_is(o, "review_comments"@, uint_value(x.review_comments))
    &&& optional_is(o, "maintainer_can_modify"@, bool_value(x.maintainer_can_modify))
    &&& optional_is(o, "commits"@, uint_value(x.commits))
    &&& optional_is(o, "additions"@, uint_value(x.additions))
    &&& optional_is(o, "deletions"@, uint_value(x.deletions))
    &&& optional_is(o, "changed_files"@, uint_value(x.changed_files))
}

#[verifier::rlimit(100)]
pub(crate) fn pull_request_from(o: JsonObject) -> (r: Result<PullRequest, DecodeError>)
    ensures
        match r {
            Ok(x) => pull_request_error(o@) is None && pull_request_matches(x, o@),
            Err(e) => pull_request_error(o@) == Some(e@),
        },
{
    let mut o = o;
    proof {
        // Field names are told apart by their length and a few characters.
        reveal_strlit("additions");
        assert("additions"@.len() == 9 && "additions"@[2] == 'd' && "additions"@[0] == 'a' && "additions"@[7] == 'n');
        reveal_strlit("assignee");
        assert("assignee"@.len() == 8 && "assignee"@[2] == 's' && "assignee"@[0] == 'a' && "assignee"@[7] == 'e');
        reveal_strlit("assignees");
        assert("assignees"@.len() == 9 && "assignees"@[2] == 's' && "assignees"@[0] == 'a' && "assignees"@[7] == 'e');
        reveal_strlit("author_association");
        assert("author_association"@.len() == 18 && "author_association"@[2] == 't' && "author_association"@[0] == 'a' && "author_association"@[7] == 'a');
        reveal_strlit("base");
        assert("base"@.len() == 4 && "base"@[2] == 's' && "base"@[0] == 'b');
        reveal_strlit("body");
        assert("body"@.len() == 4 && "body"@[2] == 'd' && "body"@[0] == 'b');
        reveal_strlit("changed_files");
        assert("changed_files"@.len() == 13 && "changed_files"@[2] == 'a' && "changed_files"@[0] == 'c' && "changed_files"@[7] == '_');
        reveal_strlit("closed_at");
        assert("closed_at"@.len() == 9 && "closed_at"@[2] == 'o' && "closed_at"@[0] == 'c' && "closed_at"@[7] == 'a');
        reveal_strlit("comments");
        assert("comments"@.len() == 8 && "comments"@[2] == 'm' && "comments"@[0] == 'c' && "comments"@[7] == 's');
        reveal_strlit("comments_url");
        assert("comments_url"@.len() == 12 && "comments_url"@[2] == 'm' && "comments_url"@[0] == 'c' && "comments_url"@[7] == 's');
        reveal_strlit("commits");
        assert("commits"@.len() == 7 && "commits"@[2] == 'm' && "commits"@[0] == 'c');
        reveal_strlit("commits_url");
        assert("commits_url"@.len() == 11 && "commits_url"@[2] == 'm' && "commits_url"@[0] == 'c' && "commits_url"@[7] == '_');
        reveal_strlit("created_at");
        assert("created_at"@.len() == 10 && "created_at"@[2] == 'e' && "created_at"@[0] == 'c' && "created_at"@[7] == '_');
        reveal_strlit("deletions");
        assert("deletions"@.len() == 9 && "deletions"@[2] == 'l' && "deletions"@[0] == 'd' && "deletions"@[7] == 'n');
        reveal_strlit("diff_url");
        assert("diff_url"@.len() == 8 && "diff_url"@[2] == 'f' && "diff_url"@[0] == 'd' && "diff_url"@[7] == 'l');
        reveal_strlit("draft");
        assert("draft"@.len() == 5 && "draft"@[2] == 'a' && "draft"@[0] == 'd');
        reveal_strlit("head");
        assert("head"@.len() == 4 && "head"@[2] == 'a' && "head"@[0] == 'h');
        reveal_strlit("html_url");
        assert("html_url"@.len() == 8 && "html_url"@[2] == 'm' && "html_url"@[0] == 'h' && "html_url"@[7] == 'l');
        reveal_strlit("id");
        assert("id"@.len() == 2 && "id"@[0] == 'i');
        reveal_strlit("issue_url");
        assert("issue_url"@.len() == 9 && "issue_url"@[2] == 's' && "issue_url"@[0] == 'i' && "issue_url"@[7] == 'r');
        reveal_strlit("labels");
        assert("labels"@.len() == 6 && "labels"@[2] == 'b' && "labels"@[0] == 'l');
        reveal_strlit("locked");
        assert("locked"@.len() == 6 && "locked"@[2] == 'c' && "locked"@[0] == 'l');
        reveal_strlit("maintainer_can_modify");
        assert("maintainer_can_modify"@.len() == 21 && "maintainer_can_modify"@[2] == 'i' && "maintainer_can_modify"@[0] == 'm' && "maintainer_can_modify"@[7] == 'n');
        reveal_strlit("merge_commit_sha");
        assert("merge_commit_sha"@.len() == 16 && "merge_commit_sha"@[2] == 'r' && "merge_commit_sha"@[0] == 'm' && "merge_commit_sha"@[7] == 'o');
        reveal_strlit("mergeable");
        assert("mergeable"@.len() == 9 && "mergeable"@[2] == 'r' && "mergeable"@[0] == 'm' && "mergeable"@[7] == 'l');
        reveal_strlit("mergeable_state");
        assert("mergeable_state"@.len() == 15 && "mergeable_state"@[2] == 'r' && "mergeable_state"@[0] == 'm' && "mergeable_state"@[7] == 'l');
        reveal_strlit("merged");
        assert("merged"@.len() == 6 && "merged"@[2] == 'r' && "merged"@[0] == 'm');
        reveal_strlit("merged_at");
        assert("merged_at"@.len() == 9 && "merged_at"@[2] == 'r' && "merged_at"@[0] == 'm' && "merged_at"@[7] == 'a');
        reveal_strlit("merged_by");
        assert("merged_by"@.len() == 9 && "merged_by"@[2] == 'r' && "merged_by"@[0] == 'm' && "merged_by"@[7] == 'b');
        reveal_strlit("milestone");
        assert("milestone"@.len() == 9 && "milestone"@[2] == 'l' && "milestone"@[0] == 'm' && "milestone"@[7] == 'n');
        reveal_strlit("node_id");
        assert("node_id"@.len() == 7 && "node_id"@[2] == 'd' && "node_id"@[0] == 'n');
        reveal_strlit("number");
        assert("number"@.len() == 6 && "number"@[2] == 'm' && "number"@[0] == 'n');
        reveal_strlit("patch_url");
        assert("patch_url"@.len() == 9 && "patch_url"@[2] == 't' && "patch_url"@[0] == 'p' && "patch_url"@[7] == 'r');
        reveal_strlit("rebaseable");
        assert("rebaseable"@.len() == 10 && "rebaseable"@[2] == 'b' && "rebaseable"@[0] == 'r' && "rebaseable"@[7] == 'b');
        reveal_strlit("requested_reviewers");
        assert("requested_reviewers"@.len() == 19 && "requested_reviewers"@[2] == 'q' && "requested_reviewers"@[0] == 'r' && "requested_reviewers"@[7] == 'e');
        reveal_strlit("requested_teams");
        assert("requested_teams"@.len() == 15 && "requested_teams"@[2] == 'q' && "requested_teams"@[0] == 'r' && "requested_teams"@[7] == 'e');
        reveal_strlit("review_comment_url");
        assert("review_comment_url"@.len() == 18 && "review_comment_url"@[2] == 'v' && "review_comment_url"@[0] == 'r' && "review_comment_url"@[7] == 'c');
        reveal_strlit("review_comments");
        assert("review_comments"@.len() == 15 && "review_comments"@[2] == 'v' && "review_comments"@[0] == 'r' && "review_comments"@[7] == 'c');
        reveal_strlit("review_comments_url");
        assert("review_comments_url"@.len() == 19 && "review_comments_url"@[2] == 'v' && "review_comments_url"@[0] == 'r' && "review_comments_url"@[7] == 'c');
        reveal_strlit("state");
        assert("state"@.len() == 5 && "state"@[2] == 'a' && "state"@[0] == 's');
        reveal_strlit("statuses_url");
        assert("statuses_url"@.len() == 12 && "statuses_url"@[2] == 'a' && "statuses_url"@[0] == 's' && "statuses_url"@[7] == 's');
        reveal_strlit("title");
        assert("title"@.len() == 5 && "title"@[2] == 't' && "title"@[0] == 't');
        reveal_strlit("updated_at");
        assert("updated_at"@.len() == 10 && "updated_at"@[2] == 'd' && "updated_at"@[0] == 'u' && "updated_at"@[7] == '_');
        reveal_strlit("url");
        assert("url"@.len() == 3 && "url"@[2] == 'l' && "url"@[0] == 'u');
        reveal_strlit("user");
        assert("user"@.len() == 4 && "user"@[2] == 'e' && "user"@[0] == 'u');
    }
    let url = required_str(&mut o, "url")?;
    let id = required_u64(&mut o, "id")?;
    let node_id = required_str(&mut o, "node_id")?;
    let html_url = required_str(&mut o, "html_url")?;
    let diff_url = required_str(&mut o, "diff_url")?;
    let patch_url = required_str(&mut o, "patch_url")?;
    let issue_url = required_str(&mut o, "issue_url")?;
    let number = required_u64(&mut o, "number")?;
    let state = required_pull_request_state(&mut o, "state")?;
    let locked = required_bool(&mut o, "locked")?;
    let title = required_str(&mut o, "title")?;
    let user = required_object(&mut o, "user")?;
    let body = optional_str(&mut o, "body")?;
    let created_at = required_timestamp(&mut o, "created_at")?;
    let updated_at = required_timestamp(&mut o, "updated_at")?;
    let closed_at = optional_timestamp(&mut o, "closed_at")?;
    let merged_at = optional_timestamp(&mut o, "merged_at")?;
    let merge_commit_sha = optional_object_id(&mut o, "merge_commit_sha")?;
    let assignee = optional_object(&mut o, "assignee")?;
    let assignees = required_objects(&mut o, "assignees")?;
    let requested_reviewers = required_objects(&mut o, "requested_reviewers")?;
    let requested_teams = required_objects(&mut o, "requested_teams")?;
    let labels = required_objects(&mut o, "labels")?;
    let milestone = optional_object(&mut o, "milestone")?;
    let commits_url = required_str(&mut o, "commits_url")?;
    let review_comments_url = required_str(&mut o, "review_comments_url")?;
    let review_comment_url = required_str(&mut o, "review_comment_url")?;
    let comments_url = required_str(&mut o, "comments_url")?;
    let statuses_url = required_str(&mut o, "statuses_url")?;
    let head = required_commit_ref(&mut o, "head")?;
    let base = required_commit_ref(&mut o, "base")?;
    let author_association = required_str(&mut o, "author_association")?;
    let draft = optional_bool(&mut o, "draft")?;
    let merged = optional_bool(&mut o, "merged")?;
    let mergeable = optional_bool(&mut o, "mergeable")?;
    let rebaseable = optional_bool(&mut o, "rebaseable")?;
    let mergeable_state = optional_str(&mut o, "mergeable_state")?;
    let merged_by = optional_object(&mut o, "merged_by")?;
    let comments = optional_u64(&mut o, "comments")?;
    let review_comments = optional_u64(&mut o, "review_comments")?;
    let maintainer_can_modify = optional_bool(&mut o, "maintainer_can_modify")?;
    let commits = optional_u64(&mut o, "commits")?;
    let additions = optional_u64(&mut o, "additions")?;
    let deletions = optional_u64(&mut o, "deletions")?;
    let changed_files = optional_u64(&mut o, "changed_files")?;
    Ok(PullRequest {
        url,
        id,
        node_id,
        html_url,
        diff_url,
        patch_url,
        issue_url,
        number,
        state,
        locked,
        title,
        user,
        body,
        created_at,
        updated_at,
        closed_at,
        merged_at,
        merge_commit_sha,
        assignee,
        assignees,
        requested_reviewers,
        requested_teams,
        labels,
        milestone,
        commits_url,
        review_comments_url,
        review_comment_url,
        comments_url,
        statuses_url,
        head,
        base,
        author_association,
        draft,
        merged,
        mergeable,
        rebaseable,
        mergeable_state,
        merged_by,
        comments,
        review_comments,
        maintainer_can_modify,
        commits,
        additions,
        deletions,
        changed_files,
    })
}


impl Review {
    /// The review's text, where it has one.
    pub fn body(&self) -> (r: Option<&str>)
        ensures
            match self.body {
                Some(b) => r matches Some(t) && t@ == b@,
                None => r is None,
            },
    {
        match &self.body {
            Some(b) => Some(b.as_str()),
            None => None,
        }
    }
}

impl ReviewComment {
    /// The comment's text, where it has one.
    pub fn body(&self) -> (r: Option<&str>)
        ensures
            match self.body {
                Some(b) => r matches Some(t) && t@ == b@,
                None => r is None,
            },
    {
        match &self.body {
            Some(b) => Some(b.as_str()),
            None => None,
        }
    }
}

} // verus!
