//! Laws of decoding that relate one payload to another.
use vstd::prelude::*;
use crate::decode::{commit_ref_decoded, pull_request_decoded, review_decoded, review_comment_decoded};
use crate::error::{DecodeError, DecodeFailure};
use crate::json::{lemma_member_insert, lemma_member_without, member, without, JsonObject, JsonValue};
use crate::model::{
    commit_ref_error, commit_ref_matches, pull_request_error, pull_request_matches, review_error,
    review_matches, review_comment_error, review_comment_matches, CommitRef, PullRequest, Review,
    ReviewComment,
};

verus! {

/// `k` names a field of a commit reference.
pub open spec fn is_commit_ref_field(k: Seq<char>) -> bool {
    k == "label"@
    || k == "ref"@
    || k == "sha"@
    || k == "user"@
    || k == "repo"@
}

/// `k` names a required field of a commit reference.
pub open spec fn is_commit_ref_required(k: Seq<char>) -> bool {
    k == "label"@
    || k == "ref"@
    || k == "sha"@
    || k == "user"@
}

/// A member whose key names no field of a commit reference, inserted anywhere in a
/// payload, does not change what decoding the payload gives.
#[verifier::rlimit(100)]
pub proof fn lemma_commit_ref_ignores_unknown_member(
    o: JsonObject,
    p: JsonObject,
    i: int,
    k: String,
    x: JsonValue,
    r: Result<CommitRef, DecodeError>,
)
    requires
        0 <= i <= o@.len(),
        !is_commit_ref_field(k@),
        p@ == o@.insert(i, (k, x)),
    ensures
        commit_ref_decoded(JsonValue::Object(p), r) == commit_ref_decoded(JsonValue::Object(o), r),
{
    lemma_member_insert(o@, i, (k, x), "label"@);
    lemma_member_insert(o@, i, (k, x), "ref"@);
    lemma_member_insert(o@, i, (k, x), "sha"@);
    lemma_member_insert(o@, i, (k, x), "user"@);
    lemma_member_insert(o@, i, (k, x), "repo"@);
    assert(commit_ref_error(p@) == commit_ref_error(o@));
    assert(forall|y: CommitRef| commit_ref_matches(y, p@) == commit_ref_matches(y, o@));
}

/// Removing a required field from a payload that decodes as a commit reference makes
/// decoding fail with `MissingField` naming that field.
#[verifier::rlimit(100)]
pub proof fn lemma_commit_ref_missing_required_field(
    o: JsonObject,
    p: JsonObject,
    k: Seq<char>,
    r: Result<CommitRef, DecodeError>,
)
    requires
        commit_ref_error(o@) is None,
        is_commit_ref_required(k),
        p@ == without(o@, k),
        commit_ref_decoded(JsonValue::Object(p), r),
    ensures
        r matches Err(e) && e@ == DecodeFailure::MissingField(k),
{

    // Field names are told apart by their length and a few characters.
    reveal_strlit("label");
    assert("label"@.len() == 5 && "label"@[0] == 'l');
    reveal_strlit("ref");
    assert("ref"@.len() == 3 && "ref"@[0] == 'r');
    reveal_strlit("repo");
    assert("repo"@.len() == 4 && "repo"@[0] == 'r');
    reveal_strlit("sha");
    assert("sha"@.len() == 3 && "sha"@[0] == 's');
    reveal_strlit("user");
    assert("user"@.len() == 4 && "user"@[0] == 'u');
    assert forall|f: Seq<char>| #[trigger] member(p@, f) == if f == k {
        None
    } else {
        member(o@, f)
    } by {
        lemma_member_without(o@, k, f);
    }
}

/// `k` names a field of a pull request.
pub open spec fn is_pull_request_field(k: Seq<char>) -> bool {
    k == "url"@
    || k == "id"@
    || k == "node_id"@
    || k == "html_url"@
    || k == "diff_url"@
    || k == "patch_url"@
    || k == "issue_url"@
    || k == "number"@
    || k == "state"@
    || k == "locked"@
    || k == "title"@
    || k == "user"@
    || k == "body"@
    || k == "created_at"@
    || k == "updated_at"@
    || k == "closed_at"@
    || k == "merged_at"@
    || k == "merge_commit_sha"@
    || k == "assignee"@
    || k == "assignees"@
    || k == "requested_reviewers"@
    || k == "requested_teams"@
    || k == "labels"@
    || k == "milestone"@
    || k == "commits_url"@
    || k == "review_comments_url"@
    || k == "review_comment_url"@
    || k == "comments_url"@
    || k == "statuses_url"@
    || k == "head"@
    || k == "base"@
    || k == "author_association"@
    || k == "draft"@
    || k == "merged"@
    || k == "mergeable"@
    || k == "rebaseable"@
    || k == "mergeable_state"@
    || k == "merged_by"@
    || k == "comments"@
    || k == "review_comments"@
    || k == "maintainer_can_modify"@
    || k == "commits"@
    || k == "additions"@
    || k == "deletions"@
    || k == "changed_files"@
}

/// `k` names a required field of a pull request.
pub open spec fn is_pull_request_required(k: Seq<char>) -> bool {
    k == "url"@
    || k == "id"@
    || k == "node_id"@
    || k == "html_url"@
    || k == "diff_url"@
    || k == "patch_url"@
    || k == "issue_url"@
    || k == "number"@
    || k == "state"@
    || k == "locked"@
    || k == "title"@
    || k == "user"@
    || k == "created_at"@
    || k == "updated_at"@
    || k == "assignees"@
    || k == "requested_reviewers"@
    || k == "requested_teams"@
    || k == "labels"@
    || k == "commits_url"@
    || k == "review_comments_url"@
    || k == "review_comment_url"@
    || k == "comments_url"@
    || k == "statuses_url"@
    || k == "head"@
    || k == "base"@
    || k == "author_association"@
}

/// A member whose key names no field of a pull request, inserted anywhere in a
/// payload, does not change what decoding the payload gives.
#[verifier::rlimit(100)]
pub proof fn lemma_pull_request_ignores_unknown_member(
    o: JsonObject,
    p: JsonObject,
    i: int,
    k: String,
    x: JsonValue,
    r: Result<PullRequest, DecodeError>,
)
    requires
        0 <= i <= o@.len(),
        !is_pull_request_field(k@),
        p@ == o@.insert(i, (k, x)),
    ensures
        pull_request_decoded(JsonValue::Object(p), r) == pull_request_decoded(JsonValue::Object(o), r),
{
    lemma_member_insert(o@, i, (k, x), "url"@);
    lemma_member_insert(o@, i, (k, x), "id"@);
    lemma_member_insert(o@, i, (k, x), "node_id"@);
    lemma_member_insert(o@, i, (k, x), "html_url"@);
    lemma_member_insert(o@, i, (k, x), "diff_url"@);
    lemma_member_insert(o@, i, (k, x), "patch_url"@);
    lemma_member_insert(o@, i, (k, x), "issue_url"@);
    lemma_member_insert(o@, i, (k, x), "number"@);
    lemma_member_insert(o@, i, (k, x), "state"@);
    lemma_member_insert(o@, i, (k, x), "locked"@);
    lemma_member_insert(o@, i, (k, x), "title"@);
    lemma_member_insert(o@, i, (k, x), "user"@);
    lemma_member_insert(o@, i, (k, x), "body"@);
    lemma_member_insert(o@, i, (k, x), "created_at"@);
    lemma_member_insert(o@, i, (k, x), "updated_at"@);
    lemma_member_insert(o@, i, (k, x), "closed_at"@);
    lemma_member_insert(o@, i, (k, x), "merged_at"@);
    lemma_member_insert(o@, i, (k, x), "merge_commit_sha"@);
    lemma_member_insert(o@, i, (k, x), "assignee"@);
    lemma_member_insert(o@, i, (k, x), "assignees"@);
    lemma_member_insert(o@, i, (k, x), "requested_reviewers"@);
    lemma_member_insert(o@, i, (k, x), "requested_teams"@);
    lemma_member_insert(o@, i, (k, x), "labels"@);
    lemma_member_insert(o@, i, (k, x), "milestone"@);
    lemma_member_insert(o@, i, (k, x), "commits_url"@);
    lemma_member_insert(o@, i, (k, x), "review_comments_url"@);
    lemma_member_insert(o@, i, (k, x), "review_comment_url"@);
    lemma_member_insert(o@, i, (k, x), "comments_url"@);
    lemma_member_insert(o@, i, (k, x), "statuses_url"@);
    lemma_member_insert(o@, i, (k, x), "head"@);
    lemma_member_insert(o@, i, (k, x), "base"@);
    lemma_member_insert(o@, i, (k, x), "author_association"@);
    lemma_member_insert(o@, i, (k, x), "draft"@);
    lemma_member_insert(o@, i, (k, x), "merged"@);
    lemma_member_insert(o@, i, (k, x), "mergeable"@);
    lemma_member_insert(o@, i, (k, x), "rebaseable"@);
    lemma_member_insert(o@, i, (k, x), "mergeable_state"@);
    lemma_member_insert(o@, i, (k, x), "merged_by"@);
    lemma_member_insert(o@, i, (k, x), "comments"@);
    lemma_member_insert(o@, i, (k, x), "review_comments"@);
    lemma_member_insert(o@, i, (k, x), "maintainer_can_modify"@);
    lemma_member_insert(o@, i, (k, x), "commits"@);
    lemma_member_insert(o@, i, (k, x), "additions"@);
    lemma_member_insert(o@, i, (k, x), "deletions"@);
    lemma_member_insert(o@, i, (k, x), "changed_files"@);
    assert(pull_request_error(p@) == pull_request_error(o@));
    assert(forall|y: PullRequest| pull_request_matches(y, p@) == pull_request_matches(y, o@));
}

/// Removing a required field from a payload that decodes as a pull request makes
/// decoding fail with `MissingField` naming that field.
#[verifier::rlimit(100)]
pub proof fn lemma_pull_request_missing_required_field(
    o: JsonObject,
    p: JsonObject,
    k: Seq<char>,
    r: Result<PullRequest, DecodeError>,
)
    requires
        pull_request_error(o@) is None,
        is_pull_request_required(k),
        p@ == without(o@, k),
        pull_request_decoded(JsonValue::Object(p), r),
    ensures
        r matches Err(e) && e@ == DecodeFailure::MissingField(k),
{

    // Field names are told apart by their length and a few characters.
    reveal_strlit("additions");
    assert("additions"@.len() == 9 && "additions"@[2] == 'd' && "additions"@[0] == 'a' && "additions"@[7] == 'n');
    reveal_strlit("assignee");
    assert("assignee"@.len() == 8 && "assignee"@[2] == 's' && "assignee"@[0] == 'a' && "assignee"@[7] == 'e');
    reveal_strlit("assignees");
    assert("assignees"@.len() == 9 && "assignees"@[2] == 's' && "assignees"@[0] == 'a' && "assignees"@[7] == 'e');
    reveal_strlit("author_association");
    assert("author_association"@.len() == 18 && "author_association"@[2] == 't' && "author_association"@[0] == 'a' && "author_association"@[7] == 'a');
    reveal_strlit("base");
    assert("base"@.len() == 4 && "base"@[2] == 's' && "base"@[0] == 'b');
    reveal_strlit("body");
    assert("body"@.len() == 4 && "body"@[2] == 'd' && "body"@[0] == 'b');
    reveal_strlit("changed_files");
    assert("changed_files"@.len() == 13 && "changed_files"@[2] == 'a' && "changed_files"@[0] == 'c' && "changed_files"@[7] == '_');
    reveal_strlit("closed_at");
    assert("closed_at"@.len() == 9 && "closed_at"@[2] == 'o' && "closed_at"@[0] == 'c' && "closed_at"@[7] == 'a');
    reveal_strlit("comments");
    assert("comments"@.len() == 8 && "comments"@[2] == 'm' && "comments"@[0] == 'c' && "comments"@[7] == 's');
    reveal_strlit("comments_url");
    assert("comments_url"@.len() == 12 && "comments_url"@[2] == 'm' && "comments_url"@[0] == 'c' && "comments_url"@[7] == 's');
    reveal_strlit("commits");
    assert("commits"@.len() == 7 && "commits"@[2] == 'm' && "commits"@[0] == 'c');
    reveal_strlit("commits_url");
    assert("commits_url"@.len() == 11 && "commits_url"@[2] == 'm' && "commits_url"@[0] == 'c' && "commits_url"@[7] == '_');
    reveal_strlit("created_at");
    assert("created_at"@.len() == 10 && "created_at"@[2] == 'e' && "created_at"@[0] == 'c' && "created_at"@[7] == '_');
    reveal_strlit("deletions");
    assert("deletions"@.len() == 9 && "deletions"@[2] == 'l' && "deletions"@[0] == 'd' && "deletions"@[7] == 'n');
    reveal_strlit("diff_url");
    assert("diff_url"@.len() == 8 && "diff_url"@[2] == 'f' && "diff_url"@[0] == 'd' && "diff_url"@[7] == 'l');
    reveal_strlit("draft");
    assert("draft"@.len() == 5 && "draft"@[2] == 'a' && "draft"@[0] == 'd');
    reveal_strlit("head");
    assert("head"@.len() == 4 && "head"@[2] == 'a' && "head"@[0] == 'h');
    reveal_strlit("html_url");
    assert("html_url"@.len() == 8 && "html_url"@[2] == 'm' && "html_url"@[0] == 'h' && "html_url"@[7] == 'l');
    reveal_strlit("id");
    assert("id"@.len() == 2 && "id"@[0] == 'i');
    reveal_strlit("issue_url");
    assert("issue_url"@.len() == 9 && "issue_url"@[2] == 's' && "issue_url"@[0] == 'i' && "issue_url"@[7] == 'r');
    reveal_strlit("labels");
    assert("labels"@.len() == 6 && "labels"@[2] == 'b' && "labels"@[0] == 'l');
    reveal_strlit("locked");
    assert("locked"@.len() == 6 && "locked"@[2] == 'c' && "locked"@[0] == 'l');
    reveal_strlit("maintainer_can_modify");
    assert("maintainer_can_modify"@.len() == 21 && "maintainer_can_modify"@[2] == 'i' && "maintainer_can_modify"@[0] == 'm' && "maintainer_can_modify"@[7] == 'n');
    reveal_strlit("merge_commit_sha");
    assert("merge_commit_sha"@.len() == 16 && "merge_commit_sha"@[2] == 'r' && "merge_commit_sha"@[0] == 'm' && "merge_commit_sha"@[7] == 'o');
    reveal_strlit("mergeable");
    assert("mergeable"@.len() == 9 && "mergeable"@[2] == 'r' && "mergeable"@[0] == 'm' && "mergeable"@[7] == 'l');
    reveal_strlit("mergeable_state");
    assert("mergeable_state"@.len() == 15 && "mergeable_state"@[2] == 'r' && "mergeable_state"@[0] == 'm' && "mergeable_state"@[7] == 'l');
    reveal_strlit("merged");
    assert("merged"@.len() == 6 && "merged"@[2] == 'r' && "merged"@[0] == 'm');
    reveal_strlit("merged_at");
    assert("merged_at"@.len() == 9 && "merged_at"@[2] == 'r' && "merged_at"@[0] == 'm' && "merged_at"@[7] == 'a');
    reveal_strlit("merged_by");
    assert("merged_by"@.len() == 9 && "merged_by"@[2] == 'r' && "merged_by"@[0] == 'm' && "merged_by"@[7] == 'b');
    reveal_strlit("milestone");
    assert("milestone"@.len() == 9 && "milestone"@[2] == 'l' && "milestone"@[0] == 'm' && "milestone"@[7] == 'n');
    reveal_strlit("node_id");
    assert("node_id"@.len() == 7 && "node_id"@[2] == 'd' && "node_id"@[0] == 'n');
    reveal_strlit("number");
    assert("number"@.len() == 6 && "number"@[2] == 'm' && "number"@[0] == 'n');
    reveal_strlit("patch_url");
    assert("patch_url"@.len() == 9 && "patch_url"@[2] == 't' && "patch_url"@[0] == 'p' && "patch_url"@[7] == 'r');
    reveal_strlit("rebaseable");
    assert("rebaseable"@.len() == 10 && "rebaseable"@[2] == 'b' && "rebaseable"@[0] == 'r' && "rebaseable"@[7] == 'b');
    reveal_strlit("requested_reviewers");
    assert("requested_reviewers"@.len() == 19 && "requested_reviewers"@[2] == 'q' && "requested_reviewers"@[0] == 'r' && "requested_reviewers"@[7] == 'e');
    reveal_strlit("requested_teams");
    assert("requested_teams"@.len() == 15 && "requested_teams"@[2] == 'q' && "requested_teams"@[0] == 'r' && "requested_teams"@[7] == 'e');
    reveal_strlit("review_comment_url");
    assert("review_comment_url"@.len() == 18 && "review_comment_url"@[2] == 'v' && "review_comment_url"@[0] == 'r' && "review_comment_url"@[7] == 'c');
    reveal_strlit("review_comments");
    assert("review_comments"@.len() == 15 && "review_comments"@[2] == 'v' && "review_comments"@[0] == 'r' && "review_comments"@[7] == 'c');
    reveal_strlit("review_comments_url");
    assert("review_comments_url"@.len() == 19 && "review_comments_url"@[2] == 'v' && "review_comments_url"@[0] == 'r' && "review_comments_url"@[7] == 'c');
    reveal_strlit("state");
    assert("state"@.len() == 5 && "state"@[2] == 'a' && "state"@[0] == 's');
    reveal_strlit("statuses_url");
    assert("statuses_url"@.len() == 12 && "statuses_url"@[2] == 'a' && "statuses_url"@[0] == 's' && "statuses_url"@[7] == 's');
    reveal_strlit("title");
    assert("title"@.len() == 5 && "title"@[2] == 't' && "title"@[0] == 't');
    reveal_strlit("updated_at");
    assert("updated_at"@.len() == 10 && "updated_at"@[2] == 'd' && "updated_at"@[0] == 'u' && "updated_at"@[7] == '_');
    reveal_strlit("url");
    assert("url"@.len() == 3 && "url"@[2] == 'l' && "url"@[0] == 'u');
    reveal_strlit("user");
    assert("user"@.len() == 4 && "user"@[2] == 'e' && "user"@[0] == 'u');
    assert forall|f: Seq<char>| #[trigger] member(p@, f) == if f == k {
        None
    } else {
        member(o@, f)
    } by {
        lemma_member_without(o@, k, f);
    }
}

/// `k` names a field of a review.
pub open spec fn is_review_field(k: Seq<char>) -> bool {
    k == "id"@
    || k == "node_id"@
    || k == "user"@
    || k == "body"@
    || k == "commit_id"@
    || k == "submitted_at"@
    || k == "state"@
    || k == "html_url"@
    || k == "pull_request_url"@
    || k == "author_association"@
}

/// `k` names a required field of a review.
pub open spec fn is_review_required(k: Seq<char>) -> bool {
    k == "id"@
    || k == "node_id"@
    || k == "user"@
    || k == "commit_id"@
    || k == "submitted_at"@
    || k == "state"@
    || k == "html_url"@
    || k == "pull_request_url"@
    || k == "author_association"@
}

/// A member whose key names no field of a review, inserted anywhere in a
/// payload, does not change what decoding the payload gives.
#[verifier::rlimit(100)]
pub proof fn lemma_review_ignores_unknown_member(
    o: JsonObject,
    p: JsonObject,
    i: int,
    k: String,
    x: JsonValue,
    r: Result<Review, DecodeError>,
)
    requires
        0 <= i <= o@.len(),
        !is_review_field(k@),
        p@ == o@.insert(i, (k, x)),
    ensures
        review_decoded(JsonValue::Object(p), r) == review_decoded(JsonValue::Object(o), r),
{
    lemma_member_insert(o@, i, (k, x), "id"@);
    lemma_member_insert(o@, i, (k, x), "node_id"@);
    lemma_member_insert(o@, i, (k, x), "user"@);
    lemma_member_insert(o@, i, (k, x), "body"@);
    lemma_member_insert(o@, i, (k, x), "commit_id"@);
    lemma_member_insert(o@, i, (k, x), "submitted_at"@);
    lemma_member_insert(o@, i, (k, x), "state"@);
    lemma_member_insert(o@, i, (k, x), "html_url"@);
    lemma_member_insert(o@, i, (k, x), "pull_request_url"@);
    lemma_member_insert(o@, i, (k, x), "author_association"@);
    assert(review_error(p@) == review_error(o@));
    assert(forall|y: Review| review_matches(y, p@) == review_matches(y, o@));
}

/// Removing a required field from a payload that decodes as a review makes
/// decoding fail with `MissingField` naming that field.
#[verifier::rlimit(100)]
pub proof fn lemma_review_missing_required_field(
    o: JsonObject,
    p: JsonObject,
    k: Seq<char>,
    r: Result<Review, DecodeError>,
)
    requires
        review_error(o@) is None,
        is_review_required(k),
        p@ == without(o@, k),
        review_decoded(JsonValue::Object(p), r),
    ensures
        r matches Err(e) && e@ == DecodeFailure::MissingField(k),
{

    // Field names are told apart by their length and a few characters.
    reveal_strlit("author_association");
    assert("author_association"@.len() == 18 && "author_association"@[0] == 'a');
    reveal_strlit("body");
    assert("body"@.len() == 4 && "body"@[0] == 'b');
    reveal_strlit("commit_id");
    assert("commit_id"@.len() == 9 && "commit_id"@[0] == 'c');
    reveal_strlit("html_url");
    assert("html_url"@.len() == 8 && "html_url"@[0] == 'h');
    reveal_strlit("id");
    assert("id"@.len() == 2 && "id"@[0] == 'i');
    reveal_strlit("node_id");
    assert("node_id"@.len() == 7 && "node_id"@[0] == 'n');
    reveal_strlit("pull_request_url");
    assert("pull_request_url"@.len() == 16 && "pull_request_url"@[0] == 'p');
    reveal_strlit("state");
    assert("state"@.len() == 5 && "state"@[0] == 's');
    reveal_strlit("submitted_at");
    assert("submitted_at"@.len() == 12 && "submitted_at"@[0] == 's');
    reveal_strlit("user");
    assert("user"@.len() == 4 && "user"@[0] == 'u');
    assert forall|f: Seq<char>| #[trigger] member(p@, f) == if f == k {
        None
    } else {
        member(o@, f)
    } by {
        lemma_member_without(o@, k, f);
    }
}

/// `k` names a field of a review comment.
pub open spec fn is_review_comment_field(k: Seq<char>) -> bool {
    k == "url"@
    || k == "id"@
    || k == "node_id"@
    || k == "pull_request_review_id"@
    || k == "diff_hunk"@
    || k == "path"@
    || k == "position"@
    || k == "original_position"@
    || k == "commit_id"@
    || k == "original_commit_id"@
    || k == "in_reply_to_id"@
    || k == "user"@
    || k == "body"@
    || k == "created_at"@
    || k == "updated_at"@
    || k == "html_url"@
    || k == "pull_request_url"@
    || k == "author_association"@
    || k == "start_line"@
    || k == "original_start_line"@
    || k == "start_side"@
    || k == "line"@
    || k == "original_line"@
    || k == "side"@
    || k == "reactions"@
}

/// `k` names a required field of a review comment.
pub open spec fn is_review_comment_required(k: Seq<char>) -> bool {
    k == "url"@
    || k == "id"@
    || k == "node_id"@
    || k == "pull_request_review_id"@
    || k == "diff_hunk"@
    || k == "path"@
    || k == "original_position"@
    || k == "commit_id"@
    || k == "original_commit_id"@
    || k == "user"@
    || k == "created_at"@
    || k == "updated_at"@
    || k == "html_url"@
    || k == "pull_request_url"@
    || k == "author_association"@
}

/// A member whose key names no field of a review comment, inserted anywhere in a
/// payload, does not change what decoding the payload gives.
#[verifier::rlimit(100)]
pub proof fn lemma_review_comment_ignores_unknown_member(
    o: JsonObject,
    p: JsonObject,
    i: int,
    k: String,
    x: JsonValue,
    r: Result<ReviewComment, DecodeError>,
)
    requires
        0 <= i <= o@.len(),
        !is_review_comment_field(k@),
        p@ == o@.insert(i, (k, x)),
    ensures
        review_comment_decoded(JsonValue::Object(p), r) == review_comment_decoded(JsonValue::Object(o), r),
{
    lemma_member_insert(o@, i, (k, x), "url"@);
    lemma_member_insert(o@, i, (k, x), "id"@);
    lemma_member_insert(o@, i, (k, x), "node_id"@);
    lemma_member_insert(o@, i, (k, x), "pull_request_review_id"@);
    lemma_member_insert(o@, i, (k, x), "diff_hunk"@);
    lemma_member_insert(o@, i, (k, x), "path"@);
    lemma_member_insert(o@, i, (k, x), "position"@);
    lemma_member_insert(o@, i, (k, x), "original_position"@);
    lemma_member_insert(o@, i, (k, x), "commit_id"@);
    lemma_member_insert(o@, i, (k, x), "original_commit_id"@);
    lemma_member_insert(o@, i, (k, x), "in_reply_to_id"@);
    lemma_member_insert(o@, i, (k, x), "user"@);
    lemma_member_insert(o@, i, (k, x), "body"@);
    lemma_member_insert(o@, i, (k, x), "created_at"@);
    lemma_member_insert(o@, i, (k, x), "updated_at"@);
    lemma_member_insert(o@, i, (k, x), "html_url"@);
    lemma_member_insert(o@, i, (k, x), "pull_request_url"@);
    lemma_member_insert(o@, i, (k, x), "author_association"@);
    lemma_member_insert(o@, i, (k, x), "start_line"@);
    lemma_member_insert(o@, i, (k, x), "original_start_line"@);
    lemma_member_insert(o@, i, (k, x), "start_side"@);
    lemma_member_insert(o@, i, (k, x), "line"@);
    lemma_member_insert(o@, i, (k, x), "original_line"@);
    lemma_member_insert(o@, i, (k, x), "side"@);
    lemma_member_insert(o@, i, (k, x), "reactions"@);
    assert(review_comment_error(p@) == review_comment_error(o@));
    assert(forall|y: ReviewComment| review_comment_matches(y, p@) == review_comment_matches(y, o@));
}

/// Removing a required field from a payload that decodes as a review comment makes
/// decoding fail with `MissingField` naming that field.
#[verifier::rlimit(100)]
pub proof fn lemma_review_comment_missing_required_field(
    o: JsonObject,
    p: JsonObject,
    k: Seq<char>,
    r: Result<ReviewComment, DecodeError>,
)
    requires
        review_comment_error(o@) is None,
        is_review_comment_required(k),
        p@ == without(o@, k),
        review_comment_decoded(JsonValue::Object(p), r),
    ensures
        r matches Err(e) && e@ == DecodeFailure::MissingField(k),
{

    // Field names are told apart by their length and a few characters.
    reveal_strlit("author_association");
    assert("author_association"@.len() == 18 && "author_association"@[0] == 'a' && "author_association"@[6] == '_');
    reveal_strlit("body");
    assert("body"@.len() == 4 && "body"@[0] == 'b');
    reveal_strlit("commit_id");
    assert("commit_id"@.len() == 9 && "commit_id"@[0] == 'c' && "commit_id"@[6] == '_');
    reveal_strlit("created_at");
    assert("created_at"@.len() == 10 && "created_at"@[0] == 'c' && "created_at"@[6] == 'd');
    reveal_strlit("diff_hunk");
    assert("diff_hunk"@.len() == 9 && "diff_hunk"@[0] == 'd' && "diff_hunk"@[6] == 'u');
    reveal_strlit("html_url");
    assert("html_url"@.len() == 8 && "html_url"@[0] == 'h' && "html_url"@[6] == 'r');
    reveal_strlit("id");
    assert("id"@.len() == 2 && "id"@[0] == 'i');
    reveal_strlit("in_reply_to_id");
    assert("in_reply_to_id"@.len() == 14 && "in_reply_to_id"@[0] == 'i' && "in_reply_to_id"@[6] == 'l');
    reveal_strlit("line");
    assert("line"@.len() == 4 && "line"@[0] == 'l');
    reveal_strlit("node_id");
    assert("node_id"@.len() == 7 && "node_id"@[0] == 'n' && "node_id"@[6] == 'd');
    reveal_strlit("original_commit_id");
    assert("original_commit_id"@.len() == 18 && "original_commit_id"@[0] == 'o' && "original_commit_id"@[6] == 'a');
    reveal_strlit("original_line");
    assert("original_line"@.len() == 13 && "original_line"@[0] == 'o' && "original_line"@[6] == 'a');
    reveal_strlit("original_position");
    assert("original_position"@.len() == 17 && "original_position"@[0] == 'o' && "original_position"@[6] == 'a');
    reveal_strlit("original_start_line");
    assert("original_start_line"@.len() == 19 && "original_start_line"@[0] == 'o' && "original_start_line"@[6] == 'a');
    reveal_strlit("path");
    assert("path"@.len() == 4 && "path"@[0] == 'p');
    reveal_strlit("position");
    assert("position"@.len() == 8 && "position"@[0] == 'p' && "position"@[6] == 'o');
    reveal_strlit("pull_request_review_id");
    assert("pull_request_review_id"@.len() == 22 && "pull_request_review_id"@[0] == 'p' && "pull_request_review_id"@[6] == 'e');
    reveal_strlit("pull_request_url");
    assert("pull_request_url"@.len() == 16 && "pull_request_url"@[0] == 'p' && "pull_request_url"@[6] == 'e');
    reveal_strlit("reactions");
    assert("reactions"@.len() == 9 && "reactions"@[0] == 'r' && "reactions"@[6] == 'o');
    reveal_strlit("side");
    assert("side"@.len() == 4 && "side"@[0] == 's');
    reveal_strlit("start_line");
    assert("start_line"@.len() == 10 && "start_line"@[0] == 's' && "start_line"@[6] == 'l');
    reveal_strlit("start_side");
    assert("start_side"@.len() == 10 && "start_side"@[0] == 's' && "start_side"@[6] == 's');
    reveal_strlit("updated_at");
    assert("updated_at"@.len() == 10 && "updated_at"@[0] == 'u' && "updated_at"@[6] == 'd');
    reveal_strlit("url");
    assert("url"@.len() == 3 && "url"@[0] == 'u');
    reveal_strlit("user");
    assert("user"@.len() == 4 && "user"@[0] == 'u');
    assert forall|f: Seq<char>| #[trigger] member(p@, f) == if f == k {
        None
    } else {
        member(o@, f)
    } by {
        lemma_member_without(o@, k, f);
    }
}

} // verus!
