//! Decoding each record from a JSON document or from JSON text.
use vstd::prelude::*;
use crate::error::{DecodeError, DecodeFailure, Expected};
use crate::json::JsonValue;
use crate::model::{CommitRef, PullRequest, Review, ReviewComment, commit_ref_error, commit_ref_matches, commit_ref_from, pull_request_error, pull_request_matches, pull_request_from, review_error, review_matches, review_from, review_comment_error, review_comment_matches, review_comment_from};
use crate::text::{json_document, parse_document};

verus! {

/// The failure for a document that is not a JSON object. Its field name is
/// empty: it is the payload itself.
pub open spec fn root_failure(v: JsonValue) -> DecodeFailure {
    DecodeFailure::TypeMismatch(Seq::empty(), Expected::Object, v.kind())
}

fn root_mismatch(v: &JsonValue) -> (e: DecodeError)
    ensures
        e@ == root_failure(*v),
{
    DecodeError::TypeMismatch(String::new(), Expected::Object, v.kind_of())
}

/// `r` is what decoding a commit reference from `v` gives: the record, whose fields hold
/// what `v` has under their names, where every field meets its rule; else the
/// failure of the first field in declaration order that does not.
pub open spec fn commit_ref_decoded(v: JsonValue, r: Result<CommitRef, DecodeError>) -> bool {
    match v {
        JsonValue::Object(o) => match r {
            Ok(x) => commit_ref_error(o@) is None && commit_ref_matches(x, o@),
            Err(e) => commit_ref_error(o@) == Some(e@),
        },
        _ => r matches Err(e) && e@ == root_failure(v),
    }
}

/// Decodes a commit reference from a JSON document.
pub fn decode_commit_ref(v: JsonValue) -> (r: Result<CommitRef, DecodeError>)
    ensures
        commit_ref_decoded(v, r),
{
    match v {
        JsonValue::Object(o) => commit_ref_from(o),
        _ => Err(root_mismatch(&v)),
    }
}

/// Decodes a commit reference from JSON text.
pub fn decode_commit_ref_json(text: &str) -> (r: Result<CommitRef, DecodeError>)
    ensures
        match json_document(text@) {
            Some(v) => commit_ref_decoded(v, r),
            None => r matches Err(e) && e@ == DecodeFailure::MalformedJson,
        },
{
    match parse_document(text) {
        Some(v) => decode_commit_ref(v),
        None => Err(DecodeError::MalformedJson),
    }
}

/// `r` is what decoding a pull request from `v` gives: the record, whose fields hold
/// what `v` has under their names, where every field meets its rule; else the
/// failure of the first field in declaration order that does not.
pub open spec fn pull_request_decoded(v: JsonValue, r: Result<PullRequest, DecodeError>) -> bool {
    match v {
        JsonValue::Object(o) => match r {
            Ok(x) => pull_request_error(o@) is None && pull_request_matches(x, o@),
            Err(e) => pull_request_error(o@) == Some(e@),
        },
        _ => r matches Err(e) && e@ == root_failure(v),
    }
}

/// Decodes a pull request from a JSON document.
pub fn decode_pull_request(v: JsonValue) -> (r: Result<PullRequest, DecodeError>)
    ensures
        pull_request_decoded(v, r),
{
    match v {
        JsonValue::Object(o) => pull_request_from(o),
        _ => Err(root_mismatch(&v)),
    }
}

/// Decodes a pull request from JSON text.
pub fn decode_pull_request_json(text: &str) -> (r: Result<PullRequest, DecodeError>)
    ensures
        match json_document(text@) {
            Some(v) => pull_request_decoded(v, r),
            None => r matches Err(e) && e@ == DecodeFailure::MalformedJson,
        },
{
    match parse_document(text) {
        Some(v) => decode_pull_request(v),
        None => Err(DecodeError::MalformedJson),
    }
}

/// `r` is what decoding a review from `v` gives: the record, whose fields hold
/// what `v` has under their names, where every field meets its rule; else the
/// failure of the first field in declaration order that does not.
pub open spec fn review_decoded(v: JsonValue, r: Result<Review, DecodeError>) -> bool {
    match v {
        JsonValue::Object(o) => match r {
            Ok(x) => review_error(o@) is None && review_matches(x, o@),
            Err(e) => review_error(o@) == Some(e@),
        },
        _ => r matches Err(e) && e@ == root_failure(v),
    }
}

/// Decodes a review from a JSON document.
pub fn decode_review(v: JsonValue) -> (r: Result<Review, DecodeError>)
    ensures
        review_decoded(v, r),
{
    match v {
        JsonValue::Object(o) => review_from(o),
        _ => Err(root_mismatch(&v)),
    }
}

/// Decodes a review from JSON text.
pub fn decode_review_json(text: &str) -> (r: Result<Review, DecodeError>)
    ensures
        match json_document(text@) {
            Some(v) => review_decoded(v, r),
            None => r matches Err(e) && e@ == DecodeFailure::MalformedJson,
        },
{
    match parse_document(text) {
        Some(v) => decode_review(v),
        None => Err(DecodeError::MalformedJson),
    }
}

/// `r` is what decoding a review comment from `v` gives: the record, whose fields hold
/// what `v` has under their names, where every field meets its rule; else the
/// failure of the first field in declaration order that does not.
pub open spec fn review_comment_decoded(v: JsonValue, r: Result<ReviewComment, DecodeError>) -> bool {
    match v {
        JsonValue::Object(o) => match r {
            Ok(x) => review_comment_error(o@) is None && review_comment_matches(x, o@),
            Err(e) => review_comment_error(o@) == Some(e@),
        },
        _ => r matches Err(e) && e@ == root_failure(v),
    }
}

/// Decodes a review comment from a JSON document.
pub fn decode_review_comment(v: JsonValue) -> (r: Result<ReviewComment, DecodeError>)
    ensures
        review_comment_decoded(v, r),
{
    match v {
        JsonValue::Object(o) => review_comment_from(o),
        _ => Err(root_mismatch(&v)),
    }
}

/// Decodes a review comment from JSON text.
pub fn decode_review_comment_json(text: &str) -> (r: Result<ReviewComment, DecodeError>)
    ensures
        match json_document(text@) {
            Some(v) => review_comment_decoded(v, r),
            None => r matches Err(e) && e@ == DecodeFailure::MalformedJson,
        },
{
    match parse_document(text) {
        Some(v) => decode_review_comment(v),
        None => Err(DecodeError::MalformedJson),
    }
}

} // verus!
