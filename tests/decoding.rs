use github_model::decode::{
    decode_commit_ref_json, decode_pull_request, decode_pull_request_json, decode_review_json,
    decode_review_comment_json,
};
use github_model::error::{DecodeError, Expected};
use github_model::json::{JsonKind, JsonValue};
use github_model::model::{parse_pull_request_state, parse_review_state, PullRequestState, ReviewState};

const USER: &str = r#"{"login":"octocat","id":1,"node_id":"MDQ6VXNlcjE=","type":"User","site_admin":false}"#;
const HEAD_SHA: &str = "6dcb09b5b57875f334f61aebed695e2e4193db5e";
const BASE_SHA: &str = "c5b97d5ae6c19d5c5df71a34c7fbeeda2479ccbc";

fn commit_ref_json(label: &str, git_ref: &str, sha: &str, repo: &str) -> String {
    format!(
        r#"{{"label":"{}","ref":"{}","sha":"{}","user":{},"repo":{}}}"#,
        label, git_ref, sha, USER, repo
    )
}

fn pull_request_members() -> Vec<(String, String)> {
    let repo = r#"{"id":1296269,"name":"Hello-World","full_name":"octocat/Hello-World"}"#;
    let pairs: Vec<(&str, String)> = vec![
        ("url", r#""https://api.github.com/repos/octocat/Hello-World/pulls/1347""#.to_string()),
        ("id", "1".to_string()),
        ("node_id", r#""MDExOlB1bGxSZXF1ZXN0MQ==""#.to_string()),
        ("html_url", r#""https://github.com/octocat/Hello-World/pull/1347""#.to_string()),
        ("diff_url", r#""https://github.com/octocat/Hello-World/pull/1347.diff""#.to_string()),
        ("patch_url", r#""https://github.com/octocat/Hello-World/pull/1347.patch""#.to_string()),
        ("issue_url", r#""https://api.github.com/repos/octocat/Hello-World/issues/1347""#.to_string()),
        ("number", "1347".to_string()),
        ("state", r#""open""#.to_string()),
        ("locked", "true".to_string()),
        ("title", r#""Amazing new feature""#.to_string()),
        ("user", USER.to_string()),
        ("body", r#""Please pull these awesome changes in!""#.to_string()),
        ("created_at", r#""2011-01-26T19:01:12Z""#.to_string()),
        ("updated_at", r#""2011-01-26T19:01:12Z""#.to_string()),
        ("closed_at", "null".to_string()),
        ("merged_at", "null".to_string()),
        ("merge_commit_sha", r#""e5bd3914e2e596debea16f433f57875b5b90bcd6""#.to_string()),
        ("assignee", USER.to_string()),
        ("assignees", format!("[{}]", USER)),
        ("requested_reviewers", "[]".to_string()),
        ("requested_teams", r#"[{"id":1,"name":"Justice League","slug":"justice-league"}]"#.to_string()),
        ("labels", r#"[{"id":208045946,"name":"bug","color":"f29513","default":true}]"#.to_string()),
        ("milestone", "null".to_string()),
        ("commits_url", r#""https://api.github.com/repos/octocat/Hello-World/pulls/1347/commits""#.to_string()),
        ("review_comments_url", r#""https://api.github.com/repos/octocat/Hello-World/pulls/1347/comments""#.to_string()),
        ("review_comment_url", r#""https://api.github.com/repos/octocat/Hello-World/pulls/comments{/number}""#.to_string()),
        ("comments_url", r#""https://api.github.com/repos/octocat/Hello-World/issues/1347/comments""#.to_string()),
        ("statuses_url", r#""https://api.github.com/repos/octocat/Hello-World/statuses/6dcb09b5b57875f334f61aebed695e2e4193db5e""#.to_string()),
        ("head", commit_ref_json("octocat:new-topic", "new-topic", HEAD_SHA, repo)),
        ("base", commit_ref_json("octocat:master", "master", BASE_SHA, repo)),
        ("author_association", r#""OWNER""#.to_string()),
        ("draft", "false".to_string()),
        ("merged", "false".to_string()),
        ("mergeable", "true".to_string()),
        ("rebaseable", "true".to_string()),
        ("mergeable_state", r#""clean""#.to_string()),
        ("merged_by", "null".to_string()),
        ("comments", "10".to_string()),
        ("review_comments", "0".to_string()),
        ("maintainer_can_modify", "true".to_string()),
        ("commits", "3".to_string()),
        ("additions", "100".to_string()),
        ("deletions", "3".to_string()),
        ("changed_files", "5".to_string()),
    ];
    pairs.into_iter().map(|(k, v)| (k.to_string(), v)).collect()
}

fn object_text(members: &[(String, String)]) -> String {
    let parts: Vec<String> = members.iter().map(|(k, v)| format!("\"{}\":{}", k, v)).collect();
    format!("{{{}}}", parts.join(","))
}

fn with(members: &[(String, String)], key: &str, value: &str) -> String {
    let changed: Vec<(String, String)> = members
        .iter()
        .map(|(k, v)| if k == key { (k.clone(), value.to_string()) } else { (k.clone(), v.clone()) })
        .collect();
    object_text(&changed)
}

fn without(members: &[(String, String)], key: &str) -> String {
    let kept: Vec<(String, String)> = members.iter().filter(|(k, _)| k != key).cloned().collect();
    object_text(&kept)
}

fn lookup<'a>(o: &'a [(String, JsonValue)], key: &str) -> Option<&'a JsonValue> {
    o.iter().rev().find(|(k, _)| k == key).map(|(_, v)| v)
}

fn review_members() -> Vec<(String, String)> {
    let pairs: Vec<(&str, String)> = vec![
        ("id", "80".to_string()),
        ("node_id", r#""MDE3OlB1bGxSZXF1ZXN0UmV2aWV3ODA=""#.to_string()),
        ("user", USER.to_string()),
        ("body", r#""Here is the body for the review.""#.to_string()),
        ("commit_id", format!("\"{}\"", HEAD_SHA)),
        ("submitted_at", r#""2019-11-17T17:43:43Z""#.to_string()),
        ("state", r#""approved""#.to_string()),
        ("html_url", r#""https://github.com/octocat/Hello-World/pull/12#pullrequestreview-80""#.to_string()),
        ("pull_request_url", r#""https://api.github.com/repos/octocat/Hello-World/pulls/12""#.to_string()),
        ("author_association", r#""COLLABORATOR""#.to_string()),
    ];
    pairs.into_iter().map(|(k, v)| (k.to_string(), v)).collect()
}

fn review_comment_members() -> Vec<(String, String)> {
    let pairs: Vec<(&str, String)> = vec![
        ("url", r#""https://api.github.com/repos/octocat/Hello-World/pulls/comments/1""#.to_string()),
        ("pull_request_review_id", "42".to_string()),
        ("id", "10".to_string()),
        ("node_id", r#""MDI0OlB1bGxSZXF1ZXN0UmV2aWV3Q29tbWVudDEw""#.to_string()),
        ("diff_hunk", r#""@@ -16,33 +16,40 @@ public class Connection : IConnection...""#.to_string()),
        ("path", r#""file1.txt""#.to_string()),
        ("position", "1".to_string()),
        ("original_position", "4".to_string()),
        ("commit_id", format!("\"{}\"", HEAD_SHA)),
        ("original_commit_id", r#""9c48853fa3dc5c1c3d6f1f1cd1f2743e72652840""#.to_string()),
        ("in_reply_to_id", "8".to_string()),
        ("user", USER.to_string()),
        ("body", r#""Great stuff!""#.to_string()),
        ("created_at", r#""2011-04-14T16:00:49Z""#.to_string()),
        ("updated_at", r#""2011-04-14T16:00:49Z""#.to_string()),
        ("html_url", r#""https://github.com/octocat/Hello-World/pull/1#discussion-diff-1""#.to_string()),
        ("pull_request_url", r#""https://api.github.com/repos/octocat/Hello-World/pulls/1""#.to_string()),
        ("author_association", r#""NONE""#.to_string()),
        ("start_line", "1".to_string()),
        ("original_start_line", "1".to_string()),
        ("start_side", r#""RIGHT""#.to_string()),
        ("line", "2".to_string()),
        ("original_line", "2".to_string()),
        ("side", r#""RIGHT""#.to_string()),
        ("reactions", r#"{"total_count":5,"+1":3,"-1":1,"laugh":0,"confused":0,"heart":1,"hooray":0}"#.to_string()),
    ];
    pairs.into_iter().map(|(k, v)| (k.to_string(), v)).collect()
}

#[test]
fn pull_request() {
    let text = object_text(&pull_request_members());
    let _pr = decode_pull_request_json(&text).unwrap();
}

#[test]
fn pull_request_sample_fields_match() {
    let pr = decode_pull_request_json(&object_text(&pull_request_members())).unwrap();
    assert_eq!(pr.url, "https://api.github.com/repos/octocat/Hello-World/pulls/1347");
    assert_eq!(pr.id, 1);
    assert_eq!(pr.number, 1347);
    assert_eq!(pr.node_id, "MDExOlB1bGxSZXF1ZXN0MQ==");
    assert_eq!(pr.state, PullRequestState::Open);
    assert!(pr.locked);
    assert_eq!(pr.title, "Amazing new feature");
    assert!(matches!(lookup(&pr.user, "login"), Some(JsonValue::Str(x)) if *x == "octocat".to_string()));
    assert_eq!(pr.body.as_deref(), Some("Please pull these awesome changes in!"));
    assert_eq!(pr.created_at, "2011-01-26T19:01:12Z");
    assert_eq!(pr.closed_at, None);
    assert_eq!(pr.merged_at, None);
    assert_eq!(pr.merge_commit_sha.as_deref(), Some("e5bd3914e2e596debea16f433f57875b5b90bcd6"));
    assert!(pr.assignee.is_some());
    assert_eq!(pr.assignees.len(), 1);
    assert!(pr.requested_reviewers.is_empty());
    assert_eq!(pr.requested_teams.len(), 1);
    assert!(matches!(lookup(&pr.labels[0], "name"), Some(JsonValue::Str(x)) if *x == "bug".to_string()));
    assert!(matches!(lookup(&pr.labels[0], "default"), Some(JsonValue::Bool(x)) if *x == true));
    assert!(pr.milestone.is_none());
    assert_eq!(pr.head.label, "octocat:new-topic");
    assert_eq!(pr.head.git_ref, "new-topic");
    assert_eq!(pr.head.sha, HEAD_SHA);
    assert_eq!(pr.base.git_ref, "master");
    assert_eq!(pr.base.sha, BASE_SHA);
    assert!(matches!(lookup(pr.base.repo.as_ref().unwrap(), "id"), Some(JsonValue::UInt(1296269))));
    assert_eq!(pr.author_association, "OWNER");
    assert_eq!(pr.draft, Some(false));
    assert_eq!(pr.merged, Some(false));
    assert_eq!(pr.mergeable, Some(true));
    assert_eq!(pr.rebaseable, Some(true));
    assert_eq!(pr.mergeable_state.as_deref(), Some("clean"));
    assert!(pr.merged_by.is_none());
    assert_eq!(pr.comments, Some(10));
    assert_eq!(pr.review_comments, Some(0));
    assert_eq!(pr.maintainer_can_modify, Some(true));
    assert_eq!(pr.commits, Some(3));
    assert_eq!(pr.additions, Some(100));
    assert_eq!(pr.deletions, Some(3));
    assert_eq!(pr.changed_files, Some(5));
}

#[test]
fn review_sample_fields_match() {
    let review = decode_review_json(&object_text(&review_members())).unwrap();
    assert_eq!(review.id, 80);
    assert_eq!(review.node_id, "MDE3OlB1bGxSZXF1ZXN0UmV2aWV3ODA=");
    assert_eq!(review.body(), Some("Here is the body for the review."));
    assert_eq!(review.commit_id, HEAD_SHA);
    assert_eq!(review.submitted_at, "2019-11-17T17:43:43Z");
    assert_eq!(review.state, ReviewState::Approved);
    assert_eq!(review.pull_request_url, "https://api.github.com/repos/octocat/Hello-World/pulls/12");
    assert_eq!(review.author_association, "COLLABORATOR");
}

#[test]
fn review_comment_sample_fields_match() {
    let c = decode_review_comment_json(&object_text(&review_comment_members())).unwrap();
    assert_eq!(c.id, 10);
    assert_eq!(c.pull_request_review_id, 42);
    assert_eq!(c.path, "file1.txt");
    assert_eq!(c.position, Some(1));
    assert_eq!(c.original_position, 4);
    assert_eq!(c.commit_id, HEAD_SHA);
    assert_eq!(c.original_commit_id, "9c48853fa3dc5c1c3d6f1f1cd1f2743e72652840");
    assert_eq!(c.in_reply_to_id, Some(8));
    assert_eq!(c.body(), Some("Great stuff!"));
    assert_eq!(c.start_side.as_deref(), Some("RIGHT"));
    assert_eq!(c.line, Some(2));
    assert!(matches!(lookup(c.reactions.as_ref().unwrap(), "total_count"), Some(JsonValue::UInt(x)) if *x == 5));
}

#[test]
fn commit_ref_sample_fields_match() {
    let text = commit_ref_json("octocat:master", "master", BASE_SHA, r#"{"id":7}"#);
    let c = decode_commit_ref_json(&text).unwrap();
    assert_eq!(c.label, "octocat:master");
    assert_eq!(c.git_ref, "master");
    assert_eq!(c.sha, BASE_SHA);
    assert!(matches!(lookup(&c.user, "login"), Some(JsonValue::Str(x)) if *x == "octocat".to_string()));
    assert!(matches!(lookup(c.repo.as_ref().unwrap(), "id"), Some(JsonValue::UInt(x)) if *x == 7));
}

#[test]
fn unknown_member_is_ignored() {
    let members = pull_request_members();
    let plain = decode_pull_request_json(&object_text(&members)).unwrap();
    let mut extended = members.clone();
    extended.insert(3, ("auto_merge".to_string(), r#"{"merge_method":"squash"}"#.to_string()));
    extended.push(("_links".to_string(), r#"{"self":{"href":"x"}}"#.to_string()));
    let wider = decode_pull_request_json(&object_text(&extended)).unwrap();
    assert_eq!(format!("{:?}", plain), format!("{:?}", wider));
}

#[test]
fn unknown_member_keeps_the_same_error() {
    let members = pull_request_members();
    let bad = with(&members, "number", r#""1347""#);
    let mut extended: Vec<(String, String)> = members.clone();
    extended.push(("future_field".to_string(), "[1,2]".to_string()));
    let bad_wider = with(&extended, "number", r#""1347""#);
    assert_eq!(decode_pull_request_json(&bad).err(), decode_pull_request_json(&bad_wider).err());
}

#[test]
fn missing_required_field_is_named() {
    let members = pull_request_members();
    for key in ["url", "title", "state", "head", "assignees", "author_association", "statuses_url"] {
        assert_eq!(
            decode_pull_request_json(&without(&members, key)).err(),
            Some(DecodeError::MissingField(key.to_string()))
        );
    }
    assert_eq!(
        decode_review_json(&without(&review_members(), "commit_id")).err(),
        Some(DecodeError::MissingField("commit_id".to_string()))
    );
    assert_eq!(
        decode_review_comment_json(&without(&review_comment_members(), "original_position")).err(),
        Some(DecodeError::MissingField("original_position".to_string()))
    );
}

#[test]
fn missing_optional_fields_decode_as_absent() {
    let mut members = pull_request_members();
    let optional = [
        "body", "closed_at", "merged_at", "merge_commit_sha", "assignee", "milestone", "draft",
        "merged", "mergeable", "rebaseable", "mergeable_state", "merged_by", "comments",
        "review_comments", "maintainer_can_modify", "commits", "additions", "deletions", "changed_files",
    ];
    members.retain(|(k, _)| !optional.contains(&k.as_str()));
    let pr = decode_pull_request_json(&object_text(&members)).unwrap();
    assert_eq!(pr.body, None);
    assert_eq!(pr.merge_commit_sha, None);
    assert_eq!(pr.mergeable, None);
    assert_eq!(pr.changed_files, None);
}

#[test]
fn merged_state_decodes() {
    let members = pull_request_members();
    let pr = decode_pull_request_json(&with(&members, "state", r#""merged""#)).unwrap();
    assert_eq!(pr.state, PullRequestState::Merged);
    let pr = decode_pull_request_json(&with(&members, "state", r#""closed""#)).unwrap();
    assert_eq!(pr.state, PullRequestState::Closed);
}

#[test]
fn unknown_state_is_rejected() {
    let members = pull_request_members();
    assert_eq!(
        decode_pull_request_json(&with(&members, "state", r#""withdrawn""#)).err(),
        Some(DecodeError::UnrecognizedEnumValue("state".to_string(), "withdrawn".to_string()))
    );
    assert_eq!(
        decode_pull_request_json(&with(&members, "state", r#""Open""#)).err(),
        Some(DecodeError::UnrecognizedEnumValue("state".to_string(), "Open".to_string()))
    );
    assert_eq!(
        decode_review_json(&with(&review_members(), "state", r#""pending""#)).err(),
        Some(DecodeError::UnrecognizedEnumValue("state".to_string(), "pending".to_string()))
    );
}

#[test]
fn state_tokens() {
    assert_eq!(parse_pull_request_state("open"), Some(PullRequestState::Open));
    assert_eq!(parse_pull_request_state("withdrawn"), None);
    assert_eq!(parse_review_state("changes_requested"), Some(ReviewState::ChangesRequested));
    assert_eq!(parse_review_state("commented"), Some(ReviewState::Commented));
    assert_eq!(parse_review_state("dismissed"), Some(ReviewState::Dismissed));
    assert_eq!(parse_review_state("CHANGES_REQUESTED"), None);
}

#[test]
fn outdated_comment_position_is_absent() {
    let members = review_comment_members();
    let text = with(&members, "position", "null");
    let text = text.replace("\"original_position\":4", "\"original_position\":42");
    let c = decode_review_comment_json(&text).unwrap();
    assert_eq!(c.position, None);
    assert_eq!(c.original_position, 42);
}

#[test]
fn deleted_fork_repo_is_absent() {
    let c = decode_commit_ref_json(&commit_ref_json("someone:patch-1", "patch-1", HEAD_SHA, "null")).unwrap();
    assert!(c.repo.is_none());
    assert_eq!(c.git_ref, "patch-1");
}

#[test]
fn type_mismatches_are_reported() {
    let members = pull_request_members();
    assert_eq!(
        decode_pull_request_json(&with(&members, "id", r#""1""#)).err(),
        Some(DecodeError::TypeMismatch("id".to_string(), Expected::UInt, JsonKind::Str))
    );
    assert_eq!(
        decode_pull_request_json(&with(&members, "id", "-1")).err(),
        Some(DecodeError::TypeMismatch("id".to_string(), Expected::UInt, JsonKind::Number))
    );
    assert_eq!(
        decode_pull_request_json(&with(&members, "title", "null")).err(),
        Some(DecodeError::TypeMismatch("title".to_string(), Expected::Str, JsonKind::Null))
    );
    assert_eq!(
        decode_pull_request_json(&with(&members, "locked", "1")).err(),
        Some(DecodeError::TypeMismatch("locked".to_string(), Expected::Bool, JsonKind::Number))
    );
    assert_eq!(
        decode_pull_request_json(&with(&members, "labels", "{}")).err(),
        Some(DecodeError::TypeMismatch("labels".to_string(), Expected::Array, JsonKind::Object))
    );
    assert_eq!(
        decode_pull_request_json(&with(&members, "assignees", r#"[{"id":1},"x"]"#)).err(),
        Some(DecodeError::TypeMismatch("assignees".to_string(), Expected::Object, JsonKind::Str))
    );
    assert_eq!(
        decode_pull_request_json(&with(&members, "mergeable", r#""yes""#)).err(),
        Some(DecodeError::TypeMismatch("mergeable".to_string(), Expected::Bool, JsonKind::Str))
    );
    assert_eq!(
        decode_pull_request_json(&with(&members, "user", "[]")).err(),
        Some(DecodeError::TypeMismatch("user".to_string(), Expected::Object, JsonKind::Array))
    );
}

#[test]
fn first_failing_field_in_declaration_order_wins() {
    let members = pull_request_members();
    let text = with(&members, "changed_files", r#""5""#);
    let text = text.replace("\"url\":\"https://api.github.com/repos/octocat/Hello-World/pulls/1347\",", "");
    assert_eq!(
        decode_pull_request_json(&text).err(),
        Some(DecodeError::MissingField("url".to_string()))
    );
}

#[test]
fn nested_commit_ref_errors_surface() {
    let members = pull_request_members();
    let head = commit_ref_json("octocat:new-topic", "new-topic", "not-a-sha", "null");
    assert_eq!(
        decode_pull_request_json(&with(&members, "head", &head)).err(),
        Some(DecodeError::TypeMismatch("sha".to_string(), Expected::ObjectId, JsonKind::Str))
    );
}

#[test]
fn object_ids_and_timestamps_are_checked() {
    let short = commit_ref_json("a:b", "b", "6dcb09b5", "null");
    assert_eq!(
        decode_commit_ref_json(&short).err(),
        Some(DecodeError::TypeMismatch("sha".to_string(), Expected::ObjectId, JsonKind::Str))
    );
    let upper = commit_ref_json("a:b", "b", "6DCB09B5B57875F334F61AEBED695E2E4193DB5E", "null");
    assert!(decode_commit_ref_json(&upper).is_ok());
    let non_hex = commit_ref_json("a:b", "b", "6dcb09b5b57875f334f61aebed695e2e4193db5g", "null");
    assert!(decode_commit_ref_json(&non_hex).is_err());
    let members = review_members();
    assert_eq!(
        decode_review_json(&with(&members, "submitted_at", r#""2019-11-17 17:43:43""#)).err(),
        Some(DecodeError::TypeMismatch("submitted_at".to_string(), Expected::Timestamp, JsonKind::Str))
    );
    assert_eq!(
        decode_review_json(&with(&members, "submitted_at", "1573")).err(),
        Some(DecodeError::TypeMismatch("submitted_at".to_string(), Expected::Timestamp, JsonKind::Number))
    );
}

#[test]
fn malformed_text_is_rejected() {
    assert_eq!(decode_pull_request_json("{").err(), Some(DecodeError::MalformedJson));
    assert_eq!(decode_review_json("").err(), Some(DecodeError::MalformedJson));
    assert_eq!(decode_review_comment_json("{} {}").err(), Some(DecodeError::MalformedJson));
}

#[test]
fn non_object_payload_is_rejected() {
    assert_eq!(
        decode_pull_request_json("[]").err(),
        Some(DecodeError::TypeMismatch(String::new(), Expected::Object, JsonKind::Array))
    );
    assert_eq!(
        decode_pull_request(JsonValue::Null).err(),
        Some(DecodeError::TypeMismatch(String::new(), Expected::Object, JsonKind::Null))
    );
}

#[test]
fn body_is_absent_where_null() {
    let r = decode_review_json(&with(&review_members(), "body", "null")).unwrap();
    assert_eq!(r.body(), None);
    let c = decode_review_comment_json(&without(&review_comment_members(), "body")).unwrap();
    assert_eq!(c.body(), None);
}

#[test]
fn duplicate_key_last_one_wins() {
    let mut members = review_members();
    members.push(("id".to_string(), "81".to_string()));
    let r = decode_review_json(&object_text(&members)).unwrap();
    assert_eq!(r.id, 81);
}

#[test]
fn large_numbers_are_kept() {
    let members = review_members();
    let r = decode_review_json(&with(&members, "id", "18446744073709551615")).unwrap();
    assert_eq!(r.id, u64::MAX);
    assert_eq!(
        decode_review_json(&with(&members, "id", "18446744073709551616")).err(),
        Some(DecodeError::TypeMismatch("id".to_string(), Expected::UInt, JsonKind::Number))
    );
}
