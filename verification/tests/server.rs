use yt_mcp::config::{allowed_hosts_from, authorized, checked_mcp_token, unreachable_warning};
use yt_mcp::mcp::{
    applied_text, article_comment_added_text, comment_added_text, deleted_from_article_text,
    deleted_from_issue_text, reference_for, references, require_token, token_from_header,
    tool_error_text, Reference, UserToken, NO_TOKEN_MSG, RESOURCE_ARTICLE_FIELDS,
    RESOURCE_ISSUE_FIELDS, RESOURCE_QUERY_SYNTAX, USER_TOKEN_HEADER,
};

/// An empty `MCP_TOKEN` must stop the start instead of opening the server:
/// an empty secret would match an empty bearer and admit anyone.
#[test]
fn an_empty_mcp_token_is_refused() {
    assert!(checked_mcp_token("s3cret".to_owned()).is_ok());
    assert!(checked_mcp_token(String::new()).is_err(), "MCP_TOKEN= would open the outer gate");
    assert!(checked_mcp_token("   ".to_owned()).is_err(), "blanks are the same empty token");
}

#[test]
fn allowed_hosts_are_parsed_and_an_empty_value_falls_back_to_the_default() {
    assert_eq!(allowed_hosts_from(None), None);
    assert_eq!(
        allowed_hosts_from(Some(" mcp.example.com , mcp.example.com:8443 ".to_owned())),
        Some(vec!["mcp.example.com".to_owned(), "mcp.example.com:8443".to_owned()])
    );
    // An empty list means "any Host" to the transport, so an empty variable
    // must give None (the default), not Some(vec![]).
    assert_eq!(allowed_hosts_from(Some(String::new())), None);
    assert_eq!(allowed_hosts_from(Some(" , ".to_owned())), None);
}

#[test]
fn an_accepted_token_is_kept_as_given() {
    assert_eq!(checked_mcp_token(" s3cret ".to_owned()), Ok(" s3cret ".to_owned()));
    assert_eq!(
        checked_mcp_token("\t\n".to_owned()),
        Err("MCP_TOKEN must not be empty".to_owned())
    );
}

#[test]
fn host_lists_keep_order_and_skip_empty_pieces() {
    assert_eq!(
        allowed_hosts_from(Some(",a,, b ,c,".to_owned())),
        Some(vec!["a".to_owned(), "b".to_owned(), "c".to_owned()])
    );
}

/// The warning must appear exactly in the configuration that answers 403 to
/// every request, and stay silent otherwise.
#[test]
fn the_unreachable_warning_fires_only_when_the_deployment_is_broken() {
    // The second argument is what the bind address parses to: a socket
    // address on a loopback ip, or not (an unparsable one counts as public).
    let hosts = vec!["mcp.example.com".to_owned()];
    assert!(unreachable_warning("0.0.0.0:8080", false, None).is_some());
    assert!(unreachable_warning("0.0.0.0:8080", false, Some(&hosts)).is_none());
    assert!(unreachable_warning("127.0.0.1:8080", true, None).is_none());
    assert!(unreachable_warning("[::1]:8080", true, None).is_none());
    assert!(unreachable_warning("not-an-address", false, None).is_some());

    let text = unreachable_warning("0.0.0.0:8080", false, None).expect("present");
    assert!(text.contains("MCP_ALLOWED_HOSTS"), "the text must name the variable: {text}");
    assert!(text.contains("403"), "and the symptom people search for: {text}");
    assert!(text.starts_with("MCP_BIND=0.0.0.0:8080 listens beyond loopback"));
}

#[test]
fn the_gate_admits_only_the_exact_bearer() {
    assert!(!authorized(None, "s3cret"), "no header");
    assert!(!authorized(Some("Bearer s3cre7"), "s3cret"), "a wrong token of the same length");
    assert!(!authorized(Some("Bearer s3c"), "s3cret"), "a prefix of the token");
    assert!(authorized(Some("Bearer s3cret"), "s3cret"));
    assert!(!authorized(Some("bearer s3cret"), "s3cret"), "the scheme is matched exactly");
    assert!(!authorized(Some("Bearer s3cret "), "s3cret"));
    assert!(!authorized(Some("s3cret"), "s3cret"));
}

/// The hand-written debug text exists so that the token never reaches a log.
#[test]
fn user_token_debug_redacts_the_secret() {
    let printed = UserToken("perm:super-secret".to_owned()).debug_text();
    assert!(printed.contains("<redacted>"), "no placeholder: {printed}");
    assert!(!printed.contains("super-secret"), "the token leaked into the debug text: {printed}");
}

#[test]
fn user_token_reads_the_header_and_ignores_an_empty_one() {
    let with_header = |name: &str, value: &str| {
        let (parts, ()) = http::Request::builder()
            .header(name, value)
            .body(())
            .expect("request builds")
            .into_parts();
        token_from_header(parts.headers.get(USER_TOKEN_HEADER).and_then(|v| v.to_str().ok()))
    };
    let with = |value: &str| with_header(USER_TOKEN_HEADER, value);

    assert_eq!(with("secret"), Some("secret".to_owned()));
    assert_eq!(with(""), None, "an empty header is an unfilled config");
    assert_eq!(with("   "), None, "blanks are the same unfilled config");
    assert_eq!(
        with(" secret "),
        Some("secret".to_owned()),
        "a space from the config would travel into Bearer and earn a 401"
    );
    assert_eq!(token_from_header(None), None, "no header at all");
    assert_eq!(
        with_header("X-YouTrack-Token", "secret"),
        Some("secret".to_owned()),
        "HTTP header names are case-insensitive"
    );
}

#[test]
fn a_call_without_a_token_is_told_what_to_add() {
    let err = require_token(None).err().expect("refused");
    assert_eq!(err, NO_TOKEN_MSG);
    assert!(err.contains("X-YouTrack-Token"));
    let token = require_token(Some("t".to_owned())).ok().expect("accepted");
    assert_eq!(token.0, "t");
}

#[test]
fn the_references_are_listed_and_found_by_uri() {
    let listed = references();
    assert_eq!(listed.len(), 3);
    assert_eq!(listed[0], (Reference::QuerySyntax, RESOURCE_QUERY_SYNTAX, "issues-query-syntax"));
    assert_eq!(listed[1], (Reference::IssueFields, RESOURCE_ISSUE_FIELDS, "issue-fields"));
    assert_eq!(listed[2], (Reference::ArticleFields, RESOURCE_ARTICLE_FIELDS, "article-fields"));
    assert_eq!(
        reference_for("youtrack://reference/issues/search/query-syntax"),
        Some(Reference::QuerySyntax)
    );
    assert_eq!(reference_for("youtrack://reference/issues/fields"), Some(Reference::IssueFields));
    assert_eq!(
        reference_for("youtrack://reference/articles/fields"),
        Some(Reference::ArticleFields)
    );
    assert_eq!(reference_for("youtrack://reference/fields"), None);
}

#[test]
fn tool_answers_read_as_before() {
    assert_eq!(tool_error_text("boom"), "youtrack: boom");
    assert_eq!(applied_text("state Fixed", "DEMO-1"), "OK: applied 'state Fixed' to DEMO-1");
    assert_eq!(comment_added_text("DEMO-1"), "OK: comment added to DEMO-1");
    assert_eq!(article_comment_added_text("DEMO-A-4"), "OK: comment added to article DEMO-A-4");
    assert_eq!(
        deleted_from_issue_text("comment", "4-1", "DEMO-1"),
        "OK: comment 4-1 deleted from DEMO-1"
    );
    assert_eq!(
        deleted_from_article_text("attachment", "9-1", "DEMO-A-4"),
        "OK: attachment 9-1 deleted from article DEMO-A-4"
    );
}
