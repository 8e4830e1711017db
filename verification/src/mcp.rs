//! The MCP side of the server: the per-user YouTrack token and its header,
//! the reference resources, and the texts the tools answer with.
use vstd::prelude::*;
use crate::text::{is_white_space, lemma_trim_is_trimmed, trim, trimmed};

verus! {

broadcast use vstd::string::group_string_axioms;

/// Header that carries the caller's own YouTrack token (the inner level of
/// authorization; the outer `Authorization` bearer is checked before MCP).
pub const USER_TOKEN_HEADER: &'static str = "x-youtrack-token";

/// What a tool call without a YouTrack token is answered with.
pub const NO_TOKEN_MSG: &'static str = "no YouTrack token: add the X-YouTrack-Token header to this server's entry in your MCP client configuration";

/// The caller's YouTrack token, carried from the request header to the tool.
/// Its debug text never shows the secret.
#[derive(Clone)]
pub struct UserToken(pub String);

impl UserToken {
    /// The debug text of a token: a fixed placeholder, whatever the token.
    pub fn debug_text(&self) -> (r: String)
        ensures
            r@ == "UserToken(<redacted>)"@,
    {
        "UserToken(<redacted>)".to_owned()
    }
}

/// The token in the value of the token header, if there is one. The value is
/// trimmed: a space copied along with the token from a config file would
/// otherwise travel into `Authorization: Bearer` and earn an unexplained
/// 401. An empty or blank value is a config left unfilled, not a token.
pub fn token_from_header(value: Option<&str>) -> (r: Option<String>)
    ensures
        match value {
            None => r is None,
            Some(v) => if trim(v@).len() == 0 {
                r is None
            } else {
                r matches Some(t) && t@ == trim(v@)
            },
        },
{
    match value {
        None => None,
        Some(v) => {
            let t = trimmed(v);
            if t.as_str().is_empty() {
                None
            } else {
                Some(t)
            }
        },
    }
}

/// A token taken from the header is never blank and carries no surrounding
/// whitespace.
pub proof fn lemma_header_token_is_clean(v: Seq<char>)
    ensures
        trim(v).len() > 0 ==> !is_white_space(trim(v)[0]) && !is_white_space(trim(v).last()),
{
    lemma_trim_is_trimmed(v);
}

/// The single token check before any tool runs: a call without a token is
/// answered with [`NO_TOKEN_MSG`], which tells the user what to add.
pub fn require_token(token: Option<String>) -> (r: Result<UserToken, String>)
    ensures
        match token {
            Some(t) => r matches Ok(u) && u.0 == t,
            None => r matches Err(m) && m@ == NO_TOKEN_MSG@,
        },
{
    match token {
        Some(t) => Ok(UserToken(t)),
        None => Err(NO_TOKEN_MSG.to_owned()),
    }
}

/// Uri of the reference on the issue query language.
pub const RESOURCE_QUERY_SYNTAX: &'static str = "youtrack://reference/issues/search/query-syntax";

/// Uri of the reference on issue fields.
pub const RESOURCE_ISSUE_FIELDS: &'static str = "youtrack://reference/issues/fields";

/// Uri of the reference on article fields.
pub const RESOURCE_ARTICLE_FIELDS: &'static str = "youtrack://reference/articles/fields";

/// The reference documents the server offers as resources.
#[derive(Debug, Clone, Copy, PartialEq, Eq)]
pub enum Reference {
    QuerySyntax,
    IssueFields,
    ArticleFields,
}

/// The uri and name of each reference, in the order they are listed.
pub fn references() -> (r: Vec<(Reference, &'static str, &'static str)>)
    ensures
        r@.len() == 3,
        r@[0].0 == Reference::QuerySyntax && r@[0].1@ == RESOURCE_QUERY_SYNTAX@ && r@[0].2@
            == "issues-query-syntax"@,
        r@[1].0 == Reference::IssueFields && r@[1].1@ == RESOURCE_ISSUE_FIELDS@ && r@[1].2@
            == "issue-fields"@,
        r@[2].0 == Reference::ArticleFields && r@[2].1@ == RESOURCE_ARTICLE_FIELDS@ && r@[2].2@
            == "article-fields"@,
{
    vec![
        (Reference::QuerySyntax, RESOURCE_QUERY_SYNTAX, "issues-query-syntax"),
        (Reference::IssueFields, RESOURCE_ISSUE_FIELDS, "issue-fields"),
        (Reference::ArticleFields, RESOURCE_ARTICLE_FIELDS, "article-fields"),
    ]
}

/// Which reference a uri names; any other uri is not found.
pub fn reference_for(uri: &str) -> (r: Option<Reference>)
    ensures
        r == if uri@ == RESOURCE_QUERY_SYNTAX@ {
            Some(Reference::QuerySyntax)
        } else if uri@ == RESOURCE_ISSUE_FIELDS@ {
            Some(Reference::IssueFields)
        } else if uri@ == RESOURCE_ARTICLE_FIELDS@ {
            Some(Reference::ArticleFields)
        } else {
            None
        },
{
    let v = crate::text::chars_of(uri);
    if crate::text::same_chars(&v, RESOURCE_QUERY_SYNTAX) {
        Some(Reference::QuerySyntax)
    } else if crate::text::same_chars(&v, RESOURCE_ISSUE_FIELDS) {
        Some(Reference::IssueFields)
    } else if crate::text::same_chars(&v, RESOURCE_ARTICLE_FIELDS) {
        Some(Reference::ArticleFields)
    } else {
        None
    }
}

/// How a failed tool call is reported to the model: the error text after a
/// `youtrack: ` mark, so that the model can correct itself.
pub fn tool_error_text(error: &str) -> (r: String)
    ensures
        r@ == "youtrack: "@ + error@,
{
    let mut r = "youtrack: ".to_owned();
    r.append(error);
    r
}

/// Answer of an applied command.
pub fn applied_text(command: &str, issue: &str) -> (r: String)
    ensures
        r@ == "OK: applied '"@ + command@ + "' to "@ + issue@,
{
    let mut r = "OK: applied '".to_owned();
    r.append(command);
    r.append("' to ");
    r.append(issue);
    r
}

/// Answer of a comment added to an issue.
pub fn comment_added_text(issue: &str) -> (r: String)
    ensures
        r@ == "OK: comment added to "@ + issue@,
{
    let mut r = "OK: comment added to ".to_owned();
    r.append(issue);
    r
}

/// Answer of a comment added to an article.
pub fn article_comment_added_text(article: &str) -> (r: String)
    ensures
        r@ == "OK: comment added to article "@ + article@,
{
    let mut r = "OK: comment added to article ".to_owned();
    r.append(article);
    r
}

/// Answer of a deletion from an issue: `what` is the deleted item
/// (`comment`, `attachment`), `id` its id.
pub fn deleted_from_issue_text(what: &str, id: &str, issue: &str) -> (r: String)
    ensures
        r@ == "OK: "@ + what@ + " "@ + id@ + " deleted from "@ + issue@,
{
    let mut r = "OK: ".to_owned();
    r.append(what);
    r.append(" ");
    r.append(id);
    r.append(" deleted from ");
    r.append(issue);
    r
}

/// Answer of a deletion from an article.
pub fn deleted_from_article_text(what: &str, id: &str, article: &str) -> (r: String)
    ensures
        r@ == "OK: "@ + what@ + " "@ + id@ + " deleted from article "@ + article@,
{
    let mut r = "OK: ".to_owned();
    r.append(what);
    r.append(" ");
    r.append(id);
    r.append(" deleted from article ");
    r.append(article);
    r
}

} // verus!
