//! What each call to YouTrack asks for: the field selections, page bounds
//! and query strings, and the bodies of the writing calls. The calls
//! themselves are made by the HTTP side; these are the values it sends.
use vstd::prelude::*;

verus! {

broadcast use vstd::string::group_string_axioms;

/// Default size of a page of comments.
pub const DEFAULT_COMMENT_PAGE: i64 = 50;

/// Largest page of comments a caller can ask for.
pub const MAX_COMMENT_PAGE: i64 = 200;

/// How many issues one search returns at most.
pub const ISSUE_SEARCH_TOP: i64 = 100;

/// The texts of a list of strings.
pub open spec fn texts(v: Seq<String>) -> Seq<Seq<char>> {
    v.map_values(|s: String| s@)
}

/// Parameters of one list or search request: the fields to return, the page
/// bounds and, for issues, the query.
#[derive(Debug)]
pub struct ListQuery {
    pub fields: Vec<String>,
    pub top: Option<i64>,
    pub skip: Option<i64>,
    pub query: Option<String>,
}

/// Fields of an issue in a list: no description, which is heavy and would
/// bloat every listing.
pub open spec fn list_fields_spec() -> Seq<Seq<char>> {
    seq![
        "idReadable"@,
        "summary"@,
        "created"@,
        "updated"@,
        "resolved"@,
        "project(shortName,name)"@,
        "customFields(name,value(name,login,fullName))"@,
    ]
}

/// Fields of the card of one issue: complete, with description and reporter.
pub open spec fn issue_fields_spec() -> Seq<Seq<char>> {
    seq![
        "idReadable"@,
        "summary"@,
        "description"@,
        "created"@,
        "updated"@,
        "resolved"@,
        "project(shortName,name)"@,
        "reporter(login,fullName)"@,
        "customFields(name,value(name,login,fullName))"@,
    ]
}

/// Fields of a project in the project list.
pub open spec fn project_fields_spec() -> Seq<Seq<char>> {
    seq!["id"@, "shortName"@, "name"@]
}

/// Fields of a comment: its text is what a listing is for.
pub open spec fn comment_fields_spec() -> Seq<Seq<char>> {
    seq!["id"@, "text"@, "created"@, "updated"@, "author(login,fullName)"@]
}

/// Fields of an article in a list: no content.
pub open spec fn article_list_fields_spec() -> Seq<Seq<char>> {
    seq![
        "idReadable"@,
        "summary"@,
        "updated"@,
        "hasChildren"@,
        "project(shortName,name)"@,
        "parentArticle(idReadable,summary)"@,
    ]
}

/// Fields of the card of one article: the list fields, the full text and the
/// neighbours in the tree.
pub open spec fn article_fields_spec() -> Seq<Seq<char>> {
    article_list_fields_spec() + seq![
        "content"@,
        "created"@,
        "reporter(login,fullName)"@,
        "childArticles(idReadable,summary)"@,
    ]
}

/// Fields of a user.
pub open spec fn user_fields_spec() -> Seq<Seq<char>> {
    seq!["id"@, "login"@, "fullName"@, "email"@, "banned"@]
}

/// Fields of an attachment in a list: no content, so that a listing never
/// pours every file into the conversation.
pub open spec fn attachment_fields_spec() -> Seq<Seq<char>> {
    seq![
        "id"@,
        "name"@,
        "size"@,
        "mimeType"@,
        "created"@,
        "author(login,fullName)"@,
        "url"@,
    ]
}

/// The cheap fields on which reading an attachment is decided.
pub open spec fn attachment_meta_fields_spec() -> Seq<Seq<char>> {
    seq!["id"@, "name"@, "size"@, "mimeType"@]
}

/// The fields that carry an attachment's content.
pub open spec fn attachment_content_fields_spec() -> Seq<Seq<char>> {
    attachment_meta_fields_spec().push("base64Content"@)
}

pub fn default_list_fields() -> (r: Vec<String>)
    ensures
        texts(r@) == list_fields_spec(),
{
    let r = vec![
        "idReadable".to_owned(),
        "summary".to_owned(),
        "created".to_owned(),
        "updated".to_owned(),
        "resolved".to_owned(),
        "project(shortName,name)".to_owned(),
        "customFields(name,value(name,login,fullName))".to_owned(),
    ];
    assert(texts(r@) =~= list_fields_spec());
    r
}

pub fn default_issue_fields() -> (r: Vec<String>)
    ensures
        texts(r@) == issue_fields_spec(),
{
    let r = vec![
        "idReadable".to_owned(),
        "summary".to_owned(),
        "description".to_owned(),
        "created".to_owned(),
        "updated".to_owned(),
        "resolved".to_owned(),
        "project(shortName,name)".to_owned(),
        "reporter(login,fullName)".to_owned(),
        "customFields(name,value(name,login,fullName))".to_owned(),
    ];
    assert(texts(r@) =~= issue_fields_spec());
    r
}

pub fn project_fields() -> (r: Vec<String>)
    ensures
        texts(r@) == project_fields_spec(),
{
    let r = vec!["id".to_owned(), "shortName".to_owned(), "name".to_owned()];
    assert(texts(r@) =~= project_fields_spec());
    r
}

pub fn default_comment_fields() -> (r: Vec<String>)
    ensures
        texts(r@) == comment_fields_spec(),
{
    let r = vec![
        "id".to_owned(),
        "text".to_owned(),
        "created".to_owned(),
        "updated".to_owned(),
        "author(login,fullName)".to_owned(),
    ];
    assert(texts(r@) =~= comment_fields_spec());
    r
}

pub fn default_article_list_fields() -> (r: Vec<String>)
    ensures
        texts(r@) == article_list_fields_spec(),
{
    let r = vec![
        "idReadable".to_owned(),
        "summary".to_owned(),
        "updated".to_owned(),
        "hasChildren".to_owned(),
        "project(shortName,name)".to_owned(),
        "parentArticle(idReadable,summary)".to_owned(),
    ];
    assert(texts(r@) =~= article_list_fields_spec());
    r
}

pub fn default_article_fields() -> (r: Vec<String>)
    ensures
        texts(r@) == article_fields_spec(),
{
    let mut r = default_article_list_fields();
    r.push("content".to_owned());
    r.push("created".to_owned());
    r.push("reporter(login,fullName)".to_owned());
    r.push("childArticles(idReadable,summary)".to_owned());
    assert(texts(r@) =~= article_fields_spec());
    r
}

pub fn user_fields() -> (r: Vec<String>)
    ensures
        texts(r@) == user_fields_spec(),
{
    let r = vec![
        "id".to_owned(),
        "login".to_owned(),
        "fullName".to_owned(),
        "email".to_owned(),
        "banned".to_owned(),
    ];
    assert(texts(r@) =~= user_fields_spec());
    r
}

pub fn default_attachment_fields() -> (r: Vec<String>)
    ensures
        texts(r@) == attachment_fields_spec(),
{
    let r = vec![
        "id".to_owned(),
        "name".to_owned(),
        "size".to_owned(),
        "mimeType".to_owned(),
        "created".to_owned(),
        "author(login,fullName)".to_owned(),
        "url".to_owned(),
    ];
    assert(texts(r@) =~= attachment_fields_spec());
    r
}

pub fn attachment_meta_fields() -> (r: Vec<String>)
    ensures
        texts(r@) == attachment_meta_fields_spec(),
{
    let r = vec!["id".to_owned(), "name".to_owned(), "size".to_owned(), "mimeType".to_owned()];
    assert(texts(r@) =~= attachment_meta_fields_spec());
    r
}

pub fn attachment_content_fields() -> (r: Vec<String>)
    ensures
        texts(r@) == attachment_content_fields_spec(),
{
    let mut r = attachment_meta_fields();
    r.push("base64Content".to_owned());
    assert(texts(r@) =~= attachment_content_fields_spec());
    r
}

/// The field selection a caller gets: its own, unless it gave none or an
/// empty list. An empty list means "not chosen", not "return nothing" —
/// YouTrack would answer an empty selection with a bare `$type`.
pub fn fields_query(fields: Option<Vec<String>>, default: Vec<String>) -> (r: Vec<String>)
    ensures
        match fields {
            Some(f) => if f@.len() > 0 {
                r@ == f@
            } else {
                r@ == default@
            },
            None => r@ == default@,
        },
{
    match fields {
        Some(f) => if f.len() > 0 {
            f
        } else {
            default
        },
        None => default,
    }
}

/// The comment page a caller gets: `top` defaults to
/// [`DEFAULT_COMMENT_PAGE`] and is kept within `1..=MAX_COMMENT_PAGE`; `skip`
/// defaults to 0 and is never negative.
pub open spec fn comment_top(top: Option<i64>) -> int {
    let t = match top {
        Some(t) => t as int,
        None => DEFAULT_COMMENT_PAGE as int,
    };
    if t < 1 {
        1
    } else if t > MAX_COMMENT_PAGE {
        MAX_COMMENT_PAGE as int
    } else {
        t
    }
}

/// See [`comment_top`].
pub open spec fn comment_skip(skip: Option<i64>) -> int {
    match skip {
        Some(s) => if s < 0 { 0 } else { s as int },
        None => 0,
    }
}

/// The page size of a comment page: a requested size within `1..=200` is
/// kept as it is, a missing one is 50, one below 1 is 1 and one above 200 is
/// 200; a requested skip that is not negative is kept, any other is 0.
pub proof fn lemma_comment_page_keeps_what_is_in_range(top: Option<i64>, skip: Option<i64>)
    ensures
        forall|t: i64| top == Some(t) && 1 <= t <= 200 ==> comment_top(top) == t,
        top is None ==> comment_top(top) == 50,
        top matches Some(t) && t < 1 ==> comment_top(top) == 1,
        top matches Some(t) && t > 200 ==> comment_top(top) == 200,
        forall|s: i64| skip == Some(s) && s >= 0 ==> comment_skip(skip) == s,
        !(skip matches Some(s) && s >= 0) ==> comment_skip(skip) == 0,
{
}

/// One page of comments, with the comment fields.
pub fn comment_page(top: Option<i64>, skip: Option<i64>) -> (q: ListQuery)
    ensures
        q.top == Some(comment_top(top) as i64),
        q.skip == Some(comment_skip(skip) as i64),
        forall|t: i64| top == Some(t) && 1 <= t <= MAX_COMMENT_PAGE ==> q.top == Some(t),
        top is None ==> q.top == Some(DEFAULT_COMMENT_PAGE),
        forall|s: i64| skip == Some(s) && s >= 0 ==> q.skip == Some(s),
        1 <= comment_top(top) <= MAX_COMMENT_PAGE,
        comment_skip(skip) >= 0,
        texts(q.fields@) == comment_fields_spec(),
        q.query is None,
{
    let t = match top {
        Some(t) => t,
        None => DEFAULT_COMMENT_PAGE,
    };
    let t = if t < 1 {
        1
    } else if t > MAX_COMMENT_PAGE {
        MAX_COMMENT_PAGE
    } else {
        t
    };
    let s = match skip {
        Some(s) => if s < 0 { 0 } else { s },
        None => 0,
    };
    ListQuery { fields: default_comment_fields(), top: Some(t), skip: Some(s), query: None }
}

/// An issue search: the query as given, the caller's fields or the list
/// default, at most [`ISSUE_SEARCH_TOP`] issues.
pub fn issue_search(query: &str, fields: Option<Vec<String>>) -> (q: ListQuery)
    ensures
        q.query matches Some(s) && s@ == query@,
        q.top == Some(ISSUE_SEARCH_TOP),
        q.skip is None,
        match fields {
            Some(f) => if f@.len() > 0 {
                q.fields@ == f@
            } else {
                texts(q.fields@) == list_fields_spec()
            },
            None => texts(q.fields@) == list_fields_spec(),
        },
{
    let chosen = fields_query(fields, default_list_fields());
    ListQuery { fields: chosen, top: Some(ISSUE_SEARCH_TOP), skip: None, query: Some(query.to_owned()) }
}

/// The query of "my issues": unresolved issues assigned to `assignee`.
pub fn my_issues_query(assignee: &str) -> (r: String)
    ensures
        r@ == "assignee: "@ + assignee@ + " #Unresolved"@,
{
    let mut r = "assignee: ".to_owned();
    r.append(assignee);
    r.append(" #Unresolved");
    r
}

/// The scan behind an article search: list fields plus the content that the
/// words are matched in, the first `ARTICLE_SCAN_LIMIT` articles.
pub fn article_scan() -> (q: ListQuery)
    ensures
        texts(q.fields@) == article_list_fields_spec().push("content"@),
        q.top == Some(crate::search::ARTICLE_SCAN_LIMIT as i64),
        q.skip is None,
        q.query is None,
{
    let mut fields = default_article_list_fields();
    fields.push("content".to_owned());
    assert(texts(fields@) =~= article_list_fields_spec().push("content"@));
    ListQuery { fields, top: Some(500), skip: None, query: None }
}

/// The scan behind a user search: the user fields, the first
/// `USER_SCAN_LIMIT` users.
pub fn user_scan() -> (q: ListQuery)
    ensures
        texts(q.fields@) == user_fields_spec(),
        q.top == Some(crate::search::USER_SCAN_LIMIT as i64),
        q.skip is None,
        q.query is None,
{
    ListQuery { fields: user_fields(), top: Some(500), skip: None, query: None }
}

/// One page of the article list for an incremental sync: the bounds as the
/// caller gives them, metadata only.
pub fn articles_page(top: i64, skip: i64) -> (q: ListQuery)
    ensures
        q.top == Some(top),
        q.skip == Some(skip),
        texts(q.fields@) == article_list_fields_spec(),
        q.query is None,
{
    ListQuery { fields: default_article_list_fields(), top: Some(top), skip: Some(skip), query: None }
}

/// A command applied to one issue, referred to by its readable id, with an
/// optional comment sent in the same request.
#[derive(Debug)]
pub struct CommandRequest {
    pub query: String,
    pub issue_id_readable: String,
    pub comment: Option<String>,
}

pub fn command_request(issue_id: &str, command: &str, comment: Option<&str>) -> (r: CommandRequest)
    ensures
        r.query@ == command@,
        r.issue_id_readable@ == issue_id@,
        match comment {
            Some(c) => r.comment matches Some(s) && s@ == c@,
            None => r.comment is None,
        },
{
    let comment = match comment {
        Some(c) => Some(c.to_owned()),
        None => None,
    };
    CommandRequest { query: command.to_owned(), issue_id_readable: issue_id.to_owned(), comment }
}

/// The body of a new issue.
#[derive(Debug)]
pub struct IssueDraft {
    pub project_id: String,
    pub summary: String,
    pub description: Option<String>,
}

pub fn issue_draft(project_id: String, summary: &str, description: Option<&str>) -> (r: IssueDraft)
    ensures
        r.project_id == project_id,
        r.summary@ == summary@,
        match description {
            Some(d) => r.description matches Some(s) && s@ == d@,
            None => r.description is None,
        },
{
    let description = match description {
        Some(d) => Some(d.to_owned()),
        None => None,
    };
    IssueDraft { project_id, summary: summary.to_owned(), description }
}

/// The body of a new article or of an update to one. Fields left `None` are
/// not sent, and YouTrack keeps them as they are.
#[derive(Debug)]
pub struct ArticleDraft {
    pub project_id: Option<String>,
    pub summary: Option<String>,
    pub content: Option<String>,
    pub parent_id_readable: Option<String>,
}

/// The text of an optional borrowed string, owned.
pub open spec fn owned_as(o: Option<String>, b: Option<&str>) -> bool {
    match b {
        Some(t) => o matches Some(s) && s@ == t@,
        None => o is None,
    }
}

fn own(b: Option<&str>) -> (o: Option<String>)
    ensures
        owned_as(o, b),
{
    match b {
        Some(t) => Some(t.to_owned()),
        None => None,
    }
}

/// A new article in a project, optionally nested under a parent article.
pub fn article_draft(
    project_id: String,
    summary: &str,
    content: Option<&str>,
    parent_id: Option<&str>,
) -> (r: ArticleDraft)
    ensures
        r.project_id == Some(project_id),
        r.summary matches Some(s) && s@ == summary@,
        owned_as(r.content, content),
        owned_as(r.parent_id_readable, parent_id),
{
    ArticleDraft {
        project_id: Some(project_id),
        summary: Some(summary.to_owned()),
        content: own(content),
        parent_id_readable: own(parent_id),
    }
}

/// An update of an article: only the given fields are sent.
pub fn article_patch(summary: Option<&str>, content: Option<&str>) -> (r: ArticleDraft)
    ensures
        r.project_id is None,
        owned_as(r.summary, summary),
        owned_as(r.content, content),
        r.parent_id_readable is None,
{
    ArticleDraft { project_id: None, summary: own(summary), content: own(content), parent_id_readable: None }
}

} // verus!
