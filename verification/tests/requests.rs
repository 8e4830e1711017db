use yt_mcp::builder::YoutrackClientBuilder;
use yt_mcp::requests::{
    article_draft, article_patch, article_scan, articles_page, attachment_content_fields,
    attachment_meta_fields, command_request, comment_page, default_article_fields,
    default_article_list_fields, default_attachment_fields, default_comment_fields,
    default_issue_fields, default_list_fields, fields_query, issue_draft, issue_search,
    my_issues_query, project_fields, user_fields, user_scan,
};

fn joined(v: &[String]) -> String {
    v.join(",")
}

#[test]
fn default_field_selections() {
    assert_eq!(
        joined(&default_list_fields()),
        "idReadable,summary,created,updated,resolved,project(shortName,name),\
customFields(name,value(name,login,fullName))"
    );
    assert_eq!(
        joined(&default_issue_fields()),
        "idReadable,summary,description,created,updated,resolved,project(shortName,name),\
reporter(login,fullName),customFields(name,value(name,login,fullName))"
    );
    assert_eq!(joined(&project_fields()), "id,shortName,name");
    assert_eq!(joined(&default_comment_fields()), "id,text,created,updated,author(login,fullName)");
    assert_eq!(
        joined(&default_article_list_fields()),
        "idReadable,summary,updated,hasChildren,project(shortName,name),\
parentArticle(idReadable,summary)"
    );
    assert_eq!(
        joined(&default_article_fields()),
        "idReadable,summary,updated,hasChildren,project(shortName,name),\
parentArticle(idReadable,summary),content,created,reporter(login,fullName),\
childArticles(idReadable,summary)"
    );
    assert_eq!(joined(&user_fields()), "id,login,fullName,email,banned");
    assert_eq!(
        joined(&default_attachment_fields()),
        "id,name,size,mimeType,created,author(login,fullName),url"
    );
    assert_eq!(joined(&attachment_meta_fields()), "id,name,size,mimeType");
    assert_eq!(joined(&attachment_content_fields()), "id,name,size,mimeType,base64Content");
}

/// An empty list from the model means "not chosen", not "return nothing".
#[test]
fn an_empty_selection_falls_back_to_the_default() {
    assert_eq!(fields_query(Some(vec![]), default_issue_fields()), default_issue_fields());
    assert_eq!(fields_query(None, default_issue_fields()), default_issue_fields());
    let own = vec!["idReadable".to_owned(), "summary".to_owned()];
    assert_eq!(fields_query(Some(own.clone()), default_issue_fields()), own);
}

#[test]
fn comment_pages_are_clamped() {
    let q = comment_page(None, None);
    assert_eq!((q.top, q.skip), (Some(50), Some(0)));
    assert_eq!(joined(&q.fields), "id,text,created,updated,author(login,fullName)");
    assert_eq!(comment_page(Some(0), None).top, Some(1));
    assert_eq!(comment_page(Some(9999), None).top, Some(200));
    assert_eq!(comment_page(Some(7), Some(-5)).skip, Some(0));
    assert_eq!(comment_page(Some(7), Some(30)).skip, Some(30));
}

#[test]
fn issue_searches_and_the_my_issues_query() {
    let q = issue_search("assignee: me", None);
    assert_eq!(q.query.as_deref(), Some("assignee: me"));
    assert_eq!(q.top, Some(100));
    assert_eq!(q.fields, default_list_fields());
    let q = issue_search("x", Some(vec!["idReadable".to_owned(), "summary".to_owned()]));
    assert_eq!(joined(&q.fields), "idReadable,summary");
    assert_eq!(my_issues_query("alice"), "assignee: alice #Unresolved");
}

#[test]
fn scans_and_pages_of_lists() {
    let q = article_scan();
    assert_eq!(q.top, Some(500));
    assert!(q.fields.last().map(String::as_str) == Some("content"));
    let q = user_scan();
    assert_eq!(q.top, Some(500));
    assert_eq!(q.fields, user_fields());
    let q = articles_page(200, 400);
    assert_eq!((q.top, q.skip), (Some(200), Some(400)));
    assert_eq!(q.fields, default_article_list_fields());
}

#[test]
fn bodies_of_writing_calls() {
    let c = command_request("DEMO-1", "state Fixed", Some("done"));
    assert_eq!((c.query.as_str(), c.issue_id_readable.as_str()), ("state Fixed", "DEMO-1"));
    assert_eq!(c.comment.as_deref(), Some("done"));
    assert_eq!(command_request("DEMO-1", "x", None).comment, None);

    let d = issue_draft("0-7".to_owned(), "New task", None);
    assert_eq!((d.project_id.as_str(), d.summary.as_str()), ("0-7", "New task"));
    assert_eq!(d.description, None);

    let a = article_draft("0-7".to_owned(), "Runbook", Some("text"), Some("DEMO-A-1"));
    assert_eq!(a.project_id.as_deref(), Some("0-7"));
    assert_eq!(a.summary.as_deref(), Some("Runbook"));
    assert_eq!(a.content.as_deref(), Some("text"));
    assert_eq!(a.parent_id_readable.as_deref(), Some("DEMO-A-1"));

    // An update sends only the given fields.
    let p = article_patch(None, Some("new text"));
    assert_eq!(p.summary, None);
    assert_eq!(p.content.as_deref(), Some("new text"));
    assert_eq!(p.project_id, None);
}

#[test]
fn the_builder_keeps_url_and_token() {
    let (url, token) = YoutrackClientBuilder::new()
        .with_base_url("https://yt.example.com")
        .with_token("perm:abc")
        .into_parts();
    assert_eq!(url, "https://yt.example.com");
    assert_eq!(token, "perm:abc");
    let (url, _) = YoutrackClientBuilder::default().with_base_url("u").with_token("t").into_parts();
    assert_eq!(url, "u");
}
