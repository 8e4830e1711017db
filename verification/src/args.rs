//! The arguments of each tool, as the model sends them.
use vstd::prelude::*;

verus! {

#[derive(Debug)]
pub struct FindIssueArgs {
    /// Human-readable issue id, e.g. "DEMO-123"
    pub id: String,
    /// Optional field selection (see resource youtrack://reference/fields).
    /// Omit for the sensible default. Nested selection allowed, e.g.
    /// "customFields(name,value(name,login,fullName))".
    pub fields: Option<Vec<String>>,
}

#[derive(Debug)]
pub struct SearchIssuesArgs {
    /// YouTrack query language string (see resource youtrack://reference/query-syntax)
    pub query: String,
    /// Optional field selection (see resource youtrack://reference/fields).
    pub fields: Option<Vec<String>>,
}

#[derive(Debug)]
pub struct MyIssuesArgs {
    /// YouTrack login of the assignee
    pub assignee: String,
}

#[derive(Debug)]
pub struct ApplyCommandArgs {
    /// Human-readable issue id, e.g. "DEMO-123"
    pub issue: String,
    /// YouTrack command string, e.g. "state Fixed"
    pub command: String,
    /// Optional comment to attach along with the command
    pub comment: Option<String>,
}

#[derive(Debug)]
pub struct CreateIssueArgs {
    /// Project shortName, e.g. "DEMO"
    pub project: String,
    /// Issue summary (title)
    pub summary: String,
    /// Optional issue description
    pub description: Option<String>,
}

#[derive(Debug)]
pub struct AddCommentArgs {
    /// Human-readable issue id, e.g. "DEMO-123"
    pub issue: String,
    /// Comment text
    pub text: String,
}

#[derive(Debug)]
pub struct FindArticleArgs {
    /// Human-readable article id, e.g. "DEMO-A-4"
    pub id: String,
    /// Optional field selection (see resource youtrack://reference/articles).
    /// Omit for the sensible default (includes the full `content`).
    pub fields: Option<Vec<String>>,
}

#[derive(Debug)]
pub struct SearchArticlesArgs {
    /// Space-separated words; ALL of them must occur in title or body
    /// (case-insensitive substring match). Empty string lists all articles.
    /// NOT the YouTrack query language — the articles endpoint has none.
    pub query: String,
    /// Optional project shortName to narrow the scan, e.g. "DEMO"
    pub project: Option<String>,
    /// Page size, default 25. Ask for more only when you really need it.
    pub limit: Option<usize>,
    /// How many matches to skip — pass the `next_skip` value from the
    /// previous response to get the next page.
    pub skip: Option<usize>,
}

#[derive(Debug)]
pub struct CreateArticleArgs {
    /// Project shortName, e.g. "DEMO"
    pub project: String,
    /// Article title
    pub summary: String,
    /// Article body in YouTrack Markdown
    pub content: Option<String>,
    /// Optional parent article id (idReadable) to nest this article under
    pub parent: Option<String>,
}

#[derive(Debug)]
pub struct UpdateArticleArgs {
    /// Human-readable article id, e.g. "DEMO-A-4"
    pub id: String,
    /// New title; omit to keep the current one
    pub summary: Option<String>,
    /// New body — REPLACES the whole article text, so read it with
    /// youtrack_find_article first and send the full edited version
    pub content: Option<String>,
}

#[derive(Debug)]
pub struct AddArticleCommentArgs {
    /// Human-readable article id, e.g. "DEMO-A-4"
    pub article: String,
    /// Comment text
    pub text: String,
}

#[derive(Debug)]
pub struct ListCommentsArgs {
    /// Human-readable issue id, e.g. "DEMO-123"
    pub issue: String,
    /// Page size, default 50, capped at 200
    pub top: Option<i64>,
    /// How many comments to skip, default 0
    pub skip: Option<i64>,
}

#[derive(Debug)]
pub struct UpdateCommentArgs {
    /// Human-readable issue id, e.g. "DEMO-123"
    pub issue: String,
    /// Internal comment id, e.g. "4-123" — comments have no human-readable id,
    /// get it from youtrack_list_comments
    pub comment_id: String,
    /// New text — REPLACES the whole comment
    pub text: String,
}

#[derive(Debug)]
pub struct DeleteCommentArgs {
    /// Human-readable issue id, e.g. "DEMO-123"
    pub issue: String,
    /// Internal comment id from youtrack_list_comments, e.g. "4-123"
    pub comment_id: String,
}

#[derive(Debug)]
pub struct ListArticleCommentsArgs {
    /// Human-readable article id, e.g. "DEMO-A-4"
    pub article: String,
    /// Page size, default 50, capped at 200
    pub top: Option<i64>,
    /// How many comments to skip, default 0
    pub skip: Option<i64>,
}

#[derive(Debug)]
pub struct UpdateArticleCommentArgs {
    /// Human-readable article id, e.g. "DEMO-A-4"
    pub article: String,
    /// Internal comment id from youtrack_list_article_comments, e.g. "5-123"
    pub comment_id: String,
    /// New text — REPLACES the whole comment
    pub text: String,
}

#[derive(Debug)]
pub struct DeleteArticleCommentArgs {
    /// Human-readable article id, e.g. "DEMO-A-4"
    pub article: String,
    /// Internal comment id from youtrack_list_article_comments, e.g. "5-123"
    pub comment_id: String,
}

#[derive(Debug)]
pub struct SearchUsersArgs {
    /// Space-separated words; ALL of them must occur in the login, full name
    /// or email (case-insensitive substring match). Empty string lists users.
    /// NOT the YouTrack query language — the users endpoint has none.
    pub query: String,
    /// Page size, default 25
    pub limit: Option<usize>,
    /// How many matches to skip — pass the `next_skip` value from the
    /// previous response to get the next page.
    pub skip: Option<usize>,
}

#[derive(Debug)]
pub struct ListAttachmentsArgs {
    /// Human-readable issue id, e.g. "DEMO-123"
    pub issue: String,
}

#[derive(Debug)]
pub struct UploadAttachmentArgs {
    /// Human-readable issue id, e.g. "DEMO-123"
    pub issue: String,
    /// File name as it should appear in YouTrack, e.g. "report.csv"
    pub file_name: String,
    /// File content, base64. A `data:<mime>;base64,` prefix is accepted.
    /// Use this for content you produced yourself. Exactly one of
    /// 'content_base64' and 'url' must be given.
    pub content_base64: Option<String>,
    /// https URL the server will download the file from — cheaper than
    /// base64 for anything sizeable, because the bytes never pass through
    /// the conversation. Exactly one of 'content_base64' and 'url' must be
    /// given. Plain http is refused.
    pub url: Option<String>,
}

#[derive(Debug)]
pub struct ReadAttachmentArgs {
    /// Human-readable issue id, e.g. "DEMO-123"
    pub issue: String,
    /// Attachment id from youtrack_list_attachments, e.g. "8-1"
    pub attachment_id: String,
}

#[derive(Debug)]
pub struct DeleteAttachmentArgs {
    /// Human-readable issue id, e.g. "DEMO-123"
    pub issue: String,
    /// Attachment id from youtrack_list_attachments, e.g. "8-1"
    pub attachment_id: String,
}

#[derive(Debug)]
pub struct ListArticleAttachmentsArgs {
    /// Human-readable article id, e.g. "DEMO-A-4"
    pub article: String,
}

#[derive(Debug)]
pub struct UploadArticleAttachmentArgs {
    /// Human-readable article id, e.g. "DEMO-A-4"
    pub article: String,
    /// File name as it should appear in YouTrack, e.g. "scheme.png"
    pub file_name: String,
    /// File content, base64. A `data:<mime>;base64,` prefix is accepted.
    /// Exactly one of 'content_base64' and 'url' must be given.
    pub content_base64: Option<String>,
    /// https URL the server will download the file from. Exactly one of
    /// 'content_base64' and 'url' must be given. Plain http is refused.
    pub url: Option<String>,
}

#[derive(Debug)]
pub struct ReadArticleAttachmentArgs {
    /// Human-readable article id, e.g. "DEMO-A-4"
    pub article: String,
    /// Attachment id from youtrack_list_article_attachments, e.g. "9-1"
    pub attachment_id: String,
}

#[derive(Debug)]
pub struct DeleteArticleAttachmentArgs {
    /// Human-readable article id, e.g. "DEMO-A-4"
    pub article: String,
    /// Attachment id from youtrack_list_article_attachments, e.g. "9-1"
    pub attachment_id: String,
}

} // verus!
