use yt_mcp::search::{search_articles, search_users, ArticleText, UserText};

fn article(summary: &str, content: &str) -> ArticleText {
    ArticleText {
        id_readable: None,
        summary: Some(summary.to_owned()),
        content: Some(content.to_owned()),
    }
}

fn articles() -> Vec<ArticleText> {
    let mut a1 = article("Deploy runbook", "Раскатка через kubectl");
    a1.id_readable = Some("DEMO-A-1".to_owned());
    let mut a2 = article("Onboarding", "Как завести доступы");
    a2.id_readable = Some("DEMO-A-2".to_owned());
    vec![a1, a2]
}

fn user(login: &str, full_name: &str, email: &str, banned: bool) -> UserText {
    UserText {
        login: Some(login.to_owned()),
        full_name: Some(full_name.to_owned()),
        email: Some(email.to_owned()),
        banned: Some(banned),
    }
}

fn users() -> Vec<UserText> {
    vec![
        user("ivan", "Иван Петров", "ivan@example.com", false),
        user("maria", "Мария Сидорова", "maria@example.com", false),
        user("oldtimer", "Пётр Уволенный", "petr@example.com", true),
    ]
}

#[test]
fn article_search_needs_every_word_in_title_or_body() {
    let scanned = articles();
    let page = search_articles(&scanned, "deploy КУБЕКТЛ", None, None);
    assert!(page.selection.positions.is_empty(), "an extra word must not match");

    let page = search_articles(&scanned, "Deploy KUBECTL", None, None);
    assert_eq!(page.selection.positions, vec![0]);

    let page = search_articles(&scanned, "", None, None);
    assert_eq!(page.selection.positions, vec![0, 1]);
    assert_eq!(page.selection.matched, 2);
    assert_eq!(page.selection.next_skip, None);
    assert!(!page.selection.scan_truncated);
}

#[test]
fn article_pages_follow_next_skip() {
    let scanned = articles();
    let first = search_articles(&scanned, "", Some(1), None);
    assert_eq!(first.selection.positions, vec![0]);
    assert_eq!(first.selection.matched, 2, "matched counts every match, not the page");
    assert_eq!(first.selection.next_skip, Some(1));

    let second = search_articles(&scanned, "", Some(1), first.selection.next_skip);
    assert_eq!(second.selection.positions, vec![1]);
    assert_eq!(second.selection.next_skip, None, "last page");

    // A limit of 0 from the model must not become a page that is always empty.
    assert_eq!(search_articles(&scanned, "", Some(0), None).selection.positions.len(), 1);
    // A skip beyond the matches is an empty page without next_skip.
    let beyond = search_articles(&scanned, "", None, Some(99));
    assert!(beyond.selection.positions.is_empty());
    assert_eq!(beyond.selection.next_skip, None);
}

#[test]
fn article_search_reads_missing_text_as_empty() {
    let scanned = vec![ArticleText { id_readable: None, summary: None, content: Some("Alpha".to_owned()) }];
    assert_eq!(search_articles(&scanned, "alpha", None, None).selection.positions, vec![0]);
    let scanned = vec![ArticleText { id_readable: None, summary: None, content: None }];
    assert_eq!(search_articles(&scanned, "", None, None).selection.positions, vec![0]);
    assert!(search_articles(&scanned, "x", None, None).selection.positions.is_empty());
}

#[test]
fn a_full_article_window_reports_truncation() {
    let scanned: Vec<ArticleText> = (0..500).map(|i| article(&format!("a{i}"), "")).collect();
    let page = search_articles(&scanned, "", Some(1000), None);
    assert!(page.selection.scan_truncated);
    assert_eq!(page.selection.positions.len(), 500, "the page size is capped by the scan limit");
    let fewer: Vec<ArticleText> = (0..499).map(|i| article(&format!("a{i}"), "")).collect();
    let page = search_articles(&fewer, "", None, None);
    assert!(!page.selection.scan_truncated);
    assert_eq!(page.selection.positions.len(), 25, "the default page");
    assert_eq!(page.selection.next_skip, Some(25));
}

#[test]
fn user_search_matches_login_full_name_and_email() {
    let scanned = users();
    let page = search_users(&scanned, "ivan", None, None);
    assert_eq!(page.matched, 1);
    assert_eq!(page.positions, vec![0]);

    // Full name, whatever the case.
    let page = search_users(&scanned, "СИДОРОВА", None, None);
    assert_eq!(page.positions, vec![1]);

    // Email.
    let page = search_users(&scanned, "maria@example.com", None, None);
    assert_eq!(page.positions.len(), 1);

    // Every word is required.
    let page = search_users(&scanned, "Иван Сидорова", None, None);
    assert!(page.positions.is_empty());
}

#[test]
fn user_search_drops_banned_accounts() {
    let scanned = users();
    let page = search_users(&scanned, "", None, None);
    assert_eq!(page.matched, 2, "a banned account must not be listed");
    assert!(!page.positions.contains(&2));
    assert!(!page.scan_truncated);
    assert_eq!(page.next_skip, None);
    assert!(search_users(&scanned, "oldtimer", None, None).positions.is_empty());
}

#[test]
fn user_pages_follow_next_skip() {
    let scanned = users();
    let page = search_users(&scanned, "", Some(1), None);
    assert_eq!(page.positions.len(), 1);
    assert_eq!(page.matched, 2);
    assert_eq!(page.next_skip, Some(1));

    let page = search_users(&scanned, "", Some(1), Some(1));
    assert_eq!(page.positions.len(), 1);
    assert_eq!(page.next_skip, None);
}

#[test]
fn a_full_user_window_reports_truncation() {
    let scanned: Vec<UserText> = (0..500)
        .map(|i| UserText {
            login: Some(format!("user{i}")),
            full_name: None,
            email: None,
            banned: Some(false),
        })
        .collect();
    assert!(search_users(&scanned, "", None, None).scan_truncated);
}

#[test]
fn query_casing_does_not_change_the_matches() {
    let scanned = articles();
    let lower = search_articles(&scanned, "раскатка kubectl", None, None);
    let mixed = search_articles(&scanned, "РАСКАТКА KubeCtl", None, None);
    assert_eq!(lower.selection.positions, vec![0]);
    assert_eq!(mixed.selection.positions, lower.selection.positions);
    assert_eq!(mixed.selection.matched, lower.selection.matched);

    let people = users();
    let lower = search_users(&people, "мария", None, None);
    let upper = search_users(&people, "МАРИЯ", None, None);
    assert_eq!(lower.positions, vec![1]);
    assert_eq!(upper.positions, lower.positions);
}

#[test]
fn search_articles_matches_all_terms_and_strips_content() {
    let scanned = articles();
    let page = search_articles(&scanned, "deploy КУБЕКТЛ", None, None);
    assert!(page.articles.is_empty(), "an extra word must not match");

    let page = search_articles(&scanned, "Deploy KUBECTL", None, None);
    assert_eq!(page.articles.len(), 1);
    assert_eq!(page.articles[0].id_readable.as_deref(), Some("DEMO-A-1"));
    assert_eq!(page.articles[0].content, None, "the body is handed out by find_article only");

    let page = search_articles(&scanned, "", None, None);
    assert_eq!(page.articles.len(), 2);
    assert_eq!(page.selection.matched, 2);
    assert_eq!(page.selection.next_skip, None);
    assert!(!page.selection.scan_truncated);
}

#[test]
fn search_articles_pages_matches_and_reports_next_skip() {
    let scanned = articles();
    let first = search_articles(&scanned, "", Some(1), None);
    assert_eq!(first.articles.len(), 1);
    assert_eq!(first.articles[0].id_readable.as_deref(), Some("DEMO-A-1"));
    assert_eq!(first.selection.matched, 2, "matched counts every match, not the page");
    assert_eq!(first.selection.next_skip, Some(1));

    let second = search_articles(&scanned, "", Some(1), first.selection.next_skip);
    assert_eq!(second.articles[0].id_readable.as_deref(), Some("DEMO-A-2"));
    assert_eq!(second.articles[0].content, None);
    assert_eq!(second.selection.next_skip, None, "last page");

    assert_eq!(search_articles(&scanned, "", Some(0), None).articles.len(), 1);
    let beyond = search_articles(&scanned, "", None, Some(99));
    assert!(beyond.articles.is_empty());
    assert_eq!(beyond.selection.next_skip, None);
}
