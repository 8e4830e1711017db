//! Local search over a scanned window of articles or users, and paging over
//! the matches. The articles and users endpoints have no server-side query,
//! so a fixed window is scanned and filtered here: every word of the query
//! must occur, case-insensitively, in the item's text. Paging runs over the
//! matches, and the window is the same on every call, so pages agree.
use vstd::prelude::*;
use crate::text::{
    chars_of, contains, has_substring, lowercase, split_words, to_lower, words,
};
use crate::attachment::string_from_chars;

verus! {

broadcast use vstd::string::group_string_axioms;

/// How many articles one search scans at most.
pub const ARTICLE_SCAN_LIMIT: usize = 500;

/// Default page size of an article search.
pub const DEFAULT_ARTICLE_PAGE: usize = 25;

/// How many users one search scans at most.
pub const USER_SCAN_LIMIT: usize = 500;

/// Default page size of a user search.
pub const DEFAULT_USER_PAGE: usize = 25;

/// An article as a search sees it: its readable id, which names it on the
/// page, and the title and body that are searched.
#[derive(Debug)]
pub struct ArticleText {
    pub id_readable: Option<String>,
    pub summary: Option<String>,
    pub content: Option<String>,
}

/// One page of a knowledge base search: the articles on the page, in scan
/// order and without their body (the body is handed out by a lookup of one
/// article only), with the selection they were taken by.
#[derive(Debug)]
pub struct ArticlePage {
    pub articles: Vec<ArticleText>,
    pub selection: SearchSelection,
}

/// The fields of a user that a search looks at.
pub struct UserText {
    pub login: Option<String>,
    pub full_name: Option<String>,
    pub email: Option<String>,
    pub banned: Option<bool>,
}

/// One page of a search: the positions, in the scanned window, of the items
/// on this page; how many items matched in the whole window; the `skip` of
/// the next page, if there is one; and whether the window was full, so that
/// more items may lie beyond it.
#[derive(Debug)]
pub struct SearchSelection {
    pub positions: Vec<usize>,
    pub matched: usize,
    pub next_skip: Option<usize>,
    pub scan_truncated: bool,
}

/// An optional text, taken by its view.
pub open spec fn opt_view(o: Option<String>) -> Option<Seq<char>> {
    match o {
        Some(s) => Some(s@),
        None => None,
    }
}

/// An optional text, with `None` read as empty.
pub open spec fn opt_text(o: Option<String>) -> Seq<char> {
    match o {
        Some(s) => s@,
        None => Seq::empty(),
    }
}

/// The words of a query, each lowercased.
pub open spec fn query_terms(query: Seq<char>) -> Seq<Seq<char>> {
    words(query).map_values(|w: Seq<char>| lowercase(w))
}

/// Every term occurs in `hay`.
pub open spec fn has_all_terms(hay: Seq<char>, terms: Seq<Seq<char>>) -> bool {
    forall|k: int| 0 <= k < terms.len() ==> has_substring(hay, #[trigger] terms[k])
}

/// The text an article is searched in: title and body, lowercased.
pub open spec fn article_haystack(a: ArticleText) -> Seq<char> {
    lowercase(opt_text(a.summary) + " "@ + opt_text(a.content))
}

/// The text a user is searched in: login, full name and email, lowercased.
pub open spec fn user_haystack(u: UserText) -> Seq<char> {
    lowercase(opt_text(u.login) + " "@ + opt_text(u.full_name) + " "@ + opt_text(u.email))
}

/// An article matches a query when every word of the query occurs in it.
pub open spec fn article_hit(a: ArticleText, query: Seq<char>) -> bool {
    has_all_terms(article_haystack(a), query_terms(query))
}

/// A user matches a query when the account is not banned and every word of
/// the query occurs in it.
pub open spec fn user_hit(u: UserText, query: Seq<char>) -> bool {
    u.banned != Some(true) && has_all_terms(user_haystack(u), query_terms(query))
}

/// The positions `i` with `hits[i]`, in increasing order.
pub open spec fn hit_positions(hits: Seq<bool>) -> Seq<int>
    decreases hits.len(),
{
    if hits.len() == 0 {
        Seq::empty()
    } else {
        let prev = hit_positions(hits.drop_last());
        if hits.last() {
            prev.push(hits.len() - 1)
        } else {
            prev
        }
    }
}

/// The page size actually used: the requested one (or the default), kept
/// within `1..=cap`.
pub open spec fn page_size(limit: Option<usize>, default: usize, cap: usize) -> int {
    let l = match limit {
        Some(l) => l as int,
        None => default as int,
    };
    if l < 1 {
        1
    } else if l > cap {
        cap as int
    } else {
        l
    }
}

/// Start of a page among all matches.
pub open spec fn page_start(skip: Option<usize>, matched: int) -> int {
    let s = match skip {
        Some(s) => s as int,
        None => 0,
    };
    if s < matched { s } else { matched }
}

/// End of a page among all matches.
pub open spec fn page_end(skip: Option<usize>, size: int, matched: int) -> int {
    let s = match skip {
        Some(s) => s as int,
        None => 0,
    };
    if s + size < matched { s + size } else { matched }
}

/// The positions on the page that starts `skip` matches in and holds at most
/// `size` of them.
pub open spec fn page_positions(hits: Seq<bool>, skip: Option<usize>, size: int) -> Seq<int> {
    let all = hit_positions(hits);
    all.subrange(page_start(skip, all.len() as int), page_end(skip, size, all.len() as int))
}

/// The `skip` of the page after this one, if any match is left.
pub open spec fn page_next_skip(hits: Seq<bool>, skip: Option<usize>, size: int) -> Option<int> {
    let all = hit_positions(hits);
    let s = match skip {
        Some(s) => s as int,
        None => 0,
    };
    let taken = page_end(skip, size, all.len() as int) - page_start(skip, all.len() as int);
    if s + taken < all.len() {
        Some(s + taken)
    } else {
        None
    }
}

/// The page that a search returns for these hits.
pub open spec fn is_page_of(
    sel: SearchSelection,
    hits: Seq<bool>,
    limit: Option<usize>,
    skip: Option<usize>,
    default: usize,
    cap: usize,
) -> bool {
    let size = page_size(limit, default, cap);
    &&& sel.positions@.map_values(|p: usize| p as int) == page_positions(hits, skip, size)
    &&& sel.matched == hit_positions(hits).len()
    &&& match page_next_skip(hits, skip, size) {
        Some(t) => sel.next_skip == Some(t as usize),
        None => sel.next_skip is None,
    }
    &&& sel.scan_truncated == (hits.len() >= cap)
}

/// Positions of hits are increasing, in range, and are hits.
pub proof fn lemma_hit_positions(hits: Seq<bool>)
    ensures
        hit_positions(hits).len() <= hits.len(),
        forall|k: int|
            0 <= k < hit_positions(hits).len() ==> 0 <= #[trigger] hit_positions(hits)[k]
                < hits.len() && hits[hit_positions(hits)[k]],
        forall|k: int, j: int|
            0 <= k < j < hit_positions(hits).len() ==> #[trigger] hit_positions(hits)[k]
                < #[trigger] hit_positions(hits)[j],
        forall|i: int|
            0 <= i < hits.len() && #[trigger] hits[i] ==> hit_positions(hits).contains(i),
    decreases hits.len(),
{
    if hits.len() > 0 {
        let prev = hits.drop_last();
        lemma_hit_positions(prev);
        assert forall|i: int| 0 <= i < hits.len() && #[trigger] hits[i] implies hit_positions(
            hits,
        ).contains(i) by {
            if i < hits.len() - 1 {
                assert(prev[i] == hits[i]);
                let k = choose|k: int| 0 <= k < hit_positions(prev).len() && hit_positions(prev)[k]
                    == i;
                assert(hit_positions(hits)[k] == i);
            } else {
                assert(hit_positions(hits).last() == i);
            }
        }
    }
}

/// Selects the page of hits that starts `skip` matches in.
pub fn select_page(
    hits: &Vec<bool>,
    limit: Option<usize>,
    skip: Option<usize>,
    default: usize,
    cap: usize,
) -> (sel: SearchSelection)
    ensures
        is_page_of(sel, hits@, limit, skip, default, cap),
{
    let n = hits.len();
    let mut all: Vec<usize> = Vec::new();
    let mut i: usize = 0;
    while i < n
        invariant
            i <= n,
            n == hits@.len(),
            all@.map_values(|p: usize| p as int) == hit_positions(hits@.take(i as int)),
            all@.len() <= i,
        decreases n - i,
    {
        proof {
            assert(hits@.take(i + 1).drop_last() == hits@.take(i as int));
            lemma_hit_positions(hits@.take(i as int));
        }
        if hits[i] {
            all.push(i);
        }
        i = i + 1;
    }
    assert(hits@.take(n as int) == hits@);
    let ghost allv = hit_positions(hits@);
    let matched = all.len();
    let size: usize = match limit {
        Some(l) => l,
        None => default,
    };
    let size: usize = if size < 1 {
        1
    } else if size > cap {
        cap
    } else {
        size
    };
    let s: usize = match skip {
        Some(s) => s,
        None => 0,
    };
    let start: usize = if s < matched { s } else { matched };
    let end: usize = if s < matched && size < matched - s { s + size } else { matched };
    let mut positions: Vec<usize> = Vec::new();
    let mut j: usize = start;
    while j < end
        invariant
            start <= j <= end <= matched,
            matched == all@.len(),
            all@.map_values(|p: usize| p as int) == allv,
            positions@.map_values(|p: usize| p as int) == allv.subrange(start as int, j as int),
        decreases end - j,
    {
        positions.push(all[j]);
        assert(allv.subrange(start as int, j + 1) == allv.subrange(start as int, j as int).push(
            allv[j as int],
        ));
        j = j + 1;
    }
    let taken = end - start;
    let next_skip = if s < matched && taken < matched - s {
        Some(s + taken)
    } else {
        None
    };
    SearchSelection { positions, matched, next_skip, scan_truncated: n >= cap }
}

/// Following `next_skip` continues exactly where a page stopped: this page and
/// the next one together are the matches from this page's start on, in
/// order, with none left out and none repeated.
pub proof fn lemma_pages_chain(hits: Seq<bool>, skip: usize, size: int)
    requires
        size >= 1,
    ensures
        page_next_skip(hits, Some(skip), size) matches Some(t) ==> ({
            let all = hit_positions(hits);
            &&& t == skip + page_positions(hits, Some(skip), size).len()
            &&& t <= usize::MAX ==> page_positions(hits, Some(skip), size) + page_positions(
                hits,
                Some(t as usize),
                size,
            ) == all.subrange(
                skip as int,
                page_end(Some(t as usize), size, all.len() as int),
            )
        }),
        page_next_skip(hits, Some(skip), size) is None ==> skip + page_positions(
            hits,
            Some(skip),
            size,
        ).len() >= hit_positions(hits).len(),
{
    let all = hit_positions(hits);
    if let Some(t) = page_next_skip(hits, Some(skip), size) {
        if t <= usize::MAX {
            let e = page_end(Some(t as usize), size, all.len() as int);
            assert(all.subrange(skip as int, t) + all.subrange(t, e) =~= all.subrange(
                skip as int,
                e,
            ));
        }
    }
}

/// A query without words (empty or blank) lets every item match: an empty
/// query lists the whole window.
pub proof fn lemma_empty_query_matches_everything(hay: Seq<char>, query: Seq<char>)
    requires
        words(query).len() == 0,
    ensures
        has_all_terms(hay, query_terms(query)),
{
}

/// A search reads the query only through its lowercased words: two queries
/// whose words lowercase alike (`"Deploy GUIDE"` and `"deploy guide"`) match
/// the same articles and the same users.
pub proof fn lemma_query_case_is_ignored(q1: Seq<char>, q2: Seq<char>, a: ArticleText, u: UserText)
    requires
        query_terms(q1) == query_terms(q2),
    ensures
        article_hit(a, q1) == article_hit(a, q2),
        user_hit(u, q1) == user_hit(u, q2),
{
}

/// A user matches a query exactly when the account is not banned and every
/// word of the query, lowercased, occurs in the lowercased text of login,
/// full name and email joined by spaces (a missing one read as empty): a
/// user is found by login as well as by name or email.
pub proof fn lemma_user_search_reads_login_name_and_email(u: UserText, query: Seq<char>)
    ensures
        user_hit(u, query) <==> (u.banned != Some(true) && forall|k: int|
            0 <= k < words(query).len() ==> has_substring(
                lowercase(
                    opt_text(u.login) + " "@ + opt_text(u.full_name) + " "@ + opt_text(u.email),
                ),
                lowercase(#[trigger] words(query)[k]),
            )),
{
    let hay = lowercase(opt_text(u.login) + " "@ + opt_text(u.full_name) + " "@ + opt_text(u.email));
    lemma_terms_cover_words(hay, query);
}

/// An article matches a query exactly when every word of the query,
/// lowercased, occurs in the lowercased text of title and body joined by a
/// space (a missing one read as empty).
pub proof fn lemma_article_search_reads_title_and_body(a: ArticleText, query: Seq<char>)
    ensures
        article_hit(a, query) <==> forall|k: int|
            0 <= k < words(query).len() ==> has_substring(
                lowercase(opt_text(a.summary) + " "@ + opt_text(a.content)),
                lowercase(#[trigger] words(query)[k]),
            ),
{
    lemma_terms_cover_words(lowercase(opt_text(a.summary) + " "@ + opt_text(a.content)), query);
}

/// Every term of a query occurs in a text exactly when every word of the
/// query, lowercased, does.
proof fn lemma_terms_cover_words(hay: Seq<char>, query: Seq<char>)
    ensures
        has_all_terms(hay, query_terms(query)) <==> forall|k: int|
            0 <= k < words(query).len() ==> has_substring(hay, lowercase(#[trigger] words(query)[k])),
{
    let terms = query_terms(query);
    assert(terms.len() == words(query).len());
    if has_all_terms(hay, terms) {
        assert forall|k: int| 0 <= k < words(query).len() implies has_substring(
            hay,
            lowercase(#[trigger] words(query)[k]),
        ) by {
            assert(terms[k] == lowercase(words(query)[k]));
            assert(has_substring(hay, terms[k]));
        }
    }
    if forall|k: int|
        0 <= k < words(query).len() ==> has_substring(hay, lowercase(#[trigger] words(query)[k])) {
        assert forall|k: int| 0 <= k < terms.len() implies has_substring(hay, #[trigger] terms[k]) by {
            assert(terms[k] == lowercase(words(query)[k]));
            assert(has_substring(hay, lowercase(words(query)[k])));
        }
    }
}

/// A page never holds more than the page size, and never more matches than
/// there are past its start.
pub proof fn lemma_page_bounds(hits: Seq<bool>, skip: Option<usize>, size: int)
    requires
        size >= 0,
    ensures
        page_positions(hits, skip, size).len() <= size,
        page_positions(hits, skip, size).len() <= hit_positions(hits).len(),
{
}

/// Builds `a + " " + b` for the haystack of a search.
fn spaced(a: &Option<String>, b: &Option<String>) -> (r: String)
    ensures
        r@ == opt_text(*a) + " "@ + opt_text(*b),
{
    let mut r = match a {
        Some(s) => s.clone(),
        None => String::new(),
    };
    r.append(" ");
    match b {
        Some(s) => r.append(s.as_str()),
        None => {},
    }
    r
}

/// The lowercased words of a query.
pub fn terms_of(query: &str) -> (r: Vec<Vec<char>>)
    ensures
        r@.len() == query_terms(query@).len(),
        forall|k: int| 0 <= k < r@.len() ==> #[trigger] r@[k]@ == query_terms(query@)[k],
{
    let ws = split_words(&chars_of(query));
    let mut r: Vec<Vec<char>> = Vec::new();
    let n = ws.len();
    let mut i: usize = 0;
    while i < n
        invariant
            i <= n,
            n == ws@.len(),
            ws@.len() == words(query@).len(),
            forall|k: int| 0 <= k < ws@.len() ==> #[trigger] ws@[k]@ == words(query@)[k],
            r@.len() == i,
            forall|k: int| 0 <= k < i ==> #[trigger] r@[k]@ == query_terms(query@)[k],
        decreases n - i,
    {
        let w = string_from_chars(&ws[i]);
        let lw = to_lower(w.as_str());
        r.push(chars_of(lw.as_str()));
        i = i + 1;
    }
    r
}

/// Whether every term occurs in `hay`.
pub fn contains_all(hay: &Vec<char>, terms: &Vec<Vec<char>>) -> (r: bool)
    ensures
        r == has_all_terms(hay@, terms@.map_values(|t: Vec<char>| t@)),
{
    let ghost tv = terms@.map_values(|t: Vec<char>| t@);
    let n = terms.len();
    let mut i: usize = 0;
    while i < n
        invariant
            i <= n,
            n == terms@.len(),
            tv == terms@.map_values(|t: Vec<char>| t@),
            forall|k: int| 0 <= k < i ==> has_substring(hay@, #[trigger] tv[k]),
        decreases n - i,
    {
        if !contains(hay, &terms[i]) {
            assert(!has_substring(hay@, tv[i as int]));
            return false;
        }
        i = i + 1;
    }
    true
}

/// A copy of an optional text.
fn copy_text(o: &Option<String>) -> (r: Option<String>)
    ensures
        opt_view(r) == opt_view(*o),
{
    match o {
        Some(s) => Some(s.clone()),
        None => None,
    }
}

/// Searches a scanned window of articles: the page of those in which every
/// word of `query` occurs in title or body, case-insensitively. An empty
/// query lists every article. The page size defaults to
/// [`DEFAULT_ARTICLE_PAGE`] and is kept within `1..=ARTICLE_SCAN_LIMIT`. The
/// articles on the page keep their id and title, in scan order, and come
/// without their body.
pub fn search_articles(
    scanned: &Vec<ArticleText>,
    query: &str,
    limit: Option<usize>,
    skip: Option<usize>,
) -> (page: ArticlePage)
    ensures
        is_page_of(
            page.selection,
            Seq::new(scanned@.len(), |i: int| article_hit(scanned@[i], query@)),
            limit,
            skip,
            DEFAULT_ARTICLE_PAGE,
            ARTICLE_SCAN_LIMIT,
        ),
        page.articles@.len() == page.selection.positions@.len(),
        forall|k: int|
            0 <= k < page.selection.positions@.len() ==> {
                let i = #[trigger] page.selection.positions@[k] as int;
                &&& i < scanned@.len()
                &&& article_hit(scanned@[i], query@)
                &&& opt_view(page.articles@[k].id_readable) == opt_view(scanned@[i].id_readable)
                &&& opt_view(page.articles@[k].summary) == opt_view(scanned@[i].summary)
                &&& page.articles@[k].content is None
            },
{
    let terms = terms_of(query);
    let ghost tv = terms@.map_values(|t: Vec<char>| t@);
    assert(tv =~= query_terms(query@));
    let ghost want = Seq::new(scanned@.len(), |i: int| article_hit(scanned@[i], query@));
    let mut hits: Vec<bool> = Vec::new();
    let n = scanned.len();
    let mut i: usize = 0;
    while i < n
        invariant
            i <= n,
            n == scanned@.len(),
            tv == terms@.map_values(|t: Vec<char>| t@),
            tv == query_terms(query@),
            want == Seq::new(scanned@.len(), |i: int| article_hit(scanned@[i], query@)),
            hits@ == want.take(i as int),
        decreases n - i,
    {
        let a = &scanned[i];
        let text = spaced(&a.summary, &a.content);
        let hay = chars_of(to_lower(text.as_str()).as_str());
        let hit = contains_all(&hay, &terms);
        hits.push(hit);
        assert(hits@ =~= want.take(i + 1));
        i = i + 1;
    }
    assert(hits@ =~= want);
    let sel = select_page(&hits, limit, skip, DEFAULT_ARTICLE_PAGE, ARTICLE_SCAN_LIMIT);
    proof {
        page_positions_are_hits(want, skip, page_size(limit, DEFAULT_ARTICLE_PAGE, ARTICLE_SCAN_LIMIT));
        assert forall|k: int| 0 <= k < sel.positions@.len() implies #[trigger] sel.positions@[k]
            < scanned@.len() && article_hit(scanned@[sel.positions@[k] as int], query@) by {
            let pp = page_positions(want, skip, page_size(limit, DEFAULT_ARTICLE_PAGE, ARTICLE_SCAN_LIMIT));
            assert(pp[k] == sel.positions@.map_values(|p: usize| p as int)[k]);
        }
    }
    let mut articles: Vec<ArticleText> = Vec::new();
    let m = sel.positions.len();
    let mut k: usize = 0;
    while k < m
        invariant
            k <= m,
            m == sel.positions@.len(),
            forall|j: int| 0 <= j < m ==> #[trigger] sel.positions@[j] < scanned@.len(),
            articles@.len() == k,
            forall|j: int|
                0 <= j < k ==> {
                    let i = #[trigger] sel.positions@[j] as int;
                    &&& opt_view(articles@[j].id_readable) == opt_view(scanned@[i].id_readable)
                    &&& opt_view(articles@[j].summary) == opt_view(scanned@[i].summary)
                    &&& articles@[j].content is None
                },
        decreases m - k,
    {
        let a = &scanned[sel.positions[k]];
        articles.push(
            ArticleText {
                id_readable: copy_text(&a.id_readable),
                summary: copy_text(&a.summary),
                content: None,
            },
        );
        k = k + 1;
    }
    ArticlePage { articles, selection: sel }
}

/// Searches a scanned window of users: the page of those not banned in
/// whose login, full name or email every word of `query` occurs,
/// case-insensitively. Banned accounts are never returned, not even for an
/// empty query. The page size defaults to [`DEFAULT_USER_PAGE`] and is kept
/// within `1..=USER_SCAN_LIMIT`.
pub fn search_users(
    scanned: &Vec<UserText>,
    query: &str,
    limit: Option<usize>,
    skip: Option<usize>,
) -> (sel: SearchSelection)
    ensures
        is_page_of(
            sel,
            Seq::new(scanned@.len(), |i: int| user_hit(scanned@[i], query@)),
            limit,
            skip,
            DEFAULT_USER_PAGE,
            USER_SCAN_LIMIT,
        ),
        forall|k: int|
            0 <= k < sel.positions@.len() ==> #[trigger] sel.positions@[k] < scanned@.len()
                && user_hit(scanned@[sel.positions@[k] as int], query@)
                && scanned@[sel.positions@[k] as int].banned != Some(true),
{
    let terms = terms_of(query);
    let ghost tv = terms@.map_values(|t: Vec<char>| t@);
    assert(tv =~= query_terms(query@));
    let ghost want = Seq::new(scanned@.len(), |i: int| user_hit(scanned@[i], query@));
    let mut hits: Vec<bool> = Vec::new();
    let n = scanned.len();
    let mut i: usize = 0;
    while i < n
        invariant
            i <= n,
            n == scanned@.len(),
            tv == terms@.map_values(|t: Vec<char>| t@),
            tv == query_terms(query@),
            want == Seq::new(scanned@.len(), |i: int| user_hit(scanned@[i], query@)),
            hits@ == want.take(i as int),
        decreases n - i,
    {
        let u = &scanned[i];
        let banned = match u.banned {
            Some(b) => b,
            None => false,
        };
        let hit = if banned {
            false
        } else {
            let mut text = spaced(&u.login, &u.full_name);
            text.append(" ");
            match &u.email {
                Some(e) => text.append(e.as_str()),
                None => {},
            }
            let hay = chars_of(to_lower(text.as_str()).as_str());
            contains_all(&hay, &terms)
        };
        hits.push(hit);
        assert(hits@ =~= want.take(i + 1));
        i = i + 1;
    }
    assert(hits@ =~= want);
    let sel = select_page(&hits, limit, skip, DEFAULT_USER_PAGE, USER_SCAN_LIMIT);
    proof {
        page_positions_are_hits(want, skip, page_size(limit, DEFAULT_USER_PAGE, USER_SCAN_LIMIT));
        assert forall|k: int| 0 <= k < sel.positions@.len() implies #[trigger] sel.positions@[k]
            < scanned@.len() && user_hit(scanned@[sel.positions@[k] as int], query@) by {
            let pp = page_positions(want, skip, page_size(limit, DEFAULT_USER_PAGE, USER_SCAN_LIMIT));
            assert(pp[k] == sel.positions@.map_values(|p: usize| p as int)[k]);
        }
    }
    sel
}

/// Every position on a page is a hit and lies in the scanned window.
pub proof fn page_positions_are_hits(hits: Seq<bool>, skip: Option<usize>, size: int)
    requires
        size >= 0,
    ensures
        forall|k: int|
            0 <= k < page_positions(hits, skip, size).len() ==> 0 <= #[trigger] page_positions(
                hits,
                skip,
                size,
            )[k] < hits.len() && hits[page_positions(hits, skip, size)[k]],
{
    lemma_hit_positions(hits);
    let all = hit_positions(hits);
    let a = page_start(skip, all.len() as int);
    assert forall|k: int| 0 <= k < page_positions(hits, skip, size).len() implies 0
        <= #[trigger] page_positions(hits, skip, size)[k] < hits.len() && hits[page_positions(
        hits,
        skip,
        size,
    )[k]] by {
        assert(page_positions(hits, skip, size)[k] == all[a + k]);
    }
}

} // verus!
