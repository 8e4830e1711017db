//! Resolving a project shortName, case-insensitively, to the project id that
//! YouTrack expects when an issue or article is created in it.
use vstd::prelude::*;
use crate::attachment::WriteError;
use crate::text::{chars_of, join, joined, same_seq, to_upper, uppercase};

verus! {

broadcast use vstd::string::group_string_axioms;

/// What the project list says of one project.
#[derive(Debug)]
pub struct ProjectRef {
    pub id: Option<String>,
    pub short_name: Option<String>,
}

/// The project at `k` has a shortName whose uppercase form is `key`.
pub open spec fn names_key(p: ProjectRef, key: Seq<char>) -> bool {
    match p.short_name {
        Some(sn) => uppercase(sn@) == key,
        None => false,
    }
}

/// The first project at or after `k` whose shortName matches `key`.
pub open spec fn first_named_from(ps: Seq<ProjectRef>, key: Seq<char>, k: int) -> Option<int>
    decreases ps.len() - k,
{
    if k < 0 || k >= ps.len() {
        None
    } else if names_key(ps[k], key) {
        Some(k)
    } else {
        first_named_from(ps, key, k + 1)
    }
}

/// The shortNames present in the list, in order.
pub open spec fn short_names(ps: Seq<ProjectRef>) -> Seq<Seq<char>>
    decreases ps.len(),
{
    if ps.len() == 0 {
        Seq::empty()
    } else {
        let prev = short_names(ps.drop_last());
        match ps.last().short_name {
            Some(sn) => prev.push(sn@),
            None => prev,
        }
    }
}

/// What the project list offers, as the error message shows it.
pub open spec fn available_text(ps: Seq<ProjectRef>) -> Seq<char> {
    joined(short_names(ps), ", "@)
}

/// The id that `short_name` resolves to: the id of the first project whose
/// shortName equals it up to case, if that project has an id.
pub open spec fn resolved_id(ps: Seq<ProjectRef>, short_name: Seq<char>) -> Option<Seq<char>> {
    match first_named_from(ps, uppercase(short_name), 0) {
        Some(k) => match ps[k].id {
            Some(id) => Some(id@),
            None => None,
        },
        None => None,
    }
}

/// Where [`first_named_from`] stops: at a match with no match before it
/// from `k` on, or nowhere when nothing from `k` on matches.
proof fn lemma_first_named_from(ps: Seq<ProjectRef>, key: Seq<char>, k: int)
    requires
        0 <= k,
    ensures
        first_named_from(ps, key, k) matches Some(i) ==> k <= i < ps.len() && names_key(ps[i], key)
            && forall|j: int| k <= j < i ==> !names_key(#[trigger] ps[j], key),
        first_named_from(ps, key, k) is None ==> forall|j: int|
            k <= j < ps.len() ==> !names_key(#[trigger] ps[j], key),
    decreases ps.len() - k,
{
    if k < ps.len() && !names_key(ps[k], key) {
        lemma_first_named_from(ps, key, k + 1);
    }
}

/// A shortName resolves to the id of the first project whose shortName
/// equals it up to case (uppercase forms equal, not merely one a prefix of
/// the other): never to another project, to nothing when that first project
/// has no id, and to nothing when no shortName equals it.
pub proof fn lemma_resolution_is_the_first_equal_short_name(ps: Seq<ProjectRef>, name: Seq<char>)
    ensures
        forall|k: int|
            #![trigger ps[k]]
            0 <= k < ps.len() && (ps[k].short_name matches Some(sn) && uppercase(sn@) == uppercase(
                name,
            )) && (forall|j: int|
                0 <= j < k ==> !(#[trigger] ps[j].short_name matches Some(s) && uppercase(s@)
                    == uppercase(name))) ==> resolved_id(ps, name) == match ps[k].id {
                Some(id) => Some(id@),
                None => None::<Seq<char>>,
            },
        (forall|k: int|
            0 <= k < ps.len() ==> !(#[trigger] ps[k].short_name matches Some(sn) && uppercase(sn@)
                == uppercase(name))) ==> resolved_id(ps, name) is None,
{
    let key = uppercase(name);
    lemma_first_named_from(ps, key, 0);
    assert forall|k: int|
        #![trigger ps[k]]
        0 <= k < ps.len() && (ps[k].short_name matches Some(sn) && uppercase(sn@) == uppercase(
            name,
        )) && (forall|j: int|
            0 <= j < k ==> !(#[trigger] ps[j].short_name matches Some(s) && uppercase(s@)
                == uppercase(name))) implies resolved_id(ps, name) == match ps[k].id {
        Some(id) => Some(id@),
        None => None::<Seq<char>>,
    } by {
        assert(names_key(ps[k], key));
        match first_named_from(ps, key, 0) {
            Some(i) => {
                if i < k {
                    assert(names_key(ps[i], key));
                    assert(!(ps[i].short_name matches Some(s) && uppercase(s@) == uppercase(name)));
                }
                assert(i == k);
            },
            None => {
                assert(!names_key(ps[k], key));
            },
        }
    }
    if forall|k: int|
        0 <= k < ps.len() ==> !(#[trigger] ps[k].short_name matches Some(sn) && uppercase(sn@)
            == uppercase(name)) {
        if let Some(i) = first_named_from(ps, key, 0) {
            assert(names_key(ps[i], key));
            assert(!(ps[i].short_name matches Some(sn) && uppercase(sn@) == uppercase(name)));
        }
    }
}

/// Resolution ignores case: two spellings with the same uppercase form
/// resolve to the same project.
pub proof fn lemma_resolution_ignores_case(ps: Seq<ProjectRef>, a: Seq<char>, b: Seq<char>)
    requires
        uppercase(a) == uppercase(b),
    ensures
        resolved_id(ps, a) == resolved_id(ps, b),
{
}

/// Resolves a project shortName, case-insensitively, to its id. When no
/// project matches, the error names the shortName and lists the shortNames
/// that are available.
pub fn resolve_project_id(projects: &Vec<ProjectRef>, short_name: &str) -> (r: Result<
    String,
    WriteError,
>)
    ensures
        match resolved_id(projects@, short_name@) {
            Some(id) => r matches Ok(s) && s@ == id,
            None => r matches Err(WriteError::ProjectNotFound(name, available)) && name@
                == short_name@ && available@ == available_text(projects@),
        },
{
    let key = chars_of(to_upper(short_name).as_str());
    let n = projects.len();
    let mut i: usize = 0;
    while i < n
        invariant
            i <= n,
            n == projects@.len(),
            key@ == uppercase(short_name@),
            first_named_from(projects@, key@, 0) == first_named_from(projects@, key@, i as int),
        decreases n - i,
    {
        let p = &projects[i];
        let hit = match &p.short_name {
            Some(sn) => {
                let upper = chars_of(to_upper(sn.as_str()).as_str());
                same_seq(&upper, &key)
            },
            None => false,
        };
        if hit {
            return match &p.id {
                Some(id) => Ok(id.clone()),
                None => Err(not_found(projects, short_name)),
            };
        }
        i = i + 1;
    }
    Err(not_found(projects, short_name))
}

fn not_found(projects: &Vec<ProjectRef>, short_name: &str) -> (e: WriteError)
    ensures
        e matches WriteError::ProjectNotFound(name, available) && name@ == short_name@
            && available@ == available_text(projects@),
{
    let mut names: Vec<String> = Vec::new();
    let n = projects.len();
    let mut i: usize = 0;
    while i < n
        invariant
            i <= n,
            n == projects@.len(),
            names@.map_values(|s: String| s@) == short_names(projects@.take(i as int)),
        decreases n - i,
    {
        assert(projects@.take(i + 1).drop_last() == projects@.take(i as int));
        match &projects[i].short_name {
            Some(sn) => {
                names.push(sn.clone());
                assert(names@.map_values(|s: String| s@) =~= short_names(
                    projects@.take(i + 1),
                ));
            },
            None => {},
        }
        i = i + 1;
    }
    assert(projects@.take(n as int) == projects@);
    WriteError::ProjectNotFound(short_name.to_owned(), join(&names, ", "))
}


/// The shortName-to-id pairs that a cache entry list stands for: later
/// entries replace earlier ones with the same key.
pub open spec fn entries_map(es: Seq<(String, String)>) -> Map<Seq<char>, Seq<char>>
    decreases es.len(),
{
    if es.len() == 0 {
        Map::empty()
    } else {
        entries_map(es.drop_last()).insert(es.last().0@, es.last().1@)
    }
}

/// No two entries share a key.
pub open spec fn distinct_keys(es: Seq<(String, String)>) -> bool {
    forall|i: int, j: int| 0 <= i < j < es.len() ==> (#[trigger] es[i]).0@ != (#[trigger] es[j]).0@
}

/// With distinct keys, every entry is what the map holds under its key.
proof fn lemma_entries_lookup(es: Seq<(String, String)>, j: int)
    requires
        distinct_keys(es),
        0 <= j < es.len(),
    ensures
        entries_map(es).contains_key(es[j].0@),
        entries_map(es)[es[j].0@] == es[j].1@,
    decreases es.len(),
{
    if j < es.len() - 1 {
        let p = es.drop_last();
        assert forall|a: int, b: int| 0 <= a < b < p.len() implies (#[trigger] p[a]).0@ != (
        #[trigger] p[b]).0@ by {
            assert(p[a] == es[a] && p[b] == es[b]);
        }
        lemma_entries_lookup(p, j);
        assert(es[j] == p[j]);
        assert(es[j].0@ != es[es.len() - 1].0@);
    }
}

/// A key that no entry has is not in the map.
proof fn lemma_entries_absent(es: Seq<(String, String)>, k: Seq<char>)
    requires
        forall|j: int| 0 <= j < es.len() ==> (#[trigger] es[j]).0@ != k,
    ensures
        !entries_map(es).contains_key(k),
    decreases es.len(),
{
    if es.len() > 0 {
        let p = es.drop_last();
        assert forall|j: int| 0 <= j < p.len() implies (#[trigger] p[j]).0@ != k by {
            assert(p[j] == es[j]);
        }
        lemma_entries_absent(p, k);
        assert(es.last() == es[es.len() - 1]);
    }
}

/// Replacing the entry of a key keeps the keys distinct and sets that key
/// in the map.
proof fn lemma_entries_replace(es: Seq<(String, String)>, idx: int, e: (String, String))
    requires
        distinct_keys(es),
        0 <= idx < es.len(),
        es[idx].0@ == e.0@,
    ensures
        distinct_keys(es.update(idx, e)),
        entries_map(es.update(idx, e)) == entries_map(es).insert(e.0@, e.1@),
{
    let u = es.update(idx, e);
    assert forall|a: int, b: int| 0 <= a < b < u.len() implies (#[trigger] u[a]).0@ != (
    #[trigger] u[b]).0@ by {
        assert(u[a].0@ == es[a].0@ && u[b].0@ == es[b].0@);
        assert(es[a].0@ != es[b].0@);
    }
    let m1 = entries_map(u);
    let m2 = entries_map(es).insert(e.0@, e.1@);
    assert forall|k: Seq<char>| #[trigger] m1.contains_key(k) == m2.contains_key(k) && (
    m1.contains_key(k) ==> m1[k] == m2[k]) by {
        if exists|j: int| 0 <= j < es.len() && es[j].0@ == k {
            let j = choose|j: int| 0 <= j < es.len() && es[j].0@ == k;
            lemma_entries_lookup(u, j);
            lemma_entries_lookup(es, j);
            if j != idx {
                assert(es[j].0@ != es[idx].0@) by {
                    if j < idx {
                        assert(es[j].0@ != es[idx].0@);
                    } else {
                        assert(es[idx].0@ != es[j].0@);
                    }
                }
            }
        } else {
            assert forall|j: int| 0 <= j < u.len() implies (#[trigger] u[j]).0@ != k by {
                assert(u[j].0@ == es[j].0@);
            }
            assert forall|j: int| 0 <= j < es.len() implies (#[trigger] es[j]).0@ != k by {}
            lemma_entries_absent(u, k);
            lemma_entries_absent(es, k);
            assert(es[idx].0@ != k);
        }
    }
    assert(m1 =~= m2);
}

/// Adding an entry under a new key keeps the keys distinct and sets that key
/// in the map.
proof fn lemma_entries_add(es: Seq<(String, String)>, e: (String, String))
    requires
        distinct_keys(es),
        forall|j: int| 0 <= j < es.len() ==> (#[trigger] es[j]).0@ != e.0@,
    ensures
        distinct_keys(es.push(e)),
        entries_map(es.push(e)) == entries_map(es).insert(e.0@, e.1@),
{
    let u = es.push(e);
    assert forall|a: int, b: int| 0 <= a < b < u.len() implies (#[trigger] u[a]).0@ != (
    #[trigger] u[b]).0@ by {
        assert(u[a] == es[a]);
        if b < es.len() {
            assert(u[b] == es[b]);
        }
    }
    assert(u.drop_last() =~= es);
}

/// The cache after taking in a project list: every project that has both a
/// shortName and an id is entered under its uppercase shortName, later ones
/// replacing earlier ones.
pub open spec fn absorbed(m: Map<Seq<char>, Seq<char>>, ps: Seq<ProjectRef>) -> Map<
    Seq<char>,
    Seq<char>,
>
    decreases ps.len(),
{
    if ps.len() == 0 {
        m
    } else {
        let prev = absorbed(m, ps.drop_last());
        match (ps.last().id, ps.last().short_name) {
            (Some(id), Some(sn)) => prev.insert(uppercase(sn@), id@),
            _ => prev,
        }
    }
}

/// A cache of project ids by uppercase shortName, so that repeated writes to
/// one project do not list all projects each time. It holds one entry per
/// shortName.
pub struct ProjectIdCache {
    entries: Vec<(String, String)>,
}

impl ProjectIdCache {
    /// The ids known, by uppercase shortName.
    pub closed spec fn view(&self) -> Map<Seq<char>, Seq<char>> {
        entries_map(self.entries@)
    }

    /// Well-formed: no shortName has two entries.
    pub closed spec fn wf(&self) -> bool {
        distinct_keys(self.entries@)
    }

    /// An empty cache.
    pub fn new() -> (r: Self)
        ensures
            r.wf(),
            r.view() == Map::<Seq<char>, Seq<char>>::empty(),
    {
        ProjectIdCache { entries: Vec::new() }
    }

    /// Where the entry of `key` stands, if there is one.
    fn slot(&self, key: &Vec<char>) -> (r: Option<usize>)
        ensures
            match r {
                Some(i) => i < self.entries@.len() && self.entries@[i as int].0@ == key@,
                None => forall|j: int|
                    0 <= j < self.entries@.len() ==> (#[trigger] self.entries@[j]).0@ != key@,
            },
    {
        let n = self.entries.len();
        let mut i: usize = 0;
        while i < n
            invariant
                i <= n,
                n == self.entries@.len(),
                forall|j: int| 0 <= j < i ==> (#[trigger] self.entries@[j]).0@ != key@,
            decreases n - i,
        {
            if same_seq(&chars_of(self.entries[i].0.as_str()), key) {
                return Some(i);
            }
            i = i + 1;
        }
        None
    }

    /// The id cached under `key`.
    pub fn get(&self, key: &str) -> (r: Option<String>)
        ensures
            match r {
                Some(id) => self.view().contains_key(key@) && self.view()[key@] == id@,
                None => !self.view().contains_key(key@),
            },
    {
        let k = chars_of(key);
        let mut i: usize = self.entries.len();
        assert(self.entries@.take(i as int) == self.entries@);
        while i > 0
            invariant
                i <= self.entries@.len(),
                k@ == key@,
                entries_map(self.entries@).contains_key(key@) ==> (entries_map(
                    self.entries@.take(i as int),
                ).contains_key(key@) && entries_map(self.entries@.take(i as int))[key@]
                    == entries_map(self.entries@)[key@]),
                !entries_map(self.entries@).contains_key(key@) ==> !entries_map(
                    self.entries@.take(i as int),
                ).contains_key(key@),
                forall|j: int| i <= j < self.entries@.len() ==> #[trigger] self.entries@[j].0@ != key@,
            decreases i,
        {
            let ghost es = self.entries@;
            proof {
                lemma_entries_suffix(es, i as int, key@);
            }
            let e = &self.entries[i - 1];
            if same_seq(&chars_of(e.0.as_str()), &k) {
                proof {
                    assert(es.take(i as int).drop_last() == es.take(i - 1));
                }
                return Some(e.1.clone());
            }
            proof {
                assert(es.take(i as int).drop_last() == es.take(i - 1));
            }
            i = i - 1;
        }
        proof {
            assert(self.entries@.take(0) =~= Seq::<(String, String)>::empty());
        }
        None
    }

    /// Takes in a project list (see [`absorbed`]): a shortName already
    /// cached has its entry replaced, a new one gets an entry.
    pub fn absorb(&mut self, projects: &Vec<ProjectRef>)
        requires
            old(self).wf(),
        ensures
            final(self).wf(),
            final(self).view() == absorbed(old(self).view(), projects@),
    {
        let n = projects.len();
        let mut i: usize = 0;
        while i < n
            invariant
                i <= n,
                n == projects@.len(),
                self.wf(),
                self.view() == absorbed(old(self).view(), projects@.take(i as int)),
            decreases n - i,
        {
            let p = &projects[i];
            proof {
                assert(projects@.take(i + 1).drop_last() == projects@.take(i as int));
            }
            match (&p.id, &p.short_name) {
                (Some(id), Some(sn)) => {
                    let key = to_upper(sn.as_str());
                    let kv = chars_of(key.as_str());
                    let entry = (key, id.clone());
                    let ghost before = self.entries@;
                    match self.slot(&kv) {
                        Some(j) => {
                            proof {
                                lemma_entries_replace(before, j as int, entry);
                            }
                            self.entries.set(j, entry);
                        },
                        None => {
                            proof {
                                lemma_entries_add(before, entry);
                            }
                            self.entries.push(entry);
                        },
                    }
                },
                _ => {},
            }
            i = i + 1;
        }
        proof {
            assert(projects@.take(n as int) == projects@);
        }
    }
}

/// After a project list is taken into the cache, every project in it that
/// has a shortName and an id is cached under the uppercase shortName — with
/// the id of the last such project, when several share that key.
pub proof fn lemma_absorbed_projects_are_cached(
    m: Map<Seq<char>, Seq<char>>,
    ps: Seq<ProjectRef>,
    k: int,
)
    requires
        0 <= k < ps.len(),
        ps[k].id is Some,
        ps[k].short_name is Some,
        forall|j: int|
            k < j < ps.len() && (#[trigger] ps[j]).id is Some && ps[j].short_name is Some ==> uppercase(
                ps[j].short_name->0@,
            ) != uppercase(ps[k].short_name->0@),
    ensures
        absorbed(m, ps).contains_key(uppercase(ps[k].short_name->0@)),
        absorbed(m, ps)[uppercase(ps[k].short_name->0@)] == ps[k].id->0@,
    decreases ps.len(),
{
    let key = uppercase(ps[k].short_name->0@);
    if k < ps.len() - 1 {
        let prev = ps.drop_last();
        assert forall|j: int|
            k < j < prev.len() && (#[trigger] prev[j]).id is Some && prev[j].short_name is Some implies uppercase(
            prev[j].short_name->0@,
        ) != key by {
            assert(prev[j] == ps[j]);
        }
        lemma_absorbed_projects_are_cached(m, prev, k);
        let last = ps.last();
        assert(last == ps[ps.len() - 1]);
    }
}

/// Looking up a key from the end of the entry list finds the last entry with
/// that key; past the entries after `i` the answer is that of the first `i`.
proof fn lemma_entries_suffix(es: Seq<(String, String)>, i: int, key: Seq<char>)
    requires
        0 < i <= es.len(),
        forall|j: int| i <= j < es.len() ==> #[trigger] es[j].0@ != key,
    ensures
        es.take(i).drop_last() == es.take(i - 1),
        es.take(i).last() == es[i - 1],
{
    assert(es.take(i).drop_last() == es.take(i - 1));
}

/// Resolves a shortName through the cache after a project list was fetched:
/// the list is taken into the cache, then the uppercase shortName is looked
/// up; when it is missing the error lists the available shortNames.
pub fn resolve_with_cache(
    cache: &mut ProjectIdCache,
    projects: &Vec<ProjectRef>,
    short_name: &str,
) -> (r: Result<String, WriteError>)
    requires
        old(cache).wf(),
    ensures
        final(cache).wf(),
        final(cache).view() == absorbed(old(cache).view(), projects@),
        match final(cache).view().get(uppercase(short_name@)) {
            Some(id) => r matches Ok(s) && s@ == id,
            None => r matches Err(WriteError::ProjectNotFound(name, available)) && name@
                == short_name@ && available@ == available_text(projects@),
        },
{
    cache.absorb(projects);
    let key = to_upper(short_name);
    match cache.get(key.as_str()) {
        Some(id) => Ok(id),
        None => Err(not_found(projects, short_name)),
    }
}

} // verus!
