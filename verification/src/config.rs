//! The server's own configuration and its outer gate: the shared secret,
//! the list of accepted `Host` headers, the warning for a deployment that
//! would answer 403 to everyone, and the bearer check on every request.
use vstd::prelude::*;
use crate::text::{chars_of, lemma_trim_is_trimmed, slice, starts_with, trim, trim_bounds, trimmed};
use crate::attachment::string_from_chars;

verus! {

broadcast use vstd::string::group_string_axioms;

/// The shared secret of the outer gate must not be empty: an empty one would
/// be compared with an empty bearer and let anyone in. Whitespace alone counts
/// as empty. An accepted token is returned as it was given.
pub fn checked_mcp_token(token: String) -> (r: Result<String, String>)
    ensures
        trim(token@).len() == 0 ==> (r matches Err(e) && e@ == "MCP_TOKEN must not be empty"@),
        trim(token@).len() > 0 ==> r == Ok::<String, String>(token),
{
    let t = trimmed(token.as_str());
    if t.as_str().is_empty() {
        return Err("MCP_TOKEN must not be empty".to_owned());
    }
    Ok(token)
}

/// The pieces of `s` between commas (`str::split(',')`): always at least
/// one, possibly empty.
pub open spec fn comma_pieces(s: Seq<char>) -> Seq<Seq<char>>
    decreases s.len(),
{
    if s.len() == 0 {
        seq![Seq::empty()]
    } else {
        let prev = comma_pieces(s.drop_last());
        if s.last() == ',' {
            prev.push(Seq::empty())
        } else {
            prev.update(prev.len() - 1, prev.last().push(s.last()))
        }
    }
}

proof fn lemma_comma_pieces_len(s: Seq<char>)
    ensures
        comma_pieces(s).len() >= 1,
    decreases s.len(),
{
    if s.len() > 0 {
        lemma_comma_pieces_len(s.drop_last());
    }
}

/// The hosts named in `MCP_ALLOWED_HOSTS`: the comma-separated pieces,
/// trimmed, without the empty ones.
pub open spec fn host_list(s: Seq<char>) -> Seq<Seq<char>> {
    comma_pieces(s).map_values(|p: Seq<char>| trim(p)).filter(|h: Seq<char>| h.len() > 0)
}

/// Every host of the list is non-empty and already trimmed.
pub proof fn lemma_hosts_are_trimmed(s: Seq<char>)
    ensures
        forall|k: int|
            0 <= k < host_list(s).len() ==> (#[trigger] host_list(s)[k]).len() > 0 && trim(
                host_list(s)[k],
            ) == host_list(s)[k],
{
    let pieces = comma_pieces(s).map_values(|p: Seq<char>| trim(p));
    let keep = |h: Seq<char>| h.len() > 0;
    assert forall|k: int| 0 <= k < host_list(s).len() implies (#[trigger] host_list(s)[k]).len() > 0
        && trim(host_list(s)[k]) == host_list(s)[k] by {
        pieces.lemma_filter_pred(keep, k);
        let h = host_list(s)[k];
        assert(pieces.filter(keep).contains(h));
        pieces.lemma_filter_contains_rev(keep, h);
        let j = choose|j: int| 0 <= j < pieces.len() && pieces[j] == h;
        lemma_trim_is_trimmed(comma_pieces(s)[j]);
    }
}

/// Parses `MCP_ALLOWED_HOSTS`. An unset variable is `None`, and so is a value
/// that names no host: to the transport an empty list means "any host", so
/// an empty value falls back to the default list instead of lifting the
/// check.
pub fn allowed_hosts_from(raw: Option<String>) -> (r: Option<Vec<String>>)
    ensures
        match raw {
            None => r is None,
            Some(s) => if host_list(s@).len() == 0 {
                r is None
            } else {
                r matches Some(v) && v@.map_values(|h: String| h@) == host_list(s@)
            },
        },
{
    let s = match raw {
        Some(s) => s,
        None => return None,
    };
    let v = chars_of(s.as_str());
    let ghost pieces = comma_pieces(v@);
    let ghost f = |p: Seq<char>| trim(p);
    let ghost keep = |h: Seq<char>| h.len() > 0;
    let mut hosts: Vec<String> = Vec::new();
    let mut piece: Vec<char> = Vec::new();
    let n = v.len();
    let mut i: usize = 0;
    proof {
        lemma_comma_pieces_len(v@.take(0));
        assert(v@.take(0) =~= Seq::<char>::empty());
    }
    while i < n
        invariant
            i <= n,
            n == v@.len(),
            comma_pieces(v@.take(i as int)).len() >= 1,
            piece@ == comma_pieces(v@.take(i as int)).last(),
            hosts@.map_values(|h: String| h@) == comma_pieces(v@.take(i as int)).drop_last().map_values(
                f,
            ).filter(keep),
            f == (|p: Seq<char>| trim(p)),
            keep == (|h: Seq<char>| h.len() > 0),
        decreases n - i,
    {
        let c = v[i];
        let ghost before = v@.take(i as int);
        let ghost after = v@.take(i + 1);
        assert(after.drop_last() == before);
        proof {
            lemma_comma_pieces_len(after);
        }
        if c == ',' {
            let ghost done = comma_pieces(before);
            let (a, b) = trim_bounds(&piece);
            let t = string_from_chars(&slice(&piece, a, b));
            let ghost hv = hosts@.map_values(|h: String| h@);
            proof {
                assert(comma_pieces(after).drop_last() == done);
                let d = done.map_values(f);
                assert(d == done.drop_last().map_values(f).push(trim(done.last())));
                assert(d.drop_last() == done.drop_last().map_values(f));
                reveal_with_fuel(Seq::filter, 1);
            }
            if b > a {
                hosts.push(t);
            }
            piece = Vec::new();
            proof {
                assert(hosts@.map_values(|h: String| h@) =~= comma_pieces(after).drop_last().map_values(
                    f,
                ).filter(keep));
                assert(piece@ =~= comma_pieces(after).last());
            }
        } else {
            piece.push(c);
            proof {
                let prev = comma_pieces(before);
                assert(comma_pieces(after) == prev.update(prev.len() - 1, prev.last().push(c)));
                assert(comma_pieces(after).drop_last() =~= prev.drop_last());
            }
        }
        i = i + 1;
    }
    assert(v@.take(n as int) == v@);
    let (a, b) = trim_bounds(&piece);
    let ghost all = comma_pieces(v@);
    proof {
        let d = all.map_values(f);
        assert(d =~= all.drop_last().map_values(f).push(trim(all.last())));
        reveal_with_fuel(Seq::filter, 1);
        assert(d.drop_last() =~= all.drop_last().map_values(f));
    }
    if b > a {
        hosts.push(string_from_chars(&slice(&piece, a, b)));
    }
    proof {
        assert(hosts@.map_values(|h: String| h@) =~= all.map_values(f).filter(keep));
    }
    if hosts.len() == 0 {
        None
    } else {
        Some(hosts)
    }
}


/// The warning for the most common silent deployment error.
pub open spec fn unreachable_text(bind: Seq<char>) -> Seq<char> {
    "MCP_BIND="@ + bind
        + " listens beyond loopback but MCP_ALLOWED_HOSTS is unset: the transport accepts only Host: localhost, 127.0.0.1 or ::1 and answers 403 Forbidden to everything else. Set MCP_ALLOWED_HOSTS to the hostname clients actually use — it replaces that default entirely."@
}

/// Warns when the server listens beyond loopback while `MCP_ALLOWED_HOSTS`
/// is unset: the transport then accepts only loopback `Host` headers and
/// answers 403 to every request from outside. `bind_is_loopback` is whether
/// the bind address parses as a socket address on a loopback ip; an address
/// that does not parse counts as public.
pub fn unreachable_warning(
    bind: &str,
    bind_is_loopback: bool,
    allowed_hosts: Option<&Vec<String>>,
) -> (r: Option<String>)
    ensures
        allowed_hosts is Some || bind_is_loopback ==> r is None,
        allowed_hosts is None && !bind_is_loopback ==> (r matches Some(t) && t@ == unreachable_text(
            bind@,
        )),
{
    if allowed_hosts.is_some() || bind_is_loopback {
        return None;
    }
    let mut t = "MCP_BIND=".to_owned();
    t.append(bind);
    t.append(
        " listens beyond loopback but MCP_ALLOWED_HOSTS is unset: the transport accepts only Host: localhost, 127.0.0.1 or ::1 and answers 403 Forbidden to everything else. Set MCP_ALLOWED_HOSTS to the hostname clients actually use — it replaces that default entirely.",
    );
    Some(t)
}

/// An authorization header names one token only: two tokens give the same
/// header exactly when they are the same, so any other token — a prefix of
/// the right one included — is refused.
pub proof fn lemma_bearer_names_one_token(t: Seq<char>, expected: Seq<char>)
    ensures
        ("Bearer "@ + t == "Bearer "@ + expected) <==> t == expected,
{
    if "Bearer "@ + t == "Bearer "@ + expected {
        let n = "Bearer "@.len() as int;
        assert(t =~= ("Bearer "@ + t).subrange(n, n + t.len()));
        assert(expected =~= ("Bearer "@ + expected).subrange(n, n + expected.len()));
    }
}

/// Compares two byte strings in constant time (`subtle::ConstantTimeEq` on
/// slices): true exactly when they are equal. Slices of different lengths are
/// unequal; only their length is not hidden.
#[verifier::external_body]
fn constant_time_eq(a: &[u8], b: &[u8]) -> (r: bool)
    ensures
        r == (a@ == b@),
{
    subtle::ConstantTimeEq::ct_eq(a, b).into()
}

/// The outer gate: a request passes only with `Authorization: Bearer
/// <expected>`, exactly. The token is compared in constant time, so a wrong
/// guess does not reveal how much of it was right.
pub fn authorized(header: Option<&str>, expected: &str) -> (r: bool)
    ensures
        r == (header matches Some(h) && h@ == "Bearer "@ + expected@),
{
    proof {
        reveal_strlit("Bearer ");
    }
    let h = match header {
        Some(h) => h,
        None => return false,
    };
    let v = chars_of(h);
    if !starts_with(&v, "Bearer ") {
        assert(h@ != "Bearer "@ + expected@) by {
            if h@ == "Bearer "@ + expected@ {
                assert(h@.subrange(0, 7) =~= "Bearer "@);
            }
        }
        return false;
    }
    let got = h.substring_char(7, v.len());
    let r = constant_time_eq(got.as_bytes(), expected.as_bytes());
    proof {
        vstd::utf8::encode_utf8_decode_utf8(got@);
        vstd::utf8::encode_utf8_decode_utf8(expected@);
        assert(h@ =~= "Bearer "@ + got@);
        if h@ == "Bearer "@ + expected@ {
            assert(got@ =~= expected@);
        }
    }
    r
}

} // verus!
