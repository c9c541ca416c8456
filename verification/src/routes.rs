//! HTTP router settings: the request body limit, the permissions policy
//! header and the cross-origin policy.
use vstd::prelude::*;
use crate::text::{chars_of, str_eq, to_owned_string};

verus! {

/// The `Permissions-Policy` header value set on every response.
pub const PERMISSIONS_POLICY: &'static str = "geolocation=(), microphone=(self), camera=()";

/// The largest request body accepted, in bytes, for a limit in MiB.
pub fn max_body_size(max_upload_size_mb: usize) -> (res: usize)
    requires
        max_upload_size_mb * 1024 * 1024 <= usize::MAX,
    ensures
        res == max_upload_size_mb * 1024 * 1024,
{
    max_upload_size_mb * 1024 * 1024
}

/// A byte of a header value: visible ASCII, a space, a tab, or any
/// non-ASCII byte (`http::HeaderValue::from_str`).
pub open spec fn header_value_char(c: char) -> bool {
    c == '\t' || (c >= ' ' && c != '\u{7f}')
}

/// Whether a string parses as an HTTP header value.
pub open spec fn valid_header_value(s: Seq<char>) -> bool {
    forall|i: int| 0 <= i < s.len() ==> header_value_char(#[trigger] s[i])
}

/// Whether `s` parses as an HTTP header value: every character is a tab,
/// or at least a space and not DEL (non-ASCII characters are made of
/// bytes above `0x7f`, which are allowed).
pub fn is_valid_header_value(s: &str) -> (r: bool)
    ensures
        r == valid_header_value(s@),
{
    let v = chars_of(s);
    let mut ok = true;
    let mut i: usize = 0;
    while i < v.len()
        invariant
            0 <= i <= v@.len(),
            v@ == s@,
            ok == (forall|j: int| 0 <= j < i ==> header_value_char(#[trigger] s@[j])),
        decreases v.len() - i,
    {
        let c = v[i];
        if !(c == '\t' || (c >= ' ' && c != '\u{7f}')) {
            ok = false;
        }
        i = i + 1;
    }
    ok
}

/// The origins allowed in addition in dev mode.
pub open spec fn dev_origins() -> Seq<Seq<char>> {
    seq![
        "http://localhost:3000"@,
        "http://localhost:3001"@,
        "http://127.0.0.1:3000"@,
        "http://127.0.0.1:3001"@,
    ]
}

/// The methods allowed for cross-origin requests.
pub fn cors_methods() -> (res: Vec<String>)
    ensures
        res@.len() == 6,
        res@[0]@ == "GET"@,
        res@[1]@ == "POST"@,
        res@[2]@ == "PUT"@,
        res@[3]@ == "DELETE"@,
        res@[4]@ == "PATCH"@,
        res@[5]@ == "OPTIONS"@,
{
    vec![
        to_owned_string("GET"),
        to_owned_string("POST"),
        to_owned_string("PUT"),
        to_owned_string("DELETE"),
        to_owned_string("PATCH"),
        to_owned_string("OPTIONS"),
    ]
}

/// The request headers allowed for cross-origin requests.
pub fn cors_headers() -> (res: Vec<String>)
    ensures
        res@.len() == 5,
        res@[0]@ == "authorization"@,
        res@[1]@ == "content-type"@,
        res@[2]@ == "accept"@,
        res@[3]@ == "origin"@,
        res@[4]@ == "cookie"@,
{
    vec![
        to_owned_string("authorization"),
        to_owned_string("content-type"),
        to_owned_string("accept"),
        to_owned_string("origin"),
        to_owned_string("cookie"),
    ]
}

/// How cross-origin requests are answered. The allowing policy allows
/// the methods of [`cors_methods`], the headers of [`cors_headers`] and
/// credentials.
#[derive(Debug, Clone, PartialEq, Eq)]
pub enum CorsPolicy {
    /// Allow the origin `null` only, which no browser page has.
    DenyAll,
    /// Allow these origins.
    Origins(Vec<String>),
}

/// The configured origins that are valid header values, in order.
pub open spec fn valid_origins(configured: Seq<Seq<char>>) -> Seq<Seq<char>>
    decreases configured.len(),
{
    if configured.len() == 0 {
        Seq::<Seq<char>>::empty()
    } else if valid_header_value(configured.last()) {
        valid_origins(configured.drop_last()).push(configured.last())
    } else {
        valid_origins(configured.drop_last())
    }
}

/// `origins` with each of `extra` appended that is not yet among them.
pub open spec fn with_missing(origins: Seq<Seq<char>>, extra: Seq<Seq<char>>) -> Seq<Seq<char>>
    decreases extra.len(),
{
    if extra.len() == 0 {
        origins
    } else {
        let prev = with_missing(origins, extra.drop_last());
        if prev.contains(extra.last()) {
            prev
        } else {
            prev.push(extra.last())
        }
    }
}

/// The allowed origins: the valid configured ones, and in dev mode the
/// local development origins not yet among them.
pub open spec fn allowed_origin_list(configured: Seq<Seq<char>>, dev_mode: bool) -> Seq<Seq<char>> {
    if dev_mode {
        with_missing(valid_origins(configured), dev_origins())
    } else {
        valid_origins(configured)
    }
}

pub open spec fn strings_view(v: Seq<String>) -> Seq<Seq<char>> {
    v.map_values(|s: String| s@)
}

/// The cross-origin policy for a configuration.
pub open spec fn cors_policy_spec(configured: Seq<Seq<char>>, dev_mode: bool, policy: CorsPolicy) -> bool {
    if allowed_origin_list(configured, dev_mode).len() == 0 {
        policy == CorsPolicy::DenyAll
    } else {
        policy matches CorsPolicy::Origins(list) && strings_view(list@) == allowed_origin_list(configured, dev_mode)
    }
}

fn contains_string(v: &Vec<String>, s: &str) -> (r: bool)
    ensures
        r == strings_view(v@).contains(s@),
{
    let mut i: usize = 0;
    while i < v.len()
        invariant
            0 <= i <= v@.len(),
            forall|j: int| 0 <= j < i ==> v@[j]@ != s@,
        decreases v.len() - i,
    {
        if str_eq(v[i].as_str(), s) {
            assert(strings_view(v@)[i as int] == s@);
            return true;
        }
        i = i + 1;
    }
    proof {
        if strings_view(v@).contains(s@) {
            let j = choose|j: int| 0 <= j < strings_view(v@).len() && strings_view(v@)[j] == s@;
            assert(v@[j]@ == s@);
        }
    }
    false
}

fn push_missing(origins: &mut Vec<String>, s: &str)
    ensures
        strings_view(old(origins)@).contains(s@) ==> strings_view(final(origins)@) == strings_view(old(origins)@),
        !strings_view(old(origins)@).contains(s@) ==> strings_view(final(origins)@) == strings_view(
            old(origins)@,
        ).push(s@),
{
    if !contains_string(origins, s) {
        origins.push(to_owned_string(s));
        assert(strings_view(origins@) == strings_view(old(origins)@).push(s@));
    }
}

/// The local development origins, each once.
proof fn lemma_dev_origins_alone()
    ensures
        with_missing(Seq::<Seq<char>>::empty(), dev_origins()) == dev_origins(),
{
    reveal_strlit("http://localhost:3000");
    reveal_strlit("http://localhost:3001");
    reveal_strlit("http://127.0.0.1:3000");
    reveal_strlit("http://127.0.0.1:3001");
    let d = dev_origins();
    let e = Seq::<Seq<char>>::empty();
    assert(d[0] != d[1]) by {
        assert(d[0][20] != d[1][20]);
    }
    assert(d[0] != d[2] && d[1] != d[2] && d[0] != d[3] && d[1] != d[3]) by {
        assert(d[0][7] != d[2][7]);
        assert(d[1][7] != d[2][7]);
        assert(d[0][7] != d[3][7]);
        assert(d[1][7] != d[3][7]);
    }
    assert(d[2] != d[3]) by {
        assert(d[2][20] != d[3][20]);
    }
    assert(d.take(0).len() == 0);
    assert(with_missing(e, d.take(0)) == e);
    assert(d.take(1).drop_last() == d.take(0));
    assert(with_missing(e, d.take(1)) =~= seq![d[0]]);
    assert(d.take(2).drop_last() == d.take(1));
    assert(!seq![d[0]].contains(d[1]));
    assert(with_missing(e, d.take(2)) =~= seq![d[0], d[1]]);
    assert(d.take(3).drop_last() == d.take(2));
    assert(!seq![d[0], d[1]].contains(d[2]));
    assert(with_missing(e, d.take(3)) =~= seq![d[0], d[1], d[2]]);
    assert(d.take(4).drop_last() == d.take(3));
    assert(!seq![d[0], d[1], d[2]].contains(d[3]));
    assert(d.take(4) == d);
    assert(with_missing(e, d) =~= d);
}

/// The cross-origin policy. The configured origins that are valid header
/// values are allowed, and in dev mode the local development origins too
/// (so with no configured origins, dev mode allows exactly the local
/// development origins); if none is left, all cross-origin requests are
/// denied.
pub fn build_cors_policy(allowed_origins: &Vec<String>, dev_mode: bool) -> (res: CorsPolicy)
    ensures
        cors_policy_spec(strings_view(allowed_origins@), dev_mode, res),
        allowed_origins@.len() == 0 && dev_mode ==> (res matches CorsPolicy::Origins(list) && strings_view(list@)
            == dev_origins()),
        allowed_origins@.len() == 0 && !dev_mode ==> res == CorsPolicy::DenyAll,
{
    let ghost configured = strings_view(allowed_origins@);
    proof {
        lemma_dev_origins_alone();
        if configured.len() == 0 {
            assert(valid_origins(configured) == Seq::<Seq<char>>::empty());
        }
    }
    let mut origins: Vec<String> = Vec::new();
    let mut i: usize = 0;
    while i < allowed_origins.len()
        invariant
            0 <= i <= allowed_origins@.len(),
            configured == strings_view(allowed_origins@),
            strings_view(origins@) == valid_origins(configured.take(i as int)),
        decreases allowed_origins.len() - i,
    {
        assert(configured.take(i + 1).drop_last() == configured.take(i as int));
        assert(configured.take(i + 1).last() == allowed_origins@[i as int]@);
        let o = allowed_origins[i].as_str();
        if is_valid_header_value(o) {
            origins.push(to_owned_string(o));
            assert(strings_view(origins@) == valid_origins(configured.take(i as int)).push(o@));
        }
        i = i + 1;
    }
    assert(configured.take(allowed_origins@.len() as int) == configured);
    if dev_mode {
        let ghost base = valid_origins(configured);
        assert(dev_origins().take(0).len() == 0);
        assert(with_missing(base, dev_origins().take(0)) == base);
        push_missing(&mut origins, "http://localhost:3000");
        assert(dev_origins().take(1).drop_last() == dev_origins().take(0));
        assert(dev_origins().take(1).last() == "http://localhost:3000"@);
        assert(strings_view(origins@) == with_missing(base, dev_origins().take(1)));
        push_missing(&mut origins, "http://localhost:3001");
        assert(dev_origins().take(2).drop_last() == dev_origins().take(1));
        assert(dev_origins().take(2).last() == "http://localhost:3001"@);
        assert(strings_view(origins@) == with_missing(base, dev_origins().take(2)));
        push_missing(&mut origins, "http://127.0.0.1:3000");
        assert(dev_origins().take(3).drop_last() == dev_origins().take(2));
        assert(dev_origins().take(3).last() == "http://127.0.0.1:3000"@);
        assert(strings_view(origins@) == with_missing(base, dev_origins().take(3)));
        push_missing(&mut origins, "http://127.0.0.1:3001");
        assert(dev_origins().take(4).drop_last() == dev_origins().take(3));
        assert(dev_origins().take(4).last() == "http://127.0.0.1:3001"@);
        assert(dev_origins().take(4) == dev_origins());
        assert(strings_view(origins@) == with_missing(base, dev_origins()));
    }
    if origins.len() == 0 {
        CorsPolicy::DenyAll
    } else {
        CorsPolicy::Origins(origins)
    }
}

proof fn lemma_valid_origins(configured: Seq<Seq<char>>)
    ensures
        forall|k: int|
            0 <= k < valid_origins(configured).len() ==> valid_header_value(#[trigger] valid_origins(configured)[k]),
    decreases configured.len(),
{
    if configured.len() > 0 {
        lemma_valid_origins(configured.drop_last());
        let prev = valid_origins(configured.drop_last());
        assert forall|k: int| 0 <= k < valid_origins(configured).len() implies valid_header_value(
            #[trigger] valid_origins(configured)[k],
        ) by {
            if k < prev.len() {
                assert(valid_origins(configured)[k] == prev[k]);
            }
        }
    }
}

proof fn lemma_with_missing(origins: Seq<Seq<char>>, extra: Seq<Seq<char>>)
    ensures
        forall|k: int|
            0 <= k < with_missing(origins, extra).len() ==> origins.contains(#[trigger] with_missing(origins, extra)[k])
                || extra.contains(with_missing(origins, extra)[k]),
    decreases extra.len(),
{
    if extra.len() > 0 {
        lemma_with_missing(origins, extra.drop_last());
        let prev = with_missing(origins, extra.drop_last());
        assert forall|k: int| 0 <= k < with_missing(origins, extra).len() implies origins.contains(
            #[trigger] with_missing(origins, extra)[k],
        ) || extra.contains(with_missing(origins, extra)[k]) by {
            if k < prev.len() {
                assert(with_missing(origins, extra)[k] == prev[k]);
                if extra.drop_last().contains(prev[k]) {
                    let j = choose|j: int| 0 <= j < extra.drop_last().len() && extra.drop_last()[j] == prev[k];
                    assert(extra[j] == prev[k]);
                }
            } else {
                assert(with_missing(origins, extra)[k] == extra.last());
                assert(extra[extra.len() - 1] == extra.last());
            }
        }
    }
}

/// Every origin a policy allows by name is a valid header value.
pub proof fn law_allowed_origins_are_header_values(configured: Seq<Seq<char>>, dev_mode: bool)
    ensures
        forall|k: int|
            0 <= k < allowed_origin_list(configured, dev_mode).len() ==> valid_header_value(
                #[trigger] allowed_origin_list(configured, dev_mode)[k],
            ),
{
    lemma_valid_origins(configured);
    if dev_mode {
        reveal_strlit("http://localhost:3000");
        reveal_strlit("http://localhost:3001");
        reveal_strlit("http://127.0.0.1:3000");
        reveal_strlit("http://127.0.0.1:3001");
        let base = valid_origins(configured);
        lemma_with_missing(base, dev_origins());
        assert forall|k: int| 0 <= k < dev_origins().len() implies valid_header_value(#[trigger] dev_origins()[k]) by {
        }
        assert forall|k: int| 0 <= k < allowed_origin_list(configured, dev_mode).len() implies valid_header_value(
            #[trigger] allowed_origin_list(configured, dev_mode)[k],
        ) by {
            let o = allowed_origin_list(configured, dev_mode)[k];
            if base.contains(o) {
                let j = choose|j: int| 0 <= j < base.len() && base[j] == o;
                assert(valid_header_value(base[j]));
            } else {
                let j = choose|j: int| 0 <= j < dev_origins().len() && dev_origins()[j] == o;
                assert(valid_header_value(dev_origins()[j]));
            }
        }
    }
}

} // verus!
