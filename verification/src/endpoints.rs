//! The server endpoints a client derives from its configured heartbeat URL.
use vstd::prelude::*;
use crate::text::{chars_of, last_index_of, rfind_char, string_of_range, trim_end_char, trim_end_matching};

verus! {

/// The heartbeat endpoint that a client talks to when none is configured.
pub fn default_heartbeat_url() -> (url: String)
    ensures
        url@ == "http://127.0.0.1:9847/heartbeat"@,
{
    String::from_str("http://127.0.0.1:9847/heartbeat")
}

/// The heartbeat URL without trailing slashes and without its last path
/// segment (the whole trimmed URL when it holds no slash).
pub open spec fn endpoint_base(heartbeat_url: Seq<char>) -> Seq<char> {
    let u = trim_end_char(heartbeat_url, '/');
    let k = last_index_of(u, '/');
    if k >= 0 {
        u.take(k)
    } else {
        u
    }
}

/// The URL of the server's sign-in endpoint for a given heartbeat URL.
pub open spec fn login_url_of(heartbeat_url: Seq<char>) -> Seq<char> {
    endpoint_base(heartbeat_url) + "/api/login"@
}

/// The URL of the server's sign-out endpoint for a given heartbeat URL.
pub open spec fn logout_url_of(heartbeat_url: Seq<char>) -> Seq<char> {
    endpoint_base(heartbeat_url) + "/api/logout"@
}

proof fn lemma_last_index_skips_tail(p: Seq<char>, q: Seq<char>, c: char)
    requires
        !q.contains(c),
    ensures
        last_index_of(p + q, c) == last_index_of(p, c),
    decreases q.len(),
{
    if q.len() > 0 {
        assert((p + q).last() == q.last());
        assert(q.last() != c) by {
            assert(q[q.len() - 1] == q.last());
        }
        assert((p + q).drop_last() =~= p + q.drop_last());
        assert(!q.drop_last().contains(c)) by {
            assert forall|i: int| 0 <= i < q.drop_last().len() implies q.drop_last()[i] != c by {
                assert(q.drop_last()[i] == q[i]);
            }
        }
        lemma_last_index_skips_tail(p, q.drop_last(), c);
    } else {
        assert(p + q =~= p);
    }
}

/// Slashes at the end of the heartbeat URL do not change the endpoints.
pub proof fn trailing_slash_is_ignored(heartbeat_url: Seq<char>)
    ensures
        endpoint_base(heartbeat_url.push('/')) == endpoint_base(heartbeat_url),
        login_url_of(heartbeat_url.push('/')) == login_url_of(heartbeat_url),
        logout_url_of(heartbeat_url.push('/')) == logout_url_of(heartbeat_url),
{
    assert(heartbeat_url.push('/').drop_last() =~= heartbeat_url);
}

/// For a heartbeat URL `base/segment` whose last segment holds no slash, the
/// endpoints are `base/api/login` and `base/api/logout`.
pub proof fn endpoints_replace_last_segment(base: Seq<char>, segment: Seq<char>)
    requires
        segment.len() > 0,
        !segment.contains('/'),
    ensures
        endpoint_base(base + seq!['/'] + segment) == base,
        login_url_of(base + seq!['/'] + segment) == base + "/api/login"@,
        logout_url_of(base + seq!['/'] + segment) == base + "/api/logout"@,
{
    let u = base + seq!['/'] + segment;
    assert(u.last() == segment.last());
    assert(segment.last() != '/') by {
        assert(segment[segment.len() - 1] == segment.last());
    }
    assert(trim_end_char(u, '/') == u);
    lemma_last_index_skips_tail(base + seq!['/'], segment, '/');
    assert((base + seq!['/']).last() == '/');
    assert((base + seq!['/']).len() == base.len() + 1);
    assert(last_index_of(base + seq!['/'], '/') == base.len());
    assert(u.take(base.len() as int) =~= base);
}

fn endpoint_base_text(heartbeat_url: &str) -> (r: String)
    ensures
        r@ == endpoint_base(heartbeat_url@),
{
    let v = chars_of(heartbeat_url);
    let hi = trim_end_matching(&v, '/');
    match rfind_char(&v, hi, '/') {
        Some(k) => {
            assert(v@.take(hi as int).take(k as int) =~= v@.subrange(0, k as int));
            string_of_range(&v, 0, k)
        },
        None => {
            assert(v@.take(hi as int) =~= v@.subrange(0, hi as int));
            string_of_range(&v, 0, hi)
        },
    }
}

/// The server's sign-in endpoint: the heartbeat URL with its last path
/// segment replaced by `api/login`.
pub fn server_login_url(heartbeat_url: &str) -> (url: String)
    ensures
        url@ == login_url_of(heartbeat_url@),
{
    let mut url = endpoint_base_text(heartbeat_url);
    url.append("/api/login");
    url
}

/// The server's sign-out endpoint: the heartbeat URL with its last path
/// segment replaced by `api/logout`.
pub fn server_logout_url(heartbeat_url: &str) -> (url: String)
    ensures
        url@ == logout_url_of(heartbeat_url@),
{
    let mut url = endpoint_base_text(heartbeat_url);
    url.append("/api/logout");
    url
}

} // verus!
