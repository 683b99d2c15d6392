//! What the client's local web page shows: HTML escaping of untrusted text
//! and the substitution of a block reason into the page template.
use vstd::prelude::*;
use crate::text::{chars_of, replace_text, replaced};

verus! {

/// The HTML text that stands for `c`: the five characters with a meaning in
/// markup become entities, every other character stands for itself.
pub open spec fn escape_char(c: char) -> Seq<char> {
    if c == '<' {
        "&lt;"@
    } else if c == '>' {
        "&gt;"@
    } else if c == '&' {
        "&amp;"@
    } else if c == '"' {
        "&quot;"@
    } else if c == '\'' {
        "&#x27;"@
    } else {
        seq![c]
    }
}

/// `s` with each character replaced by its HTML text.
pub open spec fn escaped(s: Seq<char>) -> Seq<char>
    decreases s.len(),
{
    if s.len() == 0 {
        Seq::empty()
    } else {
        escaped(s.drop_last()) + escape_char(s.last())
    }
}

/// Characters that would open a tag or end an attribute value.
pub open spec fn is_markup(c: char) -> bool {
    c == '<' || c == '>' || c == '"' || c == '\''
}

/// `s` made safe to place in HTML text or a quoted attribute.
pub fn escape_html(s: &str) -> (r: String)
    ensures
        r@ == escaped(s@),
{
    let v = chars_of(s);
    let mut out = String::new();
    for i in 0..v.len()
        invariant
            v@ == s@,
            out@ == escaped(v@.take(i as int)),
    {
        let c = v[i];
        assert(v@.take(i + 1).drop_last() =~= v@.take(i as int));
        if c == '<' {
            out.append("&lt;");
        } else if c == '>' {
            out.append("&gt;");
        } else if c == '&' {
            out.append("&amp;");
        } else if c == '"' {
            out.append("&quot;");
        } else if c == '\'' {
            out.append("&#x27;");
        } else {
            out.push(c);
        }
    }
    assert(v@.take(v.len() as int) =~= v@);
    out
}

/// Escaped text holds no character that could open a tag or close a quoted
/// attribute, whatever it was made from.
pub proof fn escaped_text_is_inert(s: Seq<char>)
    ensures
        forall|k: int| 0 <= k < escaped(s).len() ==> !is_markup(#[trigger] escaped(s)[k]),
    decreases s.len(),
{
    reveal_strlit("&lt;");
    reveal_strlit("&gt;");
    reveal_strlit("&amp;");
    reveal_strlit("&quot;");
    reveal_strlit("&#x27;");
    if s.len() > 0 {
        escaped_text_is_inert(s.drop_last());
        let a = escaped(s.drop_last());
        let b = escape_char(s.last());
        assert forall|k: int| 0 <= k < (a + b).len() implies !is_markup(#[trigger] (a + b)[k]) by {
            if k >= a.len() {
                assert((a + b)[k] == b[k - a.len()]);
            }
        }
    }
}

/// Escaping a concatenation escapes each part in turn.
pub proof fn escaped_concat(a: Seq<char>, b: Seq<char>)
    ensures
        escaped(a + b) == escaped(a) + escaped(b),
    decreases b.len(),
{
    if b.len() == 0 {
        assert(a + b =~= a);
        assert(escaped(a) + escaped(b) =~= escaped(a));
    } else {
        escaped_concat(a, b.drop_last());
        assert((a + b).drop_last() =~= a + b.drop_last());
        assert((a + b).last() == b.last());
        assert(escaped(a + b) =~= escaped(a) + escaped(b));
    }
}

proof fn escaped_front(c: char, t: Seq<char>)
    ensures
        escaped(seq![c] + t) == escape_char(c) + escaped(t),
{
    escaped_concat(seq![c], t);
    let one = seq![c];
    assert(one.drop_last() =~= Seq::<char>::empty());
    assert(one.last() == c);
    assert(escaped(one.drop_last()).len() == 0);
    assert(escaped(one) =~= escape_char(c));
}

proof fn reveal_entities()
    ensures
        "&lt;"@ =~= seq!['&', 'l', 't', ';'],
        "&gt;"@ =~= seq!['&', 'g', 't', ';'],
        "&amp;"@ =~= seq!['&', 'a', 'm', 'p', ';'],
        "&quot;"@ =~= seq!['&', 'q', 'u', 'o', 't', ';'],
        "&#x27;"@ =~= seq!['&', '#', 'x', '2', '7', ';'],
{
    reveal_strlit("&lt;");
    reveal_strlit("&gt;");
    reveal_strlit("&amp;");
    reveal_strlit("&quot;");
    reveal_strlit("&#x27;");
}

/// Escaping never shortens a text.
pub proof fn escaped_is_no_shorter(s: Seq<char>)
    ensures
        escaped(s).len() >= s.len(),
    decreases s.len(),
{
    reveal_entities();
    if s.len() > 0 {
        escaped_is_no_shorter(s.drop_last());
    }
}

/// Whether one of the five entities starts at index `k` of `t`.
pub open spec fn entity_at(t: Seq<char>, k: int) -> bool {
    ||| (k + 4 <= t.len() && (t.subrange(k, k + 4) == "&lt;"@ || t.subrange(k, k + 4) == "&gt;"@))
    ||| (k + 5 <= t.len() && t.subrange(k, k + 5) == "&amp;"@)
    ||| (k + 6 <= t.len() && (t.subrange(k, k + 6) == "&quot;"@ || t.subrange(k, k + 6)
        == "&#x27;"@))
}

/// Every `&` in escaped text starts one of the five entities.
pub proof fn escaped_ampersands_start_entities(s: Seq<char>)
    ensures
        forall|k: int|
            0 <= k < escaped(s).len() && #[trigger] escaped(s)[k] == '&' ==> entity_at(
                escaped(s),
                k,
            ),
    decreases s.len(),
{
    reveal_entities();
    if s.len() > 0 {
        escaped_ampersands_start_entities(s.drop_last());
        let p = escaped(s.drop_last());
        let e = escape_char(s.last());
        let t = p + e;
        assert(escaped(s) == t);
        assert forall|k: int| 0 <= k < t.len() && #[trigger] t[k] == '&' implies entity_at(t, k) by {
            if k < p.len() {
                assert(p[k] == '&');
                assert(entity_at(p, k));
                if k + 4 <= p.len() {
                    assert(t.subrange(k, k + 4) =~= p.subrange(k, k + 4));
                }
                if k + 5 <= p.len() {
                    assert(t.subrange(k, k + 5) =~= p.subrange(k, k + 5));
                }
                if k + 6 <= p.len() {
                    assert(t.subrange(k, k + 6) =~= p.subrange(k, k + 6));
                }
            } else {
                let j = k - p.len();
                assert(t[k] == e[j]);
                assert(j == 0);
                assert(t.subrange(k, k + e.len()) =~= e);
            }
        }
    }
}

proof fn escape_char_prefix_free(c: char, d: char, x: Seq<char>, y: Seq<char>)
    requires
        escape_char(c) + x == escape_char(d) + y,
    ensures
        c == d,
{
    reveal_entities();
    let u = escape_char(c) + x;
    let v = escape_char(d) + y;
    assert(u[0] == escape_char(c)[0]);
    assert(v[0] == escape_char(d)[0]);
    if escape_char(c).len() >= 2 && escape_char(d).len() >= 2 {
        assert(u[1] == escape_char(c)[1]);
        assert(v[1] == escape_char(d)[1]);
    }
}

/// Different texts escape differently: escaping loses nothing.
pub proof fn escaped_is_injective(a: Seq<char>, b: Seq<char>)
    requires
        escaped(a) == escaped(b),
    ensures
        a == b,
    decreases a.len(),
{
    escaped_is_no_shorter(a);
    escaped_is_no_shorter(b);
    if a.len() == 0 || b.len() == 0 {
        reveal_entities();
        if a.len() > 0 {
            escaped_front(a[0], a.drop_first());
            assert(a =~= seq![a[0]] + a.drop_first());
        }
        if b.len() > 0 {
            escaped_front(b[0], b.drop_first());
            assert(b =~= seq![b[0]] + b.drop_first());
        }
        assert(a =~= b);
    } else {
        assert(a =~= seq![a[0]] + a.drop_first());
        assert(b =~= seq![b[0]] + b.drop_first());
        escaped_front(a[0], a.drop_first());
        escaped_front(b[0], b.drop_first());
        escape_char_prefix_free(a[0], b[0], escaped(a.drop_first()), escaped(b.drop_first()));
        let n = escape_char(a[0]).len() as int;
        assert(escaped(a.drop_first()) =~= escaped(a).skip(n));
        assert(escaped(b.drop_first()) =~= escaped(b).skip(n));
        escaped_is_injective(a.drop_first(), b.drop_first());
    }
}

/// The page placeholder that the reason for a block replaces.
pub open spec fn detail_marker() -> Seq<char> {
    "__DETAIL__"@
}

/// The blocked page: `template` with every `__DETAIL__` replaced by the
/// escaped reason.
pub fn blocked_page(template: &str, reason: &str) -> (page: String)
    ensures
        page@ == replaced(template@, detail_marker(), escaped(reason@)),
{
    let detail = escape_html(reason);
    proof {
        reveal_strlit("__DETAIL__");
    }
    replace_text(template, "__DETAIL__", detail.as_str())
}

} // verus!
