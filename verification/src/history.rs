//! Bounded histories: a queue that keeps only its most recent entries, and
//! the newest-first excerpt that dashboards show of it.
use vstd::prelude::*;
use std::collections::VecDeque;

verus! {

/// A value that can hand out an exact copy of itself.
pub trait Duplicate: Sized {
    fn duplicate(&self) -> (r: Self)
        ensures
            r == *self,
    ;
}

/// `s` after appending `x`, with the oldest entry dropped first when `s`
/// already holds `cap` entries or more.
pub open spec fn bounded_push<T>(s: Seq<T>, x: T, cap: nat) -> Seq<T> {
    if s.len() >= cap {
        s.drop_first().push(x)
    } else {
        s.push(x)
    }
}

/// The last `n` entries of `s` (all of them when it holds fewer), newest
/// first.
pub open spec fn newest_first<T>(s: Seq<T>, n: nat) -> Seq<T> {
    let k = if s.len() < n {
        s.len()
    } else {
        n
    };
    Seq::new(k, |i: int| s[s.len() - 1 - i])
}

/// Appends `x` to `q`, first dropping the oldest entry when `q` is full.
pub fn push_bounded<T>(q: &mut VecDeque<T>, x: T, cap: usize)
    requires
        cap > 0,
        old(q)@.len() <= cap,
    ensures
        final(q)@ == bounded_push(old(q)@, x, cap as nat),
        final(q)@.len() <= cap,
{
    if q.len() >= cap {
        let _ = q.pop_front();
    }
    q.push_back(x);
}

/// Copies of the last `n` entries of `q`, newest first.
pub fn newest_entries<T: Duplicate>(q: &VecDeque<T>, n: usize) -> (r: Vec<T>)
    ensures
        r@ == newest_first(q@, n as nat),
{
    let len = q.len();
    let k = if len < n {
        len
    } else {
        n
    };
    let mut r: Vec<T> = Vec::new();
    let mut i: usize = 0;
    while i < k
        invariant
            len == q@.len(),
            k <= len,
            k == (if len < n { len } else { n }),
            i <= k,
            r@.len() == i,
            forall|j: int| 0 <= j < i ==> r@[j] == q@[len - 1 - j],
        decreases k - i,
    {
        r.push(q[len - 1 - i].duplicate());
        i = i + 1;
    }
    assert(r@ =~= newest_first(q@, n as nat));
    r
}

} // verus!
