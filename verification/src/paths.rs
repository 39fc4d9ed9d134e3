//! The destination file name of a source path: its final component under
//! the platform's path rules — trailing separators and trailing `.`
//! segments are ignored, and a path whose last remaining component is
//! empty or `..` has no file name.

use vstd::prelude::*;
use vstd::string::StrSliceExecFns;

verus! {

/// `p` with every trailing `/`, and every trailing `.` segment, removed.
/// A `.` counts as a segment only when it stands alone: at the start of
/// the path or right after a `/`.
pub open spec fn strip_trailing_spec(p: Seq<char>) -> Seq<char>
    decreases p.len(),
{
    if p.len() == 0 {
        p
    } else if p.last() == '/' {
        strip_trailing_spec(p.drop_last())
    } else if p.last() == '.' && (p.len() == 1 || p[p.len() - 2] == '/') {
        strip_trailing_spec(p.drop_last())
    } else {
        p
    }
}

/// The longest suffix of `p` that contains no `/`.
pub open spec fn tail_component_spec(p: Seq<char>) -> Seq<char>
    decreases p.len(),
{
    if p.len() == 0 {
        p
    } else if p.last() == '/' {
        Seq::empty()
    } else {
        tail_component_spec(p.drop_last()).push(p.last())
    }
}

/// The component `..` names no file.
pub open spec fn is_dotdot(t: Seq<char>) -> bool {
    t.len() == 2 && t[0] == '.' && t[1] == '.'
}

/// The destination file name of the path `p`: its final component, with
/// trailing separators and trailing `.` segments ignored. `None` when no
/// component is left (an empty path, or separators and `.` segments only)
/// or the last one is `..`, neither of which can name a destination file.
pub open spec fn file_name_spec(p: Seq<char>) -> Option<Seq<char>> {
    let t = tail_component_spec(strip_trailing_spec(p));
    if t.len() == 0 || is_dotdot(t) {
        None
    } else {
        Some(t)
    }
}

/// The suffix of `p` from `k` on is its tail component when it contains no
/// separator and begins right after one (or at the start of `p`).
proof fn lemma_tail_component(p: Seq<char>, k: int)
    requires
        0 <= k <= p.len(),
        forall|j: int| k <= j < p.len() ==> p[j] != '/',
        k == 0 || p[k - 1] == '/',
    ensures
        tail_component_spec(p) == p.subrange(k, p.len() as int),
    decreases p.len(),
{
    if p.len() == 0 {
        assert(p.subrange(0, 0) =~= p);
    } else if p.last() == '/' {
        assert(k == p.len());
        assert(p.subrange(k, p.len() as int) =~= Seq::<char>::empty());
    } else {
        assert(k < p.len());
        lemma_tail_component(p.drop_last(), k);
        assert(tail_component_spec(p) =~= p.subrange(k, p.len() as int));
    }
}

/// Extracts the destination file name from a source path: the final
/// component, with trailing separators and trailing `.` segments ignored,
/// as the platform's own path rules have it. `None` when no component is
/// left or the final one is `..` — such a path cannot name an upload and
/// is refused.
pub fn file_name_of(path: &str) -> (r: Option<String>)
    ensures
        r is Some <==> file_name_spec(path@) is Some,
        r matches Some(s) ==> file_name_spec(path@) == Some(s@),
{
    let n: usize = path.unicode_len();
    proof {
        assert(path@.subrange(0, n as int) =~= path@);
    }
    let mut e: usize = n;
    while e > 0 && (path.get_char(e - 1) == '/'
        || (path.get_char(e - 1) == '.' && (e == 1 || path.get_char(e - 2) == '/')))
        invariant
            0 <= e <= n,
            n == path@.len(),
            strip_trailing_spec(path@.subrange(0, e as int)) == strip_trailing_spec(path@),
        decreases e,
    {
        proof {
            let q = path@.subrange(0, e as int);
            assert(q.len() == e as int);
            assert(q.last() == path@[e as int - 1]);
            if e >= 2 {
                assert(q[q.len() - 2] == path@[e as int - 2]);
            }
            assert(q.drop_last() =~= path@.subrange(0, e as int - 1));
            assert(strip_trailing_spec(q) == strip_trailing_spec(q.drop_last()));
        }
        e = e - 1;
    }
    proof {
        let q = path@.subrange(0, e as int);
        if e > 0 {
            assert(q.last() == path@[e as int - 1]);
            if e >= 2 {
                assert(q[q.len() - 2] == path@[e as int - 2]);
            }
        }
        assert(strip_trailing_spec(q) == q);
    }
    let mut k: usize = 0;
    let mut i: usize = 0;
    while i < e
        invariant
            0 <= k <= i <= e <= n,
            n == path@.len(),
            forall|j: int| k <= j < i ==> path@[j] != '/',
            k == 0 || path@[k - 1] == '/',
        decreases e - i,
    {
        if path.get_char(i) == '/' {
            k = i + 1;
        }
        i = i + 1;
    }
    proof {
        let q = path@.subrange(0, e as int);
        lemma_tail_component(q, k as int);
        assert(q.subrange(k as int, e as int) =~= path@.subrange(k as int, e as int));
    }
    if k == e {
        return None;
    }
    if e - k == 2 && path.get_char(k) == '.' && path.get_char(k + 1) == '.' {
        proof {
            let t = path@.subrange(k as int, e as int);
            assert(t[0] == path@[k as int] && t[1] == path@[k as int + 1]);
        }
        return None;
    }
    let name = String::from_str(path.substring_char(k, e));
    proof {
        let t = path@.subrange(k as int, e as int);
        assert(t.len() > 0);
        if t.len() == 2 {
            assert(t[0] == path@[k as int] && t[1] == path@[k as int + 1]);
        }
        assert(!is_dotdot(t));
    }
    Some(name)
}

} // verus!
