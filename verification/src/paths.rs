//! Paths as strings: joining, parents, file names and prefixes.
//!
//! A path is a `/`-separated string. These functions follow `std::path` on
//! paths without `.` or `..` components.

use vstd::prelude::*;
use crate::text::{chars_of, slice_vec, string_of};

verus! {

/// `base` joined with `rel`, as `Path::join` does on Unix: an absolute `rel`
/// replaces `base`; otherwise a `/` separates them unless `base` is empty or
/// already ends with one.
pub open spec fn join(base: Seq<char>, rel: Seq<char>) -> Seq<char> {
    if rel.len() > 0 && rel[0] == '/' {
        rel
    } else if base.len() == 0 || base.last() == '/' {
        base + rel
    } else {
        base + seq!['/'] + rel
    }
}

/// `join` over several components, left to right.
pub open spec fn join_all(base: Seq<char>, parts: Seq<Seq<char>>) -> Seq<char>
    decreases parts.len(),
{
    if parts.len() == 0 {
        base
    } else {
        join(join_all(base, parts.drop_last()), parts.last())
    }
}

fn push_vec(out: &mut Vec<char>, s: &Vec<char>)
    ensures
        final(out)@ == old(out)@ + s@,
{
    let mut i: usize = 0;
    while i < s.len()
        invariant
            i <= s.len(),
            out@ == old(out)@ + s@.take(i as int),
        decreases s.len() - i,
    {
        out.push(s[i]);
        i = i + 1;
        assert(out@ =~= old(out)@ + s@.take(i as int));
    }
    assert(s@.take(s.len() as int) =~= s@);
}

/// `base` joined with `rel`.
pub fn path_join(base: &str, rel: &str) -> (r: String)
    ensures
        r@ == join(base@, rel@),
{
    let b = chars_of(base);
    let rv = chars_of(rel);
    if rv.len() > 0 && rv[0] == '/' {
        return string_of(&rv);
    }
    let mut out = b;
    if !(out.len() == 0 || out[out.len() - 1] == '/') {
        out.push('/');
    }
    push_vec(&mut out, &rv);
    string_of(&out)
}

/// Length of `s` without its trailing slashes.
pub open spec fn trimmed_len(s: Seq<char>) -> int
    decreases s.len(),
{
    if s.len() > 0 && s.last() == '/' {
        trimmed_len(s.drop_last())
    } else {
        s.len() as int
    }
}

proof fn lemma_trimmed_len(s: Seq<char>)
    ensures
        0 <= trimmed_len(s) <= s.len(),
        forall|k: int| trimmed_len(s) <= k < s.len() ==> s[k] == '/',
        trimmed_len(s) == 0 || s[trimmed_len(s) - 1] != '/',
    decreases s.len(),
{
    if s.len() > 0 && s.last() == '/' {
        lemma_trimmed_len(s.drop_last());
        assert forall|k: int| trimmed_len(s) <= k < s.len() implies s[k] == '/' by {
            if k < s.len() - 1 {
                assert(s.drop_last()[k] == s[k]);
            }
        }
    }
}

/// Index of the last `/` in `s[..n]`, or `-1`.
pub open spec fn last_slash_before(s: Seq<char>, n: int) -> int
    decreases n,
{
    if n <= 0 {
        -1
    } else if s[n - 1] == '/' {
        n - 1
    } else {
        last_slash_before(s, n - 1)
    }
}

/// The last component of a path, as `Path::file_name` gives it (for paths
/// without `.` components): `None` for the root, the empty path and `..`.
pub open spec fn file_name(p: Seq<char>) -> Option<Seq<char>> {
    let n = trimmed_len(p);
    let i = last_slash_before(p, n);
    let name = p.subrange(i + 1, n);
    if n == 0 || name == ".."@ {
        None
    } else {
        Some(name)
    }
}

/// The parent of a path, as `Path::parent` gives it (for paths without `.`
/// components): `None` for the root and the empty path, `""` for a single
/// relative component.
pub open spec fn parent(p: Seq<char>) -> Option<Seq<char>> {
    let n = trimmed_len(p);
    if n == 0 {
        None
    } else {
        let i = last_slash_before(p, n);
        if i < 0 {
            Some(seq![])
        } else {
            let m = trimmed_len(p.subrange(0, i));
            if m == 0 {
                Some(seq!['/'])
            } else {
                Some(p.subrange(0, m))
            }
        }
    }
}

fn trimmed_len_exec(s: &Vec<char>, n: usize) -> (r: usize)
    requires
        n <= s.len(),
    ensures
        r == trimmed_len(s@.subrange(0, n as int)),
        r <= n,
{
    let mut m = n;
    while m > 0 && s[m - 1] == '/'
        invariant
            m <= n <= s.len(),
            trimmed_len(s@.subrange(0, n as int)) == trimmed_len(s@.subrange(0, m as int)),
        decreases m,
    {
        proof {
            assert(s@.subrange(0, m as int).drop_last() =~= s@.subrange(0, m - 1));
        }
        m = m - 1;
    }
    proof {
        lemma_trimmed_len(s@.subrange(0, m as int));
    }
    m
}

fn last_slash_exec(s: &Vec<char>, n: usize) -> (r: Option<usize>)
    requires
        n <= s.len(),
    ensures
        match r {
            Some(i) => i < n && last_slash_before(s@, n as int) == i,
            None => last_slash_before(s@, n as int) == -1,
        },
{
    let mut m = n;
    while m > 0
        invariant
            m <= n <= s.len(),
            last_slash_before(s@, n as int) == last_slash_before(s@, m as int),
        decreases m,
    {
        if s[m - 1] == '/' {
            return Some(m - 1);
        }
        m = m - 1;
    }
    None
}

proof fn lemma_last_slash_range(s: Seq<char>, n: int)
    ensures
        -1 <= last_slash_before(s, n) < (if n > 0 { n } else { 0 }),
    decreases n,
{
    if n > 0 && s[n - 1] != '/' {
        lemma_last_slash_range(s, n - 1);
    }
}

/// The last component of a path.
pub fn path_file_name(p: &str) -> (r: Option<String>)
    ensures
        match r {
            Some(n) => file_name(p@) == Some(n@),
            None => file_name(p@) is None,
        },
{
    let v = chars_of(p);
    let n = trimmed_len_exec(&v, v.len());
    assert(v@.subrange(0, v@.len() as int) =~= v@);
    if n == 0 {
        return None;
    }
    let start = match last_slash_exec(&v, n) {
        Some(i) => i + 1,
        None => 0,
    };
    let name = slice_vec(&v, start, n);
    let dd = chars_of("..");
    if crate::text::seq_eq(&name, &dd) {
        None
    } else {
        Some(string_of(&name))
    }
}

/// The parent of a path.
pub fn path_parent(p: &str) -> (r: Option<String>)
    ensures
        match r {
            Some(x) => parent(p@) == Some(x@),
            None => parent(p@) is None,
        },
{
    let v = chars_of(p);
    let n = trimmed_len_exec(&v, v.len());
    assert(v@.subrange(0, v@.len() as int) =~= v@);
    if n == 0 {
        return None;
    }
    match last_slash_exec(&v, n) {
        None => Some(String::new()),
        Some(i) => {
            let m = trimmed_len_exec(&v, i);
            if m == 0 {
                let mut r = String::new();
                r.push('/');
                Some(r)
            } else {
                let x = slice_vec(&v, 0, m);
                Some(string_of(&x))
            }
        },
    }
}

/// The parent of a path, or the path itself when it has none
/// (`path.parent().unwrap_or(path)`).
pub open spec fn parent_or_self(p: Seq<char>) -> Seq<char> {
    match parent(p) {
        Some(x) => x,
        None => p,
    }
}

/// The parent of a path, or the path itself when it has none.
pub fn path_parent_or_self(p: &str) -> (r: String)
    ensures
        r@ == parent_or_self(p@),
{
    match path_parent(p) {
        Some(x) => x,
        None => String::from_str(p),
    }
}

/// `path` relative to `base`, as `Path::strip_prefix` gives it (for paths
/// without `.` components, repeated `/` or a trailing `/` after a name): an
/// empty `base` leaves `path` as it is; otherwise `base` without trailing
/// slashes must be a prefix of `path` that ends at a `/` or at the end, and
/// the slashes after it are dropped.
pub open spec fn strip_prefix(path: Seq<char>, base: Seq<char>) -> Option<Seq<char>> {
    let b = base.subrange(0, trimmed_len(base));
    if base.len() == 0 {
        Some(path)
    } else if b.len() <= path.len() && path.subrange(0, b.len() as int) == b
        && (b.len() == path.len() || path[b.len() as int] == '/' || (b.len() > 0 && b.last() == '/')) {
        let rest = path.subrange(b.len() as int, path.len() as int);
        Some(rest.subrange(lead_slashes(rest), rest.len() as int))
    } else {
        None
    }
}

/// Number of leading slashes of `s`.
pub open spec fn lead_slashes(s: Seq<char>) -> int
    decreases s.len(),
{
    if s.len() > 0 && s[0] == '/' {
        1 + lead_slashes(s.drop_first())
    } else {
        0
    }
}

proof fn lemma_lead_slashes(s: Seq<char>, n: int)
    requires
        0 <= n <= s.len(),
        forall|k: int| 0 <= k < n ==> s[k] == '/',
        n == s.len() || s[n] != '/',
    ensures
        lead_slashes(s) == n,
    decreases n,
{
    if n > 0 {
        lemma_lead_slashes(s.drop_first(), n - 1);
    }
}

/// `path` relative to `base`, if `base` is a prefix of it.
pub fn path_strip_prefix(path: &str, base: &str) -> (r: Option<String>)
    ensures
        match r {
            Some(x) => strip_prefix(path@, base@) == Some(x@),
            None => strip_prefix(path@, base@) is None,
        },
{
    let pv = chars_of(path);
    let bv = chars_of(base);
    if bv.len() == 0 {
        return Some(string_of(&pv));
    }
    let bn = trimmed_len_exec(&bv, bv.len());
    assert(bv@.subrange(0, bv@.len() as int) =~= bv@);
    let b = slice_vec(&bv, 0, bn);
    if !(b.len() <= pv.len() && crate::text::matches_at(&pv, &b, 0)) {
        return None;
    }
    if !(b.len() == pv.len() || pv[b.len()] == '/' || (b.len() > 0 && b[b.len() - 1] == '/')) {
        return None;
    }
    let ghost rest = pv@.subrange(b@.len() as int, pv@.len() as int);
    let mut k = b.len();
    while k < pv.len() && pv[k] == '/'
        invariant
            b.len() <= k <= pv.len(),
            rest == pv@.subrange(b@.len() as int, pv@.len() as int),
            forall|j: int| b.len() <= j < k ==> pv@[j] == '/',
        decreases pv.len() - k,
    {
        k = k + 1;
    }
    proof {
        assert forall|j: int| 0 <= j < k - b.len() implies rest[j] == '/' by {
            assert(rest[j] == pv@[b.len() + j]);
        }
        if k < pv.len() {
            assert(rest[k - b.len()] == pv@[k as int]);
        }
        lemma_lead_slashes(rest, k - b.len());
        assert(rest.subrange(k - b.len(), rest.len() as int) =~= pv@.subrange(k as int, pv@.len() as int));
    }
    let x = slice_vec(&pv, k, pv.len());
    Some(string_of(&x))
}


/// Joining a relative path to a base and taking it relative to that base
/// again gives the relative path back.
pub proof fn law_strip_prefix_of_join(base: Seq<char>, rel: Seq<char>)
    requires
        rel.len() == 0 || rel[0] != '/',
    ensures
        strip_prefix(join(base, rel), base) == Some(rel),
{
    let p = join(base, rel);
    if base.len() > 0 {
        lemma_trimmed_len(base);
        let n = trimmed_len(base);
        let b = base.subrange(0, n);
        let sep: int = if base.last() == '/' { 0 } else { 1 };
        assert(p == base + (if sep == 1 { seq!['/'] } else { Seq::<char>::empty() }) + rel);
        assert(p.subrange(0, n) =~= b);
        let rest = p.subrange(n, p.len() as int);
        let k = base.len() - n + sep;
        assert forall|j: int| 0 <= j < k implies rest[j] == '/' by {
            assert(rest[j] == p[n + j]);
            if n + j < base.len() {
                assert(p[n + j] == base[n + j]);
            }
        }
        if k < rest.len() {
            assert(rest[k] == rel[0]);
        }
        lemma_lead_slashes(rest, k);
        assert(rest.subrange(k, rest.len() as int) =~= rel);
        if n < p.len() {
            assert(p[n] == '/') by {
                if n < base.len() {
                    assert(p[n] == base[n]);
                }
            }
        }
    }
}

/// `std::path::Path::exists`: whether something is on disk at `path` right now.
/// Nothing is stated of the answer, which depends on the file system.
#[verifier::external_body]
pub(crate) fn path_exists(path: &str) -> (r: bool)
{
    std::path::Path::new(path).exists()
}

} // verus!
