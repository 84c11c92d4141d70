//! The deterministic order of a `tar.zst` blob: entries sorted by their path
//! relative to the archived directory, stored under that path with `/`
//! separators, with zeroed times and owners.

use vstd::prelude::*;
use crate::paths;
use crate::paths::path_strip_prefix;
use crate::text;
use crate::text::{chars_of, str_eq, string_of};

verus! {

/// `a` sorts before or with `b`, character by character, as `str` ordering does.
pub open spec fn lex_le(a: Seq<char>, b: Seq<char>) -> bool
    decreases a.len(),
{
    if a.len() == 0 {
        true
    } else if b.len() == 0 {
        false
    } else if a[0] != b[0] {
        a[0] < b[0]
    } else {
        lex_le(a.drop_first(), b.drop_first())
    }
}

/// Any two strings are ordered one way or the other.
pub proof fn lemma_lex_total(a: Seq<char>, b: Seq<char>)
    ensures
        lex_le(a, b) || lex_le(b, a),
    decreases a.len(),
{
    if a.len() > 0 && b.len() > 0 && a[0] == b[0] {
        lemma_lex_total(a.drop_first(), b.drop_first());
    }
}

/// The order is transitive.
pub proof fn lemma_lex_trans(a: Seq<char>, b: Seq<char>, c: Seq<char>)
    requires
        lex_le(a, b),
        lex_le(b, c),
    ensures
        lex_le(a, c),
    decreases a.len(),
{
    if a.len() > 0 && b.len() > 0 && c.len() > 0 && a[0] == b[0] && b[0] == c[0] {
        lemma_lex_trans(a.drop_first(), b.drop_first(), c.drop_first());
    }
}

/// Every string sorts with itself.
pub proof fn lemma_lex_refl(a: Seq<char>)
    ensures
        lex_le(a, a),
    decreases a.len(),
{
    if a.len() > 0 {
        lemma_lex_refl(a.drop_first());
    }
}

/// Two strings that sort each before the other are equal.
pub proof fn lemma_lex_antisym(a: Seq<char>, b: Seq<char>)
    requires
        lex_le(a, b),
        lex_le(b, a),
    ensures
        a == b,
    decreases a.len(),
{
    if a.len() > 0 && b.len() > 0 {
        lemma_lex_antisym(a.drop_first(), b.drop_first());
        assert(a =~= seq![a[0]] + a.drop_first());
        assert(b =~= seq![b[0]] + b.drop_first());
    } else if a.len() == 0 {
        assert(b.len() == 0);
        assert(a =~= b);
    }
}

/// Whether `a` sorts before or with `b`.
pub fn lex_le_exec(a: &Vec<char>, b: &Vec<char>) -> (r: bool)
    ensures
        r == lex_le(a@, b@),
{
    let mut i: usize = 0;
    assert(a@.subrange(0, a@.len() as int) =~= a@);
    assert(b@.subrange(0, b@.len() as int) =~= b@);
    while i < a.len() && i < b.len() && a[i] == b[i]
        invariant
            i <= a.len(),
            i <= b.len(),
            lex_le(a@, b@) == lex_le(a@.subrange(i as int, a@.len() as int), b@.subrange(i as int, b@.len() as int)),
        decreases a.len() - i,
    {
        proof {
            let sa = a@.subrange(i as int, a@.len() as int);
            let sb = b@.subrange(i as int, b@.len() as int);
            assert(sa.drop_first() =~= a@.subrange(i + 1, a@.len() as int));
            assert(sb.drop_first() =~= b@.subrange(i + 1, b@.len() as int));
        }
        i = i + 1;
    }
    let ghost sa = a@.subrange(i as int, a@.len() as int);
    let ghost sb = b@.subrange(i as int, b@.len() as int);
    if i == a.len() {
        assert(sa.len() == 0);
        true
    } else if i == b.len() {
        assert(sb.len() == 0);
        false
    } else {
        assert(sa[0] == a@[i as int] && sb[0] == b@[i as int]);
        a[i] < b[i]
    }
}

/// Walked entries ordered by their relative path.
pub open spec fn sorted_by_rel(s: Seq<(String, Vec<char>)>) -> bool {
    forall|i: int, j: int| 0 <= i < j < s.len() ==> lex_le(s[i].1@, s[j].1@)
}

pub(crate) fn sort_by_rel(entries: Vec<(String, Vec<char>)>) -> (r: Vec<(String, Vec<char>)>)
    ensures
        r@.to_multiset() == entries@.to_multiset(),
        sorted_by_rel(r@),
{
    broadcast use vstd::seq_lib::group_to_multiset_ensures, vstd::multiset::group_multiset_axioms;
    let mut rest = entries;
    let mut out: Vec<(String, Vec<char>)> = Vec::new();
    while rest.len() > 0
        invariant
            out@.to_multiset().add(rest@.to_multiset()) == entries@.to_multiset(),
            sorted_by_rel(out@),
        decreases rest.len(),
    {
        let ghost rest0 = rest@;
        let e = rest.remove(0);
        proof {
            vstd::seq_lib::to_multiset_remove(rest0, 0);
        }
        let mut j: usize = 0;
        while j < out.len() && lex_le_exec(&out[j].1, &e.1)
            invariant
                j <= out.len(),
                forall|k: int| 0 <= k < j ==> lex_le(out@[k].1@, e.1@),
            decreases out.len() - j,
        {
            j = j + 1;
        }
        let ghost out0 = out@;
        let ghost ev = e.1@;
        proof {
            if j < out0.len() {
                assert(!lex_le(out0[j as int].1@, ev));
                lemma_lex_total(out0[j as int].1@, ev);
            }
        }
        out.insert(j, e);
        proof {
            vstd::seq_lib::to_multiset_insert(out0, j as int, e);
            assert(rest0.to_multiset().count(e) > 0) by {
                assert(rest0[0] == e);
                assert(rest0.contains(e));
                vstd::seq_lib::to_multiset_contains(rest0, e);
            }
            assert(out@.to_multiset().add(rest@.to_multiset()) =~= out0.to_multiset().add(rest0.to_multiset()));
            assert forall|a: int, b: int| 0 <= a < b < out@.len() implies lex_le(out@[a].1@, out@[b].1@) by {
                if b < j {
                } else if a < j && b == j {
                } else if a < j {
                    assert(out@[b] == out0[b - 1]);
                    assert(lex_le(out0[a].1@, ev));
                    assert(lex_le(ev, out0[j as int].1@));
                    lemma_lex_trans(out0[a].1@, ev, out0[j as int].1@);
                    if b - 1 > j {
                        lemma_lex_trans(out0[a].1@, out0[j as int].1@, out0[b - 1].1@);
                    }
                } else if a == j {
                    assert(out@[b] == out0[b - 1]);
                    if b - 1 > j {
                        lemma_lex_trans(ev, out0[j as int].1@, out0[b - 1].1@);
                    }
                } else {
                    assert(out@[a] == out0[a - 1]);
                    assert(out@[b] == out0[b - 1]);
                }
            }
        }
    }
    proof {
        assert(rest@.to_multiset() =~= vstd::multiset::Multiset::<(String, Vec<char>)>::empty());
        assert(out@.to_multiset().add(vstd::multiset::Multiset::<(String, Vec<char>)>::empty()) =~= out@.to_multiset());
    }
    out
}

/// The relative path of a walked entry: stripped of the archived directory,
/// or the whole path when it is not below it.
pub open spec fn rel_of(src_dir: Seq<char>, p: Seq<char>) -> Seq<char> {
    match paths::strip_prefix(p, src_dir) {
        Some(r) => r,
        None => p,
    }
}

/// A relative path with every `\` written `/`.
pub open spec fn slashed(s: Seq<char>) -> Seq<char> {
    s.map_values(|c: char| if c == '\\' { '/' } else { c })
}

fn slashed_vec(s: &Vec<char>) -> (r: Vec<char>)
    ensures
        r@ == slashed(s@),
{
    let mut out: Vec<char> = Vec::new();
    let mut i: usize = 0;
    while i < s.len()
        invariant
            i <= s.len(),
            out@ == slashed(s@.take(i as int)),
        decreases s.len() - i,
    {
        let c = if s[i] == '\\' { '/' } else { s[i] };
        out.push(c);
        assert(slashed(s@.take(i as int + 1)) =~= slashed(s@.take(i as int)).push(c));
        i = i + 1;
    }
    assert(s@.take(s.len() as int) =~= s@);
    out
}

/// One archive entry: the path on disk and the name it is stored under.
#[derive(Debug)]
pub struct TarEntry {
    pub path: String,
    pub name: String,
}

/// The paths a walk yielded, other than the archived directory, in walk order.
pub open spec fn kept_paths(src_dir: Seq<char>, walked: Seq<String>) -> Seq<Seq<char>> {
    walked.map_values(|p: String| p@).filter(not_dir(src_dir))
}

/// Whether a path is other than the archived directory.
pub open spec fn not_dir(src_dir: Seq<char>) -> spec_fn(Seq<char>) -> bool {
    |p: Seq<char>| p != src_dir
}

/// The paths of walked pairs.
pub open spec fn pair_paths(pairs: Seq<(String, Vec<char>)>) -> Seq<Seq<char>> {
    pairs.map_values(|p: (String, Vec<char>)| p.0@)
}

/// The paths of archive entries, in order.
pub open spec fn entry_paths(r: Seq<TarEntry>) -> Seq<Seq<char>> {
    r.map_values(|e: TarEntry| e.path@)
}

/// The names of archive entries, in order.
pub open spec fn entry_names(r: Seq<TarEntry>) -> Seq<Seq<char>> {
    r.map_values(|e: TarEntry| e.name@)
}

/// The walked paths other than the archived directory, each with its relative path.
fn collect_pairs(src_dir: &str, walked: &Vec<String>) -> (pairs: Vec<(String, Vec<char>)>)
    ensures
        pair_paths(pairs@) == kept_paths(src_dir@, walked@),
        pairs_ok(src_dir@, walked@, pairs@),
{
    let ghost keep = not_dir(src_dir@);
    let mut pairs: Vec<(String, Vec<char>)> = Vec::new();
    let mut i: usize = 0;
    assert(pair_paths(pairs@) =~= kept_paths(src_dir@, walked@.take(0)));
    while i < walked.len()
        invariant
            i <= walked.len(),
            keep == not_dir(src_dir@),
            pair_paths(pairs@) == kept_paths(src_dir@, walked@.take(i as int)),
            forall|k: int| 0 <= k < pairs@.len() ==> (#[trigger] pairs@[k]).1@ == rel_of(src_dir@, pairs@[k].0@)
                && pairs@[k].0@ != src_dir@
                && walked@.map_values(|p: String| p@).contains(pairs@[k].0@),
            forall|j: int| 0 <= j < i && (#[trigger] walked@[j])@ != src_dir@
                ==> exists|k: int| 0 <= k < pairs@.len() && pairs@[k].0@ == walked@[j]@,
        decreases walked.len() - i,
    {
        let p = walked[i].as_str();
        proof {
            let vs = walked@.take(i as int).map_values(|q: String| q@);
            assert(walked@.take(i as int + 1).map_values(|q: String| q@) =~= vs.push(walked@[i as int]@));
            vs.lemma_filter_push(walked@[i as int]@, keep);
        }
        let ghost before = pairs@;
        if !str_eq(p, src_dir) {
            let rel = match path_strip_prefix(p, src_dir) {
                Some(r) => chars_of(r.as_str()),
                None => chars_of(p),
            };
            pairs.push((String::from_str(p), rel));
            proof {
                let last = before.len() as int;
                assert(pairs@[last].0@ == walked@[i as int]@);
                assert forall|j: int| 0 <= j < i + 1 && (#[trigger] walked@[j])@ != src_dir@
                    implies exists|k: int| 0 <= k < pairs@.len() && pairs@[k].0@ == walked@[j]@ by {
                    if j < i {
                        let k = choose|k: int| 0 <= k < before.len() && before[k].0@ == walked@[j]@;
                        assert(pairs@[k] == before[k]);
                    } else {
                        assert(pairs@[last].0@ == walked@[j]@);
                    }
                }
                assert forall|k: int| 0 <= k < pairs@.len() implies (#[trigger] pairs@[k]).1@ == rel_of(src_dir@, pairs@[k].0@)
                    && pairs@[k].0@ != src_dir@
                    && walked@.map_values(|p: String| p@).contains(pairs@[k].0@) by {
                    if k < last {
                        assert(pairs@[k] == before[k]);
                    } else {
                        assert(walked@[i as int]@ == pairs@[k].0@);
                        assert(walked@.map_values(|p: String| p@)[i as int] == walked@[i as int]@);
                    }
                }
            }
        }
        proof {
            if p@ != src_dir@ {
                assert(pair_paths(pairs@) =~= pair_paths(before).push(p@));
            }
        }
        i = i + 1;
    }
    assert(walked@.take(walked.len() as int) =~= walked@);
    pairs
}

#[verifier::spinoff_prover]
fn entries_of(sorted: &Vec<(String, Vec<char>)>) -> (out: Vec<TarEntry>)
    ensures
        out@.len() == sorted@.len(),
        forall|m: int| 0 <= m < out@.len() ==> #[trigger] out@[m].path@ == sorted@[m].0@ && out@[m].name@ == slashed(sorted@[m].1@),
{
    let mut out: Vec<TarEntry> = Vec::new();
    let mut k: usize = 0;
    while k < sorted.len()
        invariant
            k <= sorted@.len(),
            out@.len() == k,
            forall|m: int| 0 <= m < k ==> #[trigger] out@[m].path@ == sorted@[m].0@ && out@[m].name@ == slashed(sorted@[m].1@),
        decreases sorted.len() - k,
    {
        let name = slashed_vec(&sorted[k].1);
        out.push(TarEntry { path: String::from_str(sorted[k].0.as_str()), name: string_of(&name) });
        k = k + 1;
    }
    out
}

/// What the walked pairs say of the walk.
pub open spec fn pairs_ok(src_dir: Seq<char>, walked: Seq<String>, pairs: Seq<(String, Vec<char>)>) -> bool {
    &&& forall|k: int| 0 <= k < pairs.len() ==> (#[trigger] pairs[k]).1@ == rel_of(src_dir, pairs[k].0@)
        && pairs[k].0@ != src_dir
        && walked.map_values(|p: String| p@).contains(pairs[k].0@)
    &&& forall|j: int| 0 <= j < walked.len() && (#[trigger] walked[j])@ != src_dir
        ==> exists|k: int| 0 <= k < pairs.len() && pairs[k].0@ == walked[j]@
}

proof fn lemma_permuted_pairs(src_dir: Seq<char>, walked: Seq<String>, pairs: Seq<(String, Vec<char>)>, sorted: Seq<(String, Vec<char>)>)
    requires
        sorted.to_multiset() == pairs.to_multiset(),
        pairs_ok(src_dir, walked, pairs),
    ensures
        sorted.len() == pairs.len(),
        pairs_ok(src_dir, walked, sorted),
{
    assert forall|k: int| 0 <= k < sorted.len() implies (#[trigger] sorted[k]).1@ == rel_of(src_dir, sorted[k].0@)
        && sorted[k].0@ != src_dir && walked.map_values(|p: String| p@).contains(sorted[k].0@) by {
        vstd::seq_lib::to_multiset_contains(sorted, sorted[k]);
        vstd::seq_lib::to_multiset_contains(pairs, sorted[k]);
        assert(sorted.contains(sorted[k]));
        let w = choose|w: int| 0 <= w < pairs.len() && pairs[w] == sorted[k];
        assert(pairs[w].1@ == rel_of(src_dir, pairs[w].0@));
    }
    assert forall|j: int| 0 <= j < walked.len() && (#[trigger] walked[j])@ != src_dir
        implies exists|k: int| 0 <= k < sorted.len() && sorted[k].0@ == walked[j]@ by {
        let w = choose|w: int| 0 <= w < pairs.len() && pairs[w].0@ == walked[j]@;
        assert(pairs.contains(pairs[w]));
        vstd::seq_lib::to_multiset_contains(pairs, pairs[w]);
        vstd::seq_lib::to_multiset_contains(sorted, pairs[w]);
        let k = choose|k: int| 0 <= k < sorted.len() && sorted[k] == pairs[w];
        assert(sorted[k].0@ == walked[j]@);
    }
    vstd::seq_lib::to_multiset_len(sorted);
    vstd::seq_lib::to_multiset_len(pairs);
}

proof fn lemma_entries(src_dir: Seq<char>, walked: Seq<String>, sorted: Seq<(String, Vec<char>)>, out: Seq<TarEntry>)
    requires
        pairs_ok(src_dir, walked, sorted),
        sorted_by_rel(sorted),
        out.len() == sorted.len(),
        forall|m: int| 0 <= m < out.len() ==> #[trigger] out[m].path@ == sorted[m].0@ && out[m].name@ == slashed(sorted[m].1@),
    ensures
        forall|i: int, j: int| 0 <= i < j < out.len() ==> lex_le(rel_of(src_dir, out[i].path@), rel_of(src_dir, out[j].path@)),
        forall|i: int| 0 <= i < out.len() ==> #[trigger] out[i].name@ == slashed(rel_of(src_dir, out[i].path@)),
        forall|i: int| 0 <= i < out.len() ==> (#[trigger] out[i].path)@ != src_dir
            && walked.map_values(|p: String| p@).contains(out[i].path@),
        forall|j: int| 0 <= j < walked.len() && (#[trigger] walked[j])@ != src_dir
            ==> exists|i: int| 0 <= i < out.len() && out[i].path@ == walked[j]@,
{
    assert forall|j: int| 0 <= j < walked.len() && (#[trigger] walked[j])@ != src_dir
        implies exists|m: int| 0 <= m < out.len() && out[m].path@ == walked[j]@ by {
        let m = choose|m: int| 0 <= m < sorted.len() && sorted[m].0@ == walked[j]@;
        assert(out[m].path@ == sorted[m].0@);
    }
    assert forall|m: int| 0 <= m < out.len() implies (#[trigger] out[m].path)@ != src_dir
        && walked.map_values(|p: String| p@).contains(out[m].path@) by {
        assert(out[m].path@ == sorted[m].0@);
        let _ = sorted[m].1@;
    }
    assert forall|m: int| 0 <= m < out.len() implies #[trigger] out[m].name@ == slashed(rel_of(src_dir, out[m].path@)) by {
        assert(out[m].path@ == sorted[m].0@);
        let _ = sorted[m].1@;
    }
    assert forall|a: int, b: int| 0 <= a < b < out.len() implies lex_le(rel_of(src_dir, out[a].path@), rel_of(src_dir, out[b].path@)) by {
        assert(out[a].path@ == sorted[a].0@);
        assert(out[b].path@ == sorted[b].0@);
        let _ = sorted[a].1@;
        let _ = sorted[b].1@;
    }
}

/// The entries of a `tar.zst` of `src_dir`, from the paths a directory walk
/// yielded: the directory itself is left out, the rest are ordered by their
/// relative path and named by it with `/` separators.
pub fn tar_entries(src_dir: &str, walked: &Vec<String>) -> (r: Vec<TarEntry>)
    ensures
        entries_of_walk(src_dir@, walked@, r@),
        entry_paths(r@).to_multiset() == kept_paths(src_dir@, walked@).to_multiset(),
        forall|i: int, j: int| 0 <= i < j < r@.len() ==> lex_le(rel_of(src_dir@, r@[i].path@), rel_of(src_dir@, r@[j].path@)),
        forall|i: int| 0 <= i < r@.len() ==> #[trigger] r@[i].name@ == slashed(rel_of(src_dir@, r@[i].path@)),
        forall|i: int| 0 <= i < r@.len() ==> (#[trigger] r@[i].path)@ != src_dir@
            && walked@.map_values(|p: String| p@).contains(r@[i].path@),
        forall|j: int| 0 <= j < walked@.len() && (#[trigger] walked@[j])@ != src_dir@
            ==> exists|i: int| 0 <= i < r@.len() && r@[i].path@ == walked@[j]@,
{
    let pairs = collect_pairs(src_dir, walked);
    let ghost pairs0 = pairs@;
    let sorted = sort_by_rel(pairs);
    proof {
        lemma_permuted_pairs(src_dir@, walked@, pairs0, sorted@);
    }
    let out = entries_of(&sorted);
    proof {
        lemma_entries(src_dir@, walked@, sorted@, out@);
        lemma_map_multiset(sorted@, pairs0, |p: (String, Vec<char>)| p.0@);
        assert(entry_paths(out@) =~= pair_paths(sorted@));
    }
    out
}

/// Mapping two sequences with the same elements gives sequences with the
/// same elements.
pub(crate) proof fn lemma_map_multiset<A, B>(a: Seq<A>, b: Seq<A>, f: spec_fn(A) -> B)
    requires
        a.to_multiset() == b.to_multiset(),
    ensures
        a.map_values(f).to_multiset() == b.map_values(f).to_multiset(),
    decreases a.len(),
{
    broadcast use vstd::seq_lib::group_to_multiset_ensures, vstd::multiset::group_multiset_axioms;
    vstd::seq_lib::to_multiset_len(a);
    vstd::seq_lib::to_multiset_len(b);
    if a.len() == 0 {
        assert(b.len() == 0);
        assert(a.map_values(f) =~= b.map_values(f));
    } else {
        let x = a.last();
        vstd::seq_lib::to_multiset_contains(a, x);
        assert(a.contains(x)) by {
            assert(a[a.len() - 1] == x);
        }
        vstd::seq_lib::to_multiset_contains(b, x);
        let k = choose|k: int| 0 <= k < b.len() && b[k] == x;
        let b2 = b.remove(k);
        vstd::seq_lib::to_multiset_remove(b, k);
        assert(a.drop_last().push(x) =~= a);
        assert(a.drop_last().to_multiset() =~= b2.to_multiset());
        lemma_map_multiset(a.drop_last(), b2, f);
        assert(a.map_values(f) =~= a.drop_last().map_values(f).push(f(x)));
        assert(b2.map_values(f) =~= b.map_values(f).remove(k));
        vstd::seq_lib::to_multiset_remove(b.map_values(f), k);
        assert(b.map_values(f)[k] == f(x));
        assert(a.map_values(f).to_multiset() =~= b.map_values(f).to_multiset());
    }
}

/// Keeping the elements that satisfy a predicate, of two sequences with the
/// same elements, gives sequences with the same elements.
proof fn lemma_filter_multiset<A>(a: Seq<A>, b: Seq<A>, pred: spec_fn(A) -> bool)
    requires
        a.to_multiset() == b.to_multiset(),
    ensures
        a.filter(pred).to_multiset() == b.filter(pred).to_multiset(),
{
    lemma_filter_count(a, pred);
    lemma_filter_count(b, pred);
    assert(a.filter(pred).to_multiset() =~= b.filter(pred).to_multiset());
}

/// How often an element occurs after filtering.
proof fn lemma_filter_count<A>(a: Seq<A>, pred: spec_fn(A) -> bool)
    ensures
        forall|x: A| #[trigger] a.filter(pred).to_multiset().count(x)
            == (if pred(x) { a.to_multiset().count(x) } else { 0 }),
    decreases a.len(),
{
    broadcast use vstd::seq_lib::group_to_multiset_ensures, vstd::multiset::group_multiset_axioms;
    if a.len() == 0 {
        assert(a.filter(pred) =~= Seq::<A>::empty());
    } else {
        let d = a.drop_last();
        lemma_filter_count(d, pred);
        d.lemma_filter_push(a.last(), pred);
        assert(d.push(a.last()) =~= a);
    }
}

/// Entries are ordered by relative path, and paths with the same relative
/// path by the paths themselves: a total order on paths.
pub open spec fn entry_le(src_dir: Seq<char>) -> spec_fn(Seq<char>, Seq<char>) -> bool {
    |p: Seq<char>, q: Seq<char>|
        if rel_of(src_dir, p) == rel_of(src_dir, q) {
            lex_le(p, q)
        } else {
            lex_le(rel_of(src_dir, p), rel_of(src_dir, q))
        }
}

proof fn lemma_entry_le_total(src_dir: Seq<char>)
    ensures
        vstd::relations::total_ordering(entry_le(src_dir)),
{
    let le = entry_le(src_dir);
    assert forall|p: Seq<char>| #[trigger] le(p, p) by {
        lemma_lex_refl(p);
    }
    assert forall|p: Seq<char>, q: Seq<char>| #[trigger] le(p, q) && #[trigger] le(q, p) implies p == q by {
        if rel_of(src_dir, p) == rel_of(src_dir, q) {
            lemma_lex_antisym(p, q);
        } else {
            lemma_lex_antisym(rel_of(src_dir, p), rel_of(src_dir, q));
        }
    }
    assert forall|p: Seq<char>, q: Seq<char>, r: Seq<char>| #[trigger] le(p, q) && #[trigger] le(q, r) implies le(p, r) by {
        let (rp, rq, rr) = (rel_of(src_dir, p), rel_of(src_dir, q), rel_of(src_dir, r));
        if rp == rq && rq == rr {
            lemma_lex_trans(p, q, r);
        } else if rp == rq {
            assert(lex_le(rp, rr));
        } else if rq == rr {
            assert(lex_le(rp, rr));
        } else {
            lemma_lex_trans(rp, rq, rr);
            if rp == rr {
                lemma_lex_antisym(rp, rq);
            }
        }
    }
    assert forall|p: Seq<char>, q: Seq<char>| #[trigger] le(p, q) || #[trigger] le(q, p) by {
        lemma_lex_total(p, q);
        lemma_lex_total(rel_of(src_dir, p), rel_of(src_dir, q));
    }
}

/// What `tar_entries` promises of the entries of a walk.
pub open spec fn entries_of_walk(src_dir: Seq<char>, walked: Seq<String>, r: Seq<TarEntry>) -> bool {
    &&& entry_paths(r).to_multiset() == kept_paths(src_dir, walked).to_multiset()
    &&& forall|i: int, j: int| 0 <= i < j < r.len() ==> lex_le(rel_of(src_dir, r[i].path@), rel_of(src_dir, r[j].path@))
    &&& forall|i: int| 0 <= i < r.len() ==> #[trigger] r[i].name@ == slashed(rel_of(src_dir, r[i].path@))
}

/// The archive does not depend on the order of the walk: two walks that
/// yield the same paths, in any order, give the same entries, whenever
/// distinct walked paths have distinct relative paths.
pub proof fn law_tar_entries_deterministic(
    src_dir: Seq<char>,
    w1: Seq<String>,
    w2: Seq<String>,
    r1: Seq<TarEntry>,
    r2: Seq<TarEntry>,
)
    requires
        w1.map_values(|p: String| p@).to_multiset() == w2.map_values(|p: String| p@).to_multiset(),
        forall|p: Seq<char>, q: Seq<char>| kept_paths(src_dir, w1).contains(p) && kept_paths(src_dir, w1).contains(q)
            && rel_of(src_dir, p) == rel_of(src_dir, q) ==> p == q,
        entries_of_walk(src_dir, w1, r1),
        entries_of_walk(src_dir, w2, r2),
    ensures
        entry_paths(r1) == entry_paths(r2),
        entry_names(r1) == entry_names(r2),
{
    broadcast use vstd::seq_lib::group_to_multiset_ensures;
    let keep = not_dir(src_dir);
    lemma_filter_multiset(w1.map_values(|p: String| p@), w2.map_values(|p: String| p@), keep);
    let k1 = kept_paths(src_dir, w1);
    let p1 = entry_paths(r1);
    let p2 = entry_paths(r2);
    let le = entry_le(src_dir);
    lemma_entry_le_total(src_dir);
    assert forall|i: int| 0 <= i < p1.len() implies k1.contains(#[trigger] p1[i]) by {
        vstd::seq_lib::to_multiset_contains(p1, p1[i]);
        assert(p1.contains(p1[i]));
        vstd::seq_lib::to_multiset_contains(k1, p1[i]);
    }
    assert forall|i: int| 0 <= i < p2.len() implies k1.contains(#[trigger] p2[i]) by {
        vstd::seq_lib::to_multiset_contains(p2, p2[i]);
        assert(p2.contains(p2[i]));
        vstd::seq_lib::to_multiset_contains(k1, p2[i]);
    }
    assert(vstd::relations::sorted_by(p1, le)) by {
        assert forall|i: int, j: int| 0 <= i < j < p1.len() implies #[trigger] le(p1[i], p1[j]) by {
            assert(p1[i] == r1[i].path@ && p1[j] == r1[j].path@);
            assert(k1.contains(p1[i]) && k1.contains(p1[j]));
            if rel_of(src_dir, p1[i]) == rel_of(src_dir, p1[j]) {
                lemma_lex_refl(p1[i]);
            }
        }
    }
    assert(vstd::relations::sorted_by(p2, le)) by {
        assert forall|i: int, j: int| 0 <= i < j < p2.len() implies #[trigger] le(p2[i], p2[j]) by {
            assert(p2[i] == r2[i].path@ && p2[j] == r2[j].path@);
            assert(k1.contains(p2[i]) && k1.contains(p2[j]));
            if rel_of(src_dir, p2[i]) == rel_of(src_dir, p2[j]) {
                lemma_lex_refl(p2[i]);
            }
        }
    }
    vstd::seq_lib::lemma_sorted_unique(p1, p2, le);
    assert(entry_names(r1) =~= entry_names(r2)) by {
        assert forall|i: int| 0 <= i < r1.len() implies r1[i].name@ == r2[i].name@ by {
            assert(p1[i] == p2[i]);
        }
    }
}

/// The relative paths of archive entries, in order.
pub open spec fn entry_rels(src_dir: Seq<char>, r: Seq<TarEntry>) -> Seq<Seq<char>> {
    entry_paths(r).map_values(|p: Seq<char>| rel_of(src_dir, p))
}

/// The relative paths of the kept walked paths, in walk order.
pub open spec fn kept_rels(src_dir: Seq<char>, walked: Seq<String>) -> Seq<Seq<char>> {
    kept_paths(src_dir, walked).map_values(|p: Seq<char>| rel_of(src_dir, p))
}

/// The archive does not depend on where the tree lies: walks of two
/// directories that yield the same relative paths, in any order, give entries
/// with the same names and the same relative paths, in the same order.
pub proof fn law_tar_entries_location_independent(
    src1: Seq<char>,
    w1: Seq<String>,
    r1: Seq<TarEntry>,
    src2: Seq<char>,
    w2: Seq<String>,
    r2: Seq<TarEntry>,
)
    requires
        kept_rels(src1, w1).to_multiset() == kept_rels(src2, w2).to_multiset(),
        entries_of_walk(src1, w1, r1),
        entries_of_walk(src2, w2, r2),
    ensures
        entry_rels(src1, r1) == entry_rels(src2, r2),
        entry_names(r1) == entry_names(r2),
{
    let f1 = |p: Seq<char>| rel_of(src1, p);
    let f2 = |p: Seq<char>| rel_of(src2, p);
    lemma_map_multiset(entry_paths(r1), kept_paths(src1, w1), f1);
    lemma_map_multiset(entry_paths(r2), kept_paths(src2, w2), f2);
    let q1 = entry_rels(src1, r1);
    let q2 = entry_rels(src2, r2);
    assert(q1.to_multiset() == q2.to_multiset());
    let le = |a: Seq<char>, b: Seq<char>| lex_le(a, b);
    assert(vstd::relations::total_ordering(le)) by {
        assert forall|a: Seq<char>| #[trigger] le(a, a) by {
            lemma_lex_refl(a);
        }
        assert forall|a: Seq<char>, b: Seq<char>| #[trigger] le(a, b) && #[trigger] le(b, a) implies a == b by {
            lemma_lex_antisym(a, b);
        }
        assert forall|a: Seq<char>, b: Seq<char>, c: Seq<char>| #[trigger] le(a, b) && #[trigger] le(b, c) implies le(a, c) by {
            lemma_lex_trans(a, b, c);
        }
        assert forall|a: Seq<char>, b: Seq<char>| #[trigger] le(a, b) || #[trigger] le(b, a) by {
            lemma_lex_total(a, b);
        }
    }
    assert(vstd::relations::sorted_by(q1, le)) by {
        assert forall|i: int, j: int| 0 <= i < j < q1.len() implies #[trigger] le(q1[i], q1[j]) by {
            assert(q1[i] == rel_of(src1, r1[i].path@) && q1[j] == rel_of(src1, r1[j].path@));
        }
    }
    assert(vstd::relations::sorted_by(q2, le)) by {
        assert forall|i: int, j: int| 0 <= i < j < q2.len() implies #[trigger] le(q2[i], q2[j]) by {
            assert(q2[i] == rel_of(src2, r2[i].path@) && q2[j] == rel_of(src2, r2[j].path@));
        }
    }
    vstd::seq_lib::lemma_sorted_unique(q1, q2, le);
    assert(entry_names(r1) =~= entry_names(r2)) by {
        assert forall|i: int| 0 <= i < r1.len() implies r1[i].name@ == r2[i].name@ by {
            assert(q1[i] == rel_of(src1, r1[i].path@));
            assert(q2[i] == rel_of(src2, r2[i].path@));
        }
    }
}

/// The zstd compression level of archive blobs.
pub const TAR_ZSTD_LEVEL: i32 = 3;

/// What a walked path is on disk.
#[derive(Debug, Clone, Copy, PartialEq, Eq, Structural)]
pub enum EntryKind {
    Directory,
    Symlink,
    Regular,
    /// Anything else (a device, a socket): not archived.
    Other,
}

/// The header of one archive entry. Times and owners are always zero, so the
/// archive depends only on names, kinds, modes, sizes and contents.
#[derive(Debug, Clone, Copy, PartialEq, Eq, Structural)]
pub struct TarHeader {
    pub kind: EntryKind,
    pub mode: u32,
    pub size: u64,
    pub mtime: u64,
    pub uid: u64,
    pub gid: u64,
}

/// The header of an entry of the given kind, permission mode and file length;
/// `None` for what is not archived.
pub open spec fn tar_header_spec(kind: EntryKind, mode: u32, len: u64) -> Option<TarHeader> {
    match kind {
        EntryKind::Directory => Some(TarHeader { kind, mode, size: 0, mtime: 0, uid: 0, gid: 0 }),
        EntryKind::Symlink => Some(TarHeader { kind, mode, size: 0, mtime: 0, uid: 0, gid: 0 }),
        EntryKind::Regular => Some(TarHeader { kind, mode, size: len, mtime: 0, uid: 0, gid: 0 }),
        EntryKind::Other => None,
    }
}

/// The header of an archive entry: directories and symlinks have size 0,
/// regular files their length; times and owners are zero; the mode is the
/// entry's permission bits. Other kinds of entry are not archived.
pub fn tar_header(kind: EntryKind, mode: u32, len: u64) -> (r: Option<TarHeader>)
    ensures
        r == tar_header_spec(kind, mode, len),
{
    match kind {
        EntryKind::Directory => Some(TarHeader { kind, mode, size: 0, mtime: 0, uid: 0, gid: 0 }),
        EntryKind::Symlink => Some(TarHeader { kind, mode, size: 0, mtime: 0, uid: 0, gid: 0 }),
        EntryKind::Regular => Some(TarHeader { kind, mode, size: len, mtime: 0, uid: 0, gid: 0 }),
        EntryKind::Other => None,
    }
}

/// The archive records of a list of entries: each name with its header, the
/// header made from the entry's kind, mode and length as `attrs` gives them
/// for its path.
pub open spec fn archive_records(
    r: Seq<TarEntry>,
    attrs: spec_fn(Seq<char>) -> (EntryKind, u32, u64),
) -> Seq<(Seq<char>, Option<TarHeader>)> {
    r.map_values(|e: TarEntry| (e.name@, tar_header_spec(attrs(e.path@).0, attrs(e.path@).1, attrs(e.path@).2)))
}

/// The same tree in two places gives the same archive records: when two
/// walks yield the same relative paths, and paths with the same relative path
/// have the same kind, mode and length (whatever their times and owners),
/// the entries carry the same names and headers, in the same order.
pub proof fn law_same_tree_same_records(
    src1: Seq<char>,
    w1: Seq<String>,
    r1: Seq<TarEntry>,
    attrs1: spec_fn(Seq<char>) -> (EntryKind, u32, u64),
    src2: Seq<char>,
    w2: Seq<String>,
    r2: Seq<TarEntry>,
    attrs2: spec_fn(Seq<char>) -> (EntryKind, u32, u64),
)
    requires
        kept_rels(src1, w1).to_multiset() == kept_rels(src2, w2).to_multiset(),
        entries_of_walk(src1, w1, r1),
        entries_of_walk(src2, w2, r2),
        forall|p: Seq<char>, q: Seq<char>| rel_of(src1, p) == rel_of(src2, q) ==> #[trigger] attrs1(p) == #[trigger] attrs2(q),
    ensures
        archive_records(r1, attrs1) == archive_records(r2, attrs2),
{
    law_tar_entries_location_independent(src1, w1, r1, src2, w2, r2);
    let q1 = entry_rels(src1, r1);
    let q2 = entry_rels(src2, r2);
    assert(q1.len() == q2.len());
    assert forall|i: int| 0 <= i < r1.len() implies archive_records(r1, attrs1)[i] == archive_records(r2, attrs2)[i] by {
        assert(q1[i] == rel_of(src1, r1[i].path@));
        assert(q2[i] == rel_of(src2, r2[i].path@));
        assert(attrs1(r1[i].path@) == attrs2(r2[i].path@));
        assert(entry_names(r1)[i] == r1[i].name@);
        assert(entry_names(r2)[i] == r2[i].name@);
    }
    assert(archive_records(r1, attrs1) =~= archive_records(r2, attrs2));
}

} // verus!
