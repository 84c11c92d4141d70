//! Kernel configuration merging and version discovery.

use vstd::prelude::*;
use crate::paths;
use crate::paths::{path_join, path_parent};
use crate::store;
use crate::store::sha256_hex;
use crate::users;
use crate::users::u64_to_dec;
use crate::text;
use crate::text::{append_str, chars_of, lines_vec, slice_vec, str_eq, string_of, trim_vec, starts_with_vec};

verus! {

/// `ls` joined with newlines between the lines.
pub open spec fn join_lines(ls: Seq<Seq<char>>) -> Seq<char>
    decreases ls.len(),
{
    if ls.len() == 0 {
        seq![]
    } else if ls.len() == 1 {
        ls[0]
    } else {
        join_lines(ls.drop_last()) + seq!['\n'] + ls.last()
    }
}

/// A line without a newline, followed by one, is one line with its carriage
/// return stripped.
pub proof fn lemma_line_nl(l: Seq<char>)
    requires
        forall|k: int| 0 <= k < l.len() ==> l[k] != '\n',
    ensures
        text::lines_of(l + seq!['\n']) == seq![text::strip_cr(l)],
{
    let s = l + seq!['\n'];
    assert forall|k: int| 0 <= k < l.len() implies s[k] != '\n' by {
        assert(s[k] == l[k]);
    }
    text::lemma_lines_step(s, 0, l.len() as int);
    assert(s.subrange(0, s.len() as int) =~= s);
    assert(s.subrange(0, l.len() as int) =~= l);
    assert(s.subrange(l.len() as int + 1, s.len() as int) =~= Seq::<char>::empty());
    reveal(text::lines_of);
    assert(text::lines_of(Seq::<char>::empty()) =~= Seq::<Seq<char>>::empty());
    assert(seq![text::strip_cr(l)] + Seq::<Seq<char>>::empty() =~= seq![text::strip_cr(l)]);
}

/// Lines without newlines, joined and followed by a newline, split back into
/// the same lines with carriage returns at their ends stripped.
pub proof fn lemma_lines_of_joined(ls: Seq<Seq<char>>)
    requires
        ls.len() > 0,
        forall|i: int, k: int| 0 <= i < ls.len() && 0 <= k < ls[i].len() ==> ls[i][k] != '\n',
    ensures
        text::lines_of(join_lines(ls) + seq!['\n']) == Seq::new(ls.len(), |k: int| text::strip_cr(ls[k])),
    decreases ls.len(),
{
    if ls.len() == 1 {
        lemma_line_nl(ls[0]);
        assert(seq![text::strip_cr(ls[0])] =~= Seq::new(ls.len(), |k: int| text::strip_cr(ls[k])));
    } else {
        let dl = ls.drop_last();
        assert forall|i: int, k: int| 0 <= i < dl.len() && 0 <= k < dl[i].len() implies dl[i][k] != '\n' by {
            assert(dl[i] == ls[i]);
        }
        lemma_lines_of_joined(dl);
        let a = join_lines(dl) + seq!['\n'];
        assert(join_lines(ls) + seq!['\n'] =~= a + (ls.last() + seq!['\n']));
        text::lemma_lines_append(a, ls.last() + seq!['\n']);
        assert forall|k: int| 0 <= k < ls.last().len() implies ls.last()[k] != '\n' by {
            assert(ls.last() == ls[ls.len() - 1]);
        }
        lemma_line_nl(ls.last());
        assert(text::lines_of(join_lines(ls) + seq!['\n'])
            =~= Seq::new(ls.len(), |k: int| text::strip_cr(ls[k])));
    }
}

/// Index of the first `=` of `s`, or `-1`.
pub open spec fn first_eq(s: Seq<char>) -> int {
    if exists|i: int| 0 <= i < s.len() && s[i] == '=' && (forall|k: int| 0 <= k < i ==> s[k] != '=') {
        choose|i: int| 0 <= i < s.len() && s[i] == '=' && (forall|k: int| 0 <= k < i ==> s[k] != '=')
    } else {
        -1
    }
}

/// A config line that sets `key` or says that `key` is not set.
pub open spec fn mentions_key(l: Seq<char>, key: Seq<char>) -> bool {
    text::starts_with(l, key + seq!['=']) || text::starts_with(l, "# "@ + key + " is not set"@)
}

/// The lines of `ls` that neither set nor unset `key`.
pub open spec fn drop_key(ls: Seq<Seq<char>>, key: Seq<char>) -> Seq<Seq<char>>
    decreases ls.len(),
{
    if ls.len() == 0 {
        seq![]
    } else if mentions_key(ls.last(), key) {
        drop_key(ls.drop_last(), key)
    } else {
        drop_key(ls.drop_last(), key).push(ls.last())
    }
}

/// Apply one line of kconfig to a config: comments and blank lines do
/// nothing; `KEY=value` replaces every line about `KEY` and is appended.
pub open spec fn apply_kconfig_line(config: Seq<char>, line: Seq<char>) -> Seq<char> {
    let t = text::trim(line);
    if t.len() == 0 || t[0] == '#' {
        config
    } else {
        let e = first_eq(t);
        if 0 <= e < t.len() {
            let key = t.subrange(0, e);
            join_lines(drop_key(text::lines_of(config), key)) + seq!['\n'] + t
        } else {
            config
        }
    }
}

/// Apply the kconfig lines in order.
pub open spec fn apply_kconfig_lines(config: Seq<char>, ls: Seq<Seq<char>>) -> Seq<char>
    decreases ls.len(),
{
    if ls.len() == 0 {
        config
    } else {
        apply_kconfig_lines(apply_kconfig_line(config, ls[0]), ls.drop_first())
    }
}

fn push_all(out: &mut Vec<char>, s: &Vec<char>)
    ensures
        final(out)@ == old(out)@ + s@,
{
    let mut i: usize = 0;
    while i < s.len()
        invariant
            i <= s.len(),
            out@ == old(out)@ + s@.take(i as int),
        decreases s.len() - i,
    {
        out.push(s[i]);
        i = i + 1;
        assert(out@ =~= old(out)@ + s@.take(i as int));
    }
    assert(s@.take(s.len() as int) =~= s@);
}

/// Join lines with newlines between them.
pub fn join_lines_vec(ls: &Vec<Vec<char>>) -> (r: Vec<char>)
    ensures
        r@ == join_lines(ls@.map_values(|l: Vec<char>| l@)),
{
    let ghost vs = ls@.map_values(|l: Vec<char>| l@);
    let mut out: Vec<char> = Vec::new();
    let mut i: usize = 0;
    while i < ls.len()
        invariant
            i <= ls.len(),
            vs == ls@.map_values(|l: Vec<char>| l@),
            out@ == join_lines(vs.take(i as int)),
        decreases ls.len() - i,
    {
        proof {
            assert(vs.take(i + 1).drop_last() =~= vs.take(i as int));
            assert(vs.take(i + 1).last() == ls@[i as int]@);
        }
        if i > 0 {
            out.push('\n');
        }
        push_all(&mut out, &ls[i]);
        i = i + 1;
        proof {
            if i == 1 {
                assert(vs.take(1) =~= seq![ls@[0]@]);
            }
        }
    }
    assert(vs.take(ls.len() as int) =~= vs);
    out
}

/// Whether a line sets or unsets `key`.
fn mentions_key_vec(l: &Vec<char>, key: &Vec<char>) -> (r: bool)
    ensures
        r == mentions_key(l@, key@),
{
    let mut p1 = slice_vec(key, 0, key.len());
    p1.push('=');
    assert(p1@ =~= key@ + seq!['=']);
    let mut p2 = chars_of("# ");
    push_all(&mut p2, key);
    let tail = chars_of(" is not set");
    push_all(&mut p2, &tail);
    starts_with_vec(l, &p1) || starts_with_vec(l, &p2)
}

/// The lines that neither set nor unset `key`, in order.
fn drop_key_vec(ls: &Vec<Vec<char>>, key: &Vec<char>) -> (r: Vec<Vec<char>>)
    ensures
        r@.map_values(|l: Vec<char>| l@) == drop_key(ls@.map_values(|l: Vec<char>| l@), key@),
{
    let ghost vs = ls@.map_values(|l: Vec<char>| l@);
    let mut out: Vec<Vec<char>> = Vec::new();
    let mut i: usize = 0;
    while i < ls.len()
        invariant
            i <= ls.len(),
            vs == ls@.map_values(|l: Vec<char>| l@),
            out@.map_values(|l: Vec<char>| l@) == drop_key(vs.take(i as int), key@),
        decreases ls.len() - i,
    {
        proof {
            assert(vs.take(i + 1).drop_last() =~= vs.take(i as int));
            assert(vs.take(i + 1).last() == ls@[i as int]@);
        }
        if !mentions_key_vec(&ls[i], key) {
            let ghost before = out@.map_values(|l: Vec<char>| l@);
            out.push(slice_vec(&ls[i], 0, ls[i].len()));
            proof {
                assert(ls@[i as int]@.subrange(0, ls@[i as int]@.len() as int) =~= ls@[i as int]@);
                assert(out@.map_values(|l: Vec<char>| l@) =~= before.push(ls@[i as int]@));
            }
        }
        i = i + 1;
    }
    assert(vs.take(ls.len() as int) =~= vs);
    out
}

/// Index of the first `=` in `t`, if any.
fn find_eq(t: &Vec<char>) -> (r: Option<usize>)
    ensures
        match r {
            Some(e) => e < t.len() && first_eq(t@) == e,
            None => first_eq(t@) == -1,
        },
{
    let mut i: usize = 0;
    while i < t.len()
        invariant
            i <= t.len(),
            forall|k: int| 0 <= k < i ==> t@[k] != '=',
        decreases t.len() - i,
    {
        if t[i] == '=' {
            proof {
                let j = first_eq(t@);
                assert(0 <= j < t@.len() && t@[j] == '=' && (forall|k: int| 0 <= k < j ==> t@[k] != '='));
                if j < i {
                    assert(t@[j] != '=');
                } else if i < j {
                    assert(t@[i as int] != '=');
                }
            }
            return Some(i);
        }
        i = i + 1;
    }
    None
}

/// Apply one kconfig line to the config.
fn apply_line_vec(config: &Vec<char>, line: &Vec<char>) -> (r: Vec<char>)
    ensures
        r@ == apply_kconfig_line(config@, line@),
{
    let t = trim_vec(line);
    if t.len() == 0 || t[0] == '#' {
        return slice_vec(config, 0, config.len());
    }
    match find_eq(&t) {
        Some(e) => {
            let key = slice_vec(&t, 0, e);
            let ls = lines_vec(config);
            proof {
                assert(ls@.map_values(|l: Vec<char>| l@) =~= text::lines_of(config@));
            }
            let kept = drop_key_vec(&ls, &key);
            let mut out = join_lines_vec(&kept);
            out.push('\n');
            push_all(&mut out, &t);
            out
        },
        None => slice_vec(config, 0, config.len()),
    }
}

/// Merge kconfig options into the contents of an existing `.config`.
///
/// Each `KEY=value` line of `kconfig` (trimmed; blank lines and `#` comments
/// skipped) removes the lines of the config that set `KEY` or say it is not
/// set, and is appended at the end.
pub fn apply_kernel_config(config: &str, kconfig: &str) -> (r: String)
    ensures
        r@ == apply_kconfig_lines(config@, text::lines_of(kconfig@)),
{
    let kv = chars_of(kconfig);
    let klines = lines_vec(&kv);
    let ghost kl = text::lines_of(kconfig@);
    let mut cur = chars_of(config);
    let mut i: usize = 0;
    assert(kl.skip(0) =~= kl);
    while i < klines.len()
        invariant
            i <= klines.len(),
            kl == text::lines_of(kconfig@),
            klines@.len() == kl.len(),
            forall|k: int| 0 <= k < klines@.len() ==> #[trigger] klines@[k]@ == kl[k],
            apply_kconfig_lines(config@, kl) == apply_kconfig_lines(cur@, kl.skip(i as int)),
        decreases klines.len() - i,
    {
        proof {
            assert(kl.skip(i as int)[0] == klines@[i as int]@);
            assert(kl.skip(i as int).drop_first() =~= kl.skip(i + 1));
        }
        cur = apply_line_vec(&cur, &klines[i]);
        i = i + 1;
    }
    assert(kl.skip(i as int) =~= Seq::<Seq<char>>::empty());
    string_of(&cur)
}

/// A trimmed kconfig line that sets an option: not a comment, with a `=`.
pub open spec fn is_assignment(t: Seq<char>) -> bool {
    t.len() > 0 && t[0] != '#' && 0 <= first_eq(t) < t.len()
}

/// The option a kconfig assignment sets: what comes before its first `=`.
pub open spec fn assigned_key(t: Seq<char>) -> Seq<char> {
    t.subrange(0, first_eq(t))
}

/// The key of an assignment has no `=`, and the assignment does not mention
/// any other key.
proof fn lemma_assignment_mentions(u: Seq<char>, key: Seq<char>)
    requires
        is_assignment(u),
        mentions_key(u, key),
        forall|k: int| 0 <= k < key.len() ==> key[k] != '=',
    ensures
        key == assigned_key(u),
{
    let e = first_eq(u);
    assert(0 <= e < u.len() && u[e] == '=' && (forall|k: int| 0 <= k < e ==> u[k] != '='));
    if text::starts_with(u, "# "@ + key + " is not set"@) {
        reveal_strlit("# ");
        assert(u[0] == ("# "@ + key + " is not set"@)[0]);
    } else {
        let p = key + seq!['='];
        assert(u.subrange(0, p.len() as int) == p);
        assert(u[key.len() as int] == '=') by {
            assert(u.subrange(0, p.len() as int)[key.len() as int] == u[key.len() as int]);
        }
        if e < key.len() {
            assert(u.subrange(0, p.len() as int)[e] == u[e]);
            assert(key[e] == '=');
            assert(p[e] == key[e]);
        }
        assert(forall|k: int| 0 <= k < key.len() ==> u[k] == key[k]) by {
            assert forall|k: int| 0 <= k < key.len() implies u[k] == key[k] by {
                assert(u.subrange(0, p.len() as int)[k] == u[k]);
                assert(p[k] == key[k]);
            }
        }
        if key.len() < e {
            assert(u[key.len() as int] != '=');
        }
        assert(assigned_key(u) =~= key);
    }
}

/// Dropping the lines about a key keeps every other line, and keeps only
/// lines it was given.
proof fn lemma_drop_key_keeps(ls: Seq<Seq<char>>, key: Seq<char>, u: Seq<char>)
    ensures
        ls.contains(u) && !mentions_key(u, key) ==> drop_key(ls, key).contains(u),
        forall|j: int| 0 <= j < drop_key(ls, key).len() ==> ls.contains(#[trigger] drop_key(ls, key)[j])
            && !mentions_key(drop_key(ls, key)[j], key),
    decreases ls.len(),
{
    if ls.len() > 0 {
        let dl = ls.drop_last();
        lemma_drop_key_keeps(dl, key, u);
        let d = drop_key(dl, key);
        if ls.contains(u) && !mentions_key(u, key) {
            let k = choose|k: int| 0 <= k < ls.len() && ls[k] == u;
            if k < ls.len() - 1 {
                assert(dl[k] == u);
                assert(dl.contains(u));
                let m = choose|m: int| 0 <= m < d.len() && d[m] == u;
                if !mentions_key(ls.last(), key) {
                    assert(d.push(ls.last())[m] == u);
                }
            } else {
                assert(d.push(ls.last())[d.len() as int] == u);
            }
        }
        assert forall|j: int| 0 <= j < drop_key(ls, key).len() implies ls.contains(#[trigger] drop_key(ls, key)[j])
            && !mentions_key(drop_key(ls, key)[j], key) by {
            if mentions_key(ls.last(), key) {
                let x = d[j];
                let m = choose|m: int| 0 <= m < dl.len() && dl[m] == x;
                assert(ls[m] == x);
            } else if j < d.len() {
                let x = d[j];
                assert(drop_key(ls, key)[j] == x);
                let m = choose|m: int| 0 <= m < dl.len() && dl[m] == x;
                assert(ls[m] == x);
            } else {
                assert(drop_key(ls, key)[j] == ls.last());
                assert(ls[ls.len() - 1] == ls.last());
            }
        }
    }
}

/// The lines of a config after one kconfig assignment `t`: the kept lines
/// (carriage returns stripped, or one empty line when none are kept), then `t`.
proof fn lemma_applied_lines(config: Seq<char>, line: Seq<char>)
    requires
        is_assignment(text::trim(line)),
        forall|k: int| 0 <= k < line.len() ==> line[k] != '\n',
    ensures
        ({
            let t = text::trim(line);
            let kept = drop_key(text::lines_of(config), assigned_key(t));
            let ls = text::lines_of(apply_kconfig_line(config, line));
            &&& ls.len() > 0
            &&& ls.last() == t
            &&& forall|j: int| 0 <= j < ls.len() - 1 ==> ls[j] == (if kept.len() == 0 { Seq::<char>::empty() } else { text::strip_cr(kept[j]) })
            &&& kept.len() > 0 ==> ls.len() == kept.len() + 1
        }),
{
    let t = text::trim(line);
    text::lemma_ws_bounds(line);
    text::lemma_ws_bounds(text::trim_start(line));
    assert forall|k: int| 0 <= k < t.len() implies t[k] != '\n' by {
        assert(t[k] == line[text::lead_ws(line) + k]);
    }
    let key = assigned_key(t);
    let ls0 = text::lines_of(config);
    let kept = drop_key(ls0, key);
    text::lemma_lines_no_nl(config);
    lemma_drop_key_keeps(ls0, key, t);
    assert forall|i: int, k: int| 0 <= i < kept.len() && 0 <= k < kept[i].len() implies kept[i][k] != '\n' by {
        let x = kept[i];
        assert(ls0.contains(x));
        let m = choose|m: int| 0 <= m < ls0.len() && ls0[m] == x;
        assert(ls0[m][k] != '\n');
    }
    let x = join_lines(kept) + seq!['\n'];
    let r = apply_kconfig_line(config, line);
    assert(r == x + t);
    text::lemma_lines_append(x, t);
    text::lemma_lines_last(t, 0);
    assert(t.subrange(0, t.len() as int) =~= t);
    if kept.len() > 0 {
        lemma_lines_of_joined(kept);
    } else {
        assert(x =~= Seq::<char>::empty() + seq!['\n']);
        lemma_line_nl(Seq::<char>::empty());
        assert(Seq::<char>::empty() + seq!['\n'] =~= seq!['\n']);
    }
}

/// An assignment line of a config stays after applying a kconfig line that
/// does not assign its key.
proof fn lemma_apply_keeps(config: Seq<char>, line: Seq<char>, u: Seq<char>)
    requires
        text::lines_of(config).contains(u),
        is_assignment(u),
        text::trim(u) == u,
        forall|k: int| 0 <= k < line.len() ==> line[k] != '\n',
        is_assignment(text::trim(line)) ==> assigned_key(text::trim(line)) != assigned_key(u),
    ensures
        text::lines_of(apply_kconfig_line(config, line)).contains(u),
{
    let t = text::trim(line);
    if is_assignment(t) {
        let key = assigned_key(t);
        let ls0 = text::lines_of(config);
        let et = first_eq(t);
        assert(0 <= et < t.len() && t[et] == '=' && (forall|k: int| 0 <= k < et ==> t[k] != '='));
        assert forall|k: int| 0 <= k < key.len() implies key[k] != '=' by {
            assert(key[k] == t[k]);
        }
        if mentions_key(u, key) {
            lemma_assignment_mentions(u, key);
        }
        lemma_drop_key_keeps(ls0, key, u);
        lemma_applied_lines(config, line);
        let kept = drop_key(ls0, key);
        let m = choose|m: int| 0 <= m < kept.len() && kept[m] == u;
        let ls = text::lines_of(apply_kconfig_line(config, line));
        assert(u.last() != '\r') by {
            text::lemma_ws_bounds(u);
            text::lemma_trim_plain_end(u);
        }
        assert(ls[m] == u);
    }
}

/// An assignment line of a config stays through kconfig lines none of which
/// assigns its key.
proof fn lemma_apply_all_keeps(config: Seq<char>, ls: Seq<Seq<char>>, u: Seq<char>)
    requires
        text::lines_of(config).contains(u),
        is_assignment(u),
        text::trim(u) == u,
        forall|i: int, k: int| 0 <= i < ls.len() && 0 <= k < ls[i].len() ==> ls[i][k] != '\n',
        forall|j: int| 0 <= j < ls.len() && is_assignment(text::trim(#[trigger] ls[j])) ==> assigned_key(text::trim(ls[j])) != assigned_key(u),
    ensures
        text::lines_of(apply_kconfig_lines(config, ls)).contains(u),
    decreases ls.len(),
{
    if ls.len() > 0 {
        lemma_apply_keeps(config, ls[0], u);
        let rest = ls.drop_first();
        assert forall|j: int| 0 <= j < rest.len() && is_assignment(text::trim(#[trigger] rest[j])) implies assigned_key(text::trim(rest[j])) != assigned_key(u) by {
            assert(rest[j] == ls[j + 1]);
        }
        lemma_apply_all_keeps(apply_kconfig_line(config, ls[0]), rest, u);
    }
}

/// Applying a `KEY=value` kconfig line makes it the last line of the config,
/// and no other line sets `KEY` or says it is not set.
pub proof fn law_kconfig_line_replaces(config: Seq<char>, line: Seq<char>)
    requires
        is_assignment(text::trim(line)),
        forall|k: int| 0 <= k < line.len() ==> line[k] != '\n',
    ensures
        ({
            let t = text::trim(line);
            let ls = text::lines_of(apply_kconfig_line(config, line));
            &&& ls.len() > 0
            &&& ls.last() == t
            &&& forall|j: int| 0 <= j < ls.len() - 1 ==> !mentions_key(#[trigger] ls[j], assigned_key(t))
        }),
{
    let t = text::trim(line);
    let key = assigned_key(t);
    let ls0 = text::lines_of(config);
    let kept = drop_key(ls0, key);
    lemma_applied_lines(config, line);
    lemma_drop_key_keeps(ls0, key, t);
    let ls = text::lines_of(apply_kconfig_line(config, line));
    assert forall|j: int| 0 <= j < ls.len() - 1 implies !mentions_key(#[trigger] ls[j], key) by {
        if kept.len() > 0 {
            assert(j < kept.len());
            let x = kept[j];
            assert(!mentions_key(x, key));
            assert(ls[j] == text::strip_cr(x));
            let y = text::strip_cr(x);
            if mentions_key(y, key) {
                if x.len() > 0 && x.last() == '\r' {
                    assert(y == x.drop_last());
                    if text::starts_with(y, key + seq!['=']) {
                        let p = key + seq!['='];
                        assert(x.subrange(0, p.len() as int) =~= y.subrange(0, p.len() as int));
                        assert(text::starts_with(x, p));
                    } else {
                        let p = "# "@ + key + " is not set"@;
                        assert(x.subrange(0, p.len() as int) =~= y.subrange(0, p.len() as int));
                        assert(text::starts_with(x, p));
                    }
                } else {
                    assert(y == x);
                }
                assert(false);
            }
        } else {
            assert(ls[j] == Seq::<char>::empty());
            reveal_strlit("# ");
            assert(("# "@ + key + " is not set"@).len() > 0);
        }
    }
}

/// Every option the kconfig sets ends up in the merged config, with the value
/// of the last kconfig line that sets it.
pub proof fn law_kconfig_last_assignment_wins(config: Seq<char>, kconfig: Seq<char>, i: int)
    requires
        0 <= i < text::lines_of(kconfig).len(),
        is_assignment(text::trim(text::lines_of(kconfig)[i])),
        forall|j: int| i < j < text::lines_of(kconfig).len() && is_assignment(text::trim(#[trigger] text::lines_of(kconfig)[j]))
            ==> assigned_key(text::trim(text::lines_of(kconfig)[j])) != assigned_key(text::trim(text::lines_of(kconfig)[i])),
    ensures
        text::lines_of(apply_kconfig_lines(config, text::lines_of(kconfig))).contains(text::trim(text::lines_of(kconfig)[i])),
{
    text::lemma_lines_no_nl(kconfig);
    lemma_last_wins(config, text::lines_of(kconfig), i);
}

proof fn lemma_last_wins(config: Seq<char>, ls: Seq<Seq<char>>, i: int)
    requires
        0 <= i < ls.len(),
        forall|a: int, k: int| 0 <= a < ls.len() && 0 <= k < ls[a].len() ==> ls[a][k] != '\n',
        is_assignment(text::trim(ls[i])),
        forall|j: int| i < j < ls.len() && is_assignment(text::trim(#[trigger] ls[j]))
            ==> assigned_key(text::trim(ls[j])) != assigned_key(text::trim(ls[i])),
    ensures
        text::lines_of(apply_kconfig_lines(config, ls)).contains(text::trim(ls[i])),
    decreases i,
{
    let rest = ls.drop_first();
    let c1 = apply_kconfig_line(config, ls[0]);
    if i == 0 {
        let t = text::trim(ls[0]);
        law_kconfig_line_replaces(config, ls[0]);
        let l1 = text::lines_of(c1);
        assert(l1[l1.len() - 1] == t);
        text::lemma_trim_idempotent(ls[0]);
        assert forall|j: int| 0 <= j < rest.len() && is_assignment(text::trim(#[trigger] rest[j])) implies assigned_key(text::trim(rest[j])) != assigned_key(t) by {
            assert(rest[j] == ls[j + 1]);
        }
        lemma_apply_all_keeps(c1, rest, t);
    } else {
        assert(rest[i - 1] == ls[i]);
        assert forall|j: int| i - 1 < j < rest.len() && is_assignment(text::trim(#[trigger] rest[j]))
            implies assigned_key(text::trim(rest[j])) != assigned_key(text::trim(rest[i - 1])) by {
            assert(rest[j] == ls[j + 1]);
        }
        lemma_last_wins(c1, rest, i - 1);
    }
}

/// The version fields of a kernel Makefile: VERSION, PATCHLEVEL, SUBLEVEL,
/// EXTRAVERSION.
pub struct MakefileVersion {
    pub version: Seq<char>,
    pub patchlevel: Seq<char>,
    pub sublevel: Seq<char>,
    pub extraversion: Seq<char>,
}

/// Read one Makefile line: an assignment of a version field overwrites it.
pub open spec fn makefile_step(f: MakefileVersion, l: Seq<char>) -> MakefileVersion {
    if text::starts_with(l, "VERSION = "@) {
        MakefileVersion { version: text::trim(l.subrange(10, l.len() as int)), ..f }
    } else if text::starts_with(l, "PATCHLEVEL = "@) {
        MakefileVersion { patchlevel: text::trim(l.subrange(13, l.len() as int)), ..f }
    } else if text::starts_with(l, "SUBLEVEL = "@) {
        MakefileVersion { sublevel: text::trim(l.subrange(11, l.len() as int)), ..f }
    } else if text::starts_with(l, "EXTRAVERSION = "@) {
        MakefileVersion { extraversion: text::trim(l.subrange(15, l.len() as int)), ..f }
    } else {
        f
    }
}

/// The version fields after reading the lines in order.
pub open spec fn makefile_fields(ls: Seq<Seq<char>>) -> MakefileVersion
    decreases ls.len(),
{
    if ls.len() == 0 {
        MakefileVersion { version: seq![], patchlevel: seq![], sublevel: seq![], extraversion: seq![] }
    } else {
        makefile_step(makefile_fields(ls.drop_last()), ls.last())
    }
}

/// `VERSION.PATCHLEVEL.SUBLEVEL EXTRAVERSION` of a Makefile, when VERSION and
/// PATCHLEVEL are set.
pub open spec fn makefile_kernel_version(content: Seq<char>) -> Option<Seq<char>> {
    let f = makefile_fields(text::lines_of(content));
    if f.version.len() > 0 && f.patchlevel.len() > 0 {
        Some(f.version + seq!['.'] + f.patchlevel + seq!['.'] + f.sublevel + f.extraversion)
    } else {
        None
    }
}

fn field_after(l: &Vec<char>, prefix: &str) -> (r: Option<Vec<char>>)
    ensures
        match r {
            Some(v) => text::starts_with(l@, prefix@) && v@ == text::trim(l@.subrange(prefix@.len() as int, l@.len() as int)),
            None => !text::starts_with(l@, prefix@),
        },
{
    let p = chars_of(prefix);
    if starts_with_vec(l, &p) {
        let rest = slice_vec(l, p.len(), l.len());
        Some(trim_vec(&rest))
    } else {
        None
    }
}

/// The kernel version a Makefile declares, if VERSION and PATCHLEVEL are set.
pub fn parse_makefile_version(content: &str) -> (r: Option<String>)
    ensures
        match r {
            Some(v) => makefile_kernel_version(content@) == Some(v@),
            None => makefile_kernel_version(content@) is None,
        },
{
    let cv = chars_of(content);
    let ls = lines_vec(&cv);
    let ghost vs = text::lines_of(content@);
    let mut version: Vec<char> = Vec::new();
    let mut patchlevel: Vec<char> = Vec::new();
    let mut sublevel: Vec<char> = Vec::new();
    let mut extraversion: Vec<char> = Vec::new();
    let mut i: usize = 0;
    proof {
        reveal_strlit("VERSION = ");
        reveal_strlit("PATCHLEVEL = ");
        reveal_strlit("SUBLEVEL = ");
        reveal_strlit("EXTRAVERSION = ");
        assert(vs.take(0) =~= Seq::<Seq<char>>::empty());
    }
    while i < ls.len()
        invariant
            i <= ls.len(),
            vs == text::lines_of(content@),
            ls@.len() == vs.len(),
            forall|k: int| 0 <= k < ls@.len() ==> #[trigger] ls@[k]@ == vs[k],
            "VERSION = "@.len() == 10,
            "PATCHLEVEL = "@.len() == 13,
            "SUBLEVEL = "@.len() == 11,
            "EXTRAVERSION = "@.len() == 15,
            makefile_fields(vs.take(i as int)) == (MakefileVersion {
                version: version@, patchlevel: patchlevel@, sublevel: sublevel@, extraversion: extraversion@ }),
        decreases ls.len() - i,
    {
        proof {
            assert(vs.take(i + 1).drop_last() =~= vs.take(i as int));
            assert(vs.take(i + 1).last() == ls@[i as int]@);
        }
        if let Some(v) = field_after(&ls[i], "VERSION = ") {
            version = v;
        } else if let Some(v) = field_after(&ls[i], "PATCHLEVEL = ") {
            patchlevel = v;
        } else if let Some(v) = field_after(&ls[i], "SUBLEVEL = ") {
            sublevel = v;
        } else if let Some(v) = field_after(&ls[i], "EXTRAVERSION = ") {
            extraversion = v;
        }
        i = i + 1;
    }
    assert(vs.take(ls.len() as int) =~= vs);
    if version.len() > 0 && patchlevel.len() > 0 {
        let mut out = version;
        out.push('.');
        push_all(&mut out, &patchlevel);
        out.push('.');
        push_all(&mut out, &sublevel);
        push_all(&mut out, &extraversion);
        Some(string_of(&out))
    } else {
        None
    }
}

/// Why the kernel version could not be determined.
#[derive(Debug, PartialEq, Eq)]
pub enum KernelVersionError {
    /// Neither `include/config/kernel.release` nor a Makefile with VERSION
    /// and PATCHLEVEL was found.
    Undetermined,
}

/// The kernel version of a build directory, from the contents of
/// `include/config/kernel.release` (trimmed) when that file exists, else from
/// the VERSION fields of its Makefile when that file exists.
pub fn get_kernel_version(release: Option<&str>, makefile: Option<&str>) -> (r: Result<String, KernelVersionError>)
    ensures
        match release {
            Some(rel) => r matches Ok(v) && v@ == text::trim(rel@),
            None => match makefile {
                Some(m) => match makefile_kernel_version(m@) {
                    Some(v) => r matches Ok(x) && x@ == v,
                    None => r == Err::<String, KernelVersionError>(KernelVersionError::Undetermined),
                },
                None => r == Err::<String, KernelVersionError>(KernelVersionError::Undetermined),
            },
        },
{
    match release {
        Some(rel) => Ok(text::trim_str(rel)),
        None => match makefile {
            Some(m) => match parse_makefile_version(m) {
                Some(v) => Ok(v),
                None => Err(KernelVersionError::Undetermined),
            },
            None => Err(KernelVersionError::Undetermined),
        },
    }
}

/// Whether `.config` must be regenerated: unless both `.config` and the
/// cached kconfig hash exist and the cached hash (trimmed) equals the hash of
/// the kconfig in use.
pub fn need_config_regen(config_exists: bool, cached_hash: Option<&str>, kconfig_hash: &str) -> (r: bool)
    ensures
        r == !(config_exists && cached_hash is Some && text::trim(cached_hash.unwrap()@) == kconfig_hash@),
{
    if config_exists {
        match cached_hash {
            Some(c) => {
                let t = text::trim_str(c);
                !text::str_eq(t.as_str(), kconfig_hash)
            },
            None => true,
        }
    } else {
        true
    }
}

/// The module directory below the staging root: the install path without
/// its leading slashes.
pub open spec fn strip_leading_slashes(s: Seq<char>) -> Seq<char>
    decreases s.len(),
{
    if s.len() > 0 && s[0] == '/' {
        strip_leading_slashes(s.drop_first())
    } else {
        s
    }
}

/// `str::trim_start_matches('/')`.
pub fn module_base(module_install_path: &str) -> (r: String)
    ensures
        r@ == strip_leading_slashes(module_install_path@),
{
    let v = chars_of(module_install_path);
    let mut i: usize = 0;
    assert(v@.subrange(0, v@.len() as int) =~= v@);
    while i < v.len() && v[i] == '/'
        invariant
            i <= v.len(),
            strip_leading_slashes(v@) == strip_leading_slashes(v@.subrange(i as int, v@.len() as int)),
        decreases v.len() - i,
    {
        proof {
            assert(v@.subrange(i as int, v@.len() as int).drop_first() =~= v@.subrange(i + 1, v@.len() as int));
        }
        i = i + 1;
    }
    let rest = slice_vec(&v, i, v.len());
    string_of(&rest)
}


/// The hash that tells whether the kernel configuration changed: the
/// lowercase hexadecimal SHA-256 of the kconfig text.
pub fn kconfig_hash(kconfig: &str) -> (r: String)
    ensures
        r@ == store::hex_of(store::sha256_of(vstd::utf8::encode_utf8(kconfig@))),
{
    sha256_hex(kconfig.as_bytes())
}

/// Why the kernel could not be built or installed.
#[derive(Debug, PartialEq, Eq)]
pub enum KernelBuildError {
    /// The kernel source tree is missing.
    SourceMissing { kernel_source: String },
    /// The kernel source tree has no Makefile.
    NoMakefile,
    /// The kernel image was not built yet.
    NotBuilt { expected: String },
    /// The version of the built kernel could not be determined.
    VersionUndetermined,
    /// After installation the modules of this version are not in staging.
    ModulesMissing { version: String },
}

/// The paths and make arguments of a kernel build.
#[derive(Debug)]
pub struct KernelBuildPlan {
    pub build_dir: String,
    pub config_path: String,
    pub config_hash_path: String,
    /// `O=<build dir>`, handed to every make run.
    pub build_dir_arg: String,
    pub kconfig_hash: String,
}

/// The checks and paths of a kernel build: the source tree must exist and
/// hold a Makefile; the build goes to `<output>/kernel-build`.
pub fn build_kernel(
    kernel_source: &str,
    output_dir: &str,
    kconfig: &str,
    source_exists: bool,
    makefile_exists: bool,
) -> (r: Result<KernelBuildPlan, KernelBuildError>)
    ensures
        !source_exists ==> (r matches Err(KernelBuildError::SourceMissing { kernel_source: k }) && k@ == kernel_source@),
        source_exists && !makefile_exists ==> r matches Err(KernelBuildError::NoMakefile),
        source_exists && makefile_exists ==> (r matches Ok(p)
            && p.build_dir@ == paths::join(output_dir@, "kernel-build"@)
            && p.config_path@ == paths::join(p.build_dir@, ".config"@)
            && p.config_hash_path@ == paths::join(p.build_dir@, ".config.kconfig-hash"@)
            && p.build_dir_arg@ == "O="@ + p.build_dir@
            && p.kconfig_hash@ == store::hex_of(store::sha256_of(vstd::utf8::encode_utf8(kconfig@)))),
{
    if !source_exists {
        return Err(KernelBuildError::SourceMissing { kernel_source: String::from_str(kernel_source) });
    }
    if !makefile_exists {
        return Err(KernelBuildError::NoMakefile);
    }
    let build_dir = path_join(output_dir, "kernel-build");
    let config_path = path_join(build_dir.as_str(), ".config");
    let config_hash_path = path_join(build_dir.as_str(), ".config.kconfig-hash");
    let mut build_dir_arg = String::from_str("O=");
    append_str(&mut build_dir_arg, build_dir.as_str());
    Ok(KernelBuildPlan { build_dir, config_path, config_hash_path, build_dir_arg, kconfig_hash: kconfig_hash(kconfig) })
}

/// The arguments of one make run of a kernel build.
pub fn kernel_make_args(kernel_source: &str, build_dir_arg: &str, target: &str) -> (r: Vec<String>)
    ensures
        text::views(r@) == seq!["-C"@, kernel_source@, build_dir_arg@, target@],
{
    let mut v: Vec<String> = Vec::new();
    v.push(String::from_str("-C"));
    v.push(String::from_str(kernel_source));
    v.push(String::from_str(build_dir_arg));
    v.push(String::from_str(target));
    assert(text::views(v@) =~= seq!["-C"@, kernel_source@, build_dir_arg@, target@]);
    v
}

/// One step of a kernel build, run in order; the build stops at the first
/// step that fails.
#[derive(Debug)]
pub enum KernelBuildStep {
    /// Run `make` with these arguments.
    Make { args: Vec<String> },
    /// Merge the kconfig into the `.config` at this path, as
    /// [`apply_kernel_config`] does (a missing file counts as empty).
    ApplyConfig { config_path: String, kconfig: String },
    /// Write the kconfig hash to this path.
    WriteHash { path: String, hash: String },
    /// Read the built kernel's version from this build directory, as
    /// [`get_kernel_version`] does.
    ReadVersion { build_dir: String },
}

/// A kernel build step, with its strings as character sequences.
pub enum KernelBuildStepView {
    Make { args: Seq<Seq<char>> },
    ApplyConfig { config_path: Seq<char>, kconfig: Seq<char> },
    WriteHash { path: Seq<char>, hash: Seq<char> },
    ReadVersion { build_dir: Seq<char> },
}

impl KernelBuildStep {
    pub open spec fn view(self) -> KernelBuildStepView {
        match self {
            KernelBuildStep::Make { args } => KernelBuildStepView::Make { args: text::views(args@) },
            KernelBuildStep::ApplyConfig { config_path, kconfig } =>
                KernelBuildStepView::ApplyConfig { config_path: config_path@, kconfig: kconfig@ },
            KernelBuildStep::WriteHash { path, hash } => KernelBuildStepView::WriteHash { path: path@, hash: hash@ },
            KernelBuildStep::ReadVersion { build_dir } => KernelBuildStepView::ReadVersion { build_dir: build_dir@ },
        }
    }
}

/// Views of a list of build steps.
pub open spec fn build_step_views(v: Seq<KernelBuildStep>) -> Seq<KernelBuildStepView> {
    v.map_values(|s: KernelBuildStep| s.view())
}

/// A `make` step on the kernel tree with the build directory argument.
pub open spec fn make_step(kernel_source: Seq<char>, build_dir_arg: Seq<char>, rest: Seq<Seq<char>>) -> KernelBuildStepView {
    KernelBuildStepView::Make { args: seq!["-C"@, kernel_source, build_dir_arg] + rest }
}

/// The steps of a kernel build, in order. When the configuration must be
/// regenerated: `x86_64_defconfig`, merge the kconfig, `olddefconfig`, write
/// the kconfig hash. Always then: `olddefconfig` (for options new in the
/// source), build with `jobs` parallel jobs, build the modules, read the
/// version.
pub open spec fn kernel_build_steps_spec(
    kernel_source: Seq<char>,
    kconfig: Seq<char>,
    plan: KernelBuildPlan,
    regen: bool,
    jobs: nat,
) -> Seq<KernelBuildStepView> {
    let o = plan.build_dir_arg@;
    let j = "-j"@ + users::dec_str(jobs);
    (if regen {
        seq![
            make_step(kernel_source, o, seq!["x86_64_defconfig"@]),
            KernelBuildStepView::ApplyConfig { config_path: plan.config_path@, kconfig },
            make_step(kernel_source, o, seq!["olddefconfig"@]),
            KernelBuildStepView::WriteHash { path: plan.config_hash_path@, hash: plan.kconfig_hash@ },
        ]
    } else {
        Seq::empty()
    }) + seq![
        make_step(kernel_source, o, seq!["olddefconfig"@]),
        make_step(kernel_source, o, seq![j]),
        make_step(kernel_source, o, seq![j, "modules"@]),
        KernelBuildStepView::ReadVersion { build_dir: plan.build_dir@ },
    ]
}

/// The number of parallel build jobs: the detected CPU count, or 4 when it
/// could not be detected.
pub fn build_jobs(detected: Option<usize>) -> (r: usize)
    ensures
        r == (match detected {
            Some(n) => n,
            None => 4,
        }),
{
    match detected {
        Some(n) => n,
        None => 4,
    }
}

fn make_args_with(kernel_source: &str, build_dir_arg: &str, rest: &Vec<String>) -> (r: Vec<String>)
    ensures
        text::views(r@) == seq!["-C"@, kernel_source@, build_dir_arg@] + text::views(rest@),
{
    let mut v: Vec<String> = Vec::new();
    v.push(String::from_str("-C"));
    v.push(String::from_str(kernel_source));
    v.push(String::from_str(build_dir_arg));
    assert(text::views(v@) =~= seq!["-C"@, kernel_source@, build_dir_arg@] + text::views(rest@.take(0)));
    let mut i: usize = 0;
    while i < rest.len()
        invariant
            i <= rest.len(),
            v@.len() == 3 + i,
            text::views(v@) == seq!["-C"@, kernel_source@, build_dir_arg@] + text::views(rest@.take(i as int)),
        decreases rest.len() - i,
    {
        let ghost before = v@;
        v.push(String::from_str(rest[i].as_str()));
        assert(text::views(v@) =~= text::views(before).push(rest@[i as int]@));
        assert(text::views(rest@.take(i as int + 1)) =~= text::views(rest@.take(i as int)).push(rest@[i as int]@));
        assert(text::views(v@) =~= seq!["-C"@, kernel_source@, build_dir_arg@] + text::views(rest@.take(i as int + 1)));
        i = i + 1;
    }
    assert(rest@.take(rest.len() as int) =~= rest@);
    v
}

fn one_word(w: &str) -> (r: Vec<String>)
    ensures
        text::views(r@) == seq![w@],
{
    let mut v: Vec<String> = Vec::new();
    v.push(String::from_str(w));
    assert(text::views(v@) =~= seq![w@]);
    v
}

fn push_step(out: &mut Vec<KernelBuildStep>, s: KernelBuildStep)
    ensures
        build_step_views(final(out)@) == build_step_views(old(out)@).push(s.view()),
{
    out.push(s);
    assert(build_step_views(out@) =~= build_step_views(old(out)@).push(s.view()));
}

/// The steps of a kernel build of `plan`, in the order they run; `regen` is
/// [`need_config_regen`]'s answer and `jobs` the number of parallel jobs.
pub fn kernel_build_steps(kernel_source: &str, kconfig: &str, plan: &KernelBuildPlan, regen: bool, jobs: usize) -> (r: Vec<KernelBuildStep>)
    ensures
        build_step_views(r@) == kernel_build_steps_spec(kernel_source@, kconfig@, *plan, regen, jobs as nat),
{
    let o = plan.build_dir_arg.as_str();
    let mut out: Vec<KernelBuildStep> = Vec::new();
    if regen {
        push_step(&mut out, KernelBuildStep::Make { args: make_args_with(kernel_source, o, &one_word("x86_64_defconfig")) });
        push_step(&mut out, KernelBuildStep::ApplyConfig {
            config_path: String::from_str(plan.config_path.as_str()),
            kconfig: String::from_str(kconfig),
        });
        push_step(&mut out, KernelBuildStep::Make { args: make_args_with(kernel_source, o, &one_word("olddefconfig")) });
        push_step(&mut out, KernelBuildStep::WriteHash {
            path: String::from_str(plan.config_hash_path.as_str()),
            hash: String::from_str(plan.kconfig_hash.as_str()),
        });
    }
    let mut j = String::from_str("-j");
    let d = u64_to_dec(jobs as u64);
    let ds = string_of(&d);
    append_str(&mut j, ds.as_str());
    push_step(&mut out, KernelBuildStep::Make { args: make_args_with(kernel_source, o, &one_word("olddefconfig")) });
    push_step(&mut out, KernelBuildStep::Make { args: make_args_with(kernel_source, o, &one_word(j.as_str())) });
    let mut jm: Vec<String> = Vec::new();
    jm.push(String::from_str(j.as_str()));
    jm.push(String::from_str("modules"));
    assert(text::views(jm@) =~= seq![j@, "modules"@]);
    push_step(&mut out, KernelBuildStep::Make { args: make_args_with(kernel_source, o, &jm) });
    push_step(&mut out, KernelBuildStep::ReadVersion { build_dir: String::from_str(plan.build_dir.as_str()) });
    assert(build_step_views(out@) =~= kernel_build_steps_spec(kernel_source@, kconfig@, *plan, regen, jobs as nat));
    out
}

/// The paths of a kernel installation into staging, made in a temporary
/// sibling `staging.tmp` that replaces staging at the end. Every step before
/// that swap writes under `temp_staging` only, so an error before it leaves
/// staging as it was.
#[derive(Debug)]
pub struct KernelInstallPlan {
    /// The version of the built kernel; the modules go in a directory of this name.
    pub version: String,
    pub build_dir: String,
    pub vmlinux: String,
    pub temp_staging: String,
    pub boot_dir: String,
    pub kernel_dest: String,
    pub module_base: String,
    pub modules_dir: String,
    pub make_args: Vec<String>,
    pub lib_modules: String,
    pub target_modules: String,
    /// Whether modules that `make` put in `lib/modules` move to the module base.
    pub move_from_lib_modules: bool,
    pub final_modules_dir: String,
    /// Links into the build tree removed from the installed modules.
    pub remove_links: Vec<String>,
    /// The last step: this directory is removed when present, and
    /// `temp_staging` is renamed to it.
    pub staging: String,
}

/// Where and how a distro installs its kernel, implemented by each distro.
pub trait KernelInstallConfig {
    /// Path where modules are installed (e.g. `/usr/lib/modules` or `/lib/modules`).
    fn module_install_path(&self) -> &str;

    /// Kernel filename in `/boot` (e.g. `vmlinuz`).
    fn kernel_filename(&self) -> &str;
}

/// Where the kernel image is after a build.
pub open spec fn vmlinux_of(build_output: Seq<char>) -> Seq<char> {
    paths::join(paths::join(build_output, "kernel-build"@), "arch/x86/boot/bzImage"@)
}

/// The version of a build directory, given the contents of its
/// `include/config/kernel.release` and its `Makefile` (`None` for a missing
/// file), as [`get_kernel_version`] determines it.
pub open spec fn kernel_version_of(release: Option<Seq<char>>, makefile: Option<Seq<char>>) -> Option<Seq<char>> {
    match release {
        Some(rel) => Some(text::trim(rel)),
        None => match makefile {
            Some(m) => makefile_kernel_version(m),
            None => None,
        },
    }
}

/// The view of an optional string.
pub open spec fn opt_view(o: Option<&str>) -> Option<Seq<char>> {
    match o {
        Some(s) => Some(s@),
        None => None,
    }
}

/// The plan of installing the built kernel into staging: the kernel image must
/// exist (`vmlinux_exists`), and its version is read from the build
/// directory's `include/config/kernel.release` or `Makefile` (their contents
/// are `release` and `makefile`). Kernel and modules are installed in the
/// sibling `staging.tmp`, which finally replaces staging.
pub fn install_kernel(
    kernel_source: &str,
    build_output: &str,
    staging: &str,
    module_install_path: &str,
    kernel_filename: &str,
    release: Option<&str>,
    makefile: Option<&str>,
    vmlinux_exists: bool,
) -> (r: Result<KernelInstallPlan, KernelBuildError>)
    requires
        paths::parent(staging@) is Some,
    ensures
        !vmlinux_exists ==> (r matches Err(KernelBuildError::NotBuilt { expected: e }) && e@ == vmlinux_of(build_output@)),
        vmlinux_exists && kernel_version_of(opt_view(release), opt_view(makefile)) is None
            ==> r matches Err(KernelBuildError::VersionUndetermined),
        vmlinux_exists && kernel_version_of(opt_view(release), opt_view(makefile)) is Some ==> (r matches Ok(p) && {
            let version = kernel_version_of(opt_view(release), opt_view(makefile)).unwrap();
            let temp = paths::join(paths::parent(staging@).unwrap(), "staging.tmp"@);
            let base = strip_leading_slashes(module_install_path@);
            let build_dir = paths::join(build_output@, "kernel-build"@);
            &&& p.version@ == version
            &&& p.vmlinux@ == vmlinux_of(build_output@)
            &&& p.temp_staging@ == temp
            &&& p.boot_dir@ == paths::join(temp, "boot"@)
            &&& p.kernel_dest@ == paths::join(paths::join(temp, "boot"@), kernel_filename@)
            &&& p.module_base@ == base
            &&& p.modules_dir@ == paths::join(paths::join(temp, base), version)
            &&& text::views(p.make_args@) == seq!["-C"@, kernel_source@, "O="@ + build_dir, "INSTALL_MOD_PATH="@ + temp,
                "modules_install"@]
            &&& p.lib_modules@ == paths::join(temp, "lib/modules"@)
            &&& p.target_modules@ == paths::join(temp, base)
            &&& p.move_from_lib_modules == (base != "lib/modules"@)
            &&& p.final_modules_dir@ == paths::join(paths::join(temp, base), version)
            &&& text::views(p.remove_links@) == seq![paths::join(p.final_modules_dir@, "source"@),
                paths::join(p.final_modules_dir@, "build"@)]
            &&& p.staging@ == staging@
        }),
{
    let build_dir = path_join(build_output, "kernel-build");
    let vmlinux = path_join(build_dir.as_str(), "arch/x86/boot/bzImage");
    if !vmlinux_exists {
        return Err(KernelBuildError::NotBuilt { expected: vmlinux });
    }
    let version_text = match get_kernel_version(release, makefile) {
        Ok(v) => v,
        Err(_) => {
            return Err(KernelBuildError::VersionUndetermined);
        },
    };
    let version = version_text.as_str();
    let parent = match path_parent(staging) {
        Some(p) => p,
        None => {
            return Err(KernelBuildError::NotBuilt { expected: vmlinux });
        },
    };
    let temp = path_join(parent.as_str(), "staging.tmp");
    let boot_dir = path_join(temp.as_str(), "boot");
    let kernel_dest = path_join(boot_dir.as_str(), kernel_filename);
    let base = module_base(module_install_path);
    let target_modules = path_join(temp.as_str(), base.as_str());
    let modules_dir = path_join(target_modules.as_str(), version);
    let mut o = String::from_str("O=");
    append_str(&mut o, build_dir.as_str());
    let mut imp = String::from_str("INSTALL_MOD_PATH=");
    append_str(&mut imp, temp.as_str());
    let mut make_args: Vec<String> = Vec::new();
    make_args.push(String::from_str("-C"));
    make_args.push(String::from_str(kernel_source));
    make_args.push(o);
    make_args.push(imp);
    make_args.push(String::from_str("modules_install"));
    assert(text::views(make_args@) =~= seq!["-C"@, kernel_source@, "O="@ + build_dir@, "INSTALL_MOD_PATH="@ + temp@,
        "modules_install"@]);
    let lib_modules = path_join(temp.as_str(), "lib/modules");
    let move_from_lib_modules = !str_eq(base.as_str(), "lib/modules");
    let final_modules_dir = path_join(target_modules.as_str(), version);
    let mut remove_links: Vec<String> = Vec::new();
    remove_links.push(path_join(final_modules_dir.as_str(), "source"));
    remove_links.push(path_join(final_modules_dir.as_str(), "build"));
    assert(text::views(remove_links@) =~= seq![paths::join(final_modules_dir@, "source"@), paths::join(final_modules_dir@, "build"@)]);
    Ok(KernelInstallPlan {
        version: String::from_str(version),
        build_dir,
        vmlinux,
        temp_staging: temp,
        boot_dir,
        kernel_dest,
        module_base: base,
        modules_dir,
        make_args,
        lib_modules,
        target_modules,
        move_from_lib_modules,
        final_modules_dir,
        remove_links,
        staging: String::from_str(staging),
    })
}

/// The extension of a file name, as `Path::extension` gives it: what follows
/// the last dot, unless that dot is the first character or there is none.
pub open spec fn extension_of(name: Seq<char>) -> Option<Seq<char>> {
    let i = text::last_occ(name, "."@);
    if i <= 0 {
        None
    } else {
        Some(name.subrange(i + 1, name.len() as int))
    }
}

/// Whether an installed file counts as a kernel module: its extension is
/// `ko`, `xz` or `gz`.
pub fn is_kernel_module_file(file_name: &str) -> (r: bool)
    ensures
        r == (match extension_of(file_name@) {
            Some(e) => e == "ko"@ || e == "xz"@ || e == "gz"@,
            None => false,
        }),
{
    proof {
        reveal_strlit(".");
    }
    let v = chars_of(file_name);
    let dot = chars_of(".");
    match text::rfind_vec(&v, &dot) {
        Some(i) => {
            assert(text::occurs_at(v@, dot@, i as int));
            assert(dot@.len() == 1);
            let n = v.len();
            assert(i + 1 <= n);
            if i == 0 {
                return false;
            }
            let e = slice_vec(&v, i + 1, n);
            let es = string_of(&e);
            str_eq(es.as_str(), "ko") || str_eq(es.as_str(), "xz") || str_eq(es.as_str(), "gz")
        },
        None => false,
    }
}

/// The verdict at the end of an installation: the modules of the version
/// must be in staging.
pub fn check_installed_modules(version: &str, final_modules_exists: bool) -> (r: Result<(), KernelBuildError>)
    ensures
        final_modules_exists ==> r is Ok,
        !final_modules_exists ==> (r matches Err(KernelBuildError::ModulesMissing { version: v }) && v@ == version@),
{
    if final_modules_exists {
        Ok(())
    } else {
        Err(KernelBuildError::ModulesMissing { version: String::from_str(version) })
    }
}

} // verus!
