use vstd::prelude::*;

verus! {

/// `String::push` appends one character to the string.
pub assume_specification[ String::push ](s: &mut String, ch: char)
    ensures
        final(s)@ == old(s)@.push(ch),
;

/// Unicode `White_Space`, the set that `char::is_whitespace` and `str::trim` use.
pub open spec fn is_ws(c: char) -> bool {
    ||| c == ' '
    ||| ('\t' <= c && c <= '\r')
    ||| c == '\u{85}'
    ||| c == '\u{A0}'
    ||| c == '\u{1680}'
    ||| ('\u{2000}' <= c && c <= '\u{200A}')
    ||| c == '\u{2028}'
    ||| c == '\u{2029}'
    ||| c == '\u{202F}'
    ||| c == '\u{205F}'
    ||| c == '\u{3000}'
}

/// Number of leading whitespace characters.
pub open spec fn lead_ws(s: Seq<char>) -> nat
    decreases s.len(),
{
    if s.len() > 0 && is_ws(s[0]) {
        1 + lead_ws(s.drop_first())
    } else {
        0
    }
}

/// Number of trailing whitespace characters.
pub open spec fn trail_ws(s: Seq<char>) -> nat
    decreases s.len(),
{
    if s.len() > 0 && is_ws(s.last()) {
        1 + trail_ws(s.drop_last())
    } else {
        0
    }
}

pub open spec fn trim_start(s: Seq<char>) -> Seq<char> {
    s.subrange(lead_ws(s) as int, s.len() as int)
}

pub open spec fn trim_end(s: Seq<char>) -> Seq<char> {
    s.subrange(0, s.len() - trail_ws(s))
}

/// What `str::trim` leaves of a string.
pub open spec fn trim(s: Seq<char>) -> Seq<char> {
    trim_end(trim_start(s))
}

pub open spec fn starts_with(s: Seq<char>, p: Seq<char>) -> bool {
    p.len() <= s.len() && s.subrange(0, p.len() as int) == p
}

pub open spec fn ends_with(s: Seq<char>, p: Seq<char>) -> bool {
    p.len() <= s.len() && s.subrange(s.len() - p.len(), s.len() as int) == p
}

pub open spec fn occurs_at(s: Seq<char>, p: Seq<char>, i: int) -> bool {
    0 <= i && i + p.len() <= s.len() && s.subrange(i, i + p.len()) == p
}

/// `p` occurs somewhere in `s`.
pub open spec fn contains(s: Seq<char>, p: Seq<char>) -> bool {
    exists|i: int| occurs_at(s, p, i)
}

/// Index of the first newline of `s`, or `-1`.
pub open spec fn first_nl(s: Seq<char>) -> int {
    if exists|i: int| 0 <= i < s.len() && s[i] == '\n' && (forall|k: int| 0 <= k < i ==> s[k] != '\n') {
        choose|i: int| 0 <= i < s.len() && s[i] == '\n' && (forall|k: int| 0 <= k < i ==> s[k] != '\n')
    } else {
        -1
    }
}

/// A line that ended in a newline loses a carriage return before it.
pub open spec fn strip_cr(s: Seq<char>) -> Seq<char> {
    if s.len() > 0 && s.last() == '\r' {
        s.drop_last()
    } else {
        s
    }
}

/// The lines of `s`, as `str::lines` yields them.
#[verifier::opaque]
pub open spec fn lines_of(s: Seq<char>) -> Seq<Seq<char>>
    decreases s.len(),
{
    if s.len() == 0 {
        seq![]
    } else {
        let i = first_nl(s);
        if 0 <= i < s.len() {
            seq![strip_cr(s.subrange(0, i))] + lines_of(s.subrange(i + 1, s.len() as int))
        } else {
            seq![s]
        }
    }
}

/// The first newline is the one found by a scan.
pub proof fn lemma_first_nl(s: Seq<char>, i: int)
    requires
        0 <= i < s.len(),
        s[i] == '\n',
        forall|k: int| 0 <= k < i ==> s[k] != '\n',
    ensures
        first_nl(s) == i,
{
    let j = first_nl(s);
    assert(0 <= j < s.len() && s[j] == '\n' && (forall|k: int| 0 <= k < j ==> s[k] != '\n'));
    if j < i {
        assert(s[j] != '\n');
    } else if i < j {
        assert(s[i] != '\n');
    }
}

/// A string with a newline at `j` has a first newline, at or before `j`.
pub proof fn lemma_has_first_nl(s: Seq<char>, j: int)
    requires
        0 <= j < s.len(),
        s[j] == '\n',
    ensures
        0 <= first_nl(s) <= j,
        s[first_nl(s)] == '\n',
        forall|k: int| 0 <= k < first_nl(s) ==> s[k] != '\n',
    decreases j,
{
    if forall|k: int| 0 <= k < j ==> s[k] != '\n' {
        lemma_first_nl(s, j);
    } else {
        let k = choose|k: int| 0 <= k < j && s[k] == '\n';
        lemma_has_first_nl(s, k);
    }
}

/// Text that is empty or ends in a newline, then more text: its lines are
/// the lines of the first part followed by those of the second.
pub proof fn lemma_lines_append(a: Seq<char>, b: Seq<char>)
    requires
        a.len() == 0 || a.last() == '\n',
    ensures
        lines_of(a + b) == lines_of(a) + lines_of(b),
    decreases a.len(),
{
    reveal(lines_of);
    if a.len() == 0 {
        assert(a + b =~= b);
        assert(lines_of(a) =~= Seq::<Seq<char>>::empty());
        assert(lines_of(a) + lines_of(b) =~= lines_of(b));
    } else {
        let s = a + b;
        lemma_has_first_nl(a, a.len() - 1);
        let i = first_nl(a);
        assert forall|k: int| 0 <= k < i implies s[k] != '\n' by {
            assert(s[k] == a[k]);
        }
        lemma_first_nl(s, i);
        let a2 = a.subrange(i + 1, a.len() as int);
        assert(s.subrange(0, i) =~= a.subrange(0, i));
        assert(s.subrange(i + 1, s.len() as int) =~= a2 + b);
        if a2.len() > 0 {
            assert(a2.last() == a.last());
        }
        lemma_lines_append(a2, b);
        assert(lines_of(a) == seq![strip_cr(a.subrange(0, i))] + lines_of(a2));
        assert(lines_of(s) == seq![strip_cr(a.subrange(0, i))] + lines_of(a2 + b));
        assert(lines_of(s) =~= lines_of(a) + lines_of(b));
    }
}

/// A string with no whitespace at either end is its own trim.
pub proof fn lemma_trim_plain(t: Seq<char>)
    requires
        t.len() > 0,
        !is_ws(t[0]),
        !is_ws(t.last()),
    ensures
        trim(t) == t,
{
    lemma_lead_ws(t, 0);
    assert(trim_start(t) =~= t);
    lemma_trail_ws(t, 0);
    assert(trim_end(t) =~= t);
}

/// The counts of leading and trailing whitespace fit in the string.
pub proof fn lemma_ws_bounds(s: Seq<char>)
    ensures
        lead_ws(s) <= s.len(),
        trail_ws(s) <= s.len(),
    decreases s.len(),
{
    if s.len() > 0 {
        lemma_ws_bounds(s.drop_first());
        lemma_ws_bounds(s.drop_last());
    }
}

/// Trimming after the first character, when it is whitespace, changes nothing.
proof fn lemma_trim_drop_first_ws(s: Seq<char>)
    requires
        s.len() > 0,
        is_ws(s[0]),
    ensures
        trim(s) == trim(s.drop_first()),
{
    lemma_ws_bounds(s.drop_first());
    assert(lead_ws(s) == 1 + lead_ws(s.drop_first()));
    assert(trim_start(s) =~= trim_start(s.drop_first()));
}

/// Trimming ignores a whitespace character at the end.
pub proof fn lemma_trim_drop_last_ws(s: Seq<char>)
    requires
        s.len() > 0,
        is_ws(s.last()),
    ensures
        trim(s.drop_last()) == trim(s),
    decreases s.len(),
{
    if s.len() == 1 {
        lemma_trim_drop_first_ws(s);
        assert(s.drop_first() =~= Seq::<char>::empty());
        assert(s.drop_last() =~= Seq::<char>::empty());
    } else if is_ws(s[0]) {
        let d = s.drop_first();
        lemma_trim_drop_last_ws(d);
        lemma_trim_drop_first_ws(s);
        assert(s.drop_last()[0] == s[0]);
        lemma_trim_drop_first_ws(s.drop_last());
        assert(s.drop_last().drop_first() =~= d.drop_last());
    } else {
        let dl = s.drop_last();
        assert(dl[0] == s[0]);
        lemma_lead_ws(s, 0);
        lemma_lead_ws(dl, 0);
        assert(trim_start(s) =~= s);
        assert(trim_start(dl) =~= dl);
        assert(trail_ws(s) == 1 + trail_ws(dl));
        lemma_ws_bounds(dl);
        assert(trim_end(dl) =~= trim_end(s));
    }
}

/// The leading whitespace count stops at a character that is not whitespace.
proof fn lemma_lead_ws_stop(s: Seq<char>)
    ensures
        lead_ws(s) < s.len() ==> !is_ws(s[lead_ws(s) as int]),
    decreases s.len(),
{
    if s.len() > 0 && is_ws(s[0]) {
        lemma_lead_ws_stop(s.drop_first());
    }
}

/// The trailing whitespace count stops at a character that is not whitespace.
proof fn lemma_trail_ws_stop(s: Seq<char>)
    ensures
        trail_ws(s) < s.len() ==> !is_ws(s[s.len() - trail_ws(s) - 1]),
    decreases s.len(),
{
    if s.len() > 0 && is_ws(s.last()) {
        lemma_trail_ws_stop(s.drop_last());
    }
}

/// Trimming twice is trimming once.
pub proof fn lemma_trim_idempotent(s: Seq<char>)
    ensures
        trim(trim(s)) == trim(s),
{
    let ts = trim_start(s);
    let t = trim(s);
    lemma_ws_bounds(s);
    lemma_ws_bounds(ts);
    if t.len() > 0 {
        lemma_lead_ws_stop(s);
        lemma_trail_ws_stop(ts);
        assert(t[0] == ts[0]);
        assert(ts[0] == s[lead_ws(s) as int]);
        assert(t.last() == ts[ts.len() - trail_ws(ts) - 1]);
        lemma_trim_plain(t);
    } else {
        assert(trim_start(t) =~= t);
        assert(trim_end(t) =~= t);
    }
}

/// A non-empty string that is its own trim does not end in whitespace.
pub proof fn lemma_trim_plain_end(u: Seq<char>)
    requires
        trim(u) == u,
        u.len() > 0,
    ensures
        !is_ws(u.last()),
{
    let ts = trim_start(u);
    lemma_ws_bounds(u);
    lemma_ws_bounds(ts);
    assert(trail_ws(ts) == 0);
    assert(ts.len() == u.len());
    assert(lead_ws(u) == 0);
    assert(ts =~= u);
    lemma_trail_ws_stop(u);
}

/// Trimming ignores a carriage return that `lines_of` would strip.
pub proof fn lemma_trim_strip_cr(l: Seq<char>)
    ensures
        trim(strip_cr(l)) == trim(l),
{
    if l.len() > 0 && l.last() == '\r' {
        lemma_trim_drop_last_ws(l);
    }
}

/// No line of a text holds a newline.
pub proof fn lemma_lines_no_nl(s: Seq<char>)
    ensures
        forall|i: int, k: int| 0 <= i < lines_of(s).len() && 0 <= k < lines_of(s)[i].len() ==> lines_of(s)[i][k] != '\n',
    decreases s.len(),
{
    reveal(lines_of);
    if s.len() > 0 {
        let i = first_nl(s);
        if 0 <= i < s.len() {
            let rest = s.subrange(i + 1, s.len() as int);
            lemma_lines_no_nl(rest);
            let first = strip_cr(s.subrange(0, i));
            assert(lines_of(s) == seq![first] + lines_of(rest));
            assert forall|j: int, k: int| 0 <= j < lines_of(s).len() && 0 <= k < lines_of(s)[j].len()
                implies lines_of(s)[j][k] != '\n' by {
                if j == 0 {
                    assert(lines_of(s)[0] == first);
                    assert(first[k] == s[k]);
                } else {
                    assert(lines_of(s)[j] == lines_of(rest)[j - 1]);
                }
            }
        } else {
            assert(lines_of(s) == seq![s]);
            assert forall|j: int, k: int| 0 <= j < lines_of(s).len() && 0 <= k < lines_of(s)[j].len()
                implies lines_of(s)[j][k] != '\n' by {
                if s[k] == '\n' {
                    lemma_has_first_nl(s, k);
                }
            }
        }
    }
}

/// Without a newline, `first_nl` says so.
pub proof fn lemma_no_nl(s: Seq<char>)
    requires
        forall|k: int| 0 <= k < s.len() ==> s[k] != '\n',
    ensures
        first_nl(s) == -1,
{
}

/// The characters of a string slice, in order.
pub fn chars_of(s: &str) -> (v: Vec<char>)
    ensures
        v@ == s@,
{
    let mut v: Vec<char> = Vec::new();
    for c in it: s.chars()
        invariant
            v@ == it.seq().take(it.index() as int),
    {
        v.push(c);
    }
    v
}

/// A string holding exactly the given characters.
pub fn string_of(v: &Vec<char>) -> (s: String)
    ensures
        s@ == v@,
{
    let mut s = String::new();
    let mut i: usize = 0;
    while i < v.len()
        invariant
            i <= v.len(),
            s@ == v@.take(i as int),
        decreases v.len() - i,
    {
        s.push(v[i]);
        i = i + 1;
        assert(s@ == v@.take(i as int));
    }
    assert(v@.take(v.len() as int) == v@);
    s
}

/// Whether two character vectors hold the same characters.
pub fn seq_eq(a: &Vec<char>, b: &Vec<char>) -> (r: bool)
    ensures
        r == (a@ == b@),
{
    if a.len() != b.len() {
        return false;
    }
    let mut i: usize = 0;
    while i < a.len()
        invariant
            a.len() == b.len(),
            i <= a.len(),
            forall|k: int| 0 <= k < i ==> a@[k] == b@[k],
        decreases a.len() - i,
    {
        if a[i] != b[i] {
            return false;
        }
        i = i + 1;
    }
    assert(a@ =~= b@);
    true
}

/// Whether two string slices are equal.
pub fn str_eq(a: &str, b: &str) -> (r: bool)
    ensures
        r == (a@ == b@),
{
    let va = chars_of(a);
    let vb = chars_of(b);
    seq_eq(&va, &vb)
}

/// Whether `s[at..]` begins with `p`.
pub fn matches_at(s: &Vec<char>, p: &Vec<char>, at: usize) -> (r: bool)
    requires
        at <= s.len(),
    ensures
        r == occurs_at(s@, p@, at as int),
{
    if p.len() > s.len() - at {
        return false;
    }
    let mut k: usize = 0;
    while k < p.len()
        invariant
            at + p.len() <= s.len(),
            k <= p.len(),
            forall|j: int| 0 <= j < k ==> s@[at + j] == p@[j],
        decreases p.len() - k,
    {
        if s[at + k] != p[k] {
            assert(s@.subrange(at as int, at + p.len())[k as int] != p@[k as int]);
            return false;
        }
        k = k + 1;
    }
    assert(s@.subrange(at as int, at + p.len()) =~= p@);
    true
}

/// Whether `s` begins with `p`.
pub fn starts_with_vec(s: &Vec<char>, p: &Vec<char>) -> (r: bool)
    ensures
        r == starts_with(s@, p@),
{
    matches_at(s, p, 0)
}

/// Whether `s` ends with `p`.
pub fn ends_with_vec(s: &Vec<char>, p: &Vec<char>) -> (r: bool)
    ensures
        r == ends_with(s@, p@),
{
    if p.len() > s.len() {
        return false;
    }
    matches_at(s, p, s.len() - p.len())
}

/// Index of the first occurrence of `p` in `s`, if any.
pub fn find_vec(s: &Vec<char>, p: &Vec<char>) -> (r: Option<usize>)
    ensures
        match r {
            Some(i) => occurs_at(s@, p@, i as int) && forall|j: int| 0 <= j < i ==> !occurs_at(s@, p@, j),
            None => !contains(s@, p@),
        },
{
    if p.len() > s.len() {
        assert forall|j: int| !occurs_at(s@, p@, j) by {}
        return None;
    }
    if p.len() == 0 {
        assert(s@.subrange(0, 0) =~= p@);
        return Some(0);
    }
    let mut i: usize = 0;
    while i <= s.len() - p.len()
        invariant
            0 < p.len() <= s.len(),
            i <= s.len() - p.len() + 1,
            forall|j: int| 0 <= j < i ==> !occurs_at(s@, p@, j),
        decreases s.len() - p.len() + 1 - i,
    {
        if matches_at(s, p, i) {
            return Some(i);
        }
        i = i + 1;
    }
    assert forall|j: int| !occurs_at(s@, p@, j) by {
        if 0 <= j && j + p@.len() <= s@.len() {
            assert(j < i);
        }
    }
    None
}

/// Whether `p` occurs in `s`.
pub fn contains_vec(s: &Vec<char>, p: &Vec<char>) -> (r: bool)
    ensures
        r == contains(s@, p@),
{
    match find_vec(s, p) {
        Some(i) => true,
        None => false,
    }
}

/// Whether a character is Unicode whitespace.
pub fn is_ws_char(c: char) -> (r: bool)
    ensures
        r == is_ws(c),
{
    c == ' ' || ('\t' <= c && c <= '\r') || c == '\u{85}' || c == '\u{A0}' || c == '\u{1680}'
        || ('\u{2000}' <= c && c <= '\u{200A}') || c == '\u{2028}' || c == '\u{2029}'
        || c == '\u{202F}' || c == '\u{205F}' || c == '\u{3000}'
}

pub proof fn lemma_lead_ws(s: Seq<char>, n: int)
    requires
        0 <= n <= s.len(),
        forall|k: int| 0 <= k < n ==> is_ws(s[k]),
        n == s.len() || !is_ws(s[n]),
    ensures
        lead_ws(s) == n,
    decreases n,
{
    if n > 0 {
        lemma_lead_ws(s.drop_first(), n - 1);
    }
}

pub proof fn lemma_trail_ws(s: Seq<char>, n: int)
    requires
        0 <= n <= s.len(),
        forall|k: int| s.len() - n <= k < s.len() ==> is_ws(s[k]),
        n == s.len() || !is_ws(s[s.len() - n - 1]),
    ensures
        trail_ws(s) == n,
    decreases n,
{
    if n > 0 {
        lemma_trail_ws(s.drop_last(), n - 1);
    }
}

/// The characters of `s[lo..hi]`.
pub fn slice_vec(s: &Vec<char>, lo: usize, hi: usize) -> (r: Vec<char>)
    requires
        lo <= hi <= s.len(),
    ensures
        r@ == s@.subrange(lo as int, hi as int),
{
    let mut r: Vec<char> = Vec::new();
    let mut i = lo;
    while i < hi
        invariant
            lo <= i <= hi <= s.len(),
            r@ == s@.subrange(lo as int, i as int),
        decreases hi - i,
    {
        r.push(s[i]);
        i = i + 1;
        assert(r@ =~= s@.subrange(lo as int, i as int));
    }
    r
}

/// `s` with leading and trailing whitespace removed.
pub fn trim_vec(s: &Vec<char>) -> (r: Vec<char>)
    ensures
        r@ == trim(s@),
{
    let mut lo: usize = 0;
    while lo < s.len() && is_ws_char(s[lo])
        invariant
            lo <= s.len(),
            forall|k: int| 0 <= k < lo ==> is_ws(s@[k]),
        decreases s.len() - lo,
    {
        lo = lo + 1;
    }
    proof {
        lemma_lead_ws(s@, lo as int);
    }
    let ghost t = s@.subrange(lo as int, s@.len() as int);
    let mut hi: usize = s.len();
    while hi > lo && is_ws_char(s[hi - 1])
        invariant
            lo <= hi <= s.len(),
            t == s@.subrange(lo as int, s@.len() as int),
            forall|k: int| hi <= k < s.len() ==> is_ws(s@[k]),
        decreases hi,
    {
        hi = hi - 1;
    }
    proof {
        let n = s.len() - hi;
        assert forall|k: int| t.len() - n <= k < t.len() implies is_ws(t[k]) by {
            assert(t[k] == s@[lo + k]);
        }
        if n != t.len() {
            assert(t[t.len() - n - 1] == s@[hi - 1]);
        }
        lemma_trail_ws(t, n as int);
    }
    let r = slice_vec(s, lo, hi);
    assert(r@ =~= trim(s@));
    r
}

/// `str::trim` as a new string.
pub fn trim_str(s: &str) -> (r: String)
    ensures
        r@ == trim(s@),
{
    let v = chars_of(s);
    let t = trim_vec(&v);
    string_of(&t)
}

/// One step of `lines_of`: the line ending at a newline, then the rest.
pub proof fn lemma_lines_step(s: Seq<char>, start: int, j: int)
    requires
        0 <= start <= j < s.len(),
        s[j] == '\n',
        forall|k: int| start <= k < j ==> s[k] != '\n',
    ensures
        lines_of(s.subrange(start, s.len() as int)) == seq![strip_cr(s.subrange(start, j))]
            + lines_of(s.subrange(j + 1, s.len() as int)),
{
    reveal(lines_of);
    let rest = s.subrange(start, s.len() as int);
    assert forall|k: int| 0 <= k < j - start implies rest[k] != '\n' by {
        assert(rest[k] == s[start + k]);
    }
    lemma_first_nl(rest, j - start);
    assert(rest.subrange(0, j - start) =~= s.subrange(start, j));
    assert(rest.subrange(j - start + 1, rest.len() as int) =~= s.subrange(j + 1, s.len() as int));
}

/// The last step of `lines_of`: a final line without a newline.
pub proof fn lemma_lines_last(s: Seq<char>, start: int)
    requires
        0 <= start < s.len(),
        forall|k: int| start <= k < s.len() ==> s[k] != '\n',
    ensures
        lines_of(s.subrange(start, s.len() as int)) == seq![s.subrange(start, s.len() as int)],
{
    reveal(lines_of);
    let rest = s.subrange(start, s.len() as int);
    assert forall|k: int| 0 <= k < rest.len() implies rest[k] != '\n' by {
        assert(rest[k] == s[start + k]);
    }
    lemma_no_nl(rest);
}

/// The lines of `s`, as `str::lines` yields them.
pub fn lines_vec(s: &Vec<char>) -> (r: Vec<Vec<char>>)
    ensures
        r@.len() == lines_of(s@).len(),
        forall|i: int| 0 <= i < r@.len() ==> #[trigger] r@[i]@ == lines_of(s@)[i],
{
    let mut out: Vec<Vec<char>> = Vec::new();
    let ghost mut done: Seq<Seq<char>> = seq![];
    let mut start: usize = 0;
    assert(s@.subrange(0, s@.len() as int) =~= s@);
    while start < s.len()
        invariant
            start <= s.len(),
            out@.len() == done.len(),
            forall|i: int| 0 <= i < out@.len() ==> #[trigger] out@[i]@ == done[i],
            lines_of(s@) == done + lines_of(s@.subrange(start as int, s@.len() as int)),
        decreases s.len() - start,
    {
        let mut j = start;
        while j < s.len() && s[j] != '\n'
            invariant
                start <= j <= s.len(),
                forall|k: int| start <= k < j ==> s@[k] != '\n',
            decreases s.len() - j,
        {
            j = j + 1;
        }
        if j < s.len() {
            proof {
                lemma_lines_step(s@, start as int, j as int);
            }
            let mut end = j;
            if end > start && s[end - 1] == '\r' {
                end = end - 1;
            }
            let line = slice_vec(s, start, end);
            assert(line@ == strip_cr(s@.subrange(start as int, j as int)));
            out.push(line);
            proof {
                let old_done = done;
                done = done.push(strip_cr(s@.subrange(start as int, j as int)));
                assert(done + lines_of(s@.subrange(j + 1, s@.len() as int)) =~= old_done
                    + lines_of(s@.subrange(start as int, s@.len() as int)));
            }
            start = j + 1;
        } else {
            proof {
                lemma_lines_last(s@, start as int);
            }
            let line = slice_vec(s, start, s.len());
            out.push(line);
            proof {
                let old_done = done;
                done = done.push(s@.subrange(start as int, s@.len() as int));
                reveal(lines_of);
                assert(s@.subrange(s.len() as int, s@.len() as int) =~= Seq::<char>::empty());
                assert(done + lines_of(s@.subrange(s.len() as int, s@.len() as int)) =~= old_done
                    + lines_of(s@.subrange(start as int, s@.len() as int)));
            }
            start = s.len();
        }
    }
    proof {
        reveal(lines_of);
        assert(s@.subrange(start as int, s@.len() as int) =~= Seq::<char>::empty());
        assert(done + lines_of(Seq::<char>::empty()) =~= done);
    }
    out
}

/// Index of the last occurrence of `p` in `s`, or `-1`.
pub open spec fn last_occ(s: Seq<char>, p: Seq<char>) -> int {
    if exists|i: int| occurs_at(s, p, i) && (forall|j: int| i < j ==> !occurs_at(s, p, j)) {
        choose|i: int| occurs_at(s, p, i) && (forall|j: int| i < j ==> !occurs_at(s, p, j))
    } else {
        -1
    }
}

/// What follows the last occurrence of `p` in `s`, or all of `s` without one
/// (the first item that `str::rsplit` yields).
pub open spec fn after_last(s: Seq<char>, p: Seq<char>) -> Seq<char> {
    let i = last_occ(s, p);
    if 0 <= i && i + p.len() <= s.len() {
        s.subrange(i + p.len(), s.len() as int)
    } else {
        s
    }
}

pub proof fn lemma_last_occ(s: Seq<char>, p: Seq<char>, i: int)
    requires
        occurs_at(s, p, i),
        forall|j: int| i < j ==> !occurs_at(s, p, j),
    ensures
        last_occ(s, p) == i,
{
    let k = last_occ(s, p);
    assert(occurs_at(s, p, k) && (forall|j: int| k < j ==> !occurs_at(s, p, j)));
    if k < i {
        assert(!occurs_at(s, p, i));
    } else if i < k {
        assert(!occurs_at(s, p, k));
    }
}

/// Index of the last occurrence of `p` in `s`, if any.
pub fn rfind_vec(s: &Vec<char>, p: &Vec<char>) -> (r: Option<usize>)
    ensures
        match r {
            Some(i) => last_occ(s@, p@) == i && occurs_at(s@, p@, i as int),
            None => last_occ(s@, p@) == -1 && forall|j: int| !occurs_at(s@, p@, j),
        },
{
    if p.len() > s.len() {
        assert forall|j: int| !occurs_at(s@, p@, j) by {}
        return None;
    }
    if p.len() == 0 {
        proof {
            assert(s@.subrange(s@.len() as int, s@.len() as int) =~= p@);
            lemma_last_occ(s@, p@, s@.len() as int);
        }
        return Some(s.len());
    }
    let mut i: usize = s.len() - p.len() + 1;
    while i > 0
        invariant
            0 < p.len() <= s.len(),
            i <= s.len() - p.len() + 1,
            forall|j: int| i <= j ==> !occurs_at(s@, p@, j),
        decreases i,
    {
        if matches_at(s, p, i - 1) {
            proof {
                lemma_last_occ(s@, p@, i - 1);
            }
            return Some(i - 1);
        }
        i = i - 1;
    }
    None
}

/// What follows the last occurrence of `p` in `s`, or all of `s`.
pub fn after_last_vec(s: &Vec<char>, p: &Vec<char>) -> (r: Vec<char>)
    ensures
        r@ == after_last(s@, p@),
{
    match rfind_vec(s, p) {
        Some(i) => {
            assert(occurs_at(s@, p@, i as int));
            let pl = p.len();
            let sl = s.len();
            assert(i + pl <= sl);
            slice_vec(s, i + pl, sl)
        },
        None => {
            assert(s@.subrange(0, s@.len() as int) =~= s@);
            slice_vec(s, 0, s.len())
        },
    }
}


/// Views of a list of strings.
pub open spec fn views(v: Seq<String>) -> Seq<Seq<char>> {
    v.map_values(|s: String| s@)
}

/// The parts joined with `sep` between each two neighbours.
pub open spec fn join_with(parts: Seq<Seq<char>>, sep: Seq<char>) -> Seq<char>
    decreases parts.len(),
{
    if parts.len() == 0 {
        Seq::empty()
    } else if parts.len() == 1 {
        parts[0]
    } else {
        join_with(parts.drop_last(), sep) + sep + parts.last()
    }
}

/// Appends the characters of `t` to `out`.
pub fn append_str(out: &mut String, t: &str)
    ensures
        final(out)@ == old(out)@ + t@,
{
    let ghost start = out@;
    let v = chars_of(t);
    let mut i: usize = 0;
    while i < v.len()
        invariant
            i <= v.len(),
            v@ == t@,
            out@ == start + v@.take(i as int),
        decreases v.len() - i,
    {
        out.push(v[i]);
        assert(start + v@.take(i as int + 1) =~= start + v@.take(i as int) + seq![v@[i as int]]);
        i = i + 1;
    }
    assert(v@.take(v.len() as int) =~= t@);
}

/// The strings joined with `sep` between each two neighbours.
pub fn join_strings(parts: &Vec<String>, sep: &str) -> (r: String)
    ensures
        r@ == join_with(views(parts@), sep@),
{
    let mut out = String::new();
    let mut i: usize = 0;
    while i < parts.len()
        invariant
            i <= parts.len(),
            out@ == join_with(views(parts@).take(i as int), sep@),
        decreases parts.len() - i,
    {
        let ghost prev = views(parts@).take(i as int);
        if i > 0 {
            append_str(&mut out, sep);
        }
        append_str(&mut out, parts[i].as_str());
        let ghost next = views(parts@).take(i as int + 1);
        assert(next.drop_last() =~= prev);
        assert(next.last() == parts@[i as int]@);
        i = i + 1;
    }
    assert(views(parts@).take(parts.len() as int) =~= views(parts@));
    out
}


/// Whether `p` occurs in `s`.
pub fn contains_str(s: &str, p: &str) -> (r: bool)
    ensures
        r == contains(s@, p@),
{
    let sv = chars_of(s);
    let pv = chars_of(p);
    contains_vec(&sv, &pv)
}


/// Index of the first occurrence of `p` in `s`, or `-1`.
pub open spec fn first_occ(s: Seq<char>, p: Seq<char>) -> int {
    if exists|i: int| occurs_at(s, p, i) && (forall|k: int| 0 <= k < i ==> !occurs_at(s, p, k)) {
        choose|i: int| occurs_at(s, p, i) && (forall|k: int| 0 <= k < i ==> !occurs_at(s, p, k))
    } else {
        -1
    }
}

/// The first occurrence is the one found by a scan.
pub proof fn lemma_first_occ(s: Seq<char>, p: Seq<char>, i: int)
    requires
        occurs_at(s, p, i),
        forall|k: int| 0 <= k < i ==> !occurs_at(s, p, k),
    ensures
        first_occ(s, p) == i,
{
    let j = first_occ(s, p);
    assert(occurs_at(s, p, j) && (forall|k: int| 0 <= k < j ==> !occurs_at(s, p, k)));
    if j < i {
        assert(!occurs_at(s, p, j));
    } else if i < j {
        assert(!occurs_at(s, p, i));
    }
}

/// Index of the first whitespace character of `s`, or its length.
pub open spec fn first_ws(s: Seq<char>) -> int {
    if exists|i: int| 0 <= i < s.len() && is_ws(s[i]) && (forall|k: int| 0 <= k < i ==> !is_ws(s[k])) {
        choose|i: int| 0 <= i < s.len() && is_ws(s[i]) && (forall|k: int| 0 <= k < i ==> !is_ws(s[k]))
    } else {
        s.len() as int
    }
}

/// The first whitespace-separated word of `s`, if it has one.
pub open spec fn first_word(s: Seq<char>) -> Option<Seq<char>> {
    let t = trim_start(s);
    if t.len() == 0 {
        None
    } else {
        Some(t.subrange(0, first_ws(t)))
    }
}

/// The first whitespace-separated word of a character vector.
pub fn first_word_vec(s: &Vec<char>) -> (r: Option<Vec<char>>)
    ensures
        match first_word(s@) {
            Some(w) => r matches Some(v) && v@ == w,
            None => r is None,
        },
{
    let mut i: usize = 0;
    while i < s.len() && is_ws_char(s[i])
        invariant
            i <= s.len(),
            forall|k: int| 0 <= k < i ==> is_ws(s@[k]),
        decreases s.len() - i,
    {
        i = i + 1;
    }
    proof {
        lemma_lead_ws(s@, i as int);
    }
    if i == s.len() {
        return None;
    }
    let ghost t = trim_start(s@);
    let mut j = i;
    while j < s.len() && !is_ws_char(s[j])
        invariant
            i <= j <= s.len(),
            t == s@.subrange(i as int, s@.len() as int),
            forall|k: int| i <= k < j ==> !is_ws(s@[k]),
        decreases s.len() - j,
    {
        j = j + 1;
    }
    proof {
        if j < s.len() {
            assert(is_ws(t[j - i]));
            assert forall|k: int| 0 <= k < j - i implies !is_ws(t[k]) by {
                assert(t[k] == s@[i + k]);
            }
            let c = first_ws(t);
            assert(0 <= c < t.len() && is_ws(t[c]) && (forall|k: int| 0 <= k < c ==> !is_ws(t[k])));
            if c < j - i {
                assert(t[c] == s@[i + c]);
            } else if c > j - i {
                assert(!is_ws(t[j - i]));
            }
        } else {
            assert forall|k: int| 0 <= k < t.len() implies !is_ws(t[k]) by {
                assert(t[k] == s@[i + k]);
            }
            if exists|x: int| 0 <= x < t.len() && is_ws(t[x]) && (forall|k: int| 0 <= k < x ==> !is_ws(t[k])) {
                let x = choose|x: int| 0 <= x < t.len() && is_ws(t[x]) && (forall|k: int| 0 <= k < x ==> !is_ws(t[k]));
                assert(!is_ws(t[x]));
            }
        }
        assert(t.subrange(0, j - i) =~= s@.subrange(i as int, j as int));
    }
    Some(slice_vec(s, i, j))
}

} // verus!
