//! Run identifiers and the output directory layout of builds.

use vstd::prelude::*;
use crate::paths;
use crate::paths::path_join;
use crate::text::{string_of};

verus! {

/// `<repo>/.artifacts/out/<distro>`
pub open spec fn output_dir_spec(repo_root: Seq<char>, distro_id: Seq<char>) -> Seq<char> {
    paths::join(paths::join(paths::join(repo_root, ".artifacts"@), "out"@), distro_id)
}

/// The output root of a distro: `<repo>/.artifacts/out/<distro_id>`.
pub fn output_dir_for(repo_root: &str, distro_id: &str) -> (r: String)
    ensures
        r@ == output_dir_spec(repo_root@, distro_id@),
{
    let a = path_join(repo_root, ".artifacts");
    let b = path_join(a.as_str(), "out");
    path_join(b.as_str(), distro_id)
}

/// The output directory of a stage: `<output root>/<stage_dir_name>`.
pub fn stage_output_dir_for(repo_root: &str, distro_id: &str, stage_dir_name: &str) -> (r: String)
    ensures
        r@ == paths::join(output_dir_spec(repo_root@, distro_id@), stage_dir_name@),
{
    let o = output_dir_for(repo_root, distro_id);
    path_join(o.as_str(), stage_dir_name)
}

/// The release directory of a product: `<output root>/releases/<product_dir_name>`.
pub fn product_release_dir_for(repo_root: &str, distro_id: &str, product_dir_name: &str) -> (r: String)
    ensures
        r@ == paths::join(paths::join(output_dir_spec(repo_root@, distro_id@), "releases"@), product_dir_name@),
{
    let o = output_dir_for(repo_root, distro_id);
    let rel = path_join(o.as_str(), "releases");
    path_join(rel.as_str(), product_dir_name)
}

/// The kernel output directory: `<repo>/.artifacts/kernel/<distro_id>/current`.
pub fn kernel_output_dir_for(repo_root: &str, distro_id: &str) -> (r: String)
    ensures
        r@ == paths::join(paths::join(paths::join(paths::join(repo_root@, ".artifacts"@), "kernel"@), distro_id@), "current"@),
{
    let a = path_join(repo_root, ".artifacts");
    let b = path_join(a.as_str(), "kernel");
    let c = path_join(b.as_str(), distro_id);
    path_join(c.as_str(), "current")
}

/// The base-62 digit of `d` (`0-9`, then `A-Z`, then `a-z`).
pub open spec fn b62_digit(d: int) -> char {
    if d < 10 {
        ('0' as int + d) as char
    } else if d < 36 {
        ('A' as int + d - 10) as char
    } else {
        ('a' as int + d - 36) as char
    }
}

/// The base-62 representation of `n`, most significant digit first.
pub open spec fn base62(n: nat) -> Seq<char>
    decreases n,
{
    if n < 62 {
        seq![b62_digit(n as int)]
    } else {
        base62(n / 62) + seq![b62_digit((n % 62) as int)]
    }
}

fn b62_digit_exec(d: u8) -> (c: char)
    requires
        d < 62,
    ensures
        c == b62_digit(d as int),
{
    if d < 10 {
        (48u8 + d) as char
    } else if d < 36 {
        (65u8 + d - 10) as char
    } else {
        (97u8 + d - 36) as char
    }
}

/// Encode a value in base 62 with the alphabet `0-9A-Za-z`.
pub fn base62_encode_u128(value: u128) -> (r: String)
    ensures
        r@ == base62(value as nat),
    decreases value,
{
    let v = base62_vec(value);
    string_of(&v)
}

fn base62_vec(value: u128) -> (r: Vec<char>)
    ensures
        r@ == base62(value as nat),
    decreases value,
{
    if value < 62 {
        let mut r = Vec::new();
        r.push(b62_digit_exec(value as u8));
        assert(r@ =~= base62(value as nat));
        r
    } else {
        let mut r = base62_vec(value / 62);
        r.push(b62_digit_exec((value % 62) as u8));
        r
    }
}

/// The number of leading `'0'` characters of `s`.
pub open spec fn lead_zeros(s: Seq<char>) -> int
    decreases s.len(),
{
    if s.len() > 0 && s[0] == '0' {
        1 + lead_zeros(s.drop_first())
    } else {
        0
    }
}

/// The entropy a stage run id encodes: nanoseconds since the epoch above bit
/// 32, the process id from bit 16, the low 16 bits of a sequence counter.
pub open spec fn run_id_entropy(nanos: u128, pid: u32, seq: u64) -> u128 {
    (nanos << 32u128) | ((pid as u128) << 16u128) | ((seq as u128) & 0xFFFFu128)
}

/// The id of a run: the entropy in base 62 without leading zeros (`"0"` when
/// nothing is left).
pub open spec fn run_id_spec(nanos: u128, pid: u32, seq: u64) -> Seq<char> {
    let s = base62(run_id_entropy(nanos, pid, seq) as nat);
    let t = s.subrange(lead_zeros(s), s.len() as int);
    if t.len() == 0 { seq!['0'] } else { t }
}

/// Why a run id could not be generated.
#[derive(Debug, PartialEq, Eq)]
pub enum RunIdError {
    /// The id would be longer than 20 characters and no longer sort by time.
    Overflow,
}

proof fn lemma_lead_zeros(s: Seq<char>, n: int)
    requires
        0 <= n <= s.len(),
        forall|k: int| 0 <= k < n ==> s[k] == '0',
        n == s.len() || s[n] != '0',
    ensures
        lead_zeros(s) == n,
    decreases n,
{
    if n > 0 {
        lemma_lead_zeros(s.drop_first(), n - 1);
    }
}

/// A sortable stage run id from the time in nanoseconds since the epoch, the
/// process id and a per-process sequence number.
pub fn generate_stage_run_id(nanos: u128, pid: u32, seq: u64) -> (r: Result<String, RunIdError>)
    ensures
        run_id_spec(nanos, pid, seq).len() <= 20 ==> (r matches Ok(id) && id@ == run_id_spec(nanos, pid, seq)),
        run_id_spec(nanos, pid, seq).len() > 20 ==> r == Err::<String, RunIdError>(RunIdError::Overflow),
{
    let entropy: u128 = (nanos << 32u128) | ((pid as u128) << 16u128) | ((seq as u128) & 0xFFFFu128);
    let v = base62_vec(entropy);
    let mut k: usize = 0;
    while k < v.len() && v[k] == '0'
        invariant
            k <= v.len(),
            forall|j: int| 0 <= j < k ==> v@[j] == '0',
        decreases v.len() - k,
    {
        k = k + 1;
    }
    proof {
        lemma_lead_zeros(v@, k as int);
    }
    let mut t = crate::text::slice_vec(&v, k, v.len());
    if t.len() == 0 {
        t.push('0');
        assert(t@ =~= seq!['0']);
    }
    if t.len() > 20 {
        return Err(RunIdError::Overflow);
    }
    Ok(string_of(&t))
}

/// Base-62 digits are in the order of their values.
proof fn lemma_b62_digit_mono(x: int, y: int)
    requires
        0 <= x <= y < 62,
    ensures
        b62_digit(x) <= b62_digit(y),
        x < y ==> b62_digit(x) < b62_digit(y),
{
}

/// Appending characters in order to one prefix keeps the order.
proof fn lemma_lex_push_same(p: Seq<char>, x: char, y: char)
    requires
        x <= y,
    ensures
        crate::tarball::lex_le(p.push(x), p.push(y)),
    decreases p.len(),
{
    if p.len() > 0 {
        lemma_lex_push_same(p.drop_first(), x, y);
        assert(p.push(x).drop_first() =~= p.drop_first().push(x));
        assert(p.push(y).drop_first() =~= p.drop_first().push(y));
    } else {
        assert(p.push(x).drop_first() =~= Seq::<char>::empty());
        assert(p.push(y).drop_first() =~= Seq::<char>::empty());
        assert(crate::tarball::lex_le(Seq::<char>::empty(), Seq::<char>::empty()));
    }
}

/// Appending to two ordered, different prefixes of one length keeps the order.
proof fn lemma_lex_push_diff(pa: Seq<char>, pb: Seq<char>, x: char, y: char)
    requires
        pa.len() == pb.len(),
        crate::tarball::lex_le(pa, pb),
        pa != pb,
    ensures
        crate::tarball::lex_le(pa.push(x), pb.push(y)),
    decreases pa.len(),
{
    if pa.len() == 0 {
        assert(pa =~= pb);
    } else if pa[0] == pb[0] {
        if pa.drop_first() == pb.drop_first() {
            assert(pa =~= seq![pa[0]] + pa.drop_first());
            assert(pb =~= seq![pb[0]] + pb.drop_first());
        }
        lemma_lex_push_diff(pa.drop_first(), pb.drop_first(), x, y);
        assert(pa.push(x).drop_first() =~= pa.drop_first().push(x));
        assert(pb.push(y).drop_first() =~= pb.drop_first().push(y));
    }
}

/// A positive number's base-62 form has no leading zero, and only numbers
/// from 62 on take more than one digit.
proof fn lemma_base62_shape(n: nat)
    ensures
        base62(n).len() >= 1,
        n >= 62 ==> base62(n).len() >= 2,
        n > 0 ==> base62(n)[0] != '0',
    decreases n,
{
    if n >= 62 {
        lemma_base62_shape(n / 62);
        assert(base62(n)[0] == base62(n / 62)[0]);
    }
}

/// Base-62 forms sort as the numbers they encode: a larger number never has
/// a shorter form, and forms of one length are in the character order of
/// their numbers, different for different numbers.
pub proof fn law_base62_order(a: nat, b: nat)
    requires
        a <= b,
    ensures
        base62(a).len() <= base62(b).len(),
        base62(a).len() == base62(b).len() ==> crate::tarball::lex_le(base62(a), base62(b)),
        a < b && base62(a).len() == base62(b).len() ==> base62(a) != base62(b),
    decreases b,
{
    lemma_base62_shape(a);
    lemma_base62_shape(b);
    if b < 62 {
        lemma_b62_digit_mono(a as int, b as int);
        lemma_lex_push_same(Seq::<char>::empty(), b62_digit(a as int), b62_digit(b as int));
        assert(Seq::<char>::empty().push(b62_digit(a as int)) =~= base62(a));
        assert(Seq::<char>::empty().push(b62_digit(b as int)) =~= base62(b));
        if a < b {
            assert(base62(a)[0] != base62(b)[0]);
        }
    } else if a >= 62 {
        let (qa, qb) = (a / 62, b / 62);
        law_base62_order(qa, qb);
        let (pa, pb) = (base62(qa), base62(qb));
        let (da, db) = (b62_digit((a % 62) as int), b62_digit((b % 62) as int));
        assert(base62(a) == pa.push(da));
        assert(base62(b) == pb.push(db));
        if pa.len() == pb.len() {
            if qa == qb {
                lemma_b62_digit_mono((a % 62) as int, (b % 62) as int);
                lemma_lex_push_same(pa, da, db);
                if a < b {
                    assert(base62(a)[pa.len() as int] != base62(b)[pa.len() as int]);
                }
            } else {
                lemma_lex_push_diff(pa, pb, da, db);
                assert(base62(a).drop_last() =~= pa);
                assert(base62(b).drop_last() =~= pb);
            }
        }
    }
}

/// Run ids sort as the entropy they encode: the id is the base-62 form of
/// the entropy, so a larger entropy never gives a shorter id, and ids of one
/// length are in the character order of their entropy.
pub proof fn law_run_ids_sort(n1: u128, p1: u32, s1: u64, n2: u128, p2: u32, s2: u64)
    requires
        run_id_entropy(n1, p1, s1) <= run_id_entropy(n2, p2, s2),
    ensures
        run_id_spec(n1, p1, s1) == base62(run_id_entropy(n1, p1, s1) as nat),
        run_id_spec(n2, p2, s2) == base62(run_id_entropy(n2, p2, s2) as nat),
        run_id_spec(n1, p1, s1).len() <= run_id_spec(n2, p2, s2).len(),
        run_id_spec(n1, p1, s1).len() == run_id_spec(n2, p2, s2).len()
            ==> crate::tarball::lex_le(run_id_spec(n1, p1, s1), run_id_spec(n2, p2, s2)),
{
    lemma_run_id_is_base62(run_id_entropy(n1, p1, s1) as nat);
    lemma_run_id_is_base62(run_id_entropy(n2, p2, s2) as nat);
    law_base62_order(run_id_entropy(n1, p1, s1) as nat, run_id_entropy(n2, p2, s2) as nat);
}

/// Stripping leading zeros from a base-62 form leaves it as it is, `"0"` aside.
proof fn lemma_run_id_is_base62(e: nat)
    ensures
        ({
            let s = base62(e);
            let t = s.subrange(lead_zeros(s), s.len() as int);
            (if t.len() == 0 { seq!['0'] } else { t }) == s
        }),
{
    let s = base62(e);
    lemma_base62_shape(e);
    if e == 0 {
        assert(s == seq![b62_digit(0)]);
        lemma_lead_zeros(s, 1);
    } else {
        lemma_lead_zeros(s, 0);
        assert(s.subrange(0, s.len() as int) =~= s);
    }
}

} // verus!
