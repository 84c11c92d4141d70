//! sshd configuration and host keys for live images.

use vstd::prelude::*;
use crate::text;
use crate::text::{chars_of, lines_vec, string_of, trim_vec, starts_with_vec};
use crate::kernel::join_lines;

verus! {

/// Whether some line of `config`, trimmed, is exactly `target`.
pub open spec fn has_line(config: Seq<char>, target: Seq<char>) -> bool {
    exists|i: int| 0 <= i < text::lines_of(config).len() && text::trim(#[trigger] text::lines_of(config)[i]) == target
}

/// A line that starts with the setting name is commented out.
pub open spec fn comment_setting(l: Seq<char>, setting: Seq<char>) -> Seq<char> {
    if text::starts_with(l, setting) {
        seq!['#'] + l
    } else {
        l
    }
}

/// The config lines with those starting with `setting` commented out.
pub open spec fn comment_lines(ls: Seq<Seq<char>>, setting: Seq<char>) -> Seq<Seq<char>> {
    Seq::new(ls.len(), |i: int| comment_setting(ls[i], setting))
}

/// Make `setting value` an active line of the config: unless a line already
/// reads so (trimmed), lines starting with the setting are commented out and
/// the setting is appended.
pub open spec fn set_sshd_option(config: Seq<char>, setting: Seq<char>, value: Seq<char>) -> Seq<char> {
    let target = setting + seq![' '] + value;
    if has_line(config, target) {
        config
    } else {
        let joined = join_lines(comment_lines(text::lines_of(config), setting));
        let c = if joined.len() > 0 && joined.last() == '\n' { joined } else { joined + seq!['\n'] };
        c + target + seq!['\n']
    }
}

/// The sshd configuration of a live image: root login, password and public
/// key authentication allowed.
pub open spec fn live_sshd_config(config: Seq<char>) -> Seq<char> {
    set_sshd_option(
        set_sshd_option(set_sshd_option(config, "PermitRootLogin"@, "yes"@), "PasswordAuthentication"@, "yes"@),
        "PubkeyAuthentication"@,
        "yes"@,
    )
}

fn push_vec(out: &mut Vec<char>, s: &Vec<char>)
    ensures
        final(out)@ == old(out)@ + s@,
{
    let mut i: usize = 0;
    while i < s.len()
        invariant
            i <= s.len(),
            out@ == old(out)@ + s@.take(i as int),
        decreases s.len() - i,
    {
        out.push(s[i]);
        i = i + 1;
        assert(out@ =~= old(out)@ + s@.take(i as int));
    }
    assert(s@.take(s.len() as int) =~= s@);
}

fn set_option_vec(config: &Vec<char>, setting: &str, value: &str) -> (r: Vec<char>)
    ensures
        r@ == set_sshd_option(config@, setting@, value@),
{
    let mut target = chars_of(setting);
    target.push(' ');
    let v = chars_of(value);
    push_vec(&mut target, &v);
    assert(target@ =~= setting@ + seq![' '] + value@);
    let ls = lines_vec(config);
    let ghost vs = text::lines_of(config@);
    let mut i: usize = 0;
    while i < ls.len()
        invariant
            i <= ls.len(),
            vs == text::lines_of(config@),
            ls@.len() == vs.len(),
            forall|k: int| 0 <= k < ls@.len() ==> #[trigger] ls@[k]@ == vs[k],
            forall|k: int| 0 <= k < i ==> text::trim(#[trigger] vs[k]) != target@,
            target@ == setting@ + seq![' '] + value@,
        decreases ls.len() - i,
    {
        let t = trim_vec(&ls[i]);
        if text::seq_eq(&t, &target) {
            assert(text::trim(vs[i as int]) == target@);
            assert(has_line(config@, target@));
            assert(config@.subrange(0, config@.len() as int) =~= config@);
            return text::slice_vec(config, 0, config.len());
        }
        i = i + 1;
    }
    assert(!has_line(config@, target@));
    let sv = chars_of(setting);
    let mut mapped: Vec<Vec<char>> = Vec::new();
    let mut j: usize = 0;
    while j < ls.len()
        invariant
            j <= ls.len(),
            vs == text::lines_of(config@),
            ls@.len() == vs.len(),
            sv@ == setting@,
            forall|k: int| 0 <= k < ls@.len() ==> #[trigger] ls@[k]@ == vs[k],
            mapped@.len() == j,
            forall|k: int| 0 <= k < j ==> #[trigger] mapped@[k]@ == comment_setting(vs[k], setting@),
        decreases ls.len() - j,
    {
        if starts_with_vec(&ls[j], &sv) {
            let mut l = Vec::new();
            l.push('#');
            push_vec(&mut l, &ls[j]);
            assert(l@ =~= seq!['#'] + vs[j as int]);
            mapped.push(l);
        } else {
            mapped.push(text::slice_vec(&ls[j], 0, ls[j].len()));
            assert(vs[j as int].subrange(0, vs[j as int].len() as int) =~= vs[j as int]);
        }
        j = j + 1;
    }
    proof {
        assert(mapped@.map_values(|l: Vec<char>| l@) =~= comment_lines(vs, setting@));
    }
    let mut out = crate::kernel::join_lines_vec(&mapped);
    if !(out.len() > 0 && out[out.len() - 1] == '\n') {
        out.push('\n');
    }
    let ghost c = out@;
    assert(c == (if join_lines(comment_lines(vs, setting@)).len() > 0 && join_lines(comment_lines(vs, setting@)).last() == '\n' { join_lines(comment_lines(vs, setting@)) } else { join_lines(comment_lines(vs, setting@)) + seq!['\n'] }));
    push_vec(&mut out, &target);
    out.push('\n');
    out
}

/// Configure sshd for a live image: `PermitRootLogin yes`,
/// `PasswordAuthentication yes` and `PubkeyAuthentication yes` become active
/// lines of the configuration.
pub fn configure_sshd(config: &str) -> (r: String)
    ensures
        r@ == live_sshd_config(config@),
{
    let c0 = chars_of(config);
    let c1 = set_option_vec(&c0, "PermitRootLogin", "yes");
    let c2 = set_option_vec(&c1, "PasswordAuthentication", "yes");
    let c3 = set_option_vec(&c2, "PubkeyAuthentication", "yes");
    string_of(&c3)
}

/// A joined text that ends in a newline comes from lines whose last is empty.
proof fn lemma_joined_ends_nl(ls: Seq<Seq<char>>)
    requires
        forall|i: int, k: int| 0 <= i < ls.len() && 0 <= k < ls[i].len() ==> ls[i][k] != '\n',
        join_lines(ls).len() > 0,
        join_lines(ls).last() == '\n',
    ensures
        ls.len() >= 2,
        ls.last().len() == 0,
        join_lines(ls) == join_lines(ls.drop_last()) + seq!['\n'],
{
    if ls.len() == 1 {
        assert(join_lines(ls) == ls[0]);
        assert(ls[0][ls[0].len() - 1] == '\n');
    }
    if ls.len() >= 2 && ls.last().len() > 0 {
        let j = join_lines(ls);
        assert(j.last() == ls.last().last());
        assert(ls.last()[ls.last().len() - 1] == ls[ls.len() - 1][ls.last().len() - 1]);
    }
    if ls.len() >= 2 {
        assert(join_lines(ls) =~= join_lines(ls.drop_last()) + seq!['\n']);
    }
}

/// The text kept before an appended setting: the lines joined, ending in a
/// newline.
pub open spec fn kept_text(cl: Seq<Seq<char>>) -> Seq<char> {
    let joined = join_lines(cl);
    if joined.len() > 0 && joined.last() == '\n' { joined } else { joined + seq!['\n'] }
}

/// The kept text ends in a newline, and each non-empty line is one of its lines.
proof fn lemma_kept_lines(cl: Seq<Seq<char>>)
    requires
        forall|i: int, k: int| 0 <= i < cl.len() && 0 <= k < cl[i].len() ==> cl[i][k] != '\n',
    ensures
        kept_text(cl).len() > 0,
        kept_text(cl).last() == '\n',
        forall|k: int| 0 <= k < cl.len() && cl[k].len() > 0 ==> k < text::lines_of(kept_text(cl)).len()
            && text::lines_of(kept_text(cl))[k] == text::strip_cr(cl[k]),
{
    let joined = join_lines(cl);
    if joined.len() > 0 && joined.last() == '\n' {
        lemma_joined_ends_nl(cl);
        let dl = cl.drop_last();
        assert forall|i: int, k: int| 0 <= i < dl.len() && 0 <= k < dl[i].len() implies dl[i][k] != '\n' by {
            assert(dl[i] == cl[i]);
        }
        crate::kernel::lemma_lines_of_joined(dl);
        assert forall|k: int| 0 <= k < cl.len() && cl[k].len() > 0 implies k < text::lines_of(kept_text(cl)).len()
            && text::lines_of(kept_text(cl))[k] == text::strip_cr(cl[k]) by {
            assert(k != cl.len() - 1);
            assert(dl[k] == cl[k]);
        }
    } else if cl.len() > 0 {
        crate::kernel::lemma_lines_of_joined(cl);
    }
}

/// The line `setting value`.
pub open spec fn option_line(setting: Seq<char>, value: Seq<char>) -> Seq<char> {
    setting + seq![' '] + value
}

/// Whether a line has no newline and no whitespace at either end.
pub open spec fn plain_line(t: Seq<char>) -> bool {
    &&& t.len() > 0
    &&& !text::is_ws(t[0])
    &&& !text::is_ws(t.last())
    &&& forall|k: int| 0 <= k < t.len() ==> t[k] != '\n'
}

/// Setting an option makes `setting value` an active line of the config,
/// whenever that line has no newline and no whitespace at either end.
pub proof fn law_set_option_active(config: Seq<char>, setting: Seq<char>, value: Seq<char>)
    requires
        plain_line(option_line(setting, value)),
    ensures
        has_line(set_sshd_option(config, setting, value), option_line(setting, value)),
{
    let target = option_line(setting, value);
    assert(target == setting + seq![' '] + value);
    if !has_line(config, target) {
        let ls = text::lines_of(config);
        let cl = comment_lines(ls, setting);
        text::lemma_lines_no_nl(config);
        assert forall|i: int, k: int| 0 <= i < cl.len() && 0 <= k < cl[i].len() implies cl[i][k] != '\n' by {
            if text::starts_with(ls[i], setting) {
                assert(cl[i] == seq!['#'] + ls[i]);
                if k > 0 {
                    assert(cl[i][k] == ls[i][k - 1]);
                }
            }
        }
        lemma_kept_lines(cl);
        let c = kept_text(cl);
        let r = set_sshd_option(config, setting, value);
        assert(r == c + target + seq!['\n']);
        assert(r =~= c + (target + seq!['\n']));
        text::lemma_lines_append(c, target + seq!['\n']);
        crate::kernel::lemma_line_nl(target);
        assert(text::strip_cr(target) == target);
        text::lemma_trim_plain(target);
        let i = text::lines_of(c).len() as int;
        assert(text::lines_of(r)[i] == target);
        assert(text::trim(text::lines_of(r)[i]) == target);
    }
}

/// Setting one option keeps an active line `t` that differs from the
/// setting's name at some position `j`.
proof fn lemma_set_option_keeps(config: Seq<char>, setting: Seq<char>, value: Seq<char>, t: Seq<char>, j: int)
    requires
        has_line(config, t),
        setting.len() > 0,
        !text::is_ws(setting[0]),
        0 <= j < t.len(),
        j < setting.len(),
        t[j] != setting[j],
    ensures
        has_line(set_sshd_option(config, setting, value), t),
{
    let target = setting + seq![' '] + value;
    if !has_line(config, target) {
        let ls = text::lines_of(config);
        let k = choose|i: int| 0 <= i < ls.len() && text::trim(#[trigger] ls[i]) == t;
        let l = ls[k];
        if text::starts_with(l, setting) {
            assert(l[0] == setting[0]);
            text::lemma_lead_ws(l, 0);
            assert(text::trim_start(l) =~= l);
            text::lemma_ws_bounds(l);
            assert(t == l.subrange(0, l.len() - text::trail_ws(l)));
            assert(t[j] == l[j]);
            assert(l.subrange(0, setting.len() as int)[j] == l[j]);
        }
        if l.len() == 0 {
            assert(text::trim_start(l).len() == 0);
        }
        let cl = comment_lines(ls, setting);
        assert(cl[k] == l);
        text::lemma_lines_no_nl(config);
        assert forall|i: int, q: int| 0 <= i < cl.len() && 0 <= q < cl[i].len() implies cl[i][q] != '\n' by {
            if text::starts_with(ls[i], setting) {
                assert(cl[i] == seq!['#'] + ls[i]);
                if q > 0 {
                    assert(cl[i][q] == ls[i][q - 1]);
                }
            }
        }
        lemma_kept_lines(cl);
        let c = kept_text(cl);
        let r = set_sshd_option(config, setting, value);
        assert(r =~= c + (target + seq!['\n']));
        text::lemma_lines_append(c, target + seq!['\n']);
        assert(text::lines_of(r)[k] == text::lines_of(c)[k]);
        text::lemma_trim_strip_cr(l);
        assert(text::trim(text::lines_of(r)[k]) == t);
    }
}

/// The live sshd configuration has all three settings active, whatever the
/// configuration was before.
pub proof fn law_live_sshd_settings(config: Seq<char>)
    ensures
        has_line(live_sshd_config(config), "PermitRootLogin yes"@),
        has_line(live_sshd_config(config), "PasswordAuthentication yes"@),
        has_line(live_sshd_config(config), "PubkeyAuthentication yes"@),
{
    reveal_strlit("PermitRootLogin");
    reveal_strlit("PasswordAuthentication");
    reveal_strlit("PubkeyAuthentication");
    reveal_strlit("yes");
    reveal_strlit("PermitRootLogin yes");
    reveal_strlit("PasswordAuthentication yes");
    reveal_strlit("PubkeyAuthentication yes");
    let t1 = "PermitRootLogin yes"@;
    let t2 = "PasswordAuthentication yes"@;
    let t3 = "PubkeyAuthentication yes"@;
    assert(option_line("PermitRootLogin"@, "yes"@) =~= t1);
    assert(option_line("PasswordAuthentication"@, "yes"@) =~= t2);
    assert(option_line("PubkeyAuthentication"@, "yes"@) =~= t3);
    let c1 = set_sshd_option(config, "PermitRootLogin"@, "yes"@);
    let c2 = set_sshd_option(c1, "PasswordAuthentication"@, "yes"@);
    law_set_option_active(config, "PermitRootLogin"@, "yes"@);
    law_set_option_active(c1, "PasswordAuthentication"@, "yes"@);
    law_set_option_active(c2, "PubkeyAuthentication"@, "yes"@);
    lemma_set_option_keeps(c1, "PasswordAuthentication"@, "yes"@, t1, 1);
    lemma_set_option_keeps(c2, "PubkeyAuthentication"@, "yes"@, t1, 1);
    lemma_set_option_keeps(c2, "PubkeyAuthentication"@, "yes"@, t2, 1);
}

} // verus!
