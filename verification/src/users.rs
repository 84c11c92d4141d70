//! Users and groups: reading and extending passwd and group files.

use vstd::prelude::*;
use crate::text;
use crate::text::{chars_of, lines_vec, matches_at, slice_vec, string_of};

verus! {

/// Index of the first `c` in `s`, or `-1`.
pub open spec fn first_idx(s: Seq<char>, c: char) -> int {
    if exists|i: int| 0 <= i < s.len() && s[i] == c && (forall|k: int| 0 <= k < i ==> s[k] != c) {
        choose|i: int| 0 <= i < s.len() && s[i] == c && (forall|k: int| 0 <= k < i ==> s[k] != c)
    } else {
        -1
    }
}

/// The fields of `s` separated by `c`, as `str::split` yields them.
pub open spec fn split_on(s: Seq<char>, c: char) -> Seq<Seq<char>>
    decreases s.len(),
{
    let i = first_idx(s, c);
    if 0 <= i < s.len() {
        seq![s.subrange(0, i)] + split_on(s.subrange(i + 1, s.len() as int), c)
    } else {
        seq![s]
    }
}

proof fn lemma_first_idx(s: Seq<char>, c: char, i: int)
    requires
        0 <= i <= s.len(),
        forall|k: int| 0 <= k < i ==> s[k] != c,
        i == s.len() || s[i] == c,
    ensures
        first_idx(s, c) == (if i == s.len() { -1 } else { i }),
{
    if i < s.len() {
        let j = first_idx(s, c);
        assert(0 <= j < s.len() && s[j] == c && (forall|k: int| 0 <= k < j ==> s[k] != c));
        if j < i {
            assert(s[j] != c);
        } else if i < j {
            assert(s[i] != c);
        }
    }
}

/// The fields of `s` separated by `c`.
pub fn split_vec(s: &Vec<char>, c: char) -> (r: Vec<Vec<char>>)
    ensures
        r@.len() == split_on(s@, c).len(),
        forall|i: int| 0 <= i < r@.len() ==> #[trigger] r@[i]@ == split_on(s@, c)[i],
{
    let mut out: Vec<Vec<char>> = Vec::new();
    let ghost mut done: Seq<Seq<char>> = seq![];
    let mut start: usize = 0;
    assert(s@.subrange(0, s@.len() as int) =~= s@);
    loop
        invariant
            start <= s.len(),
            out@.len() == done.len(),
            forall|i: int| 0 <= i < out@.len() ==> #[trigger] out@[i]@ == done[i],
            split_on(s@, c) == done + split_on(s@.subrange(start as int, s@.len() as int), c),
        decreases s.len() - start,
    {
        let ghost rest = s@.subrange(start as int, s@.len() as int);
        let mut j = start;
        while j < s.len() && s[j] != c
            invariant
                start <= j <= s.len(),
                forall|k: int| start <= k < j ==> s@[k] != c,
            decreases s.len() - j,
        {
            j = j + 1;
        }
        proof {
            assert forall|k: int| 0 <= k < j - start implies rest[k] != c by {
                assert(rest[k] == s@[start + k]);
            }
            lemma_first_idx(rest, c, j - start);
        }
        let piece = slice_vec(s, start, j);
        out.push(piece);
        if j < s.len() {
            proof {
                assert(rest.subrange(0, j - start) =~= s@.subrange(start as int, j as int));
                assert(rest.subrange(j - start + 1, rest.len() as int) =~= s@.subrange(j + 1, s@.len() as int));
                let old_done = done;
                done = done.push(s@.subrange(start as int, j as int));
                assert(done + split_on(s@.subrange(j + 1, s@.len() as int), c) =~= old_done + split_on(rest, c));
            }
            start = j + 1;
        } else {
            proof {
                assert(s@.subrange(start as int, j as int) =~= rest);
                done = done.push(rest);
                assert(split_on(s@, c) =~= done);
            }
            return out;
        }
    }
}

pub open spec fn is_dec(c: char) -> bool {
    '0' <= c && c <= '9'
}

pub open spec fn all_dec(d: Seq<char>) -> bool {
    forall|k: int| 0 <= k < d.len() ==> is_dec(#[trigger] d[k])
}

pub open spec fn digit_val(c: char) -> int {
    c as int - '0' as int
}

/// The value of a string of decimal digits.
pub open spec fn digits_value(d: Seq<char>) -> int
    decreases d.len(),
{
    if d.len() == 0 {
        0
    } else {
        digits_value(d.drop_last()) * 10 + digit_val(d.last())
    }
}

/// What `u32::from_str` gives: an optional `+`, then at least one ASCII
/// digit, with a value that fits in 32 bits.
pub open spec fn parse_u32_spec(s: Seq<char>) -> Option<u32> {
    let d = if s.len() > 0 && s[0] == '+' { s.drop_first() } else { s };
    if d.len() > 0 && all_dec(d) && digits_value(d) <= u32::MAX {
        Some(digits_value(d) as u32)
    } else {
        None
    }
}

proof fn lemma_digits_value_nonneg(d: Seq<char>)
    requires
        all_dec(d),
    ensures
        digits_value(d) >= 0,
    decreases d.len(),
{
    if d.len() > 0 {
        lemma_digits_value_nonneg(d.drop_last());
    }
}

proof fn lemma_digits_value_grows(d: Seq<char>, i: int)
    requires
        0 <= i <= d.len(),
        all_dec(d),
    ensures
        digits_value(d.take(i)) <= digits_value(d),
    decreases d.len() - i,
{
    if i < d.len() {
        lemma_digits_value_grows(d, i + 1);
        assert(d.take(i + 1).drop_last() =~= d.take(i));
        lemma_digits_value_nonneg(d.take(i));
    } else {
        assert(d.take(i) =~= d);
    }
}

/// Parse a decimal `u32` as `u32::from_str` does.
pub fn parse_u32(s: &Vec<char>) -> (r: Option<u32>)
    ensures
        r == parse_u32_spec(s@),
{
    let start: usize = if s.len() > 0 && s[0] == '+' { 1 } else { 0 };
    let ghost d = if s@.len() > 0 && s@[0] == '+' { s@.drop_first() } else { s@ };
    assert(d =~= s@.subrange(start as int, s@.len() as int));
    if start == s.len() {
        return None;
    }
    let mut v: u64 = 0;
    let mut i = start;
    while i < s.len()
        invariant
            start <= i <= s.len(),
            start < s.len(),
            d == s@.subrange(start as int, s@.len() as int),
            d == (if s@.len() > 0 && s@[0] == '+' { s@.drop_first() } else { s@ }),
            forall|k: int| start <= k < i ==> is_dec(#[trigger] s@[k]),
            v == digits_value(d.take(i - start)),
            v <= u32::MAX,
        decreases s.len() - i,
    {
        let c = s[i];
        if !('0' <= c && c <= '9') {
            proof {
                assert(d[i - start] == c);
                assert(!is_dec(d[i - start]));
                assert(!all_dec(d));

            }
            return None;
        }
        proof {
            assert(d.take(i - start + 1).drop_last() =~= d.take(i - start));
            assert(d.take(i - start + 1).last() == c);
        }
        let dv = (c as u32 - '0' as u32) as u64;
        v = v * 10 + dv;
        i = i + 1;
        if v > 0xffff_ffffu64 {
            proof {
                if all_dec(d) {
                    lemma_digits_value_grows(d, i - start);
                }
            }
            return None;
        }
    }
    proof {
        assert(d.take(i - start) =~= d);
        assert forall|k: int| 0 <= k < d.len() implies is_dec(#[trigger] d[k]) by {
            assert(d[k] == s@[start + k]);
        }
    }
    Some(v as u32)
}

/// What looking a user up in a passwd file gives.
pub enum IdLookup {
    /// The user's UID and GID.
    Found(u32, u32),
    /// The file has no entry for the user.
    Missing,
    /// The entry's UID field is not a number; the field is given.
    BadUid(Seq<char>),
    /// The entry's GID field is not a number; the field is given.
    BadGid(Seq<char>),
}

/// Look a user up in the lines of a passwd file: the first line with at
/// least four `:`-separated fields whose first field is the user name.
pub open spec fn passwd_lookup(ls: Seq<Seq<char>>, user: Seq<char>) -> IdLookup
    decreases ls.len(),
{
    if ls.len() == 0 {
        IdLookup::Missing
    } else {
        let parts = split_on(ls[0], ':');
        if parts.len() >= 4 && parts[0] == user {
            match parse_u32_spec(parts[2]) {
                None => IdLookup::BadUid(parts[2]),
                Some(uid) => match parse_u32_spec(parts[3]) {
                    None => IdLookup::BadGid(parts[3]),
                    Some(gid) => IdLookup::Found(uid, gid),
                },
            }
        } else {
            passwd_lookup(ls.drop_first(), user)
        }
    }
}

/// Look a group up in the lines of a group file: the first line with at
/// least three `:`-separated fields whose first field is the group name.
pub open spec fn group_lookup(ls: Seq<Seq<char>>, group: Seq<char>) -> IdLookup
    decreases ls.len(),
{
    if ls.len() == 0 {
        IdLookup::Missing
    } else {
        let parts = split_on(ls[0], ':');
        if parts.len() >= 3 && parts[0] == group {
            match parse_u32_spec(parts[2]) {
                None => IdLookup::BadGid(parts[2]),
                Some(gid) => IdLookup::Found(gid, gid),
            }
        } else {
            group_lookup(ls.drop_first(), group)
        }
    }
}

/// Why a passwd or group file could not be used.
#[derive(Debug, PartialEq, Eq)]
pub enum UserDbError {
    /// The entry of the user has a UID field that is not a number.
    InvalidUid { name: String, value: String },
    /// The entry of the user or group has a GID field that is not a number.
    InvalidGid { name: String, value: String },
}

/// Read a user's UID and GID from the contents of a rootfs passwd file
/// (`None` when the file does not exist).
pub fn read_uid_from_rootfs(passwd: Option<&str>, username: &str) -> (r: Result<Option<(u32, u32)>, UserDbError>)
    ensures
        match passwd {
            None => r == Ok::<Option<(u32, u32)>, UserDbError>(None),
            Some(p) => match passwd_lookup(text::lines_of(p@), username@) {
                IdLookup::Found(u, g) => r == Ok::<Option<(u32, u32)>, UserDbError>(Some((u, g))),
                IdLookup::Missing => r == Ok::<Option<(u32, u32)>, UserDbError>(None),
                IdLookup::BadUid(v) => r matches Err(UserDbError::InvalidUid { name, value }) && name@ == username@ && value@ == v,
                IdLookup::BadGid(v) => r matches Err(UserDbError::InvalidGid { name, value }) && name@ == username@ && value@ == v,
            },
        },
{
    let p = match passwd {
        None => return Ok(None),
        Some(p) => p,
    };
    let pv = chars_of(p);
    let ls = lines_vec(&pv);
    let ghost vs = text::lines_of(p@);
    let uv = chars_of(username);
    let mut i: usize = 0;
    assert(vs.skip(0) =~= vs);
    while i < ls.len()
        invariant
            i <= ls.len(),
            vs == text::lines_of(p@),
            passwd == Some(p),
            uv@ == username@,
            ls@.len() == vs.len(),
            forall|k: int| 0 <= k < ls@.len() ==> #[trigger] ls@[k]@ == vs[k],
            passwd_lookup(vs, username@) == passwd_lookup(vs.skip(i as int), username@),
        decreases ls.len() - i,
    {
        proof {
            assert(vs.skip(i as int)[0] == ls@[i as int]@);
            assert(vs.skip(i as int).drop_first() =~= vs.skip(i + 1));
        }
        let parts = split_vec(&ls[i], ':');
        if parts.len() >= 4 && text::seq_eq(&parts[0], &uv) {
            match parse_u32(&parts[2]) {
                None => {
                    return Err(UserDbError::InvalidUid { name: String::from_str(username), value: string_of(&parts[2]) });
                },
                Some(uid) => match parse_u32(&parts[3]) {
                    None => {
                        return Err(UserDbError::InvalidGid { name: String::from_str(username), value: string_of(&parts[3]) });
                    },
                    Some(gid) => {
                        return Ok(Some((uid, gid)));
                    },
                },
            }
        }
        i = i + 1;
    }
    Ok(None)
}

/// Read a group's GID from the contents of a rootfs group file (`None` when
/// the file does not exist).
pub fn read_gid_from_rootfs(group: Option<&str>, groupname: &str) -> (r: Result<Option<u32>, UserDbError>)
    ensures
        match group {
            None => r == Ok::<Option<u32>, UserDbError>(None),
            Some(g) => match group_lookup(text::lines_of(g@), groupname@) {
                IdLookup::Found(gid, _) => r == Ok::<Option<u32>, UserDbError>(Some(gid)),
                IdLookup::Missing => r == Ok::<Option<u32>, UserDbError>(None),
                IdLookup::BadUid(v) => false,
                IdLookup::BadGid(v) => r matches Err(UserDbError::InvalidGid { name, value }) && name@ == groupname@ && value@ == v,
            },
        },
{
    let g = match group {
        None => return Ok(None),
        Some(g) => g,
    };
    let gv = chars_of(g);
    let ls = lines_vec(&gv);
    let ghost vs = text::lines_of(g@);
    let nv = chars_of(groupname);
    let mut i: usize = 0;
    assert(vs.skip(0) =~= vs);
    while i < ls.len()
        invariant
            i <= ls.len(),
            vs == text::lines_of(g@),
            group == Some(g),
            nv@ == groupname@,
            ls@.len() == vs.len(),
            forall|k: int| 0 <= k < ls@.len() ==> #[trigger] ls@[k]@ == vs[k],
            group_lookup(vs, groupname@) == group_lookup(vs.skip(i as int), groupname@),
        decreases ls.len() - i,
    {
        proof {
            assert(vs.skip(i as int)[0] == ls@[i as int]@);
            assert(vs.skip(i as int).drop_first() =~= vs.skip(i + 1));
        }
        let parts = split_vec(&ls[i], ':');
        if parts.len() >= 3 && text::seq_eq(&parts[0], &nv) {
            match parse_u32(&parts[2]) {
                None => {
                    return Err(UserDbError::InvalidGid { name: String::from_str(groupname), value: string_of(&parts[2]) });
                },
                Some(gid) => {
                    return Ok(Some(gid));
                },
            }
        }
        i = i + 1;
    }
    Ok(None)
}

/// The decimal digits of `n`.
pub open spec fn dec_str(n: nat) -> Seq<char>
    decreases n,
{
    if n < 10 {
        seq![(n + '0' as nat) as char]
    } else {
        dec_str(n / 10) + seq![((n % 10) + '0' as nat) as char]
    }
}

/// The decimal representation of `n`, as `format!("{}")` writes it.
pub fn u32_to_dec(n: u32) -> (r: Vec<char>)
    ensures
        r@ == dec_str(n as nat),
    decreases n,
{
    if n < 10 {
        let c = (n as u8 + 48u8) as char;
        let mut r = Vec::new();
        r.push(c);
        assert(r@ =~= dec_str(n as nat));
        r
    } else {
        let mut r = u32_to_dec(n / 10);
        let c = ((n % 10) as u8 + 48u8) as char;
        r.push(c);
        r
    }
}

/// The decimal representation of a 64-bit `n`, as `format!("{}")` writes it.
pub fn u64_to_dec(n: u64) -> (r: Vec<char>)
    ensures
        r@ == dec_str(n as nat),
    decreases n,
{
    if n < 10 {
        let c = (n as u8 + 48u8) as char;
        let mut r = Vec::new();
        r.push(c);
        assert(r@ =~= dec_str(n as nat));
        r
    } else {
        let mut r = u64_to_dec(n / 10);
        let c = ((n % 10) as u8 + 48u8) as char;
        r.push(c);
        r
    }
}

fn push_str_chars(out: &mut Vec<char>, s: &str)
    ensures
        final(out)@ == old(out)@ + s@,
{
    let v = chars_of(s);
    push_vec(out, &v);
}

fn push_vec(out: &mut Vec<char>, s: &Vec<char>)
    ensures
        final(out)@ == old(out)@ + s@,
{
    let mut i: usize = 0;
    while i < s.len()
        invariant
            i <= s.len(),
            out@ == old(out)@ + s@.take(i as int),
        decreases s.len() - i,
    {
        out.push(s[i]);
        i = i + 1;
        assert(out@ =~= old(out)@ + s@.take(i as int));
    }
    assert(s@.take(s.len() as int) =~= s@);
}

/// The passwd line of a user.
pub open spec fn passwd_entry(user: Seq<char>, uid: u32, gid: u32, home: Seq<char>, shell: Seq<char>) -> Seq<char> {
    user + ":x:"@ + dec_str(uid as nat) + ":"@ + dec_str(gid as nat) + ":"@ + user + ":"@ + home + ":"@ + shell + "\n"@
}

/// The group line of a group.
pub open spec fn group_entry(group: Seq<char>, gid: u32) -> Seq<char> {
    group + ":x:"@ + dec_str(gid as nat) + ":\n"@
}

/// Whether some line of `content` starts with `name:`, that is, whether the
/// file already has an entry for `name`.
pub open spec fn has_line_entry(content: Seq<char>, name: Seq<char>) -> bool {
    exists|i: int| #[trigger] text::occurs_at(content, name + seq![':'], i) && (i == 0 || content[i - 1] == '\n')
}

/// Whether some line of the file starts with `name:`.
pub fn has_entry(content: &str, name: &str) -> (r: bool)
    ensures
        r == has_line_entry(content@, name@),
{
    let cv = chars_of(content);
    let mut nv = chars_of(name);
    nv.push(':');
    assert(nv@ =~= name@ + seq![':']);
    let mut i: usize = 0;
    while i < cv.len()
        invariant
            i <= cv.len(),
            cv@ == content@,
            nv@ == name@ + seq![':'],
            forall|k: int| 0 <= k < i ==> !(#[trigger] text::occurs_at(cv@, nv@, k) && (k == 0 || cv@[k - 1] == '\n')),
        decreases cv.len() - i,
    {
        if (i == 0 || cv[i - 1] == '\n') && matches_at(&cv, &nv, i) {
            return true;
        }
        i = i + 1;
    }
    assert forall|k: int| #[trigger] text::occurs_at(cv@, nv@, k) implies !(k == 0 || cv@[k - 1] == '\n') by {
        if k >= i {
            assert(k + nv@.len() > cv@.len());
        }
    }
    false
}

fn passwd_entry_vec(user: &str, uid: u32, gid: u32, home: &str, shell: &str) -> (r: Vec<char>)
    ensures
        r@ == passwd_entry(user@, uid, gid, home@, shell@),
{
    let mut out = chars_of(user);
    push_str_chars(&mut out, ":x:");
    let u = u32_to_dec(uid);
    push_vec(&mut out, &u);
    push_str_chars(&mut out, ":");
    let g = u32_to_dec(gid);
    push_vec(&mut out, &g);
    push_str_chars(&mut out, ":");
    push_str_chars(&mut out, user);
    push_str_chars(&mut out, ":");
    push_str_chars(&mut out, home);
    push_str_chars(&mut out, ":");
    push_str_chars(&mut out, shell);
    push_str_chars(&mut out, "\n");
    out
}

/// The passwd file after making sure `username` has an entry.
///
/// `passwd` is the staging passwd file (empty when missing) and
/// `source_passwd` the source rootfs one (`None` when missing). Returns
/// `Ok(None)` when a line of `passwd` already starts with `username:`; else the new
/// contents, with an entry whose UID and GID come from the source rootfs when
/// it has the user, and are the defaults otherwise.
pub fn ensure_user(
    passwd: &str,
    source_passwd: Option<&str>,
    username: &str,
    default_uid: u32,
    default_gid: u32,
    home: &str,
    shell: &str,
) -> (r: Result<Option<String>, UserDbError>)
    ensures
        has_line_entry(passwd@, username@) ==> r == Ok::<Option<String>, UserDbError>(None),
        !has_line_entry(passwd@, username@) ==> match source_passwd {
            None => r matches Ok(Some(c)) && c@ == passwd@ + passwd_entry(username@, default_uid, default_gid, home@, shell@),
            Some(sp) => match passwd_lookup(text::lines_of(sp@), username@) {
                IdLookup::Found(u, g) => r matches Ok(Some(c)) && c@ == passwd@ + passwd_entry(username@, u, g, home@, shell@),
                IdLookup::Missing => r matches Ok(Some(c)) && c@ == passwd@ + passwd_entry(username@, default_uid, default_gid, home@, shell@),
                IdLookup::BadUid(v) => r matches Err(UserDbError::InvalidUid { name, value }) && name@ == username@ && value@ == v,
                IdLookup::BadGid(v) => r matches Err(UserDbError::InvalidGid { name, value }) && name@ == username@ && value@ == v,
            },
        },
{
    if has_entry(passwd, username) {
        return Ok(None);
    }
    let (uid, gid) = match read_uid_from_rootfs(source_passwd, username) {
        Err(e) => return Err(e),
        Ok(Some(ids)) => ids,
        Ok(None) => (default_uid, default_gid),
    };
    let mut out = chars_of(passwd);
    let e = passwd_entry_vec(username, uid, gid, home, shell);
    push_vec(&mut out, &e);
    Ok(Some(string_of(&out)))
}

/// The group file after making sure `groupname` has an entry.
///
/// `group` is the staging group file (empty when missing) and `source_group`
/// the source rootfs one (`None` when missing). Returns `Ok(None)` when a
/// line of `group` already starts with `groupname:`; else the new contents, with an
/// entry whose GID comes from the source rootfs when it has the group, and is
/// the default otherwise.
pub fn ensure_group(group: &str, source_group: Option<&str>, groupname: &str, default_gid: u32) -> (r: Result<Option<String>, UserDbError>)
    ensures
        has_line_entry(group@, groupname@) ==> r == Ok::<Option<String>, UserDbError>(None),
        !has_line_entry(group@, groupname@) ==> match source_group {
            None => r matches Ok(Some(c)) && c@ == group@ + group_entry(groupname@, default_gid),
            Some(sg) => match group_lookup(text::lines_of(sg@), groupname@) {
                IdLookup::Found(g, _) => r matches Ok(Some(c)) && c@ == group@ + group_entry(groupname@, g),
                IdLookup::Missing => r matches Ok(Some(c)) && c@ == group@ + group_entry(groupname@, default_gid),
                IdLookup::BadUid(v) => false,
                IdLookup::BadGid(v) => r matches Err(UserDbError::InvalidGid { name, value }) && name@ == groupname@ && value@ == v,
            },
        },
{
    if has_entry(group, groupname) {
        return Ok(None);
    }
    let gid = match read_gid_from_rootfs(source_group, groupname) {
        Err(e) => return Err(e),
        Ok(Some(g)) => g,
        Ok(None) => default_gid,
    };
    let mut out = chars_of(group);
    push_str_chars(&mut out, groupname);
    push_str_chars(&mut out, ":x:");
    let g = u32_to_dec(gid);
    push_vec(&mut out, &g);
    push_str_chars(&mut out, ":\n");
    Ok(Some(string_of(&out)))
}

/// Handle a user operation: same as [`ensure_user`].
pub fn handle_user(
    passwd: &str,
    source_passwd: Option<&str>,
    name: &str,
    uid: u32,
    gid: u32,
    home: &str,
    shell: &str,
) -> (r: Result<Option<String>, UserDbError>)
    ensures
        has_line_entry(passwd@, name@) ==> r == Ok::<Option<String>, UserDbError>(None),
        !has_line_entry(passwd@, name@) ==> match source_passwd {
            None => r matches Ok(Some(c)) && c@ == passwd@ + passwd_entry(name@, uid, gid, home@, shell@),
            Some(sp) => match passwd_lookup(text::lines_of(sp@), name@) {
                IdLookup::Found(u, g) => r matches Ok(Some(c)) && c@ == passwd@ + passwd_entry(name@, u, g, home@, shell@),
                IdLookup::Missing => r matches Ok(Some(c)) && c@ == passwd@ + passwd_entry(name@, uid, gid, home@, shell@),
                IdLookup::BadUid(v) => r matches Err(UserDbError::InvalidUid { name: n, value }) && n@ == name@ && value@ == v,
                IdLookup::BadGid(v) => r matches Err(UserDbError::InvalidGid { name: n, value }) && n@ == name@ && value@ == v,
            },
        },
{
    ensure_user(passwd, source_passwd, name, uid, gid, home, shell)
}

/// Handle a group operation: same as [`ensure_group`].
pub fn handle_group(group: &str, source_group: Option<&str>, name: &str, gid: u32) -> (r: Result<Option<String>, UserDbError>)
    ensures
        has_line_entry(group@, name@) ==> r == Ok::<Option<String>, UserDbError>(None),
        !has_line_entry(group@, name@) ==> match source_group {
            None => r matches Ok(Some(c)) && c@ == group@ + group_entry(name@, gid),
            Some(sg) => match group_lookup(text::lines_of(sg@), name@) {
                IdLookup::Found(g, _) => r matches Ok(Some(c)) && c@ == group@ + group_entry(name@, g),
                IdLookup::Missing => r matches Ok(Some(c)) && c@ == group@ + group_entry(name@, gid),
                IdLookup::BadUid(v) => false,
                IdLookup::BadGid(v) => r matches Err(UserDbError::InvalidGid { name: n, value }) && n@ == name@ && value@ == v,
            },
        },
{
    ensure_group(group, source_group, name, gid)
}

/// Once a user has been ensured in a passwd file that is empty or ends in a
/// newline, ensuring it again changes nothing: the new file has a line that
/// starts with `user:`.
pub proof fn law_ensure_user_idempotent(passwd: Seq<char>, user: Seq<char>, uid: u32, gid: u32, home: Seq<char>, shell: Seq<char>)
    requires
        passwd.len() == 0 || passwd.last() == '\n',
    ensures
        has_line_entry(passwd + passwd_entry(user, uid, gid, home, shell), user),
{
    let s = passwd + passwd_entry(user, uid, gid, home, shell);
    let p = user + seq![':'];
    reveal_strlit(":x:");
    let e = passwd_entry(user, uid, gid, home, shell);
    assert(e.subrange(0, p.len() as int) =~= p);
    assert(s.subrange(passwd.len() as int, (passwd.len() + p.len()) as int) =~= p);
    assert(text::occurs_at(s, p, passwd.len() as int));
    assert(passwd.len() > 0 ==> s[passwd.len() - 1] == '\n');
}

/// Once a group has been ensured in a group file that is empty or ends in a
/// newline, ensuring it again changes nothing: the new file has a line that
/// starts with `name:`.
pub proof fn law_ensure_group_idempotent(group: Seq<char>, name: Seq<char>, gid: u32)
    requires
        group.len() == 0 || group.last() == '\n',
    ensures
        has_line_entry(group + group_entry(name, gid), name),
{
    let s = group + group_entry(name, gid);
    let p = name + seq![':'];
    reveal_strlit(":x:");
    assert(s.subrange(group.len() as int, (group.len() + p.len()) as int) =~= p);
    assert(text::occurs_at(s, p, group.len() as int));
    assert(group.len() > 0 ==> s[group.len() - 1] == '\n');
}

/// Every decimal numeral is a non-empty run of digits with the value it names.
proof fn lemma_dec_str_digits(n: nat)
    ensures
        dec_str(n).len() > 0,
        all_dec(dec_str(n)),
        digits_value(dec_str(n)) == n,
    decreases n,
{
    let s = dec_str(n);
    assert(digits_value(s) == digits_value(s.drop_last()) * 10 + digit_val(s.last()));
    if n < 10 {
        assert(s.drop_last() =~= Seq::<char>::empty());
        assert(digits_value(s.drop_last()) == 0);
        assert(digit_val(s.last()) == n);
    } else {
        lemma_dec_str_digits(n / 10);
        assert(s.drop_last() =~= dec_str(n / 10));
        assert(digit_val(s.last()) == n % 10);
        assert(all_dec(s)) by {
            assert forall|k: int| 0 <= k < s.len() implies is_dec(#[trigger] s[k]) by {
                if k < s.len() - 1 {
                    assert(s[k] == dec_str(n / 10)[k]);
                }
            }
        }
        assert((n / 10) * 10 + n % 10 == n) by (nonlinear_arith);
    }
}

/// The decimal numeral of a `u32` parses back to it.
pub proof fn lemma_parse_dec_str(n: u32)
    ensures
        parse_u32_spec(dec_str(n as nat)) == Some(n),
{
    lemma_dec_str_digits(n as nat);
    assert(is_dec(dec_str(n as nat)[0]));
}

/// A field without the separator, then the separator, then the rest: the
/// field is the first of the fields.
proof fn lemma_split_cons(a: Seq<char>, c: char, rest: Seq<char>)
    requires
        forall|k: int| 0 <= k < a.len() ==> a[k] != c,
    ensures
        split_on(a + seq![c] + rest, c) == seq![a] + split_on(rest, c),
{
    let s = a + seq![c] + rest;
    assert forall|k: int| 0 <= k < a.len() implies s[k] != c by {
        assert(s[k] == a[k]);
    }
    lemma_first_idx(s, c, a.len() as int);
    assert(s.subrange(0, a.len() as int) =~= a);
    assert(s.subrange(a.len() as int + 1, s.len() as int) =~= rest);
}

/// A line with a second field starts with its first field and the separator.
proof fn lemma_split_first(l: Seq<char>, c: char)
    requires
        split_on(l, c).len() >= 2,
    ensures
        split_on(l, c)[0].len() < l.len(),
        l.subrange(0, split_on(l, c)[0].len() as int + 1) == split_on(l, c)[0] + seq![c],
{
    let i = first_idx(l, c);
    assert(0 <= i < l.len());
    assert(l[i] == c);
    assert(l.subrange(0, i + 1) =~= l.subrange(0, i) + seq![c]);
}

/// Lookup of a user skips lines that do not name it.
proof fn lemma_passwd_lookup_skip(ls1: Seq<Seq<char>>, ls2: Seq<Seq<char>>, user: Seq<char>)
    requires
        passwd_lookup(ls1, user) is Missing,
    ensures
        passwd_lookup(ls1 + ls2, user) == passwd_lookup(ls2, user),
    decreases ls1.len(),
{
    if ls1.len() == 0 {
        assert(ls1 + ls2 =~= ls2);
    } else {
        assert((ls1 + ls2)[0] == ls1[0]);
        assert((ls1 + ls2).drop_first() =~= ls1.drop_first() + ls2);
        lemma_passwd_lookup_skip(ls1.drop_first(), ls2, user);
    }
}

/// Lookup of a group skips lines that do not name it.
proof fn lemma_group_lookup_skip(ls1: Seq<Seq<char>>, ls2: Seq<Seq<char>>, group: Seq<char>)
    requires
        group_lookup(ls1, group) is Missing,
    ensures
        group_lookup(ls1 + ls2, group) == group_lookup(ls2, group),
    decreases ls1.len(),
{
    if ls1.len() == 0 {
        assert(ls1 + ls2 =~= ls2);
    } else {
        assert((ls1 + ls2)[0] == ls1[0]);
        assert((ls1 + ls2).drop_first() =~= ls1.drop_first() + ls2);
        lemma_group_lookup_skip(ls1.drop_first(), ls2, group);
    }
}

/// If a line of `s` has `name` as first of at least two fields, then `s`
/// holds `name:`.
proof fn lemma_named_line_occurs(s: Seq<char>, l: Seq<char>, name: Seq<char>)
    requires
        l.len() <= s.len(),
        s.subrange(0, l.len() as int) == l,
        split_on(l, ':').len() >= 2,
        split_on(l, ':')[0] == name,
    ensures
        has_line_entry(s, name),
{
    lemma_split_first(l, ':');
    let p = name + seq![':'];
    assert(s.subrange(0, p.len() as int) =~= l.subrange(0, p.len() as int));
    assert(text::occurs_at(s, p, 0));
}

/// A line entry of the text after a newline is a line entry of the whole text.
proof fn lemma_line_entry_suffix(s: Seq<char>, i: int, name: Seq<char>)
    requires
        0 <= i < s.len(),
        s[i] == '\n',
        has_line_entry(s.subrange(i + 1, s.len() as int), name),
    ensures
        has_line_entry(s, name),
{
    let t = s.subrange(i + 1, s.len() as int);
    let p = name + seq![':'];
    let k = choose|k: int| #[trigger] text::occurs_at(t, p, k) && (k == 0 || t[k - 1] == '\n');
    assert(s.subrange(k + i + 1, k + i + 1 + p.len()) =~= t.subrange(k, k + p.len()));
    assert(text::occurs_at(s, p, k + i + 1));
    assert(s[k + i] == '\n');
}

/// The first line of `s` and the text after it, when `s` is not empty.
proof fn lemma_first_line(s: Seq<char>)
    requires
        s.len() > 0,
    ensures
        text::lines_of(s).len() > 0,
        text::lines_of(s)[0].len() <= s.len(),
        s.subrange(0, text::lines_of(s)[0].len() as int) == text::lines_of(s)[0],
        ({
            let i = text::first_nl(s);
            &&& 0 <= i < s.len() ==> text::lines_of(s).drop_first() == text::lines_of(s.subrange(i + 1, s.len() as int))
            &&& 0 <= i < s.len() ==> text::lines_of(s)[0] == text::strip_cr(s.subrange(0, i))
            &&& !(0 <= i < s.len()) ==> text::lines_of(s) == seq![s]
        }),
{
    reveal(text::lines_of);
    let i = text::first_nl(s);
    if 0 <= i < s.len() {
        let l = text::strip_cr(s.subrange(0, i));
        assert(text::lines_of(s) == seq![l] + text::lines_of(s.subrange(i + 1, s.len() as int)));
        assert(text::lines_of(s).drop_first() =~= text::lines_of(s.subrange(i + 1, s.len() as int)));
        assert(s.subrange(0, l.len() as int) =~= l);
    } else {
        assert(s.subrange(0, s.len() as int) =~= s);
    }
}

/// A file with no line starting with `user:` has no entry for the user.
proof fn lemma_passwd_lookup_missing(s: Seq<char>, user: Seq<char>)
    requires
        !has_line_entry(s, user),
    ensures
        passwd_lookup(text::lines_of(s), user) is Missing,
    decreases s.len(),
{
    reveal(text::lines_of);
    if s.len() > 0 {
        lemma_first_line(s);
        let ls = text::lines_of(s);
        let parts = split_on(ls[0], ':');
        if parts.len() >= 4 && parts[0] == user {
            lemma_named_line_occurs(s, ls[0], user);
        }
        let i = text::first_nl(s);
        if 0 <= i < s.len() {
            let rest = s.subrange(i + 1, s.len() as int);
            if has_line_entry(rest, user) {
                assert(s[i] == '\n');
                lemma_line_entry_suffix(s, i, user);
            }
            lemma_passwd_lookup_missing(rest, user);
            assert(passwd_lookup(ls.drop_first(), user) is Missing);
        } else {
            assert(ls.drop_first() =~= Seq::<Seq<char>>::empty());
            assert(passwd_lookup(ls.drop_first(), user) is Missing);
        }
        assert(passwd_lookup(ls, user) == passwd_lookup(ls.drop_first(), user));
    }
}

/// A file with no line starting with `group:` has no entry for the group.
proof fn lemma_group_lookup_missing(s: Seq<char>, group: Seq<char>)
    requires
        !has_line_entry(s, group),
    ensures
        group_lookup(text::lines_of(s), group) is Missing,
    decreases s.len(),
{
    reveal(text::lines_of);
    if s.len() > 0 {
        lemma_first_line(s);
        let ls = text::lines_of(s);
        let parts = split_on(ls[0], ':');
        if parts.len() >= 3 && parts[0] == group {
            lemma_named_line_occurs(s, ls[0], group);
        }
        let i = text::first_nl(s);
        if 0 <= i < s.len() {
            let rest = s.subrange(i + 1, s.len() as int);
            if has_line_entry(rest, group) {
                assert(s[i] == '\n');
                lemma_line_entry_suffix(s, i, group);
            }
            lemma_group_lookup_missing(rest, group);
            assert(group_lookup(ls.drop_first(), group) is Missing);
        } else {
            assert(ls.drop_first() =~= Seq::<Seq<char>>::empty());
            assert(group_lookup(ls.drop_first(), group) is Missing);
        }
        assert(group_lookup(ls, group) == group_lookup(ls.drop_first(), group));
    }
}

/// The first line of text that starts with `f`, where `f` has no newline
/// and does not end in a carriage return, is `f` followed by something.
proof fn lemma_first_line_prefix(e: Seq<char>, f: Seq<char>)
    requires
        f.len() > 0,
        f.len() <= e.len(),
        e.subrange(0, f.len() as int) == f,
        forall|k: int| 0 <= k < f.len() ==> f[k] != '\n',
        f.last() != '\r',
    ensures
        text::lines_of(e).len() > 0,
        text::lines_of(e)[0].len() >= f.len(),
        text::lines_of(e)[0].subrange(0, f.len() as int) == f,
{
    lemma_first_line(e);
    let i = text::first_nl(e);
    let l = text::lines_of(e)[0];
    if 0 <= i < e.len() {
        if i < f.len() {
            assert(e[i] == f[i]);
        }
        let raw = e.subrange(0, i);
        if i == f.len() {
            assert(raw =~= f);
        } else {
            assert(raw.len() > f.len());
        }
        assert(l.subrange(0, f.len() as int) =~= f);
    } else {
        assert(l.subrange(0, f.len() as int) =~= f);
    }
}

/// A line made of four fields without `:`, each followed by `:`, then
/// anything: those are its first four fields.
proof fn lemma_four_fields(a: Seq<char>, b: Seq<char>, c: Seq<char>, d: Seq<char>, t: Seq<char>)
    requires
        forall|k: int| 0 <= k < a.len() ==> a[k] != ':',
        forall|k: int| 0 <= k < b.len() ==> b[k] != ':',
        forall|k: int| 0 <= k < c.len() ==> c[k] != ':',
        forall|k: int| 0 <= k < d.len() ==> d[k] != ':',
    ensures
        ({
            let parts = split_on(a + seq![':'] + b + seq![':'] + c + seq![':'] + d + seq![':'] + t, ':');
            parts.len() >= 4 && parts[0] == a && parts[1] == b && parts[2] == c && parts[3] == d
        }),
{
    assert(a + seq![':'] + b + seq![':'] + c + seq![':'] + d + seq![':'] + t
        =~= a + seq![':'] + (b + seq![':'] + (c + seq![':'] + (d + seq![':'] + t))));
    lemma_split_cons(d, ':', t);
    lemma_split_cons(c, ':', d + seq![':'] + t);
    lemma_split_cons(b, ':', c + seq![':'] + (d + seq![':'] + t));
    lemma_split_cons(a, ':', b + seq![':'] + (c + seq![':'] + (d + seq![':'] + t)));
}

/// A line that starts with `f` is `f` followed by the rest of it.
proof fn lemma_prefix_split(l: Seq<char>, f: Seq<char>)
    requires
        f.len() <= l.len(),
        l.subrange(0, f.len() as int) == f,
    ensures
        l == f + l.subrange(f.len() as int, l.len() as int),
{
    assert forall|k: int| 0 <= k < f.len() implies l[k] == f[k] by {
        assert(l.subrange(0, f.len() as int)[k] == l[k]);
    }
    assert(l =~= f + l.subrange(f.len() as int, l.len() as int));
}

/// A decimal numeral has neither `:` nor a newline.
proof fn lemma_dec_plain(n: nat)
    ensures
        forall|k: int| 0 <= k < dec_str(n).len() ==> dec_str(n)[k] != ':' && dec_str(n)[k] != '\n',
{
    lemma_dec_str_digits(n);
    assert forall|k: int| 0 <= k < dec_str(n).len() implies dec_str(n)[k] != ':' && dec_str(n)[k] != '\n' by {
        assert(is_dec(dec_str(n)[k]));
    }
}

/// The first line of a passwd entry has the user, `x`, the UID and the GID
/// as its first four fields.
proof fn lemma_passwd_entry_line(user: Seq<char>, uid: u32, gid: u32, home: Seq<char>, shell: Seq<char>)
    requires
        forall|k: int| 0 <= k < user.len() ==> user[k] != ':' && user[k] != '\n',
    ensures
        text::lines_of(passwd_entry(user, uid, gid, home, shell)).len() > 0,
        ({
            let parts = split_on(text::lines_of(passwd_entry(user, uid, gid, home, shell))[0], ':');
            parts.len() >= 4 && parts[0] == user && parts[2] == dec_str(uid as nat) && parts[3] == dec_str(gid as nat)
        }),
{
    reveal_strlit(":x:");
    reveal_strlit(":");
    reveal_strlit("\n");
    let e = passwd_entry(user, uid, gid, home, shell);
    let d1 = dec_str(uid as nat);
    let d2 = dec_str(gid as nat);
    lemma_dec_plain(uid as nat);
    lemma_dec_plain(gid as nat);
    let f = user + seq![':'] + seq!['x'] + seq![':'] + d1 + seq![':'] + d2 + seq![':'];
    assert(e.subrange(0, f.len() as int) =~= f);
    assert forall|k: int| 0 <= k < f.len() implies f[k] != '\n' by {
        if k < user.len() {
            assert(f[k] == user[k]);
        } else if user.len() + 3 <= k < user.len() + 3 + d1.len() {
            assert(f[k] == d1[k - user.len() - 3]);
        } else if user.len() + 4 + d1.len() <= k < user.len() + 4 + d1.len() + d2.len() {
            assert(f[k] == d2[k - user.len() - 4 - d1.len()]);
        }
    }
    lemma_first_line_prefix(e, f);
    let l = text::lines_of(e)[0];
    let t = l.subrange(f.len() as int, l.len() as int);
    lemma_prefix_split(l, f);
    lemma_four_fields(user, seq!['x'], d1, d2, t);
}

/// After `ensure_user` appends the entry of a new user to a passwd file that
/// is empty or ends in a newline, reading the user's IDs from the new file
/// gives the IDs of the entry.
pub proof fn law_read_after_ensure_user(passwd: Seq<char>, user: Seq<char>, uid: u32, gid: u32, home: Seq<char>, shell: Seq<char>)
    requires
        !has_line_entry(passwd, user),
        passwd.len() == 0 || passwd.last() == '\n',
        forall|k: int| 0 <= k < user.len() ==> user[k] != ':' && user[k] != '\n',
    ensures
        passwd_lookup(text::lines_of(passwd + passwd_entry(user, uid, gid, home, shell)), user)
            == IdLookup::Found(uid, gid),
{
    let e = passwd_entry(user, uid, gid, home, shell);
    lemma_passwd_entry_line(user, uid, gid, home, shell);
    lemma_parse_dec_str(uid);
    lemma_parse_dec_str(gid);
    lemma_passwd_lookup_missing(passwd, user);
    text::lemma_lines_append(passwd, e);
    lemma_passwd_lookup_skip(text::lines_of(passwd), text::lines_of(e), user);
}

/// The first line of a group entry has the group, `x` and the GID as its
/// first three fields.
proof fn lemma_group_entry_line(name: Seq<char>, gid: u32)
    requires
        forall|k: int| 0 <= k < name.len() ==> name[k] != ':' && name[k] != '\n',
    ensures
        text::lines_of(group_entry(name, gid)).len() > 0,
        ({
            let parts = split_on(text::lines_of(group_entry(name, gid))[0], ':');
            parts.len() >= 3 && parts[0] == name && parts[2] == dec_str(gid as nat)
        }),
{
    reveal_strlit(":x:");
    reveal_strlit(":\n");
    let e = group_entry(name, gid);
    let d = dec_str(gid as nat);
    lemma_dec_plain(gid as nat);
    let f = name + seq![':'] + seq!['x'] + seq![':'] + d + seq![':'];
    assert(e.subrange(0, f.len() as int) =~= f);
    assert forall|k: int| 0 <= k < f.len() implies f[k] != '\n' by {
        if k < name.len() {
            assert(f[k] == name[k]);
        } else if name.len() + 3 <= k < name.len() + 3 + d.len() {
            assert(f[k] == d[k - name.len() - 3]);
        }
    }
    lemma_first_line_prefix(e, f);
    let l = text::lines_of(e)[0];
    let t = l.subrange(f.len() as int, l.len() as int);
    lemma_prefix_split(l, f);
    assert(f + t =~= name + seq![':'] + (seq!['x'] + seq![':'] + (d + seq![':'] + t)));
    lemma_split_cons(d, ':', t);
    lemma_split_cons(seq!['x'], ':', d + seq![':'] + t);
    lemma_split_cons(name, ':', seq!['x'] + seq![':'] + (d + seq![':'] + t));
}

/// After `ensure_group` appends the entry of a new group to a group file that
/// is empty or ends in a newline, reading the group's GID from the new file
/// gives the GID of the entry.
pub proof fn law_read_after_ensure_group(group: Seq<char>, name: Seq<char>, gid: u32)
    requires
        !has_line_entry(group, name),
        group.len() == 0 || group.last() == '\n',
        forall|k: int| 0 <= k < name.len() ==> name[k] != ':' && name[k] != '\n',
    ensures
        group_lookup(text::lines_of(group + group_entry(name, gid)), name) == IdLookup::Found(gid, gid),
{
    let e = group_entry(name, gid);
    lemma_group_entry_line(name, gid);
    lemma_parse_dec_str(gid);
    lemma_group_lookup_missing(group, name);
    text::lemma_lines_append(group, e);
    lemma_group_lookup_skip(text::lines_of(group), text::lines_of(e), name);
}

} // verus!
