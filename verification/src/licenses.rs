//! License tracking for redistributed binaries: which packages were used.

use vstd::prelude::*;
use crate::context::PackageManager;
use crate::text;
use crate::text::{after_last_vec, chars_of, lines_vec, slice_vec, string_of, trim_vec};

verus! {

pub open spec fn is_digit(c: char) -> bool {
    '0' <= c && c <= '9'
}

/// A `-r` starts at `i` in `t`.
pub open spec fn is_rev_mark(t: Seq<char>, i: int) -> bool {
    0 <= i && i + 1 < t.len() && t[i] == '-' && t[i + 1] == 'r'
}

/// Index of the last `-r` in `t`, or `-1`.
pub open spec fn last_rev_mark(t: Seq<char>) -> int {
    if exists|i: int| is_rev_mark(t, i) && (forall|j: int| i < j ==> !is_rev_mark(t, j)) {
        choose|i: int| is_rev_mark(t, i) && (forall|j: int| i < j ==> !is_rev_mark(t, j))
    } else {
        -1
    }
}

pub open spec fn all_digits(s: Seq<char>) -> bool {
    forall|k: int| 0 <= k < s.len() ==> is_digit(s[k])
}

/// `t` without a trailing `-r<digits>` revision suffix.
pub open spec fn strip_revision(t: Seq<char>) -> Seq<char> {
    let pos = last_rev_mark(t);
    if pos >= 0 && t.len() > pos + 2 && all_digits(t.subrange(pos + 2, t.len() as int)) {
        t.subrange(0, pos)
    } else {
        t
    }
}

/// A `-` followed by a digit starts at `i` in `w`.
pub open spec fn is_version_dash(w: Seq<char>, i: int) -> bool {
    0 <= i && i + 1 < w.len() && w[i] == '-' && is_digit(w[i + 1])
}

/// Where the package name ends: at the last `-<digit>`, or at the end.
pub open spec fn name_end(w: Seq<char>) -> int {
    if exists|i: int| is_version_dash(w, i) && (forall|j: int| i < j ==> !is_version_dash(w, j)) {
        choose|i: int| is_version_dash(w, i) && (forall|j: int| i < j ==> !is_version_dash(w, j))
    } else {
        w.len() as int
    }
}

/// The package name of an APK `<name>-<version>-r<revision>` string.
pub open spec fn apk_package_name(s: Seq<char>) -> Seq<char> {
    let w = strip_revision(text::trim(s));
    w.subrange(0, name_end(w))
}

proof fn lemma_last_rev_mark(t: Seq<char>, i: int)
    requires
        is_rev_mark(t, i),
        forall|j: int| i < j ==> !is_rev_mark(t, j),
    ensures
        last_rev_mark(t) == i,
{
    let k = last_rev_mark(t);
    assert(is_rev_mark(t, k) && (forall|j: int| k < j ==> !is_rev_mark(t, j)));
    if k < i {
        assert(!is_rev_mark(t, i));
    } else if i < k {
        assert(!is_rev_mark(t, k));
    }
}

proof fn lemma_name_end(w: Seq<char>, i: int)
    requires
        is_version_dash(w, i),
        forall|j: int| i < j ==> !is_version_dash(w, j),
    ensures
        name_end(w) == i,
{
    let k = name_end(w);
    assert(is_version_dash(w, k) && (forall|j: int| k < j ==> !is_version_dash(w, j)));
    if k < i {
        assert(!is_version_dash(w, i));
    } else if i < k {
        assert(!is_version_dash(w, k));
    }
}

/// Position of the last `-r` in `t`, if any.
fn find_last_rev_mark(t: &Vec<char>) -> (r: Option<usize>)
    ensures
        match r {
            Some(p) => is_rev_mark(t@, p as int) && forall|j: int| p < j ==> !is_rev_mark(t@, j),
            None => forall|j: int| !is_rev_mark(t@, j),
        },
{
    let mut i: usize = t.len();
    while i >= 2
        invariant
            i <= t.len(),
            forall|j: int| i - 1 <= j ==> !is_rev_mark(t@, j),
        decreases i,
    {
        if t[i - 2] == '-' && t[i - 1] == 'r' {
            return Some(i - 2);
        }
        i = i - 1;
    }
    None
}

/// Whether every character of `s[lo..]` is an ASCII digit.
fn all_digits_from(s: &Vec<char>, lo: usize) -> (r: bool)
    requires
        lo <= s.len(),
    ensures
        r == all_digits(s@.subrange(lo as int, s@.len() as int)),
{
    let mut k = lo;
    while k < s.len()
        invariant
            lo <= k <= s.len(),
            forall|j: int| lo <= j < k ==> is_digit(s@[j]),
        decreases s.len() - k,
    {
        if !('0' <= s[k] && s[k] <= '9') {
            assert(!is_digit(s@.subrange(lo as int, s@.len() as int)[k - lo]));
            return false;
        }
        k = k + 1;
    }
    true
}

/// `t` without a trailing `-r<digits>` revision suffix.
fn strip_revision_vec(t: &Vec<char>) -> (r: Vec<char>)
    ensures
        r@ == strip_revision(t@),
{
    match find_last_rev_mark(t) {
        Some(pos) => {
            proof {
                lemma_last_rev_mark(t@, pos as int);
            }
            if t.len() > pos + 2 && all_digits_from(t, pos + 2) {
                slice_vec(t, 0, pos)
            } else {
                proof {
                    assert(t@.subrange(0, t@.len() as int) =~= t@);
                }
                slice_vec(t, 0, t.len())
            }
        },
        None => {
            assert(t@.subrange(0, t@.len() as int) =~= t@);
            slice_vec(t, 0, t.len())
        },
    }
}

/// Where the package name of `w` ends.
fn find_name_end(w: &Vec<char>) -> (r: usize)
    ensures
        r == name_end(w@),
{
    let mut i: usize = w.len();
    while i >= 2
        invariant
            i <= w.len(),
            forall|j: int| i - 1 <= j ==> !is_version_dash(w@, j),
        decreases i,
    {
        if w[i - 2] == '-' && '0' <= w[i - 1] && w[i - 1] <= '9' {
            proof {
                lemma_name_end(w@, i - 2);
            }
            return i - 2;
        }
        i = i - 1;
    }
    w.len()
}

/// Extract the package name from an APK package-version string.
///
/// The string is trimmed, a trailing `-r<digits>` revision is dropped, and
/// the name ends at the last `-` that a digit follows.
pub fn strip_apk_version(pkg_ver: &str) -> (r: Option<String>)
    ensures
        match r {
            Some(name) => name@ == apk_package_name(pkg_ver@) && name@.len() > 0,
            None => apk_package_name(pkg_ver@).len() == 0,
        },
{
    let v = chars_of(pkg_ver);
    let t = trim_vec(&v);
    let w = strip_revision_vec(&t);
    let e = find_name_end(&w);
    if e == 0 {
        None
    } else {
        let name = slice_vec(&w, 0, e);
        Some(string_of(&name))
    }
}

/// The package an `apk info -W` report names: the first line, after the last
/// `is owned by `, without its version.
pub open spec fn apk_owner_of_output(out: Seq<char>) -> Option<Seq<char>> {
    let ls = text::lines_of(out);
    if ls.len() == 0 {
        None
    } else {
        let name = apk_package_name(text::after_last(ls[0], "is owned by "@));
        if name.len() == 0 {
            None
        } else {
            Some(name)
        }
    }
}

/// The package an `rpm -qf --queryformat '%{NAME}\n'` report names: its
/// first line, trimmed, unless empty or a "not owned" notice.
pub open spec fn rpm_owner_of_output(out: Seq<char>) -> Option<Seq<char>> {
    let ls = text::lines_of(out);
    if ls.len() == 0 {
        None
    } else {
        let t = text::trim(ls[0]);
        if t.len() == 0 || text::contains(t, "not owned"@) {
            None
        } else {
            Some(t)
        }
    }
}

/// Parse the output of a successful `apk info -W` query.
pub fn parse_apk_owner(stdout: &str) -> (r: Option<String>)
    ensures
        match r {
            Some(n) => apk_owner_of_output(stdout@) == Some(n@),
            None => apk_owner_of_output(stdout@) is None,
        },
{
    let v = chars_of(stdout);
    let ls = lines_vec(&v);
    if ls.len() == 0 {
        return None;
    }
    let pat = chars_of("is owned by ");
    let part = after_last_vec(&ls[0], &pat);
    let ps = string_of(&part);
    strip_apk_version(ps.as_str())
}

/// Parse the output of a successful `rpm -qf` query.
pub fn parse_rpm_owner(stdout: &str) -> (r: Option<String>)
    ensures
        match r {
            Some(n) => rpm_owner_of_output(stdout@) == Some(n@),
            None => rpm_owner_of_output(stdout@) is None,
        },
{
    let v = chars_of(stdout);
    let ls = lines_vec(&v);
    if ls.len() == 0 {
        return None;
    }
    let t = trim_vec(&ls[0]);
    let pat = chars_of("not owned");
    if t.len() == 0 || crate::text::contains_vec(&t, &pat) {
        None
    } else {
        Some(string_of(&t))
    }
}


/// The view of a cached query result.
pub open spec fn owner_view(o: Option<String>) -> Option<Seq<char>> {
    match o {
        Some(s) => Some(s@),
        None => None,
    }
}

/// The query cache as a map; a later entry for a path wins.
pub open spec fn cache_map(c: Seq<(String, Option<String>)>) -> Map<Seq<char>, Option<Seq<char>>>
    decreases c.len(),
{
    if c.len() == 0 {
        Map::empty()
    } else {
        cache_map(c.drop_last()).insert(c.last().0@, owner_view(c.last().1))
    }
}

/// What the tracker does next for a list of candidate paths, given what the
/// package database has answered so far.
pub enum Resolution {
    /// The database must be asked who owns this path.
    Ask(Seq<char>),
    /// This package owns the first path that has an owner.
    Owned(Seq<char>),
    /// No candidate path has an owner.
    Unowned,
}

/// Paths are tried in order: the first one with an owner decides; a path the
/// database has not been asked about yet must be asked first.
pub open spec fn resolve(cache: Map<Seq<char>, Option<Seq<char>>>, paths: Seq<Seq<char>>) -> Resolution
    decreases paths.len(),
{
    if paths.len() == 0 {
        Resolution::Unowned
    } else if !cache.contains_key(paths[0]) {
        Resolution::Ask(paths[0])
    } else {
        match cache[paths[0]] {
            Some(pkg) => Resolution::Owned(pkg),
            None => resolve(cache, paths.drop_first()),
        }
    }
}

/// Paths searched for a binary, in order.
pub open spec fn binary_search_paths_spec(binary: Seq<char>) -> Seq<Seq<char>> {
    seq!["usr/bin/"@ + binary, "usr/sbin/"@ + binary, "usr/lib/systemd/"@ + binary, "usr/lib/udev/"@ + binary]
}

/// Paths searched for a library, in order.
pub open spec fn library_search_paths_spec(pm: PackageManager, lib: Seq<char>) -> Seq<Seq<char>> {
    match pm {
        PackageManager::Rpm => seq!["usr/lib64/"@ + lib, "usr/lib/"@ + lib],
        PackageManager::Apk => seq!["usr/lib/"@ + lib, "lib/"@ + lib],
    }
}

/// The next step of registering a binary or a library.
#[derive(Debug, PartialEq, Eq)]
pub enum LicenseStep {
    /// Ask the package database who owns this path (relative to the rootfs),
    /// report the answer with `record_query`, and register again.
    Query(String),
    /// Registration is complete.
    Done,
}

fn prefixed(prefix: &str, name: &str) -> (r: String)
    ensures
        r@ == prefix@ + name@,
{
    let s = String::from_str(prefix);
    s.concat(name)
}

/// Paths searched for a binary, in order.
pub fn binary_search_paths(binary: &str) -> (r: Vec<String>)
    ensures
        text::views(r@) == binary_search_paths_spec(binary@),
{
    let mut r: Vec<String> = Vec::new();
    r.push(prefixed("usr/bin/", binary));
    r.push(prefixed("usr/sbin/", binary));
    r.push(prefixed("usr/lib/systemd/", binary));
    r.push(prefixed("usr/lib/udev/", binary));
    assert(text::views(r@) =~= binary_search_paths_spec(binary@));
    r
}

/// Paths searched for a library, in order.
pub fn library_search_paths(pm: PackageManager, lib: &str) -> (r: Vec<String>)
    ensures
        text::views(r@) == library_search_paths_spec(pm, lib@),
{
    let mut r: Vec<String> = Vec::new();
    match pm {
        PackageManager::Rpm => {
            r.push(prefixed("usr/lib64/", lib));
            r.push(prefixed("usr/lib/", lib));
        },
        PackageManager::Apk => {
            r.push(prefixed("usr/lib/", lib));
            r.push(prefixed("lib/", lib));
        },
    }
    assert(text::views(r@) =~= library_search_paths_spec(pm, lib@));
    r
}

/// Tracks packages used during the build for license compliance.
///
/// Which package owns a file is asked of the package database of the source
/// rootfs; answers are cached, so each path is asked about once.
#[derive(Debug)]
pub struct LicenseTracker {
    source: String,
    pkg_mgr: PackageManager,
    packages: Vec<String>,
    cache: Vec<(String, Option<String>)>,
}

impl LicenseTracker {
    #[verifier::type_invariant]
    spec fn inv(self) -> bool {
        text::views(self.packages@).no_duplicates()
    }

    /// The set of registered packages.
    pub closed spec fn packages(self) -> Set<Seq<char>> {
        text::views(self.packages@).to_set()
    }

    /// What the package database has answered so far.
    pub closed spec fn answers(self) -> Map<Seq<char>, Option<Seq<char>>> {
        cache_map(self.cache@)
    }

    pub closed spec fn source_spec(self) -> Seq<char> {
        self.source@
    }

    pub closed spec fn pkg_mgr_spec(self) -> PackageManager {
        self.pkg_mgr
    }

    /// Create a new license tracker for the rootfs at `source`.
    pub fn new(source: String, pkg_mgr: PackageManager) -> (r: Self)
        ensures
            r.packages() == Set::<Seq<char>>::empty(),
            r.answers() == Map::<Seq<char>, Option<Seq<char>>>::empty(),
            r.source_spec() == source@,
            r.pkg_mgr_spec() == pkg_mgr,
    {
        let r = LicenseTracker { source, pkg_mgr, packages: Vec::new(), cache: Vec::new() };
        assert(text::views(r.packages@) =~= Seq::<Seq<char>>::empty());
        r
    }

    /// The source rootfs whose package database is queried.
    pub fn source(&self) -> (r: &str)
        ensures
            r@ == self.source_spec(),
    {
        self.source.as_str()
    }

    /// The package manager whose database is queried.
    pub fn pkg_mgr(&self) -> (r: PackageManager)
        ensures
            r == self.pkg_mgr_spec(),
    {
        self.pkg_mgr
    }

    /// Whether a package has been registered.
    pub fn has_package(&self, package: &str) -> (r: bool)
        ensures
            r == self.packages().contains(package@),
    {
        let mut i: usize = 0;
        while i < self.packages.len()
            invariant
                i <= self.packages@.len(),
                forall|k: int| 0 <= k < i ==> self.packages@[k]@ != package@,
            decreases self.packages@.len() - i,
        {
            if text::str_eq(self.packages[i].as_str(), package) {
                assert(text::views(self.packages@)[i as int] == package@);
                return true;
            }
            i = i + 1;
        }
        assert(!text::views(self.packages@).contains(package@));
        false
    }

    /// Register a package directly by name.
    pub fn register_package(&mut self, package: &str)
        ensures
            final(self).packages() == old(self).packages().insert(package@),
            final(self).answers() == old(self).answers(),
            final(self).source_spec() == old(self).source_spec(),
            final(self).pkg_mgr_spec() == old(self).pkg_mgr_spec(),
    {
        proof {
            use_type_invariant(&*self);
        }
        if self.has_package(package) {
            assert(old(self).packages().insert(package@) =~= old(self).packages());
            return;
        }
        let ghost old_views = text::views(self.packages@);
        let mut pk: Vec<String> = Vec::new();
        std::mem::swap(&mut pk, &mut self.packages);
        pk.push(String::from_str(package));
        proof {
            assert(text::views(pk@) =~= old_views.push(package@));
            old_views.lemma_push_to_set_commute(package@);
        }
        self.packages = pk;
    }

    /// The number of packages tracked.
    pub fn package_count(&self) -> (r: usize)
        ensures
            r == self.packages().len(),
    {
        proof {
            use_type_invariant(self);
            text::views(self.packages@).unique_seq_to_set();
        }
        self.packages.len()
    }

    /// Record what the package database answered for a path.
    pub fn record_query(&mut self, rel_path: &str, owner: Option<String>)
        ensures
            final(self).answers() == old(self).answers().insert(rel_path@, owner_view(owner)),
            final(self).packages() == old(self).packages(),
            final(self).source_spec() == old(self).source_spec(),
            final(self).pkg_mgr_spec() == old(self).pkg_mgr_spec(),
    {
        proof {
            use_type_invariant(&*self);
        }
        let mut c: Vec<(String, Option<String>)> = Vec::new();
        std::mem::swap(&mut c, &mut self.cache);
        let ghost old_c = c@;
        c.push((String::from_str(rel_path), owner));
        proof {
            assert(c@.drop_last() =~= old_c);
        }
        self.cache = c;
    }

    /// Decide the next step for a list of candidate paths.
    fn resolve_paths(&mut self, paths: &Vec<String>) -> (step: LicenseStep)
        ensures
            final(self).answers() == old(self).answers(),
            final(self).source_spec() == old(self).source_spec(),
            final(self).pkg_mgr_spec() == old(self).pkg_mgr_spec(),
            match resolve(old(self).answers(), text::views(paths@)) {
                Resolution::Ask(p) => step matches LicenseStep::Query(q) && q@ == p
                    && final(self).packages() == old(self).packages(),
                Resolution::Owned(pkg) => step == LicenseStep::Done
                    && final(self).packages() == old(self).packages().insert(pkg),
                Resolution::Unowned => step == LicenseStep::Done
                    && final(self).packages() == old(self).packages(),
            },
    {
        let ghost ans = self.answers();
        let ghost vs = text::views(paths@);
        let mut i: usize = 0;
        assert(vs.skip(0) =~= vs);
        while i < paths.len()
            invariant
                i <= paths@.len(),
                vs == text::views(paths@),
                ans == self.answers(),
                resolve(ans, vs) == resolve(ans, vs.skip(i as int)),
                self.packages() == old(self).packages(),
                self.source_spec() == old(self).source_spec(),
                self.pkg_mgr_spec() == old(self).pkg_mgr_spec(),
                self.answers() == old(self).answers(),
            decreases paths@.len() - i,
        {
            proof {
                assert(vs.skip(i as int)[0] == paths@[i as int]@);
                assert(vs.skip(i as int).drop_first() =~= vs.skip(i + 1));
            }
            match self.cached_owner(&paths[i]) {
                None => {
                    return LicenseStep::Query(paths[i].clone());
                },
                Some(Some(pkg)) => {
                    self.register_package(pkg.as_str());
                    return LicenseStep::Done;
                },
                Some(None) => {},
            }
            i = i + 1;
        }
        assert(vs.skip(i as int) =~= Seq::<Seq<char>>::empty());
        LicenseStep::Done
    }

    /// Register a binary that was copied: the package that owns it, found
    /// under `usr/bin`, `usr/sbin`, `usr/lib/systemd` or `usr/lib/udev`.
    ///
    /// Returns `Query(path)` while the package database must still be asked
    /// about a path; record the answer with `record_query` and call again.
    pub fn register_binary(&mut self, binary: &str) -> (step: LicenseStep)
        ensures
            final(self).answers() == old(self).answers(),
            final(self).source_spec() == old(self).source_spec(),
            final(self).pkg_mgr_spec() == old(self).pkg_mgr_spec(),
            match resolve(old(self).answers(), binary_search_paths_spec(binary@)) {
                Resolution::Ask(p) => step matches LicenseStep::Query(q) && q@ == p
                    && final(self).packages() == old(self).packages(),
                Resolution::Owned(pkg) => step == LicenseStep::Done
                    && final(self).packages() == old(self).packages().insert(pkg),
                Resolution::Unowned => step == LicenseStep::Done
                    && final(self).packages() == old(self).packages(),
            },
    {
        let paths = binary_search_paths(binary);
        self.resolve_paths(&paths)
    }

    /// Register a library that was copied: the package that owns it, found
    /// in the library directories of the package manager.
    ///
    /// Returns `Query(path)` while the package database must still be asked
    /// about a path; record the answer with `record_query` and call again.
    pub fn register_library(&mut self, lib: &str) -> (step: LicenseStep)
        ensures
            final(self).answers() == old(self).answers(),
            final(self).source_spec() == old(self).source_spec(),
            final(self).pkg_mgr_spec() == old(self).pkg_mgr_spec(),
            match resolve(old(self).answers(), library_search_paths_spec(old(self).pkg_mgr_spec(), lib@)) {
                Resolution::Ask(p) => step matches LicenseStep::Query(q) && q@ == p
                    && final(self).packages() == old(self).packages(),
                Resolution::Owned(pkg) => step == LicenseStep::Done
                    && final(self).packages() == old(self).packages().insert(pkg),
                Resolution::Unowned => step == LicenseStep::Done
                    && final(self).packages() == old(self).packages(),
            },
    {
        let paths = library_search_paths(self.pkg_mgr, lib);
        self.resolve_paths(&paths)
    }

    /// The cached answer for a path, if it was asked about.
    fn cached_owner(&self, rel_path: &String) -> (r: Option<Option<String>>)
        ensures
            match r {
                Some(o) => self.answers().contains_key(rel_path@) && self.answers()[rel_path@] == owner_view(o),
                None => !self.answers().contains_key(rel_path@),
            },
    {
        let mut i: usize = self.cache.len();
        while i > 0
            invariant
                i <= self.cache@.len(),
                forall|k: int| i <= k < self.cache@.len() ==> self.cache@[k].0@ != rel_path@,
            decreases i,
        {
            if text::str_eq(self.cache[i - 1].0.as_str(), rel_path.as_str()) {
                proof {
                    lemma_cache_found(self.cache@, (i - 1) as int, rel_path@);
                }
                return Some(self.cache[i - 1].1.clone());
            }
            i = i - 1;
        }
        proof {
            lemma_cache_absent(self.cache@, rel_path@);
        }
        None
    }
}

/// A path the tracker asks about is one the database has not answered yet.
proof fn lemma_ask_unanswered(cache: Map<Seq<char>, Option<Seq<char>>>, paths: Seq<Seq<char>>)
    ensures
        resolve(cache, paths) matches Resolution::Ask(q) ==> !cache.contains_key(q) && paths.contains(q),
    decreases paths.len(),
{
    if paths.len() > 0 && cache.contains_key(paths[0]) && cache[paths[0]] is None {
        lemma_ask_unanswered(cache, paths.drop_first());
        if let Resolution::Ask(q) = resolve(cache, paths.drop_first()) {
            let k = choose|k: int| 0 <= k < paths.drop_first().len() && paths.drop_first()[k] == q;
            assert(paths[k + 1] == q);
        }
    }
    if paths.len() > 0 && !cache.contains_key(paths[0]) {
        assert(paths[0] == paths[0]);
    }
}

/// The package database is asked about each path at most once: the path the
/// tracker asks about has no answer yet, and once an answer for a path is
/// recorded the tracker never asks about that path again.
pub proof fn law_each_path_asked_once(
    answers: Map<Seq<char>, Option<Seq<char>>>,
    paths: Seq<Seq<char>>,
    p: Seq<char>,
    owner: Option<Seq<char>>,
)
    ensures
        resolve(answers, paths) matches Resolution::Ask(q) ==> !answers.contains_key(q) && paths.contains(q),
        resolve(answers.insert(p, owner), paths) != Resolution::Ask(p),
{
    lemma_ask_unanswered(answers, paths);
    lemma_ask_unanswered(answers.insert(p, owner), paths);
}

/// Packages are registered once: registering a package the tracker already
/// has changes nothing, registering one twice is registering it once, and
/// the count grows by one exactly for a new package.
pub proof fn law_register_dedup(t: LicenseTracker, pkg: Seq<char>)
    ensures
        t.packages().finite(),
        t.packages().contains(pkg) ==> t.packages().insert(pkg) == t.packages(),
        t.packages().insert(pkg).insert(pkg) == t.packages().insert(pkg),
        t.packages().insert(pkg).len() == t.packages().len() + (if t.packages().contains(pkg) { 0int } else { 1int }),
{
    vstd::seq_lib::seq_to_set_is_finite(text::views(t.packages@));
    if t.packages().contains(pkg) {
        assert(t.packages().insert(pkg) =~= t.packages());
    }
    assert(t.packages().insert(pkg).insert(pkg) =~= t.packages().insert(pkg));
}

/// The entry found by a scan from the back is the one the map holds.
proof fn lemma_cache_found(c: Seq<(String, Option<String>)>, i: int, k: Seq<char>)
    requires
        0 <= i < c.len(),
        c[i].0@ == k,
        forall|j: int| i < j < c.len() ==> c[j].0@ != k,
    ensures
        cache_map(c).contains_key(k),
        cache_map(c)[k] == owner_view(c[i].1),
    decreases c.len(),
{
    if i < c.len() - 1 {
        lemma_cache_found(c.drop_last(), i, k);
    }
}

/// A path with no entry is not in the map.
proof fn lemma_cache_absent(c: Seq<(String, Option<String>)>, k: Seq<char>)
    requires
        forall|j: int| 0 <= j < c.len() ==> c[j].0@ != k,
    ensures
        !cache_map(c).contains_key(k),
    decreases c.len(),
{
    if c.len() > 0 {
        lemma_cache_absent(c.drop_last(), k);
    }
}


/// The package database query about a path: the program and its arguments.
pub open spec fn query_command(pm: PackageManager, source: Seq<char>, rel_path: Seq<char>) -> (Seq<char>, Seq<Seq<char>>) {
    match pm {
        PackageManager::Rpm => ("rpm"@, seq!["--root"@, source, "-qf"@, "/"@ + rel_path, "--queryformat"@, "%{NAME}\n"@]),
        PackageManager::Apk => ("apk"@, seq!["info"@, "--root"@, source, "-W"@, "/"@ + rel_path]),
    }
}

/// Where the licenses of a package are looked for, in order, and where they go.
pub open spec fn license_copy_spec(source: Seq<char>, staging: Seq<char>, pkg: Seq<char>) -> (Seq<Seq<char>>, Seq<char>) {
    (seq![
        crate::paths::join(crate::paths::join(source, "usr/share/licenses"@), pkg),
        crate::paths::join(crate::paths::join(source, "usr/share/doc"@), pkg),
    ], crate::paths::join(crate::paths::join(staging, "usr/share/licenses"@), pkg))
}

/// One package's licenses: the directories to copy from (the first that is a
/// directory is copied) and the destination.
#[derive(Debug)]
pub struct LicenseCopy {
    pub package: String,
    pub candidates: Vec<String>,
    pub destination: String,
}

impl LicenseTracker {
    /// The package database query that answers who owns `rel_path`.
    pub fn query_args(&self, rel_path: &str) -> (r: (&'static str, Vec<String>))
        ensures
            r.0@ == query_command(self.pkg_mgr_spec(), self.source_spec(), rel_path@).0,
            text::views(r.1@) == query_command(self.pkg_mgr_spec(), self.source_spec(), rel_path@).1,
    {
        let abs = prefixed("/", rel_path);
        let mut v: Vec<String> = Vec::new();
        match self.pkg_mgr {
            PackageManager::Rpm => {
                v.push(String::from_str("--root"));
                v.push(String::from_str(self.source.as_str()));
                v.push(String::from_str("-qf"));
                v.push(abs);
                v.push(String::from_str("--queryformat"));
                v.push(String::from_str("%{NAME}\n"));
                assert(text::views(v@) =~= query_command(self.pkg_mgr_spec(), self.source_spec(), rel_path@).1);
                ("rpm", v)
            },
            PackageManager::Apk => {
                v.push(String::from_str("info"));
                v.push(String::from_str("--root"));
                v.push(String::from_str(self.source.as_str()));
                v.push(String::from_str("-W"));
                v.push(abs);
                assert(text::views(v@) =~= query_command(self.pkg_mgr_spec(), self.source_spec(), rel_path@).1);
                ("apk", v)
            },
        }
    }

    /// The license copies of every registered package, in registration order:
    /// `usr/share/licenses/<pkg>` of the source, else `usr/share/doc/<pkg>`,
    /// into `usr/share/licenses/<pkg>` of staging.
    pub fn copy_licenses(&self, source: &str, staging: &str) -> (r: Vec<LicenseCopy>)
        ensures
            r@.len() == self.packages().len(),
            forall|p: Seq<char>| self.packages().contains(p) <==> exists|i: int| 0 <= i < r@.len() && #[trigger] r@[i].package@ == p,
            forall|i: int| 0 <= i < r@.len() ==> (text::views(#[trigger] r@[i].candidates@), r@[i].destination@)
                == license_copy_spec(source@, staging@, r@[i].package@),
    {
        proof {
            use_type_invariant(self);
            text::views(self.packages@).unique_seq_to_set();
        }
        let lic_src = crate::paths::path_join(source, "usr/share/licenses");
        let doc_src = crate::paths::path_join(source, "usr/share/doc");
        let lic_dst = crate::paths::path_join(staging, "usr/share/licenses");
        let mut out: Vec<LicenseCopy> = Vec::new();
        let mut i: usize = 0;
        while i < self.packages.len()
            invariant
                i <= self.packages@.len(),
                lic_src@ == crate::paths::join(source@, "usr/share/licenses"@),
                doc_src@ == crate::paths::join(source@, "usr/share/doc"@),
                lic_dst@ == crate::paths::join(staging@, "usr/share/licenses"@),
                out@.len() == i,
                forall|k: int| 0 <= k < i ==> #[trigger] out@[k].package@ == self.packages@[k]@,
                forall|k: int| 0 <= k < i ==> (text::views(#[trigger] out@[k].candidates@), out@[k].destination@)
                    == license_copy_spec(source@, staging@, out@[k].package@),
            decreases self.packages@.len() - i,
        {
            let pkg = self.packages[i].as_str();
            let mut cands: Vec<String> = Vec::new();
            cands.push(crate::paths::path_join(lic_src.as_str(), pkg));
            cands.push(crate::paths::path_join(doc_src.as_str(), pkg));
            let dest = crate::paths::path_join(lic_dst.as_str(), pkg);
            assert(text::views(cands@) =~= license_copy_spec(source@, staging@, pkg@).0);
            out.push(LicenseCopy { package: String::from_str(pkg), candidates: cands, destination: dest });
            i = i + 1;
        }
        proof {
            assert forall|p: Seq<char>| self.packages().contains(p) implies exists|k: int| 0 <= k < out@.len() && #[trigger] out@[k].package@ == p by {
                let k = choose|k: int| 0 <= k < text::views(self.packages@).len() && text::views(self.packages@)[k] == p;
                assert(out@[k].package@ == p);
            }
            assert forall|p: Seq<char>| (exists|k: int| 0 <= k < out@.len() && #[trigger] out@[k].package@ == p) implies self.packages().contains(p) by {
                let k = choose|k: int| 0 <= k < out@.len() && #[trigger] out@[k].package@ == p;
                assert(text::views(self.packages@)[k] == p);
                assert(text::views(self.packages@).contains(p));
            }
        }
        out
    }
}

} // verus!
