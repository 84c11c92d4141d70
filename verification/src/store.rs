//! The content-addressed artifact store: its layout under `<repo>/.artifacts`,
//! the validation of kinds, keys and digests, the checks made before an
//! artifact is restored, and the index decisions of pruning and collection.

use vstd::prelude::*;
use crate::paths;
use crate::paths::{path_file_name, path_join, path_parent_or_self};
use crate::text;
use crate::text::{append_str, contains_str, str_eq, trim_str};

verus! {

/// Default store directory name at the repository root.
pub const DEFAULT_STORE_DIR: &'static str = ".artifacts";

/// Output directory root within the store.
pub const DEFAULT_OUTPUT_SUBDIR: &'static str = "out";

/// How an artifact is encoded as a blob.
#[derive(Debug, Clone, Copy, PartialEq, Eq, Structural)]
pub enum ArtifactFormat {
    /// A single file.
    File,
    /// A directory as a zstd-compressed tar archive.
    TarZst,
}

/// An index entry: the blob stored for an input key of a kind.
#[derive(Debug, Clone)]
pub struct IndexEntry {
    pub kind: String,
    pub input_key: String,
    pub blob_sha256: String,
    pub format: ArtifactFormat,
    pub size_bytes: u64,
    pub stored_at_unix: u64,
}

/// Why the store refused a request.
#[derive(Debug, PartialEq, Eq)]
pub enum StoreError {
    EmptyKind,
    KindHasSeparator { kind: String },
    KindHasDotDot { kind: String },
    EmptyKey,
    UnsafeKey,
    InvalidSha256 { value: String },
    NotStored { kind: String, input_key: String },
    BlobMissing { kind: String, input_key: String, blob_path: String },
    HashMismatch { kind: String, input_key: String, expected: String, actual: String },
    UnexpectedFormat { format: ArtifactFormat },
    KernelMissing { path: String },
    ModulesMissing { first: String, second: String },
    KeepLastZero,
}

/// Whether `s` holds the character `c`.
pub open spec fn has_char(s: Seq<char>, c: char) -> bool {
    text::contains(s, seq![c])
}

/// What is wrong with an artifact kind, if anything: it must be non-empty and
/// hold neither a path separator nor `..`.
pub open spec fn kind_problem(kind: Seq<char>) -> Option<StoreErrorKind> {
    if kind.len() == 0 {
        Some(StoreErrorKind::Empty)
    } else if has_char(kind, '/') || has_char(kind, '\\') {
        Some(StoreErrorKind::Separator)
    } else if text::contains(kind, ".."@) {
        Some(StoreErrorKind::DotDot)
    } else {
        None
    }
}

/// The shape of a validation failure.
#[derive(Debug)]
pub enum StoreErrorKind {
    Empty,
    Separator,
    DotDot,
}

/// Whether an input key is a safe file name segment.
pub open spec fn key_ok(key: Seq<char>) -> bool {
    key.len() > 0 && !has_char(key, '/') && !has_char(key, '\\') && !text::contains(key, ".."@)
}

/// An ASCII hexadecimal digit, either case.
pub open spec fn is_hex_digit(c: char) -> bool {
    ('0' <= c <= '9') || ('a' <= c <= 'f') || ('A' <= c <= 'F')
}

/// Sixty-four hexadecimal digits.
pub open spec fn hex_64(s: Seq<char>) -> bool {
    s.len() == 64 && forall|i: int| 0 <= i < s.len() ==> is_hex_digit(#[trigger] s[i])
}

fn contains_char(s: &str, c: &str) -> (r: bool)
    requires
        c@.len() == 1,
    ensures
        r == has_char(s@, c@[0]),
{
    assert(c@ =~= seq![c@[0]]);
    contains_str(s, c)
}

/// The error that refuses an artifact kind.
pub open spec fn kind_error(kind: Seq<char>, e: StoreError) -> bool {
    match kind_problem(kind) {
        None => false,
        Some(StoreErrorKind::Empty) => e matches StoreError::EmptyKind,
        Some(StoreErrorKind::Separator) => e matches StoreError::KindHasSeparator { kind: k } && k@ == kind,
        Some(StoreErrorKind::DotDot) => e matches StoreError::KindHasDotDot { kind: k } && k@ == kind,
    }
}

/// The error that refuses an input key.
pub open spec fn key_error(key: Seq<char>, e: StoreError) -> bool {
    if key.len() == 0 {
        e matches StoreError::EmptyKey
    } else if !key_ok(key) {
        e matches StoreError::UnsafeKey
    } else {
        false
    }
}

/// Check an artifact kind.
pub fn validate_kind(kind: &str) -> (r: Result<(), StoreError>)
    ensures
        match kind_problem(kind@) {
            None => r is Ok,
            Some(StoreErrorKind::Empty) => r matches Err(StoreError::EmptyKind),
            Some(StoreErrorKind::Separator) => r matches Err(StoreError::KindHasSeparator { kind: k }) && k@ == kind@,
            Some(StoreErrorKind::DotDot) => r matches Err(StoreError::KindHasDotDot { kind: k }) && k@ == kind@,
        },
{
    proof {
        reveal_strlit("/");
        reveal_strlit("\\");
    }
    if kind.unicode_len() == 0 {
        return Err(StoreError::EmptyKind);
    }
    if contains_char(kind, "/") || contains_char(kind, "\\") {
        return Err(StoreError::KindHasSeparator { kind: String::from_str(kind) });
    }
    if contains_str(kind, "..") {
        return Err(StoreError::KindHasDotDot { kind: String::from_str(kind) });
    }
    Ok(())
}

/// Check an input key.
pub fn validate_key(key: &str) -> (r: Result<(), StoreError>)
    ensures
        key_ok(key@) ==> r is Ok,
        key@.len() == 0 ==> r matches Err(StoreError::EmptyKey),
        key@.len() > 0 && !key_ok(key@) ==> r matches Err(StoreError::UnsafeKey),
{
    proof {
        reveal_strlit("/");
        reveal_strlit("\\");
    }
    if key.unicode_len() == 0 {
        return Err(StoreError::EmptyKey);
    }
    if contains_char(key, "/") || contains_char(key, "\\") || contains_str(key, "..") {
        return Err(StoreError::UnsafeKey);
    }
    Ok(())
}

fn is_hex_digit_exec(c: char) -> (r: bool)
    ensures
        r == is_hex_digit(c),
{
    ('0' <= c && c <= '9') || ('a' <= c && c <= 'f') || ('A' <= c && c <= 'F')
}

/// Whether a string is sixty-four hexadecimal digits.
pub fn is_hex_64(s: &str) -> (r: bool)
    ensures
        r == hex_64(s@),
{
    let v = text::chars_of(s);
    if v.len() != 64 {
        return false;
    }
    let mut i: usize = 0;
    while i < v.len()
        invariant
            i <= v.len(),
            v@ == s@,
            forall|k: int| 0 <= k < i ==> is_hex_digit(#[trigger] v@[k]),
        decreases v.len() - i,
    {
        if !is_hex_digit_exec(v[i]) {
            return false;
        }
        i = i + 1;
    }
    true
}

/// Check a hexadecimal SHA-256 digest.
pub fn validate_sha256(sha256: &str) -> (r: Result<(), StoreError>)
    ensures
        hex_64(sha256@) ==> r is Ok,
        !hex_64(sha256@) ==> (r matches Err(StoreError::InvalidSha256 { value: v }) && v@ == sha256@),
{
    if is_hex_64(sha256) {
        Ok(())
    } else {
        Err(StoreError::InvalidSha256 { value: String::from_str(sha256) })
    }
}

/// The store rooted at `<repo>/.artifacts`.
#[derive(Debug, Clone)]
pub struct ArtifactStore {
    root: String,
}

/// The file name `<key><ext>`.
pub open spec fn with_ext(key: Seq<char>, ext: Seq<char>) -> Seq<char> {
    key + ext
}

impl ArtifactStore {
    /// The root directory of the store.
    pub closed spec fn root_spec(self) -> Seq<char> {
        self.root@
    }

    /// The store at `<repo_root>/.artifacts`; its directories are created by the caller
    /// (see `layout_dirs`).
    pub fn open(repo_root: &str) -> (r: Self)
        ensures
            r.root_spec() == paths::join(repo_root@, DEFAULT_STORE_DIR@),
    {
        ArtifactStore { root: path_join(repo_root, DEFAULT_STORE_DIR) }
    }

    /// The store of the repository holding a distro crate directory: its parent,
    /// or the directory itself when it has none.
    pub fn open_for_distro(base_dir: &str) -> (r: Self)
        ensures
            r.root_spec() == paths::join(paths::parent_or_self(base_dir@), DEFAULT_STORE_DIR@),
    {
        let repo_root = path_parent_or_self(base_dir);
        Self::open(repo_root.as_str())
    }

    /// The root directory of the store.
    pub fn root(&self) -> (r: String)
        ensures
            r@ == self.root_spec(),
    {
        String::from_str(self.root.as_str())
    }

    /// `<root>/blobs`
    pub fn blobs_dir(&self) -> (r: String)
        ensures
            r@ == paths::join(self.root_spec(), "blobs"@),
    {
        path_join(self.root.as_str(), "blobs")
    }

    /// `<root>/index`
    pub fn index_dir(&self) -> (r: String)
        ensures
            r@ == paths::join(self.root_spec(), "index"@),
    {
        path_join(self.root.as_str(), "index")
    }

    /// `<root>/tmp`
    pub fn tmp_dir(&self) -> (r: String)
        ensures
            r@ == paths::join(self.root_spec(), "tmp"@),
    {
        path_join(self.root.as_str(), "tmp")
    }

    /// `<root>/locks`
    pub fn locks_dir(&self) -> (r: String)
        ensures
            r@ == paths::join(self.root_spec(), "locks"@),
    {
        path_join(self.root.as_str(), "locks")
    }

    /// The directories the store needs: `blobs/sha256`, `index`, `tmp` and `locks`.
    pub fn layout_dirs(&self) -> (r: Vec<String>)
        ensures
            text::views(r@) == seq![
                paths::join(paths::join(self.root_spec(), "blobs"@), "sha256"@),
                paths::join(self.root_spec(), "index"@),
                paths::join(self.root_spec(), "tmp"@),
                paths::join(self.root_spec(), "locks"@),
            ],
    {
        let b = self.blobs_dir();
        let mut v: Vec<String> = Vec::new();
        v.push(path_join(b.as_str(), "sha256"));
        v.push(self.index_dir());
        v.push(self.tmp_dir());
        v.push(self.locks_dir());
        assert(text::views(v@) =~= seq![
            paths::join(paths::join(self.root_spec(), "blobs"@), "sha256"@),
            paths::join(self.root_spec(), "index"@),
            paths::join(self.root_spec(), "tmp"@),
            paths::join(self.root_spec(), "locks"@),
        ]);
        v
    }

    /// The index directory of a kind.
    pub fn kind_dir(&self, kind: &str) -> (r: Result<String, StoreError>)
        ensures
            kind_problem(kind@) is None <==> r is Ok,
            r matches Ok(p) ==> p@ == paths::join(paths::join(self.root_spec(), "index"@), kind@),
            r matches Err(e) ==> kind_error(kind@, e),
    {
        validate_kind(kind)?;
        let i = self.index_dir();
        Ok(path_join(i.as_str(), kind))
    }

    /// `<root>/index/<kind>/<key>.json`
    pub fn index_path(&self, kind: &str, input_key: &str) -> (r: Result<String, StoreError>)
        ensures
            (kind_problem(kind@) is None && key_ok(input_key@)) <==> r is Ok,
            r matches Ok(p) ==> p@ == index_path_spec(self.root_spec(), kind@, input_key@),
            kind_problem(kind@) is Some ==> (r matches Err(e) && kind_error(kind@, e)),
            kind_problem(kind@) is None && !key_ok(input_key@) ==> (r matches Err(e) && key_error(input_key@, e)),
    {
        validate_kind(kind)?;
        validate_key(input_key)?;
        let i = self.index_dir();
        let k = path_join(i.as_str(), kind);
        let mut name = String::from_str(input_key);
        append_str(&mut name, ".json");
        Ok(path_join(k.as_str(), name.as_str()))
    }

    /// `<root>/locks/<kind>/<key>.lock`
    pub fn lock_path(&self, kind: &str, input_key: &str) -> (r: Result<String, StoreError>)
        ensures
            (kind_problem(kind@) is None && key_ok(input_key@)) <==> r is Ok,
            r matches Ok(p) ==> p@ == paths::join(paths::join(paths::join(self.root_spec(), "locks"@), kind@),
                with_ext(input_key@, ".lock"@)),
            kind_problem(kind@) is Some ==> (r matches Err(e) && kind_error(kind@, e)),
            kind_problem(kind@) is None && !key_ok(input_key@) ==> (r matches Err(e) && key_error(input_key@, e)),
    {
        validate_kind(kind)?;
        validate_key(input_key)?;
        let l = self.locks_dir();
        let k = path_join(l.as_str(), kind);
        let mut name = String::from_str(input_key);
        append_str(&mut name, ".lock");
        Ok(path_join(k.as_str(), name.as_str()))
    }

    /// `<root>/blobs/sha256/<first two digits>/<digest>`
    pub fn blob_path(&self, sha256: &str) -> (r: Result<String, StoreError>)
        ensures
            hex_64(sha256@) <==> r is Ok,
            r matches Ok(p) ==> p@ == blob_path_spec(self.root_spec(), sha256@),
            !hex_64(sha256@) ==> (r matches Err(StoreError::InvalidSha256 { value: v }) && v@ == sha256@),
    {
        validate_sha256(sha256)?;
        let v = text::chars_of(sha256);
        let pre = text::slice_vec(&v, 0, 2);
        let prefix = text::string_of(&pre);
        let b = self.blobs_dir();
        let s = path_join(b.as_str(), "sha256");
        let d = path_join(s.as_str(), prefix.as_str());
        Ok(path_join(d.as_str(), sha256))
    }

    /// The checks made before an indexed artifact is materialized: it must be
    /// indexed, its blob must exist and hash to the recorded digest. Gives the
    /// blob path and the format that says how to materialize it.
    pub fn materialize_to(
        &self,
        kind: &str,
        input_key: &str,
        entry: Option<&IndexEntry>,
        blob_exists: bool,
        actual_sha256: &str,
    ) -> (r: Result<(String, ArtifactFormat), StoreError>)
        ensures
            entry is None ==> (r matches Err(StoreError::NotStored { kind: k, input_key: i }) && k@ == kind@ && i@ == input_key@),
            entry matches Some(e) ==> {
                &&& !hex_64(e.blob_sha256@) ==> (r matches Err(StoreError::InvalidSha256 { value: v }) && v@ == e.blob_sha256@)
                &&& hex_64(e.blob_sha256@) && !blob_exists ==> (r matches Err(StoreError::BlobMissing { kind: k, input_key: i, blob_path: b })
                    && k@ == kind@ && i@ == input_key@ && b@ == blob_path_spec(self.root_spec(), e.blob_sha256@))
                &&& hex_64(e.blob_sha256@) && blob_exists && actual_sha256@ != e.blob_sha256@
                    ==> (r matches Err(StoreError::HashMismatch { kind: k, input_key: i, expected: x, actual: y })
                        && k@ == kind@ && i@ == input_key@ && x@ == e.blob_sha256@ && y@ == actual_sha256@)
                &&& hex_64(e.blob_sha256@) && blob_exists && actual_sha256@ == e.blob_sha256@
                    ==> (r matches Ok((p, f)) && f == e.format && p@ == blob_path_spec(self.root_spec(), e.blob_sha256@))
            },
    {
        let e = match entry {
            Some(e) => e,
            None => {
                return Err(StoreError::NotStored { kind: String::from_str(kind), input_key: String::from_str(input_key) });
            },
        };
        let blob = self.blob_path(e.blob_sha256.as_str())?;
        if !blob_exists {
            return Err(StoreError::BlobMissing {
                kind: String::from_str(kind),
                input_key: String::from_str(input_key),
                blob_path: blob,
            });
        }
        if !str_eq(actual_sha256, e.blob_sha256.as_str()) {
            return Err(StoreError::HashMismatch {
                kind: String::from_str(kind),
                input_key: String::from_str(input_key),
                expected: String::from_str(e.blob_sha256.as_str()),
                actual: String::from_str(actual_sha256),
            });
        }
        Ok((blob, e.format))
    }
}

/// The output name a distro directory maps to in the central output tree.
pub open spec fn central_output_name(dir_name: Seq<char>) -> Seq<char> {
    if dir_name == "leviso"@ {
        "levitate"@
    } else if dir_name == "AcornOS"@ {
        "acorn"@
    } else if dir_name == "IuppiterOS"@ {
        "iuppiter"@
    } else if dir_name == "RalphOS"@ {
        "ralph"@
    } else {
        dir_name
    }
}

/// The central output directory of a distro crate directory:
/// `<repo>/.artifacts/out/<name>`, where `leviso` is written `levitate` and so on.
pub fn central_output_dir_for_distro(base_dir: &str) -> (r: String)
    ensures
        r@ == paths::join(paths::join(paths::join(paths::parent_or_self(base_dir@), DEFAULT_STORE_DIR@), DEFAULT_OUTPUT_SUBDIR@),
            central_output_name(match paths::file_name(base_dir@) {
                Some(n) => n,
                None => "distro"@,
            })),
{
    let repo_root = path_parent_or_self(base_dir);
    let distro_name = match path_file_name(base_dir) {
        Some(n) => n,
        None => String::from_str("distro"),
    };
    let output_name: String = if str_eq(distro_name.as_str(), "leviso") {
        String::from_str("levitate")
    } else if str_eq(distro_name.as_str(), "AcornOS") {
        String::from_str("acorn")
    } else if str_eq(distro_name.as_str(), "IuppiterOS") {
        String::from_str("iuppiter")
    } else if str_eq(distro_name.as_str(), "RalphOS") {
        String::from_str("ralph")
    } else {
        distro_name
    };
    let a = path_join(repo_root.as_str(), DEFAULT_STORE_DIR);
    let b = path_join(a.as_str(), DEFAULT_OUTPUT_SUBDIR);
    path_join(b.as_str(), output_name.as_str())
}

/// The input key a key file holds: its trimmed contents, `None` when the file
/// is missing or blank.
pub open spec fn input_key_of(content: Option<Seq<char>>) -> Option<Seq<char>> {
    match content {
        Some(c) => if text::trim(c).len() == 0 { None } else { Some(text::trim(c)) },
        None => None,
    }
}

/// The view of an optional string slice.
pub open spec fn opt_view(o: Option<&str>) -> Option<Seq<char>> {
    match o {
        Some(s) => Some(s@),
        None => None,
    }
}

/// Read an input key from the contents of its key file (`None` when the file is missing).
pub fn read_input_key(content: Option<&str>) -> (r: Option<String>)
    ensures
        match input_key_of(opt_view(content)) {
            Some(k) => r matches Some(s) && s@ == k,
            None => r is None,
        },
{
    match content {
        Some(c) => {
            let k = trim_str(c);
            if k.unicode_len() == 0 {
                None
            } else {
                Some(k)
            }
        },
        None => None,
    }
}

/// Whether to restore a file artifact, and under which key: only when the
/// destination is missing and the key file names a key.
pub fn try_restore_file_from_key(dest_exists: bool, key_file_content: Option<&str>) -> (r: Option<String>)
    ensures
        dest_exists ==> r is None,
        !dest_exists ==> match input_key_of(opt_view(key_file_content)) {
            Some(k) => r matches Some(s) && s@ == k,
            None => r is None,
        },
{
    if dest_exists {
        return None;
    }
    read_input_key(key_file_content)
}

/// Whether to restore the kernel payload, and under which key: only when
/// `boot/vmlinuz` is missing from the staging directory and the key file names a key.
pub fn try_restore_kernel_payload_from_key(vmlinuz_exists: bool, key_file_content: Option<&str>) -> (r: Option<String>)
    ensures
        vmlinuz_exists ==> r is None,
        !vmlinuz_exists ==> match input_key_of(opt_view(key_file_content)) {
            Some(k) => r matches Some(s) && s@ == k,
            None => r is None,
        },
{
    if vmlinuz_exists {
        return None;
    }
    read_input_key(key_file_content)
}

/// Basic store statistics.
#[derive(Debug, Clone)]
pub struct StoreStatus {
    pub root: String,
    pub index_entries: u64,
    pub referenced_blobs: u64,
    pub referenced_bytes: u64,
}


/// The SHA-256 digest of a byte sequence, as the `sha2` crate computes it.
pub uninterp spec fn sha256_of(data: Seq<u8>) -> Seq<u8>;

/// `sha2::Sha256::digest`: the digest of `data`, which is 32 bytes long.
#[verifier::external_body]
fn sha256_digest(data: &[u8]) -> (r: Vec<u8>)
    ensures
        r@ == sha256_of(data@),
        r@.len() == 32,
{
    <sha2::Sha256 as sha2::Digest>::digest(data).to_vec()
}

/// The lowercase hexadecimal digit of `n` (below 16).
pub open spec fn hex_digit(n: int) -> char {
    if n < 10 {
        ('0' as int + n) as char
    } else {
        ('a' as int + n - 10) as char
    }
}

/// Bytes written as lowercase hexadecimal, two digits each.
pub open spec fn hex_of(b: Seq<u8>) -> Seq<char>
    decreases b.len(),
{
    if b.len() == 0 {
        Seq::empty()
    } else {
        hex_of(b.drop_last()) + seq![hex_digit(b.last() as int / 16), hex_digit(b.last() as int % 16)]
    }
}

proof fn lemma_hex_of(b: Seq<u8>)
    ensures
        hex_of(b).len() == 2 * b.len(),
        forall|i: int| 0 <= i < hex_of(b).len() ==> is_hex_digit(#[trigger] hex_of(b)[i]),
    decreases b.len(),
{
    if b.len() > 0 {
        lemma_hex_of(b.drop_last());
        let h = hex_of(b);
        let p = hex_of(b.drop_last());
        assert forall|i: int| 0 <= i < h.len() implies is_hex_digit(#[trigger] h[i]) by {
            if i < p.len() {
                assert(h[i] == p[i]);
            }
        }
    }
}

fn hex_digit_exec(n: u8) -> (c: char)
    requires
        n < 16,
    ensures
        c == hex_digit(n as int),
{
    if n < 10 {
        (n + 48u8) as char
    } else {
        (n + 87u8) as char
    }
}

/// Bytes written as lowercase hexadecimal.
pub fn hex_lower(bytes: &Vec<u8>) -> (r: String)
    ensures
        r@ == hex_of(bytes@),
{
    let mut out = String::new();
    let mut i: usize = 0;
    while i < bytes.len()
        invariant
            i <= bytes.len(),
            out@ == hex_of(bytes@.take(i as int)),
        decreases bytes.len() - i,
    {
        let b = bytes[i];
        out.push(hex_digit_exec(b / 16));
        out.push(hex_digit_exec(b % 16));
        assert(bytes@.take(i as int + 1).drop_last() =~= bytes@.take(i as int));
        i = i + 1;
    }
    assert(bytes@.take(bytes.len() as int) =~= bytes@);
    out
}

/// The lowercase hexadecimal SHA-256 digest of `data`: sixty-four digits.
pub fn sha256_hex(data: &[u8]) -> (r: String)
    ensures
        r@ == hex_of(sha256_of(data@)),
        hex_64(r@),
{
    let d = sha256_digest(data);
    proof {
        lemma_hex_of(d@);
    }
    hex_lower(&d)
}


/// Entries ordered newest first.
pub open spec fn newest_first(s: Seq<IndexEntry>) -> bool {
    forall|i: int, j: int| 0 <= i < j < s.len() ==> s[i].stored_at_unix >= s[j].stored_at_unix
}

/// The index entries of a kind in the order the store lists them: newest first.
pub fn list_kind_order(entries: Vec<IndexEntry>) -> (r: Vec<IndexEntry>)
    ensures
        r@.to_multiset() == entries@.to_multiset(),
        newest_first(r@),
{
    broadcast use vstd::seq_lib::group_to_multiset_ensures, vstd::multiset::group_multiset_axioms;
    let mut rest = entries;
    let mut out: Vec<IndexEntry> = Vec::new();
    while rest.len() > 0
        invariant
            out@.to_multiset().add(rest@.to_multiset()) == entries@.to_multiset(),
            newest_first(out@),
        decreases rest.len(),
    {
        let ghost rest0 = rest@;
        let e = rest.remove(0);
        proof {
            vstd::seq_lib::to_multiset_remove(rest0, 0);
        }
        let mut j: usize = 0;
        while j < out.len() && out[j].stored_at_unix >= e.stored_at_unix
            invariant
                j <= out.len(),
                forall|k: int| 0 <= k < j ==> out@[k].stored_at_unix >= e.stored_at_unix,
            decreases out.len() - j,
        {
            j = j + 1;
        }
        let ghost out0 = out@;
        out.insert(j, e);
        proof {
            vstd::seq_lib::to_multiset_insert(out0, j as int, e);
            assert(out@.to_multiset() == out0.to_multiset().insert(e));
            assert(rest@.to_multiset() == rest0.to_multiset().remove(e));
            assert(rest0.to_multiset().count(e) > 0) by {
                assert(rest0[0] == e);
                assert(rest0.contains(e));
                vstd::seq_lib::to_multiset_contains(rest0, e);
            }
            assert(out@.to_multiset().add(rest@.to_multiset()) =~= out0.to_multiset().add(rest0.to_multiset()));
            assert forall|a: int, b: int| 0 <= a < b < out@.len() implies out@[a].stored_at_unix >= out@[b].stored_at_unix by {
                if b < j {
                } else if a < j && b == j {
                } else if a < j {
                    assert(out@[b] == out0[b - 1]);
                } else if a == j {
                    assert(out@[b] == out0[b - 1]);
                    if j < out0.len() {
                        assert(out0[j as int].stored_at_unix < e.stored_at_unix);
                        assert(out0[j as int].stored_at_unix >= out0[b - 1].stored_at_unix);
                    }
                } else {
                    assert(out@[a] == out0[a - 1]);
                    assert(out@[b] == out0[b - 1]);
                }
            }
        }
    }
    proof {
        assert(rest@.to_multiset() =~= vstd::multiset::Multiset::<IndexEntry>::empty());
        assert(out@.to_multiset().add(vstd::multiset::Multiset::<IndexEntry>::empty()) =~= out@.to_multiset());
    }
    out
}


/// The input keys of the entries after the first `keep`.
pub open spec fn pruned_keys(s: Seq<IndexEntry>, keep: int) -> Seq<Seq<char>> {
    if keep >= s.len() {
        Seq::empty()
    } else {
        s.subrange(keep, s.len() as int).map_values(|e: IndexEntry| e.input_key@)
    }
}

/// The input keys pruning removes from a kind listed newest first: all but the
/// first `keep_last`, which must be at least one.
pub fn prune_keep_last(entries: &Vec<IndexEntry>, keep_last: usize) -> (r: Result<Vec<String>, StoreError>)
    ensures
        keep_last == 0 ==> r matches Err(StoreError::KeepLastZero),
        keep_last > 0 ==> (r matches Ok(keys) && text::views(keys@) == pruned_keys(entries@, keep_last as int)),
{
    if keep_last == 0 {
        return Err(StoreError::KeepLastZero);
    }
    let mut out: Vec<String> = Vec::new();
    let mut i: usize = keep_last;
    if i >= entries.len() {
        assert(text::views(out@) =~= pruned_keys(entries@, keep_last as int));
        return Ok(out);
    }
    while i < entries.len()
        invariant
            keep_last <= i <= entries.len(),
            keep_last < entries.len(),
            out@.len() == i - keep_last,
            forall|k: int| 0 <= k < out@.len() ==> #[trigger] out@[k]@ == entries@[keep_last + k].input_key@,
        decreases entries.len() - i,
    {
        out.push(String::from_str(entries[i].input_key.as_str()));
        i = i + 1;
    }
    assert(text::views(out@) =~= pruned_keys(entries@, keep_last as int));
    Ok(out)
}

/// A string without `c` has no position holding `c`.
proof fn lemma_no_char(s: Seq<char>, c: char)
    requires
        !has_char(s, c),
    ensures
        forall|i: int| 0 <= i < s.len() ==> s[i] != c,
{
    assert forall|i: int| 0 <= i < s.len() implies s[i] != c by {
        if s[i] == c {
            assert(s.subrange(i, i + 1) =~= seq![c]);
            assert(text::occurs_at(s, seq![c], i));
        }
    }
}

/// A name without `/` joined to a base does not end in `/`.
proof fn lemma_join_name_end(a: Seq<char>, b: Seq<char>)
    requires
        b.len() > 0,
        forall|i: int| 0 <= i < b.len() ==> b[i] != '/',
    ensures
        paths::join(a, b).len() > 0,
        paths::join(a, b).last() != '/',
        paths::join(a, b) == (if a.len() == 0 || a.last() == '/' { a + b } else { a + seq!['/'] + b }),
{
    assert(b[0] != '/');
    assert(b[b.len() - 1] != '/');
}

/// Joining names without `/` to bases that do not end in `/` can be undone:
/// equal results come from equal bases and equal names.
proof fn lemma_join_cancel(a: Seq<char>, b: Seq<char>, a2: Seq<char>, b2: Seq<char>)
    requires
        a.len() > 0 && a.last() != '/',
        a2.len() > 0 && a2.last() != '/',
        b.len() > 0 && forall|i: int| 0 <= i < b.len() ==> b[i] != '/',
        b2.len() > 0 && forall|i: int| 0 <= i < b2.len() ==> b2[i] != '/',
        paths::join(a, b) == paths::join(a2, b2),
    ensures
        a == a2,
        b == b2,
{
    lemma_join_name_end(a, b);
    lemma_join_name_end(a2, b2);
    let s = paths::join(a, b);
    assert(s[a.len() as int] == '/');
    assert(s[a2.len() as int] == '/');
    if a.len() < a2.len() {
        assert(s[a2.len() as int] == b[a2.len() - a.len() - 1]);
    } else if a2.len() < a.len() {
        assert(s[a.len() as int] == b2[a.len() - a2.len() - 1]);
    }
    assert(a =~= s.subrange(0, a.len() as int));
    assert(a2 =~= s.subrange(0, a2.len() as int));
    assert(b =~= s.subrange(a.len() as int + 1, s.len() as int));
    assert(b2 =~= s.subrange(a2.len() as int + 1, s.len() as int));
}

/// Joining different names to one base gives different paths.
proof fn lemma_join_same_base(x: Seq<char>, k: Seq<char>, k2: Seq<char>)
    requires
        k.len() > 0 && k[0] != '/',
        k2.len() > 0 && k2[0] != '/',
        paths::join(x, k) == paths::join(x, k2),
    ensures
        k == k2,
{
    let s = paths::join(x, k);
    let n: int = if x.len() == 0 || x.last() == '/' { x.len() as int } else { x.len() as int + 1 };
    assert(k =~= s.subrange(n, s.len() as int));
    assert(k2 =~= s.subrange(n, s.len() as int));
}

/// The index file of an artifact: `<root>/index/<kind>/<key>.json`.
pub open spec fn index_path_spec(root: Seq<char>, kind: Seq<char>, key: Seq<char>) -> Seq<char> {
    paths::join(paths::join(paths::join(root, "index"@), kind), with_ext(key, ".json"@))
}

/// The blob file of a digest: `<root>/blobs/sha256/<first two digits>/<digest>`.
pub open spec fn blob_path_spec(root: Seq<char>, sha256: Seq<char>) -> Seq<char> {
    paths::join(paths::join(paths::join(paths::join(root, "blobs"@), "sha256"@), sha256.subrange(0, 2)), sha256)
}

/// Index entries never collide: in one store, valid kinds and keys that
/// differ in either give different index files.
pub proof fn law_index_paths_distinct(root: Seq<char>, kind1: Seq<char>, key1: Seq<char>, kind2: Seq<char>, key2: Seq<char>)
    requires
        kind_problem(kind1) is None,
        kind_problem(kind2) is None,
        key_ok(key1),
        key_ok(key2),
    ensures
        index_path_spec(root, kind1, key1) == index_path_spec(root, kind2, key2) ==> kind1 == kind2 && key1 == key2,
{
    if index_path_spec(root, kind1, key1) == index_path_spec(root, kind2, key2) {
        reveal_strlit(".json");
        lemma_no_char(kind1, '/');
        lemma_no_char(kind2, '/');
        lemma_no_char(key1, '/');
        lemma_no_char(key2, '/');
        let x = paths::join(root, "index"@);
        let n1 = with_ext(key1, ".json"@);
        let n2 = with_ext(key2, ".json"@);
        assert forall|i: int| 0 <= i < n1.len() implies n1[i] != '/' by {
            if i >= key1.len() {
                assert(n1[i] == ".json"@[i - key1.len()]);
            }
        }
        assert forall|i: int| 0 <= i < n2.len() implies n2[i] != '/' by {
            if i >= key2.len() {
                assert(n2[i] == ".json"@[i - key2.len()]);
            }
        }
        lemma_join_name_end(x, kind1);
        lemma_join_name_end(x, kind2);
        lemma_join_cancel(paths::join(x, kind1), n1, paths::join(x, kind2), n2);
        lemma_join_same_base(x, kind1, kind2);
        assert(key1 =~= n1.subrange(0, key1.len() as int));
        assert(key2 =~= n2.subrange(0, key2.len() as int));
    }
}

/// Blobs never collide: in one store, different valid digests give
/// different blob files.
pub proof fn law_blob_paths_distinct(root: Seq<char>, sha1: Seq<char>, sha2: Seq<char>)
    requires
        hex_64(sha1),
        hex_64(sha2),
    ensures
        blob_path_spec(root, sha1) == blob_path_spec(root, sha2) ==> sha1 == sha2,
{
    if blob_path_spec(root, sha1) == blob_path_spec(root, sha2) {
        let x = paths::join(paths::join(root, "blobs"@), "sha256"@);
        let p1 = sha1.subrange(0, 2);
        let p2 = sha2.subrange(0, 2);
        assert(forall|i: int| 0 <= i < sha1.len() ==> is_hex_digit(#[trigger] sha1[i]));
        assert(forall|i: int| 0 <= i < sha2.len() ==> is_hex_digit(#[trigger] sha2[i]));
        assert forall|i: int| 0 <= i < p1.len() implies p1[i] != '/' by {
            assert(p1[i] == sha1[i]);
            assert(is_hex_digit(sha1[i]));
        }
        assert forall|i: int| 0 <= i < p2.len() implies p2[i] != '/' by {
            assert(p2[i] == sha2[i]);
            assert(is_hex_digit(sha2[i]));
        }
        assert forall|i: int| 0 <= i < sha1.len() implies sha1[i] != '/' by {
            assert(is_hex_digit(sha1[i]));
        }
        assert forall|i: int| 0 <= i < sha2.len() implies sha2[i] != '/' by {
            assert(is_hex_digit(sha2[i]));
        }
        lemma_join_name_end(x, p1);
        lemma_join_name_end(x, p2);
        lemma_join_cancel(paths::join(x, p1), sha1, paths::join(x, p2), sha2);
    }
}

/// Pruning keeps the newest: in a kind listed newest first, every entry kept
/// is at least as new as every entry removed, and exactly `keep` entries stay
/// when there are more.
pub proof fn law_prune_keeps_newest(s: Seq<IndexEntry>, keep: int)
    requires
        newest_first(s),
        keep > 0,
    ensures
        forall|i: int, j: int| 0 <= i < keep && i < s.len() && keep <= j < s.len() ==> s[i].stored_at_unix >= s[j].stored_at_unix,
        keep <= s.len() ==> pruned_keys(s, keep).len() == s.len() - keep,
        keep >= s.len() ==> pruned_keys(s, keep).len() == 0,
{
}

/// Whether a blob digest is one an index entry references.
pub open spec fn referenced(entries: Seq<IndexEntry>, sha: Seq<char>) -> bool {
    exists|i: int| 0 <= i < entries.len() && entries[i].blob_sha256@ == sha && hex_64(sha)
}

/// The digests the index references (those that are well formed), each once.
pub fn referenced_blobs(entries: &Vec<IndexEntry>) -> (r: Vec<String>)
    ensures
        text::views(r@).no_duplicates(),
        forall|sha: Seq<char>| text::views(r@).contains(sha) <==> referenced(entries@, sha),
{
    let mut out: Vec<String> = Vec::new();
    let mut i: usize = 0;
    while i < entries.len()
        invariant
            i <= entries.len(),
            text::views(out@).no_duplicates(),
            forall|sha: Seq<char>| text::views(out@).contains(sha) <==> referenced(entries@.take(i as int), sha),
        decreases entries.len() - i,
    {
        let sha = entries[i].blob_sha256.as_str();
        let ghost before = text::views(out@);
        if is_hex_64(sha) {
            let mut found = false;
            let mut k: usize = 0;
            while k < out.len()
                invariant
                    k <= out.len(),
                    found == exists|m: int| 0 <= m < k && out@[m]@ == sha@,
                decreases out.len() - k,
            {
                if str_eq(out[k].as_str(), sha) {
                    found = true;
                }
                k = k + 1;
            }
            if !found {
                out.push(String::from_str(sha));
                proof {
                    assert(text::views(out@) =~= before.push(sha@));
                    assert forall|a: int, b: int| 0 <= a < b < text::views(out@).len() implies text::views(out@)[a] != text::views(out@)[b] by {
                        if b == before.len() {
                            assert(out@[a]@ == before[a]);
                        }
                    }
                }
            } else {
                proof {
                    let m = choose|m: int| 0 <= m < k && out@[m]@ == sha@;
                    assert(before[m] == sha@);
                }
            }
        }
        proof {
            let t = entries@.take(i as int + 1);
            let now = text::views(out@);
            assert(now == before || (now == before.push(sha@) && hex_64(sha@)));
            assert(now == before ==> (!hex_64(sha@) || before.contains(sha@)));
            assert forall|x: Seq<char>| now.contains(x) <==> referenced(t, x) by {
                if referenced(t, x) {
                    let w = choose|w: int| 0 <= w < t.len() && t[w].blob_sha256@ == x && hex_64(x);
                    if w < i {
                        assert(entries@.take(i as int)[w] == t[w]);
                        assert(referenced(entries@.take(i as int), x));
                        assert(before.contains(x));
                        let q = choose|q: int| 0 <= q < before.len() && before[q] == x;
                        assert(now[q] == x);
                    } else {
                        assert(x == sha@);
                        if now != before {
                            assert(now[before.len() as int] == x);
                        }
                    }
                }
                if now.contains(x) {
                    let q = choose|q: int| 0 <= q < now.len() && now[q] == x;
                    if q < before.len() {
                        assert(before[q] == x);
                        assert(before.contains(x));
                        assert(referenced(entries@.take(i as int), x));
                        let w = choose|w: int| 0 <= w < i && entries@.take(i as int)[w].blob_sha256@ == x && hex_64(x);
                        assert(t[w] == entries@.take(i as int)[w]);
                    } else {
                        assert(x == sha@);
                        assert(t[i as int].blob_sha256@ == x);
                    }
                }
            }
        }
        i = i + 1;
    }
    assert(entries@.take(entries.len() as int) =~= entries@);
    out
}

/// Whether garbage collection removes a blob file: its name is a digest that
/// no index entry references.
pub open spec fn collectable(name: Seq<char>, referenced: Seq<Seq<char>>) -> bool {
    hex_64(name) && !referenced.contains(name)
}

/// The blob files garbage collection removes, in the order they are found.
pub fn gc_plan(blob_names: &Vec<String>, referenced: &Vec<String>) -> (r: Vec<String>)
    ensures
        text::views(r@) == text::views(blob_names@).filter(|n: Seq<char>| collectable(n, text::views(referenced@))),
{
    let ghost pred = |n: Seq<char>| collectable(n, text::views(referenced@));
    let mut out: Vec<String> = Vec::new();
    let mut i: usize = 0;
    while i < blob_names.len()
        invariant
            i <= blob_names.len(),
            pred == (|n: Seq<char>| collectable(n, text::views(referenced@))),
            text::views(out@) == text::views(blob_names@).take(i as int).filter(pred),
        decreases blob_names.len() - i,
    {
        let name = blob_names[i].as_str();
        let mut found = false;
        let mut k: usize = 0;
        while k < referenced.len()
            invariant
                k <= referenced.len(),
                found == exists|m: int| 0 <= m < k && referenced@[m]@ == name@,
            decreases referenced.len() - k,
        {
            if str_eq(referenced[k].as_str(), name) {
                found = true;
            }
            k = k + 1;
        }
        proof {
            if found {
                let m = choose|m: int| 0 <= m < k && referenced@[m]@ == name@;
                assert(text::views(referenced@)[m] == name@);
            } else {
                if text::views(referenced@).contains(name@) {
                    let m = choose|m: int| 0 <= m < text::views(referenced@).len() && text::views(referenced@)[m] == name@;
                    assert(referenced@[m]@ == name@);
                }
            }
        }
        let ghost prev = text::views(out@);
        let ghost t = text::views(blob_names@).take(i as int);
        proof {
            assert(text::views(blob_names@).take(i as int + 1) =~= t.push(name@));
            t.lemma_filter_push(name@, pred);
        }
        if is_hex_64(name) && !found {
            out.push(String::from_str(name));
            assert(text::views(out@) =~= prev.push(name@));
        }
        i = i + 1;
    }
    assert(text::views(blob_names@).take(blob_names.len() as int) =~= text::views(blob_names@));
    out
}

/// The parts of a staging directory stored as its kernel payload: the kernel
/// image, the modules directory that was found, and that directory's path
/// relative to staging, which the archive keeps.
#[derive(Debug)]
pub struct KernelPayloadPlan {
    pub vmlinuz: String,
    pub modules_dir: String,
    pub rel_modules: String,
}

/// The checks and paths of storing the kernel payload: the key must be safe,
/// `boot/vmlinuz` must exist, and the modules are taken from `lib/modules`, or
/// else `usr/lib/modules`, keeping that relative path in the archive.
pub fn put_kernel_payload(
    input_key: &str,
    staging_dir: &str,
    vmlinuz_exists: bool,
    lib_modules_exists: bool,
    usr_lib_modules_exists: bool,
) -> (r: Result<KernelPayloadPlan, StoreError>)
    ensures
        !key_ok(input_key@) ==> (r matches Err(e) && key_error(input_key@, e)),
        key_ok(input_key@) && !vmlinuz_exists ==> (r matches Err(StoreError::KernelMissing { path: p })
            && p@ == paths::join(staging_dir@, "boot/vmlinuz"@)),
        key_ok(input_key@) && vmlinuz_exists && !lib_modules_exists && !usr_lib_modules_exists
            ==> (r matches Err(StoreError::ModulesMissing { first: a, second: b })
                && a@ == paths::join(staging_dir@, "lib/modules"@) && b@ == paths::join(staging_dir@, "usr/lib/modules"@)),
        key_ok(input_key@) && vmlinuz_exists && lib_modules_exists ==> (r matches Ok(p)
            && p.vmlinuz@ == paths::join(staging_dir@, "boot/vmlinuz"@)
            && p.modules_dir@ == paths::join(staging_dir@, "lib/modules"@) && p.rel_modules@ == "lib/modules"@),
        key_ok(input_key@) && vmlinuz_exists && !lib_modules_exists && usr_lib_modules_exists ==> (r matches Ok(p)
            && p.vmlinuz@ == paths::join(staging_dir@, "boot/vmlinuz"@)
            && p.modules_dir@ == paths::join(staging_dir@, "usr/lib/modules"@) && p.rel_modules@ == "usr/lib/modules"@),
{
    validate_key(input_key)?;
    let vmlinuz = path_join(staging_dir, "boot/vmlinuz");
    if !vmlinuz_exists {
        return Err(StoreError::KernelMissing { path: vmlinuz });
    }
    let first = path_join(staging_dir, "lib/modules");
    let second = path_join(staging_dir, "usr/lib/modules");
    if lib_modules_exists {
        Ok(KernelPayloadPlan { vmlinuz, modules_dir: first, rel_modules: String::from_str("lib/modules") })
    } else if usr_lib_modules_exists {
        Ok(KernelPayloadPlan { vmlinuz, modules_dir: second, rel_modules: String::from_str("usr/lib/modules") })
    } else {
        Err(StoreError::ModulesMissing { first, second })
    }
}

impl ArtifactStore {
    /// The checks made before the kernel payload is restored: it must be
    /// indexed as a tar archive whose blob hashes to the recorded digest. Gives
    /// the blob to unpack and the staging paths to clear first.
    pub fn restore_kernel_payload(
        &self,
        input_key: &str,
        staging_dir: &str,
        entry: Option<&IndexEntry>,
        actual_sha256: &str,
    ) -> (r: Result<(String, Vec<String>), StoreError>)
        ensures
            entry is None ==> (r matches Err(StoreError::NotStored { kind: k, input_key: i }) && k@ == "kernel_payload"@
                && i@ == input_key@),
            entry matches Some(e) ==> {
                &&& e.format != ArtifactFormat::TarZst ==> (r matches Err(StoreError::UnexpectedFormat { format: f }) && f == e.format)
                &&& e.format == ArtifactFormat::TarZst && !hex_64(e.blob_sha256@) ==> (r matches Err(StoreError::InvalidSha256 { value: v })
                    && v@ == e.blob_sha256@)
                &&& e.format == ArtifactFormat::TarZst && hex_64(e.blob_sha256@) && actual_sha256@ != e.blob_sha256@
                    ==> (r matches Err(StoreError::HashMismatch { kind: k, input_key: i, expected: x, actual: y })
                        && k@ == "kernel_payload"@ && i@ == input_key@ && x@ == e.blob_sha256@ && y@ == actual_sha256@)
                &&& e.format == ArtifactFormat::TarZst && hex_64(e.blob_sha256@) && actual_sha256@ == e.blob_sha256@
                    ==> (r matches Ok((b, clear)) && b@ == blob_path_spec(self.root_spec(), e.blob_sha256@)
                        && text::views(clear@) == seq![paths::join(staging_dir@, "boot/vmlinuz"@),
                            paths::join(staging_dir@, "lib/modules"@), paths::join(staging_dir@, "usr/lib/modules"@)])
            },
    {
        let e = match entry {
            Some(e) => e,
            None => {
                return Err(StoreError::NotStored { kind: String::from_str("kernel_payload"), input_key: String::from_str(input_key) });
            },
        };
        if e.format != ArtifactFormat::TarZst {
            return Err(StoreError::UnexpectedFormat { format: e.format });
        }
        let blob = self.blob_path(e.blob_sha256.as_str())?;
        if !str_eq(actual_sha256, e.blob_sha256.as_str()) {
            return Err(StoreError::HashMismatch {
                kind: String::from_str("kernel_payload"),
                input_key: String::from_str(input_key),
                expected: String::from_str(e.blob_sha256.as_str()),
                actual: String::from_str(actual_sha256),
            });
        }
        let mut clear: Vec<String> = Vec::new();
        clear.push(path_join(staging_dir, "boot/vmlinuz"));
        clear.push(path_join(staging_dir, "lib/modules"));
        clear.push(path_join(staging_dir, "usr/lib/modules"));
        assert(text::views(clear@) =~= seq![paths::join(staging_dir@, "boot/vmlinuz"@),
            paths::join(staging_dir@, "lib/modules"@), paths::join(staging_dir@, "usr/lib/modules"@)]);
        Ok((blob, clear))
    }
}

} // verus!
