//! Paths and decisions shared by the Alpine-based builds: the build context,
//! the download layout, busybox applets and kernel module discovery.

use vstd::prelude::*;
use crate::paths;
use crate::paths::{path_exists, path_join};
use crate::text;
use crate::text::{chars_of, contains_str, lines_vec, str_eq, string_of, trim_vec};

verus! {

/// Paths of an Alpine-based build.
#[derive(Debug)]
pub struct BuildContext {
    /// The source rootfs (Alpine rootfs with binaries).
    pub source: String,
    /// The staging directory the filesystem is built in.
    pub staging: String,
    /// The project directory.
    pub base_dir: String,
    /// The output directory.
    pub output: String,
}

/// Why a build context could not be made.
#[derive(Debug, PartialEq, Eq)]
pub enum ContextError {
    /// The Alpine rootfs is missing; `build_cmd` is the command that fetches it.
    RootfsMissing { source: String, build_cmd: String },
}

impl ContextError {
    /// The text of the error: where the rootfs was looked for, and the command
    /// that fetches it.
    pub fn message(&self) -> (r: String)
        ensures
            match self {
                ContextError::RootfsMissing { source, build_cmd } =>
                    r@ == "Alpine rootfs not found at "@ + source@ + ".\nRun '"@ + build_cmd@ + "' first."@,
            },
    {
        match self {
            ContextError::RootfsMissing { source, build_cmd } => {
                let mut m = String::from_str("Alpine rootfs not found at ");
                text::append_str(&mut m, source.as_str());
                text::append_str(&mut m, ".\nRun '");
                text::append_str(&mut m, build_cmd.as_str());
                text::append_str(&mut m, "' first.");
                m
            },
        }
    }
}

/// The rootfs of a project: `<base>/downloads/rootfs`.
pub open spec fn rootfs_of(base_dir: Seq<char>) -> Seq<char> {
    paths::join(paths::join(base_dir, "downloads"@), "rootfs"@)
}

impl BuildContext {
    /// The context over `<base>/downloads/rootfs`, given whether that rootfs
    /// exists (`rootfs_exists`) and whether it has a `bin` directory
    /// (`bin_exists`): both are needed, and the output directory is
    /// `<base>/output`; otherwise the rootfs is reported missing, with the
    /// command that fetches it.
    pub fn context_from(base_dir: &str, staging: &str, build_cmd: &str, rootfs_exists: bool, bin_exists: bool) -> (r: Result<Self, ContextError>)
        ensures
            r is Ok <==> rootfs_exists && bin_exists,
            r matches Ok(c) ==> c.source@ == rootfs_of(base_dir@) && c.staging@ == staging@ && c.base_dir@ == base_dir@
                && c.output@ == paths::join(base_dir@, "output"@),
            r matches Err(ContextError::RootfsMissing { source: s, build_cmd: b }) ==> s@ == rootfs_of(base_dir@)
                && b@ == build_cmd@,
    {
        let downloads = path_join(base_dir, "downloads");
        let source = path_join(downloads.as_str(), "rootfs");
        let output = path_join(base_dir, "output");
        if !rootfs_exists || !bin_exists {
            return Err(ContextError::RootfsMissing { source, build_cmd: String::from_str(build_cmd) });
        }
        Ok(BuildContext { source, staging: String::from_str(staging), base_dir: String::from_str(base_dir), output })
    }

    /// A context over `<base>/downloads/rootfs`, which must exist with a `bin`
    /// directory in it; the output directory is `<base>/output`. The two
    /// existence checks are made on the file system, and the answer is
    /// [`BuildContext::context_from`] on them.
    pub fn new(base_dir: &str, staging: &str, build_cmd: &str) -> (r: Result<Self, ContextError>)
        ensures
            r matches Ok(c) ==> c.source@ == rootfs_of(base_dir@) && c.staging@ == staging@ && c.base_dir@ == base_dir@
                && c.output@ == paths::join(base_dir@, "output"@),
            r matches Err(ContextError::RootfsMissing { source: s, build_cmd: b }) ==> s@ == rootfs_of(base_dir@)
                && b@ == build_cmd@,
    {
        let downloads = path_join(base_dir, "downloads");
        let source = path_join(downloads.as_str(), "rootfs");
        let bin = path_join(source.as_str(), "bin");
        let rootfs_exists = path_exists(source.as_str());
        let bin_exists = rootfs_exists && path_exists(bin.as_str());
        Self::context_from(base_dir, staging, build_cmd, rootfs_exists, bin_exists)
    }

    /// A context staging into `<base>/output/rootfs`, with the same checks as
    /// [`BuildContext::new`] (decided by [`BuildContext::from_base_dir_with`]), together with the staging directory to create
    /// (with its parents) before the build writes to it.
    pub fn from_base_dir(base_dir: &str, build_cmd: &str) -> (r: Result<(Self, String), ContextError>)
        ensures
            r matches Ok((c, d)) ==> c.source@ == rootfs_of(base_dir@) && c.base_dir@ == base_dir@
                && c.staging@ == paths::join(paths::join(base_dir@, "output"@), "rootfs"@)
                && c.output@ == paths::join(base_dir@, "output"@)
                && d@ == c.staging@,
            r matches Err(ContextError::RootfsMissing { source: s, build_cmd: b }) ==> s@ == rootfs_of(base_dir@)
                && b@ == build_cmd@,
    {
        let downloads = path_join(base_dir, "downloads");
        let source = path_join(downloads.as_str(), "rootfs");
        let bin = path_join(source.as_str(), "bin");
        let rootfs_exists = path_exists(source.as_str());
        let bin_exists = rootfs_exists && path_exists(bin.as_str());
        Self::from_base_dir_with(base_dir, build_cmd, rootfs_exists, bin_exists)
    }

    /// [`BuildContext::from_base_dir`] given whether the rootfs and its `bin`
    /// directory exist: the context and the staging directory to create
    /// exactly when both do.
    pub fn from_base_dir_with(base_dir: &str, build_cmd: &str, rootfs_exists: bool, bin_exists: bool) -> (r: Result<(Self, String), ContextError>)
        ensures
            r is Ok <==> rootfs_exists && bin_exists,
            r matches Ok((c, d)) ==> c.source@ == rootfs_of(base_dir@) && c.base_dir@ == base_dir@
                && c.staging@ == paths::join(paths::join(base_dir@, "output"@), "rootfs"@)
                && c.output@ == paths::join(base_dir@, "output"@)
                && d@ == c.staging@,
            r matches Err(ContextError::RootfsMissing { source: s, build_cmd: b }) ==> s@ == rootfs_of(base_dir@)
                && b@ == build_cmd@,
    {
        let out = path_join(base_dir, "output");
        let staging = path_join(out.as_str(), "rootfs");
        let c = Self::context_from(base_dir, staging.as_str(), build_cmd, rootfs_exists, bin_exists)?;
        Ok((c, staging))
    }

    /// A context over the given directories, without checking them.
    pub fn for_testing(source: &str, staging: &str, base_dir: &str) -> (r: Self)
        ensures
            r.source@ == source@,
            r.staging@ == staging@,
            r.base_dir@ == base_dir@,
            r.output@ == paths::join(base_dir@, "output"@),
    {
        BuildContext {
            source: String::from_str(source),
            staging: String::from_str(staging),
            base_dir: String::from_str(base_dir),
            output: path_join(base_dir, "output"),
        }
    }

    /// The library directory of the distribution: Alpine (musl) uses `usr/lib`.
    pub fn lib_path(&self) -> (r: &'static str)
        ensures
            r@ == "usr/lib"@,
    {
        "usr/lib"
    }

    /// Whether `path` exists in the source rootfs.
    pub fn source_exists(&self, path: &str) -> (r: bool) {
        let p = path_join(self.source.as_str(), path);
        path_exists(p.as_str())
    }

    /// Whether a binary exists in the source rootfs, under `usr/bin` or `bin`.
    pub fn binary_exists(&self, name: &str) -> (r: bool) {
        let a = path_join(self.source.as_str(), "usr/bin");
        let a = path_join(a.as_str(), name);
        if path_exists(a.as_str()) {
            return true;
        }
        let b = path_join(self.source.as_str(), "bin");
        let b = path_join(b.as_str(), name);
        path_exists(b.as_str())
    }

    /// The path of a binary relative to the source rootfs: the first of
    /// `usr/bin`, `bin`, `usr/sbin` and `sbin` that holds it.
    pub fn find_binary(&self, name: &str) -> (r: Option<String>)
        ensures
            r matches Some(p) ==> binary_candidates(name@).contains(p@),
    {
        crate::executor::find_binary(self.source.as_str(), name)
    }
}

/// Index of the first `true` of `flags`, or `-1`.
pub open spec fn first_true(flags: Seq<bool>) -> int
    decreases flags.len(),
{
    if flags.len() == 0 {
        -1
    } else if flags[0] {
        0
    } else {
        let k = first_true(flags.drop_first());
        if k < 0 { -1 } else { k + 1 }
    }
}

pub(crate) proof fn lemma_first_true(flags: Seq<bool>)
    ensures
        -1 <= first_true(flags) < flags.len(),
        first_true(flags) >= 0 ==> flags[first_true(flags)],
        forall|j: int| 0 <= j < flags.len() && (first_true(flags) < 0 || j < first_true(flags)) ==> !flags[j],
    decreases flags.len(),
{
    if flags.len() > 0 && !flags[0] {
        lemma_first_true(flags.drop_first());
        assert forall|j: int| 0 <= j < flags.len() && (first_true(flags) < 0 || j < first_true(flags)) implies !flags[j] by {
            if j > 0 {
                assert(flags[j] == flags.drop_first()[j - 1]);
            }
        }
    }
}

/// The binary found, given which of the candidate paths (`usr/bin`, `bin`,
/// `usr/sbin`, `sbin`, in order) exist in the source rootfs: the first that
/// does; `None` when none of the given answers is yes.
pub fn first_present_binary(name: &str, present: &Vec<bool>) -> (r: Option<String>)
    requires
        present@.len() <= 4,
    ensures
        first_true(present@) < 0 ==> r is None,
        first_true(present@) >= 0 ==> (r matches Some(p) && p@ == binary_candidates(name@)[first_true(present@)]),
{
    proof {
        lemma_first_true(present@);
    }
    let cands = binary_candidate_list(name);
    let mut i: usize = 0;
    while i < present.len()
        invariant
            i <= present@.len() <= 4,
            text::views(cands@) == binary_candidates(name@),
            forall|j: int| 0 <= j < i ==> !present@[j],
            -1 <= first_true(present@) < present@.len(),
            first_true(present@) >= 0 ==> present@[first_true(present@)],
            forall|j: int| 0 <= j < present@.len() && (first_true(present@) < 0 || j < first_true(present@)) ==> !present@[j],
        decreases present.len() - i,
    {
        if present[i] {
            proof {
                let k = first_true(present@);
                if 0 <= k < i {
                    assert(!present@[k]);
                }
                if k < 0 || k > i {
                    assert(!present@[i as int]);
                }
                assert(cands@.len() == text::views(cands@).len());
                assert(text::views(cands@)[i as int] == cands@[i as int]@);
            }
            return Some(String::from_str(cands[i].as_str()));
        }
        i = i + 1;
    }
    None
}

/// Where a binary is looked for, relative to a rootfs, in order.
pub open spec fn binary_candidates(name: Seq<char>) -> Seq<Seq<char>> {
    seq![
        paths::join("usr/bin"@, name),
        paths::join("bin"@, name),
        paths::join("usr/sbin"@, name),
        paths::join("sbin"@, name),
    ]
}

pub(crate) fn binary_candidate_list(name: &str) -> (r: Vec<String>)
    ensures
        text::views(r@) == binary_candidates(name@),
{
    let mut v: Vec<String> = Vec::new();
    v.push(path_join("usr/bin", name));
    v.push(path_join("bin", name));
    v.push(path_join("usr/sbin", name));
    v.push(path_join("sbin", name));
    assert(text::views(v@) =~= binary_candidates(name@));
    v
}

/// Where the Alpine downloads go.
#[derive(Debug)]
pub struct ExtractPaths {
    pub downloads: String,
    pub iso: String,
    pub iso_contents: String,
    pub rootfs: String,
    pub apk_tools: String,
}

impl ExtractPaths {
    /// The download layout under `<base>/downloads`.
    pub fn new(base_dir: &str) -> (r: Self)
        ensures
            r.downloads@ == paths::join(base_dir@, "downloads"@),
            r.iso@ == paths::join(r.downloads@, "alpine-extended-3.23.2-x86_64.iso"@),
            r.iso_contents@ == paths::join(r.downloads@, "iso-contents"@),
            r.rootfs@ == paths::join(r.downloads@, "rootfs"@),
            r.apk_tools@ == paths::join(r.downloads@, "apk-tools"@),
    {
        let downloads = path_join(base_dir, "downloads");
        ExtractPaths {
            iso: path_join(downloads.as_str(), "alpine-extended-3.23.2-x86_64.iso"),
            iso_contents: path_join(downloads.as_str(), "iso-contents"),
            rootfs: path_join(downloads.as_str(), "rootfs"),
            apk_tools: path_join(downloads.as_str(), "apk-tools"),
            downloads,
        }
    }
}

/// The applets `busybox --list` prints: its lines, trimmed, without blank ones.
pub open spec fn applets_of(stdout: Seq<char>) -> Seq<Seq<char>> {
    text::lines_of(stdout).map_values(|l: Seq<char>| text::trim(l)).filter(|l: Seq<char>| l.len() > 0)
}

/// The applets to link: those busybox lists when `busybox --list` succeeded,
/// the common applets otherwise.
pub fn busybox_applets(list_output: Option<&str>, common_applets: &Vec<String>) -> (r: Vec<String>)
    ensures
        match list_output {
            Some(out) => text::views(r@) == applets_of(out@),
            None => text::views(r@) == text::views(common_applets@),
        },
{
    match list_output {
        Some(out) => {
            let chars = chars_of(out);
            let ls = lines_vec(&chars);
            let ghost mapped = text::lines_of(out@).map_values(|l: Seq<char>| text::trim(l));
            let ghost pred = |l: Seq<char>| l.len() > 0;
            let mut res: Vec<String> = Vec::new();
            let mut i: usize = 0;
            while i < ls.len()
                invariant
                    i <= ls.len(),
                    ls@.len() == text::lines_of(out@).len(),
                    forall|k: int| 0 <= k < ls@.len() ==> #[trigger] ls@[k]@ == text::lines_of(out@)[k],
                    mapped == text::lines_of(out@).map_values(|l: Seq<char>| text::trim(l)),
                    pred == (|l: Seq<char>| l.len() > 0),
                    text::views(res@) == mapped.take(i as int).filter(pred),
                decreases ls.len() - i,
            {
                let t = trim_vec(&ls[i]);
                let ghost prev = text::views(res@);
                proof {
                    assert(mapped.take(i as int + 1) =~= mapped.take(i as int).push(mapped[i as int]));
                    mapped.take(i as int).lemma_filter_push(mapped[i as int], pred);
                    assert(mapped[i as int] == t@);
                }
                if t.len() > 0 {
                    res.push(string_of(&t));
                    assert(text::views(res@) =~= prev.push(t@));
                }
                i = i + 1;
            }
            assert(mapped.take(ls.len() as int) =~= mapped);
            res
        },
        None => {
            let mut res: Vec<String> = Vec::new();
            let mut i: usize = 0;
            while i < common_applets.len()
                invariant
                    i <= common_applets.len(),
                    res@.len() == i,
                    forall|k: int| 0 <= k < i ==> #[trigger] res@[k]@ == common_applets@[k]@,
                decreases common_applets.len() - i,
            {
                res.push(String::from_str(common_applets[i].as_str()));
                i = i + 1;
            }
            assert(text::views(res@) =~= text::views(common_applets@));
            res
        },
    }
}

/// The links busybox applets get in a staging directory: an applet listed
/// among the sbin applets goes to `usr/sbin`, any other to `usr/bin`; `sh`
/// comes last, in `usr/bin`. Every link points at `/usr/bin/busybox`.
pub open spec fn applet_link(staging: Seq<char>, applet: Seq<char>, sbin: Seq<Seq<char>>) -> Seq<char> {
    if sbin.contains(applet) {
        paths::join(paths::join(staging, "usr/sbin"@), applet)
    } else {
        paths::join(paths::join(staging, "usr/bin"@), applet)
    }
}

/// The symlinks to create for the applets (each only where nothing exists yet).
pub fn applet_links(staging: &str, applets: &Vec<String>, sbin_applets: &Vec<String>) -> (r: Vec<String>)
    ensures
        r@.len() == applets@.len() + 1,
        forall|k: int| 0 <= k < applets@.len() ==> #[trigger] r@[k]@ == applet_link(staging@, applets@[k]@, text::views(sbin_applets@)),
        r@[applets@.len() as int]@ == paths::join(paths::join(staging@, "usr/bin"@), "sh"@),
{
    let bin_dir = path_join(staging, "usr/bin");
    let sbin_dir = path_join(staging, "usr/sbin");
    let mut res: Vec<String> = Vec::new();
    let mut i: usize = 0;
    while i < applets.len()
        invariant
            i <= applets.len(),
            bin_dir@ == paths::join(staging@, "usr/bin"@),
            sbin_dir@ == paths::join(staging@, "usr/sbin"@),
            res@.len() == i,
            forall|k: int| 0 <= k < i ==> #[trigger] res@[k]@ == applet_link(staging@, applets@[k]@, text::views(sbin_applets@)),
        decreases applets.len() - i,
    {
        let a = applets[i].as_str();
        let mut in_sbin = false;
        let mut k: usize = 0;
        while k < sbin_applets.len()
            invariant
                k <= sbin_applets.len(),
                in_sbin == exists|m: int| 0 <= m < k && sbin_applets@[m]@ == a@,
            decreases sbin_applets.len() - k,
        {
            if str_eq(sbin_applets[k].as_str(), a) {
                in_sbin = true;
            }
            k = k + 1;
        }
        proof {
            if in_sbin {
                let m = choose|m: int| 0 <= m < k && sbin_applets@[m]@ == a@;
                assert(text::views(sbin_applets@)[m] == a@);
            } else if text::views(sbin_applets@).contains(a@) {
                let m = choose|m: int| 0 <= m < text::views(sbin_applets@).len() && text::views(sbin_applets@)[m] == a@;
                assert(sbin_applets@[m]@ == a@);
            }
        }
        let link = if in_sbin { path_join(sbin_dir.as_str(), a) } else { path_join(bin_dir.as_str(), a) };
        res.push(link);
        i = i + 1;
    }
    res.push(path_join(bin_dir.as_str(), "sh"));
    res
}

/// The kernel version among the entries of a modules directory: the first
/// directory whose name holds a dot.
pub open spec fn kernel_version_index(entries: Seq<(Seq<char>, bool)>) -> int
    decreases entries.len(),
{
    if entries.len() == 0 {
        -1
    } else if text::contains(entries[0].0, "."@) && entries[0].1 {
        0
    } else {
        let k = kernel_version_index(entries.drop_first());
        if k < 0 { -1 } else { k + 1 }
    }
}

/// Views of directory entries: name and whether it is a directory.
pub open spec fn entry_views(v: Seq<(String, bool)>) -> Seq<(Seq<char>, bool)> {
    v.map_values(|e: (String, bool)| (e.0@, e.1))
}

/// The kernel version of a modules directory, given its entries in the order
/// they are read; `None` when no directory name holds a dot.
pub fn find_kernel_version(entries: &Vec<(String, bool)>) -> (r: Option<String>)
    ensures
        kernel_version_index(entry_views(entries@)) < 0 ==> r is None,
        kernel_version_index(entry_views(entries@)) >= 0 ==> (r matches Some(v)
            && v@ == entries@[kernel_version_index(entry_views(entries@))].0@),
{
    let mut i: usize = 0;
    assert(entry_views(entries@).subrange(0, entries@.len() as int) =~= entry_views(entries@));
    while i < entries.len()
        invariant
            i <= entries.len(),
            kernel_version_index(entry_views(entries@)) < 0 || kernel_version_index(entry_views(entries@)) >= i,
            kernel_version_index(entry_views(entries@).subrange(i as int, entries@.len() as int)) >= 0
                ==> kernel_version_index(entry_views(entries@)) == i + kernel_version_index(entry_views(entries@).subrange(i as int, entries@.len() as int)),
            kernel_version_index(entry_views(entries@).subrange(i as int, entries@.len() as int)) < 0
                ==> kernel_version_index(entry_views(entries@)) < 0,
        decreases entries.len() - i,
    {
        let ghost rest = entry_views(entries@).subrange(i as int, entries@.len() as int);
        proof {
            assert(rest.drop_first() =~= entry_views(entries@).subrange(i as int + 1, entries@.len() as int));
            assert(rest[0] == (entries@[i as int].0@, entries@[i as int].1));
        }
        if entries[i].1 && contains_str(entries[i].0.as_str(), ".") {
            return Some(String::from_str(entries[i].0.as_str()));
        }
        i = i + 1;
    }
    proof {
        assert(entry_views(entries@).subrange(i as int, entries@.len() as int).len() == 0);
    }
    None
}

/// The arguments of `depmod` for a staging root and kernel version.
pub fn depmod_args(staging: &str, kernel_version: &str) -> (r: Vec<String>)
    ensures
        text::views(r@) == seq!["-a"@, "-b"@, staging@, kernel_version@],
{
    let mut v: Vec<String> = Vec::new();
    v.push(String::from_str("-a"));
    v.push(String::from_str("-b"));
    v.push(String::from_str(staging));
    v.push(String::from_str(kernel_version));
    assert(text::views(v@) =~= seq!["-a"@, "-b"@, staging@, kernel_version@]);
    v
}

/// Why `depmod` cannot be run.
#[derive(Debug, PartialEq, Eq)]
pub enum DepmodError {
    /// No directory under `lib/modules` is named like a kernel version.
    NoKernelModulesDir,
}

impl DepmodError {
    /// The text of the error.
    pub fn message(&self) -> (r: String)
        ensures
            r@ == "Could not find kernel modules directory"@,
    {
        String::from_str("Could not find kernel modules directory")
    }
}

/// The directory whose entries name the installed kernels: `<staging>/lib/modules`.
pub fn modules_dir(ctx: &BuildContext) -> (r: String)
    ensures
        r@ == paths::join(ctx.staging@, "lib/modules"@),
{
    path_join(ctx.staging.as_str(), "lib/modules")
}

/// Running `depmod` for the kernel of a staging tree: the arguments of
/// `depmod`, for the kernel version found among the entries of its modules
/// directory (in the order they are read).
pub fn run_depmod(ctx: &BuildContext, module_entries: &Vec<(String, bool)>) -> (r: Result<Vec<String>, DepmodError>)
    ensures
        kernel_version_index(entry_views(module_entries@)) < 0 ==> r == Err::<Vec<String>, DepmodError>(DepmodError::NoKernelModulesDir),
        kernel_version_index(entry_views(module_entries@)) >= 0 ==> (r matches Ok(a)
            && text::views(a@) == seq!["-a"@, "-b"@, ctx.staging@,
                module_entries@[kernel_version_index(entry_views(module_entries@))].0@]),
{
    match find_kernel_version(module_entries) {
        None => Err(DepmodError::NoKernelModulesDir),
        Some(v) => Ok(depmod_args(ctx.staging.as_str(), v.as_str())),
    }
}

/// Whether a copied file counts as a kernel module: its name holds `.ko`.
pub fn is_module_file(name: &str) -> (r: bool)
    ensures
        r == text::contains(name@, ".ko"@),
{
    contains_str(name, ".ko")
}


/// The merged `/usr` links and `/var` links of an Alpine staging tree, and
/// the `run/lock` directory; each link is made only where nothing exists yet.
#[derive(Debug)]
pub struct FhsSymlinkPlan {
    pub usr_links: Vec<(String, String)>,
    pub var_links: Vec<(String, String)>,
    pub run_lock: String,
}

/// Views of link and target pairs.
pub open spec fn link_views(v: Seq<(String, String)>) -> Seq<(Seq<char>, Seq<char>)> {
    v.map_values(|p: (String, String)| (p.0@, p.1@))
}

/// The FHS symlinks of an Alpine staging tree (musl has no `lib64`).
pub fn create_fhs_symlinks(ctx: &BuildContext) -> (r: FhsSymlinkPlan)
    ensures
        link_views(r.usr_links@) == seq![
            (paths::join(ctx.staging@, "bin"@), "usr/bin"@),
            (paths::join(ctx.staging@, "sbin"@), "usr/sbin"@),
            (paths::join(ctx.staging@, "lib"@), "usr/lib"@),
        ],
        link_views(r.var_links@) == seq![
            (paths::join(ctx.staging@, "var/run"@), "/run"@),
            (paths::join(ctx.staging@, "var/lock"@), "/run/lock"@),
        ],
        r.run_lock@ == paths::join(ctx.staging@, "run/lock"@),
{
    let st = ctx.staging.as_str();
    let mut usr_links: Vec<(String, String)> = Vec::new();
    usr_links.push((path_join(st, "bin"), String::from_str("usr/bin")));
    usr_links.push((path_join(st, "sbin"), String::from_str("usr/sbin")));
    usr_links.push((path_join(st, "lib"), String::from_str("usr/lib")));
    let mut var_links: Vec<(String, String)> = Vec::new();
    var_links.push((path_join(st, "var/run"), String::from_str("/run")));
    var_links.push((path_join(st, "var/lock"), String::from_str("/run/lock")));
    assert(link_views(usr_links@) =~= seq![
        (paths::join(ctx.staging@, "bin"@), "usr/bin"@),
        (paths::join(ctx.staging@, "sbin"@), "usr/sbin"@),
        (paths::join(ctx.staging@, "lib"@), "usr/lib"@),
    ]);
    assert(link_views(var_links@) =~= seq![
        (paths::join(ctx.staging@, "var/run"@), "/run"@),
        (paths::join(ctx.staging@, "var/lock"@), "/run/lock"@),
    ]);
    FhsSymlinkPlan { usr_links, var_links, run_lock: path_join(st, "run/lock") }
}

/// How the device manager (eudev) is set up in staging: the directories to
/// create, the rule trees to copy when the source has them, and the helper
/// directory whose regular files are copied when the source has it.
#[derive(Debug)]
pub struct DeviceManagerPlan {
    pub dirs: Vec<String>,
    pub tree_copies: Vec<(String, String)>,
    pub helpers_src: String,
    pub helpers_dst: String,
}

/// The device manager setup of a build: `dev` and `run/udev` in staging; the
/// rules of `etc/udev/rules.d` and `usr/lib/udev/rules.d`; the helpers of
/// `usr/lib/udev`.
pub fn setup_device_manager(ctx: &BuildContext) -> (r: DeviceManagerPlan)
    ensures
        text::views(r.dirs@) == seq![paths::join(ctx.staging@, "dev"@), paths::join(ctx.staging@, "run/udev"@)],
        link_views(r.tree_copies@) == seq![
            (paths::join(ctx.source@, "etc/udev/rules.d"@), paths::join(ctx.staging@, "etc/udev/rules.d"@)),
            (paths::join(ctx.source@, "usr/lib/udev/rules.d"@), paths::join(ctx.staging@, "usr/lib/udev/rules.d"@)),
        ],
        r.helpers_src@ == paths::join(ctx.source@, "usr/lib/udev"@),
        r.helpers_dst@ == paths::join(ctx.staging@, "usr/lib/udev"@),
{
    let st = ctx.staging.as_str();
    let src = ctx.source.as_str();
    let mut dirs: Vec<String> = Vec::new();
    dirs.push(path_join(st, "dev"));
    dirs.push(path_join(st, "run/udev"));
    let mut tree_copies: Vec<(String, String)> = Vec::new();
    tree_copies.push((path_join(src, "etc/udev/rules.d"), path_join(st, "etc/udev/rules.d")));
    tree_copies.push((path_join(src, "usr/lib/udev/rules.d"), path_join(st, "usr/lib/udev/rules.d")));
    assert(text::views(dirs@) =~= seq![paths::join(ctx.staging@, "dev"@), paths::join(ctx.staging@, "run/udev"@)]);
    assert(link_views(tree_copies@) =~= seq![
        (paths::join(ctx.source@, "etc/udev/rules.d"@), paths::join(ctx.staging@, "etc/udev/rules.d"@)),
        (paths::join(ctx.source@, "usr/lib/udev/rules.d"@), paths::join(ctx.staging@, "usr/lib/udev/rules.d"@)),
    ]);
    DeviceManagerPlan {
        dirs,
        tree_copies,
        helpers_src: path_join(src, "usr/lib/udev"),
        helpers_dst: path_join(st, "usr/lib/udev"),
    }
}

/// The SSH host keys a live image gets: key type and file name.
pub open spec fn host_keys_spec() -> Seq<(Seq<char>, Seq<char>)> {
    seq![("rsa"@, "ssh_host_rsa_key"@), ("ecdsa"@, "ssh_host_ecdsa_key"@), ("ed25519"@, "ssh_host_ed25519_key"@)]
}

/// A host key to generate: its type, its path, and the `ssh-keygen` arguments
/// (empty passphrase, the host comment).
#[derive(Debug)]
pub struct HostKeyPlan {
    pub key_type: String,
    pub key_path: String,
    pub keygen_args: Vec<String>,
}

/// The `ssh-keygen` arguments of a host key.
pub open spec fn keygen_args_spec(key_type: Seq<char>, key_path: Seq<char>, comment: Seq<char>) -> Seq<Seq<char>> {
    seq!["-t"@, key_type, "-f"@, key_path, "-N"@, ""@, "-C"@, comment]
}

fn host_key(ssh_dir: &str, key_type: &str, name: &str, comment: &str) -> (r: HostKeyPlan)
    ensures
        r.key_type@ == key_type@,
        r.key_path@ == paths::join(ssh_dir@, name@),
        text::views(r.keygen_args@) == keygen_args_spec(key_type@, paths::join(ssh_dir@, name@), comment@),
{
    proof {
        reveal_strlit("");
    }
    let key_path = path_join(ssh_dir, name);
    let mut a: Vec<String> = Vec::new();
    a.push(String::from_str("-t"));
    a.push(String::from_str(key_type));
    a.push(String::from_str("-f"));
    a.push(String::from_str(key_path.as_str()));
    a.push(String::from_str("-N"));
    a.push(String::from_str(""));
    a.push(String::from_str("-C"));
    a.push(String::from_str(comment));
    assert(text::views(a@) =~= keygen_args_spec(key_type@, key_path@, comment@));
    HostKeyPlan { key_type: String::from_str(key_type), key_path, keygen_args: a }
}

/// The SSH setup of a live image: the `etc/ssh` directory and the host keys
/// to generate there (each only when its file does not exist yet).
pub fn setup_ssh(ctx: &BuildContext, host_comment: &str) -> (r: (String, Vec<HostKeyPlan>))
    ensures
        r.0@ == paths::join(ctx.staging@, "etc/ssh"@),
        r.1@.len() == 3,
        forall|i: int| 0 <= i < 3 ==> #[trigger] r.1@[i].key_type@ == host_keys_spec()[i].0
            && r.1@[i].key_path@ == paths::join(r.0@, host_keys_spec()[i].1)
            && text::views(r.1@[i].keygen_args@) == keygen_args_spec(host_keys_spec()[i].0,
                paths::join(r.0@, host_keys_spec()[i].1), host_comment@),
{
    let ssh_dir = path_join(ctx.staging.as_str(), "etc/ssh");
    let mut keys: Vec<HostKeyPlan> = Vec::new();
    keys.push(host_key(ssh_dir.as_str(), "rsa", "ssh_host_rsa_key", host_comment));
    keys.push(host_key(ssh_dir.as_str(), "ecdsa", "ssh_host_ecdsa_key", host_comment));
    keys.push(host_key(ssh_dir.as_str(), "ed25519", "ssh_host_ed25519_key", host_comment));
    (ssh_dir, keys)
}

/// The WiFi firmware directories (and files) copied for laptops.
pub open spec fn wifi_firmware_spec() -> Seq<Seq<char>> {
    seq![
        "iwlwifi"@, "rtlwifi"@, "rtl_bt"@, "rtl_nic"@, "rtw88"@, "rtw89"@, "ath9k_htc"@, "ath10k"@, "ath11k"@,
        "mediatek"@, "brcm"@, "mrvl"@, "rt2870.bin"@, "rt3070.bin"@, "rt3290.bin"@,
    ]
}

/// The WiFi firmware copies: each entry of `lib/firmware` in the list, from
/// the source rootfs to staging (each only when it exists in the source).
pub fn copy_wifi_firmware(ctx: &BuildContext) -> (r: Vec<(String, String)>)
    ensures
        r@.len() == wifi_firmware_spec().len(),
        forall|i: int| 0 <= i < r@.len() ==> (#[trigger] r@[i].0)@ == paths::join(paths::join(ctx.source@, "lib/firmware"@),
            wifi_firmware_spec()[i]) && r@[i].1@ == paths::join(paths::join(ctx.staging@, "lib/firmware"@), wifi_firmware_spec()[i]),
{
    let names: Vec<&str> = vec![
        "iwlwifi", "rtlwifi", "rtl_bt", "rtl_nic", "rtw88", "rtw89", "ath9k_htc", "ath10k", "ath11k",
        "mediatek", "brcm", "mrvl", "rt2870.bin", "rt3070.bin", "rt3290.bin",
    ];
    assert(names@.map_values(|s: &str| s@) =~= wifi_firmware_spec());
    let src = path_join(ctx.source.as_str(), "lib/firmware");
    let dst = path_join(ctx.staging.as_str(), "lib/firmware");
    let mut out: Vec<(String, String)> = Vec::new();
    let mut i: usize = 0;
    while i < names.len()
        invariant
            i <= names.len(),
            names@.map_values(|s: &str| s@) == wifi_firmware_spec(),
            src@ == paths::join(ctx.source@, "lib/firmware"@),
            dst@ == paths::join(ctx.staging@, "lib/firmware"@),
            out@.len() == i,
            forall|k: int| 0 <= k < i ==> (#[trigger] out@[k].0)@ == paths::join(src@, names@[k]@) && out@[k].1@ == paths::join(dst@, names@[k]@),
        decreases names.len() - i,
    {
        let ghost before = out@;
        out.push((path_join(src.as_str(), names[i]), path_join(dst.as_str(), names[i])));
        proof {
            assert forall|k: int| 0 <= k < i + 1 implies (#[trigger] out@[k].0)@ == paths::join(src@, names@[k]@)
                && out@[k].1@ == paths::join(dst@, names@[k]@) by {
                if k < i {
                    assert(out@[k] == before[k]);
                }
            }
        }
        i = i + 1;
    }
    proof {
        assert forall|k: int| 0 <= k < out@.len() implies (#[trigger] out@[k].0)@ == paths::join(paths::join(ctx.source@, "lib/firmware"@),
            wifi_firmware_spec()[k]) && out@[k].1@ == paths::join(paths::join(ctx.staging@, "lib/firmware"@), wifi_firmware_spec()[k]) by {
            assert(names@.map_values(|s: &str| s@)[k] == names@[k]@);
            assert(names@[k]@ == wifi_firmware_spec()[k]);
            assert(out@[k].0@ == paths::join(src@, names@[k]@));
        }
    }
    out
}

/// Whether a library file is copied: its name holds `.so`.
pub fn is_shared_library(name: &str) -> (r: bool)
    ensures
        r == text::contains(name@, ".so"@),
{
    contains_str(name, ".so")
}

} // verus!
