//! The component executor: what each generic operation does to a staging
//! tree, the binaries it looks up, and the libraries `ldd` reports.

use vstd::prelude::*;
use crate::alpine;
use crate::paths;
use crate::paths::{path_exists, path_join, path_parent};
use crate::text;
use crate::text::{chars_of, find_vec, first_word_vec, lines_vec, slice_vec, string_of};

verus! {

/// An operation of a component.
#[derive(Debug)]
pub enum Op {
    Dir(String),
    DirMode(String, u32),
    Dirs(Vec<String>),
    WriteFile(String, String),
    WriteFileMode(String, String, u32),
    Symlink(String, String),
    CopyFile(String),
    CopyTree(String),
    User { name: String, uid: u32, gid: u32, home: String, shell: String },
    Group { name: String, gid: u32 },
    Bin(String),
    Sbin(String),
    Bins(Vec<String>),
    Sbins(Vec<String>),
    /// A distro-specific operation, by name.
    Custom(String),
}

/// One change to the staging tree.
#[derive(Debug)]
pub enum FsAction {
    /// Create a directory and its parents.
    CreateDir { path: String },
    /// Set the permission bits of a path.
    SetMode { path: String, mode: u32 },
    /// Write a file.
    WriteFile { path: String, content: String },
    /// Remove whatever is at `link` and make it a symlink to `target`.
    ReplaceWithSymlink { link: String, target: String },
    /// Copy a file; it is an error when `src` does not exist.
    CopyFile { src: String, dst: String },
    /// Copy a directory tree; it is an error when `src` does not exist.
    CopyTree { src: String, dst: String },
    /// Add a user to the staging user database.
    EnsureUser { name: String, uid: u32, gid: u32, home: String, shell: String },
    /// Add a group to the staging group database.
    EnsureGroup { name: String, gid: u32 },
}

/// A change to the staging tree, with its strings as character sequences.
pub enum FsActionView {
    CreateDir { path: Seq<char> },
    SetMode { path: Seq<char>, mode: u32 },
    WriteFile { path: Seq<char>, content: Seq<char> },
    ReplaceWithSymlink { link: Seq<char>, target: Seq<char> },
    CopyFile { src: Seq<char>, dst: Seq<char> },
    CopyTree { src: Seq<char>, dst: Seq<char> },
    EnsureUser { name: Seq<char>, uid: u32, gid: u32, home: Seq<char>, shell: Seq<char> },
    EnsureGroup { name: Seq<char>, gid: u32 },
}

impl FsAction {
    pub open spec fn view(self) -> FsActionView {
        match self {
            FsAction::CreateDir { path } => FsActionView::CreateDir { path: path@ },
            FsAction::SetMode { path, mode } => FsActionView::SetMode { path: path@, mode },
            FsAction::WriteFile { path, content } => FsActionView::WriteFile { path: path@, content: content@ },
            FsAction::ReplaceWithSymlink { link, target } => FsActionView::ReplaceWithSymlink { link: link@, target: target@ },
            FsAction::CopyFile { src, dst } => FsActionView::CopyFile { src: src@, dst: dst@ },
            FsAction::CopyTree { src, dst } => FsActionView::CopyTree { src: src@, dst: dst@ },
            FsAction::EnsureUser { name, uid, gid, home, shell } =>
                FsActionView::EnsureUser { name: name@, uid, gid, home: home@, shell: shell@ },
            FsAction::EnsureGroup { name, gid } => FsActionView::EnsureGroup { name: name@, gid },
        }
    }
}

/// Views of a list of actions.
pub open spec fn action_views(v: Seq<FsAction>) -> Seq<FsActionView> {
    v.map_values(|a: FsAction| a.view())
}

/// Why an operation was not executed here.
#[derive(Debug, PartialEq, Eq)]
pub enum ExecError {
    /// Binary operations need the distro's library handling.
    BinaryNeedsDistro,
    /// Custom operations are the distro's own.
    CustomNeedsDistro,
}

impl ExecError {
    /// The text of the error.
    pub open spec fn message_spec(self) -> Seq<char> {
        match self {
            ExecError::BinaryNeedsDistro => "Binary operations require distro-specific handling"@,
            ExecError::CustomNeedsDistro => "Custom operations require distro-specific handling"@,
        }
    }

    /// The text of the error.
    pub fn message(&self) -> (r: String)
        ensures
            r@ == self.message_spec(),
    {
        match self {
            ExecError::BinaryNeedsDistro => String::from_str("Binary operations require distro-specific handling"),
            ExecError::CustomNeedsDistro => String::from_str("Custom operations require distro-specific handling"),
        }
    }
}

/// Creating the parent directory of a path, when it has one.
pub open spec fn parent_dirs(full: Seq<char>) -> Seq<FsActionView> {
    match paths::parent(full) {
        Some(p) => seq![FsActionView::CreateDir { path: p }],
        None => seq![],
    }
}

/// Creating a directory under staging.
pub open spec fn dir_actions(staging: Seq<char>, p: Seq<char>) -> Seq<FsActionView> {
    seq![FsActionView::CreateDir { path: paths::join(staging, p) }]
}

/// Creating a directory under staging and setting its mode.
pub open spec fn dirmode_actions(staging: Seq<char>, p: Seq<char>, mode: u32) -> Seq<FsActionView> {
    seq![
        FsActionView::CreateDir { path: paths::join(staging, p) },
        FsActionView::SetMode { path: paths::join(staging, p), mode },
    ]
}

/// Creating each of several directories under staging, in order.
pub open spec fn dirs_actions(staging: Seq<char>, ps: Seq<Seq<char>>) -> Seq<FsActionView> {
    ps.map_values(|p: Seq<char>| FsActionView::CreateDir { path: paths::join(staging, p) })
}

/// Writing a file under staging, after creating its parent directory.
pub open spec fn writefile_actions(staging: Seq<char>, p: Seq<char>, c: Seq<char>) -> Seq<FsActionView> {
    parent_dirs(paths::join(staging, p)) + seq![FsActionView::WriteFile { path: paths::join(staging, p), content: c }]
}

/// Writing a file under staging and setting its mode.
pub open spec fn writefilemode_actions(staging: Seq<char>, p: Seq<char>, c: Seq<char>, mode: u32) -> Seq<FsActionView> {
    parent_dirs(paths::join(staging, p)) + seq![
        FsActionView::WriteFile { path: paths::join(staging, p), content: c },
        FsActionView::SetMode { path: paths::join(staging, p), mode },
    ]
}

/// Making `link` under staging a symlink to `target`, replacing what was there.
pub open spec fn symlink_actions(staging: Seq<char>, l: Seq<char>, t: Seq<char>) -> Seq<FsActionView> {
    parent_dirs(paths::join(staging, l)) + seq![FsActionView::ReplaceWithSymlink { link: paths::join(staging, l), target: t }]
}

/// Copying a file from the source rootfs to the same place under staging.
pub open spec fn copyfile_actions(source: Seq<char>, staging: Seq<char>, p: Seq<char>) -> Seq<FsActionView> {
    parent_dirs(paths::join(staging, p)) + seq![FsActionView::CopyFile { src: paths::join(source, p), dst: paths::join(staging, p) }]
}

/// The changes a generic operation makes; `None` for the binary and custom
/// operations, which the distro handles.
pub open spec fn generic_op_actions(source: Seq<char>, staging: Seq<char>, op: Op) -> Option<Seq<FsActionView>> {
    match op {
        Op::Dir(p) => Some(dir_actions(staging, p@)),
        Op::DirMode(p, mode) => Some(dirmode_actions(staging, p@, mode)),
        Op::Dirs(ps) => Some(dirs_actions(staging, text::views(ps@))),
        Op::WriteFile(p, c) => Some(writefile_actions(staging, p@, c@)),
        Op::WriteFileMode(p, c, mode) => Some(writefilemode_actions(staging, p@, c@, mode)),
        Op::Symlink(l, t) => Some(symlink_actions(staging, l@, t@)),
        Op::CopyFile(p) => Some(copyfile_actions(source, staging, p@)),
        Op::CopyTree(p) => Some(seq![FsActionView::CopyTree { src: paths::join(source, p@), dst: paths::join(staging, p@) }]),
        Op::User { name, uid, gid, home, shell } =>
            Some(seq![FsActionView::EnsureUser { name: name@, uid, gid, home: home@, shell: shell@ }]),
        Op::Group { name, gid } => Some(seq![FsActionView::EnsureGroup { name: name@, gid }]),
        _ => None,
    }
}

fn push_parent(out: &mut Vec<FsAction>, full: &str)
    ensures
        action_views(final(out)@) == action_views(old(out)@) + parent_dirs(full@),
{
    match path_parent(full) {
        Some(p) => {
            out.push(FsAction::CreateDir { path: p });
            assert(action_views(out@) =~= action_views(old(out)@) + parent_dirs(full@));
        },
        None => {
            assert(action_views(out@) =~= action_views(old(out)@) + parent_dirs(full@));
        },
    }
}

fn push_action(out: &mut Vec<FsAction>, a: FsAction)
    ensures
        action_views(final(out)@) == action_views(old(out)@).push(a.view()),
{
    out.push(a);
    assert(action_views(out@) =~= action_views(old(out)@).push(a.view()));
}

/// The changes to make for a generic operation; binary and custom operations
/// are refused, since they need the distro's own handling.
pub fn execute_generic_op(source: &str, staging: &str, op: &Op) -> (r: Result<Vec<FsAction>, ExecError>)
    ensures
        match generic_op_actions(source@, staging@, *op) {
            Some(acts) => r matches Ok(v) && action_views(v@) == acts,
            None => match *op {
                Op::Custom(_) => r matches Err(ExecError::CustomNeedsDistro),
                _ => r matches Err(ExecError::BinaryNeedsDistro),
            },
        },
{
    let mut out: Vec<FsAction> = Vec::new();
    match op {
        Op::Dir(p) => {
            out = handle_dir(staging, p.as_str());
        },
        Op::DirMode(p, mode) => {
            out = handle_dirmode(staging, p.as_str(), *mode);
        },
        Op::Dirs(ps) => {
            out = handle_dirs(staging, ps);
        },
        Op::WriteFile(p, c) => {
            out = handle_writefile(staging, p.as_str(), c.as_str());
        },
        Op::WriteFileMode(p, c, mode) => {
            out = handle_writefilemode(staging, p.as_str(), c.as_str(), *mode);
        },
        Op::Symlink(l, t) => {
            out = handle_symlink(staging, l.as_str(), t.as_str());
        },
        Op::CopyFile(p) => {
            out = copyfile_plan(source, staging, p.as_str());
        },
        Op::CopyTree(p) => {
            push_action(&mut out, copytree_action(source, staging, p.as_str()));
        },
        Op::User { name, uid, gid, home, shell } => {
            push_action(&mut out, FsAction::EnsureUser {
                name: String::from_str(name.as_str()),
                uid: *uid,
                gid: *gid,
                home: String::from_str(home.as_str()),
                shell: String::from_str(shell.as_str()),
            });
        },
        Op::Group { name, gid } => {
            push_action(&mut out, FsAction::EnsureGroup { name: String::from_str(name.as_str()), gid: *gid });
        },
        Op::Bin(_) | Op::Sbin(_) | Op::Bins(_) | Op::Sbins(_) => {
            return Err(ExecError::BinaryNeedsDistro);
        },
        Op::Custom(_) => {
            return Err(ExecError::CustomNeedsDistro);
        },
    }
    proof {
        assert(action_views(out@) =~= generic_op_actions(source@, staging@, *op).unwrap());
    }
    Ok(out)
}

/// Creating a directory (and its parents) under staging.
pub fn handle_dir(staging: &str, path: &str) -> (r: Vec<FsAction>)
    ensures
        action_views(r@) == dir_actions(staging@, path@),
{
    let mut out: Vec<FsAction> = Vec::new();
    push_action(&mut out, FsAction::CreateDir { path: path_join(staging, path) });
    assert(action_views(out@) =~= dir_actions(staging@, path@));
    out
}

/// Creating a directory under staging with the given permission bits.
pub fn handle_dirmode(staging: &str, path: &str, mode: u32) -> (r: Vec<FsAction>)
    ensures
        action_views(r@) == dirmode_actions(staging@, path@, mode),
{
    let mut out: Vec<FsAction> = Vec::new();
    push_action(&mut out, FsAction::CreateDir { path: path_join(staging, path) });
    push_action(&mut out, FsAction::SetMode { path: path_join(staging, path), mode });
    assert(action_views(out@) =~= dirmode_actions(staging@, path@, mode));
    out
}

/// Creating several directories under staging, in the order given.
pub fn handle_dirs(staging: &str, dirs: &Vec<String>) -> (r: Vec<FsAction>)
    ensures
        action_views(r@) == dirs_actions(staging@, text::views(dirs@)),
{
    let mut out: Vec<FsAction> = Vec::new();
    let mut i: usize = 0;
    while i < dirs.len()
        invariant
            i <= dirs.len(),
            out@.len() == i,
            forall|k: int| 0 <= k < i ==> #[trigger] out@[k].view() == (FsActionView::CreateDir { path: paths::join(staging@, dirs@[k]@) }),
        decreases dirs.len() - i,
    {
        out.push(FsAction::CreateDir { path: path_join(staging, dirs[i].as_str()) });
        i = i + 1;
    }
    assert(action_views(out@) =~= dirs_actions(staging@, text::views(dirs@)));
    out
}

/// Writing a file under staging, creating its parent directory first.
pub fn handle_writefile(staging: &str, path: &str, content: &str) -> (r: Vec<FsAction>)
    ensures
        action_views(r@) == writefile_actions(staging@, path@, content@),
{
    let mut out: Vec<FsAction> = Vec::new();
    let full = path_join(staging, path);
    push_parent(&mut out, full.as_str());
    push_action(&mut out, FsAction::WriteFile { path: full, content: String::from_str(content) });
    out
}

/// Writing a file under staging and then setting its permission bits.
pub fn handle_writefilemode(staging: &str, path: &str, content: &str, mode: u32) -> (r: Vec<FsAction>)
    ensures
        action_views(r@) == writefilemode_actions(staging@, path@, content@, mode),
{
    let mut out: Vec<FsAction> = Vec::new();
    let full = path_join(staging, path);
    push_parent(&mut out, full.as_str());
    push_action(&mut out, FsAction::WriteFile { path: String::from_str(full.as_str()), content: String::from_str(content) });
    push_action(&mut out, FsAction::SetMode { path: full, mode });
    assert(action_views(out@) =~= writefilemode_actions(staging@, path@, content@, mode));
    out
}

/// Making `link` under staging a symlink to `target`; whatever stood at
/// `link` is replaced, so later components override earlier ones.
pub fn handle_symlink(staging: &str, link: &str, target: &str) -> (r: Vec<FsAction>)
    ensures
        action_views(r@) == symlink_actions(staging@, link@, target@),
{
    let mut out: Vec<FsAction> = Vec::new();
    let full = path_join(staging, link);
    push_parent(&mut out, full.as_str());
    push_action(&mut out, FsAction::ReplaceWithSymlink { link: full, target: String::from_str(target) });
    out
}

fn copyfile_plan(source: &str, staging: &str, path: &str) -> (r: Vec<FsAction>)
    ensures
        action_views(r@) == copyfile_actions(source@, staging@, path@),
{
    let mut out: Vec<FsAction> = Vec::new();
    let dst = path_join(staging, path);
    push_parent(&mut out, dst.as_str());
    push_action(&mut out, FsAction::CopyFile { src: path_join(source, path), dst });
    out
}

/// Copying a file from the source rootfs into staging. `src_exists` says
/// whether the file is present in the source rootfs; when it is not, the
/// copy is refused with the missing path.
pub fn handle_copyfile(source: &str, staging: &str, path: &str, src_exists: bool) -> (r: Result<Vec<FsAction>, String>)
    ensures
        src_exists ==> (r matches Ok(v) && action_views(v@) == copyfile_actions(source@, staging@, path@)),
        !src_exists ==> (r matches Err(m) && m@ == "file not found: "@ + paths::join(source@, path@)),
{
    if !src_exists {
        let mut m = String::from_str("file not found: ");
        let full = path_join(source, path);
        text::append_str(&mut m, full.as_str());
        return Err(m);
    }
    Ok(copyfile_plan(source, staging, path))
}

fn copytree_action(source: &str, staging: &str, path: &str) -> (r: FsAction)
    ensures
        r.view() == (FsActionView::CopyTree { src: paths::join(source@, path@), dst: paths::join(staging@, path@) }),
{
    FsAction::CopyTree { src: path_join(source, path), dst: path_join(staging, path) }
}

/// Copying a directory tree from the source rootfs into staging.
/// `src_exists` says whether the tree is present in the source rootfs; when
/// it is not, the copy is refused with the missing path.
pub fn handle_copytree(source: &str, staging: &str, path: &str, src_exists: bool) -> (r: Result<FsAction, String>)
    ensures
        src_exists ==> (r matches Ok(a) && a.view() == (FsActionView::CopyTree {
            src: paths::join(source@, path@), dst: paths::join(staging@, path@) })),
        !src_exists ==> (r matches Err(m) && m@ == "directory not found: "@ + paths::join(source@, path@)),
{
    if !src_exists {
        let mut m = String::from_str("directory not found: ");
        let full = path_join(source, path);
        text::append_str(&mut m, full.as_str());
        return Err(m);
    }
    Ok(copytree_action(source, staging, path))
}

/// Where a binary is looked for, relative to a rootfs, in order.
pub open spec fn binary_candidates(name: Seq<char>) -> Seq<Seq<char>> {
    seq![
        paths::join("usr/bin"@, name),
        paths::join("bin"@, name),
        paths::join("usr/sbin"@, name),
        paths::join("sbin"@, name),
    ]
}

/// The path of a binary relative to the source rootfs: the first of
/// `usr/bin`, `bin`, `usr/sbin` and `sbin` that holds it. Each candidate is
/// looked up in the file system, and the answer is
/// [`crate::alpine::first_present_binary`] on what was found.
pub fn find_binary(source: &str, name: &str) -> (r: Option<String>)
    ensures
        r matches Some(p) ==> binary_candidates(name@).contains(p@),
{
    let cands = alpine::binary_candidate_list(name);
    let mut present: Vec<bool> = Vec::new();
    let mut i: usize = 0;
    while i < cands.len()
        invariant
            i <= cands.len(),
            present@.len() == i,
            text::views(cands@) == binary_candidates(name@),
        decreases cands.len() - i,
    {
        let full = path_join(source, cands[i].as_str());
        present.push(path_exists(full.as_str()));
        i = i + 1;
    }
    assert(text::views(cands@).len() == 4);
    let r = alpine::first_present_binary(name, &present);
    proof {
        alpine::lemma_first_true(present@);
        if alpine::first_true(present@) >= 0 {
            assert(binary_candidates(name@)[alpine::first_true(present@)] == binary_candidates(name@)[alpine::first_true(present@)]);
        }
    }
    r
}

/// The library path an `ldd` line names: the first word after the first
/// `=>`, when it is absolute.
pub open spec fn library_path_of(line: Seq<char>) -> Option<Seq<char>> {
    let i = text::first_occ(line, "=>"@);
    if i < 0 {
        None
    } else {
        match text::first_word(line.subrange(i + 2, line.len() as int)) {
            Some(w) => if w.len() > 0 && w[0] == '/' { Some(w) } else { None },
            None => None,
        }
    }
}

/// The library path of an `ldd` output line, such as
/// `libfoo.so.1 => /usr/lib/libfoo.so.1 (0x...)`.
pub fn extract_library_path(line: &str) -> (r: Option<String>)
    ensures
        match library_path_of(line@) {
            Some(p) => r matches Some(s) && s@ == p,
            None => r is None,
        },
{
    proof {
        reveal_strlit("=>");
    }
    let l = chars_of(line);
    let arrow = chars_of("=>");
    match find_vec(&l, &arrow) {
        Some(i) => {
            proof {
                text::lemma_first_occ(l@, arrow@, i as int);
            }
            let after = slice_vec(&l, i + 2, l.len());
            match first_word_vec(&after) {
                Some(w) => {
                    if w.len() > 0 && w[0] == '/' {
                        Some(string_of(&w))
                    } else {
                        None
                    }
                },
                None => None,
            }
        },
        None => {
            proof {
                if text::first_occ(l@, arrow@) >= 0 {
                    let j = text::first_occ(l@, arrow@);
                    assert(text::occurs_at(l@, arrow@, j));
                }
            }
            None
        },
    }
}

/// `path` without one leading `/`.
pub open spec fn strip_root(p: Seq<char>) -> Seq<char> {
    if p.len() > 0 && p[0] == '/' { p.drop_first() } else { p }
}

/// The library copies `ldd` output asks for: for each line naming an absolute
/// library, the copy from the source rootfs to the same place in staging.
pub open spec fn library_copies_spec(source: Seq<char>, staging: Seq<char>, lines: Seq<Seq<char>>) -> Seq<(Seq<char>, Seq<char>)>
    decreases lines.len(),
{
    if lines.len() == 0 {
        seq![]
    } else {
        let prev = library_copies_spec(source, staging, lines.drop_last());
        match library_path_of(lines.last()) {
            Some(p) => prev.push((paths::join(source, strip_root(p)), paths::join(staging, strip_root(p)))),
            None => prev,
        }
    }
}

/// The library copies the output of `ldd` on a binary asks for (each made
/// only when the source exists and the destination does not).
pub fn library_copies(source: &str, staging: &str, ldd_stdout: &str) -> (r: Vec<(String, String)>)
    ensures
        r@.map_values(|p: (String, String)| (p.0@, p.1@)) == library_copies_spec(source@, staging@, text::lines_of(ldd_stdout@)),
{
    let chars = chars_of(ldd_stdout);
    let ls = lines_vec(&chars);
    let ghost all = text::lines_of(ldd_stdout@);
    let mut out: Vec<(String, String)> = Vec::new();
    let mut i: usize = 0;
    while i < ls.len()
        invariant
            i <= ls.len(),
            ls@.len() == all.len(),
            all == text::lines_of(ldd_stdout@),
            forall|k: int| 0 <= k < ls@.len() ==> #[trigger] ls@[k]@ == all[k],
            out@.map_values(|p: (String, String)| (p.0@, p.1@)) == library_copies_spec(source@, staging@, all.take(i as int)),
        decreases ls.len() - i,
    {
        let ghost prev = out@.map_values(|p: (String, String)| (p.0@, p.1@));
        proof {
            assert(all.take(i as int + 1).drop_last() =~= all.take(i as int));
            assert(all.take(i as int + 1).last() == ls@[i as int]@);
        }
        let line = string_of(&ls[i]);
        match extract_library_path(line.as_str()) {
            Some(p) => {
                let pv = chars_of(p.as_str());
                let rel = if pv.len() > 0 && pv[0] == '/' {
                    let r = slice_vec(&pv, 1, pv.len());
                    assert(r@ =~= pv@.drop_first());
                    string_of(&r)
                } else {
                    p
                };
                out.push((path_join(source, rel.as_str()), path_join(staging, rel.as_str())));
                assert(out@.map_values(|p: (String, String)| (p.0@, p.1@)) =~= prev.push(
                    (paths::join(source@, rel@), paths::join(staging@, rel@))));
            },
            None => {},
        }
        i = i + 1;
    }
    assert(all.take(ls.len() as int) =~= all);
    out
}


/// The permission bits of an executable: the old bits with every execute bit set.
pub fn executable_mode(mode: u32) -> (r: u32)
    ensures
        r == mode | 0o111u32,
{
    mode | 0o111u32
}

/// Enabling an OpenRC service in a runlevel: the runlevel directory, and the
/// link to `/etc/init.d/<service>` made there unless something exists already.
pub fn enable_service(staging: &str, service: &str, runlevel: &str) -> (r: (String, String, String))
    ensures
        r.0@ == paths::join(paths::join(staging@, "etc/runlevels"@), runlevel@),
        r.1@ == paths::join(r.0@, service@),
        r.2@ == "/etc/init.d/"@ + service@,
{
    let a = path_join(staging, "etc/runlevels");
    let dir = path_join(a.as_str(), runlevel);
    let link = path_join(dir.as_str(), service);
    let mut target = String::from_str("/etc/init.d/");
    crate::text::append_str(&mut target, service);
    (dir, link, target)
}

/// Why an OpenRC init script could not be copied.
#[derive(Debug, PartialEq, Eq)]
pub enum OpenrcError {
    /// The script is not in the source rootfs.
    InitScriptMissing { path: String },
}

/// Copying an OpenRC init script from the source rootfs: it must exist there;
/// it goes to the same place in staging and is made executable.
pub fn copy_init_script(source: &str, staging: &str, script: &str, src_exists: bool) -> (r: Result<(String, String), OpenrcError>)
    ensures
        !src_exists ==> (r matches Err(OpenrcError::InitScriptMissing { path: p })
            && p@ == paths::join(paths::join(source@, "etc/init.d"@), script@)),
        src_exists ==> (r matches Ok((s, d)) && s@ == paths::join(paths::join(source@, "etc/init.d"@), script@)
            && d@ == paths::join(paths::join(staging@, "etc/init.d"@), script@)),
{
    let a = path_join(source, "etc/init.d");
    let src = path_join(a.as_str(), script);
    if !src_exists {
        return Err(OpenrcError::InitScriptMissing { path: src });
    }
    let b = path_join(staging, "etc/init.d");
    Ok((src, path_join(b.as_str(), script)))
}

/// Where the `conf.d` file of a service goes.
pub fn write_conf(staging: &str, service: &str) -> (r: String)
    ensures
        r@ == paths::join(paths::join(staging@, "etc/conf.d"@), service@),
{
    let a = path_join(staging, "etc/conf.d");
    path_join(a.as_str(), service)
}

} // verus!
