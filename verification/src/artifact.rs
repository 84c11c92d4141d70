//! Artifact options and the commands that build artifacts: cpio archives,
//! EROFS images, FAT boot images, ISO checksums and the FHS skeleton.

use vstd::prelude::*;
use crate::paths;
use crate::paths::{path_file_name, path_join, path_parent};
use crate::text;
use crate::text::{append_str, chars_of, first_word_vec, string_of};
use crate::users;
use crate::users::u32_to_dec;

verus! {

/// Options of an ISO image.
#[derive(Debug, Clone)]
pub struct IsoOptions<'a> {
    /// Volume label, used to find the boot device (`root=LABEL=X`).
    pub label: &'a str,
    /// OS name of the boot menu entries.
    pub os_name: &'a str,
    /// Extra kernel command line options.
    pub cmdline: &'a str,
    /// Whether the ISO boots under UEFI.
    pub uefi: bool,
    /// Whether the ISO boots under BIOS too (hybrid).
    pub bios: bool,
}

impl<'a> IsoOptions<'a> {
    /// Options of a UEFI-only ISO.
    pub fn uefi_only(label: &'a str, os_name: &'a str) -> (r: Self)
        ensures
            r.label@ == label@,
            r.os_name@ == os_name@,
            r.cmdline@ == ""@,
            r.uefi,
            !r.bios,
    {
        IsoOptions { label, os_name, cmdline: "", uefi: true, bios: false }
    }

    /// Options of a hybrid UEFI and BIOS ISO.
    pub fn hybrid(label: &'a str, os_name: &'a str) -> (r: Self)
        ensures
            r.label@ == label@,
            r.os_name@ == os_name@,
            r.cmdline@ == ""@,
            r.uefi,
            r.bios,
    {
        IsoOptions { label, os_name, cmdline: "", uefi: true, bios: true }
    }
}

/// Options of a squashfs image.
#[derive(Debug, Clone)]
pub struct SquashfsOptions<'a> {
    /// Compression algorithm (gzip, zstd, xz, lzo, lz4).
    pub compression: &'a str,
    /// Block size, such as `1M`.
    pub block_size: &'a str,
    /// Whether extended attributes are included.
    pub xattrs: bool,
}

impl<'a> Default for SquashfsOptions<'a> {
    /// gzip compression, 1M blocks, no extended attributes.
    fn default() -> (r: Self)
        ensures
            r.compression@ == "gzip"@,
            r.block_size@ == "1M"@,
            !r.xattrs,
    {
        SquashfsOptions { compression: "gzip", block_size: "1M", xattrs: false }
    }
}

/// Options of an initramfs.
#[derive(Debug, Clone)]
pub struct InitramfsOptions<'a> {
    /// Busybox commands to link.
    pub busybox_commands: &'a [&'a str],
    /// Boot modules to include, relative to `/lib/modules/<version>/`.
    pub boot_modules: &'a [&'a str],
    /// Gzip compression level (1-9).
    pub gzip_level: u8,
}

impl<'a> Default for InitramfsOptions<'a> {
    /// No commands, no modules, gzip level 6.
    fn default() -> (r: Self)
        ensures
            r.busybox_commands@.len() == 0,
            r.boot_modules@.len() == 0,
            r.gzip_level == 6,
    {
        InitramfsOptions { busybox_commands: &[], boot_modules: &[], gzip_level: 6 }
    }
}

/// The busybox commands an initramfs needs to boot.
pub open spec fn standard_busybox_commands_spec() -> Seq<Seq<char>> {
    seq![
        "sh"@, "mount"@, "umount"@, "mkdir"@, "cat"@, "ls"@, "sleep"@, "switch_root"@, "echo"@, "test"@, "["@,
        "grep"@, "sed"@, "ln"@, "rm"@, "cp"@, "mv"@, "chmod"@, "chown"@, "mknod"@, "losetup"@, "insmod"@, "modprobe"@,
    ]
}

/// The busybox commands an initramfs needs to boot.
pub fn standard_busybox_commands() -> (r: Vec<&'static str>)
    ensures
        r@.map_values(|s: &str| s@) == standard_busybox_commands_spec(),
{
    let v: Vec<&'static str> = vec![
        "sh", "mount", "umount", "mkdir", "cat", "ls", "sleep", "switch_root", "echo", "test", "[",
        "grep", "sed", "ln", "rm", "cp", "mv", "chmod", "chown", "mknod", "losetup", "insmod", "modprobe",
    ];
    assert(v@.map_values(|s: &str| s@) =~= standard_busybox_commands_spec());
    v
}

/// Decimal digits of a number.
pub open spec fn dec(n: int) -> Seq<char> {
    users::dec_str(n as nat)
}

fn dec_u32(n: u32) -> (r: String)
    ensures
        r@ == dec(n as int),
{
    let v = u32_to_dec(n);
    string_of(&v)
}

/// The shell pipeline that packs a directory as a gzip-compressed newc cpio archive.
pub open spec fn cpio_command(root: Seq<char>, output: Seq<char>, gzip_level: u32) -> Seq<char> {
    "cd "@ + root + " && find . -print0 | cpio --null -o -H newc 2>/dev/null | gzip -"@ + dec(gzip_level as int)
        + " > "@ + output
}

/// The shell pipeline that builds a compressed cpio archive of `root` at `output`.
pub fn build_cpio(root: &str, output: &str, gzip_level: u32) -> (r: String)
    ensures
        r@ == cpio_command(root@, output@, gzip_level),
{
    let mut s = String::from_str("cd ");
    append_str(&mut s, root);
    append_str(&mut s, " && find . -print0 | cpio --null -o -H newc 2>/dev/null | gzip -");
    let d = dec_u32(gzip_level);
    append_str(&mut s, d.as_str());
    append_str(&mut s, " > ");
    append_str(&mut s, output);
    s
}

/// Why an EROFS image was not built.
#[derive(Debug, PartialEq, Eq)]
pub enum ErofsError {
    SourceMissing { source_dir: String },
    SourceNotDirectory { source_dir: String },
    ToolMissing,
}

impl ErofsError {
    /// The text of the error.
    pub open spec fn message_spec(self) -> Seq<char> {
        match self {
            ErofsError::SourceMissing { source_dir } => "Source directory does not exist: "@ + source_dir@,
            ErofsError::SourceNotDirectory { source_dir } => "Source path is not a directory: "@ + source_dir@,
            ErofsError::ToolMissing => "mkfs.erofs not found. Install erofs-utils:\nOn Fedora: sudo dnf install erofs-utils\nOn Ubuntu: sudo apt install erofs-utils\nOn Arch: sudo pacman -S erofs-utils\n\nNOTE: erofs-utils 1.5+ required for lz4hc, 1.8+ for zstd."@,
        }
    }

    /// The text of the error.
    pub fn message(&self) -> (r: String)
        ensures
            r@ == self.message_spec(),
    {
        match self {
            ErofsError::SourceMissing { source_dir } => {
                let mut s = String::from_str("Source directory does not exist: ");
                append_str(&mut s, source_dir.as_str());
                s
            },
            ErofsError::SourceNotDirectory { source_dir } => {
                let mut s = String::from_str("Source path is not a directory: ");
                append_str(&mut s, source_dir.as_str());
                s
            },
            ErofsError::ToolMissing => String::from_str("mkfs.erofs not found. Install erofs-utils:\nOn Fedora: sudo dnf install erofs-utils\nOn Ubuntu: sudo apt install erofs-utils\nOn Arch: sudo pacman -S erofs-utils\n\nNOTE: erofs-utils 1.5+ required for lz4hc, 1.8+ for zstd."),
        }
    }
}

/// How to run `mkfs.erofs`: the directory to create first and the arguments.
#[derive(Debug)]
pub struct ErofsPlan {
    pub output_parent: Option<String>,
    pub args: Vec<String>,
}

/// The arguments of `mkfs.erofs`: output first, then source.
pub open spec fn erofs_args(source_dir: Seq<char>, output: Seq<char>, compression: Seq<char>, level: u8, chunk_size: u32) -> Seq<Seq<char>> {
    seq!["-z"@, compression + ","@ + dec(level as int), "-C"@, dec(chunk_size as int), "--all-root"@, "-T0"@, output, source_dir]
}

/// The checks and command of building an EROFS image: the source must exist
/// and be a directory, and `mkfs.erofs` must be installed.
pub fn create_erofs(
    source_dir: &str,
    output: &str,
    compression: &str,
    compression_level: u8,
    chunk_size: u32,
    source_exists: bool,
    source_is_dir: bool,
    tool_present: bool,
) -> (r: Result<ErofsPlan, ErofsError>)
    ensures
        !source_exists ==> (r matches Err(ErofsError::SourceMissing { source_dir: s }) && s@ == source_dir@),
        source_exists && !source_is_dir ==> (r matches Err(ErofsError::SourceNotDirectory { source_dir: s }) && s@ == source_dir@),
        source_exists && source_is_dir && !tool_present ==> r matches Err(ErofsError::ToolMissing),
        source_exists && source_is_dir && tool_present ==> (r matches Ok(p)
            && (match p.output_parent {
                Some(x) => paths::parent(output@) == Some(x@),
                None => paths::parent(output@) is None,
            })
            && text::views(p.args@) == erofs_args(source_dir@, output@, compression@, compression_level, chunk_size)),
{
    if !source_exists {
        return Err(ErofsError::SourceMissing { source_dir: String::from_str(source_dir) });
    }
    if !source_is_dir {
        return Err(ErofsError::SourceNotDirectory { source_dir: String::from_str(source_dir) });
    }
    if !tool_present {
        return Err(ErofsError::ToolMissing);
    }
    let mut z = String::from_str(compression);
    append_str(&mut z, ",");
    let l = dec_u32(compression_level as u32);
    append_str(&mut z, l.as_str());
    let mut args: Vec<String> = Vec::new();
    args.push(String::from_str("-z"));
    args.push(z);
    args.push(String::from_str("-C"));
    args.push(dec_u32(chunk_size));
    args.push(String::from_str("--all-root"));
    args.push(String::from_str("-T0"));
    args.push(String::from_str(output));
    args.push(String::from_str(source_dir));
    assert(text::views(args@) =~= erofs_args(source_dir@, output@, compression@, compression_level, chunk_size));
    Ok(ErofsPlan { output_parent: path_parent(output), args })
}

/// The live overlay payload image is built as an EROFS image with the given settings.
pub fn create_overlayfs_erofs(
    source_dir: &str,
    output: &str,
    compression: &str,
    compression_level: u8,
    chunk_size: u32,
    source_exists: bool,
    source_is_dir: bool,
    tool_present: bool,
) -> (r: Result<ErofsPlan, ErofsError>)
    ensures
        !source_exists ==> (r matches Err(ErofsError::SourceMissing { source_dir: s }) && s@ == source_dir@),
        source_exists && !source_is_dir ==> (r matches Err(ErofsError::SourceNotDirectory { source_dir: s }) && s@ == source_dir@),
        source_exists && source_is_dir && !tool_present ==> r matches Err(ErofsError::ToolMissing),
        source_exists && source_is_dir && tool_present ==> (r matches Ok(p)
            && (match p.output_parent {
                Some(x) => paths::parent(output@) == Some(x@),
                None => paths::parent(output@) is None,
            })
            && text::views(p.args@) == erofs_args(source_dir@, output@, compression@, compression_level, chunk_size)),
{
    create_erofs(source_dir, output, compression, compression_level, chunk_size, source_exists, source_is_dir, tool_present)
}

/// The commands that make an empty FAT16 image of `size_mb` MiB: `dd`, then `mkfs.fat`.
pub fn create_fat16_image(output: &str, size_mb: u32) -> (r: (Vec<String>, Vec<String>))
    ensures
        text::views(r.0@) == seq!["if=/dev/zero"@, "of="@ + output@, "bs=1M"@, "count="@ + dec(size_mb as int)],
        text::views(r.1@) == seq!["-F"@, "16"@, output@],
{
    let mut of = String::from_str("of=");
    append_str(&mut of, output);
    let mut count = String::from_str("count=");
    let d = dec_u32(size_mb);
    append_str(&mut count, d.as_str());
    let mut dd: Vec<String> = Vec::new();
    dd.push(String::from_str("if=/dev/zero"));
    dd.push(of);
    dd.push(String::from_str("bs=1M"));
    dd.push(count);
    let mut mkfs: Vec<String> = Vec::new();
    mkfs.push(String::from_str("-F"));
    mkfs.push(String::from_str("16"));
    mkfs.push(String::from_str(output));
    assert(text::views(dd@) =~= seq!["if=/dev/zero"@, "of="@ + output@, "bs=1M"@, "count="@ + dec(size_mb as int)]);
    assert(text::views(mkfs@) =~= seq!["-F"@, "16"@, output@]);
    (dd, mkfs)
}

/// The `mmd` runs that make `EFI/BOOT` in a FAT image.
pub fn create_efi_dirs_in_fat(fat_image: &str) -> (r: (Vec<String>, Vec<String>))
    ensures
        text::views(r.0@) == seq!["-i"@, fat_image@, "::EFI"@],
        text::views(r.1@) == seq!["-i"@, fat_image@, "::EFI/BOOT"@],
{
    let mut a: Vec<String> = Vec::new();
    a.push(String::from_str("-i"));
    a.push(String::from_str(fat_image));
    a.push(String::from_str("::EFI"));
    let mut b: Vec<String> = Vec::new();
    b.push(String::from_str("-i"));
    b.push(String::from_str(fat_image));
    b.push(String::from_str("::EFI/BOOT"));
    assert(text::views(a@) =~= seq!["-i"@, fat_image@, "::EFI"@]);
    assert(text::views(b@) =~= seq!["-i"@, fat_image@, "::EFI/BOOT"@]);
    (a, b)
}

/// The arguments of `mcopy` copying `src` to `dst` inside a FAT image.
pub fn mcopy_to_fat(fat_image: &str, src: &str, dst: &str) -> (r: Vec<String>)
    ensures
        text::views(r@) == seq!["-i"@, fat_image@, src@, dst@],
{
    let mut a: Vec<String> = Vec::new();
    a.push(String::from_str("-i"));
    a.push(String::from_str(fat_image));
    a.push(String::from_str(src));
    a.push(String::from_str(dst));
    assert(text::views(a@) =~= seq!["-i"@, fat_image@, src@, dst@]);
    a
}

/// The directories of an ISO tree: `boot`, `live` and `EFI/BOOT`.
pub fn setup_iso_structure(iso_root: &str) -> (r: Vec<String>)
    ensures
        text::views(r@) == seq![paths::join(iso_root@, "boot"@), paths::join(iso_root@, "live"@), paths::join(iso_root@, "EFI/BOOT"@)],
{
    let mut v: Vec<String> = Vec::new();
    v.push(path_join(iso_root, "boot"));
    v.push(path_join(iso_root, "live"));
    v.push(path_join(iso_root, "EFI/BOOT"));
    assert(text::views(v@) =~= seq![paths::join(iso_root@, "boot"@), paths::join(iso_root@, "live"@), paths::join(iso_root@, "EFI/BOOT"@)]);
    v
}

/// The checksum file line of an ISO: the hash `sha512sum` printed first, two
/// spaces, and the ISO's file name; `None` when there is no hash or no name.
pub open spec fn checksum_line_spec(sha512sum_stdout: Seq<char>, iso_path: Seq<char>) -> Option<Seq<char>> {
    match (text::first_word(sha512sum_stdout), paths::file_name(iso_path)) {
        (Some(h), Some(n)) => Some(h + "  "@ + n + "\n"@),
        _ => None,
    }
}

/// The line of the `.sha512` file of an ISO, from the output of `sha512sum`.
pub fn iso_checksum_line(sha512sum_stdout: &str, iso_path: &str) -> (r: Option<String>)
    ensures
        match checksum_line_spec(sha512sum_stdout@, iso_path@) {
            Some(l) => r matches Some(s) && s@ == l,
            None => r is None,
        },
{
    let out = chars_of(sha512sum_stdout);
    let hash = match first_word_vec(&out) {
        Some(h) => h,
        None => {
            return None;
        },
    };
    let name = match path_file_name(iso_path) {
        Some(n) => n,
        None => {
            return None;
        },
    };
    let mut s = string_of(&hash);
    append_str(&mut s, "  ");
    append_str(&mut s, name.as_str());
    append_str(&mut s, "\n");
    Some(s)
}

/// The directories of the FHS skeleton.
pub open spec fn fhs_dirs_spec() -> Seq<Seq<char>> {
    seq![
        "usr/bin"@, "usr/sbin"@, "usr/lib"@, "usr/lib64"@, "var/log"@, "var/tmp"@, "var/cache"@, "var/spool"@, "etc"@,
        "tmp"@, "root"@, "home"@, "mnt"@, "run"@, "run/lock"@, "proc"@, "sys"@, "dev"@, "dev/pts"@,
    ]
}

/// The FHS skeleton of a root: directories created where missing, the merged
/// `/usr` links (a real directory in their place is removed first) and the
/// `/var` links to `/run`.
#[derive(Debug)]
pub struct FhsPlan {
    pub dirs: Vec<String>,
    pub usr_links: Vec<(String, String)>,
    pub var_dir: String,
    pub var_links: Vec<(String, String)>,
}

/// Views of link and target pairs.
pub open spec fn link_views(v: Seq<(String, String)>) -> Seq<(Seq<char>, Seq<char>)> {
    v.map_values(|p: (String, String)| (p.0@, p.1@))
}

/// The FHS directories of `root`, in the order they are created.
pub fn create_fhs_dirs(root: &str) -> (r: Vec<String>)
    ensures
        text::views(r@) == fhs_dirs_spec().map_values(|d: Seq<char>| paths::join(root@, d)),
{
    let names: Vec<&str> = vec![
        "usr/bin", "usr/sbin", "usr/lib", "usr/lib64", "var/log", "var/tmp", "var/cache", "var/spool", "etc",
        "tmp", "root", "home", "mnt", "run", "run/lock", "proc", "sys", "dev", "dev/pts",
    ];
    assert(names@.map_values(|s: &str| s@) =~= fhs_dirs_spec());
    let mut dirs: Vec<String> = Vec::new();
    let mut i: usize = 0;
    while i < names.len()
        invariant
            i <= names.len(),
            names@.map_values(|s: &str| s@) == fhs_dirs_spec(),
            dirs@.len() == i,
            forall|k: int| 0 <= k < i ==> #[trigger] dirs@[k]@ == paths::join(root@, names@[k]@),
        decreases names.len() - i,
    {
        dirs.push(path_join(root, names[i]));
        i = i + 1;
    }
    assert(text::views(dirs@) =~= fhs_dirs_spec().map_values(|d: Seq<char>| paths::join(root@, d))) by {
        assert forall|k: int| 0 <= k < dirs@.len() implies text::views(dirs@)[k] == fhs_dirs_spec().map_values(|d: Seq<char>| paths::join(root@, d))[k] by {
            assert(names@.map_values(|s: &str| s@)[k] == names@[k]@);
        }
    }
    dirs
}

/// The directories every initramfs has.
pub open spec fn initramfs_dirs_spec() -> Seq<Seq<char>> {
    seq!["bin"@, "sbin"@, "lib"@, "lib64"@, "dev"@, "proc"@, "sys"@, "run"@, "mnt"@, "tmp"@, "root"@, "newroot"@]
}

/// The directories of an initramfs under `root`: the standard ones, then
/// `extra_dirs`, in the order they are created.
pub fn create_initramfs_dirs(root: &str, extra_dirs: &Vec<String>) -> (r: Vec<String>)
    ensures
        text::views(r@) == (initramfs_dirs_spec() + text::views(extra_dirs@)).map_values(|d: Seq<char>| paths::join(root@, d)),
{
    let standard: Vec<&str> = vec!["bin", "sbin", "lib", "lib64", "dev", "proc", "sys", "run", "mnt", "tmp", "root", "newroot"];
    let mut names: Vec<String> = Vec::new();
    let mut i: usize = 0;
    while i < standard.len()
        invariant
            i <= standard.len(),
            names@.len() == i,
            forall|k: int| 0 <= k < i ==> #[trigger] names@[k]@ == standard@[k]@,
        decreases standard.len() - i,
    {
        names.push(String::from_str(standard[i]));
        i = i + 1;
    }
    let mut j: usize = 0;
    while j < extra_dirs.len()
        invariant
            j <= extra_dirs.len(),
            names@.len() == standard@.len() + j,
            forall|k: int| 0 <= k < standard@.len() ==> #[trigger] names@[k]@ == standard@[k]@,
            forall|k: int| 0 <= k < j ==> #[trigger] names@[standard@.len() + k]@ == extra_dirs@[k]@,
        decreases extra_dirs.len() - j,
    {
        names.push(String::from_str(extra_dirs[j].as_str()));
        j = j + 1;
    }
    let ghost all = initramfs_dirs_spec() + text::views(extra_dirs@);
    assert(text::views(names@) =~= all) by {
        assert forall|k: int| 0 <= k < names@.len() implies text::views(names@)[k] == all[k] by {
            if k < 12 {
                assert(standard@[k]@ == initramfs_dirs_spec()[k]);
            } else {
                assert(names@[12 + (k - 12)]@ == extra_dirs@[k - 12]@);
            }
        }
    }
    let mut dirs: Vec<String> = Vec::new();
    let mut n: usize = 0;
    while n < names.len()
        invariant
            n <= names.len(),
            dirs@.len() == n,
            forall|k: int| 0 <= k < n ==> #[trigger] dirs@[k]@ == paths::join(root@, names@[k]@),
        decreases names.len() - n,
    {
        dirs.push(path_join(root, names[n].as_str()));
        n = n + 1;
    }
    assert(text::views(dirs@) =~= all.map_values(|d: Seq<char>| paths::join(root@, d))) by {
        assert forall|k: int| 0 <= k < dirs@.len() implies #[trigger] text::views(dirs@)[k] == all.map_values(|d: Seq<char>| paths::join(root@, d))[k] by {
            assert(text::views(names@)[k] == names@[k]@);
        }
    }
    dirs
}

/// The merged-`/usr` links of `root`, as (link, target); a real directory in
/// a link's place is removed first.
pub fn create_merged_usr_symlinks(root: &str) -> (r: Vec<(String, String)>)
    ensures
        link_views(r@) == seq![
            (paths::join(root@, "bin"@), "usr/bin"@),
            (paths::join(root@, "sbin"@), "usr/sbin"@),
            (paths::join(root@, "lib"@), "usr/lib"@),
            (paths::join(root@, "lib64"@), "usr/lib64"@),
        ],
{
    let mut usr_links: Vec<(String, String)> = Vec::new();
    usr_links.push((path_join(root, "bin"), String::from_str("usr/bin")));
    usr_links.push((path_join(root, "sbin"), String::from_str("usr/sbin")));
    usr_links.push((path_join(root, "lib"), String::from_str("usr/lib")));
    usr_links.push((path_join(root, "lib64"), String::from_str("usr/lib64")));
    assert(link_views(usr_links@) =~= seq![
        (paths::join(root@, "bin"@), "usr/bin"@),
        (paths::join(root@, "sbin"@), "usr/sbin"@),
        (paths::join(root@, "lib"@), "usr/lib"@),
        (paths::join(root@, "lib64"@), "usr/lib64"@),
    ]);
    usr_links
}

/// The `/var` links of `root` to `/run`, as (link, target), and the `var`
/// directory they are made in.
pub fn create_var_symlinks(root: &str) -> (r: (String, Vec<(String, String)>))
    ensures
        r.0@ == paths::join(root@, "var"@),
        link_views(r.1@) == seq![
            (paths::join(root@, "var/run"@), "/run"@),
            (paths::join(root@, "var/lock"@), "/run/lock"@),
        ],
{
    let mut var_links: Vec<(String, String)> = Vec::new();
    var_links.push((path_join(root, "var/run"), String::from_str("/run")));
    var_links.push((path_join(root, "var/lock"), String::from_str("/run/lock")));
    assert(link_views(var_links@) =~= seq![
        (paths::join(root@, "var/run"@), "/run"@),
        (paths::join(root@, "var/lock"@), "/run/lock"@),
    ]);
    (path_join(root, "var"), var_links)
}

/// The FHS skeleton of `root`: its directories, then the merged-`/usr` links,
/// then the `/var` links.
pub fn create_fhs_structure(root: &str) -> (r: FhsPlan)
    ensures
        text::views(r.dirs@) == fhs_dirs_spec().map_values(|d: Seq<char>| paths::join(root@, d)),
        link_views(r.usr_links@) == seq![
            (paths::join(root@, "bin"@), "usr/bin"@),
            (paths::join(root@, "sbin"@), "usr/sbin"@),
            (paths::join(root@, "lib"@), "usr/lib"@),
            (paths::join(root@, "lib64"@), "usr/lib64"@),
        ],
        r.var_dir@ == paths::join(root@, "var"@),
        link_views(r.var_links@) == seq![
            (paths::join(root@, "var/run"@), "/run"@),
            (paths::join(root@, "var/lock"@), "/run/lock"@),
        ],
{
    let dirs = create_fhs_dirs(root);
    let usr_links = create_merged_usr_symlinks(root);
    let (var_dir, var_links) = create_var_symlinks(root);
    FhsPlan { dirs, usr_links, var_dir, var_links }
}

} // verus!
