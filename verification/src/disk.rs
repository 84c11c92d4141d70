//! Raw GPT disk images built without root: the host tools they need, the
//! partition layout, the commands that write the partitions, and the
//! verdicts on `mmd` runs.

use vstd::prelude::*;
use crate::paths;
use crate::paths::path_join;
use crate::store;
use crate::text;
use crate::text::{append_str, chars_of, contains_vec, join_strings, string_of, trim_vec};
use crate::users;
use crate::users::u64_to_dec;

verus! {

/// Sector size in bytes.
pub const SECTOR_SIZE: u64 = 512;

/// The first partition starts at this sector (1 MiB, for the GPT and alignment).
pub const FIRST_PARTITION_OFFSET_SECTORS: u64 = 2048;

/// Why a disk image step failed.
#[derive(Debug, PartialEq, Eq)]
pub enum DiskError {
    /// Host tools are missing; the message lists them.
    MissingTools { message: String },
    /// `mmd` could not create a directory.
    MkdirFailed { message: String },
}

/// The host tools every disk image build needs, with their packages.
pub open spec fn base_tools_spec() -> Seq<(Seq<char>, Seq<char>)> {
    seq![
        ("sfdisk"@, "util-linux"@),
        ("mkfs.vfat"@, "dosfstools"@),
        ("mkfs.ext4"@, "e2fsprogs"@),
        ("mcopy"@, "mtools"@),
        ("mmd"@, "mtools"@),
        ("uuidgen"@, "util-linux"@),
        ("dd"@, "coreutils"@),
    ]
}

/// Views of tool and package pairs.
pub open spec fn pair_views(v: Seq<(String, String)>) -> Seq<(Seq<char>, Seq<char>)> {
    v.map_values(|p: (String, String)| (p.0@, p.1@))
}

fn push_pair(v: &mut Vec<(String, String)>, a: &str, b: &str)
    ensures
        pair_views(final(v)@) == pair_views(old(v)@).push((a@, b@)),
{
    v.push((String::from_str(a), String::from_str(b)));
    assert(pair_views(v@) =~= pair_views(old(v)@).push((a@, b@)));
}

/// The host tools every disk image build needs, each with its package.
pub fn base_required_tools() -> (r: Vec<(String, String)>)
    ensures
        pair_views(r@) == base_tools_spec(),
{
    let mut v: Vec<(String, String)> = Vec::new();
    push_pair(&mut v, "sfdisk", "util-linux");
    push_pair(&mut v, "mkfs.vfat", "dosfstools");
    push_pair(&mut v, "mkfs.ext4", "e2fsprogs");
    push_pair(&mut v, "mcopy", "mtools");
    push_pair(&mut v, "mmd", "mtools");
    push_pair(&mut v, "uuidgen", "util-linux");
    push_pair(&mut v, "dd", "coreutils");
    v
}

/// The tools to look for: the base tools, then the extra ones.
pub fn required_tools(extra_tools: &Vec<(String, String)>) -> (r: Vec<(String, String)>)
    ensures
        pair_views(r@) == base_tools_spec() + pair_views(extra_tools@),
{
    let mut v = base_required_tools();
    let mut i: usize = 0;
    while i < extra_tools.len()
        invariant
            i <= extra_tools.len(),
            pair_views(v@) == base_tools_spec() + pair_views(extra_tools@).take(i as int),
        decreases extra_tools.len() - i,
    {
        push_pair(&mut v, extra_tools[i].0.as_str(), extra_tools[i].1.as_str());
        assert(pair_views(extra_tools@).take(i as int + 1) =~= pair_views(extra_tools@).take(i as int).push(
            (extra_tools@[i as int].0@, extra_tools@[i as int].1@)));
        i = i + 1;
    }
    assert(pair_views(extra_tools@).take(extra_tools.len() as int) =~= pair_views(extra_tools@));
    v
}

/// The report line of a missing tool: `  <tool> (install: <package>)`.
pub open spec fn missing_line(t: (Seq<char>, Seq<char>)) -> Seq<char> {
    "  "@ + t.0 + " (install: "@ + t.1 + ")"@
}

/// The report lines of the tools that are not present, in order.
pub open spec fn missing_lines(tools: Seq<(Seq<char>, Seq<char>)>, present: Seq<bool>) -> Seq<Seq<char>>
    decreases tools.len(),
{
    if tools.len() == 0 {
        seq![]
    } else {
        let prev = missing_lines(tools.drop_last(), present.drop_last());
        if present.last() { prev } else { prev.push(missing_line(tools.last())) }
    }
}

/// The verdict on the host tools: `present[i]` says whether the `i`-th
/// required tool (see `required_tools`) was found; any missing one is reported.
pub fn check_host_tools(extra_tools: &Vec<(String, String)>, present: &Vec<bool>) -> (r: Result<(), DiskError>)
    requires
        present@.len() == 7 + extra_tools@.len(),
    ensures
        ({
            let lines = missing_lines(base_tools_spec() + pair_views(extra_tools@), present@);
            &&& lines.len() == 0 ==> r is Ok
            &&& lines.len() > 0 ==> (r matches Err(DiskError::MissingTools { message: m })
                && m@ == "Missing required tools:\n"@ + text::join_with(lines, "\n"@) + "\n\nInstall them first."@)
        }),
{
    let tools = required_tools(extra_tools);
    let ghost all = base_tools_spec() + pair_views(extra_tools@);
    let mut missing: Vec<String> = Vec::new();
    let mut i: usize = 0;
    while i < tools.len()
        invariant
            i <= tools.len(),
            pair_views(tools@) == all,
            all.len() == present@.len(),
            text::views(missing@) == missing_lines(all.take(i as int), present@.take(i as int)),
        decreases tools.len() - i,
    {
        proof {
            assert(all.take(i as int + 1).drop_last() =~= all.take(i as int));
            assert(present@.take(i as int + 1).drop_last() =~= present@.take(i as int));
            assert(all.take(i as int + 1).last() == (tools@[i as int].0@, tools@[i as int].1@));
        }
        if !present[i] {
            let mut line = String::from_str("  ");
            append_str(&mut line, tools[i].0.as_str());
            append_str(&mut line, " (install: ");
            append_str(&mut line, tools[i].1.as_str());
            append_str(&mut line, ")");
            let ghost before = text::views(missing@);
            missing.push(line);
            assert(text::views(missing@) =~= before.push(line@));
        }
        i = i + 1;
    }
    assert(all.take(tools.len() as int) =~= all);
    assert(present@.take(tools.len() as int) =~= present@);
    if missing.len() == 0 {
        return Ok(());
    }
    let mut message = String::from_str("Missing required tools:\n");
    let joined = join_strings(&missing, "\n");
    append_str(&mut message, joined.as_str());
    append_str(&mut message, "\n\nInstall them first.");
    Err(DiskError::MissingTools { message })
}

/// ASCII letters made upper case; other characters kept.
pub open spec fn upper_ascii(s: Seq<char>) -> Seq<char> {
    s.map_values(|c: char| if 'a' <= c <= 'z' { ((c as int) - 32) as char } else { c })
}

fn upper_ascii_vec(s: &Vec<char>) -> (r: Vec<char>)
    ensures
        r@ == upper_ascii(s@),
{
    let mut out: Vec<char> = Vec::new();
    let mut i: usize = 0;
    while i < s.len()
        invariant
            i <= s.len(),
            out@ == upper_ascii(s@.take(i as int)),
        decreases s.len() - i,
    {
        let c = s[i];
        let u = if 'a' <= c && c <= 'z' { ((c as u32) - 32) as u8 as char } else { c };
        proof {
            if 'a' <= c <= 'z' {
                assert(((c as int) - 32) == ((c as u32) - 32) as u8);
            }
        }
        out.push(u);
        assert(upper_ascii(s@.take(i as int + 1)) =~= upper_ascii(s@.take(i as int)).push(u));
        i = i + 1;
    }
    assert(s@.take(s.len() as int) =~= s@);
    out
}

/// The FAT volume serial taken from `uuidgen` output: its first eight
/// hexadecimal digits, upper case, as `XXXX-XXXX`; `None` when there are fewer.
pub open spec fn vfat_serial_of(uuid_text: Seq<char>) -> Option<Seq<char>> {
    let h = uuid_text.filter(|c: char| store::is_hex_digit(c));
    if h.len() < 8 {
        None
    } else {
        Some(upper_ascii(h.subrange(0, 4)) + "-"@ + upper_ascii(h.subrange(4, 8)))
    }
}

/// The FAT volume serial made from `uuidgen` output.
pub fn vfat_serial_from(uuid_text: &str) -> (r: Option<String>)
    ensures
        match vfat_serial_of(uuid_text@) {
            Some(s) => r matches Some(x) && x@ == s,
            None => r is None,
        },
{
    let v = chars_of(uuid_text);
    let ghost pred = |c: char| store::is_hex_digit(c);
    let mut h: Vec<char> = Vec::new();
    let mut i: usize = 0;
    while i < v.len()
        invariant
            i <= v.len(),
            v@ == uuid_text@,
            pred == (|c: char| store::is_hex_digit(c)),
            h@ == v@.take(i as int).filter(pred),
        decreases v.len() - i,
    {
        proof {
            assert(v@.take(i as int + 1) =~= v@.take(i as int).push(v@[i as int]));
            v@.take(i as int).lemma_filter_push(v@[i as int], pred);
        }
        let c = v[i];
        if ('0' <= c && c <= '9') || ('a' <= c && c <= 'f') || ('A' <= c && c <= 'F') {
            h.push(c);
        }
        i = i + 1;
    }
    assert(v@.take(v.len() as int) =~= v@);
    if h.len() < 8 {
        return None;
    }
    let a = text::slice_vec(&h, 0, 4);
    let b = text::slice_vec(&h, 4, 8);
    let mut out = string_of(&upper_ascii_vec(&a));
    append_str(&mut out, "-");
    let bu = upper_ascii_vec(&b);
    let bs = string_of(&bu);
    append_str(&mut out, bs.as_str());
    Some(out)
}

/// What `str::to_uppercase` gives for a string.
pub uninterp spec fn uppercase_of(s: Seq<char>) -> Seq<char>;

/// What `str::to_lowercase` gives for a string.
pub uninterp spec fn lowercase_of(s: Seq<char>) -> Seq<char>;

/// Calls `str::to_uppercase`. Its documentation defines the result by the
/// Unicode `Uppercase` mapping, a function of the string alone, which is
/// named here; for ASCII text it maps `a`..`z` to `A`..`Z` and keeps the rest.
#[verifier::external_body]
fn to_uppercase(s: &str) -> (r: String)
    ensures
        r@ == uppercase_of(s@),
        is_ascii(s@) ==> r@ == upper_ascii(s@),
{
    s.to_uppercase()
}

/// Calls `str::to_lowercase`. Its documentation defines the result by the
/// Unicode `Lowercase` mapping, a function of the string alone, which is
/// named here; for ASCII text it maps `A`..`Z` to `a`..`z` and keeps the rest.
#[verifier::external_body]
fn to_lowercase(s: &str) -> (r: String)
    ensures
        r@ == lowercase_of(s@),
        is_ascii(s@) ==> r@ == lower_ascii(s@),
{
    s.to_lowercase()
}

/// A UUID as `uuidgen` printed it: trimmed and lower case.
pub fn uuid_from(uuid_text: &str) -> (r: String)
    ensures
        r@ == lowercase_of(text::trim(uuid_text@)),
{
    let v = chars_of(uuid_text);
    let t = string_of(&trim_vec(&v));
    to_lowercase(t.as_str())
}

/// What a finished command printed and how it ended.
#[derive(Debug)]
pub struct CmdOutput {
    pub success: bool,
    pub stdout: String,
    pub stderr: String,
    /// How the command ended, as the process runner describes it.
    pub exit_description: String,
}

/// ASCII letters made lower case; other characters kept.
pub open spec fn lower_ascii(s: Seq<char>) -> Seq<char> {
    s.map_values(|c: char| if 'A' <= c <= 'Z' { ((c as int) + 32) as char } else { c })
}

fn lower_ascii_vec(s: &Vec<char>) -> (r: Vec<char>)
    ensures
        r@ == lower_ascii(s@),
{
    let mut out: Vec<char> = Vec::new();
    let mut i: usize = 0;
    while i < s.len()
        invariant
            i <= s.len(),
            out@ == lower_ascii(s@.take(i as int)),
        decreases s.len() - i,
    {
        let c = s[i];
        let u = if 'A' <= c && c <= 'Z' { ((c as u32) + 32) as u8 as char } else { c };
        out.push(u);
        assert(lower_ascii(s@.take(i as int + 1)) =~= lower_ascii(s@.take(i as int)).push(u));
        i = i + 1;
    }
    assert(s@.take(s.len() as int) =~= s@);
    out
}

/// The text `mmd` printed, trimmed and lower case: stdout, a space, stderr.
pub open spec fn mmd_text(out: CmdOutput) -> Seq<char> {
    lower_ascii(text::trim(out.stdout@)) + " "@ + lower_ascii(text::trim(out.stderr@))
}

/// The verdict on an `mmd` run: success, or a failure saying the directory
/// already exists, is fine; any other failure is reported with what it printed.
pub fn mtools_mkdir(dir: &str, output: &CmdOutput) -> (r: Result<(), DiskError>)
    ensures
        output.success ==> r is Ok,
        !output.success && text::contains(mmd_text(*output), "already exists"@) ==> r is Ok,
        !output.success && !text::contains(mmd_text(*output), "already exists"@) ==> (r matches Err(DiskError::MkdirFailed { message: m })
            && m@ == "mmd failed to create directory '"@ + dir@ + "': "@ + output.exit_description@
                + (if text::trim(mmd_text(*output)).len() == 0 { Seq::empty() } else { "; "@ + mmd_text(*output) })),
{
    if output.success {
        return Ok(());
    }
    let so = chars_of(output.stdout.as_str());
    let se = chars_of(output.stderr.as_str());
    let mut t = lower_ascii_vec(&trim_vec(&so));
    t.push(' ');
    let e = lower_ascii_vec(&trim_vec(&se));
    let ghost t0 = t@;
    let mut k: usize = 0;
    while k < e.len()
        invariant
            k <= e.len(),
            t@ == t0 + e@.take(k as int),
        decreases e.len() - k,
    {
        t.push(e[k]);
        assert(t0 + e@.take(k as int + 1) =~= t0 + e@.take(k as int) + seq![e@[k as int]]);
        k = k + 1;
    }
    assert(e@.take(e.len() as int) =~= e@);
    proof {
        reveal_strlit(" ");
        assert(t@ =~= mmd_text(*output));
    }
    let needle = chars_of("already exists");
    if contains_vec(&t, &needle) {
        return Ok(());
    }
    let mut message = String::from_str("mmd failed to create directory '");
    append_str(&mut message, dir);
    append_str(&mut message, "': ");
    append_str(&mut message, output.exit_description.as_str());
    let tt = trim_vec(&t);
    if tt.len() > 0 {
        append_str(&mut message, "; ");
        let ts = string_of(&t);
        append_str(&mut message, ts.as_str());
    }
    Err(DiskError::MkdirFailed { message })
}

/// The path of a file inside a FAT image, as mtools names it: `::<path>`.
pub open spec fn fat_path(p: Seq<char>) -> Seq<char> {
    "::"@ + p
}

fn fat_path_of(p: &str) -> (r: String)
    ensures
        r@ == fat_path(p@),
{
    let mut s = String::from_str("::");
    append_str(&mut s, p);
    s
}

/// The arguments of `mmd` creating `dir` in a FAT image.
pub fn mtools_mkdir_args(image: &str, dir: &str) -> (r: Vec<String>)
    ensures
        text::views(r@) == seq!["-i"@, image@, fat_path(dir@)],
{
    let mut v: Vec<String> = Vec::new();
    v.push(String::from_str("-i"));
    v.push(String::from_str(image));
    v.push(fat_path_of(dir));
    assert(text::views(v@) =~= seq!["-i"@, image@, fat_path(dir@)]);
    v
}

/// The arguments of `mcopy` copying `src` to `dest` in a FAT image.
pub fn mtools_copy(image: &str, src: &str, dest: &str) -> (r: Vec<String>)
    ensures
        text::views(r@) == seq!["-i"@, image@, src@, fat_path(dest@)],
{
    let mut v: Vec<String> = Vec::new();
    v.push(String::from_str("-i"));
    v.push(String::from_str(image));
    v.push(String::from_str(src));
    v.push(fat_path_of(dest));
    assert(text::views(v@) =~= seq!["-i"@, image@, src@, fat_path(dest@)]);
    v
}

/// The identifiers of a disk image.
#[derive(Debug, Clone)]
pub struct DiskUuids {
    pub root_fs_uuid: String,
    pub efi_fs_uuid: String,
    pub root_part_uuid: String,
}

/// One step on a FAT image.
#[derive(Debug)]
pub enum MtoolsOp {
    Mkdir { dir: String },
    Copy { src: String, dest: String },
    Write { dest: String, content: String },
}

/// A step on a FAT image, with its strings as character sequences.
pub enum MtoolsOpView {
    Mkdir { dir: Seq<char> },
    Copy { src: Seq<char>, dest: Seq<char> },
    Write { dest: Seq<char>, content: Seq<char> },
}

impl MtoolsOp {
    pub open spec fn view(self) -> MtoolsOpView {
        match self {
            MtoolsOp::Mkdir { dir } => MtoolsOpView::Mkdir { dir: dir@ },
            MtoolsOp::Copy { src, dest } => MtoolsOpView::Copy { src: src@, dest: dest@ },
            MtoolsOp::Write { dest, content } => MtoolsOpView::Write { dest: dest@, content: content@ },
        }
    }
}

/// The EFI system partition: its size, how it is formatted and what goes in.
#[derive(Debug)]
pub struct EfiPartitionPlan {
    pub size_bytes: u64,
    pub mkfs_args: Vec<String>,
    pub steps: Vec<MtoolsOp>,
}

/// `s` without its `-` characters.
pub open spec fn without_dashes(s: Seq<char>) -> Seq<char> {
    s.filter(|c: char| c != '-')
}

fn without_dashes_vec(s: &str) -> (r: String)
    ensures
        r@ == without_dashes(s@),
{
    let v = chars_of(s);
    let ghost pred = |c: char| c != '-';
    let mut out: Vec<char> = Vec::new();
    let mut i: usize = 0;
    while i < v.len()
        invariant
            i <= v.len(),
            v@ == s@,
            pred == (|c: char| c != '-'),
            out@ == v@.take(i as int).filter(pred),
        decreases v.len() - i,
    {
        proof {
            assert(v@.take(i as int + 1) =~= v@.take(i as int).push(v@[i as int]));
            v@.take(i as int).lemma_filter_push(v@[i as int], pred);
        }
        if v[i] != '-' {
            out.push(v[i]);
        }
        i = i + 1;
    }
    assert(v@.take(v.len() as int) =~= v@);
    string_of(&out)
}

/// What goes into the EFI partition, in order.
pub open spec fn efi_steps_spec(
    boot_entry_filename: Seq<char>,
    boot_entry_content: Seq<char>,
    loader_config_content: Seq<char>,
    kernel_path: Seq<char>,
    initramfs_path: Seq<char>,
    bootloader_efi_path: Seq<char>,
) -> Seq<MtoolsOpView> {
    seq![
        MtoolsOpView::Mkdir { dir: "EFI"@ },
        MtoolsOpView::Mkdir { dir: "EFI/BOOT"@ },
        MtoolsOpView::Mkdir { dir: "EFI/systemd"@ },
        MtoolsOpView::Mkdir { dir: "loader"@ },
        MtoolsOpView::Mkdir { dir: "loader/entries"@ },
        MtoolsOpView::Copy { src: bootloader_efi_path, dest: "EFI/BOOT/BOOTX64.EFI"@ },
        MtoolsOpView::Copy { src: bootloader_efi_path, dest: "EFI/systemd/systemd-bootx64.efi"@ },
        MtoolsOpView::Write { dest: "loader/loader.conf"@, content: loader_config_content },
        MtoolsOpView::Write { dest: "loader/entries/"@ + boot_entry_filename, content: boot_entry_content },
        MtoolsOpView::Copy { src: kernel_path, dest: "vmlinuz"@ },
        MtoolsOpView::Copy { src: initramfs_path, dest: "initramfs.img"@ },
    ]
}

fn push_op(v: &mut Vec<MtoolsOp>, op: MtoolsOp)
    ensures
        final(v)@.map_values(|o: MtoolsOp| o.view()) == old(v)@.map_values(|o: MtoolsOp| o.view()).push(op.view()),
{
    v.push(op);
    assert(v@.map_values(|o: MtoolsOp| o.view()) =~= old(v)@.map_values(|o: MtoolsOp| o.view()).push(op.view()));
}

/// The EFI partition of a disk image: a FAT32 file of `efi_size_mb` MiB
/// labelled `EFI` with the EFI volume id (its dashes removed), holding
/// systemd-boot, the loader configuration, the boot entry, the kernel and
/// the initramfs.
pub fn create_efi_partition(
    image_path: &str,
    efi_size_mb: u64,
    uuids: &DiskUuids,
    boot_entry_filename: &str,
    boot_entry_content: &str,
    loader_config_content: &str,
    kernel_path: &str,
    initramfs_path: &str,
    bootloader_efi_path: &str,
) -> (r: EfiPartitionPlan)
    requires
        efi_size_mb * 1048576 <= u64::MAX,
    ensures
        r.size_bytes == efi_size_mb * 1048576,
        text::views(r.mkfs_args@) == seq!["-F"@, "32"@, "-n"@, "EFI"@, "-i"@, without_dashes(uuids.efi_fs_uuid@), image_path@],
        r.steps@.map_values(|o: MtoolsOp| o.view()) == efi_steps_spec(boot_entry_filename@, boot_entry_content@,
            loader_config_content@, kernel_path@, initramfs_path@, bootloader_efi_path@),
{
    let vol_id = without_dashes_vec(uuids.efi_fs_uuid.as_str());
    let mut args: Vec<String> = Vec::new();
    args.push(String::from_str("-F"));
    args.push(String::from_str("32"));
    args.push(String::from_str("-n"));
    args.push(String::from_str("EFI"));
    args.push(String::from_str("-i"));
    args.push(vol_id);
    args.push(String::from_str(image_path));
    assert(text::views(args@) =~= seq!["-F"@, "32"@, "-n"@, "EFI"@, "-i"@, without_dashes(uuids.efi_fs_uuid@), image_path@]);
    let mut steps: Vec<MtoolsOp> = Vec::new();
    push_op(&mut steps, MtoolsOp::Mkdir { dir: String::from_str("EFI") });
    push_op(&mut steps, MtoolsOp::Mkdir { dir: String::from_str("EFI/BOOT") });
    push_op(&mut steps, MtoolsOp::Mkdir { dir: String::from_str("EFI/systemd") });
    push_op(&mut steps, MtoolsOp::Mkdir { dir: String::from_str("loader") });
    push_op(&mut steps, MtoolsOp::Mkdir { dir: String::from_str("loader/entries") });
    push_op(&mut steps, MtoolsOp::Copy { src: String::from_str(bootloader_efi_path), dest: String::from_str("EFI/BOOT/BOOTX64.EFI") });
    push_op(&mut steps, MtoolsOp::Copy {
        src: String::from_str(bootloader_efi_path),
        dest: String::from_str("EFI/systemd/systemd-bootx64.efi"),
    });
    push_op(&mut steps, MtoolsOp::Write { dest: String::from_str("loader/loader.conf"), content: String::from_str(loader_config_content) });
    let mut entry = String::from_str("loader/entries/");
    append_str(&mut entry, boot_entry_filename);
    push_op(&mut steps, MtoolsOp::Write { dest: entry, content: String::from_str(boot_entry_content) });
    push_op(&mut steps, MtoolsOp::Copy { src: String::from_str(kernel_path), dest: String::from_str("vmlinuz") });
    push_op(&mut steps, MtoolsOp::Copy { src: String::from_str(initramfs_path), dest: String::from_str("initramfs.img") });
    assert(steps@.map_values(|o: MtoolsOp| o.view()) =~= efi_steps_spec(boot_entry_filename@, boot_entry_content@,
        loader_config_content@, kernel_path@, initramfs_path@, bootloader_efi_path@));
    EfiPartitionPlan { size_bytes: efi_size_mb * 1048576, mkfs_args: args, steps }
}

/// The root partition: an ext4 file of `size_mb` MiB labelled `root` with the
/// root filesystem UUID, populated from the rootfs directory by `mkfs.ext4 -d`.
pub fn create_root_partition(rootfs: &str, image_path: &str, size_mb: u64, uuids: &DiskUuids) -> (r: (u64, Vec<String>))
    requires
        size_mb * 1048576 <= u64::MAX,
    ensures
        r.0 == size_mb * 1048576,
        text::views(r.1@) == seq!["-q"@, "-L"@, "root"@, "-U"@, uuids.root_fs_uuid@, "-d"@, rootfs@, image_path@],
{
    let mut args: Vec<String> = Vec::new();
    args.push(String::from_str("-q"));
    args.push(String::from_str("-L"));
    args.push(String::from_str("root"));
    args.push(String::from_str("-U"));
    args.push(String::from_str(uuids.root_fs_uuid.as_str()));
    args.push(String::from_str("-d"));
    args.push(String::from_str(rootfs));
    args.push(String::from_str(image_path));
    assert(text::views(args@) =~= seq!["-q"@, "-L"@, "root"@, "-U"@, uuids.root_fs_uuid@, "-d"@, rootfs@, image_path@]);
    (size_mb * 1048576, args)
}

/// Decimal digits of a number.
pub open spec fn dec(n: int) -> Seq<char> {
    users::dec_str(n as nat)
}

fn dec_string(n: u64) -> (r: String)
    ensures
        r@ == dec(n as int),
{
    let v = u64_to_dec(n);
    string_of(&v)
}

/// The GPT that `sfdisk` writes: the EFI partition from sector 2048 on, then
/// the root partition with its (upper case) partition UUID.
pub open spec fn sfdisk_script_spec(efi_size_sectors: int, root_start_sector: int, root_part_uuid: Seq<char>) -> Seq<char> {
    sfdisk_script_text(efi_size_sectors, root_start_sector, uppercase_of(root_part_uuid))
}

/// The GPT script with the partition UUID already in the case it is written in.
pub open spec fn sfdisk_script_text(efi_size_sectors: int, root_start_sector: int, uuid_text: Seq<char>) -> Seq<char> {
    "label: gpt\nstart="@ + dec(FIRST_PARTITION_OFFSET_SECTORS as int) + ", size="@ + dec(efi_size_sectors)
        + ", type=U, bootable\nstart="@ + dec(root_start_sector) + ", type=L, uuid="@ + uuid_text + "\n"@
}

/// How the partitions are assembled into a disk image.
#[derive(Debug)]
pub struct AssemblyPlan {
    pub disk_size_bytes: u64,
    pub sfdisk_script: String,
    pub dd_efi_args: Vec<String>,
    pub dd_root_args: Vec<String>,
}

/// The arguments of `dd` splicing an image into the disk at `seek_mib` MiB.
pub open spec fn dd_args_spec(image: Seq<char>, disk: Seq<char>, seek_mib: int) -> Seq<Seq<char>> {
    seq!["if="@ + image, "of="@ + disk, "bs=1M"@, "conv=notrunc"@, "seek="@ + dec(seek_mib)]
}

fn dd_args(image: &str, disk: &str, seek_mib: u64) -> (r: Vec<String>)
    ensures
        text::views(r@) == dd_args_spec(image@, disk@, seek_mib as int),
{
    let mut a = String::from_str("if=");
    append_str(&mut a, image);
    let mut b = String::from_str("of=");
    append_str(&mut b, disk);
    let mut c = String::from_str("seek=");
    let d = dec_string(seek_mib);
    append_str(&mut c, d.as_str());
    let mut v: Vec<String> = Vec::new();
    v.push(a);
    v.push(b);
    v.push(String::from_str("bs=1M"));
    v.push(String::from_str("conv=notrunc"));
    v.push(c);
    assert(text::views(v@) =~= dd_args_spec(image@, disk@, seek_mib as int));
    v
}

/// Whether every character is ASCII.
pub open spec fn is_ascii(s: Seq<char>) -> bool {
    forall|i: int| 0 <= i < s.len() ==> (s[i] as int) < 128
}

/// The layout of a disk image of `disk_size_gb` GiB: the GPT script, and the
/// EFI partition at 1 MiB followed by the root partition, spliced in by `dd`.
pub fn assemble_disk(
    disk_path: &str,
    efi_image: &str,
    root_image: &str,
    disk_size_gb: u32,
    efi_size_mb: u64,
    uuids: &DiskUuids,
) -> (r: AssemblyPlan)
    requires
        (efi_size_mb + 1) * 1048576 <= u64::MAX,
    ensures
        r.disk_size_bytes == disk_size_gb * 1073741824,
        r.sfdisk_script@ == sfdisk_script_spec(efi_size_mb * 2048, 2048 + efi_size_mb * 2048, uuids.root_part_uuid@),
        is_ascii(uuids.root_part_uuid@) ==> r.sfdisk_script@ == sfdisk_script_text(efi_size_mb * 2048,
            2048 + efi_size_mb * 2048, upper_ascii(uuids.root_part_uuid@)),
        text::views(r.dd_efi_args@) == dd_args_spec(efi_image@, disk_path@, 1),
        text::views(r.dd_root_args@) == dd_args_spec(root_image@, disk_path@, 1 + efi_size_mb),
{
    let disk_size_bytes = (disk_size_gb as u64) * 1073741824;
    let efi_size_sectors = (efi_size_mb * 1048576) / SECTOR_SIZE;
    assert(efi_size_sectors == efi_size_mb * 2048) by (nonlinear_arith)
        requires efi_size_sectors == (efi_size_mb * 1048576) / 512;
    let root_start_sector = FIRST_PARTITION_OFFSET_SECTORS + efi_size_sectors;
    let mut script = String::from_str("label: gpt\nstart=");
    let first = dec_string(FIRST_PARTITION_OFFSET_SECTORS);
    append_str(&mut script, first.as_str());
    append_str(&mut script, ", size=");
    let es = dec_string(efi_size_sectors);
    append_str(&mut script, es.as_str());
    append_str(&mut script, ", type=U, bootable\nstart=");
    let rs = dec_string(root_start_sector);
    append_str(&mut script, rs.as_str());
    append_str(&mut script, ", type=L, uuid=");
    let up = to_uppercase(uuids.root_part_uuid.as_str());
    append_str(&mut script, up.as_str());
    append_str(&mut script, "\n");
    let efi_offset_bytes = FIRST_PARTITION_OFFSET_SECTORS * SECTOR_SIZE;
    let root_offset_bytes = root_start_sector * SECTOR_SIZE;
    assert(root_offset_bytes / 1048576 == 1 + efi_size_mb) by (nonlinear_arith)
        requires root_offset_bytes == (2048 + efi_size_mb * 2048) * 512;
    AssemblyPlan {
        disk_size_bytes,
        sfdisk_script: script,
        dd_efi_args: dd_args(efi_image, disk_path, efi_offset_bytes / 1048576),
        dd_root_args: dd_args(root_image, disk_path, root_offset_bytes / 1048576),
    }
}

/// Distro-specific configuration of a disk image, implemented by each distro.
pub trait DiskImageConfig {
    /// Hostname to write to `/etc/hostname`.
    fn hostname(&self) -> &str;

    /// Boot entry filename (e.g. `iuppiter.conf`).
    fn boot_entry_filename(&self) -> &str;

    /// Boot entry content for systemd-boot, for the root partition UUID.
    fn boot_entry_content(&self, partuuid: &str) -> String;

    /// Loader configuration content (`loader/loader.conf`).
    fn loader_config_content(&self) -> String;

    /// Path to the kernel image.
    fn kernel_path(&self) -> &str;

    /// Path to the initramfs of the installed system.
    fn initramfs_path(&self) -> &str;

    /// Path to the systemd-boot EFI binary.
    fn bootloader_efi_path(&self) -> &str;

    /// EFI partition size in MB.
    fn efi_size_mb(&self) -> u64;

    /// Disk image size in GB (sparse).
    fn disk_size_gb(&self) -> u32;

    /// Output filename of the raw disk image.
    fn output_filename(&self) -> &str;

    /// Prepare the rootfs for disk installation (fstab, services, hostname,
    /// passwords); called after the staging tree is copied to the work
    /// directory. An error is described by its message.
    fn prepare_rootfs(&self, rootfs: &str, uuids: &DiskUuids) -> Result<(), String>;

    /// Host tools required beyond the base set, as (tool, package).
    fn extra_required_tools(&self) -> (r: Vec<(String, String)>)
        default_ensures
            r@ == Seq::<(String, String)>::empty(),
    {
        Vec::new()
    }
}

/// What a distro says about its disk image, as plain values.
#[derive(Debug)]
pub struct DiskImageParams {
    pub boot_entry_filename: String,
    /// The distro's boot entry for the root partition UUID (the plan's
    /// `boot_entry_partuuid`); the distro's trait method makes it.
    pub boot_entry_content: String,
    pub loader_config_content: String,
    pub kernel_path: String,
    pub initramfs_path: String,
    pub bootloader_efi_path: String,
    pub efi_size_mb: u64,
    pub disk_size_gb: u32,
    pub output_filename: String,
}

/// Every step of building a disk image, in the order they run: clear and
/// create `work_dir`; copy the staging tree to `rootfs_work` (`cp` with
/// `copy_args`); have the distro prepare `prepare_rootfs_dir` for
/// `prepare_rootfs_uuids`; make the EFI image (its boot entry is the
/// distro's entry for `boot_entry_partuuid`); make the root image; assemble
/// `raw_path`; move it to `output_path`; remove `cleanup_dir`.
#[derive(Debug)]
pub struct DiskImagePlan {
    /// Removed when present, then created.
    pub work_dir: String,
    pub rootfs_work: String,
    pub copy_args: Vec<String>,
    /// The rootfs handed to the distro's `prepare_rootfs`, with these UUIDs.
    pub prepare_rootfs_dir: String,
    pub prepare_rootfs_uuids: DiskUuids,
    /// The partition UUID the distro's boot entry is made for.
    pub boot_entry_partuuid: String,
    pub efi_image: String,
    pub efi: EfiPartitionPlan,
    pub root_image: String,
    pub root_size_mb: u64,
    pub root_size_bytes: u64,
    pub mkfs_ext4_args: Vec<String>,
    pub raw_path: String,
    pub assembly: AssemblyPlan,
    pub output_path: String,
    /// Removed once the image has been moved to `output_path`.
    pub cleanup_dir: String,
}

/// The plan of a disk image build: clear and create the work directory, copy
/// the staging tree into `<work>/rootfs` and have the distro prepare it with
/// the UUIDs, make `efi.img` and `root.img` (the root partition takes the disk
/// size less the EFI partition and 2 MiB of GPT overhead), assemble
/// `disk.raw`, move it to `<output>/<output file name>` and remove the work
/// directory.
pub fn build_disk_image_with_uuids(
    params: &DiskImageParams,
    staging_dir: &str,
    output_dir: &str,
    work_dir: &str,
    uuids: &DiskUuids,
) -> (r: DiskImagePlan)
    requires
        params.efi_size_mb + 2 <= params.disk_size_gb * 1024,
    ensures
        r.work_dir@ == work_dir@,
        r.rootfs_work@ == paths::join(work_dir@, "rootfs"@),
        r.prepare_rootfs_dir@ == paths::join(work_dir@, "rootfs"@),
        r.prepare_rootfs_uuids.root_fs_uuid@ == uuids.root_fs_uuid@,
        r.prepare_rootfs_uuids.efi_fs_uuid@ == uuids.efi_fs_uuid@,
        r.prepare_rootfs_uuids.root_part_uuid@ == uuids.root_part_uuid@,
        r.boot_entry_partuuid@ == uuids.root_part_uuid@,
        r.cleanup_dir@ == work_dir@,
        text::views(r.copy_args@) == seq!["-a"@, staging_dir@, paths::join(work_dir@, "rootfs"@)],
        r.efi_image@ == paths::join(work_dir@, "efi.img"@),
        r.efi.size_bytes == params.efi_size_mb * 1048576,
        r.efi.steps@.map_values(|o: MtoolsOp| o.view()) == efi_steps_spec(params.boot_entry_filename@,
            params.boot_entry_content@, params.loader_config_content@, params.kernel_path@, params.initramfs_path@,
            params.bootloader_efi_path@),
        r.root_image@ == paths::join(work_dir@, "root.img"@),
        r.root_size_mb == params.disk_size_gb * 1024 - params.efi_size_mb - 2,
        r.root_size_bytes == r.root_size_mb * 1048576,
        text::views(r.mkfs_ext4_args@) == seq!["-q"@, "-L"@, "root"@, "-U"@, uuids.root_fs_uuid@, "-d"@,
            paths::join(work_dir@, "rootfs"@), paths::join(work_dir@, "root.img"@)],
        r.raw_path@ == paths::join(work_dir@, "disk.raw"@),
        r.assembly.disk_size_bytes == params.disk_size_gb * 1073741824,
        r.assembly.sfdisk_script@ == sfdisk_script_spec(params.efi_size_mb * 2048, 2048 + params.efi_size_mb * 2048,
            uuids.root_part_uuid@),
        is_ascii(uuids.root_part_uuid@) ==> r.assembly.sfdisk_script@ == sfdisk_script_text(params.efi_size_mb * 2048,
            2048 + params.efi_size_mb * 2048, upper_ascii(uuids.root_part_uuid@)),
        r.output_path@ == paths::join(output_dir@, params.output_filename@),
{
    assert((params.efi_size_mb + 1) * 1048576 <= u64::MAX) by (nonlinear_arith)
        requires params.efi_size_mb + 2 <= params.disk_size_gb * 1024, params.disk_size_gb <= u32::MAX;
    assert((params.disk_size_gb * 1024 - params.efi_size_mb - 2) * 1048576 <= u64::MAX) by (nonlinear_arith)
        requires params.efi_size_mb + 2 <= params.disk_size_gb * 1024, params.disk_size_gb <= u32::MAX;
    let rootfs_work = path_join(work_dir, "rootfs");
    let mut copy_args: Vec<String> = Vec::new();
    copy_args.push(String::from_str("-a"));
    copy_args.push(String::from_str(staging_dir));
    copy_args.push(String::from_str(rootfs_work.as_str()));
    assert(text::views(copy_args@) =~= seq!["-a"@, staging_dir@, paths::join(work_dir@, "rootfs"@)]);
    let efi_image = path_join(work_dir, "efi.img");
    let efi = create_efi_partition(
        efi_image.as_str(),
        params.efi_size_mb,
        uuids,
        params.boot_entry_filename.as_str(),
        params.boot_entry_content.as_str(),
        params.loader_config_content.as_str(),
        params.kernel_path.as_str(),
        params.initramfs_path.as_str(),
        params.bootloader_efi_path.as_str(),
    );
    let root_image = path_join(work_dir, "root.img");
    let root_size_mb = (params.disk_size_gb as u64) * 1024 - params.efi_size_mb - 2;
    let (root_size_bytes, mkfs_ext4_args) = create_root_partition(rootfs_work.as_str(), root_image.as_str(), root_size_mb, uuids);
    let raw_path = path_join(work_dir, "disk.raw");
    let assembly = assemble_disk(raw_path.as_str(), efi_image.as_str(), root_image.as_str(), params.disk_size_gb, params.efi_size_mb, uuids);
    let output_path = path_join(output_dir, params.output_filename.as_str());
    let prepare_rootfs_dir = String::from_str(rootfs_work.as_str());
    let prepare_rootfs_uuids = DiskUuids {
        root_fs_uuid: String::from_str(uuids.root_fs_uuid.as_str()),
        efi_fs_uuid: String::from_str(uuids.efi_fs_uuid.as_str()),
        root_part_uuid: String::from_str(uuids.root_part_uuid.as_str()),
    };
    DiskImagePlan {
        work_dir: String::from_str(work_dir),
        rootfs_work,
        copy_args,
        prepare_rootfs_dir,
        prepare_rootfs_uuids,
        boot_entry_partuuid: String::from_str(uuids.root_part_uuid.as_str()),
        efi_image,
        efi,
        root_image,
        root_size_mb,
        root_size_bytes,
        mkfs_ext4_args,
        raw_path,
        assembly,
        output_path,
        cleanup_dir: String::from_str(work_dir),
    }
}

} // verus!
