//! Release ISO names, build stages, prepared product outputs and the
//! environment handed to a variant's release hook.

use vstd::prelude::*;
use crate::cli::{BuildProduct, ProductView};
use crate::cli;
use crate::paths;
use crate::paths::{path_join, path_strip_prefix};
use crate::text;
use crate::text::{append_str, chars_of, ends_with_vec, join_strings, slice_vec, str_eq, string_of};

verus! {

/// `<base>-<suffix>.iso`, where a trailing `.iso` of `base` is dropped first.
pub open spec fn derived_iso_name(base: Seq<char>, suffix: Seq<char>) -> Seq<char> {
    let stem = if text::ends_with(base, ".iso"@) { base.subrange(0, base.len() - 4) } else { base };
    stem + "-"@ + suffix + ".iso"@
}

/// The ISO file name of a product derived from the base ISO file name.
pub fn derive_product_iso_filename(base_iso_filename: &str, product_suffix: &str) -> (r: String)
    ensures
        r@ == derived_iso_name(base_iso_filename@, product_suffix@),
{
    proof {
        reveal_strlit(".iso");
    }
    let b = chars_of(base_iso_filename);
    let ext = chars_of(".iso");
    let stem = if ends_with_vec(&b, &ext) {
        slice_vec(&b, 0, b.len() - 4)
    } else {
        assert(b@.subrange(0, b@.len() as int) =~= b@);
        slice_vec(&b, 0, b.len())
    };
    let mut out = string_of(&stem);
    append_str(&mut out, "-");
    append_str(&mut out, product_suffix);
    append_str(&mut out, ".iso");
    out
}

/// Whether a product name is one of the three release products.
pub open spec fn release_product_name(name: Seq<char>) -> bool {
    name == "base-rootfs"@ || name == "live-boot"@ || name == "live-tools"@
}

/// The ISO file name of a release product: `base-rootfs` keeps the base name.
pub open spec fn product_iso_name(base: Seq<char>, product: ProductView) -> Seq<char> {
    if product.canonical == "base-rootfs"@ {
        base
    } else {
        derived_iso_name(base, product.iso_suffix)
    }
}

/// Release ISOs never overwrite each other: for any base ISO name, different
/// release products get different ISO file names, and a base name that ends
/// in `.iso` gives names that end in `.iso`.
pub proof fn law_release_iso_names_distinct(base: Seq<char>, n1: Seq<char>, n2: Seq<char>)
    requires
        release_product_name(n1),
        release_product_name(n2),
    ensures
        product_iso_name(base, crate::cli::product_named(n1).unwrap()) == product_iso_name(base, crate::cli::product_named(n2).unwrap()) ==> n1 == n2,
        text::ends_with(base, ".iso"@) ==> text::ends_with(product_iso_name(base, crate::cli::product_named(n1).unwrap()), ".iso"@),
{
    crate::cli::lemma_product_names_distinct();
    reveal_strlit(".iso");
    reveal_strlit("-");
    reveal_strlit("base-rootfs");
    reveal_strlit("live-boot");
    reveal_strlit("live-tools");
    let stem = if text::ends_with(base, ".iso"@) { base.subrange(0, base.len() - 4) } else { base };
    assert(text::ends_with(base, ".iso"@) ==> base =~= stem + ".iso"@);
    let a = derived_iso_name(base, "live-boot"@);
    let b = derived_iso_name(base, "live-tools"@);
    assert(a.len() == stem.len() + 14);
    assert(b.len() == stem.len() + 15);
    if text::ends_with(base, ".iso"@) {
        let n = product_iso_name(base, crate::cli::product_named(n1).unwrap());
        if n1 != "base-rootfs"@ {
            let suffix = crate::cli::product_named(n1).unwrap().iso_suffix;
            assert(n == stem + "-"@ + suffix + ".iso"@);
            assert(n.subrange(n.len() - 4, n.len() as int) =~= ".iso"@);
        }
    }
}

/// The ISO file name of a release product.
pub fn iso_filename_for_product(base_iso_filename: &str, product: &BuildProduct) -> (r: String)
    requires
        release_product_name(product.canonical@),
    ensures
        r@ == product_iso_name(base_iso_filename@, product.view()),
{
    if str_eq(product.canonical, "base-rootfs") {
        String::from_str(base_iso_filename)
    } else {
        derive_product_iso_filename(base_iso_filename, product.iso_suffix)
    }
}

/// A numbered build stage, kept for the stage commands.
#[derive(Debug, Clone, Copy)]
pub struct CompatibilityBuildStage {
    pub canonical: &'static str,
    pub slug: &'static str,
    pub artifact_tag: &'static str,
}

/// Why a stage name was refused.
#[derive(Debug, PartialEq, Eq)]
pub enum StageError {
    UnsupportedStage { value: String },
}

/// The stage named `name`: its slug and artifact tag.
pub open spec fn stage_named(name: Seq<char>) -> Option<(Seq<char>, Seq<char>)> {
    if name == "00Build"@ {
        Some(("s00_build"@, "s00"@))
    } else if name == "01Boot"@ {
        Some(("s01_boot"@, "s01"@))
    } else if name == "02LiveTools"@ {
        Some(("s02_live_tools"@, "s02"@))
    } else {
        None
    }
}

/// The stage a name selects (`00Build` when none is given).
pub open spec fn requested_stage(value: Option<&str>) -> Seq<char> {
    match value {
        Some(v) => v@,
        None => "00Build"@,
    }
}

/// Parse a stage name; no name means `00Build`.
pub fn parse_stage(value: Option<&str>) -> (r: Result<CompatibilityBuildStage, StageError>)
    ensures
        match stage_named(requested_stage(value)) {
            Some((slug, tag)) => r matches Ok(st) && st.canonical@ == requested_stage(value) && st.slug@ == slug
                && st.artifact_tag@ == tag,
            None => r matches Err(StageError::UnsupportedStage { value: v }) && v@ == requested_stage(value),
        },
{
    let name: &str = match value {
        Some(v) => v,
        None => "00Build",
    };
    if str_eq(name, "00Build") {
        Ok(CompatibilityBuildStage { canonical: "00Build", slug: "s00_build", artifact_tag: "s00" })
    } else if str_eq(name, "01Boot") {
        Ok(CompatibilityBuildStage { canonical: "01Boot", slug: "s01_boot", artifact_tag: "s01" })
    } else if str_eq(name, "02LiveTools") {
        Ok(CompatibilityBuildStage { canonical: "02LiveTools", slug: "s02_live_tools", artifact_tag: "s02" })
    } else {
        Err(StageError::UnsupportedStage { value: String::from_str(name) })
    }
}

/// The file names a prepared product writes.
#[derive(Debug, Clone)]
pub struct PreparedOutputNames {
    pub rootfs_source_pointer_filename: String,
    pub rootfs_erofs_filename: String,
    pub overlay_erofs_filename: String,
}

/// The prepared output names of a stage, tagged with its artifact tag.
pub fn compatibility_prepared_output_names(stage: &CompatibilityBuildStage) -> (r: PreparedOutputNames)
    ensures
        r.rootfs_source_pointer_filename@ == "."@ + stage.artifact_tag@ + "-live-rootfs-source.path"@,
        r.rootfs_erofs_filename@ == stage.artifact_tag@ + "-filesystem.erofs"@,
        r.overlay_erofs_filename@ == stage.artifact_tag@ + "-overlayfs.erofs"@,
{
    let mut pointer = String::from_str(".");
    append_str(&mut pointer, stage.artifact_tag);
    append_str(&mut pointer, "-live-rootfs-source.path");
    let mut rootfs = String::from_str(stage.artifact_tag);
    append_str(&mut rootfs, "-filesystem.erofs");
    let mut overlay = String::from_str(stage.artifact_tag);
    append_str(&mut overlay, "-overlayfs.erofs");
    PreparedOutputNames {
        rootfs_source_pointer_filename: pointer,
        rootfs_erofs_filename: rootfs,
        overlay_erofs_filename: overlay,
    }
}

/// A transform of the distro contract: its logical name and declared output names.
#[derive(Debug, Clone)]
pub struct ArtifactTransform {
    pub logical_name: String,
    pub output_names: Vec<String>,
}

/// Why the release inputs of a distro were refused.
#[derive(Debug, PartialEq, Eq)]
pub enum ReleaseError {
    /// A transform declares other than exactly one output name.
    TransformOutputs { logical_name: String, field: String, found: Vec<String> },
    /// The live UKI transform declares other than exactly three output names.
    UkiOutputs { distro_id: String, found: Vec<String> },
    /// The product has no release hook.
    MissingReleaseHook { product: String },
    /// A prepared path does not lie under the output directory.
    NotUnderOutputDir { path: String, output_dir: String },
    /// The release hook exited with a failure.
    HookFailed { distro_id: String },
    /// The release hook finished but left no ISO behind.
    IsoMissing { distro_id: String, iso_path: String },
    /// The variant has no release hook script file for the product.
    MissingVariantHook { product: String, distro_id: String, script_path: String, script_name: String, hooks_dir: String },
    /// The variant has no compatibility build hook script for the product.
    MissingCompatHook { product: String, distro_id: String, script_path: String, script_name: String, variant_dir: String },
}

/// The single output name of a transform, if it declares exactly one.
pub open spec fn single_output(t: ArtifactTransform) -> Option<Seq<char>> {
    if t.output_names@.len() == 1 {
        Some(t.output_names@[0]@)
    } else {
        None
    }
}

/// The error that refuses a transform for the given field: its logical name,
/// the field and the output names it declares.
pub open spec fn transform_error(t: ArtifactTransform, field: Seq<char>, e: ReleaseError) -> bool {
    e matches ReleaseError::TransformOutputs { logical_name: l, field: f, found }
        && l@ == t.logical_name@ && f@ == field && text::views(found@) == text::views(t.output_names@)
}

fn copy_strings(v: &Vec<String>) -> (r: Vec<String>)
    ensures
        text::views(r@) == text::views(v@),
{
    let mut out: Vec<String> = Vec::new();
    let mut i: usize = 0;
    while i < v.len()
        invariant
            i <= v.len(),
            out@.len() == i,
            forall|k: int| 0 <= k < i ==> #[trigger] out@[k]@ == v@[k]@,
        decreases v.len() - i,
    {
        out.push(String::from_str(v[i].as_str()));
        i = i + 1;
    }
    assert(text::views(out@) =~= text::views(v@));
    out
}

/// The one output name of a transform; any other count is refused.
pub fn require_single_transform_output(transform: &ArtifactTransform, field: &str) -> (r: Result<String, ReleaseError>)
    ensures
        match single_output(*transform) {
            Some(n) => r matches Ok(s) && s@ == n,
            None => r matches Err(ReleaseError::TransformOutputs { logical_name: l, field: f, found })
                && l@ == transform.logical_name@ && f@ == field@ && text::views(found@) == text::views(transform.output_names@),
        },
{
    if transform.output_names.len() == 1 {
        Ok(String::from_str(transform.output_names[0].as_str()))
    } else {
        Err(ReleaseError::TransformOutputs {
            logical_name: String::from_str(transform.logical_name.as_str()),
            field: String::from_str(field),
            found: copy_strings(&transform.output_names),
        })
    }
}

/// The output names of a product prepared for its release: its own pointer
/// file name, and the one rootfs and overlay image names the contract's
/// transforms declare.
pub fn canonical_prepared_output_names(
    rootfs_image: &ArtifactTransform,
    overlay_image: &ArtifactTransform,
    product: &BuildProduct,
) -> (r: Result<PreparedOutputNames, ReleaseError>)
    ensures
        single_output(*rootfs_image) is None ==> (r matches Err(e) && transform_error(*rootfs_image, "rootfs_image"@, e)),
        single_output(*rootfs_image) is Some && single_output(*overlay_image) is None
            ==> (r matches Err(e) && transform_error(*overlay_image, "overlay_image"@, e)),
        single_output(*rootfs_image) matches Some(a) ==> (single_output(*overlay_image) matches Some(b) ==> (r matches Ok(n)
            && n.rootfs_source_pointer_filename@ == product.rootfs_source_pointer_filename@
            && n.rootfs_erofs_filename@ == a && n.overlay_erofs_filename@ == b)),
{
    let rootfs = require_single_transform_output(rootfs_image, "rootfs_image")?;
    let overlay = require_single_transform_output(overlay_image, "overlay_image")?;
    Ok(PreparedOutputNames {
        rootfs_source_pointer_filename: String::from_str(product.rootfs_source_pointer_filename),
        rootfs_erofs_filename: rootfs,
        overlay_erofs_filename: overlay,
    })
}

/// The manifest a prepared product directory holds.
pub fn prepared_product_manifest_path(output_dir: &str) -> (r: String)
    ensures
        r@ == paths::join(output_dir@, ".prepared-product.json"@),
{
    path_join(output_dir, ".prepared-product.json")
}

/// A path of a prepared product, given relative to its directory.
pub fn resolve_prepared_product_path(prepared_dir: &str, relative: &str) -> (r: String)
    ensures
        r@ == paths::join(prepared_dir@, relative@),
{
    path_join(prepared_dir, relative)
}

/// A prepared path relative to the output directory it must lie under.
pub fn relative_prepared_product_path(output_dir: &str, path: &str) -> (r: Result<String, ReleaseError>)
    ensures
        match paths::strip_prefix(path@, output_dir@) {
            Some(rel) => r matches Ok(s) && s@ == rel,
            None => r matches Err(ReleaseError::NotUnderOutputDir { path: p, output_dir: o }) && p@ == path@
                && o@ == output_dir@,
        },
{
    match path_strip_prefix(path, output_dir) {
        Some(rel) => Ok(rel),
        None => Err(ReleaseError::NotUnderOutputDir {
            path: String::from_str(path),
            output_dir: String::from_str(output_dir),
        }),
    }
}

/// The kernel command line a product requires: the live-boot scenario's words
/// for the live products, nothing otherwise.
pub open spec fn required_cmdline(product: Seq<char>, live_boot_words: Seq<Seq<char>>) -> Seq<char> {
    if product == "live-boot"@ || product == "live-tools"@ {
        text::join_with(live_boot_words, " "@)
    } else {
        Seq::empty()
    }
}

/// The kernel command line a product requires of the release hook.
pub fn product_required_kernel_cmdline(product: &BuildProduct, live_boot_required: &Vec<String>) -> (r: String)
    ensures
        r@ == required_cmdline(product.canonical@, text::views(live_boot_required@)),
{
    if str_eq(product.canonical, "live-boot") || str_eq(product.canonical, "live-tools") {
        join_strings(live_boot_required, " ")
    } else {
        String::new()
    }
}


/// What the release hook of a distro variant is run with, as plain values
/// read from the distro's loaded contract and the build layout.
#[derive(Debug)]
pub struct VariantHookInputs {
    pub distro_id: String,
    pub os_name: String,
    pub os_id: String,
    pub os_version: String,
    pub iso_label: String,
    pub live_uki_output_names: Vec<String>,
    pub live_uki_extra_cmdline: Option<String>,
    pub initramfs_live: ArtifactTransform,
    pub rootfs_image: ArtifactTransform,
    pub overlay_image: ArtifactTransform,
    pub iso: ArtifactTransform,
    pub kernel_release_path: String,
    pub kernel_image_path: String,
    pub live_boot_required_kernel_cmdline: Vec<String>,
    pub kernel_output_dir: String,
    pub root_dir: String,
    pub output_dir: String,
    pub run_id: Option<String>,
    pub distro_builder_bin: String,
    /// The directory that holds the variant's release hook scripts.
    pub ring0_hooks_dir: String,
}

/// How to run the release hook: its script, the ISO it must produce, and its environment.
#[derive(Debug)]
pub struct ReleaseHookPlan {
    pub script_name: String,
    /// The hook script to run with `sh`.
    pub script_path: String,
    pub iso_filename: String,
    pub iso_path: String,
    pub env: Vec<(String, String)>,
}

/// Views of an environment.
pub open spec fn env_views(env: Seq<(String, String)>) -> Seq<(Seq<char>, Seq<char>)> {
    env.map_values(|p: (String, String)| (p.0@, p.1@))
}

/// The view of an optional string, empty when absent.
pub open spec fn or_empty(o: Option<String>) -> Seq<char> {
    match o {
        Some(s) => s@,
        None => Seq::empty(),
    }
}

/// Whether the contract declares every output the release hook needs.
pub open spec fn hook_outputs_declared(i: VariantHookInputs) -> bool {
    &&& i.live_uki_output_names@.len() == 3
    &&& single_output(i.initramfs_live) is Some
    &&& single_output(i.rootfs_image) is Some
    &&& single_output(i.overlay_image) is Some
    &&& single_output(i.iso) is Some
}

/// The ISO the hook must produce.
pub open spec fn hook_iso_name(i: VariantHookInputs, p: ProductView) -> Seq<char> {
    product_iso_name(single_output(i.iso).unwrap(), p)
}

/// The environment of the release hook, in the order it is set.
pub open spec fn variant_hook_env(i: VariantHookInputs, p: ProductView) -> Seq<(Seq<char>, Seq<char>)> {
    let iso_name = hook_iso_name(i, p);
    seq![
        ("DISTRO_ID"@, i.distro_id@),
        ("IDENTITY_OS_NAME"@, i.os_name@),
        ("IDENTITY_OS_ID"@, i.os_id@),
        ("IDENTITY_OS_VERSION"@, i.os_version@),
        ("IDENTITY_ISO_LABEL"@, i.iso_label@),
        ("LIVE_UKI_FILENAME"@, i.live_uki_output_names@[0]@),
        ("EMERGENCY_UKI_FILENAME"@, i.live_uki_output_names@[1]@),
        ("DEBUG_UKI_FILENAME"@, i.live_uki_output_names@[2]@),
        ("LIVE_UKI_CMDLINE"@, or_empty(i.live_uki_extra_cmdline)),
        ("KERNEL_RELEASE_PATH"@, paths::join(i.kernel_output_dir@, i.kernel_release_path@)),
        ("KERNEL_IMAGE_PATH"@, paths::join(i.kernel_output_dir@, i.kernel_image_path@)),
        ("ISO_PATH"@, paths::join(i.output_dir@, iso_name)),
        ("ISO_FILENAME"@, iso_name),
        ("PRODUCT_NAME"@, p.canonical),
        ("PRODUCT_DIRNAME"@, p.release_dir_name),
        ("PRODUCT_ARTIFACT_TAG"@, p.release_dir_name),
        ("PRODUCT_BOOT_LABEL"@, p.issue_banner_label),
        ("ROOTFS_FILENAME"@, single_output(i.rootfs_image).unwrap()),
        ("INITRAMFS_LIVE_FILENAME"@, single_output(i.initramfs_live).unwrap()),
        ("LIVE_OVERLAY_DIRNAME"@, p.live_overlay_dir_name),
        ("LIVE_OVERLAY_IMAGE_FILENAME"@, single_output(i.overlay_image).unwrap()),
        ("ROOTFS_SOURCE_POINTER_FILENAME"@, p.rootfs_source_pointer_filename),
        ("RELEASE_ROOT_DIR"@, i.root_dir@),
        ("RELEASE_RUN_DIR"@, i.output_dir@),
        ("RELEASE_OUTPUT_DIR"@, i.output_dir@),
        ("BUILD_RUN_ID"@, or_empty(i.run_id)),
        ("DISTRO_BUILDER_BIN"@, i.distro_builder_bin@),
        ("KERNEL_OUTPUT_DIR"@, i.kernel_output_dir@),
        ("PRODUCT_REQUIRED_KERNEL_CMDLINE"@, required_cmdline(p.canonical, text::views(i.live_boot_required_kernel_cmdline@))),
    ]
}

fn push_env(env: &mut Vec<(String, String)>, key: &str, value: &str)
    ensures
        env_views(final(env)@) == env_views(old(env)@).push((key@, value@)),
{
    env.push((String::from_str(key), String::from_str(value)));
    assert(env_views(env@) =~= env_views(old(env)@).push((key@, value@)));
}

fn opt_str(o: &Option<String>) -> (r: String)
    ensures
        r@ == or_empty(*o),
{
    match o {
        Some(s) => String::from_str(s.as_str()),
        None => String::new(),
    }
}

/// Plan the run of a variant's release hook for a release product: check that
/// the contract declares three live UKIs and one output for each of the
/// initramfs, rootfs, overlay and ISO transforms, that the product has a
/// release hook, and that its script `<ring0_hooks_dir>/<script>` is a file
/// (`native_build_is_file`); then name the hook script, the ISO it must
/// produce and the environment it runs with. The hook is run only on `Ok`.
pub fn ensure_release_iso_via_variant_hook(
    inputs: &VariantHookInputs,
    product: &BuildProduct,
    native_build_is_file: bool,
) -> (r: Result<ReleaseHookPlan, ReleaseError>)
    requires
        release_product_name(product.canonical@),
    ensures
        inputs.live_uki_output_names@.len() != 3 ==> (r matches Err(ReleaseError::UkiOutputs { distro_id: d, found })
            && d@ == inputs.distro_id@ && text::views(found@) == text::views(inputs.live_uki_output_names@)),
        inputs.live_uki_output_names@.len() == 3 && single_output(inputs.initramfs_live) is None ==> (r matches Err(e)
            && transform_error(inputs.initramfs_live, "initramfs_live"@, e)),
        inputs.live_uki_output_names@.len() == 3 && single_output(inputs.initramfs_live) is Some
            && single_output(inputs.rootfs_image) is None ==> (r matches Err(e) && transform_error(inputs.rootfs_image, "rootfs_image"@, e)),
        inputs.live_uki_output_names@.len() == 3 && single_output(inputs.initramfs_live) is Some
            && single_output(inputs.rootfs_image) is Some && single_output(inputs.overlay_image) is None
            ==> (r matches Err(e) && transform_error(inputs.overlay_image, "overlay_image"@, e)),
        inputs.live_uki_output_names@.len() == 3 && single_output(inputs.initramfs_live) is Some
            && single_output(inputs.rootfs_image) is Some && single_output(inputs.overlay_image) is Some
            && single_output(inputs.iso) is None ==> (r matches Err(e) && transform_error(inputs.iso, "iso"@, e)),
        hook_outputs_declared(*inputs) && product.release_hook_script_name is None
            ==> (r matches Err(ReleaseError::MissingReleaseHook { product: p }) && p@ == product.canonical@),
        hook_outputs_declared(*inputs) && product.release_hook_script_name is Some && !native_build_is_file
            ==> (r matches Err(ReleaseError::MissingVariantHook { product: p, distro_id: d, script_path: sp, script_name: sn, hooks_dir: hd })
            && p@ == product.canonical@ && d@ == inputs.distro_id@
            && sp@ == paths::join(inputs.ring0_hooks_dir@, product.release_hook_script_name.unwrap()@)
            && sn@ == product.release_hook_script_name.unwrap()@ && hd@ == inputs.ring0_hooks_dir@),
        hook_outputs_declared(*inputs) && product.release_hook_script_name is Some && native_build_is_file ==> (r matches Ok(plan)
            && plan.script_name@ == product.release_hook_script_name.unwrap()@
            && plan.script_path@ == paths::join(inputs.ring0_hooks_dir@, product.release_hook_script_name.unwrap()@)
            && plan.iso_filename@ == hook_iso_name(*inputs, product.view())
            && plan.iso_path@ == paths::join(inputs.output_dir@, hook_iso_name(*inputs, product.view()))
            && env_views(plan.env@) == variant_hook_env(*inputs, product.view())),
{
    if inputs.live_uki_output_names.len() != 3 {
        return Err(ReleaseError::UkiOutputs {
            distro_id: String::from_str(inputs.distro_id.as_str()),
            found: copy_strings(&inputs.live_uki_output_names),
        });
    }
    let initramfs_name = require_single_transform_output(&inputs.initramfs_live, "initramfs_live")?;
    let rootfs_name = require_single_transform_output(&inputs.rootfs_image, "rootfs_image")?;
    let overlay_name = require_single_transform_output(&inputs.overlay_image, "overlay_image")?;
    let base_iso = require_single_transform_output(&inputs.iso, "iso")?;
    let iso_filename = iso_filename_for_product(base_iso.as_str(), product);
    let iso_path = path_join(inputs.output_dir.as_str(), iso_filename.as_str());
    let script = match product.release_hook_script_name {
        Some(s) => s,
        None => {
            return Err(ReleaseError::MissingReleaseHook { product: String::from_str(product.canonical) });
        },
    };
    let script_path = path_join(inputs.ring0_hooks_dir.as_str(), script);
    if !native_build_is_file {
        return Err(ReleaseError::MissingVariantHook {
            product: String::from_str(product.canonical),
            distro_id: String::from_str(inputs.distro_id.as_str()),
            script_path,
            script_name: String::from_str(script),
            hooks_dir: String::from_str(inputs.ring0_hooks_dir.as_str()),
        });
    }
    let kernel_release = path_join(inputs.kernel_output_dir.as_str(), inputs.kernel_release_path.as_str());
    let kernel_image = path_join(inputs.kernel_output_dir.as_str(), inputs.kernel_image_path.as_str());
    let live_cmdline = opt_str(&inputs.live_uki_extra_cmdline);
    let run_id = opt_str(&inputs.run_id);
    let required = product_required_kernel_cmdline(product, &inputs.live_boot_required_kernel_cmdline);
    let mut env: Vec<(String, String)> = Vec::new();
    push_env(&mut env, "DISTRO_ID", inputs.distro_id.as_str());
    push_env(&mut env, "IDENTITY_OS_NAME", inputs.os_name.as_str());
    push_env(&mut env, "IDENTITY_OS_ID", inputs.os_id.as_str());
    push_env(&mut env, "IDENTITY_OS_VERSION", inputs.os_version.as_str());
    push_env(&mut env, "IDENTITY_ISO_LABEL", inputs.iso_label.as_str());
    push_env(&mut env, "LIVE_UKI_FILENAME", inputs.live_uki_output_names[0].as_str());
    push_env(&mut env, "EMERGENCY_UKI_FILENAME", inputs.live_uki_output_names[1].as_str());
    push_env(&mut env, "DEBUG_UKI_FILENAME", inputs.live_uki_output_names[2].as_str());
    push_env(&mut env, "LIVE_UKI_CMDLINE", live_cmdline.as_str());
    push_env(&mut env, "KERNEL_RELEASE_PATH", kernel_release.as_str());
    push_env(&mut env, "KERNEL_IMAGE_PATH", kernel_image.as_str());
    push_env(&mut env, "ISO_PATH", iso_path.as_str());
    push_env(&mut env, "ISO_FILENAME", iso_filename.as_str());
    push_env(&mut env, "PRODUCT_NAME", product.canonical);
    push_env(&mut env, "PRODUCT_DIRNAME", product.release_dir_name);
    push_env(&mut env, "PRODUCT_ARTIFACT_TAG", product.release_dir_name);
    push_env(&mut env, "PRODUCT_BOOT_LABEL", product.issue_banner_label);
    push_env(&mut env, "ROOTFS_FILENAME", rootfs_name.as_str());
    push_env(&mut env, "INITRAMFS_LIVE_FILENAME", initramfs_name.as_str());
    push_env(&mut env, "LIVE_OVERLAY_DIRNAME", product.live_overlay_dir_name);
    push_env(&mut env, "LIVE_OVERLAY_IMAGE_FILENAME", overlay_name.as_str());
    push_env(&mut env, "ROOTFS_SOURCE_POINTER_FILENAME", product.rootfs_source_pointer_filename);
    push_env(&mut env, "RELEASE_ROOT_DIR", inputs.root_dir.as_str());
    push_env(&mut env, "RELEASE_RUN_DIR", inputs.output_dir.as_str());
    push_env(&mut env, "RELEASE_OUTPUT_DIR", inputs.output_dir.as_str());
    push_env(&mut env, "BUILD_RUN_ID", run_id.as_str());
    push_env(&mut env, "DISTRO_BUILDER_BIN", inputs.distro_builder_bin.as_str());
    push_env(&mut env, "KERNEL_OUTPUT_DIR", inputs.kernel_output_dir.as_str());
    push_env(&mut env, "PRODUCT_REQUIRED_KERNEL_CMDLINE", required.as_str());
    assert(env_views(env@) =~= variant_hook_env(*inputs, product.view()));
    Ok(ReleaseHookPlan {
        script_name: String::from_str(script),
        script_path,
        iso_filename,
        iso_path,
        env,
    })
}

/// What the compatibility build hook of a variant is run with, as plain
/// values read from the distro's loaded contract, the build stage and the
/// build layout.
#[derive(Debug)]
pub struct CompatHookInputs {
    pub distro_id: String,
    pub os_name: String,
    pub os_id: String,
    pub os_version: String,
    pub iso_label: String,
    pub live_uki_filename: String,
    pub emergency_uki_filename: String,
    pub debug_uki_filename: String,
    pub live_cmdline: String,
    pub kernel_release_path: String,
    pub kernel_image_path: String,
    /// The ISO file name the contract declares for the base product.
    pub base_iso_filename: String,
    pub rootfs_erofs_filename: String,
    pub initramfs_live_filename: String,
    pub overlay_erofs_filename: String,
    /// The directory name of the compatibility stage.
    pub stage_dir_name: String,
    /// The stage's build script, relative to the variant directory.
    pub native_build_script: String,
    pub variant_dir: String,
    pub live_boot_required_kernel_cmdline: Vec<String>,
    pub kernel_output_dir: String,
    pub root_dir: String,
    pub output_dir: String,
    pub run_id: Option<String>,
    pub distro_builder_bin: String,
}

/// How to run the compatibility build hook: its script, the ISO it must
/// produce, and its environment.
#[derive(Debug)]
pub struct CompatHookPlan {
    pub script_path: String,
    pub iso_filename: String,
    pub iso_path: String,
    pub env: Vec<(String, String)>,
}

/// The kernel command line a compatibility stage requires: the live-boot
/// scenario's words for the boot and live-tools stages, nothing otherwise.
pub open spec fn stage_cmdline(slug: Seq<char>, live_boot_words: Seq<Seq<char>>) -> Seq<char> {
    if slug == "s01_boot"@ || slug == "s02_live_tools"@ {
        text::join_with(live_boot_words, " "@)
    } else {
        Seq::empty()
    }
}

/// The kernel command line a compatibility stage requires of its hook.
pub fn stage_required_kernel_cmdline(stage: &CompatibilityBuildStage, live_boot_required: &Vec<String>) -> (r: String)
    ensures
        r@ == stage_cmdline(stage.slug@, text::views(live_boot_required@)),
{
    if str_eq(stage.slug, "s01_boot") || str_eq(stage.slug, "s02_live_tools") {
        crate::text::join_strings(live_boot_required, " ")
    } else {
        String::new()
    }
}

/// The ISO the compatibility hook must produce.
pub open spec fn compat_iso_name(i: CompatHookInputs, p: ProductView) -> Seq<char> {
    product_iso_name(i.base_iso_filename@, p)
}

/// The environment of the compatibility hook, in the order it is set.
pub open spec fn compat_hook_env(i: CompatHookInputs, st: CompatibilityBuildStage, p: ProductView) -> Seq<(Seq<char>, Seq<char>)> {
    let iso_name = compat_iso_name(i, p);
    seq![
        ("DISTRO_ID"@, i.distro_id@),
        ("IDENTITY_OS_NAME"@, i.os_name@),
        ("IDENTITY_OS_ID"@, i.os_id@),
        ("IDENTITY_OS_VERSION"@, i.os_version@),
        ("IDENTITY_ISO_LABEL"@, i.iso_label@),
        ("S00_LIVE_UKI_FILENAME"@, i.live_uki_filename@),
        ("S00_EMERGENCY_UKI_FILENAME"@, i.emergency_uki_filename@),
        ("S00_DEBUG_UKI_FILENAME"@, i.debug_uki_filename@),
        ("S00_LIVE_CMDLINE"@, i.live_cmdline@),
        ("KERNEL_RELEASE_PATH"@, paths::join(i.kernel_output_dir@, i.kernel_release_path@)),
        ("KERNEL_IMAGE_PATH"@, paths::join(i.kernel_output_dir@, i.kernel_image_path@)),
        ("ISO_PATH"@, paths::join(i.output_dir@, iso_name)),
        ("ISO_FILENAME"@, iso_name),
        ("PRODUCT_NAME"@, p.canonical),
        ("BUILD_TARGET_LABEL"@, p.issue_banner_label),
        ("ROOTFS_FILENAME"@, i.rootfs_erofs_filename@),
        ("INITRAMFS_LIVE_FILENAME"@, i.initramfs_live_filename@),
        ("LIVE_OVERLAY_DIRNAME"@, p.live_overlay_dir_name),
        ("LIVE_OVERLAY_IMAGE_FILENAME"@, i.overlay_erofs_filename@),
        ("ROOTFS_SOURCE_POINTER_FILENAME"@, p.rootfs_source_pointer_filename),
        ("RUN_ROOT_DIR"@, i.root_dir@),
        ("RUN_OUTPUT_DIR"@, i.output_dir@),
        ("RUN_OUTPUT_ROOT"@, i.output_dir@),
        ("BUILD_RUN_ID"@, or_empty(i.run_id)),
        ("DISTRO_BUILDER_BIN"@, i.distro_builder_bin@),
        ("KERNEL_OUTPUT_DIR"@, i.kernel_output_dir@),
        ("COMPAT_BUILD_STAGE_NAME"@, st.canonical@),
        ("COMPAT_BUILD_STAGE_SLUG"@, st.slug@),
        ("COMPAT_BUILD_STAGE_DIRNAME"@, i.stage_dir_name@),
        ("COMPAT_STAGE_ARTIFACT_TAG"@, st.artifact_tag@),
        ("COMPAT_STAGE_REQUIRED_KERNEL_CMDLINE"@, stage_cmdline(st.slug@, text::views(i.live_boot_required_kernel_cmdline@))),
    ]
}

/// Plan the run of a variant's compatibility build hook for a release
/// product: the hook script `<variant_dir>/<native_build_script>` must be a
/// file; then name the ISO it must produce and the environment it runs with.
pub fn ensure_release_iso_via_compatibility_hook(
    inputs: &CompatHookInputs,
    stage: &CompatibilityBuildStage,
    product: &BuildProduct,
    native_build_is_file: bool,
) -> (r: Result<CompatHookPlan, ReleaseError>)
    requires
        release_product_name(product.canonical@),
    ensures
        !native_build_is_file ==> (r matches Err(ReleaseError::MissingCompatHook { product: p, distro_id: d, script_path: sp, script_name: sn, variant_dir: vd })
            && p@ == product.canonical@ && d@ == inputs.distro_id@
            && sp@ == paths::join(inputs.variant_dir@, inputs.native_build_script@)
            && sn@ == inputs.native_build_script@ && vd@ == inputs.variant_dir@),
        native_build_is_file ==> (r matches Ok(plan)
            && plan.script_path@ == paths::join(inputs.variant_dir@, inputs.native_build_script@)
            && plan.iso_filename@ == compat_iso_name(*inputs, product.view())
            && plan.iso_path@ == paths::join(inputs.output_dir@, compat_iso_name(*inputs, product.view()))
            && env_views(plan.env@) == compat_hook_env(*inputs, *stage, product.view())),
{
    let iso_filename = iso_filename_for_product(inputs.base_iso_filename.as_str(), product);
    let iso_path = path_join(inputs.output_dir.as_str(), iso_filename.as_str());
    let script_path = path_join(inputs.variant_dir.as_str(), inputs.native_build_script.as_str());
    if !native_build_is_file {
        return Err(ReleaseError::MissingCompatHook {
            product: String::from_str(product.canonical),
            distro_id: String::from_str(inputs.distro_id.as_str()),
            script_path,
            script_name: String::from_str(inputs.native_build_script.as_str()),
            variant_dir: String::from_str(inputs.variant_dir.as_str()),
        });
    }
    let kernel_release = path_join(inputs.kernel_output_dir.as_str(), inputs.kernel_release_path.as_str());
    let kernel_image = path_join(inputs.kernel_output_dir.as_str(), inputs.kernel_image_path.as_str());
    let run_id = opt_str(&inputs.run_id);
    let required = stage_required_kernel_cmdline(stage, &inputs.live_boot_required_kernel_cmdline);
    let mut env: Vec<(String, String)> = Vec::new();
    push_env(&mut env, "DISTRO_ID", inputs.distro_id.as_str());
    push_env(&mut env, "IDENTITY_OS_NAME", inputs.os_name.as_str());
    push_env(&mut env, "IDENTITY_OS_ID", inputs.os_id.as_str());
    push_env(&mut env, "IDENTITY_OS_VERSION", inputs.os_version.as_str());
    push_env(&mut env, "IDENTITY_ISO_LABEL", inputs.iso_label.as_str());
    push_env(&mut env, "S00_LIVE_UKI_FILENAME", inputs.live_uki_filename.as_str());
    push_env(&mut env, "S00_EMERGENCY_UKI_FILENAME", inputs.emergency_uki_filename.as_str());
    push_env(&mut env, "S00_DEBUG_UKI_FILENAME", inputs.debug_uki_filename.as_str());
    push_env(&mut env, "S00_LIVE_CMDLINE", inputs.live_cmdline.as_str());
    push_env(&mut env, "KERNEL_RELEASE_PATH", kernel_release.as_str());
    push_env(&mut env, "KERNEL_IMAGE_PATH", kernel_image.as_str());
    push_env(&mut env, "ISO_PATH", iso_path.as_str());
    push_env(&mut env, "ISO_FILENAME", iso_filename.as_str());
    push_env(&mut env, "PRODUCT_NAME", product.canonical);
    push_env(&mut env, "BUILD_TARGET_LABEL", product.issue_banner_label);
    push_env(&mut env, "ROOTFS_FILENAME", inputs.rootfs_erofs_filename.as_str());
    push_env(&mut env, "INITRAMFS_LIVE_FILENAME", inputs.initramfs_live_filename.as_str());
    push_env(&mut env, "LIVE_OVERLAY_DIRNAME", product.live_overlay_dir_name);
    push_env(&mut env, "LIVE_OVERLAY_IMAGE_FILENAME", inputs.overlay_erofs_filename.as_str());
    push_env(&mut env, "ROOTFS_SOURCE_POINTER_FILENAME", product.rootfs_source_pointer_filename);
    push_env(&mut env, "RUN_ROOT_DIR", inputs.root_dir.as_str());
    push_env(&mut env, "RUN_OUTPUT_DIR", inputs.output_dir.as_str());
    push_env(&mut env, "RUN_OUTPUT_ROOT", inputs.output_dir.as_str());
    push_env(&mut env, "BUILD_RUN_ID", run_id.as_str());
    push_env(&mut env, "DISTRO_BUILDER_BIN", inputs.distro_builder_bin.as_str());
    push_env(&mut env, "KERNEL_OUTPUT_DIR", inputs.kernel_output_dir.as_str());
    push_env(&mut env, "COMPAT_BUILD_STAGE_NAME", stage.canonical);
    push_env(&mut env, "COMPAT_BUILD_STAGE_SLUG", stage.slug);
    push_env(&mut env, "COMPAT_BUILD_STAGE_DIRNAME", inputs.stage_dir_name.as_str());
    push_env(&mut env, "COMPAT_STAGE_ARTIFACT_TAG", stage.artifact_tag);
    push_env(&mut env, "COMPAT_STAGE_REQUIRED_KERNEL_CMDLINE", required.as_str());
    assert(env_views(env@) =~= compat_hook_env(*inputs, *stage, product.view()));
    Ok(CompatHookPlan { script_path, iso_filename, iso_path, env })
}

/// The verdict on a finished release hook: it must succeed and leave the ISO behind.
pub fn release_hook_outcome(distro_id: &str, iso_path: &str, hook_succeeded: bool, iso_exists: bool) -> (r: Result<(), ReleaseError>)
    ensures
        !hook_succeeded ==> (r matches Err(ReleaseError::HookFailed { distro_id: d }) && d@ == distro_id@),
        hook_succeeded && !iso_exists ==> (r matches Err(ReleaseError::IsoMissing { distro_id: d, iso_path: p })
            && d@ == distro_id@ && p@ == iso_path@),
        hook_succeeded && iso_exists ==> r is Ok,
{
    if !hook_succeeded {
        return Err(ReleaseError::HookFailed { distro_id: String::from_str(distro_id) });
    }
    if !iso_exists {
        return Err(ReleaseError::IsoMissing { distro_id: String::from_str(distro_id), iso_path: String::from_str(iso_path) });
    }
    Ok(())
}


/// What a release run records about itself.
#[derive(Debug)]
pub struct BuildRunMetadata {
    pub run_id: String,
    pub distro_id: String,
    pub target_kind: String,
    pub target_name: String,
    pub status: String,
    pub created_at_utc: String,
    pub finished_at_utc: Option<String>,
    pub root_dir: String,
    pub output_dir: String,
    pub iso_path: String,
}

/// The record of a release run: `building` while it runs (no finish time),
/// then `success` or `failed` with the time it finished.
pub fn build_run_metadata(
    run_id: &str,
    distro_id: &str,
    product: &BuildProduct,
    created_at_utc: &str,
    finished: Option<(bool, &str)>,
    root_dir: &str,
    output_dir: &str,
    iso_path: &str,
) -> (r: BuildRunMetadata)
    ensures
        r.run_id@ == run_id@,
        r.distro_id@ == distro_id@,
        r.target_kind@ == "release-product"@,
        r.target_name@ == product.canonical@,
        r.created_at_utc@ == created_at_utc@,
        r.root_dir@ == root_dir@,
        r.output_dir@ == output_dir@,
        r.iso_path@ == iso_path@,
        match finished {
            None => r.status@ == "building"@ && r.finished_at_utc is None,
            Some((ok, at)) => r.status@ == (if ok { "success"@ } else { "failed"@ })
                && (r.finished_at_utc matches Some(f) && f@ == at@),
        },
{
    let (status, finished_at_utc) = match finished {
        None => (String::from_str("building"), None),
        Some((ok, at)) => (if ok { String::from_str("success") } else { String::from_str("failed") }, Some(String::from_str(at))),
    };
    BuildRunMetadata {
        run_id: String::from_str(run_id),
        distro_id: String::from_str(distro_id),
        target_kind: String::from_str("release-product"),
        target_name: String::from_str(product.canonical),
        status,
        created_at_utc: String::from_str(created_at_utc),
        finished_at_utc,
        root_dir: String::from_str(root_dir),
        output_dir: String::from_str(output_dir),
        iso_path: String::from_str(iso_path),
    }
}

/// What ends a release run: a failure to record the finished run fails a
/// build that succeeded (and is only reported for one that failed), and old
/// runs are pruned only after a success that was recorded.
pub fn release_run_finish(build_succeeded: bool, record_written: bool) -> (r: (bool, bool))
    ensures
        r.0 == (build_succeeded && !record_written),
        r.1 == (build_succeeded && record_written),
{
    (build_succeeded && !record_written, build_succeeded && record_written)
}

/// Both live products require the live-boot scenario's kernel command line,
/// and every other product requires none. The command line is the words
/// separated by single spaces: nothing for no words, the word itself for one,
/// and one more word adds a space and that word.
pub proof fn law_live_products_require_live_boot_cmdline(p: Seq<char>, w: Seq<Seq<char>>, a: Seq<char>, b: Seq<char>)
    ensures
        required_cmdline("live-tools"@, w) == required_cmdline("live-boot"@, w),
        required_cmdline("live-boot"@, seq![]) == Seq::<char>::empty(),
        required_cmdline("live-boot"@, seq![a]) == a,
        required_cmdline("live-boot"@, seq![a, b]) == a + " "@ + b,
        required_cmdline("live-tools"@, seq![a, b]) == a + " "@ + b,
        w.len() > 0 ==> required_cmdline("live-tools"@, w.push(a)) == required_cmdline("live-tools"@, w) + " "@ + a,
        w.len() > 0 ==> required_cmdline("live-boot"@, w.push(a)) == required_cmdline("live-boot"@, w) + " "@ + a,
        p != "live-boot"@ && p != "live-tools"@ ==> required_cmdline(p, w) == Seq::<char>::empty(),
{
    reveal_strlit("live-boot");
    reveal_strlit("live-tools");
    assert(seq![a, b].drop_last() =~= seq![a]);
    assert(w.push(a).drop_last() =~= w);
}

/// The boot and live-tools compatibility stages require the live-boot
/// scenario's kernel command line, and the build stage requires none. The
/// command line is the words separated by single spaces: nothing for no
/// words, the word itself for one, and one more word adds a space and that
/// word.
pub proof fn law_live_stages_require_live_boot_cmdline(w: Seq<Seq<char>>, a: Seq<char>, b: Seq<char>)
    ensures
        stage_cmdline("s02_live_tools"@, w) == stage_cmdline("s01_boot"@, w),
        stage_cmdline("s00_build"@, w) == Seq::<char>::empty(),
        stage_cmdline("s01_boot"@, seq![]) == Seq::<char>::empty(),
        stage_cmdline("s01_boot"@, seq![a]) == a,
        stage_cmdline("s01_boot"@, seq![a, b]) == a + " "@ + b,
        stage_cmdline("s02_live_tools"@, seq![a, b]) == a + " "@ + b,
        w.len() > 0 ==> stage_cmdline("s02_live_tools"@, w.push(a)) == stage_cmdline("s02_live_tools"@, w) + " "@ + a,
        w.len() > 0 ==> stage_cmdline("s01_boot"@, w.push(a)) == stage_cmdline("s01_boot"@, w) + " "@ + a,
{
    reveal_strlit("s00_build");
    reveal_strlit("s01_boot");
    reveal_strlit("s02_live_tools");
    assert("s00_build"@[2] != "s01_boot"@[2]);
    assert("s00_build"@.len() != "s02_live_tools"@.len());
    assert(seq![a, b].drop_last() =~= seq![a]);
    assert(w.push(a).drop_last() =~= w);
}

} // verus!
