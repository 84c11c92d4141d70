//! How products are laid out when their inputs are prepared: the base and
//! derived layouts, the stage layouts kept for the stage commands, and the
//! checks of a prepared product directory.

use vstd::prelude::*;
use crate::cli;
use crate::cli::{product_for_logical_name, BuildProduct, CliError};
use crate::paths;
use crate::paths::{path_join, path_parent};
use crate::release;
use crate::release::{require_single_transform_output, ArtifactTransform, ReleaseError};
use crate::text::{append_str, str_eq};

verus! {

/// The layout of a base product: where its rootfs source goes and the name
/// of its live overlay directory.
#[derive(Debug)]
pub struct BaseProductLayout {
    pub rootfs_source_dir: String,
    pub live_overlay_dir_name: String,
}

/// The parent product whose rootfs a derived product starts from.
#[derive(Debug)]
pub struct ParentRootfsInput {
    pub release_dir_name: String,
    pub producer_label: String,
    pub rootfs_filename: String,
}

/// The live overlay of a derived product.
#[derive(Debug)]
pub struct OverlayLayout {
    pub issue_banner_label: String,
    pub dir_name: String,
}

/// The layout of a product derived from another product's rootfs.
#[derive(Debug)]
pub struct DerivedProductLayout {
    pub rootfs_source_dir: String,
    pub parent_rootfs: ParentRootfsInput,
    pub live_overlay: OverlayLayout,
}

/// The layout of the `00Build` stage.
pub fn s00_build_layout() -> (r: BaseProductLayout)
    ensures
        r.rootfs_source_dir@ == "s00-rootfs-source"@,
        r.live_overlay_dir_name@ == "s00-live-overlay"@,
{
    BaseProductLayout {
        rootfs_source_dir: String::from_str("s00-rootfs-source"),
        live_overlay_dir_name: String::from_str("s00-live-overlay"),
    }
}

fn derived_layout(source: &str, parent: &str, label: &str, overlay: &str) -> (r: DerivedProductLayout)
    ensures
        r.rootfs_source_dir@ == source@,
        r.parent_rootfs.release_dir_name@ == parent@,
        r.parent_rootfs.producer_label@ == parent@,
        r.parent_rootfs.rootfs_filename@ == "filesystem.erofs"@,
        r.live_overlay.issue_banner_label@ == label@,
        r.live_overlay.dir_name@ == overlay@,
{
    DerivedProductLayout {
        rootfs_source_dir: String::from_str(source),
        parent_rootfs: ParentRootfsInput {
            release_dir_name: String::from_str(parent),
            producer_label: String::from_str(parent),
            rootfs_filename: String::from_str("filesystem.erofs"),
        },
        live_overlay: OverlayLayout { issue_banner_label: String::from_str(label), dir_name: String::from_str(overlay) },
    }
}

/// The layout of the `01Boot` stage: derived from `base-rootfs`.
pub fn s01_boot_layout() -> (r: DerivedProductLayout)
    ensures
        r.rootfs_source_dir@ == "s01-rootfs-source"@,
        r.parent_rootfs.release_dir_name@ == "base-rootfs"@,
        r.parent_rootfs.producer_label@ == "base-rootfs"@,
        r.parent_rootfs.rootfs_filename@ == "filesystem.erofs"@,
        r.live_overlay.issue_banner_label@ == "S01 Boot"@,
        r.live_overlay.dir_name@ == "s01-live-overlay"@,
{
    derived_layout("s01-rootfs-source", "base-rootfs", "S01 Boot", "s01-live-overlay")
}

/// The layout of the `02LiveTools` stage: derived from `live-boot`.
pub fn s02_live_tools_layout() -> (r: DerivedProductLayout)
    ensures
        r.rootfs_source_dir@ == "s02-rootfs-source"@,
        r.parent_rootfs.release_dir_name@ == "live-boot"@,
        r.parent_rootfs.producer_label@ == "live-boot"@,
        r.parent_rootfs.rootfs_filename@ == "filesystem.erofs"@,
        r.live_overlay.issue_banner_label@ == "S02 Live Tools"@,
        r.live_overlay.dir_name@ == "s02-live-overlay"@,
{
    derived_layout("s02-rootfs-source", "live-boot", "S02 Live Tools", "s02-live-overlay")
}

/// The layout of a base product: `rootfs-source` and the product's overlay name.
pub fn canonical_base_product_layout(product: &BuildProduct) -> (r: BaseProductLayout)
    ensures
        r.rootfs_source_dir@ == "rootfs-source"@,
        r.live_overlay_dir_name@ == product.live_overlay_dir_name@,
{
    BaseProductLayout {
        rootfs_source_dir: String::from_str("rootfs-source"),
        live_overlay_dir_name: String::from_str(product.live_overlay_dir_name),
    }
}

/// A product declaration of the distro contract: its logical name and the
/// logical name of the product it extends.
#[derive(Debug)]
pub struct ProductDecl {
    pub logical_name: String,
    pub extends: Option<String>,
}

/// Why the layout of a product could not be made.
#[derive(Debug, PartialEq, Eq)]
pub enum LayoutError {
    /// The contract does not declare the installed boot product.
    MissingInstalledBootDecl,
    /// A derived product does not say what it extends.
    MissingExtends { product: String, logical_name: String },
    /// The product it extends is unknown.
    Parent(CliError),
    /// The rootfs transform does not declare exactly one output.
    Transform(ReleaseError),
    /// A prepared directory lacks its live overlay or rootfs source.
    PreparedDirMissing { message: String },
    /// The rootfs source of a distro has no preseedable recipe.
    NotPreseedable { distro_id: String, sources_file: String },
}

/// Whether a product is derived from another: every product but `base-rootfs`.
pub open spec fn derived_product(name: Seq<char>) -> bool {
    name == "live-boot"@ || name == "live-tools"@ || name == "installed-boot"@
}

/// The declaration of a derived product in the contract: live boot, live
/// tools, or the installed boot product, which the contract may lack.
pub fn runtime_product_decl<'a>(
    product: &BuildProduct,
    boot_live: &'a ProductDecl,
    live_tools: &'a ProductDecl,
    boot_installed: Option<&'a ProductDecl>,
) -> (r: Result<&'a ProductDecl, LayoutError>)
    requires
        derived_product(product.canonical@),
    ensures
        product.canonical@ == "live-boot"@ ==> r == Ok::<&ProductDecl, LayoutError>(boot_live),
        product.canonical@ == "live-tools"@ ==> r == Ok::<&ProductDecl, LayoutError>(live_tools),
        product.canonical@ == "installed-boot"@ ==> match boot_installed {
            Some(d) => r == Ok::<&ProductDecl, LayoutError>(d),
            None => r matches Err(LayoutError::MissingInstalledBootDecl),
        },
{
    proof {
        cli::lemma_product_names_distinct();
    }
    if str_eq(product.canonical, "live-boot") {
        Ok(boot_live)
    } else if str_eq(product.canonical, "live-tools") {
        Ok(live_tools)
    } else {
        match boot_installed {
            Some(d) => Ok(d),
            None => Err(LayoutError::MissingInstalledBootDecl),
        }
    }
}

/// What the layout of a derived product is, or why it cannot be made: its
/// declaration must say what it extends, that must be a known product, and the
/// rootfs transform must declare one output.
pub open spec fn derived_layout_result(
    product: BuildProduct,
    decl: ProductDecl,
    rootfs_image: ArtifactTransform,
    r: Result<DerivedProductLayout, LayoutError>,
) -> bool {
    &&& decl.extends is None ==> (r matches Err(LayoutError::MissingExtends { product: p, logical_name: l })
        && p@ == product.canonical@ && l@ == decl.logical_name@)
    &&& decl.extends matches Some(e) ==> {
        &&& cli::logical_product_name(e@) is None ==> (r matches Err(LayoutError::Parent(CliError::UnsupportedLogicalName { value: v }))
            && v@ == e@)
        &&& cli::logical_product_name(e@) matches Some(pn) ==> {
            &&& release::single_output(rootfs_image) is None ==> (r matches Err(LayoutError::Transform(ReleaseError::TransformOutputs { logical_name: ln, field: fd, found }))
                && ln@ == rootfs_image.logical_name@ && fd@ == "rootfs_image"@
                && crate::text::views(found@) == crate::text::views(rootfs_image.output_names@))
            &&& release::single_output(rootfs_image) matches Some(f) ==> (r matches Ok(l)
                && l.rootfs_source_dir@ == "rootfs-source"@
                && (match cli::product_named(pn) {
                    Some(pv) => l.parent_rootfs.release_dir_name@ == pv.release_dir_name
                        && l.parent_rootfs.producer_label@ == pv.canonical,
                    None => false,
                })
                && l.parent_rootfs.rootfs_filename@ == f
                && l.live_overlay.issue_banner_label@ == product.issue_banner_label@
                && l.live_overlay.dir_name@ == product.live_overlay_dir_name@)
        }
    }
}

/// The layout of a derived product: its rootfs starts from the product its
/// declaration extends, whose rootfs image name the contract's rootfs transform gives.
pub fn canonical_derived_product_layout(
    product: &BuildProduct,
    decl: &ProductDecl,
    rootfs_image: &ArtifactTransform,
) -> (r: Result<DerivedProductLayout, LayoutError>)
    ensures
        derived_layout_result(*product, *decl, *rootfs_image, r),
{
    let parent_name = match &decl.extends {
        Some(e) => e,
        None => {
            return Err(LayoutError::MissingExtends {
                product: String::from_str(product.canonical),
                logical_name: String::from_str(decl.logical_name.as_str()),
            });
        },
    };
    let parent = match product_for_logical_name(parent_name.as_str()) {
        Ok(p) => p,
        Err(e) => {
            return Err(LayoutError::Parent(e));
        },
    };
    let rootfs_filename = match require_single_transform_output(rootfs_image, "rootfs_image") {
        Ok(f) => f,
        Err(e) => {
            return Err(LayoutError::Transform(e));
        },
    };
    Ok(DerivedProductLayout {
        rootfs_source_dir: String::from_str("rootfs-source"),
        parent_rootfs: ParentRootfsInput {
            release_dir_name: String::from_str(parent.release_dir_name),
            producer_label: String::from_str(parent.canonical),
            rootfs_filename,
        },
        live_overlay: OverlayLayout {
            issue_banner_label: String::from_str(product.issue_banner_label),
            dir_name: String::from_str(product.live_overlay_dir_name),
        },
    })
}

/// How the inputs of a product are prepared: which loader runs, with which layout.
#[derive(Debug)]
pub enum ProductPreparation {
    BaseRootfs { base_layout: BaseProductLayout },
    LiveBoot { layout: DerivedProductLayout },
    LiveTools { layout: DerivedProductLayout },
    InstalledBoot { layout: DerivedProductLayout },
}

/// The preparation of a product's inputs: `base-rootfs` takes the base layout,
/// the others the layout derived from their declaration.
pub fn prepare_product_inputs(
    product: &BuildProduct,
    boot_live: &ProductDecl,
    live_tools: &ProductDecl,
    boot_installed: Option<&ProductDecl>,
    rootfs_image: &ArtifactTransform,
) -> (r: Result<ProductPreparation, LayoutError>)
    requires
        product.canonical@ == "base-rootfs"@ || derived_product(product.canonical@),
    ensures
        product.canonical@ == "base-rootfs"@ ==> (r matches Ok(ProductPreparation::BaseRootfs { base_layout: layout })
            && layout.rootfs_source_dir@ == "rootfs-source"@ && layout.live_overlay_dir_name@ == product.live_overlay_dir_name@),
        product.canonical@ == "live-boot"@ ==> match r {
            Ok(ProductPreparation::LiveBoot { layout }) => derived_layout_result(*product, *boot_live, *rootfs_image, Ok(layout)),
            Ok(_) => false,
            Err(e) => derived_layout_result(*product, *boot_live, *rootfs_image, Err(e)),
        },
        product.canonical@ == "live-tools"@ ==> match r {
            Ok(ProductPreparation::LiveTools { layout }) => derived_layout_result(*product, *live_tools, *rootfs_image, Ok(layout)),
            Ok(_) => false,
            Err(e) => derived_layout_result(*product, *live_tools, *rootfs_image, Err(e)),
        },
        product.canonical@ == "installed-boot"@ ==> match boot_installed {
            None => r matches Err(LayoutError::MissingInstalledBootDecl),
            Some(d) => match r {
                Ok(ProductPreparation::InstalledBoot { layout }) => derived_layout_result(*product, *d, *rootfs_image, Ok(layout)),
                Ok(_) => false,
                Err(e) => derived_layout_result(*product, *d, *rootfs_image, Err(e)),
            },
        },
{
    proof {
        cli::lemma_product_names_distinct();
    }
    if str_eq(product.canonical, "base-rootfs") {
        return Ok(ProductPreparation::BaseRootfs { base_layout: canonical_base_product_layout(product) });
    }
    let decl = runtime_product_decl(product, boot_live, live_tools, boot_installed)?;
    let layout = match canonical_derived_product_layout(product, decl, rootfs_image) {
        Ok(l) => l,
        Err(e) => {
            return Err(e);
        },
    };
    if str_eq(product.canonical, "live-boot") {
        Ok(ProductPreparation::LiveBoot { layout })
    } else if str_eq(product.canonical, "live-tools") {
        Ok(ProductPreparation::LiveTools { layout })
    } else {
        Ok(ProductPreparation::InstalledBoot { layout })
    }
}

/// How a release product's inputs are prepared for the compatibility stages:
/// the stage whose loader runs and the stage layout it takes.
#[derive(Debug)]
pub enum CompatPreparation {
    S00Build { base_layout: BaseProductLayout },
    S01Boot { layout: DerivedProductLayout },
    S02LiveTools { layout: DerivedProductLayout },
}

/// The compatibility preparation of a release product: `base-rootfs` is
/// prepared as the `00Build` stage, `live-boot` as `01Boot` and `live-tools`
/// as `02LiveTools`, each with its stage layout.
pub fn prepare_compatibility_product_inputs(product: &BuildProduct) -> (r: CompatPreparation)
    requires
        release::release_product_name(product.canonical@),
    ensures
        product.canonical@ == "base-rootfs"@ ==> (r matches CompatPreparation::S00Build { base_layout }
            && base_layout.rootfs_source_dir@ == "s00-rootfs-source"@ && base_layout.live_overlay_dir_name@ == "s00-live-overlay"@),
        product.canonical@ == "live-boot"@ ==> (r matches CompatPreparation::S01Boot { layout }
            && layout.rootfs_source_dir@ == "s01-rootfs-source"@
            && layout.parent_rootfs.release_dir_name@ == "base-rootfs"@
            && layout.parent_rootfs.producer_label@ == "base-rootfs"@
            && layout.parent_rootfs.rootfs_filename@ == "filesystem.erofs"@
            && layout.live_overlay.issue_banner_label@ == "S01 Boot"@
            && layout.live_overlay.dir_name@ == "s01-live-overlay"@),
        product.canonical@ == "live-tools"@ ==> (r matches CompatPreparation::S02LiveTools { layout }
            && layout.rootfs_source_dir@ == "s02-rootfs-source"@
            && layout.parent_rootfs.release_dir_name@ == "live-boot"@
            && layout.parent_rootfs.producer_label@ == "live-boot"@
            && layout.parent_rootfs.rootfs_filename@ == "filesystem.erofs"@
            && layout.live_overlay.issue_banner_label@ == "S02 Live Tools"@
            && layout.live_overlay.dir_name@ == "s02-live-overlay"@),
{
    proof {
        cli::lemma_product_names_distinct();
    }
    if str_eq(product.canonical, "base-rootfs") {
        CompatPreparation::S00Build { base_layout: s00_build_layout() }
    } else if str_eq(product.canonical, "live-boot") {
        CompatPreparation::S01Boot { layout: s01_boot_layout() }
    } else {
        CompatPreparation::S02LiveTools { layout: s02_live_tools_layout() }
    }
}

/// What a prepared product directory records about itself.
#[derive(Debug)]
pub struct PreparedProductManifest {
    pub product: String,
    pub distro_id: String,
    pub rootfs_source_dir: String,
    pub live_overlay_dir: String,
    pub rootfs_source_pointer_filename: String,
    pub rootfs_erofs_filename: String,
    pub overlay_erofs_filename: String,
}

/// What preparing a product leaves in its output directory: the file that
/// points at the rootfs source, with its content, and the manifest.
#[derive(Debug)]
pub struct PreparedOutputs {
    pub source_pointer_path: String,
    pub source_pointer_content: String,
    pub manifest: PreparedProductManifest,
}

/// The outputs of a prepared product: the rootfs source directory, followed
/// by a newline, in the pointer file the output names give; and a manifest
/// with both prepared directories relative to the output directory, which
/// they must lie under.
pub fn write_prepared_product_outputs(
    output_dir: &str,
    product: &BuildProduct,
    distro_id: &str,
    rootfs_source_dir: &str,
    live_overlay_dir: &str,
    names: &release::PreparedOutputNames,
) -> (r: Result<PreparedOutputs, ReleaseError>)
    ensures
        paths::strip_prefix(rootfs_source_dir@, output_dir@) is None ==> (r matches Err(ReleaseError::NotUnderOutputDir { path: p, output_dir: o })
            && p@ == rootfs_source_dir@ && o@ == output_dir@),
        paths::strip_prefix(rootfs_source_dir@, output_dir@) is Some && paths::strip_prefix(live_overlay_dir@, output_dir@) is None
            ==> (r matches Err(ReleaseError::NotUnderOutputDir { path: p, output_dir: o }) && p@ == live_overlay_dir@ && o@ == output_dir@),
        paths::strip_prefix(rootfs_source_dir@, output_dir@) matches Some(rr) ==> (paths::strip_prefix(live_overlay_dir@, output_dir@) matches Some(ro)
            ==> (r matches Ok(out)
                && out.source_pointer_path@ == paths::join(output_dir@, names.rootfs_source_pointer_filename@)
                && out.source_pointer_content@ == rootfs_source_dir@ + seq!['\n']
                && out.manifest.product@ == product.canonical@
                && out.manifest.distro_id@ == distro_id@
                && out.manifest.rootfs_source_dir@ == rr
                && out.manifest.live_overlay_dir@ == ro
                && out.manifest.rootfs_source_pointer_filename@ == names.rootfs_source_pointer_filename@
                && out.manifest.rootfs_erofs_filename@ == names.rootfs_erofs_filename@
                && out.manifest.overlay_erofs_filename@ == names.overlay_erofs_filename@)),
{
    let source_pointer_path = path_join(output_dir, names.rootfs_source_pointer_filename.as_str());
    let mut source_pointer_content = String::from_str(rootfs_source_dir);
    source_pointer_content.push('\n');
    let rel_rootfs = release::relative_prepared_product_path(output_dir, rootfs_source_dir)?;
    let rel_overlay = release::relative_prepared_product_path(output_dir, live_overlay_dir)?;
    Ok(PreparedOutputs {
        source_pointer_path,
        source_pointer_content,
        manifest: PreparedProductManifest {
            product: String::from_str(product.canonical),
            distro_id: String::from_str(distro_id),
            rootfs_source_dir: rel_rootfs,
            live_overlay_dir: rel_overlay,
            rootfs_source_pointer_filename: String::from_str(names.rootfs_source_pointer_filename.as_str()),
            rootfs_erofs_filename: String::from_str(names.rootfs_erofs_filename.as_str()),
            overlay_erofs_filename: String::from_str(names.overlay_erofs_filename.as_str()),
        },
    })
}

/// The EROFS builds of a prepared product: sources and outputs.
#[derive(Debug)]
pub struct PreparedErofsPlan {
    pub rootfs_source_dir: String,
    pub live_overlay_dir: String,
    pub rootfs_output: String,
    pub overlay_output: String,
}

/// The message of a prepared directory that lacks one of its sources.
pub open spec fn prepared_missing_message(what: Seq<char>, m: PreparedProductManifest, path: Seq<char>, prepared_dir: Seq<char>) -> Seq<char> {
    what + " source directory missing for product '"@ + m.product@ + "' at '"@ + path
        + "'\nRemediation: rerun `distro-builder product prepare "@ + m.product@ + " "@ + m.distro_id@ + " "@ + prepared_dir
        + "` and verify "@ + (if what == "live overlay"@ { "overlay"@ } else { "rootfs"@ }) + " preparation succeeds."@
}

fn prepared_missing(what: &str, short: &str, m: &PreparedProductManifest, path: &str, prepared_dir: &str) -> (r: String)
    requires
        (what@ == "live overlay"@ && short@ == "overlay"@) || (what@ == "rootfs"@ && short@ == "rootfs"@),
    ensures
        r@ == prepared_missing_message(what@, *m, path@, prepared_dir@),
{
    proof {
        reveal_strlit("live overlay");
        reveal_strlit("rootfs");
    }
    let mut s = String::from_str(what);
    append_str(&mut s, " source directory missing for product '");
    append_str(&mut s, m.product.as_str());
    append_str(&mut s, "' at '");
    append_str(&mut s, path);
    append_str(&mut s, "'\nRemediation: rerun `distro-builder product prepare ");
    append_str(&mut s, m.product.as_str());
    append_str(&mut s, " ");
    append_str(&mut s, m.distro_id.as_str());
    append_str(&mut s, " ");
    append_str(&mut s, prepared_dir);
    append_str(&mut s, "` and verify ");
    append_str(&mut s, short);
    append_str(&mut s, " preparation succeeds.");
    s
}

/// The checks and outputs of building a prepared product's EROFS images: both
/// source directories the manifest names must exist (the overlay is checked first).
pub fn build_prepared_product_erofs_cmd(
    prepared_dir: &str,
    manifest: &PreparedProductManifest,
    live_overlay_is_dir: bool,
    rootfs_source_is_dir: bool,
) -> (r: Result<PreparedErofsPlan, LayoutError>)
    ensures
        !live_overlay_is_dir ==> (r matches Err(LayoutError::PreparedDirMissing { message: m })
            && m@ == prepared_missing_message("live overlay"@, *manifest,
                paths::join(prepared_dir@, manifest.live_overlay_dir@), prepared_dir@)),
        live_overlay_is_dir && !rootfs_source_is_dir ==> (r matches Err(LayoutError::PreparedDirMissing { message: m })
            && m@ == prepared_missing_message("rootfs"@, *manifest,
                paths::join(prepared_dir@, manifest.rootfs_source_dir@), prepared_dir@)),
        live_overlay_is_dir && rootfs_source_is_dir ==> (r matches Ok(p)
            && p.rootfs_source_dir@ == paths::join(prepared_dir@, manifest.rootfs_source_dir@)
            && p.live_overlay_dir@ == paths::join(prepared_dir@, manifest.live_overlay_dir@)
            && p.rootfs_output@ == paths::join(prepared_dir@, manifest.rootfs_erofs_filename@)
            && p.overlay_output@ == paths::join(prepared_dir@, manifest.overlay_erofs_filename@)),
{
    let rootfs_source_dir = release::resolve_prepared_product_path(prepared_dir, manifest.rootfs_source_dir.as_str());
    let live_overlay_dir = release::resolve_prepared_product_path(prepared_dir, manifest.live_overlay_dir.as_str());
    if !live_overlay_is_dir {
        return Err(LayoutError::PreparedDirMissing {
            message: prepared_missing("live overlay", "overlay", manifest, live_overlay_dir.as_str(), prepared_dir),
        });
    }
    if !rootfs_source_is_dir {
        return Err(LayoutError::PreparedDirMissing {
            message: prepared_missing("rootfs", "rootfs", manifest, rootfs_source_dir.as_str(), prepared_dir),
        });
    }
    let rootfs_output = path_join(prepared_dir, manifest.rootfs_erofs_filename.as_str());
    let overlay_output = path_join(prepared_dir, manifest.overlay_erofs_filename.as_str());
    Ok(PreparedErofsPlan { rootfs_source_dir, live_overlay_dir, rootfs_output, overlay_output })
}

/// Which preseed a rootfs source uses.
#[derive(Debug, PartialEq, Eq)]
pub enum PreseedKind {
    /// An RPM DVD, fetched by a recipe.
    RpmDvd,
    /// The Alpine rootfs assets.
    Alpine,
}

/// Which preseed applies: the RPM DVD recipe when there is one, else the
/// Alpine assets; a source with neither cannot be preseeded.
pub fn preseed_rootfs_source_cmd(
    distro_id: &str,
    variant_dir: &str,
    has_rpm_dvd_recipe: bool,
    uses_alpine_rootfs_source: bool,
) -> (r: Result<PreseedKind, LayoutError>)
    ensures
        has_rpm_dvd_recipe ==> r == Ok::<PreseedKind, LayoutError>(PreseedKind::RpmDvd),
        !has_rpm_dvd_recipe && uses_alpine_rootfs_source ==> r == Ok::<PreseedKind, LayoutError>(PreseedKind::Alpine),
        !has_rpm_dvd_recipe && !uses_alpine_rootfs_source ==> (r matches Err(LayoutError::NotPreseedable { distro_id: d, sources_file: f })
            && d@ == distro_id@ && f@ == paths::join(variant_dir@, "ring3-sources.toml"@)),
{
    if has_rpm_dvd_recipe {
        return Ok(PreseedKind::RpmDvd);
    }
    if uses_alpine_rootfs_source {
        return Ok(PreseedKind::Alpine);
    }
    Err(LayoutError::NotPreseedable {
        distro_id: String::from_str(distro_id),
        sources_file: path_join(variant_dir, "ring3-sources.toml"),
    })
}

/// Where the trust material of a preseeded ISO lives: beside the ISO, or
/// under `<repo>/.artifacts/work/<distro>/downloads` when the ISO path has no parent.
pub fn preseed_trust_dir(iso_path: &str, repo_root: &str, distro_id: &str) -> (r: String)
    ensures
        match paths::parent(iso_path@) {
            Some(p) => r@ == p,
            None => r@ == paths::join(paths::join(paths::join(repo_root@, ".artifacts/work"@), distro_id@), "downloads"@),
        },
{
    match path_parent(iso_path) {
        Some(p) => p,
        None => {
            let a = path_join(repo_root, ".artifacts/work");
            let b = path_join(a.as_str(), distro_id);
            path_join(b.as_str(), "downloads")
        },
    }
}

} // verus!
