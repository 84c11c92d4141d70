use distro_builder::cli::parse_product;
use distro_builder::products::{
    build_prepared_product_erofs_cmd, canonical_derived_product_layout, prepare_product_inputs, preseed_rootfs_source_cmd,
    preseed_trust_dir, s00_build_layout, s01_boot_layout, s02_live_tools_layout, LayoutError, PreparedProductManifest,
    PreseedKind, ProductDecl, ProductPreparation,
};
use distro_builder::products::{prepare_compatibility_product_inputs, write_prepared_product_outputs, CompatPreparation};
use distro_builder::release::{
    canonical_prepared_output_names, compatibility_prepared_output_names, parse_stage, ArtifactTransform, ReleaseError,
};

#[test]
fn s00_wrapper_owns_stage_compat_layout() {
    let layout = s00_build_layout();
    assert_eq!(layout.rootfs_source_dir, "s00-rootfs-source");
    assert_eq!(layout.live_overlay_dir_name, "s00-live-overlay");
}

#[test]
fn s01_wrapper_owns_stage_compat_layout() {
    let layout = s01_boot_layout();
    assert_eq!(layout.rootfs_source_dir, "s01-rootfs-source");
    assert_eq!(layout.parent_rootfs.release_dir_name, "base-rootfs");
    assert_eq!(layout.parent_rootfs.producer_label, "base-rootfs");
    assert_eq!(layout.parent_rootfs.rootfs_filename, "filesystem.erofs");
    assert_eq!(layout.live_overlay.issue_banner_label, "S01 Boot");
    assert_eq!(layout.live_overlay.dir_name, "s01-live-overlay");
}

#[test]
fn s02_wrapper_owns_stage_compat_layout() {
    let layout = s02_live_tools_layout();
    assert_eq!(layout.rootfs_source_dir, "s02-rootfs-source");
    assert_eq!(layout.parent_rootfs.release_dir_name, "live-boot");
    assert_eq!(layout.parent_rootfs.producer_label, "live-boot");
    assert_eq!(layout.parent_rootfs.rootfs_filename, "filesystem.erofs");
    assert_eq!(layout.live_overlay.issue_banner_label, "S02 Live Tools");
    assert_eq!(layout.live_overlay.dir_name, "s02-live-overlay");
}

fn decl(name: &str, extends: Option<&str>) -> ProductDecl {
    ProductDecl { logical_name: name.to_string(), extends: extends.map(|s| s.to_string()) }
}

fn rootfs() -> ArtifactTransform {
    ArtifactTransform { logical_name: "rootfs".to_string(), output_names: vec!["filesystem.erofs".to_string()] }
}

#[test]
fn derived_layout_follows_the_parent_product() {
    let product = parse_product(Some("live-tools")).unwrap();
    let layout = canonical_derived_product_layout(&product, &decl("product.payload.live_tools", Some("product.payload.boot.live")), &rootfs()).unwrap();
    assert_eq!(layout.rootfs_source_dir, "rootfs-source");
    assert_eq!(layout.parent_rootfs.release_dir_name, "live-boot");
    assert_eq!(layout.parent_rootfs.producer_label, "live-boot");
    assert_eq!(layout.parent_rootfs.rootfs_filename, "filesystem.erofs");
    assert_eq!(layout.live_overlay.issue_banner_label, "Live Tools");
    let err = canonical_derived_product_layout(&product, &decl("product.payload.live_tools", None), &rootfs()).unwrap_err();
    assert_eq!(err, LayoutError::MissingExtends { product: "live-tools".to_string(), logical_name: "product.payload.live_tools".to_string() });
}

#[test]
fn product_preparation_picks_the_loader() {
    let live = decl("product.payload.boot.live", Some("product.rootfs.base"));
    let tools = decl("product.payload.live_tools", Some("product.payload.boot.live"));
    let base = parse_product(Some("base-rootfs")).unwrap();
    assert!(matches!(prepare_product_inputs(&base, &live, &tools, None, &rootfs()), Ok(ProductPreparation::BaseRootfs { .. })));
    let installed = parse_product(Some("installed-boot")).unwrap();
    assert_eq!(prepare_product_inputs(&installed, &live, &tools, None, &rootfs()).unwrap_err(), LayoutError::MissingInstalledBootDecl);
    let lb = parse_product(Some("live-boot")).unwrap();
    match prepare_product_inputs(&lb, &live, &tools, None, &rootfs()).unwrap() {
        ProductPreparation::LiveBoot { layout } => assert_eq!(layout.parent_rootfs.release_dir_name, "base-rootfs"),
        other => panic!("unexpected {:?}", other),
    }
}

#[test]
fn prepared_dir_checks() {
    let m = PreparedProductManifest {
        product: "live-boot".to_string(),
        distro_id: "acorn".to_string(),
        rootfs_source_dir: "rootfs-source".to_string(),
        live_overlay_dir: "live-overlay".to_string(),
        rootfs_source_pointer_filename: ".p".to_string(),
        rootfs_erofs_filename: "filesystem.erofs".to_string(),
        overlay_erofs_filename: "overlayfs.erofs".to_string(),
    };
    let plan = build_prepared_product_erofs_cmd("/p", &m, true, true).unwrap();
    assert_eq!(plan.rootfs_output, "/p/filesystem.erofs");
    assert_eq!(plan.live_overlay_dir, "/p/live-overlay");
    match build_prepared_product_erofs_cmd("/p", &m, false, true) {
        Err(LayoutError::PreparedDirMissing { message }) => assert_eq!(
            message,
            "live overlay source directory missing for product 'live-boot' at '/p/live-overlay'\nRemediation: rerun `distro-builder product prepare live-boot acorn /p` and verify overlay preparation succeeds."
        ),
        _ => panic!("expected a missing overlay"),
    }
}

#[test]
fn preseed_choices() {
    assert_eq!(preseed_rootfs_source_cmd("d", "/v", true, true).unwrap(), PreseedKind::RpmDvd);
    assert_eq!(preseed_rootfs_source_cmd("d", "/v", false, true).unwrap(), PreseedKind::Alpine);
    assert_eq!(
        preseed_rootfs_source_cmd("d", "/v", false, false).unwrap_err(),
        LayoutError::NotPreseedable { distro_id: "d".to_string(), sources_file: "/v/ring3-sources.toml".to_string() }
    );
    assert_eq!(preseed_trust_dir("/dl/x.iso", "/repo", "d"), "/dl");
    assert_eq!(preseed_trust_dir("", "/repo", "d"), "/repo/.artifacts/work/d/downloads");
}

#[test]
fn compatibility_preparation_by_product() {
    match prepare_compatibility_product_inputs(&parse_product(Some("base-rootfs")).unwrap()) {
        CompatPreparation::S00Build { base_layout } => assert_eq!(base_layout.live_overlay_dir_name, "s00-live-overlay"),
        other => panic!("unexpected {:?}", other),
    }
    match prepare_compatibility_product_inputs(&parse_product(Some("live-tools")).unwrap()) {
        CompatPreparation::S02LiveTools { layout } => assert_eq!(layout.parent_rootfs.release_dir_name, "live-boot"),
        other => panic!("unexpected {:?}", other),
    }
}

#[test]
fn prepared_outputs_are_relative() {
    let product = parse_product(Some("live-boot")).unwrap();
    let overlay = ArtifactTransform { logical_name: "overlay".to_string(), output_names: vec!["overlayfs.erofs".to_string()] };
    let names = canonical_prepared_output_names(&rootfs(), &overlay, &product).unwrap();
    assert_eq!(names.rootfs_source_pointer_filename, ".live-rootfs-source.path");
    assert_eq!(names.overlay_erofs_filename, "overlayfs.erofs");
    let out = write_prepared_product_outputs("/out/p", &product, "acorn", "/out/p/rootfs-source", "/out/p/live-overlay", &names)
        .unwrap();
    assert_eq!(out.source_pointer_path, "/out/p/.live-rootfs-source.path");
    assert_eq!(out.source_pointer_content, "/out/p/rootfs-source\n");
    assert_eq!(out.manifest.rootfs_source_dir, "rootfs-source");
    assert_eq!(out.manifest.live_overlay_dir, "live-overlay");
    assert_eq!(out.manifest.product, "live-boot");
    let err = write_prepared_product_outputs("/out/p", &product, "acorn", "/out/p/rootfs-source", "/elsewhere/o", &names)
        .unwrap_err();
    assert_eq!(err, ReleaseError::NotUnderOutputDir { path: "/elsewhere/o".to_string(), output_dir: "/out/p".to_string() });
    let stage = parse_stage(Some("01Boot")).unwrap();
    let compat = compatibility_prepared_output_names(&stage);
    let out2 = write_prepared_product_outputs("/s", &product, "acorn", "/s/src", "/s/ov", &compat).unwrap();
    assert_eq!(out2.source_pointer_path, "/s/.s01-live-rootfs-source.path");
    assert_eq!(out2.manifest.rootfs_erofs_filename, "s01-filesystem.erofs");
}
