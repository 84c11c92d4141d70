use distro_builder::cli::{parse_product, PRODUCT_BASE_ROOTFS, PRODUCT_LIVE_BOOT};
use distro_builder::release::{
    build_run_metadata, compatibility_prepared_output_names, derive_product_iso_filename,
    ensure_release_iso_via_variant_hook, iso_filename_for_product, parse_stage, prepared_product_manifest_path,
    relative_prepared_product_path, release_hook_outcome, release_run_finish, require_single_transform_output,
    resolve_prepared_product_path, ArtifactTransform, ReleaseError, StageError, VariantHookInputs,
};

#[test]
fn product_iso_filename_is_product_native() {
    let product = parse_product(Some(PRODUCT_LIVE_BOOT)).expect("parse live-boot");
    assert_eq!(derive_product_iso_filename("levitateos-x86_64.iso", product.iso_suffix), "levitateos-x86_64-live-boot.iso");
}

#[test]
fn base_rootfs_iso_filename_stays_base_name() {
    let product = parse_product(Some(PRODUCT_BASE_ROOTFS)).expect("parse base-rootfs");
    assert_eq!(iso_filename_for_product("levitateos-x86_64.iso", &product), "levitateos-x86_64.iso");
}

#[test]
fn derived_iso_name_without_extension() {
    assert_eq!(derive_product_iso_filename("image", "live-tools"), "image-live-tools.iso");
}

#[test]
fn compatibility_prepared_output_names_preserve_stage_artifacts() {
    let stage = parse_stage(Some("01Boot")).expect("parse stage");
    let names = compatibility_prepared_output_names(&stage);
    assert_eq!(names.rootfs_source_pointer_filename, ".s01-live-rootfs-source.path");
    assert_eq!(names.rootfs_erofs_filename, "s01-filesystem.erofs");
    assert_eq!(names.overlay_erofs_filename, "s01-overlayfs.erofs");
}

#[test]
fn unknown_stage_is_refused() {
    assert_eq!(parse_stage(Some("03")).unwrap_err(), StageError::UnsupportedStage { value: "03".to_string() });
    assert_eq!(parse_stage(None).unwrap().artifact_tag, "s00");
}

fn transform(name: &str, outputs: &[&str]) -> ArtifactTransform {
    ArtifactTransform { logical_name: name.to_string(), output_names: outputs.iter().map(|s| s.to_string()).collect() }
}

#[test]
fn single_transform_outputs() {
    assert_eq!(require_single_transform_output(&transform("t", &["a.erofs"]), "rootfs_image").unwrap(), "a.erofs");
    assert_eq!(
        require_single_transform_output(&transform("t", &["a", "b"]), "iso").unwrap_err(),
        ReleaseError::TransformOutputs {
            logical_name: "t".to_string(),
            field: "iso".to_string(),
            found: vec!["a".to_string(), "b".to_string()]
        }
    );
}

#[test]
fn prepared_paths_round_trip() {
    assert_eq!(prepared_product_manifest_path("/out"), "/out/.prepared-product.json");
    let p = resolve_prepared_product_path("/out", "rootfs-source");
    assert_eq!(p, "/out/rootfs-source");
    assert_eq!(relative_prepared_product_path("/out", &p).unwrap(), "rootfs-source");
    assert!(matches!(relative_prepared_product_path("/out", "/other/x"), Err(ReleaseError::NotUnderOutputDir { .. })));
}

fn inputs() -> VariantHookInputs {
    VariantHookInputs {
        distro_id: "levitate".to_string(),
        os_name: "LevitateOS".to_string(),
        os_id: "levitateos".to_string(),
        os_version: "1".to_string(),
        iso_label: "LEVITATE".to_string(),
        live_uki_output_names: vec!["live.efi".to_string(), "emergency.efi".to_string(), "debug.efi".to_string()],
        live_uki_extra_cmdline: None,
        initramfs_live: transform("initramfs", &["initramfs-live.img"]),
        rootfs_image: transform("rootfs", &["filesystem.erofs"]),
        overlay_image: transform("overlay", &["overlayfs.erofs"]),
        iso: transform("iso", &["levitateos-x86_64.iso"]),
        kernel_release_path: "kernel.release".to_string(),
        kernel_image_path: "vmlinuz".to_string(),
        live_boot_required_kernel_cmdline: vec!["quiet".to_string(), "console=ttyS0".to_string()],
        kernel_output_dir: "/k".to_string(),
        root_dir: "/r".to_string(),
        output_dir: "/r/run1".to_string(),
        run_id: Some("run1".to_string()),
        distro_builder_bin: "/bin/db".to_string(),
        ring0_hooks_dir: "/repo/distro-variants/levitate/hooks".to_string(),
    }
}

#[test]
fn variant_hook_plan_names_the_iso_and_environment() {
    let product = parse_product(Some("live-boot")).unwrap();
    let plan = ensure_release_iso_via_variant_hook(&inputs(), &product, true).unwrap();
    assert_eq!(plan.script_path, "/repo/distro-variants/levitate/hooks/boot-release.sh");
    assert_eq!(plan.script_name, "boot-release.sh");
    assert_eq!(plan.iso_filename, "levitateos-x86_64-live-boot.iso");
    assert_eq!(plan.iso_path, "/r/run1/levitateos-x86_64-live-boot.iso");
    let get = |k: &str| plan.env.iter().find(|(key, _)| key == k).map(|(_, v)| v.clone()).unwrap();
    assert_eq!(plan.env.len(), 29);
    assert_eq!(get("KERNEL_RELEASE_PATH"), "/k/kernel.release");
    assert_eq!(get("PRODUCT_REQUIRED_KERNEL_CMDLINE"), "quiet console=ttyS0");
    assert_eq!(get("LIVE_UKI_CMDLINE"), "");
    assert_eq!(get("BUILD_RUN_ID"), "run1");
    assert_eq!(get("EMERGENCY_UKI_FILENAME"), "emergency.efi");
}

#[test]
fn variant_hook_requires_three_ukis() {
    let mut i = inputs();
    i.live_uki_output_names.pop();
    let product = parse_product(Some("base-rootfs")).unwrap();
    assert!(matches!(ensure_release_iso_via_variant_hook(&i, &product, true), Err(ReleaseError::UkiOutputs { .. })));
    let mut i = inputs();
    i.overlay_image.output_names.clear();
    match ensure_release_iso_via_variant_hook(&i, &product, true) {
        Err(ReleaseError::TransformOutputs { field, .. }) => assert_eq!(field, "overlay_image"),
        other => panic!("unexpected {:?}", other.err()),
    }
}

#[test]
fn hook_outcome_verdicts() {
    assert_eq!(release_hook_outcome("d", "/x.iso", false, true).unwrap_err(), ReleaseError::HookFailed { distro_id: "d".to_string() });
    assert_eq!(
        release_hook_outcome("d", "/x.iso", true, false).unwrap_err(),
        ReleaseError::IsoMissing { distro_id: "d".to_string(), iso_path: "/x.iso".to_string() }
    );
    assert!(release_hook_outcome("d", "/x.iso", true, true).is_ok());
}

#[test]
fn run_metadata_records_status() {
    let product = parse_product(Some("live-tools")).unwrap();
    let m = build_run_metadata("r", "d", &product, "20240101T000000Z", None, "/root", "/out", "/out/x.iso");
    assert_eq!(m.status, "building");
    assert_eq!(m.target_kind, "release-product");
    assert_eq!(m.finished_at_utc, None);
    let m = build_run_metadata("r", "d", &product, "c", Some((false, "f")), "/root", "/out", "/out/x.iso");
    assert_eq!(m.status, "failed");
    assert_eq!(m.finished_at_utc.as_deref(), Some("f"));
    assert_eq!(release_run_finish(true, false), (true, false));
    assert_eq!(release_run_finish(true, true), (false, true));
    assert_eq!(release_run_finish(false, false), (false, false));
}

fn compat_inputs() -> distro_builder::release::CompatHookInputs {
    distro_builder::release::CompatHookInputs {
        distro_id: "acorn".to_string(),
        os_name: "AcornOS".to_string(),
        os_id: "acornos".to_string(),
        os_version: "1.0".to_string(),
        iso_label: "ACORNOS".to_string(),
        live_uki_filename: "live.efi".to_string(),
        emergency_uki_filename: "emergency.efi".to_string(),
        debug_uki_filename: "debug.efi".to_string(),
        live_cmdline: "quiet".to_string(),
        kernel_release_path: "kernel.release".to_string(),
        kernel_image_path: "vmlinuz".to_string(),
        base_iso_filename: "acornos.iso".to_string(),
        rootfs_erofs_filename: "s01-filesystem.erofs".to_string(),
        initramfs_live_filename: "initramfs-live.img".to_string(),
        overlay_erofs_filename: "s01-overlayfs.erofs".to_string(),
        stage_dir_name: "s01-boot".to_string(),
        native_build_script: "build-s01.sh".to_string(),
        variant_dir: "/repo/acorn".to_string(),
        live_boot_required_kernel_cmdline: vec!["rd.live".to_string(), "console=ttyS0".to_string()],
        kernel_output_dir: "/k".to_string(),
        root_dir: "/out".to_string(),
        output_dir: "/out/run1".to_string(),
        run_id: None,
        distro_builder_bin: "/bin/db".to_string(),
    }
}

#[test]
fn compatibility_hook_plan() {
    let stage = parse_stage(Some("01Boot")).unwrap();
    let product = parse_product(Some(PRODUCT_LIVE_BOOT)).unwrap();
    let plan = distro_builder::release::ensure_release_iso_via_compatibility_hook(&compat_inputs(), &stage, &product, true)
        .unwrap();
    assert_eq!(plan.script_path, "/repo/acorn/build-s01.sh");
    assert_eq!(plan.iso_filename, "acornos-live-boot.iso");
    assert_eq!(plan.iso_path, "/out/run1/acornos-live-boot.iso");
    assert_eq!(plan.env.len(), 31);
    let get = |k: &str| plan.env.iter().find(|(n, _)| n == k).map(|(_, v)| v.clone()).unwrap();
    assert_eq!(get("KERNEL_IMAGE_PATH"), "/k/vmlinuz");
    assert_eq!(get("BUILD_RUN_ID"), "");
    assert_eq!(get("COMPAT_BUILD_STAGE_SLUG"), "s01_boot");
    assert_eq!(get("COMPAT_STAGE_ARTIFACT_TAG"), "s01");
    assert_eq!(get("COMPAT_STAGE_REQUIRED_KERNEL_CMDLINE"), "rd.live console=ttyS0");
    assert_eq!(plan.env[0], ("DISTRO_ID".to_string(), "acorn".to_string()));

    let s00 = parse_stage(None).unwrap();
    let base = parse_product(Some(PRODUCT_BASE_ROOTFS)).unwrap();
    let plan0 = distro_builder::release::ensure_release_iso_via_compatibility_hook(&compat_inputs(), &s00, &base, true)
        .unwrap();
    assert_eq!(plan0.iso_filename, "acornos.iso");
    assert_eq!(plan0.env.last().unwrap().1, "");
}

#[test]
fn compatibility_hook_missing_script() {
    let stage = parse_stage(Some("02LiveTools")).unwrap();
    let product = parse_product(Some("live-tools")).unwrap();
    let err = distro_builder::release::ensure_release_iso_via_compatibility_hook(&compat_inputs(), &stage, &product, false)
        .unwrap_err();
    assert_eq!(
        err,
        ReleaseError::MissingCompatHook {
            product: "live-tools".to_string(),
            distro_id: "acorn".to_string(),
            script_path: "/repo/acorn/build-s01.sh".to_string(),
            script_name: "build-s01.sh".to_string(),
            variant_dir: "/repo/acorn".to_string(),
        }
    );
}

#[test]
fn canonical_prepared_output_names_follow_ring1_filesystem_transforms() {
    let product = parse_product(Some(PRODUCT_LIVE_BOOT)).expect("parse live-boot");
    let names = distro_builder::release::canonical_prepared_output_names(
        &transform("rootfs_image", &["s00-filesystem.erofs"]),
        &transform("overlay_image", &["s00-overlayfs.erofs"]),
        &product,
    )
    .expect("resolve canonical prepared output names");
    assert_eq!(names.rootfs_source_pointer_filename, ".live-rootfs-source.path");
    assert_eq!(names.rootfs_erofs_filename, "s00-filesystem.erofs");
    assert_eq!(names.overlay_erofs_filename, "s00-overlayfs.erofs");
}

#[test]
fn canonical_initramfs_live_filename_follows_ring1_boot_transforms() {
    let filename = require_single_transform_output(&transform("initramfs_live", &["s00-initramfs-live.cpio.gz"]), "initramfs_live")
        .expect("resolve canonical initramfs-live filename");
    assert_eq!(filename, "s00-initramfs-live.cpio.gz");
}

#[test]
fn canonical_iso_filename_follows_ring0_release_transform() {
    let filename = require_single_transform_output(&transform("iso", &["levitateos-x86_64.iso"]), "iso")
        .expect("resolve canonical ring0 iso filename");
    assert_eq!(filename, "levitateos-x86_64.iso");
}

#[test]
fn product_release_output_layout_uses_release_root() {
    let product = parse_product(Some("live-tools")).expect("parse live-tools");
    let root_dir = distro_builder::runs::product_release_dir_for("/repo", "levitate", product.release_dir_name);
    assert!(root_dir.ends_with("levitate/releases/live-tools"), "unexpected release root '{}'", root_dir);
    assert_eq!(root_dir, "/repo/.artifacts/out/levitate/releases/live-tools");
}

#[test]
fn variant_hook_script_must_be_a_file() {
    let product = parse_product(Some("live-boot")).unwrap();
    assert_eq!(
        ensure_release_iso_via_variant_hook(&inputs(), &product, false).unwrap_err(),
        ReleaseError::MissingVariantHook {
            product: "live-boot".to_string(),
            distro_id: "levitate".to_string(),
            script_path: "/repo/distro-variants/levitate/hooks/boot-release.sh".to_string(),
            script_name: "boot-release.sh".to_string(),
            hooks_dir: "/repo/distro-variants/levitate/hooks".to_string(),
        }
    );
}
