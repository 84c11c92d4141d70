use distro_builder::cli::{discover_distro_ids, DiscoverError};
use distro_builder::cli::{
    dispatch_compatibility_command, dispatch_non_release_command, is_release_build_invocation, parse_distro_id,
    parse_product, parse_release_build_command, parse_release_product, product_for_logical_name, release_build_arguments,
    CliError, Command, CompatCommand, PRODUCT_BASE_ROOTFS, PRODUCT_INSTALLED_BOOT, PRODUCT_LIVE_BOOT, PRODUCT_LIVE_TOOLS,
};

fn args(v: &[&str]) -> Vec<String> {
    v.iter().map(|s| s.to_string()).collect()
}

#[test]
fn product_parser_accepts_canonical_names() {
    assert_eq!(parse_product(Some(PRODUCT_BASE_ROOTFS)).expect("parse base-rootfs").canonical, PRODUCT_BASE_ROOTFS);
    assert_eq!(parse_product(Some(PRODUCT_LIVE_BOOT)).expect("parse live-boot").canonical, PRODUCT_LIVE_BOOT);
    assert_eq!(parse_product(Some(PRODUCT_LIVE_TOOLS)).expect("parse live-tools").canonical, PRODUCT_LIVE_TOOLS);
    assert_eq!(
        parse_product(Some(PRODUCT_INSTALLED_BOOT)).expect("parse installed-boot").canonical,
        PRODUCT_INSTALLED_BOOT
    );
}

#[test]
fn product_parser_rejects_stage_aliases() {
    let err = parse_product(Some("01Boot")).expect_err("stage alias must be rejected");
    assert!(err.message().contains("unsupported product"), "unexpected error: {:?}", err);
    let err = parse_product(Some("02")).expect_err("numeric stage alias must be rejected");
    assert!(err.message().contains("unsupported product"), "unexpected error: {:?}", err);
}

#[test]
fn product_for_logical_name_maps_runtime_products() {
    assert_eq!(product_for_logical_name("product.rootfs.base").expect("map rootfs base").canonical, PRODUCT_BASE_ROOTFS);
    assert_eq!(product_for_logical_name("product.payload.boot.live").expect("map live boot").canonical, PRODUCT_LIVE_BOOT);
    assert_eq!(product_for_logical_name("product.payload.live_tools").expect("map live tools").canonical, PRODUCT_LIVE_TOOLS);
    assert_eq!(
        product_for_logical_name("product.payload.boot.installed").expect("map installed boot").canonical,
        PRODUCT_INSTALLED_BOOT
    );
}

#[test]
fn release_product_parser_rejects_installed_boot() {
    let err = parse_release_product(Some(PRODUCT_INSTALLED_BOOT)).expect_err("installed-boot must not be a release ISO product");
    assert!(err.message().contains("canonical product preparation target"), "unexpected error: {:?}", err);
}

#[test]
fn default_product_is_base_rootfs() {
    let p = parse_product(None).unwrap();
    assert_eq!(p.canonical, "base-rootfs");
    assert_eq!(p.release_hook_script_name, Some("build-release.sh"));
    assert_eq!(p.rootfs_source_pointer_filename, ".live-rootfs-source.path");
}

#[test]
fn product_fields_follow_the_product_table() {
    let p = parse_product(Some("installed-boot")).unwrap();
    assert_eq!(p.release_hook_script_name, None);
    assert_eq!(p.live_overlay_dir_name, "boot-overlay");
    assert_eq!(p.rootfs_source_pointer_filename, ".rootfs-source.path");
    assert_eq!(p.issue_banner_label, "Installed Boot");
    let p = parse_product(Some("live-tools")).unwrap();
    assert_eq!(p.release_hook_script_name, Some("live-tools-release.sh"));
    assert_eq!(p.iso_suffix, "live-tools");
}

#[test]
fn unknown_logical_name_is_refused() {
    let err = product_for_logical_name("product.unknown").unwrap_err();
    assert_eq!(err, CliError::UnsupportedLogicalName { value: "product.unknown".to_string() });
    assert!(err.message().starts_with("unsupported canonical product logical name 'product.unknown'"));
}

#[test]
fn distro_ids_are_checked_against_known_ones() {
    let known = args(&["acorn", "levitate"]);
    assert_eq!(parse_distro_id("acorn", &known).unwrap(), "acorn");
    let err = parse_distro_id("ralph", &known).unwrap_err();
    assert_eq!(err, CliError::UnsupportedDistro { value: "ralph".to_string(), supported: "acorn, levitate".to_string() });
    assert_eq!(err.message(), "unsupported distro 'ralph'; expected one of: acorn, levitate");
}

#[test]
fn release_arguments_accept_either_order() {
    let known = args(&["acorn", "levitate"]);
    let (d, p) = parse_release_build_command(&args(&[]), &known).unwrap();
    assert_eq!((d.as_str(), p.canonical), ("levitate", "base-rootfs"));
    let (d, p) = parse_release_build_command(&args(&["acorn"]), &known).unwrap();
    assert_eq!((d.as_str(), p.canonical), ("acorn", "base-rootfs"));
    let (d, p) = parse_release_build_command(&args(&["live-boot"]), &known).unwrap();
    assert_eq!((d.as_str(), p.canonical), ("levitate", "live-boot"));
    let (d, p) = parse_release_build_command(&args(&["acorn", "live-tools"]), &known).unwrap();
    assert_eq!((d.as_str(), p.canonical), ("acorn", "live-tools"));
    let (d, p) = parse_release_build_command(&args(&["live-tools", "acorn"]), &known).unwrap();
    assert_eq!((d.as_str(), p.canonical), ("acorn", "live-tools"));
}

#[test]
fn release_arguments_errors() {
    let known = args(&["acorn", "levitate"]);
    assert_eq!(
        parse_release_build_command(&args(&["live-boot", "nope"]), &known).unwrap_err(),
        CliError::UnsupportedDistro { value: "nope".to_string(), supported: "acorn, levitate".to_string() }
    );
    let err = parse_release_build_command(&args(&["x", "y"]), &known).unwrap_err();
    assert_eq!(
        err,
        CliError::InvalidReleaseArgs { arg1: "x".to_string(), arg2: "y".to_string(), known: "acorn, levitate".to_string() }
    );
    assert!(err.message().contains("available distros: acorn, levitate"));
    assert_eq!(parse_release_build_command(&args(&["a", "b", "c"]), &known).unwrap_err(), CliError::TooManyReleaseArgs);
    assert_eq!(
        parse_release_build_command(&args(&["installed-boot"]), &known).unwrap_err(),
        CliError::NotReleaseProduct { value: "installed-boot".to_string() }
    );
}

#[test]
fn release_invocations_are_recognised() {
    assert!(is_release_build_invocation(&args(&["release", "build", "iso"])));
    assert!(is_release_build_invocation(&args(&["release", "build", "iso", "a", "b"])));
    assert!(!is_release_build_invocation(&args(&["release", "build", "iso", "a", "b", "c"])));
    assert!(is_release_build_invocation(&args(&["iso", "build"])));
    assert!(!is_release_build_invocation(&args(&["iso", "build-all"])));
    assert_eq!(release_build_arguments(&args(&["iso", "build", "acorn"])).unwrap(), args(&["acorn"]));
    assert_eq!(release_build_arguments(&args(&["product"])).unwrap_err(), CliError::Usage);
}

#[test]
fn non_release_commands_are_decoded() {
    match dispatch_non_release_command(&args(&["release", "build-all", "iso", "live-boot"])).unwrap() {
        Command::BuildAll { product } => assert_eq!(product.canonical, "live-boot"),
        other => panic!("unexpected {:?}", other),
    }
    match dispatch_non_release_command(&args(&["artifact", "preseed-rootfs-source", "acorn", "--refresh"])).unwrap() {
        Command::PreseedRootfsSource { distro_id, refresh } => {
            assert_eq!(distro_id, "acorn");
            assert!(refresh);
        },
        other => panic!("unexpected {:?}", other),
    }
    match dispatch_non_release_command(&args(&["transform", "build", "rootfs-erofs", "src", "out"])).unwrap() {
        Command::BuildRootfsErofs { source_dir, output } => assert_eq!((source_dir.as_str(), output.as_str()), ("src", "out")),
        other => panic!("unexpected {:?}", other),
    }
    assert_eq!(dispatch_non_release_command(&args(&["bogus"])).unwrap_err(), CliError::Usage);
    assert_eq!(
        dispatch_non_release_command(&args(&["iso", "build-all", "installed-boot"])).unwrap_err(),
        CliError::NotReleaseProduct { value: "installed-boot".to_string() }
    );
    assert!(CliError::Usage.message().starts_with("Usage:\n  distro-builder release build iso"));
}

#[test]
fn stage_commands_are_decoded() {
    match dispatch_compatibility_command(&args(&["artifact", "prepare-s01-boot-inputs", "acorn", "out"])) {
        Some(CompatCommand::PrepareStageInputs { stage, distro_id, output_dir }) => {
            assert_eq!((stage.as_str(), distro_id.as_str(), output_dir.as_str()), ("01Boot", "acorn", "out"));
        },
        other => panic!("unexpected {:?}", other),
    }
    assert!(dispatch_compatibility_command(&args(&["artifact", "other"])).is_none());
}

#[test]
fn distro_ids_are_discovered_sorted() {
    let entries = vec![
        ("levitate".to_string(), true, true),
        ("acorn".to_string(), true, true),
        ("README.md".to_string(), false, false),
        ("scratch".to_string(), true, false),
        ("iuppiter".to_string(), true, true),
    ];
    assert_eq!(discover_distro_ids("/r/distro-variants", &entries).unwrap(), vec!["acorn", "iuppiter", "levitate"]);
    let err = discover_distro_ids("/r/distro-variants", &vec![("x".to_string(), true, false)]).unwrap_err();
    assert_eq!(err, DiscoverError::NoVariants { variants_dir: "/r/distro-variants".to_string() });
    assert_eq!(
        err.message(),
        "no distro variants discovered under '/r/distro-variants'; expected directories with identity.toml"
    );
}
