use distro_builder::alpine::{run_depmod, BuildContext, DepmodError};
use distro_builder::cli::{parse_product, parse_release_product, product_for_logical_name};
use distro_builder::kernel::{apply_kernel_config, install_kernel, KernelInstallConfig};
use distro_builder::licenses::LicenseTracker;
use distro_builder::context::PackageManager;
use distro_builder::paths::{path_join, path_strip_prefix};
use distro_builder::release::iso_filename_for_product;
use distro_builder::sshd::configure_sshd;
use distro_builder::store::ArtifactStore;
use distro_builder::tarball::{tar_entries, tar_header, EntryKind, TAR_ZSTD_LEVEL};
use distro_builder::users::{ensure_group, ensure_user, read_gid_from_rootfs, read_uid_from_rootfs};

#[test]
fn user_read_back_after_ensure() {
    let passwd = "root:x:0:0:root:/root:/bin/sh\n";
    let source = "builder:x:1500:1600:Builder:/home/b:/bin/sh\n";
    let new = ensure_user(passwd, Some(source), "builder", 1000, 1000, "/home/builder", "/bin/sh")
        .unwrap()
        .unwrap();
    assert_eq!(read_uid_from_rootfs(Some(&new), "builder").unwrap(), Some((1500, 1600)));
    assert_eq!(read_uid_from_rootfs(Some(&new), "root").unwrap(), Some((0, 0)));
    let fresh = ensure_user("", None, "svc", 4294967295, 7, "/var/empty", "/sbin/nologin").unwrap().unwrap();
    assert_eq!(read_uid_from_rootfs(Some(&fresh), "svc").unwrap(), Some((4294967295, 7)));
}

#[test]
fn user_appended_without_newline_is_not_read_back() {
    let passwd = "root:x:0:0:root:/root:/bin/sh";
    let new = ensure_user(passwd, None, "svc", 10, 10, "/", "/bin/sh").unwrap().unwrap();
    assert_eq!(read_uid_from_rootfs(Some(&new), "svc").unwrap(), None);
}

#[test]
fn group_read_back_after_ensure() {
    let new = ensure_group("wheel:x:10:\n", None, "video", 27).unwrap().unwrap();
    assert_eq!(new, "wheel:x:10:\nvideo:x:27:\n");
    assert_eq!(read_gid_from_rootfs(Some(&new), "video").unwrap(), Some(27));
    assert_eq!(read_gid_from_rootfs(Some(&new), "wheel").unwrap(), Some(10));
}

#[test]
fn kconfig_last_assignment_wins() {
    let config = "CONFIG_A=y\n# CONFIG_B is not set\nCONFIG_C=m";
    let kconfig = "CONFIG_B=y\n# comment\nCONFIG_A=n\n\nCONFIG_B=m\n";
    let merged = apply_kernel_config(config, kconfig);
    let lines: Vec<&str> = merged.lines().collect();
    assert!(lines.contains(&"CONFIG_A=n"));
    assert!(lines.contains(&"CONFIG_B=m"));
    assert!(lines.contains(&"CONFIG_C=m"));
    assert!(!lines.contains(&"CONFIG_A=y"));
    assert!(!lines.contains(&"CONFIG_B=y"));
    assert!(!lines.contains(&"# CONFIG_B is not set"));
    assert_eq!(lines.last(), Some(&"CONFIG_B=m"));
    assert_eq!(lines.iter().filter(|l| l.starts_with("CONFIG_B=")).count(), 1);
}

#[test]
fn sshd_settings_active_after_configure() {
    let config = "  PermitRootLogin yes \r\nPasswordAuthentication no\n#PubkeyAuthentication yes";
    let out = configure_sshd(config);
    let trimmed: Vec<&str> = out.lines().map(|l| l.trim()).collect();
    assert!(trimmed.contains(&"PermitRootLogin yes"));
    assert!(trimmed.contains(&"PasswordAuthentication yes"));
    assert!(trimmed.contains(&"PubkeyAuthentication yes"));
    assert!(trimmed.contains(&"#PasswordAuthentication no"));
}

#[test]
fn tar_entries_do_not_depend_on_walk_order() {
    let w1 = vec!["/s".to_string(), "/s/b".to_string(), "/s/a".to_string(), "/s/a/z".to_string()];
    let w2 = vec!["/s/a/z".to_string(), "/s/a".to_string(), "/s".to_string(), "/s/b".to_string()];
    let e1 = tar_entries("/s", &w1);
    let e2 = tar_entries("/s", &w2);
    let n1: Vec<(String, String)> = e1.iter().map(|e| (e.path.clone(), e.name.clone())).collect();
    let n2: Vec<(String, String)> = e2.iter().map(|e| (e.path.clone(), e.name.clone())).collect();
    assert_eq!(n1, n2);
    assert_eq!(n1[0], ("/s/a".to_string(), "a".to_string()));
    assert_eq!(n1[1], ("/s/a/z".to_string(), "a/z".to_string()));
    assert_eq!(n1[2], ("/s/b".to_string(), "b".to_string()));
}

#[test]
fn store_paths_do_not_collide() {
    let store = ArtifactStore::open("/repo");
    let a = store.index_path("kernel", "k1").unwrap();
    let b = store.index_path("kernel", "k2").unwrap();
    let c = store.index_path("rootfs", "k1").unwrap();
    assert_eq!(a, "/repo/.artifacts/index/kernel/k1.json");
    assert_ne!(a, b);
    assert_ne!(a, c);
    let d1 = "a".repeat(64);
    let d2 = format!("{}b", "a".repeat(63));
    let p1 = store.blob_path(&d1).unwrap();
    let p2 = store.blob_path(&d2).unwrap();
    assert_eq!(p1, format!("/repo/.artifacts/blobs/sha256/aa/{}", d1));
    assert_ne!(p1, p2);
}

#[test]
fn strip_prefix_undoes_join() {
    for base in ["/out", "/out/", "", "/", "rel/dir"] {
        for rel in ["a", "a/b.erofs", ""] {
            let joined = path_join(base, rel);
            assert_eq!(path_strip_prefix(&joined, base), Some(rel.to_string()), "{} {}", base, rel);
        }
    }
}

#[test]
fn products_parse_back_from_canonical_names() {
    for name in ["base-rootfs", "live-boot", "live-tools", "installed-boot"] {
        let p = parse_product(Some(name)).unwrap();
        assert_eq!(p.canonical, name);
        assert_eq!(parse_product(Some(p.canonical)).unwrap().canonical, name);
        let release = parse_release_product(Some(name));
        assert_eq!(release.is_ok(), p.release_hook_script_name.is_some());
    }
    let a = product_for_logical_name("product.payload.boot.live").unwrap();
    let b = product_for_logical_name("product.payload.live_tools").unwrap();
    assert_ne!(a.canonical, b.canonical);
}

#[test]
fn release_iso_names_are_distinct() {
    let names: Vec<String> = ["base-rootfs", "live-boot", "live-tools"]
        .iter()
        .map(|n| iso_filename_for_product("levitate.iso", &parse_product(Some(n)).unwrap()))
        .collect();
    assert_eq!(names, vec!["levitate.iso", "levitate-live-boot.iso", "levitate-live-tools.iso"]);
}

#[test]
fn license_packages_registered_once() {
    let mut t = LicenseTracker::new("/src".to_string(), PackageManager::Apk);
    t.register_package("musl");
    t.register_package("busybox");
    t.register_package("musl");
    assert_eq!(t.package_count(), 2);
    assert!(t.has_package("musl"));
}

#[test]
fn depmod_for_found_kernel() {
    let ctx = BuildContext::for_testing("/src", "/stage", "/base");
    let entries = vec![("README".to_string(), false), ("6.12.1-acorn".to_string(), true)];
    let args = run_depmod(&ctx, &entries).unwrap();
    assert_eq!(args, vec!["-a", "-b", "/stage", "6.12.1-acorn"]);
    let none = vec![("build".to_string(), true), ("6.1.file".to_string(), false)];
    assert_eq!(run_depmod(&ctx, &none).unwrap_err(), DepmodError::NoKernelModulesDir);
    assert_eq!(DepmodError::NoKernelModulesDir.message(), "Could not find kernel modules directory");
}

struct UsrMerged;

impl KernelInstallConfig for UsrMerged {
    fn module_install_path(&self) -> &str {
        "/usr/lib/modules"
    }

    fn kernel_filename(&self) -> &str {
        "vmlinuz"
    }
}

#[test]
fn kernel_install_from_config() {
    let cfg = UsrMerged;
    let plan = install_kernel("/linux", "/out", "/b/staging", cfg.module_install_path(), cfg.kernel_filename(), Some("6.12.0"), None, true)
        .unwrap();
    assert_eq!(plan.kernel_dest, "/b/staging.tmp/boot/vmlinuz");
    assert_eq!(plan.modules_dir, "/b/staging.tmp/usr/lib/modules/6.12.0");
    assert!(plan.move_from_lib_modules);
}

#[test]
fn same_tree_in_two_places_gives_the_same_entry_names() {
    let w1: Vec<String> = vec!["/a/src".into(), "/a/src/etc".into(), "/a/src/bin".into(), "/a/src/etc/hosts".into()];
    let w2: Vec<String> = vec!["/b/etc/hosts".into(), "/b".into(), "/b/bin".into(), "/b/etc".into()];
    let n1: Vec<String> = tar_entries("/a/src", &w1).into_iter().map(|e| e.name).collect();
    let n2: Vec<String> = tar_entries("/b", &w2).into_iter().map(|e| e.name).collect();
    assert_eq!(n1, vec!["bin", "etc", "etc/hosts"]);
    assert_eq!(n1, n2);
}

#[test]
fn archive_headers_carry_no_times_or_owners() {
    let f = tar_header(EntryKind::Regular, 0o644, 6).unwrap();
    assert_eq!((f.size, f.mtime, f.uid, f.gid, f.mode), (6, 0, 0, 0, 0o644));
    let d = tar_header(EntryKind::Directory, 0o755, 4096).unwrap();
    assert_eq!((d.size, d.mtime, d.uid, d.gid), (0, 0, 0, 0));
    let l = tar_header(EntryKind::Symlink, 0o777, 9).unwrap();
    assert_eq!(l.size, 0);
    assert!(tar_header(EntryKind::Other, 0o600, 0).is_none());
    assert_eq!(TAR_ZSTD_LEVEL, 3);
}
