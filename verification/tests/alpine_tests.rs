use distro_builder::alpine::{
    applet_links, busybox_applets, copy_wifi_firmware, create_fhs_symlinks, depmod_args, find_kernel_version,
    is_module_file, is_shared_library, setup_ssh, BuildContext, ContextError, ExtractPaths,
};

#[test]
fn test_lib_path() {
    let ctx = BuildContext::for_testing("/tmp/x", "/tmp/x/staging", "/tmp/x");
    assert_eq!(ctx.lib_path(), "usr/lib");
    assert_eq!(ctx.output, "/tmp/x/output");
}

#[test]
fn missing_rootfs_is_reported() {
    assert!(BuildContext::new("/nonexistent-base-dir-for-tests", "/s", "acornos extract").is_err());
}

#[test]
fn extract_paths_layout() {
    let p = ExtractPaths::new("/base");
    assert_eq!(p.downloads, "/base/downloads");
    assert_eq!(p.iso, "/base/downloads/alpine-extended-3.23.2-x86_64.iso");
    assert_eq!(p.rootfs, "/base/downloads/rootfs");
}

#[test]
fn applets_from_list_or_fallback() {
    let common = vec!["sh".to_string(), "ls".to_string()];
    assert_eq!(busybox_applets(Some(" ash\n\n cat \n"), &common), vec!["ash".to_string(), "cat".to_string()]);
    assert_eq!(busybox_applets(None, &common), common);
    let links = applet_links("/st", &vec!["ifconfig".to_string(), "cat".to_string()], &vec!["ifconfig".to_string()]);
    assert_eq!(links, vec!["/st/usr/sbin/ifconfig", "/st/usr/bin/cat", "/st/usr/bin/sh"]);
}

#[test]
fn kernel_version_is_the_dotted_directory() {
    let entries = vec![("build".to_string(), true), ("6.12.1".to_string(), false), ("6.12.0-acorn".to_string(), true)];
    assert_eq!(find_kernel_version(&entries), Some("6.12.0-acorn".to_string()));
    assert_eq!(find_kernel_version(&vec![("x".to_string(), true)]), None);
    assert_eq!(depmod_args("/st", "6.1"), vec!["-a", "-b", "/st", "6.1"]);
    assert!(is_module_file("e1000.ko.xz"));
    assert!(is_shared_library("libc.so.6"));
}

#[test]
fn fhs_ssh_firmware_plans() {
    let ctx = BuildContext::for_testing("/src", "/st", "/base");
    let fhs = create_fhs_symlinks(&ctx);
    assert_eq!(fhs.usr_links[2], ("/st/lib".to_string(), "usr/lib".to_string()));
    assert_eq!(fhs.run_lock, "/st/run/lock");
    let (dir, keys) = setup_ssh(&ctx, "root@acornos");
    assert_eq!(dir, "/st/etc/ssh");
    assert_eq!(keys[2].keygen_args, vec!["-t", "ed25519", "-f", "/st/etc/ssh/ssh_host_ed25519_key", "-N", "", "-C", "root@acornos"]);
    let fw = copy_wifi_firmware(&ctx);
    assert_eq!(fw.len(), 15);
    assert_eq!(fw[0], ("/src/lib/firmware/iwlwifi".to_string(), "/st/lib/firmware/iwlwifi".to_string()));
}

#[test]
fn device_manager_setup_paths() {
    let ctx = BuildContext::for_testing("/src", "/stage", "/base");
    let plan = distro_builder::alpine::setup_device_manager(&ctx);
    assert_eq!(plan.dirs, vec!["/stage/dev", "/stage/run/udev"]);
    assert_eq!(plan.tree_copies[1], ("/src/usr/lib/udev/rules.d".to_string(), "/stage/usr/lib/udev/rules.d".to_string()));
    assert_eq!(plan.helpers_dst, "/stage/usr/lib/udev");
}

#[test]
fn first_present_binary_picks_first() {
    use_first_present();
}

fn use_first_present() {
    let first = distro_builder::alpine::first_present_binary;
    assert_eq!(first("ip", &vec![false, false, true, true]), Some("usr/sbin/ip".to_string()));
    assert_eq!(first("ls", &vec![true, true]), Some("usr/bin/ls".to_string()));
    assert_eq!(first("nope", &vec![false, false, false, false]), None);
    assert_eq!(first("nope", &vec![]), None);
}

#[test]
fn context_needs_rootfs_and_its_bin() {
    let c = BuildContext::context_from("/p", "/p/st", "acornos extract", true, true).unwrap();
    assert_eq!(c.source, "/p/downloads/rootfs");
    assert_eq!(c.staging, "/p/st");
    assert_eq!(c.output, "/p/output");
    for (a, b) in [(false, false), (true, false), (false, true)] {
        let e = BuildContext::context_from("/p", "/p/st", "acornos extract", a, b).unwrap_err();
        assert_eq!(
            e,
            ContextError::RootfsMissing { source: "/p/downloads/rootfs".to_string(), build_cmd: "acornos extract".to_string() }
        );
        assert_eq!(e.message(), "Alpine rootfs not found at /p/downloads/rootfs.\nRun 'acornos extract' first.");
    }
}

#[test]
fn from_base_dir_stages_into_output_rootfs() {
    match BuildContext::from_base_dir("/nonexistent-base-dir-for-tests", "acornos extract") {
        Err(ContextError::RootfsMissing { source, .. }) => {
            assert_eq!(source, "/nonexistent-base-dir-for-tests/downloads/rootfs")
        }
        Ok(c) => panic!("unexpected context {:?}", c),
    }
    let (c, dir) = BuildContext::from_base_dir_with("/p", "acornos extract", true, true).unwrap();
    assert_eq!(c.staging, "/p/output/rootfs");
    assert_eq!(dir, "/p/output/rootfs");
    assert_eq!(c.source, "/p/downloads/rootfs");
    assert!(BuildContext::from_base_dir_with("/p", "acornos extract", true, false).is_err());
}
