use distro_builder::artifact::{
    build_cpio, create_efi_dirs_in_fat, create_erofs, create_fat16_image, create_fhs_dirs, create_fhs_structure,
    create_initramfs_dirs,
    create_merged_usr_symlinks, create_overlayfs_erofs, create_var_symlinks,
    iso_checksum_line, mcopy_to_fat, setup_iso_structure, standard_busybox_commands, ErofsError, InitramfsOptions,
    IsoOptions, SquashfsOptions,
};
use distro_builder::clock::{format_utc_compact, now_utc_compact};
use distro_builder::overlay::{
    create_openrc_live_overlay, create_systemd_live_overlay, InittabVariant, LiveOverlayConfig, OverlayStep,
    SystemdLiveOverlayConfig,
};
use distro_builder::tarball::tar_entries;

#[test]
fn iso_option_presets() {
    let o = IsoOptions::uefi_only("LABEL", "OS");
    assert!(o.uefi && !o.bios);
    assert_eq!(o.cmdline, "");
    let h = IsoOptions::hybrid("LABEL", "OS");
    assert!(h.uefi && h.bios);
    let s = SquashfsOptions::default();
    assert_eq!((s.compression, s.block_size, s.xattrs), ("gzip", "1M", false));
    let i = InitramfsOptions::default();
    assert_eq!(i.gzip_level, 6);
    assert!(i.busybox_commands.is_empty());
    assert_eq!(standard_busybox_commands().len(), 23);
}

#[test]
fn cpio_pipeline() {
    assert_eq!(
        build_cpio("/root", "/out/x.cpio.gz", 6),
        "cd /root && find . -print0 | cpio --null -o -H newc 2>/dev/null | gzip -6 > /out/x.cpio.gz"
    );
}

#[test]
fn test_source_dir_validation() {
    let result = create_erofs("/nonexistent_path_12345", "/tmp/test.erofs", "zstd", 6, 1048576, false, false, true);
    assert!(result.is_err());
    assert!(result.unwrap_err().message().contains("does not exist"));
}

#[test]
fn test_source_not_directory() {
    let result = create_erofs("/dev/null", "/tmp/test.erofs", "zstd", 6, 1048576, true, false, true);
    assert!(result.is_err());
    assert!(result.unwrap_err().message().contains("not a directory"));
}

#[test]
fn erofs_arguments() {
    let plan = create_erofs("/src", "/out/fs.erofs", "zstd", 6, 1048576, true, true, true).unwrap();
    assert_eq!(plan.output_parent.as_deref(), Some("/out"));
    assert_eq!(plan.args, vec!["-z", "zstd,6", "-C", "1048576", "--all-root", "-T0", "/out/fs.erofs", "/src"]);
    assert_eq!(create_erofs("/src", "/o", "lz4", 1, 4096, true, true, false).unwrap_err(), ErofsError::ToolMissing);
    assert!(create_overlayfs_erofs("/src", "/o", "lz4", 1, 4096, true, true, true).is_ok());
}

#[test]
fn test_setup_iso_structure() {
    let dirs = setup_iso_structure("/tmp/iso-root");
    assert_eq!(dirs, vec!["/tmp/iso-root/boot", "/tmp/iso-root/live", "/tmp/iso-root/EFI/BOOT"]);
}

#[test]
fn fat_image_commands() {
    let (dd, mkfs) = create_fat16_image("/tmp/efiboot.img", 16);
    assert_eq!(dd, vec!["if=/dev/zero", "of=/tmp/efiboot.img", "bs=1M", "count=16"]);
    assert_eq!(mkfs, vec!["-F", "16", "/tmp/efiboot.img"]);
    let (a, b) = create_efi_dirs_in_fat("/e.img");
    assert_eq!(a[2], "::EFI");
    assert_eq!(b[2], "::EFI/BOOT");
    assert_eq!(mcopy_to_fat("/e.img", "/x.efi", "::EFI/BOOT/"), vec!["-i", "/e.img", "/x.efi", "::EFI/BOOT/"]);
    assert_eq!(iso_checksum_line("abc123  /out/distro.iso\n", "/out/distro.iso"), Some("abc123  distro.iso\n".to_string()));
    assert_eq!(iso_checksum_line("", "/out/distro.iso"), None);
}

#[test]
fn test_create_fhs_structure() {
    let plan = create_fhs_structure("/root");
    assert_eq!(plan.dirs.len(), 19);
    assert_eq!(plan.dirs[0], "/root/usr/bin");
    assert_eq!(plan.dirs[18], "/root/dev/pts");
    assert_eq!(plan.usr_links[3], ("/root/lib64".to_string(), "usr/lib64".to_string()));
    assert_eq!(plan.var_links[1], ("/root/var/lock".to_string(), "/run/lock".to_string()));
}

#[test]
fn timestamps() {
    assert_eq!(format_utc_compact(2024, 3, 7, 9, 5, 0), "20240307T090500Z");
    assert_eq!(format_utc_compact(-5, 12, 31, 23, 59, 59), "-0051231T235959Z");
    let now = now_utc_compact();
    assert_eq!(now.len(), 16);
    assert!(now.ends_with('Z'));
}

#[test]
fn openrc_overlay_steps() {
    let cfg = LiveOverlayConfig { os_name: "AcornOS", inittab: InittabVariant::SerialOnly, profile_overlay: None, issue_message: None };
    let plan = create_openrc_live_overlay("/out", &cfg);
    assert_eq!(plan.live_overlay, "/out/live-overlay");
    let issue = plan.steps.iter().find_map(|s| match s {
        OverlayStep::WriteFile { path, content, .. } if path == "/out/live-overlay/etc/issue" => Some(content.clone()),
        _ => None,
    });
    assert_eq!(issue.unwrap(), "\nAcornOS Live - \\l\n\nLogin as 'root' (no password)\n\n");
    let inittab = plan.steps.iter().find_map(|s| match s {
        OverlayStep::WriteFile { path, content, .. } if path.ends_with("etc/inittab") => Some(content.clone()),
        _ => None,
    });
    assert!(inittab.unwrap().starts_with("# /etc/inittab - AcornOS Live (headless appliance)\n"));
    assert!(plan.steps.iter().any(|s| matches!(s, OverlayStep::WriteFile { path, mode: Some(0o640), .. } if path.ends_with("etc/shadow"))));
}

#[test]
fn systemd_overlay_steps() {
    let masked = ["systemd-firstboot.service"];
    let cfg = SystemdLiveOverlayConfig {
        os_name: "LevitateOS",
        issue_message: Some("hello\n"),
        masked_units: &masked,
        write_serial_test_profile: true,
        machine_id: None,
        enforce_utf8_locale_profile: false,
    };
    let plan = create_systemd_live_overlay("/out", &cfg);
    assert!(plan.steps.iter().any(|s| matches!(s, OverlayStep::Symlink { target, link }
        if target == "/dev/null" && link == "/out/live-overlay/etc/systemd/system/systemd-firstboot.service")));
    assert!(plan.steps.iter().any(|s| matches!(s, OverlayStep::WriteFile { path, content, .. }
        if path.ends_with("etc/issue") && content == "hello\n")));
    assert!(!plan.steps.iter().any(|s| matches!(s, OverlayStep::WriteFile { path, .. } if path.ends_with("lang.sh"))));
    assert!(matches!(plan.steps.last().unwrap(), OverlayStep::WriteFile { path, content, .. }
        if path.ends_with(".live-payload-role") && content == "overlay\n"));
}

#[test]
fn tar_entries_are_sorted() {
    let walked = vec!["/s".to_string(), "/s/b".to_string(), "/s/a/x".to_string(), "/s/a".to_string()];
    let entries = tar_entries("/s", &walked);
    let names: Vec<&str> = entries.iter().map(|e| e.name.as_str()).collect();
    assert_eq!(names, vec!["a", "a/x", "b"]);
    assert_eq!(entries[0].path, "/s/a");
}

#[test]
fn test_create_fhs_dirs() {
    let dirs = create_fhs_dirs("/t");
    assert!(dirs.contains(&"/t/usr/bin".to_string()));
    assert!(dirs.contains(&"/t/usr/sbin".to_string()));
    assert!(dirs.contains(&"/t/etc".to_string()));
    assert!(dirs.contains(&"/t/var/log".to_string()));
}

#[test]
fn test_create_merged_usr_symlinks() {
    let links = create_merged_usr_symlinks("/t");
    assert!(links.contains(&("/t/bin".to_string(), "usr/bin".to_string())));
    assert!(links.contains(&("/t/sbin".to_string(), "usr/sbin".to_string())));
}

#[test]
fn test_create_var_symlinks() {
    let (var_dir, links) = create_var_symlinks("/t");
    assert_eq!(var_dir, "/t/var");
    assert!(links.iter().any(|(l, _)| l == "/t/var/run"));
    assert!(links.iter().any(|(l, _)| l == "/t/var/lock"));
}

#[test]
fn test_create_initramfs_dirs() {
    let extra = vec!["media/cdrom".to_string(), "overlay".to_string()];
    let dirs = create_initramfs_dirs("/tmp/initramfs", &extra);
    assert!(dirs.contains(&"/tmp/initramfs/bin".to_string()));
    assert!(dirs.contains(&"/tmp/initramfs/dev".to_string()));
    assert!(dirs.contains(&"/tmp/initramfs/proc".to_string()));
    assert!(dirs.contains(&"/tmp/initramfs/media/cdrom".to_string()));
    assert!(dirs.contains(&"/tmp/initramfs/overlay".to_string()));
    assert_eq!(dirs.len(), 14);
    assert_eq!(dirs[11], "/tmp/initramfs/newroot");
}
