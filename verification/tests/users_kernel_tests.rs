use distro_builder::kernel::{build_jobs, kernel_build_steps, KernelBuildStep};
use distro_builder::kernel::{
    apply_kernel_config, build_kernel, get_kernel_version, install_kernel, is_kernel_module_file, kconfig_hash,
    kernel_make_args, module_base, need_config_regen, parse_makefile_version, KernelBuildError, KernelVersionError,
};
use distro_builder::sshd::configure_sshd;
use distro_builder::users::{
    ensure_group, ensure_user, handle_group, handle_user, read_gid_from_rootfs, read_uid_from_rootfs, UserDbError,
};

#[test]
fn test_read_uid_from_rootfs() {
    let passwd = "root:x:0:0:root:/root:/bin/bash\ndbus:x:81:81:System message bus:/:/sbin/nologin\n";
    assert_eq!(read_uid_from_rootfs(Some(passwd), "root").unwrap(), Some((0, 0)));
    assert_eq!(read_uid_from_rootfs(Some(passwd), "dbus").unwrap(), Some((81, 81)));
    assert_eq!(read_uid_from_rootfs(Some(passwd), "nonexistent").unwrap(), None);
    assert_eq!(read_uid_from_rootfs(None, "root").unwrap(), None);
}

#[test]
fn test_read_gid_from_rootfs() {
    let group = "root:x:0:\ndbus:x:81:\n";
    assert_eq!(read_gid_from_rootfs(Some(group), "root").unwrap(), Some(0));
    assert_eq!(read_gid_from_rootfs(Some(group), "dbus").unwrap(), Some(81));
    assert_eq!(read_gid_from_rootfs(Some(group), "nonexistent").unwrap(), None);
}

#[test]
fn bad_ids_are_reported() {
    assert_eq!(
        read_uid_from_rootfs(Some("u:x:abc:1:::\n"), "u").unwrap_err(),
        UserDbError::InvalidUid { name: "u".to_string(), value: "abc".to_string() }
    );
    assert_eq!(
        read_gid_from_rootfs(Some("g:x:-1:\n"), "g").unwrap_err(),
        UserDbError::InvalidGid { name: "g".to_string(), value: "-1".to_string() }
    );
}

#[test]
fn test_ensure_user_creates_entry() {
    let out = ensure_user("", None, "testuser", 1000, 1000, "/home/testuser", "/bin/bash").unwrap().unwrap();
    assert!(out.contains("testuser:x:1000:1000:testuser:/home/testuser:/bin/bash"));
}

#[test]
fn test_ensure_user_uses_source_uid() {
    let source = "testuser:x:1234:5678:Test:/home/testuser:/bin/sh\n";
    let out = ensure_user("", Some(source), "testuser", 1000, 1000, "/home/testuser", "/bin/bash").unwrap().unwrap();
    assert!(out.contains("testuser:x:1234:5678"));
}

#[test]
fn test_ensure_user_idempotent() {
    let once = ensure_user("", None, "testuser", 1000, 1000, "/home/testuser", "/bin/bash").unwrap().unwrap();
    assert_eq!(ensure_user(&once, None, "testuser", 1000, 1000, "/home/testuser", "/bin/bash").unwrap(), None);
    assert_eq!(once.matches("testuser:x:").count(), 1);
}

#[test]
fn test_ensure_group_creates_entry() {
    let out = ensure_group("", None, "testgroup", 1000).unwrap().unwrap();
    assert!(out.contains("testgroup:x:1000:"));
}

#[test]
fn test_handle_user() {
    let out = handle_user("", None, "myuser", 1001, 1001, "/home/myuser", "/bin/sh").unwrap().unwrap();
    assert!(out.contains("myuser:x:1001:1001:myuser:/home/myuser:/bin/sh"));
    assert_eq!(read_uid_from_rootfs(Some(&out), "myuser").unwrap(), Some((1001, 1001)));
}

#[test]
fn test_handle_group() {
    let out = handle_group("", None, "mygroup", 1001).unwrap().unwrap();
    assert!(out.contains("mygroup:x:1001:"));
    assert_eq!(read_gid_from_rootfs(Some(&out), "mygroup").unwrap(), Some(1001));
}

#[test]
fn test_apply_kernel_config_new_options() {
    let result = apply_kernel_config("CONFIG_FOO=y\nCONFIG_BAR=n\n", "CONFIG_BAR=y\nCONFIG_BAZ=m\n");
    assert!(result.contains("CONFIG_FOO=y"));
    assert!(result.contains("CONFIG_BAR=y"));
    assert!(result.contains("CONFIG_BAZ=m"));
    assert_eq!(result.matches("CONFIG_BAR").count(), 1);
}

#[test]
fn test_apply_kernel_config_comments_ignored() {
    let result = apply_kernel_config("", "# This is a comment\nCONFIG_TEST=y\n\n# Another comment\n");
    assert!(result.contains("CONFIG_TEST=y"));
    assert!(!result.contains("# This is a comment"));
}

#[test]
fn kernel_version_sources() {
    assert_eq!(get_kernel_version(Some("6.12.0-levitate\n"), None).unwrap(), "6.12.0-levitate");
    let makefile = "VERSION = 6\nPATCHLEVEL = 12\nSUBLEVEL = 3\nEXTRAVERSION = -rc1\n";
    assert_eq!(parse_makefile_version(makefile), Some("6.12.3-rc1".to_string()));
    assert_eq!(get_kernel_version(None, Some(makefile)).unwrap(), "6.12.3-rc1");
    assert_eq!(get_kernel_version(None, Some("VERSION = 6\n")).unwrap_err(), KernelVersionError::Undetermined);
    assert_eq!(module_base("//usr/lib/modules"), "usr/lib/modules");
}

#[test]
fn kernel_build_plan() {
    let h = kconfig_hash("CONFIG_X=y\n");
    assert_eq!(h.len(), 64);
    assert!(need_config_regen(false, Some(&h), &h));
    assert!(!need_config_regen(true, Some(&format!(" {}\n", h)), &h));
    let plan = build_kernel("/linux", "/out", "CONFIG_X=y\n", true, true).unwrap();
    assert_eq!(plan.build_dir, "/out/kernel-build");
    assert_eq!(plan.build_dir_arg, "O=/out/kernel-build");
    assert_eq!(plan.kconfig_hash, h);
    assert_eq!(build_kernel("/linux", "/out", "", false, true).unwrap_err(), KernelBuildError::SourceMissing { kernel_source: "/linux".to_string() });
    assert_eq!(build_kernel("/linux", "/out", "", true, false).unwrap_err(), KernelBuildError::NoMakefile);
    assert_eq!(kernel_make_args("/linux", "O=/b", "olddefconfig"), vec!["-C", "/linux", "O=/b", "olddefconfig"]);
}

#[test]
fn kernel_install_plan() {
    let plan =
        install_kernel("/linux", "/out", "/work/staging", "/usr/lib/modules", "vmlinuz", Some("6.1.0\n"), None, true).unwrap();
    assert_eq!(plan.version, "6.1.0");
    assert_eq!(plan.staging, "/work/staging");
    assert_eq!(plan.temp_staging, "/work/staging.tmp");
    assert_eq!(plan.kernel_dest, "/work/staging.tmp/boot/vmlinuz");
    assert_eq!(plan.final_modules_dir, "/work/staging.tmp/usr/lib/modules/6.1.0");
    assert!(plan.move_from_lib_modules);
    assert_eq!(plan.make_args[3], "INSTALL_MOD_PATH=/work/staging.tmp");
    assert!(matches!(install_kernel("/linux", "/out", "/w/s", "/lib/modules", "vmlinuz", Some("6"), None, false), Err(KernelBuildError::NotBuilt { .. })));
    assert!(matches!(
        install_kernel("/linux", "/out", "/w/s", "/lib/modules", "vmlinuz", None, Some("NAME = x\n"), true),
        Err(KernelBuildError::VersionUndetermined)
    ));
    let mk = "VERSION = 6\nPATCHLEVEL = 12\nSUBLEVEL = 3\nEXTRAVERSION =\n";
    let plan = install_kernel("/linux", "/out", "/w/s", "/lib/modules", "vmlinuz", None, Some(mk), true).unwrap();
    assert_eq!(plan.version, "6.12.3");
    assert_eq!(plan.final_modules_dir, "/w/staging.tmp/lib/modules/6.12.3");
    assert!(!plan.move_from_lib_modules);
    assert!(is_kernel_module_file("ext4.ko"));
    assert!(is_kernel_module_file("ext4.ko.xz"));
    assert!(!is_kernel_module_file(".ko"));
    assert!(!is_kernel_module_file("modules.dep"));
}

#[test]
fn sshd_live_configuration() {
    let once = configure_sshd("");
    assert_eq!(once, "\nPermitRootLogin yes\nPasswordAuthentication yes\nPubkeyAuthentication yes\n");
    assert_eq!(configure_sshd(&once), once);
    let c = configure_sshd("#PermitRootLogin prohibit-password\nPermitRootLogin no\n");
    assert!(c.starts_with("#PermitRootLogin prohibit-password\n#PermitRootLogin no\nPermitRootLogin yes\n"));
}

#[test]
fn user_named_inside_another_entry_is_still_added() {
    let passwd = "xroot:x:0:0:xroot:/root:/bin/sh\n";
    let out = ensure_user(passwd, None, "root", 0, 0, "/root", "/bin/sh").unwrap().unwrap();
    assert_eq!(out, "xroot:x:0:0:xroot:/root:/bin/sh\nroot:x:0:0:root:/root:/bin/sh\n");
    assert_eq!(ensure_user(&out, None, "root", 0, 0, "/root", "/bin/sh").unwrap(), None);
}

#[test]
fn group_named_inside_another_entry_is_still_added() {
    let group = "audio:x:29:pulse:\n";
    let out = ensure_group(group, None, "pulse", 71).unwrap().unwrap();
    assert_eq!(out, "audio:x:29:pulse:\npulse:x:71:\n");
}

#[test]
fn kernel_build_runs_the_make_sequence() {
    let plan = build_kernel("/linux", "/out", "CONFIG_X=y\n", true, true).unwrap();
    let describe = |steps: &Vec<KernelBuildStep>| -> Vec<String> {
        steps
            .iter()
            .map(|s| match s {
                KernelBuildStep::Make { args } => format!("make {}", args.join(" ")),
                KernelBuildStep::ApplyConfig { config_path, kconfig } => format!("apply {} {}", config_path, kconfig.len()),
                KernelBuildStep::WriteHash { path, hash } => format!("hash {} {}", path, hash.len()),
                KernelBuildStep::ReadVersion { build_dir } => format!("version {}", build_dir),
            })
            .collect()
    };
    let full = kernel_build_steps("/linux", "CONFIG_X=y\n", &plan, true, build_jobs(Some(8)));
    assert_eq!(
        describe(&full),
        vec![
            "make -C /linux O=/out/kernel-build x86_64_defconfig",
            "apply /out/kernel-build/.config 11",
            "make -C /linux O=/out/kernel-build olddefconfig",
            "hash /out/kernel-build/.config.kconfig-hash 64",
            "make -C /linux O=/out/kernel-build olddefconfig",
            "make -C /linux O=/out/kernel-build -j8",
            "make -C /linux O=/out/kernel-build -j8 modules",
            "version /out/kernel-build",
        ]
    );
    let reuse = kernel_build_steps("/linux", "CONFIG_X=y\n", &plan, false, build_jobs(None));
    assert_eq!(
        describe(&reuse),
        vec![
            "make -C /linux O=/out/kernel-build olddefconfig",
            "make -C /linux O=/out/kernel-build -j4",
            "make -C /linux O=/out/kernel-build -j4 modules",
            "version /out/kernel-build",
        ]
    );
}
