use distro_builder::disk::DiskImageConfig;
use distro_builder::disk::{
    assemble_disk, base_required_tools, build_disk_image_with_uuids, check_host_tools, create_efi_partition,
    create_root_partition, mtools_copy, mtools_mkdir, mtools_mkdir_args, required_tools, uuid_from, vfat_serial_from, CmdOutput,
    DiskError, DiskImageParams, DiskUuids, MtoolsOp, FIRST_PARTITION_OFFSET_SECTORS, SECTOR_SIZE,
};

fn uuids() -> DiskUuids {
    DiskUuids {
        root_fs_uuid: "11111111-2222-3333-4444-555555555555".to_string(),
        efi_fs_uuid: "ABCD-1234".to_string(),
        root_part_uuid: "aaaabbbb-cccc-dddd-eeee-ffff00001111".to_string(),
    }
}

#[test]
fn test_partition_constants() {
    assert_eq!(SECTOR_SIZE, 512);
    assert_eq!(FIRST_PARTITION_OFFSET_SECTORS, 2048);
}

#[test]
fn test_base_required_tools_list() {
    let tools = base_required_tools();
    assert!(!tools.is_empty());
    for (tool, package) in &tools {
        assert!(!tool.is_empty());
        assert!(!package.is_empty());
    }
}

#[test]
fn test_mtools_functions_exist() {
    let _ = mtools_mkdir_args("efi.img", "EFI");
    let _ = mtools_copy("efi.img", "src", "dest");
    assert!(true);
}

#[test]
fn test_partition_functions_exist() {
    let _ = create_root_partition("rootfs", "root.img", 1, &uuids());
    assert!(true);
}

#[test]
fn test_generate_vfat_serial_format() {
    let serial = vfat_serial_from("3f2a9c1e-77b0-4d2e-9a1b-0c3d4e5f6a7b\n").unwrap();
    assert_eq!(serial.len(), 9);
    assert_eq!(&serial[4..5], "-");
    assert_eq!(serial, "3F2A-9C1E");
    assert_eq!(vfat_serial_from("xyz-12"), None);
}

#[test]
fn missing_tools_are_listed() {
    let extra = vec![("qemu-img".to_string(), "qemu-img".to_string())];
    assert_eq!(required_tools(&extra).len(), 8);
    let mut present = vec![true; 8];
    assert!(check_host_tools(&extra, &present).is_ok());
    present[0] = false;
    present[7] = false;
    match check_host_tools(&extra, &present) {
        Err(DiskError::MissingTools { message }) => assert_eq!(
            message,
            "Missing required tools:\n  sfdisk (install: util-linux)\n  qemu-img (install: qemu-img)\n\nInstall them first."
        ),
        other => panic!("unexpected {:?}", other),
    }
}

#[test]
fn mmd_outcomes() {
    let ok = CmdOutput { success: true, stdout: String::new(), stderr: String::new(), exit_description: "exit 0".to_string() };
    assert!(mtools_mkdir("EFI", &ok).is_ok());
    let exists = CmdOutput {
        success: false,
        stdout: String::new(),
        stderr: "Directory EFI Already Exists\n".to_string(),
        exit_description: "exit status: 1".to_string(),
    };
    assert!(mtools_mkdir("EFI", &exists).is_ok());
    let fail = CmdOutput { success: false, stdout: String::new(), stderr: "Bad IMAGE".to_string(), exit_description: "exit status: 1".to_string() };
    assert_eq!(
        mtools_mkdir("EFI", &fail).unwrap_err(),
        DiskError::MkdirFailed { message: "mmd failed to create directory 'EFI': exit status: 1;  bad image".to_string() }
    );
    let silent = CmdOutput { success: false, stdout: String::new(), stderr: String::new(), exit_description: "exit status: 2".to_string() };
    assert_eq!(
        mtools_mkdir("EFI", &silent).unwrap_err(),
        DiskError::MkdirFailed { message: "mmd failed to create directory 'EFI': exit status: 2".to_string() }
    );
}

#[test]
fn efi_partition_plan() {
    let plan = create_efi_partition("efi.img", 256, &uuids(), "iuppiter.conf", "entry", "loader", "/k", "/i", "/boot.efi");
    assert_eq!(plan.size_bytes, 256 * 1024 * 1024);
    assert_eq!(plan.mkfs_args, vec!["-F", "32", "-n", "EFI", "-i", "ABCD1234", "efi.img"]);
    assert_eq!(plan.steps.len(), 11);
    match &plan.steps[8] {
        MtoolsOp::Write { dest, content } => {
            assert_eq!(dest, "loader/entries/iuppiter.conf");
            assert_eq!(content, "entry");
        },
        other => panic!("unexpected {:?}", other),
    }
}

#[test]
fn disk_assembly_layout() {
    let plan = assemble_disk("disk.raw", "efi.img", "root.img", 8, 256, &uuids());
    assert_eq!(plan.disk_size_bytes, 8 * 1024 * 1024 * 1024);
    assert_eq!(
        plan.sfdisk_script,
        "label: gpt\nstart=2048, size=524288, type=U, bootable\nstart=526336, type=L, uuid=AAAABBBB-CCCC-DDDD-EEEE-FFFF00001111\n"
    );
    assert_eq!(plan.dd_efi_args, vec!["if=efi.img", "of=disk.raw", "bs=1M", "conv=notrunc", "seek=1"]);
    assert_eq!(plan.dd_root_args[4], "seek=257");
}

#[test]
fn disk_image_plan_sizes_the_root_partition() {
    let params = DiskImageParams {
        boot_entry_filename: "x.conf".to_string(),
        boot_entry_content: "c".to_string(),
        loader_config_content: "l".to_string(),
        kernel_path: "/k".to_string(),
        initramfs_path: "/i".to_string(),
        bootloader_efi_path: "/b".to_string(),
        efi_size_mb: 512,
        disk_size_gb: 4,
        output_filename: "disk.img".to_string(),
    };
    let plan = build_disk_image_with_uuids(&params, "/staging", "/out", "/work", &uuids());
    assert_eq!(plan.root_size_mb, 4 * 1024 - 512 - 2);
    assert_eq!(plan.output_path, "/out/disk.img");
    assert_eq!(plan.copy_args, vec!["-a", "/staging", "/work/rootfs"]);
    assert_eq!(plan.mkfs_ext4_args[6], "/work/rootfs");
    assert_eq!(plan.work_dir, "/work");
    assert_eq!(plan.prepare_rootfs_dir, "/work/rootfs");
    assert_eq!(plan.prepare_rootfs_uuids.root_part_uuid, "aaaabbbb-cccc-dddd-eeee-ffff00001111");
    assert_eq!(plan.prepare_rootfs_uuids.root_fs_uuid, "11111111-2222-3333-4444-555555555555");
    assert_eq!(plan.boot_entry_partuuid, "aaaabbbb-cccc-dddd-eeee-ffff00001111");
    assert_eq!(plan.cleanup_dir, "/work");
    assert!(plan.assembly.sfdisk_script.contains("uuid=AAAABBBB-CCCC-DDDD-EEEE-FFFF00001111\n"));
}

struct TinyDisk;

impl DiskImageConfig for TinyDisk {
    fn hostname(&self) -> &str {
        "tiny"
    }
    fn boot_entry_filename(&self) -> &str {
        "tiny.conf"
    }
    fn boot_entry_content(&self, partuuid: &str) -> String {
        format!("title Tiny\noptions root=PARTUUID={partuuid}\n")
    }
    fn loader_config_content(&self) -> String {
        "default tiny.conf\n".to_string()
    }
    fn kernel_path(&self) -> &str {
        "/k/vmlinuz"
    }
    fn initramfs_path(&self) -> &str {
        "/k/initramfs.img"
    }
    fn bootloader_efi_path(&self) -> &str {
        "/k/systemd-bootx64.efi"
    }
    fn efi_size_mb(&self) -> u64 {
        256
    }
    fn disk_size_gb(&self) -> u32 {
        2
    }
    fn output_filename(&self) -> &str {
        "tiny.img"
    }
    fn prepare_rootfs(&self, _rootfs: &str, _uuids: &DiskUuids) -> Result<(), String> {
        Ok(())
    }
}

#[test]
fn disk_image_from_config() {
    let cfg = TinyDisk;
    assert!(cfg.extra_required_tools().is_empty());
    let u = uuids();
    let params = DiskImageParams {
        boot_entry_filename: cfg.boot_entry_filename().to_string(),
        boot_entry_content: cfg.boot_entry_content(&u.root_part_uuid),
        loader_config_content: cfg.loader_config_content(),
        kernel_path: cfg.kernel_path().to_string(),
        initramfs_path: cfg.initramfs_path().to_string(),
        bootloader_efi_path: cfg.bootloader_efi_path().to_string(),
        efi_size_mb: cfg.efi_size_mb(),
        disk_size_gb: cfg.disk_size_gb(),
        output_filename: cfg.output_filename().to_string(),
    };
    let plan = build_disk_image_with_uuids(&params, "/staging", "/out", "/work", &u);
    assert_eq!(plan.root_size_mb, 2 * 1024 - 256 - 2);
    assert_eq!(plan.output_path, "/out/tiny.img");
}

#[test]
fn uuidgen_output_is_trimmed_and_lower_cased() {
    assert_eq!(uuid_from("  3F2504E0-4F89-11D3-9A0C-0305E82C3301\n"), "3f2504e0-4f89-11d3-9a0c-0305e82c3301");
    assert_eq!(uuid_from("ÄB\n"), "äb");
}
