use distro_builder::context::DistroConfig;
use distro_builder::context::{InitSystem, PackageManager, SimpleBuildContext};
use distro_builder::paths::{path_file_name, path_join, path_parent, path_strip_prefix};
use distro_builder::runs::{
    base62_encode_u128, generate_stage_run_id, kernel_output_dir_for, output_dir_for, product_release_dir_for,
    stage_output_dir_for,
};

#[test]
fn output_layout() {
    assert_eq!(output_dir_for("/repo", "levitate"), "/repo/.artifacts/out/levitate");
    assert_eq!(stage_output_dir_for("/repo", "levitate", "s01"), "/repo/.artifacts/out/levitate/s01");
    assert_eq!(product_release_dir_for("/repo", "levitate", "live-tools"), "/repo/.artifacts/out/levitate/releases/live-tools");
    assert!(product_release_dir_for("/repo", "levitate", "live-tools").ends_with("levitate/releases/live-tools"));
    assert_eq!(kernel_output_dir_for("/repo", "acorn"), "/repo/.artifacts/kernel/acorn/current");
}

#[test]
fn run_ids() {
    assert_eq!(base62_encode_u128(0), "0");
    assert_eq!(base62_encode_u128(61), "z");
    assert_eq!(base62_encode_u128(62), "10");
    let id = generate_stage_run_id(1_700_000_000_000_000_000, 1234, 7).unwrap();
    assert!(id.len() <= 20 && !id.is_empty());
    assert_eq!(generate_stage_run_id(0, 0, 0).unwrap(), "0");
    let a = generate_stage_run_id(1_000, 1, 1).unwrap();
    let b = generate_stage_run_id(2_000, 1, 1).unwrap();
    assert!(a.len() < b.len() || (a.len() == b.len() && a < b));
}

#[test]
fn path_helpers() {
    assert_eq!(path_join("/a/", "b"), "/a/b");
    assert_eq!(path_join("/a", "/b"), "/b");
    assert_eq!(path_file_name("/a/b/"), Some("b".to_string()));
    assert_eq!(path_parent("/a/b"), Some("/a".to_string()));
    assert_eq!(path_parent("/"), None);
    assert_eq!(path_strip_prefix("/a/b/c", "/a"), Some("b/c".to_string()));
    assert_eq!(path_strip_prefix("/ab", "/a"), None);
}

#[test]
fn context_names() {
    assert_eq!(InitSystem::Systemd.name(), "systemd");
    assert_eq!(InitSystem::OpenRC.name(), "OpenRC");
    let c = SimpleBuildContext::new("/s".to_string(), "/t".to_string(), "/b".to_string(), "/o".to_string());
    assert_eq!(c.staging, "/t");
    assert_ne!(PackageManager::Apk, PackageManager::Rpm);
}

struct Acorn;

impl distro_builder::kernel::KernelInstallConfig for Acorn {
    fn module_install_path(&self) -> &str {
        "/lib/modules"
    }
    fn kernel_filename(&self) -> &str {
        "vmlinuz-lts"
    }
}

impl distro_builder::context::DistroConfig for Acorn {
    fn os_name(&self) -> &str {
        "AcornOS"
    }
    fn os_id(&self) -> &str {
        "acornos"
    }
    fn iso_label(&self) -> &str {
        "ACORNOS"
    }
    fn boot_modules(&self) -> Vec<String> {
        vec!["erofs".to_string(), "overlay".to_string()]
    }
    fn default_shell(&self) -> &str {
        "/bin/ash"
    }
    fn init_system(&self) -> InitSystem {
        InitSystem::OpenRC
    }
}

#[test]
fn distro_config_names_its_init_system() {
    let c = Acorn;
    assert_eq!(c.init_system().name(), "OpenRC");
    assert_eq!(c.boot_modules().len(), 2);
    assert_eq!(distro_builder::kernel::module_base(distro_builder::kernel::KernelInstallConfig::module_install_path(&c)), "lib/modules");
}

#[test]
fn run_ids_sort_by_time() {
    let a = generate_stage_run_id(1_700_000_000_000_000_000, 4242, 1).unwrap();
    let b = generate_stage_run_id(1_700_000_000_000_000_001, 4242, 0).unwrap();
    let c = generate_stage_run_id(1_800_000_000_000_000_000, 7, 9).unwrap();
    assert_eq!(a.len(), b.len());
    assert_eq!(b.len(), c.len());
    assert!(a < b && b < c);
    assert_eq!(base62_encode_u128(61), "z");
    assert_eq!(base62_encode_u128(62), "10");
}
