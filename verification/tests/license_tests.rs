use distro_builder::context::PackageManager;
use distro_builder::licenses::{parse_apk_owner, parse_rpm_owner, strip_apk_version, LicenseStep, LicenseTracker};

fn settle_binary(tracker: &mut LicenseTracker, binary: &str) {
    loop {
        match tracker.register_binary(binary) {
            LicenseStep::Done => break,
            LicenseStep::Query(path) => tracker.record_query(&path, None),
        }
    }
}

#[test]
fn test_register_package_directly() {
    let mut tracker = LicenseTracker::new("/nonexistent".to_string(), PackageManager::Rpm);
    tracker.register_package("linux-firmware");
    tracker.register_package("tzdata");
    tracker.register_package("kbd");
    assert_eq!(tracker.package_count(), 3);
}

#[test]
fn test_deduplicates_packages() {
    let mut tracker = LicenseTracker::new("/nonexistent".to_string(), PackageManager::Rpm);
    tracker.register_package("bash");
    tracker.register_package("bash");
    tracker.register_package("bash");
    assert_eq!(tracker.package_count(), 1);
}

#[test]
fn test_unknown_binaries_ignored() {
    let mut tracker = LicenseTracker::new("/nonexistent".to_string(), PackageManager::Rpm);
    settle_binary(&mut tracker, "nonexistent-binary");
    assert_eq!(tracker.package_count(), 0);
}

#[test]
fn test_apk_tracker_creation() {
    let mut tracker = LicenseTracker::new("/nonexistent".to_string(), PackageManager::Apk);
    tracker.register_package("busybox");
    assert_eq!(tracker.package_count(), 1);
}

#[test]
fn test_unknown_binaries_ignored_apk() {
    let mut tracker = LicenseTracker::new("/nonexistent".to_string(), PackageManager::Apk);
    settle_binary(&mut tracker, "nonexistent-binary");
    assert_eq!(tracker.package_count(), 0);
}

#[test]
fn owned_binary_is_registered_once_and_cached() {
    let mut tracker = LicenseTracker::new("/src".to_string(), PackageManager::Apk);
    assert_eq!(tracker.register_binary("ls"), LicenseStep::Query("usr/bin/ls".to_string()));
    tracker.record_query("usr/bin/ls", Some("coreutils".to_string()));
    assert_eq!(tracker.register_binary("ls"), LicenseStep::Done);
    assert_eq!(tracker.register_binary("ls"), LicenseStep::Done);
    assert!(tracker.has_package("coreutils"));
    assert_eq!(tracker.package_count(), 1);
    let (prog, args) = tracker.query_args("usr/bin/ls");
    assert_eq!(prog, "apk");
    assert_eq!(args, vec!["info", "--root", "/src", "-W", "/usr/bin/ls"]);
    let copies = tracker.copy_licenses("/src", "/stage");
    assert_eq!(copies.len(), 1);
    assert_eq!(copies[0].candidates, vec!["/src/usr/share/licenses/coreutils", "/src/usr/share/doc/coreutils"]);
    assert_eq!(copies[0].destination, "/stage/usr/share/licenses/coreutils");
}

#[test]
fn library_search_follows_package_manager() {
    let mut tracker = LicenseTracker::new("/src".to_string(), PackageManager::Rpm);
    assert_eq!(tracker.register_library("libc.so.6"), LicenseStep::Query("usr/lib64/libc.so.6".to_string()));
    tracker.record_query("usr/lib64/libc.so.6", None);
    assert_eq!(tracker.register_library("libc.so.6"), LicenseStep::Query("usr/lib/libc.so.6".to_string()));
    tracker.record_query("usr/lib/libc.so.6", Some("glibc".to_string()));
    assert_eq!(tracker.register_library("libc.so.6"), LicenseStep::Done);
    assert_eq!(tracker.package_count(), 1);
}

#[test]
fn package_database_answers_are_parsed() {
    assert_eq!(parse_apk_owner("/usr/bin/ls is owned by coreutils-9.4-r1\n"), Some("coreutils".to_string()));
    assert_eq!(parse_rpm_owner("bash\n"), Some("bash".to_string()));
    assert_eq!(parse_rpm_owner("file /x is not owned by any package\n"), None);
}

#[test]
fn test_strip_apk_version_simple() {
    assert_eq!(strip_apk_version("busybox-1.36.1-r2"), Some("busybox".into()));
}

#[test]
fn test_strip_apk_version_with_subpackage() {
    assert_eq!(strip_apk_version("musl-dev-1.2.4-r0"), Some("musl-dev".into()));
}

#[test]
fn test_strip_apk_version_hyphen_digit_in_name() {
    assert_eq!(strip_apk_version("font-adobe-75dpi-1.0.3-r2"), Some("font-adobe-75dpi".into()));
}

#[test]
fn test_strip_apk_version_100dpi() {
    assert_eq!(strip_apk_version("font-adobe-100dpi-1.0.3-r2"), Some("font-adobe-100dpi".into()));
}

#[test]
fn test_strip_apk_version_musl() {
    assert_eq!(strip_apk_version("musl-1.2.4-r0"), Some("musl".into()));
}

#[test]
fn test_strip_apk_version_openrc() {
    assert_eq!(strip_apk_version("openrc-0.52-r1"), Some("openrc".into()));
}

#[test]
fn test_strip_apk_version_no_revision() {
    assert_eq!(strip_apk_version("busybox-1.36.1"), Some("busybox".into()));
}

#[test]
fn test_strip_apk_version_empty() {
    assert_eq!(strip_apk_version(""), None);
}

#[test]
fn test_strip_apk_version_openssh() {
    assert_eq!(strip_apk_version("openssh-server-9.6_p1-r0"), Some("openssh-server".into()));
}
