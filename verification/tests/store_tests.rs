use distro_builder::store::{
    central_output_dir_for_distro, gc_plan, hex_lower, is_hex_64, list_kind_order, prune_keep_last, put_kernel_payload,
    read_input_key, referenced_blobs, sha256_hex, try_restore_file_from_key, try_restore_kernel_payload_from_key,
    validate_key, validate_kind, validate_sha256, ArtifactFormat, ArtifactStore, IndexEntry, StoreError,
};

const SHA_HELLO: &str = "2cf24dba5fb0a30e26e83b2ac5b9e29e1b161e5c1fa7425e73043362938b9824";

fn entry(key: &str, sha: &str, at: u64) -> IndexEntry {
    IndexEntry {
        kind: "rootfs_erofs".to_string(),
        input_key: key.to_string(),
        blob_sha256: sha.to_string(),
        format: ArtifactFormat::File,
        size_bytes: 5,
        stored_at_unix: at,
    }
}

#[test]
fn sha256_of_hello() {
    assert_eq!(sha256_hex(b"hello"), SHA_HELLO);
    assert!(is_hex_64(&sha256_hex(b"")));
    assert_eq!(hex_lower(&vec![0x00, 0xff, 0x0a]), "00ff0a");
}

#[test]
fn store_layout() {
    let store = ArtifactStore::open("/repo");
    assert_eq!(store.root(), "/repo/.artifacts");
    assert_eq!(store.layout_dirs(), vec!["/repo/.artifacts/blobs/sha256", "/repo/.artifacts/index", "/repo/.artifacts/tmp", "/repo/.artifacts/locks"]);
    assert_eq!(store.index_path("kernel_payload", "cafebabe").unwrap(), "/repo/.artifacts/index/kernel_payload/cafebabe.json");
    assert_eq!(store.lock_path("k", "deadbeef").unwrap(), "/repo/.artifacts/locks/k/deadbeef.lock");
    assert_eq!(store.blob_path(SHA_HELLO).unwrap(), format!("/repo/.artifacts/blobs/sha256/2c/{}", SHA_HELLO));
    assert_eq!(ArtifactStore::open_for_distro("/repo/AcornOS").root(), "/repo/.artifacts");
}

#[test]
fn validation_errors() {
    assert_eq!(validate_kind("").unwrap_err(), StoreError::EmptyKind);
    assert_eq!(validate_kind("a/b").unwrap_err(), StoreError::KindHasSeparator { kind: "a/b".to_string() });
    assert_eq!(validate_kind("a..b").unwrap_err(), StoreError::KindHasDotDot { kind: "a..b".to_string() });
    assert!(validate_kind("rootfs_erofs").is_ok());
    assert_eq!(validate_key("").unwrap_err(), StoreError::EmptyKey);
    assert_eq!(validate_key("../x").unwrap_err(), StoreError::UnsafeKey);
    assert_eq!(validate_sha256("abc").unwrap_err(), StoreError::InvalidSha256 { value: "abc".to_string() });
    assert!(validate_sha256(&SHA_HELLO.to_uppercase()).is_ok());
}

#[test]
fn materialize_checks_the_digest() {
    let store = ArtifactStore::open("/repo");
    let e = entry("deadbeef", SHA_HELLO, 1);
    assert_eq!(
        store.materialize_to("rootfs_erofs", "deadbeef", None, true, SHA_HELLO).unwrap_err(),
        StoreError::NotStored { kind: "rootfs_erofs".to_string(), input_key: "deadbeef".to_string() }
    );
    assert!(matches!(store.materialize_to("rootfs_erofs", "deadbeef", Some(&e), false, SHA_HELLO), Err(StoreError::BlobMissing { .. })));
    assert!(matches!(store.materialize_to("rootfs_erofs", "deadbeef", Some(&e), true, &"0".repeat(64)), Err(StoreError::HashMismatch { .. })));
    let (blob, format) = store.materialize_to("rootfs_erofs", "deadbeef", Some(&e), true, &sha256_hex(b"hello")).unwrap();
    assert_eq!(format, ArtifactFormat::File);
    assert!(blob.ends_with(SHA_HELLO));
}

#[test]
fn kernel_payload_restore_checks_format() {
    let store = ArtifactStore::open("/repo");
    let e = entry("k", SHA_HELLO, 1);
    assert_eq!(
        store.restore_kernel_payload("k", "/stage", Some(&e), SHA_HELLO).unwrap_err(),
        StoreError::UnexpectedFormat { format: ArtifactFormat::File }
    );
    let mut t = entry("k", SHA_HELLO, 1);
    t.format = ArtifactFormat::TarZst;
    let (_, clear) = store.restore_kernel_payload("k", "/stage", Some(&t), SHA_HELLO).unwrap();
    assert_eq!(clear, vec!["/stage/boot/vmlinuz", "/stage/lib/modules", "/stage/usr/lib/modules"]);
}

#[test]
fn kernel_payload_takes_lib_modules_first() {
    let plan = put_kernel_payload("key", "/stage", true, true, true).unwrap();
    assert_eq!(plan.rel_modules, "lib/modules");
    let plan = put_kernel_payload("key", "/stage", true, false, true).unwrap();
    assert_eq!(plan.modules_dir, "/stage/usr/lib/modules");
    assert_eq!(put_kernel_payload("key", "/stage", false, true, true).unwrap_err(), StoreError::KernelMissing { path: "/stage/boot/vmlinuz".to_string() });
    assert!(matches!(put_kernel_payload("key", "/stage", true, false, false), Err(StoreError::ModulesMissing { .. })));
    assert_eq!(put_kernel_payload("a/b", "/stage", true, true, true).unwrap_err(), StoreError::UnsafeKey);
}

#[test]
fn central_output_names() {
    assert_eq!(central_output_dir_for_distro("/repo/leviso"), "/repo/.artifacts/out/levitate");
    assert_eq!(central_output_dir_for_distro("/repo/AcornOS"), "/repo/.artifacts/out/acorn");
    assert_eq!(central_output_dir_for_distro("/repo/Other"), "/repo/.artifacts/out/Other");
}

#[test]
fn input_keys_and_restores() {
    assert_eq!(read_input_key(Some("  abc\n")), Some("abc".to_string()));
    assert_eq!(read_input_key(Some(" \n")), None);
    assert_eq!(read_input_key(None), None);
    assert_eq!(try_restore_file_from_key(true, Some("abc")), None);
    assert_eq!(try_restore_file_from_key(false, Some("abc\n")), Some("abc".to_string()));
    assert_eq!(try_restore_kernel_payload_from_key(false, Some("")), None);
}

#[test]
fn listing_prune_and_gc() {
    let entries = vec![entry("a", SHA_HELLO, 10), entry("b", SHA_HELLO, 30), entry("c", &"1".repeat(64), 20)];
    let sorted = list_kind_order(entries);
    let keys: Vec<&str> = sorted.iter().map(|e| e.input_key.as_str()).collect();
    assert_eq!(keys, vec!["b", "c", "a"]);
    assert_eq!(prune_keep_last(&sorted, 1).unwrap(), vec!["c".to_string(), "a".to_string()]);
    assert_eq!(prune_keep_last(&sorted, 5).unwrap(), Vec::<String>::new());
    assert_eq!(prune_keep_last(&sorted, 0).unwrap_err(), StoreError::KeepLastZero);
    let referenced = referenced_blobs(&sorted);
    assert_eq!(referenced.len(), 2);
    let names = vec![SHA_HELLO.to_string(), "2".repeat(64), "README".to_string()];
    assert_eq!(gc_plan(&names, &referenced), vec!["2".repeat(64)]);
}
