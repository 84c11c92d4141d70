use distro_builder::executor::{
    copy_init_script, enable_service, executable_mode, execute_generic_op, extract_library_path, handle_copyfile,
    handle_copytree, handle_dir, handle_dirmode, handle_dirs, handle_symlink, handle_writefile, handle_writefilemode,
    library_copies, write_conf, ExecError, FsAction, Op, OpenrcError,
};

#[test]
fn test_extract_library_path() {
    assert_eq!(
        extract_library_path("\tlibc.musl-x86_64.so.1 => /lib/ld-musl-x86_64.so.1 (0x7f...)"),
        Some("/lib/ld-musl-x86_64.so.1".to_string())
    );
    assert_eq!(extract_library_path("\tlinux-vdso.so.1"), None);
    assert_eq!(extract_library_path(""), None);
}

#[test]
fn relative_ldd_targets_are_ignored() {
    assert_eq!(extract_library_path("libfoo.so => not found"), None);
    assert_eq!(extract_library_path("a => b => /c"), None);
}

#[test]
fn ldd_output_becomes_copies() {
    let out = "\tlinux-vdso.so.1 (0x1)\n\tlibc.so.6 => /lib64/libc.so.6 (0x2)\n";
    let copies = library_copies("/src", "/stage", out);
    assert_eq!(copies, vec![("/src/lib64/libc.so.6".to_string(), "/stage/lib64/libc.so.6".to_string())]);
}

#[test]
fn test_execute_generic_op_bin_fails() {
    let result = execute_generic_op("/source", "/staging", &Op::Bin("ls".into()));
    assert!(result.is_err());
    assert!(result.unwrap_err().message().contains("distro-specific"));
    assert_eq!(execute_generic_op("/s", "/t", &Op::Custom("x".into())).unwrap_err(), ExecError::CustomNeedsDistro);
}

#[test]
fn test_execute_generic_op_dir() {
    match execute_generic_op("/source", "/staging", &Op::Dir("etc/test".into())).unwrap().as_slice() {
        [FsAction::CreateDir { path }] => assert_eq!(path, "/staging/etc/test"),
        other => panic!("unexpected {:?}", other),
    }
}

#[test]
fn test_execute_generic_op_writefile() {
    let acts = execute_generic_op("/source", "/staging", &Op::WriteFile("config.txt".into(), "hello world".into())).unwrap();
    match acts.as_slice() {
        [FsAction::CreateDir { path: d }, FsAction::WriteFile { path, content }] => {
            assert_eq!(d, "/staging");
            assert_eq!(path, "/staging/config.txt");
            assert_eq!(content, "hello world");
        },
        other => panic!("unexpected {:?}", other),
    }
}

#[test]
fn test_execute_generic_op_user() {
    let op = Op::User { name: "testuser".into(), uid: 1000, gid: 1000, home: "/home/testuser".into(), shell: "/bin/bash".into() };
    match execute_generic_op("/source", "/staging", &op).unwrap().as_slice() {
        [FsAction::EnsureUser { name, uid, .. }] => {
            assert_eq!(name, "testuser");
            assert_eq!(*uid, 1000);
        },
        other => panic!("unexpected {:?}", other),
    }
}

#[test]
fn symlink_and_copies() {
    let acts = execute_generic_op("/s", "/t", &Op::Symlink("bin".into(), "usr/bin".into())).unwrap();
    assert!(matches!(&acts[1], FsAction::ReplaceWithSymlink { link, target } if link == "/t/bin" && target == "usr/bin"));
    match handle_copytree("/s", "/t", "etc/systemd", true).unwrap() {
        FsAction::CopyTree { src, dst } => assert_eq!((src.as_str(), dst.as_str()), ("/s/etc/systemd", "/t/etc/systemd")),
        other => panic!("unexpected {:?}", other),
    }
    let acts = execute_generic_op("/s", "/t", &Op::Dirs(vec!["etc".into(), "var/log".into()])).unwrap();
    assert_eq!(acts.len(), 2);
}

#[test]
fn test_enable_service() {
    let (dir, link, target) = enable_service("/stage", "sshd", "default");
    assert_eq!(dir, "/stage/etc/runlevels/default");
    assert_eq!(link, "/stage/etc/runlevels/default/sshd");
    assert_eq!(target, "/etc/init.d/sshd");
}

#[test]
fn test_enable_service_idempotent() {
    assert_eq!(enable_service("/stage", "sshd", "default"), enable_service("/stage", "sshd", "default"));
}

#[test]
fn test_copy_init_script_missing() {
    let result = copy_init_script("/src", "/stage", "nonexistent", false);
    assert!(result.is_err());
    assert_eq!(result.unwrap_err(), OpenrcError::InitScriptMissing { path: "/src/etc/init.d/nonexistent".to_string() });
}

#[test]
fn present_init_script_is_copied_to_staging() {
    assert_eq!(
        copy_init_script("/src", "/stage", "sshd", true).unwrap(),
        ("/src/etc/init.d/sshd".to_string(), "/stage/etc/init.d/sshd".to_string())
    );
    assert_eq!(executable_mode(0o644), 0o755);
}

#[test]
fn test_write_conf() {
    assert_eq!(write_conf("/stage", "sshd"), "/stage/etc/conf.d/sshd");
}

fn created_dir(a: &FsAction) -> String {
    match a {
        FsAction::CreateDir { path } => path.clone(),
        other => panic!("expected a directory, got {:?}", other),
    }
}

#[test]
fn test_handle_dir_creates_nested_structure() {
    let acts = handle_dir("/staging", "var/lib/deeply/nested/directory");
    assert_eq!(acts.len(), 1);
    assert_eq!(created_dir(&acts[0]), "/staging/var/lib/deeply/nested/directory", "Directory should be created");
}

#[test]
fn test_handle_dirmode_sets_permissions() {
    let acts = handle_dirmode("/staging", "restricted_dir", 0o700);
    assert_eq!(acts.len(), 2);
    assert_eq!(created_dir(&acts[0]), "/staging/restricted_dir");
    match &acts[1] {
        FsAction::SetMode { path, mode } => {
            assert_eq!(path, "/staging/restricted_dir");
            assert_eq!(*mode & 0o777, 0o700, "Permissions should be 0o700");
        }
        other => panic!("unexpected {:?}", other),
    }
}

#[test]
fn test_handle_dirs_creates_multiple() {
    let paths = ["etc", "var/log", "usr/bin", "tmp"];
    let owned: Vec<String> = paths.iter().map(|p| p.to_string()).collect();
    let acts = handle_dirs("/staging", &owned);
    assert_eq!(acts.len(), paths.len());
    for (a, path) in acts.iter().zip(paths.iter()) {
        assert_eq!(created_dir(a), format!("/staging/{}", path), "{} should exist", path);
    }
}

#[test]
fn test_handle_dir_idempotent() {
    let first = handle_dir("/staging", "test_dir");
    let second = handle_dir("/staging", "test_dir");
    assert_eq!(created_dir(&first[0]), created_dir(&second[0]));
    assert_eq!(created_dir(&second[0]), "/staging/test_dir");
}

#[test]
fn test_handle_writefile_creates_content() {
    let acts = handle_writefile("/staging", "etc/test-config.conf", "test-content-12345\nline two\n");
    assert_eq!(acts.len(), 2);
    assert_eq!(created_dir(&acts[0]), "/staging/etc");
    match &acts[1] {
        FsAction::WriteFile { path, content } => {
            assert_eq!(path, "/staging/etc/test-config.conf", "File should be created");
            assert_eq!(content, "test-content-12345\nline two\n");
        }
        other => panic!("unexpected {:?}", other),
    }
}

#[test]
fn test_handle_writefilemode_sets_permissions() {
    let acts = handle_writefilemode("/staging", "secret.txt", "secret content", 0o600);
    assert_eq!(acts.len(), 3);
    assert_eq!(created_dir(&acts[0]), "/staging");
    match (&acts[1], &acts[2]) {
        (FsAction::WriteFile { path, content }, FsAction::SetMode { path: p2, mode }) => {
            assert_eq!(path, "/staging/secret.txt");
            assert_eq!(content, "secret content");
            assert_eq!(p2, "/staging/secret.txt");
            assert_eq!(*mode & 0o777, 0o600);
        }
        other => panic!("unexpected {:?}", other),
    }
}

#[test]
fn test_handle_symlink_creates_link() {
    let acts = handle_symlink("/staging", "bin", "usr/bin");
    assert_eq!(acts.len(), 2);
    assert_eq!(created_dir(&acts[0]), "/staging");
    match &acts[1] {
        FsAction::ReplaceWithSymlink { link, target } => {
            assert_eq!(link, "/staging/bin", "Should be a symlink");
            assert_eq!(target, "usr/bin");
        }
        other => panic!("unexpected {:?}", other),
    }
}

#[test]
fn test_handle_symlink_overwrites_existing() {
    // The link is always replaced, so a second call with a new target wins.
    let _ = handle_symlink("/staging", "link", "original_target");
    let acts = handle_symlink("/staging", "link", "new_target");
    match &acts[1] {
        FsAction::ReplaceWithSymlink { link, target } => {
            assert_eq!(link, "/staging/link");
            assert_eq!(target, "new_target");
        }
        other => panic!("unexpected {:?}", other),
    }
}

#[test]
fn test_handle_copyfile_copies_file() {
    let acts = handle_copyfile("/source", "/staging", "etc/config.txt", true).unwrap();
    assert_eq!(acts.len(), 2);
    assert_eq!(created_dir(&acts[0]), "/staging/etc");
    match &acts[1] {
        FsAction::CopyFile { src, dst } => {
            assert_eq!(src, "/source/etc/config.txt");
            assert_eq!(dst, "/staging/etc/config.txt", "File should be copied");
        }
        other => panic!("unexpected {:?}", other),
    }
}

#[test]
fn test_handle_copyfile_missing_file() {
    let result = handle_copyfile("/source", "/staging", "nonexistent.txt", false);
    assert!(result.is_err(), "Should fail for missing file");
    assert_eq!(result.unwrap_err(), "file not found: /source/nonexistent.txt");
}

#[test]
fn copytree_of_missing_directory_is_refused() {
    assert_eq!(handle_copytree("/s", "/t", "etc/missing", false).unwrap_err(), "directory not found: /s/etc/missing");
}
