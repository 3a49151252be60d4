use catj::context::{CatBoxOption, HostEnvironment};
use catj::jail::{
    change_root, jail_target, teardown, working_directory, JailAction, MountFlags, SkipReason,
};
use catj::mount::{path_is_absolute, Canonical, MountPoint};
use catj::text::join;

fn host() -> HostEnvironment {
    HostEnvironment {
        user_name: "judge".to_string(),
        uid: 1000,
        gid: 1000,
        nobody_uid: 65534,
        nogroup_gid: 65534,
        current_dir: "/work".to_string(),
        variables: vec![("PATH".to_string(), "/usr/bin".to_string())],
    }
}

fn option_with(mounts: Vec<MountPoint>) -> CatBoxOption {
    let mut option = CatBoxOption::default("prog".to_string(), vec![], &host());
    option.mounts = mounts;
    option
}

const BIND: MountFlags = MountFlags { bind: true, recursive: true, remount: false, read_only: false };
const REMOUNT: MountFlags = MountFlags { bind: true, recursive: true, remount: true, read_only: false };
const SEAL: MountFlags = MountFlags { bind: true, recursive: true, remount: true, read_only: true };

fn s(text: &str) -> String {
    text.to_string()
}

/// The answer of a file system that was not asked.
fn unasked() -> Canonical {
    Err(s("not asked"))
}

/// The answer of a file system in which `path` has this canonical form.
fn found(path: &str) -> Canonical {
    Ok(s(path))
}

/// The answer of a file system in which the path does not exist.
fn missing() -> Canonical {
    Err(s("No such file or directory (os error 2)"))
}

#[test]
fn absolute_paths_are_recognised() {
    assert!(path_is_absolute("/"));
    assert!(path_is_absolute("/bin"));
    assert!(!path_is_absolute(""));
    assert!(!path_is_absolute("bin"));
    assert!(!path_is_absolute("./bin"));
}

#[test]
fn absolute_path_is_used_verbatim() {
    assert_eq!(MountPoint::canonicalize("/usr/lib", &unasked()).unwrap(), "/usr/lib");
    assert_eq!(MountPoint::canonicalize("/usr/../lib", &missing()).unwrap(), "/usr/../lib");
    assert_eq!(MountPoint::canonicalize("/usr/lib", &found("/elsewhere")).unwrap(), "/usr/lib");
}

#[test]
fn relative_path_takes_the_answer_of_the_file_system() {
    assert_eq!(MountPoint::canonicalize("data", &found("/work/data")).unwrap(), "/work/data");
    assert_eq!(MountPoint::canonicalize("x/../a", &found("/w/a")).unwrap(), "/w/a");
    assert_eq!(MountPoint::canonicalize("", &found("/work")).unwrap(), "/work");
}

#[test]
fn relative_path_that_does_not_exist_is_an_error() {
    let err = MountPoint::canonicalize("nowhere", &missing()).unwrap_err();
    assert_eq!(err.message(), "Unknown Error: No such file or directory (os error 2)");
    let err = MountPoint::canonicalize("", &missing()).unwrap_err();
    assert_eq!(err.message(), "Unknown Error: No such file or directory (os error 2)");
}

#[test]
fn pieces_of_a_mount_string() {
    assert_eq!(MountPoint::pieces("/data").unwrap(), (s("/data"), None));
    assert_eq!(MountPoint::pieces("in:/out").unwrap(), (s("in"), Some(s("/out"))));
    assert_eq!(MountPoint::pieces("").unwrap(), (s(""), None));
    assert_eq!(MountPoint::pieces(":").unwrap(), (s(""), Some(s(""))));
    let err = MountPoint::pieces("a:b:c").unwrap_err();
    assert_eq!(err.message(), "CLI Error: Wrong mount string format");
}

#[test]
fn default_mounts_are_the_system_directories() {
    let mounts = MountPoint::defaults();
    let names: Vec<&str> = mounts.iter().map(|m| m.src().as_str()).collect();
    assert_eq!(names, vec!["/bin", "/sbin", "/usr", "/etc", "/lib", "/lib64"]);
    for mount in &mounts {
        assert!(mount.read_only());
        assert_eq!(mount.src(), mount.dst());
    }
}

#[test]
fn read_and_write_mounts() {
    let r = MountPoint::read(s("/a"), s("/b"), &unasked(), &unasked());
    assert!(r.read_only());
    assert_eq!(r.src(), "/a");
    assert_eq!(r.dst(), "/b");
    let w = MountPoint::write(s("out"), s("/out"), &found("/work/out"), &unasked());
    assert!(!w.read_only());
    assert_eq!(w.src(), "/work/out");
    assert_eq!(w.dst(), "/out");
}

#[test]
fn relative_paths_of_a_mount_are_made_canonical() {
    let m = MountPoint::read(s("x/../a"), s("d"), &found("/w/a"), &found("/w/d"));
    assert_eq!(m.src(), "/w/a");
    assert_eq!(m.dst(), "/w/d");
    assert!(path_is_absolute(m.src()) && path_is_absolute(m.dst()));
    assert!(m.read_only());
}

#[test]
fn mount_string_with_one_path() {
    let m = MountPoint::parse_read(s("/data"), &unasked(), &unasked()).unwrap();
    assert!(m.read_only());
    assert_eq!(m.src(), "/data");
    assert_eq!(m.dst(), "/data");
}

#[test]
fn mount_string_with_two_paths() {
    let m = MountPoint::parse_write(s("/host:/jail"), &unasked(), &unasked()).unwrap();
    assert!(!m.read_only());
    assert_eq!(m.src(), "/host");
    assert_eq!(m.dst(), "/jail");
}

#[test]
fn mount_string_with_relative_paths() {
    let m = MountPoint::parse_read(s("in:out"), &found("/work/in"), &found("/work/out")).unwrap();
    assert_eq!(m.src(), "/work/in");
    assert_eq!(m.dst(), "/work/out");
    let one = MountPoint::parse_write(s("data"), &found("/work/data"), &found("/work/data")).unwrap();
    assert_eq!(one.src(), "/work/data");
    assert_eq!(one.dst(), "/work/data");
}

#[test]
fn mount_string_with_a_path_that_does_not_exist() {
    let gone = "Unknown Error: No such file or directory (os error 2)";
    let err = MountPoint::parse_read(s("in:/out"), &missing(), &unasked()).unwrap_err();
    assert_eq!(err.message(), gone);
    let err = MountPoint::parse_read(s("/in:out"), &unasked(), &missing()).unwrap_err();
    assert_eq!(err.message(), gone);
    let first = MountPoint::parse_read(s("in:out"), &Err(s("first")), &Err(s("second"))).unwrap_err();
    assert_eq!(first.message(), "Unknown Error: first");
    assert!(MountPoint::parse_write(s("nowhere"), &missing(), &missing()).is_err());
}

#[test]
fn mount_string_with_too_many_colons() {
    let err = MountPoint::parse_read(s("/a:/b:/c"), &unasked(), &unasked()).unwrap_err();
    assert_eq!(err.message(), "CLI Error: Wrong mount string format");
    assert!(MountPoint::parse_write(s("::"), &found("/x"), &found("/y")).is_err());
}

#[test]
fn target_lies_below_the_root() {
    assert_eq!(jail_target("/tmp/root", "/usr/lib"), "/tmp/root/usr/lib");
    assert_eq!(jail_target("/tmp/root/", "/usr"), "/tmp/root/usr");
    assert_eq!(jail_target("/tmp/root", "//usr"), "/tmp/root/usr");
    assert_eq!(jail_target("/tmp/root", "/"), "/tmp/root/");
}

#[test]
fn jail_plan_without_mounts() {
    let option = option_with(vec![]);
    let plan = change_root("/tmp/root", &option, &vec![]);
    assert_eq!(
        plan,
        vec![
            JailAction::Mount { source: Some(s("/tmp/root")), target: s("/tmp/root"), flags: BIND },
            JailAction::Mount { source: None, target: s("/tmp/root"), flags: REMOUNT },
            JailAction::ChangeRoot { root: s("/tmp/root") },
        ]
    );
}

#[test]
fn jail_plan_binds_and_seals_a_read_only_mount() {
    let option = option_with(vec![MountPoint::read(s("/usr"), s("/usr"), &unasked(), &unasked())]);
    let plan = change_root("/tmp/root", &option, &vec![true]);
    assert_eq!(
        plan,
        vec![
            JailAction::Mount { source: Some(s("/tmp/root")), target: s("/tmp/root"), flags: BIND },
            JailAction::Mount { source: None, target: s("/tmp/root"), flags: REMOUNT },
            JailAction::CreateDirectories { target: s("/tmp/root/usr") },
            JailAction::Mount { source: Some(s("/usr")), target: s("/tmp/root/usr"), flags: BIND },
            JailAction::Mount { source: None, target: s("/tmp/root/usr"), flags: SEAL },
            JailAction::ChangeRoot { root: s("/tmp/root") },
        ]
    );
}

#[test]
fn jail_plan_leaves_a_writable_mount_writable() {
    let option = option_with(vec![MountPoint::write(s("/host/out"), s("/out"), &unasked(), &unasked())]);
    let plan = change_root("/r", &option, &vec![true]);
    assert_eq!(
        plan,
        vec![
            JailAction::Mount { source: Some(s("/r")), target: s("/r"), flags: BIND },
            JailAction::Mount { source: None, target: s("/r"), flags: REMOUNT },
            JailAction::CreateDirectories { target: s("/r/out") },
            JailAction::Mount { source: Some(s("/host/out")), target: s("/r/out"), flags: BIND },
            JailAction::ChangeRoot { root: s("/r") },
        ]
    );
}

#[test]
fn mount_with_relative_destination_is_skipped_not_fatal() {
    let option = option_with(vec![
        MountPoint::read(s("/a"), s("rel"), &unasked(), &found("rel")),
        MountPoint::write(s("/b"), s("/b"), &unasked(), &unasked()),
    ]);
    let plan = change_root("/r", &option, &vec![true, true]);
    assert_eq!(
        plan,
        vec![
            JailAction::Mount { source: Some(s("/r")), target: s("/r"), flags: BIND },
            JailAction::Mount { source: None, target: s("/r"), flags: REMOUNT },
            JailAction::Skip { dst: s("rel"), reason: SkipReason::NotAbsolute },
            JailAction::CreateDirectories { target: s("/r/b") },
            JailAction::Mount { source: Some(s("/b")), target: s("/r/b"), flags: BIND },
            JailAction::ChangeRoot { root: s("/r") },
        ]
    );
}

#[test]
fn mount_onto_something_that_is_no_directory_is_skipped() {
    let option = option_with(vec![MountPoint::read(s("/a"), s("/a"), &unasked(), &unasked())]);
    let plan = change_root("/r", &option, &vec![false]);
    assert_eq!(
        plan,
        vec![
            JailAction::Mount { source: Some(s("/r")), target: s("/r"), flags: BIND },
            JailAction::Mount { source: None, target: s("/r"), flags: REMOUNT },
            JailAction::Skip { dst: s("/a"), reason: SkipReason::NotDirectory },
            JailAction::ChangeRoot { root: s("/r") },
        ]
    );
}

#[test]
fn working_directory_falls_back_to_the_root() {
    let mut option = option_with(vec![]);
    option.cwd = s("/work");
    assert_eq!(working_directory(&option, true), "/work");
    assert_eq!(working_directory(&option, false), "/");
}

#[test]
fn teardown_unmounts_targets_then_root() {
    let mounts = vec![
        MountPoint::read(s("/usr"), s("/usr"), &unasked(), &unasked()),
        MountPoint::read(s("/a"), s("rel"), &unasked(), &found("rel")),
        MountPoint::write(s("/out"), s("/out"), &unasked(), &unasked()),
    ];
    assert_eq!(teardown("/r", &mounts), vec!["/r/usr", "/r/out", "/r"]);
    assert_eq!(teardown("/r", &vec![]), vec!["/r"]);
}

#[test]
fn close_without_jail_unmounts_nothing() {
    let option = option_with(MountPoint::defaults());
    assert!(option.close().is_empty());
}

#[test]
fn close_with_jail_unmounts_every_mount_and_the_root() {
    let mut option = option_with(MountPoint::defaults());
    option.chroot = Some(s("/tmp/jail"));
    assert_eq!(
        option.close(),
        vec![
            "/tmp/jail/bin",
            "/tmp/jail/sbin",
            "/tmp/jail/usr",
            "/tmp/jail/etc",
            "/tmp/jail/lib",
            "/tmp/jail/lib64",
            "/tmp/jail",
        ]
    );
}

#[test]
fn close_in_debug_mode_keeps_the_jail() {
    let mut option = option_with(MountPoint::defaults());
    option.chroot = Some(s("/tmp/jail"));
    option.debug = true;
    assert!(option.close().is_empty());
}

#[test]
fn paths_agree_with_those_of_std() {
    let paths = ["", "a", "a/b", "/", "/a", "/a/b/", "./a", "../a", "//a"];
    for path in paths {
        assert_eq!(path_is_absolute(path), std::path::Path::new(path).is_absolute(), "{:?}", path);
    }
    for rel in ["", "a", "a/b", "./a", "../a"] {
        for base in ["", "/", "/work", "/work/", "rel", "rel/"] {
            let expected = std::path::Path::new(base).join(rel);
            assert_eq!(join(base, rel), expected.to_string_lossy(), "{:?} in {:?}", rel, base);
        }
    }
    for dst in ["/", "/a", "/a/b", "/usr/lib64"] {
        for root in ["/tmp/root", "/tmp/root/", "/"] {
            let rest = std::path::Path::new(dst).strip_prefix("/").unwrap();
            let expected = std::path::Path::new(root).join(rest);
            assert_eq!(jail_target(root, dst), expected.to_string_lossy(), "{:?} in {:?}", dst, root);
        }
    }
}
