use cargo_gccrs::{ArgsCollection, CrateType, EnvArgs, Error, RustcArgs};

fn parsed_with(
    crate_name: Option<&str>,
    out_dir: Option<&str>,
    c_options: Vec<&str>,
    crate_types: Vec<&str>,
    free: Vec<&str>,
) -> RustcArgs {
    RustcArgs {
        crate_name: crate_name.map(|s| s.to_string()),
        edition: None,
        error_format: None,
        out_dir: out_dir.map(|s| s.to_string()),
        emit: None,
        json: None,
        c_options: c_options.into_iter().map(|s| s.to_string()).collect(),
        lib_paths: Vec::new(),
        crate_types: crate_types.into_iter().map(|s| s.to_string()).collect(),
        cap_lints: Vec::new(),
        cfgs: Vec::new(),
        free: free.into_iter().map(|s| s.to_string()).collect(),
    }
}

#[test]
fn one_set_per_crate_type_in_order() {
    let p = parsed_with(
        Some("foo"),
        Some("/tmp/o"),
        vec![],
        vec!["staticlib", "bin", "dylib", "rlib"],
        vec!["main.rs"],
    );
    let c = ArgsCollection::try_from(&p).unwrap();
    assert_eq!(c.len(), 4);
    assert_eq!(c.get(0).crate_type(), CrateType::StaticLib);
    assert_eq!(c.get(1).crate_type(), CrateType::Bin);
    assert_eq!(c.get(2).crate_type(), CrateType::DyLib);
    assert_eq!(c.get(3).crate_type(), CrateType::Unknown);
}

#[test]
fn bin_output_path() {
    let p = parsed_with(Some("foo"), Some("/tmp/o"), vec![], vec!["bin"], vec![]);
    let c = ArgsCollection::try_from(&p).unwrap();
    assert_eq!(
        c.get(0).output_file().as_deref(),
        Some("/tmp/o/foo")
    );
}

#[test]
fn library_output_paths() {
    let p = parsed_with(
        Some("foo"),
        Some("/tmp/o"),
        vec![],
        vec!["dylib", "staticlib"],
        vec![],
    );
    let c = ArgsCollection::try_from(&p).unwrap();
    assert_eq!(c.get(0).output_file().as_deref(), Some("/tmp/o/libfoo.so"));
    assert_eq!(c.get(1).output_file().as_deref(), Some("/tmp/o/libfoo.a"));
    assert_eq!(
        c.get(1).object_file_name().as_deref(),
        Some("/tmp/o/libfoo.a.tmp.o")
    );
}

#[test]
fn unknown_crate_type_has_no_output() {
    let p = parsed_with(Some("foo"), Some("/tmp/o"), vec![], vec!["rlib"], vec!["a.rs"]);
    let c = ArgsCollection::try_from(&p).unwrap();
    assert_eq!(c.get(0).output_file(), &None);
    assert_eq!(c.get(0).object_file_name(), None);
    // Only the sources and the extra arguments pass through.
    let flags = c.get(0).as_args(&vec!["-g".to_string()]);
    assert_eq!(flags, vec!["a.rs".to_string(), "-g".to_string()]);
}

#[test]
fn extra_filename_last_wins() {
    let p = parsed_with(
        Some("foo"),
        Some("/tmp/o"),
        vec!["extra-filename=-abc123", "opt-level=2", "extra-filename=-xyz"],
        vec!["bin"],
        vec![],
    );
    let c = ArgsCollection::try_from(&p).unwrap();
    assert_eq!(c.get(0).output_file().as_deref(), Some("/tmp/o/foo-xyz"));
}

#[test]
fn extra_filename_single() {
    let p = parsed_with(
        Some("foo"),
        Some("/tmp/o"),
        vec!["extra-filename=-abc123"],
        vec!["staticlib"],
        vec![],
    );
    let c = ArgsCollection::try_from(&p).unwrap();
    assert_eq!(
        c.get(0).output_file().as_deref(),
        Some("/tmp/o/libfoo-abc123.a")
    );
}

#[test]
fn missing_crate_name_rejected() {
    let p = parsed_with(None, Some("/tmp/o"), vec![], vec!["bin"], vec![]);
    match ArgsCollection::try_from(&p) {
        Err(Error::InvalidArg(m)) => assert_eq!(m, "no `--crate-name` provided"),
        _ => panic!("expected an invalid-argument error"),
    }
}

#[test]
fn missing_out_dir_rejected() {
    let p = parsed_with(
        Some("foo"),
        None,
        vec!["extra-filename=-x"],
        vec!["staticlib", "bin"],
        vec!["main.rs"],
    );
    match ArgsCollection::try_from(&p) {
        Err(Error::InvalidArg(m)) => assert_eq!(m, "no `--out-dir` provided"),
        _ => panic!("expected an invalid-argument error"),
    }
}

#[test]
fn empty_request_builds_nothing() {
    let p = parsed_with(None, None, vec![], vec![], vec!["main.rs"]);
    let c = ArgsCollection::try_from(&p).unwrap();
    assert_eq!(c.len(), 0);
}

#[test]
fn formatted_flags_per_crate_type() {
    let p = parsed_with(
        Some("foo"),
        Some("/tmp/o"),
        vec![],
        vec!["bin", "dylib", "staticlib"],
        vec!["src/main.rs"],
    );
    let c = ArgsCollection::try_from(&p).unwrap();
    let extra = vec!["-Wall".to_string()];
    assert_eq!(
        c.get(0).as_args(&extra),
        vec!["src/main.rs", "-Wall", "-fPIE", "-pie", "-o", "/tmp/o/foo"]
    );
    assert_eq!(
        c.get(1).as_args(&extra),
        vec!["src/main.rs", "-Wall", "-fPIC", "-shared", "-o", "/tmp/o/libfoo.so"]
    );
    assert_eq!(
        c.get(2).as_args(&extra),
        vec!["src/main.rs", "-Wall", "-c", "-o", "/tmp/o/libfoo.a.tmp.o"]
    );
}

#[test]
fn env_args_keys_and_splitting() {
    assert_eq!(EnvArgs::Ar.as_key(), "AR_EXTRA_ARGS");
    assert_eq!(EnvArgs::Gcc.as_key(), "GCCRS_EXTRA_ARGS");
    assert_eq!(EnvArgs::Gcc.as_args(None), None);
    assert_eq!(
        EnvArgs::Gcc.as_args(Some("-Werror -g".to_string())),
        Some(vec!["-Werror".to_string(), "-g".to_string()])
    );
    // Any whitespace separates, runs of it count once, and an empty or
    // all-whitespace value carries no arguments.
    assert_eq!(
        EnvArgs::Gcc.as_args(Some(" -Werror\t\t-g ".to_string())),
        Some(vec!["-Werror".to_string(), "-g".to_string()])
    );
    assert_eq!(EnvArgs::Ar.as_args(Some(String::new())), Some(Vec::new()));
    assert_eq!(EnvArgs::Ar.as_args(Some("  \t ".to_string())), Some(Vec::new()));
}
