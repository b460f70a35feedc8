use cargo_gccrs::{BuildPlan, Dispatcher, Error, Gccrs, RustcArgs};

fn strings(v: Vec<&str>) -> Vec<String> {
    v.into_iter().map(|s| s.to_string()).collect()
}

fn bin_and_staticlib_dispatcher() -> Dispatcher {
    let args = strings(vec![
        "cargo-gccrs",
        "rustc",
        "--crate-name",
        "foo",
        "--out-dir",
        "/tmp/o",
        "--crate-type",
        "bin",
        "--crate-type",
        "staticlib",
        "main.rs",
    ]);
    match Gccrs::compile_with_rust_args(&args, &Vec::new(), &Vec::new()).unwrap() {
        BuildPlan::Build(d) => d,
        BuildPlan::ConfigQuery => panic!("expected a build plan"),
    }
}

#[test]
fn bin_then_staticlib_runs_three_commands() {
    let mut d = bin_and_staticlib_dispatcher();

    let c = d.next_command().unwrap();
    assert_eq!(c.program, "gccrs");
    assert_eq!(c.args, strings(vec!["main.rs", "-fPIE", "-pie", "-o", "/tmp/o/foo"]));
    d.advance(true).unwrap();

    let c = d.next_command().unwrap();
    assert_eq!(c.program, "gccrs");
    assert_eq!(
        c.args,
        strings(vec!["main.rs", "-c", "-o", "/tmp/o/libfoo.a.tmp.o"])
    );
    d.advance(true).unwrap();

    let c = d.next_command().unwrap();
    assert_eq!(c.program, "ar");
    assert_eq!(
        c.args,
        strings(vec!["rcs", "/tmp/o/libfoo.a", "/tmp/o/libfoo.a.tmp.o"])
    );
    d.advance(true).unwrap();

    assert!(d.next_command().is_none());
}

#[test]
fn first_failure_halts_the_sequence() {
    let mut d = bin_and_staticlib_dispatcher();

    let c = d.next_command().unwrap();
    assert_eq!(c.program, "gccrs");
    let r = d.advance(false);
    assert!(matches!(r, Err(Error::Compile)));
    // The static-library compile and the archive run are never handed out.
    assert!(d.next_command().is_none());
}

#[test]
fn extra_env_args_reach_both_commands() {
    let args = strings(vec![
        "cargo-gccrs",
        "rustc",
        "--crate-name",
        "foo",
        "--out-dir",
        "/tmp/o",
        "--crate-type",
        "staticlib",
        "lib.rs",
    ]);
    let gcc_extra = strings(vec!["-Werror"]);
    let ar_extra = strings(vec!["v"]);
    let mut d = match Gccrs::compile_with_rust_args(&args, &gcc_extra, &ar_extra).unwrap() {
        BuildPlan::Build(d) => d,
        BuildPlan::ConfigQuery => panic!("expected a build plan"),
    };

    let c = d.next_command().unwrap();
    assert_eq!(
        c.args,
        strings(vec!["lib.rs", "-Werror", "-c", "-o", "/tmp/o/libfoo.a.tmp.o"])
    );
    d.advance(true).unwrap();

    let c = d.next_command().unwrap();
    assert_eq!(
        c.args,
        strings(vec!["rcs", "/tmp/o/libfoo.a", "/tmp/o/libfoo.a.tmp.o", "v"])
    );
}

#[test]
fn stdin_invocation_is_a_config_query() {
    let args = strings(vec!["cargo-gccrs", "rustc", "-", "other"]);
    let plan = Gccrs::compile_with_rust_args(&args, &Vec::new(), &Vec::new()).unwrap();
    assert!(matches!(plan, BuildPlan::ConfigQuery));
}

#[test]
fn handle_rust_args_matches_compile_with_rust_args() {
    let args = strings(vec!["cargo-gccrs", "rustc", "-"]);
    let plan = Gccrs::handle_rust_args(&args, &Vec::new(), &Vec::new()).unwrap();
    assert!(matches!(plan, BuildPlan::ConfigQuery));
}

#[test]
fn unrecognized_flag_is_an_invalid_argument() {
    let args = strings(vec!["cargo-gccrs", "rustc", "--no-such-flag", "main.rs"]);
    let r = Gccrs::compile_with_rust_args(&args, &Vec::new(), &Vec::new());
    assert!(matches!(r, Err(Error::InvalidArg(_))));
}

#[test]
fn grammar_extracts_registered_options() {
    let args = strings(vec![
        "cargo-gccrs",
        "rustc",
        "--crate-name",
        "foo",
        "--edition",
        "2018",
        "--error-format=json",
        "--json=artifacts",
        "--emit=dep-info,link",
        "--out-dir",
        "/tmp/o",
        "-Copt-level=2",
        "-C",
        "extra-filename=-h123",
        "-L",
        "dependency=/tmp/deps",
        "--crate-type",
        "bin",
        "--cap-lints",
        "allow",
        "--cfg",
        "feature=\"default\"",
        "src/main.rs",
    ]);
    let p = RustcArgs::try_from(&args).unwrap();
    assert_eq!(p.crate_name.as_deref(), Some("foo"));
    assert_eq!(p.edition.as_deref(), Some("2018"));
    assert_eq!(p.error_format.as_deref(), Some("json"));
    assert_eq!(p.json.as_deref(), Some("artifacts"));
    assert_eq!(p.emit.as_deref(), Some("dep-info,link"));
    assert_eq!(p.out_dir.as_deref(), Some("/tmp/o"));
    assert_eq!(p.c_options, strings(vec!["opt-level=2", "extra-filename=-h123"]));
    assert_eq!(p.lib_paths, strings(vec!["dependency=/tmp/deps"]));
    assert_eq!(p.crate_types, strings(vec!["bin"]));
    assert_eq!(p.cap_lints, strings(vec!["allow"]));
    assert_eq!(p.cfgs, strings(vec!["feature=\"default\""]));
    assert_eq!(p.free, strings(vec!["src/main.rs"]));
}

#[test]
fn dump_config_command_shape() {
    let c = Gccrs::dump_config_command();
    assert_eq!(c.program, "gccrs");
    assert_eq!(c.args, strings(vec!["-x", "rs", "-frust-dump-target_options", "-"]));
}

#[test]
fn maybe_install_reports_a_missing_compiler() {
    match Gccrs::maybe_install() {
        Ok(()) => {}
        Err(e) => assert!(matches!(e, Error::Installation)),
    }
}
