use cargo_gccrs::{DumpedOption, Error, GccrsConfig};

#[test]
fn config_os_info_valid() {
    assert_eq!(
        DumpedOption::from_str("unix").unwrap(),
        DumpedOption::OsInfo("unix".to_string())
    )
}

#[test]
fn config_target_kv_valid() {
    assert_eq!(
        DumpedOption::from_str("target_k: v").unwrap(),
        DumpedOption::TargetSpecific("target_k".to_string(), "v".to_string())
    )
}

#[test]
fn config_option_invalid() {
    assert!(DumpedOption::from_str("k: v0: v1").is_err())
}

#[test]
fn config_sorting() {
    let c0 = DumpedOption::from_str(r#"target_os="linux""#).unwrap();
    let c3 = DumpedOption::from_str(r#"unix"#).unwrap();
    let c2 = DumpedOption::from_str(r#"target_vendor="unknown""#).unwrap();
    let c1 = DumpedOption::from_str(r#"target_pointer_width="64""#).unwrap();

    let mut v = vec![c0.clone(), c3.clone(), c2.clone(), c1.clone()];
    v.sort();

    assert_eq!(v, vec![c0, c1, c2, c3]);
}

#[test]
fn dump_line_round_trip() {
    let t = DumpedOption::from_str("target_os: \"linux\"").unwrap();
    assert_eq!(
        t,
        DumpedOption::TargetSpecific("target_os".to_string(), "\"linux\"".to_string())
    );
    assert_eq!(t.display(), "target_os=\"linux\"");

    let o = DumpedOption::from_str("unix").unwrap();
    assert_eq!(o, DumpedOption::OsInfo("unix".to_string()));
    assert_eq!(o.display(), "unix");
}

#[test]
fn dump_value_trimming() {
    let t = DumpedOption::from_str("target_k:    spaced").unwrap();
    assert_eq!(
        t,
        DumpedOption::TargetSpecific("target_k".to_string(), "spaced".to_string())
    );
    let u = DumpedOption::from_str("a:b").unwrap();
    assert_eq!(
        u,
        DumpedOption::TargetSpecific("a".to_string(), "b".to_string())
    );
}

#[test]
fn render_ordering() {
    let cfg = GccrsConfig::new("unix\ntarget_os: \"linux\"\ntarget_pointer_width: \"64\"").unwrap();
    assert_eq!(
        cfg.display(),
        "target_os=\"linux\"target_pointer_width=\"64\"unix"
    );
}

#[test]
fn render_equal_keys() {
    let cfg = GccrsConfig::new("target_k: b\ntarget_k: a").unwrap();
    assert_eq!(cfg.display(), "target_k=atarget_k=b");
}

#[test]
fn render_empty_dump() {
    let cfg = GccrsConfig::new("").unwrap();
    assert_eq!(cfg.display(), "");
}

#[test]
fn bad_line_fails_whole_dump() {
    let r = GccrsConfig::new("unix\nk: v0: v1\ntarget_os: \"linux\"");
    assert!(matches!(r, Err(Error::InvalidCfgDump)));
}

#[test]
fn crlf_lines_accepted() {
    let cfg = GccrsConfig::new("target_k: v\r\nunix\r\n").unwrap();
    assert_eq!(cfg.display(), "target_k=vunix");
}

#[test]
fn error_messages() {
    assert_eq!(
        Error::InvalidArg("oops".to_string()).message(),
        "Invalid argument given to `gccrs`: oops"
    );
    assert_eq!(
        Error::Compile.message(),
        "Error when compiling project using `gccrs`"
    );
    assert_eq!(
        Error::InvalidCfgDump.message(),
        "Invalid configuration returned when executing `gccrs -frust-dump-*`"
    );
    assert_eq!(Error::Installation.message(), "`gccrs` must be installed");
}
