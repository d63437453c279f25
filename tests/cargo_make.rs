use wdk::cargo_make::{
    append_to_space_delimited, prepend_to_semicolon_delimited, toolchain_arg,
    wdf_build_output_dir, BaseOptions, CompilationOptions, FeatureOptions, ManifestOptions,
    UsageError, WorkspaceOptions,
};

fn strings(v: &[&str]) -> Vec<String> {
    v.iter().map(|s| s.to_string()).collect()
}

#[test]
fn quiet_and_verbose_exclude_each_other() {
    let both = BaseOptions { quiet: true, verbose: 1 };
    assert_eq!(both.forwarded_args(), Err(UsageError::QuietWithVerbose));
    let quiet = BaseOptions { quiet: true, verbose: 0 };
    assert_eq!(quiet.forwarded_args(), Ok(strings(&["--quiet"])));
    let verbose = BaseOptions { quiet: false, verbose: 3 };
    assert_eq!(verbose.forwarded_args(), Ok(strings(&["-vvv"])));
    let none = BaseOptions { quiet: false, verbose: 0 };
    assert_eq!(none.forwarded_args(), Ok(Vec::new()));
}

#[test]
fn packages_and_exclusions_are_listed() {
    let w = WorkspaceOptions {
        package: strings(&["a", "b"]),
        workspace: true,
        all: true,
        exclude: strings(&["c"]),
    };
    assert_eq!(
        w.forwarded_args(),
        Ok(strings(&["--package a --package b", "--workspace", "--exclude c", "--all"]))
    );
}

#[test]
fn exclude_needs_workspace() {
    let w = WorkspaceOptions {
        package: Vec::new(),
        workspace: false,
        all: false,
        exclude: strings(&["c"]),
    };
    assert_eq!(w.forwarded_args(), Err(UsageError::ExcludeWithoutWorkspace));
}

#[test]
fn features_are_listed() {
    let f = FeatureOptions {
        all_features: true,
        no_default_features: true,
        features: strings(&["x", "y"]),
    };
    assert_eq!(
        f.forwarded_args(),
        strings(&["--all-features", "--no-default-features", "--features x --features y"])
    );
    let none = FeatureOptions { all_features: false, no_default_features: false, features: Vec::new() };
    assert!(none.forwarded_args().is_empty());
}

#[test]
fn manifest_flags_are_forwarded() {
    let m = ManifestOptions { frozen: true, locked: false, offline: true };
    assert_eq!(m.forwarded_args(), strings(&["--frozen", "--offline"]));
}

fn compilation(
    release: bool,
    profile: Option<&str>,
    timings: Option<Option<&str>>,
) -> CompilationOptions {
    CompilationOptions {
        release,
        profile: profile.map(|p| p.to_string()),
        jobs: Some("4".to_string()),
        target: Some("x86_64-pc-windows-msvc".to_string()),
        timings: timings.map(|t| t.map(|v| v.to_string())),
    }
}

#[test]
fn release_and_profile_exclude_each_other() {
    let c = compilation(true, Some("dev"), None);
    assert_eq!(c.forwarded_args(&"dev".to_string()).err(), Some(UsageError::ReleaseWithProfile));
}

#[test]
fn release_make_profile_conflicts_with_another_profile() {
    let c = compilation(false, Some("dev"), None);
    assert_eq!(
        c.forwarded_args(&"release".to_string()).err(),
        Some(UsageError::ProfileConflict { profile: "dev".to_string() })
    );
    let same = compilation(false, Some("release"), None);
    let f = same.forwarded_args(&"release".to_string()).unwrap();
    assert_eq!(
        f.flags,
        strings(&["--profile release", "--jobs 4", "--target x86_64-pc-windows-msvc"])
    );
    assert_eq!(f.printed, strings(&["CARGO_MAKE_CRATE_TARGET_TRIPLE=x86_64-pc-windows-msvc"]));
}

#[test]
fn release_is_forwarded_under_other_make_profiles() {
    let c = compilation(true, None, Some(None));
    let f = c.forwarded_args(&"development".to_string()).unwrap();
    assert_eq!(
        f.flags,
        strings(&["--release", "--jobs 4", "--target x86_64-pc-windows-msvc", "--timings"])
    );
    assert_eq!(
        f.printed,
        strings(&[
            "CARGO_MAKE_CARGO_PROFILE=release",
            "CARGO_MAKE_CRATE_TARGET_TRIPLE=x86_64-pc-windows-msvc",
        ])
    );
}

#[test]
fn a_profile_is_forwarded_under_other_make_profiles() {
    let c = compilation(false, Some("custom"), Some(Some("html,json")));
    let f = c.forwarded_args(&"development".to_string()).unwrap();
    assert_eq!(
        f.flags,
        strings(&[
            "--profile custom",
            "--jobs 4",
            "--target x86_64-pc-windows-msvc",
            "--timings html,json",
        ])
    );
    assert_eq!(f.printed[0], "CARGO_MAKE_CARGO_PROFILE=custom");
}

#[test]
fn flags_join_with_single_spaces() {
    assert_eq!(append_to_space_delimited("", "--quiet"), "--quiet");
    assert_eq!(append_to_space_delimited("--quiet", "-vv"), "--quiet -vv");
    assert_eq!(append_to_space_delimited("  --a ", "--b  "), "--a  --b");
}

#[test]
fn path_entries_go_in_front() {
    assert_eq!(prepend_to_semicolon_delimited("C:\\old", "C:\\new"), "C:\\new;C:\\old");
    assert_eq!(prepend_to_semicolon_delimited("", "x"), "x;");
}

#[test]
fn toolchain_arguments_start_with_a_plus() {
    assert_eq!(toolchain_arg("+nightly"), Some("nightly".to_string()));
    assert_eq!(toolchain_arg("+"), Some(String::new()));
    assert_eq!(toolchain_arg("build"), None);
    assert_eq!(toolchain_arg(""), None);
}

#[test]
fn build_output_follows_cargo_layout() {
    assert_eq!(wdf_build_output_dir("C:/t", &None, &"dev".to_string()), "C:/t/debug");
    assert_eq!(wdf_build_output_dir("C:/t", &None, &"release".to_string()), "C:/t/release");
    assert_eq!(
        wdf_build_output_dir("C:/t", &Some("aarch64-pc-windows-msvc".to_string()), &"dev".to_string()),
        "C:/t/aarch64-pc-windows-msvc/debug"
    );
}
