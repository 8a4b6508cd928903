use xtask_tools::config::{
    CMakeContext, Config, RustToolchain, RustToolchainToolchain, Xtask, XtaskClang, XtaskPlatform,
    XtaskPlatformMacos, XtaskPlatformMacosSearchPath, XtaskRust, XtaskRustComponent, XtaskRustToolchain,
};
use xtask_tools::overlay::StringMap;
use xtask_tools::plan::{
    aggregate, after_bin_probe, cargo_component_attempt, check_attempt, check_label, check_verdict,
    validation_plan, xtask_bin_attempt, xtask_bin_url, BinStep, Check,
};
use xtask_tools::probe::ProbeOutput;
use xtask_tools::toolchain::{lists_toolchain, toolchain_list_attempt, validate_rust_toolchain};
use xtask_tools::validation::{Validation, ValidationError};

fn config() -> Config {
    Config {
        cmake_context: CMakeContext {
            bin_clang_format: "/usr/bin/clang-format-14".to_string(),
            bin_clang_tidy: "/usr/bin/clang-tidy-14".to_string(),
            bin_run_clang_format: "/w/run-clang-format.py".to_string(),
            bin_run_clang_tidy: "/usr/bin/run-clang-tidy-14".to_string(),
        },
        workspace_root: "/w".to_string(),
        rust_toolchain: RustToolchain {
            toolchain: RustToolchainToolchain {
                channel: "nightly-2023-01-01".to_string(),
                path: None,
                profile: None,
                components: vec![],
                targets: vec![],
            },
        },
        xtask: Xtask {
            clang: XtaskClang {
                matchers: StringMap::new(),
                platform: XtaskPlatform {
                    macos: XtaskPlatformMacos { search_paths: vec![XtaskPlatformMacosSearchPath::Homebrew] },
                },
                suffix: "-14".to_string(),
                version: "14".to_string(),
            },
            rust: XtaskRust {
                components: vec![
                    ("clippy".to_string(), XtaskRustComponent { toolchain: "nightly".to_string() }),
                    ("rustfmt".to_string(), XtaskRustComponent { toolchain: "stable".to_string() }),
                    ("fmt".to_string(), XtaskRustComponent { toolchain: "stable".to_string() }),
                ],
                toolchain: XtaskRustToolchain { nightly: "nightly-2023-01-01".to_string() },
            },
        },
        xtask_bin_dir: "/w/.xtask/bin".to_string(),
    }
}

fn overlay(entries: &[(&str, &str)]) -> StringMap {
    let mut m = StringMap::new();
    for (k, v) in entries {
        m.insert(k.to_string(), v.to_string());
    }
    m
}

fn owned_pairs(entries: &[(&str, &str)]) -> Vec<(String, String)> {
    entries.iter().map(|(k, v)| (k.to_string(), v.to_string())).collect()
}

#[test]
fn unrecognized_tool_is_refused_before_any_check() {
    for tool in ["gcc", "", "cargo-doc", "Clang"] {
        match validation_plan(tool) {
            Err(ValidationError::UnrecognizedTool { tool: t }) => assert_eq!(t, tool),
            other => panic!("unexpected plan {:?}", other),
        }
    }
}

#[test]
fn recipes_of_the_known_tools() {
    assert_eq!(validation_plan("clang++"), Ok(vec![Check::ClangTool("clang++".to_string())]));
    assert_eq!(
        validation_plan("clang-format"),
        Ok(vec![
            Check::ClangTool("clang-format".to_string()),
            Check::Python3,
            Check::XtaskBin("run-clang-format.py".to_string()),
        ])
    );
    assert_eq!(
        validation_plan("clang-tidy"),
        Ok(vec![Check::ClangTool("clang-tidy".to_string()), Check::ClangTool("run-clang-tidy".to_string())])
    );
    assert_eq!(validation_plan("cargo-miri"), Ok(vec![Check::CargoComponent("cargo-miri".to_string())]));
    assert_eq!(validation_plan("cargo-udeps"), Ok(vec![Check::CargoTool("cargo-udeps".to_string())]));
    assert_eq!(validation_plan("ninja"), Ok(vec![Check::OtherTool("ninja".to_string())]));
}

#[test]
fn merging_overlays_last_write_wins() {
    let mut a = overlay(&[("PATH", "/a"), ("CC", "clang")]);
    let b = overlay(&[("CXX", "clang++"), ("PATH", "/b")]);
    a.combine(b);
    assert_eq!(a.entries(), &owned_pairs(&[("PATH", "/b"), ("CC", "clang"), ("CXX", "clang++")]));
    assert_eq!(a.get("PATH").map(|s| s.as_str()), Some("/b"));
    assert_eq!(a.get("LD"), None);
}

#[test]
fn inserting_an_existing_key_keeps_its_place() {
    let mut a = overlay(&[("A", "1"), ("B", "2")]);
    a.insert("A".to_string(), "3".to_string());
    assert_eq!(a.entries(), &owned_pairs(&[("A", "3"), ("B", "2")]));
    assert_eq!(a.len(), 2);
    assert_eq!(a.find("B"), Some(1));
    assert_eq!(a.duplicate().entries(), a.entries());
}

#[test]
fn validations_combine() {
    let mut v = Validation::new();
    v.combine(Validation { tools: overlay(&[("clang", "clang-14")]), env_vars: overlay(&[("PATH", "/a")]) });
    v.combine(Validation { tools: StringMap::new(), env_vars: overlay(&[("PATH", "/b")]) });
    assert_eq!(v.tools.entries(), &owned_pairs(&[("clang", "clang-14")]));
    assert_eq!(v.env_vars.entries(), &owned_pairs(&[("PATH", "/b")]));
}

#[test]
fn second_constituent_failure_surfaces() {
    let first = Ok(Validation { tools: overlay(&[("clang-tidy", "clang-tidy-14")]), env_vars: overlay(&[("PATH", "/x")]) });
    let second = Err(ValidationError::NotFound { tool: "run-clang-tidy".to_string() });
    match aggregate(vec![first, second]) {
        Err(e) => assert_eq!(e, ValidationError::NotFound { tool: "run-clang-tidy".to_string() }),
        Ok(_) => panic!("a failed constituent must fail the whole validation"),
    }
}

#[test]
fn aggregate_of_successes_merges_in_order() {
    let a = Ok(Validation { tools: overlay(&[("clang", "clang-14")]), env_vars: overlay(&[("PATH", "/x")]) });
    let b = Ok(Validation { tools: StringMap::new(), env_vars: overlay(&[("PATH", "/y"), ("CC", "cc")]) });
    let v = aggregate(vec![a, b]).ok().unwrap();
    assert_eq!(v.tools.entries(), &owned_pairs(&[("clang", "clang-14")]));
    assert_eq!(v.env_vars.entries(), &owned_pairs(&[("PATH", "/y"), ("CC", "cc")]));
    let e = aggregate(vec![Err(ValidationError::NonZeroExit { tool: "a".to_string() }), Err(ValidationError::NonZeroExit { tool: "b".to_string() })]);
    assert!(matches!(e, Err(ValidationError::NonZeroExit { ref tool }) if tool == "a"));
}

#[test]
fn cargo_component_probe_uses_the_configured_channel() {
    let c = config();
    let a = cargo_component_attempt(&c, "cargo-clippy").ok().unwrap();
    assert_eq!(a.program, "cargo");
    assert_eq!(a.args, vec!["+nightly-2023-01-01", "clippy", "--help"]);
    let a = cargo_component_attempt(&c, "cargo-fmt").ok().unwrap();
    assert_eq!(a.args, vec!["+stable", "fmt", "--help"]);
    assert!(matches!(
        cargo_component_attempt(&c, "cargo-miri"),
        Err(ValidationError::UnrecognizedComponent { ref component }) if component == "miri"
    ));
    assert!(matches!(
        cargo_component_attempt(&c, "cargo-doc"),
        Err(ValidationError::UnrecognizedComponent { ref component }) if component == "doc"
    ));
}

#[test]
fn helper_script_probe_and_source() {
    let c = config();
    let a = xtask_bin_attempt(&c, "run-clang-format.py").ok().unwrap();
    assert_eq!(a.program, "python3");
    assert_eq!(a.args, vec!["/w/.xtask/bin/run-clang-format.py", "--help"]);
    assert!(matches!(xtask_bin_attempt(&c, "other.py"), Err(ValidationError::UnrecognizedBin { .. })));
    assert_eq!(
        xtask_bin_url("run-clang-format.py"),
        Some("https://raw.githubusercontent.com/Sarcasm/run-clang-format/master/run-clang-format.py")
    );
    assert_eq!(xtask_bin_url("x"), None);
    assert_eq!(after_bin_probe(&ProbeOutput::Succeeded { stdout: None }, true), BinStep::Ready);
    assert_eq!(after_bin_probe(&ProbeOutput::NonZeroExit, true), BinStep::Install { recheck: true });
    assert_eq!(after_bin_probe(&ProbeOutput::NotFound, false), BinStep::Install { recheck: false });
}

#[test]
fn other_checks_probe_with_their_flags() {
    let c = config();
    let a = check_attempt(&c, &Check::OtherTool("ninja".to_string())).ok().unwrap();
    assert_eq!((a.program.as_str(), a.args.clone()), ("ninja", vec!["--version".to_string()]));
    let a = check_attempt(&c, &Check::OtherTool("cmake".to_string())).ok().unwrap();
    assert_eq!(a.args, vec!["--help"]);
    let a = check_attempt(&c, &Check::Python3).ok().unwrap();
    assert_eq!((a.program.as_str(), a.args.clone()), ("python3", vec!["--help".to_string()]));
    assert_eq!(check_label(&Check::Python3), "python3");
    assert!(matches!(check_verdict("cmake", &ProbeOutput::NotFound), Err(ValidationError::NotFound { ref tool }) if tool == "cmake"));
    assert!(matches!(check_verdict("cmake", &ProbeOutput::NonZeroExit), Err(ValidationError::NonZeroExit { .. })));
    assert!(check_verdict("cmake", &ProbeOutput::Succeeded { stdout: None }).is_ok());
}

#[test]
fn toolchain_listing() {
    let listing = "stable-x86_64-unknown-linux-gnu (default)\r\nnightly-2023-01-01-x86_64-unknown-linux-gnu\n";
    assert!(lists_toolchain(listing, "nightly-2023-01-01"));
    assert!(lists_toolchain(listing, "stable"));
    assert!(!lists_toolchain(listing, "beta"));
    assert!(!lists_toolchain(listing, "x86_64"));
    assert!(!lists_toolchain("", ""));
    assert!(lists_toolchain("a\n\nb", ""));
    let out = ProbeOutput::Succeeded { stdout: Some(listing.to_string()) };
    assert_eq!(validate_rust_toolchain("stable", &out), Ok(()));
    assert_eq!(
        validate_rust_toolchain("beta", &out),
        Err(ValidationError::MissingToolchain { toolchain: "beta".to_string() })
    );
    assert_eq!(
        validate_rust_toolchain("beta", &ProbeOutput::NonZeroExit),
        Err(ValidationError::NonZeroExit { tool: "rustup".to_string() })
    );
    let a = toolchain_list_attempt();
    assert_eq!((a.program.as_str(), a.args.clone()), ("rustup", vec!["toolchain".to_string(), "list".to_string()]));
}
