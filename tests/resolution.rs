use xtask_tools::config::{XtaskClang, XtaskPlatform, XtaskPlatformMacos};
use xtask_tools::overlay::StringMap;
use xtask_tools::probe::ProbeOutput;
use xtask_tools::resolution::{Resolution, Step};
use xtask_tools::validation::ValidationError;
use xtask_tools::version::{compare_version, extract_and_compare, VersionError, VersionMatcher};

const PATTERN: &str = r"clang version (\d+\.\d+\.\d+)";

fn clang_config(with_pattern: bool) -> XtaskClang {
    let mut matchers = StringMap::new();
    if with_pattern {
        matchers.insert("clang".to_string(), PATTERN.to_string());
    }
    XtaskClang {
        matchers,
        platform: XtaskPlatform { macos: XtaskPlatformMacos { search_paths: vec![] } },
        suffix: "-14".to_string(),
        version: "14".to_string(),
    }
}

fn reporting(text: &str) -> ProbeOutput {
    ProbeOutput::Succeeded { stdout: Some(text.to_string()) }
}

fn programs(res: &Resolution) -> Vec<(String, Vec<String>, Vec<(String, String)>)> {
    (0..res.attempt_count())
        .map(|i| {
            let a = res.attempt_at(i);
            (a.program.clone(), a.args.clone(), a.overlay.entries().clone())
        })
        .collect()
}

#[test]
fn attempts_follow_the_fixed_order() {
    let res = Resolution::new("clang", &clang_config(true), Some("/usr/bin:/opt/llvm/bin".to_string())).unwrap();
    let path = vec![("PATH".to_string(), "/usr/bin:/opt/llvm/bin".to_string())];
    let version = vec!["--version".to_string()];
    assert_eq!(
        programs(&res),
        vec![
            ("clang-14".to_string(), version.clone(), vec![]),
            ("clang-14".to_string(), version.clone(), path.clone()),
            ("clang".to_string(), version.clone(), vec![]),
            ("clang".to_string(), version.clone(), path.clone()),
        ]
    );
}

#[test]
fn attempts_without_discovery_skip_the_overlay() {
    let res = Resolution::new("clangd", &clang_config(true), None).unwrap();
    let help = vec!["--help".to_string()];
    assert_eq!(
        programs(&res),
        vec![("clangd-14".to_string(), help.clone(), vec![]), ("clangd".to_string(), help, vec![])]
    );
}

#[test]
fn first_accepted_attempt_wins() {
    let res = Resolution::new("clang", &clang_config(true), Some("/p".to_string())).unwrap();
    let outputs = vec![
        ProbeOutput::NotFound,
        ProbeOutput::NonZeroExit,
        reporting("clang version 14.0.6"),
        reporting("clang version 14.0.0"),
    ];
    let v = res.resolve_outputs(&outputs).unwrap();
    assert_eq!(v.tools.entries().len(), 0);
    assert_eq!(v.env_vars.entries().len(), 0);
}

#[test]
fn suffixed_attempt_records_the_executable_name() {
    let res = Resolution::new("clang", &clang_config(true), Some("/p".to_string())).unwrap();
    let outputs = vec![
        ProbeOutput::NotFound,
        reporting("clang version 14.0.6 (x)"),
        ProbeOutput::NotFound,
        ProbeOutput::NotFound,
    ];
    let v = res.resolve_outputs(&outputs).unwrap();
    assert_eq!(v.tools.entries(), &vec![("clang".to_string(), "clang-14".to_string())]);
    assert_eq!(v.env_vars.entries(), &vec![("PATH".to_string(), "/p".to_string())]);
}

#[test]
fn wrong_version_fails_the_attempt_and_resolution_goes_on() {
    let res = Resolution::new("clang", &clang_config(true), None).unwrap();
    let old = reporting("Ubuntu clang version 13.0.1");
    let good = reporting("clang version 14.0.6");
    match res.evaluate(0, &old) {
        Err(ValidationError::VersionMismatch { tool, expected, found }) => {
            assert_eq!(tool, "clang");
            assert_eq!(expected, "14");
            assert_eq!(found, "13.0.1");
        },
        other => panic!("unexpected verdict {:?}", other.map(|_| ())),
    }
    assert!(matches!(res.decide(0, &old), Step::Next(1)));
    assert!(matches!(res.decide(1, &good), Step::Resolved(_)));
    assert!(res.evaluate(1, &good).is_ok());
}

#[test]
fn no_version_in_output_fails_the_attempt() {
    let res = Resolution::new("clang", &clang_config(true), None).unwrap();
    let r = res.evaluate(0, &reporting("gcc (GCC) 12.2.0"));
    assert!(matches!(r, Err(ValidationError::NoVersionMatch { ref tool }) if tool == "clang"));
    let r = res.evaluate(0, &ProbeOutput::Succeeded { stdout: None });
    assert!(matches!(r, Err(ValidationError::InvalidOutput { .. })));
}

#[test]
fn without_pattern_any_successful_probe_is_accepted() {
    let res = Resolution::new("clang", &clang_config(false), None).unwrap();
    assert!(res.evaluate(0, &ProbeOutput::Succeeded { stdout: None }).is_ok());
    assert!(res.evaluate(0, &reporting("anything at all")).is_ok());
    assert!(res.evaluate(1, &reporting("")).is_ok());
    assert!(matches!(res.evaluate(0, &ProbeOutput::NonZeroExit), Err(ValidationError::NonZeroExit { .. })));
}

#[test]
fn exhausted_attempts_fail_with_not_found() {
    let res = Resolution::new("clang", &clang_config(true), Some("/p".to_string())).unwrap();
    let outputs = vec![
        ProbeOutput::NotFound,
        reporting("clang version 13.0.1"),
        ProbeOutput::NonZeroExit,
        reporting("no version here"),
    ];
    let r = res.resolve_outputs(&outputs);
    assert!(matches!(r, Err(ValidationError::NotFound { ref tool }) if tool == "clang"));
    assert!(matches!(res.decide(3, &outputs[3]), Step::Failed(ValidationError::NotFound { .. })));
}

#[test]
fn resolving_twice_gives_the_same_outcome() {
    let config = clang_config(true);
    let outputs = vec![
        reporting("clang version 13.0.1"),
        reporting("clang version 14.0.6"),
        ProbeOutput::NotFound,
        ProbeOutput::NotFound,
    ];
    let first = Resolution::new("clang", &config, Some("/p".to_string())).unwrap().resolve_outputs(&outputs).unwrap();
    let second = Resolution::new("clang", &config, Some("/p".to_string())).unwrap().resolve_outputs(&outputs).unwrap();
    assert_eq!(first.tools.entries(), second.tools.entries());
    assert_eq!(first.env_vars.entries(), second.env_vars.entries());
}

#[test]
fn invalid_pattern_is_reported() {
    let mut config = clang_config(false);
    config.matchers.insert("clang".to_string(), "clang (".to_string());
    assert!(matches!(
        Resolution::new("clang", &config, None),
        Err(ValidationError::InvalidPattern { ref tool }) if tool == "clang"
    ));
    assert!(VersionMatcher::new("clang (").is_none());
}

#[test]
fn version_prefix_comparison() {
    assert_eq!(compare_version(Some("14.0.6"), "14"), Ok(()));
    assert_eq!(
        compare_version(Some("13.0.1"), "14"),
        Err(VersionError::Mismatch { expected_prefix: "14".to_string(), found: "13.0.1".to_string() })
    );
    assert_eq!(compare_version(None, "14"), Err(VersionError::NoMatch));
    assert_eq!(compare_version(Some("14"), ""), Ok(()));
}

#[test]
fn extraction_uses_the_first_group() {
    let m = VersionMatcher::new(PATTERN).unwrap();
    assert_eq!(extract_and_compare(&m, "Homebrew clang version 14.0.6\nTarget: x", "14"), Ok(()));
    assert_eq!(
        extract_and_compare(&m, "clang version 15.0.0", "14"),
        Err(VersionError::Mismatch { expected_prefix: "14".to_string(), found: "15.0.0".to_string() })
    );
    assert_eq!(extract_and_compare(&m, "nothing", "14"), Err(VersionError::NoMatch));
}
