use xtask_tools::command::clang::{clang, help, CLANG_HELP};
use xtask_tools::command::{self, CommandError, Invocation};
use xtask_tools::config::CMakeContext;
use xtask_tools::detection::{augmented_search_path, choose_editor, homebrew_formula, split_editor_command, split_words, EditorError};
use xtask_tools::handler::{exit_code, unused_arguments};
use xtask_tools::overlay::StringMap;
use xtask_tools::validation::Validation;

fn strings(xs: &[&str]) -> Vec<String> {
    xs.iter().map(|s| s.to_string()).collect()
}

fn shape(inv: &Invocation) -> (String, Vec<String>, Option<String>, Vec<(String, String)>) {
    (inv.program.clone(), inv.args.clone(), inv.current_dir.clone(), inv.env.entries().clone())
}

fn with_path() -> Validation {
    let mut env = StringMap::new();
    env.insert("PATH".to_string(), "/opt/llvm/bin".to_string());
    Validation { tools: StringMap::new(), env_vars: env }
}

fn cmake_context() -> CMakeContext {
    CMakeContext {
        bin_clang_format: "/usr/bin/clang-format-14".to_string(),
        bin_clang_tidy: "/usr/bin/clang-tidy-14".to_string(),
        bin_run_clang_format: "/w/run-clang-format.py".to_string(),
        bin_run_clang_tidy: "/usr/bin/run-clang-tidy-14".to_string(),
    }
}

#[test]
fn editor_command_is_split_into_words() {
    let (program, args) = split_editor_command("  code --wait  -n\tfile ").unwrap();
    assert_eq!(program, "code");
    assert_eq!(args, strings(&["-n", "file"]));
    let (program, args) = split_editor_command("vim").unwrap();
    assert_eq!((program.as_str(), args.len()), ("vim", 0));
    assert_eq!(split_editor_command(" \u{3000}\n"), Err(EditorError::Empty));
    assert_eq!(split_editor_command(""), Err(EditorError::Empty));
    assert_eq!(split_words("a\u{a0}b  c"), strings(&["a", "b", "c"]));
}

#[test]
fn editor_sources_in_order_of_preference() {
    let r = choose_editor(None, Some("subl -w".to_string()), Some("code --wait".to_string()), None).unwrap();
    assert_eq!(r, ("subl".to_string(), strings(&["-w"])));
    let r = choose_editor(Some("nano".to_string()), Some("vim".to_string()), None, None).unwrap();
    assert_eq!(r.0, "nano");
    let r = choose_editor(None, None, None, Some("emacs -nw".to_string())).unwrap();
    assert_eq!(r, ("emacs".to_string(), strings(&["-nw"])));
    assert_eq!(choose_editor(None, None, None, None), Err(EditorError::Undetermined));
    assert_eq!(choose_editor(Some(" ".to_string()), Some("vim".to_string()), None, None), Err(EditorError::Empty));
}

#[test]
fn homebrew_formula_uses_the_major_version() {
    assert_eq!(homebrew_formula("14.0.6"), "llvm@14");
    assert_eq!(homebrew_formula("15"), "llvm@15");
    assert_eq!(homebrew_formula(""), "llvm@");
}

#[test]
fn search_path_is_augmented_only_with_discoveries() {
    assert_eq!(augmented_search_path(strings(&["/usr/bin"]), vec![]), None);
    assert_eq!(
        augmented_search_path(strings(&["/usr/bin", "/bin"]), strings(&["/opt/homebrew/opt/llvm@14/bin"])),
        Some(strings(&["/usr/bin", "/bin", "/opt/homebrew/opt/llvm@14/bin"]))
    );
}

#[test]
fn cargo_subcommands() {
    let root = "/w".to_string();
    let extra = strings(&["--release"]);
    assert_eq!(
        shape(&command::build(root.clone(), extra.clone())),
        ("cargo".to_string(), strings(&["build", "--package", "cxx-auto", "--release"]), Some(root.clone()), vec![])
    );
    assert_eq!(
        shape(&command::check(root.clone(), vec![])).1,
        strings(&["check", "--package", "xtask", "--package", "cxx-auto"])
    );
    assert_eq!(shape(&command::test(root.clone(), extra.clone())).1, strings(&["test", "--package", "cxx-auto", "--release"]));
    assert_eq!(shape(&command::fmt("nightly", root.clone(), vec![])).1, strings(&["+nightly", "fmt", "--all"]));
    let clippy = command::clippy("nightly", root.clone(), strings(&["--fix"]), with_path());
    assert_eq!(
        shape(&clippy),
        (
            "cargo".to_string(),
            strings(&["+nightly", "clippy", "--package", "xtask", "--package", "cxx-auto", "--fix", "--", "-D", "warnings"]),
            Some(root.clone()),
            vec![("PATH".to_string(), "/opt/llvm/bin".to_string())],
        )
    );
    assert_eq!(shape(&command::doc("nightly", root.clone(), vec![], with_path())).1, strings(&["+nightly", "doc"]));
    assert_eq!(
        shape(&command::tarpaulin("nightly", root.clone(), vec![], Validation::new())).1,
        strings(&["+nightly", "tarpaulin", "--packages", "cxx-auto", "--timeout", "120", "--out", "Xml"])
    );
    assert_eq!(
        shape(&command::udeps("nightly", root.clone(), vec![], Validation::new())).1,
        strings(&["+nightly", "udeps", "--package", "xtask", "--package", "cxx-auto"])
    );
}

#[test]
fn subcommands_with_their_own_subcommand() {
    let root = "/w".to_string();
    let miri = command::miri("nightly", "test", root.clone(), strings(&["-q"])).unwrap();
    assert_eq!(shape(&miri).1, strings(&["+nightly", "miri", "test", "-q"]));
    assert_eq!(
        command::miri("nightly", "run", root.clone(), vec![]).err(),
        Some(CommandError::UnrecognizedSubcommand { command: "miri".to_string(), subcommand: "run".to_string() })
    );
    let valgrind = command::valgrind("test", root.clone(), vec![]).unwrap();
    assert_eq!(shape(&valgrind).1, strings(&["valgrind", "test", "--features", "valgrind"]));
    assert!(command::valgrind("bench", root.clone(), vec![]).is_err());
    let cmake = command::cmake("build", root.clone(), strings(&["-DX=1"])).unwrap();
    assert_eq!(
        shape(&cmake),
        ("cmake".to_string(), strings(&["-G", "Ninja", "-S", ".", "-B", "build", "-DX=1"]), Some(root.clone()), vec![])
    );
    assert_eq!(
        command::cmake("configure", root, vec![]).err(),
        Some(CommandError::UnrecognizedSubcommand { command: "cmake".to_string(), subcommand: "configure".to_string() })
    );
}

#[test]
fn edit_runs_the_editor_in_the_project_root() {
    let inv = command::edit("code".to_string(), strings(&["-n"]), "/w".to_string(), strings(&["."]), with_path());
    assert_eq!(
        shape(&inv),
        ("code".to_string(), strings(&["-n", "."]), Some("/w".to_string()), vec![("PATH".to_string(), "/opt/llvm/bin".to_string())])
    );
}

#[test]
fn clang_drivers() {
    let ctx = cmake_context();
    let runs = clang("format", &ctx, strings(&["-i"])).unwrap();
    assert_eq!(runs.len(), 1);
    assert_eq!(
        shape(&runs[0]),
        (
            "/w/run-clang-format.py".to_string(),
            strings(&["--clang-format-executable", "/usr/bin/clang-format-14", "-i"]),
            None,
            vec![]
        )
    );
    let runs = clang("format", &ctx, strings(&["--clang-format-executable", "cf"])).unwrap();
    assert_eq!(shape(&runs[0]).1, strings(&["--clang-format-executable", "cf"]));
    let runs = clang("tidy", &ctx, vec![]).unwrap();
    assert_eq!(runs.len(), 2);
    assert_eq!(shape(&runs[0]), ("cargo".to_string(), strings(&["check"]), None, vec![]));
    assert_eq!(shape(&runs[1]).1, strings(&["-clang-tidy-binary", "/usr/bin/clang-tidy-14"]));
    assert_eq!(
        clang("lint", &ctx, vec![]).err(),
        Some(CommandError::UnrecognizedSubcommand { command: "clang".to_string(), subcommand: "lint".to_string() })
    );
    assert_eq!(help(), CLANG_HELP);
    assert!(help().starts_with("xtask-clang"));
}

#[test]
fn exit_codes_and_unused_arguments() {
    assert_eq!(exit_code(true, Some(3)), None);
    assert_eq!(exit_code(false, Some(3)), Some(3));
    assert_eq!(exit_code(false, None), Some(1));
    assert_eq!(unused_arguments(&vec![]), None);
    assert_eq!(unused_arguments(&strings(&["--foo", "bar"])), Some(" --foo bar".to_string()));
}
