//! The command lines of the workflow's subcommands, built from plain values:
//! the caller parses the arguments, runs the validations, and spawns what is
//! built here.
pub mod clang;

use crate::detection::texts;
use crate::overlay::{Entry, StringMap};
use crate::text::{joined, owned, same_text};
use crate::validation::Validation;
use vstd::prelude::*;

verus! {

/// A process to spawn.
pub struct Invocation {
    pub program: String,
    pub args: Vec<String>,
    /// Where to run it; the caller's own directory where `None`.
    pub current_dir: Option<String>,
    /// Set on top of the inherited environment.
    pub env: StringMap,
}

/// An invocation seen as text.
pub struct InvocationView {
    pub program: Seq<char>,
    pub args: Seq<Seq<char>>,
    pub current_dir: Option<Seq<char>>,
    pub env: Seq<Entry>,
}

impl View for Invocation {
    type V = InvocationView;

    open spec fn view(&self) -> InvocationView {
        InvocationView {
            program: self.program@,
            args: texts(self.args@),
            current_dir: match self.current_dir {
                Some(d) => Some(d@),
                None => None,
            },
            env: self.env@,
        }
    }
}

/// Why a subcommand could not be built.
#[derive(Debug, PartialEq, Eq)]
pub enum CommandError {
    /// The subcommand needs a subcommand of its own and got none.
    MissingSubcommand { command: String },
    /// The subcommand's own subcommand is not one it knows.
    UnrecognizedSubcommand { command: String, subcommand: String },
}

/// `cargo` run in `root` with `fixed` and then the extra arguments.
pub open spec fn cargo_in(root: Seq<char>, fixed: Seq<Seq<char>>, extra: Seq<String>, env: Seq<Entry>) -> InvocationView {
    InvocationView { program: "cargo"@, args: fixed + texts(extra), current_dir: Some(root), env }
}

/// The toolchain selector `+<toolchain>`.
pub open spec fn plus(toolchain: Seq<char>) -> Seq<char> {
    "+"@ + toolchain
}

/// An invocation of `program` with `fixed` followed by `extra`.
pub fn invocation(
    program: String,
    fixed: Vec<String>,
    extra: Vec<String>,
    current_dir: Option<String>,
    env: StringMap,
) -> (r: Invocation)
    ensures
        r.program == program,
        texts(r.args@) == texts(fixed@) + texts(extra@),
        r.current_dir == current_dir,
        r.env == env,
{
    let mut args = fixed;
    let mut more = extra;
    let ghost a = args@;
    let ghost b = more@;
    args.append(&mut more);
    assert(texts(args@) =~= texts(a) + texts(b));
    Invocation { program, args, current_dir, env }
}

fn push_string(v: &mut Vec<String>, s: String)
    ensures
        texts(final(v)@) == texts(old(v)@).push(s@),
{
    let ghost before = texts(v@);
    v.push(s);
    assert(texts(v@) =~= before.push(s@));
}

fn words2(a: &str, b: &str) -> (r: Vec<String>)
    ensures
        texts(r@) == seq![a@, b@],
{
    let mut r = Vec::new();
    r.push(owned(a));
    r.push(owned(b));
    assert(texts(r@) =~= seq![a@, b@]);
    r
}

/// `cargo build --package cxx-auto <extra>` in the project root.
pub fn build(project_root: String, extra: Vec<String>) -> (r: Invocation)
    ensures
        r@ == cargo_in(project_root@, seq!["build"@, "--package"@, "cxx-auto"@], extra@, Seq::empty()),
{
    let mut fixed = words2("build", "--package");
    push_string(&mut fixed, owned("cxx-auto"));
    assert(texts(fixed@) =~= seq!["build"@, "--package"@, "cxx-auto"@]);
    invocation(owned("cargo"), fixed, extra, Some(project_root), StringMap::new())
}

/// `cargo check --package xtask --package cxx-auto <extra>` in the project root.
pub fn check(project_root: String, extra: Vec<String>) -> (r: Invocation)
    ensures
        r@ == cargo_in(
            project_root@,
            seq!["check"@, "--package"@, "xtask"@, "--package"@, "cxx-auto"@],
            extra@,
            Seq::empty(),
        ),
{
    let mut fixed = words2("check", "--package");
    push_string(&mut fixed, owned("xtask"));
    push_string(&mut fixed, owned("--package"));
    push_string(&mut fixed, owned("cxx-auto"));
    assert(texts(fixed@) =~= seq!["check"@, "--package"@, "xtask"@, "--package"@, "cxx-auto"@]);
    invocation(owned("cargo"), fixed, extra, Some(project_root), StringMap::new())
}

/// `cargo test --package cxx-auto <extra>` in the project root.
pub fn test(project_root: String, extra: Vec<String>) -> (r: Invocation)
    ensures
        r@ == cargo_in(project_root@, seq!["test"@, "--package"@, "cxx-auto"@], extra@, Seq::empty()),
{
    let mut fixed = words2("test", "--package");
    push_string(&mut fixed, owned("cxx-auto"));
    assert(texts(fixed@) =~= seq!["test"@, "--package"@, "cxx-auto"@]);
    invocation(owned("cargo"), fixed, extra, Some(project_root), StringMap::new())
}

/// `cargo +<toolchain> fmt --all <extra>` in the project root.
pub fn fmt(toolchain: &str, project_root: String, extra: Vec<String>) -> (r: Invocation)
    ensures
        r@ == cargo_in(project_root@, seq![plus(toolchain@), "fmt"@, "--all"@], extra@, Seq::empty()),
{
    let mut fixed: Vec<String> = Vec::new();
    push_string(&mut fixed, joined("+", toolchain));
    push_string(&mut fixed, owned("fmt"));
    push_string(&mut fixed, owned("--all"));
    assert(texts(fixed@) =~= seq![plus(toolchain@), "fmt"@, "--all"@]);
    invocation(owned("cargo"), fixed, extra, Some(project_root), StringMap::new())
}

/// `cargo +<toolchain> clippy --package xtask --package cxx-auto <extra> -- -D warnings`
/// in the project root, with the validated environment.
pub fn clippy(toolchain: &str, project_root: String, extra: Vec<String>, validation: Validation) -> (r: Invocation)
    ensures
        r@ == (InvocationView {
            program: "cargo"@,
            args: seq![plus(toolchain@), "clippy"@, "--package"@, "xtask"@, "--package"@, "cxx-auto"@]
                + texts(extra@) + seq!["--"@, "-D"@, "warnings"@],
            current_dir: Some(project_root@),
            env: validation.env_vars@,
        }),
{
    let mut fixed: Vec<String> = Vec::new();
    push_string(&mut fixed, joined("+", toolchain));
    push_string(&mut fixed, owned("clippy"));
    push_string(&mut fixed, owned("--package"));
    push_string(&mut fixed, owned("xtask"));
    push_string(&mut fixed, owned("--package"));
    push_string(&mut fixed, owned("cxx-auto"));
    let mut tail = words2("--", "-D");
    push_string(&mut tail, owned("warnings"));
    assert(texts(tail@) =~= seq!["--"@, "-D"@, "warnings"@]);
    let ghost e = texts(extra@);
    let mut rest = extra;
    let ghost t = tail@;
    rest.append(&mut tail);
    assert(texts(rest@) =~= e + texts(t));
    assert(texts(fixed@) =~= seq![plus(toolchain@), "clippy"@, "--package"@, "xtask"@, "--package"@, "cxx-auto"@]);
    let r = invocation(owned("cargo"), fixed, rest, Some(project_root), validation.env_vars);
    assert(texts(r.args@) =~= seq![plus(toolchain@), "clippy"@, "--package"@, "xtask"@, "--package"@, "cxx-auto"@]
        + e + seq!["--"@, "-D"@, "warnings"@]);
    r
}

/// `cargo +<toolchain> doc <extra>` in the project root, with the validated environment.
pub fn doc(toolchain: &str, project_root: String, extra: Vec<String>, validation: Validation) -> (r: Invocation)
    ensures
        r@ == cargo_in(project_root@, seq![plus(toolchain@), "doc"@], extra@, validation.env_vars@),
{
    let mut fixed: Vec<String> = Vec::new();
    push_string(&mut fixed, joined("+", toolchain));
    push_string(&mut fixed, owned("doc"));
    assert(texts(fixed@) =~= seq![plus(toolchain@), "doc"@]);
    invocation(owned("cargo"), fixed, extra, Some(project_root), validation.env_vars)
}

/// `cargo +<toolchain> tarpaulin --packages cxx-auto --timeout 120 --out Xml <extra>`
/// in the project root, with the validated environment.
pub fn tarpaulin(toolchain: &str, project_root: String, extra: Vec<String>, validation: Validation) -> (r: Invocation)
    ensures
        r@ == cargo_in(
            project_root@,
            seq![plus(toolchain@), "tarpaulin"@, "--packages"@, "cxx-auto"@, "--timeout"@, "120"@, "--out"@, "Xml"@],
            extra@,
            validation.env_vars@,
        ),
{
    let mut fixed: Vec<String> = Vec::new();
    push_string(&mut fixed, joined("+", toolchain));
    push_string(&mut fixed, owned("tarpaulin"));
    push_string(&mut fixed, owned("--packages"));
    push_string(&mut fixed, owned("cxx-auto"));
    push_string(&mut fixed, owned("--timeout"));
    push_string(&mut fixed, owned("120"));
    push_string(&mut fixed, owned("--out"));
    push_string(&mut fixed, owned("Xml"));
    assert(texts(fixed@) =~= seq![plus(toolchain@), "tarpaulin"@, "--packages"@, "cxx-auto"@, "--timeout"@, "120"@, "--out"@, "Xml"@]);
    invocation(owned("cargo"), fixed, extra, Some(project_root), validation.env_vars)
}

/// `cargo +<toolchain> udeps --package xtask --package cxx-auto <extra>` in the
/// project root, with the validated environment.
pub fn udeps(toolchain: &str, project_root: String, extra: Vec<String>, validation: Validation) -> (r: Invocation)
    ensures
        r@ == cargo_in(
            project_root@,
            seq![plus(toolchain@), "udeps"@, "--package"@, "xtask"@, "--package"@, "cxx-auto"@],
            extra@,
            validation.env_vars@,
        ),
{
    let mut fixed: Vec<String> = Vec::new();
    push_string(&mut fixed, joined("+", toolchain));
    push_string(&mut fixed, owned("udeps"));
    push_string(&mut fixed, owned("--package"));
    push_string(&mut fixed, owned("xtask"));
    push_string(&mut fixed, owned("--package"));
    push_string(&mut fixed, owned("cxx-auto"));
    assert(texts(fixed@) =~= seq![plus(toolchain@), "udeps"@, "--package"@, "xtask"@, "--package"@, "cxx-auto"@]);
    invocation(owned("cargo"), fixed, extra, Some(project_root), validation.env_vars)
}

/// `cargo +<toolchain> miri test <extra>` in the project root, for the one
/// subcommand `test`.
pub fn miri(toolchain: &str, subcommand: &str, project_root: String, extra: Vec<String>) -> (r: Result<Invocation, CommandError>)
    ensures
        subcommand@ == "test"@ ==> (r matches Ok(inv) && inv@ == cargo_in(
            project_root@,
            seq![plus(toolchain@), "miri"@, "test"@],
            extra@,
            Seq::empty(),
        )),
        subcommand@ != "test"@ ==> (r matches Err(CommandError::UnrecognizedSubcommand { command, subcommand: s })
            && command@ == "miri"@ && s@ == subcommand@),
{
    if !same_text(subcommand, "test") {
        return Err(CommandError::UnrecognizedSubcommand { command: owned("miri"), subcommand: owned(subcommand) });
    }
    let mut fixed: Vec<String> = Vec::new();
    push_string(&mut fixed, joined("+", toolchain));
    push_string(&mut fixed, owned("miri"));
    push_string(&mut fixed, owned(subcommand));
    assert(texts(fixed@) =~= seq![plus(toolchain@), "miri"@, "test"@]);
    Ok(invocation(owned("cargo"), fixed, extra, Some(project_root), StringMap::new()))
}

/// `cargo valgrind test --features valgrind <extra>` in the project root, for
/// the one subcommand `test`.
pub fn valgrind(subcommand: &str, project_root: String, extra: Vec<String>) -> (r: Result<Invocation, CommandError>)
    ensures
        subcommand@ == "test"@ ==> (r matches Ok(inv) && inv@ == cargo_in(
            project_root@,
            seq!["valgrind"@, "test"@, "--features"@, "valgrind"@],
            extra@,
            Seq::empty(),
        )),
        subcommand@ != "test"@ ==> (r matches Err(CommandError::UnrecognizedSubcommand { command, subcommand: s })
            && command@ == "valgrind"@ && s@ == subcommand@),
{
    if !same_text(subcommand, "test") {
        return Err(CommandError::UnrecognizedSubcommand { command: owned("valgrind"), subcommand: owned(subcommand) });
    }
    let mut fixed = words2("valgrind", subcommand);
    push_string(&mut fixed, owned("--features"));
    push_string(&mut fixed, owned("valgrind"));
    assert(texts(fixed@) =~= seq!["valgrind"@, "test"@, "--features"@, "valgrind"@]);
    Ok(invocation(owned("cargo"), fixed, extra, Some(project_root), StringMap::new()))
}

/// `cmake -G Ninja -S . -B build <extra>` in the workspace root, for the one
/// subcommand `build`.
pub fn cmake(subcommand: &str, workspace_root: String, extra: Vec<String>) -> (r: Result<Invocation, CommandError>)
    ensures
        subcommand@ == "build"@ ==> (r matches Ok(inv) && inv@ == (InvocationView {
            program: "cmake"@,
            args: seq!["-G"@, "Ninja"@, "-S"@, "."@, "-B"@, "build"@] + texts(extra@),
            current_dir: Some(workspace_root@),
            env: Seq::empty(),
        })),
        subcommand@ != "build"@ ==> (r matches Err(CommandError::UnrecognizedSubcommand { command, subcommand: s })
            && command@ == "cmake"@ && s@ == subcommand@),
{
    if !same_text(subcommand, "build") {
        return Err(CommandError::UnrecognizedSubcommand { command: owned("cmake"), subcommand: owned(subcommand) });
    }
    let mut fixed = words2("-G", "Ninja");
    push_string(&mut fixed, owned("-S"));
    push_string(&mut fixed, owned("."));
    push_string(&mut fixed, owned("-B"));
    push_string(&mut fixed, owned("build"));
    assert(texts(fixed@) =~= seq!["-G"@, "Ninja"@, "-S"@, "."@, "-B"@, "build"@]);
    Ok(invocation(owned("cmake"), fixed, extra, Some(workspace_root), StringMap::new()))
}

/// The editor with its own arguments and then the extra ones, in the project
/// root, with the validated environment.
pub fn edit(
    editor: String,
    editor_args: Vec<String>,
    project_root: String,
    extra: Vec<String>,
    validation: Validation,
) -> (r: Invocation)
    ensures
        r@ == (InvocationView {
            program: editor@,
            args: texts(editor_args@) + texts(extra@),
            current_dir: Some(project_root@),
            env: validation.env_vars@,
        }),
{
    invocation(editor, editor_args, extra, Some(project_root), validation.env_vars)
}

} // verus!
