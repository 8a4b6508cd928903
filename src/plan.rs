//! The validation recipe of each logical tool, as data, and how the results
//! of its constituent checks are put together: fail-fast, no partial result.
use crate::config::{component_entries, Config};
use crate::overlay::{as_map, merged, Entry, StringMap};
use crate::probe::{AttemptView, ProbeAttempt, ProbeOutput};
use crate::text::{has_prefix, is_prefix, joined, owned, same_text, slice_of};
use crate::validation::{ErrorView, Validation, ValidationError};
use vstd::prelude::*;
use vstd::string::StrSliceExecFns;

verus! {

/// One constituent check of a validation.
#[derive(Debug, PartialEq, Eq)]
pub enum Check {
    /// Resolve a clang tool through the resolution strategy.
    ClangTool(String),
    /// The Python interpreter answers `--help`.
    Python3,
    /// A helper script in the helper directory runs; it is fetched where it does not.
    XtaskBin(String),
    /// A toolchain component answers `--help` on its configured channel.
    CargoComponent(String),
    /// A cargo subcommand installed on the search path answers `--help`.
    CargoTool(String),
    /// A build tool answers its probe flag.
    OtherTool(String),
}

/// A check seen as text.
pub enum CheckView {
    ClangTool(Seq<char>),
    Python3,
    XtaskBin(Seq<char>),
    CargoComponent(Seq<char>),
    CargoTool(Seq<char>),
    OtherTool(Seq<char>),
}

impl View for Check {
    type V = CheckView;

    open spec fn view(&self) -> CheckView {
        match self {
            Check::ClangTool(t) => CheckView::ClangTool(t@),
            Check::Python3 => CheckView::Python3,
            Check::XtaskBin(t) => CheckView::XtaskBin(t@),
            Check::CargoComponent(t) => CheckView::CargoComponent(t@),
            Check::CargoTool(t) => CheckView::CargoTool(t@),
            Check::OtherTool(t) => CheckView::OtherTool(t@),
        }
    }
}

/// The recipe of each logical tool; `None` for a name that is not recognized.
pub open spec fn recipe(tool: Seq<char>) -> Option<Seq<CheckView>> {
    if tool == "clang"@ || tool == "clang++"@ || tool == "clangd"@ {
        Some(seq![CheckView::ClangTool(tool)])
    } else if tool == "clang-format"@ {
        Some(
            seq![
                CheckView::ClangTool(tool),
                CheckView::Python3,
                CheckView::XtaskBin("run-clang-format.py"@),
            ],
        )
    } else if tool == "clang-tidy"@ {
        Some(seq![CheckView::ClangTool(tool), CheckView::ClangTool("run-clang-tidy"@)])
    } else if tool == "cargo-clippy"@ || tool == "cargo-fmt"@ || tool == "cargo-miri"@ {
        Some(seq![CheckView::CargoComponent(tool)])
    } else if tool == "cargo-tarpaulin"@ || tool == "cargo-udeps"@ || tool == "cargo-valgrind"@ {
        Some(seq![CheckView::CargoTool(tool)])
    } else if tool == "cmake"@ || tool == "ninja"@ {
        Some(seq![CheckView::OtherTool(tool)])
    } else {
        None
    }
}

pub open spec fn checks_view(v: Seq<Check>) -> Seq<CheckView> {
    v.map_values(|c: Check| c@)
}

fn one(c: Check) -> (r: Vec<Check>)
    ensures
        checks_view(r@) == seq![c@],
{
    let mut r = Vec::new();
    r.push(c);
    assert(checks_view(r@) =~= seq![c@]);
    r
}

/// The checks that validating `tool` consists of. An unrecognized name fails
/// with `UnrecognizedTool` here, before any check is run.
pub fn validation_plan(tool: &str) -> (r: Result<Vec<Check>, ValidationError>)
    ensures
        recipe(tool@) matches Some(p) ==> (r matches Ok(v) && checks_view(v@) == p),
        recipe(tool@) is None ==> (r matches Err(e) && e@ == ErrorView::UnrecognizedTool(tool@)),
{
    if same_text(tool, "clang") || same_text(tool, "clang++") || same_text(tool, "clangd") {
        Ok(one(Check::ClangTool(owned(tool))))
    } else if same_text(tool, "clang-format") {
        let mut r = Vec::new();
        r.push(Check::ClangTool(owned(tool)));
        r.push(Check::Python3);
        r.push(Check::XtaskBin(owned("run-clang-format.py")));
        assert(checks_view(r@) =~= recipe(tool@)->Some_0);
        Ok(r)
    } else if same_text(tool, "clang-tidy") {
        let mut r = Vec::new();
        r.push(Check::ClangTool(owned(tool)));
        r.push(Check::ClangTool(owned("run-clang-tidy")));
        assert(checks_view(r@) =~= recipe(tool@)->Some_0);
        Ok(r)
    } else if same_text(tool, "cargo-clippy") || same_text(tool, "cargo-fmt") || same_text(
        tool,
        "cargo-miri",
    ) {
        Ok(one(Check::CargoComponent(owned(tool))))
    } else if same_text(tool, "cargo-tarpaulin") || same_text(tool, "cargo-udeps") || same_text(
        tool,
        "cargo-valgrind",
    ) {
        Ok(one(Check::CargoTool(owned(tool))))
    } else if same_text(tool, "cmake") || same_text(tool, "ninja") {
        Ok(one(Check::OtherTool(owned(tool))))
    } else {
        Err(ValidationError::UnrecognizedTool { tool: owned(tool) })
    }
}

/// Whether some result in `results` failed; the index of the first that did.
pub open spec fn first_failure(results: Seq<Result<Validation, ValidationError>>) -> Option<int>
    decreases results.len(),
{
    if results.len() == 0 {
        None
    } else {
        match first_failure(results.drop_last()) {
            Some(i) => Some(i),
            None => if results.last() is Err {
                Some(results.len() - 1)
            } else {
                None
            },
        }
    }
}

/// The tool remappings of all results, merged in order.
pub open spec fn all_tools(results: Seq<Result<Validation, ValidationError>>) -> Seq<Entry>
    decreases results.len(),
{
    if results.len() == 0 {
        Seq::empty()
    } else {
        match results.last() {
            Ok(v) => merged(all_tools(results.drop_last()), v.tools@),
            Err(_) => all_tools(results.drop_last()),
        }
    }
}

/// The environment overlays of all results, merged in order.
pub open spec fn all_env_vars(results: Seq<Result<Validation, ValidationError>>) -> Seq<Entry>
    decreases results.len(),
{
    if results.len() == 0 {
        Seq::empty()
    } else {
        match results.last() {
            Ok(v) => merged(all_env_vars(results.drop_last()), v.env_vars@),
            Err(_) => all_env_vars(results.drop_last()),
        }
    }
}

/// Puts the results of the constituent checks together, in order: the first
/// failure is the outcome, with no partial result; where none failed, the
/// results are combined, a later entry winning on a shared key.
pub fn aggregate(results: Vec<Result<Validation, ValidationError>>) -> (r: Result<Validation, ValidationError>)
    ensures
        first_failure(results@) matches Some(i) ==> r == results@[i],
        first_failure(results@) is None ==> (r matches Ok(v) && v.wf() && v.tools@ == all_tools(
            results@,
        ) && v.env_vars@ == all_env_vars(results@)),
{
    let ghost all = results@;
    let mut acc = Validation::new();
    assert(all.subrange(0, 0) =~= Seq::<Result<Validation, ValidationError>>::empty());
    for item in it: results
        invariant
            it.seq() == all,
            acc.wf(),
            first_failure(all.subrange(0, it.index() as int)) is None,
            acc.tools@ == all_tools(all.subrange(0, it.index() as int)),
            acc.env_vars@ == all_env_vars(all.subrange(0, it.index() as int)),
    {
        let ghost k = it.index();
        assert(all.subrange(0, k + 1).drop_last() =~= all.subrange(0, k as int));
        match item {
            Ok(v) => {
                acc.combine(v);
            },
            Err(e) => {
                proof {
                    lemma_first_failure_prefix(all, k + 1);
                }
                return Err(e);
            },
        }
    }
    assert(all.subrange(0, all.len() as int) =~= all);
    Ok(acc)
}

/// A failure in a prefix is the first failure of the whole.
proof fn lemma_first_failure_prefix(all: Seq<Result<Validation, ValidationError>>, n: int)
    requires
        0 <= n <= all.len(),
        first_failure(all.subrange(0, n)) is Some,
    ensures
        first_failure(all) == first_failure(all.subrange(0, n)),
    decreases all.len() - n,
{
    if n < all.len() {
        assert(all.subrange(0, n + 1).drop_last() =~= all.subrange(0, n));
        lemma_first_failure_prefix(all, n + 1);
    } else {
        assert(all.subrange(0, n) =~= all);
    }
}

/// Where a tool consists of two constituents and the first succeeds while the
/// second fails, the whole validation fails with the second one's error, and
/// no result of the first is handed out.
pub proof fn lemma_second_failure_surfaces(
    first: Result<Validation, ValidationError>,
    second: Result<Validation, ValidationError>,
)
    requires
        first is Ok,
        second is Err,
    ensures
        first_failure(seq![first, second]) == Some(1int),
{
    let s = seq![first, second];
    assert(s.drop_last() =~= seq![first]);
    assert(seq![first].drop_last() =~= Seq::<Result<Validation, ValidationError>>::empty());
    assert(first_failure(Seq::<Result<Validation, ValidationError>>::empty()) is None);
    assert(first_failure(seq![first]) is None);
}

/// The cargo subcommand a tool name stands for: `cargo-` dropped.
pub open spec fn cargo_subcommand(tool: Seq<char>) -> Seq<char> {
    if is_prefix("cargo-"@, tool) {
        tool.subrange("cargo-"@.len() as int, tool.len() as int)
    } else {
        tool
    }
}

/// The component that provides a cargo subcommand.
pub open spec fn component_name(subcommand: Seq<char>) -> Seq<char> {
    if subcommand == "doc"@ {
        "rustdoc"@
    } else {
        subcommand
    }
}

/// The channel a component is validated on: the project's toolchain where
/// the configuration says nightly, else stable.
pub open spec fn component_channel(config: Config, configured: Seq<char>) -> Seq<char> {
    if configured == "nightly"@ {
        config.rust_toolchain.toolchain.channel@
    } else {
        "stable"@
    }
}

/// `name` inside directory `dir`.
pub open spec fn path_join(dir: Seq<char>, name: Seq<char>) -> Seq<char> {
    if dir.len() == 0 || dir.last() == '/' {
        dir + name
    } else {
        dir + "/"@ + name
    }
}

/// An attempt with no overlay.
pub open spec fn plain_attempt(program: Seq<char>, args: Seq<Seq<char>>) -> AttemptView {
    AttemptView { program, args, overlay: Seq::empty() }
}

fn make_attempt(program: String, args: Vec<String>) -> (r: ProbeAttempt)
    ensures
        r@ == plain_attempt(program@, args@.map_values(|a: String| a@)),
{
    ProbeAttempt { program, args, overlay: StringMap::new() }
}

/// The probe of a toolchain component: `cargo +<channel> <subcommand> --help`.
/// Fails where the configuration lists no such component.
pub fn cargo_component_attempt(config: &Config, tool: &str) -> (r: Result<ProbeAttempt, ValidationError>)
    ensures
        ({
            let sub = cargo_subcommand(tool@);
            let table = as_map(component_entries(config.xtask.rust.components@));
            &&& !table.contains_key(component_name(sub)) ==> (r matches Err(e) && e@
                == ErrorView::UnrecognizedComponent(sub))
            &&& table.contains_key(component_name(sub)) ==> (r matches Ok(a) && a@ == plain_attempt(
                "cargo"@,
                seq![
                    "+"@ + component_channel(*config, table[component_name(sub)]),
                    sub,
                    "--help"@,
                ],
            ))
        }),
{
    let sub = if has_prefix(tool, "cargo-") {
        slice_of(tool, "cargo-".unicode_len(), tool.unicode_len())
    } else {
        owned(tool)
    };
    let name = if same_text(sub.as_str(), "doc") {
        owned("rustdoc")
    } else {
        sub.clone()
    };
    match config.xtask.rust.component(name.as_str()) {
        Some(component) => {
            let channel = if same_text(component.toolchain.as_str(), "nightly") {
                crate::config::nightly(config)
            } else {
                crate::config::stable(config)
            };
            let mut args: Vec<String> = Vec::new();
            args.push(joined("+", channel));
            args.push(sub);
            args.push(owned("--help"));
            let r = make_attempt(owned("cargo"), args);
            assert(r@.args =~= seq![
                "+"@ + component_channel(*config, component.toolchain@),
                cargo_subcommand(tool@),
                "--help"@,
            ]);
            Ok(r)
        },
        None => Err(ValidationError::UnrecognizedComponent { component: sub }),
    }
}

/// The probe of an executable on the search path: `<tool> <flag>`.
pub fn flag_attempt(tool: &str, flag: &str) -> (r: ProbeAttempt)
    ensures
        r@ == plain_attempt(tool@, seq![flag@]),
{
    let mut args: Vec<String> = Vec::new();
    args.push(owned(flag));
    let r = make_attempt(owned(tool), args);
    assert(r@.args =~= seq![flag@]);
    r
}

/// Where a helper script is fetched from; `None` for one this engine does not know.
pub fn xtask_bin_url(tool: &str) -> (r: Option<&'static str>)
    ensures
        tool@ == "run-clang-format.py"@ ==> (r matches Some(u) && u@
            == "https://raw.githubusercontent.com/Sarcasm/run-clang-format/master/run-clang-format.py"@),
        tool@ != "run-clang-format.py"@ ==> r is None,
{
    if same_text(tool, "run-clang-format.py") {
        Some("https://raw.githubusercontent.com/Sarcasm/run-clang-format/master/run-clang-format.py")
    } else {
        None
    }
}

/// The probe of a helper script: `python3 <helper dir>/<tool> --help`. Fails
/// for a script this engine does not know.
pub fn xtask_bin_attempt(config: &Config, tool: &str) -> (r: Result<ProbeAttempt, ValidationError>)
    ensures
        tool@ == "run-clang-format.py"@ ==> (r matches Ok(a) && a@ == plain_attempt(
            "python3"@,
            seq![path_join(config.xtask_bin_dir@, tool@), "--help"@],
        )),
        tool@ != "run-clang-format.py"@ ==> (r matches Err(e) && e@ == ErrorView::UnrecognizedBin(
            tool@,
        )),
{
    if !same_text(tool, "run-clang-format.py") {
        return Err(ValidationError::UnrecognizedBin { tool: owned(tool) });
    }
    let dir = config.xtask_bin_dir.as_str();
    let n = dir.unicode_len();
    let path = if n == 0 || dir.get_char(n - 1) == '/' {
        joined(dir, tool)
    } else {
        let with_sep = joined(dir, "/");
        joined(with_sep.as_str(), tool)
    };
    let mut args: Vec<String> = Vec::new();
    args.push(path);
    args.push(owned("--help"));
    let r = make_attempt(owned("python3"), args);
    assert(r@.args =~= seq![path_join(config.xtask_bin_dir@, tool@), "--help"@]);
    Ok(r)
}

/// The probe of a check other than a clang tool's (those go through the
/// resolution strategy).
pub fn check_attempt(config: &Config, check: &Check) -> (r: Result<ProbeAttempt, ValidationError>)
    requires
        !(check is ClangTool),
    ensures
        check matches Check::Python3 ==> (r matches Ok(a) && a@ == plain_attempt(
            "python3"@,
            seq!["--help"@],
        )),
        check matches Check::XtaskBin(t) ==> (r matches Ok(a) ==> a@ == plain_attempt(
            "python3"@,
            seq![path_join(config.xtask_bin_dir@, t@), "--help"@],
        )),
        check matches Check::XtaskBin(t) ==> (r is Ok <==> t@ == "run-clang-format.py"@),
        check matches Check::CargoTool(t) ==> (r matches Ok(a) && a@ == plain_attempt(
            t@,
            seq!["--help"@],
        )),
        check matches Check::OtherTool(t) ==> (r matches Ok(a) && a@ == plain_attempt(
            t@,
            seq![if t@ == "ninja"@ { "--version"@ } else { "--help"@ }],
        )),
        check matches Check::CargoComponent(t) ==> (r is Ok <==> as_map(
            component_entries(config.xtask.rust.components@),
        ).contains_key(component_name(cargo_subcommand(t@)))),
{
    match check {
        Check::ClangTool(_) => Err(ValidationError::NotFound { tool: owned("clang") }),
        Check::Python3 => Ok(flag_attempt("python3", "--help")),
        Check::XtaskBin(t) => xtask_bin_attempt(config, t.as_str()),
        Check::CargoComponent(t) => cargo_component_attempt(config, t.as_str()),
        Check::CargoTool(t) => Ok(flag_attempt(t.as_str(), "--help")),
        Check::OtherTool(t) => {
            if same_text(t.as_str(), "ninja") {
                Ok(flag_attempt(t.as_str(), "--version"))
            } else {
                Ok(flag_attempt(t.as_str(), "--help"))
            }
        },
    }
}

/// The name a check's errors carry.
pub fn check_label(check: &Check) -> (r: String)
    ensures
        match check {
            Check::ClangTool(t) => r@ == t@,
            Check::Python3 => r@ == "python3"@,
            Check::XtaskBin(t) => r@ == t@,
            Check::CargoComponent(t) => r@ == t@,
            Check::CargoTool(t) => r@ == t@,
            Check::OtherTool(t) => r@ == t@,
        },
{
    match check {
        Check::ClangTool(t) => t.clone(),
        Check::Python3 => owned("python3"),
        Check::XtaskBin(t) => t.clone(),
        Check::CargoComponent(t) => t.clone(),
        Check::CargoTool(t) => t.clone(),
        Check::OtherTool(t) => t.clone(),
    }
}

/// The verdict on the probe of a check that only needs the executable to run
/// and succeed; it contributes nothing to the result.
pub fn check_verdict(label: &str, output: &ProbeOutput) -> (r: Result<Validation, ValidationError>)
    ensures
        output is NotFound ==> (r matches Err(e) && e@ == ErrorView::NotFound(label@)),
        output is NonZeroExit ==> (r matches Err(e) && e@ == ErrorView::NonZeroExit(label@)),
        output is Succeeded ==> (r matches Ok(v) && v.wf() && v.tools@.len() == 0
            && v.env_vars@.len() == 0),
{
    match output {
        ProbeOutput::NotFound => Err(ValidationError::NotFound { tool: owned(label) }),
        ProbeOutput::NonZeroExit => Err(ValidationError::NonZeroExit { tool: owned(label) }),
        ProbeOutput::Succeeded { .. } => Ok(Validation::new()),
    }
}

/// What to do after probing a helper script.
#[derive(Debug, PartialEq, Eq)]
pub enum BinStep {
    /// The script runs.
    Ready,
    /// Fetch the script; then probe again where `recheck` is set, else stop.
    Install { recheck: bool },
}

/// The decision after probing a helper script: a script that runs is ready;
/// else it is fetched, and probed once more only on the first round.
pub fn after_bin_probe(output: &ProbeOutput, first_round: bool) -> (r: BinStep)
    ensures
        output is Succeeded ==> r == BinStep::Ready,
        !(output is Succeeded) ==> r == (BinStep::Install { recheck: first_round }),
{
    match output {
        ProbeOutput::Succeeded { .. } => BinStep::Ready,
        _ => BinStep::Install { recheck: first_round },
    }
}

} // verus!
