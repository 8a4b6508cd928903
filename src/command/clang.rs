//! The `clang` subcommand: the format and tidy drivers the build configured.
use super::{invocation, CommandError, Invocation, InvocationView};
use crate::config::CMakeContext;
use crate::detection::texts;
use crate::overlay::StringMap;
use crate::text::{owned, same_text};
use vstd::prelude::*;

verus! {

/// The usage text of the `clang` subcommand.
pub const CLANG_HELP: &'static str = "xtask-clang

    USAGE:
    xtask clang [SUBCOMMAND]

    FLAGS:
    -h, --help          Prints help information
    -- '...'            Extra arguments to pass to the clang subcommand

    SUBCOMMANDS:
        format          Run run-clang-format.py on the project's C++ code
                        Use `-- --help` to see the usage for run-clang-format.py
        tidy            Run run-clang-tidy      on the project's C++ code
                        Use `-- --help` to see the usage for run-clang-tidy";

/// The usage text of the `clang` subcommand.
pub fn help() -> (r: &'static str)
    ensures
        r@ == CLANG_HELP@,
{
    CLANG_HELP
}

/// Whether `args` holds `flag`.
pub fn holds_flag(args: &Vec<String>, flag: &str) -> (r: bool)
    ensures
        r == texts(args@).contains(flag@),
{
    let n = args.len();
    let mut i: usize = 0;
    while i < n
        invariant
            n == args@.len(),
            i <= n,
            forall|j: int| 0 <= j < i ==> texts(args@)[j] != flag@,
        decreases n - i,
    {
        if same_text(args[i].as_str(), flag) {
            assert(texts(args@)[i as int] == flag@);
            return true;
        }
        i = i + 1;
    }
    false
}

/// `driver [flag tool] <extra>`: the flag naming the tool is added where the
/// extra arguments do not hold it already.
pub open spec fn driver_args(flag: Seq<char>, tool: Seq<char>, extra: Seq<Seq<char>>) -> Seq<Seq<char>> {
    if extra.contains(flag) {
        extra
    } else {
        seq![flag, tool] + extra
    }
}

fn driver(program: &String, flag: &str, tool: &String, extra: Vec<String>) -> (r: Invocation)
    ensures
        r@ == (InvocationView {
            program: program@,
            args: driver_args(flag@, tool@, texts(extra@)),
            current_dir: None,
            env: Seq::empty(),
        }),
{
    let mut fixed: Vec<String> = Vec::new();
    if !holds_flag(&extra, flag) {
        fixed.push(owned(flag));
        fixed.push(tool.clone());
    }
    assert(texts(fixed@) + texts(extra@) =~= driver_args(flag@, tool@, texts(extra@)));
    invocation(program.clone(), fixed, extra, None, StringMap::new())
}

/// The processes the `clang` subcommand runs, in order, each only where the
/// one before succeeded: for `format` the format driver; for `tidy` a
/// `cargo check`, then the tidy driver.
pub fn clang(subcommand: &str, cmake: &CMakeContext, extra: Vec<String>) -> (r: Result<Vec<Invocation>, CommandError>)
    ensures
        subcommand@ == "format"@ ==> (r matches Ok(v) && v@.len() == 1 && v@[0]@ == (InvocationView {
            program: cmake.bin_run_clang_format@,
            args: driver_args("--clang-format-executable"@, cmake.bin_clang_format@, texts(extra@)),
            current_dir: None,
            env: Seq::empty(),
        })),
        subcommand@ == "tidy"@ ==> (r matches Ok(v) && v@.len() == 2 && v@[0]@ == (InvocationView {
            program: "cargo"@,
            args: seq!["check"@],
            current_dir: None,
            env: Seq::empty(),
        }) && v@[1]@ == (InvocationView {
            program: cmake.bin_run_clang_tidy@,
            args: driver_args("-clang-tidy-binary"@, cmake.bin_clang_tidy@, texts(extra@)),
            current_dir: None,
            env: Seq::empty(),
        })),
        subcommand@ != "format"@ && subcommand@ != "tidy"@ ==> (r matches Err(
            CommandError::UnrecognizedSubcommand { command, subcommand: s },
        ) && command@ == "clang"@ && s@ == subcommand@),
{
    proof {
        reveal_strlit("format");
        reveal_strlit("tidy");
        assert("format"@.len() != "tidy"@.len());
    }
    let mut out: Vec<Invocation> = Vec::new();
    if same_text(subcommand, "format") {
        out.push(driver(&cmake.bin_run_clang_format, "--clang-format-executable", &cmake.bin_clang_format, extra));
        Ok(out)
    } else if same_text(subcommand, "tidy") {
        let mut check_args: Vec<String> = Vec::new();
        check_args.push(owned("check"));
        assert(texts(check_args@) =~= seq!["check"@]);
        let first = Invocation { program: owned("cargo"), args: check_args, current_dir: None, env: StringMap::new() };
        assert(first@.args == seq!["check"@]);
        let second = driver(&cmake.bin_run_clang_tidy, "-clang-tidy-binary", &cmake.bin_clang_tidy, extra);
        out.push(first);
        out.push(second);
        assert(out@[0] == first && out@[1] == second);
        Ok(out)
    } else {
        Err(CommandError::UnrecognizedSubcommand { command: owned("clang"), subcommand: owned(subcommand) })
    }
}

} // verus!
