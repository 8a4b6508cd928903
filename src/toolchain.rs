//! Whether a toolchain is installed, judged from the list the toolchain
//! manager prints.
use crate::overlay::StringMap;
use crate::plan::plain_attempt;
use crate::probe::{ProbeAttempt, ProbeOutput};
use crate::text::{has_prefix, is_prefix, owned, slice_of};
use crate::validation::{ErrorView, ValidationError};
use vstd::prelude::*;
use vstd::string::StrSliceExecFns;

verus! {

/// Where the line that starts at `p` ends: the next newline, or the end.
pub open spec fn line_end(s: Seq<char>, p: int) -> int
    decreases s.len() - p,
{
    if p < 0 || p >= s.len() || s[p] == '\n' {
        p
    } else {
        line_end(s, p + 1)
    }
}

/// A line starts at `p`.
pub open spec fn line_start(s: Seq<char>, p: int) -> bool {
    0 <= p < s.len() && (p == 0 || s[p - 1] == '\n')
}

/// The line that starts at `p`, without its line ending (`\\n` or `\\r\\n`).
pub open spec fn line_at(s: Seq<char>, p: int) -> Seq<char> {
    let e = line_end(s, p);
    let raw = s.subrange(p, e);
    if e < s.len() && raw.len() > 0 && raw.last() == '\r' {
        raw.drop_last()
    } else {
        raw
    }
}

/// Some line of `listing` starts with `toolchain`.
pub open spec fn toolchain_listed(listing: Seq<char>, toolchain: Seq<char>) -> bool {
    exists|p: int| line_start(listing, p) && is_prefix(toolchain, #[trigger] line_at(listing, p))
}

proof fn lemma_line_end(s: Seq<char>, p: int)
    requires
        0 <= p <= s.len(),
    ensures
        p <= line_end(s, p) <= s.len(),
        line_end(s, p) < s.len() ==> s[line_end(s, p)] == '\n',
        forall|j: int| p <= j < line_end(s, p) ==> s[j] != '\n',
    decreases s.len() - p,
{
    if p < s.len() && s[p] != '\n' {
        lemma_line_end(s, p + 1);
    }
}

/// Whether some line of `listing` starts with `toolchain`.
pub fn lists_toolchain(listing: &str, toolchain: &str) -> (r: bool)
    ensures
        r == toolchain_listed(listing@, toolchain@),
{
    let ghost s = listing@;
    let n = listing.unicode_len();
    let mut p: usize = 0;
    while p < n
        invariant
            n == s.len(),
            s == listing@,
            p <= n,
            p == 0 || s[p - 1] == '\n',
            forall|q: int| 0 <= q < p && line_start(s, q) ==> !is_prefix(toolchain@, #[trigger] line_at(s, q)),
        decreases n - p,
    {
        let mut e: usize = p;
        while e < n && listing.get_char(e) != '\n'
            invariant
                n == s.len(),
                s == listing@,
                p <= e <= n,
                line_end(s, p as int) == line_end(s, e as int),
            decreases n - e,
        {
            e = e + 1;
        }
        proof {
            lemma_line_end(s, p as int);
        }
        assert(e == line_end(s, p as int));
        let line = if e < n && e > p && listing.get_char(e - 1) == '\r' {
            slice_of(listing, p, e - 1)
        } else {
            slice_of(listing, p, e)
        };
        assert(line@ =~= line_at(s, p as int));
        if has_prefix(line.as_str(), toolchain) {
            assert(line_start(s, p as int));
            return true;
        }
        assert forall|q: int| 0 <= q < e + 1 && line_start(s, q) implies !is_prefix(
            toolchain@,
            #[trigger] line_at(s, q),
        ) by {
            if q > p {
                assert(s[q - 1] != '\n');
            }
        }
        if e == n {
            return false;
        }
        p = e + 1;
    }
    false
}

/// The probe that lists the installed toolchains.
pub fn toolchain_list_attempt() -> (r: ProbeAttempt)
    ensures
        r@ == plain_attempt("rustup"@, seq!["toolchain"@, "list"@]),
{
    let mut args: Vec<String> = Vec::new();
    args.push(owned("toolchain"));
    args.push(owned("list"));
    let r = ProbeAttempt { program: owned("rustup"), args, overlay: StringMap::new() };
    assert(r@.args =~= seq!["toolchain"@, "list"@]);
    r
}

/// The verdict on the toolchain list: the toolchain is installed where some
/// line of the list starts with its name.
pub fn validate_rust_toolchain(toolchain: &str, output: &ProbeOutput) -> (r: Result<(), ValidationError>)
    ensures
        output is NotFound ==> (r matches Err(e) && e@ == ErrorView::NotFound("rustup"@)),
        output is NonZeroExit ==> (r matches Err(e) && e@ == ErrorView::NonZeroExit("rustup"@)),
        output matches ProbeOutput::Succeeded { stdout: None } ==> (r matches Err(e) && e@
            == ErrorView::InvalidOutput("rustup"@)),
        output matches ProbeOutput::Succeeded { stdout: Some(text) } ==> (r is Ok <==> toolchain_listed(
            text@,
            toolchain@,
        )),
        output matches ProbeOutput::Succeeded { stdout: Some(text) } ==> (r matches Err(e) ==> e@
            == ErrorView::MissingToolchain(toolchain@)),
{
    match output {
        ProbeOutput::NotFound => Err(ValidationError::NotFound { tool: owned("rustup") }),
        ProbeOutput::NonZeroExit => Err(ValidationError::NonZeroExit { tool: owned("rustup") }),
        ProbeOutput::Succeeded { stdout: None } => Err(
            ValidationError::InvalidOutput { tool: owned("rustup") },
        ),
        ProbeOutput::Succeeded { stdout: Some(text) } => {
            if lists_toolchain(text.as_str(), toolchain) {
                Ok(())
            } else {
                Err(ValidationError::MissingToolchain { toolchain: owned(toolchain) })
            }
        },
    }
}

} // verus!
