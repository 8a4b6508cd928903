//! The resolution strategy for a clang tool: an ordered list of probe
//! attempts (name with the configured suffix, then the bare name; each first
//! without and then with the augmented search path), tried until the first
//! one whose probe succeeds and whose version, where a pattern is configured,
//! has the expected prefix.
//!
//! The caller runs each probe and hands its output back; the decisions are
//! made here.
use crate::config::XtaskClang;
use crate::overlay::{as_map, Entry, StringMap};
use crate::probe::{AttemptView, ProbeAttempt, ProbeOutput};
use crate::text::{is_prefix, joined, owned, same_text};
use crate::validation::{ErrorView, Validation, ValidationError};
use crate::version::{compare_version, first_group, pattern_compiles, VersionError, VersionMatcher};
use vstd::prelude::*;

verus! {

/// The flag a probe passes: a version report where a version is checked, else help.
pub open spec fn probe_flag(checks_version: bool) -> Seq<char> {
    if checks_version {
        "--version"@
    } else {
        "--help"@
    }
}

/// The overlay of an attempt: the search path set to the augmented one, or nothing.
pub open spec fn path_overlay(search_path: Option<Seq<char>>) -> Seq<Entry> {
    match search_path {
        Some(p) => seq![("PATH"@, p)],
        None => Seq::empty(),
    }
}

pub open spec fn planned(program: Seq<char>, checks_version: bool, search_path: Option<Seq<char>>) -> AttemptView {
    AttemptView {
        program,
        args: seq![probe_flag(checks_version)],
        overlay: path_overlay(search_path),
    }
}

/// The attempts in their fixed order: suffixed name without overlay, suffixed
/// name with the augmented search path, bare name without, bare name with.
/// Where there is no augmentation the attempts with an overlay are left out.
pub open spec fn attempt_plan(
    tool: Seq<char>,
    suffix: Seq<char>,
    checks_version: bool,
    search_path: Option<Seq<char>>,
) -> Seq<AttemptView> {
    let suffixed = tool + suffix;
    match search_path {
        Some(p) => seq![
            planned(suffixed, checks_version, None),
            planned(suffixed, checks_version, Some(p)),
            planned(tool, checks_version, None),
            planned(tool, checks_version, Some(p)),
        ],
        None => seq![planned(suffixed, checks_version, None), planned(tool, checks_version, None)],
    }
}

/// The verdict on one probe: accepted, or the error of that attempt.
pub open spec fn probe_verdict(
    tool: Seq<char>,
    pattern: Option<Seq<char>>,
    expected: Seq<char>,
    output: ProbeOutput,
) -> Result<(), ErrorView> {
    match output {
        ProbeOutput::NotFound => Err(ErrorView::NotFound(tool)),
        ProbeOutput::NonZeroExit => Err(ErrorView::NonZeroExit(tool)),
        ProbeOutput::Succeeded { stdout } => match pattern {
            None => Ok(()),
            Some(p) => match stdout {
                None => Err(ErrorView::InvalidOutput(tool)),
                Some(text) => match first_group(p, text@) {
                    None => Err(ErrorView::NoVersionMatch(tool)),
                    Some(v) => if is_prefix(expected, v) {
                        Ok(())
                    } else {
                        Err(ErrorView::VersionMismatch(tool, expected, v))
                    },
                },
            },
        },
    }
}

/// The name remapping an accepted attempt records: the executable name, where
/// it differs from the tool's own name.
pub open spec fn renamed(tool: Seq<char>, program: Seq<char>) -> Seq<Entry> {
    if program == tool {
        Seq::empty()
    } else {
        seq![(tool, program)]
    }
}

/// The pattern configured for `tool`, if any.
pub open spec fn pattern_for(clang: XtaskClang, tool: Seq<char>) -> Option<Seq<char>> {
    if as_map(clang.matchers@).contains_key(tool) {
        Some(as_map(clang.matchers@)[tool])
    } else {
        None
    }
}

/// The view of an optional string.
pub open spec fn opt_text(s: Option<String>) -> Option<Seq<char>> {
    match s {
        Some(t) => Some(t@),
        None => None,
    }
}

/// The next thing to do after a probe.
pub enum Step {
    /// Probe the attempt with this index.
    Next(usize),
    /// The probe was accepted: this is the result.
    Resolved(Validation),
    /// No attempt is left.
    Failed(ValidationError),
}

/// The attempts for one tool, with what a probe must show to be accepted.
pub struct Resolution {
    tool: String,
    attempts: Vec<ProbeAttempt>,
    matcher: Option<VersionMatcher>,
    expected: String,
}

impl Resolution {
    /// The logical tool name.
    pub closed spec fn tool(&self) -> Seq<char> {
        self.tool@
    }

    /// The attempts, in order.
    pub closed spec fn attempts(&self) -> Seq<AttemptView> {
        self.attempts@.map_values(|a: ProbeAttempt| a@)
    }

    /// The version pattern, where one is configured.
    pub closed spec fn pattern(&self) -> Option<Seq<char>> {
        match self.matcher {
            Some(m) => Some(m.pattern()),
            None => None,
        }
    }

    /// The expected version prefix.
    pub closed spec fn expected(&self) -> Seq<char> {
        self.expected@
    }

    /// Every attempt sets at most one variable.
    pub closed spec fn wf(&self) -> bool {
        forall|i: int| 0 <= i < self.attempts@.len() ==> #[trigger] self.attempts@[i].overlay@.len() <= 1
    }

    /// Whether a probe output is accepted.
    pub open spec fn accepts(&self, output: ProbeOutput) -> bool {
        probe_verdict(self.tool(), self.pattern(), self.expected(), output) is Ok
    }

    /// The first attempt, from `from` on, whose output is accepted.
    pub open spec fn settles_at(&self, outputs: Seq<ProbeOutput>, from: int) -> Option<int>
        decreases outputs.len() - from,
    {
        if from < 0 || from >= outputs.len() || from >= self.attempts().len() {
            None
        } else if self.accepts(outputs[from]) {
            Some(from)
        } else {
            self.settles_at(outputs, from + 1)
        }
    }

    /// The result an accepted attempt gives.
    pub open spec fn accepted_result(&self, index: int, v: Validation) -> bool {
        &&& v.wf()
        &&& v.tools@ == renamed(self.tool(), self.attempts()[index].program)
        &&& v.env_vars@ == self.attempts()[index].overlay
    }

    /// Plans the resolution of `tool` under `clang`; `search_path` is the
    /// augmented search path, where the platform discovered further directories.
    /// Fails where the tool's version pattern does not compile.
    pub fn new(tool: &str, clang: &XtaskClang, search_path: Option<String>) -> (r: Result<Resolution, ValidationError>)
        ensures
            r is Err <==> (pattern_for(*clang, tool@) matches Some(p) && !pattern_compiles(p)),
            r matches Err(e) ==> e@ == ErrorView::InvalidPattern(tool@),
            r matches Ok(res) ==> {
                &&& res.wf()
                &&& res.tool() == tool@
                &&& res.pattern() == pattern_for(*clang, tool@)
                &&& res.expected() == clang.version@
                &&& res.attempts() == attempt_plan(
                    tool@,
                    clang.suffix@,
                    pattern_for(*clang, tool@) is Some,
                    opt_text(search_path),
                )
            },
    {
        let matcher = match clang.matchers.get(tool) {
            Some(p) => match VersionMatcher::new(p.as_str()) {
                Some(m) => Some(m),
                None => {
                    return Err(ValidationError::InvalidPattern { tool: owned(tool) });
                },
            },
            None => None,
        };
        let checks_version = matcher.is_some();
        let suffixed = joined(tool, clang.suffix.as_str());
        let mut attempts: Vec<ProbeAttempt> = Vec::new();
        attempts.push(Self::attempt(suffixed.as_str(), checks_version, None));
        match &search_path {
            Some(p) => {
                attempts.push(Self::attempt(suffixed.as_str(), checks_version, Some(p.as_str())));
                attempts.push(Self::attempt(tool, checks_version, None));
                attempts.push(Self::attempt(tool, checks_version, Some(p.as_str())));
            },
            None => {
                attempts.push(Self::attempt(tool, checks_version, None));
            },
        }
        let res = Resolution {
            tool: owned(tool),
            attempts,
            matcher,
            expected: clang.version.clone(),
        };
        assert(res.attempts() =~= attempt_plan(
            tool@,
            clang.suffix@,
            checks_version,
            opt_text(search_path),
        ));
        Ok(res)
    }

    fn attempt(program: &str, checks_version: bool, search_path: Option<&str>) -> (r: ProbeAttempt)
        ensures
            r@ == planned(
                program@,
                checks_version,
                match search_path {
                    Some(p) => Some(p@),
                    None => None,
                },
            ),
            r.overlay@.len() <= 1,
    {
        let flag = if checks_version {
            owned("--version")
        } else {
            owned("--help")
        };
        let mut args: Vec<String> = Vec::new();
        args.push(flag);
        let overlay = match search_path {
            Some(p) => StringMap::singleton(owned("PATH"), owned(p)),
            None => StringMap::new(),
        };
        let r = ProbeAttempt { program: owned(program), args, overlay };
        assert(r@.args =~= seq![probe_flag(checks_version)]);
        r
    }

    /// How many attempts there are.
    pub fn attempt_count(&self) -> (r: usize)
        ensures
            r == self.attempts().len(),
    {
        self.attempts.len()
    }

    /// The attempt with index `index`.
    pub fn attempt_at(&self, index: usize) -> (r: &ProbeAttempt)
        requires
            index < self.attempts().len(),
        ensures
            r@ == self.attempts()[index as int],
    {
        &self.attempts[index]
    }

    /// The result that accepting the attempt with index `index` gives.
    fn accepted(&self, index: usize) -> (r: Validation)
        requires
            self.wf(),
            index < self.attempts().len(),
        ensures
            self.accepted_result(index as int, r),
    {
        let a = &self.attempts[index];
        let tools = if same_text(a.program.as_str(), self.tool.as_str()) {
            StringMap::new()
        } else {
            StringMap::singleton(self.tool.clone(), a.program.clone())
        };
        let env_vars = a.overlay.duplicate();
        assert(self.attempts@[index as int].overlay@.len() <= 1);
        let r = Validation { tools, env_vars };
        assert(r.tools@ =~= renamed(self.tool(), self.attempts()[index as int].program));
        r
    }

    /// The verdict on the probe of the attempt with index `index`: its result,
    /// or the error of that attempt. A probe that exits successfully is
    /// accepted, whatever it printed, where no pattern is configured.
    pub fn evaluate(&self, index: usize, output: &ProbeOutput) -> (r: Result<Validation, ValidationError>)
        requires
            self.wf(),
            index < self.attempts().len(),
        ensures
            r is Ok <==> self.accepts(*output),
            r matches Ok(v) ==> self.accepted_result(index as int, v),
            r matches Err(e) ==> probe_verdict(self.tool(), self.pattern(), self.expected(), *output)
                == Err::<(), ErrorView>(e@),
            self.pattern() is None && output is Succeeded ==> r is Ok,
    {
        match output {
            ProbeOutput::NotFound => Err(ValidationError::NotFound { tool: self.tool.clone() }),
            ProbeOutput::NonZeroExit => Err(ValidationError::NonZeroExit { tool: self.tool.clone() }),
            ProbeOutput::Succeeded { stdout } => match &self.matcher {
                None => Ok(self.accepted(index)),
                Some(m) => match stdout {
                    None => Err(ValidationError::InvalidOutput { tool: self.tool.clone() }),
                    Some(text) => {
                        let found = m.first_group(text.as_str());
                        let verdict = match &found {
                            Some(v) => compare_version(Some(v.as_str()), self.expected.as_str()),
                            None => compare_version(None, self.expected.as_str()),
                        };
                        match verdict {
                            Ok(()) => Ok(self.accepted(index)),
                            Err(VersionError::NoMatch) => Err(
                                ValidationError::NoVersionMatch { tool: self.tool.clone() },
                            ),
                            Err(VersionError::Mismatch { expected_prefix, found }) => Err(
                                ValidationError::VersionMismatch {
                                    tool: self.tool.clone(),
                                    expected: expected_prefix,
                                    found,
                                },
                            ),
                        }
                    },
                },
            },
        }
    }

    /// What to do after the probe of the attempt with index `index`: stop with
    /// its result where it is accepted, else go on to the next attempt, and
    /// fail with `NotFound` after the last.
    pub fn decide(&self, index: usize, output: &ProbeOutput) -> (r: Step)
        requires
            self.wf(),
            index < self.attempts().len(),
        ensures
            self.accepts(*output) ==> (r matches Step::Resolved(v) && self.accepted_result(
                index as int,
                v,
            )),
            !self.accepts(*output) && index + 1 < self.attempts().len() ==> (r matches Step::Next(
                j,
            ) && j == index + 1),
            !self.accepts(*output) && index + 1 == self.attempts().len() ==> (r matches Step::Failed(
                e,
            ) && e@ == ErrorView::NotFound(self.tool())),
    {
        match self.evaluate(index, output) {
            Ok(v) => Step::Resolved(v),
            Err(_) => {
                let n = self.attempts.len();
                assert(n == self.attempts().len());
                if index < n - 1 {
                    Step::Next(index + 1)
                } else {
                    Step::Failed(ValidationError::NotFound { tool: self.tool.clone() })
                }
            },
        }
    }

    /// Runs the strategy over the outputs the probes of the attempts give, in
    /// order, stopping at the first accepted one.
    pub fn resolve_outputs(&self, outputs: &Vec<ProbeOutput>) -> (r: Result<Validation, ValidationError>)
        requires
            self.wf(),
            outputs@.len() == self.attempts().len(),
        ensures
            self.settles_at(outputs@, 0) matches Some(k) ==> (r matches Ok(v) && self.accepted_result(k, v)),
            self.settles_at(outputs@, 0) is None ==> (r matches Err(e) && e@ == ErrorView::NotFound(
                self.tool(),
            )),
    {
        let n = self.attempts.len();
        if n == 0 {
            return Err(ValidationError::NotFound { tool: self.tool.clone() });
        }
        let mut i: usize = 0;
        loop
            invariant
                self.wf(),
                n == self.attempts().len(),
                n == outputs@.len(),
                i < n,
                self.settles_at(outputs@, 0) == self.settles_at(outputs@, i as int),
            decreases n - i,
        {
            match self.decide(i, &outputs[i]) {
                Step::Next(j) => {
                    i = j;
                },
                Step::Resolved(v) => {
                    return Ok(v);
                },
                Step::Failed(e) => {
                    assert(self.settles_at(outputs@, i + 1) is None);
                    return Err(e);
                },
            }
        }
    }
}

/// Resolution tries the attempts in their fixed order and settles on the
/// first one whose probe is accepted: every attempt before it was refused, and
/// where none is accepted it settles on none.
pub proof fn lemma_first_accepted_wins(res: Resolution, outputs: Seq<ProbeOutput>, from: int)
    requires
        outputs.len() == res.attempts().len(),
        0 <= from <= outputs.len(),
    ensures
        res.settles_at(outputs, from) matches Some(k) ==> from <= k < outputs.len() && res.accepts(
            outputs[k],
        ) && forall|j: int| from <= j < k ==> !res.accepts(#[trigger] outputs[j]),
        res.settles_at(outputs, from) is None ==> forall|j: int|
            from <= j < outputs.len() ==> !res.accepts(#[trigger] outputs[j]),
    decreases outputs.len() - from,
{
    if from < outputs.len() {
        lemma_first_accepted_wins(res, outputs, from + 1);
    }
}

/// Resolving again with the same configuration, where every probe up to the
/// attempt settled on (every probe, where none was) reports the same as
/// before, settles on the same attempt: a resolution leaves nothing behind
/// that changes the next one.
pub proof fn lemma_resolution_repeatable(
    res: Resolution,
    first: Seq<ProbeOutput>,
    second: Seq<ProbeOutput>,
    from: int,
)
    requires
        first.len() == res.attempts().len(),
        second.len() == first.len(),
        0 <= from <= first.len(),
        forall|j: int|
            from <= j < first.len() && (res.settles_at(first, from) matches Some(k) ==> j <= k)
                ==> #[trigger] second[j] == first[j],
    ensures
        res.settles_at(second, from) == res.settles_at(first, from),
    decreases first.len() - from,
{
    if from < first.len() {
        lemma_first_accepted_wins(res, first, from);
        assert(second[from] == first[from]);
        if !res.accepts(first[from]) {
            lemma_resolution_repeatable(res, first, second, from + 1);
        }
    }
}

} // verus!
