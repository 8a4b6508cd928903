//! The configuration the engine reads: expected tools, version patterns,
//! naming suffix, platform search-path rules and toolchain channels.
//! Loading it from the project's files is left to the caller.
pub mod rust_toolchain;

pub use self::rust_toolchain::{RustToolchain, RustToolchainToolchain};
use crate::overlay::StringMap;
use vstd::prelude::*;

verus! {

/// Paths of the C++ tools that the project's build configuration produced.
pub struct CMakeContext {
    pub bin_clang_format: String,
    pub bin_clang_tidy: String,
    pub bin_run_clang_format: String,
    pub bin_run_clang_tidy: String,
}

/// The tool expectations of the project.
pub struct Xtask {
    pub clang: XtaskClang,
    pub rust: XtaskRust,
}

/// Expectations on the clang tools.
pub struct XtaskClang {
    /// Per tool name, a pattern whose first group captures the version.
    pub matchers: StringMap,
    pub platform: XtaskPlatform,
    /// Appended to a tool's name for the pinned executable (`-14`).
    pub suffix: String,
    /// The expected version prefix.
    pub version: String,
}

pub struct XtaskPlatform {
    pub macos: XtaskPlatformMacos,
}

pub struct XtaskPlatformMacos {
    pub search_paths: Vec<XtaskPlatformMacosSearchPath>,
}

/// A rule that discovers further directories to search.
pub enum XtaskPlatformMacosSearchPath {
    /// The install prefix that Homebrew reports for the versioned LLVM formula.
    Homebrew,
}

pub struct XtaskRust {
    /// Per component name, the channel it is validated on.
    pub components: Vec<(String, XtaskRustComponent)>,
    pub toolchain: XtaskRustToolchain,
}

pub struct XtaskRustComponent {
    pub toolchain: String,
}

pub struct XtaskRustToolchain {
    pub nightly: String,
}

/// Everything the engine reads, once loaded.
pub struct Config {
    pub cmake_context: CMakeContext,
    /// The root directory of the workspace.
    pub workspace_root: String,
    pub rust_toolchain: RustToolchain,
    pub xtask: Xtask,
    /// The directory that holds helper scripts.
    pub xtask_bin_dir: String,
}

/// The component table as (name, channel) entries.
pub open spec fn component_entries(c: Seq<(String, XtaskRustComponent)>) -> Seq<
    crate::overlay::Entry,
> {
    c.map_values(|e: (String, XtaskRustComponent)| (e.0@, e.1.toolchain@))
}

impl XtaskRust {
    /// The channel configured for a component; the last entry for a name wins.
    pub fn component(&self, name: &str) -> (r: Option<&XtaskRustComponent>)
        ensures
            r matches Some(c) ==> crate::overlay::as_map(component_entries(self.components@)).contains_key(name@)
                && c.toolchain@ == crate::overlay::as_map(component_entries(self.components@))[name@],
            r is None ==> !crate::overlay::as_map(component_entries(self.components@)).contains_key(name@),
    {
        let ghost s = component_entries(self.components@);
        let n = self.components.len();
        let mut i: usize = n;
        assert(s.subrange(0, n as int) =~= s);
        while i > 0
            invariant
                i <= n,
                n == s.len(),
                s == component_entries(self.components@),
                crate::overlay::position(s, name@) == crate::overlay::position(
                    s.subrange(0, i as int),
                    name@,
                ),
            decreases i,
        {
            assert(s.subrange(0, i as int).drop_last() =~= s.subrange(0, i - 1));
            assert(s[i - 1] == (self.components@[i - 1].0@, self.components@[i - 1].1.toolchain@));
            if crate::text::same_text(self.components[i - 1].0.as_str(), name) {
                proof {
                    crate::overlay::lemma_as_map(s, name@);
                }
                return Some(&self.components[i - 1].1);
            }
            i = i - 1;
        }
        proof {
            crate::overlay::lemma_as_map(s, name@);
        }
        None
    }
}

/// The channel used for stable tooling.
pub fn stable(config: &Config) -> (r: &'static str)
    ensures
        r@ == "stable"@,
{
    "stable"
}

/// The channel used for nightly tooling: the one the project's toolchain file names.
pub fn nightly(config: &Config) -> (r: &str)
    ensures
        r@ == config.rust_toolchain.toolchain.channel@,
{
    config.rust_toolchain.toolchain.channel.as_str()
}

} // verus!
