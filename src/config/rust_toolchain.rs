//! The project's toolchain file.
use vstd::prelude::*;

verus! {

pub struct RustToolchain {
    pub toolchain: RustToolchainToolchain,
}

pub struct RustToolchainToolchain {
    pub channel: String,
    pub path: Option<String>,
    pub profile: Option<String>,
    pub components: Vec<String>,
    pub targets: Vec<String>,
}

} // verus!
