//! Locating, probing and validating the outside tools that a development
//! workflow shells out to: naming and search-path strategies, version checks
//! against a configured pattern, and the environment overlays that result.
pub mod text;
pub mod overlay;
pub mod config;
pub mod version;
pub mod probe;
pub mod validation;
pub mod resolution;
pub mod plan;
pub mod detection;
pub mod toolchain;
pub mod command;
pub mod handler;
