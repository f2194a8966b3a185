//! Rust-native configuration and command glue for Docusaurus sites.
//!
//! The library holds the logic that turns a site configuration and a command
//! line into the JavaScript that drives `@docusaurus/core`, with contracts
//! proved by Verus. What the file system, cargo, the dynamic loader and
//! `node` do is left to the caller; where their answers decide (whether a
//! file exists, whether a step failed), the library states its result for
//! whatever answer came back.

pub mod text;
pub mod js;
pub mod json;
pub mod addon;
pub mod error;
pub mod paths;
pub mod bridge;
pub mod compile;
pub mod config;
pub mod cli;
pub mod runner;
