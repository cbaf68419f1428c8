//! Sandbox execution engine for Alpine rootfs containers.
//!
//! The engine lets an unprivileged user run commands inside an isolated
//! filesystem tree through one of two interchangeable backends: a
//! ptrace-based translator (`proot`) or a namespace-based isolator
//! (`bwrap`).  The library computes everything that can be computed as a
//! pure function of plain values: backend resolution decisions, the full
//! ordered isolation argument list, identity-emulation tokens, mount-table
//! repair plans, and the request construction for each subcommand.  The
//! thin shell around it performs the filesystem probes, network transfers
//! and process launches that the engine plans.

pub mod apk;
pub mod aports;
pub mod aptree;
pub mod args;
pub mod backend;
pub mod builder;
pub mod command;
pub mod config;
pub mod error;
pub mod git_utils;
pub mod identity;
pub mod mirror;
pub mod mtab;
pub mod numbers;
pub mod probes;
pub mod repoquery;
pub mod request;
pub mod run;
pub mod settings;
pub mod setup;
pub mod split;
pub mod strutil;
pub mod utils;
