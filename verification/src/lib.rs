//! Package resolution and installation engine for precompiled release binaries.
//!
//! The crate models a package's per-platform install recipes, resolves the recipe
//! for a machine, answers search requests over a manifest store, and drives the
//! install / uninstall / upgrade state machine over a local install-state store.

pub mod text;
pub mod error;
pub mod platform;
pub mod package;
pub mod pattern;
pub mod store;
pub mod search;
pub mod lock;
pub mod state;
pub mod template;
pub mod plan;
pub mod installer;
