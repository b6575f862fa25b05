//! Dependency extraction for a content-addressed code database.
//!
//! Given an expression or a type and the namespace it lives in, the
//! extractor computes the set of content hashes of the stored definitions
//! that the fragment refers to.

pub mod ast;
pub mod closed;
pub mod dependency_extractor;
pub mod dependency_set;
pub mod hash;
pub mod laws;
pub mod namespace;
pub mod scope;
pub mod semantics;
pub mod shadowing;
pub mod workspace;

pub use workspace::{IncrementalCompiler, SourceFile, Workspace, WorkspaceError};
