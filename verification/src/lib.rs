//! Scaffolding engine for game-engine extension projects: renders a small set
//! of text templates with project-specific substitutions, resolves target
//! platforms to library paths, and plans the directory tree and file writes
//! that turn a project request into a consistent set of artifacts.

pub mod plan;
pub mod precompile;
pub mod laws;
pub mod naming;
pub mod render;
pub mod text;
