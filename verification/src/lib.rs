//! Renders a single-line shell prompt: a compact working-directory display,
//! the current version-control reference (git branch or jujutsu change id),
//! and a few environment badges, assembled into styled text segments.

pub mod env;
pub mod path;
pub mod prompt;
pub mod repo;
pub mod style;
pub mod text;
pub mod util;
