//! Scaffolding and packaging of keyboard firmware projects.
//!
//! - `chips`: the registry of boards and chip families.
//! - `config`: resolution of a keyboard description into a project.
//! - `artifact`: choice of the compiled artifact a build produced.
//! - `convert`: the converter stages from artifact to firmware image.
//! - `pipeline`: one build and conversion pass per build target.
//! - `template`: project templates and the edits after copying one.
//! - `text`: small verified operations on text.

pub mod chips;
pub mod text;
pub mod config;
pub mod artifact;
pub mod convert;
pub mod pipeline;
pub mod template;
