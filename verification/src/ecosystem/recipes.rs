//! One recipe per package manager, and the manifest documents they edit.

pub mod json_document;
pub mod npm;
pub mod toml_document;
pub mod cargo;
pub mod composer;
pub mod version_literal;
