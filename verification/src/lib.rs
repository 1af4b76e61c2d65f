//! Atlaspack version manager: the verified core.
pub mod text;
pub mod name;
pub mod error;
pub mod path;
pub mod json;
pub mod origin;
pub mod apvmrc;
pub mod config;
pub mod package;
pub mod active;
pub mod session;
pub mod install;
pub mod npm_link;
pub mod use_version;
pub mod list;
pub mod route;
