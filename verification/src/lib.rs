//! Parsing and resolution engine for course-package manifests.
//!
//! The crate turns the single XML manifest document of a course package
//! into a structured outline: general metadata, ordered modules holding
//! ordered module items, and a registry of declared resources keyed by
//! identifier, with every item resolved to a classified content type.

pub mod builders;
pub mod events;
pub mod handler;
pub mod index_tracker;
pub mod item_type;
pub mod node;
pub mod parse;
pub mod text;
pub mod types;
