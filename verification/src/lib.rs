//! A personal knowledge service: parses documents into links and tags,
//! persists them in a relational store behind a batching cache, and keeps
//! a full-text similarity index.

pub mod data;
pub mod frontmatter;
pub mod index;
pub mod markdown;
pub mod schema;
pub mod server;
pub mod store;
pub mod text;
