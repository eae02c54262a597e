//! A release-publishing pipeline: target matrices, archive and checksum
//! naming, and the create-or-reuse release protocol with asset uploads.
pub mod text;
pub mod error;
pub mod build_config;
pub mod config;
pub mod tag;
pub mod checksum;
pub mod archive;
pub mod asset;
pub mod matrix;
pub mod package;
pub mod api;
pub mod requests;
pub mod http;
pub mod client;
pub mod publish;
pub mod brew;
pub mod template;
pub mod formula;
