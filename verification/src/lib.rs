//! Builds a daily reading digest: listing decisions, content acquisition,
//! plain-text normalisation and rendering of the digest document.

pub mod acquire;
pub mod config;
pub mod decimal;
pub mod listing;
pub mod media;
pub mod model;
pub mod outside;
pub mod page;
pub mod render;
pub mod template;
pub mod text;
