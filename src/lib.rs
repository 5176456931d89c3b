//! Turns a multipart upload of labelled photos into a typeset PDF.
//!
//! The library decides what happens to each request: which uploaded fields
//! are staged on disk, which labels reach the template, when the staging
//! directory is released and what the reply is. The surrounding program
//! performs the disk and network work that these decisions ask for.

pub mod export;
pub mod field;
pub mod fonts;
pub mod input_map;
pub mod laws;
pub mod pipeline;
pub mod reply;
pub mod staging;
