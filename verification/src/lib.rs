//! Verified core of a downloader for videos published on PBS Kids pages.
//!
//! The library holds the decisions of the tool: where the embedded JSON
//! document sits in a video page, how its nested tags are followed, when a
//! page is refused (missing data, DRM), which video rendition is chosen, how
//! the file name is derived, how a download loop advances, and which exit
//! code and message every failure maps to.  Network, file and terminal work
//! stays with the caller.

pub mod errors;
pub mod text;
pub mod json;
pub mod config;
pub mod assets;
pub mod downloader;

