//! Core of a desktop screenshot-capture-and-upload utility.
//!
//! The library holds the verified logic: monitor geometry queries, the
//! multi-monitor compositor, screenshot file naming, upload request
//! construction, upload response processing, and the capture-then-upload
//! orchestration. Platform capture, file I/O and the HTTP transport live
//! outside the library and hand it plain values.

use vstd::prelude::*;

pub mod errors;
pub mod frame;
pub mod monitors;
pub mod naming;
pub mod orchestrator;
pub mod paths;
pub mod persist;
pub mod upload;

verus! {

/// Metadata of one uploaded file, as the remote service reports it.
#[derive(Debug, Clone, PartialEq, Eq)]
pub struct UploadResponse {
    pub url: String,
    pub name: String,
    pub size: u64,
    pub file_type: String,
}

/// A screenshot written to disk: its absolute path and pixel dimensions.
#[derive(Debug, Clone, PartialEq, Eq)]
pub struct ScreenshotResult {
    pub path: String,
    pub width: u32,
    pub height: u32,
}

/// Payload of the final notification after a capture-then-upload run:
/// the remote metadata plus the local screenshot path.
#[derive(Debug, Clone, PartialEq, Eq)]
pub struct UploadCompleteEvent {
    pub url: String,
    pub name: String,
    pub size: u64,
    pub file_type: String,
    pub screenshot_path: Option<String>,
}

} // verus!
