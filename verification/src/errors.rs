//! Failure categories of the capture-and-upload pipeline.

use vstd::prelude::*;

verus! {

/// Every failure the pipeline can report. Each component returns its error
/// to its immediate caller unchanged; nothing is retried.
#[derive(Debug, Clone, PartialEq, Eq)]
pub enum AppError {
    /// Display enumeration returned an empty list.
    NoScreens,
    /// The requested monitor index is out of range.
    MonitorNotFound { index: usize },
    /// The capture backend failed (permission denial, invalid region, ...).
    CaptureFailed { detail: String },
    /// Neither a pictures directory nor a home directory could be resolved.
    DirectoryUnavailable,
    /// A filesystem read or write failed.
    IoError { detail: String },
    /// The upload endpoint answered with a non-success HTTP status.
    UploadRejected { status: u16, body: String },
    /// The upload endpoint's reply was not the expected JSON envelope.
    MalformedResponse,
}

} // verus!
