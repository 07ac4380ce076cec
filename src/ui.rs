//! Lifecycle events of downloads, and the sink that receives them.
use vstd::prelude::*;

verus! {

/// A batch of more than one download is about to start.
#[derive(Debug, Clone)]
pub struct DownloadBatch {
    pub resource_count: usize,
    pub dataset_name: Option<String>,
}

/// A download got a success status and is about to write its file.
#[derive(Debug, Clone)]
pub struct DownloadStarted {
    pub resource_name: Option<String>,
    pub dataset_name: Option<String>,
    pub url: String,
    pub output_path: String,
    pub total_bytes: Option<u64>,
}

/// A download wrote one more chunk of its body.
#[derive(Debug, Clone)]
pub struct DownloadProgress {
    pub resource_name: Option<String>,
    pub dataset_name: Option<String>,
    pub output_path: String,
    pub downloaded_bytes: u64,
    pub total_bytes: Option<u64>,
}

/// A download wrote its whole body.
#[derive(Debug, Clone)]
pub struct DownloadFinished {
    pub resource_name: Option<String>,
    pub dataset_name: Option<String>,
    pub output_path: String,
}

/// A download failed.
#[derive(Debug, Clone)]
pub struct DownloadFailed {
    pub resource_name: Option<String>,
    pub dataset_name: Option<String>,
    pub output_path: Option<String>,
    pub error: String,
}

/// Receives the lifecycle events of downloads, for progress display.
/// Each method does nothing unless an implementation says otherwise.
pub trait StatusReporter: Send + Sync {
    fn on_download_batch(&self, event: &DownloadBatch) {
    }

    fn on_download_started(&self, event: &DownloadStarted) {
    }

    fn on_download_progress(&self, event: &DownloadProgress) {
    }

    fn on_download_finished(&self, event: &DownloadFinished) {
    }

    fn on_download_failed(&self, event: &DownloadFailed) {
    }
}

} // verus!
