//! Errors of the model-download helpers that run around the library.

use vstd::prelude::*;

verus! {

/// Why a model download failed: an I/O error, rendered as text, or a
/// download tool that ran and ended unsuccessfully, with its exit code and
/// both captured output streams.
#[derive(Debug)]
pub enum DownloadError {
    Io(String),
    DownloadFailed { exit_code: Option<i32>, stderr: String, stdout: String },
}

impl DownloadError {
    /// Is this the failure of a tool run, as opposed to an I/O error?
    pub fn is_download_failure(&self) -> (r: bool)
        ensures
            r == (self matches DownloadError::DownloadFailed { .. }),
    {
        match self {
            DownloadError::Io(_) => false,
            DownloadError::DownloadFailed { .. } => true,
        }
    }
}

/// Classify one finished download-tool run: success is success, and a failed
/// run becomes the download-failure error carrying the exit code and both
/// output streams unchanged.
pub fn classify_download(
    success: bool,
    exit_code: Option<i32>,
    stderr: String,
    stdout: String,
) -> (r: Result<(), DownloadError>)
    ensures
        success ==> r is Ok,
        !success ==> (r matches Err(
            DownloadError::DownloadFailed { exit_code: ec, stderr: se, stdout: so },
        ) && ec == exit_code && se@ == stderr@ && so@ == stdout@),
{
    if success {
        Ok(())
    } else {
        Err(DownloadError::DownloadFailed { exit_code, stderr, stdout })
    }
}

/// Fold an error stream into an output stream: nothing to fold leaves the
/// output alone; output and error together are separated by one line break.
pub fn merge_output(stdout: String, stderr: &str) -> (r: String)
    ensures
        stderr@.len() == 0 ==> r@ == stdout@,
        stderr@.len() > 0 && stdout@.len() == 0 ==> r@ == stderr@,
        stderr@.len() > 0 && stdout@.len() > 0 ==> r@ == stdout@ + "\n"@ + stderr@,
{
    if stderr.is_empty() {
        return stdout;
    }
    if stdout.as_str().is_empty() {
        return String::from_str(stderr);
    }
    let mut s = stdout;
    s.append("\n");
    s.append(stderr);
    s
}

} // verus!
