//! The error taxonomy and the exact error-log line each failure produces.
//! Every failure is recovered locally: it becomes a sticky `failed` flag on
//! the affected entry plus one of these human-readable lines.

use vstd::prelude::*;
use vstd::string::*;

verus! {

/// Why a capture attempt produced no pixel buffer.
pub enum PipelineError {
    /// No enumerated window title matched the target.
    WindowNotFound,
    /// The capture layer reported an error; the payload is its description.
    CaptureFailed(String),
    /// The supporting task running the capture terminated abnormally.
    TaskFailure(String),
}

/// The error-log line for a capture failure against `target`.
pub open spec fn capture_error_line(target: Seq<char>, err: PipelineError) -> Seq<char> {
    match err {
        PipelineError::WindowNotFound => "Failed to capture screenshot for window '"@ + target
            + "': Window not found"@,
        PipelineError::CaptureFailed(d) => "Failed to capture screenshot for window '"@ + target
            + "': "@ + d@,
        PipelineError::TaskFailure(d) => "Task failed for window '"@ + target + "': "@ + d@,
    }
}

/// The error-log line for a failed disk write.
pub open spec fn write_error_line(detail: Seq<char>) -> Seq<char> {
    "Failed to save screenshot: "@ + detail
}

/// The error-log line for a failed rename of `filename` towards `target_dir`.
pub open spec fn move_error_line(filename: Seq<char>, target_dir: Seq<char>, detail: Seq<char>) -> Seq<
    char,
> {
    "Failed to move screenshot '"@ + filename + "' to '"@ + target_dir + "': "@ + detail
}

/// The error-log line for a location toggle with no entry under the cursor.
pub open spec fn no_current_line() -> Seq<char> {
    "No current screenshot to move to trash"@
}

/// Render a capture failure as its error-log line.
pub fn capture_error_message(target: &str, err: &PipelineError) -> (r: String)
    ensures
        r@ == capture_error_line(target@, *err),
{
    match err {
        PipelineError::WindowNotFound => {
            let mut s = "Failed to capture screenshot for window '".to_owned();
            s.append(target);
            s.append("': Window not found");
            s
        },
        PipelineError::CaptureFailed(d) => {
            let mut s = "Failed to capture screenshot for window '".to_owned();
            s.append(target);
            s.append("': ");
            s.append(d.as_str());
            s
        },
        PipelineError::TaskFailure(d) => {
            let mut s = "Task failed for window '".to_owned();
            s.append(target);
            s.append("': ");
            s.append(d.as_str());
            s
        },
    }
}

/// Render a disk-write failure as its error-log line.
pub fn write_error_message(detail: &str) -> (r: String)
    ensures
        r@ == write_error_line(detail@),
{
    let mut s = "Failed to save screenshot: ".to_owned();
    s.append(detail);
    s
}

/// Render a rename failure as its error-log line.
pub fn move_error_message(filename: &str, target_dir: &str, detail: &str) -> (r: String)
    ensures
        r@ == move_error_line(filename@, target_dir@, detail@),
{
    let mut s = "Failed to move screenshot '".to_owned();
    s.append(filename);
    s.append("' to '");
    s.append(target_dir);
    s.append("': ");
    s.append(detail);
    s
}

/// Render the missing-current-entry complaint.
pub fn no_current_message() -> (r: String)
    ensures
        r@ == no_current_line(),
{
    "No current screenshot to move to trash".to_owned()
}

} // verus!
