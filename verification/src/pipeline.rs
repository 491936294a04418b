//! The capture pipeline's bookkeeping: registering an entry the instant a
//! capture is triggered, recording the outcome of each stage, and driving the
//! per-entry status through `capturing -> writing -> idle`. The surrounding
//! program performs the capture, the display upload, and the disk write, and
//! reports each outcome here.

use vstd::prelude::*;

use crate::MAX_LOADED_TEXTURES;
use crate::cache::{evict_boundary, evicted, loaded_count};
use crate::entry::{FileLocation, ScreenshotEntry, ScreenshotState};
use crate::messages::{PipelineError, capture_error_line, capture_error_message, write_error_line,
    write_error_message};
use crate::registry::RayshotState;

verus! {

/// The entry with its sticky `failed` flag raised; every other field is kept.
pub open spec fn with_failed(e: ScreenshotEntry) -> ScreenshotEntry {
    ScreenshotEntry { state: ScreenshotState { failed: true, ..e.state }, ..e }
}

/// Dimensions and file size, once recorded on an entry, are invariant under
/// further operations on other entries: every step of the pipeline, the
/// mover, and the cache either rewrites a single entry at `idx` or releases
/// a display handle, so any other entry `j` keeps both recorded fields.
pub proof fn lemma_metadata_stable_for_others(
    pre: Seq<ScreenshotEntry>,
    post: Seq<ScreenshotEntry>,
    idx: int,
    j: int,
)
    requires
        post.len() == pre.len(),
        forall|i: int|
            0 <= i < pre.len() && i != idx ==> post[i] == pre[i] || post[i] == evicted(#[trigger] pre[i]),
        0 <= j < pre.len(),
        j != idx,
    ensures
        pre[j].dimension is Some ==> post[j].dimension == pre[j].dimension,
        pre[j].file_size is Some ==> post[j].file_size == pre[j].file_size,
        post[j].filename == pre[j].filename,
{
}

impl RayshotState {
    /// Register a new capture: append an entry in `capturing` status, located
    /// in the local root, with nothing recorded yet, then sweep the display
    /// cache. The cursor does not move: the view jumps to a capture only once
    /// its upload completes. Returns the new entry's index.
    pub fn register_capture(&mut self, filename: String) -> (idx: usize)
        requires
            old(self).wf(),
        ensures
            final(self).wf(),
            idx == old(self).screenshot_entries@.len(),
            final(self).screenshot_entries@.len() == old(self).screenshot_entries@.len() + 1,
            final(self).screenshot_entries@[idx as int].filename == filename,
            final(self).screenshot_entries@[idx as int].file_location == FileLocation::Local,
            final(self).screenshot_entries@[idx as int].state == (ScreenshotState {
                capturing: true,
                writing: false,
                moving: false,
                failed: false,
            }),
            final(self).screenshot_entries@[idx as int].texture_handle is None,
            final(self).screenshot_entries@[idx as int].dimension is None,
            final(self).screenshot_entries@[idx as int].file_size is None,
            forall|i: int|
                0 <= i < evict_boundary(idx as int + 1) ==> final(self).screenshot_entries@[i]
                    == evicted(old(self).screenshot_entries@[i]),
            forall|i: int|
                evict_boundary(idx as int + 1) <= i < idx ==> final(self).screenshot_entries@[i]
                    == old(self).screenshot_entries@[i],
            final(self).cur_screenshot_idx == old(self).cur_screenshot_idx,
            final(self).error_messages == old(self).error_messages,
            loaded_count(final(self).screenshot_entries@) <= MAX_LOADED_TEXTURES as int,
    {
        let idx = self.screenshot_entries.len();
        let mut entry = ScreenshotEntry::new(filename, FileLocation::Local);
        entry.state.capturing = true;
        self.screenshot_entries.push(entry);
        self.manage_texture_cache();
        idx
    }

    /// Record that a capture produced no pixel buffer: raise the entry's
    /// sticky `failed` flag and append the matching error-log line. The entry
    /// stays registered; failures are never silently dropped.
    pub fn record_capture_failure(&mut self, idx: usize, target: &str, err: &PipelineError)
        requires
            old(self).wf(),
            idx < old(self).screenshot_entries@.len(),
        ensures
            final(self).wf(),
            final(self).screenshot_entries@.len() == old(self).screenshot_entries@.len(),
            forall|j: int|
                0 <= j < old(self).screenshot_entries@.len() && j != idx
                    ==> final(self).screenshot_entries@[j] == old(self).screenshot_entries@[j],
            final(self).screenshot_entries@[idx as int] == with_failed(
                old(self).screenshot_entries@[idx as int],
            ),
            final(self).cur_screenshot_idx == old(self).cur_screenshot_idx,
            final(self).error_messages@.len() == old(self).error_messages@.len() + 1,
            final(self).error_messages@.drop_last() =~= old(self).error_messages@,
            final(self).error_messages@.last()@ == capture_error_line(target@, *err),
    {
        let message = capture_error_message(target, err);
        self.screenshot_entries[idx].state.failed = true;
        self.push_error(message);
    }

    /// Record a finished capture-and-upload: set the dimensions, install the
    /// display handle, focus the view on this entry, and move its status from
    /// `capturing` to `writing`.
    pub fn complete_capture(&mut self, idx: usize, width: usize, height: usize, handle_id: u64)
        requires
            old(self).wf(),
            idx < old(self).screenshot_entries@.len(),
        ensures
            final(self).wf(),
            final(self).screenshot_entries@.len() == old(self).screenshot_entries@.len(),
            forall|j: int|
                0 <= j < old(self).screenshot_entries@.len() && j != idx
                    ==> final(self).screenshot_entries@[j] == old(self).screenshot_entries@[j],
            final(self).screenshot_entries@[idx as int] == (ScreenshotEntry {
                state: ScreenshotState {
                    capturing: false,
                    writing: true,
                    ..old(self).screenshot_entries@[idx as int].state
                },
                texture_handle: Some(handle_id),
                dimension: Some((width, height)),
                ..old(self).screenshot_entries@[idx as int]
            }),
            final(self).cur_screenshot_idx == idx,
            final(self).error_messages == old(self).error_messages,
    {
        self.screenshot_entries[idx].dimension = Some((width, height));
        self.screenshot_entries[idx].texture_handle = Some(handle_id);
        self.jump_to(idx);
        self.screenshot_entries[idx].state.capturing = false;
        self.screenshot_entries[idx].state.writing = true;
    }

    /// Record a successful disk write: set the file size and move the status
    /// from `writing` to idle.
    pub fn finish_write_success(&mut self, idx: usize, size: usize)
        requires
            old(self).wf(),
            idx < old(self).screenshot_entries@.len(),
        ensures
            final(self).wf(),
            final(self).screenshot_entries@.len() == old(self).screenshot_entries@.len(),
            forall|j: int|
                0 <= j < old(self).screenshot_entries@.len() && j != idx
                    ==> final(self).screenshot_entries@[j] == old(self).screenshot_entries@[j],
            final(self).screenshot_entries@[idx as int] == (ScreenshotEntry {
                state: ScreenshotState {
                    writing: false,
                    ..old(self).screenshot_entries@[idx as int].state
                },
                file_size: Some(size),
                ..old(self).screenshot_entries@[idx as int]
            }),
            final(self).cur_screenshot_idx == old(self).cur_screenshot_idx,
            final(self).error_messages == old(self).error_messages,
    {
        self.screenshot_entries[idx].file_size = Some(size);
        self.screenshot_entries[idx].state.writing = false;
    }

    /// Record a failed disk write: raise the sticky `failed` flag, append the
    /// matching error-log line, and still move the status out of `writing`.
    /// The file size stays unset; it is recorded on success only.
    pub fn finish_write_failure(&mut self, idx: usize, detail: &str)
        requires
            old(self).wf(),
            idx < old(self).screenshot_entries@.len(),
        ensures
            final(self).wf(),
            final(self).screenshot_entries@.len() == old(self).screenshot_entries@.len(),
            forall|j: int|
                0 <= j < old(self).screenshot_entries@.len() && j != idx
                    ==> final(self).screenshot_entries@[j] == old(self).screenshot_entries@[j],
            final(self).screenshot_entries@[idx as int] == (ScreenshotEntry {
                state: ScreenshotState {
                    writing: false,
                    failed: true,
                    ..old(self).screenshot_entries@[idx as int].state
                },
                ..old(self).screenshot_entries@[idx as int]
            }),
            final(self).cur_screenshot_idx == old(self).cur_screenshot_idx,
            final(self).error_messages@.len() == old(self).error_messages@.len() + 1,
            final(self).error_messages@.drop_last() =~= old(self).error_messages@,
            final(self).error_messages@.last()@ == write_error_line(detail@),
    {
        let message = write_error_message(detail);
        self.screenshot_entries[idx].state.failed = true;
        self.push_error(message);
        self.screenshot_entries[idx].state.writing = false;
    }
}

} // verus!
