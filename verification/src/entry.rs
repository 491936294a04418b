//! One tracked screenshot capture and its lifecycle metadata.

use vstd::prelude::*;

verus! {

/// Which of the two root directories currently holds the entry's file.
#[derive(Clone, Copy, PartialEq, Eq, Structural, Debug)]
pub enum FileLocation {
    Local,
    Trash,
}

/// The flat per-entry status model: the pipeline drives
/// `capturing -> writing -> idle`, the mover brackets a rename with `moving`,
/// and `failed` is a sticky flag layered on top, settable from any step.
#[derive(Clone, Copy, PartialEq, Eq, Structural, Debug)]
pub struct ScreenshotState {
    pub capturing: bool,
    pub writing: bool,
    pub moving: bool,
    pub failed: bool,
}

impl ScreenshotState {
    /// A freshly created status: no step in progress, not failed.
    pub fn new() -> (s: Self)
        ensures
            !s.capturing,
            !s.writing,
            !s.moving,
            !s.failed,
    {
        Self { capturing: false, writing: false, moving: false, failed: false }
    }

    /// No pipeline or mover step is in progress.
    pub open spec fn is_idle(self) -> bool {
        !self.capturing && !self.writing && !self.moving
    }
}

/// One capture: its immutable on-disk basename and the metadata the pipeline
/// fills in as the capture progresses.
#[derive(Debug)]
pub struct ScreenshotEntry {
    pub state: ScreenshotState,
    /// Identifier of the uploaded display resource, if one is resident.
    pub texture_handle: Option<u64>,
    /// Pixel width and height, recorded once the raw buffer exists.
    pub dimension: Option<(usize, usize)>,
    /// Basename of the file in whichever root directory `file_location` names.
    pub filename: String,
    pub file_location: FileLocation,
    /// Size of the written file, recorded only after a successful disk write.
    pub file_size: Option<usize>,
}

impl ScreenshotEntry {
    /// A freshly registered entry: nothing captured, uploaded, or written yet.
    pub fn new(filename: String, file_location: FileLocation) -> (e: Self)
        ensures
            e.filename == filename,
            e.file_location == file_location,
            e.state == (ScreenshotState { capturing: false, writing: false, moving: false, failed: false }),
            e.texture_handle is None,
            e.dimension is None,
            e.file_size is None,
    {
        Self {
            state: ScreenshotState::new(),
            texture_handle: None,
            dimension: None,
            filename,
            file_location,
            file_size: None,
        }
    }

    /// An exact copy; `Clone` is written out so that the contract can say the
    /// copy equals the original.
    pub fn duplicate(&self) -> (e: Self)
        ensures
            e == *self,
    {
        Self {
            state: self.state,
            texture_handle: self.texture_handle,
            dimension: self.dimension,
            filename: self.filename.clone(),
            file_location: self.file_location,
            file_size: self.file_size,
        }
    }
}

} // verus!
