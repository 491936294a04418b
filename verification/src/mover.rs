//! The file-location mover: toggling an entry's file between the active and
//! the trashed root directory with a single atomic rename, and the model of
//! what that rename does to the disk.

use vstd::prelude::*;
use vstd::string::*;

use crate::entry::{FileLocation, ScreenshotEntry, ScreenshotState};
use crate::messages::{move_error_line, move_error_message, no_current_line, no_current_message};
use crate::registry::RayshotState;

verus! {

/// The opposite root: a toggle always moves the file Local <-> Trash.
pub open spec fn flip(loc: FileLocation) -> FileLocation {
    match loc {
        FileLocation::Local => FileLocation::Trash,
        FileLocation::Trash => FileLocation::Local,
    }
}

/// Compute the destination of a toggle from the current location.
pub fn toggle_target(loc: FileLocation) -> (r: FileLocation)
    ensures
        r == flip(loc),
{
    match loc {
        FileLocation::Local => FileLocation::Trash,
        FileLocation::Trash => FileLocation::Local,
    }
}

/// The directory name belonging to a location.
pub open spec fn dir_name(loc: FileLocation) -> Seq<char> {
    match loc {
        FileLocation::Local => "screenshots"@,
        FileLocation::Trash => "trashed"@,
    }
}

/// The root directory that holds the files of entries at `loc`.
pub fn dir_for(loc: FileLocation) -> (r: &'static str)
    ensures
        r@ == dir_name(loc),
{
    match loc {
        FileLocation::Local => "screenshots",
        FileLocation::Trash => "trashed",
    }
}

/// The path of `filename` inside the root directory of `loc`.
pub fn path_in(loc: FileLocation, filename: &str) -> (r: String)
    ensures
        r@ == dir_name(loc) + "/"@ + filename@,
{
    let mut s = dir_for(loc).to_owned();
    s.append("/");
    s.append(filename);
    s
}

/// Which of the two root directories hold a copy of one entry's file: the
/// model of the disk that the rename operates on.
#[derive(Clone, Copy, PartialEq, Eq, Structural, Debug)]
pub struct DiskPlacement {
    pub in_local: bool,
    pub in_trash: bool,
}

/// Whether the root directory of `loc` holds a copy of the file.
pub open spec fn holds_at(d: DiskPlacement, loc: FileLocation) -> bool {
    match loc {
        FileLocation::Local => d.in_local,
        FileLocation::Trash => d.in_trash,
    }
}

/// Exactly one copy of the file exists, in the root directory of `loc`.
pub open spec fn single_copy_at(d: DiskPlacement, loc: FileLocation) -> bool {
    holds_at(d, loc) && !holds_at(d, flip(loc))
}

/// What an atomic rename from the root of `from` towards the opposite root
/// leaves on disk. On success the destination holds the file and the source
/// does not; on failure the disk is exactly as it was — the rename is atomic,
/// so there is no partial-move state.
pub open spec fn rename_outcome(d: DiskPlacement, from: FileLocation, ok: bool) -> DiskPlacement {
    if ok {
        match from {
            FileLocation::Local => DiskPlacement { in_local: false, in_trash: true },
            FileLocation::Trash => DiskPlacement { in_local: true, in_trash: false },
        }
    } else {
        d
    }
}

/// A successful rename always leaves exactly one copy of the file, in exactly
/// one of the two root directories: the one named by the entry's
/// post-operation location, `flip(loc)`.
pub proof fn lemma_rename_success_single_copy(d: DiskPlacement, loc: FileLocation)
    requires
        single_copy_at(d, loc),
    ensures
        single_copy_at(rename_outcome(d, loc, true), flip(loc)),
{
}

/// A failed rename leaves the file exactly where it was: the disk after the
/// attempt is the disk before it, so the single copy is still in its
/// pre-operation directory — the one named by the entry's unchanged
/// location.
pub proof fn lemma_rename_failure_leaves_disk(d: DiskPlacement, loc: FileLocation)
    ensures
        rename_outcome(d, loc, false) == d,
        single_copy_at(d, loc) ==> single_copy_at(rename_outcome(d, loc, false), loc),
{
}

impl RayshotState {
    /// Start a location toggle for the entry under the cursor. With no entry
    /// registered, no filesystem work is requested: exactly one error-log
    /// line is appended and nothing else changes. Otherwise the entry enters
    /// `moving` status and the caller receives its index, its current
    /// location, and its filename, so it can attempt the rename and report
    /// the outcome to `finish_toggle_success` or `finish_toggle_failure`.
    pub fn begin_toggle_location(&mut self) -> (r: Option<(usize, FileLocation, String)>)
        requires
            old(self).wf(),
        ensures
            final(self).wf(),
            match r {
                Option::Some(t) => {
                    &&& old(self).screenshot_entries@.len() > 0
                    &&& t.0 == old(self).cur_screenshot_idx
                    &&& t.1 == old(self).screenshot_entries@[t.0 as int].file_location
                    &&& t.2@ == old(self).screenshot_entries@[t.0 as int].filename@
                    &&& final(self).screenshot_entries@.len()
                        == old(self).screenshot_entries@.len()
                    &&& forall|j: int|
                        0 <= j < old(self).screenshot_entries@.len() && j != t.0
                            ==> final(self).screenshot_entries@[j]
                            == old(self).screenshot_entries@[j]
                    &&& final(self).screenshot_entries@[t.0 as int] == (ScreenshotEntry {
                        state: ScreenshotState {
                            moving: true,
                            ..old(self).screenshot_entries@[t.0 as int].state
                        },
                        ..old(self).screenshot_entries@[t.0 as int]
                    })
                    &&& final(self).error_messages == old(self).error_messages
                },
                Option::None => {
                    &&& old(self).screenshot_entries@.len() == 0
                    &&& final(self).screenshot_entries == old(self).screenshot_entries
                    &&& final(self).error_messages@.len() == old(self).error_messages@.len() + 1
                    &&& final(self).error_messages@.drop_last() =~= old(self).error_messages@
                    &&& final(self).error_messages@.last()@ == no_current_line()
                },
            },
            final(self).cur_screenshot_idx == old(self).cur_screenshot_idx,
    {
        if self.screenshot_entries.len() == 0 {
            let message = no_current_message();
            self.push_error(message);
            None
        } else {
            let idx = self.cur_screenshot_idx;
            self.screenshot_entries[idx].state.moving = true;
            let loc = self.screenshot_entries[idx].file_location;
            let name = self.screenshot_entries[idx].filename.clone();
            Some((idx, loc, name))
        }
    }

    /// Record a successful rename: the entry's location flips to the opposite
    /// root — the last step of the rename, never taken on failure — and the
    /// `moving` status clears.
    pub fn finish_toggle_success(&mut self, idx: usize)
        requires
            old(self).wf(),
            idx < old(self).screenshot_entries@.len(),
        ensures
            final(self).wf(),
            final(self).screenshot_entries@.len() == old(self).screenshot_entries@.len(),
            forall|j: int|
                0 <= j < old(self).screenshot_entries@.len() && j != idx
                    ==> final(self).screenshot_entries@[j] == old(self).screenshot_entries@[j],
            final(self).screenshot_entries@[idx as int] == (ScreenshotEntry {
                state: ScreenshotState {
                    moving: false,
                    ..old(self).screenshot_entries@[idx as int].state
                },
                file_location: flip(old(self).screenshot_entries@[idx as int].file_location),
                ..old(self).screenshot_entries@[idx as int]
            }),
            final(self).cur_screenshot_idx == old(self).cur_screenshot_idx,
            final(self).error_messages == old(self).error_messages,
    {
        let target = toggle_target(self.screenshot_entries[idx].file_location);
        self.screenshot_entries[idx].file_location = target;
        self.screenshot_entries[idx].state.moving = false;
    }

    /// Record a failed rename: the location stays exactly as it was, the
    /// sticky `failed` flag is raised, one error-log line is appended, and
    /// the `moving` status still clears.
    pub fn finish_toggle_failure(&mut self, idx: usize, target_dir: &str, detail: &str)
        requires
            old(self).wf(),
            idx < old(self).screenshot_entries@.len(),
        ensures
            final(self).wf(),
            final(self).screenshot_entries@.len() == old(self).screenshot_entries@.len(),
            forall|j: int|
                0 <= j < old(self).screenshot_entries@.len() && j != idx
                    ==> final(self).screenshot_entries@[j] == old(self).screenshot_entries@[j],
            final(self).screenshot_entries@[idx as int] == (ScreenshotEntry {
                state: ScreenshotState {
                    moving: false,
                    failed: true,
                    ..old(self).screenshot_entries@[idx as int].state
                },
                ..old(self).screenshot_entries@[idx as int]
            }),
            final(self).screenshot_entries@[idx as int].file_location == old(
                self,
            ).screenshot_entries@[idx as int].file_location,
            final(self).cur_screenshot_idx == old(self).cur_screenshot_idx,
            final(self).error_messages@.len() == old(self).error_messages@.len() + 1,
            final(self).error_messages@.drop_last() =~= old(self).error_messages@,
            final(self).error_messages@.last()@ == move_error_line(
                old(self).screenshot_entries@[idx as int].filename@,
                target_dir@,
                detail@,
            ),
    {
        let message = move_error_message(self.screenshot_entries[idx].filename.as_str(), target_dir, detail);
        self.screenshot_entries[idx].state.failed = true;
        self.screenshot_entries[idx].state.moving = false;
        self.push_error(message);
    }
}

} // verus!
