//! Bounded display-resource residency: after every registration, entries
//! older than the most recent `MAX_LOADED_TEXTURES` give their display
//! handles back, so resident display resources never grow without bound.

use vstd::prelude::*;

use crate::MAX_LOADED_TEXTURES;
use crate::entry::ScreenshotEntry;
use crate::registry::RayshotState;

verus! {

/// Index of the first entry that is allowed to keep its display handle: the
/// retention window is the `MAX_LOADED_TEXTURES` most recently appended
/// entries. Computed fresh on every sweep, so the sweep does not depend on
/// handles staying contiguous.
pub open spec fn evict_boundary(len: int) -> int {
    if len > MAX_LOADED_TEXTURES as int {
        len - MAX_LOADED_TEXTURES as int
    } else {
        0
    }
}

/// The entry with its display handle released; every other field is kept.
pub open spec fn evicted(e: ScreenshotEntry) -> ScreenshotEntry {
    ScreenshotEntry { texture_handle: None, ..e }
}

/// How many entries currently hold a display handle.
pub open spec fn loaded_count(s: Seq<ScreenshotEntry>) -> nat
    decreases s.len(),
{
    if s.len() == 0 {
        0
    } else {
        loaded_count(s.drop_last()) + (if s.last().texture_handle is Some {
            1nat
        } else {
            0nat
        })
    }
}

/// If every entry holding a display handle sits at index `b` or later, then
/// at most `len - b` entries hold one.
pub proof fn lemma_loaded_count_bounded(s: Seq<ScreenshotEntry>, b: int)
    requires
        0 <= b <= s.len(),
        forall|i: int| 0 <= i < s.len() && s[i].texture_handle is Some ==> i >= b,
    ensures
        loaded_count(s) <= s.len() - b,
    decreases s.len(),
{
    if s.len() > 0 {
        let b2 = if b <= s.len() - 1 {
            b
        } else {
            s.len() - 1
        };
        assert forall|i: int|
            0 <= i < s.drop_last().len() && s.drop_last()[i].texture_handle is Some implies i
            >= b2 by {
            assert(s.drop_last()[i] == s[i]);
        }
        lemma_loaded_count_bounded(s.drop_last(), b2);
        if b == s.len() {
            assert(!(s.last().texture_handle is Some));
        }
    }
}

/// After any number of registrations, the count of entries holding a display
/// handle never exceeds `MAX_LOADED_TEXTURES`: whenever every resident handle
/// sits inside the retention window, the count is within the bound.
pub proof fn lemma_cache_bound(s: Seq<ScreenshotEntry>)
    requires
        forall|i: int|
            0 <= i < s.len() && s[i].texture_handle is Some ==> i >= evict_boundary(s.len() as int),
    ensures
        loaded_count(s) <= MAX_LOADED_TEXTURES as int,
{
    lemma_loaded_count_bounded(s, evict_boundary(s.len() as int));
}

impl RayshotState {
    /// Release the display handle of every entry older than the retention
    /// window, sweeping from the oldest entry up to the boundary. Entries in
    /// the window, the cursor, and the error log are untouched. This is a
    /// retention-order policy, not a recency-of-access one: navigating to an
    /// old entry does not protect its handle.
    pub fn manage_texture_cache(&mut self)
        requires
            old(self).wf(),
        ensures
            final(self).wf(),
            final(self).screenshot_entries@.len() == old(self).screenshot_entries@.len(),
            final(self).cur_screenshot_idx == old(self).cur_screenshot_idx,
            final(self).error_messages == old(self).error_messages,
            forall|i: int|
                0 <= i < evict_boundary(old(self).screenshot_entries@.len() as int)
                    ==> final(self).screenshot_entries@[i]
                    == evicted(old(self).screenshot_entries@[i]),
            forall|i: int|
                evict_boundary(old(self).screenshot_entries@.len() as int) <= i
                    < old(self).screenshot_entries@.len()
                    ==> final(self).screenshot_entries@[i] == old(self).screenshot_entries@[i],
            loaded_count(final(self).screenshot_entries@) <= MAX_LOADED_TEXTURES as int,
    {
        let len = self.screenshot_entries.len();
        let boundary = if len > MAX_LOADED_TEXTURES {
            len - MAX_LOADED_TEXTURES
        } else {
            0
        };
        let mut i: usize = 0;
        while i < boundary
            invariant
                boundary as int == evict_boundary(len as int),
                i <= boundary,
                boundary <= len,
                len == self.screenshot_entries@.len(),
                self.cur_screenshot_idx == old(self).cur_screenshot_idx,
                self.error_messages == old(self).error_messages,
                old(self).screenshot_entries@.len() == len,
                forall|j: int|
                    0 <= j < i ==> self.screenshot_entries@[j] == evicted(
                        old(self).screenshot_entries@[j],
                    ),
                forall|j: int|
                    i <= j < len ==> self.screenshot_entries@[j] == old(
                        self,
                    ).screenshot_entries@[j],
            decreases boundary - i,
        {
            self.screenshot_entries[i].texture_handle = None;
            i = i + 1;
        }
        proof {
            assert forall|j: int|
                0 <= j < self.screenshot_entries@.len()
                    && self.screenshot_entries@[j].texture_handle is Some implies j
                >= evict_boundary(self.screenshot_entries@.len() as int) by {
                if j < evict_boundary(len as int) {
                    assert(self.screenshot_entries@[j] == evicted(
                        old(self).screenshot_entries@[j],
                    ));
                }
            }
            lemma_cache_bound(self.screenshot_entries@);
        }
    }
}

} // verus!
