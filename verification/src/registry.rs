//! The ordered entry registry: an append-only sequence of captures, a
//! navigation cursor into it, and the append-only error log.

use vstd::prelude::*;

use crate::entry::ScreenshotEntry;

verus! {

/// Where the cursor lands when it advances by one, clamped so that it never
/// exceeds the last valid index and stays 0 on an empty registry.
pub open spec fn nav_advance(cur: int, len: int) -> int {
    if len == 0 {
        0
    } else if cur + 1 < len {
        cur + 1
    } else {
        len - 1
    }
}

/// Where the cursor lands when it retreats by one; it never goes below 0.
pub open spec fn nav_retreat(cur: int) -> int {
    if cur > 0 {
        cur - 1
    } else {
        0
    }
}

/// The shared application state: the entry registry, the navigation cursor,
/// and the error log. One value of this type is the single source of truth;
/// the surrounding program serializes access to it.
pub struct RayshotState {
    /// Registered captures, in trigger order; append-only.
    pub screenshot_entries: Vec<ScreenshotEntry>,
    /// Index of the entry the view is focused on.
    pub cur_screenshot_idx: usize,
    /// Human-readable diagnostics, append-only until explicitly cleared.
    pub error_messages: Vec<String>,
}

impl RayshotState {
    /// The cursor is a valid index whenever any entry exists, and pinned to 0
    /// otherwise.
    pub open spec fn wf(&self) -> bool {
        &&& self.screenshot_entries@.len() == 0 ==> self.cur_screenshot_idx == 0
        &&& self.screenshot_entries@.len() > 0 ==> (self.cur_screenshot_idx as int)
            < self.screenshot_entries@.len()
    }

    /// An empty registry: no entries, cursor at 0, no errors.
    pub fn new() -> (s: Self)
        ensures
            s.screenshot_entries@ =~= Seq::<ScreenshotEntry>::empty(),
            s.cur_screenshot_idx == 0,
            s.error_messages@ =~= Seq::<String>::empty(),
            s.wf(),
    {
        Self {
            screenshot_entries: Vec::new(),
            cur_screenshot_idx: 0,
            error_messages: Vec::new(),
        }
    }

    /// Move the cursor one entry forward, clamped to the last valid index;
    /// entries and the error log are untouched. Returns the new cursor.
    pub fn try_increment_screenshot_index(&mut self) -> (idx: usize)
        requires
            old(self).wf(),
        ensures
            final(self).wf(),
            final(self).screenshot_entries == old(self).screenshot_entries,
            final(self).error_messages == old(self).error_messages,
            final(self).cur_screenshot_idx as int == nav_advance(
                old(self).cur_screenshot_idx as int,
                old(self).screenshot_entries@.len() as int,
            ),
            idx == final(self).cur_screenshot_idx,
    {
        let len = self.screenshot_entries.len();
        if len == 0 {
            self.cur_screenshot_idx = 0;
        } else if self.cur_screenshot_idx + 1 < len {
            self.cur_screenshot_idx = self.cur_screenshot_idx + 1;
        } else {
            self.cur_screenshot_idx = len - 1;
        }
        self.cur_screenshot_idx
    }

    /// Move the cursor one entry back; it never goes below 0. Entries and the
    /// error log are untouched. Returns the new cursor.
    pub fn try_decrement_screenshot_index(&mut self) -> (idx: usize)
        requires
            old(self).wf(),
        ensures
            final(self).wf(),
            final(self).screenshot_entries == old(self).screenshot_entries,
            final(self).error_messages == old(self).error_messages,
            final(self).cur_screenshot_idx as int == nav_retreat(old(self).cur_screenshot_idx as int),
            idx == final(self).cur_screenshot_idx,
    {
        if self.cur_screenshot_idx > 0 {
            self.cur_screenshot_idx = self.cur_screenshot_idx - 1;
        }
        self.cur_screenshot_idx
    }

    /// Focus the view on the entry at `idx`; used by the pipeline once a
    /// capture's upload step completes.
    pub fn jump_to(&mut self, idx: usize)
        requires
            old(self).wf(),
            idx < old(self).screenshot_entries@.len(),
        ensures
            final(self).wf(),
            final(self).screenshot_entries == old(self).screenshot_entries,
            final(self).error_messages == old(self).error_messages,
            final(self).cur_screenshot_idx == idx,
    {
        self.cur_screenshot_idx = idx;
    }

    /// A snapshot of the entry under the cursor, or `None` when the registry
    /// is empty.
    pub fn get_current_screenshot(&self) -> (r: Option<ScreenshotEntry>)
        requires
            self.wf(),
        ensures
            match r {
                Option::Some(e) => self.screenshot_entries@.len() > 0 && e
                    == self.screenshot_entries@[self.cur_screenshot_idx as int],
                Option::None => self.screenshot_entries@.len() == 0,
            },
    {
        if self.screenshot_entries.len() == 0 {
            None
        } else {
            Some(self.screenshot_entries[self.cur_screenshot_idx].duplicate())
        }
    }

    /// Append a line to the error log; nothing else changes.
    pub fn push_error(&mut self, message: String)
        ensures
            final(self).screenshot_entries == old(self).screenshot_entries,
            final(self).cur_screenshot_idx == old(self).cur_screenshot_idx,
            final(self).error_messages@ =~= old(self).error_messages@.push(message),
    {
        self.error_messages.push(message);
    }

    /// How many entries are registered.
    pub fn entry_count(&self) -> (r: usize)
        ensures
            r == self.screenshot_entries@.len(),
    {
        self.screenshot_entries.len()
    }

    /// The cursor's current value.
    pub fn current_index(&self) -> (r: usize)
        ensures
            r == self.cur_screenshot_idx,
    {
        self.cur_screenshot_idx
    }

    /// A snapshot of every registered entry, in capture order.
    pub fn list_entries(&self) -> (r: Vec<ScreenshotEntry>)
        ensures
            r@ =~= self.screenshot_entries@,
    {
        let mut out: Vec<ScreenshotEntry> = Vec::new();
        let n = self.screenshot_entries.len();
        let mut i: usize = 0;
        while i < n
            invariant
                n == self.screenshot_entries@.len(),
                i <= n,
                out@ =~= self.screenshot_entries@.subrange(0, i as int),
            decreases n - i,
        {
            out.push(self.screenshot_entries[i].duplicate());
            i = i + 1;
        }
        out
    }

    /// A snapshot of the error log, oldest line first.
    pub fn error_log(&self) -> (r: Vec<String>)
        ensures
            r@ =~= self.error_messages@,
    {
        let mut out: Vec<String> = Vec::new();
        let n = self.error_messages.len();
        let mut i: usize = 0;
        while i < n
            invariant
                n == self.error_messages@.len(),
                i <= n,
                out@ =~= self.error_messages@.subrange(0, i as int),
            decreases n - i,
        {
            out.push(self.error_messages[i].clone());
            i = i + 1;
        }
        out
    }

    /// Drop every line of the error log; entries and the cursor are untouched.
    pub fn clear_errors(&mut self)
        ensures
            final(self).screenshot_entries == old(self).screenshot_entries,
            final(self).cur_screenshot_idx == old(self).cur_screenshot_idx,
            final(self).error_messages@ =~= Seq::<String>::empty(),
    {
        self.error_messages.clear();
    }
}

} // verus!
