//! A monitored source: one logfile paired with its bounded content buffer,
//! focus flag, and stable creation-order index.

use vstd::prelude::*;

use crate::buffer::ContentBuffer;
use crate::buffer::bulk_selection;
use crate::buffer::fifo_push;
use crate::buffer::fifo_push_all;

verus! {

/// Runtime pairing of a source (a canonical logfile path) with its
/// bounded line buffer. The `index` is assigned once at creation from the
/// caller's ordered source list and never changes.
pub struct LogMonitor {
    /// Position in the creation-order list of sources.
    pub index: usize,
    /// The source's retained lines and selection cursor.
    pub content: ContentBuffer,
    /// Whether this monitor currently has keyboard focus.
    pub has_focus: bool,
    /// The monitored file's canonical path.
    pub logfile: String,
}

impl LogMonitor {
    /// Well-formed: the content buffer is.
    pub open spec fn wf(&self) -> bool {
        self.content.wf()
    }

    /// A fresh, unfocused monitor for `f` with an empty buffer of
    /// capacity `max_lines`, standing at position `index`.
    pub fn new(f: String, max_lines: usize, index: usize) -> (m: LogMonitor)
        ensures
            m.wf(),
            m.index == index,
            !m.has_focus,
            m.logfile == f,
            m.content.lines() == Seq::<Seq<char>>::empty(),
            m.content.selected is None,
            m.content.max_lines == max_lines,
    {
        LogMonitor { index, has_focus: false, logfile: f, content: ContentBuffer::new(max_lines) }
    }

    /// Appends one line to the content buffer, evicting FIFO at capacity;
    /// below capacity the cursor moves to the new line, at capacity it is
    /// left untouched.
    pub fn append_to_content(&mut self, text: &str)
        requires
            old(self).wf(),
        ensures
            final(self).wf(),
            final(self).index == old(self).index,
            final(self).has_focus == old(self).has_focus,
            final(self).logfile == old(self).logfile,
            final(self).content.max_lines == old(self).content.max_lines,
            final(self).content.lines() == fifo_push(
                old(self).content.cap(),
                old(self).content.lines(),
                text@,
            ),
            old(self).content.items@.len() < old(self).content.max_lines
                ==> final(self).content.selected == Some(
                (final(self).content.items@.len() - 1) as usize,
            ),
            old(self).content.items@.len() >= old(self).content.max_lines
                ==> final(self).content.selected == old(self).content.selected,
    {
        self.content.append(text.to_owned());
    }

    /// Processes one arriving line: today that is appending it to the
    /// content buffer (a later fork may parse metrics out of it first).
    pub fn process_line(&mut self, text: &str)
        requires
            old(self).wf(),
        ensures
            final(self).wf(),
            final(self).index == old(self).index,
            final(self).has_focus == old(self).has_focus,
            final(self).logfile == old(self).logfile,
            final(self).content.max_lines == old(self).content.max_lines,
            final(self).content.lines() == fifo_push(
                old(self).content.cap(),
                old(self).content.lines(),
                text@,
            ),
            old(self).content.items@.len() < old(self).content.max_lines
                ==> final(self).content.selected == Some(
                (final(self).content.items@.len() - 1) as usize,
            ),
            old(self).content.items@.len() >= old(self).content.max_lines
                ==> final(self).content.selected == old(self).content.selected,
    {
        self.append_to_content(text);
    }

    /// Bulk-appends a file's pre-existing lines at startup, in order;
    /// lines and cursor end as that sequence of appends leaves them.
    pub fn load_initial(&mut self, lines: &Vec<String>)
        requires
            old(self).wf(),
        ensures
            final(self).wf(),
            final(self).index == old(self).index,
            final(self).has_focus == old(self).has_focus,
            final(self).logfile == old(self).logfile,
            final(self).content.max_lines == old(self).content.max_lines,
            final(self).content.lines() == fifo_push_all(
                old(self).content.cap(),
                old(self).content.lines(),
                lines.deep_view(),
            ),
            final(self).content.selected == bulk_selection(
                old(self).content.selected,
                old(self).content.items@.len(),
                old(self).content.cap(),
                lines@.len(),
            ),
    {
        self.content.load_initial(lines);
    }
}

} // verus!
