//! Dashboard display state: layout mode, debug-window state, and the
//! vertical-view bookkeeping.

use vstd::prelude::*;

use crate::buffer::ContentBuffer;
use crate::buffer::fifo_push;

verus! {

/// Capacity of the diagnostic debug-window buffer.
pub const MAX_DEBUG_WINDOW: usize = 100;

/// The two ways the display area is partitioned among monitors:
/// stacked rows, or side-by-side columns.
#[derive(Clone, Copy, PartialEq, Eq, Structural, Debug)]
pub enum DashViewMain {
    DashHorizontal,
    DashVertical,
}

/// Bookkeeping for the vertical view.
pub struct DashVertical {
    pub active_view: usize,
}

impl DashVertical {
    pub fn new() -> (v: DashVertical)
        ensures
            v.active_view == 0,
    {
        DashVertical { active_view: 0 }
    }
}

/// Layout mode plus debug-window focus state, consumed by rendering.
pub struct DashState {
    /// Current partition orientation.
    pub main_view: DashViewMain,
    /// Whether the (reserved, unimplemented) debug window was requested.
    pub debug_window: bool,
    /// Whether the debug window currently has keyboard focus.
    pub debug_window_has_focus: bool,
    /// Diagnostic text, kept in the same bounded-buffer shape as a
    /// source's content.
    pub debug_window_list: ContentBuffer,
    /// State for the vertical view.
    pub dash_vertical: DashVertical,
}

impl DashState {
    /// Well-formed: the debug buffer is.
    pub open spec fn wf(&self) -> bool {
        self.debug_window_list.wf()
    }

    /// Initial display state: horizontal view, no debug focus, empty
    /// debug buffer.
    pub fn new() -> (d: DashState)
        ensures
            d.wf(),
            d.main_view == DashViewMain::DashHorizontal,
            !d.debug_window,
            !d.debug_window_has_focus,
            d.debug_window_list.lines() == Seq::<Seq<char>>::empty(),
            d.debug_window_list.selected is None,
            d.debug_window_list.max_lines == MAX_DEBUG_WINDOW,
            d.dash_vertical.active_view == 0,
    {
        DashState {
            main_view: DashViewMain::DashHorizontal,
            dash_vertical: DashVertical::new(),
            debug_window: false,
            debug_window_has_focus: false,
            debug_window_list: ContentBuffer::new(MAX_DEBUG_WINDOW),
        }
    }

    /// Appends a line of diagnostic text to the bounded debug buffer,
    /// under the same FIFO and cursor rules as a source's content:
    /// below capacity the cursor moves to the new line, at capacity the
    /// oldest line is evicted and the cursor is left untouched.
    pub fn _debug_window(&mut self, text: &str)
        requires
            old(self).wf(),
        ensures
            final(self).wf(),
            final(self).main_view == old(self).main_view,
            final(self).debug_window == old(self).debug_window,
            final(self).debug_window_has_focus == old(self).debug_window_has_focus,
            final(self).dash_vertical == old(self).dash_vertical,
            final(self).debug_window_list.max_lines == old(self).debug_window_list.max_lines,
            final(self).debug_window_list.lines() == fifo_push(
                old(self).debug_window_list.cap(),
                old(self).debug_window_list.lines(),
                text@,
            ),
            old(self).debug_window_list.items@.len() < old(self).debug_window_list.max_lines
                ==> final(self).debug_window_list.selected == Some(
                (final(self).debug_window_list.items@.len() - 1) as usize,
            ),
            old(self).debug_window_list.items@.len() >= old(self).debug_window_list.max_lines
                ==> final(self).debug_window_list.selected == old(self).debug_window_list.selected,
    {
        self.debug_window_list.append(text.to_owned());
    }
}

} // verus!
