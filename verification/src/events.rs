//! The main loop's event vocabulary and its dispatcher.
//!
//! The loop races two futures each iteration: the next line arrival from
//! the file watcher, and the next message from the background
//! input-and-tick worker. Whichever resolves first is dispatched here;
//! the loop then redraws and restarts the race. When both are ready in
//! the same iteration the choice between them is non-deterministic, and
//! deliberately so — but a quit key is acted on whenever its message is
//! the one dispatched, so a continuous stream of line arrivals cannot
//! starve it.

use vstd::prelude::*;

use crate::app::App;
use crate::app::arrow_effect;
use crate::app::dash_same_but_debug_focus;
use crate::app::find_name_index;
use crate::app::lemma_name_pos_properties;
use crate::app::monitors_same_but_focus;
use crate::app::name_pos;
use crate::app::next_focus_pos;
use crate::app::prev_focus_pos;
use crate::buffer::fifo_push;
use crate::dash::DashViewMain;

verus! {

/// A keyboard key, decoded to its meaning for the dashboard.
#[derive(Clone, Copy, PartialEq, Eq, Structural, Debug)]
pub enum InputKey {
    /// Leave the loop.
    Quit,
    /// Switch to stacked rows.
    HorizontalView,
    /// Switch to side-by-side columns.
    VerticalView,
    /// Scroll the focused buffer toward its oldest line.
    ArrowUp,
    /// Scroll the focused buffer toward its newest line.
    ArrowDown,
    /// Focus the next source.
    FocusNext,
    /// Focus the previous source.
    FocusPrevious,
    /// Anything else: ignored.
    Other,
}

/// A message from the background input-and-tick worker.
#[derive(Clone, Copy, PartialEq, Eq, Structural, Debug)]
pub enum Event {
    /// A key was pressed.
    Input(InputKey),
    /// A periodic redraw nudge.
    Tick,
}

/// One resolved arrival of the main loop's race.
pub enum LoopEvent {
    /// The worker delivered a message.
    Worker(Event),
    /// The worker's channel closed: fatal.
    WorkerClosed,
    /// A line arrived for the source with this canonical path.
    Line(String, String),
    /// The line stream surfaced an error (not end-of-stream): fatal.
    LineError,
}

/// What the loop does after dispatching: go on (and redraw), leave
/// cleanly, or abort because an event source failed.
#[derive(Clone, Copy, PartialEq, Eq, Structural, Debug)]
pub enum Directive {
    Continue,
    Quit,
    Abort,
}

/// Effect of switching the layout to `mode`: nothing else changes.
pub open spec fn view_switch_effect(pre: App, post: App, mode: DashViewMain) -> bool {
    &&& post.opt == pre.opt
    &&& post.monitors == pre.monitors
    &&& post.logfile_names == pre.logfile_names
    &&& post.logfile_with_focus == pre.logfile_with_focus
    &&& post.dash_state.main_view == mode
    &&& post.dash_state.debug_window == pre.dash_state.debug_window
    &&& post.dash_state.debug_window_has_focus == pre.dash_state.debug_window_has_focus
    &&& post.dash_state.debug_window_list == pre.dash_state.debug_window_list
    &&& post.dash_state.dash_vertical == pre.dash_state.dash_vertical
}

/// Effect of one focus step: the focus lands on the neighbouring source
/// in creation order (per `next_focus_pos` / `prev_focus_pos`), only
/// focus flags change, and with no sources nothing does.
pub open spec fn focus_step_effect(pre: App, post: App, forward: bool) -> bool {
    &&& post.opt == pre.opt
    &&& post.logfile_names == pre.logfile_names
    &&& monitors_same_but_focus(pre.monitors@, post.monitors@)
    &&& dash_same_but_debug_focus(pre.dash_state, post.dash_state)
    &&& (pre.monitors@.len() == 0 ==> post == pre)
    &&& (pre.monitors@.len() > 0 ==> {
        let q = if forward {
            next_focus_pos(pre.focus_pos(), pre.names().len())
        } else {
            prev_focus_pos(pre.focus_pos(), pre.names().len())
        };
        &&& post.focus_pos() == q
        &&& post.focus_key() == pre.names()[q]
        &&& post.only_monitor_focused(q)
        &&& !post.dash_state.debug_window_has_focus
    })
}

/// Effect of a line arriving for the source keyed `source`: that
/// source's buffer takes the line (bounded, FIFO at capacity, cursor to
/// the new line below capacity), everything else stays; an arrival for
/// an unregistered source is ignored entirely.
pub open spec fn line_effect(pre: App, post: App, source: Seq<char>, line: Seq<char>) -> bool {
    if name_pos(pre.names(), source) >= 0 {
        let p = name_pos(pre.names(), source);
        &&& post.opt == pre.opt
        &&& post.logfile_names == pre.logfile_names
        &&& post.logfile_with_focus == pre.logfile_with_focus
        &&& post.dash_state == pre.dash_state
        &&& post.monitors@.len() == pre.monitors@.len()
        &&& forall|i: int|
            0 <= i < pre.monitors@.len() && i != p ==> post.monitors@[i] == pre.monitors@[i]
        &&& post.monitors@[p].index == pre.monitors@[p].index
        &&& post.monitors@[p].has_focus == pre.monitors@[p].has_focus
        &&& post.monitors@[p].logfile == pre.monitors@[p].logfile
        &&& post.monitors@[p].content.max_lines == pre.monitors@[p].content.max_lines
        &&& post.monitors@[p].content.lines() == fifo_push(
            pre.monitors@[p].content.cap(),
            pre.monitors@[p].content.lines(),
            line,
        )
        &&& (pre.monitors@[p].content.items@.len() < pre.monitors@[p].content.max_lines
            ==> post.monitors@[p].content.selected == Some(
            (post.monitors@[p].content.items@.len() - 1) as usize,
        ))
        &&& (pre.monitors@[p].content.items@.len() >= pre.monitors@[p].content.max_lines
            ==> post.monitors@[p].content.selected == pre.monitors@[p].content.selected)
    } else {
        post == pre
    }
}

impl App {
    /// Dispatches one resolved event of the main loop's race and says
    /// how the loop goes on: `Quit` exactly on the quit key, `Abort`
    /// exactly when an event source failed (the worker channel closed,
    /// or the line stream erred), `Continue` — with a redraw — on
    /// everything else. A tick changes nothing (the redraw happens every
    /// iteration anyway), and a line arriving for an unregistered source
    /// is ignored.
    pub fn handle_event(&mut self, event: &LoopEvent) -> (d: Directive)
        requires
            old(self).wf(),
        ensures
            final(self).wf(),
            (d == Directive::Quit) <==> (*event matches LoopEvent::Worker(Event::Input(
                InputKey::Quit,
            ))),
            (d == Directive::Abort) <==> ((*event matches LoopEvent::WorkerClosed) || (
            *event matches LoopEvent::LineError)),
            *event matches LoopEvent::Worker(Event::Input(InputKey::Quit)) ==> *final(self) == *old(
                self,
            ),
            *event matches LoopEvent::Worker(Event::Input(InputKey::HorizontalView))
                ==> view_switch_effect(*old(self), *final(self), DashViewMain::DashHorizontal),
            *event matches LoopEvent::Worker(Event::Input(InputKey::VerticalView))
                ==> view_switch_effect(*old(self), *final(self), DashViewMain::DashVertical),
            *event matches LoopEvent::Worker(Event::Input(InputKey::ArrowUp)) ==> arrow_effect(
                *old(self),
                *final(self),
                false,
            ),
            *event matches LoopEvent::Worker(Event::Input(InputKey::ArrowDown)) ==> arrow_effect(
                *old(self),
                *final(self),
                true,
            ),
            *event matches LoopEvent::Worker(Event::Input(InputKey::FocusNext))
                ==> focus_step_effect(*old(self), *final(self), true),
            *event matches LoopEvent::Worker(Event::Input(InputKey::FocusPrevious))
                ==> focus_step_effect(*old(self), *final(self), false),
            *event matches LoopEvent::Worker(Event::Input(InputKey::Other)) ==> *final(self)
                == *old(self),
            *event matches LoopEvent::Worker(Event::Tick) ==> *final(self) == *old(self),
            *event matches LoopEvent::WorkerClosed ==> *final(self) == *old(self),
            *event matches LoopEvent::LineError ==> *final(self) == *old(self),
            *event matches LoopEvent::Line(source, line) ==> line_effect(
                *old(self),
                *final(self),
                source@,
                line@,
            ),
    {
        match event {
            LoopEvent::Worker(Event::Input(k)) => match k {
                InputKey::Quit => Directive::Quit,
                InputKey::HorizontalView => {
                    self.dash_state.main_view = DashViewMain::DashHorizontal;
                    Directive::Continue
                },
                InputKey::VerticalView => {
                    self.dash_state.main_view = DashViewMain::DashVertical;
                    Directive::Continue
                },
                InputKey::ArrowUp => {
                    self.handle_arrow_up();
                    Directive::Continue
                },
                InputKey::ArrowDown => {
                    self.handle_arrow_down();
                    Directive::Continue
                },
                InputKey::FocusNext => {
                    self.change_focus_next();
                    Directive::Continue
                },
                InputKey::FocusPrevious => {
                    self.change_focus_previous();
                    Directive::Continue
                },
                InputKey::Other => Directive::Continue,
            },
            LoopEvent::Worker(Event::Tick) => Directive::Continue,
            LoopEvent::WorkerClosed => Directive::Abort,
            LoopEvent::LineError => Directive::Abort,
            LoopEvent::Line(source, line) => {
                proof {
                    lemma_name_pos_properties(self.names(), source@);
                }
                match find_name_index(&self.logfile_names, source) {
                    Some(i) => {
                        let m = &mut self.monitors[i];
                        m.append_to_content(line.as_str());
                    },
                    None => {},
                }
                Directive::Continue
            },
        }
    }
}

} // verus!
