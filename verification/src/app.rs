//! Application state: the fixed, creation-ordered list of monitored
//! sources, the focus navigator over it, and the display state.

use vstd::prelude::*;
use vstd::string::StringExecFns;

use crate::buffer::ContentBuffer;
use crate::buffer::moved_selection;
use crate::dash::DashState;
use crate::monitor::LogMonitor;
use crate::opt::Opt;

verus! {

/// The reserved focus key of the debug window, abstractly.
pub open spec fn debug_key() -> Seq<char> {
    "Debug Window"@
}

/// The reserved focus key of the debug window.
pub fn debug_window_name() -> (s: String)
    ensures
        s@ == debug_key(),
{
    String::from_str("Debug Window")
}

/// Position of the first name equal to `key` in `names`, or -1 when no
/// name matches.
pub open spec fn name_pos(names: Seq<Seq<char>>, key: Seq<char>) -> int
    decreases names.len(),
{
    if names.len() == 0 {
        -1
    } else if names[0] == key {
        0
    } else {
        let r = name_pos(names.skip(1), key);
        if r < 0 {
            -1
        } else {
            r + 1
        }
    }
}

/// `name_pos` lands inside the list on a match, at the matching key, and
/// reports -1 exactly when no name matches.
pub proof fn lemma_name_pos_properties(names: Seq<Seq<char>>, key: Seq<char>)
    ensures
        -1 <= name_pos(names, key) < names.len(),
        name_pos(names, key) >= 0 ==> names[name_pos(names, key)] == key,
        name_pos(names, key) == -1 <==> (forall|i: int| 0 <= i < names.len() ==> names[i] != key),
    decreases names.len(),
{
    if names.len() > 0 && names[0] != key {
        lemma_name_pos_properties(names.skip(1), key);
        assert(forall|i: int|
            0 <= i < names.skip(1).len() ==> names.skip(1)[i] == names[i + 1]);
        if name_pos(names, key) == -1 {
            assert forall|i: int| 0 <= i < names.len() implies names[i] != key by {
                if i > 0 {
                    assert(names.skip(1)[i - 1] == names[i]);
                }
            }
        }
        if forall|i: int| 0 <= i < names.len() ==> names[i] != key {
            assert forall|i: int| 0 <= i < names.skip(1).len() implies names.skip(1)[i] != key by {
                assert(names.skip(1)[i] == names[i + 1]);
            }
        }
    }
}

/// `name_pos` finds the first match: a match at `i` with no earlier one
/// pins the position to `i`.
pub proof fn lemma_name_pos_first(names: Seq<Seq<char>>, key: Seq<char>, i: int)
    requires
        0 <= i < names.len(),
        names[i] == key,
        forall|j: int| 0 <= j < i ==> names[j] != key,
    ensures
        name_pos(names, key) == i,
    decreases i,
{
    if i > 0 {
        lemma_name_pos_first(names.skip(1), key, i - 1);
    }
}

/// Appending a fresh name moves no existing position: a key found before
/// is found where it was, the new name is found at the back, and an
/// absent key stays absent.
pub proof fn lemma_name_pos_push(names: Seq<Seq<char>>, key: Seq<char>, fresh: Seq<char>)
    ensures
        name_pos(names, key) >= 0 ==> name_pos(names.push(fresh), key) == name_pos(names, key),
        name_pos(names, key) == -1 && key == fresh ==> name_pos(names.push(fresh), key)
            == names.len(),
        name_pos(names, key) == -1 && key != fresh ==> name_pos(names.push(fresh), key) == -1,
    decreases names.len(),
{
    if names.len() == 0 {
        assert(names.push(fresh)[0] == fresh);
        assert(names.push(fresh).len() == 1);
        assert(names.push(fresh).skip(1) =~= Seq::<Seq<char>>::empty());
        assert(name_pos(Seq::<Seq<char>>::empty(), key) == -1);
    } else {
        lemma_name_pos_push(names.skip(1), key, fresh);
        assert(names.push(fresh).skip(1) =~= names.skip(1).push(fresh));
        assert(name_pos(names.push(fresh).skip(1), key) == name_pos(
            names.skip(1).push(fresh),
            key,
        ));
        assert(names.push(fresh)[0] == names[0]);
    }
}

/// Finds the position of `key` in `names` by a front-to-back scan.
pub(crate) fn find_name_index(names: &Vec<String>, key: &String) -> (r: Option<usize>)
    ensures
        r matches Some(i) ==> name_pos(names.deep_view(), key@) == i,
        r is None ==> name_pos(names.deep_view(), key@) == -1,
{
    let n = names.len();
    let mut i: usize = 0;
    while i < n
        invariant
            i <= n,
            n == names@.len(),
            forall|j: int| 0 <= j < i ==> names.deep_view()[j] != key@,
        decreases n - i,
    {
        if key.eq(&names[i]) {
            proof {
                lemma_name_pos_first(names.deep_view(), key@, i as int);
            }
            return Some(i);
        }
        i = i + 1;
    }
    proof {
        lemma_name_pos_properties(names.deep_view(), key@);
    }
    None
}

/// `b` is `a` with at most the focus flags changed: same length, and
/// every monitor keeps its index, logfile and content.
pub open spec fn monitors_same_but_focus(a: Seq<LogMonitor>, b: Seq<LogMonitor>) -> bool {
    &&& a.len() == b.len()
    &&& forall|i: int|
        0 <= i < a.len() ==> (#[trigger] b[i]).index == a[i].index && b[i].logfile == a[i].logfile
            && b[i].content == a[i].content
}

/// `b` is `a` with at most the debug-window focus flag changed.
pub open spec fn dash_same_but_debug_focus(a: DashState, b: DashState) -> bool {
    &&& b.main_view == a.main_view
    &&& b.debug_window == a.debug_window
    &&& b.debug_window_list == a.debug_window_list
    &&& b.dash_vertical == a.dash_vertical
}

/// The focus position after one step toward the next source: forward in
/// creation order, wrapping from the last source to the first; from no
/// source focus (-1) it enters at the first.
pub open spec fn next_focus_pos(p: int, n: nat) -> int {
    if 0 <= p < n - 1 {
        p + 1
    } else {
        0
    }
}

/// The focus position after one step toward the previous source:
/// backward in creation order, wrapping from the first source to the
/// last; from no source focus (-1) it enters at the last.
pub open spec fn prev_focus_pos(p: int, n: nat) -> int {
    if 1 <= p < n {
        p - 1
    } else {
        n - 1
    }
}

/// The focus position after `k` next-steps from position `start` over
/// `n` sources.
pub open spec fn iterated_next_pos(start: int, k: nat, n: nat) -> int
    decreases k,
{
    if k == 0 {
        start
    } else {
        next_focus_pos(iterated_next_pos(start, (k - 1) as nat, n), n)
    }
}

/// LAW: from the first source, successive next-steps visit every source
/// exactly once, in creation order — the `k`-th step stands at position
/// `k` for every `k` below the source count.
pub proof fn lemma_focus_next_visits_in_order(n: nat, k: nat)
    requires
        n >= 1,
        k < n,
    ensures
        iterated_next_pos(0, k, n) == k,
    decreases k,
{
    if k > 0 {
        lemma_focus_next_visits_in_order(n, (k - 1) as nat);
    }
}

/// LAW: one more next-step after visiting the last source wraps the
/// focus back to the first source.
pub proof fn lemma_focus_next_wraps(n: nat)
    requires
        n >= 1,
    ensures
        iterated_next_pos(0, n, n) == 0,
{
    lemma_focus_next_visits_in_order(n, (n - 1) as nat);
}

/// The dashboard engine's state: options, display state, and one monitor
/// per source in creation order, with the current focus key.
pub struct App {
    /// The run's configuration.
    pub opt: Opt,
    /// Layout mode and debug-window state, consumed by rendering.
    pub dash_state: DashState,
    /// One monitor per source, in creation order.
    pub monitors: Vec<LogMonitor>,
    /// The focus key: a source's canonical path, the debug sentinel, or
    /// empty for no focus.
    pub logfile_with_focus: String,
    /// The sources' canonical paths, in creation order; fixed after
    /// startup.
    pub logfile_names: Vec<String>,
}

impl App {
    /// The source keys, abstractly, in creation order.
    pub open spec fn names(&self) -> Seq<Seq<char>> {
        self.logfile_names.deep_view()
    }

    /// The current focus key, abstractly.
    pub open spec fn focus_key(&self) -> Seq<char> {
        self.logfile_with_focus@
    }

    /// Position of the focus key among the sources, or -1.
    pub open spec fn focus_pos(&self) -> int {
        name_pos(self.names(), self.focus_key())
    }

    /// No monitor holds the focus flag.
    pub open spec fn no_monitor_focused(&self) -> bool {
        forall|i: int| 0 <= i < self.monitors@.len() ==> !(#[trigger] self.monitors@[i]).has_focus
    }

    /// Exactly the monitor at position `p` holds the focus flag.
    pub open spec fn only_monitor_focused(&self, p: int) -> bool {
        &&& 0 <= p < self.monitors@.len()
        &&& self.monitors@[p].has_focus
        &&& forall|i: int|
            0 <= i < self.monitors@.len() && i != p ==> !(#[trigger] self.monitors@[i]).has_focus
    }

    /// The focus key and the focus flags agree: the debug key puts the
    /// focus on the debug window, an empty key on nothing, and any other
    /// key names a registered source whose monitor alone is flagged.
    pub open spec fn focus_coherent(&self) -> bool {
        if self.focus_key() == debug_key() {
            &&& self.dash_state.debug_window_has_focus
            &&& self.no_monitor_focused()
        } else if self.focus_key() == Seq::<char>::empty() {
            &&& !self.dash_state.debug_window_has_focus
            &&& self.no_monitor_focused()
        } else {
            &&& self.focus_pos() >= 0
            &&& self.only_monitor_focused(self.focus_pos())
            &&& !self.dash_state.debug_window_has_focus
        }
    }

    /// Well-formed: monitors and names run in step, each monitor keeps
    /// its creation index and key, keys are unique, never empty and never
    /// the debug sentinel, buffers are well-formed, and the focus state
    /// is coherent.
    pub open spec fn wf(&self) -> bool {
        &&& self.monitors@.len() == self.names().len()
        &&& forall|i: int| 0 <= i < self.monitors@.len() ==> (#[trigger] self.monitors@[i]).wf()
        &&& forall|i: int|
            0 <= i < self.monitors@.len() ==> (#[trigger] self.monitors@[i]).index == i
        &&& forall|i: int|
            0 <= i < self.monitors@.len() ==> (#[trigger] self.monitors@[i]).logfile@
                == self.names()[i]
        &&& forall|i: int, j: int|
            0 <= i < j < self.names().len() ==> self.names()[i] != self.names()[j]
        &&& forall|i: int|
            0 <= i < self.names().len() ==> (#[trigger] self.names()[i]) != Seq::<char>::empty()
                && self.names()[i] != debug_key()
        &&& self.dash_state.wf()
        &&& self.focus_coherent()
    }

    /// A fresh, unfocused engine with no sources yet; sources are added
    /// once, at startup, before the loop runs.
    pub fn new(opt: Opt) -> (app: App)
        ensures
            app.wf(),
            app.opt == opt,
            app.monitors@.len() == 0,
            app.names().len() == 0,
            app.focus_key() == Seq::<char>::empty(),
            app.dash_state.main_view == crate::dash::DashViewMain::DashHorizontal,
            !app.dash_state.debug_window_has_focus,
    {
        let app = App {
            opt,
            dash_state: DashState::new(),
            monitors: Vec::new(),
            logfile_with_focus: String::new(),
            logfile_names: Vec::new(),
        };
        proof {
            reveal_strlit("Debug Window");
            assert(app.names() =~= Seq::<Seq<char>>::empty());
            assert(debug_key().len() == 12);
            assert(app.focus_key() != debug_key());
        }
        app
    }

    /// Is a source with this key registered?
    pub fn has_source(&self, name: &String) -> (b: bool)
        ensures
            b <==> name_pos(self.names(), name@) >= 0,
    {
        proof {
            lemma_name_pos_properties(self.names(), name@);
        }
        match find_name_index(&self.logfile_names, name) {
            Some(_) => true,
            None => false,
        }
    }

    /// Registers one more source at the back of the creation order. Used
    /// only at startup: the source list is fixed once the loop runs.
    pub fn add_monitor(&mut self, monitor: LogMonitor)
        requires
            old(self).wf(),
            monitor.wf(),
            !monitor.has_focus,
            monitor.index == old(self).monitors@.len(),
            monitor.logfile@ != Seq::<char>::empty(),
            monitor.logfile@ != debug_key(),
            name_pos(old(self).names(), monitor.logfile@) == -1,
        ensures
            final(self).wf(),
            final(self).monitors@ == old(self).monitors@.push(monitor),
            final(self).names() == old(self).names().push(monitor.logfile@),
            final(self).opt == old(self).opt,
            final(self).dash_state == old(self).dash_state,
            final(self).logfile_with_focus == old(self).logfile_with_focus,
    {
        let ghost prev_names = self.names();
        self.logfile_names.push(monitor.logfile.clone());
        self.monitors.push(monitor);
        proof {
            assert(self.names() =~= prev_names.push(monitor.logfile@));
            lemma_name_pos_properties(prev_names, monitor.logfile@);
            lemma_name_pos_push(prev_names, self.focus_key(), monitor.logfile@);
            assert forall|i: int, j: int|
                0 <= i < j < self.names().len() implies self.names()[i] != self.names()[j] by {
                if j < prev_names.len() {
                } else {
                    assert(self.names()[j] == monitor.logfile@);
                }
            }
        }
    }

    /// Gives the keyboard focus to the named target: a registered
    /// source's monitor, the debug window for the reserved key, or — for
    /// any other key — nothing. Exactly one focus flag is set afterwards,
    /// or none.
    pub fn set_logfile_focus(&mut self, logfile_name: &String)
        requires
            old(self).wf(),
        ensures
            final(self).wf(),
            final(self).opt == old(self).opt,
            final(self).logfile_names == old(self).logfile_names,
            monitors_same_but_focus(old(self).monitors@, final(self).monitors@),
            dash_same_but_debug_focus(old(self).dash_state, final(self).dash_state),
            logfile_name@ == debug_key() ==> final(self).focus_key() == debug_key()
                && final(self).dash_state.debug_window_has_focus
                && final(self).no_monitor_focused(),
            logfile_name@ != debug_key() && name_pos(old(self).names(), logfile_name@) >= 0
                ==> final(self).focus_key() == logfile_name@ && final(self).only_monitor_focused(
                name_pos(old(self).names(), logfile_name@),
            ) && !final(self).dash_state.debug_window_has_focus,
            logfile_name@ != debug_key() && name_pos(old(self).names(), logfile_name@) == -1
                ==> final(self).focus_key() == Seq::<char>::empty()
                && final(self).no_monitor_focused()
                && !final(self).dash_state.debug_window_has_focus,
    {
        let n = self.monitors.len();
        let mut i: usize = 0;
        while i < n
            invariant
                i <= n,
                n == self.monitors@.len(),
                self.opt == old(self).opt,
                self.logfile_names == old(self).logfile_names,
                self.dash_state == old(self).dash_state,
                self.logfile_with_focus == old(self).logfile_with_focus,
                monitors_same_but_focus(old(self).monitors@, self.monitors@),
                forall|j: int| 0 <= j < i ==> !(#[trigger] self.monitors@[j]).has_focus,
            decreases n - i,
        {
            let m = &mut self.monitors[i];
            m.has_focus = false;
            i = i + 1;
        }
        self.dash_state.debug_window_has_focus = false;
        self.logfile_with_focus = String::new();
        proof {
            reveal_strlit("Debug Window");
            assert(debug_key().len() == 12);
        }
        let dbg = debug_window_name();
        if logfile_name.eq(&dbg) {
            self.dash_state.debug_window_has_focus = true;
            self.logfile_with_focus = logfile_name.clone();
            return ;
        }
        match find_name_index(&self.logfile_names, logfile_name) {
            Some(p) => {
                proof {
                    lemma_name_pos_properties(self.names(), logfile_name@);
                }
                let m = &mut self.monitors[p];
                m.has_focus = true;
                self.logfile_with_focus = logfile_name.clone();
            },
            None => {},
        }
    }

    /// The monitor of the currently focused source, if the focus key
    /// names one (the debug window and an empty key name none).
    pub fn get_monitor_with_focus(&self) -> (r: Option<&LogMonitor>)
        requires
            self.wf(),
        ensures
            r matches Some(m) ==> self.focus_pos() >= 0 && *m == self.monitors@[self.focus_pos()],
            r is None ==> self.focus_pos() == -1,
    {
        proof {
            lemma_name_pos_properties(self.names(), self.focus_key());
        }
        match find_name_index(&self.logfile_names, &self.logfile_with_focus) {
            Some(i) => Some(&self.monitors[i]),
            None => None,
        }
    }

    /// The monitor registered under this canonical path, if any. Lookup
    /// is by the key alone: paths are canonicalised when sources are
    /// registered, so no other spelling reaches this map.
    pub fn get_monitor_for_file_path(&self, logfile: &String) -> (r: Option<&LogMonitor>)
        requires
            self.wf(),
        ensures
            r matches Some(m) ==> name_pos(self.names(), logfile@) >= 0 && *m == self.monitors@[
                name_pos(self.names(), logfile@)
            ],
            r is None ==> name_pos(self.names(), logfile@) == -1,
    {
        proof {
            lemma_name_pos_properties(self.names(), logfile@);
        }
        match find_name_index(&self.logfile_names, logfile) {
            Some(i) => Some(&self.monitors[i]),
            None => None,
        }
    }

    /// Moves the focus to the next source in creation order, wrapping
    /// from the last source to the first; from no source focus it enters
    /// at the first source. With no sources it does nothing.
    pub fn change_focus_next(&mut self)
        requires
            old(self).wf(),
        ensures
            final(self).wf(),
            final(self).opt == old(self).opt,
            final(self).logfile_names == old(self).logfile_names,
            monitors_same_but_focus(old(self).monitors@, final(self).monitors@),
            dash_same_but_debug_focus(old(self).dash_state, final(self).dash_state),
            old(self).monitors@.len() == 0 ==> *final(self) == *old(self),
            old(self).monitors@.len() > 0 ==> final(self).focus_pos() == next_focus_pos(
                old(self).focus_pos(),
                old(self).names().len(),
            ),
            old(self).monitors@.len() > 0 ==> final(self).focus_key() == old(self).names()[
                next_focus_pos(old(self).focus_pos(), old(self).names().len())
            ],
            old(self).monitors@.len() > 0 ==> final(self).only_monitor_focused(
                next_focus_pos(old(self).focus_pos(), old(self).names().len()),
            ) && !final(self).dash_state.debug_window_has_focus,
    {
        let n = self.logfile_names.len();
        if n == 0 {
            return ;
        }
        let q: usize = match find_name_index(&self.logfile_names, &self.logfile_with_focus) {
            Some(i) => if i < n - 1 {
                i + 1
            } else {
                0
            },
            None => 0,
        };
        proof {
            lemma_name_pos_properties(self.names(), self.focus_key());
            assert(q as int == next_focus_pos(self.focus_pos(), self.names().len()));
        }
        self.focus_on_position(q);
    }

    /// Moves the focus to the previous source in creation order, wrapping
    /// from the first source to the last; from no source focus it enters
    /// at the last source. With no sources it does nothing.
    pub fn change_focus_previous(&mut self)
        requires
            old(self).wf(),
        ensures
            final(self).wf(),
            final(self).opt == old(self).opt,
            final(self).logfile_names == old(self).logfile_names,
            monitors_same_but_focus(old(self).monitors@, final(self).monitors@),
            dash_same_but_debug_focus(old(self).dash_state, final(self).dash_state),
            old(self).monitors@.len() == 0 ==> *final(self) == *old(self),
            old(self).monitors@.len() > 0 ==> final(self).focus_pos() == prev_focus_pos(
                old(self).focus_pos(),
                old(self).names().len(),
            ),
            old(self).monitors@.len() > 0 ==> final(self).focus_key() == old(self).names()[
                prev_focus_pos(old(self).focus_pos(), old(self).names().len())
            ],
            old(self).monitors@.len() > 0 ==> final(self).only_monitor_focused(
                prev_focus_pos(old(self).focus_pos(), old(self).names().len()),
            ) && !final(self).dash_state.debug_window_has_focus,
    {
        let n = self.logfile_names.len();
        if n == 0 {
            return ;
        }
        let q: usize = match find_name_index(&self.logfile_names, &self.logfile_with_focus) {
            Some(i) => if i > 0 {
                i - 1
            } else {
                n - 1
            },
            None => n - 1,
        };
        proof {
            lemma_name_pos_properties(self.names(), self.focus_key());
            assert(q as int == prev_focus_pos(self.focus_pos(), self.names().len()));
        }
        self.focus_on_position(q);
    }

    /// Gives the focus to the source at position `q` of the creation
    /// order.
    fn focus_on_position(&mut self, q: usize)
        requires
            old(self).wf(),
            q < old(self).names().len(),
        ensures
            final(self).wf(),
            final(self).opt == old(self).opt,
            final(self).logfile_names == old(self).logfile_names,
            monitors_same_but_focus(old(self).monitors@, final(self).monitors@),
            dash_same_but_debug_focus(old(self).dash_state, final(self).dash_state),
            final(self).focus_pos() == q,
            final(self).focus_key() == old(self).names()[q as int],
            final(self).only_monitor_focused(q as int),
            !final(self).dash_state.debug_window_has_focus,
    {
        let name = self.logfile_names[q].clone();
        proof {
            assert(name@ == self.names()[q as int]);
            assert forall|j: int| 0 <= j < q implies self.names()[j] != name@ by {}
            lemma_name_pos_first(self.names(), name@, q as int);
        }
        self.set_logfile_focus(&name);
    }

    /// One selection move among the retained lines: on the focused
    /// monitor's buffer, or on the debug buffer when nothing is focused
    /// and the debug window was requested.
    fn move_focused_selection(&mut self, forward: bool)
        requires
            old(self).wf(),
        ensures
            final(self).wf(),
            arrow_effect(*old(self), *final(self), forward),
    {
        proof {
            lemma_name_pos_properties(self.names(), self.focus_key());
        }
        match find_name_index(&self.logfile_names, &self.logfile_with_focus) {
            Some(i) => {
                let m = &mut self.monitors[i];
                m.content.move_selection(forward);
            },
            None => {
                if self.opt.debug_window {
                    self.dash_state.debug_window_list.move_selection(forward);
                }
            },
        }
    }

    /// Scrolls the focused buffer one line toward its oldest retained
    /// line.
    pub fn handle_arrow_up(&mut self)
        requires
            old(self).wf(),
        ensures
            final(self).wf(),
            arrow_effect(*old(self), *final(self), false),
    {
        self.move_focused_selection(false);
    }

    /// Scrolls the focused buffer one line toward its newest retained
    /// line.
    pub fn handle_arrow_down(&mut self)
        requires
            old(self).wf(),
        ensures
            final(self).wf(),
            arrow_effect(*old(self), *final(self), true),
    {
        self.move_focused_selection(true);
    }
}

/// Effect of one selection move in direction `forward`: the focused
/// monitor's cursor moves and its lines stay put; with no focused
/// monitor and the debug window requested, the debug buffer's cursor
/// moves; otherwise nothing changes.
pub open spec fn arrow_effect(pre: App, post: App, forward: bool) -> bool {
    if pre.focus_pos() >= 0 {
        let p = pre.focus_pos();
        &&& post.opt == pre.opt
        &&& post.logfile_names == pre.logfile_names
        &&& post.logfile_with_focus == pre.logfile_with_focus
        &&& post.dash_state == pre.dash_state
        &&& post.monitors@.len() == pre.monitors@.len()
        &&& forall|i: int|
            0 <= i < pre.monitors@.len() && i != p ==> post.monitors@[i] == pre.monitors@[i]
        &&& post.monitors@[p].index == pre.monitors@[p].index
        &&& post.monitors@[p].has_focus == pre.monitors@[p].has_focus
        &&& post.monitors@[p].logfile == pre.monitors@[p].logfile
        &&& post.monitors@[p].content.items == pre.monitors@[p].content.items
        &&& post.monitors@[p].content.max_lines == pre.monitors@[p].content.max_lines
        &&& post.monitors@[p].content.selected == moved_selection(
            pre.monitors@[p].content.selected,
            pre.monitors@[p].content.items@.len(),
            forward,
        )
    } else if pre.opt.debug_window {
        &&& post.opt == pre.opt
        &&& post.logfile_names == pre.logfile_names
        &&& post.logfile_with_focus == pre.logfile_with_focus
        &&& post.monitors == pre.monitors
        &&& post.dash_state.main_view == pre.dash_state.main_view
        &&& post.dash_state.debug_window == pre.dash_state.debug_window
        &&& post.dash_state.debug_window_has_focus == pre.dash_state.debug_window_has_focus
        &&& post.dash_state.dash_vertical == pre.dash_state.dash_vertical
        &&& post.dash_state.debug_window_list.items == pre.dash_state.debug_window_list.items
        &&& post.dash_state.debug_window_list.max_lines
            == pre.dash_state.debug_window_list.max_lines
        &&& post.dash_state.debug_window_list.selected == moved_selection(
            pre.dash_state.debug_window_list.selected,
            pre.dash_state.debug_window_list.items@.len(),
            forward,
        )
    } else {
        post == pre
    }
}

/// Moves the selection cursor of `list` one step: forward (toward the
/// newest line) for `next`, else backward, clamped at both ends.
pub fn do_bracketed_next_previous(list: &mut ContentBuffer, next: bool)
    requires
        old(list).wf(),
    ensures
        final(list).wf(),
        final(list).items == old(list).items,
        final(list).max_lines == old(list).max_lines,
        final(list).selected == moved_selection(
            old(list).selected,
            old(list).items@.len(),
            next,
        ),
{
    list.move_selection(next);
}

} // verus!
