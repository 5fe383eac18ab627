//! The reload controller: the decision core of hot reloading.
//!
//! A background observer watches the description file and reports
//! change events; a timer polls on the interface thread.  Only plain
//! data crosses the thread boundary: the observer parses the file and
//! hands over a [`Widget`] tree, never a live widget.  The controller
//! decides, for every event, what the next state is and whether the
//! user's setup callback must run: a qualifying write coalesces with
//! any still-pending one into a single pending setup run, and a parse
//! failure leaves the displayed hierarchy untouched.

use crate::dispatch::opt_built_view;
use crate::dispatch::spec_build;
use crate::dispatch::transform;
use crate::dispatch::BuiltNode;
use crate::dispatch::BuiltWidget;
use crate::model::Widget;
use vstd::prelude::*;

verus! {

/// What a file-change event means to the controller, with everything
/// but the deciding kind abstracted away.  The boundary that owns the
/// observer translates its events into this form.
#[derive(Clone, Copy, Debug, PartialEq, Eq, Structural)]
pub enum FileEvent {
    /// A file that was open for writing has been closed.
    WriteClose,
    /// A file's content has been modified in place.
    ContentChange,
    /// Any other kind of event.
    Other,
}

/// The events that qualify for a reload attempt: a completed write,
/// or an in-place content change; everything else is ignored.
pub open spec fn reload_wanted(e: FileEvent) -> bool {
    e is WriteClose || e is ContentChange
}

/// Decides whether a file-change event triggers a reload attempt.
pub fn should_reload(e: FileEvent) -> (r: bool)
    ensures
        r == reload_wanted(e),
{
    matches!(e, FileEvent::WriteClose | FileEvent::ContentChange)
}

/// The controller's state, mathematically: the view of the displayed
/// hierarchy, and whether a setup run is pending.
#[verifier::ext_equal]
pub ghost struct ReloadView {
    /// The displayed hierarchy, or nothing when the current
    /// description built no widget.
    pub displayed: Option<BuiltNode>,
    /// True while a completed rebuild awaits its setup run.
    pub pending: bool,
}

/// The transition for a source change whose parse finished: a parsed
/// tree replaces the hierarchy wholesale and leaves a setup run
/// pending; a parse failure changes nothing.  The second component
/// says whether a rebuild happened.
pub open spec fn step_change(s: ReloadView, parsed: Option<Widget>) -> (ReloadView, bool) {
    match parsed {
        Some(w) => (ReloadView { displayed: spec_build(w, false), pending: true }, true),
        None => (s, false),
    }
}

/// The transition for one polling tick: a pending setup run is
/// consumed and reported; the hierarchy never changes.  The second
/// component says whether the setup callback must run now.
pub open spec fn step_tick(s: ReloadView) -> (ReloadView, bool) {
    (ReloadView { displayed: s.displayed, pending: false }, s.pending)
}

/// The reload controller.  It owns the model of the displayed
/// hierarchy; the boundary around it realizes that model in the
/// toolkit after every transition that reports a rebuild.
#[derive(Debug)]
pub struct Reloader {
    displayed: Option<BuiltWidget>,
    pending: bool,
}

impl Reloader {
    /// The controller's state as a mathematical value.
    pub closed spec fn view(&self) -> ReloadView {
        ReloadView { displayed: opt_built_view(self.displayed), pending: self.pending }
    }

    /// A controller displaying what the initial description builds,
    /// with no setup run pending.
    pub fn new(initial: Option<&Widget>) -> (r: Reloader)
        ensures
            r.view().displayed == (match initial {
                Some(w) => spec_build(*w, false),
                None => None::<BuiltNode>,
            }),
            r.view().pending == false,
    {
        let displayed = match initial {
            Some(w) => transform(w),
            None => None,
        };
        Reloader { displayed, pending: false }
    }

    /// The displayed hierarchy, for realization and lookup.
    pub fn displayed(&self) -> (r: Option<&BuiltWidget>)
        ensures
            match r {
                Some(b) => self.view().displayed == Some(crate::dispatch::built_view(*b)),
                None => self.view().displayed is None,
            },
    {
        self.displayed.as_ref()
    }

    /// Takes in the outcome of a reload attempt: the freshly parsed
    /// tree, or nothing when the parse failed.  On success the old
    /// hierarchy is torn down, the new tree is built in its place and
    /// a setup run becomes pending; on failure nothing changes at
    /// all.  Returns whether a rebuild happened.
    pub fn on_source_change(&mut self, parsed: Option<Widget>) -> (rebuilt: bool)
        ensures
            final(self).view() == step_change(old(self).view(), parsed).0,
            rebuilt == step_change(old(self).view(), parsed).1,
    {
        match parsed {
            Some(w) => {
                self.displayed = transform(&w);
                self.pending = true;
                true
            },
            None => false,
        }
    }

    /// One polling tick on the interface thread: reports whether the
    /// setup callback must run now, and clears the pending mark.  Any
    /// number of rebuilds since the previous tick collapse into a
    /// single run.
    pub fn on_tick(&mut self) -> (run_setup: bool)
        ensures
            final(self).view() == step_tick(old(self).view()).0,
            run_setup == step_tick(old(self).view()).1,
    {
        let r = self.pending;
        self.pending = false;
        r
    }
}

/// Reload coalescing: two source changes within one polling interval
/// produce exactly one setup run — the next tick runs setup, the tick
/// after it does not.
pub proof fn lemma_reload_coalesced(s: ReloadView, w1: Widget, w2: Widget)
    ensures
        ({
            let (s1, r1) = step_change(s, Some(w1));
            let (s2, r2) = step_change(s1, Some(w2));
            let (s3, ran_first) = step_tick(s2);
            let (s4, ran_second) = step_tick(s3);
            ran_first == true && ran_second == false
        }),
{
}

/// Reload safety: a reload attempt whose parse failed leaves the
/// whole controller state, the displayed hierarchy included,
/// unchanged, and reports no rebuild.
pub proof fn lemma_reload_safe(s: ReloadView)
    ensures
        step_change(s, None).0 == s,
        step_change(s, None).1 == false,
{
}

} // verus!
