//! The decisions of a directory watch. The caller receives the (debounced)
//! file-system events, hands each to the watcher, and carries out the action
//! it returns: submit a file, move a submitted file into `sent/`, report a
//! failed submission, or stop. Files are handled one at a time, and a file is
//! moved only after its submission succeeded.
use vstd::prelude::*;
use crate::text::{has_pdf_suffix, is_pdf_name, sent_path, sent_path_of};

verus! {

/// One event of the watched directory.
#[derive(Debug, Clone, PartialEq, Eq)]
pub enum WatchEvent {
    /// A file was created at this path.
    Created(String),
    /// Any other change (a write, a removal, a rename).
    Other,
    /// The event source reported an error.
    WatchError,
    /// The watch is to end.
    Shutdown,
}

/// Where the watcher stands.
#[derive(Debug, Clone, PartialEq, Eq)]
pub enum WatchState {
    /// Waiting for the next event.
    Idle,
    /// The file at this path is being submitted.
    Processing(String),
    /// The watch has ended.
    Stopped,
}

/// What the caller does next.
#[derive(Debug, Clone, PartialEq, Eq)]
pub enum WatchAction {
    /// Nothing; wait for the next event.
    Nothing,
    /// Submit the file at this path.
    Submit(String),
    /// Move the submitted file `from` to `to` (creating its directory).
    Move { from: String, to: String },
    /// Report that the submission of this file failed; the file stays.
    ReportFailure(String),
    /// End the watch.
    Stop,
}

/// The state and action that follow an event. A created `.pdf` file is
/// taken up when idle; every other event leaves the state as it is and asks
/// for nothing, but for the request to stop.
pub open spec fn event_step(s: WatchState, e: WatchEvent) -> (WatchState, WatchAction) {
    match e {
        WatchEvent::Shutdown => (WatchState::Stopped, WatchAction::Stop),
        WatchEvent::Created(p) => if s is Idle && has_pdf_suffix(p@) {
            (WatchState::Processing(p), WatchAction::Submit(p))
        } else {
            (s, WatchAction::Nothing)
        },
        _ => (s, WatchAction::Nothing),
    }
}

/// `(t, a)` follows the outcome `success` of the submission under way in
/// `s`: on success the file moves into `sent/` beside it, on failure it
/// stays and the failure is reported; either way the watcher is idle again.
/// With no submission under way nothing changes.
pub open spec fn outcome_step(s: WatchState, success: bool, t: WatchState, a: WatchAction) -> bool {
    match s {
        WatchState::Processing(p) => {
            &&& t is Idle
            &&& if success {
                a matches WatchAction::Move { from, to } && from == p && to@ == sent_path_of(p@)
            } else {
                a == WatchAction::ReportFailure(p)
            }
        },
        _ => t == s && a is Nothing,
    }
}

/// A directory watcher.
pub struct DirWatcher {
    pub state: WatchState,
}

impl DirWatcher {
    /// A watcher waiting for its first event.
    pub fn new() -> (r: DirWatcher)
        ensures
            r.state is Idle,
    {
        DirWatcher { state: WatchState::Idle }
    }

    /// Takes one event and says what to do (see `event_step`).
    pub fn handle_event(&mut self, event: WatchEvent) -> (r: WatchAction)
        ensures
            (final(self).state, r) == event_step(old(self).state, event),
    {
        match event {
            WatchEvent::Shutdown => {
                self.state = WatchState::Stopped;
                WatchAction::Stop
            },
            WatchEvent::Created(p) => {
                let idle = match self.state {
                    WatchState::Idle => true,
                    _ => false,
                };
                if idle && is_pdf_name(p.as_str()) {
                    self.state = WatchState::Processing(p.clone());
                    WatchAction::Submit(p)
                } else {
                    WatchAction::Nothing
                }
            },
            _ => WatchAction::Nothing,
        }
    }

    /// Takes the outcome of the submission under way and says what to do
    /// (see `outcome_step`).
    pub fn handle_outcome(&mut self, success: bool) -> (r: WatchAction)
        ensures
            outcome_step(old(self).state, success, final(self).state, r),
    {
        let mut state = WatchState::Idle;
        std::mem::swap(&mut state, &mut self.state);
        match state {
            WatchState::Processing(p) => {
                if success {
                    let to = sent_path(p.as_str());
                    WatchAction::Move { from: p, to }
                } else {
                    WatchAction::ReportFailure(p)
                }
            },
            other => {
                self.state = other;
                WatchAction::Nothing
            },
        }
    }
}

/// An event never asks for a file to be moved: a move follows only the
/// outcome of a submission.
pub proof fn lemma_events_never_move(s: WatchState, e: WatchEvent)
    ensures
        !(event_step(s, e).1 is Move),
{
}

/// A created file that is no PDF file is not submitted and stays where it is;
/// the watcher's state does not change.
pub proof fn lemma_non_pdf_ignored(s: WatchState, path: String)
    requires
        !has_pdf_suffix(path@),
    ensures
        event_step(s, WatchEvent::Created(path)) == (s, WatchAction::Nothing),
{
}

/// A created PDF file met while idle is submitted exactly once: the one
/// action asked for is its submission, and the watcher waits for its outcome.
pub proof fn lemma_pdf_submitted_once(path: String)
    requires
        has_pdf_suffix(path@),
    ensures
        event_step(WatchState::Idle, WatchEvent::Created(path)) == (
            WatchState::Processing(path),
            WatchAction::Submit(path),
        ),
{
}

/// A failed submission leaves its file in place: no move is asked for, the
/// failure is reported once, and the watcher is idle again.
pub proof fn lemma_failure_keeps_file(s: WatchState, t: WatchState, a: WatchAction)
    requires
        outcome_step(s, false, t, a),
    ensures
        !(a is Move),
        s matches WatchState::Processing(p) ==> a == WatchAction::ReportFailure(p) && t is Idle,
{
}

/// A successful submission moves exactly the submitted file, into `sent/`
/// beside it under the same base name.
pub proof fn lemma_success_moves_file(path: String, t: WatchState, a: WatchAction)
    requires
        outcome_step(WatchState::Processing(path), true, t, a),
    ensures
        a matches WatchAction::Move { from, to } && from == path && to@ == sent_path_of(path@),
        t is Idle,
{
}

} // verus!
