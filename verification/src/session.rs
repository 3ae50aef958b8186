use vstd::prelude::*;

use crate::engine::{execute, index_clamped, mode_wf, step_ok, Key, Mode, Outcome};
use crate::store::{remove_spec, TissueBox};

verus! {

/// What the session loop must do after one keypress, before it renders
/// again or reads the next key.
#[derive(Debug, PartialEq)]
pub enum SessionAction {
    /// Nothing outside the session: render and read the next key.
    Continue,
    /// Save the store, then report the result with
    /// [`Session::save_finished`].
    Save,
    /// Spawn the clipboard hand-off with the text, then report with
    /// [`Session::clipboard_finished`].
    SpawnClipboard(String),
    /// Run the version-control commit helper for the issue at the index,
    /// then report with [`Session::gate_finished`].
    RunCommit(usize),
    /// Run the issue-publish helper for the issue at the index, then
    /// report with [`Session::gate_finished`].
    RunPublish(usize),
    /// End the session.
    Exit,
}

/// The fixed reason reported when the clipboard hand-off is not
/// configured or cannot be spawned.
pub open spec fn clipboard_unavailable_text() -> Seq<char> {
    "clipboard unavailable"@
}

/// The fixed clipboard failure message.
pub fn clipboard_unavailable_message() -> (r: String)
    ensures
        r@ == clipboard_unavailable_text(),
{
    "clipboard unavailable".to_owned()
}

/// The state the session loop threads between keypresses: the
/// interaction mode, the highlighted index, the store, the error shown
/// on the last screen line, and whether a mutation still awaits its
/// save.
pub struct Session {
    pub mode: Mode,
    pub index: usize,
    pub tissue_box: TissueBox,
    pub last_error: Option<String>,
    pub clipboard_available: bool,
    pub needs_save: bool,
}

/// How one outcome of the action executor lands in the session: the new
/// mode, the displayed error, the save flag and the action handed to the
/// loop.
pub open spec fn outcome_applied(s0: Session, oc: Outcome, s1: Session, r: SessionAction) -> bool {
    &&& s1.clipboard_available == s0.clipboard_available
    &&& match oc {
        Outcome::Next(m) => s1.mode == m && s1.last_error is None && !s1.needs_save && r
            == SessionAction::Continue,
        Outcome::Persist(m) => s1.mode == m && s1.last_error is None && s1.needs_save && r
            == SessionAction::Save,
        Outcome::CopyRequested(text) => s1.mode is Idle && !s1.needs_save && (
        if s0.clipboard_available {
            s1.last_error is None && (r matches SessionAction::SpawnClipboard(t) && t@ == text@)
        } else {
            (s1.last_error matches Some(e) && e@ == clipboard_unavailable_text()) && r
                == SessionAction::Continue
        }),
        Outcome::CommitRequested(i) => s1.mode == s0.mode && s1.last_error is None
            && !s1.needs_save && r == SessionAction::RunCommit(i),
        Outcome::PublishRequested(i) => s1.mode == s0.mode && s1.last_error is None
            && !s1.needs_save && r == SessionAction::RunPublish(i),
        Outcome::Failed(msg) => s1.mode is Idle && (s1.last_error matches Some(e) && e@ == msg@)
            && !s1.needs_save && r == SessionAction::Continue,
        Outcome::Exit => s1.mode == s0.mode && s1.last_error is None && !s1.needs_save && r
            == SessionAction::Exit,
    }
}

/// One keypress of the session: some outcome of the action executor
/// explains the move from `s0` to `s1` and the returned action.
pub open spec fn session_step(s0: Session, key: Key, s1: Session, r: SessionAction) -> bool {
    exists|oc: Outcome|
        {
            &&& #[trigger] step_ok(
                s0.mode,
                key,
                s0.index as int,
                s0.tissue_box@,
                s1.index as int,
                s1.tissue_box@,
                oc,
            )
            &&& outcome_applied(s0, oc, s1, r)
        }
}

impl Session {
    /// All parts fit together: the store invariant holds, the
    /// highlighted index is clamped into the live sequence, and the mode
    /// is legal against both.
    pub open spec fn wf(&self) -> bool {
        &&& self.tissue_box@.wf()
        &&& index_clamped(self.index as int, self.tissue_box@)
        &&& mode_wf(self.mode, self.index as int, self.tissue_box@)
    }

    /// A fresh session over a loaded store, idle, with nothing selected
    /// and nothing to save.
    pub fn new(tissue_box: TissueBox, clipboard_available: bool) -> (r: Session)
        requires
            tissue_box@.wf(),
        ensures
            r.wf(),
            r.mode is Idle,
            r.index == 0,
            r.tissue_box == tissue_box,
            r.last_error is None,
            r.clipboard_available == clipboard_available,
            !r.needs_save,
    {
        Session {
            mode: Mode::Idle,
            index: 0,
            tissue_box,
            last_error: None,
            clipboard_available,
            needs_save: false,
        }
    }

    /// Feed one keypress to the session.
    ///
    /// The move is pinned down by [`session_step`]. Beyond it: the
    /// session stays well-formed; the returned action is `Save` exactly
    /// when the keypress changed the store, and exactly then the save
    /// flag rises — so no mutation ever reaches a render unsaved, and
    /// nothing else asks for a save; and the cancel key always lands in
    /// `Idle` with the store untouched.
    pub fn handle_key(&mut self, key: Key) -> (r: SessionAction)
        requires
            old(self).wf(),
            !old(self).needs_save,
        ensures
            final(self).wf(),
            session_step(*old(self), key, *final(self), r),
            final(self).needs_save <==> r == SessionAction::Save,
            r == SessionAction::Save <==> final(self).tissue_box@ != old(self).tissue_box@,
            key == Key::Esc ==> final(self).mode is Idle && final(self).tissue_box@ == old(
                self,
            ).tissue_box@,
    {
        let mut mode = Mode::Idle;
        core::mem::swap(&mut mode, &mut self.mode);
        let ghost mode0 = mode;
        let oc = execute(mode, key, &mut self.index, &mut self.tissue_box);
        let ghost oc0 = oc;
        let r = match oc {
            Outcome::Next(m) => {
                self.mode = m;
                self.last_error = None;
                self.needs_save = false;
                SessionAction::Continue
            },
            Outcome::Persist(m) => {
                self.mode = m;
                self.last_error = None;
                self.needs_save = true;
                SessionAction::Save
            },
            Outcome::CopyRequested(text) => {
                self.mode = Mode::Idle;
                self.needs_save = false;
                if self.clipboard_available {
                    self.last_error = None;
                    SessionAction::SpawnClipboard(text)
                } else {
                    self.last_error = Some(clipboard_unavailable_message());
                    SessionAction::Continue
                }
            },
            Outcome::CommitRequested(i) => {
                proof {
                    assert(mode0 is Commit);
                }
                self.mode = Mode::Commit;
                self.last_error = None;
                self.needs_save = false;
                SessionAction::RunCommit(i)
            },
            Outcome::PublishRequested(i) => {
                proof {
                    assert(mode0 is Publish);
                }
                self.mode = Mode::Publish;
                self.last_error = None;
                self.needs_save = false;
                SessionAction::RunPublish(i)
            },
            Outcome::Failed(msg) => {
                self.mode = Mode::Idle;
                self.last_error = Some(msg);
                self.needs_save = false;
                SessionAction::Continue
            },
            Outcome::Exit => {
                self.mode = Mode::Idle;
                self.last_error = None;
                self.needs_save = false;
                SessionAction::Exit
            },
        };
        proof {
            assert(step_ok(
                old(self).mode,
                key,
                old(self).index as int,
                old(self).tissue_box@,
                self.index as int,
                self.tissue_box@,
                oc0,
            ));
            assert(outcome_applied(*old(self), oc0, *self, r));
        }
        r
    }

    /// The error line of the next frame. The session loop renders only
    /// between keypresses with no unsaved mutation: a `Save` action is
    /// completed and reported through [`Session::save_finished`] first,
    /// which this precondition states.
    pub fn display_error(&self) -> (r: Option<&String>)
        requires
            !self.needs_save,
        ensures
            match r {
                Some(e) => self.last_error == Some(*e),
                None => self.last_error is None,
            },
    {
        match &self.last_error {
            Some(e) => Some(e),
            None => None,
        }
    }

    /// Record the result of the save that the last `Save` action asked
    /// for: a failure becomes the displayed error; the in-memory store,
    /// the mode and the index are untouched either way.
    pub fn save_finished(&mut self, error: Option<String>)
        requires
            old(self).wf(),
        ensures
            final(self).wf(),
            !final(self).needs_save,
            final(self).tissue_box == old(self).tissue_box,
            final(self).mode == old(self).mode,
            final(self).index == old(self).index,
            final(self).clipboard_available == old(self).clipboard_available,
            final(self).last_error == error,
    {
        self.needs_save = false;
        self.last_error = error;
    }

    /// Record whether the clipboard hand-off could be spawned: a failure
    /// is shown as the fixed clipboard-unavailable error; nothing else
    /// changes.
    pub fn clipboard_finished(&mut self, ok: bool)
        requires
            old(self).wf(),
        ensures
            final(self).wf(),
            final(self).tissue_box == old(self).tissue_box,
            final(self).mode == old(self).mode,
            final(self).index == old(self).index,
            final(self).needs_save == old(self).needs_save,
            final(self).clipboard_available == old(self).clipboard_available,
            ok ==> final(self).last_error == old(self).last_error,
            !ok ==> (final(self).last_error matches Some(e) && e@
                == clipboard_unavailable_text()),
    {
        if !ok {
            self.last_error = Some(clipboard_unavailable_message());
        }
    }

    /// Record the result of a commit or publish helper run for the issue
    /// at `index`: on success the issue moves to the recycle bin and the
    /// store must be saved; on failure the error text is shown and the
    /// store is untouched. Either way the session returns to `Idle`.
    pub fn gate_finished(&mut self, index: usize, result: Result<(), String>) -> (r: SessionAction)
        requires
            old(self).wf(),
            !old(self).needs_save,
            index < old(self).tissue_box@.tissues.len(),
        ensures
            final(self).wf(),
            final(self).mode is Idle,
            final(self).clipboard_available == old(self).clipboard_available,
            match result {
                Ok(_) => {
                    &&& final(self).tissue_box@ == remove_spec(
                        old(self).tissue_box@,
                        index as int,
                    )
                    &&& final(self).needs_save
                    &&& final(self).last_error is None
                    &&& r == SessionAction::Save
                },
                Err(e) => {
                    &&& final(self).tissue_box@ == old(self).tissue_box@
                    &&& !final(self).needs_save
                    &&& (final(self).last_error matches Some(x) && x@ == e@)
                    &&& r == SessionAction::Continue
                },
            },
            final(self).tissue_box@ != old(self).tissue_box@ ==> r == SessionAction::Save,
    {
        self.mode = Mode::Idle;
        match result {
            Ok(_) => {
                let _ = self.tissue_box.remove(index);
                let n = self.tissue_box.tissues.len();
                if self.index >= n {
                    self.index = if n == 0 {
                        0
                    } else {
                        n - 1
                    };
                }
                self.needs_save = true;
                self.last_error = None;
                SessionAction::Save
            },
            Err(e) => {
                self.last_error = Some(e);
                self.needs_save = false;
                SessionAction::Continue
            },
        }
    }
}

/// Index safety along any run: [`Session::new`] establishes
/// well-formedness and [`Session::handle_key`] preserves it, so by
/// induction over any key sequence fed from `Idle`, after every step
/// the highlighted index lies in `[0, len - 1]` of the live sequence
/// (resting inert at 0 when it is empty), and a selector mode's walked
/// index lies inside the sequence it walks.
pub proof fn lemma_wf_indices_in_bounds(s: Session)
    requires
        s.wf(),
    ensures
        s.tissue_box@.tissues.len() > 0 ==> 0 <= s.index < s.tissue_box@.tissues.len(),
        s.tissue_box@.tissues.len() == 0 ==> s.index == 0,
        s.mode matches Mode::Restore(ri) ==> (ri as int) < s.tissue_box@.recycle_bin.len(),
        s.mode matches Mode::RemoveDescription(di) ==> (di as int) < s.tissue_box@.tissues[
            s.index as int
        ].description.len(),
{
}

/// The first-run bootstrap prompt, a degenerate two-state gate: the
/// affirmative key answers yes, the negative key no, anything else
/// leaves the prompt open.
pub fn bootstrap_prompt(key: Key) -> (r: Option<bool>)
    ensures
        (key == Key::Char('y') || key == Key::Char('Y')) ==> r == Some(true),
        (key == Key::Char('n') || key == Key::Char('N')) ==> r == Some(false),
        !(key matches Key::Char(c) && (c == 'y' || c == 'Y' || c == 'n' || c == 'N')) ==> r
            is None,
{
    match key {
        Key::Char(c) => {
            if c == 'y' || c == 'Y' {
                Some(true)
            } else if c == 'n' || c == 'N' {
                Some(false)
            } else {
                None
            }
        },
        _ => None,
    }
}

} // verus!
