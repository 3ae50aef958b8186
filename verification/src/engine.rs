use vstd::prelude::*;

use crate::render::render_box_spec;
use crate::store::{
    create_spec, describe_spec, edit_spec, remove_desc_spec, remove_spec, restore_spec, tag_removed,
    tag_spec, TissueBox, TissueBoxView,
};
use crate::text::{join_strings, join_with, pop_char, push_char};

verus! {

/// One keypress, as the session engine reads it. Key presses the engine
/// has no meaning for arrive as `Other`.
#[derive(Clone, Copy, Debug, PartialEq, Eq)]
pub enum Key {
    Char(char),
    Enter,
    Backspace,
    Esc,
    Up,
    Down,
    Left,
    Right,
    Other,
}

/// The interaction state of the session: exactly one is active at a
/// time. Text-capture states carry the buffer typed so far; selector
/// states carry the walked index.
#[derive(Debug, PartialEq)]
pub enum Mode {
    Idle,
    Help,
    Add(String),
    Describe(String),
    Tag(String),
    Edit(String),
    Copy,
    Publish,
    Commit,
    Remove,
    RemoveDescription(usize),
    RemoveTag(String),
    Restore(usize),
}

/// What one keypress produced, for the session loop to act on.
#[derive(Debug, PartialEq)]
pub enum Outcome {
    /// Only the interaction state changes.
    Next(Mode),
    /// The store was mutated: save it before the next render, then
    /// continue in the given mode.
    Persist(Mode),
    /// Hand the text to the clipboard hand-off and return to `Idle`.
    CopyRequested(String),
    /// Run the version-control commit helper for the issue at the index.
    CommitRequested(usize),
    /// Run the issue-publish helper for the issue at the index.
    PublishRequested(usize),
    /// A failure to report; the store is untouched.
    Failed(String),
    /// End the session.
    Exit,
}

/// The keys that move a selection towards the start.
pub open spec fn is_prev_key(k: Key) -> bool {
    k == Key::Char('k') || k == Key::Char('h') || k == Key::Up || k == Key::Left
}

/// The keys that move a selection towards the end.
pub open spec fn is_next_key(k: Key) -> bool {
    k == Key::Char('j') || k == Key::Char('l') || k == Key::Down || k == Key::Right
}

fn prev_key(k: &Key) -> (r: bool)
    ensures
        r == is_prev_key(*k),
{
    match k {
        Key::Char(c) => *c == 'k' || *c == 'h',
        Key::Up => true,
        Key::Left => true,
        _ => false,
    }
}

fn next_key(k: &Key) -> (r: bool)
    ensures
        r == is_next_key(*k),
{
    match k {
        Key::Char(c) => *c == 'j' || *c == 'l',
        Key::Down => true,
        Key::Right => true,
        _ => false,
    }
}

/// How a text-capture buffer reacts to a key that neither finishes nor
/// cancels the capture: a backspace-class key drops the last character,
/// a printable character is appended, anything else is ignored.
pub open spec fn gathered(buf: Seq<char>, key: Key) -> Seq<char> {
    match key {
        Key::Backspace => if buf.len() == 0 {
            buf
        } else {
            buf.drop_last()
        },
        Key::Char(c) => buf.push(c),
        _ => buf,
    }
}

fn gather(buf: &mut String, key: &Key)
    ensures
        final(buf)@ == gathered(old(buf)@, *key),
{
    match key {
        Key::Backspace => {
            let _ = pop_char(buf);
        },
        Key::Char(c) => {
            push_char(buf, *c);
        },
        _ => {},
    }
}

/// The highlighted index lies in the live sequence, or is inert at 0
/// when the sequence is empty.
pub open spec fn index_clamped(index: int, b: TissueBoxView) -> bool {
    if b.tissues.len() == 0 {
        index == 0
    } else {
        0 <= index < b.tissues.len()
    }
}

/// `i` clamped into the live sequence of `b`.
pub open spec fn clamp_index(i: int, b: TissueBoxView) -> int {
    if b.tissues.len() == 0 {
        0
    } else if i < b.tissues.len() {
        i
    } else {
        b.tissues.len() - 1
    }
}

/// Which interaction states are legal against the store and the
/// highlighted index: states that act on the highlighted issue need it
/// to exist, and selector states need their walked index in bounds.
pub open spec fn mode_wf(m: Mode, index: int, b: TissueBoxView) -> bool {
    match m {
        Mode::Idle => true,
        Mode::Help => true,
        Mode::Add(_) => true,
        Mode::Describe(_) => 0 <= index < b.tissues.len(),
        Mode::Tag(_) => 0 <= index < b.tissues.len(),
        Mode::Edit(_) => 0 <= index < b.tissues.len(),
        Mode::Copy => 0 <= index < b.tissues.len(),
        Mode::Publish => 0 <= index < b.tissues.len(),
        Mode::Commit => 0 <= index < b.tissues.len(),
        Mode::Remove => 0 <= index < b.tissues.len(),
        Mode::RemoveDescription(di) => 0 <= index < b.tissues.len() && (di as int) < b.tissues[
            index
        ].description.len(),
        Mode::RemoveTag(_) => 0 <= index < b.tissues.len(),
        Mode::Restore(ri) => (ri as int) < b.recycle_bin.len(),
    }
}

/// Neither the store nor the highlighted index changed.
pub open spec fn untouched(i0: int, b0: TissueBoxView, i1: int, b1: TissueBoxView) -> bool {
    i1 == i0 && b1 == b0
}

/// One keypress in `Idle`: directional keys move the highlight, a
/// dedicated key per action opens its state (those that act on the
/// highlighted issue only when one exists), the star key toggles or
/// follows the star, and the quit key ends the session.
pub open spec fn step_idle(
    key: Key,
    i0: int,
    b0: TissueBoxView,
    i1: int,
    b1: TissueBoxView,
    r: Outcome,
) -> bool {
    let n = b0.tissues.len() as int;
    if is_prev_key(key) {
        b1 == b0 && i1 == (if i0 > 0 {
            i0 - 1
        } else {
            0
        }) && r == Outcome::Next(Mode::Idle)
    } else if is_next_key(key) {
        b1 == b0 && i1 == (if n > 0 && i0 + 1 < n {
            i0 + 1
        } else {
            i0
        }) && r == Outcome::Next(Mode::Idle)
    } else {
        match key {
            Key::Char(c) => if c == 'q' {
                untouched(i0, b0, i1, b1) && r == Outcome::Exit
            } else if c == 'H' {
                untouched(i0, b0, i1, b1) && r == Outcome::Next(Mode::Help)
            } else if c == 'a' {
                untouched(i0, b0, i1, b1) && (r matches Outcome::Next(Mode::Add(s)) && s@
                    == Seq::<char>::empty())
            } else if c == 'R' {
                untouched(i0, b0, i1, b1) && r == (if b0.recycle_bin.len() == 0 {
                    Outcome::Next(Mode::Idle)
                } else {
                    Outcome::Next(Mode::Restore(0))
                })
            } else if c == 'd' {
                untouched(i0, b0, i1, b1) && (if n > 0 {
                    r matches Outcome::Next(Mode::Describe(s)) && s@ == Seq::<char>::empty()
                } else {
                    r == Outcome::Next(Mode::Idle)
                })
            } else if c == 't' {
                untouched(i0, b0, i1, b1) && (if n > 0 {
                    r matches Outcome::Next(Mode::Tag(s)) && s@ == Seq::<char>::empty()
                } else {
                    r == Outcome::Next(Mode::Idle)
                })
            } else if c == 'e' {
                untouched(i0, b0, i1, b1) && (if n > 0 {
                    r matches Outcome::Next(Mode::Edit(s)) && s@ == Seq::<char>::empty()
                } else {
                    r == Outcome::Next(Mode::Idle)
                })
            } else if c == 'c' {
                untouched(i0, b0, i1, b1) && r == (if n > 0 {
                    Outcome::Next(Mode::Copy)
                } else {
                    Outcome::Next(Mode::Idle)
                })
            } else if c == 'C' {
                untouched(i0, b0, i1, b1) && r == (if n > 0 {
                    Outcome::Next(Mode::Commit)
                } else {
                    Outcome::Next(Mode::Idle)
                })
            } else if c == 'P' {
                untouched(i0, b0, i1, b1) && r == (if n > 0 {
                    Outcome::Next(Mode::Publish)
                } else {
                    Outcome::Next(Mode::Idle)
                })
            } else if c == 'r' {
                untouched(i0, b0, i1, b1) && r == (if n > 0 {
                    Outcome::Next(Mode::Remove)
                } else {
                    Outcome::Next(Mode::Idle)
                })
            } else if c == '*' {
                if n > 0 {
                    step_star(i0, b0, i1, b1, r)
                } else {
                    untouched(i0, b0, i1, b1) && r == Outcome::Next(Mode::Idle)
                }
            } else {
                untouched(i0, b0, i1, b1) && r == Outcome::Next(Mode::Idle)
            },
            _ => untouched(i0, b0, i1, b1) && r == Outcome::Next(Mode::Idle),
        }
    }
}

/// The star key in `Idle`: on the starred issue the star is cleared; on
/// another issue with a star the highlight jumps to the star; without a
/// star the highlighted issue is starred. Only the first and last
/// mutate the store.
pub open spec fn step_star(
    i0: int,
    b0: TissueBoxView,
    i1: int,
    b1: TissueBoxView,
    r: Outcome,
) -> bool {
    match b0.starred {
        Some(s) => if s == i0 {
            i1 == i0 && b1 == TissueBoxView {
                tissues: b0.tissues,
                recycle_bin: b0.recycle_bin,
                starred: None,
            } && r == Outcome::Persist(Mode::Idle)
        } else {
            i1 == s && b1 == b0 && r == Outcome::Next(Mode::Idle)
        },
        None => i1 == i0 && b1 == TissueBoxView {
            tissues: b0.tissues,
            recycle_bin: b0.recycle_bin,
            starred: Some(i0),
        } && r == Outcome::Persist(Mode::Idle),
    }
}

/// The full meaning of one keypress that is not the cancel key, by the
/// state it arrives in.
pub open spec fn step_mode(
    mode: Mode,
    key: Key,
    i0: int,
    b0: TissueBoxView,
    i1: int,
    b1: TissueBoxView,
    r: Outcome,
) -> bool {
    match mode {
        Mode::Idle => step_idle(key, i0, b0, i1, b1, r),
        Mode::Help => untouched(i0, b0, i1, b1) && r == (match key {
            Key::Char(_) => Outcome::Next(Mode::Idle),
            _ => Outcome::Next(Mode::Help),
        }),
        Mode::Add(buf) => match key {
            Key::Enter => i1 == i0 && b1 == create_spec(b0, buf@) && r == Outcome::Persist(
                Mode::Idle,
            ),
            _ => untouched(i0, b0, i1, b1) && (r matches Outcome::Next(Mode::Add(s)) && s@
                == gathered(buf@, key)),
        },
        Mode::Describe(buf) => match key {
            Key::Enter => i1 == i0 && b1 == describe_spec(b0, i0, buf@) && r == Outcome::Persist(
                Mode::Idle,
            ),
            _ => untouched(i0, b0, i1, b1) && (r matches Outcome::Next(Mode::Describe(s)) && s@
                == gathered(buf@, key)),
        },
        Mode::Tag(buf) => match key {
            Key::Enter => if b0.tissues[i0].tags.contains(buf@) {
                untouched(i0, b0, i1, b1) && r == Outcome::Next(Mode::Idle)
            } else {
                i1 == i0 && b1 == tag_spec(b0, i0, buf@) && r == Outcome::Persist(Mode::Idle)
            },
            _ => untouched(i0, b0, i1, b1) && (r matches Outcome::Next(Mode::Tag(s)) && s@
                == gathered(buf@, key)),
        },
        Mode::Edit(buf) => match key {
            Key::Enter => if b0.tissues[i0].title == buf@ {
                untouched(i0, b0, i1, b1) && r == Outcome::Next(Mode::Idle)
            } else {
                i1 == i0 && b1 == edit_spec(b0, i0, buf@) && r == Outcome::Persist(Mode::Idle)
            },
            _ => untouched(i0, b0, i1, b1) && (r matches Outcome::Next(Mode::Edit(s)) && s@
                == gathered(buf@, key)),
        },
        Mode::Copy => untouched(i0, b0, i1, b1) && (match key {
            Key::Char(c) => if c == 't' {
                r matches Outcome::CopyRequested(s) && s@ == b0.tissues[i0].title
            } else if c == 'd' {
                r matches Outcome::CopyRequested(s) && s@ == join_with(
                    b0.tissues[i0].description,
                    "\n"@,
                )
            } else if c == 'l' {
                r matches Outcome::CopyRequested(s) && s@ == render_box_spec(b0.tissues)
            } else {
                r == Outcome::Next(Mode::Copy)
            },
            _ => r == Outcome::Next(Mode::Copy),
        }),
        Mode::Publish => untouched(i0, b0, i1, b1) && (match key {
            Key::Char(c) => if c == 'y' || c == 'Y' {
                r matches Outcome::PublishRequested(x) && x as int == i0
            } else if c == 'n' || c == 'N' {
                r == Outcome::Next(Mode::Idle)
            } else {
                r == Outcome::Next(Mode::Publish)
            },
            _ => r == Outcome::Next(Mode::Publish),
        }),
        Mode::Commit => untouched(i0, b0, i1, b1) && (match key {
            Key::Char(c) => if c == 'y' || c == 'Y' {
                r matches Outcome::CommitRequested(x) && x as int == i0
            } else if c == 'n' || c == 'N' {
                r == Outcome::Next(Mode::Idle)
            } else {
                r == Outcome::Next(Mode::Commit)
            },
            _ => r == Outcome::Next(Mode::Commit),
        }),
        Mode::Remove => match key {
            Key::Char(c) => if c == 'T' {
                b1 == remove_spec(b0, i0) && i1 == clamp_index(i0, b1) && r == Outcome::Persist(
                    Mode::Idle,
                )
            } else if c == 'd' {
                untouched(i0, b0, i1, b1) && r == (if b0.tissues[i0].description.len() == 0 {
                    Outcome::Next(Mode::Idle)
                } else {
                    Outcome::Next(Mode::RemoveDescription(0))
                })
            } else if c == 't' {
                untouched(i0, b0, i1, b1) && (r matches Outcome::Next(Mode::RemoveTag(s)) && s@
                    == Seq::<char>::empty())
            } else {
                untouched(i0, b0, i1, b1) && r == Outcome::Next(Mode::Remove)
            },
            _ => untouched(i0, b0, i1, b1) && r == Outcome::Next(Mode::Remove),
        },
        Mode::RemoveDescription(di) => if is_prev_key(key) {
            untouched(i0, b0, i1, b1) && r == Outcome::Next(
                Mode::RemoveDescription(
                    if di == 0 {
                        0
                    } else {
                        (di - 1) as usize
                    },
                ),
            )
        } else if is_next_key(key) {
            untouched(i0, b0, i1, b1) && (r matches Outcome::Next(Mode::RemoveDescription(d))
                && d as int == (if di + 1 < b0.tissues[i0].description.len() {
                di + 1
            } else {
                b0.tissues[i0].description.len() - 1
            }))
        } else if key == Key::Enter {
            i1 == i0 && b1 == remove_desc_spec(b0, i0, di as int) && r == Outcome::Persist(
                Mode::Idle,
            )
        } else {
            untouched(i0, b0, i1, b1) && r == Outcome::Next(Mode::RemoveDescription(di))
        },
        Mode::RemoveTag(buf) => match key {
            Key::Enter => if b0.tissues[i0].tags.contains(buf@) {
                &&& i1 == i0
                &&& b1.tissues.len() == b0.tissues.len()
                &&& b1.recycle_bin == b0.recycle_bin
                &&& b1.starred == b0.starred
                &&& tag_removed(b0.tissues[i0], b1.tissues[i0], buf@)
                &&& forall|j: int|
                    0 <= j < b1.tissues.len() && j != i0 ==> b1.tissues[j] == b0.tissues[j]
                &&& r == Outcome::Persist(Mode::Idle)
            } else {
                untouched(i0, b0, i1, b1) && r == Outcome::Next(Mode::Idle)
            },
            _ => untouched(i0, b0, i1, b1) && (r matches Outcome::Next(Mode::RemoveTag(s)) && s@
                == gathered(buf@, key)),
        },
        Mode::Restore(ri) => if is_prev_key(key) {
            untouched(i0, b0, i1, b1) && r == Outcome::Next(
                Mode::Restore(
                    if ri == 0 {
                        0
                    } else {
                        (ri - 1) as usize
                    },
                ),
            )
        } else if is_next_key(key) {
            untouched(i0, b0, i1, b1) && (r matches Outcome::Next(Mode::Restore(x)) && x as int == (
            if ri + 1 < b0.recycle_bin.len() {
                ri + 1
            } else {
                b0.recycle_bin.len() - 1
            }))
        } else if key == Key::Enter {
            i1 == i0 && b1 == restore_spec(b0, ri as int) && r == Outcome::Persist(Mode::Idle)
        } else {
            untouched(i0, b0, i1, b1) && r == Outcome::Next(Mode::Restore(ri))
        },
    }
}

/// The full meaning of one keypress: the cancel key returns to `Idle`
/// from every state without a side effect; every other key acts by the
/// state it arrives in.
pub open spec fn step_ok(
    mode: Mode,
    key: Key,
    i0: int,
    b0: TissueBoxView,
    i1: int,
    b1: TissueBoxView,
    r: Outcome,
) -> bool {
    if key == Key::Esc {
        untouched(i0, b0, i1, b1) && r == Outcome::Next(Mode::Idle)
    } else {
        step_mode(mode, key, i0, b0, i1, b1, r)
    }
}

/// Feed one keypress to the action executor.
///
/// The returned outcome, the new highlighted index and the new store are
/// pinned down by [`step_ok`]. Beyond it: the store invariant and the
/// clamping of the highlighted index are preserved; a resulting mode is
/// legal in the resulting state; the outcome is `Persist` exactly when
/// the keypress changed the store (so every mutation is announced for
/// saving, and nothing else is); the cancel key always returns to
/// `Idle` with nothing changed; and exit only happens from `Idle`.
pub fn execute(mode: Mode, key: Key, index: &mut usize, tissue_box: &mut TissueBox) -> (r: Outcome)
    requires
        old(tissue_box)@.wf(),
        index_clamped(*old(index) as int, old(tissue_box)@),
        mode_wf(mode, *old(index) as int, old(tissue_box)@),
    ensures
        final(tissue_box)@.wf(),
        index_clamped(*final(index) as int, final(tissue_box)@),
        step_ok(
            mode,
            key,
            *old(index) as int,
            old(tissue_box)@,
            *final(index) as int,
            final(tissue_box)@,
            r,
        ),
        r matches Outcome::Next(m) ==> mode_wf(m, *final(index) as int, final(tissue_box)@),
        r matches Outcome::Persist(m) ==> mode_wf(m, *final(index) as int, final(tissue_box)@),
        r is Persist <==> final(tissue_box)@ != old(tissue_box)@,
        key == Key::Esc ==> r == Outcome::Next(Mode::Idle) && final(tissue_box)@ == old(
            tissue_box,
        )@ && *final(index) == *old(index),
        r is Exit ==> mode is Idle,
{
    if let Key::Esc = key {
        return Outcome::Next(Mode::Idle);
    }
    match mode {
        Mode::Idle => {
            if prev_key(&key) {
                if *index > 0 {
                    *index = *index - 1;
                }
                Outcome::Next(Mode::Idle)
            } else if next_key(&key) {
                let n = tissue_box.tissues.len();
                if n > 0 && *index + 1 < n {
                    *index = *index + 1;
                }
                Outcome::Next(Mode::Idle)
            } else {
                match key {
                    Key::Char(c) => {
                        if c == 'q' {
                            Outcome::Exit
                        } else if c == 'H' {
                            Outcome::Next(Mode::Help)
                        } else if c == 'a' {
                            Outcome::Next(Mode::Add(String::new()))
                        } else if c == 'R' {
                            if tissue_box.recycle_bin.len() == 0 {
                                Outcome::Next(Mode::Idle)
                            } else {
                                Outcome::Next(Mode::Restore(0))
                            }
                        } else if c == 'd' {
                            if tissue_box.tissues.len() > 0 {
                                Outcome::Next(Mode::Describe(String::new()))
                            } else {
                                Outcome::Next(Mode::Idle)
                            }
                        } else if c == 't' {
                            if tissue_box.tissues.len() > 0 {
                                Outcome::Next(Mode::Tag(String::new()))
                            } else {
                                Outcome::Next(Mode::Idle)
                            }
                        } else if c == 'e' {
                            if tissue_box.tissues.len() > 0 {
                                Outcome::Next(Mode::Edit(String::new()))
                            } else {
                                Outcome::Next(Mode::Idle)
                            }
                        } else if c == 'c' {
                            if tissue_box.tissues.len() > 0 {
                                Outcome::Next(Mode::Copy)
                            } else {
                                Outcome::Next(Mode::Idle)
                            }
                        } else if c == 'C' {
                            if tissue_box.tissues.len() > 0 {
                                Outcome::Next(Mode::Commit)
                            } else {
                                Outcome::Next(Mode::Idle)
                            }
                        } else if c == 'P' {
                            if tissue_box.tissues.len() > 0 {
                                Outcome::Next(Mode::Publish)
                            } else {
                                Outcome::Next(Mode::Idle)
                            }
                        } else if c == 'r' {
                            if tissue_box.tissues.len() > 0 {
                                Outcome::Next(Mode::Remove)
                            } else {
                                Outcome::Next(Mode::Idle)
                            }
                        } else if c == '*' {
                            if tissue_box.tissues.len() > 0 {
                                match tissue_box.starred {
                                    Some(s) => {
                                        if s == *index {
                                            tissue_box.starred = None;
                                            proof {
                                                assert(tissue_box@ =~= TissueBoxView {
                                                    tissues: old(tissue_box)@.tissues,
                                                    recycle_bin: old(tissue_box)@.recycle_bin,
                                                    starred: None,
                                                });
                                            }
                                            Outcome::Persist(Mode::Idle)
                                        } else {
                                            *index = s;
                                            Outcome::Next(Mode::Idle)
                                        }
                                    },
                                    None => {
                                        tissue_box.starred = Some(*index);
                                        proof {
                                            assert(tissue_box@ =~= TissueBoxView {
                                                tissues: old(tissue_box)@.tissues,
                                                recycle_bin: old(tissue_box)@.recycle_bin,
                                                starred: Some(*old(index) as int),
                                            });
                                        }
                                        Outcome::Persist(Mode::Idle)
                                    },
                                }
                            } else {
                                Outcome::Next(Mode::Idle)
                            }
                        } else {
                            Outcome::Next(Mode::Idle)
                        }
                    },
                    _ => Outcome::Next(Mode::Idle),
                }
            }
        },
        Mode::Help => {
            match key {
                Key::Char(_) => Outcome::Next(Mode::Idle),
                _ => Outcome::Next(Mode::Help),
            }
        },
        Mode::Add(mut buf) => {
            match key {
                Key::Enter => {
                    tissue_box.create(buf);
                    Outcome::Persist(Mode::Idle)
                },
                _ => {
                    gather(&mut buf, &key);
                    Outcome::Next(Mode::Add(buf))
                },
            }
        },
        Mode::Describe(mut buf) => {
            match key {
                Key::Enter => {
                    tissue_box.describe_at(*index, buf);
                    Outcome::Persist(Mode::Idle)
                },
                _ => {
                    gather(&mut buf, &key);
                    Outcome::Next(Mode::Describe(buf))
                },
            }
        },
        Mode::Tag(mut buf) => {
            match key {
                Key::Enter => {
                    if tissue_box.tissues[*index].has_tag(&buf) {
                        Outcome::Next(Mode::Idle)
                    } else {
                        tissue_box.tag_at(*index, buf);
                        proof {
                            let i0 = *index as int;
                            assert(tissue_box@.tissues[i0].tags.len() == old(
                                tissue_box,
                            )@.tissues[i0].tags.len() + 1);
                            assert(tissue_box@ != old(tissue_box)@);
                        }
                        Outcome::Persist(Mode::Idle)
                    }
                },
                _ => {
                    gather(&mut buf, &key);
                    Outcome::Next(Mode::Tag(buf))
                },
            }
        },
        Mode::Edit(mut buf) => {
            match key {
                Key::Enter => {
                    if tissue_box.tissues[*index].title == buf {
                        Outcome::Next(Mode::Idle)
                    } else {
                        tissue_box.set_title_at(*index, buf);
                        proof {
                            let i0 = *index as int;
                            assert(tissue_box@.tissues[i0].title != old(
                                tissue_box,
                            )@.tissues[i0].title);
                            assert(tissue_box@ != old(tissue_box)@);
                        }
                        Outcome::Persist(Mode::Idle)
                    }
                },
                _ => {
                    gather(&mut buf, &key);
                    Outcome::Next(Mode::Edit(buf))
                },
            }
        },
        Mode::Copy => {
            match key {
                Key::Char(c) => {
                    if c == 't' {
                        let t = &tissue_box.tissues[*index];
                        Outcome::CopyRequested(t.title.clone())
                    } else if c == 'd' {
                        let t = &tissue_box.tissues[*index];
                        Outcome::CopyRequested(join_strings(&t.description, "\n"))
                    } else if c == 'l' {
                        Outcome::CopyRequested(tissue_box.render())
                    } else {
                        Outcome::Next(Mode::Copy)
                    }
                },
                _ => Outcome::Next(Mode::Copy),
            }
        },
        Mode::Publish => {
            match key {
                Key::Char(c) => {
                    if c == 'y' || c == 'Y' {
                        Outcome::PublishRequested(*index)
                    } else if c == 'n' || c == 'N' {
                        Outcome::Next(Mode::Idle)
                    } else {
                        Outcome::Next(Mode::Publish)
                    }
                },
                _ => Outcome::Next(Mode::Publish),
            }
        },
        Mode::Commit => {
            match key {
                Key::Char(c) => {
                    if c == 'y' || c == 'Y' {
                        Outcome::CommitRequested(*index)
                    } else if c == 'n' || c == 'N' {
                        Outcome::Next(Mode::Idle)
                    } else {
                        Outcome::Next(Mode::Commit)
                    }
                },
                _ => Outcome::Next(Mode::Commit),
            }
        },
        Mode::Remove => {
            match key {
                Key::Char(c) => {
                    if c == 'T' {
                        let _ = tissue_box.remove(*index);
                        let n = tissue_box.tissues.len();
                        if *index >= n {
                            *index = if n == 0 {
                                0
                            } else {
                                n - 1
                            };
                        }
                        Outcome::Persist(Mode::Idle)
                    } else if c == 'd' {
                        let t = &tissue_box.tissues[*index];
                        if t.description.len() == 0 {
                            Outcome::Next(Mode::Idle)
                        } else {
                            Outcome::Next(Mode::RemoveDescription(0))
                        }
                    } else if c == 't' {
                        Outcome::Next(Mode::RemoveTag(String::new()))
                    } else {
                        Outcome::Next(Mode::Remove)
                    }
                },
                _ => Outcome::Next(Mode::Remove),
            }
        },
        Mode::RemoveDescription(di) => {
            if prev_key(&key) {
                Outcome::Next(
                    Mode::RemoveDescription(
                        if di == 0 {
                            0
                        } else {
                            di - 1
                        },
                    ),
                )
            } else if next_key(&key) {
                let t = &tissue_box.tissues[*index];
                let dl = t.description.len();
                Outcome::Next(
                    Mode::RemoveDescription(
                        if di + 1 < dl {
                            di + 1
                        } else {
                            dl - 1
                        },
                    ),
                )
            } else if let Key::Enter = key {
                tissue_box.remove_description_at(*index, di);
                Outcome::Persist(Mode::Idle)
            } else {
                Outcome::Next(Mode::RemoveDescription(di))
            }
        },
        Mode::RemoveTag(mut buf) => {
            match key {
                Key::Enter => {
                    if tissue_box.remove_tag_at(*index, &buf) {
                        proof {
                            let i0 = *index as int;
                            assert(tissue_box@.tissues[i0].tags.len() == old(
                                tissue_box,
                            )@.tissues[i0].tags.len() - 1);
                            assert(tissue_box@ != old(tissue_box)@);
                        }
                        Outcome::Persist(Mode::Idle)
                    } else {
                        proof {
                            let i0 = *index as int;
                            assert(tissue_box@.tissues[i0] =~= old(tissue_box)@.tissues[i0]);
                            assert(tissue_box@.tissues =~= old(tissue_box)@.tissues);
                            assert(tissue_box@ =~= old(tissue_box)@);
                        }
                        Outcome::Next(Mode::Idle)
                    }
                },
                _ => {
                    gather(&mut buf, &key);
                    Outcome::Next(Mode::RemoveTag(buf))
                },
            }
        },
        Mode::Restore(ri) => {
            if prev_key(&key) {
                Outcome::Next(
                    Mode::Restore(
                        if ri == 0 {
                            0
                        } else {
                            ri - 1
                        },
                    ),
                )
            } else if next_key(&key) {
                let bl = tissue_box.recycle_bin.len();
                Outcome::Next(
                    Mode::Restore(
                        if ri + 1 < bl {
                            ri + 1
                        } else {
                            bl - 1
                        },
                    ),
                )
            } else if let Key::Enter = key {
                let _ = tissue_box.restore(ri);
                Outcome::Persist(Mode::Idle)
            } else {
                Outcome::Next(Mode::Restore(ri))
            }
        },
    }
}

} // verus!
