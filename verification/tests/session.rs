use tissuebox::engine::{Key, Mode};
use tissuebox::session::{bootstrap_prompt, Session, SessionAction};
use tissuebox::store::TissueBox;

fn two_items() -> TissueBox {
    let mut tissue_box = TissueBox::default();
    tissue_box.create("Foo".into());
    tissue_box.create("Bar".into());
    tissue_box
}

#[test]
fn mutation_requests_save_before_render() {
    // Every keypress that mutates the store hands back `Save`, and the
    // flag stays up until the save is reported, so no render sees an
    // unsaved mutation.
    let mut session = Session::new(two_items(), true);
    let act = session.handle_key(Key::Char('a'));
    assert_eq!(act, SessionAction::Continue);
    assert!(!session.needs_save);
    for c in "Baz".chars() {
        let act = session.handle_key(Key::Char(c));
        assert_eq!(act, SessionAction::Continue);
    }
    let act = session.handle_key(Key::Enter);
    assert_eq!(act, SessionAction::Save);
    assert!(session.needs_save);
    session.save_finished(None);
    assert!(!session.needs_save);
    assert_eq!(session.last_error, None);
    assert_eq!(session.tissue_box.tissues.len(), 3);
}

#[test]
fn save_failure_is_shown_without_corrupting_the_store() {
    let mut session = Session::new(two_items(), true);
    let _ = session.handle_key(Key::Char('r'));
    let act = session.handle_key(Key::Char('T'));
    assert_eq!(act, SessionAction::Save);
    let expected = {
        let mut b = two_items();
        let _ = b.remove(0);
        b
    };
    assert_eq!(session.tissue_box, expected);
    session.save_finished(Some("disk full".to_string()));
    assert_eq!(session.last_error, Some("disk full".to_string()));
    assert!(!session.needs_save);
    // The in-memory store is exactly what it was before the failed save.
    assert_eq!(session.tissue_box, expected);
    assert_eq!(session.tissue_box.tissues.len(), 1);
    assert_eq!(session.tissue_box.recycle_bin.len(), 1);
}

#[test]
fn copy_without_clipboard_helper_fails_fixed_reason() {
    // Trigger a clipboard copy with payload "Foo" when no clipboard
    // helper is configured: the fixed error is shown and the store is
    // untouched.
    let mut session = Session::new(two_items(), false);
    let act = session.handle_key(Key::Char('c'));
    assert_eq!(act, SessionAction::Continue);
    assert_eq!(session.mode, Mode::Copy);
    let act = session.handle_key(Key::Char('t'));
    assert_eq!(act, SessionAction::Continue);
    assert_eq!(session.mode, Mode::Idle);
    assert_eq!(session.last_error, Some("clipboard unavailable".to_string()));
    assert_eq!(session.tissue_box, two_items());
}

#[test]
fn copy_with_clipboard_helper_spawns() {
    let mut session = Session::new(two_items(), true);
    let _ = session.handle_key(Key::Char('c'));
    let act = session.handle_key(Key::Char('t'));
    assert_eq!(act, SessionAction::SpawnClipboard("Foo".to_string()));
    assert_eq!(session.mode, Mode::Idle);
    assert_eq!(session.last_error, None);
    // A failed spawn is reported with the same fixed reason.
    session.clipboard_finished(false);
    assert_eq!(session.last_error, Some("clipboard unavailable".to_string()));
    session.clipboard_finished(true);
    assert_eq!(session.last_error, Some("clipboard unavailable".to_string()));
}

#[test]
fn commit_gate_success_removes_and_saves() {
    let mut session = Session::new(two_items(), true);
    let _ = session.handle_key(Key::Char('C'));
    assert_eq!(session.mode, Mode::Commit);
    let act = session.handle_key(Key::Char('y'));
    assert_eq!(act, SessionAction::RunCommit(0));
    let act = session.gate_finished(0, Ok(()));
    assert_eq!(act, SessionAction::Save);
    assert_eq!(session.mode, Mode::Idle);
    assert_eq!(session.tissue_box.tissues.len(), 1);
    assert_eq!(session.tissue_box.recycle_bin.len(), 1);
    assert_eq!(session.tissue_box.recycle_bin[0].title, "Foo");
    session.save_finished(None);
}

#[test]
fn publish_gate_failure_shows_error_and_keeps_store() {
    let mut session = Session::new(two_items(), true);
    let _ = session.handle_key(Key::Char('P'));
    let act = session.handle_key(Key::Char('Y'));
    assert_eq!(act, SessionAction::RunPublish(0));
    let act = session.gate_finished(0, Err("remote said no".to_string()));
    assert_eq!(act, SessionAction::Continue);
    assert_eq!(session.mode, Mode::Idle);
    assert_eq!(session.last_error, Some("remote said no".to_string()));
    assert_eq!(session.tissue_box, two_items());
}

#[test]
fn unchanged_store_asks_for_no_save() {
    // A keypress whose mutation came to nothing (a label the issue
    // already has) must not request a save.
    let mut session = Session::new(two_items(), true);
    let mut tagged = two_items();
    tagged.get_mut(0).unwrap().tag("bug".into());
    session.tissue_box = tagged;
    let _ = session.handle_key(Key::Char('t'));
    for c in "bug".chars() {
        let _ = session.handle_key(Key::Char(c));
    }
    let act = session.handle_key(Key::Enter);
    assert_eq!(act, SessionAction::Continue);
    assert!(!session.needs_save);
    assert_eq!(session.mode, Mode::Idle);
}

#[test]
fn cancel_key_leaves_store_alone() {
    let mut session = Session::new(two_items(), true);
    let _ = session.handle_key(Key::Char('e'));
    let _ = session.handle_key(Key::Char('x'));
    let act = session.handle_key(Key::Esc);
    assert_eq!(act, SessionAction::Continue);
    assert_eq!(session.mode, Mode::Idle);
    assert_eq!(session.tissue_box, two_items());
}

#[test]
fn exit_comes_only_from_idle() {
    let mut session = Session::new(two_items(), true);
    let act = session.handle_key(Key::Char('q'));
    assert_eq!(act, SessionAction::Exit);
}

#[test]
fn bootstrap_prompt_is_a_binary_gate() {
    assert_eq!(bootstrap_prompt(Key::Char('y')), Some(true));
    assert_eq!(bootstrap_prompt(Key::Char('Y')), Some(true));
    assert_eq!(bootstrap_prompt(Key::Char('n')), Some(false));
    assert_eq!(bootstrap_prompt(Key::Char('N')), Some(false));
    assert_eq!(bootstrap_prompt(Key::Char('x')), None);
    assert_eq!(bootstrap_prompt(Key::Enter), None);
}
