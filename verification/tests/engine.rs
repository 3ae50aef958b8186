use tissuebox::engine::{execute, Key, Mode, Outcome};
use tissuebox::store::TissueBox;

fn two_items() -> TissueBox {
    let mut tissue_box = TissueBox::default();
    tissue_box.create("Foo".into());
    tissue_box.get_mut(0).unwrap().tag("bug".into());
    tissue_box.create("Bar".into());
    tissue_box
}

fn type_text(mut mode: Mode, text: &str, index: &mut usize, tissue_box: &mut TissueBox) -> Mode {
    for c in text.chars() {
        match execute(mode, Key::Char(c), index, tissue_box) {
            Outcome::Next(m) => mode = m,
            other => panic!("typing produced {:?}", other),
        }
    }
    mode
}

#[test]
fn describe_scenario() {
    // In `Idle`, press the describe key, type "Depends on X", press
    // end-of-line: the outcome is `Persist(Idle)` and the highlighted
    // issue's description gained that entry at its tail.
    let mut tissue_box = two_items();
    let mut index = 0;
    let mode = match execute(Mode::Idle, Key::Char('d'), &mut index, &mut tissue_box) {
        Outcome::Next(m) => m,
        other => panic!("describe key produced {:?}", other),
    };
    assert_eq!(mode, Mode::Describe(String::new()));
    let mode = type_text(mode, "Depends on X", &mut index, &mut tissue_box);
    let out = execute(mode, Key::Enter, &mut index, &mut tissue_box);
    assert_eq!(out, Outcome::Persist(Mode::Idle));
    assert_eq!(
        tissue_box.tissues[0].description.last().map(|s| s.as_str()),
        Some("Depends on X")
    );
}

#[test]
fn cancel_returns_to_idle_without_changes() {
    // The cancel key from every non-`Idle` mode returns to `Idle` with
    // the record store untouched.
    let modes = vec![
        Mode::Help,
        Mode::Add("half typed".into()),
        Mode::Describe("x".into()),
        Mode::Tag("x".into()),
        Mode::Edit("x".into()),
        Mode::Copy,
        Mode::Publish,
        Mode::Commit,
        Mode::Remove,
        Mode::RemoveDescription(0),
        Mode::RemoveTag("bug".into()),
        Mode::Restore(0),
    ];
    for mode in modes {
        let make = || {
            let mut b = two_items();
            b.get_mut(0).unwrap().describe("line".into());
            let _ = b.remove(1);
            b
        };
        let mut tissue_box = make();
        let before = make();
        let mut index = 0;
        let out = execute(mode, Key::Esc, &mut index, &mut tissue_box);
        assert_eq!(out, Outcome::Next(Mode::Idle));
        assert_eq!(tissue_box, before);
        assert_eq!(index, 0);
    }
}

#[test]
fn highlight_stays_in_bounds() {
    // Directional keys saturate at 0 and clamp at the top, whatever the
    // sequence of keys.
    let mut tissue_box = two_items();
    let mut index = 0;
    for _ in 0..5 {
        let out = execute(Mode::Idle, Key::Down, &mut index, &mut tissue_box);
        assert_eq!(out, Outcome::Next(Mode::Idle));
        assert!(index < tissue_box.tissues.len());
    }
    assert_eq!(index, 1);
    for _ in 0..5 {
        let out = execute(Mode::Idle, Key::Up, &mut index, &mut tissue_box);
        assert_eq!(out, Outcome::Next(Mode::Idle));
    }
    assert_eq!(index, 0);
    // On an empty store the highlight rests at 0.
    let mut empty = TissueBox::default();
    let mut index = 0;
    let _ = execute(Mode::Idle, Key::Down, &mut index, &mut empty);
    assert_eq!(index, 0);
}

#[test]
fn removing_last_item_clamps_highlight() {
    let mut tissue_box = two_items();
    let mut index = 1;
    let out = execute(Mode::Remove, Key::Char('T'), &mut index, &mut tissue_box);
    assert_eq!(out, Outcome::Persist(Mode::Idle));
    assert_eq!(tissue_box.tissues.len(), 1);
    assert_eq!(index, 0);
}

#[test]
fn backspace_edits_the_buffer() {
    let mut tissue_box = two_items();
    let mut index = 0;
    let mode = type_text(Mode::Add(String::new()), "ab", &mut index, &mut tissue_box);
    let mode = match execute(mode, Key::Backspace, &mut index, &mut tissue_box) {
        Outcome::Next(m) => m,
        other => panic!("backspace produced {:?}", other),
    };
    assert_eq!(mode, Mode::Add("a".to_string()));
    let out = execute(mode, Key::Enter, &mut index, &mut tissue_box);
    assert_eq!(out, Outcome::Persist(Mode::Idle));
    assert_eq!(tissue_box.tissues[2].title, "a");
}

#[test]
fn star_toggles_and_jumps() {
    let mut tissue_box = two_items();
    let mut index = 0;
    // Star the first issue.
    let out = execute(Mode::Idle, Key::Char('*'), &mut index, &mut tissue_box);
    assert_eq!(out, Outcome::Persist(Mode::Idle));
    assert_eq!(tissue_box.starred, Some(0));
    // From the second issue the star key jumps back without persisting.
    index = 1;
    let out = execute(Mode::Idle, Key::Char('*'), &mut index, &mut tissue_box);
    assert_eq!(out, Outcome::Next(Mode::Idle));
    assert_eq!(index, 0);
    assert_eq!(tissue_box.starred, Some(0));
    // On the starred issue the star key clears the star.
    let out = execute(Mode::Idle, Key::Char('*'), &mut index, &mut tissue_box);
    assert_eq!(out, Outcome::Persist(Mode::Idle));
    assert_eq!(tissue_box.starred, None);
}

#[test]
fn copy_requests_text() {
    let mut tissue_box = two_items();
    tissue_box.get_mut(0).unwrap().describe("one".into());
    tissue_box.get_mut(0).unwrap().describe("two".into());
    let mut index = 0;
    let out = execute(Mode::Copy, Key::Char('t'), &mut index, &mut tissue_box);
    assert_eq!(out, Outcome::CopyRequested("Foo".to_string()));
    let out = execute(Mode::Copy, Key::Char('d'), &mut index, &mut tissue_box);
    assert_eq!(out, Outcome::CopyRequested("one\ntwo".to_string()));
    let out = execute(Mode::Copy, Key::Char('l'), &mut index, &mut tissue_box);
    assert_eq!(
        out,
        Outcome::CopyRequested("0. Foo (bug)\n  - one\n  - two\n1. Bar\n".to_string())
    );
}

#[test]
fn gates_request_helpers() {
    let mut tissue_box = two_items();
    let mut index = 1;
    let out = execute(Mode::Commit, Key::Char('y'), &mut index, &mut tissue_box);
    assert_eq!(out, Outcome::CommitRequested(1));
    let out = execute(Mode::Commit, Key::Char('n'), &mut index, &mut tissue_box);
    assert_eq!(out, Outcome::Next(Mode::Idle));
    let out = execute(Mode::Publish, Key::Char('Y'), &mut index, &mut tissue_box);
    assert_eq!(out, Outcome::PublishRequested(1));
    assert_eq!(tissue_box, two_items());
}

#[test]
fn exit_only_from_idle() {
    let mut tissue_box = two_items();
    let mut index = 0;
    let out = execute(Mode::Idle, Key::Char('q'), &mut index, &mut tissue_box);
    assert_eq!(out, Outcome::Exit);
    // In a text mode 'q' is just a character.
    let out = execute(Mode::Add(String::new()), Key::Char('q'), &mut index, &mut tissue_box);
    assert_eq!(out, Outcome::Next(Mode::Add("q".to_string())));
}

#[test]
fn restore_selector_walks_and_commits() {
    let mut tissue_box = two_items();
    let _ = tissue_box.remove(0);
    let _ = tissue_box.remove(0);
    let mut index = 0;
    // Open the restore selector.
    let out = execute(Mode::Idle, Key::Char('R'), &mut index, &mut tissue_box);
    assert_eq!(out, Outcome::Next(Mode::Restore(0)));
    // Walk down twice: the selector clamps at the last bin entry.
    let out = execute(Mode::Restore(0), Key::Down, &mut index, &mut tissue_box);
    assert_eq!(out, Outcome::Next(Mode::Restore(1)));
    let out = execute(Mode::Restore(1), Key::Down, &mut index, &mut tissue_box);
    assert_eq!(out, Outcome::Next(Mode::Restore(1)));
    // Commit the restore.
    let out = execute(Mode::Restore(1), Key::Enter, &mut index, &mut tissue_box);
    assert_eq!(out, Outcome::Persist(Mode::Idle));
    assert_eq!(tissue_box.tissues.len(), 1);
    assert_eq!(tissue_box.tissues[0].title, "Bar");
    assert_eq!(tissue_box.recycle_bin.len(), 1);
}

#[test]
fn remove_description_selector() {
    let mut tissue_box = two_items();
    tissue_box.get_mut(0).unwrap().describe("one".into());
    tissue_box.get_mut(0).unwrap().describe("two".into());
    let mut index = 0;
    let out = execute(Mode::Remove, Key::Char('d'), &mut index, &mut tissue_box);
    assert_eq!(out, Outcome::Next(Mode::RemoveDescription(0)));
    let out = execute(Mode::RemoveDescription(0), Key::Down, &mut index, &mut tissue_box);
    assert_eq!(out, Outcome::Next(Mode::RemoveDescription(1)));
    let out = execute(Mode::RemoveDescription(1), Key::Enter, &mut index, &mut tissue_box);
    assert_eq!(out, Outcome::Persist(Mode::Idle));
    assert_eq!(tissue_box.tissues[0].description, vec!["one".to_string()]);
    // Without descriptions the selector does not open.
    let out = execute(Mode::Remove, Key::Char('d'), &mut index, &mut tissue_box);
    assert_eq!(out, Outcome::Next(Mode::RemoveDescription(0)));
    let out = execute(Mode::RemoveDescription(0), Key::Enter, &mut index, &mut tissue_box);
    assert_eq!(out, Outcome::Persist(Mode::Idle));
    let out = execute(Mode::Remove, Key::Char('d'), &mut index, &mut tissue_box);
    assert_eq!(out, Outcome::Next(Mode::Idle));
}

#[test]
fn remove_tag_by_name() {
    let mut tissue_box = two_items();
    let mut index = 0;
    let out = execute(Mode::Remove, Key::Char('t'), &mut index, &mut tissue_box);
    assert_eq!(out, Outcome::Next(Mode::RemoveTag(String::new())));
    let mode = type_text(Mode::RemoveTag(String::new()), "bug", &mut index, &mut tissue_box);
    let out = execute(mode, Key::Enter, &mut index, &mut tissue_box);
    assert_eq!(out, Outcome::Persist(Mode::Idle));
    assert!(tissue_box.tissues[0].tags.is_empty());
}

#[test]
fn duplicate_tag_does_not_persist() {
    // Committing a label the issue already has mutates nothing, so the
    // transition must not persist.
    let mut tissue_box = two_items();
    let mut index = 0;
    let mode = type_text(Mode::Tag(String::new()), "bug", &mut index, &mut tissue_box);
    let out = execute(mode, Key::Enter, &mut index, &mut tissue_box);
    assert_eq!(out, Outcome::Next(Mode::Idle));
    assert_eq!(tissue_box, two_items());
}

#[test]
fn absent_tag_removal_does_not_persist() {
    let mut tissue_box = two_items();
    let mut index = 0;
    let mode = type_text(Mode::RemoveTag(String::new()), "null", &mut index, &mut tissue_box);
    let out = execute(mode, Key::Enter, &mut index, &mut tissue_box);
    assert_eq!(out, Outcome::Next(Mode::Idle));
    assert_eq!(tissue_box, two_items());
}

#[test]
fn retitling_to_the_same_title_does_not_persist() {
    let mut tissue_box = two_items();
    let mut index = 0;
    let mode = type_text(Mode::Edit(String::new()), "Foo", &mut index, &mut tissue_box);
    let out = execute(mode, Key::Enter, &mut index, &mut tissue_box);
    assert_eq!(out, Outcome::Next(Mode::Idle));
    assert_eq!(tissue_box, two_items());
    // A different title is a real mutation and persists.
    let mode = type_text(Mode::Edit(String::new()), "Foo2", &mut index, &mut tissue_box);
    let out = execute(mode, Key::Enter, &mut index, &mut tissue_box);
    assert_eq!(out, Outcome::Persist(Mode::Idle));
    assert_eq!(tissue_box.tissues[0].title, "Foo2");
}

#[test]
fn help_dismisses_on_any_character() {
    let mut tissue_box = two_items();
    let mut index = 0;
    let out = execute(Mode::Idle, Key::Char('H'), &mut index, &mut tissue_box);
    assert_eq!(out, Outcome::Next(Mode::Help));
    let out = execute(Mode::Help, Key::Up, &mut index, &mut tissue_box);
    assert_eq!(out, Outcome::Next(Mode::Help));
    let out = execute(Mode::Help, Key::Char('x'), &mut index, &mut tissue_box);
    assert_eq!(out, Outcome::Next(Mode::Idle));
}
