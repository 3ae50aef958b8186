use tissuebox::cli;
use tissuebox::store::TissueBox;

fn test_box() -> TissueBox {
    let mut tissue_box = TissueBox::default();
    tissue_box.create("Foo".into());
    tissue_box.get_mut(0).unwrap().describe("Depends on Bar implementation".into());
    tissue_box.get_mut(0).unwrap().tag("bug".into());
    tissue_box.create("Bar".into());
    tissue_box.get_mut(1).unwrap().describe("Implement using abc".into());
    tissue_box.get_mut(1).unwrap().describe("Remove xyz".into());
    tissue_box.get_mut(1).unwrap().tag("good first issue".into());
    tissue_box.get_mut(1).unwrap().tag("help wanted".into());
    tissue_box
}

#[test]
fn list_all() {
    let mut tissue_box = test_box();
    let command = cli::Command::List(cli::List { index: None, which: None });
    assert!(cli::run(command, &mut tissue_box).is_ok());
}

#[test]
fn list_first() {
    let mut tissue_box = test_box();
    let command = cli::Command::List(cli::List { index: Some(0), which: None });
    assert!(cli::run(command, &mut tissue_box).is_ok());
}

#[test]
fn list_first_title() {
    let mut tissue_box = test_box();
    let command = cli::Command::List(cli::List {
        index: Some(0),
        which: Some(cli::WhichList::Title),
    });
    assert!(cli::run(command, &mut tissue_box).is_ok());
}

#[test]
fn list_first_descriptions() {
    let mut tissue_box = test_box();
    let command = cli::Command::List(cli::List {
        index: Some(0),
        which: Some(cli::WhichList::Description(cli::OptionIndex { index: None })),
    });
    assert!(cli::run(command, &mut tissue_box).is_ok());
}

#[test]
fn list_first_description() {
    let mut tissue_box = test_box();
    let command = cli::Command::List(cli::List {
        index: Some(0),
        which: Some(cli::WhichList::Description(cli::OptionIndex { index: Some(0) })),
    });
    assert!(cli::run(command, &mut tissue_box).is_ok());
}

#[test]
fn list_first_tags() {
    let mut tissue_box = test_box();
    let command = cli::Command::List(cli::List {
        index: Some(0),
        which: Some(cli::WhichList::Tags),
    });
    assert!(cli::run(command, &mut tissue_box).is_ok());
}

#[test]
fn filtered_list_without_index() {
    let mut tissue_box = test_box();
    let command = cli::Command::List(cli::List { index: None, which: Some(cli::WhichList::Title) });
    assert!(cli::run(command, &mut tissue_box).is_err());
}

#[test]
fn add() {
    const TITLE: &str = "Baz";
    let mut tissue_box = test_box();
    let command = cli::Command::Add(cli::Add { title: TITLE.into() });
    assert!(cli::run(command, &mut tissue_box).is_ok());
    assert_eq!(tissue_box.get(2).unwrap().title, TITLE);
}

#[test]
fn describe() {
    const DESC: &str = "Depends on Baz";
    let mut tissue_box = test_box();
    let command = cli::Command::Describe(cli::Describe { description: DESC.into(), index: Some(0) });
    assert!(cli::run(command, &mut tissue_box).is_ok());
    assert_eq!(tissue_box.get(0).unwrap().description.get(1).map(|x| x.as_str()), Some(DESC));
}

#[test]
fn describe_last() {
    const DESC: &str = "Depends on Foo";
    let mut tissue_box = test_box();
    let command = cli::Command::Describe(cli::Describe { description: DESC.into(), index: None });
    assert!(cli::run(command, &mut tissue_box).is_ok());
    assert_eq!(tissue_box.get(1).unwrap().description.get(2).map(|x| x.as_str()), Some(DESC));
}

#[test]
fn tag() {
    const TAG: &str = "good first issue";
    let mut tissue_box = test_box();
    let command = cli::Command::Tag(cli::Tag { tag: TAG.into(), index: Some(0) });
    assert!(cli::run(command, &mut tissue_box).is_ok());
    assert!(tissue_box.get(0).unwrap().tags.contains(&TAG.to_string()));
}

#[test]
fn tag_last() {
    const TAG: &str = "bug";
    let mut tissue_box = test_box();
    let command = cli::Command::Tag(cli::Tag { tag: TAG.into(), index: None });
    assert!(cli::run(command, &mut tissue_box).is_ok());
    assert!(tissue_box.get(1).unwrap().tags.contains(&TAG.to_string()));
}

#[test]
fn remove_tissue() {
    let mut tissue_box = test_box();
    let command = cli::Command::Remove(cli::Remove { index: 1, which: None });
    assert!(cli::run(command, &mut tissue_box).is_ok());
    assert!(tissue_box.get(1).is_none());
}

#[test]
fn remove_missing_tissue() {
    let mut tissue_box = test_box();
    let command = cli::Command::Remove(cli::Remove { index: 2, which: None });
    assert!(cli::run(command, &mut tissue_box).is_err());
}

#[test]
fn remove_tissue_description() {
    let mut tissue_box = test_box();
    let command = cli::Command::Remove(cli::Remove {
        index: 1,
        which: Some(cli::WhichRemove::Description(cli::Index { index: 1 })),
    });
    assert!(cli::run(command, &mut tissue_box).is_ok());
    assert!(tissue_box.get(1).unwrap().description.get(1).is_none());
}

#[test]
fn remove_missing_tissue_description() {
    let mut tissue_box = test_box();
    let command = cli::Command::Remove(cli::Remove {
        index: 1,
        which: Some(cli::WhichRemove::Description(cli::Index { index: 2 })),
    });
    assert!(cli::run(command, &mut tissue_box).is_err());
}

#[test]
fn remove_tissue_tag() {
    let mut tissue_box = test_box();
    let command = cli::Command::Remove(cli::Remove {
        index: 1,
        which: Some(cli::WhichRemove::Tag(cli::TagName { tag: "good first issue".into() })),
    });
    assert!(cli::run(command, &mut tissue_box).is_ok());
}

#[test]
fn remove_missing_tissue_tag() {
    let mut tissue_box = test_box();
    let command = cli::Command::Remove(cli::Remove {
        index: 1,
        which: Some(cli::WhichRemove::Tag(cli::TagName { tag: "null".into() })),
    });
    assert!(cli::run(command, &mut tissue_box).is_err());
}

#[test]
fn list_all_exact_text() {
    let mut tissue_box = TissueBox::default();
    tissue_box.create("Foo".into());
    tissue_box.get_mut(0).unwrap().describe("Depends on Bar".into());
    tissue_box.get_mut(0).unwrap().tag("bug".into());
    tissue_box.create("Bar".into());
    let command = cli::Command::List(cli::List { index: None, which: None });
    let out = cli::run(command, &mut tissue_box).unwrap();
    assert_eq!(
        out,
        cli::CliOutcome::Output("0. Foo (bug)\n  - Depends on Bar\n1. Bar\n".to_string())
    );
}

#[test]
fn list_tags_exact_text() {
    let mut tissue_box = test_box();
    let command = cli::Command::List(cli::List {
        index: Some(1),
        which: Some(cli::WhichList::Tags),
    });
    let out = cli::run(command, &mut tissue_box).unwrap();
    assert_eq!(
        out,
        cli::CliOutcome::Output("good first issue, help wanted\n".to_string())
    );
}

#[test]
fn commit_returns_request_and_errors_on_missing() {
    let mut tissue_box = test_box();
    let ok = cli::run(cli::Command::Commit(cli::Index { index: 1 }), &mut tissue_box);
    assert_eq!(ok, Ok(cli::CliOutcome::Commit(1)));
    let missing = cli::run(cli::Command::Commit(cli::Index { index: 2 }), &mut tissue_box);
    assert_eq!(missing, Err(cli::Error::TissueNotFound(2)));
    let publish = cli::run(cli::Command::Publish(cli::Index { index: 0 }), &mut tissue_box);
    assert_eq!(publish, Ok(cli::CliOutcome::Publish(0)));
}

#[test]
fn describe_missing_tissue() {
    let mut tissue_box = test_box();
    let command = cli::Command::Describe(cli::Describe { description: "x".into(), index: Some(9) });
    assert_eq!(cli::run(command, &mut tissue_box), Err(cli::Error::TissueNotFound(9)));
    let command = cli::Command::Tag(cli::Tag { tag: "x".into(), index: Some(9) });
    assert_eq!(cli::run(command, &mut tissue_box), Err(cli::Error::TissueNotFound(9)));
}

#[test]
fn commit_finished_applies_the_gate() {
    let mut tissue_box = test_box();
    // Success moves the issue to the recycle bin, as a removal would.
    assert_eq!(cli::commit_finished(&mut tissue_box, 0, Ok(())), Ok(()));
    assert_eq!(tissue_box.tissues.len(), 1);
    assert_eq!(tissue_box.recycle_bin.len(), 1);
    assert_eq!(tissue_box.recycle_bin[0].title, "Foo");
    // Failure wraps the helper's words and leaves the store alone.
    assert_eq!(
        cli::commit_finished(&mut tissue_box, 0, Err("boom".into())),
        Err(cli::Error::CommitFailed("boom".into()))
    );
    assert_eq!(tissue_box.tissues.len(), 1);
    assert_eq!(tissue_box.recycle_bin.len(), 1);
}

#[test]
fn publish_finished_applies_the_gate() {
    let mut tissue_box = test_box();
    assert_eq!(
        cli::publish_finished(&mut tissue_box, 1, Err("remote said no".into())),
        Err(cli::Error::PublishFailed("remote said no".into()))
    );
    assert_eq!(tissue_box.tissues.len(), 2);
    assert_eq!(cli::publish_finished(&mut tissue_box, 1, Ok(())), Ok(()));
    assert_eq!(tissue_box.tissues.len(), 1);
    assert_eq!(tissue_box.recycle_bin[0].title, "Bar");
}

#[test]
fn error_messages() {
    assert_eq!(cli::Error::TissueNotFound(3).message(), "no tissue with index 3");
    assert_eq!(
        cli::Error::DescriptionNotFound(12, 4).message(),
        "no description with index 4 on tissue 12"
    );
    assert_eq!(
        cli::Error::TagNotFound(0, "null".into()).message(),
        "no tag named null on tissue 0"
    );
    assert_eq!(cli::Error::CommitFailed("boom".into()).message(), "failed to commit: boom");
    assert_eq!(cli::Error::PublishFailed("nope".into()).message(), "failed to publish: nope");
    assert_eq!(
        cli::Error::InvalidListCommand.message(),
        "list command specified without index"
    );
}
