use vstd::prelude::*;
use vstd::string::StringExecFns;

use crate::render::{render_box_spec, render_tissue_spec};
use crate::store::{
    create_spec, describe_spec, remove_desc_spec, remove_spec, tag_removed, tag_spec, TissueBox,
    TissueBoxView,
};
use crate::text::{dec_str, join_strings, join_with, usize_to_string};

verus! {

/// The command-line surface: the store file and an optional one-shot
/// command.
#[derive(Debug)]
pub struct Cli {
    pub input: String,
    pub command: Option<Command>,
}

/// A one-shot command against the store.
#[derive(Debug)]
pub enum Command {
    /// Display the formatted store.
    List(List),
    /// Create a new issue.
    Add(Add),
    /// Append to an existing issue's description by index.
    Describe(Describe),
    /// Add a tag to an existing issue by index.
    Tag(Tag),
    /// Delete an existing issue by index.
    Remove(Remove),
    /// Commit an issue to version control by index.
    Commit(Index),
    /// Publish an issue to the remote tracker by index.
    Publish(Index),
}

/// A required issue index.
#[derive(Clone, Copy, Debug)]
pub struct Index {
    pub index: usize,
}

/// An optional index.
#[derive(Clone, Copy, Debug)]
pub struct OptionIndex {
    pub index: Option<usize>,
}

/// What to list.
#[derive(Debug)]
pub struct List {
    pub index: Option<usize>,
    pub which: Option<WhichList>,
}

/// Which part of an issue to list.
#[derive(Debug)]
pub enum WhichList {
    /// List the title.
    Title,
    /// List descriptions.
    Description(OptionIndex),
    /// List all tags.
    Tags,
}

/// The title of a new issue.
#[derive(Debug)]
pub struct Add {
    pub title: String,
}

/// A description line and the issue to append it to.
#[derive(Debug)]
pub struct Describe {
    pub description: String,
    pub index: Option<usize>,
}

/// A tag and the issue to add it to.
#[derive(Debug)]
pub struct Tag {
    pub tag: String,
    pub index: Option<usize>,
}

/// Which issue to delete, or which of its parts.
#[derive(Debug)]
pub struct Remove {
    pub index: usize,
    pub which: Option<WhichRemove>,
}

/// Remove a single field instead of the whole issue.
#[derive(Debug)]
pub enum WhichRemove {
    /// Remove a description line.
    Description(Index),
    /// Remove a tag.
    Tag(TagName),
}

/// A tag to remove.
#[derive(Debug)]
pub struct TagName {
    pub tag: String,
}

/// Why a one-shot command failed.
#[derive(Debug, PartialEq)]
pub enum Error {
    TissueNotFound(usize),
    DescriptionNotFound(usize, usize),
    TagNotFound(usize, String),
    CommitFailed(String),
    PublishFailed(String),
    InvalidListCommand,
}

/// The display text of an [`Error`].
pub open spec fn error_text(e: Error) -> Seq<char> {
    match e {
        Error::TissueNotFound(i) => "no tissue with index "@ + dec_str(i as nat),
        Error::DescriptionNotFound(i, di) => "no description with index "@ + dec_str(di as nat)
            + " on tissue "@ + dec_str(i as nat),
        Error::TagNotFound(i, tag) => "no tag named "@ + tag@ + " on tissue "@ + dec_str(i as nat),
        Error::CommitFailed(msg) => "failed to commit: "@ + msg@,
        Error::PublishFailed(msg) => "failed to publish: "@ + msg@,
        Error::InvalidListCommand => "list command specified without index"@,
    }
}

impl Error {
    /// The message shown for this error.
    pub fn message(&self) -> (r: String)
        ensures
            r@ == error_text(*self),
    {
        match self {
            Error::TissueNotFound(i) => {
                let mut s = String::new();
                s.append("no tissue with index ");
                let d = usize_to_string(*i);
                s.append(d.as_str());
                proof {
                    assert(s@ =~= error_text(*self));
                }
                s
            },
            Error::DescriptionNotFound(i, di) => {
                let mut s = String::new();
                s.append("no description with index ");
                let d = usize_to_string(*di);
                s.append(d.as_str());
                s.append(" on tissue ");
                let t = usize_to_string(*i);
                s.append(t.as_str());
                proof {
                    assert(s@ =~= error_text(*self));
                }
                s
            },
            Error::TagNotFound(i, tag) => {
                let mut s = String::new();
                s.append("no tag named ");
                s.append(tag.as_str());
                s.append(" on tissue ");
                let t = usize_to_string(*i);
                s.append(t.as_str());
                proof {
                    assert(s@ =~= error_text(*self));
                }
                s
            },
            Error::CommitFailed(msg) => {
                let mut s = String::new();
                s.append("failed to commit: ");
                s.append(msg.as_str());
                proof {
                    assert(s@ =~= error_text(*self));
                }
                s
            },
            Error::PublishFailed(msg) => {
                let mut s = String::new();
                s.append("failed to publish: ");
                s.append(msg.as_str());
                proof {
                    assert(s@ =~= error_text(*self));
                }
                s
            },
            Error::InvalidListCommand => {
                let mut s = String::new();
                s.append("list command specified without index");
                proof {
                    assert(s@ =~= error_text(*self));
                }
                s
            },
        }
    }
}

/// What a one-shot command asks of its caller beyond the store change.
#[derive(Debug, PartialEq)]
pub enum CliOutcome {
    /// Text to print.
    Output(String),
    /// The store changed; nothing to print.
    Done,
    /// Run the version-control commit helper for the issue at the
    /// index; on success the caller removes the issue and saves.
    Commit(usize),
    /// Run the issue-publish helper for the issue at the index; on
    /// success the caller removes the issue and saves.
    Publish(usize),
}

/// The meaning of a `List` command: the store is only read, and the
/// requested part comes back as text, or the index that misses.
pub open spec fn list_spec(l: List, b: TissueBoxView, r: Result<CliOutcome, Error>) -> bool {
    match (l.index, l.which) {
        (Option::None, Option::None) => r matches Ok(CliOutcome::Output(s)) && s@
            == render_box_spec(b.tissues),
        (Option::Some(i), Option::None) => if (i as int) < b.tissues.len() {
            r matches Ok(CliOutcome::Output(s)) && s@ == render_tissue_spec(b.tissues[i as int])
        } else {
            r matches Err(e) && e == Error::TissueNotFound(i)
        },
        (Option::Some(i), Option::Some(WhichList::Title)) => if (i as int) < b.tissues.len() {
            r matches Ok(CliOutcome::Output(s)) && s@ == b.tissues[i as int].title + "\n"@
        } else {
            r matches Err(e) && e == Error::TissueNotFound(i)
        },
        (Option::Some(i), Option::Some(WhichList::Description(oi))) => match oi.index {
            Option::Some(di) => if (i as int) >= b.tissues.len() {
                r matches Err(e) && e == Error::TissueNotFound(i)
            } else if (di as int) >= b.tissues[i as int].description.len() {
                r matches Err(e) && e == Error::DescriptionNotFound(i, di)
            } else {
                r matches Ok(CliOutcome::Output(s)) && s@ == b.tissues[i as int].description[
                    di as int
                ] + "\n"@
            },
            Option::None => if (i as int) < b.tissues.len() {
                r matches Ok(CliOutcome::Output(s)) && s@ == join_with(
                    b.tissues[i as int].description,
                    "\n"@,
                )
            } else {
                r matches Err(e) && e == Error::TissueNotFound(i)
            },
        },
        (Option::Some(i), Option::Some(WhichList::Tags)) => if (i as int) < b.tissues.len() {
            r matches Ok(CliOutcome::Output(s)) && s@ == join_with(b.tissues[i as int].tags, ", "@)
                + "\n"@
        } else {
            r matches Err(e) && e == Error::TissueNotFound(i)
        },
        (Option::None, Option::Some(_)) => r matches Err(e) && e == Error::InvalidListCommand,
    }
}

/// The commands that address the last live issue implicitly: `Describe`
/// or `Tag` without an index. They ask for one to exist; out-of-range
/// indices are impossibilities prevented structurally, never surfaced.
pub open spec fn addresses_last(cmd: Command) -> bool {
    match cmd {
        Command::Describe(d) => d.index is None,
        Command::Tag(t) => t.index is None,
        _ => false,
    }
}

/// The meaning of a `Describe` command: the line lands on the addressed
/// issue, or on the last one when no index is given (the caller
/// guarantees one exists); a missing explicit index is reported.
pub open spec fn describe_cmd_spec(
    d: Describe,
    b0: TissueBoxView,
    b1: TissueBoxView,
    r: Result<CliOutcome, Error>,
) -> bool {
    let n = b0.tissues.len() as int;
    match d.index {
        Option::Some(i) => if (i as int) < n {
            b1 == describe_spec(b0, i as int, d.description@) && r matches Ok(CliOutcome::Done)
        } else {
            b1 == b0 && (r matches Err(e) && e == Error::TissueNotFound(i))
        },
        Option::None => b1 == describe_spec(b0, n - 1, d.description@) && r matches Ok(
            CliOutcome::Done,
        ),
    }
}

/// The meaning of a `Tag` command, addressed like `Describe`.
pub open spec fn tag_cmd_spec(
    t: Tag,
    b0: TissueBoxView,
    b1: TissueBoxView,
    r: Result<CliOutcome, Error>,
) -> bool {
    let n = b0.tissues.len() as int;
    match t.index {
        Option::Some(i) => if (i as int) < n {
            b1 == tag_spec(b0, i as int, t.tag@) && r matches Ok(CliOutcome::Done)
        } else {
            b1 == b0 && (r matches Err(e) && e == Error::TissueNotFound(i))
        },
        Option::None => b1 == tag_spec(b0, n - 1, t.tag@) && r matches Ok(CliOutcome::Done),
    }
}

/// The meaning of a `Remove` command: the whole issue moves to the
/// recycle bin, or one description line or one tag is taken out; what
/// is missing is reported exactly.
pub open spec fn remove_cmd_spec(
    rm: Remove,
    b0: TissueBoxView,
    b1: TissueBoxView,
    r: Result<CliOutcome, Error>,
) -> bool {
    let i = rm.index as int;
    match rm.which {
        Option::None => if i < b0.tissues.len() {
            b1 == remove_spec(b0, i) && r matches Ok(CliOutcome::Done)
        } else {
            b1 == b0 && (r matches Err(e) && e == Error::TissueNotFound(rm.index))
        },
        Option::Some(WhichRemove::Description(ix)) => if i >= b0.tissues.len() {
            b1 == b0 && (r matches Err(e) && e == Error::TissueNotFound(rm.index))
        } else if (ix.index as int) >= b0.tissues[i].description.len() {
            b1 == b0 && (r matches Err(e) && e == Error::DescriptionNotFound(rm.index, ix.index))
        } else {
            b1 == remove_desc_spec(b0, i, ix.index as int) && r matches Ok(CliOutcome::Done)
        },
        Option::Some(WhichRemove::Tag(tn)) => if i >= b0.tissues.len() {
            b1 == b0 && (r matches Err(e) && e == Error::TissueNotFound(rm.index))
        } else if b0.tissues[i].tags.contains(tn.tag@) {
            &&& b1.tissues.len() == b0.tissues.len()
            &&& b1.recycle_bin == b0.recycle_bin
            &&& b1.starred == b0.starred
            &&& tag_removed(b0.tissues[i], b1.tissues[i], tn.tag@)
            &&& forall|j: int| 0 <= j < b1.tissues.len() && j != i ==> b1.tissues[j] == b0.tissues[j]
            &&& r matches Ok(CliOutcome::Done)
        } else {
            b1 == b0 && (r matches Err(e) && e matches Error::TagNotFound(k, s) && k == rm.index
                && s@ == tn.tag@)
        },
    }
}

/// The full meaning of one one-shot command.
pub open spec fn cli_spec(
    cmd: Command,
    b0: TissueBoxView,
    b1: TissueBoxView,
    r: Result<CliOutcome, Error>,
) -> bool {
    match cmd {
        Command::List(l) => b1 == b0 && list_spec(l, b0, r),
        Command::Add(a) => b1 == create_spec(b0, a.title@) && r matches Ok(CliOutcome::Done),
        Command::Describe(d) => describe_cmd_spec(d, b0, b1, r),
        Command::Tag(t) => tag_cmd_spec(t, b0, b1, r),
        Command::Remove(rm) => remove_cmd_spec(rm, b0, b1, r),
        Command::Commit(ix) => b1 == b0 && (if (ix.index as int) < b0.tissues.len() {
            r matches Ok(o) && o == CliOutcome::Commit(ix.index)
        } else {
            r matches Err(e) && e == Error::TissueNotFound(ix.index)
        }),
        Command::Publish(ix) => b1 == b0 && (if (ix.index as int) < b0.tissues.len() {
            r matches Ok(o) && o == CliOutcome::Publish(ix.index)
        } else {
            r matches Err(e) && e == Error::TissueNotFound(ix.index)
        }),
    }
}

/// Apply one one-shot command to the store.
///
/// The result and the store change are pinned down by [`cli_spec`]; a
/// command that fails leaves the store untouched. A `Describe` or `Tag`
/// without an index addresses the last live issue, so the caller must
/// hand in a store that has one.
pub fn run(command: Command, tissue_box: &mut TissueBox) -> (r: Result<CliOutcome, Error>)
    requires
        old(tissue_box)@.wf(),
        addresses_last(command) ==> old(tissue_box)@.tissues.len() > 0,
    ensures
        final(tissue_box)@.wf(),
        cli_spec(command, old(tissue_box)@, final(tissue_box)@, r),
        r matches Err(_) ==> final(tissue_box)@ == old(tissue_box)@,
{
    match command {
        Command::List(l) => {
            let r = list_run(&l, tissue_box);
            r
        },
        Command::Add(Add { title }) => {
            tissue_box.create(title);
            Ok(CliOutcome::Done)
        },
        Command::Describe(Describe { description, index }) => {
            let n = tissue_box.tissues.len();
            let i = match index {
                Some(i) => i,
                None => n - 1,
            };
            if i < n {
                tissue_box.describe_at(i, description);
                Ok(CliOutcome::Done)
            } else {
                Err(Error::TissueNotFound(i))
            }
        },
        Command::Tag(Tag { tag, index }) => {
            let n = tissue_box.tissues.len();
            let i = match index {
                Some(i) => i,
                None => n - 1,
            };
            if i < n {
                tissue_box.tag_at(i, tag);
                Ok(CliOutcome::Done)
            } else {
                Err(Error::TissueNotFound(i))
            }
        },
        Command::Remove(Remove { index, which: None }) => {
            match tissue_box.remove(index) {
                Some(_) => Ok(CliOutcome::Done),
                None => Err(Error::TissueNotFound(index)),
            }
        },
        Command::Remove(
            Remove { index, which: Some(WhichRemove::Description(Index { index: di })) },
        ) => {
            if index >= tissue_box.tissues.len() {
                return Err(Error::TissueNotFound(index));
            }
            let t = &tissue_box.tissues[index];
            if di >= t.description.len() {
                return Err(Error::DescriptionNotFound(index, di));
            }
            tissue_box.remove_description_at(index, di);
            Ok(CliOutcome::Done)
        },
        Command::Remove(Remove { index, which: Some(WhichRemove::Tag(TagName { tag })) }) => {
            if index >= tissue_box.tissues.len() {
                return Err(Error::TissueNotFound(index));
            }
            if tissue_box.remove_tag_at(index, &tag) {
                Ok(CliOutcome::Done)
            } else {
                proof {
                    assert(tissue_box@.tissues[index as int] =~= old(
                        tissue_box,
                    )@.tissues[index as int]);
                    assert(tissue_box@.tissues =~= old(tissue_box)@.tissues);
                    assert(tissue_box@ =~= old(tissue_box)@);
                }
                Err(Error::TagNotFound(index, tag))
            }
        },
        Command::Commit(Index { index }) => {
            if index < tissue_box.tissues.len() {
                Ok(CliOutcome::Commit(index))
            } else {
                Err(Error::TissueNotFound(index))
            }
        },
        Command::Publish(Index { index }) => {
            if index < tissue_box.tissues.len() {
                Ok(CliOutcome::Publish(index))
            } else {
                Err(Error::TissueNotFound(index))
            }
        },
    }
}

/// Finish a one-shot `Commit` after its helper ran: on success the
/// issue moves to the recycle bin per normal remove semantics; on
/// failure the helper's words come back as `CommitFailed` and the
/// store is untouched.
pub fn commit_finished(
    tissue_box: &mut TissueBox,
    index: usize,
    result: Result<(), String>,
) -> (r: Result<(), Error>)
    requires
        old(tissue_box)@.wf(),
        index < old(tissue_box)@.tissues.len(),
    ensures
        final(tissue_box)@.wf(),
        match result {
            Ok(_) => final(tissue_box)@ == remove_spec(old(tissue_box)@, index as int) && r is Ok,
            Err(e) => final(tissue_box)@ == old(tissue_box)@ && (r matches Err(err) && err
                matches Error::CommitFailed(m) && m@ == e@),
        },
{
    match result {
        Ok(_) => {
            let _ = tissue_box.remove(index);
            Ok(())
        },
        Err(e) => Err(Error::CommitFailed(e)),
    }
}

/// Finish a one-shot `Publish` after its helper ran: on success the
/// issue moves to the recycle bin per normal remove semantics; on
/// failure the helper's words come back as `PublishFailed` and the
/// store is untouched.
pub fn publish_finished(
    tissue_box: &mut TissueBox,
    index: usize,
    result: Result<(), String>,
) -> (r: Result<(), Error>)
    requires
        old(tissue_box)@.wf(),
        index < old(tissue_box)@.tissues.len(),
    ensures
        final(tissue_box)@.wf(),
        match result {
            Ok(_) => final(tissue_box)@ == remove_spec(old(tissue_box)@, index as int) && r is Ok,
            Err(e) => final(tissue_box)@ == old(tissue_box)@ && (r matches Err(err) && err
                matches Error::PublishFailed(m) && m@ == e@),
        },
{
    match result {
        Ok(_) => {
            let _ = tissue_box.remove(index);
            Ok(())
        },
        Err(e) => Err(Error::PublishFailed(e)),
    }
}

/// Serve one `List` command from the store.
fn list_run(l: &List, tissue_box: &TissueBox) -> (r: Result<CliOutcome, Error>)
    ensures
        list_spec(*l, tissue_box@, r),
{
    match (l.index, &l.which) {
        (None, None) => Ok(CliOutcome::Output(tissue_box.render())),
        (Some(index), None) => {
            match tissue_box.get(index) {
                Some(t) => Ok(CliOutcome::Output(t.render())),
                None => Err(Error::TissueNotFound(index)),
            }
        },
        (Some(index), Some(WhichList::Title)) => {
            match tissue_box.get(index) {
                Some(t) => {
                    let mut s = t.title.clone();
                    s.append("\n");
                    Ok(CliOutcome::Output(s))
                },
                None => Err(Error::TissueNotFound(index)),
            }
        },
        (Some(index), Some(WhichList::Description(OptionIndex { index: None }))) => {
            match tissue_box.get(index) {
                Some(t) => Ok(CliOutcome::Output(join_strings(&t.description, "\n"))),
                None => Err(Error::TissueNotFound(index)),
            }
        },
        (Some(index), Some(WhichList::Description(OptionIndex { index: Some(di) }))) => {
            match tissue_box.get(index) {
                Some(t) => {
                    if *di < t.description.len() {
                        let mut s = t.description[*di].clone();
                        s.append("\n");
                        Ok(CliOutcome::Output(s))
                    } else {
                        Err(Error::DescriptionNotFound(index, *di))
                    }
                },
                None => Err(Error::TissueNotFound(index)),
            }
        },
        (Some(index), Some(WhichList::Tags)) => {
            match tissue_box.get(index) {
                Some(t) => {
                    let mut s = join_strings(&t.tags, ", ");
                    s.append("\n");
                    Ok(CliOutcome::Output(s))
                },
                None => Err(Error::TissueNotFound(index)),
            }
        },
        (None, Some(_)) => Err(Error::InvalidListCommand),
    }
}

} // verus!
