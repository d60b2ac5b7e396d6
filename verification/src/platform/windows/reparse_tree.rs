//! Looking through a saved account for links and other redirections before it is removed.

use vstd::prelude::*;

use crate::error::AppError;
use crate::error::ErrorView;
use crate::platform::windows::paths;
use crate::platform::windows::paths::FileFacts;
use crate::platform::windows::snapshot_store;
use crate::step;
use crate::step::Step;
use crate::step::StepView;
use crate::text;
use crate::tree_walk;
use crate::tree_walk::DirectoryListing;
use crate::tree_walk::OpenDirectories;
use crate::tree_walk::Visit;

verus! {

/// Looking through a directory. Each state names the work that is to be done; `rest` is
/// what is to be looked at afterwards.
#[derive(Debug)]
pub enum RejectTree {
    /// The way to the directory cannot hold a redirection.
    Checking { path: String, rest: OpenDirectories },
    /// The entries of the directory are to be read.
    Listing { path: String, rest: OpenDirectories },
    /// What is this entry?
    Looking { path: String, rest: OpenDirectories },
}

/// What came of the work that a [`RejectTree`] names.
#[derive(Debug)]
pub enum TreeReply {
    /// Whether the way to the directory is free of redirections.
    Checked(Result<(), AppError>),
    /// The entries of the directory.
    Listed(Result<DirectoryListing, String>),
    /// What was found of the entry.
    Entry(Result<FileFacts, String>),
}

/// The step to what is to be looked at next.
pub open spec fn continued(open: OpenDirectories) -> StepView<RejectTree, ()> {
    match tree_walk::upcoming(open) {
        Visit::Entry { path, rest } => step::going(RejectTree::Looking { path, rest }),
        Visit::Unreadable(error) => step::failing(
            ErrorView::Snapshot("无法读取账号快照项："@ + error@),
        ),
        Visit::Complete => step::ending(()),
    }
}

/// Goes on to what is to be looked at next.
fn go_on(open: OpenDirectories) -> (step: Step<RejectTree, ()>)
    ensures
        step@ == continued(open),
{
    match tree_walk::next_entry(open) {
        Visit::Entry { path, rest } => step::go(RejectTree::Looking { path, rest }),
        Visit::Unreadable(error) => step::fail(
            AppError::Snapshot(text::joined2("无法读取账号快照项：", error.as_str())),
        ),
        Visit::Complete => step::end(()),
    }
}

impl RejectTree {
    /// What is to be looked at after the work that is named.
    pub open spec fn rest(self) -> OpenDirectories {
        match self {
            RejectTree::Checking { rest, .. } => rest,
            RejectTree::Listing { rest, .. } => rest,
            RejectTree::Looking { rest, .. } => rest,
        }
    }

    /// What follows on the answer to the work that is named.
    pub open spec fn next(self, reply: TreeReply) -> StepView<RejectTree, ()> {
        match (self, reply) {
            (RejectTree::Checking { path, rest }, TreeReply::Checked(checked)) => match checked {
                Err(error) => step::failing(error@),
                Ok(_) => step::going(RejectTree::Listing { path, rest }),
            },
            (RejectTree::Listing { path, rest }, TreeReply::Listed(listed)) => match listed {
                Err(error) => step::failing(
                    ErrorView::Snapshot("无法读取账号快照目录："@ + error@),
                ),
                Ok(listing) => continued(tree_walk::entered(listing, rest)),
            },
            (RejectTree::Looking { path, rest }, TreeReply::Entry(entry)) =>
                match snapshot_store::tree_check(entry) {
                Err(error) => step::failing(error),
                Ok(true) => step::going(RejectTree::Checking { path, rest }),
                Ok(false) => continued(rest),
            },
            _ => step::confused(),
        }
    }

    /// Takes the answer.
    pub fn resume(self, reply: TreeReply) -> (step: Step<RejectTree, ()>)
        ensures
            step@ == self.next(reply),
    {
        match (self, reply) {
            (RejectTree::Checking { path, rest }, TreeReply::Checked(checked)) => match checked {
                Err(error) => step::fail(error),
                Ok(_) => step::go(RejectTree::Listing { path, rest }),
            },
            (RejectTree::Listing { path: _, rest }, TreeReply::Listed(listed)) => match listed {
                Err(error) => step::fail(
                    AppError::Snapshot(text::joined2("无法读取账号快照目录：", error.as_str())),
                ),
                Ok(listing) => go_on(
                    OpenDirectories::Inside { listing, index: 0, above: Box::new(rest) },
                ),
            },
            (RejectTree::Looking { path, rest }, TreeReply::Entry(entry)) =>
                match snapshot_store::check_tree_entry(&entry) {
                Err(error) => step::fail(error),
                Ok(true) => step::go(RejectTree::Checking { path, rest }),
                Ok(false) => go_on(rest),
            },
            _ => step::give_up(),
        }
    }
}

/// The beginning of a look through a directory.
pub open spec fn begun(path: String) -> RejectTree {
    RejectTree::Checking { path, rest: OpenDirectories::Outside }
}

/// Begins to look through a directory.
pub fn reject_reparse_tree(path: String) -> (operation: RejectTree)
    ensures
        operation == begun(path),
{
    RejectTree::Checking { path, rest: OpenDirectories::Outside }
}

/// The look through a directory after these answers.
pub open spec fn looked_through(path: String, replies: Seq<TreeReply>) -> StepView<RejectTree, ()>
    decreases replies.len(),
{
    if replies.len() == 0 {
        step::going(begun(path))
    } else {
        match looked_through(path, replies.drop_last()) {
            StepView::Perform { operation, .. } => operation.next(replies.last()),
            StepView::Finished(_) => step::confused(),
        }
    }
}

/// The number of entries that were read from directories.
pub open spec fn listed_entries(replies: Seq<TreeReply>) -> nat
    decreases replies.len(),
{
    if replies.len() == 0 {
        0
    } else {
        listed_entries(replies.drop_last()) + match replies.last() {
            TreeReply::Listed(Ok(listing)) => listing.entries@.len(),
            _ => 0,
        }
    }
}

/// The number of entries that were looked at.
pub open spec fn seen_entries(replies: Seq<TreeReply>) -> nat
    decreases replies.len(),
{
    if replies.len() == 0 {
        0
    } else {
        seen_entries(replies.drop_last()) + (if replies.last() is Entry {
            1nat
        } else {
            0
        })
    }
}

/// The answer tells of no redirection.
pub open spec fn is_plain(reply: TreeReply) -> bool {
    match reply {
        TreeReply::Checked(checked) => checked is Ok,
        TreeReply::Listed(listed) => listed is Ok,
        TreeReply::Entry(entry) => match entry {
            Err(_) => false,
            Ok(facts) => !paths::redirects(facts.attributes),
        },
    }
}

/// Counts the entries of an unfinished look.
proof fn lemma_counted(path: String, replies: Seq<TreeReply>)
    ensures
        match looked_through(path, replies) {
            StepView::Perform { operation, .. } => {
                &&& listed_entries(replies) == seen_entries(replies) + tree_walk::left(
                    operation.rest(),
                ) + (if operation is Looking {
                    1nat
                } else {
                    0
                })
                &&& forall|i: int| 0 <= i < replies.len() ==> is_plain(#[trigger] replies[i])
            },
            StepView::Finished(Ok(_)) => {
                &&& listed_entries(replies) == seen_entries(replies)
                &&& forall|i: int| 0 <= i < replies.len() ==> is_plain(#[trigger] replies[i])
            },
            StepView::Finished(Err(_)) => true,
        },
    decreases replies.len(),
{
    if replies.len() > 0 {
        let before = replies.drop_last();
        lemma_counted(path, before);
        match looked_through(path, before) {
            StepView::Perform { operation, .. } => {
                tree_walk::law_each_entry_is_visited_once(operation.rest());
                match replies.last() {
                    TreeReply::Listed(Ok(listing)) => {
                        tree_walk::law_each_entry_is_visited_once(
                            tree_walk::entered(listing, operation.rest()),
                        );
                    },
                    _ => {},
                }
                assert forall|i: int| 0 <= i < before.len() implies #[trigger] replies[i]
                    == before[i] by {}
            },
            StepView::Finished(_) => {},
        }
    }
}

/// A directory is found free of redirections only when every entry that was read, in it
/// and in the directories in it, was looked at, and none is a redirection.
pub proof fn law_no_redirection_is_passed_over(path: String, replies: Seq<TreeReply>)
    requires
        looked_through(path, replies) == step::ending::<RejectTree, ()>(()),
    ensures
        listed_entries(replies) == seen_entries(replies),
        forall|i: int| 0 <= i < replies.len() ==> is_plain(#[trigger] replies[i]),
{
    lemma_counted(path, replies);
}

} // verus!
