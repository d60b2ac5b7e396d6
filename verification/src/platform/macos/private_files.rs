//! Files and directories that only the user can read: how they are opened, written,
//! removed and looked through.

use vstd::prelude::*;

use crate::error::AppError;
use crate::error::ErrorView;
use crate::platform::macos::secure_fs;
use crate::platform::macos::secure_fs::EntryFacts;
use crate::platform::macos::secure_fs::FileReply;
use crate::platform::macos::secure_fs::TreeCheck;
use crate::platform::macos::secure_fs::TreeEntry;
use crate::platform::macos::secure_fs::UserFile;
use crate::step::Moment;
use crate::step;
use crate::step::Step;
use crate::step::StepView;
use crate::tree_walk;
use crate::tree_walk::DirectoryListing;
use crate::tree_walk::OpenDirectories;
use crate::tree_walk::Visit;

verus! {

/// What came of opening a file without following a link.
#[derive(Debug)]
pub enum OpenedFile {
    /// There is no such file.
    Missing,
    /// It could not be opened.
    Failed(String),
    /// It was opened; this was found of it.
    Opened(Result<EntryFacts, String>),
}

/// Whether a user's file is there; `mode` are the permissions that it has to have.
pub open spec fn file_there(path: Seq<char>, mode: Option<u32>, opened: OpenedFile) -> Result<
    bool,
    ErrorView,
> {
    match opened {
        OpenedFile::Missing => Ok(false),
        OpenedFile::Failed(error) => Err(secure_fs::io_error("无法安全打开文件"@, error@)),
        OpenedFile::Opened(facts) => match secure_fs::file_error(path, facts, mode) {
            Some(error) => Err(error),
            None => Ok(true),
        },
    }
}

/// Whether a user's file is there; one that is there has to be a plain file of the
/// user's, without further names, with the permissions that are asked for.
pub fn open_owned_regular_file_optional(path: &str, mode: Option<u32>, opened: OpenedFile) -> (there:
    Result<bool, AppError>)
    ensures
        match file_there(path@, mode, opened) {
            Err(error) => there is Err && there->Err_0@ == error,
            Ok(expected) => there == Ok::<bool, AppError>(expected),
        },
{
    match opened {
        OpenedFile::Missing => Ok(false),
        OpenedFile::Failed(error) => Err(
            secure_fs::snapshot_error("无法安全打开文件", error.as_str()),
        ),
        OpenedFile::Opened(facts) => match secure_fs::validate_file_handle(path, facts, mode) {
            Err(error) => Err(error),
            Ok(_) => Ok(true),
        },
    }
}

/// Opens a user's file that has to be there.
pub fn open_owned_regular_file(path: &str, mode: Option<u32>, opened: OpenedFile) -> (result: Result<
    (),
    AppError,
>)
    ensures
        match file_there(path@, mode, opened) {
            Err(error) => result is Err && result->Err_0@ == error,
            Ok(false) => result is Err && result->Err_0@ == secure_fs::io_error(
                "无法安全打开文件"@,
                "entity not found"@,
            ),
            Ok(true) => result is Ok,
        },
{
    match open_owned_regular_file_optional(path, mode, opened) {
        Err(error) => Err(error),
        Ok(false) => Err(secure_fs::snapshot_error("无法安全打开文件", "entity not found")),
        Ok(true) => Ok(()),
    }
}

/// The contents of a private file that was opened.
pub fn read_private_file(read: Result<Vec<u8>, String>) -> (bytes: Result<Vec<u8>, AppError>)
    ensures
        match read {
            Err(error) => bytes is Err && bytes->Err_0@ == secure_fs::io_error(
                "无法读取敏感文件"@,
                error@,
            ),
            Ok(read) => bytes == Ok::<Vec<u8>, AppError>(read),
        },
{
    match read {
        Err(error) => Err(secure_fs::snapshot_error("无法读取敏感文件", error.as_str())),
        Ok(read) => Ok(read),
    }
}

/// The contents and the permissions of a user's file that was opened; `mode` is its
/// whole mode.
pub fn read_user_file_optional(mode: Result<u32, String>, read: Result<Vec<u8>, String>) -> (file:
    Result<UserFile, AppError>)
    ensures
        match (mode, read) {
            (Err(error), _) => file is Err && file->Err_0@ == secure_fs::io_error(
                "无法读取用户文件属性"@,
                error@,
            ),
            (Ok(_), Err(error)) => file is Err && file->Err_0@ == secure_fs::io_error(
                "无法读取用户文件"@,
                error@,
            ),
            (Ok(mode), Ok(bytes)) => file == Ok::<UserFile, AppError>(
                (UserFile { bytes, mode: secure_fs::permissions(mode) }),
            ),
        },
{
    match (mode, read) {
        (Err(error), _) => Err(
            secure_fs::snapshot_error("无法读取用户文件属性", error.as_str()),
        ),
        (Ok(_), Err(error)) => Err(
            secure_fs::snapshot_error("无法读取用户文件", error.as_str()),
        ),
        (Ok(mode), Ok(bytes)) => Ok(UserFile { bytes, mode: secure_fs::permission_mode(mode) }),
    }
}

/// The entries of a private directory that was checked.
pub fn read_private_directory(listed: Result<DirectoryListing, String>) -> (listing: Result<
    DirectoryListing,
    AppError,
>)
    ensures
        match listed {
            Err(error) => listing is Err && listing->Err_0@ == secure_fs::io_error(
                "无法读取敏感目录"@,
                error@,
            ),
            Ok(listed) => listing == Ok::<DirectoryListing, AppError>(listed),
        },
{
    match listed {
        Err(error) => Err(secure_fs::snapshot_error("无法读取敏感目录", error.as_str())),
        Ok(listed) => Ok(listed),
    }
}

/// What came of making a directory durable.
pub fn sync_directory(synced: Result<(), String>) -> (result: Result<(), AppError>)
    ensures
        match synced {
            Err(error) => result is Err && result->Err_0@ == secure_fs::io_error(
                "无法持久化目录"@,
                error@,
            ),
            Ok(_) => result is Ok,
        },
{
    match synced {
        Err(error) => Err(secure_fs::snapshot_error("无法持久化目录", error.as_str())),
        Ok(_) => Ok(()),
    }
}

/// Writing a private file that is not there yet. Each state names the work that is to
/// be done.
#[derive(Debug)]
pub enum WriteNewFile {
    /// The directory above is to be opened as a private one.
    OpeningParent { path: String },
    /// The file is to be created.
    Creating { path: String },
    /// Its permissions are to be set to those of a private file.
    Setting { path: String },
    /// It has to be a private file.
    Checking { path: String },
    /// The contents are to be written and made durable.
    Writing { path: String },
}

impl WriteNewFile {
    /// What follows on the answer to the work that is named.
    pub open spec fn next(self, reply: FileReply) -> StepView<WriteNewFile, ()> {
        match (self, reply) {
            (WriteNewFile::OpeningParent { path }, FileReply::Done(done)) => match done {
                Err(error) => step::failing(error@),
                Ok(_) => step::going(WriteNewFile::Creating { path }),
            },
            (WriteNewFile::Creating { path }, FileReply::Io(done)) => match done {
                Err(error) => step::failing(secure_fs::io_error("无法创建敏感文件"@, error@)),
                Ok(_) => step::going(WriteNewFile::Setting { path }),
            },
            (WriteNewFile::Setting { path }, FileReply::Io(done)) => match done {
                Err(error) => step::failing(
                    secure_fs::io_error("无法设置敏感文件权限"@, error@),
                ),
                Ok(_) => step::going(WriteNewFile::Checking { path }),
            },
            (WriteNewFile::Checking { path }, FileReply::Done(done)) => match done {
                Err(error) => step::failing(error@),
                Ok(_) => step::going(WriteNewFile::Writing { path }),
            },
            (WriteNewFile::Writing { .. }, FileReply::Io(done)) => match done {
                Err(error) => step::failing(
                    secure_fs::io_error("无法持久化敏感文件"@, error@),
                ),
                Ok(_) => step::ending(()),
            },
            _ => step::confused(),
        }
    }

    /// Takes the answer.
    pub fn resume(self, reply: FileReply) -> (step: Step<WriteNewFile, ()>)
        ensures
            step@ == self.next(reply),
    {
        match (self, reply) {
            (WriteNewFile::OpeningParent { path }, FileReply::Done(done)) => match done {
                Err(error) => step::fail(error),
                Ok(_) => step::go(WriteNewFile::Creating { path }),
            },
            (WriteNewFile::Creating { path }, FileReply::Io(done)) => match done {
                Err(error) => step::fail(
                    secure_fs::snapshot_error("无法创建敏感文件", error.as_str()),
                ),
                Ok(_) => step::go(WriteNewFile::Setting { path }),
            },
            (WriteNewFile::Setting { path }, FileReply::Io(done)) => match done {
                Err(error) => step::fail(
                    secure_fs::snapshot_error("无法设置敏感文件权限", error.as_str()),
                ),
                Ok(_) => step::go(WriteNewFile::Checking { path }),
            },
            (WriteNewFile::Checking { path }, FileReply::Done(done)) => match done {
                Err(error) => step::fail(error),
                Ok(_) => step::go(WriteNewFile::Writing { path }),
            },
            (WriteNewFile::Writing { .. }, FileReply::Io(done)) => match done {
                Err(error) => step::fail(
                    secure_fs::snapshot_error("无法持久化敏感文件", error.as_str()),
                ),
                Ok(_) => step::end(()),
            },
            _ => step::give_up(),
        }
    }
}

/// Begins to write a private file that is not there yet.
pub fn write_private_file_new(path: &str) -> (operation: WriteNewFile)
    ensures
        operation matches WriteNewFile::OpeningParent { path: kept } && kept@ == path@,
{
    WriteNewFile::OpeningParent { path: path.to_owned() }
}

/// Contents are written only to a file that was found to be private.
pub proof fn law_contents_go_only_into_a_private_file(operation: WriteNewFile, reply: FileReply)
    requires
        operation.next(reply) matches StepView::Perform { operation: WriteNewFile::Writing { .. }, .. },
    ensures
        operation is Checking,
        reply matches FileReply::Done(Ok(_)),
{
}

/// Removing a file of the user's that may be missing. Each state names the work that is
/// to be done.
#[derive(Debug)]
pub enum RemoveFile {
    /// Is the file there? It has to be one that can be removed.
    Looking { path: String, private: bool },
    /// The directory above is to be opened.
    OpeningParent { path: String, private: bool },
    /// The file is to be removed.
    Removing { path: String, private: bool },
}

/// What is said when a file could not be removed.
pub open spec fn removal_context(private: bool) -> Seq<char> {
    if private {
        "无法删除敏感文件"@
    } else {
        "无法删除用户文件"@
    }
}

impl RemoveFile {
    /// What follows on the answer to the work that is named.
    pub open spec fn next(self, reply: FileReply) -> StepView<RemoveFile, ()> {
        match (self, reply) {
            (RemoveFile::Looking { path, private }, FileReply::Exists(there)) => match there {
                Err(error) => step::failing(error@),
                Ok(false) => step::ending(()),
                Ok(true) => step::going(RemoveFile::OpeningParent { path, private }),
            },
            (RemoveFile::OpeningParent { path, private }, FileReply::Done(done)) => match done {
                Err(error) => step::failing(error@),
                Ok(_) => step::going(RemoveFile::Removing { path, private }),
            },
            (RemoveFile::Removing { path, private }, FileReply::Io(done)) => match done {
                Err(error) => step::failing(
                    secure_fs::io_error(removal_context(private), error@),
                ),
                Ok(_) => step::ending(()),
            },
            _ => step::confused(),
        }
    }

    /// Takes the answer.
    pub fn resume(self, reply: FileReply) -> (step: Step<RemoveFile, ()>)
        ensures
            step@ == self.next(reply),
    {
        match (self, reply) {
            (RemoveFile::Looking { path, private }, FileReply::Exists(there)) => match there {
                Err(error) => step::fail(error),
                Ok(false) => step::end(()),
                Ok(true) => step::go(RemoveFile::OpeningParent { path, private }),
            },
            (RemoveFile::OpeningParent { path, private }, FileReply::Done(done)) => match done {
                Err(error) => step::fail(error),
                Ok(_) => step::go(RemoveFile::Removing { path, private }),
            },
            (RemoveFile::Removing { path: _, private }, FileReply::Io(done)) => match done {
                Err(error) => step::fail(
                    secure_fs::snapshot_error(
                        if private {
                            "无法删除敏感文件"
                        } else {
                            "无法删除用户文件"
                        },
                        error.as_str(),
                    ),
                ),
                Ok(_) => step::end(()),
            },
            _ => step::give_up(),
        }
    }
}

/// Begins to remove a private file.
pub fn remove_private_file(path: &str) -> (operation: RemoveFile)
    ensures
        operation matches RemoveFile::Looking { path: kept, private } && kept@ == path@ && private,
{
    RemoveFile::Looking { path: path.to_owned(), private: true }
}

/// Begins to remove a file of the user's.
pub fn remove_user_file(path: &str) -> (operation: RemoveFile)
    ensures
        operation matches RemoveFile::Looking { path: kept, private } && kept@ == path@ && !private,
{
    RemoveFile::Looking { path: path.to_owned(), private: false }
}

/// Checking that all in a directory is private. Each state names the work that is to be
/// done; `rest` is what is to be looked at afterwards.
#[derive(Debug)]
pub enum CheckTree {
    /// The directory has to be a private one.
    CheckingDirectory { path: String, rest: OpenDirectories },
    /// The entries of the directory are to be read.
    Listing { path: String, rest: OpenDirectories },
    /// What is this entry?
    Looking { path: String, rest: OpenDirectories },
    /// The file has to be a private one.
    CheckingFile { path: String, rest: OpenDirectories },
}

/// What came of the work that a [`CheckTree`] names.
#[derive(Debug)]
pub enum TreeReply {
    /// Whether the directory or the file is private.
    Done(Result<(), AppError>),
    /// The entries of the directory.
    Listed(Result<DirectoryListing, AppError>),
    /// What the entry is.
    Entry(Result<TreeEntry, String>),
}

/// The step to what is to be looked at next.
pub open spec fn continued(open: OpenDirectories) -> StepView<CheckTree, ()> {
    match tree_walk::upcoming(open) {
        Visit::Entry { path, rest } => step::going(CheckTree::Looking { path, rest }),
        Visit::Unreadable(error) => step::failing(
            secure_fs::io_error("无法读取敏感目录项"@, error@),
        ),
        Visit::Complete => step::ending(()),
    }
}

/// Goes on to what is to be looked at next.
fn go_on(open: OpenDirectories) -> (step: Step<CheckTree, ()>)
    ensures
        step@ == continued(open),
{
    match tree_walk::next_entry(open) {
        Visit::Entry { path, rest } => step::go(CheckTree::Looking { path, rest }),
        Visit::Unreadable(error) => step::fail(
            secure_fs::snapshot_error("无法读取敏感目录项", error.as_str()),
        ),
        Visit::Complete => step::end(()),
    }
}

impl CheckTree {
    /// What is to be looked at after the work that is named.
    pub open spec fn rest(self) -> OpenDirectories {
        match self {
            CheckTree::CheckingDirectory { rest, .. } => rest,
            CheckTree::Listing { rest, .. } => rest,
            CheckTree::Looking { rest, .. } => rest,
            CheckTree::CheckingFile { rest, .. } => rest,
        }
    }

    /// What follows on the answer to the work that is named.
    pub open spec fn next(self, reply: TreeReply) -> StepView<CheckTree, ()> {
        match (self, reply) {
            (CheckTree::CheckingDirectory { path, rest }, TreeReply::Done(done)) => match done {
                Err(error) => step::failing(error@),
                Ok(_) => step::going(CheckTree::Listing { path, rest }),
            },
            (CheckTree::Listing { path, rest }, TreeReply::Listed(listed)) => match listed {
                Err(error) => step::failing(error@),
                Ok(listing) => continued(tree_walk::entered(listing, rest)),
            },
            (CheckTree::Looking { path, rest }, TreeReply::Entry(entry)) => match secure_fs::tree_check(
                path@,
                entry,
            ) {
                Err(error) => step::failing(error),
                Ok(TreeCheck::Descend) => step::going(
                    CheckTree::CheckingDirectory { path, rest },
                ),
                Ok(TreeCheck::OpenFile) => step::going(CheckTree::CheckingFile { path, rest }),
            },
            (CheckTree::CheckingFile { path, rest }, TreeReply::Done(done)) => match done {
                Err(error) => step::failing(error@),
                Ok(_) => continued(rest),
            },
            _ => step::confused(),
        }
    }

    /// Takes the answer.
    pub fn resume(self, reply: TreeReply) -> (step: Step<CheckTree, ()>)
        ensures
            step@ == self.next(reply),
    {
        match (self, reply) {
            (CheckTree::CheckingDirectory { path, rest }, TreeReply::Done(done)) => match done {
                Err(error) => step::fail(error),
                Ok(_) => step::go(CheckTree::Listing { path, rest }),
            },
            (CheckTree::Listing { path: _, rest }, TreeReply::Listed(listed)) => match listed {
                Err(error) => step::fail(error),
                Ok(listing) => go_on(
                    OpenDirectories::Inside { listing, index: 0, above: Box::new(rest) },
                ),
            },
            (CheckTree::Looking { path, rest }, TreeReply::Entry(entry)) =>
                match secure_fs::check_tree_entry(path.as_str(), entry) {
                Err(error) => step::fail(error),
                Ok(TreeCheck::Descend) => step::go(CheckTree::CheckingDirectory { path, rest }),
                Ok(TreeCheck::OpenFile) => step::go(CheckTree::CheckingFile { path, rest }),
            },
            (CheckTree::CheckingFile { path: _, rest }, TreeReply::Done(done)) => match done {
                Err(error) => step::fail(error),
                Ok(_) => go_on(rest),
            },
            _ => step::give_up(),
        }
    }
}

/// Begins to check that all in a directory is private.
pub fn validate_private_tree(path: String) -> (operation: CheckTree)
    ensures
        operation == begun(path),
{
    CheckTree::CheckingDirectory { path, rest: OpenDirectories::Outside }
}

/// The beginning of a check.
pub open spec fn begun(path: String) -> CheckTree {
    CheckTree::CheckingDirectory { path, rest: OpenDirectories::Outside }
}

/// The check of a directory after these answers.
pub open spec fn checked(path: String, replies: Seq<TreeReply>) -> StepView<CheckTree, ()>
    decreases replies.len(),
{
    if replies.len() == 0 {
        step::going(begun(path))
    } else {
        match checked(path, replies.drop_last()) {
            StepView::Perform { operation, .. } => operation.next(replies.last()),
            StepView::Finished(_) => step::confused(),
        }
    }
}

/// The number of entries that were read from directories.
pub open spec fn listed_entries(replies: Seq<TreeReply>) -> nat
    decreases replies.len(),
{
    if replies.len() == 0 {
        0
    } else {
        listed_entries(replies.drop_last()) + match replies.last() {
            TreeReply::Listed(Ok(listing)) => listing.entries@.len(),
            _ => 0,
        }
    }
}

/// The number of entries that were looked at.
pub open spec fn seen_entries(replies: Seq<TreeReply>) -> nat
    decreases replies.len(),
{
    if replies.len() == 0 {
        0
    } else {
        seen_entries(replies.drop_last()) + (if replies.last() is Entry {
            1nat
        } else {
            0
        })
    }
}

/// The answer speaks for a private directory.
pub open spec fn is_private(reply: TreeReply) -> bool {
    match reply {
        TreeReply::Done(done) => done is Ok,
        TreeReply::Listed(listed) => listed is Ok,
        TreeReply::Entry(entry) => entry == Ok::<TreeEntry, String>(TreeEntry::Directory) || entry == Ok::<
            TreeEntry,
            String,
        >(TreeEntry::File),
    }
}

/// Counts the entries of an unfinished check.
proof fn lemma_counted(path: String, replies: Seq<TreeReply>)
    ensures
        match checked(path, replies) {
            StepView::Perform { operation, .. } => {
                &&& listed_entries(replies) == seen_entries(replies) + tree_walk::left(
                    operation.rest(),
                ) + (if operation is Looking {
                    1nat
                } else {
                    0
                })
                &&& forall|i: int| 0 <= i < replies.len() ==> is_private(#[trigger] replies[i])
            },
            StepView::Finished(Ok(_)) => {
                &&& listed_entries(replies) == seen_entries(replies)
                &&& forall|i: int| 0 <= i < replies.len() ==> is_private(#[trigger] replies[i])
            },
            StepView::Finished(Err(_)) => true,
        },
    decreases replies.len(),
{
    if replies.len() > 0 {
        let before = replies.drop_last();
        lemma_counted(path, before);
        match checked(path, before) {
            StepView::Perform { operation, .. } => {
                tree_walk::law_each_entry_is_visited_once(operation.rest());
                match replies.last() {
                    TreeReply::Listed(Ok(listing)) => {
                        tree_walk::law_each_entry_is_visited_once(
                            tree_walk::entered(listing, operation.rest()),
                        );
                    },
                    _ => {},
                }
                assert forall|i: int| 0 <= i < before.len() implies #[trigger] replies[i]
                    == before[i] by {}
            },
            StepView::Finished(_) => {},
        }
    }
}

/// A directory is found to be private only when every entry that was read, in it and in
/// the directories in it, was looked at, and each was a private directory or a private
/// file.
pub proof fn law_private_directory_was_looked_through(path: String, replies: Seq<TreeReply>)
    requires
        checked(path, replies) == step::ending::<CheckTree, ()>(()),
    ensures
        listed_entries(replies) == seen_entries(replies),
        forall|i: int| 0 <= i < replies.len() ==> is_private(#[trigger] replies[i]),
{
    lemma_counted(path, replies);
}

impl WriteNewFile {
    /// How the operation goes on.
    pub open spec fn steps() -> spec_fn(WriteNewFile, FileReply) -> StepView<
        WriteNewFile,
        (),
    > {
        |operation: WriteNewFile, reply: FileReply| operation.next(reply)
    }
}

/// Writing a new private file succeeds exactly where the directory above is private, the
/// file was created, its permissions were set, it was found to be private, and the
/// contents were written.
pub proof fn law_new_file_is_private_before_it_is_written(
    path: String,
    run: Seq<Moment<WriteNewFile, FileReply>>,
)
    requires
        step::is_run(WriteNewFile::steps(), WriteNewFile::OpeningParent { path }, run),
    ensures
        step::result_of(WriteNewFile::steps(), run) is Ok <==> {
            &&& run.len() == 5
            &&& run[0].reply is Done
            &&& run[0].reply->Done_0 is Ok
            &&& run[1].operation == (WriteNewFile::Creating { path })
            &&& run[1].reply is Io
            &&& run[1].reply->Io_0 is Ok
            &&& run[2].operation == (WriteNewFile::Setting { path })
            &&& run[2].reply is Io
            &&& run[2].reply->Io_0 is Ok
            &&& run[3].operation == (WriteNewFile::Checking { path })
            &&& run[3].reply is Done
            &&& run[3].reply->Done_0 is Ok
            &&& run[4].operation == (WriteNewFile::Writing { path })
            &&& run[4].reply is Io
            &&& run[4].reply->Io_0 is Ok
        },
        run.len() <= 5,
{
    let steps = WriteNewFile::steps();
    assert(step::follows(steps, run, 0));
    if run.len() > 1 {
        assert(step::follows(steps, run, 1));
    }
    if run.len() > 2 {
        assert(step::follows(steps, run, 2));
    }
    if run.len() > 3 {
        assert(step::follows(steps, run, 3));
    }
    if run.len() > 4 {
        assert(step::follows(steps, run, 4));
    }
}

impl RemoveFile {
    /// How the operation goes on.
    pub open spec fn steps() -> spec_fn(RemoveFile, FileReply) -> StepView<
        RemoveFile,
        (),
    > {
        |operation: RemoveFile, reply: FileReply| operation.next(reply)
    }
}

/// Removing a file succeeds exactly where it is not there, or the directory above was
/// opened and the file was removed.
pub proof fn law_file_is_removed_where_it_is_there(
    path: String,
    private: bool,
    run: Seq<Moment<RemoveFile, FileReply>>,
)
    requires
        step::is_run(RemoveFile::steps(), RemoveFile::Looking { path, private }, run),
    ensures
        step::result_of(RemoveFile::steps(), run) is Ok <==> {
            ||| run.len() == 1 && run[0].reply == FileReply::Exists(Ok(false))
            ||| {
                &&& run.len() == 3
                &&& run[0].reply == FileReply::Exists(Ok(true))
                &&& run[1].operation == (RemoveFile::OpeningParent { path, private })
                &&& run[1].reply is Done
                &&& run[1].reply->Done_0 is Ok
                &&& run[2].operation == (RemoveFile::Removing { path, private })
                &&& run[2].reply is Io
                &&& run[2].reply->Io_0 is Ok
            }
        },
        run.len() <= 3,
{
    let steps = RemoveFile::steps();
    assert(step::follows(steps, run, 0));
    if run.len() > 1 {
        assert(step::follows(steps, run, 1));
    }
    if run.len() > 2 {
        assert(step::follows(steps, run, 2));
    }
}

} // verus!
