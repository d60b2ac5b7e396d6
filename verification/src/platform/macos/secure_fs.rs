//! Files and directories on macOS that only the user can use. The library says what a
//! path, a file or a directory has to be like, and in which order files are written,
//! moved and removed.

use vstd::prelude::*;

use crate::error::AppError;
use crate::error::ErrorView;
use crate::outside;
use crate::platform::macos::unix_path;
use crate::step::Moment;
use crate::step::Taken;
use crate::step;
use crate::step::Step;
use crate::step::StepView;
use crate::text;

verus! {

/// The permissions of a private directory.
pub const PRIVATE_DIRECTORY_MODE: u32 = 0o700;

/// The permissions of a private file.
pub const PRIVATE_FILE_MODE: u32 = 0o600;

/// A user's file: its contents and its permissions.
#[derive(Debug)]
pub struct UserFile {
    pub bytes: Vec<u8>,
    pub mode: u32,
}

/// The permissions in a file's mode.
pub open spec fn permissions(mode: u32) -> u32 {
    mode & 0o777
}

/// The permissions in a file's mode.
pub fn permission_mode(mode: u32) -> (result: u32)
    ensures
        result == permissions(mode),
{
    mode & 0o777
}

/// A failure of the system's.
pub open spec fn io_error(context: Seq<char>, error: Seq<char>) -> ErrorView {
    ErrorView::Snapshot(context + "："@ + error)
}

/// A failure of the system's.
pub fn snapshot_error(context: &str, error: &str) -> (failure: AppError)
    ensures
        failure@ == io_error(context@, error@),
{
    AppError::Snapshot(text::joined3(context, "：", error))
}

/// The directory that the path leads through last: none for a root, and none for a single
/// name. Repeated separators and dots are left out of it.
pub open spec fn parent_of(path: Seq<char>) -> Option<Seq<char>> {
    let parts = unix_path::parts(path);
    let above = unix_path::written(parts, parts.len() - 1);
    if parts.len() == 0 {
        None
    } else if unix_path::absolute(path) {
        Some(if parts.len() == 1 {
            "/"@
        } else {
            above
        })
    } else if parts.len() == 1 {
        None
    } else {
        Some(above.skip(1))
    }
}

/// The directory that the path leads through last.
pub fn parent(path: &str) -> (directory: Result<String, AppError>)
    ensures
        match directory {
            Ok(directory) => parent_of(path@) == Some(directory@),
            Err(error) => parent_of(path@) is None && error@ == ErrorView::Snapshot(
                "安全路径没有父目录"@,
            ),
        },
{
    let parts = unix_path::parts_of(path);
    assert(unix_path::texts(parts@).len() == parts@.len());
    let absolute = unix_path::is_absolute(path);
    if parts.len() == 0 || (parts.len() == 1 && !absolute) {
        return Err(AppError::Snapshot("安全路径没有父目录".to_owned()));
    }
    if parts.len() == 1 {
        return Ok("/".to_owned());
    }
    let above = unix_path::written_path(&parts, parts.len() - 1);
    if absolute {
        return Ok(above);
    }
    proof {
        lemma_written_is_not_empty(unix_path::texts(parts@), parts@.len() - 1);
    }
    let chars = text::chars_of(above.as_str());
    let directory = text::text_of(&chars, 1, chars.len());
    assert(directory@ =~= above@.skip(1));
    Ok(directory)
}

proof fn lemma_written_is_not_empty(parts: Seq<Seq<char>>, length: int)
    requires
        length > 0,
    ensures
        unix_path::written(parts, length).len() > 0,
{
    reveal_strlit("/");
}

/// The name that the path leads to.
pub fn file_name(path: &str) -> (name: Result<String, AppError>)
    ensures
        match name {
            Ok(name) => unix_path::name_of(unix_path::parts(path@)) == Some(name@),
            Err(error) => unix_path::name_of(unix_path::parts(path@)) is None && error@
                == ErrorView::Snapshot("安全路径没有文件名"@),
        },
{
    let parts = unix_path::parts_of(path);
    match unix_path::file_name(&parts) {
        Some(name) => Ok(name),
        None => Err(AppError::Snapshot("安全路径没有文件名".to_owned())),
    }
}

/// A part of a path, from the root on.
#[derive(Debug)]
pub struct ChainPart {
    pub path: String,
    pub found: ChainFacts,
}

/// What was found of a part of a path.
#[derive(Debug)]
pub enum ChainFacts {
    Link,
    NoLink,
    Missing(String),
    Unreadable(String),
}

/// Why the path cannot be used: what is wrong with the first of its parts. The last may
/// be missing, where `allow_missing_leaf` says so.
pub open spec fn chain_error(
    parts: Seq<ChainPart>,
    length: int,
    allow_missing_leaf: bool,
) -> Option<ErrorView>
    decreases length,
{
    if length <= 0 {
        None
    } else {
        match chain_error(parts, length - 1, allow_missing_leaf) {
            Some(error) => Some(error),
            None => {
                let part = parts[length - 1];
                match part.found {
                    ChainFacts::Link => Some(
                        ErrorView::Snapshot("安全路径不能经过符号链接："@ + part.path@),
                    ),
                    ChainFacts::NoLink => None,
                    ChainFacts::Missing(error) => if allow_missing_leaf && length == parts.len() {
                        None
                    } else {
                        Some(io_error("无法读取安全路径属性"@, error@))
                    },
                    ChainFacts::Unreadable(error) => Some(
                        io_error("无法读取安全路径属性"@, error@),
                    ),
                }
            },
        }
    }
}

/// Checks that the path leads through no link.
pub fn reject_symlink_chain(parts: &Vec<ChainPart>, allow_missing_leaf: bool) -> (result: Result<
    (),
    AppError,
>)
    ensures
        match result {
            Ok(_) => chain_error(parts@, parts@.len() as int, allow_missing_leaf) is None,
            Err(error) => chain_error(parts@, parts@.len() as int, allow_missing_leaf) == Some(
                error@,
            ),
        },
{
    let mut failure: Option<AppError> = None;
    let mut i: usize = 0;
    while i < parts.len()
        invariant
            i <= parts.len(),
            match failure {
                None => chain_error(parts@, i as int, allow_missing_leaf) is None,
                Some(error) => chain_error(parts@, i as int, allow_missing_leaf) == Some(error@),
            },
        decreases parts.len() - i,
    {
        if failure.is_none() {
            let part = &parts[i];
            match &part.found {
                ChainFacts::Link => {
                    failure = Some(
                        AppError::Snapshot(
                            text::joined2("安全路径不能经过符号链接：", part.path.as_str()),
                        ),
                    );
                },
                ChainFacts::NoLink => {},
                ChainFacts::Missing(error) => {
                    if !(allow_missing_leaf && i + 1 == parts.len()) {
                        failure = Some(snapshot_error("无法读取安全路径属性", error.as_str()));
                    }
                },
                ChainFacts::Unreadable(error) => {
                    failure = Some(snapshot_error("无法读取安全路径属性", error.as_str()));
                },
            }
        }
        i = i + 1;
    }
    match failure {
        None => Ok(()),
        Some(error) => Err(error),
    }
}

/// What was found of a file or a directory.
#[derive(Clone, Copy, Debug, PartialEq, Eq, Structural)]
pub struct EntryFacts {
    pub is_file: bool,
    pub is_directory: bool,
    pub links: u64,
    pub owner: u32,
    pub current_user: u32,
    pub mode: u32,
}

/// Why the file cannot be used; `mode` are the permissions that it has to have.
pub open spec fn file_error(
    path: Seq<char>,
    facts: Result<EntryFacts, String>,
    mode: Option<u32>,
) -> Option<ErrorView> {
    match facts {
        Err(error) => Some(io_error("无法读取文件句柄属性"@, error@)),
        Ok(facts) => if !facts.is_file || facts.links != 1 {
            Some(ErrorView::Snapshot("安全文件必须是无硬链接的普通文件："@ + path))
        } else if facts.owner != facts.current_user {
            Some(ErrorView::Snapshot("安全路径不属于当前用户："@ + path))
        } else {
            match mode {
                Some(expected) if permissions(facts.mode) != expected => Some(
                    ErrorView::Snapshot(
                        "安全文件权限必须为 "@ + text::octal4(expected) + "："@ + path,
                    ),
                ),
                _ => None,
            }
        },
    }
}

/// Checks that the path belongs to the user.
pub fn validate_owner(path: &str, facts: &EntryFacts) -> (result: Result<(), AppError>)
    ensures
        result is Ok == (facts.owner == facts.current_user),
        result is Err ==> result->Err_0@ == ErrorView::Snapshot("安全路径不属于当前用户："@ + path@),
{
    if facts.owner != facts.current_user {
        return Err(AppError::Snapshot(text::joined2("安全路径不属于当前用户：", path)));
    }
    Ok(())
}

/// Checks that the file is one of the user's that has no other name, and that it has the
/// permissions, where they are given.
pub fn validate_file_handle(path: &str, facts: Result<EntryFacts, String>, mode: Option<u32>) -> (result:
    Result<(), AppError>)
    ensures
        match result {
            Ok(_) => file_error(path@, facts, mode) is None,
            Err(error) => file_error(path@, facts, mode) == Some(error@),
        },
{
    let facts = match facts {
        Err(error) => {
            return Err(snapshot_error("无法读取文件句柄属性", error.as_str()));
        },
        Ok(facts) => facts,
    };
    if !facts.is_file || facts.links != 1 {
        return Err(AppError::Snapshot(text::joined2("安全文件必须是无硬链接的普通文件：", path)));
    }
    match validate_owner(path, &facts) {
        Err(error) => {
            return Err(error);
        },
        Ok(_) => {},
    }
    match mode {
        Some(expected) => {
            if permission_mode(facts.mode) != expected {
                return Err(
                    AppError::Snapshot(
                        text::joined4(
                            "安全文件权限必须为 ",
                            text::octal4_text(expected).as_str(),
                            "：",
                            path,
                        ),
                    ),
                );
            }
        },
        None => {},
    }
    Ok(())
}

/// Why the entry cannot be used as a directory.
pub open spec fn directory_error(path: Seq<char>, facts: EntryFacts) -> Option<ErrorView> {
    if !facts.is_directory {
        Some(ErrorView::Snapshot("安全路径不是目录："@ + path))
    } else if facts.owner != facts.current_user {
        Some(ErrorView::Snapshot("安全路径不属于当前用户："@ + path))
    } else {
        None
    }
}

/// Checks that the entry is a directory of the user's.
pub fn validate_owned_directory_metadata(path: &str, facts: &EntryFacts) -> (result: Result<
    (),
    AppError,
>)
    ensures
        match result {
            Ok(_) => directory_error(path@, *facts) is None,
            Err(error) => directory_error(path@, *facts) == Some(error@),
        },
{
    if !facts.is_directory {
        return Err(AppError::Snapshot(text::joined2("安全路径不是目录：", path)));
    }
    validate_owner(path, facts)
}

/// Opening a directory: its path is followed part by part from the root, so that no
/// part of it can be a link.
#[derive(Debug)]
pub struct OpenDirectory {
    pub path: String,
    pub parts: Vec<String>,
    /// The permissions that the directory has to have.
    pub mode: Option<u32>,
    pub stage: OpenStage,
}

/// The work that is to be done to open a directory.
#[derive(Clone, Copy, Debug, PartialEq, Eq, Structural)]
pub enum OpenStage {
    /// The root is to be opened.
    Root,
    /// The part with this number is to be opened, in what was opened last.
    Part(usize),
    /// What was opened last is to be looked at.
    Looking,
}

/// What came of the work for [`OpenDirectory`].
#[derive(Debug)]
pub enum OpenReply {
    Opened(Result<(), String>),
    Facts(Result<EntryFacts, String>),
}

/// Whether the text holds a zero.
pub open spec fn holds_zero(part: Seq<char>) -> bool {
    exists|i: int| 0 <= i < part.len() && #[trigger] part[i] == '\0'
}

fn contains_zero(part: &str) -> (yes: bool)
    ensures
        yes == holds_zero(part@),
{
    let chars = text::chars_of(part);
    let mut i: usize = 0;
    while i < chars.len()
        invariant
            chars@ == part@,
            i <= chars.len(),
            forall|j: int| 0 <= j < i ==> #[trigger] part@[j] != '\0',
        decreases chars.len() - i,
    {
        if chars[i] == '\0' {
            assert(part@[i as int] == '\0');
            return true;
        }
        i = i + 1;
    }
    false
}

/// The step to the part with this number.
pub open spec fn to_part(directory: OpenDirectory, index: int) -> StepView<OpenDirectory, ()> {
    if index >= directory.parts.len() {
        step::going(OpenDirectory { stage: OpenStage::Looking, ..directory })
    } else {
        let part = directory.parts@[index]@;
        if part == ".."@ || part == "."@ {
            step::failing(ErrorView::Snapshot("安全目录包含无效路径组件："@ + directory.path@))
        } else if holds_zero(part) {
            step::failing(ErrorView::Snapshot("安全路径包含空字节"@))
        } else {
            step::going(OpenDirectory { stage: OpenStage::Part(index as usize), ..directory })
        }
    }
}

fn open_part(directory: OpenDirectory, index: usize) -> (step: Step<OpenDirectory, ()>)
    ensures
        step@ == to_part(directory, index as int),
{
    let OpenDirectory { path, parts, mode, stage: _ } = directory;
    if index >= parts.len() {
        return step::go(OpenDirectory { path, parts, mode, stage: OpenStage::Looking });
    }
    if text::same_text(parts[index].as_str(), "..") || text::same_text(parts[index].as_str(), ".") {
        return step::fail(
            AppError::Snapshot(text::joined2("安全目录包含无效路径组件：", path.as_str())),
        );
    }
    if contains_zero(parts[index].as_str()) {
        return step::fail(AppError::Snapshot("安全路径包含空字节".to_owned()));
    }
    step::go(OpenDirectory { path, parts, mode, stage: OpenStage::Part(index) })
}

/// Why the directory that was opened cannot be used.
pub open spec fn opened_error(directory: OpenDirectory, facts: Result<EntryFacts, String>) -> Option<
    ErrorView,
> {
    match facts {
        Err(error) => Some(io_error("无法读取目录句柄属性"@, error@)),
        Ok(facts) => match directory_error(directory.path@, facts) {
            Some(error) => Some(error),
            None => match directory.mode {
                Some(expected) if permissions(facts.mode) != expected => Some(
                    ErrorView::Snapshot(
                        "敏感目录权限必须为 "@ + text::octal4(expected) + "："@ + directory.path@,
                    ),
                ),
                _ => None,
            },
        },
    }
}

impl OpenDirectory {
    /// Whether the number is that of a part.
    pub open spec fn valid(self) -> bool {
        self.stage matches OpenStage::Part(index) ==> index < self.parts.len()
    }

    /// What the answer leads to.
    pub open spec fn next(self, reply: OpenReply) -> StepView<OpenDirectory, ()> {
        match (self.stage, reply) {
            (OpenStage::Root, OpenReply::Opened(opened)) => match opened {
                Err(error) => step::failing(io_error("无法打开文件系统根目录"@, error@)),
                Ok(_) => to_part(self, 0),
            },
            (OpenStage::Part(index), OpenReply::Opened(opened)) => match opened {
                Err(error) => step::failing(io_error("无法安全打开目录"@, error@)),
                Ok(_) => to_part(self, index + 1),
            },
            (OpenStage::Looking, OpenReply::Facts(facts)) => match opened_error(self, facts) {
                Some(error) => step::failing(error),
                None => step::ending(()),
            },
            _ => step::confused(),
        }
    }

    /// Takes the answer.
    pub fn resume(self, reply: OpenReply) -> (step: Step<OpenDirectory, ()>)
        requires
            self.valid(),
        ensures
            step@ == self.next(reply),
            step matches Step::Perform { operation, .. } ==> operation.valid(),
    {
        match (self.stage, reply) {
            (OpenStage::Root, OpenReply::Opened(opened)) => match opened {
                Err(error) => step::fail(
                    snapshot_error("无法打开文件系统根目录", error.as_str()),
                ),
                Ok(_) => open_part(self, 0),
            },
            (OpenStage::Part(index), OpenReply::Opened(opened)) => match opened {
                Err(error) => step::fail(snapshot_error("无法安全打开目录", error.as_str())),
                Ok(_) => open_part(self, index + 1),
            },
            (OpenStage::Looking, OpenReply::Facts(facts)) => {
                let facts = match facts {
                    Err(error) => {
                        return step::fail(
                            snapshot_error("无法读取目录句柄属性", error.as_str()),
                        );
                    },
                    Ok(facts) => facts,
                };
                match validate_owned_directory_metadata(self.path.as_str(), &facts) {
                    Err(error) => {
                        return step::fail(error);
                    },
                    Ok(_) => {},
                }
                match self.mode {
                    Some(expected) => {
                        if permission_mode(facts.mode) != expected {
                            return step::fail(
                                AppError::Snapshot(
                                    text::joined4(
                                        "敏感目录权限必须为 ",
                                        text::octal4_text(expected).as_str(),
                                        "：",
                                        self.path.as_str(),
                                    ),
                                ),
                            );
                        }
                    },
                    None => {},
                }
                step::end(())
            },
            _ => step::give_up(),
        }
    }
}

/// Begins to open a directory.
pub fn open_directory(path: &str, mode: Option<u32>) -> (step: Step<OpenDirectory, ()>)
    ensures
        if unix_path::absolute(path@) {
            &&& step matches Step::Perform { operation, report: None }
            &&& operation.path@ == path@
            &&& unix_path::texts(operation.parts@) == unix_path::parts(path@)
            &&& operation.mode == mode
            &&& operation.stage == OpenStage::Root
            &&& operation.valid()
        } else {
            step@ == step::failing::<OpenDirectory, ()>(
                ErrorView::Snapshot("安全目录必须是绝对路径："@ + path@),
            )
        },
{
    if !unix_path::is_absolute(path) {
        return step::fail(AppError::Snapshot(text::joined2("安全目录必须是绝对路径：", path)));
    }
    step::go(
        OpenDirectory {
            path: path.to_owned(),
            parts: unix_path::parts_of(path),
            mode,
            stage: OpenStage::Root,
        },
    )
}

/// What opening a directory has come to after the answers.
pub open spec fn opened(directory: OpenDirectory, replies: Seq<OpenReply>) -> StepView<
    OpenDirectory,
    (),
>
    decreases replies.len(),
{
    if replies.len() == 0 {
        step::going(directory)
    } else {
        match opened(directory, replies.drop_last()) {
            StepView::Perform { operation, .. } => operation.next(replies.last()),
            finished => finished,
        }
    }
}

proof fn lemma_opened(directory: OpenDirectory, replies: Seq<OpenReply>)
    requires
        directory.stage == OpenStage::Root,
    ensures
        match opened(directory, replies) {
            StepView::Perform { operation, .. } => {
                &&& operation == OpenDirectory { stage: operation.stage, ..directory }
                &&& operation.stage == (if replies.len() == 0 {
                    OpenStage::Root
                } else if replies.len() <= directory.parts.len() {
                    OpenStage::Part((replies.len() - 1) as usize)
                } else {
                    OpenStage::Looking
                })
                &&& replies.len() <= directory.parts.len() + 1
                &&& forall|i: int|
                    0 <= i < directory.parts.len() && i < replies.len() ==> (
                    #[trigger] directory.parts@[i])@ != ".."@
            },
            StepView::Finished(Ok(_)) => replies.len() >= directory.parts.len() + 2 && forall|
                i: int,
            |
                0 <= i < directory.parts.len() ==> (#[trigger] directory.parts@[i])@ != ".."@,
            StepView::Finished(Err(_)) => true,
        },
    decreases replies.len(),
{
    if replies.len() > 0 {
        lemma_opened(directory, replies.drop_last());
    }
}

/// A directory is opened only where each part of its path was opened from the root on,
/// and none of them is a way upwards.
pub proof fn law_directory_is_opened_part_by_part(
    directory: OpenDirectory,
    replies: Seq<OpenReply>,
)
    requires
        directory.stage == OpenStage::Root,
        opened(directory, replies) matches StepView::Finished(Ok(_)),
    ensures
        replies.len() >= directory.parts.len() + 2,
        forall|i: int|
            0 <= i < directory.parts.len() ==> (#[trigger] directory.parts@[i])@ != ".."@,
{
    lemma_opened(directory, replies);
}

/// What came of the work on files.
#[derive(Debug)]
pub enum FileReply {
    Done(Result<(), AppError>),
    Io(Result<(), String>),
    Exists(Result<bool, AppError>),
    /// What was found at a path, where there is anything.
    Found(Result<Option<EntryFacts>, String>),
}

/// Making sure that a private directory is there, or creating one: one that is there
/// is narrowed, and one that is not is created. Each state names the work that is to be
/// done.
#[derive(Debug)]
pub enum EnsureDirectory {
    /// The path has to lead through no link.
    CheckingChain { path: String },
    /// The path is to be looked at.
    Looking { path: String },
    /// The directory's permissions are to be narrowed.
    Narrowing { path: String },
    /// The path of a new directory has to lead through no link.
    CheckingNew { path: String },
    /// The directory above is to be opened as a private one.
    OpeningPrivateParent { path: String },
    /// The directory above is to be opened.
    OpeningParent { path: String },
    /// The directory is to be created.
    Creating { path: String },
    /// The directory is to be opened.
    Opening { path: String },
    /// The permissions of the new directory are to be set.
    Setting { path: String },
    /// The directory is to be opened as a private one.
    Confirming { path: String },
}

impl EnsureDirectory {
    /// What the answer leads to.
    pub open spec fn next(self, reply: FileReply) -> StepView<EnsureDirectory, ()> {
        match (self, reply) {
            (EnsureDirectory::CheckingChain { path }, FileReply::Done(done)) => match done {
                Err(error) => step::failing(error@),
                Ok(_) => step::going(EnsureDirectory::Looking { path }),
            },
            (EnsureDirectory::Looking { path }, FileReply::Found(found)) => match found {
                Err(error) => step::failing(io_error("无法读取敏感目录属性"@, error@)),
                Ok(None) => step::going(EnsureDirectory::OpeningParent { path }),
                Ok(Some(facts)) => match directory_error(path@, facts) {
                    Some(error) => step::failing(error),
                    None => if permissions(facts.mode) != PRIVATE_DIRECTORY_MODE {
                        step::going(EnsureDirectory::Narrowing { path })
                    } else {
                        step::going(EnsureDirectory::Confirming { path })
                    },
                },
            },
            (EnsureDirectory::Narrowing { path }, FileReply::Io(done)) => match done {
                Err(error) => step::failing(io_error("无法收紧敏感目录权限"@, error@)),
                Ok(_) => step::going(EnsureDirectory::Confirming { path }),
            },
            (EnsureDirectory::CheckingNew { path }, FileReply::Done(done)) => match done {
                Err(error) => step::failing(error@),
                Ok(_) => step::going(EnsureDirectory::OpeningPrivateParent { path }),
            },
            (EnsureDirectory::OpeningPrivateParent { path }, FileReply::Done(done)) => match done {
                Err(error) => step::failing(error@),
                Ok(_) => step::going(EnsureDirectory::Creating { path }),
            },
            (EnsureDirectory::OpeningParent { path }, FileReply::Done(done)) => match done {
                Err(error) => step::failing(error@),
                Ok(_) => step::going(EnsureDirectory::Creating { path }),
            },
            (EnsureDirectory::Creating { path }, FileReply::Done(done)) => match done {
                Err(error) => step::failing(error@),
                Ok(_) => step::going(EnsureDirectory::Opening { path }),
            },
            (EnsureDirectory::Opening { path }, FileReply::Done(done)) => match done {
                Err(error) => step::failing(error@),
                Ok(_) => step::going(EnsureDirectory::Setting { path }),
            },
            (EnsureDirectory::Setting { path }, FileReply::Io(done)) => match done {
                Err(error) => step::failing(io_error("无法设置敏感目录权限"@, error@)),
                Ok(_) => step::going(EnsureDirectory::Confirming { path }),
            },
            (EnsureDirectory::Confirming { path }, FileReply::Done(done)) => match done {
                Err(error) => step::failing(error@),
                Ok(_) => step::ending(()),
            },
            _ => step::confused(),
        }
    }

    /// Takes the answer.
    pub fn resume(self, reply: FileReply) -> (step: Step<EnsureDirectory, ()>)
        ensures
            step@ == self.next(reply),
    {
        match (self, reply) {
            (EnsureDirectory::CheckingChain { path }, FileReply::Done(done)) => match done {
                Err(error) => step::fail(error),
                Ok(_) => step::go(EnsureDirectory::Looking { path }),
            },
            (EnsureDirectory::Looking { path }, FileReply::Found(found)) => match found {
                Err(error) => step::fail(snapshot_error("无法读取敏感目录属性", error.as_str())),
                Ok(None) => step::go(EnsureDirectory::OpeningParent { path }),
                Ok(Some(facts)) => match validate_owned_directory_metadata(path.as_str(), &facts) {
                    Err(error) => step::fail(error),
                    Ok(_) => if permission_mode(facts.mode) != PRIVATE_DIRECTORY_MODE {
                        step::go(EnsureDirectory::Narrowing { path })
                    } else {
                        step::go(EnsureDirectory::Confirming { path })
                    },
                },
            },
            (EnsureDirectory::Narrowing { path }, FileReply::Io(done)) => match done {
                Err(error) => step::fail(snapshot_error("无法收紧敏感目录权限", error.as_str())),
                Ok(_) => step::go(EnsureDirectory::Confirming { path }),
            },
            (EnsureDirectory::CheckingNew { path }, FileReply::Done(done)) => match done {
                Err(error) => step::fail(error),
                Ok(_) => step::go(EnsureDirectory::OpeningPrivateParent { path }),
            },
            (EnsureDirectory::OpeningPrivateParent { path }, FileReply::Done(done)) => match done {
                Err(error) => step::fail(error),
                Ok(_) => step::go(EnsureDirectory::Creating { path }),
            },
            (EnsureDirectory::OpeningParent { path }, FileReply::Done(done)) => match done {
                Err(error) => step::fail(error),
                Ok(_) => step::go(EnsureDirectory::Creating { path }),
            },
            (EnsureDirectory::Creating { path }, FileReply::Done(done)) => match done {
                Err(error) => step::fail(error),
                Ok(_) => step::go(EnsureDirectory::Opening { path }),
            },
            (EnsureDirectory::Opening { path }, FileReply::Done(done)) => match done {
                Err(error) => step::fail(error),
                Ok(_) => step::go(EnsureDirectory::Setting { path }),
            },
            (EnsureDirectory::Setting { path }, FileReply::Io(done)) => match done {
                Err(error) => step::fail(snapshot_error("无法设置敏感目录权限", error.as_str())),
                Ok(_) => step::go(EnsureDirectory::Confirming { path }),
            },
            (EnsureDirectory::Confirming { path: _ }, FileReply::Done(done)) => match done {
                Err(error) => step::fail(error),
                Ok(_) => step::end(()),
            },
            _ => step::give_up(),
        }
    }
}

/// Begins to make sure that a private directory is there.
pub fn ensure_private_directory(path: &str) -> (operation: EnsureDirectory)
    ensures
        operation matches EnsureDirectory::CheckingChain { path: kept } && kept@ == path@,
{
    EnsureDirectory::CheckingChain { path: path.to_owned() }
}

/// Begins to create a private directory in another one.
pub fn create_private_directory(path: &str) -> (operation: EnsureDirectory)
    ensures
        operation matches EnsureDirectory::CheckingNew { path: kept } && kept@ == path@,
{
    EnsureDirectory::CheckingNew { path: path.to_owned() }
}

/// Writing a private file in place of another: it is written under another name, and
/// moved. Each state names the work that is to be done.
#[derive(Debug)]
pub enum ReplaceFile {
    /// The directory above is to be opened.
    OpeningParent { path: String },
    /// A user's file at the path has to be one that can be replaced.
    CheckingExisting { path: String },
    /// The contents are to be written to a new file with this name beside the path.
    Writing { path: String, temporary: String },
    /// The new file is to be moved to the path.
    Moving { path: String, temporary: String },
    /// The new file is to be removed, whatever comes of it, after this error.
    Removing { temporary: String, error: AppError },
    /// The file at the path has to be the private one.
    Confirming { path: String },
    /// The directory above is to be made durable.
    Syncing { path: String },
}

/// The name of a new file.
pub open spec fn is_temporary_name(name: Seq<char>) -> bool {
    exists|id: Seq<char>|
        outside::uuid_form(id) == Some(id) && name == #[trigger] (".bnetswitchlite-"@ + id
            + ".tmp"@)
}

/// The name of a new file.
pub fn temporary_name() -> (name: String)
    ensures
        is_temporary_name(name@),
{
    let id = outside::new_id();
    text::joined3(".bnetswitchlite-", id.as_str(), ".tmp")
}

impl ReplaceFile {
    /// Whether the answer leads to the step.
    pub open spec fn leads_to(self, reply: FileReply, step: Step<ReplaceFile, ()>) -> bool {
        match (self, reply) {
            (ReplaceFile::OpeningParent { path }, FileReply::Done(done)) => step@ == (match done {
                Err(error) => step::failing::<ReplaceFile, ()>(error@),
                Ok(_) => step::going(ReplaceFile::CheckingExisting { path }),
            }),
            (ReplaceFile::CheckingExisting { path }, FileReply::Done(done)) => match done {
                Err(error) => step@ == step::failing::<ReplaceFile, ()>(error@),
                Ok(_) => {
                    &&& step matches Step::Perform {
                        operation: ReplaceFile::Writing { path: kept, temporary },
                        report: None,
                    }
                    &&& kept == path
                    &&& is_temporary_name(temporary@)
                },
            },
            (ReplaceFile::Writing { path, temporary }, FileReply::Done(done)) => step@ == (
            match done {
                Err(error) => step::failing::<ReplaceFile, ()>(error@),
                Ok(_) => step::going(ReplaceFile::Moving { path, temporary }),
            }),
            (ReplaceFile::Moving { path, temporary }, FileReply::Io(done)) => match done {
                Err(error) => {
                    &&& step matches Step::Perform {
                        operation: ReplaceFile::Removing { temporary: kept, error: failure },
                        report: None,
                    }
                    &&& kept == temporary
                    &&& failure@ == io_error("无法原子发布敏感文件"@, error@)
                },
                Ok(_) => step@ == step::going::<ReplaceFile, ()>(ReplaceFile::Confirming { path }),
            },
            (ReplaceFile::Removing { error, .. }, FileReply::Done(_)) => step@ == step::failing::<
                ReplaceFile,
                (),
            >(error@),
            (ReplaceFile::Confirming { path }, FileReply::Done(done)) => step@ == (match done {
                Err(error) => step::failing::<ReplaceFile, ()>(error@),
                Ok(_) => step::going(ReplaceFile::Syncing { path }),
            }),
            (ReplaceFile::Syncing { .. }, FileReply::Done(done)) => step@ == (match done {
                Err(error) => step::failing::<ReplaceFile, ()>(error@),
                Ok(_) => step::ending(()),
            }),
            _ => step@ == step::confused::<ReplaceFile, ()>(),
        }
    }

    /// Takes the answer.
    pub fn resume(self, reply: FileReply) -> (step: Step<ReplaceFile, ()>)
        ensures
            self.leads_to(reply, step),
    {
        match (self, reply) {
            (ReplaceFile::OpeningParent { path }, FileReply::Done(done)) => match done {
                Err(error) => step::fail(error),
                Ok(_) => step::go(ReplaceFile::CheckingExisting { path }),
            },
            (ReplaceFile::CheckingExisting { path }, FileReply::Done(done)) => match done {
                Err(error) => step::fail(error),
                Ok(_) => step::go(ReplaceFile::Writing { path, temporary: temporary_name() }),
            },
            (ReplaceFile::Writing { path, temporary }, FileReply::Done(done)) => match done {
                Err(error) => step::fail(error),
                Ok(_) => step::go(ReplaceFile::Moving { path, temporary }),
            },
            (ReplaceFile::Moving { path, temporary }, FileReply::Io(done)) => match done {
                Err(error) => step::go(
                    ReplaceFile::Removing {
                        temporary,
                        error: snapshot_error("无法原子发布敏感文件", error.as_str()),
                    },
                ),
                Ok(_) => step::go(ReplaceFile::Confirming { path }),
            },
            (ReplaceFile::Removing { temporary: _, error }, FileReply::Done(_)) => step::fail(error),
            (ReplaceFile::Confirming { path }, FileReply::Done(done)) => match done {
                Err(error) => step::fail(error),
                Ok(_) => step::go(ReplaceFile::Syncing { path }),
            },
            (ReplaceFile::Syncing { path: _ }, FileReply::Done(done)) => match done {
                Err(error) => step::fail(error),
                Ok(_) => step::end(()),
            },
            _ => step::give_up(),
        }
    }
}

/// Begins to write a private file in place of another.
pub fn write_private_file_replace(path: &str) -> (operation: ReplaceFile)
    ensures
        operation matches ReplaceFile::OpeningParent { path: kept } && kept@ == path@,
{
    ReplaceFile::OpeningParent { path: path.to_owned() }
}

/// A file takes the place of another only after it was completely written under another
/// name.
pub proof fn law_file_is_moved_only_after_it_was_written(
    operation: ReplaceFile,
    reply: FileReply,
    step: Step<ReplaceFile, ()>,
)
    requires
        operation.leads_to(reply, step),
        step matches Step::Perform { operation: ReplaceFile::Moving { .. }, .. },
    ensures
        operation is Writing,
        reply matches FileReply::Done(Ok(_)),
{
}

/// Writing a user's file in place of another: it is written under another name with its
/// permissions, and moved. Each state names the work that is to be done.
#[derive(Debug)]
pub enum ReplaceUserFile {
    /// The path has to lead through no link.
    CheckingChain { path: String, mode: u32 },
    /// The directory above is to be opened.
    OpeningParent { path: String, mode: u32 },
    /// A file at the path has to be one of the user's.
    CheckingExisting { path: String, mode: u32 },
    /// A new file with this name is to be created beside the path.
    Creating { path: String, temporary: String, mode: u32 },
    /// The new file's permissions are to be set.
    Setting { path: String, temporary: String, mode: u32 },
    /// The new file has to be one of the user's with the permissions.
    Checking { path: String, temporary: String, mode: u32 },
    /// The contents are to be written.
    Writing { path: String, temporary: String, mode: u32 },
    /// The new file is to be moved to the path.
    Moving { path: String, temporary: String, mode: u32 },
    /// The new file is to be removed, whatever comes of it, after this error.
    Removing { temporary: String, error: AppError },
    /// The file at the path has to be the new one.
    Confirming { path: String, mode: u32 },
    /// The directory above is to be made durable.
    Syncing { path: String },
}

impl ReplaceUserFile {
    /// Whether the answer leads to the step.
    pub open spec fn leads_to(self, reply: FileReply, step: Step<ReplaceUserFile, ()>) -> bool {
        match (self, reply) {
            (ReplaceUserFile::CheckingChain { path, mode }, FileReply::Done(done)) => step@ == (
            match done {
                Err(error) => step::failing::<ReplaceUserFile, ()>(error@),
                Ok(_) => step::going(ReplaceUserFile::OpeningParent { path, mode }),
            }),
            (ReplaceUserFile::OpeningParent { path, mode }, FileReply::Done(done)) => step@ == (
            match done {
                Err(error) => step::failing::<ReplaceUserFile, ()>(error@),
                Ok(_) => step::going(ReplaceUserFile::CheckingExisting { path, mode }),
            }),
            (ReplaceUserFile::CheckingExisting { path, mode }, FileReply::Done(done)) => match done {
                Err(error) => step@ == step::failing::<ReplaceUserFile, ()>(error@),
                Ok(_) => {
                    &&& step matches Step::Perform {
                        operation: ReplaceUserFile::Creating {
                            path: kept,
                            temporary,
                            mode: narrowed,
                        },
                        report: None,
                    }
                    &&& kept == path
                    &&& is_temporary_name(temporary@)
                    &&& narrowed == permissions(mode)
                },
            },
            (ReplaceUserFile::Creating { path, temporary, mode }, FileReply::Done(done)) => step@
                == (match done {
                Err(error) => step::failing::<ReplaceUserFile, ()>(error@),
                Ok(_) => step::going(ReplaceUserFile::Setting { path, temporary, mode }),
            }),
            (ReplaceUserFile::Setting { path, temporary, mode }, FileReply::Io(done)) => step@ == (
            match done {
                Err(error) => step::failing::<ReplaceUserFile, ()>(
                    io_error("无法设置配置暂存文件权限"@, error@),
                ),
                Ok(_) => step::going(ReplaceUserFile::Checking { path, temporary, mode }),
            }),
            (ReplaceUserFile::Checking { path, temporary, mode }, FileReply::Done(done)) => step@
                == (match done {
                Err(error) => step::failing::<ReplaceUserFile, ()>(error@),
                Ok(_) => step::going(ReplaceUserFile::Writing { path, temporary, mode }),
            }),
            (ReplaceUserFile::Writing { path, temporary, mode }, FileReply::Io(done)) => match done {
                Err(error) => {
                    &&& step matches Step::Perform {
                        operation: ReplaceUserFile::Removing { temporary: kept, error: failure },
                        report: None,
                    }
                    &&& kept == temporary
                    &&& failure@ == io_error("无法持久化配置暂存文件"@, error@)
                },
                Ok(_) => step@ == step::going::<ReplaceUserFile, ()>(
                    ReplaceUserFile::Moving { path, temporary, mode },
                ),
            },
            (ReplaceUserFile::Moving { path, temporary, mode }, FileReply::Io(done)) => match done {
                Err(error) => {
                    &&& step matches Step::Perform {
                        operation: ReplaceUserFile::Removing { temporary: kept, error: failure },
                        report: None,
                    }
                    &&& kept == temporary
                    &&& failure@ == io_error("无法原子发布配置文件"@, error@)
                },
                Ok(_) => step@ == step::going::<ReplaceUserFile, ()>(
                    ReplaceUserFile::Confirming { path, mode },
                ),
            },
            (ReplaceUserFile::Removing { error, .. }, FileReply::Io(_)) => step@ == step::failing::<
                ReplaceUserFile,
                (),
            >(error@),
            (ReplaceUserFile::Confirming { path, mode }, FileReply::Done(done)) => step@ == (
            match done {
                Err(error) => step::failing::<ReplaceUserFile, ()>(error@),
                Ok(_) => step::going(ReplaceUserFile::Syncing { path }),
            }),
            (ReplaceUserFile::Syncing { .. }, FileReply::Done(done)) => step@ == (match done {
                Err(error) => step::failing::<ReplaceUserFile, ()>(error@),
                Ok(_) => step::ending(()),
            }),
            _ => step@ == step::confused::<ReplaceUserFile, ()>(),
        }
    }

    /// Takes the answer.
    pub fn resume(self, reply: FileReply) -> (step: Step<ReplaceUserFile, ()>)
        ensures
            self.leads_to(reply, step),
    {
        match (self, reply) {
            (ReplaceUserFile::CheckingChain { path, mode }, FileReply::Done(done)) => match done {
                Err(error) => step::fail(error),
                Ok(_) => step::go(ReplaceUserFile::OpeningParent { path, mode }),
            },
            (ReplaceUserFile::OpeningParent { path, mode }, FileReply::Done(done)) => match done {
                Err(error) => step::fail(error),
                Ok(_) => step::go(ReplaceUserFile::CheckingExisting { path, mode }),
            },
            (ReplaceUserFile::CheckingExisting { path, mode }, FileReply::Done(done)) => match done {
                Err(error) => step::fail(error),
                Ok(_) => step::go(
                    ReplaceUserFile::Creating {
                        path,
                        temporary: temporary_name(),
                        mode: permission_mode(mode),
                    },
                ),
            },
            (ReplaceUserFile::Creating { path, temporary, mode }, FileReply::Done(done)) =>
                match done {
                    Err(error) => step::fail(error),
                    Ok(_) => step::go(ReplaceUserFile::Setting { path, temporary, mode }),
                },
            (ReplaceUserFile::Setting { path, temporary, mode }, FileReply::Io(done)) => match done {
                Err(error) => step::fail(
                    snapshot_error("无法设置配置暂存文件权限", error.as_str()),
                ),
                Ok(_) => step::go(ReplaceUserFile::Checking { path, temporary, mode }),
            },
            (ReplaceUserFile::Checking { path, temporary, mode }, FileReply::Done(done)) =>
                match done {
                    Err(error) => step::fail(error),
                    Ok(_) => step::go(ReplaceUserFile::Writing { path, temporary, mode }),
                },
            (ReplaceUserFile::Writing { path, temporary, mode }, FileReply::Io(done)) => match done {
                Err(error) => step::go(
                    ReplaceUserFile::Removing {
                        temporary,
                        error: snapshot_error("无法持久化配置暂存文件", error.as_str()),
                    },
                ),
                Ok(_) => step::go(ReplaceUserFile::Moving { path, temporary, mode }),
            },
            (ReplaceUserFile::Moving { path, temporary, mode }, FileReply::Io(done)) => match done {
                Err(error) => step::go(
                    ReplaceUserFile::Removing {
                        temporary,
                        error: snapshot_error("无法原子发布配置文件", error.as_str()),
                    },
                ),
                Ok(_) => step::go(ReplaceUserFile::Confirming { path, mode }),
            },
            (ReplaceUserFile::Removing { temporary: _, error }, FileReply::Io(_)) => step::fail(
                error,
            ),
            (ReplaceUserFile::Confirming { path, mode: _ }, FileReply::Done(done)) => match done {
                Err(error) => step::fail(error),
                Ok(_) => step::go(ReplaceUserFile::Syncing { path }),
            },
            (ReplaceUserFile::Syncing { path: _ }, FileReply::Done(done)) => match done {
                Err(error) => step::fail(error),
                Ok(_) => step::end(()),
            },
            _ => step::give_up(),
        }
    }
}

/// Begins to write a user's file in place of another.
pub fn write_user_file_replace(path: &str, mode: u32) -> (operation: ReplaceUserFile)
    ensures
        operation matches ReplaceUserFile::CheckingChain { path: kept, mode: given } && kept@
            == path@ && given == mode,
{
    ReplaceUserFile::CheckingChain { path: path.to_owned(), mode }
}

/// Moving a private directory within the directory above it. Each state names the work
/// that is to be done.
#[derive(Debug)]
pub enum MoveDirectory {
    /// The directory has to be a private one.
    CheckingSource { source: String, destination: String },
    /// The directory above is to be opened.
    OpeningParent { source: String, destination: String },
    /// The destination has to lead through no link.
    CheckingChain { source: String, destination: String },
    /// The destination is to be looked at.
    Looking { source: String, destination: String },
    /// The directory is to be moved.
    Moving { source: String, destination: String },
    /// The destination has to be a private directory.
    Confirming { destination: String },
    /// The directory above is to be made durable.
    Syncing { destination: String },
}

/// Whether both paths lie in the same directory: they have the same parts but for the
/// last.
pub open spec fn in_same_directory(source: Seq<char>, destination: Seq<char>) -> bool {
    &&& unix_path::absolute(source) == unix_path::absolute(destination)
    &&& unix_path::parts(source).len() == unix_path::parts(destination).len()
    &&& unix_path::parts(source).len() > 0 ==> unix_path::parts(source).drop_last()
        == unix_path::parts(destination).drop_last()
}

fn have_same_directory(source: &str, destination: &str) -> (yes: bool)
    ensures
        yes == in_same_directory(source@, destination@),
{
    let left = unix_path::parts_of(source);
    let right = unix_path::parts_of(destination);
    let ghost first = unix_path::texts(left@);
    let ghost second = unix_path::texts(right@);
    if unix_path::is_absolute(source) != unix_path::is_absolute(destination) || left.len()
        != right.len() {
        assert(first.len() == left.len() && second.len() == right.len());
        return false;
    }
    let mut i: usize = 0;
    while i + 1 < left.len()
        invariant
            left.len() == right.len(),
            i <= left.len(),
            left.len() > 0 ==> i < left.len(),
            first == unix_path::texts(left@),
            second == unix_path::texts(right@),
            first == unix_path::parts(source@),
            second == unix_path::parts(destination@),
            forall|j: int| 0 <= j < i ==> first[j] == second[j],
        decreases left.len() - i,
    {
        assert(first[i as int] == left@[i as int]@);
        assert(second[i as int] == right@[i as int]@);
        if !text::same_text(left[i].as_str(), right[i].as_str()) {
            assert(first.drop_last()[i as int] != second.drop_last()[i as int]);
            return false;
        }
        i = i + 1;
    }
    proof {
        if first.len() > 0 {
            assert(first.drop_last() =~= second.drop_last());
        }
    }
    true
}

impl MoveDirectory {
    /// What the answer leads to.
    pub open spec fn next(self, reply: FileReply) -> StepView<MoveDirectory, ()> {
        match (self, reply) {
            (MoveDirectory::CheckingSource { source, destination }, FileReply::Done(done)) =>
                match done {
                    Err(error) => step::failing(error@),
                    Ok(_) => if in_same_directory(source@, destination@) {
                        step::going(MoveDirectory::OpeningParent { source, destination })
                    } else {
                        step::failing(ErrorView::Snapshot("敏感目录只能在同一受保护目录内发布"@))
                    },
                },
            (MoveDirectory::OpeningParent { source, destination }, FileReply::Done(done)) =>
                match done {
                    Err(error) => step::failing(error@),
                    Ok(_) => step::going(MoveDirectory::CheckingChain { source, destination }),
                },
            (MoveDirectory::CheckingChain { source, destination }, FileReply::Done(done)) =>
                match done {
                    Err(error) => step::failing(error@),
                    Ok(_) => step::going(MoveDirectory::Looking { source, destination }),
                },
            (MoveDirectory::Looking { source, destination }, FileReply::Found(found)) =>
                match found {
                    Err(error) => step::failing(
                        io_error("无法读取敏感目录发布目标"@, error@),
                    ),
                    Ok(Some(_)) => step::failing(ErrorView::Snapshot("敏感目录发布目标已存在"@)),
                    Ok(None) => step::going(MoveDirectory::Moving { source, destination }),
                },
            (MoveDirectory::Moving { source, destination }, FileReply::Io(done)) => match done {
                Err(error) => step::failing(io_error("无法原子发布敏感目录"@, error@)),
                Ok(_) => step::going(MoveDirectory::Confirming { destination }),
            },
            (MoveDirectory::Confirming { destination }, FileReply::Done(done)) => match done {
                Err(error) => step::failing(error@),
                Ok(_) => step::going(MoveDirectory::Syncing { destination }),
            },
            (MoveDirectory::Syncing { .. }, FileReply::Done(done)) => match done {
                Err(error) => step::failing(error@),
                Ok(_) => step::ending(()),
            },
            _ => step::confused(),
        }
    }

    /// Takes the answer.
    pub fn resume(self, reply: FileReply) -> (step: Step<MoveDirectory, ()>)
        ensures
            step@ == self.next(reply),
    {
        match (self, reply) {
            (MoveDirectory::CheckingSource { source, destination }, FileReply::Done(done)) =>
                match done {
                    Err(error) => step::fail(error),
                    Ok(_) => if have_same_directory(source.as_str(), destination.as_str()) {
                        step::go(MoveDirectory::OpeningParent { source, destination })
                    } else {
                        step::fail(
                            AppError::Snapshot("敏感目录只能在同一受保护目录内发布".to_owned()),
                        )
                    },
                },
            (MoveDirectory::OpeningParent { source, destination }, FileReply::Done(done)) =>
                match done {
                    Err(error) => step::fail(error),
                    Ok(_) => step::go(MoveDirectory::CheckingChain { source, destination }),
                },
            (MoveDirectory::CheckingChain { source, destination }, FileReply::Done(done)) =>
                match done {
                    Err(error) => step::fail(error),
                    Ok(_) => step::go(MoveDirectory::Looking { source, destination }),
                },
            (MoveDirectory::Looking { source, destination }, FileReply::Found(found)) =>
                match found {
                    Err(error) => step::fail(
                        snapshot_error("无法读取敏感目录发布目标", error.as_str()),
                    ),
                    Ok(Some(_)) => step::fail(
                        AppError::Snapshot("敏感目录发布目标已存在".to_owned()),
                    ),
                    Ok(None) => step::go(MoveDirectory::Moving { source, destination }),
                },
            (MoveDirectory::Moving { source: _, destination }, FileReply::Io(done)) => match done {
                Err(error) => step::fail(snapshot_error("无法原子发布敏感目录", error.as_str())),
                Ok(_) => step::go(MoveDirectory::Confirming { destination }),
            },
            (MoveDirectory::Confirming { destination }, FileReply::Done(done)) => match done {
                Err(error) => step::fail(error),
                Ok(_) => step::go(MoveDirectory::Syncing { destination }),
            },
            (MoveDirectory::Syncing { destination: _ }, FileReply::Done(done)) => match done {
                Err(error) => step::fail(error),
                Ok(_) => step::end(()),
            },
            _ => step::give_up(),
        }
    }
}

/// Begins to move a private directory.
pub fn rename_private_directory(source: &str, destination: &str) -> (operation: MoveDirectory)
    ensures
        operation matches MoveDirectory::CheckingSource { source: from, destination: to } && from@
            == source@ && to@ == destination@,
{
    MoveDirectory::CheckingSource {
        source: source.to_owned(),
        destination: destination.to_owned(),
    }
}

/// A directory is moved only right after nothing was found at its destination.
pub proof fn law_move_never_replaces(operation: MoveDirectory, reply: FileReply)
    ensures
        operation.next(reply) matches StepView::Perform {
            operation: MoveDirectory::Moving { source, destination },
            ..
        } ==> operation == (MoveDirectory::Looking { source, destination }) && (
        reply matches FileReply::Found(Ok(None))),
{
}

/// Removing a private directory: it is moved out of the way and deleted; where that
/// fails it is moved back. Each state names the work that is to be done.
#[derive(Debug)]
pub enum RemoveDirectory {
    /// The path has to lead through no link.
    CheckingChain { path: String },
    /// The path is to be looked at.
    Looking { path: String },
    /// All that is in the directory has to be private.
    CheckingTree { path: String },
    /// The directory above is to be opened.
    OpeningParent { path: String },
    /// The directory is to be given this name.
    Moving { path: String, quarantine: String },
    /// All that is in the directory with this name has to be private.
    CheckingQuarantine { path: String, quarantine: String },
    /// The directory with this name is to be deleted.
    Deleting { path: String, quarantine: String },
    /// The directory with this name is to be moved back.
    Restoring { path: String, quarantine: String, reason: String },
    /// The directory above is to be made durable.
    Syncing { path: String },
}

/// The name of a directory that is being removed.
pub open spec fn is_quarantine_name(name: Seq<char>) -> bool {
    exists|id: Seq<char>|
        outside::uuid_form(id) == Some(id) && name == #[trigger] (".deleting-"@ + id)
}

/// The name of a directory that is being removed.
pub fn quarantine_name() -> (name: String)
    ensures
        is_quarantine_name(name@),
{
    let id = outside::new_id();
    text::joined2(".deleting-", id.as_str())
}

impl RemoveDirectory {
    /// Whether the answer leads to the step.
    pub open spec fn leads_to(self, reply: FileReply, step: Step<RemoveDirectory, ()>) -> bool {
        match (self, reply) {
            (RemoveDirectory::CheckingChain { path }, FileReply::Done(done)) => step@ == (
            match done {
                Err(error) => step::failing::<RemoveDirectory, ()>(error@),
                Ok(_) => step::going(RemoveDirectory::Looking { path }),
            }),
            (RemoveDirectory::Looking { path }, FileReply::Found(found)) => step@ == (match found {
                Err(error) => step::failing::<RemoveDirectory, ()>(
                    io_error("无法读取敏感目录属性"@, error@),
                ),
                Ok(None) => step::ending(()),
                Ok(Some(_)) => step::going(RemoveDirectory::CheckingTree { path }),
            }),
            (RemoveDirectory::CheckingTree { path }, FileReply::Done(done)) => step@ == (
            match done {
                Err(error) => step::failing::<RemoveDirectory, ()>(error@),
                Ok(_) => step::going(RemoveDirectory::OpeningParent { path }),
            }),
            (RemoveDirectory::OpeningParent { path }, FileReply::Done(done)) => match done {
                Err(error) => step@ == step::failing::<RemoveDirectory, ()>(error@),
                Ok(_) => {
                    &&& step matches Step::Perform {
                        operation: RemoveDirectory::Moving { path: kept, quarantine },
                        report: None,
                    }
                    &&& kept == path
                    &&& is_quarantine_name(quarantine@)
                },
            },
            (RemoveDirectory::Moving { path, quarantine }, FileReply::Io(done)) => step@ == (
            match done {
                Err(error) => step::failing::<RemoveDirectory, ()>(
                    io_error("无法隔离待清理敏感目录"@, error@),
                ),
                Ok(_) => step::going(RemoveDirectory::CheckingQuarantine { path, quarantine }),
            }),
            (RemoveDirectory::CheckingQuarantine { path, quarantine }, FileReply::Done(done)) =>
                step@ == (match done {
                    Err(error) => step::failing::<RemoveDirectory, ()>(error@),
                    Ok(_) => step::going(RemoveDirectory::Deleting { path, quarantine }),
                }),
            (RemoveDirectory::Deleting { path, quarantine }, FileReply::Io(done)) => step@ == (
            match done {
                Err(reason) => step::going::<RemoveDirectory, ()>(
                    RemoveDirectory::Restoring { path, quarantine, reason },
                ),
                Ok(_) => step::going(RemoveDirectory::Syncing { path }),
            }),
            (RemoveDirectory::Restoring { reason, .. }, FileReply::Io(done)) => step@ == (
            match done {
                Ok(_) => step::failing::<RemoveDirectory, ()>(
                    io_error("无法清理敏感目录，已恢复原路径"@, reason@),
                ),
                Err(error) => step::failing(
                    ErrorView::Snapshot(
                        "无法清理敏感目录："@ + reason@ + "；无法恢复待清理目录："@ + error@,
                    ),
                ),
            }),
            (RemoveDirectory::Syncing { .. }, FileReply::Io(done)) => step@ == (match done {
                Err(error) => step::failing::<RemoveDirectory, ()>(
                    io_error("无法持久化敏感目录清理"@, error@),
                ),
                Ok(_) => step::ending(()),
            }),
            _ => step@ == step::confused::<RemoveDirectory, ()>(),
        }
    }

    /// Takes the answer.
    pub fn resume(self, reply: FileReply) -> (step: Step<RemoveDirectory, ()>)
        ensures
            self.leads_to(reply, step),
    {
        match (self, reply) {
            (RemoveDirectory::CheckingChain { path }, FileReply::Done(done)) => match done {
                Err(error) => step::fail(error),
                Ok(_) => step::go(RemoveDirectory::Looking { path }),
            },
            (RemoveDirectory::Looking { path }, FileReply::Found(found)) => match found {
                Err(error) => step::fail(snapshot_error("无法读取敏感目录属性", error.as_str())),
                Ok(None) => step::end(()),
                Ok(Some(_)) => step::go(RemoveDirectory::CheckingTree { path }),
            },
            (RemoveDirectory::CheckingTree { path }, FileReply::Done(done)) => match done {
                Err(error) => step::fail(error),
                Ok(_) => step::go(RemoveDirectory::OpeningParent { path }),
            },
            (RemoveDirectory::OpeningParent { path }, FileReply::Done(done)) => match done {
                Err(error) => step::fail(error),
                Ok(_) => step::go(
                    RemoveDirectory::Moving { path, quarantine: quarantine_name() },
                ),
            },
            (RemoveDirectory::Moving { path, quarantine }, FileReply::Io(done)) => match done {
                Err(error) => step::fail(
                    snapshot_error("无法隔离待清理敏感目录", error.as_str()),
                ),
                Ok(_) => step::go(RemoveDirectory::CheckingQuarantine { path, quarantine }),
            },
            (RemoveDirectory::CheckingQuarantine { path, quarantine }, FileReply::Done(done)) =>
                match done {
                    Err(error) => step::fail(error),
                    Ok(_) => step::go(RemoveDirectory::Deleting { path, quarantine }),
                },
            (RemoveDirectory::Deleting { path, quarantine }, FileReply::Io(done)) => match done {
                Err(reason) => step::go(RemoveDirectory::Restoring { path, quarantine, reason }),
                Ok(_) => step::go(RemoveDirectory::Syncing { path }),
            },
            (
                RemoveDirectory::Restoring { path: _, quarantine: _, reason },
                FileReply::Io(done),
            ) => match done {
                Ok(_) => step::fail(
                    snapshot_error("无法清理敏感目录，已恢复原路径", reason.as_str()),
                ),
                Err(error) => step::fail(
                    AppError::Snapshot(
                        text::joined4(
                            "无法清理敏感目录：",
                            reason.as_str(),
                            "；无法恢复待清理目录：",
                            error.as_str(),
                        ),
                    ),
                ),
            },
            (RemoveDirectory::Syncing { path: _ }, FileReply::Io(done)) => match done {
                Err(error) => step::fail(
                    snapshot_error("无法持久化敏感目录清理", error.as_str()),
                ),
                Ok(_) => step::end(()),
            },
            _ => step::give_up(),
        }
    }
}

/// Begins to remove a private directory.
pub fn remove_private_directory(path: &str) -> (operation: RemoveDirectory)
    ensures
        operation matches RemoveDirectory::CheckingChain { path: kept } && kept@ == path@,
{
    RemoveDirectory::CheckingChain { path: path.to_owned() }
}

/// A directory is deleted only right after all in it was found to be private, under a
/// name that no other path has; where deleting it fails it is moved back.
pub proof fn law_only_private_trees_are_deleted(
    operation: RemoveDirectory,
    reply: FileReply,
    step: Step<RemoveDirectory, ()>,
)
    requires
        operation.leads_to(reply, step),
    ensures
        step matches Step::Perform {
            operation: RemoveDirectory::Deleting { path, quarantine },
            ..
        } ==> operation == (RemoveDirectory::CheckingQuarantine { path, quarantine }) && (
        reply matches FileReply::Done(Ok(_))),
        operation matches RemoveDirectory::Deleting { path, quarantine } ==> (
        reply matches FileReply::Io(Err(reason)) ==> step@ == step::going::<RemoveDirectory, ()>(
            RemoveDirectory::Restoring { path, quarantine, reason },
        )),
{
}

/// What was found of an entry of a private directory.
#[derive(Clone, Copy, Debug, PartialEq, Eq, Structural)]
pub enum TreeEntry {
    Link,
    Directory,
    File,
    Other,
}

/// What has to be done with an entry of a private directory.
#[derive(Clone, Copy, Debug, PartialEq, Eq, Structural)]
pub enum TreeCheck {
    /// All in the directory has to be private.
    Descend,
    /// The file has to be a private one.
    OpenFile,
}

/// What has to be done with an entry of a private directory: a link and what is neither
/// a file nor a directory cannot be there.
pub open spec fn tree_check(path: Seq<char>, entry: Result<TreeEntry, String>) -> Result<
    TreeCheck,
    ErrorView,
> {
    match entry {
        Err(error) => Err(io_error("无法读取敏感目录项属性"@, error@)),
        Ok(TreeEntry::Link) => Err(ErrorView::Snapshot("敏感目录包含符号链接："@ + path)),
        Ok(TreeEntry::Directory) => Ok(TreeCheck::Descend),
        Ok(TreeEntry::File) => Ok(TreeCheck::OpenFile),
        Ok(TreeEntry::Other) => Err(
            ErrorView::Snapshot("敏感目录包含不支持的文件类型："@ + path),
        ),
    }
}

/// What has to be done with an entry of a private directory.
pub fn check_tree_entry(path: &str, entry: Result<TreeEntry, String>) -> (check: Result<
    TreeCheck,
    AppError,
>)
    ensures
        match tree_check(path@, entry) {
            Err(error) => check is Err && check->Err_0@ == error,
            Ok(expected) => check == Ok::<TreeCheck, AppError>(expected),
        },
{
    match entry {
        Err(error) => Err(snapshot_error("无法读取敏感目录项属性", error.as_str())),
        Ok(TreeEntry::Link) => Err(
            AppError::Snapshot(text::joined2("敏感目录包含符号链接：", path)),
        ),
        Ok(TreeEntry::Directory) => Ok(TreeCheck::Descend),
        Ok(TreeEntry::File) => Ok(TreeCheck::OpenFile),
        Ok(TreeEntry::Other) => Err(
            AppError::Snapshot(text::joined2("敏感目录包含不支持的文件类型：", path)),
        ),
    }
}

/// Whether a private directory is there; one that is there has to be the user's, and
/// has to open as a private one.
pub fn private_directory_exists(
    path: &str,
    found: Result<Option<EntryFacts>, String>,
    opened: Result<(), AppError>,
) -> (exists: Result<bool, AppError>)
    ensures
        match found {
            Err(error) => exists is Err && exists->Err_0@ == io_error(
                "无法读取敏感目录属性"@,
                error@,
            ),
            Ok(None) => exists == Ok::<bool, AppError>(false),
            Ok(Some(facts)) => match directory_error(path@, facts) {
                Some(error) => exists is Err && exists->Err_0@ == error,
                None => match opened {
                    Err(error) => exists == Err::<bool, AppError>(error),
                    Ok(_) => exists == Ok::<bool, AppError>(true),
                },
            },
        },
{
    match found {
        Err(error) => Err(snapshot_error("无法读取敏感目录属性", error.as_str())),
        Ok(None) => Ok(false),
        Ok(Some(facts)) => match validate_owned_directory_metadata(path, &facts) {
            Err(error) => Err(error),
            Ok(_) => match opened {
                Err(error) => Err(error),
                Ok(_) => Ok(true),
            },
        },
    }
}

impl EnsureDirectory {
    /// How the operation goes on.
    pub open spec fn steps() -> spec_fn(EnsureDirectory, FileReply) -> StepView<
        EnsureDirectory,
        (),
    > {
        |operation: EnsureDirectory, reply: FileReply| operation.next(reply)
    }
}

/// Making sure of a private directory succeeds exactly where its path leads through no
/// link, and a directory of the user's that is there had its permissions narrowed unless
/// they were narrow, and one that is not there was created in its parent, opened and had
/// its permissions set, and where in every case it was then opened as a private one.
pub proof fn law_directory_is_made_private(
    path: String,
    run: Seq<Moment<EnsureDirectory, FileReply>>,
)
    requires
        step::is_run(EnsureDirectory::steps(), EnsureDirectory::CheckingChain { path }, run),
    ensures
        step::result_of(EnsureDirectory::steps(), run) is Ok <==> {
            let facts = run[1].reply->Found_0->Ok_0->0;
            let fresh = run[1].reply->Found_0->Ok_0 is None;
            let n: int = if fresh {
                4
            } else if facts.mode & 0o777 != PRIVATE_DIRECTORY_MODE {
                1
            } else {
                0
            };
            &&& run.len() == 3 + n
            &&& run[0].reply is Done
            &&& run[0].reply->Done_0 is Ok
            &&& run[1].operation == (EnsureDirectory::Looking { path })
            &&& run[1].reply is Found
            &&& run[1].reply->Found_0 is Ok
            &&& !fresh ==> facts.is_directory
            &&& !fresh ==> facts.owner == facts.current_user
            &&& n == 1 ==> run[2].operation == (EnsureDirectory::Narrowing { path })
            &&& n == 1 ==> run[2].reply is Io
            &&& n == 1 ==> run[2].reply->Io_0 is Ok
            &&& fresh ==> {
                &&& run[2].operation == (EnsureDirectory::OpeningParent { path })
                &&& run[2].reply is Done
                &&& run[2].reply->Done_0 is Ok
                &&& run[3].operation == (EnsureDirectory::Creating { path })
                &&& run[3].reply is Done
                &&& run[3].reply->Done_0 is Ok
                &&& run[4].operation == (EnsureDirectory::Opening { path })
                &&& run[4].reply is Done
                &&& run[4].reply->Done_0 is Ok
                &&& run[5].operation == (EnsureDirectory::Setting { path })
                &&& run[5].reply is Io
                &&& run[5].reply->Io_0 is Ok
            }
            &&& run.last().operation == (EnsureDirectory::Confirming { path })
            &&& run.last().reply is Done
            &&& run.last().reply->Done_0 is Ok
        },
        run.len() <= 7,
{
    let steps = EnsureDirectory::steps();
    assert(step::follows(steps, run, 0));
    if run.len() > 1 {
        assert(step::follows(steps, run, 1));
    }
    if run.len() > 2 {
        assert(step::follows(steps, run, 2));
    }
    if run.len() > 3 {
        assert(step::follows(steps, run, 3));
    }
    if run.len() > 4 {
        assert(step::follows(steps, run, 4));
    }
    if run.len() > 5 {
        assert(step::follows(steps, run, 5));
    }
    if run.len() > 6 {
        assert(step::follows(steps, run, 6));
    }
}

/// Creating a private directory succeeds exactly where its path leads through no link, the
/// directory above is private, it was created and opened, its permissions were set, and it
/// was then opened as a private one.
pub proof fn law_new_directory_is_created_private(
    path: String,
    run: Seq<Moment<EnsureDirectory, FileReply>>,
)
    requires
        step::is_run(EnsureDirectory::steps(), EnsureDirectory::CheckingNew { path }, run),
    ensures
        step::result_of(EnsureDirectory::steps(), run) is Ok <==> {
            &&& run.len() == 6
            &&& run[0].reply is Done
            &&& run[0].reply->Done_0 is Ok
            &&& run[1].operation == (EnsureDirectory::OpeningPrivateParent { path })
            &&& run[1].reply is Done
            &&& run[1].reply->Done_0 is Ok
            &&& run[2].operation == (EnsureDirectory::Creating { path })
            &&& run[2].reply is Done
            &&& run[2].reply->Done_0 is Ok
            &&& run[3].operation == (EnsureDirectory::Opening { path })
            &&& run[3].reply is Done
            &&& run[3].reply->Done_0 is Ok
            &&& run[4].operation == (EnsureDirectory::Setting { path })
            &&& run[4].reply is Io
            &&& run[4].reply->Io_0 is Ok
            &&& run[5].operation == (EnsureDirectory::Confirming { path })
            &&& run[5].reply is Done
            &&& run[5].reply->Done_0 is Ok
        },
        run.len() <= 6,
{
    let steps = EnsureDirectory::steps();
    assert(step::follows(steps, run, 0));
    if run.len() > 1 {
        assert(step::follows(steps, run, 1));
    }
    if run.len() > 2 {
        assert(step::follows(steps, run, 2));
    }
    if run.len() > 3 {
        assert(step::follows(steps, run, 3));
    }
    if run.len() > 4 {
        assert(step::follows(steps, run, 4));
    }
    if run.len() > 5 {
        assert(step::follows(steps, run, 5));
    }
}

impl ReplaceFile {
    /// How the operation may go on.
    pub open spec fn leads() -> spec_fn(ReplaceFile, FileReply, Step<ReplaceFile, ()>) -> bool {
        |operation: ReplaceFile, reply: FileReply, step: Step<ReplaceFile, ()>|
            operation.leads_to(reply, step)
    }
}

/// Replacing a private file succeeds exactly where the directory above was opened, a file
/// that is there can be replaced, the contents were written to a new file, that file was
/// moved to the path, the file at the path is a private one, and the directory above was
/// made durable. Where moving fails the new file is removed, and the replacement ends in
/// an error.
pub proof fn law_file_is_written_beside_and_moved_over(
    path: String,
    run: Seq<Taken<ReplaceFile, FileReply, ()>>,
)
    requires
        step::is_taken_run(ReplaceFile::leads(), ReplaceFile::OpeningParent { path }, run),
    ensures
        step::taken_result(run) is Ok <==> {
            let temporary = run[2].operation->Writing_temporary;
            &&& run.len() == 6
            &&& run[0].reply is Done
            &&& run[0].reply->Done_0 is Ok
            &&& run[1].operation == (ReplaceFile::CheckingExisting { path })
            &&& run[1].reply is Done
            &&& run[1].reply->Done_0 is Ok
            &&& run[2].operation is Writing
            &&& run[2].operation->Writing_path == path
            &&& run[2].reply is Done
            &&& run[2].reply->Done_0 is Ok
            &&& run[3].operation == (ReplaceFile::Moving { path, temporary })
            &&& run[3].reply is Io
            &&& run[3].reply->Io_0 is Ok
            &&& run[4].operation == (ReplaceFile::Confirming { path })
            &&& run[4].reply is Done
            &&& run[4].reply->Done_0 is Ok
            &&& run[5].operation == (ReplaceFile::Syncing { path })
            &&& run[5].reply is Done
            &&& run[5].reply->Done_0 is Ok
        },
        run.len() > 3 && run[3].reply is Io && run[3].reply->Io_0 is Err ==> {
            &&& run.len() == 5
            &&& run[4].operation is Removing
            &&& run[4].operation->Removing_temporary == run[2].operation->Writing_temporary
            &&& step::taken_result(run) is Err
        },
        run.len() <= 6,
{
    let steps = ReplaceFile::leads();
    assert(step::goes_on(steps, run, 0));
    if run.len() > 1 {
        assert(step::goes_on(steps, run, 1));
    }
    if run.len() > 2 {
        assert(step::goes_on(steps, run, 2));
    }
    if run.len() > 3 {
        assert(step::goes_on(steps, run, 3));
    }
    if run.len() > 4 {
        assert(step::goes_on(steps, run, 4));
    }
    if run.len() > 5 {
        assert(step::goes_on(steps, run, 5));
    }
}

impl ReplaceUserFile {
    /// How the operation may go on.
    pub open spec fn leads() -> spec_fn(ReplaceUserFile, FileReply, Step<ReplaceUserFile, ()>) -> bool {
        |operation: ReplaceUserFile, reply: FileReply, step: Step<ReplaceUserFile, ()>|
            operation.leads_to(reply, step)
    }
}

/// Replacing a file of the user's succeeds exactly where its path leads through no link,
/// the directory above was opened, a file that is there is the user's, a new file was
/// created, given the permissions, found to be the user's with them, and written, it was
/// moved to the path, the file at the path is the new one, and the directory above was
/// made durable. Where writing or moving fails the new file is removed, and the
/// replacement ends in an error.
pub proof fn law_user_file_is_written_beside_and_moved_over(
    path: String,
    mode: u32,
    run: Seq<Taken<ReplaceUserFile, FileReply, ()>>,
)
    requires
        step::is_taken_run(ReplaceUserFile::leads(), ReplaceUserFile::CheckingChain { path, mode }, run),
    ensures
        step::taken_result(run) is Ok <==> {
            let temporary = run[3].operation->Creating_temporary;
            let narrowed = run[3].operation->Creating_mode;
            &&& run.len() == 10
            &&& run[0].reply is Done
            &&& run[0].reply->Done_0 is Ok
            &&& run[1].operation == (ReplaceUserFile::OpeningParent { path, mode })
            &&& run[1].reply is Done
            &&& run[1].reply->Done_0 is Ok
            &&& run[2].operation == (ReplaceUserFile::CheckingExisting { path, mode })
            &&& run[2].reply is Done
            &&& run[2].reply->Done_0 is Ok
            &&& run[3].operation is Creating
            &&& run[3].operation->Creating_path == path
            &&& run[3].operation->Creating_mode == mode & 0o777
            &&& run[3].reply is Done
            &&& run[3].reply->Done_0 is Ok
            &&& run[4].operation == (ReplaceUserFile::Setting { path, temporary, mode: narrowed })
            &&& run[4].reply is Io
            &&& run[4].reply->Io_0 is Ok
            &&& run[5].operation == (ReplaceUserFile::Checking { path, temporary, mode: narrowed })
            &&& run[5].reply is Done
            &&& run[5].reply->Done_0 is Ok
            &&& run[6].operation == (ReplaceUserFile::Writing { path, temporary, mode: narrowed })
            &&& run[6].reply is Io
            &&& run[6].reply->Io_0 is Ok
            &&& run[7].operation == (ReplaceUserFile::Moving { path, temporary, mode: narrowed })
            &&& run[7].reply is Io
            &&& run[7].reply->Io_0 is Ok
            &&& run[8].operation == (ReplaceUserFile::Confirming { path, mode: narrowed })
            &&& run[8].reply is Done
            &&& run[8].reply->Done_0 is Ok
            &&& run[9].operation == (ReplaceUserFile::Syncing { path })
            &&& run[9].reply is Done
            &&& run[9].reply->Done_0 is Ok
        },
        forall|i: int|
            6 <= i <= 7 && i < run.len() && (#[trigger] run[i]).reply is Io && run[i].reply->Io_0 is Err
                && !(run[i].operation is Removing) ==> {
                &&& i + 2 == run.len()
                &&& run[i + 1].operation is Removing
                &&& run[i + 1].operation->Removing_temporary == run[3].operation->Creating_temporary
                &&& step::taken_result(run) is Err
            },
        run.len() <= 10,
{
    let steps = ReplaceUserFile::leads();
    assert(step::goes_on(steps, run, 0));
    if run.len() > 1 {
        assert(step::goes_on(steps, run, 1));
    }
    if run.len() > 2 {
        assert(step::goes_on(steps, run, 2));
    }
    if run.len() > 3 {
        assert(step::goes_on(steps, run, 3));
    }
    if run.len() > 4 {
        assert(step::goes_on(steps, run, 4));
    }
    if run.len() > 5 {
        assert(step::goes_on(steps, run, 5));
    }
    if run.len() > 6 {
        assert(step::goes_on(steps, run, 6));
    }
    if run.len() > 7 {
        assert(step::goes_on(steps, run, 7));
    }
    if run.len() > 8 {
        assert(step::goes_on(steps, run, 8));
    }
    if run.len() > 9 {
        assert(step::goes_on(steps, run, 9));
    }
}

impl MoveDirectory {
    /// How the operation goes on.
    pub open spec fn steps() -> spec_fn(MoveDirectory, FileReply) -> StepView<
        MoveDirectory,
        (),
    > {
        |operation: MoveDirectory, reply: FileReply| operation.next(reply)
    }
}

/// Moving a directory succeeds exactly where it is private, source and destination stand
/// in the same directory, which was opened, the path of the destination leads through no
/// link and nothing is there, the directory was moved, it is then a private one, and the
/// directory above was made durable.
pub proof fn law_directory_is_moved_to_a_free_place(
    source: String,
    destination: String,
    run: Seq<Moment<MoveDirectory, FileReply>>,
)
    requires
        step::is_run(MoveDirectory::steps(), MoveDirectory::CheckingSource { source, destination }, run),
    ensures
        step::result_of(MoveDirectory::steps(), run) is Ok <==> {
            &&& run.len() == 7
            &&& run[0].reply is Done
            &&& run[0].reply->Done_0 is Ok
            &&& in_same_directory(source@, destination@)
            &&& run[1].operation == (MoveDirectory::OpeningParent { source, destination })
            &&& run[1].reply is Done
            &&& run[1].reply->Done_0 is Ok
            &&& run[2].operation == (MoveDirectory::CheckingChain { source, destination })
            &&& run[2].reply is Done
            &&& run[2].reply->Done_0 is Ok
            &&& run[3].operation == (MoveDirectory::Looking { source, destination })
            &&& run[3].reply == FileReply::Found(Ok(None))
            &&& run[4].operation == (MoveDirectory::Moving { source, destination })
            &&& run[4].reply is Io
            &&& run[4].reply->Io_0 is Ok
            &&& run[5].operation == (MoveDirectory::Confirming { destination })
            &&& run[5].reply is Done
            &&& run[5].reply->Done_0 is Ok
            &&& run[6].operation == (MoveDirectory::Syncing { destination })
            &&& run[6].reply is Done
            &&& run[6].reply->Done_0 is Ok
        },
        run.len() <= 7,
{
    let steps = MoveDirectory::steps();
    assert(step::follows(steps, run, 0));
    if run.len() > 1 {
        assert(step::follows(steps, run, 1));
    }
    if run.len() > 2 {
        assert(step::follows(steps, run, 2));
    }
    if run.len() > 3 {
        assert(step::follows(steps, run, 3));
    }
    if run.len() > 4 {
        assert(step::follows(steps, run, 4));
    }
    if run.len() > 5 {
        assert(step::follows(steps, run, 5));
    }
    if run.len() > 6 {
        assert(step::follows(steps, run, 6));
    }
}

impl RemoveDirectory {
    /// How the operation may go on.
    pub open spec fn leads() -> spec_fn(RemoveDirectory, FileReply, Step<RemoveDirectory, ()>) -> bool {
        |operation: RemoveDirectory, reply: FileReply, step: Step<RemoveDirectory, ()>|
            operation.leads_to(reply, step)
    }
}

/// Removing a directory succeeds exactly where its path leads through no link, and nothing
/// is there, or all in it is private, it was put aside, all in it is still private, it was
/// deleted, and the directory above was made durable. Where deleting fails it is moved
/// back, and the removal ends in an error.
pub proof fn law_directory_is_put_aside_and_deleted(
    path: String,
    run: Seq<Taken<RemoveDirectory, FileReply, ()>>,
)
    requires
        step::is_taken_run(RemoveDirectory::leads(), RemoveDirectory::CheckingChain { path }, run),
    ensures
        step::taken_result(run) is Ok <==> {
            &&& run.len() == 2 || run.len() == 8
            &&& run[0].reply is Done
            &&& run[0].reply->Done_0 is Ok
            &&& run[1].operation == (RemoveDirectory::Looking { path })
            &&& run[1].reply is Found
            &&& run[1].reply->Found_0 is Ok
            &&& run[1].reply->Found_0->Ok_0 is None <==> run.len() == 2
            &&& run.len() == 8 ==> {
                let quarantine = run[4].operation->Moving_quarantine;
                &&& run[2].operation == (RemoveDirectory::CheckingTree { path })
                &&& run[2].reply is Done
                &&& run[2].reply->Done_0 is Ok
                &&& run[3].operation == (RemoveDirectory::OpeningParent { path })
                &&& run[3].reply is Done
                &&& run[3].reply->Done_0 is Ok
                &&& run[4].operation == (RemoveDirectory::Moving { path, quarantine })
                &&& run[4].reply is Io
                &&& run[4].reply->Io_0 is Ok
                &&& run[5].operation == (RemoveDirectory::CheckingQuarantine { path, quarantine })
                &&& run[5].reply is Done
                &&& run[5].reply->Done_0 is Ok
                &&& run[6].operation == (RemoveDirectory::Deleting { path, quarantine })
                &&& run[6].reply is Io
                &&& run[6].reply->Io_0 is Ok
                &&& run[7].operation == (RemoveDirectory::Syncing { path })
                &&& run[7].reply is Io
                &&& run[7].reply->Io_0 is Ok
            }
        },
        run.len() > 6 && run[6].reply is Io && run[6].reply->Io_0 is Err ==> {
            &&& run.len() == 8
            &&& run[7].operation is Restoring
            &&& run[7].operation->Restoring_path == path
            &&& run[7].operation->Restoring_quarantine == run[4].operation->Moving_quarantine
            &&& step::taken_result(run) is Err
        },
        run.len() <= 9,
{
    let steps = RemoveDirectory::leads();
    assert(step::goes_on(steps, run, 0));
    if run.len() > 1 {
        assert(step::goes_on(steps, run, 1));
    }
    if run.len() > 2 {
        assert(step::goes_on(steps, run, 2));
    }
    if run.len() > 3 {
        assert(step::goes_on(steps, run, 3));
    }
    if run.len() > 4 {
        assert(step::goes_on(steps, run, 4));
    }
    if run.len() > 5 {
        assert(step::goes_on(steps, run, 5));
    }
    if run.len() > 6 {
        assert(step::goes_on(steps, run, 6));
    }
    if run.len() > 7 {
        assert(step::goes_on(steps, run, 7));
    }
    if run.len() > 8 {
        assert(step::goes_on(steps, run, 8));
    }
}

} // verus!
