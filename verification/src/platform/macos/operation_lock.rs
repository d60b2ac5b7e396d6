//! The lock that keeps two operations apart on macOS: a file of the user's that nobody
//! else can use.

use vstd::prelude::*;

use crate::error::AppError;
use crate::error::ErrorView;
use crate::platform::macos::unix_path;
use crate::step::Moment;
use crate::step;
use crate::step::Step;
use crate::step::StepView;
use crate::text;

verus! {

/// The permissions of the lock's file.
pub const LOCK_MODE: u32 = 0o600;

/// What was found of the lock's file.
#[derive(Clone, Copy, Debug, PartialEq, Eq, Structural)]
pub struct LockFacts {
    pub is_file: bool,
    pub owner: u32,
    pub current_user: u32,
    pub links: u64,
    pub mode: u32,
}

/// Whether the file is one of the user's that has no other name.
pub open spec fn is_own(facts: LockFacts) -> bool {
    facts.is_file && facts.owner == facts.current_user && facts.links == 1
}

/// Whether the file is one of the user's that nobody else can use.
pub open spec fn is_private(facts: LockFacts) -> bool {
    is_own(facts) && facts.mode & 0o777 == LOCK_MODE
}

/// Why the file cannot be the lock's; `private` says whether nobody else may use it.
pub open spec fn lock_error(
    path: Seq<char>,
    facts: Result<LockFacts, String>,
    private: bool,
) -> Option<ErrorView> {
    match facts {
        Err(error) => Some(
            ErrorView::DataStorage("无法读取操作锁属性 "@ + path + "："@ + error@),
        ),
        Ok(facts) => if private && !is_private(facts) {
            Some(
                ErrorView::DataStorage(
                    "操作锁必须是当前用户独占拥有且权限为 0600 的普通文件："@ + path,
                ),
            )
        } else if !private && !is_own(facts) {
            Some(ErrorView::DataStorage("操作锁必须是当前用户独占拥有的普通文件："@ + path))
        } else {
            None
        },
    }
}

/// Checks that the file is one of the user's that has no other name.
pub fn validate_lock_identity(path: &str, facts: Result<LockFacts, String>) -> (result: Result<
    (),
    AppError,
>)
    ensures
        match result {
            Ok(_) => lock_error(path@, facts, false) is None,
            Err(error) => lock_error(path@, facts, false) == Some(error@),
        },
{
    match facts {
        Err(error) => Err(
            AppError::DataStorage(
                text::joined4("无法读取操作锁属性 ", path, "：", error.as_str()),
            ),
        ),
        Ok(facts) => if facts.is_file && facts.owner == facts.current_user && facts.links == 1 {
            Ok(())
        } else {
            Err(
                AppError::DataStorage(
                    text::joined2("操作锁必须是当前用户独占拥有的普通文件：", path),
                ),
            )
        },
    }
}

/// Checks that the file is one of the user's that nobody else can use.
pub fn validate_lock_handle(path: &str, facts: Result<LockFacts, String>) -> (result: Result<
    (),
    AppError,
>)
    ensures
        match result {
            Ok(_) => lock_error(path@, facts, true) is None,
            Err(error) => lock_error(path@, facts, true) == Some(error@),
        },
{
    match facts {
        Err(error) => Err(
            AppError::DataStorage(
                text::joined4("无法读取操作锁属性 ", path, "：", error.as_str()),
            ),
        ),
        Ok(facts) => if facts.is_file && facts.owner == facts.current_user && facts.links == 1
            && facts.mode & 0o777 == LOCK_MODE {
            Ok(())
        } else {
            Err(
                AppError::DataStorage(
                    text::joined2("操作锁必须是当前用户独占拥有且权限为 0600 的普通文件：", path),
                ),
            )
        },
    }
}

/// The file of the lock in the application's directory.
pub fn lock_path(data_directory: &str) -> (path: String)
    ensures
        path@ == unix_path::adjoined(data_directory@, ".operation.lock"@),
{
    unix_path::join(data_directory, ".operation.lock")
}

/// Taking the lock. Each state names the work that is to be done.
#[derive(Debug)]
pub enum AcquireGuard {
    /// The file is to be opened, or created for the user alone.
    Opening { path: String },
    /// The file is to be looked at.
    CheckingIdentity { path: String },
    /// The file's permissions are to be narrowed.
    Narrowing { path: String },
    /// The file is to be looked at again.
    CheckingHandle { path: String },
    /// The lock is to be tried.
    Trying,
}

/// What came of the work for [`AcquireGuard`].
#[derive(Debug)]
pub enum LockReply {
    Done(Result<(), String>),
    Facts(Result<LockFacts, String>),
    Taken,
    /// Somebody else holds the lock; how long it was tried.
    Busy { elapsed_ms: u64 },
    Failed(String),
}

impl AcquireGuard {
    /// What the answer leads to.
    pub open spec fn next(self, reply: LockReply, timeout_ms: u64) -> StepView<AcquireGuard, ()> {
        match (self, reply) {
            (AcquireGuard::Opening { path }, LockReply::Done(done)) => match done {
                Err(error) => step::failing(
                    ErrorView::DataStorage("无法打开操作锁 "@ + path@ + "："@ + error@),
                ),
                Ok(_) => step::going(AcquireGuard::CheckingIdentity { path }),
            },
            (AcquireGuard::CheckingIdentity { path }, LockReply::Facts(facts)) => match lock_error(
                path@,
                facts,
                false,
            ) {
                Some(error) => step::failing(error),
                None => step::going(AcquireGuard::Narrowing { path }),
            },
            (AcquireGuard::Narrowing { path }, LockReply::Done(done)) => match done {
                Err(error) => step::failing(
                    ErrorView::DataStorage("无法收紧操作锁权限："@ + error@),
                ),
                Ok(_) => step::going(AcquireGuard::CheckingHandle { path }),
            },
            (AcquireGuard::CheckingHandle { path }, LockReply::Facts(facts)) => match lock_error(
                path@,
                facts,
                true,
            ) {
                Some(error) => step::failing(error),
                None => step::going(AcquireGuard::Trying),
            },
            (AcquireGuard::Trying, LockReply::Taken) => step::ending(()),
            (AcquireGuard::Trying, LockReply::Failed(error)) => step::failing(
                ErrorView::DataStorage("无法获取操作锁："@ + error@),
            ),
            (AcquireGuard::Trying, LockReply::Busy { elapsed_ms }) => if elapsed_ms >= timeout_ms {
                step::failing(ErrorView::OperationBusy)
            } else {
                step::going(AcquireGuard::Trying)
            },
            _ => step::confused(),
        }
    }

    /// Takes the answer.
    pub fn resume(self, reply: LockReply, timeout_ms: u64) -> (step: Step<AcquireGuard, ()>)
        ensures
            step@ == self.next(reply, timeout_ms),
    {
        match (self, reply) {
            (AcquireGuard::Opening { path }, LockReply::Done(done)) => match done {
                Err(error) => step::fail(
                    AppError::DataStorage(
                        text::joined4("无法打开操作锁 ", path.as_str(), "：", error.as_str()),
                    ),
                ),
                Ok(_) => step::go(AcquireGuard::CheckingIdentity { path }),
            },
            (AcquireGuard::CheckingIdentity { path }, LockReply::Facts(facts)) =>
                match validate_lock_identity(path.as_str(), facts) {
                    Err(error) => step::fail(error),
                    Ok(_) => step::go(AcquireGuard::Narrowing { path }),
                },
            (AcquireGuard::Narrowing { path }, LockReply::Done(done)) => match done {
                Err(error) => step::fail(
                    AppError::DataStorage(text::joined2("无法收紧操作锁权限：", error.as_str())),
                ),
                Ok(_) => step::go(AcquireGuard::CheckingHandle { path }),
            },
            (AcquireGuard::CheckingHandle { path }, LockReply::Facts(facts)) =>
                match validate_lock_handle(path.as_str(), facts) {
                    Err(error) => step::fail(error),
                    Ok(_) => step::go(AcquireGuard::Trying),
                },
            (AcquireGuard::Trying, LockReply::Taken) => step::end(()),
            (AcquireGuard::Trying, LockReply::Failed(error)) => step::fail(
                AppError::DataStorage(text::joined2("无法获取操作锁：", error.as_str())),
            ),
            (AcquireGuard::Trying, LockReply::Busy { elapsed_ms }) => if elapsed_ms >= timeout_ms {
                step::fail(AppError::OperationBusy)
            } else {
                step::go(AcquireGuard::Trying)
            },
            _ => step::give_up(),
        }
    }
}

/// Begins to take the lock in the application's directory.
pub fn acquire(data_directory: &str) -> (operation: AcquireGuard)
    ensures
        operation matches AcquireGuard::Opening { path } && path@ == unix_path::adjoined(
            data_directory@,
            ".operation.lock"@,
        ),
{
    AcquireGuard::Opening { path: lock_path(data_directory) }
}

/// The lock is taken only where the system gave it, and only after the file was found
/// to be one of the user's that nobody else can use.
pub proof fn law_lock_is_taken_on_a_private_file(
    operation: AcquireGuard,
    reply: LockReply,
    timeout_ms: u64,
)
    ensures
        operation.next(reply, timeout_ms) == step::ending::<AcquireGuard, ()>(()) ==> operation
            is Trying && reply is Taken,
        operation.next(reply, timeout_ms) == step::going::<AcquireGuard, ()>(AcquireGuard::Trying)
            ==> {
            ||| operation is Trying && reply is Busy
            ||| operation is CheckingHandle && (reply matches LockReply::Facts(Ok(facts))
                && is_private(facts))
        },
{
}

impl AcquireGuard {
    /// How the operation goes on.
    pub open spec fn steps(timeout_ms: u64) -> spec_fn(AcquireGuard, LockReply) -> StepView<
        AcquireGuard,
        (),
    > {
        |operation: AcquireGuard, reply: LockReply| operation.next(reply, timeout_ms)
    }
}

proof fn lemma_trying(
    path: String,
    timeout_ms: u64,
    run: Seq<Moment<AcquireGuard, LockReply>>,
    i: int,
)
    requires
        step::is_run(AcquireGuard::steps(timeout_ms), AcquireGuard::Opening { path }, run),
        4 <= i < run.len(),
        run[4].operation is Trying,
    ensures
        run[i].operation is Trying,
        forall|j: int|
            4 <= j < i ==> (#[trigger] run[j]).reply is Busy && run[j].reply->elapsed_ms
                < timeout_ms,
    decreases i,
{
    if i > 4 {
        lemma_trying(path, timeout_ms, run, i - 1);
        assert(step::follows(AcquireGuard::steps(timeout_ms), run, i - 1));
    }
}

/// The lock is taken exactly where its file was opened, is a file of the user's alone with
/// one name, had its permissions narrowed and is then one that nobody else can use, and the
/// lock was free, at once or after it was busy for less than the time that is allowed. Once
/// it was busy for longer, the operation is busy.
pub proof fn law_lock_is_taken_after_all_checks(
    path: String,
    timeout_ms: u64,
    run: Seq<Moment<AcquireGuard, LockReply>>,
)
    requires
        step::is_run(AcquireGuard::steps(timeout_ms), AcquireGuard::Opening { path }, run),
    ensures
        step::result_of(AcquireGuard::steps(timeout_ms), run) is Ok <==> {
            let own = run[1].reply->Facts_0->Ok_0;
            let private = run[3].reply->Facts_0->Ok_0;
            &&& run.len() >= 5
            &&& run[0].reply is Done
            &&& run[0].reply->Done_0 is Ok
            &&& run[1].operation == (AcquireGuard::CheckingIdentity { path })
            &&& run[1].reply is Facts
            &&& run[1].reply->Facts_0 is Ok
            &&& own.is_file && own.owner == own.current_user && own.links == 1
            &&& run[2].operation == (AcquireGuard::Narrowing { path })
            &&& run[2].reply is Done
            &&& run[2].reply->Done_0 is Ok
            &&& run[3].operation == (AcquireGuard::CheckingHandle { path })
            &&& run[3].reply is Facts
            &&& run[3].reply->Facts_0 is Ok
            &&& private.is_file && private.owner == private.current_user && private.links == 1
            &&& private.mode & 0o777 == LOCK_MODE
            &&& forall|j: int|
                4 <= j < run.len() - 1 ==> (#[trigger] run[j]).reply is Busy
                    && run[j].reply->elapsed_ms < timeout_ms
            &&& run.last().reply is Taken
        },
        run.len() >= 5 && run.last().reply is Busy ==> run.last().reply->elapsed_ms >= timeout_ms
            && step::result_of(AcquireGuard::steps(timeout_ms), run) == Err::<(), ErrorView>(
            ErrorView::OperationBusy,
        ),
{
    let steps = AcquireGuard::steps(timeout_ms);
    assert(step::follows(steps, run, 0));
    if run.len() > 1 {
        assert(step::follows(steps, run, 1));
    }
    if run.len() > 2 {
        assert(step::follows(steps, run, 2));
    }
    if run.len() > 3 {
        assert(step::follows(steps, run, 3));
    }
    if run.len() > 4 {
        lemma_trying(path, timeout_ms, run, run.len() - 1);
        assert(step::follows(steps, run, run.len() - 1));
    }
}

} // verus!
