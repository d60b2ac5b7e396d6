//! The lock that keeps account operations apart on Windows: a mutex of the user
//! and a file in the data directory.

use vstd::prelude::*;

use crate::error::AppError;
use crate::error::ErrorView;
use crate::outside;
use crate::platform::windows::process;
use crate::step::Taken;
use crate::step;
use crate::step::Step;
use crate::text;

verus! {

pub const WAIT_OBJECT_0: u32 = 0;

pub const WAIT_ABANDONED: u32 = 0x80;

pub const WAIT_TIMEOUT: u32 = 258;

pub const ERROR_SHARING_VIOLATION: u32 = 32;

pub const ERROR_LOCK_VIOLATION: u32 = 33;

/// The pause before a file that is in use is tried again.
pub const FILE_RETRY_PAUSE_MS: u64 = 100;

/// The milliseconds that the mutex is waited for.
pub fn wait_millis(timeout_ms: u64) -> (millis: u32)
    ensures
        millis == (if timeout_ms < u32::MAX {
            timeout_ms
        } else {
            u32::MAX as u64
        }),
{
    if timeout_ms < u32::MAX as u64 {
        timeout_ms as u32
    } else {
        u32::MAX
    }
}

/// Whether the result code says that somebody else holds the file.
pub fn is_lock_conflict(code: u32) -> (conflict: bool)
    ensures
        conflict == (code == process::hresult(ERROR_SHARING_VIOLATION) || code == process::hresult(
            ERROR_LOCK_VIOLATION,
        )),
{
    code == process::hresult_from_win32(ERROR_SHARING_VIOLATION) || code
        == process::hresult_from_win32(ERROR_LOCK_VIOLATION)
}

/// What was read of the user's security identifier.
#[derive(Debug)]
pub enum SidFacts {
    /// The user's token could not be opened.
    NoToken(String),
    /// The system gave no size for the identifier.
    NoSize,
    /// The identifier could not be read.
    Unreadable(String),
    Sid(Vec<u8>),
}

/// The security identifier, or why there is none.
pub open spec fn sid_error(facts: SidFacts) -> Option<ErrorView> {
    match facts {
        SidFacts::NoToken(error) => Some(
            ErrorView::Transaction("无法读取当前 Windows 用户："@ + error@),
        ),
        SidFacts::NoSize => Some(ErrorView::Transaction("无法读取当前 Windows 用户标识"@)),
        SidFacts::Unreadable(error) => Some(
            ErrorView::Transaction("无法读取当前 Windows 用户标识："@ + error@),
        ),
        SidFacts::Sid(sid) => if sid.len() == 0 {
            Some(ErrorView::Transaction("当前 Windows 用户标识无效"@))
        } else {
            None
        },
    }
}

/// The digest of the security identifier of the current user.
pub fn current_user_sid_hash(facts: &SidFacts) -> (hash: Result<String, AppError>)
    ensures
        match hash {
            Ok(hash) => sid_error(*facts) is None && hash@ == outside::sha256_hex(facts->Sid_0@),
            Err(error) => sid_error(*facts) == Some(error@),
        },
{
    match facts {
        SidFacts::NoToken(error) => Err(
            AppError::Transaction(text::joined2("无法读取当前 Windows 用户：", error.as_str())),
        ),
        SidFacts::NoSize => Err(AppError::Transaction("无法读取当前 Windows 用户标识".to_owned())),
        SidFacts::Unreadable(error) => Err(
            AppError::Transaction(text::joined2("无法读取当前 Windows 用户标识：", error.as_str())),
        ),
        SidFacts::Sid(sid) => if sid.len() == 0 {
            Err(AppError::Transaction("当前 Windows 用户标识无效".to_owned()))
        } else {
            Ok(outside::sha256(sid))
        },
    }
}

/// The name of the mutex of the current user.
pub fn mutex_name(facts: &SidFacts) -> (name: Result<String, AppError>)
    ensures
        match name {
            Ok(name) => sid_error(*facts) is None && name@ == "Global\\BnetSwitchLite.Operation"@
                + "."@ + outside::sha256_hex(facts->Sid_0@),
            Err(error) => sid_error(*facts) == Some(error@),
        },
{
    match current_user_sid_hash(facts) {
        Err(error) => Err(error),
        Ok(hash) => Ok(text::joined3("Global\\BnetSwitchLite.Operation", ".", hash.as_str())),
    }
}

/// Taking the lock: the mutex is created and waited for, then the file is
/// opened; where that fails the mutex is given back.
#[derive(Debug)]
pub enum AcquireGuard {
    CreatingMutex,
    WaitingForMutex,
    /// The mutex is to be closed, for this reason.
    ClosingMutex { error: AppError },
    OpeningFile,
    /// The file is in use: after a pause it is tried again.
    Pausing,
    /// The mutex is to be released and closed, for this reason.
    ReleasingMutex { error: AppError },
}

/// What came of the work for [`AcquireGuard`].
#[derive(Debug)]
pub enum GuardReply {
    Created(Result<(), String>),
    Waited { status: u32 },
    Closed,
    Opened,
    OpenFailed { path: String, code: u32, message: String, in_time: bool },
    Paused,
    Released,
}

impl AcquireGuard {
    /// Whether the step is the one that the answer leads to.
    pub open spec fn leads_to(self, reply: GuardReply, step: Step<AcquireGuard, ()>) -> bool {
        match (self, reply) {
            (AcquireGuard::CreatingMutex, GuardReply::Created(Err(error))) => step@
                == step::failing::<AcquireGuard, ()>(
                ErrorView::Transaction("无法创建操作互斥锁："@ + error@),
            ),
            (AcquireGuard::CreatingMutex, GuardReply::Created(Ok(_))) => step@ == step::going::<
                AcquireGuard,
                (),
            >(AcquireGuard::WaitingForMutex),
            (AcquireGuard::WaitingForMutex, GuardReply::Waited { status }) => if status
                == WAIT_TIMEOUT {
                closes_with(step, ErrorView::OperationBusy)
            } else if status != WAIT_OBJECT_0 && status != WAIT_ABANDONED {
                closes_with(
                    step,
                    ErrorView::Transaction(
                        "无法获取操作互斥锁（Windows 状态 "@ + text::decimal(status as nat) + "）"@,
                    ),
                )
            } else {
                step@ == step::going::<AcquireGuard, ()>(AcquireGuard::OpeningFile)
            },
            (AcquireGuard::ClosingMutex { error }, GuardReply::Closed) => step@ == step::failing::<
                AcquireGuard,
                (),
            >(error@),
            (AcquireGuard::OpeningFile, GuardReply::Opened) => step@ == step::ending::<
                AcquireGuard,
                (),
            >(()),
            (
                AcquireGuard::OpeningFile,
                GuardReply::OpenFailed { path, code, message, in_time },
            ) => if code == process::hresult(ERROR_SHARING_VIOLATION) || code == process::hresult(
                ERROR_LOCK_VIOLATION,
            ) {
                if in_time {
                    step@ == step::going::<AcquireGuard, ()>(AcquireGuard::Pausing)
                } else {
                    releases_with(step, ErrorView::OperationBusy)
                }
            } else {
                releases_with(
                    step,
                    ErrorView::DataStorage("无法打开操作锁 "@ + path@ + "："@ + message@),
                )
            },
            (AcquireGuard::Pausing, GuardReply::Paused) => step@ == step::going::<
                AcquireGuard,
                (),
            >(AcquireGuard::OpeningFile),
            (AcquireGuard::ReleasingMutex { error }, GuardReply::Released) => step@
                == step::failing::<AcquireGuard, ()>(error@),
            _ => step@ == step::confused::<AcquireGuard, ()>(),
        }
    }

    /// Takes the answer.
    pub fn resume(self, reply: GuardReply) -> (step: Step<AcquireGuard, ()>)
        ensures
            self.leads_to(reply, step),
    {
        match (self, reply) {
            (AcquireGuard::CreatingMutex, GuardReply::Created(Err(error))) => step::fail(
                AppError::Transaction(text::joined2("无法创建操作互斥锁：", error.as_str())),
            ),
            (AcquireGuard::CreatingMutex, GuardReply::Created(Ok(_))) => step::go(
                AcquireGuard::WaitingForMutex,
            ),
            (AcquireGuard::WaitingForMutex, GuardReply::Waited { status }) => if status
                == WAIT_TIMEOUT {
                step::go(AcquireGuard::ClosingMutex { error: AppError::OperationBusy })
            } else if status != WAIT_OBJECT_0 && status != WAIT_ABANDONED {
                let number = text::decimal_text(status as u64);
                step::go(
                    AcquireGuard::ClosingMutex {
                        error: AppError::Transaction(
                            text::joined3(
                                "无法获取操作互斥锁（Windows 状态 ",
                                number.as_str(),
                                "）",
                            ),
                        ),
                    },
                )
            } else {
                step::go(AcquireGuard::OpeningFile)
            },
            (AcquireGuard::ClosingMutex { error }, GuardReply::Closed) => step::fail(error),
            (AcquireGuard::OpeningFile, GuardReply::Opened) => step::end(()),
            (
                AcquireGuard::OpeningFile,
                GuardReply::OpenFailed { path, code, message, in_time },
            ) => if is_lock_conflict(code) {
                if in_time {
                    step::go(AcquireGuard::Pausing)
                } else {
                    step::go(AcquireGuard::ReleasingMutex { error: AppError::OperationBusy })
                }
            } else {
                step::go(
                    AcquireGuard::ReleasingMutex {
                        error: AppError::DataStorage(
                            text::joined4(
                                "无法打开操作锁 ",
                                path.as_str(),
                                "：",
                                message.as_str(),
                            ),
                        ),
                    },
                )
            },
            (AcquireGuard::Pausing, GuardReply::Paused) => step::go(AcquireGuard::OpeningFile),
            (AcquireGuard::ReleasingMutex { error }, GuardReply::Released) => step::fail(error),
            _ => step::give_up(),
        }
    }
}

/// Whether the step closes the mutex and then fails with `error`.
pub open spec fn closes_with(step: Step<AcquireGuard, ()>, error: ErrorView) -> bool {
    &&& step matches Step::Perform { operation: AcquireGuard::ClosingMutex { error: kept }, report }
    &&& report is None
    &&& kept@ == error
}

/// Whether the step releases the mutex and then fails with `error`.
pub open spec fn releases_with(step: Step<AcquireGuard, ()>, error: ErrorView) -> bool {
    &&& step matches Step::Perform {
        operation: AcquireGuard::ReleasingMutex { error: kept },
        report,
    }
    &&& report is None
    &&& kept@ == error
}

/// Takes the lock.
pub fn acquire() -> (acquire: AcquireGuard)
    ensures
        acquire == AcquireGuard::CreatingMutex,
{
    AcquireGuard::CreatingMutex
}

/// The lock is taken only where the file was opened, and so only after the mutex
/// was obtained.
pub proof fn law_lock_needs_the_file(
    operation: AcquireGuard,
    reply: GuardReply,
    step: Step<AcquireGuard, ()>,
)
    requires
        operation.leads_to(reply, step),
        step@ == step::ending::<AcquireGuard, ()>(()),
    ensures
        operation == AcquireGuard::OpeningFile,
        reply == GuardReply::Opened,
{
}

impl AcquireGuard {
    /// How the operation may go on.
    pub open spec fn leads() -> spec_fn(AcquireGuard, GuardReply, Step<AcquireGuard, ()>) -> bool {
        |operation: AcquireGuard, reply: GuardReply, step: Step<AcquireGuard, ()>|
            operation.leads_to(reply, step)
    }
}

proof fn lemma_opening(run: Seq<Taken<AcquireGuard, GuardReply, ()>>, i: int)
    requires
        step::is_taken_run(AcquireGuard::leads(), AcquireGuard::CreatingMutex, run),
        2 <= i < run.len(),
    ensures
        run[2].operation is OpeningFile ==> run[i].operation is OpeningFile || run[i].operation
            is Pausing || run[i].operation is ReleasingMutex,
        run[2].operation is ClosingMutex ==> i == 2,
        run[2].operation is OpeningFile || run[2].operation is ClosingMutex,
    decreases i,
{
    assert(step::goes_on(AcquireGuard::leads(), run, 0));
    assert(step::goes_on(AcquireGuard::leads(), run, 1));
    if i > 2 {
        lemma_opening(run, i - 1);
        assert(step::goes_on(AcquireGuard::leads(), run, i - 1));
    }
}

/// The lock is taken exactly where the mutex was created, it was free or had been left by a
/// process that is gone, and the file was opened in the end. A file that is in use is tried
/// again after a pause while there is time, and else the operation is busy; a mutex that was
/// not taken is closed and one that was taken is released where the lock is not.
pub proof fn law_lock_takes_the_mutex_and_the_file(
    run: Seq<Taken<AcquireGuard, GuardReply, ()>>,
    i: int,
)
    requires
        step::is_taken_run(AcquireGuard::leads(), AcquireGuard::CreatingMutex, run),
        0 <= i < run.len(),
    ensures
        step::taken_result(run) is Ok <==> {
            &&& run.len() >= 3
            &&& run[0].reply is Created
            &&& run[0].reply->Created_0 is Ok
            &&& run[1].operation is WaitingForMutex
            &&& run[1].reply == (GuardReply::Waited { status: WAIT_OBJECT_0 }) || run[1].reply == (
            GuardReply::Waited { status: WAIT_ABANDONED })
            &&& run.last().operation is OpeningFile
            &&& run.last().reply is Opened
        },
        run.len() > 1 && run[1].reply is Waited && run[1].reply->status != WAIT_OBJECT_0
            && run[1].reply->status != WAIT_ABANDONED ==> {
            &&& run.len() == 3
            &&& run[2].operation is ClosingMutex
            &&& run[1].reply->status == WAIT_TIMEOUT ==> run[2].operation->ClosingMutex_error@
                == ErrorView::OperationBusy
        },
        run[i].operation is OpeningFile && run[i].reply is OpenFailed ==> {
            let in_use = run[i].reply->code == process::hresult(ERROR_SHARING_VIOLATION)
                || run[i].reply->code == process::hresult(ERROR_LOCK_VIOLATION);
            &&& i + 1 < run.len()
            &&& in_use && run[i].reply->in_time <==> run[i + 1].operation is Pausing
            &&& !(in_use && run[i].reply->in_time) <==> run[i + 1].operation is ReleasingMutex
            &&& in_use && !run[i].reply->in_time ==> run[i + 1].operation->ReleasingMutex_error@
                == ErrorView::OperationBusy
        },
        run[i].operation is Pausing && run[i].reply is Paused ==> i + 1 < run.len() && run[i
            + 1].operation is OpeningFile,
{
    let leads = AcquireGuard::leads();
    assert(step::goes_on(leads, run, 0));
    if run.len() > 1 {
        assert(step::goes_on(leads, run, 1));
    }
    if run.len() > 2 {
        lemma_opening(run, run.len() - 1);
        assert(step::goes_on(leads, run, run.len() - 1));
    }
    assert(step::goes_on(leads, run, i));
}

} // verus!
