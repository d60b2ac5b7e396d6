//! Switching to a saved account on Windows.

use vstd::prelude::*;

use crate::contracts::AccountKey;
use crate::contracts::AppSnapshot;
use crate::contracts::EventView;
use crate::contracts::OperationEvent;
use crate::contracts::OperationKind;
use crate::error::AppError;
use crate::error::ErrorView;
use crate::platform::windows::app_service;
use crate::platform::windows::app_service::ServiceReply;
use crate::platform::windows::app_service::WindowsPlatformService;
use crate::platform::windows::restore::CommitOutcome;
use crate::platform::windows::restore::RestoreReceipt;
use crate::platform::windows::snapshot::ValidatedSnapshot;
use crate::step::Moment;
use crate::step;
use crate::step::Step;
use crate::step::StepView;
use crate::text;

verus! {

/// A switch whose target is known to be in order.
#[derive(Debug)]
pub struct SwitchJob {
    pub target: AccountKey,
    pub snapshot: ValidatedSnapshot,
    pub client: String,
    pub was_running: bool,
}

/// A switch that was applied.
#[derive(Debug)]
pub struct AppliedSwitch {
    pub target: AccountKey,
    pub client: String,
    pub receipt: RestoreReceipt,
}

/// A switch that is undone, and why.
#[derive(Debug)]
pub struct SwitchRollback {
    pub client: String,
    pub receipt: RestoreReceipt,
    pub error: AppError,
}

/// Switching to a saved account. Each state names the work that is to be done.
#[derive(Debug)]
pub enum SwitchAccount {
    /// The lock is to be taken.
    Locking { target: AccountKey },
    /// A pending recovery is to be carried out.
    Recovering { target: AccountKey },
    /// The waiting login is to be read.
    CheckingSession { target: AccountKey },
    /// The saved account is to be checked.
    Validating { target: AccountKey },
    /// The client is to be found.
    ResolvingClient { target: AccountKey, snapshot: ValidatedSnapshot },
    /// It is to be found out whether the client runs.
    CheckingClient { target: AccountKey, snapshot: ValidatedSnapshot, client: String },
    /// The client is to be stopped.
    Stopping { job: SwitchJob },
    /// The client's files have to settle.
    Settling { job: SwitchJob },
    /// The client's database is to be read.
    ReadingCatalog { job: SwitchJob },
    /// It is to be made sure that the client is stopped.
    ConfirmingStopped { job: SwitchJob, current: Option<AccountKey> },
    /// The saved account is to be applied.
    Applying { job: SwitchJob, current: Option<AccountKey> },
    /// The client is to be started again, after this error.
    Restarting { client: String, error: AppError },
    /// The client is to be started.
    Launching { applied: AppliedSwitch },
    /// The client has to confirm the account.
    Verifying { applied: AppliedSwitch },
    /// The switch is to be committed.
    Committing { applied: AppliedSwitch },
    /// The application is to be shown.
    Showing,
    /// It is to be found out whether the client runs.
    UndoChecking { undo: SwitchRollback },
    /// The client is to be stopped.
    UndoStopping { undo: SwitchRollback },
    /// It is to be made sure that the client is stopped.
    UndoConfirming { undo: SwitchRollback },
    /// The switch is to be undone.
    UndoApplying { undo: SwitchRollback },
    /// The client is to be started again.
    UndoLaunching { undo: SwitchRollback },
}

/// A report about a switch.
pub open spec fn switch_event(
    phase: Seq<char>,
    title: Seq<char>,
    detail: Seq<char>,
    progress: u8,
) -> EventView {
    step::event(OperationKind::Switch, phase, title, detail, progress)
}

fn report(phase: &str, title: &str, detail: &str, progress: u8) -> (event: OperationEvent)
    ensures
        event@ == switch_event(phase@, title@, detail@, progress),
{
    step::emit(OperationKind::Switch, phase, title, detail, progress)
}

/// The step after a failure before the switch was applied: the client is started
/// again where it was running.
pub open spec fn restarted(was_running: bool, client: String, error: AppError) -> StepView<
    SwitchAccount,
    AppSnapshot,
> {
    if was_running {
        step::going(SwitchAccount::Restarting { client, error })
    } else {
        step::failing(error@)
    }
}

fn restart(was_running: bool, client: String, error: AppError) -> (step: Step<
    SwitchAccount,
    AppSnapshot,
>)
    ensures
        step@ == restarted(was_running, client, error),
{
    if was_running {
        step::go(SwitchAccount::Restarting { client, error })
    } else {
        step::fail(error)
    }
}

/// The step after a failure once the switch was applied: it is undone.
pub open spec fn undone(applied: AppliedSwitch, error: AppError) -> StepView<
    SwitchAccount,
    AppSnapshot,
> {
    step::saying(
        switch_event("rollingBack"@, "切换未完成"@, "正在恢复切换前的账号配置"@, 94),
        SwitchAccount::UndoChecking {
            undo: SwitchRollback { client: applied.client, receipt: applied.receipt, error },
        },
    )
}

fn undo(applied: AppliedSwitch, error: AppError) -> (step: Step<SwitchAccount, AppSnapshot>)
    ensures
        step@ == undone(applied, error),
{
    step::say(
        report("rollingBack", "切换未完成", "正在恢复切换前的账号配置", 94),
        SwitchAccount::UndoChecking {
            undo: SwitchRollback { client: applied.client, receipt: applied.receipt, error },
        },
    )
}

/// A transaction error about `original`.
pub open spec fn about(
    original: ErrorView,
    what: Seq<char>,
    cause: ErrorView,
    advice: Seq<char>,
) -> ErrorView {
    ErrorView::Transaction(original.nested() + what + cause.nested() + advice)
}

fn error_about(original: AppError, what: &str, cause: AppError, advice: &str) -> (error: AppError)
    ensures
        error@ == about(original@, what@, cause@, advice@),
{
    AppError::Transaction(
        text::joined4(
            original.nested_message().as_str(),
            what,
            cause.nested_message().as_str(),
            advice,
        ),
    )
}

/// The end of a switch that was undone.
pub open spec fn undone_end(error: AppError) -> ErrorView {
    ErrorView::Transaction(error@.nested() + "；已恢复切换前的账号配置"@)
}

fn undo_end(error: AppError) -> (failure: AppError)
    ensures
        failure@ == undone_end(error),
{
    AppError::Transaction(
        text::joined2(error.nested_message().as_str(), "；已恢复切换前的账号配置"),
    )
}

impl SwitchAccount {
    /// What the answer leads to.
    pub open spec fn next(self, reply: ServiceReply) -> StepView<SwitchAccount, AppSnapshot> {
        match (self, reply) {
            (SwitchAccount::Locking { target }, ServiceReply::Done(done)) => match done {
                Err(error) => step::failing(error@),
                Ok(_) => step::going(SwitchAccount::Recovering { target }),
            },
            (SwitchAccount::Recovering { target }, ServiceReply::Done(done)) => match done {
                Err(error) => step::failing(error@),
                Ok(_) => step::going(SwitchAccount::CheckingSession { target }),
            },
            (SwitchAccount::CheckingSession { target }, ServiceReply::Session(session)) =>
                match session {
                    Err(error) => step::failing(error@),
                    Ok(Some(_)) => step::failing(
                        ErrorView::Login("请先完成或取消当前登录流程"@),
                    ),
                    Ok(None) => step::saying(
                        switch_event("validating"@, "正在切换账号"@, "正在校验目标账号快照"@, 5),
                        SwitchAccount::Validating { target },
                    ),
                },
            (SwitchAccount::Validating { target }, ServiceReply::Target(validated)) =>
                match validated {
                    Err(error) => step::failing(error@),
                    Ok(snapshot) => step::going(
                        SwitchAccount::ResolvingClient { target, snapshot },
                    ),
                },
            (
                SwitchAccount::ResolvingClient { target, snapshot },
                ServiceReply::Client(client),
            ) => match client {
                None => step::failing(ErrorView::ClientExecutableMissing),
                Some(client) => step::going(
                    SwitchAccount::CheckingClient { target, snapshot, client },
                ),
            },
            (
                SwitchAccount::CheckingClient { target, snapshot, client },
                ServiceReply::Flag(running),
            ) => match running {
                Err(error) => step::failing(error@),
                Ok(was_running) => {
                    let job = SwitchJob { target, snapshot, client, was_running };
                    if was_running {
                        step::saying(
                            switch_event(
                                "stoppingClient"@,
                                "正在切换账号"@,
                                "正在安全关闭战网客户端"@,
                                18,
                            ),
                            SwitchAccount::Stopping { job },
                        )
                    } else {
                        step::going(SwitchAccount::Settling { job })
                    }
                },
            },
            (SwitchAccount::Stopping { job }, ServiceReply::Done(done)) => match done {
                Err(error) => step::failing(error@),
                Ok(_) => step::going(SwitchAccount::Settling { job }),
            },
            (SwitchAccount::Settling { job }, ServiceReply::Done(done)) => match done {
                Err(error) => restarted(job.was_running, job.client, error),
                Ok(_) => step::going(SwitchAccount::ReadingCatalog { job }),
            },
            (SwitchAccount::ReadingCatalog { job }, ServiceReply::Catalog(catalog)) =>
                match catalog {
                    Err(error) => restarted(job.was_running, job.client, error),
                    Ok(catalog) => step::saying(
                        switch_event("restoring"@, "正在切换账号"@, "正在事务化恢复目标账号"@, 58),
                        SwitchAccount::ConfirmingStopped {
                            job,
                            current: catalog.current_account_key,
                        },
                    ),
                },
            (SwitchAccount::ConfirmingStopped { job, current }, ServiceReply::Done(done)) =>
                match done {
                    Err(error) => restarted(job.was_running, job.client, error),
                    Ok(_) => step::going(SwitchAccount::Applying { job, current }),
                },
            (SwitchAccount::Applying { job, current }, ServiceReply::Applied(applied)) =>
                match applied {
                    Err(error) => restarted(job.was_running, job.client, error),
                    Ok(receipt) => step::saying(
                        switch_event(
                            "launchingClient"@,
                            "正在切换账号"@,
                            "正在启动战网客户端"@,
                            76,
                        ),
                        SwitchAccount::Launching {
                            applied: AppliedSwitch {
                                target: job.target,
                                client: job.client,
                                receipt,
                            },
                        },
                    ),
                },
            (SwitchAccount::Restarting { client, error }, ServiceReply::Done(done)) => match done {
                Ok(_) => step::failing(error@),
                Err(restart) => step::failing(app_service::combined(error@, restart@)),
            },
            (SwitchAccount::Launching { applied }, ServiceReply::Done(done)) => match done {
                Err(error) => undone(applied, error),
                Ok(_) => step::saying(
                    switch_event("verifying"@, "正在切换账号"@, "正在等待战网确认目标账号"@, 88),
                    SwitchAccount::Verifying { applied },
                ),
            },
            (SwitchAccount::Verifying { applied }, ServiceReply::Done(done)) => match done {
                Err(error) => undone(applied, error),
                Ok(_) => step::going(SwitchAccount::Committing { applied }),
            },
            (SwitchAccount::Committing { applied }, ServiceReply::Committed(committed)) =>
                match committed {
                    Err(error) => undone(applied, error),
                    Ok(_) => step::saying(
                        switch_event("completed"@, "账号切换完成"@, "战网已确认目标账号"@, 100),
                        SwitchAccount::Showing,
                    ),
                },
            (SwitchAccount::Showing, ServiceReply::Snapshot(snapshot)) => match snapshot {
                Err(error) => step::failing(error@),
                Ok(snapshot) => step::ending(snapshot),
            },
            (SwitchAccount::UndoChecking { undo }, ServiceReply::Flag(running)) => match running {
                Err(error) => step::failing(error@),
                Ok(true) => step::going(SwitchAccount::UndoStopping { undo }),
                Ok(false) => step::going(SwitchAccount::UndoConfirming { undo }),
            },
            (SwitchAccount::UndoStopping { undo }, ServiceReply::Done(done)) => match done {
                Err(stop) => step::failing(
                    about(
                        undo.error@,
                        "；战网客户端仍在运行，暂未覆盖文件："@,
                        stop@,
                        "。请关闭战网并重新打开本工具以继续恢复"@,
                    ),
                ),
                Ok(_) => step::going(SwitchAccount::UndoConfirming { undo }),
            },
            (SwitchAccount::UndoConfirming { undo }, ServiceReply::Done(done)) => match done {
                Err(stop) => step::failing(
                    about(
                        undo.error@,
                        "；无法确认战网客户端保持退出状态，暂未覆盖文件："@,
                        stop@,
                        "。请关闭战网并重新打开本工具以继续恢复"@,
                    ),
                ),
                Ok(_) => step::going(SwitchAccount::UndoApplying { undo }),
            },
            (SwitchAccount::UndoApplying { undo }, ServiceReply::Done(done)) => match done {
                Err(rollback) => step::failing(
                    about(
                        undo.error@,
                        "；自动恢复未完成："@,
                        rollback@,
                        "。请勿启动战网，重新打开本工具继续恢复"@,
                    ),
                ),
                Ok(_) => if undo.receipt.previous_client_was_running {
                    step::going(SwitchAccount::UndoLaunching { undo })
                } else {
                    step::failing(undone_end(undo.error))
                },
            },
            (SwitchAccount::UndoLaunching { undo }, ServiceReply::Done(done)) => match done {
                Err(restart) => step::failing(
                    about(
                        undo.error@,
                        "；原配置已恢复，但无法重新启动战网："@,
                        restart@,
                        ""@,
                    ),
                ),
                Ok(_) => step::failing(undone_end(undo.error)),
            },
            _ => step::confused(),
        }
    }

    /// The notice after the answer: it changes where a committed switch left
    /// recovery data behind.
    pub open spec fn notice(
        self,
        reply: ServiceReply,
        notice: Option<Seq<char>>,
    ) -> Option<Seq<char>> {
        match (self, reply) {
            (
                SwitchAccount::Committing { .. },
                ServiceReply::Committed(Ok(CommitOutcome::CleanupPending(error))),
            ) => Some(
                "账号已切换成功，临时事务文件将在下次启动时继续清理："@ + error@,
            ),
            _ => notice,
        }
    }

    /// Takes the answer.
    pub fn resume(self, service: &mut WindowsPlatformService, reply: ServiceReply) -> (step: Step<
        SwitchAccount,
        AppSnapshot,
    >)
        ensures
            step@ == self.next(reply),
            app_service::notice_view(final(service).startup_notice) == self.notice(
                reply,
                app_service::notice_view(old(service).startup_notice),
            ),
            *final(service) == (WindowsPlatformService {
                startup_notice: final(service).startup_notice,
                ..*old(service)
            }),
    {
        match (self, reply) {
            (SwitchAccount::Locking { target }, ServiceReply::Done(done)) => match done {
                Err(error) => step::fail(error),
                Ok(_) => step::go(SwitchAccount::Recovering { target }),
            },
            (SwitchAccount::Recovering { target }, ServiceReply::Done(done)) => match done {
                Err(error) => step::fail(error),
                Ok(_) => step::go(SwitchAccount::CheckingSession { target }),
            },
            (SwitchAccount::CheckingSession { target }, ServiceReply::Session(session)) =>
                match session {
                    Err(error) => step::fail(error),
                    Ok(Some(_)) => step::fail(
                        AppError::Login("请先完成或取消当前登录流程".to_owned()),
                    ),
                    Ok(None) => step::say(
                        report("validating", "正在切换账号", "正在校验目标账号快照", 5),
                        SwitchAccount::Validating { target },
                    ),
                },
            (SwitchAccount::Validating { target }, ServiceReply::Target(validated)) =>
                match validated {
                    Err(error) => step::fail(error),
                    Ok(snapshot) => step::go(SwitchAccount::ResolvingClient { target, snapshot }),
                },
            (
                SwitchAccount::ResolvingClient { target, snapshot },
                ServiceReply::Client(client),
            ) => match client {
                None => step::fail(AppError::ClientExecutableMissing),
                Some(client) => step::go(
                    SwitchAccount::CheckingClient { target, snapshot, client },
                ),
            },
            (
                SwitchAccount::CheckingClient { target, snapshot, client },
                ServiceReply::Flag(running),
            ) => match running {
                Err(error) => step::fail(error),
                Ok(was_running) => {
                    let job = SwitchJob { target, snapshot, client, was_running };
                    if was_running {
                        step::say(
                            report("stoppingClient", "正在切换账号", "正在安全关闭战网客户端", 18),
                            SwitchAccount::Stopping { job },
                        )
                    } else {
                        step::go(SwitchAccount::Settling { job })
                    }
                },
            },
            (SwitchAccount::Stopping { job }, ServiceReply::Done(done)) => match done {
                Err(error) => step::fail(error),
                Ok(_) => step::go(SwitchAccount::Settling { job }),
            },
            (SwitchAccount::Settling { job }, ServiceReply::Done(done)) => match done {
                Err(error) => restart(job.was_running, job.client, error),
                Ok(_) => step::go(SwitchAccount::ReadingCatalog { job }),
            },
            (SwitchAccount::ReadingCatalog { job }, ServiceReply::Catalog(catalog)) =>
                match catalog {
                    Err(error) => restart(job.was_running, job.client, error),
                    Ok(catalog) => step::say(
                        report("restoring", "正在切换账号", "正在事务化恢复目标账号", 58),
                        SwitchAccount::ConfirmingStopped {
                            job,
                            current: catalog.current_account_key,
                        },
                    ),
                },
            (SwitchAccount::ConfirmingStopped { job, current }, ServiceReply::Done(done)) =>
                match done {
                    Err(error) => restart(job.was_running, job.client, error),
                    Ok(_) => step::go(SwitchAccount::Applying { job, current }),
                },
            (SwitchAccount::Applying { job, current: _ }, ServiceReply::Applied(applied)) =>
                match applied {
                    Err(error) => restart(job.was_running, job.client, error),
                    Ok(receipt) => step::say(
                        report("launchingClient", "正在切换账号", "正在启动战网客户端", 76),
                        SwitchAccount::Launching {
                            applied: AppliedSwitch {
                                target: job.target,
                                client: job.client,
                                receipt,
                            },
                        },
                    ),
                },
            (SwitchAccount::Restarting { client: _, error }, ServiceReply::Done(done)) =>
                match done {
                    Ok(_) => step::fail(error),
                    Err(restart) => step::fail(app_service::combine_errors(error, restart)),
                },
            (SwitchAccount::Launching { applied }, ServiceReply::Done(done)) => match done {
                Err(error) => undo(applied, error),
                Ok(_) => step::say(
                    report("verifying", "正在切换账号", "正在等待战网确认目标账号", 88),
                    SwitchAccount::Verifying { applied },
                ),
            },
            (SwitchAccount::Verifying { applied }, ServiceReply::Done(done)) => match done {
                Err(error) => undo(applied, error),
                Ok(_) => step::go(SwitchAccount::Committing { applied }),
            },
            (SwitchAccount::Committing { applied }, ServiceReply::Committed(committed)) => {
                match committed {
                    Err(error) => {
                        return undo(applied, error);
                    },
                    Ok(CommitOutcome::Committed) => {},
                    Ok(CommitOutcome::CleanupPending(error)) => {
                        service.startup_notice = Some(
                            text::joined2(
                                "账号已切换成功，临时事务文件将在下次启动时继续清理：",
                                error.as_str(),
                            ),
                        );
                    },
                }
                step::say(
                    report("completed", "账号切换完成", "战网已确认目标账号", 100),
                    SwitchAccount::Showing,
                )
            },
            (SwitchAccount::Showing, ServiceReply::Snapshot(snapshot)) => match snapshot {
                Err(error) => step::fail(error),
                Ok(snapshot) => step::end(snapshot),
            },
            (SwitchAccount::UndoChecking { undo }, ServiceReply::Flag(running)) => match running {
                Err(error) => step::fail(error),
                Ok(true) => step::go(SwitchAccount::UndoStopping { undo }),
                Ok(false) => step::go(SwitchAccount::UndoConfirming { undo }),
            },
            (SwitchAccount::UndoStopping { undo }, ServiceReply::Done(done)) => match done {
                Err(stop) => step::fail(
                    error_about(
                        undo.error,
                        "；战网客户端仍在运行，暂未覆盖文件：",
                        stop,
                        "。请关闭战网并重新打开本工具以继续恢复",
                    ),
                ),
                Ok(_) => step::go(SwitchAccount::UndoConfirming { undo }),
            },
            (SwitchAccount::UndoConfirming { undo }, ServiceReply::Done(done)) => match done {
                Err(stop) => step::fail(
                    error_about(
                        undo.error,
                        "；无法确认战网客户端保持退出状态，暂未覆盖文件：",
                        stop,
                        "。请关闭战网并重新打开本工具以继续恢复",
                    ),
                ),
                Ok(_) => step::go(SwitchAccount::UndoApplying { undo }),
            },
            (SwitchAccount::UndoApplying { undo }, ServiceReply::Done(done)) => match done {
                Err(rollback) => step::fail(
                    error_about(
                        undo.error,
                        "；自动恢复未完成：",
                        rollback,
                        "。请勿启动战网，重新打开本工具继续恢复",
                    ),
                ),
                Ok(_) => if undo.receipt.previous_client_was_running {
                    step::go(SwitchAccount::UndoLaunching { undo })
                } else {
                    step::fail(undo_end(undo.error))
                },
            },
            (SwitchAccount::UndoLaunching { undo }, ServiceReply::Done(done)) => match done {
                Err(restart) => step::fail(
                    error_about(undo.error, "；原配置已恢复，但无法重新启动战网：", restart, ""),
                ),
                Ok(_) => step::fail(undo_end(undo.error)),
            },
            _ => step::give_up(),
        }
    }
}

impl WindowsPlatformService {
    /// Begins to switch to the saved account.
    pub fn switch_account(&self, target: &AccountKey) -> (operation: SwitchAccount)
        ensures
            operation == (SwitchAccount::Locking { target: *target }),
    {
        SwitchAccount::Locking { target: target.clone() }
    }
}

/// What a switch has come to after the answers.
pub open spec fn switched(target: AccountKey, replies: Seq<ServiceReply>) -> StepView<
    SwitchAccount,
    AppSnapshot,
>
    decreases replies.len(),
{
    if replies.len() == 0 {
        step::going(SwitchAccount::Locking { target })
    } else {
        match switched(target, replies.drop_last()) {
            StepView::Perform { operation, .. } => operation.next(replies.last()),
            finished => finished,
        }
    }
}

/// The work of a switch that success depends on.
pub enum SwitchWork {
    Lock,
    Confirm,
    Apply,
    Verify,
    Commit,
}

/// Whether the operation's work is the given one, and the answer says that it
/// succeeded.
pub open spec fn succeeds(
    operation: SwitchAccount,
    reply: ServiceReply,
    work: SwitchWork,
) -> bool {
    match work {
        SwitchWork::Lock => operation is Locking && reply is Done && reply->Done_0 is Ok,
        SwitchWork::Confirm => operation is ConfirmingStopped && reply is Done && reply->Done_0
            is Ok,
        SwitchWork::Apply => operation is Applying && reply is Applied && reply->Applied_0 is Ok,
        SwitchWork::Verify => operation is Verifying && reply is Done && reply->Done_0 is Ok,
        SwitchWork::Commit => operation is Committing && reply is Committed && reply->Committed_0
            is Ok,
    }
}

/// Whether the work succeeded at the answer with this number.
pub open spec fn succeeded_at(
    target: AccountKey,
    replies: Seq<ServiceReply>,
    work: SwitchWork,
    i: int,
) -> bool {
    &&& 0 <= i < replies.len()
    &&& switched(target, replies.take(i)) matches StepView::Perform { operation, .. } && succeeds(
        operation,
        replies[i],
        work,
    )
}

/// Whether the work succeeded among the answers.
pub open spec fn has_succeeded(
    target: AccountKey,
    replies: Seq<ServiceReply>,
    work: SwitchWork,
) -> bool {
    exists|i: int| succeeded_at(target, replies, work, i)
}

/// Whether the operation can only be reached after the work.
pub open spec fn comes_after(operation: SwitchAccount, work: SwitchWork) -> bool {
    match operation {
        SwitchAccount::Locking { .. } => false,
        SwitchAccount::Applying { .. } => work is Lock || work is Confirm,
        SwitchAccount::Launching { .. } | SwitchAccount::Verifying { .. } => work is Lock || work
            is Confirm || work is Apply,
        SwitchAccount::Committing { .. } => !(work is Commit),
        SwitchAccount::Showing => true,
        SwitchAccount::UndoChecking { .. }
        | SwitchAccount::UndoStopping { .. }
        | SwitchAccount::UndoConfirming { .. }
        | SwitchAccount::UndoApplying { .. }
        | SwitchAccount::UndoLaunching { .. } => work is Lock || work is Confirm || work is Apply,
        _ => work is Lock,
    }
}

proof fn lemma_earlier(
    target: AccountKey,
    replies: Seq<ServiceReply>,
    reply: ServiceReply,
    work: SwitchWork,
)
    requires
        has_succeeded(target, replies, work),
    ensures
        has_succeeded(target, replies.push(reply), work),
{
    let i = choose|i: int| succeeded_at(target, replies, work, i);
    assert(replies.push(reply).take(i) =~= replies.take(i));
    assert(succeeded_at(target, replies.push(reply), work, i));
}

proof fn lemma_reached(target: AccountKey, replies: Seq<ServiceReply>, work: SwitchWork)
    ensures
        switched(target, replies) matches StepView::Perform { operation, .. } ==> (comes_after(
            operation,
            work,
        ) ==> has_succeeded(target, replies, work)),
        switched(target, replies) matches StepView::Finished(Ok(_)) ==> has_succeeded(
            target,
            replies,
            work,
        ),
    decreases replies.len(),
{
    if replies.len() > 0 {
        let earlier = replies.drop_last();
        let reply = replies.last();
        lemma_reached(target, earlier, work);
        assert(earlier.push(reply) =~= replies);
        if has_succeeded(target, earlier, work) {
            lemma_earlier(target, earlier, reply, work);
        }
        match switched(target, earlier) {
            StepView::Perform { operation, .. } => {
                if succeeds(operation, reply, work) {
                    assert(replies.take(earlier.len() as int) =~= earlier);
                    assert(succeeded_at(target, replies, work, earlier.len() as int));
                }
            },
            _ => {},
        }
    }
}

/// A switch succeeds only where, in this run, the lock was taken, the client was
/// confirmed to be stopped, the saved account was applied, the client confirmed
/// the account, and the switch was committed.
pub proof fn law_successful_switch_was_verified_and_committed(
    target: AccountKey,
    replies: Seq<ServiceReply>,
)
    requires
        switched(target, replies) matches StepView::Finished(Ok(_)),
    ensures
        has_succeeded(target, replies, SwitchWork::Lock),
        has_succeeded(target, replies, SwitchWork::Confirm),
        has_succeeded(target, replies, SwitchWork::Apply),
        has_succeeded(target, replies, SwitchWork::Verify),
        has_succeeded(target, replies, SwitchWork::Commit),
{
    lemma_reached(target, replies, SwitchWork::Lock);
    lemma_reached(target, replies, SwitchWork::Confirm);
    lemma_reached(target, replies, SwitchWork::Apply);
    lemma_reached(target, replies, SwitchWork::Verify);
    lemma_reached(target, replies, SwitchWork::Commit);
}

/// A switch is committed only after the client has confirmed the account, and
/// applied only right after the client was confirmed to be stopped.
pub proof fn law_switch_steps_are_guarded(operation: SwitchAccount, reply: ServiceReply)
    ensures
        operation.next(reply) matches StepView::Perform {
            operation: SwitchAccount::Committing { applied },
            ..
        } ==> operation == (SwitchAccount::Verifying { applied }) && succeeds(
            operation,
            reply,
            SwitchWork::Verify,
        ),
        operation.next(reply) matches StepView::Perform {
            operation: SwitchAccount::Applying { job, current },
            ..
        } ==> operation == (SwitchAccount::ConfirmingStopped { job, current }) && succeeds(
            operation,
            reply,
            SwitchWork::Confirm,
        ),
        operation.next(reply) matches StepView::Perform {
            operation: SwitchAccount::UndoApplying { undo },
            ..
        } ==> operation == (SwitchAccount::UndoConfirming { undo }) && reply is Done
            && reply->Done_0 is Ok,
{
}

/// Every failure after a switch was applied and before it is committed leads to
/// its undoing: of the same switch, with the failure as the reason.
pub proof fn law_applied_switch_is_undone_on_failure(
    operation: SwitchAccount,
    reply: ServiceReply,
    applied: AppliedSwitch,
    error: AppError,
)
    requires
        (operation == (SwitchAccount::Launching { applied }) && reply == ServiceReply::Done(
            Err(error),
        )) || (operation == (SwitchAccount::Verifying { applied }) && reply == ServiceReply::Done(
            Err(error),
        )) || (operation == (SwitchAccount::Committing { applied }) && reply
            == ServiceReply::Committed(Err(error))),
    ensures
        operation.next(reply) == undone(applied, error),
        operation.next(reply) matches StepView::Perform {
            operation: SwitchAccount::UndoChecking { undo },
            ..
        } && undo.receipt == applied.receipt,
{
}

impl SwitchAccount {
    /// How the operation goes on.
    pub open spec fn steps() -> spec_fn(SwitchAccount, ServiceReply) -> StepView<
        SwitchAccount,
        AppSnapshot,
    > {
        |operation: SwitchAccount, reply: ServiceReply| operation.next(reply)
    }
}

/// A switch succeeds exactly where, in this order, the lock was taken, a pending recovery
/// was carried out, no login was waiting, the saved account of the target was in order,
/// the client was found, a client that was running was stopped, its files settled, its
/// database was read, it was confirmed to be stopped, the saved account was applied, the
/// client that was found was started, it confirmed the target, the switch was committed,
/// and the application was shown. What was found out on the way is what the later work is
/// done with.
pub proof fn law_switch_does_all_its_work_in_order(
    target: AccountKey,
    run: Seq<Moment<SwitchAccount, ServiceReply>>,
)
    requires
        step::is_run(SwitchAccount::steps(), SwitchAccount::Locking { target }, run),
    ensures
        step::result_of(SwitchAccount::steps(), run) is Ok <==> {
            let k: int = if run[5].reply.flag() == Some(true) {
                1
            } else {
                0
            };
            let job = SwitchJob {
                target,
                snapshot: run[3].reply->Target_0->Ok_0,
                client: run[4].reply->Client_0->0,
                was_running: k == 1,
            };
            let current = run[7 + k].reply.catalog()->0.current_account_key;
            let applied = AppliedSwitch {
                target,
                client: job.client,
                receipt: run[9 + k].reply->Applied_0->Ok_0,
            };
            &&& run.len() == 14 + k
            &&& run[0].reply.is_done()
            &&& run[1].operation == (SwitchAccount::Recovering { target })
            &&& run[1].reply.is_done()
            &&& run[2].operation == (SwitchAccount::CheckingSession { target })
            &&& run[2].reply == ServiceReply::Session(Ok(None))
            &&& run[3].operation == (SwitchAccount::Validating { target })
            &&& run[3].reply is Target
            &&& run[3].reply->Target_0 is Ok
            &&& run[4].operation is ResolvingClient
            &&& run[4].reply is Client
            &&& run[4].reply->Client_0 is Some
            &&& run[5].operation is CheckingClient
            &&& run[5].reply.flag() is Some
            &&& k == 1 ==> run[6].operation == (SwitchAccount::Stopping { job })
            &&& k == 1 ==> run[6].reply.is_done()
            &&& run[6 + k].operation == (SwitchAccount::Settling { job })
            &&& run[6 + k].reply.is_done()
            &&& run[7 + k].operation == (SwitchAccount::ReadingCatalog { job })
            &&& run[7 + k].reply.catalog() is Some
            &&& run[8 + k].operation == (SwitchAccount::ConfirmingStopped { job, current })
            &&& run[8 + k].reply.is_done()
            &&& run[9 + k].operation == (SwitchAccount::Applying { job, current })
            &&& run[9 + k].reply is Applied
            &&& run[9 + k].reply->Applied_0 is Ok
            &&& run[10 + k].operation == (SwitchAccount::Launching { applied })
            &&& run[10 + k].reply.is_done()
            &&& run[11 + k].operation == (SwitchAccount::Verifying { applied })
            &&& run[11 + k].reply.is_done()
            &&& run[12 + k].operation == (SwitchAccount::Committing { applied })
            &&& run[12 + k].reply is Committed
            &&& run[12 + k].reply->Committed_0 is Ok
            &&& run[13 + k].operation is Showing
            &&& run[13 + k].reply is Snapshot
            &&& run[13 + k].reply->Snapshot_0 is Ok
        },
        step::result_of(SwitchAccount::steps(), run) is Ok ==> {
            let k: int = if run[5].reply.flag() == Some(true) {
                1
            } else {
                0
            };
            let job = SwitchJob {
                target,
                snapshot: run[3].reply->Target_0->Ok_0,
                client: run[4].reply->Client_0->0,
                was_running: k == 1,
            };
            let current = run[7 + k].reply.catalog()->0.current_account_key;
            let applied = AppliedSwitch {
                target,
                client: job.client,
                receipt: run[9 + k].reply->Applied_0->Ok_0,
            };
            step::result_of(SwitchAccount::steps(), run) == Ok::<AppSnapshot, ErrorView>(run.last().reply->Snapshot_0->Ok_0@)
        },
        run.len() <= 20,
{
    let steps = SwitchAccount::steps();
    assert(step::follows(steps, run, 0));
    if run.len() > 1 {
        assert(step::follows(steps, run, 1));
    }
    if run.len() > 2 {
        assert(step::follows(steps, run, 2));
    }
    if run.len() > 3 {
        assert(step::follows(steps, run, 3));
    }
    if run.len() > 4 {
        assert(step::follows(steps, run, 4));
    }
    if run.len() > 5 {
        assert(step::follows(steps, run, 5));
    }
    if run.len() > 6 {
        assert(step::follows(steps, run, 6));
    }
    if run.len() > 7 {
        assert(step::follows(steps, run, 7));
    }
    if run.len() > 8 {
        assert(step::follows(steps, run, 8));
    }
    if run.len() > 9 {
        assert(step::follows(steps, run, 9));
    }
    if run.len() > 10 {
        assert(step::follows(steps, run, 10));
    }
    if run.len() > 11 {
        assert(step::follows(steps, run, 11));
    }
    if run.len() > 12 {
        assert(step::follows(steps, run, 12));
    }
    if run.len() > 13 {
        assert(step::follows(steps, run, 13));
    }
    if run.len() > 14 {
        assert(step::follows(steps, run, 14));
    }
    if run.len() > 15 {
        assert(step::follows(steps, run, 15));
    }
    if run.len() > 16 {
        assert(step::follows(steps, run, 16));
    }
    if run.len() > 17 {
        assert(step::follows(steps, run, 17));
    }
    if run.len() > 18 {
        assert(step::follows(steps, run, 18));
    }
    if run.len() > 19 {
        assert(step::follows(steps, run, 19));
    }
}

impl SwitchAccount {
    /// Whether the answer is one to the work that is to be done.
    pub open spec fn takes(self, reply: ServiceReply) -> bool {
        match self {
            SwitchAccount::CheckingSession { .. } => reply is Session,
            SwitchAccount::Validating { .. } => reply is Target,
            SwitchAccount::ResolvingClient { .. } => reply is Client,
            SwitchAccount::CheckingClient { .. } | SwitchAccount::UndoChecking { .. } => reply
                is Flag,
            SwitchAccount::ReadingCatalog { .. } => reply is Catalog,
            SwitchAccount::Applying { .. } => reply is Applied,
            SwitchAccount::Committing { .. } => reply is Committed,
            SwitchAccount::Showing => reply is Snapshot,
            _ => reply is Done,
        }
    }

    /// The switch whose saved account is not applied yet.
    pub open spec fn job(self) -> Option<SwitchJob> {
        match self {
            SwitchAccount::Settling { job } => Some(job),
            SwitchAccount::ReadingCatalog { job } => Some(job),
            SwitchAccount::ConfirmingStopped { job, .. } => Some(job),
            SwitchAccount::Applying { job, .. } => Some(job),
            _ => None,
        }
    }

    /// The switch whose saved account is applied and that is not committed yet.
    pub open spec fn applied(self) -> Option<AppliedSwitch> {
        match self {
            SwitchAccount::Launching { applied } => Some(applied),
            SwitchAccount::Verifying { applied } => Some(applied),
            SwitchAccount::Committing { applied } => Some(applied),
            _ => None,
        }
    }
}

/// What a failure in a switch leads to. Before the client was stopped, and once the switch is
/// committed, it ends the switch with its error. After that, until the saved account is
/// applied, a client that was running is started again, and the switch ends with the error,
/// beside that of the start where that fails too. Once the saved account is applied the
/// switch is undone: with its own receipt and client, and with the error as the reason.
pub proof fn law_failed_work_of_a_switch(
    target: AccountKey,
    run: Seq<Moment<SwitchAccount, ServiceReply>>,
    i: int,
)
    requires
        step::is_run(SwitchAccount::steps(), SwitchAccount::Locking { target }, run),
        0 <= i < run.len(),
        run[i].operation.takes(run[i].reply),
        run[i].reply.failure() is Some,
    ensures
        run[i].operation is Locking || run[i].operation is Recovering || run[i].operation
            is CheckingSession || run[i].operation is Validating || run[i].operation
            is CheckingClient || run[i].operation is Stopping || run[i].operation is Showing
            || run[i].operation is UndoChecking || (run[i].operation.job() is Some
            && !run[i].operation.job()->0.was_running) ==> i == run.len() - 1 && step::result_of(
            SwitchAccount::steps(),
            run,
        ) == Err::<AppSnapshot, ErrorView>(run[i].reply.failure()->0),
        run[i].operation.job() is Some && run[i].operation.job()->0.was_running ==> {
            &&& i + 1 < run.len()
            &&& run[i + 1].operation is Restarting
            &&& run[i + 1].operation->Restarting_client == run[i].operation.job()->0.client
            &&& run[i + 1].operation->Restarting_error@ == run[i].reply.failure()->0
            &&& run[i + 1].reply.is_done() ==> i + 1 == run.len() - 1 && step::result_of(
                SwitchAccount::steps(),
                run,
            ) == Err::<AppSnapshot, ErrorView>(run[i].reply.failure()->0)
        },
        run[i].operation.applied() is Some ==> {
            &&& i + 1 < run.len()
            &&& run[i + 1].operation is UndoChecking
            &&& run[i + 1].operation->UndoChecking_undo.client == run[i].operation.applied()->0.client
            &&& run[i + 1].operation->UndoChecking_undo.receipt == run[i].operation.applied()->0.receipt
            &&& run[i + 1].operation->UndoChecking_undo.error@ == run[i].reply.failure()->0
        },
{
    let steps = SwitchAccount::steps();
    assert(step::follows(steps, run, i));
    if i + 1 < run.len() {
        assert(step::follows(steps, run, i + 1));
    }
}

/// Undoing a switch: a client that runs is stopped, it is confirmed to be stopped, and the
/// files are put back by the switch's receipt, each of this exactly where the earlier work
/// succeeded. A client that was running before the switch is started again once the files
/// are back. The run ends in an error in every case; where everything succeeded it is that
/// of the switch, with the remark that the files are back.
pub proof fn law_undoing_a_switch(
    undo: SwitchRollback,
    run: Seq<Moment<SwitchAccount, ServiceReply>>,
)
    requires
        step::is_run(SwitchAccount::steps(), SwitchAccount::UndoChecking { undo }, run),
    ensures
        step::result_of(SwitchAccount::steps(), run) is Err,
        ({
            let k: int = if run[0].reply.flag() == Some(true) {
                1
            } else {
                0
            };
            run.len() > 2 + k <==> {
                &&& run[0].reply.flag() is Some
                &&& k == 1 ==> run[1].operation == (SwitchAccount::UndoStopping { undo })
                &&& k == 1 ==> run[1].reply.is_done()
                &&& run[1 + k].operation == (SwitchAccount::UndoConfirming { undo })
                &&& run[1 + k].reply.is_done()
            }
        }),
        ({
            let k: int = if run[0].reply.flag() == Some(true) {
                1
            } else {
                0
            };
            let kept = undo.receipt.previous_client_was_running;
            run.len() > 2 + k ==> {
                &&& run[2 + k].operation == (SwitchAccount::UndoApplying { undo })
                &&& run.len() > 3 + k <==> run[2 + k].reply.is_done() && kept
                &&& run.len() > 3 + k ==> run[3 + k].operation == (SwitchAccount::UndoLaunching {
                    undo,
                })
                &&& run[2 + k].reply.is_done() && (kept ==> run[3 + k].reply.is_done())
                    ==> step::result_of(SwitchAccount::steps(), run) == Err::<
                    AppSnapshot,
                    ErrorView,
                >(ErrorView::Transaction(undo.error@.nested() + "；已恢复切换前的账号配置"@))
            }
        }),
        run.len() <= 5,
{
    let steps = SwitchAccount::steps();
    assert(step::follows(steps, run, 0));
    if run.len() > 1 {
        assert(step::follows(steps, run, 1));
    }
    if run.len() > 2 {
        assert(step::follows(steps, run, 2));
    }
    if run.len() > 3 {
        assert(step::follows(steps, run, 3));
    }
    if run.len() > 4 {
        assert(step::follows(steps, run, 4));
    }
}

} // verus!
