//! Recovering on Windows what an earlier run left unfinished.

use vstd::prelude::*;

use crate::contracts::EventView;
use crate::contracts::OperationEvent;
use crate::contracts::OperationKind;
use crate::error::ErrorView;
use crate::platform::windows::app_service;
use crate::platform::windows::app_service::ServiceReply;
use crate::platform::windows::app_service::WindowsPlatformService;
use crate::platform::windows::login_session::LoginRecoveryOutcome;
use crate::platform::windows::restore::RecoveryOutcome;
use crate::step::Moment;
use crate::step;
use crate::step::Step;
use crate::step::StepView;

verus! {

/// A report about a recovery.
pub open spec fn recovery_event(
    phase: Seq<char>,
    title: Seq<char>,
    detail: Seq<char>,
    progress: u8,
) -> EventView {
    step::event(OperationKind::Recovery, phase, title, detail, progress)
}

fn report(phase: &str, title: &str, detail: &str, progress: u8) -> (event: OperationEvent)
    ensures
        event@ == recovery_event(phase@, title@, detail@, progress),
{
    step::emit(OperationKind::Recovery, phase, title, detail, progress)
}

/// Recovering a switch that was left unfinished: the client is stopped where its
/// files have to be changed, the switch is undone or cleaned up, and the client
/// is started again where it was running before. Each state names the work that
/// is to be done.
#[derive(Debug)]
pub enum RecoverPending {
    /// It is to be found out whether a switch waits to be recovered.
    CheckingPending,
    /// It is to be found out whether the client's files have to be changed.
    CheckingWrite,
    /// Nothing but the report is to be done.
    Announced,
    /// It is to be found out whether the client was running before.
    CheckingRestart,
    /// It is to be found out whether the client runs.
    CheckingClient { restart: bool },
    /// The client is to be stopped.
    Stopping { restart: bool },
    /// It is to be made sure that the client is stopped.
    ConfirmingStopped { restart: bool },
    /// The switch is to be undone or cleaned up.
    Recovering { restart: bool },
    /// The client is to be found.
    ResolvingClient { outcome: RecoveryOutcome },
    /// The client is to be started.
    Launching { client: String, outcome: RecoveryOutcome },
    /// Nothing but the report is to be done.
    Finishing,
}

/// The report that the recovery begins.
pub open spec fn beginning_event(write: bool) -> EventView {
    recovery_event(
        "stoppingClient"@,
        "正在恢复上次操作"@,
        if write {
            "正在确认战网客户端已退出"@
        } else {
            "正在清理已完成的事务文件"@
        },
        20,
    )
}

/// The report that the switch is undone or cleaned up.
pub open spec fn undoing_event(write: bool) -> EventView {
    recovery_event(
        "rollingBack"@,
        "正在恢复上次操作"@,
        if write {
            "正在还原切换前的账号配置"@
        } else {
            "正在完成事务清理"@
        },
        64,
    )
}

/// The report that the recovery is over.
pub open spec fn recovered_event() -> EventView {
    recovery_event("completed"@, "恢复完成"@, "账号配置已回到一致状态"@, 100)
}

/// The notice about what was done, in place of `notice`.
pub open spec fn outcome_notice(
    outcome: RecoveryOutcome,
    notice: Option<Seq<char>>,
) -> Option<Seq<char>> {
    match outcome {
        RecoveryOutcome::Nothing => notice,
        RecoveryOutcome::RolledBack => Some("已恢复上次未完成切换前的账号配置。"@),
        RecoveryOutcome::CleanedCompleted => Some("已完成上次操作的安全清理。"@),
    }
}

fn noted(outcome: RecoveryOutcome, notice: Option<String>) -> (result: Option<String>)
    ensures
        app_service::notice_view(result) == outcome_notice(
            outcome,
            app_service::notice_view(notice),
        ),
{
    match outcome {
        RecoveryOutcome::Nothing => notice,
        RecoveryOutcome::RolledBack => Some("已恢复上次未完成切换前的账号配置。".to_owned()),
        RecoveryOutcome::CleanedCompleted => Some("已完成上次操作的安全清理。".to_owned()),
    }
}

fn finished() -> (step: Step<RecoverPending, ()>)
    ensures
        step@ == step::saying::<RecoverPending, ()>(recovered_event(), RecoverPending::Finishing),
{
    step::say(
        report("completed", "恢复完成", "账号配置已回到一致状态", 100),
        RecoverPending::Finishing,
    )
}

fn undoing(write: bool, restart: bool) -> (step: Step<RecoverPending, ()>)
    ensures
        step@ == step::saying::<RecoverPending, ()>(
            undoing_event(write),
            RecoverPending::Recovering { restart },
        ),
{
    let detail = if write {
        "正在还原切换前的账号配置"
    } else {
        "正在完成事务清理"
    };
    step::say(
        report("rollingBack", "正在恢复上次操作", detail, 64),
        RecoverPending::Recovering { restart },
    )
}

impl RecoverPending {
    /// What the answer leads to.
    pub open spec fn next(self, reply: ServiceReply) -> StepView<RecoverPending, ()> {
        match (self, reply) {
            (RecoverPending::CheckingPending, ServiceReply::Answer(pending)) => if pending {
                step::going(RecoverPending::CheckingWrite)
            } else {
                step::ending(())
            },
            (RecoverPending::CheckingWrite, ServiceReply::Flag(write)) => match write {
                Err(error) => step::failing(error@),
                Ok(true) => step::saying(beginning_event(true), RecoverPending::CheckingRestart),
                Ok(false) => step::saying(beginning_event(false), RecoverPending::Announced),
            },
            (RecoverPending::Announced, ServiceReply::Reported) => step::saying(
                undoing_event(false),
                RecoverPending::Recovering { restart: false },
            ),
            (RecoverPending::CheckingRestart, ServiceReply::Flag(restart)) => match restart {
                Err(error) => step::failing(error@),
                Ok(restart) => step::going(RecoverPending::CheckingClient { restart }),
            },
            (RecoverPending::CheckingClient { restart }, ServiceReply::Flag(running)) =>
                match running {
                    Err(error) => step::failing(error@),
                    Ok(true) => step::going(RecoverPending::Stopping { restart }),
                    Ok(false) => step::going(RecoverPending::ConfirmingStopped { restart }),
                },
            (RecoverPending::Stopping { restart }, ServiceReply::Done(done)) => match done {
                Err(error) => step::failing(error@),
                Ok(_) => step::going(RecoverPending::ConfirmingStopped { restart }),
            },
            (RecoverPending::ConfirmingStopped { restart }, ServiceReply::Done(done)) => match done {
                Err(error) => step::failing(error@),
                Ok(_) => step::saying(undoing_event(true), RecoverPending::Recovering { restart }),
            },
            (RecoverPending::Recovering { restart }, ServiceReply::Recovered(recovered)) =>
                match recovered {
                    Err(error) => step::failing(error@),
                    Ok(outcome) => if restart {
                        step::going(RecoverPending::ResolvingClient { outcome })
                    } else {
                        step::saying(recovered_event(), RecoverPending::Finishing)
                    },
                },
            (RecoverPending::ResolvingClient { outcome }, ServiceReply::Client(client)) =>
                match client {
                    Some(client) => step::going(RecoverPending::Launching { client, outcome }),
                    None => step::saying(recovered_event(), RecoverPending::Finishing),
                },
            (RecoverPending::Launching { client, outcome }, ServiceReply::Done(done)) =>
                match done {
                    Err(error) => step::failing(error@),
                    Ok(_) => step::saying(recovered_event(), RecoverPending::Finishing),
                },
            (RecoverPending::Finishing, ServiceReply::Reported) => step::ending(()),
            _ => step::confused(),
        }
    }

    /// The notice after the answer.
    pub open spec fn notice(
        self,
        reply: ServiceReply,
        notice: Option<Seq<char>>,
    ) -> Option<Seq<char>> {
        match (self, reply) {
            (
                RecoverPending::Recovering { restart: false },
                ServiceReply::Recovered(Ok(outcome)),
            ) => outcome_notice(outcome, notice),
            (RecoverPending::ResolvingClient { outcome }, ServiceReply::Client(None)) =>
                outcome_notice(
                    outcome,
                    Some("已恢复上次操作前的配置，但未找到 Battle.net.exe，请手动启动客户端。"@),
                ),
            (RecoverPending::Launching { outcome, .. }, ServiceReply::Done(Ok(_))) =>
                outcome_notice(outcome, notice),
            _ => notice,
        }
    }

    /// Takes the answer.
    pub fn resume(self, service: &mut WindowsPlatformService, reply: ServiceReply) -> (step: Step<
        RecoverPending,
        (),
    >)
        ensures
            step@ == self.next(reply),
            app_service::notice_view(final(service).startup_notice) == self.notice(
                reply,
                app_service::notice_view(old(service).startup_notice),
            ),
            *final(service) == (WindowsPlatformService {
                startup_notice: final(service).startup_notice,
                ..*old(service)
            }),
    {
        match (self, reply) {
            (RecoverPending::CheckingPending, ServiceReply::Answer(pending)) => if pending {
                step::go(RecoverPending::CheckingWrite)
            } else {
                step::end(())
            },
            (RecoverPending::CheckingWrite, ServiceReply::Flag(write)) => match write {
                Err(error) => step::fail(error),
                Ok(true) => step::say(
                    report("stoppingClient", "正在恢复上次操作", "正在确认战网客户端已退出", 20),
                    RecoverPending::CheckingRestart,
                ),
                Ok(false) => step::say(
                    report("stoppingClient", "正在恢复上次操作", "正在清理已完成的事务文件", 20),
                    RecoverPending::Announced,
                ),
            },
            (RecoverPending::Announced, ServiceReply::Reported) => undoing(false, false),
            (RecoverPending::CheckingRestart, ServiceReply::Flag(restart)) => match restart {
                Err(error) => step::fail(error),
                Ok(restart) => step::go(RecoverPending::CheckingClient { restart }),
            },
            (RecoverPending::CheckingClient { restart }, ServiceReply::Flag(running)) =>
                match running {
                    Err(error) => step::fail(error),
                    Ok(true) => step::go(RecoverPending::Stopping { restart }),
                    Ok(false) => step::go(RecoverPending::ConfirmingStopped { restart }),
                },
            (RecoverPending::Stopping { restart }, ServiceReply::Done(done)) => match done {
                Err(error) => step::fail(error),
                Ok(_) => step::go(RecoverPending::ConfirmingStopped { restart }),
            },
            (RecoverPending::ConfirmingStopped { restart }, ServiceReply::Done(done)) => match done {
                Err(error) => step::fail(error),
                Ok(_) => undoing(true, restart),
            },
            (RecoverPending::Recovering { restart }, ServiceReply::Recovered(recovered)) =>
                match recovered {
                    Err(error) => step::fail(error),
                    Ok(outcome) => if restart {
                        step::go(RecoverPending::ResolvingClient { outcome })
                    } else {
                        let notice = service.startup_notice.clone();
                        service.startup_notice = noted(outcome, notice);
                        finished()
                    },
                },
            (RecoverPending::ResolvingClient { outcome }, ServiceReply::Client(client)) =>
                match client {
                    Some(client) => step::go(RecoverPending::Launching { client, outcome }),
                    None => {
                        service.startup_notice = noted(
                            outcome,
                            Some(
                                "已恢复上次操作前的配置，但未找到 Battle.net.exe，请手动启动客户端。".to_owned(),
                            ),
                        );
                        finished()
                    },
                },
            (RecoverPending::Launching { client: _, outcome }, ServiceReply::Done(done)) =>
                match done {
                    Err(error) => step::fail(error),
                    Ok(_) => {
                        let notice = service.startup_notice.clone();
                        service.startup_notice = noted(outcome, notice);
                        finished()
                    },
                },
            (RecoverPending::Finishing, ServiceReply::Reported) => step::end(()),
            _ => step::give_up(),
        }
    }
}

/// Preparing the service for use: a switch and a login that were left unfinished
/// are recovered. Each state names the work that is to be done.
#[derive(Debug)]
pub enum PrepareForUse {
    /// It is to be found out whether a switch waits to be recovered.
    CheckingSwitch,
    /// It is to be found out whether a login waits to be recovered.
    CheckingLogin { switch: bool },
    /// The lock is to be taken.
    Locking { switch: bool, login: bool },
    /// The switch is to be recovered.
    RecoveringSwitch { login: bool },
    /// It is to be found out whether the client's files have to be changed.
    CheckingWrite,
    /// It is to be found out whether the client runs.
    CheckingClient,
    /// The client is to be stopped.
    Stopping,
    /// It is to be made sure that the client is stopped.
    ConfirmingStopped,
    /// The login is to be undone or cleaned up.
    RecoveringLogin,
}

impl PrepareForUse {
    /// What the answer leads to.
    pub open spec fn next(self, reply: ServiceReply) -> StepView<PrepareForUse, ()> {
        match (self, reply) {
            (PrepareForUse::CheckingSwitch, ServiceReply::Answer(switch)) => step::going(
                PrepareForUse::CheckingLogin { switch },
            ),
            (PrepareForUse::CheckingLogin { switch }, ServiceReply::Flag(login)) => match login {
                Err(error) => step::failing(error@),
                Ok(login) => if switch || login {
                    step::going(PrepareForUse::Locking { switch, login })
                } else {
                    step::ending(())
                },
            },
            (PrepareForUse::Locking { switch, login }, ServiceReply::Done(done)) => match done {
                Err(error) => step::failing(error@),
                Ok(_) => if switch {
                    step::going(PrepareForUse::RecoveringSwitch { login })
                } else if login {
                    step::going(PrepareForUse::CheckingWrite)
                } else {
                    step::ending(())
                },
            },
            (PrepareForUse::RecoveringSwitch { login }, ServiceReply::Done(done)) => match done {
                Err(error) => step::failing(error@),
                Ok(_) => if login {
                    step::going(PrepareForUse::CheckingWrite)
                } else {
                    step::ending(())
                },
            },
            (PrepareForUse::CheckingWrite, ServiceReply::Flag(write)) => match write {
                Err(error) => step::failing(error@),
                Ok(true) => step::going(PrepareForUse::CheckingClient),
                Ok(false) => step::going(PrepareForUse::RecoveringLogin),
            },
            (PrepareForUse::CheckingClient, ServiceReply::Flag(running)) => match running {
                Err(error) => step::failing(error@),
                Ok(true) => step::going(PrepareForUse::Stopping),
                Ok(false) => step::going(PrepareForUse::ConfirmingStopped),
            },
            (PrepareForUse::Stopping, ServiceReply::Done(done)) => match done {
                Err(error) => step::failing(error@),
                Ok(_) => step::going(PrepareForUse::ConfirmingStopped),
            },
            (PrepareForUse::ConfirmingStopped, ServiceReply::Done(done)) => match done {
                Err(error) => step::failing(error@),
                Ok(_) => step::going(PrepareForUse::RecoveringLogin),
            },
            (PrepareForUse::RecoveringLogin, ServiceReply::LoginRecovered(recovered)) =>
                match recovered {
                    Err(error) => step::failing(error@),
                    Ok(_) => step::ending(()),
                },
            _ => step::confused(),
        }
    }

    /// The notice after the answer: it changes where a login was recovered.
    pub open spec fn notice(
        self,
        reply: ServiceReply,
        notice: Option<Seq<char>>,
    ) -> Option<Seq<char>> {
        match (self, reply) {
            (PrepareForUse::RecoveringLogin, ServiceReply::LoginRecovered(Ok(outcome))) =>
                if outcome == LoginRecoveryOutcome::Nothing {
                    notice
                } else {
                    Some("已恢复上次未完成登录前的战网配置。"@)
                },
            _ => notice,
        }
    }

    /// Takes the answer.
    pub fn resume(self, service: &mut WindowsPlatformService, reply: ServiceReply) -> (step: Step<
        PrepareForUse,
        (),
    >)
        ensures
            step@ == self.next(reply),
            app_service::notice_view(final(service).startup_notice) == self.notice(
                reply,
                app_service::notice_view(old(service).startup_notice),
            ),
            *final(service) == (WindowsPlatformService {
                startup_notice: final(service).startup_notice,
                ..*old(service)
            }),
    {
        match (self, reply) {
            (PrepareForUse::CheckingSwitch, ServiceReply::Answer(switch)) => step::go(
                PrepareForUse::CheckingLogin { switch },
            ),
            (PrepareForUse::CheckingLogin { switch }, ServiceReply::Flag(login)) => match login {
                Err(error) => step::fail(error),
                Ok(login) => if switch || login {
                    step::go(PrepareForUse::Locking { switch, login })
                } else {
                    step::end(())
                },
            },
            (PrepareForUse::Locking { switch, login }, ServiceReply::Done(done)) => match done {
                Err(error) => step::fail(error),
                Ok(_) => if switch {
                    step::go(PrepareForUse::RecoveringSwitch { login })
                } else if login {
                    step::go(PrepareForUse::CheckingWrite)
                } else {
                    step::end(())
                },
            },
            (PrepareForUse::RecoveringSwitch { login }, ServiceReply::Done(done)) => match done {
                Err(error) => step::fail(error),
                Ok(_) => if login {
                    step::go(PrepareForUse::CheckingWrite)
                } else {
                    step::end(())
                },
            },
            (PrepareForUse::CheckingWrite, ServiceReply::Flag(write)) => match write {
                Err(error) => step::fail(error),
                Ok(true) => step::go(PrepareForUse::CheckingClient),
                Ok(false) => step::go(PrepareForUse::RecoveringLogin),
            },
            (PrepareForUse::CheckingClient, ServiceReply::Flag(running)) => match running {
                Err(error) => step::fail(error),
                Ok(true) => step::go(PrepareForUse::Stopping),
                Ok(false) => step::go(PrepareForUse::ConfirmingStopped),
            },
            (PrepareForUse::Stopping, ServiceReply::Done(done)) => match done {
                Err(error) => step::fail(error),
                Ok(_) => step::go(PrepareForUse::ConfirmingStopped),
            },
            (PrepareForUse::ConfirmingStopped, ServiceReply::Done(done)) => match done {
                Err(error) => step::fail(error),
                Ok(_) => step::go(PrepareForUse::RecoveringLogin),
            },
            (PrepareForUse::RecoveringLogin, ServiceReply::LoginRecovered(recovered)) =>
                match recovered {
                    Err(error) => step::fail(error),
                    Ok(outcome) => {
                        match outcome {
                            LoginRecoveryOutcome::Nothing => {},
                            _ => {
                                service.startup_notice = Some(
                                    "已恢复上次未完成登录前的战网配置。".to_owned(),
                                );
                            },
                        }
                        step::end(())
                    },
                },
            _ => step::give_up(),
        }
    }
}

impl WindowsPlatformService {
    /// Begins to prepare the service for use.
    pub fn prepare_for_use(&self) -> (operation: PrepareForUse)
        ensures
            operation == PrepareForUse::CheckingSwitch,
    {
        PrepareForUse::CheckingSwitch
    }

    /// Begins to recover a switch that was left unfinished.
    pub fn recover_pending(&self) -> (operation: RecoverPending)
        ensures
            operation == RecoverPending::CheckingPending,
    {
        RecoverPending::CheckingPending
    }
}

/// What a recovery has come to after the answers.
pub open spec fn recovered(replies: Seq<ServiceReply>) -> StepView<RecoverPending, ()>
    decreases replies.len(),
{
    if replies.len() == 0 {
        step::going(RecoverPending::CheckingPending)
    } else {
        match recovered(replies.drop_last()) {
            StepView::Perform { operation, .. } => operation.next(replies.last()),
            finished => finished,
        }
    }
}

/// Whether one of the answers says that the client's files have to be changed.
pub open spec fn changes_files(replies: Seq<ServiceReply>) -> bool {
    replies.len() >= 2 && replies[1] == ServiceReply::Flag(Ok(true))
}

/// Whether the operation comes before the work on the switch.
pub open spec fn is_before_the_work(operation: RecoverPending) -> bool {
    operation is CheckingRestart || operation is CheckingClient || operation is Stopping
        || operation is ConfirmingStopped
}

/// Whether the last of the answers confirmed that the client is stopped.
pub open spec fn stopped_before(replies: Seq<ServiceReply>) -> bool {
    &&& recovered(replies.drop_last()) matches StepView::Perform { operation, .. }
    &&& operation is ConfirmingStopped
    &&& replies.last() is Done
    &&& replies.last()->Done_0 is Ok
}

proof fn lemma_recovering(replies: Seq<ServiceReply>)
    ensures
        recovered(replies) matches StepView::Perform { operation, .. } ==> {
            &&& operation is CheckingPending <==> replies.len() == 0
            &&& operation is CheckingWrite <==> replies.len() == 1
            &&& operation is Announced ==> replies.len() == 2 && !changes_files(replies)
            &&& is_before_the_work(operation) ==> changes_files(replies)
            &&& operation is Recovering && changes_files(replies) ==> replies.len() > 2
                && stopped_before(replies)
        },
    decreases replies.len(),
{
    if replies.len() > 0 {
        lemma_recovering(replies.drop_last());
        if replies.len() > 1 {
            lemma_recovering(replies.drop_last().drop_last());
        }
    }
}

/// Where the recovery of a switch has to change the client's files, it begins
/// right after the client was confirmed to be stopped.
pub proof fn law_recovery_changes_files_only_while_stopped(replies: Seq<ServiceReply>)
    requires
        changes_files(replies),
        recovered(replies) matches StepView::Perform {
            operation: RecoverPending::Recovering { .. },
            ..
        },
    ensures
        stopped_before(replies),
{
    lemma_recovering(replies);
}

/// The recovery of a login begins only after it was found that the client's files
/// do not have to be changed, or right after the client was confirmed to be
/// stopped.
pub proof fn law_login_recovery_is_guarded(operation: PrepareForUse, reply: ServiceReply)
    requires
        operation.next(reply) matches StepView::Perform {
            operation: PrepareForUse::RecoveringLogin,
            ..
        },
    ensures
        (operation is CheckingWrite && reply is Flag && reply->Flag_0 == Ok::<
            bool,
            crate::error::AppError,
        >(false)) || (operation is ConfirmingStopped && reply is Done && reply->Done_0 is Ok),
{
}

impl RecoverPending {
    /// How the operation goes on.
    pub open spec fn steps() -> spec_fn(RecoverPending, ServiceReply) -> StepView<
        RecoverPending,
        (),
    > {
        |operation: RecoverPending, reply: ServiceReply| operation.next(reply)
    }
}

/// Recovering a switch succeeds exactly where none is waiting, or where it was found out
/// whether the client's files have to be changed, and, where they have to be, whether the
/// client was running before, the client that runs was stopped and was confirmed to be
/// stopped, where in every case the switch was then undone or cleaned up, and a client
/// that was running before and can be found was started again. Where no files have to be
/// changed the client is neither stopped nor started. The first work that fails ends the
/// recovery with its error.
pub proof fn law_pending_switch_is_recovered(
    run: Seq<Moment<RecoverPending, ServiceReply>>,
)
    requires
        step::is_run(RecoverPending::steps(), RecoverPending::CheckingPending, run),
    ensures
        step::result_of(RecoverPending::steps(), run) is Ok <==> {
            let w: int = if run[1].reply.flag() == Some(true) {
                1
            } else {
                0
            };
            let k: int = if w == 1 && run[3].reply.flag() == Some(true) {
                1
            } else {
                0
            };
            let restart = w == 1 && run[2].reply.flag() == Some(true);
            let at = if w == 1 {
                5 + k
            } else {
                3
            };
            let r: int = if restart {
                1
            } else {
                0
            };
            let l: int = if restart && run[at + 1].reply != ServiceReply::Client(None) {
                1
            } else {
                0
            };
            ||| run.len() == 1 && run[0].reply == ServiceReply::Answer(false)
            ||| {
                &&& run.len() == at + 2 + r + l
                &&& run[0].reply == ServiceReply::Answer(true)
                &&& run[1].operation is CheckingWrite
                &&& run[1].reply.flag() is Some
                &&& w == 0 ==> run[2].operation is Announced
                &&& w == 0 ==> run[2].reply is Reported
                &&& w == 1 ==> run[2].operation is CheckingRestart
                &&& w == 1 ==> run[2].reply.flag() is Some
                &&& w == 1 ==> run[3].operation is CheckingClient
                &&& w == 1 ==> run[3].reply.flag() is Some
                &&& k == 1 ==> run[4].operation is Stopping
                &&& k == 1 ==> run[4].reply.is_done()
                &&& w == 1 ==> run[4 + k].operation is ConfirmingStopped
                &&& w == 1 ==> run[4 + k].reply.is_done()
                &&& run[at].operation == (RecoverPending::Recovering { restart })
                &&& run[at].reply is Recovered
                &&& run[at].reply->Recovered_0 is Ok
                &&& restart ==> run[at + 1].operation is ResolvingClient
                &&& restart ==> run[at + 1].reply is Client
                &&& l == 1 ==> run[at + 2].operation is Launching
                &&& l == 1 ==> run[at + 2].operation->Launching_client == run[at + 1].reply->Client_0->0
                &&& l == 1 ==> run[at + 2].reply.is_done()
                &&& run.last().operation is Finishing
                &&& run.last().reply is Reported
            }
        },
        forall|i: int|
            0 <= i < run.len() && (#[trigger] run[i].reply.failure()) is Some && (match run[i].operation {
                RecoverPending::CheckingWrite
                | RecoverPending::CheckingRestart
                | RecoverPending::CheckingClient { .. } => run[i].reply is Flag,
                RecoverPending::Stopping { .. }
                | RecoverPending::ConfirmingStopped { .. }
                | RecoverPending::Launching { .. } => run[i].reply is Done,
                RecoverPending::Recovering { .. } => run[i].reply is Recovered,
                _ => false,
            }) ==> i == run.len() - 1 && step::result_of(RecoverPending::steps(), run) == Err::<(), ErrorView>(run[i].reply.failure()->0),
        run.len() <= 10,
{
    let steps = RecoverPending::steps();
    assert(step::follows(steps, run, 0));
    if run.len() > 1 {
        assert(step::follows(steps, run, 1));
    }
    if run.len() > 2 {
        assert(step::follows(steps, run, 2));
    }
    if run.len() > 3 {
        assert(step::follows(steps, run, 3));
    }
    if run.len() > 4 {
        assert(step::follows(steps, run, 4));
    }
    if run.len() > 5 {
        assert(step::follows(steps, run, 5));
    }
    if run.len() > 6 {
        assert(step::follows(steps, run, 6));
    }
    if run.len() > 7 {
        assert(step::follows(steps, run, 7));
    }
    if run.len() > 8 {
        assert(step::follows(steps, run, 8));
    }
    if run.len() > 9 {
        assert(step::follows(steps, run, 9));
    }
}

impl PrepareForUse {
    /// How the operation goes on.
    pub open spec fn steps() -> spec_fn(PrepareForUse, ServiceReply) -> StepView<
        PrepareForUse,
        (),
    > {
        |operation: PrepareForUse, reply: ServiceReply| operation.next(reply)
    }
}

/// Preparing for use succeeds exactly where neither a switch nor a login is waiting, or
/// where the lock was taken, a switch that was waiting was recovered, and a login that was
/// waiting was undone or cleaned up: where it has to change files, only after the client
/// that runs was stopped and was confirmed to be stopped. The first work that fails ends
/// it with its error.
pub proof fn law_everything_unfinished_is_recovered_before_use(
    run: Seq<Moment<PrepareForUse, ServiceReply>>,
)
    requires
        step::is_run(PrepareForUse::steps(), PrepareForUse::CheckingSwitch, run),
    ensures
        step::result_of(PrepareForUse::steps(), run) is Ok <==> {
            let switch = run[0].reply == ServiceReply::Answer(true);
            let login = run[1].reply.flag() == Some(true);
            let s: int = if switch {
                1
            } else {
                0
            };
            let at = 3 + s;
            let w: int = if login && run[at].reply.flag() == Some(true) {
                1
            } else {
                0
            };
            let k: int = if w == 1 && run[at + 1].reply.flag() == Some(true) {
                1
            } else {
                0
            };
            let end = at + 1 + 2 * w + k;
            &&& run.len() >= 2
            &&& run[0].reply is Answer
            &&& run[1].operation == (PrepareForUse::CheckingLogin { switch })
            &&& run[1].reply.flag() is Some
            &&& if !switch && !login {
                run.len() == 2
            } else {
                &&& run[2].operation == (PrepareForUse::Locking { switch, login })
                &&& run[2].reply.is_done()
                &&& switch ==> run[3].operation == (PrepareForUse::RecoveringSwitch { login })
                &&& switch ==> run[3].reply.is_done()
                &&& !login ==> run.len() == at
                &&& login ==> {
                    &&& run.len() == end + 1
                    &&& run[at].operation is CheckingWrite
                    &&& run[at].reply.flag() is Some
                    &&& w == 1 ==> run[at + 1].operation is CheckingClient
                    &&& w == 1 ==> run[at + 1].reply.flag() is Some
                    &&& k == 1 ==> run[at + 2].operation is Stopping
                    &&& k == 1 ==> run[at + 2].reply.is_done()
                    &&& w == 1 ==> run[at + 2 + k].operation is ConfirmingStopped
                    &&& w == 1 ==> run[at + 2 + k].reply.is_done()
                    &&& run[end].operation is RecoveringLogin
                    &&& run[end].reply is LoginRecovered
                    &&& run[end].reply->LoginRecovered_0 is Ok
                }
            }
        },
        forall|i: int|
            0 <= i < run.len() && (#[trigger] run[i].reply.failure()) is Some && (match run[i].operation {
                PrepareForUse::CheckingLogin { .. }
                | PrepareForUse::CheckingWrite
                | PrepareForUse::CheckingClient => run[i].reply is Flag,
                PrepareForUse::Locking { .. }
                | PrepareForUse::RecoveringSwitch { .. }
                | PrepareForUse::Stopping
                | PrepareForUse::ConfirmingStopped => run[i].reply is Done,
                PrepareForUse::RecoveringLogin => run[i].reply is LoginRecovered,
                _ => false,
            }) ==> i == run.len() - 1 && step::result_of(PrepareForUse::steps(), run) == Err::<(), ErrorView>(run[i].reply.failure()->0),
        run.len() <= 9,
{
    let steps = PrepareForUse::steps();
    assert(step::follows(steps, run, 0));
    if run.len() > 1 {
        assert(step::follows(steps, run, 1));
    }
    if run.len() > 2 {
        assert(step::follows(steps, run, 2));
    }
    if run.len() > 3 {
        assert(step::follows(steps, run, 3));
    }
    if run.len() > 4 {
        assert(step::follows(steps, run, 4));
    }
    if run.len() > 5 {
        assert(step::follows(steps, run, 5));
    }
    if run.len() > 6 {
        assert(step::follows(steps, run, 6));
    }
    if run.len() > 7 {
        assert(step::follows(steps, run, 7));
    }
    if run.len() > 8 {
        assert(step::follows(steps, run, 8));
    }
}

} // verus!
