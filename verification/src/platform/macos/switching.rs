//! Switching to a saved account on macOS.

use vstd::prelude::*;

use crate::contracts::AccountKey;
use crate::contracts::AppSnapshot;
use crate::contracts::EventView;
use crate::contracts::OperationEvent;
use crate::contracts::OperationKind;
use crate::error::AppError;
use crate::error::ErrorView;
use crate::platform::macos::app_service;
use crate::platform::macos::app_service::MacosPlatformService;
use crate::platform::macos::app_service::ServiceReply;
use crate::platform::macos::process::ValidatedClient;
use crate::platform::macos::recovery::CleanupOutcome;
use crate::platform::macos::recovery::RecoveryContext;
use crate::platform::macos::recovery::RecoveryEnvelope;
use crate::platform::macos::secure_snapshot::SecurePayload;
use crate::step::Moment;
use crate::step;
use crate::step::Step;
use crate::step::StepView;
use crate::text;

verus! {

/// A switch whose target is known to be in order.
#[derive(Debug)]
pub struct SwitchJob {
    pub target: AccountKey,
    /// What is saved of the target.
    pub payload: SecurePayload,
    pub client: ValidatedClient,
    pub was_running: bool,
}

/// A switch that is in the slot, and can be undone.
#[derive(Debug)]
pub struct PreparedSwitch {
    pub target: AccountKey,
    pub client: ValidatedClient,
    pub id: String,
}

/// Switching to a saved account. Each state names the work that is to be done.
#[derive(Debug)]
pub enum SwitchAccount {
    /// The lock is to be taken.
    Locking { target: AccountKey },
    /// The slot is to be read.
    CheckingIdle { target: AccountKey },
    /// The saved account is to be checked.
    Validating { target: AccountKey },
    /// The client is to be found.
    ResolvingClient { target: AccountKey, payload: SecurePayload },
    /// It is to be found out whether the client's main process runs.
    CheckingMain { target: AccountKey, payload: SecurePayload, client: ValidatedClient },
    /// It is to be found out whether the client runs.
    CheckingClient { job: SwitchJob },
    /// The client is to be stopped.
    Stopping { job: SwitchJob },
    /// It is to be made sure that the client is stopped.
    ConfirmingStopped { job: SwitchJob },
    /// The client's configuration has to settle.
    Settling { job: SwitchJob },
    /// The client's state is to be read.
    Capturing { job: SwitchJob },
    /// The switch is to be prepared in the slot, with the client's state from before it.
    Preparing { job: SwitchJob, before: SecurePayload },
    /// The saved account is to be put in place.
    Applying { payload: SecurePayload, prepared: PreparedSwitch },
    /// The client is to be started.
    Launching { prepared: PreparedSwitch },
    /// The client has to have started.
    Starting { prepared: PreparedSwitch },
    /// The client has to confirm the account.
    Verifying { prepared: PreparedSwitch },
    /// The switch is to be committed.
    Committing { id: String },
    /// The application is to be shown.
    Showing,
    /// The switch that failed is to be undone.
    Undoing { id: String, client: ValidatedClient, error: AppError },
}

/// A report about a switch.
pub open spec fn switch_event(
    phase: Seq<char>,
    title: Seq<char>,
    detail: Seq<char>,
    progress: u8,
) -> EventView {
    step::event(OperationKind::Switch, phase, title, detail, progress)
}

fn report(phase: &str, title: &str, detail: &str, progress: u8) -> (event: OperationEvent)
    ensures
        event@ == switch_event(phase@, title@, detail@, progress),
{
    step::emit(OperationKind::Switch, phase, title, detail, progress)
}

/// The step after a failure once the switch is in the slot: it is undone.
pub open spec fn undone(prepared: PreparedSwitch, error: AppError) -> StepView<
    SwitchAccount,
    AppSnapshot,
> {
    step::going(SwitchAccount::Undoing { id: prepared.id, client: prepared.client, error })
}

fn undo(prepared: PreparedSwitch, error: AppError) -> (step: Step<SwitchAccount, AppSnapshot>)
    ensures
        step@ == undone(prepared, error),
{
    step::go(SwitchAccount::Undoing { id: prepared.id, client: prepared.client, error })
}

/// What the slot holds for a switch: the client's state from before it, and its target.
/// Which account that state belongs to is not known.
pub fn switch_envelope(job: &SwitchJob, before: SecurePayload) -> (envelope: RecoveryEnvelope)
    ensures
        envelope == (RecoveryEnvelope {
            before,
            context: RecoveryContext::Switch { target_account: job.target, previous_account: None },
        }),
{
    RecoveryEnvelope {
        before,
        context: RecoveryContext::Switch {
            target_account: job.target.clone(),
            previous_account: None,
        },
    }
}

impl SwitchAccount {
    /// What the answer leads to.
    pub open spec fn next(self, reply: ServiceReply) -> StepView<SwitchAccount, AppSnapshot> {
        match (self, reply) {
            (SwitchAccount::Locking { target }, ServiceReply::Done(done)) => match done {
                Err(error) => step::failing(error@),
                Ok(_) => step::going(SwitchAccount::CheckingIdle { target }),
            },
            (SwitchAccount::CheckingIdle { target }, ServiceReply::Record(record)) =>
                match app_service::busy_error(record) {
                    Some(error) => step::failing(error),
                    None => step::going(SwitchAccount::Validating { target }),
                },
            (SwitchAccount::Validating { target }, ServiceReply::Payload(validated)) =>
                match validated {
                    Err(error) => step::failing(error@),
                    Ok(payload) => step::going(SwitchAccount::ResolvingClient { target, payload }),
                },
            (SwitchAccount::ResolvingClient { target, payload }, ServiceReply::Client(client)) =>
                match client {
                    Err(error) => step::failing(error@),
                    Ok(client) => step::going(
                        SwitchAccount::CheckingMain { target, payload, client },
                    ),
                },
            (
                SwitchAccount::CheckingMain { target, payload, client },
                ServiceReply::Flag(running),
            ) => match running {
                Err(error) => step::failing(error@),
                Ok(was_running) => step::saying(
                    switch_event("validating"@, "正在切换账号"@, "正在校验账号快照"@, 8),
                    SwitchAccount::CheckingClient {
                        job: SwitchJob { target, payload, client, was_running },
                    },
                ),
            },
            (SwitchAccount::CheckingClient { job }, ServiceReply::Flag(running)) => match running {
                Err(error) => step::failing(error@),
                Ok(true) => step::going(SwitchAccount::Stopping { job }),
                Ok(false) => step::going(SwitchAccount::ConfirmingStopped { job }),
            },
            (SwitchAccount::Stopping { job }, ServiceReply::Done(done)) => match done {
                Err(error) => step::failing(error@),
                Ok(_) => step::going(SwitchAccount::ConfirmingStopped { job }),
            },
            (SwitchAccount::ConfirmingStopped { job }, ServiceReply::Done(done)) => match done {
                Err(error) => step::failing(error@),
                Ok(_) => step::going(SwitchAccount::Settling { job }),
            },
            (SwitchAccount::Settling { job }, ServiceReply::Done(done)) => match done {
                Err(error) => step::failing(error@),
                Ok(_) => step::going(SwitchAccount::Capturing { job }),
            },
            (SwitchAccount::Capturing { job }, ServiceReply::Payload(captured)) => match captured {
                Err(error) => step::failing(error@),
                Ok(before) => step::going(SwitchAccount::Preparing { job, before }),
            },
            (SwitchAccount::Preparing { job, .. }, ServiceReply::Recorded(recorded)) =>
                match recorded {
                    Err(error) => step::failing(error@),
                    Ok(record) => step::saying(
                        switch_event("restoring"@, "正在切换账号"@, "正在恢复配置和认证状态"@, 56),
                        SwitchAccount::Applying {
                            payload: job.payload,
                            prepared: PreparedSwitch {
                                target: job.target,
                                client: job.client,
                                id: record.id,
                            },
                        },
                    ),
                },
            (SwitchAccount::Applying { prepared, .. }, ServiceReply::Done(done)) => match done {
                Err(error) => undone(prepared, error),
                Ok(_) => step::saying(
                    switch_event("launchingClient"@, "正在切换账号"@, "正在启动战网客户端"@, 76),
                    SwitchAccount::Launching { prepared },
                ),
            },
            (SwitchAccount::Launching { prepared }, ServiceReply::Done(done)) => match done {
                Err(error) => undone(prepared, error),
                Ok(_) => step::going(SwitchAccount::Starting { prepared }),
            },
            (SwitchAccount::Starting { prepared }, ServiceReply::Done(done)) => match done {
                Err(error) => undone(prepared, error),
                Ok(_) => step::saying(
                    switch_event("verifying"@, "正在切换账号"@, "正在检查客户端和目标资料"@, 88),
                    SwitchAccount::Verifying { prepared },
                ),
            },
            (SwitchAccount::Verifying { prepared }, ServiceReply::Done(done)) => match done {
                Err(error) => undone(prepared, error),
                Ok(_) => step::going(SwitchAccount::Committing { id: prepared.id }),
            },
            (SwitchAccount::Committing { .. }, ServiceReply::Committed(committed)) =>
                match committed {
                    Err(error) => step::failing(error@),
                    Ok(_) => step::saying(
                        switch_event("completed"@, "账号切换完成"@, "已自动确认当前活跃账号"@, 100),
                        SwitchAccount::Showing,
                    ),
                },
            (SwitchAccount::Showing, ServiceReply::Snapshot(snapshot)) => match snapshot {
                Err(error) => step::failing(error@),
                Ok(snapshot) => step::ending(snapshot),
            },
            (SwitchAccount::Undoing { .. }, ServiceReply::Snapshot(snapshot)) => match snapshot {
                Err(error) => step::failing(error@),
                Ok(snapshot) => step::ending(snapshot),
            },
            _ => step::confused(),
        }
    }

    /// The notice after the answer: it changes where a committed switch left
    /// recovery data behind.
    pub open spec fn notice(
        self,
        reply: ServiceReply,
        notice: Option<Seq<char>>,
    ) -> Option<Seq<char>> {
        match (self, reply) {
            (
                SwitchAccount::Committing { .. },
                ServiceReply::Committed(Ok(CleanupOutcome::Pending(error))),
            ) => Some("账号已切换，临时恢复文件将在下次启动时继续清理："@ + error@),
            _ => notice,
        }
    }

    /// Takes the answer.
    pub fn resume(self, service: &mut MacosPlatformService, reply: ServiceReply) -> (step: Step<
        SwitchAccount,
        AppSnapshot,
    >)
        ensures
            step@ == self.next(reply),
            app_service::notice_view(final(service).startup_notice) == self.notice(
                reply,
                app_service::notice_view(old(service).startup_notice),
            ),
            *final(service) == (MacosPlatformService {
                startup_notice: final(service).startup_notice,
                ..*old(service)
            }),
    {
        match (self, reply) {
            (SwitchAccount::Locking { target }, ServiceReply::Done(done)) => match done {
                Err(error) => step::fail(error),
                Ok(_) => step::go(SwitchAccount::CheckingIdle { target }),
            },
            (SwitchAccount::CheckingIdle { target }, ServiceReply::Record(record)) =>
                match app_service::ensure_idle(record) {
                    Err(error) => step::fail(error),
                    Ok(_) => step::go(SwitchAccount::Validating { target }),
                },
            (SwitchAccount::Validating { target }, ServiceReply::Payload(validated)) =>
                match validated {
                    Err(error) => step::fail(error),
                    Ok(payload) => step::go(SwitchAccount::ResolvingClient { target, payload }),
                },
            (SwitchAccount::ResolvingClient { target, payload }, ServiceReply::Client(client)) =>
                match client {
                    Err(error) => step::fail(error),
                    Ok(client) => step::go(
                        SwitchAccount::CheckingMain { target, payload, client },
                    ),
                },
            (
                SwitchAccount::CheckingMain { target, payload, client },
                ServiceReply::Flag(running),
            ) => match running {
                Err(error) => step::fail(error),
                Ok(was_running) => step::say(
                    report("validating", "正在切换账号", "正在校验账号快照", 8),
                    SwitchAccount::CheckingClient {
                        job: SwitchJob { target, payload, client, was_running },
                    },
                ),
            },
            (SwitchAccount::CheckingClient { job }, ServiceReply::Flag(running)) => match running {
                Err(error) => step::fail(error),
                Ok(true) => step::go(SwitchAccount::Stopping { job }),
                Ok(false) => step::go(SwitchAccount::ConfirmingStopped { job }),
            },
            (SwitchAccount::Stopping { job }, ServiceReply::Done(done)) => match done {
                Err(error) => step::fail(error),
                Ok(_) => step::go(SwitchAccount::ConfirmingStopped { job }),
            },
            (SwitchAccount::ConfirmingStopped { job }, ServiceReply::Done(done)) => match done {
                Err(error) => step::fail(error),
                Ok(_) => step::go(SwitchAccount::Settling { job }),
            },
            (SwitchAccount::Settling { job }, ServiceReply::Done(done)) => match done {
                Err(error) => step::fail(error),
                Ok(_) => step::go(SwitchAccount::Capturing { job }),
            },
            (SwitchAccount::Capturing { job }, ServiceReply::Payload(captured)) => match captured {
                Err(error) => step::fail(error),
                Ok(before) => step::go(SwitchAccount::Preparing { job, before }),
            },
            (SwitchAccount::Preparing { job, .. }, ServiceReply::Recorded(recorded)) =>
                match recorded {
                    Err(error) => step::fail(error),
                    Ok(record) => step::say(
                        report("restoring", "正在切换账号", "正在恢复配置和认证状态", 56),
                        SwitchAccount::Applying {
                            payload: job.payload,
                            prepared: PreparedSwitch {
                                target: job.target,
                                client: job.client,
                                id: record.id,
                            },
                        },
                    ),
                },
            (SwitchAccount::Applying { prepared, .. }, ServiceReply::Done(done)) => match done {
                Err(error) => undo(prepared, error),
                Ok(_) => step::say(
                    report("launchingClient", "正在切换账号", "正在启动战网客户端", 76),
                    SwitchAccount::Launching { prepared },
                ),
            },
            (SwitchAccount::Launching { prepared }, ServiceReply::Done(done)) => match done {
                Err(error) => undo(prepared, error),
                Ok(_) => step::go(SwitchAccount::Starting { prepared }),
            },
            (SwitchAccount::Starting { prepared }, ServiceReply::Done(done)) => match done {
                Err(error) => undo(prepared, error),
                Ok(_) => step::say(
                    report("verifying", "正在切换账号", "正在检查客户端和目标资料", 88),
                    SwitchAccount::Verifying { prepared },
                ),
            },
            (SwitchAccount::Verifying { prepared }, ServiceReply::Done(done)) => match done {
                Err(error) => undo(prepared, error),
                Ok(_) => step::go(SwitchAccount::Committing { id: prepared.id }),
            },
            (SwitchAccount::Committing { .. }, ServiceReply::Committed(committed)) => {
                match committed {
                    Err(error) => {
                        return step::fail(error);
                    },
                    Ok(CleanupOutcome::Clean) => {},
                    Ok(CleanupOutcome::Pending(error)) => {
                        service.startup_notice = Some(
                            text::joined2(
                                "账号已切换，临时恢复文件将在下次启动时继续清理：",
                                error.as_str(),
                            ),
                        );
                    },
                }
                step::say(
                    report("completed", "账号切换完成", "已自动确认当前活跃账号", 100),
                    SwitchAccount::Showing,
                )
            },
            (SwitchAccount::Showing, ServiceReply::Snapshot(snapshot)) => match snapshot {
                Err(error) => step::fail(error),
                Ok(snapshot) => step::end(snapshot),
            },
            (SwitchAccount::Undoing { .. }, ServiceReply::Snapshot(snapshot)) => match snapshot {
                Err(error) => step::fail(error),
                Ok(snapshot) => step::end(snapshot),
            },
            _ => step::give_up(),
        }
    }
}

impl MacosPlatformService {
    /// Begins to switch to the saved account.
    pub fn switch_account(&self, target: &AccountKey) -> (operation: SwitchAccount)
        ensures
            operation == (SwitchAccount::Locking { target: *target }),
    {
        SwitchAccount::Locking { target: target.clone() }
    }
}

/// What a switch has come to after the answers.
pub open spec fn switched(target: AccountKey, replies: Seq<ServiceReply>) -> StepView<
    SwitchAccount,
    AppSnapshot,
>
    decreases replies.len(),
{
    if replies.len() == 0 {
        step::going(SwitchAccount::Locking { target })
    } else {
        match switched(target, replies.drop_last()) {
            StepView::Perform { operation, .. } => operation.next(replies.last()),
            finished => finished,
        }
    }
}

/// The work of a switch that success depends on.
pub enum SwitchWork {
    Lock,
    /// The slot was empty.
    Idle,
    Confirm,
    Prepare,
    Apply,
    Verify,
    Commit,
    /// The switch was undone, and that ended in success.
    Undo,
}

/// Whether the operation's work is the given one, and the answer says that it
/// succeeded.
pub open spec fn succeeds(
    operation: SwitchAccount,
    reply: ServiceReply,
    work: SwitchWork,
) -> bool {
    match (operation, reply) {
        (SwitchAccount::Locking { .. }, ServiceReply::Done(Ok(_))) => work is Lock,
        (SwitchAccount::CheckingIdle { .. }, ServiceReply::Record(Ok(None))) => work is Idle,
        (SwitchAccount::ConfirmingStopped { .. }, ServiceReply::Done(Ok(_))) => work is Confirm,
        (SwitchAccount::Preparing { .. }, ServiceReply::Recorded(Ok(_))) => work is Prepare,
        (SwitchAccount::Applying { .. }, ServiceReply::Done(Ok(_))) => work is Apply,
        (SwitchAccount::Verifying { .. }, ServiceReply::Done(Ok(_))) => work is Verify,
        (SwitchAccount::Committing { .. }, ServiceReply::Committed(Ok(_))) => work is Commit,
        (SwitchAccount::Undoing { .. }, ServiceReply::Snapshot(Ok(_))) => work is Undo,
        _ => false,
    }
}

/// Whether the work succeeded at the answer with this number.
pub open spec fn succeeded_at(
    target: AccountKey,
    replies: Seq<ServiceReply>,
    work: SwitchWork,
    i: int,
) -> bool {
    &&& 0 <= i < replies.len()
    &&& switched(target, replies.take(i)) matches StepView::Perform { operation, .. } && succeeds(
        operation,
        replies[i],
        work,
    )
}

/// Whether the work succeeded among the answers.
pub open spec fn has_succeeded(
    target: AccountKey,
    replies: Seq<ServiceReply>,
    work: SwitchWork,
) -> bool {
    exists|i: int| succeeded_at(target, replies, work, i)
}

/// Whether the operation can only be reached after the work.
pub open spec fn comes_after(operation: SwitchAccount, work: SwitchWork) -> bool {
    match operation {
        SwitchAccount::Locking { .. } => false,
        SwitchAccount::CheckingIdle { .. } => work is Lock,
        SwitchAccount::Settling { .. }
        | SwitchAccount::Capturing { .. }
        | SwitchAccount::Preparing { .. } => work is Lock || work is Idle || work is Confirm,
        SwitchAccount::Applying { .. } => work is Lock || work is Idle || work is Confirm || work
            is Prepare,
        SwitchAccount::Launching { .. }
        | SwitchAccount::Starting { .. }
        | SwitchAccount::Verifying { .. } => work is Lock || work is Idle || work is Confirm
            || work is Prepare || work is Apply,
        SwitchAccount::Committing { .. } => !(work is Commit) && !(work is Undo),
        SwitchAccount::Showing => !(work is Undo),
        SwitchAccount::Undoing { .. } => work is Lock || work is Idle || work is Confirm || work
            is Prepare,
        _ => work is Lock || work is Idle,
    }
}

/// Whether the operation is still about the target, with what is saved of it.
pub open spec fn is_for_the_target(operation: SwitchAccount, target: AccountKey) -> bool {
    match operation {
        SwitchAccount::Locking { target: named }
        | SwitchAccount::CheckingIdle { target: named }
        | SwitchAccount::Validating { target: named }
        | SwitchAccount::ResolvingClient { target: named, .. }
        | SwitchAccount::CheckingMain { target: named, .. } => named == target,
        SwitchAccount::CheckingClient { job }
        | SwitchAccount::Stopping { job }
        | SwitchAccount::ConfirmingStopped { job }
        | SwitchAccount::Settling { job }
        | SwitchAccount::Capturing { job }
        | SwitchAccount::Preparing { job, .. } => job.target == target,
        SwitchAccount::Applying { prepared, .. }
        | SwitchAccount::Launching { prepared }
        | SwitchAccount::Starting { prepared }
        | SwitchAccount::Verifying { prepared } => prepared.target == target,
        _ => true,
    }
}

proof fn lemma_earlier(
    target: AccountKey,
    replies: Seq<ServiceReply>,
    reply: ServiceReply,
    work: SwitchWork,
)
    requires
        has_succeeded(target, replies, work),
    ensures
        has_succeeded(target, replies.push(reply), work),
{
    let i = choose|i: int| succeeded_at(target, replies, work, i);
    assert(replies.push(reply).take(i) =~= replies.take(i));
    assert(succeeded_at(target, replies.push(reply), work, i));
}

proof fn lemma_reached(target: AccountKey, replies: Seq<ServiceReply>, work: SwitchWork)
    ensures
        match switched(target, replies) {
            StepView::Perform { operation, .. } => {
                &&& is_for_the_target(operation, target)
                &&& comes_after(operation, work) ==> has_succeeded(target, replies, work)
            },
            StepView::Finished(Ok(_)) => has_succeeded(target, replies, SwitchWork::Undo)
                || work is Undo || has_succeeded(target, replies, work),
            StepView::Finished(Err(_)) => true,
        },
    decreases replies.len(),
{
    if replies.len() > 0 {
        let earlier = replies.drop_last();
        let reply = replies.last();
        lemma_reached(target, earlier, work);
        assert(earlier.push(reply) =~= replies);
        if has_succeeded(target, earlier, work) {
            lemma_earlier(target, earlier, reply, work);
        }
        if has_succeeded(target, earlier, SwitchWork::Undo) {
            lemma_earlier(target, earlier, reply, SwitchWork::Undo);
        }
        let at = earlier.len() as int;
        assert(replies.take(at) =~= earlier);
        match switched(target, earlier) {
            StepView::Perform { operation, .. } => {
                if succeeds(operation, reply, work) {
                    assert(succeeded_at(target, replies, work, at));
                }
                if succeeds(operation, reply, SwitchWork::Undo) {
                    assert(succeeded_at(target, replies, SwitchWork::Undo, at));
                }
            },
            _ => {},
        }
    }
}

/// A switch succeeds only where, in this run, the lock was taken, the slot was empty, the
/// client was confirmed to be stopped, the switch was prepared in the slot, the saved
/// account was put in place, the client confirmed the account, and the switch was
/// committed. (Undoing a failed switch always ends in an error: see
/// [`app_service::law_failed_operation_ends_in_an_error`].)
pub proof fn law_successful_switch_was_verified_and_committed(
    target: AccountKey,
    replies: Seq<ServiceReply>,
)
    requires
        switched(target, replies) matches StepView::Finished(Ok(_)),
        !has_succeeded(target, replies, SwitchWork::Undo),
    ensures
        has_succeeded(target, replies, SwitchWork::Lock),
        has_succeeded(target, replies, SwitchWork::Idle),
        has_succeeded(target, replies, SwitchWork::Confirm),
        has_succeeded(target, replies, SwitchWork::Prepare),
        has_succeeded(target, replies, SwitchWork::Apply),
        has_succeeded(target, replies, SwitchWork::Verify),
        has_succeeded(target, replies, SwitchWork::Commit),
{
    lemma_reached(target, replies, SwitchWork::Lock);
    lemma_reached(target, replies, SwitchWork::Idle);
    lemma_reached(target, replies, SwitchWork::Confirm);
    lemma_reached(target, replies, SwitchWork::Prepare);
    lemma_reached(target, replies, SwitchWork::Apply);
    lemma_reached(target, replies, SwitchWork::Verify);
    lemma_reached(target, replies, SwitchWork::Commit);
}

/// The account that is put in place and that the client has to confirm is the one that was
/// asked for; it is put in place only once the client's state from before is in the slot,
/// and the client was confirmed to be stopped.
pub proof fn law_switch_is_prepared_before_it_is_applied(
    target: AccountKey,
    replies: Seq<ServiceReply>,
)
    ensures
        switched(target, replies) matches StepView::Perform {
            operation: SwitchAccount::Applying { payload, prepared },
            ..
        } ==> prepared.target == target && has_succeeded(target, replies, SwitchWork::Prepare)
            && has_succeeded(target, replies, SwitchWork::Confirm),
        switched(target, replies) matches StepView::Perform {
            operation: SwitchAccount::Verifying { prepared },
            ..
        } ==> prepared.target == target,
{
    lemma_reached(target, replies, SwitchWork::Prepare);
    lemma_reached(target, replies, SwitchWork::Confirm);
}

/// A switch is committed only after the client has confirmed the account, and what is put
/// in place is what was saved of it.
pub proof fn law_switch_steps_are_guarded(operation: SwitchAccount, reply: ServiceReply)
    ensures
        operation.next(reply) matches StepView::Perform {
            operation: SwitchAccount::Committing { id },
            ..
        } ==> operation is Verifying && operation->Verifying_prepared.id == id && succeeds(
            operation,
            reply,
            SwitchWork::Verify,
        ),
        operation.next(reply) matches StepView::Perform {
            operation: SwitchAccount::Applying { payload, prepared },
            ..
        } ==> operation is Preparing && operation->Preparing_job.payload == payload && succeeds(
            operation,
            reply,
            SwitchWork::Prepare,
        ) && prepared.id == reply->Recorded_0->Ok_0.id,
{
}

/// Every failure after a switch is in the slot and before it is committed leads to its
/// undoing: of the same record, with the failure as the reason.
pub proof fn law_prepared_switch_is_undone_on_failure(
    operation: SwitchAccount,
    prepared: PreparedSwitch,
    error: AppError,
)
    requires
        (operation is Applying && operation->Applying_prepared == prepared) || operation == (
        SwitchAccount::Launching { prepared }) || operation == (SwitchAccount::Starting {
            prepared,
        }) || operation == (SwitchAccount::Verifying { prepared }),
    ensures
        operation.next(ServiceReply::Done(Err(error))) == step::going::<SwitchAccount, AppSnapshot>(
            SwitchAccount::Undoing { id: prepared.id, client: prepared.client, error },
        ),
{
}

impl SwitchAccount {
    /// How the operation goes on.
    pub open spec fn steps() -> spec_fn(SwitchAccount, ServiceReply) -> StepView<
        SwitchAccount,
        AppSnapshot,
    > {
        |operation: SwitchAccount, reply: ServiceReply| operation.next(reply)
    }
}

/// A switch that is not undone succeeds exactly where, in this order, the lock was taken,
/// the slot was empty, the saved account of the target was in order, the client was found,
/// a client that runs was stopped, it was confirmed to be stopped, its configuration
/// settled, its state was read, the switch was prepared with that state, what is saved of
/// the target was put in place, the client that was found was started and came up, it
/// confirmed the target, the prepared switch was committed, and the application was shown.
/// Before the switch is prepared a failure ends it with its error; from then until the
/// commit it is undone, with the failure as the reason.
#[verifier::rlimit(60)]
pub proof fn law_switch_does_all_its_work_in_order(
    target: AccountKey,
    run: Seq<Moment<SwitchAccount, ServiceReply>>,
)
    requires
        step::is_run(SwitchAccount::steps(), SwitchAccount::Locking { target }, run),
    ensures
        step::result_of(SwitchAccount::steps(), run) is Ok && !(run.last().operation
            is Undoing) <==> {
            let k: int = if run[5].reply.flag() == Some(true) {
                1
            } else {
                0
            };
            let job = SwitchJob {
                target,
                payload: run[2].reply->Payload_0->Ok_0,
                client: run[3].reply->Client_0->Ok_0,
                was_running: run[4].reply.flag() == Some(true),
            };
            let prepared = PreparedSwitch { target, client: job.client, id: run[9 + k].reply->Recorded_0->Ok_0.id };
            &&& run.len() == 16 + k
            &&& run[0].reply.is_done()
            &&& run[1].operation == (SwitchAccount::CheckingIdle { target })
            &&& run[1].reply == ServiceReply::Record(Ok(None))
            &&& run[2].operation == (SwitchAccount::Validating { target })
            &&& run[2].reply is Payload
            &&& run[2].reply->Payload_0 is Ok
            &&& run[3].operation is ResolvingClient
            &&& run[3].reply is Client
            &&& run[3].reply->Client_0 is Ok
            &&& run[4].operation is CheckingMain
            &&& run[4].reply.flag() is Some
            &&& run[5].operation == (SwitchAccount::CheckingClient { job })
            &&& run[5].reply.flag() is Some
            &&& k == 1 ==> run[6].operation == (SwitchAccount::Stopping { job })
            &&& k == 1 ==> run[6].reply.is_done()
            &&& run[6 + k].operation == (SwitchAccount::ConfirmingStopped { job })
            &&& run[6 + k].reply.is_done()
            &&& run[7 + k].operation == (SwitchAccount::Settling { job })
            &&& run[7 + k].reply.is_done()
            &&& run[8 + k].operation == (SwitchAccount::Capturing { job })
            &&& run[8 + k].reply is Payload
            &&& run[8 + k].reply->Payload_0 is Ok
            &&& run[9 + k].operation == (SwitchAccount::Preparing { job, before: run[8 + k].reply->Payload_0->Ok_0 })
            &&& run[9 + k].reply is Recorded
            &&& run[9 + k].reply->Recorded_0 is Ok
            &&& run[10 + k].operation == (SwitchAccount::Applying { payload: job.payload, prepared })
            &&& run[10 + k].reply.is_done()
            &&& run[11 + k].operation == (SwitchAccount::Launching { prepared })
            &&& run[11 + k].reply.is_done()
            &&& run[12 + k].operation == (SwitchAccount::Starting { prepared })
            &&& run[12 + k].reply.is_done()
            &&& run[13 + k].operation == (SwitchAccount::Verifying { prepared })
            &&& run[13 + k].reply.is_done()
            &&& run[14 + k].operation == (SwitchAccount::Committing { id: prepared.id })
            &&& run[14 + k].reply is Committed
            &&& run[14 + k].reply->Committed_0 is Ok
            &&& run[15 + k].operation is Showing
            &&& run[15 + k].reply is Snapshot
            &&& run[15 + k].reply->Snapshot_0 is Ok
        },
        forall|i: int|
            0 <= i < run.len() && (#[trigger] run[i].reply.failure()) is Some && (match run[i].operation {
                SwitchAccount::CheckingIdle { .. } => run[i].reply is Record,
                SwitchAccount::Validating { .. } | SwitchAccount::Capturing { .. } => run[i].reply
                    is Payload,
                SwitchAccount::ResolvingClient { .. } => run[i].reply is Client,
                SwitchAccount::CheckingMain { .. } | SwitchAccount::CheckingClient { .. } => run[i].reply
                    is Flag,
                SwitchAccount::Preparing { .. } => run[i].reply is Recorded,
                SwitchAccount::Committing { .. } => run[i].reply is Committed,
                SwitchAccount::Showing | SwitchAccount::Undoing { .. } => run[i].reply is Snapshot,
                SwitchAccount::Locking { .. }
                | SwitchAccount::Stopping { .. }
                | SwitchAccount::ConfirmingStopped { .. }
                | SwitchAccount::Settling { .. } => run[i].reply is Done,
                _ => false,
            }) ==> i == run.len() - 1 && step::result_of(SwitchAccount::steps(), run) == Err::<AppSnapshot, ErrorView>(run[i].reply.failure()->0),
        forall|i: int|
            0 <= i < run.len() && (#[trigger] run[i].reply.failure()) is Some && run[i].reply is Done && (
            run[i].operation is Applying || run[i].operation is Launching || run[i].operation is Starting
                || run[i].operation is Verifying) ==> {
                let prepared = match run[i].operation {
                    SwitchAccount::Applying { prepared, .. } => prepared,
                    SwitchAccount::Launching { prepared } => prepared,
                    SwitchAccount::Starting { prepared } => prepared,
                    SwitchAccount::Verifying { prepared } => prepared,
                    _ => arbitrary(),
                };
                &&& i + 2 == run.len()
                &&& run[i + 1].operation is Undoing
                &&& run[i + 1].operation->Undoing_id == prepared.id
                &&& run[i + 1].operation->Undoing_client == prepared.client
                &&& run[i + 1].operation->Undoing_error@ == run[i].reply.failure()->0
            },
        run.len() <= 18,
{
    let steps = SwitchAccount::steps();
    assert(step::follows(steps, run, 0));
    if run.len() > 1 {
        assert(step::follows(steps, run, 1));
    }
    if run.len() > 2 {
        assert(step::follows(steps, run, 2));
    }
    if run.len() > 3 {
        assert(step::follows(steps, run, 3));
    }
    if run.len() > 4 {
        assert(step::follows(steps, run, 4));
    }
    if run.len() > 5 {
        assert(step::follows(steps, run, 5));
    }
    if run.len() > 6 {
        assert(step::follows(steps, run, 6));
    }
    if run.len() > 7 {
        assert(step::follows(steps, run, 7));
    }
    if run.len() > 8 {
        assert(step::follows(steps, run, 8));
    }
    if run.len() > 9 {
        assert(step::follows(steps, run, 9));
    }
    if run.len() > 10 {
        assert(step::follows(steps, run, 10));
    }
    if run.len() > 11 {
        assert(step::follows(steps, run, 11));
    }
    if run.len() > 12 {
        assert(step::follows(steps, run, 12));
    }
    if run.len() > 13 {
        assert(step::follows(steps, run, 13));
    }
    if run.len() > 14 {
        assert(step::follows(steps, run, 14));
    }
    if run.len() > 15 {
        assert(step::follows(steps, run, 15));
    }
    if run.len() > 16 {
        assert(step::follows(steps, run, 16));
    }
    if run.len() > 17 {
        assert(step::follows(steps, run, 17));
    }
}

} // verus!
