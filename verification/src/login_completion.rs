//! The race between completing a login and cancelling it. A registry holds the
//! completion that is under way; a token stands for it in the operation that
//! performs it.

use vstd::prelude::*;

use crate::contracts::LoginCancellationStatus;
use crate::error::AppError;
use crate::error::ErrorView;
use crate::text;

verus! {

/// How far a completion has got.
#[derive(Clone, Copy, Debug, PartialEq, Eq, Structural)]
pub enum CompletionState {
    Starting,
    Active,
    CancellationRequested,
    RollingBack,
    Committing,
    Finished,
}

/// The completion that is under way.
struct ActiveCompletion {
    session_id: String,
    ticket: u64,
    state: CompletionState,
}

/// Holds the completion that is under way, if there is one. Every completion
/// gets a ticket of its own; one whose ticket is not the active one is finished.
pub struct LoginCompletionRegistry {
    active: Option<ActiveCompletion>,
    next_ticket: u64,
}

/// The completion that an operation performs.
#[derive(Debug)]
pub struct LoginCompletionToken {
    session_id: String,
    ticket: u64,
}

/// A completion: its session, its ticket and its state.
pub struct CompletionView {
    pub session_id: Seq<char>,
    pub ticket: nat,
    pub state: CompletionState,
}

/// What a registry holds.
pub struct RegistryView {
    pub active: Option<CompletionView>,
    pub next_ticket: nat,
}

/// What a token stands for.
pub struct TokenView {
    pub session_id: Seq<char>,
    pub ticket: nat,
}

impl View for LoginCompletionRegistry {
    type V = RegistryView;

    closed spec fn view(&self) -> RegistryView {
        RegistryView {
            active: match self.active {
                Some(active) => Some(
                    CompletionView {
                        session_id: active.session_id@,
                        ticket: active.ticket as nat,
                        state: active.state,
                    },
                ),
                None => None,
            },
            next_ticket: self.next_ticket as nat,
        }
    }
}

impl View for LoginCompletionToken {
    type V = TokenView;

    closed spec fn view(&self) -> TokenView {
        TokenView { session_id: self.session_id@, ticket: self.ticket as nat }
    }
}

impl Clone for LoginCompletionToken {
    fn clone(&self) -> (copy: Self)
        ensures
            copy == *self,
    {
        LoginCompletionToken { session_id: self.session_id.clone(), ticket: self.ticket }
    }
}

impl RegistryView {
    /// The state of the completion with the given ticket.
    pub open spec fn state(self, ticket: nat) -> CompletionState {
        match self.active {
            Some(active) => if active.ticket == ticket {
                active.state
            } else {
                CompletionState::Finished
            },
            None => CompletionState::Finished,
        }
    }

    /// The registry with the completion of the given ticket in `state`.
    pub open spec fn with_state(self, ticket: nat, state: CompletionState) -> RegistryView {
        match self.active {
            Some(active) => if active.ticket == ticket {
                RegistryView { active: Some(CompletionView { state, ..active }), ..self }
            } else {
                self
            },
            None => self,
        }
    }

    /// The registry once the completion has moved from `from` to `to`; nothing
    /// changes where it is in another state.
    pub open spec fn moved(
        self,
        ticket: nat,
        from: CompletionState,
        to: CompletionState,
    ) -> RegistryView {
        if self.state(ticket) == from {
            self.with_state(ticket, to)
        } else {
            self
        }
    }

    /// The registry once an error before the commit point was resolved.
    pub open spec fn error_resolved(self, ticket: nat) -> RegistryView {
        match self.state(ticket) {
            CompletionState::Starting | CompletionState::Active => self.with_state(
                ticket,
                CompletionState::Finished,
            ),
            CompletionState::CancellationRequested => self.with_state(
                ticket,
                CompletionState::RollingBack,
            ),
            _ => self,
        }
    }

    /// The registry once cancellation of the session was asked for.
    pub open spec fn cancelled(self, session_id: Seq<char>) -> RegistryView {
        match self.active {
            Some(active) => if active.session_id == session_id && (active.state
                == CompletionState::Starting || active.state == CompletionState::Active) {
                self.with_state(active.ticket, CompletionState::CancellationRequested)
            } else {
                self
            },
            None => self,
        }
    }

    /// The answer to a request to cancel the session.
    pub open spec fn cancellation(self, session_id: Seq<char>) -> LoginCancellationStatus {
        match self.active {
            None => LoginCancellationStatus::Starting,
            Some(active) => if active.session_id != session_id {
                LoginCancellationStatus::TooLate
            } else {
                match active.state {
                    CompletionState::Committing | CompletionState::Finished =>
                        LoginCancellationStatus::TooLate,
                    _ => LoginCancellationStatus::Accepted,
                }
            },
        }
    }

    /// The registry once a completion of the session was begun.
    pub open spec fn begun(self, session_id: Seq<char>) -> RegistryView {
        RegistryView {
            active: Some(
                CompletionView {
                    session_id,
                    ticket: self.next_ticket,
                    state: CompletionState::Starting,
                },
            ),
            next_ticket: self.next_ticket + 1,
        }
    }

    /// The registry once the token's completion was finished.
    pub open spec fn finished(self, token: TokenView) -> RegistryView {
        match self.active {
            Some(active) => if active.ticket == token.ticket {
                if active.session_id == token.session_id {
                    RegistryView { active: None, ..self }
                } else {
                    self.with_state(token.ticket, CompletionState::Finished)
                }
            } else {
                self
            },
            None => self,
        }
    }
}

impl Default for LoginCompletionRegistry {
    fn default() -> (registry: Self)
        ensures
            registry@.active is None,
            registry@.next_ticket == 0,
    {
        LoginCompletionRegistry { active: None, next_ticket: 0 }
    }
}

impl LoginCompletionRegistry {
    fn state(&self, ticket: u64) -> (state: CompletionState)
        ensures
            state == self@.state(ticket as nat),
    {
        match &self.active {
            Some(active) => if active.ticket == ticket {
                active.state
            } else {
                CompletionState::Finished
            },
            None => CompletionState::Finished,
        }
    }

    fn set_state(&mut self, ticket: u64, state: CompletionState)
        ensures
            final(self)@ == old(self)@.with_state(ticket as nat, state),
    {
        let active = self.active.take();
        self.active = match active {
            Some(active) => if active.ticket == ticket {
                Some(ActiveCompletion { session_id: active.session_id, ticket, state })
            } else {
                Some(active)
            },
            None => None,
        };
    }

    /// Moves the completion on where it is in the state `from`; says whether it
    /// was.
    fn exchange(&mut self, ticket: u64, from: CompletionState, to: CompletionState) -> (moved: bool)
        ensures
            moved == (old(self)@.state(ticket as nat) == from),
            final(self)@ == old(self)@.moved(ticket as nat, from, to),
    {
        if self.state(ticket) == from {
            self.set_state(ticket, to);
            true
        } else {
            false
        }
    }

    /// Begins a completion of the session. There is one at a time: while one is
    /// under way the registry is busy. (It hands out 2^64 - 1 tickets.)
    pub fn begin(&mut self, session_id: String) -> (token: Result<LoginCompletionToken, AppError>)
        ensures
            old(self)@.active is Some ==> token is Err && token->Err_0@ == ErrorView::OperationBusy,
            old(self)@.active is None && old(self)@.next_ticket == u64::MAX ==> token is Err
                && token->Err_0@ == ErrorView::StateUnavailable,
            token is Err <==> old(self)@.active is Some || old(self)@.next_ticket == u64::MAX,
            token is Err ==> final(self)@ == old(self)@,
            token is Ok ==> {
                &&& final(self)@ == old(self)@.begun(session_id@)
                &&& token->Ok_0@ == TokenView {
                    session_id: session_id@,
                    ticket: old(self)@.next_ticket,
                }
            },
    {
        if self.active.is_some() {
            return Err(AppError::OperationBusy);
        }
        if self.next_ticket == u64::MAX {
            return Err(AppError::StateUnavailable);
        }
        let ticket: u64 = self.next_ticket;
        self.next_ticket = ticket + 1;
        self.active = Some(
            ActiveCompletion {
                session_id: session_id.clone(),
                ticket,
                state: CompletionState::Starting,
            },
        );
        Ok(LoginCompletionToken { session_id, ticket })
    }

    /// Asks that the session's login be cancelled, and says whether it will be.
    pub fn request_cancellation(&mut self, session_id: &str) -> (answer: Result<
        LoginCancellationStatus,
        AppError,
    >)
        ensures
            answer == Ok::<LoginCancellationStatus, AppError>(
                old(self)@.cancellation(session_id@),
            ),
            final(self)@ == old(self)@.cancelled(session_id@),
    {
        let (ticket, state) = match &self.active {
            None => {
                return Ok(LoginCancellationStatus::Starting);
            },
            Some(active) => {
                if !text::same_text(active.session_id.as_str(), session_id) {
                    return Ok(LoginCancellationStatus::TooLate);
                }
                (active.ticket, active.state)
            },
        };
        match state {
            CompletionState::Starting | CompletionState::Active => {
                self.set_state(ticket, CompletionState::CancellationRequested);
                Ok(LoginCancellationStatus::Accepted)
            },
            CompletionState::CancellationRequested | CompletionState::RollingBack => Ok(
                LoginCancellationStatus::Accepted,
            ),
            CompletionState::Committing | CompletionState::Finished => Ok(
                LoginCancellationStatus::TooLate,
            ),
        }
    }

    /// Ends the token's completion.
    pub fn finish(&mut self, token: &LoginCompletionToken) -> (result: Result<(), AppError>)
        ensures
            result is Ok,
            final(self)@ == old(self)@.finished(token@),
            final(self)@.state(token@.ticket) == CompletionState::Finished,
    {
        self.set_state(token.ticket, CompletionState::Finished);
        let done = match &self.active {
            Some(active) => active.ticket == token.ticket && text::same_text(
                active.session_id.as_str(),
                token.session_id.as_str(),
            ),
            None => false,
        };
        if done {
            self.active = None;
        }
        Ok(())
    }
}

impl LoginCompletionToken {
    /// Starts the operation. A cancellation that came first does not stop it
    /// here: the operation sees it at its next step.
    pub fn activate(&self, registry: &mut LoginCompletionRegistry) -> (result: Result<(), AppError>)
        ensures
            final(registry)@ == old(registry)@.moved(
                self@.ticket,
                CompletionState::Starting,
                CompletionState::Active,
            ),
            result is Ok <==> old(registry)@.state(self@.ticket) == CompletionState::Starting
                || old(registry)@.state(self@.ticket) == CompletionState::CancellationRequested,
            result is Err ==> result->Err_0@ == ErrorView::StateUnavailable,
    {
        if registry.exchange(self.ticket, CompletionState::Starting, CompletionState::Active) {
            Ok(())
        } else if registry.state(self.ticket) == CompletionState::CancellationRequested {
            Ok(())
        } else {
            Err(AppError::StateUnavailable)
        }
    }

    /// Whether cancellation was asked for and nothing has answered it yet.
    pub fn cancellation_requested(&self, registry: &LoginCompletionRegistry) -> (requested: bool)
        ensures
            requested == (registry@.state(self@.ticket) == CompletionState::CancellationRequested),
    {
        registry.state(self.ticket) == CompletionState::CancellationRequested
    }

    /// Claims the rollback of a login whose cancellation was asked for.
    pub fn begin_rollback(&self, registry: &mut LoginCompletionRegistry) -> (claimed: bool)
        ensures
            claimed == (old(registry)@.state(self@.ticket)
                == CompletionState::CancellationRequested),
            final(registry)@ == old(registry)@.moved(
                self@.ticket,
                CompletionState::CancellationRequested,
                CompletionState::RollingBack,
            ),
    {
        registry.exchange(
            self.ticket,
            CompletionState::CancellationRequested,
            CompletionState::RollingBack,
        )
    }

    /// Settles an error before the commit point: either a cancellation came
    /// first and is to be rolled back, or no cancellation can follow.
    pub fn resolve_precommit_error(&self, registry: &mut LoginCompletionRegistry) -> (cancelled:
        bool)
        ensures
            cancelled == (old(registry)@.state(self@.ticket)
                == CompletionState::CancellationRequested),
            final(registry)@ == old(registry)@.error_resolved(self@.ticket),
    {
        match registry.state(self.ticket) {
            CompletionState::Starting | CompletionState::Active => {
                registry.set_state(self.ticket, CompletionState::Finished);
                false
            },
            CompletionState::CancellationRequested => self.begin_rollback(registry),
            CompletionState::RollingBack
            | CompletionState::Committing
            | CompletionState::Finished => false,
        }
    }

    /// Claims the rollback of an operation that failed.
    pub fn begin_failure_rollback(&self, registry: &mut LoginCompletionRegistry) -> (claimed: bool)
        ensures
            claimed == (old(registry)@.state(self@.ticket) == CompletionState::Active),
            final(registry)@ == old(registry)@.moved(
                self@.ticket,
                CompletionState::Active,
                CompletionState::RollingBack,
            ),
    {
        registry.exchange(self.ticket, CompletionState::Active, CompletionState::RollingBack)
    }

    /// Passes the commit point, unless the login is no longer active.
    pub fn begin_commit(&self, registry: &mut LoginCompletionRegistry) -> (committed: bool)
        ensures
            committed == (old(registry)@.state(self@.ticket) == CompletionState::Active),
            final(registry)@ == old(registry)@.moved(
                self@.ticket,
                CompletionState::Active,
                CompletionState::Committing,
            ),
    {
        registry.exchange(self.ticket, CompletionState::Active, CompletionState::Committing)
    }

    /// Whether the login was rolled back.
    pub fn was_cancelled(&self, registry: &LoginCompletionRegistry) -> (cancelled: bool)
        ensures
            cancelled == (registry@.state(self@.ticket) == CompletionState::RollingBack),
    {
        registry.state(self.ticket) == CompletionState::RollingBack
    }
}

/// A call that changes a registry.
pub enum CompletionCall {
    Begin { session_id: Seq<char> },
    RequestCancellation { session_id: Seq<char> },
    Activate { token: TokenView },
    BeginRollback { token: TokenView },
    ResolvePrecommitError { token: TokenView },
    BeginFailureRollback { token: TokenView },
    BeginCommit { token: TokenView },
    Finish { token: TokenView },
}

impl RegistryView {
    /// The registry after one call.
    pub open spec fn after(self, call: CompletionCall) -> RegistryView {
        match call {
            CompletionCall::Begin { session_id } => if self.active is Some || self.next_ticket
                == u64::MAX {
                self
            } else {
                self.begun(session_id)
            },
            CompletionCall::RequestCancellation { session_id } => self.cancelled(session_id),
            CompletionCall::Activate { token } => self.moved(
                token.ticket,
                CompletionState::Starting,
                CompletionState::Active,
            ),
            CompletionCall::BeginRollback { token } => self.moved(
                token.ticket,
                CompletionState::CancellationRequested,
                CompletionState::RollingBack,
            ),
            CompletionCall::ResolvePrecommitError { token } => self.error_resolved(token.ticket),
            CompletionCall::BeginFailureRollback { token } => self.moved(
                token.ticket,
                CompletionState::Active,
                CompletionState::RollingBack,
            ),
            CompletionCall::BeginCommit { token } => self.moved(
                token.ticket,
                CompletionState::Active,
                CompletionState::Committing,
            ),
            CompletionCall::Finish { token } => self.finished(token),
        }
    }

    /// The registry after the calls, one after another.
    pub open spec fn after_all(self, calls: Seq<CompletionCall>) -> RegistryView
        decreases calls.len(),
    {
        if calls.len() == 0 {
            self
        } else {
            self.after_all(calls.drop_last()).after(calls.last())
        }
    }

    /// Every ticket that was handed out stands below the next one.
    pub open spec fn valid(self) -> bool {
        self.active is Some ==> self.active->0.ticket < self.next_ticket
    }
}

/// Every call keeps the registry valid.
pub proof fn law_calls_keep_the_registry_valid(
    registry: RegistryView,
    calls: Seq<CompletionCall>,
)
    requires
        registry.valid(),
    ensures
        registry.after_all(calls).valid(),
        registry.after_all(calls).next_ticket >= registry.next_ticket,
    decreases calls.len(),
{
    if calls.len() > 0 {
        law_calls_keep_the_registry_valid(registry, calls.drop_last());
    }
}

/// A login whose cancellation was accepted is never committed, whatever calls
/// follow.
pub proof fn law_accepted_cancellation_prevents_commit(
    registry: RegistryView,
    calls: Seq<CompletionCall>,
    ticket: nat,
)
    requires
        registry.valid(),
        ticket < registry.next_ticket,
        registry.state(ticket) == CompletionState::CancellationRequested || registry.state(ticket)
            == CompletionState::RollingBack,
    ensures
        registry.after_all(calls).state(ticket) == CompletionState::CancellationRequested
            || registry.after_all(calls).state(ticket) == CompletionState::RollingBack
            || registry.after_all(calls).state(ticket) == CompletionState::Finished,
    decreases calls.len(),
{
    if calls.len() > 0 {
        law_accepted_cancellation_prevents_commit(registry, calls.drop_last(), ticket);
        law_calls_keep_the_registry_valid(registry, calls.drop_last());
    }
}

/// A login that passed its commit point is never rolled back, and every later
/// request to cancel its session comes too late, as long as it is the active
/// one.
pub proof fn law_committed_login_rejects_cancellation(
    registry: RegistryView,
    calls: Seq<CompletionCall>,
    ticket: nat,
    session_id: Seq<char>,
)
    requires
        registry.valid(),
        ticket < registry.next_ticket,
        registry.state(ticket) == CompletionState::Committing,
    ensures
        registry.after_all(calls).state(ticket) == CompletionState::Committing
            || registry.after_all(calls).state(ticket) == CompletionState::Finished,
        registry.after_all(calls).state(ticket) == CompletionState::Committing
            ==> registry.after_all(calls).cancellation(session_id)
            == LoginCancellationStatus::TooLate,
    decreases calls.len(),
{
    if calls.len() > 0 {
        law_committed_login_rejects_cancellation(registry, calls.drop_last(), ticket, session_id);
        law_calls_keep_the_registry_valid(registry, calls.drop_last());
    }
}

/// A finished completion stays finished: no call brings its ticket back.
pub proof fn law_finished_completion_stays_finished(
    registry: RegistryView,
    calls: Seq<CompletionCall>,
    ticket: nat,
)
    requires
        registry.valid(),
        ticket < registry.next_ticket,
        registry.state(ticket) == CompletionState::Finished,
    ensures
        registry.after_all(calls).state(ticket) == CompletionState::Finished,
    decreases calls.len(),
{
    if calls.len() > 0 {
        law_finished_completion_stays_finished(registry, calls.drop_last(), ticket);
        law_calls_keep_the_registry_valid(registry, calls.drop_last());
    }
}

/// The rollback of one login is claimed once: after one claim, by a
/// cancellation or by a failure, no later claim of it succeeds.
pub proof fn law_rollback_is_claimed_once(
    registry: RegistryView,
    calls: Seq<CompletionCall>,
    ticket: nat,
)
    requires
        registry.valid(),
        ticket < registry.next_ticket,
        registry.state(ticket) == CompletionState::RollingBack,
    ensures
        registry.after_all(calls).state(ticket) != CompletionState::Active,
        registry.after_all(calls).state(ticket) != CompletionState::CancellationRequested,
    decreases calls.len(),
{
    if calls.len() > 0 {
        law_rollback_is_claimed_once(registry, calls.drop_last(), ticket);
        law_accepted_cancellation_prevents_commit(registry, calls.drop_last(), ticket);
        law_calls_keep_the_registry_valid(registry, calls.drop_last());
    }
}

/// Finishing the registered completion makes room: a request to cancel a session is then
/// answered as before any completion, and the next completion is begun, as long as there
/// are tickets. Finishing another one than the registered leaves that as it is.
pub proof fn law_finishing_makes_room(
    registry: RegistryView,
    token: TokenView,
    session_id: Seq<char>,
    next: Seq<char>,
)
    requires
        registry.active is Some,
    ensures
        registry.active->0.ticket == token.ticket && registry.active->0.session_id
            == token.session_id ==> {
            let room = registry.finished(token);
            &&& room.active is None
            &&& room.next_ticket == registry.next_ticket
            &&& room.cancellation(session_id) == LoginCancellationStatus::Starting
            &&& room.cancelled(session_id) == room
            &&& registry.next_ticket != u64::MAX ==> {
                &&& room.after(CompletionCall::Begin { session_id: next }) == room.begun(next)
                &&& room.begun(next).state(registry.next_ticket) == CompletionState::Starting
            }
        },
        registry.active->0.ticket != token.ticket ==> registry.finished(token) == registry,
{
}

/// Whether one of the calls activates the completion with the ticket.
pub open spec fn activates(calls: Seq<CompletionCall>, ticket: nat) -> bool {
    exists|i: int|
        0 <= i < calls.len() && (#[trigger] calls[i] matches CompletionCall::Activate { token }
            && token.ticket == ticket)
}

/// A commit can be claimed only after activation: a completion that is not active, and none
/// of the calls activates it, does not pass the commit point by them and cannot pass it
/// after them.
pub proof fn law_commit_needs_activation(
    registry: RegistryView,
    calls: Seq<CompletionCall>,
    ticket: nat,
)
    requires
        registry.state(ticket) != CompletionState::Active,
        registry.state(ticket) != CompletionState::Committing,
        !activates(calls, ticket),
    ensures
        registry.after_all(calls).state(ticket) != CompletionState::Active,
        registry.after_all(calls).state(ticket) != CompletionState::Committing,
    decreases calls.len(),
{
    if calls.len() > 0 {
        let front = calls.drop_last();
        assert(!activates(front, ticket)) by {
            if activates(front, ticket) {
                let i = choose|i: int|
                    0 <= i < front.len() && (#[trigger] front[i] matches CompletionCall::Activate {
                        token,
                    } && token.ticket == ticket);
                assert(calls[i] == front[i]);
            }
        }
        law_commit_needs_activation(registry, front, ticket);
        assert(calls[calls.len() - 1] == calls.last());
    }
}

} // verus!
