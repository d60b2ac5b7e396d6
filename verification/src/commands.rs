//! What the front end's requests come to: one at a time has the service, and each is
//! answered with a value or with a text.

use vstd::prelude::*;

use crate::contracts::AppSnapshot;
use crate::contracts::LoginCompletionResult;
use crate::error::AppError;
use crate::text;

verus! {

/// What came of reaching for the service.
#[derive(Clone, Copy, Debug, PartialEq, Eq, Structural)]
pub enum ServiceClaim {
    /// It is held now.
    Held,
    /// Another request holds it.
    Taken,
    /// A request that held it broke down.
    Broken,
}

/// Whether a request can go on.
pub fn claim_service(claim: ServiceClaim) -> (result: Result<(), AppError>)
    ensures
        match claim {
            ServiceClaim::Held => result is Ok,
            ServiceClaim::Taken => result == Err::<(), AppError>(AppError::OperationBusy),
            ServiceClaim::Broken => result == Err::<(), AppError>(AppError::StateUnavailable),
        },
{
    match claim {
        ServiceClaim::Held => Ok(()),
        ServiceClaim::Taken => Err(AppError::OperationBusy),
        ServiceClaim::Broken => Err(AppError::StateUnavailable),
    }
}

/// The answer to a request whose work was done in the background; the work itself can
/// break down.
pub fn background_answer(finished: Result<Result<AppSnapshot, AppError>, String>) -> (answer: Result<
    AppSnapshot,
    String,
>)
    ensures
        match finished {
            Err(error) => answer is Err && answer->Err_0@ == "后台操作异常结束："@ + error@,
            Ok(Err(error)) => answer is Err && answer->Err_0@ == error@.message(),
            Ok(Ok(snapshot)) => answer == Ok::<AppSnapshot, String>(snapshot),
        },
{
    match finished {
        Err(error) => Err(text::joined2("后台操作异常结束：", error.as_str())),
        Ok(Err(error)) => Err(error.message()),
        Ok(Ok(snapshot)) => Ok(snapshot),
    }
}

/// The answer to the request to complete a login: an attempt that could not be put away
/// is an error, whatever came of the login.
pub fn login_answer(
    answer: Result<AppSnapshot, String>,
    cancelled: bool,
    put_away: Result<(), AppError>,
) -> (result: Result<LoginCompletionResult, String>)
    ensures
        match (put_away, answer) {
            (Err(error), _) => result is Err && result->Err_0@ == error@.message(),
            (Ok(_), Err(error)) => result == Err::<LoginCompletionResult, String>(error),
            (Ok(_), Ok(snapshot)) => result == Ok::<LoginCompletionResult, String>(
                (LoginCompletionResult { snapshot, cancelled }),
            ),
        },
{
    match (put_away, answer) {
        (Err(error), _) => Err(error.message()),
        (Ok(_), Err(error)) => Err(error),
        (Ok(_), Ok(snapshot)) => Ok(LoginCompletionResult { snapshot, cancelled }),
    }
}

} // verus!
