//! Operations that alternate between decisions and work outside the library.
//! An operation is a value: it names the work that has to be done next, and it
//! is resumed with what came of that work. Each resumption gives one step.

use vstd::prelude::*;

use crate::contracts::EventView;
use crate::contracts::OperationEvent;
use crate::contracts::OperationKind;
use crate::error::AppError;
use crate::error::ErrorView;

verus! {

/// What an operation does next.
#[derive(Debug)]
pub enum Step<O, T> {
    /// Report the progress, where there is any to report, do the work that
    /// `operation` names, and resume `operation` with what came of it.
    Perform { operation: O, report: Option<OperationEvent> },
    /// The operation is over.
    Finished(Result<T, AppError>),
}

/// A [`Step`] with its report, its result and its error as mathematical values.
pub enum StepView<O, V> {
    Perform { operation: O, report: Option<EventView> },
    Finished(Result<V, ErrorView>),
}

impl<O, T: View> View for Step<O, T> {
    type V = StepView<O, T::V>;

    open spec fn view(&self) -> StepView<O, T::V> {
        match *self {
            Step::Perform { operation, report } => StepView::Perform {
                operation,
                report: match report {
                    Some(event) => Some(event@),
                    None => None,
                },
            },
            Step::Finished(Ok(value)) => StepView::Finished(Ok(value@)),
            Step::Finished(Err(error)) => StepView::Finished(Err(error@)),
        }
    }
}

/// The step that goes on with `operation`.
pub open spec fn going<O, V>(operation: O) -> StepView<O, V> {
    StepView::Perform { operation, report: None }
}

/// The step that reports `event` and goes on with `operation`.
pub open spec fn saying<O, V>(event: EventView, operation: O) -> StepView<O, V> {
    StepView::Perform { operation, report: Some(event) }
}

/// The step that ends an operation with `value`.
pub open spec fn ending<O, V>(value: V) -> StepView<O, V> {
    StepView::Finished(Ok(value))
}

/// The step that ends an operation with `error`.
pub open spec fn failing<O, V>(error: ErrorView) -> StepView<O, V> {
    StepView::Finished(Err(error))
}

/// The step taken when an operation is resumed with an answer to another
/// question than the one it asked.
pub open spec fn confused<O, V>() -> StepView<O, V> {
    StepView::Finished(Err(ErrorView::StateUnavailable))
}

/// Goes on with `operation`.
pub fn go<O, T: View>(operation: O) -> (step: Step<O, T>)
    ensures
        step@ == going::<O, T::V>(operation),
{
    Step::Perform { operation, report: None }
}

/// Reports `event` and goes on with `operation`.
pub fn say<O, T: View>(event: OperationEvent, operation: O) -> (step: Step<O, T>)
    ensures
        step@ == saying::<O, T::V>(event@, operation),
{
    Step::Perform { operation, report: Some(event) }
}

/// Ends an operation with `value`.
pub fn end<O, T: View>(value: T) -> (step: Step<O, T>)
    ensures
        step@ == ending::<O, T::V>(value@),
{
    Step::Finished(Ok(value))
}

/// Ends an operation with `error`.
pub fn fail<O, T: View>(error: AppError) -> (step: Step<O, T>)
    ensures
        step@ == failing::<O, T::V>(error@),
{
    Step::Finished(Err(error))
}

/// Ends an operation that was resumed with an answer to another question.
pub fn give_up<O, T: View>() -> (step: Step<O, T>)
    ensures
        step@ == confused::<O, T::V>(),
{
    Step::Finished(Err(AppError::StateUnavailable))
}

/// The progress report with the given contents.
pub open spec fn event(
    kind: OperationKind,
    phase: Seq<char>,
    title: Seq<char>,
    detail: Seq<char>,
    progress: u8,
) -> EventView {
    EventView { kind, phase, title, detail, progress }
}

/// The progress report with the given contents.
pub fn emit(
    kind: OperationKind,
    phase: &str,
    title: &str,
    detail: &str,
    progress: u8,
) -> (report: OperationEvent)
    ensures
        report@ == event(kind, phase@, title@, detail@, progress),
{
    OperationEvent {
        kind,
        phase: phase.to_owned(),
        title: title.to_owned(),
        detail: detail.to_owned(),
        progress,
    }
}

/// One piece of work of an operation and what came of it.
pub struct Moment<O, R> {
    pub operation: O,
    pub reply: R,
}

/// Whether the run goes on after the moment with this number as `steps` says, and ends where
/// `steps` ends it.
pub open spec fn follows<O, R, V>(
    steps: spec_fn(O, R) -> StepView<O, V>,
    run: Seq<Moment<O, R>>,
    i: int,
) -> bool {
    match steps(run[i].operation, run[i].reply) {
        StepView::Perform { operation, .. } => i + 1 < run.len() && run[i + 1].operation
            == operation,
        StepView::Finished(_) => i + 1 == run.len(),
    }
}

/// Whether the moments are a whole run of an operation, from `first` to its end.
pub open spec fn is_run<O, R, V>(
    steps: spec_fn(O, R) -> StepView<O, V>,
    first: O,
    run: Seq<Moment<O, R>>,
) -> bool {
    &&& run.len() > 0
    &&& run[0].operation == first
    &&& forall|i: int| 0 <= i < run.len() ==> #[trigger] follows(steps, run, i)
}

/// What a whole run came to.
pub open spec fn result_of<O, R, V>(
    steps: spec_fn(O, R) -> StepView<O, V>,
    run: Seq<Moment<O, R>>,
) -> Result<V, ErrorView> {
    steps(run.last().operation, run.last().reply)->Finished_0
}

/// One piece of work of an operation, what came of it, and the step that it led to.
pub struct Taken<O, R, T> {
    pub operation: O,
    pub reply: R,
    pub step: Step<O, T>,
}

/// Whether the step of the moment with this number is one that `leads` allows, and the run
/// goes on or ends with it.
pub open spec fn goes_on<O, R, T>(
    leads: spec_fn(O, R, Step<O, T>) -> bool,
    run: Seq<Taken<O, R, T>>,
    i: int,
) -> bool {
    &&& leads(run[i].operation, run[i].reply, run[i].step)
    &&& match run[i].step {
        Step::Perform { operation, .. } => i + 1 < run.len() && run[i + 1].operation == operation,
        Step::Finished(_) => i + 1 == run.len(),
    }
}

/// Whether the moments are a whole run of an operation, from `first` to its end.
pub open spec fn is_taken_run<O, R, T>(
    leads: spec_fn(O, R, Step<O, T>) -> bool,
    first: O,
    run: Seq<Taken<O, R, T>>,
) -> bool {
    &&& run.len() > 0
    &&& run[0].operation == first
    &&& forall|i: int| 0 <= i < run.len() ==> #[trigger] goes_on(leads, run, i)
}

/// What a whole run came to.
pub open spec fn taken_result<O, R, T: View>(run: Seq<Taken<O, R, T>>) -> Result<T::V, ErrorView> {
    run.last().step@->Finished_0
}

} // verus!
