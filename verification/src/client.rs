use vstd::prelude::*;
use futures_channel::oneshot::Canceled;
use crate::action::{Action, Catalog, DatabaseError, DatabaseResult};
use crate::worker::{worker_step, WorkerCommand, WorkerEvent, WorkerPhase};

verus! {

/// `futures_channel::oneshot::Canceled`, the error a one-shot receiver
/// yields when its sender was dropped without sending. Verus sees nothing
/// inside it; the library only tells it apart from an answer.
#[verifier::external_type_specification]
#[verifier::external_body]
pub struct ExCanceled(Canceled);

/// What handing an action over to the database thread gives a client.
pub open spec fn handed_over<X, F>(outcome: Result<(), X>) -> DatabaseResult<(), F> {
    match outcome {
        Ok(_) => Ok(()),
        Err(_) => Err(DatabaseError::SendFailed),
    }
}

/// What a client gets from the answer channel of an action whose answer is a
/// database result.
pub open spec fn answer_of<T, F>(reply: Result<DatabaseResult<T, F>, Canceled>) -> DatabaseResult<
    T,
    F,
> {
    match reply {
        Ok(answer) => answer,
        Err(_) => Err(DatabaseError::ReplyCanceled),
    }
}

/// What a client gets from the answer channel of a stop request.
pub open spec fn acknowledgement_of<F>(reply: Result<(), Canceled>) -> DatabaseResult<(), F> {
    match reply {
        Ok(()) => Ok(()),
        Err(_) => Err(DatabaseError::ReplyCanceled),
    }
}

/// Turn the outcome of sending an action on the action channel into a
/// database result: a refused send means the database thread is gone.
pub fn hand_over<X, F>(outcome: Result<(), X>) -> (result: DatabaseResult<(), F>)
    ensures
        result == handed_over::<X, F>(outcome),
        outcome is Ok ==> result == Ok::<(), DatabaseError<F>>(()),
        outcome is Err ==> result == Err::<(), DatabaseError<F>>(DatabaseError::SendFailed),
{
    match outcome {
        Ok(()) => Ok(()),
        Err(_) => Err(DatabaseError::SendFailed),
    }
}

/// Turn what arrived on an answer channel into the database result that the
/// client returns: the database thread's answer as it is, or an error when
/// the channel was dropped unanswered. The same holds of the readiness
/// answer a new database thread sends once its database is open.
pub fn take_answer<T, F>(reply: Result<DatabaseResult<T, F>, Canceled>) -> (result: DatabaseResult<
    T,
    F,
>)
    ensures
        result == answer_of(reply),
        reply is Ok ==> result == reply->Ok_0,
        reply is Err ==> result == Err::<T, DatabaseError<F>>(DatabaseError::ReplyCanceled),
{
    match reply {
        Ok(answer) => answer,
        Err(_) => Err(DatabaseError::ReplyCanceled),
    }
}

/// Turn what arrived on the answer channel of a stop request into the result
/// of stopping: success once the database thread acknowledged.
pub fn take_acknowledgement<F>(reply: Result<(), Canceled>) -> (result: DatabaseResult<(), F>)
    ensures
        result == acknowledgement_of::<F>(reply),
        reply is Ok ==> result == Ok::<(), DatabaseError<F>>(()),
        reply is Err ==> result == Err::<(), DatabaseError<F>>(DatabaseError::ReplyCanceled),
{
    match reply {
        Ok(()) => Ok(()),
        Err(_) => Err(DatabaseError::ReplyCanceled),
    }
}

/// After the database thread has stopped, any access to the database fails,
/// as far as the library decides it: the stopped thread performs nothing it
/// still receives and answers nothing, and a client whose action was refused
/// by the action channel, or whose answer channel was dropped unanswered,
/// gets an error. That a stopped thread's channels do refuse or drop rests on
/// `std::sync::mpsc` and `futures_channel::oneshot` and is not proved here.
pub proof fn law_access_after_stop_fails<C: Catalog, T, F, X>(
    action: Action<C>,
    send_error: X,
    canceled: Canceled,
)
    ensures
        worker_step(WorkerPhase::Stopped, WorkerEvent::Received(action)) == (
            WorkerPhase::Stopped,
            WorkerCommand::<C>::Exit,
        ),
        handed_over::<X, F>(Err(send_error)) == Err::<(), DatabaseError<F>>(
            DatabaseError::SendFailed,
        ),
        answer_of::<T, F>(Err(canceled)) == Err::<T, DatabaseError<F>>(
            DatabaseError::ReplyCanceled,
        ),
        acknowledgement_of::<F>(Err(canceled)) == Err::<(), DatabaseError<F>>(
            DatabaseError::ReplyCanceled,
        ),
{
}

/// A client gets exactly what the database thread answered: an access that is
/// handed over and answered returns the database's own result, errors
/// included.
pub proof fn law_answer_is_passed_through<T, F>(answer: DatabaseResult<T, F>)
    ensures
        handed_over::<(), F>(Ok(())) == Ok::<(), DatabaseError<F>>(()),
        answer_of::<T, F>(Ok(answer)) == answer,
{
}

/// Handing an action over succeeds exactly when the action channel accepted
/// it, whatever the type of the refused item: an accepted send lets the
/// client go on to its answer, and only a refused one fails, as `SendFailed`.
pub proof fn law_hand_over<X, F>(outcome: Result<(), X>)
    ensures
        handed_over::<X, F>(outcome) is Ok <==> outcome is Ok,
        handed_over::<X, F>(Ok(())) == Ok::<(), DatabaseError<F>>(()),
        outcome is Err ==> handed_over::<X, F>(outcome) == Err::<(), DatabaseError<F>>(
            DatabaseError::SendFailed,
        ),
{
}

/// A client returns the database thread's answer unchanged, for every answer
/// type and every failure type, and fails with `ReplyCanceled` exactly when
/// no answer came.
pub proof fn law_take_answer<T, F>(reply: Result<DatabaseResult<T, F>, Canceled>)
    ensures
        reply matches Ok(answer) ==> answer_of(reply) == answer,
        reply is Err ==> answer_of(reply) == Err::<T, DatabaseError<F>>(
            DatabaseError::ReplyCanceled,
        ),
        answer_of(reply) == Err::<T, DatabaseError<F>>(DatabaseError::ReplyCanceled) ==> (
        reply is Err || reply == Ok::<DatabaseResult<T, F>, Canceled>(
            Err(DatabaseError::ReplyCanceled),
        )),
{
}

/// Stopping succeeds exactly when the database thread acknowledged the stop
/// request, for every failure type.
pub proof fn law_stop_succeeds_when_acknowledged<F>(reply: Result<(), Canceled>)
    ensures
        acknowledgement_of::<F>(reply) is Ok <==> reply is Ok,
        acknowledgement_of::<F>(Ok(())) == Ok::<(), DatabaseError<F>>(()),
        reply is Err ==> acknowledgement_of::<F>(reply) == Err::<(), DatabaseError<F>>(
            DatabaseError::ReplyCanceled,
        ),
{
}

} // verus!
