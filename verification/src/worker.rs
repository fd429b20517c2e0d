use vstd::prelude::*;
use crate::channel::send_reply;
use crate::error::MultiplyError;
use crate::message::{Msg, MsgInput, MsgOutput, Payload, TaskView};
use crate::scalar::Scalar;
use crate::vector::{dot, dot_product};

verus! {

/// What a worker answers to a task: the dot product of the task's row and
/// column under the task's index, or a computation failure when the two
/// differ in length.
pub open spec fn outcome<T: Scalar>(task: TaskView<T>) -> Payload<T> {
    if task.row.len() == task.col.len() {
        Ok(MsgOutput { idx: task.idx as usize, value: dot(task.row, task.col) })
    } else {
        Err(MultiplyError::TaskComputationFailure)
    }
}

/// The worker that task `idx` goes to when `workers` workers share the
/// tasks round-robin.
pub open spec fn worker_of(idx: nat, workers: nat) -> nat {
    idx % workers
}

/// Picks the worker for task `idx`.
pub fn worker_for(idx: usize, workers: usize) -> (w: usize)
    requires
        workers >= 1,
    ensures
        w == worker_of(idx as nat, workers as nat),
        w < workers,
{
    idx % workers
}

/// Computes the answer to one task.
pub fn compute<T: Scalar>(input: MsgInput<T>) -> (payload: Payload<T>)
    ensures
        payload == outcome(input@),
{
    let idx = input.idx;
    match dot_product(input.row, input.col) {
        Ok(value) => Ok(MsgOutput { idx, value }),
        Err(_) => Err(MultiplyError::TaskComputationFailure),
    }
}

/// Handles one message of a worker's queue: computes the task's answer and
/// sends it on the message's reply channel. When the channel does not take
/// the answer, because its receiving end is gone, the answer comes back.
pub fn serve<T: Scalar>(msg: Msg<T>) -> (undelivered: Result<(), Payload<T>>)
    ensures
        undelivered matches Err(answer) ==> answer == outcome(msg.input@),
{
    let payload = compute(msg.input);
    let kept: Payload<T> = match &payload {
        Ok(out) => Ok(MsgOutput { idx: out.idx, value: out.value }),
        Err(e) => Err(*e),
    };
    match send_reply(msg.sender, payload) {
        Ok(_) => Ok(()),
        Err(_) => Err(kept),
    }
}

} // verus!
