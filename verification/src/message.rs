use vstd::prelude::*;
use crate::error::MultiplyError;
use crate::vector::Vector;

verus! {

/// The work for one output cell: the cell's index in the row-major output,
/// and the row and the column whose dot product is its value.
pub struct MsgInput<T> {
    pub idx: usize,
    pub row: Vector<T>,
    pub col: Vector<T>,
}

/// The mathematical content of a `MsgInput`.
pub struct TaskView<T> {
    pub idx: nat,
    pub row: Seq<T>,
    pub col: Seq<T>,
}

impl<T> View for MsgInput<T> {
    type V = TaskView<T>;

    open spec fn view(&self) -> TaskView<T> {
        TaskView { idx: self.idx as nat, row: self.row@, col: self.col@ }
    }
}

impl<T> MsgInput<T> {
    pub fn new(idx: usize, row: Vector<T>, col: Vector<T>) -> (input: Self)
        ensures
            input.idx == idx,
            input.row == row,
            input.col == col,
    {
        Self { idx, row, col }
    }
}

/// The value computed for one output cell, with the cell's index.
pub struct MsgOutput<T> {
    pub idx: usize,
    pub value: T,
}

/// What a worker sends back for one task: the cell's value, or the reason
/// why there is none.
pub type Payload<T> = Result<MsgOutput<T>, MultiplyError>;

/// What the orchestrator learns about one task: the payload that arrived, or
/// `None` when the reply channel was closed with nothing sent on it.
pub type Reply<T> = Option<Payload<T>>;

/// A task on its way to a worker, with the sending end of the single-use
/// channel on which the worker answers.
#[verifier::reject_recursive_types(T)]
pub struct Msg<T> {
    pub input: MsgInput<T>,
    pub sender: oneshot::Sender<Payload<T>>,
}

impl<T> Msg<T> {
    pub fn new(input: MsgInput<T>, sender: oneshot::Sender<Payload<T>>) -> (msg: Self)
        ensures
            msg.input == input,
            msg.sender == sender,
    {
        Self { input, sender }
    }
}

} // verus!
