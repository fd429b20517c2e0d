use vstd::prelude::*;
use crate::channel::{await_reply, reply_channel};
use crate::error::MultiplyError;
use crate::matrix::{lemma_cell_index, Matrix, MatrixView};
use crate::message::{Msg, MsgInput, Payload, Reply, TaskView};
use crate::pool::{queue, WorkerPool};
use crate::scalar::Scalar;

verus! {

/// The task for output cell `(i, j)` of the product of `a` and `b`.
pub open spec fn task<T>(a: MatrixView<T>, b: MatrixView<T>, i: int, j: int) -> TaskView<T> {
    TaskView { idx: (i * b.cols + j) as nat, row: a.row(i), col: b.column(j) }
}

/// The tasks of a multiplication in the order in which they are created:
/// one per output cell, row by row.
pub open spec fn tasks<T>(a: MatrixView<T>, b: MatrixView<T>) -> Seq<TaskView<T>> {
    Seq::new(
        ((a.rows as int) * (b.cols as int)) as nat,
        |k: int| task(a, b, k / (b.cols as int), k % (b.cols as int)),
    )
}

/// The output after one reply has been dealt with: a value goes to the cell
/// that the reply names; a failure, a closed channel or a cell outside the
/// output ends the multiplication.
pub open spec fn place_spec<T>(output: Seq<T>, reply: Reply<T>) -> Result<Seq<T>, MultiplyError> {
    match reply {
        None => Err(MultiplyError::WorkerUnavailable),
        Some(Err(_)) => Err(MultiplyError::TaskComputationFailure),
        Some(Ok(out)) => if out.idx < output.len() {
            Ok(output.update(out.idx as int, out.value))
        } else {
            Err(MultiplyError::TaskComputationFailure)
        },
    }
}

/// The output after the first `n` replies have been dealt with in order,
/// or the first error among them.
pub open spec fn place_all<T>(output: Seq<T>, replies: Seq<Reply<T>>, n: nat) -> Result<
    Seq<T>,
    MultiplyError,
>
    decreases n,
{
    if n == 0 {
        Ok(output)
    } else {
        match place_all(output, replies, (n - 1) as nat) {
            Ok(filled) => place_spec(filled, replies[n - 1]),
            Err(e) => Err(e),
        }
    }
}

/// The matrix assembled from one reply per output cell, taken in the order in
/// which the tasks were created, on a zero-filled output; or the first error.
pub open spec fn assemble<T: Scalar>(rows: nat, cols: nat, replies: Seq<Reply<T>>) -> Result<
    MatrixView<T>,
    MultiplyError,
> {
    let blank = Seq::new(((rows as int) * (cols as int)) as nat, |k: int| T::zero_spec());
    match place_all(blank, replies, replies.len()) {
        Ok(data) => Ok(MatrixView { rows, cols, data }),
        Err(e) => Err(e),
    }
}

/// A result with its matrix replaced by the matrix's mathematical content.
pub open spec fn result_view<T>(r: Result<Matrix<T>, MultiplyError>) -> Result<
    MatrixView<T>,
    MultiplyError,
> {
    match r {
        Ok(m) => Ok(m@),
        Err(e) => Err(e),
    }
}

/// Once the first `n` replies have produced an error, later replies do not
/// change it.
pub proof fn lemma_place_all_error_stays<T>(
    output: Seq<T>,
    replies: Seq<Reply<T>>,
    n: nat,
    m: nat,
)
    requires
        n <= m,
        place_all(output, replies, n) is Err,
    ensures
        place_all(output, replies, m) == place_all(output, replies, n),
    decreases m,
{
    if n < m {
        lemma_place_all_error_stays(output, replies, n, (m - 1) as nat);
    }
}

/// The first `n` replies decide `place_all` on their own.
pub proof fn lemma_place_all_prefix<T>(
    output: Seq<T>,
    first: Seq<Reply<T>>,
    second: Seq<Reply<T>>,
    n: nat,
)
    requires
        n <= first.len(),
        n <= second.len(),
        forall|k: int| 0 <= k < n ==> first[k] == second[k],
    ensures
        place_all(output, first, n) == place_all(output, second, n),
    decreases n,
{
    if n > 0 {
        lemma_place_all_prefix(output, first, second, (n - 1) as nat);
    }
}

/// A successful placement keeps the length of the output.
pub proof fn lemma_place_all_length<T>(output: Seq<T>, replies: Seq<Reply<T>>, n: nat)
    ensures
        place_all(output, replies, n) matches Ok(filled) ==> filled.len() == output.len(),
    decreases n,
{
    if n > 0 {
        lemma_place_all_length(output, replies, (n - 1) as nat);
    }
}

/// No reply makes the placement report a dimension mismatch.
pub proof fn lemma_place_all_errors<T>(output: Seq<T>, replies: Seq<Reply<T>>, n: nat)
    ensures
        place_all(output, replies, n) matches Err(e) ==> e != MultiplyError::DimensionMismatch,
    decreases n,
{
    if n > 0 {
        lemma_place_all_errors(output, replies, (n - 1) as nat);
    }
}

/// What is assembled has the shape that was asked for and a rectangular
/// storage, and what fails to assemble fails for a task or a worker.
pub proof fn lemma_assemble_outcome<T: Scalar>(rows: nat, cols: nat, replies: Seq<Reply<T>>)
    ensures
        match assemble(rows, cols, replies) {
            Ok(m) => m.rows == rows && m.cols == cols && m.wf(),
            Err(e) => e != MultiplyError::DimensionMismatch,
        },
{
    let blank = Seq::new(((rows as int) * (cols as int)) as nat, |k: int| T::zero_spec());
    lemma_place_all_length(blank, replies, replies.len());
    lemma_place_all_errors(blank, replies, replies.len());
    assert(0 <= (rows as int) * (cols as int)) by (nonlinear_arith);
}

/// Builds the task for output cell `(i, j)`: row `i` of `a`, column `j` of
/// `b`, and the cell's row-major index in the output.
pub fn task_for<T: Copy>(a: &Matrix<T>, b: &Matrix<T>, i: usize, j: usize) -> (input: MsgInput<T>)
    requires
        a@.wf(),
        b@.wf(),
        i < a.rows,
        j < b.cols,
        a.rows * b.cols <= usize::MAX,
    ensures
        input@ == task(a@, b@, i as int, j as int),
{
    proof {
        lemma_cell_index(a.rows as int, b.cols as int, i as int, j as int);
    }
    let idx = i * b.cols + j;
    MsgInput::new(idx, a.row(i), b.column(j))
}

/// Deals with one reply: writes its value into the cell it names, or reports
/// why the multiplication cannot go on. The output is left as it was when
/// the reply is refused.
pub fn place<T>(output: &mut Vec<T>, reply: Reply<T>) -> (r: Result<(), MultiplyError>)
    ensures
        match place_spec(old(output)@, reply) {
            Ok(filled) => r is Ok && final(output)@ == filled,
            Err(e) => r == Err::<(), MultiplyError>(e) && final(output)@ == old(output)@,
        },
{
    match reply {
        None => Err(MultiplyError::WorkerUnavailable),
        Some(Err(_)) => Err(MultiplyError::TaskComputationFailure),
        Some(Ok(out)) => {
            if out.idx < output.len() {
                output.set(out.idx, out.value);
                Ok(())
            } else {
                Err(MultiplyError::TaskComputationFailure)
            }
        },
    }
}

/// Turns what a reply channel gave into a reply: a closed channel is a reply
/// without a payload.
pub fn received<T>(given: Result<Payload<T>, oneshot::RecvError>) -> (reply: Reply<T>)
    ensures
        reply == (match given {
            Ok(payload) => Some(payload),
            Err(_) => None::<Payload<T>>,
        }),
{
    match given {
        Ok(payload) => Some(payload),
        Err(_) => None,
    }
}

/// Creates one task per output cell in row-major order, hands each with a
/// fresh reply channel to the pool, which gives task `idx` to worker
/// `idx % workers`, and returns the receiving ends in the order of creation.
pub fn dispatch<T: Scalar>(a: &Matrix<T>, b: &Matrix<T>, pool: &mut WorkerPool<T>) -> (receivers:
    Vec<oneshot::Receiver<Payload<T>>>)
    requires
        a@.wf(),
        b@.wf(),
        a.rows * b.cols <= usize::MAX,
    ensures
        receivers@.len() == a.rows * b.cols,
        final(pool).workers() == old(pool).workers(),
        final(pool).handed().len() == old(pool).handed().len(),
        forall|w: int|
            0 <= w < old(pool).workers() ==> #[trigger] final(pool).handed()[w] == old(
                pool,
            ).handed()[w] + queue(
                tasks(a@, b@),
                old(pool).workers(),
                w as nat,
                tasks(a@, b@).len(),
            ),
{
    let workers = pool.worker_count();
    let ghost all = tasks(a@, b@);
    let ghost before = pool.handed();
    let mut receivers: Vec<oneshot::Receiver<Payload<T>>> = Vec::new();
    assert(0 <= (a.rows as int) * (b.cols as int)) by (nonlinear_arith);
    assert forall|w: int| 0 <= w < workers implies #[trigger] pool.handed()[w] == before[w]
        + queue(all, workers as nat, w as nat, 0) by {
        assert(before[w] + Seq::<TaskView<T>>::empty() =~= before[w]);
    }
    let mut i: usize = 0;
    while i < a.rows
        invariant
            a@.wf(),
            b@.wf(),
            a.rows * b.cols <= usize::MAX,
            all == tasks(a@, b@),
            all.len() == a.rows * b.cols,
            before == old(pool).handed(),
            before.len() == workers,
            workers == old(pool).workers(),
            workers >= 1,
            pool.workers() == workers,
            pool.handed().len() == workers,
            i <= a.rows,
            receivers@.len() == i * b.cols,
            forall|w: int|
                0 <= w < workers ==> #[trigger] pool.handed()[w] == before[w] + queue(
                    all,
                    workers as nat,
                    w as nat,
                    (i * b.cols) as nat,
                ),
        decreases a.rows - i,
    {
        let mut j: usize = 0;
        while j < b.cols
            invariant
                a@.wf(),
                b@.wf(),
                a.rows * b.cols <= usize::MAX,
                all == tasks(a@, b@),
                all.len() == a.rows * b.cols,
                before.len() == workers,
                workers >= 1,
                pool.workers() == workers,
                pool.handed().len() == workers,
                i < a.rows,
                j <= b.cols,
                receivers@.len() == i * b.cols + j,
                forall|w: int|
                    0 <= w < workers ==> #[trigger] pool.handed()[w] == before[w] + queue(
                        all,
                        workers as nat,
                        w as nat,
                        (i * b.cols + j) as nat,
                    ),
            decreases b.cols - j,
        {
            proof {
                lemma_cell_index(a.rows as int, b.cols as int, i as int, j as int);
            }
            let ghost k = i * b.cols + j;
            let ghost held = pool.handed();
            let input = task_for(a, b, i, j);
            assert(input@ == all[k]);
            let (sender, receiver) = reply_channel::<Payload<T>>();
            let _accepted = pool.submit(Msg::new(input, sender));
            receivers.push(receiver);
            j += 1;
            assert forall|w: int| 0 <= w < workers implies #[trigger] pool.handed()[w]
                == before[w] + queue(all, workers as nat, w as nat, (k + 1) as nat) by {
                assert(held[w] == before[w] + queue(all, workers as nat, w as nat, k as nat));
                assert(before[w] + queue(all, workers as nat, w as nat, k as nat).push(all[k])
                    =~= (before[w] + queue(all, workers as nat, w as nat, k as nat)).push(
                    all[k],
                ));
            }
        }
        assert(i * b.cols + b.cols == (i + 1) * b.cols) by (nonlinear_arith);
        i += 1;
    }
    assert(i * b.cols == a.rows * b.cols);
    receivers
}

/// Waits for the replies in the order in which their tasks were created and
/// assembles the `rows` by `cols` output from them, starting from zeros. The
/// first reply that is refused ends the wait, and nothing is returned but its
/// error.
pub fn collect<T: Scalar>(
    receivers: Vec<oneshot::Receiver<Payload<T>>>,
    rows: usize,
    cols: usize,
) -> (r: Result<Matrix<T>, MultiplyError>)
    requires
        receivers@.len() == rows * cols,
    ensures
        exists|replies: Seq<Reply<T>>|
            replies.len() == rows * cols && result_view(r) == #[trigger] assemble(
                rows as nat,
                cols as nat,
                replies,
            ),
        r matches Ok(m) ==> m.rows == rows && m.cols == cols && m@.wf(),
        r matches Err(e) ==> e != MultiplyError::DimensionMismatch,
{
    let total = receivers.len();
    let mut output: Vec<T> = Vec::new();
    let mut filled: usize = 0;
    while filled < total
        invariant
            filled <= total,
            output@ == Seq::new(filled as nat, |k: int| T::zero_spec()),
        decreases total - filled,
    {
        output.push(T::zero());
        filled += 1;
        assert(output@ =~= Seq::new(filled as nat, |k: int| T::zero_spec()));
    }
    let ghost blank = output@;
    let ghost mut seen: Seq<Reply<T>> = Seq::empty();
    for receiver in it: receivers
        invariant
            total == rows * cols,
            it.seq().len() == total,
            seen.len() == it.index(),
            place_all(blank, seen, seen.len()) == Ok::<Seq<T>, MultiplyError>(output@),
            blank == Seq::new(((rows as int) * (cols as int)) as nat, |k: int| T::zero_spec()),
    {
        let reply = received(await_reply(receiver));
        let ghost before = seen;
        proof {
            seen = before.push(reply);
            lemma_place_all_prefix(blank, before, seen, before.len());
        }
        match place(&mut output, reply) {
            Ok(_) => {},
            Err(e) => {
                proof {
                    let rest = Seq::new((total - seen.len()) as nat, |k: int| None::<Payload<T>>);
                    let all = seen + rest;
                    lemma_place_all_prefix(blank, seen, all, seen.len());
                    lemma_place_all_error_stays(blank, all, seen.len(), all.len());
                    assert(assemble(rows as nat, cols as nat, all) == Err::<
                        MatrixView<T>,
                        MultiplyError,
                    >(e));
                    lemma_assemble_outcome::<T>(rows as nat, cols as nat, all);
                }
                return Err(e);
            },
        }
    }
    let product = Matrix { rows, cols, data: output };
    proof {
        assert(assemble(rows as nat, cols as nat, seen) == Ok::<MatrixView<T>, MultiplyError>(
            product@,
        ));
        lemma_assemble_outcome::<T>(rows as nat, cols as nat, seen);
    }
    Ok(product)
}

/// Multiplies `a` by `b` on the workers of `pool`: one task per output cell,
/// task `idx` to worker `idx % workers`, and the replies gathered in the
/// order of creation. Shapes that do not fit are rejected before any task is
/// created.
pub fn multiply_matrix<T: Scalar>(a: &Matrix<T>, b: &Matrix<T>, pool: &mut WorkerPool<T>) -> (r:
    Result<Matrix<T>, MultiplyError>)
    requires
        a@.wf(),
        b@.wf(),
        a.cols == b.rows ==> a.rows * b.cols <= usize::MAX,
    ensures
        final(pool).workers() == old(pool).workers(),
        a.cols != b.rows ==> r == Err::<Matrix<T>, MultiplyError>(
            MultiplyError::DimensionMismatch,
        ) && final(pool).handed() == old(pool).handed(),
        a.cols == b.rows ==> exists|replies: Seq<Reply<T>>|
            replies.len() == a.rows * b.cols && result_view(r) == #[trigger] assemble(
                a.rows as nat,
                b.cols as nat,
                replies,
            ),
        a.cols == b.rows ==> final(pool).handed().len() == old(pool).handed().len() && forall|
            w: int,
        |
            0 <= w < old(pool).workers() ==> #[trigger] final(pool).handed()[w] == old(
                pool,
            ).handed()[w] + queue(
                tasks(a@, b@),
                old(pool).workers(),
                w as nat,
                tasks(a@, b@).len(),
            ),
        r matches Ok(m) ==> m.rows == a.rows && m.cols == b.cols && m@.wf(),
        r matches Err(e) ==> (e == MultiplyError::DimensionMismatch <==> a.cols != b.rows),
{
    if a.cols != b.rows {
        return Err(MultiplyError::DimensionMismatch);
    }
    let receivers = dispatch(a, b, pool);
    collect(receivers, a.rows, b.cols)
}

} // verus!
