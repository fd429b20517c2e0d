use vstd::prelude::*;
use crate::error::MultiplyError;
use crate::matrix::{product, product_cell, MatrixView};
use crate::message::{Reply, TaskView};
use crate::multiply::{assemble, lemma_place_all_error_stays, place_all, place_spec, tasks};
use crate::pool::queue;
use crate::scalar::{Integer, Scalar};
use crate::vector::dot_prefix;
use crate::worker::{outcome, worker_of};

verus! {

/// The replies when every task is answered as `outcome` says.
pub open spec fn served<T: Scalar>(tasks: Seq<TaskView<T>>) -> Seq<Reply<T>> {
    Seq::new(tasks.len(), |k: int| Some(outcome(tasks[k])))
}

/// The replies in the order of the tasks, when each worker answers the tasks
/// of its queue one after the other: the reply to task `k` is the answer to
/// the task that stands in the queue of the worker of `k` at the place that
/// `k` took there.
pub open spec fn pooled<T: Scalar>(tasks: Seq<TaskView<T>>, workers: nat) -> Seq<Reply<T>> {
    Seq::new(
        tasks.len(),
        |k: int|
            Some(
                outcome(
                    queue(tasks, workers, worker_of(tasks[k].idx, workers), tasks.len())[k / (
                    workers as int)],
                ),
            ),
    )
}

/// Every task carries its own place in the order of creation.
pub open spec fn numbered<T>(tasks: Seq<TaskView<T>>) -> bool {
    forall|k: int| 0 <= k < tasks.len() ==> (#[trigger] tasks[k]).idx == k
}

/// The number of indices below `n` that round-robin gives to worker `w`.
pub open spec fn share(workers: nat, w: nat, n: nat) -> int {
    (n + workers - 1 - w) / (workers as int)
}

proof fn lemma_share_step(workers: nat, w: nat, k: nat)
    requires
        workers >= 1,
        w < workers,
    ensures
        k % workers == w ==> share(workers, w, k) == k / workers && share(workers, w, k + 1)
            == k / workers + 1,
        k % workers != w ==> share(workers, w, k + 1) == share(workers, w, k),
        share(workers, w, 0) == 0,
{
    let d = workers as int;
    let q = (k as int) / d;
    let r = (k as int) % d;
    vstd::arithmetic::div_mod::lemma_fundamental_div_mod(k as int, d);
    assert(k == q * d + r) by (nonlinear_arith)
        requires
            k == d * q + r,
    ;
    assert((q + 1) * d == q * d + d) by (nonlinear_arith);
    vstd::arithmetic::div_mod::lemma_fundamental_div_mod_converse(d - 1 - w, d, 0, d - 1 - w);
    if r == w {
        vstd::arithmetic::div_mod::lemma_fundamental_div_mod_converse(
            k + d - 1 - w,
            d,
            q,
            d - 1,
        );
        vstd::arithmetic::div_mod::lemma_fundamental_div_mod_converse(k + d - w, d, q + 1, 0);
    } else if r < w {
        vstd::arithmetic::div_mod::lemma_fundamental_div_mod_converse(
            k + d - 1 - w,
            d,
            q,
            d - 1 - w + r,
        );
        vstd::arithmetic::div_mod::lemma_fundamental_div_mod_converse(
            k + d - w,
            d,
            q,
            d - w + r,
        );
    } else {
        vstd::arithmetic::div_mod::lemma_fundamental_div_mod_converse(
            k + d - 1 - w,
            d,
            q + 1,
            r - w - 1,
        );
        vstd::arithmetic::div_mod::lemma_fundamental_div_mod_converse(
            k + d - w,
            d,
            q + 1,
            r - w,
        );
    }
}

/// Task `k`, if it is among the first `n` and goes to worker `w`, stands in
/// the queue of `w` at place `k / workers`.
pub open spec fn in_place<T>(
    tasks: Seq<TaskView<T>>,
    workers: nat,
    w: nat,
    n: nat,
    k: int,
) -> bool {
    0 <= k < n && k % (workers as int) == w ==> {
        &&& 0 <= k / (workers as int) < queue(tasks, workers, w, n).len()
        &&& queue(tasks, workers, w, n)[k / (workers as int)] == tasks[k]
    }
}

/// Round-robin keeps the order of creation inside each queue: after `n`
/// tasks, worker `w` holds `share(workers, w, n)` of them, and task `k` stands
/// in the queue of worker `k % workers` at place `k / workers`.
pub proof fn lemma_queue_places<T>(tasks: Seq<TaskView<T>>, workers: nat, w: nat, n: nat)
    requires
        workers >= 1,
        w < workers,
        n <= tasks.len(),
        numbered(tasks),
    ensures
        queue(tasks, workers, w, n).len() == share(workers, w, n),
        forall|k: int| #[trigger] in_place(tasks, workers, w, n, k),
    decreases n,
{
    if n == 0 {
        lemma_share_step(workers, w, 0);
    } else {
        let last = (n - 1) as nat;
        lemma_queue_places(tasks, workers, w, last);
        lemma_share_step(workers, w, last);
        assert(tasks[last as int].idx == last);
        assert forall|k: int| #[trigger] in_place(tasks, workers, w, n, k) by {
            assert(in_place(tasks, workers, w, last, k));
        }
    }
}

/// The workers are transparent: whatever their number, the reply to each task
/// is the answer to that very task.
pub proof fn lemma_pool_is_transparent<T: Scalar>(tasks: Seq<TaskView<T>>, workers: nat)
    requires
        workers >= 1,
        numbered(tasks),
    ensures
        pooled(tasks, workers) == served(tasks),
{
    assert forall|k: int| 0 <= k < tasks.len() implies pooled(tasks, workers)[k] == served(
        tasks,
    )[k] by {
        let w = worker_of(tasks[k].idx, workers);
        assert(tasks[k].idx == k);
        assert(w == k % (workers as int));
        lemma_queue_places(tasks, workers, w, tasks.len());
        assert(in_place(tasks, workers, w, tasks.len(), k));
    }
    assert(pooled(tasks, workers) =~= served(tasks));
}

/// The tasks of a multiplication are numbered in the order of creation.
pub proof fn lemma_tasks_numbered<T>(a: MatrixView<T>, b: MatrixView<T>)
    ensures
        numbered(tasks(a, b)),
        tasks(a, b).len() == a.rows * b.cols,
{
    let cols = b.cols as int;
    assert(0 <= (a.rows as int) * cols) by (nonlinear_arith)
        requires
            0 <= cols,
    ;
    assert forall|k: int| 0 <= k < tasks(a, b).len() implies (#[trigger] tasks(a, b)[k]).idx
        == k by {
        if cols == 0 {
            assert((a.rows as int) * cols == 0) by (nonlinear_arith)
                requires
                    cols == 0,
            ;
        } else {
            vstd::arithmetic::div_mod::lemma_fundamental_div_mod(k, cols);
            assert((k / cols) * cols == cols * (k / cols)) by (nonlinear_arith);
        }
    }
}

/// The output after the first `n` answers have been placed: the first `n`
/// cells hold their products, the others are still zero.
spec fn partly_filled<T: Scalar>(a: MatrixView<T>, b: MatrixView<T>, n: nat) -> Seq<T> {
    Seq::new(
        ((a.rows as int) * (b.cols as int)) as nat,
        |k: int|
            if k < n {
                product_cell(a, b, k / (b.cols as int), k % (b.cols as int))
            } else {
                T::zero_spec()
            },
    )
}

proof fn lemma_served_fills<T: Scalar>(a: MatrixView<T>, b: MatrixView<T>, n: nat)
    requires
        a.wf(),
        b.wf(),
        a.cols == b.rows,
        a.rows * b.cols <= usize::MAX,
        n <= a.rows * b.cols,
    ensures
        place_all(partly_filled(a, b, 0), served(tasks(a, b)), n) == Ok::<Seq<T>, MultiplyError>(
            partly_filled(a, b, n),
        ),
    decreases n,
{
    let cols = b.cols as int;
    assert(0 <= (a.rows as int) * cols) by (nonlinear_arith)
        requires
            0 <= cols,
    ;
    if n > 0 {
        let k = (n - 1) as int;
        lemma_served_fills(a, b, (n - 1) as nat);
        lemma_tasks_numbered(a, b);
        let t = tasks(a, b)[k];
        assert(t.idx == k);
        assert(t.row.len() == t.col.len());
        let before = partly_filled(a, b, (n - 1) as nat);
        assert(served(tasks(a, b))[k] == Some(outcome(t)));
        assert(place_spec(before, served(tasks(a, b))[k]) == Ok::<Seq<T>, MultiplyError>(
            before.update(k, product_cell(a, b, k / cols, k % cols)),
        ));
        assert(before.update(k, product_cell(a, b, k / cols, k % cols)) =~= partly_filled(
            a,
            b,
            n,
        ));
    }
}

/// When every task is answered as `outcome` says, what is assembled is the
/// product: cell `(i, j)` holds the sum over `k` of `a[i][k] * b[k][j]`,
/// added in ascending `k`.
pub proof fn lemma_served_product<T: Scalar>(a: MatrixView<T>, b: MatrixView<T>)
    requires
        a.wf(),
        b.wf(),
        a.cols == b.rows,
        a.rows * b.cols <= usize::MAX,
    ensures
        assemble(a.rows, b.cols, served(tasks(a, b))) == Ok::<MatrixView<T>, MultiplyError>(
            product(a, b),
        ),
{
    let cells = ((a.rows as int) * (b.cols as int)) as nat;
    assert(0 <= (a.rows as int) * (b.cols as int)) by (nonlinear_arith);
    lemma_served_fills(a, b, cells);
    assert(partly_filled(a, b, 0) =~= Seq::new(cells, |k: int| T::zero_spec()));
    assert(partly_filled(a, b, cells) =~= product(a, b).data);
}

/// Multiplying on any number of workers gives the product.
pub proof fn lemma_pooled_product<T: Scalar>(a: MatrixView<T>, b: MatrixView<T>, workers: nat)
    requires
        a.wf(),
        b.wf(),
        a.cols == b.rows,
        a.rows * b.cols <= usize::MAX,
        workers >= 1,
    ensures
        assemble(a.rows, b.cols, pooled(tasks(a, b), workers)) == Ok::<
            MatrixView<T>,
            MultiplyError,
        >(product(a, b)),
{
    lemma_tasks_numbered(a, b);
    lemma_pool_is_transparent(tasks(a, b), workers);
    lemma_served_product(a, b);
}

/// The number of workers does not change the result.
pub proof fn lemma_worker_count_is_irrelevant<T: Scalar>(
    a: MatrixView<T>,
    b: MatrixView<T>,
    some: nat,
    other: nat,
)
    requires
        some >= 1,
        other >= 1,
    ensures
        assemble(a.rows, b.cols, pooled(tasks(a, b), some)) == assemble(
            a.rows,
            b.cols,
            pooled(tasks(a, b), other),
        ),
{
    lemma_tasks_numbered(a, b);
    lemma_pool_is_transparent(tasks(a, b), some);
    lemma_pool_is_transparent(tasks(a, b), other);
}

/// Two runs on the same operands in which every reply is the answer to its
/// task end with the same result, down to the last cell.
pub proof fn lemma_runs_agree<T: Scalar>(
    a: MatrixView<T>,
    b: MatrixView<T>,
    first: Seq<Reply<T>>,
    second: Seq<Reply<T>>,
)
    requires
        first.len() == tasks(a, b).len(),
        second.len() == tasks(a, b).len(),
        forall|k: int| 0 <= k < first.len() ==> first[k] == Some(outcome(tasks(a, b)[k])),
        forall|k: int| 0 <= k < second.len() ==> second[k] == Some(outcome(tasks(a, b)[k])),
    ensures
        assemble(a.rows, b.cols, first) == assemble(a.rows, b.cols, second),
{
    assert(first =~= second);
}

/// All or nothing: one task whose reply is a failure, or whose reply channel
/// was closed, makes the whole multiplication fail.
pub proof fn lemma_one_failure_fails_all<T: Scalar>(
    rows: nat,
    cols: nat,
    replies: Seq<Reply<T>>,
    k: int,
)
    requires
        0 <= k < replies.len(),
        replies[k] is None || replies[k] matches Some(Err(_)),
    ensures
        assemble(rows, cols, replies) is Err,
{
    let blank = Seq::new(((rows as int) * (cols as int)) as nat, |c: int| T::zero_spec());
    assert(place_all(blank, replies, (k + 1) as nat) is Err);
    lemma_place_all_error_stays(blank, replies, (k + 1) as nat, replies.len());
}

/// The sum over the integers of the first `n` pairwise products of the
/// integers that `row` and `col` stand for.
pub open spec fn integer_dot<T: Integer>(row: Seq<T>, col: Seq<T>, n: nat) -> int
    decreases n,
{
    if n == 0 {
        0
    } else {
        integer_dot(row, col, (n - 1) as nat) + row[n - 1].value() * col[n - 1].value()
    }
}

/// Each of the first `n` products, and each sum on the way, is in the
/// scalar's range.
pub open spec fn in_range<T: Integer>(row: Seq<T>, col: Seq<T>, n: nat) -> bool {
    forall|k: int|
        #![trigger row[k]]
        0 <= k < n ==> T::fits(row[k].value() * col[k].value()) && T::fits(
            integer_dot(row, col, (k + 1) as nat),
        )
}

/// As long as nothing leaves the scalar's range, the dot product is the sum
/// of the products over the integers.
pub proof fn lemma_dot_is_exact<T: Integer>(row: Seq<T>, col: Seq<T>, n: nat)
    requires
        in_range(row, col, n),
    ensures
        dot_prefix(row, col, n).value() == integer_dot(row, col, n),
    decreases n,
{
    if n == 0 {
        T::lemma_exact(T::zero_spec(), T::zero_spec());
    } else {
        let k = (n - 1) as int;
        lemma_dot_is_exact(row, col, (n - 1) as nat);
        assert(T::fits(row[k].value() * col[k].value()));
        T::lemma_exact(row[k], col[k]);
        T::lemma_exact(dot_prefix(row, col, (n - 1) as nat), row[k].times_spec(col[k]));
    }
}

/// Cell `(i, j)` of the product of two integer matrices is the sum over `k`
/// of `a[i][k] * b[k][j]` over the integers, as long as nothing on the way
/// leaves the scalar's range.
pub proof fn lemma_product_cell_is_exact<T: Integer>(
    a: MatrixView<T>,
    b: MatrixView<T>,
    i: int,
    j: int,
)
    requires
        a.cols == b.rows,
        in_range(a.row(i), b.column(j), a.cols),
    ensures
        product_cell(a, b, i, j).value() == integer_dot(a.row(i), b.column(j), a.cols),
{
    lemma_dot_is_exact(a.row(i), b.column(j), a.cols);
}

} // verus!
