use parallel_matrix::{
    collect, compute, dispatch, multiply_matrix, place, received, serve, task_for, worker_for,
    Matrix, Msg, MsgInput, MsgOutput, MultiplyError, Payload, Vector, WorkerPool,
};
use std::sync::mpsc;

/// A pool of `workers` queues, and the consumer end of each.
fn pool_of(workers: usize) -> (WorkerPool<i32>, Vec<mpsc::Receiver<Msg<i32>>>) {
    let mut producers = Vec::new();
    let mut consumers = Vec::new();
    for _ in 0..workers {
        let (tx, rx) = mpsc::channel();
        producers.push(tx);
        consumers.push(rx);
    }
    (WorkerPool::new(producers).unwrap(), consumers)
}

/// Does the work of every worker on the calling thread: each queue is
/// served to its end, one queue after the other.
fn serve_all(consumers: &[mpsc::Receiver<Msg<i32>>]) -> usize {
    let mut served = 0;
    for queue in consumers {
        for msg in queue.try_iter() {
            assert!(serve(msg).is_ok());
            served += 1;
        }
    }
    served
}

/// Multiplies as `multiply_matrix` does, with the workers' part done on the
/// calling thread between the dispatch and the collection.
fn multiply_on(
    a: &Matrix<i32>,
    b: &Matrix<i32>,
    workers: usize,
) -> Result<Matrix<i32>, MultiplyError> {
    let (mut pool, consumers) = pool_of(workers);
    let receivers = dispatch(a, b, &mut pool);
    assert_eq!(serve_all(&consumers), a.rows * b.cols);
    collect(receivers, a.rows, b.cols)
}

/// The product by three nested loops.
fn reference(a: &Matrix<i32>, b: &Matrix<i32>) -> Vec<i32> {
    let mut out = vec![0; a.rows * b.cols];
    for i in 0..a.rows {
        for j in 0..b.cols {
            for k in 0..a.cols {
                out[i * b.cols + j] += a.data[i * a.cols + k] * b.data[k * b.cols + j];
            }
        }
    }
    out
}

fn error_of(r: Result<Matrix<i32>, MultiplyError>) -> MultiplyError {
    match r {
        Ok(_) => panic!("a matrix came back"),
        Err(e) => e,
    }
}

#[test]
fn test_multiply_matrix() {
    let a = Matrix::new(2, 3, vec![1, 2, 3, 4, 5, 6]);
    let b = Matrix::new(3, 2, vec![7, 8, 9, 10, 11, 12]);

    let result = multiply_on(&a, &b, 4).unwrap();
    assert_eq!(result.to_string(), "{{58 64},{139 154}}");
}

#[test]
fn product_has_the_outer_shape() {
    let a = Matrix::new(2, 3, vec![1, 2, 3, 4, 5, 6]);
    let b = Matrix::new(3, 4, vec![1, 0, 0, 1, 0, 1, 0, 1, 0, 0, 1, 1]);
    let c = multiply_on(&a, &b, 4).unwrap();
    assert_eq!((c.rows, c.cols), (2, 4));
    assert_eq!(c.data, vec![1, 2, 3, 6, 4, 5, 6, 15]);
    assert!(c.is_well_formed());
}

#[test]
fn product_agrees_with_three_nested_loops() {
    let a = Matrix::new(3, 4, vec![2, -1, 0, 5, 7, 3, -4, 1, 0, 0, 9, -2]);
    let b = Matrix::new(4, 5, (1..=20).map(|v| v * 3 - 25).collect::<Vec<i32>>());
    let c = multiply_on(&a, &b, 4).unwrap();
    assert_eq!(c.data, reference(&a, &b));

    let row = Matrix::new(1, 3, vec![1, 2, 3]);
    let column = Matrix::new(3, 1, vec![4, 5, 6]);
    assert_eq!(multiply_on(&row, &column, 4).unwrap().data, vec![32]);
    assert_eq!(
        multiply_on(&column, &row, 4).unwrap().data,
        vec![4, 8, 12, 5, 10, 15, 6, 12, 18]
    );
}

#[test]
fn worker_count_does_not_change_the_product() {
    let a = Matrix::new(3, 2, vec![1, 2, 3, 4, 5, 6]);
    let b = Matrix::new(2, 4, vec![1, -1, 2, -2, 3, -3, 4, -4]);
    let expected = reference(&a, &b);
    for workers in [1, 2, 4, 17] {
        let c = multiply_on(&a, &b, workers).unwrap();
        assert_eq!((c.rows, c.cols), (3, 4));
        assert_eq!(c.data, expected);
    }
}

#[test]
fn repeated_runs_give_the_same_product() {
    let a = Matrix::new(2, 2, vec![i32::MAX, 2, -3, 4]);
    let b = Matrix::new(2, 2, vec![5, 6, 7, i32::MIN]);
    let first = multiply_on(&a, &b, 4).unwrap();
    let second = multiply_on(&a, &b, 4).unwrap();
    assert_eq!(first.data, second.data);
    assert_eq!(first.data[0], i32::MAX.wrapping_mul(5).wrapping_add(14));
}

#[test]
fn product_over_an_empty_inner_dimension_is_zero() {
    let a: Matrix<i32> = Matrix::new(2, 0, vec![]);
    let b: Matrix<i32> = Matrix::new(0, 3, vec![]);
    let c = multiply_on(&a, &b, 2).unwrap();
    assert_eq!((c.rows, c.cols), (2, 3));
    assert_eq!(c.data, vec![0; 6]);
}

#[test]
fn tasks_go_round_robin_in_row_major_order() {
    let a = Matrix::new(2, 3, vec![1, 2, 3, 4, 5, 6]);
    let b = Matrix::new(3, 3, vec![1, 2, 3, 4, 5, 6, 7, 8, 9]);
    let (mut pool, consumers) = pool_of(4);
    let receivers = dispatch(&a, &b, &mut pool);
    assert_eq!(receivers.len(), 6);
    let queued: Vec<Vec<usize>> = consumers
        .iter()
        .map(|queue| queue.try_iter().map(|msg| msg.input.idx).collect())
        .collect();
    assert_eq!(queued, vec![vec![0, 4], vec![1, 5], vec![2], vec![3]]);
}

#[test]
fn mismatched_shapes_are_rejected_before_any_dispatch() {
    let a = Matrix::new(2, 3, vec![1, 2, 3, 4, 5, 6]);
    let b = Matrix::new(2, 3, vec![1, 2, 3, 4, 5, 6]);
    let (mut pool, consumers) = pool_of(4);
    let r = multiply_matrix(&a, &b, &mut pool);
    assert_eq!(error_of(r), MultiplyError::DimensionMismatch);
    for queue in &consumers {
        assert!(matches!(queue.try_recv(), Err(mpsc::TryRecvError::Empty)));
    }
}

#[test]
fn multiply_without_cells_needs_no_worker() {
    let a: Matrix<i32> = Matrix::new(0, 3, vec![]);
    let b = Matrix::new(3, 2, vec![1, 2, 3, 4, 5, 6]);
    let (mut pool, consumers) = pool_of(1);
    drop(consumers);
    let c = multiply_matrix(&a, &b, &mut pool).unwrap();
    assert_eq!((c.rows, c.cols), (0, 2));
    assert!(c.data.is_empty());
}

#[test]
fn multiply_on_a_pool_that_is_gone_fails() {
    let a = Matrix::new(2, 3, vec![1, 2, 3, 4, 5, 6]);
    let b = Matrix::new(3, 2, vec![7, 8, 9, 10, 11, 12]);
    let (mut pool, consumers) = pool_of(4);
    drop(consumers);
    let r = multiply_matrix(&a, &b, &mut pool);
    assert_eq!(error_of(r), MultiplyError::WorkerUnavailable);
}

#[test]
fn a_dropped_task_makes_the_worker_unavailable() {
    let a = Matrix::new(2, 2, vec![1, 2, 3, 4]);
    let b = Matrix::new(2, 2, vec![5, 6, 7, 8]);
    let (mut pool, consumers) = pool_of(2);
    let receivers = dispatch(&a, &b, &mut pool);
    for queue in &consumers {
        for msg in queue.try_iter() {
            if msg.input.idx == 2 {
                drop(msg);
            } else {
                assert!(serve(msg).is_ok());
            }
        }
    }
    assert_eq!(error_of(collect(receivers, 2, 2)), MultiplyError::WorkerUnavailable);
}

#[test]
fn a_reported_failure_fails_the_multiplication() {
    let a = Matrix::new(2, 2, vec![1, 2, 3, 4]);
    let b = Matrix::new(2, 2, vec![5, 6, 7, 8]);
    let (mut pool, consumers) = pool_of(3);
    let receivers = dispatch(&a, &b, &mut pool);
    for queue in &consumers {
        for msg in queue.try_iter() {
            if msg.input.idx == 1 {
                assert!(msg.sender.send(Err(MultiplyError::TaskComputationFailure)).is_ok());
            } else {
                assert!(serve(msg).is_ok());
            }
        }
    }
    assert_eq!(error_of(collect(receivers, 2, 2)), MultiplyError::TaskComputationFailure);
}

#[test]
fn the_first_failure_in_task_order_is_reported() {
    let a = Matrix::new(2, 2, vec![1, 2, 3, 4]);
    let b = Matrix::new(2, 2, vec![5, 6, 7, 8]);
    let (mut pool, consumers) = pool_of(4);
    let receivers = dispatch(&a, &b, &mut pool);
    for queue in &consumers {
        for msg in queue.try_iter() {
            match msg.input.idx {
                1 => drop(msg),
                3 => assert!(msg.sender.send(Err(MultiplyError::TaskComputationFailure)).is_ok()),
                _ => assert!(serve(msg).is_ok()),
            }
        }
    }
    assert_eq!(error_of(collect(receivers, 2, 2)), MultiplyError::WorkerUnavailable);
}

#[test]
fn tasks_of_unequal_vectors_fail_in_the_worker() {
    let a = Matrix::new(2, 3, vec![1, 2, 3, 4, 5, 6]);
    let b = Matrix::new(2, 3, vec![1, 2, 3, 4, 5, 6]);
    let (mut pool, consumers) = pool_of(4);
    let receivers = dispatch(&a, &b, &mut pool);
    assert_eq!(serve_all(&consumers), 6);
    assert_eq!(error_of(collect(receivers, 2, 3)), MultiplyError::TaskComputationFailure);
}

#[test]
fn a_reply_for_a_cell_outside_the_output_is_refused() {
    let (sender, receiver) = oneshot::channel::<Payload<i32>>();
    assert!(sender.send(Ok(MsgOutput { idx: 1, value: 5 })).is_ok());
    assert_eq!(error_of(collect(vec![receiver], 1, 1)), MultiplyError::TaskComputationFailure);
}

#[test]
fn collect_writes_each_value_where_its_reply_says() {
    let mut receivers = Vec::new();
    for (idx, value) in [(2usize, 30), (0, 10), (3, 40), (1, 20)] {
        let (sender, receiver) = oneshot::channel::<Payload<i32>>();
        assert!(sender.send(Ok(MsgOutput { idx, value })).is_ok());
        receivers.push(receiver);
    }
    let c = collect(receivers, 2, 2).unwrap();
    assert_eq!((c.rows, c.cols), (2, 2));
    assert_eq!(c.data, vec![10, 20, 30, 40]);
}

#[test]
fn collect_of_nothing_is_an_empty_matrix() {
    let c: Matrix<i32> = collect(Vec::new(), 0, 5).unwrap();
    assert_eq!((c.rows, c.cols), (0, 5));
    assert!(c.data.is_empty());
}

#[test]
fn pool_needs_a_worker() {
    assert!(WorkerPool::<i32>::new(Vec::new()).is_none());
    let (pool, _consumers) = pool_of(3);
    assert_eq!(pool.worker_count(), 3);
}

#[test]
fn submit_picks_the_queue_by_task_index() {
    let (mut pool, consumers) = pool_of(3);
    for idx in [7usize, 0, 5, 3] {
        let (sender, _receiver) = oneshot::channel();
        let input = MsgInput::new(idx, Vector::new(vec![1]), Vector::new(vec![1]));
        assert!(pool.submit(Msg::new(input, sender)));
    }
    let queued: Vec<Vec<usize>> = consumers
        .iter()
        .map(|queue| queue.try_iter().map(|msg| msg.input.idx).collect())
        .collect();
    assert_eq!(queued, vec![vec![0, 3], vec![7], vec![5]]);
}

#[test]
fn submit_to_a_closed_queue_is_not_accepted() {
    let (mut pool, consumers) = pool_of(1);
    drop(consumers);
    let (sender, receiver) = oneshot::channel();
    let input = MsgInput::new(0, Vector::new(vec![1]), Vector::new(vec![1]));
    assert!(!pool.submit(Msg::new(input, sender)));
    assert!(received(receiver.recv()).is_none());
}

#[test]
fn worker_for_is_the_index_modulo_the_count() {
    assert_eq!(worker_for(0, 4), 0);
    assert_eq!(worker_for(5, 4), 1);
    assert_eq!(worker_for(7, 4), 3);
    assert_eq!(worker_for(8, 4), 0);
    assert_eq!(worker_for(5, 1), 0);
    assert_eq!(worker_for(5, 17), 5);
}

#[test]
fn task_for_takes_row_and_column_of_the_cell() {
    let a = Matrix::new(2, 3, vec![1, 2, 3, 4, 5, 6]);
    let b = Matrix::new(3, 2, vec![7, 8, 9, 10, 11, 12]);
    let input = task_for(&a, &b, 1, 0);
    assert_eq!(input.idx, 2);
    assert_eq!(input.row.len(), 3);
    assert_eq!((*input.row.get(0), *input.row.get(1), *input.row.get(2)), (4, 5, 6));
    assert_eq!((*input.col.get(0), *input.col.get(1), *input.col.get(2)), (7, 9, 11));
    assert_eq!(task_for(&a, &b, 1, 1).idx, 3);
    assert_eq!(task_for(&a, &b, 0, 1).idx, 1);
}

#[test]
fn input_keeps_what_it_was_given() {
    let input = MsgInput::new(9, Vector::new(vec![1, 2]), Vector::new(vec![3]));
    assert_eq!(input.idx, 9);
    assert_eq!(input.row.len(), 2);
    assert_eq!(input.col.len(), 1);
    assert_eq!(*input.row.get(1), 2);
    assert_eq!(*input.col.get(0), 3);
}

#[test]
fn compute_answers_under_the_index_of_the_task() {
    let input = MsgInput::new(5, Vector::new(vec![4, 5, 6]), Vector::new(vec![8, 10, 12]));
    match compute(input) {
        Ok(out) => {
            assert_eq!(out.idx, 5);
            assert_eq!(out.value, 154);
        }
        Err(_) => panic!("the task failed"),
    }
}

#[test]
fn compute_reports_unequal_vectors_as_a_task_failure() {
    let input = MsgInput::new(0, Vector::new(vec![1, 2]), Vector::new(vec![1, 2, 3]));
    assert!(matches!(compute(input), Err(MultiplyError::TaskComputationFailure)));
}

#[test]
fn serve_sends_the_answer_on_the_reply_channel() {
    let (sender, receiver) = oneshot::channel();
    let input = MsgInput::new(3, Vector::new(vec![1, 2, 3]), Vector::new(vec![8, 10, 12]));
    assert!(serve(Msg::new(input, sender)).is_ok());
    match receiver.recv() {
        Ok(Ok(out)) => {
            assert_eq!(out.idx, 3);
            assert_eq!(out.value, 64);
        }
        _ => panic!("no value arrived"),
    }
}

#[test]
fn serve_sends_the_failure_on_the_reply_channel() {
    let (sender, receiver) = oneshot::channel();
    let input = MsgInput::new(3, Vector::new(vec![1, 2, 3]), Vector::new(vec![8]));
    assert!(serve(Msg::new(input, sender)).is_ok());
    assert!(matches!(receiver.recv(), Ok(Err(MultiplyError::TaskComputationFailure))));
}

#[test]
fn serve_tells_when_nobody_waits_for_the_answer() {
    let (sender, receiver) = oneshot::channel();
    drop(receiver);
    let input = MsgInput::new(6, Vector::new(vec![2, 3]), Vector::new(vec![5, 7]));
    match serve(Msg::new(input, sender)) {
        Err(Ok(out)) => {
            assert_eq!(out.idx, 6);
            assert_eq!(out.value, 31);
        }
        _ => panic!("the answer did not come back"),
    }

    let (sender, receiver) = oneshot::channel();
    drop(receiver);
    let input = MsgInput::new(0, Vector::new(vec![1]), Vector::new(vec![1, 2]));
    assert!(matches!(
        serve(Msg::new(input, sender)),
        Err(Err(MultiplyError::TaskComputationFailure))
    ));
}

#[test]
fn message_keeps_its_task_and_its_channel() {
    let (sender, receiver) = oneshot::channel();
    let input = MsgInput::new(4, Vector::new(vec![2]), Vector::new(vec![3]));
    let msg = Msg::new(input, sender);
    assert_eq!(msg.input.idx, 4);
    assert!(msg.sender.send(Ok(MsgOutput { idx: 4, value: 6 })).is_ok());
    assert!(matches!(receiver.recv(), Ok(Ok(MsgOutput { idx: 4, value: 6 }))));
}

#[test]
fn place_writes_the_value_into_its_cell() {
    let mut output = vec![0, 0, 0];
    assert_eq!(place(&mut output, Some(Ok(MsgOutput { idx: 1, value: 9 }))), Ok(()));
    assert_eq!(output, vec![0, 9, 0]);
    assert_eq!(place(&mut output, Some(Ok(MsgOutput { idx: 1, value: 4 }))), Ok(()));
    assert_eq!(output, vec![0, 4, 0]);
}

#[test]
fn place_refuses_what_is_not_a_value_for_a_cell() {
    let mut output = vec![1, 2, 3];
    assert_eq!(
        place(&mut output, Some(Ok(MsgOutput { idx: 3, value: 9 }))),
        Err(MultiplyError::TaskComputationFailure)
    );
    assert_eq!(
        place(&mut output, Some(Err(MultiplyError::TaskComputationFailure))),
        Err(MultiplyError::TaskComputationFailure)
    );
    assert_eq!(
        place(&mut output, Some(Err(MultiplyError::DimensionMismatch))),
        Err(MultiplyError::TaskComputationFailure)
    );
    assert_eq!(place(&mut output, None), Err(MultiplyError::WorkerUnavailable));
    assert_eq!(output, vec![1, 2, 3]);
}

#[test]
fn received_keeps_the_payload_and_marks_a_closed_channel() {
    let (sender, receiver) = oneshot::channel::<Payload<i32>>();
    assert!(sender.send(Ok(MsgOutput { idx: 0, value: 1 })).is_ok());
    assert!(matches!(received(receiver.recv()), Some(Ok(MsgOutput { idx: 0, value: 1 }))));
    let (sender, receiver) = oneshot::channel::<Payload<i32>>();
    drop(sender);
    assert!(received(receiver.recv()).is_none());
}
