use vstd::prelude::*;
use crate::channel::enqueue;
use crate::message::{Msg, TaskView};
use crate::worker::{worker_for, worker_of};

verus! {

/// The queue of worker `w` once the first `n` of `tasks` have been handed out
/// round-robin among `workers` workers: the tasks that went to `w`, oldest
/// first.
pub open spec fn queue<T>(tasks: Seq<TaskView<T>>, workers: nat, w: nat, n: nat) -> Seq<
    TaskView<T>,
>
    decreases n,
{
    if n == 0 {
        Seq::empty()
    } else {
        let earlier = queue(tasks, workers, w, (n - 1) as nat);
        if worker_of(tasks[n - 1].idx, workers) == w {
            earlier.push(tasks[n - 1])
        } else {
            earlier
        }
    }
}

/// The producer ends of the task queues of a fixed set of workers, one queue
/// per worker, with a record of the tasks handed to each.
#[verifier::reject_recursive_types(T)]
pub struct WorkerPool<T> {
    queues: Vec<std::sync::mpsc::Sender<Msg<T>>>,
    handed: Ghost<Seq<Seq<TaskView<T>>>>,
}

impl<T> WorkerPool<T> {
    #[verifier::type_invariant]
    spec fn inv(self) -> bool {
        self.queues@.len() >= 1 && self.handed@.len() == self.queues@.len()
    }

    /// The number of workers.
    pub closed spec fn workers(self) -> nat {
        self.queues@.len()
    }

    /// For each worker, the tasks handed to its queue so far, oldest first.
    pub closed spec fn handed(self) -> Seq<Seq<TaskView<T>>> {
        self.handed@
    }

    /// Makes a pool of the queues' producer ends, one worker behind each;
    /// there is no pool without a worker.
    pub fn new(queues: Vec<std::sync::mpsc::Sender<Msg<T>>>) -> (pool: Option<Self>)
        ensures
            pool is Some <==> queues@.len() >= 1,
            pool matches Some(p) ==> p.workers() == queues@.len() && p.handed() == Seq::new(
                queues@.len(),
                |w: int| Seq::<TaskView<T>>::empty(),
            ),
    {
        if queues.len() == 0 {
            None
        } else {
            let ghost handed = Seq::new(queues@.len(), |w: int| Seq::<TaskView<T>>::empty());
            Some(WorkerPool { queues, handed: Ghost(handed) })
        }
    }

    /// The number of workers.
    pub fn worker_count(&self) -> (n: usize)
        ensures
            n == self.workers(),
            n >= 1,
            self.handed().len() == n,
    {
        proof {
            use_type_invariant(self);
        }
        self.queues.len()
    }

    /// Hands a message to the queue of the worker that round-robin gives its
    /// task to. Returns whether the queue took it; a message that is not taken
    /// is dropped, which closes its reply channel.
    pub fn submit(&mut self, msg: Msg<T>) -> (accepted: bool)
        ensures
            final(self).workers() == old(self).workers(),
            final(self).handed() == old(self).handed().update(
                worker_of(msg.input@.idx, old(self).workers()) as int,
                old(self).handed()[worker_of(msg.input@.idx, old(self).workers()) as int].push(
                    msg.input@,
                ),
            ),
    {
        proof {
            use_type_invariant(&*self);
        }
        let w = worker_for(msg.input.idx, self.queues.len());
        let ghost task = msg.input@;
        let sent = enqueue(&self.queues[w], msg);
        proof {
            self.handed@ = self.handed@.update(w as int, self.handed@[w as int].push(task));
        }
        match sent {
            Ok(_) => true,
            Err(_) => false,
        }
    }
}

} // verus!
