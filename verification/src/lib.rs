//! Dense matrix multiplication, one dot-product task per output cell, with the
//! tasks handed round-robin to a fixed pool of workers and the replies gathered
//! over single-use channels.
//!
//! - `scalar`: what a matrix element must offer, and the integer types that do.
//! - `vector`, `matrix`: the data, their mathematical views, the dot product
//!   and the product of two matrices.
//! - `message`: tasks, answers and the messages that carry them.
//! - `channel`: the channel types and calls that are taken on trust.
//! - `worker`: what a worker does with one message.
//! - `pool`: the producer ends of the workers' queues.
//! - `multiply`: dispatching the tasks and assembling the replies.
//! - `render`: the text of a matrix.
//! - `laws`: what holds of a multiplication whose workers answer every task.

pub mod channel;
pub mod error;
pub mod laws;
pub mod matrix;
pub mod message;
pub mod multiply;
pub mod pool;
pub mod render;
pub mod scalar;
pub mod vector;
pub mod worker;

pub use error::MultiplyError;
pub use matrix::{Matrix, MatrixView};
pub use message::{Msg, MsgInput, MsgOutput, Payload, Reply, TaskView};
pub use multiply::{collect, dispatch, multiply_matrix, place, received, task_for};
pub use pool::WorkerPool;
pub use render::layout;
pub use scalar::{Integer, Scalar};
pub use vector::{dot_product, Vector};
pub use worker::{compute, serve, worker_for};
