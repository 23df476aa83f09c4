//! Bounded multi-producer / multi-consumer queues, modelled as sequential
//! state machines whose every step is verified.
//!
//! Each queue of this crate is a value owned by one party at a time. An
//! operation that would have to block (a push on a full queue, a pop on an
//! empty one) does not block here: it reports that the caller must wait,
//! and hands the element back. Sharing a queue between threads, and the
//! waiting itself, belong to the caller (a lock around the queue and a
//! condition variable per kind of wake-up); the step results say which
//! condition variables to signal.

mod ring;

pub mod fifo;

pub mod config;
pub mod fast_queue;
pub mod mpmcq;
pub mod mpmcq2;
pub mod myqueue;
pub mod mysync;
pub mod usizeq;

pub use config::{run_queue_test, NewData, QueueConf, QueueType, TEST_QUEUE_SIZE};
