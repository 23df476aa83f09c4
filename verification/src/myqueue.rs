//! The interface of a blocking queue, for types that users write.
use vstd::prelude::*;

verus! {

/// A queue whose `push` waits for room and whose `pop` waits for an
/// element.
pub trait MyQueue {
    type ElementType;

    fn push(&self, e: Self::ElementType);

    fn pop(&self) -> Self::ElementType;
}

} // verus!
