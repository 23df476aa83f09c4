//! A bounded queue with a single "closed" flag.
//!
//! A push on a full open queue, and a pop on an empty open queue, must wait:
//! the step reports `Full` / `Empty` and the caller retries after a wake-up.
//! Once closed, the queue accepts nothing more, and pops drain what is left
//! before they report the end.
use vstd::prelude::*;
use crate::ring::Ring;
use crate::fifo::{concat_all, fifo_steps, lemma_fifo_steps, lemma_fifo_prefix};

verus! {

/// What one push attempt did.
pub enum EnQueue<T> {
    /// The element was appended. `wake_room`: there is still room, so one
    /// more waiting producer should be woken; `wake_elem`: the queue was
    /// empty before, so a waiting consumer should be woken.
    Done { wake_room: bool, wake_elem: bool },
    /// The queue is full: the element is handed back, the caller waits for
    /// room and tries again.
    Full(T),
    /// The queue is closed: the element was refused.
    Closed,
}

/// What one pop attempt did.
pub enum DeQueue<T> {
    /// The oldest element was taken. `wake_elem`: more elements remain, so
    /// one more waiting consumer should be woken; `wake_room`: the queue was
    /// full before, so a waiting producer should be woken.
    Item { value: T, wake_elem: bool, wake_room: bool },
    /// The queue is empty and open: the caller waits and tries again.
    Empty,
    /// The queue is empty and closed: nothing will ever come.
    Closed,
}

pub struct FQueue<T> {
    closed: bool,
    ring: Ring<T>,
}

impl<T> View for FQueue<T> {
    type V = Seq<T>;

    /// The queued elements, oldest first.
    closed spec fn view(&self) -> Seq<T> {
        self.ring@
    }
}

impl<T> FQueue<T> {
    pub closed spec fn is_closed(&self) -> bool {
        self.closed
    }

    /// The number of elements the queue can hold.
    pub closed spec fn capacity(&self) -> nat {
        self.ring.cap()
    }

    /// The slots, in index order.
    pub closed spec fn slots(&self) -> Seq<Option<T>> {
        self.ring.slots()
    }

    /// The slot written last.
    pub closed spec fn in_idx(&self) -> nat {
        self.ring.in_pos()
    }

    /// The slot read last.
    pub closed spec fn out_idx(&self) -> nat {
        self.ring.out_pos()
    }

    pub closed spec fn wf(&self) -> bool {
        self.ring.wf()
    }

    /// What a push of `e` on `pre` leads to: the state `post` and the
    /// result `r`.
    pub open spec fn en_queue_spec(pre: Self, e: T, post: Self, r: EnQueue<T>) -> bool {
        &&& post.capacity() == pre.capacity()
        &&& post.is_closed() == pre.is_closed()
        &&& if pre.is_closed() {
            r == EnQueue::<T>::Closed && post@ == pre@
        } else if pre@.len() == pre.capacity() {
            r == EnQueue::Full(e) && post@ == pre@
        } else {
            &&& post@ == pre@.push(e)
            &&& r == EnQueue::<T>::Done {
                wake_room: pre@.len() + 1 < pre.capacity(),
                wake_elem: pre@.len() == 0,
            }
        }
    }

    /// What a pop on `pre` leads to: the state `post` and the result `r`.
    pub open spec fn de_queue_spec(pre: Self, post: Self, r: DeQueue<T>) -> bool {
        &&& post.capacity() == pre.capacity()
        &&& post.is_closed() == pre.is_closed()
        &&& if pre@.len() > 0 {
            &&& post@ == pre@.drop_first()
            &&& r == DeQueue::Item {
                value: pre@[0],
                wake_elem: pre@.len() > 1,
                wake_room: pre@.len() == pre.capacity(),
            }
        } else if pre.is_closed() {
            r == DeQueue::<T>::Closed && post@ == pre@
        } else {
            r == DeQueue::<T>::Empty && post@ == pre@
        }
    }

    /// What closing `pre` leads to: `r` tells whether this call closed it.
    pub open spec fn close_spec(pre: Self, post: Self, r: bool) -> bool {
        &&& post.is_closed()
        &&& r == !pre.is_closed()
        &&& post@ == pre@
        &&& post.capacity() == pre.capacity()
    }

    /// An open, empty queue that holds up to `cap` elements.
    pub fn new(cap: usize) -> (q: Self)
        ensures
            q.wf(),
            q@ == Seq::<T>::empty(),
            !q.is_closed(),
            q.capacity() == cap,
            q.slots() == Seq::new(cap as nat, |i: int| None::<T>),
            q.in_idx() == 0,
            q.out_idx() == 0,
    {
        FQueue { closed: false, ring: Ring::new(cap) }
    }

    /// Closes the queue; true when it was open before. The caller wakes
    /// every waiting party when this returns true.
    pub fn close(&mut self) -> (r: bool)
        requires
            old(self).wf(),
        ensures
            final(self).wf(),
            Self::close_spec(*old(self), *final(self), r),
    {
        let has_closed = self.closed;
        self.closed = true;
        !has_closed
    }

    /// One attempt to append `e`.
    pub fn en_queue(&mut self, e: T) -> (r: EnQueue<T>)
        requires
            old(self).wf(),
        ensures
            final(self).wf(),
            Self::en_queue_spec(*old(self), e, *final(self), r),
    {
        if self.closed {
            return EnQueue::Closed;
        }
        let c = self.ring.len();
        let cap = self.ring.capacity();
        if c == cap {
            return EnQueue::Full(e);
        }
        self.ring.push(e);
        EnQueue::Done { wake_room: c + 1 < cap, wake_elem: c == 0 }
    }

    /// One attempt to take the oldest element.
    pub fn de_queue(&mut self) -> (r: DeQueue<T>)
        requires
            old(self).wf(),
        ensures
            final(self).wf(),
            Self::de_queue_spec(*old(self), *final(self), r),
    {
        let c = self.ring.len();
        if c == 0 {
            if self.closed {
                return DeQueue::Closed;
            }
            return DeQueue::Empty;
        }
        let cap = self.ring.capacity();
        let value = self.ring.pop();
        DeQueue::Item { value, wake_elem: c > 1, wake_room: c == cap }
    }
}

/// An element pushed into an empty open queue is the next one popped, and
/// the queue is empty again afterwards.
pub proof fn law_round_trip<T>(
    q0: FQueue<T>,
    e: T,
    q1: FQueue<T>,
    r1: EnQueue<T>,
    q2: FQueue<T>,
    r2: DeQueue<T>,
)
    requires
        q0@.len() == 0,
        !q0.is_closed(),
        q0.capacity() > 0,
        FQueue::en_queue_spec(q0, e, q1, r1),
        FQueue::de_queue_spec(q1, q2, r2),
    ensures
        r1 is Done,
        (r2 matches DeQueue::Item { value, .. } && value == e),
        q2@.len() == 0,
{
    assert(q1@ =~= seq![e]);
    assert(q2@ =~= Seq::<T>::empty());
}

/// First in, first out: a successful push leaves the front in place, so a
/// pop after it takes the same element as a pop before it would have.
pub proof fn law_push_keeps_front<T>(
    q0: FQueue<T>,
    e: T,
    q1: FQueue<T>,
    r1: EnQueue<T>,
    q2: FQueue<T>,
    r2: DeQueue<T>,
)
    requires
        q0@.len() > 0,
        r1 is Done,
        FQueue::en_queue_spec(q0, e, q1, r1),
        FQueue::de_queue_spec(q1, q2, r2),
    ensures
        (r2 matches DeQueue::Item { value, .. } && value == q0@[0]),
        q2@ == q0@.drop_first().push(e),
{
    assert(q2@ =~= q0@.drop_first().push(e));
}

/// Closing is done once: a second close reports that the queue was already
/// closed.
pub proof fn law_close_once<T>(q0: FQueue<T>, q1: FQueue<T>, r1: bool, q2: FQueue<T>, r2: bool)
    requires
        FQueue::close_spec(q0, q1, r1),
        FQueue::close_spec(q1, q2, r2),
    ensures
        r1 == !q0.is_closed(),
        !r2,
        q2@ == q0@,
{
}

/// A closed queue refuses every push and keeps its contents.
pub proof fn law_closed_refuses<T>(q0: FQueue<T>, e: T, q1: FQueue<T>, r: EnQueue<T>)
    requires
        q0.is_closed(),
        FQueue::en_queue_spec(q0, e, q1, r),
    ensures
        r is Closed,
        q1@ == q0@,
{
}

/// A closed queue never makes a consumer wait: a pop takes the oldest
/// element while there is one, and reports the end when there is none.
pub proof fn law_closed_drains<T>(q0: FQueue<T>, q1: FQueue<T>, r: DeQueue<T>)
    requires
        q0.is_closed(),
        FQueue::de_queue_spec(q0, q1, r),
    ensures
        !(r is Empty),
        q0@.len() > 0 ==> (r matches DeQueue::Item { value, .. } && value == q0@[0]),
        q0@.len() == 0 ==> r is Closed,
{
}

/// A well-formed queue never holds more elements than its capacity.
pub proof fn law_len_le_capacity<T>(q: FQueue<T>)
    requires
        q.wf(),
    ensures
        q@.len() <= q.capacity(),
{
    q.ring.lemma_len_le_cap();
}

/// A successful push wakes another producer exactly when room is left
/// after it, and wakes a consumer exactly when the queue was empty before
/// it.
pub proof fn law_push_wakes<T>(q0: FQueue<T>, e: T, q1: FQueue<T>, r: EnQueue<T>)
    requires
        FQueue::en_queue_spec(q0, e, q1, r),
    ensures
        (r matches EnQueue::Done { wake_room, wake_elem } ==> wake_room == (q1@.len()
            < q1.capacity()) && wake_elem == (q0@.len() == 0) && q1@.len() == q0@.len() + 1),
{
}

/// A successful pop wakes another consumer exactly when elements are left
/// after it, and wakes a producer exactly when the queue was full before
/// it.
pub proof fn law_pop_wakes<T>(q0: FQueue<T>, q1: FQueue<T>, r: DeQueue<T>)
    requires
        FQueue::de_queue_spec(q0, q1, r),
    ensures
        (r matches DeQueue::Item { wake_elem, wake_room, .. } ==> wake_elem == (q1@.len() > 0)
            && wake_room == (q0@.len() == q0.capacity()) && q1@.len() + 1 == q0@.len()),
{
}

/// One operation on a queue, with its result.
pub enum Step<T> {
    Push(T, EnQueue<T>),
    Pop(DeQueue<T>),
    Close(bool),
}

/// `post` and the result recorded in `s` are what the operation of `s`
/// makes of `pre`.
pub open spec fn step_spec<T>(pre: FQueue<T>, s: Step<T>, post: FQueue<T>) -> bool {
    match s {
        Step::Push(e, r) => FQueue::en_queue_spec(pre, e, post, r),
        Step::Pop(r) => FQueue::de_queue_spec(pre, post, r),
        Step::Close(r) => FQueue::close_spec(pre, post, r),
    }
}

/// The element a step put in.
pub open spec fn step_in<T>(s: Step<T>) -> Seq<T> {
    match s {
        Step::Push(e, EnQueue::Done { .. }) => seq![e],
        _ => Seq::empty(),
    }
}

/// The element a step took out.
pub open spec fn step_out<T>(s: Step<T>) -> Seq<T> {
    match s {
        Step::Pop(DeQueue::Item { value, .. }) => seq![value],
        _ => Seq::empty(),
    }
}

/// `states[i + 1]` is what `steps[i]` makes of `states[i]`, for each `i`.
pub open spec fn is_run<T>(states: Seq<FQueue<T>>, steps: Seq<Step<T>>) -> bool {
    &&& states.len() == steps.len() + 1
    &&& forall|i: int| 0 <= i < steps.len() ==> step_spec(states[i], #[trigger] steps[i], states[i + 1])
}

/// All elements put in by `steps`, in order.
pub open spec fn all_in<T>(steps: Seq<Step<T>>) -> Seq<T> {
    concat_all(steps.map_values(|s: Step<T>| step_in(s)))
}

/// All elements taken out by `steps`, in order.
pub open spec fn all_out<T>(steps: Seq<Step<T>>) -> Seq<T> {
    concat_all(steps.map_values(|s: Step<T>| step_out(s)))
}

proof fn lemma_step_fifo<T>(pre: FQueue<T>, s: Step<T>, post: FQueue<T>)
    requires
        step_spec(pre, s, post),
    ensures
        pre@ + step_in(s) == step_out(s) + post@,
{
    match s {
        Step::Push(e, r) => {
            if r is Done {
                assert(pre@ + step_in(s) =~= step_out(s) + post@);
            } else {
                assert(pre@ + step_in(s) =~= step_out(s) + post@);
            }
        },
        Step::Pop(r) => {
            if r is Item {
                assert(pre@ =~= seq![pre@[0]] + pre@.drop_first());
                assert(pre@ + step_in(s) =~= step_out(s) + post@);
            } else {
                assert(pre@ + step_in(s) =~= step_out(s) + post@);
            }
        },
        Step::Close(r) => {
            assert(pre@ + step_in(s) =~= step_out(s) + post@);
        },
    }
}

proof fn lemma_run_fifo<T>(states: Seq<FQueue<T>>, steps: Seq<Step<T>>)
    requires
        is_run(states, steps),
    ensures
        fifo_steps(
            states.map_values(|q: FQueue<T>| q@),
            steps.map_values(|s: Step<T>| step_in(s)),
            steps.map_values(|s: Step<T>| step_out(s)),
        ),
{
    let contents = states.map_values(|q: FQueue<T>| q@);
    let ins = steps.map_values(|s: Step<T>| step_in(s));
    let outs = steps.map_values(|s: Step<T>| step_out(s));
    assert forall|i: int| 0 <= i < ins.len() implies #[trigger] contents[i] + ins[i] == outs[i]
        + contents[i + 1] by {
        lemma_step_fifo(states[i], steps[i], states[i + 1]);
    }
}

/// Nothing is lost, duplicated or made up: over any run of operations,
/// the first contents followed by every element put in equal every element
/// taken out (in the order taken) followed by the last contents.
pub proof fn law_run_conserves<T>(states: Seq<FQueue<T>>, steps: Seq<Step<T>>)
    requires
        is_run(states, steps),
    ensures
        states[0]@ + all_in(steps) == all_out(steps) + states.last()@,
{
    lemma_run_fifo(states, steps);
    lemma_fifo_steps(
        states.map_values(|q: FQueue<T>| q@),
        steps.map_values(|s: Step<T>| step_in(s)),
        steps.map_values(|s: Step<T>| step_out(s)),
    );
}

/// The end is reported only after everything: when a pop reports that the
/// queue is closed, every element that was in the queue or was put in
/// before has been taken out, in order.
pub proof fn law_end_after_all_delivered<T>(states: Seq<FQueue<T>>, steps: Seq<Step<T>>, j: int)
    requires
        is_run(states, steps),
        0 <= j < steps.len(),
        steps[j] == Step::Pop(DeQueue::<T>::Closed),
    ensures
        all_out(steps.take(j)) == states[0]@ + all_in(steps.take(j)),
{
    lemma_run_fifo(states, steps);
    let ins = steps.map_values(|s: Step<T>| step_in(s));
    let outs = steps.map_values(|s: Step<T>| step_out(s));
    lemma_fifo_prefix(states.map_values(|q: FQueue<T>| q@), ins, outs, j);
    assert(ins.take(j) =~= steps.take(j).map_values(|s: Step<T>| step_in(s)));
    assert(outs.take(j) =~= steps.take(j).map_values(|s: Step<T>| step_out(s)));
    assert(step_spec(states[j], steps[j], states[j + 1]));
    assert(states[j]@.len() == 0);
    assert(all_out(steps.take(j)) + states[j]@ =~= all_out(steps.take(j)));
}

} // verus!
