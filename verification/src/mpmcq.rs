//! A bounded queue with separate send and receive ends.
//!
//! Closing the send end stops producers, and lets consumers drain what is
//! left before they are told that the send end is closed. Closing the
//! receive end stops consumers at once, and stops producers that would have
//! to wait for room.
use vstd::prelude::*;
use crate::ring::Ring;
use crate::fifo::{concat_all, fifo_steps, lemma_fifo_steps, lemma_fifo_prefix};

verus! {

#[derive(Debug)]
pub enum QueueErr {
    SendEndClosed(&'static str),
    ReceiveEndClosed(&'static str),
    QueueFull(&'static str),
    QueueEmpty(&'static str),
    Timeout(&'static str),
    SendTimeout(&'static str),
    ReceiveTimeout(&'static str),
}

/// The error reported once the send end is closed.
pub open spec fn send_end_closed() -> QueueErr {
    QueueErr::SendEndClosed("queue's send end has been closed")
}

/// The error reported once the receive end is closed.
pub open spec fn receive_end_closed() -> QueueErr {
    QueueErr::ReceiveEndClosed("queue's receive end has been closed")
}

fn err_send_end_closed() -> (e: QueueErr)
    ensures
        e == send_end_closed(),
{
    QueueErr::SendEndClosed("queue's send end has been closed")
}

fn err_receive_end_closed() -> (e: QueueErr)
    ensures
        e == receive_end_closed(),
{
    QueueErr::ReceiveEndClosed("queue's receive end has been closed")
}

/// The capacity of a queue made without one.
pub const DEFAULT_QUEUE_SIZE: usize = 4096;

/// What one push attempt did.
pub enum Push<T> {
    /// The element was appended. `wake_room`: there is still room, so one
    /// more waiting producer should be woken; `wake_elem`: the queue was
    /// empty before, so a waiting consumer should be woken.
    Done { wake_room: bool, wake_elem: bool },
    /// The queue is full: the element is handed back, the caller waits for
    /// room and tries again.
    Full(T),
    /// The push was refused.
    Failed(QueueErr),
}

/// What one pop attempt did.
pub enum Pop<T> {
    /// The oldest element was taken. `wake_elem`: more elements remain, so
    /// one more waiting consumer should be woken; `wake_room`: the queue was
    /// full before, so a waiting producer should be woken.
    Item { value: T, wake_elem: bool, wake_room: bool },
    /// The queue is empty: the caller waits and tries again.
    Empty,
    /// The pop was refused.
    Failed(QueueErr),
}

pub struct FQueue<T> {
    send_closed: bool,
    recv_closed: bool,
    ring: Ring<T>,
}

impl<T> View for FQueue<T> {
    type V = Seq<T>;

    /// The queued elements, oldest first.
    closed spec fn view(&self) -> Seq<T> {
        self.ring@
    }
}

impl<T> FQueue<T> {
    pub closed spec fn send_closed(&self) -> bool {
        self.send_closed
    }

    pub closed spec fn recv_closed(&self) -> bool {
        self.recv_closed
    }

    /// The number of elements the queue can hold.
    pub closed spec fn capacity(&self) -> nat {
        self.ring.cap()
    }

    /// The slots, in index order.
    pub closed spec fn slots(&self) -> Seq<Option<T>> {
        self.ring.slots()
    }

    /// The slot written last.
    pub closed spec fn in_idx(&self) -> nat {
        self.ring.in_pos()
    }

    /// The slot read last.
    pub closed spec fn out_idx(&self) -> nat {
        self.ring.out_pos()
    }

    pub closed spec fn wf(&self) -> bool {
        self.ring.wf()
    }

    /// `pre` and `post` hold the same elements in the same state of the
    /// ends.
    pub open spec fn unchanged(pre: Self, post: Self) -> bool {
        &&& post@ == pre@
        &&& post.send_closed() == pre.send_closed()
        &&& post.recv_closed() == pre.recv_closed()
        &&& post.capacity() == pre.capacity()
    }

    /// What a push of `e` on `pre` leads to: the state `post` and the
    /// result `r`.
    pub open spec fn en_queue_spec(pre: Self, e: T, post: Self, r: Push<T>) -> bool {
        if pre.send_closed() {
            r == Push::<T>::Failed(send_end_closed()) && Self::unchanged(pre, post)
        } else if pre@.len() == pre.capacity() {
            &&& Self::unchanged(pre, post)
            &&& if pre.recv_closed() {
                r == Push::<T>::Failed(receive_end_closed())
            } else {
                r == Push::Full(e)
            }
        } else {
            &&& post@ == pre@.push(e)
            &&& post.send_closed() == pre.send_closed()
            &&& post.recv_closed() == pre.recv_closed()
            &&& post.capacity() == pre.capacity()
            &&& r == Push::<T>::Done {
                wake_room: pre@.len() + 1 < pre.capacity(),
                wake_elem: pre@.len() == 0,
            }
        }
    }

    /// What a pop on `pre` leads to: the state `post` and the result `r`.
    pub open spec fn de_queue_spec(pre: Self, post: Self, r: Pop<T>) -> bool {
        if pre.recv_closed() {
            r == Pop::<T>::Failed(receive_end_closed()) && Self::unchanged(pre, post)
        } else if pre@.len() > 0 {
            &&& post@ == pre@.drop_first()
            &&& post.send_closed() == pre.send_closed()
            &&& post.recv_closed() == pre.recv_closed()
            &&& post.capacity() == pre.capacity()
            &&& r == Pop::Item {
                value: pre@[0],
                wake_elem: pre@.len() > 1,
                wake_room: pre@.len() == pre.capacity(),
            }
        } else if pre.send_closed() {
            r == Pop::<T>::Failed(send_end_closed()) && Self::unchanged(pre, post)
        } else {
            r == Pop::<T>::Empty && Self::unchanged(pre, post)
        }
    }

    /// What closing the send end of `pre` leads to: `r` tells whether this
    /// call closed it.
    pub open spec fn close_send_spec(pre: Self, post: Self, r: bool) -> bool {
        &&& post.send_closed()
        &&& post.recv_closed() == pre.recv_closed()
        &&& r == !pre.send_closed()
        &&& post@ == pre@
        &&& post.capacity() == pre.capacity()
    }

    /// What closing the receive end of `pre` leads to: `r` tells whether
    /// this call closed it.
    pub open spec fn close_recv_spec(pre: Self, post: Self, r: bool) -> bool {
        &&& post.recv_closed()
        &&& post.send_closed() == pre.send_closed()
        &&& r == !pre.recv_closed()
        &&& post@ == pre@
        &&& post.capacity() == pre.capacity()
    }

    /// A queue with both ends open, empty, holding up to `cap` elements.
    pub fn new(cap: usize) -> (q: Self)
        ensures
            q.wf(),
            q@ == Seq::<T>::empty(),
            !q.send_closed(),
            !q.recv_closed(),
            q.capacity() == cap,
            q.slots() == Seq::new(cap as nat, |i: int| None::<T>),
            q.in_idx() == 0,
            q.out_idx() == 0,
    {
        FQueue { send_closed: false, recv_closed: false, ring: Ring::new(cap) }
    }

    /// One attempt to append `e`.
    pub fn en_queue(&mut self, e: T) -> (r: Push<T>)
        requires
            old(self).wf(),
        ensures
            final(self).wf(),
            Self::en_queue_spec(*old(self), e, *final(self), r),
    {
        if self.send_closed {
            return Push::Failed(err_send_end_closed());
        }
        let c = self.ring.len();
        let cap = self.ring.capacity();
        if c == cap {
            if self.recv_closed {
                return Push::Failed(err_receive_end_closed());
            }
            return Push::Full(e);
        }
        self.ring.push(e);
        Push::Done { wake_room: c + 1 < cap, wake_elem: c == 0 }
    }

    /// One attempt to take the oldest element.
    pub fn de_queue(&mut self) -> (r: Pop<T>)
        requires
            old(self).wf(),
        ensures
            final(self).wf(),
            Self::de_queue_spec(*old(self), *final(self), r),
    {
        if self.recv_closed {
            return Pop::Failed(err_receive_end_closed());
        }
        let c = self.ring.len();
        if c == 0 {
            if self.send_closed {
                return Pop::Failed(err_send_end_closed());
            }
            return Pop::Empty;
        }
        let cap = self.ring.capacity();
        let value = self.ring.pop();
        Pop::Item { value, wake_elem: c > 1, wake_room: c == cap }
    }

    /// Closes the send end; true when it was open before. The caller wakes
    /// every waiting party when this returns true.
    pub fn close_send(&mut self) -> (r: bool)
        requires
            old(self).wf(),
        ensures
            final(self).wf(),
            Self::close_send_spec(*old(self), *final(self), r),
    {
        let has_closed = self.send_closed;
        self.send_closed = true;
        !has_closed
    }

    /// Closes the receive end; true when it was open before. The caller
    /// wakes every waiting party when this returns true.
    pub fn close_recv(&mut self) -> (r: bool)
        requires
            old(self).wf(),
        ensures
            final(self).wf(),
            Self::close_recv_spec(*old(self), *final(self), r),
    {
        let has_closed = self.recv_closed;
        self.recv_closed = true;
        !has_closed
    }

    /// Closes both ends. The pair tells, as `close_send` and `close_recv`
    /// do, which end this call closed.
    pub fn close_all(&mut self) -> (r: (bool, bool))
        requires
            old(self).wf(),
        ensures
            final(self).wf(),
            final(self).send_closed(),
            final(self).recv_closed(),
            r.0 == !old(self).send_closed(),
            r.1 == !old(self).recv_closed(),
            final(self)@ == old(self)@,
            final(self).capacity() == old(self).capacity(),
    {
        let s = self.close_send();
        let r = self.close_recv();
        (s, r)
    }
}

/// A queue that its users share; each operation is one step of the
/// underlying `FQueue`.
pub struct MyQueue<T> {
    queue: FQueue<T>,
}

impl<T> MyQueue<T> {
    /// The queue behind this handle.
    pub closed spec fn inner(&self) -> FQueue<T> {
        self.queue
    }

    pub open spec fn wf(&self) -> bool {
        self.inner().wf()
    }

    /// An open, empty queue of the default capacity.
    pub fn new() -> (q: Self)
        ensures
            q.wf(),
            q.inner()@ == Seq::<T>::empty(),
            !q.inner().send_closed(),
            !q.inner().recv_closed(),
            q.inner().capacity() == DEFAULT_QUEUE_SIZE,
    {
        MyQueue { queue: FQueue::new(DEFAULT_QUEUE_SIZE) }
    }

    /// An open, empty queue that holds up to `cap` elements.
    pub fn new_with_capacity(cap: usize) -> (q: Self)
        ensures
            q.wf(),
            q.inner()@ == Seq::<T>::empty(),
            !q.inner().send_closed(),
            !q.inner().recv_closed(),
            q.inner().capacity() == cap,
    {
        MyQueue { queue: FQueue::new(cap) }
    }

    /// One attempt to append `e`.
    pub fn push(&mut self, e: T) -> (r: Push<T>)
        requires
            old(self).wf(),
        ensures
            final(self).wf(),
            FQueue::en_queue_spec(old(self).inner(), e, final(self).inner(), r),
    {
        self.queue.en_queue(e)
    }

    /// One attempt to take the oldest element.
    pub fn pop(&mut self) -> (r: Pop<T>)
        requires
            old(self).wf(),
        ensures
            final(self).wf(),
            FQueue::de_queue_spec(old(self).inner(), final(self).inner(), r),
    {
        self.queue.de_queue()
    }

    /// Closes the send end; true when it was open before.
    pub fn close_send(&mut self) -> (r: bool)
        requires
            old(self).wf(),
        ensures
            final(self).wf(),
            FQueue::close_send_spec(old(self).inner(), final(self).inner(), r),
    {
        self.queue.close_send()
    }

    /// Closes the receive end; true when it was open before.
    pub fn close_receive(&mut self) -> (r: bool)
        requires
            old(self).wf(),
        ensures
            final(self).wf(),
            FQueue::close_recv_spec(old(self).inner(), final(self).inner(), r),
    {
        self.queue.close_recv()
    }

    /// Closes both ends; the pair tells which end this call closed.
    pub fn close(&mut self) -> (r: (bool, bool))
        requires
            old(self).wf(),
        ensures
            final(self).wf(),
            final(self).inner().send_closed(),
            final(self).inner().recv_closed(),
            r.0 == !old(self).inner().send_closed(),
            r.1 == !old(self).inner().recv_closed(),
            final(self).inner()@ == old(self).inner()@,
            final(self).inner().capacity() == old(self).inner().capacity(),
    {
        self.queue.close_all()
    }
}

/// A queue to share, of the default capacity.
pub fn new_share_queue<T>() -> (q: MyQueue<T>)
    ensures
        q.wf(),
        q.inner()@ == Seq::<T>::empty(),
        !q.inner().send_closed(),
        !q.inner().recv_closed(),
        q.inner().capacity() == DEFAULT_QUEUE_SIZE,
{
    MyQueue::new()
}

/// A queue to share that holds up to `cap` elements.
pub fn new_share_queue_capacity<T>(cap: usize) -> (q: MyQueue<T>)
    ensures
        q.wf(),
        q.inner()@ == Seq::<T>::empty(),
        !q.inner().send_closed(),
        !q.inner().recv_closed(),
        q.inner().capacity() == cap,
{
    MyQueue::new_with_capacity(cap)
}

/// An element pushed into an empty open queue is the next one popped, and
/// the queue is empty again afterwards.
pub proof fn law_round_trip<T>(
    q0: FQueue<T>,
    e: T,
    q1: FQueue<T>,
    r1: Push<T>,
    q2: FQueue<T>,
    r2: Pop<T>,
)
    requires
        q0@.len() == 0,
        !q0.send_closed(),
        !q0.recv_closed(),
        q0.capacity() > 0,
        FQueue::en_queue_spec(q0, e, q1, r1),
        FQueue::de_queue_spec(q1, q2, r2),
    ensures
        r1 is Done,
        (r2 matches Pop::Item { value, .. } && value == e),
        q2@.len() == 0,
{
    assert(q1@ =~= seq![e]);
    assert(q2@ =~= Seq::<T>::empty());
}

/// First in, first out: a successful push leaves the front in place, so a
/// pop after it takes the same element as a pop before it would have.
pub proof fn law_push_keeps_front<T>(
    q0: FQueue<T>,
    e: T,
    q1: FQueue<T>,
    r1: Push<T>,
    q2: FQueue<T>,
    r2: Pop<T>,
)
    requires
        q0@.len() > 0,
        !q0.recv_closed(),
        r1 is Done,
        FQueue::en_queue_spec(q0, e, q1, r1),
        FQueue::de_queue_spec(q1, q2, r2),
    ensures
        (r2 matches Pop::Item { value, .. } && value == q0@[0]),
        q2@ == q0@.drop_first().push(e),
{
    assert(q2@ =~= q0@.drop_first().push(e));
}

/// Once the send end is closed, every push is refused with the send-end
/// error, and the contents stay as they are.
pub proof fn law_send_closed_refuses<T>(q0: FQueue<T>, e: T, q1: FQueue<T>, r: Push<T>)
    requires
        q0.send_closed(),
        FQueue::en_queue_spec(q0, e, q1, r),
    ensures
        r == Push::<T>::Failed(send_end_closed()),
        q1@ == q0@,
{
}

/// Once the send end is closed (and the receive end is open), consumers
/// never wait: they drain the queue, then get the send-end error.
pub proof fn law_send_closed_drains<T>(q0: FQueue<T>, q1: FQueue<T>, r: Pop<T>)
    requires
        q0.send_closed(),
        !q0.recv_closed(),
        FQueue::de_queue_spec(q0, q1, r),
    ensures
        !(r is Empty),
        q0@.len() > 0 ==> (r matches Pop::Item { value, .. } && value == q0@[0]),
        q0@.len() == 0 ==> r == Pop::<T>::Failed(send_end_closed()),
{
}

/// Once the receive end is closed, every pop is refused with the
/// receive-end error, whatever the queue holds.
pub proof fn law_recv_closed_refuses<T>(q0: FQueue<T>, q1: FQueue<T>, r: Pop<T>)
    requires
        q0.recv_closed(),
        FQueue::de_queue_spec(q0, q1, r),
    ensures
        r == Pop::<T>::Failed(receive_end_closed()),
        q1@ == q0@,
{
}

/// Each end is closed once: a second close of the same end reports that it
/// was already closed.
pub proof fn law_close_once<T>(
    q0: FQueue<T>,
    q1: FQueue<T>,
    r1: bool,
    q2: FQueue<T>,
    r2: bool,
    q3: FQueue<T>,
    r3: bool,
    q4: FQueue<T>,
    r4: bool,
)
    requires
        FQueue::close_send_spec(q0, q1, r1),
        FQueue::close_send_spec(q1, q2, r2),
        FQueue::close_recv_spec(q2, q3, r3),
        FQueue::close_recv_spec(q3, q4, r4),
    ensures
        r1 == !q0.send_closed(),
        !r2,
        r3 == !q0.recv_closed(),
        !r4,
        q4@ == q0@,
{
}

/// A well-formed queue never holds more elements than its capacity.
pub proof fn law_len_le_capacity<T>(q: FQueue<T>)
    requires
        q.wf(),
    ensures
        q@.len() <= q.capacity(),
{
    q.ring.lemma_len_le_cap();
}

/// A successful push wakes another producer exactly when room is left
/// after it, and wakes a consumer exactly when the queue was empty before
/// it.
pub proof fn law_push_wakes<T>(q0: FQueue<T>, e: T, q1: FQueue<T>, r: Push<T>)
    requires
        FQueue::en_queue_spec(q0, e, q1, r),
    ensures
        (r matches Push::Done { wake_room, wake_elem } ==> wake_room == (q1@.len()
            < q1.capacity()) && wake_elem == (q0@.len() == 0) && q1@.len() == q0@.len() + 1),
{
}

/// A successful pop wakes another consumer exactly when elements are left
/// after it, and wakes a producer exactly when the queue was full before
/// it.
pub proof fn law_pop_wakes<T>(q0: FQueue<T>, q1: FQueue<T>, r: Pop<T>)
    requires
        FQueue::de_queue_spec(q0, q1, r),
    ensures
        (r matches Pop::Item { wake_elem, wake_room, .. } ==> wake_elem == (q1@.len() > 0)
            && wake_room == (q0@.len() == q0.capacity()) && q1@.len() + 1 == q0@.len()),
{
}

/// One operation on a queue, with its result.
pub enum Step<T> {
    Push(T, Push<T>),
    Pop(Pop<T>),
    CloseSend(bool),
    CloseRecv(bool),
}

/// `post` and the result recorded in `s` are what the operation of `s`
/// makes of `pre`.
pub open spec fn step_spec<T>(pre: FQueue<T>, s: Step<T>, post: FQueue<T>) -> bool {
    match s {
        Step::Push(e, r) => FQueue::en_queue_spec(pre, e, post, r),
        Step::Pop(r) => FQueue::de_queue_spec(pre, post, r),
        Step::CloseSend(r) => FQueue::close_send_spec(pre, post, r),
        Step::CloseRecv(r) => FQueue::close_recv_spec(pre, post, r),
    }
}

/// The element a step put in.
pub open spec fn step_in<T>(s: Step<T>) -> Seq<T> {
    match s {
        Step::Push(e, Push::Done { .. }) => seq![e],
        _ => Seq::empty(),
    }
}

/// The element a step took out.
pub open spec fn step_out<T>(s: Step<T>) -> Seq<T> {
    match s {
        Step::Pop(Pop::Item { value, .. }) => seq![value],
        _ => Seq::empty(),
    }
}

/// `states[i + 1]` is what `steps[i]` makes of `states[i]`, for each `i`.
pub open spec fn is_run<T>(states: Seq<FQueue<T>>, steps: Seq<Step<T>>) -> bool {
    &&& states.len() == steps.len() + 1
    &&& forall|i: int| 0 <= i < steps.len() ==> step_spec(states[i], #[trigger] steps[i], states[i + 1])
}

/// All elements put in by `steps`, in order.
pub open spec fn all_in<T>(steps: Seq<Step<T>>) -> Seq<T> {
    concat_all(steps.map_values(|s: Step<T>| step_in(s)))
}

/// All elements taken out by `steps`, in order.
pub open spec fn all_out<T>(steps: Seq<Step<T>>) -> Seq<T> {
    concat_all(steps.map_values(|s: Step<T>| step_out(s)))
}

proof fn lemma_step_fifo<T>(pre: FQueue<T>, s: Step<T>, post: FQueue<T>)
    requires
        step_spec(pre, s, post),
    ensures
        pre@ + step_in(s) == step_out(s) + post@,
{
    match s {
        Step::Pop(r) => {
            if r is Item {
                assert(pre@ =~= seq![pre@[0]] + pre@.drop_first());
            }
            assert(pre@ + step_in(s) =~= step_out(s) + post@);
        },
        _ => {
            assert(pre@ + step_in(s) =~= step_out(s) + post@);
        },
    }
}

proof fn lemma_run_fifo<T>(states: Seq<FQueue<T>>, steps: Seq<Step<T>>)
    requires
        is_run(states, steps),
    ensures
        fifo_steps(
            states.map_values(|q: FQueue<T>| q@),
            steps.map_values(|s: Step<T>| step_in(s)),
            steps.map_values(|s: Step<T>| step_out(s)),
        ),
{
    let contents = states.map_values(|q: FQueue<T>| q@);
    let ins = steps.map_values(|s: Step<T>| step_in(s));
    let outs = steps.map_values(|s: Step<T>| step_out(s));
    assert forall|i: int| 0 <= i < ins.len() implies #[trigger] contents[i] + ins[i] == outs[i]
        + contents[i + 1] by {
        lemma_step_fifo(states[i], steps[i], states[i + 1]);
    }
}

/// Nothing is lost, duplicated or made up: over any run of operations,
/// the first contents followed by every element put in equal every element
/// taken out (in the order taken) followed by the last contents.
pub proof fn law_run_conserves<T>(states: Seq<FQueue<T>>, steps: Seq<Step<T>>)
    requires
        is_run(states, steps),
    ensures
        states[0]@ + all_in(steps) == all_out(steps) + states.last()@,
{
    lemma_run_fifo(states, steps);
    lemma_fifo_steps(
        states.map_values(|q: FQueue<T>| q@),
        steps.map_values(|s: Step<T>| step_in(s)),
        steps.map_values(|s: Step<T>| step_out(s)),
    );
}

/// The send-end error comes only after everything: when a pop reports it,
/// every element that was in the queue or was put in before has been taken
/// out, in order.
pub proof fn law_end_after_all_delivered<T>(states: Seq<FQueue<T>>, steps: Seq<Step<T>>, j: int)
    requires
        is_run(states, steps),
        0 <= j < steps.len(),
        steps[j] == Step::Pop(Pop::<T>::Failed(send_end_closed())),
    ensures
        all_out(steps.take(j)) == states[0]@ + all_in(steps.take(j)),
{
    lemma_run_fifo(states, steps);
    let ins = steps.map_values(|s: Step<T>| step_in(s));
    let outs = steps.map_values(|s: Step<T>| step_out(s));
    lemma_fifo_prefix(states.map_values(|q: FQueue<T>| q@), ins, outs, j);
    assert(ins.take(j) =~= steps.take(j).map_values(|s: Step<T>| step_in(s)));
    assert(outs.take(j) =~= steps.take(j).map_values(|s: Step<T>| step_out(s)));
    assert(step_spec(states[j], steps[j], states[j + 1]));
    assert(states[j]@.len() == 0);
    assert(all_out(steps.take(j)) + states[j]@ =~= all_out(steps.take(j)));
}

} // verus!
