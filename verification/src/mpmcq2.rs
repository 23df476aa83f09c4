//! A bounded queue with send and receive ends, driven by two counters in
//! the style of semaphores.
//!
//! `room` counts free slots and `count` counts filled ones; a producer takes
//! one from `room` before it writes, a consumer one from `count` before it
//! reads, and either may drive its counter below zero, in which case it
//! waits on an `Event`. Slots are chosen by two `Indexer`s that run round
//! the ring.
//!
//! A producer stores only into a free slot and a consumer reads only a
//! filled one: where the counters would let a producer on through a full
//! queue, or a consumer on through an empty one, the step waits (or, once
//! the other end is closed, fails) instead.
use vstd::prelude::*;
use crate::ring::{elem_slot, next_index, wrap_add};
use crate::fifo::{concat_all, fifo_steps, lemma_fifo_prefix, lemma_fifo_steps};

verus! {

#[derive(Debug)]
pub enum QueueErr {
    SendEndClosed(&'static str),
    ReceiveEndClosed(&'static str),
    QueueFull(&'static str),
    QueueEmpty(&'static str),
    Timeout(&'static str),
    SendTimeout(&'static str),
    ReceiveTimeout(&'static str),
}

/// The error reported once the send end is closed.
pub open spec fn send_end_closed() -> QueueErr {
    QueueErr::SendEndClosed("queue's send end has been closed")
}

/// The error reported once the receive end is closed.
pub open spec fn receive_end_closed() -> QueueErr {
    QueueErr::ReceiveEndClosed("queue's receive end has been closed")
}

fn err_send_end_closed() -> (e: QueueErr)
    ensures
        e == send_end_closed(),
{
    QueueErr::SendEndClosed("queue's send end has been closed")
}

fn err_receive_end_closed() -> (e: QueueErr)
    ensures
        e == receive_end_closed(),
{
    QueueErr::ReceiveEndClosed("queue's receive end has been closed")
}

/// The capacity of a queue made without one.
pub const DEFAULT_QUEUE_SIZE: usize = 4096;

/// A counting event: `wait` takes a permit, `notify` gives one back. A
/// waiter that drives the count below zero blocks (once) until notified.
pub struct Event {
    l: isize,
}

impl Event {
    /// The number of permits; below zero, the number of blocked waiters.
    pub closed spec fn permits(&self) -> isize {
        self.l
    }

    /// An event holding `n` permits.
    pub fn new(n: isize) -> (ev: Event)
        ensures
            ev.permits() == n,
    {
        Event { l: n }
    }

    /// Takes a permit; true when none was left, so that the caller blocks
    /// until it is notified.
    pub fn wait(&mut self) -> (block: bool)
        requires
            old(self).permits() > isize::MIN,
        ensures
            final(self).permits() == old(self).permits() - 1,
            block == (final(self).permits() < 0),
    {
        self.l = self.l - 1;
        self.l < 0
    }

    /// Gives a permit back; the caller wakes one waiter.
    pub fn notify(&mut self)
        requires
            old(self).permits() < isize::MAX,
        ensures
            final(self).permits() == old(self).permits() + 1,
    {
        self.l = self.l + 1;
    }

    /// Gives a permit back; the caller wakes every waiter.
    pub fn notify_all(&mut self)
        requires
            old(self).permits() < isize::MAX,
        ensures
            final(self).permits() == old(self).permits() + 1,
    {
        self.l = self.l + 1;
    }
}

/// A position that runs round a ring of `cap` slots.
pub struct Indexer {
    i: isize,
    cap: isize,
}

impl Indexer {
    /// The position handed out last.
    pub closed spec fn pos(&self) -> isize {
        self.i
    }

    pub closed spec fn cap(&self) -> isize {
        self.cap
    }

    /// An indexer at `start` on a ring of `cap` slots.
    pub fn new(start: isize, cap: isize) -> (ix: Indexer)
        ensures
            ix.pos() == start,
            ix.cap() == cap,
    {
        Indexer { i: start, cap }
    }

    /// Moves to the following position, back to 0 at the end of the ring,
    /// and returns it.
    pub fn next(&mut self) -> (n: isize)
        requires
            old(self).pos() < isize::MAX,
        ensures
            n == next_index(old(self).pos() as int, old(self).cap() as int),
            final(self).pos() == n,
            final(self).cap() == old(self).cap(),
    {
        let mut next_i = self.i + 1;
        if next_i >= self.cap {
            next_i = 0;
        }
        self.i = next_i;
        next_i
    }
}

/// Everything a queue holds, as plain values.
pub struct QueueState<T> {
    /// The stored elements, oldest first.
    pub items: Seq<T>,
    pub capacity: isize,
    /// Stored elements not yet claimed by a consumer (below zero:
    /// consumers waiting).
    pub count: isize,
    /// Free slots not yet claimed by a producer (below zero: producers
    /// waiting).
    pub room: isize,
    /// The permits of the event producers wait on.
    pub room_permits: isize,
    /// The permits of the event consumers wait on.
    pub elem_permits: isize,
    pub send_closed: bool,
    pub recv_closed: bool,
}

/// What one push step did.
pub enum Push<T> {
    /// The element was stored. `wake_elem`: a consumer was waiting, and one
    /// should be woken.
    Done { wake_elem: bool },
    /// The producer has to wait for room: the caller blocks until woken,
    /// then goes on with `en_queue_resume`, handing the element back in.
    Blocked(T),
    /// The push was refused.
    Failed(QueueErr),
}

/// What one pop step did.
pub enum Pop<T> {
    /// An element was taken. `wake_room`: a producer was waiting, and one
    /// should be woken.
    Item { value: T, wake_room: bool },
    /// The consumer has to wait for an element: the caller blocks until
    /// woken, then goes on with `de_queue_resume`.
    Blocked,
    /// The pop was refused.
    Failed(QueueErr),
}

/// `s` after `e` is stored behind the newest element.
pub open spec fn after_put<T>(s: QueueState<T>, e: T) -> (QueueState<T>, Push<T>) {
    (
        QueueState {
            items: s.items.push(e),
            count: s.count.wrapping_add(1),
            elem_permits: if s.count < 0 {
                (s.elem_permits + 1) as isize
            } else {
                s.elem_permits
            },
            ..s
        },
        Push::Done { wake_elem: s.count < 0 },
    )
}

/// `s` after the oldest element is taken.
pub open spec fn after_take<T>(s: QueueState<T>) -> (QueueState<T>, Pop<T>) {
    (
        QueueState {
            items: s.items.drop_first(),
            room: s.room.wrapping_add(1),
            room_permits: if s.room < 0 {
                (s.room_permits + 1) as isize
            } else {
                s.room_permits
            },
            ..s
        },
        Pop::Item { value: s.items[0], wake_room: s.room < 0 },
    )
}

/// A producer cleared to store: it stores `e` if a slot is free; on a full
/// queue it waits, or fails once the receive end is closed.
pub open spec fn put_or_wait<T>(s: QueueState<T>, e: T) -> (QueueState<T>, Push<T>) {
    if s.items.len() >= s.capacity {
        if s.recv_closed {
            (s, Push::Failed(receive_end_closed()))
        } else {
            (s, Push::Blocked(e))
        }
    } else {
        after_put(s, e)
    }
}

/// A consumer cleared to take: it takes the oldest element if there is
/// one; on an empty queue it waits, or fails once the send end is closed.
pub open spec fn take_or_wait<T>(s: QueueState<T>) -> (QueueState<T>, Pop<T>) {
    if s.items.len() == 0 {
        if s.send_closed {
            (s, Pop::Failed(send_end_closed()))
        } else {
            (s, Pop::Blocked)
        }
    } else {
        after_take(s)
    }
}

/// The first push step from `s`: a producer claims a unit of room, and
/// waits on the room event when none is left.
pub open spec fn en_queue_result<T>(s: QueueState<T>, e: T) -> (QueueState<T>, Push<T>) {
    if s.send_closed {
        (s, Push::Failed(send_end_closed()))
    } else {
        let s1 = QueueState { room: s.room.wrapping_sub(1), ..s };
        if s.room > 0 {
            put_or_wait(s1, e)
        } else if s.recv_closed {
            (s1, Push::Failed(receive_end_closed()))
        } else {
            let s2 = QueueState { room_permits: (s1.room_permits - 1) as isize, ..s1 };
            if s2.room_permits < 0 {
                (s2, Push::Blocked(e))
            } else {
                put_or_wait(s2, e)
            }
        }
    }
}

/// The push step after a wake-up.
pub open spec fn en_queue_resume_result<T>(s: QueueState<T>, e: T) -> (QueueState<T>, Push<T>) {
    if s.send_closed {
        (s, Push::Failed(send_end_closed()))
    } else {
        put_or_wait(s, e)
    }
}

/// The first pop step from `s`: a consumer claims an element, and waits
/// on the element event when none is left.
pub open spec fn de_queue_result<T>(s: QueueState<T>) -> (QueueState<T>, Pop<T>) {
    if s.recv_closed {
        (s, Pop::Failed(receive_end_closed()))
    } else {
        let s1 = QueueState { count: s.count.wrapping_sub(1), ..s };
        if s.count > 0 {
            take_or_wait(s1)
        } else if s.send_closed {
            (s1, Pop::Failed(send_end_closed()))
        } else {
            let s2 = QueueState { elem_permits: (s1.elem_permits - 1) as isize, ..s1 };
            if s2.elem_permits < 0 {
                (s2, Pop::Blocked)
            } else {
                take_or_wait(s2)
            }
        }
    }
}

/// The pop step after a wake-up.
pub open spec fn de_queue_resume_result<T>(s: QueueState<T>) -> (QueueState<T>, Pop<T>) {
    if s.recv_closed {
        (s, Pop::Failed(receive_end_closed()))
    } else {
        take_or_wait(s)
    }
}

/// A producer cleared to store from `s` overflows no event.
pub open spec fn put_ok<T>(s: QueueState<T>) -> bool {
    (s.items.len() < s.capacity && s.count < 0) ==> s.elem_permits < isize::MAX
}

/// A consumer cleared to take from `s` overflows no event.
pub open spec fn take_ok<T>(s: QueueState<T>) -> bool {
    (s.items.len() > 0 && s.room < 0) ==> s.room_permits < isize::MAX
}

/// The first push step from `s` overflows no event.
pub open spec fn en_queue_ok<T>(s: QueueState<T>) -> bool {
    !s.send_closed ==> {
        &&& s.room > 0 ==> put_ok(s)
        &&& (s.room <= 0 && !s.recv_closed) ==> {
            &&& s.room_permits > isize::MIN
            &&& s.room_permits >= 1 ==> put_ok(s)
        }
    }
}

/// The first pop step from `s` overflows no event.
pub open spec fn de_queue_ok<T>(s: QueueState<T>) -> bool {
    !s.recv_closed ==> {
        &&& s.count > 0 ==> take_ok(s)
        &&& (s.count <= 0 && !s.send_closed) ==> {
            &&& s.elem_permits > isize::MIN
            &&& s.elem_permits >= 1 ==> take_ok(s)
        }
    }
}

/// `s` with the send end closed; the events get a permit each when this
/// closes it.
pub open spec fn after_close_send<T>(s: QueueState<T>) -> QueueState<T> {
    if s.send_closed {
        s
    } else {
        QueueState {
            send_closed: true,
            room_permits: (s.room_permits + 1) as isize,
            elem_permits: (s.elem_permits + 1) as isize,
            ..s
        }
    }
}

/// `s` with the receive end closed; the events get a permit each when this
/// closes it.
pub open spec fn after_close_recv<T>(s: QueueState<T>) -> QueueState<T> {
    if s.recv_closed {
        s
    } else {
        QueueState {
            recv_closed: true,
            room_permits: (s.room_permits + 1) as isize,
            elem_permits: (s.elem_permits + 1) as isize,
            ..s
        }
    }
}

/// Closing an open end of `s` overflows no event.
pub open spec fn close_ok<T>(s: QueueState<T>) -> bool {
    s.room_permits < isize::MAX && s.elem_permits < isize::MAX
}

/// The shape every queue keeps: a positive capacity that bounds the
/// number of stored elements.
pub open spec fn state_wf<T>(s: QueueState<T>) -> bool {
    &&& s.capacity > 0
    &&& s.items.len() <= s.capacity
}

/// The slot an indexer at `p` has handed out last, counting its start
/// position -1 as the last slot.
pub open spec fn norm(p: isize, cap: isize) -> int {
    if p < 0 {
        cap - 1
    } else {
        p as int
    }
}

pub struct FQueue<T> {
    send_closed: bool,
    recv_closed: bool,
    buf: Vec<Option<T>>,
    count: isize,
    room: isize,
    capacity: isize,
    in_idx: Indexer,
    out_idx: Indexer,
    cond_room: Event,
    cond_elem: Event,
    len: Ghost<nat>,
}

impl<T> View for FQueue<T> {
    type V = QueueState<T>;

    closed spec fn view(&self) -> QueueState<T> {
        QueueState {
            items: Seq::new(
                self.len@,
                |k: int|
                    self.buf@[elem_slot(
                        norm(self.out_idx.pos(), self.capacity),
                        k,
                        self.capacity as int,
                    )]->Some_0,
            ),
            capacity: self.capacity,
            count: self.count,
            room: self.room,
            room_permits: self.cond_room.permits(),
            elem_permits: self.cond_elem.permits(),
            send_closed: self.send_closed,
            recv_closed: self.recv_closed,
        }
    }
}

impl<T> FQueue<T> {
    /// The slots, in index order.
    pub closed spec fn slots(&self) -> Seq<Option<T>> {
        self.buf@
    }

    /// The slot written last (-1 before the first write).
    pub closed spec fn in_pos(&self) -> isize {
        self.in_idx.pos()
    }

    /// The slot read last (-1 before the first read).
    pub closed spec fn out_pos(&self) -> isize {
        self.out_idx.pos()
    }

    pub closed spec fn wf(&self) -> bool {
        let cap = self.capacity as int;
        let o = norm(self.out_idx.pos(), self.capacity);
        &&& self.capacity > 0
        &&& self.buf@.len() == cap
        &&& self.in_idx.cap() == self.capacity
        &&& self.out_idx.cap() == self.capacity
        &&& -1 <= self.in_idx.pos() < self.capacity
        &&& -1 <= self.out_idx.pos() < self.capacity
        &&& self.len@ <= cap
        &&& norm(self.in_idx.pos(), self.capacity) == wrap_add(o, self.len@ as int, cap)
        &&& forall|k: int|
            0 <= k < self.len@ ==> (#[trigger] self.buf@[elem_slot(o, k, cap)]) is Some
        &&& forall|k: int|
            self.len@ <= k < cap ==> (#[trigger] self.buf@[elem_slot(o, k, cap)]) is None
    }

    proof fn lemma_wf_state(&self)
        requires
            self.wf(),
        ensures
            state_wf(self@),
    {
    }

    /// An open, empty queue of `cap` slots.
    pub fn new(cap: isize) -> (q: Self)
        requires
            cap > 0,
        ensures
            q.wf(),
            q@.items == Seq::<T>::empty(),
            q@.capacity == cap,
            q@.count == 0,
            q@.room == cap,
            q@.room_permits == 0,
            q@.elem_permits == 0,
            !q@.send_closed,
            !q@.recv_closed,
            q.slots() == Seq::new(cap as nat, |i: int| None::<T>),
            q.in_pos() == -1,
            q.out_pos() == -1,
    {
        let mut buf: Vec<Option<T>> = Vec::with_capacity(cap as usize);
        let mut i: isize = 0;
        while i < cap
            invariant
                0 <= i <= cap,
                buf@ == Seq::new(i as nat, |j: int| None::<T>),
            decreases cap - i,
        {
            buf.push(None);
            i = i + 1;
            assert(buf@ =~= Seq::new(i as nat, |j: int| None::<T>));
        }
        let q = FQueue {
            send_closed: false,
            recv_closed: false,
            buf,
            count: 0,
            room: cap,
            capacity: cap,
            in_idx: Indexer::new(-1, cap),
            out_idx: Indexer::new(-1, cap),
            cond_room: Event::new(0),
            cond_elem: Event::new(0),
            len: Ghost(0),
        };
        assert(q@.items =~= Seq::<T>::empty());
        q
    }

    /// True when a slot is free.
    fn has_room(&self) -> (b: bool)
        requires
            self.wf(),
        ensures
            b == (self@.items.len() < self@.capacity),
    {
        let next_i = if self.in_idx.i + 1 >= self.capacity {
            0
        } else {
            self.in_idx.i + 1
        };
        proof {
            let cap = self.capacity as int;
            let o = norm(self.out_idx.pos(), self.capacity);
            if self.len@ < cap {
                assert(next_i == elem_slot(o, self.len@ as int, cap));
            } else {
                assert(next_i == elem_slot(o, 0, cap));
            }
        }
        self.buf[next_i as usize].is_none()
    }

    /// True when an element is stored.
    fn has_item(&self) -> (b: bool)
        requires
            self.wf(),
        ensures
            b == (self@.items.len() > 0),
    {
        let next_i = if self.out_idx.i + 1 >= self.capacity {
            0
        } else {
            self.out_idx.i + 1
        };
        proof {
            let cap = self.capacity as int;
            let o = norm(self.out_idx.pos(), self.capacity);
            assert(next_i == elem_slot(o, 0, cap));
        }
        self.buf[next_i as usize].is_some()
    }

    fn put(&mut self, e: T) -> (r: Push<T>)
        requires
            old(self).wf(),
            old(self)@.items.len() < old(self)@.capacity,
            put_ok(old(self)@),
        ensures
            final(self).wf(),
            (final(self)@, r) == after_put(old(self)@, e),
    {
        let ghost pre = *self;
        let i = self.in_idx.next();
        let mut slot = Some(e);
        self.buf.set_and_swap(i as usize, &mut slot);
        self.len = Ghost((self.len@ + 1) as nat);
        let count = self.count;
        self.count = count.wrapping_add(1);
        let wake_elem = count < 0;
        if wake_elem {
            self.cond_elem.notify();
        }
        proof {
            let cap = self.capacity as int;
            let o = norm(self.out_idx.pos(), self.capacity);
            assert(i == elem_slot(o, pre.len@ as int, cap));
            assert forall|k: int| 0 <= k < cap && k != pre.len@ implies #[trigger] elem_slot(
                o,
                k,
                cap,
            ) != i by {}
            assert forall|k: int| 0 <= k < self.len@ implies (#[trigger] self.buf@[elem_slot(
                o,
                k,
                cap,
            )]) is Some by {
                if k < pre.len@ {
                    assert(pre.buf@[elem_slot(o, k, cap)] is Some);
                }
            }
            assert forall|k: int| self.len@ <= k < cap implies (#[trigger] self.buf@[elem_slot(
                o,
                k,
                cap,
            )]) is None by {
                assert(pre.buf@[elem_slot(o, k, cap)] is None);
            }
            assert(self@.items =~= pre@.items.push(e));
        }
        Push::Done { wake_elem }
    }

    fn take(&mut self) -> (r: Pop<T>)
        requires
            old(self).wf(),
            old(self)@.items.len() > 0,
            take_ok(old(self)@),
        ensures
            final(self).wf(),
            (final(self)@, r) == after_take(old(self)@),
    {
        let ghost pre = *self;
        let i = self.out_idx.next();
        let mut slot: Option<T> = None;
        self.buf.set_and_swap(i as usize, &mut slot);
        self.len = Ghost((self.len@ - 1) as nat);
        let room = self.room;
        self.room = room.wrapping_add(1);
        let wake_room = room < 0;
        if wake_room {
            self.cond_room.notify();
        }
        proof {
            let cap = self.capacity as int;
            let o = norm(pre.out_idx.pos(), pre.capacity);
            assert(i == elem_slot(o, 0, cap));
            assert(pre.buf@[elem_slot(o, 0, cap)] is Some);
            assert(norm(self.out_idx.pos(), self.capacity) == i);
            assert forall|k: int| 0 <= k < cap - 1 implies #[trigger] elem_slot(i as int, k, cap)
                == wrap_add(o, k + 2, cap) by {}
            assert forall|k: int| 0 <= k < self.len@ implies (#[trigger] self.buf@[elem_slot(
                i as int,
                k,
                cap,
            )]) is Some by {
                assert(elem_slot(i as int, k, cap) == elem_slot(o, k + 1, cap));
                assert(pre.buf@[elem_slot(o, k + 1, cap)] is Some);
            }
            assert forall|k: int| self.len@ <= k < cap implies (#[trigger] self.buf@[elem_slot(
                i as int,
                k,
                cap,
            )]) is None by {
                if k + 1 < cap {
                    assert(elem_slot(i as int, k, cap) == elem_slot(o, k + 1, cap));
                    assert(pre.buf@[elem_slot(o, k + 1, cap)] is None);
                } else {
                    assert(elem_slot(i as int, k, cap) == i);
                }
            }
            assert forall|k: int| 0 <= k < self.len@ implies self@.items[k] == pre@.items[k
                + 1] by {
                assert(elem_slot(i as int, k, cap) == elem_slot(o, k + 1, cap));
            }
            assert(self@.items =~= pre@.items.drop_first());
        }
        Pop::Item { value: slot.unwrap(), wake_room }
    }

    fn put_or_wait(&mut self, e: T) -> (r: Push<T>)
        requires
            old(self).wf(),
            put_ok(old(self)@),
        ensures
            final(self).wf(),
            (final(self)@, r) == put_or_wait(old(self)@, e),
    {
        if !self.has_room() {
            if self.recv_closed {
                return Push::Failed(err_receive_end_closed());
            }
            return Push::Blocked(e);
        }
        self.put(e)
    }

    fn take_or_wait(&mut self) -> (r: Pop<T>)
        requires
            old(self).wf(),
            take_ok(old(self)@),
        ensures
            final(self).wf(),
            (final(self)@, r) == take_or_wait(old(self)@),
    {
        if !self.has_item() {
            if self.send_closed {
                return Pop::Failed(err_send_end_closed());
            }
            return Pop::Blocked;
        }
        self.take()
    }

    /// True when a first push step may be taken: it overflows no event.
    pub fn en_queue_allowed(&self) -> (b: bool)
        requires
            self.wf(),
        ensures
            b == en_queue_ok(self@),
    {
        if self.send_closed {
            return true;
        }
        let put_fine = !self.has_room() || self.count >= 0 || self.cond_elem.l < isize::MAX;
        if self.room > 0 {
            put_fine
        } else if self.recv_closed {
            true
        } else {
            self.cond_room.l > isize::MIN && (self.cond_room.l < 1 || put_fine)
        }
    }

    /// True when a push may be finished after a wake-up: it overflows no
    /// event.
    pub fn en_queue_resume_allowed(&self) -> (b: bool)
        requires
            self.wf(),
        ensures
            b == (!self@.send_closed ==> put_ok(self@)),
    {
        self.send_closed || !self.has_room() || self.count >= 0 || self.cond_elem.l < isize::MAX
    }

    fn take_allowed(&self) -> (b: bool)
        requires
            self.wf(),
        ensures
            b == take_ok(self@),
    {
        !self.has_item() || self.room >= 0 || self.cond_room.l < isize::MAX
    }

    /// True when a first pop step may be taken: it overflows no event.
    pub fn de_queue_allowed(&self) -> (b: bool)
        requires
            self.wf(),
        ensures
            b == de_queue_ok(self@),
    {
        if self.recv_closed {
            return true;
        }
        if self.count > 0 {
            self.take_allowed()
        } else if self.send_closed {
            true
        } else {
            self.cond_elem.l > isize::MIN && (self.cond_elem.l < 1 || self.take_allowed())
        }
    }

    /// True when a pop may be finished after a wake-up: it overflows no
    /// event.
    pub fn de_queue_resume_allowed(&self) -> (b: bool)
        requires
            self.wf(),
        ensures
            b == (!self@.recv_closed ==> take_ok(self@)),
    {
        self.recv_closed || self.take_allowed()
    }

    /// True when closing an end overflows no event.
    pub fn close_allowed(&self) -> (b: bool)
        requires
            self.wf(),
        ensures
            b == close_ok(self@),
    {
        self.cond_room.l < isize::MAX && self.cond_elem.l < isize::MAX
    }

    /// The first step of a push of `e`.
    pub fn en_queue(&mut self, e: T) -> (r: Push<T>)
        requires
            old(self).wf(),
            en_queue_ok(old(self)@),
        ensures
            final(self).wf(),
            (final(self)@, r) == en_queue_result(old(self)@, e),
    {
        if self.send_closed {
            return Push::Failed(err_send_end_closed());
        }
        let room = self.room;
        self.room = room.wrapping_sub(1);
        if room <= 0 {
            if self.recv_closed {
                return Push::Failed(err_receive_end_closed());
            }
            if self.cond_room.wait() {
                return Push::Blocked(e);
            }
        }
        self.put_or_wait(e)
    }

    /// The step of a push that goes on after a wake-up.
    pub fn en_queue_resume(&mut self, e: T) -> (r: Push<T>)
        requires
            old(self).wf(),
            !old(self)@.send_closed ==> put_ok(old(self)@),
        ensures
            final(self).wf(),
            (final(self)@, r) == en_queue_resume_result(old(self)@, e),
    {
        if self.send_closed {
            return Push::Failed(err_send_end_closed());
        }
        self.put_or_wait(e)
    }

    /// The first step of a pop.
    pub fn de_queue(&mut self) -> (r: Pop<T>)
        requires
            old(self).wf(),
            de_queue_ok(old(self)@),
        ensures
            final(self).wf(),
            (final(self)@, r) == de_queue_result(old(self)@),
    {
        if self.recv_closed {
            return Pop::Failed(err_receive_end_closed());
        }
        let count = self.count;
        self.count = count.wrapping_sub(1);
        if count <= 0 {
            if self.send_closed {
                return Pop::Failed(err_send_end_closed());
            }
            if self.cond_elem.wait() {
                return Pop::Blocked;
            }
        }
        self.take_or_wait()
    }

    /// The step of a pop that goes on after a wake-up.
    pub fn de_queue_resume(&mut self) -> (r: Pop<T>)
        requires
            old(self).wf(),
            !old(self)@.recv_closed ==> take_ok(old(self)@),
        ensures
            final(self).wf(),
            (final(self)@, r) == de_queue_resume_result(old(self)@),
    {
        if self.recv_closed {
            return Pop::Failed(err_receive_end_closed());
        }
        self.take_or_wait()
    }

    /// Closes the send end; true when it was open before, and then the
    /// caller wakes every waiter of both events.
    pub fn close_send(&mut self) -> (r: bool)
        requires
            old(self).wf(),
            !old(self)@.send_closed ==> close_ok(old(self)@),
        ensures
            final(self).wf(),
            r == !old(self)@.send_closed,
            final(self)@ == after_close_send(old(self)@),
    {
        if self.send_closed {
            return false;
        }
        self.send_closed = true;
        self.cond_room.notify_all();
        self.cond_elem.notify_all();
        true
    }

    /// Closes the receive end; true when it was open before, and then the
    /// caller wakes every waiter of both events.
    pub fn close_recv(&mut self) -> (r: bool)
        requires
            old(self).wf(),
            !old(self)@.recv_closed ==> close_ok(old(self)@),
        ensures
            final(self).wf(),
            r == !old(self)@.recv_closed,
            final(self)@ == after_close_recv(old(self)@),
    {
        if self.recv_closed {
            return false;
        }
        self.recv_closed = true;
        self.cond_room.notify_all();
        self.cond_elem.notify_all();
        true
    }

    /// Closes both ends; the pair tells which end this call closed.
    pub fn close_all(&mut self) -> (r: (bool, bool))
        requires
            old(self).wf(),
            !old(self)@.send_closed ==> close_ok(old(self)@),
            !old(self)@.recv_closed ==> close_ok(after_close_send(old(self)@)),
        ensures
            final(self).wf(),
            r == (!old(self)@.send_closed, !old(self)@.recv_closed),
            final(self)@ == after_close_recv(after_close_send(old(self)@)),
    {
        let s = self.close_send();
        let r = self.close_recv();
        (s, r)
    }
}

/// A queue that its users share; each operation is one step of the
/// underlying `FQueue`.
pub struct MyQueue<T> {
    queue: FQueue<T>,
}

impl<T> View for MyQueue<T> {
    type V = QueueState<T>;

    closed spec fn view(&self) -> QueueState<T> {
        self.queue@
    }
}

impl<T> MyQueue<T> {
    pub closed spec fn wf(&self) -> bool {
        self.queue.wf()
    }

    /// A well-formed queue never holds more elements than its capacity.
    pub proof fn lemma_shape(&self)
        requires
            self.wf(),
        ensures
            state_wf(self@),
    {
        self.queue.lemma_wf_state();
    }

    /// An open, empty queue of the default capacity.
    pub fn new() -> (q: Self)
        ensures
            q.wf(),
            q@.items == Seq::<T>::empty(),
            q@.capacity == DEFAULT_QUEUE_SIZE,
            q@.count == 0,
            q@.room == DEFAULT_QUEUE_SIZE,
            q@.room_permits == 0,
            q@.elem_permits == 0,
            !q@.send_closed,
            !q@.recv_closed,
    {
        MyQueue { queue: FQueue::new(DEFAULT_QUEUE_SIZE as isize) }
    }

    /// An open queue of `cap` empty slots.
    pub fn new_with_capacity(cap: usize) -> (q: Self)
        requires
            0 < cap <= isize::MAX,
        ensures
            q.wf(),
            q@.items == Seq::<T>::empty(),
            q@.capacity == cap,
            q@.count == 0,
            q@.room == cap,
            q@.room_permits == 0,
            q@.elem_permits == 0,
            !q@.send_closed,
            !q@.recv_closed,
    {
        MyQueue { queue: FQueue::new(cap as isize) }
    }

    /// True when a first push step may be taken.
    pub fn push_allowed(&self) -> (b: bool)
        requires
            self.wf(),
        ensures
            b == en_queue_ok(self@),
    {
        self.queue.en_queue_allowed()
    }

    /// True when a push may be finished after a wake-up.
    pub fn push_resume_allowed(&self) -> (b: bool)
        requires
            self.wf(),
        ensures
            b == (!self@.send_closed ==> put_ok(self@)),
    {
        self.queue.en_queue_resume_allowed()
    }

    /// True when a first pop step may be taken.
    pub fn pop_allowed(&self) -> (b: bool)
        requires
            self.wf(),
        ensures
            b == de_queue_ok(self@),
    {
        self.queue.de_queue_allowed()
    }

    /// True when a pop may be finished after a wake-up.
    pub fn pop_resume_allowed(&self) -> (b: bool)
        requires
            self.wf(),
        ensures
            b == (!self@.recv_closed ==> take_ok(self@)),
    {
        self.queue.de_queue_resume_allowed()
    }

    /// True when closing an end overflows no event.
    pub fn close_allowed(&self) -> (b: bool)
        requires
            self.wf(),
        ensures
            b == close_ok(self@),
    {
        self.queue.close_allowed()
    }

    /// The first step of a push of `e`.
    pub fn push(&mut self, e: T) -> (r: Push<T>)
        requires
            old(self).wf(),
            en_queue_ok(old(self)@),
        ensures
            final(self).wf(),
            (final(self)@, r) == en_queue_result(old(self)@, e),
    {
        self.queue.en_queue(e)
    }

    /// The step of a push that finishes after a wake-up.
    pub fn push_resume(&mut self, e: T) -> (r: Push<T>)
        requires
            old(self).wf(),
            !old(self)@.send_closed ==> put_ok(old(self)@),
        ensures
            final(self).wf(),
            (final(self)@, r) == en_queue_resume_result(old(self)@, e),
    {
        self.queue.en_queue_resume(e)
    }

    /// The first step of a pop.
    pub fn pop(&mut self) -> (r: Pop<T>)
        requires
            old(self).wf(),
            de_queue_ok(old(self)@),
        ensures
            final(self).wf(),
            (final(self)@, r) == de_queue_result(old(self)@),
    {
        self.queue.de_queue()
    }

    /// The step of a pop that finishes after a wake-up.
    pub fn pop_resume(&mut self) -> (r: Pop<T>)
        requires
            old(self).wf(),
            !old(self)@.recv_closed ==> take_ok(old(self)@),
        ensures
            final(self).wf(),
            (final(self)@, r) == de_queue_resume_result(old(self)@),
    {
        self.queue.de_queue_resume()
    }

    /// Closes the send end; true when it was open before.
    pub fn close_send(&mut self) -> (r: bool)
        requires
            old(self).wf(),
            !old(self)@.send_closed ==> close_ok(old(self)@),
        ensures
            final(self).wf(),
            r == !old(self)@.send_closed,
            final(self)@ == after_close_send(old(self)@),
    {
        self.queue.close_send()
    }

    /// Closes the receive end; true when it was open before.
    pub fn close_receive(&mut self) -> (r: bool)
        requires
            old(self).wf(),
            !old(self)@.recv_closed ==> close_ok(old(self)@),
        ensures
            final(self).wf(),
            r == !old(self)@.recv_closed,
            final(self)@ == after_close_recv(old(self)@),
    {
        self.queue.close_recv()
    }

    /// Closes both ends; the pair tells which end this call closed.
    pub fn close(&mut self) -> (r: (bool, bool))
        requires
            old(self).wf(),
            !old(self)@.send_closed ==> close_ok(old(self)@),
            !old(self)@.recv_closed ==> close_ok(after_close_send(old(self)@)),
        ensures
            final(self).wf(),
            r == (!old(self)@.send_closed, !old(self)@.recv_closed),
            final(self)@ == after_close_recv(after_close_send(old(self)@)),
    {
        self.queue.close_all()
    }
}

/// A queue to share, of the default capacity.
pub fn new_share_queue<T>() -> (q: MyQueue<T>)
    ensures
        q.wf(),
        q@.items == Seq::<T>::empty(),
        q@.capacity == DEFAULT_QUEUE_SIZE,
        q@.count == 0,
        q@.room == DEFAULT_QUEUE_SIZE,
        q@.room_permits == 0,
        q@.elem_permits == 0,
        !q@.send_closed,
        !q@.recv_closed,
{
    MyQueue::new()
}

/// A queue to share with `cap` slots.
pub fn new_share_queue_capacity<T>(cap: usize) -> (q: MyQueue<T>)
    requires
        0 < cap <= isize::MAX,
    ensures
        q.wf(),
        q@.items == Seq::<T>::empty(),
        q@.capacity == cap,
        q@.count == 0,
        q@.room == cap,
        q@.room_permits == 0,
        q@.elem_permits == 0,
        !q@.send_closed,
        !q@.recv_closed,
{
    MyQueue::new_with_capacity(cap)
}

/// A well-formed queue never holds more elements than its capacity.
pub proof fn law_len_le_capacity<T>(q: FQueue<T>)
    requires
        q.wf(),
    ensures
        state_wf(q@),
{
    q.lemma_wf_state();
}

/// What is pushed into an empty open queue with room is the next element
/// popped, without waiting.
pub proof fn law_round_trip<T>(s: QueueState<T>, e: T)
    requires
        state_wf(s),
        !s.send_closed,
        !s.recv_closed,
        s.room > 0,
        0 <= s.count < isize::MAX,
        s.items.len() == 0,
    ensures
        en_queue_result(s, e).1 == (Push::<T>::Done { wake_elem: false }),
        (de_queue_result(en_queue_result(s, e).0).1 matches Pop::Item { value, .. } && value
            == e),
{
}

/// A push on a full open queue waits, whatever the counters say, and
/// leaves the stored elements as they are: no unread element is
/// overwritten.
pub proof fn law_full_push_waits<T>(s: QueueState<T>, e: T)
    requires
        s.items.len() >= s.capacity,
        !s.send_closed,
        !s.recv_closed,
    ensures
        en_queue_result(s, e).1 == Push::Blocked(e),
        en_queue_result(s, e).0.items == s.items,
        en_queue_resume_result(s, e).1 == Push::Blocked(e),
        en_queue_resume_result(s, e).0.items == s.items,
{
}

/// A pop on an empty open queue waits, whatever the counters say; once the
/// send end is closed, a consumer woken on an empty queue gets the send-end
/// error.
pub proof fn law_empty_pop_waits<T>(s: QueueState<T>)
    requires
        s.items.len() == 0,
        !s.recv_closed,
    ensures
        !s.send_closed ==> de_queue_result(s).1 == Pop::<T>::Blocked,
        !s.send_closed ==> de_queue_resume_result(s).1 == Pop::<T>::Blocked,
        s.send_closed ==> de_queue_result(s).1 == Pop::<T>::Failed(send_end_closed()),
        s.send_closed ==> de_queue_resume_result(s) == (s, Pop::<T>::Failed(send_end_closed())),
        de_queue_result(s).0.items == s.items,
{
}

/// Once the send end is closed, every push is refused with the send-end
/// error and changes nothing.
pub proof fn law_send_closed_refuses<T>(s: QueueState<T>, e: T)
    requires
        s.send_closed,
    ensures
        en_queue_result(s, e) == (s, Push::<T>::Failed(send_end_closed())),
        en_queue_resume_result(s, e) == (s, Push::<T>::Failed(send_end_closed())),
{
}

/// Once the receive end is closed, every pop is refused with the
/// receive-end error and changes nothing.
pub proof fn law_recv_closed_refuses<T>(s: QueueState<T>)
    requires
        s.recv_closed,
    ensures
        de_queue_result(s) == (s, Pop::<T>::Failed(receive_end_closed())),
        de_queue_resume_result(s) == (s, Pop::<T>::Failed(receive_end_closed())),
{
}

/// Each end is closed once: closing it again changes nothing more.
pub proof fn law_close_once<T>(s: QueueState<T>)
    ensures
        after_close_send(after_close_send(s)) == after_close_send(s),
        after_close_recv(after_close_recv(s)) == after_close_recv(s),
        after_close_send(s).send_closed,
        after_close_recv(s).recv_closed,
{
}

/// The shape of a queue is kept by every step.
pub proof fn law_steps_keep_shape<T>(s: QueueState<T>, e: T)
    requires
        state_wf(s),
    ensures
        state_wf(en_queue_result(s, e).0),
        state_wf(en_queue_resume_result(s, e).0),
        state_wf(de_queue_result(s).0),
        state_wf(de_queue_resume_result(s).0),
        state_wf(after_close_send(s)),
        state_wf(after_close_recv(s)),
{
}

/// A push that stores its element moves one unit from `room` to `count`,
/// and a pop that takes one moves it back, so `room + count` stays as it
/// was (away from the ends of `isize`).
pub proof fn law_counters_balance<T>(s: QueueState<T>, e: T)
    requires
        isize::MIN < s.room < isize::MAX,
        isize::MIN < s.count < isize::MAX,
    ensures
        en_queue_result(s, e).1 is Done ==> en_queue_result(s, e).0.room + en_queue_result(
            s,
            e,
        ).0.count == s.room + s.count,
        de_queue_result(s).1 is Item ==> de_queue_result(s).0.room + de_queue_result(s).0.count
            == s.room + s.count,
{
}

/// A push that stores its element wakes a consumer exactly when consumers
/// were waiting (the element count was below zero), whatever their number,
/// and then gives the element event the permit that the woken consumer
/// takes.
pub proof fn law_push_wakes_waiting_consumer<T>(s: QueueState<T>, e: T)
    requires
        s.elem_permits < isize::MAX,
    ensures
        (en_queue_result(s, e).1 matches Push::Done { wake_elem } ==> wake_elem == (s.count < 0)
            && en_queue_result(s, e).0.elem_permits == s.elem_permits + (if s.count < 0 {
            1int
        } else {
            0int
        })),
        (en_queue_resume_result(s, e).1 matches Push::Done { wake_elem } ==> wake_elem == (s.count
            < 0) && en_queue_resume_result(s, e).0.elem_permits == s.elem_permits + (if s.count
            < 0 {
            1int
        } else {
            0int
        })),
{
}

/// A pop that takes an element wakes a producer exactly when producers
/// were waiting (the room count was below zero), whatever their number,
/// and then gives the room event the permit that the woken producer takes.
pub proof fn law_pop_wakes_waiting_producer<T>(s: QueueState<T>)
    requires
        s.room_permits < isize::MAX,
    ensures
        (de_queue_result(s).1 matches Pop::Item { wake_room, .. } ==> wake_room == (s.room < 0)
            && de_queue_result(s).0.room_permits == s.room_permits + (if s.room < 0 {
            1int
        } else {
            0int
        })),
        (de_queue_resume_result(s).1 matches Pop::Item { wake_room, .. } ==> wake_room == (s.room
            < 0) && de_queue_resume_result(s).0.room_permits == s.room_permits + (if s.room < 0 {
            1int
        } else {
            0int
        })),
{
}

/// One operation on a queue, with its result.
pub enum Step<T> {
    Push(T, Push<T>),
    PushResume(T, Push<T>),
    Pop(Pop<T>),
    PopResume(Pop<T>),
    CloseSend,
    CloseRecv,
}

/// `post` and the result recorded in `st` are what the operation of `st`
/// makes of `pre`.
pub open spec fn step_spec<T>(pre: QueueState<T>, st: Step<T>, post: QueueState<T>) -> bool {
    match st {
        Step::Push(e, r) => (post, r) == en_queue_result(pre, e),
        Step::PushResume(e, r) => (post, r) == en_queue_resume_result(pre, e),
        Step::Pop(r) => (post, r) == de_queue_result(pre),
        Step::PopResume(r) => (post, r) == de_queue_resume_result(pre),
        Step::CloseSend => post == after_close_send(pre),
        Step::CloseRecv => post == after_close_recv(pre),
    }
}

/// The element a step stored.
pub open spec fn step_in<T>(st: Step<T>) -> Seq<T> {
    match st {
        Step::Push(e, Push::Done { .. }) => seq![e],
        Step::PushResume(e, Push::Done { .. }) => seq![e],
        _ => Seq::empty(),
    }
}

/// The element a step took.
pub open spec fn step_out<T>(st: Step<T>) -> Seq<T> {
    match st {
        Step::Pop(Pop::Item { value, .. }) => seq![value],
        Step::PopResume(Pop::Item { value, .. }) => seq![value],
        _ => Seq::empty(),
    }
}

/// `states[i + 1]` is what `steps[i]` makes of `states[i]`, for each `i`.
pub open spec fn is_run<T>(states: Seq<QueueState<T>>, steps: Seq<Step<T>>) -> bool {
    &&& states.len() == steps.len() + 1
    &&& forall|i: int| 0 <= i < steps.len() ==> step_spec(states[i], #[trigger] steps[i], states[i + 1])
}

/// All elements stored by `steps`, in order.
pub open spec fn all_in<T>(steps: Seq<Step<T>>) -> Seq<T> {
    concat_all(steps.map_values(|st: Step<T>| step_in(st)))
}

/// All elements taken by `steps`, in order.
pub open spec fn all_out<T>(steps: Seq<Step<T>>) -> Seq<T> {
    concat_all(steps.map_values(|st: Step<T>| step_out(st)))
}

proof fn lemma_step_fifo<T>(pre: QueueState<T>, st: Step<T>, post: QueueState<T>)
    requires
        step_spec(pre, st, post),
    ensures
        pre.items + step_in(st) == step_out(st) + post.items,
{
    if pre.items.len() > 0 {
        assert(pre.items =~= seq![pre.items[0]] + pre.items.drop_first());
    }
    assert(pre.items + step_in(st) =~= step_out(st) + post.items);
}

proof fn lemma_run_fifo<T>(states: Seq<QueueState<T>>, steps: Seq<Step<T>>)
    requires
        is_run(states, steps),
    ensures
        fifo_steps(
            states.map_values(|q: QueueState<T>| q.items),
            steps.map_values(|st: Step<T>| step_in(st)),
            steps.map_values(|st: Step<T>| step_out(st)),
        ),
{
    let contents = states.map_values(|q: QueueState<T>| q.items);
    let ins = steps.map_values(|st: Step<T>| step_in(st));
    let outs = steps.map_values(|st: Step<T>| step_out(st));
    assert forall|i: int| 0 <= i < ins.len() implies #[trigger] contents[i] + ins[i] == outs[i]
        + contents[i + 1] by {
        lemma_step_fifo(states[i], steps[i], states[i + 1]);
    }
}

/// Nothing is lost, duplicated or made up: over any run of steps, the
/// first contents followed by every element stored equal every element
/// taken (in the order taken) followed by the last contents.
pub proof fn law_run_conserves<T>(states: Seq<QueueState<T>>, steps: Seq<Step<T>>)
    requires
        is_run(states, steps),
    ensures
        states[0].items + all_in(steps) == all_out(steps) + states.last().items,
{
    lemma_run_fifo(states, steps);
    lemma_fifo_steps(
        states.map_values(|q: QueueState<T>| q.items),
        steps.map_values(|st: Step<T>| step_in(st)),
        steps.map_values(|st: Step<T>| step_out(st)),
    );
}

/// A woken consumer gets the send-end error only after everything: every
/// element that was in the queue or was stored before has been taken, in
/// order.
pub proof fn law_end_after_all_delivered<T>(
    states: Seq<QueueState<T>>,
    steps: Seq<Step<T>>,
    j: int,
)
    requires
        is_run(states, steps),
        0 <= j < steps.len(),
        steps[j] == Step::PopResume(Pop::<T>::Failed(send_end_closed())),
    ensures
        all_out(steps.take(j)) == states[0].items + all_in(steps.take(j)),
{
    lemma_run_fifo(states, steps);
    let ins = steps.map_values(|st: Step<T>| step_in(st));
    let outs = steps.map_values(|st: Step<T>| step_out(st));
    lemma_fifo_prefix(states.map_values(|q: QueueState<T>| q.items), ins, outs, j);
    assert(ins.take(j) =~= steps.take(j).map_values(|st: Step<T>| step_in(st)));
    assert(outs.take(j) =~= steps.take(j).map_values(|st: Step<T>| step_out(st)));
    assert(step_spec(states[j], steps[j], states[j + 1]));
    assert(states[j].items.len() == 0);
    assert(all_out(steps.take(j)) + states[j].items =~= all_out(steps.take(j)));
}

} // verus!
