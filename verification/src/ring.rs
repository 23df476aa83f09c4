//! A fixed-capacity ring of slots holding a first-in first-out sequence.
//!
//! Both indices name the slot used last: a push first advances `in_idx`
//! and then fills that slot, a pop first advances `out_idx` and then empties
//! that slot.
use vstd::prelude::*;

verus! {

/// The slot `k` places after `start` in a ring of `cap` slots, for
/// `0 <= start < cap` and `0 <= k <= cap`.
pub open spec fn wrap_add(start: int, k: int, cap: int) -> int {
    if start + k < cap {
        start + k
    } else {
        start + k - cap
    }
}

/// The slot of the element `k` places behind the front, when the slot read
/// last is `out`.
pub open spec fn elem_slot(out: int, k: int, cap: int) -> int {
    wrap_add(out, k + 1, cap)
}

/// The index that follows `i` in a ring of `cap` slots.
pub open spec fn next_index(i: int, cap: int) -> int {
    if i + 1 >= cap {
        0
    } else {
        i + 1
    }
}

pub struct Ring<T> {
    buf: Vec<Option<T>>,
    count: usize,
    capacity: usize,
    in_idx: usize,
    out_idx: usize,
}

impl<T> View for Ring<T> {
    type V = Seq<T>;

    /// The queued elements, oldest first.
    closed spec fn view(&self) -> Seq<T> {
        Seq::new(
            self.count as nat,
            |k: int| self.buf@[elem_slot(self.out_idx as int, k, self.capacity as int)]->Some_0,
        )
    }
}

impl<T> Ring<T> {
    /// The number of slots.
    pub closed spec fn cap(&self) -> nat {
        self.capacity as nat
    }

    /// The slots, in index order.
    pub closed spec fn slots(&self) -> Seq<Option<T>> {
        self.buf@
    }

    /// The slot written last.
    pub closed spec fn in_pos(&self) -> nat {
        self.in_idx as nat
    }

    /// The slot read last.
    pub closed spec fn out_pos(&self) -> nat {
        self.out_idx as nat
    }

    pub closed spec fn wf(&self) -> bool {
        &&& self.buf@.len() == self.capacity
        &&& self.count <= self.capacity
        &&& self.capacity == 0 ==> self.in_idx == 0 && self.out_idx == 0
        &&& self.capacity > 0 ==> self.in_idx < self.capacity && self.out_idx < self.capacity
        &&& self.in_idx == wrap_add(self.out_idx as int, self.count as int, self.capacity as int)
        &&& forall|k: int|
            0 <= k < self.count ==> (#[trigger] self.buf@[elem_slot(
                self.out_idx as int,
                k,
                self.capacity as int,
            )]) is Some
    }

    /// An empty ring with `cap` slots.
    pub fn new(cap: usize) -> (r: Self)
        ensures
            r.wf(),
            r@ == Seq::<T>::empty(),
            r.cap() == cap,
            r.slots() == Seq::new(cap as nat, |i: int| None::<T>),
            r.in_pos() == 0,
            r.out_pos() == 0,
    {
        let mut buf: Vec<Option<T>> = Vec::with_capacity(cap);
        let mut i: usize = 0;
        while i < cap
            invariant
                i <= cap,
                buf@ == Seq::new(i as nat, |j: int| None::<T>),
            decreases cap - i,
        {
            buf.push(None);
            i = i + 1;
            assert(buf@ =~= Seq::new(i as nat, |j: int| None::<T>));
        }
        let r = Ring { buf, count: 0, capacity: cap, in_idx: 0, out_idx: 0 };
        assert(r@ =~= Seq::<T>::empty());
        r
    }

    /// The number of queued elements.
    pub fn len(&self) -> (n: usize)
        requires
            self.wf(),
        ensures
            n == self@.len(),
            n <= self.cap(),
    {
        self.count
    }

    /// The number of slots.
    pub fn capacity(&self) -> (n: usize)
        ensures
            n == self.cap(),
    {
        self.capacity
    }

    proof fn lemma_len(&self)
        ensures
            self@.len() == self.count,
    {
    }

    /// A well-formed ring never holds more elements than it has slots.
    pub proof fn lemma_len_le_cap(&self)
        requires
            self.wf(),
        ensures
            self@.len() <= self.cap(),
    {
    }

    /// Appends `e` behind the newest element.
    pub fn push(&mut self, e: T)
        requires
            old(self).wf(),
            old(self)@.len() < old(self).cap(),
        ensures
            final(self).wf(),
            final(self)@ == old(self)@.push(e),
            final(self).cap() == old(self).cap(),
    {
        proof {
            self.lemma_len();
        }
        let ghost old_ring = *self;
        let mut next_in = self.in_idx + 1;
        if next_in >= self.capacity {
            next_in = 0;
        }
        assert(next_in == wrap_add(self.out_idx as int, self.count + 1, self.capacity as int));
        self.in_idx = next_in;
        let mut slot = Some(e);
        self.buf.set_and_swap(next_in, &mut slot);
        self.count = self.count + 1;
        proof {
            let cap = self.capacity as int;
            let out = self.out_idx as int;
            assert forall|k: int| 0 <= k < old_ring.count implies #[trigger] elem_slot(out, k, cap)
                != next_in by {}
            assert forall|k: int| 0 <= k < self.count implies (#[trigger] self.buf@[elem_slot(
                out,
                k,
                cap,
            )]) is Some by {
                if k < old_ring.count {
                    assert(old_ring.buf@[elem_slot(out, k, cap)] is Some);
                }
            }
            assert(self@ =~= old_ring@.push(e));
        }
    }

    /// Removes and returns the oldest element.
    pub fn pop(&mut self) -> (e: T)
        requires
            old(self).wf(),
            old(self)@.len() > 0,
        ensures
            final(self).wf(),
            e == old(self)@[0],
            final(self)@ == old(self)@.drop_first(),
            final(self).cap() == old(self).cap(),
    {
        proof {
            self.lemma_len();
        }
        let ghost old_ring = *self;
        let mut next_out = self.out_idx + 1;
        if next_out >= self.capacity {
            next_out = 0;
        }
        assert(old_ring.buf@[elem_slot(old_ring.out_idx as int, 0, self.capacity as int)] is Some);
        self.out_idx = next_out;
        let mut slot: Option<T> = None;
        self.buf.set_and_swap(next_out, &mut slot);
        self.count = self.count - 1;
        proof {
            let cap = self.capacity as int;
            let o = old_ring.out_idx as int;
            assert forall|k: int| 0 <= k <= self.count implies #[trigger] wrap_add(next_out as int, k, cap)
                == wrap_add(o, k + 1, cap) by {}
            assert forall|k: int| 0 <= k < self.count implies (#[trigger] self.buf@[elem_slot(
                next_out as int,
                k,
                cap,
            )]) is Some by {
                assert(elem_slot(next_out as int, k, cap) == elem_slot(o, k + 1, cap));
                assert(old_ring.buf@[elem_slot(o, k + 1, cap)] is Some);
            }
            assert(self@ =~= old_ring@.drop_first());
        }
        slot.unwrap()
    }
}

} // verus!
