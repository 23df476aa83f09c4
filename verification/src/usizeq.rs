//! A bounded queue of `usize` values over a fixed array, with a counter
//! and two positions that run round it.
use vstd::prelude::*;
use crate::ring::wrap_add;
use crate::fifo::{concat_all, fifo_steps, lemma_fifo_steps};

verus! {

/// A word that one operation at a time reads or updates. Each operation
/// does what the atomic operation of the same name does; the lock that the
/// caller holds makes it one step.
pub struct MyAtomicUsize {
    val: usize,
}

impl View for MyAtomicUsize {
    type V = usize;

    closed spec fn view(&self) -> usize {
        self.val
    }
}

impl MyAtomicUsize {
    pub fn new(v: usize) -> (a: MyAtomicUsize)
        ensures
            a@ == v,
    {
        MyAtomicUsize { val: v }
    }

    /// The current value, read directly.
    pub fn get_val(&self) -> (v: usize)
        ensures
            v == self@,
    {
        self.val
    }

    /// The current value.
    pub fn fetch(&self) -> (v: usize)
        ensures
            v == self@,
    {
        self.val
    }

    /// The current value.
    pub fn load(&self) -> (v: usize)
        ensures
            v == self@,
    {
        self.val
    }

    /// Replaces the value with `new`.
    pub fn store(&mut self, new: usize)
        ensures
            final(self)@ == new,
    {
        self.val = new;
    }

    /// Replaces the value with `new` and returns the one before.
    pub fn swap(&mut self, new: usize) -> (prev: usize)
        ensures
            prev == old(self)@,
            final(self)@ == new,
    {
        let prev = self.val;
        self.val = new;
        prev
    }

    /// Adds `delta`, wrapping round on overflow, and returns the value
    /// before.
    pub fn fetch_add(&mut self, delta: usize) -> (prev: usize)
        ensures
            prev == old(self)@,
            final(self)@ == old(self)@.wrapping_add(delta),
    {
        let prev = self.val;
        self.val = prev.wrapping_add(delta);
        prev
    }

    /// Subtracts `delta`, wrapping round on overflow, and returns the value
    /// before.
    pub fn fetch_sub(&mut self, delta: usize) -> (prev: usize)
        ensures
            prev == old(self)@,
            final(self)@ == old(self)@.wrapping_sub(delta),
    {
        let prev = self.val;
        self.val = prev.wrapping_sub(delta);
        prev
    }

    /// Stores `new` if the value is `current`; returns the value before
    /// either way.
    pub fn compare_and_swap(&mut self, current: usize, new: usize) -> (prev: usize)
        ensures
            prev == old(self)@,
            final(self)@ == cas_result(old(self)@, current, new),
    {
        let prev = self.val;
        if prev == current {
            self.val = new;
        }
        prev
    }
}

/// The value after a compare-and-swap of `current` for `new` on `v`.
pub open spec fn cas_result(v: usize, current: usize, new: usize) -> usize {
    if v == current {
        new
    } else {
        v
    }
}

/// The position that follows `pos` on a ring of `maxv` slots.
pub open spec fn position_after(pos: usize, maxv: usize) -> int {
    if pos + 1 >= maxv {
        0
    } else {
        pos + 1
    }
}

/// A position on a ring of `maxv` slots.
pub struct Position {
    val: usize,
    maxv: usize,
}

impl Position {
    /// The current position.
    pub closed spec fn pos(&self) -> usize {
        self.val
    }

    /// The number of slots on the ring.
    pub closed spec fn maxv(&self) -> usize {
        self.maxv
    }

    /// The position `val` on a ring of `max` slots.
    pub fn new(val: usize, max: usize) -> (p: Position)
        ensures
            p.pos() == val,
            p.maxv() == max,
    {
        Position { val, maxv: max }
    }

    /// The current position.
    pub fn get(&self) -> (v: usize)
        ensures
            v == self.pos(),
    {
        self.val
    }

    /// Moves to the following position, back to 0 at the end of the ring,
    /// and returns it.
    pub fn next(&mut self) -> (v: usize)
        requires
            old(self).pos() < usize::MAX,
        ensures
            v == position_after(old(self).pos(), old(self).maxv()),
            final(self).pos() == v,
            final(self).maxv() == old(self).maxv(),
    {
        self.val = self.val + 1;
        if self.val >= self.maxv {
            self.val = 0;
        }
        self.val
    }

    /// Returns the current position and moves to the following one.
    pub fn get_and_inc(&mut self) -> (v: usize)
        requires
            old(self).pos() < usize::MAX,
        ensures
            v == old(self).pos(),
            final(self).pos() == position_after(old(self).pos(), old(self).maxv()),
            final(self).maxv() == old(self).maxv(),
    {
        let current = self.val;
        self.next();
        current
    }
}

/// The number of slots of a queue.
pub const QUEUE_SIZE: usize = 100000;

/// What one push attempt did.
pub enum UsizePush {
    /// The value was appended. `wake_room`: there is still room, so one
    /// more waiting producer should be woken; `wake_elem`: the queue was
    /// empty before, so a waiting consumer should be woken.
    Done { wake_room: bool, wake_elem: bool },
    /// The queue is full: the caller waits for room and tries again.
    Full,
}

/// What one pop attempt did.
pub enum UsizePop {
    /// The oldest value was taken. `wake_elem`: more values remain, so one
    /// more waiting consumer should be woken; `wake_room`: the queue was
    /// full before, so a waiting producer should be woken.
    Item { value: usize, wake_elem: bool, wake_room: bool },
    /// The queue is empty: the caller waits and tries again.
    Empty,
}

pub struct UsizeQ {
    count: MyAtomicUsize,
    in_pos: Position,
    out_pos: Position,
    cap: usize,
    buf: Vec<usize>,
}

impl View for UsizeQ {
    type V = Seq<usize>;

    /// The queued values, oldest first.
    closed spec fn view(&self) -> Seq<usize> {
        Seq::new(
            self.count@ as nat,
            |k: int| self.buf@[wrap_add(self.out_pos.pos() as int, k, self.cap as int)],
        )
    }
}

impl UsizeQ {
    /// The number of values the queue can hold.
    pub closed spec fn capacity(&self) -> nat {
        self.cap as nat
    }

    /// The slots, in index order.
    pub closed spec fn slots(&self) -> Seq<usize> {
        self.buf@
    }

    /// The slot the next push writes.
    pub closed spec fn in_pos(&self) -> usize {
        self.in_pos.pos()
    }

    /// The slot the next pop reads.
    pub closed spec fn out_pos(&self) -> usize {
        self.out_pos.pos()
    }

    pub closed spec fn wf(&self) -> bool {
        &&& self.cap > 0
        &&& self.buf@.len() == self.cap
        &&& self.count@ <= self.cap
        &&& self.in_pos.maxv() == self.cap
        &&& self.out_pos.maxv() == self.cap
        &&& self.in_pos.pos() < self.cap
        &&& self.out_pos.pos() < self.cap
        &&& self.in_pos.pos() == wrap_add(
            self.out_pos.pos() as int,
            self.count@ as int,
            self.cap as int,
        )
    }

    /// What a push of `e` on `pre` leads to.
    pub open spec fn push_spec(pre: Self, e: usize, post: Self, r: UsizePush) -> bool {
        &&& post.capacity() == pre.capacity()
        &&& if pre@.len() == pre.capacity() {
            r == UsizePush::Full && post@ == pre@
        } else {
            &&& post@ == pre@.push(e)
            &&& r == (UsizePush::Done {
                wake_room: pre@.len() + 1 < pre.capacity(),
                wake_elem: pre@.len() == 0,
            })
        }
    }

    /// What a pop on `pre` leads to.
    pub open spec fn pop_spec(pre: Self, post: Self, r: UsizePop) -> bool {
        &&& post.capacity() == pre.capacity()
        &&& if pre@.len() == 0 {
            r == UsizePop::Empty && post@ == pre@
        } else {
            &&& post@ == pre@.drop_first()
            &&& r == (UsizePop::Item {
                value: pre@[0],
                wake_elem: pre@.len() > 1,
                wake_room: pre@.len() == pre.capacity(),
            })
        }
    }

    /// An empty queue of `QUEUE_SIZE` slots.
    pub fn new() -> (q: UsizeQ)
        ensures
            q.wf(),
            q@ == Seq::<usize>::empty(),
            q.capacity() == QUEUE_SIZE,
            q.slots() == Seq::new(QUEUE_SIZE as nat, |i: int| 0usize),
            q.in_pos() == 0,
            q.out_pos() == 0,
    {
        let mut buf: Vec<usize> = Vec::with_capacity(QUEUE_SIZE);
        let mut i: usize = 0;
        while i < QUEUE_SIZE
            invariant
                i <= QUEUE_SIZE,
                buf@ == Seq::new(i as nat, |j: int| 0usize),
            decreases QUEUE_SIZE - i,
        {
            buf.push(0);
            i = i + 1;
            assert(buf@ =~= Seq::new(i as nat, |j: int| 0usize));
        }
        let q = UsizeQ {
            count: MyAtomicUsize::new(0),
            in_pos: Position::new(0, QUEUE_SIZE),
            out_pos: Position::new(0, QUEUE_SIZE),
            cap: QUEUE_SIZE,
            buf,
        };
        assert(q@ =~= Seq::<usize>::empty());
        q
    }

    /// One attempt to append `e`.
    pub fn push(&mut self, e: usize) -> (r: UsizePush)
        requires
            old(self).wf(),
        ensures
            final(self).wf(),
            Self::push_spec(*old(self), e, *final(self), r),
    {
        let ghost pre = *self;
        if self.count.get_val() == self.cap {
            return UsizePush::Full;
        }
        let i = self.in_pos.get_and_inc();
        self.buf.set(i, e);
        let c = self.count.fetch_add(1);
        proof {
            let cap = self.cap as int;
            let o = self.out_pos.pos() as int;
            assert forall|k: int| 0 <= k < pre.count@ implies #[trigger] wrap_add(o, k, cap)
                != i by {}
            assert(self@ =~= pre@.push(e));
        }
        UsizePush::Done { wake_room: c + 1 < self.cap, wake_elem: c == 0 }
    }

    /// One attempt to take the oldest value.
    pub fn pop(&mut self) -> (r: UsizePop)
        requires
            old(self).wf(),
        ensures
            final(self).wf(),
            Self::pop_spec(*old(self), *final(self), r),
    {
        let ghost pre = *self;
        if self.count.get_val() == 0 {
            return UsizePop::Empty;
        }
        let i = self.out_pos.get_and_inc();
        let e = self.buf[i];
        let c = self.count.fetch_sub(1);
        proof {
            let cap = self.cap as int;
            let o = pre.out_pos.pos() as int;
            let n = self.out_pos.pos() as int;
            assert forall|k: int| 0 <= k <= self.count@ implies #[trigger] wrap_add(n, k, cap)
                == wrap_add(o, k + 1, cap) by {}
            assert(self@ =~= pre@.drop_first());
        }
        UsizePop::Item { value: e, wake_elem: c > 1, wake_room: c == self.cap }
    }
}

/// A value pushed into an empty queue is the next one popped, and the
/// queue is empty again afterwards.
pub proof fn law_round_trip(
    q0: UsizeQ,
    e: usize,
    q1: UsizeQ,
    r1: UsizePush,
    q2: UsizeQ,
    r2: UsizePop,
)
    requires
        q0.wf(),
        q0@.len() == 0,
        UsizeQ::push_spec(q0, e, q1, r1),
        UsizeQ::pop_spec(q1, q2, r2),
    ensures
        r1 is Done,
        (r2 matches UsizePop::Item { value, .. } && value == e),
        q2@.len() == 0,
{
    assert(q1@ =~= seq![e]);
    assert(q2@ =~= Seq::<usize>::empty());
}

/// First in, first out: a successful push leaves the front in place.
pub proof fn law_push_keeps_front(
    q0: UsizeQ,
    e: usize,
    q1: UsizeQ,
    r1: UsizePush,
    q2: UsizeQ,
    r2: UsizePop,
)
    requires
        q0@.len() > 0,
        r1 is Done,
        UsizeQ::push_spec(q0, e, q1, r1),
        UsizeQ::pop_spec(q1, q2, r2),
    ensures
        (r2 matches UsizePop::Item { value, .. } && value == q0@[0]),
        q2@ == q0@.drop_first().push(e),
{
    assert(q2@ =~= q0@.drop_first().push(e));
}

/// A position on the ring stays on it, and `maxv` steps bring it back.
pub proof fn law_position_stays_on_ring(pos: usize, maxv: usize)
    requires
        pos < maxv,
    ensures
        0 <= position_after(pos, maxv) < maxv,
        position_after(pos, maxv) == (pos + 1) % (maxv as int),
{
    if pos + 1 < maxv {
        vstd::arithmetic::div_mod::lemma_small_mod((pos + 1) as nat, maxv as nat);
    } else {
        vstd::arithmetic::div_mod::lemma_mod_self_0(maxv as int);
    }
}

/// Adding a delta and then taking it away gives back the value, whatever
/// wrapping round happened in between.
pub proof fn law_fetch_add_sub(v: usize, delta: usize)
    ensures
        v.wrapping_add(delta).wrapping_sub(delta) == v,
{
}

/// A compare-and-swap stores the new value exactly when the value it finds
/// is the one it compares with, and otherwise leaves the value alone.
pub proof fn law_compare_and_swap(v: usize, current: usize, new: usize)
    ensures
        v == current ==> cas_result(v, current, new) == new,
        v != current ==> cas_result(v, current, new) == v,
{
}

/// A compare-and-swap done twice does what it does once: the second one
/// finds `new` and leaves it.
pub proof fn law_compare_and_swap_twice(v: usize, current: usize, new: usize)
    ensures
        cas_result(cas_result(v, current, new), current, new) == cas_result(v, current, new),
{
}

/// A well-formed queue never holds more values than its capacity.
pub proof fn law_len_le_capacity(q: UsizeQ)
    requires
        q.wf(),
    ensures
        q@.len() <= q.capacity(),
{
}

/// A successful push wakes another producer exactly when room is left
/// after it, and wakes a consumer exactly when the queue was empty before
/// it.
pub proof fn law_push_wakes(q0: UsizeQ, e: usize, q1: UsizeQ, r: UsizePush)
    requires
        UsizeQ::push_spec(q0, e, q1, r),
    ensures
        (r matches UsizePush::Done { wake_room, wake_elem } ==> wake_room == (q1@.len()
            < q1.capacity()) && wake_elem == (q0@.len() == 0) && q1@.len() == q0@.len() + 1),
{
}

/// A successful pop wakes another consumer exactly when elements are left
/// after it, and wakes a producer exactly when the queue was full before
/// it.
pub proof fn law_pop_wakes(q0: UsizeQ, q1: UsizeQ, r: UsizePop)
    requires
        UsizeQ::pop_spec(q0, q1, r),
    ensures
        (r matches UsizePop::Item { wake_elem, wake_room, .. } ==> wake_elem == (q1@.len() > 0)
            && wake_room == (q0@.len() == q0.capacity()) && q1@.len() + 1 == q0@.len()),
{
}

/// One operation on a queue, with its result.
pub enum Step {
    Push(usize, UsizePush),
    Pop(UsizePop),
}

/// `post` and the result recorded in `s` are what the operation of `s`
/// makes of `pre`.
pub open spec fn step_spec(pre: UsizeQ, s: Step, post: UsizeQ) -> bool {
    match s {
        Step::Push(e, r) => UsizeQ::push_spec(pre, e, post, r),
        Step::Pop(r) => UsizeQ::pop_spec(pre, post, r),
    }
}

/// The value a step put in.
pub open spec fn step_in(s: Step) -> Seq<usize> {
    match s {
        Step::Push(e, UsizePush::Done { .. }) => seq![e],
        _ => Seq::empty(),
    }
}

/// The value a step took out.
pub open spec fn step_out(s: Step) -> Seq<usize> {
    match s {
        Step::Pop(UsizePop::Item { value, .. }) => seq![value],
        _ => Seq::empty(),
    }
}

/// `states[i + 1]` is what `steps[i]` makes of `states[i]`, for each `i`.
pub open spec fn is_run(states: Seq<UsizeQ>, steps: Seq<Step>) -> bool {
    &&& states.len() == steps.len() + 1
    &&& forall|i: int| 0 <= i < steps.len() ==> step_spec(states[i], #[trigger] steps[i], states[i + 1])
}

proof fn lemma_step_fifo(pre: UsizeQ, s: Step, post: UsizeQ)
    requires
        step_spec(pre, s, post),
    ensures
        pre@ + step_in(s) == step_out(s) + post@,
{
    match s {
        Step::Pop(r) => {
            if r is Item {
                assert(pre@ =~= seq![pre@[0]] + pre@.drop_first());
            }
            assert(pre@ + step_in(s) =~= step_out(s) + post@);
        },
        _ => {
            assert(pre@ + step_in(s) =~= step_out(s) + post@);
        },
    }
}

/// Nothing is lost, duplicated or made up: over any run of operations,
/// the first contents followed by every value put in equal every value
/// taken out (in the order taken) followed by the last contents.
pub proof fn law_run_conserves(states: Seq<UsizeQ>, steps: Seq<Step>)
    requires
        is_run(states, steps),
    ensures
        states[0]@ + concat_all(steps.map_values(|s: Step| step_in(s))) == concat_all(
            steps.map_values(|s: Step| step_out(s)),
        ) + states.last()@,
{
    let contents = states.map_values(|q: UsizeQ| q@);
    let ins = steps.map_values(|s: Step| step_in(s));
    let outs = steps.map_values(|s: Step| step_out(s));
    assert forall|i: int| 0 <= i < ins.len() implies #[trigger] contents[i] + ins[i] == outs[i]
        + contents[i + 1] by {
        lemma_step_fifo(states[i], steps[i], states[i + 1]);
    }
    assert(fifo_steps(contents, ins, outs));
    lemma_fifo_steps(contents, ins, outs);
}

} // verus!
