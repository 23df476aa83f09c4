//! Counters and one-shot events that threads wait on.
//!
//! Each type holds the state that its lock protects. A step that would have
//! to block says so; the caller blocks on its condition variable, and the
//! steps say when to wake others.
use vstd::prelude::*;

verus! {

/// The count after a take from `count`, and whether the taker waits.
pub open spec fn after_aquire(count: isize) -> (isize, bool) {
    ((count - 1) as isize, count - 1 < 0)
}

/// The count after a give-back to `count`, and whether a waiter is woken.
pub open spec fn after_release(count: isize) -> (isize, bool) {
    ((count + 1) as isize, count + 1 <= 0)
}

/// A resource counter: `Aquire` takes one resource, `Release` gives one
/// back. Below zero, the count tells how many takers wait.
pub struct RC1 {
    count: isize,
}

impl RC1 {
    /// The number of free resources; below zero, the number of waiters.
    pub closed spec fn count(&self) -> isize {
        self.count
    }

    /// A counter without resources.
    pub fn new() -> (rc: RC1)
        ensures
            rc.count() == 0,
    {
        RC1 { count: 0 }
    }

    /// A counter with `count` resources.
    pub fn new_count(count: isize) -> (rc: RC1)
        ensures
            rc.count() == count,
    {
        RC1 { count }
    }

    /// Takes a resource; true when none was free, so that the caller waits
    /// (once) for a release.
    #[allow(non_snake_case)]
    pub fn Aquire(&mut self) -> (wait: bool)
        requires
            old(self).count() > isize::MIN,
        ensures
            (final(self).count(), wait) == after_aquire(old(self).count()),
    {
        self.count = self.count - 1;
        self.count < 0
    }

    /// Gives a resource back; true when a taker waits, so that the caller
    /// wakes one.
    #[allow(non_snake_case)]
    pub fn Release(&mut self) -> (wake: bool)
        requires
            old(self).count() < isize::MAX,
        ensures
            (final(self).count(), wake) == after_release(old(self).count()),
    {
        self.count = self.count + 1;
        self.count <= 0
    }
}

/// A resource counter: `Aquire` takes one resource, `Release` gives one
/// back. Below zero, the count tells how many takers wait.
pub struct RC2 {
    count: isize,
}

impl RC2 {
    /// The number of free resources; below zero, the number of waiters.
    pub closed spec fn count(&self) -> isize {
        self.count
    }

    /// A counter without resources.
    pub fn new() -> (rc: RC2)
        ensures
            rc.count() == 0,
    {
        RC2 { count: 0 }
    }

    /// A counter with `count` resources.
    pub fn new_count(count: isize) -> (rc: RC2)
        ensures
            rc.count() == count,
    {
        RC2 { count }
    }

    /// Takes a resource; true when none was free, so that the caller waits
    /// (once) for a release.
    #[allow(non_snake_case)]
    pub fn Aquire(&mut self) -> (wait: bool)
        requires
            old(self).count() > isize::MIN,
        ensures
            (final(self).count(), wait) == after_aquire(old(self).count()),
    {
        self.count = self.count - 1;
        self.count < 0
    }

    /// Gives a resource back; true when a taker waits, so that the caller
    /// wakes one.
    #[allow(non_snake_case)]
    pub fn Release(&mut self) -> (wake: bool)
        requires
            old(self).count() < isize::MAX,
        ensures
            (final(self).count(), wake) == after_release(old(self).count()),
    {
        self.count = self.count + 1;
        self.count <= 0
    }
}

/// A resource counter: `Aquire` takes one resource, `Release` gives one
/// back. Below zero, the count tells how many takers wait.
pub struct RC3 {
    count: isize,
}

impl RC3 {
    /// The number of free resources; below zero, the number of waiters.
    pub closed spec fn count(&self) -> isize {
        self.count
    }

    /// A counter without resources.
    pub fn new() -> (rc: RC3)
        ensures
            rc.count() == 0,
    {
        RC3 { count: 0 }
    }

    /// A counter with `count` resources.
    pub fn new_count(count: isize) -> (rc: RC3)
        ensures
            rc.count() == count,
    {
        RC3 { count }
    }

    /// Takes a resource; true when none was free, so that the caller waits
    /// (once) for a release.
    #[allow(non_snake_case)]
    pub fn Aquire(&mut self) -> (wait: bool)
        requires
            old(self).count() > isize::MIN,
        ensures
            (final(self).count(), wait) == after_aquire(old(self).count()),
    {
        self.count = self.count - 1;
        self.count < 0
    }

    /// Gives a resource back; true when a taker waits, so that the caller
    /// wakes one.
    #[allow(non_snake_case)]
    pub fn Release(&mut self) -> (wake: bool)
        requires
            old(self).count() < isize::MAX,
        ensures
            (final(self).count(), wake) == after_release(old(self).count()),
    {
        self.count = self.count + 1;
        self.count <= 0
    }
}

/// A resource counter: `Aquire` takes one resource, `Release` gives one
/// back. Below zero, the count tells how many takers wait.
pub struct RC4 {
    count: isize,
}

impl RC4 {
    /// The number of free resources; below zero, the number of waiters.
    pub closed spec fn count(&self) -> isize {
        self.count
    }

    /// A counter without resources.
    pub fn new() -> (rc: RC4)
        ensures
            rc.count() == 0,
    {
        RC4 { count: 0 }
    }

    /// A counter with `count` resources.
    pub fn new_count(count: isize) -> (rc: RC4)
        ensures
            rc.count() == count,
    {
        RC4 { count }
    }

    /// Takes a resource; true when none was free, so that the caller waits
    /// (once) for a release.
    #[allow(non_snake_case)]
    pub fn Aquire(&mut self) -> (wait: bool)
        requires
            old(self).count() > isize::MIN,
        ensures
            (final(self).count(), wait) == after_aquire(old(self).count()),
    {
        self.count = self.count - 1;
        self.count < 0
    }

    /// Gives a resource back; true when a taker waits, so that the caller
    /// wakes one.
    #[allow(non_snake_case)]
    pub fn Release(&mut self) -> (wake: bool)
        requires
            old(self).count() < isize::MAX,
        ensures
            (final(self).count(), wake) == after_release(old(self).count()),
    {
        self.count = self.count + 1;
        self.count <= 0
    }
}

/// An event that carries a value: `set_event_value` stores it, and the
/// next `wait` takes it. A value set while nobody waits stays until taken.
pub struct MyAutoEvent<T> {
    signal: Option<T>,
    l: usize,
}

impl<T> MyAutoEvent<T> {
    /// The value waiting to be taken.
    pub closed spec fn signal(&self) -> Option<T> {
        self.signal
    }

    /// The number of callers inside `wait`.
    pub closed spec fn waiters(&self) -> nat {
        self.l as nat
    }

    /// What setting `value` on `pre` leads to.
    pub open spec fn set_spec(pre: Self, value: T, post: Self, wake_all: bool) -> bool {
        &&& post.signal() == Some(value)
        &&& post.waiters() == pre.waiters()
        &&& wake_all == (pre.waiters() > 0)
    }

    /// What a wait entered on `pre` leads to.
    pub open spec fn wait_spec(pre: Self, post: Self, r: Option<T>) -> bool {
        &&& r == pre.signal()
        &&& post.signal() is None
        &&& r is Some ==> post.waiters() == pre.waiters()
        &&& r is None ==> post.waiters() == pre.waiters() + 1
    }

    /// What a waiter's retry on `pre` leads to.
    pub open spec fn wait_again_spec(pre: Self, post: Self, r: Option<T>) -> bool {
        &&& r == pre.signal()
        &&& post.signal() is None
        &&& r is Some ==> post.waiters() == pre.waiters() - 1
        &&& r is None ==> post.waiters() == pre.waiters()
    }

    /// An event without a value.
    pub fn new() -> (ev: Self)
        ensures
            ev.signal() is None,
            ev.waiters() == 0,
    {
        MyAutoEvent { signal: None, l: 0 }
    }

    /// An event that holds `v`.
    pub fn from_signal_value(v: T) -> (ev: Self)
        ensures
            ev.signal() == Some(v),
            ev.waiters() == 0,
    {
        MyAutoEvent { signal: Some(v), l: 0 }
    }

    /// Stores `value`, replacing any value not yet taken; true when a
    /// caller waits, so that all waiters are woken.
    pub fn set_event_value(&mut self, value: T) -> (wake_all: bool)
        ensures
            Self::set_spec(*old(self), value, *final(self), wake_all),
    {
        self.signal = Some(value);
        self.l > 0
    }

    /// Enters a wait and takes the value if one is there. `None`: the
    /// caller is now counted as a waiter, blocks until woken, and goes on
    /// with `wait_again`.
    pub fn wait(&mut self) -> (r: Option<T>)
        requires
            old(self).waiters() < usize::MAX,
        ensures
            Self::wait_spec(*old(self), *final(self), r),
    {
        self.l = self.l + 1;
        self.wait_again()
    }

    /// Takes the value, for a caller that waits already. `None`: it goes on
    /// waiting.
    pub fn wait_again(&mut self) -> (r: Option<T>)
        requires
            old(self).waiters() > 0,
        ensures
            Self::wait_again_spec(*old(self), *final(self), r),
    {
        let mut sig: Option<T> = None;
        std::mem::swap(&mut sig, &mut self.signal);
        if sig.is_some() {
            self.l = self.l - 1;
        }
        sig
    }
}

/// A take followed by a give-back leaves the counter as it was, and the
/// give-back wakes a waiter exactly when the take had to wait.
pub proof fn law_aquire_release(count: isize)
    requires
        count > isize::MIN,
    ensures
        after_release(after_aquire(count).0).0 == count,
        after_release(after_aquire(count).0).1 == after_aquire(count).1,
{
}

/// A give-back followed by a take leaves the counter as it was, and the
/// take waits only when takers were waiting before the give-back.
pub proof fn law_release_aquire(count: isize)
    requires
        count < isize::MAX,
    ensures
        after_aquire(after_release(count).0).0 == count,
        after_aquire(after_release(count).0).1 == (count < 0),
{
}

/// What a waiter gets back is what was set last: after a set, a wait takes
/// that value, and a second wait finds nothing.
pub proof fn law_set_then_wait<T>(
    e0: MyAutoEvent<T>,
    v: T,
    e1: MyAutoEvent<T>,
    w: bool,
    e2: MyAutoEvent<T>,
    r2: Option<T>,
    e3: MyAutoEvent<T>,
    r3: Option<T>,
)
    requires
        MyAutoEvent::set_spec(e0, v, e1, w),
        MyAutoEvent::wait_spec(e1, e2, r2),
        MyAutoEvent::wait_spec(e2, e3, r3),
    ensures
        r2 == Some(v),
        r3 is None,
        e3.waiters() == e0.waiters() + 1,
{
}

/// A take waits exactly when no resource was free before it, and a
/// give-back wakes exactly when takers were waiting before it, however many.
pub proof fn law_counter_wakes(count: isize)
    ensures
        count > isize::MIN ==> after_aquire(count).1 == (count <= 0),
        count > isize::MIN ==> after_aquire(count).0 == count - 1,
        count < isize::MAX ==> after_release(count).1 == (count < 0),
        count < isize::MAX ==> after_release(count).0 == count + 1,
{
}

/// Setting a value wakes the waiters whenever anyone waits, however many.
pub proof fn law_set_wakes_any_waiter<T>(e0: MyAutoEvent<T>, v: T, e1: MyAutoEvent<T>, w: bool)
    requires
        MyAutoEvent::set_spec(e0, v, e1, w),
    ensures
        w <==> e0.waiters() >= 1,
        e1.waiters() == e0.waiters(),
        e1.signal() == Some(v),
{
}

/// Callers that found no value are all woken by the next set: after two
/// waits that found nothing, a set wakes, and each of them retrying finds
/// the value at most once between them.
pub proof fn law_waiters_are_woken<T>(
    e0: MyAutoEvent<T>,
    e1: MyAutoEvent<T>,
    e2: MyAutoEvent<T>,
    v: T,
    e3: MyAutoEvent<T>,
    w: bool,
    e4: MyAutoEvent<T>,
    r4: Option<T>,
    e5: MyAutoEvent<T>,
    r5: Option<T>,
)
    requires
        MyAutoEvent::wait_spec(e0, e1, None),
        MyAutoEvent::wait_spec(e1, e2, None),
        MyAutoEvent::set_spec(e2, v, e3, w),
        MyAutoEvent::wait_again_spec(e3, e4, r4),
        MyAutoEvent::wait_again_spec(e4, e5, r5),
    ensures
        e2.waiters() == e0.waiters() + 2,
        w,
        r4 == Some(v),
        r5 is None,
        e5.waiters() == e0.waiters() + 1,
{
}

} // verus!
