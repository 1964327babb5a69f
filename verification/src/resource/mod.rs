//! Resource pooling.
//!
//! A [`ResourcePool`] keeps up to a fixed number of reusable resources and hands
//! them out again last-in, first-out.

use vstd::prelude::*;
use crate::error::Error;
use crate::process::{spec_update_due, update_due};

verus! {

/// The resource that `acquire` hands out of a pool holding `s`: the last one, if any.
pub open spec fn acquired<T>(s: Seq<T>) -> Option<T> {
    if s.len() == 0 {
        None
    } else {
        Some(s.last())
    }
}

/// The pool contents after `acquire` on a pool holding `s`.
pub open spec fn after_acquire<T>(s: Seq<T>) -> Seq<T> {
    if s.len() == 0 {
        s
    } else {
        s.drop_last()
    }
}

/// Whether `release` succeeds on a pool holding `s` with room for `max_size` resources.
pub open spec fn release_fits<T>(s: Seq<T>, max_size: nat) -> bool {
    s.len() < max_size
}

/// The pool contents after `release(x)` on a pool holding `s` with room for `max_size`.
pub open spec fn after_release<T>(s: Seq<T>, max_size: nat, x: T) -> Seq<T> {
    if release_fits(s, max_size) {
        s.push(x)
    } else {
        s
    }
}

/// A pool of resources that can be acquired and released.
///
/// Resources come out in last-in, first-out order, and the pool never holds more
/// than its maximum size.
pub struct ResourcePool<T> {
    resources: Vec<T>,
    max_size: usize,
}

impl<T> View for ResourcePool<T> {
    type V = Seq<T>;

    /// The pooled resources, oldest first.
    closed spec fn view(&self) -> Seq<T> {
        self.resources@
    }
}

impl<T> ResourcePool<T> {
    /// The maximum number of resources the pool can hold.
    pub closed spec fn capacity(&self) -> nat {
        self.max_size as nat
    }

    #[verifier::type_invariant]
    spec fn within_capacity(&self) -> bool {
        self.resources@.len() <= self.max_size
    }

    /// Creates an empty pool that holds at most `max_size` resources.
    pub fn new(max_size: usize) -> (r: Self)
        ensures
            r@ == Seq::<T>::empty(),
            r.capacity() == max_size,
    {
        ResourcePool { resources: Vec::new(), max_size }
    }

    /// The number of pooled resources, which never exceeds the capacity.
    pub fn len(&self) -> (r: usize)
        ensures
            r == self@.len(),
            r <= self.capacity(),
    {
        proof {
            use_type_invariant(self);
        }
        self.resources.len()
    }

    /// Takes the most recently released resource out of the pool, or `None` when it is empty.
    pub fn acquire(&mut self) -> (r: Option<T>)
        ensures
            r == acquired(old(self)@),
            final(self)@ == after_acquire(old(self)@),
            final(self).capacity() == old(self).capacity(),
    {
        proof {
            use_type_invariant(&*self);
        }
        let mut items = Vec::new();
        std::mem::swap(&mut items, &mut self.resources);
        let r = items.pop();
        self.resources = items;
        r
    }

    /// Like [`ResourcePool::acquire`], reported as a `Result`.
    ///
    /// The pool is held exclusively by the caller, so the acquisition never finds it
    /// busy and the result is always `Ok`.
    pub fn try_acquire(&mut self) -> (r: Result<Option<T>, Error>)
        ensures
            r matches Ok(v) && v == acquired(old(self)@),
            final(self)@ == after_acquire(old(self)@),
            final(self).capacity() == old(self).capacity(),
    {
        Ok(self.acquire())
    }

    /// Returns a resource to the pool; fails, leaving the pool unchanged, when it is full.
    pub fn release(&mut self, resource: T) -> (r: Result<(), Error>)
        ensures
            r is Ok <==> release_fits(old(self)@, old(self).capacity()),
            r matches Err(e) ==> e matches Error::System(m) && m@ == "Resource pool is full"@,
            final(self)@ == after_release(old(self)@, old(self).capacity(), resource),
            final(self).capacity() == old(self).capacity(),
    {
        proof {
            use_type_invariant(&*self);
        }
        if self.resources.len() >= self.max_size {
            return Err(Error::system("Resource pool is full"));
        }
        let mut items = Vec::new();
        std::mem::swap(&mut items, &mut self.resources);
        items.push(resource);
        self.resources = items;
        Ok(())
    }
}

/// Releasing a resource into a pool with room and then acquiring gives that resource
/// back and leaves the pool as it was.
pub proof fn law_release_then_acquire<T>(s: Seq<T>, max_size: nat, x: T)
    requires
        release_fits(s, max_size),
    ensures
        acquired(after_release(s, max_size, x)) == Some(x),
        after_acquire(after_release(s, max_size, x)) == s,
{
    assert(s.push(x).drop_last() =~= s);
}

/// Resources come back out in the reverse of the order they were released.
pub proof fn law_last_in_first_out<T>(s: Seq<T>, max_size: nat, x: T, y: T)
    requires
        s.len() + 2 <= max_size,
    ensures
        acquired(after_release(after_release(s, max_size, x), max_size, y)) == Some(y),
        acquired(after_acquire(after_release(after_release(s, max_size, x), max_size, y)))
            == Some(x),
{
    assert(s.push(x).push(y).drop_last() =~= s.push(x));
}

/// Releasing into a full pool changes nothing.
pub proof fn law_release_full_is_noop<T>(s: Seq<T>, max_size: nat, x: T)
    requires
        !release_fits(s, max_size),
    ensures
        after_release(s, max_size, x) == s,
{
}

/// No sequence of acquisitions and releases takes a pool past its capacity.
pub proof fn law_capacity_kept<T>(s: Seq<T>, max_size: nat, x: T)
    requires
        s.len() <= max_size,
    ensures
        after_release(s, max_size, x).len() <= max_size,
        after_acquire(s).len() <= max_size,
{
}

/// One call on a pool: an acquisition (`acquire` or `try_acquire`) or a release.
pub enum PoolCall<T> {
    /// Takes a resource out.
    Acquire,
    /// Returns a resource.
    Release(T),
}

/// The pool contents after one call on a pool holding `s` with room for `max_size`.
pub open spec fn after_call<T>(s: Seq<T>, max_size: nat, c: PoolCall<T>) -> Seq<T> {
    match c {
        PoolCall::Acquire => after_acquire(s),
        PoolCall::Release(x) => after_release(s, max_size, x),
    }
}

/// The pool contents after a run of calls, in order.
pub open spec fn after_calls<T>(s: Seq<T>, max_size: nat, calls: Seq<PoolCall<T>>) -> Seq<T>
    decreases calls.len(),
{
    if calls.len() == 0 {
        s
    } else {
        after_call(after_calls(s, max_size, calls.drop_last()), max_size, calls.last())
    }
}

/// The pool contents after releasing each of `xs` in order.
pub open spec fn after_releases<T>(s: Seq<T>, max_size: nat, xs: Seq<T>) -> Seq<T>
    decreases xs.len(),
{
    if xs.len() == 0 {
        s
    } else {
        after_release(after_releases(s, max_size, xs.drop_last()), max_size, xs.last())
    }
}

/// After any run of acquisitions and releases, a pool that held at most its capacity
/// still holds at most its capacity.
pub proof fn law_capacity_kept_over_runs<T>(s: Seq<T>, max_size: nat, calls: Seq<PoolCall<T>>)
    requires
        s.len() <= max_size,
    ensures
        after_calls(s, max_size, calls).len() <= max_size,
    decreases calls.len(),
{
    if calls.len() > 0 {
        law_capacity_kept_over_runs(s, max_size, calls.drop_last());
    }
}

/// Into an empty pool of capacity `n`, each of `n` releases succeeds, the pool then
/// holds the released resources in order, and one more release fails.
pub proof fn law_fills_to_capacity<T>(xs: Seq<T>, y: T)
    ensures
        forall|i: int|
            0 <= i < xs.len() ==> #[trigger] release_fits(
                after_releases(Seq::<T>::empty(), xs.len(), xs.take(i)),
                xs.len(),
            ),
        after_releases(Seq::<T>::empty(), xs.len(), xs) == xs,
        !release_fits(after_releases(Seq::<T>::empty(), xs.len(), xs), xs.len()),
{
    assert forall|i: int| 0 <= i <= xs.len() implies #[trigger] after_releases(
        Seq::<T>::empty(),
        xs.len(),
        xs.take(i),
    ) == xs.take(i) by {
        lemma_releases_prefix(xs, i);
    }
    assert(xs.take(xs.len() as int) =~= xs);
}

proof fn lemma_releases_prefix<T>(xs: Seq<T>, i: int)
    requires
        0 <= i <= xs.len(),
    ensures
        after_releases(Seq::<T>::empty(), xs.len(), xs.take(i)) == xs.take(i),
    decreases i,
{
    if i > 0 {
        lemma_releases_prefix(xs, i - 1);
        assert(xs.take(i).drop_last() =~= xs.take(i - 1));
        assert(xs.take(i - 1).push(xs[i - 1]) =~= xs.take(i));
    }
}

} // verus!

verus! {

/// What the background loop of a resource monitor does on one turn.
#[derive(Debug, Clone, Copy, PartialEq, Eq, Structural)]
pub enum MonitorAction {
    /// Leave the loop.
    Stop,
    /// Collect the resource figures and send an update.
    Collect,
    /// Yield and sleep briefly before the next turn.
    Wait,
}

/// The decision of one turn of the monitoring loop: stop when a stop was requested,
/// collect when the update interval has passed since the last update, else wait.
pub fn monitor_turn(stop_requested: bool, interval_elapsed: bool) -> (r: MonitorAction)
    ensures
        r == (if stop_requested {
            MonitorAction::Stop
        } else if interval_elapsed {
            MonitorAction::Collect
        } else {
            MonitorAction::Wait
        }),
{
    if stop_requested {
        MonitorAction::Stop
    } else if interval_elapsed {
        MonitorAction::Collect
    } else {
        MonitorAction::Wait
    }
}

/// The decision of one turn of a resource monitor's background loop, the last update
/// having been at `last_update_ns` and the clock reading `now_ns` (nanoseconds from one
/// origin): stop when a stop was requested, collect when the update interval has passed
/// since the last update, else wait.
pub fn resource_monitor_step(stop_requested: bool, last_update_ns: u128, now_ns: u128, interval_ns: u128) -> (r:
    MonitorAction)
    ensures
        stop_requested ==> r == MonitorAction::Stop,
        !stop_requested ==> (r == MonitorAction::Collect <==> spec_update_due(
            last_update_ns,
            now_ns,
            interval_ns,
        )),
        !stop_requested && !spec_update_due(last_update_ns, now_ns, interval_ns) ==> r
            == MonitorAction::Wait,
{
    monitor_turn(stop_requested, update_due(last_update_ns, now_ns, interval_ns))
}

} // verus!

verus! {

/// The resource that a resource manager holding `s` hands out: the oldest, if any.
pub open spec fn oldest<T>(s: Seq<T>) -> Option<T> {
    if s.len() == 0 {
        None
    } else {
        Some(s[0])
    }
}

/// The queue of a resource manager after it hands out a resource from `s`.
pub open spec fn after_take_oldest<T>(s: Seq<T>) -> Seq<T> {
    if s.len() == 0 {
        s
    } else {
        s.drop_first()
    }
}

/// Takes the oldest queued resource of a resource manager, or `None` when there is none.
pub fn take_oldest_resource<T>(queue: &mut Vec<T>) -> (r: Option<T>)
    ensures
        r == oldest(old(queue)@),
        final(queue)@ == after_take_oldest(old(queue)@),
{
    if queue.len() == 0 {
        None
    } else {
        Some(queue.remove(0))
    }
}

/// Queues a resource returned to a resource manager that holds at most `max_size`;
/// fails with [`Error::ResourceLimitExceeded`], leaving the queue unchanged, when it
/// is full.
pub fn return_resource<T>(queue: &mut Vec<T>, max_size: usize, resource: T) -> (r: Result<(), Error>)
    ensures
        r is Ok <==> release_fits(old(queue)@, max_size as nat),
        r matches Err(e) ==> e is ResourceLimitExceeded,
        final(queue)@ == after_release(old(queue)@, max_size as nat, resource),
{
    if queue.len() >= max_size {
        Err(Error::ResourceLimitExceeded)
    } else {
        queue.push(resource);
        Ok(())
    }
}

/// A resource manager hands resources out in the order they were returned: a returned
/// resource comes out first only when nothing was queued before it, and handing out
/// the oldest resource before or after a return leaves the same queue.
pub proof fn law_first_in_first_out<T>(s: Seq<T>, max_size: nat, x: T)
    requires
        release_fits(s, max_size),
    ensures
        s.len() == 0 ==> oldest(after_release(s, max_size, x)) == Some(x),
        s.len() > 0 ==> oldest(after_release(s, max_size, x)) == oldest(s),
        s.len() > 0 ==> after_take_oldest(after_release(s, max_size, x)) == after_release(
            after_take_oldest(s),
            max_size,
            x,
        ),
{
    if s.len() > 0 {
        assert(s.push(x).drop_first() =~= s.drop_first().push(x));
    }
}

} // verus!

verus! {

/// The expiry time of a cache entry stored at `now_ns` to live `ttl_ns` (nanoseconds
/// from one origin).
pub fn cache_expiry(now_ns: u128, ttl_ns: u128) -> (r: u128)
    requires
        now_ns + ttl_ns <= u128::MAX,
    ensures
        r == now_ns + ttl_ns,
{
    now_ns + ttl_ns
}

/// Whether a cache entry that expires at `expires_at_ns` has expired when the clock
/// reads `now_ns`: the clock is past its expiry time.
pub fn cache_entry_expired(expires_at_ns: u128, now_ns: u128) -> (r: bool)
    ensures
        r == (now_ns > expires_at_ns),
{
    now_ns > expires_at_ns
}

} // verus!
