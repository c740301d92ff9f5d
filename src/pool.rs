//! A bounded pool of initialized plugin instances for one plugin.
//!
//! The pool decides; it does not block. A caller that asks for an instance
//! gets an idle one back, or leave to create a fresh one, or is queued. A
//! queued caller is woken by a later `release` (it is handed the instance)
//! or `discard` (it may create a fresh one), or it gives up with `cancel`,
//! which is also how a bounded wait ends.
use vstd::prelude::*;

verus! {

/// What an acquisition gives the caller.
#[derive(Debug)]
pub enum Acquire<T> {
    /// An idle instance, initialized before, to be reused as it is.
    Reused(T),
    /// Leave to create and initialize a fresh instance; it already counts
    /// as in use.
    Create,
    /// The pool is at capacity: the caller was queued and must wait.
    Wait,
}

/// Where a released instance went.
#[derive(Debug)]
pub enum Release<T> {
    /// Back to the idle instances.
    Stored,
    /// Straight to the longest-waiting caller, whose id is given.
    HandedTo(u64, T),
}

/// Why an acquisition gave up.
#[derive(Clone, Copy, Debug, PartialEq, Eq, Structural)]
pub enum PoolError {
    /// The bounded wait ran out before an instance came free; asking again
    /// later may succeed.
    ExhaustionTimeout,
}

/// The pool's state as a mathematical value.
pub struct PoolView<T> {
    /// Most instances that may be live at once.
    pub capacity: nat,
    /// Live instances that nobody holds, most recently released last.
    pub idle: Seq<T>,
    /// Instances held by callers, and fresh ones being created.
    pub in_use: nat,
    /// Callers waiting for an instance, longest-waiting first.
    pub waiting: Seq<u64>,
}

/// The pool's invariant: no more live instances than the capacity, and
/// nobody waits while an instance could be had.
pub open spec fn pool_wf<T>(v: PoolView<T>) -> bool {
    &&& v.idle.len() + v.in_use <= v.capacity
    &&& v.waiting.len() > 0 ==> v.idle.len() == 0 && v.in_use == v.capacity
}

/// Instances that may still be handed out without anyone waiting: the idle
/// ones and those that may yet be created.
pub open spec fn available<T>(v: PoolView<T>) -> nat {
    (v.capacity - v.in_use) as nat
}

/// An empty pool of the given capacity.
pub open spec fn empty_pool<T>(capacity: nat) -> PoolView<T> {
    PoolView { capacity, idle: Seq::empty(), in_use: 0, waiting: Seq::empty() }
}

/// An acquisition by the caller `waiter`.
pub open spec fn acquire_step<T>(v: PoolView<T>, waiter: u64) -> (PoolView<T>, Acquire<T>) {
    if v.idle.len() > 0 {
        (
            PoolView { idle: v.idle.drop_last(), in_use: v.in_use + 1, ..v },
            Acquire::Reused(v.idle.last()),
        )
    } else if v.in_use < v.capacity {
        (PoolView { in_use: v.in_use + 1, ..v }, Acquire::Create)
    } else {
        (PoolView { waiting: v.waiting.push(waiter), ..v }, Acquire::Wait)
    }
}

/// The release of a held instance.
pub open spec fn release_step<T>(v: PoolView<T>, instance: T) -> (PoolView<T>, Release<T>) {
    if v.waiting.len() > 0 {
        (
            PoolView { waiting: v.waiting.drop_first(), ..v },
            Release::HandedTo(v.waiting[0], instance),
        )
    } else {
        (
            PoolView { idle: v.idle.push(instance), in_use: (v.in_use - 1) as nat, ..v },
            Release::Stored,
        )
    }
}

/// A held instance that failed (it could not be initialized, or it
/// crashed) is dropped. Its place goes to the longest-waiting caller, who
/// may create a fresh instance; the pool is not poisoned.
pub open spec fn discard_step<T>(v: PoolView<T>) -> (PoolView<T>, Option<u64>) {
    if v.waiting.len() > 0 {
        (PoolView { waiting: v.waiting.drop_first(), ..v }, Some(v.waiting[0]))
    } else {
        (PoolView { in_use: (v.in_use - 1) as nat, ..v }, None)
    }
}

/// A waiting caller gives up: its first place in the queue is removed.
pub open spec fn cancel_step<T>(v: PoolView<T>, waiter: u64) -> PoolView<T> {
    PoolView { waiting: v.waiting.remove_value(waiter), ..v }
}

/// One operation on a pool, as a mathematical value.
pub enum PoolOp<T> {
    Acquire(u64),
    Release(T),
    Discard,
    Cancel(u64),
}

/// The state after one operation. A release or discard while nothing is in
/// use is refused by the pool and changes nothing.
pub open spec fn op_step<T>(v: PoolView<T>, op: PoolOp<T>) -> PoolView<T> {
    match op {
        PoolOp::Acquire(w) => acquire_step(v, w).0,
        PoolOp::Release(i) => if v.in_use > 0 {
            release_step(v, i).0
        } else {
            v
        },
        PoolOp::Discard => if v.in_use > 0 {
            discard_step(v).0
        } else {
            v
        },
        PoolOp::Cancel(w) => cancel_step(v, w),
    }
}

/// The state after a run of operations, first to last.
pub open spec fn run_ops<T>(v: PoolView<T>, ops: Seq<PoolOp<T>>) -> PoolView<T>
    decreases ops.len(),
{
    if ops.len() == 0 {
        v
    } else {
        op_step(run_ops(v, ops.drop_last()), ops.last())
    }
}

/// The state after acquisitions by the callers `ids`, in order.
pub open spec fn acquire_all<T>(v: PoolView<T>, ids: Seq<u64>) -> PoolView<T>
    decreases ids.len(),
{
    if ids.len() == 0 {
        v
    } else {
        acquire_step(acquire_all(v, ids.drop_last()), ids.last()).0
    }
}

proof fn lemma_remove_value_len<A>(s: Seq<A>, x: A)
    ensures
        s.remove_value(x).len() <= s.len(),
        s.contains(x) ==> s.remove_value(x).len() + 1 == s.len(),
        !s.contains(x) ==> s.remove_value(x) == s,
{
    s.index_of_first_ensures(x);
}

/// Every operation keeps the pool's invariant, so at no time are more
/// instances in use than the capacity allows.
pub proof fn lemma_op_keeps_capacity_bound<T>(v: PoolView<T>, op: PoolOp<T>)
    requires
        pool_wf(v),
    ensures
        pool_wf(op_step(v, op)),
        op_step(v, op).in_use <= op_step(v, op).capacity,
        op_step(v, op).capacity == v.capacity,
{
    if let PoolOp::Cancel(w) = op {
        lemma_remove_value_len(v.waiting, w);
    }
}

/// Whatever operations are run on a pool of capacity N, at most N
/// instances are in use, or live at all, after each of them.
pub proof fn lemma_capacity_never_exceeded<T>(v: PoolView<T>, ops: Seq<PoolOp<T>>)
    requires
        pool_wf(v),
    ensures
        pool_wf(run_ops(v, ops)),
        run_ops(v, ops).capacity == v.capacity,
        run_ops(v, ops).in_use <= v.capacity,
        run_ops(v, ops).in_use + run_ops(v, ops).idle.len() <= v.capacity,
    decreases ops.len(),
{
    if ops.len() > 0 {
        lemma_capacity_never_exceeded(v, ops.drop_last());
        lemma_op_keeps_capacity_bound(run_ops(v, ops.drop_last()), ops.last());
    }
}

/// On a fresh pool of capacity N, of M callers asking in turn the first
/// min(M, N) are served and the rest wait, in the order they asked.
pub proof fn lemma_acquirers_beyond_capacity_wait<T>(capacity: nat, ids: Seq<u64>)
    ensures
        acquire_all(empty_pool::<T>(capacity), ids).in_use == if ids.len() < capacity {
            ids.len()
        } else {
            capacity
        },
        acquire_all(empty_pool::<T>(capacity), ids).capacity == capacity,
        acquire_all(empty_pool::<T>(capacity), ids).idle.len() == 0,
        ids.len() >= capacity ==> acquire_all(empty_pool::<T>(capacity), ids).waiting
            == ids.subrange(capacity as int, ids.len() as int),
        ids.len() < capacity ==> acquire_all(empty_pool::<T>(capacity), ids).waiting.len() == 0,
    decreases ids.len(),
{
    if ids.len() > 0 {
        let prev = ids.drop_last();
        lemma_acquirers_beyond_capacity_wait::<T>(capacity, prev);
        if ids.len() > capacity {
            assert(ids.subrange(capacity as int, ids.len() as int) =~= prev.subrange(
                capacity as int,
                prev.len() as int,
            ).push(ids.last()));
        } else if ids.len() == capacity {
            assert(ids.subrange(capacity as int, ids.len() as int) =~= Seq::<u64>::empty());
        }
    }
    if ids.len() == 0 && capacity == 0 {
        assert(ids.subrange(capacity as int, ids.len() as int) =~= Seq::<u64>::empty());
    }
}

/// A caller that asks while all N instances are held is queued and gets
/// nothing; the next release hands an instance to the longest-waiting
/// caller, and the number in use stays N throughout.
pub proof fn lemma_full_pool_blocks_until_release<T>(v: PoolView<T>, waiter: u64, instance: T)
    requires
        pool_wf(v),
        v.in_use == v.capacity,
        v.capacity > 0,
    ensures
        acquire_step(v, waiter).1 is Wait,
        acquire_step(v, waiter).0.in_use == v.capacity,
        ({
            let queued = acquire_step(v, waiter).0;
            &&& release_step(queued, instance).1 == Release::HandedTo(queued.waiting[0], instance)
            &&& release_step(queued, instance).0.in_use == v.capacity
            &&& v.waiting.len() == 0 ==> queued.waiting[0] == waiter
        }),
{
}

/// Cancelling a wait takes nothing from the pool: the capacity, the
/// instances in use, the idle ones, and so what is available stay as they
/// were.
pub proof fn lemma_cancel_keeps_available<T>(v: PoolView<T>, waiter: u64)
    requires
        pool_wf(v),
    ensures
        pool_wf(cancel_step(v, waiter)),
        cancel_step(v, waiter).capacity == v.capacity,
        cancel_step(v, waiter).in_use == v.in_use,
        cancel_step(v, waiter).idle == v.idle,
        available(cancel_step(v, waiter)) == available(v),
{
    lemma_remove_value_len(v.waiting, waiter);
}

/// An acquisition that had to wait and was then aborted leaves the pool
/// exactly as it was before the caller asked.
pub proof fn lemma_aborted_acquisition_restores_pool<T>(v: PoolView<T>, waiter: u64)
    requires
        pool_wf(v),
        !v.waiting.contains(waiter),
        acquire_step(v, waiter).1 is Wait,
    ensures
        cancel_step(acquire_step(v, waiter).0, waiter) == v,
{
    let q = v.waiting.push(waiter);
    q.index_of_first_ensures(waiter);
    match q.index_of_first(waiter) {
        Some(i) => {
            if i < v.waiting.len() {
                assert(v.waiting[i] == waiter);
            }
            assert(q.remove(i) =~= v.waiting);
        },
        None => {
            assert(q[v.waiting.len() as int] == waiter);
        },
    }
}

/// A bounded pool of instances of one plugin.
pub struct PluginPool<T> {
    capacity: usize,
    idle: Vec<T>,
    in_use: usize,
    waiting: Vec<u64>,
}

impl<T> View for PluginPool<T> {
    type V = PoolView<T>;

    closed spec fn view(&self) -> PoolView<T> {
        PoolView {
            capacity: self.capacity as nat,
            idle: self.idle@,
            in_use: self.in_use as nat,
            waiting: self.waiting@,
        }
    }
}

impl<T> PluginPool<T> {
    pub open spec fn wf(&self) -> bool {
        pool_wf(self@)
    }

    /// An empty pool that lets at most `capacity` instances live at once.
    pub fn new(capacity: usize) -> (r: PluginPool<T>)
        ensures
            r.wf(),
            r@ == empty_pool::<T>(capacity as nat),
    {
        PluginPool { capacity, idle: Vec::new(), in_use: 0, waiting: Vec::new() }
    }

    /// Asks for an instance on behalf of the caller `waiter`.
    pub fn acquire(&mut self, waiter: u64) -> (r: Acquire<T>)
        requires
            old(self).wf(),
        ensures
            final(self).wf(),
            (final(self)@, r) == acquire_step(old(self)@, waiter),
    {
        if self.idle.len() > 0 {
            let instance = self.idle.pop().unwrap();
            self.in_use = self.in_use + 1;
            Acquire::Reused(instance)
        } else if self.in_use < self.capacity {
            self.in_use = self.in_use + 1;
            Acquire::Create
        } else {
            self.waiting.push(waiter);
            Acquire::Wait
        }
    }

    /// Gives back a held instance.
    pub fn release(&mut self, instance: T) -> (r: Release<T>)
        requires
            old(self).wf(),
            old(self)@.in_use > 0,
        ensures
            final(self).wf(),
            (final(self)@, r) == release_step(old(self)@, instance),
    {
        if self.waiting.len() > 0 {
            let w = self.waiting.remove(0);
            Release::HandedTo(w, instance)
        } else {
            self.idle.push(instance);
            self.in_use = self.in_use - 1;
            Release::Stored
        }
    }

    /// Drops a held instance that failed; returns the caller that may now
    /// create a fresh one, if any was waiting.
    pub fn discard(&mut self) -> (r: Option<u64>)
        requires
            old(self).wf(),
            old(self)@.in_use > 0,
        ensures
            final(self).wf(),
            (final(self)@, r) == discard_step(old(self)@),
    {
        if self.waiting.len() > 0 {
            let w = self.waiting.remove(0);
            Some(w)
        } else {
            self.in_use = self.in_use - 1;
            None
        }
    }

    /// Takes the caller `waiter` out of the queue; returns whether it was
    /// waiting.
    pub fn cancel(&mut self, waiter: u64) -> (r: bool)
        requires
            old(self).wf(),
        ensures
            final(self).wf(),
            final(self)@ == cancel_step(old(self)@, waiter),
            r == old(self)@.waiting.contains(waiter),
    {
        let mut i: usize = 0;
        while i < self.waiting.len()
            invariant
                self@ == old(self)@,
                pool_wf(self@),
                0 <= i <= self.waiting.len(),
                forall|j: int| 0 <= j < i ==> self.waiting@[j] != waiter,
            decreases self.waiting.len() - i,
        {
            if self.waiting[i] == waiter {
                let ghost before = self.waiting@;
                proof {
                    before.index_of_first_ensures(waiter);
                    match before.index_of_first(waiter) {
                        Some(k) => {
                            assert(k == i as int);
                        },
                        None => {
                            assert(before.contains(waiter)) by {
                                assert(before[i as int] == waiter);
                            }
                        },
                    }
                }
                self.waiting.remove(i);
                return true;
            }
            i = i + 1;
        }
        proof {
            self.waiting@.index_of_first_ensures(waiter);
            assert(!self.waiting@.contains(waiter));
        }
        false
    }

    /// Ends the bounded wait of the caller `waiter`. If it is still queued
    /// it leaves the queue, taking no capacity with it, and the wait fails
    /// with a timeout; if it was served meanwhile, it holds an instance.
    pub fn wait_timed_out(&mut self, waiter: u64) -> (r: Result<(), PoolError>)
        requires
            old(self).wf(),
        ensures
            final(self).wf(),
            final(self)@ == cancel_step(old(self)@, waiter),
            r is Err <==> old(self)@.waiting.contains(waiter),
            r matches Err(e) ==> e == PoolError::ExhaustionTimeout,
    {
        if self.cancel(waiter) {
            Err(PoolError::ExhaustionTimeout)
        } else {
            Ok(())
        }
    }

    pub fn capacity(&self) -> (r: usize)
        ensures
            r == self@.capacity,
    {
        self.capacity
    }

    pub fn in_use(&self) -> (r: usize)
        ensures
            r == self@.in_use,
    {
        self.in_use
    }

    pub fn idle_count(&self) -> (r: usize)
        ensures
            r == self@.idle.len(),
    {
        self.idle.len()
    }

    pub fn waiting_count(&self) -> (r: usize)
        ensures
            r == self@.waiting.len(),
    {
        self.waiting.len()
    }

    /// Instances that may still be handed out without anyone waiting.
    pub fn available(&self) -> (r: usize)
        requires
            self.wf(),
        ensures
            r == available(self@),
    {
        self.capacity - self.in_use
    }
}


/// One bounded pool per resolved plugin, in the resolver's order; the
/// handlers that format share this one value.
pub struct PluginPools<T> {
    pools: Vec<PluginPool<T>>,
}

impl<T> View for PluginPools<T> {
    type V = Seq<PoolView<T>>;

    closed spec fn view(&self) -> Seq<PoolView<T>> {
        self.pools@.map_values(|p: PluginPool<T>| p@)
    }
}

impl<T> PluginPools<T> {
    pub open spec fn wf(&self) -> bool {
        forall|i: int| 0 <= i < self@.len() ==> pool_wf(#[trigger] self@[i])
    }

    /// Empty pools, one for each plugin, with the given capacities.
    pub fn new(capacities: &Vec<usize>) -> (r: PluginPools<T>)
        ensures
            r.wf(),
            r@.len() == capacities@.len(),
            forall|i: int|
                0 <= i < capacities@.len() ==> #[trigger] r@[i] == empty_pool::<T>(
                    capacities@[i] as nat,
                ),
    {
        let mut pools: Vec<PluginPool<T>> = Vec::new();
        let mut i: usize = 0;
        while i < capacities.len()
            invariant
                0 <= i <= capacities@.len(),
                pools@.len() == i,
                forall|j: int|
                    0 <= j < i ==> #[trigger] pools@[j]@ == empty_pool::<T>(
                        capacities@[j] as nat,
                    ),
            decreases capacities@.len() - i,
        {
            pools.push(PluginPool::new(capacities[i]));
            i = i + 1;
        }
        PluginPools { pools }
    }

    /// The number of plugins.
    pub fn len(&self) -> (r: usize)
        ensures
            r == self@.len(),
    {
        self.pools.len()
    }

    /// The pool of one plugin.
    pub fn pool(&self, plugin: usize) -> (r: &PluginPool<T>)
        requires
            plugin < self@.len(),
        ensures
            r@ == self@[plugin as int],
    {
        &self.pools[plugin]
    }

    /// Takes the pool of `plugin` out, to operate on it.
    fn take(&mut self, plugin: usize) -> (r: PluginPool<T>)
        requires
            plugin < old(self)@.len(),
        ensures
            r@ == old(self)@[plugin as int],
            final(self)@ == old(self)@.remove(plugin as int),
    {
        let r = self.pools.remove(plugin);
        proof {
            assert(self@ =~= old(self)@.remove(plugin as int));
        }
        r
    }

    /// Puts a pool back where `take` found it.
    fn put(&mut self, plugin: usize, pool: PluginPool<T>)
        requires
            plugin <= old(self)@.len(),
        ensures
            final(self)@ == old(self)@.insert(plugin as int, pool@),
    {
        self.pools.insert(plugin, pool);
        proof {
            assert(self@ =~= old(self)@.insert(plugin as int, pool@));
        }
    }

    /// Asks the pool of `plugin` for an instance for the caller `waiter`.
    pub fn acquire(&mut self, plugin: usize, waiter: u64) -> (r: Acquire<T>)
        requires
            old(self).wf(),
            plugin < old(self)@.len(),
        ensures
            final(self).wf(),
            ({
                let (v, a) = acquire_step(old(self)@[plugin as int], waiter);
                final(self)@ == old(self)@.update(plugin as int, v) && r == a
            }),
    {
        let ghost before = self@;
        let mut p = self.take(plugin);
        let r = p.acquire(waiter);
        self.put(plugin, p);
        proof {
            assert(self@ =~= before.update(plugin as int, p@));
        }
        r
    }

    /// Gives back an instance of `plugin`.
    pub fn release(&mut self, plugin: usize, instance: T) -> (r: Release<T>)
        requires
            old(self).wf(),
            plugin < old(self)@.len(),
            old(self)@[plugin as int].in_use > 0,
        ensures
            final(self).wf(),
            ({
                let (v, a) = release_step(old(self)@[plugin as int], instance);
                final(self)@ == old(self)@.update(plugin as int, v) && r == a
            }),
    {
        let ghost before = self@;
        let mut p = self.take(plugin);
        let r = p.release(instance);
        self.put(plugin, p);
        proof {
            assert(self@ =~= before.update(plugin as int, p@));
        }
        r
    }

    /// Drops a failed instance of `plugin`; returns the caller that may now
    /// create a fresh one, if any was waiting.
    pub fn discard(&mut self, plugin: usize) -> (r: Option<u64>)
        requires
            old(self).wf(),
            plugin < old(self)@.len(),
            old(self)@[plugin as int].in_use > 0,
        ensures
            final(self).wf(),
            ({
                let (v, a) = discard_step(old(self)@[plugin as int]);
                final(self)@ == old(self)@.update(plugin as int, v) && r == a
            }),
    {
        let ghost before = self@;
        let mut p = self.take(plugin);
        let r = p.discard();
        self.put(plugin, p);
        proof {
            assert(self@ =~= before.update(plugin as int, p@));
        }
        r
    }

    /// Ends the bounded wait of the caller `waiter` for `plugin`: a timeout
    /// if it was still queued, which then leaves the queue.
    pub fn wait_timed_out(&mut self, plugin: usize, waiter: u64) -> (r: Result<(), PoolError>)
        requires
            old(self).wf(),
            plugin < old(self)@.len(),
        ensures
            final(self).wf(),
            final(self)@ == old(self)@.update(
                plugin as int,
                cancel_step(old(self)@[plugin as int], waiter),
            ),
            r is Err <==> old(self)@[plugin as int].waiting.contains(waiter),
            r matches Err(e) ==> e == PoolError::ExhaustionTimeout,
    {
        let ghost before = self@;
        let mut p = self.take(plugin);
        let r = p.wait_timed_out(waiter);
        self.put(plugin, p);
        proof {
            assert(self@ =~= before.update(plugin as int, p@));
        }
        r
    }

    /// Takes the caller `waiter` out of the queue of `plugin`; returns
    /// whether it was waiting there.
    pub fn cancel(&mut self, plugin: usize, waiter: u64) -> (r: bool)
        requires
            old(self).wf(),
            plugin < old(self)@.len(),
        ensures
            final(self).wf(),
            final(self)@ == old(self)@.update(
                plugin as int,
                cancel_step(old(self)@[plugin as int], waiter),
            ),
            r == old(self)@[plugin as int].waiting.contains(waiter),
    {
        let ghost before = self@;
        let mut p = self.take(plugin);
        let r = p.cancel(waiter);
        self.put(plugin, p);
        proof {
            assert(self@ =~= before.update(plugin as int, p@));
        }
        r
    }
}

} // verus!
