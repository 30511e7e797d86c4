//! Fetching the build status of many repositories with a bounded number of
//! fetches under way.
//!
//! `FetchPool` does not fetch. It keeps the books for a driver that does:
//! which item to hand to a worker next, how many workers are busy, what has
//! come back and what was collected. Items are known by their place in the
//! input, from 0. A worker that has a status hands it in through a queue of
//! bounded length, from which the collector takes it; one that has none
//! hands in nothing. While the queue is full no status can be handed in, so a
//! worker keeps its place in the pool until the collector has made room. The
//! first fetch that fails ends the whole batch, and what was collected until
//! then is dropped.

use crate::types::BuildStatus;
use vstd::prelude::*;

verus! {

/// How many fetches are under way at most, unless the caller says otherwise.
pub const DEFAULT_POOL_SIZE: usize = 2;

/// How many statuses wait for the collector at most, unless the caller says
/// otherwise.
pub const DEFAULT_QUEUE_CAPACITY: usize = 32;

/// The place of an item in the input and the status that was fetched for it.
pub type Fetched = (usize, BuildStatus);

/// What the driver of a `FetchPool` does next.
#[derive(Debug, PartialEq, Eq, Clone, Copy, Structural)]
pub enum Step {
    /// Hand the next item to a worker: `FetchPool::start`.
    Start,
    /// Take a status from the queue: `FetchPool::collect`.
    Collect,
    /// Wait until a worker comes back, then `FetchPool::complete`.
    Wait,
    /// Nothing is left to do: `FetchPool::finish`.
    Finish,
}

/// The books of a `FetchPool`.
pub struct PoolState<E> {
    /// How many items there are.
    pub total: nat,
    /// How many fetches may be under way at once.
    pub limit: nat,
    /// How many statuses the queue holds at most.
    pub capacity: nat,
    /// How many items were handed to a worker: those before this place.
    pub started: nat,
    /// The items whose fetch is under way.
    pub in_flight: Seq<usize>,
    /// The statuses handed in and not collected yet, the oldest first.
    pub queue: Seq<Fetched>,
    /// The statuses collected, in the order in which they were handed in.
    pub collected: Seq<Fetched>,
    /// The error of the fetch that failed.
    pub failure: Option<E>,
}

impl<E> PoolState<E> {
    /// The books before anything was started.
    pub open spec fn initial(total: nat, limit: nat, capacity: nat) -> Self {
        PoolState {
            total,
            limit,
            capacity,
            started: 0,
            in_flight: Seq::empty(),
            queue: Seq::empty(),
            collected: Seq::empty(),
            failure: None,
        }
    }

    /// The books are in order: never more fetches under way than the pool
    /// allows, never more statuses queued than the queue holds, and every
    /// item under way was started, and is there once.
    pub open spec fn wf(self) -> bool {
        &&& self.limit > 0
        &&& self.capacity > 0
        &&& self.started <= self.total
        &&& self.in_flight.len() <= self.limit
        &&& self.queue.len() <= self.capacity
        &&& self.in_flight.no_duplicates()
        &&& forall|k: int| 0 <= k < self.in_flight.len() ==> self.in_flight[k] < self.started
        &&& forall|k: int| 0 <= k < self.queue.len() ==> (#[trigger] self.queue[k]).0 < self.started
        &&& forall|k: int|
            0 <= k < self.collected.len() ==> (#[trigger] self.collected[k]).0 < self.started
        &&& self.failure is Some ==> self.in_flight.len() == 0
    }

    /// The item `index` is being fetched.
    pub open spec fn is_in_flight(self, index: usize) -> bool {
        self.in_flight.contains(index)
    }

    /// Where `index` stands among the items under way.
    pub open spec fn slot(self, index: usize) -> int {
        choose|k: int| 0 <= k < self.in_flight.len() && self.in_flight[k] == index
    }

    /// A worker is free, an item is left and no fetch has failed.
    pub open spec fn can_start(self) -> bool {
        self.failure is None && self.started < self.total && self.in_flight.len() < self.limit
    }

    /// The queue has room for one more status.
    pub open spec fn has_room(self) -> bool {
        self.queue.len() < self.capacity
    }

    /// The batch is over: a fetch has failed, or every item was fetched and
    /// every status collected.
    pub open spec fn finished(self) -> bool {
        self.failure is Some || (self.started == self.total && self.in_flight.len() == 0
            && self.queue.len() == 0)
    }

    /// What the driver does next. A free worker gets an item first; then the
    /// queue is emptied; then there is nothing to do but wait.
    pub open spec fn next_step(self) -> Step {
        if self.failure is Some {
            Step::Finish
        } else if self.can_start() {
            Step::Start
        } else if self.queue.len() > 0 {
            Step::Collect
        } else if self.in_flight.len() > 0 {
            Step::Wait
        } else {
            Step::Finish
        }
    }

    /// The books after the next item was handed to a worker.
    pub open spec fn start(self) -> Self {
        PoolState {
            started: self.started + 1,
            in_flight: self.in_flight.push(self.started as usize),
            ..self
        }
    }

    /// The books after the fetch of `index` came back with `outcome`. A
    /// status goes to the queue, no status goes nowhere, and an error ends
    /// the batch: it is kept, and the fetches still under way are given up.
    pub open spec fn complete(self, index: usize, outcome: Result<Option<BuildStatus>, E>) -> Self {
        match outcome {
            Ok(Some(status)) => PoolState {
                in_flight: self.in_flight.remove(self.slot(index)),
                queue: self.queue.push((index, status)),
                ..self
            },
            Ok(None) => PoolState { in_flight: self.in_flight.remove(self.slot(index)), ..self },
            Err(error) => PoolState { in_flight: Seq::empty(), failure: Some(error), ..self },
        }
    }

    /// The books after the collector took the oldest status from the queue.
    pub open spec fn collect(self) -> Self {
        PoolState {
            queue: self.queue.drop_first(),
            collected: self.collected.push(self.queue[0]),
            ..self
        }
    }

    /// The statuses that workers have handed in so far, in the order in
    /// which they were handed in: those collected, then those queued.
    pub open spec fn handed_in(self) -> Seq<Fetched> {
        self.collected + self.queue
    }

    /// A measure of the work that is left: it is 0 when nothing is left to
    /// start, to wait for or to collect.
    pub open spec fn work_left(self) -> nat {
        (3 * (self.total - self.started) + 2 * self.in_flight.len() + self.queue.len()) as nat
    }

    /// What the batch comes to: the error of the failed fetch, or else what
    /// was collected.
    pub open spec fn result(self) -> Result<Seq<Fetched>, E> {
        match self.failure {
            Some(error) => Err(error),
            None => Ok(self.collected),
        }
    }
}

/// The books for fetching with a bounded number of fetches under way. See
/// the module's description.
pub struct FetchPool<E> {
    total: usize,
    limit: usize,
    capacity: usize,
    started: usize,
    in_flight: Vec<usize>,
    queue: Vec<Fetched>,
    collected: Vec<Fetched>,
    failure: Option<E>,
}

impl<E> View for FetchPool<E> {
    type V = PoolState<E>;

    closed spec fn view(&self) -> PoolState<E> {
        PoolState {
            total: self.total as nat,
            limit: self.limit as nat,
            capacity: self.capacity as nat,
            started: self.started as nat,
            in_flight: self.in_flight@,
            queue: self.queue@,
            collected: self.collected@,
            failure: self.failure,
        }
    }
}

impl<E> FetchPool<E> {
    /// The books for `total` items, at most `limit` fetches under way and a
    /// queue of `capacity` places.
    pub fn new(total: usize, limit: usize, capacity: usize) -> (pool: Self)
        requires
            limit > 0,
            capacity > 0,
        ensures
            pool@ == PoolState::<E>::initial(total as nat, limit as nat, capacity as nat),
            pool@.wf(),
    {
        FetchPool {
            total,
            limit,
            capacity,
            started: 0,
            in_flight: Vec::new(),
            queue: Vec::new(),
            collected: Vec::new(),
            failure: None,
        }
    }

    /// How many fetches are under way.
    pub fn in_flight(&self) -> (n: usize)
        ensures
            n == self@.in_flight.len(),
    {
        self.in_flight.len()
    }

    /// Whether the item `index` is being fetched.
    pub fn is_in_flight(&self, index: usize) -> (b: bool)
        ensures
            b == self@.is_in_flight(index),
    {
        self.find(index).is_some()
    }

    fn find(&self, index: usize) -> (r: Option<usize>)
        ensures
            match r {
                Some(k) => k < self@.in_flight.len() && self@.in_flight[k as int] == index,
                None => !self@.in_flight.contains(index),
            },
    {
        let mut k: usize = 0;
        while k < self.in_flight.len()
            invariant
                k <= self.in_flight@.len(),
                forall|j: int| 0 <= j < k ==> self.in_flight@[j] != index,
            decreases self.in_flight@.len() - k,
        {
            if self.in_flight[k] == index {
                return Some(k);
            }
            k = k + 1;
        }
        None
    }

    /// Whether the queue has room for one more status.
    pub fn has_room(&self) -> (b: bool)
        ensures
            b == self@.has_room(),
    {
        self.queue.len() < self.capacity
    }

    /// Whether the batch is over.
    pub fn is_finished(&self) -> (b: bool)
        ensures
            b == self@.finished(),
    {
        self.failure.is_some() || (self.started == self.total && self.in_flight.len() == 0
            && self.queue.len() == 0)
    }

    /// What the driver does next.
    pub fn next_step(&self) -> (step: Step)
        ensures
            step == self@.next_step(),
            step == Step::Start ==> self@.can_start(),
            step == Step::Collect ==> self@.queue.len() > 0,
            step == Step::Wait ==> self@.in_flight.len() > 0,
            step == Step::Finish && self@.wf() ==> self@.finished(),
    {
        if self.failure.is_some() {
            Step::Finish
        } else if self.started < self.total && self.in_flight.len() < self.limit {
            Step::Start
        } else if self.queue.len() > 0 {
            Step::Collect
        } else if self.in_flight.len() > 0 {
            Step::Wait
        } else {
            Step::Finish
        }
    }

    /// Hands the next item to a worker and returns its place in the input.
    pub fn start(&mut self) -> (index: usize)
        requires
            old(self)@.wf(),
            old(self)@.can_start(),
        ensures
            index == old(self)@.started,
            final(self)@ == old(self)@.start(),
            final(self)@.wf(),
    {
        let index = self.started;
        proof {
            lemma_start_keeps_wf(self@);
        }
        self.in_flight.push(index);
        self.started = self.started + 1;
        index
    }

    /// Takes in what the fetch of `index` came back with.
    pub fn complete(&mut self, index: usize, outcome: Result<Option<BuildStatus>, E>)
        requires
            old(self)@.wf(),
            old(self)@.is_in_flight(index),
            outcome matches Ok(Some(_)) ==> old(self)@.has_room(),
        ensures
            final(self)@ == old(self)@.complete(index, outcome),
            final(self)@.wf(),
    {
        proof {
            lemma_complete_keeps_wf(self@, index, outcome);
        }
        match outcome {
            Ok(found) => {
                let k = self.find(index).unwrap();
                proof {
                    lemma_slot_unique(self@, index, k as int);
                }
                self.in_flight.remove(k);
                match found {
                    Some(status) => {
                        self.queue.push((index, status));
                    },
                    None => {},
                }
            },
            Err(error) => {
                self.in_flight = Vec::new();
                self.failure = Some(error);
            },
        }
    }

    /// Moves the oldest status from the queue to what was collected.
    pub fn collect(&mut self)
        requires
            old(self)@.wf(),
            old(self)@.queue.len() > 0,
        ensures
            final(self)@ == old(self)@.collect(),
            final(self)@.wf(),
    {
        let fetched = self.queue.remove(0);
        assert(self.queue@ =~= old(self)@.queue.drop_first());
        self.collected.push(fetched);
    }

    /// Ends the batch: the error of the fetch that failed, or else every
    /// status that was fetched, each with the place of its item.
    pub fn finish(self) -> (r: Result<Vec<Fetched>, E>)
        requires
            self@.wf(),
            self@.finished(),
        ensures
            match r {
                Ok(fetched) => {
                    &&& self@.result() == Ok::<Seq<Fetched>, E>(fetched@)
                    &&& forall|k: int|
                        0 <= k < fetched@.len() ==> (#[trigger] fetched@[k]).0 < self@.total
                },
                Err(error) => self@.result() == Err::<Seq<Fetched>, E>(error),
            },
    {
        match self.failure {
            Some(error) => Err(error),
            None => Ok(self.collected),
        }
    }
}

/// In books that are in order an item under way has one slot.
pub proof fn lemma_slot_unique<E>(state: PoolState<E>, index: usize, k: int)
    requires
        state.wf(),
        0 <= k < state.in_flight.len(),
        state.in_flight[k] == index,
    ensures
        state.slot(index) == k,
{
}

/// Starting a fetch keeps the books in order: the pool is never fuller than
/// its limit.
pub proof fn lemma_start_keeps_wf<E>(state: PoolState<E>)
    requires
        state.wf(),
        state.can_start(),
        state.total <= usize::MAX,
    ensures
        state.start().wf(),
        state.start().in_flight.len() <= state.limit,
{
    let after = state.start();
    assert forall|i: int, j: int|
        0 <= i < after.in_flight.len() && 0 <= j < after.in_flight.len() && i
            != j implies after.in_flight[i] != after.in_flight[j] by {
        if i < state.in_flight.len() && j < state.in_flight.len() {
            assert(state.in_flight[i] != state.in_flight[j]);
        }
    }
}

/// Taking in what a fetch came back with keeps the books in order.
pub proof fn lemma_complete_keeps_wf<E>(
    state: PoolState<E>,
    index: usize,
    outcome: Result<Option<BuildStatus>, E>,
)
    requires
        state.wf(),
        state.is_in_flight(index),
        outcome matches Ok(Some(_)) ==> state.has_room(),
    ensures
        state.complete(index, outcome).wf(),
        outcome is Ok ==> state.complete(index, outcome).in_flight.len() + 1
            == state.in_flight.len(),
        state.complete(index, outcome).handed_in() == match outcome {
            Ok(Some(status)) => state.handed_in().push((index, status)),
            _ => state.handed_in(),
        },
{
    let after = state.complete(index, outcome);
    match outcome {
        Ok(Some(status)) => {
            assert(after.handed_in() =~= state.handed_in().push((index, status)));
        },
        _ => {},
    }
    if outcome is Ok {
        let k = state.slot(index);
        assert(after.in_flight =~= state.in_flight.remove(k));
        assert forall|i: int| 0 <= i < after.in_flight.len() implies after.in_flight[i]
            < after.started by {
            if i < k {
                assert(after.in_flight[i] == state.in_flight[i]);
            } else {
                assert(after.in_flight[i] == state.in_flight[i + 1]);
            }
        }
        assert forall|i: int, j: int|
            0 <= i < after.in_flight.len() && 0 <= j < after.in_flight.len() && i
                != j implies after.in_flight[i] != after.in_flight[j] by {
            let oi = if i < k {
                i
            } else {
                i + 1
            };
            let oj = if j < k {
                j
            } else {
                j + 1
            };
            assert(after.in_flight[i] == state.in_flight[oi]);
            assert(after.in_flight[j] == state.in_flight[oj]);
        }
    }
}

/// Collecting keeps the books in order, and loses no status: what was
/// collected, followed by what is queued, stays the same list.
pub proof fn lemma_collect_keeps_wf<E>(state: PoolState<E>)
    requires
        state.wf(),
        state.queue.len() > 0,
    ensures
        state.collect().wf(),
        state.collect().handed_in() == state.handed_in(),
{
    let after = state.collect();
    assert(after.collected + after.queue =~= state.collected + state.queue);
}

/// Every step brings the batch nearer to its end: starting, taking in what
/// came back and collecting each leave less work than there was. So a driver
/// that does what `next_step` says finishes.
pub proof fn lemma_every_step_is_progress<E>(
    state: PoolState<E>,
    index: usize,
    outcome: Result<Option<BuildStatus>, E>,
)
    requires
        state.wf(),
    ensures
        state.can_start() ==> state.start().work_left() < state.work_left(),
        state.queue.len() > 0 ==> state.collect().work_left() < state.work_left(),
        state.is_in_flight(index) && outcome is Ok ==> state.complete(index, outcome).work_left()
            < state.work_left(),
        state.is_in_flight(index) && outcome is Err ==> state.complete(index, outcome).finished(),
        state.work_left() == 0 ==> state.finished(),
        !state.finished() ==> state.next_step() != Step::Finish,
{
    if state.is_in_flight(index) && outcome is Ok {
        let k = state.slot(index);
        assert(state.complete(index, outcome).in_flight.len() == state.in_flight.len() - 1);
    }
}

/// Where a batch ends without a failure, every item was fetched and every
/// status that was handed in was collected, in the order in which it was
/// handed in.
pub proof fn lemma_finished_batch_is_complete<E>(state: PoolState<E>)
    requires
        state.wf(),
        state.finished(),
        state.failure is None,
    ensures
        state.started == state.total,
        state.in_flight.len() == 0,
        state.result() == Ok::<Seq<Fetched>, E>(state.handed_in()),
{
    assert(state.collected + state.queue =~= state.collected);
}

} // verus!
