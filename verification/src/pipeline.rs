//! Bounded-concurrency bookkeeping for a batch of lookups.
//!
//! A batch is a list of items, each resolved by work that runs elsewhere.
//! The pipeline decides which item may start and what becomes of each
//! completion; the caller performs the lookups and reports how they ended.
//! At most `limit` items run at once. Results leave in the order in which
//! the items complete, not in the order of the batch. The first failure ends
//! the batch: what was delivered before stands, items still running are
//! dropped, and nothing starts afterwards.

use vstd::prelude::*;

verus! {

/// Where one item of the batch stands.
#[derive(Clone, Copy, Debug, PartialEq, Eq)]
pub enum Slot {
    /// Not started yet.
    Waiting,
    /// Started and not yet completed.
    Running,
    /// Completed with success; its result was delivered.
    Done,
    /// Given up when the batch failed, or the item that failed.
    Dropped,
}

/// How many items of a batch stand at `kind`.
pub open spec fn count_of(slots: Seq<Slot>, kind: Slot) -> nat
    decreases slots.len(),
{
    if slots.len() == 0 {
        0
    } else {
        count_of(slots.drop_last(), kind) + if slots.last() == kind {
            1nat
        } else {
            0nat
        }
    }
}

/// The batch after a failure: every item that was running is dropped.
pub open spec fn retire(slots: Seq<Slot>) -> Seq<Slot> {
    slots.map_values(
        |s: Slot|
            if s is Running {
                Slot::Dropped
            } else {
                s
            },
    )
}

/// No more items stand at a kind than the batch holds.
pub proof fn lemma_count_le_len(slots: Seq<Slot>, kind: Slot)
    ensures
        count_of(slots, kind) <= slots.len(),
    decreases slots.len(),
{
    if slots.len() > 0 {
        lemma_count_le_len(slots.drop_last(), kind);
    }
}

/// The count of a kind is zero exactly when no item stands at it.
pub proof fn lemma_count_zero(slots: Seq<Slot>, kind: Slot)
    ensures
        count_of(slots, kind) == 0 <==> (forall|i: int| 0 <= i < slots.len() ==> slots[i] != kind),
    decreases slots.len(),
{
    if slots.len() > 0 {
        let front = slots.drop_last();
        lemma_count_zero(front, kind);
        if count_of(slots, kind) == 0 {
            assert forall|i: int| 0 <= i < slots.len() implies slots[i] != kind by {
                if i < front.len() {
                    assert(front[i] == slots[i]);
                }
            }
        } else if slots.last() != kind {
            let i = choose|i: int| 0 <= i < front.len() && front[i] == kind;
            assert(slots[i] == kind);
        }
    }
}

/// The count of a kind is the batch's length exactly when every item stands
/// at it.
pub proof fn lemma_count_full(slots: Seq<Slot>, kind: Slot)
    ensures
        count_of(slots, kind) == slots.len() <==> (forall|i: int|
            0 <= i < slots.len() ==> slots[i] == kind),
    decreases slots.len(),
{
    if slots.len() > 0 {
        let front = slots.drop_last();
        lemma_count_full(front, kind);
        lemma_count_le_len(front, kind);
        if count_of(slots, kind) == slots.len() {
            assert forall|i: int| 0 <= i < slots.len() implies slots[i] == kind by {
                if i < front.len() {
                    assert(front[i] == slots[i]);
                }
            }
        } else if slots.last() == kind {
            let i = choose|i: int| 0 <= i < front.len() && front[i] != kind;
            assert(slots[i] != kind);
        }
    }
}

/// Two batches of one length that agree on which items stand at a kind have
/// the same count of it.
pub proof fn lemma_count_same(a: Seq<Slot>, b: Seq<Slot>, kind: Slot)
    requires
        a.len() == b.len(),
        forall|i: int| 0 <= i < a.len() ==> (a[i] == kind <==> b[i] == kind),
    ensures
        count_of(a, kind) == count_of(b, kind),
    decreases a.len(),
{
    if a.len() > 0 {
        let fa = a.drop_last();
        let fb = b.drop_last();
        assert forall|i: int| 0 <= i < fa.len() implies (fa[i] == kind <==> fb[i] == kind) by {
            assert(fa[i] == a[i]);
            assert(fb[i] == b[i]);
        }
        lemma_count_same(fa, fb, kind);
    }
}

/// Moving one item to another state takes one from the count of the state
/// it leaves and adds one to the count of the state it enters.
pub proof fn lemma_count_update(slots: Seq<Slot>, index: int, to: Slot, kind: Slot)
    requires
        0 <= index < slots.len(),
    ensures
        count_of(slots.update(index, to), kind) + (if slots[index] == kind {
            1nat
        } else {
            0nat
        }) == count_of(slots, kind) + (if to == kind {
            1nat
        } else {
            0nat
        }),
    decreases slots.len(),
{
    let after = slots.update(index, to);
    if index == slots.len() - 1 {
        assert(after.drop_last() =~= slots.drop_last());
    } else {
        lemma_count_update(slots.drop_last(), index, to, kind);
        assert(after.drop_last() =~= slots.drop_last().update(index, to));
    }
}

/// The model of a pipeline.
pub struct PipelineView {
    /// The most items that may run at once.
    pub limit: nat,
    /// How many items have been started: the items before this position.
    pub next: nat,
    /// Where each item of the batch stands.
    pub slots: Seq<Slot>,
    /// Whether an item has failed, which ended the batch.
    pub failed: bool,
    /// The items whose results were delivered, in the order of delivery.
    pub delivered: Seq<int>,
}

impl PipelineView {
    /// A fresh pipeline for `total` items: none started, nothing delivered.
    pub open spec fn initial(total: nat, limit: nat) -> PipelineView {
        PipelineView {
            limit,
            next: 0,
            slots: Seq::new(total, |i: int| Slot::Waiting),
            failed: false,
            delivered: Seq::empty(),
        }
    }

    /// The number of items in the batch.
    pub open spec fn total(self) -> nat {
        self.slots.len()
    }

    /// The number of items that are running.
    pub open spec fn running(self) -> nat {
        count_of(self.slots, Slot::Running)
    }

    /// What holds of every pipeline: items start in batch order, no more
    /// than `limit` run at once, a failed batch runs nothing, and the
    /// delivered items are the items that are done, each listed once.
    pub open spec fn wf(self) -> bool {
        &&& self.next <= self.slots.len()
        &&& forall|i: int|
            0 <= i < self.slots.len() ==> (#[trigger] self.slots[i] is Waiting <==> i >= self.next)
        &&& self.running() <= self.limit
        &&& self.failed ==> self.running() == 0
        &&& !self.failed ==> count_of(self.slots, Slot::Dropped) == 0
        &&& self.delivered.no_duplicates()
        &&& forall|i: int|
            self.delivered.contains(i) <==> (0 <= i < self.slots.len() && self.slots[i] is Done)
        &&& self.delivered.len() == count_of(self.slots, Slot::Done)
    }

    /// Whether the next item may start: the batch has not failed, an item is
    /// left, and fewer than `limit` are running.
    pub open spec fn can_start(self) -> bool {
        &&& !self.failed
        &&& self.next < self.slots.len()
        &&& self.running() < self.limit
    }

    /// The pipeline after the next item has started.
    pub open spec fn start(self) -> PipelineView {
        PipelineView {
            next: self.next + 1,
            slots: self.slots.update(self.next as int, Slot::Running),
            ..self
        }
    }

    /// Whether a completion of item `index` counts: the batch has not
    /// failed and the item is running.
    pub open spec fn can_complete(self, index: int) -> bool {
        &&& !self.failed
        &&& 0 <= index < self.slots.len()
        &&& self.slots[index] is Running
    }

    /// The pipeline after item `index` has completed with success.
    pub open spec fn succeed(self, index: int) -> PipelineView {
        PipelineView {
            slots: self.slots.update(index, Slot::Done),
            delivered: self.delivered.push(index),
            ..self
        }
    }

    /// The pipeline after an item has failed: whatever was running is
    /// dropped, and what was delivered stands.
    pub open spec fn fail(self) -> PipelineView {
        PipelineView { slots: retire(self.slots), failed: true, ..self }
    }

    /// Whether the batch is over: it failed, or every item was started and
    /// none is running.
    pub open spec fn is_finished(self) -> bool {
        self.failed || (self.next == self.slots.len() && self.running() == 0)
    }
}

/// A fresh pipeline is well formed.
pub proof fn lemma_initial_wf(total: nat, limit: nat)
    ensures
        PipelineView::initial(total, limit).wf(),
        PipelineView::initial(total, limit).running() == 0,
{
    let p = PipelineView::initial(total, limit);
    lemma_count_zero(p.slots, Slot::Running);
    lemma_count_zero(p.slots, Slot::Dropped);
    lemma_count_zero(p.slots, Slot::Done);
}

/// Starting an item keeps the pipeline well formed and adds one to the
/// number of running items.
pub proof fn lemma_start_wf(p: PipelineView)
    requires
        p.wf(),
        p.can_start(),
    ensures
        p.start().wf(),
        p.start().running() == p.running() + 1,
        p.start().delivered == p.delivered,
{
    let q = p.start();
    let i = p.next as int;
    assert(p.slots[i] is Waiting);
    lemma_count_update(p.slots, i, Slot::Running, Slot::Running);
    lemma_count_update(p.slots, i, Slot::Running, Slot::Dropped);
    lemma_count_update(p.slots, i, Slot::Running, Slot::Done);
    assert forall|j: int| 0 <= j < q.slots.len() implies (#[trigger] q.slots[j] is Waiting <==> j
        >= q.next) by {
        if j != i {
            assert(q.slots[j] == p.slots[j]);
        }
    }
    assert forall|j: int|
        q.delivered.contains(j) <==> (0 <= j < q.slots.len() && q.slots[j] is Done) by {
        if 0 <= j < q.slots.len() && j != i {
            assert(q.slots[j] == p.slots[j]);
        }
    }
}

/// A successful completion keeps the pipeline well formed, takes one from
/// the number of running items and delivers the item once.
pub proof fn lemma_succeed_wf(p: PipelineView, index: int)
    requires
        p.wf(),
        p.can_complete(index),
    ensures
        p.succeed(index).wf(),
        p.succeed(index).running() + 1 == p.running(),
        !p.delivered.contains(index),
{
    let q = p.succeed(index);
    lemma_count_update(p.slots, index, Slot::Done, Slot::Running);
    lemma_count_update(p.slots, index, Slot::Done, Slot::Dropped);
    lemma_count_update(p.slots, index, Slot::Done, Slot::Done);
    assert forall|j: int| 0 <= j < q.slots.len() implies (#[trigger] q.slots[j] is Waiting <==> j
        >= q.next) by {
        if j != index {
            assert(q.slots[j] == p.slots[j]);
        } else {
            assert(p.slots[index] is Running);
        }
    }
    assert forall|j: int|
        q.delivered.contains(j) <==> (0 <= j < q.slots.len() && q.slots[j] is Done) by {
        if q.delivered.contains(j) {
            let k = choose|k: int| 0 <= k < q.delivered.len() && q.delivered[k] == j;
            if k < p.delivered.len() {
                assert(p.delivered[k] == j);
                assert(p.delivered.contains(j));
            }
        }
        if 0 <= j < q.slots.len() && q.slots[j] is Done {
            if j == index {
                assert(q.delivered[p.delivered.len() as int] == j);
            } else {
                assert(p.slots[j] == q.slots[j]);
                assert(p.delivered.contains(j));
                let k = choose|k: int| 0 <= k < p.delivered.len() && p.delivered[k] == j;
                assert(q.delivered[k] == j);
            }
        }
    }
    assert(q.delivered.no_duplicates()) by {
        assert forall|a: int, b: int|
            0 <= a < q.delivered.len() && 0 <= b < q.delivered.len() && a != b implies q.delivered[a]
            != q.delivered[b] by {
            if a < p.delivered.len() && b < p.delivered.len() {
                assert(p.delivered[a] != p.delivered[b]);
            } else if a < p.delivered.len() {
                assert(p.delivered.contains(p.delivered[a]));
            } else {
                assert(p.delivered.contains(p.delivered[b]));
            }
        }
    }
}

/// A failure keeps the pipeline well formed, leaves nothing running and
/// keeps what was delivered.
pub proof fn lemma_fail_wf(p: PipelineView)
    requires
        p.wf(),
    ensures
        p.fail().wf(),
        p.fail().running() == 0,
        p.fail().delivered == p.delivered,
        p.fail().is_finished(),
{
    let q = p.fail();
    lemma_count_zero(q.slots, Slot::Running);
    lemma_count_same(p.slots, q.slots, Slot::Done);
    assert forall|j: int| 0 <= j < q.slots.len() implies (#[trigger] q.slots[j] is Waiting <==> j
        >= q.next) by {
        assert(p.slots[j] is Waiting <==> j >= p.next);
    }
}

/// At every moment the number of running items is at most the limit and at
/// most the size of the batch.
pub proof fn lemma_running_bounded(p: PipelineView)
    requires
        p.wf(),
    ensures
        p.running() <= p.limit,
        p.running() <= p.total(),
{
    lemma_count_le_len(p.slots, Slot::Running);
}

/// Once the batch has failed it is over: no item can start, no completion
/// counts, and so nothing more is delivered.
pub proof fn lemma_failure_is_final(p: PipelineView)
    requires
        p.wf(),
        p.failed,
    ensures
        p.is_finished(),
        !p.can_start(),
        forall|index: int| !p.can_complete(index),
{
}

/// A batch that ended without a failure has delivered every item exactly
/// once.
pub proof fn lemma_finished_delivers_all(p: PipelineView)
    requires
        p.wf(),
        p.is_finished(),
        !p.failed,
    ensures
        p.delivered.len() == p.total(),
        p.delivered.no_duplicates(),
        forall|i: int| 0 <= i < p.total() ==> p.delivered.contains(i),
        forall|k: int| 0 <= k < p.delivered.len() ==> 0 <= #[trigger] p.delivered[k] < p.total(),
{
    lemma_count_zero(p.slots, Slot::Running);
    lemma_count_zero(p.slots, Slot::Dropped);
    assert forall|i: int| 0 <= i < p.slots.len() implies p.slots[i] == Slot::Done by {
        assert(!(p.slots[i] is Waiting));
        assert(p.slots[i] != Slot::Running);
        assert(p.slots[i] != Slot::Dropped);
    }
    lemma_count_full(p.slots, Slot::Done);
    assert forall|k: int| 0 <= k < p.delivered.len() implies 0 <= #[trigger] p.delivered[k]
        < p.total() by {
        assert(p.delivered.contains(p.delivered[k]));
    }
}

/// While the batch is not over there is something to do: an item may
/// start, or an item is running and its completion is awaited. With a
/// limit of at least one, a batch therefore never stalls.
pub proof fn lemma_progress(p: PipelineView)
    requires
        p.wf(),
        p.limit >= 1,
        !p.is_finished(),
    ensures
        p.can_start() || p.running() > 0,
{
}

/// What may happen to a pipeline: the caller asks for the next item, or
/// reports that an item succeeded or failed.
pub enum Event {
    Start,
    Succeed(int),
    Fail(int),
}

impl PipelineView {
    /// The pipeline after one event. An event that does not apply changes
    /// nothing.
    pub open spec fn step(self, event: Event) -> PipelineView {
        match event {
            Event::Start => if self.can_start() {
                self.start()
            } else {
                self
            },
            Event::Succeed(index) => if self.can_complete(index) {
                self.succeed(index)
            } else {
                self
            },
            Event::Fail(index) => if self.can_complete(index) {
                self.fail()
            } else {
                self
            },
        }
    }

    /// The pipeline after a sequence of events, taken in order.
    pub open spec fn run(self, events: Seq<Event>) -> PipelineView
        decreases events.len(),
    {
        if events.len() == 0 {
            self
        } else {
            self.run(events.drop_last()).step(events.last())
        }
    }
}

/// One event keeps a pipeline well formed, and keeps what was delivered:
/// the new list of deliveries starts with the old one, and is longer by at
/// most the one item that succeeded.
pub proof fn lemma_step_wf(p: PipelineView, event: Event)
    requires
        p.wf(),
    ensures
        p.step(event).wf(),
        p.step(event).limit == p.limit,
        p.step(event).total() == p.total(),
        p.delivered.is_prefix_of(p.step(event).delivered),
        p.step(event).delivered.len() <= p.delivered.len() + 1,
{
    match event {
        Event::Start => {
            if p.can_start() {
                lemma_start_wf(p);
            }
        },
        Event::Succeed(index) => {
            if p.can_complete(index) {
                lemma_succeed_wf(p, index);
            }
        },
        Event::Fail(index) => {
            if p.can_complete(index) {
                lemma_fail_wf(p);
            }
        },
    }
}

/// Whatever happens, in whatever order, the number of running items never
/// exceeds the limit nor the size of the batch, and nothing that was
/// delivered is taken back.
pub proof fn lemma_run_bounded(p: PipelineView, events: Seq<Event>)
    requires
        p.wf(),
    ensures
        p.run(events).wf(),
        p.run(events).limit == p.limit,
        p.run(events).total() == p.total(),
        p.run(events).running() <= p.limit,
        p.run(events).running() <= p.total(),
        p.delivered.is_prefix_of(p.run(events).delivered),
    decreases events.len(),
{
    if events.len() > 0 {
        let before = p.run(events.drop_last());
        lemma_run_bounded(p, events.drop_last());
        lemma_step_wf(before, events.last());
    }
    lemma_running_bounded(p.run(events));
}

/// After a failure nothing happens any more: whatever events follow, the
/// pipeline stays as the failure left it. No item starts, and what was
/// delivered before the failure is all that is delivered.
pub proof fn lemma_run_after_failure(p: PipelineView, events: Seq<Event>)
    requires
        p.wf(),
        p.failed,
    ensures
        p.run(events) == p,
    decreases events.len(),
{
    if events.len() > 0 {
        lemma_run_after_failure(p, events.drop_last());
    }
}

/// A failure is the last change: a run that leaves the pipeline failed
/// has delivered exactly what was delivered when the failure came.
pub proof fn lemma_failure_keeps_deliveries(p: PipelineView, index: int, later: Seq<Event>)
    requires
        p.wf(),
        p.can_complete(index),
    ensures
        p.step(Event::Fail(index)).run(later).failed,
        p.step(Event::Fail(index)).run(later).delivered == p.delivered,
        p.step(Event::Fail(index)).run(later).running() == 0,
{
    lemma_fail_wf(p);
    lemma_run_after_failure(p.fail(), later);
}

/// What becomes of one reported completion.
#[derive(Debug, PartialEq, Eq)]
pub enum Step<T, E> {
    /// The item succeeded: its result leaves the pipeline now.
    Yield(T),
    /// The item failed: the batch ends with this error.
    Terminate(E),
    /// The report does not count: the item was not running, or the batch
    /// had already failed.
    Ignored,
}

/// The bookkeeping of one batch.
pub struct Pipeline {
    limit: usize,
    next: usize,
    running: usize,
    slots: Vec<Slot>,
    failed: bool,
    delivered: Ghost<Seq<int>>,
}

impl View for Pipeline {
    type V = PipelineView;

    closed spec fn view(&self) -> PipelineView {
        PipelineView {
            limit: self.limit as nat,
            next: self.next as nat,
            slots: self.slots@,
            failed: self.failed,
            delivered: self.delivered@,
        }
    }
}

/// Marks every running item of a batch as dropped.
fn retire_all(slots: &mut Vec<Slot>)
    ensures
        final(slots)@ == retire(old(slots)@),
{
    let n = slots.len();
    let ghost before = slots@;
    let mut i: usize = 0;
    while i < n
        invariant
            i <= n,
            slots@.len() == n,
            before.len() == n,
            forall|j: int| 0 <= j < i ==> slots@[j] == retire(before)[j],
            forall|j: int| i <= j < n ==> slots@[j] == before[j],
        decreases n - i,
    {
        match slots[i] {
            Slot::Running => {
                slots.set(i, Slot::Dropped);
            },
            _ => {},
        }
        i = i + 1;
    }
    assert(slots@ =~= retire(before));
}

impl Pipeline {
    /// Whether the bookkeeping is consistent. Every value that this module
    /// hands out is.
    pub closed spec fn wf(&self) -> bool {
        &&& self@.wf()
        &&& self.running == self@.running()
    }

    /// A consistent pipeline has a well-formed model.
    pub proof fn lemma_view_wf(&self)
        requires
            self.wf(),
        ensures
            self@.wf(),
    {
    }

    /// A pipeline for a batch of `total` items of which at most `limit` run
    /// at once.
    pub fn new(total: usize, limit: usize) -> (pipeline: Pipeline)
        ensures
            pipeline.wf(),
            pipeline@ == PipelineView::initial(total as nat, limit as nat),
    {
        let mut slots: Vec<Slot> = Vec::new();
        let mut i: usize = 0;
        while i < total
            invariant
                i <= total,
                slots@ =~= Seq::new(i as nat, |j: int| Slot::Waiting),
            decreases total - i,
        {
            slots.push(Slot::Waiting);
            i = i + 1;
        }
        proof {
            lemma_initial_wf(total as nat, limit as nat);
        }
        Pipeline { limit, next: 0, running: 0, slots, failed: false, delivered: Ghost(Seq::empty()) }
    }

    /// The number of items in the batch.
    pub fn total(&self) -> (total: usize)
        ensures
            total == self@.total(),
    {
        self.slots.len()
    }

    /// The most items that may run at once.
    pub fn limit(&self) -> (limit: usize)
        ensures
            limit == self@.limit,
    {
        self.limit
    }

    /// The number of items that are running now.
    pub fn running(&self) -> (running: usize)
        requires
            self.wf(),
        ensures
            running == self@.running(),
            running <= self@.limit,
            running <= self@.total(),
    {
        proof {
            lemma_running_bounded(self@);
        }
        self.running
    }

    /// Whether an item has failed.
    pub fn has_failed(&self) -> (failed: bool)
        ensures
            failed == self@.failed,
    {
        self.failed
    }

    /// Whether the batch is over.
    pub fn is_finished(&self) -> (finished: bool)
        requires
            self.wf(),
        ensures
            finished == self@.is_finished(),
    {
        self.failed || (self.next == self.slots.len() && self.running == 0)
    }

    /// Where item `index` stands, if the batch has such an item.
    pub fn slot(&self, index: usize) -> (slot: Option<Slot>)
        ensures
            slot == if index < self@.total() {
                Some(self@.slots[index as int])
            } else {
                None
            },
    {
        if index < self.slots.len() {
            Some(self.slots[index])
        } else {
            None
        }
    }

    /// Starts the next item of the batch if one may start, and says which.
    /// Items start in the order of the batch.
    pub fn start_next(&mut self) -> (started: Option<usize>)
        requires
            old(self).wf(),
        ensures
            final(self).wf(),
            final(self)@ == old(self)@.step(Event::Start),
            old(self)@.can_start() ==> final(self)@ == old(self)@.start() && (started matches Some(
                index,
            ) && index == old(self)@.next),
            !old(self)@.can_start() ==> started is None && final(self)@ == old(self)@,
    {
        if self.failed || self.next >= self.slots.len() || self.running >= self.limit {
            return None;
        }
        proof {
            lemma_start_wf(self@);
        }
        let index = self.next;
        self.slots.set(index, Slot::Running);
        self.next = index + 1;
        self.running = self.running + 1;
        Some(index)
    }

    /// Takes the report that item `index` has completed with `outcome`.
    ///
    /// A success of a running item is delivered at once. A failure of a
    /// running item ends the batch. A report for an item that is not
    /// running, or one that arrives after the batch has failed, changes
    /// nothing.
    pub fn complete<T, E>(&mut self, index: usize, outcome: Result<T, E>) -> (step: Step<T, E>)
        requires
            old(self).wf(),
        ensures
            final(self).wf(),
            final(self)@ == old(self)@.step(
                match outcome {
                    Ok(_) => Event::Succeed(index as int),
                    Err(_) => Event::Fail(index as int),
                },
            ),
            !old(self)@.can_complete(index as int) ==> step is Ignored && final(self)@ == old(
                self,
            )@,
            old(self)@.can_complete(index as int) ==> match outcome {
                Ok(value) => step == Step::<T, E>::Yield(value) && final(self)@ == old(
                    self,
                )@.succeed(index as int),
                Err(error) => step == Step::<T, E>::Terminate(error) && final(self)@ == old(
                    self,
                )@.fail(),
            },
    {
        if self.failed || index >= self.slots.len() {
            return Step::Ignored;
        }
        match self.slots[index] {
            Slot::Running => {},
            _ => {
                return Step::Ignored;
            },
        }
        match outcome {
            Ok(value) => {
                proof {
                    lemma_succeed_wf(self@, index as int);
                }
                self.slots.set(index, Slot::Done);
                self.running = self.running - 1;
                self.delivered = Ghost(self.delivered@.push(index as int));
                Step::Yield(value)
            },
            Err(error) => {
                proof {
                    lemma_fail_wf(self@);
                }
                retire_all(&mut self.slots);
                self.running = 0;
                self.failed = true;
                Step::Terminate(error)
            },
        }
    }
}

} // verus!
